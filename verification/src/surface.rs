//! Trusted boundary around `appcui::graphics::Surface`.
//!
//! A surface is a `width x height` grid of character cells. Verus sees the
//! type as opaque; its contents are modelled by the uninterpreted function
//! [`cells`], a map from grid coordinates to [`Cell`] values, and by
//! [`unclipped`], which says that the surface's clip area covers the whole
//! grid and its origin is `(0, 0)` (true of every freshly created surface;
//! the host UI narrows the clip only on surfaces it hands out itself).
//!
//! `appcui` writes a character into a cell with merge semantics: a NUL glyph
//! keeps the glyph underneath, and a transparent colour (palette value 16)
//! keeps the colour underneath. [`written_cell`] states exactly that, and
//! every mutating wrapper's contract is phrased with it.

use vstd::prelude::*;

verus! {

/// The colour palette index of black in `appcui`'s palette.
pub const INK_BLACK: u8 = 0;
/// The colour palette index of gray in `appcui`'s palette.
pub const INK_GRAY: u8 = 8;
/// The colour palette index of white in `appcui`'s palette.
pub const INK_WHITE: u8 = 15;
/// The colour palette index of the transparent marker in `appcui`'s palette.
pub const INK_TRANSPARENT: u8 = 16;

/// One character cell of a surface: a glyph and two palette colours
/// (foreground and background), each a palette index in `0 ..= 16`.
#[derive(Clone, Copy, PartialEq, Eq, Structural, Debug)]
pub struct Cell {
    pub code: char,
    pub fg: u8,
    pub bg: u8,
}

/// A cell is well formed when both colours are palette values.
pub open spec fn cell_wf(c: Cell) -> bool {
    c.fg <= INK_TRANSPARENT && c.bg <= INK_TRANSPARENT
}

/// The result of writing `over` onto a cell holding `under`: a NUL glyph and
/// transparent colours in `over` leave the corresponding part of `under` in
/// place, everything else replaces it.
pub open spec fn written_cell(under: Cell, over: Cell) -> Cell {
    Cell {
        code: if over.code == '\0' { under.code } else { over.code },
        fg: if over.fg == INK_TRANSPARENT { under.fg } else { over.fg },
        bg: if over.bg == INK_TRANSPARENT { under.bg } else { over.bg },
    }
}

/// The coordinates of a `width x height` grid.
pub open spec fn grid_dom(width: int, height: int) -> Set<(int, int)> {
    Set::new(|p: (int, int)| 0 <= p.0 < width && 0 <= p.1 < height)
}

#[verifier::external_type_specification]
#[verifier::external_body]
pub struct ExSurface(appcui::graphics::Surface);

/// The contents of a surface: the cell at each coordinate of its grid.
pub uninterp spec fn cells(s: appcui::graphics::Surface) -> Map<(int, int), Cell>;

/// Whether the surface's clip area is its whole grid and its origin `(0, 0)`.
pub uninterp spec fn unclipped(s: appcui::graphics::Surface) -> bool;

/// Relies on `appcui`'s `Surface::new`: a fresh surface of the given size
/// (clamped to `1 ..= 10000` per axis, which the precondition makes exact),
/// filled with spaces in white on black, with a full clip area and a zero
/// origin.
#[verifier::external_body]
pub fn surface_new(width: u32, height: u32) -> (s: appcui::graphics::Surface)
    requires
        1 <= width <= 10000,
        1 <= height <= 10000,
    ensures
        unclipped(s),
        cells(s).dom() == grid_dom(width as int, height as int),
        forall|p: (int, int)| #[trigger] cells(s).dom().contains(p)
            ==> cells(s)[p] == (Cell { code: ' ', fg: INK_WHITE, bg: INK_BLACK }),
{
    appcui::graphics::Surface::new(width, height)
}

/// Relies on `appcui`'s `Surface::clear`: writes the given cell over every
/// cell of the clip area, which on an unclipped surface is the whole grid.
#[verifier::external_body]
pub fn surface_clear(s: &mut appcui::graphics::Surface, c: Cell)
    requires
        unclipped(*old(s)),
        cell_wf(c),
    ensures
        unclipped(*final(s)),
        cells(*final(s)).dom() == cells(*old(s)).dom(),
        forall|p: (int, int)| #[trigger] cells(*final(s)).dom().contains(p)
            ==> cells(*final(s))[p] == written_cell(cells(*old(s))[p], c),
{
    let ch = appcui::graphics::Character::new(
        c.code,
        appcui::graphics::Color::from_value(c.fg as i32).unwrap(),
        appcui::graphics::Color::from_value(c.bg as i32).unwrap(),
        appcui::graphics::CharFlags::None,
    );
    s.clear(ch);
}

/// Relies on `appcui`'s `Surface::draw_surface`: writes every cell of the
/// source grid onto this surface at offset `(x, y)`, clipped to this
/// surface's grid, cell by cell with merge semantics.
#[verifier::external_body]
pub fn surface_draw(s: &mut appcui::graphics::Surface, x: i32, y: i32, src: &appcui::graphics::Surface)
    requires
        unclipped(*old(s)),
        -100000 <= x <= 100000,
        -100000 <= y <= 100000,
    ensures
        unclipped(*final(s)),
        cells(*final(s)).dom() == cells(*old(s)).dom(),
        forall|p: (int, int)| #[trigger] cells(*final(s)).dom().contains(p)
            ==> cells(*final(s))[p] == (if cells(*src).dom().contains((p.0 - x, p.1 - y)) {
                written_cell(cells(*old(s))[p], cells(*src)[(p.0 - x, p.1 - y)])
            } else {
                cells(*old(s))[p]
            }),
{
    s.draw_surface(x, y, src);
}

/// Relies on `appcui`'s `Surface::write_string` in single-line mode: writes
/// the characters of `text` into row `y` starting at column `x`, in the given
/// colours, clipped to this surface's grid.
#[verifier::external_body]
pub fn surface_write_text(
    s: &mut appcui::graphics::Surface,
    x: i32,
    y: i32,
    text: &str,
    fg: u8,
    bg: u8,
)
    requires
        unclipped(*old(s)),
        fg <= INK_TRANSPARENT,
        bg <= INK_TRANSPARENT,
        -100000 <= x,
        x + text@.len() <= 100000,
    ensures
        unclipped(*final(s)),
        cells(*final(s)).dom() == cells(*old(s)).dom(),
        forall|p: (int, int)| #[trigger] cells(*final(s)).dom().contains(p)
            ==> cells(*final(s))[p] == (if p.1 == y && x <= p.0 < x + text@.len() {
                written_cell(cells(*old(s))[p], Cell { code: text@[p.0 - x], fg, bg })
            } else {
                cells(*old(s))[p]
            }),
{
    let attr = appcui::graphics::CharAttribute::with_color(
        appcui::graphics::Color::from_value(fg as i32).unwrap(),
        appcui::graphics::Color::from_value(bg as i32).unwrap(),
    );
    s.write_string(x, y, text, attr, false);
}

/// Relies on `appcui`'s `Surface::char`: returns the cell at `(x, y)`, or
/// `None` outside the clip area, which on an unclipped surface is exactly
/// outside the grid.
#[verifier::external_body]
fn surface_char_at(s: &appcui::graphics::Surface, x: i32, y: i32) -> (r: Option<Cell>)
    requires
        unclipped(*s),
    ensures
        r is Some <==> cells(*s).dom().contains((x as int, y as int)),
        r is Some ==> r.unwrap() == cells(*s)[(x as int, y as int)]
            && cell_wf(r.unwrap()),
{
    s.char(x, y).map(|c| Cell {
        code: c.code,
        fg: c.foreground as u8,
        bg: c.background as u8,
    })
}

/// The cell of a surface at `(x, y)`, or `None` outside its grid.
pub fn cell_at(s: &appcui::graphics::Surface, x: i32, y: i32) -> (r: Option<Cell>)
    requires
        unclipped(*s),
    ensures
        r is Some <==> cells(*s).dom().contains((x as int, y as int)),
        r is Some ==> r.unwrap() == cells(*s)[(x as int, y as int)]
            && cell_wf(r.unwrap()),
{
    surface_char_at(s, x, y)
}

} // verus!
