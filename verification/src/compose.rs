//! The frame compositor.
//!
//! One repaint composes a fresh canvas in a fixed order: clear everything to
//! the viewer's blank cell, blit the current slide at the origin (clipped to
//! the canvas), then draw the position indicator right-aligned and the help
//! line left-aligned, both two cells in from the bottom and side edges, so
//! the overlay is never occluded by slide content. On an empty deck the
//! frame stays blank, no overlay is drawn, and the caller is told so it can
//! emit a diagnostic for this frame.

use vstd::prelude::*;
use vstd::string::StrSliceExecFns;
use crate::surface::{
    cells, grid_dom, surface_clear, surface_draw, surface_new, surface_write_text, unclipped,
    written_cell, Cell, INK_BLACK, INK_GRAY, INK_WHITE,
};
use crate::deck::{position_text, Deck};

verus! {

/// Whether this frame shows a slide, or the deck was empty and only the
/// cleared canvas was produced (the degraded, diagnostic-worthy state).
#[derive(Clone, Copy, PartialEq, Eq, Structural, Debug)]
pub enum FrameStatus {
    Rendered,
    EmptyDeck,
}

/// The viewer's blank cell: a space in the viewer's background colour, black
/// on black.
pub open spec fn blank_cell() -> Cell {
    Cell { code: ' ', fg: INK_BLACK, bg: INK_BLACK }
}

/// The fixed help line: navigation hint glyphs and the exit hint.
pub open spec fn help_text() -> Seq<char> {
    "◄ ► Navigate | ESC Exit"@
}

/// The content layer at `p`: the slide cell written over the cleared canvas
/// where the slide covers `p`, the blank cell elsewhere.
pub open spec fn content_cell(slide: Map<(int, int), Cell>, p: (int, int)) -> Cell {
    if slide.dom().contains(p) {
        written_cell(blank_cell(), slide[p])
    } else {
        blank_cell()
    }
}

/// `base` overlaid with `text` along row `row` starting at column `start`,
/// in colour `fg` on the viewer's background.
pub open spec fn overlay_cell(
    base: Cell,
    row: int,
    start: int,
    text: Seq<char>,
    fg: u8,
    p: (int, int),
) -> Cell {
    if p.1 == row && start <= p.0 < start + text.len() {
        written_cell(base, Cell { code: text[p.0 - start], fg, bg: INK_BLACK })
    } else {
        base
    }
}

/// The finished frame's cell at `p`, for a canvas of `width x height`
/// showing slide contents `slide` at position `cur` of `total`: the content
/// layer, under the right-aligned position indicator, under the left-aligned
/// help line, both on the row two up from the bottom edge.
pub open spec fn composed_cell(
    slide: Map<(int, int), Cell>,
    cur: nat,
    total: nat,
    width: int,
    height: int,
    p: (int, int),
) -> Cell {
    overlay_cell(
        overlay_cell(
            content_cell(slide, p),
            height - 2,
            width - position_text(cur, total).len() - 2,
            position_text(cur, total),
            INK_WHITE,
            p,
        ),
        height - 2,
        2,
        help_text(),
        INK_GRAY,
        p,
    )
}

/// Composes one frame of the given size for the deck's current state.
///
/// The returned surface is a fresh canvas holding the finished frame; the
/// status says whether a slide was shown. On an empty deck the frame is the
/// cleared canvas and nothing else, and every cell of a rendered frame is
/// pinned by [`composed_cell`].
pub fn compose_frame(deck: &Deck, width: u32, height: u32) -> (r: (
    appcui::graphics::Surface,
    FrameStatus,
))
    requires
        deck.wf(),
        1 <= width <= 10000,
        1 <= height <= 10000,
    ensures
        unclipped(r.0),
        cells(r.0).dom() == grid_dom(width as int, height as int),
        r.1 is Rendered <==> deck.total() > 0,
        deck.total() == 0 ==> forall|p: (int, int)|
            #[trigger] cells(r.0).dom().contains(p) ==> cells(r.0)[p] == blank_cell(),
        deck.total() > 0 ==> forall|p: (int, int)|
            #[trigger] cells(r.0).dom().contains(p) ==> cells(r.0)[p] == composed_cell(
                cells(deck.slides_seq()[deck.cur() as int]),
                deck.cur(),
                deck.total(),
                width as int,
                height as int,
                p,
            ),
{
    let ghost w = width as int;
    let ghost h = height as int;
    let mut canvas = surface_new(width, height);
    surface_clear(&mut canvas, Cell { code: ' ', fg: INK_BLACK, bg: INK_BLACK });
    let ghost c1 = cells(canvas);
    proof {
        assert forall|p: (int, int)| #[trigger] c1.dom().contains(p) implies c1[p]
            == blank_cell() by {}
    }
    let slide = match deck.current_slide() {
        None => {
            return (canvas, FrameStatus::EmptyDeck);
        },
        Some(slide) => slide,
    };
    let ghost slide_cells = cells(*slide);
    surface_draw(&mut canvas, 0, 0, slide);
    let ghost c2 = cells(canvas);
    proof {
        assert forall|p: (int, int)| #[trigger] c2.dom().contains(p) implies c2[p]
            == content_cell(slide_cells, p) by {
            assert(c1.dom().contains(p));
            assert((p.0 - 0, p.1 - 0) == p);
        }
    }
    let info = deck.position_indicator();
    let info_len: usize = info.as_str().unicode_len();
    let x_info: i32 = (width as i32) - (info_len as i32) - 2;
    let y_status: i32 = (height as i32) - 2;
    surface_write_text(&mut canvas, x_info, y_status, info.as_str(), INK_WHITE, INK_BLACK);
    let ghost c3 = cells(canvas);
    proof {
        assert forall|p: (int, int)| #[trigger] c3.dom().contains(p) implies c3[p]
            == overlay_cell(
            c2[p],
            h - 2,
            w - position_text(deck.cur(), deck.total()).len() - 2,
            position_text(deck.cur(), deck.total()),
            INK_WHITE,
            p,
        ) by {
            assert(c2.dom().contains(p));
        }
    }
    let help: &str = "◄ ► Navigate | ESC Exit";
    proof {
        reveal_strlit("◄ ► Navigate | ESC Exit");
        assert(help@.len() == 23);
    }
    surface_write_text(&mut canvas, 2, y_status, help, INK_GRAY, INK_BLACK);
    let ghost c4 = cells(canvas);
    proof {
        assert forall|p: (int, int)| #[trigger] c4.dom().contains(p) implies c4[p]
            == composed_cell(slide_cells, deck.cur(), deck.total(), w, h, p) by {
            assert(c3.dom().contains(p));
        }
    }
    (canvas, FrameStatus::Rendered)
}

/// Composition is a function of the viewer state and the canvas size alone:
/// any two frames composed from the same deck state at the same size hold
/// the same cell at every coordinate, so repainting without a state change
/// reproduces the frame exactly.
pub proof fn lemma_compose_deterministic(
    slide: Map<(int, int), Cell>,
    cur: nat,
    total: nat,
    width: int,
    height: int,
    a: Map<(int, int), Cell>,
    b: Map<(int, int), Cell>,
)
    requires
        a.dom() == grid_dom(width, height),
        b.dom() == grid_dom(width, height),
        forall|p: (int, int)| #[trigger] a.dom().contains(p) ==> a[p] == composed_cell(
            slide,
            cur,
            total,
            width,
            height,
            p,
        ),
        forall|p: (int, int)| #[trigger] b.dom().contains(p) ==> b[p] == composed_cell(
            slide,
            cur,
            total,
            width,
            height,
            p,
        ),
    ensures
        forall|p: (int, int)| #[trigger] a.dom().contains(p) ==> a[p] == b[p],
{
}

} // verus!
