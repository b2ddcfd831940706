//! A linear slide-deck viewer core: a deck of decoded slide surfaces, a
//! bounded navigator over them, a frame compositor that layers the current
//! slide and a status overlay onto a canvas, and a key router that maps
//! discrete key events to navigation steps.
//!
//! Drawing is done by `appcui` surfaces; every call into that crate goes
//! through the trusted boundary in [`surface`], whose contracts model a
//! surface as a grid of cells.

pub mod surface;
pub mod text;
pub mod deck;
pub mod compose;
pub mod router;
