//! The input router.
//!
//! One discrete key event maps to exactly one navigator call or to a
//! pass-through signal. Forward and backward keys report handled exactly
//! when the navigator moved, so the host repaints exactly on movement; home
//! and end always report handled; the exit key and anything unrecognised are
//! reported unhandled, since exiting belongs to the host.

use vstd::prelude::*;
use crate::deck::{advance_pos, last_pos, retreat_pos, Deck};

verus! {

/// The key classes the viewer understands. The host translates its raw key
/// codes into these, one for one; everything the viewer does not own maps
/// to `Other`.
#[derive(Clone, Copy, PartialEq, Eq, Structural, Debug)]
pub enum NavKey {
    Right,
    Left,
    PageUp,
    PageDown,
    Space,
    Backspace,
    Home,
    End,
    Escape,
    Other,
}

/// Routes one key event to the deck navigator and reports whether the
/// viewer handled it; a repaint is owed exactly when it did.
pub fn route_key(deck: &mut Deck, key: NavKey) -> (handled: bool)
    requires
        old(deck).wf(),
    ensures
        final(deck).wf(),
        final(deck).slides_seq() == old(deck).slides_seq(),
        final(deck).total() == old(deck).total(),
        match key {
            NavKey::Right | NavKey::PageDown | NavKey::Space => {
                &&& final(deck).cur() == advance_pos(old(deck).cur(), old(deck).total())
                &&& (handled <==> old(deck).cur() + 1 < old(deck).total())
            },
            NavKey::Left | NavKey::PageUp | NavKey::Backspace => {
                &&& final(deck).cur() == retreat_pos(old(deck).cur())
                &&& (handled <==> old(deck).cur() > 0)
            },
            NavKey::Home => final(deck).cur() == 0 && handled,
            NavKey::End => final(deck).cur() == last_pos(old(deck).total()) && handled,
            NavKey::Escape | NavKey::Other => final(deck).cur() == old(deck).cur() && !handled,
        },
{
    match key {
        NavKey::Right | NavKey::PageDown | NavKey::Space => deck.advance(),
        NavKey::Left | NavKey::PageUp | NavKey::Backspace => deck.retreat(),
        NavKey::Home => {
            deck.jump_first();
            true
        },
        NavKey::End => {
            deck.jump_last();
            true
        },
        NavKey::Escape => false,
        NavKey::Other => false,
    }
}

} // verus!
