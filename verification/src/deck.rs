//! The deck of decoded slides and the navigator over it.
//!
//! A deck is an ordered, immutable sequence of slide surfaces together with
//! the current position. The position is always in bounds on a non-empty
//! deck and `0` on an empty one; every navigation operation is total and
//! absorbs its boundary as a no-op instead of failing.

use vstd::prelude::*;
use crate::text::{dec_rep, lemma_dec_rep_len_usize, push_decimal};

verus! {

/// The index reached from `i` by one forward step in a deck of `n` slides:
/// one more if that stays below `n`, unchanged otherwise.
pub open spec fn advance_pos(i: nat, n: nat) -> nat {
    if i + 1 < n { i + 1 } else { i }
}

/// The index reached from `i` by one backward step: one less if `i` is
/// positive, unchanged otherwise.
pub open spec fn retreat_pos(i: nat) -> nat {
    if i > 0 { (i - 1) as nat } else { 0 }
}

/// The index of the last slide of a deck of `n` slides, and `0` when the
/// deck is empty.
pub open spec fn last_pos(n: nat) -> nat {
    if n > 0 { (n - 1) as nat } else { 0 }
}

/// The index reached from `i` by `k` forward steps in a deck of `n` slides.
pub open spec fn advance_pos_n(i: nat, n: nat, k: nat) -> nat
    decreases k,
{
    if k == 0 { i } else { advance_pos(advance_pos_n(i, n, (k - 1) as nat), n) }
}

/// The index reached from `i` by `k` backward steps.
pub open spec fn retreat_pos_n(i: nat, k: nat) -> nat
    decreases k,
{
    if k == 0 { i } else { retreat_pos(retreat_pos_n(i, (k - 1) as nat)) }
}

/// On a non-empty deck of `n` slides, `k` forward steps from a valid index
/// `i` land on `min(i + k, n - 1)`: steps saturate at the last slide.
pub proof fn lemma_advance_n(i: nat, n: nat, k: nat)
    requires
        n > 0,
        i < n,
    ensures
        advance_pos_n(i, n, k) == if i + k < n { i + k } else { (n - 1) as nat },
    decreases k,
{
    if k > 0 {
        lemma_advance_n(i, n, (k - 1) as nat);
    }
}

/// `k` backward steps from index `i` land on `max(i - k, 0)`: steps saturate
/// at the first slide.
pub proof fn lemma_retreat_n(i: nat, k: nat)
    ensures
        retreat_pos_n(i, k) == if k <= i { (i - k) as nat } else { 0 },
    decreases k,
{
    if k > 0 {
        lemma_retreat_n(i, (k - 1) as nat);
    }
}

/// Jumping to the first slide and then to the last lands on the last index
/// of any non-empty deck, wherever the position stood before: `d1` is any
/// deck state satisfying `jump_first`'s postcondition for `d0`, and `d2` any
/// state satisfying `jump_last`'s postcondition for `d1`.
pub proof fn lemma_jump_first_then_last(d0: Deck, d1: Deck, d2: Deck)
    requires
        d0.wf(),
        d0.total() > 0,
        d1.slides_seq() == d0.slides_seq(),
        d1.cur() == 0,
        d2.slides_seq() == d1.slides_seq(),
        d2.cur() == last_pos(d1.total()),
    ensures
        d2.cur() == d0.total() - 1,
{
}

/// Jumping to the last slide and then to the first passes through the last
/// index and lands on index `0` of any non-empty deck, wherever the position
/// stood before.
pub proof fn lemma_jump_last_then_first(d0: Deck, d1: Deck, d2: Deck)
    requires
        d0.wf(),
        d0.total() > 0,
        d1.slides_seq() == d0.slides_seq(),
        d1.cur() == last_pos(d0.total()),
        d2.slides_seq() == d1.slides_seq(),
        d2.cur() == 0,
    ensures
        d1.cur() == d0.total() - 1,
        d2.cur() == 0,
{
}

/// The slides kept out of a sequence of decode results: the `Some` values,
/// in order.
pub open spec fn kept(s: Seq<Option<appcui::graphics::Surface>>) -> Seq<appcui::graphics::Surface>
    decreases s.len(),
{
    if s.len() == 0 {
        Seq::empty()
    } else if s.last() is Some {
        kept(s.drop_last()).push(s.last().unwrap())
    } else {
        kept(s.drop_last())
    }
}

/// Dropping failed decode results can only shorten the deck: it never holds
/// more slides than the store supplied buffers.
pub proof fn lemma_kept_len(s: Seq<Option<appcui::graphics::Surface>>)
    ensures
        kept(s).len() <= s.len(),
    decreases s.len(),
{
    if s.len() > 0 {
        lemma_kept_len(s.drop_last());
    }
}

/// The text of the position indicator for current index `cur` in a deck of
/// `total` slides: the 1-based position, a slash, and the total.
pub open spec fn position_text(cur: nat, total: nat) -> Seq<char> {
    dec_rep(cur + 1) + "/"@ + dec_rep(total)
}

/// A deck of decoded slide surfaces and the current position in it.
pub struct Deck {
    slides: Vec<appcui::graphics::Surface>,
    current: usize,
}

impl Deck {
    /// The number of slides.
    pub closed spec fn total(self) -> nat {
        self.slides@.len()
    }

    /// The current position.
    pub closed spec fn cur(self) -> nat {
        self.current as nat
    }

    /// The slides, in deck order.
    pub closed spec fn slides_seq(self) -> Seq<appcui::graphics::Surface> {
        self.slides@
    }

    /// The position is in bounds on a non-empty deck and `0` on an empty one.
    pub open spec fn wf(self) -> bool {
        if self.total() == 0 { self.cur() == 0 } else { self.cur() < self.total() }
    }

    /// Builds a deck from the decode results of the slide store, keeping the
    /// successfully decoded surfaces in store order and dropping failures.
    /// The position starts at the first slide.
    pub fn from_decoded(decoded: Vec<Option<appcui::graphics::Surface>>) -> (d: Deck)
        ensures
            d.wf(),
            d.cur() == 0,
            d.slides_seq() == kept(decoded@),
    {
        let ghost all = decoded@;
        let mut rest = decoded;
        let mut slides: Vec<appcui::graphics::Surface> = Vec::new();
        while rest.len() > 0
            invariant
                all.len() >= rest@.len(),
                rest@ == all.skip(all.len() - rest@.len()),
                slides@ == kept(all.take(all.len() - rest@.len())),
            decreases rest@.len(),
        {
            let ghost done = (all.len() - rest@.len()) as int;
            let first = rest.remove(0);
            proof {
                assert(all.take(done + 1) =~= all.take(done).push(all[done]));
                assert(all.take(done + 1).drop_last() =~= all.take(done));
                assert(rest@ =~= all.skip(done + 1));
            }
            match first {
                Some(s) => slides.push(s),
                None => (),
            }
        }
        proof {
            assert(all.take(all.len() as int) =~= all);
        }
        Deck { slides, current: 0 }
    }

    /// Steps forward one slide, or leaves the position unchanged at the last
    /// slide (and on an empty deck); reports whether it moved.
    pub fn advance(&mut self) -> (moved: bool)
        requires
            old(self).wf(),
        ensures
            final(self).wf(),
            final(self).slides_seq() == old(self).slides_seq(),
            final(self).total() == old(self).total(),
            final(self).cur() == advance_pos(old(self).cur(), old(self).total()),
            moved <==> old(self).cur() + 1 < old(self).total(),
            moved <==> final(self).cur() != old(self).cur(),
    {
        let n: usize = self.slides.len();
        if self.current + 1 < n {
            self.current = self.current + 1;
            true
        } else {
            false
        }
    }

    /// Steps backward one slide, or leaves the position unchanged at the
    /// first slide (and on an empty deck); reports whether it moved.
    pub fn retreat(&mut self) -> (moved: bool)
        requires
            old(self).wf(),
        ensures
            final(self).wf(),
            final(self).slides_seq() == old(self).slides_seq(),
            final(self).total() == old(self).total(),
            final(self).cur() == retreat_pos(old(self).cur()),
            moved <==> old(self).cur() > 0,
            moved <==> final(self).cur() != old(self).cur(),
    {
        if self.current > 0 {
            self.current = self.current - 1;
            true
        } else {
            false
        }
    }

    /// Jumps to the first slide; a no-op on an empty deck.
    pub fn jump_first(&mut self)
        requires
            old(self).wf(),
        ensures
            final(self).wf(),
            final(self).slides_seq() == old(self).slides_seq(),
            final(self).total() == old(self).total(),
            final(self).cur() == 0,
    {
        self.current = 0;
    }

    /// Jumps to the last slide; a no-op on an empty deck.
    pub fn jump_last(&mut self)
        requires
            old(self).wf(),
        ensures
            final(self).wf(),
            final(self).slides_seq() == old(self).slides_seq(),
            final(self).total() == old(self).total(),
            final(self).cur() == last_pos(old(self).total()),
    {
        if !self.slides.is_empty() {
            self.current = self.slides.len() - 1;
        }
    }

    /// The current slide, or `None` on an empty deck.
    pub fn current_slide(&self) -> (r: Option<&appcui::graphics::Surface>)
        requires
            self.wf(),
        ensures
            r is Some <==> self.total() > 0,
            r is Some ==> *r.unwrap() == self.slides_seq()[self.cur() as int],
    {
        if self.current < self.slides.len() {
            Some(&self.slides[self.current])
        } else {
            None
        }
    }

    /// The 1-based position and the total, for display. On an empty deck
    /// this is the degenerate pair `(1, 0)`, which callers must guard.
    pub fn position(&self) -> (r: (usize, usize))
        requires
            self.wf(),
        ensures
            r.0 == self.cur() + 1,
            r.1 == self.total(),
    {
        let n: usize = self.slides.len();
        (self.current + 1, n)
    }

    /// The position indicator text, `"{current + 1}/{total}"`.
    pub fn position_indicator(&self) -> (r: String)
        requires
            self.wf(),
        ensures
            r@ == position_text(self.cur(), self.total()),
            r@.len() <= 41,
    {
        let n: usize = self.slides.len();
        let mut out = String::new();
        push_decimal(&mut out, self.current + 1);
        out.append("/");
        push_decimal(&mut out, n);
        proof {
            reveal_strlit("/");
            lemma_dec_rep_len_usize((self.current + 1) as usize);
            lemma_dec_rep_len_usize(n);
            assert(out@ =~= position_text(self.cur(), self.total()));
        }
        out
    }
}

} // verus!
