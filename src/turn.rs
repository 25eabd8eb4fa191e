//! The throws of one player's visit to the board.
use vstd::prelude::*;

use crate::throw::Throw;

verus! {

/// The sum of the points of a sequence of throws.
pub open spec fn throws_points(throws: Seq<Throw>) -> nat
    decreases throws.len(),
{
    if throws.len() == 0 {
        0
    } else {
        throws_points(throws.drop_last()) + throws.last().spec_points()
    }
}

/// Whether every throw of a sequence is one that the constructors can produce.
pub open spec fn all_valid(throws: Seq<Throw>) -> bool {
    forall|i: int| 0 <= i < throws.len() ==> (#[trigger] throws[i]).is_valid()
}

/// A prefix of a sequence of throws scores no more than the whole sequence.
pub proof fn lemma_throws_points_prefix(throws: Seq<Throw>, k: int)
    requires
        0 <= k <= throws.len(),
    ensures
        throws_points(throws.subrange(0, k)) <= throws_points(throws),
    decreases throws.len(),
{
    if k < throws.len() {
        assert(throws.drop_last().subrange(0, k) == throws.subrange(0, k));
        lemma_throws_points_prefix(throws.drop_last(), k);
    } else {
        assert(throws.subrange(0, k) == throws);
    }
}

/// Valid throws score at most sixty points each.
pub proof fn lemma_throws_points_bound(throws: Seq<Throw>)
    requires
        all_valid(throws),
    ensures
        throws_points(throws) <= 60 * throws.len(),
    decreases throws.len(),
{
    if throws.len() > 0 {
        assert(all_valid(throws.drop_last()));
        lemma_throws_points_bound(throws.drop_last());
        throws.last().lemma_points_at_most_sixty();
    }
}

/// The model of a [Turn]: its throws in order and whether it went bust.
pub struct TurnView {
    pub throws: Seq<Throw>,
    pub bust: bool,
}

impl TurnView {
    /// Points a turn scores: nothing if it went bust, else the sum of its throws.
    pub open spec fn points(self) -> nat {
        if self.bust {
            0
        } else {
            throws_points(self.throws)
        }
    }
}

#[derive(Clone, Debug, PartialEq, Eq)]
pub struct Turn {
    throws: Vec<Throw>,
    bust: bool,
}

#[derive(Debug, PartialEq, Eq)]
pub enum ThrowError {
    /// The turn went bust and takes no more throws
    Bust,
}

/// Outcome of [Turn::add_throw]
pub type ThrowResult = Result<(), ThrowError>;

impl View for Turn {
    type V = TurnView;

    closed spec fn view(&self) -> TurnView {
        TurnView { throws: self.throws@, bust: self.bust }
    }
}

impl Turn {
    /// An empty turn that did not go bust.
    pub fn new() -> (r: Self)
        ensures
            r@ == (TurnView { throws: Seq::empty(), bust: false }),
    {
        Turn { throws: vec![], bust: false }
    }

    /// Appends a throw, however many the turn holds already; fails on a turn
    /// that went bust, and leaves it as it was.
    pub fn add_throw(&mut self, throw: Throw) -> (r: ThrowResult)
        ensures
            old(self)@.bust ==> r == Err::<(), ThrowError>(ThrowError::Bust) && final(self)@ == old(
                self,
            )@,
            !old(self)@.bust ==> r is Ok && final(self)@ == (TurnView {
                throws: old(self)@.throws.push(throw),
                bust: false,
            }),
    {
        if self.bust {
            Err(ThrowError::Bust)
        } else {
            self.throws.push(throw);
            Ok(())
        }
    }

    pub fn num_throws(&self) -> (r: usize)
        ensures
            r == self@.throws.len(),
    {
        self.throws.len()
    }

    /// Points of the turn: zero if it went bust, else the sum of its throws.
    pub fn points(&self) -> (r: u8)
        requires
            all_valid(self@.throws),
            self@.points() <= u8::MAX,
        ensures
            r == self@.points(),
    {
        if self.bust {
            return 0;
        }
        let mut sum: u8 = 0;
        let mut i: usize = 0;
        while i < self.throws.len()
            invariant
                !self.bust,
                i <= self.throws@.len(),
                all_valid(self.throws@),
                throws_points(self.throws@) <= u8::MAX,
                sum == throws_points(self.throws@.subrange(0, i as int)),
            decreases self.throws@.len() - i,
        {
            proof {
                let next = self.throws@.subrange(0, i + 1);
                assert(next.drop_last() == self.throws@.subrange(0, i as int));
                lemma_throws_points_prefix(self.throws@, i + 1);
            }
            sum = sum + self.throws[i].points();
            i = i + 1;
        }
        assert(self.throws@.subrange(0, i as int) == self.throws@);
        sum
    }

    /// Marks the turn as bust, keeping the throws made in it.
    pub fn bust(&mut self)
        ensures
            final(self)@ == (TurnView { throws: old(self)@.throws, bust: true }),
    {
        self.bust = true;
    }

    pub fn is_bust(&self) -> (r: bool)
        ensures
            r == self@.bust,
    {
        self.bust
    }
}

} // verus!
