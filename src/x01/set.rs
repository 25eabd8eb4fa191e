//! A set: legs played one after another by the same participants.
use vstd::prelude::*;

use crate::throw::Throw;

use super::leg::{Leg, LegView, State, ThrowResult};
use super::participants::{Participant, Participants};
use super::ruleset::{Ruleset, RulesetView};

verus! {

/// The model of a [LegSet].
pub struct LegSetView {
    pub rules: RulesetView,
    pub participants: Seq<Participant>,
    /// The finished legs, in order
    pub legs: Seq<LegView>,
    /// The leg in progress
    pub current: LegView,
    /// Index of the participant who began the leg in progress
    pub first_player: nat,
}

impl LegSetView {
    /// The set after `throw`: a leg that the throw finishes joins the finished
    /// legs, and a new leg begins with the next participant.
    pub open spec fn after(self, throw: Throw) -> LegSetView {
        if self.current.state_after(throw) == State::Finished {
            let first = ((self.first_player + 1) % self.participants.len()) as nat;
            LegSetView {
                legs: self.legs.push(self.current.after(throw)),
                current: LegView::initial(self.rules, self.participants, first),
                first_player: first,
                ..self
            }
        } else {
            LegSetView { current: self.current.after(throw), ..self }
        }
    }
}

/// The number of legs in `legs` that participant `player` finished.
pub open spec fn legs_won_by(legs: Seq<LegView>, player: nat) -> nat
    decreases legs.len(),
{
    if legs.len() == 0 {
        0
    } else {
        legs_won_by(legs.drop_last(), player) + if legs.last().index == player {
            1nat
        } else {
            0nat
        }
    }
}

/// Legs are played until the game ends; how many legs or sets decide it is
/// configured in the ruleset but not enforced here.
#[derive(Debug, PartialEq, Eq)]
pub struct LegSet<'a> {
    ruleset: &'a Ruleset,
    participants: &'a Participants,
    legs: Vec<Leg<'a>>,
    current_leg: Leg<'a>,
    first_player: usize,
}

#[derive(Debug, PartialEq, Eq)]
pub enum CreateSetError {
    /// No participant has this index
    InvalidFirstPlayer(usize),
}

impl<'a> View for LegSet<'a> {
    type V = LegSetView;

    closed spec fn view(&self) -> LegSetView {
        LegSetView {
            rules: self.ruleset@,
            participants: self.participants@,
            legs: self.legs@.map_values(|l: Leg<'a>| l@),
            current: self.current_leg@,
            first_player: self.first_player as nat,
        }
    }
}

impl<'a> LegSet<'a> {
    #[verifier::type_invariant]
    spec fn inv(self) -> bool {
        &&& self.first_player < self.participants@.len()
        &&& self.current_leg@.rules == self.ruleset@
        &&& self.current_leg@.participants == self.participants@
        &&& forall|k: int| 0 <= k < self.legs@.len() ==> (#[trigger] self.legs@[k])@.is_finished()
    }

    /// A set whose first leg begins with participant `first_player`; fails if
    /// there is no participant of that index.
    pub fn new(ruleset: &'a Ruleset, participants: &'a Participants, first_player: usize) -> (r:
        Result<Self, CreateSetError>)
        ensures
            first_player >= participants@.len() ==> r == Err::<LegSet<'a>, CreateSetError>(
                CreateSetError::InvalidFirstPlayer(first_player),
            ),
            first_player < participants@.len() ==> (r matches Ok(s) && s@ == (LegSetView {
                rules: ruleset@,
                participants: participants@,
                legs: Seq::empty(),
                current: LegView::initial(ruleset@, participants@, first_player as nat),
                first_player: first_player as nat,
            })),
    {
        if first_player >= participants.count() {
            Err(CreateSetError::InvalidFirstPlayer(first_player))
        } else {
            let s = LegSet {
                ruleset,
                participants,
                legs: Vec::new(),
                current_leg: Leg::starting_with(ruleset, participants, first_player),
                first_player,
            };
            assert(s@.legs =~= Seq::<LegView>::empty());
            Ok(s)
        }
    }

    /// The number of the leg in progress, counting from one.
    pub fn current_leg_number(&self) -> (r: usize)
        requires
            self@.legs.len() < usize::MAX,
        ensures
            r == self@.legs.len() + 1,
    {
        self.legs.len() + 1
    }

    /// The leg in progress.
    pub fn current_leg(&self) -> (r: &Leg<'a>)
        ensures
            r@ == self@.current,
    {
        &self.current_leg
    }

    /// The number of finished legs that participant `player` won.
    pub fn legs_won(&self, player: usize) -> (r: usize)
        ensures
            r == legs_won_by(self@.legs, player as nat),
    {
        proof {
            use_type_invariant(self);
        }
        let ghost legs = self@.legs;
        let mut won: usize = 0;
        let mut i: usize = 0;
        while i < self.legs.len()
            invariant
                i <= self.legs@.len(),
                legs == self.legs@.map_values(|l: Leg<'a>| l@),
                won == legs_won_by(legs.subrange(0, i as int), player as nat),
                forall|k: int| 0 <= k < self.legs@.len() ==> (#[trigger] self.legs@[k])@.is_finished(),
                won <= i,
            decreases self.legs@.len() - i,
        {
            assert(legs.subrange(0, i + 1).drop_last() == legs.subrange(0, i as int));
            assert(legs.subrange(0, i + 1).last() == self.legs@[i as int]@);
            if self.legs[i].is_won_by(player) {
                won = won + 1;
            }
            i = i + 1;
        }
        assert(legs.subrange(0, i as int) == legs);
        won
    }

    /// Passes the throw to the leg in progress; when it finishes that leg, the
    /// next leg begins with the participant after the one who began it.
    pub fn add_throw(self, throw: Throw) -> (r: Self)
        requires
            throw.is_valid(),
        ensures
            r@ == self@.after(throw),
    {
        proof {
            use_type_invariant(&self);
        }
        let LegSet { ruleset, participants, legs, current_leg, first_player } = self;
        let mut legs = legs;
        let ThrowResult { state, game } = current_leg.add_throw(throw);
        match state {
            State::Finished => {
                let count = participants.count();
                let first_player = (first_player + 1) % count;
                proof {
                    self@.current.lemma_finished_after(throw);
                }
                legs.push(game);
                let r = LegSet {
                    ruleset,
                    participants,
                    legs,
                    current_leg: Leg::starting_with(ruleset, participants, first_player),
                    first_player,
                };
                assert(r@.legs =~= self@.legs.push(self@.current.after(throw)));
                r
            },
            State::Unfinished => LegSet { ruleset, participants, legs, current_leg: game, first_player },
        }
    }
}

} // verus!
