//! The players taking part in a game.
use vstd::prelude::*;

use crate::player::Player;

verus! {

/// A player taking part in a game.
#[derive(Debug, PartialEq, Eq)]
pub struct Participant {
    pub player: Player,
}

impl Clone for Participant {
    fn clone(&self) -> (r: Self)
        ensures
            r == *self,
    {
        Participant { player: self.player.clone() }
    }
}

impl Participant {
    pub fn new(player: &Player) -> (r: Participant)
        ensures
            r == (Participant { player: *player }),
    {
        Participant { player: player.clone() }
    }
}

/// Collects the participants of a game in order.
pub struct ParticipantsBuilder {
    participants: Vec<Participant>,
}

impl View for ParticipantsBuilder {
    type V = Seq<Participant>;

    closed spec fn view(&self) -> Seq<Participant> {
        self.participants@
    }
}

impl ParticipantsBuilder {
    fn new() -> (r: Self)
        ensures
            r@ == Seq::<Participant>::empty(),
    {
        ParticipantsBuilder { participants: vec![] }
    }

    /// Adds a player after those added before.
    pub fn add(self, player: &Player) -> (r: Self)
        ensures
            r@ == self@.push(Participant { player: *player }),
    {
        let mut participants = self.participants;
        participants.push(Participant::new(player));
        ParticipantsBuilder { participants }
    }

    /// The participants added, in order; `None` if there are none.
    pub fn build(self) -> (r: Option<Participants>)
        ensures
            self@.len() == 0 ==> r is None,
            self@.len() > 0 ==> (r matches Some(p) && p@ == self@),
    {
        if self.participants.len() == 0 {
            None
        } else {
            Some(Participants { participants: self.participants })
        }
    }
}

/// The ordered, non-empty roster of a game; a participant is known by its
/// zero-based index.
#[derive(Debug, PartialEq, Eq)]
pub struct Participants {
    participants: Vec<Participant>,
}

impl View for Participants {
    type V = Seq<Participant>;

    closed spec fn view(&self) -> Seq<Participant> {
        self.participants@
    }
}

impl Participants {
    #[verifier::type_invariant]
    spec fn inv(self) -> bool {
        self.participants@.len() > 0
    }

    /// A builder with no participants yet.
    pub fn new() -> (r: ParticipantsBuilder)
        ensures
            r@ == Seq::<Participant>::empty(),
    {
        ParticipantsBuilder::new()
    }

    pub fn count(&self) -> (r: usize)
        ensures
            r == self@.len(),
            r > 0,
    {
        proof {
            use_type_invariant(self);
        }
        self.participants.len()
    }

    /// The participant of the given index.
    pub fn participant(&self, index: usize) -> (r: &Participant)
        requires
            index < self@.len(),
        ensures
            *r == self@[index as int],
    {
        &self.participants[index]
    }
}

} // verus!
