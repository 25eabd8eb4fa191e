//! One leg of an X01 game: the turn-by-turn scoring state machine.
use vstd::prelude::*;

use crate::player::Player;
use crate::throw::{Multiplier, Throw};
use crate::turn::{all_valid, throws_points, lemma_throws_points_bound, Turn, TurnView};

use super::participants::{Participant, Participants};
use super::ruleset::{valid_score, OutRule, Ruleset, RulesetView};

verus! {

/// Whether a leg is still going on.
#[derive(Clone, Copy, Debug, PartialEq, Eq, Structural)]
pub enum State {
    Finished,
    Unfinished,
}

/// The sum of the points of a player's completed turns; bust turns count zero.
pub open spec fn history_points(turns: Seq<TurnView>) -> nat
    decreases turns.len(),
{
    if turns.len() == 0 {
        0
    } else {
        history_points(turns.drop_last()) + turns.last().points()
    }
}

/// The model of a [Leg].
pub struct LegView {
    pub rules: RulesetView,
    pub participants: Seq<Participant>,
    /// Index of the player whose turn it is
    pub index: nat,
    /// Throws of the turn in progress
    pub turn: Seq<Throw>,
    /// Completed turns of each participant, in order
    pub history: Seq<Seq<TurnView>>,
}

/// How a leg takes a throw, checked in this order: a first throw that breaks the
/// in-rule, a throw that scores more than remains, one that scores exactly what
/// remains (a checkout only with a valid finisher), one that leaves a remainder
/// the out-rule cannot finish, and the third throw of a turn.
#[derive(PartialEq, Eq, Structural)]
pub enum Outcome {
    /// The leg was finished before the throw and stays as it is
    AlreadyFinished,
    /// The turn goes bust: its points are lost and the next player is up
    Bust,
    /// The throw finishes the leg
    Checkout,
    /// The third throw of a turn: the next player is up
    TurnOver,
    /// The same player throws again
    Continue,
}

impl LegView {
    /// The points the current player had left when the turn began.
    pub open spec fn start_points(self) -> int {
        self.rules.score - history_points(self.history[self.index as int])
    }

    /// The points the current player has left.
    pub open spec fn remaining(self) -> int {
        self.start_points() - throws_points(self.turn)
    }

    pub open spec fn is_finished(self) -> bool {
        self.remaining() == 0
    }

    /// The throw to come is the current player's first of the leg.
    pub open spec fn is_first_throw(self) -> bool {
        self.history[self.index as int].len() == 0 && self.turn.len() == 0
    }

    pub open spec fn outcome(self, throw: Throw) -> Outcome {
        let scored = throws_points(self.turn.push(throw));
        if self.is_finished() {
            Outcome::AlreadyFinished
        } else if self.is_first_throw() && !self.rules.in_rule.spec_valid_throw(throw) {
            Outcome::Bust
        } else if scored > self.start_points() {
            Outcome::Bust
        } else if scored == self.start_points() {
            if self.rules.out_rule.spec_valid_finisher(throw) {
                Outcome::Checkout
            } else {
                Outcome::Bust
            }
        } else if !self.rules.out_rule.spec_valid_remaining_points(self.start_points() - scored) {
            Outcome::Bust
        } else if self.turn.len() + 1 >= 3 {
            Outcome::TurnOver
        } else {
            Outcome::Continue
        }
    }

    /// The leg once `ended` is the current player's last turn and the next
    /// player's turn begins.
    pub open spec fn end_turn(self, ended: TurnView) -> LegView {
        let history = self.history.update(
            self.index as int,
            self.history[self.index as int].push(ended),
        );
        LegView {
            index: ((self.index + 1) % self.participants.len()) as nat,
            turn: Seq::empty(),
            history,
            ..self
        }
    }

    /// The leg after `throw`.
    pub open spec fn after(self, throw: Throw) -> LegView {
        let throws = self.turn.push(throw);
        match self.outcome(throw) {
            Outcome::AlreadyFinished => self,
            Outcome::Bust => self.end_turn(TurnView { throws, bust: true }),
            Outcome::TurnOver => self.end_turn(TurnView { throws, bust: false }),
            _ => LegView { turn: throws, ..self },
        }
    }

    /// The state that a throw leaves the leg in.
    pub open spec fn state_after(self, throw: Throw) -> State {
        match self.outcome(throw) {
            Outcome::AlreadyFinished | Outcome::Checkout => State::Finished,
            _ => State::Unfinished,
        }
    }

    /// A throw that leaves the leg finished leaves the current participant
    /// without points.
    pub proof fn lemma_finished_after(self, throw: Throw)
        requires
            self.state_after(throw) == State::Finished,
        ensures
            self.after(throw).is_finished(),
            self.after(throw).index == self.index,
    {
    }

    /// The states a leg passes through as it takes `throws` one by one.
    pub open spec fn replay(self, throws: Seq<Throw>) -> Seq<State>
        decreases throws.len(),
    {
        if throws.len() == 0 {
            Seq::empty()
        } else {
            seq![self.state_after(throws[0])] + self.after(throws[0]).replay(throws.drop_first())
        }
    }

    /// A leg where no one has thrown yet and `first` begins.
    pub open spec fn initial(rules: RulesetView, participants: Seq<Participant>, first: nat) -> LegView {
        LegView {
            rules,
            participants,
            index: first,
            turn: Seq::empty(),
            history: Seq::new(participants.len(), |i: int| Seq::<TurnView>::empty()),
        }
    }
}

/// The state of a leg after a throw.
#[derive(Debug, PartialEq, Eq)]
pub struct ThrowResult<'a> {
    pub state: State,
    pub game: Leg<'a>,
}

impl<'a> ThrowResult<'a> {
    fn unfinished(game: Leg<'a>) -> (r: ThrowResult<'a>)
        ensures
            r == (ThrowResult { state: State::Unfinished, game }),
    {
        ThrowResult { state: State::Unfinished, game }
    }

    fn finished(game: Leg<'a>) -> (r: ThrowResult<'a>)
        ensures
            r == (ThrowResult { state: State::Finished, game }),
    {
        ThrowResult { state: State::Finished, game }
    }
}

#[derive(Debug, PartialEq, Eq)]
struct CurrentPlayer {
    index: usize,
    points: u32,
    turn: Turn,
}

/// One leg among the participants under a ruleset.
///
/// The in-rule applies to each participant's first throw of the leg: a first
/// throw that breaks it busts that participant's first turn, and later turns
/// are not held to it.
#[derive(Debug, PartialEq, Eq)]
pub struct Leg<'a> {
    ruleset: &'a Ruleset,
    participants: &'a Participants,
    current: CurrentPlayer,
    data: Vec<Vec<Turn>>,
}

/// The models of the turns of each participant.
pub open spec fn turns_view(turns: Seq<Turn>) -> Seq<TurnView> {
    turns.map_values(|t: Turn| t@)
}

spec fn data_view(data: Seq<Vec<Turn>>) -> Seq<Seq<TurnView>> {
    data.map_values(|turns: Vec<Turn>| turns_view(turns@))
}

/// A turn as it can stand in a leg: at most three valid throws.
pub open spec fn turn_ok(throws: Seq<Throw>) -> bool {
    throws.len() <= 3 && all_valid(throws)
}

/// The completed turns of a participant are each fit to stand in a leg, and
/// together score less than the starting score.
pub open spec fn turns_ok(turns: Seq<TurnView>, score: int) -> bool {
    &&& history_points(turns) < score
    &&& forall|k: int| 0 <= k < turns.len() ==> turn_ok(#[trigger] turns[k].throws)
}

/// The completed turns of every participant are fit to stand in a leg.
pub open spec fn history_ok(history: Seq<Seq<TurnView>>, score: int) -> bool {
    forall|p: int| 0 <= p < history.len() ==> turns_ok(#[trigger] history[p], score)
}

proof fn lemma_history_points_push(turns: Seq<TurnView>, t: TurnView)
    ensures
        history_points(turns.push(t)) == history_points(turns) + t.points(),
{
    assert(turns.push(t).drop_last() == turns);
}

proof fn lemma_history_points_prefix(turns: Seq<TurnView>, k: int)
    requires
        0 <= k <= turns.len(),
    ensures
        history_points(turns.subrange(0, k)) <= history_points(turns),
    decreases turns.len(),
{
    if k < turns.len() {
        assert(turns.drop_last().subrange(0, k) == turns.subrange(0, k));
        lemma_history_points_prefix(turns.drop_last(), k);
    } else {
        assert(turns.subrange(0, k) == turns);
    }
}

/// Points of a turn fit to stand in a leg fit a `u8`.
proof fn lemma_turn_ok_points(throws: Seq<Throw>)
    requires
        turn_ok(throws),
    ensures
        throws_points(throws) <= 180,
{
    lemma_throws_points_bound(throws);
}

impl<'a> View for Leg<'a> {
    type V = LegView;

    closed spec fn view(&self) -> LegView {
        LegView {
            rules: self.ruleset@,
            participants: self.participants@,
            index: self.current.index as nat,
            turn: self.current.turn@.throws,
            history: data_view(self.data@),
        }
    }
}

/// The points a player has left: the starting score less the points of their
/// completed turns. A leg never lets those turns score the whole starting
/// score, so this cannot go below zero.
fn calculate_score(ruleset: &Ruleset, turns: &Vec<Turn>) -> (r: u32)
    requires
        turns_ok(turns_view(turns@), ruleset@.score as int),
    ensures
        r == ruleset@.score - history_points(turns_view(turns@)),
{
    let ghost all = turns_view(turns@);
    let mut sum: u32 = 0;
    let mut i: usize = 0;
    while i < turns.len()
        invariant
            i <= turns@.len(),
            all == turns_view(turns@),
            turns_ok(all, ruleset@.score as int),
            sum == history_points(all.subrange(0, i as int)),
        decreases turns@.len() - i,
    {
        proof {
            assert(all.subrange(0, i + 1).drop_last() == all.subrange(0, i as int));
            lemma_history_points_prefix(all, i + 1);
            assert(all[i as int] == turns@[i as int]@);
            lemma_turn_ok_points(turns@[i as int]@.throws);
        }
        sum = sum + turns[i].points() as u32;
        i = i + 1;
    }
    assert(all.subrange(0, i as int) == all);
    *ruleset.score() - sum
}

impl<'a> Leg<'a> {
    #[verifier::type_invariant]
    spec fn inv(self) -> bool {
        let v = self@;
        &&& valid_score(v.rules.score)
        &&& v.participants.len() > 0
        &&& self.data@.len() == v.participants.len()
        &&& history_ok(v.history, v.rules.score as int)
        &&& v.index < v.participants.len()
        &&& self.current.points == v.start_points()
        &&& !self.current.turn@.bust
        &&& turn_ok(v.turn)
        &&& throws_points(v.turn) <= v.start_points()
        &&& throws_points(v.turn) < v.start_points() ==> v.turn.len() < 3
    }

    /// A leg where no one has thrown yet and the first participant begins.
    pub fn new(ruleset: &'a Ruleset, participants: &'a Participants) -> (r: Self)
        ensures
            r@ == LegView::initial(ruleset@, participants@, 0),
    {
        // a roster is never empty, so participant 0 exists
        let _count = participants.count();
        Self::starting_with(ruleset, participants, 0)
    }

    /// A leg where no one has thrown yet and participant `first_player` begins.
    pub fn starting_with(
        ruleset: &'a Ruleset,
        participants: &'a Participants,
        first_player: usize,
    ) -> (r: Self)
        requires
            first_player < participants@.len(),
        ensures
            r@ == LegView::initial(ruleset@, participants@, first_player as nat),
    {
        let count = participants.count();
        let mut data: Vec<Vec<Turn>> = Vec::new();
        let mut i: usize = 0;
        while i < count
            invariant
                i <= count,
                count == participants@.len(),
                data@.len() == i,
                forall|p: int| 0 <= p < i ==> (#[trigger] data@[p])@.len() == 0,
            decreases count - i,
        {
            data.push(Vec::new());
            i = i + 1;
        }
        let score = *ruleset.score();
        let ghost initial = LegView::initial(ruleset@, participants@, first_player as nat);
        assert forall|p: int| 0 <= p < count implies turns_view(#[trigger] data@[p]@)
            =~= initial.history[p] by {}
        assert(data_view(data@) =~= initial.history);
        Leg {
            ruleset,
            participants,
            current: CurrentPlayer { index: first_player, points: score, turn: Turn::new() },
            data,
        }
    }

    /// Ends the turn of participant `index`: `turn` joins their completed turns,
    /// and the next participant's turn begins.
    fn next_turn(
        ruleset: &'a Ruleset,
        participants: &'a Participants,
        index: usize,
        turn: Turn,
        data: Vec<Vec<Turn>>,
        Ghost(before): Ghost<LegView>,
    ) -> (r: ThrowResult<'a>)
        requires
            before.rules == ruleset@,
            before.participants == participants@,
            before.index == index,
            before.history == data_view(data@),
            valid_score(ruleset@.score),
            participants@.len() > 0,
            data@.len() == participants@.len(),
            index < data@.len(),
            history_ok(before.history, ruleset@.score as int),
            turn_ok(turn@.throws),
            turn@.bust || throws_points(turn@.throws) < before.start_points(),
        ensures
            r.state == State::Unfinished,
            r.game@ == before.end_turn(turn@),
    {
        let ghost ended = turn@;
        let ghost old_data = data@;
        let mut data = data;
        data[index].push(turn);
        let ghost after = before.end_turn(ended);
        proof {
            assert(turns_view(data@[index as int]@) =~= before.history[index as int].push(ended));
            assert forall|p: int| 0 <= p < data@.len() implies turns_view(#[trigger] data@[p]@)
                == after.history[p] by {
                if p != index {
                    assert(data@[p] == old_data[p]);
                }
            }
            assert(data_view(data@) =~= after.history);
            lemma_history_points_push(before.history[index as int], ended);
            assert forall|p: int| 0 <= p < after.history.len() implies turns_ok(
                #[trigger] after.history[p],
                ruleset@.score as int,
            ) by {
                if p == index {
                    assert(after.history[p] == before.history[p].push(ended));
                }
            }
        }
        let count = participants.count();
        let next_player = (index + 1) % count;
        let points = calculate_score(ruleset, &data[next_player]);
        ThrowResult::unfinished(
            Leg {
                ruleset,
                participants,
                current: CurrentPlayer { index: next_player, points, turn: Turn::new() },
                data,
            },
        )
    }

    /// Marks `turn` bust and ends it.
    fn bust_turn(
        ruleset: &'a Ruleset,
        participants: &'a Participants,
        index: usize,
        turn: Turn,
        data: Vec<Vec<Turn>>,
        Ghost(before): Ghost<LegView>,
    ) -> (r: ThrowResult<'a>)
        requires
            before.rules == ruleset@,
            before.participants == participants@,
            before.index == index,
            before.history == data_view(data@),
            valid_score(ruleset@.score),
            participants@.len() > 0,
            data@.len() == participants@.len(),
            index < data@.len(),
            history_ok(before.history, ruleset@.score as int),
            turn_ok(turn@.throws),
        ensures
            r.state == State::Unfinished,
            r.game@ == before.end_turn(TurnView { throws: turn@.throws, bust: true }),
    {
        let mut turn = turn;
        turn.bust();
        Self::next_turn(ruleset, participants, index, turn, data, Ghost(before))
    }

    /// The participant whose turn it is.
    pub fn current_player(&self) -> (r: &Player)
        ensures
            *r == self@.participants[self@.index as int].player,
    {
        proof {
            use_type_invariant(self);
        }
        &self.participants.participant(self.current.index).player
    }

    /// The points the current participant has left, the throws of the turn in
    /// progress taken off.
    pub fn current_points(&self) -> (r: u32)
        ensures
            r == self@.remaining(),
    {
        proof {
            use_type_invariant(self);
            lemma_turn_ok_points(self@.turn);
        }
        self.current.points - self.current.turn.points() as u32
    }

    /// Whether the leg is finished, by participant `player`.
    pub fn is_won_by(&self, player: usize) -> (r: bool)
        ensures
            r == (self@.is_finished() && self@.index == player),
    {
        self.current_points() == 0 && self.current.index == player
    }

    /// The completed turns of participant `player`, in order.
    pub fn turns(&self, player: usize) -> (r: &Vec<Turn>)
        requires
            player < self@.participants.len(),
        ensures
            turns_view(r@) == self@.history[player as int],
    {
        proof {
            use_type_invariant(self);
        }
        &self.data[player]
    }

    /// Takes the next throw of the current participant: the throw is added to
    /// the turn in progress, and the turn goes bust, ends, goes on or finishes
    /// the leg as [LegView::outcome] says. A finished leg stays as it is.
    pub fn add_throw(self, throw: Throw) -> (r: ThrowResult<'a>)
        requires
            throw.is_valid(),
        ensures
            r.state == self@.state_after(throw),
            r.game@ == self@.after(throw),
    {
        proof {
            use_type_invariant(&self);
            lemma_turn_ok_points(self@.turn);
        }
        let ghost before = self@;
        if self.current_points() == 0 {
            return ThrowResult::finished(self);
        }
        let Leg { ruleset, participants, current, data } = self;
        let CurrentPlayer { index, points, turn } = current;
        let mut turn = turn;
        let first_throw = data[index].len() == 0 && turn.num_throws() == 0;
        let _ = turn.add_throw(throw);
        proof {
            assert(all_valid(turn@.throws));
            lemma_turn_ok_points(turn@.throws);
        }
        if first_throw && !ruleset.in_rule().valid_throw(&throw) {
            return Self::bust_turn(ruleset, participants, index, turn, data, Ghost(before));
        }
        let turn_points = turn.points();
        match points.checked_sub(turn_points as u32) {
            // More points thrown than remain
            None => Self::bust_turn(ruleset, participants, index, turn, data, Ghost(before)),
            Some(remaining) => {
                if remaining == 0 {
                    if ruleset.out_rule().valid_finisher(&throw) {
                        ThrowResult::finished(
                            Leg {
                                ruleset,
                                participants,
                                current: CurrentPlayer { index, points, turn },
                                data,
                            },
                        )
                    } else {
                        Self::bust_turn(ruleset, participants, index, turn, data, Ghost(before))
                    }
                } else if ruleset.out_rule().valid_remaining_points(remaining) {
                    if turn.num_throws() == 3 {
                        Self::next_turn(ruleset, participants, index, turn, data, Ghost(before))
                    } else {
                        ThrowResult::unfinished(
                            Leg {
                                ruleset,
                                participants,
                                current: CurrentPlayer { index, points, turn },
                                data,
                            },
                        )
                    }
                } else {
                    Self::bust_turn(ruleset, participants, index, turn, data, Ghost(before))
                }
            },
        }
    }
}


/// The points of a turn grow by the points of each throw added to it.
proof fn lemma_throws_points_push(throws: Seq<Throw>, throw: Throw)
    ensures
        throws_points(throws.push(throw)) == throws_points(throws) + throw.spec_points(),
{
    assert(throws.push(throw).drop_last() == throws);
}

/// Replaying the same throws on two fresh legs of the same ruleset and
/// participants passes through the same states: a leg holds no hidden state.
pub proof fn lemma_replay_deterministic(
    rules: RulesetView,
    participants: Seq<Participant>,
    other_rules: RulesetView,
    other_participants: Seq<Participant>,
    throws: Seq<Throw>,
)
    requires
        rules == other_rules,
        participants == other_participants,
    ensures
        LegView::initial(rules, participants, 0).replay(throws) == LegView::initial(
            other_rules,
            other_participants,
            0,
        ).replay(throws),
{
}

/// A turn that goes bust adds nothing to its player's score for the rest of the
/// leg: the player's completed turns score what they scored before it, and
/// with a single participant the next turn starts from the points the bust
/// turn started from.
pub proof fn lemma_bust_scores_nothing(leg: LegView, throw: Throw)
    requires
        leg.outcome(throw) == Outcome::Bust,
        leg.index < leg.participants.len(),
        leg.history.len() == leg.participants.len(),
    ensures
        leg.after(throw).history[leg.index as int].len() == leg.history[leg.index as int].len() + 1,
        history_points(leg.after(throw).history[leg.index as int]) == history_points(
            leg.history[leg.index as int],
        ),
        leg.participants.len() == 1 ==> leg.after(throw).start_points() == leg.start_points(),
{
    let ended = TurnView { throws: leg.turn.push(throw), bust: true };
    lemma_history_points_push(leg.history[leg.index as int], ended);
}

/// A turn that ends, by its third throw or by going bust, passes the board to
/// the next participant in order, who starts a new turn.
pub proof fn lemma_turn_passes_on(leg: LegView, throw: Throw)
    requires
        leg.outcome(throw) == Outcome::TurnOver || leg.outcome(throw) == Outcome::Bust,
    ensures
        leg.after(throw).index == (leg.index + 1) % leg.participants.len(),
        leg.after(throw).turn.len() == 0,
        leg.state_after(throw) == State::Unfinished,
{
}

/// Under double-out, a single that scores exactly the points left goes bust
/// and does not finish the leg.
pub proof fn lemma_single_checkout_busts(leg: LegView, throw: Throw)
    requires
        leg.rules.out_rule == OutRule::Double,
        throw.is_valid(),
        throw.spec_multiplier() == Some(Multiplier::Single),
        throws_points(leg.turn.push(throw)) == leg.start_points(),
    ensures
        leg.outcome(throw) == Outcome::Bust,
        leg.state_after(throw) == State::Unfinished,
{
    lemma_throws_points_push(leg.turn, throw);
}

/// Under double-out, a throw that leaves exactly one point goes bust: no double
/// can finish from there.
pub proof fn lemma_one_left_busts(leg: LegView, throw: Throw)
    requires
        leg.rules.out_rule == OutRule::Double,
        leg.start_points() - throws_points(leg.turn.push(throw)) == 1,
    ensures
        leg.outcome(throw) == Outcome::Bust,
        leg.state_after(throw) == State::Unfinished,
{
    lemma_throws_points_push(leg.turn, throw);
}

} // verus!
