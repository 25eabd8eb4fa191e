//! The configuration of an X01 game.
use vstd::prelude::*;

use crate::throw::{Multiplier, Throw};

verus! {

/// Whether a starting score is one of 101, 201, 301, ...
pub open spec fn valid_score(score: u32) -> bool {
    score > 1 && (score - 1) % 100 == 0
}

fn is_valid_score(score: u32) -> (r: bool)
    ensures
        r == valid_score(score),
{
    score > 1 && (score - 1) % 100 == 0
}

fn is_positive(value: u8) -> (r: bool)
    ensures
        r == (value > 0),
{
    value > 0
}

/// How many sets and legs a game has.
#[derive(Debug, Clone, Copy, PartialEq, Eq, Structural)]
pub struct SetOptions {
    /// The number of sets to play
    pub num_sets: u8,
    /// The length of each set (number of legs)
    pub num_legs: u8,
    /// The required distance in won legs in order to win a set
    pub win_distance: u8,
}

/// A configuration value of [SetOptions] that is out of range.
#[derive(Debug, Clone, Copy, PartialEq, Eq, Structural)]
pub enum SetOptionsError {
    /// A game has at least one set
    ZeroSets,
    /// A set has at least one leg
    ZeroLegs,
    /// At least one won leg is needed to win a set
    ZeroWinDistance,
}

/// Builds [SetOptions]; each value defaults to one.
#[derive(Debug, Clone, Copy)]
pub struct SetOptionsBuilder {
    options: SetOptions,
}

impl View for SetOptionsBuilder {
    type V = SetOptions;

    closed spec fn view(&self) -> SetOptions {
        self.options
    }
}

impl SetOptionsBuilder {
    #[verifier::type_invariant]
    spec fn inv(self) -> bool {
        self.options.num_sets > 0 && self.options.num_legs > 0 && self.options.win_distance > 0
    }

    pub fn num_sets(self, num_sets: u8) -> (r: Result<SetOptionsBuilder, SetOptionsError>)
        ensures
            num_sets == 0 ==> r == Err::<SetOptionsBuilder, SetOptionsError>(
                SetOptionsError::ZeroSets,
            ),
            num_sets > 0 ==> (r matches Ok(b) && b@ == (SetOptions { num_sets, ..self@ })),
    {
        proof {
            use_type_invariant(&self);
        }
        if is_positive(num_sets) {
            Ok(SetOptionsBuilder { options: SetOptions { num_sets, ..self.options } })
        } else {
            Err(SetOptionsError::ZeroSets)
        }
    }

    pub fn num_legs(self, num_legs: u8) -> (r: Result<SetOptionsBuilder, SetOptionsError>)
        ensures
            num_legs == 0 ==> r == Err::<SetOptionsBuilder, SetOptionsError>(
                SetOptionsError::ZeroLegs,
            ),
            num_legs > 0 ==> (r matches Ok(b) && b@ == (SetOptions { num_legs, ..self@ })),
    {
        proof {
            use_type_invariant(&self);
        }
        if is_positive(num_legs) {
            Ok(SetOptionsBuilder { options: SetOptions { num_legs, ..self.options } })
        } else {
            Err(SetOptionsError::ZeroLegs)
        }
    }

    pub fn win_distance(self, win_distance: u8) -> (r: Result<SetOptionsBuilder, SetOptionsError>)
        ensures
            win_distance == 0 ==> r == Err::<SetOptionsBuilder, SetOptionsError>(
                SetOptionsError::ZeroWinDistance,
            ),
            win_distance > 0 ==> (r matches Ok(b) && b@ == (SetOptions { win_distance, ..self@ })),
    {
        proof {
            use_type_invariant(&self);
        }
        if is_positive(win_distance) {
            Ok(SetOptionsBuilder { options: SetOptions { win_distance, ..self.options } })
        } else {
            Err(SetOptionsError::ZeroWinDistance)
        }
    }

    pub fn build(self) -> (r: SetOptions)
        ensures
            r == self@,
            r.num_sets > 0 && r.num_legs > 0 && r.win_distance > 0,
    {
        proof {
            use_type_invariant(&self);
        }
        self.options
    }
}

impl SetOptions {
    /// A builder that starts from one set of one leg, won by one leg.
    pub fn new() -> (r: SetOptionsBuilder)
        ensures
            r@ == (SetOptions { num_sets: 1, num_legs: 1, win_distance: 1 }),
    {
        SetOptionsBuilder { options: SetOptions { num_sets: 1, num_legs: 1, win_distance: 1 } }
    }
}

/// Constraint on the opening throw of a leg.
#[derive(Clone, Copy, Debug, PartialEq, Eq, Structural)]
pub enum InRule {
    Any,
    Double,
    Triple,
}

impl InRule {
    pub open spec fn spec_valid_throw(self, throw: Throw) -> bool {
        match self {
            InRule::Any => true,
            InRule::Double => throw.spec_multiplier() == Some(Multiplier::Double),
            InRule::Triple => throw.spec_multiplier() == Some(Multiplier::Triple),
        }
    }

    /// Whether `throw` may open a leg.
    pub fn valid_throw(&self, throw: &Throw) -> (r: bool)
        ensures
            r == self.spec_valid_throw(*throw),
    {
        match self {
            InRule::Any => true,
            InRule::Double => matches!(throw.multiplier(), Some(Multiplier::Double)),
            InRule::Triple => matches!(throw.multiplier(), Some(Multiplier::Triple)),
        }
    }
}

/// Constraint on the throw that finishes a leg.
#[derive(Clone, Copy, Debug, PartialEq, Eq, Structural)]
pub enum OutRule {
    Any,
    Double,
    Triple,
}

impl OutRule {
    pub open spec fn spec_valid_finisher(self, throw: Throw) -> bool {
        match self {
            OutRule::Any => true,
            OutRule::Double => throw.spec_multiplier() == Some(Multiplier::Double),
            OutRule::Triple => throw.spec_multiplier() == Some(Multiplier::Triple),
        }
    }

    /// The fewest remaining points from which a leg can still be finished.
    pub open spec fn min_remaining(self) -> nat {
        match self {
            OutRule::Any => 1,
            OutRule::Double => 2,
            OutRule::Triple => 3,
        }
    }

    pub open spec fn spec_valid_remaining_points(self, remaining_points: int) -> bool {
        remaining_points >= self.min_remaining()
    }

    /// Whether `throw` may finish a leg.
    pub fn valid_finisher(&self, throw: &Throw) -> (r: bool)
        ensures
            r == self.spec_valid_finisher(*throw),
    {
        match self {
            OutRule::Any => true,
            OutRule::Double => matches!(throw.multiplier(), Some(Multiplier::Double)),
            OutRule::Triple => matches!(throw.multiplier(), Some(Multiplier::Triple)),
        }
    }

    /// Whether a leg can still be finished from `remaining_points`.
    pub fn valid_remaining_points(&self, remaining_points: u32) -> (r: bool)
        ensures
            r == self.spec_valid_remaining_points(remaining_points as int),
    {
        match self {
            OutRule::Any => remaining_points >= 1,
            OutRule::Double => remaining_points >= 2,
            OutRule::Triple => remaining_points >= 3,
        }
    }
}

/// The model of a [Ruleset].
pub struct RulesetView {
    pub score: u32,
    pub in_rule: InRule,
    pub out_rule: OutRule,
    pub sets: SetOptions,
}

/// A starting score that is not one of 101, 201, 301, ...
#[derive(Debug, Clone, Copy, PartialEq, Eq, Structural)]
pub enum RulesetError {
    InvalidScore(u32),
}

/// The rules of an X01 game: starting score, in- and out-rule, sets and legs.
#[derive(Debug, PartialEq, Eq)]
pub struct Ruleset {
    score: u32,
    in_rule: InRule,
    out_rule: OutRule,
    sets: SetOptions,
}

impl Clone for Ruleset {
    fn clone(&self) -> (r: Self)
        ensures
            r == *self,
    {
        proof {
            use_type_invariant(self);
        }
        Ruleset {
            score: self.score,
            in_rule: self.in_rule,
            out_rule: self.out_rule,
            sets: self.sets,
        }
    }
}

impl View for Ruleset {
    type V = RulesetView;

    closed spec fn view(&self) -> RulesetView {
        RulesetView {
            score: self.score,
            in_rule: self.in_rule,
            out_rule: self.out_rule,
            sets: self.sets,
        }
    }
}

/// Builds a [Ruleset] before its starting score is set.
#[derive(Debug, Clone)]
pub struct RulesetBuilder {
    in_rule: InRule,
    out_rule: OutRule,
    sets: SetOptions,
}

/// Builds a [Ruleset] once its starting score is set.
#[derive(Debug)]
pub struct ScoredRulesetBuilder {
    score: u32,
    in_rule: InRule,
    out_rule: OutRule,
    sets: SetOptions,
}

impl View for RulesetBuilder {
    type V = RulesetView;

    /// The ruleset this builder would give; its score is yet to be set.
    closed spec fn view(&self) -> RulesetView {
        RulesetView { score: 0, in_rule: self.in_rule, out_rule: self.out_rule, sets: self.sets }
    }
}

impl View for ScoredRulesetBuilder {
    type V = RulesetView;

    closed spec fn view(&self) -> RulesetView {
        RulesetView {
            score: self.score,
            in_rule: self.in_rule,
            out_rule: self.out_rule,
            sets: self.sets,
        }
    }
}

impl RulesetBuilder {
    /// Sets the starting score; fails unless it is one of 101, 201, 301, ...
    pub fn score(self, score: u32) -> (r: Result<ScoredRulesetBuilder, RulesetError>)
        ensures
            !valid_score(score) ==> r == Err::<ScoredRulesetBuilder, RulesetError>(
                RulesetError::InvalidScore(score),
            ),
            valid_score(score) ==> (r matches Ok(b) && b@ == (RulesetView { score, ..self@ })),
    {
        if is_valid_score(score) {
            Ok(
                ScoredRulesetBuilder {
                    score,
                    in_rule: self.in_rule,
                    out_rule: self.out_rule,
                    sets: self.sets,
                },
            )
        } else {
            Err(RulesetError::InvalidScore(score))
        }
    }

    pub fn in_rule(self, in_rule: InRule) -> (r: RulesetBuilder)
        ensures
            r@ == (RulesetView { in_rule, ..self@ }),
    {
        RulesetBuilder { in_rule, ..self }
    }

    pub fn out_rule(self, out_rule: OutRule) -> (r: RulesetBuilder)
        ensures
            r@ == (RulesetView { out_rule, ..self@ }),
    {
        RulesetBuilder { out_rule, ..self }
    }

    pub fn sets(self, sets: SetOptions) -> (r: RulesetBuilder)
        ensures
            r@ == (RulesetView { sets, ..self@ }),
    {
        RulesetBuilder { sets, ..self }
    }
}

impl ScoredRulesetBuilder {
    #[verifier::type_invariant]
    spec fn inv(self) -> bool {
        valid_score(self.score)
    }

    pub fn in_rule(self, in_rule: InRule) -> (r: ScoredRulesetBuilder)
        ensures
            r@ == (RulesetView { in_rule, ..self@ }),
    {
        proof {
            use_type_invariant(&self);
        }
        ScoredRulesetBuilder { in_rule, ..self }
    }

    pub fn out_rule(self, out_rule: OutRule) -> (r: ScoredRulesetBuilder)
        ensures
            r@ == (RulesetView { out_rule, ..self@ }),
    {
        proof {
            use_type_invariant(&self);
        }
        ScoredRulesetBuilder { out_rule, ..self }
    }

    pub fn sets(self, sets: SetOptions) -> (r: ScoredRulesetBuilder)
        ensures
            r@ == (RulesetView { sets, ..self@ }),
    {
        proof {
            use_type_invariant(&self);
        }
        ScoredRulesetBuilder { sets, ..self }
    }

    pub fn build(self) -> (r: Ruleset)
        ensures
            r@ == self@,
    {
        proof {
            use_type_invariant(&self);
        }
        Ruleset {
            score: self.score,
            in_rule: self.in_rule,
            out_rule: self.out_rule,
            sets: self.sets,
        }
    }
}

impl Ruleset {
    #[verifier::type_invariant]
    spec fn inv(self) -> bool {
        valid_score(self.score)
    }

    /// A builder with in- and out-rule `Any` and a single set of a single leg.
    pub fn new() -> (r: RulesetBuilder)
        ensures
            r@ == (RulesetView {
                score: 0,
                in_rule: InRule::Any,
                out_rule: OutRule::Any,
                sets: SetOptions { num_sets: 1, num_legs: 1, win_distance: 1 },
            }),
    {
        RulesetBuilder {
            in_rule: InRule::Any,
            out_rule: OutRule::Any,
            sets: SetOptions::new().build(),
        }
    }

    /// The starting score, one of 101, 201, 301, ...
    pub fn score(&self) -> (r: &u32)
        ensures
            *r == self@.score,
            valid_score(*r),
    {
        proof {
            use_type_invariant(self);
        }
        &self.score
    }

    pub fn in_rule(&self) -> (r: &InRule)
        ensures
            *r == self@.in_rule,
    {
        &self.in_rule
    }

    pub fn out_rule(&self) -> (r: &OutRule)
        ensures
            *r == self@.out_rule,
    {
        &self.out_rule
    }

    pub fn sets(&self) -> (r: &SetOptions)
        ensures
            *r == self@.sets,
    {
        &self.sets
    }
}

} // verus!
