//! X01 games: rules, participants, legs and sets.
pub mod leg;
pub mod participants;
pub mod ruleset;
pub mod set;
