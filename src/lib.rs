//! Rules and scoring state machine for X01 darts games (301, 501, ...).
//!
//! Single dart throws are validated, grouped into turns, turns into legs and
//! legs into sets, under a configurable ruleset.
pub mod player;
pub mod throw;
pub mod turn;
pub mod x01;
