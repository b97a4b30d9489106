//! Guppies: the verified core of a terminal betting game.
//!
//! The player wagers money on guesses about the relationship between two
//! freshly generated values. Four interchangeable game variants supply the
//! values and the scoring rule; a betting loop owns the balance and drives
//! one variant through a round at a time. This crate holds the rules —
//! token parsing, scoring, balance accounting, and the round state machine —
//! with contracts; prompting, printing and menu wiring live in the
//! surrounding binary.

pub mod currency;
pub mod game;
pub mod hue;
pub mod parse;
pub mod rng;
pub mod text;
pub mod token;
pub mod variant;
