//! A two-party, stake-based wagering game.
//!
//! Two participants each lock a bet from a pre-funded balance, draw a card
//! in `1..=13`, and the higher card wins the combined pot; a tie refunds
//! both stakes. The crate holds a balance ledger and a single-slot game
//! session manager; every operation states its exact effect on both.

pub mod errors;
pub mod game;
pub mod host;
pub mod laws;
pub mod ledger;
