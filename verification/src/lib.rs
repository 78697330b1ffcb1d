//! A pari-mutuel betting ledger.
//!
//! An operator registers a race with a fixed list of entrants, bettors wager
//! into a shared pool held by an escrow vault, the operator locks betting and
//! declares a winner, and winning bets withdraw a proportional share of the
//! whole pool. Every operation is atomic: it either commits all of its
//! effects or reports a typed error and changes nothing.

pub mod bets;
pub mod errors;
pub mod laws;
pub mod race;
pub mod settlement;
pub mod vault;

pub use bets::{place_bet, Bet};
pub use errors::BettingError;
pub use race::{create_race, set_winner, stop_betting, Race, RaceStatus};
pub use settlement::claim_winnings;
pub use vault::Vault;
