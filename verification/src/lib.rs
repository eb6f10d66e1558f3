//! An escrowed wagering protocol over a two-die roll.
//!
//! Players stake value against a house-held pool; payouts are adjusted by a
//! configurable house edge, and a per-bet exposure cap bounds how much of the
//! pool a single wager may threaten. The library holds the protocol's logic:
//! parameter validation, the bet lifecycle state machine, exposure checking,
//! payout arithmetic and vault accounting, all with verified contracts.
//!
//! The host ledger that authenticates callers, custodies real funds and
//! supplies randomness is an external collaborator: callers read balances,
//! move value and obtain random values themselves and hand the plain results
//! to these functions.

pub mod errors;
pub mod types;
pub mod payout;
pub mod exposure;
pub mod game;

pub use crate::errors::CasinoError;
pub use crate::types::{AccountId, Bet, BetStatus, BetType, GameConfig, Vault};
pub use crate::game::{consume_randomness, init_game, place_bet, request_randomness};
