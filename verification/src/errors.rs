//! Error taxonomy of the protocol.
//!
//! Every operation rejects atomically: an error means no state was changed.

use vstd::prelude::*;

verus! {

/// Why an operation was refused.
#[derive(Clone, Copy, PartialEq, Eq, Structural, Debug)]
pub enum CasinoError {
    /// House edge above 1000 basis points (10%) at initialization.
    InvalidHouseEdge,
    /// Bet bounds invalid at initialization: `min_bet` must be positive and
    /// `max_bet` at least `min_bet`.
    InvalidBetAmount,
    /// Exposure bound invalid at initialization: must lie in 1..=10000 basis
    /// points.
    InvalidExposure,
    /// New bets are paused.
    GamePaused,
    /// Bet amount below the configured minimum.
    BetTooSmall,
    /// Bet amount above the configured maximum.
    BetTooLarge,
    /// Bet amount above the exposure cap derived from the pool balance.
    BetExceedsExposure,
    /// The custodial pool cannot cover the payout owed to a winning bet.
    InsufficientVaultBalance,
    /// Caller is not the admin of an admin-gated operation.
    Unauthorized,
    /// The bet already carries a settlement outcome.
    BetAlreadySettled,
    /// The bet is not in the state the operation expects.
    BetNotReady,
}

} // verus!
