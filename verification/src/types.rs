//! Protocol state: configuration, vault accounting and per-wager bet records.

use vstd::prelude::*;

verus! {

/// Identity of a ledger account (a player, the admin, an oracle request).
/// The protocol never looks inside an identity; it only stores and compares
/// them, so an opaque numeric handle chosen by the host suffices.
#[derive(Clone, Copy, PartialEq, Eq, Structural, Hash, Debug)]
pub struct AccountId(pub u64);

/// What the player wagers on: the sum of two dice relative to seven.
#[derive(Clone, Copy, PartialEq, Eq, Structural, Debug)]
pub enum BetType {
    /// Wins on a roll of 2..=6.
    Under,
    /// Wins on a roll of exactly 7.
    Exactly,
    /// Wins on a roll of 8..=12.
    Over,
}

/// Lifecycle of a bet: a monotonic, forward-only state machine.
#[derive(Clone, Copy, PartialEq, Eq, Structural, Debug)]
pub enum BetStatus {
    /// Placed and escrowed, waiting for a randomness request.
    Pending,
    /// A randomness request is on record with the oracle.
    RandomnessRequested,
    /// Resolved and paid out; terminal.
    Settled,
}

/// The dice roll derived from an oracle-supplied random value: an integer in
/// [2, 12]. Note that the mapping is uniform over eleven outcomes, while the
/// sum of two independent dice would be triangular and the payout multipliers
/// are priced as if it were; the mapping is nonetheless kept exactly as the
/// protocol defines it.
pub open spec fn dice_roll(random_value: u64) -> int {
    (random_value as int) % 11 + 2
}

/// The resolution rule: whether a bet of the given type wins on `roll`.
pub open spec fn bet_wins(bet_type: BetType, roll: int) -> bool {
    match bet_type {
        BetType::Under => roll < 7,
        BetType::Exactly => roll == 7,
        BetType::Over => roll > 7,
    }
}

/// Resolves a roll against the resolution rule for the given bet type.
pub fn resolve_win(bet_type: BetType, roll: u8) -> (won: bool)
    ensures
        won == bet_wins(bet_type, roll as int),
{
    match bet_type {
        BetType::Under => roll < 7,
        BetType::Exactly => roll == 7,
        BetType::Over => roll > 7,
    }
}

/// Admin-set economic parameters of one protocol instance.
#[derive(Clone, Copy, PartialEq, Eq, Debug)]
pub struct GameConfig {
    /// Authorization principal for admin-gated operations.
    pub admin: AccountId,
    /// House edge in basis points, at most 1000 (10%).
    pub house_edge_bps: u16,
    /// Smallest accepted bet amount; always positive.
    pub min_bet: u64,
    /// Largest accepted bet amount; at least `min_bet`.
    pub max_bet: u64,
    /// Per-bet exposure cap in basis points of the pool, in 1..=10000.
    pub max_exposure_bps: u16,
    /// When set, new bets and randomness requests are refused.
    pub paused: bool,
    /// Opaque derivation bump of the vault's address: the custody proof the
    /// host needs to authorize vault-outbound transfers.
    pub vault_authority_tag: u8,
    /// Identity of the randomness oracle, settable after initialization.
    pub randomness_source: Option<AccountId>,
}

impl GameConfig {
    /// The parameter ranges that initialization establishes and every later
    /// operation may rely on.
    pub open spec fn wf(self) -> bool {
        &&& self.house_edge_bps <= 1000
        &&& self.min_bet > 0
        &&& self.max_bet >= self.min_bet
        &&& 1 <= self.max_exposure_bps <= 10000
    }
}

/// The protocol's own accounting of the funds it has custody of, together
/// with aggregate bet statistics. `balance` tracks, but is independent from,
/// the custodian's real balance of the vault's address.
#[derive(Clone, Copy, PartialEq, Eq, Debug)]
pub struct Vault {
    /// Escrowed stake the protocol accounts for, in base units.
    pub balance: u64,
    /// Number of bets ever placed; strictly increases by one per bet and
    /// doubles as the next bet's sequence number.
    pub total_bets: u64,
    /// Cumulative sum of all bet amounts; monotonic.
    pub total_volume: u64,
}

/// One wager, keyed by (player, bet_index), from placement to settlement.
#[derive(Clone, Copy, PartialEq, Eq, Debug)]
pub struct Bet {
    /// The player who staked the amount.
    pub player: AccountId,
    /// What the player wagered on.
    pub bet_type: BetType,
    /// Staked amount in base units.
    pub amount: u64,
    /// `Vault.total_bets` at creation time: the bet's identity, never reused.
    pub bet_index: u64,
    /// Position in the lifecycle state machine.
    pub status: BetStatus,
    /// Identity of the oracle request, set when randomness is requested.
    pub randomness_request_ref: Option<AccountId>,
    /// Final dice roll in [2, 12], set exactly once at settlement.
    pub dice_result: Option<u8>,
    /// Whether the player won, set exactly once at settlement.
    pub won: Option<bool>,
    /// Amount paid out (zero on a loss), set exactly once at settlement.
    pub payout: Option<u64>,
    /// Creation time reported by the host's clock.
    pub timestamp: i64,
}

impl Bet {
    /// Well-formedness across the state machine: the outcome fields are
    /// all-or-nothing, present exactly when the bet is settled, and a settled
    /// outcome is consistent with the resolution rule.
    pub open spec fn wf(self) -> bool {
        match self.status {
            BetStatus::Pending => {
                &&& self.randomness_request_ref is None
                &&& self.dice_result is None
                &&& self.won is None
                &&& self.payout is None
            },
            BetStatus::RandomnessRequested => {
                &&& self.randomness_request_ref is Some
                &&& self.dice_result is None
                &&& self.won is None
                &&& self.payout is None
            },
            BetStatus::Settled => {
                &&& self.randomness_request_ref is Some
                &&& self.dice_result matches Some(roll) && 2 <= roll <= 12
                &&& self.dice_result matches Some(roll) && self.won == Some(
                    bet_wins(self.bet_type, roll as int),
                )
                &&& self.payout is Some
                &&& self.won == Some(false) ==> self.payout == Some(0u64)
            },
        }
    }
}

} // verus!
