//! The protocol's four operations: initialization, bet placement, the
//! randomness checkpoint and settlement.
//!
//! Every operation either succeeds with exactly the state change its contract
//! states or fails with a specific error and no state change. Moving real
//! value is the host's part: callers pass in the custodian's current pool
//! balance and perform the transfers these contracts account for.

use vstd::prelude::*;

use crate::errors::CasinoError;
use crate::exposure::{max_exposure, max_exposure_amount};
use crate::payout::{compute_win_payout, roll_dice, settlement_payout};
use crate::types::{bet_wins, dice_roll, AccountId, Bet, BetStatus, BetType, GameConfig, Vault};

verus! {

/// The parameter ranges initialization accepts.
pub open spec fn init_params_valid(
    house_edge_bps: u16,
    min_bet: u64,
    max_bet: u64,
    max_exposure_bps: u16,
) -> bool {
    &&& house_edge_bps <= 1000
    &&& min_bet > 0
    &&& max_bet >= min_bet
    &&& 1 <= max_exposure_bps <= 10000
}

/// Whether a bet of `amount` is accepted against the configuration and the
/// custodian's current pool balance. An empty pool skips the exposure check:
/// the first bet cannot yet be bounded by pool size.
pub open spec fn place_accepted(config: GameConfig, amount: u64, pool_balance: u64) -> bool {
    &&& !config.paused
    &&& config.min_bet <= amount <= config.max_bet
    &&& pool_balance > 0 ==> amount <= max_exposure(pool_balance, config.max_exposure_bps)
}

/// Whether a bet is ready to be settled: randomness was requested and no
/// outcome has ever been recorded on it.
pub open spec fn settle_ready(bet: Bet) -> bool {
    &&& bet.status is RandomnessRequested
    &&& bet.won is None
}

/// The record a freshly placed bet carries.
pub open spec fn placed_bet(
    player: AccountId,
    bet_type: BetType,
    amount: u64,
    bet_index: u64,
    now: i64,
) -> Bet {
    Bet {
        player,
        bet_type,
        amount,
        bet_index,
        status: BetStatus::Pending,
        randomness_request_ref: None,
        dice_result: None,
        won: None,
        payout: None,
        timestamp: now,
    }
}

/// Creates one protocol instance: a configuration echoing the validated
/// parameters and an empty vault. The host's keyed storage enforces that this
/// happens at most once per instance (the storage slot already existing);
/// here only the parameter validation and the initial state are of interest.
pub fn init_game(
    admin: AccountId,
    house_edge_bps: u16,
    min_bet: u64,
    max_bet: u64,
    max_exposure_bps: u16,
    vault_authority_tag: u8,
) -> (result: Result<(GameConfig, Vault), CasinoError>)
    ensures
        result is Ok <==> init_params_valid(house_edge_bps, min_bet, max_bet, max_exposure_bps),
        result matches Ok((config, vault)) ==> {
            &&& config == (GameConfig {
                admin,
                house_edge_bps,
                min_bet,
                max_bet,
                max_exposure_bps,
                paused: false,
                vault_authority_tag,
                randomness_source: None,
            })
            &&& config.wf()
            &&& vault == (Vault { balance: 0, total_bets: 0, total_volume: 0 })
        },
        house_edge_bps > 1000 ==> result == Err::<(GameConfig, Vault), CasinoError>(
            CasinoError::InvalidHouseEdge,
        ),
        house_edge_bps <= 1000 && (min_bet == 0 || max_bet < min_bet) ==> result
            == Err::<(GameConfig, Vault), CasinoError>(CasinoError::InvalidBetAmount),
        house_edge_bps <= 1000 && min_bet > 0 && max_bet >= min_bet && !(1 <= max_exposure_bps
            <= 10000) ==> result == Err::<(GameConfig, Vault), CasinoError>(
            CasinoError::InvalidExposure,
        ),
{
    if house_edge_bps > 1000 {
        return Err(CasinoError::InvalidHouseEdge);
    }
    if min_bet == 0 {
        return Err(CasinoError::InvalidBetAmount);
    }
    if max_bet < min_bet {
        return Err(CasinoError::InvalidBetAmount);
    }
    if max_exposure_bps == 0 || max_exposure_bps > 10000 {
        return Err(CasinoError::InvalidExposure);
    }
    let config = GameConfig {
        admin,
        house_edge_bps,
        min_bet,
        max_bet,
        max_exposure_bps,
        paused: false,
        vault_authority_tag,
        randomness_source: None,
    };
    let vault = Vault { balance: 0, total_bets: 0, total_volume: 0 };
    Ok((config, vault))
}

/// Places a bet: validates it against the configuration and the exposure
/// guard, creates the pending record and commits the vault bookkeeping.
///
/// `pool_balance` is the custodian's actual current balance of the vault's
/// address, read by the caller at call time. On success the caller must have
/// moved `amount` from the player to the vault's custodial address within the
/// same atomic unit of work.
pub fn place_bet(
    config: &GameConfig,
    vault: &mut Vault,
    player: AccountId,
    bet_type: BetType,
    amount: u64,
    pool_balance: u64,
    now: i64,
) -> (result: Result<Bet, CasinoError>)
    requires
        config.wf(),
        place_accepted(*config, amount, pool_balance) ==> {
            &&& old(vault).balance + amount <= u64::MAX
            &&& old(vault).total_bets + 1 <= u64::MAX
            &&& old(vault).total_volume + amount <= u64::MAX
        },
    ensures
        result is Ok <==> place_accepted(*config, amount, pool_balance),
        result matches Ok(bet) ==> {
            &&& bet == placed_bet(player, bet_type, amount, old(vault).total_bets, now)
            &&& bet.wf()
        },
        result is Ok ==> {
            &&& final(vault).balance == old(vault).balance + amount
            &&& final(vault).total_bets == old(vault).total_bets + 1
            &&& final(vault).total_volume == old(vault).total_volume + amount
        },
        result is Err ==> *final(vault) == *old(vault),
        config.paused ==> result == Err::<Bet, CasinoError>(CasinoError::GamePaused),
        !config.paused && amount < config.min_bet ==> result == Err::<Bet, CasinoError>(
            CasinoError::BetTooSmall,
        ),
        !config.paused && amount >= config.min_bet && amount > config.max_bet ==> result
            == Err::<Bet, CasinoError>(CasinoError::BetTooLarge),
        !config.paused && config.min_bet <= amount <= config.max_bet && pool_balance > 0 && amount
            > max_exposure(pool_balance, config.max_exposure_bps) ==> result
            == Err::<Bet, CasinoError>(CasinoError::BetExceedsExposure),
{
    if config.paused {
        return Err(CasinoError::GamePaused);
    }
    if amount < config.min_bet {
        return Err(CasinoError::BetTooSmall);
    }
    if amount > config.max_bet {
        return Err(CasinoError::BetTooLarge);
    }
    if pool_balance > 0 {
        let cap: u64 = max_exposure_amount(pool_balance, config.max_exposure_bps);
        if amount > cap {
            return Err(CasinoError::BetExceedsExposure);
        }
    }
    let bet = Bet {
        player,
        bet_type,
        amount,
        bet_index: vault.total_bets,
        status: BetStatus::Pending,
        randomness_request_ref: None,
        dice_result: None,
        won: None,
        payout: None,
        timestamp: now,
    };
    vault.balance = vault.balance + amount;
    vault.total_bets = vault.total_bets + 1;
    vault.total_volume = vault.total_volume + amount;
    Ok(bet)
}

/// Records that a randomness request is on file with the oracle and advances
/// the bet to `RandomnessRequested`. A state-machine checkpoint: settlement
/// is impossible before a request is on record.
pub fn request_randomness(
    config: &GameConfig,
    bet: &mut Bet,
    request_ref: AccountId,
) -> (result: Result<(), CasinoError>)
    ensures
        result is Ok <==> old(bet).status is Pending && !config.paused,
        old(bet).status !is Pending ==> result == Err::<(), CasinoError>(CasinoError::BetNotReady),
        old(bet).status is Pending && config.paused ==> result == Err::<(), CasinoError>(
            CasinoError::GamePaused,
        ),
        result is Ok ==> *final(bet) == (Bet {
            status: BetStatus::RandomnessRequested,
            randomness_request_ref: Some(request_ref),
            ..*old(bet)
        }),
        result is Err ==> *final(bet) == *old(bet),
        old(bet).wf() ==> final(bet).wf(),
{
    if bet.status != BetStatus::Pending {
        return Err(CasinoError::BetNotReady);
    }
    if config.paused {
        return Err(CasinoError::GamePaused);
    }
    bet.status = BetStatus::RandomnessRequested;
    bet.randomness_request_ref = Some(request_ref);
    Ok(())
}

/// Settles a bet with an oracle-supplied random value: fixes the dice roll,
/// resolves win or loss, computes the house-edge-adjusted payout and debits
/// the vault's accounting by what is paid out.
///
/// `pool_balance` is the custodian's actual current balance of the vault's
/// address. On success with a positive payout the caller must have moved the
/// payout from the vault's custodial address to the player — authorized by
/// the protocol's own derivation proof — within the same atomic unit of work.
pub fn consume_randomness(
    config: &GameConfig,
    vault: &mut Vault,
    bet: &mut Bet,
    random_value: u64,
    pool_balance: u64,
) -> (result: Result<(), CasinoError>)
    requires
        config.wf(),
        settle_ready(*old(bet)) ==> settlement_payout(
            old(bet).bet_type,
            old(bet).amount,
            config.house_edge_bps,
            random_value,
        ) <= u64::MAX,
        settle_ready(*old(bet)) && 0 < settlement_payout(
            old(bet).bet_type,
            old(bet).amount,
            config.house_edge_bps,
            random_value,
        ) <= pool_balance ==> settlement_payout(
            old(bet).bet_type,
            old(bet).amount,
            config.house_edge_bps,
            random_value,
        ) <= old(vault).balance,
    ensures
        result is Ok <==> settle_ready(*old(bet)) && (0 < settlement_payout(
            old(bet).bet_type,
            old(bet).amount,
            config.house_edge_bps,
            random_value,
        ) ==> settlement_payout(
            old(bet).bet_type,
            old(bet).amount,
            config.house_edge_bps,
            random_value,
        ) <= pool_balance),
        old(bet).status !is RandomnessRequested ==> result == Err::<(), CasinoError>(
            CasinoError::BetNotReady,
        ),
        old(bet).status is RandomnessRequested && old(bet).won is Some ==> result == Err::<
            (),
            CasinoError,
        >(CasinoError::BetAlreadySettled),
        settle_ready(*old(bet)) && 0 < settlement_payout(
            old(bet).bet_type,
            old(bet).amount,
            config.house_edge_bps,
            random_value,
        ) && pool_balance < settlement_payout(
            old(bet).bet_type,
            old(bet).amount,
            config.house_edge_bps,
            random_value,
        ) ==> result == Err::<(), CasinoError>(CasinoError::InsufficientVaultBalance),
        result is Ok ==> *final(bet) == (Bet {
            status: BetStatus::Settled,
            dice_result: Some(dice_roll(random_value) as u8),
            won: Some(bet_wins(old(bet).bet_type, dice_roll(random_value))),
            payout: Some(
                settlement_payout(
                    old(bet).bet_type,
                    old(bet).amount,
                    config.house_edge_bps,
                    random_value,
                ) as u64,
            ),
            ..*old(bet)
        }),
        result is Ok ==> {
            &&& final(vault).balance == old(vault).balance - settlement_payout(
                old(bet).bet_type,
                old(bet).amount,
                config.house_edge_bps,
                random_value,
            )
            &&& final(vault).total_bets == old(vault).total_bets
            &&& final(vault).total_volume == old(vault).total_volume
        },
        result is Err ==> *final(bet) == *old(bet) && *final(vault) == *old(vault),
        old(bet).wf() ==> final(bet).wf(),
{
    if bet.status != BetStatus::RandomnessRequested {
        return Err(CasinoError::BetNotReady);
    }
    if bet.won.is_some() {
        return Err(CasinoError::BetAlreadySettled);
    }
    let dice: u8 = roll_dice(random_value);
    let won: bool = match bet.bet_type {
        BetType::Under => dice < 7,
        BetType::Exactly => dice == 7,
        BetType::Over => dice > 7,
    };
    let payout: u64 = if won {
        compute_win_payout(bet.amount, bet.bet_type, config.house_edge_bps)
    } else {
        0
    };
    if won && payout > 0 {
        if pool_balance < payout {
            return Err(CasinoError::InsufficientVaultBalance);
        }
    }
    bet.dice_result = Some(dice);
    bet.won = Some(won);
    bet.payout = Some(payout);
    bet.status = BetStatus::Settled;
    if won && payout > 0 {
        vault.balance = vault.balance - payout;
    }
    Ok(())
}

/// Law: the dice mapping is total — every random value yields a roll in the
/// two-die range [2, 12].
pub proof fn lemma_dice_roll_in_range(random_value: u64)
    ensures
        2 <= dice_roll(random_value) <= 12,
{
}

/// Law: settlement happens at most once. A settled bet never satisfies the
/// settlement precondition again, so a second `consume_randomness` on it
/// returns an error and, by that function's contract, changes no state.
pub proof fn lemma_settled_bet_is_final(bet: Bet)
    requires
        bet.status is Settled,
    ensures
        !settle_ready(bet),
{
}

/// Law: every well-formed settled bet carries a dice result in [2, 12], its
/// recorded outcome matches the resolution rule for its bet type and roll,
/// and a lost bet paid nothing.
pub proof fn lemma_settled_bet_consistent(bet: Bet)
    requires
        bet.wf(),
        bet.status is Settled,
    ensures
        bet.dice_result matches Some(roll) && 2 <= roll <= 12 && bet.won == Some(
            bet_wins(bet.bet_type, roll as int),
        ),
        bet.won == Some(false) ==> bet.payout == Some(0u64),
{
}

} // verus!
