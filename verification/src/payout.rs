//! Payout arithmetic of the settlement engine.
//!
//! A winning bet is paid `floor(amount * multiplier / 100)` minus a house-edge
//! deduction of `floor(base * house_edge_bps / 10000)`, all over integers with
//! intermediate values wide enough never to overflow.

use vstd::arithmetic::div_mod::{lemma_div_by_multiple, lemma_div_is_ordered};
use vstd::arithmetic::mul::lemma_mul_inequality;
use vstd::prelude::*;

use crate::types::{dice_roll, bet_wins, BetType};

verus! {

/// Payout multiplier in integer hundredths, stake included: 2.35x for the
/// Under and Over ranges, 5.88x for hitting seven exactly.
pub open spec fn win_multiplier(bet_type: BetType) -> int {
    match bet_type {
        BetType::Under => 235,
        BetType::Exactly => 588,
        BetType::Over => 235,
    }
}

/// Gross payout of a winning bet before the house takes its edge.
pub open spec fn base_payout(amount: u64, bet_type: BetType) -> int {
    amount * win_multiplier(bet_type) / 100
}

/// The house's cut of a gross payout, in basis points.
pub open spec fn house_edge_deduction(base: int, house_edge_bps: u16) -> int {
    base * house_edge_bps / 10000
}

/// Net payout owed to a winning bet.
pub open spec fn win_payout(amount: u64, bet_type: BetType, house_edge_bps: u16) -> int {
    base_payout(amount, bet_type) - house_edge_deduction(base_payout(amount, bet_type), house_edge_bps)
}

/// What settlement pays for a given random value: the net win payout on a
/// winning roll, nothing on a losing one.
pub open spec fn settlement_payout(
    bet_type: BetType,
    amount: u64,
    house_edge_bps: u16,
    random_value: u64,
) -> int {
    if bet_wins(bet_type, dice_roll(random_value)) {
        win_payout(amount, bet_type, house_edge_bps)
    } else {
        0
    }
}

/// Taking at most `bps <= 10000` basis points of a non-negative value never
/// exceeds the value itself.
pub proof fn lemma_bps_fraction_le(value: int, bps: int)
    requires
        0 <= value,
        0 <= bps <= 10000,
    ensures
        value * bps / 10000 <= value,
{
    lemma_mul_inequality(bps, 10000, value);
    assert(bps * value == value * bps) by (nonlinear_arith);
    assert(10000 * value == value * 10000) by (nonlinear_arith);
    lemma_div_is_ordered(value * bps, value * 10000, 10000);
    lemma_div_by_multiple(value, 10000);
}

/// Maps an oracle-supplied random value onto the table of two-die sums.
pub fn roll_dice(random_value: u64) -> (roll: u8)
    ensures
        roll == dice_roll(random_value),
        2 <= roll <= 12,
{
    ((random_value % 11) + 2) as u8
}

/// Net payout of a winning bet over a width that never overflows: even the
/// largest stake times the largest multiplier stays far below the limit.
fn compute_win_payout_wide(amount: u64, bet_type: BetType, house_edge_bps: u16) -> (payout: u128)
    requires
        house_edge_bps <= 10000,
    ensures
        payout == win_payout(amount, bet_type, house_edge_bps),
{
    let multiplier: u128 = match bet_type {
        BetType::Under => 235,
        BetType::Exactly => 588,
        BetType::Over => 235,
    };
    proof {
        assert((amount as int) * (multiplier as int) <= 0xffff_ffff_ffff_ffffu64 * 588)
            by (nonlinear_arith)
            requires
                amount <= 0xffff_ffff_ffff_ffffu64,
                multiplier <= 588,
        ;
    }
    let base: u128 = (amount as u128) * multiplier / 100;
    proof {
        assert((base as int) * (house_edge_bps as int) <= (base as int) * 10000)
            by (nonlinear_arith)
            requires
                house_edge_bps <= 10000,
                base >= 0,
        ;
    }
    let deduction: u128 = base * (house_edge_bps as u128) / 10000;
    proof {
        lemma_bps_fraction_le(base as int, house_edge_bps as int);
    }
    base - deduction
}

/// Whether the net payout of a winning bet fits the ledger's 64-bit balance
/// unit. Hosts test this before settling; a payout too wide to move is fatal
/// to the operation, never wrapped.
pub fn win_payout_fits(amount: u64, bet_type: BetType, house_edge_bps: u16) -> (fits: bool)
    requires
        house_edge_bps <= 10000,
    ensures
        fits <==> win_payout(amount, bet_type, house_edge_bps) <= u64::MAX,
{
    let payout_wide: u128 = compute_win_payout_wide(amount, bet_type, house_edge_bps);
    payout_wide <= u64::MAX as u128
}

/// Net payout of a winning bet: the gross multiplier payout with the house
/// edge deducted, in checked integer arithmetic.
pub fn compute_win_payout(amount: u64, bet_type: BetType, house_edge_bps: u16) -> (payout: u64)
    requires
        house_edge_bps <= 10000,
        win_payout(amount, bet_type, house_edge_bps) <= u64::MAX,
    ensures
        payout == win_payout(amount, bet_type, house_edge_bps),
{
    let payout_wide: u128 = compute_win_payout_wide(amount, bet_type, house_edge_bps);
    payout_wide as u64
}

} // verus!
