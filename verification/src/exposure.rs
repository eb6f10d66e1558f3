//! Exposure guard: bounds a single bet against the pool's current size.

use vstd::prelude::*;

use crate::payout::lemma_bps_fraction_le;

verus! {

/// The largest bet the pool may be exposed to: `max_exposure_bps` basis
/// points of the custodian's current pool balance, rounded down.
pub open spec fn max_exposure(pool_balance: u64, max_exposure_bps: u16) -> int {
    pool_balance * max_exposure_bps / 10000
}

/// Computes the exposure cap for the current pool balance. Since the rate is
/// at most 10000 basis points, the cap never exceeds the pool itself.
pub fn max_exposure_amount(pool_balance: u64, max_exposure_bps: u16) -> (cap: u64)
    requires
        max_exposure_bps <= 10000,
    ensures
        cap == max_exposure(pool_balance, max_exposure_bps),
        cap <= pool_balance,
{
    proof {
        assert((pool_balance as int) * (max_exposure_bps as int)
            <= 0xffff_ffff_ffff_ffffu64 * 10000)
            by (nonlinear_arith)
            requires
                pool_balance <= 0xffff_ffff_ffff_ffffu64,
                max_exposure_bps <= 10000,
        ;
        lemma_bps_fraction_le(pool_balance as int, max_exposure_bps as int);
    }
    let cap_wide: u128 = (pool_balance as u128) * (max_exposure_bps as u128) / 10000;
    cap_wide as u64
}

} // verus!
