//! The difficulty controller: clamp the measured epoch timespan, then
//! rescale the target proportionally so real mining pace converges to
//! the configured timespan.

use crate::u256::{spec_mul_div, u256_max, U256};
use vstd::arithmetic::div_mod::{lemma_div_is_ordered, lemma_div_multiples_vanish};
use vstd::prelude::*;

verus! {

/// Upper machine bound on a target timespan: `timespan * 4` must fit in
/// a `u64` for the clamp arithmetic.
pub open spec fn max_target_timespan() -> u64 {
    0x3fff_ffff_ffff_ffff
}

/// The measured timespan forced into `[target_timespan / 4,
/// target_timespan * 4]`, bounding how far difficulty can swing in one
/// epoch.
pub open spec fn spec_clamp(raw: int, tt: u64) -> int {
    if raw < tt as int / 4 {
        tt as int / 4
    } else if raw > 4 * tt {
        4 * tt
    } else {
        raw
    }
}

/// Clamps the raw measured timespan into the allowed band.
pub fn clamp_timespan(raw: u64, tt: u64) -> (r: u64)
    requires
        1 <= tt,
        tt <= max_target_timespan(),
    ensures
        r == spec_clamp(raw as int, tt),
        tt / 4 <= r <= 4 * tt,
        tt / 4 <= raw <= 4 * tt ==> r == raw,
{
    let lo = tt / 4;
    let hi = tt * 4;
    if raw < lo {
        lo
    } else if raw > hi {
        hi
    } else {
        raw
    }
}

/// The new target after an epoch: `old_target * timespan /
/// target_timespan`, rounded down, saturating at 2^256 - 1. A slow
/// epoch (timespan above target) raises the target and so eases the
/// search; a fast one lowers it.
pub fn retarget(old_target: &U256, timespan: u64, tt: u64) -> (r: U256)
    requires
        1 <= tt,
    ensures
        r@ == spec_mul_div(old_target@, timespan as nat, tt as nat),
{
    old_target.mul_div_u64(timespan, tt)
}

/// Rescaling is monotonic: a timespan above the configured one never
/// lowers the target, one below it never raises it, and one exactly
/// equal leaves the target unchanged.
pub proof fn lemma_retarget_monotonic(t: nat, ts: u64, tt: u64)
    requires
        1 <= tt,
        t <= u256_max(),
    ensures
        ts >= tt ==> spec_mul_div(t, ts as nat, tt as nat) >= t,
        ts <= tt ==> spec_mul_div(t, ts as nat, tt as nat) <= t,
        ts == tt ==> spec_mul_div(t, ts as nat, tt as nat) == t,
{
    lemma_div_multiples_vanish(t as int, tt as int);
    assert(tt * t == t * tt) by (nonlinear_arith);
    if ts >= tt {
        assert(t * tt <= t * ts) by (nonlinear_arith)
            requires
                tt <= ts,
                0 <= t,
        ;
        lemma_div_is_ordered((t * tt) as int, (t * ts) as int, tt as int);
    }
    if ts <= tt {
        assert(t * ts <= t * tt) by (nonlinear_arith)
            requires
                ts <= tt,
                0 <= t,
        ;
        lemma_div_is_ordered((t * ts) as int, (t * tt) as int, tt as int);
    }
}

} // verus!
