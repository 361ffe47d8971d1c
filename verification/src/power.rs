//! A participant's power on a scale of 0 to 100.

use crate::safe_int::{is_safe_int, lemma_trunc_div_bounds, safe_div, safe_mul, trunc_div};
use vstd::prelude::*;

verus! {

/// The power `power` as a percentage of the largest power `max`, rounded
/// toward zero.
pub open spec fn normalized_power(power: int, max: int) -> int
    recommends
        max > 0,
{
    trunc_div(power * 100, max)
}

/// Whether `js_int` can scale `power` to a percentage: a hundred times
/// `power` must lie in the range of a `js_int::Int`.
pub open spec fn is_scalable(power: int) -> bool {
    is_safe_int(power * 100)
}

/// The largest power that can be scaled to a percentage.
pub const MAX_SCALABLE: i64 = 90_071_992_547_409;

/// Whether `js_int` can scale `power` to a percentage.
pub fn can_scale(power: i64) -> (ok: bool)
    ensures
        ok == is_scalable(power as int),
{
    -MAX_SCALABLE <= power && power <= MAX_SCALABLE
}

/// The power `power` as a percentage of the largest power `max`.
pub fn normalize_power(power: i64, max: i64) -> (norm: i64)
    requires
        is_scalable(power as int),
        is_safe_int(max as int),
        max > 0,
    ensures
        norm == normalized_power(power as int, max as int),
        is_safe_int(norm as int),
{
    let scaled: i64 = safe_mul(power, 100);
    proof {
        lemma_trunc_div_bounds(scaled as int, max as int);
    }
    safe_div(scaled, max)
}

/// A power that is not negative and not above the largest power has a
/// percentage between 0 and 100, which is `power * 100 / max` rounded down.
pub proof fn lemma_normalized_power_range(power: int, max: int)
    requires
        max > 0,
        0 <= power <= max,
    ensures
        normalized_power(power, max) == (power * 100) / max,
        0 <= normalized_power(power, max) <= 100,
{
    assert(0 <= (power * 100) / max <= 100) by (nonlinear_arith)
        requires
            max > 0,
            0 <= power <= max,
    ;
}

} // verus!
