//! Arithmetic on integers that a 64-bit float represents exactly, done by
//! `js_int`.

use js_int::Int;
use vstd::prelude::*;

verus! {

/// The largest value of a `js_int::Int`: 2^53 - 1.
pub const MAX_SAFE_INT: i64 = 9_007_199_254_740_991;

/// The smallest value of a `js_int::Int`: -(2^53 - 1).
pub const MIN_SAFE_INT: i64 = -9_007_199_254_740_991;

/// Whether `v` lies in the range of a `js_int::Int`.
pub open spec fn is_safe_int(v: int) -> bool {
    MIN_SAFE_INT <= v <= MAX_SAFE_INT
}

/// Whether `v` lies in the range of a `js_int::Int`.
pub fn fits_safe_int(v: i64) -> (ok: bool)
    ensures
        ok == is_safe_int(v as int),
{
    MIN_SAFE_INT <= v && v <= MAX_SAFE_INT
}

/// The quotient of `a` by `b`, rounded toward zero.
pub open spec fn trunc_div(a: int, b: int) -> int
    recommends
        b != 0,
{
    if a >= 0 && b > 0 {
        a / b
    } else if a >= 0 {
        -(a / (-b))
    } else if b > 0 {
        -((-a) / b)
    } else {
        (-a) / (-b)
    }
}

/// The product of two `js_int::Int` values, by the `Mul` impl of `Int`.
///
/// Trusted: that impl multiplies the two underlying `i64` values and panics
/// unless the product is again in the range of `Int`. The precondition keeps
/// the operands and the product in that range, so the result is the exact
/// product.
#[verifier::external_body]
pub(crate) fn safe_mul(a: i64, b: i64) -> (r: i64)
    requires
        is_safe_int(a as int),
        is_safe_int(b as int),
        is_safe_int(a * b),
    ensures
        r == a * b,
{
    let x = Int::new(a).unwrap();
    let y = Int::new(b).unwrap();
    i64::from(x * y)
}

/// The quotient of two `js_int::Int` values, by the `Div` impl of `Int`.
///
/// Trusted: that impl divides the two underlying `i64` values, which rounds
/// toward zero and panics on a zero divisor. The quotient of two values in
/// the range of `Int` is in that range too.
#[verifier::external_body]
pub(crate) fn safe_div(a: i64, b: i64) -> (r: i64)
    requires
        is_safe_int(a as int),
        is_safe_int(b as int),
        b != 0,
    ensures
        r == trunc_div(a as int, b as int),
{
    let x = Int::new(a).unwrap();
    let y = Int::new(b).unwrap();
    i64::from(x / y)
}

/// Rounding toward zero keeps the quotient between zero and the dividend.
pub proof fn lemma_trunc_div_bounds(a: int, b: int)
    requires
        b != 0,
    ensures
        a >= 0 ==> -a <= trunc_div(a, b) <= a,
        a < 0 ==> a <= trunc_div(a, b) <= -a,
        (a >= 0) == (b > 0) ==> trunc_div(a, b) >= 0,
        a >= 0 && b > 0 ==> trunc_div(a, b) == a / b,
{
    let x = if a >= 0 { a } else { -a };
    let y = if b > 0 { b } else { -b };
    assert(0 <= x / y <= x) by (nonlinear_arith)
        requires
            x >= 0,
            y > 0,
    ;
}

} // verus!
