//! Saturating machine amounts.
//!
//! Every currency balance, stock level and demand figure of the engine lives
//! in `i64` and is kept non-negative; arithmetic that would leave the machine
//! range is clamped rather than allowed to wrap.

use vstd::prelude::*;

verus! {

/// `x` clamped into the non-negative `i64` range.
pub open spec fn clamp_amount(x: int) -> int {
    if x < 0 {
        0
    } else if x > i64::MAX as int {
        i64::MAX as int
    } else {
        x
    }
}

/// Clamp a wide intermediate result into the non-negative `i64` range.
pub fn clamp_to_amount(x: i128) -> (r: i64)
    ensures
        r as int == clamp_amount(x as int),
{
    if x < 0 {
        0
    } else if x > i64::MAX as i128 {
        i64::MAX
    } else {
        x as i64
    }
}

/// Exact product of two `i64` values, computed in a wider type.
pub fn wide_mul(a: i64, b: i64) -> (r: i128)
    ensures
        r == a as int * b as int,
{
    proof {
        assert(i128::MIN as int <= a as int * b as int <= i128::MAX as int) by (nonlinear_arith);
    }
    (a as i128) * (b as i128)
}

} // verus!
