//! Fixed-point arithmetic on ticks.
//!
//! A length or a speed is an `i64` count of ticks. Sums and products are
//! formed exactly in `i128`; what is stored is narrowed by [`saturate`], so a
//! quantity that leaves the range of `i64` stays at the end it left by.
//! Division rounds toward zero, which treats both directions alike.

use vstd::prelude::*;

verus! {

/// Ticks in one unit of length.
pub const UNIT: i64 = 1_000_000;

/// The value of `i64` nearest to `v`.
pub open spec fn saturated(v: int) -> int {
    if v < i64::MIN {
        i64::MIN as int
    } else if v > i64::MAX {
        i64::MAX as int
    } else {
        v
    }
}

/// The quotient of `a` by a positive `b`, rounded toward zero.
pub open spec fn quotient(a: int, b: int) -> int
    recommends
        b > 0,
{
    if a >= 0 {
        a / b
    } else {
        -((-a) / b)
    }
}

/// The size of `v` without its sign.
pub open spec fn magnitude(v: int) -> int {
    if v >= 0 {
        v
    } else {
        -v
    }
}

/// Narrows `v` to `i64`, stopping at the ends of its range.
pub fn saturate(v: i128) -> (r: i64)
    ensures
        r == saturated(v as int),
{
    if v < i64::MIN as i128 {
        i64::MIN
    } else if v > i64::MAX as i128 {
        i64::MAX
    } else {
        v as i64
    }
}

/// Divides `a` by a positive `b`, rounding toward zero.
pub fn divide(a: i128, b: i128) -> (r: i128)
    requires
        b > 0,
    ensures
        r == quotient(a as int, b as int),
{
    a / b
}

} // verus!
