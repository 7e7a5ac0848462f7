//! Fixed-point numbers: every quantity is a count of millionths.

use vstd::prelude::*;

verus! {

/// One whole unit.
pub const UNIT: i64 = 1_000_000;

/// The largest magnitude a value can take: a million units.
pub const MAX_VALUE: i64 = 1_000_000_000_000;

/// The quotient of `a` by a positive `d`, rounded toward zero.
pub open spec fn trunc_div(a: int, d: int) -> int {
    if a >= 0 {
        a / d
    } else {
        -((-a) / d)
    }
}

/// `x` held to the range from `lo` to `hi`.
pub open spec fn clamp(x: int, lo: int, hi: int) -> int {
    if x < lo {
        lo
    } else if x > hi {
        hi
    } else {
        x
    }
}

/// Divides by a positive number, rounding toward zero.
pub fn div_toward_zero(a: i128, d: i128) -> (q: i128)
    requires
        d > 0,
    ensures
        q == trunc_div(a as int, d as int),
{
    a / d
}

} // verus!
