//! Integer helpers shared by the fixed-point computations.

use vstd::prelude::*;

verus! {

/// Absolute value.
pub open spec fn abs(x: int) -> int {
    if x < 0 {
        -x
    } else {
        x
    }
}

/// Quotient rounded toward zero, as machine division does.
pub open spec fn trunc_div(n: int, d: int) -> int {
    if n >= 0 {
        n / d
    } else {
        -((-n) / d)
    }
}

/// `x` limited to the closed interval `[lo, hi]`.
pub open spec fn clamp(x: int, lo: int, hi: int) -> int {
    if x < lo {
        lo
    } else if x > hi {
        hi
    } else {
        x
    }
}

/// A counter one step further, sticking at the largest `usize`.
pub open spec fn sat_inc(c: int) -> int {
    if c < usize::MAX {
        c + 1
    } else {
        c
    }
}

/// Truncating division never moves away from zero and scales bounds down.
pub proof fn lemma_trunc_div_bounds(n: int, d: int)
    requires
        d > 0,
    ensures
        abs(trunc_div(n, d)) <= abs(n),
        n >= 0 ==> 0 <= trunc_div(n, d) <= n,
        n <= 0 ==> n <= trunc_div(n, d) <= 0,
        abs(trunc_div(n, d)) * d <= abs(n),
        abs(n) < (abs(trunc_div(n, d)) + 1) * d,
{
    let m = abs(n);
    assert(m / d * d <= m && m < (m / d + 1) * d && 0 <= m / d <= m) by (nonlinear_arith)
        requires
            m >= 0,
            d > 0,
    ;
}

/// Absolute value on the machine, for values whose negation fits.
pub fn abs_i64(x: i64) -> (r: i64)
    requires
        x > i64::MIN,
    ensures
        r == abs(x as int),
{
    if x < 0 {
        -x
    } else {
        x
    }
}

/// Division rounded toward zero by a positive divisor.
pub fn div_trunc(n: i64, d: i64) -> (q: i64)
    requires
        d > 0,
        n > i64::MIN,
    ensures
        q == trunc_div(n as int, d as int),
{
    proof {
        lemma_trunc_div_bounds(n as int, d as int);
    }
    if n >= 0 {
        n / d
    } else {
        -((-n) / d)
    }
}

/// `x` limited to `[lo, hi]`.
pub fn clamp_i64(x: i64, lo: i64, hi: i64) -> (r: i64)
    requires
        lo <= hi,
    ensures
        r == clamp(x as int, lo as int, hi as int),
{
    if x < lo {
        lo
    } else if x > hi {
        hi
    } else {
        x
    }
}

/// A counter one step further, sticking at the largest value.
pub fn inc_saturating(c: usize) -> (r: usize)
    ensures
        r == sat_inc(c as int),
{
    if c < usize::MAX {
        c + 1
    } else {
        c
    }
}

} // verus!
