//! Fixed-point helpers shared by the tilt pipeline: truncating division,
//! clamping, absolute value, and an integer square root.

use vstd::prelude::*;

verus! {

/// Division by a positive divisor that truncates toward zero, as the
/// hardware division of signed integers does.
pub open spec fn div_trunc(a: int, d: int) -> int
    recommends
        d > 0,
{
    if a >= 0 {
        a / d
    } else {
        -((-a) / d)
    }
}

/// Absolute value.
pub open spec fn abs_spec(v: int) -> int {
    if v >= 0 {
        v
    } else {
        -v
    }
}

/// The value `v` held to the interval `[lo, hi]`.
pub open spec fn clamp_spec(v: int, lo: int, hi: int) -> int
    recommends
        lo <= hi,
{
    if v < lo {
        lo
    } else if v > hi {
        hi
    } else {
        v
    }
}

/// The quotient of truncating division lies within one divisor of the exact
/// quotient and never grows in magnitude.
pub proof fn lemma_div_trunc_bounds(a: int, d: int)
    requires
        d > 0,
    ensures
        d * div_trunc(a, d) <= abs_spec(a) && -(d * div_trunc(a, d)) <= abs_spec(a),
        abs_spec(a - d * div_trunc(a, d)) < d,
        a >= 0 ==> 0 <= div_trunc(a, d),
        a <= 0 ==> div_trunc(a, d) <= 0,
{
    if a >= 0 {
        let q = a / d;
        vstd::arithmetic::div_mod::lemma_fundamental_div_mod(a, d);
        vstd::arithmetic::div_mod::lemma_mod_bound(a, d);
        vstd::arithmetic::div_mod::lemma_div_pos_is_pos(a, d);
        vstd::arithmetic::mul::lemma_mul_nonnegative(d, q);
    } else {
        let q = (-a) / d;
        vstd::arithmetic::div_mod::lemma_fundamental_div_mod(-a, d);
        vstd::arithmetic::div_mod::lemma_mod_bound(-a, d);
        vstd::arithmetic::div_mod::lemma_div_pos_is_pos(-a, d);
        vstd::arithmetic::mul::lemma_mul_nonnegative(d, q);
        vstd::arithmetic::mul::lemma_mul_unary_negation(d, q);
        assert(d * div_trunc(a, d) == -(d * q));
    }
}

/// Truncating division of `a` by a positive `d`.
pub fn div_trunc_i64(a: i64, d: i64) -> (r: i64)
    requires
        d > 0,
        a > i64::MIN,
    ensures
        r == div_trunc(a as int, d as int),
{
    if a >= 0 {
        let q = (a as u64) / (d as u64);
        q as i64
    } else {
        let m = (-a) as u64;
        let q = m / (d as u64);
        -(q as i64)
    }
}

/// Clamp `v` to `[lo, hi]`.
pub fn clamp_i64(v: i64, lo: i64, hi: i64) -> (r: i64)
    requires
        lo <= hi,
    ensures
        r == clamp_spec(v as int, lo as int, hi as int),
{
    if v < lo {
        lo
    } else if v > hi {
        hi
    } else {
        v
    }
}

/// `r` is the integer square root of `n`: the greatest integer whose square
/// does not exceed `n`.
pub open spec fn is_sqrt_floor(n: int, r: int) -> bool {
    0 <= r && r * r <= n && n < (r + 1) * (r + 1)
}

/// The integer square root of a non-negative `n`.
pub closed spec fn sqrt_floor(n: int) -> int {
    choose|r: int| is_sqrt_floor(n, r)
}

/// No non-negative number has two integer square roots.
pub proof fn lemma_sqrt_floor_unique(n: int, a: int, b: int)
    requires
        is_sqrt_floor(n, a),
        is_sqrt_floor(n, b),
    ensures
        a == b,
{
    if a < b {
        assert((a + 1) * (a + 1) <= b * b) by (nonlinear_arith)
            requires
                0 <= a,
                0 <= b,
                a < b,
        ;
    }
    if b < a {
        assert((b + 1) * (b + 1) <= a * a) by (nonlinear_arith)
            requires
                0 <= a,
                0 <= b,
                b < a,
        ;
    }
}

/// Any witness of `is_sqrt_floor(n, r)` is the value of `sqrt_floor(n)`.
pub proof fn lemma_sqrt_floor_is(n: int, r: int)
    requires
        is_sqrt_floor(n, r),
    ensures
        sqrt_floor(n) == r,
{
    let w = choose|w: int| is_sqrt_floor(n, w);
    lemma_sqrt_floor_unique(n, w, r);
}

/// Whether the square of `x` is at most `n`.
fn square_at_most(x: u64, n: u64) -> (b: bool)
    requires
        x <= 0x1_0001,
    ensures
        b == (x * x <= n),
{
    proof {
        assert(x * x <= 0x1_0001 * 0x1_0001) by (nonlinear_arith)
            requires
                x <= 0x1_0001,
        ;
    }
    x * x <= n
}

/// Integer square root by counting up; the inputs this library feeds it stay
/// small, so the linear search is fine.
pub fn isqrt_u64(n: u64) -> (r: u64)
    requires
        n <= 0x1_0000_0000,
    ensures
        is_sqrt_floor(n as int, r as int),
        r == sqrt_floor(n as int),
{
    let mut r: u64 = 0;
    while square_at_most(r + 1, n)
        invariant
            n <= 0x1_0000_0000,
            r * r <= n,
            r <= 0x1_0000,
        decreases 0x1_0000 - r,
    {
        assert(r < 0x1_0000) by (nonlinear_arith)
            requires
                (r + 1) * (r + 1) <= n,
                n <= 0x1_0000_0000,
                r <= 0x1_0000,
        ;
        r = r + 1;
    }
    proof {
        lemma_sqrt_floor_is(n as int, r as int);
    }
    r
}

} // verus!
