//! Saturating fixed-point scalars.
//!
//! A scalar is an `i64` holding a count of millionths: the number `1.5` is
//! stored as `1_500_000`. Every operation clamps its result into
//! `[-SAT, SAT]`, so chains of operations never overflow and never panic;
//! a saturated value plays the role that an infinity plays in
//! floating-point arithmetic.

use vstd::prelude::*;

verus! {

/// Quanta per unit: a scalar counts millionths.
pub const SCALE: i64 = 1_000_000;

/// Saturation bound; every operation clamps its result into `[-SAT, SAT]`.
pub const SAT: i64 = 1_000_000_000_000_000;

/// Truncating division (round toward zero) for a positive divisor,
/// the semantics of `/` on machine integers.
pub open spec fn s_tdiv_pos(a: int, b: int) -> int
    recommends
        b > 0,
{
    if a >= 0 {
        a / b
    } else {
        -((-a) / b)
    }
}

/// Truncating division (round toward zero), the semantics of `/` on
/// machine integers.
pub open spec fn s_tdiv(a: int, b: int) -> int
    recommends
        b != 0,
{
    if b < 0 {
        s_tdiv_pos(-a, -b)
    } else {
        s_tdiv_pos(a, b)
    }
}

/// Clamp into the representable range `[-SAT, SAT]`.
pub open spec fn s_sat(v: int) -> int {
    if v > SAT as int {
        SAT as int
    } else if v < -(SAT as int) {
        -(SAT as int)
    } else {
        v
    }
}

pub open spec fn in_range(v: int) -> bool {
    -(SAT as int) <= v <= SAT as int
}

/// Fixed-point sum.
pub open spec fn s_add(a: int, b: int) -> int {
    s_sat(a + b)
}

/// Fixed-point difference.
pub open spec fn s_sub(a: int, b: int) -> int {
    s_sat(a - b)
}

/// Fixed-point negation.
pub open spec fn s_neg(a: int) -> int {
    s_sat(-a)
}

/// Fixed-point product: `a * b` rescaled by `SCALE`, truncated toward zero.
pub open spec fn s_mul(a: int, b: int) -> int {
    s_sat(s_tdiv(a * b, SCALE as int))
}

/// Fixed-point quotient. Division by zero saturates with the sign of the
/// dividend, standing in for the infinity a float quotient would give.
pub open spec fn s_div(a: int, b: int) -> int {
    if b == 0 {
        if a > 0 {
            SAT as int
        } else if a < 0 {
            -(SAT as int)
        } else {
            0
        }
    } else {
        s_sat(s_tdiv(a * SCALE, b))
    }
}

/// Clamp `v` into `[lo, hi]`.
pub open spec fn s_clamp(v: int, lo: int, hi: int) -> int {
    if v < lo {
        lo
    } else if v > hi {
        hi
    } else {
        v
    }
}

/// A product of numbers bounded by `m` and `n` is bounded by `m * n`.
pub proof fn lemma_mul_bound(a: int, b: int, m: int, n: int)
    by (nonlinear_arith)
    requires
        -m <= a <= m,
        -n <= b <= n,
        0 <= m,
        0 <= n,
    ensures
        -(m * n) <= a * b <= m * n,
{
}

/// Clamp a wide intermediate into the representable range.
pub(crate) fn sat128(v: i128) -> (r: i64)
    ensures
        r as int == s_sat(v as int),
{
    if v > SAT as i128 {
        SAT
    } else if v < -(SAT as i128) {
        -SAT
    } else {
        v as i64
    }
}

/// Truncating division on wide intermediates, computed on magnitudes so
/// that the rounding direction is explicit.
pub(crate) fn tdiv128(a: i128, b: i128) -> (r: i128)
    requires
        b != 0,
        a != i128::MIN,
        b != i128::MIN,
    ensures
        r as int == s_tdiv(a as int, b as int),
        (a >= 0 && b > 0) ==> 0 <= r <= a,
{
    let an: u128 = if a >= 0 {
        a as u128
    } else {
        (-a) as u128
    };
    let bn: u128 = if b >= 0 {
        b as u128
    } else {
        (-b) as u128
    };
    let q: u128 = an / bn;
    proof {
        assert(q <= an) by {
            vstd::arithmetic::div_mod::lemma_div_is_ordered_by_denominator(
                an as int,
                1,
                bn as int,
            );
        };
    }
    if (a < 0) != (b < 0) {
        -(q as i128)
    } else {
        q as i128
    }
}

pub fn fx_add(a: i64, b: i64) -> (r: i64)
    ensures
        r as int == s_add(a as int, b as int),
{
    sat128(a as i128 + b as i128)
}

pub fn fx_sub(a: i64, b: i64) -> (r: i64)
    ensures
        r as int == s_sub(a as int, b as int),
{
    sat128(a as i128 - b as i128)
}

pub fn fx_neg(a: i64) -> (r: i64)
    ensures
        r as int == s_neg(a as int),
{
    sat128(-(a as i128))
}

pub fn fx_mul(a: i64, b: i64) -> (r: i64)
    ensures
        r as int == s_mul(a as int, b as int),
{
    proof {
        lemma_mul_bound(a as int, b as int, 0x8000_0000_0000_0000, 0x8000_0000_0000_0000);
    }
    let wide: i128 = (a as i128) * (b as i128);
    sat128(tdiv128(wide, SCALE as i128))
}

pub fn fx_div(a: i64, b: i64) -> (r: i64)
    ensures
        r as int == s_div(a as int, b as int),
{
    if b == 0 {
        if a > 0 {
            SAT
        } else if a < 0 {
            -SAT
        } else {
            0
        }
    } else {
        proof {
            lemma_mul_bound(a as int, SCALE as int, 0x8000_0000_0000_0000, SCALE as int);
        }
        let wide: i128 = (a as i128) * (SCALE as i128);
        sat128(tdiv128(wide, b as i128))
    }
}

/// Saturation is an odd function.
pub proof fn lemma_sat_neg(v: int)
    ensures
        s_sat(-v) == -s_sat(v),
{
}

/// Truncating division is an odd function of the dividend.
pub proof fn lemma_tdiv_neg(a: int, b: int)
    requires
        b > 0,
    ensures
        s_tdiv(-a, b) == -s_tdiv(a, b),
{
}

/// The fixed-point product is odd in each factor.
pub proof fn lemma_s_mul_neg(a: int, b: int)
    ensures
        s_mul(a, -b) == -s_mul(a, b),
{
    assert(a * (-b) == -(a * b)) by (nonlinear_arith);
    lemma_tdiv_neg(a * b, SCALE as int);
    lemma_sat_neg(s_tdiv(a * b, SCALE as int));
}

/// The fixed-point sum is odd.
pub proof fn lemma_s_add_neg(a: int, b: int)
    ensures
        s_add(-a, -b) == -s_add(a, b),
{
    lemma_sat_neg(a + b);
}

/// Truncating division is monotone in the dividend.
pub proof fn lemma_tdiv_mono(a1: int, a2: int, b: int)
    requires
        a1 <= a2,
        b > 0,
    ensures
        s_tdiv(a1, b) <= s_tdiv(a2, b),
{
    if a1 >= 0 {
        vstd::arithmetic::div_mod::lemma_div_is_ordered(a1, a2, b);
    } else if a2 < 0 {
        vstd::arithmetic::div_mod::lemma_div_is_ordered(-a2, -a1, b);
    } else {
        vstd::arithmetic::div_mod::lemma_div_pos_is_pos(-a1, b);
        vstd::arithmetic::div_mod::lemma_div_pos_is_pos(a2, b);
    }
}

/// The fixed-point product is monotone in its first factor when the
/// second is nonnegative.
pub proof fn lemma_s_mul_mono(a1: int, a2: int, b: int)
    requires
        a1 <= a2,
        0 <= b,
    ensures
        s_mul(a1, b) <= s_mul(a2, b),
{
    assert(a1 * b <= a2 * b) by (nonlinear_arith)
        requires
            a1 <= a2 && 0 <= b,
    ;
    lemma_tdiv_mono(a1 * b, a2 * b, SCALE as int);
}

/// A product of nonnegative factors is nonnegative.
pub proof fn lemma_s_mul_nonneg(a: int, b: int)
    requires
        0 <= a,
        0 <= b,
    ensures
        0 <= s_mul(a, b),
{
    assert(0 <= a * b) by (nonlinear_arith)
        requires
            0 <= a && 0 <= b,
    ;
    vstd::arithmetic::div_mod::lemma_div_pos_is_pos(a * b, SCALE as int);
}

/// Multiplying by one (`SCALE` quanta) is the identity on the range.
pub proof fn lemma_s_mul_one(x: int)
    requires
        in_range(x),
    ensures
        s_mul(SCALE as int, x) == x,
{
    if x >= 0 {
        vstd::arithmetic::div_mod::lemma_div_multiples_vanish(x, SCALE as int);
    } else {
        vstd::arithmetic::div_mod::lemma_div_multiples_vanish(-x, SCALE as int);
        assert((SCALE as int) * x == -((SCALE as int) * (-x)));
    }
}

/// Multiplying by zero gives zero.
pub proof fn lemma_s_mul_zero(a: int)
    ensures
        s_mul(a, 0) == 0,
{
    vstd::arithmetic::div_mod::lemma_div_of0(SCALE as int);
}

/// A fixed-point square is nonnegative.
pub proof fn lemma_s_mul_self_nonneg(a: int)
    ensures
        0 <= s_mul(a, a),
{
    assert(0 <= a * a) by (nonlinear_arith);
    vstd::arithmetic::div_mod::lemma_div_pos_is_pos(a * a, SCALE as int);
}

/// The fixed-point quotient is monotone in the dividend for a
/// nonnegative divisor (division by zero follows the sign rule).
pub proof fn lemma_s_div_mono_num(a1: int, a2: int, b: int)
    requires
        a1 <= a2,
        0 <= b,
    ensures
        s_div(a1, b) <= s_div(a2, b),
{
    if b != 0 {
        lemma_tdiv_mono(a1 * SCALE, a2 * SCALE, b);
    }
}

/// Dividing by one (`SCALE` quanta) is the identity on the range.
pub proof fn lemma_s_div_one(x: int)
    requires
        in_range(x),
    ensures
        s_div(x, SCALE as int) == x,
{
    if x >= 0 {
        vstd::arithmetic::div_mod::lemma_div_multiples_vanish(x, SCALE as int);
        assert(x * (SCALE as int) == (SCALE as int) * x);
    } else {
        vstd::arithmetic::div_mod::lemma_div_multiples_vanish(-x, SCALE as int);
        assert(-(x * (SCALE as int)) == (SCALE as int) * (-x));
    }
}

/// Zero divided by anything is zero, division by zero included.
pub proof fn lemma_s_div_zero(p: int)
    ensures
        s_div(0, p) == 0,
{
    if p > 0 {
        vstd::arithmetic::div_mod::lemma_div_of0(p);
    } else if p < 0 {
        vstd::arithmetic::div_mod::lemma_div_of0(-p);
    }
}

/// `r` is the integer square root of `n`: the largest integer whose
/// square does not exceed `n`.
pub open spec fn is_sqrt(n: int, r: int) -> bool {
    0 <= r && r * r <= n && n < (r + 1) * (r + 1)
}

/// The integer square root as a function, defined by its characteristic
/// property; `lemma_sqrt_exists` shows it is well defined.
pub open spec fn s_isqrt(n: int) -> int
    recommends
        n >= 0,
{
    choose|r: int| is_sqrt(n, r)
}

pub proof fn lemma_sqrt_exists(n: int)
    requires
        n >= 0,
    ensures
        is_sqrt(n, s_isqrt(n)),
    decreases n,
{
    if n == 0 {
        assert(is_sqrt(0, 0));
    } else {
        lemma_sqrt_exists(n - 1);
        let r = s_isqrt(n - 1);
        if (r + 1) * (r + 1) <= n {
            assert(is_sqrt(n, r + 1)) by (nonlinear_arith)
                requires
                    is_sqrt(n - 1, r),
                    (r + 1) * (r + 1) <= n,
            ;
        } else {
            assert(is_sqrt(n, r));
        }
    }
    assert(exists|r2: int| is_sqrt(n, r2));
}

pub proof fn lemma_sqrt_unique(n: int, r1: int, r2: int)
    by (nonlinear_arith)
    requires
        is_sqrt(n, r1),
        is_sqrt(n, r2),
    ensures
        r1 == r2,
{
}

pub proof fn lemma_sqrt_below(n: int, r: int, m: int)
    by (nonlinear_arith)
    requires
        is_sqrt(n, r),
        0 <= m,
        n < m * m,
    ensures
        r < m,
{
}

/// Integer square root of a wide word, by bisection.
pub(crate) fn isqrt128(n: u128) -> (r: u64)
    ensures
        is_sqrt(n as int, r as int),
        r as int == s_isqrt(n as int),
{
    let mut lo: u128 = 0;
    let mut hi: u128 = 0x1_0000_0000_0000_0000;
    while lo + 1 < hi
        invariant
            lo < hi <= 0x1_0000_0000_0000_0000,
            lo as int * lo as int <= n as int,
            (n as int) < hi as int * hi as int,
        decreases hi - lo,
    {
        let mid: u128 = lo + (hi - lo) / 2;
        proof {
            lemma_mul_bound(mid as int, mid as int, 0xffff_ffff_ffff_ffff, 0xffff_ffff_ffff_ffff);
        }
        let sq: u128 = mid * mid;
        if sq <= n {
            lo = mid;
        } else {
            hi = mid;
        }
    }
    proof {
        lemma_sqrt_exists(n as int);
        lemma_sqrt_unique(n as int, lo as int, s_isqrt(n as int));
    }
    lo as u64
}

/// The fixed-point square root is nonnegative.
pub proof fn lemma_s_sqrt_nonneg(a: int)
    ensures
        0 <= s_sqrt(a),
{
    if a > 0 {
        assert(0 <= a * SCALE) by (nonlinear_arith)
            requires
                a > 0 && SCALE == 1_000_000,
        ;
        lemma_sqrt_exists(a * SCALE);
    }
}

/// Fixed-point square root: the square root of `a / SCALE` units, in
/// quanta, truncated. Nonpositive inputs give zero.
pub open spec fn s_sqrt(a: int) -> int {
    if a <= 0 {
        0
    } else {
        s_isqrt(a * SCALE)
    }
}

pub fn fx_sqrt(a: i64) -> (r: i64)
    ensures
        r as int == s_sqrt(a as int),
{
    if a <= 0 {
        0
    } else {
        proof {
            lemma_mul_bound(a as int, SCALE as int, 0x8000_0000_0000_0000, SCALE as int);
        }
        let wide: u128 = (a as u128) * (SCALE as u128);
        let root: u64 = isqrt128(wide);
        proof {
            lemma_sqrt_below(wide as int, root as int, 0x4000_0000_0000);
        }
        root as i64
    }
}

pub fn fx_clamp(v: i64, lo: i64, hi: i64) -> (r: i64)
    ensures
        r as int == s_clamp(v as int, lo as int, hi as int),
{
    if v < lo {
        lo
    } else if v > hi {
        hi
    } else {
        v
    }
}

} // verus!
