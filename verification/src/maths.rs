//! Three-component fixed-point vectors, reused as points and as
//! linear-space colors, exactly as the renderer treats them.

use vstd::prelude::*;

use crate::fixed::{
    fx_add, fx_clamp, fx_div, fx_mul, fx_neg, fx_sqrt, fx_sub, in_range, s_add, s_clamp, s_div,
    s_mul, s_neg, s_sqrt, s_sub, SCALE,
};
use crate::sampler::{lcg_next, lcg_unit, Lcg64};

verus! {

/// A geometric vector, a point, or a linear color; components are
/// fixed-point scalars (see [`crate::fixed`]).
#[derive(Clone, Copy, Debug, PartialEq, Eq, Structural)]
pub struct Vec3 {
    pub x: i64,
    pub y: i64,
    pub z: i64,
}

pub type Color = Vec3;

pub type Hdr = Vec3;

pub type Point3 = Vec3;

/// Build a vector from component values already in range.
pub open spec fn mk(x: int, y: int, z: int) -> Vec3
    recommends
        in_range(x),
        in_range(y),
        in_range(z),
{
    Vec3 { x: x as i64, y: y as i64, z: z as i64 }
}

/// Componentwise sum.
pub open spec fn v_add(a: Vec3, b: Vec3) -> Vec3 {
    mk(
        s_add(a.x as int, b.x as int),
        s_add(a.y as int, b.y as int),
        s_add(a.z as int, b.z as int),
    )
}

/// Componentwise difference.
pub open spec fn v_sub(a: Vec3, b: Vec3) -> Vec3 {
    mk(
        s_sub(a.x as int, b.x as int),
        s_sub(a.y as int, b.y as int),
        s_sub(a.z as int, b.z as int),
    )
}

/// Scalar multiple.
pub open spec fn v_scale(a: Vec3, k: int) -> Vec3 {
    mk(s_mul(a.x as int, k), s_mul(a.y as int, k), s_mul(a.z as int, k))
}

/// Division by a scalar.
pub open spec fn v_scale_div(a: Vec3, k: int) -> Vec3 {
    mk(s_div(a.x as int, k), s_div(a.y as int, k), s_div(a.z as int, k))
}

/// Dot product.
pub open spec fn v_dot(a: Vec3, b: Vec3) -> int {
    s_add(
        s_add(s_mul(a.x as int, b.x as int), s_mul(a.y as int, b.y as int)),
        s_mul(a.z as int, b.z as int),
    )
}

/// Squared length, the dot product of a vector with itself.
pub open spec fn v_len2(a: Vec3) -> int {
    v_dot(a, a)
}

/// Length: the fixed-point square root of the squared length.
pub open spec fn v_len(a: Vec3) -> int {
    s_sqrt(v_len2(a))
}

/// Normalization divides by the length; a zero vector has length zero and
/// stays zero (the clamped stand-in for the float NaN).
pub open spec fn v_norm(a: Vec3) -> Vec3 {
    v_scale_div(a, v_len(a))
}

/// Cross product, components written as the renderer computes them.
pub open spec fn v_cross(a: Vec3, b: Vec3) -> Vec3 {
    mk(
        s_sub(s_mul(a.y as int, b.z as int), s_mul(b.y as int, a.z as int)),
        s_neg(s_sub(s_mul(a.x as int, b.z as int), s_mul(b.x as int, a.z as int))),
        s_sub(s_mul(a.x as int, b.y as int), s_mul(b.x as int, a.y as int)),
    )
}

/// Componentwise product of two colors.
pub open spec fn v_mix(a: Vec3, b: Vec3) -> Vec3 {
    mk(
        s_mul(a.x as int, b.x as int),
        s_mul(a.y as int, b.y as int),
        s_mul(a.z as int, b.z as int),
    )
}

/// Negation, the scalar multiple by minus one.
pub open spec fn v_neg(a: Vec3) -> Vec3 {
    mk(s_neg(a.x as int), s_neg(a.y as int), s_neg(a.z as int))
}

/// Every component lies in the saturation range.
pub open spec fn v_in_range(v: Vec3) -> bool {
    in_range(v.x as int) && in_range(v.y as int) && in_range(v.z as int)
}

/// Negating the second factor negates the dot product.
pub proof fn lemma_dot_neg(a: Vec3, b: Vec3)
    requires
        v_in_range(b),
    ensures
        v_dot(a, v_neg(b)) == s_neg(v_dot(a, b)),
{
    crate::fixed::lemma_s_mul_neg(a.x as int, b.x as int);
    crate::fixed::lemma_s_mul_neg(a.y as int, b.y as int);
    crate::fixed::lemma_s_mul_neg(a.z as int, b.z as int);
    crate::fixed::lemma_s_add_neg(
        s_mul(a.x as int, b.x as int),
        s_mul(a.y as int, b.y as int),
    );
    crate::fixed::lemma_s_add_neg(
        s_add(s_mul(a.x as int, b.x as int), s_mul(a.y as int, b.y as int)),
        s_mul(a.z as int, b.z as int),
    );
}

/// Saturating componentwise operations land in range.
pub proof fn lemma_v_add_in_range(a: Vec3, b: Vec3)
    ensures
        v_in_range(v_add(a, b)),
{
}

pub proof fn lemma_v_mix_in_range(a: Vec3, b: Vec3)
    ensures
        v_in_range(v_mix(a, b)),
{
}

/// Dividing a vector by one leaves it unchanged.
pub proof fn lemma_v_div_one(v: Vec3)
    requires
        v_in_range(v),
    ensures
        v_scale_div(v, SCALE as int) == v,
{
    crate::fixed::lemma_s_div_one(v.x as int);
    crate::fixed::lemma_s_div_one(v.y as int);
    crate::fixed::lemma_s_div_one(v.z as int);
}

/// A squared length is nonnegative.
pub proof fn lemma_v_len2_nonneg(v: Vec3)
    ensures
        0 <= v_len2(v),
{
    crate::fixed::lemma_s_mul_self_nonneg(v.x as int);
    crate::fixed::lemma_s_mul_self_nonneg(v.y as int);
    crate::fixed::lemma_s_mul_self_nonneg(v.z as int);
}

/// A normalized vector has all components in range.
pub proof fn lemma_norm_in_range(v: Vec3)
    ensures
        v_in_range(v_norm(v)),
{
}

/// The rescaled power `x^k`: a `k`-fold fixed-point product, one unit at
/// exponent zero, so that values of the unit interval stay in it.
pub open spec fn s_fxpow(x: int, k: nat) -> int
    decreases k,
{
    if k == 0 {
        SCALE as int
    } else {
        s_mul(s_fxpow(x, (k - 1) as nat), x)
    }
}

/// The root test of gamma correction: `r` passes for channel `c` and
/// gamma `num / den` when `r^num <= clamp(c)^den` in rescaled powers.
pub open spec fn gamma_le(c: int, num: nat, den: nat, r: int) -> bool {
    s_fxpow(r, num) <= s_fxpow(s_clamp(c, 0, SCALE as int), den)
}

/// Whether `r` is the gamma-corrected channel: the largest value of the
/// unit interval that passes the root test.
pub open spec fn is_gamma_channel(c: int, num: nat, den: nat, r: int) -> bool {
    0 <= r <= SCALE as int && gamma_le(c, num, den, r) && (r == SCALE as int || !gamma_le(
        c,
        num,
        den,
        r + 1,
    ))
}

/// The gamma-corrected channel `clamp(c, 0, 1) ^ (den/num)`, defined by
/// its characteristic property; `lemma_gamma_exists` shows it is well
/// defined for a positive exponent.
pub open spec fn s_gamma_channel(c: int, num: nat, den: nat) -> int {
    choose|r: int| is_gamma_channel(c, num, den, r)
}

/// Gamma correction applied to each channel.
pub open spec fn v_gamma(v: Vec3, num: nat, den: nat) -> Vec3 {
    mk(
        s_gamma_channel(v.x as int, num, den),
        s_gamma_channel(v.y as int, num, den),
        s_gamma_channel(v.z as int, num, den),
    )
}

pub proof fn lemma_fxpow_nonneg(x: int, k: nat)
    requires
        0 <= x,
    ensures
        0 <= s_fxpow(x, k),
    decreases k,
{
    if k > 0 {
        lemma_fxpow_nonneg(x, (k - 1) as nat);
        crate::fixed::lemma_s_mul_nonneg(s_fxpow(x, (k - 1) as nat), x);
    }
}

/// The rescaled power is monotone in its base on nonnegative values.
pub proof fn lemma_fxpow_mono(x1: int, x2: int, k: nat)
    requires
        0 <= x1 <= x2,
    ensures
        s_fxpow(x1, k) <= s_fxpow(x2, k),
    decreases k,
{
    if k > 0 {
        let km1 = (k - 1) as nat;
        lemma_fxpow_mono(x1, x2, km1);
        lemma_fxpow_nonneg(x1, km1);
        lemma_fxpow_nonneg(x2, km1);
        crate::fixed::lemma_s_mul_mono(s_fxpow(x1, km1), s_fxpow(x2, km1), x1);
        crate::fixed::lemma_s_mul_mono(x1, x2, s_fxpow(x2, km1));
        assert(s_fxpow(x2, km1) * x1 == x1 * s_fxpow(x2, km1));
        assert(s_fxpow(x2, km1) * x2 == x2 * s_fxpow(x2, km1));
    }
}

/// Exponent one is multiplication by one.
pub proof fn lemma_fxpow_one(x: int)
    requires
        in_range(x),
    ensures
        s_fxpow(x, 1) == x,
{
    assert(s_fxpow(x, 0) == SCALE as int);
    assert(s_fxpow(x, 1) == s_mul(SCALE as int, x));
    crate::fixed::lemma_s_mul_one(x);
}

/// A positive power of zero is zero.
pub proof fn lemma_fxpow_of_zero(k: nat)
    requires
        k >= 1,
    ensures
        s_fxpow(0, k) == 0,
    decreases k,
{
    if k > 1 {
        lemma_fxpow_of_zero((k - 1) as nat);
    }
    crate::fixed::lemma_s_mul_zero(s_fxpow(0, (k - 1) as nat));
}

/// Between a passing and a failing value the root test has a boundary.
proof fn lemma_gamma_boundary(c: int, num: nat, den: nat, lo: int, hi: int)
    requires
        gamma_le(c, num, den, lo),
        !gamma_le(c, num, den, hi),
        0 <= lo < hi,
    ensures
        exists|r: int|
            lo <= r < hi && #[trigger] gamma_le(c, num, den, r) && !gamma_le(c, num, den, r + 1),
    decreases hi - lo,
{
    if lo + 1 == hi {
        assert(gamma_le(c, num, den, lo) && !gamma_le(c, num, den, lo + 1));
    } else if gamma_le(c, num, den, lo + 1) {
        lemma_gamma_boundary(c, num, den, lo + 1, hi);
    } else {
        assert(gamma_le(c, num, den, lo) && !gamma_le(c, num, den, lo + 1));
    }
}

/// For a positive exponent the gamma-corrected channel is well defined.
pub proof fn lemma_gamma_exists(c: int, num: nat, den: nat)
    requires
        num >= 1,
    ensures
        is_gamma_channel(c, num, den, s_gamma_channel(c, num, den)),
{
    let cc = s_clamp(c, 0, SCALE as int);
    lemma_fxpow_nonneg(cc, den);
    if gamma_le(c, num, den, SCALE as int) {
        assert(is_gamma_channel(c, num, den, SCALE as int));
    } else {
        lemma_fxpow_of_zero(num);
        assert(gamma_le(c, num, den, 0));
        lemma_gamma_boundary(c, num, den, 0, SCALE as int);
        let r = choose|r: int|
            0 <= r < SCALE as int && #[trigger] gamma_le(c, num, den, r) && !gamma_le(
                c,
                num,
                den,
                r + 1,
            );
        assert(is_gamma_channel(c, num, den, r));
    }
}

/// The gamma-corrected channel is unique.
pub proof fn lemma_gamma_unique(c: int, num: nat, den: nat, r1: int, r2: int)
    requires
        is_gamma_channel(c, num, den, r1),
        is_gamma_channel(c, num, den, r2),
    ensures
        r1 == r2,
{
    if r1 < r2 {
        lemma_fxpow_mono(r1 + 1, r2, num);
    } else if r2 < r1 {
        lemma_fxpow_mono(r2 + 1, r1, num);
    }
}

/// Gamma correction with exponent one is the identity on the clamped
/// channel.
pub proof fn lemma_gamma_identity(c: int)
    ensures
        s_gamma_channel(c, 1, 1) == s_clamp(c, 0, SCALE as int),
{
    let cc = s_clamp(c, 0, SCALE as int);
    lemma_fxpow_one(cc);
    if cc < SCALE as int {
        lemma_fxpow_one(cc + 1);
    }
    assert(is_gamma_channel(c, 1, 1, cc));
    lemma_gamma_exists(c, 1, 1);
    lemma_gamma_unique(c, 1, 1, cc, s_gamma_channel(c, 1, 1));
}

/// For a fixed positive gamma, a brighter channel never darkens.
pub proof fn lemma_gamma_monotone(c1: int, c2: int, num: nat, den: nat)
    requires
        c1 <= c2,
        num >= 1,
    ensures
        s_gamma_channel(c1, num, den) <= s_gamma_channel(c2, num, den),
{
    lemma_gamma_exists(c1, num, den);
    lemma_gamma_exists(c2, num, den);
    let r1 = s_gamma_channel(c1, num, den);
    let r2 = s_gamma_channel(c2, num, den);
    if r2 < r1 {
        lemma_fxpow_mono(s_clamp(c1, 0, SCALE as int), s_clamp(c2, 0, SCALE as int), den);
        lemma_fxpow_mono(r2 + 1, r1, num);
    }
}

/// The rescaled power, executed bottom up.
fn fxpow(x: i64, k: u32) -> (r: i64)
    ensures
        r as int == s_fxpow(x as int, k as nat),
{
    let mut acc: i64 = SCALE;
    let mut i: u32 = 0;
    while i < k
        invariant
            0 <= i <= k,
            acc as int == s_fxpow(x as int, i as nat),
        decreases k - i,
    {
        acc = fx_mul(acc, x);
        i = i + 1;
    }
    acc
}

/// One gamma-corrected channel, found by bisecting the root test.
fn gamma_channel(c: i64, num: u32, den: u32) -> (r: i64)
    requires
        num >= 1,
        den >= 1,
    ensures
        r as int == s_gamma_channel(c as int, num as nat, den as nat),
        0 <= r <= SCALE,
{
    let cc = fx_clamp(c, 0, SCALE);
    let target = fxpow(cc, den);
    let top = fxpow(SCALE, num);
    proof {
        lemma_gamma_exists(c as int, num as nat, den as nat);
        lemma_fxpow_nonneg(cc as int, den as nat);
        lemma_fxpow_of_zero(num as nat);
    }
    if top <= target {
        proof {
            lemma_gamma_unique(
                c as int,
                num as nat,
                den as nat,
                SCALE as int,
                s_gamma_channel(c as int, num as nat, den as nat),
            );
        }
        return SCALE;
    }
    let mut lo: u64 = 0;
    let mut hi: u64 = SCALE as u64;
    while lo + 1 < hi
        invariant
            lo < hi <= SCALE as u64,
            target as int == s_fxpow(s_clamp(c as int, 0, SCALE as int), den as nat),
            gamma_le(c as int, num as nat, den as nat, lo as int),
            !gamma_le(c as int, num as nat, den as nat, hi as int),
        decreases hi - lo,
    {
        let mid = lo + (hi - lo) / 2;
        if fxpow(mid as i64, num) <= target {
            lo = mid;
        } else {
            hi = mid;
        }
    }
    proof {
        lemma_gamma_unique(
            c as int,
            num as nat,
            den as nat,
            lo as int,
            s_gamma_channel(c as int, num as nat, den as nat),
        );
    }
    lo as i64
}

/// The sine of the angle `h * pi`, for `h` in `[0, 1]` as a quanta
/// fraction, by Bhaskara's rational approximation
/// `16 h (1 - h) / (5 - 4 h (1 - h))`; exact at `0`, `1/2` and `1`.
pub open spec fn s_sin_half_turn(h: int) -> int {
    let arch = s_mul(h, s_sub(SCALE as int, h));
    s_div(s_mul(16_000_000, arch), s_sub(5_000_000, s_mul(4_000_000, arch)))
}

/// The sine of a full-turn fraction `w` in `[0, 1)`: the first half turn
/// is positive, the second is the first negated.
pub open spec fn s_sin_turn(w: int) -> int {
    if w < 500_000 {
        s_sin_half_turn(s_mul(2_000_000, w))
    } else {
        s_neg(s_sin_half_turn(s_sub(s_mul(2_000_000, w), SCALE as int)))
    }
}

/// The cosine of a full-turn fraction, as the sine shifted a quarter turn.
pub open spec fn s_cos_turn(w: int) -> int {
    if w + 250_000 < SCALE as int {
        s_sin_turn(w + 250_000)
    } else {
        s_sin_turn(w + 250_000 - SCALE as int)
    }
}

fn sin_half_turn(h: i64) -> (r: i64)
    ensures
        r as int == s_sin_half_turn(h as int),
{
    let arch = fx_mul(h, fx_sub(SCALE, h));
    fx_div(fx_mul(16_000_000, arch), fx_sub(5_000_000, fx_mul(4_000_000, arch)))
}

fn sin_turn(w: i64) -> (r: i64)
    ensures
        r as int == s_sin_turn(w as int),
{
    if w < 500_000 {
        sin_half_turn(fx_mul(2_000_000, w))
    } else {
        fx_neg(sin_half_turn(fx_sub(fx_mul(2_000_000, w), SCALE)))
    }
}

fn cos_turn(w: i64) -> (r: i64)
    requires
        0 <= w < SCALE,
    ensures
        r as int == s_cos_turn(w as int),
{
    if w + 250_000 < SCALE {
        sin_turn(w + 250_000)
    } else {
        sin_turn(w + 250_000 - SCALE)
    }
}

/// The direction that hemisphere sampling builds from the surface normal
/// and two unit-interval draws: the polar draw spans a quarter turn, the
/// azimuthal draw a full turn, and the resulting local direction is
/// rotated into the orthonormal frame around the normalized normal (with
/// the two degenerate vertical normals special-cased), then normalized.
pub open spec fn hemisphere_dir(norm: Vec3, u_theta: int, u_phi: int) -> Vec3 {
    let quarter = s_div(u_theta, 4_000_000);
    let sin_theta = s_sin_turn(quarter);
    let cos_theta = s_cos_turn(quarter);
    let sin_phi = s_sin_turn(u_phi);
    let cos_phi = s_cos_turn(u_phi);
    let rand_dir = mk(s_mul(sin_theta, cos_phi), s_mul(sin_theta, sin_phi), cos_theta);
    let normal = v_norm(norm);
    let x_axis = if normal == mk(0, 0, SCALE as int) {
        mk(SCALE as int, 0, 0)
    } else if normal == mk(0, 0, -(SCALE as int)) {
        mk(-(SCALE as int), 0, 0)
    } else {
        v_norm(v_cross(mk(0, 0, SCALE as int), normal))
    };
    let y_axis = v_norm(v_cross(normal, x_axis));
    v_norm(
        mk(
            s_add(
                s_add(
                    s_mul(x_axis.x as int, rand_dir.x as int),
                    s_mul(y_axis.x as int, rand_dir.y as int),
                ),
                s_mul(normal.x as int, rand_dir.z as int),
            ),
            s_add(
                s_add(
                    s_mul(x_axis.y as int, rand_dir.x as int),
                    s_mul(y_axis.y as int, rand_dir.y as int),
                ),
                s_mul(normal.y as int, rand_dir.z as int),
            ),
            s_add(
                s_add(
                    s_mul(x_axis.z as int, rand_dir.x as int),
                    s_mul(y_axis.z as int, rand_dir.y as int),
                ),
                s_mul(normal.z as int, rand_dir.z as int),
            ),
        ),
    )
}

impl Vec3 {
    pub fn new(x: i64, y: i64, z: i64) -> (r: Self)
        ensures
            r == (Vec3 { x, y, z }),
    {
        Self { x, y, z }
    }

    pub fn origin() -> (r: Self)
        ensures
            r == mk(0, 0, 0),
    {
        Self { x: 0, y: 0, z: 0 }
    }

    pub fn vadd(&self, rhs: &Vec3) -> (r: Vec3)
        ensures
            r == v_add(*self, *rhs),
    {
        Vec3 {
            x: fx_add(self.x, rhs.x),
            y: fx_add(self.y, rhs.y),
            z: fx_add(self.z, rhs.z),
        }
    }

    pub fn vsub(&self, rhs: &Vec3) -> (r: Vec3)
        ensures
            r == v_sub(*self, *rhs),
    {
        Vec3 {
            x: fx_sub(self.x, rhs.x),
            y: fx_sub(self.y, rhs.y),
            z: fx_sub(self.z, rhs.z),
        }
    }

    /// Scalar multiple.
    pub fn scale(&self, k: i64) -> (r: Vec3)
        ensures
            r == v_scale(*self, k as int),
    {
        Vec3 { x: fx_mul(self.x, k), y: fx_mul(self.y, k), z: fx_mul(self.z, k) }
    }

    /// Division by a scalar.
    pub fn scale_div(&self, k: i64) -> (r: Vec3)
        ensures
            r == v_scale_div(*self, k as int),
    {
        Vec3 { x: fx_div(self.x, k), y: fx_div(self.y, k), z: fx_div(self.z, k) }
    }

    pub fn neg(&self) -> (r: Vec3)
        ensures
            r == v_neg(*self),
    {
        Vec3 { x: fx_neg(self.x), y: fx_neg(self.y), z: fx_neg(self.z) }
    }

    pub fn dot(&self, rhs: &Vec3) -> (r: i64)
        ensures
            r as int == v_dot(*self, *rhs),
    {
        fx_add(fx_add(fx_mul(self.x, rhs.x), fx_mul(self.y, rhs.y)), fx_mul(self.z, rhs.z))
    }

    pub fn length_squared(&self) -> (r: i64)
        ensures
            r as int == v_len2(*self),
    {
        self.dot(self)
    }

    pub fn length(&self) -> (r: i64)
        ensures
            r as int == v_len(*self),
    {
        fx_sqrt(self.length_squared())
    }

    pub fn normalize(&self) -> (r: Vec3)
        ensures
            r == v_norm(*self),
    {
        self.scale_div(self.length())
    }

    pub fn cross(&self, other: &Vec3) -> (r: Vec3)
        ensures
            r == v_cross(*self, *other),
    {
        Vec3 {
            x: fx_sub(fx_mul(self.y, other.z), fx_mul(other.y, self.z)),
            y: fx_neg(fx_sub(fx_mul(self.x, other.z), fx_mul(other.x, self.z))),
            z: fx_sub(fx_mul(self.x, other.y), fx_mul(other.x, self.y)),
        }
    }

    /// Tone-map a linear color: each channel becomes
    /// `clamp(c, 0, 1) ^ (gamma_den/gamma_num)`, the fixed-point root
    /// search standing in for the float power.
    pub fn gamma_correction(&self, gamma_num: u32, gamma_den: u32) -> (r: Color)
        requires
            gamma_num >= 1,
            gamma_den >= 1,
        ensures
            r == v_gamma(*self, gamma_num as nat, gamma_den as nat),
    {
        Vec3 {
            x: gamma_channel(self.x, gamma_num, gamma_den),
            y: gamma_channel(self.y, gamma_num, gamma_den),
            z: gamma_channel(self.z, gamma_num, gamma_den),
        }
    }

    /// Sample a random direction in the hemisphere around `norm`: a polar
    /// angle in the first quarter turn and a full-turn azimuth, rotated
    /// into the orthonormal frame built from the normal.
    pub fn rand_hemisphere_dir(norm: Vec3, rng: &mut Lcg64) -> (r: Vec3)
        ensures
            r == hemisphere_dir(norm, lcg_unit(old(rng).state), lcg_unit(lcg_next(old(rng).state))),
            final(rng).state == lcg_next(lcg_next(old(rng).state)),
    {
        let u_theta = rng.next_unit();
        let u_phi = rng.next_unit();
        let quarter = fx_div(u_theta, 4_000_000);
        let sin_theta = sin_turn(quarter);
        let cos_theta = cos_turn(quarter);
        let sin_phi = sin_turn(u_phi);
        let cos_phi = cos_turn(u_phi);
        let rand_dir = Vec3 {
            x: fx_mul(sin_theta, cos_phi),
            y: fx_mul(sin_theta, sin_phi),
            z: cos_theta,
        };

        let normal = norm.normalize();
        let z_up = Vec3 { x: 0, y: 0, z: SCALE };
        let z_down = Vec3 { x: 0, y: 0, z: -SCALE };
        let x_axis = if normal == z_up {
            Vec3 { x: SCALE, y: 0, z: 0 }
        } else if normal == z_down {
            Vec3 { x: -SCALE, y: 0, z: 0 }
        } else {
            z_up.cross(&normal).normalize()
        };
        let y_axis = normal.cross(&x_axis).normalize();

        let rotated = Vec3 {
            x: fx_add(
                fx_add(fx_mul(x_axis.x, rand_dir.x), fx_mul(y_axis.x, rand_dir.y)),
                fx_mul(normal.x, rand_dir.z),
            ),
            y: fx_add(
                fx_add(fx_mul(x_axis.y, rand_dir.x), fx_mul(y_axis.y, rand_dir.y)),
                fx_mul(normal.y, rand_dir.z),
            ),
            z: fx_add(
                fx_add(fx_mul(x_axis.z, rand_dir.x), fx_mul(y_axis.z, rand_dir.y)),
                fx_mul(normal.z, rand_dir.z),
            ),
        };
        rotated.normalize()
    }

    /// Componentwise color product.
    pub fn mix(&self, rhs: &Vec3) -> (r: Vec3)
        ensures
            r == v_mix(*self, *rhs),
    {
        Vec3 {
            x: fx_mul(self.x, rhs.x),
            y: fx_mul(self.y, rhs.y),
            z: fx_mul(self.z, rhs.z),
        }
    }
}

} // verus!
