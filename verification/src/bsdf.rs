//! Cook-Torrance microfacet reflectance: a Lambertian diffuse term plus a
//! GGX specular term with Schlick Fresnel and Schlick-GGX geometry.
//!
//! Grazing angles, where a dot product in a denominator reaches zero, are
//! not specially guarded: the saturating fixed-point quotient stands in
//! for the very large or non-finite values a float evaluation would give.

use vstd::prelude::*;

use crate::fixed::{fx_add, fx_clamp, fx_div, fx_mul, fx_sub, s_add, s_clamp, s_div, s_mul, s_sub, SAT, SCALE};
use crate::maths::{v_add, v_dot, v_norm, v_scale, Color, Hdr, Vec3};

verus! {

/// The circle constant in fixed-point quanta.
pub const PI_FX: i64 = 3_141_593;

/// One unit in quanta; `2.0` and the specular `4.0` written out.
pub const TWO_FX: i64 = 2_000_000;

pub const FOUR_FX: i64 = 4_000_000;

pub struct BSDF {}

/// Cook-Torrance reflectance as the renderer evaluates it:
/// `color * (kd/pi + D*G*F / (4 (v.n)(l.n))) * max(n.l, 0)` with
/// `D = a^2 / (pi ((n.h)^2 (a^2 - 1) + 1)^2)`,
/// `G = (n.v) / ((n.v)(1 - k) + k)` for `k = a^2/2`, and
/// `F = f0 + (1 - f0)(1 - (h.v)^5)`.
pub open spec fn brdf(
    kd: int,
    f0: int,
    roughness: int,
    wo: Vec3,
    wi: Vec3,
    normal: Vec3,
    color: Color,
) -> Hdr {
    let diffuse = s_div(kd, PI_FX as int);
    let v = v_norm(wo);
    let l = v_norm(wi);
    let h = v_norm(v_add(l, v));
    let a2 = s_mul(roughness, roughness);
    let k = s_div(a2, TWO_FX as int);
    let nh = v_dot(normal, h);
    let shape = s_add(s_mul(s_mul(nh, nh), s_sub(a2, SCALE as int)), SCALE as int);
    let d_term = s_div(a2, s_mul(PI_FX as int, s_mul(shape, shape)));
    let nv = v_dot(normal, v);
    let g_term = s_div(nv, s_add(s_mul(nv, s_sub(SCALE as int, k)), k));
    let hv = v_dot(h, v);
    let hv5 = s_mul(s_mul(s_mul(s_mul(hv, hv), hv), hv), hv);
    let f_term = s_add(f0, s_mul(s_sub(SCALE as int, f0), s_sub(SCALE as int, hv5)));
    let nl = v_dot(normal, l);
    let specular = s_div(
        s_mul(s_mul(d_term, g_term), f_term),
        s_mul(s_mul(FOUR_FX as int, nv), nl),
    );
    let fr = s_add(diffuse, specular);
    v_scale(v_scale(color, fr), s_clamp(nl, 0, SAT as int))
}

impl BSDF {
    /// Evaluate the reflectance for the outgoing direction `wo`, the
    /// sampled incoming direction `wi`, and the surface attributes.
    pub fn cook_torrance_brdf(
        kd: i64,
        f0: i64,
        roughness: i64,
        wo: Vec3,
        wi: Vec3,
        normal: Vec3,
        color: Color,
    ) -> (r: Hdr)
        ensures
            r == brdf(kd as int, f0 as int, roughness as int, wo, wi, normal, color),
    {
        let diffuse = fx_div(kd, PI_FX);
        let v = wo.normalize();
        let l = wi.normalize();
        let h = l.vadd(&v).normalize();
        let a2 = fx_mul(roughness, roughness);
        let k = fx_div(a2, TWO_FX);
        let nh = normal.dot(&h);
        let shape = fx_add(fx_mul(fx_mul(nh, nh), fx_sub(a2, SCALE)), SCALE);
        let d_term = fx_div(a2, fx_mul(PI_FX, fx_mul(shape, shape)));
        let nv = normal.dot(&v);
        let g_term = fx_div(nv, fx_add(fx_mul(nv, fx_sub(SCALE, k)), k));
        let hv = h.dot(&v);
        let hv5 = fx_mul(fx_mul(fx_mul(fx_mul(hv, hv), hv), hv), hv);
        let f_term = fx_add(f0, fx_mul(fx_sub(SCALE, f0), fx_sub(SCALE, hv5)));
        let nl = normal.dot(&l);
        let specular = fx_div(fx_mul(fx_mul(d_term, g_term), f_term), fx_mul(fx_mul(FOUR_FX, nv), nl));
        let fr = fx_add(diffuse, specular);
        color.scale(fr).scale(fx_clamp(nl, 0, SAT))
    }
}

} // verus!
