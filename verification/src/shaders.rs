//! The shaders: the recursive Monte-Carlo path tracer with next-event
//! sun sampling and Russian-roulette termination. Of the named shading
//! strategies, only the path tracer and the flat Phong stub do anything;
//! the others are bare strategy types.

use vstd::prelude::*;

use crate::bsdf::{brdf, BSDF};
use crate::fixed::{fx_sub, s_div, s_sub, SAT, SCALE};
use crate::hit::{list_hit, HitRecord, HittableList};
use crate::light::{Light, LightGroup};
use crate::maths::{
    hemisphere_dir, lemma_v_add_in_range, lemma_v_mix_in_range, mk, v_add, v_in_range, v_mix,
    v_scale, v_scale_div, Color, Hdr, Vec3,
};
use crate::objects::Primitive;
use crate::ray::Ray;
use crate::renderer::Renderer;
use crate::sampler::{lcg_next, lcg_unit, Lcg64};

verus! {

/// Which shader a session runs.
#[derive(Clone, Copy, Debug, PartialEq, Eq, Structural)]
pub enum ShaderType {
    PathTracing,
    LeadTest,
}

/// The strictly positive ray parameter below which an intersection is
/// taken for the ray's own starting surface and suppressed.
pub const RAY_EPS: i64 = 100;

/// Radiance added by every sun light whose shadow ray from `origin`
/// leaves the scene unoccluded, summed in insertion order.
pub open spec fn sun_emission(world: Seq<Primitive>, lights: Seq<Light>, origin: Vec3) -> Hdr
    decreases lights.len(),
{
    if lights.len() == 0 {
        mk(0, 0, 0)
    } else {
        let rest = sun_emission(world, lights.drop_last(), origin);
        match lights.last() {
            Light::SunLight(sun) => {
                let check = Ray { origin, direction: v_scale(sun.direction, -(SCALE as int)) };
                if list_hit(world, check, RAY_EPS as int, SAT as int) is None {
                    v_add(rest, v_scale(sun.color, sun.intensity as int))
                } else {
                    rest
                }
            },
            _ => rest,
        }
    }
}

/// The same sun pass on the recursive branch: each visible sun's radiance
/// is weighted by the surface's reflectance for the sampled directions
/// and compensated by the continuation probability. The diffuse
/// coefficient handed to the reflectance is derived from the material,
/// `kd = 1 - reflectivity`.
pub open spec fn sun_emission_weighted(
    world: Seq<Primitive>,
    lights: Seq<Light>,
    ray: Ray,
    wo: Vec3,
    wi: Vec3,
    rec: HitRecord,
    p: int,
) -> Hdr
    decreases lights.len(),
{
    if lights.len() == 0 {
        mk(0, 0, 0)
    } else {
        let rest = sun_emission_weighted(world, lights.drop_last(), ray, wo, wi, rec, p);
        match lights.last() {
            Light::SunLight(sun) => {
                let check = Ray {
                    origin: ray.origin,
                    direction: v_scale(sun.direction, -(SCALE as int)),
                };
                if list_hit(world, check, RAY_EPS as int, SAT as int) is None {
                    v_add(
                        rest,
                        v_scale_div(
                            v_mix(
                                v_scale(sun.color, sun.intensity as int),
                                brdf(
                                    s_sub(SCALE as int, rec.reflectivity as int),
                                    rec.reflectivity as int,
                                    rec.roughness as int,
                                    wo,
                                    wi,
                                    rec.normal,
                                    rec.color,
                                ),
                            ),
                            p,
                        ),
                    )
                } else {
                    rest
                }
            },
            _ => rest,
        }
    }
}

/// Radiance a missing ray gathers on top of `base`: every environment
/// light's constant value, in insertion order.
pub open spec fn hdri_emission(lights: Seq<Light>, base: Hdr) -> Hdr
    decreases lights.len(),
{
    if lights.len() == 0 {
        base
    } else {
        let rest = hdri_emission(lights.drop_last(), base);
        match lights.last() {
            Light::HDRILight(h) => v_add(rest, v_scale(h.color, h.intensity as int)),
            _ => rest,
        }
    }
}

/// What one path-tracing call returns, as a function of the scene, the
/// policy, the ray, the remaining depth and the generator state.
///
/// The direct sun pass is skipped on the primary call (`depth` equal to
/// `max_depth`), where the ray starts at the camera rather than on a
/// surface. At `depth <= 0` only that direct pass, compensated by the
/// continuation probability, survives. On a hit, one draw decides
/// termination; a surviving path samples the hemisphere, gathers the
/// weighted sun pass and the reflectance-modulated recursion, and divides
/// by the continuation probability. On a miss the environment lights are
/// added and the total is compensated likewise. Every reflectance
/// evaluation takes its diffuse coefficient from the material as
/// `kd = 1 - reflectivity`.
pub open spec fn spec_trace(
    world: Seq<Primitive>,
    lights: Seq<Light>,
    max_depth: u32,
    p: int,
    ray: Ray,
    depth: int,
    state: u64,
) -> Hdr
    decreases depth,
{
    let direct = if depth < max_depth as int {
        sun_emission(world, lights, ray.origin)
    } else {
        mk(0, 0, 0)
    };
    if depth <= 0 {
        v_scale_div(direct, p)
    } else {
        match list_hit(world, ray, RAY_EPS as int, SAT as int) {
            Some(record) => {
                let draw = lcg_unit(state);
                let s1 = lcg_next(state);
                if draw > p {
                    v_scale_div(direct, p)
                } else {
                    let wi = hemisphere_dir(record.normal, lcg_unit(s1), lcg_unit(lcg_next(s1)));
                    let s3 = lcg_next(lcg_next(s1));
                    let wo = v_scale(ray.direction, -(SCALE as int));
                    let light_contrib = sun_emission_weighted(world, lights, ray, wo, wi, record, p);
                    let indirect = v_mix(
                        brdf(
                            s_sub(SCALE as int, record.reflectivity as int),
                            record.reflectivity as int,
                            record.roughness as int,
                            wo,
                            wi,
                            record.normal,
                            record.color,
                        ),
                        spec_trace(
                            world,
                            lights,
                            max_depth,
                            p,
                            Ray { origin: record.point, direction: wi },
                            depth - 1,
                            s3,
                        ),
                    );
                    v_add(light_contrib, v_scale_div(indirect, p))
                }
            },
            None => v_scale_div(hdri_emission(lights, direct), p),
        }
    }
}

impl Renderer {
    /// The direct sun pass: see `sun_emission`.
    fn run_sun_pass(&self, origin: Vec3) -> (r: Hdr)
        ensures
            r == sun_emission(self.world.objects@, self.light_group.lights@, origin),
    {
        let mut total = Vec3::origin();
        let n = self.light_group.lights.len();
        let mut i: usize = 0;
        while i < n
            invariant
                n == self.light_group.lights@.len(),
                0 <= i <= n,
                total == sun_emission(
                    self.world.objects@,
                    self.light_group.lights@.take(i as int),
                    origin,
                ),
            decreases n - i,
        {
            proof {
                assert(self.light_group.lights@.take(i as int + 1).drop_last()
                    =~= self.light_group.lights@.take(i as int));
            }
            match self.light_group.lights[i] {
                Light::SunLight(sun) => {
                    let check_ray = Ray::new(origin, sun.direction.scale(-SCALE));
                    match self.world.get_hit_record(&check_ray, RAY_EPS, SAT) {
                        None => {
                            total = total.vadd(&sun.color.scale(sun.intensity));
                        },
                        Some(_) => {},
                    }
                },
                _ => {},
            }
            i = i + 1;
        }
        proof {
            assert(self.light_group.lights@.take(n as int) =~= self.light_group.lights@);
        }
        total
    }

    /// The weighted sun pass of the recursive branch: see
    /// `sun_emission_weighted`.
    fn run_weighted_sun_pass(&self, ray: &Ray, wo: Vec3, wi: Vec3, rec: &HitRecord) -> (r: Hdr)
        ensures
            r == sun_emission_weighted(
                self.world.objects@,
                self.light_group.lights@,
                *ray,
                wo,
                wi,
                *rec,
                self.probability_rr as int,
            ),
    {
        let mut total = Vec3::origin();
        let n = self.light_group.lights.len();
        let mut i: usize = 0;
        while i < n
            invariant
                n == self.light_group.lights@.len(),
                0 <= i <= n,
                total == sun_emission_weighted(
                    self.world.objects@,
                    self.light_group.lights@.take(i as int),
                    *ray,
                    wo,
                    wi,
                    *rec,
                    self.probability_rr as int,
                ),
            decreases n - i,
        {
            proof {
                assert(self.light_group.lights@.take(i as int + 1).drop_last()
                    =~= self.light_group.lights@.take(i as int));
            }
            match self.light_group.lights[i] {
                Light::SunLight(sun) => {
                    let check_ray = Ray::new(ray.origin, sun.direction.scale(-SCALE));
                    match self.world.get_hit_record(&check_ray, RAY_EPS, SAT) {
                        None => {
                            let weighted = sun.color.scale(sun.intensity).mix(
                                &BSDF::cook_torrance_brdf(
                                    fx_sub(SCALE, rec.reflectivity),
                                    rec.reflectivity,
                                    rec.roughness,
                                    wo,
                                    wi,
                                    rec.normal,
                                    rec.color,
                                ),
                            );
                            total = total.vadd(&weighted.scale_div(self.probability_rr));
                        },
                        Some(_) => {},
                    }
                },
                _ => {},
            }
            i = i + 1;
        }
        proof {
            assert(self.light_group.lights@.take(n as int) =~= self.light_group.lights@);
        }
        total
    }

    /// The miss branch's environment pass: see `hdri_emission`.
    fn run_hdri_pass(&self, base: Hdr) -> (r: Hdr)
        ensures
            r == hdri_emission(self.light_group.lights@, base),
    {
        let mut total = base;
        let n = self.light_group.lights.len();
        let mut i: usize = 0;
        while i < n
            invariant
                n == self.light_group.lights@.len(),
                0 <= i <= n,
                total == hdri_emission(self.light_group.lights@.take(i as int), base),
            decreases n - i,
        {
            proof {
                assert(self.light_group.lights@.take(i as int + 1).drop_last()
                    =~= self.light_group.lights@.take(i as int));
            }
            match self.light_group.lights[i] {
                Light::HDRILight(h) => {
                    total = total.vadd(&h.get_hdr_value(Vec3::origin()));
                },
                _ => {},
            }
            i = i + 1;
        }
        proof {
            assert(self.light_group.lights@.take(n as int) =~= self.light_group.lights@);
        }
        total
    }

    /// One path-tracing estimate of the radiance arriving along `ray`,
    /// with `depth` indirect bounces still allowed; `spec_trace` pins the
    /// result down exactly, draw by draw.
    pub fn shader_path_tracing(&self, ray: &Ray, depth: i32, rng: &mut Lcg64) -> (r: Hdr)
        ensures
            r == spec_trace(
                self.world.objects@,
                self.light_group.lights@,
                self.ctx.max_depth,
                self.probability_rr as int,
                *ray,
                depth as int,
                old(rng).state,
            ),
        decreases depth,
    {
        let mut total_emission = Vec3::origin();
        // the primary call starts at the camera, not on a surface: its
        // direct sun pass is skipped
        if (depth as i64) < self.ctx.max_depth as i64 {
            total_emission = self.run_sun_pass(ray.origin);
        }
        if depth <= 0 {
            return total_emission.scale_div(self.probability_rr);
        }
        match self.world.get_hit_record(ray, RAY_EPS, SAT) {
            Some(record) => {
                let draw = rng.next_unit();
                if draw > self.probability_rr {
                    return total_emission.scale_div(self.probability_rr);
                }
                let rand_dir = Vec3::rand_hemisphere_dir(record.normal, rng);
                let rand_ray = Ray::new(record.point, rand_dir);
                let wi = rand_dir;
                let wo = ray.direction.scale(-SCALE);
                let light_contrib = self.run_weighted_sun_pass(ray, wo, wi, &record);
                let reflect = BSDF::cook_torrance_brdf(
                    fx_sub(SCALE, record.reflectivity),
                    record.reflectivity,
                    record.roughness,
                    wo,
                    wi,
                    record.normal,
                    record.color,
                );
                let indirect = reflect.mix(&self.shader_path_tracing(&rand_ray, depth - 1, rng));
                light_contrib.vadd(&indirect.scale_div(self.probability_rr))
            },
            None => {
                let with_env = self.run_hdri_pass(total_emission);
                with_env.scale_div(self.probability_rr)
            },
        }
    }
}

/// Dividing the black color by any scalar leaves it black.
proof fn lemma_zero_div(p: int)
    ensures
        v_scale_div(mk(0, 0, 0), p) == mk(0, 0, 0),
{
    crate::fixed::lemma_s_div_zero(p);
}

/// Mixing any color with black gives black.
proof fn lemma_mix_zero(a: Vec3)
    ensures
        v_mix(a, mk(0, 0, 0)) == mk(0, 0, 0),
{
    crate::fixed::lemma_s_mul_zero(a.x as int);
    crate::fixed::lemma_s_mul_zero(a.y as int);
    crate::fixed::lemma_s_mul_zero(a.z as int);
}

/// With no lights at all, every trace returns black: there is no sun
/// pass to gather, no environment to fall back on, and each surviving
/// bounce only modulates the black that the recursion brings home.
pub proof fn lemma_no_light_black(
    world: Seq<Primitive>,
    max_depth: u32,
    p: int,
    ray: Ray,
    depth: int,
    state: u64,
)
    ensures
        spec_trace(world, Seq::<Light>::empty(), max_depth, p, ray, depth, state) == mk(0, 0, 0),
    decreases depth,
{
    let zero = mk(0, 0, 0);
    lemma_zero_div(p);
    if depth > 0 {
        match list_hit(world, ray, RAY_EPS as int, SAT as int) {
            Some(record) => {
                let draw = lcg_unit(state);
                let s1 = lcg_next(state);
                if !(draw > p) {
                    let wi = hemisphere_dir(record.normal, lcg_unit(s1), lcg_unit(lcg_next(s1)));
                    let s3 = lcg_next(lcg_next(s1));
                    let wo = v_scale(ray.direction, -(SCALE as int));
                    lemma_no_light_black(
                        world,
                        max_depth,
                        p,
                        Ray { origin: record.point, direction: wi },
                        depth - 1,
                        s3,
                    );
                    lemma_mix_zero(
                        brdf(
                            s_sub(SCALE as int, record.reflectivity as int),
                            record.reflectivity as int,
                            record.roughness as int,
                            wo,
                            wi,
                            record.normal,
                            record.color,
                        ),
                    );
                    assert(v_add(zero, v_scale_div(zero, p)) == zero);
                }
            },
            None => {},
        }
    }
}

/// The arithmetic behind Russian-roulette compensation: a contribution
/// `x` that survives with probability `p / SCALE` and is inflated to
/// `x / p` has expectation `(p / SCALE) * (x / p) == x / SCALE`. In
/// integers: `p * (x / p)` brackets `x * SCALE` to within one multiple
/// of `p`, so the inflation restores the stochastically discarded mass
/// up to one quantum of the quotient's truncation. The bound on `x`
/// keeps the inflated value clear of saturation.
pub proof fn lemma_roulette_compensation(x: int, p: int)
    requires
        0 < p <= SCALE as int,
        0 <= x,
        x * (SCALE as int) <= (SAT as int) * p,
    ensures
        p * s_div(x, p) <= x * (SCALE as int) < p * (s_div(x, p) + 1),
{
    let wide = x * (SCALE as int);
    let q = wide / p;
    vstd::arithmetic::div_mod::lemma_div_pos_is_pos(wide, p);
    vstd::arithmetic::div_mod::lemma_div_is_ordered(wide, (SAT as int) * p, p);
    vstd::arithmetic::div_mod::lemma_div_multiples_vanish(SAT as int, p);
    assert((SAT as int) * p == p * (SAT as int));
    assert(q <= SAT as int);
    assert(s_div(x, p) == q);
    vstd::arithmetic::div_mod::lemma_fundamental_div_mod(wide, p);
    assert(p * (q + 1) == p * q + p) by (nonlinear_arith);
}

/// The weighted sun pass with no compensation at all, for the reference
/// integrator below.
pub open spec fn sun_emission_weighted_plain(
    world: Seq<Primitive>,
    lights: Seq<Light>,
    ray: Ray,
    wo: Vec3,
    wi: Vec3,
    rec: HitRecord,
) -> Hdr
    decreases lights.len(),
{
    if lights.len() == 0 {
        mk(0, 0, 0)
    } else {
        let rest = sun_emission_weighted_plain(world, lights.drop_last(), ray, wo, wi, rec);
        match lights.last() {
            Light::SunLight(sun) => {
                let check = Ray {
                    origin: ray.origin,
                    direction: v_scale(sun.direction, -(SCALE as int)),
                };
                if list_hit(world, check, RAY_EPS as int, SAT as int) is None {
                    v_add(
                        rest,
                        v_mix(
                            v_scale(sun.color, sun.intensity as int),
                            brdf(
                                s_sub(SCALE as int, rec.reflectivity as int),
                                rec.reflectivity as int,
                                rec.roughness as int,
                                wo,
                                wi,
                                rec.normal,
                                rec.color,
                            ),
                        ),
                    )
                } else {
                    rest
                }
            },
            _ => rest,
        }
    }
}

/// The reference integrator of the unbiasedness argument: the same light
/// transport with Russian roulette removed — no termination draw is
/// inspected, and nothing is inflated by a continuation probability. The
/// generator still advances past the unused draw, exactly as the real
/// integrator advances it whatever the probability.
pub open spec fn spec_trace_no_roulette(
    world: Seq<Primitive>,
    lights: Seq<Light>,
    max_depth: u32,
    ray: Ray,
    depth: int,
    state: u64,
) -> Hdr
    decreases depth,
{
    let direct = if depth < max_depth as int {
        sun_emission(world, lights, ray.origin)
    } else {
        mk(0, 0, 0)
    };
    if depth <= 0 {
        direct
    } else {
        match list_hit(world, ray, RAY_EPS as int, SAT as int) {
            Some(record) => {
                let s1 = lcg_next(state);
                let wi = hemisphere_dir(record.normal, lcg_unit(s1), lcg_unit(lcg_next(s1)));
                let s3 = lcg_next(lcg_next(s1));
                let wo = v_scale(ray.direction, -(SCALE as int));
                let light_contrib = sun_emission_weighted_plain(world, lights, ray, wo, wi, record);
                let indirect = v_mix(
                    brdf(
                        s_sub(SCALE as int, record.reflectivity as int),
                        record.reflectivity as int,
                        record.roughness as int,
                        wo,
                        wi,
                        record.normal,
                        record.color,
                    ),
                    spec_trace_no_roulette(
                        world,
                        lights,
                        max_depth,
                        Ray { origin: record.point, direction: wi },
                        depth - 1,
                        s3,
                    ),
                );
                v_add(light_contrib, indirect)
            },
            None => hdri_emission(lights, direct),
        }
    }
}

/// The sun pass always lands in the representable range.
proof fn lemma_sun_emission_in_range(world: Seq<Primitive>, lights: Seq<Light>, origin: Vec3)
    ensures
        v_in_range(sun_emission(world, lights, origin)),
    decreases lights.len(),
{
    if lights.len() > 0 {
        lemma_sun_emission_in_range(world, lights.drop_last(), origin);
        let rest = sun_emission(world, lights.drop_last(), origin);
        match lights.last() {
            Light::SunLight(sun) => {
                lemma_v_add_in_range(rest, v_scale(sun.color, sun.intensity as int));
            },
            _ => {},
        }
    }
}

/// The environment pass keeps an in-range base in range.
proof fn lemma_hdri_emission_in_range(lights: Seq<Light>, base: Hdr)
    requires
        v_in_range(base),
    ensures
        v_in_range(hdri_emission(lights, base)),
    decreases lights.len(),
{
    if lights.len() > 0 {
        lemma_hdri_emission_in_range(lights.drop_last(), base);
        let rest = hdri_emission(lights.drop_last(), base);
        match lights.last() {
            Light::HDRILight(h) => {
                lemma_v_add_in_range(rest, v_scale(h.color, h.intensity as int));
            },
            _ => {},
        }
    }
}

/// With probability one, each visible sun's compensated contribution is
/// the plain one.
proof fn lemma_weighted_sun_probability_one(
    world: Seq<Primitive>,
    lights: Seq<Light>,
    ray: Ray,
    wo: Vec3,
    wi: Vec3,
    rec: HitRecord,
)
    ensures
        sun_emission_weighted(world, lights, ray, wo, wi, rec, SCALE as int)
            == sun_emission_weighted_plain(world, lights, ray, wo, wi, rec),
    decreases lights.len(),
{
    if lights.len() > 0 {
        lemma_weighted_sun_probability_one(world, lights.drop_last(), ray, wo, wi, rec);
        match lights.last() {
            Light::SunLight(sun) => {
                let weighted = v_mix(
                    v_scale(sun.color, sun.intensity as int),
                    brdf(
                        s_sub(SCALE as int, rec.reflectivity as int),
                        rec.reflectivity as int,
                        rec.roughness as int,
                        wo,
                        wi,
                        rec.normal,
                        rec.color,
                    ),
                );
                lemma_v_mix_in_range(
                    v_scale(sun.color, sun.intensity as int),
                    brdf(
                        s_sub(SCALE as int, rec.reflectivity as int),
                        rec.reflectivity as int,
                        rec.roughness as int,
                        wo,
                        wi,
                        rec.normal,
                        rec.color,
                    ),
                );
                crate::maths::lemma_v_div_one(weighted);
            },
            _ => {},
        }
    }
}

/// With continuation probability one the path tracer is the reference
/// integrator: every unit-interval draw falls below one, so no path is
/// terminated early, and each compensation divides by one. Together with
/// `lemma_roulette_compensation` this is the deterministic half of the
/// Russian-roulette unbiasedness argument; the averaged half quantifies
/// over the generator's distribution and lies outside this logic.
pub proof fn lemma_probability_one_is_reference(
    world: Seq<Primitive>,
    lights: Seq<Light>,
    max_depth: u32,
    ray: Ray,
    depth: int,
    state: u64,
)
    ensures
        spec_trace(world, lights, max_depth, SCALE as int, ray, depth, state)
            == spec_trace_no_roulette(world, lights, max_depth, ray, depth, state),
    decreases depth,
{
    let direct = if depth < max_depth as int {
        sun_emission(world, lights, ray.origin)
    } else {
        mk(0, 0, 0)
    };
    lemma_sun_emission_in_range(world, lights, ray.origin);
    crate::maths::lemma_v_div_one(direct);
    if depth > 0 {
        match list_hit(world, ray, RAY_EPS as int, SAT as int) {
            Some(record) => {
                let draw = lcg_unit(state);
                assert(0 <= draw < SCALE as int);
                let s1 = lcg_next(state);
                let wi = hemisphere_dir(record.normal, lcg_unit(s1), lcg_unit(lcg_next(s1)));
                let s3 = lcg_next(lcg_next(s1));
                let wo = v_scale(ray.direction, -(SCALE as int));
                lemma_weighted_sun_probability_one(world, lights, ray, wo, wi, record);
                lemma_probability_one_is_reference(
                    world,
                    lights,
                    max_depth,
                    Ray { origin: record.point, direction: wi },
                    depth - 1,
                    s3,
                );
                let indirect = v_mix(
                    brdf(
                        s_sub(SCALE as int, record.reflectivity as int),
                        record.reflectivity as int,
                        record.roughness as int,
                        wo,
                        wi,
                        record.normal,
                        record.color,
                    ),
                    spec_trace_no_roulette(
                        world,
                        lights,
                        max_depth,
                        Ray { origin: record.point, direction: wi },
                        depth - 1,
                        s3,
                    ),
                );
                lemma_v_mix_in_range(
                    brdf(
                        s_sub(SCALE as int, record.reflectivity as int),
                        record.reflectivity as int,
                        record.roughness as int,
                        wo,
                        wi,
                        record.normal,
                        record.color,
                    ),
                    spec_trace_no_roulette(
                        world,
                        lights,
                        max_depth,
                        Ray { origin: record.point, direction: wi },
                        depth - 1,
                        s3,
                    ),
                );
                crate::maths::lemma_v_div_one(indirect);
            },
            None => {
                lemma_hdri_emission_in_range(lights, direct);
                crate::maths::lemma_v_div_one(hdri_emission(lights, direct));
            },
        }
    }
}

/// A shading strategy evaluated from one intersection record.
pub trait Shader {
    fn get_color_from_record(&self, record: HitRecord) -> Color;
}

pub struct BlinnPhong {}

pub struct PathTracing {}

pub struct Phong {}

impl Phong {
    pub fn new() -> (r: Self) {
        Self {  }
    }
}

impl Shader for Phong {
    /// The placeholder shade: flat white.
    fn get_color_from_record(&self, record: HitRecord) -> Color {
        let _ = record;
        Vec3::new(SCALE, SCALE, SCALE)
    }
}

pub struct WhittedStyleRayTracing {}

} // verus!
