use pathtracer::bsdf::BSDF;
use pathtracer::const_vars::ConstContext;
use pathtracer::fixed::{fx_add, fx_div, fx_mul, fx_sqrt, fx_sub, SAT, SCALE};
use pathtracer::hit::{Front, HittableList};
use pathtracer::light::{HDRILight, Light, LightGroup, SunLight};
use pathtracer::maths::Vec3;
use pathtracer::objects::{Plane, Primitive, Sphere};
use pathtracer::ray::Ray;
use pathtracer::renderer::{ConfigError, Renderer};
use pathtracer::sampler::Lcg64;
use pathtracer::shaders::ShaderType;

#[test]
fn normalize_test() {}

fn unit(v: f64) -> i64 {
    (v * SCALE as f64).round() as i64
}

fn white() -> Vec3 {
    Vec3::new(SCALE, SCALE, SCALE)
}

fn gray_sphere(center: Vec3, radius: i64) -> Sphere {
    Sphere::new(center, radius, white(), unit(0.5), unit(0.5))
}

fn default_ctx(max_depth: u32) -> ConstContext {
    ConstContext { samples_per_pixel: 1, max_depth, output: false }
}

#[test]
fn fixed_point_arithmetic_exact() {
    assert_eq!(fx_add(unit(1.5), unit(0.25)), unit(1.75));
    assert_eq!(fx_sub(unit(1.0), unit(2.5)), unit(-1.5));
    assert_eq!(fx_mul(unit(1.5), unit(2.0)), unit(3.0));
    assert_eq!(fx_div(unit(3.0), unit(2.0)), unit(1.5));
    assert_eq!(fx_sqrt(unit(4.0)), unit(2.0));
    assert_eq!(fx_sqrt(unit(2.25)), unit(1.5));
}

#[test]
fn fixed_point_saturates_instead_of_overflowing() {
    assert_eq!(fx_mul(SAT, SAT), SAT);
    assert_eq!(fx_mul(-SAT, SAT), -SAT);
    assert_eq!(fx_add(SAT, SAT), SAT);
    // division by zero clamps with the sign of the dividend
    assert_eq!(fx_div(unit(1.0), 0), SAT);
    assert_eq!(fx_div(unit(-1.0), 0), -SAT);
    assert_eq!(fx_div(0, 0), 0);
}

#[test]
fn vector_algebra_exact() {
    let a = Vec3::new(unit(1.0), unit(2.0), unit(3.0));
    let b = Vec3::new(unit(-1.0), unit(0.5), unit(2.0));
    assert_eq!(a.vadd(&b), Vec3::new(0, unit(2.5), unit(5.0)));
    assert_eq!(a.vsub(&b), Vec3::new(unit(2.0), unit(1.5), unit(1.0)));
    assert_eq!(a.dot(&b), unit(6.0));
    assert_eq!(a.scale(unit(2.0)), Vec3::new(unit(2.0), unit(4.0), unit(6.0)));
    assert_eq!(a.scale_div(unit(2.0)), Vec3::new(unit(0.5), unit(1.0), unit(1.5)));
    let x = Vec3::new(SCALE, 0, 0);
    let y = Vec3::new(0, SCALE, 0);
    assert_eq!(x.cross(&y), Vec3::new(0, 0, SCALE));
    assert_eq!(y.cross(&x), Vec3::new(0, 0, -SCALE));
    assert_eq!(a.mix(&b), Vec3::new(unit(-1.0), unit(1.0), unit(6.0)));
}

#[test]
fn normalize_three_four_five() {
    let v = Vec3::new(0, unit(3.0), unit(4.0));
    assert_eq!(v.length_squared(), unit(25.0));
    assert_eq!(v.length(), unit(5.0));
    assert_eq!(v.normalize(), Vec3::new(0, unit(0.6), unit(0.8)));
}

#[test]
fn normalize_zero_vector_stays_zero() {
    assert_eq!(Vec3::origin().normalize(), Vec3::origin());
}

#[test]
fn ray_at_evaluates_parametrized_point() {
    let ray = Ray::new(Vec3::new(unit(1.0), 0, 0), Vec3::new(0, 0, unit(2.0)));
    assert_eq!(ray.at(unit(1.5)), Vec3::new(unit(1.0), 0, unit(3.0)));
}

// A sphere of radius r at the origin, a ray from (0, 0, -2r) toward +z:
// the near face is hit at t = r with the outward normal (0, 0, -1).
#[test]
fn sphere_near_face_hit() {
    let r = unit(1.0);
    let sphere = gray_sphere(Vec3::origin(), r);
    let ray = Ray::new(Vec3::new(0, 0, -2 * r), Vec3::new(0, 0, SCALE));
    let rec = sphere.get_hit_record(&ray, 0, SAT).expect("front hit");
    assert_eq!(rec.t, r);
    assert_eq!(rec.normal, Vec3::new(0, 0, -SCALE));
    assert_eq!(rec.point, Vec3::new(0, 0, -r));
    assert!(matches!(rec.front_face, Front::Inward));
}

#[test]
fn sphere_behind_window_misses() {
    let sphere = gray_sphere(Vec3::origin(), unit(1.0));
    // window closes before the near face
    let ray = Ray::new(Vec3::new(0, 0, unit(-2.0)), Vec3::new(0, 0, SCALE));
    assert!(sphere.get_hit_record(&ray, 0, unit(0.5)).is_none());
    // sphere entirely behind the ray
    let away = Ray::new(Vec3::new(0, 0, unit(2.0)), Vec3::new(0, 0, SCALE));
    assert!(away.direction.dot(&Vec3::new(0, 0, SCALE)) > 0);
    assert!(sphere.get_hit_record(&away, 0, SAT).is_none());
}

// The sphere's normal is deliberately left unflipped: leaving from the
// center, the reported normal points along the ray, not against it.
#[test]
fn sphere_normal_is_not_flipped_from_inside() {
    let sphere = gray_sphere(Vec3::origin(), unit(1.0));
    let ray = Ray::new(Vec3::origin(), Vec3::new(0, 0, SCALE));
    let rec = sphere.get_hit_record(&ray, 0, SAT).expect("exit hit");
    assert_eq!(rec.t, unit(1.0));
    assert_eq!(rec.normal, Vec3::new(0, 0, SCALE));
    assert!(ray.direction.dot(&rec.normal) > 0);
    assert!(matches!(rec.front_face, Front::Outward));
}

fn unit_quad() -> Plane {
    // the square [-1, 1] x [-1, 1] in the z = 0 plane
    Plane::new(
        Vec3::new(unit(-1.0), unit(-1.0), 0),
        Vec3::new(unit(2.0), 0, 0),
        Vec3::new(0, unit(2.0), 0),
        white(),
        unit(0.5),
        unit(0.5),
    )
}

// A ray at the quad's centroid hits; one aimed at the infinite-plane
// extension outside the edges reports no hit.
#[test]
fn plane_quadrilateral_bound() {
    let plane = unit_quad();
    let down = Vec3::new(0, 0, -SCALE);
    let center_ray = Ray::new(Vec3::new(0, 0, unit(5.0)), down);
    let rec = plane.get_hit_record(&center_ray, 100, SAT).expect("centroid hit");
    assert_eq!(rec.t, unit(5.0));
    assert_eq!(rec.point, Vec3::origin());
    let outside_ray = Ray::new(Vec3::new(unit(3.0), 0, unit(5.0)), down);
    assert!(plane.get_hit_record(&outside_ray, 100, SAT).is_none());
}

// The plane flips its normal against the incoming ray, whichever side
// the ray arrives from.
#[test]
fn plane_normal_faces_incoming_ray() {
    let plane = unit_quad();
    let from_above = Ray::new(Vec3::new(0, 0, unit(5.0)), Vec3::new(0, 0, -SCALE));
    let rec = plane.get_hit_record(&from_above, 100, SAT).expect("top hit");
    assert!(from_above.direction.dot(&rec.normal) <= 0);
    assert_eq!(rec.normal, Vec3::new(0, 0, SCALE));
    let from_below = Ray::new(Vec3::new(0, 0, unit(-5.0)), Vec3::new(0, 0, SCALE));
    let rec2 = plane.get_hit_record(&from_below, 100, SAT).expect("bottom hit");
    assert!(from_below.direction.dot(&rec2.normal) <= 0);
    assert_eq!(rec2.normal, Vec3::new(0, 0, -SCALE));
}

#[test]
fn plane_parallel_ray_is_a_miss() {
    let plane = unit_quad();
    let sideways = Ray::new(Vec3::new(0, 0, unit(1.0)), Vec3::new(SCALE, 0, 0));
    assert!(plane.get_hit_record(&sideways, 100, SAT).is_none());
}

// Two overlapping spheres along one ray: the aggregate returns the
// smaller valid t, and it is the near sphere's own record.
#[test]
fn aggregate_returns_nearest_hit() {
    let near = gray_sphere(Vec3::origin(), unit(1.0));
    let far = gray_sphere(Vec3::new(0, 0, unit(0.5)), unit(1.0));
    let ray = Ray::new(Vec3::new(0, 0, unit(-3.0)), Vec3::new(0, 0, SCALE));

    let mut world = HittableList::new();
    // insertion order: far first, so nearest-t must win over order
    world.add(Primitive::Sphere(far));
    world.add(Primitive::Sphere(near));

    let rec = world.get_hit_record(&ray, 100, SAT).expect("hit");
    assert_eq!(rec.t, unit(2.0));
    let alone = near.get_hit_record(&ray, 100, SAT).expect("near alone");
    assert_eq!(rec, alone);

    let far_alone = far.get_hit_record(&ray, 100, SAT).expect("far alone");
    assert_eq!(far_alone.t, unit(2.5));
    assert!(rec.t <= far_alone.t);
}

#[test]
fn primitives_expose_their_material_attributes() {
    let sphere = Sphere::new(Vec3::origin(), unit(1.0), white(), unit(0.3), unit(0.7));
    assert_eq!(sphere.get_color(), white());
    assert_eq!(sphere.get_roughness(), unit(0.3));
    assert_eq!(sphere.get_reflectivity(), unit(0.7));
    let prim = Primitive::Plane(unit_quad());
    assert_eq!(prim.get_color(), white());
    assert_eq!(prim.get_roughness(), unit(0.5));
    assert_eq!(prim.get_reflectivity(), unit(0.5));
}

#[test]
fn aggregate_empty_and_cleared_scene_misses() {
    let mut world = HittableList::new();
    let ray = Ray::new(Vec3::new(0, 0, unit(-3.0)), Vec3::new(0, 0, SCALE));
    assert!(world.get_hit_record(&ray, 100, SAT).is_none());
    world.add(Primitive::Sphere(gray_sphere(Vec3::origin(), unit(1.0))));
    assert!(world.get_hit_record(&ray, 100, SAT).is_some());
    world.clear();
    assert!(world.get_hit_record(&ray, 100, SAT).is_none());
}

#[test]
fn gamma_with_exponent_one_is_identity_on_clamped_channels() {
    let c = Vec3::new(unit(0.3), unit(1.5), unit(-0.2));
    assert_eq!(c.gamma_correction(1, 1), Vec3::new(unit(0.3), SCALE, 0));
    let in_range = Vec3::new(unit(0.1), unit(0.5), unit(0.9));
    assert_eq!(in_range.gamma_correction(1, 1), in_range);
}

#[test]
fn gamma_square_root_exact() {
    // gamma = 2/1 takes each channel to its square root
    let c = Vec3::new(unit(0.25), unit(0.81), SCALE);
    assert_eq!(c.gamma_correction(2, 1), Vec3::new(unit(0.5), unit(0.9), SCALE));
}

#[test]
fn gamma_is_monotone_in_the_channel() {
    let mut prev = -1i64;
    let mut c = 0i64;
    while c <= SCALE {
        let g = Vec3::new(c, c, c).gamma_correction(11, 5);
        assert!(g.x >= prev);
        prev = g.x;
        c += 37_777;
    }
}

#[test]
fn brdf_black_surface_reflects_nothing() {
    let n = Vec3::new(0, 0, SCALE);
    let wo = Vec3::new(0, 0, SCALE);
    let wi = Vec3::new(0, unit(0.6), unit(0.8));
    let black = Vec3::origin();
    let r = BSDF::cook_torrance_brdf(unit(0.5), unit(0.5), unit(0.5), wo, wi, n, black);
    assert_eq!(r, Vec3::origin());
}

#[test]
fn brdf_scales_with_incident_cosine() {
    let n = Vec3::new(0, 0, SCALE);
    let wo = Vec3::new(0, 0, SCALE);
    let grazing = Vec3::new(SCALE, 0, 0);
    // n . wi == 0: the cosine clamp zeroes the whole contribution
    let r = BSDF::cook_torrance_brdf(unit(0.5), unit(0.5), unit(0.5), wo, grazing, n, white());
    assert_eq!(r, Vec3::origin());
}

// All directions aligned with the normal, kd = f0 = roughness = 0.5:
// diffuse = 0.5/pi = 0.159154..; D = 0.25/(pi * 0.0625) = 1.273242..;
// G = 1; F = 0.5; specular = D*G*F/4 = 0.159155..; the white surface
// returns diffuse + specular in every channel, truncated to quanta.
#[test]
fn brdf_aligned_directions_exact_value() {
    let n = Vec3::new(0, 0, SCALE);
    let r = BSDF::cook_torrance_brdf(unit(0.5), unit(0.5), unit(0.5), n, n, n, white());
    assert_eq!(r, Vec3::new(318_309, 318_309, 318_309));
}

#[test]
fn renderer_rejects_invalid_configuration() {
    let make = |p: i64, num: u32, den: u32| {
        Renderer::new(
            HittableList::new(),
            LightGroup::new(),
            default_ctx(2),
            ShaderType::PathTracing,
            p,
            num,
            den,
        )
    };
    assert!(matches!(make(0, 11, 5), Err(ConfigError::InvalidProbability)));
    assert!(matches!(make(-5, 11, 5), Err(ConfigError::InvalidProbability)));
    assert!(matches!(make(SCALE + 1, 11, 5), Err(ConfigError::InvalidProbability)));
    assert!(matches!(make(unit(0.8), 0, 5), Err(ConfigError::InvalidGamma)));
    assert!(matches!(make(unit(0.8), 11, 0), Err(ConfigError::InvalidGamma)));
    assert!(make(unit(0.8), 11, 5).is_ok());
}

fn hit_ray() -> Ray {
    Ray::new(Vec3::new(0, 0, unit(-3.0)), Vec3::new(0, 0, SCALE))
}

// A scene with an empty light set produces zero radiance on every path,
// hits and misses alike.
#[test]
fn no_light_scene_is_black() {
    let mut world = HittableList::new();
    world.add(Primitive::Sphere(gray_sphere(Vec3::origin(), unit(1.0))));
    let renderer = Renderer::new(
        world,
        LightGroup::new(),
        default_ctx(4),
        ShaderType::PathTracing,
        unit(0.8),
        11,
        5,
    )
    .expect("valid configuration");
    for seed in [1u64, 42, 1234567, 987654321] {
        let mut rng = Lcg64::new(seed);
        assert_eq!(renderer.shader_path_tracing(&hit_ray(), 4, &mut rng), Vec3::origin());
        let mut rng2 = Lcg64::new(seed);
        let miss = Ray::new(Vec3::new(0, unit(5.0), unit(-3.0)), Vec3::new(0, 0, SCALE));
        assert_eq!(renderer.shader_path_tracing(&miss, 4, &mut rng2), Vec3::origin());
    }
}

// A missing ray gathers the environment value, inflated by the
// Russian-roulette compensation 1/p.
#[test]
fn miss_gathers_environment_scaled_by_roulette_compensation() {
    let mut lights = LightGroup::new();
    lights.add(Light::HDRILight(HDRILight::new(white(), unit(1.0))));
    let renderer = Renderer::new(
        HittableList::new(),
        lights,
        default_ctx(2),
        ShaderType::PathTracing,
        unit(0.8),
        11,
        5,
    )
    .expect("valid configuration");
    let mut rng = Lcg64::new(7);
    let out = renderer.shader_path_tracing(&hit_ray(), 2, &mut rng);
    assert_eq!(out, Vec3::new(unit(1.25), unit(1.25), unit(1.25)));
}

// With continuation probability one the compensation divides by one and
// the same miss returns the plain environment value.
#[test]
fn roulette_with_probability_one_changes_nothing() {
    let mut lights = LightGroup::new();
    lights.add(Light::HDRILight(HDRILight::new(white(), unit(1.0))));
    let renderer = Renderer::new(
        HittableList::new(),
        lights,
        default_ctx(2),
        ShaderType::PathTracing,
        SCALE,
        11,
        5,
    )
    .expect("valid configuration");
    let mut rng = Lcg64::new(7);
    let out = renderer.shader_path_tracing(&hit_ray(), 2, &mut rng);
    assert_eq!(out, white());
}

// The direct sun pass: skipped on the primary call, gathered on deeper
// ones, and blocked by an occluder in the sun's direction.
#[test]
fn sun_pass_depth_guard_and_shadowing() {
    let sun_dir = Vec3::new(0, -SCALE, 0);
    let mut lights = LightGroup::new();
    lights.add(Light::SunLight(SunLight::new(sun_dir, unit(2.0), white())));

    let open_sky = Renderer::new(
        HittableList::new(),
        lights,
        default_ctx(3),
        ShaderType::PathTracing,
        SCALE,
        11,
        5,
    )
    .expect("valid configuration");
    let ray = hit_ray();
    let mut rng = Lcg64::new(7);
    // primary call: depth == max_depth skips the direct pass; nothing is
    // hit and there is no environment light
    assert_eq!(open_sky.shader_path_tracing(&ray, 3, &mut rng), Vec3::origin());
    // a deeper call gathers the sun
    let mut rng2 = Lcg64::new(7);
    let lit = open_sky.shader_path_tracing(&ray, 0, &mut rng2);
    assert_eq!(lit, Vec3::new(unit(2.0), unit(2.0), unit(2.0)));

    // the same scene with a blocker toward the sun is dark again
    let mut lights2 = LightGroup::new();
    lights2.add(Light::SunLight(SunLight::new(sun_dir, unit(2.0), white())));
    let mut world = HittableList::new();
    // shadow rays leave from the ray origin toward -sun_dir == +y
    world.add(Primitive::Sphere(gray_sphere(Vec3::new(0, unit(5.0), unit(-3.0)), unit(1.0))));
    let shadowed = Renderer::new(
        world,
        lights2,
        default_ctx(3),
        ShaderType::PathTracing,
        SCALE,
        11,
        5,
    )
    .expect("valid configuration");
    let mut rng3 = Lcg64::new(7);
    assert_eq!(shadowed.shader_path_tracing(&ray, 0, &mut rng3), Vec3::origin());
}

// The integrator derives the diffuse coefficient from the material as
// kd = 1 - reflectivity. The material here has roughness 0.5 but
// reflectivity 0.25, so kd must be 0.75: the expectation below, built
// with an explicit 1 - reflectivity, breaks if roughness were handed in
// as the diffuse coefficient.
#[test]
fn weighted_sun_pass_uses_derived_diffuse_coefficient() {
    let roughness = unit(0.5);
    let reflectivity = unit(0.25);
    let sphere = Sphere::new(Vec3::origin(), unit(1.0), white(), roughness, reflectivity);
    let mut world = HittableList::new();
    world.add(Primitive::Sphere(sphere));

    // sun shining along -y: its shadow rays (+y) miss the sphere both
    // from the camera ray's origin and from the hit point
    let mut lights = LightGroup::new();
    lights.add(Light::SunLight(SunLight::new(Vec3::new(0, -SCALE, 0), unit(1.5), white())));

    let renderer = Renderer::new(
        world,
        lights,
        default_ctx(1),
        ShaderType::PathTracing,
        SCALE,
        1,
        1,
    )
    .expect("valid configuration");

    let ray = hit_ray();
    let seed = 4242u64;
    let mut rng = Lcg64::new(seed);
    let got = renderer.shader_path_tracing(&ray, 1, &mut rng);

    // replay the integrator's draws: one roulette draw, then the
    // hemisphere sample, to rebuild the reflectance it evaluated
    let mut probe = Lcg64::new(seed);
    let _roulette = probe.next_unit();
    let rec = sphere.get_hit_record(&ray, 100, SAT).expect("hit");
    let wi = Vec3::rand_hemisphere_dir(rec.normal, &mut probe);
    let wo = ray.direction.scale(-SCALE);
    let kd = fx_sub(SCALE, rec.reflectivity);
    let reflect =
        BSDF::cook_torrance_brdf(kd, rec.reflectivity, rec.roughness, wo, wi, rec.normal, rec.color);

    // depth 1 of max_depth 1: no direct pass at the top; the surviving
    // bounce adds sun (x) brdf, and the depth-0 recursion returns the sun
    // seen from the hit point, modulated by the same reflectance
    let sun_value = white().scale(unit(1.5));
    let expected = sun_value.mix(&reflect).vadd(&reflect.mix(&sun_value));
    assert_eq!(got, expected);
    // the sampled bounce carries light for this seed, so the equality
    // above really exercises the reflectance
    assert!(got != Vec3::origin());
}

#[test]
fn trace_is_reproducible_for_a_seed() {
    let mut lights = LightGroup::new();
    lights.add(Light::HDRILight(HDRILight::new(white(), unit(0.5))));
    let mut world = HittableList::new();
    world.add(Primitive::Sphere(gray_sphere(Vec3::origin(), unit(1.0))));
    let renderer = Renderer::new(
        world,
        lights,
        default_ctx(4),
        ShaderType::PathTracing,
        unit(0.8),
        11,
        5,
    )
    .expect("valid configuration");
    let mut a = Lcg64::new(99);
    let mut b = Lcg64::new(99);
    let first = renderer.shader_path_tracing(&hit_ray(), 4, &mut a);
    let second = renderer.shader_path_tracing(&hit_ray(), 4, &mut b);
    assert_eq!(first, second);
    assert_eq!(a.state, b.state);
}

#[test]
fn hemisphere_direction_is_deterministic_and_unit_scale() {
    let normal = Vec3::new(0, 0, SCALE);
    let mut a = Lcg64::new(5);
    let mut b = Lcg64::new(5);
    let d1 = Vec3::rand_hemisphere_dir(normal, &mut a);
    let d2 = Vec3::rand_hemisphere_dir(normal, &mut b);
    assert_eq!(d1, d2);
    // normalized output: squared length is one up to fixed-point truncation
    let len2 = d1.length_squared();
    assert!((len2 - SCALE).abs() < 5_000, "len2 = {len2}");
}

#[test]
fn lcg_draws_are_in_the_unit_interval() {
    let mut rng = Lcg64::new(2024);
    for _ in 0..1000 {
        let u = rng.next_unit();
        assert!(0 <= u && u < SCALE);
    }
}

#[test]
fn entropy_seeding_yields_working_generators() {
    let mut a = Lcg64::from_entropy();
    let u = a.next_unit();
    assert!(0 <= u && u < SCALE);
}

#[test]
fn get_pixel_color_matches_shader_and_gamma() {
    let mut lights = LightGroup::new();
    lights.add(Light::HDRILight(HDRILight::new(white(), unit(1.0))));
    let renderer = Renderer::new(
        HittableList::new(),
        lights,
        default_ctx(2),
        ShaderType::PathTracing,
        SCALE,
        1,
        1,
    )
    .expect("valid configuration");
    let mut rng = Lcg64::new(3);
    // the miss returns exactly white; gamma one clamps it to white
    assert_eq!(renderer.get_pixel_color(&hit_ray(), &mut rng), white());

    let lead = Renderer::new(
        HittableList::new(),
        LightGroup::new(),
        default_ctx(2),
        ShaderType::LeadTest,
        SCALE,
        1,
        1,
    )
    .expect("valid configuration");
    let mut rng2 = Lcg64::new(3);
    assert_eq!(lead.get_pixel_color(&hit_ray(), &mut rng2), Vec3::origin());
}

#[test]
fn light_constructors_normalize_directions() {
    let sun = SunLight::new(Vec3::new(0, unit(3.0), unit(4.0)), unit(1.0), white());
    assert_eq!(sun.direction, Vec3::new(0, unit(0.6), unit(0.8)));
    let hdri = HDRILight::new(Vec3::new(unit(0.5), unit(0.5), unit(1.0)), unit(2.0));
    assert_eq!(
        hdri.get_hdr_value(Vec3::new(0, 0, SCALE)),
        Vec3::new(unit(1.0), unit(1.0), unit(2.0))
    );
}

#[test]
fn light_group_add_and_clear() {
    let mut group = LightGroup::new();
    assert_eq!(group.lights.len(), 0);
    group.add(Light::HDRILight(HDRILight::new(white(), unit(1.0))));
    group.add(Light::SunLight(SunLight::new(Vec3::new(0, -SCALE, 0), unit(1.0), white())));
    assert_eq!(group.lights.len(), 2);
    group.clear();
    assert_eq!(group.lights.len(), 0);
}

#[test]
fn plane_and_area_light_vertices() {
    let plane = unit_quad();
    let verts = plane.vertices();
    assert_eq!(verts[0], Vec3::new(unit(-1.0), unit(-1.0), 0));
    assert_eq!(verts[1], Vec3::new(unit(1.0), unit(-1.0), 0));
    assert_eq!(verts[2], Vec3::new(unit(1.0), unit(1.0), 0));
    assert_eq!(verts[3], Vec3::new(unit(-1.0), unit(1.0), 0));

    let area = pathtracer::light::AreaLight::new(
        Vec3::origin(),
        Vec3::new(unit(1.0), 0, 0),
        Vec3::new(0, unit(1.0), 0),
        unit(1.0),
        white(),
    );
    let avs = area.vertices();
    assert_eq!(avs[2], Vec3::new(unit(1.0), unit(1.0), 0));
}
