//! The render session: the scene, the lights, the shader choice and the
//! integrator's configuration, validated at construction.

use vstd::prelude::*;

use crate::const_vars::ConstContext;
use crate::fixed::SCALE;
use crate::hit::HittableList;
use crate::light::LightGroup;
use crate::maths::{mk, v_gamma, Color, Vec3};
use crate::ray::Ray;
use crate::sampler::Lcg64;
use crate::shaders::{spec_trace, ShaderType};

verus! {

/// A configuration error caught when the session is built, so that no
/// invalid value is discovered in the middle of a trace.
#[derive(Clone, Copy, Debug, PartialEq, Eq, Structural)]
pub enum ConfigError {
    /// The Russian-roulette continuation probability was not in `(0, 1]`.
    InvalidProbability,
    /// A gamma exponent fraction had a zero numerator or denominator.
    InvalidGamma,
}

/// The renderer: immutable scene data plus integrator policy. The camera
/// and the pixel loop live with the frame driver, which owns a session
/// and queries it one ray at a time.
pub struct Renderer {
    pub world: HittableList,
    pub light_group: LightGroup,
    pub ctx: ConstContext,
    pub shader_type: ShaderType,
    /// Russian-roulette continuation probability, in `(0, SCALE]`.
    pub probability_rr: i64,
    /// Gamma exponent as the fraction `gamma_num / gamma_den`.
    pub gamma_num: u32,
    pub gamma_den: u32,
}

impl Renderer {
    /// Build a session, rejecting invalid configuration: a continuation
    /// probability outside `(0, 1]` or a gamma fraction with a zero part.
    pub fn new(
        world: HittableList,
        light_group: LightGroup,
        ctx: ConstContext,
        shader_type: ShaderType,
        probability_rr: i64,
        gamma_num: u32,
        gamma_den: u32,
    ) -> (r: Result<Renderer, ConfigError>)
        ensures
            (probability_rr <= 0 || probability_rr > SCALE) ==> r == Err::<Renderer, ConfigError>(
                ConfigError::InvalidProbability,
            ),
            (0 < probability_rr <= SCALE && (gamma_num == 0 || gamma_den == 0)) ==> r
                == Err::<Renderer, ConfigError>(ConfigError::InvalidGamma),
            (0 < probability_rr <= SCALE && gamma_num > 0 && gamma_den > 0) ==> (r matches Ok(ren)
                && ren.world == world && ren.light_group == light_group && ren.ctx == ctx
                && ren.shader_type == shader_type && ren.probability_rr == probability_rr
                && ren.gamma_num == gamma_num && ren.gamma_den == gamma_den),
    {
        if probability_rr <= 0 || probability_rr > SCALE {
            return Err(ConfigError::InvalidProbability);
        }
        if gamma_num == 0 || gamma_den == 0 {
            return Err(ConfigError::InvalidGamma);
        }
        Ok(
            Renderer {
                world,
                light_group,
                ctx,
                shader_type,
                probability_rr,
                gamma_num,
                gamma_den,
            },
        )
    }

    /// One tone-mapped sample of a pixel: a full-depth path trace pushed
    /// through gamma correction. The lead-test shader is not
    /// implemented; it renders black.
    pub fn get_pixel_color(&self, ray: &Ray, rng: &mut Lcg64) -> (r: Color)
        requires
            self.gamma_num >= 1,
            self.gamma_den >= 1,
        ensures
            r == match self.shader_type {
                ShaderType::PathTracing => v_gamma(
                    spec_trace(
                        self.world.objects@,
                        self.light_group.lights@,
                        self.ctx.max_depth,
                        self.probability_rr as int,
                        *ray,
                        self.ctx.max_depth as i32 as int,
                        old(rng).state,
                    ),
                    self.gamma_num as nat,
                    self.gamma_den as nat,
                ),
                ShaderType::LeadTest => mk(0, 0, 0),
            },
    {
        match self.shader_type {
            ShaderType::PathTracing => {
                let traced = self.shader_path_tracing(ray, self.ctx.max_depth as i32, rng);
                traced.gamma_correction(self.gamma_num, self.gamma_den)
            },
            ShaderType::LeadTest => Vec3::origin(),
        }
    }
}

} // verus!
