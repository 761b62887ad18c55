//! An offline path-tracing renderer core: fixed-point vector algebra,
//! closed-form ray/primitive intersection, a Cook-Torrance BRDF, and a
//! recursive Monte-Carlo integrator with next-event light sampling and
//! Russian-roulette termination.
//!
//! All radiometric and geometric quantities are fixed-point numbers: an
//! `i64` counts millionths of a unit (see [`fixed`]). Every arithmetic
//! operation saturates at a large bound instead of overflowing, so every
//! function of the crate is total and panic-free.

pub mod bsdf;
pub mod const_vars;
pub mod fixed;
pub mod hit;
pub mod light;
pub mod maths;
pub mod objects;
pub mod renderer;
pub mod ray;
pub mod sampler;
pub mod shaders;
