//! Rendering constants chosen once per session.

use vstd::prelude::*;

verus! {

/// Per-session rendering constants: how many samples each pixel gets,
/// how deep the integrator may recurse, and whether to report timing.
#[derive(Clone, Copy, Debug, PartialEq, Eq, Structural)]
pub struct ConstContext {
    pub samples_per_pixel: u32,
    pub max_depth: u32,
    pub output: bool,
}

} // verus!
