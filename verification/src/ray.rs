//! A ray: an origin and a direction, with parametrized point evaluation.

use vstd::prelude::*;

use crate::maths::{v_add, v_scale, Point3, Vec3};

verus! {

#[derive(Clone, Copy, Debug, PartialEq, Eq, Structural)]
pub struct Ray {
    pub origin: Vec3,
    pub direction: Vec3,
}

/// The point `origin + t * direction` on the ray.
pub open spec fn ray_at(ray: Ray, t: int) -> Vec3 {
    v_add(ray.origin, v_scale(ray.direction, t))
}

impl Ray {
    pub fn new(origin: Point3, direction: Vec3) -> (r: Self)
        ensures
            r == (Ray { origin, direction }),
    {
        Ray { origin, direction }
    }

    pub fn at(&self, t: i64) -> (r: Point3)
        ensures
            r == ray_at(*self, t as int),
    {
        self.origin.vadd(&self.direction.scale(t))
    }
}

} // verus!
