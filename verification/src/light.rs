//! The light set: a closed sum of light variants in an insertion-ordered
//! collection, read-only during rendering.

use vstd::prelude::*;

use crate::maths::{v_norm, v_scale, Color, Hdr, Point3, Vec3};

verus! {

/// One light of the scene.
#[derive(Clone, Copy, Debug, PartialEq, Eq, Structural)]
pub enum Light {
    HDRILight(HDRILight),
    SunLight(SunLight),
    PointLight(PointLight),
    SpotLight(SpotLight),
    AreaLight(AreaLight),
}

/// The insertion-ordered collection of lights.
pub struct LightGroup {
    pub lights: Vec<Light>,
}

impl LightGroup {
    pub fn new() -> (r: Self)
        ensures
            r.lights@ =~= Seq::<Light>::empty(),
    {
        Self { lights: Vec::new() }
    }

    pub fn add(&mut self, light: Light)
        ensures
            final(self).lights@ =~= old(self).lights@.push(light),
    {
        self.lights.push(light);
    }

    pub fn clear(&mut self)
        ensures
            final(self).lights@ =~= Seq::<Light>::empty(),
    {
        self.lights.clear();
    }
}

/// A constant-radiance environment, a stand-in for an image-based map.
#[derive(Clone, Copy, Debug, PartialEq, Eq, Structural)]
pub struct HDRILight {
    pub color: Color,
    pub intensity: i64,
}

impl HDRILight {
    pub fn new(color: Color, intensity: i64) -> (r: Self)
        ensures
            r == (HDRILight { color, intensity }),
    {
        Self { color, intensity }
    }

    /// The environment radiance: the same `color * intensity` for every
    /// direction (the direction parameter is kept for the day the
    /// constant environment becomes an image).
    pub fn get_hdr_value(&self, dir: Vec3) -> (r: Hdr)
        ensures
            r == v_scale(self.color, self.intensity as int),
    {
        let _ = dir;
        self.color.scale(self.intensity)
    }
}

/// A directional light; `direction` is normalized at construction.
#[derive(Clone, Copy, Debug, PartialEq, Eq, Structural)]
pub struct SunLight {
    pub direction: Vec3,
    pub intensity: i64,
    pub color: Color,
}

impl SunLight {
    pub fn new(direction: Vec3, intensity: i64, color: Color) -> (r: Self)
        ensures
            r == (SunLight { direction: v_norm(direction), intensity, color }),
    {
        let direction = direction.normalize();
        Self { direction, intensity, color }
    }
}

#[derive(Clone, Copy, Debug, PartialEq, Eq, Structural)]
pub struct PointLight {
    pub origin: Point3,
    pub size: i64,
    pub intensity: i64,
    pub color: Color,
}

impl PointLight {
    pub fn new(origin: Point3, size: i64, intensity: i64, color: Color) -> (r: Self)
        ensures
            r == (PointLight { origin, size, intensity, color }),
    {
        Self { origin, size, intensity, color }
    }
}

/// A spot light; `direction` is normalized at construction.
#[derive(Clone, Copy, Debug, PartialEq, Eq, Structural)]
pub struct SpotLight {
    pub origin: Point3,
    pub size: i64,
    pub direction: Vec3,
    pub focal_length: i64,
    pub intensity: i64,
    pub color: Color,
}

impl SpotLight {
    pub fn new(
        origin: Point3,
        size: i64,
        direction: Vec3,
        focal_length: i64,
        intensity: i64,
        color: Color,
    ) -> (r: Self)
        ensures
            r == (SpotLight {
                origin,
                size,
                direction: v_norm(direction),
                focal_length,
                intensity,
                color,
            }),
    {
        let direction = direction.normalize();
        Self { origin, size, direction, focal_length, intensity, color }
    }
}

/// A finite emissive quad.
#[derive(Clone, Copy, Debug, PartialEq, Eq, Structural)]
pub struct AreaLight {
    pub origin: Point3,
    pub edge_x: Vec3,
    pub edge_y: Vec3,
    pub intensity: i64,
    pub color: Color,
}

impl AreaLight {
    pub fn new(origin: Point3, edge_x: Vec3, edge_y: Vec3, intensity: i64, color: Color) -> (r:
        Self)
        ensures
            r == (AreaLight { origin, edge_x, edge_y, intensity, color }),
    {
        Self { origin, edge_x, edge_y, intensity, color }
    }

    pub fn vertices(&self) -> (r: [Vec3; 4])
        ensures
            r@ =~= seq![
                self.origin,
                crate::maths::v_add(self.origin, self.edge_x),
                crate::maths::v_add(crate::maths::v_add(self.origin, self.edge_x), self.edge_y),
                crate::maths::v_add(self.origin, self.edge_y),
            ],
    {
        [
            self.origin,
            self.origin.vadd(&self.edge_x),
            self.origin.vadd(&self.edge_x).vadd(&self.edge_y),
            self.origin.vadd(&self.edge_y),
        ]
    }
}

} // verus!
