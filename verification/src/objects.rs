//! Geometric primitives with closed-form ray intersection: a sphere and a
//! finite parallelogram ("plane"), plus the closed sum of the two that the
//! scene stores.

use vstd::prelude::*;

use crate::fixed::{
    fx_add, fx_div, fx_mul, fx_neg, fx_sqrt, fx_sub, s_add, s_div, s_mul, s_neg, s_sqrt, s_sub,
    SCALE,
};
use crate::hit::{Front, HitRecord};
use crate::maths::{
    v_add, v_cross, v_dot, v_in_range, v_len, v_len2, v_neg, v_norm, v_scale_div, v_sub, Color,
    Point3, Vec3,
};
use crate::ray::{ray_at, Ray};

verus! {

/// How far, in quanta, an edge cross product may stray from the plane
/// normal and still count as parallel to it.
pub const EDGE_TOLERANCE: i64 = 1000;

#[derive(Clone, Copy, Debug, PartialEq, Eq, Structural)]
pub struct Sphere {
    pub center: Point3,
    pub radius: i64,
    pub color: Color,
    pub roughness: i64,
    pub reflectivity: i64,
}

/// The record a sphere intersection at parameter `root` carries: the
/// outward normal `(point - center) / radius` is never flipped toward the
/// ray; `front_face` alone says which side was struck.
pub open spec fn sphere_record(s: Sphere, ray: Ray, root: int) -> HitRecord {
    let point = ray_at(ray, root);
    let outward = v_scale_div(v_sub(point, s.center), s.radius as int);
    HitRecord {
        point,
        normal: outward,
        front_face: if v_dot(ray.direction, outward) < 0 {
            Front::Inward
        } else {
            Front::Outward
        },
        t: root as i64,
        color: s.color,
        roughness: s.roughness,
        reflectivity: s.reflectivity,
    }
}

/// Solve `|O + tD - C|^2 = r^2`: no hit when the discriminant is
/// negative, otherwise the smaller root if it lies in `[t_min, t_max]`,
/// else the larger root, else no hit.
pub open spec fn sphere_hit(s: Sphere, ray: Ray, t_min: int, t_max: int) -> Option<HitRecord> {
    let oc = v_sub(ray.origin, s.center);
    let quad_a = v_len2(ray.direction);
    let half_b = v_dot(oc, ray.direction);
    let quad_c = s_sub(v_len2(oc), s_mul(s.radius as int, s.radius as int));
    let delta = s_sub(s_mul(half_b, half_b), s_mul(quad_a, quad_c));
    if delta < 0 {
        None
    } else {
        let sq = s_sqrt(delta);
        let root1 = s_div(s_sub(s_neg(half_b), sq), quad_a);
        let root2 = s_div(s_add(s_neg(half_b), sq), quad_a);
        if t_min <= root1 && root1 <= t_max {
            Some(sphere_record(s, ray, root1))
        } else if t_min <= root2 && root2 <= t_max {
            Some(sphere_record(s, ray, root2))
        } else {
            None
        }
    }
}

impl Sphere {
    pub fn new(center: Vec3, radius: i64, color: Color, roughness: i64, reflectivity: i64) -> (r:
        Self)
        ensures
            r == (Sphere { center, radius, color, roughness, reflectivity }),
    {
        Self { center, radius, color, roughness, reflectivity }
    }

    pub fn get_color(&self) -> (r: Color)
        ensures
            r == self.color,
    {
        self.color
    }

    pub fn get_roughness(&self) -> (r: i64)
        ensures
            r == self.roughness,
    {
        self.roughness
    }

    pub fn get_reflectivity(&self) -> (r: i64)
        ensures
            r == self.reflectivity,
    {
        self.reflectivity
    }

    pub fn get_hit_record(&self, ray: &Ray, t_min: i64, t_max: i64) -> (r: Option<HitRecord>)
        ensures
            r == sphere_hit(*self, *ray, t_min as int, t_max as int),
    {
        let oc = ray.origin.vsub(&self.center);
        let quad_a = ray.direction.length_squared();
        let half_b = oc.dot(&ray.direction);
        let quad_c = fx_sub(oc.length_squared(), fx_mul(self.radius, self.radius));
        let delta = fx_sub(fx_mul(half_b, half_b), fx_mul(quad_a, quad_c));

        if delta < 0 {
            return None;
        }

        let sq = fx_sqrt(delta);
        let mut root = fx_div(fx_sub(fx_neg(half_b), sq), quad_a);
        if root < t_min || t_max < root {
            root = fx_div(fx_add(fx_neg(half_b), sq), quad_a);
            if root < t_min || t_max < root {
                return None;
            }
        }

        let point = ray.at(root);
        let outward_normal = point.vsub(&self.center).scale_div(self.radius);

        Some(
            HitRecord {
                point,
                normal: outward_normal,
                front_face: if ray.direction.dot(&outward_normal) < 0 {
                    Front::Inward
                } else {
                    Front::Outward
                },
                t: root,
                color: self.color,
                roughness: self.roughness,
                reflectivity: self.reflectivity,
            },
        )
    }
}

#[derive(Clone, Copy, Debug, PartialEq, Eq, Structural)]
pub struct Plane {
    pub origin: Point3,
    pub edge_x: Vec3,
    pub edge_y: Vec3,
    pub color: Color,
    pub roughness: i64,
    pub reflectivity: i64,
}

/// The unit normal of the plane spanned by the two edges.
pub open spec fn plane_normal(p: Plane) -> Vec3 {
    v_norm(v_cross(p.edge_x, p.edge_y))
}

/// An edge accepts the intersection point when the cross product of the
/// edge with the vector from the edge's start to the point is, once
/// normalized, within `EDGE_TOLERANCE` of the plane normal.
pub open spec fn edge_accepts(edge: Vec3, to_point: Vec3, normal: Vec3) -> bool {
    v_len(v_sub(v_norm(v_cross(edge, to_point)), normal)) <= EDGE_TOLERANCE as int
}

/// Solve the point-normal plane equation for `t`, then accept only points
/// inside the parallelogram, testing the four boundary edges in order.
/// The returned normal is flipped to face the incoming ray. A ray running
/// parallel to the plane (zero denominator) is a miss rather than the
/// unbounded quotient a float would produce.
pub open spec fn plane_hit(p: Plane, ray: Ray, t_min: int, t_max: int) -> Option<HitRecord> {
    let n0 = plane_normal(p);
    let dn = v_dot(ray.direction, n0);
    if dn == 0 {
        None
    } else {
        let d = s_mul(v_dot(n0, p.origin), -(SCALE as int));
        let t = s_div(s_sub(s_neg(d), v_dot(ray.origin, n0)), dn);
        if t < t_min || t > t_max {
            None
        } else {
            let inter = ray_at(ray, t);
            let v0 = p.origin;
            let v1 = v_add(p.origin, p.edge_x);
            let v2 = v_add(v_add(p.origin, p.edge_x), p.edge_y);
            let v3 = v_add(p.origin, p.edge_y);
            if !(edge_accepts(v_sub(v1, v0), v_sub(inter, v0), n0) && edge_accepts(
                v_sub(v2, v1),
                v_sub(inter, v1),
                n0,
            ) && edge_accepts(v_sub(v3, v2), v_sub(inter, v2), n0) && edge_accepts(
                v_sub(v0, v3),
                v_sub(inter, v3),
                n0,
            )) {
                None
            } else {
                let normal = if dn > 0 {
                    v_neg(n0)
                } else {
                    n0
                };
                Some(
                    HitRecord {
                        point: inter,
                        normal,
                        front_face: Front::Outward,
                        t: t as i64,
                        color: p.color,
                        roughness: p.roughness,
                        reflectivity: p.reflectivity,
                    },
                )
            }
        }
    }
}

impl Plane {
    pub fn new(
        origin: Vec3,
        edge_x: Vec3,
        edge_y: Vec3,
        color: Color,
        roughness: i64,
        reflectivity: i64,
    ) -> (r: Self)
        ensures
            r == (Plane { origin, edge_x, edge_y, color, roughness, reflectivity }),
    {
        Self { origin, edge_x, edge_y, color, roughness, reflectivity }
    }

    pub fn vertices(&self) -> (r: [Vec3; 4])
        ensures
            r@ =~= seq![
                self.origin,
                v_add(self.origin, self.edge_x),
                v_add(v_add(self.origin, self.edge_x), self.edge_y),
                v_add(self.origin, self.edge_y),
            ],
    {
        [
            self.origin,
            self.origin.vadd(&self.edge_x),
            self.origin.vadd(&self.edge_x).vadd(&self.edge_y),
            self.origin.vadd(&self.edge_y),
        ]
    }

    pub fn get_color(&self) -> (r: Color)
        ensures
            r == self.color,
    {
        self.color
    }

    pub fn get_roughness(&self) -> (r: i64)
        ensures
            r == self.roughness,
    {
        self.roughness
    }

    pub fn get_reflectivity(&self) -> (r: i64)
        ensures
            r == self.reflectivity,
    {
        self.reflectivity
    }

    /// One boundary edge test of the point-in-parallelogram check.
    fn edge_test(edge: &Vec3, to_point: &Vec3, normal: &Vec3) -> (r: bool)
        ensures
            r == edge_accepts(*edge, *to_point, *normal),
    {
        let crossed = edge.cross(to_point).normalize();
        crossed.vsub(normal).length() <= EDGE_TOLERANCE
    }

    pub fn get_hit_record(&self, ray: &Ray, t_min: i64, t_max: i64) -> (r: Option<HitRecord>)
        ensures
            r == plane_hit(*self, *ray, t_min as int, t_max as int),
            r matches Some(h) ==> v_dot(ray.direction, h.normal) <= 0,
    {
        let n0 = self.edge_x.cross(&self.edge_y).normalize();
        let dn = ray.direction.dot(&n0);
        if dn == 0 {
            // a ray parallel to the plane is a miss, not a division blow-up
            return None;
        }

        let d = fx_mul(n0.dot(&self.origin), -SCALE);
        let t = fx_div(fx_sub(fx_neg(d), ray.origin.dot(&n0)), dn);
        if t < t_min || t > t_max {
            return None;
        }

        let inter = ray.at(t);
        let v0 = self.origin;
        let v1 = self.origin.vadd(&self.edge_x);
        let v2 = self.origin.vadd(&self.edge_x).vadd(&self.edge_y);
        let v3 = self.origin.vadd(&self.edge_y);

        if !Self::edge_test(&v1.vsub(&v0), &inter.vsub(&v0), &n0) {
            return None;
        }
        if !Self::edge_test(&v2.vsub(&v1), &inter.vsub(&v1), &n0) {
            return None;
        }
        if !Self::edge_test(&v3.vsub(&v2), &inter.vsub(&v2), &n0) {
            return None;
        }
        if !Self::edge_test(&v0.vsub(&v3), &inter.vsub(&v3), &n0) {
            return None;
        }

        let normal = if dn > 0 {
            n0.neg()
        } else {
            n0
        };
        proof {
            crate::maths::lemma_norm_in_range(v_cross(self.edge_x, self.edge_y));
            if dn > 0 {
                crate::maths::lemma_dot_neg(ray.direction, plane_normal(*self));
            }
        }

        Some(
            HitRecord {
                point: inter,
                normal,
                front_face: Front::Outward,
                t,
                color: self.color,
                roughness: self.roughness,
                reflectivity: self.reflectivity,
            },
        )
    }
}

/// A sphere hit lies inside the query window, and shrinking the far end
/// of the window keeps the same hit when it still fits, or turns it into
/// a miss: the nearer root is always tried first.
proof fn lemma_sphere_hit_restrict(
    s: Sphere,
    ray: Ray,
    t_min: int,
    t_max: int,
    c: int,
    h: HitRecord,
)
    requires
        sphere_hit(s, ray, t_min, t_max) == Some(h),
        t_min <= c <= t_max,
    ensures
        sphere_hit(s, ray, t_min, c) == if h.t as int <= c {
            Some(h)
        } else {
            None::<HitRecord>
        },
{
    let oc = v_sub(ray.origin, s.center);
    let quad_a = v_len2(ray.direction);
    let half_b = v_dot(oc, ray.direction);
    let quad_c = s_sub(v_len2(oc), s_mul(s.radius as int, s.radius as int));
    let delta = s_sub(s_mul(half_b, half_b), s_mul(quad_a, quad_c));
    crate::maths::lemma_v_len2_nonneg(ray.direction);
    crate::fixed::lemma_s_sqrt_nonneg(delta);
    let sq = s_sqrt(delta);
    crate::fixed::lemma_s_div_mono_num(
        s_sub(s_neg(half_b), sq),
        s_add(s_neg(half_b), sq),
        quad_a,
    );
}

/// A plane hit lies inside the query window, and shrinking the far end
/// keeps or discards it according to its ray parameter alone.
proof fn lemma_plane_hit_restrict(
    p: Plane,
    ray: Ray,
    t_min: int,
    t_max: int,
    c: int,
    h: HitRecord,
)
    requires
        plane_hit(p, ray, t_min, t_max) == Some(h),
        t_min <= c <= t_max,
    ensures
        plane_hit(p, ray, t_min, c) == if h.t as int <= c {
            Some(h)
        } else {
            None::<HitRecord>
        },
{
}

/// Any reported hit lies inside the query window.
pub proof fn lemma_prim_hit_in_window(p: Primitive, ray: Ray, t_min: int, t_max: int)
    ensures
        prim_hit(p, ray, t_min, t_max) matches Some(h) ==> t_min <= h.t as int <= t_max,
{
}

/// Shrinking the far end of a window keeps a reported hit that still
/// fits and loses exactly the ones that do not.
pub proof fn lemma_prim_hit_restrict(
    p: Primitive,
    ray: Ray,
    t_min: int,
    t_max: int,
    c: int,
    h: HitRecord,
)
    requires
        prim_hit(p, ray, t_min, t_max) == Some(h),
        t_min <= c <= t_max,
    ensures
        prim_hit(p, ray, t_min, c) == if h.t as int <= c {
            Some(h)
        } else {
            None::<HitRecord>
        },
{
    match p {
        Primitive::Sphere(s) => lemma_sphere_hit_restrict(s, ray, t_min, t_max, c, h),
        Primitive::Plane(pl) => lemma_plane_hit_restrict(pl, ray, t_min, t_max, c, h),
    }
}

/// A surface of the scene: the closed sum of the primitive kinds.
#[derive(Clone, Copy, Debug, PartialEq, Eq, Structural)]
pub enum Primitive {
    Sphere(Sphere),
    Plane(Plane),
}

/// Intersection of one primitive, dispatched on its kind.
pub open spec fn prim_hit(p: Primitive, ray: Ray, t_min: int, t_max: int) -> Option<HitRecord> {
    match p {
        Primitive::Sphere(s) => sphere_hit(s, ray, t_min, t_max),
        Primitive::Plane(pl) => plane_hit(pl, ray, t_min, t_max),
    }
}

impl Primitive {
    pub fn get_hit_record(&self, ray: &Ray, t_min: i64, t_max: i64) -> (r: Option<HitRecord>)
        ensures
            r == prim_hit(*self, *ray, t_min as int, t_max as int),
    {
        match self {
            Primitive::Sphere(s) => s.get_hit_record(ray, t_min, t_max),
            Primitive::Plane(p) => p.get_hit_record(ray, t_min, t_max),
        }
    }

    pub fn get_color(&self) -> (r: Color)
        ensures
            r == match *self {
                Primitive::Sphere(s) => s.color,
                Primitive::Plane(p) => p.color,
            },
    {
        match self {
            Primitive::Sphere(s) => s.get_color(),
            Primitive::Plane(p) => p.get_color(),
        }
    }

    pub fn get_roughness(&self) -> (r: i64)
        ensures
            r == match *self {
                Primitive::Sphere(s) => s.roughness,
                Primitive::Plane(p) => p.roughness,
            },
    {
        match self {
            Primitive::Sphere(s) => s.get_roughness(),
            Primitive::Plane(p) => p.get_roughness(),
        }
    }

    pub fn get_reflectivity(&self) -> (r: i64)
        ensures
            r == match *self {
                Primitive::Sphere(s) => s.reflectivity,
                Primitive::Plane(p) => p.reflectivity,
            },
    {
        match self {
            Primitive::Sphere(s) => s.get_reflectivity(),
            Primitive::Plane(p) => p.get_reflectivity(),
        }
    }
}

} // verus!
