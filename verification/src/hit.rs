//! The record an intersection query returns, and the scene aggregate: an
//! insertion-ordered collection of primitives answering the same query
//! with the globally nearest hit.

use vstd::prelude::*;

use crate::maths::{Color, Vec3};
use crate::objects::{prim_hit, Primitive};
use crate::ray::Ray;

verus! {

/// Whether the intersected surface was struck on the side its geometric
/// normal points away from (`Inward`) or toward (`Outward`).
#[derive(Clone, Copy, Debug, PartialEq, Eq, Structural)]
pub enum Front {
    Inward,
    Outward,
}

/// One ray/surface intersection: where, with what surface normal, at
/// which ray parameter, and the material attributes of the surface.
#[derive(Clone, Copy, Debug, PartialEq, Eq, Structural)]
pub struct HitRecord {
    pub point: Vec3,
    pub normal: Vec3,
    pub front_face: Front,
    pub t: i64,
    pub color: Color,
    pub roughness: i64,
    pub reflectivity: i64,
}

/// The scene: an insertion-ordered list of primitives, scanned linearly.
pub struct HittableList {
    pub objects: Vec<Primitive>,
}

/// The tail of the linear scan: primitives `i..` examined against the
/// window `(t_min, closest)`, starting from the best record found so far.
pub open spec fn list_hit_from(
    objects: Seq<Primitive>,
    i: int,
    ray: Ray,
    t_min: int,
    closest: int,
    best: Option<HitRecord>,
) -> Option<HitRecord>
    decreases objects.len() - i,
{
    if i < 0 || i >= objects.len() {
        best
    } else {
        match prim_hit(objects[i], ray, t_min, closest) {
            Some(rec) => list_hit_from(objects, i + 1, ray, t_min, rec.t as int, Some(rec)),
            None => list_hit_from(objects, i + 1, ray, t_min, closest, best),
        }
    }
}

/// What the aggregate intersection query returns: the nearest hit of the
/// linear scan, each primitive examined against the window shrunk to the
/// closest hit so far.
pub open spec fn list_hit(objects: Seq<Primitive>, ray: Ray, t_min: int, t_max: int) -> Option<
    HitRecord,
> {
    list_hit_from(objects, 0, ray, t_min, t_max, None)
}

/// Once the scan holds a best record, whatever follows only brings the
/// winning parameter down.
proof fn lemma_scan_keeps_best(
    objects: Seq<Primitive>,
    i: int,
    ray: Ray,
    t_min: int,
    closest: int,
    b: HitRecord,
)
    requires
        b.t as int == closest,
    ensures
        list_hit_from(objects, i, ray, t_min, closest, Some(b)) matches Some(res) && res.t as int
            <= closest,
    decreases objects.len() - i,
{
    if 0 <= i < objects.len() {
        match prim_hit(objects[i], ray, t_min, closest) {
            Some(rec) => {
                crate::objects::lemma_prim_hit_in_window(objects[i], ray, t_min, closest);
                lemma_scan_keeps_best(objects, i + 1, ray, t_min, rec.t as int, rec);
            },
            None => {
                lemma_scan_keeps_best(objects, i + 1, ray, t_min, closest, b);
            },
        }
    }
}

/// The scan's answer never exceeds what primitive `j` reports for the
/// original window `w`, whatever state the scan has reached by `i`.
proof fn lemma_scan_min(
    objects: Seq<Primitive>,
    i: int,
    ray: Ray,
    t_min: int,
    closest: int,
    best: Option<HitRecord>,
    j: int,
    hj: HitRecord,
    w: int,
)
    requires
        0 <= i <= j < objects.len(),
        prim_hit(objects[j], ray, t_min, w) == Some(hj),
        t_min <= closest <= w,
        match best {
            Some(b) => b.t as int == closest,
            None => closest == w,
        },
    ensures
        list_hit_from(objects, i, ray, t_min, closest, best) matches Some(res) && res.t as int
            <= hj.t as int,
    decreases j - i,
{
    crate::objects::lemma_prim_hit_in_window(objects[j], ray, t_min, w);
    if i == j {
        crate::objects::lemma_prim_hit_restrict(objects[j], ray, t_min, w, closest, hj);
        if hj.t as int <= closest {
            lemma_scan_keeps_best(objects, i + 1, ray, t_min, hj.t as int, hj);
        } else {
            match best {
                Some(b) => {
                    lemma_scan_keeps_best(objects, i + 1, ray, t_min, closest, b);
                },
                None => {
                    assert(false);
                },
            }
        }
    } else {
        match prim_hit(objects[i], ray, t_min, closest) {
            Some(rec) => {
                crate::objects::lemma_prim_hit_in_window(objects[i], ray, t_min, closest);
                lemma_scan_min(objects, i + 1, ray, t_min, rec.t as int, Some(rec), j, hj, w);
            },
            None => {
                lemma_scan_min(objects, i + 1, ray, t_min, closest, best, j, hj, w);
            },
        }
    }
}

/// Nearest-hit selection: the aggregate's answer is never farther along
/// the ray than what any single primitive reports for the same window.
/// For two overlapping spheres along one ray, the nearer reported
/// parameter wins.
pub proof fn lemma_nearest_hit(
    objects: Seq<Primitive>,
    ray: Ray,
    t_min: int,
    t_max: int,
    j: int,
    hj: HitRecord,
)
    requires
        0 <= j < objects.len(),
        prim_hit(objects[j], ray, t_min, t_max) == Some(hj),
    ensures
        list_hit(objects, ray, t_min, t_max) matches Some(res) && res.t as int <= hj.t as int,
{
    crate::objects::lemma_prim_hit_in_window(objects[j], ray, t_min, t_max);
    lemma_scan_min(objects, 0, ray, t_min, t_max, None, j, hj, t_max);
}

impl HittableList {
    pub fn new() -> (r: Self)
        ensures
            r.objects@ =~= Seq::<Primitive>::empty(),
    {
        Self { objects: Vec::new() }
    }

    pub fn clear(&mut self)
        ensures
            final(self).objects@ =~= Seq::<Primitive>::empty(),
    {
        self.objects.clear();
    }

    pub fn add(&mut self, obj: Primitive)
        ensures
            final(self).objects@ =~= old(self).objects@.push(obj),
    {
        self.objects.push(obj);
    }

    /// The globally nearest hit along `ray` in `(t_min, t_max)`, or none.
    pub fn get_hit_record(&self, ray: &Ray, t_min: i64, t_max: i64) -> (r: Option<HitRecord>)
        ensures
            r == list_hit(self.objects@, *ray, t_min as int, t_max as int),
    {
        let mut closest: i64 = t_max;
        let mut result: Option<HitRecord> = None;
        let n = self.objects.len();
        let mut i: usize = 0;
        while i < n
            invariant
                n == self.objects@.len(),
                0 <= i <= n,
                list_hit(self.objects@, *ray, t_min as int, t_max as int) == list_hit_from(
                    self.objects@,
                    i as int,
                    *ray,
                    t_min as int,
                    closest as int,
                    result,
                ),
            decreases n - i,
        {
            match self.objects[i].get_hit_record(ray, t_min, closest) {
                Some(rec) => {
                    closest = rec.t;
                    result = Some(rec);
                }
                None => {}
            }
            i = i + 1;
        }
        result
    }
}

} // verus!
