//! The intersection capability: primitives, the aggregate list, and the
//! closest-hit semantics every implementation is held to.
//!
//! `closest_hit_s` is the brute-force linear scan with the narrowing window:
//! each reported hit tightens the window's far end, so a later object only
//! replaces the best hit with one at most as far. The list implements it
//! directly; the bounding-volume hierarchy is proved to return exactly the
//! same record.
use vstd::prelude::*;
use crate::aabb::{Aabb, in_box_s};
use crate::fixed::{fadd_s, fdiv_s, sat_s, fp_add, fp_div, FP_LIM, SCALE};
use crate::interval::{Interval, contains_s};
use crate::materials::Material;
use crate::ray::{Ray, at_s};
use crate::rng::rand_index;
use crate::sphere::{Sphere, sphere_box_s, sphere_hit_s, sphere_pdf_value_s, sphere_random_ok};
use crate::triangle::{Triangle, tri_box_s, tri_hit_s};
use crate::vec3::{Vec2, Vec3};

verus! {

/// The outcome of a successful intersection query: transient shading data.
#[derive(Clone, Copy, Debug, PartialEq, Eq, Structural)]
pub struct HitRecord {
    pub p: Vec3,
    pub normal: Vec3,
    pub uv: Vec2,
    pub t: i64,
    pub material: Material,
}

/// The closed set of primitive shapes a scene holds.
#[derive(Clone, Copy, Debug)]
pub enum Object {
    Sphere(Sphere),
    Triangle { triangle: Triangle, material: Material },
}

pub open spec fn obj_hit_s(o: Object, r: Ray, itv: Interval) -> Option<HitRecord> {
    match o {
        Object::Sphere(s) => sphere_hit_s(s, r, itv),
        Object::Triangle { triangle, material } => match tri_hit_s(triangle, r, itv) {
            None => None,
            Some(x) => Some(
                HitRecord { p: x.p, normal: x.normal, uv: x.uv, t: x.t, material },
            ),
        },
    }
}

pub open spec fn obj_box_s(o: Object) -> Aabb {
    match o {
        Object::Sphere(s) => sphere_box_s(s),
        Object::Triangle { triangle, material } => tri_box_s(triangle),
    }
}

pub open spec fn obj_pdf_value_s(o: Object, origin: Vec3, direction: Vec3) -> int {
    match o {
        Object::Sphere(s) => sphere_pdf_value_s(s, origin, direction),
        Object::Triangle { .. } => 0,
    }
}

/// The nearest hit of a scan from the left, each hit narrowing the window's
/// far end to its own parameter (a later hit at exactly the same parameter
/// still replaces the earlier one: the window is closed).
pub open spec fn closest_hit_s(objs: Seq<Object>, r: Ray, itv: Interval) -> Option<HitRecord>
    decreases objs.len(),
{
    if objs.len() == 0 {
        None
    } else {
        match obj_hit_s(objs[0], r, itv) {
            None => closest_hit_s(objs.skip(1), r, itv),
            Some(rec) => match closest_hit_s(
                objs.skip(1),
                r,
                Interval { min: itv.min, max: rec.t },
            ) {
                Some(r2) => Some(r2),
                None => Some(rec),
            },
        }
    }
}

/// Any hit an object reports stays inside the window and inside the object's
/// bounding box, and carries the point the ray evaluation gives.
pub proof fn lemma_obj_hit_props(o: Object, r: Ray, itv: Interval)
    ensures
        obj_hit_s(o, r, itv) matches Some(rec) ==> contains_s(itv, rec.t as int) && rec.p == at_s(
            r,
            rec.t as int,
        ) && in_box_s(obj_box_s(o), rec.p),
{
    match o {
        Object::Sphere(s) => {
            Sphere::lemma_hit_props(s, r, itv);
        },
        Object::Triangle { triangle, material } => {
        },
    }
}

/// The closest-hit properties, lifted over the scan.
pub proof fn lemma_closest_props(objs: Seq<Object>, r: Ray, itv: Interval)
    ensures
        closest_hit_s(objs, r, itv) matches Some(rec) ==> contains_s(itv, rec.t as int) && rec.p
            == at_s(r, rec.t as int) && exists|i: int|
            0 <= i < objs.len() && in_box_s(obj_box_s(#[trigger] objs[i]), rec.p),
    decreases objs.len(),
{
    if objs.len() > 0 {
        lemma_obj_hit_props(objs[0], r, itv);
        lemma_closest_props(objs.skip(1), r, itv);
        match obj_hit_s(objs[0], r, itv) {
            None => {
                match closest_hit_s(objs, r, itv) {
                    Some(rec) => {
                        let i = choose|i: int|
                            0 <= i < objs.skip(1).len() && in_box_s(
                                obj_box_s(#[trigger] objs.skip(1)[i]),
                                rec.p,
                            );
                        assert(objs.skip(1)[i] == objs[i + 1]);
                        assert(in_box_s(obj_box_s(objs[i + 1]), rec.p));
                    },
                    None => {},
                }
            },
            Some(rec0) => {
                let narrowed = Interval { min: itv.min, max: rec0.t };
                lemma_closest_props(objs.skip(1), r, narrowed);
                match closest_hit_s(objs.skip(1), r, narrowed) {
                    Some(rec) => {
                        let i = choose|i: int|
                            0 <= i < objs.skip(1).len() && in_box_s(
                                obj_box_s(#[trigger] objs.skip(1)[i]),
                                rec.p,
                            );
                        assert(objs.skip(1)[i] == objs[i + 1]);
                        assert(in_box_s(obj_box_s(objs[i + 1]), rec.p));
                    },
                    None => {
                        assert(in_box_s(obj_box_s(objs[0]), rec0.p));
                    },
                }
            },
        }
    }
}

/// How many sphere members stand at or after index i. Spheres are the
/// sampleable importance targets: a triangle exposes no solid-angle density,
/// so it is neither sampled toward nor counted in the aggregate's mean.
pub open spec fn sphere_count_from_s(objs: Seq<Object>, i: int) -> int
    decreases objs.len() - i,
{
    if i < 0 || i >= objs.len() {
        0
    } else {
        (if objs[i] is Sphere {
            1int
        } else {
            0int
        }) + sphere_count_from_s(objs, i + 1)
    }
}

/// The k-th sphere member at or after index i.
pub open spec fn nth_sphere_from_s(objs: Seq<Object>, i: int, k: int) -> Object
    recommends
        0 <= i,
        0 <= k < sphere_count_from_s(objs, i),
    decreases objs.len() - i,
{
    if i < 0 || i >= objs.len() {
        objs[0]
    } else if objs[i] is Sphere {
        if k == 0 {
            objs[i]
        } else {
            nth_sphere_from_s(objs, i + 1, k - 1)
        }
    } else {
        nth_sphere_from_s(objs, i + 1, k)
    }
}

/// The k-th sphere member is a sphere, and a member.
proof fn lemma_nth_sphere_from(objs: Seq<Object>, i: int, k: int)
    requires
        0 <= i,
        0 <= k < sphere_count_from_s(objs, i),
    ensures
        nth_sphere_from_s(objs, i, k) is Sphere,
        exists|j: int| i <= j < objs.len() && #[trigger] objs[j] == nth_sphere_from_s(objs, i, k),
    decreases objs.len() - i,
{
    if i < objs.len() {
        if objs[i] is Sphere && k == 0 {
            assert(objs[i] == nth_sphere_from_s(objs, i, k));
        } else if objs[i] is Sphere {
            lemma_nth_sphere_from(objs, i + 1, k - 1);
        } else {
            lemma_nth_sphere_from(objs, i + 1, k);
        }
    }
}

/// What every outcome of the aggregate's `random` satisfies: with no sphere
/// member the z-axis fallback; otherwise a jittered aim at some sphere
/// member.
pub open spec fn list_random_ok(objs: Seq<Object>, origin: Vec3, dir: Vec3) -> bool {
    if sphere_count_from_s(objs, 0) == 0 {
        dir == (Vec3 { x: 0, y: 0, z: SCALE })
    } else {
        exists|j: int|
            {
                &&& 0 <= j < objs.len()
                &&& (#[trigger] objs[j]) matches Object::Sphere(s) && sphere_random_ok(
                    s,
                    origin,
                    dir,
                )
            }
    }
}

/// The sum of the members' densities from index i on.
pub open spec fn pdf_sum_from_s(objs: Seq<Object>, i: int, origin: Vec3, direction: Vec3) -> int
    decreases objs.len() - i,
{
    if i < 0 || i >= objs.len() {
        0
    } else {
        fadd_s(obj_pdf_value_s(objs[i], origin, direction), pdf_sum_from_s(objs, i + 1, origin, direction))
    }
}

/// The aggregate's density: the unweighted mean of the sampleable (sphere)
/// members' densities, so that it matches the density of what `random`
/// actually draws; with no sphere member it is zero.
pub open spec fn list_pdf_value_s(objs: Seq<Object>, origin: Vec3, direction: Vec3) -> int {
    let n = sphere_count_from_s(objs, 0);
    if n == 0 {
        0
    } else {
        fdiv_s(pdf_sum_from_s(objs, 0, origin, direction), sat_s(n * (SCALE as int)))
    }
}

/// A flat aggregate of objects, queried by linear scan.
#[derive(Debug)]
pub struct HittableList {
    pub objects: Vec<Object>,
}

impl Object {
    /// Closest-hit query against the valid window.
    pub fn hit(&self, r: &Ray, itv: &Interval) -> (res: Option<HitRecord>)
        ensures
            res == obj_hit_s(*self, *r, *itv),
    {
        match self {
            Object::Sphere(s) => s.hit(r, itv),
            Object::Triangle { triangle, material } => match triangle.ray_hit(r, itv) {
                None => None,
                Some(x) => Some(
                    HitRecord { p: x.p, normal: x.normal, uv: x.uv, t: x.t, material: *material },
                ),
            },
        }
    }

    pub fn bounding_box(&self) -> (b: Aabb)
        ensures
            b == obj_box_s(*self),
    {
        match self {
            Object::Sphere(s) => s.bounding_box(),
            Object::Triangle { triangle, material } => triangle.bounding_box(),
        }
    }

    /// The solid-angle density of `direction` as a sample toward this object.
    pub fn pdf_value(&self, origin: &Vec3, direction: &Vec3) -> (r: i64)
        ensures
            r as int == obj_pdf_value_s(*self, *origin, *direction),
    {
        match self {
            Object::Sphere(s) => s.pdf_value(origin, direction),
            Object::Triangle { .. } => 0,
        }
    }

}

impl HittableList {
    pub fn new(objects: Vec<Object>) -> (r: HittableList)
        ensures
            r.objects == objects,
    {
        HittableList { objects }
    }

    /// The brute-force closest hit over all members.
    pub fn hit(&self, r: &Ray, itv: &Interval) -> (res: Option<HitRecord>)
        ensures
            res == closest_hit_s(self.objects@, *r, *itv),
    {
        proof {
            assert(self.objects@.skip(0) =~= self.objects@);
        }
        self.hit_from(0, r, itv)
    }

    /// The scan from index i on, mirroring `closest_hit_s` on the suffix.
    fn hit_from(&self, i: usize, r: &Ray, itv: &Interval) -> (res: Option<HitRecord>)
        requires
            i <= self.objects.len(),
        ensures
            res == closest_hit_s(self.objects@.skip(i as int), *r, *itv),
        decreases self.objects.len() - i,
    {
        if i == self.objects.len() {
            return None;
        }
        let first: Option<HitRecord> = self.objects[i].hit(r, itv);
        proof {
            assert(self.objects@.skip(i as int)[0] == self.objects@[i as int]);
            assert(self.objects@.skip(i as int).skip(1) =~= self.objects@.skip(i as int + 1));
        }
        match first {
            None => self.hit_from(i + 1, r, itv),
            Some(rec) => {
                let narrowed: Interval = Interval { min: itv.min, max: rec.t };
                match self.hit_from(i + 1, r, &narrowed) {
                    Some(r2) => Some(r2),
                    None => Some(rec),
                }
            },
        }
    }

    /// The mean solid-angle density over the sampleable (sphere) members.
    pub fn pdf_value(&self, origin: &Vec3, direction: &Vec3) -> (r: i64)
        ensures
            r as int == list_pdf_value_s(self.objects@, *origin, *direction),
    {
        let n: usize = self.sphere_count_from(0);
        if n == 0 {
            return 0;
        }
        let sum: i64 = self.pdf_sum_from(0, origin, direction);
        fp_div(sum, len_fp(n))
    }

    fn sphere_count_from(&self, i: usize) -> (n: usize)
        requires
            i <= self.objects.len(),
        ensures
            n as int == sphere_count_from_s(self.objects@, i as int),
            n <= self.objects.len() - i,
        decreases self.objects.len() - i,
    {
        if i == self.objects.len() {
            return 0;
        }
        let rest: usize = self.sphere_count_from(i + 1);
        match self.objects[i] {
            Object::Sphere(_) => rest + 1,
            Object::Triangle { .. } => rest,
        }
    }

    fn nth_sphere_from(&self, i: usize, k: usize) -> (o: Object)
        requires
            i <= self.objects.len(),
            (k as int) < sphere_count_from_s(self.objects@, i as int),
        ensures
            o == nth_sphere_from_s(self.objects@, i as int, k as int),
        decreases self.objects.len() - i,
    {
        let obj: Object = self.objects[i];
        match obj {
            Object::Sphere(_) => {
                if k == 0 {
                    obj
                } else {
                    self.nth_sphere_from(i + 1, k - 1)
                }
            },
            Object::Triangle { .. } => self.nth_sphere_from(i + 1, k),
        }
    }

    fn pdf_sum_from(&self, i: usize, origin: &Vec3, direction: &Vec3) -> (r: i64)
        requires
            i <= self.objects.len(),
        ensures
            r as int == pdf_sum_from_s(self.objects@, i as int, *origin, *direction),
        decreases self.objects.len() - i,
    {
        if i == self.objects.len() {
            return 0;
        }
        let v: i64 = self.objects[i].pdf_value(origin, direction);
        let rest: i64 = self.pdf_sum_from(i + 1, origin, direction);
        fp_add(v, rest)
    }

    /// A random direction from `origin` toward a uniformly chosen sphere
    /// member; with no sampleable member the z axis is the safe fallback.
    pub fn random(&self, origin: &Vec3) -> (dir: Vec3)
        ensures
            list_random_ok(self.objects@, *origin, dir),
    {
        let n: usize = self.sphere_count_from(0);
        if n == 0 {
            return Vec3 { x: 0, y: 0, z: SCALE };
        }
        let k: usize = rand_index(n);
        let o: Object = self.nth_sphere_from(0, k);
        proof {
            lemma_nth_sphere_from(self.objects@, 0, k as int);
        }
        match o {
            Object::Sphere(s) => s.random(origin),
            Object::Triangle { .. } => Vec3 { x: 0, y: 0, z: SCALE },
        }
    }
}

/// The member count as a saturated fixed-point scalar.
fn len_fp(n: usize) -> (r: i64)
    ensures
        r as int == sat_s(n as int * (SCALE as int)),
{
    proof {
        crate::fixed::lemma_mul_abs_bound(
            n as int,
            SCALE as int,
            0x1_0000_0000_0000_0000,
            0x1_0000,
        );
    }
    let p: i128 = (n as i128) * (SCALE as i128);
    if p > FP_LIM as i128 {
        FP_LIM
    } else {
        p as i64
    }
}

} // verus!
