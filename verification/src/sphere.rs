//! Sphere intersection by the analytic quadratic solve, and the solid-angle
//! density used when a sphere serves as an importance-sampling target.
use vstd::prelude::*;
use crate::aabb::{Aabb, in_box_s};
use crate::fixed::{
    fadd_s, fdiv_s, fmul_s, fneg_s, fsqrt_s, fsub_s, fp_add, fp_div, fp_mul, fp_neg, fp_sqrt,
    fp_sub, SCALE, TWO_PI_FP,
};
use crate::interval::{Interval, contains_s};
use crate::materials::Material;
use crate::hittable::HitRecord;
use crate::ray::{Ray, at_s};
use crate::rng::random_unit_vector;
use crate::vec3::{Vec2, Vec3, vadd_s, vdot_s, vscale_s, vsub_s, vunit_s};

verus! {

/// Padding of the sphere's bounding box; a computed hit point falling
/// outside the padded box is a numerical degeneracy and yields no hit.
pub const SPHERE_PAD: i64 = 4096;

/// The valid window used when a sphere is queried as a sampling target.
pub const PDF_T_MIN: i64 = 66;

/// The far end of the window used when a sphere is queried as a target.
pub const PDF_T_MAX: i64 = 0x1_0000_0000_0000;

#[derive(Clone, Copy, Debug, PartialEq, Eq, Structural)]
pub struct Sphere {
    pub center: Vec3,
    pub radius: i64,
    pub material: Material,
}

/// The padded bounding box: center plus or minus (radius + pad) per axis.
pub open spec fn sphere_box_s(s: Sphere) -> Aabb {
    let e = fadd_s(s.radius as int, SPHERE_PAD as int);
    Aabb {
        lo: Vec3 {
            x: fsub_s(s.center.x as int, e) as i64,
            y: fsub_s(s.center.y as int, e) as i64,
            z: fsub_s(s.center.z as int, e) as i64,
        },
        hi: Vec3 {
            x: fadd_s(s.center.x as int, e) as i64,
            y: fadd_s(s.center.y as int, e) as i64,
            z: fadd_s(s.center.z as int, e) as i64,
        },
    }
}

/// The record built at parameter t, or nothing when the computed point
/// escapes the padded box (a numerical degeneracy).
pub open spec fn sphere_rec_s(s: Sphere, r: Ray, t: int) -> Option<HitRecord> {
    let p = at_s(r, t);
    if !in_box_s(sphere_box_s(s), p) {
        None
    } else {
        Some(
            HitRecord {
                p,
                normal: vunit_s(vsub_s(p, s.center)),
                uv: Vec2 { x: 0, y: 0 },
                t: t as i64,
                material: s.material,
            },
        )
    }
}

/// The analytic quadratic solve: of the two real roots, the smaller one in
/// the window wins; a negative discriminant or degenerate direction misses.
pub open spec fn sphere_hit_s(s: Sphere, r: Ray, itv: Interval) -> Option<HitRecord> {
    let oc = vsub_s(r.origin, s.center);
    let a = vdot_s(r.direction, r.direction);
    let h = vdot_s(r.direction, oc);
    let c = fsub_s(vdot_s(oc, oc), fmul_s(s.radius as int, s.radius as int));
    let disc = fsub_s(fmul_s(h, h), fmul_s(a, c));
    if a <= 0 || disc < 0 {
        None
    } else {
        let sq = fsqrt_s(disc);
        let t1 = fdiv_s(fsub_s(fneg_s(h), sq), a);
        if contains_s(itv, t1) {
            sphere_rec_s(s, r, t1)
        } else {
            let t2 = fdiv_s(fadd_s(fneg_s(h), sq), a);
            if contains_s(itv, t2) {
                sphere_rec_s(s, r, t2)
            } else {
                None
            }
        }
    }
}

/// The solid-angle density of directions from `origin` that hit the sphere:
/// 1 / (2 pi (1 - cos theta_max)); 0 for directions that miss, and 0 in the
/// degenerate configurations (origin inside the sphere, vanishing cone).
pub open spec fn sphere_pdf_value_s(s: Sphere, origin: Vec3, direction: Vec3) -> int {
    let probe = Ray { origin, direction };
    let window = Interval { min: PDF_T_MIN, max: PDF_T_MAX };
    if sphere_hit_s(s, probe, window) is None {
        0
    } else {
        let oc = vsub_s(s.center, origin);
        let dist2 = vdot_s(oc, oc);
        let r2 = fmul_s(s.radius as int, s.radius as int);
        if dist2 <= r2 {
            0
        } else {
            let cos_max = fsqrt_s(fsub_s(SCALE as int, fdiv_s(r2, dist2)));
            let solid = fmul_s(TWO_PI_FP as int, fsub_s(SCALE as int, cos_max));
            fdiv_s(SCALE as int, solid)
        }
    }
}

/// What every outcome of `Sphere::random` satisfies: the direction points
/// at the center displaced by the radius image of some near-unit vector.
pub open spec fn sphere_random_ok(s: Sphere, origin: Vec3, dir: Vec3) -> bool {
    exists|v: Vec3|
        -SCALE <= v.x <= SCALE && -SCALE <= v.y <= SCALE && -SCALE <= v.z <= SCALE && dir
            == vunit_s(
            vsub_s(vadd_s(s.center, #[trigger] vscale_s(v, s.radius as int)), origin),
        )
}

impl Sphere {
    pub fn new(center: Vec3, radius: i64, material: Material) -> (s: Sphere)
        ensures
            s == (Sphere { center, radius, material }),
    {
        Sphere { center, radius, material }
    }

    /// The padded bounding box: center plus or minus (radius + pad).
    pub fn bounding_box(&self) -> (b: Aabb)
        ensures
            b == sphere_box_s(*self),
    {
        let e: i64 = fp_add(self.radius, SPHERE_PAD);
        Aabb {
            lo: Vec3 {
                x: fp_sub(self.center.x, e),
                y: fp_sub(self.center.y, e),
                z: fp_sub(self.center.z, e),
            },
            hi: Vec3 {
                x: fp_add(self.center.x, e),
                y: fp_add(self.center.y, e),
                z: fp_add(self.center.z, e),
            },
        }
    }

    /// Closest-hit query against the valid window.
    pub fn hit(&self, r: &Ray, itv: &Interval) -> (res: Option<HitRecord>)
        ensures
            res == sphere_hit_s(*self, *r, *itv),
    {
        let oc: Vec3 = r.origin.sub(&self.center);
        let a: i64 = r.direction.dot(&r.direction);
        let h: i64 = r.direction.dot(&oc);
        let c: i64 = fp_sub(oc.dot(&oc), fp_mul(self.radius, self.radius));
        let disc: i64 = fp_sub(fp_mul(h, h), fp_mul(a, c));
        if a <= 0 || disc < 0 {
            return None;
        }
        let sq: i64 = fp_sqrt(disc);
        let t1: i64 = fp_div(fp_sub(fp_neg(h), sq), a);
        if itv.contains(t1) {
            self.make_record(r, t1)
        } else {
            let t2: i64 = fp_div(fp_add(fp_neg(h), sq), a);
            if itv.contains(t2) {
                self.make_record(r, t2)
            } else {
                None
            }
        }
    }

    fn make_record(&self, r: &Ray, t: i64) -> (res: Option<HitRecord>)
        ensures
            res == sphere_rec_s(*self, *r, t as int),
    {
        let p: Vec3 = r.at(t);
        let bbox: Aabb = self.bounding_box();
        let inside: bool = bbox.lo.x <= p.x && p.x <= bbox.hi.x && bbox.lo.y <= p.y && p.y
            <= bbox.hi.y && bbox.lo.z <= p.z && p.z <= bbox.hi.z;
        if !inside {
            return None;
        }
        Some(
            HitRecord {
                p,
                normal: p.sub(&self.center).unit(),
                uv: Vec2 { x: 0, y: 0 },
                t,
                material: self.material,
            },
        )
    }

    /// The solid-angle density of `direction` as a sample toward this sphere.
    pub fn pdf_value(&self, origin: &Vec3, direction: &Vec3) -> (r: i64)
        ensures
            r as int == sphere_pdf_value_s(*self, *origin, *direction),
    {
        let probe: Ray = Ray { origin: *origin, direction: *direction };
        let window: Interval = Interval { min: PDF_T_MIN, max: PDF_T_MAX };
        if self.hit(&probe, &window).is_none() {
            return 0;
        }
        let oc: Vec3 = self.center.sub(origin);
        let dist2: i64 = oc.dot(&oc);
        let r2: i64 = fp_mul(self.radius, self.radius);
        if dist2 <= r2 {
            return 0;
        }
        let cos_max: i64 = fp_sqrt(fp_sub(SCALE, fp_div(r2, dist2)));
        let solid: i64 = fp_mul(TWO_PI_FP, fp_sub(SCALE, cos_max));
        fp_div(SCALE, solid)
    }

    /// A random direction from `origin` toward the sphere: aim at a point
    /// jittered on the surface. Whatever the draws, the result points at the
    /// center displaced by the radius image of some near-unit vector.
    pub fn random(&self, origin: &Vec3) -> (dir: Vec3)
        ensures
            sphere_random_ok(*self, *origin, dir),
    {
        let u: Vec3 = random_unit_vector();
        let jitter: Vec3 = u.scale(self.radius);
        let dir: Vec3 = self.center.add(&jitter).sub(origin).unit();
        proof {
            assert(dir == vunit_s(
                vsub_s(vadd_s(self.center, vscale_s(u, self.radius as int)), *origin),
            ));
        }
        dir
    }

    /// Hits reported by the query stay inside the window and the padded box,
    /// and carry the point the ray evaluation gives.
    pub proof fn lemma_hit_props(s: Sphere, r: Ray, itv: Interval)
        ensures
            sphere_hit_s(s, r, itv) matches Some(rec) ==> contains_s(itv, rec.t as int)
                && rec.p == at_s(r, rec.t as int) && in_box_s(sphere_box_s(s), rec.p),
    {
    }
}

} // verus!
