//! Triangle intersection, Moeller-Trumbore style: a determinant test culls
//! parallel and back-facing configurations, barycentric coordinates reject
//! points outside the triangle, and vertex normals and texture coordinates
//! are interpolated by the barycentric weights.
use vstd::prelude::*;
use crate::aabb::{Aabb, in_box_s};
use crate::fixed::{
    fadd_s, fdiv_s, fmul_s, fsub_s, fp_add, fp_div, fp_mul, fp_sub, SCALE,
};
use crate::interval::{Interval, contains_s};
use crate::ray::{Ray, at_s};
use crate::vec3::{
    Vec2, Vec3, v2add_s, v2scale_s, vadd_s, vcross_s, vdot_s, vscale_s, vsub_s, vunit_s,
};
use crate::vertex::Vertex;

verus! {

/// Determinants below this are treated as parallel (single-sided culling:
/// back-facing hits, det <= 0, are deliberately not reported).
pub const TRI_DET_EPS: i64 = 1;

/// Padding of the triangle's bounding box; a computed hit point falling
/// outside the padded box is a numerical degeneracy and yields no hit.
pub const TRI_PAD: i64 = 16384;

#[derive(Clone, Copy, Debug, PartialEq, Eq, Structural)]
pub struct Triangle {
    pub v0: Vertex,
    pub v1: Vertex,
    pub v2: Vertex,
}

#[derive(Clone, Copy, Debug, PartialEq, Eq, Structural)]
pub struct TriangleRayIntersection {
    pub t: i64,
    pub normal: Vec3,
    pub p: Vec3,
    pub uv: Vec2,
}

pub open spec fn imin3(a: int, b: int, c: int) -> int {
    if a <= b && a <= c {
        a
    } else if b <= c {
        b
    } else {
        c
    }
}

pub open spec fn imax3(a: int, b: int, c: int) -> int {
    if a >= b && a >= c {
        a
    } else if b >= c {
        b
    } else {
        c
    }
}

/// The padded bounding box of the three vertices.
pub open spec fn tri_box_s(t: Triangle) -> Aabb {
    Aabb {
        lo: Vec3 {
            x: fsub_s(imin3(t.v0.pos.x as int, t.v1.pos.x as int, t.v2.pos.x as int), TRI_PAD as int) as i64,
            y: fsub_s(imin3(t.v0.pos.y as int, t.v1.pos.y as int, t.v2.pos.y as int), TRI_PAD as int) as i64,
            z: fsub_s(imin3(t.v0.pos.z as int, t.v1.pos.z as int, t.v2.pos.z as int), TRI_PAD as int) as i64,
        },
        hi: Vec3 {
            x: fadd_s(imax3(t.v0.pos.x as int, t.v1.pos.x as int, t.v2.pos.x as int), TRI_PAD as int) as i64,
            y: fadd_s(imax3(t.v0.pos.y as int, t.v1.pos.y as int, t.v2.pos.y as int), TRI_PAD as int) as i64,
            z: fadd_s(imax3(t.v0.pos.z as int, t.v1.pos.z as int, t.v2.pos.z as int), TRI_PAD as int) as i64,
        },
    }
}

/// The full intersection query, step for step what `ray_hit` computes.
pub open spec fn tri_hit_s(tri: Triangle, r: Ray, itv: Interval) -> Option<TriangleRayIntersection> {
    let v0v1 = vsub_s(tri.v1.pos, tri.v0.pos);
    let v0v2 = vsub_s(tri.v2.pos, tri.v0.pos);
    let pvec = vcross_s(r.direction, v0v2);
    let det = vdot_s(v0v1, pvec);
    if det < TRI_DET_EPS as int {
        None
    } else {
        let inv_det = fdiv_s(SCALE as int, det);
        let tvec = vsub_s(r.origin, tri.v0.pos);
        let u = fmul_s(vdot_s(tvec, pvec), inv_det);
        if u < 0 || u > SCALE as int {
            None
        } else {
            let qvec = vcross_s(tvec, v0v1);
            let v = fmul_s(vdot_s(r.direction, qvec), inv_det);
            if v < 0 || u + v > SCALE as int {
                None
            } else {
                let w = SCALE as int - u - v;
                let normal = vunit_s(
                    vadd_s(
                        vadd_s(vscale_s(tri.v0.normal, w), vscale_s(tri.v1.normal, u)),
                        vscale_s(tri.v2.normal, v),
                    ),
                );
                let tt = fmul_s(vdot_s(v0v2, qvec), inv_det);
                let uv = v2add_s(
                    v2add_s(v2scale_s(tri.v0.uv, w), v2scale_s(tri.v1.uv, u)),
                    v2scale_s(tri.v2.uv, v),
                );
                let p = at_s(r, tt);
                if tt < 0 || !contains_s(itv, tt) || !in_box_s(tri_box_s(tri), p) {
                    None
                } else {
                    Some(TriangleRayIntersection { t: tt as i64, normal, p, uv })
                }
            }
        }
    }
}

impl Triangle {
    pub fn new(v0: Vertex, v1: Vertex, v2: Vertex) -> (r: Triangle)
        ensures
            r == (Triangle { v0, v1, v2 }),
    {
        Triangle { v0, v1, v2 }
    }

    /// The padded bounding box of the three vertices.
    pub fn bounding_box(&self) -> (b: Aabb)
        ensures
            b == tri_box_s(*self),
    {
        Aabb {
            lo: Vec3 {
                x: fp_sub(min3(self.v0.pos.x, self.v1.pos.x, self.v2.pos.x), TRI_PAD),
                y: fp_sub(min3(self.v0.pos.y, self.v1.pos.y, self.v2.pos.y), TRI_PAD),
                z: fp_sub(min3(self.v0.pos.z, self.v1.pos.z, self.v2.pos.z), TRI_PAD),
            },
            hi: Vec3 {
                x: fp_add(max3(self.v0.pos.x, self.v1.pos.x, self.v2.pos.x), TRI_PAD),
                y: fp_add(max3(self.v0.pos.y, self.v1.pos.y, self.v2.pos.y), TRI_PAD),
                z: fp_add(max3(self.v0.pos.z, self.v1.pos.z, self.v2.pos.z), TRI_PAD),
            },
        }
    }

    /// Closest-hit query against the valid window `ray_t`. Degenerate
    /// configurations (near-zero determinant, a parameter outside the window,
    /// a hit point escaping the padded box) yield no hit.
    pub fn ray_hit(&self, r: &Ray, ray_t: &Interval) -> (res: Option<TriangleRayIntersection>)
        ensures
            res == tri_hit_s(*self, *r, *ray_t),
    {
        let v0v1: Vec3 = self.v1.pos.sub(&self.v0.pos);
        let v0v2: Vec3 = self.v2.pos.sub(&self.v0.pos);
        let pvec: Vec3 = r.direction.cross(&v0v2);
        let det: i64 = v0v1.dot(&pvec);
        if det < TRI_DET_EPS {
            return None;
        }
        let inv_det: i64 = fp_div(SCALE, det);
        let tvec: Vec3 = r.origin.sub(&self.v0.pos);
        let u: i64 = fp_mul(tvec.dot(&pvec), inv_det);
        if u < 0 || u > SCALE {
            return None;
        }
        let qvec: Vec3 = tvec.cross(&v0v1);
        let v: i64 = fp_mul(r.direction.dot(&qvec), inv_det);
        if v < 0 || u + v > SCALE {
            return None;
        }
        let w: i64 = SCALE - u - v;
        let normal: Vec3 = self.v0.normal.scale(w).add(&self.v1.normal.scale(u)).add(
            &self.v2.normal.scale(v),
        ).unit();
        let tt: i64 = fp_mul(v0v2.dot(&qvec), inv_det);
        let uv: Vec2 = self.v0.uv.scale(w).add(&self.v1.uv.scale(u)).add(
            &self.v2.uv.scale(v),
        );
        let p: Vec3 = r.at(tt);
        let bbox: Aabb = self.bounding_box();
        if tt < 0 || !ray_t.contains(tt) || !in_box(&bbox, &p) {
            return None;
        }
        Some(TriangleRayIntersection { t: tt, normal, p, uv })
    }
}

fn min3(a: i64, b: i64, c: i64) -> (r: i64)
    ensures
        r as int == imin3(a as int, b as int, c as int),
{
    if a <= b && a <= c {
        a
    } else if b <= c {
        b
    } else {
        c
    }
}

fn max3(a: i64, b: i64, c: i64) -> (r: i64)
    ensures
        r as int == imax3(a as int, b as int, c as int),
{
    if a >= b && a >= c {
        a
    } else if b >= c {
        b
    } else {
        c
    }
}

fn in_box(b: &Aabb, p: &Vec3) -> (r: bool)
    ensures
        r == in_box_s(*b, *p),
{
    b.lo.x <= p.x && p.x <= b.hi.x && b.lo.y <= p.y && p.y <= b.hi.y && b.lo.z <= p.z && p.z
        <= b.hi.z
}

/// A ray parallel to the triangle's plane (determinant below the epsilon,
/// here including the exactly-parallel determinant 0) is never reported as
/// a hit.
pub proof fn lemma_parallel_ray_misses(tri: Triangle, r: Ray, itv: Interval)
    requires
        vdot_s(
            vsub_s(tri.v1.pos, tri.v0.pos),
            vcross_s(r.direction, vsub_s(tri.v2.pos, tri.v0.pos)),
        ) < TRI_DET_EPS as int,
    ensures
        tri_hit_s(tri, r, itv) is None,
{
}

} // verus!
