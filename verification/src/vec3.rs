//! Three- and two-component fixed-point vectors.
//!
//! Every operation has a spec mirror built from the exact fixed-point scalar
//! specs, and each executable method is proved equal to its mirror.
use vstd::prelude::*;
use crate::fixed::{
    fadd_s, fsub_s, fneg_s, fmul_s, fdiv_s, fsqrt_s, fp_add, fp_sub, fp_neg, fp_mul, fp_div,
    fp_sqrt,
};

verus! {

/// A point or direction in space; components are Q16.16 scalars.
#[derive(Clone, Copy, Debug, PartialEq, Eq, Structural)]
pub struct Vec3 {
    pub x: i64,
    pub y: i64,
    pub z: i64,
}

/// A texture coordinate; components are Q16.16 scalars.
#[derive(Clone, Copy, Debug, PartialEq, Eq, Structural)]
pub struct Vec2 {
    pub x: i64,
    pub y: i64,
}

pub open spec fn vadd_s(a: Vec3, b: Vec3) -> Vec3 {
    Vec3 {
        x: fadd_s(a.x as int, b.x as int) as i64,
        y: fadd_s(a.y as int, b.y as int) as i64,
        z: fadd_s(a.z as int, b.z as int) as i64,
    }
}

pub open spec fn vsub_s(a: Vec3, b: Vec3) -> Vec3 {
    Vec3 {
        x: fsub_s(a.x as int, b.x as int) as i64,
        y: fsub_s(a.y as int, b.y as int) as i64,
        z: fsub_s(a.z as int, b.z as int) as i64,
    }
}

pub open spec fn vneg_s(a: Vec3) -> Vec3 {
    Vec3 {
        x: fneg_s(a.x as int) as i64,
        y: fneg_s(a.y as int) as i64,
        z: fneg_s(a.z as int) as i64,
    }
}

pub open spec fn vscale_s(a: Vec3, s: int) -> Vec3 {
    Vec3 {
        x: fmul_s(a.x as int, s) as i64,
        y: fmul_s(a.y as int, s) as i64,
        z: fmul_s(a.z as int, s) as i64,
    }
}

pub open spec fn vdot_s(a: Vec3, b: Vec3) -> int {
    fadd_s(
        fadd_s(fmul_s(a.x as int, b.x as int), fmul_s(a.y as int, b.y as int)),
        fmul_s(a.z as int, b.z as int),
    )
}

pub open spec fn vcross_s(a: Vec3, b: Vec3) -> Vec3 {
    Vec3 {
        x: fsub_s(fmul_s(a.y as int, b.z as int), fmul_s(a.z as int, b.y as int)) as i64,
        y: fsub_s(fmul_s(a.z as int, b.x as int), fmul_s(a.x as int, b.z as int)) as i64,
        z: fsub_s(fmul_s(a.x as int, b.y as int), fmul_s(a.y as int, b.x as int)) as i64,
    }
}

pub open spec fn vlen_s(a: Vec3) -> int {
    fsqrt_s(vdot_s(a, a))
}

/// Componentwise division by a scalar; a zero divisor maps to zero.
pub open spec fn vdivs_s(a: Vec3, s: int) -> Vec3 {
    Vec3 {
        x: fdiv_s(a.x as int, s) as i64,
        y: fdiv_s(a.y as int, s) as i64,
        z: fdiv_s(a.z as int, s) as i64,
    }
}

/// Normalization; a degenerate (zero-length) vector maps to the zero vector.
pub open spec fn vunit_s(a: Vec3) -> Vec3 {
    let l = vlen_s(a);
    Vec3 {
        x: fdiv_s(a.x as int, l) as i64,
        y: fdiv_s(a.y as int, l) as i64,
        z: fdiv_s(a.z as int, l) as i64,
    }
}

impl Vec3 {
    pub fn new(x: i64, y: i64, z: i64) -> (r: Vec3)
        ensures
            r == (Vec3 { x, y, z }),
    {
        Vec3 { x, y, z }
    }

    pub fn add(&self, o: &Vec3) -> (r: Vec3)
        ensures
            r == vadd_s(*self, *o),
    {
        Vec3 { x: fp_add(self.x, o.x), y: fp_add(self.y, o.y), z: fp_add(self.z, o.z) }
    }

    pub fn sub(&self, o: &Vec3) -> (r: Vec3)
        ensures
            r == vsub_s(*self, *o),
    {
        Vec3 { x: fp_sub(self.x, o.x), y: fp_sub(self.y, o.y), z: fp_sub(self.z, o.z) }
    }

    pub fn neg(&self) -> (r: Vec3)
        ensures
            r == vneg_s(*self),
    {
        Vec3 { x: fp_neg(self.x), y: fp_neg(self.y), z: fp_neg(self.z) }
    }

    pub fn scale(&self, s: i64) -> (r: Vec3)
        ensures
            r == vscale_s(*self, s as int),
    {
        Vec3 { x: fp_mul(self.x, s), y: fp_mul(self.y, s), z: fp_mul(self.z, s) }
    }

    pub fn dot(&self, o: &Vec3) -> (r: i64)
        ensures
            r as int == vdot_s(*self, *o),
    {
        fp_add(fp_add(fp_mul(self.x, o.x), fp_mul(self.y, o.y)), fp_mul(self.z, o.z))
    }

    pub fn cross(&self, o: &Vec3) -> (r: Vec3)
        ensures
            r == vcross_s(*self, *o),
    {
        Vec3 {
            x: fp_sub(fp_mul(self.y, o.z), fp_mul(self.z, o.y)),
            y: fp_sub(fp_mul(self.z, o.x), fp_mul(self.x, o.z)),
            z: fp_sub(fp_mul(self.x, o.y), fp_mul(self.y, o.x)),
        }
    }

    pub fn length_squared(&self) -> (r: i64)
        ensures
            r as int == vdot_s(*self, *self),
    {
        self.dot(self)
    }

    pub fn length(&self) -> (r: i64)
        ensures
            r as int == vlen_s(*self),
    {
        fp_sqrt(self.length_squared())
    }

    pub fn div_scalar(&self, s: i64) -> (r: Vec3)
        ensures
            r == vdivs_s(*self, s as int),
    {
        Vec3 { x: fp_div(self.x, s), y: fp_div(self.y, s), z: fp_div(self.z, s) }
    }

    pub fn unit(&self) -> (r: Vec3)
        ensures
            r == vunit_s(*self),
    {
        let l: i64 = self.length();
        Vec3 { x: fp_div(self.x, l), y: fp_div(self.y, l), z: fp_div(self.z, l) }
    }
}

pub open spec fn v2add_s(a: Vec2, b: Vec2) -> Vec2 {
    Vec2 { x: fadd_s(a.x as int, b.x as int) as i64, y: fadd_s(a.y as int, b.y as int) as i64 }
}

pub open spec fn v2scale_s(a: Vec2, s: int) -> Vec2 {
    Vec2 { x: fmul_s(a.x as int, s) as i64, y: fmul_s(a.y as int, s) as i64 }
}

impl Vec2 {
    pub fn new(x: i64, y: i64) -> (r: Vec2)
        ensures
            r == (Vec2 { x, y }),
    {
        Vec2 { x, y }
    }

    pub fn add(&self, o: &Vec2) -> (r: Vec2)
        ensures
            r == v2add_s(*self, *o),
    {
        Vec2 { x: fp_add(self.x, o.x), y: fp_add(self.y, o.y) }
    }

    pub fn scale(&self, s: i64) -> (r: Vec2)
        ensures
            r == v2scale_s(*self, s as int),
    {
        Vec2 { x: fp_mul(self.x, s), y: fp_mul(self.y, s) }
    }

}

} // verus!
