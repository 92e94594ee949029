//! Randomness for the stochastic sampling steps.
//!
//! Every random draw enters through `rand::random`; each helper here turns the
//! raw bits into a bounded fixed-point value in verified code, and states only
//! what holds of every outcome.
use vstd::prelude::*;
use crate::fixed::{fadd_s, fmul_s, SCALE};
use crate::vec3::{Vec3, Vec2};

verus! {

/// Relies on rand::random: a fresh draw from the thread-local generator.
/// Nothing can be promised of the value.
pub assume_specification<T>[ rand::random::<T> ]() -> (r: T)
    where
        rand::distributions::Standard: rand::distributions::Distribution<T>,
;

/// A uniformly distributed scalar in [0, 1).
pub fn rand_unit() -> (r: i64)
    ensures
        0 <= r < SCALE,
{
    let bits: u64 = rand::random::<u64>();
    (bits % (SCALE as u64)) as i64
}

/// A uniformly distributed scalar in [-1, 1].
pub fn rand_symmetric() -> (r: i64)
    ensures
        -SCALE <= r <= SCALE,
{
    let bits: u64 = rand::random::<u64>();
    (bits % (2 * SCALE as u64 + 1)) as i64 - SCALE
}

/// A uniformly distributed scalar in [-1/2, 1/2]: the sub-pixel jitter.
pub fn rand_half_centered() -> (r: i64)
    ensures
        -SCALE / 2 <= r <= SCALE / 2,
{
    let bits: u64 = rand::random::<u64>();
    (bits % (SCALE as u64 + 1)) as i64 - SCALE / 2
}

/// A fair coin.
pub fn rand_flip() -> bool {
    rand::random::<bool>()
}

/// A uniformly distributed index below `n`.
pub fn rand_index(n: usize) -> (r: usize)
    requires
        n >= 1,
    ensures
        r < n,
{
    let bits: u64 = rand::random::<u64>();
    (bits % (n as u64)) as usize
}

/// A point on the closed unit disk, by bounded rejection sampling; if every
/// try lands outside the disk, the center is the safe fallback.
pub fn random_in_unit_disk() -> (p: Vec2)
    ensures
        fadd_s(fmul_s(p.x as int, p.x as int), fmul_s(p.y as int, p.y as int)) <= SCALE as int,
        -SCALE <= p.x <= SCALE && -SCALE <= p.y <= SCALE,
{
    let mut tries: u32 = 0;
    while tries < 16
        decreases 16 - tries,
    {
        let x: i64 = rand_symmetric();
        let y: i64 = rand_symmetric();
        let d2: i64 = crate::fixed::fp_add(crate::fixed::fp_mul(x, x), crate::fixed::fp_mul(y, y));
        if d2 <= SCALE {
            return Vec2 { x, y };
        }
        tries = tries + 1;
    }
    Vec2 { x: 0, y: 0 }
}

/// A direction of roughly unit length, uniformly oriented; the fallback when
/// every rejection try fails is the z axis.
pub fn random_unit_vector() -> (v: Vec3)
    ensures
        -SCALE <= v.x <= SCALE && -SCALE <= v.y <= SCALE && -SCALE <= v.z <= SCALE,
{
    let d: Vec2 = random_in_unit_disk();
    let z2: i64 = crate::fixed::fp_sub(
        SCALE,
        crate::fixed::fp_add(crate::fixed::fp_mul(d.x, d.x), crate::fixed::fp_mul(d.y, d.y)),
    );
    let z: i64 = crate::fixed::fp_sqrt(z2);
    proof {
        crate::fixed::lemma_fmul_sq_nonneg(d.x as int);
        crate::fixed::lemma_fmul_sq_nonneg(d.y as int);
        lemma_unit_components(d.x as int, d.y as int, z2 as int, z as int);
    }
    let zs: i64 = if rand_flip() {
        z
    } else {
        -z
    };
    Vec3 { x: d.x, y: d.y, z: zs }
}

/// The square root of a quantity at most 1 is at most 1.
proof fn lemma_unit_components(x: int, y: int, z2: int, z: int)
    requires
        -SCALE <= x <= SCALE,
        -SCALE <= y <= SCALE,
        z2 <= SCALE,
        z == crate::fixed::fsqrt_s(z2),
    ensures
        0 <= z <= SCALE,
{
    if z2 > 0 {
        let n = z2 * (SCALE as int);
        crate::fixed::lemma_sqrti_props(n);
        let c = crate::fixed::sqrti(n);
        if c > SCALE as int {
            assert((SCALE as int + 1) * (SCALE as int + 1) <= c * c) by (nonlinear_arith)
                requires
                    SCALE as int + 1 <= c,
            ;
        }
    }
}

} // verus!
