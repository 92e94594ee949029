//! Q16.16 fixed-point scalar arithmetic.
//!
//! A scalar is an `i64` holding `value * SCALE`. Every operation saturates at
//! `FP_LIM` instead of overflowing: a single degenerate sample must never
//! abort a render, so out-of-range intermediates are pinned to a safe value.
//! Each executable operation is proved equal to its spec mirror.
use vstd::prelude::*;
use vstd::arithmetic::div_mod::{lemma_div_is_ordered, lemma_div_pos_is_pos};
use vstd::arithmetic::mul::lemma_mul_inequality;
use vstd::math::abs;

verus! {

/// One whole unit: scalars hold `value * SCALE`.
pub const SCALE: i64 = 65536;

/// Magnitude at which every fixed-point operation saturates.
pub const FP_LIM: i64 = 0x4000_0000_0000_0000;

/// Largest input `fp_sqrt` takes before clamping (keeps `x * SCALE` in `u64`).
pub const SQRT_IN_LIM: i64 = 0x4000_0000_0000;

/// pi in Q16.16.
pub const PI_FP: i64 = 205887;

/// 2 pi in Q16.16.
pub const TWO_PI_FP: i64 = 411775;

/// One half in Q16.16.
pub const HALF_FP: i64 = 32768;

/// Saturation: pin a mathematical result into `[-FP_LIM, FP_LIM]`.
pub open spec fn sat_s(x: int) -> int {
    if x > FP_LIM as int {
        FP_LIM as int
    } else if x < -(FP_LIM as int) {
        -(FP_LIM as int)
    } else {
        x
    }
}

/// Division truncated toward zero (the quotient of the magnitudes, signed).
pub open spec fn tdiv_s(p: int, q: int) -> int
    recommends
        q != 0,
{
    let m = abs(p) as int / abs(q) as int;
    if (p < 0) != (q < 0) {
        -m
    } else {
        m
    }
}

/// Saturating fixed-point addition.
pub open spec fn fadd_s(a: int, b: int) -> int {
    sat_s(a + b)
}

/// Saturating fixed-point subtraction.
pub open spec fn fsub_s(a: int, b: int) -> int {
    sat_s(a - b)
}

/// Saturating fixed-point negation.
pub open spec fn fneg_s(a: int) -> int {
    sat_s(-a)
}

/// Saturating fixed-point multiplication: `a * b / SCALE`, truncated.
pub open spec fn fmul_s(a: int, b: int) -> int {
    sat_s(tdiv_s(a * b, SCALE as int))
}

/// Saturating fixed-point division: `a * SCALE / b`, truncated; 0 when b = 0.
pub open spec fn fdiv_s(a: int, b: int) -> int {
    if b == 0 {
        0
    } else {
        sat_s(tdiv_s(a * (SCALE as int), b))
    }
}

/// The integer square root: the unique r >= 0 with r^2 <= n < (r+1)^2.
pub open spec fn sqrti(n: int) -> int
    recommends
        n >= 0,
{
    choose|r: int| 0 <= r && #[trigger] (r * r) <= n && (r + 1) * (r + 1) > n
}

/// Fixed-point square root: sqrt(x/SCALE) * SCALE = sqrti(x * SCALE);
/// nonpositive inputs give 0, oversized inputs are clamped first.
pub open spec fn fsqrt_s(x: int) -> int {
    if x <= 0 {
        0
    } else if x > SQRT_IN_LIM as int {
        sqrti((SQRT_IN_LIM as int) * (SCALE as int))
    } else {
        sqrti(x * (SCALE as int))
    }
}

/// Bounds on both factors bound the product.
pub proof fn lemma_mul_abs_bound(a: int, b: int, ma: int, mb: int)
    requires
        -ma <= a <= ma,
        -mb <= b <= mb,
    ensures
        -(ma * mb) <= a * b <= ma * mb,
{
    assert(-(ma * mb) <= a * b <= ma * mb) by (nonlinear_arith)
        requires
            -ma <= a <= ma && -mb <= b <= mb,
    ;
}

/// The integer square root is unique, so any witness pins `sqrti` down.
pub proof fn lemma_sqrti_is(n: int, r: int)
    requires
        0 <= n,
        0 <= r,
        r * r <= n,
        (r + 1) * (r + 1) > n,
    ensures
        sqrti(n) == r,
{
    assert(exists|w: int| 0 <= w && #[trigger] (w * w) <= n && (w + 1) * (w + 1) > n) by {
        assert(0 <= r && r * r <= n && (r + 1) * (r + 1) > n);
    }
    let c = sqrti(n);
    assert(0 <= c && c * c <= n && (c + 1) * (c + 1) > n);
    if c < r {
        assert((c + 1) * (c + 1) <= r * r) by (nonlinear_arith)
            requires
                0 <= c,
                c + 1 <= r,
        ;
    }
    if c > r {
        assert((r + 1) * (r + 1) <= c * c) by (nonlinear_arith)
            requires
                0 <= r,
                r + 1 <= c,
        ;
    }
}

/// Every nonnegative integer has an integer square root.
pub proof fn lemma_sqrti_exists(n: int)
    requires
        n >= 0,
    ensures
        exists|w: int| 0 <= w && #[trigger] (w * w) <= n && (w + 1) * (w + 1) > n,
    decreases n,
{
    if n == 0 {
        assert(0 <= 0 && 0int * 0int <= n && (0int + 1) * (0int + 1) > n);
    } else {
        lemma_sqrti_exists(n - 1);
        let w = choose|w: int| 0 <= w && #[trigger] (w * w) <= n - 1 && (w + 1) * (w + 1) > n - 1;
        if (w + 1) * (w + 1) <= n {
            assert((w + 2) * (w + 2) > n) by (nonlinear_arith)
                requires
                    (w + 1) * (w + 1) == n && w >= 0,
            ;
            assert(0 <= w + 1 && (w + 1) * (w + 1) <= n && ((w + 1) + 1) * ((w + 1) + 1) > n);
        } else {
            assert(0 <= w && w * w <= n && (w + 1) * (w + 1) > n);
        }
    }
}

/// The defining properties of `sqrti`.
pub proof fn lemma_sqrti_props(n: int)
    requires
        n >= 0,
    ensures
        0 <= sqrti(n),
        sqrti(n) * sqrti(n) <= n,
        (sqrti(n) + 1) * (sqrti(n) + 1) > n,
{
    lemma_sqrti_exists(n);
}

/// A fixed-point square is nonnegative.
pub proof fn lemma_fmul_sq_nonneg(a: int)
    ensures
        fmul_s(a, a) >= 0,
{
    assert(a * a >= 0) by (nonlinear_arith);
    lemma_div_pos_is_pos(abs(a * a) as int, SCALE as int);
}

/// Truncated division by a positive divisor is monotone in the dividend.
pub proof fn lemma_tdiv_mono(p1: int, p2: int, q: int)
    requires
        p1 <= p2,
        q > 0,
    ensures
        tdiv_s(p1, q) <= tdiv_s(p2, q),
{
    if 0 <= p1 {
        lemma_div_is_ordered(p1, p2, q);
    } else if p2 < 0 {
        lemma_div_is_ordered(-p2, -p1, q);
    } else {
        lemma_div_pos_is_pos(-p1, q);
        lemma_div_pos_is_pos(p2, q);
    }
}

/// Scaling by a nonnegative factor is monotone.
pub proof fn lemma_fmul_mono(t1: int, t2: int, d: int)
    requires
        t1 <= t2,
        d >= 0,
    ensures
        fmul_s(t1, d) <= fmul_s(t2, d),
{
    lemma_mul_inequality(t1, t2, d);
    lemma_tdiv_mono(t1 * d, t2 * d, SCALE as int);
}

/// Scaling by a nonpositive factor reverses order.
pub proof fn lemma_fmul_antimono(t1: int, t2: int, d: int)
    requires
        t1 <= t2,
        d <= 0,
    ensures
        fmul_s(t1, d) >= fmul_s(t2, d),
{
    lemma_mul_inequality(t1, t2, -d);
    lemma_tdiv_mono(t1 * -d, t2 * -d, SCALE as int);
    assert(t1 * -d == -(t1 * d)) by (nonlinear_arith);
    assert(t2 * -d == -(t2 * d)) by (nonlinear_arith);
}

/// Saturating fixed-point addition.
pub fn fp_add(a: i64, b: i64) -> (r: i64)
    ensures
        r as int == fadd_s(a as int, b as int),
{
    let s: i128 = a as i128 + b as i128;
    let lim: i128 = FP_LIM as i128;
    if s > lim {
        FP_LIM
    } else if s < -lim {
        -FP_LIM
    } else {
        s as i64
    }
}

/// Saturating fixed-point subtraction.
pub fn fp_sub(a: i64, b: i64) -> (r: i64)
    ensures
        r as int == fsub_s(a as int, b as int),
{
    let s: i128 = a as i128 - b as i128;
    let lim: i128 = FP_LIM as i128;
    if s > lim {
        FP_LIM
    } else if s < -lim {
        -FP_LIM
    } else {
        s as i64
    }
}

/// Saturating fixed-point negation.
pub fn fp_neg(a: i64) -> (r: i64)
    ensures
        r as int == fneg_s(a as int),
{
    if a >= FP_LIM {
        -FP_LIM
    } else if a <= -FP_LIM {
        FP_LIM
    } else {
        -a
    }
}

/// Clamp a signed saturated value back into `i64` range with its sign.
fn signed_sat(neg: bool, m: u128) -> (r: i64)
    ensures
        r as int == sat_s(if neg { -(m as int) } else { m as int }),
{
    let lim: u128 = FP_LIM as u128;
    if m > lim {
        if neg {
            -FP_LIM
        } else {
            FP_LIM
        }
    } else {
        if neg {
            -((m as i128) as i64)
        } else {
            (m as i128) as i64
        }
    }
}

/// Saturating fixed-point multiplication.
pub fn fp_mul(a: i64, b: i64) -> (r: i64)
    ensures
        r as int == fmul_s(a as int, b as int),
{
    proof {
        lemma_mul_abs_bound(a as int, b as int, 0x8000_0000_0000_0000, 0x8000_0000_0000_0000);
    }
    let p: i128 = (a as i128) * (b as i128);
    let neg: bool = p < 0;
    let m: u128 = if neg {
        (-p) as u128
    } else {
        p as u128
    };
    let q: u128 = m / (SCALE as u128);
    proof {
        assert(m as int == abs(p as int));
        assert(q as int == tdiv_s(p as int, SCALE as int) || -(q as int) == tdiv_s(
            p as int,
            SCALE as int,
        ));
    }
    signed_sat(neg && q > 0, q)
}

/// Saturating fixed-point division; division by zero yields 0.
pub fn fp_div(a: i64, b: i64) -> (r: i64)
    ensures
        r as int == fdiv_s(a as int, b as int),
{
    if b == 0 {
        return 0;
    }
    proof {
        lemma_mul_abs_bound(a as int, SCALE as int, 0x8000_0000_0000_0000, 0x1_0000);
    }
    let p: i128 = (a as i128) * (SCALE as i128);
    let pneg: bool = p < 0;
    let mp: u128 = if pneg {
        (-p) as u128
    } else {
        p as u128
    };
    let mb: u128 = if b < 0 {
        (-(b as i128)) as u128
    } else {
        b as u128
    };
    let q: u128 = mp / mb;
    proof {
        assert(mp as int == abs(p as int));
        assert(mb as int == abs(b as int));
    }
    signed_sat((pneg != (b < 0)) && q > 0, q)
}

/// Integer square root of a `u64` by binary search.
pub fn isqrt64(n: u64) -> (r: u64)
    ensures
        (r as int) * (r as int) <= n as int,
        (r as int + 1) * (r as int + 1) > n as int,
        r <= 0x1_0000_0000,
{
    let mut lo: u64 = 0;
    let mut hi: u64 = 0x1_0000_0000;
    proof {
        assert(0x1_0000_0000int * 0x1_0000_0000int > n as int);
    }
    while lo + 1 < hi
        invariant
            lo < hi <= 0x1_0000_0000,
            (lo as int) * (lo as int) <= n as int,
            (hi as int) * (hi as int) > n as int,
        decreases hi - lo,
    {
        let mid: u64 = lo + (hi - lo) / 2;
        proof {
            lemma_mul_abs_bound(mid as int, mid as int, 0x1_0000_0000, 0x1_0000_0000);
        }
        if (mid as u128) * (mid as u128) <= n as u128 {
            lo = mid;
        } else {
            hi = mid;
        }
    }
    lo
}

/// Saturating fixed-point square root.
pub fn fp_sqrt(x: i64) -> (r: i64)
    ensures
        r as int == fsqrt_s(x as int),
{
    if x <= 0 {
        return 0;
    }
    let xc: i64 = if x > SQRT_IN_LIM {
        SQRT_IN_LIM
    } else {
        x
    };
    proof {
        lemma_mul_abs_bound(xc as int, SCALE as int, SQRT_IN_LIM as int, 0x1_0000);
    }
    let n: u64 = (xc as u64) * (SCALE as u64);
    let r: u64 = isqrt64(n);
    proof {
        lemma_sqrti_is(n as int, r as int);
    }
    r as i64
}

/// Clamp a scalar into `[lo, hi]`.
pub open spec fn clamp_s(x: int, lo: int, hi: int) -> int
    recommends
        lo <= hi,
{
    if x < lo {
        lo
    } else if x > hi {
        hi
    } else {
        x
    }
}

/// Clamp a scalar into `[lo, hi]`.
pub fn fp_clamp(x: i64, lo: i64, hi: i64) -> (r: i64)
    requires
        lo <= hi,
    ensures
        r as int == clamp_s(x as int, lo as int, hi as int),
{
    if x < lo {
        lo
    } else if x > hi {
        hi
    } else {
        x
    }
}

} // verus!
