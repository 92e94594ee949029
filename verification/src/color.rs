//! Linear RGB radiance values in Q16.16 fixed point, and the tone mapping
//! that turns an accumulated pixel into an output byte triple.
use vstd::prelude::*;
use vstd::arithmetic::div_mod::lemma_div_is_ordered;
use crate::fixed::{
    fadd_s, fmul_s, clamp_s, sqrti, fp_add, fp_mul, fp_clamp, lemma_sqrti_is, lemma_mul_abs_bound,
    SCALE,
};

verus! {

/// A linear RGB color; components are Q16.16 scalars, 0 = black, SCALE = 1.0.
#[derive(Clone, Copy, Debug, PartialEq, Eq, Structural)]
pub struct Color {
    pub r: i64,
    pub g: i64,
    pub b: i64,
}

pub open spec fn cadd_s(a: Color, b: Color) -> Color {
    Color {
        r: fadd_s(a.r as int, b.r as int) as i64,
        g: fadd_s(a.g as int, b.g as int) as i64,
        b: fadd_s(a.b as int, b.b as int) as i64,
    }
}

/// Componentwise (filter) multiplication: attenuation along a path.
pub open spec fn cmul_s(a: Color, b: Color) -> Color {
    Color {
        r: fmul_s(a.r as int, b.r as int) as i64,
        g: fmul_s(a.g as int, b.g as int) as i64,
        b: fmul_s(a.b as int, b.b as int) as i64,
    }
}

pub open spec fn cscale_s(a: Color, s: int) -> Color {
    Color {
        r: fmul_s(a.r as int, s) as i64,
        g: fmul_s(a.g as int, s) as i64,
        b: fmul_s(a.b as int, s) as i64,
    }
}

/// Componentwise clamp into [0, 1]: the per-sample safety net.
pub open spec fn cclamp_s(a: Color) -> Color {
    Color {
        r: clamp_s(a.r as int, 0, SCALE as int) as i64,
        g: clamp_s(a.g as int, 0, SCALE as int) as i64,
        b: clamp_s(a.b as int, 0, SCALE as int) as i64,
    }
}

pub open spec fn white_s() -> Color {
    Color { r: SCALE, g: SCALE, b: SCALE }
}

pub open spec fn black_s() -> Color {
    Color { r: 0, g: 0, b: 0 }
}

/// One output channel: average over the sample count, clamp to [0, 1],
/// gamma-correct by square root, and quantize to 0..=255.
pub open spec fn output_level_s(x: int, n: int) -> int
    recommends
        x >= 0,
        n >= 1,
{
    let avg = x / n;
    let lin = if avg > SCALE as int {
        SCALE as int
    } else {
        avg
    };
    (sqrti(lin * (SCALE as int)) * 255) / (SCALE as int)
}

impl Color {
    pub fn new(r: i64, g: i64, b: i64) -> (c: Color)
        ensures
            c == (Color { r, g, b }),
    {
        Color { r, g, b }
    }

    pub fn white() -> (c: Color)
        ensures
            c == white_s(),
    {
        Color { r: SCALE, g: SCALE, b: SCALE }
    }

    pub fn black() -> (c: Color)
        ensures
            c == black_s(),
    {
        Color { r: 0, g: 0, b: 0 }
    }

    pub fn add(&self, o: &Color) -> (c: Color)
        ensures
            c == cadd_s(*self, *o),
    {
        Color { r: fp_add(self.r, o.r), g: fp_add(self.g, o.g), b: fp_add(self.b, o.b) }
    }

    pub fn mul(&self, o: &Color) -> (c: Color)
        ensures
            c == cmul_s(*self, *o),
    {
        Color { r: fp_mul(self.r, o.r), g: fp_mul(self.g, o.g), b: fp_mul(self.b, o.b) }
    }

    pub fn scale(&self, s: i64) -> (c: Color)
        ensures
            c == cscale_s(*self, s as int),
    {
        Color { r: fp_mul(self.r, s), g: fp_mul(self.g, s), b: fp_mul(self.b, s) }
    }

    /// The per-sample safety net: negative or oversized components are pinned
    /// into [0, 1] before accumulation.
    pub fn clamp(&self) -> (c: Color)
        ensures
            c == cclamp_s(*self),
            0 <= c.r <= SCALE && 0 <= c.g <= SCALE && 0 <= c.b <= SCALE,
    {
        Color {
            r: fp_clamp(self.r, 0, SCALE),
            g: fp_clamp(self.g, 0, SCALE),
            b: fp_clamp(self.b, 0, SCALE),
        }
    }

    /// Tone-map an accumulated pixel: average by the sample count, gamma
    /// correct (square root), and quantize each channel to a byte.
    pub fn to_output_array(&self, num_samples: i32) -> (out: [u8; 3])
        requires
            self.r >= 0 && self.g >= 0 && self.b >= 0,
            num_samples >= 1,
        ensures
            out[0] as int == output_level_s(self.r as int, num_samples as int),
            out[1] as int == output_level_s(self.g as int, num_samples as int),
            out[2] as int == output_level_s(self.b as int, num_samples as int),
    {
        [
            output_level(self.r, num_samples),
            output_level(self.g, num_samples),
            output_level(self.b, num_samples),
        ]
    }
}

/// One tone-mapped channel; see `output_level_s`.
fn output_level(x: i64, n: i32) -> (out: u8)
    requires
        x >= 0,
        n >= 1,
    ensures
        out as int == output_level_s(x as int, n as int),
{
    let avg: u64 = (x as u64) / (n as u64);
    let lin: u64 = if avg > SCALE as u64 {
        SCALE as u64
    } else {
        avg
    };
    let g: u64 = crate::fixed::isqrt64(lin * (SCALE as u64));
    proof {
        lemma_sqrti_is((lin * (SCALE as u64)) as int, g as int);
        if g as int > SCALE as int {
            lemma_mul_abs_bound(SCALE as int + 1, SCALE as int + 1, g as int, g as int);
        }
        lemma_div_is_ordered((g * 255) as int, 65536int * 255, SCALE as int);
    }
    ((g * 255) / (SCALE as u64)) as u8
}

} // verus!
