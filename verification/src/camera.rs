//! The camera and its per-pixel Monte Carlo integrator.
//!
//! Construction derives the whole viewport geometry once, deterministically;
//! per pixel, jittered primary rays drive the depth-bounded recursive
//! radiance estimator, whose samples are clamped and averaged.
use vstd::prelude::*;
use crate::bvh::{Bvh, bvh_prims_s, bvh_wf_s};
use crate::color::{Color, cclamp_s, output_level_s, white_s};
use crate::fixed::{
    clamp_s, fadd_s, fdiv_s, fmul_s, sat_s, tdiv_s, fp_add, fp_div, SCALE,
};
use crate::hittable::{HittableList, closest_hit_s};
use crate::interval::Interval;
use crate::pdf::{HittablePdf, MixturePdf};
use crate::ray::Ray;
use crate::rng::{rand_half_centered, random_in_unit_disk};
use crate::vec3::{
    Vec2, Vec3, vadd_s, vcross_s, vdivs_s, vneg_s, vscale_s, vsub_s, vunit_s,
};

verus! {

/// tan(20 degrees) in Q16.16: the vertical field of view is fixed at 40.
pub const TAN_HALF_FOV: i64 = 23856;

/// The fixed focus distance, 3.46, in Q16.16.
pub const FOCUS_DISTANCE_FP: i64 = 226755;

/// The near end of every scene query window: 0.001 in Q16.16.
pub const T_MIN_FP: i64 = 66;

/// The far end of every scene query window.
pub const T_MAX_FP: i64 = 0x1_0000_0000_0000;

/// Most rows or columns an image can have; height is clamped into range.
pub const MAX_DIM: i64 = 1048576;

/// Most samples a pixel may accumulate (keeps the accumulator exact).
pub const MAX_SAMPLES: i32 = 1048576;

pub struct Camera {
    pub aspect_ratio: i64,
    pub image_width: i32,
    pub image_height: i32,
    pub center: Vec3,
    pub pixel00_loc: Vec3,
    pub pixel_delta_u: Vec3,
    pub pixel_delta_v: Vec3,
    pub num_samples: i32,
    pub max_depth: u32,
    pub look_from: Vec3,
    pub look_at: Vec3,
    pub up: Vec3,
    pub u: Vec3,
    pub v: Vec3,
    pub w: Vec3,
    pub defocus_disk_u: Vec3,
    pub defocus_disk_v: Vec3,
    pub defocus_angle: i64,
    pub focus_distance: i64,
    pub background_color: Color,
}

/// An integer pixel count as a fixed-point scalar.
pub open spec fn i2fp_s(n: int) -> int {
    sat_s(n * (SCALE as int))
}

/// Image height: width over aspect ratio, clamped into [1, MAX_DIM];
/// a nonpositive aspect ratio degenerates to height 1.
pub open spec fn image_height_s(width: int, aspect: int) -> int {
    if aspect <= 0 {
        1
    } else {
        clamp_s(tdiv_s(width * (SCALE as int), aspect), 1, MAX_DIM as int)
    }
}

/// The camera basis: w points from the target back toward the eye.
pub open spec fn cam_w_s(look_from: Vec3, look_at: Vec3) -> Vec3 {
    vunit_s(vsub_s(look_from, look_at))
}

pub open spec fn cam_u_s(up: Vec3, look_from: Vec3, look_at: Vec3) -> Vec3 {
    vunit_s(vcross_s(up, cam_w_s(look_from, look_at)))
}

pub open spec fn cam_v_s(up: Vec3, look_from: Vec3, look_at: Vec3) -> Vec3 {
    vcross_s(cam_w_s(look_from, look_at), cam_u_s(up, look_from, look_at))
}

/// Viewport height: 2 tan(fov/2) times the focus distance.
pub open spec fn viewport_height_s() -> int {
    fmul_s(fadd_s(TAN_HALF_FOV as int, TAN_HALF_FOV as int), FOCUS_DISTANCE_FP as int)
}

pub open spec fn viewport_width_s(width: int, height: int) -> int {
    fmul_s(viewport_height_s(), fdiv_s(i2fp_s(width), i2fp_s(height)))
}

pub open spec fn viewport_u_s(up: Vec3, lf: Vec3, la: Vec3, width: int, height: int) -> Vec3 {
    vscale_s(cam_u_s(up, lf, la), viewport_width_s(width, height))
}

pub open spec fn viewport_v_s(up: Vec3, lf: Vec3, la: Vec3) -> Vec3 {
    vscale_s(vneg_s(cam_v_s(up, lf, la)), viewport_height_s())
}

pub open spec fn pixel_delta_u_s(up: Vec3, lf: Vec3, la: Vec3, width: int, height: int) -> Vec3 {
    vdivs_s(viewport_u_s(up, lf, la, width, height), i2fp_s(width))
}

pub open spec fn pixel_delta_v_s(up: Vec3, lf: Vec3, la: Vec3, width: int, height: int) -> Vec3 {
    vdivs_s(viewport_v_s(up, lf, la), i2fp_s(height))
}

/// The world-space location of pixel (0, 0).
pub open spec fn pixel00_s(up: Vec3, lf: Vec3, la: Vec3, width: int, height: int) -> Vec3 {
    let vu = viewport_u_s(up, lf, la, width, height);
    let vv = viewport_v_s(up, lf, la);
    let upper_left = vsub_s(
        vsub_s(
            vsub_s(lf, vscale_s(cam_w_s(lf, la), FOCUS_DISTANCE_FP as int)),
            vdivs_s(vu, 2 * SCALE as int),
        ),
        vdivs_s(vv, 2 * SCALE as int),
    );
    vadd_s(
        upper_left,
        vscale_s(
            vadd_s(
                pixel_delta_u_s(up, lf, la, width, height),
                pixel_delta_v_s(up, lf, la, width, height),
            ),
            (SCALE as int) / 2,
        ),
    )
}

/// What every outcome of the defocus-disk sample satisfies: the camera
/// center displaced along the disk basis by some point of the unit disk.
pub open spec fn defocus_sample_ok(cam: Camera, p: Vec3) -> bool {
    exists|d: Vec2|
        {
            &&& -SCALE <= d.x <= SCALE && -SCALE <= d.y <= SCALE
            &&& #[trigger] fadd_s(
                fmul_s(d.x as int, d.x as int),
                fmul_s(d.y as int, d.y as int),
            ) <= SCALE as int
            &&& p == vadd_s(
                vadd_s(cam.center, vscale_s(cam.defocus_disk_u, d.x as int)),
                vscale_s(cam.defocus_disk_v, d.y as int),
            )
        }
}

/// The accumulator a pixel reaches when every sample is the clamped
/// background color: an empty scene with a positive depth budget pins the
/// accumulation exactly.
pub open spec fn accumulated_background_s(cam: Camera) -> Color {
    Color {
        r: (cam.num_samples * (cclamp_s(cam.background_color).r as int)) as i64,
        g: (cam.num_samples * (cclamp_s(cam.background_color).g as int)) as i64,
        b: (cam.num_samples * (cclamp_s(cam.background_color).b as int)) as i64,
    }
}

/// What one delivered cell promises, given the accumulated color behind it:
/// the accumulation is a sum of clamped samples (so it stays in range and is
/// pinned exactly in the deterministic cases), and each channel of the cell
/// is its tone map.
pub open spec fn cell_from_s(cam: Camera, world: Bvh, c: Color, cell: [u8; 3]) -> bool {
    &&& 0 <= c.r <= cam.num_samples * SCALE
    &&& 0 <= c.g <= cam.num_samples * SCALE
    &&& 0 <= c.b <= cam.num_samples * SCALE
    &&& (cam.max_depth == 0 ==> c.r == cam.num_samples * SCALE && c.g == cam.num_samples * SCALE
        && c.b == cam.num_samples * SCALE)
    &&& (bvh_prims_s(world).len() == 0 && cam.max_depth > 0 ==> c == accumulated_background_s(
        cam,
    ))
    &&& cell[0] as int == output_level_s(c.r as int, cam.num_samples as int)
    &&& cell[1] as int == output_level_s(c.g as int, cam.num_samples as int)
    &&& cell[2] as int == output_level_s(c.b as int, cam.num_samples as int)
}

/// Every delivered cell is the tone map of some per-pixel accumulation of
/// clamped samples.
pub open spec fn cell_ok(cam: Camera, world: Bvh, cell: [u8; 3]) -> bool {
    exists|c: Color| #[trigger] cell_from_s(cam, world, c, cell)
}

/// The jittered sample point for pixel (i, j) with sub-pixel offsets.
pub open spec fn pixel_sample_s(cam: Camera, i: int, j: int, jx: int, jy: int) -> Vec3 {
    vadd_s(
        vadd_s(cam.pixel00_loc, vscale_s(cam.pixel_delta_u, fadd_s(i2fp_s(i), jx))),
        vscale_s(cam.pixel_delta_v, fadd_s(i2fp_s(j), jy)),
    )
}

impl Camera {
    /// Derive the full camera state from the configuration. Invalid aspect
    /// ratios are absorbed by clamping the image height; the defocus angle
    /// starts at zero (a pinhole camera).
    pub fn new(
        aspect: i64,
        width: i32,
        num_samples: i32,
        max_depth: u32,
        look_from: Vec3,
        look_at: Vec3,
        up: Vec3,
        bg: Color,
    ) -> (cam: Camera)
        requires
            1 <= width,
            1 <= num_samples <= MAX_SAMPLES,
        ensures
            cam.aspect_ratio == aspect,
            cam.image_width == width,
            cam.num_samples == num_samples,
            cam.max_depth == max_depth,
            cam.look_from == look_from,
            cam.look_at == look_at,
            cam.up == up,
            cam.background_color == bg,
            cam.defocus_angle == 0,
            cam.focus_distance == FOCUS_DISTANCE_FP,
            cam.center == look_from,
            cam.image_height as int == image_height_s(width as int, aspect as int),
            1 <= cam.image_height,
            cam.w == cam_w_s(look_from, look_at),
            cam.u == cam_u_s(up, look_from, look_at),
            cam.v == cam_v_s(up, look_from, look_at),
            cam.pixel_delta_u == pixel_delta_u_s(
                up,
                look_from,
                look_at,
                width as int,
                cam.image_height as int,
            ),
            cam.pixel_delta_v == pixel_delta_v_s(
                up,
                look_from,
                look_at,
                width as int,
                cam.image_height as int,
            ),
            cam.pixel00_loc == pixel00_s(
                up,
                look_from,
                look_at,
                width as int,
                cam.image_height as int,
            ),
            cam.defocus_disk_u == (Vec3 { x: 0, y: 0, z: 0 }),
            cam.defocus_disk_v == (Vec3 { x: 0, y: 0, z: 0 }),
    {
        let image_height: i32 = compute_image_height(width, aspect);
        let center: Vec3 = look_from;
        let w: Vec3 = look_from.sub(&look_at).unit();
        let u: Vec3 = up.cross(&w).unit();
        let v: Vec3 = w.cross(&u);
        let viewport_height: i64 = crate::fixed::fp_mul(
            fp_add(TAN_HALF_FOV, TAN_HALF_FOV),
            FOCUS_DISTANCE_FP,
        );
        let width_fp: i64 = int_to_fp(width);
        let height_fp: i64 = int_to_fp(image_height);
        let viewport_width: i64 = crate::fixed::fp_mul(
            viewport_height,
            fp_div(width_fp, height_fp),
        );
        let viewport_u: Vec3 = u.scale(viewport_width);
        let viewport_v: Vec3 = v.neg().scale(viewport_height);
        let pixel_delta_u: Vec3 = viewport_u.div_scalar(width_fp);
        let pixel_delta_v: Vec3 = viewport_v.div_scalar(height_fp);
        let upper_left: Vec3 = center.sub(&w.scale(FOCUS_DISTANCE_FP)).sub(
            &viewport_u.div_scalar(2 * SCALE),
        ).sub(&viewport_v.div_scalar(2 * SCALE));
        let pixel00_loc: Vec3 = upper_left.add(
            &pixel_delta_u.add(&pixel_delta_v).scale(SCALE / 2),
        );
        Camera {
            aspect_ratio: aspect,
            image_width: width,
            image_height,
            center,
            pixel00_loc,
            pixel_delta_u,
            pixel_delta_v,
            num_samples,
            max_depth,
            look_from,
            look_at,
            up,
            u,
            v,
            w,
            defocus_disk_u: Vec3 { x: 0, y: 0, z: 0 },
            defocus_disk_v: Vec3 { x: 0, y: 0, z: 0 },
            defocus_angle: 0,
            focus_distance: FOCUS_DISTANCE_FP,
            background_color: bg,
        }
    }

    /// A primary ray for pixel (i, j): the sample point is jittered within
    /// the pixel; with defocus disabled (angle <= 0, the pinhole camera) the
    /// ray always originates exactly at the center, whatever the random
    /// draws; otherwise the origin is jittered over the defocus disk.
    pub fn get_ray(&self, i: i32, j: i32) -> (r: Ray)
        ensures
            self.defocus_angle <= 0 ==> r.origin == self.center,
            self.defocus_angle > 0 ==> defocus_sample_ok(*self, r.origin),
            exists|a: i64, b: i64|
                -SCALE / 2 <= a <= SCALE / 2 && -SCALE / 2 <= b <= SCALE / 2 && r.direction
                    == vunit_s(
                    vsub_s(
                        #[trigger] pixel_sample_s(*self, i as int, j as int, a as int, b as int),
                        r.origin,
                    ),
                ),
    {
        let jx: i64 = rand_half_centered();
        let jy: i64 = rand_half_centered();
        let ifp: i64 = int_to_fp(i);
        let jfp: i64 = int_to_fp(j);
        let pixel_sample: Vec3 = self.pixel00_loc.add(
            &self.pixel_delta_u.scale(fp_add(ifp, jx)),
        ).add(&self.pixel_delta_v.scale(fp_add(jfp, jy)));
        let origin: Vec3 = if self.defocus_angle <= 0 {
            self.center
        } else {
            self.defocus_disk_sample()
        };
        let direction: Vec3 = pixel_sample.sub(&origin).unit();
        proof {
            assert(pixel_sample == pixel_sample_s(*self, i as int, j as int, jx as int, jy as int));
        }
        Ray { origin, direction }
    }

    /// A point on the defocus disk, scaled by the disk basis.
    fn defocus_disk_sample(&self) -> (p: Vec3)
        ensures
            defocus_sample_ok(*self, p),
    {
        let d: Vec2 = random_in_unit_disk();
        let p: Vec3 = self.center.add(&self.defocus_disk_u.scale(d.x)).add(
            &self.defocus_disk_v.scale(d.y),
        );
        proof {
            assert(fadd_s(
                fmul_s(d.x as int, d.x as int),
                fmul_s(d.y as int, d.y as int),
            ) <= SCALE as int);
            assert(p == vadd_s(
                vadd_s(self.center, vscale_s(self.defocus_disk_u, d.x as int)),
                vscale_s(self.defocus_disk_v, d.y as int),
            ));
        }
        p
    }

    /// The recursive radiance estimator.
    ///
    /// An exhausted depth budget returns the fixed white fallback at once,
    /// whatever the scene holds; a miss returns the background color; a hit
    /// on a non-scattering (emissive) material returns its emitted color.
    /// Otherwise the estimator recurses on the scattered ray: directly
    /// attenuated for materials without a density, and weighted by
    /// scattering density over mixture density for importance-sampled ones,
    /// where a degenerate (nonpositive) mixture density drops the sample to
    /// black instead of dividing.
    pub fn ray_color(&self, ray: &Ray, world: &Bvh, importants: &HittableList, depth: u32) -> (c:
        Color)
        requires
            bvh_wf_s(*world),
        ensures
            depth == 0 ==> c == white_s(),
            depth > 0 ==> match closest_hit_s(
                bvh_prims_s(*world),
                *ray,
                Interval { min: T_MIN_FP, max: T_MAX_FP },
            ) {
                None => c == self.background_color,
                Some(rec) => rec.material is DiffuseLight ==> c == crate::materials::emit_s(
                    rec.material,
                    rec,
                ),
            },
        decreases depth,
    {
        if depth == 0 {
            return Color::white();
        }
        let window: Interval = Interval { min: T_MIN_FP, max: T_MAX_FP };
        match world.hit(ray, &window) {
            None => self.background_color,
            Some(rec) => {
                match rec.material.scatter(ray, &rec) {
                    None => rec.material.emit_color(ray, &rec),
                    Some(mhr) => {
                        match mhr.pdf {
                            None => {
                                let inner: Color = self.ray_color(
                                    &mhr.ray,
                                    world,
                                    importants,
                                    depth - 1,
                                );
                                mhr.color.mul(&inner)
                            },
                            Some(cpdf) => {
                                let hpdf: HittablePdf = HittablePdf::new(rec.p, importants);
                                let mix: MixturePdf = MixturePdf::new(&hpdf, &cpdf);
                                let scattered: Ray = Ray { origin: rec.p, direction: mix.generate() };
                                let pdf_val: i64 = mix.value(&scattered.direction);
                                let spdf: i64 = rec.material.scattering_pdf(ray, &rec, &scattered);
                                if pdf_val <= 0 {
                                    Color::black()
                                } else {
                                    let inner: Color = self.ray_color(
                                        &scattered,
                                        world,
                                        importants,
                                        depth - 1,
                                    );
                                    mhr.color.mul(&inner).scale(fp_div(spdf, pdf_val))
                                }
                            },
                        }
                    },
                }
            },
        }
    }

    /// One pixel: `num_samples` jittered estimates, each clamped into [0, 1]
    /// before accumulation, so the sum stays exact and in range.
    pub fn render_pixel(&self, i: i32, j: i32, world: &Bvh, importants: &HittableList) -> (c:
        Color)
        requires
            bvh_wf_s(*world),
            1 <= self.num_samples <= MAX_SAMPLES,
        ensures
            0 <= c.r <= self.num_samples * SCALE,
            0 <= c.g <= self.num_samples * SCALE,
            0 <= c.b <= self.num_samples * SCALE,
            self.max_depth == 0 ==> c.r == self.num_samples * SCALE && c.g == self.num_samples
                * SCALE && c.b == self.num_samples * SCALE,
            bvh_prims_s(*world).len() == 0 && self.max_depth > 0 ==> c
                == accumulated_background_s(*self),
    {
        let mut acc: Color = Color::black();
        let mut s: i32 = 0;
        while s < self.num_samples
            invariant
                bvh_wf_s(*world),
                1 <= self.num_samples <= MAX_SAMPLES,
                0 <= s <= self.num_samples,
                0 <= acc.r <= s * SCALE,
                0 <= acc.g <= s * SCALE,
                0 <= acc.b <= s * SCALE,
                self.max_depth == 0 ==> acc.r == s * SCALE && acc.g == s * SCALE && acc.b == s
                    * SCALE,
                bvh_prims_s(*world).len() == 0 && self.max_depth > 0 ==> acc.r == s * (cclamp_s(
                    self.background_color,
                ).r as int) && acc.g == s * (cclamp_s(self.background_color).g as int) && acc.b
                    == s * (cclamp_s(self.background_color).b as int),
            decreases self.num_samples - s,
        {
            let ray: Ray = self.get_ray(i, j);
            let sample: Color = self.ray_color(&ray, world, importants, self.max_depth).clamp();
            proof {
                let kr = cclamp_s(self.background_color).r as int;
                let kg = cclamp_s(self.background_color).g as int;
                let kb = cclamp_s(self.background_color).b as int;
                assert((s as int + 1) * kr == s as int * kr + kr) by (nonlinear_arith);
                assert((s as int + 1) * kg == s as int * kg + kg) by (nonlinear_arith);
                assert((s as int + 1) * kb == s as int * kb + kb) by (nonlinear_arith);
            }
            acc = acc.add(&sample);
            s = s + 1;
        }
        acc
    }

    /// One image row of tone-mapped output pixels.
    pub fn render_row(&self, j: i32, world: &Bvh, importants: &HittableList) -> (row: Vec<
        [u8; 3],
    >)
        requires
            bvh_wf_s(*world),
            1 <= self.num_samples <= MAX_SAMPLES,
            0 <= self.image_width,
        ensures
            row.len() == self.image_width,
            forall|i: int| 0 <= i < row@.len() ==> cell_ok(*self, *world, #[trigger] row@[i]),
    {
        let mut row: Vec<[u8; 3]> = Vec::new();
        let mut i: i32 = 0;
        while i < self.image_width
            invariant
                bvh_wf_s(*world),
                1 <= self.num_samples <= MAX_SAMPLES,
                0 <= i <= self.image_width,
                row.len() == i,
                forall|ii: int| 0 <= ii < row@.len() ==> cell_ok(*self, *world, #[trigger] row@[ii]),
            decreases self.image_width - i,
        {
            let c: Color = self.render_pixel(i, j, world, importants);
            let cell: [u8; 3] = c.to_output_array(self.num_samples);
            proof {
                assert(cell_from_s(*self, *world, c, cell));
            }
            row.push(cell);
            i = i + 1;
        }
        row
    }

    /// The whole image: a pure map from pixel coordinates to tone-mapped
    /// colors, row by row. Every row is independent; a parallel driver may
    /// compute rows in any order and gather them by index.
    pub fn render(&self, world: &Bvh, importants: &HittableList) -> (img: Vec<Vec<[u8; 3]>>)
        requires
            bvh_wf_s(*world),
            1 <= self.num_samples <= MAX_SAMPLES,
            0 <= self.image_width,
            0 <= self.image_height,
        ensures
            img.len() == self.image_height,
            forall|j: int| 0 <= j < img.len() ==> #[trigger] img[j].len() == self.image_width,
            forall|j: int, i: int|
                0 <= j < img@.len() && 0 <= i < img@[j]@.len() ==> cell_ok(
                    *self,
                    *world,
                    #[trigger] img@[j]@[i],
                ),
    {
        let mut img: Vec<Vec<[u8; 3]>> = Vec::new();
        let mut j: i32 = 0;
        while j < self.image_height
            invariant
                bvh_wf_s(*world),
                1 <= self.num_samples <= MAX_SAMPLES,
                0 <= self.image_width,
                0 <= j <= self.image_height,
                img.len() == j,
                forall|jj: int| 0 <= jj < img.len() ==> #[trigger] img[jj as int].len() == self.image_width,
                forall|jj: int, ii: int|
                    0 <= jj < img@.len() && 0 <= ii < img@[jj]@.len() ==> cell_ok(
                        *self,
                        *world,
                        #[trigger] img@[jj]@[ii],
                    ),
            decreases self.image_height - j,
        {
            let row: Vec<[u8; 3]> = self.render_row(j, world, importants);
            img.push(row);
            j = j + 1;
        }
        img
    }
}

/// Image height from width and aspect ratio, clamped into [1, MAX_DIM].
fn compute_image_height(width: i32, aspect: i64) -> (h: i32)
    requires
        1 <= width,
    ensures
        h as int == image_height_s(width as int, aspect as int),
        1 <= h,
{
    if aspect <= 0 {
        return 1;
    }
    let num: u64 = (width as u64) * (SCALE as u64);
    let q: u64 = num / (aspect as u64);
    if q < 1 {
        1
    } else if q > MAX_DIM as u64 {
        MAX_DIM as i32
    } else {
        q as i32
    }
}

/// An integer pixel index as a fixed-point scalar.
fn int_to_fp(n: i32) -> (r: i64)
    ensures
        r as int == i2fp_s(n as int),
{
    (n as i64) * SCALE
}

} // verus!
