use bitray::bvh::Bvh;
use bitray::camera::Camera;
use bitray::color::Color;
use bitray::fixed::SCALE;
use bitray::hittable::{HittableList, Object};
use bitray::materials::{Lambert, Material};
use bitray::ray::Ray;
use bitray::sphere::Sphere;
use bitray::vec3::Vec3;

fn pinhole_camera() -> Camera {
    Camera::new(
        SCALE,
        16,
        1,
        1,
        Vec3::new(0, 5 * SCALE, 0),
        Vec3::new(0, 0, 0),
        Vec3::new(0, 0, SCALE),
        Color::new(32768, 45875, 58982),
    )
}

/// With defocus disabled (the default pinhole camera), every primary ray
/// originates exactly at the camera center, whatever the random jitter.
#[test]
fn pinhole_rays_always_start_at_the_center() {
    let cam = pinhole_camera();
    assert_eq!(cam.defocus_angle, 0);
    for i in 0..16 {
        for j in 0..16 {
            for _ in 0..50 {
                let r = cam.get_ray(i, j);
                assert_eq!(r.origin, cam.center);
                assert_eq!(r.origin, Vec3::new(0, 5 * SCALE, 0));
            }
        }
    }
}

/// An exhausted depth budget returns the fixed white fallback, whatever the
/// scene holds.
#[test]
fn depth_zero_returns_the_white_fallback() {
    let cam = pinhole_camera();
    let world = Bvh::build(vec![Object::Sphere(Sphere::new(
        Vec3::new(0, 0, 0),
        SCALE,
        Material::Lambert(Lambert::new(Color::new(SCALE, 0, 0))),
    ))]);
    let importants = HittableList::new(Vec::new());
    let rays = [
        Ray::new(Vec3::new(0, 5 * SCALE, 0), Vec3::new(0, -SCALE, 0)),
        Ray::new(Vec3::new(0, 0, 0), Vec3::new(SCALE, 0, 0)),
    ];
    for r in rays {
        assert_eq!(
            cam.ray_color(&r, &world, &importants, 0),
            Color::new(SCALE, SCALE, SCALE)
        );
    }
}

/// A ray that misses the whole scene returns the background color.
#[test]
fn miss_returns_the_background_color() {
    let cam = pinhole_camera();
    let world = Bvh::build(vec![Object::Sphere(Sphere::new(
        Vec3::new(0, 0, 0),
        SCALE,
        Material::Lambert(Lambert::new(Color::new(SCALE, 0, 0))),
    ))]);
    let importants = HittableList::new(Vec::new());
    let away = Ray::new(Vec3::new(0, 5 * SCALE, 0), Vec3::new(0, SCALE, 0));
    assert_eq!(
        cam.ray_color(&away, &world, &importants, 4),
        Color::new(32768, 45875, 58982)
    );
}

/// The end-to-end scenario: a large ground sphere and a small sphere above
/// it, the pinhole camera aimed straight down, one sample, depth one.
/// Pixels hitting the small sphere show its color, pixels hitting the
/// ground show the ground color, pixels missing both show the background.
#[test]
fn ground_and_sphere_scene_renders_the_three_color_classes() {
    let cam = pinhole_camera();
    let small = Color::new(45875, 19661, 19661);
    let ground = Color::new(13107, 52429, 13107);
    let bg = Color::new(32768, 45875, 58982);
    let world = Bvh::build(vec![
        Object::Sphere(Sphere::new(
            Vec3::new(0, 0, 0),
            52429,
            Material::DiffuseLight { emit: small },
        )),
        Object::Sphere(Sphere::new(
            Vec3::new(0, -229376, 0),
            209715,
            Material::DiffuseLight { emit: ground },
        )),
    ]);
    let importants = HittableList::new(Vec::new());
    let img = cam.render(&world, &importants);
    assert_eq!(img.len(), 16);
    for row in &img {
        assert_eq!(row.len(), 16);
    }
    let small_px = small.to_output_array(1);
    let ground_px = ground.to_output_array(1);
    let bg_px = bg.to_output_array(1);
    // The four center pixels see the small sphere.
    assert_eq!(img[7][7], small_px);
    assert_eq!(img[7][8], small_px);
    assert_eq!(img[8][7], small_px);
    assert_eq!(img[8][8], small_px);
    // Mid-edge pixels see the ground sphere.
    assert_eq!(img[7][0], ground_px);
    assert_eq!(img[8][15], ground_px);
    // Corner pixels miss both and show the background.
    assert_eq!(img[0][0], bg_px);
    assert_eq!(img[15][15], bg_px);
    assert_eq!(img[0][15], bg_px);
    assert_eq!(img[15][0], bg_px);
}

/// Construction clamps a degenerate aspect ratio instead of failing, and
/// computes the height from width over aspect.
#[test]
fn image_height_follows_the_aspect_ratio_and_is_clamped() {
    let c = Camera::new(
        2 * SCALE,
        100,
        1,
        1,
        Vec3::new(0, 0, 0),
        Vec3::new(0, 0, -SCALE),
        Vec3::new(0, SCALE, 0),
        Color::black(),
    );
    assert_eq!(c.image_height, 50);
    let degenerate = Camera::new(
        -SCALE,
        100,
        1,
        1,
        Vec3::new(0, 0, 0),
        Vec3::new(0, 0, -SCALE),
        Vec3::new(0, SCALE, 0),
        Color::black(),
    );
    assert_eq!(degenerate.image_height, 1);
}

/// Tone mapping: the average is gamma-corrected by square root and
/// quantized; full white maps to 255, black to 0, quarter gray to half.
#[test]
fn tone_mapping_has_exact_known_values() {
    assert_eq!(Color::new(SCALE, SCALE, SCALE).to_output_array(1), [255, 255, 255]);
    assert_eq!(Color::black().to_output_array(1), [0, 0, 0]);
    // 0.25 averages to 0.25; sqrt = 0.5; 0.5 * 255 truncates to 127.
    assert_eq!(Color::new(SCALE / 4, 0, 0).to_output_array(1), [127, 0, 0]);
    // Four accumulated white samples average back to full white.
    assert_eq!(Color::new(4 * SCALE, 4 * SCALE, 4 * SCALE).to_output_array(4), [255, 255, 255]);
}
