//! The camera, the trace loop and the end-to-end frame.

use pbrt_core::fixed::Fix64;
use pbrt_core::pbrt::sphere::Sphere;
use pbrt_core::pbrt::vector::Vector3;
use pbrt_core::render::{build_sphere_grid, render_image, trace, CameraSettings};

fn fx(i: i64) -> Fix64 {
    Fix64 { bits: i * 65536 }
}

fn v3(x: i64, y: i64, z: i64) -> Vector3<Fix64> {
    Vector3::new(fx(x), fx(y), fx(z))
}

#[test]
fn camera_settings_derive_projection_constants() {
    let c: CameraSettings<Fix64> = CameraSettings::new(192, 108);
    assert_eq!(c.width, 192);
    assert_eq!(c.height, 108);
    assert_eq!(c.fov, fx(30));
    // 1/192 and 192/108 in 16-bit fixed point, truncated toward zero.
    assert_eq!(c.inverse_width.bits, 65536 * 65536 / (192 * 65536));
    assert_eq!(c.aspect_ratio.bits, 192 * 65536 * 65536 / (108 * 65536));
    // tan(pi/12) is about 0.2679; the fixed-point series lands close.
    let expected = (0.2679 * 65536.0) as i64;
    assert!((c.angle.bits - expected).abs() < 300);
}

#[test]
fn trace_reports_hit_and_miss() {
    let spheres = vec![Sphere::new(v3(0, 0, -10), fx(2))];
    assert_eq!(trace(v3(0, 0, 0), v3(0, 0, -1), &spheres, 0), 255);
    assert_eq!(trace(v3(0, 0, 0), v3(0, 0, 1), &spheres, 0), 0);
}

#[test]
fn trace_of_empty_scene_is_background() {
    let spheres: Vec<Sphere<Fix64>> = Vec::new();
    assert_eq!(trace(v3(0, 0, 0), v3(0, 0, -1), &spheres, 0), 0);
}

#[test]
fn ray_pointing_away_from_every_sphere_is_background() {
    // Spheres all at negative z; the ray looks down positive z.
    let spheres = vec![
        Sphere::new(v3(0, 0, -10), fx(2)),
        Sphere::new(v3(3, 1, -50), fx(1)),
        Sphere::new(v3(-7, 2, -20), fx(2)),
    ];
    assert_eq!(trace(v3(0, 0, 0), v3(0, 0, 1), &spheres, 0), 0);
}

#[test]
fn origin_inside_sphere_falls_back_to_far_root() {
    // Center ahead of the origin, origin inside: t0 < 0, t1 > 0.
    let spheres = vec![Sphere::new(v3(0, 0, -1), fx(2))];
    assert_eq!(trace(v3(0, 0, 0), v3(0, 0, -1), &spheres, 0), 255);
}

#[test]
fn grid_scene_has_the_documented_shape() {
    let spheres: Vec<Sphere<Fix64>> = build_sphere_grid(9);
    assert_eq!(spheres.len(), 729);
    // Slot (0, 0, 0): every coordinate is 0/9 * 200 - 100 = -100.
    let first = spheres[0];
    let c = first.center();
    assert_eq!(c.x, fx(-100));
    assert_eq!(c.y, fx(-100));
    assert_eq!(c.z, fx(-100));
    assert_eq!(first.radius(), fx(1));
    // Slot (5, 0, 0): x = 5/9 * 200 - 100 > 0, so the radius is 2.
    let positive_x = spheres[5 * 81];
    assert!(positive_x.center().x.bits > 0);
    assert_eq!(positive_x.radius(), fx(2));
    // Slot order is (i, j, k) row-major: slot (0, 0, 3) moves only z.
    let third = spheres[3];
    assert_eq!(third.center().x, fx(-100));
    assert_eq!(third.center().y, fx(-100));
    assert!(third.center().z.bits > fx(-100).bits);
}

#[test]
fn reference_frame_is_deterministic_with_background_corners() {
    let spheres: Vec<Sphere<Fix64>> = build_sphere_grid(9);
    let camera: CameraSettings<Fix64> = CameraSettings::new(192, 108);
    let origin = v3(0, 0, 0);
    let frame = render_image(&camera, origin, &spheres);
    assert_eq!(frame.len(), 192 * 108);
    let again = render_image(&camera, origin, &spheres);
    assert_eq!(frame, again);
    // Every sample is binary.
    assert!(frame.iter().all(|&b| b == 0 || b == 255));
    // The four corner pixels see no sphere at such extreme angles.
    assert_eq!(frame[0], 0);
    assert_eq!(frame[191], 0);
    assert_eq!(frame[107 * 192], 0);
    assert_eq!(frame[107 * 192 + 191], 0);
    // Some spheres do land on screen.
    assert!(frame.iter().any(|&b| b == 255));
    // The frame's center is background too: the grid coordinates
    // i/9 * 200 - 100 never come within any sphere's radius of the
    // camera axis (the nearest columns sit about 15.7 units off it).
    assert_eq!(frame[54 * 192 + 96], 0);
}
