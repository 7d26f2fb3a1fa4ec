//! Ray-sphere intersection cases, under the corrected half-chord
//! formula `thc = sqrt(radius^2 - d2)`.

use pbrt_core::fixed::Fix64;
use pbrt_core::geometry::sphere::Sphere as OldSphere;
use pbrt_core::geometry::vector::Vector3 as OldVector3;
use pbrt_core::pbrt::sphere::Sphere;
use pbrt_core::pbrt::vector::Vector3;

fn fx(i: i64) -> Fix64 {
    Fix64 { bits: i * 65536 }
}

fn v3(x: i64, y: i64, z: i64) -> Vector3<Fix64> {
    Vector3::new(fx(x), fx(y), fx(z))
}

#[test]
fn head_on_hit_reports_near_and_far_parameters() {
    let s = Sphere::new(v3(0, 0, 0), fx(2));
    let origin = v3(0, 0, -10);
    let direction = v3(0, 0, 1);
    let (t0, t1, hit) = s.intersects(&origin, &direction);
    assert!(hit);
    assert_eq!(t0, fx(8));
    assert_eq!(t1, fx(12));
}

#[test]
fn unit_sphere_head_on_hit() {
    let s = Sphere::new(v3(0, 0, 0), fx(1));
    let (t0, t1, hit) = s.intersects(&v3(0, 0, -10), &v3(0, 0, 1));
    assert!(hit);
    assert_eq!(t0, fx(9));
    assert_eq!(t1, fx(11));
}

#[test]
fn center_behind_origin_is_a_miss() {
    let s = Sphere::new(v3(0, 0, 10), fx(2));
    let (t0, t1, hit) = s.intersects(&v3(0, 0, 0), &v3(0, 0, -1));
    assert!(!hit);
    assert_eq!(t0.bits, i64::MAX);
    assert_eq!(t1.bits, i64::MAX);
}

#[test]
fn ray_line_passing_outside_radius_is_a_miss() {
    let s = Sphere::new(v3(0, 5, -10), fx(2));
    let (_, _, hit) = s.intersects(&v3(0, 0, 0), &v3(0, 0, -1));
    assert!(!hit);
}

#[test]
fn tangent_ray_grazes_the_sphere() {
    let s = Sphere::new(v3(0, 2, -10), fx(2));
    let (t0, t1, hit) = s.intersects(&v3(0, 0, 0), &v3(0, 0, -1));
    assert!(hit);
    assert_eq!(t0, fx(10));
    assert_eq!(t1, fx(10));
}

#[test]
fn accessors_return_what_was_stored() {
    let s = Sphere::new(v3(1, 2, 3), fx(4));
    let c = s.center();
    assert_eq!(c.x, fx(1));
    assert_eq!(c.y, fx(2));
    assert_eq!(c.z, fx(3));
    assert_eq!(s.radius(), fx(4));
}

#[test]
fn first_generation_sphere_agrees_with_successor() {
    let c = OldVector3::new(fx(0), fx(0), fx(0));
    let s = OldSphere::new(c, fx(2));
    let origin = OldVector3::new(fx(0), fx(0), fx(-10));
    let direction = OldVector3::new(fx(0), fx(0), fx(1));
    let (t0, t1, hit) = s.intersects(&origin, &direction);
    assert!(hit);
    assert_eq!(t0, fx(8));
    assert_eq!(t1, fx(12));
    assert_eq!(s.radius(), fx(2));
    assert_eq!(s.center().z(), fx(0));
}
