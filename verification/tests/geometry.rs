//! The first-generation vector types and the ray types.

use pbrt_core::fixed::Fix64;
use pbrt_core::geometry::vector::{Vector2, Vector3};
use pbrt_core::pbrt::point::Point3;
use pbrt_core::pbrt::ray::{Ray, RayDifferential};
use pbrt_core::pbrt::vector::Vector3 as PbrtVector3;

fn fx(i: i64) -> Fix64 {
    Fix64 { bits: i * 65536 }
}

#[test]
fn integer_vector2_adds_componentwise() {
    let a = Vector2::new(3, -4);
    let b = Vector2::new(10, 20);
    let c = a.add(b);
    assert_eq!(c.x(), 13);
    assert_eq!(c.y(), 16);
    assert_eq!(a.x(), 3);
    assert_eq!(a.y(), -4);
}

#[test]
fn accessor_vector3_reads_and_writes_components() {
    let mut v = Vector3::new(fx(1), fx(2), fx(3));
    assert_eq!(v.x(), fx(1));
    assert_eq!(v.y(), fx(2));
    assert_eq!(v.z(), fx(3));
    v.set_x(fx(10));
    v.set_y(fx(20));
    v.set_z(fx(30));
    assert_eq!(v.x(), fx(10));
    assert_eq!(v.y(), fx(20));
    assert_eq!(v.z(), fx(30));
    assert_eq!(v.length_squared(), fx(1400));
    let d = v.dot(&Vector3::new(fx(1), fx(1), fx(1)));
    assert_eq!(d, fx(60));
    let sum = v.add(Vector3::new(fx(1), fx(1), fx(1)));
    assert_eq!(sum.x(), fx(11));
    let diff = v.sub(Vector3::new(fx(1), fx(1), fx(1)));
    assert_eq!(diff.z(), fx(29));
}

#[test]
fn ray_carries_its_fields() {
    let r = Ray::new(
        Point3::new(fx(1), fx(2), fx(3)),
        PbrtVector3::new(fx(0), fx(0), fx(-1)),
        Fix64 { bits: i64::MAX },
        fx(0),
    );
    assert_eq!(r.origin.x, fx(1));
    assert_eq!(r.direction.z, fx(-1));
    assert_eq!(r.t_max.bits, i64::MAX);
    assert_eq!(r.time, fx(0));
}

#[test]
fn scale_differentials_rebases_auxiliary_rays() {
    let mut rd = RayDifferential {
        origin: Point3::new(fx(0), fx(0), fx(0)),
        direction: PbrtVector3::new(fx(0), fx(0), fx(-1)),
        t_max: Fix64 { bits: i64::MAX },
        time: fx(0),
        has_differentials: true,
        rx_origin: Point3::new(fx(2), fx(0), fx(0)),
        ry_origin: Point3::new(fx(0), fx(2), fx(0)),
        rx_direction: PbrtVector3::new(fx(2), fx(0), fx(-1)),
        ry_direction: PbrtVector3::new(fx(0), fx(2), fx(-1)),
    };
    rd.scale_differentials(Fix64 { bits: 32768 });
    // Each auxiliary offset halves; the primary ray is untouched.
    assert_eq!(rd.rx_origin.x, fx(1));
    assert_eq!(rd.ry_origin.y, fx(1));
    assert_eq!(rd.rx_direction.x, fx(1));
    assert_eq!(rd.rx_direction.z, fx(-1));
    assert_eq!(rd.ry_direction.y, fx(1));
    assert_eq!(rd.origin.x, fx(0));
    assert_eq!(rd.direction.z, fx(-1));
    assert!(rd.has_differentials);
}
