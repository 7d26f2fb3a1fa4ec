//! Bounding-box queries over the fixed-point scalar.

use pbrt_core::fixed::Fix64;
use pbrt_core::pbrt::bounds::{Bounds2, Bounds3};
use pbrt_core::pbrt::point::{Point2, Point3};

fn fx(i: i64) -> Fix64 {
    Fix64 { bits: i * 65536 }
}

fn half() -> Fix64 {
    Fix64 { bits: 32768 }
}

fn b3(min: (i64, i64, i64), max: (i64, i64, i64)) -> Bounds3<Fix64> {
    Bounds3 {
        min: Point3::new(fx(min.0), fx(min.1), fx(min.2)),
        max: Point3::new(fx(max.0), fx(max.1), fx(max.2)),
    }
}

#[test]
fn corners_enumerate_eight_distinct_points() {
    let b = b3((0, 0, 0), (1, 2, 3));
    let mut corners: Vec<(i64, i64, i64)> = Vec::new();
    for i in 0..8u8 {
        let c = b.corner(i);
        corners.push((c.x.bits, c.y.bits, c.z.bits));
    }
    for i in 0..8 {
        for j in 0..8 {
            if i != j {
                assert_ne!(corners[i], corners[j]);
            }
        }
    }
    assert_eq!(corners[0], (0, 0, 0));
    assert_eq!(corners[1], (65536, 0, 0));
    assert_eq!(corners[2], (0, 2 * 65536, 0));
    assert_eq!(corners[7], (65536, 2 * 65536, 3 * 65536));
}

#[test]
fn diagonal_and_volume_exact() {
    let b = b3((-1, -2, -3), (1, 2, 3));
    let d = b.diagonal();
    assert_eq!(d.x, fx(2));
    assert_eq!(d.y, fx(4));
    assert_eq!(d.z, fx(6));
    assert_eq!(b.volume(), fx(48));
    assert_eq!(b.surface_area(), fx(2 * (8 + 12 + 24)));
}

#[test]
fn maximum_extent_prefers_lower_axis_on_ties() {
    assert_eq!(b3((0, 0, 0), (3, 2, 1)).maximum_extent(), 0);
    assert_eq!(b3((0, 0, 0), (1, 3, 2)).maximum_extent(), 1);
    assert_eq!(b3((0, 0, 0), (1, 2, 3)).maximum_extent(), 2);
    assert_eq!(b3((0, 0, 0), (2, 2, 1)).maximum_extent(), 0);
    assert_eq!(b3((0, 0, 0), (1, 2, 2)).maximum_extent(), 1);
    assert_eq!(b3((0, 0, 0), (2, 2, 2)).maximum_extent(), 0);
}

#[test]
fn lerp_maps_unit_cube_into_bounds() {
    let b = b3((0, 10, -10), (10, 30, 10));
    let mid = b.lerp(Point3::new(half(), half(), half()));
    assert_eq!(mid.x, fx(5));
    assert_eq!(mid.y, fx(20));
    assert_eq!(mid.z, fx(0));
    let lo = b.lerp(Point3::new(fx(0), fx(0), fx(0)));
    assert_eq!(lo.x, fx(0));
    assert_eq!(lo.y, fx(10));
    assert_eq!(lo.z, fx(-10));
}

#[test]
fn offset_inverts_lerp_and_keeps_degenerate_axis_unscaled() {
    let b = b3((0, 10, -10), (10, 30, 10));
    let o = b.offset(Point3::new(fx(5), fx(20), fx(0)));
    assert_eq!(o.x.bits, 32768);
    assert_eq!(o.y.bits, 32768);
    assert_eq!(o.z.bits, 32768);

    let flat = b3((0, 0, 5), (10, 10, 5));
    let o2 = flat.offset(Point3::new(fx(5), fx(5), fx(9)));
    assert_eq!(o2.x.bits, 32768);
    assert_eq!(o2.y.bits, 32768);
    assert_eq!(o2.z, fx(4));
}

#[test]
fn bounds2_area_and_extent() {
    let b = Bounds2 {
        min: Point2::new(fx(0), fx(0)),
        max: Point2::new(fx(4), fx(3)),
    };
    assert_eq!(b.area(), fx(12));
    assert_eq!(b.maximum_extent(), 0);
    let d = b.diagonal();
    assert_eq!(d.x, fx(4));
    assert_eq!(d.y, fx(3));
    let tall = Bounds2 {
        min: Point2::new(fx(0), fx(0)),
        max: Point2::new(fx(3), fx(4)),
    };
    assert_eq!(tall.maximum_extent(), 1);
}

#[test]
fn bounds_endpoint_selects_min_and_max() {
    let b = b3((1, 2, 3), (4, 5, 6));
    let lo = b.endpoint(0);
    let hi = b.endpoint(1);
    assert_eq!(lo.x, fx(1));
    assert_eq!(hi.z, fx(6));
}
