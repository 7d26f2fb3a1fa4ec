//! Vector, point and normal arithmetic over the fixed-point scalar.

use pbrt_core::fixed::Fix64;
use pbrt_core::pbrt::normal::Normal3;
use pbrt_core::pbrt::point::Point3;
use pbrt_core::pbrt::vector::{Vector2, Vector3};
use pbrt_core::scalar::Scalar;

fn fx(i: i64) -> Fix64 {
    Fix64 { bits: i * 65536 }
}

fn v3(x: i64, y: i64, z: i64) -> Vector3<Fix64> {
    Vector3::new(fx(x), fx(y), fx(z))
}

#[test]
fn vector3_add_commutes_on_values() {
    let u = v3(1, -2, 3);
    let v = v3(7, 5, -11);
    let a = u.add(v);
    let b = v.add(u);
    assert_eq!(a.x, b.x);
    assert_eq!(a.y, b.y);
    assert_eq!(a.z, b.z);
    assert_eq!(a.x, fx(8));
    assert_eq!(a.y, fx(3));
    assert_eq!(a.z, fx(-8));
}

#[test]
fn vector3_add_associates_on_values() {
    let u = v3(1, 2, 3);
    let v = v3(-4, 5, -6);
    let w = v3(7, -8, 9);
    let a = u.add(v).add(w);
    let b = u.add(v.add(w));
    assert_eq!(a.x, b.x);
    assert_eq!(a.y, b.y);
    assert_eq!(a.z, b.z);
}

#[test]
fn vector2_add_commutes_on_values() {
    let u = Vector2::new(fx(3), fx(-9));
    let v = Vector2::new(fx(4), fx(2));
    let a = u.add(v);
    let b = v.add(u);
    assert_eq!(a.x, b.x);
    assert_eq!(a.y, b.y);
}

#[test]
fn point_minus_point_is_negated_when_swapped() {
    let p = Point3::new(fx(5), fx(-3), fx(10));
    let q = Point3::new(fx(2), fx(4), fx(-1));
    let pq = p.sub(q);
    let qp_neg = q.sub(p).neg();
    assert_eq!(pq.x, qp_neg.x);
    assert_eq!(pq.y, qp_neg.y);
    assert_eq!(pq.z, qp_neg.z);
    assert_eq!(pq.x, fx(3));
    assert_eq!(pq.y, fx(-7));
    assert_eq!(pq.z, fx(11));
}

#[test]
fn point_plus_vector_is_a_point() {
    let p = Point3::new(fx(1), fx(2), fx(3));
    let moved = p.add(v3(10, -20, 30));
    assert_eq!(moved.x, fx(11));
    assert_eq!(moved.y, fx(-18));
    assert_eq!(moved.z, fx(33));
}

#[test]
fn normalize_of_zero_vector_is_untouched() {
    let mut v = v3(0, 0, 0);
    v.normalize();
    assert_eq!(v.x, fx(0));
    assert_eq!(v.y, fx(0));
    assert_eq!(v.z, fx(0));
}

#[test]
fn normalize_twice_is_idempotent_within_tolerance() {
    let mut once = v3(3, 4, 12);
    once.normalize();
    let mut twice = once;
    twice.normalize();
    let tol: i64 = 256;
    assert!((once.x.bits - twice.x.bits).abs() <= tol);
    assert!((once.y.bits - twice.y.bits).abs() <= tol);
    assert!((once.z.bits - twice.z.bits).abs() <= tol);
    let len2 = once.length_squared();
    assert!((len2.bits - 65536).abs() <= tol);
}

#[test]
fn length_of_three_four_is_five() {
    let v = v3(3, 4, 0);
    assert_eq!(v.length_squared(), fx(25));
    assert_eq!(v.length(), fx(5));
}

#[test]
fn dot_product_exact_value() {
    let u = v3(1, 2, 3);
    let v = v3(4, -5, 6);
    assert_eq!(u.dot(&v), fx(12));
}

#[test]
fn scale_and_div_componentwise() {
    let v = v3(2, -3, 4).scale(fx(3));
    assert_eq!(v.x, fx(6));
    assert_eq!(v.y, fx(-9));
    assert_eq!(v.z, fx(12));
    let d = v.div(fx(3));
    assert_eq!(d.x, fx(2));
    assert_eq!(d.y, fx(-3));
    assert_eq!(d.z, fx(4));
}

#[test]
fn component_at_reads_each_axis() {
    let v = v3(7, 8, 9);
    assert_eq!(v.component_at(0), fx(7));
    assert_eq!(v.component_at(1), fx(8));
    assert_eq!(v.component_at(2), fx(9));
    let p = Point3::new(fx(1), fx(2), fx(3));
    assert_eq!(p.component_at(2), fx(3));
}

#[test]
fn normal_behaves_like_vector_but_stays_its_own_type() {
    let n = Normal3::new(fx(0), fx(3), fx(4));
    assert_eq!(n.length_squared(), fx(25));
    assert_eq!(n.length(), fx(5));
    let m = n.add(Normal3::new(fx(1), fx(1), fx(1)));
    assert_eq!(m.x, fx(1));
    assert_eq!(m.y, fx(4));
    assert_eq!(m.z, fx(5));
}

#[test]
fn normal_normalize_zero_is_untouched() {
    let mut n = Normal3::new(fx(0), fx(0), fx(0));
    n.normalize();
    assert_eq!(n.x, fx(0));
    assert_eq!(n.y, fx(0));
    assert_eq!(n.z, fx(0));
}

#[test]
fn assign_forms_match_pure_forms() {
    let u = v3(1, 2, 3);
    let v = v3(4, 5, 6);
    let pure = u.add(v);
    let mut assigned = u;
    assigned.add_assign(v);
    assert_eq!(pure.x, assigned.x);
    assert_eq!(pure.y, assigned.y);
    assert_eq!(pure.z, assigned.z);
    let mut scaled = u;
    scaled.scale_assign(fx(2));
    assert_eq!(scaled.x, fx(2));
    assert_eq!(scaled.y, fx(4));
    assert_eq!(scaled.z, fx(6));
}

#[test]
fn fixed_scalar_edges() {
    assert_eq!(<Fix64 as Scalar>::div(fx(1), fx(0)), fx(0));
    assert_eq!(<Fix64 as Scalar>::sqrt(fx(-4)), fx(0));
    assert_eq!(<Fix64 as Scalar>::sqrt(fx(9)), fx(3));
    assert_eq!(<Fix64 as Scalar>::from_i64(-7), fx(-7));
    assert!(<Fix64 as Scalar>::lt(fx(-1), fx(1)));
    assert!(!<Fix64 as Scalar>::lt(fx(1), fx(1)));
}
