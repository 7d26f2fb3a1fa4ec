//! Absolute positions in two and three dimensions.
//!
//! A point is a position, not a displacement: subtracting two points
//! yields a [`Vector2`]/[`Vector3`], and a point plus a vector is again
//! a point. Points deliberately offer no point-plus-point or
//! point-times-scalar arithmetic — positions do not add to positions —
//! and that asymmetry is part of the type's contract, not an omission.

use vstd::prelude::*;

use crate::pbrt::vector::Vector2;
use crate::pbrt::vector::Vector3;
use crate::scalar::ExactScalar;
use crate::scalar::Scalar;

verus! {

/// A 2D position.
#[derive(Clone, Copy, Debug)]
pub struct Point2<S: Scalar> {
    pub x: S,
    pub y: S,
}

impl<S: Scalar> Point2<S> {
    /// The displacement from `q` to `p`.
    pub open spec fn sp_sub(p: Self, q: Self) -> Vector2<S> {
        Vector2 { x: S::sp_sub(p.x, q.x), y: S::sp_sub(p.y, q.y) }
    }

    /// The point reached from `p` by the displacement `v`.
    pub open spec fn sp_add(p: Self, v: Vector2<S>) -> Self {
        Point2 { x: S::sp_add(p.x, v.x), y: S::sp_add(p.y, v.y) }
    }

    /// Sum of squared coordinates (the squared distance from the origin).
    pub open spec fn sp_length_squared(p: Self) -> S {
        S::sp_add(S::sp_mul(p.x, p.x), S::sp_mul(p.y, p.y))
    }

    /// Square root of the squared length.
    pub open spec fn sp_length(p: Self) -> S {
        S::sp_sqrt(Self::sp_length_squared(p))
    }

    /// The coordinate selected by an axis index.
    pub open spec fn sp_component(p: Self, i: u8) -> S {
        if i == 0 {
            p.x
        } else {
            p.y
        }
    }

    pub fn new(x: S, y: S) -> (r: Self)
        ensures
            r.x == x,
            r.y == y,
    {
        Point2 { x, y }
    }

    pub fn length_squared(&self) -> (r: S)
        ensures
            r == Self::sp_length_squared(*self),
    {
        S::add(S::mul(self.x, self.x), S::mul(self.y, self.y))
    }

    pub fn length(&self) -> (r: S)
        ensures
            r == Self::sp_length(*self),
    {
        S::sqrt(self.length_squared())
    }

    /// Point minus point: the displacement between positions.
    pub fn sub(self, rhs: Self) -> (r: Vector2<S>)
        ensures
            r == Self::sp_sub(self, rhs),
    {
        Vector2::new(S::sub(self.x, rhs.x), S::sub(self.y, rhs.y))
    }

    /// Point plus vector: translation of a position.
    pub fn add(self, rhs: Vector2<S>) -> (r: Self)
        ensures
            r == Self::sp_add(self, rhs),
    {
        Point2 { x: S::add(self.x, rhs.x), y: S::add(self.y, rhs.y) }
    }

    /// Bounds-checked coordinate access: 0 is x, 1 is y. Out of range
    /// indices are a contract violation, rejected up front.
    pub fn component_at(&self, i: u8) -> (r: S)
        requires
            i < 2,
        ensures
            r == Self::sp_component(*self, i),
    {
        if i == 0 {
            self.x
        } else {
            self.y
        }
    }
}

/// A 3D position.
#[derive(Clone, Copy, Debug)]
pub struct Point3<S: Scalar> {
    pub x: S,
    pub y: S,
    pub z: S,
}

impl<S: Scalar> Point3<S> {
    /// The displacement from `q` to `p`.
    pub open spec fn sp_sub(p: Self, q: Self) -> Vector3<S> {
        Vector3 { x: S::sp_sub(p.x, q.x), y: S::sp_sub(p.y, q.y), z: S::sp_sub(p.z, q.z) }
    }

    /// The point reached from `p` by the displacement `v`.
    pub open spec fn sp_add(p: Self, v: Vector3<S>) -> Self {
        Point3 { x: S::sp_add(p.x, v.x), y: S::sp_add(p.y, v.y), z: S::sp_add(p.z, v.z) }
    }

    /// Sum of squared coordinates (the squared distance from the origin).
    pub open spec fn sp_length_squared(p: Self) -> S {
        S::sp_add(S::sp_add(S::sp_mul(p.x, p.x), S::sp_mul(p.y, p.y)), S::sp_mul(p.z, p.z))
    }

    /// Square root of the squared length.
    pub open spec fn sp_length(p: Self) -> S {
        S::sp_sqrt(Self::sp_length_squared(p))
    }

    /// Coordinatewise inner product with another position.
    pub open spec fn sp_dot(p: Self, q: Self) -> S {
        S::sp_add(S::sp_add(S::sp_mul(p.x, q.x), S::sp_mul(p.y, q.y)), S::sp_mul(p.z, q.z))
    }

    /// Normalization of the coordinate triple, as for a vector.
    pub open spec fn sp_normalize(p: Self) -> Self {
        if S::sp_lt(S::sp_zero(), Self::sp_length_squared(p)) {
            Point3 {
                x: S::sp_mul(p.x, S::sp_div(S::sp_one(), S::sp_sqrt(Self::sp_length_squared(p)))),
                y: S::sp_mul(p.y, S::sp_div(S::sp_one(), S::sp_sqrt(Self::sp_length_squared(p)))),
                z: S::sp_mul(p.z, S::sp_div(S::sp_one(), S::sp_sqrt(Self::sp_length_squared(p)))),
            }
        } else {
            p
        }
    }

    /// The coordinate selected by an axis index.
    pub open spec fn sp_component(p: Self, i: u8) -> S {
        if i == 0 {
            p.x
        } else if i == 1 {
            p.y
        } else {
            p.z
        }
    }

    pub fn new(x: S, y: S, z: S) -> (r: Self)
        ensures
            r.x == x,
            r.y == y,
            r.z == z,
    {
        Point3 { x, y, z }
    }

    pub fn length_squared(&self) -> (r: S)
        ensures
            r == Self::sp_length_squared(*self),
    {
        S::add(S::add(S::mul(self.x, self.x), S::mul(self.y, self.y)), S::mul(self.z, self.z))
    }

    pub fn length(&self) -> (r: S)
        ensures
            r == Self::sp_length(*self),
    {
        S::sqrt(self.length_squared())
    }

    /// Scale every coordinate by the inverse length, unless the squared
    /// length is not strictly positive, in which case the point is left
    /// untouched rather than divided by zero.
    pub fn normalize(&mut self)
        ensures
            *final(self) == Self::sp_normalize(*old(self)),
    {
        let nor2 = self.length_squared();
        if S::lt(S::zero(), nor2) {
            let inv_nor = S::div(S::one(), S::sqrt(nor2));
            self.x = S::mul(self.x, inv_nor);
            self.y = S::mul(self.y, inv_nor);
            self.z = S::mul(self.z, inv_nor);
        }
    }

    pub fn dot(&self, other: &Self) -> (r: S)
        ensures
            r == Self::sp_dot(*self, *other),
    {
        S::add(
            S::add(S::mul(self.x, other.x), S::mul(self.y, other.y)),
            S::mul(self.z, other.z),
        )
    }

    /// Point minus point: the displacement between positions.
    pub fn sub(self, rhs: Self) -> (r: Vector3<S>)
        ensures
            r == Self::sp_sub(self, rhs),
    {
        Vector3::new(S::sub(self.x, rhs.x), S::sub(self.y, rhs.y), S::sub(self.z, rhs.z))
    }

    /// Point plus vector: translation of a position.
    pub fn add(self, rhs: Vector3<S>) -> (r: Self)
        ensures
            r == Self::sp_add(self, rhs),
    {
        Point3 { x: S::add(self.x, rhs.x), y: S::add(self.y, rhs.y), z: S::add(self.z, rhs.z) }
    }

    /// Point plus vector, in place.
    pub fn add_assign(&mut self, rhs: Vector3<S>)
        ensures
            *final(self) == Self::sp_add(*old(self), rhs),
    {
        self.x = S::add(self.x, rhs.x);
        self.y = S::add(self.y, rhs.y);
        self.z = S::add(self.z, rhs.z);
    }

    /// Bounds-checked coordinate access: 0 is x, 1 is y, 2 is z. Out of
    /// range indices are a contract violation, rejected up front.
    pub fn component_at(&self, i: u8) -> (r: S)
        requires
            i < 3,
        ensures
            r == Self::sp_component(*self, i),
    {
        if i == 0 {
            self.x
        } else if i == 1 {
            self.y
        } else {
            self.z
        }
    }
}

/// Subtracting points one way is the negation of subtracting them the
/// other way: `p - q == -(q - p)`, coordinatewise from the scalar's law.
pub proof fn lemma_point3_sub_negates<S: ExactScalar>(p: Point3<S>, q: Point3<S>)
    ensures
        Point3::sp_sub(p, q) == Vector3::sp_neg(Point3::sp_sub(q, p)),
{
    S::sub_negates(q.x, p.x);
    S::sub_negates(q.y, p.y);
    S::sub_negates(q.z, p.z);
}

/// The 2D counterpart: `p - q == -(q - p)` componentwise.
pub proof fn lemma_point2_sub_negates<S: ExactScalar>(p: Point2<S>, q: Point2<S>)
    ensures
        Point2::sp_sub(p, q).x == S::sp_neg(Point2::sp_sub(q, p).x),
        Point2::sp_sub(p, q).y == S::sp_neg(Point2::sp_sub(q, p).y),
{
    S::sub_negates(q.x, p.x);
    S::sub_negates(q.y, p.y);
}

} // verus!
