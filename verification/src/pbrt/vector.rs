//! Displacement vectors in two and three dimensions.
//!
//! A vector is a componentwise bundle of scalars with no fixed origin.
//! Every operation is pure: it reads its operands and returns a fresh
//! value (the `_assign` forms overwrite `self` with that value). Each
//! operation's meaning is the componentwise application of the scalar's
//! own spec members, so everything proved here holds for any
//! [`Scalar`]; the algebraic laws at the end hold for any
//! [`ExactScalar`].

use vstd::prelude::*;

use crate::scalar::ExactScalar;
use crate::scalar::Scalar;

verus! {

/// A 2D displacement.
#[derive(Clone, Copy, Debug)]
pub struct Vector2<S: Scalar> {
    pub x: S,
    pub y: S,
}

impl<S: Scalar> Vector2<S> {
    /// Componentwise sum.
    pub open spec fn sp_add(u: Self, v: Self) -> Self {
        Vector2 { x: S::sp_add(u.x, v.x), y: S::sp_add(u.y, v.y) }
    }

    /// Componentwise difference.
    pub open spec fn sp_sub(u: Self, v: Self) -> Self {
        Vector2 { x: S::sp_sub(u.x, v.x), y: S::sp_sub(u.y, v.y) }
    }

    /// Componentwise scaling.
    pub open spec fn sp_scale(u: Self, s: S) -> Self {
        Vector2 { x: S::sp_mul(u.x, s), y: S::sp_mul(u.y, s) }
    }

    /// Componentwise division by a scalar.
    pub open spec fn sp_div(u: Self, s: S) -> Self {
        Vector2 { x: S::sp_div(u.x, s), y: S::sp_div(u.y, s) }
    }

    /// Sum of squared components, in the order the arithmetic performs it.
    pub open spec fn sp_length_squared(u: Self) -> S {
        S::sp_add(S::sp_mul(u.x, u.x), S::sp_mul(u.y, u.y))
    }

    /// Square root of the squared length.
    pub open spec fn sp_length(u: Self) -> S {
        S::sp_sqrt(Self::sp_length_squared(u))
    }

    /// The component selected by an axis index.
    pub open spec fn sp_component(u: Self, i: u8) -> S {
        if i == 0 {
            u.x
        } else {
            u.y
        }
    }

    pub fn new(x: S, y: S) -> (r: Self)
        ensures
            r.x == x,
            r.y == y,
    {
        Vector2 { x, y }
    }

    pub fn length_squared(&self) -> (r: S)
        ensures
            r == Self::sp_length_squared(*self),
    {
        S::add(S::mul(self.x, self.x), S::mul(self.y, self.y))
    }

    pub fn length(&self) -> (r: S)
        ensures
            r == Self::sp_length(*self),
    {
        S::sqrt(self.length_squared())
    }

    pub fn add(self, rhs: Self) -> (r: Self)
        ensures
            r == Self::sp_add(self, rhs),
    {
        Vector2 { x: S::add(self.x, rhs.x), y: S::add(self.y, rhs.y) }
    }

    pub fn add_assign(&mut self, rhs: Self)
        ensures
            *final(self) == Self::sp_add(*old(self), rhs),
    {
        self.x = S::add(self.x, rhs.x);
        self.y = S::add(self.y, rhs.y);
    }

    pub fn sub(self, rhs: Self) -> (r: Self)
        ensures
            r == Self::sp_sub(self, rhs),
    {
        Vector2 { x: S::sub(self.x, rhs.x), y: S::sub(self.y, rhs.y) }
    }

    pub fn sub_assign(&mut self, rhs: Self)
        ensures
            *final(self) == Self::sp_sub(*old(self), rhs),
    {
        self.x = S::sub(self.x, rhs.x);
        self.y = S::sub(self.y, rhs.y);
    }

    /// Scalar multiply.
    pub fn scale(self, rhs: S) -> (r: Self)
        ensures
            r == Self::sp_scale(self, rhs),
    {
        Vector2 { x: S::mul(self.x, rhs), y: S::mul(self.y, rhs) }
    }

    pub fn scale_assign(&mut self, rhs: S)
        ensures
            *final(self) == Self::sp_scale(*old(self), rhs),
    {
        self.x = S::mul(self.x, rhs);
        self.y = S::mul(self.y, rhs);
    }

    /// Scalar divide. What a zero divisor yields is the scalar's own
    /// policy (an infinity for floating point, zero for the fixed-point
    /// scalar); the operation itself never faults.
    pub fn div(self, rhs: S) -> (r: Self)
        ensures
            r == Self::sp_div(self, rhs),
    {
        Vector2 { x: S::div(self.x, rhs), y: S::div(self.y, rhs) }
    }

    pub fn div_assign(&mut self, rhs: S)
        ensures
            *final(self) == Self::sp_div(*old(self), rhs),
    {
        self.x = S::div(self.x, rhs);
        self.y = S::div(self.y, rhs);
    }

    /// Bounds-checked component access: index 0 is x, index 1 is y. Out
    /// of range indices are a contract violation, rejected up front
    /// rather than aliased to the last component.
    pub fn component_at(&self, i: u8) -> (r: S)
        requires
            i < 2,
        ensures
            r == Self::sp_component(*self, i),
    {
        if i == 0 {
            self.x
        } else {
            self.y
        }
    }
}

/// A 3D displacement.
#[derive(Clone, Copy, Debug)]
pub struct Vector3<S: Scalar> {
    pub x: S,
    pub y: S,
    pub z: S,
}

impl<S: Scalar> Vector3<S> {
    /// Componentwise sum.
    pub open spec fn sp_add(u: Self, v: Self) -> Self {
        Vector3 { x: S::sp_add(u.x, v.x), y: S::sp_add(u.y, v.y), z: S::sp_add(u.z, v.z) }
    }

    /// Componentwise difference.
    pub open spec fn sp_sub(u: Self, v: Self) -> Self {
        Vector3 { x: S::sp_sub(u.x, v.x), y: S::sp_sub(u.y, v.y), z: S::sp_sub(u.z, v.z) }
    }

    /// Componentwise negation.
    pub open spec fn sp_neg(u: Self) -> Self {
        Vector3 { x: S::sp_neg(u.x), y: S::sp_neg(u.y), z: S::sp_neg(u.z) }
    }

    /// Componentwise scaling.
    pub open spec fn sp_scale(u: Self, s: S) -> Self {
        Vector3 { x: S::sp_mul(u.x, s), y: S::sp_mul(u.y, s), z: S::sp_mul(u.z, s) }
    }

    /// Componentwise division by a scalar.
    pub open spec fn sp_div(u: Self, s: S) -> Self {
        Vector3 { x: S::sp_div(u.x, s), y: S::sp_div(u.y, s), z: S::sp_div(u.z, s) }
    }

    /// Inner product, in the order the arithmetic performs it.
    pub open spec fn sp_dot(u: Self, v: Self) -> S {
        S::sp_add(S::sp_add(S::sp_mul(u.x, v.x), S::sp_mul(u.y, v.y)), S::sp_mul(u.z, v.z))
    }

    /// Sum of squared components.
    pub open spec fn sp_length_squared(u: Self) -> S {
        Self::sp_dot(u, u)
    }

    /// Square root of the squared length.
    pub open spec fn sp_length(u: Self) -> S {
        S::sp_sqrt(Self::sp_length_squared(u))
    }

    /// Normalization: a no-op unless the squared length is strictly
    /// positive, else every component is scaled by the inverse length.
    pub open spec fn sp_normalize(u: Self) -> Self {
        if S::sp_lt(S::sp_zero(), Self::sp_length_squared(u)) {
            Self::sp_scale(u, S::sp_div(S::sp_one(), S::sp_sqrt(Self::sp_length_squared(u))))
        } else {
            u
        }
    }

    /// The component selected by an axis index.
    pub open spec fn sp_component(u: Self, i: u8) -> S {
        if i == 0 {
            u.x
        } else if i == 1 {
            u.y
        } else {
            u.z
        }
    }

    pub fn new(x: S, y: S, z: S) -> (r: Self)
        ensures
            r.x == x,
            r.y == y,
            r.z == z,
    {
        Vector3 { x, y, z }
    }

    pub fn length_squared(&self) -> (r: S)
        ensures
            r == Self::sp_length_squared(*self),
    {
        S::add(S::add(S::mul(self.x, self.x), S::mul(self.y, self.y)), S::mul(self.z, self.z))
    }

    pub fn length(&self) -> (r: S)
        ensures
            r == Self::sp_length(*self),
    {
        S::sqrt(self.length_squared())
    }

    /// Scale every component by the inverse length, unless the squared
    /// length is not strictly positive, in which case the vector (the
    /// zero vector among them) is left untouched rather than divided by
    /// zero.
    pub fn normalize(&mut self)
        ensures
            *final(self) == Self::sp_normalize(*old(self)),
    {
        let nor2 = self.length_squared();
        if S::lt(S::zero(), nor2) {
            let inv_nor = S::div(S::one(), S::sqrt(nor2));
            self.x = S::mul(self.x, inv_nor);
            self.y = S::mul(self.y, inv_nor);
            self.z = S::mul(self.z, inv_nor);
        }
    }

    pub fn dot(&self, other: &Self) -> (r: S)
        ensures
            r == Self::sp_dot(*self, *other),
    {
        S::add(
            S::add(S::mul(self.x, other.x), S::mul(self.y, other.y)),
            S::mul(self.z, other.z),
        )
    }

    pub fn add(self, rhs: Self) -> (r: Self)
        ensures
            r == Self::sp_add(self, rhs),
    {
        Vector3 { x: S::add(self.x, rhs.x), y: S::add(self.y, rhs.y), z: S::add(self.z, rhs.z) }
    }

    pub fn add_assign(&mut self, rhs: Self)
        ensures
            *final(self) == Self::sp_add(*old(self), rhs),
    {
        self.x = S::add(self.x, rhs.x);
        self.y = S::add(self.y, rhs.y);
        self.z = S::add(self.z, rhs.z);
    }

    pub fn sub(self, rhs: Self) -> (r: Self)
        ensures
            r == Self::sp_sub(self, rhs),
    {
        Vector3 { x: S::sub(self.x, rhs.x), y: S::sub(self.y, rhs.y), z: S::sub(self.z, rhs.z) }
    }

    pub fn sub_assign(&mut self, rhs: Self)
        ensures
            *final(self) == Self::sp_sub(*old(self), rhs),
    {
        self.x = S::sub(self.x, rhs.x);
        self.y = S::sub(self.y, rhs.y);
        self.z = S::sub(self.z, rhs.z);
    }

    /// Componentwise negation.
    pub fn neg(self) -> (r: Self)
        ensures
            r == Self::sp_neg(self),
    {
        Vector3 { x: S::neg(self.x), y: S::neg(self.y), z: S::neg(self.z) }
    }

    /// Scalar multiply.
    pub fn scale(self, rhs: S) -> (r: Self)
        ensures
            r == Self::sp_scale(self, rhs),
    {
        Vector3 { x: S::mul(self.x, rhs), y: S::mul(self.y, rhs), z: S::mul(self.z, rhs) }
    }

    pub fn scale_assign(&mut self, rhs: S)
        ensures
            *final(self) == Self::sp_scale(*old(self), rhs),
    {
        self.x = S::mul(self.x, rhs);
        self.y = S::mul(self.y, rhs);
        self.z = S::mul(self.z, rhs);
    }

    /// Scalar divide; a zero divisor is the scalar's own policy, never a
    /// fault.
    pub fn div(self, rhs: S) -> (r: Self)
        ensures
            r == Self::sp_div(self, rhs),
    {
        Vector3 { x: S::div(self.x, rhs), y: S::div(self.y, rhs), z: S::div(self.z, rhs) }
    }

    pub fn div_assign(&mut self, rhs: S)
        ensures
            *final(self) == Self::sp_div(*old(self), rhs),
    {
        self.x = S::div(self.x, rhs);
        self.y = S::div(self.y, rhs);
        self.z = S::div(self.z, rhs);
    }

    /// Bounds-checked component access: 0 is x, 1 is y, 2 is z. Out of
    /// range indices are a contract violation, rejected up front rather
    /// than aliased to the last component.
    pub fn component_at(&self, i: u8) -> (r: S)
        requires
            i < 3,
        ensures
            r == Self::sp_component(*self, i),
    {
        if i == 0 {
            self.x
        } else if i == 1 {
            self.y
        } else {
            self.z
        }
    }
}

/// Vector addition commutes, componentwise from the scalar's own law.
pub proof fn lemma_vector2_add_commutes<S: ExactScalar>(u: Vector2<S>, v: Vector2<S>)
    ensures
        Vector2::sp_add(u, v) == Vector2::sp_add(v, u),
{
    S::add_commutes(u.x, v.x);
    S::add_commutes(u.y, v.y);
}

/// Vector addition associates, componentwise from the scalar's own law.
pub proof fn lemma_vector2_add_associates<S: ExactScalar>(u: Vector2<S>, v: Vector2<S>, w: Vector2<S>)
    ensures
        Vector2::sp_add(Vector2::sp_add(u, v), w) == Vector2::sp_add(u, Vector2::sp_add(v, w)),
{
    S::add_associates(u.x, v.x, w.x);
    S::add_associates(u.y, v.y, w.y);
}

/// Vector addition commutes, componentwise from the scalar's own law.
pub proof fn lemma_vector3_add_commutes<S: ExactScalar>(u: Vector3<S>, v: Vector3<S>)
    ensures
        Vector3::sp_add(u, v) == Vector3::sp_add(v, u),
{
    S::add_commutes(u.x, v.x);
    S::add_commutes(u.y, v.y);
    S::add_commutes(u.z, v.z);
}

/// Vector addition associates, componentwise from the scalar's own law.
pub proof fn lemma_vector3_add_associates<S: ExactScalar>(u: Vector3<S>, v: Vector3<S>, w: Vector3<S>)
    ensures
        Vector3::sp_add(Vector3::sp_add(u, v), w) == Vector3::sp_add(u, Vector3::sp_add(v, w)),
{
    S::add_associates(u.x, v.x, w.x);
    S::add_associates(u.y, v.y, w.y);
    S::add_associates(u.z, v.z, w.z);
}

/// Normalizing the zero vector leaves it unchanged: its squared length
/// is exactly the scalar's zero, which is not strictly positive.
pub proof fn lemma_vector3_normalize_zero<S: ExactScalar>(u: Vector3<S>)
    requires
        u.x == S::sp_zero(),
        u.y == S::sp_zero(),
        u.z == S::sp_zero(),
    ensures
        Vector3::sp_normalize(u) == u,
{
    S::zero_mul_zero();
    S::zero_add_zero();
    S::lt_irreflexive(S::sp_zero());
}

} // verus!
