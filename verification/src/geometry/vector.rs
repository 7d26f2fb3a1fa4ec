//! The first-generation vector types: an integer 2D vector and an
//! encapsulated 3D vector.
//!
//! These predate the richer types under [`crate::pbrt`] and are kept
//! for the callers built against them: the 2D vector works over machine
//! integers, and the 3D vector hides its components behind accessors
//! instead of exposing fields.

use vstd::prelude::*;

use crate::scalar::Scalar;

verus! {

/// A 2D integer displacement.
#[derive(Clone, Copy, Debug)]
pub struct Vector2 {
    x: i64,
    y: i64,
}

impl Vector2 {
    /// The stored x component.
    pub closed spec fn sp_x(v: Self) -> i64 {
        v.x
    }

    /// The stored y component.
    pub closed spec fn sp_y(v: Self) -> i64 {
        v.y
    }

    pub fn new(x: i64, y: i64) -> (r: Self)
        ensures
            Self::sp_x(r) == x,
            Self::sp_y(r) == y,
    {
        Vector2 { x, y }
    }

    pub fn x(&self) -> (r: i64)
        ensures
            r == Self::sp_x(*self),
    {
        self.x
    }

    pub fn y(&self) -> (r: i64)
        ensures
            r == Self::sp_y(*self),
    {
        self.y
    }

    /// Componentwise sum. The components are machine integers, so the
    /// caller vouches that both sums stay in range.
    pub fn add(self, rhs: Self) -> (r: Self)
        requires
            i64::MIN <= Self::sp_x(self) + Self::sp_x(rhs) <= i64::MAX,
            i64::MIN <= Self::sp_y(self) + Self::sp_y(rhs) <= i64::MAX,
        ensures
            Self::sp_x(r) == Self::sp_x(self) + Self::sp_x(rhs),
            Self::sp_y(r) == Self::sp_y(self) + Self::sp_y(rhs),
    {
        let x = self.x() + rhs.x();
        let y = self.y() + rhs.y();

        Vector2::new(x, y)
    }
}

/// A 3D displacement with encapsulated components.
#[derive(Clone, Copy, Debug)]
pub struct Vector3<S: Scalar> {
    x: S,
    y: S,
    z: S,
}

impl<S: Scalar> Vector3<S> {
    /// The stored x component.
    pub closed spec fn sp_x(v: Self) -> S {
        v.x
    }

    /// The stored y component.
    pub closed spec fn sp_y(v: Self) -> S {
        v.y
    }

    /// The stored z component.
    pub closed spec fn sp_z(v: Self) -> S {
        v.z
    }

    /// Sum of squared components, in the order the arithmetic performs
    /// it.
    pub open spec fn sp_length_squared(v: Self) -> S {
        S::sp_add(
            S::sp_add(S::sp_mul(Self::sp_x(v), Self::sp_x(v)), S::sp_mul(Self::sp_y(v), Self::sp_y(v))),
            S::sp_mul(Self::sp_z(v), Self::sp_z(v)),
        )
    }

    /// Square root of the squared length.
    pub open spec fn sp_length(v: Self) -> S {
        S::sp_sqrt(Self::sp_length_squared(v))
    }

    /// Inner product, in the order the arithmetic performs it.
    pub open spec fn sp_dot(v: Self, other: Self) -> S {
        S::sp_add(
            S::sp_add(
                S::sp_mul(Self::sp_x(v), Self::sp_x(other)),
                S::sp_mul(Self::sp_y(v), Self::sp_y(other)),
            ),
            S::sp_mul(Self::sp_z(v), Self::sp_z(other)),
        )
    }

    pub fn new(x: S, y: S, z: S) -> (r: Self)
        ensures
            Self::sp_x(r) == x,
            Self::sp_y(r) == y,
            Self::sp_z(r) == z,
    {
        Vector3 { x, y, z }
    }

    pub fn x(&self) -> (r: S)
        ensures
            r == Self::sp_x(*self),
    {
        self.x
    }

    pub fn y(&self) -> (r: S)
        ensures
            r == Self::sp_y(*self),
    {
        self.y
    }

    pub fn z(&self) -> (r: S)
        ensures
            r == Self::sp_z(*self),
    {
        self.z
    }

    pub fn set_x(&mut self, x: S)
        ensures
            Self::sp_x(*final(self)) == x,
            Self::sp_y(*final(self)) == Self::sp_y(*old(self)),
            Self::sp_z(*final(self)) == Self::sp_z(*old(self)),
    {
        self.x = x
    }

    pub fn set_y(&mut self, y: S)
        ensures
            Self::sp_y(*final(self)) == y,
            Self::sp_x(*final(self)) == Self::sp_x(*old(self)),
            Self::sp_z(*final(self)) == Self::sp_z(*old(self)),
    {
        self.y = y
    }

    pub fn set_z(&mut self, z: S)
        ensures
            Self::sp_z(*final(self)) == z,
            Self::sp_x(*final(self)) == Self::sp_x(*old(self)),
            Self::sp_y(*final(self)) == Self::sp_y(*old(self)),
    {
        self.z = z
    }

    pub fn length_squared(&self) -> (r: S)
        ensures
            r == Self::sp_length_squared(*self),
    {
        S::add(
            S::add(S::mul(self.x, self.x), S::mul(self.y, self.y)),
            S::mul(self.z, self.z),
        )
    }

    pub fn length(&self) -> (r: S)
        ensures
            r == Self::sp_length(*self),
    {
        S::sqrt(self.length_squared())
    }

    pub fn dot(&self, other: &Self) -> (r: S)
        ensures
            r == Self::sp_dot(*self, *other),
    {
        S::add(
            S::add(S::mul(self.x, other.x), S::mul(self.y, other.y)),
            S::mul(self.z, other.z),
        )
    }

    /// Componentwise sum.
    pub fn add(self, rhs: Self) -> (r: Self)
        ensures
            Self::sp_x(r) == S::sp_add(Self::sp_x(self), Self::sp_x(rhs)),
            Self::sp_y(r) == S::sp_add(Self::sp_y(self), Self::sp_y(rhs)),
            Self::sp_z(r) == S::sp_add(Self::sp_z(self), Self::sp_z(rhs)),
    {
        Vector3::new(
            S::add(self.x(), rhs.x()),
            S::add(self.y(), rhs.y()),
            S::add(self.z(), rhs.z()),
        )
    }

    /// Componentwise difference.
    pub fn sub(self, rhs: Self) -> (r: Self)
        ensures
            Self::sp_x(r) == S::sp_sub(Self::sp_x(self), Self::sp_x(rhs)),
            Self::sp_y(r) == S::sp_sub(Self::sp_y(self), Self::sp_y(rhs)),
            Self::sp_z(r) == S::sp_sub(Self::sp_z(self), Self::sp_z(rhs)),
    {
        Vector3::new(
            S::sub(self.x(), rhs.x()),
            S::sub(self.y(), rhs.y()),
            S::sub(self.z(), rhs.z()),
        )
    }
}

} // verus!
