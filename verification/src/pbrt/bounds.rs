//! Axis-aligned bounding boxes over points.
//!
//! A bounds value is a pair of corner points. That `min` is
//! componentwise at or below `max` is an invariant the caller
//! establishes when building the pair — construction does not reorder
//! the corners — and the derived queries (diagonal, area, volume,
//! extent, interpolation, offsets) are all read-only.

use vstd::prelude::*;

use crate::pbrt::point::Point2;
use crate::pbrt::point::Point3;
use crate::pbrt::sp_lerp;
use crate::pbrt::vector::Vector2;
use crate::pbrt::vector::Vector3;
use crate::scalar::Scalar;

verus! {

/// A 2D axis-aligned box: the corner pair `min`, `max`.
#[derive(Clone, Copy, Debug)]
pub struct Bounds2<S: Scalar> {
    pub min: Point2<S>,
    pub max: Point2<S>,
}

impl<S: Scalar> Bounds2<S> {
    /// The diagonal displacement, `max - min`.
    pub open spec fn sp_diagonal(b: Self) -> Vector2<S> {
        Point2::sp_sub(b.max, b.min)
    }

    /// Product of the diagonal's components.
    pub open spec fn sp_area(b: Self) -> S {
        S::sp_mul(Self::sp_diagonal(b).x, Self::sp_diagonal(b).y)
    }

    /// Axis of the largest diagonal component; a tie resolves toward the
    /// lower axis index.
    pub open spec fn sp_maximum_extent(b: Self) -> u8 {
        if !S::sp_lt(Self::sp_diagonal(b).x, Self::sp_diagonal(b).y) {
            0u8
        } else {
            1u8
        }
    }

    /// Componentwise interpolation of a unit-square-relative point into
    /// the bounds.
    pub open spec fn sp_lerp(b: Self, p: Point2<S>) -> Point2<S> {
        Point2 {
            x: sp_lerp(p.x, b.min.x, b.max.x),
            y: sp_lerp(p.y, b.min.y, b.max.y),
        }
    }

    /// The inverse of [`Bounds2::sp_lerp`]: the position of a world
    /// point relative to the bounds, axis by axis. A degenerate
    /// (zero-width) axis leaves that component unscaled.
    pub open spec fn sp_offset(b: Self, p: Point2<S>) -> Vector2<S> {
        Vector2 {
            x: if S::sp_lt(b.min.x, b.max.x) {
                S::sp_div(Point2::sp_sub(p, b.min).x, S::sp_sub(b.max.x, b.min.x))
            } else {
                Point2::sp_sub(p, b.min).x
            },
            y: if S::sp_lt(b.min.y, b.max.y) {
                S::sp_div(Point2::sp_sub(p, b.min).y, S::sp_sub(b.max.y, b.min.y))
            } else {
                Point2::sp_sub(p, b.min).y
            },
        }
    }

    /// The corner selected by an endpoint index: 0 is `min`, 1 is `max`.
    pub open spec fn sp_endpoint(b: Self, i: u8) -> Point2<S> {
        if i == 0 {
            b.min
        } else {
            b.max
        }
    }

    pub fn diagonal(&self) -> (r: Vector2<S>)
        ensures
            r == Self::sp_diagonal(*self),
    {
        self.max.sub(self.min)
    }

    pub fn area(&self) -> (r: S)
        ensures
            r == Self::sp_area(*self),
    {
        let d = self.diagonal();
        S::mul(d.x, d.y)
    }

    pub fn maximum_extent(&self) -> (r: u8)
        ensures
            r == Self::sp_maximum_extent(*self),
    {
        let d = self.diagonal();
        if S::lt(d.x, d.y) {
            1
        } else {
            0
        }
    }

    pub fn lerp(&self, other: Point2<S>) -> (r: Point2<S>)
        ensures
            r == Self::sp_lerp(*self, other),
    {
        Point2::new(
            crate::pbrt::lerp(other.x, self.min.x, self.max.x),
            crate::pbrt::lerp(other.y, self.min.y, self.max.y),
        )
    }

    pub fn offset(&self, other: Point2<S>) -> (r: Vector2<S>)
        ensures
            r == Self::sp_offset(*self, other),
    {
        let mut o = other.sub(self.min);
        if S::lt(self.min.x, self.max.x) {
            o.x = S::div(o.x, S::sub(self.max.x, self.min.x));
        }
        if S::lt(self.min.y, self.max.y) {
            o.y = S::div(o.y, S::sub(self.max.y, self.min.y));
        }
        o
    }

    /// Bounds-checked endpoint access: 0 is `min`, 1 is `max`.
    pub fn endpoint(&self, i: u8) -> (r: Point2<S>)
        requires
            i < 2,
        ensures
            r == Self::sp_endpoint(*self, i),
    {
        if i == 0 {
            self.min
        } else {
            self.max
        }
    }
}

/// A 3D axis-aligned box: the corner pair `min`, `max`.
#[derive(Clone, Copy, Debug)]
pub struct Bounds3<S: Scalar> {
    pub min: Point3<S>,
    pub max: Point3<S>,
}

impl<S: Scalar> Bounds3<S> {
    /// The diagonal displacement, `max - min`.
    pub open spec fn sp_diagonal(b: Self) -> Vector3<S> {
        Point3::sp_sub(b.max, b.min)
    }

    /// Twice the sum of the three face-pair products.
    pub open spec fn sp_surface_area(b: Self) -> S {
        S::sp_add(Self::sp_face_sum(b), Self::sp_face_sum(b))
    }

    /// Sum of the three face-pair products of the diagonal.
    pub open spec fn sp_face_sum(b: Self) -> S {
        S::sp_add(
            S::sp_add(
                S::sp_mul(Self::sp_diagonal(b).x, Self::sp_diagonal(b).y),
                S::sp_mul(Self::sp_diagonal(b).x, Self::sp_diagonal(b).z),
            ),
            S::sp_mul(Self::sp_diagonal(b).y, Self::sp_diagonal(b).z),
        )
    }

    /// Product of the diagonal's components.
    pub open spec fn sp_volume(b: Self) -> S {
        S::sp_mul(
            S::sp_mul(Self::sp_diagonal(b).x, Self::sp_diagonal(b).y),
            Self::sp_diagonal(b).z,
        )
    }

    /// Axis of the largest diagonal component; ties resolve toward the
    /// lower axis index: x beats y beats z.
    pub open spec fn sp_maximum_extent(b: Self) -> u8 {
        if !S::sp_lt(Self::sp_diagonal(b).x, Self::sp_diagonal(b).y) && !S::sp_lt(
            Self::sp_diagonal(b).x,
            Self::sp_diagonal(b).z,
        ) {
            0u8
        } else if !S::sp_lt(Self::sp_diagonal(b).y, Self::sp_diagonal(b).z) {
            1u8
        } else {
            2u8
        }
    }

    /// Componentwise interpolation of a unit-cube-relative point into
    /// the bounds.
    pub open spec fn sp_lerp(b: Self, p: Point3<S>) -> Point3<S> {
        Point3 {
            x: sp_lerp(p.x, b.min.x, b.max.x),
            y: sp_lerp(p.y, b.min.y, b.max.y),
            z: sp_lerp(p.z, b.min.z, b.max.z),
        }
    }

    /// The inverse of [`Bounds3::sp_lerp`]: the position of a world
    /// point relative to the bounds, axis by axis. A degenerate
    /// (zero-width) axis leaves that component unscaled.
    pub open spec fn sp_offset(b: Self, p: Point3<S>) -> Vector3<S> {
        Vector3 {
            x: if S::sp_lt(b.min.x, b.max.x) {
                S::sp_div(Point3::sp_sub(p, b.min).x, S::sp_sub(b.max.x, b.min.x))
            } else {
                Point3::sp_sub(p, b.min).x
            },
            y: if S::sp_lt(b.min.y, b.max.y) {
                S::sp_div(Point3::sp_sub(p, b.min).y, S::sp_sub(b.max.y, b.min.y))
            } else {
                Point3::sp_sub(p, b.min).y
            },
            z: if S::sp_lt(b.min.z, b.max.z) {
                S::sp_div(Point3::sp_sub(p, b.min).z, S::sp_sub(b.max.z, b.min.z))
            } else {
                Point3::sp_sub(p, b.min).z
            },
        }
    }

    /// The corner selected by an endpoint index: 0 is `min`, 1 is `max`.
    pub open spec fn sp_endpoint(b: Self, i: u8) -> Point3<S> {
        if i == 0 {
            b.min
        } else {
            b.max
        }
    }

    /// The corner of the box selected by an index in `0..8`: bit 0
    /// picks between `min.x` and `max.x`, bit 1 between the y
    /// coordinates, bit 2 between the z coordinates.
    pub open spec fn sp_corner(b: Self, i: u8) -> Point3<S> {
        Point3 {
            x: if i & 1 != 0 {
                b.max.x
            } else {
                b.min.x
            },
            y: if i & 2 != 0 {
                b.max.y
            } else {
                b.min.y
            },
            z: if i & 4 != 0 {
                b.max.z
            } else {
                b.min.z
            },
        }
    }

    /// Bounds-checked corner enumeration for indices `0..8`.
    pub fn corner(&self, corner: u8) -> (r: Point3<S>)
        requires
            corner < 8,
        ensures
            r == Self::sp_corner(*self, corner),
    {
        let xi: u8 = corner & 1;
        let yi: u8 = if corner & 2 > 0 {
            1
        } else {
            0
        };
        let zi: u8 = if corner & 4 > 0 {
            1
        } else {
            0
        };
        assert((corner & 1) < 2 && ((corner & 1) == 1 <==> corner & 1 != 0)) by (bit_vector);
        Point3::new(self.endpoint(xi).x, self.endpoint(yi).y, self.endpoint(zi).z)
    }

    pub fn diagonal(&self) -> (r: Vector3<S>)
        ensures
            r == Self::sp_diagonal(*self),
    {
        self.max.sub(self.min)
    }

    pub fn surface_area(&self) -> (r: S)
        ensures
            r == Self::sp_surface_area(*self),
    {
        let d = self.diagonal();
        let face_sum = S::add(
            S::add(S::mul(d.x, d.y), S::mul(d.x, d.z)),
            S::mul(d.y, d.z),
        );
        S::add(face_sum, face_sum)
    }

    pub fn volume(&self) -> (r: S)
        ensures
            r == Self::sp_volume(*self),
    {
        let d = self.diagonal();
        S::mul(S::mul(d.x, d.y), d.z)
    }

    pub fn maximum_extent(&self) -> (r: u8)
        ensures
            r == Self::sp_maximum_extent(*self),
    {
        let d = self.diagonal();
        if !S::lt(d.x, d.y) && !S::lt(d.x, d.z) {
            0
        } else if !S::lt(d.y, d.z) {
            1
        } else {
            2
        }
    }

    pub fn lerp(&self, other: Point3<S>) -> (r: Point3<S>)
        ensures
            r == Self::sp_lerp(*self, other),
    {
        Point3::new(
            crate::pbrt::lerp(other.x, self.min.x, self.max.x),
            crate::pbrt::lerp(other.y, self.min.y, self.max.y),
            crate::pbrt::lerp(other.z, self.min.z, self.max.z),
        )
    }

    pub fn offset(&self, other: Point3<S>) -> (r: Vector3<S>)
        ensures
            r == Self::sp_offset(*self, other),
    {
        let mut o = other.sub(self.min);
        if S::lt(self.min.x, self.max.x) {
            o.x = S::div(o.x, S::sub(self.max.x, self.min.x));
        }
        if S::lt(self.min.y, self.max.y) {
            o.y = S::div(o.y, S::sub(self.max.y, self.min.y));
        }
        if S::lt(self.min.z, self.max.z) {
            o.z = S::div(o.z, S::sub(self.max.z, self.min.z));
        }
        o
    }

    /// Bounds-checked endpoint access: 0 is `min`, 1 is `max`.
    pub fn endpoint(&self, i: u8) -> (r: Point3<S>)
        requires
            i < 2,
        ensures
            r == Self::sp_endpoint(*self, i),
    {
        if i == 0 {
            self.min
        } else {
            self.max
        }
    }
}

/// Which endpoint each axis of corner `i` draws from: the three low
/// bits of the corner index, one per axis.
pub open spec fn corner_endpoint_bits(i: u8) -> (bool, bool, bool) {
    (i & 1 != 0, i & 2 != 0, i & 4 != 0)
}

/// The eight corner indices pick eight distinct endpoint combinations:
/// no two corners draw from the same min/max choice on every axis.
pub proof fn lemma_corner_bits_distinct(i: u8, j: u8)
    requires
        i < 8,
        j < 8,
        i != j,
    ensures
        corner_endpoint_bits(i) != corner_endpoint_bits(j),
{
    assert(!(i < 8 && j < 8 && i != j && (i & 1 != 0) == (j & 1 != 0) && (i & 2 != 0) == (j & 2
        != 0) && (i & 4 != 0) == (j & 4 != 0))) by (bit_vector);
}

} // verus!
