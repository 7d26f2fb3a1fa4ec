//! The sphere primitive and its analytic ray-intersection test.

use vstd::prelude::*;

use crate::pbrt::vector::Vector3;
use crate::scalar::Scalar;

verus! {

/// A sphere, stored as its center (a plain 3-vector of scalars) and its
/// radius. The intersection math assumes a positive radius; nothing
/// enforces it at construction.
#[derive(Clone, Copy, Debug)]
pub struct Sphere<S: Scalar> {
    center: Vector3<S>,
    radius: S,
}

impl<S: Scalar> Sphere<S> {
    /// The stored center.
    pub closed spec fn sp_center(s: Self) -> Vector3<S> {
        s.center
    }

    /// The stored radius.
    pub closed spec fn sp_radius(s: Self) -> S {
        s.radius
    }

    /// Projection of the center offset onto the ray direction: how far
    /// along the ray the center's closest approach lies.
    pub open spec fn sp_tca(s: Self, origin: Vector3<S>, direction: Vector3<S>) -> S {
        Vector3::sp_dot(Vector3::sp_sub(Self::sp_center(s), origin), direction)
    }

    /// Squared distance from the sphere center to the ray line.
    pub open spec fn sp_d2(s: Self, origin: Vector3<S>, direction: Vector3<S>) -> S {
        S::sp_sub(
            Vector3::sp_length_squared(Vector3::sp_sub(Self::sp_center(s), origin)),
            S::sp_mul(Self::sp_tca(s, origin, direction), Self::sp_tca(s, origin, direction)),
        )
    }

    /// Whether the test reports an intersection: the center must not
    /// project behind the ray origin, and the ray line must pass within
    /// the radius. Rejecting `tca < 0` outright also rejects rays whose
    /// origin lies inside the sphere with the center behind them; that
    /// is this renderer's documented policy for now, kept until shadow
    /// or recursive rays need the interior case.
    pub open spec fn sp_hit(s: Self, origin: Vector3<S>, direction: Vector3<S>) -> bool {
        &&& !S::sp_lt(Self::sp_tca(s, origin, direction), S::sp_zero())
        &&& !S::sp_lt(S::sp_mul(Self::sp_radius(s), Self::sp_radius(s)), Self::sp_d2(s, origin, direction))
    }

    /// Half-chord length: `sqrt(radius^2 - d2)`, the canonical analytic
    /// form. (A tempting shortcut, `sqrt(radius^2) - d2`, is
    /// dimensionally wrong; the canonical formula is the deliberate,
    /// documented choice here.)
    pub open spec fn sp_thc(s: Self, origin: Vector3<S>, direction: Vector3<S>) -> S {
        S::sp_sqrt(S::sp_sub(S::sp_mul(Self::sp_radius(s), Self::sp_radius(s)), Self::sp_d2(s, origin, direction)))
    }

    /// The near intersection parameter.
    pub open spec fn sp_t0(s: Self, origin: Vector3<S>, direction: Vector3<S>) -> S {
        S::sp_sub(Self::sp_tca(s, origin, direction), Self::sp_thc(s, origin, direction))
    }

    /// The far intersection parameter.
    pub open spec fn sp_t1(s: Self, origin: Vector3<S>, direction: Vector3<S>) -> S {
        S::sp_add(Self::sp_tca(s, origin, direction), Self::sp_thc(s, origin, direction))
    }

    pub fn new(center: Vector3<S>, radius: S) -> (r: Self)
        ensures
            Self::sp_center(r) == center,
            Self::sp_radius(r) == radius,
    {
        Sphere { center, radius }
    }

    pub fn center(&self) -> (r: Vector3<S>)
        ensures
            r == Self::sp_center(*self),
    {
        self.center
    }

    pub fn radius(&self) -> (r: S)
        ensures
            r == Self::sp_radius(*self),
    {
        self.radius
    }

    /// Analytic ray-sphere test. Returns `(t0, t1, true)` with the near
    /// and far parameters on a hit, and the scalar's greatest value in
    /// both slots on a miss. Pure: a function of the sphere, origin and
    /// direction alone. The direction is ideally unit length; the
    /// parameters are scaled by its length otherwise.
    pub fn intersects(&self, origin: &Vector3<S>, direction: &Vector3<S>) -> (r: (S, S, bool))
        ensures
            r.2 == Self::sp_hit(*self, *origin, *direction),
            r.2 ==> r.0 == Self::sp_t0(*self, *origin, *direction),
            r.2 ==> r.1 == Self::sp_t1(*self, *origin, *direction),
            !r.2 ==> r.0 == S::sp_max_value() && r.1 == S::sp_max_value(),
    {
        let l = self.center().sub(*origin);
        let tca = l.dot(direction);

        if S::lt(tca, S::zero()) {
            return (S::max_value(), S::max_value(), false);
        }

        let d2 = S::sub(l.length_squared(), S::mul(tca, tca));
        let rr = S::mul(self.radius, self.radius);
        if S::lt(rr, d2) {
            return (S::max_value(), S::max_value(), false);
        }

        let thc = S::sqrt(S::sub(rr, d2));

        let t0 = S::sub(tca, thc);
        let t1 = S::add(tca, thc);
        (t0, t1, true)
    }
}

} // verus!
