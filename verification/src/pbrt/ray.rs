//! Parametric rays, with and without auxiliary differentials.

use vstd::prelude::*;

use crate::pbrt::point::Point3;
use crate::pbrt::vector::Vector3;
use crate::scalar::Scalar;

verus! {

/// A parametric ray: points `origin + t * direction` for `t` in
/// `[0, t_max]`. The direction need not be unit length at construction
/// (the camera normalizes before tracing); `time` is carried for future
/// motion blur.
#[derive(Clone, Copy, Debug)]
pub struct Ray<S: Scalar> {
    pub origin: Point3<S>,
    pub direction: Vector3<S>,
    pub t_max: S,
    pub time: S,
}

impl<S: Scalar> Ray<S> {
    pub fn new(origin: Point3<S>, direction: Vector3<S>, t_max: S, time: S) -> (r: Self)
        ensures
            r.origin == origin,
            r.direction == direction,
            r.t_max == t_max,
            r.time == time,
    {
        Ray { origin, direction, t_max, time }
    }
}

/// A ray carrying two auxiliary origin/direction pairs, offset one pixel
/// in x and in y, for future texture-filtering footprint estimates. The
/// present visibility-only renderer never exercises the differentials.
#[derive(Clone, Copy, Debug)]
pub struct RayDifferential<S: Scalar> {
    pub origin: Point3<S>,
    pub direction: Vector3<S>,
    pub t_max: S,
    pub time: S,
    pub has_differentials: bool,
    pub rx_origin: Point3<S>,
    pub ry_origin: Point3<S>,
    pub rx_direction: Vector3<S>,
    pub ry_direction: Vector3<S>,
}

impl<S: Scalar> RayDifferential<S> {
    /// Where an auxiliary origin lands after its offset from the primary
    /// origin is scaled by `s`.
    pub open spec fn sp_rebased_origin(r: Self, aux: Point3<S>, s: S) -> Point3<S> {
        Point3::sp_add(r.origin, Vector3::sp_scale(Point3::sp_sub(aux, r.origin), s))
    }

    /// Where an auxiliary direction lands after its offset from the
    /// primary direction is scaled by `s`.
    pub open spec fn sp_rebased_direction(r: Self, aux: Vector3<S>, s: S) -> Vector3<S> {
        Vector3::sp_add(r.direction, Vector3::sp_scale(Vector3::sp_sub(aux, r.direction), s))
    }

    /// Re-base the auxiliary rays around the primary ray: each offset
    /// from the primary origin or direction is scaled by `s`. The
    /// primary ray itself is untouched.
    pub fn scale_differentials(&mut self, s: S)
        ensures
            final(self).origin == old(self).origin,
            final(self).direction == old(self).direction,
            final(self).t_max == old(self).t_max,
            final(self).time == old(self).time,
            final(self).has_differentials == old(self).has_differentials,
            final(self).rx_origin == Self::sp_rebased_origin(*old(self), old(self).rx_origin, s),
            final(self).ry_origin == Self::sp_rebased_origin(*old(self), old(self).ry_origin, s),
            final(self).rx_direction == Self::sp_rebased_direction(
                *old(self),
                old(self).rx_direction,
                s,
            ),
            final(self).ry_direction == Self::sp_rebased_direction(
                *old(self),
                old(self).ry_direction,
                s,
            ),
    {
        self.rx_origin = self.origin.add(self.rx_origin.sub(self.origin).scale(s));
        self.ry_origin = self.origin.add(self.ry_origin.sub(self.origin).scale(s));
        self.rx_direction = self.direction.add(self.rx_direction.sub(self.direction).scale(s));
        self.ry_direction = self.direction.add(self.ry_direction.sub(self.direction).scale(s));
    }
}

} // verus!
