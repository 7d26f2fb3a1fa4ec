//! Spectral power distributions, stubbed at three RGB coefficients.
//!
//! The spectral pipeline around the renderer is not implemented yet:
//! this type exists so that media and future integrators have a value
//! to pass around, and its arithmetic is plain componentwise work over
//! the scalar. Nothing downstream relies on its behavior.

use vstd::prelude::*;

use crate::scalar::Scalar;

verus! {

/// A three-coefficient spectrum.
#[derive(Clone, Copy, Debug)]
pub struct RGBSpectrum<S: Scalar> {
    pub samples: [S; 3],
}

impl<S: Scalar> RGBSpectrum<S> {
    /// A spectrum with every coefficient set to `default`.
    pub fn new(default: S) -> (r: Self)
        ensures
            r.samples[0] == default,
            r.samples[1] == default,
            r.samples[2] == default,
    {
        RGBSpectrum { samples: [default, default, default] }
    }

    /// Placeholder logic, kept as it stands until the spectral
    /// pipeline exists: it reports true only when no coefficient holds
    /// an exact zero, and no caller relies on it yet.
    pub fn is_black(&self) -> (r: bool)
        ensures
            r == (!S::sp_eq(self.samples[0], S::sp_zero()) && !S::sp_eq(
                self.samples[1],
                S::sp_zero(),
            ) && !S::sp_eq(self.samples[2], S::sp_zero())),
    {
        if S::eq(self.samples[0], S::zero()) {
            return false;
        }
        if S::eq(self.samples[1], S::zero()) {
            return false;
        }
        if S::eq(self.samples[2], S::zero()) {
            return false;
        }
        true
    }

    /// Componentwise sum.
    pub fn add(self, rhs: Self) -> (r: Self)
        ensures
            r.samples[0] == S::sp_add(self.samples[0], rhs.samples[0]),
            r.samples[1] == S::sp_add(self.samples[1], rhs.samples[1]),
            r.samples[2] == S::sp_add(self.samples[2], rhs.samples[2]),
    {
        RGBSpectrum {
            samples: [
                S::add(self.samples[0], rhs.samples[0]),
                S::add(self.samples[1], rhs.samples[1]),
                S::add(self.samples[2], rhs.samples[2]),
            ],
        }
    }

    /// Componentwise sum, in place.
    pub fn add_assign(&mut self, rhs: Self)
        ensures
            final(self).samples[0] == S::sp_add(old(self).samples[0], rhs.samples[0]),
            final(self).samples[1] == S::sp_add(old(self).samples[1], rhs.samples[1]),
            final(self).samples[2] == S::sp_add(old(self).samples[2], rhs.samples[2]),
    {
        self.samples = [
            S::add(self.samples[0], rhs.samples[0]),
            S::add(self.samples[1], rhs.samples[1]),
            S::add(self.samples[2], rhs.samples[2]),
        ];
    }

    /// Componentwise difference.
    pub fn sub(self, rhs: Self) -> (r: Self)
        ensures
            r.samples[0] == S::sp_sub(self.samples[0], rhs.samples[0]),
            r.samples[1] == S::sp_sub(self.samples[1], rhs.samples[1]),
            r.samples[2] == S::sp_sub(self.samples[2], rhs.samples[2]),
    {
        RGBSpectrum {
            samples: [
                S::sub(self.samples[0], rhs.samples[0]),
                S::sub(self.samples[1], rhs.samples[1]),
                S::sub(self.samples[2], rhs.samples[2]),
            ],
        }
    }

    /// Componentwise difference, in place.
    pub fn sub_assign(&mut self, rhs: Self)
        ensures
            final(self).samples[0] == S::sp_sub(old(self).samples[0], rhs.samples[0]),
            final(self).samples[1] == S::sp_sub(old(self).samples[1], rhs.samples[1]),
            final(self).samples[2] == S::sp_sub(old(self).samples[2], rhs.samples[2]),
    {
        self.samples = [
            S::sub(self.samples[0], rhs.samples[0]),
            S::sub(self.samples[1], rhs.samples[1]),
            S::sub(self.samples[2], rhs.samples[2]),
        ];
    }

    /// Componentwise product.
    pub fn mul(self, rhs: Self) -> (r: Self)
        ensures
            r.samples[0] == S::sp_mul(self.samples[0], rhs.samples[0]),
            r.samples[1] == S::sp_mul(self.samples[1], rhs.samples[1]),
            r.samples[2] == S::sp_mul(self.samples[2], rhs.samples[2]),
    {
        RGBSpectrum {
            samples: [
                S::mul(self.samples[0], rhs.samples[0]),
                S::mul(self.samples[1], rhs.samples[1]),
                S::mul(self.samples[2], rhs.samples[2]),
            ],
        }
    }

    /// Componentwise product, in place.
    pub fn mul_assign(&mut self, rhs: Self)
        ensures
            final(self).samples[0] == S::sp_mul(old(self).samples[0], rhs.samples[0]),
            final(self).samples[1] == S::sp_mul(old(self).samples[1], rhs.samples[1]),
            final(self).samples[2] == S::sp_mul(old(self).samples[2], rhs.samples[2]),
    {
        self.samples = [
            S::mul(self.samples[0], rhs.samples[0]),
            S::mul(self.samples[1], rhs.samples[1]),
            S::mul(self.samples[2], rhs.samples[2]),
        ];
    }

    /// Componentwise quotient; a zero divisor is the scalar's own
    /// policy, never a fault.
    pub fn div(self, rhs: Self) -> (r: Self)
        ensures
            r.samples[0] == S::sp_div(self.samples[0], rhs.samples[0]),
            r.samples[1] == S::sp_div(self.samples[1], rhs.samples[1]),
            r.samples[2] == S::sp_div(self.samples[2], rhs.samples[2]),
    {
        RGBSpectrum {
            samples: [
                S::div(self.samples[0], rhs.samples[0]),
                S::div(self.samples[1], rhs.samples[1]),
                S::div(self.samples[2], rhs.samples[2]),
            ],
        }
    }

    /// Componentwise quotient, in place.
    pub fn div_assign(&mut self, rhs: Self)
        ensures
            final(self).samples[0] == S::sp_div(old(self).samples[0], rhs.samples[0]),
            final(self).samples[1] == S::sp_div(old(self).samples[1], rhs.samples[1]),
            final(self).samples[2] == S::sp_div(old(self).samples[2], rhs.samples[2]),
    {
        self.samples = [
            S::div(self.samples[0], rhs.samples[0]),
            S::div(self.samples[1], rhs.samples[1]),
            S::div(self.samples[2], rhs.samples[2]),
        ];
    }

    /// Coefficientwise equality through the scalar's own equality.
    pub fn eq(&self, other: &Self) -> (r: bool)
        ensures
            r == (S::sp_eq(self.samples[0], other.samples[0]) && S::sp_eq(
                self.samples[1],
                other.samples[1],
            ) && S::sp_eq(self.samples[2], other.samples[2])),
    {
        if !S::eq(self.samples[0], other.samples[0]) {
            return false;
        }
        if !S::eq(self.samples[1], other.samples[1]) {
            return false;
        }
        if !S::eq(self.samples[2], other.samples[2]) {
            return false;
        }
        true
    }
}

} // verus!
