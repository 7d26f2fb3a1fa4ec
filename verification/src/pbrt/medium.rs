//! Participating-media interfaces, present as collaborator stubs.
//!
//! Nothing in the visibility renderer evaluates media yet; these items
//! fix the shapes future integrators will program against.

use vstd::prelude::*;

use crate::pbrt::point::Point2;
use crate::pbrt::sp_inv_4_pi;
use crate::pbrt::spectrum::RGBSpectrum;
use crate::pbrt::vector::Vector3;
use crate::scalar::Scalar;

verus! {

/// A phase function a medium implementation supplies: the scattered
/// fraction for a pair of directions, and a sampled evaluation driven
/// by a 2D sample point. No behavior is demanded of implementations
/// yet.
pub trait PhaseFunction<S: Scalar> {
    fn p(&self, wo: &Vector3<S>, wi: &Vector3<S>) -> S;

    fn sample_p(&self, wo: &Vector3<S>, wi: &Vector3<S>, u: &Point2<S>) -> S;
}

/// Look up the absorption and scattering spectra of a named medium.
/// Placeholder until a measured-media table exists: it reports success
/// unconditionally and leaves the spectra untouched.
#[allow(unused_variables)]
pub fn get_medium_scattering_properties<S: Scalar>(
    name: &String,
    sigma_a: &RGBSpectrum<S>,
    sigma_s: &RGBSpectrum<S>,
) -> (found: bool)
    ensures
        found,
{
    true
}

/// The meaning of the Henyey-Greenstein phase function over a scalar:
/// `inv_4_pi * (1 - g^2) / (d * sqrt(d))` with
/// `d = 1 + g^2 + 2 * g * cos_theta`, in the order the arithmetic
/// performs it.
pub open spec fn sp_phase_hg<S: Scalar>(cos_theta: S, g: S) -> S {
    S::sp_div(
        S::sp_mul(sp_inv_4_pi::<S>(), S::sp_sub(S::sp_one(), S::sp_mul(g, g))),
        S::sp_mul(
            S::sp_add(S::sp_add(S::sp_one(), S::sp_mul(g, g)), S::sp_mul(S::sp_mul(S::sp_from_i64(2), g), cos_theta)),
            S::sp_sqrt(
                S::sp_add(
                    S::sp_add(S::sp_one(), S::sp_mul(g, g)),
                    S::sp_mul(S::sp_mul(S::sp_from_i64(2), g), cos_theta),
                ),
            ),
        ),
    )
}

/// The Henyey-Greenstein phase function for a scattering asymmetry `g`
/// and a direction cosine.
pub fn phase_hg<S: Scalar>(cos_theta: S, g: S) -> (r: S)
    ensures
        r == sp_phase_hg(cos_theta, g),
{
    let denom = S::add(
        S::add(S::one(), S::mul(g, g)),
        S::mul(S::mul(S::from_i64(2), g), cos_theta),
    );
    S::div(
        S::mul(crate::pbrt::inv_4_pi(), S::sub(S::one(), S::mul(g, g))),
        S::mul(denom, S::sqrt(denom)),
    )
}

/// A participating medium. Its transmittance query arrives with the
/// sampler interface; the trait fixes the name integrators will bind.
pub trait Medium {
}

} // verus!
