//! The renderer's core value types: geometry, media stubs and spectra,
//! plus the shared interpolation helper.

pub mod bounds;
pub mod medium;
pub mod normal;
pub mod point;
pub mod ray;
pub mod spectrum;
pub mod sphere;
pub mod vector;

use vstd::prelude::*;

use crate::scalar::Scalar;

verus! {

/// Meaning of linear interpolation: `(1 - t) * v1 + t * v2`, in the
/// order the arithmetic performs it.
pub open spec fn sp_lerp<S: Scalar>(t: S, v1: S, v2: S) -> S {
    S::sp_add(S::sp_mul(S::sp_sub(S::sp_one(), t), v1), S::sp_mul(t, v2))
}

/// Linear interpolation between `v1` and `v2` by parameter `t`.
pub fn lerp<S: Scalar>(t: S, v1: S, v2: S) -> (r: S)
    ensures
        r == sp_lerp(t, v1, v2),
{
    S::add(S::mul(S::sub(S::one(), t), v1), S::mul(t, v2))
}

/// Meaning of the constant `1 / (4 * pi)` over a scalar.
pub open spec fn sp_inv_4_pi<S: Scalar>() -> S {
    S::sp_div(S::sp_one(), S::sp_mul(S::sp_from_i64(4), S::sp_pi()))
}

/// The constant `1 / (4 * pi)`, computed through the scalar's own
/// operations.
pub fn inv_4_pi<S: Scalar>() -> (r: S)
    ensures
        r == sp_inv_4_pi::<S>(),
{
    S::div(S::one(), S::mul(S::from_i64(4), S::pi()))
}

} // verus!
