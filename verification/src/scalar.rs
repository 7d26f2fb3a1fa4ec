//! The scalar capability interface the geometry is built over.
//!
//! Every formula in this crate needs only arithmetic, ordering, a square
//! root, a tangent and a few constants of its scalar type. The trait below
//! captures those operations; each implementation fixes their meaning
//! through its spec members, and the algebra above is specified and
//! verified against those members alone. The crate's own implementation is
//! [`crate::fixed::Fix64`]; a shell around the library may add a
//! floating-point one.

use vstd::prelude::*;

verus! {

/// Arithmetic, ordering and transcendental capabilities of a scalar.
///
/// All operations are total: an implementation must pick a result for
/// every pair of inputs (floating point does so with infinities and NaN;
/// the fixed-point implementation wraps its additions and saturates its
/// products and quotients). Nothing beyond `r == Self::sp_op(..)` is
/// promised here; whatever algebraic laws an implementation can offer on
/// top are collected in [`ExactScalar`].
pub trait Scalar: Sized + Copy {
    /// Meaning of addition for this scalar.
    spec fn sp_add(a: Self, b: Self) -> Self;

    /// Meaning of subtraction for this scalar.
    spec fn sp_sub(a: Self, b: Self) -> Self;

    /// Meaning of multiplication for this scalar.
    spec fn sp_mul(a: Self, b: Self) -> Self;

    /// Meaning of division for this scalar.
    spec fn sp_div(a: Self, b: Self) -> Self;

    /// Meaning of negation for this scalar.
    spec fn sp_neg(a: Self) -> Self;

    /// Meaning of the square root for this scalar.
    spec fn sp_sqrt(a: Self) -> Self;

    /// Meaning of the tangent for this scalar.
    spec fn sp_tan(a: Self) -> Self;

    /// Meaning of the strict order for this scalar.
    spec fn sp_lt(a: Self, b: Self) -> bool;

    /// Meaning of equality for this scalar.
    spec fn sp_eq(a: Self, b: Self) -> bool;

    /// The additive identity.
    spec fn sp_zero() -> Self;

    /// The multiplicative identity.
    spec fn sp_one() -> Self;

    /// The circle constant.
    spec fn sp_pi() -> Self;

    /// The greatest finite value; the renderer seeds its nearest-hit
    /// search with it.
    spec fn sp_max_value() -> Self;

    /// The scalar standing for a machine integer.
    spec fn sp_from_i64(i: i64) -> Self;

    fn add(a: Self, b: Self) -> (r: Self)
        ensures
            r == Self::sp_add(a, b),
    ;

    fn sub(a: Self, b: Self) -> (r: Self)
        ensures
            r == Self::sp_sub(a, b),
    ;

    fn mul(a: Self, b: Self) -> (r: Self)
        ensures
            r == Self::sp_mul(a, b),
    ;

    fn div(a: Self, b: Self) -> (r: Self)
        ensures
            r == Self::sp_div(a, b),
    ;

    fn neg(a: Self) -> (r: Self)
        ensures
            r == Self::sp_neg(a),
    ;

    fn sqrt(a: Self) -> (r: Self)
        ensures
            r == Self::sp_sqrt(a),
    ;

    fn tan(a: Self) -> (r: Self)
        ensures
            r == Self::sp_tan(a),
    ;

    fn lt(a: Self, b: Self) -> (r: bool)
        ensures
            r == Self::sp_lt(a, b),
    ;

    fn eq(a: Self, b: Self) -> (r: bool)
        ensures
            r == Self::sp_eq(a, b),
    ;

    fn zero() -> (r: Self)
        ensures
            r == Self::sp_zero(),
    ;

    fn one() -> (r: Self)
        ensures
            r == Self::sp_one(),
    ;

    fn pi() -> (r: Self)
        ensures
            r == Self::sp_pi(),
    ;

    fn max_value() -> (r: Self)
        ensures
            r == Self::sp_max_value(),
    ;

    fn from_i64(i: i64) -> (r: Self)
        ensures
            r == Self::sp_from_i64(i),
    ;
}

/// The algebraic laws an exact scalar satisfies on the nose.
///
/// Floating point meets most of these only up to rounding, so they are
/// kept apart from [`Scalar`]: the geometry runs over any `Scalar`, while
/// the algebraic laws of the vector types are proved for scalars that
/// provide these proofs. [`crate::fixed::Fix64`] proves all of them.
pub trait ExactScalar: Scalar {
    /// Addition commutes.
    proof fn add_commutes(a: Self, b: Self)
        ensures
            Self::sp_add(a, b) == Self::sp_add(b, a),
    ;

    /// Addition associates.
    proof fn add_associates(a: Self, b: Self, c: Self)
        ensures
            Self::sp_add(Self::sp_add(a, b), c) == Self::sp_add(a, Self::sp_add(b, c)),
    ;

    /// Negating a difference swaps its operands.
    proof fn sub_negates(a: Self, b: Self)
        ensures
            Self::sp_neg(Self::sp_sub(a, b)) == Self::sp_sub(b, a),
    ;

    /// The additive identity absorbs itself under multiplication.
    proof fn zero_mul_zero()
        ensures
            Self::sp_mul(Self::sp_zero(), Self::sp_zero()) == Self::sp_zero(),
    ;

    /// The additive identity is fixed by addition with itself.
    proof fn zero_add_zero()
        ensures
            Self::sp_add(Self::sp_zero(), Self::sp_zero()) == Self::sp_zero(),
    ;

    /// The strict order is irreflexive.
    proof fn lt_irreflexive(a: Self)
        ensures
            !Self::sp_lt(a, a),
    ;
}

} // verus!
