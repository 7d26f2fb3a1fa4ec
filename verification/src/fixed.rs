//! A binary fixed-point scalar with 16 fractional bits.
//!
//! `Fix64` stores a quantity `q` as the signed 64-bit integer `q * 2^16`.
//! It is the crate's own, fully verified implementation of the
//! [`Scalar`] capability interface, exact enough to drive every formula
//! in the geometry. Its policy for the edges, fixed by the spec members
//! of the trait implementation:
//!
//! - addition, subtraction and negation wrap around the 64-bit range
//!   (which keeps them commutative and associative on the nose);
//! - multiplication and division truncate toward zero and saturate at
//!   the ends of the range;
//! - division by zero yields zero (this scalar has no infinities);
//! - the square root of a non-positive value is zero (and no NaN);
//! - the tangent is a truncated odd power series, adequate for the small
//!   half-field-of-view angles the camera feeds it.

use vstd::arithmetic::mul::*;
use vstd::prelude::*;

use crate::scalar::ExactScalar;
use crate::scalar::Scalar;

verus! {

/// Number of fractional bits times two to their power: the representation
/// of one.
pub const FIX_ONE: i64 = 65536;

/// Raw representation of the circle constant: the nearest multiple of
/// `2^-16` below pi.
pub const FIX_PI: i64 = 205887;

/// A fixed-point scalar: the quantity `bits / 2^16`.
#[derive(Clone, Copy, Debug, PartialEq, Eq, Structural)]
pub struct Fix64 {
    pub bits: i64,
}

/// Absolute value of a mathematical integer.
pub open spec fn int_abs(x: int) -> int {
    if x < 0 {
        -x
    } else {
        x
    }
}

/// Apply a sign to a magnitude.
pub open spec fn int_sign_apply(neg: bool, m: int) -> int {
    if neg {
        -m
    } else {
        m
    }
}

/// Clamp a mathematical integer into the 64-bit signed range.
pub open spec fn fix_clamp(x: int) -> i64 {
    if x > i64::MAX {
        i64::MAX
    } else if x < i64::MIN {
        i64::MIN
    } else {
        x as i64
    }
}

/// Raw value of a fixed-point product before clamping: the scaled product
/// truncated toward zero.
pub open spec fn fix_scaled_product(a: int, b: int) -> int {
    int_sign_apply((a * b) < 0, int_abs(a * b) / (FIX_ONE as int))
}

/// Raw value of a fixed-point quotient before clamping: the scaled
/// quotient truncated toward zero. Meaningful only for `b != 0`.
pub open spec fn fix_scaled_quotient(a: int, b: int) -> int {
    int_sign_apply((a < 0) != (b < 0), (int_abs(a) * (FIX_ONE as int)) / int_abs(b))
}

/// `r` is the floor of the square root of `x`.
pub open spec fn is_sqrt_floor(x: nat, r: nat) -> bool {
    r * r <= x && x < (r + 1) * (r + 1)
}

/// The floor of the square root of a natural number.
pub open spec fn sqrt_floor(x: nat) -> nat {
    choose|r: nat| is_sqrt_floor(x, r)
}

/// The floor of the square root is unique, so any witness pins
/// `sqrt_floor` down.
pub proof fn lemma_sqrt_floor_agrees(x: nat, r: nat)
    requires
        is_sqrt_floor(x, r),
    ensures
        sqrt_floor(x) == r,
{
    let picked = choose|s: nat| is_sqrt_floor(x, s);
    assert(is_sqrt_floor(x, picked));
    assert(picked == r) by {
        if picked < r {
            lemma_mul_strict_inequality(picked as int + 1, r as int, r as int);
            lemma_mul_inequality(picked as int + 1, r as int, picked as int + 1);
        }
        if r < picked {
            lemma_mul_strict_inequality(r as int + 1, picked as int, picked as int);
            lemma_mul_inequality(r as int + 1, picked as int, r as int + 1);
        }
    }
}

/// Magnitude and sign of a product of integers.
proof fn lemma_mul_sign_abs(a: int, b: int)
    ensures
        int_abs(a * b) == int_abs(a) * int_abs(b),
        a != 0 && b != 0 ==> (((a * b) < 0) <==> ((a < 0) != (b < 0))),
        a == 0 || b == 0 ==> a * b == 0,
{
    assert(int_abs(a * b) == int_abs(a) * int_abs(b)) by (nonlinear_arith);
    assert(a != 0 && b != 0 ==> (((a * b) < 0) <==> ((a < 0) != (b < 0)))) by (nonlinear_arith);
    assert(a == 0 || b == 0 ==> a * b == 0) by (nonlinear_arith);
}

/// Floor of the square root by binary search on the answer.
fn isqrt_u128(x: u128) -> (r: u128)
    requires
        x < 0x100000000000000000000u128,
    ensures
        is_sqrt_floor(x as nat, r as nat),
        r < 0x10000000000u128,
{
    let mut lo: u128 = 0;
    let mut hi: u128 = 0x10000000000u128;
    assert(hi * hi > x) by (nonlinear_arith)
        requires
            hi == 0x10000000000u128 && x < 0x100000000000000000000u128,
    ;
    while lo + 1 < hi
        invariant
            lo < hi,
            hi <= 0x10000000000u128,
            lo * lo <= x,
            hi * hi > x,
        decreases hi - lo,
    {
        let mid = lo + (hi - lo) / 2;
        assert(lo < mid && mid < hi);
        assert(mid * mid <= 0x100000000000000000000u128) by (nonlinear_arith)
            requires
                mid <= 0x10000000000u128,
        ;
        if mid * mid <= x {
            lo = mid;
        } else {
            hi = mid;
        }
    }
    assert(lo * lo <= x && x < (lo + 1) * (lo + 1));
    lo
}

impl Scalar for Fix64 {
    open spec fn sp_add(a: Self, b: Self) -> Self {
        Fix64 { bits: vstd::wrapping::i64_specs::wrapping_add(a.bits, b.bits) }
    }

    open spec fn sp_sub(a: Self, b: Self) -> Self {
        Fix64 { bits: vstd::wrapping::i64_specs::wrapping_sub(a.bits, b.bits) }
    }

    open spec fn sp_mul(a: Self, b: Self) -> Self {
        Fix64 { bits: fix_clamp(fix_scaled_product(a.bits as int, b.bits as int)) }
    }

    open spec fn sp_div(a: Self, b: Self) -> Self {
        if b.bits == 0 {
            Fix64 { bits: 0 }
        } else {
            Fix64 { bits: fix_clamp(fix_scaled_quotient(a.bits as int, b.bits as int)) }
        }
    }

    open spec fn sp_neg(a: Self) -> Self {
        Fix64 { bits: vstd::wrapping::i64_specs::wrapping_sub(0i64, a.bits) }
    }

    open spec fn sp_sqrt(a: Self) -> Self {
        if a.bits <= 0 {
            Fix64 { bits: 0 }
        } else {
            Fix64 { bits: sqrt_floor((a.bits * FIX_ONE) as nat) as i64 }
        }
    }

    open spec fn sp_tan(a: Self) -> Self {
        Self::sp_add(
            Self::sp_add(
                a,
                Self::sp_div(
                    Self::sp_mul(Self::sp_mul(a, a), a),
                    Self::sp_from_i64(3),
                ),
            ),
            Self::sp_div(
                Self::sp_mul(
                    Self::sp_from_i64(2),
                    Self::sp_mul(Self::sp_mul(Self::sp_mul(a, a), a), Self::sp_mul(a, a)),
                ),
                Self::sp_from_i64(15),
            ),
        )
    }

    open spec fn sp_lt(a: Self, b: Self) -> bool {
        a.bits < b.bits
    }

    open spec fn sp_eq(a: Self, b: Self) -> bool {
        a.bits == b.bits
    }

    open spec fn sp_zero() -> Self {
        Fix64 { bits: 0 }
    }

    open spec fn sp_one() -> Self {
        Fix64 { bits: FIX_ONE }
    }

    open spec fn sp_pi() -> Self {
        Fix64 { bits: FIX_PI }
    }

    open spec fn sp_max_value() -> Self {
        Fix64 { bits: i64::MAX }
    }

    open spec fn sp_from_i64(i: i64) -> Self {
        Fix64 { bits: vstd::wrapping::i64_specs::wrapping_mul(i, FIX_ONE) }
    }

    fn add(a: Self, b: Self) -> Self {
        Fix64 { bits: a.bits.wrapping_add(b.bits) }
    }

    fn sub(a: Self, b: Self) -> Self {
        Fix64 { bits: a.bits.wrapping_sub(b.bits) }
    }

    fn mul(a: Self, b: Self) -> (r: Self) {
        let ai = a.bits as i128;
        let bi = b.bits as i128;
        let neg = (ai < 0) != (bi < 0);
        let ma: u128 = if ai < 0 {
            (-ai) as u128
        } else {
            ai as u128
        };
        let mb: u128 = if bi < 0 {
            (-bi) as u128
        } else {
            bi as u128
        };
        assert(ma * mb == int_abs(ai * bi) && ma * mb <= 0x40000000000000000000000000000000u128) by {
            lemma_mul_sign_abs(ai as int, bi as int);
            lemma_mul_inequality(ma as int, 0x8000000000000000, mb as int);
            lemma_mul_inequality(mb as int, 0x8000000000000000, 0x8000000000000000);
        }
        let q = ma * mb / (FIX_ONE as u128);
        proof {
            lemma_mul_sign_abs(ai as int, bi as int);
        }
        if neg {
            if q >= 9223372036854775808u128 {
                Fix64 { bits: i64::MIN }
            } else {
                Fix64 { bits: -(q as i64) }
            }
        } else {
            if q > 9223372036854775807u128 {
                Fix64 { bits: i64::MAX }
            } else {
                Fix64 { bits: q as i64 }
            }
        }
    }

    fn div(a: Self, b: Self) -> (r: Self) {
        if b.bits == 0 {
            return Fix64 { bits: 0 };
        }
        let ai = a.bits as i128;
        let bi = b.bits as i128;
        let neg = (ai < 0) != (bi < 0);
        let ma: u128 = if ai < 0 {
            (-ai) as u128
        } else {
            ai as u128
        };
        let mb: u128 = if bi < 0 {
            (-bi) as u128
        } else {
            bi as u128
        };
        assert(ma * (FIX_ONE as u128) <= 0x80000000000000000000u128) by {
            lemma_mul_inequality(ma as int, 0x8000000000000000, FIX_ONE as int);
        }
        let q = ma * (FIX_ONE as u128) / mb;
        if neg {
            if q >= 9223372036854775808u128 {
                Fix64 { bits: i64::MIN }
            } else {
                Fix64 { bits: -(q as i64) }
            }
        } else {
            if q > 9223372036854775807u128 {
                Fix64 { bits: i64::MAX }
            } else {
                Fix64 { bits: q as i64 }
            }
        }
    }

    fn neg(a: Self) -> Self {
        Fix64 { bits: 0i64.wrapping_sub(a.bits) }
    }

    fn sqrt(a: Self) -> (r: Self) {
        if a.bits <= 0 {
            return Fix64 { bits: 0 };
        }
        let x = (a.bits as u128) * (FIX_ONE as u128);
        assert(x < 0x100000000000000000000u128) by {
            lemma_mul_inequality(a.bits as int, 0x8000000000000000, FIX_ONE as int);
        }
        let root = isqrt_u128(x);
        proof {
            lemma_sqrt_floor_agrees(x as nat, root as nat);
        }
        Fix64 { bits: root as i64 }
    }

    fn tan(a: Self) -> (r: Self) {
        let x2 = Self::mul(a, a);
        let x3 = Self::mul(x2, a);
        let x5 = Self::mul(x3, x2);
        let cubic = Self::div(x3, Self::from_i64(3));
        let quintic = Self::div(Self::mul(Self::from_i64(2), x5), Self::from_i64(15));
        Self::add(Self::add(a, cubic), quintic)
    }

    fn lt(a: Self, b: Self) -> bool {
        a.bits < b.bits
    }

    fn eq(a: Self, b: Self) -> bool {
        a.bits == b.bits
    }

    fn zero() -> Self {
        Fix64 { bits: 0 }
    }

    fn one() -> Self {
        Fix64 { bits: FIX_ONE }
    }

    fn pi() -> Self {
        Fix64 { bits: FIX_PI }
    }

    fn max_value() -> Self {
        Fix64 { bits: i64::MAX }
    }

    fn from_i64(i: i64) -> Self {
        Fix64 { bits: i.wrapping_mul(FIX_ONE) }
    }
}

impl ExactScalar for Fix64 {
    proof fn add_commutes(a: Self, b: Self) {
    }

    proof fn add_associates(a: Self, b: Self, c: Self) {
    }

    proof fn sub_negates(a: Self, b: Self) {
    }

    proof fn zero_mul_zero() {
    }

    proof fn zero_add_zero() {
    }

    proof fn lt_irreflexive(a: Self) {
    }
}

} // verus!
