//! The abstract scalar the vector algebra is generic over.

use vstd::prelude::*;

verus! {

/// An abstract scalar: the component type of the vector types.
///
/// Every vector operation in this crate is defined element-wise over these
/// scalar operations. An implementation chooses the meaning of the spec
/// functions, proves that each executable method returns exactly what its
/// spec function says, and proves the few algebraic laws that the vector
/// lemmas rely on.
///
/// The crate ships one verified implementation, on `i64` with wrapping
/// arithmetic. A floating-point implementation has to live outside the
/// verified core, because the verifier does not reason about floats; such an
/// implementation satisfies the laws up to the usual floating-point caveats
/// (`NaN`, infinities and the negative zero).
pub trait Scalar: Copy + Sized {
    /// Value of `self + rhs`.
    spec fn spec_plus(self, rhs: Self) -> Self;

    /// Value of `self - rhs`.
    spec fn spec_minus(self, rhs: Self) -> Self;

    /// Value of `self * rhs`.
    spec fn spec_times(self, rhs: Self) -> Self;

    /// Value of `self / rhs`.
    spec fn spec_div(self, rhs: Self) -> Self;

    /// Value of `self % rhs` (remainder with the sign of `self`).
    spec fn spec_rem(self, rhs: Self) -> Self;

    /// Value of `-self`.
    spec fn spec_negate(self) -> Self;

    /// The smaller of `self` and `rhs`.
    spec fn spec_min(self, rhs: Self) -> Self;

    /// The larger of `self` and `rhs`.
    spec fn spec_max(self, rhs: Self) -> Self;

    /// `self` forced into `[lo, hi]`.
    spec fn spec_clamp(self, lo: Self, hi: Self) -> Self;

    /// Absolute value of `self`.
    spec fn spec_abs(self) -> Self;

    /// Multiplicative inverse of `self`.
    spec fn spec_recip(self) -> Self;

    /// Euclidean remainder: for a positive divisor the result is never
    /// negative (see `lemma_rem_euclid_range`).
    spec fn spec_rem_euclid(self, rhs: Self) -> Self;

    /// Euclidean quotient, the counterpart of `spec_rem_euclid`.
    spec fn spec_div_euclid(self, rhs: Self) -> Self;

    /// Square root of `self`.
    spec fn spec_sqrt(self) -> Self;

    /// Arc cosine of `self`.
    spec fn spec_acos(self) -> Self;

    /// Sine of the angle `self`.
    spec fn spec_sin(self) -> Self;

    /// Cosine of the angle `self`.
    spec fn spec_cos(self) -> Self;

    /// The additive identity.
    spec fn spec_zero() -> Self;

    /// The multiplicative identity.
    spec fn spec_one() -> Self;

    /// One half, the midpoint weight.
    spec fn spec_half() -> Self;

    /// The scalar order, `self <= rhs`.
    spec fn spec_is_le(self, rhs: Self) -> bool;

    /// The strict scalar order, `self < rhs`.
    spec fn spec_is_lt(self, rhs: Self) -> bool;

    fn plus(self, rhs: Self) -> (r: Self)
        ensures
            r == self.spec_plus(rhs),
    ;

    fn minus(self, rhs: Self) -> (r: Self)
        ensures
            r == self.spec_minus(rhs),
    ;

    fn times(self, rhs: Self) -> (r: Self)
        ensures
            r == self.spec_times(rhs),
    ;

    fn div_by(self, rhs: Self) -> (r: Self)
        ensures
            r == self.spec_div(rhs),
    ;

    fn rem_by(self, rhs: Self) -> (r: Self)
        ensures
            r == self.spec_rem(rhs),
    ;

    fn negate(self) -> (r: Self)
        ensures
            r == self.spec_negate(),
    ;

    fn min(self, rhs: Self) -> (r: Self)
        ensures
            r == self.spec_min(rhs),
    ;

    fn max(self, rhs: Self) -> (r: Self)
        ensures
            r == self.spec_max(rhs),
    ;

    /// Clamping demands an ordered pair of bounds, as the standard library's
    /// scalar `clamp` does.
    fn clamp(self, lo: Self, hi: Self) -> (r: Self)
        requires
            lo.spec_is_le(hi),
        ensures
            r == self.spec_clamp(lo, hi),
    ;

    fn abs(self) -> (r: Self)
        ensures
            r == self.spec_abs(),
    ;

    fn recip(self) -> (r: Self)
        ensures
            r == self.spec_recip(),
    ;

    fn rem_euclid(self, rhs: Self) -> (r: Self)
        ensures
            r == self.spec_rem_euclid(rhs),
    ;

    fn div_euclid(self, rhs: Self) -> (r: Self)
        ensures
            r == self.spec_div_euclid(rhs),
    ;

    fn sqrt(self) -> (r: Self)
        ensures
            r == self.spec_sqrt(),
    ;

    /// Reciprocal square root. Every implementation must compute it as the
    /// reciprocal of its own square root; no component of the crate may
    /// depend on an alternate definition.
    fn rsqrt(self) -> (r: Self)
        ensures
            r == self.spec_sqrt().spec_recip(),
    ;

    fn acos(self) -> (r: Self)
        ensures
            r == self.spec_acos(),
    ;

    fn sin_cos(self) -> (r: (Self, Self))
        ensures
            r.0 == self.spec_sin(),
            r.1 == self.spec_cos(),
    ;

    fn le(self, rhs: Self) -> (r: bool)
        ensures
            r == self.spec_is_le(rhs),
    ;

    fn zero() -> (r: Self)
        ensures
            r == Self::spec_zero(),
    ;

    fn one() -> (r: Self)
        ensures
            r == Self::spec_one(),
    ;

    fn half() -> (r: Self)
        ensures
            r == Self::spec_half(),
    ;

    /// Zero is the additive identity.
    proof fn lemma_add_zero(a: Self)
        ensures
            a.spec_plus(Self::spec_zero()) == a,
            Self::spec_zero().spec_plus(a) == a,
    ;

    /// One is the multiplicative identity.
    proof fn lemma_mul_one(a: Self)
        ensures
            a.spec_times(Self::spec_one()) == a,
            Self::spec_one().spec_times(a) == a,
    ;

    /// Multiplication absorbs into zero.
    proof fn lemma_mul_zero(a: Self)
        ensures
            a.spec_times(Self::spec_zero()) == Self::spec_zero(),
            Self::spec_zero().spec_times(a) == Self::spec_zero(),
    ;

    /// Negating a difference swaps its operands.
    proof fn lemma_sub_antisym(a: Self, b: Self)
        ensures
            a.spec_minus(b).spec_negate() == b.spec_minus(a),
    ;

    /// A value minus itself vanishes.
    proof fn lemma_sub_self(a: Self)
        ensures
            a.spec_minus(a) == Self::spec_zero(),
    ;

    /// Multiplying by negative one negates.
    proof fn lemma_mul_neg_one(a: Self)
        ensures
            a.spec_times(Self::spec_one().spec_negate()) == a.spec_negate(),
    ;

    /// Arithmetic facts about the two identities.
    proof fn lemma_unit_arith()
        ensures
            Self::spec_one().spec_minus(Self::spec_zero()) == Self::spec_one(),
            Self::spec_one().spec_minus(Self::spec_one()) == Self::spec_zero(),
            Self::spec_zero().spec_negate() == Self::spec_zero(),
    ;

    /// The Euclidean remainder by a positive divisor lies in `[0, rhs)`.
    proof fn lemma_rem_euclid_range(a: Self, b: Self)
        requires
            Self::spec_zero().spec_is_lt(b),
        ensures
            Self::spec_zero().spec_is_le(a.spec_rem_euclid(b)),
            a.spec_rem_euclid(b).spec_is_lt(b),
    ;
}

/// The scalar two, written as one plus one.
pub open spec fn spec_two<T: Scalar>() -> T {
    T::spec_one().spec_plus(T::spec_one())
}

/// Computes the scalar two as one plus one.
pub fn two<T: Scalar>() -> (r: T)
    ensures
        r == spec_two::<T>(),
{
    T::one().plus(T::one())
}

} // verus!
