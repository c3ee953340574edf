//! The algebraic laws of the vector types, stated and proved once for every
//! lawful scalar.

use vstd::prelude::*;
use crate::scalar::Scalar;
use crate::vec::{seq_dot, seq_len2, seq_length, VecExt};
use crate::vec2::Vec2;
use crate::vec3::Vec3;
use crate::vec4::Vec4;

verus! {

/// Round trip: rebuilding any vector from its own array of components gives
/// the vector back, for every arity.
pub fn array_round_trip<T: Scalar, V: VecExt<T, N>, const N: usize>(v: V) -> (r: V)
    ensures
        r == v,
{
    let r = V::from_array(v.to_array());
    proof {
        V::lemma_view_injective(r, v);
    }
    r
}

/// Round trip for the two-component vector, which stays outside the generic
/// trait.
pub fn vec2_array_round_trip<T: Scalar>(v: Vec2<T>) -> (r: Vec2<T>)
    ensures
        r == v,
{
    let r = Vec2::from_array(v.to_array());
    proof {
        assert(r.x == r@[0] && r.y == r@[1]);
        assert(v.x == v@[0] && v.y == v@[1]);
    }
    r
}

/// Round trip through the ordered triple.
pub fn vec3_tuple_round_trip<T: Scalar>(v: Vec3<T>) -> (r: Vec3<T>)
    ensures
        r == v,
{
    Vec3::from_tuple(v.to_tuple())
}

/// Round trip through the ordered quadruple.
pub fn vec4_tuple_round_trip<T: Scalar>(v: Vec4<T>) -> (r: Vec4<T>)
    ensures
        r == v,
{
    Vec4::from_tuple(v.to_tuple())
}

/// Dot/length consistency for the generic path: the squared magnitude is the
/// dot product of a vector with itself, and the magnitude is its square
/// root.
pub proof fn lemma_dot_length_consistency<T: Scalar>(s: Seq<T>)
    ensures
        seq_len2(s) == seq_dot(s, s),
        seq_length(s) == seq_dot(s, s).spec_sqrt(),
{
}

/// Dot/length consistency for the hand-specialized path on 3-vectors.
pub proof fn lemma_vec3_dot_length_consistency<T: Scalar>(v: Vec3<T>)
    ensures
        v.spec_len2() == v.spec_dot(v),
        v.spec_length() == v.spec_dot(v).spec_sqrt(),
{
}

/// The cross product is antisymmetric: negating `b x a` gives `a x b`.
pub proof fn lemma_cross_antisym<T: Scalar>(a: Vec3<T>, b: Vec3<T>)
    ensures
        b.spec_cross(a).spec_neg_vec() == a.spec_cross(b),
{
    let c = b.spec_cross(a);
    T::lemma_mul_neg_one(c.x);
    T::lemma_mul_neg_one(c.y);
    T::lemma_mul_neg_one(c.z);
    T::lemma_sub_antisym(b.y.spec_times(a.z), a.y.spec_times(b.z));
    T::lemma_sub_antisym(b.z.spec_times(a.x), a.z.spec_times(b.x));
    T::lemma_sub_antisym(b.x.spec_times(a.y), a.x.spec_times(b.y));
}

/// The cross product of a vector with itself is the zero vector.
pub proof fn lemma_cross_self<T: Scalar>(a: Vec3<T>)
    ensures
        a.spec_cross(a) == Vec3::<T>::spec_zero_vec(),
{
    T::lemma_sub_self(a.y.spec_times(a.z));
    T::lemma_sub_self(a.z.spec_times(a.x));
    T::lemma_sub_self(a.x.spec_times(a.y));
}

/// On the standard basis the cross product behaves as expected: the x-axis
/// crossed with the y-axis is the z-axis.
pub proof fn lemma_cross_basis<T: Scalar>()
    ensures
        (Vec3 { x: T::spec_one(), y: T::spec_zero(), z: T::spec_zero() }).spec_cross(
            Vec3 { x: T::spec_zero(), y: T::spec_one(), z: T::spec_zero() },
        ) == (Vec3 { x: T::spec_zero(), y: T::spec_zero(), z: T::spec_one() }),
{
    let o = T::spec_zero();
    let l = T::spec_one();
    T::lemma_mul_zero(o);
    T::lemma_mul_zero(l);
    T::lemma_mul_one(l);
    T::lemma_sub_self(o);
    T::lemma_unit_arith();
}

/// Euclidean remainder of a 3-vector by a positive scalar divisor: every
/// component of the result lies in `[0, b)`.
pub proof fn lemma_vec3_rem_euclid_range<T: Scalar>(v: Vec3<T>, b: T)
    requires
        T::spec_zero().spec_is_lt(b),
    ensures
        T::spec_zero().spec_is_le(v.x.spec_rem_euclid(b)) && v.x.spec_rem_euclid(b).spec_is_lt(b),
        T::spec_zero().spec_is_le(v.y.spec_rem_euclid(b)) && v.y.spec_rem_euclid(b).spec_is_lt(b),
        T::spec_zero().spec_is_le(v.z.spec_rem_euclid(b)) && v.z.spec_rem_euclid(b).spec_is_lt(b),
{
    T::lemma_rem_euclid_range(v.x, b);
    T::lemma_rem_euclid_range(v.y, b);
    T::lemma_rem_euclid_range(v.z, b);
}

/// Interpolating with weight zero gives the first operand back, on every
/// single component; this is the form every arity's `lerp` contract uses.
pub proof fn lemma_lerp_weight_zero<T: Scalar>(a: T, b: T)
    ensures
        a.spec_times(T::spec_one().spec_minus(T::spec_zero())).spec_plus(
            b.spec_times(T::spec_zero()),
        ) == a,
{
    T::lemma_unit_arith();
    T::lemma_mul_one(a);
    T::lemma_mul_zero(b);
    T::lemma_add_zero(a);
}

/// Interpolating with weight one gives the second operand back, on every
/// single component; this is the form every arity's `lerp` contract uses.
pub proof fn lemma_lerp_weight_one<T: Scalar>(a: T, b: T)
    ensures
        a.spec_times(T::spec_one().spec_minus(T::spec_one())).spec_plus(
            b.spec_times(T::spec_one()),
        ) == b,
{
    T::lemma_unit_arith();
    T::lemma_mul_zero(a);
    T::lemma_mul_one(b);
    T::lemma_add_zero(b);
}

/// Interpolating with weight zero gives the first endpoint back.
pub proof fn lemma_lerp_zero<T: Scalar>(a: Vec3<T>, b: Vec3<T>)
    ensures
        (Vec3 {
            x: a.x.spec_times(T::spec_one().spec_minus(T::spec_zero())).spec_plus(
                b.x.spec_times(T::spec_zero()),
            ),
            y: a.y.spec_times(T::spec_one().spec_minus(T::spec_zero())).spec_plus(
                b.y.spec_times(T::spec_zero()),
            ),
            z: a.z.spec_times(T::spec_one().spec_minus(T::spec_zero())).spec_plus(
                b.z.spec_times(T::spec_zero()),
            ),
        }) == a,
{
    lemma_lerp_weight_zero(a.x, b.x);
    lemma_lerp_weight_zero(a.y, b.y);
    lemma_lerp_weight_zero(a.z, b.z);
}

/// Interpolating with weight one gives the second endpoint back.
pub proof fn lemma_lerp_one<T: Scalar>(a: Vec3<T>, b: Vec3<T>)
    ensures
        (Vec3 {
            x: a.x.spec_times(T::spec_one().spec_minus(T::spec_one())).spec_plus(
                b.x.spec_times(T::spec_one()),
            ),
            y: a.y.spec_times(T::spec_one().spec_minus(T::spec_one())).spec_plus(
                b.y.spec_times(T::spec_one()),
            ),
            z: a.z.spec_times(T::spec_one().spec_minus(T::spec_one())).spec_plus(
                b.z.spec_times(T::spec_one()),
            ),
        }) == b,
{
    lemma_lerp_weight_one(a.x, b.x);
    lemma_lerp_weight_one(a.y, b.y);
    lemma_lerp_weight_one(a.z, b.z);
}

/// The midpoint is interpolation with weight one half, on every component
/// pair over which the half-weight distributes; a scalar whose half rounds
/// (or, for the integer model, truncates) on some sum is excluded by the
/// hypotheses.
pub proof fn lemma_midpoint_is_lerp_half<T: Scalar>(a: Vec3<T>, b: Vec3<T>)
    requires
        a.x.spec_plus(b.x).spec_times(T::spec_half()) == a.x.spec_times(
            T::spec_one().spec_minus(T::spec_half()),
        ).spec_plus(b.x.spec_times(T::spec_half())),
        a.y.spec_plus(b.y).spec_times(T::spec_half()) == a.y.spec_times(
            T::spec_one().spec_minus(T::spec_half()),
        ).spec_plus(b.y.spec_times(T::spec_half())),
        a.z.spec_plus(b.z).spec_times(T::spec_half()) == a.z.spec_times(
            T::spec_one().spec_minus(T::spec_half()),
        ).spec_plus(b.z.spec_times(T::spec_half())),
    ensures
        (Vec3 {
            x: a.x.spec_plus(b.x).spec_times(T::spec_half()),
            y: a.y.spec_plus(b.y).spec_times(T::spec_half()),
            z: a.z.spec_plus(b.z).spec_times(T::spec_half()),
        }) == (Vec3 {
            x: a.x.spec_times(T::spec_one().spec_minus(T::spec_half())).spec_plus(
                b.x.spec_times(T::spec_half()),
            ),
            y: a.y.spec_times(T::spec_one().spec_minus(T::spec_half())).spec_plus(
                b.y.spec_times(T::spec_half()),
            ),
            z: a.z.spec_times(T::spec_one().spec_minus(T::spec_half())).spec_plus(
                b.z.spec_times(T::spec_half()),
            ),
        }),
{
}

} // verus!
