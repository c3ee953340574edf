//! Paired entry points showing that the generic trait path and the
//! hand-specialized path compute the same value.
//!
//! Each operation appears twice: a `*_manual` function that writes the
//! element-wise formula out by hand for the fixed arity, and a `*_trait`
//! function that calls the generic `VecExt` method. The two functions of a
//! pair carry the identical contract, so the verifier shows that both return
//! the same value on every input. Whether an optimizing compiler also turns
//! both into the same machine code is a question for external tooling on a
//! concrete build; the functional half of that claim is settled here.

use vstd::prelude::*;
use crate::scalar::Scalar;
use crate::vec::{seq_dot, seq_sum, VecExt};
use crate::vec3::Vec3;

verus! {

/// The left-fold sum of a 3-vector's view is the hand-written sum formula.
pub proof fn lemma_seq_sum3<T: Scalar>(v: Vec3<T>)
    ensures
        seq_sum(v@) == v.spec_sum(),
{
    let s = v@;
    assert(s.drop_last() =~= seq![v.x, v.y]);
    assert(s.drop_last().drop_last() =~= seq![v.x]);
    assert(seq_sum(seq![v.x]) == v.x);
    assert(seq_sum(seq![v.x, v.y]) == v.x.spec_plus(v.y));
}

/// The left-fold dot product of two 3-vector views is the hand-written dot
/// formula.
pub proof fn lemma_seq_dot3<T: Scalar>(a: Vec3<T>, b: Vec3<T>)
    ensures
        seq_dot(a@, b@) == a.spec_dot(b),
{
    let sa = a@;
    let sb = b@;
    assert(sa.drop_last() =~= seq![a.x, a.y]);
    assert(sb.drop_last() =~= seq![b.x, b.y]);
    assert(sa.drop_last().drop_last() =~= seq![a.x]);
    assert(sb.drop_last().drop_last() =~= seq![b.x]);
    assert(seq_dot(seq![a.x], seq![b.x]) == a.x.spec_times(b.x));
    assert(seq_dot(seq![a.x, a.y], seq![b.x, b.y]) == a.x.spec_times(b.x).spec_plus(
        a.y.spec_times(b.y),
    ));
}

/// Hand-written component sum.
pub fn vec3_sum_manual<T: Scalar>(v: Vec3<T>) -> (r: T)
    ensures
        r == v.spec_sum(),
{
    v.x.plus(v.y).plus(v.z)
}

/// Component sum through the generic trait; same contract as the manual form.
pub fn vec3_sum_trait<T: Scalar>(v: Vec3<T>) -> (r: T)
    ensures
        r == v.spec_sum(),
{
    let r = VecExt::sum(v);
    proof {
        lemma_seq_sum3(v);
    }
    r
}

/// Hand-written minimum against one scalar.
pub fn vec3_min_manual<T: Scalar>(a: Vec3<T>, b: T) -> (r: Vec3<T>)
    ensures
        r == (Vec3 { x: a.x.spec_min(b), y: a.y.spec_min(b), z: a.z.spec_min(b) }),
{
    Vec3::new(a.x.min(b), a.y.min(b), a.z.min(b))
}

/// Minimum against one scalar through the generic trait; same contract as
/// the manual form.
pub fn vec3_min_trait<T: Scalar>(a: Vec3<T>, b: T) -> (r: Vec3<T>)
    ensures
        r == (Vec3 { x: a.x.spec_min(b), y: a.y.spec_min(b), z: a.z.spec_min(b) }),
{
    VecExt::min(a, b)
}

/// Hand-written component-wise minimum of two vectors.
pub fn vec3_min_vec_manual<T: Scalar>(a: Vec3<T>, b: Vec3<T>) -> (r: Vec3<T>)
    ensures
        r == (Vec3 {
            x: a.x.spec_min(b.x),
            y: a.y.spec_min(b.y),
            z: a.z.spec_min(b.z),
        }),
{
    Vec3::new(a.x.min(b.x), a.y.min(b.y), a.z.min(b.z))
}

/// Component-wise minimum through the generic trait; same contract as the
/// manual form.
pub fn vec3_min_vec_trait<T: Scalar>(a: Vec3<T>, b: Vec3<T>) -> (r: Vec3<T>)
    ensures
        r == (Vec3 {
            x: a.x.spec_min(b.x),
            y: a.y.spec_min(b.y),
            z: a.z.spec_min(b.z),
        }),
{
    a.min_vec(b)
}

/// Hand-written maximum against one scalar.
pub fn vec3_max_manual<T: Scalar>(a: Vec3<T>, b: T) -> (r: Vec3<T>)
    ensures
        r == (Vec3 { x: a.x.spec_max(b), y: a.y.spec_max(b), z: a.z.spec_max(b) }),
{
    Vec3::new(a.x.max(b), a.y.max(b), a.z.max(b))
}

/// Maximum against one scalar through the generic trait; same contract as
/// the manual form.
pub fn vec3_max_trait<T: Scalar>(a: Vec3<T>, b: T) -> (r: Vec3<T>)
    ensures
        r == (Vec3 { x: a.x.spec_max(b), y: a.y.spec_max(b), z: a.z.spec_max(b) }),
{
    VecExt::max(a, b)
}

/// Hand-written component-wise maximum of two vectors.
pub fn vec3_max_vec_manual<T: Scalar>(a: Vec3<T>, b: Vec3<T>) -> (r: Vec3<T>)
    ensures
        r == (Vec3 {
            x: a.x.spec_max(b.x),
            y: a.y.spec_max(b.y),
            z: a.z.spec_max(b.z),
        }),
{
    Vec3::new(a.x.max(b.x), a.y.max(b.y), a.z.max(b.z))
}

/// Component-wise maximum through the generic trait; same contract as the
/// manual form.
pub fn vec3_max_vec_trait<T: Scalar>(a: Vec3<T>, b: Vec3<T>) -> (r: Vec3<T>)
    ensures
        r == (Vec3 {
            x: a.x.spec_max(b.x),
            y: a.y.spec_max(b.y),
            z: a.z.spec_max(b.z),
        }),
{
    a.max_vec(b)
}

/// Hand-written component-wise absolute value.
pub fn vec3_abs_manual<T: Scalar>(v: Vec3<T>) -> (r: Vec3<T>)
    ensures
        r == (Vec3 { x: v.x.spec_abs(), y: v.y.spec_abs(), z: v.z.spec_abs() }),
{
    Vec3::new(v.x.abs(), v.y.abs(), v.z.abs())
}

/// Component-wise absolute value through the generic trait; same contract as
/// the manual form.
pub fn vec3_abs_trait<T: Scalar>(v: Vec3<T>) -> (r: Vec3<T>)
    ensures
        r == (Vec3 { x: v.x.spec_abs(), y: v.y.spec_abs(), z: v.z.spec_abs() }),
{
    VecExt::abs(v)
}

/// Hand-written clamp of each component between two scalar bounds.
pub fn vec3_clamp_manual<T: Scalar>(v: Vec3<T>, min: T, max: T) -> (r: Vec3<T>)
    requires
        min.spec_is_le(max),
    ensures
        r == (Vec3 {
            x: v.x.spec_clamp(min, max),
            y: v.y.spec_clamp(min, max),
            z: v.z.spec_clamp(min, max),
        }),
{
    Vec3::new(v.x.clamp(min, max), v.y.clamp(min, max), v.z.clamp(min, max))
}

/// Scalar-bound clamp through the generic trait; same contract as the manual
/// form.
pub fn vec3_clamp_trait<T: Scalar>(v: Vec3<T>, min: T, max: T) -> (r: Vec3<T>)
    requires
        min.spec_is_le(max),
    ensures
        r == (Vec3 {
            x: v.x.spec_clamp(min, max),
            y: v.y.spec_clamp(min, max),
            z: v.z.spec_clamp(min, max),
        }),
{
    VecExt::clamp(v, min, max)
}

/// Hand-written clamp of each component between two bound vectors.
pub fn vec3_clamp_vec_manual<T: Scalar>(
    v: Vec3<T>,
    min: Vec3<T>,
    max: Vec3<T>,
) -> (r: Vec3<T>)
    requires
        min.x.spec_is_le(max.x),
        min.y.spec_is_le(max.y),
        min.z.spec_is_le(max.z),
    ensures
        r == (Vec3 {
            x: v.x.spec_clamp(min.x, max.x),
            y: v.y.spec_clamp(min.y, max.y),
            z: v.z.spec_clamp(min.z, max.z),
        }),
{
    Vec3::new(
        v.x.clamp(min.x, max.x),
        v.y.clamp(min.y, max.y),
        v.z.clamp(min.z, max.z),
    )
}

/// Vector-bound clamp through the generic trait; same contract as the manual
/// form.
pub fn vec3_clamp_vec_trait<T: Scalar>(
    v: Vec3<T>,
    min: Vec3<T>,
    max: Vec3<T>,
) -> (r: Vec3<T>)
    requires
        min.x.spec_is_le(max.x),
        min.y.spec_is_le(max.y),
        min.z.spec_is_le(max.z),
    ensures
        r == (Vec3 {
            x: v.x.spec_clamp(min.x, max.x),
            y: v.y.spec_clamp(min.y, max.y),
            z: v.z.spec_clamp(min.z, max.z),
        }),
{
    v.clamp_vec(min, max)
}

/// Hand-written component-wise reciprocal.
pub fn vec3_recip_manual<T: Scalar>(v: Vec3<T>) -> (r: Vec3<T>)
    ensures
        r == (Vec3 { x: v.x.spec_recip(), y: v.y.spec_recip(), z: v.z.spec_recip() }),
{
    Vec3::new(v.x.recip(), v.y.recip(), v.z.recip())
}

/// Component-wise reciprocal through the generic trait; same contract as the
/// manual form.
pub fn vec3_recip_trait<T: Scalar>(v: Vec3<T>) -> (r: Vec3<T>)
    ensures
        r == (Vec3 { x: v.x.spec_recip(), y: v.y.spec_recip(), z: v.z.spec_recip() }),
{
    VecExt::recip(v)
}

/// Hand-written Euclidean remainder of each component by one scalar.
pub fn vec3_rem_euclid_manual<T: Scalar>(v: Vec3<T>, rhs: T) -> (r: Vec3<T>)
    ensures
        r == (Vec3 {
            x: v.x.spec_rem_euclid(rhs),
            y: v.y.spec_rem_euclid(rhs),
            z: v.z.spec_rem_euclid(rhs),
        }),
{
    Vec3::new(v.x.rem_euclid(rhs), v.y.rem_euclid(rhs), v.z.rem_euclid(rhs))
}

/// Euclidean remainder by one scalar through the generic trait; same
/// contract as the manual form.
pub fn vec3_rem_euclid_trait<T: Scalar>(v: Vec3<T>, rhs: T) -> (r: Vec3<T>)
    ensures
        r == (Vec3 {
            x: v.x.spec_rem_euclid(rhs),
            y: v.y.spec_rem_euclid(rhs),
            z: v.z.spec_rem_euclid(rhs),
        }),
{
    VecExt::rem_euclid(v, rhs)
}

/// Hand-written component-wise Euclidean remainder of two vectors.
pub fn vec3_rem_euclid_vec_manual<T: Scalar>(a: Vec3<T>, b: Vec3<T>) -> (r: Vec3<T>)
    ensures
        r == (Vec3 {
            x: a.x.spec_rem_euclid(b.x),
            y: a.y.spec_rem_euclid(b.y),
            z: a.z.spec_rem_euclid(b.z),
        }),
{
    Vec3::new(a.x.rem_euclid(b.x), a.y.rem_euclid(b.y), a.z.rem_euclid(b.z))
}

/// Component-wise Euclidean remainder through the generic trait; same
/// contract as the manual form.
pub fn vec3_rem_euclid_vec_trait<T: Scalar>(a: Vec3<T>, b: Vec3<T>) -> (r: Vec3<T>)
    ensures
        r == (Vec3 {
            x: a.x.spec_rem_euclid(b.x),
            y: a.y.spec_rem_euclid(b.y),
            z: a.z.spec_rem_euclid(b.z),
        }),
{
    a.rem_euclid_vec(b)
}

/// Hand-written Euclidean quotient of each component by one scalar.
pub fn vec3_div_euclid_manual<T: Scalar>(v: Vec3<T>, rhs: T) -> (r: Vec3<T>)
    ensures
        r == (Vec3 {
            x: v.x.spec_div_euclid(rhs),
            y: v.y.spec_div_euclid(rhs),
            z: v.z.spec_div_euclid(rhs),
        }),
{
    Vec3::new(v.x.div_euclid(rhs), v.y.div_euclid(rhs), v.z.div_euclid(rhs))
}

/// Euclidean quotient by one scalar through the generic trait; same contract
/// as the manual form.
pub fn vec3_div_euclid_trait<T: Scalar>(v: Vec3<T>, rhs: T) -> (r: Vec3<T>)
    ensures
        r == (Vec3 {
            x: v.x.spec_div_euclid(rhs),
            y: v.y.spec_div_euclid(rhs),
            z: v.z.spec_div_euclid(rhs),
        }),
{
    VecExt::div_euclid(v, rhs)
}

/// Hand-written component-wise Euclidean quotient of two vectors.
pub fn vec3_div_euclid_vec_manual<T: Scalar>(a: Vec3<T>, b: Vec3<T>) -> (r: Vec3<T>)
    ensures
        r == (Vec3 {
            x: a.x.spec_div_euclid(b.x),
            y: a.y.spec_div_euclid(b.y),
            z: a.z.spec_div_euclid(b.z),
        }),
{
    Vec3::new(a.x.div_euclid(b.x), a.y.div_euclid(b.y), a.z.div_euclid(b.z))
}

/// Component-wise Euclidean quotient through the generic trait; same
/// contract as the manual form.
pub fn vec3_div_euclid_vec_trait<T: Scalar>(a: Vec3<T>, b: Vec3<T>) -> (r: Vec3<T>)
    ensures
        r == (Vec3 {
            x: a.x.spec_div_euclid(b.x),
            y: a.y.spec_div_euclid(b.y),
            z: a.z.spec_div_euclid(b.z),
        }),
{
    a.div_euclid_vec(b)
}

} // verus!
