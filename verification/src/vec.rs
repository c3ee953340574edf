//! The generic vector trait: every operation that is well-defined for any
//! arity, written exactly once.
//!
//! A conforming type only supplies the conversions to and from a fixed-size
//! array of its exact length (plus two small facts about its view). All the
//! higher-level operations are default-provided over those conversions, with
//! element-wise contracts, so the generic path provably computes the same
//! value as a hand-specialized implementation of the same operation.

use vstd::prelude::*;
use crate::scalar::Scalar;
use crate::vec3::Vec3;
use crate::vec4::Vec4;

verus! {

broadcast use vstd::array::group_array_axioms;

/// Left-fold sum of a non-empty sequence of scalars.
pub open spec fn seq_sum<T: Scalar>(s: Seq<T>) -> T
    recommends
        s.len() >= 1,
    decreases s.len(),
{
    if s.len() <= 1 {
        s[0]
    } else {
        seq_sum(s.drop_last()).spec_plus(s.last())
    }
}

/// Left-fold dot product of two non-empty sequences of scalars.
pub open spec fn seq_dot<T: Scalar>(a: Seq<T>, b: Seq<T>) -> T
    recommends
        a.len() == b.len(),
        a.len() >= 1,
    decreases a.len(),
{
    if a.len() <= 1 {
        a[0].spec_times(b[0])
    } else {
        seq_dot(a.drop_last(), b.drop_last()).spec_plus(a.last().spec_times(b.last()))
    }
}

/// Squared magnitude of a sequence of components.
pub open spec fn seq_len2<T: Scalar>(s: Seq<T>) -> T {
    seq_dot(s, s)
}

/// Magnitude of a sequence of components.
pub open spec fn seq_length<T: Scalar>(s: Seq<T>) -> T {
    seq_len2(s).spec_sqrt()
}

/// Reciprocal magnitude of a sequence of components.
pub open spec fn seq_length_recip<T: Scalar>(s: Seq<T>) -> T {
    seq_len2(s).spec_sqrt().spec_recip()
}

/// Component-wise difference of two sequences.
pub open spec fn seq_sub<T: Scalar>(a: Seq<T>, b: Seq<T>) -> Seq<T>
    recommends
        a.len() == b.len(),
{
    Seq::new(a.len(), |i: int| a[i].spec_minus(b[i]))
}

/// A vector of `N` scalar components.
///
/// The required capabilities are the two lossless array conversions and two
/// facts about the view; everything else is default-provided and verified
/// once, for every arity.
pub trait VecExt<T: Scalar, const N: usize>: View<V = Seq<T>> + Copy + Sized {
    /// The view has exactly `N` entries.
    proof fn lemma_view_len(self)
        ensures
            self@.len() == N,
    ;

    /// Two vectors with the same view are the same vector: the view loses
    /// nothing.
    proof fn lemma_view_injective(a: Self, b: Self)
        requires
            a@ == b@,
        ensures
            a == b,
    ;

    /// The components as an array, in order.
    fn to_array(self) -> (a: [T; N])
        ensures
            a@ == self@,
    ;

    /// Builds the vector from an array of components, in order.
    fn from_array(a: [T; N]) -> (v: Self)
        ensures
            v@ == a@,
    ;

    /// The components as a growable vector, in order.
    fn to_vec(self) -> (v: Vec<T>)
        ensures
            v@ == self@,
    {
        proof {
            self.lemma_view_len();
        }
        let a = self.to_array();
        let mut v: Vec<T> = Vec::new();
        for i in 0..N
            invariant
                a@ == self@,
                a@.len() == N,
                v@ == a@.take(i as int),
        {
            v.push(a[i]);
            proof {
                assert(v@ =~= a@.take(i as int + 1));
            }
        }
        proof {
            assert(a@.take(N as int) =~= a@);
        }
        v
    }

    /// Component-wise minimum against one scalar.
    fn min(self, v: T) -> (r: Self)
        ensures
            r@.len() == N,
            forall|i: int| 0 <= i < N ==> r@[i] == self@[i].spec_min(v),
    {
        proof {
            self.lemma_view_len();
        }
        let a = self.to_array();
        let mut res = a;
        for i in 0..N
            invariant
                a@ == self@,
                a@.len() == N,
                res@.len() == N,
                forall|j: int| 0 <= j < i ==> res@[j] == a@[j].spec_min(v),
        {
            res[i] = a[i].min(v);
        }
        Self::from_array(res)
    }

    /// Component-wise minimum of two vectors.
    fn min_vec(self, rhs: Self) -> (r: Self)
        ensures
            r@.len() == N,
            forall|i: int| 0 <= i < N ==> r@[i] == self@[i].spec_min(rhs@[i]),
    {
        proof {
            self.lemma_view_len();
            rhs.lemma_view_len();
        }
        let a = self.to_array();
        let b = rhs.to_array();
        let mut res = a;
        for i in 0..N
            invariant
                a@ == self@,
                b@ == rhs@,
                a@.len() == N,
                b@.len() == N,
                res@.len() == N,
                forall|j: int| 0 <= j < i ==> res@[j] == a@[j].spec_min(b@[j]),
        {
            res[i] = a[i].min(b[i]);
        }
        Self::from_array(res)
    }

    /// Sum of the components, folded left.
    fn sum(self) -> (r: T)
        requires
            N >= 1,
        ensures
            r == seq_sum(self@),
    {
        proof {
            self.lemma_view_len();
        }
        let a = self.to_array();
        let mut acc = a[0];
        proof {
            assert(a@.take(1).len() == 1);
            assert(acc == seq_sum(a@.take(1)));
        }
        for i in 1..N
            invariant
                a@ == self@,
                a@.len() == N,
                1 <= i <= N,
                acc == seq_sum(a@.take(i as int)),
        {
            proof {
                assert(a@.take(i as int + 1).drop_last() =~= a@.take(i as int));
            }
            acc = acc.plus(a[i]);
        }
        proof {
            assert(a@.take(N as int) =~= a@);
        }
        acc
    }

    /// Dot product, folded left.
    fn dot(self, rhs: Self) -> (r: T)
        requires
            N >= 1,
        ensures
            r == seq_dot(self@, rhs@),
    {
        proof {
            self.lemma_view_len();
            rhs.lemma_view_len();
        }
        let a = self.to_array();
        let b = rhs.to_array();
        let mut acc = a[0].times(b[0]);
        proof {
            assert(a@.take(1).len() == 1);
            assert(acc == seq_dot(a@.take(1), b@.take(1)));
        }
        for i in 1..N
            invariant
                a@ == self@,
                b@ == rhs@,
                a@.len() == N,
                b@.len() == N,
                1 <= i <= N,
                acc == seq_dot(a@.take(i as int), b@.take(i as int)),
        {
            proof {
                assert(a@.take(i as int + 1).drop_last() =~= a@.take(i as int));
                assert(b@.take(i as int + 1).drop_last() =~= b@.take(i as int));
            }
            acc = acc.plus(a[i].times(b[i]));
        }
        proof {
            assert(a@.take(N as int) =~= a@);
            assert(b@.take(N as int) =~= b@);
        }
        acc
    }
    /// Component-wise maximum against one scalar.
    fn max(self, v: T) -> (r: Self)
        ensures
            r@.len() == N,
            forall|i: int| 0 <= i < N ==> r@[i] == self@[i].spec_max(v),
    {
        proof {
            self.lemma_view_len();
        }
        let a = self.to_array();
        let mut res = a;
        for i in 0..N
            invariant
                a@ == self@,
                a@.len() == N,
                res@.len() == N,
                forall|j: int| 0 <= j < i ==> res@[j] == a@[j].spec_max(v),
        {
            res[i] = a[i].max(v);
        }
        Self::from_array(res)
    }

    /// Component-wise maximum of two vectors.
    fn max_vec(self, rhs: Self) -> (r: Self)
        ensures
            r@.len() == N,
            forall|i: int| 0 <= i < N ==> r@[i] == self@[i].spec_max(rhs@[i]),
    {
        proof {
            self.lemma_view_len();
            rhs.lemma_view_len();
        }
        let a = self.to_array();
        let b = rhs.to_array();
        let mut res = a;
        for i in 0..N
            invariant
                a@ == self@,
                b@ == rhs@,
                a@.len() == N,
                b@.len() == N,
                res@.len() == N,
                forall|j: int| 0 <= j < i ==> res@[j] == a@[j].spec_max(b@[j]),
        {
            res[i] = a[i].max(b[i]);
        }
        Self::from_array(res)
    }

    /// Absolute value of each component.
    fn abs(self) -> (r: Self)
        ensures
            r@.len() == N,
            forall|i: int| 0 <= i < N ==> r@[i] == self@[i].spec_abs(),
    {
        proof {
            self.lemma_view_len();
        }
        let a = self.to_array();
        let mut res = a;
        for i in 0..N
            invariant
                a@ == self@,
                a@.len() == N,
                res@.len() == N,
                forall|j: int| 0 <= j < i ==> res@[j] == a@[j].spec_abs(),
        {
            res[i] = a[i].abs();
        }
        Self::from_array(res)
    }

    /// Clamps every component between the same two scalar bounds.
    fn clamp(self, min: T, max: T) -> (r: Self)
        requires
            min.spec_is_le(max),
        ensures
            r@.len() == N,
            forall|i: int| 0 <= i < N ==> r@[i] == self@[i].spec_clamp(min, max),
    {
        proof {
            self.lemma_view_len();
        }
        let a = self.to_array();
        let mut res = a;
        for i in 0..N
            invariant
                a@ == self@,
                a@.len() == N,
                res@.len() == N,
                min.spec_is_le(max),
                forall|j: int| 0 <= j < i ==> res@[j] == a@[j].spec_clamp(min, max),
        {
            res[i] = a[i].clamp(min, max);
        }
        Self::from_array(res)
    }

    /// Clamps each component between the matching components of two bound
    /// vectors.
    fn clamp_vec(self, min_vec: Self, max_vec: Self) -> (r: Self)
        requires
            forall|i: int| 0 <= i < N ==> min_vec@[i].spec_is_le(max_vec@[i]),
        ensures
            r@.len() == N,
            forall|i: int|
                0 <= i < N ==> r@[i] == self@[i].spec_clamp(min_vec@[i], max_vec@[i]),
    {
        proof {
            self.lemma_view_len();
            min_vec.lemma_view_len();
            max_vec.lemma_view_len();
        }
        let a = self.to_array();
        let mn = min_vec.to_array();
        let mx = max_vec.to_array();
        let mut res = a;
        for i in 0..N
            invariant
                a@ == self@,
                mn@ == min_vec@,
                mx@ == max_vec@,
                a@.len() == N,
                mn@.len() == N,
                mx@.len() == N,
                res@.len() == N,
                forall|j: int| 0 <= j < N ==> min_vec@[j].spec_is_le(max_vec@[j]),
                forall|j: int|
                    0 <= j < i ==> res@[j] == a@[j].spec_clamp(min_vec@[j], max_vec@[j]),
        {
            res[i] = a[i].clamp(mn[i], mx[i]);
        }
        Self::from_array(res)
    }

    /// Reciprocal of each component; a zero component is the caller's
    /// responsibility.
    fn recip(self) -> (r: Self)
        ensures
            r@.len() == N,
            forall|i: int| 0 <= i < N ==> r@[i] == self@[i].spec_recip(),
    {
        proof {
            self.lemma_view_len();
        }
        let a = self.to_array();
        let mut res = a;
        for i in 0..N
            invariant
                a@ == self@,
                a@.len() == N,
                res@.len() == N,
                forall|j: int| 0 <= j < i ==> res@[j] == a@[j].spec_recip(),
        {
            res[i] = a[i].recip();
        }
        Self::from_array(res)
    }

    /// Euclidean remainder of each component by one scalar.
    fn rem_euclid(self, v: T) -> (r: Self)
        ensures
            r@.len() == N,
            forall|i: int| 0 <= i < N ==> r@[i] == self@[i].spec_rem_euclid(v),
    {
        proof {
            self.lemma_view_len();
        }
        let a = self.to_array();
        let mut res = a;
        for i in 0..N
            invariant
                a@ == self@,
                a@.len() == N,
                res@.len() == N,
                forall|j: int| 0 <= j < i ==> res@[j] == a@[j].spec_rem_euclid(v),
        {
            res[i] = a[i].rem_euclid(v);
        }
        Self::from_array(res)
    }

    /// Euclidean quotient of each component by one scalar.
    fn div_euclid(self, v: T) -> (r: Self)
        ensures
            r@.len() == N,
            forall|i: int| 0 <= i < N ==> r@[i] == self@[i].spec_div_euclid(v),
    {
        proof {
            self.lemma_view_len();
        }
        let a = self.to_array();
        let mut res = a;
        for i in 0..N
            invariant
                a@ == self@,
                a@.len() == N,
                res@.len() == N,
                forall|j: int| 0 <= j < i ==> res@[j] == a@[j].spec_div_euclid(v),
        {
            res[i] = a[i].div_euclid(v);
        }
        Self::from_array(res)
    }

    /// Component-wise Euclidean remainder of two vectors.
    fn rem_euclid_vec(self, rhs: Self) -> (r: Self)
        ensures
            r@.len() == N,
            forall|i: int| 0 <= i < N ==> r@[i] == self@[i].spec_rem_euclid(rhs@[i]),
    {
        proof {
            self.lemma_view_len();
            rhs.lemma_view_len();
        }
        let a = self.to_array();
        let b = rhs.to_array();
        let mut res = a;
        for i in 0..N
            invariant
                a@ == self@,
                b@ == rhs@,
                a@.len() == N,
                b@.len() == N,
                res@.len() == N,
                forall|j: int| 0 <= j < i ==> res@[j] == a@[j].spec_rem_euclid(b@[j]),
        {
            res[i] = a[i].rem_euclid(b[i]);
        }
        Self::from_array(res)
    }

    /// Component-wise Euclidean quotient of two vectors.
    fn div_euclid_vec(self, rhs: Self) -> (r: Self)
        ensures
            r@.len() == N,
            forall|i: int| 0 <= i < N ==> r@[i] == self@[i].spec_div_euclid(rhs@[i]),
    {
        proof {
            self.lemma_view_len();
            rhs.lemma_view_len();
        }
        let a = self.to_array();
        let b = rhs.to_array();
        let mut res = a;
        for i in 0..N
            invariant
                a@ == self@,
                b@ == rhs@,
                a@.len() == N,
                b@.len() == N,
                res@.len() == N,
                forall|j: int| 0 <= j < i ==> res@[j] == a@[j].spec_div_euclid(b@[j]),
        {
            res[i] = a[i].div_euclid(b[i]);
        }
        Self::from_array(res)
    }

    /// Component-wise difference of two vectors.
    fn sub_vec(self, rhs: Self) -> (r: Self)
        ensures
            r@ == seq_sub(self@, rhs@),
    {
        proof {
            self.lemma_view_len();
            rhs.lemma_view_len();
        }
        let a = self.to_array();
        let b = rhs.to_array();
        let mut res = a;
        for i in 0..N
            invariant
                a@ == self@,
                b@ == rhs@,
                a@.len() == N,
                b@.len() == N,
                res@.len() == N,
                forall|j: int| 0 <= j < i ==> res@[j] == a@[j].spec_minus(b@[j]),
        {
            res[i] = a[i].minus(b[i]);
        }
        let out = Self::from_array(res);
        proof {
            assert(out@ =~= seq_sub(self@, rhs@));
        }
        out
    }

    /// Squared magnitude.
    fn length_2(self) -> (r: T)
        requires
            N >= 1,
        ensures
            r == seq_len2(self@),
    {
        self.dot(self)
    }

    /// Magnitude.
    fn length(self) -> (r: T)
        requires
            N >= 1,
        ensures
            r == seq_length(self@),
    {
        self.length_2().sqrt()
    }

    /// Reciprocal of the magnitude, through the reciprocal square root;
    /// meaningful only away from magnitude zero.
    fn length_recip(self) -> (r: T)
        requires
            N >= 1,
        ensures
            r == seq_length_recip(self@),
    {
        self.length_2().rsqrt()
    }

    /// Reciprocal of the squared magnitude; meaningful only away from
    /// magnitude zero.
    fn length_2_recip(self) -> (r: T)
        requires
            N >= 1,
        ensures
            r == seq_len2(self@).spec_recip(),
    {
        self.length_2().recip()
    }

    /// Distance between two points.
    fn distance(self, rhs: Self) -> (r: T)
        requires
            N >= 1,
        ensures
            r == seq_length(seq_sub(self@, rhs@)),
    {
        self.sub_vec(rhs).length()
    }

    /// Reciprocal of the distance between two points; meaningful only when
    /// the points differ.
    fn distance_recip(self, rhs: Self) -> (r: T)
        requires
            N >= 1,
        ensures
            r == seq_length_recip(seq_sub(self@, rhs@)),
    {
        self.sub_vec(rhs).length_recip()
    }

    /// Squared distance between two points.
    fn distance_2(self, rhs: Self) -> (r: T)
        requires
            N >= 1,
        ensures
            r == seq_len2(seq_sub(self@, rhs@)),
    {
        self.sub_vec(rhs).length_2()
    }

    /// Reciprocal of the squared distance; meaningful only when the points
    /// differ.
    fn distance_2_recip(self, rhs: Self) -> (r: T)
        requires
            N >= 1,
        ensures
            r == seq_len2(seq_sub(self@, rhs@)).spec_recip(),
    {
        self.sub_vec(rhs).length_2_recip()
    }

    /// Normalizes the vector by its reciprocal magnitude; the caller must
    /// keep the magnitude away from zero for the result to be meaningful.
    fn normalize(self) -> (r: Self)
        requires
            N >= 1,
        ensures
            r@.len() == N,
            forall|i: int|
                0 <= i < N ==> r@[i] == self@[i].spec_times(seq_length_recip(self@)),
    {
        proof {
            self.lemma_view_len();
        }
        let lr = self.length_recip();
        let a = self.to_array();
        let mut res = a;
        for i in 0..N
            invariant
                a@ == self@,
                a@.len() == N,
                res@.len() == N,
                lr == seq_length_recip(self@),
                forall|j: int| 0 <= j < i ==> res@[j] == a@[j].spec_times(lr),
        {
            res[i] = a[i].times(lr);
        }
        Self::from_array(res)
    }

    /// The vector divided by its magnitude, and the magnitude.
    fn normalize_and_length(self) -> (r: (Self, T))
        requires
            N >= 1,
        ensures
            r.0@.len() == N,
            forall|i: int|
                0 <= i < N ==> r.0@[i] == self@[i].spec_div(seq_length(self@)),
            r.1 == seq_length(self@),
    {
        proof {
            self.lemma_view_len();
        }
        let length = self.length();
        let a = self.to_array();
        let mut res = a;
        for i in 0..N
            invariant
                a@ == self@,
                a@.len() == N,
                res@.len() == N,
                length == seq_length(self@),
                forall|j: int| 0 <= j < i ==> res@[j] == a@[j].spec_div(length),
        {
            res[i] = a[i].div_by(length);
        }
        (Self::from_array(res), length)
    }

    /// Unclamped linear interpolation: `self * (1 - t) + rhs * t`, so values
    /// of `t` outside the unit interval extrapolate.
    fn lerp(self, rhs: Self, t: T) -> (r: Self)
        ensures
            r@.len() == N,
            forall|i: int|
                0 <= i < N ==> r@[i] == self@[i].spec_times(
                    T::spec_one().spec_minus(t),
                ).spec_plus(rhs@[i].spec_times(t)),
    {
        proof {
            self.lemma_view_len();
            rhs.lemma_view_len();
        }
        let s = T::one().minus(t);
        let a = self.to_array();
        let b = rhs.to_array();
        let mut res = a;
        for i in 0..N
            invariant
                a@ == self@,
                b@ == rhs@,
                a@.len() == N,
                b@.len() == N,
                res@.len() == N,
                s == T::spec_one().spec_minus(t),
                forall|j: int|
                    0 <= j < i ==> res@[j] == a@[j].spec_times(s).spec_plus(
                        b@[j].spec_times(t),
                    ),
        {
            res[i] = a[i].times(s).plus(b[i].times(t));
        }
        Self::from_array(res)
    }

    /// Midpoint of two points: `(self + rhs) * half`.
    fn midpoint(self, rhs: Self) -> (r: Self)
        ensures
            r@.len() == N,
            forall|i: int|
                0 <= i < N ==> r@[i] == self@[i].spec_plus(rhs@[i]).spec_times(
                    T::spec_half(),
                ),
    {
        proof {
            self.lemma_view_len();
            rhs.lemma_view_len();
        }
        let h = T::half();
        let a = self.to_array();
        let b = rhs.to_array();
        let mut res = a;
        for i in 0..N
            invariant
                a@ == self@,
                b@ == rhs@,
                a@.len() == N,
                b@.len() == N,
                res@.len() == N,
                h == T::spec_half(),
                forall|j: int| 0 <= j < i ==> res@[j] == a@[j].spec_plus(b@[j]).spec_times(h),
        {
            res[i] = a[i].plus(b[i]).times(h);
        }
        Self::from_array(res)
    }
}

impl<T: Scalar> VecExt<T, 3> for Vec3<T> {
    proof fn lemma_view_len(self) {
    }

    proof fn lemma_view_injective(a: Self, b: Self) {
        assert(a.x == a@[0] && a.y == a@[1] && a.z == a@[2]);
        assert(b.x == b@[0] && b.y == b@[1] && b.z == b@[2]);
    }

    fn to_array(self) -> (a: [T; 3]) {
        let a = [self.x, self.y, self.z];
        proof {
            assert(a@ =~= self@);
        }
        a
    }

    fn from_array(a: [T; 3]) -> (v: Self) {
        let v = Vec3 { x: a[0], y: a[1], z: a[2] };
        proof {
            assert(v@ =~= a@);
        }
        v
    }
}

impl<T: Scalar> VecExt<T, 4> for Vec4<T> {
    proof fn lemma_view_len(self) {
    }

    proof fn lemma_view_injective(a: Self, b: Self) {
        assert(a.x == a@[0] && a.y == a@[1] && a.z == a@[2] && a.w == a@[3]);
        assert(b.x == b@[0] && b.y == b@[1] && b.z == b@[2] && b.w == b@[3]);
    }

    fn to_array(self) -> (a: [T; 4]) {
        let a = [self.x, self.y, self.z, self.w];
        proof {
            assert(a@ =~= self@);
        }
        a
    }

    fn from_array(a: [T; 4]) -> (v: Self) {
        let v = Vec4 { x: a[0], y: a[1], z: a[2], w: a[3] };
        proof {
            assert(v@ =~= a@);
        }
        v
    }
}

} // verus!
