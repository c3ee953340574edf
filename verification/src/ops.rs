//! The arithmetic operator surface of the vector types.
//!
//! Each operator is implemented once over owned values, element-wise, with a
//! spec-level meaning given through the corresponding vstd operator spec
//! trait, so `a + b` can be reasoned about directly in contracts.

use vstd::prelude::*;
use crate::scalar::Scalar;
use crate::vec3::Vec3;
use crate::vec4::Vec4;

verus! {

impl<T: Scalar> core::ops::Add<Vec3<T>> for Vec3<T> {
    type Output = Vec3<T>;

    /// Component-wise vector addition.
    fn add(self, rhs: Vec3<T>) -> (r: Vec3<T>) {
        Vec3 {
            x: self.x.plus(rhs.x),
            y: self.y.plus(rhs.y),
            z: self.z.plus(rhs.z),
        }
    }
}

impl<T: Scalar> vstd::std_specs::ops::AddSpecImpl<Vec3<T>> for Vec3<T> {
    open spec fn obeys_add_spec() -> bool {
        true
    }

    open spec fn add_req(self, rhs: Vec3<T>) -> bool {
        true
    }

    open spec fn add_spec(self, rhs: Vec3<T>) -> Vec3<T> {
        Vec3 {
            x: self.x.spec_plus(rhs.x),
            y: self.y.spec_plus(rhs.y),
            z: self.z.spec_plus(rhs.z),
        }
    }
}

impl<T: Scalar> core::ops::Add<T> for Vec3<T> {
    type Output = Vec3<T>;

    /// Element-wise vector-scalar (broadcast) sum.
    fn add(self, rhs: T) -> (r: Vec3<T>) {
        Vec3 {
            x: self.x.plus(rhs),
            y: self.y.plus(rhs),
            z: self.z.plus(rhs),
        }
    }
}

impl<T: Scalar> vstd::std_specs::ops::AddSpecImpl<T> for Vec3<T> {
    open spec fn obeys_add_spec() -> bool {
        true
    }

    open spec fn add_req(self, rhs: T) -> bool {
        true
    }

    open spec fn add_spec(self, rhs: T) -> Vec3<T> {
        Vec3 {
            x: self.x.spec_plus(rhs),
            y: self.y.spec_plus(rhs),
            z: self.z.spec_plus(rhs),
        }
    }
}

impl<T: Scalar> core::ops::Sub<Vec3<T>> for Vec3<T> {
    type Output = Vec3<T>;

    /// Element-wise vector-vector difference.
    fn sub(self, rhs: Vec3<T>) -> (r: Vec3<T>) {
        Vec3 {
            x: self.x.minus(rhs.x),
            y: self.y.minus(rhs.y),
            z: self.z.minus(rhs.z),
        }
    }
}

impl<T: Scalar> vstd::std_specs::ops::SubSpecImpl<Vec3<T>> for Vec3<T> {
    open spec fn obeys_sub_spec() -> bool {
        true
    }

    open spec fn sub_req(self, rhs: Vec3<T>) -> bool {
        true
    }

    open spec fn sub_spec(self, rhs: Vec3<T>) -> Vec3<T> {
        Vec3 {
            x: self.x.spec_minus(rhs.x),
            y: self.y.spec_minus(rhs.y),
            z: self.z.spec_minus(rhs.z),
        }
    }
}

impl<T: Scalar> core::ops::Sub<T> for Vec3<T> {
    type Output = Vec3<T>;

    /// Element-wise vector-scalar (broadcast) difference.
    fn sub(self, rhs: T) -> (r: Vec3<T>) {
        Vec3 {
            x: self.x.minus(rhs),
            y: self.y.minus(rhs),
            z: self.z.minus(rhs),
        }
    }
}

impl<T: Scalar> vstd::std_specs::ops::SubSpecImpl<T> for Vec3<T> {
    open spec fn obeys_sub_spec() -> bool {
        true
    }

    open spec fn sub_req(self, rhs: T) -> bool {
        true
    }

    open spec fn sub_spec(self, rhs: T) -> Vec3<T> {
        Vec3 {
            x: self.x.spec_minus(rhs),
            y: self.y.spec_minus(rhs),
            z: self.z.spec_minus(rhs),
        }
    }
}

impl<T: Scalar> core::ops::Mul<Vec3<T>> for Vec3<T> {
    type Output = Vec3<T>;

    /// Element-wise vector-vector product.
    fn mul(self, rhs: Vec3<T>) -> (r: Vec3<T>) {
        Vec3 {
            x: self.x.times(rhs.x),
            y: self.y.times(rhs.y),
            z: self.z.times(rhs.z),
        }
    }
}

impl<T: Scalar> vstd::std_specs::ops::MulSpecImpl<Vec3<T>> for Vec3<T> {
    open spec fn obeys_mul_spec() -> bool {
        true
    }

    open spec fn mul_req(self, rhs: Vec3<T>) -> bool {
        true
    }

    open spec fn mul_spec(self, rhs: Vec3<T>) -> Vec3<T> {
        Vec3 {
            x: self.x.spec_times(rhs.x),
            y: self.y.spec_times(rhs.y),
            z: self.z.spec_times(rhs.z),
        }
    }
}

impl<T: Scalar> core::ops::Mul<T> for Vec3<T> {
    type Output = Vec3<T>;

    /// Element-wise vector-scalar (broadcast) product.
    fn mul(self, rhs: T) -> (r: Vec3<T>) {
        Vec3 {
            x: self.x.times(rhs),
            y: self.y.times(rhs),
            z: self.z.times(rhs),
        }
    }
}

impl<T: Scalar> vstd::std_specs::ops::MulSpecImpl<T> for Vec3<T> {
    open spec fn obeys_mul_spec() -> bool {
        true
    }

    open spec fn mul_req(self, rhs: T) -> bool {
        true
    }

    open spec fn mul_spec(self, rhs: T) -> Vec3<T> {
        Vec3 {
            x: self.x.spec_times(rhs),
            y: self.y.spec_times(rhs),
            z: self.z.spec_times(rhs),
        }
    }
}

impl<T: Scalar> core::ops::Div<Vec3<T>> for Vec3<T> {
    type Output = Vec3<T>;

    /// Element-wise vector-vector quotient.
    fn div(self, rhs: Vec3<T>) -> (r: Vec3<T>) {
        Vec3 {
            x: self.x.div_by(rhs.x),
            y: self.y.div_by(rhs.y),
            z: self.z.div_by(rhs.z),
        }
    }
}

impl<T: Scalar> vstd::std_specs::ops::DivSpecImpl<Vec3<T>> for Vec3<T> {
    open spec fn obeys_div_spec() -> bool {
        true
    }

    open spec fn div_req(self, rhs: Vec3<T>) -> bool {
        true
    }

    open spec fn div_spec(self, rhs: Vec3<T>) -> Vec3<T> {
        Vec3 {
            x: self.x.spec_div(rhs.x),
            y: self.y.spec_div(rhs.y),
            z: self.z.spec_div(rhs.z),
        }
    }
}

impl<T: Scalar> core::ops::Div<T> for Vec3<T> {
    type Output = Vec3<T>;

    /// Element-wise vector-scalar (broadcast) quotient.
    fn div(self, rhs: T) -> (r: Vec3<T>) {
        Vec3 {
            x: self.x.div_by(rhs),
            y: self.y.div_by(rhs),
            z: self.z.div_by(rhs),
        }
    }
}

impl<T: Scalar> vstd::std_specs::ops::DivSpecImpl<T> for Vec3<T> {
    open spec fn obeys_div_spec() -> bool {
        true
    }

    open spec fn div_req(self, rhs: T) -> bool {
        true
    }

    open spec fn div_spec(self, rhs: T) -> Vec3<T> {
        Vec3 {
            x: self.x.spec_div(rhs),
            y: self.y.spec_div(rhs),
            z: self.z.spec_div(rhs),
        }
    }
}

impl<T: Scalar> core::ops::Rem<Vec3<T>> for Vec3<T> {
    type Output = Vec3<T>;

    /// Element-wise vector-vector remainder.
    fn rem(self, rhs: Vec3<T>) -> (r: Vec3<T>) {
        Vec3 {
            x: self.x.rem_by(rhs.x),
            y: self.y.rem_by(rhs.y),
            z: self.z.rem_by(rhs.z),
        }
    }
}

impl<T: Scalar> vstd::std_specs::ops::RemSpecImpl<Vec3<T>> for Vec3<T> {
    open spec fn obeys_rem_spec() -> bool {
        true
    }

    open spec fn rem_req(self, rhs: Vec3<T>) -> bool {
        true
    }

    open spec fn rem_spec(self, rhs: Vec3<T>) -> Vec3<T> {
        Vec3 {
            x: self.x.spec_rem(rhs.x),
            y: self.y.spec_rem(rhs.y),
            z: self.z.spec_rem(rhs.z),
        }
    }
}

impl<T: Scalar> core::ops::Rem<T> for Vec3<T> {
    type Output = Vec3<T>;

    /// Element-wise vector-scalar (broadcast) remainder.
    fn rem(self, rhs: T) -> (r: Vec3<T>) {
        Vec3 {
            x: self.x.rem_by(rhs),
            y: self.y.rem_by(rhs),
            z: self.z.rem_by(rhs),
        }
    }
}

impl<T: Scalar> vstd::std_specs::ops::RemSpecImpl<T> for Vec3<T> {
    open spec fn obeys_rem_spec() -> bool {
        true
    }

    open spec fn rem_req(self, rhs: T) -> bool {
        true
    }

    open spec fn rem_spec(self, rhs: T) -> Vec3<T> {
        Vec3 {
            x: self.x.spec_rem(rhs),
            y: self.y.spec_rem(rhs),
            z: self.z.spec_rem(rhs),
        }
    }
}

impl<T: Scalar> core::ops::Neg for Vec3<T> {
    type Output = Vec3<T>;

    /// Negation, written as scaling by negative one.
    fn neg(self) -> (r: Vec3<T>) {
        let m = T::one().negate();
        Vec3 {
            x: self.x.times(m),
            y: self.y.times(m),
            z: self.z.times(m),
        }
    }
}

impl<T: Scalar> vstd::std_specs::ops::NegSpecImpl for Vec3<T> {
    open spec fn obeys_neg_spec() -> bool {
        true
    }

    open spec fn neg_req(self) -> bool {
        true
    }

    open spec fn neg_spec(self) -> Vec3<T> {
        Vec3 {
            x: self.x.spec_times(T::spec_one().spec_negate()),
            y: self.y.spec_times(T::spec_one().spec_negate()),
            z: self.z.spec_times(T::spec_one().spec_negate()),
        }
    }
}

impl<T: Scalar> core::ops::Add<Vec4<T>> for Vec4<T> {
    type Output = Vec4<T>;

    /// Element-wise vector-vector sum.
    fn add(self, rhs: Vec4<T>) -> (r: Vec4<T>) {
        Vec4 {
            x: self.x.plus(rhs.x),
            y: self.y.plus(rhs.y),
            z: self.z.plus(rhs.z),
            w: self.w.plus(rhs.w),
        }
    }
}

impl<T: Scalar> vstd::std_specs::ops::AddSpecImpl<Vec4<T>> for Vec4<T> {
    open spec fn obeys_add_spec() -> bool {
        true
    }

    open spec fn add_req(self, rhs: Vec4<T>) -> bool {
        true
    }

    open spec fn add_spec(self, rhs: Vec4<T>) -> Vec4<T> {
        Vec4 {
            x: self.x.spec_plus(rhs.x),
            y: self.y.spec_plus(rhs.y),
            z: self.z.spec_plus(rhs.z),
            w: self.w.spec_plus(rhs.w),
        }
    }
}

impl<T: Scalar> core::ops::Add<T> for Vec4<T> {
    type Output = Vec4<T>;

    /// Element-wise vector-scalar (broadcast) sum.
    fn add(self, rhs: T) -> (r: Vec4<T>) {
        Vec4 {
            x: self.x.plus(rhs),
            y: self.y.plus(rhs),
            z: self.z.plus(rhs),
            w: self.w.plus(rhs),
        }
    }
}

impl<T: Scalar> vstd::std_specs::ops::AddSpecImpl<T> for Vec4<T> {
    open spec fn obeys_add_spec() -> bool {
        true
    }

    open spec fn add_req(self, rhs: T) -> bool {
        true
    }

    open spec fn add_spec(self, rhs: T) -> Vec4<T> {
        Vec4 {
            x: self.x.spec_plus(rhs),
            y: self.y.spec_plus(rhs),
            z: self.z.spec_plus(rhs),
            w: self.w.spec_plus(rhs),
        }
    }
}

impl<T: Scalar> core::ops::Sub<Vec4<T>> for Vec4<T> {
    type Output = Vec4<T>;

    /// Element-wise vector-vector difference.
    fn sub(self, rhs: Vec4<T>) -> (r: Vec4<T>) {
        Vec4 {
            x: self.x.minus(rhs.x),
            y: self.y.minus(rhs.y),
            z: self.z.minus(rhs.z),
            w: self.w.minus(rhs.w),
        }
    }
}

impl<T: Scalar> vstd::std_specs::ops::SubSpecImpl<Vec4<T>> for Vec4<T> {
    open spec fn obeys_sub_spec() -> bool {
        true
    }

    open spec fn sub_req(self, rhs: Vec4<T>) -> bool {
        true
    }

    open spec fn sub_spec(self, rhs: Vec4<T>) -> Vec4<T> {
        Vec4 {
            x: self.x.spec_minus(rhs.x),
            y: self.y.spec_minus(rhs.y),
            z: self.z.spec_minus(rhs.z),
            w: self.w.spec_minus(rhs.w),
        }
    }
}

impl<T: Scalar> core::ops::Sub<T> for Vec4<T> {
    type Output = Vec4<T>;

    /// Element-wise vector-scalar (broadcast) difference.
    fn sub(self, rhs: T) -> (r: Vec4<T>) {
        Vec4 {
            x: self.x.minus(rhs),
            y: self.y.minus(rhs),
            z: self.z.minus(rhs),
            w: self.w.minus(rhs),
        }
    }
}

impl<T: Scalar> vstd::std_specs::ops::SubSpecImpl<T> for Vec4<T> {
    open spec fn obeys_sub_spec() -> bool {
        true
    }

    open spec fn sub_req(self, rhs: T) -> bool {
        true
    }

    open spec fn sub_spec(self, rhs: T) -> Vec4<T> {
        Vec4 {
            x: self.x.spec_minus(rhs),
            y: self.y.spec_minus(rhs),
            z: self.z.spec_minus(rhs),
            w: self.w.spec_minus(rhs),
        }
    }
}

impl<T: Scalar> core::ops::Mul<Vec4<T>> for Vec4<T> {
    type Output = Vec4<T>;

    /// Element-wise vector-vector product.
    fn mul(self, rhs: Vec4<T>) -> (r: Vec4<T>) {
        Vec4 {
            x: self.x.times(rhs.x),
            y: self.y.times(rhs.y),
            z: self.z.times(rhs.z),
            w: self.w.times(rhs.w),
        }
    }
}

impl<T: Scalar> vstd::std_specs::ops::MulSpecImpl<Vec4<T>> for Vec4<T> {
    open spec fn obeys_mul_spec() -> bool {
        true
    }

    open spec fn mul_req(self, rhs: Vec4<T>) -> bool {
        true
    }

    open spec fn mul_spec(self, rhs: Vec4<T>) -> Vec4<T> {
        Vec4 {
            x: self.x.spec_times(rhs.x),
            y: self.y.spec_times(rhs.y),
            z: self.z.spec_times(rhs.z),
            w: self.w.spec_times(rhs.w),
        }
    }
}

impl<T: Scalar> core::ops::Mul<T> for Vec4<T> {
    type Output = Vec4<T>;

    /// Element-wise vector-scalar (broadcast) product.
    fn mul(self, rhs: T) -> (r: Vec4<T>) {
        Vec4 {
            x: self.x.times(rhs),
            y: self.y.times(rhs),
            z: self.z.times(rhs),
            w: self.w.times(rhs),
        }
    }
}

impl<T: Scalar> vstd::std_specs::ops::MulSpecImpl<T> for Vec4<T> {
    open spec fn obeys_mul_spec() -> bool {
        true
    }

    open spec fn mul_req(self, rhs: T) -> bool {
        true
    }

    open spec fn mul_spec(self, rhs: T) -> Vec4<T> {
        Vec4 {
            x: self.x.spec_times(rhs),
            y: self.y.spec_times(rhs),
            z: self.z.spec_times(rhs),
            w: self.w.spec_times(rhs),
        }
    }
}

impl<T: Scalar> core::ops::Div<Vec4<T>> for Vec4<T> {
    type Output = Vec4<T>;

    /// Element-wise vector-vector quotient.
    fn div(self, rhs: Vec4<T>) -> (r: Vec4<T>) {
        Vec4 {
            x: self.x.div_by(rhs.x),
            y: self.y.div_by(rhs.y),
            z: self.z.div_by(rhs.z),
            w: self.w.div_by(rhs.w),
        }
    }
}

impl<T: Scalar> vstd::std_specs::ops::DivSpecImpl<Vec4<T>> for Vec4<T> {
    open spec fn obeys_div_spec() -> bool {
        true
    }

    open spec fn div_req(self, rhs: Vec4<T>) -> bool {
        true
    }

    open spec fn div_spec(self, rhs: Vec4<T>) -> Vec4<T> {
        Vec4 {
            x: self.x.spec_div(rhs.x),
            y: self.y.spec_div(rhs.y),
            z: self.z.spec_div(rhs.z),
            w: self.w.spec_div(rhs.w),
        }
    }
}

impl<T: Scalar> core::ops::Div<T> for Vec4<T> {
    type Output = Vec4<T>;

    /// Element-wise vector-scalar (broadcast) quotient.
    fn div(self, rhs: T) -> (r: Vec4<T>) {
        Vec4 {
            x: self.x.div_by(rhs),
            y: self.y.div_by(rhs),
            z: self.z.div_by(rhs),
            w: self.w.div_by(rhs),
        }
    }
}

impl<T: Scalar> vstd::std_specs::ops::DivSpecImpl<T> for Vec4<T> {
    open spec fn obeys_div_spec() -> bool {
        true
    }

    open spec fn div_req(self, rhs: T) -> bool {
        true
    }

    open spec fn div_spec(self, rhs: T) -> Vec4<T> {
        Vec4 {
            x: self.x.spec_div(rhs),
            y: self.y.spec_div(rhs),
            z: self.z.spec_div(rhs),
            w: self.w.spec_div(rhs),
        }
    }
}

impl<T: Scalar> core::ops::Rem<Vec4<T>> for Vec4<T> {
    type Output = Vec4<T>;

    /// Element-wise vector-vector remainder.
    fn rem(self, rhs: Vec4<T>) -> (r: Vec4<T>) {
        Vec4 {
            x: self.x.rem_by(rhs.x),
            y: self.y.rem_by(rhs.y),
            z: self.z.rem_by(rhs.z),
            w: self.w.rem_by(rhs.w),
        }
    }
}

impl<T: Scalar> vstd::std_specs::ops::RemSpecImpl<Vec4<T>> for Vec4<T> {
    open spec fn obeys_rem_spec() -> bool {
        true
    }

    open spec fn rem_req(self, rhs: Vec4<T>) -> bool {
        true
    }

    open spec fn rem_spec(self, rhs: Vec4<T>) -> Vec4<T> {
        Vec4 {
            x: self.x.spec_rem(rhs.x),
            y: self.y.spec_rem(rhs.y),
            z: self.z.spec_rem(rhs.z),
            w: self.w.spec_rem(rhs.w),
        }
    }
}

impl<T: Scalar> core::ops::Rem<T> for Vec4<T> {
    type Output = Vec4<T>;

    /// Element-wise vector-scalar (broadcast) remainder.
    fn rem(self, rhs: T) -> (r: Vec4<T>) {
        Vec4 {
            x: self.x.rem_by(rhs),
            y: self.y.rem_by(rhs),
            z: self.z.rem_by(rhs),
            w: self.w.rem_by(rhs),
        }
    }
}

impl<T: Scalar> vstd::std_specs::ops::RemSpecImpl<T> for Vec4<T> {
    open spec fn obeys_rem_spec() -> bool {
        true
    }

    open spec fn rem_req(self, rhs: T) -> bool {
        true
    }

    open spec fn rem_spec(self, rhs: T) -> Vec4<T> {
        Vec4 {
            x: self.x.spec_rem(rhs),
            y: self.y.spec_rem(rhs),
            z: self.z.spec_rem(rhs),
            w: self.w.spec_rem(rhs),
        }
    }
}

impl<T: Scalar> core::ops::Neg for Vec4<T> {
    type Output = Vec4<T>;

    /// Negation, written as scaling by negative one.
    fn neg(self) -> (r: Vec4<T>) {
        let m = T::one().negate();
        Vec4 {
            x: self.x.times(m),
            y: self.y.times(m),
            z: self.z.times(m),
            w: self.w.times(m),
        }
    }
}

impl<T: Scalar> vstd::std_specs::ops::NegSpecImpl for Vec4<T> {
    open spec fn obeys_neg_spec() -> bool {
        true
    }

    open spec fn neg_req(self) -> bool {
        true
    }

    open spec fn neg_spec(self) -> Vec4<T> {
        Vec4 {
            x: self.x.spec_times(T::spec_one().spec_negate()),
            y: self.y.spec_times(T::spec_one().spec_negate()),
            z: self.z.spec_times(T::spec_one().spec_negate()),
            w: self.w.spec_times(T::spec_one().spec_negate()),
        }
    }
}


impl<T: Scalar> core::ops::Index<usize> for Vec3<T> {
    type Output = T;

    /// The component at a position; positions 0, 1 and 2 are the only valid
    /// ones, and any other position is a precondition violation. The
    /// inherent `index` method carries the full value contract.
    fn index(&self, i: usize) -> (r: &T) {
        if i == 0 {
            &self.x
        } else if i == 1 {
            &self.y
        } else {
            &self.z
        }
    }
}

impl<T: Scalar> vstd::std_specs::core::IndexSpecImpl<usize> for Vec3<T> {
    open spec fn index_req(&self, i: &usize) -> bool {
        *i < 3
    }
}

impl<T: Scalar> core::ops::Index<usize> for Vec4<T> {
    type Output = T;

    /// The component at a position; positions 0 through 3 are the only valid
    /// ones, and any other position is a precondition violation. The
    /// inherent `index` method carries the full value contract.
    fn index(&self, i: usize) -> (r: &T) {
        if i == 0 {
            &self.x
        } else if i == 1 {
            &self.y
        } else if i == 2 {
            &self.z
        } else {
            &self.w
        }
    }
}

impl<T: Scalar> vstd::std_specs::core::IndexSpecImpl<usize> for Vec4<T> {
    open spec fn index_req(&self, i: &usize) -> bool {
        *i < 4
    }
}

impl<T: Scalar> core::ops::AddAssign<Vec3<T>> for Vec3<T> {
    /// In-place element-wise sum with another vector.
    fn add_assign(&mut self, rhs: Vec3<T>)
        ensures
            final(self).x == old(self).x.spec_plus(rhs.x),
            final(self).y == old(self).y.spec_plus(rhs.y),
            final(self).z == old(self).z.spec_plus(rhs.z),
    {
        self.x = self.x.plus(rhs.x);
        self.y = self.y.plus(rhs.y);
        self.z = self.z.plus(rhs.z);
    }
}

impl<T: Scalar> core::ops::AddAssign<T> for Vec3<T> {
    /// In-place element-wise sum with a broadcast scalar.
    fn add_assign(&mut self, rhs: T)
        ensures
            final(self).x == old(self).x.spec_plus(rhs),
            final(self).y == old(self).y.spec_plus(rhs),
            final(self).z == old(self).z.spec_plus(rhs),
    {
        self.x = self.x.plus(rhs);
        self.y = self.y.plus(rhs);
        self.z = self.z.plus(rhs);
    }
}

impl<T: Scalar> core::ops::SubAssign<Vec3<T>> for Vec3<T> {
    /// In-place element-wise difference with another vector.
    fn sub_assign(&mut self, rhs: Vec3<T>)
        ensures
            final(self).x == old(self).x.spec_minus(rhs.x),
            final(self).y == old(self).y.spec_minus(rhs.y),
            final(self).z == old(self).z.spec_minus(rhs.z),
    {
        self.x = self.x.minus(rhs.x);
        self.y = self.y.minus(rhs.y);
        self.z = self.z.minus(rhs.z);
    }
}

impl<T: Scalar> core::ops::SubAssign<T> for Vec3<T> {
    /// In-place element-wise difference with a broadcast scalar.
    fn sub_assign(&mut self, rhs: T)
        ensures
            final(self).x == old(self).x.spec_minus(rhs),
            final(self).y == old(self).y.spec_minus(rhs),
            final(self).z == old(self).z.spec_minus(rhs),
    {
        self.x = self.x.minus(rhs);
        self.y = self.y.minus(rhs);
        self.z = self.z.minus(rhs);
    }
}

impl<T: Scalar> core::ops::MulAssign<Vec3<T>> for Vec3<T> {
    /// In-place element-wise product with another vector.
    fn mul_assign(&mut self, rhs: Vec3<T>)
        ensures
            final(self).x == old(self).x.spec_times(rhs.x),
            final(self).y == old(self).y.spec_times(rhs.y),
            final(self).z == old(self).z.spec_times(rhs.z),
    {
        self.x = self.x.times(rhs.x);
        self.y = self.y.times(rhs.y);
        self.z = self.z.times(rhs.z);
    }
}

impl<T: Scalar> core::ops::MulAssign<T> for Vec3<T> {
    /// In-place element-wise product with a broadcast scalar.
    fn mul_assign(&mut self, rhs: T)
        ensures
            final(self).x == old(self).x.spec_times(rhs),
            final(self).y == old(self).y.spec_times(rhs),
            final(self).z == old(self).z.spec_times(rhs),
    {
        self.x = self.x.times(rhs);
        self.y = self.y.times(rhs);
        self.z = self.z.times(rhs);
    }
}

impl<T: Scalar> core::ops::DivAssign<Vec3<T>> for Vec3<T> {
    /// In-place element-wise quotient with another vector.
    fn div_assign(&mut self, rhs: Vec3<T>)
        ensures
            final(self).x == old(self).x.spec_div(rhs.x),
            final(self).y == old(self).y.spec_div(rhs.y),
            final(self).z == old(self).z.spec_div(rhs.z),
    {
        self.x = self.x.div_by(rhs.x);
        self.y = self.y.div_by(rhs.y);
        self.z = self.z.div_by(rhs.z);
    }
}

impl<T: Scalar> core::ops::DivAssign<T> for Vec3<T> {
    /// In-place element-wise quotient with a broadcast scalar.
    fn div_assign(&mut self, rhs: T)
        ensures
            final(self).x == old(self).x.spec_div(rhs),
            final(self).y == old(self).y.spec_div(rhs),
            final(self).z == old(self).z.spec_div(rhs),
    {
        self.x = self.x.div_by(rhs);
        self.y = self.y.div_by(rhs);
        self.z = self.z.div_by(rhs);
    }
}

impl<T: Scalar> core::ops::RemAssign<Vec3<T>> for Vec3<T> {
    /// In-place element-wise remainder with another vector.
    fn rem_assign(&mut self, rhs: Vec3<T>)
        ensures
            final(self).x == old(self).x.spec_rem(rhs.x),
            final(self).y == old(self).y.spec_rem(rhs.y),
            final(self).z == old(self).z.spec_rem(rhs.z),
    {
        self.x = self.x.rem_by(rhs.x);
        self.y = self.y.rem_by(rhs.y);
        self.z = self.z.rem_by(rhs.z);
    }
}

impl<T: Scalar> core::ops::RemAssign<T> for Vec3<T> {
    /// In-place element-wise remainder with a broadcast scalar.
    fn rem_assign(&mut self, rhs: T)
        ensures
            final(self).x == old(self).x.spec_rem(rhs),
            final(self).y == old(self).y.spec_rem(rhs),
            final(self).z == old(self).z.spec_rem(rhs),
    {
        self.x = self.x.rem_by(rhs);
        self.y = self.y.rem_by(rhs);
        self.z = self.z.rem_by(rhs);
    }
}

impl<T: Scalar> core::ops::AddAssign<Vec4<T>> for Vec4<T> {
    /// In-place element-wise sum with another vector.
    fn add_assign(&mut self, rhs: Vec4<T>)
        ensures
            final(self).x == old(self).x.spec_plus(rhs.x),
            final(self).y == old(self).y.spec_plus(rhs.y),
            final(self).z == old(self).z.spec_plus(rhs.z),
            final(self).w == old(self).w.spec_plus(rhs.w),
    {
        self.x = self.x.plus(rhs.x);
        self.y = self.y.plus(rhs.y);
        self.z = self.z.plus(rhs.z);
        self.w = self.w.plus(rhs.w);
    }
}

impl<T: Scalar> core::ops::AddAssign<T> for Vec4<T> {
    /// In-place element-wise sum with a broadcast scalar.
    fn add_assign(&mut self, rhs: T)
        ensures
            final(self).x == old(self).x.spec_plus(rhs),
            final(self).y == old(self).y.spec_plus(rhs),
            final(self).z == old(self).z.spec_plus(rhs),
            final(self).w == old(self).w.spec_plus(rhs),
    {
        self.x = self.x.plus(rhs);
        self.y = self.y.plus(rhs);
        self.z = self.z.plus(rhs);
        self.w = self.w.plus(rhs);
    }
}

impl<T: Scalar> core::ops::SubAssign<Vec4<T>> for Vec4<T> {
    /// In-place element-wise difference with another vector.
    fn sub_assign(&mut self, rhs: Vec4<T>)
        ensures
            final(self).x == old(self).x.spec_minus(rhs.x),
            final(self).y == old(self).y.spec_minus(rhs.y),
            final(self).z == old(self).z.spec_minus(rhs.z),
            final(self).w == old(self).w.spec_minus(rhs.w),
    {
        self.x = self.x.minus(rhs.x);
        self.y = self.y.minus(rhs.y);
        self.z = self.z.minus(rhs.z);
        self.w = self.w.minus(rhs.w);
    }
}

impl<T: Scalar> core::ops::SubAssign<T> for Vec4<T> {
    /// In-place element-wise difference with a broadcast scalar.
    fn sub_assign(&mut self, rhs: T)
        ensures
            final(self).x == old(self).x.spec_minus(rhs),
            final(self).y == old(self).y.spec_minus(rhs),
            final(self).z == old(self).z.spec_minus(rhs),
            final(self).w == old(self).w.spec_minus(rhs),
    {
        self.x = self.x.minus(rhs);
        self.y = self.y.minus(rhs);
        self.z = self.z.minus(rhs);
        self.w = self.w.minus(rhs);
    }
}

impl<T: Scalar> core::ops::MulAssign<Vec4<T>> for Vec4<T> {
    /// In-place element-wise product with another vector.
    fn mul_assign(&mut self, rhs: Vec4<T>)
        ensures
            final(self).x == old(self).x.spec_times(rhs.x),
            final(self).y == old(self).y.spec_times(rhs.y),
            final(self).z == old(self).z.spec_times(rhs.z),
            final(self).w == old(self).w.spec_times(rhs.w),
    {
        self.x = self.x.times(rhs.x);
        self.y = self.y.times(rhs.y);
        self.z = self.z.times(rhs.z);
        self.w = self.w.times(rhs.w);
    }
}

impl<T: Scalar> core::ops::MulAssign<T> for Vec4<T> {
    /// In-place element-wise product with a broadcast scalar.
    fn mul_assign(&mut self, rhs: T)
        ensures
            final(self).x == old(self).x.spec_times(rhs),
            final(self).y == old(self).y.spec_times(rhs),
            final(self).z == old(self).z.spec_times(rhs),
            final(self).w == old(self).w.spec_times(rhs),
    {
        self.x = self.x.times(rhs);
        self.y = self.y.times(rhs);
        self.z = self.z.times(rhs);
        self.w = self.w.times(rhs);
    }
}

impl<T: Scalar> core::ops::DivAssign<Vec4<T>> for Vec4<T> {
    /// In-place element-wise quotient with another vector.
    fn div_assign(&mut self, rhs: Vec4<T>)
        ensures
            final(self).x == old(self).x.spec_div(rhs.x),
            final(self).y == old(self).y.spec_div(rhs.y),
            final(self).z == old(self).z.spec_div(rhs.z),
            final(self).w == old(self).w.spec_div(rhs.w),
    {
        self.x = self.x.div_by(rhs.x);
        self.y = self.y.div_by(rhs.y);
        self.z = self.z.div_by(rhs.z);
        self.w = self.w.div_by(rhs.w);
    }
}

impl<T: Scalar> core::ops::DivAssign<T> for Vec4<T> {
    /// In-place element-wise quotient with a broadcast scalar.
    fn div_assign(&mut self, rhs: T)
        ensures
            final(self).x == old(self).x.spec_div(rhs),
            final(self).y == old(self).y.spec_div(rhs),
            final(self).z == old(self).z.spec_div(rhs),
            final(self).w == old(self).w.spec_div(rhs),
    {
        self.x = self.x.div_by(rhs);
        self.y = self.y.div_by(rhs);
        self.z = self.z.div_by(rhs);
        self.w = self.w.div_by(rhs);
    }
}

impl<T: Scalar> core::ops::RemAssign<Vec4<T>> for Vec4<T> {
    /// In-place element-wise remainder with another vector.
    fn rem_assign(&mut self, rhs: Vec4<T>)
        ensures
            final(self).x == old(self).x.spec_rem(rhs.x),
            final(self).y == old(self).y.spec_rem(rhs.y),
            final(self).z == old(self).z.spec_rem(rhs.z),
            final(self).w == old(self).w.spec_rem(rhs.w),
    {
        self.x = self.x.rem_by(rhs.x);
        self.y = self.y.rem_by(rhs.y);
        self.z = self.z.rem_by(rhs.z);
        self.w = self.w.rem_by(rhs.w);
    }
}

impl<T: Scalar> core::ops::RemAssign<T> for Vec4<T> {
    /// In-place element-wise remainder with a broadcast scalar.
    fn rem_assign(&mut self, rhs: T)
        ensures
            final(self).x == old(self).x.spec_rem(rhs),
            final(self).y == old(self).y.spec_rem(rhs),
            final(self).z == old(self).z.spec_rem(rhs),
            final(self).w == old(self).w.spec_rem(rhs),
    {
        self.x = self.x.rem_by(rhs);
        self.y = self.y.rem_by(rhs);
        self.z = self.z.rem_by(rhs);
        self.w = self.w.rem_by(rhs);
    }
}


} // verus!
