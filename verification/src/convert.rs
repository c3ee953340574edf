//! Lossless, order-preserving conversions from arrays and tuples into the
//! vector types.

use vstd::prelude::*;
use crate::scalar::Scalar;
use crate::vec2::Vec2;
use crate::vec3::Vec3;
use crate::vec4::Vec4;

verus! {

broadcast use vstd::array::group_array_axioms;

impl<T: Scalar> core::convert::From<[T; 2]> for Vec2<T> {
    /// Builds the vector from an array of components, in order.
    fn from(a: [T; 2]) -> (v: Vec2<T>) {
        Vec2 { x: a[0], y: a[1] }
    }
}

impl<T: Scalar> vstd::std_specs::convert::FromSpecImpl<[T; 2]> for Vec2<T> {
    open spec fn obeys_from_spec() -> bool {
        true
    }

    open spec fn from_spec(a: [T; 2]) -> Vec2<T> {
        Vec2 { x: a@[0], y: a@[1] }
    }
}

impl<T: Scalar> core::convert::From<(T, T)> for Vec2<T> {
    /// Builds the vector from an ordered pair.
    fn from(vals: (T, T)) -> (v: Vec2<T>) {
        Vec2 { x: vals.0, y: vals.1 }
    }
}

impl<T: Scalar> vstd::std_specs::convert::FromSpecImpl<(T, T)> for Vec2<T> {
    open spec fn obeys_from_spec() -> bool {
        true
    }

    open spec fn from_spec(vals: (T, T)) -> Vec2<T> {
        Vec2 { x: vals.0, y: vals.1 }
    }
}

impl<T: Scalar> core::convert::From<[T; 3]> for Vec3<T> {
    /// Builds the vector from an array of components, in order.
    fn from(a: [T; 3]) -> (v: Vec3<T>) {
        Vec3 { x: a[0], y: a[1], z: a[2] }
    }
}

impl<T: Scalar> vstd::std_specs::convert::FromSpecImpl<[T; 3]> for Vec3<T> {
    open spec fn obeys_from_spec() -> bool {
        true
    }

    open spec fn from_spec(a: [T; 3]) -> Vec3<T> {
        Vec3 { x: a@[0], y: a@[1], z: a@[2] }
    }
}

impl<T: Scalar> core::convert::From<(T, T, T)> for Vec3<T> {
    /// Builds the vector from an ordered triple.
    fn from(vals: (T, T, T)) -> (v: Vec3<T>) {
        Vec3 { x: vals.0, y: vals.1, z: vals.2 }
    }
}

impl<T: Scalar> vstd::std_specs::convert::FromSpecImpl<(T, T, T)> for Vec3<T> {
    open spec fn obeys_from_spec() -> bool {
        true
    }

    open spec fn from_spec(vals: (T, T, T)) -> Vec3<T> {
        Vec3 { x: vals.0, y: vals.1, z: vals.2 }
    }
}

impl<T: Scalar> core::convert::From<[T; 4]> for Vec4<T> {
    /// Builds the vector from an array of components, in order.
    fn from(a: [T; 4]) -> (v: Vec4<T>) {
        Vec4 { x: a[0], y: a[1], z: a[2], w: a[3] }
    }
}

impl<T: Scalar> vstd::std_specs::convert::FromSpecImpl<[T; 4]> for Vec4<T> {
    open spec fn obeys_from_spec() -> bool {
        true
    }

    open spec fn from_spec(a: [T; 4]) -> Vec4<T> {
        Vec4 { x: a@[0], y: a@[1], z: a@[2], w: a@[3] }
    }
}

impl<T: Scalar> core::convert::From<(T, T, T, T)> for Vec4<T> {
    /// Builds the vector from an ordered quadruple.
    fn from(vals: (T, T, T, T)) -> (v: Vec4<T>) {
        Vec4 { x: vals.0, y: vals.1, z: vals.2, w: vals.3 }
    }
}

impl<T: Scalar> vstd::std_specs::convert::FromSpecImpl<(T, T, T, T)> for Vec4<T> {
    open spec fn obeys_from_spec() -> bool {
        true
    }

    open spec fn from_spec(vals: (T, T, T, T)) -> Vec4<T> {
        Vec4 { x: vals.0, y: vals.1, z: vals.2, w: vals.3 }
    }
}

impl<T: Scalar> core::default::Default for Vec2<T> {
    /// The default vector is the all-zero vector.
    fn default() -> (r: Vec2<T>)
        ensures
            r == (Vec2 { x: T::spec_zero(), y: T::spec_zero() }),
    {
        Vec2::zero()
    }
}

impl<T: Scalar> core::default::Default for Vec3<T> {
    /// The default vector is the all-zero vector.
    fn default() -> (r: Vec3<T>)
        ensures
            r == Vec3::<T>::spec_zero_vec(),
    {
        Vec3::zero()
    }
}

impl<T: Scalar> core::default::Default for Vec4<T> {
    /// The default vector is the all-zero vector.
    fn default() -> (r: Vec4<T>)
        ensures
            r == Vec4::<T>::spec_zero_vec(),
    {
        Vec4::zero()
    }
}

} // verus!
