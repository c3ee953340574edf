//! A vector in 2-space, generic over the scalar.
//!
//! Deliberately minimal: construction, the named basis vectors and the array
//! conversions. It stays outside the generic `VecExt` trait.

use vstd::prelude::*;
use crate::scalar::Scalar;

verus! {

/// A vector in 2-space.
#[derive(Clone, Copy, PartialEq, Debug)]
pub struct Vec2<T> {
    pub x: T,
    pub y: T,
}

impl<T> View for Vec2<T> {
    type V = Seq<T>;

    open spec fn view(&self) -> Seq<T> {
        seq![self.x, self.y]
    }
}

impl<T: Scalar> Vec2<T> {
    /// Standard constructor for `<x y>`.
    pub fn new(x: T, y: T) -> (v: Self)
        ensures
            v == (Vec2 { x, y }),
    {
        Vec2 { x, y }
    }

    /// Broadcasts one scalar to both components.
    pub fn splat(v: T) -> (r: Self)
        ensures
            r == (Vec2 { x: v, y: v }),
    {
        Vec2 { x: v, y: v }
    }

    /// The all-zero vector, the additive identity.
    pub fn zero() -> (r: Self)
        ensures
            r == (Vec2 { x: T::spec_zero(), y: T::spec_zero() }),
    {
        Vec2 { x: T::zero(), y: T::zero() }
    }

    /// The positive x-axis basis vector.
    pub fn unit_x() -> (r: Self)
        ensures
            r == (Vec2 { x: T::spec_one(), y: T::spec_zero() }),
    {
        Vec2 { x: T::one(), y: T::zero() }
    }

    /// The positive y-axis basis vector.
    pub fn unit_y() -> (r: Self)
        ensures
            r == (Vec2 { x: T::spec_zero(), y: T::spec_one() }),
    {
        Vec2 { x: T::zero(), y: T::one() }
    }

    /// The negative x-axis basis vector.
    pub fn neg_x() -> (r: Self)
        ensures
            r == (Vec2 { x: T::spec_one().spec_negate(), y: T::spec_zero() }),
    {
        Vec2 { x: T::one().negate(), y: T::zero() }
    }

    /// The negative y-axis basis vector.
    pub fn neg_y() -> (r: Self)
        ensures
            r == (Vec2 { x: T::spec_zero(), y: T::spec_one().spec_negate() }),
    {
        Vec2 { x: T::zero(), y: T::one().negate() }
    }

    /// The components as an array, in order.
    pub fn to_array(self) -> (a: [T; 2])
        ensures
            a@ == self@,
    {
        let a = [self.x, self.y];
        proof {
            assert(a@ =~= self@);
        }
        a
    }

    /// Builds a vector from an array, in order.
    pub fn from_array(arr: [T; 2]) -> (v: Self)
        ensures
            v@ == arr@,
    {
        let v = Vec2 { x: arr[0], y: arr[1] };
        proof {
            assert(v@ =~= arr@);
        }
        v
    }
}

} // verus!
