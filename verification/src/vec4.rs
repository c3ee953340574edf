//! A vector in 4-space, generic over the scalar.
//!
//! Its inherent surface is small: construction, named basis vectors and the
//! per-component clamps. Everything higher-level comes from the generic
//! `VecExt` trait.

use vstd::prelude::*;
use crate::scalar::Scalar;

verus! {

/// A vector in 4-space.
#[derive(Clone, Copy, PartialEq, Debug)]
pub struct Vec4<T> {
    pub x: T,
    pub y: T,
    pub z: T,
    pub w: T,
}

impl<T> View for Vec4<T> {
    type V = Seq<T>;

    open spec fn view(&self) -> Seq<T> {
        seq![self.x, self.y, self.z, self.w]
    }
}

impl<T: Scalar> Vec4<T> {
    /// The all-zero vector.
    pub open spec fn spec_zero_vec() -> Self {
        Vec4 {
            x: T::spec_zero(),
            y: T::spec_zero(),
            z: T::spec_zero(),
            w: T::spec_zero(),
        }
    }

    /// Standard constructor for `<x y z w>`.
    pub fn new(x: T, y: T, z: T, w: T) -> (v: Self)
        ensures
            v == (Vec4 { x, y, z, w }),
    {
        Vec4 { x, y, z, w }
    }

    /// Broadcasts one scalar to all components.
    pub fn splat(v: T) -> (r: Self)
        ensures
            r == (Vec4 { x: v, y: v, z: v, w: v }),
    {
        Vec4 { x: v, y: v, z: v, w: v }
    }

    /// The all-zero vector, the additive identity.
    pub fn zero() -> (r: Self)
        ensures
            r == Self::spec_zero_vec(),
    {
        let o = T::zero();
        Vec4 { x: o, y: o, z: o, w: o }
    }

    /// The positive x-axis basis vector.
    pub fn unit_x() -> (r: Self)
        ensures
            r == (Vec4 {
                x: T::spec_one(),
                y: T::spec_zero(),
                z: T::spec_zero(),
                w: T::spec_zero(),
            }),
    {
        Vec4 { x: T::one(), y: T::zero(), z: T::zero(), w: T::zero() }
    }

    /// The positive y-axis basis vector.
    pub fn unit_y() -> (r: Self)
        ensures
            r == (Vec4 {
                x: T::spec_zero(),
                y: T::spec_one(),
                z: T::spec_zero(),
                w: T::spec_zero(),
            }),
    {
        Vec4 { x: T::zero(), y: T::one(), z: T::zero(), w: T::zero() }
    }

    /// The positive z-axis basis vector.
    pub fn unit_z() -> (r: Self)
        ensures
            r == (Vec4 {
                x: T::spec_zero(),
                y: T::spec_zero(),
                z: T::spec_one(),
                w: T::spec_zero(),
            }),
    {
        Vec4 { x: T::zero(), y: T::zero(), z: T::one(), w: T::zero() }
    }

    /// The positive w-axis basis vector.
    pub fn unit_w() -> (r: Self)
        ensures
            r == (Vec4 {
                x: T::spec_zero(),
                y: T::spec_zero(),
                z: T::spec_zero(),
                w: T::spec_one(),
            }),
    {
        Vec4 { x: T::zero(), y: T::zero(), z: T::zero(), w: T::one() }
    }

    /// The negative x-axis basis vector.
    pub fn neg_x() -> (r: Self)
        ensures
            r == (Vec4 {
                x: T::spec_one().spec_negate(),
                y: T::spec_zero(),
                z: T::spec_zero(),
                w: T::spec_zero(),
            }),
    {
        Vec4 { x: T::one().negate(), y: T::zero(), z: T::zero(), w: T::zero() }
    }

    /// The negative y-axis basis vector.
    pub fn neg_y() -> (r: Self)
        ensures
            r == (Vec4 {
                x: T::spec_zero(),
                y: T::spec_one().spec_negate(),
                z: T::spec_zero(),
                w: T::spec_zero(),
            }),
    {
        Vec4 { x: T::zero(), y: T::one().negate(), z: T::zero(), w: T::zero() }
    }

    /// The negative z-axis basis vector.
    pub fn neg_z() -> (r: Self)
        ensures
            r == (Vec4 {
                x: T::spec_zero(),
                y: T::spec_zero(),
                z: T::spec_one().spec_negate(),
                w: T::spec_zero(),
            }),
    {
        Vec4 { x: T::zero(), y: T::zero(), z: T::one().negate(), w: T::zero() }
    }

    /// The negative w-axis basis vector.
    pub fn neg_w() -> (r: Self)
        ensures
            r == (Vec4 {
                x: T::spec_zero(),
                y: T::spec_zero(),
                z: T::spec_zero(),
                w: T::spec_one().spec_negate(),
            }),
    {
        Vec4 { x: T::zero(), y: T::zero(), z: T::zero(), w: T::one().negate() }
    }

    /// Clamps the x component.
    pub fn clamp_x(self, min: T, max: T) -> (r: Self)
        requires
            min.spec_is_le(max),
        ensures
            r == (Vec4 { x: self.x.spec_clamp(min, max), y: self.y, z: self.z, w: self.w }),
    {
        Vec4 { x: self.x.clamp(min, max), y: self.y, z: self.z, w: self.w }
    }

    /// Clamps the y component.
    pub fn clamp_y(self, min: T, max: T) -> (r: Self)
        requires
            min.spec_is_le(max),
        ensures
            r == (Vec4 { x: self.x, y: self.y.spec_clamp(min, max), z: self.z, w: self.w }),
    {
        Vec4 { x: self.x, y: self.y.clamp(min, max), z: self.z, w: self.w }
    }

    /// Clamps the z component.
    pub fn clamp_z(self, min: T, max: T) -> (r: Self)
        requires
            min.spec_is_le(max),
        ensures
            r == (Vec4 { x: self.x, y: self.y, z: self.z.spec_clamp(min, max), w: self.w }),
    {
        Vec4 { x: self.x, y: self.y, z: self.z.clamp(min, max), w: self.w }
    }

    /// Clamps the w component.
    pub fn clamp_w(self, min: T, max: T) -> (r: Self)
        requires
            min.spec_is_le(max),
        ensures
            r == (Vec4 { x: self.x, y: self.y, z: self.z, w: self.w.spec_clamp(min, max) }),
    {
        Vec4 { x: self.x, y: self.y, z: self.z, w: self.w.clamp(min, max) }
    }

    /// The component at a position; positions 0 through 3 are the only valid
    /// ones.
    pub fn index(&self, i: usize) -> (r: T)
        requires
            i < 4,
        ensures
            r == self@[i as int],
    {
        if i == 0 {
            self.x
        } else if i == 1 {
            self.y
        } else if i == 2 {
            self.z
        } else {
            self.w
        }
    }

    /// Replaces the component at a position, the mutable counterpart of
    /// `index`.
    pub fn set_index(&mut self, i: usize, v: T)
        requires
            i < 4,
        ensures
            final(self)@ == old(self)@.update(i as int, v),
    {
        if i == 0 {
            self.x = v;
        } else if i == 1 {
            self.y = v;
        } else if i == 2 {
            self.z = v;
        } else {
            self.w = v;
        }
        proof {
            assert(self@ =~= old(self)@.update(i as int, v));
        }
    }

    /// The components as an ordered quadruple.
    pub fn to_tuple(self) -> (r: (T, T, T, T))
        ensures
            r.0 == self.x,
            r.1 == self.y,
            r.2 == self.z,
            r.3 == self.w,
    {
        (self.x, self.y, self.z, self.w)
    }

    /// Builds a vector from an ordered quadruple.
    pub fn from_tuple(vals: (T, T, T, T)) -> (r: Self)
        ensures
            r == (Vec4 { x: vals.0, y: vals.1, z: vals.2, w: vals.3 }),
    {
        Vec4 { x: vals.0, y: vals.1, z: vals.2, w: vals.3 }
    }
}

} // verus!
