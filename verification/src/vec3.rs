//! A vector in 3-space, generic over the scalar.

use vstd::prelude::*;
use crate::scalar::{spec_two, two, Scalar};

verus! {

/// A vector in 3-space.
#[derive(Clone, Copy, PartialEq, Debug)]
pub struct Vec3<T> {
    pub x: T,
    pub y: T,
    pub z: T,
}

impl<T> View for Vec3<T> {
    type V = Seq<T>;

    open spec fn view(&self) -> Seq<T> {
        seq![self.x, self.y, self.z]
    }
}

impl<T: Scalar> Vec3<T> {
    /// Sum of the components, folded left.
    pub open spec fn spec_sum(self) -> T {
        self.x.spec_plus(self.y).spec_plus(self.z)
    }

    /// Dot product, folded left.
    pub open spec fn spec_dot(self, rhs: Self) -> T {
        self.x.spec_times(rhs.x).spec_plus(self.y.spec_times(rhs.y)).spec_plus(
            self.z.spec_times(rhs.z),
        )
    }

    /// Squared magnitude.
    pub open spec fn spec_len2(self) -> T {
        self.spec_dot(self)
    }

    /// Magnitude.
    pub open spec fn spec_length(self) -> T {
        self.spec_len2().spec_sqrt()
    }

    /// Reciprocal of the magnitude.
    pub open spec fn spec_length_recip(self) -> T {
        self.spec_len2().spec_sqrt().spec_recip()
    }

    /// Component-wise difference.
    pub open spec fn spec_sub_vec(self, rhs: Self) -> Self {
        Vec3 {
            x: self.x.spec_minus(rhs.x),
            y: self.y.spec_minus(rhs.y),
            z: self.z.spec_minus(rhs.z),
        }
    }

    /// Right-hand-rule cross product.
    pub open spec fn spec_cross(self, rhs: Self) -> Self {
        Vec3 {
            x: self.y.spec_times(rhs.z).spec_minus(rhs.y.spec_times(self.z)),
            y: self.z.spec_times(rhs.x).spec_minus(rhs.z.spec_times(self.x)),
            z: self.x.spec_times(rhs.y).spec_minus(rhs.x.spec_times(self.y)),
        }
    }

    /// The all-zero vector.
    pub open spec fn spec_zero_vec() -> Self {
        Vec3 { x: T::spec_zero(), y: T::spec_zero(), z: T::spec_zero() }
    }

    /// Scaling by a scalar on the right.
    pub open spec fn spec_scale(self, v: T) -> Self {
        Vec3 {
            x: self.x.spec_times(v),
            y: self.y.spec_times(v),
            z: self.z.spec_times(v),
        }
    }

    /// Negation, written as scaling by negative one.
    pub open spec fn spec_neg_vec(self) -> Self {
        self.spec_scale(T::spec_one().spec_negate())
    }

    /// Reflection of `self` off a surface with unit normal `normal`:
    /// `self - 2 * normal * (self . normal)`.
    pub open spec fn spec_reflect(self, normal: Self) -> Self {
        let d = self.spec_dot(normal);
        Vec3 {
            x: self.x.spec_minus(spec_two::<T>().spec_times(normal.x).spec_times(d)),
            y: self.y.spec_minus(spec_two::<T>().spec_times(normal.y).spec_times(d)),
            z: self.z.spec_minus(spec_two::<T>().spec_times(normal.z).spec_times(d)),
        }
    }

    /// Refraction through a surface: the bent ray, or the zero vector under
    /// total internal reflection.
    pub open spec fn spec_refract(self, normal: Self, r: T) -> Self {
        let cos_a1 = normal.spec_dot(self).spec_negate();
        let cos_a2_2 = T::spec_one().spec_minus(
            r.spec_times(r).spec_times(T::spec_one().spec_minus(cos_a1.spec_times(cos_a1))),
        );
        if T::spec_zero().spec_is_le(cos_a2_2) {
            let w = r.spec_times(cos_a1).spec_minus(cos_a2_2.spec_sqrt());
            Vec3 {
                x: r.spec_times(self.x).spec_plus(w.spec_times(normal.x)),
                y: r.spec_times(self.y).spec_plus(w.spec_times(normal.y)),
                z: r.spec_times(self.z).spec_plus(w.spec_times(normal.z)),
            }
        } else {
            Self::spec_zero_vec()
        }
    }

    /// Cosine of the acute angle between two vectors.
    pub open spec fn spec_cos_angle_between(self, rhs: Self) -> T {
        self.spec_dot(rhs).spec_div(self.spec_len2().spec_times(rhs.spec_len2()).spec_sqrt())
    }

    /// Standard constructor for `<x y z>`.
    pub fn new(x: T, y: T, z: T) -> (v: Self)
        ensures
            v == (Vec3 { x, y, z }),
    {
        Vec3 { x, y, z }
    }

    /// Broadcasts one scalar to all components.
    pub fn splat(v: T) -> (r: Self)
        ensures
            r == (Vec3 { x: v, y: v, z: v }),
    {
        Vec3 { x: v, y: v, z: v }
    }

    /// The all-zero vector, the additive identity.
    pub fn zero() -> (r: Self)
        ensures
            r == Self::spec_zero_vec(),
    {
        let o = T::zero();
        Vec3 { x: o, y: o, z: o }
    }

    /// The positive x-axis basis vector.
    pub fn unit_x() -> (r: Self)
        ensures
            r == (Vec3 { x: T::spec_one(), y: T::spec_zero(), z: T::spec_zero() }),
    {
        Vec3 { x: T::one(), y: T::zero(), z: T::zero() }
    }

    /// The positive y-axis basis vector.
    pub fn unit_y() -> (r: Self)
        ensures
            r == (Vec3 { x: T::spec_zero(), y: T::spec_one(), z: T::spec_zero() }),
    {
        Vec3 { x: T::zero(), y: T::one(), z: T::zero() }
    }

    /// The positive z-axis basis vector.
    pub fn unit_z() -> (r: Self)
        ensures
            r == (Vec3 { x: T::spec_zero(), y: T::spec_zero(), z: T::spec_one() }),
    {
        Vec3 { x: T::zero(), y: T::zero(), z: T::one() }
    }

    /// The negative x-axis basis vector.
    pub fn neg_x() -> (r: Self)
        ensures
            r == (Vec3 {
                x: T::spec_one().spec_negate(),
                y: T::spec_zero(),
                z: T::spec_zero(),
            }),
    {
        Vec3 { x: T::one().negate(), y: T::zero(), z: T::zero() }
    }

    /// The negative y-axis basis vector.
    pub fn neg_y() -> (r: Self)
        ensures
            r == (Vec3 {
                x: T::spec_zero(),
                y: T::spec_one().spec_negate(),
                z: T::spec_zero(),
            }),
    {
        Vec3 { x: T::zero(), y: T::one().negate(), z: T::zero() }
    }

    /// The negative z-axis basis vector.
    pub fn neg_z() -> (r: Self)
        ensures
            r == (Vec3 {
                x: T::spec_zero(),
                y: T::spec_zero(),
                z: T::spec_one().spec_negate(),
            }),
    {
        Vec3 { x: T::zero(), y: T::zero(), z: T::one().negate() }
    }

    /// Creates a flattened forward vector from a yaw angle.
    pub fn forward_from_yaw(yaw: T) -> (r: Self)
        ensures
            r == (Vec3 { x: yaw.spec_sin(), y: T::spec_zero(), z: yaw.spec_cos() }),
    {
        let (sin_yaw, cos_yaw) = yaw.sin_cos();
        Vec3 { x: sin_yaw, y: T::zero(), z: cos_yaw }
    }

    /// Creates a flattened right vector from a yaw angle.
    pub fn right_from_yaw(yaw: T) -> (r: Self)
        ensures
            r == (Vec3 {
                x: yaw.spec_cos(),
                y: T::spec_zero(),
                z: yaw.spec_sin().spec_negate(),
            }),
    {
        let (sin_yaw, cos_yaw) = yaw.sin_cos();
        Vec3 { x: cos_yaw, y: T::zero(), z: sin_yaw.negate() }
    }

    /// Creates the flattened forward and right vectors from a yaw angle.
    pub fn forward_and_right_from_yaw(yaw: T) -> (r: (Self, Self))
        ensures
            r.0 == (Vec3 { x: yaw.spec_sin(), y: T::spec_zero(), z: yaw.spec_cos() }),
            r.1 == (Vec3 {
                x: yaw.spec_cos(),
                y: T::spec_zero(),
                z: yaw.spec_sin().spec_negate(),
            }),
    {
        let (sin_yaw, cos_yaw) = yaw.sin_cos();
        let forward = Vec3 { x: sin_yaw, y: T::zero(), z: cos_yaw };
        let right = Vec3 { x: cos_yaw, y: T::zero(), z: sin_yaw.negate() };
        (forward, right)
    }

    /// Normalizes the vector so its magnitude is one; the caller must keep
    /// the magnitude away from zero for the result to be meaningful.
    pub fn normalize(self) -> (r: Self)
        ensures
            r == self.spec_scale(self.spec_length_recip()),
    {
        let lr = self.length_recip();
        Vec3 { x: self.x.times(lr), y: self.y.times(lr), z: self.z.times(lr) }
    }

    /// Returns the vector divided by its magnitude, and the magnitude.
    pub fn normalize_and_length(self) -> (r: (Self, T))
        ensures
            r.0 == (Vec3 {
                x: self.x.spec_div(self.spec_length()),
                y: self.y.spec_div(self.spec_length()),
                z: self.z.spec_div(self.spec_length()),
            }),
            r.1 == self.spec_length(),
    {
        let length = self.length();
        (
            Vec3 {
                x: self.x.div_by(length),
                y: self.y.div_by(length),
                z: self.z.div_by(length),
            },
            length,
        )
    }

    /// Transforms a local-space vector into the space of an orthonormal
    /// `right`/`up`/`forward` basis: `right*x + up*y + forward*z`.
    pub fn to_world(self, right: Self, up: Self, forward: Self) -> (r: Self)
        ensures
            r == (Vec3 {
                x: right.x.spec_times(self.x).spec_plus(up.x.spec_times(self.y)).spec_plus(
                    forward.x.spec_times(self.z),
                ),
                y: right.y.spec_times(self.x).spec_plus(up.y.spec_times(self.y)).spec_plus(
                    forward.y.spec_times(self.z),
                ),
                z: right.z.spec_times(self.x).spec_plus(up.z.spec_times(self.y)).spec_plus(
                    forward.z.spec_times(self.z),
                ),
            }),
    {
        Vec3 {
            x: right.x.times(self.x).plus(up.x.times(self.y)).plus(forward.x.times(self.z)),
            y: right.y.times(self.x).plus(up.y.times(self.y)).plus(forward.y.times(self.z)),
            z: right.z.times(self.x).plus(up.z.times(self.y)).plus(forward.z.times(self.z)),
        }
    }

    /// Sum of the components.
    pub fn sum(self) -> (r: T)
        ensures
            r == self.spec_sum(),
    {
        self.x.plus(self.y).plus(self.z)
    }

    /// Dot product of two vectors.
    pub fn dot(self, rhs: Self) -> (r: T)
        ensures
            r == self.spec_dot(rhs),
    {
        self.x.times(rhs.x).plus(self.y.times(rhs.y)).plus(self.z.times(rhs.z))
    }

    /// Cross product of two vectors, by the right-hand rule.
    pub fn cross(self, rhs: Self) -> (r: Self)
        ensures
            r == self.spec_cross(rhs),
    {
        Vec3 {
            x: self.y.times(rhs.z).minus(rhs.y.times(self.z)),
            y: self.z.times(rhs.x).minus(rhs.z.times(self.x)),
            z: self.x.times(rhs.y).minus(rhs.x.times(self.y)),
        }
    }

    /// The vector with the smaller entry of each component pair.
    pub fn min(self, rhs: Self) -> (r: Self)
        ensures
            r == (Vec3 {
                x: self.x.spec_min(rhs.x),
                y: self.y.spec_min(rhs.y),
                z: self.z.spec_min(rhs.z),
            }),
    {
        Vec3 {
            x: self.x.min(rhs.x),
            y: self.y.min(rhs.y),
            z: self.z.min(rhs.z),
        }
    }

    /// The vector with the larger entry of each component pair.
    pub fn max(self, rhs: Self) -> (r: Self)
        ensures
            r == (Vec3 {
                x: self.x.spec_max(rhs.x),
                y: self.y.spec_max(rhs.y),
                z: self.z.spec_max(rhs.z),
            }),
    {
        Vec3 {
            x: self.x.max(rhs.x),
            y: self.y.max(rhs.y),
            z: self.z.max(rhs.z),
        }
    }

    /// Clamps each component between the matching components of `min` and
    /// `max`, computed as `self.min(max).max(min)`.
    pub fn clamp(self, min: Self, max: Self) -> (r: Self)
        ensures
            r == (Vec3 {
                x: self.x.spec_min(max.x).spec_max(min.x),
                y: self.y.spec_min(max.y).spec_max(min.y),
                z: self.z.spec_min(max.z).spec_max(min.z),
            }),
    {
        self.min(max).max(min)
    }

    /// Clamps the x component.
    pub fn clamp_x(self, min: T, max: T) -> (r: Self)
        requires
            min.spec_is_le(max),
        ensures
            r == (Vec3 { x: self.x.spec_clamp(min, max), y: self.y, z: self.z }),
    {
        Vec3 { x: self.x.clamp(min, max), y: self.y, z: self.z }
    }

    /// Clamps the y component.
    pub fn clamp_y(self, min: T, max: T) -> (r: Self)
        requires
            min.spec_is_le(max),
        ensures
            r == (Vec3 { x: self.x, y: self.y.spec_clamp(min, max), z: self.z }),
    {
        Vec3 { x: self.x, y: self.y.clamp(min, max), z: self.z }
    }

    /// Clamps the z component.
    pub fn clamp_z(self, min: T, max: T) -> (r: Self)
        requires
            min.spec_is_le(max),
        ensures
            r == (Vec3 { x: self.x, y: self.y, z: self.z.spec_clamp(min, max) }),
    {
        Vec3 { x: self.x, y: self.y, z: self.z.clamp(min, max) }
    }

    /// Absolute value of each component.
    pub fn abs(self) -> (r: Self)
        ensures
            r == (Vec3 { x: self.x.spec_abs(), y: self.y.spec_abs(), z: self.z.spec_abs() }),
    {
        Vec3 { x: self.x.abs(), y: self.y.abs(), z: self.z.abs() }
    }

    /// Magnitude: distance from the all-zero vector.
    pub fn length(self) -> (r: T)
        ensures
            r == self.spec_length(),
    {
        self.dot(self).sqrt()
    }

    /// Reciprocal of the magnitude; meaningful only away from magnitude zero.
    pub fn length_recip(self) -> (r: T)
        ensures
            r == self.spec_length_recip(),
    {
        self.dot(self).rsqrt()
    }

    /// Squared magnitude.
    pub fn length_2(self) -> (r: T)
        ensures
            r == self.spec_len2(),
    {
        self.dot(self)
    }

    /// Distance between two points.
    pub fn distance(self, rhs: Self) -> (r: T)
        ensures
            r == self.spec_sub_vec(rhs).spec_length(),
    {
        self.sub_vec(rhs).length()
    }

    /// Reciprocal of the distance between two points; meaningful only when
    /// the points differ.
    pub fn distance_recip(self, rhs: Self) -> (r: T)
        ensures
            r == self.spec_sub_vec(rhs).spec_length_recip(),
    {
        self.sub_vec(rhs).length_recip()
    }

    /// Squared distance between two points.
    pub fn distance_2(self, rhs: Self) -> (r: T)
        ensures
            r == self.spec_sub_vec(rhs).spec_len2(),
    {
        self.sub_vec(rhs).length_2()
    }

    /// Unclamped linear interpolation: `self * (1 - t) + rhs * t`.
    pub fn lerp(self, rhs: Self, t: T) -> (r: Self)
        ensures
            r == (Vec3 {
                x: self.x.spec_times(T::spec_one().spec_minus(t)).spec_plus(
                    rhs.x.spec_times(t),
                ),
                y: self.y.spec_times(T::spec_one().spec_minus(t)).spec_plus(
                    rhs.y.spec_times(t),
                ),
                z: self.z.spec_times(T::spec_one().spec_minus(t)).spec_plus(
                    rhs.z.spec_times(t),
                ),
            }),
    {
        let s = T::one().minus(t);
        Vec3 {
            x: self.x.times(s).plus(rhs.x.times(t)),
            y: self.y.times(s).plus(rhs.y.times(t)),
            z: self.z.times(s).plus(rhs.z.times(t)),
        }
    }

    /// Midpoint of two points: `(self + rhs) * half`.
    pub fn midpoint(self, rhs: Self) -> (r: Self)
        ensures
            r == (Vec3 {
                x: self.x.spec_plus(rhs.x).spec_times(T::spec_half()),
                y: self.y.spec_plus(rhs.y).spec_times(T::spec_half()),
                z: self.z.spec_plus(rhs.z).spec_times(T::spec_half()),
            }),
    {
        let h = T::half();
        Vec3 {
            x: self.x.plus(rhs.x).times(h),
            y: self.y.plus(rhs.y).times(h),
            z: self.z.plus(rhs.z).times(h),
        }
    }

    /// Moves along a unit axis by a distance `d`: `self + axis * d`.
    pub fn move_along(self, axis: Self, d: T) -> (r: Self)
        ensures
            r == (Vec3 {
                x: self.x.spec_plus(axis.x.spec_times(d)),
                y: self.y.spec_plus(axis.y.spec_times(d)),
                z: self.z.spec_plus(axis.z.spec_times(d)),
            }),
    {
        Vec3 {
            x: self.x.plus(axis.x.times(d)),
            y: self.y.plus(axis.y.times(d)),
            z: self.z.plus(axis.z.times(d)),
        }
    }

    /// Moves towards another point by a distance `d`, overshooting allowed;
    /// meaningful only when the points differ.
    pub fn move_towards(self, point: Self, d: T) -> (r: Self)
        ensures
            r == (Vec3 {
                x: self.x.spec_plus(
                    point.spec_sub_vec(self).x.spec_times(
                        point.spec_sub_vec(self).spec_length_recip(),
                    ).spec_times(d),
                ),
                y: self.y.spec_plus(
                    point.spec_sub_vec(self).y.spec_times(
                        point.spec_sub_vec(self).spec_length_recip(),
                    ).spec_times(d),
                ),
                z: self.z.spec_plus(
                    point.spec_sub_vec(self).z.spec_times(
                        point.spec_sub_vec(self).spec_length_recip(),
                    ).spec_times(d),
                ),
            }),
    {
        let dir = point.sub_vec(self).normalize();
        Vec3 {
            x: self.x.plus(dir.x.times(d)),
            y: self.y.plus(dir.y.times(d)),
            z: self.z.plus(dir.z.times(d)),
        }
    }

    /// Direction of a ray reflected off a surface with unit normal `normal`.
    pub fn reflect(self, normal: Self) -> (r: Self)
        ensures
            r == self.spec_reflect(normal),
    {
        let d = self.dot(normal);
        let t = two::<T>();
        Vec3 {
            x: self.x.minus(t.times(normal.x).times(d)),
            y: self.y.minus(t.times(normal.y).times(d)),
            z: self.z.minus(t.times(normal.z).times(d)),
        }
    }

    /// Direction of a ray refracted at a surface, by Snell's law; both `self`
    /// and `normal` are expected to be unit vectors, and the zero vector
    /// comes back under total internal reflection.
    pub fn refract(self, normal: Self, r: T) -> (out: Self)
        ensures
            out == self.spec_refract(normal, r),
    {
        let cos_a1 = normal.dot(self).negate();
        let cos_a2_2 = T::one().minus(
            r.times(r).times(T::one().minus(cos_a1.times(cos_a1))),
        );
        if T::zero().le(cos_a2_2) {
            let w = r.times(cos_a1).minus(cos_a2_2.sqrt());
            Vec3 {
                x: r.times(self.x).plus(w.times(normal.x)),
                y: r.times(self.y).plus(w.times(normal.y)),
                z: r.times(self.z).plus(w.times(normal.z)),
            }
        } else {
            Self::zero()
        }
    }

    /// Cosine of the acute angle between two vectors; meaningful only when
    /// neither has magnitude zero.
    pub fn cos_angle_between(self, rhs: Self) -> (r: T)
        ensures
            r == self.spec_cos_angle_between(rhs),
    {
        let numerator = self.dot(rhs);
        let denominator = self.length_2().times(rhs.length_2()).sqrt();
        numerator.div_by(denominator)
    }

    /// Sine of the acute angle between two vectors, from its cosine.
    pub fn sin_angle_between(self, rhs: Self) -> (r: T)
        ensures
            r == ({
                let c = self.spec_cos_angle_between(rhs);
                T::spec_one().spec_minus(c.spec_times(c)).spec_sqrt()
            }),
    {
        let cos_a = self.cos_angle_between(rhs);
        T::one().minus(cos_a.times(cos_a)).sqrt()
    }

    /// Sine and cosine of the acute angle between two vectors.
    pub fn sin_cos_angle_between(self, rhs: Self) -> (r: (T, T))
        ensures
            r.1 == self.spec_cos_angle_between(rhs),
            r.0 == ({
                let c = self.spec_cos_angle_between(rhs);
                T::spec_one().spec_minus(c.spec_times(c)).spec_sqrt()
            }),
    {
        let cos_a = self.cos_angle_between(rhs);
        let sin_a = T::one().minus(cos_a.times(cos_a)).sqrt();
        (sin_a, cos_a)
    }

    /// The acute angle between two vectors; meaningful only when neither has
    /// magnitude zero.
    pub fn angle_between(self, rhs: Self) -> (r: T)
        ensures
            r == self.spec_cos_angle_between(rhs).spec_acos(),
    {
        self.cos_angle_between(rhs).acos()
    }

    /// Negation: the vector scaled by negative one.
    pub fn neg_vec(self) -> (r: Self)
        ensures
            r == self.spec_neg_vec(),
    {
        let m = T::one().negate();
        Vec3 { x: self.x.times(m), y: self.y.times(m), z: self.z.times(m) }
    }

    /// Component-wise difference, the value-form subtraction.
    pub fn sub_vec(self, rhs: Self) -> (r: Self)
        ensures
            r == self.spec_sub_vec(rhs),
    {
        Vec3 {
            x: self.x.minus(rhs.x),
            y: self.y.minus(rhs.y),
            z: self.z.minus(rhs.z),
        }
    }

    /// The component at a position; positions 0, 1 and 2 are the only valid
    /// ones.
    pub fn index(&self, i: usize) -> (r: T)
        requires
            i < 3,
        ensures
            r == self@[i as int],
    {
        if i == 0 {
            self.x
        } else if i == 1 {
            self.y
        } else {
            self.z
        }
    }

    /// Replaces the component at a position, the mutable counterpart of
    /// `index`.
    pub fn set_index(&mut self, i: usize, v: T)
        requires
            i < 3,
        ensures
            final(self)@ == old(self)@.update(i as int, v),
    {
        if i == 0 {
            self.x = v;
        } else if i == 1 {
            self.y = v;
        } else {
            self.z = v;
        }
        proof {
            assert(self@ =~= old(self)@.update(i as int, v));
        }
    }

    /// The components as an ordered triple.
    pub fn to_tuple(self) -> (r: (T, T, T))
        ensures
            r.0 == self.x,
            r.1 == self.y,
            r.2 == self.z,
    {
        (self.x, self.y, self.z)
    }

    /// Builds a vector from an ordered triple.
    pub fn from_tuple(vals: (T, T, T)) -> (r: Self)
        ensures
            r == (Vec3 { x: vals.0, y: vals.1, z: vals.2 }),
    {
        Vec3 { x: vals.0, y: vals.1, z: vals.2 }
    }
}

} // verus!
