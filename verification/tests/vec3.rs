// The vector algebra exercised on a single-precision float scalar, the
// scalar the library is typically instantiated with outside the verified
// core.

use gdmx::scalar::Scalar;
use gdmx::vec::VecExt;
use gdmx::vec3::Vec3;

const EPS: f32 = 1e-6;

/// A float scalar. The `Scalar` contracts and laws are verified only for the
/// in-crate model scalar; this implementation satisfies them up to the usual
/// floating-point caveats (`NaN`, infinities, the negative zero).
#[derive(Clone, Copy, PartialEq, Debug, Default)]
struct Fs(f32);

impl Scalar for Fs {
    fn plus(self, rhs: Self) -> Self {
        Fs(self.0 + rhs.0)
    }
    fn minus(self, rhs: Self) -> Self {
        Fs(self.0 - rhs.0)
    }
    fn times(self, rhs: Self) -> Self {
        Fs(self.0 * rhs.0)
    }
    fn div_by(self, rhs: Self) -> Self {
        Fs(self.0 / rhs.0)
    }
    fn rem_by(self, rhs: Self) -> Self {
        Fs(self.0 % rhs.0)
    }
    fn negate(self) -> Self {
        Fs(-self.0)
    }
    fn min(self, rhs: Self) -> Self {
        Fs(self.0.min(rhs.0))
    }
    fn max(self, rhs: Self) -> Self {
        Fs(self.0.max(rhs.0))
    }
    fn clamp(self, lo: Self, hi: Self) -> Self {
        Fs(self.0.clamp(lo.0, hi.0))
    }
    fn abs(self) -> Self {
        Fs(self.0.abs())
    }
    fn recip(self) -> Self {
        Fs(self.0.recip())
    }
    fn rem_euclid(self, rhs: Self) -> Self {
        Fs(self.0.rem_euclid(rhs.0))
    }
    fn div_euclid(self, rhs: Self) -> Self {
        Fs(self.0.div_euclid(rhs.0))
    }
    fn sqrt(self) -> Self {
        Fs(self.0.sqrt())
    }
    fn rsqrt(self) -> Self {
        Fs(1.0 / self.0.sqrt())
    }
    fn acos(self) -> Self {
        Fs(self.0.acos())
    }
    fn sin_cos(self) -> (Self, Self) {
        let (s, c) = self.0.sin_cos();
        (Fs(s), Fs(c))
    }
    fn le(self, rhs: Self) -> bool {
        self.0 <= rhs.0
    }
    fn zero() -> Self {
        Fs(0.0)
    }
    fn one() -> Self {
        Fs(1.0)
    }
    fn half() -> Self {
        Fs(0.5)
    }

    // The spec functions and law lemmas of the trait erase to ordinary
    // items, so an implementation outside the verified core still has to
    // provide them; the spec functions delegate to their executable
    // counterparts (which is exactly what the contracts demand), and the
    // lemmas have nothing to run.
    fn spec_plus(self, rhs: Self) -> Self {
        self.plus(rhs)
    }
    fn spec_minus(self, rhs: Self) -> Self {
        self.minus(rhs)
    }
    fn spec_times(self, rhs: Self) -> Self {
        self.times(rhs)
    }
    fn spec_div(self, rhs: Self) -> Self {
        self.div_by(rhs)
    }
    fn spec_rem(self, rhs: Self) -> Self {
        self.rem_by(rhs)
    }
    fn spec_negate(self) -> Self {
        self.negate()
    }
    fn spec_min(self, rhs: Self) -> Self {
        Scalar::min(self, rhs)
    }
    fn spec_max(self, rhs: Self) -> Self {
        Scalar::max(self, rhs)
    }
    fn spec_clamp(self, lo: Self, hi: Self) -> Self {
        Scalar::clamp(self, lo, hi)
    }
    fn spec_abs(self) -> Self {
        Scalar::abs(self)
    }
    fn spec_recip(self) -> Self {
        Scalar::recip(self)
    }
    fn spec_rem_euclid(self, rhs: Self) -> Self {
        Scalar::rem_euclid(self, rhs)
    }
    fn spec_div_euclid(self, rhs: Self) -> Self {
        Scalar::div_euclid(self, rhs)
    }
    fn spec_sqrt(self) -> Self {
        Scalar::sqrt(self)
    }
    fn spec_acos(self) -> Self {
        Scalar::acos(self)
    }
    fn spec_sin(self) -> Self {
        self.sin_cos().0
    }
    fn spec_cos(self) -> Self {
        self.sin_cos().1
    }
    fn spec_zero() -> Self {
        Self::zero()
    }
    fn spec_one() -> Self {
        Self::one()
    }
    fn spec_half() -> Self {
        Self::half()
    }
    fn spec_is_le(self, rhs: Self) -> bool {
        self.le(rhs)
    }
    fn spec_is_lt(self, rhs: Self) -> bool {
        !rhs.le(self)
    }
    fn lemma_add_zero(_: Self) {
    }
    fn lemma_mul_one(_: Self) {
    }
    fn lemma_mul_zero(_: Self) {
    }
    fn lemma_sub_antisym(_: Self, _: Self) {
    }
    fn lemma_sub_self(_: Self) {
    }
    fn lemma_mul_neg_one(_: Self) {
    }
    fn lemma_unit_arith() {
    }
    fn lemma_rem_euclid_range(_: Self, _: Self) {
    }
}

fn v3(x: f32, y: f32, z: f32) -> Vec3<Fs> {
    Vec3 { x: Fs(x), y: Fs(y), z: Fs(z) }
}

#[test]
fn unit_vectors_have_equal_length() {
    let x_len = Vec3::<Fs>::unit_x().length();
    let y_len = Vec3::<Fs>::neg_y().length();
    let len_diff = x_len.0 - y_len.0;
    assert!(len_diff.abs() < EPS);
}

#[test]
fn concrete_lengths_match_the_classic_values() {
    assert_eq!(Vec3::<Fs>::unit_x().length(), Fs(1.0));
    assert_eq!(v3(3.0, 4.0, 0.0).length(), Fs(5.0));
    assert_eq!(v3(0.0, 0.0, 0.0).distance(v3(3.0, 0.0, 4.0)), Fs(5.0));
}

#[test]
fn angle_between_axes_is_a_right_angle() {
    let a = v3(1.0, 0.0, 0.0);
    let b = v3(0.0, 1.0, 0.0);
    let angle = a.angle_between(b);
    assert!((angle.0 - std::f32::consts::FRAC_PI_2).abs() < EPS);
}

#[test]
fn sine_and_cosine_of_the_angle_are_consistent() {
    let a = v3(1.0, 2.0, 2.0);
    let b = v3(-2.0, 1.0, 0.5);
    let (s, c) = a.sin_cos_angle_between(b);
    assert!((s.0 * s.0 + c.0 * c.0 - 1.0).abs() < 1e-5);
    assert_eq!(c, a.cos_angle_between(b));
    assert_eq!(s, a.sin_angle_between(b));
}

#[test]
fn normalize_yields_a_unit_parallel_vector() {
    let v = v3(1.0, 2.0, 3.0);
    let n = v.normalize();
    assert!((n.length().0 - 1.0).abs() < EPS);
    let c = v.cross(n);
    assert!(c.x.0.abs() < EPS && c.y.0.abs() < EPS && c.z.0.abs() < EPS);
}

#[test]
fn normalize_and_length_returns_both_parts() {
    let v = v3(3.0, 4.0, 0.0);
    let (n, len) = v.normalize_and_length();
    assert_eq!(len, Fs(5.0));
    assert!((n.length().0 - 1.0).abs() < EPS);
    assert!((n.x.0 - 0.6).abs() < EPS && (n.y.0 - 0.8).abs() < EPS);
}

#[test]
fn reflection_inverts_the_normal_component() {
    let n = v3(0.0, 1.0, 0.0);
    let v = v3(1.0, -2.0, 3.0);
    let r = v.reflect(n);
    assert!((r.dot(n).0 + v.dot(n).0).abs() < EPS);
    assert_eq!(r, v3(1.0, 2.0, 3.0));
}

#[test]
fn refraction_bends_or_reflects_totally() {
    let inv_sqrt2 = 1.0 / 2.0f32.sqrt();
    let v = v3(inv_sqrt2, -inv_sqrt2, 0.0);
    let n = v3(0.0, 1.0, 0.0);
    // A ratio of one passes the ray straight through.
    let straight = v.refract(n, Fs(1.0));
    assert!((straight.x.0 - v.x.0).abs() < EPS);
    assert!((straight.y.0 - v.y.0).abs() < EPS);
    // A large enough ratio reflects totally: the zero vector comes back.
    let total = v.refract(n, Fs(2.0));
    assert_eq!(total, v3(0.0, 0.0, 0.0));
}

#[test]
fn midpoint_is_interpolation_at_one_half() {
    let a = v3(1.0, 2.0, 3.0);
    let b = v3(5.0, -7.0, 9.0);
    assert_eq!(a.midpoint(b), a.lerp(b, Fs(0.5)));
    assert_eq!(a.midpoint(b), v3(3.0, -2.5, 6.0));
}

#[test]
fn lerp_boundaries_return_the_endpoints() {
    let a = v3(1.0, 2.0, 3.0);
    let b = v3(5.0, -7.0, 9.0);
    assert_eq!(a.lerp(b, Fs(0.0)), a);
    assert_eq!(a.lerp(b, Fs(1.0)), b);
    // Weights outside the unit interval extrapolate.
    assert_eq!(a.lerp(b, Fs(2.0)), v3(9.0, -16.0, 15.0));
}

#[test]
fn dot_equals_length_squared() {
    let v = v3(1.5, -2.5, 4.0);
    assert_eq!(v.dot(v), v.length_2());
    assert!((v.length().0 - v.dot(v).0.sqrt()).abs() < EPS);
}

#[test]
fn float_rem_euclid_is_nonnegative_for_positive_divisors() {
    for a in [-7.5f32, -0.25, 0.0, 1.75, 9.5] {
        let v = v3(a, a * 2.0, a - 1.0);
        let r = VecExt::rem_euclid(v, Fs(3.0));
        for i in 0..3usize {
            let c = r.index(i).0;
            assert!(0.0 <= c && c < 3.0);
        }
    }
}

#[test]
fn yaw_zero_faces_forward() {
    let (forward, right) = Vec3::<Fs>::forward_and_right_from_yaw(Fs(0.0));
    assert_eq!(forward, v3(0.0, 0.0, 1.0));
    assert_eq!(right, v3(1.0, 0.0, 0.0));
    assert_eq!(Vec3::<Fs>::forward_from_yaw(Fs(0.0)), forward);
    assert_eq!(Vec3::<Fs>::right_from_yaw(Fs(0.0)), right);
}

#[test]
fn to_world_with_the_identity_basis_is_the_identity() {
    let v = v3(1.0, -2.0, 3.0);
    let r = v.to_world(
        Vec3::unit_x(),
        Vec3::unit_y(),
        Vec3::unit_z(),
    );
    assert_eq!(r, v);
}

#[test]
fn move_operations_translate_points() {
    let p = v3(1.0, 1.0, 1.0);
    assert_eq!(p.move_along(Vec3::unit_y(), Fs(2.0)), v3(1.0, 3.0, 1.0));
    let q = p.move_towards(v3(1.0, 1.0, 11.0), Fs(5.0));
    assert!((q.z.0 - 6.0).abs() < EPS && (q.x.0 - 1.0).abs() < EPS);
}

#[test]
fn float_operators_are_element_wise() {
    let a = v3(1.0, 2.0, 3.0);
    let b = v3(0.5, -1.0, 2.0);
    assert_eq!(a + b, v3(1.5, 1.0, 5.0));
    assert_eq!(a - b, v3(0.5, 3.0, 1.0));
    assert_eq!(a * b, v3(0.5, -2.0, 6.0));
    assert_eq!(a / b, v3(2.0, -2.0, 1.5));
    assert_eq!(a * Fs(2.0), v3(2.0, 4.0, 6.0));
    assert_eq!(-a, v3(-1.0, -2.0, -3.0));
}

#[test]
fn generic_trait_agrees_with_manual_methods_on_floats() {
    let a = v3(1.0, 5.0, -2.0);
    let b = v3(0.0, 3.0, 4.0);
    assert_eq!(gdmx::equiv::vec3_sum_trait(a), gdmx::equiv::vec3_sum_manual(a));
    assert_eq!(gdmx::equiv::vec3_sum_trait(a), Fs(4.0));
    assert_eq!(
        gdmx::equiv::vec3_min_vec_trait(a, b),
        gdmx::equiv::vec3_min_vec_manual(a, b)
    );
    assert_eq!(
        gdmx::equiv::vec3_abs_trait(v3(-1.0, 2.0, -3.0)),
        v3(1.0, 2.0, 3.0)
    );
    assert_eq!(VecExt::dot(a, b), a.dot(b));
    assert_eq!(VecExt::length(a), a.length());
    assert_eq!(VecExt::normalize(a), a.normalize());
}

#[test]
fn reciprocal_inverts_each_component() {
    let v = v3(2.0, 4.0, 0.5);
    assert_eq!(VecExt::recip(v), v3(0.5, 0.25, 2.0));
    assert_eq!(gdmx::equiv::vec3_recip_trait(v), gdmx::equiv::vec3_recip_manual(v));
    // The reciprocal of a zero component follows float semantics: infinity.
    let w = VecExt::recip(v3(0.0, 1.0, -1.0));
    assert!(w.x.0.is_infinite());
}

#[test]
fn splat_and_conversions_agree() {
    let s = Vec3::splat(Fs(2.5));
    assert_eq!(s, v3(2.5, 2.5, 2.5));
    assert_eq!(Vec3::from_tuple((Fs(1.0), Fs(2.0), Fs(3.0))), v3(1.0, 2.0, 3.0));
    let v = v3(1.0, 2.0, 3.0);
    assert_eq!(v.to_tuple(), (Fs(1.0), Fs(2.0), Fs(3.0)));
    assert_eq!(Vec3::from_array(v.to_array()), v);
}
