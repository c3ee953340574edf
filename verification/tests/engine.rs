// The generic engine exercised on the verified model scalar (i64).

use gdmx::equiv::{
    vec3_abs_manual, vec3_abs_trait, vec3_clamp_manual, vec3_clamp_trait,
    vec3_clamp_vec_manual, vec3_clamp_vec_trait, vec3_div_euclid_manual,
    vec3_div_euclid_trait, vec3_div_euclid_vec_manual, vec3_div_euclid_vec_trait,
    vec3_max_manual, vec3_max_trait, vec3_max_vec_manual, vec3_max_vec_trait,
    vec3_min_manual, vec3_min_trait, vec3_min_vec_manual, vec3_min_vec_trait,
    vec3_recip_manual, vec3_recip_trait, vec3_rem_euclid_manual, vec3_rem_euclid_trait,
    vec3_rem_euclid_vec_manual, vec3_rem_euclid_vec_trait, vec3_sum_manual, vec3_sum_trait,
};
use gdmx::laws::{array_round_trip, vec2_array_round_trip, vec3_tuple_round_trip,
    vec4_tuple_round_trip};
use gdmx::vec::VecExt;
use gdmx::vec2::Vec2;
use gdmx::vec3::Vec3;
use gdmx::vec4::Vec4;

fn v3(x: i64, y: i64, z: i64) -> Vec3<i64> {
    Vec3 { x, y, z }
}

#[test]
fn sum_generic_matches_manual_seed() {
    let v = v3(1, 2, 3);
    assert_eq!(vec3_sum_trait(v), 6);
    assert_eq!(vec3_sum_manual(v), 6);
    assert_eq!(vec3_sum_trait(v), vec3_sum_manual(v));
}

#[test]
fn min_generic_matches_manual_seed() {
    let v = v3(1, 5, -2);
    assert_eq!(vec3_min_trait(v, 0), v3(0, 0, -2));
    assert_eq!(vec3_min_trait(v, 0), vec3_min_manual(v, 0));
}

#[test]
fn clamp_generic_matches_manual_seed() {
    let v = v3(-1, 5, 2);
    assert_eq!(vec3_clamp_trait(v, 0, 3), v3(0, 3, 2));
    assert_eq!(vec3_clamp_trait(v, 0, 3), vec3_clamp_manual(v, 0, 3));
}

#[test]
fn paired_operations_agree_on_representative_inputs() {
    let samples = [
        v3(0, 0, 0),
        v3(1, 2, 3),
        v3(-7, 4, -9),
        v3(i64::MAX, i64::MIN, 13),
        v3(100, -100, 55),
    ];
    let divisors = [v3(3, 5, 7), v3(-4, 9, -2), v3(11, 1, 6)];
    for &a in samples.iter() {
        for &b in samples.iter() {
            assert_eq!(vec3_min_vec_trait(a, b), vec3_min_vec_manual(a, b));
            assert_eq!(vec3_max_vec_trait(a, b), vec3_max_vec_manual(a, b));
        }
        assert_eq!(vec3_sum_trait(a), vec3_sum_manual(a));
        assert_eq!(vec3_abs_trait(a), vec3_abs_manual(a));
        assert_eq!(vec3_recip_trait(a), vec3_recip_manual(a));
        assert_eq!(vec3_min_trait(a, 2), vec3_min_manual(a, 2));
        assert_eq!(vec3_max_trait(a, -3), vec3_max_manual(a, -3));
        assert_eq!(vec3_clamp_trait(a, -10, 10), vec3_clamp_manual(a, -10, 10));
        assert_eq!(
            vec3_clamp_vec_trait(a, v3(-5, 0, -50), v3(5, 40, 0)),
            vec3_clamp_vec_manual(a, v3(-5, 0, -50), v3(5, 40, 0))
        );
        assert_eq!(vec3_rem_euclid_trait(a, 7), vec3_rem_euclid_manual(a, 7));
        assert_eq!(vec3_div_euclid_trait(a, 7), vec3_div_euclid_manual(a, 7));
        for &d in divisors.iter() {
            assert_eq!(vec3_rem_euclid_vec_trait(a, d), vec3_rem_euclid_vec_manual(a, d));
            assert_eq!(vec3_div_euclid_vec_trait(a, d), vec3_div_euclid_vec_manual(a, d));
        }
    }
}

#[test]
fn array_round_trips_hold() {
    let a = v3(4, -5, 6);
    assert_eq!(array_round_trip(a), a);
    assert_eq!(Vec3::from_array(a.to_array()), a);
    let b = Vec4 { x: 1i64, y: -2, z: 3, w: -4 };
    assert_eq!(array_round_trip(b), b);
    assert_eq!(Vec4::from_array(b.to_array()), b);
    let c = Vec2 { x: 9i64, y: -8 };
    assert_eq!(vec2_array_round_trip(c), c);
    assert_eq!(Vec2::from_array(c.to_array()), c);
}

#[test]
fn tuple_round_trips_hold() {
    let a = v3(4, -5, 6);
    assert_eq!(vec3_tuple_round_trip(a), a);
    assert_eq!(Vec3::from_tuple(a.to_tuple()), a);
    let b = Vec4 { x: 1i64, y: -2, z: 3, w: -4 };
    assert_eq!(vec4_tuple_round_trip(b), b);
    assert_eq!(Vec4::from_tuple(b.to_tuple()), b);
}

#[test]
fn rem_euclid_is_nonnegative_for_positive_divisors() {
    let samples = [
        v3(0, 0, 0),
        v3(1, 2, 3),
        v3(-7, 4, -9),
        v3(i64::MAX, i64::MIN, -1),
        v3(100, -100, 55),
    ];
    for &a in samples.iter() {
        for b in [1i64, 2, 3, 7, 1000] {
            let r = VecExt::rem_euclid(a, b);
            for i in 0..3usize {
                let c = r.index(i);
                assert!(0 <= c && c < b);
            }
        }
    }
}

#[test]
fn cross_product_laws_hold_on_samples() {
    let samples = [v3(1, 2, 3), v3(-4, 5, -6), v3(0, 0, 0), v3(7, -8, 9)];
    for &a in samples.iter() {
        assert_eq!(a.cross(a), Vec3::zero());
        for &b in samples.iter() {
            assert_eq!(a.cross(b), b.cross(a).neg_vec());
            assert_eq!(a.cross(b), -b.cross(a));
        }
    }
    let x: Vec3<i64> = Vec3::unit_x();
    let y = Vec3::unit_y();
    let z = Vec3::unit_z();
    assert_eq!(x.cross(y), z);
}

#[test]
fn lerp_boundaries_hold_exactly_on_the_model_scalar() {
    let a = v3(3, -4, 5);
    let b = v3(-6, 7, -8);
    assert_eq!(a.lerp(b, 0), a);
    assert_eq!(a.lerp(b, 1), b);
    assert_eq!(VecExt::lerp(a, b, 0), a);
    assert_eq!(VecExt::lerp(a, b, 1), b);
}

#[test]
fn dot_and_cross_compute_the_classic_values() {
    let a = v3(1, 2, 3);
    let b = v3(4, 5, 6);
    assert_eq!(a.dot(b), 32);
    assert_eq!(a.cross(b), v3(-3, 6, -3));
    assert_eq!(a.sum(), 6);
}

#[test]
fn dot_matches_length_squared_on_the_model_scalar() {
    let samples = [v3(1, 2, 3), v3(-4, 5, -6), v3(0, 0, 0)];
    for &a in samples.iter() {
        assert_eq!(a.dot(a), a.length_2());
        assert_eq!(VecExt::dot(a, a), VecExt::length_2(a));
        assert_eq!(a.dot(a), VecExt::dot(a, a));
    }
}

#[test]
fn operators_are_element_wise() {
    let a = v3(10, 20, 30);
    let b = v3(3, 4, 5);
    assert_eq!(a + b, v3(13, 24, 35));
    assert_eq!(a - b, v3(7, 16, 25));
    assert_eq!(a * b, v3(30, 80, 150));
    assert_eq!(a / b, v3(3, 5, 6));
    assert_eq!(a % b, v3(1, 0, 0));
    assert_eq!(a + 1, v3(11, 21, 31));
    assert_eq!(a - 1, v3(9, 19, 29));
    assert_eq!(a * 2, v3(20, 40, 60));
    assert_eq!(a / 10, v3(1, 2, 3));
    assert_eq!(a % 7, v3(3, 6, 2));
    assert_eq!(-a, v3(-10, -20, -30));
}

#[test]
fn compound_assignment_matches_the_plain_operator() {
    let a = v3(10, 20, 30);
    let b = v3(3, 4, 5);
    let mut c = a;
    c += b;
    assert_eq!(c, a + b);
    c = a;
    c -= b;
    assert_eq!(c, a - b);
    c = a;
    c *= b;
    assert_eq!(c, a * b);
    c = a;
    c /= b;
    assert_eq!(c, a / b);
    c = a;
    c %= b;
    assert_eq!(c, a % b);
    c = a;
    c += 5;
    assert_eq!(c, a + 5);
    c = a;
    c *= 2;
    assert_eq!(c, a * 2);
}

#[test]
fn indexing_reads_the_components_in_order() {
    let a = v3(10, 20, 30);
    assert_eq!(a.index(0), 10);
    assert_eq!(a.index(1), 20);
    assert_eq!(a.index(2), 30);
    let mut b = a;
    b.set_index(1, 99);
    assert_eq!(b, v3(10, 99, 30));
    let q = Vec4 { x: 1i64, y: 2, z: 3, w: 4 };
    assert_eq!(q.index(3), 4);
    assert_eq!(a[0], 10);
    assert_eq!(a[2], 30);
    assert_eq!(q[3], 4);
}

#[test]
fn vec4_trait_operations_preserve_arity() {
    let a = Vec4 { x: 1i64, y: -2, z: 3, w: -4 };
    let s = VecExt::abs(a);
    assert_eq!(s, Vec4 { x: 1, y: 2, z: 3, w: 4 });
    assert_eq!(VecExt::sum(a), -2);
    assert_eq!(VecExt::dot(a, a), 1 + 4 + 9 + 16);
    let v = VecExt::to_vec(a);
    assert_eq!(v, vec![1, -2, 3, -4]);
}

#[test]
fn conversions_and_defaults_build_the_expected_vectors() {
    let a = v3(4, -5, 6);
    assert_eq!(Vec3::from(a.to_array()), a);
    assert_eq!(Vec3::from((4i64, -5i64, 6i64)), a);
    assert_eq!(Vec2::from([7i64, 8]), Vec2 { x: 7, y: 8 });
    assert_eq!(Vec2::from((7i64, 8i64)), Vec2 { x: 7, y: 8 });
    let b = Vec4 { x: 1i64, y: 2, z: 3, w: 4 };
    assert_eq!(Vec4::from([1i64, 2, 3, 4]), b);
    assert_eq!(Vec4::from((1i64, 2i64, 3i64, 4i64)), b);
    assert_eq!(Vec3::<i64>::default(), Vec3::zero());
    assert_eq!(Vec4::<i64>::default(), Vec4::zero());
    assert_eq!(Vec2::<i64>::default(), Vec2::zero());
}

#[test]
fn euclidean_remainder_and_quotient_reconstruct_the_dividend() {
    for a in [-100i64, -13, -1, 0, 1, 13, 100] {
        for b in [-7i64, -3, 3, 7] {
            let v = v3(a, a, a);
            let r = VecExt::rem_euclid(v, b);
            let q = VecExt::div_euclid(v, b);
            assert_eq!(q.x * b + r.x, a);
            assert!(0 <= r.x && r.x < b.abs());
        }
    }
}
