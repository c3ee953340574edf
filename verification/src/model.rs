//! The crate's verified model scalar: `i64` with wrapping arithmetic.
//!
//! This implementation anchors the `Scalar` trait inside the verified core:
//! every law the vector lemmas rely on is proved here, for every value.
//! Division-like operations are made total by returning zero on a zero
//! divisor and wrapping on the one overflowing quotient.

use vstd::prelude::*;
use vstd::arithmetic::div_mod::{
    lemma_fundamental_div_mod,
    lemma_fundamental_div_mod_converse_div,
    lemma_fundamental_div_mod_converse_mod,
    lemma_mod_bound,
};
use vstd::wrapping::i64_specs;
use crate::scalar::Scalar;

verus! {

/// Absolute value of an `i64`, widened to `int`.
pub open spec fn wide_abs(a: i64) -> int {
    if a >= 0 {
        a as int
    } else {
        -(a as int)
    }
}

/// Rust's truncating quotient (rounded toward zero), as a mathematical value.
pub open spec fn trunc_quot(a: i64, b: i64) -> int {
    if (a < 0) == (b < 0) {
        wide_abs(a) / wide_abs(b)
    } else {
        -(wide_abs(a) / wide_abs(b))
    }
}

/// Rust's truncating remainder (sign of the dividend), as a mathematical value.
pub open spec fn trunc_rem(a: i64, b: i64) -> int {
    if a >= 0 {
        wide_abs(a) % wide_abs(b)
    } else {
        -(wide_abs(a) % wide_abs(b))
    }
}

/// `r` is the integer square root of `a`.
pub open spec fn is_isqrt(a: i64, r: i64) -> bool {
    0 <= r && (r as int) * (r as int) <= a as int && (a as int) < (r as int + 1) * (r as int + 1)
}

/// The integer square root; zero for non-positive arguments.
pub open spec fn isqrt_of(a: i64) -> i64 {
    if a <= 0 {
        0
    } else {
        choose|r: i64| is_isqrt(a, r)
    }
}

/// The integer square root is unique.
proof fn lemma_isqrt_unique(a: i64, r1: i64, r2: i64)
    requires
        is_isqrt(a, r1),
        is_isqrt(a, r2),
    ensures
        r1 == r2,
{
    assert(r1 == r2) by (nonlinear_arith)
        requires
            0 <= r1,
            0 <= r2,
            (r1 as int) * (r1 as int) <= a as int,
            (a as int) < (r1 as int + 1) * (r1 as int + 1),
            (r2 as int) * (r2 as int) <= a as int,
            (a as int) < (r2 as int + 1) * (r2 as int + 1),
    ;
}

/// Cropping an in-range value changes nothing.
proof fn lemma_crop_id(x: int)
    requires
        i64::MIN <= x <= i64::MAX,
    ensures
        i64_specs::signed_crop(x) == x,
{
    let range = 0x1_0000_0000_0000_0000int;
    if x >= 0 {
        lemma_fundamental_div_mod_converse_mod(x, range, 0, x);
    } else {
        lemma_fundamental_div_mod_converse_mod(x, range, -1, x + range);
    }
}

/// Absolute value of an `i64` as a `u64`, exact even at `i64::MIN`.
fn abs_u64(a: i64) -> (r: u64)
    ensures
        r == wide_abs(a),
{
    if a >= 0 {
        a as u64
    } else if a == i64::MIN {
        9223372036854775808u64
    } else {
        (-a) as u64
    }
}

impl Scalar for i64 {
    open spec fn spec_plus(self, rhs: Self) -> Self {
        i64_specs::wrapping_add(self, rhs)
    }

    open spec fn spec_minus(self, rhs: Self) -> Self {
        i64_specs::wrapping_sub(self, rhs)
    }

    open spec fn spec_times(self, rhs: Self) -> Self {
        i64_specs::wrapping_mul(self, rhs)
    }

    open spec fn spec_div(self, rhs: Self) -> Self {
        if rhs == 0 {
            0
        } else if self == i64::MIN && rhs == -1 {
            i64::MIN
        } else {
            trunc_quot(self, rhs) as i64
        }
    }

    open spec fn spec_rem(self, rhs: Self) -> Self {
        if rhs == 0 {
            0
        } else {
            trunc_rem(self, rhs) as i64
        }
    }

    open spec fn spec_negate(self) -> Self {
        i64_specs::wrapping_sub(0, self)
    }

    open spec fn spec_min(self, rhs: Self) -> Self {
        if self <= rhs {
            self
        } else {
            rhs
        }
    }

    open spec fn spec_max(self, rhs: Self) -> Self {
        if self >= rhs {
            self
        } else {
            rhs
        }
    }

    open spec fn spec_clamp(self, lo: Self, hi: Self) -> Self {
        if self < lo {
            lo
        } else if self > hi {
            hi
        } else {
            self
        }
    }

    open spec fn spec_abs(self) -> Self {
        if self == i64::MIN {
            i64::MIN
        } else if self < 0 {
            (-self) as i64
        } else {
            self
        }
    }

    open spec fn spec_recip(self) -> Self {
        if self == 1 {
            1
        } else if self == -1 {
            -1i64
        } else {
            0
        }
    }

    open spec fn spec_rem_euclid(self, rhs: Self) -> Self {
        if rhs == 0 {
            0
        } else {
            ((self as int) % wide_abs(rhs)) as i64
        }
    }

    open spec fn spec_div_euclid(self, rhs: Self) -> Self {
        if rhs == 0 {
            0
        } else if self == i64::MIN && rhs == -1 {
            i64::MIN
        } else {
            let k = (self as int - (self as int) % wide_abs(rhs)) / wide_abs(rhs);
            if rhs > 0 {
                k as i64
            } else {
                (-k) as i64
            }
        }
    }

    open spec fn spec_sqrt(self) -> Self {
        isqrt_of(self)
    }

    open spec fn spec_acos(self) -> Self {
        0
    }

    open spec fn spec_sin(self) -> Self {
        0
    }

    open spec fn spec_cos(self) -> Self {
        1
    }

    open spec fn spec_zero() -> Self {
        0
    }

    open spec fn spec_one() -> Self {
        1
    }

    open spec fn spec_half() -> Self {
        0
    }

    open spec fn spec_is_le(self, rhs: Self) -> bool {
        self <= rhs
    }

    open spec fn spec_is_lt(self, rhs: Self) -> bool {
        self < rhs
    }

    fn plus(self, rhs: Self) -> (r: Self) {
        self.wrapping_add(rhs)
    }

    fn minus(self, rhs: Self) -> (r: Self) {
        self.wrapping_sub(rhs)
    }

    fn times(self, rhs: Self) -> (r: Self) {
        self.wrapping_mul(rhs)
    }

    fn div_by(self, rhs: Self) -> (r: Self) {
        if rhs == 0 {
            0
        } else if self == i64::MIN && rhs == -1 {
            i64::MIN
        } else {
            let ua = abs_u64(self);
            let ub = abs_u64(rhs);
            let q = ua / ub;
            proof {
                lemma_fundamental_div_mod(ua as int, ub as int);
                lemma_mod_bound(ua as int, ub as int);
                assert(q <= ua) by (nonlinear_arith)
                    requires
                        ua as int == (q as int) * (ub as int) + (ua as int) % (ub as int),
                        ub >= 1,
                        q >= 0,
                        (ua as int) % (ub as int) >= 0,
                ;
            }
            if (self < 0) != (rhs < 0) {
                if q == 9223372036854775808u64 {
                    i64::MIN
                } else {
                    -(q as i64)
                }
            } else {
                proof {
                    if ua == 9223372036854775808u64 {
                        assert(self == i64::MIN && rhs < 0);
                        assert(ub >= 2);
                        assert(q < ua) by (nonlinear_arith)
                            requires
                                ua as int == (q as int) * (ub as int) + (ua as int) % (
                                ub as int),
                                ub >= 2,
                                ua >= 2,
                                q >= 0,
                                (ua as int) % (ub as int) >= 0,
                        ;
                    }
                }
                q as i64
            }
        }
    }

    fn rem_by(self, rhs: Self) -> (r: Self) {
        if rhs == 0 {
            0
        } else {
            let ua = abs_u64(self);
            let ub = abs_u64(rhs);
            let m = ua % ub;
            proof {
                lemma_mod_bound(ua as int, ub as int);
            }
            if self < 0 {
                -(m as i64)
            } else {
                m as i64
            }
        }
    }

    fn negate(self) -> (r: Self) {
        0i64.wrapping_sub(self)
    }

    fn min(self, rhs: Self) -> (r: Self) {
        if self <= rhs {
            self
        } else {
            rhs
        }
    }

    fn max(self, rhs: Self) -> (r: Self) {
        if self >= rhs {
            self
        } else {
            rhs
        }
    }

    fn clamp(self, lo: Self, hi: Self) -> (r: Self) {
        if self < lo {
            lo
        } else if self > hi {
            hi
        } else {
            self
        }
    }

    fn abs(self) -> (r: Self) {
        if self == i64::MIN {
            i64::MIN
        } else if self < 0 {
            -self
        } else {
            self
        }
    }

    fn recip(self) -> (r: Self) {
        if self == 1 {
            1
        } else if self == -1 {
            -1
        } else {
            0
        }
    }

    fn rem_euclid(self, rhs: Self) -> (r: Self) {
        if rhs == 0 {
            0
        } else {
            let ua = abs_u64(self);
            let ub = abs_u64(rhs);
            let m = ua % ub;
            proof {
                lemma_fundamental_div_mod(ua as int, ub as int);
                lemma_mod_bound(ua as int, ub as int);
                let k = (ua as int) / (ub as int);
                let r0 = (ua as int) % (ub as int);
                if self < 0 {
                    if m == 0 {
                        assert(self as int == (-k) * (ub as int) + 0) by (nonlinear_arith)
                            requires
                                ua as int == k * (ub as int) + r0,
                                r0 == 0,
                                self as int == -(ua as int),
                        ;
                        lemma_fundamental_div_mod_converse_mod(self as int, ub as int, -k, 0);
                    } else {
                        assert(self as int == (-k - 1) * (ub as int) + (ub as int - r0))
                            by (nonlinear_arith)
                            requires
                                ua as int == k * (ub as int) + r0,
                                self as int == -(ua as int),
                        ;
                        lemma_fundamental_div_mod_converse_mod(
                            self as int,
                            ub as int,
                            -k - 1,
                            ub as int - m,
                        );
                    }
                }
            }
            if self < 0 && m != 0 {
                (ub - m) as i64
            } else {
                m as i64
            }
        }
    }

    fn div_euclid(self, rhs: Self) -> (r: Self) {
        if rhs == 0 {
            0
        } else if self == i64::MIN && rhs == -1 {
            i64::MIN
        } else {
            let ua = abs_u64(self);
            let ub = abs_u64(rhs);
            let q = ua / ub;
            let m = ua % ub;
            proof {
                lemma_fundamental_div_mod(ua as int, ub as int);
                lemma_mod_bound(ua as int, ub as int);
                assert(q <= ua) by (nonlinear_arith)
                    requires
                        ua as int == (q as int) * (ub as int) + (ua as int) % (ub as int),
                        ub >= 1,
                        q >= 0,
                        (ua as int) % (ub as int) >= 0,
                ;
            }
            if self >= 0 {
                proof {
                    let me = (self as int) % (ub as int);
                    lemma_fundamental_div_mod_converse_div(
                        self as int - me,
                        ub as int,
                        q as int,
                        0,
                    );
                }
                if rhs > 0 {
                    q as i64
                } else {
                    -(q as i64)
                }
            } else {
                let k = if m != 0 {
                    q + 1
                } else {
                    q
                };
                proof {
                    let kq = (ua as int) / (ub as int);
                    let r0 = (ua as int) % (ub as int);
                    if m == 0 {
                        assert(self as int == (-kq) * (ub as int) + 0) by (nonlinear_arith)
                            requires
                                ua as int == kq * (ub as int) + r0,
                                r0 == 0,
                                self as int == -(ua as int),
                        ;
                        lemma_fundamental_div_mod_converse_mod(self as int, ub as int, -kq, 0);
                        let me = (self as int) % (ub as int);
                        lemma_fundamental_div_mod_converse_div(
                            self as int - me,
                            ub as int,
                            -kq,
                            0,
                        );
                    } else {
                        assert(self as int == (-kq - 1) * (ub as int) + (ub as int - r0))
                            by (nonlinear_arith)
                            requires
                                ua as int == kq * (ub as int) + r0,
                                self as int == -(ua as int),
                        ;
                        lemma_fundamental_div_mod_converse_mod(
                            self as int,
                            ub as int,
                            -kq - 1,
                            ub as int - m,
                        );
                        let me = (self as int) % (ub as int);
                        lemma_fundamental_div_mod_converse_div(
                            self as int - me,
                            ub as int,
                            -kq - 1,
                            0,
                        );
                    }
                    if ua == 9223372036854775808u64 && ub >= 2 {
                        assert(q < ua) by (nonlinear_arith)
                            requires
                                ua as int == (q as int) * (ub as int) + (ua as int) % (
                                ub as int),
                                ub >= 2,
                                ua >= 2,
                                q >= 0,
                                (ua as int) % (ub as int) >= 0,
                        ;
                    }
                }
                if rhs > 0 {
                    if k == 9223372036854775808u64 {
                        i64::MIN
                    } else {
                        -(k as i64)
                    }
                } else {
                    k as i64
                }
            }
        }
    }

    fn sqrt(self) -> (r: Self) {
        if self <= 0 {
            0
        } else {
            let mut r: i64 = 0;
            loop
                invariant
                    0 < self,
                    0 <= r <= 3037000499,
                    (r as int) * (r as int) <= self as int,
                decreases self as int - (r as int) * (r as int),
            {
                let n = (r + 1) as u64;
                proof {
                    assert((n as int) * (n as int) <= 9223372037000250000) by (nonlinear_arith)
                        requires
                            n <= 3037000500u64,
                    ;
                }
                let sq = n * n;
                if sq <= self as u64 {
                    proof {
                        assert(r + 1 <= 3037000499) by (nonlinear_arith)
                            requires
                                0 <= r,
                                (r as int + 1) * (r as int + 1) <= self as int,
                                self <= i64::MAX,
                        ;
                        assert((r as int) * (r as int) < (r as int + 1) * (r as int + 1))
                            by (nonlinear_arith)
                            requires
                                0 <= r,
                        ;
                    }
                    r = r + 1;
                } else {
                    proof {
                        assert(is_isqrt(self, r));
                        assert(exists|w: i64| is_isqrt(self, w));
                        let w = choose|w: i64| is_isqrt(self, w);
                        lemma_isqrt_unique(self, r, w);
                    }
                    return r;
                }
            }
        }
    }

    fn rsqrt(self) -> (r: Self) {
        self.sqrt().recip()
    }

    fn acos(self) -> (r: Self) {
        0
    }

    fn sin_cos(self) -> (r: (Self, Self)) {
        (0, 1)
    }

    fn le(self, rhs: Self) -> (r: bool) {
        self <= rhs
    }

    fn zero() -> (r: Self) {
        0
    }

    fn one() -> (r: Self) {
        1
    }

    fn half() -> (r: Self) {
        0
    }

    proof fn lemma_add_zero(a: Self) {
    }

    proof fn lemma_mul_one(a: Self) {
        lemma_crop_id(a as int);
    }

    proof fn lemma_mul_zero(a: Self) {
        lemma_crop_id(0);
    }

    proof fn lemma_sub_antisym(a: Self, b: Self) {
    }

    proof fn lemma_sub_self(a: Self) {
    }

    proof fn lemma_mul_neg_one(a: Self) {
        let range = 0x1_0000_0000_0000_0000int;
        let m = 1i64.spec_negate();
        assert(m == -1i64);
        assert(a as int * (m as int) == -(a as int)) by (nonlinear_arith)
            requires
                m as int == -1,
        ;
        if a == i64::MIN {
            lemma_fundamental_div_mod_converse_mod(-(a as int), range, 0, -(a as int));
        } else {
            lemma_crop_id(-(a as int));
        }
    }

    proof fn lemma_unit_arith() {
        lemma_crop_id(1);
    }

    proof fn lemma_rem_euclid_range(a: Self, b: Self) {
        lemma_mod_bound(a as int, b as int);
    }
}

} // verus!
