//! Integer element types and the exact arithmetic the vectors of this crate
//! use on them.
use vstd::prelude::*;
use vstd::arithmetic::div_mod::{
    lemma_add_mod_noop, lemma_mod_add_multiples_vanish, lemma_mod_bound,
    lemma_mod_sub_multiples_vanish, lemma_small_mod,
};

verus! {

/// `v` lies in the range of `T`.
pub open spec fn spec_in_range<T: Integer>(v: int) -> bool {
    T::spec_min() <= v <= T::spec_max()
}

/// The number of values of `T`.
pub open spec fn spec_modulus<T: Integer>() -> int {
    T::spec_max() - T::spec_min() + 1
}

/// `v` wrapped around into the range of `T` (two's complement wrapping).
pub open spec fn spec_wrap<T: Integer>(v: int) -> int {
    T::spec_min() + (v - T::spec_min()) % spec_modulus::<T>()
}

/// `v` clamped into the range of `T`.
pub open spec fn spec_saturate<T: Integer>(v: int) -> int {
    if v < T::spec_min() {
        T::spec_min()
    } else if v > T::spec_max() {
        T::spec_max()
    } else {
        v
    }
}

/// `Some` of the value `v` of `T` when it lies in range, `None` otherwise.
pub open spec fn spec_checked<T: Integer>(v: int) -> Option<T> {
    if spec_in_range::<T>(v) {
        Some(T::spec_from(v))
    } else {
        None
    }
}

/// Division of `x` by `d` rounding toward zero.
pub open spec fn spec_trunc_div(x: int, d: int) -> int {
    if x == 0 {
        0
    } else if x > 0 && d > 0 {
        x / d
    } else if x < 0 && d < 0 {
        ((x * -1) / (d * -1))
    } else if x < 0 {
        ((x * -1) / d) * -1
    } else {
        (x / (d * -1)) * -1
    }
}

/// The remainder of the division of `x` by `d` rounding toward zero: it has
/// the sign of `x` and the magnitude of `|x| mod |d|`.
pub open spec fn spec_trunc_rem(x: int, d: int) -> int {
    if x == 0 {
        0
    } else if x > 0 && d > 0 {
        x % d
    } else if x < 0 && d < 0 {
        ((x * -1) % (d * -1)) * -1
    } else if x < 0 {
        ((x * -1) % d) * -1
    } else {
        x % (d * -1)
    }
}

/// The remainder of `a` modulo `r` when `a` lies within one modulus of `[0, r)`.
pub proof fn lemma_mod_near(a: int, r: int)
    requires
        0 < r,
        -r <= a < 2 * r,
    ensures
        a % r == (if a < 0 {
            a + r
        } else if a < r {
            a
        } else {
            a - r
        }),
{
    if a < 0 {
        lemma_mod_add_multiples_vanish(a, r);
        lemma_small_mod((a + r) as nat, r as nat);
    } else if a < r {
        lemma_small_mod(a as nat, r as nat);
    } else {
        lemma_mod_sub_multiples_vanish(a, r);
        lemma_small_mod((a - r) as nat, r as nat);
    }
}

/// Wrapping into `[-h, h)` is reducing modulo `2h` and moving the upper half down.
pub proof fn lemma_signed_crop(v: int, h: int)
    requires
        0 < h,
    ensures
        -h + (v + h) % (2 * h) == (if v % (2 * h) > h - 1 {
            v % (2 * h) - 2 * h
        } else {
            v % (2 * h)
        }),
{
    let r = 2 * h;
    lemma_add_mod_noop(v, h, r);
    lemma_small_mod(h as nat, r as nat);
    lemma_mod_bound(v, r);
    lemma_mod_near(v % r + h, r);
}

/// Wrapping a value that is at most one modulus outside the range of `T`.
pub proof fn lemma_wrap_near<T: Integer>(v: int)
    requires
        spec_modulus::<T>() > 0,
        T::spec_min() - spec_modulus::<T>() <= v <= T::spec_max() + spec_modulus::<T>(),
    ensures
        spec_wrap::<T>(v) == (if v < T::spec_min() {
            v + spec_modulus::<T>()
        } else if v > T::spec_max() {
            v - spec_modulus::<T>()
        } else {
            v
        }),
{
    lemma_mod_near(v - T::spec_min(), spec_modulus::<T>());
}

/// An integer element type: a primitive integer, seen through its
/// mathematical value.
pub trait Integer: Copy + Sized {
    /// The mathematical value of `self`.
    spec fn spec_val(self) -> int;

    /// The least value of the type.
    spec fn spec_min() -> int;

    /// The greatest value of the type.
    spec fn spec_max() -> int;

    /// The element whose value is `v`, for `v` in range.
    spec fn spec_from(v: int) -> Self;

    /// Every element lies in range and is given back by its value.
    proof fn lemma_range(x: Self)
        ensures
            Self::spec_min() <= x.spec_val() <= Self::spec_max(),
            Self::spec_from(x.spec_val()) == x,
    ;

    /// The range holds zero and one, and is either unsigned or two's complement.
    proof fn lemma_bounds()
        ensures
            Self::spec_min() <= 0 < Self::spec_max(),
            Self::spec_min() == 0 || Self::spec_min() == -(Self::spec_max() + 1),
    ;

    /// Every value in range is the value of an element.
    proof fn lemma_from(v: int)
        requires
            Self::spec_min() <= v <= Self::spec_max(),
        ensures
            Self::spec_from(v).spec_val() == v,
    ;

    /// `self == rhs`.
    fn num_eq(self, rhs: Self) -> (r: bool)
        ensures
            r == (self.spec_val() == rhs.spec_val()),
    ;

    /// `self != rhs`.
    fn num_ne(self, rhs: Self) -> (r: bool)
        ensures
            r == (self.spec_val() != rhs.spec_val()),
    ;

    /// `self < rhs`.
    fn num_lt(self, rhs: Self) -> (r: bool)
        ensures
            r == (self.spec_val() < rhs.spec_val()),
    ;

    /// `self <= rhs`.
    fn num_le(self, rhs: Self) -> (r: bool)
        ensures
            r == (self.spec_val() <= rhs.spec_val()),
    ;

    /// `self > rhs`.
    fn num_gt(self, rhs: Self) -> (r: bool)
        ensures
            r == (self.spec_val() > rhs.spec_val()),
    ;

    /// `self >= rhs`.
    fn num_ge(self, rhs: Self) -> (r: bool)
        ensures
            r == (self.spec_val() >= rhs.spec_val()),
    ;

    /// The lesser of `self` and `rhs`.
    fn num_min(self, rhs: Self) -> (r: Self)
        ensures
            r == (if rhs.spec_val() < self.spec_val() {
                rhs
            } else {
                self
            }),
    ;

    /// The greater of `self` and `rhs`.
    fn num_max(self, rhs: Self) -> (r: Self)
        ensures
            r == (if rhs.spec_val() < self.spec_val() {
                self
            } else {
                rhs
            }),
    ;

    /// `self + rhs`, which must not overflow.
    fn num_add(self, rhs: Self) -> (r: Self)
        requires
            Self::spec_min() <= self.spec_val() + rhs.spec_val() <= Self::spec_max(),
        ensures
            r.spec_val() == self.spec_val() + rhs.spec_val(),
    ;

    /// `self - rhs`, which must not overflow.
    fn num_sub(self, rhs: Self) -> (r: Self)
        requires
            Self::spec_min() <= self.spec_val() - rhs.spec_val() <= Self::spec_max(),
        ensures
            r.spec_val() == self.spec_val() - rhs.spec_val(),
    ;

    /// `self * rhs`, which must not overflow.
    fn num_mul(self, rhs: Self) -> (r: Self)
        requires
            Self::spec_min() <= self.spec_val() * rhs.spec_val() <= Self::spec_max(),
        ensures
            r.spec_val() == self.spec_val() * rhs.spec_val(),
    ;

    /// `self / rhs`, rounding toward zero; `rhs` must not be zero and the
    /// quotient must not overflow.
    fn num_div(self, rhs: Self) -> (r: Self)
        requires
            rhs.spec_val() != 0,
            Self::spec_min() <= spec_trunc_div(self.spec_val(), rhs.spec_val()) <= Self::spec_max(),
        ensures
            r.spec_val() == spec_trunc_div(self.spec_val(), rhs.spec_val()),
    ;

    /// `self % rhs`, with the sign of `self`; `rhs` must not be zero and the
    /// quotient must not overflow.
    fn num_rem(self, rhs: Self) -> (r: Self)
        requires
            rhs.spec_val() != 0,
            Self::spec_min() <= spec_trunc_div(self.spec_val(), rhs.spec_val()) <= Self::spec_max(),
        ensures
            r.spec_val() == spec_trunc_rem(self.spec_val(), rhs.spec_val()),
    ;

    /// `self + rhs`, or `None` on overflow.
    fn checked_add(self, rhs: Self) -> (r: Option<Self>)
        ensures
            r == (if Self::spec_min() <= self.spec_val() + rhs.spec_val() <= Self::spec_max() { Some(Self::spec_from(self.spec_val() + rhs.spec_val())) } else { None }),
    ;

    /// `self - rhs`, or `None` on overflow.
    fn checked_sub(self, rhs: Self) -> (r: Option<Self>)
        ensures
            r == (if Self::spec_min() <= self.spec_val() - rhs.spec_val() <= Self::spec_max() { Some(Self::spec_from(self.spec_val() - rhs.spec_val())) } else { None }),
    ;

    /// `self * rhs`, or `None` on overflow.
    fn checked_mul(self, rhs: Self) -> (r: Option<Self>)
        ensures
            r == (if Self::spec_min() <= self.spec_val() * rhs.spec_val() <= Self::spec_max() { Some(Self::spec_from(self.spec_val() * rhs.spec_val())) } else { None }),
    ;

    /// `self / rhs` rounding toward zero, or `None` when `rhs` is zero or the
    /// quotient overflows.
    fn checked_div(self, rhs: Self) -> (r: Option<Self>)
        ensures
            r == (if rhs.spec_val() == 0 {
                None
            } else {
                (if Self::spec_min() <= spec_trunc_div(
                    self.spec_val(),
                    rhs.spec_val(),
                ) <= Self::spec_max() { Some(Self::spec_from(spec_trunc_div(
                    self.spec_val(),
                    rhs.spec_val(),
                ))) } else { None })
            }),
    ;

    /// `self + rhs`, wrapping around at the boundary of the type.
    fn wrapping_add(self, rhs: Self) -> (r: Self)
        ensures
            r.spec_val() == Self::spec_min() + (self.spec_val() + rhs.spec_val() - Self::spec_min()) % (Self::spec_max() - Self::spec_min() + 1),
    ;

    /// `self - rhs`, wrapping around at the boundary of the type.
    fn wrapping_sub(self, rhs: Self) -> (r: Self)
        ensures
            r.spec_val() == Self::spec_min() + (self.spec_val() - rhs.spec_val() - Self::spec_min()) % (Self::spec_max() - Self::spec_min() + 1),
    ;

    /// `self * rhs`, wrapping around at the boundary of the type.
    fn wrapping_mul(self, rhs: Self) -> (r: Self)
        ensures
            r.spec_val() == Self::spec_min() + (self.spec_val() * rhs.spec_val() - Self::spec_min()) % (Self::spec_max() - Self::spec_min() + 1),
    ;

    /// `self / rhs` rounding toward zero, wrapping around at the boundary of
    /// the type; `rhs` must not be zero.
    fn wrapping_div(self, rhs: Self) -> (r: Self)
        requires
            rhs.spec_val() != 0,
        ensures
            r.spec_val() == Self::spec_min() + (spec_trunc_div(
                self.spec_val(),
                rhs.spec_val(),
            ) - Self::spec_min()) % (Self::spec_max() - Self::spec_min() + 1),
    ;

    /// `self + rhs`, clamped to the range of the type.
    fn saturating_add(self, rhs: Self) -> (r: Self)
        ensures
            r.spec_val() == (if self.spec_val() + rhs.spec_val() < Self::spec_min() { Self::spec_min() } else if self.spec_val() + rhs.spec_val() > Self::spec_max() { Self::spec_max() } else { self.spec_val() + rhs.spec_val() }),
    ;

    /// `self - rhs`, clamped to the range of the type.
    fn saturating_sub(self, rhs: Self) -> (r: Self)
        ensures
            r.spec_val() == (if self.spec_val() - rhs.spec_val() < Self::spec_min() { Self::spec_min() } else if self.spec_val() - rhs.spec_val() > Self::spec_max() { Self::spec_max() } else { self.spec_val() - rhs.spec_val() }),
    ;

    /// `self * rhs`, clamped to the range of the type.
    fn saturating_mul(self, rhs: Self) -> (r: Self)
        ensures
            r.spec_val() == (if self.spec_val() * rhs.spec_val() < Self::spec_min() { Self::spec_min() } else if self.spec_val() * rhs.spec_val() > Self::spec_max() { Self::spec_max() } else { self.spec_val() * rhs.spec_val() }),
    ;

    /// `self / rhs` rounding toward zero, clamped to the range of the type;
    /// `rhs` must not be zero.
    fn saturating_div(self, rhs: Self) -> (r: Self)
        requires
            rhs.spec_val() != 0,
        ensures
            r.spec_val() == (if spec_trunc_div(
                self.spec_val(),
                rhs.spec_val(),
            ) < Self::spec_min() { Self::spec_min() } else if spec_trunc_div(
                self.spec_val(),
                rhs.spec_val(),
            ) > Self::spec_max() { Self::spec_max() } else { spec_trunc_div(
                self.spec_val(),
                rhs.spec_val(),
            ) }),
    ;

    /// The number of bits of the type.
    spec fn spec_bits() -> int;

    /// The bitwise AND of `self` and `rhs`.
    spec fn bits_and(self, rhs: Self) -> Self;

    /// The bitwise OR of `self` and `rhs`.
    spec fn bits_or(self, rhs: Self) -> Self;

    /// The bitwise exclusive OR of `self` and `rhs`.
    spec fn bits_xor(self, rhs: Self) -> Self;

    /// The bitwise complement of `self`.
    spec fn bits_not(self) -> Self;

    /// `self` shifted left by `n` bits; the bits shifted out are lost.
    spec fn bits_shl(self, n: Self) -> Self;

    /// `self` shifted right by `n` bits, filling with the sign bit for signed
    /// types and with zeros for unsigned ones.
    spec fn bits_shr(self, n: Self) -> Self;

    /// The Euclidean quotient of `self` by `rhs`, which rounds so that the
    /// remainder is never negative; `rhs` must not be zero and the quotient
    /// must not overflow.
    fn num_div_euclid(self, rhs: Self) -> (r: Self)
        requires
            rhs.spec_val() != 0,
            Self::spec_min() <= self.spec_val() / rhs.spec_val() <= Self::spec_max(),
        ensures
            r.spec_val() == self.spec_val() / rhs.spec_val(),
    ;

    /// The Euclidean remainder of `self` by `rhs`, which lies in
    /// `0..|rhs|`; `rhs` must not be zero and the quotient must not overflow.
    fn num_rem_euclid(self, rhs: Self) -> (r: Self)
        requires
            rhs.spec_val() != 0,
            Self::spec_min() <= self.spec_val() / rhs.spec_val() <= Self::spec_max(),
        ensures
            r.spec_val() == self.spec_val() % rhs.spec_val(),
    ;

    /// `self & rhs`.
    fn num_bitand(self, rhs: Self) -> (r: Self)
        ensures
            r == self.bits_and(rhs),
    ;

    /// `self | rhs`.
    fn num_bitor(self, rhs: Self) -> (r: Self)
        ensures
            r == self.bits_or(rhs),
    ;

    /// `self ^ rhs`.
    fn num_bitxor(self, rhs: Self) -> (r: Self)
        ensures
            r == self.bits_xor(rhs),
    ;

    /// `!self`.
    fn num_not(self) -> (r: Self)
        ensures
            r == self.bits_not(),
    ;

    /// `self << n`; `n` must lie in `0..BITS`.
    fn num_shl(self, n: Self) -> (r: Self)
        requires
            0 <= n.spec_val() < Self::spec_bits(),
        ensures
            r == self.bits_shl(n),
    ;

    /// `self >> n`; `n` must lie in `0..BITS`.
    fn num_shr(self, n: Self) -> (r: Self)
        requires
            0 <= n.spec_val() < Self::spec_bits(),
        ensures
            r == self.bits_shr(n),
    ;
}

impl Integer for i8 {
    open spec fn spec_val(self) -> int {
        self as int
    }

    open spec fn spec_min() -> int {
        i8::MIN as int
    }

    open spec fn spec_max() -> int {
        i8::MAX as int
    }

    open spec fn spec_from(v: int) -> i8 {
        v as i8
    }

    proof fn lemma_range(x: i8) {
    }

    proof fn lemma_bounds() {
    }

    proof fn lemma_from(v: int) {
    }

    open spec fn spec_bits() -> int {
        i8::BITS as int
    }

    open spec fn bits_and(self, rhs: i8) -> i8 {
        self & rhs
    }

    open spec fn bits_or(self, rhs: i8) -> i8 {
        self | rhs
    }

    open spec fn bits_xor(self, rhs: i8) -> i8 {
        self ^ rhs
    }

    open spec fn bits_not(self) -> i8 {
        !self
    }

    open spec fn bits_shl(self, n: i8) -> i8 {
        self << n
    }

    open spec fn bits_shr(self, n: i8) -> i8 {
        self >> n
    }

    fn num_div_euclid(self, rhs: i8) -> (r: i8) {
        self.checked_div_euclid(rhs).unwrap()
    }

    fn num_rem_euclid(self, rhs: i8) -> (r: i8) {
        self.checked_rem_euclid(rhs).unwrap()
    }

    fn num_bitand(self, rhs: i8) -> (r: i8) {
        self & rhs
    }

    fn num_bitor(self, rhs: i8) -> (r: i8) {
        self | rhs
    }

    fn num_bitxor(self, rhs: i8) -> (r: i8) {
        self ^ rhs
    }

    fn num_not(self) -> (r: i8) {
        !self
    }

    fn num_shl(self, n: i8) -> (r: i8) {
        self << n
    }

    fn num_shr(self, n: i8) -> (r: i8) {
        self >> n
    }


    fn num_eq(self, rhs: i8) -> (r: bool) {
        self == rhs
    }

    fn num_ne(self, rhs: i8) -> (r: bool) {
        self != rhs
    }

    fn num_lt(self, rhs: i8) -> (r: bool) {
        self < rhs
    }

    fn num_le(self, rhs: i8) -> (r: bool) {
        self <= rhs
    }

    fn num_gt(self, rhs: i8) -> (r: bool) {
        self > rhs
    }

    fn num_ge(self, rhs: i8) -> (r: bool) {
        self >= rhs
    }

    fn num_min(self, rhs: i8) -> (r: i8) {
        if rhs < self {
            rhs
        } else {
            self
        }
    }

    fn num_max(self, rhs: i8) -> (r: i8) {
        if rhs < self {
            self
        } else {
            rhs
        }
    }

    fn num_add(self, rhs: i8) -> (r: i8) {
        self + rhs
    }

    fn num_sub(self, rhs: i8) -> (r: i8) {
        self - rhs
    }

    fn num_mul(self, rhs: i8) -> (r: i8) {
        self * rhs
    }

    fn num_div(self, rhs: i8) -> (r: i8) {
        self.checked_div(rhs).unwrap()
    }

    fn num_rem(self, rhs: i8) -> (r: i8) {
        self.checked_rem(rhs).unwrap()
    }

    fn checked_add(self, rhs: i8) -> (r: Option<i8>) {
        self.checked_add(rhs)
    }

    fn checked_sub(self, rhs: i8) -> (r: Option<i8>) {
        self.checked_sub(rhs)
    }

    fn checked_mul(self, rhs: i8) -> (r: Option<i8>) {
        self.checked_mul(rhs)
    }

    fn checked_div(self, rhs: i8) -> (r: Option<i8>) {
        self.checked_div(rhs)
    }

    fn wrapping_add(self, rhs: i8) -> (r: i8) {
        proof {
            lemma_mod_near(self + rhs - (i8::MIN as int), (i8::MAX as int) - (i8::MIN as int) + 1);
        }
        self.wrapping_add(rhs)
    }

    fn wrapping_sub(self, rhs: i8) -> (r: i8) {
        proof {
            lemma_mod_near(self - rhs - (i8::MIN as int), (i8::MAX as int) - (i8::MIN as int) + 1);
        }
        self.wrapping_sub(rhs)
    }

    fn wrapping_mul(self, rhs: i8) -> (r: i8) {
        proof {
            lemma_signed_crop(self * rhs, 0x80int);
        }
        self.wrapping_mul(rhs)
    }

    fn wrapping_div(self, rhs: i8) -> (r: i8) {
        match self.checked_div(rhs) {
            Some(q) => {
                proof {
                    lemma_mod_near(
                        q as int - (i8::MIN as int),
                        (i8::MAX as int) - (i8::MIN as int) + 1,
                    );
                }
                q
            },
            None => {
                proof {
                    lemma_mod_near(
                        spec_trunc_div(self as int, rhs as int) - (i8::MIN as int),
                        (i8::MAX as int) - (i8::MIN as int) + 1,
                    );
                }
                i8::MIN
            },
        }
    }

    fn saturating_add(self, rhs: i8) -> (r: i8) {
        match self.checked_add(rhs) {
            Some(v) => v,
            None => if rhs < 0 {
                i8::MIN
            } else {
                i8::MAX
            },
        }
    }

    fn saturating_sub(self, rhs: i8) -> (r: i8) {
        match self.checked_sub(rhs) {
            Some(v) => v,
            None => if rhs > 0 {
                i8::MIN
            } else {
                i8::MAX
            },
        }
    }

    fn saturating_mul(self, rhs: i8) -> (r: i8) {
        match self.checked_mul(rhs) {
            Some(v) => v,
            None => {
                assert((self < 0) == (rhs < 0) ==> self * rhs >= 0) by (nonlinear_arith);
                assert((self < 0) != (rhs < 0) ==> self * rhs <= 0) by (nonlinear_arith);
                if (self < 0) == (rhs < 0) {
                    i8::MAX
                } else {
                    i8::MIN
                }
            },
        }
    }

    fn saturating_div(self, rhs: i8) -> (r: i8) {
        match self.checked_div(rhs) {
            Some(q) => q,
            None => i8::MAX,
        }
    }
}

impl Integer for i16 {
    open spec fn spec_val(self) -> int {
        self as int
    }

    open spec fn spec_min() -> int {
        i16::MIN as int
    }

    open spec fn spec_max() -> int {
        i16::MAX as int
    }

    open spec fn spec_from(v: int) -> i16 {
        v as i16
    }

    proof fn lemma_range(x: i16) {
    }

    proof fn lemma_bounds() {
    }

    proof fn lemma_from(v: int) {
    }

    open spec fn spec_bits() -> int {
        i16::BITS as int
    }

    open spec fn bits_and(self, rhs: i16) -> i16 {
        self & rhs
    }

    open spec fn bits_or(self, rhs: i16) -> i16 {
        self | rhs
    }

    open spec fn bits_xor(self, rhs: i16) -> i16 {
        self ^ rhs
    }

    open spec fn bits_not(self) -> i16 {
        !self
    }

    open spec fn bits_shl(self, n: i16) -> i16 {
        self << n
    }

    open spec fn bits_shr(self, n: i16) -> i16 {
        self >> n
    }

    fn num_div_euclid(self, rhs: i16) -> (r: i16) {
        self.checked_div_euclid(rhs).unwrap()
    }

    fn num_rem_euclid(self, rhs: i16) -> (r: i16) {
        self.checked_rem_euclid(rhs).unwrap()
    }

    fn num_bitand(self, rhs: i16) -> (r: i16) {
        self & rhs
    }

    fn num_bitor(self, rhs: i16) -> (r: i16) {
        self | rhs
    }

    fn num_bitxor(self, rhs: i16) -> (r: i16) {
        self ^ rhs
    }

    fn num_not(self) -> (r: i16) {
        !self
    }

    fn num_shl(self, n: i16) -> (r: i16) {
        self << n
    }

    fn num_shr(self, n: i16) -> (r: i16) {
        self >> n
    }


    fn num_eq(self, rhs: i16) -> (r: bool) {
        self == rhs
    }

    fn num_ne(self, rhs: i16) -> (r: bool) {
        self != rhs
    }

    fn num_lt(self, rhs: i16) -> (r: bool) {
        self < rhs
    }

    fn num_le(self, rhs: i16) -> (r: bool) {
        self <= rhs
    }

    fn num_gt(self, rhs: i16) -> (r: bool) {
        self > rhs
    }

    fn num_ge(self, rhs: i16) -> (r: bool) {
        self >= rhs
    }

    fn num_min(self, rhs: i16) -> (r: i16) {
        if rhs < self {
            rhs
        } else {
            self
        }
    }

    fn num_max(self, rhs: i16) -> (r: i16) {
        if rhs < self {
            self
        } else {
            rhs
        }
    }

    fn num_add(self, rhs: i16) -> (r: i16) {
        self + rhs
    }

    fn num_sub(self, rhs: i16) -> (r: i16) {
        self - rhs
    }

    fn num_mul(self, rhs: i16) -> (r: i16) {
        self * rhs
    }

    fn num_div(self, rhs: i16) -> (r: i16) {
        self.checked_div(rhs).unwrap()
    }

    fn num_rem(self, rhs: i16) -> (r: i16) {
        self.checked_rem(rhs).unwrap()
    }

    fn checked_add(self, rhs: i16) -> (r: Option<i16>) {
        self.checked_add(rhs)
    }

    fn checked_sub(self, rhs: i16) -> (r: Option<i16>) {
        self.checked_sub(rhs)
    }

    fn checked_mul(self, rhs: i16) -> (r: Option<i16>) {
        self.checked_mul(rhs)
    }

    fn checked_div(self, rhs: i16) -> (r: Option<i16>) {
        self.checked_div(rhs)
    }

    fn wrapping_add(self, rhs: i16) -> (r: i16) {
        proof {
            lemma_mod_near(
                self + rhs - (i16::MIN as int),
                (i16::MAX as int) - (i16::MIN as int) + 1,
            );
        }
        self.wrapping_add(rhs)
    }

    fn wrapping_sub(self, rhs: i16) -> (r: i16) {
        proof {
            lemma_mod_near(
                self - rhs - (i16::MIN as int),
                (i16::MAX as int) - (i16::MIN as int) + 1,
            );
        }
        self.wrapping_sub(rhs)
    }

    fn wrapping_mul(self, rhs: i16) -> (r: i16) {
        proof {
            lemma_signed_crop(self * rhs, 0x8000int);
        }
        self.wrapping_mul(rhs)
    }

    fn wrapping_div(self, rhs: i16) -> (r: i16) {
        match self.checked_div(rhs) {
            Some(q) => {
                proof {
                    lemma_mod_near(
                        q as int - (i16::MIN as int),
                        (i16::MAX as int) - (i16::MIN as int) + 1,
                    );
                }
                q
            },
            None => {
                proof {
                    lemma_mod_near(
                        spec_trunc_div(self as int, rhs as int) - (i16::MIN as int),
                        (i16::MAX as int) - (i16::MIN as int) + 1,
                    );
                }
                i16::MIN
            },
        }
    }

    fn saturating_add(self, rhs: i16) -> (r: i16) {
        match self.checked_add(rhs) {
            Some(v) => v,
            None => if rhs < 0 {
                i16::MIN
            } else {
                i16::MAX
            },
        }
    }

    fn saturating_sub(self, rhs: i16) -> (r: i16) {
        match self.checked_sub(rhs) {
            Some(v) => v,
            None => if rhs > 0 {
                i16::MIN
            } else {
                i16::MAX
            },
        }
    }

    fn saturating_mul(self, rhs: i16) -> (r: i16) {
        match self.checked_mul(rhs) {
            Some(v) => v,
            None => {
                assert((self < 0) == (rhs < 0) ==> self * rhs >= 0) by (nonlinear_arith);
                assert((self < 0) != (rhs < 0) ==> self * rhs <= 0) by (nonlinear_arith);
                if (self < 0) == (rhs < 0) {
                    i16::MAX
                } else {
                    i16::MIN
                }
            },
        }
    }

    fn saturating_div(self, rhs: i16) -> (r: i16) {
        match self.checked_div(rhs) {
            Some(q) => q,
            None => i16::MAX,
        }
    }
}

impl Integer for i32 {
    open spec fn spec_val(self) -> int {
        self as int
    }

    open spec fn spec_min() -> int {
        i32::MIN as int
    }

    open spec fn spec_max() -> int {
        i32::MAX as int
    }

    open spec fn spec_from(v: int) -> i32 {
        v as i32
    }

    proof fn lemma_range(x: i32) {
    }

    proof fn lemma_bounds() {
    }

    proof fn lemma_from(v: int) {
    }

    open spec fn spec_bits() -> int {
        i32::BITS as int
    }

    open spec fn bits_and(self, rhs: i32) -> i32 {
        self & rhs
    }

    open spec fn bits_or(self, rhs: i32) -> i32 {
        self | rhs
    }

    open spec fn bits_xor(self, rhs: i32) -> i32 {
        self ^ rhs
    }

    open spec fn bits_not(self) -> i32 {
        !self
    }

    open spec fn bits_shl(self, n: i32) -> i32 {
        self << n
    }

    open spec fn bits_shr(self, n: i32) -> i32 {
        self >> n
    }

    fn num_div_euclid(self, rhs: i32) -> (r: i32) {
        self.checked_div_euclid(rhs).unwrap()
    }

    fn num_rem_euclid(self, rhs: i32) -> (r: i32) {
        self.checked_rem_euclid(rhs).unwrap()
    }

    fn num_bitand(self, rhs: i32) -> (r: i32) {
        self & rhs
    }

    fn num_bitor(self, rhs: i32) -> (r: i32) {
        self | rhs
    }

    fn num_bitxor(self, rhs: i32) -> (r: i32) {
        self ^ rhs
    }

    fn num_not(self) -> (r: i32) {
        !self
    }

    fn num_shl(self, n: i32) -> (r: i32) {
        self << n
    }

    fn num_shr(self, n: i32) -> (r: i32) {
        self >> n
    }


    fn num_eq(self, rhs: i32) -> (r: bool) {
        self == rhs
    }

    fn num_ne(self, rhs: i32) -> (r: bool) {
        self != rhs
    }

    fn num_lt(self, rhs: i32) -> (r: bool) {
        self < rhs
    }

    fn num_le(self, rhs: i32) -> (r: bool) {
        self <= rhs
    }

    fn num_gt(self, rhs: i32) -> (r: bool) {
        self > rhs
    }

    fn num_ge(self, rhs: i32) -> (r: bool) {
        self >= rhs
    }

    fn num_min(self, rhs: i32) -> (r: i32) {
        if rhs < self {
            rhs
        } else {
            self
        }
    }

    fn num_max(self, rhs: i32) -> (r: i32) {
        if rhs < self {
            self
        } else {
            rhs
        }
    }

    fn num_add(self, rhs: i32) -> (r: i32) {
        self + rhs
    }

    fn num_sub(self, rhs: i32) -> (r: i32) {
        self - rhs
    }

    fn num_mul(self, rhs: i32) -> (r: i32) {
        self * rhs
    }

    fn num_div(self, rhs: i32) -> (r: i32) {
        self.checked_div(rhs).unwrap()
    }

    fn num_rem(self, rhs: i32) -> (r: i32) {
        self.checked_rem(rhs).unwrap()
    }

    fn checked_add(self, rhs: i32) -> (r: Option<i32>) {
        self.checked_add(rhs)
    }

    fn checked_sub(self, rhs: i32) -> (r: Option<i32>) {
        self.checked_sub(rhs)
    }

    fn checked_mul(self, rhs: i32) -> (r: Option<i32>) {
        self.checked_mul(rhs)
    }

    fn checked_div(self, rhs: i32) -> (r: Option<i32>) {
        self.checked_div(rhs)
    }

    fn wrapping_add(self, rhs: i32) -> (r: i32) {
        proof {
            lemma_mod_near(
                self + rhs - (i32::MIN as int),
                (i32::MAX as int) - (i32::MIN as int) + 1,
            );
        }
        self.wrapping_add(rhs)
    }

    fn wrapping_sub(self, rhs: i32) -> (r: i32) {
        proof {
            lemma_mod_near(
                self - rhs - (i32::MIN as int),
                (i32::MAX as int) - (i32::MIN as int) + 1,
            );
        }
        self.wrapping_sub(rhs)
    }

    fn wrapping_mul(self, rhs: i32) -> (r: i32) {
        proof {
            lemma_signed_crop(self * rhs, 0x8000_0000int);
        }
        self.wrapping_mul(rhs)
    }

    fn wrapping_div(self, rhs: i32) -> (r: i32) {
        match self.checked_div(rhs) {
            Some(q) => {
                proof {
                    lemma_mod_near(
                        q as int - (i32::MIN as int),
                        (i32::MAX as int) - (i32::MIN as int) + 1,
                    );
                }
                q
            },
            None => {
                proof {
                    lemma_mod_near(
                        spec_trunc_div(self as int, rhs as int) - (i32::MIN as int),
                        (i32::MAX as int) - (i32::MIN as int) + 1,
                    );
                }
                i32::MIN
            },
        }
    }

    fn saturating_add(self, rhs: i32) -> (r: i32) {
        match self.checked_add(rhs) {
            Some(v) => v,
            None => if rhs < 0 {
                i32::MIN
            } else {
                i32::MAX
            },
        }
    }

    fn saturating_sub(self, rhs: i32) -> (r: i32) {
        match self.checked_sub(rhs) {
            Some(v) => v,
            None => if rhs > 0 {
                i32::MIN
            } else {
                i32::MAX
            },
        }
    }

    fn saturating_mul(self, rhs: i32) -> (r: i32) {
        match self.checked_mul(rhs) {
            Some(v) => v,
            None => {
                assert((self < 0) == (rhs < 0) ==> self * rhs >= 0) by (nonlinear_arith);
                assert((self < 0) != (rhs < 0) ==> self * rhs <= 0) by (nonlinear_arith);
                if (self < 0) == (rhs < 0) {
                    i32::MAX
                } else {
                    i32::MIN
                }
            },
        }
    }

    fn saturating_div(self, rhs: i32) -> (r: i32) {
        match self.checked_div(rhs) {
            Some(q) => q,
            None => i32::MAX,
        }
    }
}

impl Integer for i64 {
    open spec fn spec_val(self) -> int {
        self as int
    }

    open spec fn spec_min() -> int {
        i64::MIN as int
    }

    open spec fn spec_max() -> int {
        i64::MAX as int
    }

    open spec fn spec_from(v: int) -> i64 {
        v as i64
    }

    proof fn lemma_range(x: i64) {
    }

    proof fn lemma_bounds() {
    }

    proof fn lemma_from(v: int) {
    }

    open spec fn spec_bits() -> int {
        i64::BITS as int
    }

    open spec fn bits_and(self, rhs: i64) -> i64 {
        self & rhs
    }

    open spec fn bits_or(self, rhs: i64) -> i64 {
        self | rhs
    }

    open spec fn bits_xor(self, rhs: i64) -> i64 {
        self ^ rhs
    }

    open spec fn bits_not(self) -> i64 {
        !self
    }

    open spec fn bits_shl(self, n: i64) -> i64 {
        self << n
    }

    open spec fn bits_shr(self, n: i64) -> i64 {
        self >> n
    }

    fn num_div_euclid(self, rhs: i64) -> (r: i64) {
        self.checked_div_euclid(rhs).unwrap()
    }

    fn num_rem_euclid(self, rhs: i64) -> (r: i64) {
        self.checked_rem_euclid(rhs).unwrap()
    }

    fn num_bitand(self, rhs: i64) -> (r: i64) {
        self & rhs
    }

    fn num_bitor(self, rhs: i64) -> (r: i64) {
        self | rhs
    }

    fn num_bitxor(self, rhs: i64) -> (r: i64) {
        self ^ rhs
    }

    fn num_not(self) -> (r: i64) {
        !self
    }

    fn num_shl(self, n: i64) -> (r: i64) {
        self << n
    }

    fn num_shr(self, n: i64) -> (r: i64) {
        self >> n
    }


    fn num_eq(self, rhs: i64) -> (r: bool) {
        self == rhs
    }

    fn num_ne(self, rhs: i64) -> (r: bool) {
        self != rhs
    }

    fn num_lt(self, rhs: i64) -> (r: bool) {
        self < rhs
    }

    fn num_le(self, rhs: i64) -> (r: bool) {
        self <= rhs
    }

    fn num_gt(self, rhs: i64) -> (r: bool) {
        self > rhs
    }

    fn num_ge(self, rhs: i64) -> (r: bool) {
        self >= rhs
    }

    fn num_min(self, rhs: i64) -> (r: i64) {
        if rhs < self {
            rhs
        } else {
            self
        }
    }

    fn num_max(self, rhs: i64) -> (r: i64) {
        if rhs < self {
            self
        } else {
            rhs
        }
    }

    fn num_add(self, rhs: i64) -> (r: i64) {
        self + rhs
    }

    fn num_sub(self, rhs: i64) -> (r: i64) {
        self - rhs
    }

    fn num_mul(self, rhs: i64) -> (r: i64) {
        self * rhs
    }

    fn num_div(self, rhs: i64) -> (r: i64) {
        self.checked_div(rhs).unwrap()
    }

    fn num_rem(self, rhs: i64) -> (r: i64) {
        self.checked_rem(rhs).unwrap()
    }

    fn checked_add(self, rhs: i64) -> (r: Option<i64>) {
        self.checked_add(rhs)
    }

    fn checked_sub(self, rhs: i64) -> (r: Option<i64>) {
        self.checked_sub(rhs)
    }

    fn checked_mul(self, rhs: i64) -> (r: Option<i64>) {
        self.checked_mul(rhs)
    }

    fn checked_div(self, rhs: i64) -> (r: Option<i64>) {
        self.checked_div(rhs)
    }

    fn wrapping_add(self, rhs: i64) -> (r: i64) {
        proof {
            lemma_mod_near(
                self + rhs - (i64::MIN as int),
                (i64::MAX as int) - (i64::MIN as int) + 1,
            );
        }
        self.wrapping_add(rhs)
    }

    fn wrapping_sub(self, rhs: i64) -> (r: i64) {
        proof {
            lemma_mod_near(
                self - rhs - (i64::MIN as int),
                (i64::MAX as int) - (i64::MIN as int) + 1,
            );
        }
        self.wrapping_sub(rhs)
    }

    fn wrapping_mul(self, rhs: i64) -> (r: i64) {
        proof {
            lemma_signed_crop(self * rhs, 0x8000_0000_0000_0000int);
        }
        self.wrapping_mul(rhs)
    }

    fn wrapping_div(self, rhs: i64) -> (r: i64) {
        match self.checked_div(rhs) {
            Some(q) => {
                proof {
                    lemma_mod_near(
                        q as int - (i64::MIN as int),
                        (i64::MAX as int) - (i64::MIN as int) + 1,
                    );
                }
                q
            },
            None => {
                proof {
                    lemma_mod_near(
                        spec_trunc_div(self as int, rhs as int) - (i64::MIN as int),
                        (i64::MAX as int) - (i64::MIN as int) + 1,
                    );
                }
                i64::MIN
            },
        }
    }

    fn saturating_add(self, rhs: i64) -> (r: i64) {
        match self.checked_add(rhs) {
            Some(v) => v,
            None => if rhs < 0 {
                i64::MIN
            } else {
                i64::MAX
            },
        }
    }

    fn saturating_sub(self, rhs: i64) -> (r: i64) {
        match self.checked_sub(rhs) {
            Some(v) => v,
            None => if rhs > 0 {
                i64::MIN
            } else {
                i64::MAX
            },
        }
    }

    fn saturating_mul(self, rhs: i64) -> (r: i64) {
        match self.checked_mul(rhs) {
            Some(v) => v,
            None => {
                assert((self < 0) == (rhs < 0) ==> self * rhs >= 0) by (nonlinear_arith);
                assert((self < 0) != (rhs < 0) ==> self * rhs <= 0) by (nonlinear_arith);
                if (self < 0) == (rhs < 0) {
                    i64::MAX
                } else {
                    i64::MIN
                }
            },
        }
    }

    fn saturating_div(self, rhs: i64) -> (r: i64) {
        match self.checked_div(rhs) {
            Some(q) => q,
            None => i64::MAX,
        }
    }
}

impl Integer for i128 {
    open spec fn spec_val(self) -> int {
        self as int
    }

    open spec fn spec_min() -> int {
        i128::MIN as int
    }

    open spec fn spec_max() -> int {
        i128::MAX as int
    }

    open spec fn spec_from(v: int) -> i128 {
        v as i128
    }

    proof fn lemma_range(x: i128) {
    }

    proof fn lemma_bounds() {
    }

    proof fn lemma_from(v: int) {
    }

    open spec fn spec_bits() -> int {
        i128::BITS as int
    }

    open spec fn bits_and(self, rhs: i128) -> i128 {
        self & rhs
    }

    open spec fn bits_or(self, rhs: i128) -> i128 {
        self | rhs
    }

    open spec fn bits_xor(self, rhs: i128) -> i128 {
        self ^ rhs
    }

    open spec fn bits_not(self) -> i128 {
        !self
    }

    open spec fn bits_shl(self, n: i128) -> i128 {
        self << n
    }

    open spec fn bits_shr(self, n: i128) -> i128 {
        self >> n
    }

    fn num_div_euclid(self, rhs: i128) -> (r: i128) {
        self.checked_div_euclid(rhs).unwrap()
    }

    fn num_rem_euclid(self, rhs: i128) -> (r: i128) {
        self.checked_rem_euclid(rhs).unwrap()
    }

    fn num_bitand(self, rhs: i128) -> (r: i128) {
        self & rhs
    }

    fn num_bitor(self, rhs: i128) -> (r: i128) {
        self | rhs
    }

    fn num_bitxor(self, rhs: i128) -> (r: i128) {
        self ^ rhs
    }

    fn num_not(self) -> (r: i128) {
        !self
    }

    fn num_shl(self, n: i128) -> (r: i128) {
        self << n
    }

    fn num_shr(self, n: i128) -> (r: i128) {
        self >> n
    }


    fn num_eq(self, rhs: i128) -> (r: bool) {
        self == rhs
    }

    fn num_ne(self, rhs: i128) -> (r: bool) {
        self != rhs
    }

    fn num_lt(self, rhs: i128) -> (r: bool) {
        self < rhs
    }

    fn num_le(self, rhs: i128) -> (r: bool) {
        self <= rhs
    }

    fn num_gt(self, rhs: i128) -> (r: bool) {
        self > rhs
    }

    fn num_ge(self, rhs: i128) -> (r: bool) {
        self >= rhs
    }

    fn num_min(self, rhs: i128) -> (r: i128) {
        if rhs < self {
            rhs
        } else {
            self
        }
    }

    fn num_max(self, rhs: i128) -> (r: i128) {
        if rhs < self {
            self
        } else {
            rhs
        }
    }

    fn num_add(self, rhs: i128) -> (r: i128) {
        self + rhs
    }

    fn num_sub(self, rhs: i128) -> (r: i128) {
        self - rhs
    }

    fn num_mul(self, rhs: i128) -> (r: i128) {
        self * rhs
    }

    fn num_div(self, rhs: i128) -> (r: i128) {
        self.checked_div(rhs).unwrap()
    }

    fn num_rem(self, rhs: i128) -> (r: i128) {
        self.checked_rem(rhs).unwrap()
    }

    fn checked_add(self, rhs: i128) -> (r: Option<i128>) {
        self.checked_add(rhs)
    }

    fn checked_sub(self, rhs: i128) -> (r: Option<i128>) {
        self.checked_sub(rhs)
    }

    fn checked_mul(self, rhs: i128) -> (r: Option<i128>) {
        self.checked_mul(rhs)
    }

    fn checked_div(self, rhs: i128) -> (r: Option<i128>) {
        self.checked_div(rhs)
    }

    fn wrapping_add(self, rhs: i128) -> (r: i128) {
        proof {
            lemma_mod_near(
                self + rhs - (i128::MIN as int),
                (i128::MAX as int) - (i128::MIN as int) + 1,
            );
        }
        self.wrapping_add(rhs)
    }

    fn wrapping_sub(self, rhs: i128) -> (r: i128) {
        proof {
            lemma_mod_near(
                self - rhs - (i128::MIN as int),
                (i128::MAX as int) - (i128::MIN as int) + 1,
            );
        }
        self.wrapping_sub(rhs)
    }

    fn wrapping_mul(self, rhs: i128) -> (r: i128) {
        proof {
            lemma_signed_crop(self * rhs, 0x8000_0000_0000_0000_0000_0000_0000_0000int);
        }
        self.wrapping_mul(rhs)
    }

    fn wrapping_div(self, rhs: i128) -> (r: i128) {
        match self.checked_div(rhs) {
            Some(q) => {
                proof {
                    lemma_mod_near(
                        q as int - (i128::MIN as int),
                        (i128::MAX as int) - (i128::MIN as int) + 1,
                    );
                }
                q
            },
            None => {
                proof {
                    lemma_mod_near(
                        spec_trunc_div(self as int, rhs as int) - (i128::MIN as int),
                        (i128::MAX as int) - (i128::MIN as int) + 1,
                    );
                }
                i128::MIN
            },
        }
    }

    fn saturating_add(self, rhs: i128) -> (r: i128) {
        match self.checked_add(rhs) {
            Some(v) => v,
            None => if rhs < 0 {
                i128::MIN
            } else {
                i128::MAX
            },
        }
    }

    fn saturating_sub(self, rhs: i128) -> (r: i128) {
        match self.checked_sub(rhs) {
            Some(v) => v,
            None => if rhs > 0 {
                i128::MIN
            } else {
                i128::MAX
            },
        }
    }

    fn saturating_mul(self, rhs: i128) -> (r: i128) {
        match self.checked_mul(rhs) {
            Some(v) => v,
            None => {
                assert((self < 0) == (rhs < 0) ==> self * rhs >= 0) by (nonlinear_arith);
                assert((self < 0) != (rhs < 0) ==> self * rhs <= 0) by (nonlinear_arith);
                if (self < 0) == (rhs < 0) {
                    i128::MAX
                } else {
                    i128::MIN
                }
            },
        }
    }

    fn saturating_div(self, rhs: i128) -> (r: i128) {
        match self.checked_div(rhs) {
            Some(q) => q,
            None => i128::MAX,
        }
    }
}

impl Integer for isize {
    open spec fn spec_val(self) -> int {
        self as int
    }

    open spec fn spec_min() -> int {
        isize::MIN as int
    }

    open spec fn spec_max() -> int {
        isize::MAX as int
    }

    open spec fn spec_from(v: int) -> isize {
        v as isize
    }

    proof fn lemma_range(x: isize) {
    }

    proof fn lemma_bounds() {
    }

    proof fn lemma_from(v: int) {
    }

    open spec fn spec_bits() -> int {
        isize::BITS as int
    }

    open spec fn bits_and(self, rhs: isize) -> isize {
        self & rhs
    }

    open spec fn bits_or(self, rhs: isize) -> isize {
        self | rhs
    }

    open spec fn bits_xor(self, rhs: isize) -> isize {
        self ^ rhs
    }

    open spec fn bits_not(self) -> isize {
        !self
    }

    open spec fn bits_shl(self, n: isize) -> isize {
        self << n
    }

    open spec fn bits_shr(self, n: isize) -> isize {
        self >> n
    }

    fn num_div_euclid(self, rhs: isize) -> (r: isize) {
        self.checked_div_euclid(rhs).unwrap()
    }

    fn num_rem_euclid(self, rhs: isize) -> (r: isize) {
        self.checked_rem_euclid(rhs).unwrap()
    }

    fn num_bitand(self, rhs: isize) -> (r: isize) {
        self & rhs
    }

    fn num_bitor(self, rhs: isize) -> (r: isize) {
        self | rhs
    }

    fn num_bitxor(self, rhs: isize) -> (r: isize) {
        self ^ rhs
    }

    fn num_not(self) -> (r: isize) {
        !self
    }

    fn num_shl(self, n: isize) -> (r: isize) {
        self << n
    }

    fn num_shr(self, n: isize) -> (r: isize) {
        self >> n
    }


    fn num_eq(self, rhs: isize) -> (r: bool) {
        self == rhs
    }

    fn num_ne(self, rhs: isize) -> (r: bool) {
        self != rhs
    }

    fn num_lt(self, rhs: isize) -> (r: bool) {
        self < rhs
    }

    fn num_le(self, rhs: isize) -> (r: bool) {
        self <= rhs
    }

    fn num_gt(self, rhs: isize) -> (r: bool) {
        self > rhs
    }

    fn num_ge(self, rhs: isize) -> (r: bool) {
        self >= rhs
    }

    fn num_min(self, rhs: isize) -> (r: isize) {
        if rhs < self {
            rhs
        } else {
            self
        }
    }

    fn num_max(self, rhs: isize) -> (r: isize) {
        if rhs < self {
            self
        } else {
            rhs
        }
    }

    fn num_add(self, rhs: isize) -> (r: isize) {
        self + rhs
    }

    fn num_sub(self, rhs: isize) -> (r: isize) {
        self - rhs
    }

    fn num_mul(self, rhs: isize) -> (r: isize) {
        self * rhs
    }

    fn num_div(self, rhs: isize) -> (r: isize) {
        self.checked_div(rhs).unwrap()
    }

    fn num_rem(self, rhs: isize) -> (r: isize) {
        self.checked_rem(rhs).unwrap()
    }

    fn checked_add(self, rhs: isize) -> (r: Option<isize>) {
        self.checked_add(rhs)
    }

    fn checked_sub(self, rhs: isize) -> (r: Option<isize>) {
        self.checked_sub(rhs)
    }

    fn checked_mul(self, rhs: isize) -> (r: Option<isize>) {
        self.checked_mul(rhs)
    }

    fn checked_div(self, rhs: isize) -> (r: Option<isize>) {
        self.checked_div(rhs)
    }

    fn wrapping_add(self, rhs: isize) -> (r: isize) {
        proof {
            lemma_mod_near(
                self + rhs - (isize::MIN as int),
                (isize::MAX as int) - (isize::MIN as int) + 1,
            );
        }
        self.wrapping_add(rhs)
    }

    fn wrapping_sub(self, rhs: isize) -> (r: isize) {
        proof {
            lemma_mod_near(
                self - rhs - (isize::MIN as int),
                (isize::MAX as int) - (isize::MIN as int) + 1,
            );
        }
        self.wrapping_sub(rhs)
    }

    fn wrapping_mul(self, rhs: isize) -> (r: isize) {
        proof {
            lemma_signed_crop(self * rhs, (isize::MAX as int + 1));
        }
        self.wrapping_mul(rhs)
    }

    fn wrapping_div(self, rhs: isize) -> (r: isize) {
        match self.checked_div(rhs) {
            Some(q) => {
                proof {
                    lemma_mod_near(
                        q as int - (isize::MIN as int),
                        (isize::MAX as int) - (isize::MIN as int) + 1,
                    );
                }
                q
            },
            None => {
                proof {
                    lemma_mod_near(
                        spec_trunc_div(self as int, rhs as int) - (isize::MIN as int),
                        (isize::MAX as int) - (isize::MIN as int) + 1,
                    );
                }
                isize::MIN
            },
        }
    }

    fn saturating_add(self, rhs: isize) -> (r: isize) {
        match self.checked_add(rhs) {
            Some(v) => v,
            None => if rhs < 0 {
                isize::MIN
            } else {
                isize::MAX
            },
        }
    }

    fn saturating_sub(self, rhs: isize) -> (r: isize) {
        match self.checked_sub(rhs) {
            Some(v) => v,
            None => if rhs > 0 {
                isize::MIN
            } else {
                isize::MAX
            },
        }
    }

    fn saturating_mul(self, rhs: isize) -> (r: isize) {
        match self.checked_mul(rhs) {
            Some(v) => v,
            None => {
                assert((self < 0) == (rhs < 0) ==> self * rhs >= 0) by (nonlinear_arith);
                assert((self < 0) != (rhs < 0) ==> self * rhs <= 0) by (nonlinear_arith);
                if (self < 0) == (rhs < 0) {
                    isize::MAX
                } else {
                    isize::MIN
                }
            },
        }
    }

    fn saturating_div(self, rhs: isize) -> (r: isize) {
        match self.checked_div(rhs) {
            Some(q) => q,
            None => isize::MAX,
        }
    }
}

impl Integer for u8 {
    open spec fn spec_val(self) -> int {
        self as int
    }

    open spec fn spec_min() -> int {
        u8::MIN as int
    }

    open spec fn spec_max() -> int {
        u8::MAX as int
    }

    open spec fn spec_from(v: int) -> u8 {
        v as u8
    }

    proof fn lemma_range(x: u8) {
    }

    proof fn lemma_bounds() {
    }

    proof fn lemma_from(v: int) {
    }

    open spec fn spec_bits() -> int {
        u8::BITS as int
    }

    open spec fn bits_and(self, rhs: u8) -> u8 {
        self & rhs
    }

    open spec fn bits_or(self, rhs: u8) -> u8 {
        self | rhs
    }

    open spec fn bits_xor(self, rhs: u8) -> u8 {
        self ^ rhs
    }

    open spec fn bits_not(self) -> u8 {
        !self
    }

    open spec fn bits_shl(self, n: u8) -> u8 {
        self << n
    }

    open spec fn bits_shr(self, n: u8) -> u8 {
        self >> n
    }

    fn num_div_euclid(self, rhs: u8) -> (r: u8) {
        self.checked_div_euclid(rhs).unwrap()
    }

    fn num_rem_euclid(self, rhs: u8) -> (r: u8) {
        self.checked_rem_euclid(rhs).unwrap()
    }

    fn num_bitand(self, rhs: u8) -> (r: u8) {
        self & rhs
    }

    fn num_bitor(self, rhs: u8) -> (r: u8) {
        self | rhs
    }

    fn num_bitxor(self, rhs: u8) -> (r: u8) {
        self ^ rhs
    }

    fn num_not(self) -> (r: u8) {
        !self
    }

    fn num_shl(self, n: u8) -> (r: u8) {
        self << n
    }

    fn num_shr(self, n: u8) -> (r: u8) {
        self >> n
    }


    fn num_eq(self, rhs: u8) -> (r: bool) {
        self == rhs
    }

    fn num_ne(self, rhs: u8) -> (r: bool) {
        self != rhs
    }

    fn num_lt(self, rhs: u8) -> (r: bool) {
        self < rhs
    }

    fn num_le(self, rhs: u8) -> (r: bool) {
        self <= rhs
    }

    fn num_gt(self, rhs: u8) -> (r: bool) {
        self > rhs
    }

    fn num_ge(self, rhs: u8) -> (r: bool) {
        self >= rhs
    }

    fn num_min(self, rhs: u8) -> (r: u8) {
        if rhs < self {
            rhs
        } else {
            self
        }
    }

    fn num_max(self, rhs: u8) -> (r: u8) {
        if rhs < self {
            self
        } else {
            rhs
        }
    }

    fn num_add(self, rhs: u8) -> (r: u8) {
        self + rhs
    }

    fn num_sub(self, rhs: u8) -> (r: u8) {
        self - rhs
    }

    fn num_mul(self, rhs: u8) -> (r: u8) {
        self * rhs
    }

    fn num_div(self, rhs: u8) -> (r: u8) {
        self.checked_div(rhs).unwrap()
    }

    fn num_rem(self, rhs: u8) -> (r: u8) {
        proof {
            if self == 0 {
                lemma_small_mod(0, rhs as nat);
            }
        }
        self.checked_rem(rhs).unwrap()
    }

    fn checked_add(self, rhs: u8) -> (r: Option<u8>) {
        self.checked_add(rhs)
    }

    fn checked_sub(self, rhs: u8) -> (r: Option<u8>) {
        self.checked_sub(rhs)
    }

    fn checked_mul(self, rhs: u8) -> (r: Option<u8>) {
        self.checked_mul(rhs)
    }

    fn checked_div(self, rhs: u8) -> (r: Option<u8>) {
        self.checked_div(rhs)
    }

    fn wrapping_add(self, rhs: u8) -> (r: u8) {
        proof {
            lemma_mod_near(self + rhs - (u8::MIN as int), (u8::MAX as int) - (u8::MIN as int) + 1);
        }
        self.wrapping_add(rhs)
    }

    fn wrapping_sub(self, rhs: u8) -> (r: u8) {
        proof {
            lemma_mod_near(self - rhs - (u8::MIN as int), (u8::MAX as int) - (u8::MIN as int) + 1);
        }
        self.wrapping_sub(rhs)
    }

    fn wrapping_mul(self, rhs: u8) -> (r: u8) {
        proof {
            lemma_mod_bound(self * rhs, 0x100int);
        }
        self.wrapping_mul(rhs)
    }

    fn wrapping_div(self, rhs: u8) -> (r: u8) {
        proof {
            lemma_mod_near(
                spec_trunc_div(self as int, rhs as int) - (u8::MIN as int),
                (u8::MAX as int) - (u8::MIN as int) + 1,
            );
        }
        self.checked_div(rhs).unwrap()
    }

    fn saturating_add(self, rhs: u8) -> (r: u8) {
        match self.checked_add(rhs) {
            Some(v) => v,
            None => u8::MAX,
        }
    }

    fn saturating_sub(self, rhs: u8) -> (r: u8) {
        match self.checked_sub(rhs) {
            Some(v) => v,
            None => u8::MIN,
        }
    }

    fn saturating_mul(self, rhs: u8) -> (r: u8) {
        match self.checked_mul(rhs) {
            Some(v) => v,
            None => {
                assert(self * rhs >= 0) by (nonlinear_arith);
                u8::MAX
            },
        }
    }

    fn saturating_div(self, rhs: u8) -> (r: u8) {
        self.checked_div(rhs).unwrap()
    }
}

impl Integer for u16 {
    open spec fn spec_val(self) -> int {
        self as int
    }

    open spec fn spec_min() -> int {
        u16::MIN as int
    }

    open spec fn spec_max() -> int {
        u16::MAX as int
    }

    open spec fn spec_from(v: int) -> u16 {
        v as u16
    }

    proof fn lemma_range(x: u16) {
    }

    proof fn lemma_bounds() {
    }

    proof fn lemma_from(v: int) {
    }

    open spec fn spec_bits() -> int {
        u16::BITS as int
    }

    open spec fn bits_and(self, rhs: u16) -> u16 {
        self & rhs
    }

    open spec fn bits_or(self, rhs: u16) -> u16 {
        self | rhs
    }

    open spec fn bits_xor(self, rhs: u16) -> u16 {
        self ^ rhs
    }

    open spec fn bits_not(self) -> u16 {
        !self
    }

    open spec fn bits_shl(self, n: u16) -> u16 {
        self << n
    }

    open spec fn bits_shr(self, n: u16) -> u16 {
        self >> n
    }

    fn num_div_euclid(self, rhs: u16) -> (r: u16) {
        self.checked_div_euclid(rhs).unwrap()
    }

    fn num_rem_euclid(self, rhs: u16) -> (r: u16) {
        self.checked_rem_euclid(rhs).unwrap()
    }

    fn num_bitand(self, rhs: u16) -> (r: u16) {
        self & rhs
    }

    fn num_bitor(self, rhs: u16) -> (r: u16) {
        self | rhs
    }

    fn num_bitxor(self, rhs: u16) -> (r: u16) {
        self ^ rhs
    }

    fn num_not(self) -> (r: u16) {
        !self
    }

    fn num_shl(self, n: u16) -> (r: u16) {
        self << n
    }

    fn num_shr(self, n: u16) -> (r: u16) {
        self >> n
    }


    fn num_eq(self, rhs: u16) -> (r: bool) {
        self == rhs
    }

    fn num_ne(self, rhs: u16) -> (r: bool) {
        self != rhs
    }

    fn num_lt(self, rhs: u16) -> (r: bool) {
        self < rhs
    }

    fn num_le(self, rhs: u16) -> (r: bool) {
        self <= rhs
    }

    fn num_gt(self, rhs: u16) -> (r: bool) {
        self > rhs
    }

    fn num_ge(self, rhs: u16) -> (r: bool) {
        self >= rhs
    }

    fn num_min(self, rhs: u16) -> (r: u16) {
        if rhs < self {
            rhs
        } else {
            self
        }
    }

    fn num_max(self, rhs: u16) -> (r: u16) {
        if rhs < self {
            self
        } else {
            rhs
        }
    }

    fn num_add(self, rhs: u16) -> (r: u16) {
        self + rhs
    }

    fn num_sub(self, rhs: u16) -> (r: u16) {
        self - rhs
    }

    fn num_mul(self, rhs: u16) -> (r: u16) {
        self * rhs
    }

    fn num_div(self, rhs: u16) -> (r: u16) {
        self.checked_div(rhs).unwrap()
    }

    fn num_rem(self, rhs: u16) -> (r: u16) {
        proof {
            if self == 0 {
                lemma_small_mod(0, rhs as nat);
            }
        }
        self.checked_rem(rhs).unwrap()
    }

    fn checked_add(self, rhs: u16) -> (r: Option<u16>) {
        self.checked_add(rhs)
    }

    fn checked_sub(self, rhs: u16) -> (r: Option<u16>) {
        self.checked_sub(rhs)
    }

    fn checked_mul(self, rhs: u16) -> (r: Option<u16>) {
        self.checked_mul(rhs)
    }

    fn checked_div(self, rhs: u16) -> (r: Option<u16>) {
        self.checked_div(rhs)
    }

    fn wrapping_add(self, rhs: u16) -> (r: u16) {
        proof {
            lemma_mod_near(
                self + rhs - (u16::MIN as int),
                (u16::MAX as int) - (u16::MIN as int) + 1,
            );
        }
        self.wrapping_add(rhs)
    }

    fn wrapping_sub(self, rhs: u16) -> (r: u16) {
        proof {
            lemma_mod_near(
                self - rhs - (u16::MIN as int),
                (u16::MAX as int) - (u16::MIN as int) + 1,
            );
        }
        self.wrapping_sub(rhs)
    }

    fn wrapping_mul(self, rhs: u16) -> (r: u16) {
        proof {
            lemma_mod_bound(self * rhs, 0x1_0000int);
        }
        self.wrapping_mul(rhs)
    }

    fn wrapping_div(self, rhs: u16) -> (r: u16) {
        proof {
            lemma_mod_near(
                spec_trunc_div(self as int, rhs as int) - (u16::MIN as int),
                (u16::MAX as int) - (u16::MIN as int) + 1,
            );
        }
        self.checked_div(rhs).unwrap()
    }

    fn saturating_add(self, rhs: u16) -> (r: u16) {
        match self.checked_add(rhs) {
            Some(v) => v,
            None => u16::MAX,
        }
    }

    fn saturating_sub(self, rhs: u16) -> (r: u16) {
        match self.checked_sub(rhs) {
            Some(v) => v,
            None => u16::MIN,
        }
    }

    fn saturating_mul(self, rhs: u16) -> (r: u16) {
        match self.checked_mul(rhs) {
            Some(v) => v,
            None => {
                assert(self * rhs >= 0) by (nonlinear_arith);
                u16::MAX
            },
        }
    }

    fn saturating_div(self, rhs: u16) -> (r: u16) {
        self.checked_div(rhs).unwrap()
    }
}

impl Integer for u32 {
    open spec fn spec_val(self) -> int {
        self as int
    }

    open spec fn spec_min() -> int {
        u32::MIN as int
    }

    open spec fn spec_max() -> int {
        u32::MAX as int
    }

    open spec fn spec_from(v: int) -> u32 {
        v as u32
    }

    proof fn lemma_range(x: u32) {
    }

    proof fn lemma_bounds() {
    }

    proof fn lemma_from(v: int) {
    }

    open spec fn spec_bits() -> int {
        u32::BITS as int
    }

    open spec fn bits_and(self, rhs: u32) -> u32 {
        self & rhs
    }

    open spec fn bits_or(self, rhs: u32) -> u32 {
        self | rhs
    }

    open spec fn bits_xor(self, rhs: u32) -> u32 {
        self ^ rhs
    }

    open spec fn bits_not(self) -> u32 {
        !self
    }

    open spec fn bits_shl(self, n: u32) -> u32 {
        self << n
    }

    open spec fn bits_shr(self, n: u32) -> u32 {
        self >> n
    }

    fn num_div_euclid(self, rhs: u32) -> (r: u32) {
        self.checked_div_euclid(rhs).unwrap()
    }

    fn num_rem_euclid(self, rhs: u32) -> (r: u32) {
        self.checked_rem_euclid(rhs).unwrap()
    }

    fn num_bitand(self, rhs: u32) -> (r: u32) {
        self & rhs
    }

    fn num_bitor(self, rhs: u32) -> (r: u32) {
        self | rhs
    }

    fn num_bitxor(self, rhs: u32) -> (r: u32) {
        self ^ rhs
    }

    fn num_not(self) -> (r: u32) {
        !self
    }

    fn num_shl(self, n: u32) -> (r: u32) {
        self << n
    }

    fn num_shr(self, n: u32) -> (r: u32) {
        self >> n
    }


    fn num_eq(self, rhs: u32) -> (r: bool) {
        self == rhs
    }

    fn num_ne(self, rhs: u32) -> (r: bool) {
        self != rhs
    }

    fn num_lt(self, rhs: u32) -> (r: bool) {
        self < rhs
    }

    fn num_le(self, rhs: u32) -> (r: bool) {
        self <= rhs
    }

    fn num_gt(self, rhs: u32) -> (r: bool) {
        self > rhs
    }

    fn num_ge(self, rhs: u32) -> (r: bool) {
        self >= rhs
    }

    fn num_min(self, rhs: u32) -> (r: u32) {
        if rhs < self {
            rhs
        } else {
            self
        }
    }

    fn num_max(self, rhs: u32) -> (r: u32) {
        if rhs < self {
            self
        } else {
            rhs
        }
    }

    fn num_add(self, rhs: u32) -> (r: u32) {
        self + rhs
    }

    fn num_sub(self, rhs: u32) -> (r: u32) {
        self - rhs
    }

    fn num_mul(self, rhs: u32) -> (r: u32) {
        self * rhs
    }

    fn num_div(self, rhs: u32) -> (r: u32) {
        self.checked_div(rhs).unwrap()
    }

    fn num_rem(self, rhs: u32) -> (r: u32) {
        proof {
            if self == 0 {
                lemma_small_mod(0, rhs as nat);
            }
        }
        self.checked_rem(rhs).unwrap()
    }

    fn checked_add(self, rhs: u32) -> (r: Option<u32>) {
        self.checked_add(rhs)
    }

    fn checked_sub(self, rhs: u32) -> (r: Option<u32>) {
        self.checked_sub(rhs)
    }

    fn checked_mul(self, rhs: u32) -> (r: Option<u32>) {
        self.checked_mul(rhs)
    }

    fn checked_div(self, rhs: u32) -> (r: Option<u32>) {
        self.checked_div(rhs)
    }

    fn wrapping_add(self, rhs: u32) -> (r: u32) {
        proof {
            lemma_mod_near(
                self + rhs - (u32::MIN as int),
                (u32::MAX as int) - (u32::MIN as int) + 1,
            );
        }
        self.wrapping_add(rhs)
    }

    fn wrapping_sub(self, rhs: u32) -> (r: u32) {
        proof {
            lemma_mod_near(
                self - rhs - (u32::MIN as int),
                (u32::MAX as int) - (u32::MIN as int) + 1,
            );
        }
        self.wrapping_sub(rhs)
    }

    fn wrapping_mul(self, rhs: u32) -> (r: u32) {
        proof {
            lemma_mod_bound(self * rhs, 0x1_0000_0000int);
        }
        self.wrapping_mul(rhs)
    }

    fn wrapping_div(self, rhs: u32) -> (r: u32) {
        proof {
            lemma_mod_near(
                spec_trunc_div(self as int, rhs as int) - (u32::MIN as int),
                (u32::MAX as int) - (u32::MIN as int) + 1,
            );
        }
        self.checked_div(rhs).unwrap()
    }

    fn saturating_add(self, rhs: u32) -> (r: u32) {
        match self.checked_add(rhs) {
            Some(v) => v,
            None => u32::MAX,
        }
    }

    fn saturating_sub(self, rhs: u32) -> (r: u32) {
        match self.checked_sub(rhs) {
            Some(v) => v,
            None => u32::MIN,
        }
    }

    fn saturating_mul(self, rhs: u32) -> (r: u32) {
        match self.checked_mul(rhs) {
            Some(v) => v,
            None => {
                assert(self * rhs >= 0) by (nonlinear_arith);
                u32::MAX
            },
        }
    }

    fn saturating_div(self, rhs: u32) -> (r: u32) {
        self.checked_div(rhs).unwrap()
    }
}

impl Integer for u64 {
    open spec fn spec_val(self) -> int {
        self as int
    }

    open spec fn spec_min() -> int {
        u64::MIN as int
    }

    open spec fn spec_max() -> int {
        u64::MAX as int
    }

    open spec fn spec_from(v: int) -> u64 {
        v as u64
    }

    proof fn lemma_range(x: u64) {
    }

    proof fn lemma_bounds() {
    }

    proof fn lemma_from(v: int) {
    }

    open spec fn spec_bits() -> int {
        u64::BITS as int
    }

    open spec fn bits_and(self, rhs: u64) -> u64 {
        self & rhs
    }

    open spec fn bits_or(self, rhs: u64) -> u64 {
        self | rhs
    }

    open spec fn bits_xor(self, rhs: u64) -> u64 {
        self ^ rhs
    }

    open spec fn bits_not(self) -> u64 {
        !self
    }

    open spec fn bits_shl(self, n: u64) -> u64 {
        self << n
    }

    open spec fn bits_shr(self, n: u64) -> u64 {
        self >> n
    }

    fn num_div_euclid(self, rhs: u64) -> (r: u64) {
        self.checked_div_euclid(rhs).unwrap()
    }

    fn num_rem_euclid(self, rhs: u64) -> (r: u64) {
        self.checked_rem_euclid(rhs).unwrap()
    }

    fn num_bitand(self, rhs: u64) -> (r: u64) {
        self & rhs
    }

    fn num_bitor(self, rhs: u64) -> (r: u64) {
        self | rhs
    }

    fn num_bitxor(self, rhs: u64) -> (r: u64) {
        self ^ rhs
    }

    fn num_not(self) -> (r: u64) {
        !self
    }

    fn num_shl(self, n: u64) -> (r: u64) {
        self << n
    }

    fn num_shr(self, n: u64) -> (r: u64) {
        self >> n
    }


    fn num_eq(self, rhs: u64) -> (r: bool) {
        self == rhs
    }

    fn num_ne(self, rhs: u64) -> (r: bool) {
        self != rhs
    }

    fn num_lt(self, rhs: u64) -> (r: bool) {
        self < rhs
    }

    fn num_le(self, rhs: u64) -> (r: bool) {
        self <= rhs
    }

    fn num_gt(self, rhs: u64) -> (r: bool) {
        self > rhs
    }

    fn num_ge(self, rhs: u64) -> (r: bool) {
        self >= rhs
    }

    fn num_min(self, rhs: u64) -> (r: u64) {
        if rhs < self {
            rhs
        } else {
            self
        }
    }

    fn num_max(self, rhs: u64) -> (r: u64) {
        if rhs < self {
            self
        } else {
            rhs
        }
    }

    fn num_add(self, rhs: u64) -> (r: u64) {
        self + rhs
    }

    fn num_sub(self, rhs: u64) -> (r: u64) {
        self - rhs
    }

    fn num_mul(self, rhs: u64) -> (r: u64) {
        self * rhs
    }

    fn num_div(self, rhs: u64) -> (r: u64) {
        self.checked_div(rhs).unwrap()
    }

    fn num_rem(self, rhs: u64) -> (r: u64) {
        proof {
            if self == 0 {
                lemma_small_mod(0, rhs as nat);
            }
        }
        self.checked_rem(rhs).unwrap()
    }

    fn checked_add(self, rhs: u64) -> (r: Option<u64>) {
        self.checked_add(rhs)
    }

    fn checked_sub(self, rhs: u64) -> (r: Option<u64>) {
        self.checked_sub(rhs)
    }

    fn checked_mul(self, rhs: u64) -> (r: Option<u64>) {
        self.checked_mul(rhs)
    }

    fn checked_div(self, rhs: u64) -> (r: Option<u64>) {
        self.checked_div(rhs)
    }

    fn wrapping_add(self, rhs: u64) -> (r: u64) {
        proof {
            lemma_mod_near(
                self + rhs - (u64::MIN as int),
                (u64::MAX as int) - (u64::MIN as int) + 1,
            );
        }
        self.wrapping_add(rhs)
    }

    fn wrapping_sub(self, rhs: u64) -> (r: u64) {
        proof {
            lemma_mod_near(
                self - rhs - (u64::MIN as int),
                (u64::MAX as int) - (u64::MIN as int) + 1,
            );
        }
        self.wrapping_sub(rhs)
    }

    fn wrapping_mul(self, rhs: u64) -> (r: u64) {
        proof {
            lemma_mod_bound(self * rhs, 0x1_0000_0000_0000_0000int);
        }
        self.wrapping_mul(rhs)
    }

    fn wrapping_div(self, rhs: u64) -> (r: u64) {
        proof {
            lemma_mod_near(
                spec_trunc_div(self as int, rhs as int) - (u64::MIN as int),
                (u64::MAX as int) - (u64::MIN as int) + 1,
            );
        }
        self.checked_div(rhs).unwrap()
    }

    fn saturating_add(self, rhs: u64) -> (r: u64) {
        match self.checked_add(rhs) {
            Some(v) => v,
            None => u64::MAX,
        }
    }

    fn saturating_sub(self, rhs: u64) -> (r: u64) {
        match self.checked_sub(rhs) {
            Some(v) => v,
            None => u64::MIN,
        }
    }

    fn saturating_mul(self, rhs: u64) -> (r: u64) {
        match self.checked_mul(rhs) {
            Some(v) => v,
            None => {
                assert(self * rhs >= 0) by (nonlinear_arith);
                u64::MAX
            },
        }
    }

    fn saturating_div(self, rhs: u64) -> (r: u64) {
        self.checked_div(rhs).unwrap()
    }
}

impl Integer for u128 {
    open spec fn spec_val(self) -> int {
        self as int
    }

    open spec fn spec_min() -> int {
        u128::MIN as int
    }

    open spec fn spec_max() -> int {
        u128::MAX as int
    }

    open spec fn spec_from(v: int) -> u128 {
        v as u128
    }

    proof fn lemma_range(x: u128) {
    }

    proof fn lemma_bounds() {
    }

    proof fn lemma_from(v: int) {
    }

    open spec fn spec_bits() -> int {
        u128::BITS as int
    }

    open spec fn bits_and(self, rhs: u128) -> u128 {
        self & rhs
    }

    open spec fn bits_or(self, rhs: u128) -> u128 {
        self | rhs
    }

    open spec fn bits_xor(self, rhs: u128) -> u128 {
        self ^ rhs
    }

    open spec fn bits_not(self) -> u128 {
        !self
    }

    open spec fn bits_shl(self, n: u128) -> u128 {
        self << n
    }

    open spec fn bits_shr(self, n: u128) -> u128 {
        self >> n
    }

    fn num_div_euclid(self, rhs: u128) -> (r: u128) {
        self.checked_div_euclid(rhs).unwrap()
    }

    fn num_rem_euclid(self, rhs: u128) -> (r: u128) {
        self.checked_rem_euclid(rhs).unwrap()
    }

    fn num_bitand(self, rhs: u128) -> (r: u128) {
        self & rhs
    }

    fn num_bitor(self, rhs: u128) -> (r: u128) {
        self | rhs
    }

    fn num_bitxor(self, rhs: u128) -> (r: u128) {
        self ^ rhs
    }

    fn num_not(self) -> (r: u128) {
        !self
    }

    fn num_shl(self, n: u128) -> (r: u128) {
        self << n
    }

    fn num_shr(self, n: u128) -> (r: u128) {
        self >> n
    }


    fn num_eq(self, rhs: u128) -> (r: bool) {
        self == rhs
    }

    fn num_ne(self, rhs: u128) -> (r: bool) {
        self != rhs
    }

    fn num_lt(self, rhs: u128) -> (r: bool) {
        self < rhs
    }

    fn num_le(self, rhs: u128) -> (r: bool) {
        self <= rhs
    }

    fn num_gt(self, rhs: u128) -> (r: bool) {
        self > rhs
    }

    fn num_ge(self, rhs: u128) -> (r: bool) {
        self >= rhs
    }

    fn num_min(self, rhs: u128) -> (r: u128) {
        if rhs < self {
            rhs
        } else {
            self
        }
    }

    fn num_max(self, rhs: u128) -> (r: u128) {
        if rhs < self {
            self
        } else {
            rhs
        }
    }

    fn num_add(self, rhs: u128) -> (r: u128) {
        self + rhs
    }

    fn num_sub(self, rhs: u128) -> (r: u128) {
        self - rhs
    }

    fn num_mul(self, rhs: u128) -> (r: u128) {
        self * rhs
    }

    fn num_div(self, rhs: u128) -> (r: u128) {
        self.checked_div(rhs).unwrap()
    }

    fn num_rem(self, rhs: u128) -> (r: u128) {
        proof {
            if self == 0 {
                lemma_small_mod(0, rhs as nat);
            }
        }
        self.checked_rem(rhs).unwrap()
    }

    fn checked_add(self, rhs: u128) -> (r: Option<u128>) {
        self.checked_add(rhs)
    }

    fn checked_sub(self, rhs: u128) -> (r: Option<u128>) {
        self.checked_sub(rhs)
    }

    fn checked_mul(self, rhs: u128) -> (r: Option<u128>) {
        self.checked_mul(rhs)
    }

    fn checked_div(self, rhs: u128) -> (r: Option<u128>) {
        self.checked_div(rhs)
    }

    fn wrapping_add(self, rhs: u128) -> (r: u128) {
        proof {
            lemma_mod_near(
                self + rhs - (u128::MIN as int),
                (u128::MAX as int) - (u128::MIN as int) + 1,
            );
        }
        self.wrapping_add(rhs)
    }

    fn wrapping_sub(self, rhs: u128) -> (r: u128) {
        proof {
            lemma_mod_near(
                self - rhs - (u128::MIN as int),
                (u128::MAX as int) - (u128::MIN as int) + 1,
            );
        }
        self.wrapping_sub(rhs)
    }

    fn wrapping_mul(self, rhs: u128) -> (r: u128) {
        proof {
            lemma_mod_bound(self * rhs, 0x1_0000_0000_0000_0000_0000_0000_0000_0000int);
        }
        self.wrapping_mul(rhs)
    }

    fn wrapping_div(self, rhs: u128) -> (r: u128) {
        proof {
            lemma_mod_near(
                spec_trunc_div(self as int, rhs as int) - (u128::MIN as int),
                (u128::MAX as int) - (u128::MIN as int) + 1,
            );
        }
        self.checked_div(rhs).unwrap()
    }

    fn saturating_add(self, rhs: u128) -> (r: u128) {
        match self.checked_add(rhs) {
            Some(v) => v,
            None => u128::MAX,
        }
    }

    fn saturating_sub(self, rhs: u128) -> (r: u128) {
        match self.checked_sub(rhs) {
            Some(v) => v,
            None => u128::MIN,
        }
    }

    fn saturating_mul(self, rhs: u128) -> (r: u128) {
        match self.checked_mul(rhs) {
            Some(v) => v,
            None => {
                assert(self * rhs >= 0) by (nonlinear_arith);
                u128::MAX
            },
        }
    }

    fn saturating_div(self, rhs: u128) -> (r: u128) {
        self.checked_div(rhs).unwrap()
    }
}

impl Integer for usize {
    open spec fn spec_val(self) -> int {
        self as int
    }

    open spec fn spec_min() -> int {
        usize::MIN as int
    }

    open spec fn spec_max() -> int {
        usize::MAX as int
    }

    open spec fn spec_from(v: int) -> usize {
        v as usize
    }

    proof fn lemma_range(x: usize) {
    }

    proof fn lemma_bounds() {
    }

    proof fn lemma_from(v: int) {
    }

    open spec fn spec_bits() -> int {
        usize::BITS as int
    }

    open spec fn bits_and(self, rhs: usize) -> usize {
        self & rhs
    }

    open spec fn bits_or(self, rhs: usize) -> usize {
        self | rhs
    }

    open spec fn bits_xor(self, rhs: usize) -> usize {
        self ^ rhs
    }

    open spec fn bits_not(self) -> usize {
        !self
    }

    open spec fn bits_shl(self, n: usize) -> usize {
        self << n
    }

    open spec fn bits_shr(self, n: usize) -> usize {
        self >> n
    }

    fn num_div_euclid(self, rhs: usize) -> (r: usize) {
        self.checked_div_euclid(rhs).unwrap()
    }

    fn num_rem_euclid(self, rhs: usize) -> (r: usize) {
        self.checked_rem_euclid(rhs).unwrap()
    }

    fn num_bitand(self, rhs: usize) -> (r: usize) {
        self & rhs
    }

    fn num_bitor(self, rhs: usize) -> (r: usize) {
        self | rhs
    }

    fn num_bitxor(self, rhs: usize) -> (r: usize) {
        self ^ rhs
    }

    fn num_not(self) -> (r: usize) {
        !self
    }

    fn num_shl(self, n: usize) -> (r: usize) {
        self << n
    }

    fn num_shr(self, n: usize) -> (r: usize) {
        self >> n
    }


    fn num_eq(self, rhs: usize) -> (r: bool) {
        self == rhs
    }

    fn num_ne(self, rhs: usize) -> (r: bool) {
        self != rhs
    }

    fn num_lt(self, rhs: usize) -> (r: bool) {
        self < rhs
    }

    fn num_le(self, rhs: usize) -> (r: bool) {
        self <= rhs
    }

    fn num_gt(self, rhs: usize) -> (r: bool) {
        self > rhs
    }

    fn num_ge(self, rhs: usize) -> (r: bool) {
        self >= rhs
    }

    fn num_min(self, rhs: usize) -> (r: usize) {
        if rhs < self {
            rhs
        } else {
            self
        }
    }

    fn num_max(self, rhs: usize) -> (r: usize) {
        if rhs < self {
            self
        } else {
            rhs
        }
    }

    fn num_add(self, rhs: usize) -> (r: usize) {
        self + rhs
    }

    fn num_sub(self, rhs: usize) -> (r: usize) {
        self - rhs
    }

    fn num_mul(self, rhs: usize) -> (r: usize) {
        self * rhs
    }

    fn num_div(self, rhs: usize) -> (r: usize) {
        self.checked_div(rhs).unwrap()
    }

    fn num_rem(self, rhs: usize) -> (r: usize) {
        proof {
            if self == 0 {
                lemma_small_mod(0, rhs as nat);
            }
        }
        self.checked_rem(rhs).unwrap()
    }

    fn checked_add(self, rhs: usize) -> (r: Option<usize>) {
        self.checked_add(rhs)
    }

    fn checked_sub(self, rhs: usize) -> (r: Option<usize>) {
        self.checked_sub(rhs)
    }

    fn checked_mul(self, rhs: usize) -> (r: Option<usize>) {
        self.checked_mul(rhs)
    }

    fn checked_div(self, rhs: usize) -> (r: Option<usize>) {
        self.checked_div(rhs)
    }

    fn wrapping_add(self, rhs: usize) -> (r: usize) {
        proof {
            lemma_mod_near(
                self + rhs - (usize::MIN as int),
                (usize::MAX as int) - (usize::MIN as int) + 1,
            );
        }
        self.wrapping_add(rhs)
    }

    fn wrapping_sub(self, rhs: usize) -> (r: usize) {
        proof {
            lemma_mod_near(
                self - rhs - (usize::MIN as int),
                (usize::MAX as int) - (usize::MIN as int) + 1,
            );
        }
        self.wrapping_sub(rhs)
    }

    fn wrapping_mul(self, rhs: usize) -> (r: usize) {
        proof {
            lemma_mod_bound(self * rhs, (usize::MAX as int + 1));
        }
        self.wrapping_mul(rhs)
    }

    fn wrapping_div(self, rhs: usize) -> (r: usize) {
        proof {
            lemma_mod_near(
                spec_trunc_div(self as int, rhs as int) - (usize::MIN as int),
                (usize::MAX as int) - (usize::MIN as int) + 1,
            );
        }
        self.checked_div(rhs).unwrap()
    }

    fn saturating_add(self, rhs: usize) -> (r: usize) {
        match self.checked_add(rhs) {
            Some(v) => v,
            None => usize::MAX,
        }
    }

    fn saturating_sub(self, rhs: usize) -> (r: usize) {
        match self.checked_sub(rhs) {
            Some(v) => v,
            None => usize::MIN,
        }
    }

    fn saturating_mul(self, rhs: usize) -> (r: usize) {
        match self.checked_mul(rhs) {
            Some(v) => v,
            None => {
                assert(self * rhs >= 0) by (nonlinear_arith);
                usize::MAX
            },
        }
    }

    fn saturating_div(self, rhs: usize) -> (r: usize) {
        self.checked_div(rhs).unwrap()
    }
}


/// A signed integer element type.
pub trait SignedInteger: Integer {
    /// The unsigned type of the same width, which holds every distance
    /// between two values of `Self`.
    type Unsigned: Integer;

    /// `-self`; `self` must not be the least value.
    fn num_neg(self) -> (r: Self)
        requires
            self.spec_val() != Self::spec_min(),
        ensures
            r.spec_val() == -self.spec_val(),
    ;

    /// The absolute value of `self`; `self` must not be the least value.
    fn num_abs(self) -> (r: Self)
        requires
            self.spec_val() != Self::spec_min(),
        ensures
            r.spec_val() == (if self.spec_val() < 0 {
                -self.spec_val()
            } else {
                self.spec_val()
            }),
    ;

    /// The sign of `self`: `-1`, `0` or `1`.
    fn num_signum(self) -> (r: Self)
        ensures
            r.spec_val() == (if self.spec_val() < 0 {
                -1int
            } else if self.spec_val() > 0 {
                1int
            } else {
                0int
            }),
    ;

    /// The distance between `self` and `rhs`, as an unsigned value.
    fn abs_diff(self, rhs: Self) -> (r: Self::Unsigned)
        ensures
            r.spec_val() == (if self.spec_val() < rhs.spec_val() {
                rhs.spec_val() - self.spec_val()
            } else {
                self.spec_val() - rhs.spec_val()
            }),
    ;
}

impl SignedInteger for i8 {
    type Unsigned = u8;

    fn num_neg(self) -> (r: i8) {
        -self
    }

    fn num_abs(self) -> (r: i8) {
        if self < 0 {
            -self
        } else {
            self
        }
    }

    fn num_signum(self) -> (r: i8) {
        if self < 0 {
            -1
        } else if self > 0 {
            1
        } else {
            0
        }
    }

    fn abs_diff(self, rhs: i8) -> (r: u8) {
        if self < rhs {
            ((rhs as i16) - (self as i16)) as u8
        } else {
            ((self as i16) - (rhs as i16)) as u8
        }
    }
}

impl SignedInteger for i16 {
    type Unsigned = u16;

    fn num_neg(self) -> (r: i16) {
        -self
    }

    fn num_abs(self) -> (r: i16) {
        if self < 0 {
            -self
        } else {
            self
        }
    }

    fn num_signum(self) -> (r: i16) {
        if self < 0 {
            -1
        } else if self > 0 {
            1
        } else {
            0
        }
    }

    fn abs_diff(self, rhs: i16) -> (r: u16) {
        if self < rhs {
            ((rhs as i32) - (self as i32)) as u16
        } else {
            ((self as i32) - (rhs as i32)) as u16
        }
    }
}

impl SignedInteger for i32 {
    type Unsigned = u32;

    fn num_neg(self) -> (r: i32) {
        -self
    }

    fn num_abs(self) -> (r: i32) {
        if self < 0 {
            -self
        } else {
            self
        }
    }

    fn num_signum(self) -> (r: i32) {
        if self < 0 {
            -1
        } else if self > 0 {
            1
        } else {
            0
        }
    }

    fn abs_diff(self, rhs: i32) -> (r: u32) {
        if self < rhs {
            ((rhs as i64) - (self as i64)) as u32
        } else {
            ((self as i64) - (rhs as i64)) as u32
        }
    }
}

impl SignedInteger for i64 {
    type Unsigned = u64;

    fn num_neg(self) -> (r: i64) {
        -self
    }

    fn num_abs(self) -> (r: i64) {
        if self < 0 {
            -self
        } else {
            self
        }
    }

    fn num_signum(self) -> (r: i64) {
        if self < 0 {
            -1
        } else if self > 0 {
            1
        } else {
            0
        }
    }

    fn abs_diff(self, rhs: i64) -> (r: u64) {
        if self < rhs {
            ((rhs as i128) - (self as i128)) as u64
        } else {
            ((self as i128) - (rhs as i128)) as u64
        }
    }
}

impl SignedInteger for i128 {
    type Unsigned = u128;

    fn num_neg(self) -> (r: i128) {
        -self
    }

    fn num_abs(self) -> (r: i128) {
        if self < 0 {
            -self
        } else {
            self
        }
    }

    fn num_signum(self) -> (r: i128) {
        if self < 0 {
            -1
        } else if self > 0 {
            1
        } else {
            0
        }
    }

    fn abs_diff(self, rhs: i128) -> (r: u128) {
        if self < rhs {
            let d = (rhs as u128).wrapping_sub(self as u128);
            assert(d as int == rhs - self) by (bit_vector)
                requires
                    self < rhs,
                    d == (rhs as u128).wrapping_sub(self as u128),
            ;
            d
        } else {
            let d = (self as u128).wrapping_sub(rhs as u128);
            assert(d as int == self - rhs) by (bit_vector)
                requires
                    rhs <= self,
                    d == (self as u128).wrapping_sub(rhs as u128),
            ;
            d
        }
    }
}

impl SignedInteger for isize {
    type Unsigned = usize;

    fn num_neg(self) -> (r: isize) {
        -self
    }

    fn num_abs(self) -> (r: isize) {
        if self < 0 {
            -self
        } else {
            self
        }
    }

    fn num_signum(self) -> (r: isize) {
        if self < 0 {
            -1
        } else if self > 0 {
            1
        } else {
            0
        }
    }

    fn abs_diff(self, rhs: isize) -> (r: usize) {
        if self < rhs {
            ((rhs as i128) - (self as i128)) as usize
        } else {
            ((self as i128) - (rhs as i128)) as usize
        }
    }
}

} // verus!
