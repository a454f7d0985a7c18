//! Products and quotients of 4D vectors of integers with a scalar.
use vstd::prelude::*;

use crate::num::{Integer, spec_in_range, spec_trunc_div};
use crate::vector::{GVec4, spec_from_vals};
use vstd::std_specs::ops::MulSpec;

verus! {

impl<T: Integer> core::ops::Mul<T> for GVec4<T> {
    type Output = GVec4<T>;

    /// Multiplies each component by `rhs`; no product may overflow.
    fn mul(self, rhs: T) -> (r: GVec4<T>) {
        let r = GVec4::new(
            self.x.num_mul(rhs),
            self.y.num_mul(rhs),
            self.z.num_mul(rhs),
            self.w.num_mul(rhs),
        );
        proof {
            T::lemma_range(r.x);
            T::lemma_range(r.y);
            T::lemma_range(r.z);
            T::lemma_range(r.w);
        }
        r
    }
}

impl<T: Integer> vstd::std_specs::ops::MulSpecImpl<T> for GVec4<T> {
    open spec fn obeys_mul_spec() -> bool {
        true
    }

    open spec fn mul_req(self, rhs: T) -> bool {
        spec_in_range::<T>(self.x.spec_val() * rhs.spec_val()) &&
        spec_in_range::<T>(self.y.spec_val() * rhs.spec_val()) &&
        spec_in_range::<T>(self.z.spec_val() * rhs.spec_val()) &&
        spec_in_range::<T>(self.w.spec_val() * rhs.spec_val())
    }

    open spec fn mul_spec(self, rhs: T) -> GVec4<T> {
        spec_from_vals::<T>(
            self.x.spec_val() * rhs.spec_val(),
            self.y.spec_val() * rhs.spec_val(),
            self.z.spec_val() * rhs.spec_val(),
            self.w.spec_val() * rhs.spec_val(),
        )
    }
}

impl<T: Integer> core::ops::Div<T> for GVec4<T> {
    type Output = GVec4<T>;

    /// Divides each component by `rhs`, rounding toward zero; `rhs` must not
    /// be zero and no quotient may overflow.
    fn div(self, rhs: T) -> (r: GVec4<T>) {
        let r = GVec4::new(
            self.x.num_div(rhs),
            self.y.num_div(rhs),
            self.z.num_div(rhs),
            self.w.num_div(rhs),
        );
        proof {
            T::lemma_range(r.x);
            T::lemma_range(r.y);
            T::lemma_range(r.z);
            T::lemma_range(r.w);
        }
        r
    }
}

impl<T: Integer> vstd::std_specs::ops::DivSpecImpl<T> for GVec4<T> {
    open spec fn obeys_div_spec() -> bool {
        true
    }

    open spec fn div_req(self, rhs: T) -> bool {
        rhs.spec_val() != 0 &&
        spec_in_range::<T>(spec_trunc_div(self.x.spec_val(), rhs.spec_val())) &&
        spec_in_range::<T>(spec_trunc_div(self.y.spec_val(), rhs.spec_val())) &&
        spec_in_range::<T>(spec_trunc_div(self.z.spec_val(), rhs.spec_val())) &&
        spec_in_range::<T>(spec_trunc_div(self.w.spec_val(), rhs.spec_val()))
    }

    open spec fn div_spec(self, rhs: T) -> GVec4<T> {
        spec_from_vals::<T>(
            spec_trunc_div(self.x.spec_val(), rhs.spec_val()),
            spec_trunc_div(self.y.spec_val(), rhs.spec_val()),
            spec_trunc_div(self.z.spec_val(), rhs.spec_val()),
            spec_trunc_div(self.w.spec_val(), rhs.spec_val()),
        )
    }
}


impl core::ops::Mul<GVec4<i8>> for i8 {
    type Output = GVec4<i8>;

    /// Multiplies each component of `rhs` by `self`; no product may overflow.
    fn mul(self, rhs: GVec4<i8>) -> (r: GVec4<i8>) {
        GVec4::new(self * rhs.x, self * rhs.y, self * rhs.z, self * rhs.w)
    }
}

impl vstd::std_specs::ops::MulSpecImpl<GVec4<i8>> for i8 {
    open spec fn obeys_mul_spec() -> bool {
        true
    }

    open spec fn mul_req(self, rhs: GVec4<i8>) -> bool {
        i8::MIN <= self * rhs.x <= i8::MAX &&
        i8::MIN <= self * rhs.y <= i8::MAX &&
        i8::MIN <= self * rhs.z <= i8::MAX &&
        i8::MIN <= self * rhs.w <= i8::MAX
    }

    open spec fn mul_spec(self, rhs: GVec4<i8>) -> GVec4<i8> {
        GVec4 {
            x: (self * rhs.x) as i8,
            y: (self * rhs.y) as i8,
            z: (self * rhs.z) as i8,
            w: (self * rhs.w) as i8,
        }
    }
}


impl core::ops::Mul<GVec4<i16>> for i16 {
    type Output = GVec4<i16>;

    /// Multiplies each component of `rhs` by `self`; no product may overflow.
    fn mul(self, rhs: GVec4<i16>) -> (r: GVec4<i16>) {
        GVec4::new(self * rhs.x, self * rhs.y, self * rhs.z, self * rhs.w)
    }
}

impl vstd::std_specs::ops::MulSpecImpl<GVec4<i16>> for i16 {
    open spec fn obeys_mul_spec() -> bool {
        true
    }

    open spec fn mul_req(self, rhs: GVec4<i16>) -> bool {
        i16::MIN <= self * rhs.x <= i16::MAX &&
        i16::MIN <= self * rhs.y <= i16::MAX &&
        i16::MIN <= self * rhs.z <= i16::MAX &&
        i16::MIN <= self * rhs.w <= i16::MAX
    }

    open spec fn mul_spec(self, rhs: GVec4<i16>) -> GVec4<i16> {
        GVec4 {
            x: (self * rhs.x) as i16,
            y: (self * rhs.y) as i16,
            z: (self * rhs.z) as i16,
            w: (self * rhs.w) as i16,
        }
    }
}


impl core::ops::Mul<GVec4<i32>> for i32 {
    type Output = GVec4<i32>;

    /// Multiplies each component of `rhs` by `self`; no product may overflow.
    fn mul(self, rhs: GVec4<i32>) -> (r: GVec4<i32>) {
        GVec4::new(self * rhs.x, self * rhs.y, self * rhs.z, self * rhs.w)
    }
}

impl vstd::std_specs::ops::MulSpecImpl<GVec4<i32>> for i32 {
    open spec fn obeys_mul_spec() -> bool {
        true
    }

    open spec fn mul_req(self, rhs: GVec4<i32>) -> bool {
        i32::MIN <= self * rhs.x <= i32::MAX &&
        i32::MIN <= self * rhs.y <= i32::MAX &&
        i32::MIN <= self * rhs.z <= i32::MAX &&
        i32::MIN <= self * rhs.w <= i32::MAX
    }

    open spec fn mul_spec(self, rhs: GVec4<i32>) -> GVec4<i32> {
        GVec4 {
            x: (self * rhs.x) as i32,
            y: (self * rhs.y) as i32,
            z: (self * rhs.z) as i32,
            w: (self * rhs.w) as i32,
        }
    }
}


impl core::ops::Mul<GVec4<i64>> for i64 {
    type Output = GVec4<i64>;

    /// Multiplies each component of `rhs` by `self`; no product may overflow.
    fn mul(self, rhs: GVec4<i64>) -> (r: GVec4<i64>) {
        GVec4::new(self * rhs.x, self * rhs.y, self * rhs.z, self * rhs.w)
    }
}

impl vstd::std_specs::ops::MulSpecImpl<GVec4<i64>> for i64 {
    open spec fn obeys_mul_spec() -> bool {
        true
    }

    open spec fn mul_req(self, rhs: GVec4<i64>) -> bool {
        i64::MIN <= self * rhs.x <= i64::MAX &&
        i64::MIN <= self * rhs.y <= i64::MAX &&
        i64::MIN <= self * rhs.z <= i64::MAX &&
        i64::MIN <= self * rhs.w <= i64::MAX
    }

    open spec fn mul_spec(self, rhs: GVec4<i64>) -> GVec4<i64> {
        GVec4 {
            x: (self * rhs.x) as i64,
            y: (self * rhs.y) as i64,
            z: (self * rhs.z) as i64,
            w: (self * rhs.w) as i64,
        }
    }
}


impl core::ops::Mul<GVec4<i128>> for i128 {
    type Output = GVec4<i128>;

    /// Multiplies each component of `rhs` by `self`; no product may overflow.
    fn mul(self, rhs: GVec4<i128>) -> (r: GVec4<i128>) {
        GVec4::new(self * rhs.x, self * rhs.y, self * rhs.z, self * rhs.w)
    }
}

impl vstd::std_specs::ops::MulSpecImpl<GVec4<i128>> for i128 {
    open spec fn obeys_mul_spec() -> bool {
        true
    }

    open spec fn mul_req(self, rhs: GVec4<i128>) -> bool {
        i128::MIN <= self * rhs.x <= i128::MAX &&
        i128::MIN <= self * rhs.y <= i128::MAX &&
        i128::MIN <= self * rhs.z <= i128::MAX &&
        i128::MIN <= self * rhs.w <= i128::MAX
    }

    open spec fn mul_spec(self, rhs: GVec4<i128>) -> GVec4<i128> {
        GVec4 {
            x: (self * rhs.x) as i128,
            y: (self * rhs.y) as i128,
            z: (self * rhs.z) as i128,
            w: (self * rhs.w) as i128,
        }
    }
}


impl core::ops::Mul<GVec4<isize>> for isize {
    type Output = GVec4<isize>;

    /// Multiplies each component of `rhs` by `self`; no product may overflow.
    fn mul(self, rhs: GVec4<isize>) -> (r: GVec4<isize>) {
        GVec4::new(self * rhs.x, self * rhs.y, self * rhs.z, self * rhs.w)
    }
}

impl vstd::std_specs::ops::MulSpecImpl<GVec4<isize>> for isize {
    open spec fn obeys_mul_spec() -> bool {
        true
    }

    open spec fn mul_req(self, rhs: GVec4<isize>) -> bool {
        isize::MIN <= self * rhs.x <= isize::MAX &&
        isize::MIN <= self * rhs.y <= isize::MAX &&
        isize::MIN <= self * rhs.z <= isize::MAX &&
        isize::MIN <= self * rhs.w <= isize::MAX
    }

    open spec fn mul_spec(self, rhs: GVec4<isize>) -> GVec4<isize> {
        GVec4 {
            x: (self * rhs.x) as isize,
            y: (self * rhs.y) as isize,
            z: (self * rhs.z) as isize,
            w: (self * rhs.w) as isize,
        }
    }
}


impl core::ops::Mul<GVec4<u8>> for u8 {
    type Output = GVec4<u8>;

    /// Multiplies each component of `rhs` by `self`; no product may overflow.
    fn mul(self, rhs: GVec4<u8>) -> (r: GVec4<u8>) {
        GVec4::new(self * rhs.x, self * rhs.y, self * rhs.z, self * rhs.w)
    }
}

impl vstd::std_specs::ops::MulSpecImpl<GVec4<u8>> for u8 {
    open spec fn obeys_mul_spec() -> bool {
        true
    }

    open spec fn mul_req(self, rhs: GVec4<u8>) -> bool {
        u8::MIN <= self * rhs.x <= u8::MAX &&
        u8::MIN <= self * rhs.y <= u8::MAX &&
        u8::MIN <= self * rhs.z <= u8::MAX &&
        u8::MIN <= self * rhs.w <= u8::MAX
    }

    open spec fn mul_spec(self, rhs: GVec4<u8>) -> GVec4<u8> {
        GVec4 {
            x: (self * rhs.x) as u8,
            y: (self * rhs.y) as u8,
            z: (self * rhs.z) as u8,
            w: (self * rhs.w) as u8,
        }
    }
}


impl core::ops::Mul<GVec4<u16>> for u16 {
    type Output = GVec4<u16>;

    /// Multiplies each component of `rhs` by `self`; no product may overflow.
    fn mul(self, rhs: GVec4<u16>) -> (r: GVec4<u16>) {
        GVec4::new(self * rhs.x, self * rhs.y, self * rhs.z, self * rhs.w)
    }
}

impl vstd::std_specs::ops::MulSpecImpl<GVec4<u16>> for u16 {
    open spec fn obeys_mul_spec() -> bool {
        true
    }

    open spec fn mul_req(self, rhs: GVec4<u16>) -> bool {
        u16::MIN <= self * rhs.x <= u16::MAX &&
        u16::MIN <= self * rhs.y <= u16::MAX &&
        u16::MIN <= self * rhs.z <= u16::MAX &&
        u16::MIN <= self * rhs.w <= u16::MAX
    }

    open spec fn mul_spec(self, rhs: GVec4<u16>) -> GVec4<u16> {
        GVec4 {
            x: (self * rhs.x) as u16,
            y: (self * rhs.y) as u16,
            z: (self * rhs.z) as u16,
            w: (self * rhs.w) as u16,
        }
    }
}


impl core::ops::Mul<GVec4<u32>> for u32 {
    type Output = GVec4<u32>;

    /// Multiplies each component of `rhs` by `self`; no product may overflow.
    fn mul(self, rhs: GVec4<u32>) -> (r: GVec4<u32>) {
        GVec4::new(self * rhs.x, self * rhs.y, self * rhs.z, self * rhs.w)
    }
}

impl vstd::std_specs::ops::MulSpecImpl<GVec4<u32>> for u32 {
    open spec fn obeys_mul_spec() -> bool {
        true
    }

    open spec fn mul_req(self, rhs: GVec4<u32>) -> bool {
        u32::MIN <= self * rhs.x <= u32::MAX &&
        u32::MIN <= self * rhs.y <= u32::MAX &&
        u32::MIN <= self * rhs.z <= u32::MAX &&
        u32::MIN <= self * rhs.w <= u32::MAX
    }

    open spec fn mul_spec(self, rhs: GVec4<u32>) -> GVec4<u32> {
        GVec4 {
            x: (self * rhs.x) as u32,
            y: (self * rhs.y) as u32,
            z: (self * rhs.z) as u32,
            w: (self * rhs.w) as u32,
        }
    }
}


impl core::ops::Mul<GVec4<u64>> for u64 {
    type Output = GVec4<u64>;

    /// Multiplies each component of `rhs` by `self`; no product may overflow.
    fn mul(self, rhs: GVec4<u64>) -> (r: GVec4<u64>) {
        GVec4::new(self * rhs.x, self * rhs.y, self * rhs.z, self * rhs.w)
    }
}

impl vstd::std_specs::ops::MulSpecImpl<GVec4<u64>> for u64 {
    open spec fn obeys_mul_spec() -> bool {
        true
    }

    open spec fn mul_req(self, rhs: GVec4<u64>) -> bool {
        u64::MIN <= self * rhs.x <= u64::MAX &&
        u64::MIN <= self * rhs.y <= u64::MAX &&
        u64::MIN <= self * rhs.z <= u64::MAX &&
        u64::MIN <= self * rhs.w <= u64::MAX
    }

    open spec fn mul_spec(self, rhs: GVec4<u64>) -> GVec4<u64> {
        GVec4 {
            x: (self * rhs.x) as u64,
            y: (self * rhs.y) as u64,
            z: (self * rhs.z) as u64,
            w: (self * rhs.w) as u64,
        }
    }
}


impl core::ops::Mul<GVec4<u128>> for u128 {
    type Output = GVec4<u128>;

    /// Multiplies each component of `rhs` by `self`; no product may overflow.
    fn mul(self, rhs: GVec4<u128>) -> (r: GVec4<u128>) {
        GVec4::new(self * rhs.x, self * rhs.y, self * rhs.z, self * rhs.w)
    }
}

impl vstd::std_specs::ops::MulSpecImpl<GVec4<u128>> for u128 {
    open spec fn obeys_mul_spec() -> bool {
        true
    }

    open spec fn mul_req(self, rhs: GVec4<u128>) -> bool {
        u128::MIN <= self * rhs.x <= u128::MAX &&
        u128::MIN <= self * rhs.y <= u128::MAX &&
        u128::MIN <= self * rhs.z <= u128::MAX &&
        u128::MIN <= self * rhs.w <= u128::MAX
    }

    open spec fn mul_spec(self, rhs: GVec4<u128>) -> GVec4<u128> {
        GVec4 {
            x: (self * rhs.x) as u128,
            y: (self * rhs.y) as u128,
            z: (self * rhs.z) as u128,
            w: (self * rhs.w) as u128,
        }
    }
}


impl core::ops::Mul<GVec4<usize>> for usize {
    type Output = GVec4<usize>;

    /// Multiplies each component of `rhs` by `self`; no product may overflow.
    fn mul(self, rhs: GVec4<usize>) -> (r: GVec4<usize>) {
        GVec4::new(self * rhs.x, self * rhs.y, self * rhs.z, self * rhs.w)
    }
}

impl vstd::std_specs::ops::MulSpecImpl<GVec4<usize>> for usize {
    open spec fn obeys_mul_spec() -> bool {
        true
    }

    open spec fn mul_req(self, rhs: GVec4<usize>) -> bool {
        usize::MIN <= self * rhs.x <= usize::MAX &&
        usize::MIN <= self * rhs.y <= usize::MAX &&
        usize::MIN <= self * rhs.z <= usize::MAX &&
        usize::MIN <= self * rhs.w <= usize::MAX
    }

    open spec fn mul_spec(self, rhs: GVec4<usize>) -> GVec4<usize> {
        GVec4 {
            x: (self * rhs.x) as usize,
            y: (self * rhs.y) as usize,
            z: (self * rhs.z) as usize,
            w: (self * rhs.w) as usize,
        }
    }
}


/// Multiplying a vector of `i8` by a scalar from the left multiplies
/// every component by it, and gives the same vector as multiplying from the
/// right, whenever no product overflows.
pub proof fn lemma_i8_scalar_mul(s: i8, v: GVec4<i8>)
    requires
        i8::MIN <= s * v.x <= i8::MAX,
        i8::MIN <= s * v.y <= i8::MAX,
        i8::MIN <= s * v.z <= i8::MAX,
        i8::MIN <= s * v.w <= i8::MAX,
    ensures
        s.mul_spec(v).x as int == s * v.x,
        s.mul_spec(v).y as int == s * v.y,
        s.mul_spec(v).z as int == s * v.z,
        s.mul_spec(v).w as int == s * v.w,
        s.mul_spec(v) == v.mul_spec(s),
{
    assert(s * v.x == v.x * s && s * v.y == v.y * s && s * v.z == v.z * s && s * v.w == v.w * s)
        by (nonlinear_arith);
}

/// Multiplying a vector of `i16` by a scalar from the left multiplies
/// every component by it, and gives the same vector as multiplying from the
/// right, whenever no product overflows.
pub proof fn lemma_i16_scalar_mul(s: i16, v: GVec4<i16>)
    requires
        i16::MIN <= s * v.x <= i16::MAX,
        i16::MIN <= s * v.y <= i16::MAX,
        i16::MIN <= s * v.z <= i16::MAX,
        i16::MIN <= s * v.w <= i16::MAX,
    ensures
        s.mul_spec(v).x as int == s * v.x,
        s.mul_spec(v).y as int == s * v.y,
        s.mul_spec(v).z as int == s * v.z,
        s.mul_spec(v).w as int == s * v.w,
        s.mul_spec(v) == v.mul_spec(s),
{
    assert(s * v.x == v.x * s && s * v.y == v.y * s && s * v.z == v.z * s && s * v.w == v.w * s)
        by (nonlinear_arith);
}

/// Multiplying a vector of `i32` by a scalar from the left multiplies
/// every component by it, and gives the same vector as multiplying from the
/// right, whenever no product overflows.
pub proof fn lemma_i32_scalar_mul(s: i32, v: GVec4<i32>)
    requires
        i32::MIN <= s * v.x <= i32::MAX,
        i32::MIN <= s * v.y <= i32::MAX,
        i32::MIN <= s * v.z <= i32::MAX,
        i32::MIN <= s * v.w <= i32::MAX,
    ensures
        s.mul_spec(v).x as int == s * v.x,
        s.mul_spec(v).y as int == s * v.y,
        s.mul_spec(v).z as int == s * v.z,
        s.mul_spec(v).w as int == s * v.w,
        s.mul_spec(v) == v.mul_spec(s),
{
    assert(s * v.x == v.x * s && s * v.y == v.y * s && s * v.z == v.z * s && s * v.w == v.w * s)
        by (nonlinear_arith);
}

/// Multiplying a vector of `i64` by a scalar from the left multiplies
/// every component by it, and gives the same vector as multiplying from the
/// right, whenever no product overflows.
pub proof fn lemma_i64_scalar_mul(s: i64, v: GVec4<i64>)
    requires
        i64::MIN <= s * v.x <= i64::MAX,
        i64::MIN <= s * v.y <= i64::MAX,
        i64::MIN <= s * v.z <= i64::MAX,
        i64::MIN <= s * v.w <= i64::MAX,
    ensures
        s.mul_spec(v).x as int == s * v.x,
        s.mul_spec(v).y as int == s * v.y,
        s.mul_spec(v).z as int == s * v.z,
        s.mul_spec(v).w as int == s * v.w,
        s.mul_spec(v) == v.mul_spec(s),
{
    assert(s * v.x == v.x * s && s * v.y == v.y * s && s * v.z == v.z * s && s * v.w == v.w * s)
        by (nonlinear_arith);
}

/// Multiplying a vector of `i128` by a scalar from the left multiplies
/// every component by it, and gives the same vector as multiplying from the
/// right, whenever no product overflows.
pub proof fn lemma_i128_scalar_mul(s: i128, v: GVec4<i128>)
    requires
        i128::MIN <= s * v.x <= i128::MAX,
        i128::MIN <= s * v.y <= i128::MAX,
        i128::MIN <= s * v.z <= i128::MAX,
        i128::MIN <= s * v.w <= i128::MAX,
    ensures
        s.mul_spec(v).x as int == s * v.x,
        s.mul_spec(v).y as int == s * v.y,
        s.mul_spec(v).z as int == s * v.z,
        s.mul_spec(v).w as int == s * v.w,
        s.mul_spec(v) == v.mul_spec(s),
{
    assert(s * v.x == v.x * s && s * v.y == v.y * s && s * v.z == v.z * s && s * v.w == v.w * s)
        by (nonlinear_arith);
}

/// Multiplying a vector of `isize` by a scalar from the left multiplies
/// every component by it, and gives the same vector as multiplying from the
/// right, whenever no product overflows.
pub proof fn lemma_isize_scalar_mul(s: isize, v: GVec4<isize>)
    requires
        isize::MIN <= s * v.x <= isize::MAX,
        isize::MIN <= s * v.y <= isize::MAX,
        isize::MIN <= s * v.z <= isize::MAX,
        isize::MIN <= s * v.w <= isize::MAX,
    ensures
        s.mul_spec(v).x as int == s * v.x,
        s.mul_spec(v).y as int == s * v.y,
        s.mul_spec(v).z as int == s * v.z,
        s.mul_spec(v).w as int == s * v.w,
        s.mul_spec(v) == v.mul_spec(s),
{
    assert(s * v.x == v.x * s && s * v.y == v.y * s && s * v.z == v.z * s && s * v.w == v.w * s)
        by (nonlinear_arith);
}

/// Multiplying a vector of `u8` by a scalar from the left multiplies
/// every component by it, and gives the same vector as multiplying from the
/// right, whenever no product overflows.
pub proof fn lemma_u8_scalar_mul(s: u8, v: GVec4<u8>)
    requires
        u8::MIN <= s * v.x <= u8::MAX,
        u8::MIN <= s * v.y <= u8::MAX,
        u8::MIN <= s * v.z <= u8::MAX,
        u8::MIN <= s * v.w <= u8::MAX,
    ensures
        s.mul_spec(v).x as int == s * v.x,
        s.mul_spec(v).y as int == s * v.y,
        s.mul_spec(v).z as int == s * v.z,
        s.mul_spec(v).w as int == s * v.w,
        s.mul_spec(v) == v.mul_spec(s),
{
    assert(s * v.x == v.x * s && s * v.y == v.y * s && s * v.z == v.z * s && s * v.w == v.w * s)
        by (nonlinear_arith);
}

/// Multiplying a vector of `u16` by a scalar from the left multiplies
/// every component by it, and gives the same vector as multiplying from the
/// right, whenever no product overflows.
pub proof fn lemma_u16_scalar_mul(s: u16, v: GVec4<u16>)
    requires
        u16::MIN <= s * v.x <= u16::MAX,
        u16::MIN <= s * v.y <= u16::MAX,
        u16::MIN <= s * v.z <= u16::MAX,
        u16::MIN <= s * v.w <= u16::MAX,
    ensures
        s.mul_spec(v).x as int == s * v.x,
        s.mul_spec(v).y as int == s * v.y,
        s.mul_spec(v).z as int == s * v.z,
        s.mul_spec(v).w as int == s * v.w,
        s.mul_spec(v) == v.mul_spec(s),
{
    assert(s * v.x == v.x * s && s * v.y == v.y * s && s * v.z == v.z * s && s * v.w == v.w * s)
        by (nonlinear_arith);
}

/// Multiplying a vector of `u32` by a scalar from the left multiplies
/// every component by it, and gives the same vector as multiplying from the
/// right, whenever no product overflows.
pub proof fn lemma_u32_scalar_mul(s: u32, v: GVec4<u32>)
    requires
        u32::MIN <= s * v.x <= u32::MAX,
        u32::MIN <= s * v.y <= u32::MAX,
        u32::MIN <= s * v.z <= u32::MAX,
        u32::MIN <= s * v.w <= u32::MAX,
    ensures
        s.mul_spec(v).x as int == s * v.x,
        s.mul_spec(v).y as int == s * v.y,
        s.mul_spec(v).z as int == s * v.z,
        s.mul_spec(v).w as int == s * v.w,
        s.mul_spec(v) == v.mul_spec(s),
{
    assert(s * v.x == v.x * s && s * v.y == v.y * s && s * v.z == v.z * s && s * v.w == v.w * s)
        by (nonlinear_arith);
}

/// Multiplying a vector of `u64` by a scalar from the left multiplies
/// every component by it, and gives the same vector as multiplying from the
/// right, whenever no product overflows.
pub proof fn lemma_u64_scalar_mul(s: u64, v: GVec4<u64>)
    requires
        u64::MIN <= s * v.x <= u64::MAX,
        u64::MIN <= s * v.y <= u64::MAX,
        u64::MIN <= s * v.z <= u64::MAX,
        u64::MIN <= s * v.w <= u64::MAX,
    ensures
        s.mul_spec(v).x as int == s * v.x,
        s.mul_spec(v).y as int == s * v.y,
        s.mul_spec(v).z as int == s * v.z,
        s.mul_spec(v).w as int == s * v.w,
        s.mul_spec(v) == v.mul_spec(s),
{
    assert(s * v.x == v.x * s && s * v.y == v.y * s && s * v.z == v.z * s && s * v.w == v.w * s)
        by (nonlinear_arith);
}

/// Multiplying a vector of `u128` by a scalar from the left multiplies
/// every component by it, and gives the same vector as multiplying from the
/// right, whenever no product overflows.
pub proof fn lemma_u128_scalar_mul(s: u128, v: GVec4<u128>)
    requires
        u128::MIN <= s * v.x <= u128::MAX,
        u128::MIN <= s * v.y <= u128::MAX,
        u128::MIN <= s * v.z <= u128::MAX,
        u128::MIN <= s * v.w <= u128::MAX,
    ensures
        s.mul_spec(v).x as int == s * v.x,
        s.mul_spec(v).y as int == s * v.y,
        s.mul_spec(v).z as int == s * v.z,
        s.mul_spec(v).w as int == s * v.w,
        s.mul_spec(v) == v.mul_spec(s),
{
    assert(s * v.x == v.x * s && s * v.y == v.y * s && s * v.z == v.z * s && s * v.w == v.w * s)
        by (nonlinear_arith);
}

/// Multiplying a vector of `usize` by a scalar from the left multiplies
/// every component by it, and gives the same vector as multiplying from the
/// right, whenever no product overflows.
pub proof fn lemma_usize_scalar_mul(s: usize, v: GVec4<usize>)
    requires
        usize::MIN <= s * v.x <= usize::MAX,
        usize::MIN <= s * v.y <= usize::MAX,
        usize::MIN <= s * v.z <= usize::MAX,
        usize::MIN <= s * v.w <= usize::MAX,
    ensures
        s.mul_spec(v).x as int == s * v.x,
        s.mul_spec(v).y as int == s * v.y,
        s.mul_spec(v).z as int == s * v.z,
        s.mul_spec(v).w as int == s * v.w,
        s.mul_spec(v) == v.mul_spec(s),
{
    assert(s * v.x == v.x * s && s * v.y == v.y * s && s * v.z == v.z * s && s * v.w == v.w * s)
        by (nonlinear_arith);
}

} // verus!
