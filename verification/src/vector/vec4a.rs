//! A SIMD-aligned 4D vector of binary32 components.
use vstd::prelude::*;

use crate::bits;
use crate::vector::GVec4;

verus! {

/// A 4-dimensional vector whose components are binary32 values, each held by
/// its bit encoding (see [`crate::bits`]).
#[derive(Clone, Copy)]
pub struct Vec4A {
    /// The encoding of the X component.
    pub x: u32,
    /// The encoding of the Y component.
    pub y: u32,
    /// The encoding of the Z component.
    pub z: u32,
    /// The encoding of the W component.
    pub w: u32,
}

impl Vec4A {
    /// The component at `i` (0 for X, 1 for Y, 2 for Z, 3 for W).
    pub open spec fn spec_lane(self, i: int) -> u32
        recommends
            0 <= i < 4,
    {
        if i == 0 {
            self.x
        } else if i == 1 {
            self.y
        } else if i == 2 {
            self.z
        } else {
            self.w
        }
    }

    /// The components in order.
    pub open spec fn spec_array(self) -> Seq<u32> {
        seq![self.x, self.y, self.z, self.w]
    }

    /// Some component encodes a NaN.
    pub open spec fn spec_is_nan(self) -> bool {
        bits::spec_is_nan(self.x) || bits::spec_is_nan(self.y) || bits::spec_is_nan(self.z)
            || bits::spec_is_nan(self.w)
    }

    /// Every component encodes a finite value.
    pub open spec fn spec_is_finite(self) -> bool {
        bits::spec_is_finite(self.x) && bits::spec_is_finite(self.y) && bits::spec_is_finite(
            self.z,
        ) && bits::spec_is_finite(self.w)
    }

    /// Component-wise absolute value.
    pub open spec fn spec_abs(self) -> Vec4A {
        Vec4A {
            x: bits::spec_abs(self.x),
            y: bits::spec_abs(self.y),
            z: bits::spec_abs(self.z),
            w: bits::spec_abs(self.w),
        }
    }

    /// Component-wise IEEE-754 equality.
    pub open spec fn spec_eq(self, rhs: Vec4A) -> bool {
        bits::spec_eq(self.x, rhs.x) && bits::spec_eq(self.y, rhs.y) && bits::spec_eq(
            self.z,
            rhs.z,
        ) && bits::spec_eq(self.w, rhs.w)
    }

    /// All zeros.
    pub fn zero() -> (r: Vec4A)
        ensures
            r == Vec4A::spec_splat(bits::ZERO_BITS),
    {
        Vec4A::splat(bits::ZERO_BITS)
    }

    /// All NaN.
    pub fn nan() -> (r: Vec4A)
        ensures
            r == Vec4A::spec_splat(bits::NAN_BITS),
    {
        Vec4A::splat(bits::NAN_BITS)
    }

    /// A unit vector pointing along the positive X axis.
    pub fn unit_x() -> (r: Vec4A)
        ensures
            r == (Vec4A {
                x: bits::ONE_BITS,
                y: bits::ZERO_BITS,
                z: bits::ZERO_BITS,
                w: bits::ZERO_BITS,
            }),
    {
        Vec4A { x: bits::ONE_BITS, y: bits::ZERO_BITS, z: bits::ZERO_BITS, w: bits::ZERO_BITS }
    }

    /// A unit vector pointing along the positive Y axis.
    pub fn unit_y() -> (r: Vec4A)
        ensures
            r == (Vec4A {
                x: bits::ZERO_BITS,
                y: bits::ONE_BITS,
                z: bits::ZERO_BITS,
                w: bits::ZERO_BITS,
            }),
    {
        Vec4A { x: bits::ZERO_BITS, y: bits::ONE_BITS, z: bits::ZERO_BITS, w: bits::ZERO_BITS }
    }

    /// A unit vector pointing along the positive Z axis.
    pub fn unit_z() -> (r: Vec4A)
        ensures
            r == (Vec4A {
                x: bits::ZERO_BITS,
                y: bits::ZERO_BITS,
                z: bits::ONE_BITS,
                w: bits::ZERO_BITS,
            }),
    {
        Vec4A { x: bits::ZERO_BITS, y: bits::ZERO_BITS, z: bits::ONE_BITS, w: bits::ZERO_BITS }
    }

    /// A unit vector pointing along the positive W axis.
    pub fn unit_w() -> (r: Vec4A)
        ensures
            r == (Vec4A {
                x: bits::ZERO_BITS,
                y: bits::ZERO_BITS,
                z: bits::ZERO_BITS,
                w: bits::ONE_BITS,
            }),
    {
        Vec4A { x: bits::ZERO_BITS, y: bits::ZERO_BITS, z: bits::ZERO_BITS, w: bits::ONE_BITS }
    }

    /// The vector with all components set to `v`.
    pub open spec fn spec_splat(v: u32) -> Vec4A {
        Vec4A { x: v, y: v, z: v, w: v }
    }

    /// Creates a new vector.
    pub fn new(x: u32, y: u32, z: u32, w: u32) -> (r: Vec4A)
        ensures
            r == (Vec4A { x, y, z, w }),
    {
        Vec4A { x, y, z, w }
    }

    /// Creates a vector with all components set to `v`.
    pub fn splat(v: u32) -> (r: Vec4A)
        ensures
            r == Vec4A::spec_splat(v),
    {
        Vec4A { x: v, y: v, z: v, w: v }
    }

    /// Creates a vector from an array `[x, y, z, w]`.
    pub fn from_array(a: [u32; 4]) -> (r: Vec4A)
        ensures
            r.spec_array() == a@,
    {
        Vec4A { x: a[0], y: a[1], z: a[2], w: a[3] }
    }

    /// Returns the components as an array `[x, y, z, w]`.
    pub fn to_array(&self) -> (r: [u32; 4])
        ensures
            r@ == self.spec_array(),
    {
        [self.x, self.y, self.z, self.w]
    }

    /// Creates a vector from the first 4 values in `slice`.
    pub fn from_slice(slice: &[u32]) -> (r: Vec4A)
        requires
            slice@.len() >= 4,
        ensures
            r.spec_array() == slice@.subrange(0, 4),
    {
        Vec4A { x: slice[0], y: slice[1], z: slice[2], w: slice[3] }
    }

    /// Writes the components to the first 4 elements in `slice`.
    pub fn write_to_slice(&self, slice: &mut [u32])
        requires
            old(slice)@.len() >= 4,
        ensures
            final(slice)@ == self.spec_array() + old(slice)@.subrange(4, old(slice)@.len() as int),
    {
        slice[0] = self.x;
        slice[1] = self.y;
        slice[2] = self.z;
        slice[3] = self.w;
    }

    /// Returns the component at `index` (0 for X, 1 for Y, 2 for Z, 3 for W).
    pub fn lane(&self, index: usize) -> (r: u32)
        requires
            index < 4,
        ensures
            r == self.spec_lane(index as int),
    {
        if index == 0 {
            self.x
        } else if index == 1 {
            self.y
        } else if index == 2 {
            self.z
        } else {
            self.w
        }
    }

    /// Returns `true` if any component is NaN.
    pub fn is_nan(&self) -> (r: bool)
        ensures
            r == self.spec_is_nan(),
    {
        bits::is_nan(self.x) || bits::is_nan(self.y) || bits::is_nan(self.z) || bits::is_nan(
            self.w,
        )
    }

    /// Returns `true` if all components are finite.
    pub fn is_finite(&self) -> (r: bool)
        ensures
            r == self.spec_is_finite(),
    {
        bits::is_finite(self.x) && bits::is_finite(self.y) && bits::is_finite(self.z)
            && bits::is_finite(self.w)
    }

    /// Returns the absolute value of each component.
    pub fn abs(&self) -> (r: Vec4A)
        ensures
            r == self.spec_abs(),
    {
        Vec4A {
            x: bits::abs(self.x),
            y: bits::abs(self.y),
            z: bits::abs(self.z),
            w: bits::abs(self.w),
        }
    }
}

impl PartialEq for Vec4A {
    fn eq(&self, other: &Self) -> (r: bool) {
        bits::eq(self.x, other.x) && bits::eq(self.y, other.y) && bits::eq(self.z, other.z)
            && bits::eq(self.w, other.w)
    }
}

impl vstd::std_specs::cmp::PartialEqSpecImpl for Vec4A {
    open spec fn obeys_eq_spec() -> bool {
        true
    }

    open spec fn eq_spec(&self, other: &Self) -> bool {
        self.spec_eq(*other)
    }
}

impl Vec4A {
    /// Creates a SIMD-aligned vector from a generic vector of encodings.
    pub fn from_vec4(v: GVec4<u32>) -> (r: Vec4A)
        ensures
            r == (Vec4A { x: v.x, y: v.y, z: v.z, w: v.w }),
    {
        Vec4A { x: v.x, y: v.y, z: v.z, w: v.w }
    }

    /// Converts `self` to a generic vector of encodings.
    pub fn to_vec4(self) -> (r: GVec4<u32>)
        ensures
            r == (GVec4 { x: self.x, y: self.y, z: self.z, w: self.w }),
    {
        GVec4::new(self.x, self.y, self.z, self.w)
    }
}

impl Vec4A {
    /// The SIMD-aligned vector with the components of `v`.
    pub open spec fn spec_from_vec4(v: GVec4<u32>) -> Vec4A {
        Vec4A { x: v.x, y: v.y, z: v.z, w: v.w }
    }
}


impl Vec4A {
    /// Each component with its sign flipped.
    pub open spec fn spec_negated(self) -> Vec4A {
        Vec4A {
            x: bits::spec_neg(self.x),
            y: bits::spec_neg(self.y),
            z: bits::spec_neg(self.z),
            w: bits::spec_neg(self.w),
        }
    }
}

impl core::ops::Neg for Vec4A {
    type Output = Vec4A;

    /// Flips the sign of each component (NaNs and zeros included).
    fn neg(self) -> (r: Vec4A) {
        Vec4A {
            x: bits::neg(self.x),
            y: bits::neg(self.y),
            z: bits::neg(self.z),
            w: bits::neg(self.w),
        }
    }
}

impl vstd::std_specs::ops::NegSpecImpl for Vec4A {
    open spec fn obeys_neg_spec() -> bool {
        true
    }

    open spec fn neg_req(self) -> bool {
        true
    }

    open spec fn neg_spec(self) -> Vec4A {
        self.spec_negated()
    }
}


/// Negating twice gives the value back, negation keeps the absolute value
/// and the classification of each component, and two values are equal
/// exactly when their negations are.
pub proof fn lemma_vec4a_neg(a: Vec4A, b: Vec4A)
    ensures
        a.spec_negated().spec_negated() == a,
        a.spec_negated().spec_abs() == a.spec_abs(),
        a.spec_negated().spec_is_nan() == a.spec_is_nan(),
        a.spec_negated().spec_is_finite() == a.spec_is_finite(),
        a.spec_negated().spec_eq(b.spec_negated()) == a.spec_eq(b),
{
    bits::lemma_neg(a.x, b.x);
    bits::lemma_neg(a.y, b.y);
    bits::lemma_neg(a.z, b.z);
    bits::lemma_neg(a.w, b.w);
}

/// Negation flips the sign of every component and changes nothing else:
/// each component of `-v` differs from the same component of `v` exactly in
/// the sign bit.
pub proof fn lemma_vec4a_neg_flips_signs(v: Vec4A)
    ensures
        v.spec_negated().x ^ v.x == 0x8000_0000u32,
        v.spec_negated().y ^ v.y == 0x8000_0000u32,
        v.spec_negated().z ^ v.z == 0x8000_0000u32,
        v.spec_negated().w ^ v.w == 0x8000_0000u32,
{
    bits::lemma_neg_flips_sign(v.x);
    bits::lemma_neg_flips_sign(v.y);
    bits::lemma_neg_flips_sign(v.z);
    bits::lemma_neg_flips_sign(v.w);
}

} // verus!
