//! A SIMD-aligned 3D vector of binary32 components.
use vstd::prelude::*;

use crate::bits;
use crate::vector::GVec3;

verus! {

/// A 3-dimensional vector whose components are binary32 values, each held by
/// its bit encoding (see [`crate::bits`]).
#[derive(Clone, Copy)]
pub struct Vec3A {
    /// The encoding of the X component.
    pub x: u32,
    /// The encoding of the Y component.
    pub y: u32,
    /// The encoding of the Z component.
    pub z: u32,
}

impl Vec3A {
    /// All zeros.
    pub fn zero() -> (r: Vec3A)
        ensures
            r == (Vec3A { x: bits::ZERO_BITS, y: bits::ZERO_BITS, z: bits::ZERO_BITS }),
    {
        Vec3A { x: bits::ZERO_BITS, y: bits::ZERO_BITS, z: bits::ZERO_BITS }
    }

    /// A unit vector pointing along the positive X axis.
    pub fn unit_x() -> (r: Vec3A)
        ensures
            r == (Vec3A { x: bits::ONE_BITS, y: bits::ZERO_BITS, z: bits::ZERO_BITS }),
    {
        Vec3A { x: bits::ONE_BITS, y: bits::ZERO_BITS, z: bits::ZERO_BITS }
    }

    /// A unit vector pointing along the positive Y axis.
    pub fn unit_y() -> (r: Vec3A)
        ensures
            r == (Vec3A { x: bits::ZERO_BITS, y: bits::ONE_BITS, z: bits::ZERO_BITS }),
    {
        Vec3A { x: bits::ZERO_BITS, y: bits::ONE_BITS, z: bits::ZERO_BITS }
    }

    /// A unit vector pointing along the positive Z axis.
    pub fn unit_z() -> (r: Vec3A)
        ensures
            r == (Vec3A { x: bits::ZERO_BITS, y: bits::ZERO_BITS, z: bits::ONE_BITS }),
    {
        Vec3A { x: bits::ZERO_BITS, y: bits::ZERO_BITS, z: bits::ONE_BITS }
    }

    /// All NaN.
    pub fn nan() -> (r: Vec3A)
        ensures
            r == (Vec3A { x: bits::NAN_BITS, y: bits::NAN_BITS, z: bits::NAN_BITS }),
    {
        Vec3A { x: bits::NAN_BITS, y: bits::NAN_BITS, z: bits::NAN_BITS }
    }

    /// The component at `i` (0 for X, 1 for Y, 2 for Z).
    pub open spec fn spec_lane(self, i: int) -> u32
        recommends
            0 <= i < 3,
    {
        if i == 0 {
            self.x
        } else if i == 1 {
            self.y
        } else {
            self.z
        }
    }

    /// The components in order.
    pub open spec fn spec_array(self) -> Seq<u32> {
        seq![self.x, self.y, self.z]
    }

    /// Some component encodes a NaN.
    pub open spec fn spec_is_nan(self) -> bool {
        bits::spec_is_nan(self.x) || bits::spec_is_nan(self.y) || bits::spec_is_nan(self.z)
    }

    /// Every component encodes a finite value.
    pub open spec fn spec_is_finite(self) -> bool {
        bits::spec_is_finite(self.x) && bits::spec_is_finite(self.y) && bits::spec_is_finite(
            self.z,
        )
    }

    /// Component-wise absolute value.
    pub open spec fn spec_abs(self) -> Vec3A {
        Vec3A { x: bits::spec_abs(self.x), y: bits::spec_abs(self.y), z: bits::spec_abs(self.z) }
    }

    /// Component-wise IEEE-754 equality.
    pub open spec fn spec_eq(self, rhs: Vec3A) -> bool {
        bits::spec_eq(self.x, rhs.x) && bits::spec_eq(self.y, rhs.y) && bits::spec_eq(
            self.z,
            rhs.z,
        )
    }

    /// Creates a new vector.
    pub fn new(x: u32, y: u32, z: u32) -> (r: Vec3A)
        ensures
            r == (Vec3A { x, y, z }),
    {
        Vec3A { x, y, z }
    }

    /// Creates a vector with all components set to `v`.
    pub fn splat(v: u32) -> (r: Vec3A)
        ensures
            r == (Vec3A { x: v, y: v, z: v }),
    {
        Vec3A { x: v, y: v, z: v }
    }

    /// Creates a vector from an array `[x, y, z]`.
    pub fn from_array(a: [u32; 3]) -> (r: Vec3A)
        ensures
            r.spec_array() == a@,
    {
        Vec3A { x: a[0], y: a[1], z: a[2] }
    }

    /// Returns the components as an array `[x, y, z]`.
    pub fn to_array(&self) -> (r: [u32; 3])
        ensures
            r@ == self.spec_array(),
    {
        [self.x, self.y, self.z]
    }

    /// Creates a vector from the first 3 values in `slice`.
    pub fn from_slice(slice: &[u32]) -> (r: Vec3A)
        requires
            slice@.len() >= 3,
        ensures
            r.spec_array() == slice@.subrange(0, 3),
    {
        Vec3A { x: slice[0], y: slice[1], z: slice[2] }
    }

    /// Writes the components to the first 3 elements in `slice`.
    pub fn write_to_slice(&self, slice: &mut [u32])
        requires
            old(slice)@.len() >= 3,
        ensures
            final(slice)@ == self.spec_array() + old(slice)@.subrange(3, old(slice)@.len() as int),
    {
        slice[0] = self.x;
        slice[1] = self.y;
        slice[2] = self.z;
    }

    /// Returns the component at `index` (0 for X, 1 for Y, 2 for Z).
    pub fn lane(&self, index: usize) -> (r: u32)
        requires
            index < 3,
        ensures
            r == self.spec_lane(index as int),
    {
        if index == 0 {
            self.x
        } else if index == 1 {
            self.y
        } else {
            self.z
        }
    }

    /// Returns `true` if any component is NaN.
    pub fn is_nan(&self) -> (r: bool)
        ensures
            r == self.spec_is_nan(),
    {
        bits::is_nan(self.x) || bits::is_nan(self.y) || bits::is_nan(self.z)
    }

    /// Returns `true` if all components are finite.
    pub fn is_finite(&self) -> (r: bool)
        ensures
            r == self.spec_is_finite(),
    {
        bits::is_finite(self.x) && bits::is_finite(self.y) && bits::is_finite(self.z)
    }

    /// Returns the absolute value of each component.
    pub fn abs(&self) -> (r: Vec3A)
        ensures
            r == self.spec_abs(),
    {
        Vec3A { x: bits::abs(self.x), y: bits::abs(self.y), z: bits::abs(self.z) }
    }
}

impl PartialEq for Vec3A {
    fn eq(&self, other: &Self) -> (r: bool) {
        bits::eq(self.x, other.x) && bits::eq(self.y, other.y) && bits::eq(self.z, other.z)
    }
}

impl vstd::std_specs::cmp::PartialEqSpecImpl for Vec3A {
    open spec fn obeys_eq_spec() -> bool {
        true
    }

    open spec fn eq_spec(&self, other: &Self) -> bool {
        self.spec_eq(*other)
    }
}

impl Vec3A {
    /// Creates a SIMD-aligned vector from a generic vector of encodings.
    pub fn from_vec3(v: GVec3<u32>) -> (r: Vec3A)
        ensures
            r == (Vec3A { x: v.x, y: v.y, z: v.z }),
    {
        Vec3A { x: v.x, y: v.y, z: v.z }
    }

    /// Converts `self` to a generic vector of encodings.
    pub fn to_vec3(self) -> (r: GVec3<u32>)
        ensures
            r == (GVec3 { x: self.x, y: self.y, z: self.z }),
    {
        GVec3::new(self.x, self.y, self.z)
    }
}

impl Vec3A {
    /// The SIMD-aligned vector with the components of `v`.
    pub open spec fn spec_from_vec3(v: GVec3<u32>) -> Vec3A {
        Vec3A { x: v.x, y: v.y, z: v.z }
    }
}


impl Vec3A {
    /// Each component with its sign flipped.
    pub open spec fn spec_negated(self) -> Vec3A {
        Vec3A { x: bits::spec_neg(self.x), y: bits::spec_neg(self.y), z: bits::spec_neg(self.z) }
    }
}

impl core::ops::Neg for Vec3A {
    type Output = Vec3A;

    /// Flips the sign of each component (NaNs and zeros included).
    fn neg(self) -> (r: Vec3A) {
        Vec3A { x: bits::neg(self.x), y: bits::neg(self.y), z: bits::neg(self.z) }
    }
}

impl vstd::std_specs::ops::NegSpecImpl for Vec3A {
    open spec fn obeys_neg_spec() -> bool {
        true
    }

    open spec fn neg_req(self) -> bool {
        true
    }

    open spec fn neg_spec(self) -> Vec3A {
        self.spec_negated()
    }
}


/// Negating twice gives the value back, negation keeps the absolute value
/// and the classification of each component, and two values are equal
/// exactly when their negations are.
pub proof fn lemma_vec3a_neg(a: Vec3A, b: Vec3A)
    ensures
        a.spec_negated().spec_negated() == a,
        a.spec_negated().spec_abs() == a.spec_abs(),
        a.spec_negated().spec_is_nan() == a.spec_is_nan(),
        a.spec_negated().spec_is_finite() == a.spec_is_finite(),
        a.spec_negated().spec_eq(b.spec_negated()) == a.spec_eq(b),
{
    bits::lemma_neg(a.x, b.x);
    bits::lemma_neg(a.y, b.y);
    bits::lemma_neg(a.z, b.z);
}

/// Negation flips the sign of every component and changes nothing else:
/// each component of `-v` differs from the same component of `v` exactly in
/// the sign bit.
pub proof fn lemma_vec3a_neg_flips_signs(v: Vec3A)
    ensures
        v.spec_negated().x ^ v.x == 0x8000_0000u32,
        v.spec_negated().y ^ v.y == 0x8000_0000u32,
        v.spec_negated().z ^ v.z == 0x8000_0000u32,
{
    bits::lemma_neg_flips_sign(v.x);
    bits::lemma_neg_flips_sign(v.y);
    bits::lemma_neg_flips_sign(v.z);
}

} // verus!
