//! A SIMD-aligned 3D rotation quaternion of binary32 components.
use vstd::prelude::*;

use crate::bits;
use crate::rotation::GQuat;
use crate::vector::{GVec3, GVec4};

verus! {

/// Creates a rotation quaternion from the encodings of its components.
pub fn rot3a(x: u32, y: u32, z: u32, w: u32) -> (r: Rot3A)
    ensures
        r == (Rot3A { x, y, z, w }),
{
    Rot3A::from_xyzw(x, y, z, w)
}

/// A 3D rotation quaternion whose components are binary32 values, each held
/// by its bit encoding (see [`crate::bits`]).
///
/// The quaternion is meant to have unit length; nothing here checks it.
#[derive(Clone, Copy)]
pub struct Rot3A {
    /// The encoding of the X component.
    pub x: u32,
    /// The encoding of the Y component.
    pub y: u32,
    /// The encoding of the Z component.
    pub z: u32,
    /// The encoding of the W component.
    pub w: u32,
}

impl Rot3A {
    /// The components in order.
    pub open spec fn spec_array(self) -> Seq<u32> {
        seq![self.x, self.y, self.z, self.w]
    }

    /// Some component encodes a NaN.
    pub open spec fn spec_is_nan(self) -> bool {
        bits::spec_is_nan(self.x) || bits::spec_is_nan(self.y) || bits::spec_is_nan(self.z)
            || bits::spec_is_nan(self.w)
    }

    /// Every component encodes a finite value.
    pub open spec fn spec_is_finite(self) -> bool {
        bits::spec_is_finite(self.x) && bits::spec_is_finite(self.y) && bits::spec_is_finite(
            self.z,
        ) && bits::spec_is_finite(self.w)
    }

    /// Component-wise IEEE-754 equality.
    pub open spec fn spec_eq(self, rhs: Rot3A) -> bool {
        bits::spec_eq(self.x, rhs.x) && bits::spec_eq(self.y, rhs.y) && bits::spec_eq(
            self.z,
            rhs.z,
        ) && bits::spec_eq(self.w, rhs.w)
    }

    /// The identity rotation `(0, 0, 0, 1)`.
    pub open spec fn spec_identity() -> Rot3A {
        Rot3A { x: bits::ZERO_BITS, y: bits::ZERO_BITS, z: bits::ZERO_BITS, w: bits::ONE_BITS }
    }

    /// The quaternion with the components of `q`.
    pub open spec fn spec_from_quat(q: GQuat<u32>) -> Rot3A {
        Rot3A { x: q.x, y: q.y, z: q.z, w: q.w }
    }

    /// The generic quaternion with the components of `self`.
    pub open spec fn spec_to_quat(self) -> GQuat<u32> {
        GQuat { x: self.x, y: self.y, z: self.z, w: self.w }
    }

    /// All zeros.
    pub fn zero() -> (r: Rot3A)
        ensures
            r == (Rot3A {
                x: bits::ZERO_BITS,
                y: bits::ZERO_BITS,
                z: bits::ZERO_BITS,
                w: bits::ZERO_BITS,
            }),
    {
        Rot3A { x: bits::ZERO_BITS, y: bits::ZERO_BITS, z: bits::ZERO_BITS, w: bits::ZERO_BITS }
    }

    /// The identity rotation: no rotation at all.
    pub fn identity() -> (r: Rot3A)
        ensures
            r == Rot3A::spec_identity(),
    {
        Rot3A { x: bits::ZERO_BITS, y: bits::ZERO_BITS, z: bits::ZERO_BITS, w: bits::ONE_BITS }
    }

    /// All NaN.
    pub fn nan() -> (r: Rot3A)
        ensures
            r == (Rot3A {
                x: bits::NAN_BITS,
                y: bits::NAN_BITS,
                z: bits::NAN_BITS,
                w: bits::NAN_BITS,
            }),
    {
        Rot3A { x: bits::NAN_BITS, y: bits::NAN_BITS, z: bits::NAN_BITS, w: bits::NAN_BITS }
    }

    /// Creates a rotation quaternion from its components; the input is not
    /// normalized.
    pub fn from_xyzw(x: u32, y: u32, z: u32, w: u32) -> (r: Rot3A)
        ensures
            r == (Rot3A { x, y, z, w }),
    {
        Rot3A { x, y, z, w }
    }

    /// Returns `if_true` when `boolean` holds and `if_false` otherwise.
    pub fn select(boolean: bool, if_true: Rot3A, if_false: Rot3A) -> (r: Rot3A)
        ensures
            r == (if boolean {
                if_true
            } else {
                if_false
            }),
    {
        if boolean {
            if_true
        } else {
            if_false
        }
    }

    /// Creates a rotation quaternion from an array `[x, y, z, w]`.
    pub fn from_array(a: [u32; 4]) -> (r: Rot3A)
        ensures
            r.spec_array() == a@,
    {
        let r = Rot3A { x: a[0], y: a[1], z: a[2], w: a[3] };
        assert(r.spec_array() =~= a@);
        r
    }

    /// Creates a rotation quaternion from a vector `(x, y, z, w)`.
    pub fn from_vec4(v: GVec4<u32>) -> (r: Rot3A)
        ensures
            r == (Rot3A { x: v.x, y: v.y, z: v.z, w: v.w }),
    {
        Rot3A { x: v.x, y: v.y, z: v.z, w: v.w }
    }

    /// Creates a rotation quaternion from the first 4 values in `slice`.
    pub fn from_slice(slice: &[u32]) -> (r: Rot3A)
        requires
            slice@.len() >= 4,
        ensures
            r.spec_array() == slice@.subrange(0, 4),
    {
        let r = Rot3A { x: slice[0], y: slice[1], z: slice[2], w: slice[3] };
        assert(r.spec_array() =~= slice@.subrange(0, 4));
        r
    }

    /// Writes the components to the first 4 elements in `slice`.
    pub fn write_to_slice(self, slice: &mut [u32])
        requires
            old(slice)@.len() >= 4,
        ensures
            final(slice)@ == self.spec_array() + old(slice)@.subrange(4, old(slice)@.len() as int),
    {
        slice[0] = self.x;
        slice[1] = self.y;
        slice[2] = self.z;
        slice[3] = self.w;
        assert(slice@ =~= self.spec_array() + old(slice)@.subrange(4, old(slice)@.len() as int));
    }

    /// Returns the components as an array `[x, y, z, w]`.
    pub fn to_array(self) -> (r: [u32; 4])
        ensures
            r@ == self.spec_array(),
    {
        let r = [self.x, self.y, self.z, self.w];
        assert(r@ =~= self.spec_array());
        r
    }

    /// Returns the vector part `(x, y, z)` of the quaternion.
    pub fn xyz(self) -> (r: GVec3<u32>)
        ensures
            r == (GVec3 { x: self.x, y: self.y, z: self.z }),
    {
        GVec3::new(self.x, self.y, self.z)
    }

    /// Returns `true` if all components are finite.
    pub fn is_finite(self) -> (r: bool)
        ensures
            r == self.spec_is_finite(),
    {
        bits::is_finite(self.x) && bits::is_finite(self.y) && bits::is_finite(self.z)
            && bits::is_finite(self.w)
    }

    /// Returns `true` if any component is NaN.
    pub fn is_nan(self) -> (r: bool)
        ensures
            r == self.spec_is_nan(),
    {
        bits::is_nan(self.x) || bits::is_nan(self.y) || bits::is_nan(self.z) || bits::is_nan(
            self.w,
        )
    }

    /// Creates a SIMD-aligned quaternion from a generic quaternion of encodings.
    pub fn from_quat(q: GQuat<u32>) -> (r: Rot3A)
        ensures
            r == Rot3A::spec_from_quat(q),
    {
        Rot3A { x: q.x, y: q.y, z: q.z, w: q.w }
    }

    /// Converts `self` to a generic quaternion of encodings.
    pub fn to_quat(self) -> (r: GQuat<u32>)
        ensures
            r == self.spec_to_quat(),
    {
        GQuat::from_xyzw(self.x, self.y, self.z, self.w)
    }
}

impl Default for Rot3A {
    /// The identity rotation.
    fn default() -> (r: Rot3A)
        ensures
            r == Rot3A::spec_identity(),
    {
        Rot3A::identity()
    }
}

impl PartialEq for Rot3A {
    fn eq(&self, other: &Self) -> (r: bool) {
        bits::eq(self.x, other.x) && bits::eq(self.y, other.y) && bits::eq(self.z, other.z)
            && bits::eq(self.w, other.w)
    }
}

impl vstd::std_specs::cmp::PartialEqSpecImpl for Rot3A {
    open spec fn obeys_eq_spec() -> bool {
        true
    }

    open spec fn eq_spec(&self, other: &Self) -> bool {
        self.spec_eq(*other)
    }
}

/// Converting a quaternion to the SIMD-aligned form and back gives it back,
/// and so does the other order.
pub proof fn lemma_rot3a_quat_roundtrip(q: GQuat<u32>, r: Rot3A)
    ensures
        Rot3A::spec_from_quat(q).spec_to_quat() == q,
        Rot3A::spec_from_quat(r.spec_to_quat()) == r,
{
}

/// A quaternion with a NaN component is not finite; `==` on quaternions is
/// symmetric, and a quaternion equals itself exactly when none of its
/// components is NaN.
pub proof fn lemma_rot3a_classification(a: Rot3A, b: Rot3A)
    ensures
        a.spec_is_nan() ==> !a.spec_is_finite(),
        a.spec_eq(b) == b.spec_eq(a),
        a.spec_eq(a) == !a.spec_is_nan(),
{
    bits::lemma_classification(a.x);
    bits::lemma_classification(a.y);
    bits::lemma_classification(a.z);
    bits::lemma_classification(a.w);
    bits::lemma_eq_laws(a.x, b.x);
    bits::lemma_eq_laws(a.y, b.y);
    bits::lemma_eq_laws(a.z, b.z);
    bits::lemma_eq_laws(a.w, b.w);
}

} // verus!
