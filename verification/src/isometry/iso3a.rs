//! A SIMD-aligned 3D isometry of binary32 components.
use vstd::prelude::*;

use crate::bits;
use crate::isometry::GIso3;
use crate::rotation::{Rot3A, lemma_rot3a_classification};
use crate::vector::{GVec3, Vec3A};

verus! {

/// A 3D isometry, a rotation followed by a translation, whose components are
/// binary32 values held by their bit encodings.
#[derive(Clone, Copy)]
pub struct Iso3A {
    /// The rotational part of the isometry.
    pub rotation: Rot3A,
    /// The translational part of the isometry.
    pub translation: Vec3A,
}

impl Iso3A {
    /// Some component encodes a NaN.
    pub open spec fn spec_is_nan(self) -> bool {
        self.rotation.spec_is_nan() || self.translation.spec_is_nan()
    }

    /// Every component encodes a finite value.
    pub open spec fn spec_is_finite(self) -> bool {
        self.rotation.spec_is_finite() && self.translation.spec_is_finite()
    }

    /// Component-wise IEEE-754 equality.
    pub open spec fn spec_eq(self, rhs: Iso3A) -> bool {
        self.rotation.spec_eq(rhs.rotation) && self.translation.spec_eq(rhs.translation)
    }

    /// The identity isometry: the identity rotation and no translation.
    pub open spec fn spec_identity() -> Iso3A {
        Iso3A {
            rotation: Rot3A::spec_identity(),
            translation: Vec3A { x: bits::ZERO_BITS, y: bits::ZERO_BITS, z: bits::ZERO_BITS },
        }
    }

    /// The SIMD-aligned isometry with the components of `i`.
    pub open spec fn spec_from_iso3(i: GIso3<u32>) -> Iso3A {
        Iso3A {
            rotation: Rot3A::spec_from_quat(i.rotation),
            translation: Vec3A::spec_from_vec3(i.translation),
        }
    }

    /// The generic isometry with the components of `self`.
    pub open spec fn spec_to_iso3(self) -> GIso3<u32> {
        GIso3 {
            rotation: self.rotation.spec_to_quat(),
            translation: GVec3 {
                x: self.translation.x,
                y: self.translation.y,
                z: self.translation.z,
            },
        }
    }

    /// The identity isometry: multiplying a vector with it gives the same vector.
    pub fn identity() -> (r: Iso3A)
        ensures
            r == Iso3A::spec_identity(),
    {
        Iso3A { rotation: Rot3A::identity(), translation: Vec3A::zero() }
    }

    /// All NaN.
    pub fn nan() -> (r: Iso3A)
        ensures
            r == (Iso3A {
                rotation: Rot3A {
                    x: bits::NAN_BITS,
                    y: bits::NAN_BITS,
                    z: bits::NAN_BITS,
                    w: bits::NAN_BITS,
                },
                translation: Vec3A { x: bits::NAN_BITS, y: bits::NAN_BITS, z: bits::NAN_BITS },
            }),
    {
        Iso3A { rotation: Rot3A::nan(), translation: Vec3A::nan() }
    }

    /// Creates an isometry from a rotation and a translation.
    pub fn from_rotation_translation(rotation: Rot3A, translation: Vec3A) -> (r: Iso3A)
        ensures
            r == (Iso3A { rotation, translation }),
    {
        Iso3A { rotation, translation }
    }

    /// Returns `if_true` when `boolean` holds and `if_false` otherwise.
    pub fn select(boolean: bool, if_true: Iso3A, if_false: Iso3A) -> (r: Iso3A)
        ensures
            r == (if boolean {
                if_true
            } else {
                if_false
            }),
    {
        if boolean {
            if_true
        } else {
            if_false
        }
    }

    /// Creates an isometry from `rotation`, with no translation.
    pub fn from_rotation(rotation: Rot3A) -> (r: Iso3A)
        ensures
            r == (Iso3A {
                rotation,
                translation: Vec3A { x: bits::ZERO_BITS, y: bits::ZERO_BITS, z: bits::ZERO_BITS },
            }),
    {
        Iso3A { rotation, translation: Vec3A::zero() }
    }

    /// Creates an isometry from `translation`, with no rotation.
    pub fn from_translation(translation: Vec3A) -> (r: Iso3A)
        ensures
            r == (Iso3A { rotation: Rot3A::spec_identity(), translation }),
    {
        Iso3A { rotation: Rot3A::identity(), translation }
    }

    /// Returns `true` if all components are finite.
    pub fn is_finite(&self) -> (r: bool)
        ensures
            r == self.spec_is_finite(),
    {
        self.rotation.is_finite() && self.translation.is_finite()
    }

    /// Returns `true` if any component is NaN.
    pub fn is_nan(&self) -> (r: bool)
        ensures
            r == self.spec_is_nan(),
    {
        self.rotation.is_nan() || self.translation.is_nan()
    }

    /// Creates a SIMD-aligned isometry from a generic isometry of encodings.
    pub fn from_iso3(i: GIso3<u32>) -> (r: Iso3A)
        ensures
            r == Iso3A::spec_from_iso3(i),
    {
        Iso3A {
            rotation: Rot3A::from_quat(i.rotation),
            translation: Vec3A::from_vec3(i.translation),
        }
    }

    /// Converts `self` to a generic isometry of encodings.
    pub fn to_iso3(self) -> (r: GIso3<u32>)
        ensures
            r == self.spec_to_iso3(),
    {
        GIso3 { rotation: self.rotation.to_quat(), translation: self.translation.to_vec3() }
    }
}

impl Default for Iso3A {
    /// The identity isometry.
    fn default() -> (r: Iso3A)
        ensures
            r == Iso3A::spec_identity(),
    {
        Iso3A::identity()
    }
}

impl PartialEq for Iso3A {
    fn eq(&self, other: &Self) -> (r: bool) {
        self.rotation == other.rotation && self.translation == other.translation
    }
}

impl vstd::std_specs::cmp::PartialEqSpecImpl for Iso3A {
    open spec fn obeys_eq_spec() -> bool {
        true
    }

    open spec fn eq_spec(&self, other: &Self) -> bool {
        self.spec_eq(*other)
    }
}

/// Converting an isometry to the generic form and back gives it back, and so
/// does the other order.
pub proof fn lemma_iso3a_iso3_roundtrip(i: GIso3<u32>, a: Iso3A)
    ensures
        Iso3A::spec_from_iso3(i).spec_to_iso3() == i,
        Iso3A::spec_from_iso3(a.spec_to_iso3()) == a,
{
}

/// An isometry with a NaN component is not finite; `==` on isometries is
/// symmetric, and an isometry equals itself exactly when none of its
/// components is NaN.
pub proof fn lemma_iso3a_classification(a: Iso3A, b: Iso3A)
    ensures
        a.spec_is_nan() ==> !a.spec_is_finite(),
        a.spec_eq(b) == b.spec_eq(a),
        a.spec_eq(a) == !a.spec_is_nan(),
{
    lemma_rot3a_classification(a.rotation, b.rotation);
    bits::lemma_classification(a.translation.x);
    bits::lemma_classification(a.translation.y);
    bits::lemma_classification(a.translation.z);
    bits::lemma_eq_laws(a.translation.x, b.translation.x);
    bits::lemma_eq_laws(a.translation.y, b.translation.y);
    bits::lemma_eq_laws(a.translation.z, b.translation.z);
}

} // verus!
