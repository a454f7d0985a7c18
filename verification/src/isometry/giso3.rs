//! A generic 3D isometry.
use vstd::prelude::*;

use crate::rotation::GQuat;
use crate::vector::GVec3;

verus! {

/// A 3D isometry: a rotation followed by a translation.
#[derive(Clone, Copy)]
pub struct GIso3<T: Copy> {
    /// The rotational part of the isometry.
    pub rotation: GQuat<T>,
    /// The translational part of the isometry.
    pub translation: GVec3<T>,
}

impl<T: Copy> GIso3<T> {
    /// Creates an isometry from a rotation and a translation.
    pub fn from_rotation_translation(rotation: GQuat<T>, translation: GVec3<T>) -> (r: GIso3<T>)
        ensures
            r == (GIso3 { rotation, translation }),
    {
        GIso3 { rotation, translation }
    }

    /// Returns `if_true` when `boolean` holds and `if_false` otherwise.
    pub fn select(boolean: bool, if_true: GIso3<T>, if_false: GIso3<T>) -> (r: GIso3<T>)
        ensures
            r == (if boolean {
                if_true
            } else {
                if_false
            }),
    {
        if boolean {
            if_true
        } else {
            if_false
        }
    }
}

} // verus!
