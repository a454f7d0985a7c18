//! A generic quaternion.
use vstd::prelude::*;

use crate::vector::{GVec3, GVec4};

verus! {

/// Creates a quaternion from its components.
pub fn gquat<T: Copy>(x: T, y: T, z: T, w: T) -> (r: GQuat<T>)
    ensures
        r == (GQuat { x, y, z, w }),
{
    GQuat::from_xyzw(x, y, z, w)
}

/// A quaternion, which represents a 3D rotation when it has unit length.
#[derive(Clone, Copy)]
pub struct GQuat<T: Copy> {
    /// The X component of the quaternion.
    pub x: T,
    /// The Y component of the quaternion.
    pub y: T,
    /// The Z component of the quaternion.
    pub z: T,
    /// The W component of the quaternion.
    pub w: T,
}

impl<T: Copy> GQuat<T> {
    /// The components in order.
    pub open spec fn spec_array(self) -> Seq<T> {
        seq![self.x, self.y, self.z, self.w]
    }

    /// Creates a value from its components.
    pub fn from_xyzw(x: T, y: T, z: T, w: T) -> (r: GQuat<T>)
        ensures
            r == (GQuat { x, y, z, w }),
    {
        GQuat { x, y, z, w }
    }

    /// Returns `if_true` when `boolean` holds and `if_false` otherwise.
    pub fn select(boolean: bool, if_true: GQuat<T>, if_false: GQuat<T>) -> (r: GQuat<T>)
        ensures
            r == (if boolean {
                if_true
            } else {
                if_false
            }),
    {
        if boolean {
            if_true
        } else {
            if_false
        }
    }

    /// Creates a value from an array `[x, y, z, w]`.
    pub fn from_array(a: [T; 4]) -> (r: GQuat<T>)
        ensures
            r.spec_array() == a@,
    {
        let r = GQuat { x: a[0], y: a[1], z: a[2], w: a[3] };
        assert(r.spec_array() =~= a@);
        r
    }

    /// Creates a value from a vector `(x, y, z, w)`.
    pub fn from_vec4(v: GVec4<T>) -> (r: GQuat<T>)
        ensures
            r.spec_array() == v.spec_array(),
    {
        let r = GQuat { x: v.x, y: v.y, z: v.z, w: v.w };
        assert(r.spec_array() =~= v.spec_array());
        r
    }

    /// Creates a value from the first 4 elements of `slice`.
    pub fn from_slice(slice: &[T]) -> (r: GQuat<T>)
        requires
            slice@.len() >= 4,
        ensures
            r.spec_array() == slice@.subrange(0, 4),
    {
        let r = GQuat { x: slice[0], y: slice[1], z: slice[2], w: slice[3] };
        assert(r.spec_array() =~= slice@.subrange(0, 4));
        r
    }

    /// Writes the components to the first 4 elements of `slice`.
    pub fn write_to_slice(self, slice: &mut [T])
        requires
            old(slice)@.len() >= 4,
        ensures
            final(slice)@ == self.spec_array() + old(slice)@.subrange(4, old(slice)@.len() as int),
    {
        slice[0] = self.x;
        slice[1] = self.y;
        slice[2] = self.z;
        slice[3] = self.w;
        assert(slice@ =~= self.spec_array() + old(slice)@.subrange(4, old(slice)@.len() as int));
    }

    /// Returns the components as an array `[x, y, z, w]`.
    pub fn to_array(self) -> (r: [T; 4])
        ensures
            r@ == self.spec_array(),
    {
        let r = [self.x, self.y, self.z, self.w];
        assert(r@ =~= self.spec_array());
        r
    }

    /// Returns the vector part `(x, y, z)`.
    pub fn xyz(self) -> (r: GVec3<T>)
        ensures
            r == (GVec3 { x: self.x, y: self.y, z: self.z }),
    {
        GVec3::new(self.x, self.y, self.z)
    }
}

} // verus!
