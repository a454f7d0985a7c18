//! A generic 3-dimensional vector.
use vstd::prelude::*;

use crate::vector::{GVec2, GVec4};

verus! {

/// Creates a 3-dimensional vector.
pub fn gvec3<T: Copy>(x: T, y: T, z: T) -> (r: GVec3<T>)
    ensures
        r == (GVec3 { x, y, z }),
{
    GVec3::new(x, y, z)
}

/// A 3-dimensional vector.
#[derive(Clone, Copy)]
pub struct GVec3<T: Copy> {
    /// The X component of the vector.
    pub x: T,
    /// The Y component of the vector.
    pub y: T,
    /// The Z component of the vector.
    pub z: T,
}

impl<T: Copy> GVec3<T> {
    /// The component at `i` (0 for X, 1 for Y, ...).
    pub open spec fn spec_lane(self, i: int) -> T
        recommends
            0 <= i < 3,
    {
        if i == 0 {
            self.x
        } else if i == 1 {
            self.y
        } else {
            self.z
        }
    }

    /// The components in order.
    pub open spec fn spec_array(self) -> Seq<T> {
        seq![self.x, self.y, self.z]
    }

    /// `self` with the component at `i` replaced by `v`.
    pub open spec fn spec_with_lane(self, i: int, v: T) -> GVec3<T> {
        if i == 0 {
            GVec3 { x: v, ..self }
        } else if i == 1 {
            GVec3 { y: v, ..self }
        } else {
            GVec3 { z: v, ..self }
        }
    }

    /// Creates a new vector.
    pub fn new(x: T, y: T, z: T) -> (r: GVec3<T>)
        ensures
            r == (GVec3 { x, y, z }),
    {
        GVec3 { x, y, z }
    }

    /// Creates a new vector with all components set to `v`.
    pub fn splat(v: T) -> (r: GVec3<T>)
        ensures
            r == (GVec3 { x: v, y: v, z: v }),
    {
        GVec3 { x: v, y: v, z: v }
    }

    /// Creates a new vector from an array.
    pub fn from_array(arr: [T; 3]) -> (r: GVec3<T>)
        ensures
            r.spec_array() == arr@,
    {
        let r = GVec3 { x: arr[0], y: arr[1], z: arr[2] };
        assert(r.spec_array() =~= arr@);
        r
    }

    /// Returns the vector as an array.
    pub fn to_array(self) -> (r: [T; 3])
        ensures
            r@ == self.spec_array(),
    {
        let r = [self.x, self.y, self.z];
        assert(r@ =~= self.spec_array());
        r
    }

    /// Creates a vector from the first 3 elements in `slice`.
    pub fn from_slice(slice: &[T]) -> (r: GVec3<T>)
        requires
            slice@.len() >= 3,
        ensures
            r.spec_array() == slice@.subrange(0, 3),
    {
        let r = GVec3 { x: slice[0], y: slice[1], z: slice[2] };
        assert(r.spec_array() =~= slice@.subrange(0, 3));
        r
    }

    /// Writes the components of `self` to the first 3 elements in `slice`.
    pub fn write_to_slice(self, slice: &mut [T])
        requires
            old(slice)@.len() >= 3,
        ensures
            final(slice)@ == self.spec_array() + old(slice)@.subrange(3, old(slice)@.len() as int),
    {
        slice[0] = self.x;
        slice[1] = self.y;
        slice[2] = self.z;
        assert(slice@ =~= self.spec_array() + old(slice)@.subrange(3, old(slice)@.len() as int));
    }

    /// Returns the component at `index`.
    pub fn lane(&self, index: usize) -> (r: T)
        requires
            index < 3,
        ensures
            r == self.spec_lane(index as int),
    {
        if index == 0 {
            self.x
        } else if index == 1 {
            self.y
        } else {
            self.z
        }
    }

    /// Returns a mutable reference to the component at `index`.
    pub fn lane_mut(&mut self, index: usize) -> (r: &mut T)
        requires
            index < 3,
        ensures
            *r == old(self).spec_lane(index as int),
            *final(self) == old(self).spec_with_lane(index as int, *final(r)),
    {
        if index == 0 {
            &mut self.x
        } else if index == 1 {
            &mut self.y
        } else {
            &mut self.z
        }
    }

    /// Returns `if_true` when `boolean` holds and `if_false` otherwise.
    pub fn select(boolean: bool, if_true: GVec3<T>, if_false: GVec3<T>) -> (r: GVec3<T>)
        ensures
            r == (if boolean {
                if_true
            } else {
                if_false
            }),
    {
        if boolean {
            if_true
        } else {
            if_false
        }
    }

    /// Takes each component from `if_true` where the same component of `mask`
    /// is true, and from `if_false` where it is false.
    pub fn select_mask(mask: GVec3<bool>, if_true: GVec3<T>, if_false: GVec3<T>) -> (r: GVec3<T>)
        ensures
            r.x == (if mask.x { if_true.x } else { if_false.x }),
            r.y == (if mask.y { if_true.y } else { if_false.y }),
            r.z == (if mask.z { if_true.z } else { if_false.z }),
    {
        GVec3 {
            x: if mask.x { if_true.x } else { if_false.x },
            y: if mask.y { if_true.y } else { if_false.y },
            z: if mask.z { if_true.z } else { if_false.z },
        }
    }

    /// Returns `self` with the X component replaced by `x`.
    pub fn with_x(self, x: T) -> (r: GVec3<T>)
        ensures
            r == (GVec3 { x, ..self }),
    {
        GVec3 { x, ..self }
    }

    /// Returns `self` with the Y component replaced by `y`.
    pub fn with_y(self, y: T) -> (r: GVec3<T>)
        ensures
            r == (GVec3 { y, ..self }),
    {
        GVec3 { y, ..self }
    }

    /// Returns `self` with the Z component replaced by `z`.
    pub fn with_z(self, z: T) -> (r: GVec3<T>)
        ensures
            r == (GVec3 { z, ..self }),
    {
        GVec3 { z, ..self }
    }

    /// Creates a 2D vector from the first 2 components of `self`.
    pub fn truncate(self) -> (r: GVec2<T>)
        ensures
            r == (GVec2 { x: self.x, y: self.y }),
    {
        GVec2::new(self.x, self.y)
    }

    /// Creates a 4D vector from `self` and the given `w` component.
    pub fn extend(self, w: T) -> (r: GVec4<T>)
        ensures
            r == (GVec4 { x: self.x, y: self.y, z: self.z, w }),
    {
        GVec4 { x: self.x, y: self.y, z: self.z, w }
    }
}

impl GVec3<bool> {
    /// Returns `true` if all components are true.
    pub fn all(self) -> (r: bool)
        ensures
            r == (self.x && self.y && self.z),
    {
        self.x && self.y && self.z
    }

    /// Returns `true` if any component is true.
    pub fn any(self) -> (r: bool)
        ensures
            r == (self.x || self.y || self.z),
    {
        self.x || self.y || self.z
    }

    /// Tests the component at `index`.
    pub fn test(self, index: usize) -> (r: bool)
        requires
            index < 3,
        ensures
            r == self.spec_lane(index as int),
    {
        self.lane(index)
    }

    /// Sets the component at `index` to `value`.
    pub fn set(&mut self, index: usize, value: bool)
        requires
            index < 3,
        ensures
            *final(self) == old(self).spec_with_lane(index as int, value),
    {
        if index == 0 {
            self.x = value;
        } else if index == 1 {
            self.y = value;
        } else {
        self.z = value;
        }
    }
}

} // verus!
