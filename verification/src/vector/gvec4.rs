//! A generic 4-dimensional vector.
use vstd::prelude::*;

use crate::vector::GVec3;

verus! {

/// Creates a 4-dimensional vector.
pub fn gvec4<T: Copy>(x: T, y: T, z: T, w: T) -> (r: GVec4<T>)
    ensures
        r == (GVec4 { x, y, z, w }),
{
    GVec4::new(x, y, z, w)
}

/// A 4-dimensional vector.
#[derive(Clone, Copy)]
pub struct GVec4<T: Copy> {
    /// The X component of the vector.
    pub x: T,
    /// The Y component of the vector.
    pub y: T,
    /// The Z component of the vector.
    pub z: T,
    /// The W component of the vector.
    pub w: T,
}

impl<T: Copy> GVec4<T> {
    /// The component at `i` (0 for X, 1 for Y, ...).
    pub open spec fn spec_lane(self, i: int) -> T
        recommends
            0 <= i < 4,
    {
        if i == 0 {
            self.x
        } else if i == 1 {
            self.y
        } else if i == 2 {
            self.z
        } else {
            self.w
        }
    }

    /// The components in order.
    pub open spec fn spec_array(self) -> Seq<T> {
        seq![self.x, self.y, self.z, self.w]
    }

    /// `self` with the component at `i` replaced by `v`.
    pub open spec fn spec_with_lane(self, i: int, v: T) -> GVec4<T> {
        if i == 0 {
            GVec4 { x: v, ..self }
        } else if i == 1 {
            GVec4 { y: v, ..self }
        } else if i == 2 {
            GVec4 { z: v, ..self }
        } else {
            GVec4 { w: v, ..self }
        }
    }

    /// Creates a new vector.
    pub fn new(x: T, y: T, z: T, w: T) -> (r: GVec4<T>)
        ensures
            r == (GVec4 { x, y, z, w }),
    {
        GVec4 { x, y, z, w }
    }

    /// Creates a new vector with all components set to `v`.
    pub fn splat(v: T) -> (r: GVec4<T>)
        ensures
            r == (GVec4 { x: v, y: v, z: v, w: v }),
    {
        GVec4 { x: v, y: v, z: v, w: v }
    }

    /// Creates a new vector from an array.
    pub fn from_array(arr: [T; 4]) -> (r: GVec4<T>)
        ensures
            r.spec_array() == arr@,
    {
        let r = GVec4 { x: arr[0], y: arr[1], z: arr[2], w: arr[3] };
        assert(r.spec_array() =~= arr@);
        r
    }

    /// Returns the vector as an array.
    pub fn to_array(self) -> (r: [T; 4])
        ensures
            r@ == self.spec_array(),
    {
        let r = [self.x, self.y, self.z, self.w];
        assert(r@ =~= self.spec_array());
        r
    }

    /// Creates a vector from the first 4 elements in `slice`.
    pub fn from_slice(slice: &[T]) -> (r: GVec4<T>)
        requires
            slice@.len() >= 4,
        ensures
            r.spec_array() == slice@.subrange(0, 4),
    {
        let r = GVec4 { x: slice[0], y: slice[1], z: slice[2], w: slice[3] };
        assert(r.spec_array() =~= slice@.subrange(0, 4));
        r
    }

    /// Writes the components of `self` to the first 4 elements in `slice`.
    pub fn write_to_slice(self, slice: &mut [T])
        requires
            old(slice)@.len() >= 4,
        ensures
            final(slice)@ == self.spec_array() + old(slice)@.subrange(4, old(slice)@.len() as int),
    {
        slice[0] = self.x;
        slice[1] = self.y;
        slice[2] = self.z;
        slice[3] = self.w;
        assert(slice@ =~= self.spec_array() + old(slice)@.subrange(4, old(slice)@.len() as int));
    }

    /// Returns the component at `index`.
    pub fn lane(&self, index: usize) -> (r: T)
        requires
            index < 4,
        ensures
            r == self.spec_lane(index as int),
    {
        if index == 0 {
            self.x
        } else if index == 1 {
            self.y
        } else if index == 2 {
            self.z
        } else {
            self.w
        }
    }

    /// Returns a mutable reference to the component at `index`.
    pub fn lane_mut(&mut self, index: usize) -> (r: &mut T)
        requires
            index < 4,
        ensures
            *r == old(self).spec_lane(index as int),
            *final(self) == old(self).spec_with_lane(index as int, *final(r)),
    {
        if index == 0 {
            &mut self.x
        } else if index == 1 {
            &mut self.y
        } else if index == 2 {
            &mut self.z
        } else {
            &mut self.w
        }
    }

    /// Returns `if_true` when `boolean` holds and `if_false` otherwise.
    pub fn select(boolean: bool, if_true: GVec4<T>, if_false: GVec4<T>) -> (r: GVec4<T>)
        ensures
            r == (if boolean {
                if_true
            } else {
                if_false
            }),
    {
        if boolean {
            if_true
        } else {
            if_false
        }
    }

    /// Takes each component from `if_true` where the same component of `mask`
    /// is true, and from `if_false` where it is false.
    pub fn select_mask(mask: GVec4<bool>, if_true: GVec4<T>, if_false: GVec4<T>) -> (r: GVec4<T>)
        ensures
            r.x == (if mask.x { if_true.x } else { if_false.x }),
            r.y == (if mask.y { if_true.y } else { if_false.y }),
            r.z == (if mask.z { if_true.z } else { if_false.z }),
            r.w == (if mask.w { if_true.w } else { if_false.w }),
    {
        GVec4 {
            x: if mask.x { if_true.x } else { if_false.x },
            y: if mask.y { if_true.y } else { if_false.y },
            z: if mask.z { if_true.z } else { if_false.z },
            w: if mask.w { if_true.w } else { if_false.w },
        }
    }

    /// Returns `self` with the X component replaced by `x`.
    pub fn with_x(self, x: T) -> (r: GVec4<T>)
        ensures
            r == (GVec4 { x, ..self }),
    {
        GVec4 { x, ..self }
    }

    /// Returns `self` with the Y component replaced by `y`.
    pub fn with_y(self, y: T) -> (r: GVec4<T>)
        ensures
            r == (GVec4 { y, ..self }),
    {
        GVec4 { y, ..self }
    }

    /// Returns `self` with the Z component replaced by `z`.
    pub fn with_z(self, z: T) -> (r: GVec4<T>)
        ensures
            r == (GVec4 { z, ..self }),
    {
        GVec4 { z, ..self }
    }

    /// Returns `self` with the W component replaced by `w`.
    pub fn with_w(self, w: T) -> (r: GVec4<T>)
        ensures
            r == (GVec4 { w, ..self }),
    {
        GVec4 { w, ..self }
    }

    /// Creates a 3D vector from the first 3 components of `self`.
    pub fn truncate(self) -> (r: GVec3<T>)
        ensures
            r == (GVec3 { x: self.x, y: self.y, z: self.z }),
    {
        GVec3::new(self.x, self.y, self.z)
    }
}

impl GVec4<bool> {
    /// Returns `true` if all components are true.
    pub fn all(self) -> (r: bool)
        ensures
            r == (self.x && self.y && self.z && self.w),
    {
        self.x && self.y && self.z && self.w
    }

    /// Returns `true` if any component is true.
    pub fn any(self) -> (r: bool)
        ensures
            r == (self.x || self.y || self.z || self.w),
    {
        self.x || self.y || self.z || self.w
    }

    /// Tests the component at `index`.
    pub fn test(self, index: usize) -> (r: bool)
        requires
            index < 4,
        ensures
            r == self.spec_lane(index as int),
    {
        self.lane(index)
    }

    /// Sets the component at `index` to `value`.
    pub fn set(&mut self, index: usize, value: bool)
        requires
            index < 4,
        ensures
            *final(self) == old(self).spec_with_lane(index as int, value),
    {
        if index == 0 {
            self.x = value;
        } else if index == 1 {
            self.y = value;
        } else if index == 2 {
            self.z = value;
        } else {
        self.w = value;
        }
    }
}

impl<T: Copy> GVec4<T> {
    /// Returns the vector of `f` applied to each component, in the order
    /// `x`, `y`, `z`, `w`.
    pub fn map<F: Fn(T) -> T>(self, f: F) -> (r: GVec4<T>)
        requires
            f.requires((self.x,)),
            f.requires((self.y,)),
            f.requires((self.z,)),
            f.requires((self.w,)),
        ensures
            f.ensures((self.x,), r.x),
            f.ensures((self.y,), r.y),
            f.ensures((self.z,), r.z),
            f.ensures((self.w,), r.w),
    {
        let x = f(self.x);
        let y = f(self.y);
        let z = f(self.z);
        let w = f(self.w);
        GVec4 { x, y, z, w }
    }
}

} // verus!
