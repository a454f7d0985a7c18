//! A generic 2-dimensional vector.
use vstd::prelude::*;

use crate::vector::GVec3;

verus! {

/// Creates a 2-dimensional vector.
pub fn gvec2<T: Copy>(x: T, y: T) -> (r: GVec2<T>)
    ensures
        r == (GVec2 { x, y }),
{
    GVec2::new(x, y)
}

/// A 2-dimensional vector.
#[derive(Clone, Copy)]
pub struct GVec2<T: Copy> {
    /// The X component of the vector.
    pub x: T,
    /// The Y component of the vector.
    pub y: T,
}

impl<T: Copy> GVec2<T> {
    /// The component at `i` (0 for X, 1 for Y, ...).
    pub open spec fn spec_lane(self, i: int) -> T
        recommends
            0 <= i < 2,
    {
        if i == 0 {
            self.x
        } else {
            self.y
        }
    }

    /// The components in order.
    pub open spec fn spec_array(self) -> Seq<T> {
        seq![self.x, self.y]
    }

    /// `self` with the component at `i` replaced by `v`.
    pub open spec fn spec_with_lane(self, i: int, v: T) -> GVec2<T> {
        if i == 0 {
            GVec2 { x: v, ..self }
        } else {
            GVec2 { y: v, ..self }
        }
    }

    /// Creates a new vector.
    pub fn new(x: T, y: T) -> (r: GVec2<T>)
        ensures
            r == (GVec2 { x, y }),
    {
        GVec2 { x, y }
    }

    /// Creates a new vector with all components set to `v`.
    pub fn splat(v: T) -> (r: GVec2<T>)
        ensures
            r == (GVec2 { x: v, y: v }),
    {
        GVec2 { x: v, y: v }
    }

    /// Creates a new vector from an array.
    pub fn from_array(arr: [T; 2]) -> (r: GVec2<T>)
        ensures
            r.spec_array() == arr@,
    {
        let r = GVec2 { x: arr[0], y: arr[1] };
        assert(r.spec_array() =~= arr@);
        r
    }

    /// Returns the vector as an array.
    pub fn to_array(self) -> (r: [T; 2])
        ensures
            r@ == self.spec_array(),
    {
        let r = [self.x, self.y];
        assert(r@ =~= self.spec_array());
        r
    }

    /// Creates a vector from the first 2 elements in `slice`.
    pub fn from_slice(slice: &[T]) -> (r: GVec2<T>)
        requires
            slice@.len() >= 2,
        ensures
            r.spec_array() == slice@.subrange(0, 2),
    {
        let r = GVec2 { x: slice[0], y: slice[1] };
        assert(r.spec_array() =~= slice@.subrange(0, 2));
        r
    }

    /// Writes the components of `self` to the first 2 elements in `slice`.
    pub fn write_to_slice(self, slice: &mut [T])
        requires
            old(slice)@.len() >= 2,
        ensures
            final(slice)@ == self.spec_array() + old(slice)@.subrange(2, old(slice)@.len() as int),
    {
        slice[0] = self.x;
        slice[1] = self.y;
        assert(slice@ =~= self.spec_array() + old(slice)@.subrange(2, old(slice)@.len() as int));
    }

    /// Returns the component at `index`.
    pub fn lane(&self, index: usize) -> (r: T)
        requires
            index < 2,
        ensures
            r == self.spec_lane(index as int),
    {
        if index == 0 {
            self.x
        } else {
            self.y
        }
    }

    /// Returns a mutable reference to the component at `index`.
    pub fn lane_mut(&mut self, index: usize) -> (r: &mut T)
        requires
            index < 2,
        ensures
            *r == old(self).spec_lane(index as int),
            *final(self) == old(self).spec_with_lane(index as int, *final(r)),
    {
        if index == 0 {
            &mut self.x
        } else {
            &mut self.y
        }
    }

    /// Returns `if_true` when `boolean` holds and `if_false` otherwise.
    pub fn select(boolean: bool, if_true: GVec2<T>, if_false: GVec2<T>) -> (r: GVec2<T>)
        ensures
            r == (if boolean {
                if_true
            } else {
                if_false
            }),
    {
        if boolean {
            if_true
        } else {
            if_false
        }
    }

    /// Takes each component from `if_true` where the same component of `mask`
    /// is true, and from `if_false` where it is false.
    pub fn select_mask(mask: GVec2<bool>, if_true: GVec2<T>, if_false: GVec2<T>) -> (r: GVec2<T>)
        ensures
            r.x == (if mask.x { if_true.x } else { if_false.x }),
            r.y == (if mask.y { if_true.y } else { if_false.y }),
    {
        GVec2 {
            x: if mask.x { if_true.x } else { if_false.x },
            y: if mask.y { if_true.y } else { if_false.y },
        }
    }

    /// Returns `self` with the X component replaced by `x`.
    pub fn with_x(self, x: T) -> (r: GVec2<T>)
        ensures
            r == (GVec2 { x, ..self }),
    {
        GVec2 { x, ..self }
    }

    /// Returns `self` with the Y component replaced by `y`.
    pub fn with_y(self, y: T) -> (r: GVec2<T>)
        ensures
            r == (GVec2 { y, ..self }),
    {
        GVec2 { y, ..self }
    }

    /// Creates a 3D vector from `self` and the given `z` component.
    pub fn extend(self, z: T) -> (r: GVec3<T>)
        ensures
            r == (GVec3 { x: self.x, y: self.y, z }),
    {
        GVec3 { x: self.x, y: self.y, z }
    }
}

impl GVec2<bool> {
    /// Returns `true` if all components are true.
    pub fn all(self) -> (r: bool)
        ensures
            r == (self.x && self.y),
    {
        self.x && self.y
    }

    /// Returns `true` if any component is true.
    pub fn any(self) -> (r: bool)
        ensures
            r == (self.x || self.y),
    {
        self.x || self.y
    }

    /// Tests the component at `index`.
    pub fn test(self, index: usize) -> (r: bool)
        requires
            index < 2,
        ensures
            r == self.spec_lane(index as int),
    {
        self.lane(index)
    }

    /// Sets the component at `index` to `value`.
    pub fn set(&mut self, index: usize, value: bool)
        requires
            index < 2,
        ensures
            *final(self) == old(self).spec_with_lane(index as int, value),
    {
        if index == 0 {
            self.x = value;
        } else {
        self.y = value;
        }
    }
}

} // verus!
