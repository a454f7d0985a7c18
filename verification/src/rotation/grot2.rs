//! A generic 2D rotation.
use vstd::prelude::*;

use crate::vector::{GVec2};

verus! {

/// Creates a 2D rotation from the cosine and sine of its angle.
pub fn grot2<T: Copy>(cos: T, sin: T) -> (r: GRot2<T>)
    ensures
        r == (GRot2 { cos, sin }),
{
    GRot2::from_cos_sin(cos, sin)
}

/// A 2D rotation represented as a unit complex number.
#[derive(Clone, Copy)]
pub struct GRot2<T: Copy> {
    /// The cosine of the rotation angle: the real part of the unit complex number.
    pub cos: T,
    /// The sine of the rotation angle: the imaginary part of the unit complex number.
    pub sin: T,
}

impl<T: Copy> GRot2<T> {
    /// The components in order.
    pub open spec fn spec_array(self) -> Seq<T> {
        seq![self.cos, self.sin]
    }

    /// Creates a value from its components.
    pub fn from_cos_sin(cos: T, sin: T) -> (r: GRot2<T>)
        ensures
            r == (GRot2 { cos, sin }),
    {
        GRot2 { cos, sin }
    }

    /// Returns `if_true` when `boolean` holds and `if_false` otherwise.
    pub fn select(boolean: bool, if_true: GRot2<T>, if_false: GRot2<T>) -> (r: GRot2<T>)
        ensures
            r == (if boolean {
                if_true
            } else {
                if_false
            }),
    {
        if boolean {
            if_true
        } else {
            if_false
        }
    }

    /// Creates a value from an array `[cos, sin]`.
    pub fn from_array(a: [T; 2]) -> (r: GRot2<T>)
        ensures
            r.spec_array() == a@,
    {
        let r = GRot2 { cos: a[0], sin: a[1] };
        assert(r.spec_array() =~= a@);
        r
    }

    /// Creates a value from a vector `(cos, sin)`.
    pub fn from_vec2(v: GVec2<T>) -> (r: GRot2<T>)
        ensures
            r.spec_array() == v.spec_array(),
    {
        let r = GRot2 { cos: v.x, sin: v.y };
        assert(r.spec_array() =~= v.spec_array());
        r
    }

    /// Creates a value from the first 2 elements of `slice`.
    pub fn from_slice(slice: &[T]) -> (r: GRot2<T>)
        requires
            slice@.len() >= 2,
        ensures
            r.spec_array() == slice@.subrange(0, 2),
    {
        let r = GRot2 { cos: slice[0], sin: slice[1] };
        assert(r.spec_array() =~= slice@.subrange(0, 2));
        r
    }

    /// Writes the components to the first 2 elements of `slice`.
    pub fn write_to_slice(self, slice: &mut [T])
        requires
            old(slice)@.len() >= 2,
        ensures
            final(slice)@ == self.spec_array() + old(slice)@.subrange(2, old(slice)@.len() as int),
    {
        slice[0] = self.cos;
        slice[1] = self.sin;
        assert(slice@ =~= self.spec_array() + old(slice)@.subrange(2, old(slice)@.len() as int));
    }

    /// Returns the components as an array `[cos, sin]`.
    pub fn to_array(self) -> (r: [T; 2])
        ensures
            r@ == self.spec_array(),
    {
        let r = [self.cos, self.sin];
        assert(r@ =~= self.spec_array());
        r
    }
}

} // verus!
