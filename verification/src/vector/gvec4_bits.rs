//! Euclidean division, bitwise operations and shifts on 4D vectors of
//! integers, component by component.
use vstd::prelude::*;

use crate::num::{Integer, spec_in_range};
use crate::vector::GVec4;
use vstd::std_specs::ops::{BitAndSpec, BitOrSpec, BitXorSpec, NotSpec};

verus! {

/// Every component of `rhs` is non-zero and the Euclidean quotient of each
/// component of `lhs` by it lies in the range of `T`.
pub open spec fn spec_euclid_fits<T: Integer>(lhs: GVec4<T>, rhs: GVec4<T>) -> bool {
    &&& rhs.x.spec_val() != 0
    &&& spec_in_range::<T>(lhs.x.spec_val() / rhs.x.spec_val())
    &&& rhs.y.spec_val() != 0
    &&& spec_in_range::<T>(lhs.y.spec_val() / rhs.y.spec_val())
    &&& rhs.z.spec_val() != 0
    &&& spec_in_range::<T>(lhs.z.spec_val() / rhs.z.spec_val())
    &&& rhs.w.spec_val() != 0
    &&& spec_in_range::<T>(lhs.w.spec_val() / rhs.w.spec_val())
}

/// `n` is a valid shift amount for `T`: it lies in `0..BITS`.
pub open spec fn spec_shift_fits<T: Integer>(n: T) -> bool {
    0 <= n.spec_val() < T::spec_bits()
}

impl<T: Integer> GVec4<T> {
    /// Returns the component-wise Euclidean quotient of `self` by `rhs`: the
    /// quotient is rounded so that the remainder is never negative.
    ///
    /// Every component of `rhs` must be non-zero and no quotient may overflow.
    pub fn div_euclid(self, rhs: GVec4<T>) -> (r: GVec4<T>)
        requires
            spec_euclid_fits(self, rhs),
        ensures
            r.x.spec_val() == self.x.spec_val() / rhs.x.spec_val(),
            r.y.spec_val() == self.y.spec_val() / rhs.y.spec_val(),
            r.z.spec_val() == self.z.spec_val() / rhs.z.spec_val(),
            r.w.spec_val() == self.w.spec_val() / rhs.w.spec_val(),
    {
        GVec4::new(
            self.x.num_div_euclid(rhs.x),
            self.y.num_div_euclid(rhs.y),
            self.z.num_div_euclid(rhs.z),
            self.w.num_div_euclid(rhs.w),
        )
    }

    /// Returns the component-wise Euclidean remainder of `self` by `rhs`,
    /// which lies in `0..|rhs|`.
    ///
    /// Every component of `rhs` must be non-zero and no quotient may overflow.
    pub fn rem_euclid(self, rhs: GVec4<T>) -> (r: GVec4<T>)
        requires
            spec_euclid_fits(self, rhs),
        ensures
            r.x.spec_val() == self.x.spec_val() % rhs.x.spec_val(),
            r.y.spec_val() == self.y.spec_val() % rhs.y.spec_val(),
            r.z.spec_val() == self.z.spec_val() % rhs.z.spec_val(),
            r.w.spec_val() == self.w.spec_val() % rhs.w.spec_val(),
    {
        GVec4::new(
            self.x.num_rem_euclid(rhs.x),
            self.y.num_rem_euclid(rhs.y),
            self.z.num_rem_euclid(rhs.z),
            self.w.num_rem_euclid(rhs.w),
        )
    }
}


impl<T: Integer> core::ops::BitAnd for GVec4<T> {
    type Output = GVec4<T>;

    /// The component-wise bitwise AND.
    fn bitand(self, rhs: GVec4<T>) -> (r: GVec4<T>) {
        GVec4::new(
            self.x.num_bitand(rhs.x),
            self.y.num_bitand(rhs.y),
            self.z.num_bitand(rhs.z),
            self.w.num_bitand(rhs.w),
        )
    }
}

impl<T: Integer> vstd::std_specs::ops::BitAndSpecImpl for GVec4<T> {
    open spec fn obeys_bitand_spec() -> bool {
        true
    }

    open spec fn bitand_req(self, rhs: GVec4<T>) -> bool {
        true
    }

    open spec fn bitand_spec(self, rhs: GVec4<T>) -> GVec4<T> {
        GVec4 {
            x: self.x.bits_and(rhs.x),
            y: self.y.bits_and(rhs.y),
            z: self.z.bits_and(rhs.z),
            w: self.w.bits_and(rhs.w),
        }
    }
}


impl<T: Integer> core::ops::BitOr for GVec4<T> {
    type Output = GVec4<T>;

    /// The component-wise bitwise OR.
    fn bitor(self, rhs: GVec4<T>) -> (r: GVec4<T>) {
        GVec4::new(
            self.x.num_bitor(rhs.x),
            self.y.num_bitor(rhs.y),
            self.z.num_bitor(rhs.z),
            self.w.num_bitor(rhs.w),
        )
    }
}

impl<T: Integer> vstd::std_specs::ops::BitOrSpecImpl for GVec4<T> {
    open spec fn obeys_bitor_spec() -> bool {
        true
    }

    open spec fn bitor_req(self, rhs: GVec4<T>) -> bool {
        true
    }

    open spec fn bitor_spec(self, rhs: GVec4<T>) -> GVec4<T> {
        GVec4 {
            x: self.x.bits_or(rhs.x),
            y: self.y.bits_or(rhs.y),
            z: self.z.bits_or(rhs.z),
            w: self.w.bits_or(rhs.w),
        }
    }
}


impl<T: Integer> core::ops::BitXor for GVec4<T> {
    type Output = GVec4<T>;

    /// The component-wise bitwise exclusive OR.
    fn bitxor(self, rhs: GVec4<T>) -> (r: GVec4<T>) {
        GVec4::new(
            self.x.num_bitxor(rhs.x),
            self.y.num_bitxor(rhs.y),
            self.z.num_bitxor(rhs.z),
            self.w.num_bitxor(rhs.w),
        )
    }
}

impl<T: Integer> vstd::std_specs::ops::BitXorSpecImpl for GVec4<T> {
    open spec fn obeys_bitxor_spec() -> bool {
        true
    }

    open spec fn bitxor_req(self, rhs: GVec4<T>) -> bool {
        true
    }

    open spec fn bitxor_spec(self, rhs: GVec4<T>) -> GVec4<T> {
        GVec4 {
            x: self.x.bits_xor(rhs.x),
            y: self.y.bits_xor(rhs.y),
            z: self.z.bits_xor(rhs.z),
            w: self.w.bits_xor(rhs.w),
        }
    }
}


impl<T: Integer> core::ops::Not for GVec4<T> {
    type Output = GVec4<T>;

    /// The component-wise bitwise complement.
    fn not(self) -> (r: GVec4<T>) {
        GVec4::new(self.x.num_not(), self.y.num_not(), self.z.num_not(), self.w.num_not())
    }
}

impl<T: Integer> vstd::std_specs::ops::NotSpecImpl for GVec4<T> {
    open spec fn obeys_not_spec() -> bool {
        true
    }

    open spec fn not_req(self) -> bool {
        true
    }

    open spec fn not_spec(self) -> GVec4<T> {
        GVec4 {
            x: self.x.bits_not(),
            y: self.y.bits_not(),
            z: self.z.bits_not(),
            w: self.w.bits_not(),
        }
    }
}


impl<T: Integer> core::ops::Shl<T> for GVec4<T> {
    type Output = GVec4<T>;

    /// Shifts each component left by `rhs` bits; `rhs` must lie in `0..BITS`.
    fn shl(self, rhs: T) -> (r: GVec4<T>) {
        GVec4::new(
            self.x.num_shl(rhs),
            self.y.num_shl(rhs),
            self.z.num_shl(rhs),
            self.w.num_shl(rhs),
        )
    }
}

impl<T: Integer> vstd::std_specs::ops::ShlSpecImpl<T> for GVec4<T> {
    open spec fn obeys_shl_spec() -> bool {
        true
    }

    open spec fn shl_req(self, rhs: T) -> bool {
        spec_shift_fits(rhs)
    }

    open spec fn shl_spec(self, rhs: T) -> GVec4<T> {
        GVec4 {
            x: self.x.bits_shl(rhs),
            y: self.y.bits_shl(rhs),
            z: self.z.bits_shl(rhs),
            w: self.w.bits_shl(rhs),
        }
    }
}


impl<T: Integer> core::ops::Shr<T> for GVec4<T> {
    type Output = GVec4<T>;

    /// Shifts each component right by `rhs` bits; `rhs` must lie in `0..BITS`.
    fn shr(self, rhs: T) -> (r: GVec4<T>) {
        GVec4::new(
            self.x.num_shr(rhs),
            self.y.num_shr(rhs),
            self.z.num_shr(rhs),
            self.w.num_shr(rhs),
        )
    }
}

impl<T: Integer> vstd::std_specs::ops::ShrSpecImpl<T> for GVec4<T> {
    open spec fn obeys_shr_spec() -> bool {
        true
    }

    open spec fn shr_req(self, rhs: T) -> bool {
        spec_shift_fits(rhs)
    }

    open spec fn shr_spec(self, rhs: T) -> GVec4<T> {
        GVec4 {
            x: self.x.bits_shr(rhs),
            y: self.y.bits_shr(rhs),
            z: self.z.bits_shr(rhs),
            w: self.w.bits_shr(rhs),
        }
    }
}


impl core::ops::BitAnd for GVec4<bool> {
    type Output = GVec4<bool>;

    /// The component-wise logical AND of two masks.
    fn bitand(self, rhs: GVec4<bool>) -> (r: GVec4<bool>) {
        GVec4::new(self.x && rhs.x, self.y && rhs.y, self.z && rhs.z, self.w && rhs.w)
    }
}

impl vstd::std_specs::ops::BitAndSpecImpl for GVec4<bool> {
    open spec fn obeys_bitand_spec() -> bool {
        true
    }

    open spec fn bitand_req(self, rhs: GVec4<bool>) -> bool {
        true
    }

    open spec fn bitand_spec(self, rhs: GVec4<bool>) -> GVec4<bool> {
        GVec4 { x: self.x && rhs.x, y: self.y && rhs.y, z: self.z && rhs.z, w: self.w && rhs.w }
    }
}


impl core::ops::BitOr for GVec4<bool> {
    type Output = GVec4<bool>;

    /// The component-wise logical OR of two masks.
    fn bitor(self, rhs: GVec4<bool>) -> (r: GVec4<bool>) {
        GVec4::new(self.x || rhs.x, self.y || rhs.y, self.z || rhs.z, self.w || rhs.w)
    }
}

impl vstd::std_specs::ops::BitOrSpecImpl for GVec4<bool> {
    open spec fn obeys_bitor_spec() -> bool {
        true
    }

    open spec fn bitor_req(self, rhs: GVec4<bool>) -> bool {
        true
    }

    open spec fn bitor_spec(self, rhs: GVec4<bool>) -> GVec4<bool> {
        GVec4 { x: self.x || rhs.x, y: self.y || rhs.y, z: self.z || rhs.z, w: self.w || rhs.w }
    }
}


impl core::ops::BitXor for GVec4<bool> {
    type Output = GVec4<bool>;

    /// The component-wise exclusive OR of two masks.
    fn bitxor(self, rhs: GVec4<bool>) -> (r: GVec4<bool>) {
        GVec4::new(self.x != rhs.x, self.y != rhs.y, self.z != rhs.z, self.w != rhs.w)
    }
}

impl vstd::std_specs::ops::BitXorSpecImpl for GVec4<bool> {
    open spec fn obeys_bitxor_spec() -> bool {
        true
    }

    open spec fn bitxor_req(self, rhs: GVec4<bool>) -> bool {
        true
    }

    open spec fn bitxor_spec(self, rhs: GVec4<bool>) -> GVec4<bool> {
        GVec4 { x: self.x != rhs.x, y: self.y != rhs.y, z: self.z != rhs.z, w: self.w != rhs.w }
    }
}


impl core::ops::Not for GVec4<bool> {
    type Output = GVec4<bool>;

    /// The component-wise negation of a mask.
    fn not(self) -> (r: GVec4<bool>) {
        GVec4::new(!self.x, !self.y, !self.z, !self.w)
    }
}

impl vstd::std_specs::ops::NotSpecImpl for GVec4<bool> {
    open spec fn obeys_not_spec() -> bool {
        true
    }

    open spec fn not_req(self) -> bool {
        true
    }

    open spec fn not_spec(self) -> GVec4<bool> {
        GVec4 { x: !self.x, y: !self.y, z: !self.z, w: !self.w }
    }
}


/// Mask logic works lane by lane: a lane of `a & b` is set exactly when it is
/// set in both masks, a lane of `a | b` when it is set in either, a lane of
/// `a ^ b` when it is set in exactly one, and a lane of `!a` when it is not
/// set in `a`. So `a & b` has every lane set only when both masks do, `a ^ a`
/// has no lane set, and De Morgan's laws hold.
pub proof fn lemma_mask_logic(a: GVec4<bool>, b: GVec4<bool>)
    ensures
        a.bitand_spec(b).x == (a.x && b.x),
        a.bitand_spec(b).y == (a.y && b.y),
        a.bitand_spec(b).z == (a.z && b.z),
        a.bitand_spec(b).w == (a.w && b.w),
        a.bitor_spec(b).x == (a.x || b.x),
        a.bitor_spec(b).y == (a.y || b.y),
        a.bitor_spec(b).z == (a.z || b.z),
        a.bitor_spec(b).w == (a.w || b.w),
        a.bitxor_spec(b).x == (a.x != b.x),
        a.bitxor_spec(b).y == (a.y != b.y),
        a.bitxor_spec(b).z == (a.z != b.z),
        a.bitxor_spec(b).w == (a.w != b.w),
        a.not_spec().x == !a.x,
        a.not_spec().y == !a.y,
        a.not_spec().z == !a.z,
        a.not_spec().w == !a.w,
        (a.bitand_spec(b).x && a.bitand_spec(b).y && a.bitand_spec(b).z && a.bitand_spec(b).w) == (
        (a.x && a.y && a.z && a.w) && (b.x && b.y && b.z && b.w)),
        (a.bitor_spec(b).x || a.bitor_spec(b).y || a.bitor_spec(b).z || a.bitor_spec(b).w) == (
        (a.x || a.y || a.z || a.w) || (b.x || b.y || b.z || b.w)),
        a.bitand_spec(a) == a,
        a.bitor_spec(a) == a,
        a.bitxor_spec(a) == (GVec4 { x: false, y: false, z: false, w: false }),
        a.bitand_spec(b).not_spec() == a.not_spec().bitor_spec(b.not_spec()),
        a.bitor_spec(b).not_spec() == a.not_spec().bitand_spec(b.not_spec()),
{
}

} // verus!
