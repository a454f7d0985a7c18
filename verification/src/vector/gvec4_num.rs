//! Arithmetic, comparison and selection on 4D vectors of integers.
use vstd::prelude::*;

use crate::num::{
    Integer, SignedInteger, spec_checked, spec_in_range, spec_saturate, spec_trunc_div, spec_trunc_rem, spec_wrap,
};
use crate::vector::GVec4;

verus! {

/// The lesser of `a` and `b` (the first when they are equal).
pub open spec fn spec_min_elem<T: Integer>(a: T, b: T) -> T {
    if b.spec_val() < a.spec_val() {
        b
    } else {
        a
    }
}

/// The greater of `a` and `b` (the second when they are equal).
pub open spec fn spec_max_elem<T: Integer>(a: T, b: T) -> T {
    if b.spec_val() < a.spec_val() {
        a
    } else {
        b
    }
}

/// The vector of the four values when all of them are present, `None` otherwise.
pub open spec fn spec_all_some<T: Copy>(
    x: Option<T>,
    y: Option<T>,
    z: Option<T>,
    w: Option<T>,
) -> Option<GVec4<T>> {
    match (x, y, z, w) {
        (Some(x), Some(y), Some(z), Some(w)) => Some(GVec4 { x, y, z, w }),
        _ => None,
    }
}

/// The vector whose components have the values `x`, `y`, `z` and `w`.
pub open spec fn spec_from_vals<T: Integer>(x: int, y: int, z: int, w: int) -> GVec4<T> {
    GVec4 { x: T::spec_from(x), y: T::spec_from(y), z: T::spec_from(z), w: T::spec_from(w) }
}

impl<T: Integer> GVec4<T> {
    /// Returns a mask holding the result of a `==` comparison for each component
    /// of `self` and `rhs`.
    pub fn cmpeq(self, rhs: GVec4<T>) -> (r: GVec4<bool>)
        ensures
            r.x == (self.x.spec_val() == rhs.x.spec_val()),
            r.y == (self.y.spec_val() == rhs.y.spec_val()),
            r.z == (self.z.spec_val() == rhs.z.spec_val()),
            r.w == (self.w.spec_val() == rhs.w.spec_val()),
    {
        GVec4::new(
            self.x.num_eq(rhs.x),
            self.y.num_eq(rhs.y),
            self.z.num_eq(rhs.z),
            self.w.num_eq(rhs.w),
        )
    }

    /// Returns a mask holding the result of a `!=` comparison for each component
    /// of `self` and `rhs`.
    pub fn cmpne(self, rhs: GVec4<T>) -> (r: GVec4<bool>)
        ensures
            r.x == (self.x.spec_val() != rhs.x.spec_val()),
            r.y == (self.y.spec_val() != rhs.y.spec_val()),
            r.z == (self.z.spec_val() != rhs.z.spec_val()),
            r.w == (self.w.spec_val() != rhs.w.spec_val()),
    {
        GVec4::new(
            self.x.num_ne(rhs.x),
            self.y.num_ne(rhs.y),
            self.z.num_ne(rhs.z),
            self.w.num_ne(rhs.w),
        )
    }

    /// Returns a mask holding the result of a `>=` comparison for each component
    /// of `self` and `rhs`.
    pub fn cmpge(self, rhs: GVec4<T>) -> (r: GVec4<bool>)
        ensures
            r.x == (self.x.spec_val() >= rhs.x.spec_val()),
            r.y == (self.y.spec_val() >= rhs.y.spec_val()),
            r.z == (self.z.spec_val() >= rhs.z.spec_val()),
            r.w == (self.w.spec_val() >= rhs.w.spec_val()),
    {
        GVec4::new(
            self.x.num_ge(rhs.x),
            self.y.num_ge(rhs.y),
            self.z.num_ge(rhs.z),
            self.w.num_ge(rhs.w),
        )
    }

    /// Returns a mask holding the result of a `>` comparison for each component
    /// of `self` and `rhs`.
    pub fn cmpgt(self, rhs: GVec4<T>) -> (r: GVec4<bool>)
        ensures
            r.x == (self.x.spec_val() > rhs.x.spec_val()),
            r.y == (self.y.spec_val() > rhs.y.spec_val()),
            r.z == (self.z.spec_val() > rhs.z.spec_val()),
            r.w == (self.w.spec_val() > rhs.w.spec_val()),
    {
        GVec4::new(
            self.x.num_gt(rhs.x),
            self.y.num_gt(rhs.y),
            self.z.num_gt(rhs.z),
            self.w.num_gt(rhs.w),
        )
    }

    /// Returns a mask holding the result of a `<=` comparison for each component
    /// of `self` and `rhs`.
    pub fn cmple(self, rhs: GVec4<T>) -> (r: GVec4<bool>)
        ensures
            r.x == (self.x.spec_val() <= rhs.x.spec_val()),
            r.y == (self.y.spec_val() <= rhs.y.spec_val()),
            r.z == (self.z.spec_val() <= rhs.z.spec_val()),
            r.w == (self.w.spec_val() <= rhs.w.spec_val()),
    {
        GVec4::new(
            self.x.num_le(rhs.x),
            self.y.num_le(rhs.y),
            self.z.num_le(rhs.z),
            self.w.num_le(rhs.w),
        )
    }

    /// Returns a mask holding the result of a `<` comparison for each component
    /// of `self` and `rhs`.
    pub fn cmplt(self, rhs: GVec4<T>) -> (r: GVec4<bool>)
        ensures
            r.x == (self.x.spec_val() < rhs.x.spec_val()),
            r.y == (self.y.spec_val() < rhs.y.spec_val()),
            r.z == (self.z.spec_val() < rhs.z.spec_val()),
            r.w == (self.w.spec_val() < rhs.w.spec_val()),
    {
        GVec4::new(
            self.x.num_lt(rhs.x),
            self.y.num_lt(rhs.y),
            self.z.num_lt(rhs.z),
            self.w.num_lt(rhs.w),
        )
    }

    /// Returns the lesser of each component of `self` and `rhs`.
    pub fn min(self, rhs: GVec4<T>) -> (r: GVec4<T>)
        ensures
            r.x == spec_min_elem(self.x, rhs.x),
            r.y == spec_min_elem(self.y, rhs.y),
            r.z == spec_min_elem(self.z, rhs.z),
            r.w == spec_min_elem(self.w, rhs.w),
    {
        GVec4::new(
            self.x.num_min(rhs.x),
            self.y.num_min(rhs.y),
            self.z.num_min(rhs.z),
            self.w.num_min(rhs.w),
        )
    }

    /// Returns the greater of each component of `self` and `rhs`.
    pub fn max(self, rhs: GVec4<T>) -> (r: GVec4<T>)
        ensures
            r.x == spec_max_elem(self.x, rhs.x),
            r.y == spec_max_elem(self.y, rhs.y),
            r.z == spec_max_elem(self.z, rhs.z),
            r.w == spec_max_elem(self.w, rhs.w),
    {
        GVec4::new(
            self.x.num_max(rhs.x),
            self.y.num_max(rhs.y),
            self.z.num_max(rhs.z),
            self.w.num_max(rhs.w),
        )
    }

    /// Clamps each component of `self` between the same components of `min` and
    /// `max`: the greater of the component and `min`, then the lesser of that and
    /// `max`. Each component of `min` is meant to be at most that of `max`.
    pub fn clamp(self, min: GVec4<T>, max: GVec4<T>) -> (r: GVec4<T>)
        ensures
            r.x == spec_min_elem(spec_max_elem(self.x, min.x), max.x),
            r.y == spec_min_elem(spec_max_elem(self.y, min.y), max.y),
            r.z == spec_min_elem(spec_max_elem(self.z, min.z), max.z),
            r.w == spec_min_elem(spec_max_elem(self.w, min.w), max.w),
    {
        self.max(min).min(max)
    }

    /// Returns the least component of `self`.
    pub fn min_element(self) -> (r: T)
        ensures
            r == spec_min_elem(spec_min_elem(spec_min_elem(self.x, self.y), self.z), self.w),
    {
        self.x.num_min(self.y).num_min(self.z).num_min(self.w)
    }

    /// Returns the greatest component of `self`.
    pub fn max_element(self) -> (r: T)
        ensures
            r == spec_max_elem(spec_max_elem(spec_max_elem(self.x, self.y), self.z), self.w),
    {
        self.x.num_max(self.y).num_max(self.z).num_max(self.w)
    }

    /// Returns the component-wise `+` of `self` and `rhs`, or `None` if any
    /// component overflows.
    pub fn checked_add(self, rhs: GVec4<T>) -> (r: Option<GVec4<T>>)
        ensures
            r == spec_all_some(
                spec_checked::<T>(self.x.spec_val() + rhs.x.spec_val()),
                spec_checked::<T>(self.y.spec_val() + rhs.y.spec_val()),
                spec_checked::<T>(self.z.spec_val() + rhs.z.spec_val()),
                spec_checked::<T>(self.w.spec_val() + rhs.w.spec_val()),
            ),
    {
        match (
            self.x.checked_add(rhs.x),
            self.y.checked_add(rhs.y),
            self.z.checked_add(rhs.z),
            self.w.checked_add(rhs.w),
        ) {
            (Some(x), Some(y), Some(z), Some(w)) => Some(GVec4::new(x, y, z, w)),
            _ => None,
        }
    }

    /// Returns the component-wise `-` of `self` and `rhs`, or `None` if any
    /// component overflows.
    pub fn checked_sub(self, rhs: GVec4<T>) -> (r: Option<GVec4<T>>)
        ensures
            r == spec_all_some(
                spec_checked::<T>(self.x.spec_val() - rhs.x.spec_val()),
                spec_checked::<T>(self.y.spec_val() - rhs.y.spec_val()),
                spec_checked::<T>(self.z.spec_val() - rhs.z.spec_val()),
                spec_checked::<T>(self.w.spec_val() - rhs.w.spec_val()),
            ),
    {
        match (
            self.x.checked_sub(rhs.x),
            self.y.checked_sub(rhs.y),
            self.z.checked_sub(rhs.z),
            self.w.checked_sub(rhs.w),
        ) {
            (Some(x), Some(y), Some(z), Some(w)) => Some(GVec4::new(x, y, z, w)),
            _ => None,
        }
    }

    /// Returns the component-wise `*` of `self` and `rhs`, or `None` if any
    /// component overflows.
    pub fn checked_mul(self, rhs: GVec4<T>) -> (r: Option<GVec4<T>>)
        ensures
            r == spec_all_some(
                spec_checked::<T>(self.x.spec_val() * rhs.x.spec_val()),
                spec_checked::<T>(self.y.spec_val() * rhs.y.spec_val()),
                spec_checked::<T>(self.z.spec_val() * rhs.z.spec_val()),
                spec_checked::<T>(self.w.spec_val() * rhs.w.spec_val()),
            ),
    {
        match (
            self.x.checked_mul(rhs.x),
            self.y.checked_mul(rhs.y),
            self.z.checked_mul(rhs.z),
            self.w.checked_mul(rhs.w),
        ) {
            (Some(x), Some(y), Some(z), Some(w)) => Some(GVec4::new(x, y, z, w)),
            _ => None,
        }
    }

    /// Returns the component-wise quotient of `self` and `rhs` rounding toward
    /// zero, or `None` if any component of `rhs` is zero or any quotient overflows.
    pub fn checked_div(self, rhs: GVec4<T>) -> (r: Option<GVec4<T>>)
        ensures
            r == spec_all_some(
                (if rhs.x.spec_val() == 0 { None } else { spec_checked::<T>(spec_trunc_div(
                    self.x.spec_val(),
                    rhs.x.spec_val(),
                )) }),
                (if rhs.y.spec_val() == 0 { None } else { spec_checked::<T>(spec_trunc_div(
                    self.y.spec_val(),
                    rhs.y.spec_val(),
                )) }),
                (if rhs.z.spec_val() == 0 { None } else { spec_checked::<T>(spec_trunc_div(
                    self.z.spec_val(),
                    rhs.z.spec_val(),
                )) }),
                (if rhs.w.spec_val() == 0 { None } else { spec_checked::<T>(spec_trunc_div(
                    self.w.spec_val(),
                    rhs.w.spec_val(),
                )) }),
            ),
    {
        match (
            self.x.checked_div(rhs.x),
            self.y.checked_div(rhs.y),
            self.z.checked_div(rhs.z),
            self.w.checked_div(rhs.w),
        ) {
            (Some(x), Some(y), Some(z), Some(w)) => Some(GVec4::new(x, y, z, w)),
            _ => None,
        }
    }

    /// Returns the component-wise wrapping `+` of `self` and `rhs`.
    pub fn wrapping_add(self, rhs: GVec4<T>) -> (r: GVec4<T>)
        ensures
            r.x.spec_val() == spec_wrap::<T>(self.x.spec_val() + rhs.x.spec_val()),
            r.y.spec_val() == spec_wrap::<T>(self.y.spec_val() + rhs.y.spec_val()),
            r.z.spec_val() == spec_wrap::<T>(self.z.spec_val() + rhs.z.spec_val()),
            r.w.spec_val() == spec_wrap::<T>(self.w.spec_val() + rhs.w.spec_val()),
    {
        GVec4::new(
            self.x.wrapping_add(rhs.x),
            self.y.wrapping_add(rhs.y),
            self.z.wrapping_add(rhs.z),
            self.w.wrapping_add(rhs.w),
        )
    }

    /// Returns the component-wise wrapping `-` of `self` and `rhs`.
    pub fn wrapping_sub(self, rhs: GVec4<T>) -> (r: GVec4<T>)
        ensures
            r.x.spec_val() == spec_wrap::<T>(self.x.spec_val() - rhs.x.spec_val()),
            r.y.spec_val() == spec_wrap::<T>(self.y.spec_val() - rhs.y.spec_val()),
            r.z.spec_val() == spec_wrap::<T>(self.z.spec_val() - rhs.z.spec_val()),
            r.w.spec_val() == spec_wrap::<T>(self.w.spec_val() - rhs.w.spec_val()),
    {
        GVec4::new(
            self.x.wrapping_sub(rhs.x),
            self.y.wrapping_sub(rhs.y),
            self.z.wrapping_sub(rhs.z),
            self.w.wrapping_sub(rhs.w),
        )
    }

    /// Returns the component-wise wrapping `*` of `self` and `rhs`.
    pub fn wrapping_mul(self, rhs: GVec4<T>) -> (r: GVec4<T>)
        ensures
            r.x.spec_val() == spec_wrap::<T>(self.x.spec_val() * rhs.x.spec_val()),
            r.y.spec_val() == spec_wrap::<T>(self.y.spec_val() * rhs.y.spec_val()),
            r.z.spec_val() == spec_wrap::<T>(self.z.spec_val() * rhs.z.spec_val()),
            r.w.spec_val() == spec_wrap::<T>(self.w.spec_val() * rhs.w.spec_val()),
    {
        GVec4::new(
            self.x.wrapping_mul(rhs.x),
            self.y.wrapping_mul(rhs.y),
            self.z.wrapping_mul(rhs.z),
            self.w.wrapping_mul(rhs.w),
        )
    }

    /// Returns the component-wise wrapping quotient of `self` and `rhs`, rounding
    /// toward zero. No component of `rhs` may be zero.
    pub fn wrapping_div(self, rhs: GVec4<T>) -> (r: GVec4<T>)
        requires
            rhs.x.spec_val() != 0,
            rhs.y.spec_val() != 0,
            rhs.z.spec_val() != 0,
            rhs.w.spec_val() != 0,
        ensures
            r.x.spec_val() == spec_wrap::<T>(spec_trunc_div(self.x.spec_val(), rhs.x.spec_val())),
            r.y.spec_val() == spec_wrap::<T>(spec_trunc_div(self.y.spec_val(), rhs.y.spec_val())),
            r.z.spec_val() == spec_wrap::<T>(spec_trunc_div(self.z.spec_val(), rhs.z.spec_val())),
            r.w.spec_val() == spec_wrap::<T>(spec_trunc_div(self.w.spec_val(), rhs.w.spec_val())),
    {
        GVec4::new(
            self.x.wrapping_div(rhs.x),
            self.y.wrapping_div(rhs.y),
            self.z.wrapping_div(rhs.z),
            self.w.wrapping_div(rhs.w),
        )
    }

    /// Returns the component-wise saturating `+` of `self` and `rhs`.
    pub fn saturating_add(self, rhs: GVec4<T>) -> (r: GVec4<T>)
        ensures
            r.x.spec_val() == spec_saturate::<T>(self.x.spec_val() + rhs.x.spec_val()),
            r.y.spec_val() == spec_saturate::<T>(self.y.spec_val() + rhs.y.spec_val()),
            r.z.spec_val() == spec_saturate::<T>(self.z.spec_val() + rhs.z.spec_val()),
            r.w.spec_val() == spec_saturate::<T>(self.w.spec_val() + rhs.w.spec_val()),
    {
        GVec4::new(
            self.x.saturating_add(rhs.x),
            self.y.saturating_add(rhs.y),
            self.z.saturating_add(rhs.z),
            self.w.saturating_add(rhs.w),
        )
    }

    /// Returns the component-wise saturating `-` of `self` and `rhs`.
    pub fn saturating_sub(self, rhs: GVec4<T>) -> (r: GVec4<T>)
        ensures
            r.x.spec_val() == spec_saturate::<T>(self.x.spec_val() - rhs.x.spec_val()),
            r.y.spec_val() == spec_saturate::<T>(self.y.spec_val() - rhs.y.spec_val()),
            r.z.spec_val() == spec_saturate::<T>(self.z.spec_val() - rhs.z.spec_val()),
            r.w.spec_val() == spec_saturate::<T>(self.w.spec_val() - rhs.w.spec_val()),
    {
        GVec4::new(
            self.x.saturating_sub(rhs.x),
            self.y.saturating_sub(rhs.y),
            self.z.saturating_sub(rhs.z),
            self.w.saturating_sub(rhs.w),
        )
    }

    /// Returns the component-wise saturating `*` of `self` and `rhs`.
    pub fn saturating_mul(self, rhs: GVec4<T>) -> (r: GVec4<T>)
        ensures
            r.x.spec_val() == spec_saturate::<T>(self.x.spec_val() * rhs.x.spec_val()),
            r.y.spec_val() == spec_saturate::<T>(self.y.spec_val() * rhs.y.spec_val()),
            r.z.spec_val() == spec_saturate::<T>(self.z.spec_val() * rhs.z.spec_val()),
            r.w.spec_val() == spec_saturate::<T>(self.w.spec_val() * rhs.w.spec_val()),
    {
        GVec4::new(
            self.x.saturating_mul(rhs.x),
            self.y.saturating_mul(rhs.y),
            self.z.saturating_mul(rhs.z),
            self.w.saturating_mul(rhs.w),
        )
    }

    /// Returns the component-wise saturating quotient of `self` and `rhs`, rounding
    /// toward zero. No component of `rhs` may be zero.
    pub fn saturating_div(self, rhs: GVec4<T>) -> (r: GVec4<T>)
        requires
            rhs.x.spec_val() != 0,
            rhs.y.spec_val() != 0,
            rhs.z.spec_val() != 0,
            rhs.w.spec_val() != 0,
        ensures
            r.x.spec_val() == spec_saturate::<T>(spec_trunc_div(
                self.x.spec_val(),
                rhs.x.spec_val(),
            )),
            r.y.spec_val() == spec_saturate::<T>(spec_trunc_div(
                self.y.spec_val(),
                rhs.y.spec_val(),
            )),
            r.z.spec_val() == spec_saturate::<T>(spec_trunc_div(
                self.z.spec_val(),
                rhs.z.spec_val(),
            )),
            r.w.spec_val() == spec_saturate::<T>(spec_trunc_div(
                self.w.spec_val(),
                rhs.w.spec_val(),
            )),
    {
        GVec4::new(
            self.x.saturating_div(rhs.x),
            self.y.saturating_div(rhs.y),
            self.z.saturating_div(rhs.z),
            self.w.saturating_div(rhs.w),
        )
    }
}

impl<T: Integer> core::ops::Add for GVec4<T> {
    type Output = GVec4<T>;

    fn add(self, rhs: GVec4<T>) -> (r: GVec4<T>) {
        let r = GVec4::new(
            self.x.num_add(rhs.x),
            self.y.num_add(rhs.y),
            self.z.num_add(rhs.z),
            self.w.num_add(rhs.w),
        );
        proof {
            T::lemma_range(r.x);
            T::lemma_range(r.y);
            T::lemma_range(r.z);
            T::lemma_range(r.w);
        }
        r
    }
}

impl<T: Integer> vstd::std_specs::ops::AddSpecImpl for GVec4<T> {
    open spec fn obeys_add_spec() -> bool {
        true
    }

    open spec fn add_req(self, rhs: GVec4<T>) -> bool {
        spec_in_range::<T>(self.x.spec_val() + rhs.x.spec_val())
            && spec_in_range::<T>(self.y.spec_val() + rhs.y.spec_val())
            && spec_in_range::<T>(self.z.spec_val() + rhs.z.spec_val())
            && spec_in_range::<T>(self.w.spec_val() + rhs.w.spec_val())
    }

    open spec fn add_spec(self, rhs: GVec4<T>) -> GVec4<T> {
        spec_from_vals::<T>(
            self.x.spec_val() + rhs.x.spec_val(),
            self.y.spec_val() + rhs.y.spec_val(),
            self.z.spec_val() + rhs.z.spec_val(),
            self.w.spec_val() + rhs.w.spec_val(),
        )
    }
}

impl<T: Integer> core::ops::Sub for GVec4<T> {
    type Output = GVec4<T>;

    fn sub(self, rhs: GVec4<T>) -> (r: GVec4<T>) {
        let r = GVec4::new(
            self.x.num_sub(rhs.x),
            self.y.num_sub(rhs.y),
            self.z.num_sub(rhs.z),
            self.w.num_sub(rhs.w),
        );
        proof {
            T::lemma_range(r.x);
            T::lemma_range(r.y);
            T::lemma_range(r.z);
            T::lemma_range(r.w);
        }
        r
    }
}

impl<T: Integer> vstd::std_specs::ops::SubSpecImpl for GVec4<T> {
    open spec fn obeys_sub_spec() -> bool {
        true
    }

    open spec fn sub_req(self, rhs: GVec4<T>) -> bool {
        spec_in_range::<T>(self.x.spec_val() - rhs.x.spec_val())
            && spec_in_range::<T>(self.y.spec_val() - rhs.y.spec_val())
            && spec_in_range::<T>(self.z.spec_val() - rhs.z.spec_val())
            && spec_in_range::<T>(self.w.spec_val() - rhs.w.spec_val())
    }

    open spec fn sub_spec(self, rhs: GVec4<T>) -> GVec4<T> {
        spec_from_vals::<T>(
            self.x.spec_val() - rhs.x.spec_val(),
            self.y.spec_val() - rhs.y.spec_val(),
            self.z.spec_val() - rhs.z.spec_val(),
            self.w.spec_val() - rhs.w.spec_val(),
        )
    }
}

impl<T: Integer> core::ops::Mul for GVec4<T> {
    type Output = GVec4<T>;

    fn mul(self, rhs: GVec4<T>) -> (r: GVec4<T>) {
        let r = GVec4::new(
            self.x.num_mul(rhs.x),
            self.y.num_mul(rhs.y),
            self.z.num_mul(rhs.z),
            self.w.num_mul(rhs.w),
        );
        proof {
            T::lemma_range(r.x);
            T::lemma_range(r.y);
            T::lemma_range(r.z);
            T::lemma_range(r.w);
        }
        r
    }
}

impl<T: Integer> vstd::std_specs::ops::MulSpecImpl for GVec4<T> {
    open spec fn obeys_mul_spec() -> bool {
        true
    }

    open spec fn mul_req(self, rhs: GVec4<T>) -> bool {
        spec_in_range::<T>(self.x.spec_val() * rhs.x.spec_val())
            && spec_in_range::<T>(self.y.spec_val() * rhs.y.spec_val())
            && spec_in_range::<T>(self.z.spec_val() * rhs.z.spec_val())
            && spec_in_range::<T>(self.w.spec_val() * rhs.w.spec_val())
    }

    open spec fn mul_spec(self, rhs: GVec4<T>) -> GVec4<T> {
        spec_from_vals::<T>(
            self.x.spec_val() * rhs.x.spec_val(),
            self.y.spec_val() * rhs.y.spec_val(),
            self.z.spec_val() * rhs.z.spec_val(),
            self.w.spec_val() * rhs.w.spec_val(),
        )
    }
}

impl<T: Integer> core::ops::Div for GVec4<T> {
    type Output = GVec4<T>;

    fn div(self, rhs: GVec4<T>) -> (r: GVec4<T>) {
        let r = GVec4::new(
            self.x.num_div(rhs.x),
            self.y.num_div(rhs.y),
            self.z.num_div(rhs.z),
            self.w.num_div(rhs.w),
        );
        proof {
            T::lemma_range(r.x);
            T::lemma_range(r.y);
            T::lemma_range(r.z);
            T::lemma_range(r.w);
        }
        r
    }
}

impl<T: Integer> vstd::std_specs::ops::DivSpecImpl for GVec4<T> {
    open spec fn obeys_div_spec() -> bool {
        true
    }

    open spec fn div_req(self, rhs: GVec4<T>) -> bool {
        rhs.x.spec_val() != 0 && spec_in_range::<T>(spec_trunc_div(
            self.x.spec_val(),
            rhs.x.spec_val(),
        )) && rhs.y.spec_val() != 0 && spec_in_range::<T>(spec_trunc_div(
            self.y.spec_val(),
            rhs.y.spec_val(),
        )) && rhs.z.spec_val() != 0 && spec_in_range::<T>(spec_trunc_div(
            self.z.spec_val(),
            rhs.z.spec_val(),
        )) && rhs.w.spec_val() != 0 && spec_in_range::<T>(spec_trunc_div(
            self.w.spec_val(),
            rhs.w.spec_val(),
        ))
    }

    open spec fn div_spec(self, rhs: GVec4<T>) -> GVec4<T> {
        spec_from_vals::<T>(
            spec_trunc_div(self.x.spec_val(), rhs.x.spec_val()),
            spec_trunc_div(self.y.spec_val(), rhs.y.spec_val()),
            spec_trunc_div(self.z.spec_val(), rhs.z.spec_val()),
            spec_trunc_div(self.w.spec_val(), rhs.w.spec_val()),
        )
    }
}

impl<T: Integer> core::ops::Rem for GVec4<T> {
    type Output = GVec4<T>;

    fn rem(self, rhs: GVec4<T>) -> (r: GVec4<T>) {
        let r = GVec4::new(
            self.x.num_rem(rhs.x),
            self.y.num_rem(rhs.y),
            self.z.num_rem(rhs.z),
            self.w.num_rem(rhs.w),
        );
        proof {
            T::lemma_range(r.x);
            T::lemma_range(r.y);
            T::lemma_range(r.z);
            T::lemma_range(r.w);
        }
        r
    }
}

impl<T: Integer> vstd::std_specs::ops::RemSpecImpl for GVec4<T> {
    open spec fn obeys_rem_spec() -> bool {
        true
    }

    open spec fn rem_req(self, rhs: GVec4<T>) -> bool {
        rhs.x.spec_val() != 0 && spec_in_range::<T>(spec_trunc_div(
            self.x.spec_val(),
            rhs.x.spec_val(),
        )) && rhs.y.spec_val() != 0 && spec_in_range::<T>(spec_trunc_div(
            self.y.spec_val(),
            rhs.y.spec_val(),
        )) && rhs.z.spec_val() != 0 && spec_in_range::<T>(spec_trunc_div(
            self.z.spec_val(),
            rhs.z.spec_val(),
        )) && rhs.w.spec_val() != 0 && spec_in_range::<T>(spec_trunc_div(
            self.w.spec_val(),
            rhs.w.spec_val(),
        ))
    }

    open spec fn rem_spec(self, rhs: GVec4<T>) -> GVec4<T> {
        spec_from_vals::<T>(
            spec_trunc_rem(self.x.spec_val(), rhs.x.spec_val()),
            spec_trunc_rem(self.y.spec_val(), rhs.y.spec_val()),
            spec_trunc_rem(self.z.spec_val(), rhs.z.spec_val()),
            spec_trunc_rem(self.w.spec_val(), rhs.w.spec_val()),
        )
    }
}

/// The sum of the products of the components of `a` and `b`.
pub open spec fn spec_dot<T: Integer>(a: GVec4<T>, b: GVec4<T>) -> int {
    a.x.spec_val() * b.x.spec_val() + a.y.spec_val() * b.y.spec_val() + a.z.spec_val() * b.z.spec_val()
        + a.w.spec_val() * b.w.spec_val()
}

/// Every product and every partial sum computed, left to right, for the dot
/// product of `a` and `b` lies in the range of `T`.
pub open spec fn spec_dot_fits<T: Integer>(a: GVec4<T>, b: GVec4<T>) -> bool {
    let p0 = a.x.spec_val() * b.x.spec_val();
    let p1 = a.y.spec_val() * b.y.spec_val();
    let p2 = a.z.spec_val() * b.z.spec_val();
    let p3 = a.w.spec_val() * b.w.spec_val();
    &&& spec_in_range::<T>(p0)
    &&& spec_in_range::<T>(p1)
    &&& spec_in_range::<T>(p2)
    &&& spec_in_range::<T>(p3)
    &&& spec_in_range::<T>(p0 + p1)
    &&& spec_in_range::<T>(p0 + p1 + p2)
    &&& spec_in_range::<T>(p0 + p1 + p2 + p3)
}

/// The component-wise difference `a - b`, whose components must lie in range.
pub open spec fn spec_sub_vec<T: Integer>(a: GVec4<T>, b: GVec4<T>) -> GVec4<T> {
    spec_from_vals::<T>(
        a.x.spec_val() - b.x.spec_val(),
        a.y.spec_val() - b.y.spec_val(),
        a.z.spec_val() - b.z.spec_val(),
        a.w.spec_val() - b.w.spec_val(),
    )
}

/// The distance between `a` and `b`.
pub open spec fn spec_dist(a: int, b: int) -> int {
    if a < b {
        b - a
    } else {
        a - b
    }
}

impl<T: SignedInteger> GVec4<T> {
    /// Returns the absolute value of each component. No component may be the
    /// least value of `T`.
    pub fn abs(self) -> (r: GVec4<T>)
        requires
            self.x.spec_val() != T::spec_min(),
            self.y.spec_val() != T::spec_min(),
            self.z.spec_val() != T::spec_min(),
            self.w.spec_val() != T::spec_min(),
        ensures
            r.x.spec_val() == (if self.x.spec_val() < 0 { -self.x.spec_val() } else { self.x.spec_val() }),
            r.y.spec_val() == (if self.y.spec_val() < 0 { -self.y.spec_val() } else { self.y.spec_val() }),
            r.z.spec_val() == (if self.z.spec_val() < 0 { -self.z.spec_val() } else { self.z.spec_val() }),
            r.w.spec_val() == (if self.w.spec_val() < 0 { -self.w.spec_val() } else { self.w.spec_val() }),
    {
        GVec4::new(self.x.num_abs(), self.y.num_abs(), self.z.num_abs(), self.w.num_abs())
    }

    /// Returns the sign (`-1`, `0` or `1`) of each component.
    pub fn signum(self) -> (r: GVec4<T>)
        ensures
            r.x.spec_val() == (if self.x.spec_val() < 0 { -1int } else if self.x.spec_val() > 0 { 1int } else { 0int }),
            r.y.spec_val() == (if self.y.spec_val() < 0 { -1int } else if self.y.spec_val() > 0 { 1int } else { 0int }),
            r.z.spec_val() == (if self.z.spec_val() < 0 { -1int } else if self.z.spec_val() > 0 { 1int } else { 0int }),
            r.w.spec_val() == (if self.w.spec_val() < 0 { -1int } else if self.w.spec_val() > 0 { 1int } else { 0int }),
    {
        GVec4::new(
            self.x.num_signum(),
            self.y.num_signum(),
            self.z.num_signum(),
            self.w.num_signum(),
        )
    }

    /// Computes the dot product of `self` and `rhs`.
    pub fn dot(self, rhs: GVec4<T>) -> (r: T)
        requires
            spec_dot_fits(self, rhs),
        ensures
            r.spec_val() == spec_dot(self, rhs),
    {
        let p0 = self.x.num_mul(rhs.x);
        let p1 = self.y.num_mul(rhs.y);
        let p2 = self.z.num_mul(rhs.z);
        let p3 = self.w.num_mul(rhs.w);
        p0.num_add(p1).num_add(p2).num_add(p3)
    }

    /// Returns a vector with every component equal to the dot product of
    /// `self` and `rhs`.
    pub fn dot_into_vec(self, rhs: GVec4<T>) -> (r: GVec4<T>)
        requires
            spec_dot_fits(self, rhs),
        ensures
            r.x.spec_val() == spec_dot(self, rhs),
            r.x == r.y && r.y == r.z && r.z == r.w,
    {
        GVec4::splat(self.dot(rhs))
    }

    /// Returns the sum of the components, which, summed left to right, must
    /// not overflow.
    pub fn element_sum(self) -> (r: T)
        requires
            spec_in_range::<T>(self.x.spec_val() + self.y.spec_val()),
            spec_in_range::<T>(self.x.spec_val() + self.y.spec_val() + self.z.spec_val()),
            spec_in_range::<T>(
                self.x.spec_val() + self.y.spec_val() + self.z.spec_val() + self.w.spec_val(),
            ),
        ensures
            r.spec_val() == self.x.spec_val() + self.y.spec_val() + self.z.spec_val()
                + self.w.spec_val(),
    {
        self.x.num_add(self.y).num_add(self.z).num_add(self.w)
    }

    /// Returns the product of the components, which, multiplied left to
    /// right, must not overflow.
    pub fn element_product(self) -> (r: T)
        requires
            spec_in_range::<T>(self.x.spec_val() * self.y.spec_val()),
            spec_in_range::<T>(self.x.spec_val() * self.y.spec_val() * self.z.spec_val()),
            spec_in_range::<T>(
                self.x.spec_val() * self.y.spec_val() * self.z.spec_val() * self.w.spec_val(),
            ),
        ensures
            r.spec_val() == self.x.spec_val() * self.y.spec_val() * self.z.spec_val()
                * self.w.spec_val(),
    {
        self.x.num_mul(self.y).num_mul(self.z).num_mul(self.w)
    }

    /// Computes the squared length of `self`.
    pub fn length_squared(self) -> (r: T)
        requires
            spec_dot_fits(self, self),
        ensures
            r.spec_val() == spec_dot(self, self),
    {
        self.dot(self)
    }

    /// Computes the squared Euclidean distance between `self` and `rhs`.
    pub fn distance_squared(self, rhs: GVec4<T>) -> (r: T)
        requires
            spec_in_range::<T>(self.x.spec_val() - rhs.x.spec_val()),
            spec_in_range::<T>(self.y.spec_val() - rhs.y.spec_val()),
            spec_in_range::<T>(self.z.spec_val() - rhs.z.spec_val()),
            spec_in_range::<T>(self.w.spec_val() - rhs.w.spec_val()),
            spec_dot_fits(spec_sub_vec(self, rhs), spec_sub_vec(self, rhs)),
        ensures
            r.spec_val() == spec_dot(spec_sub_vec(self, rhs), spec_sub_vec(self, rhs)),
    {
        let d = self - rhs;
        proof {
            T::lemma_from(self.x.spec_val() - rhs.x.spec_val());
            T::lemma_from(self.y.spec_val() - rhs.y.spec_val());
            T::lemma_from(self.z.spec_val() - rhs.z.spec_val());
            T::lemma_from(self.w.spec_val() - rhs.w.spec_val());
        }
        d.length_squared()
    }

    /// Computes the Manhattan distance between `self` and `rhs`: the sum of
    /// the distances between their components, which, summed left to right,
    /// must not overflow the unsigned type.
    pub fn manhattan_distance(self, rhs: GVec4<T>) -> (r: T::Unsigned)
        requires
            spec_in_range::<T::Unsigned>(
                spec_dist(
                    self.x.spec_val(),
                    rhs.x.spec_val(),
                ) + spec_dist(self.y.spec_val(), rhs.y.spec_val()),
            ),
            spec_in_range::<T::Unsigned>(
                spec_dist(
                    self.x.spec_val(),
                    rhs.x.spec_val(),
                ) + spec_dist(self.y.spec_val(), rhs.y.spec_val())
                    + spec_dist(self.z.spec_val(), rhs.z.spec_val()),
            ),
            spec_in_range::<T::Unsigned>(
                spec_dist(
                    self.x.spec_val(),
                    rhs.x.spec_val(),
                ) + spec_dist(self.y.spec_val(), rhs.y.spec_val())
                    + spec_dist(
                        self.z.spec_val(),
                        rhs.z.spec_val(),
                    ) + spec_dist(self.w.spec_val(), rhs.w.spec_val()),
            ),
        ensures
            r.spec_val() == spec_dist(self.x.spec_val(), rhs.x.spec_val()) + spec_dist(
                self.y.spec_val(),
                rhs.y.spec_val(),
            ) + spec_dist(self.z.spec_val(), rhs.z.spec_val()) + spec_dist(
                self.w.spec_val(),
                rhs.w.spec_val(),
            ),
    {
        self.x.abs_diff(rhs.x).num_add(self.y.abs_diff(rhs.y)).num_add(self.z.abs_diff(rhs.z)).num_add(
            self.w.abs_diff(rhs.w),
        )
    }

    /// Computes the Chebyshev distance between `self` and `rhs`: the greatest
    /// distance between their components.
    pub fn chebyshev_distance(self, rhs: GVec4<T>) -> (r: T::Unsigned)
        ensures
            r.spec_val() == vstd::math::max(
                vstd::math::max(
                    vstd::math::max(
                        spec_dist(self.x.spec_val(), rhs.x.spec_val()),
                        spec_dist(self.y.spec_val(), rhs.y.spec_val()),
                    ),
                    spec_dist(self.z.spec_val(), rhs.z.spec_val()),
                ),
                spec_dist(self.w.spec_val(), rhs.w.spec_val()),
            ),
    {
        self.x.abs_diff(rhs.x).num_max(self.y.abs_diff(rhs.y)).num_max(self.z.abs_diff(rhs.z)).num_max(
            self.w.abs_diff(rhs.w),
        )
    }
}

impl<T: SignedInteger> core::ops::Neg for GVec4<T> {
    type Output = GVec4<T>;

    fn neg(self) -> (r: GVec4<T>) {
        let r = GVec4::new(self.x.num_neg(), self.y.num_neg(), self.z.num_neg(), self.w.num_neg());
        proof {
            T::lemma_range(r.x);
            T::lemma_range(r.y);
            T::lemma_range(r.z);
            T::lemma_range(r.w);
        }
        r
    }
}

impl<T: SignedInteger> vstd::std_specs::ops::NegSpecImpl for GVec4<T> {
    open spec fn obeys_neg_spec() -> bool {
        true
    }

    open spec fn neg_req(self) -> bool {
        self.x.spec_val() != T::spec_min() && self.y.spec_val() != T::spec_min()
            && self.z.spec_val() != T::spec_min() && self.w.spec_val() != T::spec_min()
    }

    open spec fn neg_spec(self) -> GVec4<T> {
        spec_from_vals::<T>(
            -self.x.spec_val(),
            -self.y.spec_val(),
            -self.z.spec_val(),
            -self.w.spec_val(),
        )
    }
}


} // verus!
