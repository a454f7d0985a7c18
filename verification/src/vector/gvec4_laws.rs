//! Laws of the integer operations on 4D vectors, stated for one component
//! (every operation acts on each component alone) or for whole vectors.
use vstd::prelude::*;
use vstd::arithmetic::div_mod::{
    lemma_add_mod_noop, lemma_add_mod_noop_right, lemma_fundamental_div_mod, lemma_mod_bound,
    lemma_small_mod,
};

use crate::num::{
    Integer, SignedInteger, lemma_mod_near, spec_in_range, spec_modulus, spec_saturate,
    spec_trunc_div, spec_trunc_rem, spec_wrap,
};
use crate::vector::{GVec4, spec_dist, spec_dot, spec_dot_fits, spec_max_elem, spec_min_elem};

verus! {

/// When an operation does not overflow, its checked, wrapping and saturating
/// forms all give the exact result (`checked_add`, `wrapping_add` and
/// `saturating_add` of `GVec4` agree on each such component, and likewise
/// for `sub`, `mul` and `div`).
pub proof fn lemma_exact_when_in_range<T: Integer>(v: int)
    requires
        spec_in_range::<T>(v),
    ensures
        spec_wrap::<T>(v) == v,
        spec_saturate::<T>(v) == v,
{
    T::lemma_bounds();
    lemma_mod_near(v - T::spec_min(), spec_modulus::<T>());
}

/// Wrapping results and saturating results always lie in the range of `T`.
pub proof fn lemma_wrap_and_saturate_in_range<T: Integer>(v: int)
    ensures
        spec_in_range::<T>(spec_wrap::<T>(v)),
        spec_in_range::<T>(spec_saturate::<T>(v)),
{
    T::lemma_bounds();
    lemma_mod_bound(v - T::spec_min(), spec_modulus::<T>());
}

/// `wrapping_sub` undoes `wrapping_add`: `a.wrapping_add(b).wrapping_sub(b)`
/// gives back `a`, component by component.
pub proof fn lemma_wrapping_sub_undoes_wrapping_add<T: Integer>(a: T, b: T)
    ensures
        spec_wrap::<T>(spec_wrap::<T>(a.spec_val() + b.spec_val()) - b.spec_val()) == a.spec_val(),
{
    T::lemma_bounds();
    T::lemma_range(a);
    let m = spec_modulus::<T>();
    let lo = T::spec_min();
    let x = a.spec_val() + b.spec_val() - lo;
    let y = -b.spec_val();
    lemma_add_mod_noop(x, y, m);
    lemma_add_mod_noop_right(x % m, y, m);
    lemma_add_mod_noop(x % m, y, m);
    lemma_mod_bound(x, m);
    lemma_mod_bound(y, m);
    lemma_small_mod((x % m) as nat, m as nat);
    lemma_small_mod((a.spec_val() - lo) as nat, m as nat);
    assert(spec_wrap::<T>(a.spec_val() + b.spec_val()) - b.spec_val() - lo == x % m + y);
    assert(x + y == a.spec_val() - lo);
}

/// The lesser of two components is at most each of them and is one of them,
/// the greater is at least each of them and is one of them (`min` and `max`
/// of `GVec4`).
pub proof fn lemma_min_max<T: Integer>(a: T, b: T)
    ensures
        spec_min_elem(a, b).spec_val() <= a.spec_val(),
        spec_min_elem(a, b).spec_val() <= b.spec_val(),
        spec_min_elem(a, b) == a || spec_min_elem(a, b) == b,
        spec_max_elem(a, b).spec_val() >= a.spec_val(),
        spec_max_elem(a, b).spec_val() >= b.spec_val(),
        spec_max_elem(a, b) == a || spec_max_elem(a, b) == b,
        spec_min_elem(a, b).spec_val() == spec_min_elem(b, a).spec_val(),
        spec_max_elem(a, b).spec_val() == spec_max_elem(b, a).spec_val(),
{
}

/// Clamping a component between `lo` and `hi`, with `lo <= hi`, gives a
/// value between them, and leaves a component already between them unchanged
/// (`clamp` of `GVec4`).
pub proof fn lemma_clamp<T: Integer>(v: T, lo: T, hi: T)
    requires
        lo.spec_val() <= hi.spec_val(),
    ensures
        lo.spec_val() <= spec_min_elem(spec_max_elem(v, lo), hi).spec_val() <= hi.spec_val(),
        lo.spec_val() <= v.spec_val() <= hi.spec_val() ==> spec_min_elem(
            spec_max_elem(v, lo),
            hi,
        ) == v,
{
    T::lemma_range(v);
    T::lemma_range(lo);
    T::lemma_range(hi);
}

/// The least component of a vector is at most every component and is one of
/// them; likewise the greatest is at least every component and is one of them
/// (`min_element` and `max_element` of `GVec4`).
pub proof fn lemma_min_max_element<T: Integer>(v: GVec4<T>)
    ensures
        ({
            let m = spec_min_elem(spec_min_elem(spec_min_elem(v.x, v.y), v.z), v.w);
            &&& m.spec_val() <= v.x.spec_val()
            &&& m.spec_val() <= v.y.spec_val()
            &&& m.spec_val() <= v.z.spec_val()
            &&& m.spec_val() <= v.w.spec_val()
            &&& (m == v.x || m == v.y || m == v.z || m == v.w)
        }),
        ({
            let m = spec_max_elem(spec_max_elem(spec_max_elem(v.x, v.y), v.z), v.w);
            &&& m.spec_val() >= v.x.spec_val()
            &&& m.spec_val() >= v.y.spec_val()
            &&& m.spec_val() >= v.z.spec_val()
            &&& m.spec_val() >= v.w.spec_val()
            &&& (m == v.x || m == v.y || m == v.z || m == v.w)
        }),
{
}

/// Truncated division and remainder fit together: `(x / d) * d + x % d == x`
/// for every non-zero `d`, and the remainder has the sign of `x` and is
/// smaller than `d` in magnitude (the `/` and `%` of `GVec4`, component by
/// component).
pub proof fn lemma_div_rem(x: int, d: int)
    requires
        d != 0,
    ensures
        spec_trunc_div(x, d) * d + spec_trunc_rem(x, d) == x,
        x >= 0 ==> 0 <= spec_trunc_rem(x, d),
        x <= 0 ==> spec_trunc_rem(x, d) <= 0,
        spec_dist(spec_trunc_rem(x, d), 0) < spec_dist(d, 0),
{
    if x == 0 {
    } else if x > 0 && d > 0 {
        lemma_fundamental_div_mod(x, d);
        lemma_mod_bound(x, d);
        assert((x / d) * d == d * (x / d)) by (nonlinear_arith);
    } else if x < 0 && d < 0 {
        lemma_fundamental_div_mod(-x, -d);
        lemma_mod_bound(-x, -d);
        assert(((-x) / (-d)) * d == -((-d) * ((-x) / (-d)))) by (nonlinear_arith);
    } else if x < 0 {
        lemma_fundamental_div_mod(-x, d);
        lemma_mod_bound(-x, d);
        assert((((-x) / d) * -1) * d == -(d * ((-x) / d))) by (nonlinear_arith);
    } else {
        lemma_fundamental_div_mod(x, -d);
        lemma_mod_bound(x, -d);
        assert(((x / (-d)) * -1) * d == (-d) * (x / (-d))) by (nonlinear_arith);
    }
}

/// Euclidean division and remainder fit together: `(x / d) * d + x % d == x`
/// for every non-zero `d`, with a remainder in `0..|d|` whatever the signs
/// (`div_euclid` and `rem_euclid` of `GVec4`, component by component). So
/// whenever the quotient of two components fits in `T`, their remainder
/// fits too.
pub proof fn lemma_div_rem_euclid<T: Integer>(x: T, d: T)
    requires
        d.spec_val() != 0,
    ensures
        (x.spec_val() / d.spec_val()) * d.spec_val() + x.spec_val() % d.spec_val() == x.spec_val(),
        0 <= x.spec_val() % d.spec_val() < spec_dist(d.spec_val(), 0),
        spec_in_range::<T>(x.spec_val() % d.spec_val()),
{
    let a = x.spec_val();
    let b = d.spec_val();
    T::lemma_bounds();
    T::lemma_range(d);
    lemma_fundamental_div_mod(a, b);
    assert((a / b) * b == b * (a / b)) by (nonlinear_arith);
    if b > 0 {
        lemma_mod_bound(a, b);
    } else {
        lemma_fundamental_div_mod(a, -b);
        lemma_mod_bound(a, -b);
        assert(a % b == a % (-b)) by (nonlinear_arith)
            requires
                b < 0,
        ;
    }
}

/// The sign of a component times its absolute value is the component
/// (`signum` and `abs` of `GVec4`).
pub proof fn lemma_signum_times_abs(v: int)
    ensures
        (if v < 0 {
            -1int
        } else if v > 0 {
            1int
        } else {
            0int
        }) * (if v < 0 {
            -v
        } else {
            v
        }) == v,
{
}

/// The dot product is symmetric, and so is whether it can be computed
/// without overflow (`dot` of `GVec4`).
pub proof fn lemma_dot_symmetric<T: Integer>(a: GVec4<T>, b: GVec4<T>)
    ensures
        spec_dot(a, b) == spec_dot(b, a),
        spec_dot_fits(a, b) == spec_dot_fits(b, a),
{
    assert(a.x.spec_val() * b.x.spec_val() == b.x.spec_val() * a.x.spec_val()) by (nonlinear_arith);
    assert(a.y.spec_val() * b.y.spec_val() == b.y.spec_val() * a.y.spec_val()) by (nonlinear_arith);
    assert(a.z.spec_val() * b.z.spec_val() == b.z.spec_val() * a.z.spec_val()) by (nonlinear_arith);
    assert(a.w.spec_val() * b.w.spec_val() == b.w.spec_val() * a.w.spec_val()) by (nonlinear_arith);
}

/// The distance between components is symmetric and zero only between equal
/// components; the Chebyshev distance of two vectors is at most their
/// Manhattan distance (`manhattan_distance` and `chebyshev_distance` of
/// `GVec4`).
pub proof fn lemma_distances<T: SignedInteger>(a: GVec4<T>, b: GVec4<T>)
    ensures
        spec_dist(a.x.spec_val(), b.x.spec_val()) == spec_dist(b.x.spec_val(), a.x.spec_val()),
        (spec_dist(a.x.spec_val(), b.x.spec_val()) == 0) == (a.x.spec_val() == b.x.spec_val()),
        vstd::math::max(
            vstd::math::max(
                vstd::math::max(
                    spec_dist(a.x.spec_val(), b.x.spec_val()),
                    spec_dist(a.y.spec_val(), b.y.spec_val()),
                ),
                spec_dist(a.z.spec_val(), b.z.spec_val()),
            ),
            spec_dist(a.w.spec_val(), b.w.spec_val()),
        ) <= spec_dist(a.x.spec_val(), b.x.spec_val()) + spec_dist(a.y.spec_val(), b.y.spec_val())
            + spec_dist(a.z.spec_val(), b.z.spec_val()) + spec_dist(a.w.spec_val(), b.w.spec_val()),
{
}

} // verus!
