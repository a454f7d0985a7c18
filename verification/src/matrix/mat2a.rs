//! A SIMD-aligned 2x2 column-major matrix of binary32 components.
use vstd::prelude::*;

use crate::bits;
use crate::matrix::{GMat2, GMat3, minor_index};
use crate::vector::GVec2;

verus! {

/// Creates a 2x2 column-major matrix from two column vectors.
pub fn mat2a(x_axis: GVec2<u32>, y_axis: GVec2<u32>) -> (r: Mat2A)
    ensures
        r == (Mat2A { x_axis, y_axis }),
{
    Mat2A::from_cols(x_axis, y_axis)
}

/// A 2x2 column-major matrix whose four components are binary32 values held
/// by their bit encodings, stored together as one SIMD lane group.
#[derive(Clone, Copy)]
pub struct Mat2A {
    /// The first column of the matrix.
    pub x_axis: GVec2<u32>,
    /// The second column of the matrix.
    pub y_axis: GVec2<u32>,
}

/// Some component of `v` is NaN.
pub open spec fn spec_vec2_is_nan(v: GVec2<u32>) -> bool {
    bits::spec_is_nan(v.x) || bits::spec_is_nan(v.y)
}

/// Every component of `v` is finite.
pub open spec fn spec_vec2_is_finite(v: GVec2<u32>) -> bool {
    bits::spec_is_finite(v.x) && bits::spec_is_finite(v.y)
}

/// Component-wise absolute value of `v`.
pub open spec fn spec_vec2_abs(v: GVec2<u32>) -> GVec2<u32> {
    GVec2 { x: bits::spec_abs(v.x), y: bits::spec_abs(v.y) }
}

/// Component-wise IEEE-754 equality of `a` and `b`.
pub open spec fn spec_vec2_eq(a: GVec2<u32>, b: GVec2<u32>) -> bool {
    bits::spec_eq(a.x, b.x) && bits::spec_eq(a.y, b.y)
}

impl Mat2A {
    /// The matrix with the same columns as `m`.
    pub open spec fn spec_from_mat2(m: GMat2<u32>) -> Mat2A {
        Mat2A { x_axis: m.x_axis, y_axis: m.y_axis }
    }

    /// The same matrix as a generic matrix of encodings.
    pub open spec fn spec_to_mat2(self) -> GMat2<u32> {
        GMat2 { x_axis: self.x_axis, y_axis: self.y_axis }
    }

    /// The component in column `c` and row `r`.
    pub open spec fn spec_elem(self, c: int, r: int) -> u32 {
        self.spec_to_mat2().spec_elem(c, r)
    }

    /// The components in column-major order.
    pub open spec fn spec_cols_array(self) -> Seq<u32> {
        self.x_axis.spec_array() + self.y_axis.spec_array()
    }

    /// Some component is NaN.
    pub open spec fn spec_is_nan(self) -> bool {
        spec_vec2_is_nan(self.x_axis) || spec_vec2_is_nan(self.y_axis)
    }

    /// All components are finite.
    pub open spec fn spec_is_finite(self) -> bool {
        spec_vec2_is_finite(self.x_axis) && spec_vec2_is_finite(self.y_axis)
    }

    /// Component-wise absolute value.
    pub open spec fn spec_abs(self) -> Mat2A {
        Mat2A { x_axis: spec_vec2_abs(self.x_axis), y_axis: spec_vec2_abs(self.y_axis) }
    }

    /// Component-wise IEEE-754 equality.
    pub open spec fn spec_eq(self, rhs: Mat2A) -> bool {
        spec_vec2_eq(self.x_axis, rhs.x_axis) && spec_vec2_eq(self.y_axis, rhs.y_axis)
    }

    /// The identity matrix: `1.0` on the diagonal and `0.0` elsewhere.
    pub open spec fn spec_identity() -> Mat2A {
        Mat2A {
            x_axis: GVec2 { x: bits::ONE_BITS, y: bits::ZERO_BITS },
            y_axis: GVec2 { x: bits::ZERO_BITS, y: bits::ONE_BITS },
        }
    }

    /// All zeros.
    pub fn zero() -> (r: Mat2A)
        ensures
            r.spec_cols_array() == Seq::new(4, |i: int| bits::ZERO_BITS),
    {
        let r = Mat2A::from_cols(GVec2::splat(bits::ZERO_BITS), GVec2::splat(bits::ZERO_BITS));
        assert(r.spec_cols_array() =~= Seq::new(4, |i: int| bits::ZERO_BITS));
        r
    }

    /// The identity matrix.
    pub fn identity() -> (r: Mat2A)
        ensures
            r == Mat2A::spec_identity(),
    {
        Mat2A::from_cols(
            GVec2::new(bits::ONE_BITS, bits::ZERO_BITS),
            GVec2::new(bits::ZERO_BITS, bits::ONE_BITS),
        )
    }

    /// All NaN.
    pub fn nan() -> (r: Mat2A)
        ensures
            r.spec_cols_array() == Seq::new(4, |i: int| bits::NAN_BITS),
    {
        let r = Mat2A::from_cols(GVec2::splat(bits::NAN_BITS), GVec2::splat(bits::NAN_BITS));
        assert(r.spec_cols_array() =~= Seq::new(4, |i: int| bits::NAN_BITS));
        r
    }

    /// Creates a 2x2 matrix from two column vectors.
    pub fn from_cols(x_axis: GVec2<u32>, y_axis: GVec2<u32>) -> (r: Mat2A)
        ensures
            r == (Mat2A { x_axis, y_axis }),
    {
        Mat2A { x_axis, y_axis }
    }

    /// Creates a 2x2 matrix from an array of 4 components in column-major order.
    pub fn from_cols_array(m: &[u32; 4]) -> (r: Mat2A)
        ensures
            r.spec_cols_array() == m@,
    {
        let r = Mat2A::from_cols(GVec2::new(m[0], m[1]), GVec2::new(m[2], m[3]));
        assert(r.spec_cols_array() =~= m@);
        r
    }

    /// Returns the 4 components in column-major order.
    pub fn to_cols_array(&self) -> (r: [u32; 4])
        ensures
            r@ == self.spec_cols_array(),
    {
        let r = [self.x_axis.x, self.x_axis.y, self.y_axis.x, self.y_axis.y];
        assert(r@ =~= self.spec_cols_array());
        r
    }

    /// Creates a 2x2 matrix from a 2D array of columns.
    pub fn from_cols_array_2d(m: &[[u32; 2]; 2]) -> (r: Mat2A)
        ensures
            r.x_axis.spec_array() == m@[0]@,
            r.y_axis.spec_array() == m@[1]@,
    {
        Mat2A::from_cols(GVec2::from_array(m[0]), GVec2::from_array(m[1]))
    }

    /// Returns the columns as a 2D array.
    pub fn to_cols_array_2d(&self) -> (r: [[u32; 2]; 2])
        ensures
            r@[0]@ == self.x_axis.spec_array(),
            r@[1]@ == self.y_axis.spec_array(),
    {
        [self.x_axis.to_array(), self.y_axis.to_array()]
    }

    /// Creates a matrix with its diagonal set to `diagonal` and all other
    /// components set to `0.0`.
    pub fn from_diagonal(diagonal: GVec2<u32>) -> (r: Mat2A)
        ensures
            r == (Mat2A {
                x_axis: GVec2 { x: diagonal.x, y: bits::ZERO_BITS },
                y_axis: GVec2 { x: bits::ZERO_BITS, y: diagonal.y },
            }),
    {
        Mat2A::from_cols(
            GVec2::new(diagonal.x, bits::ZERO_BITS),
            GVec2::new(bits::ZERO_BITS, diagonal.y),
        )
    }

    /// Returns `if_true` when `boolean` holds and `if_false` otherwise.
    pub fn select(boolean: bool, if_true: Mat2A, if_false: Mat2A) -> (r: Mat2A)
        ensures
            r == (if boolean {
                if_true
            } else {
                if_false
            }),
    {
        if boolean {
            if_true
        } else {
            if_false
        }
    }

    /// Creates a 2x2 matrix from a 3x3 matrix, discarding the 3rd row and column.
    pub fn from_mat3(m: GMat3<u32>) -> (r: Mat2A)
        ensures
            forall|c: int, i: int| 0 <= c < 2 && 0 <= i < 2 ==> #[trigger] r.spec_elem(c, i)
                == m.spec_elem(c, i),
    {
        Mat2A::from_mat2(GMat2::from_mat3(m))
    }

    /// Creates a 2x2 matrix from the minor of the given 3x3 matrix, discarding
    /// the `i`th column and the `j`th row.
    pub fn from_mat3_minor(m: GMat3<u32>, i: usize, j: usize) -> (r: Mat2A)
        requires
            i < 3,
            j < 3,
        ensures
            forall|c: int, k: int| 0 <= c < 2 && 0 <= k < 2 ==> #[trigger] r.spec_elem(c, k)
                == m.spec_elem(minor_index(c, i as int), minor_index(k, j as int)),
    {
        Mat2A::from_mat2(GMat2::from_mat3_minor(m, i, j))
    }

    /// Creates a 2x2 matrix from the first 4 values in `slice`, in column-major order.
    pub fn from_cols_slice(slice: &[u32]) -> (r: Mat2A)
        requires
            slice@.len() >= 4,
        ensures
            r.spec_cols_array() == slice@.subrange(0, 4),
    {
        let r = Mat2A::from_cols(GVec2::new(slice[0], slice[1]), GVec2::new(slice[2], slice[3]));
        assert(r.spec_cols_array() =~= slice@.subrange(0, 4));
        r
    }

    /// Writes the columns of `self` to the first 4 elements in `slice`.
    pub fn write_cols_to_slice(&self, slice: &mut [u32])
        requires
            old(slice)@.len() >= 4,
        ensures
            final(slice)@ == self.spec_cols_array() + old(slice)@.subrange(
                4,
                old(slice)@.len() as int,
            ),
    {
        slice[0] = self.x_axis.x;
        slice[1] = self.x_axis.y;
        slice[2] = self.y_axis.x;
        slice[3] = self.y_axis.y;
        assert(slice@ =~= self.spec_cols_array() + old(slice)@.subrange(
            4,
            old(slice)@.len() as int,
        ));
    }

    /// Returns the column at `index`.
    pub fn col(&self, index: usize) -> (r: GVec2<u32>)
        requires
            index < 2,
        ensures
            r == self.spec_to_mat2().spec_col(index as int),
    {
        if index == 0 {
            self.x_axis
        } else {
            self.y_axis
        }
    }

    /// Returns a mutable reference to the column at `index`.
    pub fn col_mut(&mut self, index: usize) -> (r: &mut GVec2<u32>)
        requires
            index < 2,
        ensures
            *r == old(self).spec_to_mat2().spec_col(index as int),
            final(self).spec_to_mat2() == old(self).spec_to_mat2().spec_with_col(
                index as int,
                *final(r),
            ),
    {
        if index == 0 {
            &mut self.x_axis
        } else {
            &mut self.y_axis
        }
    }

    /// Returns the row at `index`.
    pub fn row(&self, index: usize) -> (r: GVec2<u32>)
        requires
            index < 2,
        ensures
            r == self.spec_to_mat2().spec_row(index as int),
    {
        if index == 0 {
            GVec2::new(self.x_axis.x, self.y_axis.x)
        } else {
            GVec2::new(self.x_axis.y, self.y_axis.y)
        }
    }

    /// Returns the transpose of `self`.
    pub fn transpose(&self) -> (r: Mat2A)
        ensures
            r.spec_to_mat2() == self.spec_to_mat2().spec_transpose(),
    {
        Mat2A::from_mat2(self.to_mat2().transpose())
    }

    /// Returns the diagonal of `self`.
    pub fn diagonal(&self) -> (r: GVec2<u32>)
        ensures
            r == self.spec_to_mat2().spec_diagonal(),
    {
        GVec2::new(self.x_axis.x, self.y_axis.y)
    }

    /// Takes the absolute value of each component.
    pub fn abs(&self) -> (r: Mat2A)
        ensures
            r == self.spec_abs(),
    {
        Mat2A::from_cols(
            GVec2::new(bits::abs(self.x_axis.x), bits::abs(self.x_axis.y)),
            GVec2::new(bits::abs(self.y_axis.x), bits::abs(self.y_axis.y)),
        )
    }

    /// Returns `true` if, and only if, all components are finite.
    pub fn is_finite(&self) -> (r: bool)
        ensures
            r == self.spec_is_finite(),
    {
        bits::is_finite(self.x_axis.x) && bits::is_finite(self.x_axis.y) && bits::is_finite(
            self.y_axis.x,
        ) && bits::is_finite(self.y_axis.y)
    }

    /// Returns `true` if any component is NaN.
    pub fn is_nan(&self) -> (r: bool)
        ensures
            r == self.spec_is_nan(),
    {
        bits::is_nan(self.x_axis.x) || bits::is_nan(self.x_axis.y) || bits::is_nan(self.y_axis.x)
            || bits::is_nan(self.y_axis.y)
    }

    /// Creates a SIMD-aligned matrix from a generic matrix of encodings.
    pub fn from_mat2(m: GMat2<u32>) -> (r: Mat2A)
        ensures
            r == Mat2A::spec_from_mat2(m),
    {
        Mat2A::from_cols(m.x_axis, m.y_axis)
    }

    /// Converts `self` to a generic matrix of encodings.
    pub fn to_mat2(self) -> (r: GMat2<u32>)
        ensures
            r == self.spec_to_mat2(),
    {
        GMat2::from_cols(self.x_axis, self.y_axis)
    }
}

impl Default for Mat2A {
    /// The identity matrix.
    fn default() -> (r: Mat2A)
        ensures
            r == Mat2A::spec_identity(),
    {
        Mat2A::identity()
    }
}

impl PartialEq for Mat2A {
    fn eq(&self, other: &Self) -> (r: bool) {
        bits::eq(self.x_axis.x, other.x_axis.x) && bits::eq(self.x_axis.y, other.x_axis.y)
            && bits::eq(self.y_axis.x, other.y_axis.x) && bits::eq(self.y_axis.y, other.y_axis.y)
    }
}

impl vstd::std_specs::cmp::PartialEqSpecImpl for Mat2A {
    open spec fn obeys_eq_spec() -> bool {
        true
    }

    open spec fn eq_spec(&self, other: &Self) -> bool {
        self.spec_eq(*other)
    }
}

/// A matrix with a NaN component is not finite; absolute values keep which
/// components are NaN and which are finite; `==` is symmetric, and a matrix
/// equals itself exactly when none of its components is NaN.
pub proof fn lemma_mat2a_classification(m: Mat2A, n: Mat2A)
    ensures
        m.spec_is_nan() ==> !m.spec_is_finite(),
        m.spec_abs().spec_abs() == m.spec_abs(),
        m.spec_abs().spec_is_nan() == m.spec_is_nan(),
        m.spec_abs().spec_is_finite() == m.spec_is_finite(),
        m.spec_eq(n) == n.spec_eq(m),
        m.spec_eq(m) == !m.spec_is_nan(),
{
    bits::lemma_classification(m.x_axis.x);
    bits::lemma_classification(m.x_axis.y);
    bits::lemma_classification(m.y_axis.x);
    bits::lemma_classification(m.y_axis.y);
}


impl Mat2A {
    /// Each component with its sign flipped.
    pub open spec fn spec_negated(self) -> Mat2A {
        Mat2A {
            x_axis: GVec2 { x: bits::spec_neg(self.x_axis.x), y: bits::spec_neg(self.x_axis.y) },
            y_axis: GVec2 { x: bits::spec_neg(self.y_axis.x), y: bits::spec_neg(self.y_axis.y) },
        }
    }
}

impl core::ops::Neg for Mat2A {
    type Output = Mat2A;

    /// Flips the sign of each component (NaNs and zeros included).
    fn neg(self) -> (r: Mat2A) {
        Mat2A {
            x_axis: GVec2 { x: bits::neg(self.x_axis.x), y: bits::neg(self.x_axis.y) },
            y_axis: GVec2 { x: bits::neg(self.y_axis.x), y: bits::neg(self.y_axis.y) },
        }
    }
}

impl vstd::std_specs::ops::NegSpecImpl for Mat2A {
    open spec fn obeys_neg_spec() -> bool {
        true
    }

    open spec fn neg_req(self) -> bool {
        true
    }

    open spec fn neg_spec(self) -> Mat2A {
        self.spec_negated()
    }
}


/// Negating twice gives the value back, negation keeps the absolute value
/// and the classification of each component, and two values are equal
/// exactly when their negations are.
pub proof fn lemma_mat2a_neg(a: Mat2A, b: Mat2A)
    ensures
        a.spec_negated().spec_negated() == a,
        a.spec_negated().spec_abs() == a.spec_abs(),
        a.spec_negated().spec_is_nan() == a.spec_is_nan(),
        a.spec_negated().spec_is_finite() == a.spec_is_finite(),
        a.spec_negated().spec_eq(b.spec_negated()) == a.spec_eq(b),
{
    bits::lemma_neg(a.x_axis.x, b.x_axis.x);
    bits::lemma_neg(a.x_axis.y, b.x_axis.y);
    bits::lemma_neg(a.y_axis.x, b.y_axis.x);
    bits::lemma_neg(a.y_axis.y, b.y_axis.y);
}

/// Negation flips the sign of every component and changes nothing else:
/// each component of `-m` differs from the same component of `m` exactly in
/// the sign bit.
pub proof fn lemma_mat2a_neg_flips_signs(m: Mat2A)
    ensures
        forall|c: int, r: int|
            0 <= c < 2 && 0 <= r < 2 ==> #[trigger] m.spec_negated().spec_elem(c, r) ^ m.spec_elem(
                c,
                r,
            ) == 0x8000_0000u32,
{
    assert forall|c: int, r: int| 0 <= c < 2 && 0 <= r < 2 implies #[trigger] m.spec_negated().spec_elem(
        c,
        r,
    ) ^ m.spec_elem(c, r) == 0x8000_0000u32 by {
        bits::lemma_neg_flips_sign(m.spec_elem(c, r));
    }
}

} // verus!
