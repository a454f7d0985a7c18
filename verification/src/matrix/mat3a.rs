//! A SIMD-aligned 3x3 column-major matrix of binary32 components.
use vstd::prelude::*;

use crate::bits;
use crate::matrix::{GMat2, GMat3, GMat4, minor_index};
use crate::vector::{GVec2, GVec3, Vec3A};

verus! {

/// Creates a 3x3 column-major matrix from three column vectors.
pub fn mat3a(x_axis: Vec3A, y_axis: Vec3A, z_axis: Vec3A) -> (r: Mat3A)
    ensures
        r == (Mat3A { x_axis, y_axis, z_axis }),
{
    Mat3A::from_cols(x_axis, y_axis, z_axis)
}

/// A 3x3 column-major matrix whose components are binary32 values held by
/// their bit encodings.
#[derive(Clone, Copy)]
pub struct Mat3A {
    /// The first column of the matrix.
    pub x_axis: Vec3A,
    /// The second column of the matrix.
    pub y_axis: Vec3A,
    /// The third column of the matrix.
    pub z_axis: Vec3A,
}

impl Mat3A {
    /// The column at `i`.
    pub open spec fn spec_col(self, i: int) -> Vec3A
        recommends
            0 <= i < 3,
    {
        if i == 0 {
            self.x_axis
        } else if i == 1 {
            self.y_axis
        } else {
            self.z_axis
        }
    }

    /// The component in column `c` and row `r`.
    pub open spec fn spec_elem(self, c: int, r: int) -> u32 {
        self.spec_col(c).spec_lane(r)
    }

    /// The row at `i`.
    pub open spec fn spec_row(self, i: int) -> Vec3A {
        Vec3A {
            x: self.x_axis.spec_lane(i),
            y: self.y_axis.spec_lane(i),
            z: self.z_axis.spec_lane(i),
        }
    }

    /// `self` with the column at `i` replaced by `v`.
    pub open spec fn spec_with_col(self, i: int, v: Vec3A) -> Mat3A {
        if i == 0 {
            Mat3A { x_axis: v, ..self }
        } else if i == 1 {
            Mat3A { y_axis: v, ..self }
        } else {
            Mat3A { z_axis: v, ..self }
        }
    }

    /// The transpose: the rows of `self` become the columns.
    pub open spec fn spec_transpose(self) -> Mat3A {
        Mat3A { x_axis: self.spec_row(0), y_axis: self.spec_row(1), z_axis: self.spec_row(2) }
    }

    /// The components in column-major order.
    pub open spec fn spec_cols_array(self) -> Seq<u32> {
        self.x_axis.spec_array() + self.y_axis.spec_array() + self.z_axis.spec_array()
    }

    /// Some component is NaN.
    pub open spec fn spec_is_nan(self) -> bool {
        self.x_axis.spec_is_nan() || self.y_axis.spec_is_nan() || self.z_axis.spec_is_nan()
    }

    /// All components are finite.
    pub open spec fn spec_is_finite(self) -> bool {
        self.x_axis.spec_is_finite() && self.y_axis.spec_is_finite()
            && self.z_axis.spec_is_finite()
    }

    /// Component-wise absolute value.
    pub open spec fn spec_abs(self) -> Mat3A {
        Mat3A {
            x_axis: self.x_axis.spec_abs(),
            y_axis: self.y_axis.spec_abs(),
            z_axis: self.z_axis.spec_abs(),
        }
    }

    /// Component-wise IEEE-754 equality.
    pub open spec fn spec_eq(self, rhs: Mat3A) -> bool {
        self.x_axis.spec_eq(rhs.x_axis) && self.y_axis.spec_eq(rhs.y_axis) && self.z_axis.spec_eq(
            rhs.z_axis,
        )
    }

    /// The identity matrix: `1.0` on the diagonal and `0.0` elsewhere.
    pub open spec fn spec_identity() -> Mat3A {
        Mat3A {
            x_axis: Vec3A { x: bits::ONE_BITS, y: bits::ZERO_BITS, z: bits::ZERO_BITS },
            y_axis: Vec3A { x: bits::ZERO_BITS, y: bits::ONE_BITS, z: bits::ZERO_BITS },
            z_axis: Vec3A { x: bits::ZERO_BITS, y: bits::ZERO_BITS, z: bits::ONE_BITS },
        }
    }

    /// All zeros.
    pub fn zero() -> (r: Mat3A)
        ensures
            forall|c: int, i: int| 0 <= c < 3 && 0 <= i < 3 ==> #[trigger] r.spec_elem(c, i)
                == bits::ZERO_BITS,
    {
        Mat3A { x_axis: Vec3A::zero(), y_axis: Vec3A::zero(), z_axis: Vec3A::zero() }
    }

    /// The identity matrix.
    pub fn identity() -> (r: Mat3A)
        ensures
            r == Mat3A::spec_identity(),
    {
        Mat3A { x_axis: Vec3A::unit_x(), y_axis: Vec3A::unit_y(), z_axis: Vec3A::unit_z() }
    }

    /// All NaN.
    pub fn nan() -> (r: Mat3A)
        ensures
            forall|c: int, i: int| 0 <= c < 3 && 0 <= i < 3 ==> #[trigger] r.spec_elem(c, i)
                == bits::NAN_BITS,
    {
        Mat3A { x_axis: Vec3A::nan(), y_axis: Vec3A::nan(), z_axis: Vec3A::nan() }
    }

    /// Creates a 3x3 matrix from three column vectors.
    pub fn from_cols(x_axis: Vec3A, y_axis: Vec3A, z_axis: Vec3A) -> (r: Mat3A)
        ensures
            r == (Mat3A { x_axis, y_axis, z_axis }),
    {
        Mat3A { x_axis, y_axis, z_axis }
    }

    /// Creates a 3x3 matrix from an array of 9 components in column-major order.
    pub fn from_cols_array(m: &[u32; 9]) -> (r: Mat3A)
        ensures
            r.spec_cols_array() == m@,
    {
        let r = Mat3A::from_cols(
            Vec3A::new(m[0], m[1], m[2]),
            Vec3A::new(m[3], m[4], m[5]),
            Vec3A::new(m[6], m[7], m[8]),
        );
        assert(r.spec_cols_array() =~= m@);
        r
    }

    /// Returns the 9 components in column-major order.
    pub fn to_cols_array(&self) -> (r: [u32; 9])
        ensures
            r@ == self.spec_cols_array(),
    {
        let r = [
            self.x_axis.x,
            self.x_axis.y,
            self.x_axis.z,
            self.y_axis.x,
            self.y_axis.y,
            self.y_axis.z,
            self.z_axis.x,
            self.z_axis.y,
            self.z_axis.z,
        ];
        assert(r@ =~= self.spec_cols_array());
        r
    }

    /// Creates a 3x3 matrix from a 2D array of columns.
    pub fn from_cols_array_2d(m: &[[u32; 3]; 3]) -> (r: Mat3A)
        ensures
            r.x_axis.spec_array() == m@[0]@,
            r.y_axis.spec_array() == m@[1]@,
            r.z_axis.spec_array() == m@[2]@,
    {
        Mat3A::from_cols(Vec3A::from_array(m[0]), Vec3A::from_array(m[1]), Vec3A::from_array(m[2]))
    }

    /// Returns the columns as a 2D array.
    pub fn to_cols_array_2d(&self) -> (r: [[u32; 3]; 3])
        ensures
            r@[0]@ == self.x_axis.spec_array(),
            r@[1]@ == self.y_axis.spec_array(),
            r@[2]@ == self.z_axis.spec_array(),
    {
        [self.x_axis.to_array(), self.y_axis.to_array(), self.z_axis.to_array()]
    }

    /// Creates a 3x3 matrix from the first 9 values in `slice`, in column-major order.
    pub fn from_cols_slice(slice: &[u32]) -> (r: Mat3A)
        requires
            slice@.len() >= 9,
        ensures
            r.spec_cols_array() == slice@.subrange(0, 9),
    {
        let r = Mat3A::from_cols(
            Vec3A::new(slice[0], slice[1], slice[2]),
            Vec3A::new(slice[3], slice[4], slice[5]),
            Vec3A::new(slice[6], slice[7], slice[8]),
        );
        assert(r.spec_cols_array() =~= slice@.subrange(0, 9));
        r
    }

    /// Writes the columns of `self` to the first 9 elements in `slice`.
    pub fn write_cols_to_slice(&self, slice: &mut [u32])
        requires
            old(slice)@.len() >= 9,
        ensures
            final(slice)@ == self.spec_cols_array() + old(slice)@.subrange(
                9,
                old(slice)@.len() as int,
            ),
    {
        slice[0] = self.x_axis.x;
        slice[1] = self.x_axis.y;
        slice[2] = self.x_axis.z;
        slice[3] = self.y_axis.x;
        slice[4] = self.y_axis.y;
        slice[5] = self.y_axis.z;
        slice[6] = self.z_axis.x;
        slice[7] = self.z_axis.y;
        slice[8] = self.z_axis.z;
        assert(slice@ =~= self.spec_cols_array() + old(slice)@.subrange(
            9,
            old(slice)@.len() as int,
        ));
    }

    /// Returns `if_true` when `boolean` holds and `if_false` otherwise.
    pub fn select(boolean: bool, if_true: Mat3A, if_false: Mat3A) -> (r: Mat3A)
        ensures
            r == (if boolean {
                if_true
            } else {
                if_false
            }),
    {
        if boolean {
            if_true
        } else {
            if_false
        }
    }

    /// Returns the column at `index`.
    pub fn col(&self, index: usize) -> (r: Vec3A)
        requires
            index < 3,
        ensures
            r == self.spec_col(index as int),
    {
        if index == 0 {
            self.x_axis
        } else if index == 1 {
            self.y_axis
        } else {
            self.z_axis
        }
    }

    /// Returns a mutable reference to the column at `index`.
    pub fn col_mut(&mut self, index: usize) -> (r: &mut Vec3A)
        requires
            index < 3,
        ensures
            *r == old(self).spec_col(index as int),
            *final(self) == old(self).spec_with_col(index as int, *final(r)),
    {
        if index == 0 {
            &mut self.x_axis
        } else if index == 1 {
            &mut self.y_axis
        } else {
            &mut self.z_axis
        }
    }

    /// Returns the row at `index`.
    pub fn row(&self, index: usize) -> (r: Vec3A)
        requires
            index < 3,
        ensures
            r == self.spec_row(index as int),
    {
        if index == 0 {
            Vec3A::new(self.x_axis.x, self.y_axis.x, self.z_axis.x)
        } else if index == 1 {
            Vec3A::new(self.x_axis.y, self.y_axis.y, self.z_axis.y)
        } else {
            Vec3A::new(self.x_axis.z, self.y_axis.z, self.z_axis.z)
        }
    }

    /// Returns the transpose of `self`.
    pub fn transpose(&self) -> (r: Mat3A)
        ensures
            r == self.spec_transpose(),
            forall|c: int, i: int| 0 <= c < 3 && 0 <= i < 3 ==> #[trigger] r.spec_elem(c, i)
                == self.spec_elem(i, c),
    {
        Mat3A {
            x_axis: Vec3A::new(self.x_axis.x, self.y_axis.x, self.z_axis.x),
            y_axis: Vec3A::new(self.x_axis.y, self.y_axis.y, self.z_axis.y),
            z_axis: Vec3A::new(self.x_axis.z, self.y_axis.z, self.z_axis.z),
        }
    }

    /// Takes the absolute value of each component.
    pub fn abs(&self) -> (r: Mat3A)
        ensures
            r == self.spec_abs(),
    {
        Mat3A::from_cols(self.x_axis.abs(), self.y_axis.abs(), self.z_axis.abs())
    }

    /// Returns `true` if, and only if, all components are finite.
    pub fn is_finite(&self) -> (r: bool)
        ensures
            r == self.spec_is_finite(),
    {
        self.x_axis.is_finite() && self.y_axis.is_finite() && self.z_axis.is_finite()
    }

    /// Returns `true` if any component is NaN.
    pub fn is_nan(&self) -> (r: bool)
        ensures
            r == self.spec_is_nan(),
    {
        self.x_axis.is_nan() || self.y_axis.is_nan() || self.z_axis.is_nan()
    }
}

impl Default for Mat3A {
    /// The identity matrix.
    fn default() -> (r: Mat3A)
        ensures
            r == Mat3A::spec_identity(),
    {
        Mat3A::identity()
    }
}

impl PartialEq for Mat3A {
    fn eq(&self, other: &Self) -> (r: bool) {
        self.x_axis == other.x_axis && self.y_axis == other.y_axis && self.z_axis == other.z_axis
    }
}

impl vstd::std_specs::cmp::PartialEqSpecImpl for Mat3A {
    open spec fn obeys_eq_spec() -> bool {
        true
    }

    open spec fn eq_spec(&self, other: &Self) -> bool {
        self.spec_eq(*other)
    }
}

/// Transposing twice gives back the original matrix.
pub proof fn lemma_mat3a_transpose_involutive(m: Mat3A)
    ensures
        m.spec_transpose().spec_transpose() == m,
{
}

/// Row `i` of a matrix is column `i` of its transpose, and column `i` of a
/// matrix is row `i` of its transpose.
pub proof fn lemma_mat3a_row_is_transposed_col(m: Mat3A, i: int)
    requires
        0 <= i < 3,
    ensures
        m.spec_row(i) == m.spec_transpose().spec_col(i),
        m.spec_col(i) == m.spec_transpose().spec_row(i),
{
}

/// A matrix is determined by its components in column-major order, so
/// reading a matrix back from the array it was written to gives it back.
pub proof fn lemma_mat3a_cols_array_injective(a: Mat3A, b: Mat3A)
    requires
        a.spec_cols_array() == b.spec_cols_array(),
    ensures
        a == b,
{
    let sa = a.spec_cols_array();
    let sb = b.spec_cols_array();
    assert(sa[0] == sb[0] && sa[1] == sb[1] && sa[2] == sb[2]);
    assert(sa[3] == sb[3] && sa[4] == sb[4] && sa[5] == sb[5]);
    assert(sa[6] == sb[6] && sa[7] == sb[7] && sa[8] == sb[8]);
}

/// A matrix with a NaN component is not finite; taking absolute values is
/// idempotent, commutes with transposition and keeps which components are
/// NaN and which are finite.
pub proof fn lemma_mat3a_classification(m: Mat3A)
    ensures
        m.spec_is_nan() ==> !m.spec_is_finite(),
        m.spec_abs().spec_abs() == m.spec_abs(),
        m.spec_abs().spec_is_nan() == m.spec_is_nan(),
        m.spec_abs().spec_is_finite() == m.spec_is_finite(),
        m.spec_transpose().spec_abs() == m.spec_abs().spec_transpose(),
        m.spec_transpose().spec_is_nan() == m.spec_is_nan(),
        m.spec_transpose().spec_is_finite() == m.spec_is_finite(),
{
    bits::lemma_classification(m.x_axis.x);
    bits::lemma_classification(m.x_axis.y);
    bits::lemma_classification(m.x_axis.z);
    bits::lemma_classification(m.y_axis.x);
    bits::lemma_classification(m.y_axis.y);
    bits::lemma_classification(m.y_axis.z);
    bits::lemma_classification(m.z_axis.x);
    bits::lemma_classification(m.z_axis.y);
    bits::lemma_classification(m.z_axis.z);
}

/// `==` on matrices is symmetric, and a matrix equals itself exactly when
/// none of its components is NaN.
pub proof fn lemma_mat3a_eq(a: Mat3A, b: Mat3A)
    ensures
        a.spec_eq(b) == b.spec_eq(a),
        a.spec_eq(a) == !a.spec_is_nan(),
{
}

impl Mat3A {
    /// Creates a SIMD-aligned matrix from a generic matrix of encodings.
    pub fn from_mat3(m: GMat3<u32>) -> (r: Mat3A)
        ensures
            r == Mat3A::spec_from_mat3(m),
            forall|c: int, i: int| 0 <= c < 3 && 0 <= i < 3 ==> #[trigger] r.spec_elem(c, i)
                == m.spec_elem(c, i),
    {
        Mat3A::from_cols(
            Vec3A::from_vec3(m.x_axis),
            Vec3A::from_vec3(m.y_axis),
            Vec3A::from_vec3(m.z_axis),
        )
    }

    /// Converts `self` to a generic matrix of encodings.
    pub fn to_mat3(self) -> (r: GMat3<u32>)
        ensures
            Mat3A::spec_from_mat3(r) == self,
            forall|c: int, i: int| 0 <= c < 3 && 0 <= i < 3 ==> #[trigger] r.spec_elem(c, i)
                == self.spec_elem(c, i),
    {
        GMat3::from_cols(self.x_axis.to_vec3(), self.y_axis.to_vec3(), self.z_axis.to_vec3())
    }

    /// Creates a 3x3 matrix from a 4x4 matrix, discarding the 4th row and column.
    pub fn from_mat4(m: GMat4<u32>) -> (r: Mat3A)
        ensures
            forall|c: int, i: int| 0 <= c < 3 && 0 <= i < 3 ==> #[trigger] r.spec_elem(c, i)
                == m.spec_elem(c, i),
    {
        Mat3A::from_mat3(GMat3::from_mat4(m))
    }

    /// Creates a 3x3 matrix from the minor of the given 4x4 matrix, discarding
    /// the `i`th column and the `j`th row.
    pub fn from_mat4_minor(m: GMat4<u32>, i: usize, j: usize) -> (r: Mat3A)
        requires
            i < 4,
            j < 4,
        ensures
            forall|c: int, k: int| 0 <= c < 3 && 0 <= k < 3 ==> #[trigger] r.spec_elem(c, k)
                == m.spec_elem(minor_index(c, i as int), minor_index(k, j as int)),
    {
        Mat3A::from_mat3(GMat3::from_mat4_minor(m, i, j))
    }

    /// Creates a matrix with its diagonal set to `diagonal` and all other
    /// components set to `0.0`.
    pub fn from_diagonal(diagonal: GVec3<u32>) -> (r: Mat3A)
        ensures
            r.spec_diagonal() == Vec3A::spec_from_vec3(diagonal),
            forall|c: int, i: int| 0 <= c < 3 && 0 <= i < 3 && c != i ==> #[trigger] r.spec_elem(
                c,
                i,
            ) == bits::ZERO_BITS,
    {
        Mat3A::from_cols(
            Vec3A::new(diagonal.x, bits::ZERO_BITS, bits::ZERO_BITS),
            Vec3A::new(bits::ZERO_BITS, diagonal.y, bits::ZERO_BITS),
            Vec3A::new(bits::ZERO_BITS, bits::ZERO_BITS, diagonal.z),
        )
    }

    /// The SIMD-aligned matrix with the columns of `m`.
    pub open spec fn spec_from_mat3(m: GMat3<u32>) -> Mat3A {
        Mat3A {
            x_axis: Vec3A::spec_from_vec3(m.x_axis),
            y_axis: Vec3A::spec_from_vec3(m.y_axis),
            z_axis: Vec3A::spec_from_vec3(m.z_axis),
        }
    }

    /// The diagonal components.
    pub open spec fn spec_diagonal(self) -> Vec3A {
        Vec3A { x: self.x_axis.x, y: self.y_axis.y, z: self.z_axis.z }
    }

    /// Returns the diagonal of `self`.
    pub fn diagonal(&self) -> (r: GVec3<u32>)
        ensures
            Vec3A::spec_from_vec3(r) == self.spec_diagonal(),
    {
        GVec3::new(self.x_axis.x, self.y_axis.y, self.z_axis.z)
    }
}

impl Mat3A {
    /// Creates a 2D affine transformation matrix that translates by `translation`: the identity
    /// with `(translation.x, translation.y, 1)` as its last column.
    pub fn from_translation(translation: GVec2<u32>) -> (r: Mat3A)
        ensures
            r == (Mat3A {
                x_axis: Vec3A { x: bits::ONE_BITS, y: bits::ZERO_BITS, z: bits::ZERO_BITS },
                y_axis: Vec3A { x: bits::ZERO_BITS, y: bits::ONE_BITS, z: bits::ZERO_BITS },
                z_axis: Vec3A { x: translation.x, y: translation.y, z: bits::ONE_BITS },
            }),
    {
        Mat3A {
            x_axis: Vec3A { x: bits::ONE_BITS, y: bits::ZERO_BITS, z: bits::ZERO_BITS },
            y_axis: Vec3A { x: bits::ZERO_BITS, y: bits::ONE_BITS, z: bits::ZERO_BITS },
            z_axis: Vec3A { x: translation.x, y: translation.y, z: bits::ONE_BITS },
        }
    }

    /// Creates a 2D affine transformation matrix that scales by `scale`: the diagonal `(scale.x,
    /// scale.y, 1)`.
    pub fn from_scale(scale: GVec2<u32>) -> (r: Mat3A)
        ensures
            r == (Mat3A {
                x_axis: Vec3A { x: scale.x, y: bits::ZERO_BITS, z: bits::ZERO_BITS },
                y_axis: Vec3A { x: bits::ZERO_BITS, y: scale.y, z: bits::ZERO_BITS },
                z_axis: Vec3A { x: bits::ZERO_BITS, y: bits::ZERO_BITS, z: bits::ONE_BITS },
            }),
    {
        Mat3A {
            x_axis: Vec3A { x: scale.x, y: bits::ZERO_BITS, z: bits::ZERO_BITS },
            y_axis: Vec3A { x: bits::ZERO_BITS, y: scale.y, z: bits::ZERO_BITS },
            z_axis: Vec3A { x: bits::ZERO_BITS, y: bits::ZERO_BITS, z: bits::ONE_BITS },
        }
    }

    /// Creates a 2D affine transformation matrix from a 2x2 matrix: its columns extended with `0`,
    /// then `(0, 0, 1)`.
    pub fn from_mat2(m: GMat2<u32>) -> (r: Mat3A)
        ensures
            r == (Mat3A {
                x_axis: Vec3A { x: m.x_axis.x, y: m.x_axis.y, z: bits::ZERO_BITS },
                y_axis: Vec3A { x: m.y_axis.x, y: m.y_axis.y, z: bits::ZERO_BITS },
                z_axis: Vec3A { x: bits::ZERO_BITS, y: bits::ZERO_BITS, z: bits::ONE_BITS },
            }),
    {
        Mat3A {
            x_axis: Vec3A { x: m.x_axis.x, y: m.x_axis.y, z: bits::ZERO_BITS },
            y_axis: Vec3A { x: m.y_axis.x, y: m.y_axis.y, z: bits::ZERO_BITS },
            z_axis: Vec3A { x: bits::ZERO_BITS, y: bits::ZERO_BITS, z: bits::ONE_BITS },
        }
    }
}


impl Mat3A {
    /// Each component with its sign flipped.
    pub open spec fn spec_negated(self) -> Mat3A {
        Mat3A {
            x_axis: self.x_axis.spec_negated(),
            y_axis: self.y_axis.spec_negated(),
            z_axis: self.z_axis.spec_negated(),
        }
    }
}

impl core::ops::Neg for Mat3A {
    type Output = Mat3A;

    /// Flips the sign of each component (NaNs and zeros included).
    fn neg(self) -> (r: Mat3A) {
        Mat3A {
            x_axis: core::ops::Neg::neg(self.x_axis),
            y_axis: core::ops::Neg::neg(self.y_axis),
            z_axis: core::ops::Neg::neg(self.z_axis),
        }
    }
}

impl vstd::std_specs::ops::NegSpecImpl for Mat3A {
    open spec fn obeys_neg_spec() -> bool {
        true
    }

    open spec fn neg_req(self) -> bool {
        true
    }

    open spec fn neg_spec(self) -> Mat3A {
        self.spec_negated()
    }
}


/// Negating twice gives the value back, negation keeps the absolute value
/// and the classification of each component, and two values are equal
/// exactly when their negations are.
pub proof fn lemma_mat3a_neg(a: Mat3A, b: Mat3A)
    ensures
        a.spec_negated().spec_negated() == a,
        a.spec_negated().spec_abs() == a.spec_abs(),
        a.spec_negated().spec_is_nan() == a.spec_is_nan(),
        a.spec_negated().spec_is_finite() == a.spec_is_finite(),
        a.spec_negated().spec_eq(b.spec_negated()) == a.spec_eq(b),
{
    bits::lemma_neg(a.x_axis.x, b.x_axis.x);
    bits::lemma_neg(a.x_axis.y, b.x_axis.y);
    bits::lemma_neg(a.x_axis.z, b.x_axis.z);
    bits::lemma_neg(a.y_axis.x, b.y_axis.x);
    bits::lemma_neg(a.y_axis.y, b.y_axis.y);
    bits::lemma_neg(a.y_axis.z, b.y_axis.z);
    bits::lemma_neg(a.z_axis.x, b.z_axis.x);
    bits::lemma_neg(a.z_axis.y, b.z_axis.y);
    bits::lemma_neg(a.z_axis.z, b.z_axis.z);
}

/// Negation flips the sign of every component and changes nothing else:
/// each component of `-m` differs from the same component of `m` exactly in
/// the sign bit.
pub proof fn lemma_mat3a_neg_flips_signs(m: Mat3A)
    ensures
        forall|c: int, r: int|
            0 <= c < 3 && 0 <= r < 3 ==> #[trigger] m.spec_negated().spec_elem(c, r) ^ m.spec_elem(
                c,
                r,
            ) == 0x8000_0000u32,
{
    assert forall|c: int, r: int| 0 <= c < 3 && 0 <= r < 3 implies #[trigger] m.spec_negated().spec_elem(
        c,
        r,
    ) ^ m.spec_elem(c, r) == 0x8000_0000u32 by {
        bits::lemma_neg_flips_sign(m.spec_elem(c, r));
    }
}

} // verus!
