//! A SIMD-aligned 4x4 column-major matrix of binary32 components.
use vstd::prelude::*;

use crate::bits;
use crate::matrix::{GMat3, GMat4};
use crate::vector::{GVec3, GVec4, Vec4A};

verus! {

/// Creates a 4x4 column-major matrix from four column vectors.
pub fn mat4a(x_axis: Vec4A, y_axis: Vec4A, z_axis: Vec4A, w_axis: Vec4A) -> (r: Mat4A)
    ensures
        r == (Mat4A { x_axis, y_axis, z_axis, w_axis }),
{
    Mat4A::from_cols(x_axis, y_axis, z_axis, w_axis)
}

/// Two-input lane shuffle: the result is `[a[IA], a[IB], b[IC], b[ID]]`.
pub fn shuffle<const IA: usize, const IB: usize, const IC: usize, const ID: usize>(
    a: Vec4A,
    b: Vec4A,
) -> (r: Vec4A)
    requires
        IA < 4,
        IB < 4,
        IC < 4,
        ID < 4,
    ensures
        r == (Vec4A {
            x: a.spec_lane(IA as int),
            y: a.spec_lane(IB as int),
            z: b.spec_lane(IC as int),
            w: b.spec_lane(ID as int),
        }),
{
    Vec4A::new(a.lane(IA), a.lane(IB), b.lane(IC), b.lane(ID))
}

/// A 4x4 column-major matrix whose components are binary32 values held by
/// their bit encodings.
#[derive(Clone, Copy)]
pub struct Mat4A {
    /// The first column of the matrix.
    pub x_axis: Vec4A,
    /// The second column of the matrix.
    pub y_axis: Vec4A,
    /// The third column of the matrix.
    pub z_axis: Vec4A,
    /// The fourth column of the matrix.
    pub w_axis: Vec4A,
}

impl Mat4A {
    /// The column at `i`.
    pub open spec fn spec_col(self, i: int) -> Vec4A
        recommends
            0 <= i < 4,
    {
        if i == 0 {
            self.x_axis
        } else if i == 1 {
            self.y_axis
        } else if i == 2 {
            self.z_axis
        } else {
            self.w_axis
        }
    }

    /// The component in column `c` and row `r`.
    pub open spec fn spec_elem(self, c: int, r: int) -> u32 {
        self.spec_col(c).spec_lane(r)
    }

    /// The row at `i`.
    pub open spec fn spec_row(self, i: int) -> Vec4A {
        Vec4A {
            x: self.x_axis.spec_lane(i),
            y: self.y_axis.spec_lane(i),
            z: self.z_axis.spec_lane(i),
            w: self.w_axis.spec_lane(i),
        }
    }

    /// `self` with the column at `i` replaced by `v`.
    pub open spec fn spec_with_col(self, i: int, v: Vec4A) -> Mat4A {
        if i == 0 {
            Mat4A { x_axis: v, ..self }
        } else if i == 1 {
            Mat4A { y_axis: v, ..self }
        } else if i == 2 {
            Mat4A { z_axis: v, ..self }
        } else {
            Mat4A { w_axis: v, ..self }
        }
    }

    /// The transpose: the rows of `self` become the columns.
    pub open spec fn spec_transpose(self) -> Mat4A {
        Mat4A {
            x_axis: self.spec_row(0),
            y_axis: self.spec_row(1),
            z_axis: self.spec_row(2),
            w_axis: self.spec_row(3),
        }
    }

    /// The components in column-major order.
    pub open spec fn spec_cols_array(self) -> Seq<u32> {
        self.x_axis.spec_array() + self.y_axis.spec_array() + self.z_axis.spec_array()
            + self.w_axis.spec_array()
    }

    /// Some component is NaN.
    pub open spec fn spec_is_nan(self) -> bool {
        self.x_axis.spec_is_nan() || self.y_axis.spec_is_nan() || self.z_axis.spec_is_nan()
            || self.w_axis.spec_is_nan()
    }

    /// All components are finite.
    pub open spec fn spec_is_finite(self) -> bool {
        self.x_axis.spec_is_finite() && self.y_axis.spec_is_finite()
            && self.z_axis.spec_is_finite() && self.w_axis.spec_is_finite()
    }

    /// Component-wise absolute value.
    pub open spec fn spec_abs(self) -> Mat4A {
        Mat4A {
            x_axis: self.x_axis.spec_abs(),
            y_axis: self.y_axis.spec_abs(),
            z_axis: self.z_axis.spec_abs(),
            w_axis: self.w_axis.spec_abs(),
        }
    }

    /// Component-wise IEEE-754 equality.
    pub open spec fn spec_eq(self, rhs: Mat4A) -> bool {
        self.x_axis.spec_eq(rhs.x_axis) && self.y_axis.spec_eq(rhs.y_axis) && self.z_axis.spec_eq(
            rhs.z_axis,
        ) && self.w_axis.spec_eq(rhs.w_axis)
    }

    /// The identity matrix: `1.0` on the diagonal and `0.0` elsewhere.
    pub open spec fn spec_identity() -> Mat4A {
        Mat4A {
            x_axis: Vec4A {
                x: bits::ONE_BITS,
                y: bits::ZERO_BITS,
                z: bits::ZERO_BITS,
                w: bits::ZERO_BITS,
            },
            y_axis: Vec4A {
                x: bits::ZERO_BITS,
                y: bits::ONE_BITS,
                z: bits::ZERO_BITS,
                w: bits::ZERO_BITS,
            },
            z_axis: Vec4A {
                x: bits::ZERO_BITS,
                y: bits::ZERO_BITS,
                z: bits::ONE_BITS,
                w: bits::ZERO_BITS,
            },
            w_axis: Vec4A {
                x: bits::ZERO_BITS,
                y: bits::ZERO_BITS,
                z: bits::ZERO_BITS,
                w: bits::ONE_BITS,
            },
        }
    }

    /// The matrix with every component equal to `v`.
    pub open spec fn spec_splat(v: u32) -> Mat4A {
        Mat4A {
            x_axis: Vec4A::spec_splat(v),
            y_axis: Vec4A::spec_splat(v),
            z_axis: Vec4A::spec_splat(v),
            w_axis: Vec4A::spec_splat(v),
        }
    }

    /// All zeros.
    pub fn zero() -> (r: Mat4A)
        ensures
            r == Mat4A::spec_splat(bits::ZERO_BITS),
    {
        Mat4A {
            x_axis: Vec4A::zero(),
            y_axis: Vec4A::zero(),
            z_axis: Vec4A::zero(),
            w_axis: Vec4A::zero(),
        }
    }

    /// The identity matrix.
    pub fn identity() -> (r: Mat4A)
        ensures
            r == Mat4A::spec_identity(),
    {
        Mat4A {
            x_axis: Vec4A::unit_x(),
            y_axis: Vec4A::unit_y(),
            z_axis: Vec4A::unit_z(),
            w_axis: Vec4A::unit_w(),
        }
    }

    /// All NaN.
    pub fn nan() -> (r: Mat4A)
        ensures
            r == Mat4A::spec_splat(bits::NAN_BITS),
    {
        Mat4A {
            x_axis: Vec4A::nan(),
            y_axis: Vec4A::nan(),
            z_axis: Vec4A::nan(),
            w_axis: Vec4A::nan(),
        }
    }

    /// Creates a 4x4 matrix from four column vectors.
    pub fn from_cols(x_axis: Vec4A, y_axis: Vec4A, z_axis: Vec4A, w_axis: Vec4A) -> (r: Mat4A)
        ensures
            r == (Mat4A { x_axis, y_axis, z_axis, w_axis }),
    {
        Mat4A { x_axis, y_axis, z_axis, w_axis }
    }

    /// Creates a 4x4 matrix from an array of 16 components in column-major order.
    pub fn from_cols_array(m: &[u32; 16]) -> (r: Mat4A)
        ensures
            r.spec_cols_array() == m@,
    {
        let r = Mat4A::from_cols(
            Vec4A::new(m[0], m[1], m[2], m[3]),
            Vec4A::new(m[4], m[5], m[6], m[7]),
            Vec4A::new(m[8], m[9], m[10], m[11]),
            Vec4A::new(m[12], m[13], m[14], m[15]),
        );
        assert(r.spec_cols_array() =~= m@);
        r
    }

    /// Returns the 16 components in column-major order.
    pub fn to_cols_array(&self) -> (r: [u32; 16])
        ensures
            r@ == self.spec_cols_array(),
    {
        let r = [
            self.x_axis.x,
            self.x_axis.y,
            self.x_axis.z,
            self.x_axis.w,
            self.y_axis.x,
            self.y_axis.y,
            self.y_axis.z,
            self.y_axis.w,
            self.z_axis.x,
            self.z_axis.y,
            self.z_axis.z,
            self.z_axis.w,
            self.w_axis.x,
            self.w_axis.y,
            self.w_axis.z,
            self.w_axis.w,
        ];
        assert(r@ =~= self.spec_cols_array());
        r
    }

    /// Creates a 4x4 matrix from a 2D array of columns.
    pub fn from_cols_array_2d(m: &[[u32; 4]; 4]) -> (r: Mat4A)
        ensures
            r.x_axis.spec_array() == m@[0]@,
            r.y_axis.spec_array() == m@[1]@,
            r.z_axis.spec_array() == m@[2]@,
            r.w_axis.spec_array() == m@[3]@,
    {
        Mat4A::from_cols(
            Vec4A::from_array(m[0]),
            Vec4A::from_array(m[1]),
            Vec4A::from_array(m[2]),
            Vec4A::from_array(m[3]),
        )
    }

    /// Returns the columns as a 2D array.
    pub fn to_cols_array_2d(&self) -> (r: [[u32; 4]; 4])
        ensures
            r@[0]@ == self.x_axis.spec_array(),
            r@[1]@ == self.y_axis.spec_array(),
            r@[2]@ == self.z_axis.spec_array(),
            r@[3]@ == self.w_axis.spec_array(),
    {
        [
            self.x_axis.to_array(),
            self.y_axis.to_array(),
            self.z_axis.to_array(),
            self.w_axis.to_array(),
        ]
    }

    /// Creates a 4x4 matrix from the first 16 values in `slice`, in column-major order.
    pub fn from_cols_slice(slice: &[u32]) -> (r: Mat4A)
        requires
            slice@.len() >= 16,
        ensures
            r.spec_cols_array() == slice@.subrange(0, 16),
    {
        let r = Mat4A::from_cols(
            Vec4A::new(slice[0], slice[1], slice[2], slice[3]),
            Vec4A::new(slice[4], slice[5], slice[6], slice[7]),
            Vec4A::new(slice[8], slice[9], slice[10], slice[11]),
            Vec4A::new(slice[12], slice[13], slice[14], slice[15]),
        );
        assert(r.spec_cols_array() =~= slice@.subrange(0, 16));
        r
    }

    /// Writes the columns of `self` to the first 16 elements in `slice`.
    pub fn write_cols_to_slice(&self, slice: &mut [u32])
        requires
            old(slice)@.len() >= 16,
        ensures
            final(slice)@ == self.spec_cols_array() + old(slice)@.subrange(
                16,
                old(slice)@.len() as int,
            ),
    {
        slice[0] = self.x_axis.x;
        slice[1] = self.x_axis.y;
        slice[2] = self.x_axis.z;
        slice[3] = self.x_axis.w;
        slice[4] = self.y_axis.x;
        slice[5] = self.y_axis.y;
        slice[6] = self.y_axis.z;
        slice[7] = self.y_axis.w;
        slice[8] = self.z_axis.x;
        slice[9] = self.z_axis.y;
        slice[10] = self.z_axis.z;
        slice[11] = self.z_axis.w;
        slice[12] = self.w_axis.x;
        slice[13] = self.w_axis.y;
        slice[14] = self.w_axis.z;
        slice[15] = self.w_axis.w;
        assert(slice@ =~= self.spec_cols_array() + old(slice)@.subrange(
            16,
            old(slice)@.len() as int,
        ));
    }

    /// Returns `if_true` when `boolean` holds and `if_false` otherwise.
    pub fn select(boolean: bool, if_true: Mat4A, if_false: Mat4A) -> (r: Mat4A)
        ensures
            r == (if boolean {
                if_true
            } else {
                if_false
            }),
    {
        if boolean {
            if_true
        } else {
            if_false
        }
    }

    /// Returns the column at `index`.
    pub fn col(&self, index: usize) -> (r: Vec4A)
        requires
            index < 4,
        ensures
            r == self.spec_col(index as int),
    {
        if index == 0 {
            self.x_axis
        } else if index == 1 {
            self.y_axis
        } else if index == 2 {
            self.z_axis
        } else {
            self.w_axis
        }
    }

    /// Returns a mutable reference to the column at `index`.
    pub fn col_mut(&mut self, index: usize) -> (r: &mut Vec4A)
        requires
            index < 4,
        ensures
            *r == old(self).spec_col(index as int),
            *final(self) == old(self).spec_with_col(index as int, *final(r)),
    {
        if index == 0 {
            &mut self.x_axis
        } else if index == 1 {
            &mut self.y_axis
        } else if index == 2 {
            &mut self.z_axis
        } else {
            &mut self.w_axis
        }
    }

    /// Returns the row at `index`.
    pub fn row(&self, index: usize) -> (r: Vec4A)
        requires
            index < 4,
        ensures
            r == self.spec_row(index as int),
    {
        if index == 0 {
            Vec4A::new(self.x_axis.x, self.y_axis.x, self.z_axis.x, self.w_axis.x)
        } else if index == 1 {
            Vec4A::new(self.x_axis.y, self.y_axis.y, self.z_axis.y, self.w_axis.y)
        } else if index == 2 {
            Vec4A::new(self.x_axis.z, self.y_axis.z, self.z_axis.z, self.w_axis.z)
        } else {
            Vec4A::new(self.x_axis.w, self.y_axis.w, self.z_axis.w, self.w_axis.w)
        }
    }

    /// Returns the transpose of `self`.
    pub fn transpose(&self) -> (r: Mat4A)
        ensures
            r == self.spec_transpose(),
            forall|c: int, i: int| 0 <= c < 4 && 0 <= i < 4 ==> #[trigger] r.spec_elem(c, i)
                == self.spec_elem(i, c),
    {
        Mat4A {
            x_axis: Vec4A::new(self.x_axis.x, self.y_axis.x, self.z_axis.x, self.w_axis.x),
            y_axis: Vec4A::new(self.x_axis.y, self.y_axis.y, self.z_axis.y, self.w_axis.y),
            z_axis: Vec4A::new(self.x_axis.z, self.y_axis.z, self.z_axis.z, self.w_axis.z),
            w_axis: Vec4A::new(self.x_axis.w, self.y_axis.w, self.z_axis.w, self.w_axis.w),
        }
    }

    /// Takes the absolute value of each component.
    pub fn abs(&self) -> (r: Mat4A)
        ensures
            r == self.spec_abs(),
    {
        Mat4A::from_cols(self.x_axis.abs(), self.y_axis.abs(), self.z_axis.abs(), self.w_axis.abs())
    }

    /// Returns `true` if, and only if, all components are finite.
    pub fn is_finite(&self) -> (r: bool)
        ensures
            r == self.spec_is_finite(),
    {
        self.x_axis.is_finite() && self.y_axis.is_finite() && self.z_axis.is_finite()
            && self.w_axis.is_finite()
    }

    /// Returns `true` if any component is NaN.
    pub fn is_nan(&self) -> (r: bool)
        ensures
            r == self.spec_is_nan(),
    {
        self.x_axis.is_nan() || self.y_axis.is_nan() || self.z_axis.is_nan() || self.w_axis.is_nan()
    }
}

impl Default for Mat4A {
    /// The identity matrix.
    fn default() -> (r: Mat4A)
        ensures
            r == Mat4A::spec_identity(),
    {
        Mat4A::identity()
    }
}

impl PartialEq for Mat4A {
    fn eq(&self, other: &Self) -> (r: bool) {
        self.x_axis == other.x_axis && self.y_axis == other.y_axis && self.z_axis == other.z_axis
            && self.w_axis == other.w_axis
    }
}

impl vstd::std_specs::cmp::PartialEqSpecImpl for Mat4A {
    open spec fn obeys_eq_spec() -> bool {
        true
    }

    open spec fn eq_spec(&self, other: &Self) -> bool {
        self.spec_eq(*other)
    }
}

/// Transposing twice gives back the original matrix.
pub proof fn lemma_mat4a_transpose_involutive(m: Mat4A)
    ensures
        m.spec_transpose().spec_transpose() == m,
{
}

/// Row `i` of a matrix is column `i` of its transpose, and column `i` of a
/// matrix is row `i` of its transpose.
pub proof fn lemma_mat4a_row_is_transposed_col(m: Mat4A, i: int)
    requires
        0 <= i < 4,
    ensures
        m.spec_row(i) == m.spec_transpose().spec_col(i),
        m.spec_col(i) == m.spec_transpose().spec_row(i),
{
}

/// A matrix is determined by its components in column-major order, so
/// reading a matrix back from the array it was written to gives it back.
pub proof fn lemma_mat4a_cols_array_injective(a: Mat4A, b: Mat4A)
    requires
        a.spec_cols_array() == b.spec_cols_array(),
    ensures
        a == b,
{
    assert(a.spec_cols_array() =~= seq![
        a.x_axis.x,
        a.x_axis.y,
        a.x_axis.z,
        a.x_axis.w,
        a.y_axis.x,
        a.y_axis.y,
        a.y_axis.z,
        a.y_axis.w,
        a.z_axis.x,
        a.z_axis.y,
        a.z_axis.z,
        a.z_axis.w,
        a.w_axis.x,
        a.w_axis.y,
        a.w_axis.z,
        a.w_axis.w,
    ]);
    assert(b.spec_cols_array() =~= seq![
        b.x_axis.x,
        b.x_axis.y,
        b.x_axis.z,
        b.x_axis.w,
        b.y_axis.x,
        b.y_axis.y,
        b.y_axis.z,
        b.y_axis.w,
        b.z_axis.x,
        b.z_axis.y,
        b.z_axis.z,
        b.z_axis.w,
        b.w_axis.x,
        b.w_axis.y,
        b.w_axis.z,
        b.w_axis.w,
    ]);
    let sa = a.spec_cols_array();
    let sb = b.spec_cols_array();
    assert(sa[0] == sb[0] && sa[1] == sb[1] && sa[2] == sb[2] && sa[3] == sb[3]);
    assert(sa[4] == sb[4] && sa[5] == sb[5] && sa[6] == sb[6] && sa[7] == sb[7]);
    assert(sa[8] == sb[8] && sa[9] == sb[9] && sa[10] == sb[10] && sa[11] == sb[11]);
    assert(sa[12] == sb[12] && sa[13] == sb[13] && sa[14] == sb[14] && sa[15] == sb[15]);
}

/// A matrix with a NaN component is not finite; taking absolute values is
/// idempotent, commutes with transposition and keeps which components are
/// NaN and which are finite.
pub proof fn lemma_mat4a_classification(m: Mat4A)
    ensures
        m.spec_is_nan() ==> !m.spec_is_finite(),
        m.spec_abs().spec_abs() == m.spec_abs(),
        m.spec_abs().spec_is_nan() == m.spec_is_nan(),
        m.spec_abs().spec_is_finite() == m.spec_is_finite(),
        m.spec_transpose().spec_abs() == m.spec_abs().spec_transpose(),
        m.spec_transpose().spec_is_nan() == m.spec_is_nan(),
        m.spec_transpose().spec_is_finite() == m.spec_is_finite(),
{
    bits::lemma_classification(m.x_axis.x);
    bits::lemma_classification(m.x_axis.y);
    bits::lemma_classification(m.x_axis.z);
    bits::lemma_classification(m.x_axis.w);
    bits::lemma_classification(m.y_axis.x);
    bits::lemma_classification(m.y_axis.y);
    bits::lemma_classification(m.y_axis.z);
    bits::lemma_classification(m.y_axis.w);
    bits::lemma_classification(m.z_axis.x);
    bits::lemma_classification(m.z_axis.y);
    bits::lemma_classification(m.z_axis.z);
    bits::lemma_classification(m.z_axis.w);
    bits::lemma_classification(m.w_axis.x);
    bits::lemma_classification(m.w_axis.y);
    bits::lemma_classification(m.w_axis.z);
    bits::lemma_classification(m.w_axis.w);
}

/// `==` on matrices is symmetric, and a matrix equals itself exactly when
/// none of its components is NaN.
pub proof fn lemma_mat4a_eq(a: Mat4A, b: Mat4A)
    ensures
        a.spec_eq(b) == b.spec_eq(a),
        a.spec_eq(a) == !a.spec_is_nan(),
{
}

impl Mat4A {
    /// Creates a SIMD-aligned matrix from a generic matrix of encodings.
    pub fn from_mat4(m: GMat4<u32>) -> (r: Mat4A)
        ensures
            forall|c: int, i: int| 0 <= c < 4 && 0 <= i < 4 ==> #[trigger] r.spec_elem(c, i)
                == m.spec_elem(c, i),
    {
        Mat4A::from_cols(
            Vec4A::from_vec4(m.x_axis),
            Vec4A::from_vec4(m.y_axis),
            Vec4A::from_vec4(m.z_axis),
            Vec4A::from_vec4(m.w_axis),
        )
    }

    /// Converts `self` to a generic matrix of encodings.
    pub fn to_mat4(self) -> (r: GMat4<u32>)
        ensures
            forall|c: int, i: int| 0 <= c < 4 && 0 <= i < 4 ==> #[trigger] r.spec_elem(c, i)
                == self.spec_elem(c, i),
    {
        GMat4::from_cols(
            self.x_axis.to_vec4(),
            self.y_axis.to_vec4(),
            self.z_axis.to_vec4(),
            self.w_axis.to_vec4(),
        )
    }

    /// Creates a matrix with its diagonal set to `diagonal` and all other
    /// components set to `0.0`.
    pub fn from_diagonal(diagonal: GVec4<u32>) -> (r: Mat4A)
        ensures
            r.spec_diagonal() == Vec4A::spec_from_vec4(diagonal),
            forall|c: int, i: int| 0 <= c < 4 && 0 <= i < 4 && c != i ==> #[trigger] r.spec_elem(
                c,
                i,
            ) == bits::ZERO_BITS,
    {
        let z = bits::ZERO_BITS;
        Mat4A::from_cols(
            Vec4A::new(diagonal.x, z, z, z),
            Vec4A::new(z, diagonal.y, z, z),
            Vec4A::new(z, z, diagonal.z, z),
            Vec4A::new(z, z, z, diagonal.w),
        )
    }

    /// The diagonal components.
    pub open spec fn spec_diagonal(self) -> Vec4A {
        Vec4A { x: self.x_axis.x, y: self.y_axis.y, z: self.z_axis.z, w: self.w_axis.w }
    }

    /// Returns the diagonal of `self`.
    pub fn diagonal(&self) -> (r: GVec4<u32>)
        ensures
            Vec4A::spec_from_vec4(r) == self.spec_diagonal(),
    {
        GVec4::new(self.x_axis.x, self.y_axis.y, self.z_axis.z, self.w_axis.w)
    }
}

impl Mat4A {
    /// Creates a 3D affine transformation matrix that translates by `translation`: the identity
    /// with `(translation, 1)` as its last column.
    pub fn from_translation(translation: GVec3<u32>) -> (r: Mat4A)
        ensures
            r == (Mat4A {
                x_axis: Vec4A {
                    x: bits::ONE_BITS,
                    y: bits::ZERO_BITS,
                    z: bits::ZERO_BITS,
                    w: bits::ZERO_BITS,
                },
                y_axis: Vec4A {
                    x: bits::ZERO_BITS,
                    y: bits::ONE_BITS,
                    z: bits::ZERO_BITS,
                    w: bits::ZERO_BITS,
                },
                z_axis: Vec4A {
                    x: bits::ZERO_BITS,
                    y: bits::ZERO_BITS,
                    z: bits::ONE_BITS,
                    w: bits::ZERO_BITS,
                },
                w_axis: Vec4A {
                    x: translation.x,
                    y: translation.y,
                    z: translation.z,
                    w: bits::ONE_BITS,
                },
            }),
    {
        Mat4A {
            x_axis: Vec4A {
                x: bits::ONE_BITS,
                y: bits::ZERO_BITS,
                z: bits::ZERO_BITS,
                w: bits::ZERO_BITS,
            },
            y_axis: Vec4A {
                x: bits::ZERO_BITS,
                y: bits::ONE_BITS,
                z: bits::ZERO_BITS,
                w: bits::ZERO_BITS,
            },
            z_axis: Vec4A {
                x: bits::ZERO_BITS,
                y: bits::ZERO_BITS,
                z: bits::ONE_BITS,
                w: bits::ZERO_BITS,
            },
            w_axis: Vec4A {
                x: translation.x,
                y: translation.y,
                z: translation.z,
                w: bits::ONE_BITS,
            },
        }
    }

    /// Creates a 3D affine transformation matrix that scales by `scale`: the diagonal `(scale.x,
    /// scale.y, scale.z, 1)`.
    pub fn from_scale(scale: GVec3<u32>) -> (r: Mat4A)
        ensures
            r == (Mat4A {
                x_axis: Vec4A {
                    x: scale.x,
                    y: bits::ZERO_BITS,
                    z: bits::ZERO_BITS,
                    w: bits::ZERO_BITS,
                },
                y_axis: Vec4A {
                    x: bits::ZERO_BITS,
                    y: scale.y,
                    z: bits::ZERO_BITS,
                    w: bits::ZERO_BITS,
                },
                z_axis: Vec4A {
                    x: bits::ZERO_BITS,
                    y: bits::ZERO_BITS,
                    z: scale.z,
                    w: bits::ZERO_BITS,
                },
                w_axis: Vec4A {
                    x: bits::ZERO_BITS,
                    y: bits::ZERO_BITS,
                    z: bits::ZERO_BITS,
                    w: bits::ONE_BITS,
                },
            }),
    {
        Mat4A {
            x_axis: Vec4A {
                x: scale.x,
                y: bits::ZERO_BITS,
                z: bits::ZERO_BITS,
                w: bits::ZERO_BITS,
            },
            y_axis: Vec4A {
                x: bits::ZERO_BITS,
                y: scale.y,
                z: bits::ZERO_BITS,
                w: bits::ZERO_BITS,
            },
            z_axis: Vec4A {
                x: bits::ZERO_BITS,
                y: bits::ZERO_BITS,
                z: scale.z,
                w: bits::ZERO_BITS,
            },
            w_axis: Vec4A {
                x: bits::ZERO_BITS,
                y: bits::ZERO_BITS,
                z: bits::ZERO_BITS,
                w: bits::ONE_BITS,
            },
        }
    }

    /// Creates a 3D affine transformation matrix from a 3x3 matrix: its columns extended with `0`,
    /// then `(0, 0, 0, 1)`.
    pub fn from_mat3(m: GMat3<u32>) -> (r: Mat4A)
        ensures
            r == (Mat4A {
                x_axis: Vec4A { x: m.x_axis.x, y: m.x_axis.y, z: m.x_axis.z, w: bits::ZERO_BITS },
                y_axis: Vec4A { x: m.y_axis.x, y: m.y_axis.y, z: m.y_axis.z, w: bits::ZERO_BITS },
                z_axis: Vec4A { x: m.z_axis.x, y: m.z_axis.y, z: m.z_axis.z, w: bits::ZERO_BITS },
                w_axis: Vec4A {
                    x: bits::ZERO_BITS,
                    y: bits::ZERO_BITS,
                    z: bits::ZERO_BITS,
                    w: bits::ONE_BITS,
                },
            }),
    {
        Mat4A {
            x_axis: Vec4A { x: m.x_axis.x, y: m.x_axis.y, z: m.x_axis.z, w: bits::ZERO_BITS },
            y_axis: Vec4A { x: m.y_axis.x, y: m.y_axis.y, z: m.y_axis.z, w: bits::ZERO_BITS },
            z_axis: Vec4A { x: m.z_axis.x, y: m.z_axis.y, z: m.z_axis.z, w: bits::ZERO_BITS },
            w_axis: Vec4A {
                x: bits::ZERO_BITS,
                y: bits::ZERO_BITS,
                z: bits::ZERO_BITS,
                w: bits::ONE_BITS,
            },
        }
    }

    /// Creates a 3D affine transformation matrix from a 3x3 matrix and a translation: the columns
    /// of `mat3` extended with `0`, then `(translation, 1)`.
    pub fn from_mat3_translation(mat3: GMat3<u32>, translation: GVec3<u32>) -> (r: Mat4A)
        ensures
            r == (Mat4A {
                x_axis: Vec4A {
                    x: mat3.x_axis.x,
                    y: mat3.x_axis.y,
                    z: mat3.x_axis.z,
                    w: bits::ZERO_BITS,
                },
                y_axis: Vec4A {
                    x: mat3.y_axis.x,
                    y: mat3.y_axis.y,
                    z: mat3.y_axis.z,
                    w: bits::ZERO_BITS,
                },
                z_axis: Vec4A {
                    x: mat3.z_axis.x,
                    y: mat3.z_axis.y,
                    z: mat3.z_axis.z,
                    w: bits::ZERO_BITS,
                },
                w_axis: Vec4A {
                    x: translation.x,
                    y: translation.y,
                    z: translation.z,
                    w: bits::ONE_BITS,
                },
            }),
    {
        Mat4A {
            x_axis: Vec4A {
                x: mat3.x_axis.x,
                y: mat3.x_axis.y,
                z: mat3.x_axis.z,
                w: bits::ZERO_BITS,
            },
            y_axis: Vec4A {
                x: mat3.y_axis.x,
                y: mat3.y_axis.y,
                z: mat3.y_axis.z,
                w: bits::ZERO_BITS,
            },
            z_axis: Vec4A {
                x: mat3.z_axis.x,
                y: mat3.z_axis.y,
                z: mat3.z_axis.z,
                w: bits::ZERO_BITS,
            },
            w_axis: Vec4A {
                x: translation.x,
                y: translation.y,
                z: translation.z,
                w: bits::ONE_BITS,
            },
        }
    }
}


impl Mat4A {
    /// Each component with its sign flipped.
    pub open spec fn spec_negated(self) -> Mat4A {
        Mat4A {
            x_axis: self.x_axis.spec_negated(),
            y_axis: self.y_axis.spec_negated(),
            z_axis: self.z_axis.spec_negated(),
            w_axis: self.w_axis.spec_negated(),
        }
    }
}

impl core::ops::Neg for Mat4A {
    type Output = Mat4A;

    /// Flips the sign of each component (NaNs and zeros included).
    fn neg(self) -> (r: Mat4A) {
        Mat4A {
            x_axis: core::ops::Neg::neg(self.x_axis),
            y_axis: core::ops::Neg::neg(self.y_axis),
            z_axis: core::ops::Neg::neg(self.z_axis),
            w_axis: core::ops::Neg::neg(self.w_axis),
        }
    }
}

impl vstd::std_specs::ops::NegSpecImpl for Mat4A {
    open spec fn obeys_neg_spec() -> bool {
        true
    }

    open spec fn neg_req(self) -> bool {
        true
    }

    open spec fn neg_spec(self) -> Mat4A {
        self.spec_negated()
    }
}


/// Negating twice gives the value back, negation keeps the absolute value
/// and the classification of each component, and two values are equal
/// exactly when their negations are.
pub proof fn lemma_mat4a_neg(a: Mat4A, b: Mat4A)
    ensures
        a.spec_negated().spec_negated() == a,
        a.spec_negated().spec_abs() == a.spec_abs(),
        a.spec_negated().spec_is_nan() == a.spec_is_nan(),
        a.spec_negated().spec_is_finite() == a.spec_is_finite(),
        a.spec_negated().spec_eq(b.spec_negated()) == a.spec_eq(b),
{
    bits::lemma_neg(a.x_axis.x, b.x_axis.x);
    bits::lemma_neg(a.x_axis.y, b.x_axis.y);
    bits::lemma_neg(a.x_axis.z, b.x_axis.z);
    bits::lemma_neg(a.x_axis.w, b.x_axis.w);
    bits::lemma_neg(a.y_axis.x, b.y_axis.x);
    bits::lemma_neg(a.y_axis.y, b.y_axis.y);
    bits::lemma_neg(a.y_axis.z, b.y_axis.z);
    bits::lemma_neg(a.y_axis.w, b.y_axis.w);
    bits::lemma_neg(a.z_axis.x, b.z_axis.x);
    bits::lemma_neg(a.z_axis.y, b.z_axis.y);
    bits::lemma_neg(a.z_axis.z, b.z_axis.z);
    bits::lemma_neg(a.z_axis.w, b.z_axis.w);
    bits::lemma_neg(a.w_axis.x, b.w_axis.x);
    bits::lemma_neg(a.w_axis.y, b.w_axis.y);
    bits::lemma_neg(a.w_axis.z, b.w_axis.z);
    bits::lemma_neg(a.w_axis.w, b.w_axis.w);
}

/// Negation flips the sign of every component and changes nothing else:
/// each component of `-m` differs from the same component of `m` exactly in
/// the sign bit.
pub proof fn lemma_mat4a_neg_flips_signs(m: Mat4A)
    ensures
        forall|c: int, r: int|
            0 <= c < 4 && 0 <= r < 4 ==> #[trigger] m.spec_negated().spec_elem(c, r) ^ m.spec_elem(
                c,
                r,
            ) == 0x8000_0000u32,
{
    assert forall|c: int, r: int| 0 <= c < 4 && 0 <= r < 4 implies #[trigger] m.spec_negated().spec_elem(
        c,
        r,
    ) ^ m.spec_elem(c, r) == 0x8000_0000u32 by {
        bits::lemma_neg_flips_sign(m.spec_elem(c, r));
    }
}

} // verus!
