//! A generic 3x3 column-major matrix.
use vstd::prelude::*;

use crate::vector::{GVec2, GVec3, GVec4};
use crate::matrix::{GMat2, GMat4, minor_index};

verus! {

/// Creates a 3x3 column-major matrix from 3 column vectors.
pub fn gmat3<T: Copy>(x_axis: GVec3<T>, y_axis: GVec3<T>, z_axis: GVec3<T>) -> (r: GMat3<T>)
    ensures
        r == (GMat3 { x_axis, y_axis, z_axis }),
{
    GMat3::from_cols(x_axis, y_axis, z_axis)
}

/// A 3x3 column-major matrix.
#[derive(Clone, Copy)]
pub struct GMat3<T: Copy> {
    /// Column 0 of the matrix.
    pub x_axis: GVec3<T>,
    /// Column 1 of the matrix.
    pub y_axis: GVec3<T>,
    /// Column 2 of the matrix.
    pub z_axis: GVec3<T>,
}

impl<T: Copy> GMat3<T> {
    /// The column at `i`.
    pub open spec fn spec_col(self, i: int) -> GVec3<T>
        recommends
            0 <= i < 3,
    {
        if i == 0 {
            self.x_axis
        } else if i == 1 {
            self.y_axis
        } else {
            self.z_axis
        }
    }

    /// The component in column `c` and row `r`.
    pub open spec fn spec_elem(self, c: int, r: int) -> T {
        self.spec_col(c).spec_lane(r)
    }

    /// The row at `i`.
    pub open spec fn spec_row(self, i: int) -> GVec3<T> {
        GVec3 {
            x: self.x_axis.spec_lane(i),
            y: self.y_axis.spec_lane(i),
            z: self.z_axis.spec_lane(i),
        }
    }

    /// `self` with the column at `i` replaced by `v`.
    pub open spec fn spec_with_col(self, i: int, v: GVec3<T>) -> GMat3<T> {
        if i == 0 {
            GMat3 { x_axis: v, ..self }
        } else if i == 1 {
            GMat3 { y_axis: v, ..self }
        } else {
            GMat3 { z_axis: v, ..self }
        }
    }

    /// The transpose: the rows of `self` become the columns.
    pub open spec fn spec_transpose(self) -> GMat3<T> {
        GMat3 { x_axis: self.spec_row(0), y_axis: self.spec_row(1), z_axis: self.spec_row(2) }
    }

    /// The components in column-major order.
    pub open spec fn spec_cols_array(self) -> Seq<T> {
        self.x_axis.spec_array() + self.y_axis.spec_array() + self.z_axis.spec_array()
    }

    /// The diagonal components.
    pub open spec fn spec_diagonal(self) -> GVec3<T> {
        GVec3 { x: self.x_axis.x, y: self.y_axis.y, z: self.z_axis.z }
    }

    /// Creates a 3x3 matrix from 3 column vectors.
    pub fn from_cols(x_axis: GVec3<T>, y_axis: GVec3<T>, z_axis: GVec3<T>) -> (r: GMat3<T>)
        ensures
            r == (GMat3 { x_axis, y_axis, z_axis }),
    {
        GMat3 { x_axis, y_axis, z_axis }
    }

    /// Creates a 3x3 matrix from an array of 9 components in column-major order.
    pub fn from_cols_array(m: &[T; 9]) -> (r: GMat3<T>)
        ensures
            r.spec_cols_array() == m@,
    {
        let r = GMat3::from_cols(
            GVec3::new(m[0], m[1], m[2]),
            GVec3::new(m[3], m[4], m[5]),
            GVec3::new(m[6], m[7], m[8]),
        );
        assert(r.spec_cols_array() =~= m@);
        r
    }

    /// Returns the 9 components in column-major order.
    pub fn to_cols_array(&self) -> (r: [T; 9])
        ensures
            r@ == self.spec_cols_array(),
    {
        let r = [
            self.x_axis.x,
            self.x_axis.y,
            self.x_axis.z,
            self.y_axis.x,
            self.y_axis.y,
            self.y_axis.z,
            self.z_axis.x,
            self.z_axis.y,
            self.z_axis.z,
        ];
        assert(r@ =~= self.spec_cols_array());
        r
    }

    /// Creates a 3x3 matrix from a 2D array of columns.
    pub fn from_cols_array_2d(m: &[[T; 3]; 3]) -> (r: GMat3<T>)
        ensures
            r.x_axis.spec_array() == m@[0]@,
            r.y_axis.spec_array() == m@[1]@,
            r.z_axis.spec_array() == m@[2]@,
    {
        GMat3::from_cols(GVec3::from_array(m[0]), GVec3::from_array(m[1]), GVec3::from_array(m[2]))
    }

    /// Returns the columns as a 2D array.
    pub fn to_cols_array_2d(&self) -> (r: [[T; 3]; 3])
        ensures
            r@[0]@ == self.x_axis.spec_array(),
            r@[1]@ == self.y_axis.spec_array(),
            r@[2]@ == self.z_axis.spec_array(),
    {
        [self.x_axis.to_array(), self.y_axis.to_array(), self.z_axis.to_array()]
    }

    /// Creates a 3x3 matrix from the first 9 values in `slice`, in column-major order.
    pub fn from_cols_slice(slice: &[T]) -> (r: GMat3<T>)
        requires
            slice@.len() >= 9,
        ensures
            r.spec_cols_array() == slice@.subrange(0, 9),
    {
        let r = GMat3::from_cols(
            GVec3::new(slice[0], slice[1], slice[2]),
            GVec3::new(slice[3], slice[4], slice[5]),
            GVec3::new(slice[6], slice[7], slice[8]),
        );
        assert(r.spec_cols_array() =~= slice@.subrange(0, 9));
        r
    }

    /// Writes the columns of `self` to the first 9 elements in `slice`.
    pub fn write_cols_to_slice(&self, slice: &mut [T])
        requires
            old(slice)@.len() >= 9,
        ensures
            final(slice)@ == self.spec_cols_array() + old(slice)@.subrange(
                9,
                old(slice)@.len() as int,
            ),
    {
        slice[0] = self.x_axis.x;
        slice[1] = self.x_axis.y;
        slice[2] = self.x_axis.z;
        slice[3] = self.y_axis.x;
        slice[4] = self.y_axis.y;
        slice[5] = self.y_axis.z;
        slice[6] = self.z_axis.x;
        slice[7] = self.z_axis.y;
        slice[8] = self.z_axis.z;
        assert(slice@ =~= self.spec_cols_array() + old(slice)@.subrange(
            9,
            old(slice)@.len() as int,
        ));
    }

    /// Returns `if_true` when `boolean` holds and `if_false` otherwise.
    pub fn select(boolean: bool, if_true: GMat3<T>, if_false: GMat3<T>) -> (r: GMat3<T>)
        ensures
            r == (if boolean {
                if_true
            } else {
                if_false
            }),
    {
        if boolean {
            if_true
        } else {
            if_false
        }
    }

    /// Returns the column at `index`.
    pub fn col(&self, index: usize) -> (r: GVec3<T>)
        requires
            index < 3,
        ensures
            r == self.spec_col(index as int),
    {
        if index == 0 {
            self.x_axis
        } else if index == 1 {
            self.y_axis
        } else {
            self.z_axis
        }
    }

    /// Returns a mutable reference to the column at `index`.
    pub fn col_mut(&mut self, index: usize) -> (r: &mut GVec3<T>)
        requires
            index < 3,
        ensures
            *r == old(self).spec_col(index as int),
            *final(self) == old(self).spec_with_col(index as int, *final(r)),
    {
        if index == 0 {
            &mut self.x_axis
        } else if index == 1 {
            &mut self.y_axis
        } else {
            &mut self.z_axis
        }
    }

    /// Returns the row at `index`.
    pub fn row(&self, index: usize) -> (r: GVec3<T>)
        requires
            index < 3,
        ensures
            r == self.spec_row(index as int),
    {
        if index == 0 {
            GVec3::new(self.x_axis.x, self.y_axis.x, self.z_axis.x)
        } else if index == 1 {
            GVec3::new(self.x_axis.y, self.y_axis.y, self.z_axis.y)
        } else {
            GVec3::new(self.x_axis.z, self.y_axis.z, self.z_axis.z)
        }
    }

    /// Returns the transpose of `self`.
    pub fn transpose(&self) -> (r: GMat3<T>)
        ensures
            r == self.spec_transpose(),
            forall|c: int, i: int| 0 <= c < 3 && 0 <= i < 3 ==> #[trigger] r.spec_elem(
                c,
                i,
            ) == self.spec_elem(i, c),
    {
        GMat3::from_cols(
            GVec3::new(self.x_axis.x, self.y_axis.x, self.z_axis.x),
            GVec3::new(self.x_axis.y, self.y_axis.y, self.z_axis.y),
            GVec3::new(self.x_axis.z, self.y_axis.z, self.z_axis.z),
        )
    }

    /// Returns the diagonal of `self`.
    pub fn diagonal(&self) -> (r: GVec3<T>)
        ensures
            r == self.spec_diagonal(),
    {
        GVec3::new(self.x_axis.x, self.y_axis.y, self.z_axis.z)
    }

    /// Creates a 3x3 matrix from a 4x4 matrix, discarding the last row and column.
    pub fn from_mat4(m: GMat4<T>) -> (r: GMat3<T>)
        ensures
            forall|c: int, i: int| 0 <= c < 3 && 0 <= i < 3 ==> #[trigger] r.spec_elem(
                c,
                i,
            ) == m.spec_elem(c, i),
    {
        GMat3::from_cols(
            GVec3::new(m.x_axis.x, m.x_axis.y, m.x_axis.z),
            GVec3::new(m.y_axis.x, m.y_axis.y, m.y_axis.z),
            GVec3::new(m.z_axis.x, m.z_axis.y, m.z_axis.z),
        )
    }

    /// Creates a 3x3 matrix from the minor of the given 4x4 matrix, discarding
    /// the `i`th column and the `j`th row.
    pub fn from_mat4_minor(m: GMat4<T>, i: usize, j: usize) -> (r: GMat3<T>)
        requires
            i < 4,
            j < 4,
        ensures
            forall|c: int, k: int| 0 <= c < 3 && 0 <= k < 3 ==> #[trigger] r.spec_elem(
                c,
                k,
            ) == m.spec_elem(minor_index(c, i as int), minor_index(k, j as int)),
    {
        if i == 0 && j == 0 {
            GMat3::from_cols(
                GVec3::new(m.y_axis.y, m.y_axis.z, m.y_axis.w),
                GVec3::new(m.z_axis.y, m.z_axis.z, m.z_axis.w),
                GVec3::new(m.w_axis.y, m.w_axis.z, m.w_axis.w),
            )
        } else if i == 0 && j == 1 {
            GMat3::from_cols(
                GVec3::new(m.y_axis.x, m.y_axis.z, m.y_axis.w),
                GVec3::new(m.z_axis.x, m.z_axis.z, m.z_axis.w),
                GVec3::new(m.w_axis.x, m.w_axis.z, m.w_axis.w),
            )
        } else if i == 0 && j == 2 {
            GMat3::from_cols(
                GVec3::new(m.y_axis.x, m.y_axis.y, m.y_axis.w),
                GVec3::new(m.z_axis.x, m.z_axis.y, m.z_axis.w),
                GVec3::new(m.w_axis.x, m.w_axis.y, m.w_axis.w),
            )
        } else if i == 0 && j == 3 {
            GMat3::from_cols(
                GVec3::new(m.y_axis.x, m.y_axis.y, m.y_axis.z),
                GVec3::new(m.z_axis.x, m.z_axis.y, m.z_axis.z),
                GVec3::new(m.w_axis.x, m.w_axis.y, m.w_axis.z),
            )
        } else if i == 1 && j == 0 {
            GMat3::from_cols(
                GVec3::new(m.x_axis.y, m.x_axis.z, m.x_axis.w),
                GVec3::new(m.z_axis.y, m.z_axis.z, m.z_axis.w),
                GVec3::new(m.w_axis.y, m.w_axis.z, m.w_axis.w),
            )
        } else if i == 1 && j == 1 {
            GMat3::from_cols(
                GVec3::new(m.x_axis.x, m.x_axis.z, m.x_axis.w),
                GVec3::new(m.z_axis.x, m.z_axis.z, m.z_axis.w),
                GVec3::new(m.w_axis.x, m.w_axis.z, m.w_axis.w),
            )
        } else if i == 1 && j == 2 {
            GMat3::from_cols(
                GVec3::new(m.x_axis.x, m.x_axis.y, m.x_axis.w),
                GVec3::new(m.z_axis.x, m.z_axis.y, m.z_axis.w),
                GVec3::new(m.w_axis.x, m.w_axis.y, m.w_axis.w),
            )
        } else if i == 1 && j == 3 {
            GMat3::from_cols(
                GVec3::new(m.x_axis.x, m.x_axis.y, m.x_axis.z),
                GVec3::new(m.z_axis.x, m.z_axis.y, m.z_axis.z),
                GVec3::new(m.w_axis.x, m.w_axis.y, m.w_axis.z),
            )
        } else if i == 2 && j == 0 {
            GMat3::from_cols(
                GVec3::new(m.x_axis.y, m.x_axis.z, m.x_axis.w),
                GVec3::new(m.y_axis.y, m.y_axis.z, m.y_axis.w),
                GVec3::new(m.w_axis.y, m.w_axis.z, m.w_axis.w),
            )
        } else if i == 2 && j == 1 {
            GMat3::from_cols(
                GVec3::new(m.x_axis.x, m.x_axis.z, m.x_axis.w),
                GVec3::new(m.y_axis.x, m.y_axis.z, m.y_axis.w),
                GVec3::new(m.w_axis.x, m.w_axis.z, m.w_axis.w),
            )
        } else if i == 2 && j == 2 {
            GMat3::from_cols(
                GVec3::new(m.x_axis.x, m.x_axis.y, m.x_axis.w),
                GVec3::new(m.y_axis.x, m.y_axis.y, m.y_axis.w),
                GVec3::new(m.w_axis.x, m.w_axis.y, m.w_axis.w),
            )
        } else if i == 2 && j == 3 {
            GMat3::from_cols(
                GVec3::new(m.x_axis.x, m.x_axis.y, m.x_axis.z),
                GVec3::new(m.y_axis.x, m.y_axis.y, m.y_axis.z),
                GVec3::new(m.w_axis.x, m.w_axis.y, m.w_axis.z),
            )
        } else if i == 3 && j == 0 {
            GMat3::from_cols(
                GVec3::new(m.x_axis.y, m.x_axis.z, m.x_axis.w),
                GVec3::new(m.y_axis.y, m.y_axis.z, m.y_axis.w),
                GVec3::new(m.z_axis.y, m.z_axis.z, m.z_axis.w),
            )
        } else if i == 3 && j == 1 {
            GMat3::from_cols(
                GVec3::new(m.x_axis.x, m.x_axis.z, m.x_axis.w),
                GVec3::new(m.y_axis.x, m.y_axis.z, m.y_axis.w),
                GVec3::new(m.z_axis.x, m.z_axis.z, m.z_axis.w),
            )
        } else if i == 3 && j == 2 {
            GMat3::from_cols(
                GVec3::new(m.x_axis.x, m.x_axis.y, m.x_axis.w),
                GVec3::new(m.y_axis.x, m.y_axis.y, m.y_axis.w),
                GVec3::new(m.z_axis.x, m.z_axis.y, m.z_axis.w),
            )
        } else {
            GMat3::from_cols(
                GVec3::new(m.x_axis.x, m.x_axis.y, m.x_axis.z),
                GVec3::new(m.y_axis.x, m.y_axis.y, m.y_axis.z),
                GVec3::new(m.z_axis.x, m.z_axis.y, m.z_axis.z),
            )
        }
    }
}

/// Transposing twice gives back the original matrix.
pub proof fn lemma_gmat3_transpose_involutive<T: Copy>(m: GMat3<T>)
    ensures
        m.spec_transpose().spec_transpose() == m,
{
}

/// Row `i` of a matrix is column `i` of its transpose, and the diagonal is
/// unchanged by transposition.
pub proof fn lemma_gmat3_row_is_transposed_col<T: Copy>(m: GMat3<T>, i: int)
    requires
        0 <= i < 3,
    ensures
        m.spec_row(i) == m.spec_transpose().spec_col(i),
        m.spec_col(i) == m.spec_transpose().spec_row(i),
        m.spec_transpose().spec_diagonal() == m.spec_diagonal(),
{
}

/// A matrix is determined by its components in column-major order.
pub proof fn lemma_gmat3_cols_array_injective<T: Copy>(a: GMat3<T>, b: GMat3<T>)
    requires
        a.spec_cols_array() == b.spec_cols_array(),
    ensures
        a == b,
{
    assert(a.spec_cols_array() =~= seq![
        a.x_axis.x,
        a.x_axis.y,
        a.x_axis.z,
        a.y_axis.x,
        a.y_axis.y,
        a.y_axis.z,
        a.z_axis.x,
        a.z_axis.y,
        a.z_axis.z,
    ]);
    assert(b.spec_cols_array() =~= seq![
        b.x_axis.x,
        b.x_axis.y,
        b.x_axis.z,
        b.y_axis.x,
        b.y_axis.y,
        b.y_axis.z,
        b.z_axis.x,
        b.z_axis.y,
        b.z_axis.z,
    ]);
    let sa = a.spec_cols_array();
    let sb = b.spec_cols_array();
    assert(sa[0] == sb[0] && sa[1] == sb[1] && sa[2] == sb[2]);
    assert(sa[3] == sb[3] && sa[4] == sb[4] && sa[5] == sb[5]);
    assert(sa[6] == sb[6] && sa[7] == sb[7] && sa[8] == sb[8]);
}

} // verus!
