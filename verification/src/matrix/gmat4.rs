//! A generic 4x4 column-major matrix.
use vstd::prelude::*;

use crate::vector::GVec4;
use crate::matrix::GMat3;

verus! {

/// Creates a 4x4 column-major matrix from 4 column vectors.
pub fn gmat4<T: Copy>(
    x_axis: GVec4<T>,
    y_axis: GVec4<T>,
    z_axis: GVec4<T>,
    w_axis: GVec4<T>,
) -> (r: GMat4<T>)
    ensures
        r == (GMat4 { x_axis, y_axis, z_axis, w_axis }),
{
    GMat4::from_cols(x_axis, y_axis, z_axis, w_axis)
}

/// A 4x4 column-major matrix.
#[derive(Clone, Copy)]
pub struct GMat4<T: Copy> {
    /// Column 0 of the matrix.
    pub x_axis: GVec4<T>,
    /// Column 1 of the matrix.
    pub y_axis: GVec4<T>,
    /// Column 2 of the matrix.
    pub z_axis: GVec4<T>,
    /// Column 3 of the matrix.
    pub w_axis: GVec4<T>,
}

impl<T: Copy> GMat4<T> {
    /// The column at `i`.
    pub open spec fn spec_col(self, i: int) -> GVec4<T>
        recommends
            0 <= i < 4,
    {
        if i == 0 {
            self.x_axis
        } else if i == 1 {
            self.y_axis
        } else if i == 2 {
            self.z_axis
        } else {
            self.w_axis
        }
    }

    /// The component in column `c` and row `r`.
    pub open spec fn spec_elem(self, c: int, r: int) -> T {
        self.spec_col(c).spec_lane(r)
    }

    /// The row at `i`.
    pub open spec fn spec_row(self, i: int) -> GVec4<T> {
        GVec4 {
            x: self.x_axis.spec_lane(i),
            y: self.y_axis.spec_lane(i),
            z: self.z_axis.spec_lane(i),
            w: self.w_axis.spec_lane(i),
        }
    }

    /// `self` with the column at `i` replaced by `v`.
    pub open spec fn spec_with_col(self, i: int, v: GVec4<T>) -> GMat4<T> {
        if i == 0 {
            GMat4 { x_axis: v, ..self }
        } else if i == 1 {
            GMat4 { y_axis: v, ..self }
        } else if i == 2 {
            GMat4 { z_axis: v, ..self }
        } else {
            GMat4 { w_axis: v, ..self }
        }
    }

    /// The transpose: the rows of `self` become the columns.
    pub open spec fn spec_transpose(self) -> GMat4<T> {
        GMat4 {
            x_axis: self.spec_row(0),
            y_axis: self.spec_row(1),
            z_axis: self.spec_row(2),
            w_axis: self.spec_row(3),
        }
    }

    /// The components in column-major order.
    pub open spec fn spec_cols_array(self) -> Seq<T> {
        self.x_axis.spec_array() + self.y_axis.spec_array() + self.z_axis.spec_array() + self.w_axis.spec_array()
    }

    /// The diagonal components.
    pub open spec fn spec_diagonal(self) -> GVec4<T> {
        GVec4 { x: self.x_axis.x, y: self.y_axis.y, z: self.z_axis.z, w: self.w_axis.w }
    }

    /// Creates a 4x4 matrix from 4 column vectors.
    pub fn from_cols(
        x_axis: GVec4<T>,
        y_axis: GVec4<T>,
        z_axis: GVec4<T>,
        w_axis: GVec4<T>,
    ) -> (r: GMat4<T>)
        ensures
            r == (GMat4 { x_axis, y_axis, z_axis, w_axis }),
    {
        GMat4 { x_axis, y_axis, z_axis, w_axis }
    }

    /// Creates a 4x4 matrix from an array of 16 components in column-major order.
    pub fn from_cols_array(m: &[T; 16]) -> (r: GMat4<T>)
        ensures
            r.spec_cols_array() == m@,
    {
        let r = GMat4::from_cols(
            GVec4::new(m[0], m[1], m[2], m[3]),
            GVec4::new(m[4], m[5], m[6], m[7]),
            GVec4::new(m[8], m[9], m[10], m[11]),
            GVec4::new(m[12], m[13], m[14], m[15]),
        );
        assert(r.spec_cols_array() =~= m@);
        r
    }

    /// Returns the 16 components in column-major order.
    pub fn to_cols_array(&self) -> (r: [T; 16])
        ensures
            r@ == self.spec_cols_array(),
    {
        let r = [
            self.x_axis.x,
            self.x_axis.y,
            self.x_axis.z,
            self.x_axis.w,
            self.y_axis.x,
            self.y_axis.y,
            self.y_axis.z,
            self.y_axis.w,
            self.z_axis.x,
            self.z_axis.y,
            self.z_axis.z,
            self.z_axis.w,
            self.w_axis.x,
            self.w_axis.y,
            self.w_axis.z,
            self.w_axis.w,
        ];
        assert(r@ =~= self.spec_cols_array());
        r
    }

    /// Creates a 4x4 matrix from a 2D array of columns.
    pub fn from_cols_array_2d(m: &[[T; 4]; 4]) -> (r: GMat4<T>)
        ensures
            r.x_axis.spec_array() == m@[0]@,
            r.y_axis.spec_array() == m@[1]@,
            r.z_axis.spec_array() == m@[2]@,
            r.w_axis.spec_array() == m@[3]@,
    {
        GMat4::from_cols(
            GVec4::from_array(m[0]),
            GVec4::from_array(m[1]),
            GVec4::from_array(m[2]),
            GVec4::from_array(m[3]),
        )
    }

    /// Returns the columns as a 2D array.
    pub fn to_cols_array_2d(&self) -> (r: [[T; 4]; 4])
        ensures
            r@[0]@ == self.x_axis.spec_array(),
            r@[1]@ == self.y_axis.spec_array(),
            r@[2]@ == self.z_axis.spec_array(),
            r@[3]@ == self.w_axis.spec_array(),
    {
        [
            self.x_axis.to_array(),
            self.y_axis.to_array(),
            self.z_axis.to_array(),
            self.w_axis.to_array(),
        ]
    }

    /// Creates a 4x4 matrix from the first 16 values in `slice`, in column-major order.
    pub fn from_cols_slice(slice: &[T]) -> (r: GMat4<T>)
        requires
            slice@.len() >= 16,
        ensures
            r.spec_cols_array() == slice@.subrange(0, 16),
    {
        let r = GMat4::from_cols(
            GVec4::new(slice[0], slice[1], slice[2], slice[3]),
            GVec4::new(slice[4], slice[5], slice[6], slice[7]),
            GVec4::new(slice[8], slice[9], slice[10], slice[11]),
            GVec4::new(slice[12], slice[13], slice[14], slice[15]),
        );
        assert(r.spec_cols_array() =~= slice@.subrange(0, 16));
        r
    }

    /// Writes the columns of `self` to the first 16 elements in `slice`.
    pub fn write_cols_to_slice(&self, slice: &mut [T])
        requires
            old(slice)@.len() >= 16,
        ensures
            final(slice)@ == self.spec_cols_array() + old(slice)@.subrange(
                16,
                old(slice)@.len() as int,
            ),
    {
        slice[0] = self.x_axis.x;
        slice[1] = self.x_axis.y;
        slice[2] = self.x_axis.z;
        slice[3] = self.x_axis.w;
        slice[4] = self.y_axis.x;
        slice[5] = self.y_axis.y;
        slice[6] = self.y_axis.z;
        slice[7] = self.y_axis.w;
        slice[8] = self.z_axis.x;
        slice[9] = self.z_axis.y;
        slice[10] = self.z_axis.z;
        slice[11] = self.z_axis.w;
        slice[12] = self.w_axis.x;
        slice[13] = self.w_axis.y;
        slice[14] = self.w_axis.z;
        slice[15] = self.w_axis.w;
        assert(slice@ =~= self.spec_cols_array() + old(slice)@.subrange(
            16,
            old(slice)@.len() as int,
        ));
    }

    /// Returns `if_true` when `boolean` holds and `if_false` otherwise.
    pub fn select(boolean: bool, if_true: GMat4<T>, if_false: GMat4<T>) -> (r: GMat4<T>)
        ensures
            r == (if boolean {
                if_true
            } else {
                if_false
            }),
    {
        if boolean {
            if_true
        } else {
            if_false
        }
    }

    /// Returns the column at `index`.
    pub fn col(&self, index: usize) -> (r: GVec4<T>)
        requires
            index < 4,
        ensures
            r == self.spec_col(index as int),
    {
        if index == 0 {
            self.x_axis
        } else if index == 1 {
            self.y_axis
        } else if index == 2 {
            self.z_axis
        } else {
            self.w_axis
        }
    }

    /// Returns a mutable reference to the column at `index`.
    pub fn col_mut(&mut self, index: usize) -> (r: &mut GVec4<T>)
        requires
            index < 4,
        ensures
            *r == old(self).spec_col(index as int),
            *final(self) == old(self).spec_with_col(index as int, *final(r)),
    {
        if index == 0 {
            &mut self.x_axis
        } else if index == 1 {
            &mut self.y_axis
        } else if index == 2 {
            &mut self.z_axis
        } else {
            &mut self.w_axis
        }
    }

    /// Returns the row at `index`.
    pub fn row(&self, index: usize) -> (r: GVec4<T>)
        requires
            index < 4,
        ensures
            r == self.spec_row(index as int),
    {
        if index == 0 {
            GVec4::new(self.x_axis.x, self.y_axis.x, self.z_axis.x, self.w_axis.x)
        } else if index == 1 {
            GVec4::new(self.x_axis.y, self.y_axis.y, self.z_axis.y, self.w_axis.y)
        } else if index == 2 {
            GVec4::new(self.x_axis.z, self.y_axis.z, self.z_axis.z, self.w_axis.z)
        } else {
            GVec4::new(self.x_axis.w, self.y_axis.w, self.z_axis.w, self.w_axis.w)
        }
    }

    /// Returns the transpose of `self`.
    pub fn transpose(&self) -> (r: GMat4<T>)
        ensures
            r == self.spec_transpose(),
            forall|c: int, i: int| 0 <= c < 4 && 0 <= i < 4 ==> #[trigger] r.spec_elem(
                c,
                i,
            ) == self.spec_elem(i, c),
    {
        GMat4::from_cols(
            GVec4::new(self.x_axis.x, self.y_axis.x, self.z_axis.x, self.w_axis.x),
            GVec4::new(self.x_axis.y, self.y_axis.y, self.z_axis.y, self.w_axis.y),
            GVec4::new(self.x_axis.z, self.y_axis.z, self.z_axis.z, self.w_axis.z),
            GVec4::new(self.x_axis.w, self.y_axis.w, self.z_axis.w, self.w_axis.w),
        )
    }

    /// Returns the diagonal of `self`.
    pub fn diagonal(&self) -> (r: GVec4<T>)
        ensures
            r == self.spec_diagonal(),
    {
        GVec4::new(self.x_axis.x, self.y_axis.y, self.z_axis.z, self.w_axis.w)
    }
}

/// Transposing twice gives back the original matrix.
pub proof fn lemma_gmat4_transpose_involutive<T: Copy>(m: GMat4<T>)
    ensures
        m.spec_transpose().spec_transpose() == m,
{
}

/// Row `i` of a matrix is column `i` of its transpose, and the diagonal is
/// unchanged by transposition.
pub proof fn lemma_gmat4_row_is_transposed_col<T: Copy>(m: GMat4<T>, i: int)
    requires
        0 <= i < 4,
    ensures
        m.spec_row(i) == m.spec_transpose().spec_col(i),
        m.spec_col(i) == m.spec_transpose().spec_row(i),
        m.spec_transpose().spec_diagonal() == m.spec_diagonal(),
{
}

/// A matrix is determined by its components in column-major order.
pub proof fn lemma_gmat4_cols_array_injective<T: Copy>(a: GMat4<T>, b: GMat4<T>)
    requires
        a.spec_cols_array() == b.spec_cols_array(),
    ensures
        a == b,
{
    assert(a.spec_cols_array() =~= seq![
        a.x_axis.x,
        a.x_axis.y,
        a.x_axis.z,
        a.x_axis.w,
        a.y_axis.x,
        a.y_axis.y,
        a.y_axis.z,
        a.y_axis.w,
        a.z_axis.x,
        a.z_axis.y,
        a.z_axis.z,
        a.z_axis.w,
        a.w_axis.x,
        a.w_axis.y,
        a.w_axis.z,
        a.w_axis.w,
    ]);
    assert(b.spec_cols_array() =~= seq![
        b.x_axis.x,
        b.x_axis.y,
        b.x_axis.z,
        b.x_axis.w,
        b.y_axis.x,
        b.y_axis.y,
        b.y_axis.z,
        b.y_axis.w,
        b.z_axis.x,
        b.z_axis.y,
        b.z_axis.z,
        b.z_axis.w,
        b.w_axis.x,
        b.w_axis.y,
        b.w_axis.z,
        b.w_axis.w,
    ]);
    let sa = a.spec_cols_array();
    let sb = b.spec_cols_array();
    assert(sa[0] == sb[0] && sa[1] == sb[1] && sa[2] == sb[2] && sa[3] == sb[3]);
    assert(sa[4] == sb[4] && sa[5] == sb[5] && sa[6] == sb[6] && sa[7] == sb[7]);
    assert(sa[8] == sb[8] && sa[9] == sb[9] && sa[10] == sb[10] && sa[11] == sb[11]);
    assert(sa[12] == sb[12] && sa[13] == sb[13] && sa[14] == sb[14] && sa[15] == sb[15]);
}

} // verus!
