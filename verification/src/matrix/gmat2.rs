//! A generic 2x2 column-major matrix.
use vstd::prelude::*;

use crate::vector::{GVec2, GVec3};
use crate::matrix::GMat3;

verus! {

/// Creates a 2x2 column-major matrix from 2 column vectors.
pub fn gmat2<T: Copy>(x_axis: GVec2<T>, y_axis: GVec2<T>) -> (r: GMat2<T>)
    ensures
        r == (GMat2 { x_axis, y_axis }),
{
    GMat2::from_cols(x_axis, y_axis)
}

/// A 2x2 column-major matrix.
#[derive(Clone, Copy)]
pub struct GMat2<T: Copy> {
    /// Column 0 of the matrix.
    pub x_axis: GVec2<T>,
    /// Column 1 of the matrix.
    pub y_axis: GVec2<T>,
}

/// The index in the larger matrix of the row or column at `a` in a minor
/// that discards the row or column at `i`.
pub open spec fn minor_index(a: int, i: int) -> int {
    if a < i {
        a
    } else {
        a + 1
    }
}

impl<T: Copy> GMat2<T> {
    /// The column at `i`.
    pub open spec fn spec_col(self, i: int) -> GVec2<T>
        recommends
            0 <= i < 2,
    {
        if i == 0 {
            self.x_axis
        } else {
            self.y_axis
        }
    }

    /// The component in column `c` and row `r`.
    pub open spec fn spec_elem(self, c: int, r: int) -> T {
        self.spec_col(c).spec_lane(r)
    }

    /// The row at `i`.
    pub open spec fn spec_row(self, i: int) -> GVec2<T> {
        GVec2 { x: self.x_axis.spec_lane(i), y: self.y_axis.spec_lane(i) }
    }

    /// `self` with the column at `i` replaced by `v`.
    pub open spec fn spec_with_col(self, i: int, v: GVec2<T>) -> GMat2<T> {
        if i == 0 {
            GMat2 { x_axis: v, ..self }
        } else {
            GMat2 { y_axis: v, ..self }
        }
    }

    /// The transpose: the rows of `self` become the columns.
    pub open spec fn spec_transpose(self) -> GMat2<T> {
        GMat2 { x_axis: self.spec_row(0), y_axis: self.spec_row(1) }
    }

    /// The components in column-major order.
    pub open spec fn spec_cols_array(self) -> Seq<T> {
        self.x_axis.spec_array() + self.y_axis.spec_array()
    }

    /// The diagonal components.
    pub open spec fn spec_diagonal(self) -> GVec2<T> {
        GVec2 { x: self.x_axis.x, y: self.y_axis.y }
    }

    /// Creates a 2x2 matrix from 2 column vectors.
    pub fn from_cols(x_axis: GVec2<T>, y_axis: GVec2<T>) -> (r: GMat2<T>)
        ensures
            r == (GMat2 { x_axis, y_axis }),
    {
        GMat2 { x_axis, y_axis }
    }

    /// Creates a 2x2 matrix from an array of 4 components in column-major order.
    pub fn from_cols_array(m: &[T; 4]) -> (r: GMat2<T>)
        ensures
            r.spec_cols_array() == m@,
    {
        let r = GMat2::from_cols(
            GVec2::new(m[0], m[1]),
            GVec2::new(m[2], m[3]),
        );
        assert(r.spec_cols_array() =~= m@);
        r
    }

    /// Returns the 4 components in column-major order.
    pub fn to_cols_array(&self) -> (r: [T; 4])
        ensures
            r@ == self.spec_cols_array(),
    {
        let r = [self.x_axis.x, self.x_axis.y, self.y_axis.x, self.y_axis.y];
        assert(r@ =~= self.spec_cols_array());
        r
    }

    /// Creates a 2x2 matrix from a 2D array of columns.
    pub fn from_cols_array_2d(m: &[[T; 2]; 2]) -> (r: GMat2<T>)
        ensures
            r.x_axis.spec_array() == m@[0]@,
            r.y_axis.spec_array() == m@[1]@,
    {
        GMat2::from_cols(GVec2::from_array(m[0]), GVec2::from_array(m[1]))
    }

    /// Returns the columns as a 2D array.
    pub fn to_cols_array_2d(&self) -> (r: [[T; 2]; 2])
        ensures
            r@[0]@ == self.x_axis.spec_array(),
            r@[1]@ == self.y_axis.spec_array(),
    {
        [self.x_axis.to_array(), self.y_axis.to_array()]
    }

    /// Creates a 2x2 matrix from the first 4 values in `slice`, in column-major order.
    pub fn from_cols_slice(slice: &[T]) -> (r: GMat2<T>)
        requires
            slice@.len() >= 4,
        ensures
            r.spec_cols_array() == slice@.subrange(0, 4),
    {
        let r = GMat2::from_cols(
            GVec2::new(slice[0], slice[1]),
            GVec2::new(slice[2], slice[3]),
        );
        assert(r.spec_cols_array() =~= slice@.subrange(0, 4));
        r
    }

    /// Writes the columns of `self` to the first 4 elements in `slice`.
    pub fn write_cols_to_slice(&self, slice: &mut [T])
        requires
            old(slice)@.len() >= 4,
        ensures
            final(slice)@ == self.spec_cols_array() + old(slice)@.subrange(
                4,
                old(slice)@.len() as int,
            ),
    {
        slice[0] = self.x_axis.x;
        slice[1] = self.x_axis.y;
        slice[2] = self.y_axis.x;
        slice[3] = self.y_axis.y;
        assert(slice@ =~= self.spec_cols_array() + old(slice)@.subrange(
            4,
            old(slice)@.len() as int,
        ));
    }

    /// Returns `if_true` when `boolean` holds and `if_false` otherwise.
    pub fn select(boolean: bool, if_true: GMat2<T>, if_false: GMat2<T>) -> (r: GMat2<T>)
        ensures
            r == (if boolean {
                if_true
            } else {
                if_false
            }),
    {
        if boolean {
            if_true
        } else {
            if_false
        }
    }

    /// Returns the column at `index`.
    pub fn col(&self, index: usize) -> (r: GVec2<T>)
        requires
            index < 2,
        ensures
            r == self.spec_col(index as int),
    {
        if index == 0 {
            self.x_axis
        } else {
            self.y_axis
        }
    }

    /// Returns a mutable reference to the column at `index`.
    pub fn col_mut(&mut self, index: usize) -> (r: &mut GVec2<T>)
        requires
            index < 2,
        ensures
            *r == old(self).spec_col(index as int),
            *final(self) == old(self).spec_with_col(index as int, *final(r)),
    {
        if index == 0 {
            &mut self.x_axis
        } else {
            &mut self.y_axis
        }
    }

    /// Returns the row at `index`.
    pub fn row(&self, index: usize) -> (r: GVec2<T>)
        requires
            index < 2,
        ensures
            r == self.spec_row(index as int),
    {
        if index == 0 {
            GVec2::new(self.x_axis.x, self.y_axis.x)
        } else {
            GVec2::new(self.x_axis.y, self.y_axis.y)
        }
    }

    /// Returns the transpose of `self`.
    pub fn transpose(&self) -> (r: GMat2<T>)
        ensures
            r == self.spec_transpose(),
            forall|c: int, i: int| 0 <= c < 2 && 0 <= i < 2 ==> #[trigger] r.spec_elem(
                c,
                i,
            ) == self.spec_elem(i, c),
    {
        GMat2::from_cols(
            GVec2::new(self.x_axis.x, self.y_axis.x),
            GVec2::new(self.x_axis.y, self.y_axis.y),
        )
    }

    /// Returns the diagonal of `self`.
    pub fn diagonal(&self) -> (r: GVec2<T>)
        ensures
            r == self.spec_diagonal(),
    {
        GVec2::new(self.x_axis.x, self.y_axis.y)
    }

    /// Creates a 2x2 matrix from a 3x3 matrix, discarding the last row and column.
    pub fn from_mat3(m: GMat3<T>) -> (r: GMat2<T>)
        ensures
            forall|c: int, i: int| 0 <= c < 2 && 0 <= i < 2 ==> #[trigger] r.spec_elem(
                c,
                i,
            ) == m.spec_elem(c, i),
    {
        GMat2::from_cols(GVec2::new(m.x_axis.x, m.x_axis.y), GVec2::new(m.y_axis.x, m.y_axis.y))
    }

    /// Creates a 2x2 matrix from the minor of the given 3x3 matrix, discarding
    /// the `i`th column and the `j`th row.
    pub fn from_mat3_minor(m: GMat3<T>, i: usize, j: usize) -> (r: GMat2<T>)
        requires
            i < 3,
            j < 3,
        ensures
            forall|c: int, k: int| 0 <= c < 2 && 0 <= k < 2 ==> #[trigger] r.spec_elem(
                c,
                k,
            ) == m.spec_elem(minor_index(c, i as int), minor_index(k, j as int)),
    {
        if i == 0 && j == 0 {
            GMat2::from_cols(GVec2::new(m.y_axis.y, m.y_axis.z), GVec2::new(m.z_axis.y, m.z_axis.z))
        } else if i == 0 && j == 1 {
            GMat2::from_cols(GVec2::new(m.y_axis.x, m.y_axis.z), GVec2::new(m.z_axis.x, m.z_axis.z))
        } else if i == 0 && j == 2 {
            GMat2::from_cols(GVec2::new(m.y_axis.x, m.y_axis.y), GVec2::new(m.z_axis.x, m.z_axis.y))
        } else if i == 1 && j == 0 {
            GMat2::from_cols(GVec2::new(m.x_axis.y, m.x_axis.z), GVec2::new(m.z_axis.y, m.z_axis.z))
        } else if i == 1 && j == 1 {
            GMat2::from_cols(GVec2::new(m.x_axis.x, m.x_axis.z), GVec2::new(m.z_axis.x, m.z_axis.z))
        } else if i == 1 && j == 2 {
            GMat2::from_cols(GVec2::new(m.x_axis.x, m.x_axis.y), GVec2::new(m.z_axis.x, m.z_axis.y))
        } else if i == 2 && j == 0 {
            GMat2::from_cols(GVec2::new(m.x_axis.y, m.x_axis.z), GVec2::new(m.y_axis.y, m.y_axis.z))
        } else if i == 2 && j == 1 {
            GMat2::from_cols(GVec2::new(m.x_axis.x, m.x_axis.z), GVec2::new(m.y_axis.x, m.y_axis.z))
        } else {
            GMat2::from_cols(GVec2::new(m.x_axis.x, m.x_axis.y), GVec2::new(m.y_axis.x, m.y_axis.y))
        }
    }
}

/// Transposing twice gives back the original matrix.
pub proof fn lemma_gmat2_transpose_involutive<T: Copy>(m: GMat2<T>)
    ensures
        m.spec_transpose().spec_transpose() == m,
{
}

/// Row `i` of a matrix is column `i` of its transpose, and the diagonal is
/// unchanged by transposition.
pub proof fn lemma_gmat2_row_is_transposed_col<T: Copy>(m: GMat2<T>, i: int)
    requires
        0 <= i < 2,
    ensures
        m.spec_row(i) == m.spec_transpose().spec_col(i),
        m.spec_col(i) == m.spec_transpose().spec_row(i),
        m.spec_transpose().spec_diagonal() == m.spec_diagonal(),
{
}

/// A matrix is determined by its components in column-major order.
pub proof fn lemma_gmat2_cols_array_injective<T: Copy>(a: GMat2<T>, b: GMat2<T>)
    requires
        a.spec_cols_array() == b.spec_cols_array(),
    ensures
        a == b,
{
    assert(a.spec_cols_array() =~= seq![a.x_axis.x, a.x_axis.y, a.y_axis.x, a.y_axis.y]);
    assert(b.spec_cols_array() =~= seq![b.x_axis.x, b.x_axis.y, b.y_axis.x, b.y_axis.y]);
    let sa = a.spec_cols_array();
    let sb = b.spec_cols_array();
    assert(sa[0] == sb[0] && sa[1] == sb[1]);
    assert(sa[2] == sb[2] && sa[3] == sb[3]);
}

} // verus!
