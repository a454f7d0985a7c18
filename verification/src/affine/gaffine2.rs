//! A generic 2D affine transform.
use vstd::prelude::*;

use crate::matrix::{GMat2, GMat3};
use crate::vector::GVec2;

verus! {

/// A 2D affine transform, which can represent translation, rotation, scaling
/// and shearing.
#[derive(Clone, Copy)]
pub struct GAffine2<T: Copy> {
    /// The 2x2 matrix containing the rotation and scale of the transform.
    pub matrix2: GMat2<T>,
    /// The translation vector of the transform.
    pub translation: GVec2<T>,
}

impl<T: Copy> GAffine2<T> {
    /// The components in column-major order: the matrix columns, then the
    /// translation.
    pub open spec fn spec_cols_array(self) -> Seq<T> {
        self.matrix2.spec_cols_array() + self.translation.spec_array()
    }

    /// Creates an affine transform from 3 column vectors: the 2 columns of the
    /// matrix and the translation.
    pub fn from_cols(x_axis: GVec2<T>, y_axis: GVec2<T>, z_axis: GVec2<T>) -> (r: GAffine2<T>)
        ensures
            r == (GAffine2 { matrix2: GMat2 { x_axis, y_axis }, translation: z_axis }),
    {
        GAffine2 { matrix2: GMat2::from_cols(x_axis, y_axis), translation: z_axis }
    }

    /// Creates an affine transform from an array of 6 components in column-major order.
    pub fn from_cols_array(m: &[T; 6]) -> (r: GAffine2<T>)
        ensures
            r.spec_cols_array() == m@,
    {
        let r = GAffine2::from_cols(
            GVec2::new(m[0], m[1]),
            GVec2::new(m[2], m[3]),
            GVec2::new(m[4], m[5]),
        );
        assert(r.spec_cols_array() =~= m@);
        r
    }

    /// Returns the 6 components in column-major order.
    pub fn to_cols_array(&self) -> (r: [T; 6])
        ensures
            r@ == self.spec_cols_array(),
    {
        let r = [
            self.matrix2.x_axis.x,
            self.matrix2.x_axis.y,
            self.matrix2.y_axis.x,
            self.matrix2.y_axis.y,
            self.translation.x,
            self.translation.y,
        ];
        assert(r@ =~= self.spec_cols_array());
        r
    }

    /// Creates an affine transform from a 2D array of 3 columns.
    pub fn from_cols_array_2d(m: &[[T; 2]; 3]) -> (r: GAffine2<T>)
        ensures
            r.matrix2.x_axis.spec_array() == m@[0]@,
            r.matrix2.y_axis.spec_array() == m@[1]@,
            r.translation.spec_array() == m@[2]@,
    {
        GAffine2::from_cols(
            GVec2::from_array(m[0]),
            GVec2::from_array(m[1]),
            GVec2::from_array(m[2]),
        )
    }

    /// Returns the 3 columns as a 2D array.
    pub fn to_cols_array_2d(&self) -> (r: [[T; 2]; 3])
        ensures
            r@[0]@ == self.matrix2.x_axis.spec_array(),
            r@[1]@ == self.matrix2.y_axis.spec_array(),
            r@[2]@ == self.translation.spec_array(),
    {
        [
            self.matrix2.x_axis.to_array(),
            self.matrix2.y_axis.to_array(),
            self.translation.to_array(),
        ]
    }

    /// Creates an affine transform from the first 6 values in `slice`, in
    /// column-major order.
    pub fn from_cols_slice(slice: &[T]) -> (r: GAffine2<T>)
        requires
            slice@.len() >= 6,
        ensures
            r.spec_cols_array() == slice@.subrange(0, 6),
    {
        let r = GAffine2::from_cols(
            GVec2::new(slice[0], slice[1]),
            GVec2::new(slice[2], slice[3]),
            GVec2::new(slice[4], slice[5]),
        );
        assert(r.spec_cols_array() =~= slice@.subrange(0, 6));
        r
    }

    /// Writes the columns of `self` to the first 6 elements in `slice`.
    pub fn write_cols_to_slice(&self, slice: &mut [T])
        requires
            old(slice)@.len() >= 6,
        ensures
            final(slice)@ == self.spec_cols_array() + old(slice)@.subrange(
                6,
                old(slice)@.len() as int,
            ),
    {
        slice[0] = self.matrix2.x_axis.x;
        slice[1] = self.matrix2.x_axis.y;
        slice[2] = self.matrix2.y_axis.x;
        slice[3] = self.matrix2.y_axis.y;
        slice[4] = self.translation.x;
        slice[5] = self.translation.y;
        assert(slice@ =~= self.spec_cols_array() + old(slice)@.subrange(
            6,
            old(slice)@.len() as int,
        ));
    }

    /// Returns `if_true` when `boolean` holds and `if_false` otherwise.
    pub fn select(boolean: bool, if_true: GAffine2<T>, if_false: GAffine2<T>) -> (r: GAffine2<T>)
        ensures
            r == (if boolean {
                if_true
            } else {
                if_false
            }),
    {
        if boolean {
            if_true
        } else {
            if_false
        }
    }

    /// Creates an affine transform from a 2x2 matrix and a translation.
    pub fn from_mat2_translation(matrix2: GMat2<T>, translation: GVec2<T>) -> (r: GAffine2<T>)
        ensures
            r == (GAffine2 { matrix2, translation }),
    {
        GAffine2 { matrix2, translation }
    }
}

/// An affine transform is determined by its components in column-major order.
pub proof fn lemma_gaffine2_cols_array_injective<T: Copy>(a: GAffine2<T>, b: GAffine2<T>)
    requires
        a.spec_cols_array() == b.spec_cols_array(),
    ensures
        a == b,
{
    assert(a.spec_cols_array() =~= seq![
        a.matrix2.x_axis.x,
        a.matrix2.x_axis.y,
        a.matrix2.y_axis.x,
        a.matrix2.y_axis.y,
        a.translation.x,
        a.translation.y,
    ]);
    assert(b.spec_cols_array() =~= seq![
        b.matrix2.x_axis.x,
        b.matrix2.x_axis.y,
        b.matrix2.y_axis.x,
        b.matrix2.y_axis.y,
        b.translation.x,
        b.translation.y,
    ]);
    let sa = a.spec_cols_array();
    let sb = b.spec_cols_array();
    assert(sa[0] == sb[0] && sa[1] == sb[1]);
    assert(sa[2] == sb[2] && sa[3] == sb[3]);
    assert(sa[4] == sb[4] && sa[5] == sb[5]);
}

impl<T: Copy> GAffine2<T> {
    /// The affine transform made of the first two components of the first
    /// two columns of `m` and of its last column.
    pub open spec fn spec_from_mat3(m: GMat3<T>) -> GAffine2<T> {
        GAffine2 {
            matrix2: GMat2 {
                x_axis: GVec2 { x: m.x_axis.x, y: m.x_axis.y },
                y_axis: GVec2 { x: m.y_axis.x, y: m.y_axis.y },
            },
            translation: GVec2 { x: m.z_axis.x, y: m.z_axis.y },
        }
    }

    /// Creates an affine transform from a 3x3 matrix, keeping the first two
    /// components of each column. The matrix is expected to be an affine
    /// transform without perspective.
    pub fn from_mat3(m: GMat3<T>) -> (r: GAffine2<T>)
        ensures
            r == GAffine2::spec_from_mat3(m),
            forall|c: int, i: int| 0 <= c < 2 && 0 <= i < 2 ==> #[trigger] r.matrix2.spec_elem(c, i)
                == m.spec_elem(c, i),
            r.translation == (GVec2 { x: m.z_axis.x, y: m.z_axis.y }),
    {
        GAffine2 {
            matrix2: GMat2::from_cols(
                GVec2::new(m.x_axis.x, m.x_axis.y),
                GVec2::new(m.y_axis.x, m.y_axis.y),
            ),
            translation: GVec2::new(m.z_axis.x, m.z_axis.y),
        }
    }
}

} // verus!
