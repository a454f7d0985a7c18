//! A generic 3D affine transform.
use vstd::prelude::*;

use crate::matrix::{GMat3, GMat4};
use crate::vector::GVec3;

verus! {

/// A 3D affine transform, which can represent translation, rotation, scaling
/// and shearing.
#[derive(Clone, Copy)]
pub struct GAffine3<T: Copy> {
    /// The 3x3 matrix containing the rotation and scale of the transform.
    pub matrix3: GMat3<T>,
    /// The translation vector of the transform.
    pub translation: GVec3<T>,
}

impl<T: Copy> GAffine3<T> {
    /// The components in column-major order: the matrix columns, then the
    /// translation.
    pub open spec fn spec_cols_array(self) -> Seq<T> {
        self.matrix3.spec_cols_array() + self.translation.spec_array()
    }

    /// Creates an affine transform from 4 column vectors: the 3 columns of the
    /// matrix and the translation.
    pub fn from_cols(
        x_axis: GVec3<T>,
        y_axis: GVec3<T>,
        z_axis: GVec3<T>,
        w_axis: GVec3<T>,
    ) -> (r: GAffine3<T>)
        ensures
            r == (GAffine3 { matrix3: GMat3 { x_axis, y_axis, z_axis }, translation: w_axis }),
    {
        GAffine3 { matrix3: GMat3::from_cols(x_axis, y_axis, z_axis), translation: w_axis }
    }

    /// Creates an affine transform from an array of 12 components in column-major order.
    pub fn from_cols_array(m: &[T; 12]) -> (r: GAffine3<T>)
        ensures
            r.spec_cols_array() == m@,
    {
        let r = GAffine3::from_cols(
            GVec3::new(m[0], m[1], m[2]),
            GVec3::new(m[3], m[4], m[5]),
            GVec3::new(m[6], m[7], m[8]),
            GVec3::new(m[9], m[10], m[11]),
        );
        assert(r.spec_cols_array() =~= m@);
        r
    }

    /// Returns the 12 components in column-major order.
    pub fn to_cols_array(&self) -> (r: [T; 12])
        ensures
            r@ == self.spec_cols_array(),
    {
        let r = [
            self.matrix3.x_axis.x,
            self.matrix3.x_axis.y,
            self.matrix3.x_axis.z,
            self.matrix3.y_axis.x,
            self.matrix3.y_axis.y,
            self.matrix3.y_axis.z,
            self.matrix3.z_axis.x,
            self.matrix3.z_axis.y,
            self.matrix3.z_axis.z,
            self.translation.x,
            self.translation.y,
            self.translation.z,
        ];
        assert(r@ =~= self.spec_cols_array());
        r
    }

    /// Creates an affine transform from a 2D array of 4 columns.
    pub fn from_cols_array_2d(m: &[[T; 3]; 4]) -> (r: GAffine3<T>)
        ensures
            r.matrix3.x_axis.spec_array() == m@[0]@,
            r.matrix3.y_axis.spec_array() == m@[1]@,
            r.matrix3.z_axis.spec_array() == m@[2]@,
            r.translation.spec_array() == m@[3]@,
    {
        GAffine3::from_cols(
            GVec3::from_array(m[0]),
            GVec3::from_array(m[1]),
            GVec3::from_array(m[2]),
            GVec3::from_array(m[3]),
        )
    }

    /// Returns the 4 columns as a 2D array.
    pub fn to_cols_array_2d(&self) -> (r: [[T; 3]; 4])
        ensures
            r@[0]@ == self.matrix3.x_axis.spec_array(),
            r@[1]@ == self.matrix3.y_axis.spec_array(),
            r@[2]@ == self.matrix3.z_axis.spec_array(),
            r@[3]@ == self.translation.spec_array(),
    {
        [
            self.matrix3.x_axis.to_array(),
            self.matrix3.y_axis.to_array(),
            self.matrix3.z_axis.to_array(),
            self.translation.to_array(),
        ]
    }

    /// Creates an affine transform from the first 12 values in `slice`, in
    /// column-major order.
    pub fn from_cols_slice(slice: &[T]) -> (r: GAffine3<T>)
        requires
            slice@.len() >= 12,
        ensures
            r.spec_cols_array() == slice@.subrange(0, 12),
    {
        let r = GAffine3::from_cols(
            GVec3::new(slice[0], slice[1], slice[2]),
            GVec3::new(slice[3], slice[4], slice[5]),
            GVec3::new(slice[6], slice[7], slice[8]),
            GVec3::new(slice[9], slice[10], slice[11]),
        );
        assert(r.spec_cols_array() =~= slice@.subrange(0, 12));
        r
    }

    /// Writes the columns of `self` to the first 12 elements in `slice`.
    pub fn write_cols_to_slice(&self, slice: &mut [T])
        requires
            old(slice)@.len() >= 12,
        ensures
            final(slice)@ == self.spec_cols_array() + old(slice)@.subrange(
                12,
                old(slice)@.len() as int,
            ),
    {
        slice[0] = self.matrix3.x_axis.x;
        slice[1] = self.matrix3.x_axis.y;
        slice[2] = self.matrix3.x_axis.z;
        slice[3] = self.matrix3.y_axis.x;
        slice[4] = self.matrix3.y_axis.y;
        slice[5] = self.matrix3.y_axis.z;
        slice[6] = self.matrix3.z_axis.x;
        slice[7] = self.matrix3.z_axis.y;
        slice[8] = self.matrix3.z_axis.z;
        slice[9] = self.translation.x;
        slice[10] = self.translation.y;
        slice[11] = self.translation.z;
        assert(slice@ =~= self.spec_cols_array() + old(slice)@.subrange(
            12,
            old(slice)@.len() as int,
        ));
    }

    /// Returns `if_true` when `boolean` holds and `if_false` otherwise.
    pub fn select(boolean: bool, if_true: GAffine3<T>, if_false: GAffine3<T>) -> (r: GAffine3<T>)
        ensures
            r == (if boolean {
                if_true
            } else {
                if_false
            }),
    {
        if boolean {
            if_true
        } else {
            if_false
        }
    }

    /// Creates an affine transform from a 3x3 matrix and a translation.
    pub fn from_mat3_translation(matrix3: GMat3<T>, translation: GVec3<T>) -> (r: GAffine3<T>)
        ensures
            r == (GAffine3 { matrix3, translation }),
    {
        GAffine3 { matrix3, translation }
    }
}

/// An affine transform is determined by its components in column-major order.
pub proof fn lemma_gaffine3_cols_array_injective<T: Copy>(a: GAffine3<T>, b: GAffine3<T>)
    requires
        a.spec_cols_array() == b.spec_cols_array(),
    ensures
        a == b,
{
    assert(a.spec_cols_array() =~= seq![
        a.matrix3.x_axis.x,
        a.matrix3.x_axis.y,
        a.matrix3.x_axis.z,
        a.matrix3.y_axis.x,
        a.matrix3.y_axis.y,
        a.matrix3.y_axis.z,
        a.matrix3.z_axis.x,
        a.matrix3.z_axis.y,
        a.matrix3.z_axis.z,
        a.translation.x,
        a.translation.y,
        a.translation.z,
    ]);
    assert(b.spec_cols_array() =~= seq![
        b.matrix3.x_axis.x,
        b.matrix3.x_axis.y,
        b.matrix3.x_axis.z,
        b.matrix3.y_axis.x,
        b.matrix3.y_axis.y,
        b.matrix3.y_axis.z,
        b.matrix3.z_axis.x,
        b.matrix3.z_axis.y,
        b.matrix3.z_axis.z,
        b.translation.x,
        b.translation.y,
        b.translation.z,
    ]);
    let sa = a.spec_cols_array();
    let sb = b.spec_cols_array();
    assert(sa[0] == sb[0] && sa[1] == sb[1] && sa[2] == sb[2]);
    assert(sa[3] == sb[3] && sa[4] == sb[4] && sa[5] == sb[5]);
    assert(sa[6] == sb[6] && sa[7] == sb[7] && sa[8] == sb[8]);
    assert(sa[9] == sb[9] && sa[10] == sb[10] && sa[11] == sb[11]);
}

impl<T: Copy> GAffine3<T> {
    /// The affine transform made of the first three components of the first
    /// three columns of `m` and of its last column.
    pub open spec fn spec_from_mat4(m: GMat4<T>) -> GAffine3<T> {
        GAffine3 {
            matrix3: GMat3 {
                x_axis: GVec3 { x: m.x_axis.x, y: m.x_axis.y, z: m.x_axis.z },
                y_axis: GVec3 { x: m.y_axis.x, y: m.y_axis.y, z: m.y_axis.z },
                z_axis: GVec3 { x: m.z_axis.x, y: m.z_axis.y, z: m.z_axis.z },
            },
            translation: GVec3 { x: m.w_axis.x, y: m.w_axis.y, z: m.w_axis.z },
        }
    }

    /// Creates an affine transform from a 4x4 matrix, keeping the first three
    /// components of each column. The matrix is expected to be an affine
    /// transform without perspective.
    pub fn from_mat4(m: GMat4<T>) -> (r: GAffine3<T>)
        ensures
            r == GAffine3::spec_from_mat4(m),
            forall|c: int, i: int| 0 <= c < 3 && 0 <= i < 3 ==> #[trigger] r.matrix3.spec_elem(c, i)
                == m.spec_elem(c, i),
            r.translation == (GVec3 { x: m.w_axis.x, y: m.w_axis.y, z: m.w_axis.z }),
    {
        GAffine3 {
            matrix3: GMat3::from_cols(m.x_axis.xyz(), m.y_axis.xyz(), m.z_axis.xyz()),
            translation: m.w_axis.xyz(),
        }
    }
}

} // verus!
