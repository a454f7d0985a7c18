//! A SIMD-aligned 3D affine transform of binary32 components.
use vstd::prelude::*;

use crate::bits;
use crate::deref::Cols4;
use crate::affine::GAffine3;
use crate::matrix::{GMat3, GMat4, Mat3A};
use crate::vector::{GVec3, Vec3A};

verus! {

/// A 3D affine transform whose components are binary32 values held by their
/// bit encodings. It can represent translation, rotation, scaling and
/// shearing.
#[derive(Clone, Copy)]
pub struct Affine3A {
    /// The 3x3 matrix containing the rotation and scale of the transform.
    pub matrix3: Mat3A,
    /// The translation vector of the transform.
    pub translation: Vec3A,
}

impl Affine3A {
    /// The components in column-major order: the three matrix columns, then
    /// the translation.
    pub open spec fn spec_cols_array(self) -> Seq<u32> {
        self.matrix3.spec_cols_array() + self.translation.spec_array()
    }

    /// Some component is NaN.
    pub open spec fn spec_is_nan(self) -> bool {
        self.matrix3.spec_is_nan() || self.translation.spec_is_nan()
    }

    /// All components are finite.
    pub open spec fn spec_is_finite(self) -> bool {
        self.matrix3.spec_is_finite() && self.translation.spec_is_finite()
    }

    /// Component-wise IEEE-754 equality.
    pub open spec fn spec_eq(self, rhs: Affine3A) -> bool {
        self.matrix3.spec_eq(rhs.matrix3) && self.translation.spec_eq(rhs.translation)
    }

    /// The transform with the given four columns.
    pub open spec fn spec_from_cols(
        x_axis: Vec3A,
        y_axis: Vec3A,
        z_axis: Vec3A,
        w_axis: Vec3A,
    ) -> Affine3A {
        Affine3A { matrix3: Mat3A { x_axis, y_axis, z_axis }, translation: w_axis }
    }

    /// The identity transform.
    pub open spec fn spec_identity() -> Affine3A {
        Affine3A {
            matrix3: Mat3A::spec_identity(),
            translation: Vec3A { x: bits::ZERO_BITS, y: bits::ZERO_BITS, z: bits::ZERO_BITS },
        }
    }

    /// The degenerate zero transform, which maps every finite point and vector to zero.
    pub fn zero() -> (r: Affine3A)
        ensures
            r.spec_cols_array() == Seq::new(12, |i: int| bits::ZERO_BITS),
    {
        let r = Affine3A::from_cols(Vec3A::zero(), Vec3A::zero(), Vec3A::zero(), Vec3A::zero());
        assert(r.spec_cols_array() =~= Seq::new(12, |i: int| bits::ZERO_BITS));
        r
    }

    /// The identity transform.
    pub fn identity() -> (r: Affine3A)
        ensures
            r == Affine3A::spec_identity(),
    {
        Affine3A::from_cols(Vec3A::unit_x(), Vec3A::unit_y(), Vec3A::unit_z(), Vec3A::zero())
    }

    /// All NaN.
    pub fn nan() -> (r: Affine3A)
        ensures
            r.spec_cols_array() == Seq::new(12, |i: int| bits::NAN_BITS),
    {
        let r = Affine3A::from_cols(Vec3A::nan(), Vec3A::nan(), Vec3A::nan(), Vec3A::nan());
        assert(r.spec_cols_array() =~= Seq::new(12, |i: int| bits::NAN_BITS));
        r
    }

    /// Creates an affine transform from four column vectors: the three
    /// columns of the matrix and the translation.
    pub fn from_cols(x_axis: Vec3A, y_axis: Vec3A, z_axis: Vec3A, w_axis: Vec3A) -> (r: Affine3A)
        ensures
            r == Affine3A::spec_from_cols(x_axis, y_axis, z_axis, w_axis),
    {
        Affine3A { matrix3: Mat3A::from_cols(x_axis, y_axis, z_axis), translation: w_axis }
    }

    /// Creates an affine transform from an array of 12 components in column-major order.
    pub fn from_cols_array(m: &[u32; 12]) -> (r: Affine3A)
        ensures
            r.spec_cols_array() == m@,
    {
        let r = Affine3A::from_cols(
            Vec3A::new(m[0], m[1], m[2]),
            Vec3A::new(m[3], m[4], m[5]),
            Vec3A::new(m[6], m[7], m[8]),
            Vec3A::new(m[9], m[10], m[11]),
        );
        assert(r.spec_cols_array() =~= m@);
        r
    }

    /// Returns the 12 components in column-major order.
    pub fn to_cols_array(&self) -> (r: [u32; 12])
        ensures
            r@ == self.spec_cols_array(),
    {
        let r = [
            self.matrix3.x_axis.x,
            self.matrix3.x_axis.y,
            self.matrix3.x_axis.z,
            self.matrix3.y_axis.x,
            self.matrix3.y_axis.y,
            self.matrix3.y_axis.z,
            self.matrix3.z_axis.x,
            self.matrix3.z_axis.y,
            self.matrix3.z_axis.z,
            self.translation.x,
            self.translation.y,
            self.translation.z,
        ];
        assert(r@ =~= self.spec_cols_array());
        r
    }

    /// Creates an affine transform from a 2D array of four columns.
    pub fn from_cols_array_2d(m: &[[u32; 3]; 4]) -> (r: Affine3A)
        ensures
            r.matrix3.x_axis.spec_array() == m@[0]@,
            r.matrix3.y_axis.spec_array() == m@[1]@,
            r.matrix3.z_axis.spec_array() == m@[2]@,
            r.translation.spec_array() == m@[3]@,
    {
        Affine3A::from_cols(
            Vec3A::from_array(m[0]),
            Vec3A::from_array(m[1]),
            Vec3A::from_array(m[2]),
            Vec3A::from_array(m[3]),
        )
    }

    /// Returns the four columns as a 2D array.
    pub fn to_cols_array_2d(&self) -> (r: [[u32; 3]; 4])
        ensures
            r@[0]@ == self.matrix3.x_axis.spec_array(),
            r@[1]@ == self.matrix3.y_axis.spec_array(),
            r@[2]@ == self.matrix3.z_axis.spec_array(),
            r@[3]@ == self.translation.spec_array(),
    {
        [
            self.matrix3.x_axis.to_array(),
            self.matrix3.y_axis.to_array(),
            self.matrix3.z_axis.to_array(),
            self.translation.to_array(),
        ]
    }

    /// Creates an affine transform from the first 12 values in `slice`, in column-major order.
    pub fn from_cols_slice(slice: &[u32]) -> (r: Affine3A)
        requires
            slice@.len() >= 12,
        ensures
            r.spec_cols_array() == slice@.subrange(0, 12),
    {
        let r = Affine3A::from_cols(
            Vec3A::new(slice[0], slice[1], slice[2]),
            Vec3A::new(slice[3], slice[4], slice[5]),
            Vec3A::new(slice[6], slice[7], slice[8]),
            Vec3A::new(slice[9], slice[10], slice[11]),
        );
        assert(r.spec_cols_array() =~= slice@.subrange(0, 12));
        r
    }

    /// Writes the columns of `self` to the first 12 elements in `slice`.
    pub fn write_cols_to_slice(&self, slice: &mut [u32])
        requires
            old(slice)@.len() >= 12,
        ensures
            final(slice)@ == self.spec_cols_array() + old(slice)@.subrange(
                12,
                old(slice)@.len() as int,
            ),
    {
        slice[0] = self.matrix3.x_axis.x;
        slice[1] = self.matrix3.x_axis.y;
        slice[2] = self.matrix3.x_axis.z;
        slice[3] = self.matrix3.y_axis.x;
        slice[4] = self.matrix3.y_axis.y;
        slice[5] = self.matrix3.y_axis.z;
        slice[6] = self.matrix3.z_axis.x;
        slice[7] = self.matrix3.z_axis.y;
        slice[8] = self.matrix3.z_axis.z;
        slice[9] = self.translation.x;
        slice[10] = self.translation.y;
        slice[11] = self.translation.z;
        assert(slice@ =~= self.spec_cols_array() + old(slice)@.subrange(
            12,
            old(slice)@.len() as int,
        ));
    }

    /// Returns the four columns: the matrix columns and the translation.
    pub fn to_cols4(&self) -> (r: Cols4<Vec3A>)
        ensures
            r.x_axis == self.matrix3.x_axis,
            r.y_axis == self.matrix3.y_axis,
            r.z_axis == self.matrix3.z_axis,
            r.w_axis == self.translation,
    {
        Cols4 {
            x_axis: self.matrix3.x_axis,
            y_axis: self.matrix3.y_axis,
            z_axis: self.matrix3.z_axis,
            w_axis: self.translation,
        }
    }

    /// Returns `if_true` when `boolean` holds and `if_false` otherwise.
    pub fn select(boolean: bool, if_true: Affine3A, if_false: Affine3A) -> (r: Affine3A)
        ensures
            r == (if boolean {
                if_true
            } else {
                if_false
            }),
    {
        if boolean {
            if_true
        } else {
            if_false
        }
    }

    /// Returns `true` if, and only if, all components are finite.
    pub fn is_finite(&self) -> (r: bool)
        ensures
            r == self.spec_is_finite(),
    {
        self.matrix3.is_finite() && self.translation.is_finite()
    }

    /// Returns `true` if any component is NaN.
    pub fn is_nan(&self) -> (r: bool)
        ensures
            r == self.spec_is_nan(),
    {
        self.matrix3.is_nan() || self.translation.is_nan()
    }
}

impl Default for Affine3A {
    /// The identity transform.
    fn default() -> (r: Affine3A)
        ensures
            r == Affine3A::spec_identity(),
    {
        Affine3A::identity()
    }
}

impl PartialEq for Affine3A {
    fn eq(&self, other: &Self) -> (r: bool) {
        self.matrix3 == other.matrix3 && self.translation == other.translation
    }
}

impl vstd::std_specs::cmp::PartialEqSpecImpl for Affine3A {
    open spec fn obeys_eq_spec() -> bool {
        true
    }

    open spec fn eq_spec(&self, other: &Self) -> bool {
        self.spec_eq(*other)
    }
}

/// An affine transform is determined by its components in column-major
/// order, so reading a transform back from the array it was written to gives
/// it back.
pub proof fn lemma_affine3a_cols_array_injective(a: Affine3A, b: Affine3A)
    requires
        a.spec_cols_array() == b.spec_cols_array(),
    ensures
        a == b,
{
    assert(a.spec_cols_array() =~= seq![
        a.matrix3.x_axis.x,
        a.matrix3.x_axis.y,
        a.matrix3.x_axis.z,
        a.matrix3.y_axis.x,
        a.matrix3.y_axis.y,
        a.matrix3.y_axis.z,
        a.matrix3.z_axis.x,
        a.matrix3.z_axis.y,
        a.matrix3.z_axis.z,
        a.translation.x,
        a.translation.y,
        a.translation.z,
    ]);
    assert(b.spec_cols_array() =~= seq![
        b.matrix3.x_axis.x,
        b.matrix3.x_axis.y,
        b.matrix3.x_axis.z,
        b.matrix3.y_axis.x,
        b.matrix3.y_axis.y,
        b.matrix3.y_axis.z,
        b.matrix3.z_axis.x,
        b.matrix3.z_axis.y,
        b.matrix3.z_axis.z,
        b.translation.x,
        b.translation.y,
        b.translation.z,
    ]);
    let sa = a.spec_cols_array();
    let sb = b.spec_cols_array();
    assert(sa[0] == sb[0] && sa[1] == sb[1] && sa[2] == sb[2]);
    assert(sa[3] == sb[3] && sa[4] == sb[4] && sa[5] == sb[5]);
    assert(sa[6] == sb[6] && sa[7] == sb[7] && sa[8] == sb[8]);
    assert(sa[9] == sb[9] && sa[10] == sb[10] && sa[11] == sb[11]);
}

/// A transform with a NaN component is not finite; `==` on transforms is
/// symmetric, and a transform equals itself exactly when none of its
/// components is NaN.
pub proof fn lemma_affine3a_classification(a: Affine3A, b: Affine3A)
    ensures
        a.spec_is_nan() ==> !a.spec_is_finite(),
        a.spec_eq(b) == b.spec_eq(a),
        a.spec_eq(a) == !a.spec_is_nan(),
{
    crate::matrix::lemma_mat3a_classification(a.matrix3);
    bits::lemma_classification(a.translation.x);
    bits::lemma_classification(a.translation.y);
    bits::lemma_classification(a.translation.z);
}

impl Affine3A {
    /// Creates a SIMD-aligned affine transform from a generic transform of encodings.
    pub fn from_affine3(a: GAffine3<u32>) -> (r: Affine3A)
        ensures
            r.matrix3 == Mat3A::spec_from_mat3(a.matrix3),
            r.translation == Vec3A::spec_from_vec3(a.translation),
            r.spec_cols_array() == a.spec_cols_array(),
    {
        let r = Affine3A {
            matrix3: Mat3A::from_mat3(a.matrix3),
            translation: Vec3A::from_vec3(a.translation),
        };
        assert(r.spec_cols_array() =~= a.spec_cols_array());
        r
    }

    /// Converts `self` to a generic transform of encodings.
    pub fn to_affine3(self) -> (r: GAffine3<u32>)
        ensures
            Mat3A::spec_from_mat3(r.matrix3) == self.matrix3,
            Vec3A::spec_from_vec3(r.translation) == self.translation,
            r.spec_cols_array() == self.spec_cols_array(),
    {
        let r = GAffine3 {
            matrix3: self.matrix3.to_mat3(),
            translation: self.translation.to_vec3(),
        };
        assert(r.spec_cols_array() =~= self.spec_cols_array());
        r
    }

    /// Creates an affine transform from a 3x3 matrix and a translation.
    pub fn from_mat3_translation(mat3: GMat3<u32>, translation: GVec3<u32>) -> (r: Affine3A)
        ensures
            r.spec_cols_array() == mat3.spec_cols_array() + translation.spec_array(),
    {
        Affine3A::from_affine3(GAffine3::from_mat3_translation(mat3, translation))
    }

    /// Creates an affine transform from a 4x4 matrix, keeping the first three
    /// components of each column. The matrix is expected to be an affine
    /// transform without perspective.
    pub fn from_mat4(m: GMat4<u32>) -> (r: Affine3A)
        ensures
            forall|c: int, i: int| 0 <= c < 3 && 0 <= i < 3 ==> #[trigger] r.matrix3.spec_elem(c, i)
                == m.spec_elem(c, i),
            r.translation == (Vec3A { x: m.w_axis.x, y: m.w_axis.y, z: m.w_axis.z }),
    {
        let g = GAffine3::from_mat4(m);
        let r = Affine3A::from_affine3(g);
        assert forall|c: int, i: int| 0 <= c < 3
            && 0 <= i < 3 implies #[trigger] r.matrix3.spec_elem(
            c,
            i,
        ) == m.spec_elem(c, i) by {
            assert(g.matrix3.spec_elem(c, i) == m.spec_elem(c, i));
        }
        r
    }
}

impl Affine3A {
    /// Creates an affine transform that translates by `translation`, with the identity as its 3x3
    /// part.
    pub fn from_translation(translation: GVec3<u32>) -> (r: Affine3A)
        ensures
            r == (Affine3A {
                matrix3: Mat3A {
                    x_axis: Vec3A { x: bits::ONE_BITS, y: bits::ZERO_BITS, z: bits::ZERO_BITS },
                    y_axis: Vec3A { x: bits::ZERO_BITS, y: bits::ONE_BITS, z: bits::ZERO_BITS },
                    z_axis: Vec3A { x: bits::ZERO_BITS, y: bits::ZERO_BITS, z: bits::ONE_BITS },
                },
                translation: Vec3A { x: translation.x, y: translation.y, z: translation.z },
            }),
    {
        Affine3A {
            matrix3: Mat3A {
                x_axis: Vec3A { x: bits::ONE_BITS, y: bits::ZERO_BITS, z: bits::ZERO_BITS },
                y_axis: Vec3A { x: bits::ZERO_BITS, y: bits::ONE_BITS, z: bits::ZERO_BITS },
                z_axis: Vec3A { x: bits::ZERO_BITS, y: bits::ZERO_BITS, z: bits::ONE_BITS },
            },
            translation: Vec3A { x: translation.x, y: translation.y, z: translation.z },
        }
    }

    /// Creates an affine transform that scales by `scale`: the diagonal `scale` with no
    /// translation.
    pub fn from_scale(scale: GVec3<u32>) -> (r: Affine3A)
        ensures
            r == (Affine3A {
                matrix3: Mat3A {
                    x_axis: Vec3A { x: scale.x, y: bits::ZERO_BITS, z: bits::ZERO_BITS },
                    y_axis: Vec3A { x: bits::ZERO_BITS, y: scale.y, z: bits::ZERO_BITS },
                    z_axis: Vec3A { x: bits::ZERO_BITS, y: bits::ZERO_BITS, z: scale.z },
                },
                translation: Vec3A { x: bits::ZERO_BITS, y: bits::ZERO_BITS, z: bits::ZERO_BITS },
            }),
    {
        Affine3A {
            matrix3: Mat3A {
                x_axis: Vec3A { x: scale.x, y: bits::ZERO_BITS, z: bits::ZERO_BITS },
                y_axis: Vec3A { x: bits::ZERO_BITS, y: scale.y, z: bits::ZERO_BITS },
                z_axis: Vec3A { x: bits::ZERO_BITS, y: bits::ZERO_BITS, z: scale.z },
            },
            translation: Vec3A { x: bits::ZERO_BITS, y: bits::ZERO_BITS, z: bits::ZERO_BITS },
        }
    }

    /// Creates an affine transform from a 3x3 matrix (scale, shear and rotation), with no
    /// translation.
    pub fn from_mat3(mat3: GMat3<u32>) -> (r: Affine3A)
        ensures
            r == (Affine3A {
                matrix3: Mat3A {
                    x_axis: Vec3A { x: mat3.x_axis.x, y: mat3.x_axis.y, z: mat3.x_axis.z },
                    y_axis: Vec3A { x: mat3.y_axis.x, y: mat3.y_axis.y, z: mat3.y_axis.z },
                    z_axis: Vec3A { x: mat3.z_axis.x, y: mat3.z_axis.y, z: mat3.z_axis.z },
                },
                translation: Vec3A { x: bits::ZERO_BITS, y: bits::ZERO_BITS, z: bits::ZERO_BITS },
            }),
    {
        Affine3A {
            matrix3: Mat3A {
                x_axis: Vec3A { x: mat3.x_axis.x, y: mat3.x_axis.y, z: mat3.x_axis.z },
                y_axis: Vec3A { x: mat3.y_axis.x, y: mat3.y_axis.y, z: mat3.y_axis.z },
                z_axis: Vec3A { x: mat3.z_axis.x, y: mat3.z_axis.y, z: mat3.z_axis.z },
            },
            translation: Vec3A { x: bits::ZERO_BITS, y: bits::ZERO_BITS, z: bits::ZERO_BITS },
        }
    }
}

} // verus!
