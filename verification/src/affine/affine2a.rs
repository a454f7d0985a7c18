//! A SIMD-aligned 2D affine transform of binary32 components.
use vstd::prelude::*;

use crate::affine::GAffine2;
use crate::bits;
use crate::deref::Cols3;
use crate::matrix::{GMat3, Mat2A, spec_vec2_eq, spec_vec2_is_finite, spec_vec2_is_nan};
use crate::vector::GVec2;

verus! {

/// A 2D affine transform whose components are binary32 values held by their
/// bit encodings. It can represent translation, rotation, scaling and
/// shearing.
#[derive(Clone, Copy)]
pub struct Affine2A {
    /// The 2x2 matrix containing the rotation and scale of the transform.
    pub matrix2: Mat2A,
    /// The translation vector of the transform.
    pub translation: GVec2<u32>,
}

impl Affine2A {
    /// The components in column-major order: the two matrix columns, then the
    /// translation.
    pub open spec fn spec_cols_array(self) -> Seq<u32> {
        self.matrix2.spec_cols_array() + self.translation.spec_array()
    }

    /// Some component is NaN.
    pub open spec fn spec_is_nan(self) -> bool {
        self.matrix2.spec_is_nan() || spec_vec2_is_nan(self.translation)
    }

    /// All components are finite.
    pub open spec fn spec_is_finite(self) -> bool {
        self.matrix2.spec_is_finite() && spec_vec2_is_finite(self.translation)
    }

    /// Component-wise IEEE-754 equality.
    pub open spec fn spec_eq(self, rhs: Affine2A) -> bool {
        self.matrix2.spec_eq(rhs.matrix2) && spec_vec2_eq(self.translation, rhs.translation)
    }

    /// The identity transform.
    pub open spec fn spec_identity() -> Affine2A {
        Affine2A {
            matrix2: Mat2A::spec_identity(),
            translation: GVec2 { x: bits::ZERO_BITS, y: bits::ZERO_BITS },
        }
    }

    /// The degenerate zero transform, which maps every finite point and vector to zero.
    pub fn zero() -> (r: Affine2A)
        ensures
            r.spec_cols_array() == Seq::new(6, |i: int| bits::ZERO_BITS),
    {
        let z = GVec2::splat(bits::ZERO_BITS);
        let r = Affine2A::from_cols(z, z, z);
        assert(r.spec_cols_array() =~= Seq::new(6, |i: int| bits::ZERO_BITS));
        r
    }

    /// The identity transform.
    pub fn identity() -> (r: Affine2A)
        ensures
            r == Affine2A::spec_identity(),
    {
        Affine2A {
            matrix2: Mat2A::identity(),
            translation: GVec2::new(bits::ZERO_BITS, bits::ZERO_BITS),
        }
    }

    /// All NaN.
    pub fn nan() -> (r: Affine2A)
        ensures
            r.spec_cols_array() == Seq::new(6, |i: int| bits::NAN_BITS),
    {
        let n = GVec2::splat(bits::NAN_BITS);
        let r = Affine2A::from_cols(n, n, n);
        assert(r.spec_cols_array() =~= Seq::new(6, |i: int| bits::NAN_BITS));
        r
    }

    /// Creates an affine transform from three column vectors: the two columns
    /// of the matrix and the translation.
    pub fn from_cols(x_axis: GVec2<u32>, y_axis: GVec2<u32>, z_axis: GVec2<u32>) -> (r: Affine2A)
        ensures
            r == (Affine2A { matrix2: Mat2A { x_axis, y_axis }, translation: z_axis }),
    {
        Affine2A { matrix2: Mat2A::from_cols(x_axis, y_axis), translation: z_axis }
    }

    /// Creates an affine transform from an array of 6 components in column-major order.
    pub fn from_cols_array(m: &[u32; 6]) -> (r: Affine2A)
        ensures
            r.spec_cols_array() == m@,
    {
        let r = Affine2A::from_cols(
            GVec2::new(m[0], m[1]),
            GVec2::new(m[2], m[3]),
            GVec2::new(m[4], m[5]),
        );
        assert(r.spec_cols_array() =~= m@);
        r
    }

    /// Returns the 6 components in column-major order.
    pub fn to_cols_array(&self) -> (r: [u32; 6])
        ensures
            r@ == self.spec_cols_array(),
    {
        let r = [
            self.matrix2.x_axis.x,
            self.matrix2.x_axis.y,
            self.matrix2.y_axis.x,
            self.matrix2.y_axis.y,
            self.translation.x,
            self.translation.y,
        ];
        assert(r@ =~= self.spec_cols_array());
        r
    }

    /// Creates an affine transform from a 2D array of three columns.
    pub fn from_cols_array_2d(m: &[[u32; 2]; 3]) -> (r: Affine2A)
        ensures
            r.matrix2.x_axis.spec_array() == m@[0]@,
            r.matrix2.y_axis.spec_array() == m@[1]@,
            r.translation.spec_array() == m@[2]@,
    {
        Affine2A::from_cols(
            GVec2::from_array(m[0]),
            GVec2::from_array(m[1]),
            GVec2::from_array(m[2]),
        )
    }

    /// Returns the three columns as a 2D array.
    pub fn to_cols_array_2d(&self) -> (r: [[u32; 2]; 3])
        ensures
            r@[0]@ == self.matrix2.x_axis.spec_array(),
            r@[1]@ == self.matrix2.y_axis.spec_array(),
            r@[2]@ == self.translation.spec_array(),
    {
        [
            self.matrix2.x_axis.to_array(),
            self.matrix2.y_axis.to_array(),
            self.translation.to_array(),
        ]
    }

    /// Creates an affine transform from the first 6 values in `slice`, in column-major order.
    pub fn from_cols_slice(slice: &[u32]) -> (r: Affine2A)
        requires
            slice@.len() >= 6,
        ensures
            r.spec_cols_array() == slice@.subrange(0, 6),
    {
        let r = Affine2A::from_cols(
            GVec2::new(slice[0], slice[1]),
            GVec2::new(slice[2], slice[3]),
            GVec2::new(slice[4], slice[5]),
        );
        assert(r.spec_cols_array() =~= slice@.subrange(0, 6));
        r
    }

    /// Writes the columns of `self` to the first 6 elements in `slice`.
    pub fn write_cols_to_slice(&self, slice: &mut [u32])
        requires
            old(slice)@.len() >= 6,
        ensures
            final(slice)@ == self.spec_cols_array() + old(slice)@.subrange(
                6,
                old(slice)@.len() as int,
            ),
    {
        slice[0] = self.matrix2.x_axis.x;
        slice[1] = self.matrix2.x_axis.y;
        slice[2] = self.matrix2.y_axis.x;
        slice[3] = self.matrix2.y_axis.y;
        slice[4] = self.translation.x;
        slice[5] = self.translation.y;
        assert(slice@ =~= self.spec_cols_array() + old(slice)@.subrange(
            6,
            old(slice)@.len() as int,
        ));
    }

    /// Returns the three columns: the matrix columns and the translation.
    pub fn to_cols3(&self) -> (r: Cols3<GVec2<u32>>)
        ensures
            r.x_axis == self.matrix2.x_axis,
            r.y_axis == self.matrix2.y_axis,
            r.z_axis == self.translation,
    {
        Cols3 { x_axis: self.matrix2.x_axis, y_axis: self.matrix2.y_axis, z_axis: self.translation }
    }

    /// Returns `if_true` when `boolean` holds and `if_false` otherwise.
    pub fn select(boolean: bool, if_true: Affine2A, if_false: Affine2A) -> (r: Affine2A)
        ensures
            r == (if boolean {
                if_true
            } else {
                if_false
            }),
    {
        if boolean {
            if_true
        } else {
            if_false
        }
    }

    /// Creates an affine transform from a 2x2 matrix, with no translation.
    pub fn from_mat2(matrix2: Mat2A) -> (r: Affine2A)
        ensures
            r == (Affine2A {
                matrix2,
                translation: GVec2 { x: bits::ZERO_BITS, y: bits::ZERO_BITS },
            }),
    {
        Affine2A { matrix2, translation: GVec2::new(bits::ZERO_BITS, bits::ZERO_BITS) }
    }

    /// Creates an affine transform from a 2x2 matrix and a translation.
    pub fn from_mat2_translation(matrix2: Mat2A, translation: GVec2<u32>) -> (r: Affine2A)
        ensures
            r == (Affine2A { matrix2, translation }),
    {
        Affine2A { matrix2, translation }
    }

    /// Creates an affine transform from a 3x3 matrix, keeping the first two
    /// components of each column. The matrix is expected to be an affine
    /// transform without perspective.
    pub fn from_mat3(m: GMat3<u32>) -> (r: Affine2A)
        ensures
            forall|c: int, i: int| 0 <= c < 2 && 0 <= i < 2 ==> #[trigger] r.matrix2.spec_elem(c, i)
                == m.spec_elem(c, i),
            r.translation == (GVec2 { x: m.z_axis.x, y: m.z_axis.y }),
    {
        let g = GAffine2::from_mat3(m);
        let r = Affine2A::from_affine2(g);
        assert forall|c: int, i: int| 0 <= c < 2
            && 0 <= i < 2 implies #[trigger] r.matrix2.spec_elem(
            c,
            i,
        ) == m.spec_elem(c, i) by {
            assert(g.matrix2.spec_elem(c, i) == m.spec_elem(c, i));
        }
        r
    }

    /// Creates a SIMD-aligned affine transform from a generic transform of encodings.
    pub fn from_affine2(a: GAffine2<u32>) -> (r: Affine2A)
        ensures
            r.matrix2 == Mat2A::spec_from_mat2(a.matrix2),
            r.translation == a.translation,
    {
        Affine2A { matrix2: Mat2A::from_mat2(a.matrix2), translation: a.translation }
    }

    /// Converts `self` to a generic transform of encodings.
    pub fn to_affine2(self) -> (r: GAffine2<u32>)
        ensures
            r.matrix2 == self.matrix2.spec_to_mat2(),
            r.translation == self.translation,
    {
        GAffine2 { matrix2: self.matrix2.to_mat2(), translation: self.translation }
    }

    /// Returns `true` if, and only if, all components are finite.
    pub fn is_finite(&self) -> (r: bool)
        ensures
            r == self.spec_is_finite(),
    {
        self.matrix2.is_finite() && bits::is_finite(self.translation.x) && bits::is_finite(
            self.translation.y,
        )
    }

    /// Returns `true` if any component is NaN.
    pub fn is_nan(&self) -> (r: bool)
        ensures
            r == self.spec_is_nan(),
    {
        self.matrix2.is_nan() || bits::is_nan(self.translation.x) || bits::is_nan(
            self.translation.y,
        )
    }
}

impl Default for Affine2A {
    /// The identity transform.
    fn default() -> (r: Affine2A)
        ensures
            r == Affine2A::spec_identity(),
    {
        Affine2A::identity()
    }
}

impl PartialEq for Affine2A {
    fn eq(&self, other: &Self) -> (r: bool) {
        self.matrix2 == other.matrix2 && bits::eq(self.translation.x, other.translation.x)
            && bits::eq(self.translation.y, other.translation.y)
    }
}

impl vstd::std_specs::cmp::PartialEqSpecImpl for Affine2A {
    open spec fn obeys_eq_spec() -> bool {
        true
    }

    open spec fn eq_spec(&self, other: &Self) -> bool {
        self.spec_eq(*other)
    }
}

impl Affine2A {
    /// Creates an affine transform that translates by `translation`, with the identity as its 2x2
    /// part.
    pub fn from_translation(translation: GVec2<u32>) -> (r: Affine2A)
        ensures
            r == (Affine2A {
                matrix2: Mat2A {
                    x_axis: GVec2 { x: bits::ONE_BITS, y: bits::ZERO_BITS },
                    y_axis: GVec2 { x: bits::ZERO_BITS, y: bits::ONE_BITS },
                },
                translation: GVec2 { x: translation.x, y: translation.y },
            }),
    {
        Affine2A {
            matrix2: Mat2A {
                x_axis: GVec2 { x: bits::ONE_BITS, y: bits::ZERO_BITS },
                y_axis: GVec2 { x: bits::ZERO_BITS, y: bits::ONE_BITS },
            },
            translation: GVec2 { x: translation.x, y: translation.y },
        }
    }

    /// Creates an affine transform that scales by `scale`: the diagonal `scale` with no
    /// translation.
    pub fn from_scale(scale: GVec2<u32>) -> (r: Affine2A)
        ensures
            r == (Affine2A {
                matrix2: Mat2A {
                    x_axis: GVec2 { x: scale.x, y: bits::ZERO_BITS },
                    y_axis: GVec2 { x: bits::ZERO_BITS, y: scale.y },
                },
                translation: GVec2 { x: bits::ZERO_BITS, y: bits::ZERO_BITS },
            }),
    {
        Affine2A {
            matrix2: Mat2A {
                x_axis: GVec2 { x: scale.x, y: bits::ZERO_BITS },
                y_axis: GVec2 { x: bits::ZERO_BITS, y: scale.y },
            },
            translation: GVec2 { x: bits::ZERO_BITS, y: bits::ZERO_BITS },
        }
    }
}

} // verus!
