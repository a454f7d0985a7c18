//! Conversions between the types of this crate and arrays and tuples.
use vstd::prelude::*;

use crate::affine::{Affine2A, Affine3A, GAffine2, GAffine3};
use crate::bits;
use crate::isometry::{GIso3, Iso3A};
use crate::matrix::{GMat2, GMat3, GMat4, Mat2A, Mat3A, Mat4A};
use crate::rotation::{GQuat, GRot2, Rot3A};
use crate::vector::{GVec2, GVec3, GVec4, Vec3A, Vec4A};

verus! {

/// The homogeneous 4x4 matrix of a 3D affine transform of binary32
/// encodings: the columns of its 3x3 part extended with `0`, then its
/// translation extended with `1`.
pub open spec fn spec_affine3_to_mat4(a: GAffine3<u32>) -> GMat4<u32> {
    GMat4 {
        x_axis: GVec4 {
            x: a.matrix3.x_axis.x,
            y: a.matrix3.x_axis.y,
            z: a.matrix3.x_axis.z,
            w: bits::ZERO_BITS,
        },
        y_axis: GVec4 {
            x: a.matrix3.y_axis.x,
            y: a.matrix3.y_axis.y,
            z: a.matrix3.y_axis.z,
            w: bits::ZERO_BITS,
        },
        z_axis: GVec4 {
            x: a.matrix3.z_axis.x,
            y: a.matrix3.z_axis.y,
            z: a.matrix3.z_axis.z,
            w: bits::ZERO_BITS,
        },
        w_axis: GVec4 {
            x: a.translation.x,
            y: a.translation.y,
            z: a.translation.z,
            w: bits::ONE_BITS,
        },
    }
}

/// The homogeneous 3x3 matrix of a 2D affine transform of binary32
/// encodings: the columns of its 2x2 part extended with `0`, then its
/// translation extended with `1`.
pub open spec fn spec_affine2_to_mat3(a: GAffine2<u32>) -> GMat3<u32> {
    GMat3 {
        x_axis: GVec3 { x: a.matrix2.x_axis.x, y: a.matrix2.x_axis.y, z: bits::ZERO_BITS },
        y_axis: GVec3 { x: a.matrix2.y_axis.x, y: a.matrix2.y_axis.y, z: bits::ZERO_BITS },
        z_axis: GVec3 { x: a.translation.x, y: a.translation.y, z: bits::ONE_BITS },
    }
}

/// The homogeneous matrix of a 3D affine transform has `(0, 0, 0, 1)` as its
/// last row, and reading the transform back from it gives the transform.
pub proof fn lemma_affine3_mat4_roundtrip(a: GAffine3<u32>)
    ensures
        spec_affine3_to_mat4(a).spec_row(3) == (GVec4 {
            x: bits::ZERO_BITS,
            y: bits::ZERO_BITS,
            z: bits::ZERO_BITS,
            w: bits::ONE_BITS,
        }),
        GAffine3::spec_from_mat4(spec_affine3_to_mat4(a)) == a,
{
}

/// The homogeneous matrix of a 2D affine transform has `(0, 0, 1)` as its
/// last row, and reading the transform back from it gives the transform.
pub proof fn lemma_affine2_mat3_roundtrip(a: GAffine2<u32>)
    ensures
        spec_affine2_to_mat3(a).spec_row(2) == (GVec3 {
            x: bits::ZERO_BITS,
            y: bits::ZERO_BITS,
            z: bits::ONE_BITS,
        }),
        GAffine2::spec_from_mat3(spec_affine2_to_mat3(a)) == a,
{
}

impl<T: Copy> From<[T; 4]> for GVec4<T> {
    /// The vector `(a[0], a[1], a[2], a[3])`.
    fn from(a: [T; 4]) -> (out: GVec4<T>) {
        GVec4 { x: a[0], y: a[1], z: a[2], w: a[3] }
    }
}

impl<T: Copy> vstd::std_specs::convert::FromSpecImpl<[T; 4]> for GVec4<T> {
    open spec fn obeys_from_spec() -> bool {
        true
    }

    open spec fn from_spec(a: [T; 4]) -> GVec4<T> {
        GVec4 { x: a@[0], y: a@[1], z: a@[2], w: a@[3] }
    }
}

impl<T: Copy> From<GVec4<T>> for [T; 4] {
    /// The array `[x, y, z, w]`.
    fn from(v: GVec4<T>) -> (out: [T; 4]) {
        [v.x, v.y, v.z, v.w]
    }
}

impl<T: Copy> vstd::std_specs::convert::FromSpecImpl<GVec4<T>> for [T; 4] {
    open spec fn obeys_from_spec() -> bool {
        true
    }

    open spec fn from_spec(v: GVec4<T>) -> [T; 4] {
        [v.x, v.y, v.z, v.w]
    }
}

impl<T: Copy> From<(T, T, T, T)> for GVec4<T> {
    /// The vector of the four elements in order.
    fn from(t: (T, T, T, T)) -> (out: GVec4<T>) {
        GVec4 { x: t.0, y: t.1, z: t.2, w: t.3 }
    }
}

impl<T: Copy> vstd::std_specs::convert::FromSpecImpl<(T, T, T, T)> for GVec4<T> {
    open spec fn obeys_from_spec() -> bool {
        true
    }

    open spec fn from_spec(t: (T, T, T, T)) -> GVec4<T> {
        GVec4 { x: t.0, y: t.1, z: t.2, w: t.3 }
    }
}

impl<T: Copy> From<GVec4<T>> for (T, T, T, T) {
    /// The tuple `(x, y, z, w)`.
    fn from(v: GVec4<T>) -> (out: (T, T, T, T)) {
        (v.x, v.y, v.z, v.w)
    }
}

impl<T: Copy> vstd::std_specs::convert::FromSpecImpl<GVec4<T>> for (T, T, T, T) {
    open spec fn obeys_from_spec() -> bool {
        true
    }

    open spec fn from_spec(v: GVec4<T>) -> (T, T, T, T) {
        (v.x, v.y, v.z, v.w)
    }
}

impl<T: Copy> From<(GVec3<T>, T)> for GVec4<T> {
    /// The vector `(v.x, v.y, v.z, w)` of a 3D vector `v` and a last component `w`.
    fn from(t: (GVec3<T>, T)) -> (out: GVec4<T>) {
        GVec4 { x: t.0.x, y: t.0.y, z: t.0.z, w: t.1 }
    }
}

impl<T: Copy> vstd::std_specs::convert::FromSpecImpl<(GVec3<T>, T)> for GVec4<T> {
    open spec fn obeys_from_spec() -> bool {
        true
    }

    open spec fn from_spec(t: (GVec3<T>, T)) -> GVec4<T> {
        GVec4 { x: t.0.x, y: t.0.y, z: t.0.z, w: t.1 }
    }
}

impl<T: Copy> From<(GVec2<T>, T, T)> for GVec4<T> {
    /// The vector `(v.x, v.y, z, w)` of a 2D vector `v` and two last components.
    fn from(t: (GVec2<T>, T, T)) -> (out: GVec4<T>) {
        GVec4 { x: t.0.x, y: t.0.y, z: t.1, w: t.2 }
    }
}

impl<T: Copy> vstd::std_specs::convert::FromSpecImpl<(GVec2<T>, T, T)> for GVec4<T> {
    open spec fn obeys_from_spec() -> bool {
        true
    }

    open spec fn from_spec(t: (GVec2<T>, T, T)) -> GVec4<T> {
        GVec4 { x: t.0.x, y: t.0.y, z: t.1, w: t.2 }
    }
}

impl<T: Copy> From<(GVec2<T>, GVec2<T>)> for GVec4<T> {
    /// The vector `(a.x, a.y, b.x, b.y)` of two 2D vectors `a` and `b`.
    fn from(t: (GVec2<T>, GVec2<T>)) -> (out: GVec4<T>) {
        GVec4 { x: t.0.x, y: t.0.y, z: t.1.x, w: t.1.y }
    }
}

impl<T: Copy> vstd::std_specs::convert::FromSpecImpl<(GVec2<T>, GVec2<T>)> for GVec4<T> {
    open spec fn obeys_from_spec() -> bool {
        true
    }

    open spec fn from_spec(t: (GVec2<T>, GVec2<T>)) -> GVec4<T> {
        GVec4 { x: t.0.x, y: t.0.y, z: t.1.x, w: t.1.y }
    }
}

impl<T: Copy> From<GQuat<T>> for GVec4<T> {
    /// The vector `(x, y, z, w)` of the components.
    fn from(q: GQuat<T>) -> (out: GVec4<T>) {
        GVec4 { x: q.x, y: q.y, z: q.z, w: q.w }
    }
}

impl<T: Copy> vstd::std_specs::convert::FromSpecImpl<GQuat<T>> for GVec4<T> {
    open spec fn obeys_from_spec() -> bool {
        true
    }

    open spec fn from_spec(q: GQuat<T>) -> GVec4<T> {
        GVec4 { x: q.x, y: q.y, z: q.z, w: q.w }
    }
}

impl<T: Copy> From<[T; 4]> for GQuat<T> {
    /// The quaternion `(a[0], a[1], a[2], a[3])`.
    fn from(a: [T; 4]) -> (out: GQuat<T>) {
        GQuat { x: a[0], y: a[1], z: a[2], w: a[3] }
    }
}

impl<T: Copy> vstd::std_specs::convert::FromSpecImpl<[T; 4]> for GQuat<T> {
    open spec fn obeys_from_spec() -> bool {
        true
    }

    open spec fn from_spec(a: [T; 4]) -> GQuat<T> {
        GQuat { x: a@[0], y: a@[1], z: a@[2], w: a@[3] }
    }
}

impl<T: Copy> From<GQuat<T>> for [T; 4] {
    /// The array `[x, y, z, w]`.
    fn from(q: GQuat<T>) -> (out: [T; 4]) {
        [q.x, q.y, q.z, q.w]
    }
}

impl<T: Copy> vstd::std_specs::convert::FromSpecImpl<GQuat<T>> for [T; 4] {
    open spec fn obeys_from_spec() -> bool {
        true
    }

    open spec fn from_spec(q: GQuat<T>) -> [T; 4] {
        [q.x, q.y, q.z, q.w]
    }
}

impl<T: Copy> From<(T, T, T, T)> for GQuat<T> {
    /// The quaternion of the four components in order.
    fn from(t: (T, T, T, T)) -> (out: GQuat<T>) {
        GQuat { x: t.0, y: t.1, z: t.2, w: t.3 }
    }
}

impl<T: Copy> vstd::std_specs::convert::FromSpecImpl<(T, T, T, T)> for GQuat<T> {
    open spec fn obeys_from_spec() -> bool {
        true
    }

    open spec fn from_spec(t: (T, T, T, T)) -> GQuat<T> {
        GQuat { x: t.0, y: t.1, z: t.2, w: t.3 }
    }
}

impl<T: Copy> From<GQuat<T>> for (T, T, T, T) {
    /// The tuple `(x, y, z, w)`.
    fn from(q: GQuat<T>) -> (out: (T, T, T, T)) {
        (q.x, q.y, q.z, q.w)
    }
}

impl<T: Copy> vstd::std_specs::convert::FromSpecImpl<GQuat<T>> for (T, T, T, T) {
    open spec fn obeys_from_spec() -> bool {
        true
    }

    open spec fn from_spec(q: GQuat<T>) -> (T, T, T, T) {
        (q.x, q.y, q.z, q.w)
    }
}

impl<T: Copy> From<GRot2<T>> for GVec2<T> {
    /// The vector `(cos, sin)`.
    fn from(r: GRot2<T>) -> (out: GVec2<T>) {
        GVec2 { x: r.cos, y: r.sin }
    }
}

impl<T: Copy> vstd::std_specs::convert::FromSpecImpl<GRot2<T>> for GVec2<T> {
    open spec fn obeys_from_spec() -> bool {
        true
    }

    open spec fn from_spec(r: GRot2<T>) -> GVec2<T> {
        GVec2 { x: r.cos, y: r.sin }
    }
}

impl<T: Copy> From<[T; 2]> for GRot2<T> {
    /// The rotation with cosine `a[0]` and sine `a[1]`.
    fn from(a: [T; 2]) -> (out: GRot2<T>) {
        GRot2 { cos: a[0], sin: a[1] }
    }
}

impl<T: Copy> vstd::std_specs::convert::FromSpecImpl<[T; 2]> for GRot2<T> {
    open spec fn obeys_from_spec() -> bool {
        true
    }

    open spec fn from_spec(a: [T; 2]) -> GRot2<T> {
        GRot2 { cos: a@[0], sin: a@[1] }
    }
}

impl<T: Copy> From<GRot2<T>> for [T; 2] {
    /// The array `[cos, sin]`.
    fn from(r: GRot2<T>) -> (out: [T; 2]) {
        [r.cos, r.sin]
    }
}

impl<T: Copy> vstd::std_specs::convert::FromSpecImpl<GRot2<T>> for [T; 2] {
    open spec fn obeys_from_spec() -> bool {
        true
    }

    open spec fn from_spec(r: GRot2<T>) -> [T; 2] {
        [r.cos, r.sin]
    }
}

impl<T: Copy> From<(T, T)> for GRot2<T> {
    /// The rotation with cosine `t.0` and sine `t.1`.
    fn from(t: (T, T)) -> (out: GRot2<T>) {
        GRot2 { cos: t.0, sin: t.1 }
    }
}

impl<T: Copy> vstd::std_specs::convert::FromSpecImpl<(T, T)> for GRot2<T> {
    open spec fn obeys_from_spec() -> bool {
        true
    }

    open spec fn from_spec(t: (T, T)) -> GRot2<T> {
        GRot2 { cos: t.0, sin: t.1 }
    }
}

impl<T: Copy> From<GRot2<T>> for (T, T) {
    /// The tuple `(cos, sin)`.
    fn from(r: GRot2<T>) -> (out: (T, T)) {
        (r.cos, r.sin)
    }
}

impl<T: Copy> vstd::std_specs::convert::FromSpecImpl<GRot2<T>> for (T, T) {
    open spec fn obeys_from_spec() -> bool {
        true
    }

    open spec fn from_spec(r: GRot2<T>) -> (T, T) {
        (r.cos, r.sin)
    }
}

impl From<GQuat<u32>> for Rot3A {
    /// The SIMD-aligned quaternion with the same components.
    fn from(q: GQuat<u32>) -> (out: Rot3A) {
        Rot3A::from_quat(q)
    }
}

impl vstd::std_specs::convert::FromSpecImpl<GQuat<u32>> for Rot3A {
    open spec fn obeys_from_spec() -> bool {
        true
    }

    open spec fn from_spec(q: GQuat<u32>) -> Rot3A {
        Rot3A::spec_from_quat(q)
    }
}

impl From<Rot3A> for GQuat<u32> {
    /// The generic quaternion with the same components.
    fn from(q: Rot3A) -> (out: GQuat<u32>) {
        q.to_quat()
    }
}

impl vstd::std_specs::convert::FromSpecImpl<Rot3A> for GQuat<u32> {
    open spec fn obeys_from_spec() -> bool {
        true
    }

    open spec fn from_spec(q: Rot3A) -> GQuat<u32> {
        q.spec_to_quat()
    }
}

impl From<Rot3A> for GVec4<u32> {
    /// The vector `(x, y, z, w)` of the components.
    fn from(q: Rot3A) -> (out: GVec4<u32>) {
        GVec4 { x: q.x, y: q.y, z: q.z, w: q.w }
    }
}

impl vstd::std_specs::convert::FromSpecImpl<Rot3A> for GVec4<u32> {
    open spec fn obeys_from_spec() -> bool {
        true
    }

    open spec fn from_spec(q: Rot3A) -> GVec4<u32> {
        GVec4 { x: q.x, y: q.y, z: q.z, w: q.w }
    }
}

impl From<Rot3A> for Vec4A {
    /// The SIMD-aligned vector `(x, y, z, w)` of the components.
    fn from(q: Rot3A) -> (out: Vec4A) {
        Vec4A { x: q.x, y: q.y, z: q.z, w: q.w }
    }
}

impl vstd::std_specs::convert::FromSpecImpl<Rot3A> for Vec4A {
    open spec fn obeys_from_spec() -> bool {
        true
    }

    open spec fn from_spec(q: Rot3A) -> Vec4A {
        Vec4A { x: q.x, y: q.y, z: q.z, w: q.w }
    }
}

impl From<[u32; 4]> for Rot3A {
    /// The quaternion `(a[0], a[1], a[2], a[3])`.
    fn from(a: [u32; 4]) -> (out: Rot3A) {
        Rot3A { x: a[0], y: a[1], z: a[2], w: a[3] }
    }
}

impl vstd::std_specs::convert::FromSpecImpl<[u32; 4]> for Rot3A {
    open spec fn obeys_from_spec() -> bool {
        true
    }

    open spec fn from_spec(a: [u32; 4]) -> Rot3A {
        Rot3A { x: a@[0], y: a@[1], z: a@[2], w: a@[3] }
    }
}

impl From<Rot3A> for [u32; 4] {
    /// The array `[x, y, z, w]`.
    fn from(q: Rot3A) -> (out: [u32; 4]) {
        [q.x, q.y, q.z, q.w]
    }
}

impl vstd::std_specs::convert::FromSpecImpl<Rot3A> for [u32; 4] {
    open spec fn obeys_from_spec() -> bool {
        true
    }

    open spec fn from_spec(q: Rot3A) -> [u32; 4] {
        [q.x, q.y, q.z, q.w]
    }
}

impl From<(u32, u32, u32, u32)> for Rot3A {
    /// The quaternion of the four components in order.
    fn from(t: (u32, u32, u32, u32)) -> (out: Rot3A) {
        Rot3A { x: t.0, y: t.1, z: t.2, w: t.3 }
    }
}

impl vstd::std_specs::convert::FromSpecImpl<(u32, u32, u32, u32)> for Rot3A {
    open spec fn obeys_from_spec() -> bool {
        true
    }

    open spec fn from_spec(t: (u32, u32, u32, u32)) -> Rot3A {
        Rot3A { x: t.0, y: t.1, z: t.2, w: t.3 }
    }
}

impl From<Rot3A> for (u32, u32, u32, u32) {
    /// The tuple `(x, y, z, w)`.
    fn from(q: Rot3A) -> (out: (u32, u32, u32, u32)) {
        (q.x, q.y, q.z, q.w)
    }
}

impl vstd::std_specs::convert::FromSpecImpl<Rot3A> for (u32, u32, u32, u32) {
    open spec fn obeys_from_spec() -> bool {
        true
    }

    open spec fn from_spec(q: Rot3A) -> (u32, u32, u32, u32) {
        (q.x, q.y, q.z, q.w)
    }
}

impl From<GIso3<u32>> for Iso3A {
    /// The SIMD-aligned isometry with the same components.
    fn from(i: GIso3<u32>) -> (out: Iso3A) {
        Iso3A::from_iso3(i)
    }
}

impl vstd::std_specs::convert::FromSpecImpl<GIso3<u32>> for Iso3A {
    open spec fn obeys_from_spec() -> bool {
        true
    }

    open spec fn from_spec(i: GIso3<u32>) -> Iso3A {
        Iso3A::spec_from_iso3(i)
    }
}

impl From<Iso3A> for GIso3<u32> {
    /// The generic isometry with the same components.
    fn from(i: Iso3A) -> (out: GIso3<u32>) {
        i.to_iso3()
    }
}

impl vstd::std_specs::convert::FromSpecImpl<Iso3A> for GIso3<u32> {
    open spec fn obeys_from_spec() -> bool {
        true
    }

    open spec fn from_spec(i: Iso3A) -> GIso3<u32> {
        i.spec_to_iso3()
    }
}

impl From<GMat2<u32>> for Mat2A {
    /// The SIMD-aligned matrix with the same columns.
    fn from(m: GMat2<u32>) -> (out: Mat2A) {
        Mat2A::from_mat2(m)
    }
}

impl vstd::std_specs::convert::FromSpecImpl<GMat2<u32>> for Mat2A {
    open spec fn obeys_from_spec() -> bool {
        true
    }

    open spec fn from_spec(m: GMat2<u32>) -> Mat2A {
        Mat2A::spec_from_mat2(m)
    }
}

impl From<Mat2A> for GMat2<u32> {
    /// The generic matrix with the same columns.
    fn from(m: Mat2A) -> (out: GMat2<u32>) {
        m.to_mat2()
    }
}

impl vstd::std_specs::convert::FromSpecImpl<Mat2A> for GMat2<u32> {
    open spec fn obeys_from_spec() -> bool {
        true
    }

    open spec fn from_spec(m: Mat2A) -> GMat2<u32> {
        m.spec_to_mat2()
    }
}

impl From<GMat3<u32>> for Mat3A {
    /// The SIMD-aligned matrix with the same columns.
    fn from(m: GMat3<u32>) -> (out: Mat3A) {
        Mat3A::from_mat3(m)
    }
}

impl vstd::std_specs::convert::FromSpecImpl<GMat3<u32>> for Mat3A {
    open spec fn obeys_from_spec() -> bool {
        true
    }

    open spec fn from_spec(m: GMat3<u32>) -> Mat3A {
        Mat3A::spec_from_mat3(m)
    }
}

impl From<Mat3A> for GMat3<u32> {
    /// The generic matrix with the same columns.
    fn from(m: Mat3A) -> (out: GMat3<u32>) {
        m.to_mat3()
    }
}

impl vstd::std_specs::convert::FromSpecImpl<Mat3A> for GMat3<u32> {
    open spec fn obeys_from_spec() -> bool {
        true
    }

    open spec fn from_spec(m: Mat3A) -> GMat3<u32> {
        GMat3 {
            x_axis: GVec3 { x: m.x_axis.x, y: m.x_axis.y, z: m.x_axis.z },
            y_axis: GVec3 { x: m.y_axis.x, y: m.y_axis.y, z: m.y_axis.z },
            z_axis: GVec3 { x: m.z_axis.x, y: m.z_axis.y, z: m.z_axis.z },
        }
    }
}

impl From<GMat4<u32>> for Mat4A {
    /// The SIMD-aligned matrix with the same columns.
    fn from(m: GMat4<u32>) -> (out: Mat4A) {
        Mat4A {
            x_axis: Vec4A::from_vec4(m.x_axis),
            y_axis: Vec4A::from_vec4(m.y_axis),
            z_axis: Vec4A::from_vec4(m.z_axis),
            w_axis: Vec4A::from_vec4(m.w_axis),
        }
    }
}

impl vstd::std_specs::convert::FromSpecImpl<GMat4<u32>> for Mat4A {
    open spec fn obeys_from_spec() -> bool {
        true
    }

    open spec fn from_spec(m: GMat4<u32>) -> Mat4A {
        Mat4A {
            x_axis: Vec4A::spec_from_vec4(m.x_axis),
            y_axis: Vec4A::spec_from_vec4(m.y_axis),
            z_axis: Vec4A::spec_from_vec4(m.z_axis),
            w_axis: Vec4A::spec_from_vec4(m.w_axis),
        }
    }
}

impl From<Mat4A> for GMat4<u32> {
    /// The generic matrix with the same columns.
    fn from(m: Mat4A) -> (out: GMat4<u32>) {
        GMat4 {
            x_axis: m.x_axis.to_vec4(),
            y_axis: m.y_axis.to_vec4(),
            z_axis: m.z_axis.to_vec4(),
            w_axis: m.w_axis.to_vec4(),
        }
    }
}

impl vstd::std_specs::convert::FromSpecImpl<Mat4A> for GMat4<u32> {
    open spec fn obeys_from_spec() -> bool {
        true
    }

    open spec fn from_spec(m: Mat4A) -> GMat4<u32> {
        GMat4 {
            x_axis: GVec4 { x: m.x_axis.x, y: m.x_axis.y, z: m.x_axis.z, w: m.x_axis.w },
            y_axis: GVec4 { x: m.y_axis.x, y: m.y_axis.y, z: m.y_axis.z, w: m.y_axis.w },
            z_axis: GVec4 { x: m.z_axis.x, y: m.z_axis.y, z: m.z_axis.z, w: m.z_axis.w },
            w_axis: GVec4 { x: m.w_axis.x, y: m.w_axis.y, z: m.w_axis.z, w: m.w_axis.w },
        }
    }
}

impl From<GAffine3<u32>> for GMat4<u32> {
    /// The homogeneous 4x4 matrix of a 3D affine transform of binary32 encodings: the columns of
    /// the 3x3 part extended with 0 and the translation extended with 1.
    fn from(a: GAffine3<u32>) -> (out: GMat4<u32>) {
        GMat4 {
            x_axis: GVec4 {
                x: a.matrix3.x_axis.x,
                y: a.matrix3.x_axis.y,
                z: a.matrix3.x_axis.z,
                w: bits::ZERO_BITS,
            },
            y_axis: GVec4 {
                x: a.matrix3.y_axis.x,
                y: a.matrix3.y_axis.y,
                z: a.matrix3.y_axis.z,
                w: bits::ZERO_BITS,
            },
            z_axis: GVec4 {
                x: a.matrix3.z_axis.x,
                y: a.matrix3.z_axis.y,
                z: a.matrix3.z_axis.z,
                w: bits::ZERO_BITS,
            },
            w_axis: GVec4 {
                x: a.translation.x,
                y: a.translation.y,
                z: a.translation.z,
                w: bits::ONE_BITS,
            },
        }
    }
}

impl vstd::std_specs::convert::FromSpecImpl<GAffine3<u32>> for GMat4<u32> {
    open spec fn obeys_from_spec() -> bool {
        true
    }

    open spec fn from_spec(a: GAffine3<u32>) -> GMat4<u32> {
        spec_affine3_to_mat4(a)
    }
}

impl From<GAffine2<u32>> for GMat3<u32> {
    /// The homogeneous 3x3 matrix of a 2D affine transform of binary32 encodings: the columns of
    /// the 2x2 part extended with 0 and the translation extended with 1.
    fn from(a: GAffine2<u32>) -> (out: GMat3<u32>) {
        GMat3 {
            x_axis: GVec3 { x: a.matrix2.x_axis.x, y: a.matrix2.x_axis.y, z: bits::ZERO_BITS },
            y_axis: GVec3 { x: a.matrix2.y_axis.x, y: a.matrix2.y_axis.y, z: bits::ZERO_BITS },
            z_axis: GVec3 { x: a.translation.x, y: a.translation.y, z: bits::ONE_BITS },
        }
    }
}

impl vstd::std_specs::convert::FromSpecImpl<GAffine2<u32>> for GMat3<u32> {
    open spec fn obeys_from_spec() -> bool {
        true
    }

    open spec fn from_spec(a: GAffine2<u32>) -> GMat3<u32> {
        spec_affine2_to_mat3(a)
    }
}

impl From<Affine3A> for GMat4<u32> {
    /// The homogeneous 4x4 matrix of the transform.
    fn from(affine: Affine3A) -> (out: GMat4<u32>) {
        GMat4::from(affine.to_affine3())
    }
}

impl vstd::std_specs::convert::FromSpecImpl<Affine3A> for GMat4<u32> {
    open spec fn obeys_from_spec() -> bool {
        true
    }

    open spec fn from_spec(affine: Affine3A) -> GMat4<u32> {
        GMat4 {
            x_axis: GVec4 {
                x: affine.matrix3.x_axis.x,
                y: affine.matrix3.x_axis.y,
                z: affine.matrix3.x_axis.z,
                w: bits::ZERO_BITS,
            },
            y_axis: GVec4 {
                x: affine.matrix3.y_axis.x,
                y: affine.matrix3.y_axis.y,
                z: affine.matrix3.y_axis.z,
                w: bits::ZERO_BITS,
            },
            z_axis: GVec4 {
                x: affine.matrix3.z_axis.x,
                y: affine.matrix3.z_axis.y,
                z: affine.matrix3.z_axis.z,
                w: bits::ZERO_BITS,
            },
            w_axis: GVec4 {
                x: affine.translation.x,
                y: affine.translation.y,
                z: affine.translation.z,
                w: bits::ONE_BITS,
            },
        }
    }
}

impl From<Affine2A> for GMat3<u32> {
    /// The homogeneous 3x3 matrix of the transform.
    fn from(affine: Affine2A) -> (out: GMat3<u32>) {
        GMat3::from(affine.to_affine2())
    }
}

impl vstd::std_specs::convert::FromSpecImpl<Affine2A> for GMat3<u32> {
    open spec fn obeys_from_spec() -> bool {
        true
    }

    open spec fn from_spec(affine: Affine2A) -> GMat3<u32> {
        GMat3 {
            x_axis: GVec3 {
                x: affine.matrix2.x_axis.x,
                y: affine.matrix2.x_axis.y,
                z: bits::ZERO_BITS,
            },
            y_axis: GVec3 {
                x: affine.matrix2.y_axis.x,
                y: affine.matrix2.y_axis.y,
                z: bits::ZERO_BITS,
            },
            z_axis: GVec3 { x: affine.translation.x, y: affine.translation.y, z: bits::ONE_BITS },
        }
    }
}

impl From<GAffine3<u32>> for Affine3A {
    /// The SIMD-aligned transform with the same components.
    fn from(a: GAffine3<u32>) -> (out: Affine3A) {
        Affine3A::from_affine3(a)
    }
}

impl vstd::std_specs::convert::FromSpecImpl<GAffine3<u32>> for Affine3A {
    open spec fn obeys_from_spec() -> bool {
        true
    }

    open spec fn from_spec(a: GAffine3<u32>) -> Affine3A {
        Affine3A {
            matrix3: Mat3A::spec_from_mat3(a.matrix3),
            translation: Vec3A::spec_from_vec3(a.translation),
        }
    }
}

impl From<Affine3A> for GAffine3<u32> {
    /// The generic transform with the same components.
    fn from(a: Affine3A) -> (out: GAffine3<u32>) {
        a.to_affine3()
    }
}

impl vstd::std_specs::convert::FromSpecImpl<Affine3A> for GAffine3<u32> {
    open spec fn obeys_from_spec() -> bool {
        true
    }

    open spec fn from_spec(a: Affine3A) -> GAffine3<u32> {
        GAffine3 {
            matrix3: GMat3 {
                x_axis: GVec3 {
                    x: a.matrix3.x_axis.x,
                    y: a.matrix3.x_axis.y,
                    z: a.matrix3.x_axis.z,
                },
                y_axis: GVec3 {
                    x: a.matrix3.y_axis.x,
                    y: a.matrix3.y_axis.y,
                    z: a.matrix3.y_axis.z,
                },
                z_axis: GVec3 {
                    x: a.matrix3.z_axis.x,
                    y: a.matrix3.z_axis.y,
                    z: a.matrix3.z_axis.z,
                },
            },
            translation: GVec3 { x: a.translation.x, y: a.translation.y, z: a.translation.z },
        }
    }
}

impl From<GAffine2<u32>> for Affine2A {
    /// The SIMD-aligned transform with the same components.
    fn from(a: GAffine2<u32>) -> (out: Affine2A) {
        Affine2A::from_affine2(a)
    }
}

impl vstd::std_specs::convert::FromSpecImpl<GAffine2<u32>> for Affine2A {
    open spec fn obeys_from_spec() -> bool {
        true
    }

    open spec fn from_spec(a: GAffine2<u32>) -> Affine2A {
        Affine2A { matrix2: Mat2A::spec_from_mat2(a.matrix2), translation: a.translation }
    }
}

impl From<Affine2A> for GAffine2<u32> {
    /// The generic transform with the same components.
    fn from(a: Affine2A) -> (out: GAffine2<u32>) {
        a.to_affine2()
    }
}

impl vstd::std_specs::convert::FromSpecImpl<Affine2A> for GAffine2<u32> {
    open spec fn obeys_from_spec() -> bool {
        true
    }

    open spec fn from_spec(a: Affine2A) -> GAffine2<u32> {
        GAffine2 { matrix2: a.matrix2.spec_to_mat2(), translation: a.translation }
    }
}

} // verus!
