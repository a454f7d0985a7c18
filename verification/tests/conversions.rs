use gela::affine::{Affine2A, Affine3A, GAffine2, GAffine3};
use gela::isometry::{GIso3, Iso3A};
use gela::matrix::{GMat2, GMat3, GMat4, Mat2A, Mat3A, Mat4A};
use gela::rotation::{GQuat, GRot2, Rot3A};
use gela::vector::{GVec2, GVec3, GVec4, Vec4A};

fn b(v: f32) -> u32 {
    v.to_bits()
}

fn f(bits: u32) -> f32 {
    f32::from_bits(bits)
}

#[test]
fn vectors_from_arrays_and_tuples() {
    let v: GVec4<i32> = GVec4::from([1, 2, 3, 4]);
    assert_eq!(v.to_array(), [1, 2, 3, 4]);
    let a: [i32; 4] = v.into();
    assert_eq!(a, [1, 2, 3, 4]);
    let t: (i32, i32, i32, i32) = v.into();
    assert_eq!(t, (1, 2, 3, 4));
    assert_eq!(GVec4::from((5, 6, 7, 8)).to_array(), [5, 6, 7, 8]);
    assert_eq!(GVec4::from((GVec3::new(1, 2, 3), 4)).to_array(), [1, 2, 3, 4]);
    assert_eq!(GVec4::from((GVec2::new(1, 2), 3, 4)).to_array(), [1, 2, 3, 4]);
    assert_eq!(GVec4::from((GVec2::new(1, 2), GVec2::new(3, 4))).to_array(), [1, 2, 3, 4]);
}

#[test]
fn rotations_from_arrays_and_tuples() {
    let q: GQuat<u8> = GQuat::from([1, 2, 3, 4]);
    assert_eq!(GVec4::from(q).to_array(), [1, 2, 3, 4]);
    let a: [u8; 4] = q.into();
    assert_eq!(a, [1, 2, 3, 4]);
    let t: (u8, u8, u8, u8) = q.into();
    assert_eq!(t, (1, 2, 3, 4));
    assert_eq!(GQuat::from((4, 3, 2, 1)).to_array(), [4, 3, 2, 1]);
    let r: GRot2<u8> = GRot2::from([5, 6]);
    assert_eq!(GVec2::from(r).to_array(), [5, 6]);
    let ra: [u8; 2] = r.into();
    assert_eq!(ra, [5, 6]);
    let rt: (u8, u8) = r.into();
    assert_eq!(rt, (5, 6));
    assert_eq!(GRot2::from((7, 8)).to_array(), [7, 8]);
    let s = Rot3A::from([b(0.0), b(0.0), b(0.0), b(1.0)]);
    assert!(s == Rot3A::identity());
    assert!(Rot3A::from((b(0.0), b(0.0), b(0.0), b(1.0))) == s);
    let sa: [u32; 4] = s.into();
    assert_eq!(sa.map(f), [0.0, 0.0, 0.0, 1.0]);
    let st: (u32, u32, u32, u32) = s.into();
    assert_eq!(f(st.3), 1.0);
    assert_eq!(GVec4::from(s).to_array().map(f), [0.0, 0.0, 0.0, 1.0]);
    assert!(Vec4A::from(s) == Vec4A::unit_w());
    let g: GQuat<u32> = s.into();
    assert!(Rot3A::from(g) == s);
}

#[test]
fn matrices_and_transforms() {
    let m2 = Mat2A::from_cols_array(&[1.0f32, 2.0, 3.0, 4.0].map(b));
    let g2: GMat2<u32> = m2.into();
    assert!(Mat2A::from(g2) == m2);
    let m3 = Mat3A::from_cols_array(&core::array::from_fn::<f32, 9, _>(|i| i as f32).map(b));
    let g3: GMat3<u32> = m3.into();
    assert_eq!(g3.to_cols_array().map(f), core::array::from_fn::<f32, 9, _>(|i| i as f32));
    assert!(Mat3A::from(g3) == m3);
    let m4 = Mat4A::from_cols_array(&core::array::from_fn::<f32, 16, _>(|i| i as f32).map(b));
    let g4: GMat4<u32> = m4.into();
    assert!(Mat4A::from(g4) == m4);
    let a3 = Affine3A::from_cols_array(&core::array::from_fn::<f32, 12, _>(|i| (i + 1) as f32).map(b));
    let ga3: GAffine3<u32> = a3.into();
    assert!(Affine3A::from(ga3) == a3);
    let h4: GMat4<u32> = a3.into();
    assert_eq!(
        h4.to_cols_array().map(f),
        [1.0, 2.0, 3.0, 0.0, 4.0, 5.0, 6.0, 0.0, 7.0, 8.0, 9.0, 0.0, 10.0, 11.0, 12.0, 1.0]
    );
    assert_eq!(GMat4::from(ga3).to_cols_array(), h4.to_cols_array());
    assert_eq!(GAffine3::from_mat4(h4).to_cols_array(), ga3.to_cols_array());
    assert_eq!(h4.row(3).to_array().map(f), [0.0, 0.0, 0.0, 1.0]);
    let a2 = Affine2A::from_cols_array(&[1.0f32, 2.0, 3.0, 4.0, 5.0, 6.0].map(b));
    let ga2: GAffine2<u32> = a2.into();
    assert!(Affine2A::from(ga2) == a2);
    let h3: GMat3<u32> = a2.into();
    assert_eq!(h3.to_cols_array().map(f), [1.0, 2.0, 0.0, 3.0, 4.0, 0.0, 5.0, 6.0, 1.0]);
    assert_eq!(GMat3::from(ga2).to_cols_array(), h3.to_cols_array());
    assert_eq!(GAffine2::from_mat3(h3).to_cols_array(), ga2.to_cols_array());
    assert_eq!(h3.row(2).to_array().map(f), [0.0, 0.0, 1.0]);
    let iso = Iso3A::identity();
    let gi: GIso3<u32> = iso.into();
    assert!(Iso3A::from(gi) == iso);
}
