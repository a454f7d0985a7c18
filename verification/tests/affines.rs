use gela::affine::{Affine2A, Affine3A, GAffine2, GAffine3};
use gela::matrix::{GMat3, GMat4, Mat2A, Mat3A};
use gela::vector::{GVec2, GVec3, Vec3A};

fn b(v: f32) -> u32 {
    v.to_bits()
}

fn f(bits: u32) -> f32 {
    f32::from_bits(bits)
}

#[test]
fn affine3a_arrays() {
    let vals: [f32; 12] = core::array::from_fn(|i| (i + 1) as f32);
    let a = Affine3A::from_cols_array(&vals.map(b));
    assert_eq!(a.to_cols_array().map(f), vals);
    assert_eq!(a.translation.to_array().map(f), [10.0, 11.0, 12.0]);
    assert_eq!(a.matrix3.y_axis.to_array().map(f), [4.0, 5.0, 6.0]);
    let twod = a.to_cols_array_2d();
    assert_eq!(twod[3].map(f), [10.0, 11.0, 12.0]);
    assert!(Affine3A::from_cols_array_2d(&twod) == a);
    let mut slice = [0u32; 13];
    a.write_cols_to_slice(&mut slice);
    assert_eq!(slice[12], 0);
    assert!(Affine3A::from_cols_slice(&slice) == a);
    let cols = a.to_cols4();
    assert!(cols.w_axis == a.translation);
    assert!(Affine3A::from_affine3(a.to_affine3()) == a);
}

#[test]
fn affine3a_constants_and_classification() {
    let id = Affine3A::identity();
    assert_eq!(
        id.to_cols_array().map(f),
        [1.0, 0.0, 0.0, 0.0, 1.0, 0.0, 0.0, 0.0, 1.0, 0.0, 0.0, 0.0]
    );
    assert!(Affine3A::default() == id);
    assert!(id.is_finite());
    assert!(!id.is_nan());
    assert!(Affine3A::nan().is_nan());
    assert!(Affine3A::nan() != Affine3A::nan());
    assert_eq!(Affine3A::zero().to_cols_array(), [0; 12]);
    let mut t = id;
    t.translation = Vec3A::new(b(f32::INFINITY), 0, 0);
    assert!(!t.is_finite());
    assert!(!t.is_nan());
    assert!(Affine3A::select(true, t, id) == t);
    assert!(Affine3A::select(false, t, id) == id);
}

#[test]
fn affine3a_from_matrices() {
    let m4 = GMat4::from_cols_array(&core::array::from_fn::<f32, 16, _>(|i| i as f32).map(b));
    let a = Affine3A::from_mat4(m4);
    assert_eq!(
        a.to_cols_array().map(f),
        [0.0, 1.0, 2.0, 4.0, 5.0, 6.0, 8.0, 9.0, 10.0, 12.0, 13.0, 14.0]
    );
    let m3 = GMat3::from_cols_array(&[1.0f32; 9].map(b));
    let a = Affine3A::from_mat3_translation(m3, GVec3::new(b(2.0), b(3.0), b(4.0)));
    assert_eq!(a.translation.to_array().map(f), [2.0, 3.0, 4.0]);
    assert!(a.matrix3 == Mat3A::from_mat3(m3));
    let a = Affine3A::from_cols(Vec3A::unit_x(), Vec3A::unit_y(), Vec3A::unit_z(), Vec3A::zero());
    assert!(a == Affine3A::identity());
}

#[test]
fn affine2a_basics() {
    let vals = [1.0f32, 2.0, 3.0, 4.0, 5.0, 6.0];
    let a = Affine2A::from_cols_array(&vals.map(b));
    assert_eq!(a.to_cols_array().map(f), vals);
    assert_eq!(a.translation.to_array().map(f), [5.0, 6.0]);
    assert!(Affine2A::from_cols_array_2d(&a.to_cols_array_2d()) == a);
    assert!(Affine2A::default() == Affine2A::identity());
    assert!(Affine2A::nan().is_nan());
    assert!(Affine2A::identity().is_finite());
    let m = Mat2A::identity();
    assert_eq!(Affine2A::from_mat2(m).to_cols_array().map(f), [1.0, 0.0, 0.0, 1.0, 0.0, 0.0]);
    let t = Affine2A::from_mat2_translation(m, GVec2::new(b(7.0), b(8.0)));
    assert_eq!(t.to_cols3().z_axis.to_array().map(f), [7.0, 8.0]);
    let m3 = GMat3::from_cols_array(&[1.0f32, 2.0, 3.0, 4.0, 5.0, 6.0, 7.0, 8.0, 9.0].map(b));
    assert_eq!(Affine2A::from_mat3(m3).to_cols_array().map(f), [1.0, 2.0, 4.0, 5.0, 7.0, 8.0]);
    assert!(Affine2A::from_affine2(a.to_affine2()) == a);
    let mut s = [0u32; 6];
    a.write_cols_to_slice(&mut s);
    assert!(Affine2A::from_cols_slice(&s) == a);
}

#[test]
fn generic_affines() {
    let a = GAffine3::from_cols_array(&[1, 2, 3, 4, 5, 6, 7, 8, 9, 10, 11, 12]);
    assert_eq!(a.translation.to_array(), [10, 11, 12]);
    assert_eq!(a.to_cols_array_2d()[2], [7, 8, 9]);
    let m4 = GMat4::from_cols_array(&core::array::from_fn::<i32, 16, _>(|i| i as i32));
    assert_eq!(GAffine3::from_mat4(m4).to_cols_array(), [0, 1, 2, 4, 5, 6, 8, 9, 10, 12, 13, 14]);
    let g = GAffine2::from_cols_array(&[1.0f64, 2.0, 3.0, 4.0, 5.0, 6.0]);
    assert_eq!(g.matrix2.to_cols_array(), [1.0, 2.0, 3.0, 4.0]);
    let m3 = GMat3::from_cols_array(&[1, 2, 3, 4, 5, 6, 7, 8, 9]);
    assert_eq!(GAffine2::from_mat3(m3).to_cols_array(), [1, 2, 4, 5, 7, 8]);
    assert_eq!(GAffine2::select(false, g, GAffine2::from_cols_array(&[0.0; 6])).to_cols_array(), [0.0; 6]);
}

#[test]
fn affine_transform_builders() {
    let t = Affine3A::from_translation(GVec3::new(b(1.0), b(2.0), b(3.0)));
    assert_eq!(
        t.to_cols_array().map(f),
        [1.0, 0.0, 0.0, 0.0, 1.0, 0.0, 0.0, 0.0, 1.0, 1.0, 2.0, 3.0]
    );
    let s = Affine3A::from_scale(GVec3::new(b(2.0), b(3.0), b(4.0)));
    assert_eq!(
        s.to_cols_array().map(f),
        [2.0, 0.0, 0.0, 0.0, 3.0, 0.0, 0.0, 0.0, 4.0, 0.0, 0.0, 0.0]
    );
    let m3 = GMat3::from_cols_array(&core::array::from_fn::<f32, 9, _>(|i| (i + 1) as f32).map(b));
    let m = Affine3A::from_mat3(m3);
    assert_eq!(
        m.to_cols_array().map(f),
        [1.0, 2.0, 3.0, 4.0, 5.0, 6.0, 7.0, 8.0, 9.0, 0.0, 0.0, 0.0]
    );
    let t2 = Affine2A::from_translation(GVec2::new(b(5.0), b(6.0)));
    assert_eq!(t2.to_cols_array().map(f), [1.0, 0.0, 0.0, 1.0, 5.0, 6.0]);
    let s2 = Affine2A::from_scale(GVec2::new(b(2.0), b(3.0)));
    assert_eq!(s2.to_cols_array().map(f), [2.0, 0.0, 0.0, 3.0, 0.0, 0.0]);
}
