use gela::matrix::{GMat2, GMat3, GMat4, Mat2A, Mat3A, Mat4A, mat3a, mat4a, shuffle};
use gela::vector::{GVec2, GVec3, GVec4, Vec3A, Vec4A};

fn b(v: f32) -> u32 {
    v.to_bits()
}

fn f(bits: u32) -> f32 {
    f32::from_bits(bits)
}

fn mat3(vals: [f32; 9]) -> Mat3A {
    Mat3A::from_cols_array(&vals.map(b))
}

fn mat4(vals: [f32; 16]) -> Mat4A {
    Mat4A::from_cols_array(&vals.map(b))
}

#[test]
fn mat3a_cols_array_round_trip() {
    let vals = [1.0, 2.0, 3.0, 4.0, 5.0, 6.0, 7.0, 8.0, 9.0];
    let m = mat3(vals);
    assert_eq!(m.x_axis.to_array().map(f), [1.0, 2.0, 3.0]);
    assert_eq!(m.z_axis.to_array().map(f), [7.0, 8.0, 9.0]);
    assert_eq!(m.to_cols_array().map(f), vals);
    let back = Mat3A::from_cols_array(&m.to_cols_array());
    assert!(back == m);
    let twod = m.to_cols_array_2d();
    assert_eq!(twod[1].map(f), [4.0, 5.0, 6.0]);
    assert!(Mat3A::from_cols_array_2d(&twod) == m);
}

#[test]
fn mat3a_rows_columns_and_transpose() {
    let m = mat3([1.0, 2.0, 3.0, 4.0, 5.0, 6.0, 7.0, 8.0, 9.0]);
    assert_eq!(m.col(1).to_array().map(f), [4.0, 5.0, 6.0]);
    assert_eq!(m.row(0).to_array().map(f), [1.0, 4.0, 7.0]);
    assert_eq!(m.row(2).to_array().map(f), [3.0, 6.0, 9.0]);
    let t = m.transpose();
    assert_eq!(t.to_cols_array().map(f), [1.0, 4.0, 7.0, 2.0, 5.0, 8.0, 3.0, 6.0, 9.0]);
    for i in 0..3 {
        assert!(t.col(i) == m.row(i));
    }
    assert!(t.transpose() == m);
    assert_eq!(m.diagonal().to_array().map(f), [1.0, 5.0, 9.0]);
}

#[test]
fn mat3a_col_mut_changes_one_column() {
    let mut m = mat3([1.0, 2.0, 3.0, 4.0, 5.0, 6.0, 7.0, 8.0, 9.0]);
    *m.col_mut(2) = Vec3A::new(b(-1.0), b(-2.0), b(-3.0));
    assert_eq!(m.to_cols_array().map(f), [1.0, 2.0, 3.0, 4.0, 5.0, 6.0, -1.0, -2.0, -3.0]);
}

#[test]
fn mat3a_slices() {
    let m = mat3([1.0, 2.0, 3.0, 4.0, 5.0, 6.0, 7.0, 8.0, 9.0]);
    let mut out = [b(0.5); 11];
    m.write_cols_to_slice(&mut out);
    assert_eq!(out.map(f), [1.0, 2.0, 3.0, 4.0, 5.0, 6.0, 7.0, 8.0, 9.0, 0.5, 0.5]);
    assert!(Mat3A::from_cols_slice(&out) == m);
}

#[test]
fn mat3a_constants_and_default() {
    assert_eq!(
        Mat3A::identity().to_cols_array().map(f),
        [1.0, 0.0, 0.0, 0.0, 1.0, 0.0, 0.0, 0.0, 1.0]
    );
    assert!(Mat3A::default() == Mat3A::identity());
    assert_eq!(Mat3A::zero().to_cols_array().map(f), [0.0; 9]);
    assert!(Mat3A::nan().is_nan());
    assert!(!Mat3A::nan().is_finite());
    assert!(Mat3A::identity().is_finite());
    assert!(!Mat3A::identity().is_nan());
}

#[test]
fn mat3a_classification_and_abs() {
    let m = mat3([1.0, -2.0, 3.0, -0.0, 5.0, 6.0, 7.0, 8.0, -9.0]);
    assert_eq!(m.abs().to_cols_array().map(f), [1.0, 2.0, 3.0, 0.0, 5.0, 6.0, 7.0, 8.0, 9.0]);
    assert_eq!(m.abs().to_cols_array()[3], 0);
    let inf = mat3([1.0, 2.0, f32::INFINITY, 4.0, 5.0, 6.0, 7.0, 8.0, 9.0]);
    assert!(!inf.is_finite());
    assert!(!inf.is_nan());
    let nan = mat3([1.0, 2.0, 3.0, 4.0, f32::NAN, 6.0, 7.0, 8.0, 9.0]);
    assert!(nan.is_nan());
    assert!(!nan.is_finite());
    assert!(nan.abs().is_nan());
}

#[test]
fn mat3a_equality_follows_ieee() {
    let a = mat3([0.0, 1.0, 2.0, 3.0, 4.0, 5.0, 6.0, 7.0, 8.0]);
    let negative_zero = mat3([-0.0, 1.0, 2.0, 3.0, 4.0, 5.0, 6.0, 7.0, 8.0]);
    assert!(a == negative_zero);
    let nan = mat3([f32::NAN, 1.0, 2.0, 3.0, 4.0, 5.0, 6.0, 7.0, 8.0]);
    assert!(nan != nan);
    assert!(a != mat3([0.0, 1.0, 2.0, 3.0, 4.0, 5.0, 6.0, 7.0, 8.5]));
}

#[test]
fn mat3a_select_and_constructors() {
    let a = Mat3A::identity();
    let z = Mat3A::zero();
    assert!(Mat3A::select(true, a, z) == a);
    assert!(Mat3A::select(false, a, z) == z);
    let x = Vec3A::new(b(1.0), b(2.0), b(3.0));
    let y = Vec3A::splat(b(4.0));
    let w = Vec3A::unit_z();
    assert!(mat3a(x, y, w) == Mat3A::from_cols(x, y, w));
    let d = Mat3A::from_diagonal(GVec3::new(b(2.0), b(3.0), b(4.0)));
    assert_eq!(d.to_cols_array().map(f), [2.0, 0.0, 0.0, 0.0, 3.0, 0.0, 0.0, 0.0, 4.0]);
}

#[test]
fn mat3a_from_mat4_and_minor() {
    let vals: [f32; 16] = core::array::from_fn(|i| i as f32);
    let m4 = GMat4::from_cols_array(&vals.map(b));
    let m3 = Mat3A::from_mat4(m4);
    assert_eq!(m3.to_cols_array().map(f), [0.0, 1.0, 2.0, 4.0, 5.0, 6.0, 8.0, 9.0, 10.0]);
    let minor = Mat3A::from_mat4_minor(m4, 1, 2);
    assert_eq!(minor.to_cols_array().map(f), [0.0, 1.0, 3.0, 8.0, 9.0, 11.0, 12.0, 13.0, 15.0]);
    let back = Mat3A::from_mat3(m3.to_mat3());
    assert!(back == m3);
}

#[test]
fn mat4a_basics() {
    let vals: [f32; 16] = core::array::from_fn(|i| (i + 1) as f32);
    let m = mat4(vals);
    assert_eq!(m.to_cols_array().map(f), vals);
    assert_eq!(m.row(1).to_array().map(f), [2.0, 6.0, 10.0, 14.0]);
    assert_eq!(m.col(3).to_array().map(f), [13.0, 14.0, 15.0, 16.0]);
    let t = m.transpose();
    assert_eq!(t.col(0).to_array().map(f), [1.0, 5.0, 9.0, 13.0]);
    assert!(t.transpose() == m);
    assert_eq!(m.diagonal().to_array().map(f), [1.0, 6.0, 11.0, 16.0]);
    assert!(Mat4A::default() == Mat4A::identity());
    assert!(Mat4A::nan().is_nan());
    assert!(Mat4A::identity().is_finite());
    assert!(mat4a(m.x_axis, m.y_axis, m.z_axis, m.w_axis) == m);
    let mut slice = [0u32; 16];
    m.write_cols_to_slice(&mut slice);
    assert!(Mat4A::from_cols_slice(&slice) == m);
    assert!(Mat4A::from_mat4(m.to_mat4()) == m);
    let d = Mat4A::from_diagonal(GVec4::new(b(1.0), b(2.0), b(3.0), b(4.0)));
    assert_eq!(d.diagonal().to_array().map(f), [1.0, 2.0, 3.0, 4.0]);
    assert_eq!(d.col(0).to_array().map(f), [1.0, 0.0, 0.0, 0.0]);
}

#[test]
fn mat4a_abs_and_col_mut() {
    let mut m = mat4([-1.0; 16]);
    assert_eq!(m.abs().to_cols_array().map(f), [1.0; 16]);
    *m.col_mut(1) = Vec4A::splat(b(f32::NEG_INFINITY));
    assert!(!m.is_finite());
    assert!(!m.is_nan());
    assert_eq!(m.col(1).to_array().map(f), [f32::NEG_INFINITY; 4]);
    assert_eq!(m.col(0).to_array().map(f), [-1.0; 4]);
}

#[test]
fn shuffle_picks_lanes() {
    let a = Vec4A::new(b(0.0), b(1.0), b(2.0), b(3.0));
    let c = Vec4A::new(b(10.0), b(11.0), b(12.0), b(13.0));
    let r = shuffle::<3, 0, 2, 1>(a, c);
    assert_eq!(r.to_array().map(f), [3.0, 0.0, 12.0, 11.0]);
    let r = shuffle::<0, 2, 0, 2>(a, c);
    assert_eq!(r.to_array().map(f), [0.0, 2.0, 10.0, 12.0]);
}

#[test]
fn mat2a_basics() {
    let m = Mat2A::from_cols_array(&[1.0f32, 2.0, 3.0, 4.0].map(b));
    assert_eq!(m.transpose().to_cols_array().map(f), [1.0, 3.0, 2.0, 4.0]);
    assert_eq!(m.row(0).to_array().map(f), [1.0, 3.0]);
    assert_eq!(m.diagonal().to_array().map(f), [1.0, 4.0]);
    assert!(Mat2A::default() == Mat2A::identity());
    assert!(Mat2A::nan().is_nan());
    let m3 = GMat3::from_cols_array(&[1.0f32, 2.0, 3.0, 4.0, 5.0, 6.0, 7.0, 8.0, 9.0].map(b));
    assert_eq!(Mat2A::from_mat3(m3).to_cols_array().map(f), [1.0, 2.0, 4.0, 5.0]);
    assert_eq!(Mat2A::from_mat3_minor(m3, 0, 0).to_cols_array().map(f), [5.0, 6.0, 8.0, 9.0]);
    assert_eq!(Mat2A::from_mat3_minor(m3, 2, 1).to_cols_array().map(f), [1.0, 3.0, 4.0, 6.0]);
    let mut m = m;
    *m.col_mut(0) = GVec2::new(b(-5.0), b(-6.0));
    assert_eq!(m.abs().to_cols_array().map(f), [5.0, 6.0, 3.0, 4.0]);
    assert!(Mat2A::from_mat2(m.to_mat2()) == m);
}

#[test]
fn generic_matrices_hold_any_element() {
    let m = GMat3::from_cols_array(&[1, 2, 3, 4, 5, 6, 7, 8, 9]);
    assert_eq!(m.transpose().to_cols_array(), [1, 4, 7, 2, 5, 8, 3, 6, 9]);
    assert_eq!(m.row(1).to_array(), [2, 5, 8]);
    assert_eq!(m.diagonal().to_array(), [1, 5, 9]);
    let g2 = GMat2::from_mat3(m);
    assert_eq!(g2.to_cols_array(), [1, 2, 4, 5]);
    let g2 = GMat2::from_mat3_minor(m, 1, 1);
    assert_eq!(g2.to_cols_array(), [1, 3, 7, 9]);
    let m4 = GMat4::from_cols_array(&[0.5f64; 16]);
    assert_eq!(GMat3::from_mat4(m4).to_cols_array(), [0.5; 9]);
    let mut m4 = GMat4::from_cols_array(&core::array::from_fn::<i64, 16, _>(|i| i as i64));
    m4.col_mut(3).w = 100;
    assert_eq!(m4.row(3).to_array(), [3, 7, 11, 100]);
    let minor = GMat3::from_mat4_minor(m4, 3, 3);
    assert_eq!(minor.to_cols_array(), [0, 1, 2, 4, 5, 6, 8, 9, 10]);
    assert_eq!(GMat2::select(true, g2, GMat2::from_cols_array(&[0; 4])).to_cols_array(), [1, 3, 7, 9]);
}

#[test]
fn affine_matrix_builders() {
    let t = Mat3A::from_translation(GVec2::new(b(2.0), b(3.0)));
    assert_eq!(t.to_cols_array().map(f), [1.0, 0.0, 0.0, 0.0, 1.0, 0.0, 2.0, 3.0, 1.0]);
    let s = Mat3A::from_scale(GVec2::new(b(2.0), b(3.0)));
    assert_eq!(s.to_cols_array().map(f), [2.0, 0.0, 0.0, 0.0, 3.0, 0.0, 0.0, 0.0, 1.0]);
    let m = Mat3A::from_mat2(GMat2::from_cols_array(&[1.0f32, 2.0, 3.0, 4.0].map(b)));
    assert_eq!(m.to_cols_array().map(f), [1.0, 2.0, 0.0, 3.0, 4.0, 0.0, 0.0, 0.0, 1.0]);
    let t4 = Mat4A::from_translation(GVec3::new(b(5.0), b(6.0), b(7.0)));
    assert_eq!(
        t4.to_cols_array().map(f),
        [1.0, 0.0, 0.0, 0.0, 0.0, 1.0, 0.0, 0.0, 0.0, 0.0, 1.0, 0.0, 5.0, 6.0, 7.0, 1.0]
    );
    let s4 = Mat4A::from_scale(GVec3::new(b(2.0), b(3.0), b(4.0)));
    assert_eq!(s4.diagonal().to_array().map(f), [2.0, 3.0, 4.0, 1.0]);
    let m3 = GMat3::from_cols_array(&core::array::from_fn::<f32, 9, _>(|i| (i + 1) as f32).map(b));
    assert_eq!(
        Mat4A::from_mat3(m3).to_cols_array().map(f),
        [1.0, 2.0, 3.0, 0.0, 4.0, 5.0, 6.0, 0.0, 7.0, 8.0, 9.0, 0.0, 0.0, 0.0, 0.0, 1.0]
    );
    let mt = Mat4A::from_mat3_translation(m3, GVec3::new(b(10.0), b(11.0), b(12.0)));
    assert_eq!(
        mt.to_cols_array().map(f),
        [1.0, 2.0, 3.0, 0.0, 4.0, 5.0, 6.0, 0.0, 7.0, 8.0, 9.0, 0.0, 10.0, 11.0, 12.0, 1.0]
    );
}

#[test]
fn aligned_matrix_negation() {
    let m2 = Mat2A::from_cols_array(&[1.0f32, -2.0, 0.0, 4.0].map(b));
    assert_eq!((-m2).to_cols_array().map(f), [-1.0, 2.0, -0.0, -4.0]);
    let m3 = Mat3A::from_cols_array(&core::array::from_fn::<f32, 9, _>(|i| i as f32 - 4.0).map(b));
    assert_eq!((-m3).to_cols_array().map(f), core::array::from_fn::<f32, 9, _>(|i| 4.0 - i as f32));
    assert!(-(-m3) == m3);
    let m4 = Mat4A::identity();
    assert_eq!((-m4).diagonal().to_array().map(f), [-1.0; 4]);
}
