use gela::vector::{GVec2, GVec3, GVec4, Vec3A, Vec4A, gvec2, gvec3, gvec4};

#[test]
fn gvec4_construction() {
    let v = gvec4(1, 2, 3, 4);
    assert_eq!(v.to_array(), [1, 2, 3, 4]);
    assert_eq!(GVec4::splat(7u8).to_array(), [7; 4]);
    assert_eq!(GVec4::from_array([1.5f32, 2.5, 3.5, 4.5]).to_array(), [1.5, 2.5, 3.5, 4.5]);
    assert_eq!(GVec4::from_slice(&[9, 8, 7, 6, 5]).to_array(), [9, 8, 7, 6]);
    let mut out = [0; 6];
    v.write_to_slice(&mut out);
    assert_eq!(out, [1, 2, 3, 4, 0, 0]);
    assert_eq!(v.with_x(10).with_w(40).to_array(), [10, 2, 3, 40]);
    assert_eq!(v.truncate().to_array(), [1, 2, 3]);
    assert_eq!(gvec3(1, 2, 3).extend(4).to_array(), [1, 2, 3, 4]);
    assert_eq!(gvec2('a', 'b').extend('c').to_array(), ['a', 'b', 'c']);
    assert_eq!(GVec3::new(1, 2, 3).truncate().to_array(), [1, 2]);
    assert_eq!(v.lane(2), 3);
    let mut m = v;
    *m.lane_mut(1) = 20;
    assert_eq!(m.to_array(), [1, 20, 3, 4]);
}

#[test]
fn gvec4_selection_and_masks() {
    let a = gvec4(1, 2, 3, 4);
    let b = gvec4(5, 6, 7, 8);
    assert_eq!(GVec4::select(false, a, b).to_array(), [5, 6, 7, 8]);
    let mask = gvec4(true, false, true, false);
    assert_eq!(GVec4::select_mask(mask, a, b).to_array(), [1, 6, 3, 8]);
    assert!(!mask.all());
    assert!(mask.any());
    assert!(gvec4(true, true, true, true).all());
    assert!(!gvec4(false, false, false, false).any());
    assert!(mask.test(2));
    let mut m = mask;
    m.set(1, true);
    assert_eq!(m.to_array(), [true, true, true, false]);
    assert_eq!(GVec2::select_mask(gvec2(false, true), gvec2(1, 2), gvec2(3, 4)).to_array(), [3, 2]);
}

#[test]
fn gvec4_swizzles() {
    let v = gvec4(1, 2, 3, 4);
    assert_eq!(v.wzyx().to_array(), [4, 3, 2, 1]);
    assert_eq!(v.xyz().to_array(), [1, 2, 3]);
    assert_eq!(v.yzw().to_array(), [2, 3, 4]);
    assert_eq!(v.xw().to_array(), [1, 4]);
    assert_eq!(v.wwwx().to_array(), [4, 4, 4, 1]);
    assert_eq!(v.with_xz(gvec2(10, 30)).to_array(), [10, 2, 30, 4]);
    assert_eq!(v.with_xyz(gvec3(7, 8, 9)).to_array(), [7, 8, 9, 4]);
}

#[test]
fn integer_comparisons() {
    let a = gvec4(1, -2, 3, 4);
    let b = gvec4(1, 2, -3, 5);
    assert_eq!(a.cmpeq(b).to_array(), [true, false, false, false]);
    assert_eq!(a.cmpne(b).to_array(), [false, true, true, true]);
    assert_eq!(a.cmplt(b).to_array(), [false, true, false, true]);
    assert_eq!(a.cmple(b).to_array(), [true, true, false, true]);
    assert_eq!(a.cmpgt(b).to_array(), [false, false, true, false]);
    assert_eq!(a.cmpge(b).to_array(), [true, false, true, false]);
    assert_eq!(a.min(b).to_array(), [1, -2, -3, 4]);
    assert_eq!(a.max(b).to_array(), [1, 2, 3, 5]);
    assert_eq!(a.min_element(), -2);
    assert_eq!(a.max_element(), 4);
    let lo = GVec4::splat(0);
    let hi = GVec4::splat(3);
    assert_eq!(gvec4(-5, 1, 3, 9).clamp(lo, hi).to_array(), [0, 1, 3, 3]);
}

#[test]
fn checked_operations() {
    let a = gvec4(100i8, 1, 2, 3);
    assert!(a.checked_add(GVec4::splat(27)).is_some());
    assert!(a.checked_add(GVec4::splat(28)).is_none());
    assert_eq!(a.checked_add(GVec4::splat(1)).unwrap().to_array(), [101, 2, 3, 4]);
    assert!(gvec4(0u32, 5, 6, 7).checked_sub(GVec4::splat(1)).is_none());
    assert_eq!(gvec4(3i16, 4, 5, 6).checked_mul(GVec4::splat(-2)).unwrap().to_array(), [-6, -8, -10, -12]);
    assert!(gvec4(i32::MIN, 1, 1, 1).checked_div(GVec4::splat(-1)).is_none());
    assert!(gvec4(7, 1, 1, 1).checked_div(gvec4(2, 1, 0, 1)).is_none());
    assert_eq!(gvec4(7, -7, 7, -7).checked_div(gvec4(2, 2, -2, -2)).unwrap().to_array(), [3, -3, -3, 3]);
}

#[test]
fn wrapping_operations() {
    let a = gvec4(250u8, 5, 128, 0);
    let b = GVec4::splat(10u8);
    assert_eq!(a.wrapping_add(b).to_array(), [4, 15, 138, 10]);
    assert_eq!(a.wrapping_sub(b).to_array(), [240, 251, 118, 246]);
    assert_eq!(a.wrapping_mul(GVec4::splat(2)).to_array(), [244, 10, 0, 0]);
    assert_eq!(a.wrapping_add(b).wrapping_sub(b).to_array(), a.to_array());
    let s = gvec4(i8::MIN, i8::MAX, -1, 100);
    assert_eq!(s.wrapping_div(gvec4(-1, -1, 1, 3)).to_array(), [i8::MIN, -i8::MAX, -1, 33]);
    assert_eq!(s.wrapping_mul(GVec4::splat(2)).to_array(), [0, -2, -2, -56]);
}

#[test]
fn saturating_operations() {
    let a = gvec4(120i8, -120, 5, -5);
    assert_eq!(a.saturating_add(GVec4::splat(10)).to_array(), [127, -110, 15, 5]);
    assert_eq!(a.saturating_sub(GVec4::splat(10)).to_array(), [110, -128, -5, -15]);
    assert_eq!(a.saturating_mul(gvec4(2, 2, -30, -30)).to_array(), [127, -128, -128, 127]);
    assert_eq!(gvec4(i8::MIN, 9, -9, 0).saturating_div(gvec4(-1, 2, 2, 5)).to_array(), [127, 4, -4, 0]);
    assert_eq!(gvec4(200u8, 5, 0, 1).saturating_add(GVec4::splat(100)).to_array(), [255, 105, 100, 101]);
    assert_eq!(gvec4(200u8, 5, 0, 1).saturating_sub(GVec4::splat(100)).to_array(), [100, 0, 0, 0]);
}

#[test]
fn operators() {
    let a = gvec4(7, -7, 9, 1);
    let b = gvec4(2, 2, -4, 1);
    assert_eq!((a + b).to_array(), [9, -5, 5, 2]);
    assert_eq!((a - b).to_array(), [5, -9, 13, 0]);
    assert_eq!((a * b).to_array(), [14, -14, -36, 1]);
    assert_eq!((a / b).to_array(), [3, -3, -2, 1]);
    assert_eq!((a % b).to_array(), [1, -1, 1, 0]);
    assert_eq!((-a).to_array(), [-7, 7, -9, -1]);
    let q = a / b;
    let r = a % b;
    assert_eq!((q * b + r).to_array(), a.to_array());
}

#[test]
fn signed_operations() {
    let a = gvec4(-3, 0, 4, -1);
    assert_eq!(a.abs().to_array(), [3, 0, 4, 1]);
    assert_eq!(a.signum().to_array(), [-1, 0, 1, -1]);
    assert_eq!((a.signum() * a.abs()).to_array(), a.to_array());
    let b = gvec4(1, 2, 3, 4);
    assert_eq!(a.dot(b), -3 + 12 - 4);
    assert_eq!(b.dot(a), a.dot(b));
    assert_eq!(a.dot_into_vec(b).to_array(), [5; 4]);
    assert_eq!(b.element_sum(), 10);
    assert_eq!(b.element_product(), 24);
    assert_eq!(b.length_squared(), 30);
    assert_eq!(a.distance_squared(b), 16 + 4 + 1 + 25);
    assert_eq!(a.manhattan_distance(b), 4u32 + 2 + 1 + 5);
    assert_eq!(a.chebyshev_distance(b), 5u32);
    let extreme = gvec4(i8::MIN, i8::MAX, 0, 0);
    let other = gvec4(i8::MAX, i8::MIN, 0, 0);
    assert_eq!(extreme.chebyshev_distance(other), 255u8);
    assert_eq!(gvec4(i64::MIN, 0, 0, 0).manhattan_distance(gvec4(i64::MAX, 0, 0, 0)), u64::MAX);
    assert_eq!(gvec4(i128::MIN, 0, 0, 0).chebyshev_distance(gvec4(i128::MAX, 0, 0, 0)), u128::MAX);
}

#[test]
fn simd_vectors() {
    let v = Vec3A::new(1.0f32.to_bits(), (-2.0f32).to_bits(), f32::NAN.to_bits());
    assert!(v.is_nan());
    assert!(!v.is_finite());
    assert_eq!(v.abs().to_array().map(f32::from_bits)[1], 2.0);
    assert!(v != v);
    let w = Vec4A::from_array([0.0f32, -0.0, 1.0, 2.0].map(f32::to_bits));
    let z = Vec4A::from_array([-0.0f32, 0.0, 1.0, 2.0].map(f32::to_bits));
    assert!(w == z);
    assert!(w.is_finite());
    assert_eq!(Vec4A::from_vec4(w.to_vec4()).to_array(), w.to_array());
    assert_eq!(Vec3A::from_vec3(GVec3::new(1, 2, 3)).to_array(), [1, 2, 3]);
    assert_eq!(w.lane(2), 1.0f32.to_bits());
    assert_eq!(Vec4A::unit_w().to_array().map(f32::from_bits), [0.0, 0.0, 0.0, 1.0]);
    assert!(Vec4A::nan().is_nan());
}

#[test]
fn gvec4_map() {
    let v = GVec4::new(1, 2, 3, 4);
    assert_eq!(v.map(|c| c * 10).to_array(), [10, 20, 30, 40]);
    let mut order = Vec::new();
    let seen = std::cell::RefCell::new(&mut order);
    let _ = v.map(|c| {
        seen.borrow_mut().push(c);
        c
    });
    assert_eq!(order, vec![1, 2, 3, 4]);
}

#[test]
fn aligned_vector_negation() {
    let v = Vec3A::new(1.0f32.to_bits(), (-2.0f32).to_bits(), 0.0f32.to_bits());
    let n = -v;
    assert_eq!(n.to_array().map(f32::from_bits), [-1.0, 2.0, -0.0]);
    assert_eq!(n.z, (-0.0f32).to_bits());
    assert!(-n == v);
    let w = Vec4A::new(f32::NAN.to_bits(), f32::INFINITY.to_bits(), 3.0f32.to_bits(), (-0.0f32).to_bits());
    let m = -w;
    assert!(m.is_nan());
    assert_eq!(f32::from_bits(m.y), f32::NEG_INFINITY);
    assert_eq!(m.w, 0.0f32.to_bits());
    assert_eq!((-m).to_array(), w.to_array());
}
