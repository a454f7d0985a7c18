use gela::isometry::{GIso3, Iso3A};
use gela::rotation::{GQuat, GRot2, Rot3A, gquat, grot2, rot3a};
use gela::vector::{GVec2, GVec3, GVec4, Vec3A};

fn b(v: f32) -> u32 {
    v.to_bits()
}

fn f(bits: u32) -> f32 {
    f32::from_bits(bits)
}

#[test]
fn gquat_construction_and_arrays() {
    let q = gquat(1, 2, 3, 4);
    assert_eq!((q.x, q.y, q.z, q.w), (1, 2, 3, 4));
    assert_eq!(q.to_array(), [1, 2, 3, 4]);
    let from_array = GQuat::from_array([5, 6, 7, 8]);
    assert_eq!(from_array.to_array(), [5, 6, 7, 8]);
    let from_vec = GQuat::from_vec4(GVec4::new(9, 10, 11, 12));
    assert_eq!(from_vec.to_array(), [9, 10, 11, 12]);
    let from_slice = GQuat::from_slice(&[1, 2, 3, 4, 5]);
    assert_eq!(from_slice.to_array(), [1, 2, 3, 4]);
    let mut out = [0; 6];
    q.write_to_slice(&mut out);
    assert_eq!(out, [1, 2, 3, 4, 0, 0]);
    let v = q.xyz();
    assert_eq!((v.x, v.y, v.z), (1, 2, 3));
    assert_eq!(GQuat::select(true, q, from_array).to_array(), [1, 2, 3, 4]);
    assert_eq!(GQuat::select(false, q, from_array).to_array(), [5, 6, 7, 8]);
}

#[test]
fn grot2_construction_and_arrays() {
    let r = grot2(b(1.0), b(0.0));
    assert_eq!(r.to_array().map(f), [1.0, 0.0]);
    let s = GRot2::from_cos_sin(3, 4);
    assert_eq!((s.cos, s.sin), (3, 4));
    assert_eq!(GRot2::from_array([5, 6]).to_array(), [5, 6]);
    assert_eq!(GRot2::from_vec2(GVec2::new(7, 8)).to_array(), [7, 8]);
    assert_eq!(GRot2::from_slice(&[9, 10, 11]).to_array(), [9, 10]);
    let mut out = [0; 3];
    s.write_to_slice(&mut out);
    assert_eq!(out, [3, 4, 0]);
    assert_eq!(GRot2::select(false, r, s).to_array(), [3, 4]);
}

#[test]
fn rot3a_constants_and_classification() {
    let id = Rot3A::identity();
    assert_eq!(id.to_array().map(f), [0.0, 0.0, 0.0, 1.0]);
    assert!(Rot3A::default() == id);
    assert!(id.is_finite());
    assert!(!id.is_nan());
    assert_eq!(Rot3A::zero().to_array().map(f), [0.0; 4]);
    let nan = Rot3A::nan();
    assert!(nan.is_nan());
    assert!(!nan.is_finite());
    assert!(nan != nan);
    let inf = rot3a(b(0.0), b(f32::INFINITY), b(0.0), b(1.0));
    assert!(!inf.is_finite());
    assert!(!inf.is_nan());
    // Negative zero equals positive zero.
    assert!(rot3a(b(-0.0), b(0.0), b(0.0), b(1.0)) == id);
}

#[test]
fn rot3a_conversions() {
    let q = Rot3A::from_xyzw(b(1.0), b(2.0), b(3.0), b(4.0));
    assert_eq!(q.to_array().map(f), [1.0, 2.0, 3.0, 4.0]);
    assert!(Rot3A::from_array([b(1.0), b(2.0), b(3.0), b(4.0)]) == q);
    assert!(Rot3A::from_vec4(GVec4::new(b(1.0), b(2.0), b(3.0), b(4.0))) == q);
    assert!(Rot3A::from_slice(&[b(1.0), b(2.0), b(3.0), b(4.0), b(5.0)]) == q);
    let mut out = [b(9.0); 5];
    q.write_to_slice(&mut out);
    assert_eq!(out.map(f), [1.0, 2.0, 3.0, 4.0, 9.0]);
    let v = q.xyz();
    assert_eq!([v.x, v.y, v.z].map(f), [1.0, 2.0, 3.0]);
    let g = q.to_quat();
    assert_eq!(g.to_array().map(f), [1.0, 2.0, 3.0, 4.0]);
    assert!(Rot3A::from_quat(g) == q);
    assert!(Rot3A::select(false, q, Rot3A::identity()) == Rot3A::identity());
}

#[test]
fn isometries() {
    let rot = rot3a(b(0.0), b(0.0), b(0.0), b(1.0));
    let t = Vec3A::new(b(1.0), b(2.0), b(3.0));
    let iso = Iso3A::from_rotation_translation(rot, t);
    assert!(iso.rotation == rot);
    assert!(iso.translation == t);
    assert!(Iso3A::default() == Iso3A::identity());
    assert!(Iso3A::from_rotation(rot) == Iso3A::identity());
    assert!(Iso3A::from_translation(t) == iso);
    assert!(iso.is_finite());
    assert!(!iso.is_nan());
    let nan = Iso3A::nan();
    assert!(nan.is_nan());
    assert!(!nan.is_finite());
    assert!(nan != nan);
    let g = iso.to_iso3();
    assert_eq!(g.translation.to_array().map(f), [1.0, 2.0, 3.0]);
    assert!(Iso3A::from_iso3(g) == iso);
    assert!(Iso3A::select(true, nan, iso).is_nan());
    let gi = GIso3::from_rotation_translation(gquat(1, 2, 3, 4), GVec3::new(5, 6, 7));
    assert_eq!(gi.rotation.to_array(), [1, 2, 3, 4]);
    assert_eq!(gi.translation.to_array(), [5, 6, 7]);
    let other = GIso3::from_rotation_translation(gquat(0, 0, 0, 1), GVec3::new(0, 0, 0));
    assert_eq!(GIso3::select(false, gi, other).rotation.to_array(), [0, 0, 0, 1]);
}
