use gela::vector::GVec4;

#[test]
fn euclidean_division() {
    let a = GVec4::new(7i32, -7, 7, -7);
    let b = GVec4::new(2i32, 2, -2, -2);
    let q = a.div_euclid(b);
    let r = a.rem_euclid(b);
    assert_eq!(q.to_array(), [3, -4, -3, 4]);
    assert_eq!(r.to_array(), [1, 1, 1, 1]);
    // The law (a / b) * b + a % b == a holds in every lane.
    for i in 0..4 {
        assert_eq!(q.to_array()[i] * b.to_array()[i] + r.to_array()[i], a.to_array()[i]);
    }
    // Truncated division differs on negative operands.
    assert_eq!((a / b).to_array(), [3, -3, -3, 3]);
    assert_eq!((a % b).to_array(), [1, -1, 1, -1]);
    let u = GVec4::new(10u8, 255, 0, 9).div_euclid(GVec4::new(3u8, 16, 1, 9));
    assert_eq!(u.to_array(), [3, 15, 0, 1]);
    let m = GVec4::new(i8::MIN, 5, -1, 0).rem_euclid(GVec4::new(i8::MIN, -3, i8::MAX, 1));
    assert_eq!(m.to_array(), [0, 2, 126, 0]);
}

#[test]
fn bitwise_operations() {
    let a = GVec4::new(0b1100u8, 0xff, 0, 0x0f);
    let b = GVec4::new(0b1010u8, 0x0f, 0xff, 0xf0);
    assert_eq!((a & b).to_array(), [0b1000, 0x0f, 0, 0]);
    assert_eq!((a | b).to_array(), [0b1110, 0xff, 0xff, 0xff]);
    assert_eq!((a ^ b).to_array(), [0b0110, 0xf0, 0xff, 0xff]);
    assert_eq!((!a).to_array(), [0b1111_0011, 0, 0xff, 0xf0]);
    let s = GVec4::new(-1i16, 0, 5, i16::MIN);
    assert_eq!((!s).to_array(), [0, -1, -6, i16::MAX]);
    assert_eq!((s & GVec4::splat(0x00ff)).to_array(), [0xff, 0, 5, 0]);
}

#[test]
fn shifts() {
    let v = GVec4::new(1u32, 3, 0x8000_0000, 0xffff_ffff);
    assert_eq!((v << 1).to_array(), [2, 6, 0, 0xffff_fffe]);
    assert_eq!((v >> 31).to_array(), [0, 0, 1, 1]);
    let s = GVec4::new(-8i32, 8, -1, i32::MIN);
    assert_eq!((s >> 1).to_array(), [-4, 4, -1, i32::MIN / 2]);
    assert_eq!((s << 2).to_array(), [-32, 32, -4, 0]);
}

#[test]
fn scalar_products_and_quotients() {
    let v = GVec4::new(1i64, -2, 3, -4);
    assert_eq!((v * 3).to_array(), [3, -6, 9, -12]);
    assert_eq!((3 * v).to_array(), [3, -6, 9, -12]);
    assert_eq!((v / 2).to_array(), [0, -1, 1, -2]);
    assert_eq!((2usize * GVec4::new(1usize, 2, 3, 4)).to_array(), [2, 4, 6, 8]);
    assert_eq!((GVec4::new(9u16, 8, 7, 6) / 3).to_array(), [3, 2, 2, 2]);
}


#[test]
fn mask_logic() {
    let v = GVec4::new(1, 5, 9, 3);
    let above = v.cmpgt(GVec4::splat(2));
    let below = v.cmplt(GVec4::splat(6));
    assert_eq!((above & below).to_array(), [false, true, false, true]);
    assert_eq!((above | below).to_array(), [true, true, true, true]);
    assert_eq!((above ^ below).to_array(), [true, false, true, false]);
    assert_eq!((!above).to_array(), [true, false, false, false]);
    assert!((above & below).any());
    assert!(!(above & below).all());
}
