use u7x8::u7x8;

/// The raw byte of lane `i`, padding bit included.
fn raw_byte(v: u7x8, i: usize) -> u8 {
    ((v.0 >> (8 * i)) & 0xFF) as u8
}

/// True when every padding bit of `v` is zero.
fn is_well_formed(v: u7x8) -> bool {
    v.0 & 0x8080_8080_8080_8080 == 0
}

#[test]
fn test_splat_fills_every_lane() {
    for &v in &[0u8, 1, 5, 64, 126, 127] {
        let a = u7x8::splat(v);
        assert!(is_well_formed(a));
        for i in 0..8 {
            assert_eq!(raw_byte(a, i), v);
        }
    }
    assert_eq!(u7x8::splat(0x7F), u7x8(0x7F7F_7F7F_7F7F_7F7F));
}

#[test]
fn test_well_formed_closure() {
    let a = u7x8(0x0102_0304_0506_0708);
    let b = u7x8::splat(0x55);
    assert!(is_well_formed(a.bitand(b)));
    assert!(is_well_formed(a.bitor(b)));
    assert!(is_well_formed(a.bitxor(b)));
    assert!(is_well_formed(a.add(b)));
    assert!(is_well_formed(a.sub(b)));
    assert!(is_well_formed(a.not()));
    assert!(is_well_formed(a.neg()));
}

#[test]
fn test_additive_identity_and_inverse() {
    let a = u7x8(0x7F00_3301_0F42_6D2A);
    assert_eq!(a.add(u7x8::splat(0)), a);
    assert_eq!(a.add(a.neg()), u7x8::splat(0));
    assert_eq!(u7x8::splat(1).neg(), u7x8::splat(127));
    assert_eq!(u7x8::splat(0).neg(), u7x8::splat(0));
}

#[test]
fn test_wraparound_carries_stay_in_lane() {
    assert_eq!(u7x8::splat(0x7F).add(u7x8::splat(1)), u7x8::splat(0));
    // Lane 0 holds 127 and wraps to 0; every other lane holds 1 and moves
    // to 2, untouched by lane 0's carry.
    let a = u7x8(0x0101_0101_0101_017F);
    let r = a.add(u7x8::splat(1));
    assert_eq!(raw_byte(r, 0), 0);
    for i in 1..8 {
        assert_eq!(raw_byte(r, i), 2);
    }
}

#[test]
fn test_sub_self_cancel() {
    let a = u7x8(0x0102_0304_0506_0708);
    assert_eq!(a.sub(a), u7x8::splat(0));
    assert_eq!(a.sub(u7x8::splat(0)), a);
    // 0 - 1 wraps to 127 in every lane, with no borrow across lanes.
    assert_eq!(u7x8::splat(0).sub(u7x8::splat(1)), u7x8::splat(127));
}

#[test]
fn test_double_complement() {
    let a = u7x8(0x7F00_3301_0F42_6D2A);
    assert_eq!(a.not().not(), a);
    assert_eq!(u7x8::splat(0).not(), u7x8::splat(127));
    assert_eq!(u7x8::splat(127).not(), u7x8::splat(0));
}

#[test]
fn test_bitwise_identities() {
    let a = u7x8(0x7F00_3301_0F42_6D2A);
    let b = u7x8(0x0102_0304_0506_0708);
    let c = u7x8::splat(0x39);
    assert_eq!(a.bitand(a), a);
    assert_eq!(a.bitor(a), a);
    assert_eq!(a.bitxor(a), u7x8::splat(0));
    assert_eq!(a.bitand(b), b.bitand(a));
    assert_eq!(a.bitor(b), b.bitor(a));
    assert_eq!(a.bitxor(b), b.bitxor(a));
    assert_eq!(a.bitand(b).bitand(c), a.bitand(b.bitand(c)));
    assert_eq!(a.bitor(b).bitor(c), a.bitor(b.bitor(c)));
    assert_eq!(a.bitxor(b).bitxor(c), a.bitxor(b.bitxor(c)));
}

#[test]
fn test_lane_isolation() {
    // a1 and a2 differ only in lane 0 (0x7F versus 0x01).
    let a1 = u7x8(0x0101_0101_0101_017F);
    let a2 = u7x8(0x0101_0101_0101_0101);
    let b = u7x8(0x0102_0304_0506_0708);
    for i in 1..8 {
        assert_eq!(raw_byte(a1.bitand(b), i), raw_byte(a2.bitand(b), i));
        assert_eq!(raw_byte(a1.bitor(b), i), raw_byte(a2.bitor(b), i));
        assert_eq!(raw_byte(a1.bitxor(b), i), raw_byte(a2.bitxor(b), i));
        assert_eq!(raw_byte(a1.add(b), i), raw_byte(a2.add(b), i));
        assert_eq!(raw_byte(a1.sub(b), i), raw_byte(a2.sub(b), i));
        assert_eq!(raw_byte(b.sub(a1), i), raw_byte(b.sub(a2), i));
        assert_eq!(raw_byte(a1.not(), i), raw_byte(a2.not(), i));
        assert_eq!(raw_byte(a1.neg(), i), raw_byte(a2.neg(), i));
    }
}

#[test]
fn test_assign_variants_match_pure_ops() {
    let a = u7x8(0x7F00_3301_0F42_6D2A);
    let b = u7x8(0x0102_0304_0506_0708);

    let mut v = a;
    v.bitand_assign(b);
    assert_eq!(v, a.bitand(b));

    let mut v = a;
    v.bitor_assign(b);
    assert_eq!(v, a.bitor(b));

    let mut v = a;
    v.bitxor_assign(b);
    assert_eq!(v, a.bitxor(b));

    let mut v = a;
    v.add_assign(b);
    assert_eq!(v, a.add(b));

    let mut v = a;
    v.sub_assign(b);
    assert_eq!(v, a.sub(b));

    let mut v = u7x8::splat(3);
    v.add_assign(u7x8::splat(5));
    assert_eq!(v, u7x8::splat(8));
}

#[test]
fn test_default_equality_and_ordering() {
    assert_eq!(u7x8::default(), u7x8::splat(0));
    assert_eq!(u7x8::default(), u7x8(0));
    assert!(u7x8::splat(0) < u7x8::splat(1));
    assert!(u7x8(1) < u7x8(0x100));
    assert_eq!(u7x8::splat(9), u7x8::splat(9));
    assert_ne!(u7x8::splat(9), u7x8::splat(10));
}
