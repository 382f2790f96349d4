use u7x8::u7x8;

#[test]
fn test_splat() {
    let a = u7x8::splat(1);
    assert_eq!(a, u7x8(0x101_0101_0101_0101));
}

#[test]
fn test_add() {
    let a = u7x8::splat(0x7F);
    let b = u7x8::splat(1);
    assert_eq!(a.add(b), u7x8::splat(0));
}

#[test]
fn test_sub() {
    let a = u7x8::splat(0x7F);
    let b = u7x8::splat(0);
    assert_eq!(a.sub(a), u7x8::splat(0));
    assert_eq!(a.sub(b), a);
}
