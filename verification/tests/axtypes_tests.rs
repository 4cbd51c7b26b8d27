use axwindow::axtypes::{gb, hiword, kb, loword, mb, sat_add_i64, AxRect, AxVec2};

#[test]
fn axtypes_kb_test() {
    let result = kb(4);
    assert_eq!(result, 4096);
}

#[test]
fn axtypes_mb_test() {
    let result = mb(2);
    assert_eq!(result, 2097152);
}

#[test]
fn axtypes_gb_test() {
    let result = gb(2);
    assert_eq!(result, 2147483648)
}

#[test]
fn loword_hiword_split_packed_param() {
    assert_eq!(loword(0x12345678), 0x5678);
    assert_eq!(hiword(0x12345678), 0x1234);
    assert_eq!(loword(0), 0);
    assert_eq!(hiword(0xFFFF), 0);
}

#[test]
fn sat_add_clamps_at_the_ends() {
    assert_eq!(sat_add_i64(2, 3), 5);
    assert_eq!(sat_add_i64(i64::MAX, 1), i64::MAX);
    assert_eq!(sat_add_i64(i64::MIN, -1), i64::MIN);
    assert_eq!(sat_add_i64(-5, 2), -3);
}

#[test]
fn rect_extents_and_position() {
    let r = AxRect::new(2, 4, 6, 8);
    assert_eq!(r.width(), 4);
    assert_eq!(r.height(), 4);
    assert_eq!(r.position(), AxVec2::new(2, 4));
    let d = AxRect::default();
    assert_eq!(d.width(), 0);
    assert_eq!(d.height(), 0);
}
