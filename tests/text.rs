use midi_toolbox::text::{push_decimal, push_hex_byte, push_signed};

#[test]
fn decimal_text() {
    let mut s = String::new();
    push_decimal(&mut s, 0);
    assert_eq!(s, "0");
    let mut s = String::from("x=");
    push_decimal(&mut s, 120);
    assert_eq!(s, "x=120");
    let mut s = String::new();
    push_decimal(&mut s, u64::MAX);
    assert_eq!(s, u64::MAX.to_string());
}

#[test]
fn signed_text() {
    let mut s = String::new();
    push_signed(&mut s, -8192);
    assert_eq!(s, "-8192");
    let mut s = String::new();
    push_signed(&mut s, 8191);
    assert_eq!(s, "8191");
    let mut s = String::new();
    push_signed(&mut s, i64::MIN);
    assert_eq!(s, i64::MIN.to_string());
}

#[test]
fn hex_text() {
    let mut s = String::new();
    push_hex_byte(&mut s, 0x0A);
    push_hex_byte(&mut s, 0xF8);
    push_hex_byte(&mut s, 0x00);
    assert_eq!(s, "0af800");
}
