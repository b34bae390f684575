use mqtt::text::{push_decimal, push_signed_decimal};

#[test]
fn decimal_digits() {
    let mut out = String::new();
    push_decimal(&mut out, 0);
    assert_eq!(out, "0");
    push_decimal(&mut out, 9);
    assert_eq!(out, "09");
    push_decimal(&mut out, 10);
    assert_eq!(out, "0910");
    let mut max = String::new();
    push_decimal(&mut max, u32::MAX);
    assert_eq!(max, "4294967295");
}

#[test]
fn signed_decimal_text() {
    let mut out = String::from("x=");
    push_signed_decimal(&mut out, -305);
    assert_eq!(out, "x=-305");
    let mut zero = String::new();
    push_signed_decimal(&mut zero, 0);
    assert_eq!(zero, "0");
    let mut min = String::new();
    push_signed_decimal(&mut min, i32::MIN);
    assert_eq!(min, "-2147483648");
    let mut max = String::new();
    push_signed_decimal(&mut max, i32::MAX);
    assert_eq!(max, "2147483647");
}
