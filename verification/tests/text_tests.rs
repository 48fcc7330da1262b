use cuda_intrinsics::text::{decimal_string, push_decimal};

#[test]
fn decimal_notation() {
    assert_eq!(decimal_string(0), "0");
    assert_eq!(decimal_string(7), "7");
    assert_eq!(decimal_string(10), "10");
    assert_eq!(decimal_string(23), "23");
    assert_eq!(decimal_string(1000), "1000");
    assert_eq!(decimal_string(usize::MAX), usize::MAX.to_string());
}

#[test]
fn decimal_appends() {
    let mut s = String::from("$");
    push_decimal(&mut s, 16);
    assert_eq!(s, "$16");
}
