use spdk_io::text::{decimal_i32, decimal_u64};

#[test]
fn decimal_of_small_and_large_numbers() {
    assert_eq!(decimal_u64(0), "0");
    assert_eq!(decimal_u64(7), "7");
    assert_eq!(decimal_u64(10), "10");
    assert_eq!(decimal_u64(1234567890), "1234567890");
    assert_eq!(decimal_u64(u64::MAX), u64::MAX.to_string());
}

#[test]
fn signed_decimal_has_minus_sign() {
    assert_eq!(decimal_i32(0), "0");
    assert_eq!(decimal_i32(-42), "-42");
    assert_eq!(decimal_i32(42), "42");
    assert_eq!(decimal_i32(i32::MIN), "-2147483648");
    assert_eq!(decimal_i32(i32::MAX), "2147483647");
}
