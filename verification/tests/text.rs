use magnus::text::{append_decimal, append_digits, decimal_text, digits_text};

#[test]
fn decimal_of_small_numbers() {
    assert_eq!(decimal_text(0), "0");
    assert_eq!(decimal_text(7), "7");
    assert_eq!(decimal_text(9), "9");
    assert_eq!(decimal_text(10), "10");
    assert_eq!(decimal_text(65), "65");
    assert_eq!(decimal_text(1009), "1009");
}

#[test]
fn decimal_of_negative_numbers() {
    assert_eq!(decimal_text(-1), "-1");
    assert_eq!(decimal_text(-10), "-10");
    assert_eq!(decimal_text(-2147483648), "-2147483648");
}

#[test]
fn decimal_of_the_extremes() {
    assert_eq!(decimal_text(i64::MAX), "9223372036854775807");
    assert_eq!(decimal_text(i64::MIN), "-9223372036854775808");
}

#[test]
fn decimal_agrees_with_the_standard_library() {
    let mut n: i64 = 1;
    for _ in 0..18 {
        for delta in [-1i64, 0, 1] {
            let value = n + delta;
            assert_eq!(decimal_text(value), value.to_string());
            assert_eq!(decimal_text(-value), (-value).to_string());
        }
        n *= 10;
    }
}

#[test]
fn digits_are_appended_after_what_is_there() {
    let mut out = "n=".to_string();
    append_digits(&mut out, 120);
    assert_eq!(out, "n=120");
    append_digits(&mut out, u64::MAX);
    assert_eq!(out, "n=12018446744073709551615");
    let mut signed = "x: ".to_string();
    append_decimal(&mut signed, -42);
    append_decimal(&mut signed, 0);
    assert_eq!(signed, "x: -420");
}

#[test]
fn digits_of_unsigned_numbers() {
    assert_eq!(digits_text(0), "0");
    assert_eq!(digits_text(10), "10");
    assert_eq!(digits_text(u64::MAX), "18446744073709551615");
}
