use testanything::decimal::{decimal_string, natural_string, push_decimal, push_digits};

#[test]
fn decimal_of_small_numbers() {
    assert_eq!(decimal_string(0), "0");
    assert_eq!(decimal_string(7), "7");
    assert_eq!(decimal_string(9), "9");
    assert_eq!(decimal_string(10), "10");
    assert_eq!(decimal_string(42), "42");
    assert_eq!(decimal_string(100), "100");
    assert_eq!(decimal_string(1234567890), "1234567890");
}

#[test]
fn decimal_of_negative_numbers() {
    assert_eq!(decimal_string(-1), "-1");
    assert_eq!(decimal_string(-10), "-10");
    assert_eq!(decimal_string(-905), "-905");
}

#[test]
fn decimal_at_the_limits() {
    assert_eq!(decimal_string(i64::MAX), "9223372036854775807");
    assert_eq!(decimal_string(i64::MIN), "-9223372036854775808");
    assert_eq!(natural_string(0), "0");
    assert_eq!(natural_string(u64::MAX), "18446744073709551615");
}

#[test]
fn decimal_agrees_with_the_standard_rendering() {
    let samples: [i64; 9] = [0, 1, -1, 19, 20, 99, -100, 1000000007, -4611686018427387904];
    for sample in samples {
        assert_eq!(decimal_string(sample), sample.to_string());
    }
    let naturals: [u64; 5] = [0, 5, 60, 700, 9223372036854775808];
    for natural in naturals {
        assert_eq!(natural_string(natural), natural.to_string());
    }
}

#[test]
fn pushing_appends_to_what_is_there() {
    let mut buf = String::from("n=");
    push_decimal(&mut buf, -12);
    assert_eq!(buf, "n=-12");
    push_digits(&mut buf, 305);
    assert_eq!(buf, "n=-12305");
}
