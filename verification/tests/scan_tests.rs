use minimal_lexical::num::{Binary32, Binary64};
use minimal_lexical::scan::{
    add_digit_i32, consume_digits, is_digit, ltrim_zero, parse_exponent, parse_float, parse_sign,
    rtrim_zero, split_at_index, sub_digit_i32,
};

fn check_parse_float(text: &str, value: f64, rest: &str) {
    let (float, tail) = parse_float::<Binary64>(text.as_bytes());
    assert_eq!((f64::from_bits(float.bits), tail), (value, rest.as_bytes()));
}

#[test]
fn scan_simple_floats() {
    check_parse_float("1.0e7", 1.0e7f64, "");
    check_parse_float("12345.67", 12345.67, "");
    check_parse_float("12345.67 narnia", 12345.67, " narnia");
}

#[test]
fn scan_signs_and_parts() {
    check_parse_float("+1.5", 1.5, "");
    check_parse_float("-1.5", -1.5, "");
    check_parse_float("-0", -0.0, "");
    assert_eq!(parse_float::<Binary64>(b"-0").0.bits, 0x8000000000000000);
    assert_eq!(parse_float::<Binary32>(b"-1").0.bits, 0xbf800000);
    check_parse_float("", 0.0, "");
    check_parse_float(".5", 0.5, "");
    check_parse_float("5.", 5.0, "");
    check_parse_float("5.e3", 5000.0, "");
    check_parse_float("0005.2500", 5.25, "");
    check_parse_float("1e+2", 100.0, "");
    check_parse_float("1E-2", 0.01, "");
    check_parse_float("1e", 1.0, "");
    check_parse_float("1e-", 1.0, "");
    check_parse_float("1ex", 1.0, "x");
    check_parse_float("1.2.3", 1.2, ".3");
    check_parse_float("--1", 0.0, "-1");
    check_parse_float("abc", 0.0, "abc");
    check_parse_float("1e99999999999999999999", f64::INFINITY, "");
    check_parse_float("1e-99999999999999999999", 0.0, "");
    check_parse_float("-1e99999999999999999999", f64::NEG_INFINITY, "");
}

#[test]
fn scan_sign() {
    assert_eq!(parse_sign(b"+12"), (true, &b"12"[..]));
    assert_eq!(parse_sign(b"-12"), (false, &b"12"[..]));
    assert_eq!(parse_sign(b"12"), (true, &b"12"[..]));
    assert_eq!(parse_sign(b""), (true, &b""[..]));
    assert_eq!(parse_sign(b"+"), (true, &b""[..]));
}

#[test]
fn scan_digits() {
    assert!(is_digit(b'0'));
    assert!(is_digit(b'9'));
    assert!(!is_digit(b'/'));
    assert!(!is_digit(b':'));
    assert!(!is_digit(b'a'));
    assert_eq!(consume_digits(b"123abc"), (&b"123"[..], &b"abc"[..]));
    assert_eq!(consume_digits(b"abc"), (&b""[..], &b"abc"[..]));
    assert_eq!(consume_digits(b"123"), (&b"123"[..], &b""[..]));
    assert_eq!(consume_digits(b""), (&b""[..], &b""[..]));
    assert_eq!(split_at_index(b"12345", 2), (&b"12"[..], &b"345"[..]));
    assert_eq!(split_at_index(b"12345", 0), (&b""[..], &b"12345"[..]));
    assert_eq!(split_at_index(b"12345", 5), (&b"12345"[..], &b""[..]));
}

#[test]
fn scan_trims_zeros() {
    assert_eq!(ltrim_zero(b"000120"), b"120");
    assert_eq!(ltrim_zero(b"120"), b"120");
    assert_eq!(ltrim_zero(b"000"), b"");
    assert_eq!(ltrim_zero(b""), b"");
    assert_eq!(rtrim_zero(b"012000"), b"012");
    assert_eq!(rtrim_zero(b"012"), b"012");
    assert_eq!(rtrim_zero(b"000"), b"");
    assert_eq!(rtrim_zero(b""), b"");
}

#[test]
fn scan_exponent_digits() {
    assert_eq!(add_digit_i32(12, 3), Some(123));
    assert_eq!(add_digit_i32(214748364, 7), Some(2147483647));
    assert_eq!(add_digit_i32(214748364, 8), None);
    assert_eq!(add_digit_i32(214748365, 0), None);
    assert_eq!(sub_digit_i32(-12, 3), Some(-123));
    assert_eq!(sub_digit_i32(-214748364, 8), Some(-2147483648));
    assert_eq!(sub_digit_i32(-214748364, 9), None);
    assert_eq!(sub_digit_i32(-214748365, 0), None);
    assert_eq!(parse_exponent(b"", true), 0);
    assert_eq!(parse_exponent(b"123", true), 123);
    assert_eq!(parse_exponent(b"123", false), -123);
    assert_eq!(parse_exponent(b"2147483647", true), 2147483647);
    assert_eq!(parse_exponent(b"2147483648", true), 2147483647);
    assert_eq!(parse_exponent(b"2147483648", false), -2147483648);
    assert_eq!(parse_exponent(b"2147483649", false), -2147483648);
    assert_eq!(parse_exponent(b"00000000000000000012", true), 12);
    assert_eq!(parse_exponent(b"99999999999999999999", false), -2147483648);
}
