use minimal_lexical::digit::{add_digit, count_leading_zeros, count_trailing_zeros, to_digit};
use minimal_lexical::exponent::mantissa_exponent;

#[test]
fn to_digit_reads_decimal_digits_only() {
    for c in 0..=255u8 {
        let expected = (c as char).to_digit(10);
        assert_eq!(to_digit(c), expected);
    }
    assert_eq!(to_digit(b'0'), Some(0));
    assert_eq!(to_digit(b'9'), Some(9));
    assert_eq!(to_digit(b'a'), None);
}

#[test]
fn add_digit_checks_overflow() {
    assert_eq!(add_digit(0, 0), Some(0));
    assert_eq!(add_digit(12, 3), Some(123));
    assert_eq!(add_digit(1844674407370955161, 5), Some(18446744073709551615));
    assert_eq!(add_digit(1844674407370955161, 6), None);
    assert_eq!(add_digit(1844674407370955162, 0), None);
    assert_eq!(add_digit(u64::MAX, 0), None);
}

#[test]
fn zeros_are_counted() {
    assert_eq!(count_leading_zeros(b"00120"), 2);
    assert_eq!(count_leading_zeros(b"120"), 0);
    assert_eq!(count_leading_zeros(b"000"), 3);
    assert_eq!(count_leading_zeros(b""), 0);
    assert_eq!(count_trailing_zeros(b"00120"), 1);
    assert_eq!(count_trailing_zeros(b"12"), 0);
    assert_eq!(count_trailing_zeros(b"000"), 3);
    assert_eq!(count_trailing_zeros(b""), 0);
}

#[test]
fn mantissa_exponent_saturates() {
    assert_eq!(mantissa_exponent(0, 0, 0), 0);
    assert_eq!(mantissa_exponent(5, 3, 0), 2);
    assert_eq!(mantissa_exponent(5, 3, 7), 9);
    assert_eq!(mantissa_exponent(-5, 10, 2), -13);
    assert_eq!(mantissa_exponent(i32::MIN, 10, 2), i32::MIN);
    assert_eq!(mantissa_exponent(i32::MAX, 2, 10), i32::MAX);
    assert_eq!(mantissa_exponent(i32::MAX, 10, 2), i32::MAX - 8);
    assert_eq!(mantissa_exponent(i32::MIN, 2, 10), i32::MIN + 8);
    assert_eq!(mantissa_exponent(0, usize::MAX, 0), i32::MIN);
    assert_eq!(mantissa_exponent(0, 0, usize::MAX), i32::MAX);
    assert_eq!(mantissa_exponent(i32::MAX, usize::MAX, usize::MAX), i32::MAX);
    assert_eq!(mantissa_exponent(i32::MIN, usize::MAX, usize::MAX - 1), i32::MIN);
    assert_eq!(mantissa_exponent(i32::MIN, usize::MAX - 1, usize::MAX), i32::MIN + 1);
}
