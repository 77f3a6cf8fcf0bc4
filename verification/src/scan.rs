//! A plain scanner for decimal floats in bytes: sign, integer digits,
//! fraction digits and exponent, handed to the conversion.
//!
//! It accepts any bytes and stops where the float ends. It knows nothing of
//! infinities or of values that are not numbers.

use vstd::prelude::*;
use vstd::slice::slice_subrange;
use crate::digit::{
    all_digits,
    count_leading_zeros,
    count_trailing_zeros,
    digits_value,
    is_digit_byte,
    leading_zero_count,
    lemma_digits_value_monotonic,
    lemma_digits_value_step,
    to_digit,
    trailing_zero_count,
};
use crate::exponent::saturate;
use crate::num::{Float, Format};
use crate::parse::{parse_float as parse_digits, parse_float_spec as parse_digits_spec};

verus! {

/// Whether a sign is positive, and the bytes after it: a leading `'+'` or
/// `'-'` is taken, and no sign is positive.
pub open spec fn sign_spec(bytes: Seq<u8>) -> (bool, Seq<u8>) {
    if bytes.len() > 0 && bytes[0] == 0x2B {
        (true, bytes.skip(1))
    } else if bytes.len() > 0 && bytes[0] == 0x2D {
        (false, bytes.skip(1))
    } else {
        (true, bytes)
    }
}

/// Reads a sign, and returns whether it is positive and the bytes after
/// it.
pub fn parse_sign<'a>(bytes: &'a [u8]) -> (r: (bool, &'a [u8]))
    ensures
        (r.0, r.1@) == sign_spec(bytes@),
{
    if bytes.len() > 0 && bytes[0] == 0x2B {
        let rest = slice_subrange(bytes, 1, bytes.len());
        assert(rest@ =~= bytes@.skip(1));
        (true, rest)
    } else if bytes.len() > 0 && bytes[0] == 0x2D {
        let rest = slice_subrange(bytes, 1, bytes.len());
        assert(rest@ =~= bytes@.skip(1));
        (false, rest)
    } else {
        (true, bytes)
    }
}

/// Appends a decimal digit to an exponent that is counted upward, or
/// returns `None` where ten times the exponent, or the result, does not
/// fit.
pub fn add_digit_i32(value: i32, digit: u32) -> (r: Option<i32>)
    requires
        digit <= 9,
    ensures
        r == (if i32::MIN <= value * 10 <= i32::MAX && value * 10 + digit <= i32::MAX {
            Some((value * 10 + digit) as i32)
        } else {
            None
        }),
{
    match value.checked_mul(10) {
        Some(v) => v.checked_add(digit as i32),
        None => None,
    }
}

/// Appends a decimal digit to an exponent that is counted downward, or
/// returns `None` where ten times the exponent, or the result, does not
/// fit.
pub fn sub_digit_i32(value: i32, digit: u32) -> (r: Option<i32>)
    requires
        digit <= 9,
    ensures
        r == (if i32::MIN <= value * 10 <= i32::MAX && i32::MIN <= value * 10 - digit {
            Some((value * 10 - digit) as i32)
        } else {
            None
        }),
{
    match value.checked_mul(10) {
        Some(v) => v.checked_sub(digit as i32),
        None => None,
    }
}

/// Whether the byte is an ASCII decimal digit.
pub fn is_digit(c: u8) -> (r: bool)
    ensures
        r == is_digit_byte(c),
{
    to_digit(c).is_some()
}

/// The bytes before position `index`, and those from it on.
pub fn split_at_index<'a>(digits: &'a [u8], index: usize) -> (r: (&'a [u8], &'a [u8]))
    requires
        index <= digits.len(),
    ensures
        r.0@ == digits@.take(index as int),
        r.1@ == digits@.skip(index as int),
{
    let head = slice_subrange(digits, 0, index);
    let tail = slice_subrange(digits, index, digits.len());
    assert(head@ =~= digits@.take(index as int));
    assert(tail@ =~= digits@.skip(index as int));
    (head, tail)
}

/// The number of ASCII decimal digits at the start of `s`.
pub open spec fn digit_prefix_len(s: Seq<u8>) -> nat
    decreases s.len(),
{
    if s.len() > 0 && is_digit_byte(s[0]) {
        1 + digit_prefix_len(s.skip(1))
    } else {
        0
    }
}

/// The digits at the start of a byte string are digits, and no more than
/// the string.
pub proof fn lemma_digit_prefix(s: Seq<u8>)
    ensures
        digit_prefix_len(s) <= s.len(),
        all_digits(s.take(digit_prefix_len(s) as int)),
    decreases s.len(),
{
    if s.len() > 0 && is_digit_byte(s[0]) {
        lemma_digit_prefix(s.skip(1));
        let n = digit_prefix_len(s) as int;
        assert forall|i: int| 0 <= i < n implies is_digit_byte(#[trigger] s.take(n)[i]) by {
            if i > 0 {
                assert(s.take(n)[i] == s.skip(1).take(n - 1)[i - 1]);
            }
        }
    }
}

/// Splits the bytes after the digits that start them.
pub fn consume_digits<'a>(digits: &'a [u8]) -> (r: (&'a [u8], &'a [u8]))
    ensures
        r.0@ == digits@.take(digit_prefix_len(digits@) as int),
        r.1@ == digits@.skip(digit_prefix_len(digits@) as int),
        all_digits(r.0@),
        r.0@.len() + r.1@.len() == digits@.len(),
{
    let mut index: usize = 0;
    proof {
        assert(digits@.skip(0) =~= digits@);
        lemma_digit_prefix(digits@);
    }
    while index < digits.len() && is_digit(digits[index])
        invariant
            index <= digits.len(),
            digit_prefix_len(digits@) == index + digit_prefix_len(digits@.skip(index as int)),
        decreases digits.len() - index,
    {
        proof {
            assert(digits@.skip(index as int).skip(1) =~= digits@.skip(index as int + 1));
        }
        index = index + 1;
    }
    split_at_index(digits, index)
}

/// The bytes without the `'0'` bytes that lead them.
pub fn ltrim_zero<'a>(bytes: &'a [u8]) -> (r: &'a [u8])
    ensures
        r@ == bytes@.skip(leading_zero_count(bytes@) as int),
        r@.len() <= bytes@.len(),
        all_digits(bytes@) ==> all_digits(r@),
{
    let count: usize = count_leading_zeros(bytes);
    let rest = slice_subrange(bytes, count, bytes.len());
    proof {
        assert(rest@ =~= bytes@.skip(count as int));
        if all_digits(bytes@) {
            crate::digit::lemma_digits_subrange(bytes@, count as int, bytes@.len() as int);
        }
    }
    rest
}

/// The bytes without the `'0'` bytes that end them.
pub fn rtrim_zero<'a>(bytes: &'a [u8]) -> (r: &'a [u8])
    ensures
        r@ == bytes@.take(bytes@.len() - trailing_zero_count(bytes@)),
        r@.len() <= bytes@.len(),
        all_digits(bytes@) ==> all_digits(r@),
{
    let count: usize = count_trailing_zeros(bytes);
    let index: usize = bytes.len() - count;
    let rest = slice_subrange(bytes, 0, index);
    proof {
        assert(rest@ =~= bytes@.take(index as int));
        if all_digits(bytes@) {
            crate::digit::lemma_digits_subrange(bytes@, 0, index as int);
        }
    }
    rest
}

/// The exponent that a string of digits and its sign show, brought into
/// the range of `i32`.
pub open spec fn exponent_spec(digits: Seq<u8>, is_positive: bool) -> int {
    if is_positive {
        saturate(digits_value(digits) as int)
    } else {
        saturate(-(digits_value(digits) as int))
    }
}

/// Reads the digits of an exponent. An exponent too large for an `i32` is
/// the nearest end of its range.
pub fn parse_exponent(exponent: &[u8], is_positive: bool) -> (r: i32)
    requires
        all_digits(exponent@),
    ensures
        r == exponent_spec(exponent@, is_positive),
{
    let mut value: i32 = 0;
    let mut i: usize = 0;
    let n: usize = exponent.len();
    while i < n
        invariant
            i <= n,
            n == exponent.len(),
            all_digits(exponent@),
            is_positive ==> value == digits_value(exponent@.take(i as int)),
            !is_positive ==> value == -(digits_value(exponent@.take(i as int)) as int),
        decreases n - i,
    {
        let digit: u32 = match to_digit(exponent[i]) {
            Some(d) => d,
            None => 0,
        };
        proof {
            lemma_digits_value_step(exponent@, i as int);
            lemma_digits_value_monotonic(exponent@, i as int + 1, n as int);
            assert(exponent@.take(n as int) =~= exponent@);
        }
        if is_positive {
            match add_digit_i32(value, digit) {
                Some(v) => {
                    value = v;
                },
                None => {
                    return i32::MAX;
                },
            }
        } else {
            match sub_digit_i32(value, digit) {
                Some(v) => {
                    value = v;
                },
                None => {
                    return i32::MIN;
                },
            }
        }
        i = i + 1;
    }
    proof {
        assert(exponent@.take(n as int) =~= exponent@);
    }
    value
}

/// The parts of a decimal float in bytes.
pub struct Scanned {
    /// Whether the float has no `'-'` before it.
    pub is_positive: bool,
    /// The digits before the decimal point, without leading zeros.
    pub integer: Seq<u8>,
    /// The digits after the decimal point, without trailing zeros.
    pub fraction: Seq<u8>,
    /// The decimal exponent.
    pub exponent: int,
    /// The bytes after the float.
    pub rest: Seq<u8>,
}

/// The parts of the decimal float that starts the bytes: a sign, digits, a
/// `'.'` with digits after it, and an `'e'` or `'E'` with a sign and digits
/// after it. Each part may be missing.
pub open spec fn scan_spec(bytes: Seq<u8>) -> Scanned {
    let (is_positive, after_sign) = sign_spec(bytes);
    let integer_len = digit_prefix_len(after_sign) as int;
    let integer = after_sign.take(integer_len);
    let after_integer = after_sign.skip(integer_len);
    let has_point = after_integer.len() > 0 && after_integer[0] == 0x2E;
    let fraction_len = if has_point {
        digit_prefix_len(after_integer.skip(1)) as int
    } else {
        0
    };
    let fraction = if has_point {
        after_integer.skip(1).take(fraction_len)
    } else {
        after_integer.take(0)
    };
    let after_fraction = if has_point {
        after_integer.skip(1).skip(fraction_len)
    } else {
        after_integer
    };
    let has_exponent = after_fraction.len() > 0 && (after_fraction[0] == 0x65 || after_fraction[0]
        == 0x45);
    let (exponent_positive, exponent_bytes) = sign_spec(after_fraction.skip(1));
    let exponent_len = digit_prefix_len(exponent_bytes) as int;
    Scanned {
        is_positive,
        integer: integer.skip(leading_zero_count(integer) as int),
        fraction: fraction.take(fraction.len() - trailing_zero_count(fraction)),
        exponent: if has_exponent {
            exponent_spec(exponent_bytes.take(exponent_len), exponent_positive)
        } else {
            0
        },
        rest: if has_exponent {
            exponent_bytes.skip(exponent_len)
        } else {
            after_fraction
        },
    }
}

/// The bits of the float of format `fmt` that the decimal float at the
/// start of the bytes converts to, sign included, and the bytes after it.
pub open spec fn parse_float_spec(fmt: Format, bytes: Seq<u8>) -> (u64, Seq<u8>) {
    let scanned = scan_spec(bytes);
    let magnitude = parse_digits_spec(
        fmt,
        scanned.integer,
        scanned.fraction,
        scanned.exponent,
    );
    let bits = if scanned.is_positive {
        magnitude
    } else {
        (magnitude + fmt.sign_mask()) as u64
    };
    (bits, scanned.rest)
}

/// The decimal number, without its sign, that the decimal float at the
/// start of the bytes stands for.
pub open spec fn scan_number(bytes: Seq<u8>) -> crate::nearest::Number {
    let scanned = scan_spec(bytes);
    crate::parse::decimal_number(scanned.integer, scanned.fraction, scanned.exponent)
}

/// The bits of a float without its sign, where the sign is known.
pub open spec fn magnitude(fmt: Format, bits: u64, is_positive: bool) -> u64 {
    if is_positive {
        bits
    } else {
        (bits - fmt.sign_mask()) as u64
    }
}

/// Reads the decimal float that starts the bytes and converts it to the
/// nearest float of the format `F`. Returns the float and the bytes after
/// it. Without its sign, the float is the one nearest to the decimal number
/// without its sign.
#[verifier::rlimit(50)]
pub fn parse_float<'a, F: Float>(bytes: &'a [u8]) -> (r: (F, &'a [u8]))
    ensures
        (r.0.bits(), r.1@) == parse_float_spec(F::format(), bytes@),
        crate::nearest::is_nearest(
            F::format(),
            scan_number(bytes@),
            magnitude(F::format(), r.0.bits(), scan_spec(bytes@).is_positive),
        ),
{
    let (is_positive, after_sign) = parse_sign(bytes);
    let (integer_slc, after_integer) = consume_digits(after_sign);
    let (fraction_slc, after_fraction) = if after_integer.len() > 0 && after_integer[0] == 0x2E {
        let after_point = slice_subrange(after_integer, 1, after_integer.len());
        assert(after_point@ =~= after_integer@.skip(1));
        consume_digits(after_point)
    } else {
        let empty = slice_subrange(after_integer, 0, 0);
        assert(empty@ =~= after_integer@.take(0));
        (empty, after_integer)
    };
    let (exponent, rest) = if after_fraction.len() > 0 && (after_fraction[0] == 0x65
        || after_fraction[0] == 0x45) {
        let after_letter = slice_subrange(after_fraction, 1, after_fraction.len());
        assert(after_letter@ =~= after_fraction@.skip(1));
        let (exponent_positive, exponent_bytes) = parse_sign(after_letter);
        let (exponent_slc, rest) = consume_digits(exponent_bytes);
        (parse_exponent(exponent_slc, exponent_positive), rest)
    } else {
        (0, after_fraction)
    };
    assert(integer_slc@.len() + fraction_slc@.len() <= after_sign@.len());
    assert(after_sign@.len() == after_sign.len());
    let integer_slc = ltrim_zero(integer_slc);
    let fraction_slc = rtrim_zero(fraction_slc);

    let float: F = parse_digits::<F>(integer_slc, fraction_slc, exponent);
    proof {
        F::format().lemma_masks();
    }
    let float = if is_positive {
        float
    } else {
        F::from_bits(float.to_bits() + F::sign_mask())
    };
    (float, rest)
}

} // verus!
