//! The entry point: from the digits of a decimal number to the float.

use vstd::prelude::*;
use crate::algorithm::{fallback_path, fallback_path_spec, fast_path, fast_path_spec};
use crate::exponent::{mantissa_exponent, mantissa_exponent_spec};
use crate::nearest::{holds_digits, is_nearest, Number};
use crate::num::{Float, Format};
use crate::digit::{
    add_digit,
    all_digits,
    digit_value,
    digits_value,
    lemma_digits_value_monotonic,
    lemma_digits_value_step,
    to_digit,
};

verus! {

/// The number of leading digits of `s` that the 64-bit significand holds:
/// the largest count whose digits show a number that fits in 64 bits.
pub open spec fn kept_digits(s: Seq<u8>) -> nat
    decreases s.len(),
{
    if digits_value(s) <= u64::MAX {
        s.len()
    } else {
        kept_digits(s.drop_last())
    }
}

/// The 64-bit significand of the digits `s`.
pub open spec fn significand(s: Seq<u8>) -> nat {
    digits_value(s.take(kept_digits(s) as int))
}

/// The number of digits of `s` that the significand does not hold.
pub open spec fn truncated_digits(s: Seq<u8>) -> nat {
    (s.len() - kept_digits(s)) as nat
}

/// The count of kept digits is where the number shown first passes 64 bits.
pub proof fn lemma_kept_digits(s: Seq<u8>, i: int)
    requires
        0 <= i <= s.len(),
        digits_value(s.take(i)) <= u64::MAX,
        i < s.len() ==> digits_value(s.take(i + 1)) > u64::MAX,
    ensures
        kept_digits(s) == i,
    decreases s.len() - i,
{
    if i == s.len() {
        assert(s.take(i) =~= s);
    } else {
        lemma_digits_value_monotonic(s, i + 1, s.len() as int);
        assert(s.take(s.len() as int) =~= s);
        let shorter = s.drop_last();
        assert(shorter.take(i) =~= s.take(i));
        if i < shorter.len() {
            assert(shorter.take(i + 1) =~= s.take(i + 1));
        }
        lemma_kept_digits(shorter, i);
    }
}

/// The decimal number that the digits and the decimal exponent stand for:
/// the integer digits, a decimal point, the fraction digits, times ten to
/// the exponent.
pub open spec fn decimal_number(integer: Seq<u8>, fraction: Seq<u8>, exponent: int) -> Number {
    Number {
        digits: digits_value(integer + fraction),
        binary: 0,
        decimal: exponent - fraction.len(),
    }
}

/// The digits kept show a number that fits in 64 bits, and one digit more
/// would not.
pub proof fn lemma_kept_digits_property(s: Seq<u8>)
    ensures
        kept_digits(s) <= s.len(),
        digits_value(s.take(kept_digits(s) as int)) <= u64::MAX,
        kept_digits(s) < s.len() ==> digits_value(s.take(kept_digits(s) as int + 1)) > u64::MAX,
    decreases s.len(),
{
    if digits_value(s) <= u64::MAX {
        assert(s.take(s.len() as int) =~= s);
    } else {
        let shorter = s.drop_last();
        lemma_kept_digits_property(shorter);
        let k = kept_digits(shorter) as int;
        assert(shorter.take(k) =~= s.take(k));
        if k < shorter.len() {
            assert(shorter.take(k + 1) =~= s.take(k + 1));
        } else {
            assert(s.take(k + 1) =~= s);
        }
    }
}

/// The decimal number holds the digits of its 64-bit significand at the
/// decimal exponent that goes with it; and a significand that left digits
/// out has at least 61 bits.
#[verifier::rlimit(50)]
pub proof fn lemma_decimal_holds(integer: Seq<u8>, fraction: Seq<u8>, exponent: int)
    requires
        all_digits(integer),
        all_digits(fraction),
    ensures
        ({
            let digits = integer + fraction;
            let truncated = truncated_digits(digits);
            &&& significand(digits) <= u64::MAX
            &&& holds_digits(
                decimal_number(integer, fraction, exponent),
                significand(digits),
                exponent - fraction.len() + truncated,
                truncated == 0,
            )
            &&& truncated > 0 ==> significand(digits) >= 0x1000_0000_0000_0000
        }),
{
    let digits = integer + fraction;
    let kept = kept_digits(digits) as int;
    let truncated = truncated_digits(digits);
    lemma_kept_digits_property(digits);
    crate::digit::lemma_digits_value_split(digits, kept);
    let rest = digits.skip(kept);
    crate::digit::lemma_digits_joined(integer, fraction);
    assert(rest =~= digits.subrange(kept, digits.len() as int));
    crate::digit::lemma_digits_subrange(digits, kept, digits.len() as int);
    crate::digit::lemma_digits_value_bound(rest);
    let m = significand(digits);
    let ten = vstd::arithmetic::power::pow(10, truncated);
    assert((m + 1) * ten == m * ten + ten) by (nonlinear_arith);
    crate::small_powers::lemma_pow_step(10, 0);
    if truncated == 0 {
        assert(m * 1 == m);
    } else {
        lemma_digits_value_step(digits, kept);
        assert(crate::digit::is_digit_byte(digits[kept]));
    }
}

/// The digit at position `i` of the integer digits followed by the
/// fraction digits.
pub fn digit_at(integer: &[u8], fraction: &[u8], i: usize) -> (r: u8)
    requires
        i < integer.len() + fraction.len(),
    ensures
        r == (integer@ + fraction@)[i as int],
{
    if i < integer.len() {
        integer[i]
    } else {
        fraction[i - integer.len()]
    }
}

/// Reads the digits into a 64-bit significand, as far as they fit. Returns
/// the significand and the number of digits left out.
#[verifier::rlimit(50)]
pub fn parse_mantissa(integer: &[u8], fraction: &[u8]) -> (r: (u64, usize))
    requires
        all_digits(integer@),
        all_digits(fraction@),
        integer.len() + fraction.len() <= usize::MAX,
    ensures
        r.0 == significand(integer@ + fraction@),
        r.1 == truncated_digits(integer@ + fraction@),
        r.1 <= integer.len() + fraction.len(),
{
    let ghost s = integer@ + fraction@;
    let total: usize = integer.len() + fraction.len();
    let mut value: u64 = 0;
    let mut i: usize = 0;
    while i < total
        invariant
            i <= total,
            total == s.len(),
            s == integer@ + fraction@,
            all_digits(integer@),
            all_digits(fraction@),
            value == digits_value(s.take(i as int)),
        decreases total - i,
    {
        let c: u8 = digit_at(integer, fraction, i);
        proof {
            lemma_digits_value_step(s, i as int);
        }
        let digit: u32 = match to_digit(c) {
            Some(d) => d,
            None => 0,
        };
        match add_digit(value, digit) {
            Some(v) => {
                value = v;
            },
            None => {
                proof {
                    lemma_kept_digits(s, i as int);
                }
                return (value, total - i);
            },
        }
        i = i + 1;
    }
    proof {
        lemma_kept_digits(s, i as int);
    }
    (value, 0)
}

/// The bits of the float of format `fmt` that the conversion gives for the
/// decimal number with the given integer digits, fraction digits and
/// decimal exponent.
///
/// A significand of zero gives zero. Else the fast path is taken where no
/// digit was left out of the significand and it applies; the moderate and
/// slow paths do the rest.
pub open spec fn parse_float_spec(
    fmt: Format,
    integer: Seq<u8>,
    fraction: Seq<u8>,
    exponent: int,
) -> u64 {
    let digits = integer + fraction;
    let mantissa = significand(digits) as u64;
    let truncated = truncated_digits(digits);
    let mant_exp = mantissa_exponent_spec(exponent, fraction.len(), truncated);
    let fast = if truncated == 0 {
        fast_path_spec(fmt, mantissa, mant_exp)
    } else {
        None
    };
    if mantissa == 0 {
        0
    } else {
        match fast {
            Some(bits) => bits,
            None => fallback_path_spec(
                fmt,
                integer,
                fraction,
                mantissa,
                exponent,
                mant_exp,
                truncated != 0,
            ),
        }
    }
}

/// Converts a decimal number to the float of the format `F` nearest to it.
///
/// The number is `0.<integer><fraction> * 10^(exponent + len(integer))`:
/// the integer digits, a decimal point, the fraction digits, times
/// `10^exponent`. The integer digits have no leading zeros and the
/// fraction digits no trailing zeros. The result carries no sign: it is
/// positive zero for a number that is zero or rounds to it, and positive
/// infinity for one too large for a finite float.
#[verifier::rlimit(50)]
pub fn parse_float<F: Float>(integer: &[u8], fraction: &[u8], exponent: i32) -> (r: F)
    requires
        all_digits(integer@),
        all_digits(fraction@),
        integer.len() + fraction.len() <= usize::MAX,
    ensures
        r.bits() == parse_float_spec(F::format(), integer@, fraction@, exponent as int),
        r.bits() <= F::format().infinity_bits(),
        is_nearest(F::format(), decimal_number(integer@, fraction@, exponent as int), r.bits()),
{
    proof {
        lemma_parse_float_nearest(F::format(), integer@, fraction@, exponent as int);
    }
    let (mantissa, truncated) = parse_mantissa(integer, fraction);
    let is_truncated: bool = truncated != 0;
    if mantissa == 0 {
        F::zero()
    } else if !is_truncated {
        let mant_exp: i32 = mantissa_exponent(exponent, fraction.len(), 0);
        match fast_path::<F>(mantissa, mant_exp) {
            Some(float) => float,
            None => fallback_path::<F>(
                integer,
                fraction,
                mantissa,
                exponent,
                mant_exp,
                is_truncated,
            ),
        }
    } else {
        let mant_exp: i32 = mantissa_exponent(exponent, fraction.len(), truncated);
        fallback_path::<F>(integer, fraction, mantissa, exponent, mant_exp, is_truncated)
    }
}

/// Zero is the float nearest to a number without digits.
proof fn lemma_zero_nearest(fmt: Format, x: Number)
    requires
        x.digits == 0,
    ensures
        is_nearest(fmt, x, 0),
{
    let exp = fmt.denormal_exponent() - 1;
    crate::num::lemma_bits_of_parts(fmt, 0, fmt.denormal_exponent());
    let five = vstd::arithmetic::power::pow(5, crate::nearest::positive_part(-x.decimal));
    let two = vstd::arithmetic::power2::pow2(
        crate::nearest::positive_part(exp - (x.binary + x.decimal)),
    );
    vstd::arithmetic::power::lemma_pow_positive(5, crate::nearest::positive_part(-x.decimal));
    vstd::arithmetic::power2::lemma_pow2_pos(
        crate::nearest::positive_part(exp - (x.binary + x.decimal)),
    );
    let left_five = vstd::arithmetic::power::pow(5, crate::nearest::positive_part(x.decimal));
    let left_two = vstd::arithmetic::power2::pow2(
        crate::nearest::positive_part(x.binary + x.decimal - exp),
    );
    assert(0 * left_five * left_two == 0) by (nonlinear_arith);
    assert(1 * five * two > 0) by (nonlinear_arith)
        requires
            five > 0,
            two > 0,
    ;
}

/// Whether a significand, its decimal exponent and the flag that digits
/// were left out are those of the digits and their decimal exponent.
pub open spec fn is_significand_of(
    integer: Seq<u8>,
    fraction: Seq<u8>,
    exponent: int,
    mantissa: u64,
    mantissa_exponent: int,
    truncated: bool,
) -> bool {
    let digits = integer + fraction;
    &&& mantissa == significand(digits)
    &&& truncated == (truncated_digits(digits) != 0)
    &&& mantissa_exponent == mantissa_exponent_spec(
        exponent,
        fraction.len(),
        truncated_digits(digits),
    )
}

/// The paths after the fast one are right: for the significand of the
/// digits, where it is not zero, they give the float nearest to the
/// decimal number.
#[verifier::rlimit(50)]
pub proof fn lemma_fallback_path_nearest(
    fmt: Format,
    integer: Seq<u8>,
    fraction: Seq<u8>,
    exponent: int,
)
    requires
        all_digits(integer),
        all_digits(fraction),
        significand(integer + fraction) != 0,
    ensures
        is_nearest(
            fmt,
            decimal_number(integer, fraction, exponent),
            fallback_path_spec(
                fmt,
                integer,
                fraction,
                significand(integer + fraction) as u64,
                exponent,
                mantissa_exponent_spec(
                    exponent,
                    fraction.len(),
                    truncated_digits(integer + fraction),
                ),
                truncated_digits(integer + fraction) != 0,
            ),
        ),
{
    let x = decimal_number(integer, fraction, exponent);
    let digits = integer + fraction;
    let mantissa = significand(digits) as u64;
    let truncated = truncated_digits(digits);
    let exact = exponent - fraction.len() + truncated;
    let mant_exp = mantissa_exponent_spec(exponent, fraction.len(), truncated);
    lemma_decimal_holds(integer, fraction, exponent);
    assert(crate::lemire_proof::is_exponent_estimate(mant_exp, exact));
    crate::lemire_proof::lemma_moderate_path_sound(
        fmt,
        x,
        mantissa,
        mant_exp,
        exact,
        truncated != 0,
    );
    let (float, valid) = crate::lemire::moderate_path_spec(fmt, mantissa, mant_exp, truncated != 0);
    crate::num::lemma_infinity_is_special(fmt, float);
    if !(valid || crate::num::is_special_spec(fmt, float)) {
        vstd::arithmetic::power::lemma_pow_positive(10, truncated);
        assert(x.digits != 0) by (nonlinear_arith)
            requires
                mantissa * vstd::arithmetic::power::pow(10, truncated) <= x.digits,
                mantissa > 0,
                vstd::arithmetic::power::pow(10, truncated) > 0,
        ;
        crate::bhcomp::lemma_bhcomp_decimal(fmt, float, integer, fraction, exponent);
    }
}

/// The conversion is right: it gives the float nearest to the decimal
/// number, and the even one of two that are equally near; infinity for a
/// number at or above the point halfway past the largest finite float.
#[verifier::rlimit(50)]
pub proof fn lemma_parse_float_nearest(
    fmt: Format,
    integer: Seq<u8>,
    fraction: Seq<u8>,
    exponent: int,
)
    requires
        all_digits(integer),
        all_digits(fraction),
    ensures
        is_nearest(
            fmt,
            decimal_number(integer, fraction, exponent),
            parse_float_spec(fmt, integer, fraction, exponent),
        ),
{
    let x = decimal_number(integer, fraction, exponent);
    let digits = integer + fraction;
    let mantissa = significand(digits) as u64;
    let truncated = truncated_digits(digits);
    let exact = exponent - fraction.len() + truncated;
    let mant_exp = mantissa_exponent_spec(exponent, fraction.len(), truncated);
    lemma_decimal_holds(integer, fraction, exponent);
    assert(crate::lemire_proof::is_exponent_estimate(mant_exp, exact));
    if mantissa == 0 {
        crate::small_powers::lemma_pow_step(10, 0);
        assert(x.digits == 0) by (nonlinear_arith)
            requires
                x.digits < (0 + 1) * vstd::arithmetic::power::pow(10, 0),
                vstd::arithmetic::power::pow(10, 0) == 1,
                truncated == 0,
        ;
        lemma_zero_nearest(fmt, x);
    } else {
        let fast = if truncated == 0 {
            fast_path_spec(fmt, mantissa, mant_exp)
        } else {
            None
        };
        if fast.is_some() {
            crate::algorithm::lemma_fast_path_nearest(fmt, mantissa, mant_exp);
            assert(mant_exp == exact) by {
                match fmt {
                    Format::Binary32 => {},
                    Format::Binary64 => {},
                }
            }
            crate::nearest::lemma_nearest_exact(fmt, x, mantissa as nat, exact, fast.unwrap());
        } else {
            lemma_fallback_path_nearest(fmt, integer, fraction, exponent);
        }
    }
}

/// Zeros appended to the fraction digits do not change the float.
#[verifier::rlimit(50)]
pub proof fn lemma_appended_zeros(
    fmt: Format,
    integer: Seq<u8>,
    fraction: Seq<u8>,
    zeros: Seq<u8>,
    exponent: int,
)
    requires
        all_digits(integer),
        all_digits(fraction),
        crate::digit::all_zeros(zeros),
    ensures
        parse_float_spec(fmt, integer, fraction + zeros, exponent) == parse_float_spec(
            fmt,
            integer,
            fraction,
            exponent,
        ),
{
    let longer = fraction + zeros;
    assert(all_digits(zeros)) by {
        assert forall|i: int| 0 <= i < zeros.len() implies crate::digit::is_digit_byte(
            #[trigger] zeros[i],
        ) by {}
    }
    crate::digit::lemma_digits_joined(fraction, zeros);
    let x = decimal_number(integer, fraction, exponent);
    let y = decimal_number(integer, longer, exponent);
    let a = parse_float_spec(fmt, integer, fraction, exponent);
    let b = parse_float_spec(fmt, integer, longer, exponent);
    lemma_parse_float_nearest(fmt, integer, fraction, exponent);
    lemma_parse_float_nearest(fmt, integer, longer, exponent);
    let digits = integer + fraction;
    assert(integer + longer =~= digits + zeros);
    crate::digit::lemma_digits_value_split(digits + zeros, digits.len() as int);
    assert((digits + zeros).take(digits.len() as int) =~= digits);
    assert((digits + zeros).skip(digits.len() as int) =~= zeros);
    crate::digit::lemma_zeros_value(zeros);
    // The longer number is the shorter one with its digits moved.
    let ten = vstd::arithmetic::power::pow(10, zeros.len());
    vstd::arithmetic::power::lemma_pow_positive(10, zeros.len());
    assert(y.digits == x.digits * ten);
    assert(x.digits * ten < (x.digits + 1) * ten) by (nonlinear_arith)
        requires
            ten > 0,
    ;
    assert(y.decimal == x.decimal - zeros.len());
    assert(holds_digits(y, x.digits, x.decimal, true));
    crate::nearest::lemma_nearest_exact(fmt, y, x.digits, x.decimal, a);
    crate::nearest::lemma_nearest_unique(fmt, y, a, b);
}

/// A digit appended to the fraction digits does not make the float
/// smaller.
#[verifier::rlimit(50)]
pub proof fn lemma_appended_digit(
    fmt: Format,
    integer: Seq<u8>,
    fraction: Seq<u8>,
    digit: u8,
    exponent: int,
)
    requires
        all_digits(integer),
        all_digits(fraction),
        crate::digit::is_digit_byte(digit),
    ensures
        parse_float_spec(fmt, integer, fraction, exponent) <= parse_float_spec(
            fmt,
            integer,
            fraction.push(digit),
            exponent,
        ),
{
    let longer = fraction.push(digit);
    assert(all_digits(longer)) by {
        assert forall|i: int| 0 <= i < longer.len() implies crate::digit::is_digit_byte(
            #[trigger] longer[i],
        ) by {
            if i < fraction.len() {
                assert(longer[i] == fraction[i]);
            }
        }
    }
    let x = decimal_number(integer, fraction, exponent);
    let y = decimal_number(integer, longer, exponent);
    let a = parse_float_spec(fmt, integer, fraction, exponent);
    let b = parse_float_spec(fmt, integer, longer, exponent);
    lemma_parse_float_nearest(fmt, integer, fraction, exponent);
    lemma_parse_float_nearest(fmt, integer, longer, exponent);
    let digits = integer + fraction;
    assert(integer + longer =~= digits.push(digit));
    assert(digits.push(digit).drop_last() =~= digits);
    crate::small_powers::lemma_pow_step(10, 0);
    crate::small_powers::lemma_pow_step(10, 1);
    assert(y.digits == x.digits * 10 + crate::digit::digit_value(digit));
    assert(y.decimal == x.decimal - 1);
    assert(vstd::arithmetic::power::pow(10, 1) == 10);
    assert(holds_digits(y, x.digits, x.decimal, false));
    crate::nearest::lemma_nearest_monotonic(fmt, x, y, a, b);
}

} // verus!
