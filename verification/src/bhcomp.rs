//! The slow path: an exact comparison, in big integers, of the decimal
//! number with the point halfway between a float and the next one.

use vstd::prelude::*;
use vstd::arithmetic::power::{lemma_pow_adds, pow};
use vstd::arithmetic::power2::{lemma2_to64, lemma2_to64_rest, lemma_pow2_adds, pow2};
use crate::bignum::{Bigint, Comparison};
use crate::nearest::{choose_nearest, is_nearest, lemma_choose_nearest, Number};
use crate::digit::{
    all_digits,
    digits_value,
    leading_zero_count,
    lemma_digits_value_step,
    to_digit,
    trailing_zero_count,
};
use crate::parse::digit_at;
use crate::num::{float_exponent, float_mantissa, mantissa, Float, Format};
use crate::small_powers::{lemma_pow10_32, lemma_pow_step, POW10_32};

verus! {

/// The significant digits of a digit string: the digits without the zeros
/// that lead them and the zeros that end them.
pub open spec fn significant_digits(digits: Seq<u8>) -> Seq<u8> {
    let start = leading_zero_count(digits) as int;
    let end = digits.len() - trailing_zero_count(digits);
    if start <= end {
        digits.subrange(start, end)
    } else {
        digits.take(0)
    }
}

/// The significant digits as a number, of at most `max_digits` digits:
/// where there are as many or more, the first `max_digits - 1` of them,
/// followed by a digit `1` that stands for all the rest.
pub open spec fn capped_value(digits: Seq<u8>, max_digits: nat) -> nat {
    if digits.len() < max_digits {
        digits_value(digits)
    } else {
        digits_value(digits.take(max_digits - 1)) * 10 + 1
    }
}

/// The power of ten that multiplies [`capped_value`] of the significant
/// digits to give the decimal number, up to what the cap left out.
pub open spec fn scaled_exponent(
    fmt: Format,
    integer: Seq<u8>,
    fraction: Seq<u8>,
    exponent: int,
) -> int {
    let significant = significant_digits(integer + fraction).len();
    let count = if significant < fmt.max_digits() {
        significant
    } else {
        fmt.max_digits() as nat
    };
    exponent + integer.len() - leading_zero_count(integer + fraction) - count
}

/// The decimal number that the slow path compares: the significant digits,
/// capped, times their power of ten.
pub open spec fn slow_number(
    fmt: Format,
    integer: Seq<u8>,
    fraction: Seq<u8>,
    exponent: int,
) -> Number {
    Number {
        digits: capped_value(significant_digits(integer + fraction), fmt.max_digits() as nat),
        binary: 0,
        decimal: scaled_exponent(fmt, integer, fraction, exponent),
    }
}

/// The bits of the float that the slow path chooses between the float with
/// the bits `b` and the next one: the next one where the decimal number is
/// above the point halfway between the two, or is that point and `b` is
/// odd.
pub open spec fn bhcomp_spec(
    fmt: Format,
    b: u64,
    integer: Seq<u8>,
    fraction: Seq<u8>,
    exponent: int,
) -> u64 {
    choose_nearest(fmt, slow_number(fmt, integer, fraction, exponent), b)
}

/// Multiplies `big` by `5^n`.
fn scale_pow5(big: &mut Bigint, n: u128)
    requires
        old(big).wf(),
    ensures
        final(big).wf(),
        final(big).value() == old(big).value() * pow(5, n as nat),
{
    let ghost start = big.value();
    let mut left: u128 = n;
    proof {
        lemma_pow_step(5, 0);
    }
    while left > 0
        invariant
            big.wf(),
            left <= n,
            big.value() == start * pow(5, (n - left) as nat),
        decreases left,
    {
        let step: u64 = if left > u64::MAX as u128 {
            u64::MAX
        } else {
            left as u64
        };
        proof {
            lemma_pow_adds(5, (n - left) as nat, step as nat);
            let a = pow(5, (n - left) as nat);
            let b = pow(5, step as nat);
            assert(start * a * b == start * (a * b)) by (nonlinear_arith);
        }
        big.imul_pow5(step);
        left = left - step as u128;
    }
}

/// Multiplies `big` by `2^n`.
fn scale_pow2(big: &mut Bigint, n: u128)
    requires
        old(big).wf(),
    ensures
        final(big).wf(),
        final(big).value() == old(big).value() * pow2(n as nat),
{
    let ghost start = big.value();
    let mut left: u128 = n;
    proof {
        lemma2_to64();
        let one = pow2(0);
        assert(start * one == start) by (nonlinear_arith)
            requires
                one == 1,
        ;
    }
    while left > 0
        invariant
            big.wf(),
            left <= n,
            big.value() == start * pow2((n - left) as nat),
        decreases left,
    {
        let step: u64 = if left > u64::MAX as u128 {
            u64::MAX
        } else {
            left as u64
        };
        proof {
            lemma_pow2_adds((n - left) as nat, step as nat);
            let a = pow2((n - left) as nat);
            let b = pow2(step as nat);
            assert(start * a * b == start * (a * b)) by (nonlinear_arith);
        }
        big.imul_pow2(step);
        left = left - step as u128;
    }
}

/// Finds the significant digits among the integer digits followed by the
/// fraction digits: returns the positions at which they start and end.
#[verifier::rlimit(50)]
fn significant_range(integer: &[u8], fraction: &[u8]) -> (r: (usize, usize))
    requires
        integer.len() + fraction.len() <= usize::MAX,
    ensures
        r.0 == leading_zero_count(integer@ + fraction@),
        r.0 <= r.1 <= integer.len() + fraction.len(),
        (integer@ + fraction@).subrange(r.0 as int, r.1 as int) == significant_digits(
            integer@ + fraction@,
        ),
{
    let ghost digits = integer@ + fraction@;
    let total: usize = integer.len() + fraction.len();
    let mut start: usize = 0;
    proof {
        assert(digits.skip(0) =~= digits);
        assert(digits.take(total as int) =~= digits);
    }
    while start < total && digit_at(integer, fraction, start) == 0x30
        invariant
            start <= total,
            total == integer.len() + fraction.len(),
            digits == integer@ + fraction@,
            leading_zero_count(digits) == start + leading_zero_count(digits.skip(start as int)),
        decreases total - start,
    {
        proof {
            assert(digits.skip(start as int).skip(1) =~= digits.skip(start as int + 1));
        }
        start = start + 1;
    }
    let mut end: usize = total;
    while end > start && digit_at(integer, fraction, end - 1) == 0x30
        invariant
            start <= end <= total,
            total == integer.len() + fraction.len(),
            digits == integer@ + fraction@,
            trailing_zero_count(digits) == total - end + trailing_zero_count(
                digits.take(end as int),
            ),
        decreases end,
    {
        proof {
            assert(digits.take(end as int).drop_last() =~= digits.take(end as int - 1));
        }
        end = end - 1;
    }
    proof {
        if end == start {
            lemma_trailing_zeros_bound(digits.take(end as int));
            assert(digits.subrange(start as int, end as int) =~= digits.take(0));
        }
    }
    (start, end)
}

/// The zeros that end a digit string are no more than its digits.
proof fn lemma_trailing_zeros_bound(s: Seq<u8>)
    ensures
        trailing_zero_count(s) <= s.len(),
    decreases s.len(),
{
    if s.len() > 0 && s.last() == 0x30 {
        lemma_trailing_zeros_bound(s.drop_last());
    }
}

/// Reads the digits from position `start` up to position `end` of the
/// integer digits followed by the fraction digits into a big integer of at
/// most `max_digits` digits.
#[verifier::rlimit(50)]
fn parse_mantissa(
    integer: &[u8],
    fraction: &[u8],
    start: usize,
    end: usize,
    max_digits: usize,
) -> (r: Bigint)
    requires
        all_digits(integer@),
        all_digits(fraction@),
        integer.len() + fraction.len() <= usize::MAX,
        start <= end <= integer.len() + fraction.len(),
        max_digits >= 1,
    ensures
        r.wf(),
        r.value() == capped_value(
            (integer@ + fraction@).subrange(start as int, end as int),
            max_digits as nat,
        ),
{
    let ghost digits = (integer@ + fraction@).subrange(start as int, end as int);
    let capped: bool = end - start >= max_digits;
    let last: usize = if capped {
        start + (max_digits - 1)
    } else {
        end
    };
    let mut big = Bigint::new();
    let mut value: u32 = 0;
    let mut counter: usize = 0;
    let mut i: usize = start;
    proof {
        lemma_pow_step(10, 0);
        assert(digits.take(0) =~= Seq::<u8>::empty());
    }
    while i < last
        invariant
            start <= i <= last,
            last <= end,
            end <= integer.len() + fraction.len(),
            digits == (integer@ + fraction@).subrange(start as int, end as int),
            all_digits(integer@),
            all_digits(fraction@),
            big.wf(),
            counter <= 9,
            value < pow(10, counter as nat),
            digits_value(digits.take(i - start)) == big.value() * pow(10, counter as nat) + value,
        decreases last - i,
    {
        if counter == 9 {
            proof {
                lemma_pow10_32(9);
            }
            big.imul_small(POW10_32[9]);
            big.iadd_small(value);
            counter = 0;
            value = 0;
            proof {
                lemma_pow_step(10, 0);
                let one = pow(10, 0);
                let v = big.value();
                assert(v * one == v) by (nonlinear_arith)
                    requires
                        one == 1,
                ;
            }
        }
        let c: u8 = digit_at(integer, fraction, i);
        assert(c == digits[i - start]);
        let digit: u32 = match to_digit(c) {
            Some(d) => d,
            None => 0,
        };
        proof {
            lemma_digits_value_step(digits, i - start);
            lemma_pow_step(10, counter as nat);
            lemma_pow10_32(counter as int);
            lemma_pow10_32(counter as int + 1);
            let p = pow(10, counter as nat);
            let v = big.value();
            assert((v * p + value) * 10 + digit == v * (10 * p) + (value * 10 + digit))
                by (nonlinear_arith);
        }
        value = value * 10 + digit;
        counter = counter + 1;
        i = i + 1;
    }
    if counter != 0 {
        proof {
            lemma_pow10_32(counter as int);
        }
        big.imul_small(POW10_32[counter]);
        big.iadd_small(value);
    } else {
        proof {
            lemma_pow_step(10, 0);
            let one = pow(10, 0);
            let v = big.value();
            assert(v * one == v) by (nonlinear_arith)
                requires
                    one == 1,
            ;
        }
    }
    if capped {
        big.imul_small(10);
        big.iadd_small(1);
    } else {
        proof {
            assert(digits.take(end - start) =~= digits);
        }
    }
    big
}

/// The float with the next higher bit pattern: the next float above a
/// non-negative finite float.
fn next_positive<F: Float>(f: F) -> (r: F)
    requires
        f.bits() < F::format().infinity_bits(),
    ensures
        r.bits() == f.bits() + 1,
{
    F::from_bits(f.to_bits() + 1)
}

/// Compares the number `decimal * 10^scaled` with the point halfway
/// between the float `b` and the next one: both are multiplied by the
/// powers of five and of two that make them integers.
#[verifier::rlimit(50)]
fn compare_scaled<F: Float>(decimal: Bigint, scaled: i128, b: F) -> (r: Comparison)
    requires
        decimal.wf(),
        b.bits() < F::format().infinity_bits(),
        -0x1_0000_0000_0000_0000_0000 <= scaled <= 0x1_0000_0000_0000_0000_0000,
    ensures
        r == crate::nearest::compare_with_halfway(
            F::format(),
            Number { digits: decimal.value(), binary: 0, decimal: scaled as int },
            b.bits(),
        ),
{
    let mut decimal = decimal;
    let ghost digits = decimal.value();
    proof {
        lemma2_to64();
        lemma2_to64_rest();
        F::format().lemma_masks();
        lemma_pow_step(5, 0);
    }
    let mut midpoint: Bigint = Bigint::from_u64(2 * mantissa(b) + 1);
    let midpoint_exp: i32 = crate::num::exponent::<F>(b) - 1;
    let ghost halfway = midpoint.value();
    let ghost one_five = pow(5, 0);
    let ghost one_two = pow2(0);
    if scaled >= 0 {
        scale_pow5(&mut decimal, scaled as u128);
        assert(halfway * one_five == halfway) by (nonlinear_arith)
            requires
                one_five == 1,
        ;
    } else {
        scale_pow5(&mut midpoint, (-scaled) as u128);
        assert(digits * one_five == digits) by (nonlinear_arith)
            requires
                one_five == 1,
        ;
    }
    let ghost decimal_fives = decimal.value();
    let ghost midpoint_fives = midpoint.value();
    let binary: i128 = midpoint_exp as i128 - scaled;
    if binary > 0 {
        scale_pow2(&mut midpoint, binary as u128);
    } else if binary < 0 {
        scale_pow2(&mut decimal, (-binary) as u128);
    }
    proof {
        assert(decimal_fives * one_two == decimal_fives) by (nonlinear_arith)
            requires
                one_two == 1,
        ;
        assert(midpoint_fives * one_two == midpoint_fives) by (nonlinear_arith)
            requires
                one_two == 1,
        ;
    }
    decimal.compare(&midpoint)
}

/// Chooses between the float `b` and the next one above it by comparing the
/// decimal number exactly with the point halfway between the two. The
/// result is the correctly rounded float where the decimal number lies
/// between `b` and the next float. Zeros that lead or end the digits do not
/// count as digits.
#[verifier::rlimit(50)]
pub fn bhcomp<F: Float>(b: F, integer: &[u8], fraction: &[u8], exponent: i32) -> (r: F)
    requires
        all_digits(integer@),
        all_digits(fraction@),
        integer.len() + fraction.len() <= usize::MAX,
        b.bits() < F::format().infinity_bits(),
    ensures
        r.bits() == bhcomp_spec(F::format(), b.bits(), integer@, fraction@, exponent as int),
        r.bits() <= F::format().infinity_bits(),
        digits_value(integer@ + fraction@) != 0 && (is_nearest(
            F::format(),
            crate::parse::decimal_number(integer@, fraction@, exponent as int),
            b.bits(),
        ) || is_nearest(
            F::format(),
            crate::parse::decimal_number(integer@, fraction@, exponent as int),
            (b.bits() + 1) as u64,
        )) ==> is_nearest(
            F::format(),
            crate::parse::decimal_number(integer@, fraction@, exponent as int),
            r.bits(),
        ),
{
    proof {
        let x = crate::parse::decimal_number(integer@, fraction@, exponent as int);
        if digits_value(integer@ + fraction@) != 0 && (is_nearest(F::format(), x, b.bits())
            || is_nearest(F::format(), x, (b.bits() + 1) as u64)) {
            lemma_bhcomp_decimal(F::format(), b.bits(), integer@, fraction@, exponent as int);
        }
    }
    let (start, end) = significant_range(integer, fraction);
    let significant: usize = end - start;
    let max_digits: usize = F::max_digits();
    let count: usize = if significant < max_digits {
        significant
    } else {
        max_digits
    };
    let scaled: i128 = exponent as i128 + integer.len() as i128 - start as i128 - count as i128;
    let decimal: Bigint = parse_mantissa(integer, fraction, start, end, max_digits);
    match compare_scaled::<F>(decimal, scaled, b) {
        Comparison::Greater => next_positive(b),
        Comparison::Less => b,
        Comparison::Equal => if b.to_bits() % 2 == 1 {
            next_positive(b)
        } else {
            b
        },
    }
}

/// Where the significant digits are fewer than the slow path reads at
/// most, the number that it compares is the decimal number.
#[verifier::rlimit(50)]
pub proof fn lemma_slow_number_exact(
    fmt: Format,
    integer: Seq<u8>,
    fraction: Seq<u8>,
    exponent: int,
    mant: nat,
    exp: int,
)
    requires
        digits_value(integer + fraction) != 0,
        significant_digits(integer + fraction).len() < fmt.max_digits(),
    ensures
        crate::nearest::compare_with(slow_number(fmt, integer, fraction, exponent), mant, exp)
            == crate::nearest::compare_with(
            crate::parse::decimal_number(integer, fraction, exponent),
            mant,
            exp,
        ),
{
    let digits = integer + fraction;
    let slow = slow_number(fmt, integer, fraction, exponent);
    let start = leading_zero_count(digits) as int;
    let zeros = trailing_zero_count(digits);
    let end = digits.len() - zeros;
    crate::digit::lemma_zeros_apart(digits);
    crate::digit::lemma_trailing_zeros_value(digits);
    let head = digits.take(end);
    crate::digit::lemma_leading_zeros_prefix(digits, end);
    crate::digit::lemma_leading_zeros_value(head);
    assert(head.skip(start) =~= digits.subrange(start, end));
    let significant = significant_digits(digits);
    assert(significant == digits.subrange(start, end));
    assert(slow.digits == digits_value(significant));
    assert(slow.decimal == exponent - fraction.len() + zeros);
    crate::nearest::lemma_move_digits_any(slow, zeros, mant, exp);
}

/// Where the significant digits are as many as the slow path reads at
/// most, or more, the number that it compares is on the same side of
/// every point halfway between two finite floats as the decimal number.
#[verifier::rlimit(50)]
pub proof fn lemma_slow_number_capped(
    fmt: Format,
    integer: Seq<u8>,
    fraction: Seq<u8>,
    exponent: int,
    mant: nat,
    exp: int,
)
    requires
        all_digits(integer),
        all_digits(fraction),
        digits_value(integer + fraction) != 0,
        significant_digits(integer + fraction).len() >= fmt.max_digits(),
        mant < 4 * fmt.hidden_bit_mask(),
        fmt.denormal_exponent() - 1 <= exp <= fmt.max_exponent() - 2,
    ensures
        crate::nearest::compare_with(slow_number(fmt, integer, fraction, exponent), mant, exp)
            == crate::nearest::compare_with(
            crate::parse::decimal_number(integer, fraction, exponent),
            mant,
            exp,
        ),
{
    let digits = integer + fraction;
    let x = crate::parse::decimal_number(integer, fraction, exponent);
    let slow = slow_number(fmt, integer, fraction, exponent);
    let start = leading_zero_count(digits) as int;
    let zeros = trailing_zero_count(digits);
    let end = digits.len() - zeros;
    crate::digit::lemma_digits_joined(integer, fraction);
    crate::digit::lemma_zeros_apart(digits);
    crate::digit::lemma_trailing_zeros_value(digits);
    let head = digits.take(end);
    crate::digit::lemma_leading_zeros_prefix(digits, end);
    crate::digit::lemma_leading_zeros_value(head);
    assert(head.skip(start) =~= digits.subrange(start, end));
    let significant = significant_digits(digits);
    assert(significant == digits.subrange(start, end));
    crate::digit::lemma_digits_subrange(digits, start, end);
    crate::digit::lemma_leading_zeros_stop(digits);
    crate::digit::lemma_trailing_zeros_stop(digits);
    assert(significant[0] == digits[start]);
    assert(significant.last() == digits[end - 1]);
    // The digits read, and the rest.
    let most = fmt.max_digits() as int;
    let read = significant.take(most - 1);
    let rest = significant.skip(most - 1);
    let count = (significant.len() - (most - 1)) as nat;
    let first = digits_value(read);
    let last = digits_value(rest);
    crate::digit::lemma_digits_value_split(significant, most - 1);
    crate::digit::lemma_digits_subrange(significant, 0, most - 1);
    crate::digit::lemma_digits_subrange(significant, most - 1, significant.len() as int);
    assert(read =~= significant.subrange(0, most - 1));
    assert(rest =~= significant.subrange(most - 1, significant.len() as int));
    crate::digit::lemma_digits_value_bound(rest);
    assert(read[0] == significant[0]);
    crate::digit::lemma_first_digit(read);
    assert(last >= 1) by {
        assert(rest.last() == significant.last());
        assert(crate::digit::is_digit_byte(rest.last()));
    }
    let at = slow.decimal + 1;
    lemma_pow_step(10, 0);
    lemma_pow_step(10, 1);
    assert(slow.digits == first * 10 + 1);
    // The decimal number, with its trailing zeros in the exponent.
    let inner = Number {
        digits: digits_value(significant),
        binary: 0,
        decimal: exponent - fraction.len() + zeros,
    };
    assert(inner.decimal == at - count);
    crate::nearest::lemma_move_digits_any(inner, zeros, mant, exp);
    let ten = pow(10, count);
    assert((first + 1) * ten == first * ten + ten) by (nonlinear_arith);
    assert(crate::nearest::holds_digits(inner, first, at, false));
    assert(crate::nearest::holds_digits(slow, first, at, false));
    crate::nearest::lemma_holds_digits(inner, first, at, false, mant, exp);
    crate::nearest::lemma_holds_digits(slow, first, at, false, mant, exp);
    crate::many_digits::lemma_halfway_outside(fmt, first, at, mant, exp);
}

/// The number that the slow path compares is on the same side of the
/// point halfway past a finite float as the decimal number.
pub proof fn lemma_slow_number(
    fmt: Format,
    b: u64,
    integer: Seq<u8>,
    fraction: Seq<u8>,
    exponent: int,
)
    requires
        all_digits(integer),
        all_digits(fraction),
        digits_value(integer + fraction) != 0,
        b < fmt.infinity_bits(),
    ensures
        choose_nearest(fmt, slow_number(fmt, integer, fraction, exponent), b) == choose_nearest(
            fmt,
            crate::parse::decimal_number(integer, fraction, exponent),
            b,
        ),
{
    let halfway = 2 * float_mantissa(fmt, b) + 1;
    let binary = float_exponent(fmt, b) - 1;
    if significant_digits(integer + fraction).len() < fmt.max_digits() {
        lemma_slow_number_exact(fmt, integer, fraction, exponent, halfway, binary);
    } else {
        crate::num::lemma_parts_of_bits(fmt, b);
        crate::num::lemma_bits_of_parts(fmt, float_mantissa(fmt, b), float_exponent(fmt, b));
        lemma_slow_number_capped(fmt, integer, fraction, exponent, halfway, binary);
    }
}

/// Started from the float nearest to the decimal number, the slow path
/// returns that float.
pub proof fn lemma_bhcomp_agrees(
    fmt: Format,
    b: u64,
    integer: Seq<u8>,
    fraction: Seq<u8>,
    exponent: int,
)
    requires
        all_digits(integer),
        all_digits(fraction),
        digits_value(integer + fraction) != 0,
        b < fmt.infinity_bits(),
        is_nearest(fmt, crate::parse::decimal_number(integer, fraction, exponent), b),
    ensures
        bhcomp_spec(fmt, b, integer, fraction, exponent) == b,
{
    let x = crate::parse::decimal_number(integer, fraction, exponent);
    lemma_slow_number(fmt, b, integer, fraction, exponent);
    lemma_choose_nearest(fmt, x, b);
    crate::nearest::lemma_nearest_unique(fmt, x, b, choose_nearest(fmt, x, b));
}

/// Where the float nearest to the decimal number is `b` or the next float
/// above it, the slow path returns it.
pub proof fn lemma_bhcomp_decimal(
    fmt: Format,
    b: u64,
    integer: Seq<u8>,
    fraction: Seq<u8>,
    exponent: int,
)
    requires
        all_digits(integer),
        all_digits(fraction),
        digits_value(integer + fraction) != 0,
        b < fmt.infinity_bits(),
        is_nearest(fmt, crate::parse::decimal_number(integer, fraction, exponent), b)
            || is_nearest(
            fmt,
            crate::parse::decimal_number(integer, fraction, exponent),
            (b + 1) as u64,
        ),
    ensures
        is_nearest(
            fmt,
            crate::parse::decimal_number(integer, fraction, exponent),
            bhcomp_spec(fmt, b, integer, fraction, exponent),
        ),
{
    lemma_slow_number(fmt, b, integer, fraction, exponent);
    lemma_choose_nearest(fmt, crate::parse::decimal_number(integer, fraction, exponent), b);
}

} // verus!
