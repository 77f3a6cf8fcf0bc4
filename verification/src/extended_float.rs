//! The moderate path through an extended-precision float: the significand
//! times the leading 64 bits of a power of ten, with a bound on the error
//! that decides whether the rounded result is proved.
//!
//! Errors are counted in units of the last place of the normalized 64-bit
//! significand. Each source of error is allowed eight of them: the digits
//! left out of the significand, the rounding of the product, and the power
//! of ten, of which the table holds the leading bits only.

use vstd::prelude::*;
use vstd::arithmetic::power2::{lemma2_to64, lemma2_to64_rest, pow2};
use crate::bits::{
    halfway,
    lemma_normalize_shift,
    lower_n_bits,
    lower_n_halfway,
    normalize_shift,
    shl_64,
    two_64,
};
use crate::float::ExtendedFloat;
use crate::lemire::{log2_pow10, power_of_10_log2};
use crate::num::{Float, Format};
use crate::nearest::{
    holds_digits,
    is_sound_estimate,
    is_within,
    lemma_compare_monotonic,
    lemma_compare_shift,
    lemma_holds_digits,
    Number,
};
use crate::powers::{
    get_power_of_10,
    power_of_10,
    power_of_10_exponent,
    MAX_NORMAL_EXP10,
    MIN_DENORMAL_EXP10,
};
use crate::scaling::lemma_power_position_high;

verus! {

/// Whether a significand whose lowest `extrabits` bits are to be rounded
/// away is at least `errors` away from the point halfway between two
/// results, so that an error of up to `errors` does not change the
/// rounding. The distances wrap at 64 bits. With 65 bits to round away,
/// the result is zero unless the significand with the error added passes
/// `2^64`.
pub open spec fn nearest_error_is_accurate_spec(errors: u64, mant: u64, extrabits: nat) -> bool {
    if extrabits == 65 {
        mant + errors <= u64::MAX
    } else {
        let extra = mant as nat % pow2(extrabits);
        let half = halfway(extrabits);
        let below = (half - errors) % two_64();
        let above = (half + errors) % two_64();
        !(below < extra && extra < above)
    }
}

/// Checks that an error of `errors` cannot change how the lowest
/// `extrabits` bits round to nearest.
fn nearest_error_is_accurate(errors: u64, fp: &ExtendedFloat, extrabits: u32) -> (r: bool)
    requires
        extrabits <= 65,
    ensures
        r == nearest_error_is_accurate_spec(errors, fp.mant, extrabits as nat),
{
    if extrabits == 65 {
        fp.mant.checked_add(errors).is_some()
    } else {
        let extra: u64 = lower_n_bits(fp.mant, extrabits);
        let half: u64 = lower_n_halfway(extrabits);
        let below: bool = half.wrapping_sub(errors) < extra;
        let above: bool = extra < half.wrapping_add(errors);
        !(below && above)
    }
}

/// The allowance for one source of error, in units of the last place of the
/// normalized 64-bit significand.
pub open spec fn error_scale() -> nat {
    8
}

/// The number of low bits of a normalized 64-bit significand with binary
/// exponent `exp` that rounding to the format drops: all beyond the
/// significand width, and more where the float is subnormal.
pub open spec fn extra_bits(fmt: Format, exp: int) -> int {
    let bias = -(fmt.exponent_bias() - fmt.mantissa_size());
    let denormal_exp = bias - 63;
    if exp <= denormal_exp {
        64 - fmt.mantissa_size() + denormal_exp - exp
    } else {
        63 - fmt.mantissa_size()
    }
}

/// Whether the extended float, known up to `count` error units, rounds to
/// one float whatever the error. A float that loses more than 65 bits is a
/// certain zero.
pub open spec fn error_is_accurate_spec(fmt: Format, count: u64, fp: ExtendedFloat) -> bool {
    let extrabits = extra_bits(fmt, fp.exp as int);
    if extrabits > 65 {
        true
    } else {
        nearest_error_is_accurate_spec(count, fp.mant, extrabits as nat)
    }
}

/// Checks whether the extended float rounds to one float whatever its
/// error.
fn error_is_accurate<F: Float>(count: u64, fp: &ExtendedFloat) -> (r: bool)
    requires
        fp.exp_in_range(),
    ensures
        r == error_is_accurate_spec(F::format(), count, *fp),
{
    let bias: i32 = -(F::exponent_bias() - F::mantissa_size());
    let denormal_exp: i32 = bias - 63;
    let extrabits: i32 = if fp.exp <= denormal_exp {
        64 - F::mantissa_size() + denormal_exp - fp.exp
    } else {
        63 - F::mantissa_size()
    };
    if extrabits > 65 {
        return true;
    }
    nearest_error_is_accurate(count, fp, extrabits as u32)
}

/// The error units that remain after the product with the power of ten is
/// normalized by `shift` bits: one allowance for truncated digits, one for
/// a product that was rounded, one for the power of ten, all doubled by
/// each bit of the shift.
pub open spec fn error_units(truncated: bool, inexact: bool, shift: nat) -> nat {
    let digits = if truncated {
        error_scale()
    } else {
        0
    };
    let product = if inexact {
        error_scale()
    } else {
        0
    };
    (digits + product + error_scale()) * pow2(shift)
}

/// The extended float `mant * 10^exponent`, and whether it is known well
/// enough to round it to the format.
///
/// Below the smallest decimal exponent of the table the result is a certain
/// zero, above the largest a certain infinity. Else the normalized
/// significand is multiplied by the leading 64 bits of the power of ten,
/// the product is normalized, and the error bound decides.
pub open spec fn multiply_exponent_extended_spec(
    fmt: Format,
    fp: ExtendedFloat,
    exponent: int,
    truncated: bool,
) -> (ExtendedFloat, bool) {
    if exponent < MIN_DENORMAL_EXP10 {
        (ExtendedFloat { mant: 0, exp: fp.exp }, true)
    } else if exponent > MAX_NORMAL_EXP10 {
        (ExtendedFloat { mant: 0x8000_0000_0000_0000, exp: 0x7FF }, true)
    } else {
        let large = ExtendedFloat {
            mant: power_of_10(exponent).0,
            exp: (-63 + log2_pow10(exponent)) as i32,
        };
        let normal = fp.normalize_spec();
        let inexact = (normal.mant * large.mant) % two_64() != 0;
        let product = normal.mul_spec(large);
        let shift = normalize_shift(product.mant);
        let result = product.normalize_spec();
        let errors = error_units(truncated, inexact, shift) as u64;
        (result, error_is_accurate_spec(fmt, errors, result))
    }
}

/// The product of two normalized significands needs at most one bit of
/// shift to be normalized again.
proof fn lemma_product_shift(a: u64, b: u64)
    requires
        a >= 0x8000_0000_0000_0000,
        b >= 0x8000_0000_0000_0000,
    ensures
        (a * b + 0x8000_0000_0000_0000) / 0x1_0000_0000_0000_0000 >= 0x4000_0000_0000_0000,
        normalize_shift(((a * b + 0x8000_0000_0000_0000) / 0x1_0000_0000_0000_0000) as u64) <= 1,
{
    assert(a * b >= 0x8000_0000_0000_0000 * 0x8000_0000_0000_0000) by (nonlinear_arith)
        requires
            a >= 0x8000_0000_0000_0000,
            b >= 0x8000_0000_0000_0000,
    ;
    assert(a * b <= 0xFFFF_FFFF_FFFF_FFFF * 0xFFFF_FFFF_FFFF_FFFF) by (nonlinear_arith)
        requires
            a <= 0xFFFF_FFFF_FFFF_FFFF,
            b <= 0xFFFF_FFFF_FFFF_FFFF,
    ;
    let p: u64 = ((a * b + 0x8000_0000_0000_0000) / 0x1_0000_0000_0000_0000) as u64;
    lemma_normalize_shift(p);
    lemma2_to64();
    lemma2_to64_rest();
    let s = normalize_shift(p);
    if s >= 2 {
        crate::bits::lemma_pow2_monotonic(2, s);
        assert(p * pow2(s) >= 0x4000_0000_0000_0000 * 4) by (nonlinear_arith)
            requires
                p >= 0x4000_0000_0000_0000,
                pow2(s) >= 4,
        ;
    }
}

/// Multiplies the extended float by `10^exponent` and says whether the
/// result is known well enough to round it to the format `F`.
#[verifier::rlimit(50)]
fn multiply_exponent_extended<F: Float>(fp: &mut ExtendedFloat, exponent: i32, truncated: bool) -> (r:
    bool)
    requires
        -64 <= old(fp).exp <= 64,
    ensures
        (*final(fp), r) == multiply_exponent_extended_spec(
            F::format(),
            *old(fp),
            exponent as int,
            truncated,
        ),
        final(fp).exp_in_range(),
{
    if exponent < MIN_DENORMAL_EXP10 {
        fp.mant = 0;
        true
    } else if exponent > MAX_NORMAL_EXP10 {
        fp.mant = 0x8000_0000_0000_0000;
        fp.exp = 0x7FF;
        true
    } else {
        let mut errors: u64 = 0;
        if truncated {
            errors = errors + 8;
        }
        let exp: i32 = -63 + power_of_10_log2(exponent);
        let mant: u64 = get_power_of_10(exponent).0;
        let large = ExtendedFloat { mant, exp };

        fp.normalize();
        let ghost normal = *fp;
        let low: u64 = crate::lemire::mul(fp.mant, large.mant).1;
        if low != 0 {
            errors = errors + 8;
        }
        fp.imul(&large);
        errors = errors + 8;

        proof {
            lemma2_to64();
            if normal.mant != 0 {
                lemma_product_shift(normal.mant, large.mant);
            }
        }
        let shift: u32 = fp.normalize();
        errors = shl_64(errors, shift);

        error_is_accurate::<F>(errors, fp)
    }
}

/// The float that the extended-precision path gives for
/// `mantissa * 10^exponent`, and whether it is proved. A proved result is
/// rounded to nearest, ties to even; one that is not proved is rounded
/// down, for the slow path to start from.
pub open spec fn moderate_path_spec(fmt: Format, mantissa: u64, exponent: int, truncated: bool) -> (
    u64,
    bool,
) {
    let (fp, valid) = multiply_exponent_extended_spec(
        fmt,
        ExtendedFloat { mant: mantissa, exp: 0 },
        exponent,
        truncated,
    );
    if valid {
        (fp.into_float_spec(fmt), true)
    } else {
        (fp.into_downward_float_spec(fmt), false)
    }
}

/// Converts `mantissa * 10^exponent` to a float of the format `F` through
/// an extended-precision float. Returns the float and whether it is proved
/// to be the correctly rounded one; `truncated` says that digits beyond
/// `mantissa` were dropped.
#[verifier::rlimit(50)]
pub fn moderate_path<F: Float>(mantissa: u64, exponent: i32, truncated: bool) -> (r: (F, bool))
    ensures
        (r.0.bits(), r.1) == moderate_path_spec(F::format(), mantissa, exponent as int, truncated),
        r.0.bits() <= F::format().infinity_bits(),
        forall|x: Number|
            truncated && mantissa >= 0x1000_0000_0000_0000 && #[trigger] holds_digits(
                x,
                mantissa as nat,
                exponent as int,
                false,
            ) ==> is_sound_estimate(F::format(), x, r.0.bits(), r.1),
        forall|x: Number|
            mantissa != 0 && !truncated && #[trigger] holds_digits(
                x,
                mantissa as nat,
                exponent as int,
                true,
            ) ==> is_sound_estimate(F::format(), x, r.0.bits(), r.1),
{
    proof {
        let estimate = moderate_path_spec(F::format(), mantissa, exponent as int, truncated);
        assert forall|x: Number|
            truncated && mantissa >= 0x1000_0000_0000_0000 && #[trigger] holds_digits(
                x,
                mantissa as nat,
                exponent as int,
                false,
            ) implies is_sound_estimate(F::format(), x, estimate.0, estimate.1) by {
            lemma_moderate_path_sound(F::format(), x, mantissa, exponent as int, truncated);
        }
        assert forall|x: Number|
            mantissa != 0 && !truncated && #[trigger] holds_digits(
                x,
                mantissa as nat,
                exponent as int,
                true,
            ) implies is_sound_estimate(F::format(), x, estimate.0, estimate.1) by {
            lemma_moderate_path_sound(F::format(), x, mantissa, exponent as int, truncated);
        }
    }
    let mut fp = ExtendedFloat { mant: mantissa, exp: 0 };
    let valid: bool = multiply_exponent_extended::<F>(&mut fp, exponent, truncated);
    if valid {
        (fp.into_float::<F>(), true)
    } else {
        (fp.into_downward_float::<F>(), false)
    }
}

/// The extended float that [`multiply_exponent_extended_spec`] gives for
/// `mantissa * 10^exponent`, for a decimal exponent of the table.
pub open spec fn scaled_product(mantissa: u64, exponent: int) -> ExtendedFloat {
    let large = ExtendedFloat {
        mant: power_of_10(exponent).0,
        exp: (-63 + log2_pow10(exponent)) as i32,
    };
    ExtendedFloat { mant: mantissa, exp: 0 }.normalize_spec().mul_spec(large).normalize_spec()
}

/// The error units that [`multiply_exponent_extended_spec`] counts for
/// `mantissa * 10^exponent`, for a decimal exponent of the table.
pub open spec fn scaled_errors(mantissa: u64, exponent: int, truncated: bool) -> nat {
    let large = ExtendedFloat {
        mant: power_of_10(exponent).0,
        exp: (-63 + log2_pow10(exponent)) as i32,
    };
    let normal = ExtendedFloat { mant: mantissa, exp: 0 }.normalize_spec();
    let inexact = (normal.mant * large.mant) % two_64() != 0;
    error_units(truncated, inexact, normalize_shift(normal.mul_spec(large).mant))
}

/// The integers of a product of a normalized significand and the high word
/// of a power of ten: the product rounded to 64 bits is within one of the
/// product, and the bounds of a number between the product and the product
/// with the next significand and the next word are within the error units
/// of it.
#[verifier::rlimit(50)]
proof fn lemma_product_bounds(
    mant: nat,
    high: nat,
    first: nat,
    second: nat,
    rest: nat,
    rounded: nat,
    units: nat,
    truncated: bool,
)
    requires
        mant >= 1,
        high < 0x1_0000_0000_0000_0000,
        first >= 1,
        second >= 1,
        rest >= 1,
        first * second * rest == 0x1_0000_0000_0000_0000,
        mant * first < 0x1_0000_0000_0000_0000,
        rounded == (mant * first * high + 0x8000_0000_0000_0000) / 0x1_0000_0000_0000_0000,
        truncated ==> first <= 8,
        truncated ==> units >= 16,
        units >= 8,
        rounded * second >= units * second,
    ensures
        (rounded * second - units * second) * rest < mant * high,
        !truncated ==> (rounded * second + units * second) * rest >= mant * high + mant,
        truncated ==> (rounded * second + units * second) * rest >= (mant + 1) * (high + 1),
{
    let word: int = 0x1_0000_0000_0000_0000;
    let product = mant * first * high;
    assert(rounded * word <= product + 0x8000_0000_0000_0000 < (rounded + 1) * word) by {
        vstd::arithmetic::div_mod::lemma_fundamental_div_mod((product + 0x8000_0000_0000_0000) as int, word);
        vstd::arithmetic::div_mod::lemma_mod_bound((product + 0x8000_0000_0000_0000) as int, word);
        assert(word * rounded == rounded * word) by (nonlinear_arith);
    }
    let low = (rounded * second - units * second) * rest;
    let top = (rounded * second + units * second) * rest;
    assert(low * first == (rounded - units) * word && top * first == (rounded + units) * word)
        by (nonlinear_arith)
        requires
            low == (rounded * second - units * second) * rest,
            top == (rounded * second + units * second) * rest,
            first * second * rest == word,
    ;
    assert(low * first < (mant * high) * first) by (nonlinear_arith)
        requires
            low * first == (rounded - units) * word,
            rounded * word <= product + 0x8000_0000_0000_0000,
            product == mant * first * high,
            units >= 8,
            word == 0x1_0000_0000_0000_0000,
    ;
    assert(low < mant * high) by (nonlinear_arith)
        requires
            low * first < (mant * high) * first,
            first >= 1,
    ;
    if truncated {
        assert(top * first >= ((mant + 1) * (high + 1)) * first) by (nonlinear_arith)
            requires
                top * first == (rounded + units) * word,
                product + 0x8000_0000_0000_0000 < (rounded + 1) * word,
                product == mant * first * high,
                units >= 16,
                word == 0x1_0000_0000_0000_0000,
                mant * first < word,
                high < word,
                first <= 8,
        ;
        assert(top >= (mant + 1) * (high + 1)) by (nonlinear_arith)
            requires
                top * first >= ((mant + 1) * (high + 1)) * first,
                first >= 1,
        ;
    } else {
        assert(top * first >= (mant * high + mant) * first) by (nonlinear_arith)
            requires
                top * first == (rounded + units) * word,
                product + 0x8000_0000_0000_0000 < (rounded + 1) * word,
                product == mant * first * high,
                units >= 8,
                word == 0x1_0000_0000_0000_0000,
                mant * first < word,
        ;
        assert(top >= mant * high + mant) by (nonlinear_arith)
            requires
                top * first >= (mant * high + mant) * first,
                first >= 1,
        ;
    }
}

/// A number that holds the digits of `mantissa` at the decimal exponent
/// `exponent` lies within the error units of the extended float that the
/// product with the power of ten gives. Where digits were truncated, the
/// significand has at least 61 bits, as one that 64 bits could not hold
/// another digit of has.
#[verifier::rlimit(50)]
pub proof fn lemma_scaled_product(x: Number, mantissa: u64, exponent: int, truncated: bool)
    requires
        mantissa != 0,
        truncated ==> mantissa >= 0x1000_0000_0000_0000,
        MIN_DENORMAL_EXP10 <= exponent <= MAX_NORMAL_EXP10,
        holds_digits(x, mantissa as nat, exponent, !truncated),
    ensures
        ({
            let fp = scaled_product(mantissa, exponent);
            let errors = scaled_errors(mantissa, exponent, truncated);
            &&& fp.mant >= 0x8000_0000_0000_0000
            &&& -1400 <= fp.exp <= 1200
            &&& 8 <= errors <= 48
            &&& is_within(x, fp.mant - errors, (fp.mant + errors) as nat, fp.exp as int)
        }),
{
    lemma2_to64();
    lemma2_to64_rest();
    let m = mantissa as nat;
    let high = power_of_10(exponent).0 as nat;
    let q = power_of_10_exponent(exponent);
    assert(q == -63 + log2_pow10(exponent));
    lemma_power_position_high(m, exponent);
    lemma_power_position_high(m + 1, exponent);
    lemma_normalize_shift(mantissa);
    let s1 = normalize_shift(mantissa);
    let first = pow2(s1);
    let normal = ExtendedFloat { mant: mantissa, exp: 0 }.normalize_spec();
    assert(normal.mant == m * first && normal.exp == -s1);
    if truncated {
        crate::bits::lemma_leading_zeros_bounds(mantissa);
        if s1 >= 4 {
            crate::bits::lemma_pow2_monotonic((64 - s1) as nat, 60);
        }
        assert(s1 <= 3);
        crate::bits::lemma_pow2_monotonic(s1, 3);
    }
    let large = ExtendedFloat { mant: high as u64, exp: q as i32 };
    let product = normal.mul_spec(large);
    lemma_product_shift(normal.mant, high as u64);
    let wide = normal.mant * high;
    assert(wide <= 0xFFFF_FFFF_FFFF_FFFF * 0xFFFF_FFFF_FFFF_FFFF) by (nonlinear_arith)
        requires
            wide == normal.mant * high,
            normal.mant <= 0xFFFF_FFFF_FFFF_FFFF,
            high <= 0xFFFF_FFFF_FFFF_FFFF,
    ;
    assert(product.mant == (wide + 0x8000_0000_0000_0000) / 0x1_0000_0000_0000_0000);
    lemma_normalize_shift(product.mant);
    let s2 = normalize_shift(product.mant);
    let second = pow2(s2);
    crate::bits::lemma_pow2_monotonic(s2, 1);
    let fp = scaled_product(mantissa, exponent);
    assert(fp == product.normalize_spec());
    assert(fp.mant == product.mant * second);
    assert(fp.exp == q - s1 + 64 - s2);
    let up = (64 - s1 - s2) as nat;
    let rest = pow2(up);
    vstd::arithmetic::power2::lemma_pow2_adds(s1, s2);
    vstd::arithmetic::power2::lemma_pow2_adds(s1 + s2, up);
    vstd::arithmetic::power2::lemma_pow2_pos(up);
    vstd::arithmetic::power2::lemma_pow2_pos(s1);
    vstd::arithmetic::power2::lemma_pow2_pos(s2);
    let inexact = (normal.mant * high) % two_64() != 0;
    let units: nat = ((if truncated {
        8nat
    } else {
        0nat
    }) + (if inexact {
        8nat
    } else {
        0nat
    }) + 8) as nat;
    let errors = scaled_errors(mantissa, exponent, truncated);
    assert(errors == units * second);
    assert(second == 1 || second == 2);
    assert(8 <= errors <= 48) by (nonlinear_arith)
        requires
            errors == units * second,
            8 <= units <= 24,
            second == 1 || second == 2,
    ;
    assert(product.mant * second >= units * second) by (nonlinear_arith)
        requires
            product.mant >= 0x4000_0000_0000_0000,
            units <= 24,
            second >= 1,
    ;
    assert(m * first * high == (m * first) * high) by (nonlinear_arith);
    lemma_product_bounds(m, high, first, second, rest, product.mant as nat, units, truncated);
    let low = (fp.mant - errors) as nat;
    let top = (fp.mant + errors) as nat;
    // Down to the exponent of the table.
    lemma_compare_shift(x, low, q, up);
    lemma_compare_shift(x, top, q, up);
    lemma_holds_digits(x, m, exponent, !truncated, m * high, q);
    lemma_compare_monotonic(x, low * rest, m * high, q);
    if truncated {
        lemma_holds_digits(x, m, exponent, !truncated, (m + 1) * high + (m + 1), q);
        assert((m + 1) * high + (m + 1) == (m + 1) * (high + 1)) by (nonlinear_arith);
        lemma_compare_monotonic(x, (m + 1) * high + (m + 1), top * rest, q);
    } else {
        lemma_holds_digits(x, m, exponent, !truncated, m * high + m, q);
        lemma_compare_monotonic(x, m * high + m, top * rest, q);
    }
    assert(-1200 <= q <= 1000) by {
        assert(q == -63 + (217706 * exponent) / 65536);
    }
}

/// What the error check says: that so many bits are dropped that the
/// error cannot matter; or, where 65 bits are dropped, that the significand
/// with the error stays in 64 bits; or that the bits dropped are at least
/// the error away from half of their range.
#[verifier::rlimit(50)]
proof fn lemma_accuracy(fmt: Format, errors: nat, fp: ExtendedFloat)
    requires
        1 <= errors <= 48,
    ensures
        ({
            let shift = crate::rounding::native_shift(fmt, fp.exp as int);
            let dropped = fp.mant as nat % pow2(shift as nat);
            let half = pow2((shift - 1) as nat);
            let valid = error_is_accurate_spec(fmt, errors as u64, fp);
            &&& shift >= 11
            &&& shift > 65 ==> valid
            &&& shift == 65 ==> valid == (fp.mant + errors <= u64::MAX)
            &&& shift <= 64 ==> valid == (dropped + errors <= half || dropped >= half + errors)
        }),
{
    let shift = crate::rounding::native_shift(fmt, fp.exp as int);
    assert(extra_bits(fmt, fp.exp as int) == shift);
    if 11 <= shift <= 64 {
        lemma2_to64();
        let half = pow2((shift - 1) as nat);
        let dropped = fp.mant as nat % pow2(shift as nat);
        crate::bits::lemma_pow2_monotonic(10, (shift - 1) as nat);
        crate::bits::lemma_pow2_monotonic((shift - 1) as nat, 63);
        vstd::arithmetic::power2::lemma2_to64_rest();
        assert(halfway(shift as nat) == half);
        let below = (half - errors) % two_64();
        let above = ((half + errors) as int) % two_64();
        assert(below == half - errors);
        assert(above == half + errors);
    }
}

/// An extended float rounded to nearest where the error check passes, and
/// rounded down where it fails, is a sound estimate of the nearest float of
/// any number within the error of it.
#[verifier::rlimit(50)]
proof fn lemma_estimate(fmt: Format, x: Number, fp: ExtendedFloat, errors: nat)
    requires
        fp.mant >= 0x8000_0000_0000_0000,
        -0x7000_0000 <= fp.exp <= 0x7000_0000,
        1 <= errors <= 48,
        is_within(x, fp.mant - errors, (fp.mant + errors) as nat, fp.exp as int),
    ensures
        ({
            let valid = error_is_accurate_spec(fmt, errors as u64, fp);
            let bits = if valid {
                fp.into_float_spec(fmt)
            } else {
                fp.into_downward_float_spec(fmt)
            };
            is_sound_estimate(fmt, x, bits, valid)
        }),
{
    lemma_accuracy(fmt, errors, fp);
    crate::rounding::lemma_round_within(fmt, x, fp, errors);
    crate::rounding::lemma_round_result(fmt, fp, crate::rounding::Rounding::NearestTieEven);
}

/// The extended-precision path is right: what it gives for a number that
/// holds the digits of `mantissa` at the decimal exponent `exponent` is a
/// sound estimate of its nearest float. Where digits were truncated, the
/// significand has at least 61 bits.
#[verifier::rlimit(50)]
pub proof fn lemma_moderate_path_sound(
    fmt: Format,
    x: Number,
    mantissa: u64,
    exponent: int,
    truncated: bool,
)
    requires
        mantissa != 0,
        truncated ==> mantissa >= 0x1000_0000_0000_0000,
        holds_digits(x, mantissa as nat, exponent, !truncated),
    ensures
        is_sound_estimate(
            fmt,
            x,
            moderate_path_spec(fmt, mantissa, exponent, truncated).0,
            moderate_path_spec(fmt, mantissa, exponent, truncated).1,
        ),
{
    if exponent < MIN_DENORMAL_EXP10 {
        crate::limits::lemma_below_table(fmt, x, mantissa, exponent, !truncated);
        crate::rounding::lemma_round_exact_zero(fmt, ExtendedFloat { mant: 0, exp: 0 });
    } else if exponent > MAX_NORMAL_EXP10 {
        crate::limits::lemma_above_table(fmt, x, mantissa, exponent, !truncated);
        crate::rounding::lemma_round_result(
            fmt,
            ExtendedFloat { mant: 0x8000_0000_0000_0000, exp: 0x7FF },
            crate::rounding::Rounding::NearestTieEven,
        );
    } else {
        let fp = scaled_product(mantissa, exponent);
        let errors = scaled_errors(mantissa, exponent, truncated);
        lemma_scaled_product(x, mantissa, exponent, truncated);
        let start = ExtendedFloat { mant: mantissa, exp: 0 };
        assert(multiply_exponent_extended_spec(fmt, start, exponent, truncated) == (
            fp,
            error_is_accurate_spec(fmt, errors as u64, fp),
        ));
        lemma_estimate(fmt, x, fp, errors);
    }
}

} // verus!
