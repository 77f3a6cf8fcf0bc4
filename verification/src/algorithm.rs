//! The fast path, exact in machine integers, and the fallback that follows
//! it: the moderate path, and the slow path where that proves nothing.

use vstd::prelude::*;
use vstd::arithmetic::power::pow;
use vstd::arithmetic::power2::{
    lemma2_to64,
    lemma2_to64_rest,
    lemma_pow2_adds,
    lemma_pow2_pos,
    pow2,
};
use crate::bhcomp::{bhcomp, bhcomp_spec};
use crate::bits::{
    leading_shift,
    lemma_leading_zeros_bounds,
    lemma_normalize_shift,
    normalize_shift,
    nth_bit,
    shl_64,
    shr_64,
    two_64,
};
use crate::digit::all_digits;
use crate::float::ExtendedFloat;
use crate::lemire;
use crate::num::{
    float_exponent,
    float_mantissa,
    is_special,
    is_special_spec,
    mantissa,
    Float,
    Format,
};
use crate::nearest::{
    is_at,
    is_nearest,
    lemma_compare_from,
    lemma_move_digits,
    lemma_same_number_nearest,
    positive_part,
    Number,
};
use crate::rounding::{
    lemma_round_exact_nearest,
    lemma_round_exact_zero,
    lemma_round_to_native_nearest,
    pack,
    pack_float,
    round_to_native,
    round_to_native_spec,
    Rounding,
};
use crate::small_powers::{lemma_pow10_64, lemma_pow5_64, POW10_64, POW5_64};

verus! {

/// The number of low bits to drop from `n`, at least `2^64`, so that 64
/// bits are left.
pub open spec fn wide_shift(n: nat) -> nat {
    (64 - normalize_shift((n / (two_64() as nat)) as u64)) as nat
}

/// The bits of the float of format `fmt` nearest to a number at or above
/// `n * 2^exp` and below `(n + 1) * 2^exp`, ties to even; `sticky` says
/// that the number is above `n * 2^exp`, and then `n` has at least 64
/// bits. The leading 64 bits of `n` are rounded; the bits of `n` below
/// them only say whether the number is above what those 64 bits hold.
pub open spec fn round_wide_spec(fmt: Format, n: nat, exp: int, sticky: bool) -> u64 {
    let shift = if n < two_64() {
        0
    } else {
        wide_shift(n)
    };
    let inexact = sticky || n % pow2(shift) != 0;
    let kind = if inexact {
        Rounding::NearestAbove
    } else {
        Rounding::NearestTieEven
    };
    pack(
        fmt,
        round_to_native_spec(
            fmt,
            ExtendedFloat { mant: (n / pow2(shift)) as u64, exp: (exp + shift) as i32 },
            kind,
        ),
    )
}

/// Rounds a number at or above `n * 2^exp` and below `(n + 1) * 2^exp` to
/// the nearest float of the format `F`.
#[verifier::rlimit(50)]
fn round_wide<F: Float>(n: u128, exp: i32, sticky: bool) -> (r: F)
    requires
        -0x1000_0000 <= exp <= 0x1000_0000,
        sticky ==> n >= 0x8000_0000_0000_0000,
    ensures
        r.bits() == round_wide_spec(F::format(), n as nat, exp as int, sticky),
        r.bits() <= F::format().infinity_bits(),
{
    proof {
        lemma2_to64();
        lemma2_to64_rest();
    }
    let high: u64 = (n / 0x1_0000_0000_0000_0000) as u64;
    let shift: u32 = if high == 0 {
        0
    } else {
        64 - leading_shift(high)
    };
    let divisor: u128 = if shift == 64 {
        0x1_0000_0000_0000_0000
    } else {
        nth_bit(shift) as u128
    };
    proof {
        if high != 0 {
            lemma_leading_zeros_bounds(high);
            let p = pow2(shift as nat) as int;
            let wide = n as int;
            assert(wide < p * 0x1_0000_0000_0000_0000) by (nonlinear_arith)
                requires
                    wide < (high + 1) * 0x1_0000_0000_0000_0000,
                    high + 1 <= p,
            ;
            assert(wide / p < 0x1_0000_0000_0000_0000) by (nonlinear_arith)
                requires
                    0 <= wide < p * 0x1_0000_0000_0000_0000,
                    p > 0,
            ;
        }
    }
    let top: u128 = n / divisor;
    let low: u128 = n % divisor;
    let kind: Rounding = if sticky || low != 0 {
        Rounding::NearestAbove
    } else {
        Rounding::NearestTieEven
    };
    let mut fp = ExtendedFloat { mant: top as u64, exp: exp + shift as i32 };
    round_to_native::<F>(&mut fp, kind);
    pack_float::<F>(fp)
}

/// What [`round_wide_spec`] gives is the float nearest to any number that
/// is `n * 2^exp`, where not `sticky`, or lies strictly between that and
/// `(n + 1) * 2^exp`, where `sticky`.
#[verifier::rlimit(50)]
pub proof fn lemma_round_wide_nearest(fmt: Format, x: Number, n: nat, exp: int, sticky: bool)
    requires
        n < 0x1_0000_0000_0000_0000_0000_0000_0000_0000,
        -0x1000_0000 <= exp <= 0x1000_0000,
        sticky ==> n >= 0x8000_0000_0000_0000,
        is_at(x, n, exp, !sticky),
    ensures
        is_nearest(fmt, x, round_wide_spec(fmt, n, exp, sticky)),
{
    lemma2_to64();
    lemma2_to64_rest();
    if n < two_64() {
        assert(n / 1 == n && n % 1 == 0);
        let fp = ExtendedFloat { mant: n as u64, exp: exp as i32 };
        if sticky {
            lemma_round_to_native_nearest(fmt, x, fp, Rounding::NearestAbove);
        } else {
            lemma_round_exact_nearest(fmt, x, fp);
        }
    } else {
        let upper = n / (two_64() as nat);
        assert(1 <= upper < 0x1_0000_0000_0000_0000 && upper * 0x1_0000_0000_0000_0000 <= n < (
        upper + 1) * 0x1_0000_0000_0000_0000) by (nonlinear_arith)
            requires
                upper == n / 0x1_0000_0000_0000_0000,
                0x1_0000_0000_0000_0000 <= n < 0x1_0000_0000_0000_0000 * 0x1_0000_0000_0000_0000,
        ;
        let high = upper as u64;
        lemma_leading_zeros_bounds(high);
        let zeros = normalize_shift(high);
        let shift = wide_shift(n);
        assert(shift == 64 - zeros);
        let whole = pow2(shift);
        let top = n / whole;
        let low = n % whole;
        lemma_pow2_pos(shift);
        lemma_pow2_adds((63 - zeros) as nat, 64);
        lemma_pow2_adds((64 - zeros) as nat, 64);
        lemma_pow2_adds(shift, 63);
        lemma_pow2_adds(shift, 64);
        vstd::arithmetic::div_mod::lemma_fundamental_div_mod(n as int, whole as int);
        let low_bound = pow2((63 - zeros) as nat);
        assert(0x8000_0000_0000_0000 <= top < 0x1_0000_0000_0000_0000 && n == top * whole + low
            && 0 <= low < whole) by (nonlinear_arith)
            requires
                top == n / whole,
                low == n % whole,
                n == whole * top + low,
                0 <= low < whole,
                whole > 0,
                high * 0x1_0000_0000_0000_0000 <= n < (high + 1) * 0x1_0000_0000_0000_0000,
                low_bound <= high < whole,
                low_bound * 0x1_0000_0000_0000_0000 == whole * 0x8000_0000_0000_0000,
        ;
        let inexact = sticky || low != 0;
        let fp = ExtendedFloat { mant: top as u64, exp: (exp + shift) as i32 };
        lemma_compare_from(x, n, exp, !sticky, top, shift);
        lemma_compare_from(x, n, exp, !sticky, top + 1, shift);
        assert((top + 1) * whole == top * whole + whole) by (nonlinear_arith);
        if inexact {
            lemma_round_to_native_nearest(fmt, x, fp, Rounding::NearestAbove);
        } else {
            lemma_round_exact_nearest(fmt, x, fp);
        }
    }
}

/// The bits of the float of format `fmt` nearest to
/// `mantissa * 10^exponent * 2^binary`, ties to even, computed exactly: for
/// a power of ten that is not negative, the product with the power of
/// five, with the powers of two as binary exponent; for a negative one, the
/// quotient of the normalized significand, moved up by 64 bits, by the
/// power of five, and whether the division left a remainder.
pub open spec fn scale_pow10_spec(fmt: Format, mantissa: u64, exponent: int, binary: int) -> u64 {
    if mantissa == 0 {
        0
    } else if exponent >= 0 {
        round_wide_spec(
            fmt,
            (mantissa * pow(5, exponent as nat)) as nat,
            exponent + binary,
            false,
        )
    } else {
        let shift = normalize_shift(mantissa);
        let numerator = mantissa * pow2(shift) * two_64();
        let divisor = pow(5, (-exponent) as nat);
        round_wide_spec(
            fmt,
            (numerator / divisor) as nat,
            exponent + binary - 64 - shift,
            numerator % divisor != 0,
        )
    }
}

/// Converts `mantissa * 10^exponent * 2^binary` to the nearest float of the
/// format `F`, for a power of ten whose power of five fits in a word.
#[verifier::rlimit(50)]
fn scale_pow10<F: Float>(mantissa: u64, exponent: i32, binary: i32) -> (r: F)
    requires
        -22 <= exponent <= 22,
        -0x10_0000 <= binary <= 0x10_0000,
    ensures
        r.bits() == scale_pow10_spec(F::format(), mantissa, exponent as int, binary as int),
        r.bits() <= F::format().infinity_bits(),
{
    proof {
        lemma2_to64();
        lemma2_to64_rest();
    }
    if mantissa == 0 {
        F::zero()
    } else if exponent >= 0 {
        proof {
            lemma_pow5_64(exponent as int);
        }
        let power: u64 = POW5_64[exponent as usize];
        assert(mantissa * power <= 0xFFFF_FFFF_FFFF_FFFF * 0xFFFF_FFFF_FFFF_FFFF)
            by (nonlinear_arith)
            requires
                mantissa <= 0xFFFF_FFFF_FFFF_FFFF,
                power <= 0xFFFF_FFFF_FFFF_FFFF,
        ;
        let product: u128 = (mantissa as u128) * (power as u128);
        round_wide::<F>(product, exponent + binary, false)
    } else {
        proof {
            lemma_pow5_64(-exponent as int);
            lemma_normalize_shift(mantissa);
        }
        let shift: u32 = leading_shift(mantissa);
        let normalized: u64 = shl_64(mantissa, shift);
        let numerator: u128 = (normalized as u128) * 0x1_0000_0000_0000_0000u128;
        let divisor: u128 = POW5_64[(-exponent) as usize] as u128;
        let quotient: u128 = numerator / divisor;
        let remainder: u128 = numerator % divisor;
        assert(quotient >= 0x8000_0000_0000_0000) by (nonlinear_arith)
            requires
                quotient == numerator / divisor,
                numerator >= 0x8000_0000_0000_0000 * 0x1_0000_0000_0000_0000,
                0 < divisor <= 0xFFFF_FFFF_FFFF_FFFF,
        ;
        round_wide::<F>(quotient, exponent + binary - 64 - shift as i32, remainder != 0)
    }
}

/// What [`scale_pow10_spec`] gives is the float nearest to
/// `mantissa * 10^exponent * 2^binary`, and the even one of two that are
/// equally near.
#[verifier::rlimit(50)]
pub proof fn lemma_scale_pow10_nearest(fmt: Format, mantissa: u64, exponent: int, binary: int)
    requires
        -22 <= exponent <= 22,
        -0x10_0000 <= binary <= 0x10_0000,
    ensures
        is_nearest(
            fmt,
            Number { digits: mantissa as nat, binary, decimal: exponent },
            scale_pow10_spec(fmt, mantissa, exponent, binary),
        ),
{
    let x = Number { digits: mantissa as nat, binary, decimal: exponent };
    lemma2_to64();
    lemma2_to64_rest();
    crate::small_powers::lemma_pow_step(5, 0);
    if mantissa == 0 {
        assert(0 * pow(5, positive_part(exponent)) * pow2(0) == 0) by (nonlinear_arith);
        assert(is_at(x, 0, binary + exponent, true));
        let zero = ExtendedFloat { mant: 0, exp: (binary + exponent) as i32 };
        lemma_round_exact_nearest(fmt, x, zero);
        lemma_round_exact_zero(fmt, zero);
    } else if exponent >= 0 {
        lemma_pow5_64(exponent);
        let power = pow(5, exponent as nat) as nat;
        let n = mantissa as nat * power;
        assert(n < 0x1_0000_0000_0000_0000 * 0x1_0000_0000_0000_0000) by (nonlinear_arith)
            requires
                n == mantissa as nat * power,
                mantissa < 0x1_0000_0000_0000_0000,
                power < 0x1_0000_0000_0000_0000,
        ;
        assert(n * 1 * 1 == n);
        assert(is_at(x, n, exponent + binary, true));
        lemma_round_wide_nearest(fmt, x, n, exponent + binary, false);
    } else {
        lemma_pow5_64(-exponent);
        lemma_normalize_shift(mantissa);
        let shift = normalize_shift(mantissa);
        let normalized = mantissa as nat * pow2(shift);
        let numerator = normalized * (two_64() as nat);
        let divisor = pow(5, (-exponent) as nat) as nat;
        let quotient = numerator / divisor;
        let remainder = numerator % divisor;
        vstd::arithmetic::div_mod::lemma_fundamental_div_mod(numerator as int, divisor as int);
        assert(0x8000_0000_0000_0000 <= quotient < 0x1_0000_0000_0000_0000
            * 0x1_0000_0000_0000_0000 && numerator == quotient * divisor + remainder && (quotient
            + 1) * divisor == quotient * divisor + divisor) by (nonlinear_arith)
            requires
                quotient == numerator / divisor,
                numerator == divisor * quotient + remainder,
                0 <= remainder < divisor,
                numerator == normalized * 0x1_0000_0000_0000_0000,
                0x8000_0000_0000_0000 <= normalized < 0x1_0000_0000_0000_0000,
                0 < divisor < 0x1_0000_0000_0000_0000,
        ;
        vstd::arithmetic::power2::lemma_pow2_adds(shift, 64);
        let scale = pow2(shift + 64);
        assert(mantissa as nat * 1 * scale == numerator) by (nonlinear_arith)
            requires
                numerator == (mantissa as nat * pow2(shift)) * 0x1_0000_0000_0000_0000,
                scale == pow2(shift) * 0x1_0000_0000_0000_0000,
        ;
        let exp = exponent + binary - 64 - shift;
        assert(positive_part(binary + exponent - exp) == shift + 64);
        assert(positive_part(exp - (binary + exponent)) == 0);
        assert(quotient * divisor * 1 == quotient * divisor);
        assert((quotient + 1) * divisor * 1 == (quotient + 1) * divisor);
        assert(is_at(x, quotient, exp, remainder == 0));
        lemma_round_wide_nearest(fmt, x, quotient, exp, remainder != 0);
    }
}

/// The bits of the float of format `fmt` nearest to the product of the
/// float with the bits `bits` and `10^n`, ties to even. The sign is kept;
/// an infinity, and a value that is not a number, stay as they are.
pub open spec fn pow10_spec(fmt: Format, bits: u64, n: int) -> u64 {
    let magnitude = bits % fmt.sign_mask();
    let sign = bits - magnitude;
    if is_special_spec(fmt, magnitude) {
        bits
    } else {
        (sign + scale_pow10_spec(
            fmt,
            float_mantissa(fmt, magnitude) as u64,
            n,
            float_exponent(fmt, magnitude),
        )) as u64
    }
}

/// What [`pow10_spec`] gives for a float that is neither infinite nor
/// a value that is not a number is, without the sign, the float nearest to
/// the product of the float without its sign and `10^n`.
#[verifier::rlimit(50)]
pub proof fn lemma_pow10_nearest(fmt: Format, bits: u64, n: int)
    requires
        bits <= fmt.max_bits(),
        -22 <= n <= 22,
        !is_special_spec(fmt, bits % fmt.sign_mask()),
    ensures
        is_nearest(
            fmt,
            Number {
                digits: float_mantissa(fmt, bits % fmt.sign_mask()),
                binary: float_exponent(fmt, bits % fmt.sign_mask()),
                decimal: n,
            },
            (pow10_spec(fmt, bits, n) - (bits - bits % fmt.sign_mask())) as u64,
        ),
{
    let magnitude = bits % fmt.sign_mask();
    crate::num::lemma_parts_of_bits_any(fmt, magnitude);
    fmt.lemma_masks();
    let scaled = scale_pow10_spec(
        fmt,
        float_mantissa(fmt, magnitude) as u64,
        n,
        float_exponent(fmt, magnitude),
    );
    lemma_scale_pow10_nearest(
        fmt,
        float_mantissa(fmt, magnitude) as u64,
        n,
        float_exponent(fmt, magnitude),
    );
    assert(bits - magnitude + scaled <= u64::MAX) by {
        match fmt {
            Format::Binary32 => {},
            Format::Binary64 => {},
        }
    }
}

/// Multiplies a float by `10^n`, for a power of ten that is itself a
/// float of the format, and rounds the product once, to nearest, ties to
/// even.
#[verifier::rlimit(50)]
pub fn pow10<F: Float>(f: F, n: i32) -> (r: F)
    requires
        F::format().exponent_limit().0 <= n <= F::format().exponent_limit().1,
    ensures
        r.bits() == pow10_spec(F::format(), f.bits(), n as int),
{
    proof {
        lemma2_to64();
        lemma2_to64_rest();
        F::format().lemma_masks();
    }
    let bits: u64 = f.to_bits();
    let magnitude: u64 = bits % F::sign_mask();
    let sign: u64 = bits - magnitude;
    let abs: F = F::from_bits(magnitude);
    if is_special(abs) {
        f
    } else {
        let scaled: F = scale_pow10::<F>(mantissa(abs), n, crate::num::exponent::<F>(abs));
        F::from_bits(sign + scaled.to_bits())
    }
}

/// The bits of the float that the fast path gives for
/// `mantissa * 10^exponent`, or `None` where the fast path does not apply.
///
/// It applies where the significand fits in the significand of the format,
/// hidden bit included, and the power of ten is one whose magnitude is a
/// float of the format; or where the power of ten is larger by no more
/// than the number of digits that always fit, and the significand times
/// the excess power of ten still fits. The result is then exact up to the
/// one rounding of the product or the quotient.
pub open spec fn fast_path_spec(fmt: Format, mantissa: u64, exponent: int) -> Option<u64> {
    let (min_exp, max_exp) = fmt.exponent_limit();
    let limit = 2 * fmt.hidden_bit_mask();
    if mantissa >= limit {
        None
    } else if min_exp <= exponent <= max_exp {
        Some(scale_pow10_spec(fmt, mantissa, exponent, 0))
    } else if 0 <= exponent <= max_exp + fmt.mantissa_limit() {
        let value = mantissa * pow(10, (exponent - max_exp) as nat);
        if value >= limit {
            None
        } else {
            Some(scale_pow10_spec(fmt, value as u64, max_exp, 0))
        }
    } else {
        None
    }
}

/// Converts `mantissa * 10^exponent` to a float of the format `F` where
/// that takes one exactly rounded operation on exactly held operands, and
/// returns `None` where it does not.
#[verifier::rlimit(50)]
pub fn fast_path<F: Float>(mantissa: u64, exponent: i32) -> (r: Option<F>)
    ensures
        match fast_path_spec(F::format(), mantissa, exponent as int) {
            Some(bits) => r.is_some() && r.unwrap().bits() == bits,
            None => r.is_none(),
        },
        r.is_some() ==> r.unwrap().bits() <= F::format().infinity_bits(),
        r.is_some() ==> is_nearest(
            F::format(),
            Number { digits: mantissa as nat, binary: 0, decimal: exponent as int },
            r.unwrap().bits(),
        ),
{
    proof {
        lemma2_to64();
        lemma2_to64_rest();
        F::format().lemma_masks();
        if fast_path_spec(F::format(), mantissa, exponent as int).is_some() {
            lemma_fast_path_nearest(F::format(), mantissa, exponent as int);
        }
    }
    let (min_exp, max_exp) = F::exponent_limit();
    let shift_exp: i32 = F::mantissa_limit();
    let mantissa_size: u32 = (F::mantissa_size() + 1) as u32;
    if shr_64(mantissa, mantissa_size) != 0 {
        None
    } else if exponent == 0 {
        Some(scale_pow10::<F>(mantissa, 0, 0))
    } else if exponent >= min_exp && exponent <= max_exp {
        Some(scale_pow10::<F>(mantissa, exponent, 0))
    } else if exponent >= 0 && exponent <= max_exp + shift_exp {
        let shift: i32 = exponent - max_exp;
        proof {
            lemma_pow10_64(shift as int);
        }
        let power: u64 = POW10_64[shift as usize];
        match mantissa.checked_mul(power) {
            None => None,
            Some(value) => {
                if shr_64(value, mantissa_size) != 0 {
                    None
                } else {
                    Some(scale_pow10::<F>(value, max_exp, 0))
                }
            },
        }
    } else {
        None
    }
}

/// Where the fast path applies, it gives the float nearest to
/// `mantissa * 10^exponent`, and the even one of two that are equally
/// near.
#[verifier::rlimit(50)]
pub proof fn lemma_fast_path_nearest(fmt: Format, mantissa: u64, exponent: int)
    requires
        fast_path_spec(fmt, mantissa, exponent).is_some(),
    ensures
        is_nearest(
            fmt,
            Number { digits: mantissa as nat, binary: 0, decimal: exponent },
            fast_path_spec(fmt, mantissa, exponent).unwrap(),
        ),
{
    let x = Number { digits: mantissa as nat, binary: 0, decimal: exponent };
    let (min_exp, max_exp) = fmt.exponent_limit();
    if min_exp <= exponent <= max_exp {
        lemma_scale_pow10_nearest(fmt, mantissa, exponent, 0);
    } else {
        let moved = (exponent - max_exp) as nat;
        lemma_pow10_64(moved as int);
        let value = (mantissa * pow(10, moved)) as nat;
        let y = Number { digits: value, binary: 0, decimal: max_exp };
        fmt.lemma_masks();
        lemma2_to64();
        lemma2_to64_rest();
        lemma_scale_pow10_nearest(fmt, value as u64, max_exp, 0);
        lemma_move_digits(x, moved);
        lemma_same_number_nearest(fmt, y, x, scale_pow10_spec(fmt, value as u64, max_exp, 0));
    }
}

/// Where the fast path applies and the Eisel-Lemire conversion proves a
/// float, the two are the same float.
pub proof fn lemma_fast_path_agrees(fmt: Format, mantissa: u64, exponent: int)
    requires
        mantissa != 0,
        fast_path_spec(fmt, mantissa, exponent).is_some(),
        lemire::eisel_lemire_spec(fmt, mantissa, exponent).1,
    ensures
        lemire::eisel_lemire_spec(fmt, mantissa, exponent).0 == fast_path_spec(
            fmt,
            mantissa,
            exponent,
        ).unwrap(),
{
    let x = Number { digits: mantissa as nat, binary: 0, decimal: exponent };
    lemma_fast_path_nearest(fmt, mantissa, exponent);
    assert(crate::powers::MIN_DENORMAL_EXP10 <= exponent <= crate::powers::MAX_NORMAL_EXP10) by {
        match fmt {
            Format::Binary32 => {},
            Format::Binary64 => {},
        }
    }
    crate::lemire_proof::lemma_eisel_lemire_sound(fmt, mantissa, exponent);
    crate::nearest::lemma_nearest_unique(
        fmt,
        x,
        lemire::eisel_lemire_spec(fmt, mantissa, exponent).0,
        fast_path_spec(fmt, mantissa, exponent).unwrap(),
    );
}

/// The bits of the float that the paths after the fast one give: the float
/// of the moderate path where that float is proved or is infinite, and
/// else the choice of the slow path between that float and the next.
pub open spec fn fallback_path_spec(
    fmt: Format,
    integer: Seq<u8>,
    fraction: Seq<u8>,
    mantissa: u64,
    exponent: int,
    mantissa_exponent: int,
    truncated: bool,
) -> u64 {
    let (float, valid) = lemire::moderate_path_spec(fmt, mantissa, mantissa_exponent, truncated);
    if valid || is_special_spec(fmt, float) {
        float
    } else {
        bhcomp_spec(fmt, float, integer, fraction, exponent)
    }
}

/// Converts a decimal number to a float of the format `F` by the moderate
/// path and, where that proves nothing, by the slow path.
///
/// `mantissa` is the 64-bit significand of the digits, `mantissa_exponent`
/// the power of ten that goes with it, and `truncated` says whether digits
/// were left out of it; `exponent` is the decimal exponent that goes with
/// the digits as they stand. Where the three are those of the digits, the
/// result is the float nearest to the decimal number. A float of the
/// moderate path that is zero but not proved still goes to the slow path,
/// which may find the number above the point halfway to the smallest
/// float.
#[verifier::rlimit(50)]
pub fn fallback_path<F: Float>(
    integer: &[u8],
    fraction: &[u8],
    mantissa: u64,
    exponent: i32,
    mantissa_exponent: i32,
    truncated: bool,
) -> (r: F)
    requires
        all_digits(integer@),
        all_digits(fraction@),
        integer.len() + fraction.len() <= usize::MAX,
        mantissa != 0,
    ensures
        r.bits() == fallback_path_spec(
            F::format(),
            integer@,
            fraction@,
            mantissa,
            exponent as int,
            mantissa_exponent as int,
            truncated,
        ),
        r.bits() <= F::format().infinity_bits(),
        crate::parse::is_significand_of(
            integer@,
            fraction@,
            exponent as int,
            mantissa,
            mantissa_exponent as int,
            truncated,
        ) ==> is_nearest(
            F::format(),
            crate::parse::decimal_number(integer@, fraction@, exponent as int),
            r.bits(),
        ),
{
    proof {
        if crate::parse::is_significand_of(
            integer@,
            fraction@,
            exponent as int,
            mantissa,
            mantissa_exponent as int,
            truncated,
        ) {
            crate::parse::lemma_fallback_path_nearest(
                F::format(),
                integer@,
                fraction@,
                exponent as int,
            );
        }
    }
    let (float, valid) = lemire::moderate_path::<F>(mantissa, mantissa_exponent, truncated);
    if valid || is_special(float) {
        float
    } else {
        proof {
            crate::num::lemma_infinity_is_special(F::format(), float.bits());
        }
        bhcomp(float, integer, fraction, exponent)
    }
}

} // verus!
