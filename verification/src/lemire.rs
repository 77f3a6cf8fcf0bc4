//! The Eisel-Lemire conversion: a 64-bit significand times a 128-bit power
//! of ten, rounded where the product is provably not halfway between two
//! floats.

use vstd::prelude::*;
use vstd::arithmetic::power2::{lemma2_to64, lemma2_to64_rest, pow2};
use crate::bits::{
    join_bits,
    leading_shift,
    lemma_normalize_shift,
    lower_n_bits,
    lower_n_mask,
    normalize_shift,
    shl_64,
    shr_64,
    two_64,
};
use crate::extended_float;
use crate::nearest::{holds_digits, is_nearest, is_sound_estimate, Number};
use crate::num::{Float, Format};
use crate::powers::{get_power_of_10, power_of_10, MAX_NORMAL_EXP10, MIN_DENORMAL_EXP10};

verus! {

/// The upper and lower 64 bits of the 128-bit product of two words.
pub fn mul(x: u64, y: u64) -> (r: (u64, u64))
    ensures
        r.0 * two_64() + r.1 == x * y,
        r.0 == (x * y) / two_64(),
        r.1 == (x * y) % two_64(),
        r.0 <= 0xFFFF_FFFF_FFFF_FFFE,
{
    assert(x * y <= 0xFFFF_FFFF_FFFF_FFFF * 0xFFFF_FFFF_FFFF_FFFF) by (nonlinear_arith)
        requires
            x <= 0xFFFF_FFFF_FFFF_FFFF,
            y <= 0xFFFF_FFFF_FFFF_FFFF,
    ;
    let product: u128 = (x as u128) * (y as u128);
    let hi: u128 = product >> 64;
    let lo: u128 = product & 0xFFFF_FFFF_FFFF_FFFF;
    assert(hi == product / 0x1_0000_0000_0000_0000 && lo == product % 0x1_0000_0000_0000_0000)
        by (bit_vector)
        requires
            hi == product >> 64,
            lo == product & 0xFFFF_FFFF_FFFF_FFFF,
    ;
    (hi as u64, lo as u64)
}

/// The binary logarithm of `10^exponent`, rounded down, for the decimal
/// exponents of the table of powers.
pub open spec fn log2_pow10(exponent: int) -> int {
    (217706 * exponent) / 65536
}

/// Computes [`log2_pow10`].
pub fn power_of_10_log2(exponent: i32) -> (r: i32)
    requires
        MIN_DENORMAL_EXP10 <= exponent <= MAX_NORMAL_EXP10,
    ensures
        r == log2_pow10(exponent as int),
{
    let shifted: u64 = (exponent + 65536) as u64;
    let scaled: u64 = (217706 * shifted) / 65536;
    (scaled as i64 - 217706) as i32
}

/// The distance of the carry position, two bits above the hidden bit, from
/// the top of a 64-bit word.
pub open spec fn carry_shift(fmt: Format) -> nat {
    (61 - fmt.mantissa_size()) as nat
}

/// The significand `x_hi` brought down so that its highest bit stands at
/// the carry position or one below it, and the binary exponent adjusted
/// where the highest bit of `x_hi` was not set.
pub open spec fn shift_to_carry_spec(x_hi: u64, exp2: int, carry_shift: nat) -> (nat, int) {
    let msb = x_hi as nat / pow2(63);
    (x_hi as nat / pow2(msb + carry_shift), exp2 - (1 - msb))
}

/// Shifts the significand to at most the carry position.
fn shift_to_carry(x_hi: u64, exp2: i32, carry_shift: u32) -> (r: (u64, i32))
    requires
        carry_shift < 63,
        exp2 > i32::MIN,
    ensures
        (r.0 as nat, r.1 as int) == shift_to_carry_spec(x_hi, exp2 as int, carry_shift as nat),
        r.0 <= x_hi as nat / pow2(carry_shift as nat),
{
    proof {
        lemma2_to64_rest();
        vstd::arithmetic::power2::lemma_pow2_pos(carry_shift as nat);
        vstd::arithmetic::power2::lemma_pow2_pos((carry_shift + 1) as nat);
        crate::bits::lemma_pow2_monotonic(carry_shift as nat, (carry_shift + 1) as nat);
        vstd::arithmetic::div_mod::lemma_div_is_ordered_by_denominator(
            x_hi as int,
            pow2(carry_shift as nat) as int,
            pow2((carry_shift + 1) as nat) as int,
        );
    }
    let msb: u64 = shr_64(x_hi, 63);
    let shift: u32 = msb as u32 + carry_shift;
    let mantissa: u64 = shr_64(x_hi, shift);
    let exp2: i32 = exp2 - (1 - msb as i32);
    (mantissa, exp2)
}

/// The float that a significand at the carry position and a biased binary
/// exponent give, and whether it is proved. The significand is rounded to
/// nearest, ties to even, by its lowest bit; where that carries past the
/// hidden bit, it is halved. A result below the normal floats is zero,
/// proved only where it is far below.
pub open spec fn to_float_spec(fmt: Format, mantissa: nat, exp: int) -> (u64, bool) {
    if exp <= -(fmt.mantissa_size() + 2) {
        (0, true)
    } else if exp <= 0 {
        (0, false)
    } else {
        let halved = (mantissa + mantissa % 2) / 2;
        let carried = halved / pow2((fmt.mantissa_size() + 1) as nat) > 0;
        let significand = if carried {
            halved / 2
        } else {
            halved
        };
        let biased = if carried {
            exp + 1
        } else {
            exp
        };
        if biased >= fmt.max_exponent() + fmt.exponent_bias() {
            (fmt.infinity_bits(), true)
        } else {
            (
                (biased * pow2(fmt.mantissa_size() as nat) + significand % pow2(
                    fmt.mantissa_size() as nat,
                )) as u64,
                true,
            )
        }
    }
}

/// Rounds a significand at the carry position and packs it with its biased
/// exponent.
#[verifier::rlimit(50)]
fn to_float<F: Float>(mantissa: u64, exp: i32) -> (r: (F, bool))
    requires
        mantissa < 0x8000_0000_0000_0000,
        exp < i32::MAX,
    ensures
        (r.0.bits(), r.1) == to_float_spec(F::format(), mantissa as nat, exp as int),
        r.0.bits() <= F::format().infinity_bits(),
{
    proof {
        lemma2_to64();
        lemma2_to64_rest();
        F::format().lemma_masks();
    }
    if exp <= -(F::mantissa_size() + 2) {
        return (F::zero(), true);
    } else if exp <= 0 {
        return (F::zero(), false);
    }
    let size: u32 = F::mantissa_size() as u32;
    let mut exp: u64 = exp as u64;
    let mut mantissa: u64 = mantissa + lower_n_bits(mantissa, 1);
    mantissa = shr_64(mantissa, 1);
    if shr_64(mantissa, size + 1) > 0 {
        mantissa = shr_64(mantissa, 1);
        exp = exp + 1;
    }
    let max_exp: i32 = F::max_exponent() + F::exponent_bias();
    if exp >= max_exp as u64 {
        return (F::from_bits(F::infinity_bits()), true);
    }
    let stored: u64 = lower_n_bits(mantissa, size);
    proof {
        vstd::arithmetic::power2::lemma_pow2_pos(size as nat);
    }
    (F::from_bits(join_bits(exp, stored, size)), true)
}

/// The 128-bit product of the normalized significand `m` and the high word
/// of the power of ten, widened by the product with the low word where the
/// bits below the carry position are all set and the product might carry
/// into them. `None` where even the wider product is within one of a point
/// halfway between two floats.
pub open spec fn wide_product(fmt: Format, m: u64, power: (u64, u64)) -> Option<(u64, u64)> {
    let mask = pow2(carry_shift(fmt)) - 1;
    let x = m * power.0;
    let x_hi = x / two_64();
    let x_lo = x % two_64();
    if x_hi % (pow2(carry_shift(fmt)) as int) == mask && x_lo + m >= two_64() {
        let y = m * power.1;
        let y_hi = y / two_64();
        let y_lo = y % two_64();
        let merged = x + y_hi;
        let merged_hi = merged / two_64();
        let merged_lo = merged % two_64();
        if merged_hi % (pow2(carry_shift(fmt)) as int) == mask && merged_lo + 1 == two_64() && y_lo
            + m >= two_64() {
            None
        } else {
            Some((merged_hi as u64, merged_lo as u64))
        }
    } else {
        Some((x_hi as u64, x_lo as u64))
    }
}

/// Computes the product of the normalized significand and the power of
/// ten, as wide as the rounding needs it.
#[verifier::rlimit(50)]
fn widen<F: Float>(m: u64, power: (u64, u64)) -> (r: Option<(u64, u64)>)
    ensures
        r == wide_product(F::format(), m, power),
{
    proof {
        lemma2_to64();
        lemma2_to64_rest();
    }
    let (x_hi, x_lo) = self::mul(m, power.0);
    let carry_shift: u32 = (61 - F::mantissa_size()) as u32;
    let mask: u64 = lower_n_mask(carry_shift);
    if lower_n_bits(x_hi, carry_shift) == mask && x_lo.wrapping_add(m) < m {
        let (y_hi, y_lo) = self::mul(m, power.1);
        let mut merged_hi: u64 = x_hi;
        let merged_lo: u64 = x_lo.wrapping_add(y_hi);
        if merged_lo < x_lo {
            merged_hi = merged_hi + 1;
        }
        assert(merged_hi * two_64() + merged_lo == m * power.0 + y_hi);
        if lower_n_bits(merged_hi, carry_shift) == mask && merged_lo.wrapping_add(1) == 0
            && y_lo.wrapping_add(m) < m {
            None
        } else {
            Some((merged_hi, merged_lo))
        }
    } else {
        Some((x_hi, x_lo))
    }
}

/// The float that the Eisel-Lemire conversion gives for
/// `mantissa * 10^exponent`, and whether it is proved to be the correctly
/// rounded one. A result that is not proved is zero.
///
/// Below the smallest decimal exponent of the table the result is a proved
/// zero, above the largest a proved infinity. Else the normalized
/// significand is multiplied by the power of ten from the table; the
/// product is shifted to the carry position and rounded, unless it is too
/// near a point halfway between two floats to tell on which side it lies.
pub open spec fn eisel_lemire_spec(fmt: Format, mantissa: u64, exponent: int) -> (u64, bool) {
    if exponent < MIN_DENORMAL_EXP10 {
        (0, true)
    } else if exponent > MAX_NORMAL_EXP10 {
        (fmt.infinity_bits(), true)
    } else {
        let ctlz = normalize_shift(mantissa);
        let m = (mantissa * pow2(ctlz)) as u64;
        let bias = fmt.exponent_bias() - fmt.mantissa_size();
        let exp2 = log2_pow10(exponent) + (64 + bias) - ctlz;
        match wide_product(fmt, m, power_of_10(exponent)) {
            None => (0, false),
            Some((x_hi, x_lo)) => {
                let (significand, exp2) = shift_to_carry_spec(x_hi, exp2, carry_shift(fmt));
                if x_lo == 0 && x_hi as nat % pow2(carry_shift(fmt)) == 0 && significand % 4 == 1 {
                    (0, false)
                } else {
                    to_float_spec(fmt, significand, exp2)
                }
            },
        }
    }
}

/// Converts `mantissa * 10^exponent` to a float of the format `F` by the
/// Eisel-Lemire algorithm. Returns the float and whether it is proved to be
/// the correctly rounded one; where it is not, the float is zero and says
/// nothing.
#[verifier::rlimit(50)]
pub fn eisel_lemire<F: Float>(mantissa: u64, exponent: i32) -> (r: (F, bool))
    requires
        mantissa != 0,
    ensures
        (r.0.bits(), r.1) == eisel_lemire_spec(F::format(), mantissa, exponent as int),
        r.0.bits() <= F::format().infinity_bits(),
        r.1 ==> is_nearest(
            F::format(),
            Number { digits: mantissa as nat, binary: 0, decimal: exponent as int },
            r.0.bits(),
        ),
{
    proof {
        if eisel_lemire_spec(F::format(), mantissa, exponent as int).1 {
            crate::lemire_proof::lemma_eisel_lemire_nearest(F::format(), mantissa, exponent as int);
        }
    }
    if exponent < MIN_DENORMAL_EXP10 {
        return (F::zero(), true);
    } else if exponent > MAX_NORMAL_EXP10 {
        return (F::from_bits(F::infinity_bits()), true);
    }
    proof {
        lemma2_to64();
        lemma2_to64_rest();
        lemma_normalize_shift(mantissa);
        F::format().lemma_masks();
    }

    let ctlz: u32 = leading_shift(mantissa);
    let m: u64 = shl_64(mantissa, ctlz);
    let bias: i32 = F::exponent_bias() - F::mantissa_size();
    let exp2: i32 = power_of_10_log2(exponent) + (64 + bias) - ctlz as i32;

    let power: (u64, u64) = get_power_of_10(exponent);
    let carry_shift: u32 = (61 - F::mantissa_size()) as u32;
    let (x_hi, x_lo) = match widen::<F>(m, power) {
        None => {
            return (F::zero(), false);
        },
        Some(x) => x,
    };
    proof {
        vstd::arithmetic::power2::lemma_pow2_pos(carry_shift as nat);
    }
    let (significand, exp2) = shift_to_carry(x_hi, exp2, carry_shift);

    if x_lo == 0 && lower_n_bits(x_hi, carry_shift) == 0 && lower_n_bits(significand, 2) == 1 {
        return (F::zero(), false);
    }
    to_float::<F>(significand, exp2)
}

/// The float that the moderate path gives for `mantissa * 10^exponent`, and
/// whether it is proved to be the correctly rounded one.
///
/// Where the Eisel-Lemire conversion proves its result and no digit was
/// truncated, that is the result. Where digits were truncated, it is the
/// result only if the conversion of `mantissa + 1` proves the same float.
/// In every other case the extended-precision path decides.
pub open spec fn moderate_path_spec(fmt: Format, mantissa: u64, exponent: int, truncated: bool) -> (
    u64,
    bool,
) {
    let (float, valid) = eisel_lemire_spec(fmt, mantissa, exponent);
    let agreed = if !truncated {
        true
    } else if mantissa == u64::MAX {
        false
    } else {
        eisel_lemire_spec(fmt, (mantissa + 1) as u64, exponent) == (float, true)
    };
    if valid && agreed {
        (float, true)
    } else {
        extended_float::moderate_path_spec(fmt, mantissa, exponent, truncated)
    }
}

/// Converts `mantissa * 10^exponent` to a float of the format `F` without
/// big-integer arithmetic. Returns the float and whether it is proved to be
/// the correctly rounded one; `truncated` says that digits beyond
/// `mantissa` were dropped. A float that is not proved is the one to start
/// the slow path from.
#[verifier::rlimit(50)]
pub fn moderate_path<F: Float>(mantissa: u64, exponent: i32, truncated: bool) -> (r: (F, bool))
    requires
        mantissa != 0,
    ensures
        (r.0.bits(), r.1) == moderate_path_spec(F::format(), mantissa, exponent as int, truncated),
        r.0.bits() <= F::format().infinity_bits(),
        forall|x: Number|
            truncated && mantissa >= 0x1000_0000_0000_0000 && #[trigger] holds_digits(
                x,
                mantissa as nat,
                exponent as int,
                false,
            ) ==> is_sound_estimate(F::format(), x, r.0.bits(), r.1),
        forall|x: Number|
            !truncated && #[trigger] holds_digits(x, mantissa as nat, exponent as int, true)
                ==> is_sound_estimate(F::format(), x, r.0.bits(), r.1),
{
    proof {
        let estimate = moderate_path_spec(F::format(), mantissa, exponent as int, truncated);
        assert forall|x: Number|
            truncated && mantissa >= 0x1000_0000_0000_0000 && #[trigger] holds_digits(
                x,
                mantissa as nat,
                exponent as int,
                false,
            ) implies is_sound_estimate(F::format(), x, estimate.0, estimate.1) by {
            crate::lemire_proof::lemma_moderate_path_sound(
                F::format(),
                x,
                mantissa,
                exponent as int,
                exponent as int,
                truncated,
            );
        }
        assert forall|x: Number|
            !truncated && #[trigger] holds_digits(
                x,
                mantissa as nat,
                exponent as int,
                true,
            ) implies is_sound_estimate(F::format(), x, estimate.0, estimate.1) by {
            crate::lemire_proof::lemma_moderate_path_sound(
                F::format(),
                x,
                mantissa,
                exponent as int,
                exponent as int,
                truncated,
            );
        }
    }
    let (float, valid) = eisel_lemire::<F>(mantissa, exponent);
    if valid {
        if !truncated {
            return (float, true);
        } else if mantissa != u64::MAX {
            let mantissa_up: u64 = mantissa + 1;
            let (float_up, valid_up) = eisel_lemire::<F>(mantissa_up, exponent);
            if valid_up && float.to_bits() == float_up.to_bits() {
                return (float, true);
            }
        }
    }
    extended_float::moderate_path::<F>(mantissa, exponent, truncated)
}

} // verus!
