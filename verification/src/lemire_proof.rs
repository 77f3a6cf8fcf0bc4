//! The proof that the Eisel-Lemire conversion is right where it claims to
//! be: a float that it proves is the float nearest to the number.

use vstd::prelude::*;
use vstd::arithmetic::power2::{
    lemma2_to64,
    lemma2_to64_rest,
    lemma_pow2_adds,
    lemma_pow2_pos,
    pow2,
};
use crate::bignum::Comparison;
use crate::bits::{lemma_normalize_shift, lemma_pow2_monotonic, normalize_shift, two_64};
use crate::lemire::{
    carry_shift,
    eisel_lemire_spec,
    log2_pow10,
    shift_to_carry_spec,
    to_float_spec,
    wide_product,
};
use crate::nearest::{
    compare_with,
    is_nearest,
    lemma_compare_monotonic,
    lemma_compare_shift,
    lemma_halfway_positions,
    Number,
};
use crate::num::{bits_of_parts, is_float_parts, lemma_bits_of_parts, Format};
use crate::powers::{power_of_10, power_of_10_exponent, MAX_NORMAL_EXP10, MIN_DENORMAL_EXP10};
use crate::scaling::{lemma_power_position, power_of_10_value};

verus! {

/// `2^128`.
pub open spec fn two_128() -> int {
    two_64() * two_64()
}

/// The leading bits of a 192-bit product that is known up to a slack.
///
/// The product lies between `low_end` and `high_end`, which are at least
/// the 128 bits `high:low` moved up by 64 bits, and at most that plus
/// `slack`. Where the slack cannot carry into the leading bits, or could
/// only carry once into low bits of `high` that are not all set, the bits
/// of `high` above the lowest `drop` are the leading bits of every number
/// in between.
#[verifier::rlimit(50)]
pub proof fn lemma_window(
    high: nat,
    low: nat,
    slack: nat,
    low_end: nat,
    high_end: nat,
    part: nat,
    whole: nat,
)
    requires
        high < two_64(),
        low < two_64(),
        low_end >= high * two_128() + low * two_64(),
        high_end <= high * two_128() + low * two_64() + slack,
        part >= 2,
        whole == part || whole == 2 * part,
        low * two_64() + slack <= two_128() || (high % part != part - 1 && low * two_64() + slack
            <= 2 * two_128()),
    ensures
        (high / whole) * (whole * two_128()) <= low_end,
        high_end <= (high / whole + 1) * (whole * two_128()),
        low != 0 || high % part != 0 ==> (high / whole) * (whole * two_128()) < low_end,
{
    let kept = high / whole;
    let rest = high % whole;
    vstd::arithmetic::div_mod::lemma_fundamental_div_mod(high as int, whole as int);
    vstd::arithmetic::div_mod::lemma_mod_bound(high as int, whole as int);
    assert(high == kept * whole + rest) by (nonlinear_arith)
        requires
            high == whole * kept + rest,
    ;
    // The low bits of `high` below `part` are those of the rest.
    assert(rest % part == high % part) by {
        if whole == part {
            vstd::arithmetic::div_mod::lemma_small_mod(rest, part);
        } else {
            vstd::arithmetic::div_mod::lemma_fundamental_div_mod(high as int, part as int);
            vstd::arithmetic::div_mod::lemma_mod_bound(high as int, part as int);
            let q = high / part;
            let r = high % part;
            // high = part * q + r = 2 * part * kept + rest
            vstd::arithmetic::div_mod::lemma_fundamental_div_mod(q as int, 2);
            let half = q / 2;
            let odd = q % 2;
            assert(high == whole * half + (part * odd + r)) by (nonlinear_arith)
                requires
                    high == part * q + r,
                    q == 2 * half + odd,
                    whole == 2 * part,
            ;
            assert(0 <= part * odd + r < whole) by (nonlinear_arith)
                requires
                    0 <= odd < 2,
                    0 <= r < part,
                    whole == 2 * part,
            ;
            vstd::arithmetic::div_mod::lemma_fundamental_div_mod_converse(
                high as int,
                whole as int,
                half as int,
                (part * odd + r) as int,
            );
            assert(rest == part * odd + r);
            vstd::arithmetic::div_mod::lemma_fundamental_div_mod_converse(
                rest as int,
                part as int,
                odd as int,
                r as int,
            );
        }
    }
    let unit = two_128();
    assert(kept * (whole * unit) + rest * unit == high * unit) by (nonlinear_arith)
        requires
            high == kept * whole + rest,
    ;
    assert((kept + 1) * (whole * unit) == kept * (whole * unit) + whole * unit)
        by (nonlinear_arith);
    assert(rest * unit + unit <= whole * unit) by (nonlinear_arith)
        requires
            rest + 1 <= whole,
            unit > 0,
    ;
    if low * two_64() + slack > two_128() {
        assert(rest + 2 <= whole) by {
            if rest + 1 == whole {
                if whole == part {
                    vstd::arithmetic::div_mod::lemma_small_mod(rest, part);
                } else {
                    vstd::arithmetic::div_mod::lemma_fundamental_div_mod_converse(
                        rest as int,
                        part as int,
                        1,
                        (part - 1) as int,
                    );
                }
            }
        }
        assert(rest * unit + 2 * unit <= whole * unit) by (nonlinear_arith)
            requires
                rest + 2 <= whole,
                unit > 0,
        ;
    }
    if low != 0 || high % part != 0 {
        if low == 0 {
            assert(rest >= 1) by {
                if rest == 0 {
                    vstd::arithmetic::div_mod::lemma_small_mod(0, part);
                }
            }
            assert(rest * unit >= unit) by (nonlinear_arith)
                requires
                    rest >= 1,
                    unit > 0,
            ;
        } else {
            assert(low * two_64() >= two_64()) by (nonlinear_arith)
                requires
                    low >= 1,
            ;
            assert(rest * unit >= 0) by (nonlinear_arith)
                requires
                    rest >= 0,
                    unit > 0,
            ;
        }
    }
}

/// The binary exponent of the significand that the conversion shifts to
/// the carry position: the number is that significand, and a fraction of
/// one, times two to this exponent.
pub open spec fn significand_exponent(fmt: Format, mantissa: u64, exponent: int, high: u64) -> int {
    power_of_10_exponent(exponent) + 64 - normalize_shift(mantissa) + high as nat / pow2(63)
        + carry_shift(fmt)
}

/// Where the conversion has a product to round, the number
/// `mantissa * 10^exponent` is at least the significand shifted to the
/// carry position, and below the next one; and it is above the significand
/// where the bits of the product below it are not all zero.
#[verifier::rlimit(50)]
pub proof fn lemma_significand_position(fmt: Format, mantissa: u64, exponent: int)
    requires
        mantissa != 0,
        MIN_DENORMAL_EXP10 <= exponent <= MAX_NORMAL_EXP10,
        wide_product(
            fmt,
            (mantissa * pow2(normalize_shift(mantissa))) as u64,
            power_of_10(exponent),
        ).is_some(),
    ensures
        ({
            let y = Number { digits: mantissa as nat, binary: 0, decimal: exponent };
            let m = (mantissa * pow2(normalize_shift(mantissa))) as u64;
            let (high, low) = wide_product(fmt, m, power_of_10(exponent)).unwrap();
            let significand = shift_to_carry_spec(high, 0, carry_shift(fmt)).0;
            let binary = significand_exponent(fmt, mantissa, exponent, high);
            &&& high >= 0x4000_0000_0000_0000
            &&& compare_with(y, significand, binary) != Comparison::Less
            &&& compare_with(y, significand + 1, binary) == Comparison::Less
            &&& low != 0 || high as nat % pow2(carry_shift(fmt)) != 0 ==> compare_with(
                y,
                significand,
                binary,
            ) == Comparison::Greater
        }),
{
    lemma2_to64();
    lemma2_to64_rest();
    lemma_normalize_shift(mantissa);
    let y = Number { digits: mantissa as nat, binary: 0, decimal: exponent };
    let w = mantissa as nat;
    let zeros = normalize_shift(mantissa);
    let first = pow2(zeros);
    let m = (mantissa * first) as u64;
    let power = power_of_10(exponent);
    let hi = power.0 as nat;
    let lo = power.1 as nat;
    let t = power_of_10_value(exponent);
    let k = power_of_10_exponent(exponent) - 64;
    let base = k - zeros;
    lemma_power_position(w, exponent);
    lemma_compare_shift(y, w * t, base, zeros);
    lemma_compare_shift(y, w * t + w, base, zeros);
    let low_end = (m as nat) * t;
    let high_end = (m as nat) * t + m as nat;
    assert((w * t) * first == low_end && (w * t + w) * first == high_end) by (nonlinear_arith)
        requires
            m == w * first,
            low_end == (m as nat) * t,
            high_end == (m as nat) * t + m as nat,
    ;
    // compare_with(y, low_end, base) != Less, compare_with(y, high_end, base) == Less
    let part = pow2(carry_shift(fmt));
    assert(part >= 2 && carry_shift(fmt) <= 38) by {
        lemma_pow2_monotonic(1, carry_shift(fmt));
    }
    let x = (m as nat) * hi;
    let x_hi = x / (two_64() as nat);
    let x_lo = x % (two_64() as nat);
    let z = (m as nat) * lo;
    let z_hi = z / (two_64() as nat);
    let z_lo = z % (two_64() as nat);
    assert(x_hi * two_64() + x_lo == x && x_hi < two_64() - 1 && x_lo < two_64() && z_hi
        * two_64() + z_lo == z && z_hi < two_64() - 1 && z_lo < two_64() && x
        >= 0x4000_0000_0000_0000 * two_64() && low_end == x * two_64() + z) by (nonlinear_arith)
        requires
            x == (m as nat) * hi,
            z == (m as nat) * lo,
            x_hi == x / 0x1_0000_0000_0000_0000,
            x_lo == x % 0x1_0000_0000_0000_0000,
            z_hi == z / 0x1_0000_0000_0000_0000,
            z_lo == z % 0x1_0000_0000_0000_0000,
            two_64() == 0x1_0000_0000_0000_0000,
            0x8000_0000_0000_0000 <= m < 0x1_0000_0000_0000_0000,
            0x8000_0000_0000_0000 <= hi < 0x1_0000_0000_0000_0000,
            lo < 0x1_0000_0000_0000_0000,
            t == hi * 0x1_0000_0000_0000_0000 + lo,
            low_end == (m as nat) * t,
    ;
    let (high, low) = wide_product(fmt, m, power).unwrap();
    let widened = x_hi % part == part - 1 && x_lo + m >= two_64();
    let merged = x + z_hi;
    let slack: nat = if widened {
        z_lo + m as nat
    } else {
        z + m as nat
    };
    assert(high >= 0x4000_0000_0000_0000 && high < two_64() && low < two_64() && low_end
        == high * two_128() + low * two_64() + (slack - m) && (low * two_64() + slack
        <= two_128() || (high as nat % part != part - 1 && low * two_64() + slack <= 2
        * two_128()))) by {
        if widened {
            assert(merged / (two_64() as nat) == high && merged % (two_64() as nat) == low);
            assert(high * two_64() + low == merged && 0x4000_0000_0000_0000 <= high < two_64())
                by (nonlinear_arith)
                requires
                    merged == x + z_hi,
                    high == merged / 0x1_0000_0000_0000_0000,
                    low == merged % 0x1_0000_0000_0000_0000,
                    two_64() == 0x1_0000_0000_0000_0000,
                    x == x_hi * two_64() + x_lo,
                    x >= 0x4000_0000_0000_0000 * two_64(),
                    x_hi < two_64() - 1,
                    x_lo < two_64(),
                    z_hi < two_64(),
            ;
            assert(low_end == high * two_128() + low * two_64() + z_lo) by (nonlinear_arith)
                requires
                    low_end == x * two_64() + z,
                    z == z_hi * two_64() + z_lo,
                    merged == x + z_hi,
                    high * two_64() + low == merged,
                    two_128() == two_64() * two_64(),
            ;
            assert(low * two_64() + slack <= two_128() || (high as nat % part != part - 1 && low
                * two_64() + slack <= 2 * two_128())) by (nonlinear_arith)
                requires
                    slack == z_lo + m,
                    z_lo < two_64(),
                    m < two_64(),
                    low < two_64(),
                    two_64() == 0x1_0000_0000_0000_0000,
                    two_128() == two_64() * two_64(),
                    !(high as nat % part == part - 1 && low + 1 == two_64() && z_lo + m
                        >= two_64()),
            ;
        } else {
            assert(high == x_hi && low == x_lo);
            assert(low_end == high * two_128() + low * two_64() + z) by (nonlinear_arith)
                requires
                    low_end == x * two_64() + z,
                    x == x_hi * two_64() + x_lo,
                    high == x_hi,
                    low == x_lo,
                    two_128() == two_64() * two_64(),
            ;
            assert(low * two_64() + slack <= two_128() || (high as nat % part != part - 1 && low
                * two_64() + slack <= 2 * two_128())) by (nonlinear_arith)
                requires
                    slack == z + m,
                    z == (m as nat) * lo,
                    lo < two_64(),
                    m < two_64(),
                    low < two_64(),
                    two_64() == 0x1_0000_0000_0000_0000,
                    two_128() == two_64() * two_64(),
                    !(high as nat % part == part - 1 && low + m >= two_64()),
            ;
        }
    }
    let top = high as nat / pow2(63);
    assert(top == 0 || top == 1) by {
        assert(top == high as nat / 0x8000_0000_0000_0000);
    }
    let whole = pow2(top + carry_shift(fmt));
    lemma_pow2_adds(1, carry_shift(fmt));
    assert(whole == part || whole == 2 * part);
    lemma_window(high as nat, low as nat, slack, low_end, high_end, part, whole);
    let significand = high as nat / whole;
    assert(shift_to_carry_spec(high, 0, carry_shift(fmt)).0 == significand);
    let binary = significand_exponent(fmt, mantissa, exponent, high);
    let up = 128 + top + carry_shift(fmt);
    assert(binary == base + up);
    lemma_pow2_adds(64, 64);
    lemma_pow2_adds(top + carry_shift(fmt), 128);
    assert(pow2(up) == whole * two_128()) by (nonlinear_arith)
        requires
            pow2(up) == whole * pow2(128),
            pow2(128) == pow2(64) * pow2(64),
            pow2(64) == 0x1_0000_0000_0000_0000,
            two_128() == two_64() * two_64(),
            two_64() == 0x1_0000_0000_0000_0000,
    ;
    lemma_compare_shift(y, significand, base, up);
    lemma_compare_shift(y, significand + 1, base, up);
    lemma_compare_monotonic(y, significand * pow2(up), low_end, base);
    lemma_compare_monotonic(y, high_end, (significand + 1) * pow2(up), base);
}

/// What [`to_float_spec`] gives for a significand at the carry position
/// whose exponent is that of a normal float: the bits of the float of the
/// significand without its lowest bit, and one more where that bit is set;
/// or infinity at or above the range of the finite floats.
#[verifier::rlimit(50)]
pub proof fn lemma_to_float(fmt: Format, significand: nat, exp: int)
    requires
        2 * fmt.hidden_bit_mask() <= significand < 4 * fmt.hidden_bit_mask(),
        1 <= exp,
    ensures
        ({
            let binary = exp - fmt.exponent_bias();
            let kept = significand / 2;
            &&& to_float_spec(fmt, significand, exp).1
            &&& binary >= fmt.max_exponent() ==> to_float_spec(fmt, significand, exp).0
                == fmt.infinity_bits()
            &&& binary < fmt.max_exponent() ==> is_float_parts(fmt, kept, binary) && to_float_spec(
                fmt,
                significand,
                exp,
            ).0 == bits_of_parts(fmt, kept, binary) + significand % 2
        }),
{
    lemma2_to64();
    lemma2_to64_rest();
    fmt.lemma_masks();
    let hidden = fmt.hidden_bit_mask() as nat;
    let binary = exp - fmt.exponent_bias();
    let kept = significand / 2;
    let up = significand % 2;
    let halved = (significand + significand % 2) / 2;
    assert(halved == kept + up);
    lemma_pow2_adds(fmt.mantissa_size() as nat, 1);
    assert(pow2((fmt.mantissa_size() + 1) as nat) == 2 * hidden);
    assert(pow2(fmt.mantissa_size() as nat) == hidden);
    let carried = halved / (2 * hidden) > 0;
    assert(carried == (halved == 2 * hidden)) by {
        if halved < 2 * hidden {
            vstd::arithmetic::div_mod::lemma_basic_div(halved as int, (2 * hidden) as int);
        } else {
            assert(halved == 2 * hidden);
            assert((2 * hidden) / (2 * hidden) == 1) by (nonlinear_arith)
                requires
                    hidden > 0,
            ;
        }
    }
    if binary < fmt.max_exponent() {
        assert(is_float_parts(fmt, kept, binary));
        lemma_bits_of_parts(fmt, kept, binary);
        if carried {
            assert(halved / 2 == hidden);
            assert(hidden % hidden == 0) by (nonlinear_arith)
                requires
                    hidden > 0,
            ;
            match fmt {
                Format::Binary32 => {},
                Format::Binary64 => {},
            }
        } else {
            assert(halved % hidden == halved - hidden) by {
                vstd::arithmetic::div_mod::lemma_fundamental_div_mod_converse(
                    halved as int,
                    hidden as int,
                    1,
                    halved - hidden,
                );
            }
            match fmt {
                Format::Binary32 => {},
                Format::Binary64 => {},
            }
        }
    }
}

/// A number that is at least a significand at the carry position, with an
/// exponent at or above the range of the finite floats, has infinity as
/// its nearest float.
#[verifier::rlimit(50)]
proof fn lemma_significand_infinity(fmt: Format, y: Number, significand: nat, binary: int)
    requires
        2 * fmt.hidden_bit_mask() <= significand,
        binary + 1 >= fmt.max_exponent(),
        compare_with(y, significand, binary) != Comparison::Less,
    ensures
        is_nearest(fmt, y, fmt.infinity_bits()),
{
    fmt.lemma_masks();
    let hidden = fmt.hidden_bit_mask() as nat;
    let last = (2 * hidden - 1) as nat;
    let top = fmt.max_exponent() - 1;
    assert(is_float_parts(fmt, last, top));
    lemma_bits_of_parts(fmt, last, top);
    assert(bits_of_parts(fmt, last, top) == fmt.infinity_bits() - 1) by {
        match fmt {
            Format::Binary32 => {},
            Format::Binary64 => {},
        }
    }
    let raise = (binary - (top - 1)) as nat;
    lemma2_to64();
    lemma_pow2_monotonic(1, raise);
    lemma_compare_shift(y, significand, top - 1, raise);
    let scale = pow2(raise);
    assert(2 * last + 1 < significand * scale) by (nonlinear_arith)
        requires
            last == 2 * hidden - 1,
            significand >= 2 * hidden,
            scale >= 2,
    ;
    lemma_compare_monotonic(y, 2 * last + 1, significand * scale, top - 1);
}

/// The float nearest to a number that is a significand at the carry
/// position and a fraction of one, in the range of the finite floats: the
/// float of the significand without its lowest bit, or the next one where
/// that bit is set and the number is not a tie that goes down.
#[verifier::rlimit(40)]
proof fn lemma_significand_finite(
    fmt: Format,
    y: Number,
    significand: nat,
    binary: int,
    strict: bool,
)
    requires
        2 * fmt.hidden_bit_mask() <= significand < 4 * fmt.hidden_bit_mask(),
        fmt.denormal_exponent() <= binary + 1 < fmt.max_exponent(),
        compare_with(y, significand, binary) != Comparison::Less,
        compare_with(y, significand + 1, binary) == Comparison::Less,
        strict ==> compare_with(y, significand, binary) == Comparison::Greater,
        significand % 4 == 1 ==> strict,
    ensures
        0 <= bits_of_parts(fmt, significand / 2, binary + 1) + significand % 2
            <= fmt.infinity_bits(),
        is_nearest(
            fmt,
            y,
            (bits_of_parts(fmt, significand / 2, binary + 1) + significand % 2) as u64,
        ),
{
    let kept = significand / 2;
    let up = significand % 2;
    let fine = binary - 2;
    lemma_small_powers();
    lemma_halfway_positions(fmt, y, kept, fine, 3);
    lemma_compare_shift(y, significand, fine, 2);
    lemma_compare_shift(y, significand + 1, fine, 2);
    let bits = bits_of_parts(fmt, kept, binary + 1);
    let base = kept * 8;
    assert(significand == 2 * kept + up);
    if up == 0 {
        assert(significand * pow2(2) == base);
        assert((significand + 1) * pow2(2) == base + 4);
        if bits > 0 {
            assert(base >= 2) by {
                match fmt {
                    Format::Binary32 => {},
                    Format::Binary64 => {},
                }
            }
            lemma_compare_monotonic(y, (base - 2) as nat, base, fine);
        }
    } else {
        assert(significand * pow2(2) == base + 4);
        assert((significand + 1) * pow2(2) == base + 8);
        lemma_compare_monotonic(y, base + 8, base + 8 + 4, fine);
        assert(kept % 2 == 1 || strict) by {
            if kept % 2 == 0 {
                assert(significand % 4 == 1);
            }
        }
    }
}

/// The first powers of two.
proof fn lemma_small_powers()
    ensures
        pow2(1) == 2,
        pow2(2) == 4,
        pow2(3) == 8,
{
    lemma2_to64();
}

/// The float nearest to a number that is a significand at the carry
/// position and a fraction of one: the float of the significand without
/// its lowest bit, or the next one where that bit is set and the number is
/// not a tie that goes down; or infinity.
#[verifier::rlimit(50)]
pub proof fn lemma_nearest_from_significand(
    fmt: Format,
    y: Number,
    significand: nat,
    binary: int,
    strict: bool,
)
    requires
        2 * fmt.hidden_bit_mask() <= significand < 4 * fmt.hidden_bit_mask(),
        fmt.denormal_exponent() <= binary + 1,
        compare_with(y, significand, binary) != Comparison::Less,
        compare_with(y, significand + 1, binary) == Comparison::Less,
        strict ==> compare_with(y, significand, binary) == Comparison::Greater,
        significand % 4 == 1 ==> strict,
    ensures
        binary + 1 >= fmt.max_exponent() ==> is_nearest(fmt, y, fmt.infinity_bits()),
        binary + 1 < fmt.max_exponent() ==> 0 <= bits_of_parts(
            fmt,
            significand / 2,
            binary + 1,
        ) + significand % 2 <= fmt.infinity_bits() && is_nearest(
            fmt,
            y,
            (bits_of_parts(fmt, significand / 2, binary + 1) + significand % 2) as u64,
        ),
{
    if binary + 1 >= fmt.max_exponent() {
        lemma_significand_infinity(fmt, y, significand, binary);
    } else {
        lemma_significand_finite(fmt, y, significand, binary, strict);
    }
}

/// A number below a significand at the carry position, with an exponent
/// far below that of the smallest float, has zero as its nearest float.
#[verifier::rlimit(50)]
pub proof fn lemma_nearest_zero(fmt: Format, y: Number, significand: nat, binary: int)
    requires
        significand < 4 * fmt.hidden_bit_mask(),
        binary + fmt.mantissa_size() + 4 <= fmt.denormal_exponent(),
        compare_with(y, significand + 1, binary) == Comparison::Less,
    ensures
        is_nearest(fmt, y, 0),
{
    lemma2_to64();
    lemma2_to64_rest();
    fmt.lemma_masks();
    let raise = (fmt.denormal_exponent() - 1 - binary) as nat;
    lemma_bits_of_parts(fmt, 0, fmt.denormal_exponent());
    lemma_compare_shift(y, 1, binary, raise);
    lemma_pow2_monotonic((fmt.mantissa_size() + 3) as nat, raise);
    lemma_pow2_adds(fmt.mantissa_size() as nat, 3);
    assert(1 * pow2(raise) == pow2(raise));
    lemma_compare_monotonic(y, significand + 1, pow2(raise), binary);
}

/// The Eisel-Lemire conversion is right: a float that it proves is the
/// float nearest to `mantissa * 10^exponent`, and the even one of two that
/// are equally near.
#[verifier::rlimit(50)]
pub proof fn lemma_eisel_lemire_sound(fmt: Format, mantissa: u64, exponent: int)
    requires
        mantissa != 0,
        MIN_DENORMAL_EXP10 <= exponent <= MAX_NORMAL_EXP10,
        eisel_lemire_spec(fmt, mantissa, exponent).1,
    ensures
        is_nearest(
            fmt,
            Number { digits: mantissa as nat, binary: 0, decimal: exponent },
            eisel_lemire_spec(fmt, mantissa, exponent).0,
        ),
{
    lemma2_to64();
    lemma2_to64_rest();
    fmt.lemma_masks();
    lemma_normalize_shift(mantissa);
    let y = Number { digits: mantissa as nat, binary: 0, decimal: exponent };
    let zeros = normalize_shift(mantissa);
    let m = (mantissa * pow2(zeros)) as u64;
    let bias = fmt.exponent_bias() - fmt.mantissa_size();
    let exp2 = log2_pow10(exponent) + (64 + bias) - zeros;
    let hidden = fmt.hidden_bit_mask() as nat;
    assert(wide_product(fmt, m, power_of_10(exponent)).is_some());
    let (high, low) = wide_product(fmt, m, power_of_10(exponent)).unwrap();
    lemma_significand_position(fmt, mantissa, exponent);
    let (significand, biased) = shift_to_carry_spec(high, exp2, carry_shift(fmt));
    assert(significand == shift_to_carry_spec(high, 0, carry_shift(fmt)).0);
    let binary = significand_exponent(fmt, mantissa, exponent, high);
    let top = high as nat / pow2(63);
    assert(top == 0 || top == 1) by {
        assert(top == high as nat / 0x8000_0000_0000_0000);
    }
    assert(binary + 1 + fmt.exponent_bias() == biased) by {
        assert(power_of_10_exponent(exponent) == -63 + log2_pow10(exponent));
        match fmt {
            Format::Binary32 => {},
            Format::Binary64 => {},
        }
    }
    assert(-2000 <= binary <= 2000) by {
        assert(power_of_10_exponent(exponent) == -63 + (217706 * exponent) / 65536);
    }
    // The significand has the hidden bit and one bit more.
    let whole = pow2(top + carry_shift(fmt));
    lemma_pow2_adds(fmt.mantissa_size() as nat, carry_shift(fmt));
    lemma_pow2_adds(1, carry_shift(fmt));
    lemma_pow2_pos(carry_shift(fmt));
    let part = pow2(carry_shift(fmt));
    assert(2 * hidden <= significand < 4 * hidden) by (nonlinear_arith)
        requires
            significand == high as nat / whole,
            hidden * part == 0x2000_0000_0000_0000,
            top == 0 ==> whole == part && 0x4000_0000_0000_0000 <= high < 0x8000_0000_0000_0000,
            top == 1 ==> whole == 2 * part && 0x8000_0000_0000_0000 <= high
                < 0x1_0000_0000_0000_0000,
            top == 0 || top == 1,
            part > 0,
            hidden > 0,
    ;
    let strict = low != 0 || high as nat % part != 0;
    assert(eisel_lemire_spec(fmt, mantissa, exponent) == to_float_spec(fmt, significand, biased));
    if biased <= -(fmt.mantissa_size() + 2) {
        lemma_nearest_zero(fmt, y, significand, binary);
    } else {
        lemma_to_float(fmt, significand, biased);
        lemma_nearest_from_significand(fmt, y, significand, binary, strict);
    }
}

/// Whether `estimate` is the decimal exponent `exact` brought into the
/// range of `i32`, as far as the table of powers can tell: the same, or
/// beyond the table on the same side.
pub open spec fn is_exponent_estimate(estimate: int, exact: int) -> bool {
    ||| estimate == exact
    ||| estimate < MIN_DENORMAL_EXP10 && exact <= estimate
    ||| estimate > MAX_NORMAL_EXP10 && exact >= estimate
}

/// The moderate path is right: what it gives for a number that holds the
/// digits of `mantissa` at the decimal exponent `exact`, of which
/// `exponent` is an estimate, is a sound estimate of the nearest float.
/// Where digits were truncated, the significand has at least 61 bits.
#[verifier::rlimit(50)]
pub proof fn lemma_moderate_path_sound(
    fmt: Format,
    x: Number,
    mantissa: u64,
    exponent: int,
    exact: int,
    truncated: bool,
)
    requires
        mantissa != 0,
        truncated ==> mantissa >= 0x1000_0000_0000_0000,
        is_exponent_estimate(exponent, exact),
        crate::nearest::holds_digits(x, mantissa as nat, exact, !truncated),
    ensures
        crate::nearest::is_sound_estimate(
            fmt,
            x,
            crate::lemire::moderate_path_spec(fmt, mantissa, exponent, truncated).0,
            crate::lemire::moderate_path_spec(fmt, mantissa, exponent, truncated).1,
        ),
{
    let (float, valid) = eisel_lemire_spec(fmt, mantissa, exponent);
    let agreed = if !truncated {
        true
    } else if mantissa == u64::MAX {
        false
    } else {
        eisel_lemire_spec(fmt, (mantissa + 1) as u64, exponent) == (float, true)
    };
    if exponent < MIN_DENORMAL_EXP10 {
        crate::limits::lemma_below_table(fmt, x, mantissa, exact, !truncated);
        let zero = crate::float::ExtendedFloat { mant: 0, exp: 0 };
        crate::rounding::lemma_round_exact_zero(fmt, zero);
    } else if exponent > MAX_NORMAL_EXP10 {
        crate::limits::lemma_above_table(fmt, x, mantissa, exact, !truncated);
        let huge = crate::float::ExtendedFloat { mant: 0x8000_0000_0000_0000, exp: 0x7FF };
        crate::rounding::lemma_round_result(
            fmt,
            huge,
            crate::rounding::Rounding::NearestTieEven,
        );
    } else if valid && agreed {
        lemma_eisel_lemire_sound(fmt, mantissa, exponent);
        if truncated {
            lemma_eisel_lemire_sound(fmt, (mantissa + 1) as u64, exponent);
            crate::nearest::lemma_nearest_between(fmt, x, mantissa as nat, exponent, float);
        } else {
            crate::nearest::lemma_nearest_exact(fmt, x, mantissa as nat, exponent, float);
        }
    } else {
        crate::extended_float::lemma_moderate_path_sound(fmt, x, mantissa, exponent, truncated);
    }
}

/// A float that the Eisel-Lemire conversion proves, for any decimal
/// exponent, is the float nearest to `mantissa * 10^exponent`.
pub proof fn lemma_eisel_lemire_nearest(fmt: Format, mantissa: u64, exponent: int)
    requires
        mantissa != 0,
        eisel_lemire_spec(fmt, mantissa, exponent).1,
    ensures
        is_nearest(
            fmt,
            Number { digits: mantissa as nat, binary: 0, decimal: exponent },
            eisel_lemire_spec(fmt, mantissa, exponent).0,
        ),
{
    let y = Number { digits: mantissa as nat, binary: 0, decimal: exponent };
    crate::small_powers::lemma_pow_step(10, 0);
    assert(crate::nearest::holds_digits(y, mantissa as nat, exponent, true));
    if exponent < MIN_DENORMAL_EXP10 {
        crate::limits::lemma_below_table(fmt, y, mantissa, exponent, true);
    } else if exponent > MAX_NORMAL_EXP10 {
        crate::limits::lemma_above_table(fmt, y, mantissa, exponent, true);
    } else {
        lemma_eisel_lemire_sound(fmt, mantissa, exponent);
    }
}

} // verus!
