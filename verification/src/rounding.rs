//! Rounding an extended float to the significand width of a native float,
//! and packing the result into the bits of the float.

use vstd::prelude::*;
use vstd::arithmetic::power2::{lemma2_to64, lemma2_to64_rest, lemma_pow2_pos, pow2};
use crate::bits::{
    halfway,
    join_bits,
    lemma_pow2_monotonic,
    lower_n_bits,
    lower_n_halfway,
    normalize_shift,
    shr_64,
};
use crate::float::ExtendedFloat;
use crate::nearest::{
    is_at,
    is_nearest,
    is_within,
    lemma_compare_below,
    lemma_compare_from,
    lemma_compare_monotonic,
    lemma_compare_shift,
    lemma_halfway_around,
    Number,
};
use crate::num::{bits_of_parts, is_float_parts, lemma_bits_of_parts, Float, Format};

verus! {

/// How the bits that a right shift drops decide the last bit kept.
#[derive(Clone, Copy, Debug, PartialEq, Eq, Structural)]
pub enum Rounding {
    /// To the nearest, and to the even one where two are equally near.
    NearestTieEven,
    /// To the nearest, where the number is known to be above what the
    /// significand holds: a tie rounds up.
    NearestAbove,
    /// Toward zero.
    Downward,
}

/// `mant / 2^shift`, rounded as `kind` says.
pub open spec fn round_shift_spec(kind: Rounding, mant: nat, shift: nat) -> nat {
    let quotient = mant / pow2(shift);
    let dropped = mant % pow2(shift);
    let up = match kind {
        Rounding::NearestTieEven => dropped > halfway(shift) || (dropped == halfway(shift)
            && quotient % 2 == 1),
        Rounding::NearestAbove => dropped >= halfway(shift),
        Rounding::Downward => false,
    };
    if up {
        quotient + 1
    } else {
        quotient
    }
}

/// The rounded quotient stays below `2^(64 - shift)`, or reaches it.
pub proof fn lemma_round_shift_bound(kind: Rounding, mant: nat, shift: nat)
    requires
        mant < pow2(64),
        1 <= shift <= 64,
    ensures
        round_shift_spec(kind, mant, shift) <= pow2((64 - shift) as nat),
        round_shift_spec(kind, mant, shift) <= 0x8000_0000_0000_0000,
{
    lemma_pow2_pos(shift);
    vstd::arithmetic::power2::lemma_pow2_adds((64 - shift) as nat, shift);
    let q = mant / pow2(shift);
    assert(q < pow2((64 - shift) as nat)) by (nonlinear_arith)
        requires
            q == mant / pow2(shift),
            mant < pow2((64 - shift) as nat) * pow2(shift),
            pow2(shift) > 0,
    ;
    lemma_pow2_monotonic((64 - shift) as nat, 63);
    lemma2_to64_rest();
}

/// Shifts the significand right by `shift` bits and rounds it as `kind`
/// says.
#[verifier::rlimit(50)]
pub fn round_shift(fp: &mut ExtendedFloat, shift: u32, kind: Rounding)
    requires
        1 <= shift <= 64,
        old(fp).exp + shift <= i32::MAX,
    ensures
        final(fp).mant == round_shift_spec(kind, old(fp).mant as nat, shift as nat),
        final(fp).exp == old(fp).exp + shift,
{
    proof {
        lemma2_to64();
        lemma_round_shift_bound(kind, fp.mant as nat, shift as nat);
        lemma_round_shift_bound(Rounding::Downward, fp.mant as nat, shift as nat);
    }
    let dropped: u64 = lower_n_bits(fp.mant, shift);
    let half: u64 = lower_n_halfway(shift);
    let quotient: u64 = shr_64(fp.mant, shift);
    let is_odd: bool = lower_n_bits(quotient, 1) == 1;
    let up: bool = match kind {
        Rounding::NearestTieEven => dropped > half || (dropped == half && is_odd),
        Rounding::NearestAbove => dropped >= half,
        Rounding::Downward => false,
    };
    fp.mant = if up {
        quotient + 1
    } else {
        quotient
    };
    fp.exp = fp.exp + shift as i32;
}

/// The extended float rounded to the significand width of `fmt`: the
/// significand is normalized and then shifted right, by the default shift
/// that leaves the hidden bit on top, or by more where the number is
/// subnormal; a significand that rounding carried past the hidden bit is
/// halved. A number too small for any shift becomes zero.
pub open spec fn round_to_native_spec(fmt: Format, fp: ExtendedFloat, kind: Rounding)
    -> ExtendedFloat {
    let n = fp.normalize_spec();
    let default_shift = 63 - fmt.mantissa_size();
    let rounded = if n.exp + default_shift < fmt.denormal_exponent() {
        let diff = fmt.denormal_exponent() - n.exp;
        if diff <= 64 {
            ExtendedFloat {
                mant: round_shift_spec(kind, n.mant as nat, diff as nat) as u64,
                exp: (n.exp + diff) as i32,
            }
        } else {
            ExtendedFloat { mant: 0, exp: 0 }
        }
    } else {
        ExtendedFloat {
            mant: round_shift_spec(kind, n.mant as nat, default_shift as nat) as u64,
            exp: (n.exp + default_shift) as i32,
        }
    };
    if rounded.mant >= 2 * fmt.hidden_bit_mask() {
        ExtendedFloat { mant: rounded.mant / 2, exp: (rounded.exp + 1) as i32 }
    } else {
        rounded
    }
}

/// Rounds an extended float to the significand width of the format `F`.
#[verifier::rlimit(50)]
pub fn round_to_native<F: Float>(fp: &mut ExtendedFloat, kind: Rounding)
    requires
        old(fp).exp_in_range(),
    ensures
        *final(fp) == round_to_native_spec(F::format(), *old(fp), kind),
        final(fp).mant < 2 * F::format().hidden_bit_mask(),
{
    fp.normalize();
    let default_shift: i32 = 63 - F::mantissa_size();
    proof {
        lemma2_to64();
        lemma2_to64_rest();
    }
    if fp.exp + default_shift < F::denormal_exponent() {
        let diff: i32 = F::denormal_exponent() - fp.exp;
        if diff <= 64 {
            proof {
                lemma_round_shift_bound(kind, fp.mant as nat, diff as nat);
                lemma_pow2_monotonic((64 - diff) as nat, F::format().mantissa_size() as nat);
                F::format().lemma_masks();
            }
            round_shift(fp, diff as u32, kind);
        } else {
            fp.mant = 0;
            fp.exp = 0;
        }
    } else {
        proof {
            lemma_round_shift_bound(kind, fp.mant as nat, default_shift as nat);
            F::format().lemma_masks();
        }
        round_shift(fp, default_shift as u32, kind);
    }
    if fp.mant >= 2 * F::hidden_bit_mask() {
        fp.mant = fp.mant / 2;
        fp.exp = fp.exp + 1;
    }
}

/// The bits of the float of format `fmt` that a rounded extended float
/// stands for: zero for a zero significand or an exponent below the
/// subnormal one, infinity for an exponent at or above the largest, and
/// else the biased exponent above the stored significand bits.
pub open spec fn pack(fmt: Format, fp: ExtendedFloat) -> u64 {
    if fp.mant == 0 || fp.exp < fmt.denormal_exponent() {
        0
    } else if fp.exp >= fmt.max_exponent() {
        fmt.infinity_bits()
    } else {
        let biased: int = if fp.exp == fmt.denormal_exponent() && fp.mant < fmt.hidden_bit_mask() {
            0
        } else {
            fp.exp + fmt.exponent_bias()
        };
        (biased * pow2(fmt.mantissa_size() as nat) + fp.mant as nat % pow2(
            fmt.mantissa_size() as nat,
        )) as u64
    }
}

/// Packing the parts of a float gives its bits; packing an exponent at or
/// above the largest gives infinity.
#[verifier::rlimit(50)]
pub proof fn lemma_pack(fmt: Format, fp: ExtendedFloat)
    requires
        fmt.denormal_exponent() <= fp.exp,
        fp.mant < 2 * fmt.hidden_bit_mask(),
        fp.mant >= fmt.hidden_bit_mask() || fp.exp == fmt.denormal_exponent(),
    ensures
        fp.exp < fmt.max_exponent() ==> is_float_parts(fmt, fp.mant as nat, fp.exp as int) && pack(
            fmt,
            fp,
        ) == bits_of_parts(fmt, fp.mant as nat, fp.exp as int),
        fp.exp >= fmt.max_exponent() && fp.mant > 0 ==> pack(fmt, fp) == fmt.infinity_bits(),
{
    lemma2_to64();
    lemma2_to64_rest();
    fmt.lemma_masks();
    let h = fmt.hidden_bit_mask() as int;
    let m = fp.mant as int;
    assert(pow2(fmt.mantissa_size() as nat) == h);
    if fp.exp < fmt.max_exponent() {
        crate::num::lemma_bits_of_parts(fmt, fp.mant as nat, fp.exp as int);
        if m < h {
            assert(m % h == m);
        } else {
            assert(m % h == m - h) by {
                vstd::arithmetic::div_mod::lemma_fundamental_div_mod_converse(m, h, 1, m - h);
            }
        }
        match fmt {
            Format::Binary32 => {},
            Format::Binary64 => {},
        }
    }
}

/// Packs a rounded extended float into the bits of a float of the format
/// `F`.
#[verifier::rlimit(50)]
pub fn pack_float<F: Float>(fp: ExtendedFloat) -> (r: F)
    ensures
        r.bits() == pack(F::format(), fp),
        r.bits() <= F::format().infinity_bits(),
{
    proof {
        lemma2_to64();
        lemma2_to64_rest();
        F::format().lemma_masks();
    }
    if fp.mant == 0 || fp.exp < F::denormal_exponent() {
        F::zero()
    } else if fp.exp >= F::max_exponent() {
        F::from_bits(F::infinity_bits())
    } else {
        let biased: u64 = if fp.exp == F::denormal_exponent() && fp.mant < F::hidden_bit_mask() {
            0
        } else {
            (fp.exp + F::exponent_bias()) as u64
        };
        let size: u32 = F::mantissa_size() as u32;
        let stored: u64 = lower_n_bits(fp.mant, size);
        proof {
            lemma_pow2_pos(size as nat);
        }
        F::from_bits(join_bits(biased, stored, size))
    }
}

/// The quotient that rounding keeps is the quotient of the division or one
/// more, as the bits dropped and the kind of rounding say.
pub proof fn lemma_round_shift(kind: Rounding, mant: nat, shift: nat)
    requires
        1 <= shift,
    ensures
        ({
            let quotient = mant / pow2(shift);
            let dropped = mant % pow2(shift);
            let half = pow2((shift - 1) as nat);
            let rounded = round_shift_spec(kind, mant, shift);
            &&& (rounded == quotient || rounded == quotient + 1)
            &&& kind == Rounding::NearestTieEven ==> (rounded == quotient + 1 <==> (dropped > half
                || (dropped == half && quotient % 2 == 1)))
            &&& kind == Rounding::NearestAbove ==> (rounded == quotient + 1 <==> dropped >= half)
            &&& kind == Rounding::Downward ==> rounded == quotient
        }),
{
    assert(halfway(shift) == pow2((shift - 1) as nat));
    match kind {
        Rounding::NearestTieEven => {},
        Rounding::NearestAbove => {},
        Rounding::Downward => {},
    }
}

/// The number of bits that rounding to the format drops from a normalized
/// 64-bit significand with the binary exponent `exp`: those beyond the
/// significand of a normal float, and more where the float is subnormal.
pub open spec fn native_shift(fmt: Format, exp: int) -> int {
    if exp + (63 - fmt.mantissa_size()) < fmt.denormal_exponent() {
        fmt.denormal_exponent() - exp
    } else {
        63 - fmt.mantissa_size()
    }
}

/// The leading bits that a normalized significand keeps are the
/// significand of a float: with the hidden bit where the float is normal,
/// and below it where the float is subnormal.
#[verifier::rlimit(50)]
pub proof fn lemma_kept_bits(fmt: Format, mant: nat, exp: int)
    requires
        0x8000_0000_0000_0000 <= mant < 0x1_0000_0000_0000_0000,
        native_shift(fmt, exp) <= 64,
    ensures
        ({
            let shift = native_shift(fmt, exp) as nat;
            let quotient = mant / pow2(shift);
            &&& 11 <= shift <= 64
            &&& fmt.denormal_exponent() <= exp + shift
            &&& quotient < 2 * fmt.hidden_bit_mask()
            &&& quotient >= fmt.hidden_bit_mask() || exp + shift == fmt.denormal_exponent()
            &&& exp + shift == fmt.denormal_exponent() && shift > 63 - fmt.mantissa_size()
                ==> quotient < fmt.hidden_bit_mask()
        }),
{
    lemma2_to64();
    lemma2_to64_rest();
    fmt.lemma_masks();
    let shift = native_shift(fmt, exp) as nat;
    let default_shift = (63 - fmt.mantissa_size()) as nat;
    let hidden = fmt.hidden_bit_mask() as nat;
    let whole = pow2(shift);
    let quotient = mant / whole;
    let small = pow2((64 - shift) as nat);
    lemma_pow2_pos(shift);
    vstd::arithmetic::power2::lemma_pow2_adds((64 - shift) as nat, shift);
    vstd::arithmetic::power2::lemma_pow2_adds(fmt.mantissa_size() as nat, default_shift);
    assert(quotient < small) by (nonlinear_arith)
        requires
            quotient == mant / whole,
            whole > 0,
            mant < small * whole,
    ;
    if shift == default_shift {
        assert(quotient >= hidden) by (nonlinear_arith)
            requires
                quotient == mant / whole,
                whole > 0,
                mant >= hidden * whole,
        ;
    } else {
        lemma_pow2_monotonic((64 - shift) as nat, fmt.mantissa_size() as nat);
    }
}

/// Rounding a normalized extended float that is too small for any bit to
/// be kept gives zero, the float nearest to its number.
#[verifier::rlimit(50)]
proof fn lemma_round_to_zero(fmt: Format, x: Number, fp: ExtendedFloat, kind: Rounding)
    requires
        fp.mant >= 0x8000_0000_0000_0000,
        -0x7000_0000 <= fp.exp <= 0x7000_0000,
        kind != Rounding::Downward,
        is_at(x, fp.mant as nat, fp.exp as int, kind == Rounding::NearestTieEven),
        native_shift(fmt, fp.exp as int) > 64,
    ensures
        is_nearest(fmt, x, 0),
{
    lemma2_to64();
    let exact = kind == Rounding::NearestTieEven;
    let up = (fmt.denormal_exponent() - 1 - fp.exp) as nat;
    lemma_pow2_monotonic(64, up);
    lemma_bits_of_parts(fmt, 0, fmt.denormal_exponent());
    lemma_compare_from(x, fp.mant as nat, fp.exp as int, exact, 1, up);
    assert(1 * pow2(up) == pow2(up));
}

/// Rounding a normalized extended float at or above the range of the
/// finite floats gives infinity, the float nearest to its number.
#[verifier::rlimit(50)]
proof fn lemma_round_to_infinity(fmt: Format, x: Number, fp: ExtendedFloat, kind: Rounding)
    requires
        fp.mant >= 0x8000_0000_0000_0000,
        -0x7000_0000 <= fp.exp <= 0x7000_0000,
        kind != Rounding::Downward,
        is_at(x, fp.mant as nat, fp.exp as int, kind == Rounding::NearestTieEven),
        fp.exp + (63 - fmt.mantissa_size()) >= fmt.max_exponent(),
    ensures
        is_nearest(fmt, x, fmt.infinity_bits()),
{
    lemma2_to64();
    lemma2_to64_rest();
    fmt.lemma_masks();
    let exact = kind == Rounding::NearestTieEven;
    let mant = fp.mant as nat;
    let exp = fp.exp as int;
    let hidden = fmt.hidden_bit_mask() as nat;
    let default_shift = (63 - fmt.mantissa_size()) as nat;
    let last = (2 * hidden - 1) as nat;
    let top = fmt.max_exponent() - 1;
    assert(is_float_parts(fmt, last, top));
    lemma_bits_of_parts(fmt, last, top);
    assert(bits_of_parts(fmt, last, top) == fmt.infinity_bits() - 1) by {
        match fmt {
            Format::Binary32 => {},
            Format::Binary64 => {},
        }
    }
    assert(2 * last + 1 < 0x8000_0000_0000_0000);
    if top - 1 >= exp {
        let up = (top - 1 - exp) as nat;
        lemma_pow2_monotonic(up, (default_shift - 2) as nat);
        vstd::arithmetic::power2::lemma_pow2_adds((default_shift - 2) as nat, 2);
        vstd::arithmetic::power2::lemma_pow2_adds(
            fmt.mantissa_size() as nat,
            default_shift,
        );
        lemma_pow2_pos(up);
        let scale = pow2(up);
        let most = pow2((default_shift - 2) as nat);
        assert((2 * last + 1) * scale < mant) by (nonlinear_arith)
            requires
                last == 2 * hidden - 1,
                scale <= most,
                hidden * (most * 4) == 0x8000_0000_0000_0000,
                mant >= 0x8000_0000_0000_0000,
                scale > 0,
                hidden > 0,
        ;
        lemma_compare_from(x, mant, exp, exact, 2 * last + 1, up);
    } else {
        let up = (exp - (top - 1)) as nat;
        lemma_pow2_pos(up);
        let scale = pow2(up);
        assert(2 * last + 1 < mant * scale) by (nonlinear_arith)
            requires
                2 * last + 1 < 0x8000_0000_0000_0000,
                mant >= 0x8000_0000_0000_0000,
                scale >= 1,
        ;
        lemma_compare_below(x, mant, top - 1, exact, 2 * last + 1, up);
    }
}

/// Rounding a normalized extended float gives the float nearest to its
/// number, where the bits kept are those of a finite float.
#[verifier::rlimit(50)]
proof fn lemma_round_to_finite(fmt: Format, x: Number, fp: ExtendedFloat, kind: Rounding)
    requires
        fp.mant >= 0x8000_0000_0000_0000,
        -0x7000_0000 <= fp.exp <= 0x7000_0000,
        kind != Rounding::Downward,
        is_at(x, fp.mant as nat, fp.exp as int, kind == Rounding::NearestTieEven),
        native_shift(fmt, fp.exp as int) <= 64,
        fp.exp + native_shift(fmt, fp.exp as int) < fmt.max_exponent(),
    ensures
        ({
            let shift = native_shift(fmt, fp.exp as int) as nat;
            let quotient = fp.mant as nat / pow2(shift);
            let rounded = round_shift_spec(kind, fp.mant as nat, shift);
            let result = bits_of_parts(fmt, quotient, fp.exp + shift) + (rounded - quotient);
            &&& 0 <= result <= fmt.infinity_bits()
            &&& is_nearest(fmt, x, result as u64)
        }),
{
    let exact = kind == Rounding::NearestTieEven;
    let mant = fp.mant as nat;
    let exp = fp.exp as int;
    let shift = native_shift(fmt, exp) as nat;
    lemma_kept_bits(fmt, mant, exp);
    lemma_round_shift(kind, mant, shift);
    lemma_halfway_around(fmt, x, mant, exp, exact, shift);
}

/// Rounding a normalized extended float to a native float gives the float
/// nearest to the number that the extended float stands for, ties to even;
/// and also where the number only lies above the extended float, below the
/// next 64-bit significand, and a tie is rounded up.
#[verifier::rlimit(50)]
pub proof fn lemma_round_to_native_nearest(
    fmt: Format,
    x: Number,
    fp: ExtendedFloat,
    kind: Rounding,
)
    requires
        fp.mant >= 0x8000_0000_0000_0000,
        -0x7000_0000 <= fp.exp <= 0x7000_0000,
        kind != Rounding::Downward,
        is_at(x, fp.mant as nat, fp.exp as int, kind == Rounding::NearestTieEven),
    ensures
        is_nearest(fmt, x, pack(fmt, round_to_native_spec(fmt, fp, kind))),
{
    crate::bits::lemma_normalized_shift(fp.mant);
    assert(fp.normalize_spec() == fp) by {
        lemma2_to64();
    }
    let mant = fp.mant as nat;
    let exp = fp.exp as int;
    let hidden = fmt.hidden_bit_mask() as nat;
    let shift = native_shift(fmt, exp);
    let result = pack(fmt, round_to_native_spec(fmt, fp, kind));
    if shift > 64 {
        lemma_round_to_zero(fmt, x, fp, kind);
        assert(result == 0);
    } else {
        let e = exp + shift;
        let quotient = mant / pow2(shift as nat);
        let rounded = round_shift_spec(kind, mant, shift as nat);
        lemma_kept_bits(fmt, mant, exp);
        lemma_round_shift(kind, mant, shift as nat);
        assert(rounded <= 2 * hidden) by (nonlinear_arith)
            requires
                quotient < 2 * hidden,
                rounded == quotient || rounded == quotient + 1,
        ;
        assert(round_to_native_spec(fmt, fp, kind) == if rounded >= 2 * hidden {
            ExtendedFloat { mant: (rounded / 2) as u64, exp: (e + 1) as i32 }
        } else {
            ExtendedFloat { mant: rounded as u64, exp: e as i32 }
        });
        if rounded >= 2 * hidden {
            lemma_pack(fmt, ExtendedFloat { mant: hidden as u64, exp: (e + 1) as i32 });
        } else {
            lemma_pack(fmt, ExtendedFloat { mant: rounded as u64, exp: e as i32 });
        }
        if e >= fmt.max_exponent() {
            lemma_round_to_infinity(fmt, x, fp, kind);
            assert(result == fmt.infinity_bits());
        } else {
            lemma_round_to_finite(fmt, x, fp, kind);
            if rounded >= 2 * hidden {
                lemma_bits_of_parts(fmt, hidden, e + 1);
            }
            assert(result == bits_of_parts(fmt, quotient, e) + (rounded - quotient)) by {
                match fmt {
                    Format::Binary32 => {},
                    Format::Binary64 => {},
                }
            }
        }
    }
}

/// An extended float stands for the same number when it is normalized.
#[verifier::rlimit(50)]
pub proof fn lemma_normalize_is_at(x: Number, fp: ExtendedFloat)
    requires
        fp.mant != 0,
        -0x7000_0000 <= fp.exp <= 0x7000_0000,
        is_at(x, fp.mant as nat, fp.exp as int, true),
    ensures
        fp.normalize_spec().mant >= 0x8000_0000_0000_0000,
        fp.normalize_spec().exp == fp.exp - normalize_shift(fp.mant),
        fp.normalize_spec().normalize_spec() == fp.normalize_spec(),
        is_at(x, fp.normalize_spec().mant as nat, fp.normalize_spec().exp as int, true),
{
    lemma2_to64();
    lemma2_to64_rest();
    crate::bits::lemma_normalize_shift(fp.mant);
    let shift = normalize_shift(fp.mant);
    let normal = fp.normalize_spec();
    crate::bits::lemma_normalized_shift(normal.mant);
    lemma_compare_below(x, fp.mant as nat, normal.exp as int, true, normal.mant as nat, shift);
}

/// Rounding an extended float that is zero gives zero.
pub proof fn lemma_round_exact_zero(fmt: Format, fp: ExtendedFloat)
    requires
        fp.mant == 0,
        -0x6000_0000 <= fp.exp <= 0x6000_0000,
    ensures
        pack(fmt, round_to_native_spec(fmt, fp, Rounding::NearestTieEven)) == 0,
        pack(fmt, round_to_native_spec(fmt, fp, Rounding::Downward)) == 0,
{
    lemma_round_zero(fmt, fp, Rounding::NearestTieEven);
    lemma_round_zero(fmt, fp, Rounding::Downward);
}

/// Rounding an extended float that is zero gives zero, whatever the kind
/// of rounding.
proof fn lemma_round_zero(fmt: Format, fp: ExtendedFloat, kind: Rounding)
    requires
        fp.mant == 0,
        -0x6000_0000 <= fp.exp <= 0x6000_0000,
    ensures
        pack(fmt, round_to_native_spec(fmt, fp, kind)) == 0,
{
    let shift = native_shift(fmt, fp.exp as int);
    lemma2_to64();
    fmt.lemma_masks();
    assert(normalize_shift(0) == 0);
    assert(fp.normalize_spec() == fp);
    if shift <= 64 {
        lemma_pow2_pos(shift as nat);
        let whole = pow2(shift as nat);
        assert(0nat / whole == 0 && 0nat % whole == 0) by (nonlinear_arith)
            requires
                whole > 0,
        ;
        lemma_pow2_pos((shift - 1) as nat);
        assert(round_shift_spec(kind, 0, shift as nat) == 0);
    }
    assert(round_to_native_spec(fmt, fp, kind).mant == 0);
}

/// Rounding an extended float to a native float, ties to even, gives the
/// float nearest to any number that the extended float is.
#[verifier::rlimit(50)]
pub proof fn lemma_round_exact_nearest(fmt: Format, x: Number, fp: ExtendedFloat)
    requires
        -0x6000_0000 <= fp.exp <= 0x6000_0000,
        is_at(x, fp.mant as nat, fp.exp as int, true),
    ensures
        is_nearest(fmt, x, pack(fmt, round_to_native_spec(fmt, fp, Rounding::NearestTieEven))),
{
    let kind = Rounding::NearestTieEven;
    if fp.mant == 0 {
        lemma_round_exact_zero(fmt, fp);
        lemma_bits_of_parts(fmt, 0, fmt.denormal_exponent());
        if fp.exp <= fmt.denormal_exponent() - 1 {
            lemma_compare_from(
                x,
                0,
                fp.exp as int,
                true,
                1,
                (fmt.denormal_exponent() - 1 - fp.exp) as nat,
            );
            lemma_pow2_pos((fmt.denormal_exponent() - 1 - fp.exp) as nat);
        } else {
            lemma_compare_below(
                x,
                0,
                fmt.denormal_exponent() - 1,
                true,
                1,
                (fp.exp - (fmt.denormal_exponent() - 1)) as nat,
            );
        }
    } else {
        lemma_normalize_is_at(x, fp);
        let normal = fp.normalize_spec();
        assert(round_to_native_spec(fmt, fp, kind) == round_to_native_spec(fmt, normal, kind));
        lemma_round_to_native_nearest(fmt, x, normal, kind);
    }
}

/// The bits that rounding a normalized extended float gives: zero where
/// no bit is kept, infinity where the exponent of the bits kept is at or
/// above the largest, and else the bits of the float whose significand is
/// the bits kept, or the next bits where the rounding goes up.
#[verifier::rlimit(50)]
pub proof fn lemma_round_result(fmt: Format, fp: ExtendedFloat, kind: Rounding)
    requires
        fp.mant >= 0x8000_0000_0000_0000,
        -0x7000_0000 <= fp.exp <= 0x7000_0000,
    ensures
        ({
            let shift = native_shift(fmt, fp.exp as int);
            let kept = fp.mant as nat / pow2(shift as nat);
            let rounded = round_shift_spec(kind, fp.mant as nat, shift as nat);
            let result = pack(fmt, round_to_native_spec(fmt, fp, kind));
            &&& shift >= 11
            &&& shift > 64 ==> result == 0
            &&& shift <= 64 && fp.exp + shift >= fmt.max_exponent() ==> result
                == fmt.infinity_bits()
            &&& shift <= 64 && fp.exp + shift < fmt.max_exponent() ==> is_float_parts(
                fmt,
                kept,
                fp.exp + shift,
            ) && result == bits_of_parts(fmt, kept, fp.exp + shift) + (rounded - kept)
                && (rounded == kept || rounded == kept + 1)
        }),
{
    crate::bits::lemma_normalized_shift(fp.mant);
    assert(fp.normalize_spec() == fp) by {
        lemma2_to64();
    }
    fmt.lemma_masks();
    let mant = fp.mant as nat;
    let exp = fp.exp as int;
    let hidden = fmt.hidden_bit_mask() as nat;
    let shift = native_shift(fmt, exp);
    let result = pack(fmt, round_to_native_spec(fmt, fp, kind));
    if shift > 64 {
        assert(round_to_native_spec(fmt, fp, kind).mant == 0);
    } else {
        let e = exp + shift;
        let quotient = mant / pow2(shift as nat);
        let rounded = round_shift_spec(kind, mant, shift as nat);
        lemma_kept_bits(fmt, mant, exp);
        lemma_round_shift(kind, mant, shift as nat);
        assert(rounded <= 2 * hidden) by (nonlinear_arith)
            requires
                quotient < 2 * hidden,
                rounded == quotient || rounded == quotient + 1,
        ;
        assert(round_to_native_spec(fmt, fp, kind) == if rounded >= 2 * hidden {
            ExtendedFloat { mant: (rounded / 2) as u64, exp: (e + 1) as i32 }
        } else {
            ExtendedFloat { mant: rounded as u64, exp: e as i32 }
        });
        if rounded >= 2 * hidden {
            lemma_pack(fmt, ExtendedFloat { mant: hidden as u64, exp: (e + 1) as i32 });
        } else {
            lemma_pack(fmt, ExtendedFloat { mant: rounded as u64, exp: e as i32 });
        }
        if e < fmt.max_exponent() {
            if rounded >= 2 * hidden {
                lemma_bits_of_parts(fmt, hidden, e + 1);
            }
            assert(result == bits_of_parts(fmt, quotient, e) + (rounded - quotient)) by {
                match fmt {
                    Format::Binary32 => {},
                    Format::Binary64 => {},
                }
            }
        }
    }
}

/// A number within a small error of a normalized extended float of which
/// rounding keeps no bit is below the smallest float: it is below half of
/// it where the extended float with the error does not reach the next
/// binade, and its nearest float is zero or the smallest float.
#[verifier::rlimit(50)]
proof fn lemma_within_zero(fmt: Format, x: Number, fp: ExtendedFloat, errors: nat)
    requires
        fp.mant >= 0x8000_0000_0000_0000,
        -0x7000_0000 <= fp.exp <= 0x7000_0000,
        1 <= errors <= 256,
        is_within(x, fp.mant - errors, (fp.mant + errors) as nat, fp.exp as int),
        native_shift(fmt, fp.exp as int) > 64,
    ensures
        native_shift(fmt, fp.exp as int) > 65 || fp.mant + errors <= u64::MAX ==> is_nearest(
            fmt,
            x,
            0,
        ),
        is_nearest(fmt, x, 0) || is_nearest(fmt, x, 1),
{
    lemma2_to64();
    let exp = fp.exp as int;
    let high = (fp.mant + errors) as nat;
    let shift = native_shift(fmt, exp);
    let up = (fmt.denormal_exponent() - 1 - exp) as nat;
    assert(up == shift - 1);
    lemma_bits_of_parts(fmt, 0, fmt.denormal_exponent());
    lemma_bits_of_parts(fmt, 1, fmt.denormal_exponent());
    assert(bits_of_parts(fmt, 1, fmt.denormal_exponent()) == 1);
    assert(bits_of_parts(fmt, 0, fmt.denormal_exponent()) == 0);
    let scale = pow2(up);
    lemma_pow2_monotonic(64, up);
    assert(1 * scale == scale);
    // The point halfway to the smallest float.
    lemma_compare_shift(x, 1, exp, up);
    if shift > 65 {
        lemma_pow2_monotonic(65, up);
        vstd::arithmetic::power2::lemma_pow2_adds(64, 1);
        lemma_compare_monotonic(x, high, scale, exp);
    } else if fp.mant + errors <= u64::MAX {
        lemma_compare_monotonic(x, high, scale, exp);
    }
    // The point halfway past the smallest float.
    lemma_compare_shift(x, 3, exp, up);
    assert(high <= 3 * scale) by (nonlinear_arith)
        requires
            high <= 0x1_0000_0000_0000_0000 + 256,
            scale >= 0x1_0000_0000_0000_0000,
    ;
    lemma_compare_monotonic(x, high, 3 * scale, exp);
    crate::nearest::lemma_candidates(fmt, x, 0);
}

/// A number within a small error of a normalized extended float at or
/// above the range of the finite floats has infinity as its nearest float.
#[verifier::rlimit(50)]
proof fn lemma_within_infinity(fmt: Format, x: Number, fp: ExtendedFloat, errors: nat)
    requires
        fp.mant >= 0x8000_0000_0000_0000,
        -0x7000_0000 <= fp.exp <= 0x7000_0000,
        1 <= errors <= 256,
        is_within(x, fp.mant - errors, (fp.mant + errors) as nat, fp.exp as int),
        fp.exp + (63 - fmt.mantissa_size()) >= fmt.max_exponent(),
    ensures
        is_nearest(fmt, x, fmt.infinity_bits()),
{
    lemma2_to64();
    lemma2_to64_rest();
    fmt.lemma_masks();
    let exp = fp.exp as int;
    let low = (fp.mant - errors) as nat;
    let hidden = fmt.hidden_bit_mask() as nat;
    let default_shift = (63 - fmt.mantissa_size()) as nat;
    let quarter = pow2((default_shift - 2) as nat);
    let last = (2 * hidden - 1) as nat;
    let top = fmt.max_exponent() - 1;
    assert(is_float_parts(fmt, last, top));
    lemma_bits_of_parts(fmt, last, top);
    assert(bits_of_parts(fmt, last, top) == fmt.infinity_bits() - 1) by {
        match fmt {
            Format::Binary32 => {},
            Format::Binary64 => {},
        }
    }
    lemma_pow2_monotonic(9, (default_shift - 2) as nat);
    vstd::arithmetic::power2::lemma_pow2_adds(fmt.mantissa_size() as nat, default_shift);
    vstd::arithmetic::power2::lemma_pow2_adds((default_shift - 2) as nat, 2);
    if top - 1 >= exp {
        let up = (top - 1 - exp) as nat;
        lemma_pow2_monotonic(up, (default_shift - 2) as nat);
        lemma_pow2_pos(up);
        let scale = pow2(up);
        assert((2 * last + 1) * scale <= low) by (nonlinear_arith)
            requires
                last == 2 * hidden - 1,
                scale <= quarter,
                hidden * (quarter * 4) == 0x8000_0000_0000_0000,
                low >= 0x8000_0000_0000_0000 - 256,
                quarter >= 512,
                scale > 0,
                hidden > 0,
        ;
        lemma_compare_shift(x, 2 * last + 1, exp, up);
        lemma_compare_monotonic(x, (2 * last + 1) * scale, low, exp);
    } else {
        let up = (exp - (top - 1)) as nat;
        lemma_pow2_pos(up);
        let scale = pow2(up);
        assert(2 * last + 1 <= low * scale) by (nonlinear_arith)
            requires
                2 * last + 1 < 0x4000_0000_0000_0000,
                low >= 0x4000_0000_0000_0000,
                scale >= 1,
        ;
        lemma_compare_shift(x, low, top - 1, up);
        lemma_compare_monotonic(x, 2 * last + 1, low * scale, top - 1);
    }
}

/// A number within a small error of a normalized extended float of which
/// the bits kept are those of a finite float: where the bits dropped are
/// at least the error away from half of their range, the float nearest to
/// the number is the float of the bits kept, or the next one, as the bits
/// dropped are below or above half; and in any case it is one of the two.
#[verifier::rlimit(50)]
proof fn lemma_within_finite(fmt: Format, x: Number, fp: ExtendedFloat, errors: nat)
    requires
        fp.mant >= 0x8000_0000_0000_0000,
        -0x7000_0000 <= fp.exp <= 0x7000_0000,
        1 <= errors <= 256,
        is_within(x, fp.mant - errors, (fp.mant + errors) as nat, fp.exp as int),
        native_shift(fmt, fp.exp as int) <= 64,
        fp.exp + native_shift(fmt, fp.exp as int) < fmt.max_exponent(),
    ensures
        ({
            let shift = native_shift(fmt, fp.exp as int) as nat;
            let kept = fp.mant as nat / pow2(shift);
            let dropped = fp.mant as nat % pow2(shift);
            let half = pow2((shift - 1) as nat);
            let bits = bits_of_parts(fmt, kept, fp.exp + shift);
            &&& 0 <= bits < fmt.infinity_bits()
            &&& is_nearest(fmt, x, bits as u64) || is_nearest(fmt, x, (bits + 1) as u64)
            &&& dropped + errors <= half ==> is_nearest(fmt, x, bits as u64)
            &&& dropped >= half + errors ==> is_nearest(fmt, x, (bits + 1) as u64)
        }),
{
    lemma2_to64();
    let mant = fp.mant as nat;
    let exp = fp.exp as int;
    let low = (mant - errors) as nat;
    let high = mant + errors;
    let shift = native_shift(fmt, exp);
    let e = exp + shift;
    let whole = pow2(shift as nat);
    let half = pow2((shift - 1) as nat);
    let quarter = pow2((shift - 2) as nat);
    let kept = mant / whole;
    let dropped = mant % whole;
    lemma_kept_bits(fmt, mant, exp);
    lemma_pow2_pos(shift as nat);
    vstd::arithmetic::div_mod::lemma_fundamental_div_mod(mant as int, whole as int);
    let base = kept * whole;
    assert(mant == base + dropped && 0 <= dropped < whole) by (nonlinear_arith)
        requires
            mant == whole * kept + dropped,
            base == kept * whole,
            0 <= dropped < whole,
    ;
    lemma_pow2_monotonic(9, (shift - 2) as nat);
    crate::nearest::lemma_halfway_positions(fmt, x, kept, exp, shift as nat);
    let bits = bits_of_parts(fmt, kept, e);
    // Above the point halfway from the float before.
    if bits > 0 {
        assert(kept >= 1) by {
            match fmt {
                Format::Binary32 => {},
                Format::Binary64 => {},
            }
        }
        assert(base >= whole) by (nonlinear_arith)
            requires
                base == kept * whole,
                kept >= 1,
                whole >= 0,
        ;
        lemma_compare_monotonic(x, (base - quarter) as nat, low, exp);
    }
    // Below the point halfway past the float after.
    lemma_compare_monotonic(x, high, base + whole + half, exp);
    crate::nearest::lemma_candidates(fmt, x, bits as u64);
    if dropped + errors <= half {
        lemma_compare_monotonic(x, high, base + half, exp);
    } else if dropped >= half + errors {
        lemma_compare_monotonic(x, base + half, low, exp);
    }
}

/// What rounding a normalized extended float gives for a number that lies
/// within a small error of it.
///
/// Rounded to nearest, it is the float nearest to the number where the
/// bits dropped are at least the error away from half of their range, or
/// where so many bits are dropped that the number is below half of the
/// smallest float. Rounded down, it is the float nearest to the number or
/// the one before it.
#[verifier::rlimit(50)]
pub proof fn lemma_round_within(fmt: Format, x: Number, fp: ExtendedFloat, errors: nat)
    requires
        fp.mant >= 0x8000_0000_0000_0000,
        -0x7000_0000 <= fp.exp <= 0x7000_0000,
        1 <= errors <= 256,
        is_within(x, fp.mant - errors, (fp.mant + errors) as nat, fp.exp as int),
    ensures
        ({
            let shift = native_shift(fmt, fp.exp as int);
            let dropped = fp.mant as nat % pow2(shift as nat);
            let half = pow2((shift - 1) as nat);
            let nearest = pack(fmt, round_to_native_spec(fmt, fp, Rounding::NearestTieEven));
            let down = pack(fmt, round_to_native_spec(fmt, fp, Rounding::Downward));
            &&& shift > 65 ==> is_nearest(fmt, x, nearest)
            &&& shift == 65 && fp.mant + errors <= u64::MAX ==> is_nearest(fmt, x, nearest)
            &&& shift <= 64 && (dropped + errors <= half || dropped >= half + errors)
                ==> is_nearest(fmt, x, nearest)
            &&& down <= fmt.infinity_bits()
            &&& down == fmt.infinity_bits() ==> is_nearest(fmt, x, down)
            &&& down < fmt.infinity_bits() ==> is_nearest(fmt, x, down) || is_nearest(
                fmt,
                x,
                (down + 1) as u64,
            )
        }),
{
    let shift = native_shift(fmt, fp.exp as int);
    lemma_round_result(fmt, fp, Rounding::NearestTieEven);
    lemma_round_result(fmt, fp, Rounding::Downward);
    if shift > 64 {
        lemma_within_zero(fmt, x, fp, errors);
    } else if fp.exp + shift >= fmt.max_exponent() {
        lemma_within_infinity(fmt, x, fp, errors);
    } else {
        lemma_within_finite(fmt, x, fp, errors);
        lemma_round_shift(Rounding::NearestTieEven, fp.mant as nat, shift as nat);
        lemma_round_shift(Rounding::Downward, fp.mant as nat, shift as nat);
    }
}

/// Rounding an extended float down gives the float nearest to any number
/// that the extended float is, or the float before it; and infinity only
/// where infinity is nearest.
pub proof fn lemma_round_down_estimate(fmt: Format, x: Number, fp: ExtendedFloat)
    requires
        -0x6000_0000 <= fp.exp <= 0x6000_0000,
        is_at(x, fp.mant as nat, fp.exp as int, true),
    ensures
        crate::nearest::is_sound_estimate(
            fmt,
            x,
            pack(fmt, round_to_native_spec(fmt, fp, Rounding::Downward)),
            false,
        ),
{
    let kind = Rounding::Downward;
    if fp.mant == 0 {
        lemma_round_exact_zero(fmt, fp);
        lemma_round_exact_nearest(fmt, x, fp);
        fmt.lemma_masks();
    } else {
        lemma_normalize_is_at(x, fp);
        let normal = fp.normalize_spec();
        assert(round_to_native_spec(fmt, fp, kind) == round_to_native_spec(fmt, normal, kind));
        lemma_compare_monotonic(
            x,
            (normal.mant - 1) as nat,
            normal.mant as nat,
            normal.exp as int,
        );
        lemma_compare_monotonic(x, normal.mant as nat, normal.mant as nat + 1, normal.exp as int);
        lemma_round_within(fmt, x, normal, 1);
    }
}

} // verus!
