//! What it means for a float to be the one nearest to a number.
//!
//! The numbers are non-negative and have the form
//! `digits * 2^binary * 10^decimal`. They are compared with floats in
//! integers: both sides are multiplied by the powers of two and of five
//! that clear every negative exponent.

use vstd::prelude::*;
use vstd::arithmetic::power::{lemma_pow_positive, pow};
use vstd::arithmetic::power2::{lemma_pow2_adds, lemma_pow2_pos, pow2};
use crate::bignum::{compare_spec, Comparison};
use crate::num::{
    bits_of_parts,
    float_exponent,
    float_mantissa,
    is_float_parts,
    lemma_bits_of_parts,
    lemma_parts_of_bits,
    Format,
};

verus! {

/// The number `digits * 2^binary * 10^decimal`.
pub struct Number {
    /// The integer that the powers multiply.
    pub digits: nat,
    /// The exponent of the power of two.
    pub binary: int,
    /// The exponent of the power of ten.
    pub decimal: int,
}

/// `n` where it is positive, and zero else.
pub open spec fn positive_part(n: int) -> nat {
    if n > 0 {
        n as nat
    } else {
        0
    }
}

/// How the number `x` compares with `mant * 2^exp`.
pub open spec fn compare_with(x: Number, mant: nat, exp: int) -> Comparison {
    let binary = x.binary + x.decimal;
    compare_spec(
        (x.digits * pow(5, positive_part(x.decimal)) * pow2(positive_part(binary - exp))) as nat,
        (mant * pow(5, positive_part(-x.decimal)) * pow2(positive_part(exp - binary))) as nat,
    )
}

/// How the number `x` compares with the point halfway between the float
/// with the bits `bits`, which is finite and not negative, and the next
/// float above it. Above the largest finite float, that point is where the
/// next float would be halfway to, had the exponent no end.
pub open spec fn compare_with_halfway(fmt: Format, x: Number, bits: u64) -> Comparison {
    compare_with(x, 2 * float_mantissa(fmt, bits) + 1, float_exponent(fmt, bits) - 1)
}

/// Whether the float with the bits `bits` is the one nearest to the number
/// `x`, and the even one where two floats are equally near: `x` is neither
/// above the point halfway to the next float, nor below the point halfway
/// from the float before; and where it is such a point, `bits` is even.
/// Infinity is nearest to the numbers at or above the point halfway past
/// the largest finite float.
pub open spec fn is_nearest(fmt: Format, x: Number, bits: u64) -> bool {
    &&& bits <= fmt.infinity_bits()
    &&& bits < fmt.infinity_bits() ==> match compare_with_halfway(fmt, x, bits) {
        Comparison::Less => true,
        Comparison::Equal => bits % 2 == 0,
        Comparison::Greater => false,
    }
    &&& bits > 0 ==> match compare_with_halfway(fmt, x, (bits - 1) as u64) {
        Comparison::Less => false,
        Comparison::Equal => bits % 2 == 0,
        Comparison::Greater => true,
    }
}

/// The float that an exact comparison with the halfway point chooses
/// between the float with the bits `b` and the next one.
pub open spec fn choose_nearest(fmt: Format, x: Number, b: u64) -> u64 {
    match compare_with_halfway(fmt, x, b) {
        Comparison::Greater => (b + 1) as u64,
        Comparison::Less => b,
        Comparison::Equal => if b % 2 == 1 {
            (b + 1) as u64
        } else {
            b
        },
    }
}

/// Where the float nearest to a number is a given finite float or the next
/// one above it, the comparison with the point halfway between the two
/// finds it.
pub proof fn lemma_choose_nearest(fmt: Format, x: Number, b: u64)
    requires
        b < fmt.infinity_bits(),
        is_nearest(fmt, x, b) || is_nearest(fmt, x, (b + 1) as u64),
    ensures
        is_nearest(fmt, x, choose_nearest(fmt, x, b)),
{
}

/// The number `x`, times the power of five that clears a negative decimal
/// exponent, in units of `2^scale`. It is an integer for a scale at or
/// below the binary exponent of `x`.
pub open spec fn number_at(x: Number, scale: int) -> nat {
    (x.digits * pow(5, positive_part(x.decimal)) * pow2(
        (x.binary + x.decimal - scale) as nat,
    )) as nat
}

/// `mant * 2^exp`, times the power of five that clears a negative decimal
/// exponent of `x`, in units of `2^scale`. It is an integer for a scale
/// at or below `exp`.
pub open spec fn dyadic_at(x: Number, mant: nat, exp: int, scale: int) -> nat {
    (mant * pow(5, positive_part(-x.decimal)) * pow2((exp - scale) as nat)) as nat
}

/// Multiplying both sides by a positive factor does not change how they
/// compare.
pub proof fn lemma_compare_scaled(a: nat, b: nat, c: nat)
    requires
        c > 0,
    ensures
        compare_spec(a * c, b * c) == compare_spec(a, b),
{
    assert(a < b ==> a * c < b * c) by (nonlinear_arith)
        requires
            c > 0,
    ;
    assert(a > b ==> a * c > b * c) by (nonlinear_arith)
        requires
            c > 0,
    ;
}

/// A number compares with `mant * 2^exp` as the two compare in units of
/// any power of two at or below both binary exponents.
#[verifier::rlimit(50)]
pub proof fn lemma_compare_at(x: Number, mant: nat, exp: int, scale: int)
    requires
        scale <= x.binary + x.decimal,
        scale <= exp,
    ensures
        compare_with(x, mant, exp) == compare_spec(
            number_at(x, scale),
            dyadic_at(x, mant, exp, scale),
        ),
{
    let binary = x.binary + x.decimal;
    let low = if binary < exp {
        binary
    } else {
        exp
    };
    let a = x.digits * pow(5, positive_part(x.decimal));
    let b = mant * pow(5, positive_part(-x.decimal));
    lemma_pow_positive(5, positive_part(x.decimal));
    lemma_pow_positive(5, positive_part(-x.decimal));
    let up_a = pow2((binary - low) as nat);
    let up_b = pow2((exp - low) as nat);
    let c = pow2((low - scale) as nat);
    lemma_pow2_pos((low - scale) as nat);
    lemma_pow2_adds((binary - low) as nat, (low - scale) as nat);
    lemma_pow2_adds((exp - low) as nat, (low - scale) as nat);
    assert(positive_part(binary - exp) == binary - low);
    assert(positive_part(exp - binary) == exp - low);
    assert(a >= 0 && b >= 0) by (nonlinear_arith)
        requires
            a == x.digits * pow(5, positive_part(x.decimal)),
            b == mant * pow(5, positive_part(-x.decimal)),
            pow(5, positive_part(x.decimal)) > 0,
            pow(5, positive_part(-x.decimal)) > 0,
    ;
    assert(a * up_a >= 0 && b * up_b >= 0) by (nonlinear_arith)
        requires
            a >= 0,
            b >= 0,
            up_a >= 0,
            up_b >= 0,
    ;
    assert(a * pow2((binary - scale) as nat) == (a * up_a) * c) by (nonlinear_arith)
        requires
            pow2((binary - scale) as nat) == up_a * c,
    ;
    assert(b * pow2((exp - scale) as nat) == (b * up_b) * c) by (nonlinear_arith)
        requires
            pow2((exp - scale) as nat) == up_b * c,
    ;
    lemma_compare_scaled((a * up_a) as nat, (b * up_b) as nat, c);
}

/// `mant * 2^shift` at the exponent `exp` is `mant` at the exponent
/// `exp + shift`.
pub proof fn lemma_dyadic_shift(x: Number, mant: nat, exp: int, shift: nat, scale: int)
    requires
        scale <= exp,
    ensures
        dyadic_at(x, mant * pow2(shift), exp, scale) == dyadic_at(x, mant, exp + shift, scale),
{
    let f = pow(5, positive_part(-x.decimal));
    let a = pow2(shift);
    let b = pow2((exp - scale) as nat);
    lemma_pow2_adds(shift, (exp - scale) as nat);
    assert((mant * a) * f * b == mant * f * (a * b)) by (nonlinear_arith);
}

/// At one exponent, a larger significand is a larger number.
pub proof fn lemma_dyadic_monotonic(x: Number, a: nat, b: nat, exp: int, scale: int)
    requires
        scale <= exp,
    ensures
        compare_spec(dyadic_at(x, a, exp, scale), dyadic_at(x, b, exp, scale)) == compare_spec(
            a,
            b,
        ),
{
    let f = pow(5, positive_part(-x.decimal));
    let c = pow2((exp - scale) as nat);
    lemma_pow_positive(5, positive_part(-x.decimal));
    lemma_pow2_pos((exp - scale) as nat);
    assert(f * c > 0) by (nonlinear_arith)
        requires
            f > 0,
            c > 0,
    ;
    assert(a * f * c == a * (f * c)) by (nonlinear_arith);
    assert(b * f * c == b * (f * c)) by (nonlinear_arith);
    lemma_compare_scaled(a, b, (f * c) as nat);
}

/// Whether the number `x` is `mant * 2^exp`, where `exact`; or lies
/// strictly between `mant * 2^exp` and `(mant + 1) * 2^exp`, where not.
pub open spec fn is_at(x: Number, mant: nat, exp: int, exact: bool) -> bool {
    if exact {
        compare_with(x, mant, exp) == Comparison::Equal
    } else {
        compare_with(x, mant, exp) == Comparison::Greater && compare_with(x, (mant + 1) as nat, exp)
            == Comparison::Less
    }
}

/// How a number at `mant * 2^exp`, or just above it, compares with
/// `other * 2^(exp + up)`: as `mant` compares with `other * 2^up`, where the
/// number is exact; and else above where `other * 2^up` is at most `mant`,
/// and below where it is more.
pub proof fn lemma_compare_from(x: Number, mant: nat, exp: int, exact: bool, other: nat, up: nat)
    requires
        is_at(x, mant, exp, exact),
    ensures
        exact ==> compare_with(x, other, exp + up) == compare_spec(mant, other * pow2(up)),
        !exact && other * pow2(up) <= mant ==> compare_with(x, other, exp + up)
            == Comparison::Greater,
        !exact && other * pow2(up) > mant ==> compare_with(x, other, exp + up)
            == Comparison::Less,
{
    let binary = x.binary + x.decimal;
    let scale = if binary < exp {
        binary
    } else {
        exp
    };
    let scaled = other * pow2(up);
    lemma_compare_at(x, mant, exp, scale);
    lemma_compare_at(x, (mant + 1) as nat, exp, scale);
    lemma_compare_at(x, other, exp + up, scale);
    lemma_dyadic_shift(x, other, exp, up, scale);
    lemma_dyadic_monotonic(x, mant, scaled, exp, scale);
    lemma_dyadic_monotonic(x, (mant + 1) as nat, scaled, exp, scale);
}

/// How a number at `mant * 2^(exp + up)`, or just above it, compares with
/// `other * 2^exp`: as `mant * 2^up` compares with `other`, where the
/// number is exact; and else above where `other` is at most `mant * 2^up`,
/// and below where it is at least `(mant + 1) * 2^up`.
pub proof fn lemma_compare_below(x: Number, mant: nat, exp: int, exact: bool, other: nat, up: nat)
    requires
        is_at(x, mant, exp + up, exact),
    ensures
        exact ==> compare_with(x, other, exp) == compare_spec(mant * pow2(up), other),
        !exact && other <= mant * pow2(up) ==> compare_with(x, other, exp) == Comparison::Greater,
        !exact && other >= (mant + 1) * pow2(up) ==> compare_with(x, other, exp)
            == Comparison::Less,
{
    let binary = x.binary + x.decimal;
    let scale = if binary < exp {
        binary
    } else {
        exp
    };
    lemma_compare_at(x, mant, exp + up, scale);
    lemma_compare_at(x, (mant + 1) as nat, exp + up, scale);
    lemma_compare_at(x, other, exp, scale);
    lemma_dyadic_shift(x, mant, exp, up, scale);
    lemma_dyadic_shift(x, (mant + 1) as nat, exp, up, scale);
    lemma_dyadic_monotonic(x, mant * pow2(up), other, exp, scale);
    lemma_dyadic_monotonic(x, (mant + 1) as nat * pow2(up), other, exp, scale);
}

/// Where a number is at `mant * 2^exp` or just above it, and the leading
/// bits of `mant`, above the lowest `shift`, are the significand of a
/// finite float with the exponent `exp + shift`: how the number compares
/// with the halfway points around that float.
///
/// It compares with the point halfway to the next float as the bits
/// dropped compare with half of `2^shift`; it is above the point halfway
/// from the float before, and below the point halfway past the next float.
#[verifier::rlimit(50)]
pub proof fn lemma_halfway_around(
    fmt: Format,
    x: Number,
    mant: nat,
    exp: int,
    exact: bool,
    shift: nat,
)
    requires
        is_at(x, mant, exp, exact),
        2 <= shift,
        is_float_parts(fmt, mant / pow2(shift), exp + shift),
        exp + shift < fmt.max_exponent(),
    ensures
        ({
            let dropped = mant % pow2(shift);
            let half = pow2((shift - 1) as nat);
            let bits = bits_of_parts(fmt, mant / pow2(shift), exp + shift);
            &&& 0 <= bits < fmt.infinity_bits()
            &&& bits % 2 == (mant / pow2(shift)) % 2
            &&& compare_with_halfway(fmt, x, bits as u64) == (if exact {
                compare_spec(dropped, half)
            } else if dropped >= half {
                Comparison::Greater
            } else {
                Comparison::Less
            })
            &&& bits > 0 ==> compare_with_halfway(fmt, x, (bits - 1) as u64) == Comparison::Greater
            &&& bits + 1 < fmt.infinity_bits() ==> compare_with_halfway(fmt, x, (bits + 1) as u64)
                == Comparison::Less
        }),
{
    let whole = pow2(shift);
    let half = pow2((shift - 1) as nat);
    let quarter = pow2((shift - 2) as nat);
    let q = mant / whole;
    let dropped = mant % whole;
    let e = exp + shift;
    let hidden = fmt.hidden_bit_mask() as nat;
    let bits = bits_of_parts(fmt, q, e);
    lemma_pow2_pos(shift);
    lemma_pow2_pos((shift - 2) as nat);
    lemma_pow2_adds((shift - 1) as nat, 1);
    lemma_pow2_adds((shift - 2) as nat, 1);
    vstd::arithmetic::power2::lemma2_to64();
    assert(whole == 2 * half && half == 2 * quarter);
    vstd::arithmetic::div_mod::lemma_fundamental_div_mod(mant as int, whole as int);
    let base = q * whole;
    assert(mant == base + dropped && 0 <= dropped < whole) by (nonlinear_arith)
        requires
            mant == whole * q + dropped,
            base == q * whole,
            0 <= dropped < whole,
    ;
    lemma_bits_of_parts(fmt, q, e);

    // The point halfway to the next float.
    lemma_compare_from(x, mant, exp, exact, 2 * q + 1, (shift - 1) as nat);
    assert((2 * q + 1) * half == base + half) by (nonlinear_arith)
        requires
            base == q * whole,
            whole == 2 * half,
    ;

    // The point halfway from the float before.
    if bits > 0 {
        if q > hidden || (e == fmt.denormal_exponent() && q >= 1) {
            let before = (q - 1) as nat;
            assert(is_float_parts(fmt, before, e));
            lemma_bits_of_parts(fmt, before, e);
            assert(bits_of_parts(fmt, before, e) == bits - 1);
            lemma_compare_from(x, mant, exp, exact, 2 * before + 1, (shift - 1) as nat);
            assert((2 * before + 1) * half == base - half) by (nonlinear_arith)
                requires
                    base == q * whole,
                    whole == 2 * half,
                    before == q - 1,
            ;
        } else {
            let before = (2 * hidden - 1) as nat;
            assert(q == hidden && e > fmt.denormal_exponent());
            assert(is_float_parts(fmt, before, e - 1));
            lemma_bits_of_parts(fmt, before, e - 1);
            assert(bits_of_parts(fmt, before, e - 1) == bits - 1) by {
                match fmt {
                    Format::Binary32 => {},
                    Format::Binary64 => {},
                }
            }
            lemma_compare_from(x, mant, exp, exact, 2 * before + 1, (shift - 2) as nat);
            assert((2 * before + 1) * quarter == base - quarter) by (nonlinear_arith)
                requires
                    base == q * whole,
                    whole == 4 * quarter,
                    before == 2 * q - 1,
            ;
        }
    }
    // The point halfway past the next float.

    if bits + 1 < fmt.infinity_bits() {
        if q + 1 < 2 * hidden {
            let after = q + 1;
            assert(is_float_parts(fmt, after, e));
            lemma_bits_of_parts(fmt, after, e);
            assert(bits_of_parts(fmt, after, e) == bits + 1);
            lemma_compare_from(x, mant, exp, exact, 2 * after + 1, (shift - 1) as nat);
            assert((2 * after + 1) * half == base + whole + half) by (nonlinear_arith)
                requires
                    base == q * whole,
                    whole == 2 * half,
                    after == q + 1,
            ;
        } else {
            let after = hidden;
            assert(q + 1 == 2 * hidden);
            assert(bits_of_parts(fmt, after, e + 1) == bits + 1) by {
                match fmt {
                    Format::Binary32 => {},
                    Format::Binary64 => {},
                }
            }
            assert(is_float_parts(fmt, after, e + 1));
            lemma_bits_of_parts(fmt, after, e + 1);
            lemma_compare_from(x, mant, exp, exact, 2 * after + 1, shift);
            assert((2 * after + 1) * whole == base + 2 * whole) by (nonlinear_arith)
                requires
                    base == q * whole,
                    q + 1 == 2 * after,
            ;
        }
    }
}

/// Whether two numbers compare alike with every `mant * 2^exp`.
pub open spec fn same_number(x: Number, y: Number) -> bool {
    forall|mant: nat, exp: int| compare_with(x, mant, exp) == #[trigger] compare_with(y, mant, exp)
}

/// The float nearest to a number is nearest to every number that compares
/// alike.
pub proof fn lemma_same_number_nearest(fmt: Format, x: Number, y: Number, bits: u64)
    requires
        same_number(x, y),
        is_nearest(fmt, x, bits),
    ensures
        is_nearest(fmt, y, bits),
{
    if bits < fmt.infinity_bits() {
        assert(compare_with_halfway(fmt, x, bits) == compare_with_halfway(fmt, y, bits));
    }
    if bits > 0 {
        assert(compare_with_halfway(fmt, x, (bits - 1) as u64) == compare_with_halfway(
            fmt,
            y,
            (bits - 1) as u64,
        ));
    }
}

/// A power of ten is the product of the powers of five and of two.
pub proof fn lemma_pow10_split(n: nat)
    ensures
        pow(10, n) == pow(5, n) * pow2(n),
        pow(10, n) > 0,
{
    vstd::arithmetic::power::lemma_pow_distributes(5, 2, n);
    lemma_pow_positive(10, n);
    lemma_pow_positive(2, n);
    assert(5 * 2 == 10);
    assert(pow2(n) == pow(2, n));
}

/// Digits times a power of ten, with a decimal exponent that is not
/// negative, are the same number as the digits with the power of ten moved
/// into the decimal exponent.
pub proof fn lemma_move_digits(x: Number, moved: nat)
    requires
        x.decimal >= moved,
    ensures
        same_number(
            Number {
                digits: (x.digits * pow(10, moved)) as nat,
                binary: x.binary,
                decimal: x.decimal - moved,
            },
            x,
        ),
{
    let y = Number {
        digits: (x.digits * pow(10, moved)) as nat,
        binary: x.binary,
        decimal: x.decimal - moved,
    };
    lemma_pow10_split(moved);
    assert forall|mant: nat, exp: int| compare_with(y, mant, exp) == #[trigger] compare_with(
        x,
        mant,
        exp,
    ) by {
        let high = x.binary + x.decimal;
        let scale = if high - moved < exp {
            high - moved
        } else {
            exp
        };
        lemma_compare_at(x, mant, exp, scale);
        lemma_compare_at(y, mant, exp, scale);
        let rest = (x.decimal - moved) as nat;
        vstd::arithmetic::power::lemma_pow_adds(5, moved, rest);
        lemma_pow2_adds(moved, (high - moved - scale) as nat);
        let five_moved = pow(5, moved);
        let five_rest = pow(5, rest);
        let two_moved = pow2(moved);
        let two_rest = pow2((high - moved - scale) as nat);
        assert(positive_part(x.decimal) == moved + rest);
        assert(positive_part(y.decimal) == rest);
        assert((x.digits * (five_moved * two_moved)) * five_rest * two_rest == x.digits * (
        five_moved * five_rest) * (two_moved * two_rest)) by (nonlinear_arith);
    }
}

/// A number compares with `mant * 2^up` at the exponent `exp` as it
/// compares with `mant` at the exponent `exp + up`.
pub proof fn lemma_compare_shift(x: Number, mant: nat, exp: int, up: nat)
    ensures
        compare_with(x, mant * pow2(up), exp) == compare_with(x, mant, exp + up),
{
    let binary = x.binary + x.decimal;
    let scale = if binary < exp {
        binary
    } else {
        exp
    };
    lemma_compare_at(x, mant * pow2(up), exp, scale);
    lemma_compare_at(x, mant, exp + up, scale);
    lemma_dyadic_shift(x, mant, exp, up, scale);
}

/// At one exponent, a number that is below a significand is below every
/// larger one, and a number that is above a significand is above every
/// smaller one.
pub proof fn lemma_compare_monotonic(x: Number, small: nat, large: nat, exp: int)
    requires
        small <= large,
    ensures
        compare_with(x, small, exp) == Comparison::Less ==> compare_with(x, large, exp)
            == Comparison::Less,
        compare_with(x, small, exp) == Comparison::Equal && small < large ==> compare_with(
            x,
            large,
            exp,
        ) == Comparison::Less,
        compare_with(x, large, exp) == Comparison::Greater ==> compare_with(x, small, exp)
            == Comparison::Greater,
        compare_with(x, large, exp) == Comparison::Equal && small < large ==> compare_with(
            x,
            small,
            exp,
        ) == Comparison::Greater,
{
    let binary = x.binary + x.decimal;
    let scale = if binary < exp {
        binary
    } else {
        exp
    };
    lemma_compare_at(x, small, exp, scale);
    lemma_compare_at(x, large, exp, scale);
    lemma_dyadic_monotonic(x, small, large, exp, scale);
}

/// Whether the number `x` lies strictly between `low * 2^exp` and
/// `high * 2^exp`.
pub open spec fn is_within(x: Number, low: int, high: nat, exp: int) -> bool {
    &&& low >= 0 ==> compare_with(x, low as nat, exp) == Comparison::Greater
    &&& compare_with(x, high, exp) == Comparison::Less
}

/// Where the leading bits of a 64-bit significand with the exponent `exp`,
/// above the lowest `shift`, are the significand `kept` of a finite float
/// with the exponent `exp + shift`: the halfway points around that float,
/// as significands with the exponent `exp`.
///
/// The point halfway to the next float is `kept * 2^shift` and half of
/// `2^shift`. The point halfway from the float before is at most a quarter
/// of `2^shift` below `kept * 2^shift`, and the point halfway past the
/// next float at least half of `2^shift` above `(kept + 1) * 2^shift`.
#[verifier::rlimit(50)]
pub proof fn lemma_halfway_positions(fmt: Format, x: Number, kept: nat, exp: int, shift: nat)
    requires
        2 <= shift,
        is_float_parts(fmt, kept, exp + shift),
        exp + shift < fmt.max_exponent(),
    ensures
        ({
            let whole = pow2(shift);
            let half = pow2((shift - 1) as nat);
            let quarter = pow2((shift - 2) as nat);
            let bits = bits_of_parts(fmt, kept, exp + shift);
            &&& whole == 2 * half
            &&& half == 2 * quarter
            &&& quarter > 0
            &&& 0 <= bits < fmt.infinity_bits()
            &&& bits % 2 == kept % 2
            &&& compare_with_halfway(fmt, x, bits as u64) == compare_with(
                x,
                kept * whole + half,
                exp,
            )
            &&& bits > 0 && kept * whole >= quarter && compare_with(
                x,
                (kept * whole - quarter) as nat,
                exp,
            ) == Comparison::Greater ==> compare_with_halfway(fmt, x, (bits - 1) as u64)
                == Comparison::Greater
            &&& bits + 1 < fmt.infinity_bits() && compare_with(
                x,
                kept * whole + whole + half,
                exp,
            ) == Comparison::Less ==> compare_with_halfway(fmt, x, (bits + 1) as u64)
                == Comparison::Less
        }),
{
    let whole = pow2(shift);
    let half = pow2((shift - 1) as nat);
    let quarter = pow2((shift - 2) as nat);
    let q = kept;
    let e = exp + shift;
    let hidden = fmt.hidden_bit_mask() as nat;
    let bits = bits_of_parts(fmt, q, e);
    lemma_pow2_pos(shift);
    lemma_pow2_pos((shift - 2) as nat);
    lemma_pow2_adds((shift - 1) as nat, 1);
    lemma_pow2_adds((shift - 2) as nat, 1);
    vstd::arithmetic::power2::lemma2_to64();
    assert(whole == 2 * half && half == 2 * quarter);
    let base = q * whole;
    assert(base >= 0) by (nonlinear_arith)
        requires
            base == q * whole,
            q >= 0,
            whole >= 0,
    ;
    lemma_bits_of_parts(fmt, q, e);

    // The point halfway to the next float.
    lemma_compare_shift(x, 2 * q + 1, exp, (shift - 1) as nat);
    assert((2 * q + 1) * half == base + half) by (nonlinear_arith)
        requires
            base == q * whole,
            whole == 2 * half,
    ;

    // The point halfway from the float before.
    if bits > 0 && base >= quarter {
        if q > hidden || (e == fmt.denormal_exponent() && q >= 1) {
            let before = (q - 1) as nat;
            assert(is_float_parts(fmt, before, e));
            lemma_bits_of_parts(fmt, before, e);
            assert(bits_of_parts(fmt, before, e) == bits - 1);
            lemma_compare_shift(x, 2 * before + 1, exp, (shift - 1) as nat);
            assert((2 * before + 1) * half == base - half) by (nonlinear_arith)
                requires
                    base == q * whole,
                    whole == 2 * half,
                    before == q - 1,
            ;
            lemma_compare_monotonic(x, (base - half) as nat, (base - quarter) as nat, exp);
        } else {
            let before = (2 * hidden - 1) as nat;
            assert(q == hidden && e > fmt.denormal_exponent());
            assert(is_float_parts(fmt, before, e - 1));
            lemma_bits_of_parts(fmt, before, e - 1);
            assert(bits_of_parts(fmt, before, e - 1) == bits - 1) by {
                match fmt {
                    Format::Binary32 => {},
                    Format::Binary64 => {},
                }
            }
            lemma_compare_shift(x, 2 * before + 1, exp, (shift - 2) as nat);
            assert((2 * before + 1) * quarter == base - quarter) by (nonlinear_arith)
                requires
                    base == q * whole,
                    whole == 4 * quarter,
                    before == 2 * q - 1,
            ;
        }
    }
    // The point halfway past the next float.

    if bits + 1 < fmt.infinity_bits() {
        if q + 1 < 2 * hidden {
            let after = q + 1;
            assert(is_float_parts(fmt, after, e));
            lemma_bits_of_parts(fmt, after, e);
            assert(bits_of_parts(fmt, after, e) == bits + 1);
            lemma_compare_shift(x, 2 * after + 1, exp, (shift - 1) as nat);
            assert((2 * after + 1) * half == base + whole + half) by (nonlinear_arith)
                requires
                    base == q * whole,
                    whole == 2 * half,
                    after == q + 1,
            ;
        } else {
            let after = hidden;
            assert(q + 1 == 2 * hidden);
            assert(bits_of_parts(fmt, after, e + 1) == bits + 1) by {
                match fmt {
                    Format::Binary32 => {},
                    Format::Binary64 => {},
                }
            }
            assert(is_float_parts(fmt, after, e + 1));
            lemma_bits_of_parts(fmt, after, e + 1);
            lemma_compare_shift(x, 2 * after + 1, exp, shift);
            assert((2 * after + 1) * whole == base + 2 * whole) by (nonlinear_arith)
                requires
                    base == q * whole,
                    q + 1 == 2 * after,
            ;
            lemma_compare_monotonic(x, base + whole + half, base + 2 * whole, exp);
        }
    }
}

/// A number compares with `mant * 2^exp` as the two compare in units of
/// any power of two at or below both binary exponents, with both sides
/// multiplied by one more power of five.
#[verifier::rlimit(50)]
pub proof fn lemma_compare_at_five(x: Number, mant: nat, exp: int, scale: int, more: nat)
    requires
        scale <= x.binary + x.decimal,
        scale <= exp,
    ensures
        compare_with(x, mant, exp) == compare_spec(
            (x.digits * pow(5, positive_part(x.decimal) + more) * pow2(
                (x.binary + x.decimal - scale) as nat,
            )) as nat,
            (mant * pow(5, positive_part(-x.decimal) + more) * pow2((exp - scale) as nat)) as nat,
        ),
{
    lemma_compare_at(x, mant, exp, scale);
    let left_five = pow(5, positive_part(x.decimal));
    let right_five = pow(5, positive_part(-x.decimal));
    let extra = pow(5, more);
    let left_two = pow2((x.binary + x.decimal - scale) as nat);
    let right_two = pow2((exp - scale) as nat);
    lemma_pow_positive(5, positive_part(x.decimal));
    lemma_pow_positive(5, positive_part(-x.decimal));
    lemma_pow_positive(5, more);
    vstd::arithmetic::power::lemma_pow_adds(5, positive_part(x.decimal), more);
    vstd::arithmetic::power::lemma_pow_adds(5, positive_part(-x.decimal), more);
    let a = number_at(x, scale);
    let b = dyadic_at(x, mant, exp, scale);
    assert(x.digits * (left_five * extra) * left_two == (x.digits * left_five * left_two)
        * extra) by (nonlinear_arith);
    assert(mant * (right_five * extra) * right_two == (mant * right_five * right_two) * extra)
        by (nonlinear_arith);
    assert(x.digits * left_five * left_two >= 0 && mant * right_five * right_two >= 0)
        by (nonlinear_arith)
        requires
            left_five > 0,
            right_five > 0,
            left_two >= 0,
            right_two >= 0,
            x.digits >= 0,
            mant >= 0,
    ;
    lemma_compare_scaled(a, b, extra as nat);
}

/// Digits times a power of ten are the same number as the digits with the
/// power of ten moved into the decimal exponent, whatever its sign.
#[verifier::rlimit(50)]
pub proof fn lemma_move_digits_any(x: Number, moved: nat, mant: nat, exp: int)
    ensures
        compare_with(
            Number {
                digits: (x.digits * pow(10, moved)) as nat,
                binary: x.binary,
                decimal: x.decimal - moved,
            },
            mant,
            exp,
        ) == compare_with(x, mant, exp),
{
    let y = Number {
        digits: (x.digits * pow(10, moved)) as nat,
        binary: x.binary,
        decimal: x.decimal - moved,
    };
    lemma_pow10_split(moved);
    let high = x.binary + x.decimal;
    let scale = if high - moved < exp {
        high - moved
    } else {
        exp
    };
    // The power of five on the right of `y` is at least that of `x`.
    let more = (positive_part(-y.decimal) - positive_part(-x.decimal)) as nat;
    lemma_compare_at_five(x, mant, exp, scale, more);
    lemma_compare_at_five(y, mant, exp, scale, 0);
    assert(positive_part(x.decimal) + more == moved + positive_part(y.decimal));
    vstd::arithmetic::power::lemma_pow_adds(5, moved, positive_part(y.decimal));
    lemma_pow2_adds(moved, (high - moved - scale) as nat);
    let five_moved = pow(5, moved);
    let five_rest = pow(5, positive_part(y.decimal));
    let two_moved = pow2(moved);
    let two_rest = pow2((high - moved - scale) as nat);
    assert((x.digits * (five_moved * two_moved)) * five_rest * two_rest == x.digits * (five_moved
        * five_rest) * (two_moved * two_rest)) by (nonlinear_arith);
}

/// Of two numbers with the same exponents, the one with more digits is the
/// larger.
pub proof fn lemma_digits_monotonic(x: Number, y: Number, mant: nat, exp: int)
    requires
        x.binary == y.binary,
        x.decimal == y.decimal,
        x.digits <= y.digits,
    ensures
        compare_with(y, mant, exp) == Comparison::Less ==> compare_with(x, mant, exp)
            == Comparison::Less,
        compare_with(x, mant, exp) == Comparison::Greater ==> compare_with(y, mant, exp)
            == Comparison::Greater,
        x.digits < y.digits && compare_with(y, mant, exp) == Comparison::Equal ==> compare_with(
            x,
            mant,
            exp,
        ) == Comparison::Less,
        x.digits < y.digits && compare_with(x, mant, exp) == Comparison::Equal ==> compare_with(
            y,
            mant,
            exp,
        ) == Comparison::Greater,
        x.digits == y.digits ==> compare_with(x, mant, exp) == compare_with(y, mant, exp),
{
    let c = pow(5, positive_part(x.decimal)) * pow2(positive_part(x.binary + x.decimal - exp));
    lemma_pow_positive(5, positive_part(x.decimal));
    lemma_pow2_pos(positive_part(x.binary + x.decimal - exp));
    let five = pow(5, positive_part(x.decimal));
    let two = pow2(positive_part(x.binary + x.decimal - exp));
    assert(c > 0) by (nonlinear_arith)
        requires
            c == five * two,
            five > 0,
            two > 0,
    ;
    assert(x.digits * five * two == x.digits * c && y.digits * five * two == y.digits * c)
        by (nonlinear_arith)
        requires
            c == five * two,
    ;
    assert(x.digits <= y.digits ==> x.digits * c <= y.digits * c) by (nonlinear_arith)
        requires
            c > 0,
    ;
    assert(x.digits < y.digits ==> x.digits * c < y.digits * c) by (nonlinear_arith)
        requires
            c > 0,
    ;
}

/// Whether the digits of the number `x`, which has no binary exponent, are
/// those of `mant` at the decimal exponent `exp`, followed by digits that
/// are all zero, where `exact`, and by any digits, where not: `x` is
/// `mant * 10^exp`, or at least that and below `(mant + 1) * 10^exp`.
pub open spec fn holds_digits(x: Number, mant: nat, exp: int, exact: bool) -> bool {
    let rest = pow(10, (exp - x.decimal) as nat);
    &&& x.binary == 0
    &&& x.decimal <= exp
    &&& mant * rest <= x.digits
    &&& x.digits < (mant + 1) * rest
    &&& exact ==> x.digits == mant * rest
}

/// How a number that holds the digits of `mant` at the decimal exponent
/// `exp` compares, from how `mant * 10^exp` and `(mant + 1) * 10^exp` do.
#[verifier::rlimit(50)]
pub proof fn lemma_holds_digits(
    x: Number,
    mant: nat,
    exp: int,
    exact: bool,
    other: nat,
    binary: int,
)
    requires
        holds_digits(x, mant, exp, exact),
    ensures
        ({
            let low = Number { digits: mant, binary: 0, decimal: exp };
            let high = Number { digits: mant + 1, binary: 0, decimal: exp };
            &&& compare_with(low, other, binary) != Comparison::Less ==> compare_with(
                x,
                other,
                binary,
            ) != Comparison::Less
            &&& compare_with(low, other, binary) == Comparison::Greater ==> compare_with(
                x,
                other,
                binary,
            ) == Comparison::Greater
            &&& compare_with(high, other, binary) != Comparison::Greater ==> compare_with(
                x,
                other,
                binary,
            ) == Comparison::Less
            &&& exact ==> compare_with(x, other, binary) == compare_with(low, other, binary)
            &&& x.digits > mant * pow(10, (exp - x.decimal) as nat) && compare_with(
                low,
                other,
                binary,
            ) != Comparison::Less ==> compare_with(x, other, binary) == Comparison::Greater
        }),
{
    let moved = (exp - x.decimal) as nat;
    let low = Number { digits: mant, binary: 0, decimal: exp };
    let high = Number { digits: mant + 1, binary: 0, decimal: exp };
    let low_moved = Number { digits: (mant * pow(10, moved)) as nat, binary: 0, decimal: x.decimal };
    let high_moved = Number {
        digits: ((mant + 1) * pow(10, moved)) as nat,
        binary: 0,
        decimal: x.decimal,
    };
    lemma_move_digits_any(low, moved, other, binary);
    lemma_move_digits_any(high, moved, other, binary);
    lemma_pow_positive(10, moved);
    lemma_digits_monotonic(low_moved, x, other, binary);
    lemma_digits_monotonic(x, high_moved, other, binary);
}

/// A number above the point halfway from the float before `b`, and below
/// the point halfway past the float after `b`, has `b` or the float after
/// it as its nearest float: the one that the comparison with the point
/// halfway between the two chooses.
pub proof fn lemma_candidates(fmt: Format, x: Number, b: u64)
    requires
        b < fmt.infinity_bits(),
        b > 0 ==> compare_with_halfway(fmt, x, (b - 1) as u64) == Comparison::Greater,
        b + 1 < fmt.infinity_bits() ==> compare_with_halfway(fmt, x, (b + 1) as u64)
            == Comparison::Less,
    ensures
        is_nearest(fmt, x, choose_nearest(fmt, x, b)),
        is_nearest(fmt, x, b) || is_nearest(fmt, x, (b + 1) as u64),
{
}

/// Whether a float and the claim that it is proved are right for the
/// number `x`: a float that is proved, or infinite, is the float nearest to
/// `x`; a float that is not proved is the nearest or the one before it.
pub open spec fn is_sound_estimate(fmt: Format, x: Number, bits: u64, valid: bool) -> bool {
    &&& bits <= fmt.infinity_bits()
    &&& valid || bits == fmt.infinity_bits() ==> is_nearest(fmt, x, bits)
    &&& !valid && bits < fmt.infinity_bits() ==> is_nearest(fmt, x, bits) || is_nearest(
        fmt,
        x,
        (bits + 1) as u64,
    )
}

/// The float nearest to `mant * 10^exp` is nearest to every number that
/// holds just the digits of `mant` at that exponent.
pub proof fn lemma_nearest_exact(fmt: Format, x: Number, mant: nat, exp: int, bits: u64)
    requires
        holds_digits(x, mant, exp, true),
        is_nearest(fmt, Number { digits: mant, binary: 0, decimal: exp }, bits),
    ensures
        is_nearest(fmt, x, bits),
{
    if bits < fmt.infinity_bits() {
        lemma_holds_digits(
            x,
            mant,
            exp,
            true,
            2 * float_mantissa(fmt, bits) + 1,
            float_exponent(fmt, bits) - 1,
        );
    }
    if bits > 0 {
        let before = (bits - 1) as u64;
        lemma_holds_digits(
            x,
            mant,
            exp,
            true,
            2 * float_mantissa(fmt, before) + 1,
            float_exponent(fmt, before) - 1,
        );
    }
}

/// A float that is nearest both to `mant * 10^exp` and to
/// `(mant + 1) * 10^exp` is nearest to every number that holds the digits
/// of `mant` at that exponent, whatever digits follow.
pub proof fn lemma_nearest_between(fmt: Format, x: Number, mant: nat, exp: int, bits: u64)
    requires
        holds_digits(x, mant, exp, false),
        is_nearest(fmt, Number { digits: mant, binary: 0, decimal: exp }, bits),
        is_nearest(fmt, Number { digits: mant + 1, binary: 0, decimal: exp }, bits),
    ensures
        is_nearest(fmt, x, bits),
{
    if bits < fmt.infinity_bits() {
        lemma_holds_digits(
            x,
            mant,
            exp,
            false,
            2 * float_mantissa(fmt, bits) + 1,
            float_exponent(fmt, bits) - 1,
        );
    }
    if bits > 0 {
        let before = (bits - 1) as u64;
        lemma_holds_digits(
            x,
            mant,
            exp,
            false,
            2 * float_mantissa(fmt, before) + 1,
            float_exponent(fmt, before) - 1,
        );
    }
}

/// The points halfway between floats grow with the floats: a number at or
/// above the point halfway past a float is above the point halfway past
/// every float before it.
#[verifier::rlimit(50)]
pub proof fn lemma_halfway_monotonic(fmt: Format, x: Number, small: u64, large: u64)
    requires
        small < large < fmt.infinity_bits(),
        compare_with_halfway(fmt, x, large) != Comparison::Less,
    ensures
        compare_with_halfway(fmt, x, small) == Comparison::Greater,
{
    lemma_parts_of_bits(fmt, small);
    lemma_parts_of_bits(fmt, large);
    let hidden = fmt.hidden_bit_mask() as nat;
    let m1 = float_mantissa(fmt, small);
    let e1 = float_exponent(fmt, small);
    let m2 = float_mantissa(fmt, large);
    let e2 = float_exponent(fmt, large);
    assert(small == bits_of_parts(fmt, m1, e1) && large == bits_of_parts(fmt, m2, e2));
    assert(e1 <= e2 && (e1 == e2 ==> m1 < m2)) by {
        let h = fmt.hidden_bit_mask() as int;
        let d = fmt.denormal_exponent();
        assert((e1 - d) * h + m1 < (e2 - d) * h + m2);
        if e1 > e2 {
            assert((e1 - d) * h >= (e2 - d) * h + h) by (nonlinear_arith)
                requires
                    e1 >= e2 + 1,
                    h > 0,
            ;
        }
    }
    let up = (e2 - e1) as nat;
    lemma_compare_shift(x, 2 * m2 + 1, e1 - 1, up);
    lemma_pow2_pos(up);
    let scale = pow2(up);
    if up == 0 {
        vstd::arithmetic::power2::lemma2_to64();
        assert((2 * m2 + 1) * scale == 2 * m2 + 1) by (nonlinear_arith)
            requires
                scale == 1,
        ;
    } else {
        crate::bits::lemma_pow2_monotonic(1, up);
        vstd::arithmetic::power2::lemma2_to64();
        assert(2 * m1 + 1 < (2 * m2 + 1) * scale) by (nonlinear_arith)
            requires
                m1 < 2 * hidden,
                m2 >= hidden,
                scale >= 2,
        ;
    }
    lemma_compare_monotonic(x, 2 * m1 + 1, (2 * m2 + 1) * scale, e1 - 1);
}

/// A number has one nearest float at most.
pub proof fn lemma_nearest_unique(fmt: Format, x: Number, a: u64, b: u64)
    requires
        is_nearest(fmt, x, a),
        is_nearest(fmt, x, b),
    ensures
        a == b,
{
    if a < b {
        if a < b - 1 {
            lemma_halfway_monotonic(fmt, x, a, (b - 1) as u64);
        }
    } else if b < a {
        if b < a - 1 {
            lemma_halfway_monotonic(fmt, x, b, (a - 1) as u64);
        }
    }
}

/// The nearest float does not decrease when digits are appended to a
/// number: of a number without a binary exponent, and a number that holds
/// its digits and more.
#[verifier::rlimit(50)]
pub proof fn lemma_nearest_monotonic(fmt: Format, x: Number, more: Number, a: u64, b: u64)
    requires
        x.binary == 0,
        holds_digits(more, x.digits, x.decimal, false),
        is_nearest(fmt, x, a),
        is_nearest(fmt, more, b),
    ensures
        a <= b,
{
    if b < a {
        let before = (a - 1) as u64;
        // `x` is at or above the point halfway from the float before `a`,
        // and so is `more`.
        lemma_holds_digits(
            more,
            x.digits,
            x.decimal,
            false,
            2 * float_mantissa(fmt, before) + 1,
            float_exponent(fmt, before) - 1,
        );
        if b < before {
            lemma_halfway_monotonic(fmt, more, b, before);
        } else {
            // A tie for both: the number is the point halfway between `b`
            // and `a`, and both would be even.
            assert(compare_with_halfway(fmt, more, b) == Comparison::Equal);
            assert(compare_with_halfway(fmt, x, before) == Comparison::Equal);
        }
    }
}

} // verus!
