//! Where a significand times a power of ten lies, by the table of powers
//! of ten: between the product with the entry of the table and the product
//! with the entry plus one.

use vstd::prelude::*;
use vstd::arithmetic::power::{lemma_pow_positive, pow};
use vstd::arithmetic::power2::{lemma2_to64, lemma_pow2_pos, pow2};
use crate::bignum::Comparison;
use crate::nearest::{
    compare_with,
    lemma_compare_monotonic,
    lemma_compare_shift,
    positive_part,
    Number,
};
use crate::powers::{
    power_floor,
    power_of_10,
    power_of_10_exponent,
    MAX_NORMAL_EXP10,
    MIN_DENORMAL_EXP10,
};
use crate::powers_proof::lemma_power_is_floor;

verus! {

/// The 128 bits of the entry of the table for `exponent`, as a number.
pub open spec fn power_of_10_value(exponent: int) -> nat {
    (power_of_10(exponent).0 * 0x1_0000_0000_0000_0000 + power_of_10(exponent).1) as nat
}

/// `n * 10^exponent` is at least `n` times the 128 bits of the table, and
/// below `n` times the 128 bits plus one, at the binary exponent of their
/// lowest bit.
#[verifier::rlimit(50)]
pub proof fn lemma_power_position(n: nat, exponent: int)
    requires
        MIN_DENORMAL_EXP10 <= exponent <= MAX_NORMAL_EXP10,
        n > 0,
    ensures
        ({
            let y = Number { digits: n, binary: 0, decimal: exponent };
            let t = power_of_10_value(exponent);
            let low = power_of_10_exponent(exponent) - 64;
            &&& compare_with(y, n * t, low) != Comparison::Less
            &&& compare_with(y, n * t + n, low) == Comparison::Less
            &&& power_of_10(exponent).0 >= 0x8000_0000_0000_0000
        }),
{
    lemma_power_is_floor(exponent);
    reveal(power_floor);
    lemma2_to64();
    crate::small_powers::lemma_pow_step(5, 0);
    let t = power_of_10_value(exponent);
    let shift = exponent - power_of_10_exponent(exponent) + 64;
    let low = power_of_10_exponent(exponent) - 64;
    assert(exponent - low == shift);
    let five = pow(5, positive_part(exponent));
    let five_inverse = pow(5, positive_part(-exponent));
    let two = pow2(positive_part(shift));
    let two_inverse = pow2(positive_part(-shift));
    lemma_pow_positive(5, positive_part(exponent));
    lemma_pow_positive(5, positive_part(-exponent));
    lemma_pow2_pos(positive_part(shift));
    lemma_pow2_pos(positive_part(-shift));
    // t * five_inverse * two_inverse <= five * two < (t + 1) * five_inverse * two_inverse
    assert(t * five_inverse * two_inverse <= five * two && five * two < (t + 1) * five_inverse
        * two_inverse) by (nonlinear_arith)
        requires
            exponent >= 0 && shift >= 0 ==> five_inverse == 1 && two_inverse == 1 && t == five
                * two,
            exponent >= 0 && shift < 0 ==> five_inverse == 1 && two == 1 && t * two_inverse
                <= five && five < (t + 1) * two_inverse,
            exponent < 0 ==> five == 1 && two_inverse == 1 && t * five_inverse <= two && two < (t
                + 1) * five_inverse,
            exponent >= 0 || exponent < 0,
            shift >= 0 || shift < 0,
    ;
    let left = five * two;
    let unit = five_inverse * two_inverse;
    assert(n * five * two == n * left && (n * t) * five_inverse * two_inverse == n * (t * unit)
        && (n * t + n) * five_inverse * two_inverse == n * ((t + 1) * unit) && t * five_inverse
        * two_inverse == t * unit && (t + 1) * five_inverse * two_inverse == (t + 1) * unit)
        by (nonlinear_arith)
        requires
            left == five * two,
            unit == five_inverse * two_inverse,
    ;
    assert(n * (t * unit) <= n * left && n * left < n * ((t + 1) * unit)) by (nonlinear_arith)
        requires
            t * unit <= left,
            left < (t + 1) * unit,
            n > 0,
    ;
}

/// `n * 10^exponent` is at least `n` times the high word of the table, and
/// below `n` times the high word plus one, at the binary exponent of the
/// high word.
#[verifier::rlimit(50)]
pub proof fn lemma_power_position_high(n: nat, exponent: int)
    requires
        MIN_DENORMAL_EXP10 <= exponent <= MAX_NORMAL_EXP10,
        n > 0,
    ensures
        ({
            let y = Number { digits: n, binary: 0, decimal: exponent };
            let high = power_of_10(exponent).0 as nat;
            let binary = power_of_10_exponent(exponent);
            &&& compare_with(y, n * high, binary) != Comparison::Less
            &&& compare_with(y, n * high + n, binary) == Comparison::Less
            &&& high >= 0x8000_0000_0000_0000
        }),
{
    lemma_power_position(n, exponent);
    lemma2_to64();
    let y = Number { digits: n, binary: 0, decimal: exponent };
    let t = power_of_10_value(exponent);
    let high = power_of_10(exponent).0 as nat;
    let low = power_of_10(exponent).1 as nat;
    let binary = power_of_10_exponent(exponent);
    let word = pow2(64);
    assert((n * high) * word <= n * t && n * t + n <= (n * high + n) * word) by (nonlinear_arith)
        requires
            t == high * 0x1_0000_0000_0000_0000 + low,
            low < 0x1_0000_0000_0000_0000,
            word == 0x1_0000_0000_0000_0000,
    ;
    lemma_compare_monotonic(y, (n * high) * word, n * t, binary - 64);
    lemma_compare_monotonic(y, n * t + n, (n * high + n) * word, binary - 64);
    lemma_compare_shift(y, n * high, binary - 64, 64);
    lemma_compare_shift(y, n * high + n, binary - 64, 64);
}

} // verus!
