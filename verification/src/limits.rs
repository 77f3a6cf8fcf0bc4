//! Numbers beyond the table of powers of ten: with a decimal exponent
//! below the table, a 64-bit significand is below half of the smallest
//! float; with one above it, a significand that is not zero is above every
//! finite float.

use vstd::prelude::*;
use vstd::arithmetic::power::{lemma_pow_increases, pow};
use vstd::arithmetic::power2::{
    lemma2_to64,
    lemma2_to64_rest,
    lemma_pow2_adds,
    lemma_pow2_pos,
    pow2,
};
use crate::bignum::Comparison;
use crate::bits::lemma_pow2_monotonic;
use crate::nearest::{
    compare_with,
    holds_digits,
    is_nearest,
    lemma_holds_digits,
    positive_part,
    Number,
};
use crate::num::{bits_of_parts, is_float_parts, lemma_bits_of_parts, Format};
use crate::powers::{MAX_NORMAL_EXP10, MIN_DENORMAL_EXP10};
use crate::powers_proof::{lemma_pow2_chunk_11, lemma_pow2_chunk_12, lemma_pow5_309, lemma_pow5_342};
use crate::small_powers::lemma_pow_step;

verus! {

/// `5^343` is at least `2^796`, and `5^309` at least `2^717`.
pub proof fn lemma_pow5_bounds()
    ensures
        pow(5, 343) >= pow2(796),
        pow(5, 309) >= pow2(717),
{
    lemma_pow5_342();
    lemma_pow_step(5, 342);
    lemma_pow5_309();
    lemma_pow2_chunk_12();
    lemma_pow2_chunk_11();
    lemma2_to64();
    lemma_pow2_adds(768, 28);
    lemma_pow2_adds(704, 13);
}

/// A number that holds the digits of a 64-bit significand at a decimal
/// exponent below the table is nearest to zero.
#[verifier::rlimit(50)]
pub proof fn lemma_below_table(fmt: Format, x: Number, mant: u64, exp: int, exact: bool)
    requires
        exp < MIN_DENORMAL_EXP10,
        holds_digits(x, mant as nat, exp, exact),
    ensures
        is_nearest(fmt, x, 0),
{
    lemma2_to64();
    lemma2_to64_rest();
    lemma_pow5_bounds();
    lemma_bits_of_parts(fmt, 0, fmt.denormal_exponent());
    let below = fmt.denormal_exponent() - 1;
    let high = Number { digits: mant as nat + 1, binary: 0, decimal: exp };
    let n = (-exp) as nat;
    lemma_pow_increases(5, 343, n);
    lemma_pow_step(5, 0);
    let five = pow(5, n);
    let left_two = pow2(positive_part(exp - below));
    let right_two = pow2(positive_part(below - exp));
    lemma_pow2_pos(positive_part(below - exp));
    if exp - below > 0 {
        lemma_pow2_monotonic(positive_part(exp - below), 732);
        lemma_pow2_adds(64, 732);
    }
    let bound = pow2(796);
    lemma_pow2_pos(732);
    lemma_pow2_monotonic(64, 796);
    assert((mant as nat + 1) * 1 * left_two <= 1 * five * right_two) by (nonlinear_arith)
        requires
            mant < 0x1_0000_0000_0000_0000,
            exp - below > 0 ==> left_two <= pow2(732) && bound == 0x1_0000_0000_0000_0000 * pow2(
                732,
            ),
            exp - below <= 0 ==> left_two == 1,
            right_two >= 1,
            five >= bound,
            bound >= 0x1_0000_0000_0000_0000,
            pow2(732) > 0,
    ;
    assert(compare_with(high, 1, below) != Comparison::Greater);
    lemma_holds_digits(x, mant as nat, exp, exact, 1, below);
}

/// A number that holds the digits of a significand that is not zero at a
/// decimal exponent above the table is nearest to infinity.
#[verifier::rlimit(50)]
pub proof fn lemma_above_table(fmt: Format, x: Number, mant: u64, exp: int, exact: bool)
    requires
        exp > MAX_NORMAL_EXP10,
        mant != 0,
        holds_digits(x, mant as nat, exp, exact),
    ensures
        is_nearest(fmt, x, fmt.infinity_bits()),
{
    lemma2_to64();
    lemma2_to64_rest();
    fmt.lemma_masks();
    lemma_pow5_bounds();
    let hidden = fmt.hidden_bit_mask() as nat;
    let last = (2 * hidden - 1) as nat;
    let top = fmt.max_exponent() - 1;
    assert(is_float_parts(fmt, last, top));
    lemma_bits_of_parts(fmt, last, top);
    assert(bits_of_parts(fmt, last, top) == fmt.infinity_bits() - 1) by {
        match fmt {
            Format::Binary32 => {},
            Format::Binary64 => {},
        }
    }
    let low = Number { digits: mant as nat, binary: 0, decimal: exp };
    let n = exp as nat;
    lemma_pow_increases(5, 309, n);
    lemma_pow_step(5, 0);
    let five = pow(5, n);
    let halfway = 2 * last + 1;
    let at = top - 1;
    let left_two = pow2(positive_part(exp - at));
    let right_two = pow2(positive_part(at - exp));
    lemma_pow2_pos(positive_part(exp - at));
    if at - exp > 0 {
        lemma_pow2_monotonic(positive_part(at - exp), 661);
        lemma_pow2_adds(56, 661);
    }
    let bound = pow2(717);
    lemma_pow2_pos(661);
    lemma_pow2_monotonic(56, 717);
    assert((mant as nat) * five * left_two > halfway * 1 * right_two) by (nonlinear_arith)
        requires
            mant >= 1,
            halfway < 0x100_0000_0000_0000,
            at - exp > 0 ==> right_two <= pow2(661) && bound == 0x100_0000_0000_0000 * pow2(661),
            at - exp <= 0 ==> right_two == 1,
            left_two >= 1,
            five >= bound,
            bound >= 0x100_0000_0000_0000,
            pow2(661) > 0,
    ;
    assert(compare_with(low, halfway, at) == Comparison::Greater);
    lemma_holds_digits(x, mant as nat, exp, exact, halfway, at);
}

} // verus!
