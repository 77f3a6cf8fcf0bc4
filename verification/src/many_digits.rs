//! Why the slow path need not read all the digits: a decimal number with
//! more significant digits than it reads cannot be told from its first
//! digits and a digit that stands for the rest, by any point halfway
//! between two floats.
//!
//! A point halfway between two floats has few decimal digits for its
//! size. Between two numbers that differ by one in a digit beyond them
//! there is no such point.

use vstd::prelude::*;
use vstd::arithmetic::power::{lemma_pow_adds, lemma_pow_increases, lemma_pow_positive, pow};
use vstd::arithmetic::power2::{
    lemma2_to64,
    lemma2_to64_rest,
    lemma_pow2_adds,
    lemma_pow2_pos,
    pow2,
};
use crate::bignum::Comparison;
use crate::bits::lemma_pow2_monotonic;
use crate::nearest::{compare_with, lemma_pow10_split, positive_part, Number};
use crate::num::Format;
use crate::powers_proof::{lemma_pow2_chunk_11, lemma_pow5_307, lemma_pow5_37};
use crate::small_powers::lemma_pow_step;

verus! {

/// The number of digits of the number that the slow path reads before the
/// digit that stands for the rest, less one: that number is at least ten to
/// this power.
pub open spec fn digits_floor(fmt: Format) -> nat {
    (fmt.max_digits() - 2) as nat
}

/// The most by which the decimal digits of a point halfway between two
/// floats can go beyond [`digits_floor`], and a power of two that the
/// power of five of it stays below.
pub open spec fn excess(fmt: Format) -> (nat, nat) {
    match fmt {
        Format::Binary32 => (37, 86),
        Format::Binary64 => (307, 714),
    }
}

/// The powers that bound the halfway points: the power of five of the
/// excess is below its power of two, which with the bits of a halfway point
/// stays within the powers of two of the digits read; and the digits read
/// are beyond every finite float.
#[verifier::rlimit(50)]
proof fn lemma_excess(fmt: Format)
    ensures
        pow(5, excess(fmt).0) <= pow2(excess(fmt).1),
        4 * fmt.hidden_bit_mask() * pow2(excess(fmt).1) <= 2 * pow2(digits_floor(fmt)),
        excess(fmt).0 + digits_floor(fmt) + 1 == 1 - fmt.denormal_exponent(),
        pow(10, digits_floor(fmt)) >= 4 * fmt.hidden_bit_mask() * pow2(
            (fmt.max_exponent() - 2) as nat,
        ),
        pow(5, digits_floor(fmt)) >= 1,
{
    lemma2_to64();
    lemma2_to64_rest();
    lemma_pow_step(5, 0);
    lemma_pow_positive(5, digits_floor(fmt));
    lemma_pow10_split(digits_floor(fmt));
    match fmt {
        Format::Binary32 => {
            lemma_pow5_37();
            lemma_pow2_adds(64, 22);
            lemma_pow2_adds(25, 86);
            lemma_pow2_monotonic(111, 113);
            lemma_pow2_adds(112, 1);
            // 10^112 >= 2^112 * 5^7 >= 2^128
            lemma_pow_increases(5, 7, 112);
            lemma_pow_step(5, 1);
            lemma_pow_step(5, 2);
            lemma_pow_step(5, 3);
            lemma_pow_step(5, 4);
            lemma_pow_step(5, 5);
            lemma_pow_step(5, 6);
            lemma_pow2_adds(112, 16);
            lemma_pow2_adds(25, 103);
            let five = pow(5, 112);
            let two = pow2(112);
            assert(five * two >= 0x2000000 * pow2(103)) by (nonlinear_arith)
                requires
                    five >= 0x10000,
                    pow2(128) == two * 0x10000,
                    pow2(128) == 0x2000000 * pow2(103),
            ;
        },
        Format::Binary64 => {
            lemma_pow5_307();
            lemma_pow2_chunk_11();
            lemma_pow2_adds(704, 10);
            lemma_pow2_adds(54, 714);
            lemma_pow2_adds(767, 1);
            // 10^767 >= 2^767 * 5^343 >= 2^767 * 2^796
            crate::limits::lemma_pow5_bounds();
            lemma_pow_increases(5, 343, 767);
            lemma_pow2_adds(54, 970);
            lemma_pow2_monotonic(1024, 1563);
            lemma_pow2_adds(767, 796);
            let five = pow(5, 767);
            let two = pow2(767);
            assert(five * two >= 0x40_0000_0000_0000 * pow2(970)) by (nonlinear_arith)
                requires
                    five >= pow2(796),
                    pow2(1563) == two * pow2(796),
                    pow2(1024) == 0x40_0000_0000_0000 * pow2(970),
                    pow2(1024) <= pow2(1563),
                    two >= 0,
            ;
        },
    }
}

/// A point halfway between two floats is not strictly between two numbers
/// that are one apart in a digit beyond the digits of any such point: not
/// between `digits * 10^exp` and `(digits + 1) * 10^exp`, where `digits`
/// has as many digits as the slow path reads before the one that stands
/// for the rest.
#[verifier::rlimit(50)]
pub proof fn lemma_halfway_outside(fmt: Format, digits: nat, exp: int, mant: nat, binary: int)
    requires
        digits >= pow(10, digits_floor(fmt)),
        mant < 4 * fmt.hidden_bit_mask(),
        fmt.denormal_exponent() - 1 <= binary <= fmt.max_exponent() - 2,
    ensures
        !(compare_with(Number { digits, binary: 0, decimal: exp }, mant, binary)
            == Comparison::Less && compare_with(
            Number { digits: digits + 1, binary: 0, decimal: exp },
            mant,
            binary,
        ) == Comparison::Greater),
{
    lemma_excess(fmt);
    lemma2_to64();
    lemma_pow_step(5, 0);
    fmt.lemma_masks();
    let hidden = fmt.hidden_bit_mask() as nat;
    let floor = digits_floor(fmt);
    let five_left = pow(5, positive_part(exp));
    let two_left = pow2(positive_part(exp - binary));
    let five_right = pow(5, positive_part(-exp));
    let two_right = pow2(positive_part(binary - exp));
    lemma_pow_positive(5, positive_part(exp));
    lemma_pow_positive(5, positive_part(-exp));
    lemma_pow2_pos(positive_part(exp - binary));
    lemma_pow2_pos(positive_part(binary - exp));
    let low = digits * five_left * two_left;
    let high = (digits + 1) * five_left * two_left;
    let point = mant * five_right * two_right;
    if exp <= 0 && exp <= binary {
        assert(low == digits && high == digits + 1) by (nonlinear_arith)
            requires
                low == digits * five_left * two_left,
                high == (digits + 1) * five_left * two_left,
                five_left == 1,
                two_left == 1,
        ;
    } else if exp > 0 {
        // The digits are beyond every finite float.
        let most = pow2((fmt.max_exponent() - 2) as nat);
        if binary >= exp {
            lemma_pow2_monotonic(positive_part(binary - exp), (fmt.max_exponent() - 2) as nat);
        } else {
            lemma_pow2_pos((fmt.max_exponent() - 2) as nat);
        }
        assert(point <= low) by (nonlinear_arith)
            requires
                point == mant * five_right * two_right,
                low == digits * five_left * two_left,
                five_right == 1,
                two_right <= most,
                two_right >= 1,
                mant < 4 * hidden,
                digits >= 4 * hidden * most,
                five_left >= 1,
                two_left >= 1,
                most >= 1,
        ;
    } else {
        // The point has too few digits for its size to reach the digits.
        let up = (-exp) as nat;
        let gap = (exp - binary) as nat;
        let (most, bound) = excess(fmt);
        assert(five_left == 1 && two_right == 1);
        let ten = pow(10, floor);
        lemma_pow10_split(floor);
        let five_floor = pow(5, floor);
        let two_floor = pow2(floor);
        assert(4 * hidden * five_right <= ten * two_left) by {
            if up <= floor {
                lemma_pow_increases(5, up, floor);
                lemma_pow2_pos(gap);
                lemma_pow2_monotonic(1, gap);
                lemma_pow2_pos(bound);
                assert(4 * hidden * five_right <= (five_floor * two_floor) * two_left)
                    by (nonlinear_arith)
                    requires
                        five_right <= five_floor,
                        4 * hidden * pow2(bound) <= 2 * two_floor,
                        pow2(bound) >= 1,
                        two_left >= 2,
                        five_right >= 1,
                        five_floor >= 1,
                        hidden >= 1,
                ;
            } else {
                let more = (up - floor) as nat;
                assert(more <= most && gap >= 1);
                lemma_pow_adds(5, floor, more);
                lemma_pow_increases(5, more, most);
                lemma_pow_positive(5, more);
                lemma_pow2_monotonic(1, gap);
                let five_more = pow(5, more);
                assert(4 * hidden * (five_floor * five_more) <= (five_floor * two_floor)
                    * two_left) by (nonlinear_arith)
                    requires
                        five_more <= pow2(bound),
                        4 * hidden * pow2(bound) <= 2 * two_floor,
                        two_left >= 2,
                        five_floor >= 1,
                        five_more >= 1,
                        hidden >= 1,
                ;
            }
        }
        assert(point <= low) by (nonlinear_arith)
            requires
                point == mant * five_right * two_right,
                low == digits * five_left * two_left,
                five_left == 1,
                two_right == 1,
                mant < 4 * hidden,
                4 * hidden * five_right <= ten * two_left,
                digits >= ten,
                five_right >= 1,
                two_left >= 1,
        ;
    }
}

} // verus!
