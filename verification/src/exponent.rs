//! The decimal exponent that goes with the significand.

use vstd::prelude::*;

verus! {

/// `x` brought into the range of `i32`.
pub open spec fn saturate(x: int) -> int {
    if x < i32::MIN {
        i32::MIN as int
    } else if x > i32::MAX {
        i32::MAX as int
    } else {
        x
    }
}

/// The power of ten that multiplies the significand: the decimal exponent,
/// less the number of fraction digits, plus the number of digits that the
/// significand does not hold; brought into the range of `i32`.
pub open spec fn mantissa_exponent_spec(exponent: int, fraction_digits: nat, truncated: nat) -> int {
    saturate(exponent - fraction_digits + truncated)
}

/// Computes the power of ten that multiplies the significand. Where it does
/// not fit in an `i32`, it is the nearest end of the range: such a number
/// is zero or infinite in every format.
pub fn mantissa_exponent(exponent: i32, fraction_digits: usize, truncated: usize) -> (r: i32)
    ensures
        r == mantissa_exponent_spec(exponent as int, fraction_digits as nat, truncated as nat),
{
    let exact: i128 = exponent as i128 - fraction_digits as i128 + truncated as i128;
    if exact < i32::MIN as i128 {
        i32::MIN
    } else if exact > i32::MAX as i128 {
        i32::MAX
    } else {
        exact as i32
    }
}

} // verus!
