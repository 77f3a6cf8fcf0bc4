//! Small powers of ten and of five that fit in a machine word.

use vstd::prelude::*;
use vstd::arithmetic::power::pow;

verus! {

/// `10^i` for `i` from 0 to 19: the powers of ten that fit in 64 bits.
pub const POW10_64: [u64; 20] = [
    1,
    10,
    100,
    1000,
    10000,
    100000,
    1000000,
    10000000,
    100000000,
    1000000000,
    10000000000,
    100000000000,
    1000000000000,
    10000000000000,
    100000000000000,
    1000000000000000,
    10000000000000000,
    100000000000000000,
    1000000000000000000,
    10000000000000000000,
];

/// `5^i` for `i` from 0 to 13: the powers of five that fit in 32 bits.
pub const POW5_32: [u32; 14] = [
    1,
    5,
    25,
    125,
    625,
    3125,
    15625,
    78125,
    390625,
    1953125,
    9765625,
    48828125,
    244140625,
    1220703125,
];

/// `5^i` for `i` from 0 to 22: the powers of five whose power of ten is a
/// double.
pub const POW5_64: [u64; 23] = [
    1,
    5,
    25,
    125,
    625,
    3125,
    15625,
    78125,
    390625,
    1953125,
    9765625,
    48828125,
    244140625,
    1220703125,
    6103515625,
    30517578125,
    152587890625,
    762939453125,
    3814697265625,
    19073486328125,
    95367431640625,
    476837158203125,
    2384185791015625,
];

/// `10^i` for `i` from 0 to 9: the powers of ten that fit in 32 bits.
pub const POW10_32: [u32; 10] = [
    1,
    10,
    100,
    1000,
    10000,
    100000,
    1000000,
    10000000,
    100000000,
    1000000000,
];

/// A power with one more factor.
pub proof fn lemma_pow_step(b: int, e: nat)
    ensures
        pow(b, e + 1) == b * pow(b, e),
        pow(b, 0) == 1,
{
    reveal(pow);
}

/// The entries of [`POW5_32`] are the powers of five.
pub proof fn lemma_pow5_32(i: int)
    requires
        0 <= i < 14,
    ensures
        POW5_32[i] == pow(5, i as nat),
{
    lemma_pow_step(5, 0);
    lemma_pow_step(5, 1);
    lemma_pow_step(5, 2);
    lemma_pow_step(5, 3);
    lemma_pow_step(5, 4);
    lemma_pow_step(5, 5);
    lemma_pow_step(5, 6);
    lemma_pow_step(5, 7);
    lemma_pow_step(5, 8);
    lemma_pow_step(5, 9);
    lemma_pow_step(5, 10);
    lemma_pow_step(5, 11);
    lemma_pow_step(5, 12);
}

/// The entries of [`POW5_64`] are the powers of five.
pub proof fn lemma_pow5_64(i: int)
    requires
        0 <= i < 23,
    ensures
        POW5_64[i] == pow(5, i as nat),
{
    lemma_pow_step(5, 0);
    lemma_pow_step(5, 1);
    lemma_pow_step(5, 2);
    lemma_pow_step(5, 3);
    lemma_pow_step(5, 4);
    lemma_pow_step(5, 5);
    lemma_pow_step(5, 6);
    lemma_pow_step(5, 7);
    lemma_pow_step(5, 8);
    lemma_pow_step(5, 9);
    lemma_pow_step(5, 10);
    lemma_pow_step(5, 11);
    lemma_pow_step(5, 12);
    lemma_pow_step(5, 13);
    lemma_pow_step(5, 14);
    lemma_pow_step(5, 15);
    lemma_pow_step(5, 16);
    lemma_pow_step(5, 17);
    lemma_pow_step(5, 18);
    lemma_pow_step(5, 19);
    lemma_pow_step(5, 20);
    lemma_pow_step(5, 21);
}

/// The entries of [`POW10_32`] are the powers of ten.
pub proof fn lemma_pow10_32(i: int)
    requires
        0 <= i < 10,
    ensures
        POW10_32[i] == pow(10, i as nat),
{
    lemma_pow_step(10, 0);
    lemma_pow_step(10, 1);
    lemma_pow_step(10, 2);
    lemma_pow_step(10, 3);
    lemma_pow_step(10, 4);
    lemma_pow_step(10, 5);
    lemma_pow_step(10, 6);
    lemma_pow_step(10, 7);
    lemma_pow_step(10, 8);
}

/// The entries of [`POW10_64`] are the powers of ten.
pub proof fn lemma_pow10_64(i: int)
    requires
        0 <= i < 20,
    ensures
        POW10_64[i] == pow(10, i as nat),
{
    lemma_pow_step(10, 0);
    lemma_pow_step(10, 1);
    lemma_pow_step(10, 2);
    lemma_pow_step(10, 3);
    lemma_pow_step(10, 4);
    lemma_pow_step(10, 5);
    lemma_pow_step(10, 6);
    lemma_pow_step(10, 7);
    lemma_pow_step(10, 8);
    lemma_pow_step(10, 9);
    lemma_pow_step(10, 10);
    lemma_pow_step(10, 11);
    lemma_pow_step(10, 12);
    lemma_pow_step(10, 13);
    lemma_pow_step(10, 14);
    lemma_pow_step(10, 15);
    lemma_pow_step(10, 16);
    lemma_pow_step(10, 17);
    lemma_pow_step(10, 18);
}

} // verus!
