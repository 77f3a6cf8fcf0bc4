//! Shifts and masks on 64-bit words, stated as arithmetic with powers of two.

use vstd::prelude::*;
use vstd::arithmetic::power2::{
    lemma2_to64,
    lemma2_to64_rest,
    lemma_pow2_adds,
    lemma_pow2_pos,
    lemma_pow2_strictly_increases,
    pow2,
};
use vstd::bits::{
    lemma_u64_low_bits_mask_is_mod,
    lemma_u64_shl_is_mul,
    lemma_u64_shr_is_div,
    low_bits_mask,
};
use vstd::std_specs::bits::{axiom_u64_leading_zeros, u64_leading_zeros};

verus! {

/// `2^64`.
pub open spec fn two_64() -> int {
    0x1_0000_0000_0000_0000
}

/// Powers of two grow with the exponent.
pub proof fn lemma_pow2_monotonic(a: nat, b: nat)
    requires
        a <= b,
    ensures
        pow2(a) <= pow2(b),
{
    if a < b {
        lemma_pow2_strictly_increases(a, b);
    }
}

/// A product with a power of two is bounded by the power of the summed
/// exponents.
pub proof fn lemma_mul_pow2_bound(x: nat, a: nat, s: nat)
    requires
        x < pow2(a),
    ensures
        x * pow2(s) < pow2(a + s),
        x * pow2(s) + pow2(s) <= pow2(a + s),
{
    lemma_pow2_adds(a, s);
    lemma_pow2_pos(s);
    assert((x + 1) * pow2(s) <= pow2(a) * pow2(s)) by (nonlinear_arith)
        requires
            x + 1 <= pow2(a),
    ;
    assert((x + 1) * pow2(s) == x * pow2(s) + pow2(s)) by (nonlinear_arith);
}

/// A product with a power of two is at least the power of the summed
/// exponents where the factor is at least a power of two.
pub proof fn lemma_mul_pow2_lower(x: nat, a: nat, s: nat)
    requires
        pow2(a) <= x,
    ensures
        pow2(a + s) <= x * pow2(s),
{
    lemma_pow2_adds(a, s);
    assert(pow2(a) * pow2(s) <= x * pow2(s)) by (nonlinear_arith)
        requires
            pow2(a) <= x,
    ;
}

/// The number of leading zero bits of a non-zero word, as bounds on the
/// word.
#[verifier::rlimit(50)]
pub proof fn lemma_leading_zeros_bounds(x: u64)
    requires
        x != 0,
    ensures
        0 <= u64_leading_zeros(x) < 64,
        pow2((63 - u64_leading_zeros(x)) as nat) <= x < pow2((64 - u64_leading_zeros(x)) as nat),
{
    axiom_u64_leading_zeros(x);
    let lz = u64_leading_zeros(x) as u64;
    let top: u64 = (63 - lz) as u64;
    lemma_u64_shr_is_div(x, top);
    lemma_pow2_pos(top as nat);
    let y: u64 = x >> top;
    assert(y & 1 != 0 ==> y >= 1) by (bit_vector);
    assert(x as nat / pow2(top as nat) >= 1);
    assert(x >= pow2(top as nat)) by (nonlinear_arith)
        requires
            x as nat / pow2(top as nat) >= 1,
            pow2(top as nat) > 0,
    ;
    if lz == 0 {
        lemma2_to64();
    } else {
        let above: u64 = (64 - lz) as u64;
        lemma_u64_shr_is_div(x, above);
        lemma_pow2_pos(above as nat);
        assert(x as nat / pow2(above as nat) == 0);
        assert(x < pow2(above as nat)) by (nonlinear_arith)
            requires
                x as nat / pow2(above as nat) == 0,
                pow2(above as nat) > 0,
        ;
    }
}

/// The word with only bit `n` set.
pub fn nth_bit(n: u32) -> (r: u64)
    requires
        n < 64,
    ensures
        r == pow2(n as nat),
{
    proof {
        vstd::bits::lemma_u64_pow2_no_overflow(n as nat);
        lemma_u64_shl_is_mul(1, n as u64);
    }
    1u64 << n
}

/// The word with the lowest `n` bits set.
pub fn lower_n_mask(n: u32) -> (r: u64)
    requires
        n <= 64,
    ensures
        r == pow2(n as nat) - 1,
{
    if n == 64 {
        proof {
            lemma2_to64();
        }
        u64::MAX
    } else {
        proof {
            lemma_pow2_pos(n as nat);
        }
        nth_bit(n) - 1
    }
}

/// Half of `2^n`: the value of the lowest `n` bits at which a number lies
/// halfway between two multiples of `2^n`. Zero for `n == 0`.
pub open spec fn halfway(n: nat) -> nat {
    if n == 0 {
        0
    } else {
        pow2((n - 1) as nat)
    }
}

/// The word that, among the lowest `n` bits, has only the highest set.
pub fn lower_n_halfway(n: u32) -> (r: u64)
    requires
        n <= 64,
    ensures
        r == halfway(n as nat),
{
    if n == 0 {
        0
    } else {
        nth_bit(n - 1)
    }
}

/// The lowest `n` bits of `x`.
pub fn lower_n_bits(x: u64, n: u32) -> (r: u64)
    requires
        n <= 64,
    ensures
        r == x as nat % pow2(n as nat),
{
    let mask: u64 = lower_n_mask(n);
    proof {
        if n == 64 {
            lemma2_to64();
            assert(x & 0xFFFF_FFFF_FFFF_FFFF == x) by (bit_vector);
        } else {
            vstd::bits::lemma_u64_pow2_no_overflow(n as nat);
            lemma_u64_low_bits_mask_is_mod(x, n as nat);
            assert(low_bits_mask(n as nat) as u64 == mask);
        }
    }
    x & mask
}

/// `x` shifted right by `shift` bits, where a shift by 64 gives zero.
pub fn shr_64(x: u64, shift: u32) -> (r: u64)
    requires
        shift <= 64,
    ensures
        r == x as nat / pow2(shift as nat),
{
    if shift == 64 {
        proof {
            lemma2_to64();
        }
        0
    } else {
        proof {
            lemma_u64_shr_is_div(x, shift as u64);
        }
        x >> shift
    }
}

/// `x` shifted left by `shift` bits, where no set bit is shifted out.
pub fn shl_64(x: u64, shift: u32) -> (r: u64)
    requires
        shift < 64,
        x * pow2(shift as nat) <= u64::MAX,
    ensures
        r == x * pow2(shift as nat),
{
    proof {
        lemma_u64_shl_is_mul(x, shift as u64);
    }
    x << shift
}

/// Where the lowest `n` bits of a shifted word are free, or-ing a word of at
/// most `n` bits into them adds it.
proof fn lemma_or_below_shift(high: u64, low: u64, n: u64)
    by (bit_vector)
    requires
        n < 64,
        low >> n == 0,
    ensures
        (high << n) | low == (high << n) + low,
{
}

/// The word that holds `low` in its lowest `n` bits and `high` above them.
pub fn join_bits(high: u64, low: u64, n: u32) -> (r: u64)
    requires
        n < 64,
        low < pow2(n as nat),
        high * pow2(n as nat) <= u64::MAX,
    ensures
        r == high * pow2(n as nat) + low,
{
    proof {
        lemma_u64_shl_is_mul(high, n as u64);
        lemma_u64_shr_is_div(low, n as u64);
        lemma_pow2_pos(n as nat);
        vstd::arithmetic::div_mod::lemma_basic_div(low as int, pow2(n as nat) as int);
        lemma_or_below_shift(high, low, n as u64);
    }
    (high << n) | low
}

/// The number of leading zero bits of `x`, zero for `x == 0`: the shift that
/// brings the highest set bit of `x` to bit 63.
pub open spec fn normalize_shift(x: u64) -> nat {
    if x == 0 {
        0
    } else {
        u64_leading_zeros(x) as nat
    }
}

/// The shift that [`normalize_shift`] names moves the highest set bit to bit
/// 63 and loses nothing.
pub proof fn lemma_normalize_shift(x: u64)
    ensures
        normalize_shift(x) < 64,
        x != 0 ==> pow2(63) <= x * pow2(normalize_shift(x)) < pow2(64),
{
    if x != 0 {
        lemma_leading_zeros_bounds(x);
        let lz = u64_leading_zeros(x) as nat;
        lemma_mul_pow2_bound(x as nat, (64 - lz) as nat, lz);
        lemma_mul_pow2_lower(x as nat, (63 - lz) as nat, lz);
    }
}

/// A word with its highest bit set needs no shift.
pub proof fn lemma_normalized_shift(x: u64)
    requires
        x >= 0x8000_0000_0000_0000,
    ensures
        normalize_shift(x) == 0,
{
    lemma_leading_zeros_bounds(x);
    lemma2_to64_rest();
    let lz = u64_leading_zeros(x);
    if lz >= 1 {
        lemma_pow2_monotonic((64 - lz) as nat, 63);
    }
}

/// The number of leading zero bits of `x`, zero for `x == 0`.
pub fn leading_shift(x: u64) -> (r: u32)
    ensures
        r == normalize_shift(x),
        r < 64,
{
    proof {
        lemma_normalize_shift(x);
    }
    if x == 0 {
        0
    } else {
        x.leading_zeros()
    }
}

} // verus!
