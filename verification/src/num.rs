//! The two IEEE-754 binary interchange formats the library produces, and the
//! trait through which the conversion paths read their parameters.
//!
//! A float is carried as its bit pattern. Every quantity here describes the
//! non-negative floats only: the sign is applied by the caller.

use vstd::prelude::*;
use vstd::arithmetic::power2::{lemma2_to64, lemma2_to64_rest, pow2};
use crate::bits::{lower_n_bits, shr_64};

verus! {

/// An IEEE-754 binary interchange format.
#[derive(Clone, Copy, Debug, PartialEq, Eq, Structural)]
pub enum Format {
    /// Single precision: 8 exponent bits, 23 stored significand bits.
    Binary32,
    /// Double precision: 11 exponent bits, 52 stored significand bits.
    Binary64,
}

impl Format {
    /// Number of stored significand bits (without the hidden bit).
    pub open spec fn mantissa_size(self) -> int {
        match self {
            Format::Binary32 => 23,
            Format::Binary64 => 52,
        }
    }

    /// Number of exponent bits.
    pub open spec fn exponent_size(self) -> int {
        match self {
            Format::Binary32 => 8,
            Format::Binary64 => 11,
        }
    }

    /// Bias of the stored exponent when the significand, hidden bit
    /// included, is read as an integer: the IEEE bias plus the number of
    /// stored significand bits.
    pub open spec fn exponent_bias(self) -> int {
        match self {
            Format::Binary32 => 150,
            Format::Binary64 => 1075,
        }
    }

    /// Binary exponent of the integer significand of a subnormal float.
    pub open spec fn denormal_exponent(self) -> int {
        1 - self.exponent_bias()
    }

    /// Binary exponent of the integer significand at which a float is
    /// infinite.
    pub open spec fn max_exponent(self) -> int {
        match self {
            Format::Binary32 => 0xFF - 150,
            Format::Binary64 => 0x7FF - 1075,
        }
    }

    /// The bit that holds the sign.
    pub open spec fn sign_mask(self) -> u64 {
        match self {
            Format::Binary32 => 0x8000_0000,
            Format::Binary64 => 0x8000_0000_0000_0000,
        }
    }

    /// The bits that hold the stored exponent.
    pub open spec fn exponent_mask(self) -> u64 {
        match self {
            Format::Binary32 => 0x7F80_0000,
            Format::Binary64 => 0x7FF0_0000_0000_0000,
        }
    }

    /// The implicit leading significand bit of a normal float.
    pub open spec fn hidden_bit_mask(self) -> u64 {
        match self {
            Format::Binary32 => 0x0080_0000,
            Format::Binary64 => 0x0010_0000_0000_0000,
        }
    }

    /// The bits that hold the stored significand.
    pub open spec fn mantissa_mask(self) -> u64 {
        match self {
            Format::Binary32 => 0x007F_FFFF,
            Format::Binary64 => 0x000F_FFFF_FFFF_FFFF,
        }
    }

    /// The bit pattern of positive infinity.
    pub open spec fn infinity_bits(self) -> u64 {
        match self {
            Format::Binary32 => 0x7F80_0000,
            Format::Binary64 => 0x7FF0_0000_0000_0000,
        }
    }

    /// The largest bit pattern of the format.
    pub open spec fn max_bits(self) -> u64 {
        match self {
            Format::Binary32 => 0xFFFF_FFFF,
            Format::Binary64 => 0xFFFF_FFFF_FFFF_FFFF,
        }
    }

    /// Smallest and largest decimal exponent `e` for which `10^|e|` is a
    /// float of the format.
    pub open spec fn exponent_limit(self) -> (int, int) {
        match self {
            Format::Binary32 => (-10, 10),
            Format::Binary64 => (-22, 22),
        }
    }

    /// Largest `n` for which every integer below `10^n` fits in the
    /// significand.
    pub open spec fn mantissa_limit(self) -> int {
        match self {
            Format::Binary32 => 7,
            Format::Binary64 => 15,
        }
    }

    /// Number of significant decimal digits that decide the rounding of any
    /// decimal number in the format, plus two.
    pub open spec fn max_digits(self) -> int {
        match self {
            Format::Binary32 => 114,
            Format::Binary64 => 769,
        }
    }

    /// The masks are the powers of two that the sizes give.
    pub proof fn lemma_masks(self)
        ensures
            self.hidden_bit_mask() == pow2(self.mantissa_size() as nat),
            self.mantissa_mask() == pow2(self.mantissa_size() as nat) - 1,
            self.infinity_bits() == (pow2(self.exponent_size() as nat) - 1) * pow2(
                self.mantissa_size() as nat,
            ),
            self.exponent_mask() == self.infinity_bits(),
            self.sign_mask() == self.infinity_bits() + self.hidden_bit_mask(),
            self.max_bits() == 2 * self.sign_mask() - 1,
            self.max_exponent() == pow2(self.exponent_size() as nat) - 1 - self.exponent_bias(),
            self.exponent_bias() == pow2((self.exponent_size() - 1) as nat) - 1
                + self.mantissa_size(),
    {
        vstd::arithmetic::power2::lemma2_to64();
        vstd::arithmetic::power2::lemma2_to64_rest();
    }
}

/// A float format as a type: its parameters, and the passage between a float
/// and its bit pattern.
pub trait Float: Sized + Copy {
    /// The format that the type stands for.
    spec fn format() -> Format;

    /// The bit pattern of the float.
    spec fn bits(self) -> u64;

    /// Number of stored significand bits.
    fn mantissa_size() -> (r: i32)
        ensures
            r == Self::format().mantissa_size(),
    ;

    /// Number of exponent bits.
    fn exponent_size() -> (r: i32)
        ensures
            r == Self::format().exponent_size(),
    ;

    /// Bias of the stored exponent, counted for an integer significand.
    fn exponent_bias() -> (r: i32)
        ensures
            r == Self::format().exponent_bias(),
    ;

    /// Binary exponent of the integer significand of a subnormal float.
    fn denormal_exponent() -> (r: i32)
        ensures
            r == Self::format().denormal_exponent(),
    ;

    /// Binary exponent of the integer significand at which a float is
    /// infinite.
    fn max_exponent() -> (r: i32)
        ensures
            r == Self::format().max_exponent(),
    ;

    /// The bit that holds the sign.
    fn sign_mask() -> (r: u64)
        ensures
            r == Self::format().sign_mask(),
    ;

    /// The bits that hold the stored exponent.
    fn exponent_mask() -> (r: u64)
        ensures
            r == Self::format().exponent_mask(),
    ;

    /// The implicit leading significand bit of a normal float.
    fn hidden_bit_mask() -> (r: u64)
        ensures
            r == Self::format().hidden_bit_mask(),
    ;

    /// The bits that hold the stored significand.
    fn mantissa_mask() -> (r: u64)
        ensures
            r == Self::format().mantissa_mask(),
    ;

    /// The bit pattern of positive infinity.
    fn infinity_bits() -> (r: u64)
        ensures
            r == Self::format().infinity_bits(),
    ;

    /// Smallest and largest decimal exponent whose power of ten is exact.
    fn exponent_limit() -> (r: (i32, i32))
        ensures
            r.0 == Self::format().exponent_limit().0,
            r.1 == Self::format().exponent_limit().1,
    ;

    /// Number of decimal digits that always fit in the significand.
    fn mantissa_limit() -> (r: i32)
        ensures
            r == Self::format().mantissa_limit(),
    ;

    /// Number of significant decimal digits the slow path reads at most.
    fn max_digits() -> (r: usize)
        ensures
            r == Self::format().max_digits(),
    ;

    /// The float with the given bit pattern.
    fn from_bits(bits: u64) -> (r: Self)
        requires
            bits <= Self::format().max_bits(),
        ensures
            r.bits() == bits,
    ;

    /// The bit pattern of the float.
    fn to_bits(self) -> (r: u64)
        ensures
            r == self.bits(),
            r <= Self::format().max_bits(),
    ;

    /// Positive zero.
    fn zero() -> (r: Self)
        ensures
            r.bits() == 0,
    ;
}

/// An IEEE-754 single precision float, held as its bit pattern.
#[derive(Clone, Copy, Debug, PartialEq, Eq, Structural)]
pub struct Binary32 {
    /// The 32 bits of the float.
    pub bits: u32,
}

/// An IEEE-754 double precision float, held as its bit pattern.
#[derive(Clone, Copy, Debug, PartialEq, Eq, Structural)]
pub struct Binary64 {
    /// The 64 bits of the float.
    pub bits: u64,
}

impl Float for Binary32 {
    open spec fn format() -> Format {
        Format::Binary32
    }

    open spec fn bits(self) -> u64 {
        self.bits as u64
    }

    fn mantissa_size() -> (r: i32) {
        23
    }

    fn exponent_size() -> (r: i32) {
        8
    }

    fn exponent_bias() -> (r: i32) {
        150
    }

    fn denormal_exponent() -> (r: i32) {
        -149
    }

    fn max_exponent() -> (r: i32) {
        105
    }

    fn sign_mask() -> (r: u64) {
        0x8000_0000
    }

    fn exponent_mask() -> (r: u64) {
        0x7F80_0000
    }

    fn hidden_bit_mask() -> (r: u64) {
        0x0080_0000
    }

    fn mantissa_mask() -> (r: u64) {
        0x007F_FFFF
    }

    fn infinity_bits() -> (r: u64) {
        0x7F80_0000
    }

    fn exponent_limit() -> (r: (i32, i32)) {
        (-10, 10)
    }

    fn mantissa_limit() -> (r: i32) {
        7
    }

    fn max_digits() -> (r: usize) {
        114
    }

    fn from_bits(bits: u64) -> (r: Self) {
        Binary32 { bits: bits as u32 }
    }

    fn to_bits(self) -> (r: u64) {
        self.bits as u64
    }

    fn zero() -> (r: Self) {
        Binary32 { bits: 0 }
    }
}

impl Float for Binary64 {
    open spec fn format() -> Format {
        Format::Binary64
    }

    open spec fn bits(self) -> u64 {
        self.bits
    }

    fn mantissa_size() -> (r: i32) {
        52
    }

    fn exponent_size() -> (r: i32) {
        11
    }

    fn exponent_bias() -> (r: i32) {
        1075
    }

    fn denormal_exponent() -> (r: i32) {
        -1074
    }

    fn max_exponent() -> (r: i32) {
        972
    }

    fn sign_mask() -> (r: u64) {
        0x8000_0000_0000_0000
    }

    fn exponent_mask() -> (r: u64) {
        0x7FF0_0000_0000_0000
    }

    fn hidden_bit_mask() -> (r: u64) {
        0x0010_0000_0000_0000
    }

    fn mantissa_mask() -> (r: u64) {
        0x000F_FFFF_FFFF_FFFF
    }

    fn infinity_bits() -> (r: u64) {
        0x7FF0_0000_0000_0000
    }

    fn exponent_limit() -> (r: (i32, i32)) {
        (-22, 22)
    }

    fn mantissa_limit() -> (r: i32) {
        15
    }

    fn max_digits() -> (r: usize) {
        769
    }

    fn from_bits(bits: u64) -> (r: Self) {
        Binary64 { bits }
    }

    fn to_bits(self) -> (r: u64) {
        self.bits
    }

    fn zero() -> (r: Self) {
        Binary64 { bits: 0 }
    }
}

/// The stored exponent of the float with the bits `bits`.
pub open spec fn biased_exponent(fmt: Format, bits: u64) -> nat {
    (bits as nat / pow2(fmt.mantissa_size() as nat)) % pow2(fmt.exponent_size() as nat)
}

/// The stored significand of the float with the bits `bits`.
pub open spec fn stored_mantissa(fmt: Format, bits: u64) -> nat {
    bits as nat % pow2(fmt.mantissa_size() as nat)
}

/// The significand of a float as an integer, with the hidden bit where the
/// float is not subnormal.
pub open spec fn float_mantissa(fmt: Format, bits: u64) -> nat {
    if biased_exponent(fmt, bits) == 0 {
        stored_mantissa(fmt, bits)
    } else {
        stored_mantissa(fmt, bits) + pow2(fmt.mantissa_size() as nat)
    }
}

/// The binary exponent that goes with [`float_mantissa`]: the magnitude of
/// the float is `float_mantissa * 2^float_exponent`.
pub open spec fn float_exponent(fmt: Format, bits: u64) -> int {
    if biased_exponent(fmt, bits) == 0 {
        fmt.denormal_exponent()
    } else {
        biased_exponent(fmt, bits) - fmt.exponent_bias()
    }
}

/// Whether the float is an infinity or not a number: all bits of its
/// stored exponent are set.
pub open spec fn is_special_spec(fmt: Format, bits: u64) -> bool {
    biased_exponent(fmt, bits) == pow2(fmt.exponent_size() as nat) - 1
}

/// Infinity is special, and so is no float below it that is not negative.
pub proof fn lemma_infinity_is_special(fmt: Format, bits: u64)
    requires
        bits <= fmt.infinity_bits(),
    ensures
        is_special_spec(fmt, bits) <==> bits == fmt.infinity_bits(),
{
    lemma2_to64();
    lemma2_to64_rest();
    let m = pow2(fmt.mantissa_size() as nat) as int;
    let e = pow2(fmt.exponent_size() as nat) as int;
    let b = bits as int;
    let q = b / m;
    assert(0 <= q <= e - 1 && (q == e - 1 <==> b == (e - 1) * m)) by (nonlinear_arith)
        requires
            q == b / m,
            0 <= b <= (e - 1) * m,
            m > 0,
            e > 1,
    ;
    assert(q % e == q);
}

/// Whether `mant` and `exp` are the integer significand and the binary
/// exponent of a float that is not negative, infinity included: the
/// exponent is in range, the significand fits, and it has the hidden bit
/// unless the float is subnormal.
pub open spec fn is_float_parts(fmt: Format, mant: nat, exp: int) -> bool {
    &&& fmt.denormal_exponent() <= exp <= fmt.max_exponent()
    &&& mant < 2 * fmt.hidden_bit_mask()
    &&& (mant >= fmt.hidden_bit_mask() || exp == fmt.denormal_exponent())
    &&& (exp == fmt.max_exponent() ==> mant == fmt.hidden_bit_mask())
}

/// The bits of the float with the integer significand `mant` and the
/// binary exponent `exp`: the floats that are not negative are numbered in
/// the order of their magnitude.
pub open spec fn bits_of_parts(fmt: Format, mant: nat, exp: int) -> int {
    (exp - fmt.denormal_exponent()) * fmt.hidden_bit_mask() + mant
}

/// The significand and the exponent of a float are its parts, and give its
/// bits back.
#[verifier::rlimit(50)]
pub proof fn lemma_parts_of_bits(fmt: Format, bits: u64)
    requires
        bits <= fmt.infinity_bits(),
    ensures
        is_float_parts(fmt, float_mantissa(fmt, bits), float_exponent(fmt, bits)),
        bits == bits_of_parts(fmt, float_mantissa(fmt, bits), float_exponent(fmt, bits)),
{
    lemma2_to64();
    lemma2_to64_rest();
    fmt.lemma_masks();
    let h = fmt.hidden_bit_mask() as int;
    let e = pow2(fmt.exponent_size() as nat) as int;
    let b = bits as int;
    assert(pow2(fmt.mantissa_size() as nat) == h);
    let q = b / h;
    let r = b % h;
    assert(b == q * h + r && 0 <= r < h && 0 <= q <= e - 1) by (nonlinear_arith)
        requires
            q == b / h,
            r == b % h,
            0 <= b <= (e - 1) * h,
            h > 0,
            e > 1,
    ;
    assert(q % e == q);
    match fmt {
        Format::Binary32 => {},
        Format::Binary64 => {},
    }
}

/// The significand of any bits fits, with the hidden bit, in the
/// significand of the format, and the exponent is in its range.
pub proof fn lemma_parts_of_bits_any(fmt: Format, bits: u64)
    ensures
        float_mantissa(fmt, bits) < 2 * fmt.hidden_bit_mask(),
        fmt.denormal_exponent() <= float_exponent(fmt, bits) <= fmt.max_exponent(),
{
    lemma2_to64();
    lemma2_to64_rest();
    fmt.lemma_masks();
    let h = pow2(fmt.mantissa_size() as nat);
    let e = pow2(fmt.exponent_size() as nat);
    vstd::arithmetic::div_mod::lemma_mod_bound(bits as int, h as int);
    vstd::arithmetic::div_mod::lemma_mod_bound((bits as nat / h) as int, e as int);
}

/// The parts of a float give bits from which they are read back.
#[verifier::rlimit(50)]
pub proof fn lemma_bits_of_parts(fmt: Format, mant: nat, exp: int)
    requires
        is_float_parts(fmt, mant, exp),
    ensures
        0 <= bits_of_parts(fmt, mant, exp) <= fmt.infinity_bits(),
        float_mantissa(fmt, bits_of_parts(fmt, mant, exp) as u64) == mant,
        float_exponent(fmt, bits_of_parts(fmt, mant, exp) as u64) == exp,
        bits_of_parts(fmt, mant, exp) == fmt.infinity_bits() <==> exp == fmt.max_exponent(),
        bits_of_parts(fmt, mant, exp) % 2 == mant % 2,
{
    lemma2_to64();
    lemma2_to64_rest();
    fmt.lemma_masks();
    let h = fmt.hidden_bit_mask() as int;
    let e = pow2(fmt.exponent_size() as nat) as int;
    let b = bits_of_parts(fmt, mant, exp);
    assert(pow2(fmt.mantissa_size() as nat) == h);
    let biased: int = if mant < h {
        0
    } else {
        exp - fmt.denormal_exponent() + 1
    };
    let stored: int = if mant < h {
        mant as int
    } else {
        mant - h
    };
    match fmt {
        Format::Binary32 => {
            assert(b == biased * h + stored);
        },
        Format::Binary64 => {
            assert(b == biased * h + stored);
        },
    }
    vstd::arithmetic::div_mod::lemma_fundamental_div_mod_converse(b, h, biased, stored);
    assert(biased % e == biased);
}

/// The stored exponent of a float.
fn stored_exponent<F: Float>(f: F) -> (r: u64)
    ensures
        r == biased_exponent(F::format(), f.bits()),
        r < pow2(F::format().exponent_size() as nat),
        r <= 0x7FF,
{
    proof {
        lemma2_to64();
        lemma2_to64_rest();
    }
    let size: u32 = F::mantissa_size() as u32;
    let width: u32 = F::exponent_size() as u32;
    lower_n_bits(shr_64(f.to_bits(), size), width)
}

/// The significand of a float as an integer, with the hidden bit where the
/// float is not subnormal.
pub fn mantissa<F: Float>(f: F) -> (r: u64)
    ensures
        r == float_mantissa(F::format(), f.bits()),
        r < 2 * F::format().hidden_bit_mask(),
{
    proof {
        lemma2_to64();
        lemma2_to64_rest();
        F::format().lemma_masks();
    }
    let stored: u64 = lower_n_bits(f.to_bits(), F::mantissa_size() as u32);
    if stored_exponent(f) == 0 {
        stored
    } else {
        stored + F::hidden_bit_mask()
    }
}

/// The binary exponent that goes with the integer significand of a float.
pub fn exponent<F: Float>(f: F) -> (r: i32)
    ensures
        r == float_exponent(F::format(), f.bits()),
        F::format().denormal_exponent() <= r <= F::format().max_exponent(),
{
    proof {
        lemma2_to64();
        F::format().lemma_masks();
    }
    let biased: u64 = stored_exponent(f);
    if biased == 0 {
        F::denormal_exponent()
    } else {
        biased as i32 - F::exponent_bias()
    }
}

/// Whether the float is an infinity or not a number.
pub fn is_special<F: Float>(f: F) -> (r: bool)
    ensures
        r == is_special_spec(F::format(), f.bits()),
{
    proof {
        lemma2_to64();
        F::format().lemma_masks();
    }
    stored_exponent(f) as i32 == F::max_exponent() + F::exponent_bias()
}

} // verus!
