//! An extended-precision float: a 64-bit significand and a binary exponent.

use vstd::prelude::*;
use vstd::arithmetic::power2::pow2;
use crate::bits::{leading_shift, lemma_normalize_shift, normalize_shift, shl_64};
use crate::num::{Float, Format};
use crate::nearest::{is_nearest, Number};
use crate::rounding::{
    lemma_round_exact_nearest,
    pack,
    pack_float,
    round_to_native,
    round_to_native_spec,
    Rounding,
};

verus! {

/// The number `mant * 2^exp`. It carries no sign.
///
/// It is normalized when `mant` is zero or has its highest bit set.
#[derive(Clone, Copy, Debug, PartialEq, Eq, Structural)]
pub struct ExtendedFloat {
    /// The significand.
    pub mant: u64,
    /// The binary exponent.
    pub exp: i32,
}

impl ExtendedFloat {
    /// Whether the exponent is far enough from the ends of `i32` for every
    /// shift that rounding to a native float makes.
    pub open spec fn exp_in_range(self) -> bool {
        -0x4000_0000 <= self.exp <= 0x4000_0000
    }

    /// Whether the significand is zero or has its highest bit set.
    pub open spec fn is_normalized(self) -> bool {
        self.mant == 0 || self.mant >= 0x8000_0000_0000_0000
    }

    /// The product of two extended floats: the upper 64 bits of the 128-bit
    /// product of the significands, rounded half up, and the sum of the
    /// exponents, moved by the 64 bits dropped.
    pub open spec fn mul_spec(self, b: ExtendedFloat) -> ExtendedFloat {
        ExtendedFloat {
            mant: ((self.mant * b.mant + 0x8000_0000_0000_0000) / 0x1_0000_0000_0000_0000) as u64,
            exp: (self.exp + b.exp + 64) as i32,
        }
    }

    /// The same number with the significand shifted left until its highest
    /// bit is set. Zero is left as it is.
    pub open spec fn normalize_spec(self) -> ExtendedFloat {
        ExtendedFloat {
            mant: (self.mant * pow2(normalize_shift(self.mant))) as u64,
            exp: (self.exp - normalize_shift(self.mant)) as i32,
        }
    }

    /// The bits of the float of format `fmt` nearest to `self`, ties to
    /// even.
    pub open spec fn into_float_spec(self, fmt: Format) -> u64 {
        pack(fmt, round_to_native_spec(fmt, self, Rounding::NearestTieEven))
    }

    /// The bits of the largest float of format `fmt` that is not above
    /// `self`.
    pub open spec fn into_downward_float_spec(self, fmt: Format) -> u64 {
        pack(fmt, round_to_native_spec(fmt, self, Rounding::Downward))
    }

    /// Multiplies two extended floats. The result is not normalized, and is
    /// most precise where both factors are.
    pub fn mul(&self, b: &ExtendedFloat) -> (r: ExtendedFloat)
        requires
            i32::MIN <= self.exp + b.exp + 64 <= i32::MAX,
        ensures
            r == self.mul_spec(*b),
            r.mant * 0x1_0000_0000_0000_0000 <= self.mant * b.mant + 0x8000_0000_0000_0000
                < (r.mant + 1) * 0x1_0000_0000_0000_0000,
    {
        assert(self.mant * b.mant <= 0xFFFF_FFFF_FFFF_FFFF * 0xFFFF_FFFF_FFFF_FFFF)
            by (nonlinear_arith)
            requires
                self.mant <= 0xFFFF_FFFF_FFFF_FFFF,
                b.mant <= 0xFFFF_FFFF_FFFF_FFFF,
        ;
        let product: u128 = (self.mant as u128) * (b.mant as u128) + 0x8000_0000_0000_0000u128;
        let upper: u128 = product >> 64;
        assert(upper == product / 0x1_0000_0000_0000_0000 && upper <= 0xFFFF_FFFF_FFFF_FFFF)
            by (bit_vector)
            requires
                upper == product >> 64,
        ;
        let exp: i64 = self.exp as i64 + b.exp as i64 + 64;
        ExtendedFloat { mant: upper as u64, exp: exp as i32 }
    }

    /// Multiplies `self` by `b` in place.
    pub fn imul(&mut self, b: &ExtendedFloat)
        requires
            i32::MIN <= old(self).exp + b.exp + 64 <= i32::MAX,
        ensures
            *final(self) == old(self).mul_spec(*b),
    {
        *self = self.mul(b);
    }

    /// Shifts the significand left until its highest bit is set, and lowers
    /// the exponent by as much, so that the number stays the same. Returns
    /// the number of bits shifted. Zero is left as it is.
    pub fn normalize(&mut self) -> (shift: u32)
        requires
            old(self).exp >= i32::MIN + 63,
        ensures
            shift == normalize_shift(old(self).mant),
            shift < 64,
            *final(self) == old(self).normalize_spec(),
            final(self).mant == old(self).mant * pow2(shift as nat),
            final(self).exp == old(self).exp - shift,
            final(self).is_normalized(),
            old(self).mant == 0 ==> shift == 0,
    {
        proof {
            lemma_normalize_shift(self.mant);
            vstd::arithmetic::power2::lemma2_to64();
            vstd::arithmetic::power2::lemma2_to64_rest();
        }
        let shift: u32 = leading_shift(self.mant);
        self.mant = shl_64(self.mant, shift);
        self.exp = self.exp - shift as i32;
        shift
    }

    /// Rounds to the nearest float of the format `F`, ties to even. A number
    /// at or above the range of the finite floats gives infinity.
    pub fn into_float<F: Float>(self) -> (r: F)
        requires
            self.exp_in_range(),
        ensures
            r.bits() == self.into_float_spec(F::format()),
            r.bits() <= F::format().infinity_bits(),
            is_nearest(F::format(), self.number(), r.bits()),
    {
        proof {
            self.lemma_into_float_nearest(F::format());
        }
        let mut fp: ExtendedFloat = self;
        round_to_native::<F>(&mut fp, Rounding::NearestTieEven);
        pack_float::<F>(fp)
    }

    /// Rounds down to the largest float of the format `F` that is not above
    /// the number: the float nearest to it, or the one before. A number at
    /// or above the range of the finite floats gives infinity.
    pub fn into_downward_float<F: Float>(self) -> (r: F)
        requires
            self.exp_in_range(),
        ensures
            r.bits() == self.into_downward_float_spec(F::format()),
            r.bits() <= F::format().infinity_bits(),
            crate::nearest::is_sound_estimate(F::format(), self.number(), r.bits(), false),
    {
        proof {
            self.lemma_into_downward_float_estimate(F::format());
        }
        let mut fp: ExtendedFloat = self;
        round_to_native::<F>(&mut fp, Rounding::Downward);
        pack_float::<F>(fp)
    }

    /// The number `mant * 2^exp` that the extended float stands for.
    pub open spec fn number(self) -> Number {
        Number { digits: self.mant as nat, binary: self.exp as int, decimal: 0 }
    }

    /// What [`ExtendedFloat::into_downward_float`] returns is the float
    /// nearest to the extended float or the float before it; and infinity
    /// only where infinity is nearest.
    pub proof fn lemma_into_downward_float_estimate(self, fmt: Format)
        requires
            self.exp_in_range(),
        ensures
            crate::nearest::is_sound_estimate(
                fmt,
                self.number(),
                self.into_downward_float_spec(fmt),
                false,
            ),
    {
        vstd::arithmetic::power2::lemma2_to64();
        crate::small_powers::lemma_pow_step(5, 0);
        let mant = self.mant as nat;
        assert(mant * 1 * 1 == mant);
        crate::rounding::lemma_round_down_estimate(fmt, self.number(), self);
    }

    /// What [`ExtendedFloat::into_float`] returns is the float nearest to
    /// the extended float, and the even one of two that are equally near.
    pub proof fn lemma_into_float_nearest(self, fmt: Format)
        requires
            self.exp_in_range(),
        ensures
            is_nearest(fmt, self.number(), self.into_float_spec(fmt)),
    {
        vstd::arithmetic::power2::lemma2_to64();
        crate::small_powers::lemma_pow_step(5, 0);
        let mant = self.mant as nat;
        assert(mant * 1 * 1 == mant);
        lemma_round_exact_nearest(fmt, self.number(), self);
    }
}

} // verus!
