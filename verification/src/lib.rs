//! Correctly rounded conversion of decimal numbers to IEEE-754 binary floats.
//!
//! The entry point, [`parse_float`], takes the integer digits, the fraction
//! digits and the decimal exponent of a number, and returns the single or
//! double precision float nearest to it, ties to even. A float is carried
//! as its bit pattern ([`Binary32`], [`Binary64`]): the library computes in
//! integers only.
//!
//! Three paths are tried in turn. The fast path does one exactly rounded
//! multiplication or division where significand and power of ten are both
//! floats. The moderate path multiplies the significand by a power of ten
//! from a table, by the Eisel-Lemire algorithm and then in an
//! extended-precision float with an error bound, and gives up where the
//! product is too near a point halfway between two floats. The slow path
//! compares the digits with that point exactly, in big integers.
//!
//! Every function is verified against a contract. The contract of
//! [`parse_float`] says that its result is the float nearest to the
//! decimal number, as [`nearest::is_nearest`] defines it; the table of
//! powers of ten is proved entry by entry in `powers_proof`.

pub mod algorithm;
pub mod bhcomp;
pub mod bignum;
pub mod bits;
pub mod digit;
pub mod exponent;
pub mod extended_float;
pub mod float;
pub mod lemire;
pub mod lemire_proof;
pub mod limits;
pub mod many_digits;
pub mod nearest;
pub mod num;
pub mod parse;
pub mod powers;
pub mod powers_proof;
pub mod rounding;
pub mod scaling;
pub mod scan;
pub mod small_powers;

pub use num::{Binary32, Binary64, Float};
pub use parse::parse_float;
