use minimal_lexical::algorithm::pow10;
use minimal_lexical::num::{exponent, is_special, mantissa, Binary32, Binary64, Float};

fn check_float<T: Float + PartialEq>(x: T) {
    // Check functions
    let _ = pow10(x, 5);
    let _ = x.to_bits();
    assert!(T::from_bits(x.to_bits()) == x);

    // Check properties
    let _ = x.to_bits() & T::sign_mask();
    let _ = x.to_bits() & T::exponent_mask();
    let _ = x.to_bits() & T::hidden_bit_mask();
    let _ = x.to_bits() & T::mantissa_mask();
}

#[test]
fn float_test() {
    check_float(Binary32 { bits: 123f32.to_bits() });
    check_float(Binary64 { bits: 123f64.to_bits() });
}

#[test]
fn format_parameters() {
    assert_eq!(Binary32::mantissa_size(), 23);
    assert_eq!(Binary64::mantissa_size(), 52);
    assert_eq!(Binary32::exponent_size(), 8);
    assert_eq!(Binary64::exponent_size(), 11);
    assert_eq!(Binary32::exponent_bias(), 127 + 23);
    assert_eq!(Binary64::exponent_bias(), 1023 + 52);
    assert_eq!(Binary32::denormal_exponent(), 1 - 127 - 23);
    assert_eq!(Binary64::denormal_exponent(), 1 - 1023 - 52);
    assert_eq!(Binary32::max_exponent(), 0xFF - 150);
    assert_eq!(Binary64::max_exponent(), 0x7FF - 1075);
    assert_eq!(Binary32::sign_mask(), 1 << 31);
    assert_eq!(Binary64::sign_mask(), 1 << 63);
    assert_eq!(Binary32::exponent_mask(), f32::INFINITY.to_bits() as u64);
    assert_eq!(Binary64::exponent_mask(), f64::INFINITY.to_bits());
    assert_eq!(Binary32::hidden_bit_mask(), 1 << 23);
    assert_eq!(Binary64::hidden_bit_mask(), 1 << 52);
    assert_eq!(Binary32::mantissa_mask(), (1 << 23) - 1);
    assert_eq!(Binary64::mantissa_mask(), (1 << 52) - 1);
    assert_eq!(Binary32::infinity_bits(), f32::INFINITY.to_bits() as u64);
    assert_eq!(Binary64::infinity_bits(), f64::INFINITY.to_bits());
    assert_eq!(Binary32::exponent_limit(), (-10, 10));
    assert_eq!(Binary64::exponent_limit(), (-22, 22));
    assert_eq!(Binary32::mantissa_limit(), 7);
    assert_eq!(Binary64::mantissa_limit(), 15);
    assert_eq!(Binary32::max_digits(), 114);
    assert_eq!(Binary64::max_digits(), 769);
    assert_eq!(Binary32::zero().bits, 0);
    assert_eq!(Binary64::zero().bits, 0);
    assert_eq!(Binary32::from_bits(0x3f800000).to_bits(), 0x3f800000);
    assert_eq!(Binary64::from_bits(0x3ff0000000000000).to_bits(), 0x3ff0000000000000);
}

#[test]
fn exact_powers_of_ten_are_floats() {
    // The largest power of ten of each limit is a float, the next is not.
    assert_eq!(10f32.powi(10) as f64, 1e10);
    assert_ne!(1e11f32 as f64, 1e11);
    assert_eq!(format!("{:e}", 1e22f64), "1e22");
    assert_eq!(5u64.pow(22) >> 53, 0);
    assert_ne!(5u64.pow(23) >> 53, 0);
    assert!(10u64.pow(7) < 1 << 24);
    assert!(10u64.pow(15) < 1 << 53);
}

#[test]
fn float_parts() {
    let double = |x: f64| Binary64 { bits: x.to_bits() };
    assert_eq!(mantissa(double(1.0)), 1 << 52);
    assert_eq!(exponent(double(1.0)), -52);
    assert_eq!(mantissa(double(0.0)), 0);
    assert_eq!(exponent(double(0.0)), -1074);
    assert_eq!(mantissa(double(5e-324)), 1);
    assert_eq!(exponent(double(5e-324)), -1074);
    assert_eq!(mantissa(double(f64::MAX)), (1 << 53) - 1);
    assert_eq!(exponent(double(f64::MAX)), 971);
    assert_eq!(mantissa(double(-3.0)), 3 << 51);
    assert_eq!(exponent(double(-3.0)), -51);
    assert!(!is_special(double(f64::MAX)));
    assert!(is_special(double(f64::INFINITY)));
    assert!(is_special(double(f64::NEG_INFINITY)));
    assert!(is_special(double(f64::NAN)));
    let single = |x: f32| Binary32 { bits: x.to_bits() };
    assert_eq!(mantissa(single(1.0)), 1 << 23);
    assert_eq!(exponent(single(1.0)), -23);
    assert_eq!(mantissa(single(1e-45)), 1);
    assert_eq!(exponent(single(1e-45)), -149);
    assert_eq!(exponent(single(f32::MAX)), 104);
    assert!(is_special(single(f32::INFINITY)));
    assert!(!is_special(single(0.0)));
}

#[test]
fn pow10_agrees_with_hardware() {
    let doubles = [
        0.0f64,
        -0.0,
        1.0,
        -1.0,
        123.0,
        0.1,
        1e300,
        -1e300,
        1e-300,
        5e-324,
        2.2250738585072014e-308,
        1.7976931348623157e308,
        6004799503160661.0,
        f64::INFINITY,
        f64::NEG_INFINITY,
    ];
    for &x in doubles.iter() {
        for n in -22..=22i32 {
            let power = 10f64.powi(n.abs());
            let expected = if n >= 0 { x * power } else { x / power };
            let got = pow10(Binary64 { bits: x.to_bits() }, n);
            assert_eq!(got.bits, expected.to_bits(), "{:e} * 1e{}", x, n);
        }
    }
    let singles = [0.0f32, -0.0, 1.0, 123.0, 0.1, 3e38, -3e38, 1e-45, 1.1754944e-38, f32::INFINITY];
    for &x in singles.iter() {
        for n in -10..=10i32 {
            let power = 10f32.powi(n.abs());
            let expected = if n >= 0 { x * power } else { x / power };
            let got = pow10(Binary32 { bits: x.to_bits() }, n);
            assert_eq!(got.bits, expected.to_bits(), "{:e} * 1e{}", x, n);
        }
    }
    let nan = pow10(Binary64 { bits: f64::NAN.to_bits() }, 3);
    assert!(f64::from_bits(nan.bits).is_nan());
}
