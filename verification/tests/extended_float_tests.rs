use minimal_lexical::extended_float::moderate_path;
use minimal_lexical::float::ExtendedFloat;
use minimal_lexical::num::{Binary32, Binary64};

fn extended_double(mantissa: u64, exponent: i32, truncated: bool) -> (f64, bool) {
    let (f, valid) = moderate_path::<Binary64>(mantissa, exponent, truncated);
    (f64::from_bits(f.bits), valid)
}

#[test]
fn extended_float_tests_moderate_path_test() {
    let (f, valid) = extended_double(1234567890, -1, false);
    assert!(valid, "should be valid");
    assert_eq!(f, 123456789.0);

    let (f, valid) = extended_double(1234567891, -1, false);
    assert!(valid, "should be valid");
    assert_eq!(f, 123456789.1);

    let (f, valid) = extended_double(12345678912, -2, false);
    assert!(valid, "should be valid");
    assert_eq!(f, 123456789.12);

    let (f, valid) = extended_double(123456789123, -3, false);
    assert!(valid, "should be valid");
    assert_eq!(f, 123456789.123);

    let (f, valid) = extended_double(1234567891234, -4, false);
    assert!(valid, "should be valid");
    assert_eq!(f, 123456789.1234);

    let (f, valid) = extended_double(12345678912345, -5, false);
    assert!(valid, "should be valid");
    assert_eq!(f, 123456789.12345);

    let (f, valid) = extended_double(123456789123456, -6, false);
    assert!(valid, "should be valid");
    assert_eq!(f, 123456789.123456);

    let (f, valid) = extended_double(1234567891234567, -7, false);
    assert!(valid, "should be valid");
    assert_eq!(f, 123456789.1234567);

    let (f, valid) = extended_double(12345678912345679, -8, false);
    assert!(valid, "should be valid");
    assert_eq!(f, 123456789.12345679);

    let (f, valid) = extended_double(4628372940652459, -17, false);
    assert!(valid, "should be valid");
    assert_eq!(f, 0.04628372940652459);

    let (f, valid) = extended_double(26383446160308229, -272, false);
    assert!(valid, "should be valid");
    assert_eq!(f, 2.6383446160308229e-256);

    let (_, valid) = extended_double(26383446160308230, -272, false);
    assert!(!valid, "should be invalid");
}

#[test]
fn extended_float_moderate_path_test() {
    let (f, valid) = extended_double(1234567890, -1, false);
    assert!(valid, "should be valid");
    assert_eq!(f, 123456789.0);

    let (f, valid) = extended_double(1234567891, -1, false);
    assert!(valid, "should be valid");
    assert_eq!(f, 123456789.1);

    let (f, valid) = extended_double(12345678912, -2, false);
    assert!(valid, "should be valid");
    assert_eq!(f, 123456789.12);

    let (f, valid) = extended_double(123456789123, -3, false);
    assert!(valid, "should be valid");
    assert_eq!(f, 123456789.123);

    let (f, valid) = extended_double(1234567891234, -4, false);
    assert!(valid, "should be valid");
    assert_eq!(f, 123456789.1234);

    let (f, valid) = extended_double(12345678912345, -5, false);
    assert!(valid, "should be valid");
    assert_eq!(f, 123456789.12345);

    let (f, valid) = extended_double(123456789123456, -6, false);
    assert!(valid, "should be valid");
    assert_eq!(f, 123456789.123456);

    let (f, valid) = extended_double(1234567891234567, -7, false);
    assert!(valid, "should be valid");
    assert_eq!(f, 123456789.1234567);

    let (f, valid) = extended_double(12345678912345679, -8, false);
    assert!(valid, "should be valid");
    assert_eq!(f, 123456789.12345679);

    let (f, valid) = extended_double(4628372940652459, -17, false);
    assert!(valid, "should be valid");
    assert_eq!(f, 0.04628372940652459);

    let (f, valid) = extended_double(26383446160308229, -272, false);
    assert!(valid, "should be valid");
    assert_eq!(f, 2.6383446160308229e-256);

    let (_, valid) = extended_double(26383446160308230, -272, false);
    assert!(!valid, "should be invalid");
}

#[test]
fn extended_path_outside_the_table() {
    let (f, valid) = moderate_path::<Binary64>(1, -343, false);
    assert!(valid);
    assert_eq!(f.bits, 0);
    let (f, valid) = moderate_path::<Binary64>(1, 309, false);
    assert!(valid);
    assert_eq!(f.bits, 0x7ff0000000000000);
    let (f, valid) = moderate_path::<Binary32>(1, 309, true);
    assert!(valid);
    assert_eq!(f.bits, 0x7f800000);
}

#[test]
fn extended_float_mul_rounds_half_up() {
    let a = ExtendedFloat { mant: 1 << 63, exp: -63 };
    let b = ExtendedFloat { mant: 0xA000000000000000, exp: -60 };
    let c = a.mul(&b);
    assert_eq!(c, ExtendedFloat { mant: 0x5000000000000000, exp: -59 });

    // The low 64 bits of the product are exactly one half: rounds up.
    let a = ExtendedFloat { mant: 1 << 63, exp: 0 };
    let b = ExtendedFloat { mant: 3, exp: 0 };
    assert_eq!(a.mul(&b), ExtendedFloat { mant: 2, exp: 64 });
    // Just below one half: rounds down.
    let a = ExtendedFloat { mant: (1 << 63) - 1, exp: 0 };
    let b = ExtendedFloat { mant: 1, exp: 5 };
    assert_eq!(a.mul(&b), ExtendedFloat { mant: 0, exp: 69 });

    let mut d = ExtendedFloat { mant: 1 << 63, exp: 1 };
    d.imul(&ExtendedFloat { mant: 1 << 63, exp: 2 });
    assert_eq!(d, ExtendedFloat { mant: 1 << 62, exp: 67 });
}

#[test]
fn extended_float_normalize() {
    let mut fp = ExtendedFloat { mant: 0, exp: 0 };
    assert_eq!(fp.normalize(), 0);
    assert_eq!(fp, ExtendedFloat { mant: 0, exp: 0 });

    let mut fp = ExtendedFloat { mant: 1, exp: 0 };
    assert_eq!(fp.normalize(), 63);
    assert_eq!(fp, ExtendedFloat { mant: 1 << 63, exp: -63 });

    let mut fp = ExtendedFloat { mant: 0xFFFF, exp: 10 };
    assert_eq!(fp.normalize(), 48);
    assert_eq!(fp, ExtendedFloat { mant: 0xFFFF << 48, exp: -38 });

    let mut fp = ExtendedFloat { mant: u64::MAX, exp: -5 };
    assert_eq!(fp.normalize(), 0);
    assert_eq!(fp, ExtendedFloat { mant: u64::MAX, exp: -5 });
}

#[test]
fn extended_float_into_float() {
    let double = |mant: u64, exp: i32| -> f64 {
        f64::from_bits(ExtendedFloat { mant, exp }.into_float::<Binary64>().bits)
    };
    let single = |mant: u64, exp: i32| -> f32 {
        f32::from_bits(ExtendedFloat { mant, exp }.into_float::<Binary32>().bits)
    };
    assert_eq!(double(0, 0), 0.0);
    assert_eq!(double(1, 0), 1.0);
    assert_eq!(double(3, -1), 1.5);
    assert_eq!(double(1, -1074), 5e-324);
    assert_eq!(double(1, -1075), 0.0);
    assert_eq!(double(3, -1076), 5e-324);
    assert_eq!(double(3, -1075), 1e-323);
    assert_eq!(double(1, 1023), 8.98846567431158e307);
    assert_eq!(double(1, 1024), f64::INFINITY);
    assert_eq!(double(u64::MAX, 960), f64::INFINITY);
    assert_eq!(double((1 << 53) - 1, 971), f64::MAX);
    assert_eq!(double((1 << 54) - 1, 970), f64::INFINITY);
    assert_eq!(double((1 << 54) - 2, 970), f64::MAX);
    // Ties to even.
    assert_eq!(double((1 << 53) + 1, 0), 9007199254740992.0);
    assert_eq!(double((1 << 53) + 3, 0), 9007199254740996.0);
    assert_eq!(double(u64::MAX, 0), 18446744073709551616.0);
    assert_eq!(single(1, 0), 1.0);
    assert_eq!(single(1, -149), 1e-45);
    assert_eq!(single(1, -150), 0.0);
    assert_eq!(single((1 << 24) + 1, 0), 16777216.0);
    assert_eq!(single((1 << 24) + 3, 0), 16777220.0);
    assert_eq!(single(1, 128), f32::INFINITY);
    assert_eq!(single((1 << 24) - 1, 104), f32::MAX);
    for &x in [1e-320f64, 2.2250738585072014e-308, 0.1, 123456.789, 1e300].iter() {
        let bits = x.to_bits();
        let exp = ((bits >> 52) & 0x7ff) as i32;
        let frac = bits & ((1 << 52) - 1);
        let (mant, e2) = if exp == 0 { (frac, -1074) } else { (frac | (1 << 52), exp - 1075) };
        assert_eq!(double(mant, e2), x);
    }
}

#[test]
fn extended_float_into_downward_float() {
    let down = |mant: u64, exp: i32| -> f64 {
        f64::from_bits(ExtendedFloat { mant, exp }.into_downward_float::<Binary64>().bits)
    };
    assert_eq!(down((1 << 53) + 1, 0), 9007199254740992.0);
    assert_eq!(down((1 << 53) + 3, 0), 9007199254740994.0);
    assert_eq!(down(u64::MAX, 0), 18446744073709549568.0);
    assert_eq!(down(3, -1076), 0.0);
    assert_eq!(down(7, -1076), 5e-324);
}
