use minimal_lexical::algorithm::{fallback_path, fast_path};
use minimal_lexical::bhcomp::bhcomp;
use minimal_lexical::lemire::eisel_lemire;
use minimal_lexical::num::{Binary32, Binary64, Float};

fn as_single(f: Option<Binary32>) -> Option<f32> {
    f.map(|x| f32::from_bits(x.bits))
}

fn as_double(f: Option<Binary64>) -> Option<f64> {
    f.map(|x| f64::from_bits(x.bits))
}

#[test]
fn float_fast_path_test() {
    // valid
    let mantissa = (1 << Binary32::mantissa_size()) - 1;
    let (min_exp, max_exp) = Binary32::exponent_limit();
    for exp in min_exp..max_exp + 1 {
        let f = fast_path::<Binary32>(mantissa, exp);
        assert!(f.is_some(), "should be valid {:?}.", (mantissa, exp));
    }

    // Check slightly above valid exponents
    let f = fast_path::<Binary32>(123, 15);
    assert_eq!(as_single(f), Some(1.23e+17));

    // Exponent is 1 too high, pushes over the mantissa.
    let f = fast_path::<Binary32>(123, 16);
    assert!(f.is_none());

    // Mantissa is too large, checked_mul should overflow.
    let f = fast_path::<Binary32>(mantissa, 11);
    assert!(f.is_none());

    // invalid exponents
    let (min_exp, max_exp) = Binary32::exponent_limit();
    let f = fast_path::<Binary32>(mantissa, min_exp - 1);
    assert!(f.is_none(), "exponent under min_exp");

    let f = fast_path::<Binary32>(mantissa, max_exp + 1);
    assert!(f.is_none(), "exponent above max_exp");
}

#[test]
fn double_fast_path_test() {
    // valid
    let mantissa = (1 << Binary64::mantissa_size()) - 1;
    let (min_exp, max_exp) = Binary64::exponent_limit();
    for exp in min_exp..max_exp + 1 {
        let f = fast_path::<Binary64>(mantissa, exp);
        assert!(f.is_some(), "should be valid {:?}.", (mantissa, exp));
    }

    // invalid exponents
    let (min_exp, max_exp) = Binary64::exponent_limit();
    let f = fast_path::<Binary64>(mantissa, min_exp - 1);
    assert!(f.is_none(), "exponent under min_exp");

    let f = fast_path::<Binary64>(mantissa, max_exp + 1);
    assert!(f.is_none(), "exponent above max_exp");

    assert_eq!(
        Some(0.04628372940652459),
        as_double(fast_path::<Binary64>(4628372940652459, -17))
    );
    assert_eq!(None, as_double(fast_path::<Binary64>(26383446160308229, -272)));
}

#[test]
fn fast_path_agrees_with_hardware_double() {
    let mantissas: [u64; 9] = [
        0,
        1,
        3,
        7,
        123456789,
        4503599627370495,
        4503599627370497,
        9007199254740991,
        6004799503160661,
    ];
    for &mantissa in mantissas.iter() {
        for exp in -22..=22i32 {
            let float = mantissa as f64;
            let power = 10f64.powi(exp.abs());
            let expected = if exp >= 0 { float * power } else { float / power };
            let got = as_double(fast_path::<Binary64>(mantissa, exp));
            assert_eq!(got.map(f64::to_bits), Some(expected.to_bits()), "{}e{}", mantissa, exp);
        }
    }
}

#[test]
fn fast_path_agrees_with_hardware_single() {
    let mantissas: [u64; 7] = [0, 1, 3, 123456, 8388607, 8388609, 16777215];
    for &mantissa in mantissas.iter() {
        for exp in -10..=10i32 {
            let float = mantissa as f32;
            let power = 10f32.powi(exp.abs());
            let expected = if exp >= 0 { float * power } else { float / power };
            let got = as_single(fast_path::<Binary32>(mantissa, exp));
            assert_eq!(got.map(f32::to_bits), Some(expected.to_bits()), "{}e{}", mantissa, exp);
        }
    }
}

#[test]
fn fast_path_rejects_wide_significand() {
    assert!(fast_path::<Binary64>(1 << 53, 0).is_none());
    assert!(fast_path::<Binary64>((1 << 53) - 1, 0).is_some());
    assert!(fast_path::<Binary32>(1 << 24, 0).is_none());
    assert!(fast_path::<Binary32>((1 << 24) - 1, 0).is_some());
}

#[test]
fn fast_path_disguised_exponent() {
    // 10^(22 + 15) is the largest power reached by moving digits.
    assert_eq!(as_double(fast_path::<Binary64>(1, 37)), Some(1e37));
    assert_eq!(as_double(fast_path::<Binary64>(1, 38)), None);
    assert_eq!(as_double(fast_path::<Binary64>(9, 37)), Some(9e37));
    assert_eq!(as_double(fast_path::<Binary64>(5, 33)), Some(5e33));
    // The significand times the excess power does not fit.
    assert_eq!(as_double(fast_path::<Binary64>(9007199254740991, 23)), None);
}

#[test]
fn paths_agree_where_they_overlap() {
    let mantissas: [u64; 8] =
        [1, 3, 7, 123456789, 4503599627370495, 4503599627370497, 9007199254740991, 6004799503160661];
    for &mantissa in mantissas.iter() {
        for exp in -22..=37i32 {
            if let Some(fast) = fast_path::<Binary64>(mantissa, exp) {
                let (float, valid) = eisel_lemire::<Binary64>(mantissa, exp);
                if valid {
                    assert_eq!(float.bits, fast.bits, "{}e{}", mantissa, exp);
                }
                let digits = mantissa.to_string();
                let slow = bhcomp(fast, digits.as_bytes(), b"", exp);
                assert_eq!(slow.bits, fast.bits, "{}e{}", mantissa, exp);
                let fallback =
                    fallback_path::<Binary64>(digits.as_bytes(), b"", mantissa, exp, exp, false);
                assert_eq!(fallback.bits, fast.bits, "{}e{}", mantissa, exp);
            }
        }
    }
}
