use minimal_lexical::bhcomp::bhcomp;
use minimal_lexical::bignum::{Bigint, Comparison};
use minimal_lexical::num::{Binary32, Binary64};

#[test]
fn bigint_from_u64() {
    assert_eq!(Bigint::new().data, Vec::<u32>::new());
    assert_eq!(Bigint::from_u64(0).data, Vec::<u32>::new());
    assert_eq!(Bigint::from_u64(1).data, vec![1]);
    assert_eq!(Bigint::from_u64(0xFFFF_FFFF).data, vec![0xFFFF_FFFF]);
    assert_eq!(Bigint::from_u64(0x1_0000_0000).data, vec![0, 1]);
    assert_eq!(Bigint::from_u64(u64::MAX).data, vec![0xFFFF_FFFF, 0xFFFF_FFFF]);
}

#[test]
fn bigint_small_operations() {
    let mut x = Bigint::from_u64(u64::MAX);
    x.iadd_small(1);
    assert_eq!(x.data, vec![0, 0, 1]);
    x.imul_small(0xFFFF_FFFF);
    assert_eq!(x.data, vec![0, 0, 0xFFFF_FFFF]);
    x.iadd_small(0xFFFF_FFFF);
    assert_eq!(x.data, vec![0xFFFF_FFFF, 0, 0xFFFF_FFFF]);
    x.imul_small(0x1_0001);
    assert_eq!(x.data, vec![0xFFFE_FFFF, 0x1_0000, 0xFFFE_FFFF, 0x1_0000]);
    x.imul_small(0);
    assert_eq!(x.data, Vec::<u32>::new());
    x.iadd_small(0);
    assert_eq!(x.data, Vec::<u32>::new());
    x.iadd_small(7);
    assert_eq!(x.data, vec![7]);
}

#[test]
fn bigint_powers() {
    let mut x = Bigint::from_u64(1);
    x.imul_pow5(27);
    assert_eq!(x.data, vec![0xFA10079D, 0x6765C793]);
    let mut y = Bigint::from_u64(3);
    y.imul_pow2(65);
    assert_eq!(y.data, vec![0, 0, 6]);
    let mut y = Bigint::from_u64(0xFFFF_FFFF);
    y.imul_pow2(4);
    assert_eq!(y.data, vec![0xFFFF_FFF0, 0xF]);
    let mut y = Bigint::from_u64(5);
    y.imul_pow2(0);
    assert_eq!(y.data, vec![5]);
    let mut z = Bigint::from_u64(1);
    z.imul_pow10(20);
    assert_eq!(z.data, vec![0x63100000, 0x6BC75E2D, 5]);
    let mut zero = Bigint::new();
    zero.imul_pow10(100);
    assert_eq!(zero.data, Vec::<u32>::new());
    // 10^40 both ways.
    let mut a = Bigint::from_u64(1);
    a.imul_pow10(40);
    let mut b = Bigint::from_u64(10_000_000_000_000_000_000);
    b.imul_pow5(21);
    b.imul_pow2(21);
    assert_eq!(a.compare(&b), Comparison::Equal);
}

#[test]
fn bigint_compare() {
    let zero = Bigint::new();
    let one = Bigint::from_u64(1);
    let big = Bigint::from_u64(u64::MAX);
    let mut bigger = Bigint::from_u64(u64::MAX);
    bigger.iadd_small(1);
    assert_eq!(zero.compare(&zero), Comparison::Equal);
    assert_eq!(zero.compare(&one), Comparison::Less);
    assert_eq!(one.compare(&zero), Comparison::Greater);
    assert_eq!(big.compare(&bigger), Comparison::Less);
    assert_eq!(bigger.compare(&big), Comparison::Greater);
    assert_eq!(bigger.compare(&bigger), Comparison::Equal);
    let low = Bigint::from_u64(0x1_0000_0002);
    let high = Bigint::from_u64(0x2_0000_0001);
    assert_eq!(low.compare(&high), Comparison::Less);
    assert_eq!(high.compare(&low), Comparison::Greater);
}

#[test]
fn bhcomp_chooses_by_the_halfway_point() {
    let double = |b: f64, integer: &str, fraction: &str, exponent: i32| -> f64 {
        let b = Binary64 { bits: b.to_bits() };
        f64::from_bits(bhcomp(b, integer.as_bytes(), fraction.as_bytes(), exponent).bits)
    };
    // Halfway between 2^53 and the next double: ties to even.
    assert_eq!(double(9007199254740992.0, "9007199254740993", "", 0), 9007199254740992.0);
    assert_eq!(double(9007199254740994.0, "9007199254740995", "", 0), 9007199254740996.0);
    assert_eq!(double(9007199254740992.0, "9007199254740993", "0000000001", 0), 9007199254740994.0);
    assert_eq!(double(9007199254740992.0, "9007199254740992", "9999999999", 0), 9007199254740992.0);
    assert_eq!(double(9007199254740992.0, "9007199254740993", "", 3), 9007199254740994.0);
    assert_eq!(double(9007199254740992.0, "", "9007199254740993", 16), 9007199254740992.0);
    assert_eq!(double(9007199254740992.0, "", "0009007199254740993", 19), 9007199254740992.0);
    // Between zero and the smallest subnormal.
    assert_eq!(double(0.0, "2470328229206232720", "", -342), 0.0);
    assert_eq!(double(0.0, "2470328229206232721", "", -342), 5e-324);
    // Between the largest double and infinity.
    assert_eq!(double(f64::MAX, "17976931348623158", "", 292), f64::MAX);
    assert_eq!(double(f64::MAX, "17976931348623159", "", 292), f64::INFINITY);
    let single = |b: f32, integer: &str, fraction: &str, exponent: i32| -> f32 {
        let b = Binary32 { bits: b.to_bits() };
        f32::from_bits(bhcomp(b, integer.as_bytes(), fraction.as_bytes(), exponent).bits)
    };
    assert_eq!(single(16777216.0, "16777217", "", 0), 16777216.0);
    assert_eq!(single(16777218.0, "16777219", "", 0), 16777220.0);
    assert_eq!(single(16777216.0, "16777217", "000001", 0), 16777218.0);
}
