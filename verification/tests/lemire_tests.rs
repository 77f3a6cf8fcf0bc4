use minimal_lexical::lemire;
use minimal_lexical::num::{Binary32, Binary64};

fn lemire_double(mantissa: u64, exponent: i32) -> (f64, bool) {
    let (f, valid) = lemire::eisel_lemire::<Binary64>(mantissa, exponent);
    (f64::from_bits(f.bits), valid)
}

fn moderate_double(mantissa: u64, exponent: i32, truncated: bool) -> (f64, bool) {
    let (f, valid) = lemire::moderate_path::<Binary64>(mantissa, exponent, truncated);
    (f64::from_bits(f.bits), valid)
}

#[test]
fn test_halfway_round_down() {
    // Check only Eisel-Lemire.
    assert_eq!((9007199254740992.0, true), lemire_double(9007199254740992, 0));
    assert_eq!((0.0, false), lemire_double(9007199254740993, 0));
    assert_eq!((9007199254740994.0, true), lemire_double(9007199254740994, 0));
    assert_eq!((9223372036854775808.0, true), lemire_double(9223372036854775808, 0));
    assert_eq!((0.0, false), lemire_double(9223372036854776832, 0));
    assert_eq!((9223372036854777856.0, true), lemire_double(9223372036854777856, 0));

    // We can't get an accurate representation here.
    assert_eq!((0.0, false), lemire_double(9007199254740992000, -3));
    assert_eq!((0.0, false), lemire_double(9007199254740993000, -3));
    assert_eq!((0.0, false), lemire_double(9007199254740994000, -3));

    // Check with the extended-float backup.
    assert_eq!((9007199254740992.0, true), moderate_double(9007199254740992, 0, false));
    assert_eq!((9007199254740992.0, false), moderate_double(9007199254740993, 0, false));
    assert_eq!((9007199254740994.0, true), moderate_double(9007199254740994, 0, false));
    assert_eq!((9223372036854775808.0, true), moderate_double(9223372036854775808, 0, false));
    assert_eq!((9223372036854775808.0, false), moderate_double(9223372036854776832, 0, false));
    assert_eq!((9223372036854777856.0, true), moderate_double(9223372036854777856, 0, false));

    // We can't get an accurate from Lemire representation here.
    assert_eq!((9007199254740992.0, true), moderate_double(9007199254740992000, -3, false));
    assert_eq!((9007199254740992.0, false), moderate_double(9007199254740993000, -3, false));
    assert_eq!((9007199254740994.0, true), moderate_double(9007199254740994000, -3, false));
}

#[test]
fn test_halfway_round_up() {
    // Check only Eisel-Lemire.
    assert_eq!((9007199254740994.0, true), lemire_double(9007199254740994, 0));
    assert_eq!((9007199254740996.0, true), lemire_double(9007199254740995, 0));
    assert_eq!((9007199254740996.0, true), lemire_double(9007199254740996, 0));
    assert_eq!((18014398509481988.0, true), lemire_double(18014398509481988, 0));
    assert_eq!((18014398509481992.0, true), lemire_double(18014398509481990, 0));
    assert_eq!((18014398509481992.0, true), lemire_double(18014398509481992, 0));
    assert_eq!((9223372036854777856.0, true), lemire_double(9223372036854777856, 0));
    assert_eq!((9223372036854779904.0, true), lemire_double(9223372036854778880, 0));
    assert_eq!((9223372036854779904.0, true), lemire_double(9223372036854779904, 0));

    // We can't get an accurate representation here.
    assert_eq!((0.0, false), lemire_double(9007199254740994000, -3));
    assert_eq!((0.0, false), lemire_double(9007199254740995000, -3));
    assert_eq!((0.0, false), lemire_double(9007199254740996000, -3));

    // Check with the extended-float backup.
    assert_eq!((9007199254740994.0, true), moderate_double(9007199254740994, 0, false));
    assert_eq!((9007199254740996.0, true), moderate_double(9007199254740995, 0, false));
    assert_eq!((9007199254740996.0, true), moderate_double(9007199254740996, 0, false));
    assert_eq!((18014398509481988.0, true), moderate_double(18014398509481988, 0, false));
    assert_eq!((18014398509481992.0, true), moderate_double(18014398509481990, 0, false));
    assert_eq!((18014398509481992.0, true), moderate_double(18014398509481992, 0, false));
    assert_eq!((9223372036854777856.0, true), moderate_double(9223372036854777856, 0, false));
    assert_eq!((9223372036854779904.0, true), moderate_double(9223372036854778880, 0, false));
    assert_eq!((9223372036854779904.0, true), moderate_double(9223372036854779904, 0, false));

    // We can't get an accurate from Lemire representation here.
    assert_eq!((9007199254740994.0, true), moderate_double(9007199254740994000, -3, false));
    assert_eq!((9007199254740994.0, false), moderate_double(9007199254740995000, -3, false));
    assert_eq!((9007199254740996.0, true), moderate_double(9007199254740996000, -3, false));
}

#[test]
fn test_mul() {
    let e1 = 11529215046068469760; // 1e1
    let e10 = 10737418240000000000; // 1e10
    assert_eq!((0x5D21DBA000000000, 0x0000000000000000), lemire::mul(e1, e10));

    let e9 = 17179869184000000000; // 1e9
    let e70 = 13363823550460978230; // 1e70
    assert_eq!((0xACB92ED9397BF995, 0xA23A700000000000), lemire::mul(e9, e70));

    // e289
    let e280 = 10162340898095201970; // 1e280
    assert_eq!((0x83585D8FD9C25DB6, 0xFC31D00000000000), lemire::mul(e9, e280));

    // e290
    let e0 = 9223372036854775808; // 1e0
    let e290 = 11830521861667747109; // 1e290
    assert_eq!((0x52173A79E8197A92, 0x8000000000000000), lemire::mul(e0, e290));
}

#[test]
fn mul_is_the_full_product() {
    let cases: [(u64, u64); 6] = [
        (0, 0),
        (1, u64::MAX),
        (u64::MAX, u64::MAX),
        (0x1_0000_0000, 0x1_0000_0000),
        (0xDEADBEEFCAFEBABE, 0x0123456789ABCDEF),
        (3, 5),
    ];
    for &(x, y) in cases.iter() {
        let product = (x as u128) * (y as u128);
        assert_eq!(lemire::mul(x, y), ((product >> 64) as u64, product as u64));
    }
}

#[test]
fn lemire_outside_the_table() {
    let (f, valid) = lemire::eisel_lemire::<Binary64>(1, -343);
    assert_eq!((f.bits, valid), (0, true));
    let (f, valid) = lemire::eisel_lemire::<Binary64>(1, 309);
    assert_eq!((f.bits, valid), (0x7ff0000000000000, true));
    let (f, valid) = lemire::eisel_lemire::<Binary32>(u64::MAX, 400);
    assert_eq!((f.bits, valid), (0x7f800000, true));
}

#[test]
fn lemire_single_precision() {
    let single = |mantissa: u64, exponent: i32| -> (f32, bool) {
        let (f, valid) = lemire::eisel_lemire::<Binary32>(mantissa, exponent);
        (f32::from_bits(f.bits), valid)
    };
    assert_eq!(single(1, 0), (1.0, true));
    assert_eq!(single(123456, -3), (123.456, true));
    assert_eq!(single(16777216, 0), (16777216.0, true));
    assert_eq!(single(16777217, 0), (0.0, false));
    assert_eq!(single(16777218, 0), (16777218.0, true));
    assert_eq!(single(34028235, 31), (3.4028235e38, true));
    assert_eq!(single(1, 39), (f32::INFINITY, true));
}

#[test]
fn moderate_path_with_truncated_digits() {
    // Both the significand and the next one round to the same double.
    assert_eq!(moderate_double(12345678901234567890, 0, true), (12345678901234567168.0, true));
    assert_eq!(moderate_double(12345678901234567890, -5, true), (123456789012345.67, true));
    // Doubles near 1.8e19 are 2048 apart: a significand just below the
    // point halfway between two of them, whose successor is that point.
    let below = 18014398509481984000 + 1023;
    let (f, valid) = moderate_double(below, 0, true);
    assert_eq!((f, valid), (18014398509481984000.0, false));
    let (f, valid) = moderate_double(below, 0, false);
    assert_eq!((f, valid), (18014398509481984000.0, true));
    let (f, valid) = moderate_double(below + 1, 0, false);
    assert_eq!((f, valid), (18014398509481984000.0, false));
    let (f, valid) = moderate_double(below + 2, 0, true);
    assert_eq!((f, valid), (18014398509481986048.0, true));
    // A significand with no successor goes to the extended path.
    let (f, valid) = moderate_double(u64::MAX, 0, true);
    assert_eq!((f, valid), (18446744073709551616.0, true));
    let (f, valid) = moderate_double(u64::MAX, 0, false);
    assert_eq!((f, valid), (18446744073709551616.0, true));
}
