use minimal_lexical::num::{Binary32, Binary64};
use minimal_lexical::parse::{parse_float, parse_mantissa};
use minimal_lexical::scan;
use rand_core::{RngCore, SeedableRng};
use rand_xorshift::XorShiftRng;

fn double_bits(integer: &str, fraction: &str, exponent: i32) -> u64 {
    parse_float::<Binary64>(integer.as_bytes(), fraction.as_bytes(), exponent).bits
}

fn single_bits(integer: &str, fraction: &str, exponent: i32) -> u32 {
    parse_float::<Binary32>(integer.as_bytes(), fraction.as_bytes(), exponent).bits
}

fn scan_double(text: &str) -> f64 {
    let (float, rest) = scan::parse_float::<Binary64>(text.as_bytes());
    assert_eq!(rest, b"", "{}", text);
    f64::from_bits(float.bits)
}

fn scan_single(text: &str) -> f32 {
    let (float, rest) = scan::parse_float::<Binary32>(text.as_bytes());
    assert_eq!(rest, b"", "{}", text);
    f32::from_bits(float.bits)
}

fn check_against_std(text: &str) {
    let double: f64 = text.parse().unwrap();
    assert_eq!(scan_double(text).to_bits(), double.to_bits(), "double {}", text);
    let single: f32 = text.parse().unwrap();
    assert_eq!(scan_single(text).to_bits(), single.to_bits(), "single {}", text);
}

#[test]
fn parse_one() {
    assert_eq!(double_bits("1", "", 0), 0x3ff0000000000000);
    assert_eq!(single_bits("1", "", 0), 0x3f800000);
}

#[test]
fn parse_integer_and_fraction() {
    assert_eq!(double_bits("123", "456", 0), 0x405edd2f1a9fbe77);
    assert_eq!(f64::from_bits(double_bits("123", "456", 0)), 1.23456e2);
}

#[test]
fn parse_smallest_subnormal() {
    assert_eq!(double_bits("5", "", -324), 0x0000000000000001);
}

#[test]
fn parse_rounds_to_zero() {
    assert_eq!(double_bits("2", "", -324), 0x0000000000000000);
}

#[test]
fn parse_overflows_to_infinity() {
    assert_eq!(double_bits("1", "", 309), 0x7ff0000000000000);
    assert_eq!(single_bits("1", "", 39), 0x7f800000);
}

#[test]
fn parse_halfway_ties_to_even_down() {
    assert_eq!(double_bits("9007199254740993", "", 0), 0x4340000000000000);
}

#[test]
fn parse_halfway_ties_to_even_up() {
    assert_eq!(double_bits("9007199254740995", "", 0), 0x4340000000000002);
}

#[test]
fn parse_zero() {
    assert_eq!(double_bits("", "", 0), 0);
    assert_eq!(double_bits("0", "", 0), 0);
    assert_eq!(double_bits("", "", 400), 0);
    assert_eq!(double_bits("000", "000", -400), 0);
    assert_eq!(single_bits("", "", i32::MAX), 0);
    assert_eq!(single_bits("", "", i32::MIN), 0);
}

#[test]
fn parse_extreme_exponents() {
    assert_eq!(double_bits("1", "", i32::MAX), 0x7ff0000000000000);
    assert_eq!(double_bits("1", "", i32::MIN), 0);
    assert_eq!(double_bits("1", "5", i32::MIN), 0);
    assert_eq!(double_bits("12345678901234567890123", "", i32::MAX), 0x7ff0000000000000);
    assert_eq!(double_bits("", "12345678901234567890123", i32::MIN), 0);
    assert_eq!(single_bits("9", "", i32::MAX), 0x7f800000);
    assert_eq!(single_bits("9", "", i32::MIN), 0);
}

#[test]
fn parse_mantissa_keeps_what_fits() {
    assert_eq!(parse_mantissa(b"", b""), (0, 0));
    assert_eq!(parse_mantissa(b"123", b"456"), (123456, 0));
    assert_eq!(parse_mantissa(b"18446744073709551615", b""), (18446744073709551615, 0));
    assert_eq!(parse_mantissa(b"18446744073709551616", b""), (1844674407370955161, 1));
    assert_eq!(parse_mantissa(b"1844674407370955161", b"6789"), (1844674407370955161, 4));
    assert_eq!(parse_mantissa(b"99999999999999999999", b"5"), (9999999999999999999, 2));
    assert_eq!(parse_mantissa(b"", b"00000000000000000000000001"), (1, 0));
    assert_eq!(parse_mantissa(b"1", b"00000000000000000000000001"), (10000000000000000000, 7));
}

#[test]
fn parse_near_the_smallest_subnormal() {
    // The point halfway between zero and the smallest subnormal is
    // 2.4703282292062327208...e-324.
    assert_eq!(double_bits("2470328229206232720", "", -342), 0);
    assert_eq!(double_bits("2470328229206232721", "", -342), 1);
    assert_eq!(double_bits("2", "4703282292062327208", -324), 0);
    assert_eq!(double_bits("2", "4703282292062327209", -324), 1);
    assert_eq!(double_bits("2", "4703282292062328", -324), 1);
    assert_eq!(double_bits("3", "", -324), 1);
    assert_eq!(double_bits("7", "4", -324), 1);
    assert_eq!(double_bits("7", "5", -324), 2);
}

#[test]
fn parse_near_the_largest_double() {
    assert_eq!(scan_double("1.7976931348623157e308"), f64::MAX);
    assert_eq!(scan_double("1.7976931348623158e308"), f64::MAX);
    assert_eq!(scan_double("1.7976931348623159e308"), f64::INFINITY);
    assert_eq!(
        scan_double("179769313486231580793728971405303415079934132710037826936173778980444968292764750946649017977587207096330286416692887910946555547851940402630657488671505820681908902000708383676273854845817711531764475730270069855571366959622842914819860834936475292719074168444365510704342711559699508093042880177904174497791"),
        f64::MAX
    );
    assert_eq!(
        scan_double("179769313486231580793728971405303415079934132710037826936173778980444968292764750946649017977587207096330286416692887910946555547851940402630657488671505820681908902000708383676273854845817711531764475730270069855571366959622842914819860834936475292719074168444365510704342711559699508093042880177904174497792"),
        f64::INFINITY
    );
    assert_eq!(scan_single("3.4028235e38"), f32::MAX);
    assert_eq!(scan_single("3.4028236e38"), f32::INFINITY);
    assert_eq!(scan_single("340282356779733661637539395458142568447"), f32::MAX);
    assert_eq!(scan_single("340282356779733661637539395458142568448"), f32::INFINITY);
}

#[test]
fn parse_agrees_with_std_on_hard_cases() {
    let cases = [
        "1",
        "123.456",
        "5e-324",
        "2e-324",
        "1e309",
        "9007199254740993",
        "9007199254740995",
        "1e23",
        "8.5e-324",
        "2.2250738585072011e-308",
        "2.2250738585072012e-308",
        "2.2250738585072014e-308",
        "4.9406564584124654e-324",
        "1.00000000000000011102230246251565404236316680908203125",
        "1.00000000000000011102230246251565404236316680908203124",
        "1.00000000000000011102230246251565404236316680908203126",
        "1.00000000000000033306690738754696212708950042724609375",
        "7.0064923216240853546186479164495806564013097093825788587853914943e-46",
        "7.0064923216240853546186479164495806564013097093825788587853914944e-46",
        "1.1754943508222875e-38",
        "1.1754942106924411e-38",
        "16777217",
        "16777219",
        "33554434",
        "0.1",
        "0.3",
        "6.02214076e23",
        "1e-400",
        "1e400",
        "123e15",
        "123e16",
        "4628372940652459e-17",
        "26383446160308229e-272",
        "26383446160308230e-272",
        "18446744073709551615",
        "18446744073709551616",
        "184467440737095516150",
        "184467440737095516159999e-3",
        "0.000000000000000000000000000000000000000000000000001e-280",
        "100000000000000000000000000000000000000000000000000000000000000000000000000000000",
        "8.98846567431158e307",
        "4.35e-321",
        "1448997445238699.19e-13",
    ];
    for text in cases.iter() {
        check_against_std(text);
    }
}

#[test]
fn parse_agrees_with_std_on_long_digit_strings() {
    let mut zeros_then_one = String::from("0.");
    for _ in 0..400 {
        zeros_then_one.push('0');
    }
    zeros_then_one.push('1');
    check_against_std(&zeros_then_one);

    let mut one_then_zeros = String::from("1");
    for _ in 0..400 {
        one_then_zeros.push('0');
    }
    check_against_std(&one_then_zeros);

    let mut nines = String::new();
    for _ in 0..800 {
        nines.push('9');
    }
    check_against_std(&format!("{}e-500", nines));
    check_against_std(&format!("0.{}", nines));
    check_against_std(&format!("{}.{}e-1100", nines, nines));

    // More digits than the slow path reads: the rest only says "more".
    let mut halfway = String::from("9007199254740993");
    check_against_std(&halfway);
    for _ in 0..800 {
        halfway.push('0');
    }
    check_against_std(&format!("{}e-800", halfway));
    halfway.push('1');
    check_against_std(&format!("{}e-801", halfway));
    check_against_std(&format!("0.{}e16", halfway));
}

#[test]
fn parse_takes_digits_that_are_not_trimmed() {
    let mut rng = XorShiftRng::from_seed([11; 16]);
    for _ in 0..3000 {
        let count = 1 + rng.next_u32() % 30;
        let mut integer = String::from("000");
        let mut fraction = String::new();
        for _ in 0..count {
            integer.push(char::from_digit(rng.next_u32() % 10, 10).unwrap());
            fraction.push(char::from_digit(rng.next_u32() % 10, 10).unwrap());
        }
        for _ in 0..(rng.next_u32() % 900) {
            fraction.push('0');
        }
        let exponent = (rng.next_u32() % 600) as i32 - 300;
        let expected: f64 = format!("{}.{}e{}", integer, fraction, exponent).parse().unwrap();
        assert_eq!(double_bits(&integer, &fraction, exponent), expected.to_bits());
        let expected: f32 = format!("{}.{}e{}", integer, fraction, exponent).parse().unwrap();
        assert_eq!(single_bits(&integer, &fraction, exponent), expected.to_bits());
    }
}

#[test]
fn parse_agrees_with_std_on_repeated_digits() {
    for digit in 0..10u32 {
        let mut text = String::from("0.");
        for count in 0..400 {
            text.push(char::from_digit(digit, 10).unwrap());
            if count % 7 == 0 || count > 390 {
                let double: f64 = text.parse().unwrap();
                let (float, rest) = scan::parse_float::<Binary64>(text.as_bytes());
                assert_eq!(rest, b"");
                assert_eq!(float.bits, double.to_bits(), "{}", text);
            }
        }
    }
}

#[test]
fn parse_agrees_with_std_on_halfway_points() {
    // The point halfway between a double and the next, in decimal, and
    // numbers just beside it.
    let mut rng = XorShiftRng::from_seed([7; 16]);
    for _ in 0..3000 {
        let k = (rng.next_u32() % 32) as i32;
        let mantissa = (rng.next_u64() >> 11) | (1 << 52);
        // (2 * mantissa + 1) * 2^-(k + 1) == (2 * mantissa + 1) * 5^(k + 1) * 10^-(k + 1)
        let mut digits = (2 * mantissa as u128 + 1) * 5u128.pow((k + 1) as u32);
        let exponent = -(k + 1);
        check_against_std(&format!("{}e{}", digits, exponent));
        check_against_std(&format!("{}1e{}", digits, exponent - 1));
        check_against_std(&format!("{}000000000000000000001e{}", digits, exponent - 21));
        digits -= 1;
        check_against_std(&format!("{}9e{}", digits, exponent - 1));
        check_against_std(&format!("{}99999999999999999999e{}", digits, exponent - 20));
    }
}

#[test]
fn parse_agrees_with_std_on_halfway_points_of_singles() {
    let mut rng = XorShiftRng::from_seed([9; 16]);
    for _ in 0..3000 {
        let k = (rng.next_u32() % 40) as i32;
        let mantissa = ((rng.next_u32() >> 9) | (1 << 23)) as u128;
        let mut digits = (2 * mantissa + 1) * 5u128.pow((k + 1) as u32);
        let exponent = -(k + 1);
        check_against_std(&format!("{}e{}", digits, exponent));
        check_against_std(&format!("{}1e{}", digits, exponent - 1));
        digits -= 1;
        check_against_std(&format!("{}9e{}", digits, exponent - 1));
    }
}

#[test]
fn parse_agrees_with_std_on_random_digits() {
    let mut rng = XorShiftRng::from_seed([3; 16]);
    for _ in 0..20000 {
        let count = 1 + rng.next_u32() % 40;
        let mut text = String::new();
        for _ in 0..count {
            text.push(char::from_digit(rng.next_u32() % 10, 10).unwrap());
        }
        let exponent = (rng.next_u32() % 700) as i32 - 370;
        check_against_std(&format!("{}e{}", text, exponent));
        let point = (rng.next_u32() % (count + 1)) as usize;
        let small = (rng.next_u32() % 60) as i32 - 30;
        check_against_std(&format!("{}.{}e{}", &text[..point], &text[point..], small));
    }
}

#[test]
fn round_trip_of_random_doubles() {
    let mut rng = XorShiftRng::from_seed([0; 16]);
    let mut buffer = ryu::Buffer::new();
    let mut count = 0;
    while count < 100000 {
        let input = f64::from_bits(rng.next_u64());
        if input.is_finite() {
            let printed = buffer.format_finite(input);
            let (output, rest) = scan::parse_float::<Binary64>(printed.as_bytes());
            assert_eq!(f64::from_bits(output.bits).to_bits(), input.to_bits(), "{}", printed);
            assert_eq!(rest, b"");
            count += 1;
        }
    }
}

#[test]
fn round_trip_of_singles() {
    let mut buffer = ryu::Buffer::new();
    let mut bits: u32 = 0;
    while bits < 0x7f800000 {
        let input = f32::from_bits(bits);
        let printed = buffer.format_finite(input);
        let (output, rest) = scan::parse_float::<Binary32>(printed.as_bytes());
        assert_eq!(output.bits, bits, "{}", printed);
        assert_eq!(rest, b"");
        bits += 9973;
    }
    for bits in (0..2000u32).chain(0x7f7ff000..0x7f800000).chain(0x007ff000..0x00801000) {
        let input = f32::from_bits(bits);
        let printed = buffer.format_finite(input);
        let (output, _) = scan::parse_float::<Binary32>(printed.as_bytes());
        assert_eq!(output.bits, bits, "{}", printed);
    }
}

#[test]
fn round_trip_of_subnormal_and_edge_doubles() {
    let mut buffer = ryu::Buffer::new();
    let edges = (0..3000u64)
        .chain(0x000ffffffffff000..0x0010000000001000)
        .chain(0x7feffffffffff000..0x7ff0000000000000);
    for bits in edges {
        let input = f64::from_bits(bits);
        let printed = buffer.format_finite(input);
        let (output, _) = scan::parse_float::<Binary64>(printed.as_bytes());
        assert_eq!(output.bits, bits, "{}", printed);
    }
}

#[test]
fn appended_digits_do_not_decrease_the_value() {
    let mut rng = XorShiftRng::from_seed([5; 16]);
    for _ in 0..2000 {
        let count = 1 + rng.next_u32() % 30;
        let mut fraction = String::new();
        for _ in 0..count {
            fraction.push(char::from_digit(rng.next_u32() % 10, 10).unwrap());
        }
        let exponent = (rng.next_u32() % 600) as i32 - 300;
        let base = scan_double(&format!("1.{}e{}", fraction, exponent));
        let zeros = scan_double(&format!("1.{}000e{}", fraction, exponent));
        assert_eq!(base.to_bits(), zeros.to_bits());
        let digit = 1 + rng.next_u32() % 9;
        let more = scan_double(&format!("1.{}{}e{}", fraction, digit, exponent));
        assert!(more >= base);
    }
}
