use typst::color::RgbaColor;
use typst::geom::Unit;
use typst::number::push_decimal;
use typst::number::push_nat;
use typst::number::Number;
use typst::pretty::pretty;
use typst::pretty::Printer;
use typst::syntax::Expr;

fn decimal(coefficient: u64, exponent: i32) -> String {
    pretty(&Number::Finite { negative: false, coefficient, exponent })
}

/// The coefficient and exponent of a finite float, read off its shortest
/// scientific form.
fn number_of(x: f64) -> Number {
    let text = format!("{:e}", x);
    let (mantissa, exponent) = text.split_once('e').unwrap();
    let negative = mantissa.starts_with('-');
    let digits: String = mantissa.chars().filter(|c| c.is_ascii_digit()).collect();
    let fraction = mantissa.split_once('.').map_or(0, |(_, f)| f.len());
    let exponent = exponent.parse::<i32>().unwrap() - fraction as i32;
    Number::Finite { negative, coefficient: digits.parse().unwrap(), exponent }
}

#[test]
fn test_integers() {
    assert_eq!(pretty(&0i64), "0");
    assert_eq!(pretty(&7i64), "7");
    assert_eq!(pretty(&10i64), "10");
    assert_eq!(pretty(&120i64), "120");
    assert_eq!(pretty(&-1i64), "-1");
    assert_eq!(pretty(&-305i64), "-305");
    assert_eq!(pretty(&i64::MAX), "9223372036854775807");
    assert_eq!(pretty(&i64::MIN), "-9223372036854775808");
    assert_eq!(pretty(&Expr::Int(-42)), "-42");
}

#[test]
fn test_integers_agree_with_std() {
    for v in [0i64, 1, 9, 10, 11, 99, 100, 101, 12345, -1, -9, -10, -99999, i64::MAX, i64::MIN] {
        assert_eq!(pretty(&v), format!("{}", v));
    }
}

#[test]
fn test_natural_digits() {
    let mut p = Printer::new();
    push_nat(&mut p, 0);
    push_nat(&mut p, 18446744073709551615);
    assert_eq!(p.finish(), "018446744073709551615");
}

#[test]
fn test_decimal_trailing_zeros_are_dropped() {
    assert_eq!(decimal(250, -2), "2.5");
    assert_eq!(decimal(25, -1), "2.5");
    assert_eq!(decimal(2500, -3), "2.5");
    assert_eq!(decimal(100, -2), "1");
    assert_eq!(decimal(1000, -2), "10");
    assert_eq!(decimal(10, -3), "0.01");
}

#[test]
fn test_decimal_exponent_is_written_out() {
    assert_eq!(decimal(1, 2), "100");
    assert_eq!(decimal(1, 0), "1");
    assert_eq!(decimal(12, 3), "12000");
    assert_eq!(decimal(1, 21), "1000000000000000000000");
    assert_eq!(decimal(1, -7), "0.0000001");
    assert_eq!(decimal(10, -4), "0.001");
}

#[test]
fn test_decimal_fractions() {
    assert_eq!(decimal(5, -1), "0.5");
    assert_eq!(decimal(105, -2), "1.05");
    assert_eq!(decimal(1005, -1), "100.5");
    assert_eq!(decimal(314159, -5), "3.14159");
    assert_eq!(decimal(123, -3), "0.123");
    assert_eq!(decimal(123, -5), "0.00123");
}

#[test]
fn test_decimal_text_goes_by_value() {
    for (c, e) in [(25u64, -1i32), (1, 2), (5, 0), (123, -5), (7, -25), (0, 3)] {
        let mut scaled = c;
        for k in 0..4 {
            assert_eq!(decimal(scaled, e - k), decimal(c, e));
            scaled *= 10;
        }
    }
}

#[test]
fn test_decimal_zero() {
    assert_eq!(decimal(0, 0), "0");
    assert_eq!(decimal(0, 5), "0");
    assert_eq!(decimal(0, -5), "0");
    assert_eq!(pretty(&Number::Finite { negative: true, coefficient: 0, exponent: 0 }), "-0");
}

#[test]
fn test_decimal_long_fractions() {
    // The coefficient has twenty digits, the most that it can have.
    assert_eq!(decimal(u64::MAX, -19), "1.8446744073709551615");
    assert_eq!(decimal(u64::MAX, -20), "0.18446744073709551615");
    assert_eq!(decimal(u64::MAX, -21), "0.018446744073709551615");
    assert_eq!(decimal(u64::MAX, -1), "1844674407370955161.5");
    assert_eq!(decimal(7, -25), "0.0000000000000000000000007");
    assert_eq!(decimal(10_000_000_000_000_000_000, -19), "1");
    assert_eq!(decimal(10_000_000_000_000_000_000, -20), "0.1");
    assert_eq!(decimal(10_000_000_000_000_000_000, -45), "0.00000000000000000000000001");
}

#[test]
fn test_decimal_appends() {
    let mut p = Printer::new();
    p.push_str("x");
    push_decimal(&mut p, 15, -1);
    p.push_str("y");
    assert_eq!(p.finish(), "x1.5y");
}

#[test]
fn test_negative_and_special_numbers() {
    assert_eq!(pretty(&Number::Finite { negative: true, coefficient: 25, exponent: -1 }), "-2.5");
    assert_eq!(pretty(&Number::Infinite { negative: false }), "inf");
    assert_eq!(pretty(&Number::Infinite { negative: true }), "-inf");
    assert_eq!(pretty(&Number::Nan), "NaN");
}

#[test]
fn test_numbers_agree_with_float_formatting() {
    let samples = [
        0.0, 1.0, 2.5, 2.50, 1e2, 100.0, 0.1, 0.001, 1e-7, 1e21, 123.456, 3.14159, 1.5e300, 5e-324,
        1.7976931348623157e308, -2.5, -1e2, 0.30000000000000004, 1234567.0, 12.0, 50.0,
    ];
    for x in samples {
        assert_eq!(pretty(&number_of(x)), format!("{}", x));
    }
}

#[test]
fn test_lengths_and_percentages() {
    let twelve = Number::Finite { negative: false, coefficient: 12, exponent: 0 };
    assert_eq!(pretty(&Expr::Length(twelve, Unit::Pt)), "12pt");
    assert_eq!(pretty(&Expr::Length(number_of(2.5), Unit::Mm)), "2.5mm");
    assert_eq!(pretty(&Expr::Length(number_of(3.0), Unit::Cm)), "3cm");
    assert_eq!(pretty(&Expr::Length(number_of(0.5), Unit::In)), "0.5in");
    assert_eq!(pretty(&Expr::Percent(number_of(50.0))), "50%");
    assert_eq!(pretty(&Expr::Percent(number_of(12.5))), "12.5%");
    assert_eq!(pretty(&Unit::Pt), "pt");
}

#[test]
fn test_colors() {
    assert_eq!(pretty(&RgbaColor::new(0xff, 0xcc, 0xee, 0xff)), "#ffccee");
    assert_eq!(pretty(&RgbaColor::new(0xf7, 0x91, 0x43, 0xff)), "#f79143");
    assert_eq!(pretty(&RgbaColor::new(0, 1, 0x0a, 0xff)), "#00010a");
    assert_eq!(pretty(&RgbaColor::new(0x12, 0x34, 0x56, 0x78)), "#12345678");
    assert_eq!(pretty(&RgbaColor::new(0, 0, 0, 0)), "#00000000");
    assert_eq!(pretty(&Expr::Color(RgbaColor::new(0xff, 0xff, 0xff, 0xff))), "#ffffff");
}
