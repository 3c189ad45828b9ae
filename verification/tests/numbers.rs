use msp430_asm::utils::radix::{from_dec_or_hex, parse_decimal, parse_hex, NumberError};
use std::num::IntErrorKind;

fn by_std(s: &str) -> Result<u16, NumberError> {
    let parsed = match s.parse::<u16>() {
        Ok(decimal) => Ok(decimal),
        Err(_) => u16::from_str_radix(s.to_uppercase().trim_start_matches("0X"), 16),
    };
    parsed.map_err(|error| match error.kind() {
        IntErrorKind::Empty => NumberError::Empty,
        IntErrorKind::InvalidDigit => NumberError::InvalidDigit,
        IntErrorKind::PosOverflow => NumberError::PosOverflow,
        other => panic!("{:?}", other),
    })
}

#[test]
fn decimal_numbers() {
    assert_eq!(from_dec_or_hex("0"), Ok(0));
    assert_eq!(from_dec_or_hex("31"), Ok(31));
    assert_eq!(from_dec_or_hex("+12"), Ok(12));
    assert_eq!(from_dec_or_hex("10000"), Ok(10000));
    assert_eq!(from_dec_or_hex("65535"), Ok(65535));
    assert_eq!(from_dec_or_hex("0000000000000000000042"), Ok(42));
}

#[test]
fn hexadecimal_numbers() {
    assert_eq!(from_dec_or_hex("0x1f"), Ok(0x1f));
    assert_eq!(from_dec_or_hex("0X1F"), Ok(0x1f));
    assert_eq!(from_dec_or_hex("1f"), Ok(0x1f));
    assert_eq!(from_dec_or_hex("ffff"), Ok(0xffff));
    assert_eq!(from_dec_or_hex("0xFFFF"), Ok(0xffff));
    assert_eq!(from_dec_or_hex("0x0"), Ok(0));
    assert_eq!(from_dec_or_hex("0x+a"), Ok(10));
    assert_eq!(from_dec_or_hex("0x0X0x10"), Ok(0x10));
    assert_eq!(from_dec_or_hex("0b11"), Ok(0x0b11));
}

#[test]
fn decimal_reading_comes_first() {
    assert_eq!(from_dec_or_hex("10"), Ok(10));
    assert_eq!(from_dec_or_hex("0x10"), Ok(16));
    assert_eq!(from_dec_or_hex("9999"), Ok(9999));
    assert_eq!(from_dec_or_hex("99999"), Err(NumberError::PosOverflow));
}

#[test]
fn texts_that_are_no_numbers() {
    assert_eq!(from_dec_or_hex(""), Err(NumberError::Empty));
    assert_eq!(from_dec_or_hex("0x"), Err(NumberError::Empty));
    assert_eq!(from_dec_or_hex("0x0X"), Err(NumberError::Empty));
    assert_eq!(from_dec_or_hex("+"), Err(NumberError::InvalidDigit));
    assert_eq!(from_dec_or_hex("-"), Err(NumberError::InvalidDigit));
    assert_eq!(from_dec_or_hex("-1"), Err(NumberError::InvalidDigit));
    assert_eq!(from_dec_or_hex("++1"), Err(NumberError::InvalidDigit));
    assert_eq!(from_dec_or_hex("+0x1"), Err(NumberError::InvalidDigit));
    assert_eq!(from_dec_or_hex("g"), Err(NumberError::InvalidDigit));
    assert_eq!(from_dec_or_hex("12 "), Err(NumberError::InvalidDigit));
    assert_eq!(from_dec_or_hex("0x12345"), Err(NumberError::PosOverflow));
    assert_eq!(from_dec_or_hex("65536"), Err(NumberError::PosOverflow));
    assert_eq!(from_dec_or_hex("10000z"), Err(NumberError::PosOverflow));
    assert_eq!(from_dec_or_hex("1000z0"), Err(NumberError::InvalidDigit));
}

#[test]
fn upper_case_follows_unicode() {
    assert_eq!(from_dec_or_hex("\u{fb00}"), Ok(0xff));
    assert_eq!(parse_hex("\u{fb00}"), Err(NumberError::InvalidDigit));
    assert_eq!(from_dec_or_hex("\u{e9}"), Err(NumberError::InvalidDigit));
}

#[test]
fn decimal_alone() {
    assert_eq!(parse_decimal("123"), Ok(123));
    assert_eq!(parse_decimal("+65535"), Ok(65535));
    assert_eq!(parse_decimal("65536"), Err(NumberError::PosOverflow));
    assert_eq!(parse_decimal("1f"), Err(NumberError::InvalidDigit));
    assert_eq!(parse_decimal("0x10"), Err(NumberError::InvalidDigit));
    assert_eq!(parse_decimal(""), Err(NumberError::Empty));
    assert_eq!(parse_decimal("+"), Err(NumberError::InvalidDigit));
}

#[test]
fn hexadecimal_alone() {
    assert_eq!(parse_hex("10"), Ok(16));
    assert_eq!(parse_hex("0X10"), Ok(16));
    assert_eq!(parse_hex("0X0XAB"), Ok(0xab));
    assert_eq!(parse_hex("ab"), Ok(0xab));
    assert_eq!(parse_hex("0x10"), Err(NumberError::InvalidDigit));
    assert_eq!(parse_hex("0X"), Err(NumberError::Empty));
    assert_eq!(parse_hex("0"), Ok(0));
    assert_eq!(parse_hex("0XG"), Err(NumberError::InvalidDigit));
    assert_eq!(parse_hex("10000"), Err(NumberError::PosOverflow));
}

#[test]
fn numbers_read_as_the_standard_library_reads_them() {
    let samples = [
        "", "0", "7", "42", "+42", "-42", "+", "-", "++", "65535", "65536", "99999", "0x", "0X",
        "0x0", "0xffff", "0x10000", "ffff", "FFFF", "fFfF", "10000", "0x0x0x1", "0x+1", "+0x1",
        "x", "0xg", "12a", "a12", "1 2", " 12", "12 ", "0b101", "0o17", "1_000", "\u{fb00}",
        "\u{fb01}", "\u{df}", "0x\u{fb00}", "\u{660}", "123456789", "00000000000000001",
        "0x00000000000000001", "fffff", "0XX1", "00X1", "0X0", "9999z", "99999z", "ffffz",
        "fffffz",
    ];
    for sample in samples {
        assert_eq!(from_dec_or_hex(sample), by_std(sample), "{:?}", sample);
    }
}

#[test]
fn every_number_is_read_back_in_both_radices() {
    for number in 0..=u16::MAX {
        assert_eq!(from_dec_or_hex(&format!("{}", number)), Ok(number));
        assert_eq!(from_dec_or_hex(&format!("{:#x}", number)), Ok(number));
        assert_eq!(from_dec_or_hex(&format!("{:#X}", number)), Ok(number));
        assert_eq!(parse_hex(&format!("{:X}", number)), Ok(number));
    }
}

#[test]
fn number_error_messages() {
    assert_eq!(NumberError::Empty.to_string(), "cannot parse integer from empty string");
    assert_eq!(NumberError::InvalidDigit.to_string(), "invalid digit found in string");
    assert_eq!(NumberError::PosOverflow.to_string(), "number too large to fit in target type");
}
