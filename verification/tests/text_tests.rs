use std::num::IntErrorKind;

use mplus_leaderboard::text::{parse_u32, push_decimal, push_zero_padded, same_text, NumberError};

#[test]
fn parse_u32_reads_plain_and_signed_numbers() {
    assert_eq!(parse_u32("0"), Ok(0));
    assert_eq!(parse_u32("42"), Ok(42));
    assert_eq!(parse_u32("+42"), Ok(42));
    assert_eq!(parse_u32("007"), Ok(7));
    assert_eq!(parse_u32("4294967295"), Ok(4294967295));
}

#[test]
fn parse_u32_tells_the_failures_apart() {
    assert_eq!(parse_u32(""), Err(NumberError::Empty));
    assert_eq!(parse_u32("+"), Err(NumberError::InvalidDigit));
    assert_eq!(parse_u32("-"), Err(NumberError::InvalidDigit));
    assert_eq!(parse_u32("-1"), Err(NumberError::InvalidDigit));
    assert_eq!(parse_u32("12a"), Err(NumberError::InvalidDigit));
    assert_eq!(parse_u32(" 1"), Err(NumberError::InvalidDigit));
    assert_eq!(parse_u32("++1"), Err(NumberError::InvalidDigit));
    assert_eq!(parse_u32("4294967296"), Err(NumberError::PosOverflow));
    assert_eq!(parse_u32("99999999999999999999"), Err(NumberError::PosOverflow));
    assert_eq!(parse_u32("99999999999x"), Err(NumberError::PosOverflow));
    assert_eq!(parse_u32("9x9999999999"), Err(NumberError::InvalidDigit));
    assert_eq!(parse_u32("\u{0661}\u{0662}"), Err(NumberError::InvalidDigit));
}

fn std_kind(s: &str) -> Result<u32, NumberError> {
    s.parse::<u32>().map_err(|e| match e.kind() {
        IntErrorKind::Empty => NumberError::Empty,
        IntErrorKind::InvalidDigit => NumberError::InvalidDigit,
        IntErrorKind::PosOverflow => NumberError::PosOverflow,
        other => panic!("unexpected kind {:?}", other),
    })
}

#[test]
fn parse_u32_agrees_with_std() {
    let cases = [
        "", "0", "1", "+1", "-0", "-1", "+", "-", "00", "4294967295", "4294967296", "12x", "x12",
        "１２", "\u{0663}", "18446744073709551616", "+0000000000000000004", "42949672950x",
        "4294967295x", "+-1", "99999999999999999999x", "1234567x",
    ];
    for c in cases.iter() {
        assert_eq!(parse_u32(c), std_kind(c), "on {:?}", c);
    }
}

#[test]
fn number_errors_use_std_wording() {
    for c in ["", "x", "4294967296"].iter() {
        let ours = parse_u32(c).unwrap_err();
        let theirs = c.parse::<u32>().unwrap_err();
        assert_eq!(ours.message(), theirs.to_string());
    }
}

#[test]
fn push_decimal_writes_shortest_digits() {
    for n in [0u32, 7, 10, 99, 100, 676, 4294967295].iter() {
        let mut s = String::from("x");
        push_decimal(&mut s, *n);
        assert_eq!(s, format!("x{}", n));
    }
}

#[test]
fn decimal_rendering_reads_back() {
    for n in [0u32, 1, 9, 10, 12345, 4294967295].iter() {
        let mut s = String::new();
        push_decimal(&mut s, *n);
        assert_eq!(parse_u32(&s), Ok(*n));
    }
}

#[test]
fn push_zero_padded_pads_to_width() {
    let mut s = String::new();
    push_zero_padded(&mut s, 7, 2);
    assert_eq!(s, "07");
    let mut s = String::new();
    push_zero_padded(&mut s, 123, 2);
    assert_eq!(s, "123");
    let mut s = String::new();
    push_zero_padded(&mut s, 42, 4);
    assert_eq!(s, "0042");
    let mut s = String::new();
    push_zero_padded(&mut s, 0, 0);
    assert_eq!(s, "0");
}

#[test]
fn same_text_compares_characters() {
    assert!(same_text("Freehold", "Freehold"));
    assert!(!same_text("Freehold", "freehold"));
    assert!(!same_text("", "a"));
    assert!(same_text("", ""));
}
