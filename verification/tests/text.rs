//! Tests of reading numbers and hexadecimal from text.
use pemv::error::ParseError;
use pemv::util::{hex_str_to_u16, hex_str_to_u32, hex_str_to_u64, parse_hex_str, parse_str_to_u16};

#[test]
fn hex_to_integers() {
    assert_eq!(Ok(0x1234), hex_str_to_u16("0x1234"));
    assert_eq!(Ok(0xABCD), hex_str_to_u16("abcd"));
    assert_eq!(Ok(0x12), hex_str_to_u16("0x0x12"));
    assert_eq!(Ok(0x12), hex_str_to_u16("+12"));
    assert_eq!(Err(ParseError::InvalidNumber), hex_str_to_u16("0x10000"));
    assert_eq!(Err(ParseError::InvalidNumber), hex_str_to_u16(""));
    assert_eq!(Err(ParseError::InvalidNumber), hex_str_to_u16("0x"));
    assert_eq!(Err(ParseError::InvalidNumber), hex_str_to_u16("+"));
    assert_eq!(Err(ParseError::InvalidNumber), hex_str_to_u16("-1"));
    assert_eq!(Err(ParseError::InvalidNumber), hex_str_to_u16("0X12"));
    assert_eq!(Ok(0xFFFF_FFFF), hex_str_to_u32("FFFFFFFF"));
    assert_eq!(Err(ParseError::InvalidNumber), hex_str_to_u32("1FFFFFFFF"));
    assert_eq!(Ok(u64::MAX), hex_str_to_u64("0xFFFFFFFFFFFFFFFF"));
    assert_eq!(Err(ParseError::InvalidNumber), hex_str_to_u64("0x10000000000000000"));
}

#[test]
fn decimal_to_u16() {
    assert_eq!(Ok(220), parse_str_to_u16("220"));
    assert_eq!(Ok(65535), parse_str_to_u16("+65535"));
    assert_eq!(Err(ParseError::InvalidNumber), parse_str_to_u16("65536"));
    assert_eq!(Err(ParseError::InvalidNumber), parse_str_to_u16("2A"));
    assert_eq!(Err(ParseError::InvalidNumber), parse_str_to_u16(""));
}

#[test]
fn lenient_hex_bytes() {
    assert_eq!(vec![0x5Fu8, 0x24], parse_hex_str("5F24"));
    assert_eq!(vec![0x0Au8, 0xBC], parse_hex_str("a bc"));
    assert_eq!(vec![0x12u8, 0x34], parse_hex_str("12:34"));
    assert_eq!(Vec::<u8>::new(), parse_hex_str("xyz"));
}
