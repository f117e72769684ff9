//! Properties shared by every value stored as bit flags: the byte count, that
//! distinct bits give distinct values that are written back unchanged, and
//! that each bit is displayed at its own offset.
use std::fmt::Debug;

use pemv::emv::additional_terminal_capabilities::AdditionalTerminalCapabilities;
use pemv::emv::bitflag_values::{BitflagValue, EnabledBitRange};
use pemv::emv::ccd::cvr::CardVerificationResults;
use pemv::emv::terminal_capabilities::TerminalCapabilities;
use pemv::emv::tsi::TransactionStatusInformation;
use pemv::emv::tvr::TerminalVerificationResults;
use pemv::error::{Comparison, ParseError};
use pemv::BITS_PER_BYTE;

fn parse<T>(bytes: &[u8]) -> Result<T, ParseError>
where
    T: for<'a> TryFrom<&'a [u8], Error = ParseError>,
{
    T::try_from(bytes)
}

fn check_wrong_byte_count<T>(byte_count: usize)
where
    T: for<'a> TryFrom<&'a [u8], Error = ParseError> + Debug + PartialEq,
{
    let expected = Err(ParseError::ByteCountIncorrect {
        comparison: Comparison::Equal,
        expected: byte_count,
        found: byte_count + 1,
    });
    let result = parse::<T>(vec![0x00; byte_count + 1].as_slice());
    assert_eq!(expected, result);
}

fn check_unique_values<T>(byte_count: usize)
where
    T: for<'a> TryFrom<&'a [u8], Error = ParseError> + BitflagValue + Debug + PartialEq,
{
    let empty_result = parse::<T>(vec![0x00; byte_count].as_slice()).unwrap();
    let mut results: Vec<T> = Vec::new();
    for byte_index in 0..byte_count {
        for bit_index in 0..BITS_PER_BYTE {
            let mut testing_vec = vec![0x00; byte_count];
            testing_vec[byte_index] |= 0b1 << bit_index;
            let result = parse::<T>(testing_vec.as_slice()).unwrap();
            if result == empty_result {
                continue;
            }
            assert_eq!(testing_vec, result.get_binary_representation());
            assert!(!results.contains(&result), "two bits gave the same value: {result:?}");
            results.push(result);
        }
    }
}

fn check_display_bits<T>(byte_count: usize)
where
    T: for<'a> TryFrom<&'a [u8], Error = ParseError> + BitflagValue + Debug + PartialEq,
{
    let empty_result = parse::<T>(vec![0x00; byte_count].as_slice()).unwrap();
    let empty_info = empty_result.get_bit_display_information();
    let mut empty_offsets: Vec<u8> = Vec::new();
    for range in &empty_info {
        assert!(!empty_offsets.contains(&range.offset));
        empty_offsets.push(range.offset);
    }
    let mut seen: Vec<Vec<EnabledBitRange>> = Vec::new();
    for byte_index in 0..byte_count {
        for bit_index in 0..BITS_PER_BYTE as usize {
            let mut testing_vec = vec![0x00; byte_count];
            testing_vec[byte_index] |= 0b1 << bit_index;
            let result = parse::<T>(testing_vec.as_slice()).unwrap();
            if result == empty_result {
                continue;
            }
            let info = result.get_bit_display_information();
            assert!(info.len() >= empty_info.len());
            assert!(info.len() - empty_info.len() <= 1);
            for range in &info {
                if empty_offsets.contains(&range.offset) {
                    continue;
                }
                let bit_offset = (byte_count - 1 - byte_index) * BITS_PER_BYTE as usize + bit_index;
                assert!(bit_offset <= range.offset as usize);
                assert!(bit_offset + range.len as usize > range.offset as usize);
                assert!(!seen.contains(&info));
                seen.push(info.clone());
                break;
            }
        }
    }
}

#[test]
fn tvr_wrong_byte_count() {
    check_wrong_byte_count::<TerminalVerificationResults>(5);
}

#[test]
fn tvr_unique_values() {
    check_unique_values::<TerminalVerificationResults>(5);
}

#[test]
fn tvr_display_bits() {
    check_display_bits::<TerminalVerificationResults>(5);
}

#[test]
fn tsi_wrong_byte_count() {
    check_wrong_byte_count::<TransactionStatusInformation>(2);
}

#[test]
fn tsi_unique_values() {
    check_unique_values::<TransactionStatusInformation>(2);
}

#[test]
fn tsi_display_bits() {
    check_display_bits::<TransactionStatusInformation>(2);
}

#[test]
fn terminal_capabilities_wrong_byte_count() {
    check_wrong_byte_count::<TerminalCapabilities>(3);
}

#[test]
fn terminal_capabilities_unique_values() {
    check_unique_values::<TerminalCapabilities>(3);
}

#[test]
fn terminal_capabilities_display_bits() {
    check_display_bits::<TerminalCapabilities>(3);
}

#[test]
fn additional_terminal_capabilities_wrong_byte_count() {
    check_wrong_byte_count::<AdditionalTerminalCapabilities>(5);
}

#[test]
fn additional_terminal_capabilities_unique_values() {
    check_unique_values::<AdditionalTerminalCapabilities>(5);
}

#[test]
fn additional_terminal_capabilities_display_bits() {
    check_display_bits::<AdditionalTerminalCapabilities>(5);
}

#[test]
fn cvr_wrong_byte_count() {
    check_wrong_byte_count::<CardVerificationResults>(5);
}

#[test]
fn cvr_unique_values() {
    check_unique_values::<CardVerificationResults>(5);
}

#[test]
fn cvr_display_bits() {
    check_display_bits::<CardVerificationResults>(5);
}

/// The binary representation of a TVR with a few bits set, and its display.
#[test]
fn tvr_binary_and_display() {
    let tvr = TerminalVerificationResults::try_from([0x80u8, 0x00, 0x20, 0x00, 0x10].as_slice()).unwrap();
    assert!(tvr.offline_data_authentication_not_performed);
    assert!(tvr.pin_try_limit_exceeded);
    assert!(tvr.script_processing_failed_after_final_gen_ac);
    assert_eq!(vec![0x80u8, 0x00, 0x20, 0x00, 0x10], tvr.get_binary_representation());
    let offsets: Vec<u8> = tvr.get_bit_display_information().iter().map(|range| range.offset).collect();
    assert_eq!(vec![39u8, 21, 4], offsets);
}

/// Unused bits are cleared when a value is written back.
#[test]
fn tvr_unused_bits_cleared() {
    let tvr = TerminalVerificationResults::try_from([0xFFu8; 5].as_slice()).unwrap();
    assert_eq!(vec![0xFCu8, 0xF8, 0xFC, 0xF8, 0xF0], tvr.get_binary_representation());
}

/// Reading a number gives the value of its low five bytes.
#[test]
fn tvr_new_matches_parse() {
    let expected = TerminalVerificationResults::try_from([0x12u8, 0x34, 0x56, 0x78, 0x9A].as_slice()).unwrap();
    assert_eq!(expected, TerminalVerificationResults::new(0xFF12_3456_789A));
}

/// Counters of the CVR are shown as decimal numbers.
#[test]
fn cvr_counters_displayed() {
    let cvr = CardVerificationResults::try_from([0xA2u8, 0xC0, 0x00, 0x10, 0x00].as_slice()).unwrap();
    assert_eq!(12, cvr.pin_try_count);
    let info = cvr.get_bit_display_information();
    assert_eq!(
        "Application cryptogram type returned in 2nd GENERATE AC: Second GENERATE AC not requested",
        info[0].explanation
    );
    assert_eq!("Application cryptogram type returned in 1st GENERATE AC: ARQC (Authorization Request Cryptogram)", info[1].explanation);
    assert!(info.iter().any(|range| range.explanation == "PIN try count: 12" && range.offset == 31 && range.len == 4));
    assert_eq!(vec![0xA2u8, 0xC0, 0x00, 0x10, 0x00], cvr.get_binary_representation());
}

/// Ranges are equal when they cover the same bits with the same severity.
#[test]
fn enabled_bit_ranges_ignore_explanations() {
    let tsi = TransactionStatusInformation::try_from([0x80u8, 0x00].as_slice()).unwrap();
    let mut info = tsi.get_bit_display_information();
    let original = info.clone();
    info[0].explanation = String::from("Something else");
    assert_eq!(original, info);
}
