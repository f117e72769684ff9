//! The text of a bit flag breakdown.

use pemv::emv::bitflag_values::{EnabledBitRange, Severity};
use pemv::emv::bitflag_values::BitflagValue;
use pemv::emv::breakdown::{binary_line, header_line, needs_header, range_arm};
use pemv::emv::ccd::cvr::CardVerificationResults;
use pemv::emv::tvr::TerminalVerificationResults;

fn range(offset: u8, len: u8, explanation: &str) -> EnabledBitRange {
	EnabledBitRange {
		offset,
		len,
		explanation: explanation.to_owned(),
		severity: Severity::Normal,
	}
}

fn sample_ranges() -> Vec<EnabledBitRange> {
	vec![range(15, 1, "A"), range(13, 3, "B"), range(2, 1, "C")]
}

#[test]
fn binary_line_spaces_bytes() {
	assert_eq!(binary_line(&[0xA0, 0x04]), "10100000 00000100");
	assert_eq!(binary_line(&[0xFF]), "11111111");
	assert_eq!(binary_line(&[]), "");
}

#[test]
fn header_marks_each_range() {
	let ranges = sample_ranges();
	assert!(needs_header(&ranges));
	assert_eq!(header_line(16, &ranges), "\u{2502} \u{251c}\u{2500}\u{2518}         \u{2502}");
}

#[test]
fn header_not_needed_for_single_bits() {
	let ranges = vec![range(7, 1, "A"), range(0, 1, "B")];
	assert!(!needs_header(&ranges));
	assert!(!needs_header(&[]));
}

#[test]
fn range_arms_reach_their_bits() {
	let ranges = sample_ranges();
	assert_eq!(range_arm(16, &ranges, 0), "\u{2514} ");
	assert_eq!(range_arm(16, &ranges, 1), "\u{2502} \u{2514} ");
	assert_eq!(
		range_arm(16, &ranges, 2),
		"\u{2502} \u{2502}           \u{2514} "
	);
}

#[test]
fn two_bit_range_mark() {
	let ranges = vec![range(7, 2, "A"), range(3, 1, "B")];
	assert_eq!(header_line(8, &ranges), "\u{251c}\u{2518}  \u{2502}");
}

#[test]
fn terminal_verification_results_breakdown_lines() {
	let tvr = TerminalVerificationResults::try_from([0x80, 0x00, 0x00, 0x00, 0x80].as_slice()).unwrap();
	let bytes = tvr.get_binary_representation();
	let ranges = tvr.get_bit_display_information();
	assert_eq!(binary_line(&bytes), "10000000 00000000 00000000 00000000 10000000");
	assert_eq!(ranges.len(), 2);
	assert!(!needs_header(&ranges));
	assert_eq!(range_arm(40, &ranges, 0), "\u{2514} ");
	let expected = format!("\u{2502}{}\u{2514} ", " ".repeat(35));
	assert_eq!(range_arm(40, &ranges, 1), expected);
}

#[test]
fn card_verification_results_header_line() {
	let cvr = CardVerificationResults::try_from([0x00, 0x00, 0x00, 0x00, 0x00].as_slice()).unwrap();
	let ranges = cvr.get_bit_display_information();
	assert!(needs_header(&ranges));
	let expected = format!(
		"\u{251c}\u{2518}\u{251c}\u{2518}{}\u{251c}\u{2500}\u{2500}\u{2518}{}\u{251c}\u{2500}\u{2500}\u{2518}",
		" ".repeat(5),
		" ".repeat(14)
	);
	assert_eq!(header_line(40, &ranges), expected);
}
