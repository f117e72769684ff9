//! Everything for handling Terminal Verification Results (TVR) values.
//!
//! Information for this can be found in EMV Book 3, under section `C5`.
use vstd::prelude::*;

use crate::emv::bitflag_values::{
    group_range_at, range_at,
    append_bit_ranges, bit_range, bit_range_models, bits_to_byte, byte_from_bits, lemma_bits_of_byte, lemma_byte_of_bits,
    push_bit_range_if, push_if, group_bit_range_order, lemma_concat_in_order, ranges_in_order, ranges_left_of, ranges_start_at_most, BitRangeModel, BitflagValue, EnabledBitRange, Severity,
};
use crate::error::{Comparison, ParseError};
use vstd::std_specs::convert::TryFromSpecImpl;

verus! {

/// Terminal Verification Results (TVR), as checked against the Issuer Action Codes.
#[derive(Clone, Copy, Debug, PartialEq, Eq, Structural, Hash)]
pub struct TerminalVerificationResults {
    pub offline_data_authentication_not_performed: bool,
    pub sda_failed: bool,
    pub icc_data_missing: bool,
    pub terminal_card_exception: bool,
    pub dda_failed: bool,
    pub cda_failed: bool,
    pub icc_terminal_version_mismatch: bool,
    pub expired_application: bool,
    pub application_not_yet_effective: bool,
    pub requested_service_not_allowed: bool,
    pub new_card: bool,
    pub cardholder_verification_unsuccessful: bool,
    pub unrecognized_cvm: bool,
    pub pin_try_limit_exceeded: bool,
    pub pin_entry_required_but_no_pinpad: bool,
    pub pin_entry_required_but_no_entry: bool,
    pub online_pin_entered: bool,
    pub transaction_exceeds_floor_limit: bool,
    pub consecutive_offline_limit_lower_exceeded: bool,
    pub consecutive_offline_limit_upper_exceeded: bool,
    pub transaction_selected_for_online_processing: bool,
    pub merchant_forced_transaction_online: bool,
    pub default_tdol_used: bool,
    pub issuer_authentication_failed: bool,
    pub script_processing_failed_before_final_gen_ac: bool,
    pub script_processing_failed_after_final_gen_ac: bool,
}

impl TerminalVerificationResults {
    /// The value written by raw bytes (`5` of them).
    pub open spec fn spec_from_bytes(bytes: Seq<u8>) -> TerminalVerificationResults {
        TerminalVerificationResults {
            offline_data_authentication_not_performed: bytes[0] & 0x80u8 != 0,
            sda_failed: bytes[0] & 0x40u8 != 0,
            icc_data_missing: bytes[0] & 0x20u8 != 0,
            terminal_card_exception: bytes[0] & 0x10u8 != 0,
            dda_failed: bytes[0] & 0x08u8 != 0,
            cda_failed: bytes[0] & 0x04u8 != 0,
            icc_terminal_version_mismatch: bytes[1] & 0x80u8 != 0,
            expired_application: bytes[1] & 0x40u8 != 0,
            application_not_yet_effective: bytes[1] & 0x20u8 != 0,
            requested_service_not_allowed: bytes[1] & 0x10u8 != 0,
            new_card: bytes[1] & 0x08u8 != 0,
            cardholder_verification_unsuccessful: bytes[2] & 0x80u8 != 0,
            unrecognized_cvm: bytes[2] & 0x40u8 != 0,
            pin_try_limit_exceeded: bytes[2] & 0x20u8 != 0,
            pin_entry_required_but_no_pinpad: bytes[2] & 0x10u8 != 0,
            pin_entry_required_but_no_entry: bytes[2] & 0x08u8 != 0,
            online_pin_entered: bytes[2] & 0x04u8 != 0,
            transaction_exceeds_floor_limit: bytes[3] & 0x80u8 != 0,
            consecutive_offline_limit_lower_exceeded: bytes[3] & 0x40u8 != 0,
            consecutive_offline_limit_upper_exceeded: bytes[3] & 0x20u8 != 0,
            transaction_selected_for_online_processing: bytes[3] & 0x10u8 != 0,
            merchant_forced_transaction_online: bytes[3] & 0x08u8 != 0,
            default_tdol_used: bytes[4] & 0x80u8 != 0,
            issuer_authentication_failed: bytes[4] & 0x40u8 != 0,
            script_processing_failed_before_final_gen_ac: bytes[4] & 0x20u8 != 0,
            script_processing_failed_after_final_gen_ac: bytes[4] & 0x10u8 != 0,
        }
    }

    /// Byte 0 of the raw value; bits without a meaning are clear.
    pub open spec fn spec_byte_0(self) -> u8 {
        byte_from_bits(self.offline_data_authentication_not_performed, self.sda_failed, self.icc_data_missing, self.terminal_card_exception, self.dda_failed, self.cda_failed, false, false)
    }

    /// Byte 1 of the raw value; bits without a meaning are clear.
    pub open spec fn spec_byte_1(self) -> u8 {
        byte_from_bits(self.icc_terminal_version_mismatch, self.expired_application, self.application_not_yet_effective, self.requested_service_not_allowed, self.new_card, false, false, false)
    }

    /// Byte 2 of the raw value; bits without a meaning are clear.
    pub open spec fn spec_byte_2(self) -> u8 {
        byte_from_bits(self.cardholder_verification_unsuccessful, self.unrecognized_cvm, self.pin_try_limit_exceeded, self.pin_entry_required_but_no_pinpad, self.pin_entry_required_but_no_entry, self.online_pin_entered, false, false)
    }

    /// Byte 3 of the raw value; bits without a meaning are clear.
    pub open spec fn spec_byte_3(self) -> u8 {
        byte_from_bits(self.transaction_exceeds_floor_limit, self.consecutive_offline_limit_lower_exceeded, self.consecutive_offline_limit_upper_exceeded, self.transaction_selected_for_online_processing, self.merchant_forced_transaction_online, false, false, false)
    }

    /// Byte 4 of the raw value; bits without a meaning are clear.
    pub open spec fn spec_byte_4(self) -> u8 {
        byte_from_bits(self.default_tdol_used, self.issuer_authentication_failed, self.script_processing_failed_before_final_gen_ac, self.script_processing_failed_after_final_gen_ac, false, false, false, false)
    }

    /// The raw bytes of the value.
    pub open spec fn spec_binary(self) -> Seq<u8> {
        seq![self.spec_byte_0(), self.spec_byte_1(), self.spec_byte_2(), self.spec_byte_3(), self.spec_byte_4()]
    }

    /// `bytes` with the bits that have no meaning cleared.
    pub open spec fn used_bits_of(bytes: Seq<u8>) -> Seq<u8> {
        seq![bytes[0] & 0xFCu8, bytes[1] & 0xF8u8, bytes[2] & 0xFCu8, bytes[3] & 0xF8u8, bytes[4] & 0xF0u8]
    }

    /// Parsing: exactly `5` bytes are required.
    pub open spec fn spec_try_from(bytes: Seq<u8>) -> Result<TerminalVerificationResults, ParseError> {
        if bytes.len() != 5 {
            Err(ParseError::ByteCountIncorrect { comparison: Comparison::Equal, expected: 5, found: bytes.len() as usize })
        } else {
            Ok(TerminalVerificationResults::spec_from_bytes(bytes))
        }
    }

    /// The enabled bits of byte 0, left to right, with their meaning.
    pub open spec fn spec_bit_display_byte_0(self) -> Seq<BitRangeModel> {
        push_if(push_if(push_if(push_if(push_if(push_if(Seq::<BitRangeModel>::empty(), self.offline_data_authentication_not_performed, bit_range(39, 1, "Offline data authentication was not performed"@, Severity::Normal)), self.sda_failed, bit_range(38, 1, "SDA (Static Data Authentication) failed"@, Severity::Error)), self.icc_data_missing, bit_range(37, 1, "ICC data missing"@, Severity::Error)), self.terminal_card_exception, bit_range(36, 1, "Card appears on terminal exception file"@, Severity::Error)), self.dda_failed, bit_range(35, 1, "DDA (Dynamic Data Authentication) failed"@, Severity::Error)), self.cda_failed, bit_range(34, 1, "CDA (Combined Data Authentication) failed"@, Severity::Error))
    }

    /// The enabled bits of byte 1, left to right, with their meaning.
    pub open spec fn spec_bit_display_byte_1(self) -> Seq<BitRangeModel> {
        push_if(push_if(push_if(push_if(push_if(Seq::<BitRangeModel>::empty(), self.icc_terminal_version_mismatch, bit_range(31, 1, "ICC and terminal have different application versions"@, Severity::Warning)), self.expired_application, bit_range(30, 1, "Expired application"@, Severity::Error)), self.application_not_yet_effective, bit_range(29, 1, "Application not yet effective"@, Severity::Error)), self.requested_service_not_allowed, bit_range(28, 1, "Requested service not allowed for card product"@, Severity::Error)), self.new_card, bit_range(27, 1, "New card"@, Severity::Warning))
    }

    /// The enabled bits of byte 2, left to right, with their meaning.
    pub open spec fn spec_bit_display_byte_2(self) -> Seq<BitRangeModel> {
        push_if(push_if(push_if(push_if(push_if(push_if(Seq::<BitRangeModel>::empty(), self.cardholder_verification_unsuccessful, bit_range(23, 1, "Cardholder verification was not successful"@, Severity::Warning)), self.unrecognized_cvm, bit_range(22, 1, "Unrecognised CVM (Cardholder Verification Method)"@, Severity::Warning)), self.pin_try_limit_exceeded, bit_range(21, 1, "PIN try limit exceeded"@, Severity::Error)), self.pin_entry_required_but_no_pinpad, bit_range(20, 1, "PIN entry required and PIN pad not present or not working"@, Severity::Error)), self.pin_entry_required_but_no_entry, bit_range(19, 1, "PIN entry required, PIN pad present, but PIN was not entered (PIN bypass)"@, Severity::Warning)), self.online_pin_entered, bit_range(18, 1, "Online PIN entered"@, Severity::Normal))
    }

    /// The enabled bits of byte 3, left to right, with their meaning.
    pub open spec fn spec_bit_display_byte_3(self) -> Seq<BitRangeModel> {
        push_if(push_if(push_if(push_if(push_if(Seq::<BitRangeModel>::empty(), self.transaction_exceeds_floor_limit, bit_range(15, 1, "Transaction exceeds floor limit"@, Severity::Normal)), self.consecutive_offline_limit_lower_exceeded, bit_range(14, 1, "Lower consecutive offline limit exceeded"@, Severity::Normal)), self.consecutive_offline_limit_upper_exceeded, bit_range(13, 1, "Upper consecutive offline limit exceeded"@, Severity::Normal)), self.transaction_selected_for_online_processing, bit_range(12, 1, "Transaction selected randomly for online processing"@, Severity::Normal)), self.merchant_forced_transaction_online, bit_range(11, 1, "Merchant forced transaction online"@, Severity::Normal))
    }

    /// The enabled bits of byte 4, left to right, with their meaning.
    pub open spec fn spec_bit_display_byte_4(self) -> Seq<BitRangeModel> {
        push_if(push_if(push_if(push_if(Seq::<BitRangeModel>::empty(), self.default_tdol_used, bit_range(7, 1, "Default TDOL (Transaction Certificate Data Object List) used"@, Severity::Normal)), self.issuer_authentication_failed, bit_range(6, 1, "Issuer authentication failed"@, Severity::Error)), self.script_processing_failed_before_final_gen_ac, bit_range(5, 1, "Script processing failed before final GENERATE AC"@, Severity::Error)), self.script_processing_failed_after_final_gen_ac, bit_range(4, 1, "Script processing failed after final GENERATE AC"@, Severity::Error))
    }

    /// The enabled bits, left to right, with their meaning.
    pub open spec fn spec_bit_display(self) -> Seq<BitRangeModel> {
        self.spec_bit_display_byte_0() + self.spec_bit_display_byte_1() + self.spec_bit_display_byte_2() + self.spec_bit_display_byte_3() + self.spec_bit_display_byte_4()
    }

    /// Builds the value from its raw bytes.
    pub fn from_bytes(raw_bytes: &[u8]) -> (value: TerminalVerificationResults)
        requires
            raw_bytes@.len() == 5,
        ensures
            value == TerminalVerificationResults::spec_from_bytes(raw_bytes@),
    {
        TerminalVerificationResults {
            offline_data_authentication_not_performed: raw_bytes[0] & 0x80u8 != 0,
            sda_failed: raw_bytes[0] & 0x40u8 != 0,
            icc_data_missing: raw_bytes[0] & 0x20u8 != 0,
            terminal_card_exception: raw_bytes[0] & 0x10u8 != 0,
            dda_failed: raw_bytes[0] & 0x08u8 != 0,
            cda_failed: raw_bytes[0] & 0x04u8 != 0,
            icc_terminal_version_mismatch: raw_bytes[1] & 0x80u8 != 0,
            expired_application: raw_bytes[1] & 0x40u8 != 0,
            application_not_yet_effective: raw_bytes[1] & 0x20u8 != 0,
            requested_service_not_allowed: raw_bytes[1] & 0x10u8 != 0,
            new_card: raw_bytes[1] & 0x08u8 != 0,
            cardholder_verification_unsuccessful: raw_bytes[2] & 0x80u8 != 0,
            unrecognized_cvm: raw_bytes[2] & 0x40u8 != 0,
            pin_try_limit_exceeded: raw_bytes[2] & 0x20u8 != 0,
            pin_entry_required_but_no_pinpad: raw_bytes[2] & 0x10u8 != 0,
            pin_entry_required_but_no_entry: raw_bytes[2] & 0x08u8 != 0,
            online_pin_entered: raw_bytes[2] & 0x04u8 != 0,
            transaction_exceeds_floor_limit: raw_bytes[3] & 0x80u8 != 0,
            consecutive_offline_limit_lower_exceeded: raw_bytes[3] & 0x40u8 != 0,
            consecutive_offline_limit_upper_exceeded: raw_bytes[3] & 0x20u8 != 0,
            transaction_selected_for_online_processing: raw_bytes[3] & 0x10u8 != 0,
            merchant_forced_transaction_online: raw_bytes[3] & 0x08u8 != 0,
            default_tdol_used: raw_bytes[4] & 0x80u8 != 0,
            issuer_authentication_failed: raw_bytes[4] & 0x40u8 != 0,
            script_processing_failed_before_final_gen_ac: raw_bytes[4] & 0x20u8 != 0,
            script_processing_failed_after_final_gen_ac: raw_bytes[4] & 0x10u8 != 0,
        }
    }

    /// The five bytes of the low 40 bits of `bits`, most significant first.
    pub open spec fn bytes_of_bits(bits: u64) -> Seq<u8> {
        seq![(bits >> 32u64) as u8, (bits >> 24u64) as u8, (bits >> 16u64) as u8, (bits >> 8u64) as u8, bits as u8]
    }

    /// Reads the value from the low 40 bits of `bits`.
    pub fn new(bits: u64) -> (value: TerminalVerificationResults)
        ensures
            value == TerminalVerificationResults::spec_from_bytes(TerminalVerificationResults::bytes_of_bits(bits)),
    {
        let bytes = [(bits >> 32u64) as u8, (bits >> 24u64) as u8, (bits >> 16u64) as u8, (bits >> 8u64) as u8, bits as u8];
        assert(bytes@ =~= TerminalVerificationResults::bytes_of_bits(bits));
        TerminalVerificationResults::from_bytes(bytes.as_slice())
    }

    fn binary_byte_0(&self) -> (byte: u8)
        ensures
            byte == self.spec_byte_0(),
    {
        bits_to_byte(self.offline_data_authentication_not_performed, self.sda_failed, self.icc_data_missing, self.terminal_card_exception, self.dda_failed, self.cda_failed, false, false)
    }

    fn binary_byte_1(&self) -> (byte: u8)
        ensures
            byte == self.spec_byte_1(),
    {
        bits_to_byte(self.icc_terminal_version_mismatch, self.expired_application, self.application_not_yet_effective, self.requested_service_not_allowed, self.new_card, false, false, false)
    }

    fn binary_byte_2(&self) -> (byte: u8)
        ensures
            byte == self.spec_byte_2(),
    {
        bits_to_byte(self.cardholder_verification_unsuccessful, self.unrecognized_cvm, self.pin_try_limit_exceeded, self.pin_entry_required_but_no_pinpad, self.pin_entry_required_but_no_entry, self.online_pin_entered, false, false)
    }

    fn binary_byte_3(&self) -> (byte: u8)
        ensures
            byte == self.spec_byte_3(),
    {
        bits_to_byte(self.transaction_exceeds_floor_limit, self.consecutive_offline_limit_lower_exceeded, self.consecutive_offline_limit_upper_exceeded, self.transaction_selected_for_online_processing, self.merchant_forced_transaction_online, false, false, false)
    }

    fn binary_byte_4(&self) -> (byte: u8)
        ensures
            byte == self.spec_byte_4(),
    {
        bits_to_byte(self.default_tdol_used, self.issuer_authentication_failed, self.script_processing_failed_before_final_gen_ac, self.script_processing_failed_after_final_gen_ac, false, false, false, false)
    }

    fn bit_display_byte_0(&self) -> (ranges: Vec<EnabledBitRange>)
        ensures
            bit_range_models(ranges@) == self.spec_bit_display_byte_0(),
    {
        let ranges: Vec<EnabledBitRange> = Vec::new();
        assert(bit_range_models(ranges@) =~= Seq::<BitRangeModel>::empty());
        let ranges = push_bit_range_if(ranges, self.offline_data_authentication_not_performed, 39, 1, "Offline data authentication was not performed", Severity::Normal);
        let ranges = push_bit_range_if(ranges, self.sda_failed, 38, 1, "SDA (Static Data Authentication) failed", Severity::Error);
        let ranges = push_bit_range_if(ranges, self.icc_data_missing, 37, 1, "ICC data missing", Severity::Error);
        let ranges = push_bit_range_if(ranges, self.terminal_card_exception, 36, 1, "Card appears on terminal exception file", Severity::Error);
        let ranges = push_bit_range_if(ranges, self.dda_failed, 35, 1, "DDA (Dynamic Data Authentication) failed", Severity::Error);
        let ranges = push_bit_range_if(ranges, self.cda_failed, 34, 1, "CDA (Combined Data Authentication) failed", Severity::Error);
        ranges
    }

    fn bit_display_byte_1(&self) -> (ranges: Vec<EnabledBitRange>)
        ensures
            bit_range_models(ranges@) == self.spec_bit_display_byte_1(),
    {
        let ranges: Vec<EnabledBitRange> = Vec::new();
        assert(bit_range_models(ranges@) =~= Seq::<BitRangeModel>::empty());
        let ranges = push_bit_range_if(ranges, self.icc_terminal_version_mismatch, 31, 1, "ICC and terminal have different application versions", Severity::Warning);
        let ranges = push_bit_range_if(ranges, self.expired_application, 30, 1, "Expired application", Severity::Error);
        let ranges = push_bit_range_if(ranges, self.application_not_yet_effective, 29, 1, "Application not yet effective", Severity::Error);
        let ranges = push_bit_range_if(ranges, self.requested_service_not_allowed, 28, 1, "Requested service not allowed for card product", Severity::Error);
        let ranges = push_bit_range_if(ranges, self.new_card, 27, 1, "New card", Severity::Warning);
        ranges
    }

    fn bit_display_byte_2(&self) -> (ranges: Vec<EnabledBitRange>)
        ensures
            bit_range_models(ranges@) == self.spec_bit_display_byte_2(),
    {
        let ranges: Vec<EnabledBitRange> = Vec::new();
        assert(bit_range_models(ranges@) =~= Seq::<BitRangeModel>::empty());
        let ranges = push_bit_range_if(ranges, self.cardholder_verification_unsuccessful, 23, 1, "Cardholder verification was not successful", Severity::Warning);
        let ranges = push_bit_range_if(ranges, self.unrecognized_cvm, 22, 1, "Unrecognised CVM (Cardholder Verification Method)", Severity::Warning);
        let ranges = push_bit_range_if(ranges, self.pin_try_limit_exceeded, 21, 1, "PIN try limit exceeded", Severity::Error);
        let ranges = push_bit_range_if(ranges, self.pin_entry_required_but_no_pinpad, 20, 1, "PIN entry required and PIN pad not present or not working", Severity::Error);
        let ranges = push_bit_range_if(ranges, self.pin_entry_required_but_no_entry, 19, 1, "PIN entry required, PIN pad present, but PIN was not entered (PIN bypass)", Severity::Warning);
        let ranges = push_bit_range_if(ranges, self.online_pin_entered, 18, 1, "Online PIN entered", Severity::Normal);
        ranges
    }

    fn bit_display_byte_3(&self) -> (ranges: Vec<EnabledBitRange>)
        ensures
            bit_range_models(ranges@) == self.spec_bit_display_byte_3(),
    {
        let ranges: Vec<EnabledBitRange> = Vec::new();
        assert(bit_range_models(ranges@) =~= Seq::<BitRangeModel>::empty());
        let ranges = push_bit_range_if(ranges, self.transaction_exceeds_floor_limit, 15, 1, "Transaction exceeds floor limit", Severity::Normal);
        let ranges = push_bit_range_if(ranges, self.consecutive_offline_limit_lower_exceeded, 14, 1, "Lower consecutive offline limit exceeded", Severity::Normal);
        let ranges = push_bit_range_if(ranges, self.consecutive_offline_limit_upper_exceeded, 13, 1, "Upper consecutive offline limit exceeded", Severity::Normal);
        let ranges = push_bit_range_if(ranges, self.transaction_selected_for_online_processing, 12, 1, "Transaction selected randomly for online processing", Severity::Normal);
        let ranges = push_bit_range_if(ranges, self.merchant_forced_transaction_online, 11, 1, "Merchant forced transaction online", Severity::Normal);
        ranges
    }

    fn bit_display_byte_4(&self) -> (ranges: Vec<EnabledBitRange>)
        ensures
            bit_range_models(ranges@) == self.spec_bit_display_byte_4(),
    {
        let ranges: Vec<EnabledBitRange> = Vec::new();
        assert(bit_range_models(ranges@) =~= Seq::<BitRangeModel>::empty());
        let ranges = push_bit_range_if(ranges, self.default_tdol_used, 7, 1, "Default TDOL (Transaction Certificate Data Object List) used", Severity::Normal);
        let ranges = push_bit_range_if(ranges, self.issuer_authentication_failed, 6, 1, "Issuer authentication failed", Severity::Error);
        let ranges = push_bit_range_if(ranges, self.script_processing_failed_before_final_gen_ac, 5, 1, "Script processing failed before final GENERATE AC", Severity::Error);
        let ranges = push_bit_range_if(ranges, self.script_processing_failed_after_final_gen_ac, 4, 1, "Script processing failed after final GENERATE AC", Severity::Error);
        ranges
    }

}

impl<'a> TryFrom<&'a [u8]> for TerminalVerificationResults {
    type Error = ParseError;

    fn try_from(raw_bytes: &'a [u8]) -> (result: Result<TerminalVerificationResults, ParseError>)
        ensures
            result == TerminalVerificationResults::spec_try_from(raw_bytes@),
    {
        if raw_bytes.len() != 5 {
            return Err(ParseError::ByteCountIncorrect { comparison: Comparison::Equal, expected: 5, found: raw_bytes.len() });
        }
        Ok(TerminalVerificationResults::from_bytes(raw_bytes))
    }
}

impl<'a> TryFromSpecImpl<&'a [u8]> for TerminalVerificationResults {
    open spec fn obeys_try_from_spec() -> bool {
        true
    }

    open spec fn try_from_spec(raw_bytes: &'a [u8]) -> Result<TerminalVerificationResults, ParseError> {
        TerminalVerificationResults::spec_try_from(raw_bytes@)
    }
}

impl BitflagValue for TerminalVerificationResults {
    const NUM_BYTES: usize = 5;

    open spec fn spec_binary_representation(&self) -> Seq<u8> {
        self.spec_binary()
    }

    open spec fn spec_bit_display_information(&self) -> Seq<BitRangeModel> {
        self.spec_bit_display()
    }

    fn get_binary_representation(&self) -> (bytes: Vec<u8>) {
        let mut bytes: Vec<u8> = Vec::new();
        bytes.push(self.binary_byte_0());
        bytes.push(self.binary_byte_1());
        bytes.push(self.binary_byte_2());
        bytes.push(self.binary_byte_3());
        bytes.push(self.binary_byte_4());
        assert(bytes@ =~= self.spec_binary());
        bytes
    }

    fn get_bit_display_information(&self) -> (ranges: Vec<EnabledBitRange>) {
        let ranges = self.bit_display_byte_0();
        let ranges = append_bit_ranges(ranges, self.bit_display_byte_1());
        let ranges = append_bit_ranges(ranges, self.bit_display_byte_2());
        let ranges = append_bit_ranges(ranges, self.bit_display_byte_3());
        let ranges = append_bit_ranges(ranges, self.bit_display_byte_4());
        ranges
    }

    proof fn lemma_bit_display_in_order(&self) {
        broadcast use group_bit_range_order;

        let b0 = self.spec_bit_display_byte_0();
        let b1 = self.spec_bit_display_byte_1();
        let b2 = self.spec_bit_display_byte_2();
        let b3 = self.spec_bit_display_byte_3();
        let b4 = self.spec_bit_display_byte_4();
        assert(ranges_in_order(b0, 40) && ranges_left_of(b0, 31));
        assert(ranges_in_order(b1, 40) && ranges_left_of(b1, 23) && ranges_start_at_most(b1, 31));
        assert(ranges_in_order(b2, 40) && ranges_left_of(b2, 15) && ranges_start_at_most(b2, 23));
        assert(ranges_in_order(b3, 40) && ranges_left_of(b3, 7) && ranges_start_at_most(b3, 15));
        assert(ranges_in_order(b4, 40) && ranges_left_of(b4, -1) && ranges_start_at_most(b4, 7));
        lemma_concat_in_order(b0, b1, 40, 31, 23);
        lemma_concat_in_order(b0 + b1, b2, 40, 23, 15);
        lemma_concat_in_order(b0 + b1 + b2, b3, 40, 15, 7);
        lemma_concat_in_order(b0 + b1 + b2 + b3, b4, 40, 7, -1);
    }
}

proof fn lemma_terminal_verification_results_byte_0_of_parsed(bytes: Seq<u8>)
    requires
        bytes.len() == 5,
    ensures
        TerminalVerificationResults::spec_from_bytes(bytes).spec_byte_0() == bytes[0] & 0xFCu8,
{
    lemma_byte_of_bits(bytes[0], 0xFCu8, true, true, true, true, true, true, false, false);
}

proof fn lemma_terminal_verification_results_byte_1_of_parsed(bytes: Seq<u8>)
    requires
        bytes.len() == 5,
    ensures
        TerminalVerificationResults::spec_from_bytes(bytes).spec_byte_1() == bytes[1] & 0xF8u8,
{
    lemma_byte_of_bits(bytes[1], 0xF8u8, true, true, true, true, true, false, false, false);
}

proof fn lemma_terminal_verification_results_byte_2_of_parsed(bytes: Seq<u8>)
    requires
        bytes.len() == 5,
    ensures
        TerminalVerificationResults::spec_from_bytes(bytes).spec_byte_2() == bytes[2] & 0xFCu8,
{
    lemma_byte_of_bits(bytes[2], 0xFCu8, true, true, true, true, true, true, false, false);
}

proof fn lemma_terminal_verification_results_byte_3_of_parsed(bytes: Seq<u8>)
    requires
        bytes.len() == 5,
    ensures
        TerminalVerificationResults::spec_from_bytes(bytes).spec_byte_3() == bytes[3] & 0xF8u8,
{
    lemma_byte_of_bits(bytes[3], 0xF8u8, true, true, true, true, true, false, false, false);
}

proof fn lemma_terminal_verification_results_byte_4_of_parsed(bytes: Seq<u8>)
    requires
        bytes.len() == 5,
    ensures
        TerminalVerificationResults::spec_from_bytes(bytes).spec_byte_4() == bytes[4] & 0xF0u8,
{
    lemma_byte_of_bits(bytes[4], 0xF0u8, true, true, true, true, false, false, false, false);
}

/// Writing parsed bytes back gives the bytes with the bits that have no
/// meaning cleared.
pub proof fn lemma_terminal_verification_results_binary_of_parsed(bytes: Seq<u8>)
    requires
        bytes.len() == 5,
    ensures
        TerminalVerificationResults::spec_from_bytes(bytes).spec_binary() == TerminalVerificationResults::used_bits_of(bytes),
{
    lemma_terminal_verification_results_byte_0_of_parsed(bytes);
    lemma_terminal_verification_results_byte_1_of_parsed(bytes);
    lemma_terminal_verification_results_byte_2_of_parsed(bytes);
    lemma_terminal_verification_results_byte_3_of_parsed(bytes);
    lemma_terminal_verification_results_byte_4_of_parsed(bytes);
    assert(TerminalVerificationResults::spec_from_bytes(bytes).spec_binary() =~= TerminalVerificationResults::used_bits_of(bytes));
}

/// Parsing the bytes of a value gives the value back.
pub proof fn lemma_terminal_verification_results_parse_of_binary(value: TerminalVerificationResults)
    ensures
        TerminalVerificationResults::spec_from_bytes(value.spec_binary()) == value,
{
    let bytes = value.spec_binary();
    lemma_bits_of_byte(value.offline_data_authentication_not_performed, value.sda_failed, value.icc_data_missing, value.terminal_card_exception, value.dda_failed, value.cda_failed, false, false);
    assert(bytes[0] == value.spec_byte_0());
    lemma_bits_of_byte(value.icc_terminal_version_mismatch, value.expired_application, value.application_not_yet_effective, value.requested_service_not_allowed, value.new_card, false, false, false);
    assert(bytes[1] == value.spec_byte_1());
    lemma_bits_of_byte(value.cardholder_verification_unsuccessful, value.unrecognized_cvm, value.pin_try_limit_exceeded, value.pin_entry_required_but_no_pinpad, value.pin_entry_required_but_no_entry, value.online_pin_entered, false, false);
    assert(bytes[2] == value.spec_byte_2());
    lemma_bits_of_byte(value.transaction_exceeds_floor_limit, value.consecutive_offline_limit_lower_exceeded, value.consecutive_offline_limit_upper_exceeded, value.transaction_selected_for_online_processing, value.merchant_forced_transaction_online, false, false, false);
    assert(bytes[3] == value.spec_byte_3());
    lemma_bits_of_byte(value.default_tdol_used, value.issuer_authentication_failed, value.script_processing_failed_before_final_gen_ac, value.script_processing_failed_after_final_gen_ac, false, false, false, false);
    assert(bytes[4] == value.spec_byte_4());
}

/// Reading the low 40 bits of a number gives the value that parsing their five
/// bytes gives.
pub proof fn lemma_terminal_verification_results_new_matches_parse(bits: u64)
    ensures
        TerminalVerificationResults::spec_try_from(TerminalVerificationResults::bytes_of_bits(bits)) == Ok::<
            TerminalVerificationResults,
            ParseError,
        >(TerminalVerificationResults::spec_from_bytes(TerminalVerificationResults::bytes_of_bits(bits))),
{
}

/// Two inputs give the same value exactly when they agree on the bits that
/// have a meaning.
pub proof fn lemma_terminal_verification_results_parse_injective(a: Seq<u8>, b: Seq<u8>)
    requires
        a.len() == 5,
        b.len() == 5,
    ensures
        (TerminalVerificationResults::spec_from_bytes(a) == TerminalVerificationResults::spec_from_bytes(b)) <==> (TerminalVerificationResults::used_bits_of(a) == TerminalVerificationResults::used_bits_of(b)),
{
    lemma_terminal_verification_results_binary_of_parsed(a);
    lemma_terminal_verification_results_binary_of_parsed(b);
    lemma_terminal_verification_results_parse_of_binary(TerminalVerificationResults::spec_from_bytes(a));
    lemma_terminal_verification_results_parse_of_binary(TerminalVerificationResults::spec_from_bytes(b));
}

#[verifier::rlimit(40)]
proof fn lemma_terminal_verification_results_byte_0_shown(value: TerminalVerificationResults)
    ensures
        range_at(value.spec_bit_display_byte_0(), 39) == if value.offline_data_authentication_not_performed {
            Some(bit_range(39, 1, "Offline data authentication was not performed"@, Severity::Normal))
        } else {
            None
        },
        range_at(value.spec_bit_display_byte_0(), 38) == if value.sda_failed {
            Some(bit_range(38, 1, "SDA (Static Data Authentication) failed"@, Severity::Error))
        } else {
            None
        },
        range_at(value.spec_bit_display_byte_0(), 37) == if value.icc_data_missing {
            Some(bit_range(37, 1, "ICC data missing"@, Severity::Error))
        } else {
            None
        },
        range_at(value.spec_bit_display_byte_0(), 36) == if value.terminal_card_exception {
            Some(bit_range(36, 1, "Card appears on terminal exception file"@, Severity::Error))
        } else {
            None
        },
        range_at(value.spec_bit_display_byte_0(), 35) == if value.dda_failed {
            Some(bit_range(35, 1, "DDA (Dynamic Data Authentication) failed"@, Severity::Error))
        } else {
            None
        },
        range_at(value.spec_bit_display_byte_0(), 34) == if value.cda_failed {
            Some(bit_range(34, 1, "CDA (Combined Data Authentication) failed"@, Severity::Error))
        } else {
            None
        },
        forall|o: u8| !(o == 39 || o == 38 || o == 37 || o == 36 || o == 35 || o == 34) ==> #[trigger] range_at(value.spec_bit_display_byte_0(), o) is None,
{
    broadcast use group_range_at;

    assert forall|o: u8| !(o == 39 || o == 38 || o == 37 || o == 36 || o == 35 || o == 34) implies #[trigger] range_at(value.spec_bit_display_byte_0(), o) is None by {
    }
}

#[verifier::rlimit(40)]
proof fn lemma_terminal_verification_results_byte_1_shown(value: TerminalVerificationResults)
    ensures
        range_at(value.spec_bit_display_byte_1(), 31) == if value.icc_terminal_version_mismatch {
            Some(bit_range(31, 1, "ICC and terminal have different application versions"@, Severity::Warning))
        } else {
            None
        },
        range_at(value.spec_bit_display_byte_1(), 30) == if value.expired_application {
            Some(bit_range(30, 1, "Expired application"@, Severity::Error))
        } else {
            None
        },
        range_at(value.spec_bit_display_byte_1(), 29) == if value.application_not_yet_effective {
            Some(bit_range(29, 1, "Application not yet effective"@, Severity::Error))
        } else {
            None
        },
        range_at(value.spec_bit_display_byte_1(), 28) == if value.requested_service_not_allowed {
            Some(bit_range(28, 1, "Requested service not allowed for card product"@, Severity::Error))
        } else {
            None
        },
        range_at(value.spec_bit_display_byte_1(), 27) == if value.new_card {
            Some(bit_range(27, 1, "New card"@, Severity::Warning))
        } else {
            None
        },
        forall|o: u8| !(o == 31 || o == 30 || o == 29 || o == 28 || o == 27) ==> #[trigger] range_at(value.spec_bit_display_byte_1(), o) is None,
{
    broadcast use group_range_at;

    assert forall|o: u8| !(o == 31 || o == 30 || o == 29 || o == 28 || o == 27) implies #[trigger] range_at(value.spec_bit_display_byte_1(), o) is None by {
    }
}

#[verifier::rlimit(40)]
proof fn lemma_terminal_verification_results_byte_2_shown(value: TerminalVerificationResults)
    ensures
        range_at(value.spec_bit_display_byte_2(), 23) == if value.cardholder_verification_unsuccessful {
            Some(bit_range(23, 1, "Cardholder verification was not successful"@, Severity::Warning))
        } else {
            None
        },
        range_at(value.spec_bit_display_byte_2(), 22) == if value.unrecognized_cvm {
            Some(bit_range(22, 1, "Unrecognised CVM (Cardholder Verification Method)"@, Severity::Warning))
        } else {
            None
        },
        range_at(value.spec_bit_display_byte_2(), 21) == if value.pin_try_limit_exceeded {
            Some(bit_range(21, 1, "PIN try limit exceeded"@, Severity::Error))
        } else {
            None
        },
        range_at(value.spec_bit_display_byte_2(), 20) == if value.pin_entry_required_but_no_pinpad {
            Some(bit_range(20, 1, "PIN entry required and PIN pad not present or not working"@, Severity::Error))
        } else {
            None
        },
        range_at(value.spec_bit_display_byte_2(), 19) == if value.pin_entry_required_but_no_entry {
            Some(bit_range(19, 1, "PIN entry required, PIN pad present, but PIN was not entered (PIN bypass)"@, Severity::Warning))
        } else {
            None
        },
        range_at(value.spec_bit_display_byte_2(), 18) == if value.online_pin_entered {
            Some(bit_range(18, 1, "Online PIN entered"@, Severity::Normal))
        } else {
            None
        },
        forall|o: u8| !(o == 23 || o == 22 || o == 21 || o == 20 || o == 19 || o == 18) ==> #[trigger] range_at(value.spec_bit_display_byte_2(), o) is None,
{
    broadcast use group_range_at;

    assert forall|o: u8| !(o == 23 || o == 22 || o == 21 || o == 20 || o == 19 || o == 18) implies #[trigger] range_at(value.spec_bit_display_byte_2(), o) is None by {
    }
}

#[verifier::rlimit(40)]
proof fn lemma_terminal_verification_results_byte_3_shown(value: TerminalVerificationResults)
    ensures
        range_at(value.spec_bit_display_byte_3(), 15) == if value.transaction_exceeds_floor_limit {
            Some(bit_range(15, 1, "Transaction exceeds floor limit"@, Severity::Normal))
        } else {
            None
        },
        range_at(value.spec_bit_display_byte_3(), 14) == if value.consecutive_offline_limit_lower_exceeded {
            Some(bit_range(14, 1, "Lower consecutive offline limit exceeded"@, Severity::Normal))
        } else {
            None
        },
        range_at(value.spec_bit_display_byte_3(), 13) == if value.consecutive_offline_limit_upper_exceeded {
            Some(bit_range(13, 1, "Upper consecutive offline limit exceeded"@, Severity::Normal))
        } else {
            None
        },
        range_at(value.spec_bit_display_byte_3(), 12) == if value.transaction_selected_for_online_processing {
            Some(bit_range(12, 1, "Transaction selected randomly for online processing"@, Severity::Normal))
        } else {
            None
        },
        range_at(value.spec_bit_display_byte_3(), 11) == if value.merchant_forced_transaction_online {
            Some(bit_range(11, 1, "Merchant forced transaction online"@, Severity::Normal))
        } else {
            None
        },
        forall|o: u8| !(o == 15 || o == 14 || o == 13 || o == 12 || o == 11) ==> #[trigger] range_at(value.spec_bit_display_byte_3(), o) is None,
{
    broadcast use group_range_at;

    assert forall|o: u8| !(o == 15 || o == 14 || o == 13 || o == 12 || o == 11) implies #[trigger] range_at(value.spec_bit_display_byte_3(), o) is None by {
    }
}

#[verifier::rlimit(40)]
proof fn lemma_terminal_verification_results_byte_4_shown(value: TerminalVerificationResults)
    ensures
        range_at(value.spec_bit_display_byte_4(), 7) == if value.default_tdol_used {
            Some(bit_range(7, 1, "Default TDOL (Transaction Certificate Data Object List) used"@, Severity::Normal))
        } else {
            None
        },
        range_at(value.spec_bit_display_byte_4(), 6) == if value.issuer_authentication_failed {
            Some(bit_range(6, 1, "Issuer authentication failed"@, Severity::Error))
        } else {
            None
        },
        range_at(value.spec_bit_display_byte_4(), 5) == if value.script_processing_failed_before_final_gen_ac {
            Some(bit_range(5, 1, "Script processing failed before final GENERATE AC"@, Severity::Error))
        } else {
            None
        },
        range_at(value.spec_bit_display_byte_4(), 4) == if value.script_processing_failed_after_final_gen_ac {
            Some(bit_range(4, 1, "Script processing failed after final GENERATE AC"@, Severity::Error))
        } else {
            None
        },
        forall|o: u8| !(o == 7 || o == 6 || o == 5 || o == 4) ==> #[trigger] range_at(value.spec_bit_display_byte_4(), o) is None,
{
    broadcast use group_range_at;

    assert forall|o: u8| !(o == 7 || o == 6 || o == 5 || o == 4) implies #[trigger] range_at(value.spec_bit_display_byte_4(), o) is None by {
    }
}

/// Reading raw bytes: each flag and value comes from its own bits, and the
/// display shows at the first of those bits a range with its meaning (a
/// flag only when it is set); no other bit starts a range.
#[verifier::rlimit(40)]
pub proof fn lemma_terminal_verification_results_bits_shown(bytes: Seq<u8>, offset: u8)
    requires
        bytes.len() == 5,
    ensures
        TerminalVerificationResults::spec_try_from(bytes) is Ok,
        ({
            let value = TerminalVerificationResults::spec_try_from(bytes)->Ok_0;
            let shown = value.spec_bit_display_information();
            &&& value.offline_data_authentication_not_performed == (bytes[0] & 0x80u8 != 0)
            &&& range_at(shown, 39) == if bytes[0] & 0x80u8 != 0 {
                Some(bit_range(39, 1, "Offline data authentication was not performed"@, Severity::Normal))
            } else {
                None
            }
            &&& value.sda_failed == (bytes[0] & 0x40u8 != 0)
            &&& range_at(shown, 38) == if bytes[0] & 0x40u8 != 0 {
                Some(bit_range(38, 1, "SDA (Static Data Authentication) failed"@, Severity::Error))
            } else {
                None
            }
            &&& value.icc_data_missing == (bytes[0] & 0x20u8 != 0)
            &&& range_at(shown, 37) == if bytes[0] & 0x20u8 != 0 {
                Some(bit_range(37, 1, "ICC data missing"@, Severity::Error))
            } else {
                None
            }
            &&& value.terminal_card_exception == (bytes[0] & 0x10u8 != 0)
            &&& range_at(shown, 36) == if bytes[0] & 0x10u8 != 0 {
                Some(bit_range(36, 1, "Card appears on terminal exception file"@, Severity::Error))
            } else {
                None
            }
            &&& value.dda_failed == (bytes[0] & 0x08u8 != 0)
            &&& range_at(shown, 35) == if bytes[0] & 0x08u8 != 0 {
                Some(bit_range(35, 1, "DDA (Dynamic Data Authentication) failed"@, Severity::Error))
            } else {
                None
            }
            &&& value.cda_failed == (bytes[0] & 0x04u8 != 0)
            &&& range_at(shown, 34) == if bytes[0] & 0x04u8 != 0 {
                Some(bit_range(34, 1, "CDA (Combined Data Authentication) failed"@, Severity::Error))
            } else {
                None
            }
            &&& value.icc_terminal_version_mismatch == (bytes[1] & 0x80u8 != 0)
            &&& range_at(shown, 31) == if bytes[1] & 0x80u8 != 0 {
                Some(bit_range(31, 1, "ICC and terminal have different application versions"@, Severity::Warning))
            } else {
                None
            }
            &&& value.expired_application == (bytes[1] & 0x40u8 != 0)
            &&& range_at(shown, 30) == if bytes[1] & 0x40u8 != 0 {
                Some(bit_range(30, 1, "Expired application"@, Severity::Error))
            } else {
                None
            }
            &&& value.application_not_yet_effective == (bytes[1] & 0x20u8 != 0)
            &&& range_at(shown, 29) == if bytes[1] & 0x20u8 != 0 {
                Some(bit_range(29, 1, "Application not yet effective"@, Severity::Error))
            } else {
                None
            }
            &&& value.requested_service_not_allowed == (bytes[1] & 0x10u8 != 0)
            &&& range_at(shown, 28) == if bytes[1] & 0x10u8 != 0 {
                Some(bit_range(28, 1, "Requested service not allowed for card product"@, Severity::Error))
            } else {
                None
            }
            &&& value.new_card == (bytes[1] & 0x08u8 != 0)
            &&& range_at(shown, 27) == if bytes[1] & 0x08u8 != 0 {
                Some(bit_range(27, 1, "New card"@, Severity::Warning))
            } else {
                None
            }
            &&& value.cardholder_verification_unsuccessful == (bytes[2] & 0x80u8 != 0)
            &&& range_at(shown, 23) == if bytes[2] & 0x80u8 != 0 {
                Some(bit_range(23, 1, "Cardholder verification was not successful"@, Severity::Warning))
            } else {
                None
            }
            &&& value.unrecognized_cvm == (bytes[2] & 0x40u8 != 0)
            &&& range_at(shown, 22) == if bytes[2] & 0x40u8 != 0 {
                Some(bit_range(22, 1, "Unrecognised CVM (Cardholder Verification Method)"@, Severity::Warning))
            } else {
                None
            }
            &&& value.pin_try_limit_exceeded == (bytes[2] & 0x20u8 != 0)
            &&& range_at(shown, 21) == if bytes[2] & 0x20u8 != 0 {
                Some(bit_range(21, 1, "PIN try limit exceeded"@, Severity::Error))
            } else {
                None
            }
            &&& value.pin_entry_required_but_no_pinpad == (bytes[2] & 0x10u8 != 0)
            &&& range_at(shown, 20) == if bytes[2] & 0x10u8 != 0 {
                Some(bit_range(20, 1, "PIN entry required and PIN pad not present or not working"@, Severity::Error))
            } else {
                None
            }
            &&& value.pin_entry_required_but_no_entry == (bytes[2] & 0x08u8 != 0)
            &&& range_at(shown, 19) == if bytes[2] & 0x08u8 != 0 {
                Some(bit_range(19, 1, "PIN entry required, PIN pad present, but PIN was not entered (PIN bypass)"@, Severity::Warning))
            } else {
                None
            }
            &&& value.online_pin_entered == (bytes[2] & 0x04u8 != 0)
            &&& range_at(shown, 18) == if bytes[2] & 0x04u8 != 0 {
                Some(bit_range(18, 1, "Online PIN entered"@, Severity::Normal))
            } else {
                None
            }
            &&& value.transaction_exceeds_floor_limit == (bytes[3] & 0x80u8 != 0)
            &&& range_at(shown, 15) == if bytes[3] & 0x80u8 != 0 {
                Some(bit_range(15, 1, "Transaction exceeds floor limit"@, Severity::Normal))
            } else {
                None
            }
            &&& value.consecutive_offline_limit_lower_exceeded == (bytes[3] & 0x40u8 != 0)
            &&& range_at(shown, 14) == if bytes[3] & 0x40u8 != 0 {
                Some(bit_range(14, 1, "Lower consecutive offline limit exceeded"@, Severity::Normal))
            } else {
                None
            }
            &&& value.consecutive_offline_limit_upper_exceeded == (bytes[3] & 0x20u8 != 0)
            &&& range_at(shown, 13) == if bytes[3] & 0x20u8 != 0 {
                Some(bit_range(13, 1, "Upper consecutive offline limit exceeded"@, Severity::Normal))
            } else {
                None
            }
            &&& value.transaction_selected_for_online_processing == (bytes[3] & 0x10u8 != 0)
            &&& range_at(shown, 12) == if bytes[3] & 0x10u8 != 0 {
                Some(bit_range(12, 1, "Transaction selected randomly for online processing"@, Severity::Normal))
            } else {
                None
            }
            &&& value.merchant_forced_transaction_online == (bytes[3] & 0x08u8 != 0)
            &&& range_at(shown, 11) == if bytes[3] & 0x08u8 != 0 {
                Some(bit_range(11, 1, "Merchant forced transaction online"@, Severity::Normal))
            } else {
                None
            }
            &&& value.default_tdol_used == (bytes[4] & 0x80u8 != 0)
            &&& range_at(shown, 7) == if bytes[4] & 0x80u8 != 0 {
                Some(bit_range(7, 1, "Default TDOL (Transaction Certificate Data Object List) used"@, Severity::Normal))
            } else {
                None
            }
            &&& value.issuer_authentication_failed == (bytes[4] & 0x40u8 != 0)
            &&& range_at(shown, 6) == if bytes[4] & 0x40u8 != 0 {
                Some(bit_range(6, 1, "Issuer authentication failed"@, Severity::Error))
            } else {
                None
            }
            &&& value.script_processing_failed_before_final_gen_ac == (bytes[4] & 0x20u8 != 0)
            &&& range_at(shown, 5) == if bytes[4] & 0x20u8 != 0 {
                Some(bit_range(5, 1, "Script processing failed before final GENERATE AC"@, Severity::Error))
            } else {
                None
            }
            &&& value.script_processing_failed_after_final_gen_ac == (bytes[4] & 0x10u8 != 0)
            &&& range_at(shown, 4) == if bytes[4] & 0x10u8 != 0 {
                Some(bit_range(4, 1, "Script processing failed after final GENERATE AC"@, Severity::Error))
            } else {
                None
            }
            &&& !(offset == 39 || offset == 38 || offset == 37 || offset == 36 || offset == 35 || offset == 34 || offset == 31 || offset == 30 || offset == 29 || offset == 28 || offset == 27 || offset == 23 || offset == 22 || offset == 21 || offset == 20 || offset == 19 || offset == 18 || offset == 15 || offset == 14 || offset == 13 || offset == 12 || offset == 11 || offset == 7 || offset == 6 || offset == 5 || offset == 4) ==> range_at(shown, offset) is None
        }),
{
    broadcast use group_range_at;

    let value = TerminalVerificationResults::spec_try_from(bytes)->Ok_0;
    lemma_terminal_verification_results_byte_0_shown(value);
    lemma_terminal_verification_results_byte_1_shown(value);
    lemma_terminal_verification_results_byte_2_shown(value);
    lemma_terminal_verification_results_byte_3_shown(value);
    lemma_terminal_verification_results_byte_4_shown(value);
}

} // verus!
