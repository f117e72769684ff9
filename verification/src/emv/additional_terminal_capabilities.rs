//! Everything for handling Additional Terminal Capabilities values.
//!
//! Information for this can be found in EMV Book 4, under section `A3`.
use vstd::prelude::*;

use crate::emv::bitflag_values::{
    group_range_at, range_at,
    group_bit_range_order, lemma_concat_in_order, ranges_in_order, ranges_left_of, ranges_start_at_most,
    append_bit_ranges, bit_range, bit_range_models, bits_to_byte, byte_from_bits, lemma_bits_of_byte, lemma_byte_of_bits,
    push_bit_range_if, push_if, BitRangeModel, BitflagValue, EnabledBitRange, Severity,
};
use crate::error::{Comparison, ParseError};
use vstd::std_specs::convert::TryFromSpecImpl;

verus! {

/// The transaction types, data input and data output capabilities of a terminal.
#[derive(Clone, Copy, Debug, PartialEq, Eq, Structural, Hash)]
pub struct AdditionalTerminalCapabilities {
    pub txn_cash: bool,
    pub txn_goods: bool,
    pub txn_services: bool,
    pub txn_cashback: bool,
    pub txn_inquiry: bool,
    pub txn_transfer: bool,
    pub txn_payment: bool,
    pub txn_administrative: bool,
    pub txn_cash_deposit: bool,
    pub input_numeric_keys: bool,
    pub input_alphabetic_and_special_keys: bool,
    pub input_command_keys: bool,
    pub input_function_keys: bool,
    pub output_print_attendant: bool,
    pub output_print_cardholder: bool,
    pub output_display_attendant: bool,
    pub output_display_cardholder: bool,
    pub output_code_table_10: bool,
    pub output_code_table_9: bool,
    pub output_code_table_8: bool,
    pub output_code_table_7: bool,
    pub output_code_table_6: bool,
    pub output_code_table_5: bool,
    pub output_code_table_4: bool,
    pub output_code_table_3: bool,
    pub output_code_table_2: bool,
    pub output_code_table_1: bool,
}

impl AdditionalTerminalCapabilities {
    /// The value written by raw bytes (`5` of them).
    pub open spec fn spec_from_bytes(bytes: Seq<u8>) -> AdditionalTerminalCapabilities {
        AdditionalTerminalCapabilities {
            txn_cash: bytes[0] & 0x80u8 != 0,
            txn_goods: bytes[0] & 0x40u8 != 0,
            txn_services: bytes[0] & 0x20u8 != 0,
            txn_cashback: bytes[0] & 0x10u8 != 0,
            txn_inquiry: bytes[0] & 0x08u8 != 0,
            txn_transfer: bytes[0] & 0x04u8 != 0,
            txn_payment: bytes[0] & 0x02u8 != 0,
            txn_administrative: bytes[0] & 0x01u8 != 0,
            txn_cash_deposit: bytes[1] & 0x80u8 != 0,
            input_numeric_keys: bytes[2] & 0x80u8 != 0,
            input_alphabetic_and_special_keys: bytes[2] & 0x40u8 != 0,
            input_command_keys: bytes[2] & 0x20u8 != 0,
            input_function_keys: bytes[2] & 0x10u8 != 0,
            output_print_attendant: bytes[3] & 0x80u8 != 0,
            output_print_cardholder: bytes[3] & 0x40u8 != 0,
            output_display_attendant: bytes[3] & 0x20u8 != 0,
            output_display_cardholder: bytes[3] & 0x10u8 != 0,
            output_code_table_10: bytes[3] & 0x02u8 != 0,
            output_code_table_9: bytes[3] & 0x01u8 != 0,
            output_code_table_8: bytes[4] & 0x80u8 != 0,
            output_code_table_7: bytes[4] & 0x40u8 != 0,
            output_code_table_6: bytes[4] & 0x20u8 != 0,
            output_code_table_5: bytes[4] & 0x10u8 != 0,
            output_code_table_4: bytes[4] & 0x08u8 != 0,
            output_code_table_3: bytes[4] & 0x04u8 != 0,
            output_code_table_2: bytes[4] & 0x02u8 != 0,
            output_code_table_1: bytes[4] & 0x01u8 != 0,
        }
    }

    /// Byte 0 of the raw value; bits without a meaning are clear.
    pub open spec fn spec_byte_0(self) -> u8 {
        byte_from_bits(self.txn_cash, self.txn_goods, self.txn_services, self.txn_cashback, self.txn_inquiry, self.txn_transfer, self.txn_payment, self.txn_administrative)
    }

    /// Byte 1 of the raw value; bits without a meaning are clear.
    pub open spec fn spec_byte_1(self) -> u8 {
        byte_from_bits(self.txn_cash_deposit, false, false, false, false, false, false, false)
    }

    /// Byte 2 of the raw value; bits without a meaning are clear.
    pub open spec fn spec_byte_2(self) -> u8 {
        byte_from_bits(self.input_numeric_keys, self.input_alphabetic_and_special_keys, self.input_command_keys, self.input_function_keys, false, false, false, false)
    }

    /// Byte 3 of the raw value; bits without a meaning are clear.
    pub open spec fn spec_byte_3(self) -> u8 {
        byte_from_bits(self.output_print_attendant, self.output_print_cardholder, self.output_display_attendant, self.output_display_cardholder, false, false, self.output_code_table_10, self.output_code_table_9)
    }

    /// Byte 4 of the raw value; bits without a meaning are clear.
    pub open spec fn spec_byte_4(self) -> u8 {
        byte_from_bits(self.output_code_table_8, self.output_code_table_7, self.output_code_table_6, self.output_code_table_5, self.output_code_table_4, self.output_code_table_3, self.output_code_table_2, self.output_code_table_1)
    }

    /// The raw bytes of the value.
    pub open spec fn spec_binary(self) -> Seq<u8> {
        seq![self.spec_byte_0(), self.spec_byte_1(), self.spec_byte_2(), self.spec_byte_3(), self.spec_byte_4()]
    }

    /// `bytes` with the bits that have no meaning cleared.
    pub open spec fn used_bits_of(bytes: Seq<u8>) -> Seq<u8> {
        seq![bytes[0] & 0xFFu8, bytes[1] & 0x80u8, bytes[2] & 0xF0u8, bytes[3] & 0xF3u8, bytes[4] & 0xFFu8]
    }

    /// Parsing: exactly `5` bytes are required.
    pub open spec fn spec_try_from(bytes: Seq<u8>) -> Result<AdditionalTerminalCapabilities, ParseError> {
        if bytes.len() != 5 {
            Err(ParseError::ByteCountIncorrect { comparison: Comparison::Equal, expected: 5, found: bytes.len() as usize })
        } else {
            Ok(AdditionalTerminalCapabilities::spec_from_bytes(bytes))
        }
    }

    /// The enabled bits of byte 0, left to right, with their meaning.
    pub open spec fn spec_bit_display_byte_0(self) -> Seq<BitRangeModel> {
        push_if(push_if(push_if(push_if(push_if(push_if(push_if(push_if(Seq::<BitRangeModel>::empty(), self.txn_cash, bit_range(39, 1, "Cash"@, Severity::Normal)), self.txn_goods, bit_range(38, 1, "Goods"@, Severity::Normal)), self.txn_services, bit_range(37, 1, "Services"@, Severity::Normal)), self.txn_cashback, bit_range(36, 1, "Cashback"@, Severity::Normal)), self.txn_inquiry, bit_range(35, 1, "Inquiry (request for information about one of the cardholder's accounts)"@, Severity::Normal)), self.txn_transfer, bit_range(34, 1, "Transfer (between cardholder accounts at the same financial institution)"@, Severity::Normal)), self.txn_payment, bit_range(33, 1, "Payment (from a cardholder account to another party)"@, Severity::Normal)), self.txn_administrative, bit_range(32, 1, "Administrative"@, Severity::Normal))
    }

    /// The enabled bits of byte 1, left to right, with their meaning.
    pub open spec fn spec_bit_display_byte_1(self) -> Seq<BitRangeModel> {
        push_if(Seq::<BitRangeModel>::empty(), self.txn_cash_deposit, bit_range(31, 1, "Cash Deposit (into a bank account related to an application on the card used)"@, Severity::Normal))
    }

    /// The enabled bits of byte 2, left to right, with their meaning.
    pub open spec fn spec_bit_display_byte_2(self) -> Seq<BitRangeModel> {
        push_if(push_if(push_if(push_if(Seq::<BitRangeModel>::empty(), self.input_numeric_keys, bit_range(23, 1, "Numeric keys"@, Severity::Normal)), self.input_alphabetic_and_special_keys, bit_range(22, 1, "Alphabetic and special characters keys"@, Severity::Normal)), self.input_command_keys, bit_range(21, 1, "Command keys"@, Severity::Normal)), self.input_function_keys, bit_range(20, 1, "Function keys"@, Severity::Normal))
    }

    /// The enabled bits of byte 3, left to right, with their meaning.
    pub open spec fn spec_bit_display_byte_3(self) -> Seq<BitRangeModel> {
        push_if(push_if(push_if(push_if(push_if(push_if(Seq::<BitRangeModel>::empty(), self.output_print_attendant, bit_range(15, 1, "Print, attendant"@, Severity::Normal)), self.output_print_cardholder, bit_range(14, 1, "Print, cardholder"@, Severity::Normal)), self.output_display_attendant, bit_range(13, 1, "Display, attendant"@, Severity::Normal)), self.output_display_cardholder, bit_range(12, 1, "Display, cardholder"@, Severity::Normal)), self.output_code_table_10, bit_range(9, 1, "ISO/IEC 8859 Code Table 10"@, Severity::Normal)), self.output_code_table_9, bit_range(8, 1, "ISO/IEC 8859 Code Table 9"@, Severity::Normal))
    }

    /// The enabled bits of byte 4, left to right, with their meaning.
    pub open spec fn spec_bit_display_byte_4(self) -> Seq<BitRangeModel> {
        push_if(push_if(push_if(push_if(push_if(push_if(push_if(push_if(Seq::<BitRangeModel>::empty(), self.output_code_table_8, bit_range(7, 1, "ISO/IEC 8859 Code Table 8"@, Severity::Normal)), self.output_code_table_7, bit_range(6, 1, "ISO/IEC 8859 Code Table 7"@, Severity::Normal)), self.output_code_table_6, bit_range(5, 1, "ISO/IEC 8859 Code Table 6"@, Severity::Normal)), self.output_code_table_5, bit_range(4, 1, "ISO/IEC 8859 Code Table 5"@, Severity::Normal)), self.output_code_table_4, bit_range(3, 1, "ISO/IEC 8859 Code Table 4"@, Severity::Normal)), self.output_code_table_3, bit_range(2, 1, "ISO/IEC 8859 Code Table 3"@, Severity::Normal)), self.output_code_table_2, bit_range(1, 1, "ISO/IEC 8859 Code Table 2"@, Severity::Normal)), self.output_code_table_1, bit_range(0, 1, "ISO/IEC 8859 Code Table 1"@, Severity::Normal))
    }

    /// The enabled bits, left to right, with their meaning.
    pub open spec fn spec_bit_display(self) -> Seq<BitRangeModel> {
        self.spec_bit_display_byte_0() + self.spec_bit_display_byte_1() + self.spec_bit_display_byte_2() + self.spec_bit_display_byte_3() + self.spec_bit_display_byte_4()
    }

    /// Builds the value from its raw bytes.
    pub fn from_bytes(raw_bytes: &[u8]) -> (value: AdditionalTerminalCapabilities)
        requires
            raw_bytes@.len() == 5,
        ensures
            value == AdditionalTerminalCapabilities::spec_from_bytes(raw_bytes@),
    {
        AdditionalTerminalCapabilities {
            txn_cash: raw_bytes[0] & 0x80u8 != 0,
            txn_goods: raw_bytes[0] & 0x40u8 != 0,
            txn_services: raw_bytes[0] & 0x20u8 != 0,
            txn_cashback: raw_bytes[0] & 0x10u8 != 0,
            txn_inquiry: raw_bytes[0] & 0x08u8 != 0,
            txn_transfer: raw_bytes[0] & 0x04u8 != 0,
            txn_payment: raw_bytes[0] & 0x02u8 != 0,
            txn_administrative: raw_bytes[0] & 0x01u8 != 0,
            txn_cash_deposit: raw_bytes[1] & 0x80u8 != 0,
            input_numeric_keys: raw_bytes[2] & 0x80u8 != 0,
            input_alphabetic_and_special_keys: raw_bytes[2] & 0x40u8 != 0,
            input_command_keys: raw_bytes[2] & 0x20u8 != 0,
            input_function_keys: raw_bytes[2] & 0x10u8 != 0,
            output_print_attendant: raw_bytes[3] & 0x80u8 != 0,
            output_print_cardholder: raw_bytes[3] & 0x40u8 != 0,
            output_display_attendant: raw_bytes[3] & 0x20u8 != 0,
            output_display_cardholder: raw_bytes[3] & 0x10u8 != 0,
            output_code_table_10: raw_bytes[3] & 0x02u8 != 0,
            output_code_table_9: raw_bytes[3] & 0x01u8 != 0,
            output_code_table_8: raw_bytes[4] & 0x80u8 != 0,
            output_code_table_7: raw_bytes[4] & 0x40u8 != 0,
            output_code_table_6: raw_bytes[4] & 0x20u8 != 0,
            output_code_table_5: raw_bytes[4] & 0x10u8 != 0,
            output_code_table_4: raw_bytes[4] & 0x08u8 != 0,
            output_code_table_3: raw_bytes[4] & 0x04u8 != 0,
            output_code_table_2: raw_bytes[4] & 0x02u8 != 0,
            output_code_table_1: raw_bytes[4] & 0x01u8 != 0,
        }
    }

    fn binary_byte_0(&self) -> (byte: u8)
        ensures
            byte == self.spec_byte_0(),
    {
        bits_to_byte(self.txn_cash, self.txn_goods, self.txn_services, self.txn_cashback, self.txn_inquiry, self.txn_transfer, self.txn_payment, self.txn_administrative)
    }

    fn binary_byte_1(&self) -> (byte: u8)
        ensures
            byte == self.spec_byte_1(),
    {
        bits_to_byte(self.txn_cash_deposit, false, false, false, false, false, false, false)
    }

    fn binary_byte_2(&self) -> (byte: u8)
        ensures
            byte == self.spec_byte_2(),
    {
        bits_to_byte(self.input_numeric_keys, self.input_alphabetic_and_special_keys, self.input_command_keys, self.input_function_keys, false, false, false, false)
    }

    fn binary_byte_3(&self) -> (byte: u8)
        ensures
            byte == self.spec_byte_3(),
    {
        bits_to_byte(self.output_print_attendant, self.output_print_cardholder, self.output_display_attendant, self.output_display_cardholder, false, false, self.output_code_table_10, self.output_code_table_9)
    }

    fn binary_byte_4(&self) -> (byte: u8)
        ensures
            byte == self.spec_byte_4(),
    {
        bits_to_byte(self.output_code_table_8, self.output_code_table_7, self.output_code_table_6, self.output_code_table_5, self.output_code_table_4, self.output_code_table_3, self.output_code_table_2, self.output_code_table_1)
    }

    fn bit_display_byte_0(&self) -> (ranges: Vec<EnabledBitRange>)
        ensures
            bit_range_models(ranges@) == self.spec_bit_display_byte_0(),
    {
        let ranges: Vec<EnabledBitRange> = Vec::new();
        assert(bit_range_models(ranges@) =~= Seq::<BitRangeModel>::empty());
        let ranges = push_bit_range_if(ranges, self.txn_cash, 39, 1, "Cash", Severity::Normal);
        let ranges = push_bit_range_if(ranges, self.txn_goods, 38, 1, "Goods", Severity::Normal);
        let ranges = push_bit_range_if(ranges, self.txn_services, 37, 1, "Services", Severity::Normal);
        let ranges = push_bit_range_if(ranges, self.txn_cashback, 36, 1, "Cashback", Severity::Normal);
        let ranges = push_bit_range_if(ranges, self.txn_inquiry, 35, 1, "Inquiry (request for information about one of the cardholder's accounts)", Severity::Normal);
        let ranges = push_bit_range_if(ranges, self.txn_transfer, 34, 1, "Transfer (between cardholder accounts at the same financial institution)", Severity::Normal);
        let ranges = push_bit_range_if(ranges, self.txn_payment, 33, 1, "Payment (from a cardholder account to another party)", Severity::Normal);
        let ranges = push_bit_range_if(ranges, self.txn_administrative, 32, 1, "Administrative", Severity::Normal);
        ranges
    }

    fn bit_display_byte_1(&self) -> (ranges: Vec<EnabledBitRange>)
        ensures
            bit_range_models(ranges@) == self.spec_bit_display_byte_1(),
    {
        let ranges: Vec<EnabledBitRange> = Vec::new();
        assert(bit_range_models(ranges@) =~= Seq::<BitRangeModel>::empty());
        let ranges = push_bit_range_if(ranges, self.txn_cash_deposit, 31, 1, "Cash Deposit (into a bank account related to an application on the card used)", Severity::Normal);
        ranges
    }

    fn bit_display_byte_2(&self) -> (ranges: Vec<EnabledBitRange>)
        ensures
            bit_range_models(ranges@) == self.spec_bit_display_byte_2(),
    {
        let ranges: Vec<EnabledBitRange> = Vec::new();
        assert(bit_range_models(ranges@) =~= Seq::<BitRangeModel>::empty());
        let ranges = push_bit_range_if(ranges, self.input_numeric_keys, 23, 1, "Numeric keys", Severity::Normal);
        let ranges = push_bit_range_if(ranges, self.input_alphabetic_and_special_keys, 22, 1, "Alphabetic and special characters keys", Severity::Normal);
        let ranges = push_bit_range_if(ranges, self.input_command_keys, 21, 1, "Command keys", Severity::Normal);
        let ranges = push_bit_range_if(ranges, self.input_function_keys, 20, 1, "Function keys", Severity::Normal);
        ranges
    }

    fn bit_display_byte_3(&self) -> (ranges: Vec<EnabledBitRange>)
        ensures
            bit_range_models(ranges@) == self.spec_bit_display_byte_3(),
    {
        let ranges: Vec<EnabledBitRange> = Vec::new();
        assert(bit_range_models(ranges@) =~= Seq::<BitRangeModel>::empty());
        let ranges = push_bit_range_if(ranges, self.output_print_attendant, 15, 1, "Print, attendant", Severity::Normal);
        let ranges = push_bit_range_if(ranges, self.output_print_cardholder, 14, 1, "Print, cardholder", Severity::Normal);
        let ranges = push_bit_range_if(ranges, self.output_display_attendant, 13, 1, "Display, attendant", Severity::Normal);
        let ranges = push_bit_range_if(ranges, self.output_display_cardholder, 12, 1, "Display, cardholder", Severity::Normal);
        let ranges = push_bit_range_if(ranges, self.output_code_table_10, 9, 1, "ISO/IEC 8859 Code Table 10", Severity::Normal);
        let ranges = push_bit_range_if(ranges, self.output_code_table_9, 8, 1, "ISO/IEC 8859 Code Table 9", Severity::Normal);
        ranges
    }

    fn bit_display_byte_4(&self) -> (ranges: Vec<EnabledBitRange>)
        ensures
            bit_range_models(ranges@) == self.spec_bit_display_byte_4(),
    {
        let ranges: Vec<EnabledBitRange> = Vec::new();
        assert(bit_range_models(ranges@) =~= Seq::<BitRangeModel>::empty());
        let ranges = push_bit_range_if(ranges, self.output_code_table_8, 7, 1, "ISO/IEC 8859 Code Table 8", Severity::Normal);
        let ranges = push_bit_range_if(ranges, self.output_code_table_7, 6, 1, "ISO/IEC 8859 Code Table 7", Severity::Normal);
        let ranges = push_bit_range_if(ranges, self.output_code_table_6, 5, 1, "ISO/IEC 8859 Code Table 6", Severity::Normal);
        let ranges = push_bit_range_if(ranges, self.output_code_table_5, 4, 1, "ISO/IEC 8859 Code Table 5", Severity::Normal);
        let ranges = push_bit_range_if(ranges, self.output_code_table_4, 3, 1, "ISO/IEC 8859 Code Table 4", Severity::Normal);
        let ranges = push_bit_range_if(ranges, self.output_code_table_3, 2, 1, "ISO/IEC 8859 Code Table 3", Severity::Normal);
        let ranges = push_bit_range_if(ranges, self.output_code_table_2, 1, 1, "ISO/IEC 8859 Code Table 2", Severity::Normal);
        let ranges = push_bit_range_if(ranges, self.output_code_table_1, 0, 1, "ISO/IEC 8859 Code Table 1", Severity::Normal);
        ranges
    }

}

impl<'a> TryFrom<&'a [u8]> for AdditionalTerminalCapabilities {
    type Error = ParseError;

    fn try_from(raw_bytes: &'a [u8]) -> (result: Result<AdditionalTerminalCapabilities, ParseError>)
        ensures
            result == AdditionalTerminalCapabilities::spec_try_from(raw_bytes@),
    {
        if raw_bytes.len() != 5 {
            return Err(ParseError::ByteCountIncorrect { comparison: Comparison::Equal, expected: 5, found: raw_bytes.len() });
        }
        Ok(AdditionalTerminalCapabilities::from_bytes(raw_bytes))
    }
}

impl<'a> TryFromSpecImpl<&'a [u8]> for AdditionalTerminalCapabilities {
    open spec fn obeys_try_from_spec() -> bool {
        true
    }

    open spec fn try_from_spec(raw_bytes: &'a [u8]) -> Result<AdditionalTerminalCapabilities, ParseError> {
        AdditionalTerminalCapabilities::spec_try_from(raw_bytes@)
    }
}

impl BitflagValue for AdditionalTerminalCapabilities {
    const NUM_BYTES: usize = 5;

    open spec fn spec_binary_representation(&self) -> Seq<u8> {
        self.spec_binary()
    }

    open spec fn spec_bit_display_information(&self) -> Seq<BitRangeModel> {
        self.spec_bit_display()
    }

    fn get_binary_representation(&self) -> (bytes: Vec<u8>) {
        let mut bytes: Vec<u8> = Vec::new();
        bytes.push(self.binary_byte_0());
        bytes.push(self.binary_byte_1());
        bytes.push(self.binary_byte_2());
        bytes.push(self.binary_byte_3());
        bytes.push(self.binary_byte_4());
        assert(bytes@ =~= self.spec_binary());
        bytes
    }

    fn get_bit_display_information(&self) -> (ranges: Vec<EnabledBitRange>) {
        let ranges = self.bit_display_byte_0();
        let ranges = append_bit_ranges(ranges, self.bit_display_byte_1());
        let ranges = append_bit_ranges(ranges, self.bit_display_byte_2());
        let ranges = append_bit_ranges(ranges, self.bit_display_byte_3());
        let ranges = append_bit_ranges(ranges, self.bit_display_byte_4());
        ranges
    }

    proof fn lemma_bit_display_in_order(&self) {
        broadcast use group_bit_range_order;

        let b0 = self.spec_bit_display_byte_0();
        let b1 = self.spec_bit_display_byte_1();
        let b2 = self.spec_bit_display_byte_2();
        let b3 = self.spec_bit_display_byte_3();
        let b4 = self.spec_bit_display_byte_4();
        assert(ranges_in_order(b0, 40) && ranges_left_of(b0, 31));
        assert(ranges_in_order(b1, 40) && ranges_left_of(b1, 23) && ranges_start_at_most(b1, 31));
        assert(ranges_in_order(b2, 40) && ranges_left_of(b2, 15) && ranges_start_at_most(b2, 23));
        assert(ranges_in_order(b3, 40) && ranges_left_of(b3, 7) && ranges_start_at_most(b3, 15));
        assert(ranges_in_order(b4, 40) && ranges_left_of(b4, -1) && ranges_start_at_most(b4, 7));
        lemma_concat_in_order(b0, b1, 40, 31, 23);
        lemma_concat_in_order(b0 + b1, b2, 40, 23, 15);
        lemma_concat_in_order(b0 + b1 + b2, b3, 40, 15, 7);
        lemma_concat_in_order(b0 + b1 + b2 + b3, b4, 40, 7, -1);
    }
}

proof fn lemma_additional_terminal_capabilities_byte_0_of_parsed(bytes: Seq<u8>)
    requires
        bytes.len() == 5,
    ensures
        AdditionalTerminalCapabilities::spec_from_bytes(bytes).spec_byte_0() == bytes[0] & 0xFFu8,
{
    lemma_byte_of_bits(bytes[0], 0xFFu8, true, true, true, true, true, true, true, true);
}

proof fn lemma_additional_terminal_capabilities_byte_1_of_parsed(bytes: Seq<u8>)
    requires
        bytes.len() == 5,
    ensures
        AdditionalTerminalCapabilities::spec_from_bytes(bytes).spec_byte_1() == bytes[1] & 0x80u8,
{
    lemma_byte_of_bits(bytes[1], 0x80u8, true, false, false, false, false, false, false, false);
}

proof fn lemma_additional_terminal_capabilities_byte_2_of_parsed(bytes: Seq<u8>)
    requires
        bytes.len() == 5,
    ensures
        AdditionalTerminalCapabilities::spec_from_bytes(bytes).spec_byte_2() == bytes[2] & 0xF0u8,
{
    lemma_byte_of_bits(bytes[2], 0xF0u8, true, true, true, true, false, false, false, false);
}

proof fn lemma_additional_terminal_capabilities_byte_3_of_parsed(bytes: Seq<u8>)
    requires
        bytes.len() == 5,
    ensures
        AdditionalTerminalCapabilities::spec_from_bytes(bytes).spec_byte_3() == bytes[3] & 0xF3u8,
{
    lemma_byte_of_bits(bytes[3], 0xF3u8, true, true, true, true, false, false, true, true);
}

proof fn lemma_additional_terminal_capabilities_byte_4_of_parsed(bytes: Seq<u8>)
    requires
        bytes.len() == 5,
    ensures
        AdditionalTerminalCapabilities::spec_from_bytes(bytes).spec_byte_4() == bytes[4] & 0xFFu8,
{
    lemma_byte_of_bits(bytes[4], 0xFFu8, true, true, true, true, true, true, true, true);
}

/// Writing parsed bytes back gives the bytes with the bits that have no
/// meaning cleared.
pub proof fn lemma_additional_terminal_capabilities_binary_of_parsed(bytes: Seq<u8>)
    requires
        bytes.len() == 5,
    ensures
        AdditionalTerminalCapabilities::spec_from_bytes(bytes).spec_binary() == AdditionalTerminalCapabilities::used_bits_of(bytes),
{
    lemma_additional_terminal_capabilities_byte_0_of_parsed(bytes);
    lemma_additional_terminal_capabilities_byte_1_of_parsed(bytes);
    lemma_additional_terminal_capabilities_byte_2_of_parsed(bytes);
    lemma_additional_terminal_capabilities_byte_3_of_parsed(bytes);
    lemma_additional_terminal_capabilities_byte_4_of_parsed(bytes);
    assert(AdditionalTerminalCapabilities::spec_from_bytes(bytes).spec_binary() =~= AdditionalTerminalCapabilities::used_bits_of(bytes));
}

/// Parsing the bytes of a value gives the value back.
pub proof fn lemma_additional_terminal_capabilities_parse_of_binary(value: AdditionalTerminalCapabilities)
    ensures
        AdditionalTerminalCapabilities::spec_from_bytes(value.spec_binary()) == value,
{
    let bytes = value.spec_binary();
    lemma_bits_of_byte(value.txn_cash, value.txn_goods, value.txn_services, value.txn_cashback, value.txn_inquiry, value.txn_transfer, value.txn_payment, value.txn_administrative);
    assert(bytes[0] == value.spec_byte_0());
    lemma_bits_of_byte(value.txn_cash_deposit, false, false, false, false, false, false, false);
    assert(bytes[1] == value.spec_byte_1());
    lemma_bits_of_byte(value.input_numeric_keys, value.input_alphabetic_and_special_keys, value.input_command_keys, value.input_function_keys, false, false, false, false);
    assert(bytes[2] == value.spec_byte_2());
    lemma_bits_of_byte(value.output_print_attendant, value.output_print_cardholder, value.output_display_attendant, value.output_display_cardholder, false, false, value.output_code_table_10, value.output_code_table_9);
    assert(bytes[3] == value.spec_byte_3());
    lemma_bits_of_byte(value.output_code_table_8, value.output_code_table_7, value.output_code_table_6, value.output_code_table_5, value.output_code_table_4, value.output_code_table_3, value.output_code_table_2, value.output_code_table_1);
    assert(bytes[4] == value.spec_byte_4());
}

/// Two inputs give the same value exactly when they agree on the bits that
/// have a meaning.
pub proof fn lemma_additional_terminal_capabilities_parse_injective(a: Seq<u8>, b: Seq<u8>)
    requires
        a.len() == 5,
        b.len() == 5,
    ensures
        (AdditionalTerminalCapabilities::spec_from_bytes(a) == AdditionalTerminalCapabilities::spec_from_bytes(b)) <==> (AdditionalTerminalCapabilities::used_bits_of(a) == AdditionalTerminalCapabilities::used_bits_of(b)),
{
    lemma_additional_terminal_capabilities_binary_of_parsed(a);
    lemma_additional_terminal_capabilities_binary_of_parsed(b);
    lemma_additional_terminal_capabilities_parse_of_binary(AdditionalTerminalCapabilities::spec_from_bytes(a));
    lemma_additional_terminal_capabilities_parse_of_binary(AdditionalTerminalCapabilities::spec_from_bytes(b));
}

#[verifier::rlimit(40)]
proof fn lemma_additional_terminal_capabilities_byte_0_shown(value: AdditionalTerminalCapabilities)
    ensures
        range_at(value.spec_bit_display_byte_0(), 39) == if value.txn_cash {
            Some(bit_range(39, 1, "Cash"@, Severity::Normal))
        } else {
            None
        },
        range_at(value.spec_bit_display_byte_0(), 38) == if value.txn_goods {
            Some(bit_range(38, 1, "Goods"@, Severity::Normal))
        } else {
            None
        },
        range_at(value.spec_bit_display_byte_0(), 37) == if value.txn_services {
            Some(bit_range(37, 1, "Services"@, Severity::Normal))
        } else {
            None
        },
        range_at(value.spec_bit_display_byte_0(), 36) == if value.txn_cashback {
            Some(bit_range(36, 1, "Cashback"@, Severity::Normal))
        } else {
            None
        },
        range_at(value.spec_bit_display_byte_0(), 35) == if value.txn_inquiry {
            Some(bit_range(35, 1, "Inquiry (request for information about one of the cardholder's accounts)"@, Severity::Normal))
        } else {
            None
        },
        range_at(value.spec_bit_display_byte_0(), 34) == if value.txn_transfer {
            Some(bit_range(34, 1, "Transfer (between cardholder accounts at the same financial institution)"@, Severity::Normal))
        } else {
            None
        },
        range_at(value.spec_bit_display_byte_0(), 33) == if value.txn_payment {
            Some(bit_range(33, 1, "Payment (from a cardholder account to another party)"@, Severity::Normal))
        } else {
            None
        },
        range_at(value.spec_bit_display_byte_0(), 32) == if value.txn_administrative {
            Some(bit_range(32, 1, "Administrative"@, Severity::Normal))
        } else {
            None
        },
        forall|o: u8| !(o == 39 || o == 38 || o == 37 || o == 36 || o == 35 || o == 34 || o == 33 || o == 32) ==> #[trigger] range_at(value.spec_bit_display_byte_0(), o) is None,
{
    broadcast use group_range_at;

    assert forall|o: u8| !(o == 39 || o == 38 || o == 37 || o == 36 || o == 35 || o == 34 || o == 33 || o == 32) implies #[trigger] range_at(value.spec_bit_display_byte_0(), o) is None by {
    }
}

#[verifier::rlimit(40)]
proof fn lemma_additional_terminal_capabilities_byte_1_shown(value: AdditionalTerminalCapabilities)
    ensures
        range_at(value.spec_bit_display_byte_1(), 31) == if value.txn_cash_deposit {
            Some(bit_range(31, 1, "Cash Deposit (into a bank account related to an application on the card used)"@, Severity::Normal))
        } else {
            None
        },
        forall|o: u8| !(o == 31) ==> #[trigger] range_at(value.spec_bit_display_byte_1(), o) is None,
{
    broadcast use group_range_at;

    assert forall|o: u8| !(o == 31) implies #[trigger] range_at(value.spec_bit_display_byte_1(), o) is None by {
    }
}

#[verifier::rlimit(40)]
proof fn lemma_additional_terminal_capabilities_byte_2_shown(value: AdditionalTerminalCapabilities)
    ensures
        range_at(value.spec_bit_display_byte_2(), 23) == if value.input_numeric_keys {
            Some(bit_range(23, 1, "Numeric keys"@, Severity::Normal))
        } else {
            None
        },
        range_at(value.spec_bit_display_byte_2(), 22) == if value.input_alphabetic_and_special_keys {
            Some(bit_range(22, 1, "Alphabetic and special characters keys"@, Severity::Normal))
        } else {
            None
        },
        range_at(value.spec_bit_display_byte_2(), 21) == if value.input_command_keys {
            Some(bit_range(21, 1, "Command keys"@, Severity::Normal))
        } else {
            None
        },
        range_at(value.spec_bit_display_byte_2(), 20) == if value.input_function_keys {
            Some(bit_range(20, 1, "Function keys"@, Severity::Normal))
        } else {
            None
        },
        forall|o: u8| !(o == 23 || o == 22 || o == 21 || o == 20) ==> #[trigger] range_at(value.spec_bit_display_byte_2(), o) is None,
{
    broadcast use group_range_at;

    assert forall|o: u8| !(o == 23 || o == 22 || o == 21 || o == 20) implies #[trigger] range_at(value.spec_bit_display_byte_2(), o) is None by {
    }
}

#[verifier::rlimit(40)]
proof fn lemma_additional_terminal_capabilities_byte_3_shown(value: AdditionalTerminalCapabilities)
    ensures
        range_at(value.spec_bit_display_byte_3(), 15) == if value.output_print_attendant {
            Some(bit_range(15, 1, "Print, attendant"@, Severity::Normal))
        } else {
            None
        },
        range_at(value.spec_bit_display_byte_3(), 14) == if value.output_print_cardholder {
            Some(bit_range(14, 1, "Print, cardholder"@, Severity::Normal))
        } else {
            None
        },
        range_at(value.spec_bit_display_byte_3(), 13) == if value.output_display_attendant {
            Some(bit_range(13, 1, "Display, attendant"@, Severity::Normal))
        } else {
            None
        },
        range_at(value.spec_bit_display_byte_3(), 12) == if value.output_display_cardholder {
            Some(bit_range(12, 1, "Display, cardholder"@, Severity::Normal))
        } else {
            None
        },
        range_at(value.spec_bit_display_byte_3(), 9) == if value.output_code_table_10 {
            Some(bit_range(9, 1, "ISO/IEC 8859 Code Table 10"@, Severity::Normal))
        } else {
            None
        },
        range_at(value.spec_bit_display_byte_3(), 8) == if value.output_code_table_9 {
            Some(bit_range(8, 1, "ISO/IEC 8859 Code Table 9"@, Severity::Normal))
        } else {
            None
        },
        forall|o: u8| !(o == 15 || o == 14 || o == 13 || o == 12 || o == 9 || o == 8) ==> #[trigger] range_at(value.spec_bit_display_byte_3(), o) is None,
{
    broadcast use group_range_at;

    assert forall|o: u8| !(o == 15 || o == 14 || o == 13 || o == 12 || o == 9 || o == 8) implies #[trigger] range_at(value.spec_bit_display_byte_3(), o) is None by {
    }
}

#[verifier::rlimit(40)]
proof fn lemma_additional_terminal_capabilities_byte_4_shown(value: AdditionalTerminalCapabilities)
    ensures
        range_at(value.spec_bit_display_byte_4(), 7) == if value.output_code_table_8 {
            Some(bit_range(7, 1, "ISO/IEC 8859 Code Table 8"@, Severity::Normal))
        } else {
            None
        },
        range_at(value.spec_bit_display_byte_4(), 6) == if value.output_code_table_7 {
            Some(bit_range(6, 1, "ISO/IEC 8859 Code Table 7"@, Severity::Normal))
        } else {
            None
        },
        range_at(value.spec_bit_display_byte_4(), 5) == if value.output_code_table_6 {
            Some(bit_range(5, 1, "ISO/IEC 8859 Code Table 6"@, Severity::Normal))
        } else {
            None
        },
        range_at(value.spec_bit_display_byte_4(), 4) == if value.output_code_table_5 {
            Some(bit_range(4, 1, "ISO/IEC 8859 Code Table 5"@, Severity::Normal))
        } else {
            None
        },
        range_at(value.spec_bit_display_byte_4(), 3) == if value.output_code_table_4 {
            Some(bit_range(3, 1, "ISO/IEC 8859 Code Table 4"@, Severity::Normal))
        } else {
            None
        },
        range_at(value.spec_bit_display_byte_4(), 2) == if value.output_code_table_3 {
            Some(bit_range(2, 1, "ISO/IEC 8859 Code Table 3"@, Severity::Normal))
        } else {
            None
        },
        range_at(value.spec_bit_display_byte_4(), 1) == if value.output_code_table_2 {
            Some(bit_range(1, 1, "ISO/IEC 8859 Code Table 2"@, Severity::Normal))
        } else {
            None
        },
        range_at(value.spec_bit_display_byte_4(), 0) == if value.output_code_table_1 {
            Some(bit_range(0, 1, "ISO/IEC 8859 Code Table 1"@, Severity::Normal))
        } else {
            None
        },
        forall|o: u8| !(o == 7 || o == 6 || o == 5 || o == 4 || o == 3 || o == 2 || o == 1 || o == 0) ==> #[trigger] range_at(value.spec_bit_display_byte_4(), o) is None,
{
    broadcast use group_range_at;

    assert forall|o: u8| !(o == 7 || o == 6 || o == 5 || o == 4 || o == 3 || o == 2 || o == 1 || o == 0) implies #[trigger] range_at(value.spec_bit_display_byte_4(), o) is None by {
    }
}

/// Reading raw bytes: each flag and value comes from its own bits, and the
/// display shows at the first of those bits a range with its meaning (a
/// flag only when it is set); no other bit starts a range.
#[verifier::rlimit(40)]
pub proof fn lemma_additional_terminal_capabilities_bits_shown(bytes: Seq<u8>, offset: u8)
    requires
        bytes.len() == 5,
    ensures
        AdditionalTerminalCapabilities::spec_try_from(bytes) is Ok,
        ({
            let value = AdditionalTerminalCapabilities::spec_try_from(bytes)->Ok_0;
            let shown = value.spec_bit_display_information();
            &&& value.txn_cash == (bytes[0] & 0x80u8 != 0)
            &&& range_at(shown, 39) == if bytes[0] & 0x80u8 != 0 {
                Some(bit_range(39, 1, "Cash"@, Severity::Normal))
            } else {
                None
            }
            &&& value.txn_goods == (bytes[0] & 0x40u8 != 0)
            &&& range_at(shown, 38) == if bytes[0] & 0x40u8 != 0 {
                Some(bit_range(38, 1, "Goods"@, Severity::Normal))
            } else {
                None
            }
            &&& value.txn_services == (bytes[0] & 0x20u8 != 0)
            &&& range_at(shown, 37) == if bytes[0] & 0x20u8 != 0 {
                Some(bit_range(37, 1, "Services"@, Severity::Normal))
            } else {
                None
            }
            &&& value.txn_cashback == (bytes[0] & 0x10u8 != 0)
            &&& range_at(shown, 36) == if bytes[0] & 0x10u8 != 0 {
                Some(bit_range(36, 1, "Cashback"@, Severity::Normal))
            } else {
                None
            }
            &&& value.txn_inquiry == (bytes[0] & 0x08u8 != 0)
            &&& range_at(shown, 35) == if bytes[0] & 0x08u8 != 0 {
                Some(bit_range(35, 1, "Inquiry (request for information about one of the cardholder's accounts)"@, Severity::Normal))
            } else {
                None
            }
            &&& value.txn_transfer == (bytes[0] & 0x04u8 != 0)
            &&& range_at(shown, 34) == if bytes[0] & 0x04u8 != 0 {
                Some(bit_range(34, 1, "Transfer (between cardholder accounts at the same financial institution)"@, Severity::Normal))
            } else {
                None
            }
            &&& value.txn_payment == (bytes[0] & 0x02u8 != 0)
            &&& range_at(shown, 33) == if bytes[0] & 0x02u8 != 0 {
                Some(bit_range(33, 1, "Payment (from a cardholder account to another party)"@, Severity::Normal))
            } else {
                None
            }
            &&& value.txn_administrative == (bytes[0] & 0x01u8 != 0)
            &&& range_at(shown, 32) == if bytes[0] & 0x01u8 != 0 {
                Some(bit_range(32, 1, "Administrative"@, Severity::Normal))
            } else {
                None
            }
            &&& value.txn_cash_deposit == (bytes[1] & 0x80u8 != 0)
            &&& range_at(shown, 31) == if bytes[1] & 0x80u8 != 0 {
                Some(bit_range(31, 1, "Cash Deposit (into a bank account related to an application on the card used)"@, Severity::Normal))
            } else {
                None
            }
            &&& value.input_numeric_keys == (bytes[2] & 0x80u8 != 0)
            &&& range_at(shown, 23) == if bytes[2] & 0x80u8 != 0 {
                Some(bit_range(23, 1, "Numeric keys"@, Severity::Normal))
            } else {
                None
            }
            &&& value.input_alphabetic_and_special_keys == (bytes[2] & 0x40u8 != 0)
            &&& range_at(shown, 22) == if bytes[2] & 0x40u8 != 0 {
                Some(bit_range(22, 1, "Alphabetic and special characters keys"@, Severity::Normal))
            } else {
                None
            }
            &&& value.input_command_keys == (bytes[2] & 0x20u8 != 0)
            &&& range_at(shown, 21) == if bytes[2] & 0x20u8 != 0 {
                Some(bit_range(21, 1, "Command keys"@, Severity::Normal))
            } else {
                None
            }
            &&& value.input_function_keys == (bytes[2] & 0x10u8 != 0)
            &&& range_at(shown, 20) == if bytes[2] & 0x10u8 != 0 {
                Some(bit_range(20, 1, "Function keys"@, Severity::Normal))
            } else {
                None
            }
            &&& value.output_print_attendant == (bytes[3] & 0x80u8 != 0)
            &&& range_at(shown, 15) == if bytes[3] & 0x80u8 != 0 {
                Some(bit_range(15, 1, "Print, attendant"@, Severity::Normal))
            } else {
                None
            }
            &&& value.output_print_cardholder == (bytes[3] & 0x40u8 != 0)
            &&& range_at(shown, 14) == if bytes[3] & 0x40u8 != 0 {
                Some(bit_range(14, 1, "Print, cardholder"@, Severity::Normal))
            } else {
                None
            }
            &&& value.output_display_attendant == (bytes[3] & 0x20u8 != 0)
            &&& range_at(shown, 13) == if bytes[3] & 0x20u8 != 0 {
                Some(bit_range(13, 1, "Display, attendant"@, Severity::Normal))
            } else {
                None
            }
            &&& value.output_display_cardholder == (bytes[3] & 0x10u8 != 0)
            &&& range_at(shown, 12) == if bytes[3] & 0x10u8 != 0 {
                Some(bit_range(12, 1, "Display, cardholder"@, Severity::Normal))
            } else {
                None
            }
            &&& value.output_code_table_10 == (bytes[3] & 0x02u8 != 0)
            &&& range_at(shown, 9) == if bytes[3] & 0x02u8 != 0 {
                Some(bit_range(9, 1, "ISO/IEC 8859 Code Table 10"@, Severity::Normal))
            } else {
                None
            }
            &&& value.output_code_table_9 == (bytes[3] & 0x01u8 != 0)
            &&& range_at(shown, 8) == if bytes[3] & 0x01u8 != 0 {
                Some(bit_range(8, 1, "ISO/IEC 8859 Code Table 9"@, Severity::Normal))
            } else {
                None
            }
            &&& value.output_code_table_8 == (bytes[4] & 0x80u8 != 0)
            &&& range_at(shown, 7) == if bytes[4] & 0x80u8 != 0 {
                Some(bit_range(7, 1, "ISO/IEC 8859 Code Table 8"@, Severity::Normal))
            } else {
                None
            }
            &&& value.output_code_table_7 == (bytes[4] & 0x40u8 != 0)
            &&& range_at(shown, 6) == if bytes[4] & 0x40u8 != 0 {
                Some(bit_range(6, 1, "ISO/IEC 8859 Code Table 7"@, Severity::Normal))
            } else {
                None
            }
            &&& value.output_code_table_6 == (bytes[4] & 0x20u8 != 0)
            &&& range_at(shown, 5) == if bytes[4] & 0x20u8 != 0 {
                Some(bit_range(5, 1, "ISO/IEC 8859 Code Table 6"@, Severity::Normal))
            } else {
                None
            }
            &&& value.output_code_table_5 == (bytes[4] & 0x10u8 != 0)
            &&& range_at(shown, 4) == if bytes[4] & 0x10u8 != 0 {
                Some(bit_range(4, 1, "ISO/IEC 8859 Code Table 5"@, Severity::Normal))
            } else {
                None
            }
            &&& value.output_code_table_4 == (bytes[4] & 0x08u8 != 0)
            &&& range_at(shown, 3) == if bytes[4] & 0x08u8 != 0 {
                Some(bit_range(3, 1, "ISO/IEC 8859 Code Table 4"@, Severity::Normal))
            } else {
                None
            }
            &&& value.output_code_table_3 == (bytes[4] & 0x04u8 != 0)
            &&& range_at(shown, 2) == if bytes[4] & 0x04u8 != 0 {
                Some(bit_range(2, 1, "ISO/IEC 8859 Code Table 3"@, Severity::Normal))
            } else {
                None
            }
            &&& value.output_code_table_2 == (bytes[4] & 0x02u8 != 0)
            &&& range_at(shown, 1) == if bytes[4] & 0x02u8 != 0 {
                Some(bit_range(1, 1, "ISO/IEC 8859 Code Table 2"@, Severity::Normal))
            } else {
                None
            }
            &&& value.output_code_table_1 == (bytes[4] & 0x01u8 != 0)
            &&& range_at(shown, 0) == if bytes[4] & 0x01u8 != 0 {
                Some(bit_range(0, 1, "ISO/IEC 8859 Code Table 1"@, Severity::Normal))
            } else {
                None
            }
            &&& !(offset == 39 || offset == 38 || offset == 37 || offset == 36 || offset == 35 || offset == 34 || offset == 33 || offset == 32 || offset == 31 || offset == 23 || offset == 22 || offset == 21 || offset == 20 || offset == 15 || offset == 14 || offset == 13 || offset == 12 || offset == 9 || offset == 8 || offset == 7 || offset == 6 || offset == 5 || offset == 4 || offset == 3 || offset == 2 || offset == 1 || offset == 0) ==> range_at(shown, offset) is None
        }),
{
    broadcast use group_range_at;

    let value = AdditionalTerminalCapabilities::spec_try_from(bytes)->Ok_0;
    lemma_additional_terminal_capabilities_byte_0_shown(value);
    lemma_additional_terminal_capabilities_byte_1_shown(value);
    lemma_additional_terminal_capabilities_byte_2_shown(value);
    lemma_additional_terminal_capabilities_byte_3_shown(value);
    lemma_additional_terminal_capabilities_byte_4_shown(value);
}

} // verus!
