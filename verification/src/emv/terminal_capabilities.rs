//! Everything for handling Terminal Capabilities values.
//!
//! Information for this can be found in EMV Book 4, under section `A2`.
use vstd::prelude::*;

use crate::emv::bitflag_values::{
    group_range_at, range_at,
    group_bit_range_order, lemma_concat_in_order, ranges_in_order, ranges_left_of, ranges_start_at_most,
    append_bit_ranges, bit_range, bit_range_models, bits_to_byte, byte_from_bits, lemma_bits_of_byte, lemma_byte_of_bits,
    push_bit_range_if, push_if, BitRangeModel, BitflagValue, EnabledBitRange, Severity,
};
use crate::error::{Comparison, ParseError};
use vstd::std_specs::convert::TryFromSpecImpl;

verus! {

/// The card data input, CVM and security capabilities of a terminal.
#[derive(Clone, Copy, Debug, PartialEq, Eq, Structural, Hash)]
pub struct TerminalCapabilities {
    pub input_manual_key_entry: bool,
    pub input_magnetic_stripe: bool,
    pub input_icc: bool,
    pub cvm_plaintext_pin_for_icc_verification: bool,
    pub cvm_enciphered_pin_for_online_verification: bool,
    pub cvm_signature: bool,
    pub cvm_enciphered_pin_for_offline_verification: bool,
    pub cvm_no_cvm_required: bool,
    pub security_sda: bool,
    pub security_dda: bool,
    pub security_card_capture: bool,
    pub security_cda: bool,
}

impl TerminalCapabilities {
    /// The value written by raw bytes (`3` of them).
    pub open spec fn spec_from_bytes(bytes: Seq<u8>) -> TerminalCapabilities {
        TerminalCapabilities {
            input_manual_key_entry: bytes[0] & 0x80u8 != 0,
            input_magnetic_stripe: bytes[0] & 0x40u8 != 0,
            input_icc: bytes[0] & 0x20u8 != 0,
            cvm_plaintext_pin_for_icc_verification: bytes[1] & 0x80u8 != 0,
            cvm_enciphered_pin_for_online_verification: bytes[1] & 0x40u8 != 0,
            cvm_signature: bytes[1] & 0x20u8 != 0,
            cvm_enciphered_pin_for_offline_verification: bytes[1] & 0x10u8 != 0,
            cvm_no_cvm_required: bytes[1] & 0x08u8 != 0,
            security_sda: bytes[2] & 0x80u8 != 0,
            security_dda: bytes[2] & 0x40u8 != 0,
            security_card_capture: bytes[2] & 0x20u8 != 0,
            security_cda: bytes[2] & 0x08u8 != 0,
        }
    }

    /// Byte 0 of the raw value; bits without a meaning are clear.
    pub open spec fn spec_byte_0(self) -> u8 {
        byte_from_bits(self.input_manual_key_entry, self.input_magnetic_stripe, self.input_icc, false, false, false, false, false)
    }

    /// Byte 1 of the raw value; bits without a meaning are clear.
    pub open spec fn spec_byte_1(self) -> u8 {
        byte_from_bits(self.cvm_plaintext_pin_for_icc_verification, self.cvm_enciphered_pin_for_online_verification, self.cvm_signature, self.cvm_enciphered_pin_for_offline_verification, self.cvm_no_cvm_required, false, false, false)
    }

    /// Byte 2 of the raw value; bits without a meaning are clear.
    pub open spec fn spec_byte_2(self) -> u8 {
        byte_from_bits(self.security_sda, self.security_dda, self.security_card_capture, false, self.security_cda, false, false, false)
    }

    /// The raw bytes of the value.
    pub open spec fn spec_binary(self) -> Seq<u8> {
        seq![self.spec_byte_0(), self.spec_byte_1(), self.spec_byte_2()]
    }

    /// `bytes` with the bits that have no meaning cleared.
    pub open spec fn used_bits_of(bytes: Seq<u8>) -> Seq<u8> {
        seq![bytes[0] & 0xE0u8, bytes[1] & 0xF8u8, bytes[2] & 0xE8u8]
    }

    /// Parsing: exactly `3` bytes are required.
    pub open spec fn spec_try_from(bytes: Seq<u8>) -> Result<TerminalCapabilities, ParseError> {
        if bytes.len() != 3 {
            Err(ParseError::ByteCountIncorrect { comparison: Comparison::Equal, expected: 3, found: bytes.len() as usize })
        } else {
            Ok(TerminalCapabilities::spec_from_bytes(bytes))
        }
    }

    /// The enabled bits of byte 0, left to right, with their meaning.
    pub open spec fn spec_bit_display_byte_0(self) -> Seq<BitRangeModel> {
        push_if(push_if(push_if(Seq::<BitRangeModel>::empty(), self.input_manual_key_entry, bit_range(23, 1, "Manual key entry"@, Severity::Normal)), self.input_magnetic_stripe, bit_range(22, 1, "Magnetic stripe"@, Severity::Normal)), self.input_icc, bit_range(21, 1, "IC with contacts"@, Severity::Normal))
    }

    /// The enabled bits of byte 1, left to right, with their meaning.
    pub open spec fn spec_bit_display_byte_1(self) -> Seq<BitRangeModel> {
        push_if(push_if(push_if(push_if(push_if(Seq::<BitRangeModel>::empty(), self.cvm_plaintext_pin_for_icc_verification, bit_range(15, 1, "Plaintext PIN for ICC verification"@, Severity::Normal)), self.cvm_enciphered_pin_for_online_verification, bit_range(14, 1, "Enciphered PIN for online verification"@, Severity::Normal)), self.cvm_signature, bit_range(13, 1, "Signature (paper)"@, Severity::Normal)), self.cvm_enciphered_pin_for_offline_verification, bit_range(12, 1, "Enciphered PIN for offline verification"@, Severity::Normal)), self.cvm_no_cvm_required, bit_range(11, 1, "No CVM Required"@, Severity::Normal))
    }

    /// The enabled bits of byte 2, left to right, with their meaning.
    pub open spec fn spec_bit_display_byte_2(self) -> Seq<BitRangeModel> {
        push_if(push_if(push_if(push_if(Seq::<BitRangeModel>::empty(), self.security_sda, bit_range(7, 1, "SDA (Static Data Authentication)"@, Severity::Normal)), self.security_dda, bit_range(6, 1, "DDA (Dynamic Data Authentication)"@, Severity::Normal)), self.security_card_capture, bit_range(5, 1, "Card capture (ATM retaining the card)"@, Severity::Normal)), self.security_cda, bit_range(3, 1, "CDA (Combined Data Authentication)"@, Severity::Normal))
    }

    /// The enabled bits, left to right, with their meaning.
    pub open spec fn spec_bit_display(self) -> Seq<BitRangeModel> {
        self.spec_bit_display_byte_0() + self.spec_bit_display_byte_1() + self.spec_bit_display_byte_2()
    }

    /// Builds the value from its raw bytes.
    pub fn from_bytes(raw_bytes: &[u8]) -> (value: TerminalCapabilities)
        requires
            raw_bytes@.len() == 3,
        ensures
            value == TerminalCapabilities::spec_from_bytes(raw_bytes@),
    {
        TerminalCapabilities {
            input_manual_key_entry: raw_bytes[0] & 0x80u8 != 0,
            input_magnetic_stripe: raw_bytes[0] & 0x40u8 != 0,
            input_icc: raw_bytes[0] & 0x20u8 != 0,
            cvm_plaintext_pin_for_icc_verification: raw_bytes[1] & 0x80u8 != 0,
            cvm_enciphered_pin_for_online_verification: raw_bytes[1] & 0x40u8 != 0,
            cvm_signature: raw_bytes[1] & 0x20u8 != 0,
            cvm_enciphered_pin_for_offline_verification: raw_bytes[1] & 0x10u8 != 0,
            cvm_no_cvm_required: raw_bytes[1] & 0x08u8 != 0,
            security_sda: raw_bytes[2] & 0x80u8 != 0,
            security_dda: raw_bytes[2] & 0x40u8 != 0,
            security_card_capture: raw_bytes[2] & 0x20u8 != 0,
            security_cda: raw_bytes[2] & 0x08u8 != 0,
        }
    }

    fn binary_byte_0(&self) -> (byte: u8)
        ensures
            byte == self.spec_byte_0(),
    {
        bits_to_byte(self.input_manual_key_entry, self.input_magnetic_stripe, self.input_icc, false, false, false, false, false)
    }

    fn binary_byte_1(&self) -> (byte: u8)
        ensures
            byte == self.spec_byte_1(),
    {
        bits_to_byte(self.cvm_plaintext_pin_for_icc_verification, self.cvm_enciphered_pin_for_online_verification, self.cvm_signature, self.cvm_enciphered_pin_for_offline_verification, self.cvm_no_cvm_required, false, false, false)
    }

    fn binary_byte_2(&self) -> (byte: u8)
        ensures
            byte == self.spec_byte_2(),
    {
        bits_to_byte(self.security_sda, self.security_dda, self.security_card_capture, false, self.security_cda, false, false, false)
    }

    fn bit_display_byte_0(&self) -> (ranges: Vec<EnabledBitRange>)
        ensures
            bit_range_models(ranges@) == self.spec_bit_display_byte_0(),
    {
        let ranges: Vec<EnabledBitRange> = Vec::new();
        assert(bit_range_models(ranges@) =~= Seq::<BitRangeModel>::empty());
        let ranges = push_bit_range_if(ranges, self.input_manual_key_entry, 23, 1, "Manual key entry", Severity::Normal);
        let ranges = push_bit_range_if(ranges, self.input_magnetic_stripe, 22, 1, "Magnetic stripe", Severity::Normal);
        let ranges = push_bit_range_if(ranges, self.input_icc, 21, 1, "IC with contacts", Severity::Normal);
        ranges
    }

    fn bit_display_byte_1(&self) -> (ranges: Vec<EnabledBitRange>)
        ensures
            bit_range_models(ranges@) == self.spec_bit_display_byte_1(),
    {
        let ranges: Vec<EnabledBitRange> = Vec::new();
        assert(bit_range_models(ranges@) =~= Seq::<BitRangeModel>::empty());
        let ranges = push_bit_range_if(ranges, self.cvm_plaintext_pin_for_icc_verification, 15, 1, "Plaintext PIN for ICC verification", Severity::Normal);
        let ranges = push_bit_range_if(ranges, self.cvm_enciphered_pin_for_online_verification, 14, 1, "Enciphered PIN for online verification", Severity::Normal);
        let ranges = push_bit_range_if(ranges, self.cvm_signature, 13, 1, "Signature (paper)", Severity::Normal);
        let ranges = push_bit_range_if(ranges, self.cvm_enciphered_pin_for_offline_verification, 12, 1, "Enciphered PIN for offline verification", Severity::Normal);
        let ranges = push_bit_range_if(ranges, self.cvm_no_cvm_required, 11, 1, "No CVM Required", Severity::Normal);
        ranges
    }

    fn bit_display_byte_2(&self) -> (ranges: Vec<EnabledBitRange>)
        ensures
            bit_range_models(ranges@) == self.spec_bit_display_byte_2(),
    {
        let ranges: Vec<EnabledBitRange> = Vec::new();
        assert(bit_range_models(ranges@) =~= Seq::<BitRangeModel>::empty());
        let ranges = push_bit_range_if(ranges, self.security_sda, 7, 1, "SDA (Static Data Authentication)", Severity::Normal);
        let ranges = push_bit_range_if(ranges, self.security_dda, 6, 1, "DDA (Dynamic Data Authentication)", Severity::Normal);
        let ranges = push_bit_range_if(ranges, self.security_card_capture, 5, 1, "Card capture (ATM retaining the card)", Severity::Normal);
        let ranges = push_bit_range_if(ranges, self.security_cda, 3, 1, "CDA (Combined Data Authentication)", Severity::Normal);
        ranges
    }

}

impl<'a> TryFrom<&'a [u8]> for TerminalCapabilities {
    type Error = ParseError;

    fn try_from(raw_bytes: &'a [u8]) -> (result: Result<TerminalCapabilities, ParseError>)
        ensures
            result == TerminalCapabilities::spec_try_from(raw_bytes@),
    {
        if raw_bytes.len() != 3 {
            return Err(ParseError::ByteCountIncorrect { comparison: Comparison::Equal, expected: 3, found: raw_bytes.len() });
        }
        Ok(TerminalCapabilities::from_bytes(raw_bytes))
    }
}

impl<'a> TryFromSpecImpl<&'a [u8]> for TerminalCapabilities {
    open spec fn obeys_try_from_spec() -> bool {
        true
    }

    open spec fn try_from_spec(raw_bytes: &'a [u8]) -> Result<TerminalCapabilities, ParseError> {
        TerminalCapabilities::spec_try_from(raw_bytes@)
    }
}

impl BitflagValue for TerminalCapabilities {
    const NUM_BYTES: usize = 3;

    open spec fn spec_binary_representation(&self) -> Seq<u8> {
        self.spec_binary()
    }

    open spec fn spec_bit_display_information(&self) -> Seq<BitRangeModel> {
        self.spec_bit_display()
    }

    fn get_binary_representation(&self) -> (bytes: Vec<u8>) {
        let mut bytes: Vec<u8> = Vec::new();
        bytes.push(self.binary_byte_0());
        bytes.push(self.binary_byte_1());
        bytes.push(self.binary_byte_2());
        assert(bytes@ =~= self.spec_binary());
        bytes
    }

    fn get_bit_display_information(&self) -> (ranges: Vec<EnabledBitRange>) {
        let ranges = self.bit_display_byte_0();
        let ranges = append_bit_ranges(ranges, self.bit_display_byte_1());
        let ranges = append_bit_ranges(ranges, self.bit_display_byte_2());
        ranges
    }

    proof fn lemma_bit_display_in_order(&self) {
        broadcast use group_bit_range_order;

        let b0 = self.spec_bit_display_byte_0();
        let b1 = self.spec_bit_display_byte_1();
        let b2 = self.spec_bit_display_byte_2();
        assert(ranges_in_order(b0, 24) && ranges_left_of(b0, 15));
        assert(ranges_in_order(b1, 24) && ranges_left_of(b1, 7) && ranges_start_at_most(b1, 15));
        assert(ranges_in_order(b2, 24) && ranges_left_of(b2, -1) && ranges_start_at_most(b2, 7));
        lemma_concat_in_order(b0, b1, 24, 15, 7);
        lemma_concat_in_order(b0 + b1, b2, 24, 7, -1);
    }
}

proof fn lemma_terminal_capabilities_byte_0_of_parsed(bytes: Seq<u8>)
    requires
        bytes.len() == 3,
    ensures
        TerminalCapabilities::spec_from_bytes(bytes).spec_byte_0() == bytes[0] & 0xE0u8,
{
    lemma_byte_of_bits(bytes[0], 0xE0u8, true, true, true, false, false, false, false, false);
}

proof fn lemma_terminal_capabilities_byte_1_of_parsed(bytes: Seq<u8>)
    requires
        bytes.len() == 3,
    ensures
        TerminalCapabilities::spec_from_bytes(bytes).spec_byte_1() == bytes[1] & 0xF8u8,
{
    lemma_byte_of_bits(bytes[1], 0xF8u8, true, true, true, true, true, false, false, false);
}

proof fn lemma_terminal_capabilities_byte_2_of_parsed(bytes: Seq<u8>)
    requires
        bytes.len() == 3,
    ensures
        TerminalCapabilities::spec_from_bytes(bytes).spec_byte_2() == bytes[2] & 0xE8u8,
{
    lemma_byte_of_bits(bytes[2], 0xE8u8, true, true, true, false, true, false, false, false);
}

/// Writing parsed bytes back gives the bytes with the bits that have no
/// meaning cleared.
pub proof fn lemma_terminal_capabilities_binary_of_parsed(bytes: Seq<u8>)
    requires
        bytes.len() == 3,
    ensures
        TerminalCapabilities::spec_from_bytes(bytes).spec_binary() == TerminalCapabilities::used_bits_of(bytes),
{
    lemma_terminal_capabilities_byte_0_of_parsed(bytes);
    lemma_terminal_capabilities_byte_1_of_parsed(bytes);
    lemma_terminal_capabilities_byte_2_of_parsed(bytes);
    assert(TerminalCapabilities::spec_from_bytes(bytes).spec_binary() =~= TerminalCapabilities::used_bits_of(bytes));
}

/// Parsing the bytes of a value gives the value back.
pub proof fn lemma_terminal_capabilities_parse_of_binary(value: TerminalCapabilities)
    ensures
        TerminalCapabilities::spec_from_bytes(value.spec_binary()) == value,
{
    let bytes = value.spec_binary();
    lemma_bits_of_byte(value.input_manual_key_entry, value.input_magnetic_stripe, value.input_icc, false, false, false, false, false);
    assert(bytes[0] == value.spec_byte_0());
    lemma_bits_of_byte(value.cvm_plaintext_pin_for_icc_verification, value.cvm_enciphered_pin_for_online_verification, value.cvm_signature, value.cvm_enciphered_pin_for_offline_verification, value.cvm_no_cvm_required, false, false, false);
    assert(bytes[1] == value.spec_byte_1());
    lemma_bits_of_byte(value.security_sda, value.security_dda, value.security_card_capture, false, value.security_cda, false, false, false);
    assert(bytes[2] == value.spec_byte_2());
}

/// Two inputs give the same value exactly when they agree on the bits that
/// have a meaning.
pub proof fn lemma_terminal_capabilities_parse_injective(a: Seq<u8>, b: Seq<u8>)
    requires
        a.len() == 3,
        b.len() == 3,
    ensures
        (TerminalCapabilities::spec_from_bytes(a) == TerminalCapabilities::spec_from_bytes(b)) <==> (TerminalCapabilities::used_bits_of(a) == TerminalCapabilities::used_bits_of(b)),
{
    lemma_terminal_capabilities_binary_of_parsed(a);
    lemma_terminal_capabilities_binary_of_parsed(b);
    lemma_terminal_capabilities_parse_of_binary(TerminalCapabilities::spec_from_bytes(a));
    lemma_terminal_capabilities_parse_of_binary(TerminalCapabilities::spec_from_bytes(b));
}

#[verifier::rlimit(40)]
proof fn lemma_terminal_capabilities_byte_0_shown(value: TerminalCapabilities)
    ensures
        range_at(value.spec_bit_display_byte_0(), 23) == if value.input_manual_key_entry {
            Some(bit_range(23, 1, "Manual key entry"@, Severity::Normal))
        } else {
            None
        },
        range_at(value.spec_bit_display_byte_0(), 22) == if value.input_magnetic_stripe {
            Some(bit_range(22, 1, "Magnetic stripe"@, Severity::Normal))
        } else {
            None
        },
        range_at(value.spec_bit_display_byte_0(), 21) == if value.input_icc {
            Some(bit_range(21, 1, "IC with contacts"@, Severity::Normal))
        } else {
            None
        },
        forall|o: u8| !(o == 23 || o == 22 || o == 21) ==> #[trigger] range_at(value.spec_bit_display_byte_0(), o) is None,
{
    broadcast use group_range_at;

    assert forall|o: u8| !(o == 23 || o == 22 || o == 21) implies #[trigger] range_at(value.spec_bit_display_byte_0(), o) is None by {
    }
}

#[verifier::rlimit(40)]
proof fn lemma_terminal_capabilities_byte_1_shown(value: TerminalCapabilities)
    ensures
        range_at(value.spec_bit_display_byte_1(), 15) == if value.cvm_plaintext_pin_for_icc_verification {
            Some(bit_range(15, 1, "Plaintext PIN for ICC verification"@, Severity::Normal))
        } else {
            None
        },
        range_at(value.spec_bit_display_byte_1(), 14) == if value.cvm_enciphered_pin_for_online_verification {
            Some(bit_range(14, 1, "Enciphered PIN for online verification"@, Severity::Normal))
        } else {
            None
        },
        range_at(value.spec_bit_display_byte_1(), 13) == if value.cvm_signature {
            Some(bit_range(13, 1, "Signature (paper)"@, Severity::Normal))
        } else {
            None
        },
        range_at(value.spec_bit_display_byte_1(), 12) == if value.cvm_enciphered_pin_for_offline_verification {
            Some(bit_range(12, 1, "Enciphered PIN for offline verification"@, Severity::Normal))
        } else {
            None
        },
        range_at(value.spec_bit_display_byte_1(), 11) == if value.cvm_no_cvm_required {
            Some(bit_range(11, 1, "No CVM Required"@, Severity::Normal))
        } else {
            None
        },
        forall|o: u8| !(o == 15 || o == 14 || o == 13 || o == 12 || o == 11) ==> #[trigger] range_at(value.spec_bit_display_byte_1(), o) is None,
{
    broadcast use group_range_at;

    assert forall|o: u8| !(o == 15 || o == 14 || o == 13 || o == 12 || o == 11) implies #[trigger] range_at(value.spec_bit_display_byte_1(), o) is None by {
    }
}

#[verifier::rlimit(40)]
proof fn lemma_terminal_capabilities_byte_2_shown(value: TerminalCapabilities)
    ensures
        range_at(value.spec_bit_display_byte_2(), 7) == if value.security_sda {
            Some(bit_range(7, 1, "SDA (Static Data Authentication)"@, Severity::Normal))
        } else {
            None
        },
        range_at(value.spec_bit_display_byte_2(), 6) == if value.security_dda {
            Some(bit_range(6, 1, "DDA (Dynamic Data Authentication)"@, Severity::Normal))
        } else {
            None
        },
        range_at(value.spec_bit_display_byte_2(), 5) == if value.security_card_capture {
            Some(bit_range(5, 1, "Card capture (ATM retaining the card)"@, Severity::Normal))
        } else {
            None
        },
        range_at(value.spec_bit_display_byte_2(), 3) == if value.security_cda {
            Some(bit_range(3, 1, "CDA (Combined Data Authentication)"@, Severity::Normal))
        } else {
            None
        },
        forall|o: u8| !(o == 7 || o == 6 || o == 5 || o == 3) ==> #[trigger] range_at(value.spec_bit_display_byte_2(), o) is None,
{
    broadcast use group_range_at;

    assert forall|o: u8| !(o == 7 || o == 6 || o == 5 || o == 3) implies #[trigger] range_at(value.spec_bit_display_byte_2(), o) is None by {
    }
}

/// Reading raw bytes: each flag and value comes from its own bits, and the
/// display shows at the first of those bits a range with its meaning (a
/// flag only when it is set); no other bit starts a range.
#[verifier::rlimit(40)]
pub proof fn lemma_terminal_capabilities_bits_shown(bytes: Seq<u8>, offset: u8)
    requires
        bytes.len() == 3,
    ensures
        TerminalCapabilities::spec_try_from(bytes) is Ok,
        ({
            let value = TerminalCapabilities::spec_try_from(bytes)->Ok_0;
            let shown = value.spec_bit_display_information();
            &&& value.input_manual_key_entry == (bytes[0] & 0x80u8 != 0)
            &&& range_at(shown, 23) == if bytes[0] & 0x80u8 != 0 {
                Some(bit_range(23, 1, "Manual key entry"@, Severity::Normal))
            } else {
                None
            }
            &&& value.input_magnetic_stripe == (bytes[0] & 0x40u8 != 0)
            &&& range_at(shown, 22) == if bytes[0] & 0x40u8 != 0 {
                Some(bit_range(22, 1, "Magnetic stripe"@, Severity::Normal))
            } else {
                None
            }
            &&& value.input_icc == (bytes[0] & 0x20u8 != 0)
            &&& range_at(shown, 21) == if bytes[0] & 0x20u8 != 0 {
                Some(bit_range(21, 1, "IC with contacts"@, Severity::Normal))
            } else {
                None
            }
            &&& value.cvm_plaintext_pin_for_icc_verification == (bytes[1] & 0x80u8 != 0)
            &&& range_at(shown, 15) == if bytes[1] & 0x80u8 != 0 {
                Some(bit_range(15, 1, "Plaintext PIN for ICC verification"@, Severity::Normal))
            } else {
                None
            }
            &&& value.cvm_enciphered_pin_for_online_verification == (bytes[1] & 0x40u8 != 0)
            &&& range_at(shown, 14) == if bytes[1] & 0x40u8 != 0 {
                Some(bit_range(14, 1, "Enciphered PIN for online verification"@, Severity::Normal))
            } else {
                None
            }
            &&& value.cvm_signature == (bytes[1] & 0x20u8 != 0)
            &&& range_at(shown, 13) == if bytes[1] & 0x20u8 != 0 {
                Some(bit_range(13, 1, "Signature (paper)"@, Severity::Normal))
            } else {
                None
            }
            &&& value.cvm_enciphered_pin_for_offline_verification == (bytes[1] & 0x10u8 != 0)
            &&& range_at(shown, 12) == if bytes[1] & 0x10u8 != 0 {
                Some(bit_range(12, 1, "Enciphered PIN for offline verification"@, Severity::Normal))
            } else {
                None
            }
            &&& value.cvm_no_cvm_required == (bytes[1] & 0x08u8 != 0)
            &&& range_at(shown, 11) == if bytes[1] & 0x08u8 != 0 {
                Some(bit_range(11, 1, "No CVM Required"@, Severity::Normal))
            } else {
                None
            }
            &&& value.security_sda == (bytes[2] & 0x80u8 != 0)
            &&& range_at(shown, 7) == if bytes[2] & 0x80u8 != 0 {
                Some(bit_range(7, 1, "SDA (Static Data Authentication)"@, Severity::Normal))
            } else {
                None
            }
            &&& value.security_dda == (bytes[2] & 0x40u8 != 0)
            &&& range_at(shown, 6) == if bytes[2] & 0x40u8 != 0 {
                Some(bit_range(6, 1, "DDA (Dynamic Data Authentication)"@, Severity::Normal))
            } else {
                None
            }
            &&& value.security_card_capture == (bytes[2] & 0x20u8 != 0)
            &&& range_at(shown, 5) == if bytes[2] & 0x20u8 != 0 {
                Some(bit_range(5, 1, "Card capture (ATM retaining the card)"@, Severity::Normal))
            } else {
                None
            }
            &&& value.security_cda == (bytes[2] & 0x08u8 != 0)
            &&& range_at(shown, 3) == if bytes[2] & 0x08u8 != 0 {
                Some(bit_range(3, 1, "CDA (Combined Data Authentication)"@, Severity::Normal))
            } else {
                None
            }
            &&& !(offset == 23 || offset == 22 || offset == 21 || offset == 15 || offset == 14 || offset == 13 || offset == 12 || offset == 11 || offset == 7 || offset == 6 || offset == 5 || offset == 3) ==> range_at(shown, offset) is None
        }),
{
    broadcast use group_range_at;

    let value = TerminalCapabilities::spec_try_from(bytes)->Ok_0;
    lemma_terminal_capabilities_byte_0_shown(value);
    lemma_terminal_capabilities_byte_1_shown(value);
    lemma_terminal_capabilities_byte_2_shown(value);
}

} // verus!
