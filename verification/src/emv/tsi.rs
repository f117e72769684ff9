//! Everything for handling Transaction Status Information (TSI) values.
//!
//! Information for this can be found in EMV Book 3, under section `C6`.
use vstd::prelude::*;

use crate::emv::bitflag_values::{
    group_range_at, range_at,
    group_bit_range_order, lemma_concat_in_order, ranges_in_order, ranges_left_of, ranges_start_at_most,
    append_bit_ranges, bit_range, bit_range_models, bits_to_byte, byte_from_bits, lemma_bits_of_byte, lemma_byte_of_bits,
    push_bit_range_if, push_if, BitRangeModel, BitflagValue, EnabledBitRange, Severity,
};
use crate::error::{Comparison, ParseError};
use vstd::std_specs::convert::TryFromSpecImpl;

verus! {

/// Transaction Status Information (TSI): the functions performed in a transaction.
#[derive(Clone, Copy, Debug, PartialEq, Eq, Structural, Hash)]
pub struct TransactionStatusInformation {
    pub offline_data_authentication_performed: bool,
    pub cardholder_verification_performed: bool,
    pub card_risk_management_performed: bool,
    pub issuer_authentication_performed: bool,
    pub terminal_risk_management_performed: bool,
    pub script_processing_performed: bool,
}

impl TransactionStatusInformation {
    /// The value written by raw bytes (`2` of them).
    pub open spec fn spec_from_bytes(bytes: Seq<u8>) -> TransactionStatusInformation {
        TransactionStatusInformation {
            offline_data_authentication_performed: bytes[0] & 0x80u8 != 0,
            cardholder_verification_performed: bytes[0] & 0x40u8 != 0,
            card_risk_management_performed: bytes[0] & 0x20u8 != 0,
            issuer_authentication_performed: bytes[0] & 0x10u8 != 0,
            terminal_risk_management_performed: bytes[0] & 0x08u8 != 0,
            script_processing_performed: bytes[0] & 0x04u8 != 0,
        }
    }

    /// Byte 0 of the raw value; bits without a meaning are clear.
    pub open spec fn spec_byte_0(self) -> u8 {
        byte_from_bits(self.offline_data_authentication_performed, self.cardholder_verification_performed, self.card_risk_management_performed, self.issuer_authentication_performed, self.terminal_risk_management_performed, self.script_processing_performed, false, false)
    }

    /// Byte 1 of the raw value; bits without a meaning are clear.
    pub open spec fn spec_byte_1(self) -> u8 {
        byte_from_bits(false, false, false, false, false, false, false, false)
    }

    /// The raw bytes of the value.
    pub open spec fn spec_binary(self) -> Seq<u8> {
        seq![self.spec_byte_0(), self.spec_byte_1()]
    }

    /// `bytes` with the bits that have no meaning cleared.
    pub open spec fn used_bits_of(bytes: Seq<u8>) -> Seq<u8> {
        seq![bytes[0] & 0xFCu8, bytes[1] & 0x00u8]
    }

    /// Parsing: exactly `2` bytes are required.
    pub open spec fn spec_try_from(bytes: Seq<u8>) -> Result<TransactionStatusInformation, ParseError> {
        if bytes.len() != 2 {
            Err(ParseError::ByteCountIncorrect { comparison: Comparison::Equal, expected: 2, found: bytes.len() as usize })
        } else {
            Ok(TransactionStatusInformation::spec_from_bytes(bytes))
        }
    }

    /// The enabled bits of byte 0, left to right, with their meaning.
    pub open spec fn spec_bit_display_byte_0(self) -> Seq<BitRangeModel> {
        push_if(push_if(push_if(push_if(push_if(push_if(Seq::<BitRangeModel>::empty(), self.offline_data_authentication_performed, bit_range(15, 1, "Offline data authentication was performed"@, Severity::Normal)), self.cardholder_verification_performed, bit_range(14, 1, "Cardholder verification was performed"@, Severity::Normal)), self.card_risk_management_performed, bit_range(13, 1, "Card risk management was performed"@, Severity::Normal)), self.issuer_authentication_performed, bit_range(12, 1, "Issuer authentication was performed"@, Severity::Normal)), self.terminal_risk_management_performed, bit_range(11, 1, "Terminal risk management was performed"@, Severity::Normal)), self.script_processing_performed, bit_range(10, 1, "Script processing was performed"@, Severity::Normal))
    }

    /// The enabled bits of byte 1, left to right, with their meaning.
    pub open spec fn spec_bit_display_byte_1(self) -> Seq<BitRangeModel> {
        Seq::<BitRangeModel>::empty()
    }

    /// The enabled bits, left to right, with their meaning.
    pub open spec fn spec_bit_display(self) -> Seq<BitRangeModel> {
        self.spec_bit_display_byte_0() + self.spec_bit_display_byte_1()
    }

    /// Builds the value from its raw bytes.
    pub fn from_bytes(raw_bytes: &[u8]) -> (value: TransactionStatusInformation)
        requires
            raw_bytes@.len() == 2,
        ensures
            value == TransactionStatusInformation::spec_from_bytes(raw_bytes@),
    {
        TransactionStatusInformation {
            offline_data_authentication_performed: raw_bytes[0] & 0x80u8 != 0,
            cardholder_verification_performed: raw_bytes[0] & 0x40u8 != 0,
            card_risk_management_performed: raw_bytes[0] & 0x20u8 != 0,
            issuer_authentication_performed: raw_bytes[0] & 0x10u8 != 0,
            terminal_risk_management_performed: raw_bytes[0] & 0x08u8 != 0,
            script_processing_performed: raw_bytes[0] & 0x04u8 != 0,
        }
    }

    fn binary_byte_0(&self) -> (byte: u8)
        ensures
            byte == self.spec_byte_0(),
    {
        bits_to_byte(self.offline_data_authentication_performed, self.cardholder_verification_performed, self.card_risk_management_performed, self.issuer_authentication_performed, self.terminal_risk_management_performed, self.script_processing_performed, false, false)
    }

    fn binary_byte_1(&self) -> (byte: u8)
        ensures
            byte == self.spec_byte_1(),
    {
        bits_to_byte(false, false, false, false, false, false, false, false)
    }

    fn bit_display_byte_0(&self) -> (ranges: Vec<EnabledBitRange>)
        ensures
            bit_range_models(ranges@) == self.spec_bit_display_byte_0(),
    {
        let ranges: Vec<EnabledBitRange> = Vec::new();
        assert(bit_range_models(ranges@) =~= Seq::<BitRangeModel>::empty());
        let ranges = push_bit_range_if(ranges, self.offline_data_authentication_performed, 15, 1, "Offline data authentication was performed", Severity::Normal);
        let ranges = push_bit_range_if(ranges, self.cardholder_verification_performed, 14, 1, "Cardholder verification was performed", Severity::Normal);
        let ranges = push_bit_range_if(ranges, self.card_risk_management_performed, 13, 1, "Card risk management was performed", Severity::Normal);
        let ranges = push_bit_range_if(ranges, self.issuer_authentication_performed, 12, 1, "Issuer authentication was performed", Severity::Normal);
        let ranges = push_bit_range_if(ranges, self.terminal_risk_management_performed, 11, 1, "Terminal risk management was performed", Severity::Normal);
        let ranges = push_bit_range_if(ranges, self.script_processing_performed, 10, 1, "Script processing was performed", Severity::Normal);
        ranges
    }

    fn bit_display_byte_1(&self) -> (ranges: Vec<EnabledBitRange>)
        ensures
            bit_range_models(ranges@) == self.spec_bit_display_byte_1(),
    {
        let ranges: Vec<EnabledBitRange> = Vec::new();
        assert(bit_range_models(ranges@) =~= Seq::<BitRangeModel>::empty());
        ranges
    }

}

impl<'a> TryFrom<&'a [u8]> for TransactionStatusInformation {
    type Error = ParseError;

    fn try_from(raw_bytes: &'a [u8]) -> (result: Result<TransactionStatusInformation, ParseError>)
        ensures
            result == TransactionStatusInformation::spec_try_from(raw_bytes@),
    {
        if raw_bytes.len() != 2 {
            return Err(ParseError::ByteCountIncorrect { comparison: Comparison::Equal, expected: 2, found: raw_bytes.len() });
        }
        Ok(TransactionStatusInformation::from_bytes(raw_bytes))
    }
}

impl<'a> TryFromSpecImpl<&'a [u8]> for TransactionStatusInformation {
    open spec fn obeys_try_from_spec() -> bool {
        true
    }

    open spec fn try_from_spec(raw_bytes: &'a [u8]) -> Result<TransactionStatusInformation, ParseError> {
        TransactionStatusInformation::spec_try_from(raw_bytes@)
    }
}

impl BitflagValue for TransactionStatusInformation {
    const NUM_BYTES: usize = 2;

    open spec fn spec_binary_representation(&self) -> Seq<u8> {
        self.spec_binary()
    }

    open spec fn spec_bit_display_information(&self) -> Seq<BitRangeModel> {
        self.spec_bit_display()
    }

    fn get_binary_representation(&self) -> (bytes: Vec<u8>) {
        let mut bytes: Vec<u8> = Vec::new();
        bytes.push(self.binary_byte_0());
        bytes.push(self.binary_byte_1());
        assert(bytes@ =~= self.spec_binary());
        bytes
    }

    fn get_bit_display_information(&self) -> (ranges: Vec<EnabledBitRange>) {
        let ranges = self.bit_display_byte_0();
        let ranges = append_bit_ranges(ranges, self.bit_display_byte_1());
        ranges
    }

    proof fn lemma_bit_display_in_order(&self) {
        broadcast use group_bit_range_order;

        let b0 = self.spec_bit_display_byte_0();
        let b1 = self.spec_bit_display_byte_1();
        assert(ranges_in_order(b0, 16) && ranges_left_of(b0, 7));
        assert(ranges_in_order(b1, 16) && ranges_left_of(b1, -1) && ranges_start_at_most(b1, 7));
        lemma_concat_in_order(b0, b1, 16, 7, -1);
    }
}

proof fn lemma_transaction_status_information_byte_0_of_parsed(bytes: Seq<u8>)
    requires
        bytes.len() == 2,
    ensures
        TransactionStatusInformation::spec_from_bytes(bytes).spec_byte_0() == bytes[0] & 0xFCu8,
{
    lemma_byte_of_bits(bytes[0], 0xFCu8, true, true, true, true, true, true, false, false);
}

proof fn lemma_transaction_status_information_byte_1_of_parsed(bytes: Seq<u8>)
    requires
        bytes.len() == 2,
    ensures
        TransactionStatusInformation::spec_from_bytes(bytes).spec_byte_1() == bytes[1] & 0x00u8,
{
    lemma_byte_of_bits(bytes[1], 0x00u8, false, false, false, false, false, false, false, false);
}

/// Writing parsed bytes back gives the bytes with the bits that have no
/// meaning cleared.
pub proof fn lemma_transaction_status_information_binary_of_parsed(bytes: Seq<u8>)
    requires
        bytes.len() == 2,
    ensures
        TransactionStatusInformation::spec_from_bytes(bytes).spec_binary() == TransactionStatusInformation::used_bits_of(bytes),
{
    lemma_transaction_status_information_byte_0_of_parsed(bytes);
    lemma_transaction_status_information_byte_1_of_parsed(bytes);
    assert(TransactionStatusInformation::spec_from_bytes(bytes).spec_binary() =~= TransactionStatusInformation::used_bits_of(bytes));
}

/// Parsing the bytes of a value gives the value back.
pub proof fn lemma_transaction_status_information_parse_of_binary(value: TransactionStatusInformation)
    ensures
        TransactionStatusInformation::spec_from_bytes(value.spec_binary()) == value,
{
    let bytes = value.spec_binary();
    lemma_bits_of_byte(value.offline_data_authentication_performed, value.cardholder_verification_performed, value.card_risk_management_performed, value.issuer_authentication_performed, value.terminal_risk_management_performed, value.script_processing_performed, false, false);
    assert(bytes[0] == value.spec_byte_0());
    lemma_bits_of_byte(false, false, false, false, false, false, false, false);
    assert(bytes[1] == value.spec_byte_1());
}

/// Two inputs give the same value exactly when they agree on the bits that
/// have a meaning.
pub proof fn lemma_transaction_status_information_parse_injective(a: Seq<u8>, b: Seq<u8>)
    requires
        a.len() == 2,
        b.len() == 2,
    ensures
        (TransactionStatusInformation::spec_from_bytes(a) == TransactionStatusInformation::spec_from_bytes(b)) <==> (TransactionStatusInformation::used_bits_of(a) == TransactionStatusInformation::used_bits_of(b)),
{
    lemma_transaction_status_information_binary_of_parsed(a);
    lemma_transaction_status_information_binary_of_parsed(b);
    lemma_transaction_status_information_parse_of_binary(TransactionStatusInformation::spec_from_bytes(a));
    lemma_transaction_status_information_parse_of_binary(TransactionStatusInformation::spec_from_bytes(b));
}

#[verifier::rlimit(40)]
proof fn lemma_transaction_status_information_byte_0_shown(value: TransactionStatusInformation)
    ensures
        range_at(value.spec_bit_display_byte_0(), 15) == if value.offline_data_authentication_performed {
            Some(bit_range(15, 1, "Offline data authentication was performed"@, Severity::Normal))
        } else {
            None
        },
        range_at(value.spec_bit_display_byte_0(), 14) == if value.cardholder_verification_performed {
            Some(bit_range(14, 1, "Cardholder verification was performed"@, Severity::Normal))
        } else {
            None
        },
        range_at(value.spec_bit_display_byte_0(), 13) == if value.card_risk_management_performed {
            Some(bit_range(13, 1, "Card risk management was performed"@, Severity::Normal))
        } else {
            None
        },
        range_at(value.spec_bit_display_byte_0(), 12) == if value.issuer_authentication_performed {
            Some(bit_range(12, 1, "Issuer authentication was performed"@, Severity::Normal))
        } else {
            None
        },
        range_at(value.spec_bit_display_byte_0(), 11) == if value.terminal_risk_management_performed {
            Some(bit_range(11, 1, "Terminal risk management was performed"@, Severity::Normal))
        } else {
            None
        },
        range_at(value.spec_bit_display_byte_0(), 10) == if value.script_processing_performed {
            Some(bit_range(10, 1, "Script processing was performed"@, Severity::Normal))
        } else {
            None
        },
        forall|o: u8| !(o == 15 || o == 14 || o == 13 || o == 12 || o == 11 || o == 10) ==> #[trigger] range_at(value.spec_bit_display_byte_0(), o) is None,
{
    broadcast use group_range_at;

    assert forall|o: u8| !(o == 15 || o == 14 || o == 13 || o == 12 || o == 11 || o == 10) implies #[trigger] range_at(value.spec_bit_display_byte_0(), o) is None by {
    }
}

#[verifier::rlimit(40)]
proof fn lemma_transaction_status_information_byte_1_shown(value: TransactionStatusInformation)
    ensures
        forall|o: u8| !(false) ==> #[trigger] range_at(value.spec_bit_display_byte_1(), o) is None,
{
    broadcast use group_range_at;

    assert forall|o: u8| !(false) implies #[trigger] range_at(value.spec_bit_display_byte_1(), o) is None by {
    }
}

/// Reading raw bytes: each flag and value comes from its own bits, and the
/// display shows at the first of those bits a range with its meaning (a
/// flag only when it is set); no other bit starts a range.
#[verifier::rlimit(40)]
pub proof fn lemma_transaction_status_information_bits_shown(bytes: Seq<u8>, offset: u8)
    requires
        bytes.len() == 2,
    ensures
        TransactionStatusInformation::spec_try_from(bytes) is Ok,
        ({
            let value = TransactionStatusInformation::spec_try_from(bytes)->Ok_0;
            let shown = value.spec_bit_display_information();
            &&& value.offline_data_authentication_performed == (bytes[0] & 0x80u8 != 0)
            &&& range_at(shown, 15) == if bytes[0] & 0x80u8 != 0 {
                Some(bit_range(15, 1, "Offline data authentication was performed"@, Severity::Normal))
            } else {
                None
            }
            &&& value.cardholder_verification_performed == (bytes[0] & 0x40u8 != 0)
            &&& range_at(shown, 14) == if bytes[0] & 0x40u8 != 0 {
                Some(bit_range(14, 1, "Cardholder verification was performed"@, Severity::Normal))
            } else {
                None
            }
            &&& value.card_risk_management_performed == (bytes[0] & 0x20u8 != 0)
            &&& range_at(shown, 13) == if bytes[0] & 0x20u8 != 0 {
                Some(bit_range(13, 1, "Card risk management was performed"@, Severity::Normal))
            } else {
                None
            }
            &&& value.issuer_authentication_performed == (bytes[0] & 0x10u8 != 0)
            &&& range_at(shown, 12) == if bytes[0] & 0x10u8 != 0 {
                Some(bit_range(12, 1, "Issuer authentication was performed"@, Severity::Normal))
            } else {
                None
            }
            &&& value.terminal_risk_management_performed == (bytes[0] & 0x08u8 != 0)
            &&& range_at(shown, 11) == if bytes[0] & 0x08u8 != 0 {
                Some(bit_range(11, 1, "Terminal risk management was performed"@, Severity::Normal))
            } else {
                None
            }
            &&& value.script_processing_performed == (bytes[0] & 0x04u8 != 0)
            &&& range_at(shown, 10) == if bytes[0] & 0x04u8 != 0 {
                Some(bit_range(10, 1, "Script processing was performed"@, Severity::Normal))
            } else {
                None
            }
            &&& !(offset == 15 || offset == 14 || offset == 13 || offset == 12 || offset == 11 || offset == 10) ==> range_at(shown, offset) is None
        }),
{
    broadcast use group_range_at;

    let value = TransactionStatusInformation::spec_try_from(bytes)->Ok_0;
    lemma_transaction_status_information_byte_0_shown(value);
    lemma_transaction_status_information_byte_1_shown(value);
}

} // verus!
