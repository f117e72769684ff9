//! Everything for handling Card Verification Results (CVR) values.
//!
//! Information for this can be found in EMV Book 3, under section `C7.3`.
use vstd::prelude::*;

use crate::emv::bitflag_values::{
    group_range_at, range_at,
    group_bit_range_order, lemma_concat_in_order, ranges_in_order, ranges_left_of, ranges_start_at_most,
    append_bit_ranges, bit_range, bit_range_models, bits_to_byte, byte_from_bits, crumbs_byte, crumbs_to_byte,
    decimal_digits, decimal_string, lemma_bits_of_byte, lemma_byte_crumbs, lemma_byte_nibbles, lemma_byte_of_bits,
    lemma_crumbs_byte, lemma_nibble_byte, nibble_byte, nibbles_to_byte, push_bit_range_if, push_bit_range_with_value,
    push_if, BitRangeModel, BitflagValue, EnabledBitRange, Severity,
};
use crate::error::{Comparison, ParseError};
use vstd::std_specs::convert::TryFromSpecImpl;

verus! {

/// Card Verification Results (CVR): what the card did and decided in a transaction.
#[derive(Clone, Copy, Debug, PartialEq, Eq, Structural, Hash)]
pub struct CardVerificationResults {
    pub gen_ac_2_application_cryptogram_type: GenAc2ApplicationCryptogramType,
    pub gen_ac_1_application_cryptogram_type: GenAc1ApplicationCryptogramType,
    pub cda_performed: bool,
    pub offline_dda_performed: bool,
    pub issuer_authentication_not_performed: bool,
    pub issuer_authentication_failed: bool,
    pub pin_try_count: u8,
    pub offline_pin_verification_performed: bool,
    pub offline_pin_verification_failed: bool,
    pub pin_try_limit_exceeded: bool,
    pub last_online_transaction_not_completed: bool,
    pub offline_transaction_count_limit_lower_exceeded: bool,
    pub offline_transaction_count_limit_upper_exceeded: bool,
    pub offline_cumulative_amount_limit_lower_exceeded: bool,
    pub offline_cumulative_amount_limit_upper_exceeded: bool,
    pub issuer_discretionary_bit_1: bool,
    pub issuer_discretionary_bit_2: bool,
    pub issuer_discretionary_bit_3: bool,
    pub issuer_discretionary_bit_4: bool,
    pub successful_issuer_script_commands_with_secure_messaging: u8,
    pub issuer_script_processing_failed: bool,
    pub offline_data_authentication_failed_on_previous_transaction: bool,
    pub go_online_on_next_transaction: bool,
    pub unable_to_go_online: bool,
}

/// The type of application cryptogram returned by the first GENERATE AC.
#[derive(Clone, Copy, Debug, PartialEq, Eq, Structural, Hash)]
pub enum GenAc1ApplicationCryptogramType {
    /// AAC (Application Authentication Cryptogram)
    Aac,
    /// TC (Transaction Certificate)
    Tc,
    /// ARQC (Authorization Request Cryptogram)
    Arqc,
    /// RFU (Reserved For Use)
    Rfu,
}

impl GenAc1ApplicationCryptogramType {
    /// The value that `code` stands for, if any.
    pub open spec fn spec_from_code(code: u8) -> Option<GenAc1ApplicationCryptogramType> {
        if code == 0x00u8 {
            Some(GenAc1ApplicationCryptogramType::Aac)
        } else if code == 0x01u8 {
            Some(GenAc1ApplicationCryptogramType::Tc)
        } else if code == 0x02u8 {
            Some(GenAc1ApplicationCryptogramType::Arqc)
        } else if code == 0x03u8 {
            Some(GenAc1ApplicationCryptogramType::Rfu)
        } else {
            None
        }
    }

    /// The code of the value.
    pub open spec fn spec_code(self) -> u8 {
        match self {
            GenAc1ApplicationCryptogramType::Aac => 0x00u8,
            GenAc1ApplicationCryptogramType::Tc => 0x01u8,
            GenAc1ApplicationCryptogramType::Arqc => 0x02u8,
            GenAc1ApplicationCryptogramType::Rfu => 0x03u8,
        }
    }

    /// What the value means, in words.
    pub open spec fn spec_description(self) -> Seq<char> {
        match self {
            GenAc1ApplicationCryptogramType::Aac => "AAC (Application Authentication Cryptogram)"@,
            GenAc1ApplicationCryptogramType::Tc => "TC (Transaction Certificate)"@,
            GenAc1ApplicationCryptogramType::Arqc => "ARQC (Authorization Request Cryptogram)"@,
            GenAc1ApplicationCryptogramType::Rfu => "RFU (Reserved For Use)"@,
        }
    }

    /// Conversion from a code: the value it stands for, or an error.
    pub open spec fn spec_try_from(code: u8) -> Result<GenAc1ApplicationCryptogramType, ParseError> {
        match GenAc1ApplicationCryptogramType::spec_from_code(code) {
            Some(value) => Ok(value),
            None => Err(ParseError::NonCcdCompliant),
        }
    }

    /// The code of the value.
    pub fn code(&self) -> (code: u8)
        ensures
            code == self.spec_code(),
    {
        match self {
            GenAc1ApplicationCryptogramType::Aac => 0x00u8,
            GenAc1ApplicationCryptogramType::Tc => 0x01u8,
            GenAc1ApplicationCryptogramType::Arqc => 0x02u8,
            GenAc1ApplicationCryptogramType::Rfu => 0x03u8,
        }
    }

    /// What the value means, in words.
    pub fn description(&self) -> (text: &'static str)
        ensures
            text@ == self.spec_description(),
    {
        match self {
            GenAc1ApplicationCryptogramType::Aac => "AAC (Application Authentication Cryptogram)",
            GenAc1ApplicationCryptogramType::Tc => "TC (Transaction Certificate)",
            GenAc1ApplicationCryptogramType::Arqc => "ARQC (Authorization Request Cryptogram)",
            GenAc1ApplicationCryptogramType::Rfu => "RFU (Reserved For Use)",
        }
    }
}

impl TryFrom<u8> for GenAc1ApplicationCryptogramType {
    type Error = ParseError;

    fn try_from(code: u8) -> (result: Result<GenAc1ApplicationCryptogramType, ParseError>)
        ensures
            result == GenAc1ApplicationCryptogramType::spec_try_from(code),
    {
        match code {
            0x00u8 => Ok(GenAc1ApplicationCryptogramType::Aac),
            0x01u8 => Ok(GenAc1ApplicationCryptogramType::Tc),
            0x02u8 => Ok(GenAc1ApplicationCryptogramType::Arqc),
            0x03u8 => Ok(GenAc1ApplicationCryptogramType::Rfu),
            _ => Err(ParseError::NonCcdCompliant),
        }
    }
}

impl TryFromSpecImpl<u8> for GenAc1ApplicationCryptogramType {
    open spec fn obeys_try_from_spec() -> bool {
        true
    }

    open spec fn try_from_spec(code: u8) -> Result<GenAc1ApplicationCryptogramType, ParseError> {
        GenAc1ApplicationCryptogramType::spec_try_from(code)
    }
}

/// A code stands for a value exactly when it is that value's code.
pub proof fn lemma_gen_ac1_application_cryptogram_type_codes(code: u8, value: GenAc1ApplicationCryptogramType)
    ensures
        (GenAc1ApplicationCryptogramType::spec_from_code(code) == Some(value)) <==> (code == value.spec_code()),
{
}

/// The type of application cryptogram returned by the second GENERATE AC.
#[derive(Clone, Copy, Debug, PartialEq, Eq, Structural, Hash)]
pub enum GenAc2ApplicationCryptogramType {
    /// AAC (Application Authentication Cryptogram)
    Aac,
    /// TC (Transaction Certificate)
    Tc,
    /// Second GENERATE AC not requested
    SecondGenAcNotRequested,
    /// RFU (Reserved For Use)
    Rfu,
}

impl GenAc2ApplicationCryptogramType {
    /// The value that `code` stands for, if any.
    pub open spec fn spec_from_code(code: u8) -> Option<GenAc2ApplicationCryptogramType> {
        if code == 0x00u8 {
            Some(GenAc2ApplicationCryptogramType::Aac)
        } else if code == 0x01u8 {
            Some(GenAc2ApplicationCryptogramType::Tc)
        } else if code == 0x02u8 {
            Some(GenAc2ApplicationCryptogramType::SecondGenAcNotRequested)
        } else if code == 0x03u8 {
            Some(GenAc2ApplicationCryptogramType::Rfu)
        } else {
            None
        }
    }

    /// The code of the value.
    pub open spec fn spec_code(self) -> u8 {
        match self {
            GenAc2ApplicationCryptogramType::Aac => 0x00u8,
            GenAc2ApplicationCryptogramType::Tc => 0x01u8,
            GenAc2ApplicationCryptogramType::SecondGenAcNotRequested => 0x02u8,
            GenAc2ApplicationCryptogramType::Rfu => 0x03u8,
        }
    }

    /// What the value means, in words.
    pub open spec fn spec_description(self) -> Seq<char> {
        match self {
            GenAc2ApplicationCryptogramType::Aac => "AAC (Application Authentication Cryptogram)"@,
            GenAc2ApplicationCryptogramType::Tc => "TC (Transaction Certificate)"@,
            GenAc2ApplicationCryptogramType::SecondGenAcNotRequested => "Second GENERATE AC not requested"@,
            GenAc2ApplicationCryptogramType::Rfu => "RFU (Reserved For Use)"@,
        }
    }

    /// Conversion from a code: the value it stands for, or an error.
    pub open spec fn spec_try_from(code: u8) -> Result<GenAc2ApplicationCryptogramType, ParseError> {
        match GenAc2ApplicationCryptogramType::spec_from_code(code) {
            Some(value) => Ok(value),
            None => Err(ParseError::NonCcdCompliant),
        }
    }

    /// The code of the value.
    pub fn code(&self) -> (code: u8)
        ensures
            code == self.spec_code(),
    {
        match self {
            GenAc2ApplicationCryptogramType::Aac => 0x00u8,
            GenAc2ApplicationCryptogramType::Tc => 0x01u8,
            GenAc2ApplicationCryptogramType::SecondGenAcNotRequested => 0x02u8,
            GenAc2ApplicationCryptogramType::Rfu => 0x03u8,
        }
    }

    /// What the value means, in words.
    pub fn description(&self) -> (text: &'static str)
        ensures
            text@ == self.spec_description(),
    {
        match self {
            GenAc2ApplicationCryptogramType::Aac => "AAC (Application Authentication Cryptogram)",
            GenAc2ApplicationCryptogramType::Tc => "TC (Transaction Certificate)",
            GenAc2ApplicationCryptogramType::SecondGenAcNotRequested => "Second GENERATE AC not requested",
            GenAc2ApplicationCryptogramType::Rfu => "RFU (Reserved For Use)",
        }
    }
}

impl TryFrom<u8> for GenAc2ApplicationCryptogramType {
    type Error = ParseError;

    fn try_from(code: u8) -> (result: Result<GenAc2ApplicationCryptogramType, ParseError>)
        ensures
            result == GenAc2ApplicationCryptogramType::spec_try_from(code),
    {
        match code {
            0x00u8 => Ok(GenAc2ApplicationCryptogramType::Aac),
            0x01u8 => Ok(GenAc2ApplicationCryptogramType::Tc),
            0x02u8 => Ok(GenAc2ApplicationCryptogramType::SecondGenAcNotRequested),
            0x03u8 => Ok(GenAc2ApplicationCryptogramType::Rfu),
            _ => Err(ParseError::NonCcdCompliant),
        }
    }
}

impl TryFromSpecImpl<u8> for GenAc2ApplicationCryptogramType {
    open spec fn obeys_try_from_spec() -> bool {
        true
    }

    open spec fn try_from_spec(code: u8) -> Result<GenAc2ApplicationCryptogramType, ParseError> {
        GenAc2ApplicationCryptogramType::spec_try_from(code)
    }
}

/// A code stands for a value exactly when it is that value's code.
pub proof fn lemma_gen_ac2_application_cryptogram_type_codes(code: u8, value: GenAc2ApplicationCryptogramType)
    ensures
        (GenAc2ApplicationCryptogramType::spec_from_code(code) == Some(value)) <==> (code == value.spec_code()),
{
}

impl CardVerificationResults {
    /// The value written by `bytes` (`5` of them), given the cryptogram types
    /// of the first byte.
    pub open spec fn spec_with(bytes: Seq<u8>, gen_ac_2: GenAc2ApplicationCryptogramType, gen_ac_1: GenAc1ApplicationCryptogramType) -> CardVerificationResults {
        CardVerificationResults {
            gen_ac_2_application_cryptogram_type: gen_ac_2,
            gen_ac_1_application_cryptogram_type: gen_ac_1,
            cda_performed: bytes[0] & 0x08u8 != 0,
            offline_dda_performed: bytes[0] & 0x04u8 != 0,
            issuer_authentication_not_performed: bytes[0] & 0x02u8 != 0,
            issuer_authentication_failed: bytes[0] & 0x01u8 != 0,
            pin_try_count: (bytes[1] & 0xF0u8) >> 4u8,
            offline_pin_verification_performed: bytes[1] & 0x08u8 != 0,
            offline_pin_verification_failed: bytes[1] & 0x04u8 != 0,
            pin_try_limit_exceeded: bytes[1] & 0x02u8 != 0,
            last_online_transaction_not_completed: bytes[1] & 0x01u8 != 0,
            offline_transaction_count_limit_lower_exceeded: bytes[2] & 0x80u8 != 0,
            offline_transaction_count_limit_upper_exceeded: bytes[2] & 0x40u8 != 0,
            offline_cumulative_amount_limit_lower_exceeded: bytes[2] & 0x20u8 != 0,
            offline_cumulative_amount_limit_upper_exceeded: bytes[2] & 0x10u8 != 0,
            issuer_discretionary_bit_1: bytes[2] & 0x08u8 != 0,
            issuer_discretionary_bit_2: bytes[2] & 0x04u8 != 0,
            issuer_discretionary_bit_3: bytes[2] & 0x02u8 != 0,
            issuer_discretionary_bit_4: bytes[2] & 0x01u8 != 0,
            successful_issuer_script_commands_with_secure_messaging: (bytes[3] & 0xF0u8) >> 4u8,
            issuer_script_processing_failed: bytes[3] & 0x08u8 != 0,
            offline_data_authentication_failed_on_previous_transaction: bytes[3] & 0x04u8 != 0,
            go_online_on_next_transaction: bytes[3] & 0x02u8 != 0,
            unable_to_go_online: bytes[3] & 0x01u8 != 0,
        }
    }

    /// Parsing: exactly `5` bytes are required, and the cryptogram types must
    /// be known.
    pub open spec fn spec_try_from(bytes: Seq<u8>) -> Result<CardVerificationResults, ParseError> {
        if bytes.len() != 5 {
            Err(ParseError::ByteCountIncorrect { comparison: Comparison::Equal, expected: 5, found: bytes.len() as usize })
        } else {
            match GenAc2ApplicationCryptogramType::spec_try_from((bytes[0] & 0xC0u8) >> 6u8) {
                Err(error) => Err(error),
                Ok(gen_ac_2) => match GenAc1ApplicationCryptogramType::spec_try_from((bytes[0] & 0x30u8) >> 4u8) {
                    Err(error) => Err(error),
                    Ok(gen_ac_1) => Ok(CardVerificationResults::spec_with(bytes, gen_ac_2, gen_ac_1)),
                },
            }
        }
    }

    /// The counters fit in the four bits they are stored in.
    pub open spec fn wf(self) -> bool {
        self.pin_try_count < 16 && self.successful_issuer_script_commands_with_secure_messaging < 16
    }

    /// Byte 0 of the raw value; counters keep their low four bits.
    pub open spec fn spec_byte_0(self) -> u8 {
        crumbs_byte(self.gen_ac_2_application_cryptogram_type.spec_code(), self.gen_ac_1_application_cryptogram_type.spec_code(), byte_from_bits(false, false, false, false, self.cda_performed, self.offline_dda_performed, self.issuer_authentication_not_performed, self.issuer_authentication_failed))
    }

    /// Byte 1 of the raw value; counters keep their low four bits.
    pub open spec fn spec_byte_1(self) -> u8 {
        nibble_byte(self.pin_try_count, byte_from_bits(false, false, false, false, self.offline_pin_verification_performed, self.offline_pin_verification_failed, self.pin_try_limit_exceeded, self.last_online_transaction_not_completed))
    }

    /// Byte 2 of the raw value; counters keep their low four bits.
    pub open spec fn spec_byte_2(self) -> u8 {
        byte_from_bits(self.offline_transaction_count_limit_lower_exceeded, self.offline_transaction_count_limit_upper_exceeded, self.offline_cumulative_amount_limit_lower_exceeded, self.offline_cumulative_amount_limit_upper_exceeded, self.issuer_discretionary_bit_1, self.issuer_discretionary_bit_2, self.issuer_discretionary_bit_3, self.issuer_discretionary_bit_4)
    }

    /// Byte 3 of the raw value; counters keep their low four bits.
    pub open spec fn spec_byte_3(self) -> u8 {
        nibble_byte(self.successful_issuer_script_commands_with_secure_messaging, byte_from_bits(false, false, false, false, self.issuer_script_processing_failed, self.offline_data_authentication_failed_on_previous_transaction, self.go_online_on_next_transaction, self.unable_to_go_online))
    }

    /// Byte 4 of the raw value; counters keep their low four bits.
    pub open spec fn spec_byte_4(self) -> u8 {
        0
    }

    /// The raw bytes of the value.
    pub open spec fn spec_binary(self) -> Seq<u8> {
        seq![self.spec_byte_0(), self.spec_byte_1(), self.spec_byte_2(), self.spec_byte_3(), self.spec_byte_4()]
    }

    /// `bytes` with the bits that have no meaning cleared.
    pub open spec fn used_bits_of(bytes: Seq<u8>) -> Seq<u8> {
        seq![bytes[0], bytes[1], bytes[2], bytes[3], 0]
    }

    /// The enabled bits and values of byte 0, left to right, with their meaning.
    pub open spec fn spec_bit_display_byte_0(self) -> Seq<BitRangeModel> {
        push_if(push_if(push_if(push_if(Seq::<BitRangeModel>::empty().push(bit_range(39, 2, "Application cryptogram type returned in 2nd GENERATE AC: "@ + self.gen_ac_2_application_cryptogram_type.spec_description(), Severity::Normal)).push(bit_range(37, 2, "Application cryptogram type returned in 1st GENERATE AC: "@ + self.gen_ac_1_application_cryptogram_type.spec_description(), Severity::Normal)), self.cda_performed, bit_range(35, 1, "CDA (Combined Data Authentication) performed"@, Severity::Normal)), self.offline_dda_performed, bit_range(34, 1, "Offline DDA (Dynamic Data Authentication) performed"@, Severity::Normal)), self.issuer_authentication_not_performed, bit_range(33, 1, "Issuer authentication not performed"@, Severity::Warning)), self.issuer_authentication_failed, bit_range(32, 1, "Issuer authentication failed"@, Severity::Error))
    }

    /// The enabled bits and values of byte 1, left to right, with their meaning.
    pub open spec fn spec_bit_display_byte_1(self) -> Seq<BitRangeModel> {
        push_if(push_if(push_if(push_if(Seq::<BitRangeModel>::empty().push(bit_range(31, 4, "PIN try count: "@ + decimal_digits(self.pin_try_count as nat), Severity::Normal)), self.offline_pin_verification_performed, bit_range(27, 1, "Offline PIN verification performed"@, Severity::Normal)), self.offline_pin_verification_failed, bit_range(26, 1, "Offline PIN verification performed and PIN not successfully verified"@, Severity::Error)), self.pin_try_limit_exceeded, bit_range(25, 1, "PIN try limit exceeded"@, Severity::Error)), self.last_online_transaction_not_completed, bit_range(24, 1, "Last online transaction not completed"@, Severity::Warning))
    }

    /// The enabled bits and values of byte 2, left to right, with their meaning.
    pub open spec fn spec_bit_display_byte_2(self) -> Seq<BitRangeModel> {
        push_if(push_if(push_if(push_if(push_if(push_if(push_if(push_if(Seq::<BitRangeModel>::empty(), self.offline_transaction_count_limit_lower_exceeded, bit_range(23, 1, "Lower offline transaction count limit exceeded"@, Severity::Normal)), self.offline_transaction_count_limit_upper_exceeded, bit_range(22, 1, "Upper offline transaction count limit exceeded"@, Severity::Normal)), self.offline_cumulative_amount_limit_lower_exceeded, bit_range(21, 1, "Lower cumulative offline amount limit exceeded"@, Severity::Normal)), self.offline_cumulative_amount_limit_upper_exceeded, bit_range(20, 1, "Upper cumulative offline amount limit exceeded"@, Severity::Normal)), self.issuer_discretionary_bit_1, bit_range(19, 1, "Issuer-discretionary bit 1"@, Severity::Normal)), self.issuer_discretionary_bit_2, bit_range(18, 1, "Issuer-discretionary bit 2"@, Severity::Normal)), self.issuer_discretionary_bit_3, bit_range(17, 1, "Issuer-discretionary bit 3"@, Severity::Normal)), self.issuer_discretionary_bit_4, bit_range(16, 1, "Issuer-discretionary bit 4"@, Severity::Normal))
    }

    /// The enabled bits and values of byte 3, left to right, with their meaning.
    pub open spec fn spec_bit_display_byte_3(self) -> Seq<BitRangeModel> {
        push_if(push_if(push_if(push_if(Seq::<BitRangeModel>::empty().push(bit_range(15, 4, "Number of successfully processed issuer script commands containing secure messaging: "@ + decimal_digits(self.successful_issuer_script_commands_with_secure_messaging as nat), Severity::Normal)), self.issuer_script_processing_failed, bit_range(11, 1, "Issuer script processing failed"@, Severity::Error)), self.offline_data_authentication_failed_on_previous_transaction, bit_range(10, 1, "Offline data authentication failed on previous transaction"@, Severity::Warning)), self.go_online_on_next_transaction, bit_range(9, 1, "Go online on next transaction"@, Severity::Normal)), self.unable_to_go_online, bit_range(8, 1, "Unable to go online"@, Severity::Warning))
    }

    /// The enabled bits and values of byte 4, left to right, with their meaning.
    pub open spec fn spec_bit_display_byte_4(self) -> Seq<BitRangeModel> {
        Seq::<BitRangeModel>::empty()
    }

    /// The enabled bits and values, left to right, with their meaning.
    pub open spec fn spec_bit_display(self) -> Seq<BitRangeModel> {
        self.spec_bit_display_byte_0() + self.spec_bit_display_byte_1() + self.spec_bit_display_byte_2() + self.spec_bit_display_byte_3() + self.spec_bit_display_byte_4()
    }

    fn from_parts(
        raw_bytes: &[u8],
        gen_ac_2_application_cryptogram_type: GenAc2ApplicationCryptogramType,
        gen_ac_1_application_cryptogram_type: GenAc1ApplicationCryptogramType,
    ) -> (value: CardVerificationResults)
        requires
            raw_bytes@.len() == 5,
        ensures
            value == CardVerificationResults::spec_with(raw_bytes@, gen_ac_2_application_cryptogram_type, gen_ac_1_application_cryptogram_type),
    {
        CardVerificationResults {
            gen_ac_2_application_cryptogram_type,
            gen_ac_1_application_cryptogram_type,
            cda_performed: raw_bytes[0] & 0x08u8 != 0,
            offline_dda_performed: raw_bytes[0] & 0x04u8 != 0,
            issuer_authentication_not_performed: raw_bytes[0] & 0x02u8 != 0,
            issuer_authentication_failed: raw_bytes[0] & 0x01u8 != 0,
            pin_try_count: (raw_bytes[1] & 0xF0u8) >> 4u8,
            offline_pin_verification_performed: raw_bytes[1] & 0x08u8 != 0,
            offline_pin_verification_failed: raw_bytes[1] & 0x04u8 != 0,
            pin_try_limit_exceeded: raw_bytes[1] & 0x02u8 != 0,
            last_online_transaction_not_completed: raw_bytes[1] & 0x01u8 != 0,
            offline_transaction_count_limit_lower_exceeded: raw_bytes[2] & 0x80u8 != 0,
            offline_transaction_count_limit_upper_exceeded: raw_bytes[2] & 0x40u8 != 0,
            offline_cumulative_amount_limit_lower_exceeded: raw_bytes[2] & 0x20u8 != 0,
            offline_cumulative_amount_limit_upper_exceeded: raw_bytes[2] & 0x10u8 != 0,
            issuer_discretionary_bit_1: raw_bytes[2] & 0x08u8 != 0,
            issuer_discretionary_bit_2: raw_bytes[2] & 0x04u8 != 0,
            issuer_discretionary_bit_3: raw_bytes[2] & 0x02u8 != 0,
            issuer_discretionary_bit_4: raw_bytes[2] & 0x01u8 != 0,
            successful_issuer_script_commands_with_secure_messaging: (raw_bytes[3] & 0xF0u8) >> 4u8,
            issuer_script_processing_failed: raw_bytes[3] & 0x08u8 != 0,
            offline_data_authentication_failed_on_previous_transaction: raw_bytes[3] & 0x04u8 != 0,
            go_online_on_next_transaction: raw_bytes[3] & 0x02u8 != 0,
            unable_to_go_online: raw_bytes[3] & 0x01u8 != 0,
        }
    }

    fn binary_byte_0(&self) -> (byte: u8)
        ensures
            byte == self.spec_byte_0(),
    {
        crumbs_to_byte(self.gen_ac_2_application_cryptogram_type.code(), self.gen_ac_1_application_cryptogram_type.code(), bits_to_byte(false, false, false, false, self.cda_performed, self.offline_dda_performed, self.issuer_authentication_not_performed, self.issuer_authentication_failed))
    }

    fn binary_byte_1(&self) -> (byte: u8)
        ensures
            byte == self.spec_byte_1(),
    {
        nibbles_to_byte(self.pin_try_count, bits_to_byte(false, false, false, false, self.offline_pin_verification_performed, self.offline_pin_verification_failed, self.pin_try_limit_exceeded, self.last_online_transaction_not_completed))
    }

    fn binary_byte_2(&self) -> (byte: u8)
        ensures
            byte == self.spec_byte_2(),
    {
        bits_to_byte(self.offline_transaction_count_limit_lower_exceeded, self.offline_transaction_count_limit_upper_exceeded, self.offline_cumulative_amount_limit_lower_exceeded, self.offline_cumulative_amount_limit_upper_exceeded, self.issuer_discretionary_bit_1, self.issuer_discretionary_bit_2, self.issuer_discretionary_bit_3, self.issuer_discretionary_bit_4)
    }

    fn binary_byte_3(&self) -> (byte: u8)
        ensures
            byte == self.spec_byte_3(),
    {
        nibbles_to_byte(self.successful_issuer_script_commands_with_secure_messaging, bits_to_byte(false, false, false, false, self.issuer_script_processing_failed, self.offline_data_authentication_failed_on_previous_transaction, self.go_online_on_next_transaction, self.unable_to_go_online))
    }

    fn binary_byte_4(&self) -> (byte: u8)
        ensures
            byte == self.spec_byte_4(),
    {
        0
    }

    fn bit_display_byte_0(&self) -> (ranges: Vec<EnabledBitRange>)
        ensures
            bit_range_models(ranges@) == self.spec_bit_display_byte_0(),
    {
        let mut ranges: Vec<EnabledBitRange> = Vec::new();
        assert(bit_range_models(ranges@) =~= Seq::<BitRangeModel>::empty());
        push_bit_range_with_value(&mut ranges, 39, 2, "Application cryptogram type returned in 2nd GENERATE AC: ", self.gen_ac_2_application_cryptogram_type.description(), Severity::Normal);
        push_bit_range_with_value(&mut ranges, 37, 2, "Application cryptogram type returned in 1st GENERATE AC: ", self.gen_ac_1_application_cryptogram_type.description(), Severity::Normal);
        let ranges = push_bit_range_if(ranges, self.cda_performed, 35, 1, "CDA (Combined Data Authentication) performed", Severity::Normal);
        let ranges = push_bit_range_if(ranges, self.offline_dda_performed, 34, 1, "Offline DDA (Dynamic Data Authentication) performed", Severity::Normal);
        let ranges = push_bit_range_if(ranges, self.issuer_authentication_not_performed, 33, 1, "Issuer authentication not performed", Severity::Warning);
        let ranges = push_bit_range_if(ranges, self.issuer_authentication_failed, 32, 1, "Issuer authentication failed", Severity::Error);
        ranges
    }

    fn bit_display_byte_1(&self) -> (ranges: Vec<EnabledBitRange>)
        ensures
            bit_range_models(ranges@) == self.spec_bit_display_byte_1(),
    {
        let mut ranges: Vec<EnabledBitRange> = Vec::new();
        assert(bit_range_models(ranges@) =~= Seq::<BitRangeModel>::empty());
        let count = decimal_string(self.pin_try_count as u64);
        push_bit_range_with_value(&mut ranges, 31, 4, "PIN try count: ", count.as_str(), Severity::Normal);
        let ranges = push_bit_range_if(ranges, self.offline_pin_verification_performed, 27, 1, "Offline PIN verification performed", Severity::Normal);
        let ranges = push_bit_range_if(ranges, self.offline_pin_verification_failed, 26, 1, "Offline PIN verification performed and PIN not successfully verified", Severity::Error);
        let ranges = push_bit_range_if(ranges, self.pin_try_limit_exceeded, 25, 1, "PIN try limit exceeded", Severity::Error);
        let ranges = push_bit_range_if(ranges, self.last_online_transaction_not_completed, 24, 1, "Last online transaction not completed", Severity::Warning);
        ranges
    }

    fn bit_display_byte_2(&self) -> (ranges: Vec<EnabledBitRange>)
        ensures
            bit_range_models(ranges@) == self.spec_bit_display_byte_2(),
    {
        let mut ranges: Vec<EnabledBitRange> = Vec::new();
        assert(bit_range_models(ranges@) =~= Seq::<BitRangeModel>::empty());
        let ranges = push_bit_range_if(ranges, self.offline_transaction_count_limit_lower_exceeded, 23, 1, "Lower offline transaction count limit exceeded", Severity::Normal);
        let ranges = push_bit_range_if(ranges, self.offline_transaction_count_limit_upper_exceeded, 22, 1, "Upper offline transaction count limit exceeded", Severity::Normal);
        let ranges = push_bit_range_if(ranges, self.offline_cumulative_amount_limit_lower_exceeded, 21, 1, "Lower cumulative offline amount limit exceeded", Severity::Normal);
        let ranges = push_bit_range_if(ranges, self.offline_cumulative_amount_limit_upper_exceeded, 20, 1, "Upper cumulative offline amount limit exceeded", Severity::Normal);
        let ranges = push_bit_range_if(ranges, self.issuer_discretionary_bit_1, 19, 1, "Issuer-discretionary bit 1", Severity::Normal);
        let ranges = push_bit_range_if(ranges, self.issuer_discretionary_bit_2, 18, 1, "Issuer-discretionary bit 2", Severity::Normal);
        let ranges = push_bit_range_if(ranges, self.issuer_discretionary_bit_3, 17, 1, "Issuer-discretionary bit 3", Severity::Normal);
        let ranges = push_bit_range_if(ranges, self.issuer_discretionary_bit_4, 16, 1, "Issuer-discretionary bit 4", Severity::Normal);
        ranges
    }

    fn bit_display_byte_3(&self) -> (ranges: Vec<EnabledBitRange>)
        ensures
            bit_range_models(ranges@) == self.spec_bit_display_byte_3(),
    {
        let mut ranges: Vec<EnabledBitRange> = Vec::new();
        assert(bit_range_models(ranges@) =~= Seq::<BitRangeModel>::empty());
        let count = decimal_string(self.successful_issuer_script_commands_with_secure_messaging as u64);
        push_bit_range_with_value(&mut ranges, 15, 4, "Number of successfully processed issuer script commands containing secure messaging: ", count.as_str(), Severity::Normal);
        let ranges = push_bit_range_if(ranges, self.issuer_script_processing_failed, 11, 1, "Issuer script processing failed", Severity::Error);
        let ranges = push_bit_range_if(ranges, self.offline_data_authentication_failed_on_previous_transaction, 10, 1, "Offline data authentication failed on previous transaction", Severity::Warning);
        let ranges = push_bit_range_if(ranges, self.go_online_on_next_transaction, 9, 1, "Go online on next transaction", Severity::Normal);
        let ranges = push_bit_range_if(ranges, self.unable_to_go_online, 8, 1, "Unable to go online", Severity::Warning);
        ranges
    }

    fn bit_display_byte_4(&self) -> (ranges: Vec<EnabledBitRange>)
        ensures
            bit_range_models(ranges@) == self.spec_bit_display_byte_4(),
    {
        let mut ranges: Vec<EnabledBitRange> = Vec::new();
        assert(bit_range_models(ranges@) =~= Seq::<BitRangeModel>::empty());
        ranges
    }

}

impl<'a> TryFrom<&'a [u8]> for CardVerificationResults {
    type Error = ParseError;

    fn try_from(raw_bytes: &'a [u8]) -> (result: Result<CardVerificationResults, ParseError>)
        ensures
            result == CardVerificationResults::spec_try_from(raw_bytes@),
    {
        if raw_bytes.len() != 5 {
            return Err(ParseError::ByteCountIncorrect { comparison: Comparison::Equal, expected: 5, found: raw_bytes.len() });
        }
        let gen_ac_2_application_cryptogram_type = match GenAc2ApplicationCryptogramType::try_from((raw_bytes[0] & 0xC0u8) >> 6u8) {
            Ok(value) => value,
            Err(error) => return Err(error),
        };
        let gen_ac_1_application_cryptogram_type = match GenAc1ApplicationCryptogramType::try_from((raw_bytes[0] & 0x30u8) >> 4u8) {
            Ok(value) => value,
            Err(error) => return Err(error),
        };
        Ok(CardVerificationResults::from_parts(raw_bytes, gen_ac_2_application_cryptogram_type, gen_ac_1_application_cryptogram_type))
    }
}

impl<'a> TryFromSpecImpl<&'a [u8]> for CardVerificationResults {
    open spec fn obeys_try_from_spec() -> bool {
        true
    }

    open spec fn try_from_spec(raw_bytes: &'a [u8]) -> Result<CardVerificationResults, ParseError> {
        CardVerificationResults::spec_try_from(raw_bytes@)
    }
}

impl BitflagValue for CardVerificationResults {
    const NUM_BYTES: usize = 5;

    open spec fn spec_binary_representation(&self) -> Seq<u8> {
        self.spec_binary()
    }

    open spec fn spec_bit_display_information(&self) -> Seq<BitRangeModel> {
        self.spec_bit_display()
    }

    fn get_binary_representation(&self) -> (bytes: Vec<u8>) {
        let mut bytes: Vec<u8> = Vec::new();
        bytes.push(self.binary_byte_0());
        bytes.push(self.binary_byte_1());
        bytes.push(self.binary_byte_2());
        bytes.push(self.binary_byte_3());
        bytes.push(self.binary_byte_4());
        assert(bytes@ =~= self.spec_binary());
        bytes
    }

    fn get_bit_display_information(&self) -> (ranges: Vec<EnabledBitRange>) {
        let ranges = self.bit_display_byte_0();
        let ranges = append_bit_ranges(ranges, self.bit_display_byte_1());
        let ranges = append_bit_ranges(ranges, self.bit_display_byte_2());
        let ranges = append_bit_ranges(ranges, self.bit_display_byte_3());
        let ranges = append_bit_ranges(ranges, self.bit_display_byte_4());
        ranges
    }

    proof fn lemma_bit_display_in_order(&self) {
        broadcast use group_bit_range_order;

        let b0 = self.spec_bit_display_byte_0();
        let b1 = self.spec_bit_display_byte_1();
        let b2 = self.spec_bit_display_byte_2();
        let b3 = self.spec_bit_display_byte_3();
        let b4 = self.spec_bit_display_byte_4();
        assert(ranges_in_order(b0, 40) && ranges_left_of(b0, 31));
        assert(ranges_in_order(b1, 40) && ranges_left_of(b1, 23) && ranges_start_at_most(b1, 31));
        assert(ranges_in_order(b2, 40) && ranges_left_of(b2, 15) && ranges_start_at_most(b2, 23));
        assert(ranges_in_order(b3, 40) && ranges_left_of(b3, 7) && ranges_start_at_most(b3, 15));
        assert(ranges_in_order(b4, 40) && ranges_left_of(b4, -1) && ranges_start_at_most(b4, 7));
        lemma_concat_in_order(b0, b1, 40, 31, 23);
        lemma_concat_in_order(b0 + b1, b2, 40, 23, 15);
        lemma_concat_in_order(b0 + b1 + b2, b3, 40, 15, 7);
        lemma_concat_in_order(b0 + b1 + b2 + b3, b4, 40, 7, -1);
    }
}

/// Five bytes always parse: every two-bit cryptogram type is known.
pub proof fn lemma_card_verification_results_parse_total(bytes: Seq<u8>)
    requires
        bytes.len() == 5,
    ensures
        CardVerificationResults::spec_try_from(bytes) is Ok,
{
    lemma_byte_crumbs(bytes[0]);
}

proof fn lemma_card_verification_results_byte_0_of_parsed(bytes: Seq<u8>, g2: GenAc2ApplicationCryptogramType, g1: GenAc1ApplicationCryptogramType)
    requires
        bytes.len() == 5,
        GenAc2ApplicationCryptogramType::spec_from_code((bytes[0] & 0xC0u8) >> 6u8) == Some(g2),
        GenAc1ApplicationCryptogramType::spec_from_code((bytes[0] & 0x30u8) >> 4u8) == Some(g1),
    ensures
        CardVerificationResults::spec_with(bytes, g2, g1).spec_byte_0() == bytes[0],
{
    lemma_gen_ac2_application_cryptogram_type_codes((bytes[0] & 0xC0u8) >> 6u8, g2);
    lemma_gen_ac1_application_cryptogram_type_codes((bytes[0] & 0x30u8) >> 4u8, g1);
    lemma_byte_of_bits(bytes[0], 0x0Fu8, false, false, false, false, true, true, true, true);
    lemma_byte_crumbs(bytes[0]);
}

proof fn lemma_card_verification_results_byte_1_of_parsed(bytes: Seq<u8>, g2: GenAc2ApplicationCryptogramType, g1: GenAc1ApplicationCryptogramType)
    requires
        bytes.len() == 5,
        GenAc2ApplicationCryptogramType::spec_from_code((bytes[0] & 0xC0u8) >> 6u8) == Some(g2),
        GenAc1ApplicationCryptogramType::spec_from_code((bytes[0] & 0x30u8) >> 4u8) == Some(g1),
    ensures
        CardVerificationResults::spec_with(bytes, g2, g1).spec_byte_1() == bytes[1],
{
    lemma_byte_of_bits(bytes[1], 0x0Fu8, false, false, false, false, true, true, true, true);
    lemma_byte_nibbles(bytes[1]);
}

proof fn lemma_card_verification_results_byte_2_of_parsed(bytes: Seq<u8>, g2: GenAc2ApplicationCryptogramType, g1: GenAc1ApplicationCryptogramType)
    requires
        bytes.len() == 5,
        GenAc2ApplicationCryptogramType::spec_from_code((bytes[0] & 0xC0u8) >> 6u8) == Some(g2),
        GenAc1ApplicationCryptogramType::spec_from_code((bytes[0] & 0x30u8) >> 4u8) == Some(g1),
    ensures
        CardVerificationResults::spec_with(bytes, g2, g1).spec_byte_2() == bytes[2],
{
    lemma_byte_of_bits(bytes[2], 0xFFu8, true, true, true, true, true, true, true, true);
}

proof fn lemma_card_verification_results_byte_3_of_parsed(bytes: Seq<u8>, g2: GenAc2ApplicationCryptogramType, g1: GenAc1ApplicationCryptogramType)
    requires
        bytes.len() == 5,
        GenAc2ApplicationCryptogramType::spec_from_code((bytes[0] & 0xC0u8) >> 6u8) == Some(g2),
        GenAc1ApplicationCryptogramType::spec_from_code((bytes[0] & 0x30u8) >> 4u8) == Some(g1),
    ensures
        CardVerificationResults::spec_with(bytes, g2, g1).spec_byte_3() == bytes[3],
{
    lemma_byte_of_bits(bytes[3], 0x0Fu8, false, false, false, false, true, true, true, true);
    lemma_byte_nibbles(bytes[3]);
}

proof fn lemma_card_verification_results_bytes_of_parsed(bytes: Seq<u8>, g2: GenAc2ApplicationCryptogramType, g1: GenAc1ApplicationCryptogramType)
    requires
        bytes.len() == 5,
        GenAc2ApplicationCryptogramType::spec_from_code((bytes[0] & 0xC0u8) >> 6u8) == Some(g2),
        GenAc1ApplicationCryptogramType::spec_from_code((bytes[0] & 0x30u8) >> 4u8) == Some(g1),
    ensures
        CardVerificationResults::spec_with(bytes, g2, g1).spec_binary() == CardVerificationResults::used_bits_of(bytes),
{
    lemma_card_verification_results_byte_0_of_parsed(bytes, g2, g1);
    lemma_card_verification_results_byte_1_of_parsed(bytes, g2, g1);
    lemma_card_verification_results_byte_2_of_parsed(bytes, g2, g1);
    lemma_card_verification_results_byte_3_of_parsed(bytes, g2, g1);
    assert(CardVerificationResults::spec_with(bytes, g2, g1).spec_binary() =~= CardVerificationResults::used_bits_of(bytes));
}

/// Writing parsed bytes back gives the bytes with the bits that have no
/// meaning cleared.
pub proof fn lemma_card_verification_results_binary_of_parsed(bytes: Seq<u8>)
    requires
        bytes.len() == 5,
    ensures
        CardVerificationResults::spec_try_from(bytes) matches Ok(value) && value.wf() && value.spec_binary() == CardVerificationResults::used_bits_of(bytes),
{
    lemma_byte_crumbs(bytes[0]);
    lemma_byte_nibbles(bytes[1]);
    lemma_byte_nibbles(bytes[3]);
    let g2 = GenAc2ApplicationCryptogramType::spec_from_code((bytes[0] & 0xC0u8) >> 6u8)->Some_0;
    let g1 = GenAc1ApplicationCryptogramType::spec_from_code((bytes[0] & 0x30u8) >> 4u8)->Some_0;
    lemma_card_verification_results_bytes_of_parsed(bytes, g2, g1);
}

proof fn lemma_card_verification_results_byte_0(value: CardVerificationResults)
    ensures
        (value.spec_byte_0() & 0xC0u8) >> 6u8 == value.gen_ac_2_application_cryptogram_type.spec_code(),
        (value.spec_byte_0() & 0x30u8) >> 4u8 == value.gen_ac_1_application_cryptogram_type.spec_code(),
        (value.spec_byte_0() & 0x08u8 != 0) == value.cda_performed,
        (value.spec_byte_0() & 0x04u8 != 0) == value.offline_dda_performed,
        (value.spec_byte_0() & 0x02u8 != 0) == value.issuer_authentication_not_performed,
        (value.spec_byte_0() & 0x01u8 != 0) == value.issuer_authentication_failed,
{
    let low = byte_from_bits(false, false, false, false, value.cda_performed, value.offline_dda_performed, value.issuer_authentication_not_performed, value.issuer_authentication_failed);
    lemma_bits_of_byte(false, false, false, false, value.cda_performed, value.offline_dda_performed, value.issuer_authentication_not_performed, value.issuer_authentication_failed);
    lemma_crumbs_byte(value.gen_ac_2_application_cryptogram_type.spec_code(), value.gen_ac_1_application_cryptogram_type.spec_code(), low);
}

proof fn lemma_card_verification_results_byte_1(value: CardVerificationResults)
    requires
        value.wf(),
    ensures
        (value.spec_byte_1() & 0xF0u8) >> 4u8 == value.pin_try_count,
        (value.spec_byte_1() & 0x08u8 != 0) == value.offline_pin_verification_performed,
        (value.spec_byte_1() & 0x04u8 != 0) == value.offline_pin_verification_failed,
        (value.spec_byte_1() & 0x02u8 != 0) == value.pin_try_limit_exceeded,
        (value.spec_byte_1() & 0x01u8 != 0) == value.last_online_transaction_not_completed,
{
    let low = byte_from_bits(false, false, false, false, value.offline_pin_verification_performed, value.offline_pin_verification_failed, value.pin_try_limit_exceeded, value.last_online_transaction_not_completed);
    lemma_bits_of_byte(false, false, false, false, value.offline_pin_verification_performed, value.offline_pin_verification_failed, value.pin_try_limit_exceeded, value.last_online_transaction_not_completed);
    lemma_nibble_byte(value.pin_try_count, low);
}

proof fn lemma_card_verification_results_byte_3(value: CardVerificationResults)
    requires
        value.wf(),
    ensures
        (value.spec_byte_3() & 0xF0u8) >> 4u8 == value.successful_issuer_script_commands_with_secure_messaging,
        (value.spec_byte_3() & 0x08u8 != 0) == value.issuer_script_processing_failed,
        (value.spec_byte_3() & 0x04u8 != 0) == value.offline_data_authentication_failed_on_previous_transaction,
        (value.spec_byte_3() & 0x02u8 != 0) == value.go_online_on_next_transaction,
        (value.spec_byte_3() & 0x01u8 != 0) == value.unable_to_go_online,
{
    let low = byte_from_bits(false, false, false, false, value.issuer_script_processing_failed, value.offline_data_authentication_failed_on_previous_transaction, value.go_online_on_next_transaction, value.unable_to_go_online);
    lemma_bits_of_byte(false, false, false, false, value.issuer_script_processing_failed, value.offline_data_authentication_failed_on_previous_transaction, value.go_online_on_next_transaction, value.unable_to_go_online);
    lemma_nibble_byte(value.successful_issuer_script_commands_with_secure_messaging, low);
}

/// Parsing the bytes of a value whose counters fit in four bits gives the
/// value back.
pub proof fn lemma_card_verification_results_parse_of_binary(value: CardVerificationResults)
    requires
        value.wf(),
    ensures
        CardVerificationResults::spec_try_from(value.spec_binary()) == Ok::<CardVerificationResults, ParseError>(value),
{
    let bytes = value.spec_binary();
    lemma_card_verification_results_byte_0(value);
    lemma_card_verification_results_byte_1(value);
    lemma_bits_of_byte(value.offline_transaction_count_limit_lower_exceeded, value.offline_transaction_count_limit_upper_exceeded, value.offline_cumulative_amount_limit_lower_exceeded, value.offline_cumulative_amount_limit_upper_exceeded, value.issuer_discretionary_bit_1, value.issuer_discretionary_bit_2, value.issuer_discretionary_bit_3, value.issuer_discretionary_bit_4);
    lemma_card_verification_results_byte_3(value);
    lemma_gen_ac2_application_cryptogram_type_codes(value.gen_ac_2_application_cryptogram_type.spec_code(), value.gen_ac_2_application_cryptogram_type);
    lemma_gen_ac1_application_cryptogram_type_codes(value.gen_ac_1_application_cryptogram_type.spec_code(), value.gen_ac_1_application_cryptogram_type);
    assert(bytes[0] == value.spec_byte_0());
    assert(bytes[1] == value.spec_byte_1());
    assert(bytes[2] == value.spec_byte_2());
    assert(bytes[3] == value.spec_byte_3());
    assert(GenAc2ApplicationCryptogramType::spec_try_from((bytes[0] & 0xC0u8) >> 6u8) == Ok::<GenAc2ApplicationCryptogramType, ParseError>(value.gen_ac_2_application_cryptogram_type));
    assert(GenAc1ApplicationCryptogramType::spec_try_from((bytes[0] & 0x30u8) >> 4u8) == Ok::<GenAc1ApplicationCryptogramType, ParseError>(value.gen_ac_1_application_cryptogram_type));
    lemma_card_verification_results_with_of_binary(value);
}

proof fn lemma_card_verification_results_with_of_binary(value: CardVerificationResults)
    requires
        value.wf(),
    ensures
        CardVerificationResults::spec_with(value.spec_binary(), value.gen_ac_2_application_cryptogram_type, value.gen_ac_1_application_cryptogram_type) == value,
{
    let bytes = value.spec_binary();
    lemma_card_verification_results_byte_0(value);
    lemma_card_verification_results_byte_1(value);
    lemma_bits_of_byte(value.offline_transaction_count_limit_lower_exceeded, value.offline_transaction_count_limit_upper_exceeded, value.offline_cumulative_amount_limit_lower_exceeded, value.offline_cumulative_amount_limit_upper_exceeded, value.issuer_discretionary_bit_1, value.issuer_discretionary_bit_2, value.issuer_discretionary_bit_3, value.issuer_discretionary_bit_4);
    lemma_card_verification_results_byte_3(value);
    assert(bytes[0] == value.spec_byte_0());
    assert(bytes[1] == value.spec_byte_1());
    assert(bytes[2] == value.spec_byte_2());
    assert(bytes[3] == value.spec_byte_3());
}

/// The code table of CCD CVR: each code gives the value named beside it,
/// which reads as the text beside it, and every other code is refused.
#[verifier::rlimit(40)]
pub proof fn lemma_gen_ac1_application_cryptogram_type_code_table(code: u8)
    ensures
        code == 0x00u8 ==> GenAc1ApplicationCryptogramType::spec_try_from(code) == Ok::<GenAc1ApplicationCryptogramType, ParseError>(GenAc1ApplicationCryptogramType::Aac),
        code == 0x01u8 ==> GenAc1ApplicationCryptogramType::spec_try_from(code) == Ok::<GenAc1ApplicationCryptogramType, ParseError>(GenAc1ApplicationCryptogramType::Tc),
        code == 0x02u8 ==> GenAc1ApplicationCryptogramType::spec_try_from(code) == Ok::<GenAc1ApplicationCryptogramType, ParseError>(GenAc1ApplicationCryptogramType::Arqc),
        code == 0x03u8 ==> GenAc1ApplicationCryptogramType::spec_try_from(code) == Ok::<GenAc1ApplicationCryptogramType, ParseError>(GenAc1ApplicationCryptogramType::Rfu),
        !(code == 0x00u8 || code == 0x01u8 || code == 0x02u8 || code == 0x03u8) ==> GenAc1ApplicationCryptogramType::spec_try_from(code) is Err,
        GenAc1ApplicationCryptogramType::Aac.spec_description() == "AAC (Application Authentication Cryptogram)"@,
        GenAc1ApplicationCryptogramType::Tc.spec_description() == "TC (Transaction Certificate)"@,
        GenAc1ApplicationCryptogramType::Arqc.spec_description() == "ARQC (Authorization Request Cryptogram)"@,
        GenAc1ApplicationCryptogramType::Rfu.spec_description() == "RFU (Reserved For Use)"@,
{
}

/// The code table of CCD CVR: each code gives the value named beside it,
/// which reads as the text beside it, and every other code is refused.
#[verifier::rlimit(40)]
pub proof fn lemma_gen_ac2_application_cryptogram_type_code_table(code: u8)
    ensures
        code == 0x00u8 ==> GenAc2ApplicationCryptogramType::spec_try_from(code) == Ok::<GenAc2ApplicationCryptogramType, ParseError>(GenAc2ApplicationCryptogramType::Aac),
        code == 0x01u8 ==> GenAc2ApplicationCryptogramType::spec_try_from(code) == Ok::<GenAc2ApplicationCryptogramType, ParseError>(GenAc2ApplicationCryptogramType::Tc),
        code == 0x02u8 ==> GenAc2ApplicationCryptogramType::spec_try_from(code) == Ok::<GenAc2ApplicationCryptogramType, ParseError>(GenAc2ApplicationCryptogramType::SecondGenAcNotRequested),
        code == 0x03u8 ==> GenAc2ApplicationCryptogramType::spec_try_from(code) == Ok::<GenAc2ApplicationCryptogramType, ParseError>(GenAc2ApplicationCryptogramType::Rfu),
        !(code == 0x00u8 || code == 0x01u8 || code == 0x02u8 || code == 0x03u8) ==> GenAc2ApplicationCryptogramType::spec_try_from(code) is Err,
        GenAc2ApplicationCryptogramType::Aac.spec_description() == "AAC (Application Authentication Cryptogram)"@,
        GenAc2ApplicationCryptogramType::Tc.spec_description() == "TC (Transaction Certificate)"@,
        GenAc2ApplicationCryptogramType::SecondGenAcNotRequested.spec_description() == "Second GENERATE AC not requested"@,
        GenAc2ApplicationCryptogramType::Rfu.spec_description() == "RFU (Reserved For Use)"@,
{
}

#[verifier::rlimit(40)]
proof fn lemma_card_verification_results_byte_0_shown(value: CardVerificationResults)
    ensures
        range_at(value.spec_bit_display_byte_0(), 39) == Some(bit_range(39, 2, "Application cryptogram type returned in 2nd GENERATE AC: "@ + value.gen_ac_2_application_cryptogram_type.spec_description(), Severity::Normal)),
        range_at(value.spec_bit_display_byte_0(), 37) == Some(bit_range(37, 2, "Application cryptogram type returned in 1st GENERATE AC: "@ + value.gen_ac_1_application_cryptogram_type.spec_description(), Severity::Normal)),
        range_at(value.spec_bit_display_byte_0(), 35) == if value.cda_performed {
            Some(bit_range(35, 1, "CDA (Combined Data Authentication) performed"@, Severity::Normal))
        } else {
            None
        },
        range_at(value.spec_bit_display_byte_0(), 34) == if value.offline_dda_performed {
            Some(bit_range(34, 1, "Offline DDA (Dynamic Data Authentication) performed"@, Severity::Normal))
        } else {
            None
        },
        range_at(value.spec_bit_display_byte_0(), 33) == if value.issuer_authentication_not_performed {
            Some(bit_range(33, 1, "Issuer authentication not performed"@, Severity::Warning))
        } else {
            None
        },
        range_at(value.spec_bit_display_byte_0(), 32) == if value.issuer_authentication_failed {
            Some(bit_range(32, 1, "Issuer authentication failed"@, Severity::Error))
        } else {
            None
        },
        forall|o: u8| !(o == 39 || o == 37 || o == 35 || o == 34 || o == 33 || o == 32) ==> #[trigger] range_at(value.spec_bit_display_byte_0(), o) is None,
{
    broadcast use group_range_at;

    assert forall|o: u8| !(o == 39 || o == 37 || o == 35 || o == 34 || o == 33 || o == 32) implies #[trigger] range_at(value.spec_bit_display_byte_0(), o) is None by {
    }
}

#[verifier::rlimit(40)]
proof fn lemma_card_verification_results_byte_1_shown(value: CardVerificationResults)
    ensures
        range_at(value.spec_bit_display_byte_1(), 31) == Some(bit_range(31, 4, "PIN try count: "@ + decimal_digits(value.pin_try_count as nat), Severity::Normal)),
        range_at(value.spec_bit_display_byte_1(), 27) == if value.offline_pin_verification_performed {
            Some(bit_range(27, 1, "Offline PIN verification performed"@, Severity::Normal))
        } else {
            None
        },
        range_at(value.spec_bit_display_byte_1(), 26) == if value.offline_pin_verification_failed {
            Some(bit_range(26, 1, "Offline PIN verification performed and PIN not successfully verified"@, Severity::Error))
        } else {
            None
        },
        range_at(value.spec_bit_display_byte_1(), 25) == if value.pin_try_limit_exceeded {
            Some(bit_range(25, 1, "PIN try limit exceeded"@, Severity::Error))
        } else {
            None
        },
        range_at(value.spec_bit_display_byte_1(), 24) == if value.last_online_transaction_not_completed {
            Some(bit_range(24, 1, "Last online transaction not completed"@, Severity::Warning))
        } else {
            None
        },
        forall|o: u8| !(o == 31 || o == 27 || o == 26 || o == 25 || o == 24) ==> #[trigger] range_at(value.spec_bit_display_byte_1(), o) is None,
{
    broadcast use group_range_at;

    assert forall|o: u8| !(o == 31 || o == 27 || o == 26 || o == 25 || o == 24) implies #[trigger] range_at(value.spec_bit_display_byte_1(), o) is None by {
    }
}

#[verifier::rlimit(40)]
proof fn lemma_card_verification_results_byte_2_shown(value: CardVerificationResults)
    ensures
        range_at(value.spec_bit_display_byte_2(), 23) == if value.offline_transaction_count_limit_lower_exceeded {
            Some(bit_range(23, 1, "Lower offline transaction count limit exceeded"@, Severity::Normal))
        } else {
            None
        },
        range_at(value.spec_bit_display_byte_2(), 22) == if value.offline_transaction_count_limit_upper_exceeded {
            Some(bit_range(22, 1, "Upper offline transaction count limit exceeded"@, Severity::Normal))
        } else {
            None
        },
        range_at(value.spec_bit_display_byte_2(), 21) == if value.offline_cumulative_amount_limit_lower_exceeded {
            Some(bit_range(21, 1, "Lower cumulative offline amount limit exceeded"@, Severity::Normal))
        } else {
            None
        },
        range_at(value.spec_bit_display_byte_2(), 20) == if value.offline_cumulative_amount_limit_upper_exceeded {
            Some(bit_range(20, 1, "Upper cumulative offline amount limit exceeded"@, Severity::Normal))
        } else {
            None
        },
        range_at(value.spec_bit_display_byte_2(), 19) == if value.issuer_discretionary_bit_1 {
            Some(bit_range(19, 1, "Issuer-discretionary bit 1"@, Severity::Normal))
        } else {
            None
        },
        range_at(value.spec_bit_display_byte_2(), 18) == if value.issuer_discretionary_bit_2 {
            Some(bit_range(18, 1, "Issuer-discretionary bit 2"@, Severity::Normal))
        } else {
            None
        },
        range_at(value.spec_bit_display_byte_2(), 17) == if value.issuer_discretionary_bit_3 {
            Some(bit_range(17, 1, "Issuer-discretionary bit 3"@, Severity::Normal))
        } else {
            None
        },
        range_at(value.spec_bit_display_byte_2(), 16) == if value.issuer_discretionary_bit_4 {
            Some(bit_range(16, 1, "Issuer-discretionary bit 4"@, Severity::Normal))
        } else {
            None
        },
        forall|o: u8| !(o == 23 || o == 22 || o == 21 || o == 20 || o == 19 || o == 18 || o == 17 || o == 16) ==> #[trigger] range_at(value.spec_bit_display_byte_2(), o) is None,
{
    broadcast use group_range_at;

    assert forall|o: u8| !(o == 23 || o == 22 || o == 21 || o == 20 || o == 19 || o == 18 || o == 17 || o == 16) implies #[trigger] range_at(value.spec_bit_display_byte_2(), o) is None by {
    }
}

#[verifier::rlimit(40)]
proof fn lemma_card_verification_results_byte_3_shown(value: CardVerificationResults)
    ensures
        range_at(value.spec_bit_display_byte_3(), 15) == Some(bit_range(15, 4, "Number of successfully processed issuer script commands containing secure messaging: "@ + decimal_digits(value.successful_issuer_script_commands_with_secure_messaging as nat), Severity::Normal)),
        range_at(value.spec_bit_display_byte_3(), 11) == if value.issuer_script_processing_failed {
            Some(bit_range(11, 1, "Issuer script processing failed"@, Severity::Error))
        } else {
            None
        },
        range_at(value.spec_bit_display_byte_3(), 10) == if value.offline_data_authentication_failed_on_previous_transaction {
            Some(bit_range(10, 1, "Offline data authentication failed on previous transaction"@, Severity::Warning))
        } else {
            None
        },
        range_at(value.spec_bit_display_byte_3(), 9) == if value.go_online_on_next_transaction {
            Some(bit_range(9, 1, "Go online on next transaction"@, Severity::Normal))
        } else {
            None
        },
        range_at(value.spec_bit_display_byte_3(), 8) == if value.unable_to_go_online {
            Some(bit_range(8, 1, "Unable to go online"@, Severity::Warning))
        } else {
            None
        },
        forall|o: u8| !(o == 15 || o == 11 || o == 10 || o == 9 || o == 8) ==> #[trigger] range_at(value.spec_bit_display_byte_3(), o) is None,
{
    broadcast use group_range_at;

    assert forall|o: u8| !(o == 15 || o == 11 || o == 10 || o == 9 || o == 8) implies #[trigger] range_at(value.spec_bit_display_byte_3(), o) is None by {
    }
}

#[verifier::rlimit(40)]
proof fn lemma_card_verification_results_byte_4_shown(value: CardVerificationResults)
    ensures
        forall|o: u8| !(false) ==> #[trigger] range_at(value.spec_bit_display_byte_4(), o) is None,
{
    broadcast use group_range_at;

    assert forall|o: u8| !(false) implies #[trigger] range_at(value.spec_bit_display_byte_4(), o) is None by {
    }
}

/// Reading raw bytes: each flag and value comes from its own bits, and the
/// display shows at the first of those bits a range with its meaning (a
/// flag only when it is set); no other bit starts a range.
#[verifier::rlimit(40)]
pub proof fn lemma_card_verification_results_bits_shown(bytes: Seq<u8>, offset: u8)
    requires
        bytes.len() == 5,
    ensures
        CardVerificationResults::spec_try_from(bytes) is Ok,
        ({
            let value = CardVerificationResults::spec_try_from(bytes)->Ok_0;
            let shown = value.spec_bit_display_information();
            &&& GenAc2ApplicationCryptogramType::spec_try_from((bytes[0] & 0xC0u8) >> 6u8) == Ok::<GenAc2ApplicationCryptogramType, ParseError>(value.gen_ac_2_application_cryptogram_type)
            &&& range_at(shown, 39) == Some(bit_range(39, 2, "Application cryptogram type returned in 2nd GENERATE AC: "@ + value.gen_ac_2_application_cryptogram_type.spec_description(), Severity::Normal))
            &&& GenAc1ApplicationCryptogramType::spec_try_from((bytes[0] & 0x30u8) >> 4u8) == Ok::<GenAc1ApplicationCryptogramType, ParseError>(value.gen_ac_1_application_cryptogram_type)
            &&& range_at(shown, 37) == Some(bit_range(37, 2, "Application cryptogram type returned in 1st GENERATE AC: "@ + value.gen_ac_1_application_cryptogram_type.spec_description(), Severity::Normal))
            &&& value.cda_performed == (bytes[0] & 0x08u8 != 0)
            &&& range_at(shown, 35) == if bytes[0] & 0x08u8 != 0 {
                Some(bit_range(35, 1, "CDA (Combined Data Authentication) performed"@, Severity::Normal))
            } else {
                None
            }
            &&& value.offline_dda_performed == (bytes[0] & 0x04u8 != 0)
            &&& range_at(shown, 34) == if bytes[0] & 0x04u8 != 0 {
                Some(bit_range(34, 1, "Offline DDA (Dynamic Data Authentication) performed"@, Severity::Normal))
            } else {
                None
            }
            &&& value.issuer_authentication_not_performed == (bytes[0] & 0x02u8 != 0)
            &&& range_at(shown, 33) == if bytes[0] & 0x02u8 != 0 {
                Some(bit_range(33, 1, "Issuer authentication not performed"@, Severity::Warning))
            } else {
                None
            }
            &&& value.issuer_authentication_failed == (bytes[0] & 0x01u8 != 0)
            &&& range_at(shown, 32) == if bytes[0] & 0x01u8 != 0 {
                Some(bit_range(32, 1, "Issuer authentication failed"@, Severity::Error))
            } else {
                None
            }
            &&& value.pin_try_count == (bytes[1] & 0xF0u8) >> 4u8
            &&& range_at(shown, 31) == Some(bit_range(31, 4, "PIN try count: "@ + decimal_digits(((bytes[1] & 0xF0u8) >> 4u8) as nat), Severity::Normal))
            &&& value.offline_pin_verification_performed == (bytes[1] & 0x08u8 != 0)
            &&& range_at(shown, 27) == if bytes[1] & 0x08u8 != 0 {
                Some(bit_range(27, 1, "Offline PIN verification performed"@, Severity::Normal))
            } else {
                None
            }
            &&& value.offline_pin_verification_failed == (bytes[1] & 0x04u8 != 0)
            &&& range_at(shown, 26) == if bytes[1] & 0x04u8 != 0 {
                Some(bit_range(26, 1, "Offline PIN verification performed and PIN not successfully verified"@, Severity::Error))
            } else {
                None
            }
            &&& value.pin_try_limit_exceeded == (bytes[1] & 0x02u8 != 0)
            &&& range_at(shown, 25) == if bytes[1] & 0x02u8 != 0 {
                Some(bit_range(25, 1, "PIN try limit exceeded"@, Severity::Error))
            } else {
                None
            }
            &&& value.last_online_transaction_not_completed == (bytes[1] & 0x01u8 != 0)
            &&& range_at(shown, 24) == if bytes[1] & 0x01u8 != 0 {
                Some(bit_range(24, 1, "Last online transaction not completed"@, Severity::Warning))
            } else {
                None
            }
            &&& value.offline_transaction_count_limit_lower_exceeded == (bytes[2] & 0x80u8 != 0)
            &&& range_at(shown, 23) == if bytes[2] & 0x80u8 != 0 {
                Some(bit_range(23, 1, "Lower offline transaction count limit exceeded"@, Severity::Normal))
            } else {
                None
            }
            &&& value.offline_transaction_count_limit_upper_exceeded == (bytes[2] & 0x40u8 != 0)
            &&& range_at(shown, 22) == if bytes[2] & 0x40u8 != 0 {
                Some(bit_range(22, 1, "Upper offline transaction count limit exceeded"@, Severity::Normal))
            } else {
                None
            }
            &&& value.offline_cumulative_amount_limit_lower_exceeded == (bytes[2] & 0x20u8 != 0)
            &&& range_at(shown, 21) == if bytes[2] & 0x20u8 != 0 {
                Some(bit_range(21, 1, "Lower cumulative offline amount limit exceeded"@, Severity::Normal))
            } else {
                None
            }
            &&& value.offline_cumulative_amount_limit_upper_exceeded == (bytes[2] & 0x10u8 != 0)
            &&& range_at(shown, 20) == if bytes[2] & 0x10u8 != 0 {
                Some(bit_range(20, 1, "Upper cumulative offline amount limit exceeded"@, Severity::Normal))
            } else {
                None
            }
            &&& value.issuer_discretionary_bit_1 == (bytes[2] & 0x08u8 != 0)
            &&& range_at(shown, 19) == if bytes[2] & 0x08u8 != 0 {
                Some(bit_range(19, 1, "Issuer-discretionary bit 1"@, Severity::Normal))
            } else {
                None
            }
            &&& value.issuer_discretionary_bit_2 == (bytes[2] & 0x04u8 != 0)
            &&& range_at(shown, 18) == if bytes[2] & 0x04u8 != 0 {
                Some(bit_range(18, 1, "Issuer-discretionary bit 2"@, Severity::Normal))
            } else {
                None
            }
            &&& value.issuer_discretionary_bit_3 == (bytes[2] & 0x02u8 != 0)
            &&& range_at(shown, 17) == if bytes[2] & 0x02u8 != 0 {
                Some(bit_range(17, 1, "Issuer-discretionary bit 3"@, Severity::Normal))
            } else {
                None
            }
            &&& value.issuer_discretionary_bit_4 == (bytes[2] & 0x01u8 != 0)
            &&& range_at(shown, 16) == if bytes[2] & 0x01u8 != 0 {
                Some(bit_range(16, 1, "Issuer-discretionary bit 4"@, Severity::Normal))
            } else {
                None
            }
            &&& value.successful_issuer_script_commands_with_secure_messaging == (bytes[3] & 0xF0u8) >> 4u8
            &&& range_at(shown, 15) == Some(bit_range(15, 4, "Number of successfully processed issuer script commands containing secure messaging: "@ + decimal_digits(((bytes[3] & 0xF0u8) >> 4u8) as nat), Severity::Normal))
            &&& value.issuer_script_processing_failed == (bytes[3] & 0x08u8 != 0)
            &&& range_at(shown, 11) == if bytes[3] & 0x08u8 != 0 {
                Some(bit_range(11, 1, "Issuer script processing failed"@, Severity::Error))
            } else {
                None
            }
            &&& value.offline_data_authentication_failed_on_previous_transaction == (bytes[3] & 0x04u8 != 0)
            &&& range_at(shown, 10) == if bytes[3] & 0x04u8 != 0 {
                Some(bit_range(10, 1, "Offline data authentication failed on previous transaction"@, Severity::Warning))
            } else {
                None
            }
            &&& value.go_online_on_next_transaction == (bytes[3] & 0x02u8 != 0)
            &&& range_at(shown, 9) == if bytes[3] & 0x02u8 != 0 {
                Some(bit_range(9, 1, "Go online on next transaction"@, Severity::Normal))
            } else {
                None
            }
            &&& value.unable_to_go_online == (bytes[3] & 0x01u8 != 0)
            &&& range_at(shown, 8) == if bytes[3] & 0x01u8 != 0 {
                Some(bit_range(8, 1, "Unable to go online"@, Severity::Warning))
            } else {
                None
            }
            &&& !(offset == 39 || offset == 37 || offset == 35 || offset == 34 || offset == 33 || offset == 32 || offset == 31 || offset == 27 || offset == 26 || offset == 25 || offset == 24 || offset == 23 || offset == 22 || offset == 21 || offset == 20 || offset == 19 || offset == 18 || offset == 17 || offset == 16 || offset == 15 || offset == 11 || offset == 10 || offset == 9 || offset == 8) ==> range_at(shown, offset) is None
        }),
{
    broadcast use group_range_at;

    lemma_card_verification_results_parse_total(bytes);
    lemma_byte_crumbs(bytes[0]);
    let value = CardVerificationResults::spec_try_from(bytes)->Ok_0;
    lemma_card_verification_results_byte_0_shown(value);
    lemma_card_verification_results_byte_1_shown(value);
    lemma_card_verification_results_byte_2_shown(value);
    lemma_card_verification_results_byte_3_shown(value);
    lemma_card_verification_results_byte_4_shown(value);
}

} // verus!
