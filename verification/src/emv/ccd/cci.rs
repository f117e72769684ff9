//! Everything for handling the Common Core Identifier (CCI).
//!
//! Information for this can be found in EMV Book 3, under section `C7.1`.
use vstd::prelude::*;

use crate::emv::bitflag_values::{
    group_range_at, range_at,
    bit_range, bit_range_models, lemma_byte_nibbles, lemma_nibble_byte, nibble_byte, nibbles_to_byte,
    push_bit_range_with_value, ranges_in_order, BitRangeModel, BitflagValue, EnabledBitRange, Severity,
};
use crate::error::{Comparison, ParseError};
use vstd::std_specs::convert::TryFromSpecImpl;

verus! {

/// The Common Core Identifier (CCI): the format of the Issuer Application
/// Data and the version of the cryptogram.
#[derive(Clone, Copy, Debug, PartialEq, Eq, Structural, Hash)]
pub struct CommonCoreIdentifier {
    pub iad_format_code: FormatCode,
    pub cryptogram_version: CryptogramVersion,
}

/// The format of the Issuer Application Data.
#[derive(Clone, Copy, Debug, PartialEq, Eq, Structural, Hash)]
pub enum FormatCode {
    /// Format A
    A,
}

impl FormatCode {
    /// The value that `code` stands for, if any.
    pub open spec fn spec_from_code(code: u8) -> Option<FormatCode> {
        if code == 0x0Au8 {
            Some(FormatCode::A)
        } else {
            None
        }
    }

    /// The code of the value.
    pub open spec fn spec_code(self) -> u8 {
        match self {
            FormatCode::A => 0x0Au8,
        }
    }

    /// What the value means, in words.
    pub open spec fn spec_description(self) -> Seq<char> {
        match self {
            FormatCode::A => "Format A"@,
        }
    }

    /// Conversion from a code: the value it stands for, or an error.
    pub open spec fn spec_try_from(code: u8) -> Result<FormatCode, ParseError> {
        match FormatCode::spec_from_code(code) {
            Some(value) => Ok(value),
            None => Err(ParseError::NonCcdCompliant),
        }
    }

    /// The code of the value.
    pub fn code(&self) -> (code: u8)
        ensures
            code == self.spec_code(),
    {
        match self {
            FormatCode::A => 0x0Au8,
        }
    }

    /// What the value means, in words.
    pub fn description(&self) -> (text: &'static str)
        ensures
            text@ == self.spec_description(),
    {
        match self {
            FormatCode::A => "Format A",
        }
    }
}

impl TryFrom<u8> for FormatCode {
    type Error = ParseError;

    fn try_from(code: u8) -> (result: Result<FormatCode, ParseError>)
        ensures
            result == FormatCode::spec_try_from(code),
    {
        match code {
            0x0Au8 => Ok(FormatCode::A),
            _ => Err(ParseError::NonCcdCompliant),
        }
    }
}

impl TryFromSpecImpl<u8> for FormatCode {
    open spec fn obeys_try_from_spec() -> bool {
        true
    }

    open spec fn try_from_spec(code: u8) -> Result<FormatCode, ParseError> {
        FormatCode::spec_try_from(code)
    }
}

/// A code stands for a value exactly when it is that value's code.
pub proof fn lemma_format_code_codes(code: u8, value: FormatCode)
    ensures
        (FormatCode::spec_from_code(code) == Some(value)) <==> (code == value.spec_code()),
{
}

/// The cryptographic algorithm of the application cryptogram.
#[derive(Clone, Copy, Debug, PartialEq, Eq, Structural, Hash)]
pub enum CryptogramVersion {
    /// Triple DES (3DES)
    TripleDes,
    /// AES
    Aes,
}

impl CryptogramVersion {
    /// The value that `code` stands for, if any.
    pub open spec fn spec_from_code(code: u8) -> Option<CryptogramVersion> {
        if code == 0x05u8 {
            Some(CryptogramVersion::TripleDes)
        } else if code == 0x06u8 {
            Some(CryptogramVersion::Aes)
        } else {
            None
        }
    }

    /// The code of the value.
    pub open spec fn spec_code(self) -> u8 {
        match self {
            CryptogramVersion::TripleDes => 0x05u8,
            CryptogramVersion::Aes => 0x06u8,
        }
    }

    /// What the value means, in words.
    pub open spec fn spec_description(self) -> Seq<char> {
        match self {
            CryptogramVersion::TripleDes => "Triple DES (3DES)"@,
            CryptogramVersion::Aes => "AES"@,
        }
    }

    /// Conversion from a code: the value it stands for, or an error.
    pub open spec fn spec_try_from(code: u8) -> Result<CryptogramVersion, ParseError> {
        match CryptogramVersion::spec_from_code(code) {
            Some(value) => Ok(value),
            None => Err(ParseError::NonCcdCompliant),
        }
    }

    /// The code of the value.
    pub fn code(&self) -> (code: u8)
        ensures
            code == self.spec_code(),
    {
        match self {
            CryptogramVersion::TripleDes => 0x05u8,
            CryptogramVersion::Aes => 0x06u8,
        }
    }

    /// What the value means, in words.
    pub fn description(&self) -> (text: &'static str)
        ensures
            text@ == self.spec_description(),
    {
        match self {
            CryptogramVersion::TripleDes => "Triple DES (3DES)",
            CryptogramVersion::Aes => "AES",
        }
    }
}

impl TryFrom<u8> for CryptogramVersion {
    type Error = ParseError;

    fn try_from(code: u8) -> (result: Result<CryptogramVersion, ParseError>)
        ensures
            result == CryptogramVersion::spec_try_from(code),
    {
        match code {
            0x05u8 => Ok(CryptogramVersion::TripleDes),
            0x06u8 => Ok(CryptogramVersion::Aes),
            _ => Err(ParseError::NonCcdCompliant),
        }
    }
}

impl TryFromSpecImpl<u8> for CryptogramVersion {
    open spec fn obeys_try_from_spec() -> bool {
        true
    }

    open spec fn try_from_spec(code: u8) -> Result<CryptogramVersion, ParseError> {
        CryptogramVersion::spec_try_from(code)
    }
}

/// A code stands for a value exactly when it is that value's code.
pub proof fn lemma_cryptogram_version_codes(code: u8, value: CryptogramVersion)
    ensures
        (CryptogramVersion::spec_from_code(code) == Some(value)) <==> (code == value.spec_code()),
{
}

impl CommonCoreIdentifier {
    /// Parsing: exactly `1` byte is required, whose high four bits are a known
    /// format code and whose low four bits are a known cryptogram version.
    pub open spec fn spec_try_from(bytes: Seq<u8>) -> Result<CommonCoreIdentifier, ParseError> {
        if bytes.len() != 1 {
            Err(ParseError::ByteCountIncorrect { comparison: Comparison::Equal, expected: 1, found: bytes.len() as usize })
        } else {
            match FormatCode::spec_try_from((bytes[0] & 0xF0u8) >> 4u8) {
                Err(error) => Err(error),
                Ok(iad_format_code) => match CryptogramVersion::spec_try_from(bytes[0] & 0x0Fu8) {
                    Err(error) => Err(error),
                    Ok(cryptogram_version) => Ok(CommonCoreIdentifier { iad_format_code, cryptogram_version }),
                },
            }
        }
    }

    /// The raw bytes of the value.
    pub open spec fn spec_binary(self) -> Seq<u8> {
        seq![nibble_byte(self.iad_format_code.spec_code(), self.cryptogram_version.spec_code())]
    }

    /// The values, left to right, with their meaning.
    pub open spec fn spec_bit_display(self) -> Seq<BitRangeModel> {
        seq![
            bit_range(7, 4, "IAD Format Code: "@ + self.iad_format_code.spec_description(), Severity::Normal),
            bit_range(3, 4, "Cryptogram Version: "@ + self.cryptogram_version.spec_description(), Severity::Normal),
        ]
    }
}

impl<'a> TryFrom<&'a [u8]> for CommonCoreIdentifier {
    type Error = ParseError;

    fn try_from(raw_bytes: &'a [u8]) -> (result: Result<CommonCoreIdentifier, ParseError>)
        ensures
            result == CommonCoreIdentifier::spec_try_from(raw_bytes@),
    {
        if raw_bytes.len() != 1 {
            return Err(ParseError::ByteCountIncorrect { comparison: Comparison::Equal, expected: 1, found: raw_bytes.len() });
        }
        let iad_format_code = match FormatCode::try_from((raw_bytes[0] & 0xF0u8) >> 4u8) {
            Ok(code) => code,
            Err(error) => return Err(error),
        };
        let cryptogram_version = match CryptogramVersion::try_from(raw_bytes[0] & 0x0Fu8) {
            Ok(version) => version,
            Err(error) => return Err(error),
        };
        Ok(CommonCoreIdentifier { iad_format_code, cryptogram_version })
    }
}

impl<'a> TryFromSpecImpl<&'a [u8]> for CommonCoreIdentifier {
    open spec fn obeys_try_from_spec() -> bool {
        true
    }

    open spec fn try_from_spec(raw_bytes: &'a [u8]) -> Result<CommonCoreIdentifier, ParseError> {
        CommonCoreIdentifier::spec_try_from(raw_bytes@)
    }
}

impl BitflagValue for CommonCoreIdentifier {
    const NUM_BYTES: usize = 1;

    open spec fn spec_binary_representation(&self) -> Seq<u8> {
        self.spec_binary()
    }

    open spec fn spec_bit_display_information(&self) -> Seq<BitRangeModel> {
        self.spec_bit_display()
    }

    fn get_binary_representation(&self) -> (bytes: Vec<u8>) {
        let mut bytes: Vec<u8> = Vec::new();
        bytes.push(nibbles_to_byte(self.iad_format_code.code(), self.cryptogram_version.code()));
        assert(bytes@ =~= self.spec_binary());
        bytes
    }

    fn get_bit_display_information(&self) -> (ranges: Vec<EnabledBitRange>) {
        let mut ranges: Vec<EnabledBitRange> = Vec::new();
        assert(bit_range_models(ranges@) =~= Seq::<BitRangeModel>::empty());
        push_bit_range_with_value(&mut ranges, 7, 4, "IAD Format Code: ", self.iad_format_code.description(), Severity::Normal);
        push_bit_range_with_value(&mut ranges, 3, 4, "Cryptogram Version: ", self.cryptogram_version.description(), Severity::Normal);
        assert(bit_range_models(ranges@) =~= self.spec_bit_display());
        ranges
    }

    proof fn lemma_bit_display_in_order(&self) {
        assert(ranges_in_order(self.spec_bit_display(), 8));
    }
}

/// Parsing the byte of a value gives the value back.
pub proof fn lemma_common_core_identifier_parse_of_binary(value: CommonCoreIdentifier)
    ensures
        CommonCoreIdentifier::spec_try_from(value.spec_binary()) == Ok::<CommonCoreIdentifier, ParseError>(value),
{
    lemma_nibble_byte(value.iad_format_code.spec_code(), value.cryptogram_version.spec_code());
    lemma_format_code_codes(value.iad_format_code.spec_code(), value.iad_format_code);
    lemma_cryptogram_version_codes(value.cryptogram_version.spec_code(), value.cryptogram_version);
}

/// A byte that parses is written back unchanged.
pub proof fn lemma_common_core_identifier_binary_of_parsed(bytes: Seq<u8>)
    requires
        CommonCoreIdentifier::spec_try_from(bytes) is Ok,
    ensures
        CommonCoreIdentifier::spec_try_from(bytes)->Ok_0.spec_binary() == bytes,
{
    let value = CommonCoreIdentifier::spec_try_from(bytes)->Ok_0;
    lemma_byte_nibbles(bytes[0]);
    lemma_format_code_codes((bytes[0] & 0xF0u8) >> 4u8, value.iad_format_code);
    lemma_cryptogram_version_codes(bytes[0] & 0x0Fu8, value.cryptogram_version);
    assert(value.spec_binary() =~= bytes);
}

/// The code table of EMV Book 3 `C7.1`: each code gives the value named beside it,
/// which reads as the text beside it, and every other code is refused.
#[verifier::rlimit(40)]
pub proof fn lemma_format_code_code_table(code: u8)
    ensures
        code == 0x0Au8 ==> FormatCode::spec_try_from(code) == Ok::<FormatCode, ParseError>(FormatCode::A),
        !(code == 0x0Au8) ==> FormatCode::spec_try_from(code) is Err,
        FormatCode::A.spec_description() == "Format A"@,
{
}

/// The code table of EMV Book 3 `C7.1`: each code gives the value named beside it,
/// which reads as the text beside it, and every other code is refused.
#[verifier::rlimit(40)]
pub proof fn lemma_cryptogram_version_code_table(code: u8)
    ensures
        code == 0x05u8 ==> CryptogramVersion::spec_try_from(code) == Ok::<CryptogramVersion, ParseError>(CryptogramVersion::TripleDes),
        code == 0x06u8 ==> CryptogramVersion::spec_try_from(code) == Ok::<CryptogramVersion, ParseError>(CryptogramVersion::Aes),
        !(code == 0x05u8 || code == 0x06u8) ==> CryptogramVersion::spec_try_from(code) is Err,
        CryptogramVersion::TripleDes.spec_description() == "Triple DES (3DES)"@,
        CryptogramVersion::Aes.spec_description() == "AES"@,
{
}

/// Reading a CCI: the high four bits are the IAD format code and the low four
/// the cryptogram version, each of which must be known; the display shows
/// them at bits 7 and 3.
#[verifier::rlimit(40)]
pub proof fn lemma_common_core_identifier_bits_shown(bytes: Seq<u8>, offset: u8)
    requires
        bytes.len() == 1,
    ensures
        CommonCoreIdentifier::spec_try_from(bytes) is Ok <==> (FormatCode::spec_try_from((bytes[0] & 0xF0u8) >> 4u8) is Ok
            && CryptogramVersion::spec_try_from(bytes[0] & 0x0Fu8) is Ok),
        CommonCoreIdentifier::spec_try_from(bytes) is Ok ==> ({
            let value = CommonCoreIdentifier::spec_try_from(bytes)->Ok_0;
            let shown = value.spec_bit_display_information();
            &&& FormatCode::spec_try_from((bytes[0] & 0xF0u8) >> 4u8) == Ok::<FormatCode, ParseError>(value.iad_format_code)
            &&& CryptogramVersion::spec_try_from(bytes[0] & 0x0Fu8) == Ok::<CryptogramVersion, ParseError>(value.cryptogram_version)
            &&& range_at(shown, 7) == Some(bit_range(7, 4, "IAD Format Code: "@ + value.iad_format_code.spec_description(), Severity::Normal))
            &&& range_at(shown, 3) == Some(
                bit_range(3, 4, "Cryptogram Version: "@ + value.cryptogram_version.spec_description(), Severity::Normal),
            )
            &&& !(offset == 7 || offset == 3) ==> range_at(shown, offset) is None
        }),
{
    broadcast use group_range_at;

    if CommonCoreIdentifier::spec_try_from(bytes) is Ok {
        let value = CommonCoreIdentifier::spec_try_from(bytes)->Ok_0;
        let format = bit_range(7, 4, "IAD Format Code: "@ + value.iad_format_code.spec_description(), Severity::Normal);
        let version = bit_range(
            3,
            4,
            "Cryptogram Version: "@ + value.cryptogram_version.spec_description(),
            Severity::Normal,
        );
        assert(value.spec_bit_display() =~= Seq::<BitRangeModel>::empty().push(format).push(version));
    }
}

} // verus!
