//! Everything for handling the Issuer Application Data (IAD).
//!
//! Information for this can be found in EMV Book 3, under section `C7`.
use vstd::prelude::*;

use super::cci::{CommonCoreIdentifier, FormatCode};
use super::cvr::{lemma_card_verification_results_parse_total, CardVerificationResults};
use crate::error::ParseError;
use vstd::slice::slice_subrange;
use vstd::std_specs::cmp::PartialEqSpecImpl;
use vstd::std_specs::convert::TryFromSpecImpl;

verus! {

/// The number of bytes in CCD-compliant Issuer Application Data.
pub const IAD_NUM_BYTES: usize = 32;

/// Issuer Application Data (IAD) that complies with the EMV Common Core
/// Definitions.
#[derive(Clone, Copy, Debug, PartialEq, Eq, Hash)]
pub struct IssuerApplicationData {
    pub cci: CommonCoreIdentifier,
    pub format_specific_data: FormatSpecificData,
}

/// The part of the IAD whose layout depends on its format.
#[derive(Clone, Copy, Debug, PartialEq, Eq, Hash)]
pub enum FormatSpecificData {
    A { dki: u8, cvr: CardVerificationResults, counter_bytes: [u8; 8], issuer_discretionary_data: [u8; 15] },
}

/// The model of [`FormatSpecificData`].
pub enum FormatDataModel {
    A { dki: u8, cvr: CardVerificationResults, counter_bytes: Seq<u8>, issuer_discretionary_data: Seq<u8> },
}

impl View for FormatSpecificData {
    type V = FormatDataModel;

    open spec fn view(&self) -> FormatDataModel {
        match self {
            FormatSpecificData::A { dki, cvr, counter_bytes, issuer_discretionary_data } => FormatDataModel::A {
                dki: *dki,
                cvr: *cvr,
                counter_bytes: counter_bytes@,
                issuer_discretionary_data: issuer_discretionary_data@,
            },
        }
    }
}

/// The model of [`IssuerApplicationData`].
pub struct IadModel {
    pub cci: CommonCoreIdentifier,
    pub format_specific_data: FormatDataModel,
}

impl View for IssuerApplicationData {
    type V = IadModel;

    open spec fn view(&self) -> IadModel {
        IadModel { cci: self.cci, format_specific_data: self.format_specific_data@ }
    }
}

/// The format-specific data of the whole IAD `bytes`, read in `format_code`.
pub open spec fn spec_parse_format_data(format_code: FormatCode, bytes: Seq<u8>) -> Result<FormatDataModel, ParseError> {
    match format_code {
        FormatCode::A => match CardVerificationResults::spec_try_from(bytes.subrange(3, 8)) {
            Err(error) => Err(error),
            Ok(cvr) => Ok(
                FormatDataModel::A {
                    dki: bytes[2],
                    cvr,
                    counter_bytes: bytes.subrange(8, 16),
                    issuer_discretionary_data: bytes.subrange(17, 32),
                },
            ),
        },
    }
}

/// Parsing: exactly `32` bytes, whose bytes `0` and `16` (the lengths of the
/// two halves) are `0x0F`, with a valid CCI in byte `1`.
pub open spec fn spec_parse_iad(bytes: Seq<u8>) -> Result<IadModel, ParseError> {
    if bytes.len() != 32 {
        Err(ParseError::NonCcdCompliant)
    } else if bytes[0] != 0x0Fu8 || bytes[16] != 0x0Fu8 {
        Err(ParseError::NonCcdCompliant)
    } else {
        match CommonCoreIdentifier::spec_try_from(bytes.subrange(1, 2)) {
            Err(error) => Err(error),
            Ok(cci) => match spec_parse_format_data(cci.iad_format_code, bytes) {
                Err(error) => Err(error),
                Ok(format_specific_data) => Ok(IadModel { cci, format_specific_data }),
            },
        }
    }
}

/// Whether the format-specific data is in format `format_code`.
pub open spec fn format_matches(data: FormatSpecificData, format_code: FormatCode) -> bool {
    match data {
        FormatSpecificData::A { .. } => format_code == FormatCode::A,
    }
}

impl FormatSpecificData {
    /// Parses the IAD according to the specified format.
    ///
    /// Expects the entire IAD contents, including the non-format-specific
    /// parts.
    pub fn parse_format_data(format_code: FormatCode, bytes: &[u8]) -> (result: Result<FormatSpecificData, ParseError>)
        requires
            bytes@.len() >= 32,
        ensures
            match result {
                Ok(data) => spec_parse_format_data(format_code, bytes@) == Ok::<FormatDataModel, ParseError>(data@),
                Err(error) => spec_parse_format_data(format_code, bytes@) == Err::<FormatDataModel, ParseError>(error),
            },
    {
        match format_code {
            FormatCode::A => {
                let dki = bytes[2];
                let cvr = match CardVerificationResults::try_from(slice_subrange(bytes, 3, 8)) {
                    Ok(cvr) => cvr,
                    Err(error) => return Err(error),
                };
                let counter_bytes: [u8; 8] = [
                    bytes[8], bytes[9], bytes[10], bytes[11], bytes[12], bytes[13], bytes[14], bytes[15],
                ];
                let issuer_discretionary_data: [u8; 15] = [
                    bytes[17], bytes[18], bytes[19], bytes[20], bytes[21], bytes[22], bytes[23], bytes[24],
                    bytes[25], bytes[26], bytes[27], bytes[28], bytes[29], bytes[30], bytes[31],
                ];
                assert(counter_bytes@ =~= bytes@.subrange(8, 16));
                assert(issuer_discretionary_data@ =~= bytes@.subrange(17, 32));
                Ok(FormatSpecificData::A { dki, cvr, counter_bytes, issuer_discretionary_data })
            },
        }
    }
}

impl PartialEq<FormatCode> for FormatSpecificData {
    fn eq(&self, other: &FormatCode) -> (equal: bool) {
        match self {
            FormatSpecificData::A { .. } => *other == FormatCode::A,
        }
    }
}

impl PartialEqSpecImpl<FormatCode> for FormatSpecificData {
    open spec fn obeys_eq_spec() -> bool {
        true
    }

    open spec fn eq_spec(&self, other: &FormatCode) -> bool {
        format_matches(*self, *other)
    }
}

impl PartialEq<FormatSpecificData> for FormatCode {
    fn eq(&self, other: &FormatSpecificData) -> (equal: bool) {
        match other {
            FormatSpecificData::A { .. } => *self == FormatCode::A,
        }
    }
}

impl PartialEqSpecImpl<FormatSpecificData> for FormatCode {
    open spec fn obeys_eq_spec() -> bool {
        true
    }

    open spec fn eq_spec(&self, other: &FormatSpecificData) -> bool {
        format_matches(*other, *self)
    }
}

impl<'a> TryFrom<&'a [u8]> for IssuerApplicationData {
    type Error = ParseError;

    fn try_from(bytes: &'a [u8]) -> (result: Result<IssuerApplicationData, ParseError>)
        ensures
            match result {
                Ok(iad) => spec_parse_iad(bytes@) == Ok::<IadModel, ParseError>(iad@),
                Err(error) => spec_parse_iad(bytes@) == Err::<IadModel, ParseError>(error),
            },
    {
        if bytes.len() != IAD_NUM_BYTES {
            return Err(ParseError::NonCcdCompliant);
        }
        if bytes[0] != 0x0Fu8 || bytes[16] != 0x0Fu8 {
            return Err(ParseError::NonCcdCompliant);
        }
        let cci = match CommonCoreIdentifier::try_from(slice_subrange(bytes, 1, 2)) {
            Ok(cci) => cci,
            Err(error) => return Err(error),
        };
        let format_specific_data = match FormatSpecificData::parse_format_data(cci.iad_format_code, bytes) {
            Ok(data) => data,
            Err(error) => return Err(error),
        };
        Ok(IssuerApplicationData { cci, format_specific_data })
    }
}

impl<'a> TryFromSpecImpl<&'a [u8]> for IssuerApplicationData {
    /// The result is described over its model instead, by the `ensures` of
    /// `try_from`.
    open spec fn obeys_try_from_spec() -> bool {
        false
    }

    open spec fn try_from_spec(bytes: &'a [u8]) -> Result<IssuerApplicationData, ParseError> {
        arbitrary()
    }
}

/// Reading an IAD: exactly 32 bytes whose bytes 0 and 16 (the lengths of the
/// two halves) are `0x0F`, else it is not CCD-compliant; byte 1 is the CCI;
/// in format A, byte 2 is the derivation key index, bytes 3 to 7 the CVR,
/// bytes 8 to 15 the counters and bytes 17 to 31 the issuer-discretionary
/// data.
pub proof fn lemma_iad_layout(bytes: Seq<u8>)
    ensures
        bytes.len() != 32 || bytes[0] != 0x0Fu8 || bytes[16] != 0x0Fu8 ==> spec_parse_iad(bytes) == Err::<
            IadModel,
            ParseError,
        >(ParseError::NonCcdCompliant),
        bytes.len() == 32 && bytes[0] == 0x0Fu8 && bytes[16] == 0x0Fu8 && CommonCoreIdentifier::spec_try_from(
            seq![bytes[1]],
        ) is Ok ==> ({
            let iad = spec_parse_iad(bytes)->Ok_0;
            &&& spec_parse_iad(bytes) is Ok
            &&& CommonCoreIdentifier::spec_try_from(seq![bytes[1]]) == Ok::<CommonCoreIdentifier, ParseError>(iad.cci)
            &&& iad.format_specific_data matches FormatDataModel::A { dki, cvr, counter_bytes, issuer_discretionary_data }
                && {
                &&& dki == bytes[2]
                &&& CardVerificationResults::spec_try_from(seq![bytes[3], bytes[4], bytes[5], bytes[6], bytes[7]])
                    == Ok::<CardVerificationResults, ParseError>(cvr)
                &&& counter_bytes.len() == 8
                &&& forall|i: int| 0 <= i < 8 ==> #[trigger] counter_bytes[i] == bytes[8 + i]
                &&& issuer_discretionary_data.len() == 15
                &&& forall|i: int| 0 <= i < 15 ==> #[trigger] issuer_discretionary_data[i] == bytes[17 + i]
            }
        }),
{
    if bytes.len() == 32 && bytes[0] == 0x0Fu8 && bytes[16] == 0x0Fu8 {
        assert(bytes.subrange(1, 2) =~= seq![bytes[1]]);
        assert(bytes.subrange(3, 8) =~= seq![bytes[3], bytes[4], bytes[5], bytes[6], bytes[7]]);
        lemma_card_verification_results_parse_total(bytes.subrange(3, 8));
    }
}

} // verus!
