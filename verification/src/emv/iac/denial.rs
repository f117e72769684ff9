//! The IAC value for `Denial`.
//!
//! From EMV Book 3:
//! > Together, the `Issuer Action Code - Denial` and the `Terminal Action
//! > Code - Denial` specify the conditions that cause denial of a transaction
//! > without attempting to go online.
use vstd::prelude::*;

use crate::emv::tvr::{lemma_terminal_verification_results_binary_of_parsed, TerminalVerificationResults};
use crate::error::ParseError;
use vstd::std_specs::convert::TryFromSpecImpl;

verus! {

/// The conditions, as TVR bits, of the Issuer Action Code.
#[derive(Clone, Copy, Debug, PartialEq, Eq, Structural, Hash)]
pub struct IssuerActionCodeDenial {
    pub tvr: TerminalVerificationResults,
}

impl IssuerActionCodeDenial {
    /// The value used when the tag is absent.
    pub open spec fn spec_default() -> IssuerActionCodeDenial {
        IssuerActionCodeDenial { tvr: TerminalVerificationResults::spec_from_bytes(seq![0x00u8, 0x00u8, 0x00u8, 0x00u8, 0x00u8]) }
    }

    /// Parsing: as for the TVR.
    pub open spec fn spec_try_from(bytes: Seq<u8>) -> Result<IssuerActionCodeDenial, ParseError> {
        match TerminalVerificationResults::spec_try_from(bytes) {
            Ok(tvr) => Ok(IssuerActionCodeDenial { tvr }),
            Err(error) => Err(error),
        }
    }
}

impl Default for IssuerActionCodeDenial {
    /// If the `Issuer Action Code - Denial` does not exist, a default value with
    /// all bits set to `0` is used.
    fn default() -> (value: IssuerActionCodeDenial)
        ensures
            value == IssuerActionCodeDenial::spec_default(),
    {
        let raw = [0x00u8, 0x00u8, 0x00u8, 0x00u8, 0x00u8];
        assert(raw@ =~= seq![0x00u8, 0x00u8, 0x00u8, 0x00u8, 0x00u8]);
        IssuerActionCodeDenial { tvr: TerminalVerificationResults::from_bytes(raw.as_slice()) }
    }
}

impl<'a> TryFrom<&'a [u8]> for IssuerActionCodeDenial {
    type Error = ParseError;

    fn try_from(raw_bytes: &'a [u8]) -> (result: Result<IssuerActionCodeDenial, ParseError>)
        ensures
            result == IssuerActionCodeDenial::spec_try_from(raw_bytes@),
    {
        match TerminalVerificationResults::try_from(raw_bytes) {
            Ok(tvr) => Ok(IssuerActionCodeDenial { tvr }),
            Err(error) => Err(error),
        }
    }
}

impl<'a> TryFromSpecImpl<&'a [u8]> for IssuerActionCodeDenial {
    open spec fn obeys_try_from_spec() -> bool {
        true
    }

    open spec fn try_from_spec(raw_bytes: &'a [u8]) -> Result<IssuerActionCodeDenial, ParseError> {
        IssuerActionCodeDenial::spec_try_from(raw_bytes@)
    }
}

/// The value used when the card gives none has every flag clear: no condition of the TVR is checked.
pub proof fn lemma_denial_iac_default_flags()
    ensures
        IssuerActionCodeDenial::spec_default().tvr.spec_binary() == seq![0x00u8, 0x00u8, 0x00u8, 0x00u8, 0x00u8],
        IssuerActionCodeDenial::spec_try_from(seq![0x00u8, 0x00u8, 0x00u8, 0x00u8, 0x00u8]) == Ok::<IssuerActionCodeDenial, ParseError>(IssuerActionCodeDenial::spec_default()),
{
    lemma_terminal_verification_results_binary_of_parsed(seq![0x00u8, 0x00u8, 0x00u8, 0x00u8, 0x00u8]);
    assert(TerminalVerificationResults::used_bits_of(seq![0x00u8, 0x00u8, 0x00u8, 0x00u8, 0x00u8]) =~= seq![0x00u8, 0x00u8, 0x00u8, 0x00u8, 0x00u8]) by {
        assert(0x00u8 & 0xFCu8 == 0x00u8) by (bit_vector);
        assert(0x00u8 & 0xF8u8 == 0x00u8) by (bit_vector);
        assert(0x00u8 & 0xF0u8 == 0x00u8) by (bit_vector);
    }
}

} // verus!
