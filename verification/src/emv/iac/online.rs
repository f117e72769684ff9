//! The IAC value for `Online`.
//!
//! From EMV Book 3:
//! > Together, the `Issuer Action Code - Online` and the `Terminal Action
//! > Code - Online` specify the conditions that cause a transaction to be
//! > completed online.
use vstd::prelude::*;

use crate::emv::tvr::{lemma_terminal_verification_results_binary_of_parsed, TerminalVerificationResults};
use crate::error::ParseError;
use vstd::std_specs::convert::TryFromSpecImpl;

verus! {

/// The conditions, as TVR bits, of the Issuer Action Code.
#[derive(Clone, Copy, Debug, PartialEq, Eq, Structural, Hash)]
pub struct IssuerActionCodeOnline {
    pub tvr: TerminalVerificationResults,
}

impl IssuerActionCodeOnline {
    /// The value used when the tag is absent.
    pub open spec fn spec_default() -> IssuerActionCodeOnline {
        IssuerActionCodeOnline { tvr: TerminalVerificationResults::spec_from_bytes(seq![0xFFu8, 0xFFu8, 0xFFu8, 0xFFu8, 0xFFu8]) }
    }

    /// Parsing: as for the TVR.
    pub open spec fn spec_try_from(bytes: Seq<u8>) -> Result<IssuerActionCodeOnline, ParseError> {
        match TerminalVerificationResults::spec_try_from(bytes) {
            Ok(tvr) => Ok(IssuerActionCodeOnline { tvr }),
            Err(error) => Err(error),
        }
    }
}

impl Default for IssuerActionCodeOnline {
    /// If the `Issuer Action Code - Online` is not present, a default value with
    /// all bits set to `1` is used in its place.
    fn default() -> (value: IssuerActionCodeOnline)
        ensures
            value == IssuerActionCodeOnline::spec_default(),
    {
        let raw = [0xFFu8, 0xFFu8, 0xFFu8, 0xFFu8, 0xFFu8];
        assert(raw@ =~= seq![0xFFu8, 0xFFu8, 0xFFu8, 0xFFu8, 0xFFu8]);
        IssuerActionCodeOnline { tvr: TerminalVerificationResults::from_bytes(raw.as_slice()) }
    }
}

impl<'a> TryFrom<&'a [u8]> for IssuerActionCodeOnline {
    type Error = ParseError;

    fn try_from(raw_bytes: &'a [u8]) -> (result: Result<IssuerActionCodeOnline, ParseError>)
        ensures
            result == IssuerActionCodeOnline::spec_try_from(raw_bytes@),
    {
        match TerminalVerificationResults::try_from(raw_bytes) {
            Ok(tvr) => Ok(IssuerActionCodeOnline { tvr }),
            Err(error) => Err(error),
        }
    }
}

impl<'a> TryFromSpecImpl<&'a [u8]> for IssuerActionCodeOnline {
    open spec fn obeys_try_from_spec() -> bool {
        true
    }

    open spec fn try_from_spec(raw_bytes: &'a [u8]) -> Result<IssuerActionCodeOnline, ParseError> {
        IssuerActionCodeOnline::spec_try_from(raw_bytes@)
    }
}

/// The value used when the card gives none has every flag set: every condition of the TVR is checked.
pub proof fn lemma_online_iac_default_flags()
    ensures
        IssuerActionCodeOnline::spec_default().tvr.spec_binary() == seq![0xFCu8, 0xF8u8, 0xFCu8, 0xF8u8, 0xF0u8],
        IssuerActionCodeOnline::spec_try_from(seq![0xFFu8, 0xFFu8, 0xFFu8, 0xFFu8, 0xFFu8]) == Ok::<IssuerActionCodeOnline, ParseError>(IssuerActionCodeOnline::spec_default()),
{
    lemma_terminal_verification_results_binary_of_parsed(seq![0xFFu8, 0xFFu8, 0xFFu8, 0xFFu8, 0xFFu8]);
    assert(TerminalVerificationResults::used_bits_of(seq![0xFFu8, 0xFFu8, 0xFFu8, 0xFFu8, 0xFFu8]) =~= seq![0xFCu8, 0xF8u8, 0xFCu8, 0xF8u8, 0xF0u8]) by {
        assert(0xFFu8 & 0xFCu8 == 0xFCu8) by (bit_vector);
        assert(0xFFu8 & 0xF8u8 == 0xF8u8) by (bit_vector);
        assert(0xFFu8 & 0xF0u8 == 0xF0u8) by (bit_vector);
    }
}

} // verus!
