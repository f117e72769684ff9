//! The terminal type value, typically from EMV tag `0x9F35`.
//!
//! Information for this can be found in EMV Book 4, under section `A1`.
use vstd::prelude::*;

use crate::error::{Comparison, ParseError};
use vstd::std_specs::convert::TryFromSpecImpl;

verus! {

/// The type of a terminal: who attends and controls it, and whether it goes online.
#[derive(Clone, Copy, Debug, PartialEq, Eq, Structural)]
pub enum TerminalType {
    /// Attended, Online-Only, Controlled by a Financial Institution
    AttendedOnlineOnlyFinancialInstitution,
    /// Attended, Offline With Online Capabilities, Controlled by a Financial Institution
    AttendedOfflineWithOnlineCapabilitiesFinancialInstitution,
    /// Attended, Offline-Only, Controlled by a Financial Institution
    AttendedOfflineOnlyFinancialInstitution,
    /// Unattended, Online-Only, Controlled by a Financial Institution (ATM if it supports Cash Disbursement)
    UnattendedOnlineOnlyFinancialInstitution,
    /// Unattended, Offline With Online Capabilities, Controlled by a Financial Institution (ATM if it supports Cash Disbursement)
    UnattendedOfflineWithOnlineCapabilitiesFinancialInstitution,
    /// Unattended, Offline-Only, Controlled by a Financial Institution (ATM if it supports Cash Disbursement)
    UnattendedOfflineOnlyFinancialInstitution,
    /// Attended, Online-Only, Controlled by a Merchant
    AttendedOnlineOnlyMerchant,
    /// Attended, Offline With Online Capabilities, Controlled by a Merchant
    AttendedOfflineWithOnlineCapabilitiesMerchant,
    /// Attended, Offline-Only, Controlled by a Merchant
    AttendedOfflineOnlyMerchant,
    /// Unattended, Online-Only, Controlled by a Merchant
    UnattendedOnlineOnlyMerchant,
    /// Unattended, Offline With Online Capabilities, Controlled by a Merchant
    UnattendedOfflineWithOnlineCapabilitiesMerchant,
    /// Unattended, Offline-Only, Controlled by a Merchant
    UnattendedOfflineOnlyMerchant,
    /// Unattended, Online-Only, Controlled by the Cardholder (self-attended, home PC, etc.)
    UnattendedOnlineOnlyCardholder,
    /// Unattended, Offline With Online Capabilities, Controlled by the Cardholder (self-attended, home PC, etc.)
    UnattendedOfflineWithOnlineCapabilitiesCardholder,
    /// Unattended, Offline-Only, Controlled by the Cardholder (self-attended, home PC, etc.)
    UnattendedOfflineOnlyCardholder,
}

impl TerminalType {
    /// The value that `code` stands for, if any.
    pub open spec fn spec_from_code(code: u8) -> Option<TerminalType> {
        if code == 0x11u8 {
            Some(TerminalType::AttendedOnlineOnlyFinancialInstitution)
        } else if code == 0x12u8 {
            Some(TerminalType::AttendedOfflineWithOnlineCapabilitiesFinancialInstitution)
        } else if code == 0x13u8 {
            Some(TerminalType::AttendedOfflineOnlyFinancialInstitution)
        } else if code == 0x14u8 {
            Some(TerminalType::UnattendedOnlineOnlyFinancialInstitution)
        } else if code == 0x15u8 {
            Some(TerminalType::UnattendedOfflineWithOnlineCapabilitiesFinancialInstitution)
        } else if code == 0x16u8 {
            Some(TerminalType::UnattendedOfflineOnlyFinancialInstitution)
        } else if code == 0x21u8 {
            Some(TerminalType::AttendedOnlineOnlyMerchant)
        } else if code == 0x22u8 {
            Some(TerminalType::AttendedOfflineWithOnlineCapabilitiesMerchant)
        } else if code == 0x23u8 {
            Some(TerminalType::AttendedOfflineOnlyMerchant)
        } else if code == 0x24u8 {
            Some(TerminalType::UnattendedOnlineOnlyMerchant)
        } else if code == 0x25u8 {
            Some(TerminalType::UnattendedOfflineWithOnlineCapabilitiesMerchant)
        } else if code == 0x26u8 {
            Some(TerminalType::UnattendedOfflineOnlyMerchant)
        } else if code == 0x34u8 {
            Some(TerminalType::UnattendedOnlineOnlyCardholder)
        } else if code == 0x35u8 {
            Some(TerminalType::UnattendedOfflineWithOnlineCapabilitiesCardholder)
        } else if code == 0x36u8 {
            Some(TerminalType::UnattendedOfflineOnlyCardholder)
        } else {
            None
        }
    }

    /// The code of the value.
    pub open spec fn spec_code(self) -> u8 {
        match self {
            TerminalType::AttendedOnlineOnlyFinancialInstitution => 0x11u8,
            TerminalType::AttendedOfflineWithOnlineCapabilitiesFinancialInstitution => 0x12u8,
            TerminalType::AttendedOfflineOnlyFinancialInstitution => 0x13u8,
            TerminalType::UnattendedOnlineOnlyFinancialInstitution => 0x14u8,
            TerminalType::UnattendedOfflineWithOnlineCapabilitiesFinancialInstitution => 0x15u8,
            TerminalType::UnattendedOfflineOnlyFinancialInstitution => 0x16u8,
            TerminalType::AttendedOnlineOnlyMerchant => 0x21u8,
            TerminalType::AttendedOfflineWithOnlineCapabilitiesMerchant => 0x22u8,
            TerminalType::AttendedOfflineOnlyMerchant => 0x23u8,
            TerminalType::UnattendedOnlineOnlyMerchant => 0x24u8,
            TerminalType::UnattendedOfflineWithOnlineCapabilitiesMerchant => 0x25u8,
            TerminalType::UnattendedOfflineOnlyMerchant => 0x26u8,
            TerminalType::UnattendedOnlineOnlyCardholder => 0x34u8,
            TerminalType::UnattendedOfflineWithOnlineCapabilitiesCardholder => 0x35u8,
            TerminalType::UnattendedOfflineOnlyCardholder => 0x36u8,
        }
    }

    /// What the value means, in words.
    pub open spec fn spec_description(self) -> Seq<char> {
        match self {
            TerminalType::AttendedOnlineOnlyFinancialInstitution => "Attended, Online-Only, Controlled by a Financial Institution"@,
            TerminalType::AttendedOfflineWithOnlineCapabilitiesFinancialInstitution => "Attended, Offline With Online Capabilities, Controlled by a Financial Institution"@,
            TerminalType::AttendedOfflineOnlyFinancialInstitution => "Attended, Offline-Only, Controlled by a Financial Institution"@,
            TerminalType::UnattendedOnlineOnlyFinancialInstitution => "Unattended, Online-Only, Controlled by a Financial Institution (ATM if it supports Cash Disbursement)"@,
            TerminalType::UnattendedOfflineWithOnlineCapabilitiesFinancialInstitution => "Unattended, Offline With Online Capabilities, Controlled by a Financial Institution (ATM if it supports Cash Disbursement)"@,
            TerminalType::UnattendedOfflineOnlyFinancialInstitution => "Unattended, Offline-Only, Controlled by a Financial Institution (ATM if it supports Cash Disbursement)"@,
            TerminalType::AttendedOnlineOnlyMerchant => "Attended, Online-Only, Controlled by a Merchant"@,
            TerminalType::AttendedOfflineWithOnlineCapabilitiesMerchant => "Attended, Offline With Online Capabilities, Controlled by a Merchant"@,
            TerminalType::AttendedOfflineOnlyMerchant => "Attended, Offline-Only, Controlled by a Merchant"@,
            TerminalType::UnattendedOnlineOnlyMerchant => "Unattended, Online-Only, Controlled by a Merchant"@,
            TerminalType::UnattendedOfflineWithOnlineCapabilitiesMerchant => "Unattended, Offline With Online Capabilities, Controlled by a Merchant"@,
            TerminalType::UnattendedOfflineOnlyMerchant => "Unattended, Offline-Only, Controlled by a Merchant"@,
            TerminalType::UnattendedOnlineOnlyCardholder => "Unattended, Online-Only, Controlled by the Cardholder (self-attended, home PC, etc.)"@,
            TerminalType::UnattendedOfflineWithOnlineCapabilitiesCardholder => "Unattended, Offline With Online Capabilities, Controlled by the Cardholder (self-attended, home PC, etc.)"@,
            TerminalType::UnattendedOfflineOnlyCardholder => "Unattended, Offline-Only, Controlled by the Cardholder (self-attended, home PC, etc.)"@,
        }
    }

    /// Conversion from a code: the value it stands for, or an error.
    pub open spec fn spec_try_from(code: u8) -> Result<TerminalType, ParseError> {
        match TerminalType::spec_from_code(code) {
            Some(value) => Ok(value),
            None => Err(ParseError::Unrecognised),
        }
    }

    /// The code of the value.
    pub fn code(&self) -> (code: u8)
        ensures
            code == self.spec_code(),
    {
        match self {
            TerminalType::AttendedOnlineOnlyFinancialInstitution => 0x11u8,
            TerminalType::AttendedOfflineWithOnlineCapabilitiesFinancialInstitution => 0x12u8,
            TerminalType::AttendedOfflineOnlyFinancialInstitution => 0x13u8,
            TerminalType::UnattendedOnlineOnlyFinancialInstitution => 0x14u8,
            TerminalType::UnattendedOfflineWithOnlineCapabilitiesFinancialInstitution => 0x15u8,
            TerminalType::UnattendedOfflineOnlyFinancialInstitution => 0x16u8,
            TerminalType::AttendedOnlineOnlyMerchant => 0x21u8,
            TerminalType::AttendedOfflineWithOnlineCapabilitiesMerchant => 0x22u8,
            TerminalType::AttendedOfflineOnlyMerchant => 0x23u8,
            TerminalType::UnattendedOnlineOnlyMerchant => 0x24u8,
            TerminalType::UnattendedOfflineWithOnlineCapabilitiesMerchant => 0x25u8,
            TerminalType::UnattendedOfflineOnlyMerchant => 0x26u8,
            TerminalType::UnattendedOnlineOnlyCardholder => 0x34u8,
            TerminalType::UnattendedOfflineWithOnlineCapabilitiesCardholder => 0x35u8,
            TerminalType::UnattendedOfflineOnlyCardholder => 0x36u8,
        }
    }

    /// What the value means, in words.
    pub fn description(&self) -> (text: &'static str)
        ensures
            text@ == self.spec_description(),
    {
        match self {
            TerminalType::AttendedOnlineOnlyFinancialInstitution => "Attended, Online-Only, Controlled by a Financial Institution",
            TerminalType::AttendedOfflineWithOnlineCapabilitiesFinancialInstitution => "Attended, Offline With Online Capabilities, Controlled by a Financial Institution",
            TerminalType::AttendedOfflineOnlyFinancialInstitution => "Attended, Offline-Only, Controlled by a Financial Institution",
            TerminalType::UnattendedOnlineOnlyFinancialInstitution => "Unattended, Online-Only, Controlled by a Financial Institution (ATM if it supports Cash Disbursement)",
            TerminalType::UnattendedOfflineWithOnlineCapabilitiesFinancialInstitution => "Unattended, Offline With Online Capabilities, Controlled by a Financial Institution (ATM if it supports Cash Disbursement)",
            TerminalType::UnattendedOfflineOnlyFinancialInstitution => "Unattended, Offline-Only, Controlled by a Financial Institution (ATM if it supports Cash Disbursement)",
            TerminalType::AttendedOnlineOnlyMerchant => "Attended, Online-Only, Controlled by a Merchant",
            TerminalType::AttendedOfflineWithOnlineCapabilitiesMerchant => "Attended, Offline With Online Capabilities, Controlled by a Merchant",
            TerminalType::AttendedOfflineOnlyMerchant => "Attended, Offline-Only, Controlled by a Merchant",
            TerminalType::UnattendedOnlineOnlyMerchant => "Unattended, Online-Only, Controlled by a Merchant",
            TerminalType::UnattendedOfflineWithOnlineCapabilitiesMerchant => "Unattended, Offline With Online Capabilities, Controlled by a Merchant",
            TerminalType::UnattendedOfflineOnlyMerchant => "Unattended, Offline-Only, Controlled by a Merchant",
            TerminalType::UnattendedOnlineOnlyCardholder => "Unattended, Online-Only, Controlled by the Cardholder (self-attended, home PC, etc.)",
            TerminalType::UnattendedOfflineWithOnlineCapabilitiesCardholder => "Unattended, Offline With Online Capabilities, Controlled by the Cardholder (self-attended, home PC, etc.)",
            TerminalType::UnattendedOfflineOnlyCardholder => "Unattended, Offline-Only, Controlled by the Cardholder (self-attended, home PC, etc.)",
        }
    }
}

impl TryFrom<u8> for TerminalType {
    type Error = ParseError;

    fn try_from(code: u8) -> (result: Result<TerminalType, ParseError>)
        ensures
            result == TerminalType::spec_try_from(code),
    {
        match code {
            0x11u8 => Ok(TerminalType::AttendedOnlineOnlyFinancialInstitution),
            0x12u8 => Ok(TerminalType::AttendedOfflineWithOnlineCapabilitiesFinancialInstitution),
            0x13u8 => Ok(TerminalType::AttendedOfflineOnlyFinancialInstitution),
            0x14u8 => Ok(TerminalType::UnattendedOnlineOnlyFinancialInstitution),
            0x15u8 => Ok(TerminalType::UnattendedOfflineWithOnlineCapabilitiesFinancialInstitution),
            0x16u8 => Ok(TerminalType::UnattendedOfflineOnlyFinancialInstitution),
            0x21u8 => Ok(TerminalType::AttendedOnlineOnlyMerchant),
            0x22u8 => Ok(TerminalType::AttendedOfflineWithOnlineCapabilitiesMerchant),
            0x23u8 => Ok(TerminalType::AttendedOfflineOnlyMerchant),
            0x24u8 => Ok(TerminalType::UnattendedOnlineOnlyMerchant),
            0x25u8 => Ok(TerminalType::UnattendedOfflineWithOnlineCapabilitiesMerchant),
            0x26u8 => Ok(TerminalType::UnattendedOfflineOnlyMerchant),
            0x34u8 => Ok(TerminalType::UnattendedOnlineOnlyCardholder),
            0x35u8 => Ok(TerminalType::UnattendedOfflineWithOnlineCapabilitiesCardholder),
            0x36u8 => Ok(TerminalType::UnattendedOfflineOnlyCardholder),
            _ => Err(ParseError::Unrecognised),
        }
    }
}

impl TryFromSpecImpl<u8> for TerminalType {
    open spec fn obeys_try_from_spec() -> bool {
        true
    }

    open spec fn try_from_spec(code: u8) -> Result<TerminalType, ParseError> {
        TerminalType::spec_try_from(code)
    }
}

/// A code stands for a value exactly when it is that value's code.
pub proof fn lemma_terminal_type_codes(code: u8, value: TerminalType)
    ensures
        (TerminalType::spec_from_code(code) == Some(value)) <==> (code == value.spec_code()),
{
}

impl TerminalType {
    /// Parsing raw bytes: exactly `1` byte is required.
    pub open spec fn spec_try_from_bytes(bytes: Seq<u8>) -> Result<TerminalType, ParseError> {
        if bytes.len() != 1 {
            Err(ParseError::ByteCountIncorrect { comparison: Comparison::Equal, expected: 1, found: bytes.len() as usize })
        } else {
            TerminalType::spec_try_from(bytes[0])
        }
    }
}

impl<'a> TryFrom<&'a [u8]> for TerminalType {
    type Error = ParseError;

    fn try_from(raw_bytes: &'a [u8]) -> (result: Result<TerminalType, ParseError>)
        ensures
            result == TerminalType::spec_try_from_bytes(raw_bytes@),
    {
        if raw_bytes.len() != 1 {
            return Err(ParseError::ByteCountIncorrect { comparison: Comparison::Equal, expected: 1, found: raw_bytes.len() });
        }
        TerminalType::try_from(raw_bytes[0])
    }
}

impl<'a> TryFromSpecImpl<&'a [u8]> for TerminalType {
    open spec fn obeys_try_from_spec() -> bool {
        true
    }

    open spec fn try_from_spec(raw_bytes: &'a [u8]) -> Result<TerminalType, ParseError> {
        TerminalType::spec_try_from_bytes(raw_bytes@)
    }
}

/// The code table of EMV Book 4 `A1`: each code gives the value named beside it,
/// which reads as the text beside it, and every other code is refused.
#[verifier::rlimit(40)]
pub proof fn lemma_terminal_type_code_table(code: u8)
    ensures
        code == 0x11u8 ==> TerminalType::spec_try_from(code) == Ok::<TerminalType, ParseError>(TerminalType::AttendedOnlineOnlyFinancialInstitution),
        code == 0x12u8 ==> TerminalType::spec_try_from(code) == Ok::<TerminalType, ParseError>(TerminalType::AttendedOfflineWithOnlineCapabilitiesFinancialInstitution),
        code == 0x13u8 ==> TerminalType::spec_try_from(code) == Ok::<TerminalType, ParseError>(TerminalType::AttendedOfflineOnlyFinancialInstitution),
        code == 0x14u8 ==> TerminalType::spec_try_from(code) == Ok::<TerminalType, ParseError>(TerminalType::UnattendedOnlineOnlyFinancialInstitution),
        code == 0x15u8 ==> TerminalType::spec_try_from(code) == Ok::<TerminalType, ParseError>(TerminalType::UnattendedOfflineWithOnlineCapabilitiesFinancialInstitution),
        code == 0x16u8 ==> TerminalType::spec_try_from(code) == Ok::<TerminalType, ParseError>(TerminalType::UnattendedOfflineOnlyFinancialInstitution),
        code == 0x21u8 ==> TerminalType::spec_try_from(code) == Ok::<TerminalType, ParseError>(TerminalType::AttendedOnlineOnlyMerchant),
        code == 0x22u8 ==> TerminalType::spec_try_from(code) == Ok::<TerminalType, ParseError>(TerminalType::AttendedOfflineWithOnlineCapabilitiesMerchant),
        code == 0x23u8 ==> TerminalType::spec_try_from(code) == Ok::<TerminalType, ParseError>(TerminalType::AttendedOfflineOnlyMerchant),
        code == 0x24u8 ==> TerminalType::spec_try_from(code) == Ok::<TerminalType, ParseError>(TerminalType::UnattendedOnlineOnlyMerchant),
        code == 0x25u8 ==> TerminalType::spec_try_from(code) == Ok::<TerminalType, ParseError>(TerminalType::UnattendedOfflineWithOnlineCapabilitiesMerchant),
        code == 0x26u8 ==> TerminalType::spec_try_from(code) == Ok::<TerminalType, ParseError>(TerminalType::UnattendedOfflineOnlyMerchant),
        code == 0x34u8 ==> TerminalType::spec_try_from(code) == Ok::<TerminalType, ParseError>(TerminalType::UnattendedOnlineOnlyCardholder),
        code == 0x35u8 ==> TerminalType::spec_try_from(code) == Ok::<TerminalType, ParseError>(TerminalType::UnattendedOfflineWithOnlineCapabilitiesCardholder),
        code == 0x36u8 ==> TerminalType::spec_try_from(code) == Ok::<TerminalType, ParseError>(TerminalType::UnattendedOfflineOnlyCardholder),
        !(code == 0x11u8 || code == 0x12u8 || code == 0x13u8 || code == 0x14u8 || code == 0x15u8 || code == 0x16u8 || code == 0x21u8 || code == 0x22u8 || code == 0x23u8 || code == 0x24u8 || code == 0x25u8 || code == 0x26u8 || code == 0x34u8 || code == 0x35u8 || code == 0x36u8) ==> TerminalType::spec_try_from(code) is Err,
        TerminalType::AttendedOnlineOnlyFinancialInstitution.spec_description() == "Attended, Online-Only, Controlled by a Financial Institution"@,
        TerminalType::AttendedOfflineWithOnlineCapabilitiesFinancialInstitution.spec_description() == "Attended, Offline With Online Capabilities, Controlled by a Financial Institution"@,
        TerminalType::AttendedOfflineOnlyFinancialInstitution.spec_description() == "Attended, Offline-Only, Controlled by a Financial Institution"@,
        TerminalType::UnattendedOnlineOnlyFinancialInstitution.spec_description() == "Unattended, Online-Only, Controlled by a Financial Institution (ATM if it supports Cash Disbursement)"@,
        TerminalType::UnattendedOfflineWithOnlineCapabilitiesFinancialInstitution.spec_description() == "Unattended, Offline With Online Capabilities, Controlled by a Financial Institution (ATM if it supports Cash Disbursement)"@,
        TerminalType::UnattendedOfflineOnlyFinancialInstitution.spec_description() == "Unattended, Offline-Only, Controlled by a Financial Institution (ATM if it supports Cash Disbursement)"@,
        TerminalType::AttendedOnlineOnlyMerchant.spec_description() == "Attended, Online-Only, Controlled by a Merchant"@,
        TerminalType::AttendedOfflineWithOnlineCapabilitiesMerchant.spec_description() == "Attended, Offline With Online Capabilities, Controlled by a Merchant"@,
        TerminalType::AttendedOfflineOnlyMerchant.spec_description() == "Attended, Offline-Only, Controlled by a Merchant"@,
        TerminalType::UnattendedOnlineOnlyMerchant.spec_description() == "Unattended, Online-Only, Controlled by a Merchant"@,
        TerminalType::UnattendedOfflineWithOnlineCapabilitiesMerchant.spec_description() == "Unattended, Offline With Online Capabilities, Controlled by a Merchant"@,
        TerminalType::UnattendedOfflineOnlyMerchant.spec_description() == "Unattended, Offline-Only, Controlled by a Merchant"@,
        TerminalType::UnattendedOnlineOnlyCardholder.spec_description() == "Unattended, Online-Only, Controlled by the Cardholder (self-attended, home PC, etc.)"@,
        TerminalType::UnattendedOfflineWithOnlineCapabilitiesCardholder.spec_description() == "Unattended, Offline With Online Capabilities, Controlled by the Cardholder (self-attended, home PC, etc.)"@,
        TerminalType::UnattendedOfflineOnlyCardholder.spec_description() == "Unattended, Offline-Only, Controlled by the Cardholder (self-attended, home PC, etc.)"@,
{
}

} // verus!
