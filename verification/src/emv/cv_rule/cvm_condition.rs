//! The definition for Cardholder Verification Method Conditions.
//!
//! Information for this can be found in EMV Book 3, under section `C3`.
use vstd::prelude::*;

use crate::error::ParseError;
use vstd::std_specs::convert::{FromSpecImpl, TryFromSpecImpl};

verus! {

/// A Cardholder Verification Method Condition.
#[derive(Clone, Copy, Debug, PartialEq, Eq, Structural, Hash)]
pub enum CvmCondition {
    /// Always
    Always,
    /// If unattended cash
    UnattendedCash,
    /// If not unattended cash and not manual cash and not purchase with cashback
    NotUnattendedNotManualNotCashback,
    /// If terminal supports the CVM
    TerminalSupported,
    /// If manual cash
    Manual,
    /// If purchase with cashback
    Cashback,
    /// If transaction is in the application currency and is under X value
    InApplicationCurrencyUnderX,
    /// If transaction is in the application currency and is over X value
    InApplicationCurrencyOverX,
    /// If transaction is in the application currency and is under Y value
    InApplicationCurrencyUnderY,
    /// If transaction is in the application currency and is over Y value
    InApplicationCurrencyOverY,
}

impl CvmCondition {
    /// The value that `code` stands for, if any.
    pub open spec fn spec_from_code(code: u8) -> Option<CvmCondition> {
        if code == 0x00u8 {
            Some(CvmCondition::Always)
        } else if code == 0x01u8 {
            Some(CvmCondition::UnattendedCash)
        } else if code == 0x02u8 {
            Some(CvmCondition::NotUnattendedNotManualNotCashback)
        } else if code == 0x03u8 {
            Some(CvmCondition::TerminalSupported)
        } else if code == 0x04u8 {
            Some(CvmCondition::Manual)
        } else if code == 0x05u8 {
            Some(CvmCondition::Cashback)
        } else if code == 0x06u8 {
            Some(CvmCondition::InApplicationCurrencyUnderX)
        } else if code == 0x07u8 {
            Some(CvmCondition::InApplicationCurrencyOverX)
        } else if code == 0x08u8 {
            Some(CvmCondition::InApplicationCurrencyUnderY)
        } else if code == 0x09u8 {
            Some(CvmCondition::InApplicationCurrencyOverY)
        } else {
            None
        }
    }

    /// The code of the value.
    pub open spec fn spec_code(self) -> u8 {
        match self {
            CvmCondition::Always => 0x00u8,
            CvmCondition::UnattendedCash => 0x01u8,
            CvmCondition::NotUnattendedNotManualNotCashback => 0x02u8,
            CvmCondition::TerminalSupported => 0x03u8,
            CvmCondition::Manual => 0x04u8,
            CvmCondition::Cashback => 0x05u8,
            CvmCondition::InApplicationCurrencyUnderX => 0x06u8,
            CvmCondition::InApplicationCurrencyOverX => 0x07u8,
            CvmCondition::InApplicationCurrencyUnderY => 0x08u8,
            CvmCondition::InApplicationCurrencyOverY => 0x09u8,
        }
    }

    /// What the value means, in words.
    pub open spec fn spec_description(self) -> Seq<char> {
        match self {
            CvmCondition::Always => "Always"@,
            CvmCondition::UnattendedCash => "If unattended cash"@,
            CvmCondition::NotUnattendedNotManualNotCashback => "If not unattended cash and not manual cash and not purchase with cashback"@,
            CvmCondition::TerminalSupported => "If terminal supports the CVM"@,
            CvmCondition::Manual => "If manual cash"@,
            CvmCondition::Cashback => "If purchase with cashback"@,
            CvmCondition::InApplicationCurrencyUnderX => "If transaction is in the application currency and is under X value"@,
            CvmCondition::InApplicationCurrencyOverX => "If transaction is in the application currency and is over X value"@,
            CvmCondition::InApplicationCurrencyUnderY => "If transaction is in the application currency and is under Y value"@,
            CvmCondition::InApplicationCurrencyOverY => "If transaction is in the application currency and is over Y value"@,
        }
    }

    /// Conversion from a code: the value it stands for, or an error.
    pub open spec fn spec_try_from(code: u8) -> Result<CvmCondition, ParseError> {
        match CvmCondition::spec_from_code(code) {
            Some(value) => Ok(value),
            None => Err(ParseError::NonCompliant),
        }
    }

    /// The code of the value.
    pub fn code(&self) -> (code: u8)
        ensures
            code == self.spec_code(),
    {
        match self {
            CvmCondition::Always => 0x00u8,
            CvmCondition::UnattendedCash => 0x01u8,
            CvmCondition::NotUnattendedNotManualNotCashback => 0x02u8,
            CvmCondition::TerminalSupported => 0x03u8,
            CvmCondition::Manual => 0x04u8,
            CvmCondition::Cashback => 0x05u8,
            CvmCondition::InApplicationCurrencyUnderX => 0x06u8,
            CvmCondition::InApplicationCurrencyOverX => 0x07u8,
            CvmCondition::InApplicationCurrencyUnderY => 0x08u8,
            CvmCondition::InApplicationCurrencyOverY => 0x09u8,
        }
    }

    /// What the value means, in words.
    pub fn description(&self) -> (text: &'static str)
        ensures
            text@ == self.spec_description(),
    {
        match self {
            CvmCondition::Always => "Always",
            CvmCondition::UnattendedCash => "If unattended cash",
            CvmCondition::NotUnattendedNotManualNotCashback => "If not unattended cash and not manual cash and not purchase with cashback",
            CvmCondition::TerminalSupported => "If terminal supports the CVM",
            CvmCondition::Manual => "If manual cash",
            CvmCondition::Cashback => "If purchase with cashback",
            CvmCondition::InApplicationCurrencyUnderX => "If transaction is in the application currency and is under X value",
            CvmCondition::InApplicationCurrencyOverX => "If transaction is in the application currency and is over X value",
            CvmCondition::InApplicationCurrencyUnderY => "If transaction is in the application currency and is under Y value",
            CvmCondition::InApplicationCurrencyOverY => "If transaction is in the application currency and is over Y value",
        }
    }
}

impl TryFrom<u8> for CvmCondition {
    type Error = ParseError;

    fn try_from(code: u8) -> (result: Result<CvmCondition, ParseError>)
        ensures
            result == CvmCondition::spec_try_from(code),
    {
        match code {
            0x00u8 => Ok(CvmCondition::Always),
            0x01u8 => Ok(CvmCondition::UnattendedCash),
            0x02u8 => Ok(CvmCondition::NotUnattendedNotManualNotCashback),
            0x03u8 => Ok(CvmCondition::TerminalSupported),
            0x04u8 => Ok(CvmCondition::Manual),
            0x05u8 => Ok(CvmCondition::Cashback),
            0x06u8 => Ok(CvmCondition::InApplicationCurrencyUnderX),
            0x07u8 => Ok(CvmCondition::InApplicationCurrencyOverX),
            0x08u8 => Ok(CvmCondition::InApplicationCurrencyUnderY),
            0x09u8 => Ok(CvmCondition::InApplicationCurrencyOverY),
            _ => Err(ParseError::NonCompliant),
        }
    }
}

impl TryFromSpecImpl<u8> for CvmCondition {
    open spec fn obeys_try_from_spec() -> bool {
        true
    }

    open spec fn try_from_spec(code: u8) -> Result<CvmCondition, ParseError> {
        CvmCondition::spec_try_from(code)
    }
}

/// A code stands for a value exactly when it is that value's code.
pub proof fn lemma_cvm_condition_codes(code: u8, value: CvmCondition)
    ensures
        (CvmCondition::spec_from_code(code) == Some(value)) <==> (code == value.spec_code()),
{
}

impl CvmCondition {
    /// Whether the condition depends on the X or Y value of the CVM List.
    pub open spec fn spec_references_x_or_y_value(self) -> bool {
        match self {
            CvmCondition::InApplicationCurrencyUnderX | CvmCondition::InApplicationCurrencyOverX
            | CvmCondition::InApplicationCurrencyUnderY | CvmCondition::InApplicationCurrencyOverY => true,
            _ => false,
        }
    }

    /// Whether the condition depends on the X or Y value of the CVM List.
    pub fn references_x_or_y_value(&self) -> (references: bool)
        ensures
            references == self.spec_references_x_or_y_value(),
    {
        match self {
            CvmCondition::InApplicationCurrencyUnderX | CvmCondition::InApplicationCurrencyOverX
            | CvmCondition::InApplicationCurrencyUnderY | CvmCondition::InApplicationCurrencyOverY => true,
            _ => false,
        }
    }
}

/// A Cardholder Verification Method Condition that may not be known.
#[derive(Clone, Copy, Debug, PartialEq, Eq, Structural, Hash)]
pub struct OptionalCvmCondition {
    pub internal: Option<CvmCondition>,
}

impl OptionalCvmCondition {
    /// What the value means, in words.
    pub open spec fn spec_description(self) -> Seq<char> {
        match self.internal {
            Some(value) => value.spec_description(),
            None => "Unknown (likely payment system-specific)"@,
        }
    }

    /// What the value means, in words.
    pub fn description(&self) -> (text: &'static str)
        ensures
            text@ == self.spec_description(),
    {
        match &self.internal {
            Some(value) => value.description(),
            None => "Unknown (likely payment system-specific)",
        }
    }
}

impl From<Option<CvmCondition>> for OptionalCvmCondition {
    fn from(value: Option<CvmCondition>) -> (result: OptionalCvmCondition)
        ensures
            result.internal == value,
    {
        OptionalCvmCondition { internal: value }
    }
}

impl FromSpecImpl<Option<CvmCondition>> for OptionalCvmCondition {
    open spec fn obeys_from_spec() -> bool {
        true
    }

    open spec fn from_spec(value: Option<CvmCondition>) -> OptionalCvmCondition {
        OptionalCvmCondition { internal: value }
    }
}

impl From<OptionalCvmCondition> for Option<CvmCondition> {
    fn from(value: OptionalCvmCondition) -> (result: Option<CvmCondition>)
        ensures
            result == value.internal,
    {
        value.internal
    }
}

impl FromSpecImpl<OptionalCvmCondition> for Option<CvmCondition> {
    open spec fn obeys_from_spec() -> bool {
        true
    }

    open spec fn from_spec(value: OptionalCvmCondition) -> Option<CvmCondition> {
        value.internal
    }
}

/// The code table of EMV Book 3 `C3`: each code gives the value named beside it,
/// which reads as the text beside it, and every other code is refused.
#[verifier::rlimit(40)]
pub proof fn lemma_cvm_condition_code_table(code: u8)
    ensures
        code == 0x00u8 ==> CvmCondition::spec_try_from(code) == Ok::<CvmCondition, ParseError>(CvmCondition::Always),
        code == 0x01u8 ==> CvmCondition::spec_try_from(code) == Ok::<CvmCondition, ParseError>(CvmCondition::UnattendedCash),
        code == 0x02u8 ==> CvmCondition::spec_try_from(code) == Ok::<CvmCondition, ParseError>(CvmCondition::NotUnattendedNotManualNotCashback),
        code == 0x03u8 ==> CvmCondition::spec_try_from(code) == Ok::<CvmCondition, ParseError>(CvmCondition::TerminalSupported),
        code == 0x04u8 ==> CvmCondition::spec_try_from(code) == Ok::<CvmCondition, ParseError>(CvmCondition::Manual),
        code == 0x05u8 ==> CvmCondition::spec_try_from(code) == Ok::<CvmCondition, ParseError>(CvmCondition::Cashback),
        code == 0x06u8 ==> CvmCondition::spec_try_from(code) == Ok::<CvmCondition, ParseError>(CvmCondition::InApplicationCurrencyUnderX),
        code == 0x07u8 ==> CvmCondition::spec_try_from(code) == Ok::<CvmCondition, ParseError>(CvmCondition::InApplicationCurrencyOverX),
        code == 0x08u8 ==> CvmCondition::spec_try_from(code) == Ok::<CvmCondition, ParseError>(CvmCondition::InApplicationCurrencyUnderY),
        code == 0x09u8 ==> CvmCondition::spec_try_from(code) == Ok::<CvmCondition, ParseError>(CvmCondition::InApplicationCurrencyOverY),
        !(code == 0x00u8 || code == 0x01u8 || code == 0x02u8 || code == 0x03u8 || code == 0x04u8 || code == 0x05u8 || code == 0x06u8 || code == 0x07u8 || code == 0x08u8 || code == 0x09u8) ==> CvmCondition::spec_try_from(code) is Err,
        CvmCondition::Always.spec_description() == "Always"@,
        CvmCondition::UnattendedCash.spec_description() == "If unattended cash"@,
        CvmCondition::NotUnattendedNotManualNotCashback.spec_description() == "If not unattended cash and not manual cash and not purchase with cashback"@,
        CvmCondition::TerminalSupported.spec_description() == "If terminal supports the CVM"@,
        CvmCondition::Manual.spec_description() == "If manual cash"@,
        CvmCondition::Cashback.spec_description() == "If purchase with cashback"@,
        CvmCondition::InApplicationCurrencyUnderX.spec_description() == "If transaction is in the application currency and is under X value"@,
        CvmCondition::InApplicationCurrencyOverX.spec_description() == "If transaction is in the application currency and is over X value"@,
        CvmCondition::InApplicationCurrencyUnderY.spec_description() == "If transaction is in the application currency and is under Y value"@,
        CvmCondition::InApplicationCurrencyOverY.spec_description() == "If transaction is in the application currency and is over Y value"@,
{
}

} // verus!
