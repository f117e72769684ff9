//! The definition for Cardholder Verification Methods.
//!
//! Information for this can be found in EMV Book 3, under section `C3`.
use vstd::prelude::*;

use crate::error::ParseError;
use vstd::std_specs::convert::{FromSpecImpl, TryFromSpecImpl};

verus! {

/// A Cardholder Verification Method.
#[derive(Clone, Copy, Debug, PartialEq, Eq, Structural, Hash)]
pub enum CvMethod {
    /// Fail CVM processing
    FailCvmProcessing,
    /// Plaintext PIN verification performed by ICC
    PlaintextPin,
    /// Enciphered PIN verified online
    EncipheredPinOnline,
    /// Plaintext PIN verification performed by ICC and signature (paper)
    PlaintextPinWithSignature,
    /// Enciphered PIN verification performed by ICC
    EncipheredPin,
    /// Enciphered PIN verification performed by ICC and signature (paper)
    EncipheredPinWithSignature,
    /// Signature (paper)
    Signature,
    /// No CVM required
    NoCvmRequired,
    /// No CVM performed
    NoCvmPerformed,
}

impl CvMethod {
    /// The value that `code` stands for, if any.
    pub open spec fn spec_from_code(code: u8) -> Option<CvMethod> {
        if code == 0x00u8 {
            Some(CvMethod::FailCvmProcessing)
        } else if code == 0x01u8 {
            Some(CvMethod::PlaintextPin)
        } else if code == 0x02u8 {
            Some(CvMethod::EncipheredPinOnline)
        } else if code == 0x03u8 {
            Some(CvMethod::PlaintextPinWithSignature)
        } else if code == 0x04u8 {
            Some(CvMethod::EncipheredPin)
        } else if code == 0x05u8 {
            Some(CvMethod::EncipheredPinWithSignature)
        } else if code == 0x1Eu8 {
            Some(CvMethod::Signature)
        } else if code == 0x1Fu8 {
            Some(CvMethod::NoCvmRequired)
        } else if code == 0x3Fu8 {
            Some(CvMethod::NoCvmPerformed)
        } else {
            None
        }
    }

    /// The code of the value.
    pub open spec fn spec_code(self) -> u8 {
        match self {
            CvMethod::FailCvmProcessing => 0x00u8,
            CvMethod::PlaintextPin => 0x01u8,
            CvMethod::EncipheredPinOnline => 0x02u8,
            CvMethod::PlaintextPinWithSignature => 0x03u8,
            CvMethod::EncipheredPin => 0x04u8,
            CvMethod::EncipheredPinWithSignature => 0x05u8,
            CvMethod::Signature => 0x1Eu8,
            CvMethod::NoCvmRequired => 0x1Fu8,
            CvMethod::NoCvmPerformed => 0x3Fu8,
        }
    }

    /// What the value means, in words.
    pub open spec fn spec_description(self) -> Seq<char> {
        match self {
            CvMethod::FailCvmProcessing => "Fail CVM processing"@,
            CvMethod::PlaintextPin => "Plaintext PIN verification performed by ICC"@,
            CvMethod::EncipheredPinOnline => "Enciphered PIN verified online"@,
            CvMethod::PlaintextPinWithSignature => "Plaintext PIN verification performed by ICC and signature (paper)"@,
            CvMethod::EncipheredPin => "Enciphered PIN verification performed by ICC"@,
            CvMethod::EncipheredPinWithSignature => "Enciphered PIN verification performed by ICC and signature (paper)"@,
            CvMethod::Signature => "Signature (paper)"@,
            CvMethod::NoCvmRequired => "No CVM required"@,
            CvMethod::NoCvmPerformed => "No CVM performed"@,
        }
    }

    /// Conversion from a code: the value it stands for, or an error.
    pub open spec fn spec_try_from(code: u8) -> Result<CvMethod, ParseError> {
        match CvMethod::spec_from_code(code) {
            Some(value) => Ok(value),
            None => Err(ParseError::NonCompliant),
        }
    }

    /// The code of the value.
    pub fn code(&self) -> (code: u8)
        ensures
            code == self.spec_code(),
    {
        match self {
            CvMethod::FailCvmProcessing => 0x00u8,
            CvMethod::PlaintextPin => 0x01u8,
            CvMethod::EncipheredPinOnline => 0x02u8,
            CvMethod::PlaintextPinWithSignature => 0x03u8,
            CvMethod::EncipheredPin => 0x04u8,
            CvMethod::EncipheredPinWithSignature => 0x05u8,
            CvMethod::Signature => 0x1Eu8,
            CvMethod::NoCvmRequired => 0x1Fu8,
            CvMethod::NoCvmPerformed => 0x3Fu8,
        }
    }

    /// What the value means, in words.
    pub fn description(&self) -> (text: &'static str)
        ensures
            text@ == self.spec_description(),
    {
        match self {
            CvMethod::FailCvmProcessing => "Fail CVM processing",
            CvMethod::PlaintextPin => "Plaintext PIN verification performed by ICC",
            CvMethod::EncipheredPinOnline => "Enciphered PIN verified online",
            CvMethod::PlaintextPinWithSignature => "Plaintext PIN verification performed by ICC and signature (paper)",
            CvMethod::EncipheredPin => "Enciphered PIN verification performed by ICC",
            CvMethod::EncipheredPinWithSignature => "Enciphered PIN verification performed by ICC and signature (paper)",
            CvMethod::Signature => "Signature (paper)",
            CvMethod::NoCvmRequired => "No CVM required",
            CvMethod::NoCvmPerformed => "No CVM performed",
        }
    }
}

impl TryFrom<u8> for CvMethod {
    type Error = ParseError;

    fn try_from(code: u8) -> (result: Result<CvMethod, ParseError>)
        ensures
            result == CvMethod::spec_try_from(code),
    {
        match code {
            0x00u8 => Ok(CvMethod::FailCvmProcessing),
            0x01u8 => Ok(CvMethod::PlaintextPin),
            0x02u8 => Ok(CvMethod::EncipheredPinOnline),
            0x03u8 => Ok(CvMethod::PlaintextPinWithSignature),
            0x04u8 => Ok(CvMethod::EncipheredPin),
            0x05u8 => Ok(CvMethod::EncipheredPinWithSignature),
            0x1Eu8 => Ok(CvMethod::Signature),
            0x1Fu8 => Ok(CvMethod::NoCvmRequired),
            0x3Fu8 => Ok(CvMethod::NoCvmPerformed),
            _ => Err(ParseError::NonCompliant),
        }
    }
}

impl TryFromSpecImpl<u8> for CvMethod {
    open spec fn obeys_try_from_spec() -> bool {
        true
    }

    open spec fn try_from_spec(code: u8) -> Result<CvMethod, ParseError> {
        CvMethod::spec_try_from(code)
    }
}

/// A code stands for a value exactly when it is that value's code.
pub proof fn lemma_cv_method_codes(code: u8, value: CvMethod)
    ensures
        (CvMethod::spec_from_code(code) == Some(value)) <==> (code == value.spec_code()),
{
}

/// A Cardholder Verification Method that may not be known.
#[derive(Clone, Copy, Debug, PartialEq, Eq, Structural, Hash)]
pub struct OptionalCvMethod {
    pub internal: Option<CvMethod>,
}

impl OptionalCvMethod {
    /// What the value means, in words.
    pub open spec fn spec_description(self) -> Seq<char> {
        match self.internal {
            Some(value) => value.spec_description(),
            None => "Unknown (likely issuer or payment system-specific)"@,
        }
    }

    /// What the value means, in words.
    pub fn description(&self) -> (text: &'static str)
        ensures
            text@ == self.spec_description(),
    {
        match &self.internal {
            Some(value) => value.description(),
            None => "Unknown (likely issuer or payment system-specific)",
        }
    }
}

impl From<Option<CvMethod>> for OptionalCvMethod {
    fn from(value: Option<CvMethod>) -> (result: OptionalCvMethod)
        ensures
            result.internal == value,
    {
        OptionalCvMethod { internal: value }
    }
}

impl FromSpecImpl<Option<CvMethod>> for OptionalCvMethod {
    open spec fn obeys_from_spec() -> bool {
        true
    }

    open spec fn from_spec(value: Option<CvMethod>) -> OptionalCvMethod {
        OptionalCvMethod { internal: value }
    }
}

impl From<OptionalCvMethod> for Option<CvMethod> {
    fn from(value: OptionalCvMethod) -> (result: Option<CvMethod>)
        ensures
            result == value.internal,
    {
        value.internal
    }
}

impl FromSpecImpl<OptionalCvMethod> for Option<CvMethod> {
    open spec fn obeys_from_spec() -> bool {
        true
    }

    open spec fn from_spec(value: OptionalCvMethod) -> Option<CvMethod> {
        value.internal
    }
}

/// The code table of EMV Book 3 `C3`: each code gives the value named beside it,
/// which reads as the text beside it, and every other code is refused.
#[verifier::rlimit(40)]
pub proof fn lemma_cv_method_code_table(code: u8)
    ensures
        code == 0x00u8 ==> CvMethod::spec_try_from(code) == Ok::<CvMethod, ParseError>(CvMethod::FailCvmProcessing),
        code == 0x01u8 ==> CvMethod::spec_try_from(code) == Ok::<CvMethod, ParseError>(CvMethod::PlaintextPin),
        code == 0x02u8 ==> CvMethod::spec_try_from(code) == Ok::<CvMethod, ParseError>(CvMethod::EncipheredPinOnline),
        code == 0x03u8 ==> CvMethod::spec_try_from(code) == Ok::<CvMethod, ParseError>(CvMethod::PlaintextPinWithSignature),
        code == 0x04u8 ==> CvMethod::spec_try_from(code) == Ok::<CvMethod, ParseError>(CvMethod::EncipheredPin),
        code == 0x05u8 ==> CvMethod::spec_try_from(code) == Ok::<CvMethod, ParseError>(CvMethod::EncipheredPinWithSignature),
        code == 0x1Eu8 ==> CvMethod::spec_try_from(code) == Ok::<CvMethod, ParseError>(CvMethod::Signature),
        code == 0x1Fu8 ==> CvMethod::spec_try_from(code) == Ok::<CvMethod, ParseError>(CvMethod::NoCvmRequired),
        code == 0x3Fu8 ==> CvMethod::spec_try_from(code) == Ok::<CvMethod, ParseError>(CvMethod::NoCvmPerformed),
        !(code == 0x00u8 || code == 0x01u8 || code == 0x02u8 || code == 0x03u8 || code == 0x04u8 || code == 0x05u8 || code == 0x1Eu8 || code == 0x1Fu8 || code == 0x3Fu8) ==> CvMethod::spec_try_from(code) is Err,
        CvMethod::FailCvmProcessing.spec_description() == "Fail CVM processing"@,
        CvMethod::PlaintextPin.spec_description() == "Plaintext PIN verification performed by ICC"@,
        CvMethod::EncipheredPinOnline.spec_description() == "Enciphered PIN verified online"@,
        CvMethod::PlaintextPinWithSignature.spec_description() == "Plaintext PIN verification performed by ICC and signature (paper)"@,
        CvMethod::EncipheredPin.spec_description() == "Enciphered PIN verification performed by ICC"@,
        CvMethod::EncipheredPinWithSignature.spec_description() == "Enciphered PIN verification performed by ICC and signature (paper)"@,
        CvMethod::Signature.spec_description() == "Signature (paper)"@,
        CvMethod::NoCvmRequired.spec_description() == "No CVM required"@,
        CvMethod::NoCvmPerformed.spec_description() == "No CVM performed"@,
{
}

} // verus!
