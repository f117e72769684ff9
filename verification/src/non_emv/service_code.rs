//! Everything for handling MSR service codes.
//!
//! Information for this can be found in ISO/IEC 7813.
use vstd::prelude::*;

use crate::error::{Comparison, ParseError};
use vstd::std_specs::convert::{FromSpecImpl, TryFromSpecImpl};

verus! {

/// A magnetic stripe service code: three decimal digits, each with a meaning.
#[derive(Clone, Copy, Debug, PartialEq, Eq, Structural, Hash)]
pub struct ServiceCode {
    pub number: u16,
    pub interchange: Interchange,
    pub technology: Technology,
    pub authorisation_processing: AuthorisationProcessing,
    pub allowed_services: AllowedServices,
    pub pin_requirements: PinRequirements,
}

/// Where the card can be used: the first digit of the service code.
#[derive(Clone, Copy, Debug, PartialEq, Eq, Structural, Hash)]
pub enum Interchange {
    /// International
    International,
    /// National
    National,
    /// Private
    Private,
    /// Test
    Test,
    /// RFU
    Rfu,
}

impl Interchange {
    /// The value that `code` stands for.
    pub open spec fn spec_from_code(code: u8) -> Interchange {
        if code == 0x01u8 || code == 0x02u8 {
            Interchange::International
        } else if code == 0x05u8 || code == 0x06u8 {
            Interchange::National
        } else if code == 0x07u8 {
            Interchange::Private
        } else if code == 0x09u8 {
            Interchange::Test
        } else {
            Interchange::Rfu
        }
    }

    /// What the value means, in words.
    pub open spec fn spec_description(self) -> Seq<char> {
        match self {
            Interchange::International => "International"@,
            Interchange::National => "National"@,
            Interchange::Private => "Private"@,
            Interchange::Test => "Test"@,
            Interchange::Rfu => "RFU"@,
        }
    }

    /// What the value means, in words.
    pub fn description(&self) -> (text: &'static str)
        ensures
            text@ == self.spec_description(),
    {
        match self {
            Interchange::International => "International",
            Interchange::National => "National",
            Interchange::Private => "Private",
            Interchange::Test => "Test",
            Interchange::Rfu => "RFU",
        }
    }
}

impl From<u8> for Interchange {
    fn from(code: u8) -> (value: Interchange)
        ensures
            value == Interchange::spec_from_code(code),
    {
        match code {
            0x01u8 | 0x02u8 => Interchange::International,
            0x05u8 | 0x06u8 => Interchange::National,
            0x07u8 => Interchange::Private,
            0x09u8 => Interchange::Test,
            _ => Interchange::Rfu,
        }
    }
}

impl FromSpecImpl<u8> for Interchange {
    open spec fn obeys_from_spec() -> bool {
        true
    }

    open spec fn from_spec(code: u8) -> Interchange {
        Interchange::spec_from_code(code)
    }
}

/// Whether the card has a chip: the first digit of the service code.
#[derive(Clone, Copy, Debug, PartialEq, Eq, Structural, Hash)]
pub enum Technology {
    /// Integrated circuit card (ICC)
    IntegratedCircuitCard,
    /// Magnetic stripe only (MSR)
    MagneticStripeOnly,
}

impl Technology {
    /// The value that `code` stands for.
    pub open spec fn spec_from_code(code: u8) -> Technology {
        if code == 0x02u8 || code == 0x06u8 {
            Technology::IntegratedCircuitCard
        } else {
            Technology::MagneticStripeOnly
        }
    }

    /// What the value means, in words.
    pub open spec fn spec_description(self) -> Seq<char> {
        match self {
            Technology::IntegratedCircuitCard => "Integrated circuit card (ICC)"@,
            Technology::MagneticStripeOnly => "Magnetic stripe only (MSR)"@,
        }
    }

    /// What the value means, in words.
    pub fn description(&self) -> (text: &'static str)
        ensures
            text@ == self.spec_description(),
    {
        match self {
            Technology::IntegratedCircuitCard => "Integrated circuit card (ICC)",
            Technology::MagneticStripeOnly => "Magnetic stripe only (MSR)",
        }
    }
}

impl From<u8> for Technology {
    fn from(code: u8) -> (value: Technology)
        ensures
            value == Technology::spec_from_code(code),
    {
        match code {
            0x02u8 | 0x06u8 => Technology::IntegratedCircuitCard,
            _ => Technology::MagneticStripeOnly,
        }
    }
}

impl FromSpecImpl<u8> for Technology {
    open spec fn obeys_from_spec() -> bool {
        true
    }

    open spec fn from_spec(code: u8) -> Technology {
        Technology::spec_from_code(code)
    }
}

/// How transactions are authorised: the second digit of the service code.
#[derive(Clone, Copy, Debug, PartialEq, Eq, Structural, Hash)]
pub enum AuthorisationProcessing {
    /// Normal
    Normal,
    /// By issuer only (no offline authorisation)
    ByIssuer,
    /// By issuer only unless an explicit bilateral agreement applies (no offline authorisation)
    ByIssuerUnlessExplicitAgreement,
    /// RFU
    Rfu,
}

impl AuthorisationProcessing {
    /// The value that `code` stands for.
    pub open spec fn spec_from_code(code: u8) -> AuthorisationProcessing {
        if code == 0x00u8 {
            AuthorisationProcessing::Normal
        } else if code == 0x02u8 {
            AuthorisationProcessing::ByIssuer
        } else if code == 0x04u8 {
            AuthorisationProcessing::ByIssuerUnlessExplicitAgreement
        } else {
            AuthorisationProcessing::Rfu
        }
    }

    /// What the value means, in words.
    pub open spec fn spec_description(self) -> Seq<char> {
        match self {
            AuthorisationProcessing::Normal => "Normal"@,
            AuthorisationProcessing::ByIssuer => "By issuer only (no offline authorisation)"@,
            AuthorisationProcessing::ByIssuerUnlessExplicitAgreement => "By issuer only unless an explicit bilateral agreement applies (no offline authorisation)"@,
            AuthorisationProcessing::Rfu => "RFU"@,
        }
    }

    /// What the value means, in words.
    pub fn description(&self) -> (text: &'static str)
        ensures
            text@ == self.spec_description(),
    {
        match self {
            AuthorisationProcessing::Normal => "Normal",
            AuthorisationProcessing::ByIssuer => "By issuer only (no offline authorisation)",
            AuthorisationProcessing::ByIssuerUnlessExplicitAgreement => "By issuer only unless an explicit bilateral agreement applies (no offline authorisation)",
            AuthorisationProcessing::Rfu => "RFU",
        }
    }
}

impl From<u8> for AuthorisationProcessing {
    fn from(code: u8) -> (value: AuthorisationProcessing)
        ensures
            value == AuthorisationProcessing::spec_from_code(code),
    {
        match code {
            0x00u8 => AuthorisationProcessing::Normal,
            0x02u8 => AuthorisationProcessing::ByIssuer,
            0x04u8 => AuthorisationProcessing::ByIssuerUnlessExplicitAgreement,
            _ => AuthorisationProcessing::Rfu,
        }
    }
}

impl FromSpecImpl<u8> for AuthorisationProcessing {
    open spec fn obeys_from_spec() -> bool {
        true
    }

    open spec fn from_spec(code: u8) -> AuthorisationProcessing {
        AuthorisationProcessing::spec_from_code(code)
    }
}

/// The services allowed: the third digit of the service code.
#[derive(Clone, Copy, Debug, PartialEq, Eq, Structural, Hash)]
pub enum AllowedServices {
    /// No restrictions
    NoRestrictions,
    /// Goods and services only
    GoodsAndServicesOnly,
    /// ATM only
    AtmOnly,
    /// Cash only
    CashOnly,
    /// RFU
    Rfu,
}

impl AllowedServices {
    /// The value that `code` stands for.
    pub open spec fn spec_from_code(code: u8) -> AllowedServices {
        if code == 0x00u8 || code == 0x01u8 || code == 0x06u8 {
            AllowedServices::NoRestrictions
        } else if code == 0x02u8 || code == 0x05u8 || code == 0x07u8 {
            AllowedServices::GoodsAndServicesOnly
        } else if code == 0x03u8 {
            AllowedServices::AtmOnly
        } else if code == 0x04u8 {
            AllowedServices::CashOnly
        } else {
            AllowedServices::Rfu
        }
    }

    /// What the value means, in words.
    pub open spec fn spec_description(self) -> Seq<char> {
        match self {
            AllowedServices::NoRestrictions => "No restrictions"@,
            AllowedServices::GoodsAndServicesOnly => "Goods and services only"@,
            AllowedServices::AtmOnly => "ATM only"@,
            AllowedServices::CashOnly => "Cash only"@,
            AllowedServices::Rfu => "RFU"@,
        }
    }

    /// What the value means, in words.
    pub fn description(&self) -> (text: &'static str)
        ensures
            text@ == self.spec_description(),
    {
        match self {
            AllowedServices::NoRestrictions => "No restrictions",
            AllowedServices::GoodsAndServicesOnly => "Goods and services only",
            AllowedServices::AtmOnly => "ATM only",
            AllowedServices::CashOnly => "Cash only",
            AllowedServices::Rfu => "RFU",
        }
    }
}

impl From<u8> for AllowedServices {
    fn from(code: u8) -> (value: AllowedServices)
        ensures
            value == AllowedServices::spec_from_code(code),
    {
        match code {
            0x00u8 | 0x01u8 | 0x06u8 => AllowedServices::NoRestrictions,
            0x02u8 | 0x05u8 | 0x07u8 => AllowedServices::GoodsAndServicesOnly,
            0x03u8 => AllowedServices::AtmOnly,
            0x04u8 => AllowedServices::CashOnly,
            _ => AllowedServices::Rfu,
        }
    }
}

impl FromSpecImpl<u8> for AllowedServices {
    open spec fn obeys_from_spec() -> bool {
        true
    }

    open spec fn from_spec(code: u8) -> AllowedServices {
        AllowedServices::spec_from_code(code)
    }
}

/// When a PIN is needed: the third digit of the service code.
#[derive(Clone, Copy, Debug, PartialEq, Eq, Structural, Hash)]
pub enum PinRequirements {
    /// PIN required
    PinRequired,
    /// Prompt for PIN if PIN pad is present
    PromptIfPinpadPresent,
    /// None
    NotRequired,
}

impl PinRequirements {
    /// The value that `code` stands for.
    pub open spec fn spec_from_code(code: u8) -> PinRequirements {
        if code == 0x00u8 || code == 0x03u8 || code == 0x05u8 {
            PinRequirements::PinRequired
        } else if code == 0x06u8 || code == 0x07u8 {
            PinRequirements::PromptIfPinpadPresent
        } else {
            PinRequirements::NotRequired
        }
    }

    /// What the value means, in words.
    pub open spec fn spec_description(self) -> Seq<char> {
        match self {
            PinRequirements::PinRequired => "PIN required"@,
            PinRequirements::PromptIfPinpadPresent => "Prompt for PIN if PIN pad is present"@,
            PinRequirements::NotRequired => "None"@,
        }
    }

    /// What the value means, in words.
    pub fn description(&self) -> (text: &'static str)
        ensures
            text@ == self.spec_description(),
    {
        match self {
            PinRequirements::PinRequired => "PIN required",
            PinRequirements::PromptIfPinpadPresent => "Prompt for PIN if PIN pad is present",
            PinRequirements::NotRequired => "None",
        }
    }
}

impl From<u8> for PinRequirements {
    fn from(code: u8) -> (value: PinRequirements)
        ensures
            value == PinRequirements::spec_from_code(code),
    {
        match code {
            0x00u8 | 0x03u8 | 0x05u8 => PinRequirements::PinRequired,
            0x06u8 | 0x07u8 => PinRequirements::PromptIfPinpadPresent,
            _ => PinRequirements::NotRequired,
        }
    }
}

impl FromSpecImpl<u8> for PinRequirements {
    open spec fn obeys_from_spec() -> bool {
        true
    }

    open spec fn from_spec(code: u8) -> PinRequirements {
        PinRequirements::spec_from_code(code)
    }
}

impl ServiceCode {
    /// The service code of a number: at most `999`.
    pub open spec fn spec_try_from_number(number: u16) -> Result<ServiceCode, ParseError> {
        if number > 999 {
            Err(ParseError::InvalidNumber)
        } else {
            let first = (number / 100) as u8;
            let second = ((number % 100) / 10) as u8;
            let third = (number % 10) as u8;
            Ok(
                ServiceCode {
                    number,
                    interchange: Interchange::spec_from_code(first),
                    technology: Technology::spec_from_code(first),
                    authorisation_processing: AuthorisationProcessing::spec_from_code(second),
                    allowed_services: AllowedServices::spec_from_code(third),
                    pin_requirements: PinRequirements::spec_from_code(third),
                },
            )
        }
    }

    /// The four decimal digits written by two bytes, one per four bits, if
    /// each of them is a digit.
    pub open spec fn spec_digits_value(bytes: Seq<u8>) -> Option<u16> {
        let d0 = (bytes[0] & 0xF0u8) >> 4u8;
        let d1 = bytes[0] & 0x0Fu8;
        let d2 = (bytes[1] & 0xF0u8) >> 4u8;
        let d3 = bytes[1] & 0x0Fu8;
        if d0 <= 9 && d1 <= 9 && d2 <= 9 && d3 <= 9 {
            Some((d0 * 1000 + d1 * 100 + d2 * 10 + d3) as u16)
        } else {
            None
        }
    }

    /// Parsing raw bytes: exactly `2` bytes, read as four decimal digits, one
    /// per four bits; the number they write must be a service code.
    pub open spec fn spec_try_from_bytes(bytes: Seq<u8>) -> Result<ServiceCode, ParseError> {
        if bytes.len() != 2 {
            Err(ParseError::ByteCountIncorrect { comparison: Comparison::Equal, expected: 2, found: bytes.len() as usize })
        } else {
            match ServiceCode::spec_digits_value(bytes) {
                None => Err(ParseError::InvalidNumber),
                Some(number) => ServiceCode::spec_try_from_number(number),
            }
        }
    }
}

impl TryFrom<u16> for ServiceCode {
    type Error = ParseError;

    fn try_from(number: u16) -> (result: Result<ServiceCode, ParseError>)
        ensures
            result == ServiceCode::spec_try_from_number(number),
    {
        if number > 999 {
            return Err(ParseError::InvalidNumber);
        }
        let first = (number / 100) as u8;
        let second = ((number % 100) / 10) as u8;
        let third = (number % 10) as u8;
        Ok(
            ServiceCode {
                number,
                interchange: Interchange::from(first),
                technology: Technology::from(first),
                authorisation_processing: AuthorisationProcessing::from(second),
                allowed_services: AllowedServices::from(third),
                pin_requirements: PinRequirements::from(third),
            },
        )
    }
}

impl TryFromSpecImpl<u16> for ServiceCode {
    open spec fn obeys_try_from_spec() -> bool {
        true
    }

    open spec fn try_from_spec(number: u16) -> Result<ServiceCode, ParseError> {
        ServiceCode::spec_try_from_number(number)
    }
}

impl<'a> TryFrom<&'a [u8]> for ServiceCode {
    type Error = ParseError;

    fn try_from(raw_bytes: &'a [u8]) -> (result: Result<ServiceCode, ParseError>)
        ensures
            result == ServiceCode::spec_try_from_bytes(raw_bytes@),
    {
        if raw_bytes.len() != 2 {
            return Err(ParseError::ByteCountIncorrect { comparison: Comparison::Equal, expected: 2, found: raw_bytes.len() });
        }
        let d0 = (raw_bytes[0] & 0xF0u8) >> 4u8;
        let d1 = raw_bytes[0] & 0x0Fu8;
        let d2 = (raw_bytes[1] & 0xF0u8) >> 4u8;
        let d3 = raw_bytes[1] & 0x0Fu8;
        if d0 > 9 || d1 > 9 || d2 > 9 || d3 > 9 {
            return Err(ParseError::InvalidNumber);
        }
        let number: u16 = d0 as u16 * 1000 + d1 as u16 * 100 + d2 as u16 * 10 + d3 as u16;
        ServiceCode::try_from(number)
    }
}

impl<'a> TryFromSpecImpl<&'a [u8]> for ServiceCode {
    open spec fn obeys_try_from_spec() -> bool {
        true
    }

    open spec fn try_from_spec(raw_bytes: &'a [u8]) -> Result<ServiceCode, ParseError> {
        ServiceCode::spec_try_from_bytes(raw_bytes@)
    }
}

/// Every number up to `999` is a service code, and no larger one is.
pub proof fn lemma_service_code_numbers(number: u16)
    ensures
        ServiceCode::spec_try_from_number(number) is Ok <==> number <= 999,
{
}

/// The code table of ISO/IEC 7813: each digit gives the value named beside it,
/// which reads as the text beside it; every other digit gives the last value.
#[verifier::rlimit(40)]
pub proof fn lemma_interchange_code_table(code: u8)
    ensures
        code == 1u8 ==> Interchange::spec_from_code(code) == Interchange::International,
        code == 2u8 ==> Interchange::spec_from_code(code) == Interchange::International,
        code == 5u8 ==> Interchange::spec_from_code(code) == Interchange::National,
        code == 6u8 ==> Interchange::spec_from_code(code) == Interchange::National,
        code == 7u8 ==> Interchange::spec_from_code(code) == Interchange::Private,
        code == 9u8 ==> Interchange::spec_from_code(code) == Interchange::Test,
        !(code == 1u8 || code == 2u8 || code == 5u8 || code == 6u8 || code == 7u8 || code == 9u8) ==> Interchange::spec_from_code(code) == Interchange::Rfu,
        Interchange::International.spec_description() == "International"@,
        Interchange::National.spec_description() == "National"@,
        Interchange::Private.spec_description() == "Private"@,
        Interchange::Test.spec_description() == "Test"@,
        Interchange::Rfu.spec_description() == "RFU"@,
{
}

/// The code table of ISO/IEC 7813: each digit gives the value named beside it,
/// which reads as the text beside it; every other digit gives the last value.
#[verifier::rlimit(40)]
pub proof fn lemma_technology_code_table(code: u8)
    ensures
        code == 2u8 ==> Technology::spec_from_code(code) == Technology::IntegratedCircuitCard,
        code == 6u8 ==> Technology::spec_from_code(code) == Technology::IntegratedCircuitCard,
        !(code == 2u8 || code == 6u8) ==> Technology::spec_from_code(code) == Technology::MagneticStripeOnly,
        Technology::IntegratedCircuitCard.spec_description() == "Integrated circuit card (ICC)"@,
        Technology::MagneticStripeOnly.spec_description() == "Magnetic stripe only (MSR)"@,
{
}

/// The code table of ISO/IEC 7813: each digit gives the value named beside it,
/// which reads as the text beside it; every other digit gives the last value.
#[verifier::rlimit(40)]
pub proof fn lemma_authorisation_processing_code_table(code: u8)
    ensures
        code == 0u8 ==> AuthorisationProcessing::spec_from_code(code) == AuthorisationProcessing::Normal,
        code == 2u8 ==> AuthorisationProcessing::spec_from_code(code) == AuthorisationProcessing::ByIssuer,
        code == 4u8 ==> AuthorisationProcessing::spec_from_code(code) == AuthorisationProcessing::ByIssuerUnlessExplicitAgreement,
        !(code == 0u8 || code == 2u8 || code == 4u8) ==> AuthorisationProcessing::spec_from_code(code) == AuthorisationProcessing::Rfu,
        AuthorisationProcessing::Normal.spec_description() == "Normal"@,
        AuthorisationProcessing::ByIssuer.spec_description() == "By issuer only (no offline authorisation)"@,
        AuthorisationProcessing::ByIssuerUnlessExplicitAgreement.spec_description() == "By issuer only unless an explicit bilateral agreement applies (no offline authorisation)"@,
        AuthorisationProcessing::Rfu.spec_description() == "RFU"@,
{
}

/// The code table of ISO/IEC 7813: each digit gives the value named beside it,
/// which reads as the text beside it; every other digit gives the last value.
#[verifier::rlimit(40)]
pub proof fn lemma_allowed_services_code_table(code: u8)
    ensures
        code == 0u8 ==> AllowedServices::spec_from_code(code) == AllowedServices::NoRestrictions,
        code == 1u8 ==> AllowedServices::spec_from_code(code) == AllowedServices::NoRestrictions,
        code == 6u8 ==> AllowedServices::spec_from_code(code) == AllowedServices::NoRestrictions,
        code == 2u8 ==> AllowedServices::spec_from_code(code) == AllowedServices::GoodsAndServicesOnly,
        code == 5u8 ==> AllowedServices::spec_from_code(code) == AllowedServices::GoodsAndServicesOnly,
        code == 7u8 ==> AllowedServices::spec_from_code(code) == AllowedServices::GoodsAndServicesOnly,
        code == 3u8 ==> AllowedServices::spec_from_code(code) == AllowedServices::AtmOnly,
        code == 4u8 ==> AllowedServices::spec_from_code(code) == AllowedServices::CashOnly,
        !(code == 0u8 || code == 1u8 || code == 6u8 || code == 2u8 || code == 5u8 || code == 7u8 || code == 3u8 || code == 4u8) ==> AllowedServices::spec_from_code(code) == AllowedServices::Rfu,
        AllowedServices::NoRestrictions.spec_description() == "No restrictions"@,
        AllowedServices::GoodsAndServicesOnly.spec_description() == "Goods and services only"@,
        AllowedServices::AtmOnly.spec_description() == "ATM only"@,
        AllowedServices::CashOnly.spec_description() == "Cash only"@,
        AllowedServices::Rfu.spec_description() == "RFU"@,
{
}

/// The code table of ISO/IEC 7813: each digit gives the value named beside it,
/// which reads as the text beside it; every other digit gives the last value.
#[verifier::rlimit(40)]
pub proof fn lemma_pin_requirements_code_table(code: u8)
    ensures
        code == 0u8 ==> PinRequirements::spec_from_code(code) == PinRequirements::PinRequired,
        code == 3u8 ==> PinRequirements::spec_from_code(code) == PinRequirements::PinRequired,
        code == 5u8 ==> PinRequirements::spec_from_code(code) == PinRequirements::PinRequired,
        code == 6u8 ==> PinRequirements::spec_from_code(code) == PinRequirements::PromptIfPinpadPresent,
        code == 7u8 ==> PinRequirements::spec_from_code(code) == PinRequirements::PromptIfPinpadPresent,
        !(code == 0u8 || code == 3u8 || code == 5u8 || code == 6u8 || code == 7u8) ==> PinRequirements::spec_from_code(code) == PinRequirements::NotRequired,
        PinRequirements::PinRequired.spec_description() == "PIN required"@,
        PinRequirements::PromptIfPinpadPresent.spec_description() == "Prompt for PIN if PIN pad is present"@,
        PinRequirements::NotRequired.spec_description() == "None"@,
{
}

/// The digits of a service code, most significant first: the first gives the
/// interchange and the technology, the second the authorisation processing,
/// and the third the allowed services and the PIN requirements.
pub proof fn lemma_service_code_digits(first: u8, second: u8, third: u8)
    requires
        first <= 9,
        second <= 9,
        third <= 9,
    ensures
        ServiceCode::spec_try_from_number((first * 100 + second * 10 + third) as u16) == Ok::<ServiceCode, ParseError>(
            ServiceCode {
                number: (first * 100 + second * 10 + third) as u16,
                interchange: Interchange::spec_from_code(first),
                technology: Technology::spec_from_code(first),
                authorisation_processing: AuthorisationProcessing::spec_from_code(second),
                allowed_services: AllowedServices::spec_from_code(third),
                pin_requirements: PinRequirements::spec_from_code(third),
            },
        ),
{
    let number = (first * 100 + second * 10 + third) as u16;
    assert(number / 100 == first);
    assert((number % 100) / 10 == second);
    assert(number % 10 == third);
}

proof fn lemma_bcd_byte(hi: u8, lo: u8)
    requires
        hi <= 9,
        lo <= 9,
    ensures
        ((hi * 16 + lo) as u8 & 0xF0u8) >> 4u8 == hi,
        (hi * 16 + lo) as u8 & 0x0Fu8 == lo,
{
    let b = (hi * 16 + lo) as u8;
    assert(b == hi * 16 + lo);
    assert((b & 0xF0u8) >> 4u8 == b / 16 && b & 0x0Fu8 == b % 16) by (bit_vector);
}

/// Raw bytes hold four decimal digits, one per four bits, most significant
/// first: the bytes read as the service code that the digits write.
pub proof fn lemma_service_code_bcd(d0: u8, d1: u8, d2: u8, d3: u8)
    requires
        d0 <= 9,
        d1 <= 9,
        d2 <= 9,
        d3 <= 9,
    ensures
        ServiceCode::spec_try_from_bytes(seq![(d0 * 16 + d1) as u8, (d2 * 16 + d3) as u8])
            == ServiceCode::spec_try_from_number((d0 * 1000 + d1 * 100 + d2 * 10 + d3) as u16),
{
    lemma_bcd_byte(d0, d1);
    lemma_bcd_byte(d2, d3);
}

} // verus!
