//! The POS entry mode, typically from EMV tag `0x9F39`.
//!
//! The possible values come from the first two digits of the POS Entry Mode in
//! the ISO 8583:1987 specification.
//!
//! This could be incomplete - it's difficult to find a complete list of values
//! online.
use vstd::prelude::*;

use crate::error::{Comparison, ParseError};
use vstd::std_specs::convert::TryFromSpecImpl;

verus! {

/// How the card data was entered at the point of sale.
#[derive(Clone, Copy, Debug, PartialEq, Eq, Structural, Hash)]
pub enum PosEntryMode {
    /// Unknown
    Unknown,
    /// Manual (keyed entry)
    Manual,
    /// Magnetic Stripe Reader (MSR)
    MagneticStripe,
    /// Barcode
    Barcode,
    /// Optical Character Recognition (OCR)
    Ocr,
    /// Integrated Circuit Chip (ICC) - Data Reliable (contact/insert transaction) (CVV can be checked)
    ContactIcc,
    /// Magnetic Stripe Track 1
    Track1,
    /// Contactless Chip (contactless/tap transaction)
    ContactlessIcc,
    /// Contactless Chip (contactless/tap transaction) - Contactless Mapping Service Applied
    ContactlessIccMappingApplied,
    /// E-Commerce - Including Remote Chip
    EcommerceIncludingRemoteChip,
    /// Merchant Has Cardholder Credentials On File (token, recurring payment, etc.)
    CredentialsOnFile,
    /// ICC Could Not Process - Fallback to MSR
    Fallback,
    /// E-Commerce - Including Chip
    EcommerceIncludingChip,
    /// Via a Server (issuer, acquirer, third-party vendor)
    ViaServer,
    /// Magnetic Stripe Reader (MSR) - Full Track Data - Data Reliable (CVV can be checked)
    MagneticStripeFull,
    /// Contactless Magnetic Stripe Data (MSD)
    ContactlessMagneticStripe,
    /// Integrated Circuit Chip (ICC) - Data Unreliable (contact/insert transaction) (CVV cannot be checked)
    ContactIccUnreliable,
}

impl PosEntryMode {
    /// The value that `code` stands for, if any.
    pub open spec fn spec_from_code(code: u8) -> Option<PosEntryMode> {
        if code == 0x00u8 {
            Some(PosEntryMode::Unknown)
        } else if code == 0x01u8 {
            Some(PosEntryMode::Manual)
        } else if code == 0x02u8 {
            Some(PosEntryMode::MagneticStripe)
        } else if code == 0x03u8 {
            Some(PosEntryMode::Barcode)
        } else if code == 0x04u8 {
            Some(PosEntryMode::Ocr)
        } else if code == 0x05u8 {
            Some(PosEntryMode::ContactIcc)
        } else if code == 0x06u8 {
            Some(PosEntryMode::Track1)
        } else if code == 0x07u8 || code == 0x83u8 {
            Some(PosEntryMode::ContactlessIcc)
        } else if code == 0x08u8 || code == 0x92u8 {
            Some(PosEntryMode::ContactlessIccMappingApplied)
        } else if code == 0x09u8 {
            Some(PosEntryMode::EcommerceIncludingRemoteChip)
        } else if code == 0x10u8 {
            Some(PosEntryMode::CredentialsOnFile)
        } else if code == 0x80u8 {
            Some(PosEntryMode::Fallback)
        } else if code == 0x81u8 {
            Some(PosEntryMode::EcommerceIncludingChip)
        } else if code == 0x82u8 {
            Some(PosEntryMode::ViaServer)
        } else if code == 0x90u8 {
            Some(PosEntryMode::MagneticStripeFull)
        } else if code == 0x91u8 {
            Some(PosEntryMode::ContactlessMagneticStripe)
        } else if code == 0x95u8 {
            Some(PosEntryMode::ContactIccUnreliable)
        } else {
            None
        }
    }

    /// What the value means, in words.
    pub open spec fn spec_description(self) -> Seq<char> {
        match self {
            PosEntryMode::Unknown => "Unknown"@,
            PosEntryMode::Manual => "Manual (keyed entry)"@,
            PosEntryMode::MagneticStripe => "Magnetic Stripe Reader (MSR)"@,
            PosEntryMode::Barcode => "Barcode"@,
            PosEntryMode::Ocr => "Optical Character Recognition (OCR)"@,
            PosEntryMode::ContactIcc => "Integrated Circuit Chip (ICC) - Data Reliable (contact/insert transaction) (CVV can be checked)"@,
            PosEntryMode::Track1 => "Magnetic Stripe Track 1"@,
            PosEntryMode::ContactlessIcc => "Contactless Chip (contactless/tap transaction)"@,
            PosEntryMode::ContactlessIccMappingApplied => "Contactless Chip (contactless/tap transaction) - Contactless Mapping Service Applied"@,
            PosEntryMode::EcommerceIncludingRemoteChip => "E-Commerce - Including Remote Chip"@,
            PosEntryMode::CredentialsOnFile => "Merchant Has Cardholder Credentials On File (token, recurring payment, etc.)"@,
            PosEntryMode::Fallback => "ICC Could Not Process - Fallback to MSR"@,
            PosEntryMode::EcommerceIncludingChip => "E-Commerce - Including Chip"@,
            PosEntryMode::ViaServer => "Via a Server (issuer, acquirer, third-party vendor)"@,
            PosEntryMode::MagneticStripeFull => "Magnetic Stripe Reader (MSR) - Full Track Data - Data Reliable (CVV can be checked)"@,
            PosEntryMode::ContactlessMagneticStripe => "Contactless Magnetic Stripe Data (MSD)"@,
            PosEntryMode::ContactIccUnreliable => "Integrated Circuit Chip (ICC) - Data Unreliable (contact/insert transaction) (CVV cannot be checked)"@,
        }
    }

    /// Conversion from a code: the value it stands for, or an error.
    pub open spec fn spec_try_from(code: u8) -> Result<PosEntryMode, ParseError> {
        match PosEntryMode::spec_from_code(code) {
            Some(value) => Ok(value),
            None => Err(ParseError::Unrecognised),
        }
    }

    /// What the value means, in words.
    pub fn description(&self) -> (text: &'static str)
        ensures
            text@ == self.spec_description(),
    {
        match self {
            PosEntryMode::Unknown => "Unknown",
            PosEntryMode::Manual => "Manual (keyed entry)",
            PosEntryMode::MagneticStripe => "Magnetic Stripe Reader (MSR)",
            PosEntryMode::Barcode => "Barcode",
            PosEntryMode::Ocr => "Optical Character Recognition (OCR)",
            PosEntryMode::ContactIcc => "Integrated Circuit Chip (ICC) - Data Reliable (contact/insert transaction) (CVV can be checked)",
            PosEntryMode::Track1 => "Magnetic Stripe Track 1",
            PosEntryMode::ContactlessIcc => "Contactless Chip (contactless/tap transaction)",
            PosEntryMode::ContactlessIccMappingApplied => "Contactless Chip (contactless/tap transaction) - Contactless Mapping Service Applied",
            PosEntryMode::EcommerceIncludingRemoteChip => "E-Commerce - Including Remote Chip",
            PosEntryMode::CredentialsOnFile => "Merchant Has Cardholder Credentials On File (token, recurring payment, etc.)",
            PosEntryMode::Fallback => "ICC Could Not Process - Fallback to MSR",
            PosEntryMode::EcommerceIncludingChip => "E-Commerce - Including Chip",
            PosEntryMode::ViaServer => "Via a Server (issuer, acquirer, third-party vendor)",
            PosEntryMode::MagneticStripeFull => "Magnetic Stripe Reader (MSR) - Full Track Data - Data Reliable (CVV can be checked)",
            PosEntryMode::ContactlessMagneticStripe => "Contactless Magnetic Stripe Data (MSD)",
            PosEntryMode::ContactIccUnreliable => "Integrated Circuit Chip (ICC) - Data Unreliable (contact/insert transaction) (CVV cannot be checked)",
        }
    }
}

impl TryFrom<u8> for PosEntryMode {
    type Error = ParseError;

    fn try_from(code: u8) -> (result: Result<PosEntryMode, ParseError>)
        ensures
            result == PosEntryMode::spec_try_from(code),
    {
        match code {
            0x00u8 => Ok(PosEntryMode::Unknown),
            0x01u8 => Ok(PosEntryMode::Manual),
            0x02u8 => Ok(PosEntryMode::MagneticStripe),
            0x03u8 => Ok(PosEntryMode::Barcode),
            0x04u8 => Ok(PosEntryMode::Ocr),
            0x05u8 => Ok(PosEntryMode::ContactIcc),
            0x06u8 => Ok(PosEntryMode::Track1),
            0x07u8 | 0x83u8 => Ok(PosEntryMode::ContactlessIcc),
            0x08u8 | 0x92u8 => Ok(PosEntryMode::ContactlessIccMappingApplied),
            0x09u8 => Ok(PosEntryMode::EcommerceIncludingRemoteChip),
            0x10u8 => Ok(PosEntryMode::CredentialsOnFile),
            0x80u8 => Ok(PosEntryMode::Fallback),
            0x81u8 => Ok(PosEntryMode::EcommerceIncludingChip),
            0x82u8 => Ok(PosEntryMode::ViaServer),
            0x90u8 => Ok(PosEntryMode::MagneticStripeFull),
            0x91u8 => Ok(PosEntryMode::ContactlessMagneticStripe),
            0x95u8 => Ok(PosEntryMode::ContactIccUnreliable),
            _ => Err(ParseError::Unrecognised),
        }
    }
}

impl TryFromSpecImpl<u8> for PosEntryMode {
    open spec fn obeys_try_from_spec() -> bool {
        true
    }

    open spec fn try_from_spec(code: u8) -> Result<PosEntryMode, ParseError> {
        PosEntryMode::spec_try_from(code)
    }
}

impl PosEntryMode {
    /// Parsing raw bytes: exactly `1` byte is required.
    pub open spec fn spec_try_from_bytes(bytes: Seq<u8>) -> Result<PosEntryMode, ParseError> {
        if bytes.len() != 1 {
            Err(ParseError::ByteCountIncorrect { comparison: Comparison::Equal, expected: 1, found: bytes.len() as usize })
        } else {
            PosEntryMode::spec_try_from(bytes[0])
        }
    }
}

impl<'a> TryFrom<&'a [u8]> for PosEntryMode {
    type Error = ParseError;

    fn try_from(raw_bytes: &'a [u8]) -> (result: Result<PosEntryMode, ParseError>)
        ensures
            result == PosEntryMode::spec_try_from_bytes(raw_bytes@),
    {
        if raw_bytes.len() != 1 {
            return Err(ParseError::ByteCountIncorrect { comparison: Comparison::Equal, expected: 1, found: raw_bytes.len() });
        }
        PosEntryMode::try_from(raw_bytes[0])
    }
}

impl<'a> TryFromSpecImpl<&'a [u8]> for PosEntryMode {
    open spec fn obeys_try_from_spec() -> bool {
        true
    }

    open spec fn try_from_spec(raw_bytes: &'a [u8]) -> Result<PosEntryMode, ParseError> {
        PosEntryMode::spec_try_from_bytes(raw_bytes@)
    }
}

/// The code table of ISO 8583 POS entry mode: each code gives the value named beside it,
/// which reads as the text beside it, and every other code is refused.
#[verifier::rlimit(40)]
pub proof fn lemma_pos_entry_mode_code_table(code: u8)
    ensures
        code == 0x00u8 ==> PosEntryMode::spec_try_from(code) == Ok::<PosEntryMode, ParseError>(PosEntryMode::Unknown),
        code == 0x01u8 ==> PosEntryMode::spec_try_from(code) == Ok::<PosEntryMode, ParseError>(PosEntryMode::Manual),
        code == 0x02u8 ==> PosEntryMode::spec_try_from(code) == Ok::<PosEntryMode, ParseError>(PosEntryMode::MagneticStripe),
        code == 0x03u8 ==> PosEntryMode::spec_try_from(code) == Ok::<PosEntryMode, ParseError>(PosEntryMode::Barcode),
        code == 0x04u8 ==> PosEntryMode::spec_try_from(code) == Ok::<PosEntryMode, ParseError>(PosEntryMode::Ocr),
        code == 0x05u8 ==> PosEntryMode::spec_try_from(code) == Ok::<PosEntryMode, ParseError>(PosEntryMode::ContactIcc),
        code == 0x06u8 ==> PosEntryMode::spec_try_from(code) == Ok::<PosEntryMode, ParseError>(PosEntryMode::Track1),
        code == 0x07u8 ==> PosEntryMode::spec_try_from(code) == Ok::<PosEntryMode, ParseError>(PosEntryMode::ContactlessIcc),
        code == 0x83u8 ==> PosEntryMode::spec_try_from(code) == Ok::<PosEntryMode, ParseError>(PosEntryMode::ContactlessIcc),
        code == 0x08u8 ==> PosEntryMode::spec_try_from(code) == Ok::<PosEntryMode, ParseError>(PosEntryMode::ContactlessIccMappingApplied),
        code == 0x92u8 ==> PosEntryMode::spec_try_from(code) == Ok::<PosEntryMode, ParseError>(PosEntryMode::ContactlessIccMappingApplied),
        code == 0x09u8 ==> PosEntryMode::spec_try_from(code) == Ok::<PosEntryMode, ParseError>(PosEntryMode::EcommerceIncludingRemoteChip),
        code == 0x10u8 ==> PosEntryMode::spec_try_from(code) == Ok::<PosEntryMode, ParseError>(PosEntryMode::CredentialsOnFile),
        code == 0x80u8 ==> PosEntryMode::spec_try_from(code) == Ok::<PosEntryMode, ParseError>(PosEntryMode::Fallback),
        code == 0x81u8 ==> PosEntryMode::spec_try_from(code) == Ok::<PosEntryMode, ParseError>(PosEntryMode::EcommerceIncludingChip),
        code == 0x82u8 ==> PosEntryMode::spec_try_from(code) == Ok::<PosEntryMode, ParseError>(PosEntryMode::ViaServer),
        code == 0x90u8 ==> PosEntryMode::spec_try_from(code) == Ok::<PosEntryMode, ParseError>(PosEntryMode::MagneticStripeFull),
        code == 0x91u8 ==> PosEntryMode::spec_try_from(code) == Ok::<PosEntryMode, ParseError>(PosEntryMode::ContactlessMagneticStripe),
        code == 0x95u8 ==> PosEntryMode::spec_try_from(code) == Ok::<PosEntryMode, ParseError>(PosEntryMode::ContactIccUnreliable),
        !(code == 0x00u8 || code == 0x01u8 || code == 0x02u8 || code == 0x03u8 || code == 0x04u8 || code == 0x05u8 || code == 0x06u8 || code == 0x07u8 || code == 0x83u8 || code == 0x08u8 || code == 0x92u8 || code == 0x09u8 || code == 0x10u8 || code == 0x80u8 || code == 0x81u8 || code == 0x82u8 || code == 0x90u8 || code == 0x91u8 || code == 0x95u8) ==> PosEntryMode::spec_try_from(code) is Err,
        PosEntryMode::Unknown.spec_description() == "Unknown"@,
        PosEntryMode::Manual.spec_description() == "Manual (keyed entry)"@,
        PosEntryMode::MagneticStripe.spec_description() == "Magnetic Stripe Reader (MSR)"@,
        PosEntryMode::Barcode.spec_description() == "Barcode"@,
        PosEntryMode::Ocr.spec_description() == "Optical Character Recognition (OCR)"@,
        PosEntryMode::ContactIcc.spec_description() == "Integrated Circuit Chip (ICC) - Data Reliable (contact/insert transaction) (CVV can be checked)"@,
        PosEntryMode::Track1.spec_description() == "Magnetic Stripe Track 1"@,
        PosEntryMode::ContactlessIcc.spec_description() == "Contactless Chip (contactless/tap transaction)"@,
        PosEntryMode::ContactlessIccMappingApplied.spec_description() == "Contactless Chip (contactless/tap transaction) - Contactless Mapping Service Applied"@,
        PosEntryMode::EcommerceIncludingRemoteChip.spec_description() == "E-Commerce - Including Remote Chip"@,
        PosEntryMode::CredentialsOnFile.spec_description() == "Merchant Has Cardholder Credentials On File (token, recurring payment, etc.)"@,
        PosEntryMode::Fallback.spec_description() == "ICC Could Not Process - Fallback to MSR"@,
        PosEntryMode::EcommerceIncludingChip.spec_description() == "E-Commerce - Including Chip"@,
        PosEntryMode::ViaServer.spec_description() == "Via a Server (issuer, acquirer, third-party vendor)"@,
        PosEntryMode::MagneticStripeFull.spec_description() == "Magnetic Stripe Reader (MSR) - Full Track Data - Data Reliable (CVV can be checked)"@,
        PosEntryMode::ContactlessMagneticStripe.spec_description() == "Contactless Magnetic Stripe Data (MSD)"@,
        PosEntryMode::ContactIccUnreliable.spec_description() == "Integrated Circuit Chip (ICC) - Data Unreliable (contact/insert transaction) (CVV cannot be checked)"@,
{
}

} // verus!
