//! Identifying EMV tags and parsing the values of the tags that are known.
use vstd::prelude::*;

use super::{NodeModel, RawEmvBlock, RawEmvNode, RawEmvTag, TagModel, EmvData, node_model, nodes_model, lemma_nodes_model_push};
use crate::emv::additional_terminal_capabilities::AdditionalTerminalCapabilities;
use crate::emv::authorisation_response_code::AuthorisationResponseCode;
use crate::emv::ccd::iad::{spec_parse_iad, IadModel, IssuerApplicationData};
use crate::emv::cvm_list::{spec_cvm_list, CardholderVerificationMethodList, CvmListModel};
use crate::emv::cvm_results::CardholderVerificationMethodResults;
use crate::emv::iac::default::IssuerActionCodeDefault;
use crate::emv::iac::denial::IssuerActionCodeDenial;
use crate::emv::iac::online::IssuerActionCodeOnline;
use crate::emv::pos_entry_mode::PosEntryMode;
use crate::emv::terminal_capabilities::TerminalCapabilities;
use crate::emv::terminal_type::TerminalType;
use crate::emv::transaction_type::TransactionType;
use crate::emv::tsi::TransactionStatusInformation;
use crate::emv::tvr::TerminalVerificationResults;
use crate::error::ParseError;
use crate::non_emv::service_code::ServiceCode;
use vstd::std_specs::convert::{FromSpecImpl, TryFromSpecImpl};

verus! {

/// The name of a one-byte tag, if it is known.
pub open spec fn one_byte_tag_name(byte: u8) -> Option<Seq<char>> {
    if byte == 0x42u8 {
        Some("Issuer Identification Number (IIN)"@)
    } else if byte == 0x4Fu8 {
        Some("Application Dedicated File (ADF) Name"@)
    } else if byte == 0x50u8 {
        Some("Application Label"@)
    } else if byte == 0x57u8 {
        Some("Track 2 Equivalent Data"@)
    } else if byte == 0x5Au8 {
        Some("Application Primary Account Number (PAN)"@)
    } else if byte == 0x61u8 {
        Some("Application Template"@)
    } else if byte == 0x6Fu8 {
        Some("File Control Information (FCI) Template"@)
    } else if byte == 0x70u8 {
        Some("READ RECORD Response Message Template"@)
    } else if byte == 0x71u8 {
        Some("Issuer Script Template 1"@)
    } else if byte == 0x72u8 {
        Some("Issuer Script Template 2"@)
    } else if byte == 0x73u8 {
        Some("Directory Discretionary Template"@)
    } else if byte == 0x77u8 {
        Some("Response Message Template Format 2"@)
    } else if byte == 0x80u8 {
        Some("Response Message Template Format 1"@)
    } else if byte == 0x81u8 {
        Some("Amount, Authorised (Binary)"@)
    } else if byte == 0x82u8 {
        Some("Application Interchange Profile"@)
    } else if byte == 0x83u8 {
        Some("Command Template"@)
    } else if byte == 0x84u8 {
        Some("Dedicated File (DF) Name"@)
    } else if byte == 0x86u8 {
        Some("Issuer Script Command"@)
    } else if byte == 0x87u8 {
        Some("Application Priority Indicator"@)
    } else if byte == 0x88u8 {
        Some("Short File Identifier (SFI)"@)
    } else if byte == 0x89u8 {
        Some("Authorisation Code"@)
    } else if byte == 0x8Au8 {
        Some("Authorisation Response Code"@)
    } else if byte == 0x8Cu8 {
        Some("Card Risk Management Data Object List 1 (CDOL1)"@)
    } else if byte == 0x8Du8 {
        Some("Card Risk Management Data Object List 2 (CDOL2)"@)
    } else if byte == 0x8Eu8 {
        Some("CVM List"@)
    } else if byte == 0x8Fu8 {
        Some("Certification Authority Public Key Index (ICC)"@)
    } else if byte == 0x90u8 {
        Some("Issuer Public Key Certificate"@)
    } else if byte == 0x91u8 {
        Some("Issuer Authentication Data"@)
    } else if byte == 0x92u8 {
        Some("Issuer Public Key Remainder"@)
    } else if byte == 0x93u8 {
        Some("Signed Static Application Data"@)
    } else if byte == 0x94u8 {
        Some("Application File Locator (AFL)"@)
    } else if byte == 0x95u8 {
        Some("Terminal Verification Results (TVR)"@)
    } else if byte == 0x97u8 {
        Some("Transaction Certificate Data Object List (TDOL)"@)
    } else if byte == 0x98u8 {
        Some("Transaction Certificate (TC) Hash Value"@)
    } else if byte == 0x99u8 {
        Some("Transaction PIN Data"@)
    } else if byte == 0x9Au8 {
        Some("Transaction Date"@)
    } else if byte == 0x9Bu8 {
        Some("Transaction Status Information (TSI)"@)
    } else if byte == 0x9Cu8 {
        Some("Transaction Type"@)
    } else if byte == 0x9Du8 {
        Some("Directory Definition File (DDF) Name"@)
    } else if byte == 0xA5u8 {
        Some("File Control Information (FCI) Proprietary Template"@)
    } else {
        None
    }
}

/// The name of a two-byte tag starting with `0x5F`, from its second byte.
pub open spec fn tag_5f_name(byte: u8) -> Option<Seq<char>> {
    if byte == 0x20u8 {
        Some("Cardholder Name"@)
    } else if byte == 0x24u8 {
        Some("Application Expiration Date"@)
    } else if byte == 0x25u8 {
        Some("Application Effective Date"@)
    } else if byte == 0x28u8 {
        Some("Issuer Country Code"@)
    } else if byte == 0x2Au8 {
        Some("Transaction Currency Code"@)
    } else if byte == 0x2Du8 {
        Some("Language Preference"@)
    } else if byte == 0x30u8 {
        Some("Service Code"@)
    } else if byte == 0x34u8 {
        Some("Application Primary Account Number (PAN) Sequence Number"@)
    } else if byte == 0x36u8 {
        Some("Transaction Currency Exponent"@)
    } else if byte == 0x50u8 {
        Some("Issuer URL"@)
    } else if byte == 0x53u8 {
        Some("International Bank Account Number (IBAN)"@)
    } else if byte == 0x54u8 {
        Some("Bank Identifier Code (BIC)"@)
    } else if byte == 0x55u8 {
        Some("Issuer Country Code (alpha2 format)"@)
    } else if byte == 0x56u8 {
        Some("Issuer Country Code (alpha3 format)"@)
    } else if byte == 0x57u8 {
        Some("Account Type"@)
    } else {
        None
    }
}

/// The name of a two-byte tag starting with `0x9F`, from its second byte.
pub open spec fn tag_9f_name(byte: u8) -> Option<Seq<char>> {
    if byte == 0x01u8 {
        Some("Acquirer Identifier"@)
    } else if byte == 0x02u8 {
        Some("Amount, Authorised (Numeric)"@)
    } else if byte == 0x03u8 {
        Some("Amount, Other (Numeric)"@)
    } else if byte == 0x04u8 {
        Some("Amount, Other (Binary)"@)
    } else if byte == 0x05u8 {
        Some("Application Discretionary Data"@)
    } else if byte == 0x06u8 {
        Some("Application Identifier (AID)"@)
    } else if byte == 0x07u8 {
        Some("Application Usage Control"@)
    } else if byte == 0x08u8 {
        Some("Application Version Number (ICC)"@)
    } else if byte == 0x09u8 {
        Some("Application Version Number (Terminal)"@)
    } else if byte == 0x0Bu8 {
        Some("Cardholder Name Extended"@)
    } else if byte == 0x0Du8 {
        Some("Issuer Action Code - Default"@)
    } else if byte == 0x0Eu8 {
        Some("Issuer Action Code - Denial"@)
    } else if byte == 0x0Fu8 {
        Some("Issuer Action Code - Online"@)
    } else if byte == 0x10u8 {
        Some("Issuer Application Data (CCD-Compliant)"@)
    } else if byte == 0x11u8 {
        Some("Issuer Code Table Index"@)
    } else if byte == 0x12u8 {
        Some("Application Preferred Name"@)
    } else if byte == 0x13u8 {
        Some("Last Online Application Transaction Counter (ATC) Register"@)
    } else if byte == 0x14u8 {
        Some("Lower Consecutive Offline Limit"@)
    } else if byte == 0x15u8 {
        Some("Merchant Category Code"@)
    } else if byte == 0x16u8 {
        Some("Merchant Identifier"@)
    } else if byte == 0x17u8 {
        Some("PIN Try Counter"@)
    } else if byte == 0x18u8 {
        Some("Issuer Script Identifier"@)
    } else if byte == 0x1Au8 {
        Some("Terminal Country Code"@)
    } else if byte == 0x1Bu8 {
        Some("Terminal Floor Limit"@)
    } else if byte == 0x1Cu8 {
        Some("Terminal Identification"@)
    } else if byte == 0x1Du8 {
        Some("Terminal Risk Management Data"@)
    } else if byte == 0x1Eu8 {
        Some("Interface Device (IFD/Terminal) Serial Number"@)
    } else if byte == 0x1Fu8 {
        Some("Track 1 Discretionary Data"@)
    } else if byte == 0x20u8 {
        Some("Track 2 Discretionary Data"@)
    } else if byte == 0x21u8 {
        Some("Transaction Time"@)
    } else if byte == 0x22u8 {
        Some("Certification Authority Public Key Index (Terminal)"@)
    } else if byte == 0x23u8 {
        Some("Upper Consecutive Offline Limit"@)
    } else if byte == 0x26u8 {
        Some("Application Cryptogram"@)
    } else if byte == 0x27u8 {
        Some("Cryptogram Information Data (CID)"@)
    } else if byte == 0x2Du8 {
        Some("ICC PIN Encipherment Public Key Certificate"@)
    } else if byte == 0x2Eu8 {
        Some("ICC PIN Encipherment Public Key Exponent"@)
    } else if byte == 0x2Fu8 {
        Some("ICC PIN Encipherment Public Key Remainder"@)
    } else if byte == 0x32u8 {
        Some("Issuer Public Key Exponent"@)
    } else if byte == 0x33u8 {
        Some("Terminal Capabilities"@)
    } else if byte == 0x34u8 {
        Some("CVM Results"@)
    } else if byte == 0x35u8 {
        Some("Terminal Type"@)
    } else if byte == 0x36u8 {
        Some("Application Transaction Counter (ATC)"@)
    } else if byte == 0x37u8 {
        Some("Unpredictable Number"@)
    } else if byte == 0x38u8 {
        Some("Processing Options Data Object List (PDOL)"@)
    } else if byte == 0x39u8 {
        Some("POS Entry Mode"@)
    } else if byte == 0x3Au8 {
        Some("Amount, Reference Currency (Binary)"@)
    } else if byte == 0x3Bu8 {
        Some("Application Reference Currency"@)
    } else if byte == 0x3Cu8 {
        Some("Transaction Reference Currency Code"@)
    } else if byte == 0x3Du8 {
        Some("Transaction Reference Currency Exponent"@)
    } else if byte == 0x40u8 {
        Some("Additional Terminal Capabilities"@)
    } else if byte == 0x41u8 {
        Some("Transaction Sequence Counter"@)
    } else if byte == 0x42u8 {
        Some("Application Currency Code"@)
    } else if byte == 0x43u8 {
        Some("Application Reference Currency Exponent"@)
    } else if byte == 0x44u8 {
        Some("Application Currency Exponent"@)
    } else if byte == 0x45u8 {
        Some("Data Authentication Code"@)
    } else if byte == 0x46u8 {
        Some("ICC Public Key Certificate"@)
    } else if byte == 0x47u8 {
        Some("ICC Public Key Exponent"@)
    } else if byte == 0x48u8 {
        Some("ICC Public Key Remainder"@)
    } else if byte == 0x49u8 {
        Some("Dynamic Data Authentication Data Object List (DDOL)"@)
    } else if byte == 0x4Au8 {
        Some("Static Data Authentication Tag List"@)
    } else if byte == 0x4Bu8 {
        Some("Signed Dynamic Application Data"@)
    } else if byte == 0x4Cu8 {
        Some("ICC Dynamic Number"@)
    } else if byte == 0x4Du8 {
        Some("Log Entry"@)
    } else if byte == 0x4Eu8 {
        Some("Merchant Name and Location"@)
    } else if byte == 0x4Fu8 {
        Some("Log Format"@)
    } else {
        None
    }
}

/// The name of a tag, if it is known.
pub open spec fn spec_tag_name(tag: Seq<u8>) -> Option<Seq<char>> {
    if tag.len() == 1 {
        one_byte_tag_name(tag[0])
    } else if tag.len() == 2 && tag[0] == 0x5Fu8 {
        tag_5f_name(tag[1])
    } else if tag.len() == 2 && tag[0] == 0x9Fu8 {
        tag_9f_name(tag[1])
    } else if tag.len() == 2 && tag[0] == 0xBFu8 && tag[1] == 0x0Cu8 {
        Some("File Control Information (FCI) Issuer Discretionary Data"@)
    } else {
        None
    }
}

/// The text of an optional name.
pub open spec fn name_view(name: Option<&'static str>) -> Option<Seq<char>> {
    match name {
        Some(text) => Some(text@),
        None => None,
    }
}

fn one_byte_tag_name_of(byte: u8) -> (name: Option<&'static str>)
    ensures
        name_view(name) == one_byte_tag_name(byte),
{
    match byte {
        0x42 => Some("Issuer Identification Number (IIN)"),
        0x4F => Some("Application Dedicated File (ADF) Name"),
        0x50 => Some("Application Label"),
        0x57 => Some("Track 2 Equivalent Data"),
        0x5A => Some("Application Primary Account Number (PAN)"),
        0x61 => Some("Application Template"),
        0x6F => Some("File Control Information (FCI) Template"),
        0x70 => Some("READ RECORD Response Message Template"),
        0x71 => Some("Issuer Script Template 1"),
        0x72 => Some("Issuer Script Template 2"),
        0x73 => Some("Directory Discretionary Template"),
        0x77 => Some("Response Message Template Format 2"),
        0x80 => Some("Response Message Template Format 1"),
        0x81 => Some("Amount, Authorised (Binary)"),
        0x82 => Some("Application Interchange Profile"),
        0x83 => Some("Command Template"),
        0x84 => Some("Dedicated File (DF) Name"),
        0x86 => Some("Issuer Script Command"),
        0x87 => Some("Application Priority Indicator"),
        0x88 => Some("Short File Identifier (SFI)"),
        0x89 => Some("Authorisation Code"),
        0x8A => Some("Authorisation Response Code"),
        0x8C => Some("Card Risk Management Data Object List 1 (CDOL1)"),
        0x8D => Some("Card Risk Management Data Object List 2 (CDOL2)"),
        0x8E => Some("CVM List"),
        0x8F => Some("Certification Authority Public Key Index (ICC)"),
        0x90 => Some("Issuer Public Key Certificate"),
        0x91 => Some("Issuer Authentication Data"),
        0x92 => Some("Issuer Public Key Remainder"),
        0x93 => Some("Signed Static Application Data"),
        0x94 => Some("Application File Locator (AFL)"),
        0x95 => Some("Terminal Verification Results (TVR)"),
        0x97 => Some("Transaction Certificate Data Object List (TDOL)"),
        0x98 => Some("Transaction Certificate (TC) Hash Value"),
        0x99 => Some("Transaction PIN Data"),
        0x9A => Some("Transaction Date"),
        0x9B => Some("Transaction Status Information (TSI)"),
        0x9C => Some("Transaction Type"),
        0x9D => Some("Directory Definition File (DDF) Name"),
        0xA5 => Some("File Control Information (FCI) Proprietary Template"),
        _ => None,
    }
}

fn tag_5f_name_of(byte: u8) -> (name: Option<&'static str>)
    ensures
        name_view(name) == tag_5f_name(byte),
{
    match byte {
        0x20 => Some("Cardholder Name"),
        0x24 => Some("Application Expiration Date"),
        0x25 => Some("Application Effective Date"),
        0x28 => Some("Issuer Country Code"),
        0x2A => Some("Transaction Currency Code"),
        0x2D => Some("Language Preference"),
        0x30 => Some("Service Code"),
        0x34 => Some("Application Primary Account Number (PAN) Sequence Number"),
        0x36 => Some("Transaction Currency Exponent"),
        0x50 => Some("Issuer URL"),
        0x53 => Some("International Bank Account Number (IBAN)"),
        0x54 => Some("Bank Identifier Code (BIC)"),
        0x55 => Some("Issuer Country Code (alpha2 format)"),
        0x56 => Some("Issuer Country Code (alpha3 format)"),
        0x57 => Some("Account Type"),
        _ => None,
    }
}

fn tag_9f_name_of(byte: u8) -> (name: Option<&'static str>)
    ensures
        name_view(name) == tag_9f_name(byte),
{
    match byte {
        0x01 => Some("Acquirer Identifier"),
        0x02 => Some("Amount, Authorised (Numeric)"),
        0x03 => Some("Amount, Other (Numeric)"),
        0x04 => Some("Amount, Other (Binary)"),
        0x05 => Some("Application Discretionary Data"),
        0x06 => Some("Application Identifier (AID)"),
        0x07 => Some("Application Usage Control"),
        0x08 => Some("Application Version Number (ICC)"),
        0x09 => Some("Application Version Number (Terminal)"),
        0x0B => Some("Cardholder Name Extended"),
        0x0D => Some("Issuer Action Code - Default"),
        0x0E => Some("Issuer Action Code - Denial"),
        0x0F => Some("Issuer Action Code - Online"),
        0x10 => Some("Issuer Application Data (CCD-Compliant)"),
        0x11 => Some("Issuer Code Table Index"),
        0x12 => Some("Application Preferred Name"),
        0x13 => Some("Last Online Application Transaction Counter (ATC) Register"),
        0x14 => Some("Lower Consecutive Offline Limit"),
        0x15 => Some("Merchant Category Code"),
        0x16 => Some("Merchant Identifier"),
        0x17 => Some("PIN Try Counter"),
        0x18 => Some("Issuer Script Identifier"),
        0x1A => Some("Terminal Country Code"),
        0x1B => Some("Terminal Floor Limit"),
        0x1C => Some("Terminal Identification"),
        0x1D => Some("Terminal Risk Management Data"),
        0x1E => Some("Interface Device (IFD/Terminal) Serial Number"),
        0x1F => Some("Track 1 Discretionary Data"),
        0x20 => Some("Track 2 Discretionary Data"),
        0x21 => Some("Transaction Time"),
        0x22 => Some("Certification Authority Public Key Index (Terminal)"),
        0x23 => Some("Upper Consecutive Offline Limit"),
        0x26 => Some("Application Cryptogram"),
        0x27 => Some("Cryptogram Information Data (CID)"),
        0x2D => Some("ICC PIN Encipherment Public Key Certificate"),
        0x2E => Some("ICC PIN Encipherment Public Key Exponent"),
        0x2F => Some("ICC PIN Encipherment Public Key Remainder"),
        0x32 => Some("Issuer Public Key Exponent"),
        0x33 => Some("Terminal Capabilities"),
        0x34 => Some("CVM Results"),
        0x35 => Some("Terminal Type"),
        0x36 => Some("Application Transaction Counter (ATC)"),
        0x37 => Some("Unpredictable Number"),
        0x38 => Some("Processing Options Data Object List (PDOL)"),
        0x39 => Some("POS Entry Mode"),
        0x3A => Some("Amount, Reference Currency (Binary)"),
        0x3B => Some("Application Reference Currency"),
        0x3C => Some("Transaction Reference Currency Code"),
        0x3D => Some("Transaction Reference Currency Exponent"),
        0x40 => Some("Additional Terminal Capabilities"),
        0x41 => Some("Transaction Sequence Counter"),
        0x42 => Some("Application Currency Code"),
        0x43 => Some("Application Reference Currency Exponent"),
        0x44 => Some("Application Currency Exponent"),
        0x45 => Some("Data Authentication Code"),
        0x46 => Some("ICC Public Key Certificate"),
        0x47 => Some("ICC Public Key Exponent"),
        0x48 => Some("ICC Public Key Remainder"),
        0x49 => Some("Dynamic Data Authentication Data Object List (DDOL)"),
        0x4A => Some("Static Data Authentication Tag List"),
        0x4B => Some("Signed Dynamic Application Data"),
        0x4C => Some("ICC Dynamic Number"),
        0x4D => Some("Log Entry"),
        0x4E => Some("Merchant Name and Location"),
        0x4F => Some("Log Format"),
        _ => None,
    }
}

/// The identifier of the known tag that has `name`, told apart from the other
/// names by its length and a few of its characters.
spec fn tag_of_name(name: Seq<char>) -> Seq<u8> {
    if name.len() == 8 {
        seq![0x8Eu8]
    } else if name.len() == 9 {
        seq![0x9Fu8, 0x4Du8]
    } else if name.len() == 10 && name[0] == 'I' {
        seq![0x5Fu8, 0x50u8]
    } else if name.len() == 10 && name[0] == 'L' {
        seq![0x9Fu8, 0x4Fu8]
    } else if name.len() == 11 {
        seq![0x9Fu8, 0x34u8]
    } else if name.len() == 12 && name[0] == 'S' {
        seq![0x5Fu8, 0x30u8]
    } else if name.len() == 12 && name[0] == 'A' {
        seq![0x5Fu8, 0x57u8]
    } else if name.len() == 13 {
        seq![0x9Fu8, 0x35u8]
    } else if name.len() == 14 {
        seq![0x9Fu8, 0x39u8]
    } else if name.len() == 15 && name[0] == 'C' {
        seq![0x5Fu8, 0x20u8]
    } else if name.len() == 15 && name[0] == 'P' {
        seq![0x9Fu8, 0x17u8]
    } else if name.len() == 16 && name[12] == 'l' && name[13] == 'a' {
        seq![0x83u8]
    } else if name.len() == 16 && name[12] == 'D' && name[13] == 'a' {
        seq![0x9Au8]
    } else if name.len() == 16 && name[12] == 'T' && name[13] == 'y' {
        seq![0x9Cu8]
    } else if name.len() == 16 && name[12] == 'T' && name[13] == 'i' {
        seq![0x9Fu8, 0x21u8]
    } else if name.len() == 17 {
        seq![0x50u8]
    } else if name.len() == 18 && name[0] == 'A' {
        seq![0x89u8]
    } else if name.len() == 18 && name[0] == 'I' {
        seq![0x9Fu8, 0x4Cu8]
    } else if name.len() == 19 && name[0] == 'I' {
        seq![0x5Fu8, 0x28u8]
    } else if name.len() == 19 && name[0] == 'L' {
        seq![0x5Fu8, 0x2Du8]
    } else if name.len() == 19 && name[0] == 'A' {
        seq![0x9Fu8, 0x01u8]
    } else if name.len() == 19 && name[0] == 'M' {
        seq![0x9Fu8, 0x16u8]
    } else if name.len() == 20 && name[1] == 'p' {
        seq![0x61u8]
    } else if name.len() == 20 && name[1] == 'r' {
        seq![0x99u8]
    } else if name.len() == 20 && name[1] == 'e' {
        seq![0x9Fu8, 0x1Bu8]
    } else if name.len() == 20 && name[1] == 'n' {
        seq![0x9Fu8, 0x37u8]
    } else if name.len() == 21 && name[10] == 'i' {
        seq![0x86u8]
    } else if name.len() == 21 && name[10] == 'o' {
        seq![0x9Fu8, 0x1Au8]
    } else if name.len() == 21 && name[10] == 'a' {
        seq![0x9Fu8, 0x33u8]
    } else if name.len() == 22 && name[1] == 'm' {
        seq![0x9Fu8, 0x04u8]
    } else if name.len() == 22 && name[1] == 'e' {
        seq![0x9Fu8, 0x15u8]
    } else if name.len() == 22 && name[1] == 'p' {
        seq![0x9Fu8, 0x26u8]
    } else if name.len() == 23 && name[1] == 'r' {
        seq![0x57u8]
    } else if name.len() == 23 && name[1] == 'm' {
        seq![0x9Fu8, 0x03u8]
    } else if name.len() == 23 && name[1] == 's' {
        seq![0x9Fu8, 0x11u8]
    } else if name.len() == 23 && name[1] == 'e' {
        seq![0x9Fu8, 0x1Cu8]
    } else if name.len() == 23 && name[1] == 'C' {
        seq![0x9Fu8, 0x47u8]
    } else if name.len() == 24 && name[15] == 'e' && name[23] == '1' {
        seq![0x71u8]
    } else if name.len() == 24 && name[15] == 'e' && name[23] == '2' {
        seq![0x72u8]
    } else if name.len() == 24 && name[15] == '(' && name[23] == 'e' {
        seq![0x84u8]
    } else if name.len() == 24 && name[15] == ' ' && name[23] == 'd' {
        seq![0x9Fu8, 0x0Bu8]
    } else if name.len() == 24 && name[15] == 'd' && name[23] == 'r' {
        seq![0x9Fu8, 0x18u8]
    } else if name.len() == 24 && name[15] == 't' && name[23] == 'e' {
        seq![0x9Fu8, 0x45u8]
    } else if name.len() == 24 && name[15] == 'R' && name[23] == 'r' {
        seq![0x9Fu8, 0x48u8]
    } else if name.len() == 25 && name[0] == 'T' && name[12] == 'C' {
        seq![0x5Fu8, 0x2Au8]
    } else if name.len() == 25 && name[0] == 'A' && name[12] == 'U' {
        seq![0x9Fu8, 0x07u8]
    } else if name.len() == 25 && name[0] == 'A' && name[12] == 'C' {
        seq![0x9Fu8, 0x42u8]
    } else if name.len() == 26 && name[14] == 'i' && name[6] == ' ' {
        seq![0x91u8]
    } else if name.len() == 26 && name[14] == 'f' && name[6] == 'a' {
        seq![0x5Fu8, 0x25u8]
    } else if name.len() == 26 && name[14] == 'r' && name[6] == 'd' {
        seq![0x5Fu8, 0x54u8]
    } else if name.len() == 26 && name[14] == 'e' && name[6] == 'a' {
        seq![0x9Fu8, 0x12u8]
    } else if name.len() == 26 && name[14] == 't' && name[6] == '1' {
        seq![0x9Fu8, 0x1Fu8]
    } else if name.len() == 26 && name[14] == 't' && name[6] == '2' {
        seq![0x9Fu8, 0x20u8]
    } else if name.len() == 26 && name[14] == 'K' && name[6] == ' ' {
        seq![0x9Fu8, 0x32u8]
    } else if name.len() == 26 && name[14] == ' ' && name[6] == 'b' {
        seq![0x9Fu8, 0x46u8]
    } else if name.len() == 26 && name[14] == 'a' && name[6] == 'n' {
        seq![0x9Fu8, 0x4Eu8]
    } else if name.len() == 27 && name[21] == 'i' {
        seq![0x81u8]
    } else if name.len() == 27 && name[21] == ' ' {
        seq![0x88u8]
    } else if name.len() == 27 && name[21] == 'e' {
        seq![0x8Au8]
    } else if name.len() == 27 && name[21] == 'a' {
        seq![0x92u8]
    } else if name.len() == 27 && name[21] == 'n' {
        seq![0x5Fu8, 0x24u8]
    } else if name.len() == 27 && name[21] == 'D' {
        seq![0x9Fu8, 0x0Eu8]
    } else if name.len() == 27 && name[21] == 'O' {
        seq![0x9Fu8, 0x0Fu8]
    } else if name.len() == 28 && name[1] == 'm' {
        seq![0x9Fu8, 0x02u8]
    } else if name.len() == 28 && name[1] == 'p' {
        seq![0x9Fu8, 0x06u8]
    } else if name.len() == 28 && name[1] == 's' {
        seq![0x9Fu8, 0x0Du8]
    } else if name.len() == 28 && name[1] == 'r' {
        seq![0x9Fu8, 0x41u8]
    } else if name.len() == 29 && name[1] == 's' {
        seq![0x90u8]
    } else if name.len() == 29 && name[1] == 'r' {
        seq![0x5Fu8, 0x36u8]
    } else if name.len() == 29 && name[1] == 'e' {
        seq![0x9Fu8, 0x1Du8]
    } else if name.len() == 29 && name[1] == 'p' {
        seq![0x9Fu8, 0x44u8]
    } else if name.len() == 30 && name[12] == 'P' {
        seq![0x87u8]
    } else if name.len() == 30 && name[12] == 'c' {
        seq![0x93u8]
    } else if name.len() == 30 && name[12] == 'F' {
        seq![0x94u8]
    } else if name.len() == 30 && name[12] == 'D' {
        seq![0x9Fu8, 0x05u8]
    } else if name.len() == 30 && name[12] == 'R' {
        seq![0x9Fu8, 0x3Bu8]
    } else if name.len() == 31 && name[0] == 'A' {
        seq![0x82u8]
    } else if name.len() == 31 && name[0] == 'L' {
        seq![0x9Fu8, 0x14u8]
    } else if name.len() == 31 && name[0] == 'U' {
        seq![0x9Fu8, 0x23u8]
    } else if name.len() == 31 && name[0] == 'S' {
        seq![0x9Fu8, 0x4Bu8]
    } else if name.len() == 32 && name[1] == 'i' {
        seq![0x73u8]
    } else if name.len() == 32 && name[1] == 'p' {
        seq![0x9Fu8, 0x08u8]
    } else if name.len() == 32 && name[1] == 'd' {
        seq![0x9Fu8, 0x40u8]
    } else if name.len() == 33 {
        seq![0x9Fu8, 0x27u8]
    } else if name.len() == 34 && name[33] == ')' {
        seq![0x42u8]
    } else if name.len() == 34 && name[33] == '2' {
        seq![0x77u8]
    } else if name.len() == 34 && name[33] == '1' {
        seq![0x80u8]
    } else if name.len() == 35 && name[1] == 'e' && name[26] == 'l' {
        seq![0x95u8]
    } else if name.len() == 35 && name[1] == 's' && name[26] == '2' {
        seq![0x5Fu8, 0x55u8]
    } else if name.len() == 35 && name[1] == 's' && name[26] == '3' {
        seq![0x5Fu8, 0x56u8]
    } else if name.len() == 35 && name[1] == 'm' && name[26] == ' ' {
        seq![0x9Fu8, 0x3Au8]
    } else if name.len() == 35 && name[1] == 'r' && name[26] == 'e' {
        seq![0x9Fu8, 0x3Cu8]
    } else if name.len() == 35 && name[1] == 't' && name[26] == ' ' {
        seq![0x9Fu8, 0x4Au8]
    } else if name.len() == 36 && name[0] == 'T' {
        seq![0x9Bu8]
    } else if name.len() == 36 && name[0] == 'D' {
        seq![0x9Du8]
    } else if name.len() == 37 && name[12] == 'D' {
        seq![0x4Fu8]
    } else if name.len() == 37 && name[12] == 'R' {
        seq![0x70u8]
    } else if name.len() == 37 && name[12] == 'V' {
        seq![0x9Fu8, 0x09u8]
    } else if name.len() == 37 && name[12] == 'T' {
        seq![0x9Fu8, 0x36u8]
    } else if name.len() == 39 && name[0] == 'F' && name[12] == ' ' {
        seq![0x6Fu8]
    } else if name.len() == 39 && name[0] == 'T' && name[12] == 'C' {
        seq![0x98u8]
    } else if name.len() == 39 && name[0] == 'I' && name[12] == 'c' {
        seq![0x9Fu8, 0x10u8]
    } else if name.len() == 39 && name[0] == 'T' && name[12] == 'R' {
        seq![0x9Fu8, 0x3Du8]
    } else if name.len() == 39 && name[0] == 'A' && name[12] == 'R' {
        seq![0x9Fu8, 0x43u8]
    } else if name.len() == 40 && name[1] == 'p' {
        seq![0x5Au8]
    } else if name.len() == 40 && name[1] == 'n' {
        seq![0x5Fu8, 0x53u8]
    } else if name.len() == 40 && name[1] == 'C' {
        seq![0x9Fu8, 0x2Eu8]
    } else if name.len() == 41 {
        seq![0x9Fu8, 0x2Fu8]
    } else if name.len() == 42 {
        seq![0x9Fu8, 0x38u8]
    } else if name.len() == 43 {
        seq![0x9Fu8, 0x2Du8]
    } else if name.len() == 45 {
        seq![0x9Fu8, 0x1Eu8]
    } else if name.len() == 46 {
        seq![0x8Fu8]
    } else if name.len() == 47 && name[38] == '1' {
        seq![0x8Cu8]
    } else if name.len() == 47 && name[38] == '2' {
        seq![0x8Du8]
    } else if name.len() == 47 && name[38] == 's' {
        seq![0x97u8]
    } else if name.len() == 51 && name[0] == 'F' {
        seq![0xA5u8]
    } else if name.len() == 51 && name[0] == 'C' {
        seq![0x9Fu8, 0x22u8]
    } else if name.len() == 51 && name[0] == 'D' {
        seq![0x9Fu8, 0x49u8]
    } else if name.len() == 56 && name[0] == 'A' {
        seq![0x5Fu8, 0x34u8]
    } else if name.len() == 56 && name[0] == 'F' {
        seq![0xBFu8, 0x0Cu8]
    } else if name.len() == 58 {
        seq![0x9Fu8, 0x13u8]
    } else {
        seq![]
    }
}

proof fn lemma_one_byte_tag_name_identifies(byte: u8)
    requires
        one_byte_tag_name(byte) is Some,
    ensures
        byte % 32 != 31,
        tag_of_name(one_byte_tag_name(byte)->0) == seq![byte],
{
    reveal_strlit("Issuer Identification Number (IIN)");
    reveal_strlit("Application Dedicated File (ADF) Name");
    reveal_strlit("Application Label");
    reveal_strlit("Track 2 Equivalent Data");
    reveal_strlit("Application Primary Account Number (PAN)");
    reveal_strlit("Application Template");
    reveal_strlit("File Control Information (FCI) Template");
    reveal_strlit("READ RECORD Response Message Template");
    reveal_strlit("Issuer Script Template 1");
    reveal_strlit("Issuer Script Template 2");
    reveal_strlit("Directory Discretionary Template");
    reveal_strlit("Response Message Template Format 2");
    reveal_strlit("Response Message Template Format 1");
    reveal_strlit("Amount, Authorised (Binary)");
    reveal_strlit("Application Interchange Profile");
    reveal_strlit("Command Template");
    reveal_strlit("Dedicated File (DF) Name");
    reveal_strlit("Issuer Script Command");
    reveal_strlit("Application Priority Indicator");
    reveal_strlit("Short File Identifier (SFI)");
    reveal_strlit("Authorisation Code");
    reveal_strlit("Authorisation Response Code");
    reveal_strlit("Card Risk Management Data Object List 1 (CDOL1)");
    reveal_strlit("Card Risk Management Data Object List 2 (CDOL2)");
    reveal_strlit("CVM List");
    reveal_strlit("Certification Authority Public Key Index (ICC)");
    reveal_strlit("Issuer Public Key Certificate");
    reveal_strlit("Issuer Authentication Data");
    reveal_strlit("Issuer Public Key Remainder");
    reveal_strlit("Signed Static Application Data");
    reveal_strlit("Application File Locator (AFL)");
    reveal_strlit("Terminal Verification Results (TVR)");
    reveal_strlit("Transaction Certificate Data Object List (TDOL)");
    reveal_strlit("Transaction Certificate (TC) Hash Value");
    reveal_strlit("Transaction PIN Data");
    reveal_strlit("Transaction Date");
    reveal_strlit("Transaction Status Information (TSI)");
    reveal_strlit("Transaction Type");
    reveal_strlit("Directory Definition File (DDF) Name");
    reveal_strlit("File Control Information (FCI) Proprietary Template");
    assert(tag_of_name(one_byte_tag_name(byte)->0) =~= seq![byte]);
}

proof fn lemma_tag_5f_name_identifies(byte: u8)
    requires
        tag_5f_name(byte) is Some,
    ensures
        byte < 128,
        tag_of_name(tag_5f_name(byte)->0) == seq![0x5Fu8, byte],
{
    reveal_strlit("Cardholder Name");
    reveal_strlit("Application Expiration Date");
    reveal_strlit("Application Effective Date");
    reveal_strlit("Issuer Country Code");
    reveal_strlit("Transaction Currency Code");
    reveal_strlit("Language Preference");
    reveal_strlit("Service Code");
    reveal_strlit("Application Primary Account Number (PAN) Sequence Number");
    reveal_strlit("Transaction Currency Exponent");
    reveal_strlit("Issuer URL");
    reveal_strlit("International Bank Account Number (IBAN)");
    reveal_strlit("Bank Identifier Code (BIC)");
    reveal_strlit("Issuer Country Code (alpha2 format)");
    reveal_strlit("Issuer Country Code (alpha3 format)");
    reveal_strlit("Account Type");
    assert(tag_of_name(tag_5f_name(byte)->0) =~= seq![0x5Fu8, byte]);
}

proof fn lemma_tag_9f_name_identifies(byte: u8)
    requires
        tag_9f_name(byte) is Some,
    ensures
        byte < 128,
        tag_of_name(tag_9f_name(byte)->0) == seq![0x9Fu8, byte],
{
    reveal_strlit("Acquirer Identifier");
    reveal_strlit("Amount, Authorised (Numeric)");
    reveal_strlit("Amount, Other (Numeric)");
    reveal_strlit("Amount, Other (Binary)");
    reveal_strlit("Application Discretionary Data");
    reveal_strlit("Application Identifier (AID)");
    reveal_strlit("Application Usage Control");
    reveal_strlit("Application Version Number (ICC)");
    reveal_strlit("Application Version Number (Terminal)");
    reveal_strlit("Cardholder Name Extended");
    reveal_strlit("Issuer Action Code - Default");
    reveal_strlit("Issuer Action Code - Denial");
    reveal_strlit("Issuer Action Code - Online");
    reveal_strlit("Issuer Application Data (CCD-Compliant)");
    reveal_strlit("Issuer Code Table Index");
    reveal_strlit("Application Preferred Name");
    reveal_strlit("Last Online Application Transaction Counter (ATC) Register");
    reveal_strlit("Lower Consecutive Offline Limit");
    reveal_strlit("Merchant Category Code");
    reveal_strlit("Merchant Identifier");
    reveal_strlit("PIN Try Counter");
    reveal_strlit("Issuer Script Identifier");
    reveal_strlit("Terminal Country Code");
    reveal_strlit("Terminal Floor Limit");
    reveal_strlit("Terminal Identification");
    reveal_strlit("Terminal Risk Management Data");
    reveal_strlit("Interface Device (IFD/Terminal) Serial Number");
    reveal_strlit("Track 1 Discretionary Data");
    reveal_strlit("Track 2 Discretionary Data");
    reveal_strlit("Transaction Time");
    reveal_strlit("Certification Authority Public Key Index (Terminal)");
    reveal_strlit("Upper Consecutive Offline Limit");
    reveal_strlit("Application Cryptogram");
    reveal_strlit("Cryptogram Information Data (CID)");
    reveal_strlit("ICC PIN Encipherment Public Key Certificate");
    reveal_strlit("ICC PIN Encipherment Public Key Exponent");
    reveal_strlit("ICC PIN Encipherment Public Key Remainder");
    reveal_strlit("Issuer Public Key Exponent");
    reveal_strlit("Terminal Capabilities");
    reveal_strlit("CVM Results");
    reveal_strlit("Terminal Type");
    reveal_strlit("Application Transaction Counter (ATC)");
    reveal_strlit("Unpredictable Number");
    reveal_strlit("Processing Options Data Object List (PDOL)");
    reveal_strlit("POS Entry Mode");
    reveal_strlit("Amount, Reference Currency (Binary)");
    reveal_strlit("Application Reference Currency");
    reveal_strlit("Transaction Reference Currency Code");
    reveal_strlit("Transaction Reference Currency Exponent");
    reveal_strlit("Additional Terminal Capabilities");
    reveal_strlit("Transaction Sequence Counter");
    reveal_strlit("Application Currency Code");
    reveal_strlit("Application Reference Currency Exponent");
    reveal_strlit("Application Currency Exponent");
    reveal_strlit("Data Authentication Code");
    reveal_strlit("ICC Public Key Certificate");
    reveal_strlit("ICC Public Key Exponent");
    reveal_strlit("ICC Public Key Remainder");
    reveal_strlit("Dynamic Data Authentication Data Object List (DDOL)");
    reveal_strlit("Static Data Authentication Tag List");
    reveal_strlit("Signed Dynamic Application Data");
    reveal_strlit("ICC Dynamic Number");
    reveal_strlit("Log Entry");
    reveal_strlit("Merchant Name and Location");
    reveal_strlit("Log Format");
    assert(tag_of_name(tag_9f_name(byte)->0) =~= seq![0x9Fu8, byte]);
}


proof fn lemma_low_bits(x: u8)
    ensures
        x & 0x1Fu8 == x % 32,
        (x & 0x80u8 == 0) == (x < 128),
{
    assert(x & 0x1Fu8 == x % 32 && ((x & 0x80u8 == 0) == (x < 128))) by (bit_vector);
}

/// Only a complete tag identifier has a name: a single byte whose low five
/// bits are not all set, or a first byte whose low five bits are all set
/// followed by a byte that ends the identifier.
pub proof fn lemma_named_tags_are_complete(tag: Seq<u8>)
    requires
        spec_tag_name(tag) is Some,
    ensures
        (tag.len() == 1 && tag[0] & 0x1Fu8 != 0x1Fu8) || (tag.len() == 2 && tag[0] & 0x1Fu8 == 0x1Fu8 && tag[1]
            & 0x80u8 == 0),
{
    lemma_low_bits(tag[0]);
    if tag.len() == 1 {
        lemma_one_byte_tag_name_identifies(tag[0]);
    } else {
        lemma_low_bits(tag[1]);
        if tag[0] == 0x5Fu8 {
            lemma_tag_5f_name_identifies(tag[1]);
        } else if tag[0] == 0x9Fu8 {
            lemma_tag_9f_name_identifies(tag[1]);
        }
    }
}

proof fn lemma_tag_of_its_name(tag: Seq<u8>)
    requires
        spec_tag_name(tag) is Some,
    ensures
        tag_of_name(spec_tag_name(tag)->0) == tag,
{
    if tag.len() == 1 {
        lemma_one_byte_tag_name_identifies(tag[0]);
        assert(tag =~= seq![tag[0]]);
    } else if tag[0] == 0x5Fu8 {
        lemma_tag_5f_name_identifies(tag[1]);
        assert(tag =~= seq![0x5Fu8, tag[1]]);
    } else if tag[0] == 0x9Fu8 {
        lemma_tag_9f_name_identifies(tag[1]);
        assert(tag =~= seq![0x9Fu8, tag[1]]);
    } else {
        reveal_strlit("File Control Information (FCI) Issuer Discretionary Data");
        assert(tag =~= seq![0xBFu8, 0x0Cu8]);
    }
}

/// The names of the known tags: each tag identifier in the table gets the name
/// beside it, and every other identifier gets none.
#[verifier::rlimit(40)]
pub proof fn lemma_tag_name_table(tag: Seq<u8>)
    ensures
        (tag.len() == 1 && tag[0] == 0x42u8) ==> spec_tag_name(tag) == Some("Issuer Identification Number (IIN)"@),
        (tag.len() == 1 && tag[0] == 0x4Fu8) ==> spec_tag_name(tag) == Some("Application Dedicated File (ADF) Name"@),
        (tag.len() == 1 && tag[0] == 0x50u8) ==> spec_tag_name(tag) == Some("Application Label"@),
        (tag.len() == 1 && tag[0] == 0x57u8) ==> spec_tag_name(tag) == Some("Track 2 Equivalent Data"@),
        (tag.len() == 1 && tag[0] == 0x5Au8) ==> spec_tag_name(tag) == Some("Application Primary Account Number (PAN)"@),
        (tag.len() == 2 && tag[0] == 0x5Fu8 && tag[1] == 0x20u8) ==> spec_tag_name(tag) == Some("Cardholder Name"@),
        (tag.len() == 2 && tag[0] == 0x5Fu8 && tag[1] == 0x24u8) ==> spec_tag_name(tag) == Some("Application Expiration Date"@),
        (tag.len() == 2 && tag[0] == 0x5Fu8 && tag[1] == 0x25u8) ==> spec_tag_name(tag) == Some("Application Effective Date"@),
        (tag.len() == 2 && tag[0] == 0x5Fu8 && tag[1] == 0x28u8) ==> spec_tag_name(tag) == Some("Issuer Country Code"@),
        (tag.len() == 2 && tag[0] == 0x5Fu8 && tag[1] == 0x2Au8) ==> spec_tag_name(tag) == Some("Transaction Currency Code"@),
        (tag.len() == 2 && tag[0] == 0x5Fu8 && tag[1] == 0x2Du8) ==> spec_tag_name(tag) == Some("Language Preference"@),
        (tag.len() == 2 && tag[0] == 0x5Fu8 && tag[1] == 0x30u8) ==> spec_tag_name(tag) == Some("Service Code"@),
        (tag.len() == 2 && tag[0] == 0x5Fu8 && tag[1] == 0x34u8) ==> spec_tag_name(tag) == Some("Application Primary Account Number (PAN) Sequence Number"@),
        (tag.len() == 2 && tag[0] == 0x5Fu8 && tag[1] == 0x36u8) ==> spec_tag_name(tag) == Some("Transaction Currency Exponent"@),
        (tag.len() == 2 && tag[0] == 0x5Fu8 && tag[1] == 0x50u8) ==> spec_tag_name(tag) == Some("Issuer URL"@),
        (tag.len() == 2 && tag[0] == 0x5Fu8 && tag[1] == 0x53u8) ==> spec_tag_name(tag) == Some("International Bank Account Number (IBAN)"@),
        (tag.len() == 2 && tag[0] == 0x5Fu8 && tag[1] == 0x54u8) ==> spec_tag_name(tag) == Some("Bank Identifier Code (BIC)"@),
        (tag.len() == 2 && tag[0] == 0x5Fu8 && tag[1] == 0x55u8) ==> spec_tag_name(tag) == Some("Issuer Country Code (alpha2 format)"@),
        (tag.len() == 2 && tag[0] == 0x5Fu8 && tag[1] == 0x56u8) ==> spec_tag_name(tag) == Some("Issuer Country Code (alpha3 format)"@),
        (tag.len() == 2 && tag[0] == 0x5Fu8 && tag[1] == 0x57u8) ==> spec_tag_name(tag) == Some("Account Type"@),
        (tag.len() == 1 && tag[0] == 0x61u8) ==> spec_tag_name(tag) == Some("Application Template"@),
        (tag.len() == 1 && tag[0] == 0x6Fu8) ==> spec_tag_name(tag) == Some("File Control Information (FCI) Template"@),
        (tag.len() == 1 && tag[0] == 0x70u8) ==> spec_tag_name(tag) == Some("READ RECORD Response Message Template"@),
        (tag.len() == 1 && tag[0] == 0x71u8) ==> spec_tag_name(tag) == Some("Issuer Script Template 1"@),
        (tag.len() == 1 && tag[0] == 0x72u8) ==> spec_tag_name(tag) == Some("Issuer Script Template 2"@),
        (tag.len() == 1 && tag[0] == 0x73u8) ==> spec_tag_name(tag) == Some("Directory Discretionary Template"@),
        (tag.len() == 1 && tag[0] == 0x77u8) ==> spec_tag_name(tag) == Some("Response Message Template Format 2"@),
        (tag.len() == 1 && tag[0] == 0x80u8) ==> spec_tag_name(tag) == Some("Response Message Template Format 1"@),
        (tag.len() == 1 && tag[0] == 0x81u8) ==> spec_tag_name(tag) == Some("Amount, Authorised (Binary)"@),
        (tag.len() == 1 && tag[0] == 0x82u8) ==> spec_tag_name(tag) == Some("Application Interchange Profile"@),
        (tag.len() == 1 && tag[0] == 0x83u8) ==> spec_tag_name(tag) == Some("Command Template"@),
        (tag.len() == 1 && tag[0] == 0x84u8) ==> spec_tag_name(tag) == Some("Dedicated File (DF) Name"@),
        (tag.len() == 1 && tag[0] == 0x86u8) ==> spec_tag_name(tag) == Some("Issuer Script Command"@),
        (tag.len() == 1 && tag[0] == 0x87u8) ==> spec_tag_name(tag) == Some("Application Priority Indicator"@),
        (tag.len() == 1 && tag[0] == 0x88u8) ==> spec_tag_name(tag) == Some("Short File Identifier (SFI)"@),
        (tag.len() == 1 && tag[0] == 0x89u8) ==> spec_tag_name(tag) == Some("Authorisation Code"@),
        (tag.len() == 1 && tag[0] == 0x8Au8) ==> spec_tag_name(tag) == Some("Authorisation Response Code"@),
        (tag.len() == 1 && tag[0] == 0x8Cu8) ==> spec_tag_name(tag) == Some("Card Risk Management Data Object List 1 (CDOL1)"@),
        (tag.len() == 1 && tag[0] == 0x8Du8) ==> spec_tag_name(tag) == Some("Card Risk Management Data Object List 2 (CDOL2)"@),
        (tag.len() == 1 && tag[0] == 0x8Eu8) ==> spec_tag_name(tag) == Some("CVM List"@),
        (tag.len() == 1 && tag[0] == 0x8Fu8) ==> spec_tag_name(tag) == Some("Certification Authority Public Key Index (ICC)"@),
        (tag.len() == 1 && tag[0] == 0x90u8) ==> spec_tag_name(tag) == Some("Issuer Public Key Certificate"@),
        (tag.len() == 1 && tag[0] == 0x91u8) ==> spec_tag_name(tag) == Some("Issuer Authentication Data"@),
        (tag.len() == 1 && tag[0] == 0x92u8) ==> spec_tag_name(tag) == Some("Issuer Public Key Remainder"@),
        (tag.len() == 1 && tag[0] == 0x93u8) ==> spec_tag_name(tag) == Some("Signed Static Application Data"@),
        (tag.len() == 1 && tag[0] == 0x94u8) ==> spec_tag_name(tag) == Some("Application File Locator (AFL)"@),
        (tag.len() == 1 && tag[0] == 0x95u8) ==> spec_tag_name(tag) == Some("Terminal Verification Results (TVR)"@),
        (tag.len() == 1 && tag[0] == 0x97u8) ==> spec_tag_name(tag) == Some("Transaction Certificate Data Object List (TDOL)"@),
        (tag.len() == 1 && tag[0] == 0x98u8) ==> spec_tag_name(tag) == Some("Transaction Certificate (TC) Hash Value"@),
        (tag.len() == 1 && tag[0] == 0x99u8) ==> spec_tag_name(tag) == Some("Transaction PIN Data"@),
        (tag.len() == 1 && tag[0] == 0x9Au8) ==> spec_tag_name(tag) == Some("Transaction Date"@),
        (tag.len() == 1 && tag[0] == 0x9Bu8) ==> spec_tag_name(tag) == Some("Transaction Status Information (TSI)"@),
        (tag.len() == 1 && tag[0] == 0x9Cu8) ==> spec_tag_name(tag) == Some("Transaction Type"@),
        (tag.len() == 1 && tag[0] == 0x9Du8) ==> spec_tag_name(tag) == Some("Directory Definition File (DDF) Name"@),
        (tag.len() == 2 && tag[0] == 0x9Fu8 && tag[1] == 0x01u8) ==> spec_tag_name(tag) == Some("Acquirer Identifier"@),
        (tag.len() == 2 && tag[0] == 0x9Fu8 && tag[1] == 0x02u8) ==> spec_tag_name(tag) == Some("Amount, Authorised (Numeric)"@),
        (tag.len() == 2 && tag[0] == 0x9Fu8 && tag[1] == 0x03u8) ==> spec_tag_name(tag) == Some("Amount, Other (Numeric)"@),
        (tag.len() == 2 && tag[0] == 0x9Fu8 && tag[1] == 0x04u8) ==> spec_tag_name(tag) == Some("Amount, Other (Binary)"@),
        (tag.len() == 2 && tag[0] == 0x9Fu8 && tag[1] == 0x05u8) ==> spec_tag_name(tag) == Some("Application Discretionary Data"@),
        (tag.len() == 2 && tag[0] == 0x9Fu8 && tag[1] == 0x06u8) ==> spec_tag_name(tag) == Some("Application Identifier (AID)"@),
        (tag.len() == 2 && tag[0] == 0x9Fu8 && tag[1] == 0x07u8) ==> spec_tag_name(tag) == Some("Application Usage Control"@),
        (tag.len() == 2 && tag[0] == 0x9Fu8 && tag[1] == 0x08u8) ==> spec_tag_name(tag) == Some("Application Version Number (ICC)"@),
        (tag.len() == 2 && tag[0] == 0x9Fu8 && tag[1] == 0x09u8) ==> spec_tag_name(tag) == Some("Application Version Number (Terminal)"@),
        (tag.len() == 2 && tag[0] == 0x9Fu8 && tag[1] == 0x0Bu8) ==> spec_tag_name(tag) == Some("Cardholder Name Extended"@),
        (tag.len() == 2 && tag[0] == 0x9Fu8 && tag[1] == 0x0Du8) ==> spec_tag_name(tag) == Some("Issuer Action Code - Default"@),
        (tag.len() == 2 && tag[0] == 0x9Fu8 && tag[1] == 0x0Eu8) ==> spec_tag_name(tag) == Some("Issuer Action Code - Denial"@),
        (tag.len() == 2 && tag[0] == 0x9Fu8 && tag[1] == 0x0Fu8) ==> spec_tag_name(tag) == Some("Issuer Action Code - Online"@),
        (tag.len() == 2 && tag[0] == 0x9Fu8 && tag[1] == 0x10u8) ==> spec_tag_name(tag) == Some("Issuer Application Data (CCD-Compliant)"@),
        (tag.len() == 2 && tag[0] == 0x9Fu8 && tag[1] == 0x11u8) ==> spec_tag_name(tag) == Some("Issuer Code Table Index"@),
        (tag.len() == 2 && tag[0] == 0x9Fu8 && tag[1] == 0x12u8) ==> spec_tag_name(tag) == Some("Application Preferred Name"@),
        (tag.len() == 2 && tag[0] == 0x9Fu8 && tag[1] == 0x13u8) ==> spec_tag_name(tag) == Some("Last Online Application Transaction Counter (ATC) Register"@),
        (tag.len() == 2 && tag[0] == 0x9Fu8 && tag[1] == 0x14u8) ==> spec_tag_name(tag) == Some("Lower Consecutive Offline Limit"@),
        (tag.len() == 2 && tag[0] == 0x9Fu8 && tag[1] == 0x15u8) ==> spec_tag_name(tag) == Some("Merchant Category Code"@),
        (tag.len() == 2 && tag[0] == 0x9Fu8 && tag[1] == 0x16u8) ==> spec_tag_name(tag) == Some("Merchant Identifier"@),
        (tag.len() == 2 && tag[0] == 0x9Fu8 && tag[1] == 0x17u8) ==> spec_tag_name(tag) == Some("PIN Try Counter"@),
        (tag.len() == 2 && tag[0] == 0x9Fu8 && tag[1] == 0x18u8) ==> spec_tag_name(tag) == Some("Issuer Script Identifier"@),
        (tag.len() == 2 && tag[0] == 0x9Fu8 && tag[1] == 0x1Au8) ==> spec_tag_name(tag) == Some("Terminal Country Code"@),
        (tag.len() == 2 && tag[0] == 0x9Fu8 && tag[1] == 0x1Bu8) ==> spec_tag_name(tag) == Some("Terminal Floor Limit"@),
        (tag.len() == 2 && tag[0] == 0x9Fu8 && tag[1] == 0x1Cu8) ==> spec_tag_name(tag) == Some("Terminal Identification"@),
        (tag.len() == 2 && tag[0] == 0x9Fu8 && tag[1] == 0x1Du8) ==> spec_tag_name(tag) == Some("Terminal Risk Management Data"@),
        (tag.len() == 2 && tag[0] == 0x9Fu8 && tag[1] == 0x1Eu8) ==> spec_tag_name(tag) == Some("Interface Device (IFD/Terminal) Serial Number"@),
        (tag.len() == 2 && tag[0] == 0x9Fu8 && tag[1] == 0x1Fu8) ==> spec_tag_name(tag) == Some("Track 1 Discretionary Data"@),
        (tag.len() == 2 && tag[0] == 0x9Fu8 && tag[1] == 0x20u8) ==> spec_tag_name(tag) == Some("Track 2 Discretionary Data"@),
        (tag.len() == 2 && tag[0] == 0x9Fu8 && tag[1] == 0x21u8) ==> spec_tag_name(tag) == Some("Transaction Time"@),
        (tag.len() == 2 && tag[0] == 0x9Fu8 && tag[1] == 0x22u8) ==> spec_tag_name(tag) == Some("Certification Authority Public Key Index (Terminal)"@),
        (tag.len() == 2 && tag[0] == 0x9Fu8 && tag[1] == 0x23u8) ==> spec_tag_name(tag) == Some("Upper Consecutive Offline Limit"@),
        (tag.len() == 2 && tag[0] == 0x9Fu8 && tag[1] == 0x26u8) ==> spec_tag_name(tag) == Some("Application Cryptogram"@),
        (tag.len() == 2 && tag[0] == 0x9Fu8 && tag[1] == 0x27u8) ==> spec_tag_name(tag) == Some("Cryptogram Information Data (CID)"@),
        (tag.len() == 2 && tag[0] == 0x9Fu8 && tag[1] == 0x2Du8) ==> spec_tag_name(tag) == Some("ICC PIN Encipherment Public Key Certificate"@),
        (tag.len() == 2 && tag[0] == 0x9Fu8 && tag[1] == 0x2Eu8) ==> spec_tag_name(tag) == Some("ICC PIN Encipherment Public Key Exponent"@),
        (tag.len() == 2 && tag[0] == 0x9Fu8 && tag[1] == 0x2Fu8) ==> spec_tag_name(tag) == Some("ICC PIN Encipherment Public Key Remainder"@),
        (tag.len() == 2 && tag[0] == 0x9Fu8 && tag[1] == 0x32u8) ==> spec_tag_name(tag) == Some("Issuer Public Key Exponent"@),
        (tag.len() == 2 && tag[0] == 0x9Fu8 && tag[1] == 0x33u8) ==> spec_tag_name(tag) == Some("Terminal Capabilities"@),
        (tag.len() == 2 && tag[0] == 0x9Fu8 && tag[1] == 0x34u8) ==> spec_tag_name(tag) == Some("CVM Results"@),
        (tag.len() == 2 && tag[0] == 0x9Fu8 && tag[1] == 0x35u8) ==> spec_tag_name(tag) == Some("Terminal Type"@),
        (tag.len() == 2 && tag[0] == 0x9Fu8 && tag[1] == 0x36u8) ==> spec_tag_name(tag) == Some("Application Transaction Counter (ATC)"@),
        (tag.len() == 2 && tag[0] == 0x9Fu8 && tag[1] == 0x37u8) ==> spec_tag_name(tag) == Some("Unpredictable Number"@),
        (tag.len() == 2 && tag[0] == 0x9Fu8 && tag[1] == 0x38u8) ==> spec_tag_name(tag) == Some("Processing Options Data Object List (PDOL)"@),
        (tag.len() == 2 && tag[0] == 0x9Fu8 && tag[1] == 0x39u8) ==> spec_tag_name(tag) == Some("POS Entry Mode"@),
        (tag.len() == 2 && tag[0] == 0x9Fu8 && tag[1] == 0x3Au8) ==> spec_tag_name(tag) == Some("Amount, Reference Currency (Binary)"@),
        (tag.len() == 2 && tag[0] == 0x9Fu8 && tag[1] == 0x3Bu8) ==> spec_tag_name(tag) == Some("Application Reference Currency"@),
        (tag.len() == 2 && tag[0] == 0x9Fu8 && tag[1] == 0x3Cu8) ==> spec_tag_name(tag) == Some("Transaction Reference Currency Code"@),
        (tag.len() == 2 && tag[0] == 0x9Fu8 && tag[1] == 0x3Du8) ==> spec_tag_name(tag) == Some("Transaction Reference Currency Exponent"@),
        (tag.len() == 2 && tag[0] == 0x9Fu8 && tag[1] == 0x40u8) ==> spec_tag_name(tag) == Some("Additional Terminal Capabilities"@),
        (tag.len() == 2 && tag[0] == 0x9Fu8 && tag[1] == 0x41u8) ==> spec_tag_name(tag) == Some("Transaction Sequence Counter"@),
        (tag.len() == 2 && tag[0] == 0x9Fu8 && tag[1] == 0x42u8) ==> spec_tag_name(tag) == Some("Application Currency Code"@),
        (tag.len() == 2 && tag[0] == 0x9Fu8 && tag[1] == 0x43u8) ==> spec_tag_name(tag) == Some("Application Reference Currency Exponent"@),
        (tag.len() == 2 && tag[0] == 0x9Fu8 && tag[1] == 0x44u8) ==> spec_tag_name(tag) == Some("Application Currency Exponent"@),
        (tag.len() == 2 && tag[0] == 0x9Fu8 && tag[1] == 0x45u8) ==> spec_tag_name(tag) == Some("Data Authentication Code"@),
        (tag.len() == 2 && tag[0] == 0x9Fu8 && tag[1] == 0x46u8) ==> spec_tag_name(tag) == Some("ICC Public Key Certificate"@),
        (tag.len() == 2 && tag[0] == 0x9Fu8 && tag[1] == 0x47u8) ==> spec_tag_name(tag) == Some("ICC Public Key Exponent"@),
        (tag.len() == 2 && tag[0] == 0x9Fu8 && tag[1] == 0x48u8) ==> spec_tag_name(tag) == Some("ICC Public Key Remainder"@),
        (tag.len() == 2 && tag[0] == 0x9Fu8 && tag[1] == 0x49u8) ==> spec_tag_name(tag) == Some("Dynamic Data Authentication Data Object List (DDOL)"@),
        (tag.len() == 2 && tag[0] == 0x9Fu8 && tag[1] == 0x4Au8) ==> spec_tag_name(tag) == Some("Static Data Authentication Tag List"@),
        (tag.len() == 2 && tag[0] == 0x9Fu8 && tag[1] == 0x4Bu8) ==> spec_tag_name(tag) == Some("Signed Dynamic Application Data"@),
        (tag.len() == 2 && tag[0] == 0x9Fu8 && tag[1] == 0x4Cu8) ==> spec_tag_name(tag) == Some("ICC Dynamic Number"@),
        (tag.len() == 2 && tag[0] == 0x9Fu8 && tag[1] == 0x4Du8) ==> spec_tag_name(tag) == Some("Log Entry"@),
        (tag.len() == 2 && tag[0] == 0x9Fu8 && tag[1] == 0x4Eu8) ==> spec_tag_name(tag) == Some("Merchant Name and Location"@),
        (tag.len() == 2 && tag[0] == 0x9Fu8 && tag[1] == 0x4Fu8) ==> spec_tag_name(tag) == Some("Log Format"@),
        (tag.len() == 1 && tag[0] == 0xA5u8) ==> spec_tag_name(tag) == Some("File Control Information (FCI) Proprietary Template"@),
        (tag.len() == 2 && tag[0] == 0xBFu8 && tag[1] == 0x0Cu8) ==> spec_tag_name(tag) == Some("File Control Information (FCI) Issuer Discretionary Data"@),
        !((tag.len() == 1 && tag[0] == 0x42u8) || (tag.len() == 1 && tag[0] == 0x4Fu8) || (tag.len() == 1 && tag[0] == 0x50u8) || (tag.len() == 1 && tag[0] == 0x57u8) || (tag.len() == 1 && tag[0] == 0x5Au8) || (tag.len() == 2 && tag[0] == 0x5Fu8 && tag[1] == 0x20u8) || (tag.len() == 2 && tag[0] == 0x5Fu8 && tag[1] == 0x24u8) || (tag.len() == 2 && tag[0] == 0x5Fu8 && tag[1] == 0x25u8) || (tag.len() == 2 && tag[0] == 0x5Fu8 && tag[1] == 0x28u8) || (tag.len() == 2 && tag[0] == 0x5Fu8 && tag[1] == 0x2Au8) || (tag.len() == 2 && tag[0] == 0x5Fu8 && tag[1] == 0x2Du8) || (tag.len() == 2 && tag[0] == 0x5Fu8 && tag[1] == 0x30u8) || (tag.len() == 2 && tag[0] == 0x5Fu8 && tag[1] == 0x34u8) || (tag.len() == 2 && tag[0] == 0x5Fu8 && tag[1] == 0x36u8) || (tag.len() == 2 && tag[0] == 0x5Fu8 && tag[1] == 0x50u8) || (tag.len() == 2 && tag[0] == 0x5Fu8 && tag[1] == 0x53u8) || (tag.len() == 2 && tag[0] == 0x5Fu8 && tag[1] == 0x54u8) || (tag.len() == 2 && tag[0] == 0x5Fu8 && tag[1] == 0x55u8) || (tag.len() == 2 && tag[0] == 0x5Fu8 && tag[1] == 0x56u8) || (tag.len() == 2 && tag[0] == 0x5Fu8 && tag[1] == 0x57u8) || (tag.len() == 1 && tag[0] == 0x61u8) || (tag.len() == 1 && tag[0] == 0x6Fu8) || (tag.len() == 1 && tag[0] == 0x70u8) || (tag.len() == 1 && tag[0] == 0x71u8) || (tag.len() == 1 && tag[0] == 0x72u8) || (tag.len() == 1 && tag[0] == 0x73u8) || (tag.len() == 1 && tag[0] == 0x77u8) || (tag.len() == 1 && tag[0] == 0x80u8) || (tag.len() == 1 && tag[0] == 0x81u8) || (tag.len() == 1 && tag[0] == 0x82u8) || (tag.len() == 1 && tag[0] == 0x83u8) || (tag.len() == 1 && tag[0] == 0x84u8) || (tag.len() == 1 && tag[0] == 0x86u8) || (tag.len() == 1 && tag[0] == 0x87u8) || (tag.len() == 1 && tag[0] == 0x88u8) || (tag.len() == 1 && tag[0] == 0x89u8) || (tag.len() == 1 && tag[0] == 0x8Au8) || (tag.len() == 1 && tag[0] == 0x8Cu8) || (tag.len() == 1 && tag[0] == 0x8Du8) || (tag.len() == 1 && tag[0] == 0x8Eu8) || (tag.len() == 1 && tag[0] == 0x8Fu8) || (tag.len() == 1 && tag[0] == 0x90u8) || (tag.len() == 1 && tag[0] == 0x91u8) || (tag.len() == 1 && tag[0] == 0x92u8) || (tag.len() == 1 && tag[0] == 0x93u8) || (tag.len() == 1 && tag[0] == 0x94u8) || (tag.len() == 1 && tag[0] == 0x95u8) || (tag.len() == 1 && tag[0] == 0x97u8) || (tag.len() == 1 && tag[0] == 0x98u8) || (tag.len() == 1 && tag[0] == 0x99u8) || (tag.len() == 1 && tag[0] == 0x9Au8) || (tag.len() == 1 && tag[0] == 0x9Bu8) || (tag.len() == 1 && tag[0] == 0x9Cu8) || (tag.len() == 1 && tag[0] == 0x9Du8) || (tag.len() == 2 && tag[0] == 0x9Fu8 && tag[1] == 0x01u8) || (tag.len() == 2 && tag[0] == 0x9Fu8 && tag[1] == 0x02u8) || (tag.len() == 2 && tag[0] == 0x9Fu8 && tag[1] == 0x03u8) || (tag.len() == 2 && tag[0] == 0x9Fu8 && tag[1] == 0x04u8) || (tag.len() == 2 && tag[0] == 0x9Fu8 && tag[1] == 0x05u8) || (tag.len() == 2 && tag[0] == 0x9Fu8 && tag[1] == 0x06u8) || (tag.len() == 2 && tag[0] == 0x9Fu8 && tag[1] == 0x07u8) || (tag.len() == 2 && tag[0] == 0x9Fu8 && tag[1] == 0x08u8) || (tag.len() == 2 && tag[0] == 0x9Fu8 && tag[1] == 0x09u8) || (tag.len() == 2 && tag[0] == 0x9Fu8 && tag[1] == 0x0Bu8) || (tag.len() == 2 && tag[0] == 0x9Fu8 && tag[1] == 0x0Du8) || (tag.len() == 2 && tag[0] == 0x9Fu8 && tag[1] == 0x0Eu8) || (tag.len() == 2 && tag[0] == 0x9Fu8 && tag[1] == 0x0Fu8) || (tag.len() == 2 && tag[0] == 0x9Fu8 && tag[1] == 0x10u8) || (tag.len() == 2 && tag[0] == 0x9Fu8 && tag[1] == 0x11u8) || (tag.len() == 2 && tag[0] == 0x9Fu8 && tag[1] == 0x12u8) || (tag.len() == 2 && tag[0] == 0x9Fu8 && tag[1] == 0x13u8) || (tag.len() == 2 && tag[0] == 0x9Fu8 && tag[1] == 0x14u8) || (tag.len() == 2 && tag[0] == 0x9Fu8 && tag[1] == 0x15u8) || (tag.len() == 2 && tag[0] == 0x9Fu8 && tag[1] == 0x16u8) || (tag.len() == 2 && tag[0] == 0x9Fu8 && tag[1] == 0x17u8) || (tag.len() == 2 && tag[0] == 0x9Fu8 && tag[1] == 0x18u8) || (tag.len() == 2 && tag[0] == 0x9Fu8 && tag[1] == 0x1Au8) || (tag.len() == 2 && tag[0] == 0x9Fu8 && tag[1] == 0x1Bu8) || (tag.len() == 2 && tag[0] == 0x9Fu8 && tag[1] == 0x1Cu8) || (tag.len() == 2 && tag[0] == 0x9Fu8 && tag[1] == 0x1Du8) || (tag.len() == 2 && tag[0] == 0x9Fu8 && tag[1] == 0x1Eu8) || (tag.len() == 2 && tag[0] == 0x9Fu8 && tag[1] == 0x1Fu8) || (tag.len() == 2 && tag[0] == 0x9Fu8 && tag[1] == 0x20u8) || (tag.len() == 2 && tag[0] == 0x9Fu8 && tag[1] == 0x21u8) || (tag.len() == 2 && tag[0] == 0x9Fu8 && tag[1] == 0x22u8) || (tag.len() == 2 && tag[0] == 0x9Fu8 && tag[1] == 0x23u8) || (tag.len() == 2 && tag[0] == 0x9Fu8 && tag[1] == 0x26u8) || (tag.len() == 2 && tag[0] == 0x9Fu8 && tag[1] == 0x27u8) || (tag.len() == 2 && tag[0] == 0x9Fu8 && tag[1] == 0x2Du8) || (tag.len() == 2 && tag[0] == 0x9Fu8 && tag[1] == 0x2Eu8) || (tag.len() == 2 && tag[0] == 0x9Fu8 && tag[1] == 0x2Fu8) || (tag.len() == 2 && tag[0] == 0x9Fu8 && tag[1] == 0x32u8) || (tag.len() == 2 && tag[0] == 0x9Fu8 && tag[1] == 0x33u8) || (tag.len() == 2 && tag[0] == 0x9Fu8 && tag[1] == 0x34u8) || (tag.len() == 2 && tag[0] == 0x9Fu8 && tag[1] == 0x35u8) || (tag.len() == 2 && tag[0] == 0x9Fu8 && tag[1] == 0x36u8) || (tag.len() == 2 && tag[0] == 0x9Fu8 && tag[1] == 0x37u8) || (tag.len() == 2 && tag[0] == 0x9Fu8 && tag[1] == 0x38u8) || (tag.len() == 2 && tag[0] == 0x9Fu8 && tag[1] == 0x39u8) || (tag.len() == 2 && tag[0] == 0x9Fu8 && tag[1] == 0x3Au8) || (tag.len() == 2 && tag[0] == 0x9Fu8 && tag[1] == 0x3Bu8) || (tag.len() == 2 && tag[0] == 0x9Fu8 && tag[1] == 0x3Cu8) || (tag.len() == 2 && tag[0] == 0x9Fu8 && tag[1] == 0x3Du8) || (tag.len() == 2 && tag[0] == 0x9Fu8 && tag[1] == 0x40u8) || (tag.len() == 2 && tag[0] == 0x9Fu8 && tag[1] == 0x41u8) || (tag.len() == 2 && tag[0] == 0x9Fu8 && tag[1] == 0x42u8) || (tag.len() == 2 && tag[0] == 0x9Fu8 && tag[1] == 0x43u8) || (tag.len() == 2 && tag[0] == 0x9Fu8 && tag[1] == 0x44u8) || (tag.len() == 2 && tag[0] == 0x9Fu8 && tag[1] == 0x45u8) || (tag.len() == 2 && tag[0] == 0x9Fu8 && tag[1] == 0x46u8) || (tag.len() == 2 && tag[0] == 0x9Fu8 && tag[1] == 0x47u8) || (tag.len() == 2 && tag[0] == 0x9Fu8 && tag[1] == 0x48u8) || (tag.len() == 2 && tag[0] == 0x9Fu8 && tag[1] == 0x49u8) || (tag.len() == 2 && tag[0] == 0x9Fu8 && tag[1] == 0x4Au8) || (tag.len() == 2 && tag[0] == 0x9Fu8 && tag[1] == 0x4Bu8) || (tag.len() == 2 && tag[0] == 0x9Fu8 && tag[1] == 0x4Cu8) || (tag.len() == 2 && tag[0] == 0x9Fu8 && tag[1] == 0x4Du8) || (tag.len() == 2 && tag[0] == 0x9Fu8 && tag[1] == 0x4Eu8) || (tag.len() == 2 && tag[0] == 0x9Fu8 && tag[1] == 0x4Fu8) || (tag.len() == 1 && tag[0] == 0xA5u8) || (tag.len() == 2 && tag[0] == 0xBFu8 && tag[1] == 0x0Cu8)) ==> spec_tag_name(tag) is None,
{
}

/// Different tags have different names.
pub proof fn lemma_tag_names_distinct(a: Seq<u8>, b: Seq<u8>)
    requires
        spec_tag_name(a) is Some,
        spec_tag_name(a) == spec_tag_name(b),
    ensures
        a == b,
{
    lemma_tag_of_its_name(a);
    lemma_tag_of_its_name(b);
}

/// Identifies a tag by its identifier bytes: the first step of tag
/// processing, which can be used on its own.
pub fn identify_tag(tag: &[u8]) -> (name: Option<&'static str>)
    ensures
        name_view(name) == spec_tag_name(tag@),
{
    if tag.len() == 1 {
        one_byte_tag_name_of(tag[0])
    } else if tag.len() == 2 && tag[0] == 0x5Fu8 {
        tag_5f_name_of(tag[1])
    } else if tag.len() == 2 && tag[0] == 0x9Fu8 {
        tag_9f_name_of(tag[1])
    } else if tag.len() == 2 && tag[0] == 0xBFu8 && tag[1] == 0x0Cu8 {
        Some("File Control Information (FCI) Issuer Discretionary Data")
    } else {
        None
    }
}

/// The values that tags can be parsed into.
pub enum ValueKind {
    ServiceCode,
    AuthorisationResponseCode,
    CardholderVerificationMethodList,
    TerminalVerificationResults,
    TransactionStatusInformation,
    TransactionType,
    IssuerActionCodeDefault,
    IssuerActionCodeDenial,
    IssuerActionCodeOnline,
    IssuerApplicationData,
    TerminalCapabilities,
    CardholderVerificationMethodResults,
    TerminalType,
    PosEntryMode,
    AdditionalTerminalCapabilities,
}

/// The kind of value a tag holds, for the tags whose values can be parsed.
pub open spec fn spec_value_kind(tag: Seq<u8>) -> Option<ValueKind> {
    if tag.len() == 1 {
        if tag[0] == 0x8Au8 {
            Some(ValueKind::AuthorisationResponseCode)
        } else if tag[0] == 0x8Eu8 {
            Some(ValueKind::CardholderVerificationMethodList)
        } else if tag[0] == 0x95u8 {
            Some(ValueKind::TerminalVerificationResults)
        } else if tag[0] == 0x9Bu8 {
            Some(ValueKind::TransactionStatusInformation)
        } else if tag[0] == 0x9Cu8 {
            Some(ValueKind::TransactionType)
        } else {
            None
        }
    } else if tag.len() == 2 && tag[0] == 0x5Fu8 && tag[1] == 0x30u8 {
        Some(ValueKind::ServiceCode)
    } else if tag.len() == 2 && tag[0] == 0x9Fu8 {
        if tag[1] == 0x0Du8 {
            Some(ValueKind::IssuerActionCodeDefault)
        } else if tag[1] == 0x0Eu8 {
            Some(ValueKind::IssuerActionCodeDenial)
        } else if tag[1] == 0x0Fu8 {
            Some(ValueKind::IssuerActionCodeOnline)
        } else if tag[1] == 0x10u8 {
            Some(ValueKind::IssuerApplicationData)
        } else if tag[1] == 0x33u8 {
            Some(ValueKind::TerminalCapabilities)
        } else if tag[1] == 0x34u8 {
            Some(ValueKind::CardholderVerificationMethodResults)
        } else if tag[1] == 0x35u8 {
            Some(ValueKind::TerminalType)
        } else if tag[1] == 0x39u8 {
            Some(ValueKind::PosEntryMode)
        } else if tag[1] == 0x40u8 {
            Some(ValueKind::AdditionalTerminalCapabilities)
        } else {
            None
        }
    } else {
        None
    }
}

/// The kind of value a tag holds, for the tags whose values can be parsed.
pub fn value_kind(tag: &[u8]) -> (kind: Option<ValueKind>)
    ensures
        kind == spec_value_kind(tag@),
{
    if tag.len() == 1 {
        match tag[0] {
            0x8A => Some(ValueKind::AuthorisationResponseCode),
            0x8E => Some(ValueKind::CardholderVerificationMethodList),
            0x95 => Some(ValueKind::TerminalVerificationResults),
            0x9B => Some(ValueKind::TransactionStatusInformation),
            0x9C => Some(ValueKind::TransactionType),
            _ => None,
        }
    } else if tag.len() == 2 && tag[0] == 0x5Fu8 && tag[1] == 0x30u8 {
        Some(ValueKind::ServiceCode)
    } else if tag.len() == 2 && tag[0] == 0x9Fu8 {
        match tag[1] {
            0x0D => Some(ValueKind::IssuerActionCodeDefault),
            0x0E => Some(ValueKind::IssuerActionCodeDenial),
            0x0F => Some(ValueKind::IssuerActionCodeOnline),
            0x10 => Some(ValueKind::IssuerApplicationData),
            0x33 => Some(ValueKind::TerminalCapabilities),
            0x34 => Some(ValueKind::CardholderVerificationMethodResults),
            0x35 => Some(ValueKind::TerminalType),
            0x39 => Some(ValueKind::PosEntryMode),
            0x40 => Some(ValueKind::AdditionalTerminalCapabilities),
            _ => None,
        }
    } else {
        None
    }
}

/// A parsed value of a tag.
pub enum ParsedValue {
    ServiceCode(ServiceCode),
    AuthorisationResponseCode(AuthorisationResponseCode),
    CardholderVerificationMethodList(CardholderVerificationMethodList),
    TerminalVerificationResults(TerminalVerificationResults),
    TransactionStatusInformation(TransactionStatusInformation),
    TransactionType(TransactionType),
    IssuerActionCodeDefault(IssuerActionCodeDefault),
    IssuerActionCodeDenial(IssuerActionCodeDenial),
    IssuerActionCodeOnline(IssuerActionCodeOnline),
    IssuerApplicationData(IssuerApplicationData),
    TerminalCapabilities(TerminalCapabilities),
    CardholderVerificationMethodResults(CardholderVerificationMethodResults),
    TerminalType(TerminalType),
    PosEntryMode(PosEntryMode),
    AdditionalTerminalCapabilities(AdditionalTerminalCapabilities),
}

/// The model of a [`ParsedValue`].
pub enum ParsedModel {
    ServiceCode(ServiceCode),
    AuthorisationResponseCode(AuthorisationResponseCode),
    CardholderVerificationMethodList(CvmListModel),
    TerminalVerificationResults(TerminalVerificationResults),
    TransactionStatusInformation(TransactionStatusInformation),
    TransactionType(TransactionType),
    IssuerActionCodeDefault(IssuerActionCodeDefault),
    IssuerActionCodeDenial(IssuerActionCodeDenial),
    IssuerActionCodeOnline(IssuerActionCodeOnline),
    IssuerApplicationData(IadModel),
    TerminalCapabilities(TerminalCapabilities),
    CardholderVerificationMethodResults(CardholderVerificationMethodResults),
    TerminalType(TerminalType),
    PosEntryMode(PosEntryMode),
    AdditionalTerminalCapabilities(AdditionalTerminalCapabilities),
}

impl View for ParsedValue {
    type V = ParsedModel;

    open spec fn view(&self) -> ParsedModel {
        match self {
            ParsedValue::ServiceCode(v) => ParsedModel::ServiceCode(*v),
            ParsedValue::AuthorisationResponseCode(v) => ParsedModel::AuthorisationResponseCode(*v),
            ParsedValue::CardholderVerificationMethodList(v) => ParsedModel::CardholderVerificationMethodList(v@),
            ParsedValue::TerminalVerificationResults(v) => ParsedModel::TerminalVerificationResults(*v),
            ParsedValue::TransactionStatusInformation(v) => ParsedModel::TransactionStatusInformation(*v),
            ParsedValue::TransactionType(v) => ParsedModel::TransactionType(*v),
            ParsedValue::IssuerActionCodeDefault(v) => ParsedModel::IssuerActionCodeDefault(*v),
            ParsedValue::IssuerActionCodeDenial(v) => ParsedModel::IssuerActionCodeDenial(*v),
            ParsedValue::IssuerActionCodeOnline(v) => ParsedModel::IssuerActionCodeOnline(*v),
            ParsedValue::IssuerApplicationData(v) => ParsedModel::IssuerApplicationData(v@),
            ParsedValue::TerminalCapabilities(v) => ParsedModel::TerminalCapabilities(*v),
            ParsedValue::CardholderVerificationMethodResults(v) => ParsedModel::CardholderVerificationMethodResults(*v),
            ParsedValue::TerminalType(v) => ParsedModel::TerminalType(*v),
            ParsedValue::PosEntryMode(v) => ParsedModel::PosEntryMode(*v),
            ParsedValue::AdditionalTerminalCapabilities(v) => ParsedModel::AdditionalTerminalCapabilities(*v),
        }
    }
}

/// Wraps the value of a successful result.
pub open spec fn map_ok<T>(result: Result<T, ParseError>, wrap: spec_fn(T) -> ParsedModel) -> Result<ParsedModel, ParseError> {
    match result {
        Ok(value) => Ok(wrap(value)),
        Err(error) => Err(error),
    }
}

/// Parsing the data of a tag into the value of its kind.
pub open spec fn spec_parse_value(kind: ValueKind, data: Seq<u8>) -> Result<ParsedModel, ParseError> {
    match kind {
        ValueKind::ServiceCode => map_ok(ServiceCode::spec_try_from_bytes(data), |v| ParsedModel::ServiceCode(v)),
        ValueKind::AuthorisationResponseCode => map_ok(
            AuthorisationResponseCode::spec_try_from_bytes(data),
            |v| ParsedModel::AuthorisationResponseCode(v),
        ),
        ValueKind::CardholderVerificationMethodList => map_ok(
            spec_cvm_list(data),
            |v| ParsedModel::CardholderVerificationMethodList(v),
        ),
        ValueKind::TerminalVerificationResults => map_ok(
            TerminalVerificationResults::spec_try_from(data),
            |v| ParsedModel::TerminalVerificationResults(v),
        ),
        ValueKind::TransactionStatusInformation => map_ok(
            TransactionStatusInformation::spec_try_from(data),
            |v| ParsedModel::TransactionStatusInformation(v),
        ),
        ValueKind::TransactionType => map_ok(TransactionType::spec_try_from_bytes(data), |v| ParsedModel::TransactionType(v)),
        ValueKind::IssuerActionCodeDefault => map_ok(
            IssuerActionCodeDefault::spec_try_from(data),
            |v| ParsedModel::IssuerActionCodeDefault(v),
        ),
        ValueKind::IssuerActionCodeDenial => map_ok(
            IssuerActionCodeDenial::spec_try_from(data),
            |v| ParsedModel::IssuerActionCodeDenial(v),
        ),
        ValueKind::IssuerActionCodeOnline => map_ok(
            IssuerActionCodeOnline::spec_try_from(data),
            |v| ParsedModel::IssuerActionCodeOnline(v),
        ),
        ValueKind::IssuerApplicationData => map_ok(spec_parse_iad(data), |v| ParsedModel::IssuerApplicationData(v)),
        ValueKind::TerminalCapabilities => map_ok(
            TerminalCapabilities::spec_try_from(data),
            |v| ParsedModel::TerminalCapabilities(v),
        ),
        ValueKind::CardholderVerificationMethodResults => map_ok(
            CardholderVerificationMethodResults::spec_try_from(data),
            |v| ParsedModel::CardholderVerificationMethodResults(v),
        ),
        ValueKind::TerminalType => map_ok(TerminalType::spec_try_from_bytes(data), |v| ParsedModel::TerminalType(v)),
        ValueKind::PosEntryMode => map_ok(PosEntryMode::spec_try_from_bytes(data), |v| ParsedModel::PosEntryMode(v)),
        ValueKind::AdditionalTerminalCapabilities => map_ok(
            AdditionalTerminalCapabilities::spec_try_from(data),
            |v| ParsedModel::AdditionalTerminalCapabilities(v),
        ),
    }
}

/// The model of a parsing result.
pub open spec fn parsed_result_model(result: Result<ParsedValue, ParseError>) -> Result<ParsedModel, ParseError> {
    match result {
        Ok(value) => Ok(value@),
        Err(error) => Err(error),
    }
}

/// Parses the data of a tag into the value of its kind.
pub fn parse_value(kind: ValueKind, data: &[u8]) -> (result: Result<ParsedValue, ParseError>)
    ensures
        parsed_result_model(result) == spec_parse_value(kind, data@),
{
    match kind {
        ValueKind::ServiceCode => match ServiceCode::try_from(data) {
            Ok(v) => Ok(ParsedValue::ServiceCode(v)),
            Err(e) => Err(e),
        },
        ValueKind::AuthorisationResponseCode => match AuthorisationResponseCode::try_from(data) {
            Ok(v) => Ok(ParsedValue::AuthorisationResponseCode(v)),
            Err(e) => Err(e),
        },
        ValueKind::CardholderVerificationMethodList => match CardholderVerificationMethodList::try_from(data) {
            Ok(v) => Ok(ParsedValue::CardholderVerificationMethodList(v)),
            Err(e) => Err(e),
        },
        ValueKind::TerminalVerificationResults => match TerminalVerificationResults::try_from(data) {
            Ok(v) => Ok(ParsedValue::TerminalVerificationResults(v)),
            Err(e) => Err(e),
        },
        ValueKind::TransactionStatusInformation => match TransactionStatusInformation::try_from(data) {
            Ok(v) => Ok(ParsedValue::TransactionStatusInformation(v)),
            Err(e) => Err(e),
        },
        ValueKind::TransactionType => match TransactionType::try_from(data) {
            Ok(v) => Ok(ParsedValue::TransactionType(v)),
            Err(e) => Err(e),
        },
        ValueKind::IssuerActionCodeDefault => match IssuerActionCodeDefault::try_from(data) {
            Ok(v) => Ok(ParsedValue::IssuerActionCodeDefault(v)),
            Err(e) => Err(e),
        },
        ValueKind::IssuerActionCodeDenial => match IssuerActionCodeDenial::try_from(data) {
            Ok(v) => Ok(ParsedValue::IssuerActionCodeDenial(v)),
            Err(e) => Err(e),
        },
        ValueKind::IssuerActionCodeOnline => match IssuerActionCodeOnline::try_from(data) {
            Ok(v) => Ok(ParsedValue::IssuerActionCodeOnline(v)),
            Err(e) => Err(e),
        },
        ValueKind::IssuerApplicationData => match IssuerApplicationData::try_from(data) {
            Ok(v) => Ok(ParsedValue::IssuerApplicationData(v)),
            Err(e) => Err(e),
        },
        ValueKind::TerminalCapabilities => match TerminalCapabilities::try_from(data) {
            Ok(v) => Ok(ParsedValue::TerminalCapabilities(v)),
            Err(e) => Err(e),
        },
        ValueKind::CardholderVerificationMethodResults => match CardholderVerificationMethodResults::try_from(data) {
            Ok(v) => Ok(ParsedValue::CardholderVerificationMethodResults(v)),
            Err(e) => Err(e),
        },
        ValueKind::TerminalType => match TerminalType::try_from(data) {
            Ok(v) => Ok(ParsedValue::TerminalType(v)),
            Err(e) => Err(e),
        },
        ValueKind::PosEntryMode => match PosEntryMode::try_from(data) {
            Ok(v) => Ok(ParsedValue::PosEntryMode(v)),
            Err(e) => Err(e),
        },
        ValueKind::AdditionalTerminalCapabilities => match AdditionalTerminalCapabilities::try_from(data) {
            Ok(v) => Ok(ParsedValue::AdditionalTerminalCapabilities(v)),
            Err(e) => Err(e),
        },
    }
}


/// The name used for the value of a tag when it can't be parsed, for the kinds
/// whose values may be valid but not recognised; and the error that says so.
pub open spec fn spec_unrecognised(kind: ValueKind) -> Option<(Seq<char>, ParseError)> {
    match kind {
        ValueKind::AuthorisationResponseCode => Some(
            (
                "Authorisation Response Code (Unrecognised - likely payment system-specific)"@,
                ParseError::Unrecognised,
            ),
        ),
        ValueKind::TransactionType => Some(
            ("Transaction Type (Unrecognised - likely payment system-specific)"@, ParseError::Unrecognised),
        ),
        ValueKind::IssuerApplicationData => Some(
            ("Issuer Application Data (Not CCD-Compliant)"@, ParseError::NonCcdCompliant),
        ),
        _ => None,
    }
}

fn unrecognised(kind: &ValueKind) -> (result: Option<(&'static str, ParseError)>)
    ensures
        match result {
            Some((name, error)) => spec_unrecognised(*kind) == Some((name@, error)),
            None => spec_unrecognised(*kind) is None,
        },
{
    match kind {
        ValueKind::AuthorisationResponseCode => Some(
            ("Authorisation Response Code (Unrecognised - likely payment system-specific)", ParseError::Unrecognised),
        ),
        ValueKind::TransactionType => Some(
            ("Transaction Type (Unrecognised - likely payment system-specific)", ParseError::Unrecognised),
        ),
        ValueKind::IssuerApplicationData => Some(
            ("Issuer Application Data (Not CCD-Compliant)", ParseError::NonCcdCompliant),
        ),
        _ => None,
    }
}

/// A processed EMV tag with as much information as possible about it.
pub enum ProcessedEmvTag {
    Raw { raw_tag: RawEmvTag },
    Annotated { name: &'static str, raw_tag: RawEmvTag },
    Parsed { name: &'static str, parsed: ParsedValue, raw_tag: RawEmvTag },
}

/// The model of a [`ProcessedEmvTag`].
pub enum ProcessedModel {
    Raw { raw_tag: TagModel },
    Annotated { name: Seq<char>, raw_tag: TagModel },
    Parsed { name: Seq<char>, parsed: ParsedModel, raw_tag: TagModel },
}

impl View for ProcessedEmvTag {
    type V = ProcessedModel;

    open spec fn view(&self) -> ProcessedModel {
        match self {
            ProcessedEmvTag::Raw { raw_tag } => ProcessedModel::Raw { raw_tag: raw_tag@ },
            ProcessedEmvTag::Annotated { name, raw_tag } => ProcessedModel::Annotated { name: name@, raw_tag: raw_tag@ },
            ProcessedEmvTag::Parsed { name, parsed, raw_tag } => ProcessedModel::Parsed {
                name: name@,
                parsed: parsed@,
                raw_tag: raw_tag@,
            },
        }
    }
}

/// The model of a processing result.
pub open spec fn processed_result_model(result: Result<ProcessedEmvTag, ParseError>) -> Result<ProcessedModel, ParseError> {
    match result {
        Ok(tag) => Ok(tag@),
        Err(error) => Err(error),
    }
}

/// Parsing the data of a tag of kind `kind`, named `name`: masked data is only
/// annotated, and an error stops the processing.
pub open spec fn spec_parse_raw(name: Seq<char>, raw_tag: TagModel, kind: ValueKind) -> Result<ProcessedModel, ParseError> {
    match raw_tag.data {
        None => Ok(ProcessedModel::Annotated { name, raw_tag }),
        Some(data) => match spec_parse_value(kind, data) {
            Ok(parsed) => Ok(ProcessedModel::Parsed { name, parsed, raw_tag }),
            Err(error) => Err(error),
        },
    }
}

/// As [`spec_parse_raw`], but the error `unrecognised_error` only marks the
/// value as unrecognised: the tag is annotated with `name_unrecognised`.
pub open spec fn spec_parse_raw_unrecognised(
    name_recognised: Seq<char>,
    name_unrecognised: Seq<char>,
    raw_tag: TagModel,
    kind: ValueKind,
    unrecognised_error: ParseError,
) -> Result<ProcessedModel, ParseError> {
    match raw_tag.data {
        None => Ok(ProcessedModel::Annotated { name: name_recognised, raw_tag }),
        Some(data) => match spec_parse_value(kind, data) {
            Ok(parsed) => Ok(ProcessedModel::Parsed { name: name_recognised, parsed, raw_tag }),
            Err(error) => if error == unrecognised_error {
                Ok(ProcessedModel::Annotated { name: name_unrecognised, raw_tag })
            } else {
                Err(error)
            },
        },
    }
}

/// Processing a tag: a tag that is not known stays raw, a known tag is
/// annotated with its name, and the data of a tag that has a parser is parsed.
pub open spec fn spec_process(raw_tag: TagModel) -> Result<ProcessedModel, ParseError> {
    match spec_tag_name(raw_tag.tag) {
        None => Ok(ProcessedModel::Raw { raw_tag }),
        Some(name) => match spec_value_kind(raw_tag.tag) {
            None => Ok(ProcessedModel::Annotated { name, raw_tag }),
            Some(kind) => match spec_unrecognised(kind) {
                None => spec_parse_raw(name, raw_tag, kind),
                Some((name_unrecognised, error)) => spec_parse_raw_unrecognised(
                    name,
                    name_unrecognised,
                    raw_tag,
                    kind,
                    error,
                ),
            },
        },
    }
}

impl ProcessedEmvTag {
    /// Parses the data of a tag of kind `kind`, named `name`. Masked data is
    /// only annotated.
    pub fn parse_raw(name: &'static str, raw_tag: RawEmvTag, kind: ValueKind) -> (result: Result<ProcessedEmvTag, ParseError>)
        ensures
            processed_result_model(result) == spec_parse_raw(name@, raw_tag@, kind),
    {
        let parsed = match &raw_tag.data {
            EmvData::Normal(data) => parse_value(kind, data.as_slice()),
            EmvData::Masked => {
                return Ok(ProcessedEmvTag::Annotated { name, raw_tag });
            },
        };
        match parsed {
            Ok(parsed) => Ok(ProcessedEmvTag::Parsed { name, parsed, raw_tag }),
            Err(error) => Err(error),
        }
    }

    /// Same as [`Self::parse_raw`], but the error `unrecognised_error` gives
    /// the tag annotated with `name_unrecognised` instead of the error.
    pub fn parse_raw_unrecognised(
        name_recognised: &'static str,
        name_unrecognised: &'static str,
        raw_tag: RawEmvTag,
        kind: ValueKind,
        unrecognised_error: ParseError,
    ) -> (result: Result<ProcessedEmvTag, ParseError>)
        ensures
            processed_result_model(result) == spec_parse_raw_unrecognised(
                name_recognised@,
                name_unrecognised@,
                raw_tag@,
                kind,
                unrecognised_error,
            ),
    {
        let parsed = match &raw_tag.data {
            EmvData::Normal(data) => parse_value(kind, data.as_slice()),
            EmvData::Masked => {
                return Ok(ProcessedEmvTag::Annotated { name: name_recognised, raw_tag });
            },
        };
        match parsed {
            Ok(parsed) => Ok(ProcessedEmvTag::Parsed { name: name_recognised, parsed, raw_tag }),
            Err(error) => if error == unrecognised_error {
                Ok(ProcessedEmvTag::Annotated { name: name_unrecognised, raw_tag })
            } else {
                Err(error)
            },
        }
    }

    /// Annotates a tag with its name.
    pub fn annotate_raw(name: &'static str, raw_tag: RawEmvTag) -> (tag: ProcessedEmvTag)
        ensures
            tag@ == (ProcessedModel::Annotated { name: name@, raw_tag: raw_tag@ }),
    {
        ProcessedEmvTag::Annotated { name, raw_tag }
    }
}

/// Processes a [`RawEmvTag`] into a [`ProcessedEmvTag`].
pub fn process_emv_tag(raw_tag: RawEmvTag) -> (result: Result<ProcessedEmvTag, ParseError>)
    ensures
        processed_result_model(result) == spec_process(raw_tag@),
{
    let name = match identify_tag(raw_tag.tag.as_slice()) {
        Some(name) => name,
        None => {
            return Ok(ProcessedEmvTag::Raw { raw_tag });
        },
    };
    let kind = match value_kind(raw_tag.tag.as_slice()) {
        Some(kind) => kind,
        None => {
            return Ok(ProcessedEmvTag::annotate_raw(name, raw_tag));
        },
    };
    match unrecognised(&kind) {
        None => ProcessedEmvTag::parse_raw(name, raw_tag, kind),
        Some((name_unrecognised, error)) => ProcessedEmvTag::parse_raw_unrecognised(
            name,
            name_unrecognised,
            raw_tag,
            kind,
            error,
        ),
    }
}

impl TryFrom<RawEmvTag> for ProcessedEmvTag {
    type Error = ParseError;

    fn try_from(raw_tag: RawEmvTag) -> (result: Result<ProcessedEmvTag, ParseError>)
        ensures
            processed_result_model(result) == spec_process(raw_tag@),
    {
        process_emv_tag(raw_tag)
    }
}

impl TryFromSpecImpl<RawEmvTag> for ProcessedEmvTag {
    /// The result is described over its model instead, by the `ensures` of
    /// `try_from`.
    open spec fn obeys_try_from_spec() -> bool {
        false
    }

    open spec fn try_from_spec(raw_tag: RawEmvTag) -> Result<ProcessedEmvTag, ParseError> {
        arbitrary()
    }
}


/// A processed tag together with its processed child tags.
pub struct ProcessedEmvNode {
    pub tag: ProcessedEmvTag,
    pub child_block: ProcessedEmvBlock,
}

/// A processed block of EMV data with annotations and parsing results.
pub struct ProcessedEmvBlock {
    pub nodes: Vec<ProcessedEmvNode>,
}

/// The model of a processed node.
pub struct ProcessedNodeModel {
    pub tag: ProcessedModel,
    pub children: Seq<ProcessedNodeModel>,
}

/// The model of a processed node.
pub open spec fn processed_node_model(node: ProcessedEmvNode) -> ProcessedNodeModel
    decreases node, 1int,
{
    ProcessedNodeModel { tag: node.tag@, children: processed_nodes_model(node.child_block.nodes@) }
}

/// The models of a sequence of processed nodes.
pub open spec fn processed_nodes_model(nodes: Seq<ProcessedEmvNode>) -> Seq<ProcessedNodeModel>
    decreases nodes, 0int,
{
    if nodes.len() == 0 {
        seq![]
    } else {
        processed_nodes_model(nodes.drop_last()).push(processed_node_model(nodes.last()))
    }
}

impl View for ProcessedEmvNode {
    type V = ProcessedNodeModel;

    open spec fn view(&self) -> ProcessedNodeModel {
        processed_node_model(*self)
    }
}

impl View for ProcessedEmvBlock {
    type V = Seq<ProcessedNodeModel>;

    open spec fn view(&self) -> Seq<ProcessedNodeModel> {
        processed_nodes_model(self.nodes@)
    }
}

/// Processing a node: its tag, then its child tags; the first error stops it.
pub open spec fn spec_process_node(node: NodeModel) -> Result<ProcessedNodeModel, ParseError>
    decreases node, 1int,
{
    match spec_process(node.tag) {
        Err(error) => Err(error),
        Ok(tag) => match spec_process_nodes(node.children) {
            Err(error) => Err(error),
            Ok(children) => Ok(ProcessedNodeModel { tag, children }),
        },
    }
}

/// Processing nodes in order; the first error stops it.
pub open spec fn spec_process_nodes(nodes: Seq<NodeModel>) -> Result<Seq<ProcessedNodeModel>, ParseError>
    decreases nodes, 0int,
{
    if nodes.len() == 0 {
        Ok(seq![])
    } else {
        match spec_process_nodes(nodes.drop_last()) {
            Err(error) => Err(error),
            Ok(prefix) => match spec_process_node(nodes.last()) {
                Err(error) => Err(error),
                Ok(node) => Ok(prefix.push(node)),
            },
        }
    }
}

/// The models of the first `k` nodes are the first `k` models.
proof fn lemma_nodes_model_take(nodes: Seq<RawEmvNode>, k: int)
    requires
        0 <= k <= nodes.len(),
    ensures
        nodes_model(nodes).len() == nodes.len(),
        nodes_model(nodes.take(k)) == nodes_model(nodes).take(k),
    decreases nodes.len(),
{
    if nodes.len() > 0 {
        if k == nodes.len() {
            assert(nodes.take(k) =~= nodes);
            lemma_nodes_model_take(nodes.drop_last(), 0);
            assert(nodes_model(nodes).take(k) =~= nodes_model(nodes));
        } else {
            lemma_nodes_model_take(nodes.drop_last(), k);
            assert(nodes.drop_last().take(k) =~= nodes.take(k));
            assert(nodes_model(nodes).take(k) =~= nodes_model(nodes.drop_last()).take(k));
        }
    } else {
        assert(nodes.take(k) =~= nodes);
    }
}

/// An error in processing the first nodes is the error of processing them all.
proof fn lemma_process_nodes_error_extends(nodes: Seq<NodeModel>, k: int)
    requires
        0 <= k <= nodes.len(),
        spec_process_nodes(nodes.take(k)) is Err,
    ensures
        spec_process_nodes(nodes) == spec_process_nodes(nodes.take(k)),
    decreases nodes.len() - k,
{
    if k < nodes.len() {
        assert(nodes.take(k + 1).drop_last() =~= nodes.take(k));
        lemma_process_nodes_error_extends(nodes, k + 1);
    } else {
        assert(nodes.take(k) =~= nodes);
    }
}

/// The model of a node processing result.
pub open spec fn processed_node_result_model(result: Result<ProcessedEmvNode, ParseError>) -> Result<
    ProcessedNodeModel,
    ParseError,
> {
    match result {
        Ok(node) => Ok(node@),
        Err(error) => Err(error),
    }
}

/// The model of a block processing result.
pub open spec fn processed_block_result_model(result: Result<ProcessedEmvBlock, ParseError>) -> Result<
    Seq<ProcessedNodeModel>,
    ParseError,
> {
    match result {
        Ok(block) => Ok(block@),
        Err(error) => Err(error),
    }
}

/// Processes a node: its tag, then its child tags.
pub fn process_node(raw_node: RawEmvNode) -> (result: Result<ProcessedEmvNode, ParseError>)
    ensures
        processed_node_result_model(result) == spec_process_node(raw_node@),
    decreases raw_node, 1int,
{
    let ghost model = raw_node@;
    let RawEmvNode { tag, child_block } = raw_node;
    let tag = match process_emv_tag(tag) {
        Ok(tag) => tag,
        Err(error) => return Err(error),
    };
    let child_block = match process_block(child_block) {
        Ok(block) => block,
        Err(error) => return Err(error),
    };
    Ok(ProcessedEmvNode { tag, child_block })
}

/// Processes the nodes of a block in order.
pub fn process_block(raw_block: RawEmvBlock) -> (result: Result<ProcessedEmvBlock, ParseError>)
    ensures
        processed_block_result_model(result) == spec_process_nodes(raw_block@),
    decreases raw_block, 0int,
{
    let ghost block = raw_block;
    let ghost original = raw_block.nodes@;
    let mut remaining = raw_block.nodes;
    let mut nodes: Vec<ProcessedEmvNode> = Vec::new();
    let ghost mut i: int = 0;
    while remaining.len() > 0
        invariant
            0 <= i <= original.len(),
            block.nodes@ == original,
            block == raw_block,
            remaining@ == original.skip(i),
            spec_process_nodes(nodes_model(original.take(i))) == Ok::<Seq<ProcessedNodeModel>, ParseError>(
                processed_nodes_model(nodes@),
            ),
        decreases remaining@.len(),
    {
        let raw_node = remaining.remove(0);
        proof {
            assert(raw_node == original[i]);
            assert(original.take(i + 1).drop_last() =~= original.take(i));
            assert(nodes_model(original.take(i + 1)).drop_last() =~= nodes_model(original.take(i)));
            assert(0 <= i < block.nodes@.len());
            assert(decreases_to!(block.nodes => block.nodes@));
            assert(decreases_to!(block.nodes@ => block.nodes@[i]));
            assert(decreases_to!(block => raw_node));
        }
        let node = match process_node(raw_node) {
            Ok(node) => node,
            Err(error) => {
                proof {
                    lemma_nodes_model_take(original, i + 1);
                    lemma_process_nodes_error_extends(nodes_model(original), i + 1);
                }
                return Err(error);
            },
        };
        let ghost before = nodes@;
        nodes.push(node);
        proof {
            assert(nodes@.drop_last() =~= before);
            i = i + 1;
            assert(remaining@ =~= original.skip(i));
        }
    }
    proof {
        assert(original.take(i) =~= original);
    }
    Ok(ProcessedEmvBlock { nodes })
}


impl TryFrom<RawEmvNode> for ProcessedEmvNode {
    type Error = ParseError;

    fn try_from(raw_node: RawEmvNode) -> (result: Result<ProcessedEmvNode, ParseError>)
        ensures
            processed_node_result_model(result) == spec_process_node(raw_node@),
    {
        process_node(raw_node)
    }
}

impl TryFromSpecImpl<RawEmvNode> for ProcessedEmvNode {
    /// The result is described over its model instead, by the `ensures` of
    /// `try_from`.
    open spec fn obeys_try_from_spec() -> bool {
        false
    }

    open spec fn try_from_spec(raw_node: RawEmvNode) -> Result<ProcessedEmvNode, ParseError> {
        arbitrary()
    }
}

impl TryFrom<RawEmvBlock> for ProcessedEmvBlock {
    type Error = ParseError;

    fn try_from(raw_block: RawEmvBlock) -> (result: Result<ProcessedEmvBlock, ParseError>)
        ensures
            processed_block_result_model(result) == spec_process_nodes(raw_block@),
    {
        process_block(raw_block)
    }
}

impl TryFromSpecImpl<RawEmvBlock> for ProcessedEmvBlock {
    /// The result is described over its model instead, by the `ensures` of
    /// `try_from`.
    open spec fn obeys_try_from_spec() -> bool {
        false
    }

    open spec fn try_from_spec(raw_block: RawEmvBlock) -> Result<ProcessedEmvBlock, ParseError> {
        arbitrary()
    }
}

impl From<Vec<ProcessedEmvNode>> for ProcessedEmvBlock {
    fn from(nodes: Vec<ProcessedEmvNode>) -> (block: ProcessedEmvBlock)
        ensures
            block.nodes == nodes,
    {
        ProcessedEmvBlock { nodes }
    }
}

impl FromSpecImpl<Vec<ProcessedEmvNode>> for ProcessedEmvBlock {
    open spec fn obeys_from_spec() -> bool {
        true
    }

    open spec fn from_spec(nodes: Vec<ProcessedEmvNode>) -> ProcessedEmvBlock {
        ProcessedEmvBlock { nodes }
    }
}

impl From<ProcessedEmvBlock> for Vec<ProcessedEmvNode> {
    fn from(block: ProcessedEmvBlock) -> (nodes: Vec<ProcessedEmvNode>)
        ensures
            nodes == block.nodes,
    {
        block.nodes
    }
}

impl FromSpecImpl<ProcessedEmvBlock> for Vec<ProcessedEmvNode> {
    open spec fn obeys_from_spec() -> bool {
        true
    }

    open spec fn from_spec(block: ProcessedEmvBlock) -> Vec<ProcessedEmvNode> {
        block.nodes
    }
}

impl Default for ProcessedEmvBlock {
    fn default() -> (block: ProcessedEmvBlock)
        ensures
            block@ == Seq::<ProcessedNodeModel>::empty(),
    {
        ProcessedEmvBlock { nodes: Vec::new() }
    }
}

/// Processing a known tag whose data is not masked: the data of each tag with
/// a parser is read by the parser of its kind, and the tag is shown parsed
/// under its name; where the parser does not recognise the value, the tag is
/// only annotated, under a name that says so.
#[verifier::rlimit(40)]
pub proof fn lemma_process_parses_by_tag(raw_tag: TagModel)
    requires
        raw_tag.data is Some,
    ensures
        raw_tag.tag.len() == 2 && raw_tag.tag[0] == 0x5Fu8 && raw_tag.tag[1] == 0x30u8 && ServiceCode::spec_try_from_bytes(raw_tag.data->Some_0) is Ok ==> spec_process(raw_tag) == Ok::<ProcessedModel, ParseError>(ProcessedModel::Parsed {
            name: "Service Code"@,
            parsed: ParsedModel::ServiceCode(ServiceCode::spec_try_from_bytes(raw_tag.data->Some_0)->Ok_0),
            raw_tag,
        }),
        raw_tag.tag.len() == 1 && raw_tag.tag[0] == 0x8Au8 && AuthorisationResponseCode::spec_try_from_bytes(raw_tag.data->Some_0) is Ok ==> spec_process(raw_tag) == Ok::<ProcessedModel, ParseError>(ProcessedModel::Parsed {
            name: "Authorisation Response Code"@,
            parsed: ParsedModel::AuthorisationResponseCode(AuthorisationResponseCode::spec_try_from_bytes(raw_tag.data->Some_0)->Ok_0),
            raw_tag,
        }),
        raw_tag.tag.len() == 1 && raw_tag.tag[0] == 0x8Au8 && AuthorisationResponseCode::spec_try_from_bytes(raw_tag.data->Some_0) == Err::<AuthorisationResponseCode, ParseError>(ParseError::Unrecognised) ==> spec_process(raw_tag) == Ok::<ProcessedModel, ParseError>(ProcessedModel::Annotated {
            name: "Authorisation Response Code (Unrecognised - likely payment system-specific)"@,
            raw_tag,
        }),
        raw_tag.tag.len() == 1 && raw_tag.tag[0] == 0x8Eu8 && spec_cvm_list(raw_tag.data->Some_0) is Ok ==> spec_process(raw_tag) == Ok::<ProcessedModel, ParseError>(ProcessedModel::Parsed {
            name: "CVM List"@,
            parsed: ParsedModel::CardholderVerificationMethodList(spec_cvm_list(raw_tag.data->Some_0)->Ok_0),
            raw_tag,
        }),
        raw_tag.tag.len() == 1 && raw_tag.tag[0] == 0x95u8 && TerminalVerificationResults::spec_try_from(raw_tag.data->Some_0) is Ok ==> spec_process(raw_tag) == Ok::<ProcessedModel, ParseError>(ProcessedModel::Parsed {
            name: "Terminal Verification Results (TVR)"@,
            parsed: ParsedModel::TerminalVerificationResults(TerminalVerificationResults::spec_try_from(raw_tag.data->Some_0)->Ok_0),
            raw_tag,
        }),
        raw_tag.tag.len() == 1 && raw_tag.tag[0] == 0x9Bu8 && TransactionStatusInformation::spec_try_from(raw_tag.data->Some_0) is Ok ==> spec_process(raw_tag) == Ok::<ProcessedModel, ParseError>(ProcessedModel::Parsed {
            name: "Transaction Status Information (TSI)"@,
            parsed: ParsedModel::TransactionStatusInformation(TransactionStatusInformation::spec_try_from(raw_tag.data->Some_0)->Ok_0),
            raw_tag,
        }),
        raw_tag.tag.len() == 1 && raw_tag.tag[0] == 0x9Cu8 && TransactionType::spec_try_from_bytes(raw_tag.data->Some_0) is Ok ==> spec_process(raw_tag) == Ok::<ProcessedModel, ParseError>(ProcessedModel::Parsed {
            name: "Transaction Type"@,
            parsed: ParsedModel::TransactionType(TransactionType::spec_try_from_bytes(raw_tag.data->Some_0)->Ok_0),
            raw_tag,
        }),
        raw_tag.tag.len() == 1 && raw_tag.tag[0] == 0x9Cu8 && TransactionType::spec_try_from_bytes(raw_tag.data->Some_0) == Err::<TransactionType, ParseError>(ParseError::Unrecognised) ==> spec_process(raw_tag) == Ok::<ProcessedModel, ParseError>(ProcessedModel::Annotated {
            name: "Transaction Type (Unrecognised - likely payment system-specific)"@,
            raw_tag,
        }),
        raw_tag.tag.len() == 2 && raw_tag.tag[0] == 0x9Fu8 && raw_tag.tag[1] == 0x0Du8 && IssuerActionCodeDefault::spec_try_from(raw_tag.data->Some_0) is Ok ==> spec_process(raw_tag) == Ok::<ProcessedModel, ParseError>(ProcessedModel::Parsed {
            name: "Issuer Action Code - Default"@,
            parsed: ParsedModel::IssuerActionCodeDefault(IssuerActionCodeDefault::spec_try_from(raw_tag.data->Some_0)->Ok_0),
            raw_tag,
        }),
        raw_tag.tag.len() == 2 && raw_tag.tag[0] == 0x9Fu8 && raw_tag.tag[1] == 0x0Eu8 && IssuerActionCodeDenial::spec_try_from(raw_tag.data->Some_0) is Ok ==> spec_process(raw_tag) == Ok::<ProcessedModel, ParseError>(ProcessedModel::Parsed {
            name: "Issuer Action Code - Denial"@,
            parsed: ParsedModel::IssuerActionCodeDenial(IssuerActionCodeDenial::spec_try_from(raw_tag.data->Some_0)->Ok_0),
            raw_tag,
        }),
        raw_tag.tag.len() == 2 && raw_tag.tag[0] == 0x9Fu8 && raw_tag.tag[1] == 0x0Fu8 && IssuerActionCodeOnline::spec_try_from(raw_tag.data->Some_0) is Ok ==> spec_process(raw_tag) == Ok::<ProcessedModel, ParseError>(ProcessedModel::Parsed {
            name: "Issuer Action Code - Online"@,
            parsed: ParsedModel::IssuerActionCodeOnline(IssuerActionCodeOnline::spec_try_from(raw_tag.data->Some_0)->Ok_0),
            raw_tag,
        }),
        raw_tag.tag.len() == 2 && raw_tag.tag[0] == 0x9Fu8 && raw_tag.tag[1] == 0x10u8 && spec_parse_iad(raw_tag.data->Some_0) is Ok ==> spec_process(raw_tag) == Ok::<ProcessedModel, ParseError>(ProcessedModel::Parsed {
            name: "Issuer Application Data (CCD-Compliant)"@,
            parsed: ParsedModel::IssuerApplicationData(spec_parse_iad(raw_tag.data->Some_0)->Ok_0),
            raw_tag,
        }),
        raw_tag.tag.len() == 2 && raw_tag.tag[0] == 0x9Fu8 && raw_tag.tag[1] == 0x10u8 && spec_parse_iad(raw_tag.data->Some_0) == Err::<IadModel, ParseError>(ParseError::NonCcdCompliant) ==> spec_process(raw_tag) == Ok::<ProcessedModel, ParseError>(ProcessedModel::Annotated {
            name: "Issuer Application Data (Not CCD-Compliant)"@,
            raw_tag,
        }),
        raw_tag.tag.len() == 2 && raw_tag.tag[0] == 0x9Fu8 && raw_tag.tag[1] == 0x33u8 && TerminalCapabilities::spec_try_from(raw_tag.data->Some_0) is Ok ==> spec_process(raw_tag) == Ok::<ProcessedModel, ParseError>(ProcessedModel::Parsed {
            name: "Terminal Capabilities"@,
            parsed: ParsedModel::TerminalCapabilities(TerminalCapabilities::spec_try_from(raw_tag.data->Some_0)->Ok_0),
            raw_tag,
        }),
        raw_tag.tag.len() == 2 && raw_tag.tag[0] == 0x9Fu8 && raw_tag.tag[1] == 0x34u8 && CardholderVerificationMethodResults::spec_try_from(raw_tag.data->Some_0) is Ok ==> spec_process(raw_tag) == Ok::<ProcessedModel, ParseError>(ProcessedModel::Parsed {
            name: "CVM Results"@,
            parsed: ParsedModel::CardholderVerificationMethodResults(CardholderVerificationMethodResults::spec_try_from(raw_tag.data->Some_0)->Ok_0),
            raw_tag,
        }),
        raw_tag.tag.len() == 2 && raw_tag.tag[0] == 0x9Fu8 && raw_tag.tag[1] == 0x35u8 && TerminalType::spec_try_from_bytes(raw_tag.data->Some_0) is Ok ==> spec_process(raw_tag) == Ok::<ProcessedModel, ParseError>(ProcessedModel::Parsed {
            name: "Terminal Type"@,
            parsed: ParsedModel::TerminalType(TerminalType::spec_try_from_bytes(raw_tag.data->Some_0)->Ok_0),
            raw_tag,
        }),
        raw_tag.tag.len() == 2 && raw_tag.tag[0] == 0x9Fu8 && raw_tag.tag[1] == 0x39u8 && PosEntryMode::spec_try_from_bytes(raw_tag.data->Some_0) is Ok ==> spec_process(raw_tag) == Ok::<ProcessedModel, ParseError>(ProcessedModel::Parsed {
            name: "POS Entry Mode"@,
            parsed: ParsedModel::PosEntryMode(PosEntryMode::spec_try_from_bytes(raw_tag.data->Some_0)->Ok_0),
            raw_tag,
        }),
        raw_tag.tag.len() == 2 && raw_tag.tag[0] == 0x9Fu8 && raw_tag.tag[1] == 0x40u8 && AdditionalTerminalCapabilities::spec_try_from(raw_tag.data->Some_0) is Ok ==> spec_process(raw_tag) == Ok::<ProcessedModel, ParseError>(ProcessedModel::Parsed {
            name: "Additional Terminal Capabilities"@,
            parsed: ParsedModel::AdditionalTerminalCapabilities(AdditionalTerminalCapabilities::spec_try_from(raw_tag.data->Some_0)->Ok_0),
            raw_tag,
        }),
{
}

} // verus!
