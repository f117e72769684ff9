//! Tests of the single-value parsers and their conversions.
use pemv::config::colour_choice::ColourChoice;
use pemv::emv::authorisation_response_code::AuthorisationResponseCode;
use pemv::emv::bitflag_values::{BitflagValue, Severity};
use pemv::emv::ccd::cci::{CommonCoreIdentifier, CryptogramVersion, FormatCode};
use pemv::emv::cv_rule::cv_method::{CvMethod, OptionalCvMethod};
use pemv::emv::cv_rule::cvm_condition::{CvmCondition, OptionalCvmCondition};
use pemv::emv::cv_rule::CardholderVerificationRule;
use pemv::emv::cvm_list::CardholderVerificationMethodList;
use pemv::emv::cvm_results::{CardholderVerificationMethodResults, CvmResult};
use pemv::emv::iac::default::IssuerActionCodeDefault;
use pemv::emv::iac::denial::IssuerActionCodeDenial;
use pemv::emv::iac::online::IssuerActionCodeOnline;
use pemv::emv::pos_entry_mode::PosEntryMode;
use pemv::emv::terminal_type::TerminalType;
use pemv::emv::transaction_type::TransactionType;
use pemv::emv::tvr::TerminalVerificationResults;
use pemv::error::{Comparison, ParseError};
use pemv::non_emv::service_code::{AllowedServices, PinRequirements, ServiceCode};

#[test]
fn cv_method_codes() {
    assert_eq!(Ok(CvMethod::Signature), CvMethod::try_from(0x1E));
    assert_eq!(Ok(CvMethod::NoCvmPerformed), CvMethod::try_from(0x3F));
    assert_eq!(Err(ParseError::NonCompliant), CvMethod::try_from(0x06));
    assert_eq!(0x1F, CvMethod::NoCvmRequired.code());
    assert_eq!("Signature (paper)", CvMethod::Signature.description());
}

#[test]
fn cvm_condition_references_x_or_y() {
    assert!(CvmCondition::InApplicationCurrencyUnderX.references_x_or_y_value());
    assert!(CvmCondition::InApplicationCurrencyOverY.references_x_or_y_value());
    assert!(!CvmCondition::Always.references_x_or_y_value());
    assert!(!CvmCondition::TerminalSupported.references_x_or_y_value());
    assert_eq!(Err(ParseError::NonCompliant), CvmCondition::try_from(0x0A));
}

#[test]
fn optional_descriptions() {
    let unknown_method: OptionalCvMethod = None.into();
    assert_eq!("Unknown (likely issuer or payment system-specific)", unknown_method.description());
    let unknown_condition: OptionalCvmCondition = None.into();
    assert_eq!("Unknown (likely payment system-specific)", unknown_condition.description());
    let known: OptionalCvmCondition = Some(CvmCondition::Manual).into();
    assert_eq!("If manual cash", known.description());
    assert_eq!(Some(CvmCondition::Manual), Option::<CvmCondition>::from(known));
}

#[test]
fn cv_rule_display() {
    let rule = CardholderVerificationRule::try_from([0b0101_1110u8, 0x03].as_slice()).unwrap();
    let info = rule.get_bit_display_information();
    assert_eq!(3, info.len());
    assert_eq!((14, 1), (info[0].offset, info[0].len));
    assert_eq!("Method: Signature (paper)", info[1].explanation);
    assert_eq!((13, 6), (info[1].offset, info[1].len));
    assert_eq!("Condition: If terminal supports the CVM", info[2].explanation);
    assert_eq!(
        Err(ParseError::ByteCountIncorrect { comparison: Comparison::Equal, expected: 2, found: 1 }),
        CardholderVerificationRule::try_from([0x00u8].as_slice())
    );
}

#[test]
fn cvm_list_x_y_relevance() {
    let unused = CardholderVerificationMethodList::try_from([0u8, 0, 0, 0, 0, 0, 0, 0, 0x1E, 0x03].as_slice()).unwrap();
    assert!(!unused.x_y_values_relevant());
    let referenced = CardholderVerificationMethodList::try_from([0u8, 0, 0, 0, 0, 0, 0, 0, 0x1E, 0x06].as_slice()).unwrap();
    assert!(referenced.x_y_values_relevant());
    let set = CardholderVerificationMethodList::try_from([0u8, 0, 0x01, 0x00, 0, 0, 0, 0].as_slice()).unwrap();
    assert_eq!(256, set.x_value);
    assert!(set.x_y_values_relevant());
}

#[test]
fn cvm_results_errors_and_display() {
    assert_eq!(
        Err(ParseError::NonCompliant),
        CardholderVerificationMethodResults::try_from([0x1Eu8, 0x03, 0x03].as_slice())
    );
    let results = CardholderVerificationMethodResults::try_from([0xDEu8, 0x03, 0x01].as_slice()).unwrap();
    assert_eq!(vec![0x5Eu8, 0x03, 0x01], results.get_binary_representation());
    assert_eq!(CvmResult::Failed, results.result);
    let info = results.get_bit_display_information();
    assert_eq!(4, info.len());
    assert_eq!(22, info[0].offset);
    assert_eq!(21, info[1].offset);
    assert_eq!(15, info[2].offset);
    assert_eq!("Result: Failed", info[3].explanation);
    assert_eq!(Severity::Error, info[3].severity);
}

#[test]
fn cvm_results_new() {
    let lenient = CardholderVerificationMethodResults::new(0x005E_0307);
    assert_eq!(CvmResult::Unknown, lenient.result);
    assert_eq!([0x5E, 0x03, 0x07], lenient.bytes);
    let strict = CardholderVerificationMethodResults::try_from([0x5Eu8, 0x03, 0x02].as_slice()).unwrap();
    assert_eq!(strict, CardholderVerificationMethodResults::new(0xFF5E_0302));
}

#[test]
fn cci_round_trip_and_errors() {
    let cci = CommonCoreIdentifier::try_from([0xA5u8].as_slice()).unwrap();
    assert_eq!(FormatCode::A, cci.iad_format_code);
    assert_eq!(CryptogramVersion::TripleDes, cci.cryptogram_version);
    assert_eq!(vec![0xA5u8], cci.get_binary_representation());
    assert_eq!(Err(ParseError::NonCcdCompliant), CommonCoreIdentifier::try_from([0xB5u8].as_slice()));
    assert_eq!(Err(ParseError::NonCcdCompliant), CommonCoreIdentifier::try_from([0xA7u8].as_slice()));
    let info = cci.get_bit_display_information();
    assert_eq!("IAD Format Code: Format A", info[0].explanation);
    assert_eq!("Cryptogram Version: Triple DES (3DES)", info[1].explanation);
}

#[test]
fn iac_defaults() {
    let all_set = TerminalVerificationResults::try_from([0xFFu8; 5].as_slice()).unwrap();
    let none_set = TerminalVerificationResults::try_from([0x00u8; 5].as_slice()).unwrap();
    assert_eq!(all_set, IssuerActionCodeDefault::default().tvr);
    assert_eq!(none_set, IssuerActionCodeDenial::default().tvr);
    assert_eq!(all_set, IssuerActionCodeOnline::default().tvr);
}

#[test]
fn one_byte_enums() {
    assert_eq!(Ok(TerminalType::AttendedOnlineOnlyMerchant), TerminalType::try_from([0x21u8].as_slice()));
    assert_eq!(Err(ParseError::Unrecognised), TerminalType::try_from([0x27u8].as_slice()));
    assert_eq!(Ok(TransactionType::Refund), TransactionType::try_from([0x20u8].as_slice()));
    assert_eq!(Ok(PosEntryMode::ContactlessIcc), PosEntryMode::try_from([0x83u8].as_slice()));
    assert_eq!(Ok(PosEntryMode::ContactlessIcc), PosEntryMode::try_from(0x07u8));
    assert_eq!(Ok(PosEntryMode::Fallback), PosEntryMode::try_from([0x80u8].as_slice()));
    assert_eq!(
        Err(ParseError::ByteCountIncorrect { comparison: Comparison::Equal, expected: 1, found: 2 }),
        PosEntryMode::try_from([0x80u8, 0x00].as_slice())
    );
}

#[test]
fn authorisation_response_codes() {
    assert_eq!(Ok(AuthorisationResponseCode::ExpiredCard), AuthorisationResponseCode::try_from("54"));
    assert_eq!(Ok(AuthorisationResponseCode::ExpiredCard), AuthorisationResponseCode::try_from(b"33".as_slice()));
    assert_eq!(Err(ParseError::Unrecognised), AuthorisationResponseCode::try_from("Z3"));
    assert_eq!(Err(ParseError::Unrecognised), AuthorisationResponseCode::try_from("005"));
    // One two-byte character, valid UTF-8 but no code.
    assert_eq!(Err(ParseError::Unrecognised), AuthorisationResponseCode::try_from([0xC3u8, 0xA9].as_slice()));
    assert_eq!(Err(ParseError::InvalidNumber), AuthorisationResponseCode::try_from([0x9Fu8, 0x30].as_slice()));
    assert_eq!("Decline - Do Not Honour", AuthorisationResponseCode::Decline.description());
}

#[test]
fn service_code_digits() {
    assert_eq!(Err(ParseError::InvalidNumber), ServiceCode::try_from([0x0Au8, 0x20].as_slice()));
    assert_eq!(Err(ParseError::InvalidNumber), ServiceCode::try_from([0x12u8, 0x34].as_slice()));
    let code = ServiceCode::try_from([0x07u8, 0x65].as_slice()).unwrap();
    assert_eq!(765, code.number);
    assert_eq!(AllowedServices::GoodsAndServicesOnly, code.allowed_services);
    assert_eq!(PinRequirements::PinRequired, code.pin_requirements);
    assert_eq!("No restrictions", AllowedServices::NoRestrictions.description());
}

#[test]
fn colour_choices() {
    assert_eq!(Ok(ColourChoice::AlwaysAnsi), ColourChoice::try_from("ANSI"));
    assert_eq!(Ok(ColourChoice::Never), ColourChoice::try_from("Never"));
    assert_eq!(Err(()), ColourChoice::try_from("sometimes"));
    assert_eq!(ColourChoice::Auto, ColourChoice::default());
    assert_eq!(ColourChoice::Never, ColourChoice::Auto.change_based_on_tty(false));
    assert_eq!(ColourChoice::Auto, ColourChoice::Auto.change_based_on_tty(true));
    assert_eq!(ColourChoice::Always, ColourChoice::Always.change_based_on_tty(false));
    let name: &str = ColourChoice::AlwaysAnsi.into();
    assert_eq!("ansi", name);
    assert_eq!(Ok(ColourChoice::AlwaysAnsi), ColourChoice::try_from(name));
}

#[test]
fn error_messages() {
    let error = ParseError::ByteCountIncorrect { comparison: Comparison::Greater, expected: 8, found: 3 };
    assert_eq!(
        "The wrong number of bytes were provided for the value. Perhaps you provided the wrong value? Expected: greater than or equal to 8, Found: 3",
        error.message()
    );
    assert_eq!("The bytes provided are not valid.", ParseError::InvalidBytes.message());
}
