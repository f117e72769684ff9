//! Tests of CVM List parsing.
use pemv::emv::cv_rule::cv_method::CvMethod;
use pemv::emv::cv_rule::cvm_condition::CvmCondition;
use pemv::emv::cv_rule::CardholderVerificationRule;
use pemv::emv::cvm_list::CardholderVerificationMethodList;
use pemv::error::{Comparison, ParseError};
use pemv::util::{num_dec_digits, padded_decimal};

#[test]
fn parse_from_bytes_empty() {
    let expected = Ok(CardholderVerificationMethodList {
        x_value: 0,
        y_value: 0,
        cv_rules: vec![],
    });
    let result = CardholderVerificationMethodList::try_from([0x00; 8].as_slice());

    assert_eq!(expected, result);
}

#[test]
fn cvm_list_parse_from_bytes_valid() {
    let expected = Ok(CardholderVerificationMethodList {
        x_value: 0x2A,
        y_value: 0x7B,
        cv_rules: vec![
            CardholderVerificationRule {
                continue_if_unsuccessful: false,
                method: Some(CvMethod::EncipheredPin).into(),
                condition: Some(CvmCondition::TerminalSupported).into(),
            },
            CardholderVerificationRule {
                continue_if_unsuccessful: true,
                method: Some(CvMethod::Signature).into(),
                condition: Some(CvmCondition::TerminalSupported).into(),
            },
            CardholderVerificationRule {
                continue_if_unsuccessful: false,
                method: Some(CvMethod::FailCvmProcessing).into(),
                condition: Some(CvmCondition::Always).into(),
            },
        ],
    });
    let result = CardholderVerificationMethodList::try_from(
        [
            0x00,
            0x00,
            0x00,
            0x2A,
            0x00,
            0x00,
            0x00,
            0x7B,
            0b0000_0100,
            0x03,
            0b0101_1110,
            0x03,
            0b0000_0000,
            0x00,
        ]
        .as_slice(),
    );

    assert_eq!(expected, result);
}

#[test]
fn parse_from_bytes_invalid_too_short() {
    let expected = Err(ParseError::ByteCountIncorrect {
        comparison: Comparison::Greater,
        expected: 8,
        found: 3,
    });
    let result = CardholderVerificationMethodList::try_from([0x00; 3].as_slice());

    assert_eq!(expected, result);
}

#[test]
fn parse_from_bytes_invalid_wrong_parity() {
    let expected = Err(ParseError::ByteCountNotDivisibleIntoComponents);
    let result = CardholderVerificationMethodList::try_from([0x00; 9].as_slice());

    assert_eq!(expected, result);
}

#[test]
fn parse_from_bytes_unknown_cvm_condition() {
    let expected = Ok(CardholderVerificationMethodList {
        x_value: 0,
        y_value: 0,
        cv_rules: vec![CardholderVerificationRule {
            continue_if_unsuccessful: false,
            method: Some(CvMethod::EncipheredPinOnline).into(),
            condition: None.into(),
        }],
    });
    let result = CardholderVerificationMethodList::try_from(
        [
            0x00,
            0x00,
            0x00,
            0x00,
            0x00,
            0x00,
            0x00,
            0x00,
            0b0000_0010,
            0x35,
        ]
        .as_slice(),
    );

    assert_eq!(expected, result);
}

#[test]
fn decimal_digit_counts() {
	assert_eq!(num_dec_digits(0), 1);
	assert_eq!(num_dec_digits(9), 1);
	assert_eq!(num_dec_digits(10), 2);
	assert_eq!(num_dec_digits(999), 3);
	assert_eq!(num_dec_digits(1000), 4);
	assert_eq!(num_dec_digits(u32::MAX), 10);
}

#[test]
fn zero_padded_values() {
	assert_eq!(padded_decimal(5, 3), "005");
	assert_eq!(padded_decimal(0, 3), "000");
	assert_eq!(padded_decimal(12345, 3), "12345");
	assert_eq!(padded_decimal(42, 0), "42");
	assert_eq!(padded_decimal(u32::MAX, 12), "004294967295");
}

#[test]
fn value_padding_uses_longer_value() {
	let list = CardholderVerificationMethodList { x_value: 12345, y_value: 7, cv_rules: vec![] };
	assert_eq!(list.value_padding_length(), 5);
	let list = CardholderVerificationMethodList { x_value: 1, y_value: 20, cv_rules: vec![] };
	assert_eq!(list.value_padding_length(), 3);
}
