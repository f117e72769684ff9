//! Tests of CVM Results parsing.
use pemv::emv::cv_rule::cv_method::CvMethod;
use pemv::emv::cv_rule::cvm_condition::CvmCondition;
use pemv::emv::cv_rule::CardholderVerificationRule;
use pemv::emv::cvm_results::{CardholderVerificationMethodResults, CvmResult};
use pemv::error::{Comparison, ParseError};

/// Ensures an error is returned if the wrong number of bytes are provided.
#[test]
fn cvm_results_wrong_byte_count() {
    let expected = Err(ParseError::ByteCountIncorrect {
        comparison: Comparison::Equal,
        expected: 3,
        found: 4,
    });
    let result = CardholderVerificationMethodResults::try_from([0x00; 4].as_slice());

    assert_eq!(expected, result);
}

#[test]
fn cvm_results_parse_from_bytes_valid() {
    let expected = Ok(CardholderVerificationMethodResults {
        bytes: [0b0101_1110, 0x03, 0b10],
        cv_rule: CardholderVerificationRule {
            continue_if_unsuccessful: true,
            method: Some(CvMethod::Signature).into(),
            condition: Some(CvmCondition::TerminalSupported).into(),
        },
        result: CvmResult::Successful,
    });
    let result =
        CardholderVerificationMethodResults::try_from([0b0101_1110, 0x03, 0b10].as_slice());

    assert_eq!(expected, result);
}
