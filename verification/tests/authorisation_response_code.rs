//! Tests of authorisation response code parsing.
use pemv::emv::authorisation_response_code::AuthorisationResponseCode;
use pemv::error::{Comparison, ParseError};

/// Ensures an error is returned if the wrong number of bytes are provided.
#[test]
fn authorisation_response_code_wrong_byte_count() {
    let expected = Err(ParseError::ByteCountIncorrect {
        comparison: Comparison::Equal,
        expected: 2,
        found: 3,
    });
    let result = AuthorisationResponseCode::try_from([0x00; 3].as_slice());

    assert_eq!(expected, result);
}

/// Ensures that the byte slice parser returns the same value as the string
/// parser.
#[test]
fn authorisation_response_code_bytes_match_string() {
    let expected = AuthorisationResponseCode::try_from("05");
    let result = AuthorisationResponseCode::try_from(b"05".as_slice());

    assert_eq!(expected, result);
}

#[test]
fn invalid_utf8() {
    let expected = Err(ParseError::InvalidNumber);
    let result = AuthorisationResponseCode::try_from([0x00, 0x9F].as_slice());

    assert_eq!(expected, result);
}
