//! Tests of the `Issuer Action Code - Default` value.
use pemv::emv::iac::default::IssuerActionCodeDefault;
use pemv::emv::tvr::TerminalVerificationResults;

/// Ensures the parsed value here matches the same parsed value in the TVR.
#[test]
fn iac_matches_tvr() {
    let raw_value = [0xFF; 5];
    let expected = TerminalVerificationResults::try_from(raw_value.as_slice())
        .expect("not testing the TVR code here");
    let result = IssuerActionCodeDefault::try_from(raw_value.as_slice())
        .expect("any errors should already be tested by the TVR testing");

    assert_eq!(expected, result.tvr);
}
/// Ensures there's no panic.
#[test]
fn default_value_is_ok() {
    IssuerActionCodeDefault::default();
}
