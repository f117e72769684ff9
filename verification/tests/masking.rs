//! Tests of the recognition of masked data.
use pemv::emv::tlv_parsing::{is_masked_str, is_masked_u8, EmvData};

#[test]
fn masked_bytes() {
    assert!(is_masked_u8(&[0x2A, 0x2A], &['*']));
    assert!(is_masked_u8(b"####", &['*', '#']));
    assert!(!is_masked_u8(&[0x2A], &['*']));
    assert!(!is_masked_u8(&[0x2A, 0x23], &['*', '#']));
    assert!(!is_masked_u8(&[0x2A, 0x2A], &[]));
}

#[test]
fn masked_text() {
    assert!(is_masked_str("**", &['*']));
    assert!(!is_masked_str("*", &['*']));
    assert!(!is_masked_str("*a", &['*']));
    assert!(is_masked_str("\u{2022}\u{2022}", &['\u{2022}']));
}

#[test]
fn emv_data_lengths() {
    assert_eq!(Some(3), EmvData::Normal(vec![1, 2, 3]).len());
    assert_eq!(None, EmvData::Masked.len());
    assert_eq!(EmvData::Masked, EmvData::from_u8_check_for_masked(vec![0x2A; 4], &['*']));
    assert_eq!(EmvData::Normal(vec![0x2A]), EmvData::from_u8_check_for_masked(vec![0x2A], &['*']));
}
