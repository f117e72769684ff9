//! Tests of tag identification and the processing of parsed tags.
use pemv::emv::cvm_list::CardholderVerificationMethodList;
use pemv::emv::tag_basic_info::TagBasicInfo;
use pemv::emv::tlv_parsing::ber_tlv::parse;
use pemv::emv::tlv_parsing::process_emv_tag::{
    identify_tag, process_block, process_emv_tag, ParsedValue, ProcessedEmvBlock, ProcessedEmvTag,
};
use pemv::emv::tlv_parsing::sort::{sort_by_tag, tag_le_exec};
use pemv::emv::tlv_parsing::{parse_ber_tlv, DataObjectType, EmvData, RawEmvTag, TagClass};
use pemv::emv::transaction_type::TransactionType;
use pemv::error::{Comparison, ParseError};

fn raw(tag: &[u8], data: EmvData) -> RawEmvTag {
    RawEmvTag {
        tag: tag.to_vec(),
        class: TagClass::Application,
        data_object_type: DataObjectType::Primitive,
        data,
    }
}

#[test]
fn identify_known_and_unknown_tags() {
    assert_eq!(Some("Application Expiration Date"), identify_tag(&[0x5F, 0x24]));
    assert_eq!(Some("Terminal Verification Results (TVR)"), identify_tag(&[0x95]));
    assert_eq!(Some("Log Format"), identify_tag(&[0x9F, 0x4F]));
    assert_eq!(Some("File Control Information (FCI) Issuer Discretionary Data"), identify_tag(&[0xBF, 0x0C]));
    assert_eq!(None, identify_tag(&[0x9F, 0x50]));
    assert_eq!(None, identify_tag(&[0x95, 0x00]));
    assert_eq!(None, identify_tag(&[]));
}

#[test]
fn tag_basic_info() {
    let info = TagBasicInfo::try_from([0x9Fu8, 0x26].as_slice()).unwrap();
    assert_eq!(Some("Application Cryptogram"), info.name);
    assert_eq!(TagClass::ContextSpecific, info.class);
    assert_eq!(DataObjectType::Primitive, info.data_object_type);
    assert_eq!(vec![0x9Fu8, 0x26], info.tag);
    assert_eq!(
        Err(ParseError::ByteCountIncorrect { comparison: Comparison::Greater, expected: 1, found: 0 }),
        TagBasicInfo::try_from([].as_slice())
    );
}

#[test]
fn process_unknown_tag_stays_raw() {
    let processed = process_emv_tag(raw(&[0xDF, 0x01], EmvData::Normal(vec![0x01]))).unwrap();
    assert!(matches!(processed, ProcessedEmvTag::Raw { .. }));
}

#[test]
fn process_known_tag_without_parser_is_annotated() {
    let processed = process_emv_tag(raw(&[0x5F, 0x24], EmvData::Normal(vec![0x25, 0x12, 0x31]))).unwrap();
    match processed {
        ProcessedEmvTag::Annotated { name, .. } => assert_eq!("Application Expiration Date", name),
        _ => panic!("expected an annotated tag"),
    }
}

#[test]
fn process_parses_values() {
    let processed = process_emv_tag(raw(&[0x9C], EmvData::Normal(vec![0x20]))).unwrap();
    match processed {
        ProcessedEmvTag::Parsed { name, parsed: ParsedValue::TransactionType(value), .. } => {
            assert_eq!("Transaction Type", name);
            assert_eq!(TransactionType::Refund, value);
        },
        _ => panic!("expected a parsed transaction type"),
    }
}

#[test]
fn process_masked_data_is_annotated() {
    let processed = process_emv_tag(raw(&[0x95], EmvData::Masked)).unwrap();
    match processed {
        ProcessedEmvTag::Annotated { name, .. } => assert_eq!("Terminal Verification Results (TVR)", name),
        _ => panic!("expected an annotated tag"),
    }
}

#[test]
fn process_unrecognised_value_is_annotated() {
    let processed = process_emv_tag(raw(&[0x9C], EmvData::Normal(vec![0x77]))).unwrap();
    match processed {
        ProcessedEmvTag::Annotated { name, .. } => {
            assert_eq!("Transaction Type (Unrecognised - likely payment system-specific)", name)
        },
        _ => panic!("expected an annotated tag"),
    }
    let processed = process_emv_tag(raw(&[0x9F, 0x10], EmvData::Normal(vec![0x00; 7]))).unwrap();
    match processed {
        ProcessedEmvTag::Annotated { name, .. } => assert_eq!("Issuer Application Data (Not CCD-Compliant)", name),
        _ => panic!("expected an annotated tag"),
    }
}

#[test]
fn process_invalid_value_is_an_error() {
    let result = process_emv_tag(raw(&[0x95], EmvData::Normal(vec![0x00; 4])));
    assert!(matches!(
        result,
        Err(ParseError::ByteCountIncorrect { comparison: Comparison::Equal, expected: 5, found: 4 })
    ));
    let result = process_emv_tag(raw(&[0x9F, 0x35], EmvData::Normal(vec![0x99])));
    assert!(matches!(result, Err(ParseError::Unrecognised)));
}

#[test]
fn process_block_with_children() {
    let raw_block = parse(
        &[0x6F, 0x0A, 0x8E, 0x08, 0, 0, 0, 0, 0, 0, 0, 0, 0x9C, 0x01, 0x00],
        &['*'],
    )
    .unwrap();
    let block = process_block(raw_block).unwrap();
    assert_eq!(2, block.nodes.len());
    assert_eq!(1, block.nodes[0].child_block.nodes.len());
    match &block.nodes[0].child_block.nodes[0].tag {
        ProcessedEmvTag::Parsed { parsed: ParsedValue::CardholderVerificationMethodList(list), .. } => {
            assert_eq!(
                &CardholderVerificationMethodList { x_value: 0, y_value: 0, cv_rules: vec![] },
                list
            );
        },
        _ => panic!("expected a parsed CVM List"),
    }
}

#[test]
fn process_block_error_stops() {
    let raw_block = parse(&[0x9C, 0x01, 0x00, 0x95, 0x01, 0x00], &['*']).unwrap();
    assert!(matches!(
        process_block(raw_block),
        Err(ParseError::ByteCountIncorrect { comparison: Comparison::Equal, expected: 5, found: 1 })
    ));
}

fn tags(block: &ProcessedEmvBlock) -> Vec<Vec<u8>> {
    block
        .nodes
        .iter()
        .map(|node| match &node.tag {
            ProcessedEmvTag::Raw { raw_tag } => raw_tag.tag.clone(),
            ProcessedEmvTag::Annotated { raw_tag, .. } => raw_tag.tag.clone(),
            ProcessedEmvTag::Parsed { raw_tag, .. } => raw_tag.tag.clone(),
        })
        .collect()
}

#[test]
fn sorting_by_tag() {
    let raw_block = parse(
        &[0x9C, 0x01, 0x00, 0x5F, 0x24, 0x01, 0x25, 0x82, 0x00, 0x5F, 0x20, 0x00, 0x9C, 0x01, 0x20],
        &['*'],
    )
    .unwrap();
    let block = sort_by_tag(process_block(raw_block).unwrap());
    assert_eq!(
        vec![vec![0x5Fu8, 0x20], vec![0x5F, 0x24], vec![0x82], vec![0x9C], vec![0x9C]],
        tags(&block)
    );
    assert!(tag_le_exec(&[0x5F], &[0x5F, 0x20]));
    assert!(!tag_le_exec(&[0x5F, 0x20], &[0x5F]));
    assert!(tag_le_exec(&[0x5F, 0x20], &[0x82]));
}

#[test]
fn sorting_keeps_order_of_equal_tags() {
    let raw_block = parse(&[0x9C, 0x01, 0x20, 0x5A, 0x01, 0x11, 0x9C, 0x01, 0x00], &['*']).unwrap();
    let block = sort_by_tag(process_block(raw_block).unwrap());
    let data: Vec<EmvData> = block
        .nodes
        .iter()
        .map(|node| match &node.tag {
            ProcessedEmvTag::Raw { raw_tag } => raw_tag.data.clone(),
            ProcessedEmvTag::Annotated { raw_tag, .. } => raw_tag.data.clone(),
            ProcessedEmvTag::Parsed { raw_tag, .. } => raw_tag.data.clone(),
        })
        .collect();
    assert_eq!(
        vec![EmvData::Normal(vec![0x11]), EmvData::Normal(vec![0x20]), EmvData::Normal(vec![0x00])],
        data
    );
}

#[test]
fn strict_parse_rejects_truncated_input() {
    assert_eq!(Err(ParseError::NonCompliant), parse_ber_tlv(&[0x91]));
    assert_eq!(Err(ParseError::NonCompliant), parse_ber_tlv(&[0x91, 0x82, 0xFF]));
    assert_eq!(Err(ParseError::NonCompliant), parse_ber_tlv(&[0x9F]));
    assert_eq!(Err(ParseError::NonCompliant), parse_ber_tlv(&[0x9F, 0x02]));
    assert_eq!(Err(ParseError::NonCompliant), parse_ber_tlv(&[0x6F, 0x02, 0x91]));
}

#[test]
fn strict_parse_keeps_children_and_data() {
    let block = parse_ber_tlv(&[0x6F, 0x04, 0x5F, 0x20, 0x01, 0x2A, 0x5A, 0x02, 0x2A, 0x2A]).unwrap();
    assert_eq!(2, block.nodes.len());
    assert_eq!(EmvData::Normal(vec![0x2A, 0x2A]), block.nodes[1].tag.data);
    assert_eq!(1, block.nodes[0].child_block.nodes.len());
    assert_eq!(EmvData::Normal(vec![0x2A]), block.nodes[0].child_block.nodes[0].tag.data);
}

#[test]
fn strict_parse_fails_on_invalid_children() {
    // The constructed tag holds data that isn't BER-TLV: the strict parser
    // fails where the lenient one keeps the data.
    assert_eq!(Err(ParseError::NonCompliant), parse_ber_tlv(&[0xE3, 0x03, 0x22, 0x12, 0x31]));
    assert!(parse(&[0xE3, 0x03, 0x22, 0x12, 0x31], &['*']).is_ok());
    assert_eq!(Err(ParseError::Unsupported), parse_ber_tlv(&[0x91, 0x85, 0xFF, 0xFF, 0xFF, 0xFF, 0xFF]));
}

#[test]
fn named_tags_are_complete_and_distinct() {
    let mut named: Vec<(Vec<u8>, &str)> = Vec::new();
    for first in 0..=255u8 {
        if let Some(name) = identify_tag(&[first]) {
            assert_ne!(first & 0x1F, 0x1F);
            named.push((vec![first], name));
        }
        for second in 0..=255u8 {
            if let Some(name) = identify_tag(&[first, second]) {
                assert_eq!(first & 0x1F, 0x1F);
                assert_eq!(second & 0x80, 0);
                named.push((vec![first, second], name));
            }
        }
    }
    assert_eq!(121, named.len());
    for (i, (tag_a, name_a)) in named.iter().enumerate() {
        for (tag_b, name_b) in named.iter().skip(i + 1) {
            assert_ne!(name_a, name_b, "{tag_a:?} and {tag_b:?} share a name");
        }
    }
}
