//! Tests of BER-TLV parsing.
use pemv::emv::tlv_parsing::ber_tlv::{parse, parse_tag_metadata};
use pemv::emv::tlv_parsing::{DataObjectType, EmvData, RawEmvBlock, RawEmvNode, RawEmvTag, TagClass};
use pemv::error::ParseError;

#[test]
fn tag_metadata() {
    fn test_byte_0(byte_0: u8, expected: (TagClass, DataObjectType)) {
        let result = parse_tag_metadata(byte_0);
        assert_eq!(expected, result);
    }

    test_byte_0(
        0b0000_0000,
        (TagClass::Universal, DataObjectType::Primitive),
    );
    test_byte_0(
        0b0100_0000,
        (TagClass::Application, DataObjectType::Primitive),
    );
    test_byte_0(
        0b1000_0000,
        (TagClass::ContextSpecific, DataObjectType::Primitive),
    );
    test_byte_0(0b1100_0000, (TagClass::Private, DataObjectType::Primitive));
    test_byte_0(
        0b0010_0000,
        (TagClass::Universal, DataObjectType::Constructed),
    );
    test_byte_0(
        0b0110_0000,
        (TagClass::Application, DataObjectType::Constructed),
    );
    test_byte_0(
        0b1010_0000,
        (TagClass::ContextSpecific, DataObjectType::Constructed),
    );
    test_byte_0(
        0b1110_0000,
        (TagClass::Private, DataObjectType::Constructed),
    );
}

#[allow(clippy::needless_pass_by_value)]
fn test_parse(bytes: &[u8], expected: Result<RawEmvBlock, ParseError>) {
    let result = parse(bytes, ['*'].as_slice());
    assert_eq!(expected, result);
}

#[test]
fn ber_tlv_parse_empty_data() {
    test_parse([].as_slice(), Ok(RawEmvBlock { nodes: vec![] }));
}

#[test]
fn parse_single_byte_primitive_unmasked_tag() {
    test_parse(
        [0x5A, 0x08, 0x47, 0x61, 0x73, 0x00, 0x00, 0x00, 0x01, 0x19].as_slice(),
        Ok(RawEmvBlock {
            nodes: vec![RawEmvNode {
                tag: RawEmvTag {
                    tag: vec![0x5A],
                    class: TagClass::Application,
                    data_object_type: DataObjectType::Primitive,
                    data: EmvData::Normal(vec![0x47, 0x61, 0x73, 0x00, 0x00, 0x00, 0x01, 0x19]),
                },
                child_block: RawEmvBlock::default(),
            }],
        }),
    );
}
#[test]
fn parse_multi_byte_primitive_unmasked_tag() {
    test_parse(
        [0x5F, 0x34, 0x01, 0x01].as_slice(),
        Ok(RawEmvBlock {
            nodes: vec![RawEmvNode {
                tag: RawEmvTag {
                    tag: vec![0x5F, 0x34],
                    class: TagClass::Application,
                    data_object_type: DataObjectType::Primitive,
                    data: EmvData::Normal(vec![0x01]),
                },
                child_block: RawEmvBlock::default(),
            }],
        }),
    );
}
#[test]
fn parse_single_byte_primitive_masked_tag() {
    test_parse(
        [0x5A, 0x08, 0x2A, 0x2A, 0x2A, 0x2A, 0x2A, 0x2A, 0x2A, 0x2A].as_slice(),
        Ok(RawEmvBlock {
            nodes: vec![RawEmvNode {
                tag: RawEmvTag {
                    tag: vec![0x5A],
                    class: TagClass::Application,
                    data_object_type: DataObjectType::Primitive,
                    data: EmvData::Masked,
                },
                child_block: RawEmvBlock::default(),
            }],
        }),
    );
}
#[test]
fn parse_multi_byte_primitive_masked_tag() {
    test_parse(
        [0x5F, 0x34, 0x02, 0x2A, 0x2A].as_slice(),
        Ok(RawEmvBlock {
            nodes: vec![RawEmvNode {
                tag: RawEmvTag {
                    tag: vec![0x5F, 0x34],
                    class: TagClass::Application,
                    data_object_type: DataObjectType::Primitive,
                    data: EmvData::Masked,
                },
                child_block: RawEmvBlock::default(),
            }],
        }),
    );
}
#[test]
fn ber_tlv_parse_constructed_unmasked_tag() {
    test_parse(
        [
            0x6F, 0x09, 0x4F, 0x07, 0xA0, 0x00, 0x00, 0x00, 0x03, 0x10, 0x10,
        ]
        .as_slice(),
        Ok(RawEmvBlock {
            nodes: vec![RawEmvNode {
                tag: RawEmvTag {
                    tag: vec![0x6F],
                    class: TagClass::Application,
                    data_object_type: DataObjectType::Constructed,
                    data: EmvData::Normal(vec![
                        0x4F, 0x07, 0xA0, 0x00, 0x00, 0x00, 0x03, 0x10, 0x10,
                    ]),
                },
                child_block: RawEmvBlock {
                    nodes: vec![RawEmvNode {
                        tag: RawEmvTag {
                            tag: vec![0x4F],
                            class: TagClass::Application,
                            data_object_type: DataObjectType::Primitive,
                            data: EmvData::Normal(vec![
                                0xA0, 0x00, 0x00, 0x00, 0x03, 0x10, 0x10,
                            ]),
                        },
                        child_block: RawEmvBlock::default(),
                    }],
                },
            }],
        }),
    );
}
#[test]
fn ber_tlv_parse_constructed_masked_tag() {
    test_parse(
        [
            0x6F, 0x0B, 0x2A, 0x2A, 0x2A, 0x2A, 0x2A, 0x2A, 0x2A, 0x2A, 0x2A, 0x2A, 0x2A,
        ]
        .as_slice(),
        Ok(RawEmvBlock {
            nodes: vec![RawEmvNode {
                tag: RawEmvTag {
                    tag: vec![0x6F],
                    class: TagClass::Application,
                    data_object_type: DataObjectType::Constructed,
                    data: EmvData::Masked,
                },
                child_block: RawEmvBlock::default(),
            }],
        }),
    );
}
#[test]
fn ber_tlv_parse_constructed_masked_child_tag() {
    test_parse(
        [
            0x6F, 0x0B, 0x5F, 0x20, 0x08, 0x2A, 0x2A, 0x2A, 0x2A, 0x2A, 0x2A, 0x2A, 0x2A,
        ]
        .as_slice(),
        Ok(RawEmvBlock {
            nodes: vec![RawEmvNode {
                tag: RawEmvTag {
                    tag: vec![0x6F],
                    class: TagClass::Application,
                    data_object_type: DataObjectType::Constructed,
                    data: EmvData::Normal(vec![
                        0x5F, 0x20, 0x08, 0x2A, 0x2A, 0x2A, 0x2A, 0x2A, 0x2A, 0x2A, 0x2A,
                    ]),
                },
                child_block: RawEmvBlock {
                    nodes: vec![RawEmvNode {
                        tag: RawEmvTag {
                            tag: vec![0x5F, 0x20],
                            class: TagClass::Application,
                            data_object_type: DataObjectType::Primitive,
                            data: EmvData::Masked,
                        },
                        child_block: RawEmvBlock::default(),
                    }],
                },
            }],
        }),
    );
}
#[test]
fn ber_tlv_parse_multiple_tags() {
    test_parse(
        [
            0x4F, 0x07, 0xA0, 0x00, 0x00, 0x00, 0x04, 0x10, 0x10, 0x5F, 0x34, 0x08, 0x2A, 0x2A,
            0x2A, 0x2A, 0x2A, 0x2A, 0x2A, 0x2A, 0x5F, 0x24, 0x03, 0x25, 0x12, 0x31, 0x6F, 0x06,
            0x5F, 0x24, 0x03, 0x2A, 0x2A, 0x2A,
        ]
        .as_slice(),
        Ok(RawEmvBlock {
            nodes: vec![
                RawEmvNode {
                    tag: RawEmvTag {
                        tag: vec![0x4F],
                        class: TagClass::Application,
                        data_object_type: DataObjectType::Primitive,
                        data: EmvData::Normal(vec![0xA0, 0x00, 0x00, 0x00, 0x04, 0x10, 0x10]),
                    },
                    child_block: RawEmvBlock::default(),
                },
                RawEmvNode {
                    tag: RawEmvTag {
                        tag: vec![0x5F, 0x34],
                        class: TagClass::Application,
                        data_object_type: DataObjectType::Primitive,
                        data: EmvData::Masked,
                    },
                    child_block: RawEmvBlock::default(),
                },
                RawEmvNode {
                    tag: RawEmvTag {
                        tag: vec![0x5F, 0x24],
                        class: TagClass::Application,
                        data_object_type: DataObjectType::Primitive,
                        data: EmvData::Normal(vec![0x25, 0x12, 0x31]),
                    },
                    child_block: RawEmvBlock::default(),
                },
                RawEmvNode {
                    tag: RawEmvTag {
                        tag: vec![0x6F],
                        class: TagClass::Application,
                        data_object_type: DataObjectType::Constructed,
                        data: EmvData::Normal(vec![0x5F, 0x24, 0x03, 0x2A, 0x2A, 0x2A]),
                    },
                    child_block: RawEmvBlock {
                        nodes: vec![RawEmvNode {
                            tag: RawEmvTag {
                                tag: vec![0x5F, 0x24],
                                class: TagClass::Application,
                                data_object_type: DataObjectType::Primitive,
                                data: EmvData::Masked,
                            },
                            child_block: RawEmvBlock::default(),
                        }],
                    },
                },
            ],
        }),
    );
}
#[test]
fn ber_tlv_parse_empty_tag_data() {
    test_parse(
        [0x5F, 0x20, 0x00].as_slice(),
        Ok(RawEmvBlock {
            nodes: vec![RawEmvNode {
                tag: RawEmvTag {
                    tag: vec![0x5F, 0x20],
                    class: TagClass::Application,
                    data_object_type: DataObjectType::Primitive,
                    data: EmvData::Normal(vec![]),
                },
                child_block: RawEmvBlock::default(),
            }],
        }),
    );
}
#[test]
fn parse_single_byte_tag_data_is_not_masked() {
    test_parse(
        [0x5F, 0x34, 0x01, 0x2A].as_slice(),
        Ok(RawEmvBlock {
            nodes: vec![RawEmvNode {
                tag: RawEmvTag {
                    tag: vec![0x5F, 0x34],
                    class: TagClass::Application,
                    data_object_type: DataObjectType::Primitive,
                    data: EmvData::Normal(vec![0x2A]),
                },
                child_block: RawEmvBlock::default(),
            }],
        }),
    );
}
#[test]
fn ber_tlv_parse_3_byte_tag_name() {
    test_parse(
        [0x9F, 0xA0, 0x20, 0x03, 0x22, 0x12, 0x31].as_slice(),
        Ok(RawEmvBlock {
            nodes: vec![RawEmvNode {
                tag: RawEmvTag {
                    tag: vec![0x9F, 0xA0, 0x20],
                    class: TagClass::ContextSpecific,
                    data_object_type: DataObjectType::Primitive,
                    data: EmvData::Normal(vec![0x22, 0x12, 0x31]),
                },
                child_block: RawEmvBlock::default(),
            }],
        }),
    );
}
#[test]
fn ber_tlv_parse_very_long_tag_data() {
    let mut very_long_input_data = vec![0x91, 0b1000_0001, 0x80];
    // The data is '*' (0x2A) so that the result is interpreted as masked and the
    // long data doesn't need to be written twice
    very_long_input_data.extend_from_slice(vec![0x2A; 0x80].as_slice());

    test_parse(
        very_long_input_data.as_slice(),
        Ok(RawEmvBlock {
            nodes: vec![RawEmvNode {
                tag: RawEmvTag {
                    tag: vec![0x91],
                    class: TagClass::ContextSpecific,
                    data_object_type: DataObjectType::Primitive,
                    data: EmvData::Masked,
                },
                child_block: RawEmvBlock::default(),
            }],
        }),
    );
}
#[test]
fn ber_tlv_parse_too_long_tag_data() {
    // This input data is actually invalid, but here we're just testing that the
    // number of bytes indicated is correctly identified as unsupported
    test_parse(
        [0x91, 0b1000_0101, 0xFF, 0xFF, 0xFF, 0xFF, 0xFF].as_slice(),
        Err(ParseError::Unsupported),
    );
}
#[test]
fn parse_invalid_tag_length_too_long() {
    test_parse([0x91, 0x02, 0x00].as_slice(), Err(ParseError::NonCompliant));
}
#[test]
fn parse_invalid_tag_name_indicates_more_coming_but_ends() {
    test_parse([0x5F].as_slice(), Err(ParseError::NonCompliant));
}
#[test]
fn parse_invalid_tag_length_indicates_more_coming_but_ends() {
    test_parse(
        [0x91, 0b1000_0010, 0xFF].as_slice(),
        Err(ParseError::NonCompliant),
    );
}
#[test]
fn ber_tlv_parse_invalid_no_tag_length() {
    test_parse([0x91].as_slice(), Err(ParseError::NonCompliant));
}
#[test]
fn ber_tlv_parse_invalid_no_tag_data() {
    test_parse([0x91, 0x10].as_slice(), Err(ParseError::NonCompliant));
}
/// Some manufacturer-custom EMV tags indicate they're constructed but don't
/// actually store nested EMV data, which can cause problems if not properly
/// handled. Looking at you, Verifone `E3` tag! >:(
#[test]
fn parse_handles_stupid_tag_names() {
    test_parse(
        [0xE3, 0x03, 0x22, 0x12, 0x31].as_slice(),
        Ok(RawEmvBlock {
            nodes: vec![RawEmvNode {
                tag: RawEmvTag {
                    tag: vec![0xE3],
                    class: TagClass::Private,
                    data_object_type: DataObjectType::Constructed,
                    data: EmvData::Normal(vec![0x22, 0x12, 0x31]),
                },
                child_block: RawEmvBlock::default(),
            }],
        }),
    );
}

#[test]
fn parsed_objects_write_the_input_back() {
    // Short and long length fields, a two-byte tag and a constructed tag.
    let input = [
        0x9F, 0x02, 0x02, 0x12, 0x34, 0x5A, 0x81, 0x03, 0x01, 0x02, 0x03, 0x6F, 0x03, 0x50, 0x01, 0x41,
    ];
    let block = parse(&input, &['*']).unwrap();
    let length_fields: [&[u8]; 3] = [&[0x02], &[0x81, 0x03], &[0x03]];
    let mut written: Vec<u8> = Vec::new();
    for (node, length_field) in block.nodes.iter().zip(length_fields) {
        written.extend_from_slice(&node.tag.tag);
        written.extend_from_slice(length_field);
        match &node.tag.data {
            EmvData::Normal(data) => written.extend_from_slice(data),
            EmvData::Masked => panic!("unexpected masked data"),
        }
    }
    assert_eq!(input.to_vec(), written);
    assert_eq!(3, block.nodes.len());
    assert_eq!(DataObjectType::Constructed, block.nodes[2].tag.data_object_type);
    assert_eq!(1, block.nodes[2].child_block.nodes.len());
}
