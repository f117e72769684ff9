//! Strict BER-TLV parsing: no masking, and the data of every constructed tag
//! must itself be valid BER-TLV.
//!
//! Information for this can be found in EMV Book 3, under `Annex B`.
use vstd::prelude::*;

use super::ber_tlv::{
    class_of, complete_tag, copy_range, data_object_type_of, lemma_ber_header_bounds, lemma_ber_header_fields,
    length_field, parse_header, parse_tag_metadata, spec_ber_header, written_objects,
};
use super::{
    block_result_model, lemma_nodes_model_push, node_model, nodes_model, prepend, DataObjectType, EmvData, NodeModel,
    RawEmvBlock, RawEmvNode, RawEmvTag, TagModel,
};
use crate::error::ParseError;

verus! {

/// Parses data objects from `start` to the end of `bytes`, strictly: the data
/// of every constructed tag must parse in turn.
pub open spec fn spec_strict_parse_from(bytes: Seq<u8>, start: int) -> Result<Seq<NodeModel>, ParseError>
    decreases bytes.len(), bytes.len() - start,
{
    if start < 0 || start >= bytes.len() {
        Ok(seq![])
    } else {
        match spec_ber_header(bytes, start) {
            Err(e) => Err(e),
            Ok((j, d, l)) => {
                proof {
                    lemma_ber_header_bounds(bytes, start);
                }
                let data = bytes.subrange(d, d + l);
                let data_object_type = data_object_type_of(bytes[start]);
                let children = match data_object_type {
                    DataObjectType::Constructed => spec_strict_parse_from(data, 0),
                    DataObjectType::Primitive => Ok(seq![]),
                };
                match children {
                    Err(e) => Err(e),
                    Ok(children) => {
                        let node = NodeModel {
                            tag: TagModel {
                                tag: bytes.subrange(start, j + 1),
                                class: class_of(bytes[start]),
                                data_object_type,
                                data: Some(data),
                            },
                            children,
                        };
                        prepend(seq![node], spec_strict_parse_from(bytes, d + l))
                    },
                }
            },
        }
    }
}

/// Parses a block of BER-TLV data strictly.
pub open spec fn spec_strict_parse(bytes: Seq<u8>) -> Result<Seq<NodeModel>, ParseError> {
    spec_strict_parse_from(bytes, 0)
}

/// Parses a block of BER-TLV data strictly: data is never masked, and the
/// data of a constructed tag must itself parse, or the whole block fails.
pub fn parse_ber_tlv(bytes: &[u8]) -> (result: Result<RawEmvBlock, ParseError>)
    ensures
        block_result_model(result) == spec_strict_parse(bytes@),
    decreases bytes@.len(),
{
    let bytes_len = bytes.len();
    let mut nodes: Vec<RawEmvNode> = Vec::new();
    let mut index: usize = 0;
    proof {
        assert(nodes_model(nodes@) =~= Seq::<NodeModel>::empty());
        if let Ok(rest) = spec_strict_parse_from(bytes@, 0) {
            assert(Seq::<NodeModel>::empty() + rest =~= rest);
        }
    }
    while index < bytes_len
        invariant
            index <= bytes_len == bytes@.len(),
            spec_strict_parse(bytes@) == prepend(
                nodes_model(nodes@),
                spec_strict_parse_from(bytes@, index as int),
            ),
        decreases bytes_len - index,
    {
        proof {
            lemma_ber_header_bounds(bytes@, index as int);
        }
        let (j, d, length) = match parse_header(bytes, index) {
            Ok(header) => header,
            Err(e) => return Err(e),
        };
        let (class, data_object_type) = parse_tag_metadata(bytes[index]);
        let data = copy_range(bytes, d, d + length);
        let child_block = match data_object_type {
            DataObjectType::Constructed => match parse_ber_tlv(data.as_slice()) {
                Ok(block) => block,
                Err(e) => return Err(e),
            },
            DataObjectType::Primitive => RawEmvBlock::empty(),
        };
        let node = RawEmvNode {
            tag: RawEmvTag { tag: copy_range(bytes, index, j + 1), class, data_object_type, data: EmvData::Normal(data) },
            child_block,
        };
        proof {
            let ghost rest = spec_strict_parse_from(bytes@, (d + length) as int);
            assert(node_model(node).tag == node.tag@);
            lemma_nodes_model_push(nodes@, node);
            assert(nodes_model(nodes@) + seq![node_model(node)] =~= nodes_model(nodes@).push(node_model(node)));
            if let Ok(r) = rest {
                assert(nodes_model(nodes@) + (seq![node_model(node)] + r) =~= nodes_model(nodes@).push(node_model(node)) + r);
            }
        }
        nodes.push(node);
        index = d + length;
    }
    proof {
        assert(nodes_model(nodes@) + Seq::<NodeModel>::empty() =~= nodes_model(nodes@));
    }
    Ok(RawEmvBlock { nodes })
}

/// A successful strict parse keeps the data of every tag of the block
/// unmasked.
pub proof fn lemma_strict_parse_data_unmasked(bytes: Seq<u8>, i: int)
    requires
        spec_strict_parse(bytes) matches Ok(nodes) && 0 <= i < nodes.len(),
    ensures
        spec_strict_parse(bytes)->Ok_0[i].tag.data is Some,
    decreases bytes.len(),
{
    lemma_strict_parse_from_data_unmasked(bytes, 0, i);
}

proof fn lemma_strict_parse_from_data_unmasked(bytes: Seq<u8>, start: int, i: int)
    requires
        spec_strict_parse_from(bytes, start) matches Ok(nodes) && 0 <= i < nodes.len(),
    ensures
        spec_strict_parse_from(bytes, start)->Ok_0[i].tag.data is Some,
    decreases bytes.len() - start,
{
    if 0 <= start < bytes.len() {
        lemma_ber_header_bounds(bytes, start);
        if let Ok((j, d, l)) = spec_ber_header(bytes, start) {
            if i > 0 {
                lemma_strict_parse_from_data_unmasked(bytes, d + l, i - 1);
            }
        }
    }
}

/// Whether `node` is what the strict parser makes of the data object written
/// as its tag identifier, `length_bytes` and `value`: the data is kept
/// unmasked, and the child tags of a constructed tag are what its value
/// parses to.
pub open spec fn strictly_parsed_object(node: NodeModel, length_bytes: Seq<u8>, value: Seq<u8>) -> bool {
    let tag = node.tag.tag;
    &&& complete_tag(tag)
    &&& length_field(length_bytes, value.len())
    &&& node.tag.class == class_of(tag[0])
    &&& node.tag.data_object_type == data_object_type_of(tag[0])
    &&& node.tag.data == Some(value)
    &&& match node.tag.data_object_type {
        DataObjectType::Constructed => spec_strict_parse(value) == Ok::<Seq<NodeModel>, ParseError>(node.children),
        DataObjectType::Primitive => node.children.len() == 0,
    }
}

/// Whether `bytes` are the data objects of `nodes` one after the other, each
/// strictly parsed.
pub open spec fn strictly_encodes(bytes: Seq<u8>, nodes: Seq<NodeModel>) -> bool {
    exists|fields: Seq<(Seq<u8>, Seq<u8>)>|
        #![trigger written_objects(nodes, fields)]
        fields.len() == nodes.len() && bytes == written_objects(nodes, fields) && forall|i: int|
            0 <= i < nodes.len() ==> strictly_parsed_object(#[trigger] nodes[i], fields[i].0, fields[i].1)
}

proof fn lemma_strict_parse_from_encodes(bytes: Seq<u8>, start: int)
    requires
        0 <= start <= bytes.len(),
        spec_strict_parse_from(bytes, start) is Ok,
    ensures
        strictly_encodes(bytes.skip(start), spec_strict_parse_from(bytes, start)->Ok_0),
    decreases bytes.len() - start,
{
    let nodes = spec_strict_parse_from(bytes, start)->Ok_0;
    if start < bytes.len() {
        lemma_ber_header_fields(bytes, start);
        let (j, d, l) = spec_ber_header(bytes, start)->Ok_0;
        lemma_strict_parse_from_encodes(bytes, d + l);
        let rest_nodes = spec_strict_parse_from(bytes, d + l)->Ok_0;
        let rest_fields = choose|fields: Seq<(Seq<u8>, Seq<u8>)>|
            #![trigger written_objects(rest_nodes, fields)]
            fields.len() == rest_nodes.len() && bytes.skip(d + l) == written_objects(rest_nodes, fields) && forall|i: int|
                0 <= i < rest_nodes.len() ==> strictly_parsed_object(#[trigger] rest_nodes[i], fields[i].0, fields[i].1);
        let length_bytes = bytes.subrange(j + 1, d);
        let value = bytes.subrange(d, d + l);
        let fields = seq![(length_bytes, value)] + rest_fields;
        assert(nodes.len() > 0);
        assert(nodes.drop_first() =~= rest_nodes);
        assert(fields.drop_first() =~= rest_fields);
        assert(nodes[0].tag.tag == bytes.subrange(start, j + 1));
        assert(strictly_parsed_object(nodes[0], length_bytes, value));
        assert(bytes.skip(start) =~= written_objects(nodes, fields));
        assert forall|i: int| 0 <= i < nodes.len() implies strictly_parsed_object(
            #[trigger] nodes[i],
            fields[i].0,
            fields[i].1,
        ) by {
            if i > 0 {
                assert(nodes[i] == rest_nodes[i - 1]);
                assert(fields[i] == rest_fields[i - 1]);
            }
        }
        assert(strictly_encodes(bytes.skip(start), nodes));
    } else {
        assert(bytes.skip(start) =~= written_objects(nodes, Seq::<(Seq<u8>, Seq<u8>)>::empty()));
    }
}

/// The bytes of a block that parses strictly are its data objects one after
/// the other, each written as its tag identifier, a length field and its
/// value, of which the parsed tag keeps the class, type and data, and the
/// value of each constructed tag parses strictly to its child tags.
pub proof fn lemma_strict_parse_encodes(bytes: Seq<u8>)
    requires
        spec_strict_parse(bytes) is Ok,
    ensures
        strictly_encodes(bytes, spec_strict_parse(bytes)->Ok_0),
{
    lemma_strict_parse_from_encodes(bytes, 0);
    assert(bytes.skip(0) =~= bytes);
}

} // verus!
