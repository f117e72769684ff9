//! BER-TLV parsing.
//!
//! Information for this can be found in EMV Book 3, under `Annex B`.
use vstd::prelude::*;

use super::{
    block_result_model, data_model, lemma_nodes_model_push, lemma_prepend_empty,
    lemma_prepend_twice, node_model, nodes_model, prepend, DataObjectType, EmvData, NodeModel,
    RawEmvBlock, RawEmvNode, RawEmvTag, TagClass, TagModel,
};
use crate::error::ParseError;
use crate::util::{be_value, byte_slice_to_u32, BYTES_PER_32_BITS};

verus! {

/// The class of a tag, from bits 8 and 7 of its first byte.
pub open spec fn class_of(tag_byte_0: u8) -> TagClass {
    let bits = (tag_byte_0 & 0xC0u8) >> 6u8;
    if bits == 0 {
        TagClass::Universal
    } else if bits == 1 {
        TagClass::Application
    } else if bits == 2 {
        TagClass::ContextSpecific
    } else {
        TagClass::Private
    }
}

/// The data object type of a tag, from bit 6 of its first byte.
pub open spec fn data_object_type_of(tag_byte_0: u8) -> DataObjectType {
    if tag_byte_0 & 0x20u8 != 0 {
        DataObjectType::Constructed
    } else {
        DataObjectType::Primitive
    }
}

/// Parses the class and data object type of the tag from the tag ID's first
/// byte, according to the BER-TLV specification.
pub fn parse_tag_metadata(tag_byte_0: u8) -> (metadata: (TagClass, DataObjectType))
    ensures
        metadata == (class_of(tag_byte_0), data_object_type_of(tag_byte_0)),
{
    let bits = (tag_byte_0 & 0xC0u8) >> 6u8;
    let class = if bits == 0 {
        TagClass::Universal
    } else if bits == 1 {
        TagClass::Application
    } else if bits == 2 {
        TagClass::ContextSpecific
    } else {
        TagClass::Private
    };
    let data_object_type = if tag_byte_0 & 0x20u8 != 0 {
        DataObjectType::Constructed
    } else {
        DataObjectType::Primitive
    };
    (class, data_object_type)
}

/// The index of the last byte of a multi-byte tag identifier whose subsequent
/// bytes start at `j`: the first byte with bit 8 clear, if any.
pub open spec fn spec_tag_continue(bytes: Seq<u8>, j: int) -> Option<int>
    decreases bytes.len() - j,
{
    if j < 0 || j >= bytes.len() {
        None
    } else if bytes[j] & 0x80u8 == 0 {
        Some(j)
    } else {
        spec_tag_continue(bytes, j + 1)
    }
}

/// The index of the last byte of the tag identifier starting at `start`: the
/// identifier continues past its first byte when that byte's low five bits are
/// all set.
pub open spec fn spec_tag_end(bytes: Seq<u8>, start: int) -> Option<int> {
    if bytes[start] & 0x1Fu8 != 0x1Fu8 {
        Some(start)
    } else {
        spec_tag_continue(bytes, start + 1)
    }
}

/// The header of the data object at `start`: the index of the tag identifier's
/// last byte, the index where the data begins, and the data length.
pub open spec fn spec_ber_header(bytes: Seq<u8>, start: int) -> Result<(int, int, int), ParseError> {
    match spec_tag_end(bytes, start) {
        None => Err(ParseError::NonCompliant),
        Some(j) => {
            let k = j + 1;
            if k >= bytes.len() {
                Err(ParseError::NonCompliant)
            } else if bytes[k] & 0x80u8 != 0 {
                let count = (bytes[k] & 0x7Fu8) as int;
                if count > BYTES_PER_32_BITS {
                    Err(ParseError::Unsupported)
                } else if k + count >= bytes.len() {
                    Err(ParseError::NonCompliant)
                } else {
                    let d = k + 1 + count;
                    let length = be_value(bytes.subrange(k + 1, d)) as int;
                    if d + length > bytes.len() {
                        Err(ParseError::NonCompliant)
                    } else {
                        Ok((j, d, length))
                    }
                }
            } else {
                let d = k + 1;
                let length = bytes[k] as int;
                if d + length > bytes.len() {
                    Err(ParseError::NonCompliant)
                } else {
                    Ok((j, d, length))
                }
            }
        },
    }
}

proof fn lemma_tag_continue_bounds(bytes: Seq<u8>, j: int)
    ensures
        spec_tag_continue(bytes, j) matches Some(e) ==> j <= e < bytes.len(),
    decreases bytes.len() - j,
{
    if 0 <= j < bytes.len() && bytes[j] & 0x80u8 != 0 {
        lemma_tag_continue_bounds(bytes, j + 1);
    }
}

/// The header of a data object lies inside the input, after its start.
pub proof fn lemma_ber_header_bounds(bytes: Seq<u8>, start: int)
    requires
        0 <= start < bytes.len(),
    ensures
        spec_ber_header(bytes, start) matches Ok((j, d, l)) ==> start <= j && j + 2 <= d && 0
            <= l && d + l <= bytes.len(),
{
    lemma_tag_continue_bounds(bytes, start + 1);
}

/// The model of the child block of a tag: constructed, unmasked data is parsed
/// as BER-TLV in turn, and anything that doesn't parse gives no children.
pub open spec fn spec_child_block(
    data_object_type: DataObjectType,
    data: Option<Seq<u8>>,
    masking_characters: Seq<char>,
) -> Seq<NodeModel>
    decreases
            match data {
                Some(d) => d.len(),
                None => 0,
            },
            1int,
{
    match (data_object_type, data) {
        (DataObjectType::Constructed, Some(d)) => match spec_ber_parse_from(d, 0, masking_characters) {
            Ok(children) => children,
            Err(_) => seq![],
        },
        _ => seq![],
    }
}

/// Parses BER-TLV data objects from `start` to the end of `bytes`.
pub open spec fn spec_ber_parse_from(bytes: Seq<u8>, start: int, masking_characters: Seq<char>) -> Result<
    Seq<NodeModel>,
    ParseError,
>
    decreases bytes.len(), 0int, bytes.len() - start,
{
    if start < 0 || start >= bytes.len() {
        Ok(seq![])
    } else {
        match spec_ber_header(bytes, start) {
            Err(e) => Err(e),
            Ok((j, d, l)) => {
                proof {
                    lemma_ber_header_bounds(bytes, start);
                }
                let data = data_model(bytes.subrange(d, d + l), masking_characters);
                let data_object_type = data_object_type_of(bytes[start]);
                let node = NodeModel {
                    tag: TagModel {
                        tag: bytes.subrange(start, j + 1),
                        class: class_of(bytes[start]),
                        data_object_type,
                        data,
                    },
                    children: spec_child_block(data_object_type, data, masking_characters),
                };
                prepend(seq![node], spec_ber_parse_from(bytes, d + l, masking_characters))
            },
        }
    }
}

/// Parses a block of BER-TLV data.
pub open spec fn spec_ber_parse(bytes: Seq<u8>, masking_characters: Seq<char>) -> Result<
    Seq<NodeModel>,
    ParseError,
> {
    spec_ber_parse_from(bytes, 0, masking_characters)
}

fn find_tag_end(bytes: &[u8], start: usize) -> (end: Option<usize>)
    requires
        start < bytes@.len(),
    ensures
        match end {
            Some(e) => spec_tag_end(bytes@, start as int) == Some(e as int) && start <= e < bytes@.len(),
            None => spec_tag_end(bytes@, start as int) is None,
        },
{
    if bytes[start] & 0x1Fu8 != 0x1Fu8 {
        return Some(start);
    }
    let mut j: usize = start + 1;
    while j < bytes.len()
        invariant
            start < j <= bytes@.len(),
            bytes@[start as int] & 0x1Fu8 == 0x1Fu8,
            spec_tag_end(bytes@, start as int) == spec_tag_continue(bytes@, j as int),
        decreases bytes@.len() - j,
    {
        if bytes[j] & 0x80u8 == 0 {
            return Some(j);
        }
        j += 1;
    }
    None
}

pub(crate) fn parse_header(bytes: &[u8], start: usize) -> (header: Result<(usize, usize, usize), ParseError>)
    requires
        start < bytes@.len(),
    ensures
        match header {
            Ok((j, d, l)) => spec_ber_header(bytes@, start as int) == Ok::<(int, int, int), ParseError>(
                (j as int, d as int, l as int),
            ),
            Err(e) => spec_ber_header(bytes@, start as int) == Err::<(int, int, int), ParseError>(e),
        },
{
    let bytes_len = bytes.len();
    let j = match find_tag_end(bytes, start) {
        Some(j) => j,
        None => return Err(ParseError::NonCompliant),
    };
    if j + 1 >= bytes_len {
        return Err(ParseError::NonCompliant);
    }
    let k = j + 1;
    let length_byte_0 = bytes[k];
    if length_byte_0 & 0x80u8 != 0 {
        let count = (length_byte_0 & 0x7Fu8) as usize;
        if count > BYTES_PER_32_BITS {
            return Err(ParseError::Unsupported);
        }
        if count >= bytes_len - k {
            return Err(ParseError::NonCompliant);
        }
        let d = k + 1 + count;
        let length = byte_slice_to_u32(&bytes[k + 1..d]) as usize;
        assert(bytes@.subrange(k + 1, d as int) == bytes@.subrange(k + 1, d as int));
        if length > bytes_len - d {
            return Err(ParseError::NonCompliant);
        }
        Ok((j, d, length))
    } else {
        let d = k + 1;
        let length = length_byte_0 as usize;
        if length > bytes_len - d {
            return Err(ParseError::NonCompliant);
        }
        Ok((j, d, length))
    }
}

/// Copies `bytes[start..end]` into a new vector.
pub fn copy_range(bytes: &[u8], start: usize, end: usize) -> (copy: Vec<u8>)
    requires
        start <= end <= bytes@.len(),
    ensures
        copy@ == bytes@.subrange(start as int, end as int),
{
    let mut copy: Vec<u8> = Vec::new();
    let mut i: usize = start;
    while i < end
        invariant
            start <= i <= end <= bytes@.len(),
            copy@ == bytes@.subrange(start as int, i as int),
        decreases end - i,
    {
        copy.push(bytes[i]);
        i += 1;
        assert(copy@ =~= bytes@.subrange(start as int, i as int));
    }
    copy
}

/// Descends into the tag data to parse it as nested BER-TLV data objects, if
/// `data_object_type` is [`DataObjectType::Constructed`] and the data isn't
/// masked. Otherwise, or if the data doesn't parse, the block is empty.
pub fn get_child_block(
    data_object_type: DataObjectType,
    tag_data: &EmvData,
    masking_characters: &[char],
) -> (block: RawEmvBlock)
    ensures
        block@ == spec_child_block(data_object_type, tag_data@, masking_characters@),
    decreases
            match tag_data@ {
                Some(d) => d.len(),
                None => 0,
            },
            1int,
{
    match data_object_type {
        DataObjectType::Primitive => RawEmvBlock::empty(),
        DataObjectType::Constructed => match tag_data {
            EmvData::Normal(data) => match parse(data.as_slice(), masking_characters) {
                Ok(block) => block,
                Err(_) => RawEmvBlock::empty(),
            },
            EmvData::Masked => RawEmvBlock::empty(),
        },
    }
}

/// Parses a block of BER-TLV encoded data.
pub fn parse(bytes: &[u8], masking_characters: &[char]) -> (result: Result<RawEmvBlock, ParseError>)
    ensures
        block_result_model(result) == spec_ber_parse(bytes@, masking_characters@),
    decreases bytes@.len(), 0int,
{
    let bytes_len = bytes.len();
    let mut nodes: Vec<RawEmvNode> = Vec::new();
    let mut index: usize = 0;
    proof {
        lemma_prepend_empty(spec_ber_parse_from(bytes@, 0, masking_characters@));
    }
    while index < bytes_len
        invariant
            index <= bytes_len == bytes@.len(),
            spec_ber_parse(bytes@, masking_characters@) == prepend(
                nodes_model(nodes@),
                spec_ber_parse_from(bytes@, index as int, masking_characters@),
            ),
        decreases bytes_len - index,
    {
        let (j, d, length) = match parse_header(bytes, index) {
            Ok(header) => header,
            Err(e) => return Err(e),
        };
        proof {
            lemma_ber_header_bounds(bytes@, index as int);
        }
        let (class, data_object_type) = parse_tag_metadata(bytes[index]);
        let tag_data = EmvData::from_u8_check_for_masked(copy_range(bytes, d, d + length), masking_characters);
        let child_block = get_child_block(data_object_type, &tag_data, masking_characters);
        let node = RawEmvNode {
            tag: RawEmvTag { tag: copy_range(bytes, index, j + 1), class, data_object_type, data: tag_data },
            child_block,
        };
        proof {
            let ghost rest = spec_ber_parse_from(bytes@, (d + length) as int, masking_characters@);
            assert(node_model(node).tag == node.tag@);
            lemma_nodes_model_push(nodes@, node);
            lemma_prepend_twice(nodes_model(nodes@), seq![node_model(node)], rest);
            assert(nodes_model(nodes@) + seq![node_model(node)] =~= nodes_model(nodes@).push(node_model(node)));
        }
        nodes.push(node);
        index = d + length;
    }
    proof {
        assert(nodes_model(nodes@) + Seq::<NodeModel>::empty() =~= nodes_model(nodes@));
    }
    Ok(RawEmvBlock { nodes })
}


/// The data of a constructed tag that is not valid BER-TLV is kept as plain
/// data: the tag gets no child tags, and the tag itself still parses.
pub proof fn lemma_child_block_of_invalid_data(data: Seq<u8>, masking_characters: Seq<char>)
    requires
        spec_ber_parse(data, masking_characters) is Err,
    ensures
        spec_child_block(DataObjectType::Constructed, Some(data), masking_characters) == Seq::<NodeModel>::empty(),
{
}

/// The child tags of a constructed tag with valid data are the tags of its
/// data.
pub proof fn lemma_child_block_of_valid_data(data: Seq<u8>, masking_characters: Seq<char>)
    requires
        spec_ber_parse(data, masking_characters) is Ok,
    ensures
        spec_child_block(DataObjectType::Constructed, Some(data), masking_characters) == spec_ber_parse(
            data,
            masking_characters,
        )->Ok_0,
{
}

/// Masked data and primitive tags have no child tags.
pub proof fn lemma_child_block_empty(data_object_type: DataObjectType, data: Option<Seq<u8>>, masking_characters: Seq<char>)
    requires
        data is None || data_object_type == DataObjectType::Primitive,
    ensures
        spec_child_block(data_object_type, data, masking_characters) == Seq::<NodeModel>::empty(),
{
}

/// Whether `tag` is one complete tag identifier: a single byte whose low five
/// bits are not all set, or a first byte whose low five bits are all set, then
/// bytes with bit 8 set and a last byte with bit 8 clear.
pub open spec fn complete_tag(tag: Seq<u8>) -> bool {
    &&& tag.len() >= 1
    &&& if tag[0] & 0x1Fu8 != 0x1Fu8 {
        tag.len() == 1
    } else {
        &&& tag.len() >= 2
        &&& forall|i: int| 1 <= i < tag.len() - 1 ==> #[trigger] tag[i] & 0x80u8 != 0
        &&& tag[tag.len() - 1] & 0x80u8 == 0
    }
}

/// Whether `length_bytes` is a length field giving `length`: one byte with bit
/// 8 clear that is the length, or a byte with bit 8 set whose low seven bits
/// count the (at most four) big-endian bytes of the length that follow it.
pub open spec fn length_field(length_bytes: Seq<u8>, length: nat) -> bool {
    &&& length_bytes.len() >= 1
    &&& if length_bytes[0] & 0x80u8 == 0 {
        length_bytes.len() == 1 && length_bytes[0] == length
    } else {
        &&& length_bytes[0] & 0x7Fu8 <= BYTES_PER_32_BITS
        &&& length_bytes.len() == 1 + (length_bytes[0] & 0x7Fu8)
        &&& be_value(length_bytes.drop_first()) == length
    }
}

/// Whether `node` is what the parser makes of the data object written as its
/// tag identifier, `length_bytes` and `value`.
pub open spec fn parsed_object(
    node: NodeModel,
    length_bytes: Seq<u8>,
    value: Seq<u8>,
    masking_characters: Seq<char>,
) -> bool {
    let tag = node.tag.tag;
    &&& complete_tag(tag)
    &&& length_field(length_bytes, value.len())
    &&& node.tag.class == class_of(tag[0])
    &&& node.tag.data_object_type == data_object_type_of(tag[0])
    &&& node.tag.data == data_model(value, masking_characters)
    &&& node.children == spec_child_block(node.tag.data_object_type, node.tag.data, masking_characters)
}

/// The data objects of `nodes` one after the other, each written as its tag
/// identifier and the length field and value that `fields` gives for it.
pub open spec fn written_objects(nodes: Seq<NodeModel>, fields: Seq<(Seq<u8>, Seq<u8>)>) -> Seq<u8>
    decreases nodes.len(),
{
    if nodes.len() == 0 || fields.len() == 0 {
        seq![]
    } else {
        nodes[0].tag.tag + fields[0].0 + fields[0].1 + written_objects(nodes.drop_first(), fields.drop_first())
    }
}

/// Whether `bytes` are the data objects of `nodes` one after the other: there
/// are a length field and a value for each node, of which the node is what the
/// parser makes, and the objects written with them are `bytes`.
pub open spec fn encodes(bytes: Seq<u8>, nodes: Seq<NodeModel>, masking_characters: Seq<char>) -> bool {
    exists|fields: Seq<(Seq<u8>, Seq<u8>)>|
        #![trigger written_objects(nodes, fields)]
        fields.len() == nodes.len() && bytes == written_objects(nodes, fields) && forall|i: int|
            0 <= i < nodes.len() ==> parsed_object(#[trigger] nodes[i], fields[i].0, fields[i].1, masking_characters)
}

proof fn lemma_tag_continue_bits(bytes: Seq<u8>, k: int)
    requires
        spec_tag_continue(bytes, k) is Some,
    ensures
        ({
            let j = spec_tag_continue(bytes, k)->Some_0;
            &&& k <= j < bytes.len()
            &&& forall|i: int| k <= i < j ==> #[trigger] bytes[i] & 0x80u8 != 0
            &&& bytes[j] & 0x80u8 == 0
        }),
    decreases bytes.len() - k,
{
    if bytes[k] & 0x80u8 != 0 {
        lemma_tag_continue_bits(bytes, k + 1);
    }
}

/// The identifier that the parser reads at `start` is one complete tag
/// identifier.
pub proof fn lemma_tag_end_complete(bytes: Seq<u8>, start: int)
    requires
        0 <= start < bytes.len(),
        spec_tag_end(bytes, start) is Some,
    ensures
        complete_tag(bytes.subrange(start, spec_tag_end(bytes, start)->Some_0 + 1)),
{
    let j = spec_tag_end(bytes, start)->Some_0;
    let tag = bytes.subrange(start, j + 1);
    if bytes[start] & 0x1Fu8 == 0x1Fu8 {
        lemma_tag_continue_bits(bytes, start + 1);
        assert forall|i: int| 1 <= i < tag.len() - 1 implies #[trigger] tag[i] & 0x80u8 != 0 by {
            assert(tag[i] == bytes[start + i]);
        }
    }
}

/// The header that the parser reads at `start` is a complete tag identifier
/// and a length field that gives the length of the data after it.
pub proof fn lemma_ber_header_fields(bytes: Seq<u8>, start: int)
    requires
        0 <= start < bytes.len(),
        spec_ber_header(bytes, start) is Ok,
    ensures
        ({
            let (j, d, l) = spec_ber_header(bytes, start)->Ok_0;
            &&& start <= j && j + 2 <= d && 0 <= l && d + l <= bytes.len()
            &&& complete_tag(bytes.subrange(start, j + 1))
            &&& length_field(bytes.subrange(j + 1, d), l as nat)
        }),
{
    lemma_ber_header_bounds(bytes, start);
    lemma_tag_end_complete(bytes, start);
    let (j, d, l) = spec_ber_header(bytes, start)->Ok_0;
    let length_bytes = bytes.subrange(j + 1, d);
    assert(length_bytes.drop_first() =~= bytes.subrange(j + 2, d));
}

proof fn lemma_ber_parse_from_encodes(bytes: Seq<u8>, start: int, masking_characters: Seq<char>)
    requires
        0 <= start <= bytes.len(),
        spec_ber_parse_from(bytes, start, masking_characters) is Ok,
    ensures
        encodes(bytes.skip(start), spec_ber_parse_from(bytes, start, masking_characters)->Ok_0, masking_characters),
    decreases bytes.len() - start,
{
    let nodes = spec_ber_parse_from(bytes, start, masking_characters)->Ok_0;
    if start < bytes.len() {
        lemma_ber_header_fields(bytes, start);
        let (j, d, l) = spec_ber_header(bytes, start)->Ok_0;
        lemma_ber_parse_from_encodes(bytes, d + l, masking_characters);
        let rest_nodes = spec_ber_parse_from(bytes, d + l, masking_characters)->Ok_0;
        let rest_fields = choose|fields: Seq<(Seq<u8>, Seq<u8>)>|
            #![trigger written_objects(rest_nodes, fields)]
            fields.len() == rest_nodes.len() && bytes.skip(d + l) == written_objects(rest_nodes, fields) && forall|i: int|
                0 <= i < rest_nodes.len() ==> parsed_object(
                    #[trigger] rest_nodes[i],
                    fields[i].0,
                    fields[i].1,
                    masking_characters,
                );
        let length_bytes = bytes.subrange(j + 1, d);
        let value = bytes.subrange(d, d + l);
        let fields = seq![(length_bytes, value)] + rest_fields;
        assert(nodes.len() > 0);
        assert(nodes.drop_first() =~= rest_nodes);
        assert(fields.drop_first() =~= rest_fields);
        assert(nodes[0].tag.tag == bytes.subrange(start, j + 1));
        assert(parsed_object(nodes[0], length_bytes, value, masking_characters));
        assert(bytes.skip(start) =~= written_objects(nodes, fields));
        assert forall|i: int| 0 <= i < nodes.len() implies parsed_object(
            #[trigger] nodes[i],
            fields[i].0,
            fields[i].1,
            masking_characters,
        ) by {
            if i > 0 {
                assert(nodes[i] == rest_nodes[i - 1]);
                assert(fields[i] == rest_fields[i - 1]);
            }
        }
        assert(encodes(bytes.skip(start), nodes, masking_characters));
    } else {
        assert(bytes.skip(start) =~= written_objects(nodes, Seq::<(Seq<u8>, Seq<u8>)>::empty()));
    }
}

/// The bytes of a block that parses are its data objects one after the other,
/// each written as its tag identifier, a length field and its value, of which
/// the parsed tag keeps the class, type, data (or that it is masked) and child
/// tags.
pub proof fn lemma_ber_parse_encodes(bytes: Seq<u8>, masking_characters: Seq<char>)
    requires
        spec_ber_parse(bytes, masking_characters) is Ok,
    ensures
        encodes(bytes, spec_ber_parse(bytes, masking_characters)->Ok_0, masking_characters),
{
    lemma_ber_parse_from_encodes(bytes, 0, masking_characters);
    assert(bytes.skip(0) =~= bytes);
}

/// The class of a tag is the one whose code is the top two bits of its first
/// byte, and the tag is constructed exactly when bit 6 of that byte is set.
pub proof fn lemma_tag_metadata_bits(tag_byte_0: u8)
    ensures
        TagClass::spec_try_from(tag_byte_0 >> 6u8) == Ok::<TagClass, ParseError>(class_of(tag_byte_0)),
        (data_object_type_of(tag_byte_0) == DataObjectType::Constructed) == (tag_byte_0 & 0x20u8 != 0),
{
    assert((tag_byte_0 & 0xC0u8) >> 6u8 == tag_byte_0 >> 6u8) by (bit_vector);
    assert(tag_byte_0 >> 6u8 <= 3) by (bit_vector);
}

} // verus!
