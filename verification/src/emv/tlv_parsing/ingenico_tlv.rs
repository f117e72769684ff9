//! Ingenico-proprietary TLV parsing.
//!
//! Each data object is written as text: a tag type character, the tag
//! identifier in hexadecimal, `:`, the data length in hexadecimal, `:`, a data
//! format character (`a` for ASCII, `h` for hexadecimal), the data, and one
//! separator character.
use vstd::prelude::*;
use vstd::string::*;

use super::ber_tlv::{
    class_of, copy_range, data_object_type_of, get_child_block, parse_tag_metadata,
    spec_child_block,
};
use super::{
    block_result_model, data_model, is_masked_u8, lemma_nodes_model_push, lemma_prepend_empty,
    lemma_prepend_twice, masked_bytes, node_model, nodes_model, prepend, EmvData, NodeModel,
    RawEmvBlock, RawEmvNode, RawEmvTag, TagModel,
};
use crate::error::ParseError;
use crate::util::{be_value, byte_slice_to_u32, decode_hex_range, decode_hex_strict, BYTES_PER_32_BITS};

verus! {

/// The separator between the fields of a data object (`:`).
pub const TAG_FIELD_SEPARATOR: u8 = 0x3A;

/// The data format character for ASCII data (`a`).
pub const DATA_FORMAT_ASCII: u8 = 0x61;

/// The data format character for hexadecimal data (`h`).
pub const DATA_FORMAT_HEX: u8 = 0x68;

/// The tag type character of EMV tags (`T`).
pub const TAG_TYPE_EMV: u8 = 0x54;

/// The index of the first `c` at or after `from`, if any.
pub open spec fn spec_find(s: Seq<u8>, from: int, c: u8) -> Option<int>
    decreases s.len() - from,
{
    if from < 0 || from >= s.len() {
        None
    } else if s[from] == c {
        Some(from)
    } else {
        spec_find(s, from + 1, c)
    }
}

/// The data of a data object whose data starts at `i4`, and the index just
/// past it.
pub open spec fn spec_ingenico_data(
    s: Seq<u8>,
    format: u8,
    i4: int,
    length: int,
    masking_characters: Seq<char>,
) -> Result<(Option<Seq<u8>>, int), ParseError> {
    if format == DATA_FORMAT_ASCII {
        if i4 + length > s.len() {
            Err(ParseError::NonCompliant)
        } else {
            Ok((data_model(s.subrange(i4, i4 + length), masking_characters), i4 + length))
        }
    } else if format == DATA_FORMAT_HEX {
        if i4 + 2 * length > s.len() {
            Err(ParseError::NonCompliant)
        } else {
            let text = s.subrange(i4, i4 + 2 * length);
            if masked_bytes(text, masking_characters) {
                Ok((None, i4 + 2 * length))
            } else {
                match decode_hex_strict(text) {
                    Some(data) => Ok((Some(data), i4 + 2 * length)),
                    None => Err(ParseError::NonCompliant),
                }
            }
        }
    } else {
        Err(ParseError::NonCompliant)
    }
}

/// The data object starting at `i`: its node (when it is an EMV tag) and the
/// index where the next data object starts.
#[verifier::opaque]
pub open spec fn spec_ingenico_element(s: Seq<u8>, i: int, masking_characters: Seq<char>) -> Result<
    (Option<NodeModel>, int),
    ParseError,
> {
    let i1 = i + 1;
    if i1 >= s.len() {
        Err(ParseError::NonCompliant)
    } else {
        match spec_find(s, i1, TAG_FIELD_SEPARATOR) {
            None => Err(ParseError::NonCompliant),
            Some(c1) => match decode_hex_strict(s.subrange(i1, c1)) {
                None => Err(ParseError::NonCompliant),
                Some(tag_id) => {
                    let i2 = c1 + 1;
                    if i2 >= s.len() || tag_id.len() == 0 {
                        Err(ParseError::NonCompliant)
                    } else {
                        match spec_find(s, i2, TAG_FIELD_SEPARATOR) {
                            None => Err(ParseError::NonCompliant),
                            Some(c2) => match decode_hex_strict(s.subrange(i2, c2)) {
                                None => Err(ParseError::NonCompliant),
                                Some(length_bytes) => {
                                    if length_bytes.len() > BYTES_PER_32_BITS {
                                        Err(ParseError::Unsupported)
                                    } else if c2 + 1 >= s.len() {
                                        Err(ParseError::NonCompliant)
                                    } else {
                                        let length = be_value(length_bytes) as int;
                                        match spec_ingenico_data(
                                            s,
                                            s[c2 + 1],
                                            c2 + 2,
                                            length,
                                            masking_characters,
                                        ) {
                                            Err(e) => Err(e),
                                            Ok((data, end)) => {
                                                let data_object_type = data_object_type_of(tag_id[0]);
                                                let node = NodeModel {
                                                    tag: TagModel {
                                                        tag: tag_id,
                                                        class: class_of(tag_id[0]),
                                                        data_object_type,
                                                        data,
                                                    },
                                                    children: spec_child_block(
                                                        data_object_type,
                                                        data,
                                                        masking_characters,
                                                    ),
                                                };
                                                if s[i] == TAG_TYPE_EMV {
                                                    Ok((Some(node), end + 1))
                                                } else {
                                                    Ok((None, end + 1))
                                                }
                                            },
                                        }
                                    }
                                },
                            },
                        }
                    }
                },
            },
        }
    }
}

proof fn lemma_find_bounds(s: Seq<u8>, from: int, c: u8)
    ensures
        spec_find(s, from, c) matches Some(k) ==> from <= k < s.len() && s[k] == c,
    decreases s.len() - from,
{
    if 0 <= from < s.len() && s[from] != c {
        lemma_find_bounds(s, from + 1, c);
    }
}

/// The next data object always starts after the current one.
pub proof fn lemma_ingenico_element_advances(s: Seq<u8>, i: int, masking_characters: Seq<char>)
    requires
        0 <= i < s.len(),
    ensures
        spec_ingenico_element(s, i, masking_characters) matches Ok((_, next)) ==> i < next <= s.len() + 1,
{
    reveal(spec_ingenico_element);
    lemma_find_bounds(s, i + 1, TAG_FIELD_SEPARATOR);
    if let Some(c1) = spec_find(s, i + 1, TAG_FIELD_SEPARATOR) {
        lemma_find_bounds(s, c1 + 1, TAG_FIELD_SEPARATOR);
    }
}

/// Parses Ingenico TLV data objects from `start` to the end of `s`.
pub open spec fn spec_ingenico_parse_from(s: Seq<u8>, start: int, masking_characters: Seq<char>) -> Result<
    Seq<NodeModel>,
    ParseError,
>
    decreases s.len() + 1 - start,
{
    if start < 0 || start >= s.len() {
        Ok(seq![])
    } else {
        match spec_ingenico_element(s, start, masking_characters) {
            Err(e) => Err(e),
            Ok((node, next)) => {
                proof {
                    lemma_ingenico_element_advances(s, start, masking_characters);
                }
                match node {
                    Some(n) => prepend(seq![n], spec_ingenico_parse_from(s, next, masking_characters)),
                    None => spec_ingenico_parse_from(s, next, masking_characters),
                }
            },
        }
    }
}

/// Parses a block of Ingenico TLV text, given as its (ASCII) bytes.
pub open spec fn spec_ingenico_parse(s: Seq<u8>, masking_characters: Seq<char>) -> Result<
    Seq<NodeModel>,
    ParseError,
> {
    spec_ingenico_parse_from(s, 0, masking_characters)
}

/// Parses Ingenico TLV text: only ASCII text is accepted.
pub open spec fn spec_ingenico_parse_str(data: &str, masking_characters: Seq<char>) -> Result<
    Seq<NodeModel>,
    ParseError,
> {
    if !is_ascii(data) {
        Err(ParseError::NonCompliant)
    } else {
        spec_ingenico_parse(data.spec_bytes(), masking_characters)
    }
}

/// One data object of Ingenico TLV text, as written: its tag type character,
/// the text of its tag identifier and of its length, its data format
/// character, the text of its data, and the separator after it (none after
/// the last one).
pub struct IngenicoRecord {
    pub kind: u8,
    pub tag_text: Seq<u8>,
    pub length_text: Seq<u8>,
    pub format: u8,
    pub payload: Seq<u8>,
    pub separator: Seq<u8>,
}

/// The text of a data object, without its separator.
pub open spec fn record_text(record: IngenicoRecord) -> Seq<u8> {
    seq![record.kind] + record.tag_text + seq![TAG_FIELD_SEPARATOR] + record.length_text + seq![TAG_FIELD_SEPARATOR]
        + seq![record.format] + record.payload
}

/// The text of data objects one after the other, each with its separator.
pub open spec fn written_records(records: Seq<IngenicoRecord>) -> Seq<u8>
    decreases records.len(),
{
    if records.len() == 0 {
        seq![]
    } else {
        record_text(records[0]) + records[0].separator + written_records(records.drop_first())
    }
}

/// Whether a data object is well formed: a non-empty tag identifier and a
/// length of at most four bytes, both in hexadecimal without a `:`, a known
/// data format, data text as long as the length says (twice as long for
/// hexadecimal data, which must be hexadecimal unless it is masked), and at
/// most one separator.
pub open spec fn valid_record(record: IngenicoRecord, masking_characters: Seq<char>) -> bool {
    &&& !record.tag_text.contains(TAG_FIELD_SEPARATOR)
    &&& !record.length_text.contains(TAG_FIELD_SEPARATOR)
    &&& decode_hex_strict(record.tag_text) matches Some(tag) && tag.len() > 0
    &&& decode_hex_strict(record.length_text) matches Some(length_bytes) && length_bytes.len() <= BYTES_PER_32_BITS
        && {
        let length = be_value(length_bytes);
        ||| record.format == DATA_FORMAT_ASCII && record.payload.len() == length
        ||| record.format == DATA_FORMAT_HEX && record.payload.len() == 2 * length && (masked_bytes(
            record.payload,
            masking_characters,
        ) || decode_hex_strict(record.payload) is Some)
    }
    &&& record.separator.len() <= 1
}

/// The data of a well-formed data object: `None` when its text is masked,
/// else the text itself (ASCII) or the bytes that it writes (hexadecimal).
pub open spec fn record_data(record: IngenicoRecord, masking_characters: Seq<char>) -> Option<Seq<u8>> {
    if record.format == DATA_FORMAT_ASCII {
        data_model(record.payload, masking_characters)
    } else if masked_bytes(record.payload, masking_characters) {
        None
    } else {
        Some(decode_hex_strict(record.payload)->Some_0)
    }
}

/// The node of a well-formed data object.
pub open spec fn record_node(record: IngenicoRecord, masking_characters: Seq<char>) -> NodeModel {
    let tag = decode_hex_strict(record.tag_text)->Some_0;
    let data = record_data(record, masking_characters);
    NodeModel {
        tag: TagModel { tag, class: class_of(tag[0]), data_object_type: data_object_type_of(tag[0]), data },
        children: spec_child_block(data_object_type_of(tag[0]), data, masking_characters),
    }
}

/// The nodes of the EMV tags among data objects, in order.
pub open spec fn emv_record_nodes(records: Seq<IngenicoRecord>, masking_characters: Seq<char>) -> Seq<NodeModel>
    decreases records.len(),
{
    if records.len() == 0 {
        seq![]
    } else {
        (if records[0].kind == TAG_TYPE_EMV {
            seq![record_node(records[0], masking_characters)]
        } else {
            seq![]
        }) + emv_record_nodes(records.drop_first(), masking_characters)
    }
}

/// Whether `s` is the text of well-formed data objects whose EMV tags are
/// `nodes`.
pub open spec fn reads_as(s: Seq<u8>, nodes: Seq<NodeModel>, masking_characters: Seq<char>) -> bool {
    exists|records: Seq<IngenicoRecord>|
        #![trigger written_records(records)]
        {
            &&& s == written_records(records)
            &&& forall|i: int| 0 <= i < records.len() ==> valid_record(#[trigger] records[i], masking_characters)
            &&& forall|i: int| 0 <= i < records.len() - 1 ==> (#[trigger] records[i]).separator.len() == 1
            &&& nodes == emv_record_nodes(records, masking_characters)
        }
}

/// The data object that starts at `i`, as written there.
#[verifier::opaque]
spec fn element_record(s: Seq<u8>, i: int) -> IngenicoRecord {
    let c1 = spec_find(s, i + 1, TAG_FIELD_SEPARATOR)->Some_0;
    let c2 = spec_find(s, c1 + 1, TAG_FIELD_SEPARATOR)->Some_0;
    let length = be_value(decode_hex_strict(s.subrange(c1 + 1, c2))->Some_0) as int;
    let format = s[c2 + 1];
    let end = c2 + 2 + if format == DATA_FORMAT_ASCII {
        length
    } else {
        2 * length
    };
    IngenicoRecord {
        kind: s[i],
        tag_text: s.subrange(i + 1, c1),
        length_text: s.subrange(c1 + 1, c2),
        format,
        payload: s.subrange(c2 + 2, end),
        separator: if end < s.len() {
            seq![s[end]]
        } else {
            seq![]
        },
    }
}

proof fn lemma_find_first(s: Seq<u8>, from: int, c: u8)
    requires
        0 <= from,
        spec_find(s, from, c) is Some,
    ensures
        from <= spec_find(s, from, c)->Some_0 < s.len(),
        s[spec_find(s, from, c)->Some_0] == c,
        !s.subrange(from, spec_find(s, from, c)->Some_0).contains(c),
    decreases s.len() - from,
{
    let k = spec_find(s, from, c)->Some_0;
    if s[from] != c {
        lemma_find_first(s, from + 1, c);
        assert(s.subrange(from, k) =~= seq![s[from]] + s.subrange(from + 1, k));
    } else {
        assert(s.subrange(from, k).len() == 0);
    }
}

proof fn lemma_element_record(s: Seq<u8>, i: int, masking_characters: Seq<char>)
    requires
        0 <= i < s.len(),
        spec_ingenico_element(s, i, masking_characters) is Ok,
    ensures
        ({
            let (node, next) = spec_ingenico_element(s, i, masking_characters)->Ok_0;
            let record = element_record(s, i);
            &&& valid_record(record, masking_characters)
            &&& next == i + record_text(record).len() + 1
            &&& record.separator.len() == (if next <= s.len() {
                1int
            } else {
                0
            })
            &&& next <= s.len() + 1
            &&& s.subrange(i, if next <= s.len() {
                next
            } else {
                s.len() as int
            }) == record_text(record) + record.separator
            &&& node == (if record.kind == TAG_TYPE_EMV {
                Some(record_node(record, masking_characters))
            } else {
                None
            })
        }),
{
    reveal(spec_ingenico_element);
    reveal(element_record);
    let c1 = spec_find(s, i + 1, TAG_FIELD_SEPARATOR)->Some_0;
    lemma_find_first(s, i + 1, TAG_FIELD_SEPARATOR);
    let c2 = spec_find(s, c1 + 1, TAG_FIELD_SEPARATOR)->Some_0;
    lemma_find_first(s, c1 + 1, TAG_FIELD_SEPARATOR);
    let (node, next) = spec_ingenico_element(s, i, masking_characters)->Ok_0;
    let record = element_record(s, i);
    let end = next - 1;
    assert(record.payload.len() == end - (c2 + 2));
    let upto = if next <= s.len() {
        next
    } else {
        s.len() as int
    };
    assert(s.subrange(i, upto) =~= record_text(record) + record.separator);
}

proof fn lemma_ingenico_parse_from_reads(s: Seq<u8>, start: int, masking_characters: Seq<char>)
    requires
        0 <= start <= s.len(),
        spec_ingenico_parse_from(s, start, masking_characters) is Ok,
    ensures
        reads_as(s.skip(start), spec_ingenico_parse_from(s, start, masking_characters)->Ok_0, masking_characters),
    decreases s.len() + 1 - start,
{
    let nodes = spec_ingenico_parse_from(s, start, masking_characters)->Ok_0;
    if start < s.len() {
        lemma_element_record(s, start, masking_characters);
        let (node, next) = spec_ingenico_element(s, start, masking_characters)->Ok_0;
        let record = element_record(s, start);
        let head = seq![record];
        if next <= s.len() {
            lemma_ingenico_parse_from_reads(s, next, masking_characters);
            let rest_nodes = spec_ingenico_parse_from(s, next, masking_characters)->Ok_0;
            let rest = choose|records: Seq<IngenicoRecord>|
                #![trigger written_records(records)]
                {
                    &&& s.skip(next) == written_records(records)
                    &&& forall|i: int| 0 <= i < records.len() ==> valid_record(#[trigger] records[i], masking_characters)
                    &&& forall|i: int| 0 <= i < records.len() - 1 ==> (#[trigger] records[i]).separator.len() == 1
                    &&& rest_nodes == emv_record_nodes(records, masking_characters)
                };
            let records = head + rest;
            assert(records.drop_first() =~= rest);
            assert(s.skip(start) =~= s.subrange(start, next) + s.skip(next));
            assert(s.skip(start) == written_records(records));
            assert(nodes == emv_record_nodes(records, masking_characters)) by {
                if record.kind == TAG_TYPE_EMV {
                    assert(nodes == seq![record_node(record, masking_characters)] + rest_nodes);
                }
            }
            assert forall|i: int| 0 <= i < records.len() implies valid_record(#[trigger] records[i], masking_characters) by {
                if i > 0 {
                    assert(records[i] == rest[i - 1]);
                }
            }
            assert forall|i: int| 0 <= i < records.len() - 1 implies (#[trigger] records[i]).separator.len() == 1 by {
                if i > 0 {
                    assert(records[i] == rest[i - 1]);
                }
            }
            assert(reads_as(s.skip(start), nodes, masking_characters));
        } else {
            assert(spec_ingenico_parse_from(s, next, masking_characters) == Ok::<Seq<NodeModel>, ParseError>(seq![]));
            assert(head.drop_first() =~= Seq::<IngenicoRecord>::empty());
            assert(s.skip(start) =~= s.subrange(start, s.len() as int));
            assert(written_records(head.drop_first()) =~= Seq::<u8>::empty());
            assert(head[0] == record);
            assert(written_records(head) =~= record_text(record) + record.separator);
            assert(s.skip(start) == written_records(head));
            assert(nodes =~= emv_record_nodes(head, masking_characters)) by {
                assert(emv_record_nodes(head.drop_first(), masking_characters) == Seq::<NodeModel>::empty());
                if record.kind == TAG_TYPE_EMV {
                    assert(nodes =~= seq![record_node(record, masking_characters)] + Seq::<NodeModel>::empty());
                }
            }
            assert(reads_as(s.skip(start), nodes, masking_characters));
        }
    } else {
        let empty = Seq::<IngenicoRecord>::empty();
        assert(s.skip(start) =~= written_records(empty));
        assert(nodes =~= emv_record_nodes(empty, masking_characters));
        assert(reads_as(s.skip(start), nodes, masking_characters));
    }
}

/// Text that parses is ASCII, and is well-formed data objects one after the
/// other, each but the last followed by one separator character; the parsed
/// tags are those of the objects whose tag type is `T`, in order, each with
/// the tag identifier and data that its text writes.
pub proof fn lemma_ingenico_parse_reads(data: &str, masking_characters: Seq<char>)
    requires
        spec_ingenico_parse_str(data, masking_characters) is Ok,
    ensures
        is_ascii(data),
        reads_as(data.spec_bytes(), spec_ingenico_parse_str(data, masking_characters)->Ok_0, masking_characters),
{
    lemma_ingenico_parse_from_reads(data.spec_bytes(), 0, masking_characters);
    assert(data.spec_bytes().skip(0) =~= data.spec_bytes());
}

fn find_byte(s: &[u8], from: usize, c: u8) -> (found: Option<usize>)
    requires
        from <= s@.len(),
    ensures
        match found {
            Some(k) => spec_find(s@, from as int, c) == Some(k as int) && from <= k < s@.len(),
            None => spec_find(s@, from as int, c) is None,
        },
{
    let mut k: usize = from;
    while k < s.len()
        invariant
            from <= k <= s@.len(),
            spec_find(s@, from as int, c) == spec_find(s@, k as int, c),
        decreases s@.len() - k,
    {
        if s[k] == c {
            return Some(k);
        }
        k += 1;
    }
    None
}

fn parse_data(s: &[u8], format: u8, i4: usize, length: usize, masking_characters: &[char]) -> (data: Result<
    (EmvData, usize),
    ParseError,
>)
    requires
        i4 <= s@.len(),
    ensures
        match data {
            Ok((d, end)) => spec_ingenico_data(s@, format, i4 as int, length as int, masking_characters@)
                == Ok::<(Option<Seq<u8>>, int), ParseError>((d@, end as int)) && end <= s@.len(),
            Err(e) => spec_ingenico_data(s@, format, i4 as int, length as int, masking_characters@)
                == Err::<(Option<Seq<u8>>, int), ParseError>(e),
        },
{
    let s_len = s.len();
    if format == DATA_FORMAT_ASCII {
        if length > s_len - i4 {
            return Err(ParseError::NonCompliant);
        }
        let end = i4 + length;
        Ok((EmvData::from_u8_check_for_masked(copy_range(s, i4, end), masking_characters), end))
    } else if format == DATA_FORMAT_HEX {
        if length > (s_len - i4) / 2 {
            return Err(ParseError::NonCompliant);
        }
        let end = i4 + length * 2;
        if is_masked_u8(&s[i4..end], masking_characters) {
            assert(s@.subrange(i4 as int, end as int) =~= s@.subrange(i4 as int, end as int));
            return Ok((EmvData::Masked, end));
        }
        match decode_hex_range(s, i4, end) {
            Some(bytes) => Ok((EmvData::Normal(bytes), end)),
            None => Err(ParseError::NonCompliant),
        }
    } else {
        Err(ParseError::NonCompliant)
    }
}

fn parse_element(s: &[u8], i: usize, masking_characters: &[char]) -> (element: Result<
    (Option<RawEmvNode>, usize),
    ParseError,
>)
    requires
        i < s@.len(),
    ensures
        match element {
            Ok((node, next)) => {
                &&& spec_ingenico_element(s@, i as int, masking_characters@) matches Ok((
                    spec_node,
                    spec_next,
                ))
                &&& spec_next == next + 1
                &&& next <= s@.len()
                &&& match node {
                    Some(n) => spec_node == Some(node_model(n)),
                    None => spec_node is None,
                }
            },
            Err(e) => spec_ingenico_element(s@, i as int, masking_characters@) == Err::<
                (Option<NodeModel>, int),
                ParseError,
            >(e),
        },
{
    reveal(spec_ingenico_element);
    let s_len = s.len();
    let tag_type = s[i];
    let i1 = i + 1;
    if i1 >= s_len {
        return Err(ParseError::NonCompliant);
    }
    // Tag ID
    let c1 = match find_byte(s, i1, TAG_FIELD_SEPARATOR) {
        Some(k) => k,
        None => return Err(ParseError::NonCompliant),
    };
    let tag_id = match decode_hex_range(s, i1, c1) {
        Some(bytes) => bytes,
        None => return Err(ParseError::NonCompliant),
    };
    let i2 = c1 + 1;
    if i2 >= s_len || tag_id.len() == 0 {
        return Err(ParseError::NonCompliant);
    }
    let (class, data_object_type) = parse_tag_metadata(tag_id[0]);
    // Tag Length
    let c2 = match find_byte(s, i2, TAG_FIELD_SEPARATOR) {
        Some(k) => k,
        None => return Err(ParseError::NonCompliant),
    };
    let length_bytes = match decode_hex_range(s, i2, c2) {
        Some(bytes) => bytes,
        None => return Err(ParseError::NonCompliant),
    };
    if length_bytes.len() > BYTES_PER_32_BITS {
        return Err(ParseError::Unsupported);
    }
    let length = byte_slice_to_u32(length_bytes.as_slice()) as usize;
    let i3 = c2 + 1;
    if i3 >= s_len {
        return Err(ParseError::NonCompliant);
    }
    // Tag Data
    let (tag_data, end) = match parse_data(s, s[i3], i3 + 1, length, masking_characters) {
        Ok(parsed) => parsed,
        Err(e) => return Err(e),
    };
    let child_block = get_child_block(data_object_type, &tag_data, masking_characters);
    if tag_type != TAG_TYPE_EMV {
        return Ok((None, end));
    }
    let node = RawEmvNode {
        tag: RawEmvTag { tag: tag_id, class, data_object_type, data: tag_data },
        child_block,
    };
    Ok((Some(node), end))
}

/// Parses a block of Ingenico-proprietary TLV encoded data.
///
/// The field separator between data objects may be any character. Data
/// objects whose tag type isn't `T` are skipped.
pub fn parse(data: &str, masking_characters: &[char]) -> (result: Result<RawEmvBlock, ParseError>)
    ensures
        block_result_model(result) == spec_ingenico_parse_str(data, masking_characters@),
{
    // The input data should only be ASCII - no Unicode data is expected.
    if !data.is_ascii() {
        return Err(ParseError::NonCompliant);
    }
    let s = data.as_bytes();
    let s_len = s.len();
    let mut nodes: Vec<RawEmvNode> = Vec::new();
    let mut index: usize = 0;
    proof {
        lemma_prepend_empty(spec_ingenico_parse_from(s@, 0, masking_characters@));
    }
    while index < s_len
        invariant
            index <= s_len == s@.len(),
            s@ == data.spec_bytes(),
            is_ascii(data),
            spec_ingenico_parse(s@, masking_characters@) == prepend(
                nodes_model(nodes@),
                spec_ingenico_parse_from(s@, index as int, masking_characters@),
            ),
        decreases s_len - index,
    {
        let (node, end) = match parse_element(s, index, masking_characters) {
            Ok(element) => element,
            Err(e) => return Err(e),
        };
        proof {
            lemma_ingenico_element_advances(s@, index as int, masking_characters@);
        }
        let ghost rest = spec_ingenico_parse_from(s@, end + 1, masking_characters@);
        match node {
            Some(n) => {
                proof {
                    lemma_nodes_model_push(nodes@, n);
                    lemma_prepend_twice(nodes_model(nodes@), seq![node_model(n)], rest);
                    assert(nodes_model(nodes@) + seq![node_model(n)] =~= nodes_model(nodes@).push(
                        node_model(n),
                    ));
                }
                nodes.push(n);
            },
            None => {},
        }
        if end >= s_len {
            assert(spec_ingenico_parse_from(s@, end + 1, masking_characters@) == Ok::<Seq<NodeModel>, ParseError>(seq![]));
            index = s_len;
        } else {
            index = end + 1;
        }
    }
    proof {
        assert(nodes_model(nodes@) + Seq::<NodeModel>::empty() =~= nodes_model(nodes@));
    }
    Ok(RawEmvBlock { nodes })
}

} // verus!
