//! Tag-Length-Value (TLV) data: the raw tree of tags and the masking rules.
//!
//! Some information for this can be found in EMV Book 3, under `Annex B`.
use vstd::prelude::*;
use vstd::string::*;

use crate::error::ParseError;
use vstd::std_specs::convert::{FromSpecImpl, TryFromSpecImpl};

pub mod auto_tlv;
pub mod ber_tlv;
pub mod ingenico_tlv;
pub mod process_emv_tag;
pub mod sort;
pub mod strict_ber_tlv;

pub use self::strict_ber_tlv::parse_ber_tlv;

verus! {

/// The class of a tag, from the two most significant bits of its first byte.
#[derive(Clone, Copy, Debug, PartialEq, Eq, Structural, Hash)]
pub enum TagClass {
    /// Universal
    Universal,
    /// Application
    Application,
    /// Context-Specific
    ContextSpecific,
    /// Private
    Private,
}

impl TagClass {
    /// The value that `code` stands for, if any.
    pub open spec fn spec_from_code(code: u8) -> Option<TagClass> {
        if code == 0x00u8 {
            Some(TagClass::Universal)
        } else if code == 0x01u8 {
            Some(TagClass::Application)
        } else if code == 0x02u8 {
            Some(TagClass::ContextSpecific)
        } else if code == 0x03u8 {
            Some(TagClass::Private)
        } else {
            None
        }
    }

    /// The code of the value.
    pub open spec fn spec_code(self) -> u8 {
        match self {
            TagClass::Universal => 0x00u8,
            TagClass::Application => 0x01u8,
            TagClass::ContextSpecific => 0x02u8,
            TagClass::Private => 0x03u8,
        }
    }

    /// What the value means, in words.
    pub open spec fn spec_description(self) -> Seq<char> {
        match self {
            TagClass::Universal => "Universal"@,
            TagClass::Application => "Application"@,
            TagClass::ContextSpecific => "Context-Specific"@,
            TagClass::Private => "Private"@,
        }
    }

    /// Conversion from a code: the value it stands for, or an error.
    pub open spec fn spec_try_from(code: u8) -> Result<TagClass, ParseError> {
        match TagClass::spec_from_code(code) {
            Some(value) => Ok(value),
            None => Err(ParseError::NonCompliant),
        }
    }

    /// The code of the value.
    pub fn code(&self) -> (code: u8)
        ensures
            code == self.spec_code(),
    {
        match self {
            TagClass::Universal => 0x00u8,
            TagClass::Application => 0x01u8,
            TagClass::ContextSpecific => 0x02u8,
            TagClass::Private => 0x03u8,
        }
    }

    /// What the value means, in words.
    pub fn description(&self) -> (text: &'static str)
        ensures
            text@ == self.spec_description(),
    {
        match self {
            TagClass::Universal => "Universal",
            TagClass::Application => "Application",
            TagClass::ContextSpecific => "Context-Specific",
            TagClass::Private => "Private",
        }
    }
}

impl TryFrom<u8> for TagClass {
    type Error = ParseError;

    fn try_from(code: u8) -> (result: Result<TagClass, ParseError>)
        ensures
            result == TagClass::spec_try_from(code),
    {
        match code {
            0x00u8 => Ok(TagClass::Universal),
            0x01u8 => Ok(TagClass::Application),
            0x02u8 => Ok(TagClass::ContextSpecific),
            0x03u8 => Ok(TagClass::Private),
            _ => Err(ParseError::NonCompliant),
        }
    }
}

impl TryFromSpecImpl<u8> for TagClass {
    open spec fn obeys_try_from_spec() -> bool {
        true
    }

    open spec fn try_from_spec(code: u8) -> Result<TagClass, ParseError> {
        TagClass::spec_try_from(code)
    }
}

/// A code stands for a value exactly when it is that value's code.
pub proof fn lemma_tag_class_codes(code: u8, value: TagClass)
    ensures
        (TagClass::spec_from_code(code) == Some(value)) <==> (code == value.spec_code()),
{
}

/// Whether a data object holds plain data or further data objects.
#[derive(Clone, Copy, Debug, PartialEq, Eq, Structural, Hash)]
pub enum DataObjectType {
    Primitive,
    Constructed,
}

impl DataObjectType {
    /// What the value means, in words.
    pub open spec fn spec_description(self) -> Seq<char> {
        match self {
            DataObjectType::Primitive => "Primitive"@,
            DataObjectType::Constructed => "Constructed"@,
        }
    }

    /// What the value means, in words.
    pub fn description(&self) -> (text: &'static str)
        ensures
            text@ == self.spec_description(),
    {
        match self {
            DataObjectType::Primitive => "Primitive",
            DataObjectType::Constructed => "Constructed",
        }
    }
}

/// EMV data, encoding the ability for data to be masked and therefore
/// inaccessible.
#[derive(Clone, Debug, PartialEq, Eq, Hash)]
pub enum EmvData {
    Normal(Vec<u8>),
    Masked,
}

impl View for EmvData {
    /// `None` stands for masked data.
    type V = Option<Seq<u8>>;

    open spec fn view(&self) -> Option<Seq<u8>> {
        match self {
            EmvData::Normal(data) => Some(data@),
            EmvData::Masked => None,
        }
    }
}

/// The model of one raw tag: its identifier bytes, metadata and data.
pub struct TagModel {
    pub tag: Seq<u8>,
    pub class: TagClass,
    pub data_object_type: DataObjectType,
    pub data: Option<Seq<u8>>,
}

/// The model of one node of the tag tree: a tag and its child tags.
pub struct NodeModel {
    pub tag: TagModel,
    pub children: Seq<NodeModel>,
}

/// A raw EMV tag-value pair, with no meaning associated with it.
#[derive(Clone, Debug, PartialEq, Eq, Hash)]
pub struct RawEmvTag {
    pub tag: Vec<u8>,
    pub class: TagClass,
    pub data_object_type: DataObjectType,
    pub data: EmvData,
}

impl View for RawEmvTag {
    type V = TagModel;

    open spec fn view(&self) -> TagModel {
        TagModel {
            tag: self.tag@,
            class: self.class,
            data_object_type: self.data_object_type,
            data: self.data@,
        }
    }
}

/// A tag together with the tags nested inside it.
#[derive(Debug, PartialEq, Eq, Hash)]
pub struct RawEmvNode {
    pub tag: RawEmvTag,
    pub child_block: RawEmvBlock,
}

/// A sequence of tags, as found at one level of the tag tree.
#[derive(Debug, PartialEq, Eq, Hash)]
pub struct RawEmvBlock {
    pub nodes: Vec<RawEmvNode>,
}

/// The model of one node.
pub open spec fn node_model(node: RawEmvNode) -> NodeModel
    decreases node, 1int,
{
    NodeModel { tag: node.tag@, children: nodes_model(node.child_block.nodes@) }
}

/// The models of a sequence of nodes.
pub open spec fn nodes_model(nodes: Seq<RawEmvNode>) -> Seq<NodeModel>
    decreases nodes, 0int,
{
    if nodes.len() == 0 {
        seq![]
    } else {
        nodes_model(nodes.drop_last()).push(node_model(nodes.last()))
    }
}

impl View for RawEmvNode {
    type V = NodeModel;

    open spec fn view(&self) -> NodeModel {
        node_model(*self)
    }
}

impl View for RawEmvBlock {
    type V = Seq<NodeModel>;

    open spec fn view(&self) -> Seq<NodeModel> {
        nodes_model(self.nodes@)
    }
}

impl RawEmvBlock {
    /// A block with no nodes.
    pub fn empty() -> (block: Self)
        ensures
            block@ == Seq::<NodeModel>::empty(),
    {
        RawEmvBlock { nodes: Vec::new() }
    }
}

impl Default for RawEmvBlock {
    fn default() -> (block: Self)
        ensures
            block@ == Seq::<NodeModel>::empty(),
    {
        RawEmvBlock::empty()
    }
}

impl From<Vec<RawEmvNode>> for RawEmvBlock {
    fn from(nodes: Vec<RawEmvNode>) -> (block: RawEmvBlock)
        ensures
            block.nodes == nodes,
    {
        RawEmvBlock { nodes }
    }
}

impl FromSpecImpl<Vec<RawEmvNode>> for RawEmvBlock {
    open spec fn obeys_from_spec() -> bool {
        true
    }

    open spec fn from_spec(nodes: Vec<RawEmvNode>) -> RawEmvBlock {
        RawEmvBlock { nodes }
    }
}

impl From<RawEmvBlock> for Vec<RawEmvNode> {
    fn from(block: RawEmvBlock) -> (nodes: Vec<RawEmvNode>)
        ensures
            nodes == block.nodes,
    {
        block.nodes
    }
}

impl FromSpecImpl<RawEmvBlock> for Vec<RawEmvNode> {
    open spec fn obeys_from_spec() -> bool {
        true
    }

    open spec fn from_spec(block: RawEmvBlock) -> Vec<RawEmvNode> {
        block.nodes
    }
}

/// The model of a parsing result that yields a block.
pub open spec fn block_result_model(r: Result<RawEmvBlock, ParseError>) -> Result<Seq<NodeModel>, ParseError> {
    match r {
        Ok(block) => Ok(block@),
        Err(e) => Err(e),
    }
}

/// Puts `prefix` in front of the nodes of a successful result.
pub open spec fn prepend(prefix: Seq<NodeModel>, r: Result<Seq<NodeModel>, ParseError>) -> Result<Seq<NodeModel>, ParseError> {
    match r {
        Ok(rest) => Ok(prefix + rest),
        Err(e) => Err(e),
    }
}

/// Putting nothing in front of a result leaves it unchanged.
pub proof fn lemma_prepend_empty(r: Result<Seq<NodeModel>, ParseError>)
    ensures
        prepend(seq![], r) == r,
{
    if let Ok(rest) = r {
        assert(Seq::<NodeModel>::empty() + rest =~= rest);
    }
}

/// Prepending twice is prepending the concatenation.
pub proof fn lemma_prepend_twice(a: Seq<NodeModel>, b: Seq<NodeModel>, r: Result<Seq<NodeModel>, ParseError>)
    ensures
        prepend(a, prepend(b, r)) == prepend(a + b, r),
{
    if let Ok(rest) = r {
        assert(a + (b + rest) =~= (a + b) + rest);
    }
}

/// Adding a node at the end of a node vector adds its model at the end.
pub proof fn lemma_nodes_model_push(nodes: Seq<RawEmvNode>, node: RawEmvNode)
    ensures
        nodes_model(nodes.push(node)) == nodes_model(nodes).push(node_model(node)),
{
    assert(nodes.push(node).drop_last() =~= nodes);
}

/// The minimum number of characters for data to count as masked.
pub const MASKING_CHAR_MINIMUM: usize = 2;

/// Every byte of `data`, read as a character, is `c`.
pub open spec fn all_bytes_are(data: Seq<u8>, c: char) -> bool {
    forall|j: int| 0 <= j < data.len() ==> #[trigger] data[j] as char == c
}

/// Byte data is masked when it has at least two bytes and they are all the
/// same masking character.
pub open spec fn masked_bytes(data: Seq<u8>, masking_characters: Seq<char>) -> bool {
    &&& data.len() >= MASKING_CHAR_MINIMUM
    &&& exists|i: int|
        0 <= i < masking_characters.len() && #[trigger] all_bytes_are(data, masking_characters[i])
}

/// Every character of `data` is `c`.
pub open spec fn all_chars_are(data: Seq<char>, c: char) -> bool {
    forall|j: int| 0 <= j < data.len() ==> #[trigger] data[j] == c
}

/// Text is masked when its UTF-8 encoding has at least two bytes and all of its
/// characters are the same masking character.
pub open spec fn masked_str(data: &str, masking_characters: Seq<char>) -> bool {
    &&& data.spec_bytes().len() >= MASKING_CHAR_MINIMUM
    &&& exists|i: int|
        0 <= i < masking_characters.len() && #[trigger] all_chars_are(data@, masking_characters[i])
}

fn bytes_all_are(data: &[u8], c: char) -> (all: bool)
    ensures
        all == all_bytes_are(data@, c),
{
    let mut j: usize = 0;
    while j < data.len()
        invariant
            j <= data@.len(),
            forall|k: int| 0 <= k < j ==> #[trigger] data@[k] as char == c,
        decreases data@.len() - j,
    {
        if data[j] as char != c {
            return false;
        }
        j += 1;
    }
    true
}

/// Whether byte data consists of nothing but one masking character.
pub fn is_masked_u8(data: &[u8], masking_characters: &[char]) -> (masked: bool)
    ensures
        masked == masked_bytes(data@, masking_characters@),
{
    if data.len() < MASKING_CHAR_MINIMUM {
        return false;
    }
    let mut i: usize = 0;
    while i < masking_characters.len()
        invariant
            i <= masking_characters@.len(),
            data@.len() >= MASKING_CHAR_MINIMUM,
            forall|k: int| 0 <= k < i ==> !#[trigger] all_bytes_are(data@, masking_characters@[k]),
        decreases masking_characters@.len() - i,
    {
        if bytes_all_are(data, masking_characters[i]) {
            assert(all_bytes_are(data@, masking_characters@[i as int]));
            return true;
        }
        i += 1;
    }
    false
}

fn chars_all_are(data: &str, c: char) -> (all: bool)
    ensures
        all == all_chars_are(data@, c),
{
    let n = data.unicode_len();
    let mut j: usize = 0;
    while j < n
        invariant
            j <= n == data@.len(),
            forall|k: int| 0 <= k < j ==> #[trigger] data@[k] == c,
        decreases n - j,
    {
        if data.get_char(j) != c {
            return false;
        }
        j += 1;
    }
    true
}

/// Whether text consists of nothing but one masking character.
pub fn is_masked_str(data: &str, masking_characters: &[char]) -> (masked: bool)
    ensures
        masked == masked_str(data, masking_characters@),
{
    if data.as_bytes().len() < MASKING_CHAR_MINIMUM {
        return false;
    }
    let mut i: usize = 0;
    while i < masking_characters.len()
        invariant
            i <= masking_characters@.len(),
            data.spec_bytes().len() >= MASKING_CHAR_MINIMUM,
            forall|k: int| 0 <= k < i ==> !#[trigger] all_chars_are(data@, masking_characters@[k]),
        decreases masking_characters@.len() - i,
    {
        if chars_all_are(data, masking_characters[i]) {
            assert(all_chars_are(data@, masking_characters@[i as int]));
            return true;
        }
        i += 1;
    }
    false
}

/// The data of a tag: masked when its bytes are all one masking character.
pub open spec fn data_model(data: Seq<u8>, masking_characters: Seq<char>) -> Option<Seq<u8>> {
    if masked_bytes(data, masking_characters) {
        None
    } else {
        Some(data)
    }
}

impl EmvData {
    /// The data length, or `None` if it is masked.
    pub fn len(&self) -> (len: Option<usize>)
        ensures
            len == match self@ {
                Some(data) => Some(data.len() as usize),
                None => None::<usize>,
            },
    {
        match self {
            EmvData::Normal(data) => Some(data.len()),
            EmvData::Masked => None,
        }
    }

    /// Wraps `data`, or gives [`EmvData::Masked`] if it is masked.
    pub fn from_u8_check_for_masked(data: Vec<u8>, masking_characters: &[char]) -> (emv_data: Self)
        ensures
            emv_data@ == data_model(data@, masking_characters@),
    {
        if is_masked_u8(data.as_slice(), masking_characters) {
            EmvData::Masked
        } else {
            EmvData::Normal(data)
        }
    }
}

/// The TLV formats that can be parsed.
#[derive(Clone, Copy, Debug, PartialEq, Eq, Structural, Hash)]
pub enum TlvFormat {
    BerTlv,
    Ingenico,
}

impl TlvFormat {
    /// The name of the format.
    pub open spec fn spec_description(self) -> Seq<char> {
        match self {
            TlvFormat::BerTlv => "BER-TLV"@,
            TlvFormat::Ingenico => "Ingenico"@,
        }
    }

    /// The name of the format.
    pub fn description(&self) -> (text: &'static str)
        ensures
            text@ == self.spec_description(),
    {
        match self {
            TlvFormat::BerTlv => "BER-TLV",
            TlvFormat::Ingenico => "Ingenico",
        }
    }
}

/// The code table of BER-TLV: each code gives the value named beside it,
/// which reads as the text beside it, and every other code is refused.
#[verifier::rlimit(40)]
pub proof fn lemma_tag_class_code_table(code: u8)
    ensures
        code == 0x00u8 ==> TagClass::spec_try_from(code) == Ok::<TagClass, ParseError>(TagClass::Universal),
        code == 0x01u8 ==> TagClass::spec_try_from(code) == Ok::<TagClass, ParseError>(TagClass::Application),
        code == 0x02u8 ==> TagClass::spec_try_from(code) == Ok::<TagClass, ParseError>(TagClass::ContextSpecific),
        code == 0x03u8 ==> TagClass::spec_try_from(code) == Ok::<TagClass, ParseError>(TagClass::Private),
        !(code == 0x00u8 || code == 0x01u8 || code == 0x02u8 || code == 0x03u8) ==> TagClass::spec_try_from(code) is Err,
        TagClass::Universal.spec_description() == "Universal"@,
        TagClass::Application.spec_description() == "Application"@,
        TagClass::ContextSpecific.spec_description() == "Context-Specific"@,
        TagClass::Private.spec_description() == "Private"@,
{
}

} // verus!
