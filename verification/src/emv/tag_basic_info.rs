//! Basic information about a tag, from its identifier alone.
use vstd::prelude::*;

use crate::emv::tlv_parsing::ber_tlv::{class_of, data_object_type_of, parse_tag_metadata};
use crate::emv::tlv_parsing::process_emv_tag::{identify_tag, name_view, spec_tag_name};
use crate::emv::tlv_parsing::{DataObjectType, TagClass};
use crate::error::{Comparison, ParseError};
use vstd::std_specs::convert::TryFromSpecImpl;

verus! {

/// The smallest number of bytes in a tag identifier.
pub const MIN_BYTES: usize = 1;

/// What can be known of a tag from its identifier bytes.
#[derive(Clone, Debug, PartialEq, Eq, Hash)]
pub struct TagBasicInfo {
    pub tag: Vec<u8>,
    pub name: Option<&'static str>,
    pub class: TagClass,
    pub data_object_type: DataObjectType,
}

/// The model of a [`TagBasicInfo`].
pub struct TagInfoModel {
    pub tag: Seq<u8>,
    pub name: Option<Seq<char>>,
    pub class: TagClass,
    pub data_object_type: DataObjectType,
}

impl View for TagBasicInfo {
    type V = TagInfoModel;

    open spec fn view(&self) -> TagInfoModel {
        TagInfoModel {
            tag: self.tag@,
            name: name_view(self.name),
            class: self.class,
            data_object_type: self.data_object_type,
        }
    }
}

/// The information of a tag identifier: at least one byte is required.
pub open spec fn spec_tag_basic_info(tag: Seq<u8>) -> Result<TagInfoModel, ParseError> {
    if tag.len() < 1 {
        Err(ParseError::ByteCountIncorrect { comparison: Comparison::Greater, expected: 1, found: tag.len() as usize })
    } else {
        Ok(
            TagInfoModel {
                tag,
                name: spec_tag_name(tag),
                class: class_of(tag[0]),
                data_object_type: data_object_type_of(tag[0]),
            },
        )
    }
}

impl<'a> TryFrom<&'a [u8]> for TagBasicInfo {
    type Error = ParseError;

    fn try_from(tag: &'a [u8]) -> (result: Result<TagBasicInfo, ParseError>)
        ensures
            match result {
                Ok(info) => spec_tag_basic_info(tag@) == Ok::<TagInfoModel, ParseError>(info@),
                Err(error) => spec_tag_basic_info(tag@) == Err::<TagInfoModel, ParseError>(error),
            },
    {
        if tag.len() < MIN_BYTES {
            return Err(ParseError::ByteCountIncorrect { comparison: Comparison::Greater, expected: MIN_BYTES, found: tag.len() });
        }
        let name = identify_tag(tag);
        let (class, data_object_type) = parse_tag_metadata(tag[0]);
        let mut bytes: Vec<u8> = Vec::new();
        let mut i: usize = 0;
        while i < tag.len()
            invariant
                i <= tag@.len(),
                bytes@ == tag@.take(i as int),
            decreases tag@.len() - i,
        {
            bytes.push(tag[i]);
            i += 1;
            assert(bytes@ =~= tag@.take(i as int));
        }
        assert(tag@.take(tag@.len() as int) =~= tag@);
        Ok(TagBasicInfo { tag: bytes, name, class, data_object_type })
    }
}

impl<'a> TryFromSpecImpl<&'a [u8]> for TagBasicInfo {
    /// The result is described over its model instead, by the `ensures` of
    /// `try_from`.
    open spec fn obeys_try_from_spec() -> bool {
        false
    }

    open spec fn try_from_spec(tag: &'a [u8]) -> Result<TagBasicInfo, ParseError> {
        arbitrary()
    }
}

} // verus!
