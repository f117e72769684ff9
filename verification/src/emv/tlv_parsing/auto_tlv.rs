//! Automatic TLV parsing, for TLV data whose exact format is unknown.
use vstd::prelude::*;
use vstd::string::*;

use super::ber_tlv::{parse as parse_ber_tlv, spec_ber_parse};
use super::ingenico_tlv::{parse as parse_ingenico_tlv, spec_ingenico_parse_str};
use super::{NodeModel, RawEmvBlock, TlvFormat};
use crate::error::ParseError;
use crate::util::{decode_hex_lenient, parse_hex_str};

verus! {

/// Automatic parsing: empty text is refused, Ingenico TLV is tried first, then
/// BER-TLV written in hexadecimal.
pub open spec fn spec_auto_parse(tlv_str: &str, masking_characters: Seq<char>) -> Result<
    (TlvFormat, Seq<NodeModel>),
    ParseError,
> {
    if tlv_str@.len() == 0 {
        Err(ParseError::Unrecognised)
    } else {
        match spec_ingenico_parse_str(tlv_str, masking_characters) {
            Ok(block) => Ok((TlvFormat::Ingenico, block)),
            Err(_) => match spec_ber_parse(decode_hex_lenient(tlv_str.spec_bytes()), masking_characters) {
                Ok(block) => Ok((TlvFormat::BerTlv, block)),
                Err(_) => Err(ParseError::Unrecognised),
            },
        }
    }
}

/// Parses a block of TLV data, attempting to find the format automatically.
pub fn parse(tlv_str: &str, masking_characters: &[char]) -> (result: Result<
    (TlvFormat, RawEmvBlock),
    ParseError,
>)
    ensures
        match result {
            Ok((format, block)) => spec_auto_parse(tlv_str, masking_characters@) == Ok::<
                (TlvFormat, Seq<NodeModel>),
                ParseError,
            >((format, block@)),
            Err(e) => spec_auto_parse(tlv_str, masking_characters@) == Err::<
                (TlvFormat, Seq<NodeModel>),
                ParseError,
            >(e),
        },
{
    // Don't accept empty input because it'll match to anything
    if tlv_str.is_empty() {
        return Err(ParseError::Unrecognised);
    }
    match parse_ingenico_tlv(tlv_str, masking_characters) {
        Ok(block) => Ok((TlvFormat::Ingenico, block)),
        Err(_) => {
            let bytes = parse_hex_str(tlv_str);
            match parse_ber_tlv(bytes.as_slice(), masking_characters) {
                Ok(block) => Ok((TlvFormat::BerTlv, block)),
                Err(_) => Err(ParseError::Unrecognised),
            }
        },
    }
}

} // verus!
