//! Everything for handling Cardholder Verification (CV) Rule values.
//!
//! Information for this can be found in EMV Book 3, under section `C3`.
use vstd::prelude::*;

pub mod cv_method;
pub mod cvm_condition;

use self::cv_method::{CvMethod, OptionalCvMethod};
use self::cvm_condition::{CvmCondition, OptionalCvmCondition};
use crate::emv::bitflag_values::{
    group_range_at, range_at,
    bit_range, bit_range_models, push_bit_range_if, push_bit_range_with_value, push_if, BitRangeModel,
    EnabledBitRange, Severity,
};
use crate::error::{Comparison, ParseError};
use vstd::std_specs::convert::TryFromSpecImpl;

verus! {

/// A Cardholder Verification (CV) Rule: a method, the condition under which it
/// applies, and what to do when it fails.
#[derive(Clone, Copy, Debug, PartialEq, Eq, Structural, Hash)]
pub struct CardholderVerificationRule {
    pub continue_if_unsuccessful: bool,
    pub method: OptionalCvMethod,
    pub condition: OptionalCvmCondition,
}

impl CardholderVerificationRule {
    /// The number of bytes in a raw CV Rule.
    pub const NUM_BYTES: usize = 2;

    /// The rule written by two raw bytes. Codes that are not known give an
    /// unknown method or condition.
    pub open spec fn spec_from_bytes(bytes: Seq<u8>) -> CardholderVerificationRule {
        CardholderVerificationRule {
            continue_if_unsuccessful: bytes[0] & 0x40u8 != 0,
            method: OptionalCvMethod { internal: CvMethod::spec_from_code(bytes[0] & 0x3Fu8) },
            condition: OptionalCvmCondition { internal: CvmCondition::spec_from_code(bytes[1]) },
        }
    }

    /// Parsing: exactly `2` bytes are required.
    pub open spec fn spec_try_from(bytes: Seq<u8>) -> Result<CardholderVerificationRule, ParseError> {
        if bytes.len() != 2 {
            Err(ParseError::ByteCountIncorrect { comparison: Comparison::Equal, expected: 2, found: bytes.len() as usize })
        } else {
            Ok(CardholderVerificationRule::spec_from_bytes(bytes))
        }
    }

    /// The enabled bits and values, left to right, with their meaning.
    pub open spec fn spec_bit_display(self) -> Seq<BitRangeModel> {
        push_if(
            Seq::<BitRangeModel>::empty(),
            self.continue_if_unsuccessful,
            bit_range(14, 1, "Apply succeeding CV Rule if this CVM is unsuccessful"@, Severity::Normal),
        ).push(bit_range(13, 6, "Method: "@ + self.method.spec_description(), Severity::Normal)).push(
            bit_range(7, 8, "Condition: "@ + self.condition.spec_description(), Severity::Normal),
        )
    }

    /// Builds the rule from its two raw bytes.
    pub fn from_bytes(bytes: &[u8]) -> (rule: CardholderVerificationRule)
        requires
            bytes@.len() == 2,
        ensures
            rule == CardholderVerificationRule::spec_from_bytes(bytes@),
    {
        let method = match CvMethod::try_from(bytes[0] & 0x3Fu8) {
            Ok(method) => Some(method),
            Err(_) => None,
        };
        let condition = match CvmCondition::try_from(bytes[1]) {
            Ok(condition) => Some(condition),
            Err(_) => None,
        };
        CardholderVerificationRule {
            continue_if_unsuccessful: bytes[0] & 0x40u8 != 0,
            method: OptionalCvMethod { internal: method },
            condition: OptionalCvmCondition { internal: condition },
        }
    }

    /// Fetches the bits and values to display for this rule, in left-to-right
    /// order.
    pub fn get_bit_display_information(&self) -> (ranges: Vec<EnabledBitRange>)
        ensures
            bit_range_models(ranges@) == self.spec_bit_display(),
    {
        let ranges: Vec<EnabledBitRange> = Vec::new();
        assert(bit_range_models(ranges@) =~= Seq::<BitRangeModel>::empty());
        let mut ranges = push_bit_range_if(
            ranges,
            self.continue_if_unsuccessful,
            14,
            1,
            "Apply succeeding CV Rule if this CVM is unsuccessful",
            Severity::Normal,
        );
        push_bit_range_with_value(&mut ranges, 13, 6, "Method: ", self.method.description(), Severity::Normal);
        push_bit_range_with_value(&mut ranges, 7, 8, "Condition: ", self.condition.description(), Severity::Normal);
        ranges
    }
}

impl<'a> TryFrom<&'a [u8]> for CardholderVerificationRule {
    type Error = ParseError;

    fn try_from(raw_bytes: &'a [u8]) -> (result: Result<CardholderVerificationRule, ParseError>)
        ensures
            result == CardholderVerificationRule::spec_try_from(raw_bytes@),
    {
        if raw_bytes.len() != 2 {
            return Err(ParseError::ByteCountIncorrect { comparison: Comparison::Equal, expected: 2, found: raw_bytes.len() });
        }
        Ok(CardholderVerificationRule::from_bytes(raw_bytes))
    }
}

impl<'a> TryFromSpecImpl<&'a [u8]> for CardholderVerificationRule {
    open spec fn obeys_try_from_spec() -> bool {
        true
    }

    open spec fn try_from_spec(raw_bytes: &'a [u8]) -> Result<CardholderVerificationRule, ParseError> {
        CardholderVerificationRule::spec_try_from(raw_bytes@)
    }
}

/// Reading a CV Rule: bit 7 of the first byte says whether to go on to the
/// next rule, its low six bits are the method code and the second byte the
/// condition code (codes that are not known give an unknown value); the
/// display shows the flag at bit 14 only when set, the method at bit 13 and
/// the condition at bit 7.
#[verifier::rlimit(40)]
pub proof fn lemma_cv_rule_bits_shown(bytes: Seq<u8>, offset: u8)
    requires
        bytes.len() == 2,
    ensures
        CardholderVerificationRule::spec_try_from(bytes) is Ok,
        ({
            let rule = CardholderVerificationRule::spec_try_from(bytes)->Ok_0;
            let shown = rule.spec_bit_display();
            &&& rule.continue_if_unsuccessful == (bytes[0] & 0x40u8 != 0)
            &&& rule.method.internal == match CvMethod::spec_try_from(bytes[0] & 0x3Fu8) {
                Ok(method) => Some(method),
                Err(_) => None,
            }
            &&& rule.condition.internal == match CvmCondition::spec_try_from(bytes[1]) {
                Ok(condition) => Some(condition),
                Err(_) => None,
            }
            &&& range_at(shown, 14) == if bytes[0] & 0x40u8 != 0 {
                Some(bit_range(14, 1, "Apply succeeding CV Rule if this CVM is unsuccessful"@, Severity::Normal))
            } else {
                None
            }
            &&& range_at(shown, 13) == Some(bit_range(13, 6, "Method: "@ + rule.method.spec_description(), Severity::Normal))
            &&& range_at(shown, 7) == Some(
                bit_range(7, 8, "Condition: "@ + rule.condition.spec_description(), Severity::Normal),
            )
            &&& !(offset == 14 || offset == 13 || offset == 7) ==> range_at(shown, offset) is None
        }),
{
    broadcast use group_range_at;

}

} // verus!
