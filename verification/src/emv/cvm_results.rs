//! Everything for handling Cardholder Verification Method (CVM) Results values.
//!
//! Information for this can be found in EMV Book 4, under section `A4`.
use vstd::prelude::*;

use crate::emv::bitflag_values::{
    group_range_at, range_at,
    append_bit_ranges, bit_range, bit_range_models, group_bit_range_order, push_bit_range_with_value, push_if,
    range_fits, ranges_in_order, ranges_left_of, BitRangeModel, BitflagValue,
    EnabledBitRange, Severity,
};
use crate::emv::cv_rule::CardholderVerificationRule;
use crate::error::{Comparison, ParseError};
use vstd::std_specs::cmp::PartialEqSpecImpl;
use vstd::std_specs::convert::TryFromSpecImpl;

verus! {

/// Cardholder Verification Method (CVM) Results: the CV Rule that was used and
/// how it went. Two values are equal when their rule and result are; the raw
/// bytes are kept for display.
#[derive(Clone, Copy, Debug, Eq)]
pub struct CardholderVerificationMethodResults {
    /// The raw bytes, with the bits that have no meaning cleared.
    pub bytes: [u8; 3],
    pub cv_rule: CardholderVerificationRule,
    pub result: CvmResult,
}

/// The result of the last Cardholder Verification Method performed.
#[derive(Clone, Copy, Debug, PartialEq, Eq, Structural, Hash)]
pub enum CvmResult {
    /// Unknown
    Unknown,
    /// Failed
    Failed,
    /// Successful
    Successful,
}

impl CvmResult {
    /// The value that `code` stands for, if any.
    pub open spec fn spec_from_code(code: u8) -> Option<CvmResult> {
        if code == 0x00u8 {
            Some(CvmResult::Unknown)
        } else if code == 0x01u8 {
            Some(CvmResult::Failed)
        } else if code == 0x02u8 {
            Some(CvmResult::Successful)
        } else {
            None
        }
    }

    /// The code of the value.
    pub open spec fn spec_code(self) -> u8 {
        match self {
            CvmResult::Unknown => 0x00u8,
            CvmResult::Failed => 0x01u8,
            CvmResult::Successful => 0x02u8,
        }
    }

    /// What the value means, in words.
    pub open spec fn spec_description(self) -> Seq<char> {
        match self {
            CvmResult::Unknown => "Unknown"@,
            CvmResult::Failed => "Failed"@,
            CvmResult::Successful => "Successful"@,
        }
    }

    /// Conversion from a code: the value it stands for, or an error.
    pub open spec fn spec_try_from(code: u8) -> Result<CvmResult, ParseError> {
        match CvmResult::spec_from_code(code) {
            Some(value) => Ok(value),
            None => Err(ParseError::NonCompliant),
        }
    }

    /// The code of the value.
    pub fn code(&self) -> (code: u8)
        ensures
            code == self.spec_code(),
    {
        match self {
            CvmResult::Unknown => 0x00u8,
            CvmResult::Failed => 0x01u8,
            CvmResult::Successful => 0x02u8,
        }
    }

    /// What the value means, in words.
    pub fn description(&self) -> (text: &'static str)
        ensures
            text@ == self.spec_description(),
    {
        match self {
            CvmResult::Unknown => "Unknown",
            CvmResult::Failed => "Failed",
            CvmResult::Successful => "Successful",
        }
    }
}

impl TryFrom<u8> for CvmResult {
    type Error = ParseError;

    fn try_from(code: u8) -> (result: Result<CvmResult, ParseError>)
        ensures
            result == CvmResult::spec_try_from(code),
    {
        match code {
            0x00u8 => Ok(CvmResult::Unknown),
            0x01u8 => Ok(CvmResult::Failed),
            0x02u8 => Ok(CvmResult::Successful),
            _ => Err(ParseError::NonCompliant),
        }
    }
}

impl TryFromSpecImpl<u8> for CvmResult {
    open spec fn obeys_try_from_spec() -> bool {
        true
    }

    open spec fn try_from_spec(code: u8) -> Result<CvmResult, ParseError> {
        CvmResult::spec_try_from(code)
    }
}

/// A code stands for a value exactly when it is that value's code.
pub proof fn lemma_cvm_result_codes(code: u8, value: CvmResult)
    ensures
        (CvmResult::spec_from_code(code) == Some(value)) <==> (code == value.spec_code()),
{
}

impl CardholderVerificationMethodResults {
    /// The bytes kept by the parser: the unused bit 8 of the first byte is cleared.
    pub open spec fn masked(bytes: Seq<u8>) -> Seq<u8> {
        seq![bytes[0] & 0x7Fu8, bytes[1], bytes[2]]
    }

    /// Parsing: exactly `3` bytes are required, and the result code must be
    /// known.
    pub open spec fn spec_try_from(bytes: Seq<u8>) -> Result<CardholderVerificationMethodResults, ParseError> {
        if bytes.len() != 3 {
            Err(ParseError::ByteCountIncorrect { comparison: Comparison::Equal, expected: 3, found: bytes.len() as usize })
        } else {
            match CvmResult::spec_try_from(bytes[2]) {
                Err(error) => Err(error),
                Ok(result) => Ok(
                    CardholderVerificationMethodResults {
                        bytes: [bytes[0] & 0x7Fu8, bytes[1], bytes[2]],
                        cv_rule: CardholderVerificationRule::spec_from_bytes(Self::masked(bytes).subrange(0, 2)),
                        result,
                    },
                ),
            }
        }
    }

    /// The three bytes of the low 24 bits of `bits`, most significant first.
    pub open spec fn bytes_of_bits(bits: u32) -> Seq<u8> {
        seq![(bits >> 16u32) as u8, (bits >> 8u32) as u8, bits as u8]
    }

    /// The value of the low 24 bits of `bits`; a result code that is not
    /// known is read as [`CvmResult::Unknown`].
    pub open spec fn spec_new(bits: u32) -> CardholderVerificationMethodResults {
        let bytes = Self::bytes_of_bits(bits);
        CardholderVerificationMethodResults {
            bytes: [bytes[0] & 0x7Fu8, bytes[1], bytes[2]],
            cv_rule: CardholderVerificationRule::spec_from_bytes(Self::masked(bytes).subrange(0, 2)),
            result: match CvmResult::spec_from_code(bytes[2]) {
                Some(result) => result,
                None => CvmResult::Unknown,
            },
        }
    }

    /// The severity of a result.
    pub open spec fn spec_result_severity(result: CvmResult) -> Severity {
        match result {
            CvmResult::Failed => Severity::Error,
            _ => Severity::Normal,
        }
    }

    /// The enabled bits and values, left to right: those of the CV Rule, moved
    /// up a byte, then the result.
    pub open spec fn spec_bit_display(self) -> Seq<BitRangeModel> {
        self.cv_rule.spec_bit_display().map_values(
            |range: BitRangeModel| bit_range((range.offset + 8) as u8, range.len, range.explanation, range.severity),
        ).push(bit_range(7, 8, "Result: "@ + self.result.spec_description(), Self::spec_result_severity(self.result)))
    }

    /// Reads the value from the low 24 bits of `bits`, leniently: a result
    /// code that is not known is read as [`CvmResult::Unknown`].
    pub fn new(bits: u32) -> (value: CardholderVerificationMethodResults)
        ensures
            value == Self::spec_new(bits),
    {
        let byte_0 = (bits >> 16u32) as u8;
        let byte_1 = (bits >> 8u32) as u8;
        let byte_2 = bits as u8;
        let rule_bytes = [byte_0 & 0x7Fu8, byte_1];
        assert(rule_bytes@ =~= Self::masked(Self::bytes_of_bits(bits)).subrange(0, 2));
        let cv_rule = CardholderVerificationRule::from_bytes(rule_bytes.as_slice());
        let result = match CvmResult::try_from(byte_2) {
            Ok(result) => result,
            Err(_) => CvmResult::Unknown,
        };
        CardholderVerificationMethodResults { bytes: [byte_0 & 0x7Fu8, byte_1, byte_2], cv_rule, result }
    }

    fn shifted_rule_ranges(&self) -> (ranges: Vec<EnabledBitRange>)
        ensures
            bit_range_models(ranges@) == self.cv_rule.spec_bit_display().map_values(
                |range: BitRangeModel| bit_range((range.offset + 8) as u8, range.len, range.explanation, range.severity),
            ),
    {
        let rule_ranges = self.cv_rule.get_bit_display_information();
        let ghost target = bit_range_models(rule_ranges@).map_values(
            |range: BitRangeModel| bit_range((range.offset + 8) as u8, range.len, range.explanation, range.severity),
        );
        let mut ranges: Vec<EnabledBitRange> = Vec::new();
        let mut i: usize = 0;
        proof {
            reveal(push_if);
            assert forall|k: int| 0 <= k < rule_ranges@.len() implies #[trigger] rule_ranges@[k].offset <= 14 by {
                assert(bit_range_models(rule_ranges@)[k] == rule_ranges@[k]@);
            }
        }
        assert(ranges@.len() == 0);
        assert(bit_range_models(ranges@) =~= target.take(0));
        while i < rule_ranges.len()
            invariant
                i <= rule_ranges@.len(),
                rule_ranges@.len() <= 3,
                forall|k: int| 0 <= k < rule_ranges@.len() ==> #[trigger] rule_ranges@[k].offset <= 14,
                target == bit_range_models(rule_ranges@).map_values(
                    |range: BitRangeModel| bit_range((range.offset + 8) as u8, range.len, range.explanation, range.severity),
                ),
                bit_range_models(ranges@) == target.take(i as int),
            decreases rule_ranges@.len() - i,
        {
            let range = &rule_ranges[i];
            let shifted = EnabledBitRange {
                offset: range.offset + 8,
                len: range.len,
                explanation: range.explanation.clone(),
                severity: range.severity,
            };
            let ghost before = ranges@;
            ranges.push(shifted);
            assert(bit_range_models(rule_ranges@)[i as int] == rule_ranges@[i as int]@);
            assert(target[i as int] == shifted@);
            assert(bit_range_models(ranges@) =~= bit_range_models(before).push(shifted@));
            assert(bit_range_models(ranges@) =~= target.take(i + 1));
            i += 1;
        }
        assert(target.take(rule_ranges@.len() as int) =~= target);
        ranges
    }
}

impl PartialEq for CardholderVerificationMethodResults {
    fn eq(&self, other: &CardholderVerificationMethodResults) -> (equal: bool) {
        self.cv_rule == other.cv_rule && self.result == other.result
    }
}

impl PartialEqSpecImpl for CardholderVerificationMethodResults {
    open spec fn obeys_eq_spec() -> bool {
        true
    }

    open spec fn eq_spec(&self, other: &CardholderVerificationMethodResults) -> bool {
        self.cv_rule == other.cv_rule && self.result == other.result
    }
}

impl<'a> TryFrom<&'a [u8]> for CardholderVerificationMethodResults {
    type Error = ParseError;

    fn try_from(raw_bytes: &'a [u8]) -> (result: Result<CardholderVerificationMethodResults, ParseError>)
        ensures
            result == CardholderVerificationMethodResults::spec_try_from(raw_bytes@),
    {
        if raw_bytes.len() != 3 {
            return Err(ParseError::ByteCountIncorrect { comparison: Comparison::Equal, expected: 3, found: raw_bytes.len() });
        }
        let bytes = [raw_bytes[0] & 0x7Fu8, raw_bytes[1], raw_bytes[2]];
        let rule_bytes = [bytes[0], bytes[1]];
        assert(rule_bytes@ =~= Self::masked(raw_bytes@).subrange(0, 2));
        let cv_rule = CardholderVerificationRule::from_bytes(rule_bytes.as_slice());
        let result = match CvmResult::try_from(bytes[2]) {
            Ok(result) => result,
            Err(error) => return Err(error),
        };
        Ok(CardholderVerificationMethodResults { bytes, cv_rule, result })
    }
}

impl<'a> TryFromSpecImpl<&'a [u8]> for CardholderVerificationMethodResults {
    open spec fn obeys_try_from_spec() -> bool {
        true
    }

    open spec fn try_from_spec(raw_bytes: &'a [u8]) -> Result<CardholderVerificationMethodResults, ParseError> {
        CardholderVerificationMethodResults::spec_try_from(raw_bytes@)
    }
}

impl BitflagValue for CardholderVerificationMethodResults {
    const NUM_BYTES: usize = 3;

    open spec fn spec_binary_representation(&self) -> Seq<u8> {
        self.bytes@
    }

    open spec fn spec_bit_display_information(&self) -> Seq<BitRangeModel> {
        self.spec_bit_display()
    }

    fn get_binary_representation(&self) -> (bytes: Vec<u8>) {
        let mut bytes: Vec<u8> = Vec::new();
        bytes.push(self.bytes[0]);
        bytes.push(self.bytes[1]);
        bytes.push(self.bytes[2]);
        assert(bytes@ =~= self.bytes@);
        bytes
    }

    fn get_bit_display_information(&self) -> (ranges: Vec<EnabledBitRange>) {
        let mut result_range: Vec<EnabledBitRange> = Vec::new();
        let severity = match self.result {
            CvmResult::Failed => Severity::Error,
            _ => Severity::Normal,
        };
        assert(bit_range_models(result_range@) =~= Seq::<BitRangeModel>::empty());
        push_bit_range_with_value(&mut result_range, 7, 8, "Result: ", self.result.description(), severity);
        let ranges = append_bit_ranges(self.shifted_rule_ranges(), result_range);
        assert(bit_range_models(ranges@) =~= self.spec_bit_display());
        ranges
    }

    proof fn lemma_bit_display_in_order(&self) {
        broadcast use group_bit_range_order;

        let rule = self.cv_rule.spec_bit_display();
        assert(ranges_in_order(rule, 16) && ranges_left_of(rule, -1));
        let shifted = rule.map_values(
            |range: BitRangeModel| bit_range((range.offset + 8) as u8, range.len, range.explanation, range.severity),
        );
        assert forall|i: int| 0 <= i < shifted.len() implies range_fits(#[trigger] shifted[i], 24) && shifted[i].offset
            - shifted[i].len >= 7 by {
            assert(range_fits(rule[i], 16));
            assert(rule[i].offset - rule[i].len >= -1);
        }
        assert forall|i: int, j: int| 0 <= i < j < shifted.len() implies shifted[j].offset + shifted[i].len
            <= shifted[i].offset by {
            assert(range_fits(rule[i], 16));
            assert(range_fits(rule[j], 16));
            assert(rule[j].offset + rule[i].len <= rule[i].offset);
        }
        assert(ranges_in_order(shifted, 24));
        assert(ranges_left_of(shifted, 7));
        assert(ranges_in_order(self.spec_bit_display(), 24));
    }
}

/// Reading the low 24 bits leniently agrees with parsing their three bytes
/// whenever the result code is known.
pub proof fn lemma_cvm_results_new_matches_parse(bits: u32)
    requires
        CvmResult::spec_from_code(bits as u8) is Some,
    ensures
        CardholderVerificationMethodResults::spec_try_from(CardholderVerificationMethodResults::bytes_of_bits(bits))
            == Ok::<CardholderVerificationMethodResults, ParseError>(CardholderVerificationMethodResults::spec_new(bits)),
{
}

/// The code table of EMV Book 4 `A4`: each code gives the value named beside it,
/// which reads as the text beside it, and every other code is refused.
#[verifier::rlimit(40)]
pub proof fn lemma_cvm_result_code_table(code: u8)
    ensures
        code == 0x00u8 ==> CvmResult::spec_try_from(code) == Ok::<CvmResult, ParseError>(CvmResult::Unknown),
        code == 0x01u8 ==> CvmResult::spec_try_from(code) == Ok::<CvmResult, ParseError>(CvmResult::Failed),
        code == 0x02u8 ==> CvmResult::spec_try_from(code) == Ok::<CvmResult, ParseError>(CvmResult::Successful),
        !(code == 0x00u8 || code == 0x01u8 || code == 0x02u8) ==> CvmResult::spec_try_from(code) is Err,
        CvmResult::Unknown.spec_description() == "Unknown"@,
        CvmResult::Failed.spec_description() == "Failed"@,
        CvmResult::Successful.spec_description() == "Successful"@,
{
}

/// Reading CVM Results: the first two bytes are the CV Rule performed (bit 8
/// cleared) and the third the result, which must be known; the display shows
/// the rule's ranges a byte higher, then the result at bit 7, as an error
/// when the CVM failed.
#[verifier::rlimit(40)]
pub proof fn lemma_cvm_results_bits_shown(bytes: Seq<u8>, offset: u8)
    requires
        bytes.len() == 3,
    ensures
        CardholderVerificationMethodResults::spec_try_from(bytes) is Ok <==> CvmResult::spec_try_from(bytes[2]) is Ok,
        CardholderVerificationMethodResults::spec_try_from(bytes) is Ok ==> ({
            let value = CardholderVerificationMethodResults::spec_try_from(bytes)->Ok_0;
            let shown = value.spec_bit_display_information();
            &&& CardholderVerificationRule::spec_try_from(seq![bytes[0] & 0x7Fu8, bytes[1]]) == Ok::<
                CardholderVerificationRule,
                ParseError,
            >(value.cv_rule)
            &&& CvmResult::spec_try_from(bytes[2]) == Ok::<CvmResult, ParseError>(value.result)
            &&& range_at(shown, 22) == if bytes[0] & 0x40u8 != 0 {
                Some(bit_range(22, 1, "Apply succeeding CV Rule if this CVM is unsuccessful"@, Severity::Normal))
            } else {
                None
            }
            &&& range_at(shown, 21) == Some(
                bit_range(21, 6, "Method: "@ + value.cv_rule.method.spec_description(), Severity::Normal),
            )
            &&& range_at(shown, 15) == Some(
                bit_range(15, 8, "Condition: "@ + value.cv_rule.condition.spec_description(), Severity::Normal),
            )
            &&& range_at(shown, 7) == Some(
                bit_range(
                    7,
                    8,
                    "Result: "@ + value.result.spec_description(),
                    if value.result == CvmResult::Failed {
                        Severity::Error
                    } else {
                        Severity::Normal
                    },
                ),
            )
            &&& !(offset == 22 || offset == 21 || offset == 15 || offset == 7) ==> range_at(shown, offset) is None
        }),
{
    broadcast use group_range_at;

    if CvmResult::spec_try_from(bytes[2]) is Ok {
        let value = CardholderVerificationMethodResults::spec_try_from(bytes)->Ok_0;
        let rule_bytes = seq![bytes[0] & 0x7Fu8, bytes[1]];
        assert(CardholderVerificationMethodResults::masked(bytes).subrange(0, 2) =~= rule_bytes);
        let first = bytes[0];
        assert((first & 0x7Fu8) & 0x40u8 == first & 0x40u8) by (bit_vector);
        let rule = value.cv_rule;
        let method = bit_range(13, 6, "Method: "@ + rule.method.spec_description(), Severity::Normal);
        let condition = bit_range(7, 8, "Condition: "@ + rule.condition.spec_description(), Severity::Normal);
        let flag = bit_range(14, 1, "Apply succeeding CV Rule if this CVM is unsuccessful"@, Severity::Normal);
        let shift = |range: BitRangeModel| bit_range((range.offset + 8) as u8, range.len, range.explanation, range.severity);
        reveal(push_if);
        if rule.continue_if_unsuccessful {
            assert(rule.spec_bit_display().map_values(shift) =~= Seq::<BitRangeModel>::empty().push(shift(flag)).push(
                shift(method),
            ).push(shift(condition)));
            assert(rule.continue_if_unsuccessful == (bytes[0] & 0x40u8 != 0));
        } else {
            assert(rule.spec_bit_display().map_values(shift) =~= Seq::<BitRangeModel>::empty().push(shift(method)).push(
                shift(condition),
            ));
            assert(rule.continue_if_unsuccessful == (bytes[0] & 0x40u8 != 0));
        }
        let shown = value.spec_bit_display_information();
        assert(CardholderVerificationRule::spec_try_from(rule_bytes) == Ok::<CardholderVerificationRule, ParseError>(rule));
        assert(shift(method) == bit_range(21, 6, "Method: "@ + rule.method.spec_description(), Severity::Normal));
        assert(shift(condition) == bit_range(15, 8, "Condition: "@ + rule.condition.spec_description(), Severity::Normal));
        assert(shift(flag) == bit_range(22, 1, "Apply succeeding CV Rule if this CVM is unsuccessful"@, Severity::Normal));
        assert(range_at(shown, 21) == Some(shift(method)));
        assert(range_at(shown, 15) == Some(shift(condition)));
    }
}

} // verus!
