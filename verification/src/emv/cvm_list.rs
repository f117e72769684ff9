//! Everything for handling Cardholder Verification Method (CVM) Lists.
//!
//! Information for this can be found in EMV Book 3, under section `10.5`.
use vstd::prelude::*;

use crate::emv::cv_rule::CardholderVerificationRule;
use crate::error::{Comparison, ParseError};
use crate::emv::bitflag_values::decimal_digits;
use crate::util::{be_value, byte_slice_to_u32, num_dec_digits};
use vstd::slice::slice_subrange;
use vstd::std_specs::convert::TryFromSpecImpl;

verus! {

/// The smallest number of bytes in a CVM List: the X and Y values.
pub const MIN_BYTES: usize = 8;

/// The least number of digits that the X and Y values are shown with: common
/// currencies have two digits for the cents and one more for the whole amount,
/// as in `0.00`.
pub const MIN_VALUE_DIGITS: usize = 3;

/// A Cardholder Verification Method (CVM) List: the X and Y amounts and the
/// CV Rules, in order of preference.
#[derive(Clone, Debug, PartialEq, Eq, Hash)]
pub struct CardholderVerificationMethodList {
    pub x_value: u32,
    pub y_value: u32,
    pub cv_rules: Vec<CardholderVerificationRule>,
}

/// The model of a [`CardholderVerificationMethodList`].
pub struct CvmListModel {
    pub x_value: u32,
    pub y_value: u32,
    pub cv_rules: Seq<CardholderVerificationRule>,
}

impl View for CardholderVerificationMethodList {
    type V = CvmListModel;

    open spec fn view(&self) -> CvmListModel {
        CvmListModel { x_value: self.x_value, y_value: self.y_value, cv_rules: self.cv_rules@ }
    }
}

/// The CV Rule written by the two bytes at `8 + 2 * i`.
pub open spec fn rule_at(bytes: Seq<u8>, i: int) -> CardholderVerificationRule {
    CardholderVerificationRule::spec_from_bytes(bytes.subrange(8 + 2 * i, 10 + 2 * i))
}

/// Parsing: at least `8` bytes, and an even number after them. The X and Y
/// values are the first two big-endian 32-bit numbers; each following pair of
/// bytes is a CV Rule.
pub open spec fn spec_cvm_list(bytes: Seq<u8>) -> Result<CvmListModel, ParseError> {
    if bytes.len() < 8 {
        Err(ParseError::ByteCountIncorrect { comparison: Comparison::Greater, expected: 8, found: bytes.len() as usize })
    } else if (bytes.len() - 8) % 2 != 0 {
        Err(ParseError::ByteCountNotDivisibleIntoComponents)
    } else {
        Ok(
            CvmListModel {
                x_value: be_value(bytes.subrange(0, 4)) as u32,
                y_value: be_value(bytes.subrange(4, 8)) as u32,
                cv_rules: Seq::new(((bytes.len() - 8) / 2) as nat, |i: int| rule_at(bytes, i)),
            },
        )
    }
}

/// Whether a rule's condition refers to the X or Y value.
pub open spec fn rule_references_x_or_y(rule: CardholderVerificationRule) -> bool {
    match rule.condition.internal {
        Some(condition) => condition.spec_references_x_or_y_value(),
        None => false,
    }
}

/// The model of a parsing result.
pub open spec fn cvm_list_result_model(result: Result<CardholderVerificationMethodList, ParseError>) -> Result<
    CvmListModel,
    ParseError,
> {
    match result {
        Ok(list) => Ok(list@),
        Err(error) => Err(error),
    }
}

impl CardholderVerificationMethodList {
    /// Whether the X and Y values matter: one of them is set, or a rule's
    /// condition refers to them.
    pub open spec fn spec_x_y_values_relevant(self) -> bool {
        ||| self.x_value != 0
        ||| self.y_value != 0
        ||| exists|i: int| 0 <= i < self.cv_rules@.len() && rule_references_x_or_y(#[trigger] self.cv_rules@[i])
    }

    /// The width that the X and Y values are shown with: the number of digits
    /// of the longer one, and at least [`MIN_VALUE_DIGITS`].
    pub open spec fn spec_value_padding_length(self) -> nat {
        let x = decimal_digits(self.x_value as nat).len();
        let y = decimal_digits(self.y_value as nat).len();
        let longer = if x < y {
            y
        } else {
            x
        };
        if longer < MIN_VALUE_DIGITS {
            MIN_VALUE_DIGITS as nat
        } else {
            longer
        }
    }

    /// The width that the X and Y values are shown with, zero-padded: the
    /// number of digits of the longer one, and at least [`MIN_VALUE_DIGITS`].
    pub fn value_padding_length(&self) -> (width: usize)
        ensures
            width == self.spec_value_padding_length(),
    {
        let x = num_dec_digits(self.x_value);
        let y = num_dec_digits(self.y_value);
        let longer = if x < y {
            y
        } else {
            x
        };
        if longer < MIN_VALUE_DIGITS {
            MIN_VALUE_DIGITS
        } else {
            longer
        }
    }

    /// Whether the X and Y values are worth showing: one of them is set, or a
    /// rule's condition refers to them. Most of the time they go unused.
    pub fn x_y_values_relevant(&self) -> (relevant: bool)
        ensures
            relevant == self.spec_x_y_values_relevant(),
    {
        if self.x_value != 0 || self.y_value != 0 {
            return true;
        }
        let mut i: usize = 0;
        while i < self.cv_rules.len()
            invariant
                i <= self.cv_rules@.len(),
                self.x_value == 0 && self.y_value == 0,
                forall|k: int| 0 <= k < i ==> !rule_references_x_or_y(#[trigger] self.cv_rules@[k]),
            decreases self.cv_rules@.len() - i,
        {
            let referenced = match &self.cv_rules[i].condition.internal {
                Some(condition) => condition.references_x_or_y_value(),
                None => false,
            };
            if referenced {
                return true;
            }
            i += 1;
        }
        false
    }
}

impl<'a> TryFrom<&'a [u8]> for CardholderVerificationMethodList {
    type Error = ParseError;

    fn try_from(bytes: &'a [u8]) -> (result: Result<CardholderVerificationMethodList, ParseError>)
        ensures
            cvm_list_result_model(result) == spec_cvm_list(bytes@),
    {
        if bytes.len() < MIN_BYTES {
            return Err(ParseError::ByteCountIncorrect { comparison: Comparison::Greater, expected: MIN_BYTES, found: bytes.len() });
        }
        if (bytes.len() - MIN_BYTES) % CardholderVerificationRule::NUM_BYTES != 0 {
            return Err(ParseError::ByteCountNotDivisibleIntoComponents);
        }
        let x_value = byte_slice_to_u32(slice_subrange(bytes, 0, 4));
        let y_value = byte_slice_to_u32(slice_subrange(bytes, 4, 8));
        let count: usize = (bytes.len() - MIN_BYTES) / 2;
        let mut cv_rules: Vec<CardholderVerificationRule> = Vec::new();
        let mut i: usize = 0;
        while i < count
            invariant
                bytes@.len() == 8 + 2 * count,
                bytes.len() == 8 + 2 * count,
                i <= count,
                cv_rules@.len() == i,
                forall|k: int| 0 <= k < i ==> cv_rules@[k] == rule_at(bytes@, k),
            decreases count - i,
        {
            assert(10 + 2 * i <= bytes@.len());
            let start: usize = 8 + 2 * i;
            let rule = CardholderVerificationRule::from_bytes(slice_subrange(bytes, start, start + 2));
            cv_rules.push(rule);
            i += 1;
        }
        let list = CardholderVerificationMethodList { x_value, y_value, cv_rules };
        assert(list@.cv_rules =~= Seq::new(count as nat, |k: int| rule_at(bytes@, k)));
        Ok(list)
    }
}

impl<'a> TryFromSpecImpl<&'a [u8]> for CardholderVerificationMethodList {
    /// The result is described over its model instead, by the `ensures` of
    /// `try_from`.
    open spec fn obeys_try_from_spec() -> bool {
        false
    }

    open spec fn try_from_spec(bytes: &'a [u8]) -> Result<CardholderVerificationMethodList, ParseError> {
        arbitrary()
    }
}

/// The rules of a parsed list are exactly the pairs of bytes after the X and
/// Y values, in order: rule `i` depends on bytes `8 + 2i` and `9 + 2i` alone.
pub proof fn lemma_cvm_list_rules_local(a: Seq<u8>, b: Seq<u8>, i: int)
    requires
        spec_cvm_list(a) is Ok,
        spec_cvm_list(b) is Ok,
        0 <= i < spec_cvm_list(a)->Ok_0.cv_rules.len(),
        0 <= i < spec_cvm_list(b)->Ok_0.cv_rules.len(),
        a[8 + 2 * i] == b[8 + 2 * i],
        a[9 + 2 * i] == b[9 + 2 * i],
    ensures
        spec_cvm_list(a)->Ok_0.cv_rules[i] == spec_cvm_list(b)->Ok_0.cv_rules[i],
{
    assert(a.subrange(8 + 2 * i, 10 + 2 * i) =~= b.subrange(8 + 2 * i, 10 + 2 * i));
}

/// Reading a CVM List: at least eight bytes and an even number after them; the
/// X and Y values are the first two big-endian four-byte numbers, and each
/// following pair of bytes is one CV Rule, in order.
pub proof fn lemma_cvm_list_layout(bytes: Seq<u8>)
    ensures
        bytes.len() < 8 ==> spec_cvm_list(bytes) == Err::<CvmListModel, ParseError>(
            ParseError::ByteCountIncorrect { comparison: Comparison::Greater, expected: 8, found: bytes.len() as usize },
        ),
        bytes.len() >= 8 && bytes.len() % 2 == 1 ==> spec_cvm_list(bytes) == Err::<CvmListModel, ParseError>(
            ParseError::ByteCountNotDivisibleIntoComponents,
        ),
        bytes.len() >= 8 && bytes.len() % 2 == 0 ==> ({
            let list = spec_cvm_list(bytes)->Ok_0;
            &&& spec_cvm_list(bytes) is Ok
            &&& list.x_value == bytes[0] * 0x1000000 + bytes[1] * 0x10000 + bytes[2] * 0x100 + bytes[3]
            &&& list.y_value == bytes[4] * 0x1000000 + bytes[5] * 0x10000 + bytes[6] * 0x100 + bytes[7]
            &&& list.cv_rules.len() == (bytes.len() - 8) / 2
            &&& forall|i: int|
                0 <= i < list.cv_rules.len() ==> CardholderVerificationRule::spec_try_from(
                    #[trigger] bytes.subrange(8 + 2 * i, 10 + 2 * i),
                ) == Ok::<CardholderVerificationRule, ParseError>(list.cv_rules[i])
        }),
{
    if bytes.len() >= 8 && bytes.len() % 2 == 0 {
        lemma_be_value_four(bytes.subrange(0, 4));
        lemma_be_value_four(bytes.subrange(4, 8));
    }
}

proof fn lemma_be_value_four(bytes: Seq<u8>)
    requires
        bytes.len() == 4,
    ensures
        be_value(bytes) == bytes[0] * 0x1000000 + bytes[1] * 0x10000 + bytes[2] * 0x100 + bytes[3],
{
    let b3 = bytes.drop_last();
    let b2 = b3.drop_last();
    let b1 = b2.drop_last();
    let b0 = b1.drop_last();
    assert(b0.len() == 0);
    assert(be_value(b0) == 0);
    assert(b1.last() == bytes[0] && b2.last() == bytes[1] && b3.last() == bytes[2] && bytes.last() == bytes[3]);
    assert(be_value(b1) == bytes[0]);
    assert(be_value(b2) == bytes[0] * 0x100 + bytes[1]);
    assert(be_value(b3) == bytes[0] * 0x10000 + bytes[1] * 0x100 + bytes[2]) by (nonlinear_arith)
        requires be_value(b3) == be_value(b2) * 256 + bytes[2], be_value(b2) == bytes[0] * 0x100 + bytes[1];
    assert(be_value(bytes) == bytes[0] * 0x1000000 + bytes[1] * 0x10000 + bytes[2] * 0x100 + bytes[3]) by (nonlinear_arith)
        requires be_value(bytes) == be_value(b3) * 256 + bytes[3], be_value(b3) == bytes[0] * 0x10000 + bytes[1] * 0x100 + bytes[2];
}

} // verus!
