//! The transaction type value, typically from EMV tag `0x9C`.
//!
//! The possible values come from the first two digits of the ISO 8583:1987
//! Processing Code.
//!
//! This could be incomplete - it's difficult to find a complete list of values
//! online.
use vstd::prelude::*;

use crate::error::{Comparison, ParseError};
use vstd::std_specs::convert::TryFromSpecImpl;

verus! {

/// The type of a transaction.
#[derive(Clone, Copy, Debug, PartialEq, Eq, Structural, Hash)]
pub enum TransactionType {
    /// Purchase
    Purchase,
    /// Cash Advance
    CashAdvance,
    /// Void
    Void,
    /// Purchase With Cashback
    CashbackPurchase,
    /// Refund
    Refund,
    /// Balance Inquiry
    BalanceInquiry,
    /// Mini Statement
    MiniStatement,
    /// Fund Transfer
    FundTransfer,
}

impl TransactionType {
    /// The value that `code` stands for, if any.
    pub open spec fn spec_from_code(code: u8) -> Option<TransactionType> {
        if code == 0x00u8 {
            Some(TransactionType::Purchase)
        } else if code == 0x01u8 {
            Some(TransactionType::CashAdvance)
        } else if code == 0x02u8 {
            Some(TransactionType::Void)
        } else if code == 0x09u8 {
            Some(TransactionType::CashbackPurchase)
        } else if code == 0x20u8 {
            Some(TransactionType::Refund)
        } else if code == 0x31u8 {
            Some(TransactionType::BalanceInquiry)
        } else if code == 0x38u8 {
            Some(TransactionType::MiniStatement)
        } else if code == 0x40u8 {
            Some(TransactionType::FundTransfer)
        } else {
            None
        }
    }

    /// The code of the value.
    pub open spec fn spec_code(self) -> u8 {
        match self {
            TransactionType::Purchase => 0x00u8,
            TransactionType::CashAdvance => 0x01u8,
            TransactionType::Void => 0x02u8,
            TransactionType::CashbackPurchase => 0x09u8,
            TransactionType::Refund => 0x20u8,
            TransactionType::BalanceInquiry => 0x31u8,
            TransactionType::MiniStatement => 0x38u8,
            TransactionType::FundTransfer => 0x40u8,
        }
    }

    /// What the value means, in words.
    pub open spec fn spec_description(self) -> Seq<char> {
        match self {
            TransactionType::Purchase => "Purchase"@,
            TransactionType::CashAdvance => "Cash Advance"@,
            TransactionType::Void => "Void"@,
            TransactionType::CashbackPurchase => "Purchase With Cashback"@,
            TransactionType::Refund => "Refund"@,
            TransactionType::BalanceInquiry => "Balance Inquiry"@,
            TransactionType::MiniStatement => "Mini Statement"@,
            TransactionType::FundTransfer => "Fund Transfer"@,
        }
    }

    /// Conversion from a code: the value it stands for, or an error.
    pub open spec fn spec_try_from(code: u8) -> Result<TransactionType, ParseError> {
        match TransactionType::spec_from_code(code) {
            Some(value) => Ok(value),
            None => Err(ParseError::Unrecognised),
        }
    }

    /// The code of the value.
    pub fn code(&self) -> (code: u8)
        ensures
            code == self.spec_code(),
    {
        match self {
            TransactionType::Purchase => 0x00u8,
            TransactionType::CashAdvance => 0x01u8,
            TransactionType::Void => 0x02u8,
            TransactionType::CashbackPurchase => 0x09u8,
            TransactionType::Refund => 0x20u8,
            TransactionType::BalanceInquiry => 0x31u8,
            TransactionType::MiniStatement => 0x38u8,
            TransactionType::FundTransfer => 0x40u8,
        }
    }

    /// What the value means, in words.
    pub fn description(&self) -> (text: &'static str)
        ensures
            text@ == self.spec_description(),
    {
        match self {
            TransactionType::Purchase => "Purchase",
            TransactionType::CashAdvance => "Cash Advance",
            TransactionType::Void => "Void",
            TransactionType::CashbackPurchase => "Purchase With Cashback",
            TransactionType::Refund => "Refund",
            TransactionType::BalanceInquiry => "Balance Inquiry",
            TransactionType::MiniStatement => "Mini Statement",
            TransactionType::FundTransfer => "Fund Transfer",
        }
    }
}

impl TryFrom<u8> for TransactionType {
    type Error = ParseError;

    fn try_from(code: u8) -> (result: Result<TransactionType, ParseError>)
        ensures
            result == TransactionType::spec_try_from(code),
    {
        match code {
            0x00u8 => Ok(TransactionType::Purchase),
            0x01u8 => Ok(TransactionType::CashAdvance),
            0x02u8 => Ok(TransactionType::Void),
            0x09u8 => Ok(TransactionType::CashbackPurchase),
            0x20u8 => Ok(TransactionType::Refund),
            0x31u8 => Ok(TransactionType::BalanceInquiry),
            0x38u8 => Ok(TransactionType::MiniStatement),
            0x40u8 => Ok(TransactionType::FundTransfer),
            _ => Err(ParseError::Unrecognised),
        }
    }
}

impl TryFromSpecImpl<u8> for TransactionType {
    open spec fn obeys_try_from_spec() -> bool {
        true
    }

    open spec fn try_from_spec(code: u8) -> Result<TransactionType, ParseError> {
        TransactionType::spec_try_from(code)
    }
}

/// A code stands for a value exactly when it is that value's code.
pub proof fn lemma_transaction_type_codes(code: u8, value: TransactionType)
    ensures
        (TransactionType::spec_from_code(code) == Some(value)) <==> (code == value.spec_code()),
{
}

impl TransactionType {
    /// Parsing raw bytes: exactly `1` byte is required.
    pub open spec fn spec_try_from_bytes(bytes: Seq<u8>) -> Result<TransactionType, ParseError> {
        if bytes.len() != 1 {
            Err(ParseError::ByteCountIncorrect { comparison: Comparison::Equal, expected: 1, found: bytes.len() as usize })
        } else {
            TransactionType::spec_try_from(bytes[0])
        }
    }
}

impl<'a> TryFrom<&'a [u8]> for TransactionType {
    type Error = ParseError;

    fn try_from(raw_bytes: &'a [u8]) -> (result: Result<TransactionType, ParseError>)
        ensures
            result == TransactionType::spec_try_from_bytes(raw_bytes@),
    {
        if raw_bytes.len() != 1 {
            return Err(ParseError::ByteCountIncorrect { comparison: Comparison::Equal, expected: 1, found: raw_bytes.len() });
        }
        TransactionType::try_from(raw_bytes[0])
    }
}

impl<'a> TryFromSpecImpl<&'a [u8]> for TransactionType {
    open spec fn obeys_try_from_spec() -> bool {
        true
    }

    open spec fn try_from_spec(raw_bytes: &'a [u8]) -> Result<TransactionType, ParseError> {
        TransactionType::spec_try_from_bytes(raw_bytes@)
    }
}

/// The code table of ISO 8583 processing code: each code gives the value named beside it,
/// which reads as the text beside it, and every other code is refused.
#[verifier::rlimit(40)]
pub proof fn lemma_transaction_type_code_table(code: u8)
    ensures
        code == 0x00u8 ==> TransactionType::spec_try_from(code) == Ok::<TransactionType, ParseError>(TransactionType::Purchase),
        code == 0x01u8 ==> TransactionType::spec_try_from(code) == Ok::<TransactionType, ParseError>(TransactionType::CashAdvance),
        code == 0x02u8 ==> TransactionType::spec_try_from(code) == Ok::<TransactionType, ParseError>(TransactionType::Void),
        code == 0x09u8 ==> TransactionType::spec_try_from(code) == Ok::<TransactionType, ParseError>(TransactionType::CashbackPurchase),
        code == 0x20u8 ==> TransactionType::spec_try_from(code) == Ok::<TransactionType, ParseError>(TransactionType::Refund),
        code == 0x31u8 ==> TransactionType::spec_try_from(code) == Ok::<TransactionType, ParseError>(TransactionType::BalanceInquiry),
        code == 0x38u8 ==> TransactionType::spec_try_from(code) == Ok::<TransactionType, ParseError>(TransactionType::MiniStatement),
        code == 0x40u8 ==> TransactionType::spec_try_from(code) == Ok::<TransactionType, ParseError>(TransactionType::FundTransfer),
        !(code == 0x00u8 || code == 0x01u8 || code == 0x02u8 || code == 0x09u8 || code == 0x20u8 || code == 0x31u8 || code == 0x38u8 || code == 0x40u8) ==> TransactionType::spec_try_from(code) is Err,
        TransactionType::Purchase.spec_description() == "Purchase"@,
        TransactionType::CashAdvance.spec_description() == "Cash Advance"@,
        TransactionType::Void.spec_description() == "Void"@,
        TransactionType::CashbackPurchase.spec_description() == "Purchase With Cashback"@,
        TransactionType::Refund.spec_description() == "Refund"@,
        TransactionType::BalanceInquiry.spec_description() == "Balance Inquiry"@,
        TransactionType::MiniStatement.spec_description() == "Mini Statement"@,
        TransactionType::FundTransfer.spec_description() == "Fund Transfer"@,
{
}

} // verus!
