//! The authorisation response code, typically from EMV tag `0x8A`.
//!
//! The possible values come from the ISO 8583:1987 specification.
//!
//! This could be incomplete - it's difficult to find a complete list of values
//! online.
use vstd::prelude::*;
use vstd::string::*;

use crate::error::{Comparison, ParseError};
use vstd::std_specs::convert::TryFromSpecImpl;

verus! {

/// The response of an issuer to an authorisation request.
#[derive(Clone, Copy, Debug, PartialEq, Eq, Structural, Hash)]
pub enum AuthorisationResponseCode {
    /// Approval
    Approval,
    /// Call
    Call,
    /// Call - Special Conditions
    CallSpecial,
    /// Terminal ID Error
    TerminalIdError,
    /// Hold Card - Call
    HoldCall,
    /// Decline - Do Not Honour
    Decline,
    /// Error
    Error,
    /// Hold Card - Call - Special Conditions
    HoldCallSpecial,
    /// Honour With Identification
    HonourWithId,
    /// No Original Transaction
    NoOriginalTransaction,
    /// Partial Approval
    PartialApproval,
    /// Approved (VIP)
    ApprovalVip,
    /// Invalid Transaction
    InvalidTransaction,
    /// Invalid Amount
    InvalidAmount,
    /// Invalid Card Number
    InvalidCardNumber,
    /// No Such Issuer
    NoSuchIssuer,
    /// Approved - Update Track 3
    ApprovedUpdateTrack3,
    /// Customer Cancellation
    CustomerCancellation,
    /// Customer Dispute
    CustomerDispute,
    /// Retry Transaction
    RetryTransaction,
    /// Invalid Response
    InvalidResponse,
    /// No Action Taken
    NoActionTaken,
    /// Suspected Malfunction
    SuspectedMalfunction,
    /// Invalid Minimum Amount
    InvalidMinimumAmount,
    /// File Update Not Supported
    FileUpdateNotSupported,
    /// Invalid ICC Data
    InvalidIccData,
    /// Duplicate File Update Record
    DuplicateFileUpdateRecord,
    /// File Update Field Edit Error
    FileUpdateFieldEditError,
    /// File Update File Locked Out
    FileUpdateFileLockedOut,
    /// File Update Not Successful
    FileUpdateNotSuccessful,
    /// Format Error
    FormatError,
    /// Bank Not Supported By Switch
    BankNotSupportedBySwitch,
    /// Completed Partially
    CompletedPartially,
    /// Expired Card
    ExpiredCard,
    /// Suspected Fraud
    SuspectedFraud,
    /// Card Acceptor, Contact Acquirer
    CardAcceptorContactAcquirer,
    /// Restricted Card
    RestrictedCard,
    /// Card Acceptor, Call Acquirer Security
    CardAcceptorCallAcquirerSecurity,
    /// Allowable PIN Retries Exceeded
    AllowablePinRetriesExceeded,
    /// No Credit Account
    NoCreditAccount,
    /// Requested Function Not Supported
    RequestedFunctionNotSupported,
    /// Lost Card
    LostCard,
    /// No Universal Account
    NoUniversalAccount,
    /// Stolen Card
    StolenCard,
    /// No Investment Account
    NoInvestmentAccount,
    /// Insufficient Funds
    InsufficientFunds,
    /// No Chequing Account
    NoChequingAccount,
    /// No Savings Account
    NoSavingsAccount,
    /// Incorrect PIN
    IncorrectPin,
    /// No Card Record
    NoCardRecord,
    /// Transaction Not Allowed For Cardholder
    TransactionNotAllowedCardholder,
    /// Transaction Not Allowed For Terminal
    TransactionNotAllowedTerminal,
    /// Debit Cashback Withdrawal Limit Decline
    DebitCashbackWithdrawalLimitDecline,
    /// Security Violation
    SecurityViolation,
    /// Original Amount Incorrect
    OriginalAmountIncorrect,
    /// Decline - Insert Card (often due to too many contactless transactions)
    DeclineInsertCard,
    /// ATM Hard Card Capture
    HoldCallAtm,
    /// Response Received Too Late
    ResponseReceivedTooLate,
    /// Issuer Timeout
    IssuerTimeout,
    /// Issuer Routing Problem
    IssuerRoutingProblem,
    /// Transaction Not Completed - Law Violation
    TransactionNotCompletedLawViolation,
    /// Duplicate Transmission
    DuplicateTransmission,
    /// Reconciliation Error
    ReconciliationError,
    /// System Malfunction
    SystemMalfunction,
}

impl AuthorisationResponseCode {
    /// The value whose two-character code has the characters (or bytes)
    /// numbered `first` and `second`, if any.
    pub open spec fn spec_from_units(first: int, second: int) -> Option<AuthorisationResponseCode> {
        if (first == 0x30 && second == 0x30) {
            Some(AuthorisationResponseCode::Approval)
        } else if (first == 0x30 && second == 0x31) {
            Some(AuthorisationResponseCode::Call)
        } else if (first == 0x30 && second == 0x32) {
            Some(AuthorisationResponseCode::CallSpecial)
        } else if (first == 0x30 && second == 0x33) {
            Some(AuthorisationResponseCode::TerminalIdError)
        } else if (first == 0x30 && second == 0x34) {
            Some(AuthorisationResponseCode::HoldCall)
        } else if (first == 0x30 && second == 0x35) {
            Some(AuthorisationResponseCode::Decline)
        } else if (first == 0x30 && second == 0x36) {
            Some(AuthorisationResponseCode::Error)
        } else if (first == 0x30 && second == 0x37) {
            Some(AuthorisationResponseCode::HoldCallSpecial)
        } else if (first == 0x30 && second == 0x38) {
            Some(AuthorisationResponseCode::HonourWithId)
        } else if (first == 0x30 && second == 0x39) {
            Some(AuthorisationResponseCode::NoOriginalTransaction)
        } else if (first == 0x31 && second == 0x30) {
            Some(AuthorisationResponseCode::PartialApproval)
        } else if (first == 0x31 && second == 0x31) {
            Some(AuthorisationResponseCode::ApprovalVip)
        } else if (first == 0x31 && second == 0x32) {
            Some(AuthorisationResponseCode::InvalidTransaction)
        } else if (first == 0x31 && second == 0x33) {
            Some(AuthorisationResponseCode::InvalidAmount)
        } else if (first == 0x31 && second == 0x34) {
            Some(AuthorisationResponseCode::InvalidCardNumber)
        } else if (first == 0x31 && second == 0x35) {
            Some(AuthorisationResponseCode::NoSuchIssuer)
        } else if (first == 0x31 && second == 0x36) {
            Some(AuthorisationResponseCode::ApprovedUpdateTrack3)
        } else if (first == 0x31 && second == 0x37) {
            Some(AuthorisationResponseCode::CustomerCancellation)
        } else if (first == 0x31 && second == 0x38) {
            Some(AuthorisationResponseCode::CustomerDispute)
        } else if (first == 0x31 && second == 0x39) {
            Some(AuthorisationResponseCode::RetryTransaction)
        } else if (first == 0x32 && second == 0x30) {
            Some(AuthorisationResponseCode::InvalidResponse)
        } else if (first == 0x32 && second == 0x31) {
            Some(AuthorisationResponseCode::NoActionTaken)
        } else if (first == 0x32 && second == 0x32) {
            Some(AuthorisationResponseCode::SuspectedMalfunction)
        } else if (first == 0x32 && second == 0x33) {
            Some(AuthorisationResponseCode::InvalidMinimumAmount)
        } else if (first == 0x32 && second == 0x34) {
            Some(AuthorisationResponseCode::FileUpdateNotSupported)
        } else if (first == 0x32 && second == 0x35) {
            Some(AuthorisationResponseCode::InvalidIccData)
        } else if (first == 0x32 && second == 0x36) {
            Some(AuthorisationResponseCode::DuplicateFileUpdateRecord)
        } else if (first == 0x32 && second == 0x37) {
            Some(AuthorisationResponseCode::FileUpdateFieldEditError)
        } else if (first == 0x32 && second == 0x38) {
            Some(AuthorisationResponseCode::FileUpdateFileLockedOut)
        } else if (first == 0x32 && second == 0x39) {
            Some(AuthorisationResponseCode::FileUpdateNotSuccessful)
        } else if (first == 0x33 && second == 0x30) {
            Some(AuthorisationResponseCode::FormatError)
        } else if (first == 0x33 && second == 0x31) {
            Some(AuthorisationResponseCode::BankNotSupportedBySwitch)
        } else if (first == 0x33 && second == 0x32) {
            Some(AuthorisationResponseCode::CompletedPartially)
        } else if (first == 0x33 && second == 0x33) || (first == 0x35 && second == 0x34) {
            Some(AuthorisationResponseCode::ExpiredCard)
        } else if (first == 0x33 && second == 0x34) || (first == 0x35 && second == 0x39) {
            Some(AuthorisationResponseCode::SuspectedFraud)
        } else if (first == 0x33 && second == 0x35) || (first == 0x36 && second == 0x30) {
            Some(AuthorisationResponseCode::CardAcceptorContactAcquirer)
        } else if (first == 0x33 && second == 0x36) || (first == 0x36 && second == 0x32) {
            Some(AuthorisationResponseCode::RestrictedCard)
        } else if (first == 0x33 && second == 0x37) || (first == 0x36 && second == 0x36) {
            Some(AuthorisationResponseCode::CardAcceptorCallAcquirerSecurity)
        } else if (first == 0x33 && second == 0x38) || (first == 0x37 && second == 0x35) {
            Some(AuthorisationResponseCode::AllowablePinRetriesExceeded)
        } else if (first == 0x33 && second == 0x39) {
            Some(AuthorisationResponseCode::NoCreditAccount)
        } else if (first == 0x34 && second == 0x30) {
            Some(AuthorisationResponseCode::RequestedFunctionNotSupported)
        } else if (first == 0x34 && second == 0x31) {
            Some(AuthorisationResponseCode::LostCard)
        } else if (first == 0x34 && second == 0x32) {
            Some(AuthorisationResponseCode::NoUniversalAccount)
        } else if (first == 0x34 && second == 0x33) {
            Some(AuthorisationResponseCode::StolenCard)
        } else if (first == 0x34 && second == 0x34) {
            Some(AuthorisationResponseCode::NoInvestmentAccount)
        } else if (first == 0x35 && second == 0x31) {
            Some(AuthorisationResponseCode::InsufficientFunds)
        } else if (first == 0x35 && second == 0x32) {
            Some(AuthorisationResponseCode::NoChequingAccount)
        } else if (first == 0x35 && second == 0x33) {
            Some(AuthorisationResponseCode::NoSavingsAccount)
        } else if (first == 0x35 && second == 0x35) {
            Some(AuthorisationResponseCode::IncorrectPin)
        } else if (first == 0x35 && second == 0x36) {
            Some(AuthorisationResponseCode::NoCardRecord)
        } else if (first == 0x35 && second == 0x37) {
            Some(AuthorisationResponseCode::TransactionNotAllowedCardholder)
        } else if (first == 0x35 && second == 0x38) {
            Some(AuthorisationResponseCode::TransactionNotAllowedTerminal)
        } else if (first == 0x36 && second == 0x31) {
            Some(AuthorisationResponseCode::DebitCashbackWithdrawalLimitDecline)
        } else if (first == 0x36 && second == 0x33) {
            Some(AuthorisationResponseCode::SecurityViolation)
        } else if (first == 0x36 && second == 0x34) {
            Some(AuthorisationResponseCode::OriginalAmountIncorrect)
        } else if (first == 0x36 && second == 0x35) {
            Some(AuthorisationResponseCode::DeclineInsertCard)
        } else if (first == 0x36 && second == 0x37) {
            Some(AuthorisationResponseCode::HoldCallAtm)
        } else if (first == 0x36 && second == 0x38) {
            Some(AuthorisationResponseCode::ResponseReceivedTooLate)
        } else if (first == 0x39 && second == 0x31) {
            Some(AuthorisationResponseCode::IssuerTimeout)
        } else if (first == 0x39 && second == 0x32) {
            Some(AuthorisationResponseCode::IssuerRoutingProblem)
        } else if (first == 0x39 && second == 0x33) {
            Some(AuthorisationResponseCode::TransactionNotCompletedLawViolation)
        } else if (first == 0x39 && second == 0x34) {
            Some(AuthorisationResponseCode::DuplicateTransmission)
        } else if (first == 0x39 && second == 0x35) {
            Some(AuthorisationResponseCode::ReconciliationError)
        } else if (first == 0x39 && second == 0x36) {
            Some(AuthorisationResponseCode::SystemMalfunction)
        } else {
            None
        }
    }

    /// The value that a code stands for, if any.
    pub open spec fn spec_from_code(code: Seq<char>) -> Option<AuthorisationResponseCode> {
        if code.len() == 2 {
            AuthorisationResponseCode::spec_from_units(code[0] as int, code[1] as int)
        } else {
            None
        }
    }

    /// Parsing a string: it must be one of the codes.
    pub open spec fn spec_try_from_str(code: Seq<char>) -> Result<AuthorisationResponseCode, ParseError> {
        match AuthorisationResponseCode::spec_from_code(code) {
            Some(value) => Ok(value),
            None => Err(ParseError::Unrecognised),
        }
    }

    /// Parsing raw bytes: exactly `2` bytes are required. Two ASCII bytes are
    /// read as a code; two bytes that encode one other character in UTF-8 are
    /// no code; anything else is not UTF-8 at all.
    pub open spec fn spec_try_from_bytes(bytes: Seq<u8>) -> Result<AuthorisationResponseCode, ParseError> {
        if bytes.len() != 2 {
            Err(ParseError::ByteCountIncorrect { comparison: Comparison::Equal, expected: 2, found: bytes.len() as usize })
        } else if bytes[0] < 0x80 && bytes[1] < 0x80 {
            match AuthorisationResponseCode::spec_from_units(bytes[0] as int, bytes[1] as int) {
                Some(value) => Ok(value),
                None => Err(ParseError::Unrecognised),
            }
        } else if 0xC2 <= bytes[0] <= 0xDF && 0x80 <= bytes[1] <= 0xBF {
            Err(ParseError::Unrecognised)
        } else {
            Err(ParseError::InvalidNumber)
        }
    }

    /// What the value means, in words.
    pub open spec fn spec_description(self) -> Seq<char> {
        match self {
            AuthorisationResponseCode::Approval => "Approval"@,
            AuthorisationResponseCode::Call => "Call"@,
            AuthorisationResponseCode::CallSpecial => "Call - Special Conditions"@,
            AuthorisationResponseCode::TerminalIdError => "Terminal ID Error"@,
            AuthorisationResponseCode::HoldCall => "Hold Card - Call"@,
            AuthorisationResponseCode::Decline => "Decline - Do Not Honour"@,
            AuthorisationResponseCode::Error => "Error"@,
            AuthorisationResponseCode::HoldCallSpecial => "Hold Card - Call - Special Conditions"@,
            AuthorisationResponseCode::HonourWithId => "Honour With Identification"@,
            AuthorisationResponseCode::NoOriginalTransaction => "No Original Transaction"@,
            AuthorisationResponseCode::PartialApproval => "Partial Approval"@,
            AuthorisationResponseCode::ApprovalVip => "Approved (VIP)"@,
            AuthorisationResponseCode::InvalidTransaction => "Invalid Transaction"@,
            AuthorisationResponseCode::InvalidAmount => "Invalid Amount"@,
            AuthorisationResponseCode::InvalidCardNumber => "Invalid Card Number"@,
            AuthorisationResponseCode::NoSuchIssuer => "No Such Issuer"@,
            AuthorisationResponseCode::ApprovedUpdateTrack3 => "Approved - Update Track 3"@,
            AuthorisationResponseCode::CustomerCancellation => "Customer Cancellation"@,
            AuthorisationResponseCode::CustomerDispute => "Customer Dispute"@,
            AuthorisationResponseCode::RetryTransaction => "Retry Transaction"@,
            AuthorisationResponseCode::InvalidResponse => "Invalid Response"@,
            AuthorisationResponseCode::NoActionTaken => "No Action Taken"@,
            AuthorisationResponseCode::SuspectedMalfunction => "Suspected Malfunction"@,
            AuthorisationResponseCode::InvalidMinimumAmount => "Invalid Minimum Amount"@,
            AuthorisationResponseCode::FileUpdateNotSupported => "File Update Not Supported"@,
            AuthorisationResponseCode::InvalidIccData => "Invalid ICC Data"@,
            AuthorisationResponseCode::DuplicateFileUpdateRecord => "Duplicate File Update Record"@,
            AuthorisationResponseCode::FileUpdateFieldEditError => "File Update Field Edit Error"@,
            AuthorisationResponseCode::FileUpdateFileLockedOut => "File Update File Locked Out"@,
            AuthorisationResponseCode::FileUpdateNotSuccessful => "File Update Not Successful"@,
            AuthorisationResponseCode::FormatError => "Format Error"@,
            AuthorisationResponseCode::BankNotSupportedBySwitch => "Bank Not Supported By Switch"@,
            AuthorisationResponseCode::CompletedPartially => "Completed Partially"@,
            AuthorisationResponseCode::ExpiredCard => "Expired Card"@,
            AuthorisationResponseCode::SuspectedFraud => "Suspected Fraud"@,
            AuthorisationResponseCode::CardAcceptorContactAcquirer => "Card Acceptor, Contact Acquirer"@,
            AuthorisationResponseCode::RestrictedCard => "Restricted Card"@,
            AuthorisationResponseCode::CardAcceptorCallAcquirerSecurity => "Card Acceptor, Call Acquirer Security"@,
            AuthorisationResponseCode::AllowablePinRetriesExceeded => "Allowable PIN Retries Exceeded"@,
            AuthorisationResponseCode::NoCreditAccount => "No Credit Account"@,
            AuthorisationResponseCode::RequestedFunctionNotSupported => "Requested Function Not Supported"@,
            AuthorisationResponseCode::LostCard => "Lost Card"@,
            AuthorisationResponseCode::NoUniversalAccount => "No Universal Account"@,
            AuthorisationResponseCode::StolenCard => "Stolen Card"@,
            AuthorisationResponseCode::NoInvestmentAccount => "No Investment Account"@,
            AuthorisationResponseCode::InsufficientFunds => "Insufficient Funds"@,
            AuthorisationResponseCode::NoChequingAccount => "No Chequing Account"@,
            AuthorisationResponseCode::NoSavingsAccount => "No Savings Account"@,
            AuthorisationResponseCode::IncorrectPin => "Incorrect PIN"@,
            AuthorisationResponseCode::NoCardRecord => "No Card Record"@,
            AuthorisationResponseCode::TransactionNotAllowedCardholder => "Transaction Not Allowed For Cardholder"@,
            AuthorisationResponseCode::TransactionNotAllowedTerminal => "Transaction Not Allowed For Terminal"@,
            AuthorisationResponseCode::DebitCashbackWithdrawalLimitDecline => "Debit Cashback Withdrawal Limit Decline"@,
            AuthorisationResponseCode::SecurityViolation => "Security Violation"@,
            AuthorisationResponseCode::OriginalAmountIncorrect => "Original Amount Incorrect"@,
            AuthorisationResponseCode::DeclineInsertCard => "Decline - Insert Card (often due to too many contactless transactions)"@,
            AuthorisationResponseCode::HoldCallAtm => "ATM Hard Card Capture"@,
            AuthorisationResponseCode::ResponseReceivedTooLate => "Response Received Too Late"@,
            AuthorisationResponseCode::IssuerTimeout => "Issuer Timeout"@,
            AuthorisationResponseCode::IssuerRoutingProblem => "Issuer Routing Problem"@,
            AuthorisationResponseCode::TransactionNotCompletedLawViolation => "Transaction Not Completed - Law Violation"@,
            AuthorisationResponseCode::DuplicateTransmission => "Duplicate Transmission"@,
            AuthorisationResponseCode::ReconciliationError => "Reconciliation Error"@,
            AuthorisationResponseCode::SystemMalfunction => "System Malfunction"@,
        }
    }

    /// What the value means, in words.
    pub fn description(&self) -> (text: &'static str)
        ensures
            text@ == self.spec_description(),
    {
        match self {
            AuthorisationResponseCode::Approval => "Approval",
            AuthorisationResponseCode::Call => "Call",
            AuthorisationResponseCode::CallSpecial => "Call - Special Conditions",
            AuthorisationResponseCode::TerminalIdError => "Terminal ID Error",
            AuthorisationResponseCode::HoldCall => "Hold Card - Call",
            AuthorisationResponseCode::Decline => "Decline - Do Not Honour",
            AuthorisationResponseCode::Error => "Error",
            AuthorisationResponseCode::HoldCallSpecial => "Hold Card - Call - Special Conditions",
            AuthorisationResponseCode::HonourWithId => "Honour With Identification",
            AuthorisationResponseCode::NoOriginalTransaction => "No Original Transaction",
            AuthorisationResponseCode::PartialApproval => "Partial Approval",
            AuthorisationResponseCode::ApprovalVip => "Approved (VIP)",
            AuthorisationResponseCode::InvalidTransaction => "Invalid Transaction",
            AuthorisationResponseCode::InvalidAmount => "Invalid Amount",
            AuthorisationResponseCode::InvalidCardNumber => "Invalid Card Number",
            AuthorisationResponseCode::NoSuchIssuer => "No Such Issuer",
            AuthorisationResponseCode::ApprovedUpdateTrack3 => "Approved - Update Track 3",
            AuthorisationResponseCode::CustomerCancellation => "Customer Cancellation",
            AuthorisationResponseCode::CustomerDispute => "Customer Dispute",
            AuthorisationResponseCode::RetryTransaction => "Retry Transaction",
            AuthorisationResponseCode::InvalidResponse => "Invalid Response",
            AuthorisationResponseCode::NoActionTaken => "No Action Taken",
            AuthorisationResponseCode::SuspectedMalfunction => "Suspected Malfunction",
            AuthorisationResponseCode::InvalidMinimumAmount => "Invalid Minimum Amount",
            AuthorisationResponseCode::FileUpdateNotSupported => "File Update Not Supported",
            AuthorisationResponseCode::InvalidIccData => "Invalid ICC Data",
            AuthorisationResponseCode::DuplicateFileUpdateRecord => "Duplicate File Update Record",
            AuthorisationResponseCode::FileUpdateFieldEditError => "File Update Field Edit Error",
            AuthorisationResponseCode::FileUpdateFileLockedOut => "File Update File Locked Out",
            AuthorisationResponseCode::FileUpdateNotSuccessful => "File Update Not Successful",
            AuthorisationResponseCode::FormatError => "Format Error",
            AuthorisationResponseCode::BankNotSupportedBySwitch => "Bank Not Supported By Switch",
            AuthorisationResponseCode::CompletedPartially => "Completed Partially",
            AuthorisationResponseCode::ExpiredCard => "Expired Card",
            AuthorisationResponseCode::SuspectedFraud => "Suspected Fraud",
            AuthorisationResponseCode::CardAcceptorContactAcquirer => "Card Acceptor, Contact Acquirer",
            AuthorisationResponseCode::RestrictedCard => "Restricted Card",
            AuthorisationResponseCode::CardAcceptorCallAcquirerSecurity => "Card Acceptor, Call Acquirer Security",
            AuthorisationResponseCode::AllowablePinRetriesExceeded => "Allowable PIN Retries Exceeded",
            AuthorisationResponseCode::NoCreditAccount => "No Credit Account",
            AuthorisationResponseCode::RequestedFunctionNotSupported => "Requested Function Not Supported",
            AuthorisationResponseCode::LostCard => "Lost Card",
            AuthorisationResponseCode::NoUniversalAccount => "No Universal Account",
            AuthorisationResponseCode::StolenCard => "Stolen Card",
            AuthorisationResponseCode::NoInvestmentAccount => "No Investment Account",
            AuthorisationResponseCode::InsufficientFunds => "Insufficient Funds",
            AuthorisationResponseCode::NoChequingAccount => "No Chequing Account",
            AuthorisationResponseCode::NoSavingsAccount => "No Savings Account",
            AuthorisationResponseCode::IncorrectPin => "Incorrect PIN",
            AuthorisationResponseCode::NoCardRecord => "No Card Record",
            AuthorisationResponseCode::TransactionNotAllowedCardholder => "Transaction Not Allowed For Cardholder",
            AuthorisationResponseCode::TransactionNotAllowedTerminal => "Transaction Not Allowed For Terminal",
            AuthorisationResponseCode::DebitCashbackWithdrawalLimitDecline => "Debit Cashback Withdrawal Limit Decline",
            AuthorisationResponseCode::SecurityViolation => "Security Violation",
            AuthorisationResponseCode::OriginalAmountIncorrect => "Original Amount Incorrect",
            AuthorisationResponseCode::DeclineInsertCard => "Decline - Insert Card (often due to too many contactless transactions)",
            AuthorisationResponseCode::HoldCallAtm => "ATM Hard Card Capture",
            AuthorisationResponseCode::ResponseReceivedTooLate => "Response Received Too Late",
            AuthorisationResponseCode::IssuerTimeout => "Issuer Timeout",
            AuthorisationResponseCode::IssuerRoutingProblem => "Issuer Routing Problem",
            AuthorisationResponseCode::TransactionNotCompletedLawViolation => "Transaction Not Completed - Law Violation",
            AuthorisationResponseCode::DuplicateTransmission => "Duplicate Transmission",
            AuthorisationResponseCode::ReconciliationError => "Reconciliation Error",
            AuthorisationResponseCode::SystemMalfunction => "System Malfunction",
        }
    }

    fn from_units(first: u32, second: u32) -> (value: Option<AuthorisationResponseCode>)
        ensures
            value == AuthorisationResponseCode::spec_from_units(first as int, second as int),
    {
        match (first, second) {
            (0x30, 0x30) => Some(AuthorisationResponseCode::Approval),
            (0x30, 0x31) => Some(AuthorisationResponseCode::Call),
            (0x30, 0x32) => Some(AuthorisationResponseCode::CallSpecial),
            (0x30, 0x33) => Some(AuthorisationResponseCode::TerminalIdError),
            (0x30, 0x34) => Some(AuthorisationResponseCode::HoldCall),
            (0x30, 0x35) => Some(AuthorisationResponseCode::Decline),
            (0x30, 0x36) => Some(AuthorisationResponseCode::Error),
            (0x30, 0x37) => Some(AuthorisationResponseCode::HoldCallSpecial),
            (0x30, 0x38) => Some(AuthorisationResponseCode::HonourWithId),
            (0x30, 0x39) => Some(AuthorisationResponseCode::NoOriginalTransaction),
            (0x31, 0x30) => Some(AuthorisationResponseCode::PartialApproval),
            (0x31, 0x31) => Some(AuthorisationResponseCode::ApprovalVip),
            (0x31, 0x32) => Some(AuthorisationResponseCode::InvalidTransaction),
            (0x31, 0x33) => Some(AuthorisationResponseCode::InvalidAmount),
            (0x31, 0x34) => Some(AuthorisationResponseCode::InvalidCardNumber),
            (0x31, 0x35) => Some(AuthorisationResponseCode::NoSuchIssuer),
            (0x31, 0x36) => Some(AuthorisationResponseCode::ApprovedUpdateTrack3),
            (0x31, 0x37) => Some(AuthorisationResponseCode::CustomerCancellation),
            (0x31, 0x38) => Some(AuthorisationResponseCode::CustomerDispute),
            (0x31, 0x39) => Some(AuthorisationResponseCode::RetryTransaction),
            (0x32, 0x30) => Some(AuthorisationResponseCode::InvalidResponse),
            (0x32, 0x31) => Some(AuthorisationResponseCode::NoActionTaken),
            (0x32, 0x32) => Some(AuthorisationResponseCode::SuspectedMalfunction),
            (0x32, 0x33) => Some(AuthorisationResponseCode::InvalidMinimumAmount),
            (0x32, 0x34) => Some(AuthorisationResponseCode::FileUpdateNotSupported),
            (0x32, 0x35) => Some(AuthorisationResponseCode::InvalidIccData),
            (0x32, 0x36) => Some(AuthorisationResponseCode::DuplicateFileUpdateRecord),
            (0x32, 0x37) => Some(AuthorisationResponseCode::FileUpdateFieldEditError),
            (0x32, 0x38) => Some(AuthorisationResponseCode::FileUpdateFileLockedOut),
            (0x32, 0x39) => Some(AuthorisationResponseCode::FileUpdateNotSuccessful),
            (0x33, 0x30) => Some(AuthorisationResponseCode::FormatError),
            (0x33, 0x31) => Some(AuthorisationResponseCode::BankNotSupportedBySwitch),
            (0x33, 0x32) => Some(AuthorisationResponseCode::CompletedPartially),
            (0x33, 0x33) | (0x35, 0x34) => Some(AuthorisationResponseCode::ExpiredCard),
            (0x33, 0x34) | (0x35, 0x39) => Some(AuthorisationResponseCode::SuspectedFraud),
            (0x33, 0x35) | (0x36, 0x30) => Some(AuthorisationResponseCode::CardAcceptorContactAcquirer),
            (0x33, 0x36) | (0x36, 0x32) => Some(AuthorisationResponseCode::RestrictedCard),
            (0x33, 0x37) | (0x36, 0x36) => Some(AuthorisationResponseCode::CardAcceptorCallAcquirerSecurity),
            (0x33, 0x38) | (0x37, 0x35) => Some(AuthorisationResponseCode::AllowablePinRetriesExceeded),
            (0x33, 0x39) => Some(AuthorisationResponseCode::NoCreditAccount),
            (0x34, 0x30) => Some(AuthorisationResponseCode::RequestedFunctionNotSupported),
            (0x34, 0x31) => Some(AuthorisationResponseCode::LostCard),
            (0x34, 0x32) => Some(AuthorisationResponseCode::NoUniversalAccount),
            (0x34, 0x33) => Some(AuthorisationResponseCode::StolenCard),
            (0x34, 0x34) => Some(AuthorisationResponseCode::NoInvestmentAccount),
            (0x35, 0x31) => Some(AuthorisationResponseCode::InsufficientFunds),
            (0x35, 0x32) => Some(AuthorisationResponseCode::NoChequingAccount),
            (0x35, 0x33) => Some(AuthorisationResponseCode::NoSavingsAccount),
            (0x35, 0x35) => Some(AuthorisationResponseCode::IncorrectPin),
            (0x35, 0x36) => Some(AuthorisationResponseCode::NoCardRecord),
            (0x35, 0x37) => Some(AuthorisationResponseCode::TransactionNotAllowedCardholder),
            (0x35, 0x38) => Some(AuthorisationResponseCode::TransactionNotAllowedTerminal),
            (0x36, 0x31) => Some(AuthorisationResponseCode::DebitCashbackWithdrawalLimitDecline),
            (0x36, 0x33) => Some(AuthorisationResponseCode::SecurityViolation),
            (0x36, 0x34) => Some(AuthorisationResponseCode::OriginalAmountIncorrect),
            (0x36, 0x35) => Some(AuthorisationResponseCode::DeclineInsertCard),
            (0x36, 0x37) => Some(AuthorisationResponseCode::HoldCallAtm),
            (0x36, 0x38) => Some(AuthorisationResponseCode::ResponseReceivedTooLate),
            (0x39, 0x31) => Some(AuthorisationResponseCode::IssuerTimeout),
            (0x39, 0x32) => Some(AuthorisationResponseCode::IssuerRoutingProblem),
            (0x39, 0x33) => Some(AuthorisationResponseCode::TransactionNotCompletedLawViolation),
            (0x39, 0x34) => Some(AuthorisationResponseCode::DuplicateTransmission),
            (0x39, 0x35) => Some(AuthorisationResponseCode::ReconciliationError),
            (0x39, 0x36) => Some(AuthorisationResponseCode::SystemMalfunction),
            _ => None,
        }
    }
}

impl<'a> TryFrom<&'a str> for AuthorisationResponseCode {
    type Error = ParseError;

    fn try_from(code: &'a str) -> (result: Result<AuthorisationResponseCode, ParseError>)
        ensures
            result == AuthorisationResponseCode::spec_try_from_str(code@),
    {
        if code.unicode_len() != 2 {
            return Err(ParseError::Unrecognised);
        }
        let first = code.get_char(0) as u32;
        let second = code.get_char(1) as u32;
        match AuthorisationResponseCode::from_units(first, second) {
            Some(value) => Ok(value),
            None => Err(ParseError::Unrecognised),
        }
    }
}

impl<'a> TryFromSpecImpl<&'a str> for AuthorisationResponseCode {
    open spec fn obeys_try_from_spec() -> bool {
        true
    }

    open spec fn try_from_spec(code: &'a str) -> Result<AuthorisationResponseCode, ParseError> {
        AuthorisationResponseCode::spec_try_from_str(code@)
    }
}

impl<'a> TryFrom<&'a [u8]> for AuthorisationResponseCode {
    type Error = ParseError;

    fn try_from(raw_bytes: &'a [u8]) -> (result: Result<AuthorisationResponseCode, ParseError>)
        ensures
            result == AuthorisationResponseCode::spec_try_from_bytes(raw_bytes@),
    {
        if raw_bytes.len() != 2 {
            return Err(ParseError::ByteCountIncorrect { comparison: Comparison::Equal, expected: 2, found: raw_bytes.len() });
        }
        let first = raw_bytes[0];
        let second = raw_bytes[1];
        if first < 0x80 && second < 0x80 {
            match AuthorisationResponseCode::from_units(first as u32, second as u32) {
                Some(value) => Ok(value),
                None => Err(ParseError::Unrecognised),
            }
        } else if 0xC2 <= first && first <= 0xDF && 0x80 <= second && second <= 0xBF {
            Err(ParseError::Unrecognised)
        } else {
            Err(ParseError::InvalidNumber)
        }
    }
}

impl<'a> TryFromSpecImpl<&'a [u8]> for AuthorisationResponseCode {
    open spec fn obeys_try_from_spec() -> bool {
        true
    }

    open spec fn try_from_spec(raw_bytes: &'a [u8]) -> Result<AuthorisationResponseCode, ParseError> {
        AuthorisationResponseCode::spec_try_from_bytes(raw_bytes@)
    }
}


/// Two ASCII bytes parse as the code they spell does.
pub proof fn lemma_authorisation_response_code_bytes_match_text(bytes: Seq<u8>)
    requires
        bytes.len() == 2,
        bytes[0] < 0x80,
        bytes[1] < 0x80,
    ensures
        AuthorisationResponseCode::spec_try_from_bytes(bytes) == AuthorisationResponseCode::spec_try_from_str(
            seq![bytes[0] as char, bytes[1] as char],
        ),
{
    assert((bytes[0] as char) as int == bytes[0] as int);
    assert((bytes[1] as char) as int == bytes[1] as int);
}

/// The code table of ISO 8583: each two-character code, as text or as its
/// two ASCII bytes, gives the value named beside it, which reads as the text
/// beside it; every other pair of ASCII characters is refused.
#[verifier::rlimit(40)]
pub proof fn lemma_authorisation_response_code_table(first: char, second: char)
    requires
        (first as u32) < 0x80,
        (second as u32) < 0x80,
    ensures
        first == '0' && second == '0' ==> AuthorisationResponseCode::spec_try_from_str(seq![first, second]) == Ok::<AuthorisationResponseCode, ParseError>(AuthorisationResponseCode::Approval) && AuthorisationResponseCode::spec_try_from_bytes(seq![0x30u8, 0x30u8]) == Ok::<AuthorisationResponseCode, ParseError>(AuthorisationResponseCode::Approval),
        first == '0' && second == '1' ==> AuthorisationResponseCode::spec_try_from_str(seq![first, second]) == Ok::<AuthorisationResponseCode, ParseError>(AuthorisationResponseCode::Call) && AuthorisationResponseCode::spec_try_from_bytes(seq![0x30u8, 0x31u8]) == Ok::<AuthorisationResponseCode, ParseError>(AuthorisationResponseCode::Call),
        first == '0' && second == '2' ==> AuthorisationResponseCode::spec_try_from_str(seq![first, second]) == Ok::<AuthorisationResponseCode, ParseError>(AuthorisationResponseCode::CallSpecial) && AuthorisationResponseCode::spec_try_from_bytes(seq![0x30u8, 0x32u8]) == Ok::<AuthorisationResponseCode, ParseError>(AuthorisationResponseCode::CallSpecial),
        first == '0' && second == '3' ==> AuthorisationResponseCode::spec_try_from_str(seq![first, second]) == Ok::<AuthorisationResponseCode, ParseError>(AuthorisationResponseCode::TerminalIdError) && AuthorisationResponseCode::spec_try_from_bytes(seq![0x30u8, 0x33u8]) == Ok::<AuthorisationResponseCode, ParseError>(AuthorisationResponseCode::TerminalIdError),
        first == '0' && second == '4' ==> AuthorisationResponseCode::spec_try_from_str(seq![first, second]) == Ok::<AuthorisationResponseCode, ParseError>(AuthorisationResponseCode::HoldCall) && AuthorisationResponseCode::spec_try_from_bytes(seq![0x30u8, 0x34u8]) == Ok::<AuthorisationResponseCode, ParseError>(AuthorisationResponseCode::HoldCall),
        first == '0' && second == '5' ==> AuthorisationResponseCode::spec_try_from_str(seq![first, second]) == Ok::<AuthorisationResponseCode, ParseError>(AuthorisationResponseCode::Decline) && AuthorisationResponseCode::spec_try_from_bytes(seq![0x30u8, 0x35u8]) == Ok::<AuthorisationResponseCode, ParseError>(AuthorisationResponseCode::Decline),
        first == '0' && second == '6' ==> AuthorisationResponseCode::spec_try_from_str(seq![first, second]) == Ok::<AuthorisationResponseCode, ParseError>(AuthorisationResponseCode::Error) && AuthorisationResponseCode::spec_try_from_bytes(seq![0x30u8, 0x36u8]) == Ok::<AuthorisationResponseCode, ParseError>(AuthorisationResponseCode::Error),
        first == '0' && second == '7' ==> AuthorisationResponseCode::spec_try_from_str(seq![first, second]) == Ok::<AuthorisationResponseCode, ParseError>(AuthorisationResponseCode::HoldCallSpecial) && AuthorisationResponseCode::spec_try_from_bytes(seq![0x30u8, 0x37u8]) == Ok::<AuthorisationResponseCode, ParseError>(AuthorisationResponseCode::HoldCallSpecial),
        first == '0' && second == '8' ==> AuthorisationResponseCode::spec_try_from_str(seq![first, second]) == Ok::<AuthorisationResponseCode, ParseError>(AuthorisationResponseCode::HonourWithId) && AuthorisationResponseCode::spec_try_from_bytes(seq![0x30u8, 0x38u8]) == Ok::<AuthorisationResponseCode, ParseError>(AuthorisationResponseCode::HonourWithId),
        first == '0' && second == '9' ==> AuthorisationResponseCode::spec_try_from_str(seq![first, second]) == Ok::<AuthorisationResponseCode, ParseError>(AuthorisationResponseCode::NoOriginalTransaction) && AuthorisationResponseCode::spec_try_from_bytes(seq![0x30u8, 0x39u8]) == Ok::<AuthorisationResponseCode, ParseError>(AuthorisationResponseCode::NoOriginalTransaction),
        first == '1' && second == '0' ==> AuthorisationResponseCode::spec_try_from_str(seq![first, second]) == Ok::<AuthorisationResponseCode, ParseError>(AuthorisationResponseCode::PartialApproval) && AuthorisationResponseCode::spec_try_from_bytes(seq![0x31u8, 0x30u8]) == Ok::<AuthorisationResponseCode, ParseError>(AuthorisationResponseCode::PartialApproval),
        first == '1' && second == '1' ==> AuthorisationResponseCode::spec_try_from_str(seq![first, second]) == Ok::<AuthorisationResponseCode, ParseError>(AuthorisationResponseCode::ApprovalVip) && AuthorisationResponseCode::spec_try_from_bytes(seq![0x31u8, 0x31u8]) == Ok::<AuthorisationResponseCode, ParseError>(AuthorisationResponseCode::ApprovalVip),
        first == '1' && second == '2' ==> AuthorisationResponseCode::spec_try_from_str(seq![first, second]) == Ok::<AuthorisationResponseCode, ParseError>(AuthorisationResponseCode::InvalidTransaction) && AuthorisationResponseCode::spec_try_from_bytes(seq![0x31u8, 0x32u8]) == Ok::<AuthorisationResponseCode, ParseError>(AuthorisationResponseCode::InvalidTransaction),
        first == '1' && second == '3' ==> AuthorisationResponseCode::spec_try_from_str(seq![first, second]) == Ok::<AuthorisationResponseCode, ParseError>(AuthorisationResponseCode::InvalidAmount) && AuthorisationResponseCode::spec_try_from_bytes(seq![0x31u8, 0x33u8]) == Ok::<AuthorisationResponseCode, ParseError>(AuthorisationResponseCode::InvalidAmount),
        first == '1' && second == '4' ==> AuthorisationResponseCode::spec_try_from_str(seq![first, second]) == Ok::<AuthorisationResponseCode, ParseError>(AuthorisationResponseCode::InvalidCardNumber) && AuthorisationResponseCode::spec_try_from_bytes(seq![0x31u8, 0x34u8]) == Ok::<AuthorisationResponseCode, ParseError>(AuthorisationResponseCode::InvalidCardNumber),
        first == '1' && second == '5' ==> AuthorisationResponseCode::spec_try_from_str(seq![first, second]) == Ok::<AuthorisationResponseCode, ParseError>(AuthorisationResponseCode::NoSuchIssuer) && AuthorisationResponseCode::spec_try_from_bytes(seq![0x31u8, 0x35u8]) == Ok::<AuthorisationResponseCode, ParseError>(AuthorisationResponseCode::NoSuchIssuer),
        first == '1' && second == '6' ==> AuthorisationResponseCode::spec_try_from_str(seq![first, second]) == Ok::<AuthorisationResponseCode, ParseError>(AuthorisationResponseCode::ApprovedUpdateTrack3) && AuthorisationResponseCode::spec_try_from_bytes(seq![0x31u8, 0x36u8]) == Ok::<AuthorisationResponseCode, ParseError>(AuthorisationResponseCode::ApprovedUpdateTrack3),
        first == '1' && second == '7' ==> AuthorisationResponseCode::spec_try_from_str(seq![first, second]) == Ok::<AuthorisationResponseCode, ParseError>(AuthorisationResponseCode::CustomerCancellation) && AuthorisationResponseCode::spec_try_from_bytes(seq![0x31u8, 0x37u8]) == Ok::<AuthorisationResponseCode, ParseError>(AuthorisationResponseCode::CustomerCancellation),
        first == '1' && second == '8' ==> AuthorisationResponseCode::spec_try_from_str(seq![first, second]) == Ok::<AuthorisationResponseCode, ParseError>(AuthorisationResponseCode::CustomerDispute) && AuthorisationResponseCode::spec_try_from_bytes(seq![0x31u8, 0x38u8]) == Ok::<AuthorisationResponseCode, ParseError>(AuthorisationResponseCode::CustomerDispute),
        first == '1' && second == '9' ==> AuthorisationResponseCode::spec_try_from_str(seq![first, second]) == Ok::<AuthorisationResponseCode, ParseError>(AuthorisationResponseCode::RetryTransaction) && AuthorisationResponseCode::spec_try_from_bytes(seq![0x31u8, 0x39u8]) == Ok::<AuthorisationResponseCode, ParseError>(AuthorisationResponseCode::RetryTransaction),
        first == '2' && second == '0' ==> AuthorisationResponseCode::spec_try_from_str(seq![first, second]) == Ok::<AuthorisationResponseCode, ParseError>(AuthorisationResponseCode::InvalidResponse) && AuthorisationResponseCode::spec_try_from_bytes(seq![0x32u8, 0x30u8]) == Ok::<AuthorisationResponseCode, ParseError>(AuthorisationResponseCode::InvalidResponse),
        first == '2' && second == '1' ==> AuthorisationResponseCode::spec_try_from_str(seq![first, second]) == Ok::<AuthorisationResponseCode, ParseError>(AuthorisationResponseCode::NoActionTaken) && AuthorisationResponseCode::spec_try_from_bytes(seq![0x32u8, 0x31u8]) == Ok::<AuthorisationResponseCode, ParseError>(AuthorisationResponseCode::NoActionTaken),
        first == '2' && second == '2' ==> AuthorisationResponseCode::spec_try_from_str(seq![first, second]) == Ok::<AuthorisationResponseCode, ParseError>(AuthorisationResponseCode::SuspectedMalfunction) && AuthorisationResponseCode::spec_try_from_bytes(seq![0x32u8, 0x32u8]) == Ok::<AuthorisationResponseCode, ParseError>(AuthorisationResponseCode::SuspectedMalfunction),
        first == '2' && second == '3' ==> AuthorisationResponseCode::spec_try_from_str(seq![first, second]) == Ok::<AuthorisationResponseCode, ParseError>(AuthorisationResponseCode::InvalidMinimumAmount) && AuthorisationResponseCode::spec_try_from_bytes(seq![0x32u8, 0x33u8]) == Ok::<AuthorisationResponseCode, ParseError>(AuthorisationResponseCode::InvalidMinimumAmount),
        first == '2' && second == '4' ==> AuthorisationResponseCode::spec_try_from_str(seq![first, second]) == Ok::<AuthorisationResponseCode, ParseError>(AuthorisationResponseCode::FileUpdateNotSupported) && AuthorisationResponseCode::spec_try_from_bytes(seq![0x32u8, 0x34u8]) == Ok::<AuthorisationResponseCode, ParseError>(AuthorisationResponseCode::FileUpdateNotSupported),
        first == '2' && second == '5' ==> AuthorisationResponseCode::spec_try_from_str(seq![first, second]) == Ok::<AuthorisationResponseCode, ParseError>(AuthorisationResponseCode::InvalidIccData) && AuthorisationResponseCode::spec_try_from_bytes(seq![0x32u8, 0x35u8]) == Ok::<AuthorisationResponseCode, ParseError>(AuthorisationResponseCode::InvalidIccData),
        first == '2' && second == '6' ==> AuthorisationResponseCode::spec_try_from_str(seq![first, second]) == Ok::<AuthorisationResponseCode, ParseError>(AuthorisationResponseCode::DuplicateFileUpdateRecord) && AuthorisationResponseCode::spec_try_from_bytes(seq![0x32u8, 0x36u8]) == Ok::<AuthorisationResponseCode, ParseError>(AuthorisationResponseCode::DuplicateFileUpdateRecord),
        first == '2' && second == '7' ==> AuthorisationResponseCode::spec_try_from_str(seq![first, second]) == Ok::<AuthorisationResponseCode, ParseError>(AuthorisationResponseCode::FileUpdateFieldEditError) && AuthorisationResponseCode::spec_try_from_bytes(seq![0x32u8, 0x37u8]) == Ok::<AuthorisationResponseCode, ParseError>(AuthorisationResponseCode::FileUpdateFieldEditError),
        first == '2' && second == '8' ==> AuthorisationResponseCode::spec_try_from_str(seq![first, second]) == Ok::<AuthorisationResponseCode, ParseError>(AuthorisationResponseCode::FileUpdateFileLockedOut) && AuthorisationResponseCode::spec_try_from_bytes(seq![0x32u8, 0x38u8]) == Ok::<AuthorisationResponseCode, ParseError>(AuthorisationResponseCode::FileUpdateFileLockedOut),
        first == '2' && second == '9' ==> AuthorisationResponseCode::spec_try_from_str(seq![first, second]) == Ok::<AuthorisationResponseCode, ParseError>(AuthorisationResponseCode::FileUpdateNotSuccessful) && AuthorisationResponseCode::spec_try_from_bytes(seq![0x32u8, 0x39u8]) == Ok::<AuthorisationResponseCode, ParseError>(AuthorisationResponseCode::FileUpdateNotSuccessful),
        first == '3' && second == '0' ==> AuthorisationResponseCode::spec_try_from_str(seq![first, second]) == Ok::<AuthorisationResponseCode, ParseError>(AuthorisationResponseCode::FormatError) && AuthorisationResponseCode::spec_try_from_bytes(seq![0x33u8, 0x30u8]) == Ok::<AuthorisationResponseCode, ParseError>(AuthorisationResponseCode::FormatError),
        first == '3' && second == '1' ==> AuthorisationResponseCode::spec_try_from_str(seq![first, second]) == Ok::<AuthorisationResponseCode, ParseError>(AuthorisationResponseCode::BankNotSupportedBySwitch) && AuthorisationResponseCode::spec_try_from_bytes(seq![0x33u8, 0x31u8]) == Ok::<AuthorisationResponseCode, ParseError>(AuthorisationResponseCode::BankNotSupportedBySwitch),
        first == '3' && second == '2' ==> AuthorisationResponseCode::spec_try_from_str(seq![first, second]) == Ok::<AuthorisationResponseCode, ParseError>(AuthorisationResponseCode::CompletedPartially) && AuthorisationResponseCode::spec_try_from_bytes(seq![0x33u8, 0x32u8]) == Ok::<AuthorisationResponseCode, ParseError>(AuthorisationResponseCode::CompletedPartially),
        first == '3' && second == '3' ==> AuthorisationResponseCode::spec_try_from_str(seq![first, second]) == Ok::<AuthorisationResponseCode, ParseError>(AuthorisationResponseCode::ExpiredCard) && AuthorisationResponseCode::spec_try_from_bytes(seq![0x33u8, 0x33u8]) == Ok::<AuthorisationResponseCode, ParseError>(AuthorisationResponseCode::ExpiredCard),
        first == '5' && second == '4' ==> AuthorisationResponseCode::spec_try_from_str(seq![first, second]) == Ok::<AuthorisationResponseCode, ParseError>(AuthorisationResponseCode::ExpiredCard) && AuthorisationResponseCode::spec_try_from_bytes(seq![0x35u8, 0x34u8]) == Ok::<AuthorisationResponseCode, ParseError>(AuthorisationResponseCode::ExpiredCard),
        first == '3' && second == '4' ==> AuthorisationResponseCode::spec_try_from_str(seq![first, second]) == Ok::<AuthorisationResponseCode, ParseError>(AuthorisationResponseCode::SuspectedFraud) && AuthorisationResponseCode::spec_try_from_bytes(seq![0x33u8, 0x34u8]) == Ok::<AuthorisationResponseCode, ParseError>(AuthorisationResponseCode::SuspectedFraud),
        first == '5' && second == '9' ==> AuthorisationResponseCode::spec_try_from_str(seq![first, second]) == Ok::<AuthorisationResponseCode, ParseError>(AuthorisationResponseCode::SuspectedFraud) && AuthorisationResponseCode::spec_try_from_bytes(seq![0x35u8, 0x39u8]) == Ok::<AuthorisationResponseCode, ParseError>(AuthorisationResponseCode::SuspectedFraud),
        first == '3' && second == '5' ==> AuthorisationResponseCode::spec_try_from_str(seq![first, second]) == Ok::<AuthorisationResponseCode, ParseError>(AuthorisationResponseCode::CardAcceptorContactAcquirer) && AuthorisationResponseCode::spec_try_from_bytes(seq![0x33u8, 0x35u8]) == Ok::<AuthorisationResponseCode, ParseError>(AuthorisationResponseCode::CardAcceptorContactAcquirer),
        first == '6' && second == '0' ==> AuthorisationResponseCode::spec_try_from_str(seq![first, second]) == Ok::<AuthorisationResponseCode, ParseError>(AuthorisationResponseCode::CardAcceptorContactAcquirer) && AuthorisationResponseCode::spec_try_from_bytes(seq![0x36u8, 0x30u8]) == Ok::<AuthorisationResponseCode, ParseError>(AuthorisationResponseCode::CardAcceptorContactAcquirer),
        first == '3' && second == '6' ==> AuthorisationResponseCode::spec_try_from_str(seq![first, second]) == Ok::<AuthorisationResponseCode, ParseError>(AuthorisationResponseCode::RestrictedCard) && AuthorisationResponseCode::spec_try_from_bytes(seq![0x33u8, 0x36u8]) == Ok::<AuthorisationResponseCode, ParseError>(AuthorisationResponseCode::RestrictedCard),
        first == '6' && second == '2' ==> AuthorisationResponseCode::spec_try_from_str(seq![first, second]) == Ok::<AuthorisationResponseCode, ParseError>(AuthorisationResponseCode::RestrictedCard) && AuthorisationResponseCode::spec_try_from_bytes(seq![0x36u8, 0x32u8]) == Ok::<AuthorisationResponseCode, ParseError>(AuthorisationResponseCode::RestrictedCard),
        first == '3' && second == '7' ==> AuthorisationResponseCode::spec_try_from_str(seq![first, second]) == Ok::<AuthorisationResponseCode, ParseError>(AuthorisationResponseCode::CardAcceptorCallAcquirerSecurity) && AuthorisationResponseCode::spec_try_from_bytes(seq![0x33u8, 0x37u8]) == Ok::<AuthorisationResponseCode, ParseError>(AuthorisationResponseCode::CardAcceptorCallAcquirerSecurity),
        first == '6' && second == '6' ==> AuthorisationResponseCode::spec_try_from_str(seq![first, second]) == Ok::<AuthorisationResponseCode, ParseError>(AuthorisationResponseCode::CardAcceptorCallAcquirerSecurity) && AuthorisationResponseCode::spec_try_from_bytes(seq![0x36u8, 0x36u8]) == Ok::<AuthorisationResponseCode, ParseError>(AuthorisationResponseCode::CardAcceptorCallAcquirerSecurity),
        first == '3' && second == '8' ==> AuthorisationResponseCode::spec_try_from_str(seq![first, second]) == Ok::<AuthorisationResponseCode, ParseError>(AuthorisationResponseCode::AllowablePinRetriesExceeded) && AuthorisationResponseCode::spec_try_from_bytes(seq![0x33u8, 0x38u8]) == Ok::<AuthorisationResponseCode, ParseError>(AuthorisationResponseCode::AllowablePinRetriesExceeded),
        first == '7' && second == '5' ==> AuthorisationResponseCode::spec_try_from_str(seq![first, second]) == Ok::<AuthorisationResponseCode, ParseError>(AuthorisationResponseCode::AllowablePinRetriesExceeded) && AuthorisationResponseCode::spec_try_from_bytes(seq![0x37u8, 0x35u8]) == Ok::<AuthorisationResponseCode, ParseError>(AuthorisationResponseCode::AllowablePinRetriesExceeded),
        first == '3' && second == '9' ==> AuthorisationResponseCode::spec_try_from_str(seq![first, second]) == Ok::<AuthorisationResponseCode, ParseError>(AuthorisationResponseCode::NoCreditAccount) && AuthorisationResponseCode::spec_try_from_bytes(seq![0x33u8, 0x39u8]) == Ok::<AuthorisationResponseCode, ParseError>(AuthorisationResponseCode::NoCreditAccount),
        first == '4' && second == '0' ==> AuthorisationResponseCode::spec_try_from_str(seq![first, second]) == Ok::<AuthorisationResponseCode, ParseError>(AuthorisationResponseCode::RequestedFunctionNotSupported) && AuthorisationResponseCode::spec_try_from_bytes(seq![0x34u8, 0x30u8]) == Ok::<AuthorisationResponseCode, ParseError>(AuthorisationResponseCode::RequestedFunctionNotSupported),
        first == '4' && second == '1' ==> AuthorisationResponseCode::spec_try_from_str(seq![first, second]) == Ok::<AuthorisationResponseCode, ParseError>(AuthorisationResponseCode::LostCard) && AuthorisationResponseCode::spec_try_from_bytes(seq![0x34u8, 0x31u8]) == Ok::<AuthorisationResponseCode, ParseError>(AuthorisationResponseCode::LostCard),
        first == '4' && second == '2' ==> AuthorisationResponseCode::spec_try_from_str(seq![first, second]) == Ok::<AuthorisationResponseCode, ParseError>(AuthorisationResponseCode::NoUniversalAccount) && AuthorisationResponseCode::spec_try_from_bytes(seq![0x34u8, 0x32u8]) == Ok::<AuthorisationResponseCode, ParseError>(AuthorisationResponseCode::NoUniversalAccount),
        first == '4' && second == '3' ==> AuthorisationResponseCode::spec_try_from_str(seq![first, second]) == Ok::<AuthorisationResponseCode, ParseError>(AuthorisationResponseCode::StolenCard) && AuthorisationResponseCode::spec_try_from_bytes(seq![0x34u8, 0x33u8]) == Ok::<AuthorisationResponseCode, ParseError>(AuthorisationResponseCode::StolenCard),
        first == '4' && second == '4' ==> AuthorisationResponseCode::spec_try_from_str(seq![first, second]) == Ok::<AuthorisationResponseCode, ParseError>(AuthorisationResponseCode::NoInvestmentAccount) && AuthorisationResponseCode::spec_try_from_bytes(seq![0x34u8, 0x34u8]) == Ok::<AuthorisationResponseCode, ParseError>(AuthorisationResponseCode::NoInvestmentAccount),
        first == '5' && second == '1' ==> AuthorisationResponseCode::spec_try_from_str(seq![first, second]) == Ok::<AuthorisationResponseCode, ParseError>(AuthorisationResponseCode::InsufficientFunds) && AuthorisationResponseCode::spec_try_from_bytes(seq![0x35u8, 0x31u8]) == Ok::<AuthorisationResponseCode, ParseError>(AuthorisationResponseCode::InsufficientFunds),
        first == '5' && second == '2' ==> AuthorisationResponseCode::spec_try_from_str(seq![first, second]) == Ok::<AuthorisationResponseCode, ParseError>(AuthorisationResponseCode::NoChequingAccount) && AuthorisationResponseCode::spec_try_from_bytes(seq![0x35u8, 0x32u8]) == Ok::<AuthorisationResponseCode, ParseError>(AuthorisationResponseCode::NoChequingAccount),
        first == '5' && second == '3' ==> AuthorisationResponseCode::spec_try_from_str(seq![first, second]) == Ok::<AuthorisationResponseCode, ParseError>(AuthorisationResponseCode::NoSavingsAccount) && AuthorisationResponseCode::spec_try_from_bytes(seq![0x35u8, 0x33u8]) == Ok::<AuthorisationResponseCode, ParseError>(AuthorisationResponseCode::NoSavingsAccount),
        first == '5' && second == '5' ==> AuthorisationResponseCode::spec_try_from_str(seq![first, second]) == Ok::<AuthorisationResponseCode, ParseError>(AuthorisationResponseCode::IncorrectPin) && AuthorisationResponseCode::spec_try_from_bytes(seq![0x35u8, 0x35u8]) == Ok::<AuthorisationResponseCode, ParseError>(AuthorisationResponseCode::IncorrectPin),
        first == '5' && second == '6' ==> AuthorisationResponseCode::spec_try_from_str(seq![first, second]) == Ok::<AuthorisationResponseCode, ParseError>(AuthorisationResponseCode::NoCardRecord) && AuthorisationResponseCode::spec_try_from_bytes(seq![0x35u8, 0x36u8]) == Ok::<AuthorisationResponseCode, ParseError>(AuthorisationResponseCode::NoCardRecord),
        first == '5' && second == '7' ==> AuthorisationResponseCode::spec_try_from_str(seq![first, second]) == Ok::<AuthorisationResponseCode, ParseError>(AuthorisationResponseCode::TransactionNotAllowedCardholder) && AuthorisationResponseCode::spec_try_from_bytes(seq![0x35u8, 0x37u8]) == Ok::<AuthorisationResponseCode, ParseError>(AuthorisationResponseCode::TransactionNotAllowedCardholder),
        first == '5' && second == '8' ==> AuthorisationResponseCode::spec_try_from_str(seq![first, second]) == Ok::<AuthorisationResponseCode, ParseError>(AuthorisationResponseCode::TransactionNotAllowedTerminal) && AuthorisationResponseCode::spec_try_from_bytes(seq![0x35u8, 0x38u8]) == Ok::<AuthorisationResponseCode, ParseError>(AuthorisationResponseCode::TransactionNotAllowedTerminal),
        first == '6' && second == '1' ==> AuthorisationResponseCode::spec_try_from_str(seq![first, second]) == Ok::<AuthorisationResponseCode, ParseError>(AuthorisationResponseCode::DebitCashbackWithdrawalLimitDecline) && AuthorisationResponseCode::spec_try_from_bytes(seq![0x36u8, 0x31u8]) == Ok::<AuthorisationResponseCode, ParseError>(AuthorisationResponseCode::DebitCashbackWithdrawalLimitDecline),
        first == '6' && second == '3' ==> AuthorisationResponseCode::spec_try_from_str(seq![first, second]) == Ok::<AuthorisationResponseCode, ParseError>(AuthorisationResponseCode::SecurityViolation) && AuthorisationResponseCode::spec_try_from_bytes(seq![0x36u8, 0x33u8]) == Ok::<AuthorisationResponseCode, ParseError>(AuthorisationResponseCode::SecurityViolation),
        first == '6' && second == '4' ==> AuthorisationResponseCode::spec_try_from_str(seq![first, second]) == Ok::<AuthorisationResponseCode, ParseError>(AuthorisationResponseCode::OriginalAmountIncorrect) && AuthorisationResponseCode::spec_try_from_bytes(seq![0x36u8, 0x34u8]) == Ok::<AuthorisationResponseCode, ParseError>(AuthorisationResponseCode::OriginalAmountIncorrect),
        first == '6' && second == '5' ==> AuthorisationResponseCode::spec_try_from_str(seq![first, second]) == Ok::<AuthorisationResponseCode, ParseError>(AuthorisationResponseCode::DeclineInsertCard) && AuthorisationResponseCode::spec_try_from_bytes(seq![0x36u8, 0x35u8]) == Ok::<AuthorisationResponseCode, ParseError>(AuthorisationResponseCode::DeclineInsertCard),
        first == '6' && second == '7' ==> AuthorisationResponseCode::spec_try_from_str(seq![first, second]) == Ok::<AuthorisationResponseCode, ParseError>(AuthorisationResponseCode::HoldCallAtm) && AuthorisationResponseCode::spec_try_from_bytes(seq![0x36u8, 0x37u8]) == Ok::<AuthorisationResponseCode, ParseError>(AuthorisationResponseCode::HoldCallAtm),
        first == '6' && second == '8' ==> AuthorisationResponseCode::spec_try_from_str(seq![first, second]) == Ok::<AuthorisationResponseCode, ParseError>(AuthorisationResponseCode::ResponseReceivedTooLate) && AuthorisationResponseCode::spec_try_from_bytes(seq![0x36u8, 0x38u8]) == Ok::<AuthorisationResponseCode, ParseError>(AuthorisationResponseCode::ResponseReceivedTooLate),
        first == '9' && second == '1' ==> AuthorisationResponseCode::spec_try_from_str(seq![first, second]) == Ok::<AuthorisationResponseCode, ParseError>(AuthorisationResponseCode::IssuerTimeout) && AuthorisationResponseCode::spec_try_from_bytes(seq![0x39u8, 0x31u8]) == Ok::<AuthorisationResponseCode, ParseError>(AuthorisationResponseCode::IssuerTimeout),
        first == '9' && second == '2' ==> AuthorisationResponseCode::spec_try_from_str(seq![first, second]) == Ok::<AuthorisationResponseCode, ParseError>(AuthorisationResponseCode::IssuerRoutingProblem) && AuthorisationResponseCode::spec_try_from_bytes(seq![0x39u8, 0x32u8]) == Ok::<AuthorisationResponseCode, ParseError>(AuthorisationResponseCode::IssuerRoutingProblem),
        first == '9' && second == '3' ==> AuthorisationResponseCode::spec_try_from_str(seq![first, second]) == Ok::<AuthorisationResponseCode, ParseError>(AuthorisationResponseCode::TransactionNotCompletedLawViolation) && AuthorisationResponseCode::spec_try_from_bytes(seq![0x39u8, 0x33u8]) == Ok::<AuthorisationResponseCode, ParseError>(AuthorisationResponseCode::TransactionNotCompletedLawViolation),
        first == '9' && second == '4' ==> AuthorisationResponseCode::spec_try_from_str(seq![first, second]) == Ok::<AuthorisationResponseCode, ParseError>(AuthorisationResponseCode::DuplicateTransmission) && AuthorisationResponseCode::spec_try_from_bytes(seq![0x39u8, 0x34u8]) == Ok::<AuthorisationResponseCode, ParseError>(AuthorisationResponseCode::DuplicateTransmission),
        first == '9' && second == '5' ==> AuthorisationResponseCode::spec_try_from_str(seq![first, second]) == Ok::<AuthorisationResponseCode, ParseError>(AuthorisationResponseCode::ReconciliationError) && AuthorisationResponseCode::spec_try_from_bytes(seq![0x39u8, 0x35u8]) == Ok::<AuthorisationResponseCode, ParseError>(AuthorisationResponseCode::ReconciliationError),
        first == '9' && second == '6' ==> AuthorisationResponseCode::spec_try_from_str(seq![first, second]) == Ok::<AuthorisationResponseCode, ParseError>(AuthorisationResponseCode::SystemMalfunction) && AuthorisationResponseCode::spec_try_from_bytes(seq![0x39u8, 0x36u8]) == Ok::<AuthorisationResponseCode, ParseError>(AuthorisationResponseCode::SystemMalfunction),
        !((first == '0' && second == '0') || (first == '0' && second == '1') || (first == '0' && second == '2') || (first == '0' && second == '3') || (first == '0' && second == '4') || (first == '0' && second == '5') || (first == '0' && second == '6') || (first == '0' && second == '7') || (first == '0' && second == '8') || (first == '0' && second == '9') || (first == '1' && second == '0') || (first == '1' && second == '1') || (first == '1' && second == '2') || (first == '1' && second == '3') || (first == '1' && second == '4') || (first == '1' && second == '5') || (first == '1' && second == '6') || (first == '1' && second == '7') || (first == '1' && second == '8') || (first == '1' && second == '9') || (first == '2' && second == '0') || (first == '2' && second == '1') || (first == '2' && second == '2') || (first == '2' && second == '3') || (first == '2' && second == '4') || (first == '2' && second == '5') || (first == '2' && second == '6') || (first == '2' && second == '7') || (first == '2' && second == '8') || (first == '2' && second == '9') || (first == '3' && second == '0') || (first == '3' && second == '1') || (first == '3' && second == '2') || (first == '3' && second == '3') || (first == '5' && second == '4') || (first == '3' && second == '4') || (first == '5' && second == '9') || (first == '3' && second == '5') || (first == '6' && second == '0') || (first == '3' && second == '6') || (first == '6' && second == '2') || (first == '3' && second == '7') || (first == '6' && second == '6') || (first == '3' && second == '8') || (first == '7' && second == '5') || (first == '3' && second == '9') || (first == '4' && second == '0') || (first == '4' && second == '1') || (first == '4' && second == '2') || (first == '4' && second == '3') || (first == '4' && second == '4') || (first == '5' && second == '1') || (first == '5' && second == '2') || (first == '5' && second == '3') || (first == '5' && second == '5') || (first == '5' && second == '6') || (first == '5' && second == '7') || (first == '5' && second == '8') || (first == '6' && second == '1') || (first == '6' && second == '3') || (first == '6' && second == '4') || (first == '6' && second == '5') || (first == '6' && second == '7') || (first == '6' && second == '8') || (first == '9' && second == '1') || (first == '9' && second == '2') || (first == '9' && second == '3') || (first == '9' && second == '4') || (first == '9' && second == '5') || (first == '9' && second == '6')) ==> AuthorisationResponseCode::spec_try_from_str(seq![first, second]) is Err,
        AuthorisationResponseCode::Approval.spec_description() == "Approval"@,
        AuthorisationResponseCode::Call.spec_description() == "Call"@,
        AuthorisationResponseCode::CallSpecial.spec_description() == "Call - Special Conditions"@,
        AuthorisationResponseCode::TerminalIdError.spec_description() == "Terminal ID Error"@,
        AuthorisationResponseCode::HoldCall.spec_description() == "Hold Card - Call"@,
        AuthorisationResponseCode::Decline.spec_description() == "Decline - Do Not Honour"@,
        AuthorisationResponseCode::Error.spec_description() == "Error"@,
        AuthorisationResponseCode::HoldCallSpecial.spec_description() == "Hold Card - Call - Special Conditions"@,
        AuthorisationResponseCode::HonourWithId.spec_description() == "Honour With Identification"@,
        AuthorisationResponseCode::NoOriginalTransaction.spec_description() == "No Original Transaction"@,
        AuthorisationResponseCode::PartialApproval.spec_description() == "Partial Approval"@,
        AuthorisationResponseCode::ApprovalVip.spec_description() == "Approved (VIP)"@,
        AuthorisationResponseCode::InvalidTransaction.spec_description() == "Invalid Transaction"@,
        AuthorisationResponseCode::InvalidAmount.spec_description() == "Invalid Amount"@,
        AuthorisationResponseCode::InvalidCardNumber.spec_description() == "Invalid Card Number"@,
        AuthorisationResponseCode::NoSuchIssuer.spec_description() == "No Such Issuer"@,
        AuthorisationResponseCode::ApprovedUpdateTrack3.spec_description() == "Approved - Update Track 3"@,
        AuthorisationResponseCode::CustomerCancellation.spec_description() == "Customer Cancellation"@,
        AuthorisationResponseCode::CustomerDispute.spec_description() == "Customer Dispute"@,
        AuthorisationResponseCode::RetryTransaction.spec_description() == "Retry Transaction"@,
        AuthorisationResponseCode::InvalidResponse.spec_description() == "Invalid Response"@,
        AuthorisationResponseCode::NoActionTaken.spec_description() == "No Action Taken"@,
        AuthorisationResponseCode::SuspectedMalfunction.spec_description() == "Suspected Malfunction"@,
        AuthorisationResponseCode::InvalidMinimumAmount.spec_description() == "Invalid Minimum Amount"@,
        AuthorisationResponseCode::FileUpdateNotSupported.spec_description() == "File Update Not Supported"@,
        AuthorisationResponseCode::InvalidIccData.spec_description() == "Invalid ICC Data"@,
        AuthorisationResponseCode::DuplicateFileUpdateRecord.spec_description() == "Duplicate File Update Record"@,
        AuthorisationResponseCode::FileUpdateFieldEditError.spec_description() == "File Update Field Edit Error"@,
        AuthorisationResponseCode::FileUpdateFileLockedOut.spec_description() == "File Update File Locked Out"@,
        AuthorisationResponseCode::FileUpdateNotSuccessful.spec_description() == "File Update Not Successful"@,
        AuthorisationResponseCode::FormatError.spec_description() == "Format Error"@,
        AuthorisationResponseCode::BankNotSupportedBySwitch.spec_description() == "Bank Not Supported By Switch"@,
        AuthorisationResponseCode::CompletedPartially.spec_description() == "Completed Partially"@,
        AuthorisationResponseCode::ExpiredCard.spec_description() == "Expired Card"@,
        AuthorisationResponseCode::SuspectedFraud.spec_description() == "Suspected Fraud"@,
        AuthorisationResponseCode::CardAcceptorContactAcquirer.spec_description() == "Card Acceptor, Contact Acquirer"@,
        AuthorisationResponseCode::RestrictedCard.spec_description() == "Restricted Card"@,
        AuthorisationResponseCode::CardAcceptorCallAcquirerSecurity.spec_description() == "Card Acceptor, Call Acquirer Security"@,
        AuthorisationResponseCode::AllowablePinRetriesExceeded.spec_description() == "Allowable PIN Retries Exceeded"@,
        AuthorisationResponseCode::NoCreditAccount.spec_description() == "No Credit Account"@,
        AuthorisationResponseCode::RequestedFunctionNotSupported.spec_description() == "Requested Function Not Supported"@,
        AuthorisationResponseCode::LostCard.spec_description() == "Lost Card"@,
        AuthorisationResponseCode::NoUniversalAccount.spec_description() == "No Universal Account"@,
        AuthorisationResponseCode::StolenCard.spec_description() == "Stolen Card"@,
        AuthorisationResponseCode::NoInvestmentAccount.spec_description() == "No Investment Account"@,
        AuthorisationResponseCode::InsufficientFunds.spec_description() == "Insufficient Funds"@,
        AuthorisationResponseCode::NoChequingAccount.spec_description() == "No Chequing Account"@,
        AuthorisationResponseCode::NoSavingsAccount.spec_description() == "No Savings Account"@,
        AuthorisationResponseCode::IncorrectPin.spec_description() == "Incorrect PIN"@,
        AuthorisationResponseCode::NoCardRecord.spec_description() == "No Card Record"@,
        AuthorisationResponseCode::TransactionNotAllowedCardholder.spec_description() == "Transaction Not Allowed For Cardholder"@,
        AuthorisationResponseCode::TransactionNotAllowedTerminal.spec_description() == "Transaction Not Allowed For Terminal"@,
        AuthorisationResponseCode::DebitCashbackWithdrawalLimitDecline.spec_description() == "Debit Cashback Withdrawal Limit Decline"@,
        AuthorisationResponseCode::SecurityViolation.spec_description() == "Security Violation"@,
        AuthorisationResponseCode::OriginalAmountIncorrect.spec_description() == "Original Amount Incorrect"@,
        AuthorisationResponseCode::DeclineInsertCard.spec_description() == "Decline - Insert Card (often due to too many contactless transactions)"@,
        AuthorisationResponseCode::HoldCallAtm.spec_description() == "ATM Hard Card Capture"@,
        AuthorisationResponseCode::ResponseReceivedTooLate.spec_description() == "Response Received Too Late"@,
        AuthorisationResponseCode::IssuerTimeout.spec_description() == "Issuer Timeout"@,
        AuthorisationResponseCode::IssuerRoutingProblem.spec_description() == "Issuer Routing Problem"@,
        AuthorisationResponseCode::TransactionNotCompletedLawViolation.spec_description() == "Transaction Not Completed - Law Violation"@,
        AuthorisationResponseCode::DuplicateTransmission.spec_description() == "Duplicate Transmission"@,
        AuthorisationResponseCode::ReconciliationError.spec_description() == "Reconciliation Error"@,
        AuthorisationResponseCode::SystemMalfunction.spec_description() == "System Malfunction"@,
{
}

} // verus!
