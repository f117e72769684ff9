//! The error type shared by every parser of the crate.
use vstd::prelude::*;
use vstd::string::*;

use crate::emv::bitflag_values::{decimal_digits, decimal_string};

verus! {

/// How the number of bytes found relates to the number that was expected.
#[derive(Clone, Copy, Debug, PartialEq, Eq, Structural, Hash)]
pub enum Comparison {
    /// At most `expected` bytes were allowed.
    Less,
    /// Exactly `expected` bytes were required.
    Equal,
    /// At least `expected` bytes were required.
    Greater,
}

/// An error that occurred during parsing.
#[derive(Clone, Copy, Debug, PartialEq, Eq, Structural, Hash)]
pub enum ParseError {
    /// The wrong number of bytes were present.
    ByteCountIncorrect { comparison: Comparison, expected: usize, found: usize },
    /// The number of bytes can't be split evenly into the value's components.
    ByteCountNotDivisibleIntoComponents,
    /// The bytes provided are not valid.
    InvalidBytes,
    /// The string provided couldn't be parsed as a number.
    InvalidNumber,
    /// The value provided isn't compliant with the specifications in some way.
    NonCompliant,
    /// The value isn't compliant with the EMV Common Core Definitions.
    NonCcdCompliant,
    /// Something is unsupported and cannot be processed.
    Unsupported,
    /// Something is unrecognised and cannot be processed.
    Unrecognised,
}


impl Comparison {
    /// How the comparison reads in a message.
    pub open spec fn spec_words(self) -> Seq<char> {
        match self {
            Comparison::Less => "less than or equal to"@,
            Comparison::Equal => "exactly"@,
            Comparison::Greater => "greater than or equal to"@,
        }
    }

    /// How the comparison reads in a message.
    pub fn words(&self) -> (text: &'static str)
        ensures
            text@ == self.spec_words(),
    {
        match self {
            Comparison::Less => "less than or equal to",
            Comparison::Equal => "exactly",
            Comparison::Greater => "greater than or equal to",
        }
    }
}

impl ParseError {
    /// The message that explains the error to a user.
    pub open spec fn spec_message(self) -> Seq<char> {
        match self {
            ParseError::ByteCountIncorrect { comparison, expected, found } => "The wrong number of bytes were provided for the value. Perhaps you provided the wrong value? Expected: "@
                + comparison.spec_words() + " "@ + decimal_digits(expected as nat) + ", Found: "@ + decimal_digits(found as nat),
            ParseError::ByteCountNotDivisibleIntoComponents => "The number of bytes provided is not divisible into the components of the value. Please check the format of the input data."@,
            ParseError::InvalidBytes => "The bytes provided are not valid."@,
            ParseError::InvalidNumber => "The value provided is not a valid number, or is too large."@,
            ParseError::NonCompliant => "The value provided isn't compliant with the specifications in some way, or this tool is out of date. If you have reason to believe it's the latter, please make sure you're using the latest version then open an issue on GitHub."@,
            ParseError::NonCcdCompliant => "The value provided isn't compliant with the EMV Common Core Definitions (CCD) in some way. This isn't a problem necessarily, but it does mean that the value can't be parsed."@,
            ParseError::Unsupported => "The value provided is in some way unsupported. If you have genuine need for the unsupported feature, please open an issue on GitHub."@,
            ParseError::Unrecognised => "The value provided is in some way unrecognised. This isn't a problem necessarily, but it does mean that the value can't be parsed."@,
        }
    }

    /// The message that explains the error to a user.
    pub fn message(&self) -> (text: String)
        ensures
            text@ == self.spec_message(),
    {
        match self {
            ParseError::ByteCountIncorrect { comparison, expected, found } => {
                let mut text = String::from_str(
                    "The wrong number of bytes were provided for the value. Perhaps you provided the wrong value? Expected: ",
                );
                text.append(comparison.words());
                text.append(" ");
                let expected_text = decimal_string(*expected as u64);
                text.append(expected_text.as_str());
                text.append(", Found: ");
                let found_text = decimal_string(*found as u64);
                text.append(found_text.as_str());
                text
            },
            ParseError::ByteCountNotDivisibleIntoComponents => String::from_str("The number of bytes provided is not divisible into the components of the value. Please check the format of the input data."),
            ParseError::InvalidBytes => String::from_str("The bytes provided are not valid."),
            ParseError::InvalidNumber => String::from_str("The value provided is not a valid number, or is too large."),
            ParseError::NonCompliant => String::from_str("The value provided isn't compliant with the specifications in some way, or this tool is out of date. If you have reason to believe it's the latter, please make sure you're using the latest version then open an issue on GitHub."),
            ParseError::NonCcdCompliant => String::from_str("The value provided isn't compliant with the EMV Common Core Definitions (CCD) in some way. This isn't a problem necessarily, but it does mean that the value can't be parsed."),
            ParseError::Unsupported => String::from_str("The value provided is in some way unsupported. If you have genuine need for the unsupported feature, please open an issue on GitHub."),
            ParseError::Unrecognised => String::from_str("The value provided is in some way unrecognised. This isn't a problem necessarily, but it does mean that the value can't be parsed."),
        }
    }
}

/// The message of each error, and how the wrong byte count message reads
/// its comparison, the expected count and the count found, in decimal.
pub proof fn lemma_parse_error_messages(comparison: Comparison, expected: usize, found: usize)
    ensures
        ParseError::ByteCountNotDivisibleIntoComponents.spec_message() == "The number of bytes provided is not divisible into the components of the value. Please check the format of the input data."@,
        ParseError::InvalidBytes.spec_message() == "The bytes provided are not valid."@,
        ParseError::InvalidNumber.spec_message() == "The value provided is not a valid number, or is too large."@,
        ParseError::NonCompliant.spec_message() == "The value provided isn't compliant with the specifications in some way, or this tool is out of date. If you have reason to believe it's the latter, please make sure you're using the latest version then open an issue on GitHub."@,
        ParseError::NonCcdCompliant.spec_message() == "The value provided isn't compliant with the EMV Common Core Definitions (CCD) in some way. This isn't a problem necessarily, but it does mean that the value can't be parsed."@,
        ParseError::Unsupported.spec_message() == "The value provided is in some way unsupported. If you have genuine need for the unsupported feature, please open an issue on GitHub."@,
        ParseError::Unrecognised.spec_message() == "The value provided is in some way unrecognised. This isn't a problem necessarily, but it does mean that the value can't be parsed."@,
        Comparison::Less.spec_words() == "less than or equal to"@,
        Comparison::Equal.spec_words() == "exactly"@,
        Comparison::Greater.spec_words() == "greater than or equal to"@,
        (ParseError::ByteCountIncorrect { comparison, expected, found }).spec_message() == "The wrong number of bytes were provided for the value. Perhaps you provided the wrong value? Expected: "@
            + comparison.spec_words() + " "@ + decimal_digits(expected as nat) + ", Found: "@ + decimal_digits(found as nat),
{
}

} // verus!
