//! Parsers for values that are not part of EMV.
pub mod service_code;
