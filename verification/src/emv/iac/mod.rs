//! Everything for handling Issuer Action Code (IAC) values.
//!
//! Information for this can be found in EMV Book 3, under section `10.7`.
pub mod default;
pub mod denial;
pub mod online;
