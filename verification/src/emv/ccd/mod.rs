//! The EMV Common Core Definitions (CCD) values. Not all issuers comply with
//! these, hence why they're in their own section.
//!
//! Information for this can be found in EMV Book 3, under `Part V`.
pub mod cci;
pub mod cvr;
pub mod iad;
