//! Parsing and annotation of EMV payment data.
use vstd::prelude::*;

pub mod config;
pub mod emv;
pub mod error;
pub mod non_emv;
pub mod util;

verus! {

/// The number of bits in a byte.
pub const BITS_PER_BYTE: u8 = 8;

} // verus!
