//! All EMV-related parsers.
pub mod additional_terminal_capabilities;
pub mod authorisation_response_code;
pub mod bitflag_values;
pub mod breakdown;
pub mod ccd;
pub mod cv_rule;
pub mod cvm_list;
pub mod cvm_results;
pub mod iac;
pub mod pos_entry_mode;
pub mod terminal_capabilities;
pub mod terminal_type;
pub mod tag_basic_info;
pub mod tlv_parsing;
pub mod transaction_type;
pub mod tsi;
pub mod tvr;
