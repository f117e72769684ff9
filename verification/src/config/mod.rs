//! Configuration values that the library interprets.
pub mod colour_choice;
