//! Locating a motorsport session in a season's timing index and shaping its
//! data feeds for display.
//!
//! Everything here is a function from values to values: fetching documents
//! and writing output belong to the caller.

pub mod cli;
pub mod feed;
pub mod index;
pub mod info;
pub mod json;
pub mod radio;
pub mod render;
pub mod roster;
pub mod seqs;
pub mod session;
pub mod status;
pub mod table;
pub mod text;
