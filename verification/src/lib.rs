//! Catalogue records read from a stream of table markup, with the free-form
//! text of each cell normalised into typed, ordered field values.

pub mod text;
pub mod parse;
pub mod pattern;
pub mod data;
pub mod extract;
