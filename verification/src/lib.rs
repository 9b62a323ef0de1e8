//! A small interning (dictionary-encoding) library: it hands out dense,
//! zero-based integer identifiers for distinct values on first encounter and
//! answers lookups in both directions (value to identifier, identifier to
//! value).

pub mod item;
pub mod itemizer;
pub mod laws;

pub use item::Item;
pub use itemizer::Itemizer;
