//! The XML dialect that brewing tools exchange.
//!
//! `model` says what the text of a document is, `layout` gives each kind of
//! record its fields in the order of the format, `write` produces the text,
//! and `laws` holds what follows for every record.

pub mod laws;
pub mod layout;
pub mod model;
pub mod write;
