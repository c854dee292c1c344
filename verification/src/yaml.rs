//! The YAML form of a set of records.

pub mod write;
