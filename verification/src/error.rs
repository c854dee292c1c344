//! What can go wrong inside the library.

use vstd::prelude::*;
use crate::data::RecordKind;

verus! {

/// A failure of the library.
#[derive(Debug)]
pub enum Error {
    /// A text names no variant of an enumeration: the name of the
    /// enumeration, then the text.
    ParseError(String, String),
    /// No writer exists yet for records of this kind.
    NotImplemented(RecordKind),
}

impl Error {
    /// Whether this is the failure to read `text` as a variant of the
    /// enumeration called `enum_name`.
    pub open spec fn is_parse_error(self, enum_name: Seq<char>, text: Seq<char>) -> bool {
        self matches Error::ParseError(t, s) && t@ == enum_name && s@ == text
    }

    /// The failure to read `text` as a variant of `enum_name`.
    pub fn parse_error(enum_name: &str, text: &str) -> (e: Error)
        ensures
            e.is_parse_error(enum_name@, text@),
    {
        Error::ParseError(enum_name.to_owned(), text.to_owned())
    }
}

} // verus!
