//! Beer styles.

use vstd::prelude::*;

verus! {

/// A beer style. Only what identifies it is held: no writer exists yet for
/// records of this kind.
#[derive(Debug, Clone)]
pub struct Style {
    /// the name of the record
    pub name: String,
    /// the version of the format (normally 1)
    pub version: i64,
}

impl Default for Style {
    /// The record with an empty name and version 0.
    fn default() -> (r: Style)
        ensures
            r.name@ == Seq::<char>::empty(),
            r.version == 0,
    {
        Style { name: String::new(), version: 0 }
    }
}

} // verus!
