//! Mash profiles.

use vstd::prelude::*;

verus! {

/// A mash profile. Only what identifies it is held: no writer exists yet for
/// records of this kind.
#[derive(Debug, Clone)]
pub struct Mash {
    /// the name of the record
    pub name: String,
    /// the version of the format (normally 1)
    pub version: i64,
}

impl Default for Mash {
    /// The record with an empty name and version 0.
    fn default() -> (r: Mash)
        ensures
            r.name@ == Seq::<char>::empty(),
            r.version == 0,
    {
        Mash { name: String::new(), version: 0 }
    }
}

} // verus!
