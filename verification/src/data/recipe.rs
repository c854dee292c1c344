//! Recipes.

use vstd::prelude::*;

verus! {

/// A recipe. Only what identifies it is held: no writer exists yet for
/// records of this kind.
#[derive(Debug, Clone)]
pub struct Recipe {
    /// the name of the record
    pub name: String,
    /// the version of the format (normally 1)
    pub version: i64,
}

impl Default for Recipe {
    /// The record with an empty name and version 0.
    fn default() -> (r: Recipe)
        ensures
            r.name@ == Seq::<char>::empty(),
            r.version == 0,
    {
        Recipe { name: String::new(), version: 0 }
    }
}

} // verus!
