//! What the YAML form holds.
//!
//! Only fermentables have a YAML form. Turning records into YAML text is
//! left to a serialiser; what is decided here is which records it is given.

use vstd::prelude::*;
use crate::data::{Fermentable, RecordSet, Records};

verus! {

/// The records that the YAML form of `set` holds: those of a set of
/// fermentables, with or without records. Every other set, the empty one
/// too, has no YAML form: writing it writes nothing.
pub open spec fn yaml_records(set: RecordSet) -> Option<Records<Fermentable>> {
    match set {
        RecordSet::Fermentables(v) => Some(v),
        _ => None,
    }
}

/// The records to serialise for `set`, if it has a YAML form.
pub fn fermentables(set: &RecordSet) -> (records: Option<&Records<Fermentable>>)
    ensures
        match records {
            Some(v) => yaml_records(*set) == Some(*v),
            None => yaml_records(*set) is None,
        },
{
    match set {
        RecordSet::Fermentables(v) => Some(v),
        _ => None,
    }
}

} // verus!
