//! Water profiles.

use vstd::prelude::*;

verus! {

/// A water profile.
///
/// A measured quantity is held as the text that stands for it in a
/// document: the decimal numeral of the number. A writer puts the text into
/// the document as it is, and nothing checks that it is a numeral.
#[derive(Debug, Clone)]
pub struct Water {
    /// the name of the profile
    pub name: String,
    /// the version of the format (normally 1)
    pub version: i64,
    /// the volume in litres
    pub amount: String,
    /// calcium in parts per million
    pub calcium: String,
    /// bicarbonate in parts per million
    pub bicarbonate: String,
    /// sulfate in parts per million
    pub sulfate: String,
    /// chloride in parts per million
    pub chloride: String,
    /// sodium in parts per million
    pub sodium: String,
    /// magnesium in parts per million
    pub magnesium: String,
    /// the pH of the water
    pub ph: Option<String>,
    /// notes on the water
    pub notes: Option<String>,
}

impl Default for Water {
    /// The record with an empty name, version 0, every amount 0, the first
    /// variant of every enumeration, no flag set and no optional field
    /// present.
    fn default() -> (r: Water)
        ensures
            r.name@ == Seq::<char>::empty(),
            r.version == 0,
            r.amount@ == "0"@,
            r.calcium@ == "0"@,
            r.bicarbonate@ == "0"@,
            r.sulfate@ == "0"@,
            r.chloride@ == "0"@,
            r.sodium@ == "0"@,
            r.magnesium@ == "0"@,
            r.ph is None,
            r.notes is None,
    {
        Water {
            name: String::new(),
            version: 0,
            amount: "0".to_owned(),
            calcium: "0".to_owned(),
            bicarbonate: "0".to_owned(),
            sulfate: "0".to_owned(),
            chloride: "0".to_owned(),
            sodium: "0".to_owned(),
            magnesium: "0".to_owned(),
            ph: None,
            notes: None,
        }
    }
}

} // verus!
