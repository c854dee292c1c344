//! Fermentables.

use vstd::prelude::*;
use crate::codec::{lemma_round_trip, Codec, Enumeration};
use crate::error::Error;
use crate::text::same_text;

verus! {

/// The type of a fermentable.
#[derive(Debug, Clone, Copy, PartialEq, Eq, Structural)]
pub enum FermentableType {
    /// grain
    Grain,
    /// sugar
    Sugar,
    /// liquid extract
    Extract,
    /// dry extract
    DryExtract,
    /// adjunct
    Adjunct,
}

impl Default for FermentableType {
    fn default() -> (v: FermentableType)
        ensures
            v == FermentableType::Grain,
    {
        FermentableType::Grain
    }
}

impl Enumeration for FermentableType {
    open spec fn text(&self) -> Seq<char> {
        match self {
            FermentableType::Grain => "Grain"@,
            FermentableType::Sugar => "Sugar"@,
            FermentableType::Extract => "Extract"@,
            FermentableType::DryExtract => "Dry Extract"@,
            FermentableType::Adjunct => "Adjunct"@,
        }
    }

    open spec fn enum_name() -> Seq<char> {
        "FermentableType"@
    }

    open spec fn tokens() -> Seq<Seq<char>> {
        seq!["Grain"@, "Sugar"@, "Extract"@, "Dry Extract"@, "Adjunct"@]
    }

    proof fn lemma_injective(a: FermentableType, b: FermentableType) {
        reveal_strlit("Grain");
        reveal_strlit("Sugar");
        reveal_strlit("Extract");
        reveal_strlit("Dry Extract");
        reveal_strlit("Adjunct");
        assert("Grain"@.len() == 5 && "Grain"@[0] == 'G');
        assert("Sugar"@.len() == 5 && "Sugar"@[0] == 'S');
        assert("Extract"@.len() == 7 && "Extract"@[0] == 'E');
        assert("Dry Extract"@.len() == 11);
        assert("Adjunct"@.len() == 7 && "Adjunct"@[0] == 'A');
    }

    proof fn lemma_table(s: Seq<char>) {
        let table = Self::tokens();
        assert(table[0] == FermentableType::Grain.text());
        assert(table[1] == FermentableType::Sugar.text());
        assert(table[2] == FermentableType::Extract.text());
        assert(table[3] == FermentableType::DryExtract.text());
        assert(table[4] == FermentableType::Adjunct.text());
    }
}

impl Codec for FermentableType {
    fn as_str(&self) -> (s: &'static str) {
        match self {
            FermentableType::Grain => "Grain",
            FermentableType::Sugar => "Sugar",
            FermentableType::Extract => "Extract",
            FermentableType::DryExtract => "Dry Extract",
            FermentableType::Adjunct => "Adjunct",
        }
    }

    fn from_str(name: &str) -> (r: Result<FermentableType, Error>) {
        let r = if same_text(name, "Grain") {
            Ok(FermentableType::Grain)
        } else if same_text(name, "Sugar") {
            Ok(FermentableType::Sugar)
        } else if same_text(name, "Extract") {
            Ok(FermentableType::Extract)
        } else if same_text(name, "Dry Extract") {
            Ok(FermentableType::DryExtract)
        } else if same_text(name, "Adjunct") {
            Ok(FermentableType::Adjunct)
        } else {
            Err(Error::parse_error("FermentableType", name))
        };
        proof {
            if let Ok(v) = r {
                lemma_round_trip(v);
            }
        }
        r
    }
}

/// A fermentable: grain, sugar, extract or adjunct.
///
/// A measured quantity is held as the text that stands for it in a
/// document: the decimal numeral of the number. A writer puts the text into
/// the document as it is, and nothing checks that it is a numeral.
#[derive(Debug, Clone)]
pub struct Fermentable {
    /// the name of the fermentable
    pub name: String,
    /// the version of the fermentable format (normally 1)
    pub version: i64,
    /// the type of the fermentable
    pub type_: FermentableType,
    /// the amount in kg
    pub amount: String,
    /// the percent dry yield (fine grain) for a grain, or the raw yield by
    /// weight for an extract, adjunct or sugar
    pub yield_: String,
    /// the colour in Lovibond units (SRM for liquid extracts)
    pub color: String,
    /// whether the item is normally added after the boil
    pub add_after_boil: bool,
    /// the country or place of origin
    pub origin: Option<String>,
    /// the supplier of the grain, extract or sugar
    pub supplier: Option<String>,
    /// notes on the ingredient and its use; may span several lines
    pub notes: Option<String>,
    /// the percent difference between the coarse grain yield and the fine
    /// grain yield; meant for grains and adjuncts
    pub coarse_fine_diff: Option<String>,
    /// the percent moisture in the grain; meant for grains and adjuncts
    pub moisture: Option<String>,
    /// the diastatic power of the grain in Lintner units; meant for grains
    /// and adjuncts
    pub diastatic_power: Option<String>,
    /// the percent protein in the grain; meant for grains and adjuncts
    pub protein: Option<String>,
    /// the recommended maximum percentage (by weight) of this ingredient in
    /// a batch
    pub max_in_batch: Option<String>,
    /// whether it is recommended that the grain be mashed rather than
    /// steeped
    pub recommend_mash: bool,
    /// for hopped extracts: an estimate of the IBUs per pound of extract in
    /// a gallon of water
    pub ibu_gal_per_lb: Option<String>,
    /// the amount as shown to the user
    pub display_amount: Option<String>,
    /// the amount in stock, as shown to the user
    pub inventory: Option<String>,
    /// the extract potential
    pub potential: Option<String>,
    /// the colour as shown to the user
    pub display_color: Option<String>,
}

impl Default for Fermentable {
    /// The record with an empty name, version 0, every amount 0, the first
    /// variant of every enumeration, no flag set and no optional field
    /// present.
    fn default() -> (r: Fermentable)
        ensures
            r.name@ == Seq::<char>::empty(),
            r.version == 0,
            r.type_ == FermentableType::Grain,
            r.amount@ == "0"@,
            r.yield_@ == "0"@,
            r.color@ == "0"@,
            !r.add_after_boil,
            r.origin is None,
            r.supplier is None,
            r.notes is None,
            r.coarse_fine_diff is None,
            r.moisture is None,
            r.diastatic_power is None,
            r.protein is None,
            r.max_in_batch is None,
            !r.recommend_mash,
            r.ibu_gal_per_lb is None,
            r.display_amount is None,
            r.inventory is None,
            r.potential is None,
            r.display_color is None,
    {
        Fermentable {
            name: String::new(),
            version: 0,
            type_: FermentableType::Grain,
            amount: "0".to_owned(),
            yield_: "0".to_owned(),
            color: "0".to_owned(),
            add_after_boil: false,
            origin: None,
            supplier: None,
            notes: None,
            coarse_fine_diff: None,
            moisture: None,
            diastatic_power: None,
            protein: None,
            max_in_batch: None,
            recommend_mash: false,
            ibu_gal_per_lb: None,
            display_amount: None,
            inventory: None,
            potential: None,
            display_color: None,
        }
    }
}

} // verus!
