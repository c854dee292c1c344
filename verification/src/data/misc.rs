//! Miscellaneous ingredients.

use vstd::prelude::*;
use crate::codec::{lemma_round_trip, Codec, Enumeration};
use crate::error::Error;
use crate::text::same_text;

verus! {

/// The type of a miscellaneous ingredient.
#[derive(Debug, Clone, Copy, PartialEq, Eq, Structural)]
pub enum MiscType {
    /// spice
    Spice,
    /// fining agent
    Fining,
    /// water treatment
    WaterAgent,
    /// herb
    Herb,
    /// flavouring
    Flavor,
    /// anything else
    Other,
}

impl Default for MiscType {
    fn default() -> (v: MiscType)
        ensures
            v == MiscType::Spice,
    {
        MiscType::Spice
    }
}

impl Enumeration for MiscType {
    open spec fn text(&self) -> Seq<char> {
        match self {
            MiscType::Spice => "Spice"@,
            MiscType::Fining => "Fining"@,
            MiscType::WaterAgent => "Water Agent"@,
            MiscType::Herb => "Herb"@,
            MiscType::Flavor => "Flavor"@,
            MiscType::Other => "Other"@,
        }
    }

    open spec fn enum_name() -> Seq<char> {
        "MiscType"@
    }

    open spec fn tokens() -> Seq<Seq<char>> {
        seq!["Spice"@, "Fining"@, "Water Agent"@, "Herb"@, "Flavor"@, "Other"@]
    }

    proof fn lemma_injective(a: MiscType, b: MiscType) {
        reveal_strlit("Spice");
        reveal_strlit("Fining");
        reveal_strlit("Water Agent");
        reveal_strlit("Herb");
        reveal_strlit("Flavor");
        reveal_strlit("Other");
        assert("Spice"@.len() == 5 && "Spice"@[0] == 'S');
        assert("Fining"@.len() == 6 && "Fining"@[1] == 'i');
        assert("Water Agent"@.len() == 11);
        assert("Herb"@.len() == 4);
        assert("Flavor"@.len() == 6 && "Flavor"@[1] == 'l');
        assert("Other"@.len() == 5 && "Other"@[0] == 'O');
    }

    proof fn lemma_table(s: Seq<char>) {
        let table = Self::tokens();
        assert(table[0] == MiscType::Spice.text());
        assert(table[1] == MiscType::Fining.text());
        assert(table[2] == MiscType::WaterAgent.text());
        assert(table[3] == MiscType::Herb.text());
        assert(table[4] == MiscType::Flavor.text());
        assert(table[5] == MiscType::Other.text());
    }
}

impl Codec for MiscType {
    fn as_str(&self) -> (s: &'static str) {
        match self {
            MiscType::Spice => "Spice",
            MiscType::Fining => "Fining",
            MiscType::WaterAgent => "Water Agent",
            MiscType::Herb => "Herb",
            MiscType::Flavor => "Flavor",
            MiscType::Other => "Other",
        }
    }

    fn from_str(name: &str) -> (r: Result<MiscType, Error>) {
        let r = if same_text(name, "Spice") {
            Ok(MiscType::Spice)
        } else if same_text(name, "Fining") {
            Ok(MiscType::Fining)
        } else if same_text(name, "Water Agent") {
            Ok(MiscType::WaterAgent)
        } else if same_text(name, "Herb") {
            Ok(MiscType::Herb)
        } else if same_text(name, "Flavor") {
            Ok(MiscType::Flavor)
        } else if same_text(name, "Other") {
            Ok(MiscType::Other)
        } else {
            Err(Error::parse_error("MiscType", name))
        };
        proof {
            if let Ok(v) = r {
                lemma_round_trip(v);
            }
        }
        r
    }
}

/// The stage at which a miscellaneous ingredient is added.
#[derive(Debug, Clone, Copy, PartialEq, Eq, Structural)]
pub enum MiscUse {
    /// added to the boil
    Boil,
    /// added to the mash
    Mash,
    /// added to the primary fermentation
    Primary,
    /// added to the secondary fermentation
    Secondary,
    /// added at bottling
    Bottling,
}

impl Default for MiscUse {
    fn default() -> (v: MiscUse)
        ensures
            v == MiscUse::Boil,
    {
        MiscUse::Boil
    }
}

impl Enumeration for MiscUse {
    open spec fn text(&self) -> Seq<char> {
        match self {
            MiscUse::Boil => "Boil"@,
            MiscUse::Mash => "Mash"@,
            MiscUse::Primary => "Primary"@,
            MiscUse::Secondary => "Secondary"@,
            MiscUse::Bottling => "Bottling"@,
        }
    }

    open spec fn enum_name() -> Seq<char> {
        "MiscUse"@
    }

    open spec fn tokens() -> Seq<Seq<char>> {
        seq!["Boil"@, "Mash"@, "Primary"@, "Secondary"@, "Bottling"@]
    }

    proof fn lemma_injective(a: MiscUse, b: MiscUse) {
        reveal_strlit("Boil");
        reveal_strlit("Mash");
        reveal_strlit("Primary");
        reveal_strlit("Secondary");
        reveal_strlit("Bottling");
        assert("Boil"@.len() == 4 && "Boil"@[0] == 'B');
        assert("Mash"@.len() == 4 && "Mash"@[0] == 'M');
        assert("Primary"@.len() == 7);
        assert("Secondary"@.len() == 9);
        assert("Bottling"@.len() == 8);
    }

    proof fn lemma_table(s: Seq<char>) {
        let table = Self::tokens();
        assert(table[0] == MiscUse::Boil.text());
        assert(table[1] == MiscUse::Mash.text());
        assert(table[2] == MiscUse::Primary.text());
        assert(table[3] == MiscUse::Secondary.text());
        assert(table[4] == MiscUse::Bottling.text());
    }
}

impl Codec for MiscUse {
    fn as_str(&self) -> (s: &'static str) {
        match self {
            MiscUse::Boil => "Boil",
            MiscUse::Mash => "Mash",
            MiscUse::Primary => "Primary",
            MiscUse::Secondary => "Secondary",
            MiscUse::Bottling => "Bottling",
        }
    }

    fn from_str(name: &str) -> (r: Result<MiscUse, Error>) {
        let r = if same_text(name, "Boil") {
            Ok(MiscUse::Boil)
        } else if same_text(name, "Mash") {
            Ok(MiscUse::Mash)
        } else if same_text(name, "Primary") {
            Ok(MiscUse::Primary)
        } else if same_text(name, "Secondary") {
            Ok(MiscUse::Secondary)
        } else if same_text(name, "Bottling") {
            Ok(MiscUse::Bottling)
        } else {
            Err(Error::parse_error("MiscUse", name))
        };
        proof {
            if let Ok(v) = r {
                lemma_round_trip(v);
            }
        }
        r
    }
}

/// A miscellaneous ingredient: a spice, a fining, a water agent and the like.
///
/// A measured quantity is held as the text that stands for it in a
/// document: the decimal numeral of the number. A writer puts the text into
/// the document as it is, and nothing checks that it is a numeral.
#[derive(Debug, Clone)]
pub struct Misc {
    /// the name of the ingredient
    pub name: String,
    /// the version of the format (normally 1)
    pub version: i64,
    /// the type of the ingredient
    pub type_: MiscType,
    /// the stage at which the ingredient is added
    pub use_: MiscUse,
    /// for how many minutes the ingredient is boiled, steeped, mashed or
    /// left in
    pub time: String,
    /// the amount, in litres or in kg
    pub amount: String,
    /// whether the amount is a weight in kg
    pub amount_is_weight: bool,
    /// what the ingredient is used for
    pub use_for: Option<String>,
    /// notes on the ingredient
    pub notes: Option<String>,
    /// the time as shown to the user
    pub display_time: Option<String>,
    /// the amount as shown to the user
    pub display_amount: Option<String>,
    /// the amount in stock, as shown to the user
    pub inventory: Option<String>,
}

impl Default for Misc {
    /// The record with an empty name, version 0, every amount 0, the first
    /// variant of every enumeration, no flag set and no optional field
    /// present.
    fn default() -> (r: Misc)
        ensures
            r.name@ == Seq::<char>::empty(),
            r.version == 0,
            r.type_ == MiscType::Spice,
            r.use_ == MiscUse::Boil,
            r.time@ == "0"@,
            r.amount@ == "0"@,
            !r.amount_is_weight,
            r.use_for is None,
            r.notes is None,
            r.display_time is None,
            r.display_amount is None,
            r.inventory is None,
    {
        Misc {
            name: String::new(),
            version: 0,
            type_: MiscType::Spice,
            use_: MiscUse::Boil,
            time: "0".to_owned(),
            amount: "0".to_owned(),
            amount_is_weight: false,
            use_for: None,
            notes: None,
            display_time: None,
            display_amount: None,
            inventory: None,
        }
    }
}

} // verus!
