//! Hops.

use vstd::prelude::*;
use crate::codec::{lemma_round_trip, Codec, Enumeration};
use crate::error::Error;
use crate::text::same_text;

verus! {

/// The stage at which a hop is added.
#[derive(Debug, Clone, Copy, PartialEq, Eq, Structural)]
pub enum HopUse {
    /// added to the boil
    Boil,
    /// added to the fermenter
    DryHop,
    /// added to the mash
    Mash,
    /// added to the first runnings
    FirstWort,
    /// added at the end of the boil, for aroma
    Aroma,
}

impl Default for HopUse {
    fn default() -> (v: HopUse)
        ensures
            v == HopUse::Boil,
    {
        HopUse::Boil
    }
}

impl Enumeration for HopUse {
    open spec fn text(&self) -> Seq<char> {
        match self {
            HopUse::Boil => "Boil"@,
            HopUse::DryHop => "Dry Hop"@,
            HopUse::Mash => "Mash"@,
            HopUse::FirstWort => "First Wort"@,
            HopUse::Aroma => "Aroma"@,
        }
    }

    open spec fn enum_name() -> Seq<char> {
        "HopUse"@
    }

    open spec fn tokens() -> Seq<Seq<char>> {
        seq!["Boil"@, "Dry Hop"@, "Mash"@, "First Wort"@, "Aroma"@]
    }

    proof fn lemma_injective(a: HopUse, b: HopUse) {
        reveal_strlit("Boil");
        reveal_strlit("Dry Hop");
        reveal_strlit("Mash");
        reveal_strlit("First Wort");
        reveal_strlit("Aroma");
        assert("Boil"@.len() == 4 && "Boil"@[0] == 'B');
        assert("Dry Hop"@.len() == 7);
        assert("Mash"@.len() == 4 && "Mash"@[0] == 'M');
        assert("First Wort"@.len() == 10);
        assert("Aroma"@.len() == 5);
    }

    proof fn lemma_table(s: Seq<char>) {
        let table = Self::tokens();
        assert(table[0] == HopUse::Boil.text());
        assert(table[1] == HopUse::DryHop.text());
        assert(table[2] == HopUse::Mash.text());
        assert(table[3] == HopUse::FirstWort.text());
        assert(table[4] == HopUse::Aroma.text());
    }
}

impl Codec for HopUse {
    fn as_str(&self) -> (s: &'static str) {
        match self {
            HopUse::Boil => "Boil",
            HopUse::DryHop => "Dry Hop",
            HopUse::Mash => "Mash",
            HopUse::FirstWort => "First Wort",
            HopUse::Aroma => "Aroma",
        }
    }

    fn from_str(name: &str) -> (r: Result<HopUse, Error>) {
        let r = if same_text(name, "Boil") {
            Ok(HopUse::Boil)
        } else if same_text(name, "Dry Hop") {
            Ok(HopUse::DryHop)
        } else if same_text(name, "Mash") {
            Ok(HopUse::Mash)
        } else if same_text(name, "First Wort") {
            Ok(HopUse::FirstWort)
        } else if same_text(name, "Aroma") {
            Ok(HopUse::Aroma)
        } else {
            Err(Error::parse_error("HopUse", name))
        };
        proof {
            if let Ok(v) = r {
                lemma_round_trip(v);
            }
        }
        r
    }
}

/// What a hop is grown for.
#[derive(Debug, Clone, Copy, PartialEq, Eq, Structural)]
pub enum HopType {
    /// bittering hop
    Bittering,
    /// aroma hop
    Aroma,
    /// good for both
    Both,
}

impl Default for HopType {
    fn default() -> (v: HopType)
        ensures
            v == HopType::Bittering,
    {
        HopType::Bittering
    }
}

impl Enumeration for HopType {
    open spec fn text(&self) -> Seq<char> {
        match self {
            HopType::Bittering => "Bittering"@,
            HopType::Aroma => "Aroma"@,
            HopType::Both => "Both"@,
        }
    }

    open spec fn enum_name() -> Seq<char> {
        "HopType"@
    }

    open spec fn tokens() -> Seq<Seq<char>> {
        seq!["Bittering"@, "Aroma"@, "Both"@]
    }

    proof fn lemma_injective(a: HopType, b: HopType) {
        reveal_strlit("Bittering");
        reveal_strlit("Aroma");
        reveal_strlit("Both");
        assert("Bittering"@.len() == 9);
        assert("Aroma"@.len() == 5);
        assert("Both"@.len() == 4);
    }

    proof fn lemma_table(s: Seq<char>) {
        let table = Self::tokens();
        assert(table[0] == HopType::Bittering.text());
        assert(table[1] == HopType::Aroma.text());
        assert(table[2] == HopType::Both.text());
    }
}

impl Codec for HopType {
    fn as_str(&self) -> (s: &'static str) {
        match self {
            HopType::Bittering => "Bittering",
            HopType::Aroma => "Aroma",
            HopType::Both => "Both",
        }
    }

    fn from_str(name: &str) -> (r: Result<HopType, Error>) {
        let r = if same_text(name, "Bittering") {
            Ok(HopType::Bittering)
        } else if same_text(name, "Aroma") {
            Ok(HopType::Aroma)
        } else if same_text(name, "Both") {
            Ok(HopType::Both)
        } else {
            Err(Error::parse_error("HopType", name))
        };
        proof {
            if let Ok(v) = r {
                lemma_round_trip(v);
            }
        }
        r
    }
}

/// The form in which a hop comes.
#[derive(Debug, Clone, Copy, PartialEq, Eq, Structural)]
pub enum HopForm {
    /// pellets
    Pellet,
    /// plugs
    Plug,
    /// whole leaves
    Leaf,
}

impl Default for HopForm {
    fn default() -> (v: HopForm)
        ensures
            v == HopForm::Pellet,
    {
        HopForm::Pellet
    }
}

impl Enumeration for HopForm {
    open spec fn text(&self) -> Seq<char> {
        match self {
            HopForm::Pellet => "Pellet"@,
            HopForm::Plug => "Plug"@,
            HopForm::Leaf => "Leaf"@,
        }
    }

    open spec fn enum_name() -> Seq<char> {
        "HopForm"@
    }

    open spec fn tokens() -> Seq<Seq<char>> {
        seq!["Pellet"@, "Plug"@, "Leaf"@]
    }

    proof fn lemma_injective(a: HopForm, b: HopForm) {
        reveal_strlit("Pellet");
        reveal_strlit("Plug");
        reveal_strlit("Leaf");
        assert("Pellet"@.len() == 6);
        assert("Plug"@.len() == 4 && "Plug"@[0] == 'P');
        assert("Leaf"@.len() == 4 && "Leaf"@[0] == 'L');
    }

    proof fn lemma_table(s: Seq<char>) {
        let table = Self::tokens();
        assert(table[0] == HopForm::Pellet.text());
        assert(table[1] == HopForm::Plug.text());
        assert(table[2] == HopForm::Leaf.text());
    }
}

impl Codec for HopForm {
    fn as_str(&self) -> (s: &'static str) {
        match self {
            HopForm::Pellet => "Pellet",
            HopForm::Plug => "Plug",
            HopForm::Leaf => "Leaf",
        }
    }

    fn from_str(name: &str) -> (r: Result<HopForm, Error>) {
        let r = if same_text(name, "Pellet") {
            Ok(HopForm::Pellet)
        } else if same_text(name, "Plug") {
            Ok(HopForm::Plug)
        } else if same_text(name, "Leaf") {
            Ok(HopForm::Leaf)
        } else {
            Err(Error::parse_error("HopForm", name))
        };
        proof {
            if let Ok(v) = r {
                lemma_round_trip(v);
            }
        }
        r
    }
}

/// A hop.
///
/// A measured quantity is held as the text that stands for it in a
/// document: the decimal numeral of the number. A writer puts the text into
/// the document as it is, and nothing checks that it is a numeral.
#[derive(Debug, Clone)]
pub struct Hop {
    /// the name of the hop
    pub name: String,
    /// the version of the hop format (normally 1)
    pub version: i64,
    /// the percent alpha acid
    pub alpha: String,
    /// the amount in kg
    pub amount: String,
    /// the stage at which the hop is added
    pub use_: HopUse,
    /// the time in minutes; what it measures depends on the use
    pub time: String,
    /// notes on the hop and its use
    pub notes: Option<String>,
    /// what the hop is grown for
    pub type_: Option<HopType>,
    /// the form in which the hop comes
    pub form: Option<HopForm>,
    /// the percent beta acid
    pub beta: Option<String>,
    /// the hop stability index: the percent of alpha acid lost in six
    /// months of storage
    pub hsi: Option<String>,
    /// the country or place of origin
    pub origin: Option<String>,
    /// hops that can stand in for this one
    pub substitutes: Option<String>,
    /// the percent humulene
    pub humulene: Option<String>,
    /// the percent caryophyllene
    pub caryophyllene: Option<String>,
    /// the percent cohumulone
    pub cohumulone: Option<String>,
    /// the percent myrcene
    pub myrcene: Option<String>,
}

impl Default for Hop {
    /// The record with an empty name, version 0, every amount 0, the first
    /// variant of every enumeration, no flag set and no optional field
    /// present.
    fn default() -> (r: Hop)
        ensures
            r.name@ == Seq::<char>::empty(),
            r.version == 0,
            r.alpha@ == "0"@,
            r.amount@ == "0"@,
            r.use_ == HopUse::Boil,
            r.time@ == "0"@,
            r.notes is None,
            r.type_ is None,
            r.form is None,
            r.beta is None,
            r.hsi is None,
            r.origin is None,
            r.substitutes is None,
            r.humulene is None,
            r.caryophyllene is None,
            r.cohumulone is None,
            r.myrcene is None,
    {
        Hop {
            name: String::new(),
            version: 0,
            alpha: "0".to_owned(),
            amount: "0".to_owned(),
            use_: HopUse::Boil,
            time: "0".to_owned(),
            notes: None,
            type_: None,
            form: None,
            beta: None,
            hsi: None,
            origin: None,
            substitutes: None,
            humulene: None,
            caryophyllene: None,
            cohumulone: None,
            myrcene: None,
        }
    }
}

} // verus!
