//! Yeasts.

use vstd::prelude::*;
use crate::codec::{lemma_round_trip, Codec, Enumeration};
use crate::error::Error;
use crate::text::same_text;

verus! {

/// The type of a yeast.
#[derive(Debug, Clone, Copy, PartialEq, Eq, Structural)]
pub enum YeastType {
    /// ale (top-fermenting) yeast
    Ale,
    /// lager (bottom-fermenting) yeast
    Lager,
    /// wheat yeast
    Wheat,
    /// wine yeast
    Wine,
    /// champagne yeast
    Champagne,
}

impl Default for YeastType {
    fn default() -> (v: YeastType)
        ensures
            v == YeastType::Ale,
    {
        YeastType::Ale
    }
}

impl Enumeration for YeastType {
    open spec fn text(&self) -> Seq<char> {
        match self {
            YeastType::Ale => "Ale"@,
            YeastType::Lager => "Lager"@,
            YeastType::Wheat => "Wheat"@,
            YeastType::Wine => "Wine"@,
            YeastType::Champagne => "Champagne"@,
        }
    }

    open spec fn enum_name() -> Seq<char> {
        "YeastType"@
    }

    open spec fn tokens() -> Seq<Seq<char>> {
        seq!["Ale"@, "Lager"@, "Wheat"@, "Wine"@, "Champagne"@]
    }

    proof fn lemma_injective(a: YeastType, b: YeastType) {
        reveal_strlit("Ale");
        reveal_strlit("Lager");
        reveal_strlit("Wheat");
        reveal_strlit("Wine");
        reveal_strlit("Champagne");
        assert("Ale"@.len() == 3);
        assert("Lager"@.len() == 5 && "Lager"@[0] == 'L');
        assert("Wheat"@.len() == 5 && "Wheat"@[0] == 'W');
        assert("Wine"@.len() == 4);
        assert("Champagne"@.len() == 9);
    }

    proof fn lemma_table(s: Seq<char>) {
        let table = Self::tokens();
        assert(table[0] == YeastType::Ale.text());
        assert(table[1] == YeastType::Lager.text());
        assert(table[2] == YeastType::Wheat.text());
        assert(table[3] == YeastType::Wine.text());
        assert(table[4] == YeastType::Champagne.text());
    }
}

impl Codec for YeastType {
    fn as_str(&self) -> (s: &'static str) {
        match self {
            YeastType::Ale => "Ale",
            YeastType::Lager => "Lager",
            YeastType::Wheat => "Wheat",
            YeastType::Wine => "Wine",
            YeastType::Champagne => "Champagne",
        }
    }

    fn from_str(name: &str) -> (r: Result<YeastType, Error>) {
        let r = if same_text(name, "Ale") {
            Ok(YeastType::Ale)
        } else if same_text(name, "Lager") {
            Ok(YeastType::Lager)
        } else if same_text(name, "Wheat") {
            Ok(YeastType::Wheat)
        } else if same_text(name, "Wine") {
            Ok(YeastType::Wine)
        } else if same_text(name, "Champagne") {
            Ok(YeastType::Champagne)
        } else {
            Err(Error::parse_error("YeastType", name))
        };
        proof {
            if let Ok(v) = r {
                lemma_round_trip(v);
            }
        }
        r
    }
}

/// The form in which a yeast comes.
#[derive(Debug, Clone, Copy, PartialEq, Eq, Structural)]
pub enum YeastForm {
    /// liquid yeast
    Liquid,
    /// dry yeast
    Dry,
    /// slated yeast
    Slate,
    /// a yeast culture
    Culture,
}

impl Default for YeastForm {
    fn default() -> (v: YeastForm)
        ensures
            v == YeastForm::Liquid,
    {
        YeastForm::Liquid
    }
}

impl Enumeration for YeastForm {
    open spec fn text(&self) -> Seq<char> {
        match self {
            YeastForm::Liquid => "Liquid"@,
            YeastForm::Dry => "Dry"@,
            YeastForm::Slate => "Slate"@,
            YeastForm::Culture => "Culture"@,
        }
    }

    open spec fn enum_name() -> Seq<char> {
        "YeastForm"@
    }

    open spec fn tokens() -> Seq<Seq<char>> {
        seq!["Liquid"@, "Dry"@, "Slate"@, "Culture"@]
    }

    proof fn lemma_injective(a: YeastForm, b: YeastForm) {
        reveal_strlit("Liquid");
        reveal_strlit("Dry");
        reveal_strlit("Slate");
        reveal_strlit("Culture");
        assert("Liquid"@.len() == 6);
        assert("Dry"@.len() == 3);
        assert("Slate"@.len() == 5);
        assert("Culture"@.len() == 7);
    }

    proof fn lemma_table(s: Seq<char>) {
        let table = Self::tokens();
        assert(table[0] == YeastForm::Liquid.text());
        assert(table[1] == YeastForm::Dry.text());
        assert(table[2] == YeastForm::Slate.text());
        assert(table[3] == YeastForm::Culture.text());
    }
}

impl Codec for YeastForm {
    fn as_str(&self) -> (s: &'static str) {
        match self {
            YeastForm::Liquid => "Liquid",
            YeastForm::Dry => "Dry",
            YeastForm::Slate => "Slate",
            YeastForm::Culture => "Culture",
        }
    }

    fn from_str(name: &str) -> (r: Result<YeastForm, Error>) {
        let r = if same_text(name, "Liquid") {
            Ok(YeastForm::Liquid)
        } else if same_text(name, "Dry") {
            Ok(YeastForm::Dry)
        } else if same_text(name, "Slate") {
            Ok(YeastForm::Slate)
        } else if same_text(name, "Culture") {
            Ok(YeastForm::Culture)
        } else {
            Err(Error::parse_error("YeastForm", name))
        };
        proof {
            if let Ok(v) = r {
                lemma_round_trip(v);
            }
        }
        r
    }
}

/// How strongly a yeast flocculates.
#[derive(Debug, Clone, Copy, PartialEq, Eq, Structural)]
pub enum YeastFlocculation {
    /// low flocculation
    Low,
    /// medium flocculation
    Medium,
    /// high flocculation
    High,
    /// very high flocculation
    VeryHigh,
}

impl Default for YeastFlocculation {
    fn default() -> (v: YeastFlocculation)
        ensures
            v == YeastFlocculation::Low,
    {
        YeastFlocculation::Low
    }
}

impl Enumeration for YeastFlocculation {
    open spec fn text(&self) -> Seq<char> {
        match self {
            YeastFlocculation::Low => "Low"@,
            YeastFlocculation::Medium => "Medium"@,
            YeastFlocculation::High => "High"@,
            YeastFlocculation::VeryHigh => "Very High"@,
        }
    }

    open spec fn enum_name() -> Seq<char> {
        "YeastFlocculation"@
    }

    open spec fn tokens() -> Seq<Seq<char>> {
        seq!["Low"@, "Medium"@, "High"@, "Very High"@]
    }

    proof fn lemma_injective(a: YeastFlocculation, b: YeastFlocculation) {
        reveal_strlit("Low");
        reveal_strlit("Medium");
        reveal_strlit("High");
        reveal_strlit("Very High");
        assert("Low"@.len() == 3);
        assert("Medium"@.len() == 6);
        assert("High"@.len() == 4);
        assert("Very High"@.len() == 9);
    }

    proof fn lemma_table(s: Seq<char>) {
        let table = Self::tokens();
        assert(table[0] == YeastFlocculation::Low.text());
        assert(table[1] == YeastFlocculation::Medium.text());
        assert(table[2] == YeastFlocculation::High.text());
        assert(table[3] == YeastFlocculation::VeryHigh.text());
    }
}

impl Codec for YeastFlocculation {
    fn as_str(&self) -> (s: &'static str) {
        match self {
            YeastFlocculation::Low => "Low",
            YeastFlocculation::Medium => "Medium",
            YeastFlocculation::High => "High",
            YeastFlocculation::VeryHigh => "Very High",
        }
    }

    fn from_str(name: &str) -> (r: Result<YeastFlocculation, Error>) {
        let r = if same_text(name, "Low") {
            Ok(YeastFlocculation::Low)
        } else if same_text(name, "Medium") {
            Ok(YeastFlocculation::Medium)
        } else if same_text(name, "High") {
            Ok(YeastFlocculation::High)
        } else if same_text(name, "Very High") {
            Ok(YeastFlocculation::VeryHigh)
        } else {
            Err(Error::parse_error("YeastFlocculation", name))
        };
        proof {
            if let Ok(v) = r {
                lemma_round_trip(v);
            }
        }
        r
    }
}

/// A yeast.
///
/// A measured quantity is held as the text that stands for it in a
/// document: the decimal numeral of the number. A writer puts the text into
/// the document as it is, and nothing checks that it is a numeral.
#[derive(Debug, Clone)]
pub struct Yeast {
    /// the name of the yeast
    pub name: String,
    /// the version of the yeast format (normally 1)
    pub version: i64,
    /// the type of the yeast
    pub type_: YeastType,
    /// the form in which the yeast comes
    pub form: YeastForm,
    /// the amount, in litres or in kg
    pub amount: String,
    /// whether the amount is a weight in kg
    pub amount_is_weight: bool,
    /// the name of the producer
    pub laboratory: Option<String>,
    /// the product id of the manufacturer
    pub product_id: Option<String>,
    /// the lowest recommended fermenting temperature in degrees Celsius
    pub min_temperature: Option<String>,
    /// the highest recommended fermenting temperature in degrees Celsius
    pub max_temperature: Option<String>,
    /// how strongly the yeast flocculates
    pub flocculation: Option<YeastFlocculation>,
    /// the attenuation of the yeast in percent
    pub attenuation: Option<String>,
    /// notes on the yeast
    pub notes: Option<String>,
    /// the styles of beer that the strain suits best
    pub best_for: Option<String>,
    /// how often the yeast has been harvested and used again; zero for a
    /// product straight from the manufacturer
    pub times_cultured: Option<i64>,
    /// how often the yeast can be used again
    pub max_reuse: Option<i64>,
    /// whether the yeast was added for a secondary or later fermentation
    pub add_to_secondary: bool,
    /// the amount as shown to the user
    pub display_amount: Option<String>,
    /// the lowest recommended temperature as shown to the user
    pub display_min_temp: Option<String>,
    /// the highest recommended temperature as shown to the user
    pub display_max_temp: Option<String>,
    /// the amount in stock, as shown to the user
    pub inventory: Option<String>,
    /// the date on which the culture was made
    pub culture_date: Option<String>,
}

impl Default for Yeast {
    /// The record with an empty name, version 0, every amount 0, the first
    /// variant of every enumeration, no flag set and no optional field
    /// present.
    fn default() -> (r: Yeast)
        ensures
            r.name@ == Seq::<char>::empty(),
            r.version == 0,
            r.type_ == YeastType::Ale,
            r.form == YeastForm::Liquid,
            r.amount@ == "0"@,
            !r.amount_is_weight,
            r.laboratory is None,
            r.product_id is None,
            r.min_temperature is None,
            r.max_temperature is None,
            r.flocculation is None,
            r.attenuation is None,
            r.notes is None,
            r.best_for is None,
            r.times_cultured is None,
            r.max_reuse is None,
            !r.add_to_secondary,
            r.display_amount is None,
            r.display_min_temp is None,
            r.display_max_temp is None,
            r.inventory is None,
            r.culture_date is None,
    {
        Yeast {
            name: String::new(),
            version: 0,
            type_: YeastType::Ale,
            form: YeastForm::Liquid,
            amount: "0".to_owned(),
            amount_is_weight: false,
            laboratory: None,
            product_id: None,
            min_temperature: None,
            max_temperature: None,
            flocculation: None,
            attenuation: None,
            notes: None,
            best_for: None,
            times_cultured: None,
            max_reuse: None,
            add_to_secondary: false,
            display_amount: None,
            display_min_temp: None,
            display_max_temp: None,
            inventory: None,
            culture_date: None,
        }
    }
}

} // verus!
