//! The tokens of the enumerations.
//!
//! Every enumeration of the data model has one canonical token per variant.
//! A variant is written as its token and read back from it; nothing else
//! denotes a variant.

use vstd::prelude::*;
use crate::error::Error;

verus! {

/// An enumeration whose variants have canonical tokens.
pub trait Enumeration: Sized {
    /// The canonical token of a variant.
    spec fn text(&self) -> Seq<char>;

    /// The name of the enumeration, as failures carry it.
    spec fn enum_name() -> Seq<char>;

    /// The table of the canonical tokens, in the order of the variants.
    spec fn tokens() -> Seq<Seq<char>>;

    /// No two variants share a token.
    proof fn lemma_injective(a: Self, b: Self)
        requires
            a.text() == b.text(),
        ensures
            a == b,
    ;

    /// The table holds the tokens of the variants and nothing else.
    proof fn lemma_table(s: Seq<char>)
        ensures
            Self::tokens().contains(s) <==> exists|v: Self| #[trigger] v.text() == s,
    ;
}

/// The variant that `s` denotes: the one whose token it is.
pub open spec fn decode<T: Enumeration>(s: Seq<char>) -> Option<T> {
    if exists|v: T| #[trigger] v.text() == s {
        Some(choose|v: T| #[trigger] v.text() == s)
    } else {
        None
    }
}

/// Writing variants as tokens and reading them back.
pub trait Codec: Enumeration {
    /// The canonical token of a variant.
    fn as_str(&self) -> (s: &'static str)
        ensures
            s@ == self.text(),
    ;

    /// The canonical token of a variant, as a string of its own.
    fn to_string(&self) -> (s: String)
        ensures
            s@ == self.text(),
    {
        self.as_str().to_owned()
    }

    /// Reads a variant from its token. Matching is exact and case
    /// sensitive; any other text fails with the name of the enumeration and
    /// the text.
    fn from_str(name: &str) -> (r: Result<Self, Error>)
        ensures
            match r {
                Ok(v) => decode::<Self>(name@) == Some(v),
                Err(e) => decode::<Self>(name@) is None && e.is_parse_error(
                    Self::enum_name(),
                    name@,
                ),
            },
    ;
}

/// Reading the token of a variant gives the variant back.
pub proof fn lemma_round_trip<T: Enumeration>(v: T)
    ensures
        decode::<T>(v.text()) == Some(v),
{
    let w = choose|w: T| #[trigger] w.text() == v.text();
    T::lemma_injective(w, v);
}

/// A text is read as a variant exactly when it is the token of that variant.
pub proof fn lemma_decode_inverts_text<T: Enumeration>(s: Seq<char>, v: T)
    ensures
        decode::<T>(s) == Some(v) <==> v.text() == s,
{
    if v.text() == s {
        lemma_round_trip(v);
    }
}

/// What a variant is written as stands in the table of its enumeration, and
/// every entry of the table is read as a variant.
pub proof fn lemma_tokens_are_canonical<T: Enumeration>(v: T, i: int)
    ensures
        T::tokens().contains(v.text()),
        0 <= i < T::tokens().len() ==> decode::<T>(T::tokens()[i]) is Some,
{
    T::lemma_table(v.text());
    if 0 <= i < T::tokens().len() {
        T::lemma_table(T::tokens()[i]);
    }
}

} // verus!
