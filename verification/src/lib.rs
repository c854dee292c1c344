//! Brewing ingredient records and their serialised forms.
//!
//! The crate models fermentables, hops, yeasts, miscellaneous additives and
//! water profiles, and writes keyed sets of them as the XML dialect that
//! brewing tools exchange. Every function states what text it produces, and
//! Verus proves that it does.

pub mod text;
pub mod error;
pub mod codec;
pub mod data;
pub mod xml;
pub mod yaml;
