//! The data model: the records, their enumerations, and sets of records.

use vstd::prelude::*;
use crate::text::same_text;

pub mod equipment;
pub mod fermentable;
pub mod hop;
pub mod mash;
pub mod misc;
pub mod recipe;
pub mod style;
pub mod water;
pub mod yeast;

pub use self::equipment::Equipment;
pub use self::fermentable::{Fermentable, FermentableType};
pub use self::hop::{Hop, HopForm, HopType, HopUse};
pub use self::mash::Mash;
pub use self::misc::{Misc, MiscType, MiscUse};
pub use self::recipe::Recipe;
pub use self::style::Style;
pub use self::water::Water;
pub use self::yeast::{Yeast, YeastFlocculation, YeastForm, YeastType};

verus! {

/// Where `key` stands among `keys`, if it does.
pub open spec fn position(keys: Seq<Seq<char>>, key: Seq<char>) -> Option<int> {
    if exists|i: int| 0 <= i < keys.len() && #[trigger] keys[i] == key {
        Some(choose|i: int| 0 <= i < keys.len() && #[trigger] keys[i] == key)
    } else {
        None
    }
}

/// Whether no two of `keys` are the same.
pub open spec fn distinct_keys(keys: Seq<Seq<char>>) -> bool {
    forall|i: int, j: int| 0 <= i < j < keys.len() ==> #[trigger] keys[i] != #[trigger] keys[j]
}

/// Records of one kind, each under a key of its own, kept in the order in
/// which their keys first came in. The key of a record is meant to be its
/// name; nothing holds a caller to that, and a writer writes every record
/// whatever its key.
pub struct Records<R> {
    keys: Vec<String>,
    items: Vec<R>,
}

impl<R> Records<R> {
    /// The records, in order.
    pub closed spec fn view(&self) -> Seq<R> {
        self.items@
    }

    /// The keys, in order: the key at a position is that of the record at
    /// the same position.
    pub closed spec fn keys(&self) -> Seq<Seq<char>> {
        Seq::new(self.keys@.len(), |i: int| self.keys@[i]@)
    }

    /// The invariant of the type: every record has its key, and no two
    /// records share one.
    pub open spec fn wf(&self) -> bool {
        self.keys().len() == self@.len() && distinct_keys(self.keys())
    }

    /// The empty set.
    pub fn new() -> (records: Self)
        ensures
            records@ == Seq::<R>::empty(),
            records.keys() == Seq::<Seq<char>>::empty(),
            records.wf(),
    {
        Records { keys: Vec::new(), items: Vec::new() }
    }

    /// The number of records.
    pub fn len(&self) -> (n: usize)
        ensures
            n == self@.len(),
    {
        self.items.len()
    }

    /// Whether the set holds no record.
    pub fn is_empty(&self) -> (b: bool)
        ensures
            b == (self@.len() == 0),
    {
        self.items.len() == 0
    }

    /// The record at position `i`.
    pub fn at(&self, i: usize) -> (record: &R)
        requires
            i < self@.len(),
        ensures
            *record == self@[i as int],
    {
        &self.items[i]
    }

    /// The key of the record at position `i`.
    pub fn key_at(&self, i: usize) -> (key: &str)
        requires
            i < self.keys().len(),
        ensures
            key@ == self.keys()[i as int],
    {
        self.keys[i].as_str()
    }

    /// Where the record under `key` stands, if one does.
    pub fn find(&self, key: &str) -> (found: Option<usize>)
        requires
            self.wf(),
        ensures
            match found {
                Some(i) => position(self.keys(), key@) == Some(i as int),
                None => position(self.keys(), key@) is None,
            },
    {
        let mut i: usize = 0;
        while i < self.keys.len()
            invariant
                self.wf(),
                i <= self.keys.len(),
                forall|k: int| 0 <= k < i ==> #[trigger] self.keys()[k] != key@,
            decreases self.keys.len() - i,
        {
            if same_text(self.keys[i].as_str(), key) {
                proof {
                    assert(self.keys()[i as int] == key@);
                    let j = choose|j: int|
                        0 <= j < self.keys().len() && #[trigger] self.keys()[j] == key@;
                    assert(j == i);
                }
                return Some(i);
            }
            i += 1;
        }
        None
    }

    /// The record under `key`, if one is held.
    pub fn get(&self, key: &str) -> (record: Option<&R>)
        requires
            self.wf(),
        ensures
            match record {
                Some(r) => position(self.keys(), key@) matches Some(i) && *r == self@[i],
                None => position(self.keys(), key@) is None,
            },
    {
        match self.find(key) {
            Some(i) => Some(&self.items[i]),
            None => None,
        }
    }

    /// Puts `record` into the set under `key`. A record that was held under
    /// the same key gives way: the new one takes its place, and the old one
    /// is returned. Otherwise the new record goes to the end. The other
    /// records and every key stay where they are.
    pub fn insert(&mut self, key: String, record: R) -> (replaced: Option<R>)
        requires
            old(self).wf(),
        ensures
            final(self).wf(),
            match position(old(self).keys(), key@) {
                Some(i) => {
                    &&& replaced == Some(old(self)@[i])
                    &&& final(self)@ == old(self)@.update(i, record)
                    &&& final(self).keys() == old(self).keys()
                },
                None => {
                    &&& replaced is None
                    &&& final(self)@ == old(self)@.push(record)
                    &&& final(self).keys() == old(self).keys().push(key@)
                },
            },
    {
        match self.find(key.as_str()) {
            Some(i) => {
                self.items.push(record);
                let previous = self.items.swap_remove(i);
                assert(self.items@ =~= old(self).items@.update(i as int, record));
                Some(previous)
            },
            None => {
                self.keys.push(key);
                self.items.push(record);
                assert(self.keys() =~= old(self).keys().push(key@));
                None
            },
        }
    }
}

/// The kinds of record that a set can hold.
#[derive(Debug, Clone, Copy, PartialEq, Eq, Structural)]
pub enum RecordKind {
    Fermentable,
    Hop,
    Yeast,
    Misc,
    Water,
    Recipe,
    Style,
    Mash,
    Equipment,
}

/// A set of records: nothing, or records of one kind.
pub enum RecordSet {
    /// no records
    Empty,
    /// equipment profiles
    Equipments(Records<Equipment>),
    /// fermentables
    Fermentables(Records<Fermentable>),
    /// hops
    Hops(Records<Hop>),
    /// yeasts
    Yeasts(Records<Yeast>),
    /// miscellaneous ingredients
    Miscs(Records<Misc>),
    /// recipes
    Recipes(Records<Recipe>),
    /// water profiles
    Waters(Records<Water>),
    /// beer styles
    Styles(Records<Style>),
    /// mash profiles
    Mashs(Records<Mash>),
}

impl RecordSet {
    /// The kind of the records that the set is for, if it is for any.
    pub open spec fn kind_of(&self) -> Option<RecordKind> {
        match self {
            RecordSet::Empty => None,
            RecordSet::Equipments(_) => Some(RecordKind::Equipment),
            RecordSet::Fermentables(_) => Some(RecordKind::Fermentable),
            RecordSet::Hops(_) => Some(RecordKind::Hop),
            RecordSet::Yeasts(_) => Some(RecordKind::Yeast),
            RecordSet::Miscs(_) => Some(RecordKind::Misc),
            RecordSet::Recipes(_) => Some(RecordKind::Recipe),
            RecordSet::Waters(_) => Some(RecordKind::Water),
            RecordSet::Styles(_) => Some(RecordKind::Style),
            RecordSet::Mashs(_) => Some(RecordKind::Mash),
        }
    }

    /// The kind of the records that the set is for, if it is for any.
    pub fn kind(&self) -> (kind: Option<RecordKind>)
        ensures
            kind == self.kind_of(),
    {
        match self {
            RecordSet::Empty => None,
            RecordSet::Equipments(_) => Some(RecordKind::Equipment),
            RecordSet::Fermentables(_) => Some(RecordKind::Fermentable),
            RecordSet::Hops(_) => Some(RecordKind::Hop),
            RecordSet::Yeasts(_) => Some(RecordKind::Yeast),
            RecordSet::Miscs(_) => Some(RecordKind::Misc),
            RecordSet::Recipes(_) => Some(RecordKind::Recipe),
            RecordSet::Waters(_) => Some(RecordKind::Water),
            RecordSet::Styles(_) => Some(RecordKind::Style),
            RecordSet::Mashs(_) => Some(RecordKind::Mash),
        }
    }
}

} // verus!
