//! What a document is made of.
//!
//! A document is text. Every line of it is indented by two spaces per
//! level. A record is a block: an opening line, one line per field that
//! carries a value, and a closing line.
//!
//! The depth of a line is the number of blocks around it. A block at depth
//! `d` has its opening and its closing line at depth `d` and its interior at
//! depth `d + 1`: the lines of a record's fields stand one level inside the
//! record, and the records of a container one level inside the container.
//! So in a document the container stands at the margin, the element of a
//! record two spaces in, and the lines of its fields four spaces in.

use vstd::prelude::*;
use crate::data::{RecordKind, RecordSet};

verus! {

/// The version of the library, as documents name it.
pub const VERSION: &'static str = "0.1.0";

/// The indentation of a line at `depth`: two spaces per level.
pub open spec fn indent_text(depth: nat) -> Seq<char> {
    Seq::new(2 * depth, |i: int| ' ')
}

/// The line of a scalar element at `depth`: the indentation, the opening
/// tag, the value as it is, and the closing tag.
#[verifier::opaque]
pub open spec fn tag_line(depth: nat, tag: Seq<char>, value: Seq<char>) -> Seq<char> {
    indent_text(depth) + "<"@ + tag + ">"@ + value + "</"@ + tag + ">\n"@
}

/// The line that opens a block at `depth`.
pub open spec fn open_line(depth: nat, tag: Seq<char>) -> Seq<char> {
    indent_text(depth) + "<"@ + tag + ">\n"@
}

/// The line that closes a block at `depth`.
pub open spec fn close_line(depth: nat, tag: Seq<char>) -> Seq<char> {
    indent_text(depth) + "</"@ + tag + ">\n"@
}

/// A block at `depth`: the opening line, the interior, the closing line.
pub open spec fn block_text(depth: nat, tag: Seq<char>, interior: Seq<char>) -> Seq<char> {
    open_line(depth, tag) + interior + close_line(depth, tag)
}

/// What a flag contributes at `depth`: its line when it is set, nothing
/// when it is not. There is no text for a flag that is not set.
pub open spec fn flag_text(depth: nat, tag: Seq<char>, value: bool) -> Seq<char> {
    if value {
        tag_line(depth, tag, "true"@)
    } else {
        Seq::empty()
    }
}

/// What an optional value contributes at `depth`: its line when it is
/// present, nothing when it is absent.
pub open spec fn opt_text(depth: nat, tag: Seq<char>, value: Option<Seq<char>>) -> Seq<char> {
    match value {
        Some(v) => tag_line(depth, tag, v),
        None => Seq::empty(),
    }
}

/// The text of an optional string.
pub open spec fn opt_view(value: Option<String>) -> Option<Seq<char>> {
    match value {
        Some(s) => Some(s@),
        None => None,
    }
}

/// One field of a record as the format sees it: its tag, and the text of
/// its value when it carries one.
pub struct Field {
    pub tag: Seq<char>,
    pub value: Option<Seq<char>>,
}

/// A field that every record has: it always carries its value.
pub open spec fn required(tag: Seq<char>, value: Seq<char>) -> Field {
    Field { tag, value: Some(value) }
}

/// A flag: it carries `true` when it is set and nothing when it is not.
pub open spec fn flag(tag: Seq<char>, value: bool) -> Field {
    Field { tag, value: if value { Some("true"@) } else { None } }
}

/// A field that a record may lack: it carries its value when it is present.
pub open spec fn optional(tag: Seq<char>, value: Option<Seq<char>>) -> Field {
    Field { tag, value }
}

/// What a field contributes at `depth`: its line when it carries a value,
/// nothing when it does not.
pub open spec fn field_text(field: Field, depth: nat) -> Seq<char> {
    opt_text(depth, field.tag, field.value)
}

/// What the first `n` of `fields` contribute at `depth`, in order.
pub open spec fn fields_text_to(fields: Seq<Field>, n: nat, depth: nat) -> Seq<char>
    decreases n,
{
    if n == 0 {
        Seq::empty()
    } else {
        fields_text_to(fields, (n - 1) as nat, depth) + field_text(fields[n - 1], depth)
    }
}

/// What `fields` contribute at `depth`: the lines of those that carry a
/// value, in the order of `fields`.
pub open spec fn fields_text(fields: Seq<Field>, depth: nat) -> Seq<char> {
    fields_text_to(fields, fields.len(), depth)
}

/// The fields of `fields` that carry a value, in the order of `fields`:
/// the elements that are written.
pub open spec fn written(fields: Seq<Field>) -> Seq<Field> {
    fields.filter(|f: Field| f.value is Some)
}

/// How many of `fields` bear `tag`.
pub open spec fn occurrences(fields: Seq<Field>, tag: Seq<char>) -> nat {
    fields.filter(|f: Field| f.tag == tag).len()
}

/// Whether the tags of `tags` are pairwise different.
pub open spec fn distinct_tags(tags: Seq<Seq<char>>) -> bool {
    forall|i: int, j: int| 0 <= i < j < tags.len() ==> tags[i] != tags[j]
}

/// A kind of record with a place in the format.
pub trait Layout: Sized {
    /// The tag of the element of one record.
    spec fn tag() -> Seq<char>;

    /// The tags of the fields, in the order that the format prescribes.
    spec fn tags() -> Seq<Seq<char>>;

    /// The fields of a record, in the order that the format prescribes.
    spec fn fields(&self) -> Seq<Field>;

    /// Whatever a record holds, its fields bear the prescribed tags in the
    /// prescribed order, and no tag stands for two fields.
    proof fn lemma_layout(&self)
        ensures
            self.fields().len() == Self::tags().len(),
            forall|i: int|
                0 <= i < Self::tags().len() ==> (#[trigger] self.fields()[i]).tag
                    == Self::tags()[i],
            distinct_tags(Self::tags()),
    ;
}

/// The element of a record at `depth`: a block under the tag of its kind
/// that holds the lines of its fields, one level further in.
pub open spec fn element_text<E: Layout>(record: E, depth: nat) -> Seq<char> {
    block_text(depth, E::tag(), fields_text(record.fields(), depth + 1))
}

/// The elements of the first `n` of `records` at `depth`, in order.
pub open spec fn elements_text_to<E: Layout>(records: Seq<E>, n: nat, depth: nat) -> Seq<char>
    decreases n,
{
    if n == 0 {
        Seq::empty()
    } else {
        elements_text_to(records, (n - 1) as nat, depth) + element_text(records[n - 1], depth)
    }
}

/// The elements of `records` at `depth`, in order.
pub open spec fn elements_text<E: Layout>(records: Seq<E>, depth: nat) -> Seq<char> {
    elements_text_to(records, records.len(), depth)
}

/// A container at `depth`: a block under `tag` that holds the elements of
/// `records`, one level further in.
pub open spec fn container_text<E: Layout>(depth: nat, tag: Seq<char>, records: Seq<E>) -> Seq<
    char,
> {
    block_text(depth, tag, elements_text(records, depth + 1))
}

/// The tag of the container that holds the records of a kind: the plural
/// of the kind, in capitals.
pub open spec fn container_tag(kind: RecordKind) -> Seq<char> {
    match kind {
        RecordKind::Fermentable => "FERMENTABLES"@,
        RecordKind::Hop => "HOPS"@,
        RecordKind::Yeast => "YEASTS"@,
        RecordKind::Misc => "MISCS"@,
        RecordKind::Water => "WATERS"@,
        RecordKind::Recipe => "RECIPES"@,
        RecordKind::Style => "STYLES"@,
        RecordKind::Mash => "MASHS"@,
        RecordKind::Equipment => "EQUIPMENTS"@,
    }
}

/// Whether records of a kind can be written. Recipes, styles, mash
/// profiles and equipment profiles cannot yet.
pub open spec fn has_writer(kind: RecordKind) -> bool {
    match kind {
        RecordKind::Fermentable => true,
        RecordKind::Hop => true,
        RecordKind::Yeast => true,
        RecordKind::Misc => true,
        RecordKind::Water => true,
        RecordKind::Recipe => false,
        RecordKind::Style => false,
        RecordKind::Mash => false,
        RecordKind::Equipment => false,
    }
}

/// The first line of every document.
pub open spec fn declaration_text() -> Seq<char> {
    "<?xml version=\"1.0\" encoding=\"UTF-8\"?>\n"@
}

/// The second line of every document: a comment that names the library
/// and its version.
pub open spec fn comment_text() -> Seq<char> {
    "<!-- written by brewcalc "@ + VERSION@ + ": http://brewcalc.org/ -->\n"@
}

/// What every document starts with.
pub open spec fn header_text() -> Seq<char> {
    declaration_text() + comment_text()
}

/// What follows the header in the document of `set`: nothing for the empty
/// set, else the container of its records. A set whose records cannot be
/// written has no document, and nothing follows the header.
pub open spec fn body_text(set: RecordSet) -> Seq<char> {
    match set {
        RecordSet::Empty => Seq::empty(),
        RecordSet::Fermentables(v) => container_text(0, container_tag(RecordKind::Fermentable), v@),
        RecordSet::Hops(v) => container_text(0, container_tag(RecordKind::Hop), v@),
        RecordSet::Yeasts(v) => container_text(0, container_tag(RecordKind::Yeast), v@),
        RecordSet::Miscs(v) => container_text(0, container_tag(RecordKind::Misc), v@),
        RecordSet::Waters(v) => container_text(0, container_tag(RecordKind::Water), v@),
        RecordSet::Recipes(_) => Seq::empty(),
        RecordSet::Styles(_) => Seq::empty(),
        RecordSet::Mashs(_) => Seq::empty(),
        RecordSet::Equipments(_) => Seq::empty(),
    }
}

/// The document of `set`: the header, then the body.
pub open spec fn document_text(set: RecordSet) -> Seq<char> {
    header_text() + body_text(set)
}

/// The kind that keeps `set` from being written, if one does.
pub open spec fn unwritable(set: RecordSet) -> Option<RecordKind> {
    match set.kind_of() {
        Some(kind) => if has_writer(kind) { None } else { Some(kind) },
        None => None,
    }
}

} // verus!
