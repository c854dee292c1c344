//! What holds of every document.
//!
//! The laws speak of the fields of a record and of the elements that are
//! written for them. They hold whatever the values are: a value goes into
//! the document as it is, so the text alone does not tell a tag that was
//! written from one that a value happens to hold.

use vstd::prelude::*;
use crate::data::{RecordKind, RecordSet, Yeast};
use crate::xml::model::{
    block_text, close_line, container_tag, container_text, document_text, element_text,
    elements_text, field_text, fields_text, fields_text_to, flag, header_text, indent_text,
    occurrences, open_line, optional, required, tag_line, written, Field, Layout,
};

verus! {

/// What the first `n` fields contribute depends on those fields alone.
proof fn lemma_fields_text_prefix(a: Seq<Field>, b: Seq<Field>, n: nat, depth: nat)
    requires
        n <= a.len(),
        n <= b.len(),
        forall|i: int| 0 <= i < n ==> a[i] == b[i],
    ensures
        fields_text_to(a, n, depth) == fields_text_to(b, n, depth),
    decreases n,
{
    if n > 0 {
        lemma_fields_text_prefix(a, b, (n - 1) as nat, depth);
    }
}

/// A field more contributes its own text after that of the others.
pub proof fn lemma_fields_text_push(fields: Seq<Field>, field: Field, depth: nat)
    ensures
        fields_text(fields.push(field), depth) == fields_text(fields, depth) + field_text(
            field,
            depth,
        ),
{
    lemma_fields_text_prefix(fields.push(field), fields, fields.len(), depth);
}

/// What is written for no field at all is nothing.
proof fn lemma_written_of_none()
    ensures
        written(Seq::<Field>::empty()) == Seq::<Field>::empty(),
{
    reveal(Seq::filter);
}

/// One field more: what is written is what was written for the fields
/// before it, and then the field itself when it carries a value.
proof fn lemma_written_step(fields: Seq<Field>)
    requires
        fields.len() > 0,
    ensures
        written(fields) == (if fields.last().value is Some {
            written(fields.drop_last()).push(fields.last())
        } else {
            written(fields.drop_last())
        }),
{
    reveal(Seq::filter);
}

/// One element more bears a tag once more when the tag is its own.
proof fn lemma_occurrences_push(elements: Seq<Field>, element: Field, tag: Seq<char>)
    ensures
        occurrences(elements.push(element), tag) == occurrences(elements, tag) + (if element.tag
            == tag {
            1nat
        } else {
            0nat
        }),
        occurrences(Seq::<Field>::empty(), tag) == 0,
{
    reveal(Seq::filter);
    assert(elements.push(element).drop_last() =~= elements);
}

/// A field that carries no value leaves no trace: the text of a record's
/// fields is the text of the elements that are written, and of nothing
/// else.
pub proof fn lemma_only_written_fields_show(fields: Seq<Field>, depth: nat)
    ensures
        fields_text(fields, depth) == fields_text(written(fields), depth),
    decreases fields.len(),
{
    if fields.len() == 0 {
        lemma_written_of_none();
        assert(fields =~= Seq::<Field>::empty());
    } else {
        let front = fields.drop_last();
        let last = fields.last();
        lemma_only_written_fields_show(front, depth);
        lemma_written_step(fields);
        assert(fields =~= front.push(last));
        lemma_fields_text_push(front, last, depth);
        if last.value is Some {
            lemma_fields_text_push(written(front), last, depth);
        } else {
            assert(fields_text(front, depth) + field_text(last, depth) =~= fields_text(
                front,
                depth,
            ));
        }
    }
}

/// A field whose tag no other field bears is written once when it carries
/// a value, as the element that holds that value, and not at all when it
/// carries none.
pub proof fn lemma_written_once_or_never(fields: Seq<Field>, i: int)
    requires
        0 <= i < fields.len(),
        forall|j: int| 0 <= j < fields.len() && j != i ==> fields[j].tag != fields[i].tag,
    ensures
        occurrences(written(fields), fields[i].tag) == (if fields[i].value is Some {
            1nat
        } else {
            0nat
        }),
        fields[i].value is Some ==> written(fields).contains(fields[i]),
    decreases fields.len(),
{
    let tag = fields[i].tag;
    let front = fields.drop_last();
    let last = fields.last();
    lemma_written_step(fields);
    lemma_occurrences_push(written(front), last, tag);
    if i == fields.len() - 1 {
        lemma_never_written(front, tag);
        if last.value is Some {
            assert(written(fields)[written(front).len() as int] == last);
        }
    } else {
        assert(front[i] == fields[i]);
        lemma_written_once_or_never(front, i);
        if last.value is Some && fields[i].value is Some {
            let k = choose|k: int|
                0 <= k < written(front).len() && written(front)[k] == fields[i];
            assert(written(fields)[k] == fields[i]);
        }
    }
}

/// Where no field bears a tag, no element does.
proof fn lemma_never_written(fields: Seq<Field>, tag: Seq<char>)
    requires
        forall|j: int| 0 <= j < fields.len() ==> fields[j].tag != tag,
    ensures
        occurrences(written(fields), tag) == 0,
    decreases fields.len(),
{
    if fields.len() == 0 {
        lemma_written_of_none();
        lemma_occurrences_push(Seq::empty(), Field { tag, value: None }, tag);
        assert(fields =~= Seq::<Field>::empty());
    } else {
        let front = fields.drop_last();
        let last = fields.last();
        assert forall|j: int| 0 <= j < front.len() implies front[j].tag != tag by {
            assert(front[j] == fields[j]);
        }
        lemma_never_written(front, tag);
        lemma_written_step(fields);
        lemma_occurrences_push(written(front), last, tag);
    }
}

/// Every element that is written belongs to a field, and carries a value.
pub proof fn lemma_written_comes_from(fields: Seq<Field>, a: int)
    requires
        0 <= a < written(fields).len(),
    ensures
        written(fields)[a].value is Some,
        exists|i: int| 0 <= i < fields.len() && fields[i] == written(fields)[a],
    decreases fields.len(),
{
    if fields.len() == 0 {
        lemma_written_of_none();
        assert(fields =~= Seq::<Field>::empty());
    } else {
        let front = fields.drop_last();
        let last = fields.last();
        lemma_written_step(fields);
        if last.value is Some && a == written(front).len() {
            assert(fields[fields.len() - 1] == written(fields)[a]);
        } else {
            lemma_written_comes_from(front, a);
            let i = choose|i: int| 0 <= i < front.len() && front[i] == written(front)[a];
            assert(fields[i] == written(fields)[a]);
        }
    }
}

/// The elements that are written stand in the order of the fields: of two
/// elements, the one written first belongs to the field that comes first.
pub proof fn lemma_written_in_order(fields: Seq<Field>, a: int, b: int)
    requires
        0 <= a < b < written(fields).len(),
    ensures
        exists|i: int, j: int|
            0 <= i < j < fields.len() && fields[i] == written(fields)[a] && fields[j] == written(
                fields,
            )[b],
    decreases fields.len(),
{
    if fields.len() == 0 {
        lemma_written_of_none();
        assert(fields =~= Seq::<Field>::empty());
    } else {
        let front = fields.drop_last();
        let last = fields.last();
        lemma_written_step(fields);
        if last.value is Some && b == written(front).len() {
            lemma_written_comes_from(front, a);
            let i = choose|i: int| 0 <= i < front.len() && front[i] == written(front)[a];
            let j = fields.len() - 1;
            assert(0 <= i < j < fields.len() && fields[i] == written(fields)[a] && fields[j]
                == written(fields)[b]);
        } else {
            lemma_written_in_order(front, a, b);
            let (i, j) = choose|i: int, j: int|
                0 <= i < j < front.len() && front[i] == written(front)[a] && front[j]
                    == written(front)[b];
            assert(0 <= i < j < fields.len() && fields[i] == written(fields)[a] && fields[j]
                == written(fields)[b]);
        }
    }
}

/// Where every field carries a value, every field is written: the elements
/// are the fields, one for one.
pub proof fn lemma_all_present_all_written(fields: Seq<Field>)
    requires
        forall|i: int| 0 <= i < fields.len() ==> fields[i].value is Some,
    ensures
        written(fields) == fields,
    decreases fields.len(),
{
    if fields.len() == 0 {
        lemma_written_of_none();
        assert(fields =~= Seq::<Field>::empty());
    } else {
        let front = fields.drop_last();
        assert forall|i: int| 0 <= i < front.len() implies front[i].value is Some by {
            assert(front[i] == fields[i]);
        }
        lemma_all_present_all_written(front);
        lemma_written_step(fields);
        assert(written(fields) =~= fields);
    }
}

/// A required field always carries its value. A flag carries `true` when
/// it is set and nothing when it is not: no text says that a flag is not
/// set. An optional field carries its value when it is present and
/// nothing when it is absent.
pub proof fn lemma_what_fields_carry(tag: Seq<char>, value: Seq<char>)
    ensures
        required(tag, value).value == Some(value),
        flag(tag, true).value == Some("true"@),
        flag(tag, false).value is None,
        optional(tag, Some(value)).value == Some(value),
        optional(tag, None).value is None,
{
}

/// The element of a record holds the lines of the fields that carry a
/// value, and nothing for the others.
pub proof fn lemma_element_holds_written_fields<E: Layout>(record: E, depth: nat)
    ensures
        element_text(record, depth) == block_text(
            depth,
            E::tag(),
            fields_text(written(record.fields()), depth + 1),
        ),
{
    lemma_only_written_fields_show(record.fields(), depth + 1);
}

/// In the element of a record, the tag of a field stands once when the
/// field carries a value, on the element that holds that value, and not
/// at all when it carries none. This holds of every field of every kind
/// of record: of a flag, which carries a value when it is set, and of an
/// optional field, which carries one when it is present.
pub proof fn lemma_field_written_once_or_never<E: Layout>(record: E, i: int)
    requires
        0 <= i < E::tags().len(),
    ensures
        record.fields()[i].tag == E::tags()[i],
        occurrences(written(record.fields()), E::tags()[i]) == (if record.fields()[i].value
            is Some {
            1nat
        } else {
            0nat
        }),
        record.fields()[i].value is Some ==> written(record.fields()).contains(
            record.fields()[i],
        ),
{
    record.lemma_layout();
    let fields = record.fields();
    assert forall|j: int| 0 <= j < fields.len() && j != i implies fields[j].tag
        != fields[i].tag by {
        if j < i {
            assert(E::tags()[j] != E::tags()[i]);
        } else {
            assert(E::tags()[i] != E::tags()[j]);
        }
    }
    lemma_written_once_or_never(fields, i);
}

/// The elements of a record follow the order of the format: of two
/// elements, the one written first bears the tag that the format puts
/// first. This holds whichever fields carry a value.
pub proof fn lemma_elements_follow_format<E: Layout>(record: E, a: int, b: int)
    requires
        0 <= a < b < written(record.fields()).len(),
    ensures
        exists|i: int, j: int|
            0 <= i < j < E::tags().len() && E::tags()[i] == written(record.fields())[a].tag
                && E::tags()[j] == written(record.fields())[b].tag,
{
    record.lemma_layout();
    let fields = record.fields();
    lemma_written_in_order(fields, a, b);
    let (i, j) = choose|i: int, j: int|
        0 <= i < j < fields.len() && fields[i] == written(fields)[a] && fields[j] == written(
            fields,
        )[b];
    assert(0 <= i < j < E::tags().len() && E::tags()[i] == written(fields)[a].tag
        && E::tags()[j] == written(fields)[b].tag);
}

/// A record of which every field carries a value is written in full: its
/// elements bear the tags of the format, all of them, in order.
pub proof fn lemma_full_record_follows_format<E: Layout>(record: E)
    requires
        forall|i: int| 0 <= i < record.fields().len() ==> record.fields()[i].value is Some,
    ensures
        written(record.fields()).len() == E::tags().len(),
        forall|i: int|
            0 <= i < E::tags().len() ==> (#[trigger] written(record.fields())[i]).tag
                == E::tags()[i],
{
    record.lemma_layout();
    lemma_all_present_all_written(record.fields());
}

/// A yeast without a flocculation has no `FLOCCULATION` element: the
/// default of the enumeration does not stand in for what is absent.
pub proof fn lemma_absent_flocculation_is_not_written(yeast: Yeast)
    requires
        yeast.flocculation is None,
    ensures
        occurrences(written(yeast.fields()), "FLOCCULATION"@) == 0,
{
    yeast.lemma_layout();
    lemma_field_written_once_or_never(yeast, 10);
}

/// A line at `depth` starts with exactly two spaces per level: the line of
/// a scalar element, the line that opens a block and the line that closes
/// it each hold `2 * depth` spaces and then the `<` of their tag.
pub proof fn lemma_lines_start_at_their_depth(depth: nat, tag: Seq<char>, value: Seq<char>)
    ensures
        indent_text(depth).len() == 2 * depth,
        forall|i: int| 0 <= i < 2 * depth ==> tag_line(depth, tag, value)[i] == ' ',
        forall|i: int| 0 <= i < 2 * depth ==> open_line(depth, tag)[i] == ' ',
        forall|i: int| 0 <= i < 2 * depth ==> close_line(depth, tag)[i] == ' ',
        tag_line(depth, tag, value)[2 * depth as int] == '<',
        open_line(depth, tag)[2 * depth as int] == '<',
        close_line(depth, tag)[2 * depth as int] == '<',
{
    reveal(tag_line);
    reveal_strlit("<");
    reveal_strlit("</");
    assert("<"@.len() == 1 && "<"@[0] == '<');
    assert("</"@.len() == 2 && "</"@[0] == '<');
}

/// In a document the container stands at the margin, the element of each
/// record one level in, and the lines of its fields two levels in.
pub proof fn lemma_depths_in_a_document<E: Layout>(tag: Seq<char>, records: Seq<E>, i: int)
    requires
        0 <= i < records.len(),
    ensures
        container_text(0, tag, records) == open_line(0, tag) + elements_text(records, 1)
            + close_line(0, tag),
        element_text(records[i], 1) == open_line(1, E::tag()) + fields_text(
            records[i].fields(),
            2,
        ) + close_line(1, E::tag()),
{
}

/// The document of the empty set is the header and nothing else.
pub proof fn lemma_empty_document()
    ensures
        document_text(RecordSet::Empty) == header_text(),
{
    assert(document_text(RecordSet::Empty) =~= header_text());
}

/// No two kinds of record share a container.
pub proof fn lemma_container_tags_differ(a: RecordKind, b: RecordKind)
    requires
        a != b,
    ensures
        container_tag(a) != container_tag(b),
{
    reveal_strlit("FERMENTABLES");
    reveal_strlit("HOPS");
    reveal_strlit("YEASTS");
    reveal_strlit("MISCS");
    reveal_strlit("WATERS");
    reveal_strlit("RECIPES");
    reveal_strlit("STYLES");
    reveal_strlit("MASHS");
    reveal_strlit("EQUIPMENTS");
    assert("FERMENTABLES"@.len() == 12);
    assert("HOPS"@.len() == 4);
    assert("YEASTS"@.len() == 6 && "YEASTS"@[0] == 'Y');
    assert("MISCS"@.len() == 5 && "MISCS"@[1] == 'I');
    assert("WATERS"@.len() == 6 && "WATERS"@[0] == 'W');
    assert("RECIPES"@.len() == 7);
    assert("STYLES"@.len() == 6 && "STYLES"@[0] == 'S');
    assert("MASHS"@.len() == 5 && "MASHS"@[1] == 'A');
    assert("EQUIPMENTS"@.len() == 10);
}

} // verus!
