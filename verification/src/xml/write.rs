//! Writing documents.
//!
//! Every function here appends to a string and says exactly what it
//! appends. Nothing is escaped: a value goes into the document as it is.

use vstd::prelude::*;
use vstd::string::StringExecFns;
use crate::codec::Codec;
use crate::data::{
    Equipment, Fermentable, Hop, Mash, Misc, Recipe, RecordKind, RecordSet, Records, Style,
    Water, Yeast,
};
use crate::error::Error;
use crate::text::int_to_string;
use crate::xml::layout::{opt_int_text, opt_token};
use crate::xml::model::{
    block_text, container_tag, container_text, document_text, element_text, elements_text,
    elements_text_to, fields_text, fields_text_to, flag_text, header_text, indent_text, opt_text,
    opt_view, tag_line, unwritable, Layout, VERSION,
};

verus! {

/// Appends the indentation of a line at `depth`.
pub fn indent(out: &mut String, depth: usize)
    ensures
        final(out)@ == old(out)@ + indent_text(depth as nat),
{
    let mut i: usize = 0;
    while i < depth
        invariant
            i <= depth,
            out@ == old(out)@ + indent_text(i as nat),
        decreases depth - i,
    {
        proof {
            reveal_strlit("  ");
        }
        out.append("  ");
        i += 1;
    }
}

/// Appends the line of a scalar element at `depth`: the indentation, then
/// `<TAG>value</TAG>`.
pub fn write_tag(out: &mut String, depth: usize, tag: &str, value: &str)
    ensures
        final(out)@ == old(out)@ + tag_line(depth as nat, tag@, value@),
{
    indent(out, depth);
    out.append("<");
    out.append(tag);
    out.append(">");
    out.append(value);
    out.append("</");
    out.append(tag);
    out.append(">\n");
    assert(out@ =~= old(out)@ + tag_line(depth as nat, tag@, value@)) by {
        reveal(tag_line);
    }
}

/// Appends the line of a flag when the flag is set, and nothing when it is
/// not.
pub fn write_bool(out: &mut String, depth: usize, tag: &str, value: bool)
    ensures
        final(out)@ == old(out)@ + flag_text(depth as nat, tag@, value),
{
    if value {
        write_tag(out, depth, tag, "true");
    }
}

/// Appends the line of an optional value when it is present, and nothing
/// when it is absent.
pub fn write_opt(out: &mut String, depth: usize, tag: &str, value: &Option<String>)
    ensures
        final(out)@ == old(out)@ + opt_text(depth as nat, tag@, opt_view(*value)),
{
    if let Some(v) = value {
        write_tag(out, depth, tag, v.as_str());
    }
}

/// Appends a block: the opening line at `depth`, then what `body` returns
/// for one level further in, then the closing line at `depth`.
pub fn write_block<F>(out: &mut String, depth: usize, tag: &str, body: F)
    where F: FnOnce(usize) -> String
    requires
        depth < usize::MAX,
        call_requires(body, ((depth + 1) as usize,)),
    ensures
        exists|interior: String|
            call_ensures(body, ((depth + 1) as usize,), interior) && final(out)@ == old(out)@
                + block_text(depth as nat, tag@, interior@),
{
    indent(out, depth);
    out.append("<");
    out.append(tag);
    out.append(">\n");
    let interior = body(depth + 1);
    out.append(interior.as_str());
    indent(out, depth);
    out.append("</");
    out.append(tag);
    out.append(">\n");
    assert(out@ =~= old(out)@ + block_text(depth as nat, tag@, interior@));
}

/// The numeral of an optional integer, as a string of its own.
pub fn opt_int_to_string(value: &Option<i64>) -> (s: Option<String>)
    ensures
        opt_view(s) == opt_int_text(*value),
{
    match value {
        Some(n) => Some(int_to_string(*n)),
        None => None,
    }
}

/// The token of an optional variant, as a string of its own.
pub fn opt_to_string<T: Codec>(value: &Option<T>) -> (s: Option<String>)
    ensures
        opt_view(s) == opt_token(*value),
{
    match value {
        Some(v) => Some(v.to_string()),
        None => None,
    }
}

/// Appends the element of a fermentable at `depth`: a block that holds the
/// fields in the order of the format, each on a line of its own, those
/// without a value left out.
pub fn write_fermentable(out: &mut String, f: &Fermentable, depth: usize)
    requires
        depth + 1 <= usize::MAX,
    ensures
        final(out)@ == old(out)@ + element_text(*f, depth as nat),
{
    write_block(
        out,
        depth,
        "FERMENTABLE",
        |depth: usize| -> (body: String)
            ensures
                body@ == fields_text(f.fields(), depth as nat)
            {
                let mut body = String::new();
                write_tag(&mut body, depth, "NAME", f.name.as_str());
                write_tag(&mut body, depth, "VERSION", int_to_string(f.version).as_str());
                write_tag(&mut body, depth, "TYPE", f.type_.as_str());
                write_tag(&mut body, depth, "AMOUNT", f.amount.as_str());
                write_tag(&mut body, depth, "YIELD", f.yield_.as_str());
                write_tag(&mut body, depth, "COLOR", f.color.as_str());
                write_bool(&mut body, depth, "ADD_AFTER_BOIL", f.add_after_boil);
                write_opt(&mut body, depth, "ORIGIN", &f.origin);
                write_opt(&mut body, depth, "SUPPLIER", &f.supplier);
                write_opt(&mut body, depth, "NOTES", &f.notes);
                write_opt(&mut body, depth, "COARSE_FINE_DIFF", &f.coarse_fine_diff);
                write_opt(&mut body, depth, "MOISTURE", &f.moisture);
                write_opt(&mut body, depth, "DIASTATIC_POWER", &f.diastatic_power);
                write_opt(&mut body, depth, "PROTEIN", &f.protein);
                write_opt(&mut body, depth, "MAX_IN_BATCH", &f.max_in_batch);
                write_bool(&mut body, depth, "RECOMMEND_MASH", f.recommend_mash);
                write_opt(&mut body, depth, "IBU_GAL_PER_LB", &f.ibu_gal_per_lb);
                write_opt(&mut body, depth, "DISPLAY_AMOUNT", &f.display_amount);
                write_opt(&mut body, depth, "INVENTORY", &f.inventory);
                write_opt(&mut body, depth, "POTENTIAL", &f.potential);
                write_opt(&mut body, depth, "DISPLAY_COLOR", &f.display_color);
                proof {
                    reveal_with_fuel(fields_text_to, 22);
                }
                body
            },
    );
}

/// Appends the element of a hop at `depth`: a block that holds the
/// fields in the order of the format, each on a line of its own, those
/// without a value left out.
pub fn write_hop(out: &mut String, h: &Hop, depth: usize)
    requires
        depth + 1 <= usize::MAX,
    ensures
        final(out)@ == old(out)@ + element_text(*h, depth as nat),
{
    write_block(
        out,
        depth,
        "HOP",
        |depth: usize| -> (body: String)
            ensures
                body@ == fields_text(h.fields(), depth as nat)
            {
                let mut body = String::new();
                write_tag(&mut body, depth, "NAME", h.name.as_str());
                write_tag(&mut body, depth, "VERSION", int_to_string(h.version).as_str());
                write_tag(&mut body, depth, "ALPHA", h.alpha.as_str());
                write_tag(&mut body, depth, "AMOUNT", h.amount.as_str());
                write_tag(&mut body, depth, "USE", h.use_.as_str());
                write_tag(&mut body, depth, "TIME", h.time.as_str());
                write_opt(&mut body, depth, "NOTES", &h.notes);
                write_opt(&mut body, depth, "TYPE", &opt_to_string(&h.type_));
                write_opt(&mut body, depth, "FORM", &opt_to_string(&h.form));
                write_opt(&mut body, depth, "BETA", &h.beta);
                write_opt(&mut body, depth, "HSI", &h.hsi);
                write_opt(&mut body, depth, "ORIGIN", &h.origin);
                write_opt(&mut body, depth, "SUBSTITUTES", &h.substitutes);
                write_opt(&mut body, depth, "HUMULENE", &h.humulene);
                write_opt(&mut body, depth, "CARYOPHYLLENE", &h.caryophyllene);
                write_opt(&mut body, depth, "COHUMULONE", &h.cohumulone);
                write_opt(&mut body, depth, "MYRCENE", &h.myrcene);
                proof {
                    reveal_with_fuel(fields_text_to, 18);
                }
                body
            },
    );
}

/// Appends the element of a yeast at `depth`: a block that holds the
/// fields in the order of the format, each on a line of its own, those
/// without a value left out.
pub fn write_yeast(out: &mut String, y: &Yeast, depth: usize)
    requires
        depth + 1 <= usize::MAX,
    ensures
        final(out)@ == old(out)@ + element_text(*y, depth as nat),
{
    write_block(
        out,
        depth,
        "YEAST",
        |depth: usize| -> (body: String)
            ensures
                body@ == fields_text(y.fields(), depth as nat)
            {
                let mut body = String::new();
                write_tag(&mut body, depth, "NAME", y.name.as_str());
                write_tag(&mut body, depth, "VERSION", int_to_string(y.version).as_str());
                write_tag(&mut body, depth, "TYPE", y.type_.as_str());
                write_tag(&mut body, depth, "FORM", y.form.as_str());
                write_tag(&mut body, depth, "AMOUNT", y.amount.as_str());
                write_bool(&mut body, depth, "AMOUNT_IS_WEIGHT", y.amount_is_weight);
                write_opt(&mut body, depth, "LABORATORY", &y.laboratory);
                write_opt(&mut body, depth, "PRODUCT_ID", &y.product_id);
                write_opt(&mut body, depth, "MIN_TEMPERATURE", &y.min_temperature);
                write_opt(&mut body, depth, "MAX_TEMPERATURE", &y.max_temperature);
                write_opt(&mut body, depth, "FLOCCULATION", &opt_to_string(&y.flocculation));
                write_opt(&mut body, depth, "ATTENUATION", &y.attenuation);
                write_opt(&mut body, depth, "NOTES", &y.notes);
                write_opt(&mut body, depth, "BEST_FOR", &y.best_for);
                write_opt(&mut body, depth, "TIMES_CULTURED", &opt_int_to_string(&y.times_cultured));
                write_opt(&mut body, depth, "MAX_REUSE", &opt_int_to_string(&y.max_reuse));
                write_bool(&mut body, depth, "ADD_TO_SECONDARY", y.add_to_secondary);
                write_opt(&mut body, depth, "DISPLAY_AMOUNT", &y.display_amount);
                write_opt(&mut body, depth, "DISP_MIN_TEMP", &y.display_min_temp);
                write_opt(&mut body, depth, "DISP_MAX_TEMP", &y.display_max_temp);
                write_opt(&mut body, depth, "INVENTORY", &y.inventory);
                write_opt(&mut body, depth, "CULTURE_DATE", &y.culture_date);
                proof {
                    reveal_with_fuel(fields_text_to, 23);
                }
                body
            },
    );
}

/// Appends the element of a miscellaneous ingredient at `depth`: a block
/// that holds the fields in the order of the format, each on a line of its
/// own, those without a value left out.
pub fn write_misc(out: &mut String, m: &Misc, depth: usize)
    requires
        depth + 1 <= usize::MAX,
    ensures
        final(out)@ == old(out)@ + element_text(*m, depth as nat),
{
    write_block(
        out,
        depth,
        "MISC",
        |depth: usize| -> (body: String)
            ensures
                body@ == fields_text(m.fields(), depth as nat)
            {
                let mut body = String::new();
                write_tag(&mut body, depth, "NAME", m.name.as_str());
                write_tag(&mut body, depth, "VERSION", int_to_string(m.version).as_str());
                write_tag(&mut body, depth, "TYPE", m.type_.as_str());
                write_tag(&mut body, depth, "USE", m.use_.as_str());
                write_tag(&mut body, depth, "TIME", m.time.as_str());
                write_tag(&mut body, depth, "AMOUNT", m.amount.as_str());
                write_bool(&mut body, depth, "AMOUNT_IS_WEIGHT", m.amount_is_weight);
                write_opt(&mut body, depth, "USE_FOR", &m.use_for);
                write_opt(&mut body, depth, "NOTES", &m.notes);
                write_opt(&mut body, depth, "DISPLAY_TIME", &m.display_time);
                write_opt(&mut body, depth, "DISPLAY_AMOUNT", &m.display_amount);
                write_opt(&mut body, depth, "INVENTORY", &m.inventory);
                proof {
                    reveal_with_fuel(fields_text_to, 13);
                }
                body
            },
    );
}

/// Appends the element of a water profile at `depth`: a block that holds
/// the fields in the order of the format, each on a line of its own, those
/// without a value left out.
pub fn write_water(out: &mut String, w: &Water, depth: usize)
    requires
        depth + 1 <= usize::MAX,
    ensures
        final(out)@ == old(out)@ + element_text(*w, depth as nat),
{
    write_block(
        out,
        depth,
        "WATER",
        |depth: usize| -> (body: String)
            ensures
                body@ == fields_text(w.fields(), depth as nat)
            {
                let mut body = String::new();
                write_tag(&mut body, depth, "NAME", w.name.as_str());
                write_tag(&mut body, depth, "VERSION", int_to_string(w.version).as_str());
                write_tag(&mut body, depth, "AMOUNT", w.amount.as_str());
                write_tag(&mut body, depth, "CALCIUM", w.calcium.as_str());
                write_tag(&mut body, depth, "BICARBONATE", w.bicarbonate.as_str());
                write_tag(&mut body, depth, "SULFATE", w.sulfate.as_str());
                write_tag(&mut body, depth, "CHLORIDE", w.chloride.as_str());
                write_tag(&mut body, depth, "SODIUM", w.sodium.as_str());
                write_tag(&mut body, depth, "MAGNESIUM", w.magnesium.as_str());
                write_opt(&mut body, depth, "PH", &w.ph);
                write_opt(&mut body, depth, "NOTES", &w.notes);
                proof {
                    reveal_with_fuel(fields_text_to, 12);
                }
                body
            },
    );
}

/// The failure of a writer that does not exist yet.
fn not_implemented(kind: RecordKind) -> (r: Result<(), Error>)
    ensures
        r matches Err(Error::NotImplemented(k)) && k == kind,
{
    Err(Error::NotImplemented(kind))
}

/// Recipes cannot be written yet: fails and appends nothing.
pub fn write_recipe(out: &mut String, r: &Recipe, depth: usize) -> (result: Result<(), Error>)
    ensures
        result matches Err(Error::NotImplemented(k)) && k == RecordKind::Recipe,
        final(out)@ == old(out)@,
{
    not_implemented(RecordKind::Recipe)
}

/// Styles cannot be written yet: fails and appends nothing.
pub fn write_style(out: &mut String, s: &Style, depth: usize) -> (result: Result<(), Error>)
    ensures
        result matches Err(Error::NotImplemented(k)) && k == RecordKind::Style,
        final(out)@ == old(out)@,
{
    not_implemented(RecordKind::Style)
}

/// Mash profiles cannot be written yet: fails and appends nothing.
pub fn write_mash(out: &mut String, m: &Mash, depth: usize) -> (result: Result<(), Error>)
    ensures
        result matches Err(Error::NotImplemented(k)) && k == RecordKind::Mash,
        final(out)@ == old(out)@,
{
    not_implemented(RecordKind::Mash)
}

/// Equipment profiles cannot be written yet: fails and appends nothing.
pub fn write_equipment(out: &mut String, e: &Equipment, depth: usize) -> (result: Result<
    (),
    Error,
>)
    ensures
        result matches Err(Error::NotImplemented(k)) && k == RecordKind::Equipment,
        final(out)@ == old(out)@,
{
    not_implemented(RecordKind::Equipment)
}

/// A kind of record that has a writer.
pub trait Element: Layout {
    /// Appends the element of the record at `depth`.
    fn write_element(&self, out: &mut String, depth: usize)
        requires
            depth + 1 <= usize::MAX,
        ensures
            final(out)@ == old(out)@ + element_text(*self, depth as nat),
    ;
}

impl Element for Fermentable {
    fn write_element(&self, out: &mut String, depth: usize) {
        write_fermentable(out, self, depth)
    }
}

impl Element for Hop {
    fn write_element(&self, out: &mut String, depth: usize) {
        write_hop(out, self, depth)
    }
}

impl Element for Yeast {
    fn write_element(&self, out: &mut String, depth: usize) {
        write_yeast(out, self, depth)
    }
}

impl Element for Misc {
    fn write_element(&self, out: &mut String, depth: usize) {
        write_misc(out, self, depth)
    }
}

impl Element for Water {
    fn write_element(&self, out: &mut String, depth: usize) {
        write_water(out, self, depth)
    }
}

/// Appends a container: a block under `name` at `depth` that holds the
/// element of every record of `v`, in the order of `v` and one level
/// further in. An empty `v` gives the opening and the closing line alone.
pub fn write_map<E: Element>(out: &mut String, v: &Records<E>, depth: usize, name: &str)
    requires
        depth + 2 <= usize::MAX,
    ensures
        final(out)@ == old(out)@ + container_text(depth as nat, name@, v@),
{
    write_block(
        out,
        depth,
        name,
        |depth: usize| -> (body: String)
            requires
                depth + 1 <= usize::MAX,
            ensures
                body@ == elements_text(v@, depth as nat)
            {
                let mut body = String::new();
                let n = v.len();
                let mut i: usize = 0;
                while i < n
                    invariant
                        i <= n,
                        n == v@.len(),
                        depth + 1 <= usize::MAX,
                        body@ == elements_text_to(v@, i as nat, depth as nat),
                    decreases n - i,
                {
                    v.at(i).write_element(&mut body, depth);
                    i += 1;
                }
                body
            },
    );
}

/// The tag of the container that holds the records of a kind.
pub fn container_name(kind: RecordKind) -> (name: &'static str)
    ensures
        name@ == container_tag(kind),
{
    match kind {
        RecordKind::Fermentable => "FERMENTABLES",
        RecordKind::Hop => "HOPS",
        RecordKind::Yeast => "YEASTS",
        RecordKind::Misc => "MISCS",
        RecordKind::Water => "WATERS",
        RecordKind::Recipe => "RECIPES",
        RecordKind::Style => "STYLES",
        RecordKind::Mash => "MASHS",
        RecordKind::Equipment => "EQUIPMENTS",
    }
}

/// Appends the two lines that every document starts with.
pub fn write_header(out: &mut String)
    ensures
        final(out)@ == old(out)@ + header_text(),
{
    out.append("<?xml version=\"1.0\" encoding=\"UTF-8\"?>\n");
    out.append("<!-- written by brewcalc ");
    out.append(VERSION);
    out.append(": http://brewcalc.org/ -->\n");
}

/// Appends the document of `set`: the header, then nothing more for the
/// empty set, else the container of the kind with the element of every
/// record.
///
/// A set of recipes, styles, mash profiles or equipment profiles has no
/// document, whether it holds records or not: the call fails with
/// `NotImplemented` and the kind, after the header and before any
/// container. What `out` then holds is no document.
pub fn write(out: &mut String, set: &RecordSet) -> (r: Result<(), Error>)
    ensures
        match unwritable(*set) {
            Some(kind) => {
                &&& r matches Err(Error::NotImplemented(k)) && k == kind
                &&& final(out)@ == old(out)@ + header_text()
            },
            None => r is Ok && final(out)@ == old(out)@ + document_text(*set),
        },
{
    write_header(out);
    match set {
        RecordSet::Empty => {
            Ok(())
        },
        RecordSet::Equipments(_) => not_implemented(RecordKind::Equipment),
        RecordSet::Fermentables(v) => {
            write_map(out, v, 0, container_name(RecordKind::Fermentable));
            Ok(())
        },
        RecordSet::Hops(v) => {
            write_map(out, v, 0, container_name(RecordKind::Hop));
            Ok(())
        },
        RecordSet::Yeasts(v) => {
            write_map(out, v, 0, container_name(RecordKind::Yeast));
            Ok(())
        },
        RecordSet::Miscs(v) => {
            write_map(out, v, 0, container_name(RecordKind::Misc));
            Ok(())
        },
        RecordSet::Recipes(_) => not_implemented(RecordKind::Recipe),
        RecordSet::Waters(v) => {
            write_map(out, v, 0, container_name(RecordKind::Water));
            Ok(())
        },
        RecordSet::Styles(_) => not_implemented(RecordKind::Style),
        RecordSet::Mashs(_) => not_implemented(RecordKind::Mash),
    }
}

} // verus!
