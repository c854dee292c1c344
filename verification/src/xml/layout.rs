//! The fields of each kind of record, in the order of the format.
//!
//! The name comes first, then the version, then what tells the record's
//! type, the amounts that every record has, the flags and the optional
//! fields, and last what tools have added to the format. A writer follows
//! the table of its kind line by line.

use vstd::prelude::*;
use crate::codec::Enumeration;
use crate::data::{Fermentable, Hop, Misc, Water, Yeast};
use crate::text::int_text;
use crate::xml::model::{flag, opt_view, optional, required, Field, Layout};

verus! {

/// The numeral of an optional integer.
pub open spec fn opt_int_text(value: Option<i64>) -> Option<Seq<char>> {
    match value {
        Some(n) => Some(int_text(n as int)),
        None => None,
    }
}

/// The token of an optional variant. An absent variant has no token: the
/// default of its enumeration does not stand in for it.
pub open spec fn opt_token<T: Enumeration>(value: Option<T>) -> Option<Seq<char>> {
    match value {
        Some(v) => Some(v.text()),
        None => None,
    }
}

impl Layout for Fermentable {
    open spec fn tag() -> Seq<char> {
        "FERMENTABLE"@
    }

    open spec fn tags() -> Seq<Seq<char>> {
        seq![
            "NAME"@,
            "VERSION"@,
            "TYPE"@,
            "AMOUNT"@,
            "YIELD"@,
            "COLOR"@,
            "ADD_AFTER_BOIL"@,
            "ORIGIN"@,
            "SUPPLIER"@,
            "NOTES"@,
            "COARSE_FINE_DIFF"@,
            "MOISTURE"@,
            "DIASTATIC_POWER"@,
            "PROTEIN"@,
            "MAX_IN_BATCH"@,
            "RECOMMEND_MASH"@,
            "IBU_GAL_PER_LB"@,
            "DISPLAY_AMOUNT"@,
            "INVENTORY"@,
            "POTENTIAL"@,
            "DISPLAY_COLOR"@,
        ]
    }

    open spec fn fields(&self) -> Seq<Field> {
        seq![
            required("NAME"@, self.name@),
            required("VERSION"@, int_text(self.version as int)),
            required("TYPE"@, self.type_.text()),
            required("AMOUNT"@, self.amount@),
            required("YIELD"@, self.yield_@),
            required("COLOR"@, self.color@),
            flag("ADD_AFTER_BOIL"@, self.add_after_boil),
            optional("ORIGIN"@, opt_view(self.origin)),
            optional("SUPPLIER"@, opt_view(self.supplier)),
            optional("NOTES"@, opt_view(self.notes)),
            optional("COARSE_FINE_DIFF"@, opt_view(self.coarse_fine_diff)),
            optional("MOISTURE"@, opt_view(self.moisture)),
            optional("DIASTATIC_POWER"@, opt_view(self.diastatic_power)),
            optional("PROTEIN"@, opt_view(self.protein)),
            optional("MAX_IN_BATCH"@, opt_view(self.max_in_batch)),
            flag("RECOMMEND_MASH"@, self.recommend_mash),
            optional("IBU_GAL_PER_LB"@, opt_view(self.ibu_gal_per_lb)),
            optional("DISPLAY_AMOUNT"@, opt_view(self.display_amount)),
            optional("INVENTORY"@, opt_view(self.inventory)),
            optional("POTENTIAL"@, opt_view(self.potential)),
            optional("DISPLAY_COLOR"@, opt_view(self.display_color)),
        ]
    }

    proof fn lemma_layout(&self) {
        reveal_strlit("NAME");
        reveal_strlit("VERSION");
        reveal_strlit("TYPE");
        reveal_strlit("AMOUNT");
        reveal_strlit("YIELD");
        reveal_strlit("COLOR");
        reveal_strlit("ADD_AFTER_BOIL");
        reveal_strlit("ORIGIN");
        reveal_strlit("SUPPLIER");
        reveal_strlit("NOTES");
        reveal_strlit("COARSE_FINE_DIFF");
        reveal_strlit("MOISTURE");
        reveal_strlit("DIASTATIC_POWER");
        reveal_strlit("PROTEIN");
        reveal_strlit("MAX_IN_BATCH");
        reveal_strlit("RECOMMEND_MASH");
        reveal_strlit("IBU_GAL_PER_LB");
        reveal_strlit("DISPLAY_AMOUNT");
        reveal_strlit("INVENTORY");
        reveal_strlit("POTENTIAL");
        reveal_strlit("DISPLAY_COLOR");
        assert("NAME"@.len() == 4 && "NAME"@[0] == 'N');
        assert("VERSION"@.len() == 7 && "VERSION"@[0] == 'V');
        assert("TYPE"@.len() == 4 && "TYPE"@[0] == 'T');
        assert("AMOUNT"@.len() == 6 && "AMOUNT"@[0] == 'A');
        assert("YIELD"@.len() == 5 && "YIELD"@[0] == 'Y');
        assert("COLOR"@.len() == 5 && "COLOR"@[0] == 'C');
        assert("ADD_AFTER_BOIL"@.len() == 14 && "ADD_AFTER_BOIL"@[0] == 'A');
        assert("ORIGIN"@.len() == 6 && "ORIGIN"@[0] == 'O');
        assert("SUPPLIER"@.len() == 8 && "SUPPLIER"@[0] == 'S');
        assert("NOTES"@.len() == 5 && "NOTES"@[0] == 'N');
        assert("COARSE_FINE_DIFF"@.len() == 16);
        assert("MOISTURE"@.len() == 8 && "MOISTURE"@[0] == 'M');
        assert("DIASTATIC_POWER"@.len() == 15);
        assert("PROTEIN"@.len() == 7 && "PROTEIN"@[0] == 'P');
        assert("MAX_IN_BATCH"@.len() == 12);
        assert("RECOMMEND_MASH"@.len() == 14 && "RECOMMEND_MASH"@[0] == 'R');
        assert("IBU_GAL_PER_LB"@.len() == 14 && "IBU_GAL_PER_LB"@[0] == 'I');
        assert("DISPLAY_AMOUNT"@.len() == 14 && "DISPLAY_AMOUNT"@[0] == 'D');
        assert("INVENTORY"@.len() == 9 && "INVENTORY"@[0] == 'I');
        assert("POTENTIAL"@.len() == 9 && "POTENTIAL"@[0] == 'P');
        assert("DISPLAY_COLOR"@.len() == 13);
    }
}

impl Layout for Hop {
    open spec fn tag() -> Seq<char> {
        "HOP"@
    }

    open spec fn tags() -> Seq<Seq<char>> {
        seq![
            "NAME"@,
            "VERSION"@,
            "ALPHA"@,
            "AMOUNT"@,
            "USE"@,
            "TIME"@,
            "NOTES"@,
            "TYPE"@,
            "FORM"@,
            "BETA"@,
            "HSI"@,
            "ORIGIN"@,
            "SUBSTITUTES"@,
            "HUMULENE"@,
            "CARYOPHYLLENE"@,
            "COHUMULONE"@,
            "MYRCENE"@,
        ]
    }

    open spec fn fields(&self) -> Seq<Field> {
        seq![
            required("NAME"@, self.name@),
            required("VERSION"@, int_text(self.version as int)),
            required("ALPHA"@, self.alpha@),
            required("AMOUNT"@, self.amount@),
            required("USE"@, self.use_.text()),
            required("TIME"@, self.time@),
            optional("NOTES"@, opt_view(self.notes)),
            optional("TYPE"@, opt_token(self.type_)),
            optional("FORM"@, opt_token(self.form)),
            optional("BETA"@, opt_view(self.beta)),
            optional("HSI"@, opt_view(self.hsi)),
            optional("ORIGIN"@, opt_view(self.origin)),
            optional("SUBSTITUTES"@, opt_view(self.substitutes)),
            optional("HUMULENE"@, opt_view(self.humulene)),
            optional("CARYOPHYLLENE"@, opt_view(self.caryophyllene)),
            optional("COHUMULONE"@, opt_view(self.cohumulone)),
            optional("MYRCENE"@, opt_view(self.myrcene)),
        ]
    }

    proof fn lemma_layout(&self) {
        reveal_strlit("NAME");
        reveal_strlit("VERSION");
        reveal_strlit("ALPHA");
        reveal_strlit("AMOUNT");
        reveal_strlit("USE");
        reveal_strlit("TIME");
        reveal_strlit("NOTES");
        reveal_strlit("TYPE");
        reveal_strlit("FORM");
        reveal_strlit("BETA");
        reveal_strlit("HSI");
        reveal_strlit("ORIGIN");
        reveal_strlit("SUBSTITUTES");
        reveal_strlit("HUMULENE");
        reveal_strlit("CARYOPHYLLENE");
        reveal_strlit("COHUMULONE");
        reveal_strlit("MYRCENE");
        assert("NAME"@.len() == 4 && "NAME"@[0] == 'N' && "NAME"@[1] == 'A');
        assert("VERSION"@.len() == 7 && "VERSION"@[0] == 'V');
        assert("ALPHA"@.len() == 5 && "ALPHA"@[0] == 'A');
        assert("AMOUNT"@.len() == 6 && "AMOUNT"@[0] == 'A');
        assert("USE"@.len() == 3 && "USE"@[0] == 'U');
        assert("TIME"@.len() == 4 && "TIME"@[0] == 'T' && "TIME"@[1] == 'I');
        assert("NOTES"@.len() == 5 && "NOTES"@[0] == 'N');
        assert("TYPE"@.len() == 4 && "TYPE"@[0] == 'T' && "TYPE"@[1] == 'Y');
        assert("FORM"@.len() == 4 && "FORM"@[0] == 'F' && "FORM"@[1] == 'O');
        assert("BETA"@.len() == 4 && "BETA"@[0] == 'B' && "BETA"@[1] == 'E');
        assert("HSI"@.len() == 3 && "HSI"@[0] == 'H');
        assert("ORIGIN"@.len() == 6 && "ORIGIN"@[0] == 'O');
        assert("SUBSTITUTES"@.len() == 11);
        assert("HUMULENE"@.len() == 8);
        assert("CARYOPHYLLENE"@.len() == 13);
        assert("COHUMULONE"@.len() == 10);
        assert("MYRCENE"@.len() == 7 && "MYRCENE"@[0] == 'M');
    }
}

impl Layout for Yeast {
    open spec fn tag() -> Seq<char> {
        "YEAST"@
    }

    open spec fn tags() -> Seq<Seq<char>> {
        seq![
            "NAME"@,
            "VERSION"@,
            "TYPE"@,
            "FORM"@,
            "AMOUNT"@,
            "AMOUNT_IS_WEIGHT"@,
            "LABORATORY"@,
            "PRODUCT_ID"@,
            "MIN_TEMPERATURE"@,
            "MAX_TEMPERATURE"@,
            "FLOCCULATION"@,
            "ATTENUATION"@,
            "NOTES"@,
            "BEST_FOR"@,
            "TIMES_CULTURED"@,
            "MAX_REUSE"@,
            "ADD_TO_SECONDARY"@,
            "DISPLAY_AMOUNT"@,
            "DISP_MIN_TEMP"@,
            "DISP_MAX_TEMP"@,
            "INVENTORY"@,
            "CULTURE_DATE"@,
        ]
    }

    open spec fn fields(&self) -> Seq<Field> {
        seq![
            required("NAME"@, self.name@),
            required("VERSION"@, int_text(self.version as int)),
            required("TYPE"@, self.type_.text()),
            required("FORM"@, self.form.text()),
            required("AMOUNT"@, self.amount@),
            flag("AMOUNT_IS_WEIGHT"@, self.amount_is_weight),
            optional("LABORATORY"@, opt_view(self.laboratory)),
            optional("PRODUCT_ID"@, opt_view(self.product_id)),
            optional("MIN_TEMPERATURE"@, opt_view(self.min_temperature)),
            optional("MAX_TEMPERATURE"@, opt_view(self.max_temperature)),
            optional("FLOCCULATION"@, opt_token(self.flocculation)),
            optional("ATTENUATION"@, opt_view(self.attenuation)),
            optional("NOTES"@, opt_view(self.notes)),
            optional("BEST_FOR"@, opt_view(self.best_for)),
            optional("TIMES_CULTURED"@, opt_int_text(self.times_cultured)),
            optional("MAX_REUSE"@, opt_int_text(self.max_reuse)),
            flag("ADD_TO_SECONDARY"@, self.add_to_secondary),
            optional("DISPLAY_AMOUNT"@, opt_view(self.display_amount)),
            optional("DISP_MIN_TEMP"@, opt_view(self.display_min_temp)),
            optional("DISP_MAX_TEMP"@, opt_view(self.display_max_temp)),
            optional("INVENTORY"@, opt_view(self.inventory)),
            optional("CULTURE_DATE"@, opt_view(self.culture_date)),
        ]
    }

    proof fn lemma_layout(&self) {
        reveal_strlit("NAME");
        reveal_strlit("VERSION");
        reveal_strlit("TYPE");
        reveal_strlit("FORM");
        reveal_strlit("AMOUNT");
        reveal_strlit("AMOUNT_IS_WEIGHT");
        reveal_strlit("LABORATORY");
        reveal_strlit("PRODUCT_ID");
        reveal_strlit("MIN_TEMPERATURE");
        reveal_strlit("MAX_TEMPERATURE");
        reveal_strlit("FLOCCULATION");
        reveal_strlit("ATTENUATION");
        reveal_strlit("NOTES");
        reveal_strlit("BEST_FOR");
        reveal_strlit("TIMES_CULTURED");
        reveal_strlit("MAX_REUSE");
        reveal_strlit("ADD_TO_SECONDARY");
        reveal_strlit("DISPLAY_AMOUNT");
        reveal_strlit("DISP_MIN_TEMP");
        reveal_strlit("DISP_MAX_TEMP");
        reveal_strlit("INVENTORY");
        reveal_strlit("CULTURE_DATE");
        assert("NAME"@.len() == 4 && "NAME"@[0] == 'N');
        assert("VERSION"@.len() == 7);
        assert("TYPE"@.len() == 4 && "TYPE"@[0] == 'T');
        assert("FORM"@.len() == 4 && "FORM"@[0] == 'F');
        assert("AMOUNT"@.len() == 6);
        assert("AMOUNT_IS_WEIGHT"@.len() == 16 && "AMOUNT_IS_WEIGHT"@[1] == 'M');
        assert("LABORATORY"@.len() == 10 && "LABORATORY"@[0] == 'L');
        assert("PRODUCT_ID"@.len() == 10 && "PRODUCT_ID"@[0] == 'P');
        assert("MIN_TEMPERATURE"@.len() == 15 && "MIN_TEMPERATURE"@[1] == 'I');
        assert("MAX_TEMPERATURE"@.len() == 15 && "MAX_TEMPERATURE"@[1] == 'A');
        assert("FLOCCULATION"@.len() == 12 && "FLOCCULATION"@[0] == 'F');
        assert("ATTENUATION"@.len() == 11);
        assert("NOTES"@.len() == 5);
        assert("BEST_FOR"@.len() == 8);
        assert("TIMES_CULTURED"@.len() == 14 && "TIMES_CULTURED"@[0] == 'T');
        assert("MAX_REUSE"@.len() == 9 && "MAX_REUSE"@[0] == 'M');
        assert("ADD_TO_SECONDARY"@.len() == 16 && "ADD_TO_SECONDARY"@[1] == 'D');
        assert("DISPLAY_AMOUNT"@.len() == 14 && "DISPLAY_AMOUNT"@[0] == 'D');
        assert("DISP_MIN_TEMP"@.len() == 13 && "DISP_MIN_TEMP"@[6] == 'I');
        assert("DISP_MAX_TEMP"@.len() == 13 && "DISP_MAX_TEMP"@[6] == 'A');
        assert("INVENTORY"@.len() == 9 && "INVENTORY"@[0] == 'I');
        assert("CULTURE_DATE"@.len() == 12 && "CULTURE_DATE"@[0] == 'C');
    }
}

impl Layout for Misc {
    open spec fn tag() -> Seq<char> {
        "MISC"@
    }

    open spec fn tags() -> Seq<Seq<char>> {
        seq![
            "NAME"@,
            "VERSION"@,
            "TYPE"@,
            "USE"@,
            "TIME"@,
            "AMOUNT"@,
            "AMOUNT_IS_WEIGHT"@,
            "USE_FOR"@,
            "NOTES"@,
            "DISPLAY_TIME"@,
            "DISPLAY_AMOUNT"@,
            "INVENTORY"@,
        ]
    }

    open spec fn fields(&self) -> Seq<Field> {
        seq![
            required("NAME"@, self.name@),
            required("VERSION"@, int_text(self.version as int)),
            required("TYPE"@, self.type_.text()),
            required("USE"@, self.use_.text()),
            required("TIME"@, self.time@),
            required("AMOUNT"@, self.amount@),
            flag("AMOUNT_IS_WEIGHT"@, self.amount_is_weight),
            optional("USE_FOR"@, opt_view(self.use_for)),
            optional("NOTES"@, opt_view(self.notes)),
            optional("DISPLAY_TIME"@, opt_view(self.display_time)),
            optional("DISPLAY_AMOUNT"@, opt_view(self.display_amount)),
            optional("INVENTORY"@, opt_view(self.inventory)),
        ]
    }

    proof fn lemma_layout(&self) {
        reveal_strlit("NAME");
        reveal_strlit("VERSION");
        reveal_strlit("TYPE");
        reveal_strlit("USE");
        reveal_strlit("TIME");
        reveal_strlit("AMOUNT");
        reveal_strlit("AMOUNT_IS_WEIGHT");
        reveal_strlit("USE_FOR");
        reveal_strlit("NOTES");
        reveal_strlit("DISPLAY_TIME");
        reveal_strlit("DISPLAY_AMOUNT");
        reveal_strlit("INVENTORY");
        assert("NAME"@.len() == 4 && "NAME"@[0] == 'N' && "NAME"@[1] == 'A');
        assert("VERSION"@.len() == 7 && "VERSION"@[0] == 'V');
        assert("TYPE"@.len() == 4 && "TYPE"@[0] == 'T' && "TYPE"@[1] == 'Y');
        assert("USE"@.len() == 3);
        assert("TIME"@.len() == 4 && "TIME"@[0] == 'T' && "TIME"@[1] == 'I');
        assert("AMOUNT"@.len() == 6);
        assert("AMOUNT_IS_WEIGHT"@.len() == 16);
        assert("USE_FOR"@.len() == 7 && "USE_FOR"@[0] == 'U');
        assert("NOTES"@.len() == 5);
        assert("DISPLAY_TIME"@.len() == 12);
        assert("DISPLAY_AMOUNT"@.len() == 14);
        assert("INVENTORY"@.len() == 9);
    }
}

impl Layout for Water {
    open spec fn tag() -> Seq<char> {
        "WATER"@
    }

    open spec fn tags() -> Seq<Seq<char>> {
        seq![
            "NAME"@,
            "VERSION"@,
            "AMOUNT"@,
            "CALCIUM"@,
            "BICARBONATE"@,
            "SULFATE"@,
            "CHLORIDE"@,
            "SODIUM"@,
            "MAGNESIUM"@,
            "PH"@,
            "NOTES"@,
        ]
    }

    open spec fn fields(&self) -> Seq<Field> {
        seq![
            required("NAME"@, self.name@),
            required("VERSION"@, int_text(self.version as int)),
            required("AMOUNT"@, self.amount@),
            required("CALCIUM"@, self.calcium@),
            required("BICARBONATE"@, self.bicarbonate@),
            required("SULFATE"@, self.sulfate@),
            required("CHLORIDE"@, self.chloride@),
            required("SODIUM"@, self.sodium@),
            required("MAGNESIUM"@, self.magnesium@),
            optional("PH"@, opt_view(self.ph)),
            optional("NOTES"@, opt_view(self.notes)),
        ]
    }

    proof fn lemma_layout(&self) {
        reveal_strlit("NAME");
        reveal_strlit("VERSION");
        reveal_strlit("AMOUNT");
        reveal_strlit("CALCIUM");
        reveal_strlit("BICARBONATE");
        reveal_strlit("SULFATE");
        reveal_strlit("CHLORIDE");
        reveal_strlit("SODIUM");
        reveal_strlit("MAGNESIUM");
        reveal_strlit("PH");
        reveal_strlit("NOTES");
        assert("NAME"@.len() == 4);
        assert("VERSION"@.len() == 7 && "VERSION"@[0] == 'V');
        assert("AMOUNT"@.len() == 6 && "AMOUNT"@[0] == 'A');
        assert("CALCIUM"@.len() == 7 && "CALCIUM"@[0] == 'C');
        assert("BICARBONATE"@.len() == 11);
        assert("SULFATE"@.len() == 7 && "SULFATE"@[0] == 'S');
        assert("CHLORIDE"@.len() == 8);
        assert("SODIUM"@.len() == 6 && "SODIUM"@[0] == 'S');
        assert("MAGNESIUM"@.len() == 9);
        assert("PH"@.len() == 2);
        assert("NOTES"@.len() == 5);
    }
}

} // verus!
