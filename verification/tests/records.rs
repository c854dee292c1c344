use brewcalc::data::{
    Equipment, Fermentable, FermentableType, Hop, HopUse, Mash, Misc, MiscType, MiscUse,
    Recipe, RecordKind, RecordSet, Records, Style, Water, Yeast, YeastForm, YeastType,
};

fn fermentable(name: &str, amount: &str) -> Fermentable {
    let mut f = Fermentable::default();
    f.name = name.to_string();
    f.amount = amount.to_string();
    f
}

#[test]
fn a_new_set_is_empty() {
    let records: Records<Fermentable> = Records::new();
    assert_eq!(records.len(), 0);
    assert!(records.is_empty());
    assert!(records.find("Pale Malt").is_none());
    assert!(records.get("Pale Malt").is_none());
}

#[test]
fn records_stay_in_the_order_in_which_they_came() {
    let mut records = Records::new();
    assert!(records.insert("Pale Malt".to_string(), fermentable("Pale Malt", "5")).is_none());
    assert!(records.insert("Crystal".to_string(), fermentable("Crystal", "0.5")).is_none());
    assert!(records.insert("Black".to_string(), fermentable("Black", "0.1")).is_none());
    assert_eq!(records.len(), 3);
    assert!(!records.is_empty());
    assert_eq!(records.at(0).name, "Pale Malt");
    assert_eq!(records.at(1).name, "Crystal");
    assert_eq!(records.at(2).name, "Black");
    assert_eq!(records.key_at(0), "Pale Malt");
    assert_eq!(records.key_at(1), "Crystal");
    assert_eq!(records.key_at(2), "Black");
    assert_eq!(records.find("Pale Malt"), Some(0));
    assert_eq!(records.find("Crystal"), Some(1));
    assert_eq!(records.find("Black"), Some(2));
    assert_eq!(records.find("black"), None);
    assert_eq!(records.get("Crystal").unwrap().amount, "0.5");
    assert!(records.get("Munich").is_none());
}

#[test]
fn a_record_gives_way_to_one_of_the_same_name() {
    let mut records = Records::new();
    records.insert("Pale Malt".to_string(), fermentable("Pale Malt", "5"));
    records.insert("Crystal".to_string(), fermentable("Crystal", "0.5"));
    records.insert("Black".to_string(), fermentable("Black", "0.1"));
    let old = records.insert("Crystal".to_string(), fermentable("Crystal", "0.75")).unwrap();
    assert_eq!(old.name, "Crystal");
    assert_eq!(old.amount, "0.5");
    assert_eq!(records.len(), 3);
    assert_eq!(records.at(0).name, "Pale Malt");
    assert_eq!(records.at(1).name, "Crystal");
    assert_eq!(records.at(1).amount, "0.75");
    assert_eq!(records.at(2).name, "Black");
    let old = records.insert("Black".to_string(), fermentable("Black", "0.2")).unwrap();
    assert_eq!(old.amount, "0.1");
    assert_eq!(records.at(2).amount, "0.2");
    let old = records.insert("Pale Malt".to_string(), fermentable("Pale Malt", "6")).unwrap();
    assert_eq!(old.amount, "5");
    assert_eq!(records.at(0).amount, "6");
    assert_eq!(records.len(), 3);
}

#[test]
fn keys_are_compared_as_they_are() {
    let mut records = Records::new();
    records.insert("".to_string(), fermentable("", "1"));
    records.insert(" ".to_string(), fermentable(" ", "2"));
    records.insert("pale malt".to_string(), fermentable("pale malt", "3"));
    records.insert("Pale Malt".to_string(), fermentable("Pale Malt", "4"));
    assert_eq!(records.len(), 4);
    assert_eq!(records.get("").unwrap().amount, "1");
    assert_eq!(records.get(" ").unwrap().amount, "2");
    assert_eq!(records.get("pale malt").unwrap().amount, "3");
    assert_eq!(records.get("Pale Malt").unwrap().amount, "4");
}

#[test]
fn a_key_need_not_be_the_name() {
    let mut records = Records::new();
    assert!(records.insert("base".to_string(), fermentable("Pale Malt", "5")).is_none());
    assert!(records.insert("more".to_string(), fermentable("Pale Malt", "1")).is_none());
    assert_eq!(records.len(), 2);
    assert_eq!(records.key_at(0), "base");
    assert_eq!(records.key_at(1), "more");
    assert_eq!(records.find("Pale Malt"), None);
    assert_eq!(records.get("more").unwrap().amount, "1");
    let old = records.insert("base".to_string(), fermentable("Munich", "2")).unwrap();
    assert_eq!(old.name, "Pale Malt");
    assert_eq!(records.key_at(0), "base");
    assert_eq!(records.at(0).name, "Munich");
    assert_eq!(records.len(), 2);
}

#[test]
fn the_kind_of_a_set() {
    assert_eq!(RecordSet::Empty.kind(), None);
    assert_eq!(RecordSet::Fermentables(Records::new()).kind(), Some(RecordKind::Fermentable));
    assert_eq!(RecordSet::Hops(Records::new()).kind(), Some(RecordKind::Hop));
    assert_eq!(RecordSet::Yeasts(Records::new()).kind(), Some(RecordKind::Yeast));
    assert_eq!(RecordSet::Miscs(Records::new()).kind(), Some(RecordKind::Misc));
    assert_eq!(RecordSet::Waters(Records::new()).kind(), Some(RecordKind::Water));
    assert_eq!(RecordSet::Recipes(Records::new()).kind(), Some(RecordKind::Recipe));
    assert_eq!(RecordSet::Styles(Records::new()).kind(), Some(RecordKind::Style));
    assert_eq!(RecordSet::Mashs(Records::new()).kind(), Some(RecordKind::Mash));
    assert_eq!(RecordSet::Equipments(Records::new()).kind(), Some(RecordKind::Equipment));
}

#[test]
fn default_fermentable() {
    let f = Fermentable::default();
    assert_eq!(f.name, "");
    assert_eq!(f.version, 0);
    assert_eq!(f.type_, FermentableType::Grain);
    assert_eq!(f.amount, 0.0f64.to_string());
    assert_eq!(f.yield_, "0");
    assert_eq!(f.color, "0");
    assert!(!f.add_after_boil);
    assert!(!f.recommend_mash);
    assert!(f.origin.is_none() && f.supplier.is_none() && f.notes.is_none());
    assert!(f.coarse_fine_diff.is_none() && f.moisture.is_none());
    assert!(f.diastatic_power.is_none() && f.protein.is_none() && f.max_in_batch.is_none());
    assert!(f.ibu_gal_per_lb.is_none() && f.display_amount.is_none());
    assert!(f.inventory.is_none() && f.potential.is_none() && f.display_color.is_none());
}

#[test]
fn default_yeast() {
    let y = Yeast::default();
    assert_eq!(y.name, "");
    assert_eq!(y.version, 0);
    assert_eq!(y.type_, YeastType::Ale);
    assert_eq!(y.form, YeastForm::Liquid);
    assert_eq!(y.amount, "0");
    assert!(!y.amount_is_weight);
    assert!(!y.add_to_secondary);
    assert!(y.flocculation.is_none());
    assert!(y.times_cultured.is_none() && y.max_reuse.is_none());
    assert!(y.laboratory.is_none() && y.product_id.is_none());
    assert!(y.min_temperature.is_none() && y.max_temperature.is_none());
    assert!(y.attenuation.is_none() && y.notes.is_none() && y.best_for.is_none());
    assert!(y.display_amount.is_none() && y.display_min_temp.is_none());
    assert!(y.display_max_temp.is_none() && y.inventory.is_none() && y.culture_date.is_none());
}

#[test]
fn default_hop_misc_and_water() {
    let h = Hop::default();
    assert_eq!(h.use_, HopUse::Boil);
    assert_eq!((h.alpha.as_str(), h.amount.as_str(), h.time.as_str()), ("0", "0", "0"));
    assert!(h.type_.is_none() && h.form.is_none() && h.notes.is_none());
    assert!(h.beta.is_none() && h.hsi.is_none() && h.origin.is_none());
    assert!(h.substitutes.is_none() && h.humulene.is_none() && h.caryophyllene.is_none());
    assert!(h.cohumulone.is_none() && h.myrcene.is_none());
    let m = Misc::default();
    assert_eq!(m.type_, MiscType::Spice);
    assert_eq!(m.use_, MiscUse::Boil);
    assert_eq!((m.time.as_str(), m.amount.as_str()), ("0", "0"));
    assert!(!m.amount_is_weight);
    assert!(m.use_for.is_none() && m.notes.is_none() && m.display_time.is_none());
    assert!(m.display_amount.is_none() && m.inventory.is_none());
    let w = Water::default();
    assert_eq!(w.version, 0);
    for amount in [&w.amount, &w.calcium, &w.bicarbonate, &w.sulfate, &w.chloride, &w.sodium] {
        assert_eq!(amount, "0");
    }
    assert_eq!(w.magnesium, "0");
    assert!(w.ph.is_none() && w.notes.is_none());
}

#[test]
fn default_of_the_kinds_without_a_writer() {
    assert_eq!((Recipe::default().name, Recipe::default().version), (String::new(), 0));
    assert_eq!((Style::default().name, Style::default().version), (String::new(), 0));
    assert_eq!((Mash::default().name, Mash::default().version), (String::new(), 0));
    assert_eq!((Equipment::default().name, Equipment::default().version), (String::new(), 0));
}
