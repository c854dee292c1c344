use brewcalc::data::{
    Fermentable, FermentableType, Hop, HopForm, HopType, HopUse, Misc, MiscType, MiscUse, Water,
    Yeast, YeastFlocculation, YeastForm, YeastType,
};
use brewcalc::xml::write::{
    write_fermentable, write_hop, write_misc, write_water, write_yeast, Element,
};

fn text(s: &str) -> Option<String> {
    Some(s.to_string())
}

fn number(x: f64) -> String {
    x.to_string()
}

/// The tags of the lines between the opening and the closing line.
fn tags_of(element: &str) -> Vec<String> {
    let lines: Vec<&str> = element.lines().collect();
    lines[1..lines.len() - 1]
        .iter()
        .map(|line| {
            let line = line.trim_start();
            line[1..line.find('>').unwrap()].to_string()
        })
        .collect()
}

fn pale_malt() -> Fermentable {
    let mut f = Fermentable::default();
    f.name = "Pale Malt".to_string();
    f.version = 1;
    f.type_ = FermentableType::Grain;
    f.amount = number(5.0);
    f.yield_ = number(78.0);
    f.color = number(3.0);
    f.add_after_boil = false;
    f.recommend_mash = true;
    f
}

fn full_fermentable() -> Fermentable {
    Fermentable {
        name: "Amber Extract".to_string(),
        version: 1,
        type_: FermentableType::DryExtract,
        amount: number(1.5),
        yield_: number(95.5),
        color: number(12.25),
        add_after_boil: true,
        origin: text("UK"),
        supplier: text("Muntons"),
        notes: text("hopped"),
        coarse_fine_diff: Some(number(1.5)),
        moisture: Some(number(4.0)),
        diastatic_power: Some(number(120.0)),
        protein: Some(number(11.7)),
        max_in_batch: Some(number(100.0)),
        recommend_mash: true,
        ibu_gal_per_lb: Some(number(16.6)),
        display_amount: text("1.5 kg"),
        inventory: text("3 kg"),
        potential: Some(number(1.044)),
        display_color: text("12 L"),
    }
}

#[test]
fn pale_malt_element() {
    let mut out = String::new();
    write_fermentable(&mut out, &pale_malt(), 0);
    assert_eq!(
        out,
        "<FERMENTABLE>\n\
\x20 <NAME>Pale Malt</NAME>\n\
\x20 <VERSION>1</VERSION>\n\
\x20 <TYPE>Grain</TYPE>\n\
\x20 <AMOUNT>5</AMOUNT>\n\
\x20 <YIELD>78</YIELD>\n\
\x20 <COLOR>3</COLOR>\n\
\x20 <RECOMMEND_MASH>true</RECOMMEND_MASH>\n\
</FERMENTABLE>\n"
    );
    assert_eq!(
        tags_of(&out),
        ["NAME", "VERSION", "TYPE", "AMOUNT", "YIELD", "COLOR", "RECOMMEND_MASH"]
    );
    assert!(!out.contains("ADD_AFTER_BOIL"));
}

#[test]
fn full_fermentable_element() {
    let mut out = String::new();
    write_fermentable(&mut out, &full_fermentable(), 1);
    assert_eq!(
        out,
        "  <FERMENTABLE>\n\
\x20   <NAME>Amber Extract</NAME>\n\
\x20   <VERSION>1</VERSION>\n\
\x20   <TYPE>Dry Extract</TYPE>\n\
\x20   <AMOUNT>1.5</AMOUNT>\n\
\x20   <YIELD>95.5</YIELD>\n\
\x20   <COLOR>12.25</COLOR>\n\
\x20   <ADD_AFTER_BOIL>true</ADD_AFTER_BOIL>\n\
\x20   <ORIGIN>UK</ORIGIN>\n\
\x20   <SUPPLIER>Muntons</SUPPLIER>\n\
\x20   <NOTES>hopped</NOTES>\n\
\x20   <COARSE_FINE_DIFF>1.5</COARSE_FINE_DIFF>\n\
\x20   <MOISTURE>4</MOISTURE>\n\
\x20   <DIASTATIC_POWER>120</DIASTATIC_POWER>\n\
\x20   <PROTEIN>11.7</PROTEIN>\n\
\x20   <MAX_IN_BATCH>100</MAX_IN_BATCH>\n\
\x20   <RECOMMEND_MASH>true</RECOMMEND_MASH>\n\
\x20   <IBU_GAL_PER_LB>16.6</IBU_GAL_PER_LB>\n\
\x20   <DISPLAY_AMOUNT>1.5 kg</DISPLAY_AMOUNT>\n\
\x20   <INVENTORY>3 kg</INVENTORY>\n\
\x20   <POTENTIAL>1.044</POTENTIAL>\n\
\x20   <DISPLAY_COLOR>12 L</DISPLAY_COLOR>\n\
\x20 </FERMENTABLE>\n"
    );
}

#[test]
fn fermentable_without_flags_and_optional_fields() {
    let mut f = full_fermentable();
    f.add_after_boil = false;
    f.recommend_mash = false;
    f.origin = None;
    f.supplier = None;
    f.notes = None;
    f.coarse_fine_diff = None;
    f.moisture = None;
    f.diastatic_power = None;
    f.protein = None;
    f.max_in_batch = None;
    f.ibu_gal_per_lb = None;
    f.display_amount = None;
    f.inventory = None;
    f.potential = None;
    f.display_color = None;
    let mut out = String::new();
    write_fermentable(&mut out, &f, 0);
    assert_eq!(tags_of(&out), ["NAME", "VERSION", "TYPE", "AMOUNT", "YIELD", "COLOR"]);
}

#[test]
fn each_optional_field_of_a_fermentable_alone() {
    let order = [
        "ORIGIN",
        "SUPPLIER",
        "NOTES",
        "COARSE_FINE_DIFF",
        "MOISTURE",
        "DIASTATIC_POWER",
        "PROTEIN",
        "MAX_IN_BATCH",
        "IBU_GAL_PER_LB",
        "DISPLAY_AMOUNT",
        "INVENTORY",
        "POTENTIAL",
        "DISPLAY_COLOR",
    ];
    for (i, tag) in order.iter().enumerate() {
        let mut f = pale_malt();
        f.recommend_mash = false;
        let value = format!("value {}", i);
        let slot = match i {
            0 => &mut f.origin,
            1 => &mut f.supplier,
            2 => &mut f.notes,
            3 => &mut f.coarse_fine_diff,
            4 => &mut f.moisture,
            5 => &mut f.diastatic_power,
            6 => &mut f.protein,
            7 => &mut f.max_in_batch,
            8 => &mut f.ibu_gal_per_lb,
            9 => &mut f.display_amount,
            10 => &mut f.inventory,
            11 => &mut f.potential,
            _ => &mut f.display_color,
        };
        *slot = Some(value.clone());
        let mut out = String::new();
        write_fermentable(&mut out, &f, 0);
        assert_eq!(
            tags_of(&out),
            ["NAME", "VERSION", "TYPE", "AMOUNT", "YIELD", "COLOR", *tag]
        );
        let line = format!("  <{}>{}</{}>\n", tag, value, tag);
        assert_eq!(out.matches(line.as_str()).count(), 1);
        assert_eq!(out.matches(format!("<{}>", tag).as_str()).count(), 1);
    }
}

#[test]
fn each_flag_of_a_fermentable() {
    for (add_after_boil, recommend_mash) in [(false, false), (false, true), (true, false), (true, true)] {
        let mut f = pale_malt();
        f.add_after_boil = add_after_boil;
        f.recommend_mash = recommend_mash;
        let mut out = String::new();
        write_fermentable(&mut out, &f, 0);
        assert_eq!(
            out.matches("  <ADD_AFTER_BOIL>true</ADD_AFTER_BOIL>\n").count(),
            if add_after_boil { 1 } else { 0 }
        );
        assert_eq!(out.matches("ADD_AFTER_BOIL").count(), if add_after_boil { 2 } else { 0 });
        assert_eq!(
            out.matches("  <RECOMMEND_MASH>true</RECOMMEND_MASH>\n").count(),
            if recommend_mash { 1 } else { 0 }
        );
        assert_eq!(out.matches("RECOMMEND_MASH").count(), if recommend_mash { 2 } else { 0 });
        assert!(!out.contains("false"));
    }
}

#[test]
fn the_type_does_not_decide_what_is_written() {
    let mut f = pale_malt();
    f.type_ = FermentableType::Sugar;
    f.recommend_mash = true;
    f.moisture = Some(number(4.0));
    f.ibu_gal_per_lb = Some(number(10.0));
    let mut out = String::new();
    write_fermentable(&mut out, &f, 0);
    assert_eq!(
        tags_of(&out),
        [
            "NAME",
            "VERSION",
            "TYPE",
            "AMOUNT",
            "YIELD",
            "COLOR",
            "MOISTURE",
            "RECOMMEND_MASH",
            "IBU_GAL_PER_LB"
        ]
    );
    assert!(out.contains("<TYPE>Sugar</TYPE>"));
}

fn full_hop() -> Hop {
    Hop {
        name: "Saaz".to_string(),
        version: 1,
        alpha: number(3.5),
        amount: number(0.028),
        use_: HopUse::FirstWort,
        time: number(60.0),
        notes: text("noble"),
        type_: Some(HopType::Aroma),
        form: Some(HopForm::Leaf),
        beta: Some(number(4.0)),
        hsi: Some(number(45.0)),
        origin: text("Czech Republic"),
        substitutes: text("Tettnang"),
        humulene: Some(number(40.0)),
        caryophyllene: Some(number(11.0)),
        cohumulone: Some(number(25.0)),
        myrcene: Some(number(22.5)),
    }
}

#[test]
fn full_hop_element() {
    let mut out = String::new();
    write_hop(&mut out, &full_hop(), 0);
    assert_eq!(
        out,
        "<HOP>\n\
\x20 <NAME>Saaz</NAME>\n\
\x20 <VERSION>1</VERSION>\n\
\x20 <ALPHA>3.5</ALPHA>\n\
\x20 <AMOUNT>0.028</AMOUNT>\n\
\x20 <USE>First Wort</USE>\n\
\x20 <TIME>60</TIME>\n\
\x20 <NOTES>noble</NOTES>\n\
\x20 <TYPE>Aroma</TYPE>\n\
\x20 <FORM>Leaf</FORM>\n\
\x20 <BETA>4</BETA>\n\
\x20 <HSI>45</HSI>\n\
\x20 <ORIGIN>Czech Republic</ORIGIN>\n\
\x20 <SUBSTITUTES>Tettnang</SUBSTITUTES>\n\
\x20 <HUMULENE>40</HUMULENE>\n\
\x20 <CARYOPHYLLENE>11</CARYOPHYLLENE>\n\
\x20 <COHUMULONE>25</COHUMULONE>\n\
\x20 <MYRCENE>22.5</MYRCENE>\n\
</HOP>\n"
    );
}

#[test]
fn hop_without_type_and_form() {
    let mut h = Hop::default();
    h.name = "Saaz".to_string();
    h.version = 1;
    h.use_ = HopUse::DryHop;
    let mut out = String::new();
    write_hop(&mut out, &h, 0);
    assert_eq!(
        out,
        "<HOP>\n\
\x20 <NAME>Saaz</NAME>\n\
\x20 <VERSION>1</VERSION>\n\
\x20 <ALPHA>0</ALPHA>\n\
\x20 <AMOUNT>0</AMOUNT>\n\
\x20 <USE>Dry Hop</USE>\n\
\x20 <TIME>0</TIME>\n\
</HOP>\n"
    );
    assert!(!out.contains("TYPE"));
    assert!(!out.contains("FORM"));
    assert!(!out.contains("Bittering"));
    assert!(!out.contains("Pellet"));
}

fn full_yeast() -> Yeast {
    Yeast {
        name: "Ardennes".to_string(),
        version: 1,
        type_: YeastType::Ale,
        form: YeastForm::Liquid,
        amount: number(0.125),
        amount_is_weight: true,
        laboratory: text("Wyeast"),
        product_id: text("3522"),
        min_temperature: Some(number(18.3)),
        max_temperature: Some(number(24.4)),
        flocculation: Some(YeastFlocculation::VeryHigh),
        attenuation: Some(number(74.0)),
        notes: text("spicy"),
        best_for: text("Belgian ales"),
        times_cultured: Some(0),
        max_reuse: Some(5),
        add_to_secondary: true,
        display_amount: text("125 ml"),
        display_min_temp: text("18.3 C"),
        display_max_temp: text("24.4 C"),
        inventory: text("1 pkg"),
        culture_date: text("2017-03-01"),
    }
}

#[test]
fn full_yeast_element() {
    let mut out = String::new();
    write_yeast(&mut out, &full_yeast(), 0);
    assert_eq!(
        out,
        "<YEAST>\n\
\x20 <NAME>Ardennes</NAME>\n\
\x20 <VERSION>1</VERSION>\n\
\x20 <TYPE>Ale</TYPE>\n\
\x20 <FORM>Liquid</FORM>\n\
\x20 <AMOUNT>0.125</AMOUNT>\n\
\x20 <AMOUNT_IS_WEIGHT>true</AMOUNT_IS_WEIGHT>\n\
\x20 <LABORATORY>Wyeast</LABORATORY>\n\
\x20 <PRODUCT_ID>3522</PRODUCT_ID>\n\
\x20 <MIN_TEMPERATURE>18.3</MIN_TEMPERATURE>\n\
\x20 <MAX_TEMPERATURE>24.4</MAX_TEMPERATURE>\n\
\x20 <FLOCCULATION>Very High</FLOCCULATION>\n\
\x20 <ATTENUATION>74</ATTENUATION>\n\
\x20 <NOTES>spicy</NOTES>\n\
\x20 <BEST_FOR>Belgian ales</BEST_FOR>\n\
\x20 <TIMES_CULTURED>0</TIMES_CULTURED>\n\
\x20 <MAX_REUSE>5</MAX_REUSE>\n\
\x20 <ADD_TO_SECONDARY>true</ADD_TO_SECONDARY>\n\
\x20 <DISPLAY_AMOUNT>125 ml</DISPLAY_AMOUNT>\n\
\x20 <DISP_MIN_TEMP>18.3 C</DISP_MIN_TEMP>\n\
\x20 <DISP_MAX_TEMP>24.4 C</DISP_MAX_TEMP>\n\
\x20 <INVENTORY>1 pkg</INVENTORY>\n\
\x20 <CULTURE_DATE>2017-03-01</CULTURE_DATE>\n\
</YEAST>\n"
    );
}

#[test]
fn yeast_without_flocculation() {
    let mut y = full_yeast();
    y.flocculation = None;
    let mut out = String::new();
    write_yeast(&mut out, &y, 0);
    assert!(!out.contains("FLOCCULATION"));
    assert!(!out.contains("Low"));
    assert_eq!(tags_of(&out).len(), 21);
    let mut with = String::new();
    write_yeast(&mut with, &full_yeast(), 0);
    assert_eq!(with.replace("  <FLOCCULATION>Very High</FLOCCULATION>\n", ""), out);
}

#[test]
fn yeast_with_the_default_flocculation_present() {
    let mut y = Yeast::default();
    y.flocculation = Some(YeastFlocculation::default());
    let mut out = String::new();
    write_yeast(&mut out, &y, 0);
    assert_eq!(out.matches("  <FLOCCULATION>Low</FLOCCULATION>\n").count(), 1);
}

#[test]
fn bare_yeast_element() {
    let mut y = Yeast::default();
    y.name = "US-05".to_string();
    y.version = 1;
    y.form = YeastForm::Dry;
    y.amount = number(0.0115);
    let mut out = String::new();
    write_yeast(&mut out, &y, 0);
    assert_eq!(
        out,
        "<YEAST>\n\
\x20 <NAME>US-05</NAME>\n\
\x20 <VERSION>1</VERSION>\n\
\x20 <TYPE>Ale</TYPE>\n\
\x20 <FORM>Dry</FORM>\n\
\x20 <AMOUNT>0.0115</AMOUNT>\n\
</YEAST>\n"
    );
}

#[test]
fn negative_counts_are_written_as_they_are() {
    let mut y = Yeast::default();
    y.version = -3;
    y.times_cultured = Some(-1);
    y.max_reuse = Some(i64::MAX);
    let mut out = String::new();
    write_yeast(&mut out, &y, 0);
    assert!(out.contains("  <VERSION>-3</VERSION>\n"));
    assert!(out.contains("  <TIMES_CULTURED>-1</TIMES_CULTURED>\n"));
    assert!(out.contains("  <MAX_REUSE>9223372036854775807</MAX_REUSE>\n"));
}

#[test]
fn full_misc_element() {
    let m = Misc {
        name: "Irish Moss".to_string(),
        version: 1,
        type_: MiscType::Fining,
        use_: MiscUse::Boil,
        time: number(15.0),
        amount: number(0.01),
        amount_is_weight: true,
        use_for: text("clarity"),
        notes: text("rehydrate first"),
        display_time: text("15 min"),
        display_amount: text("10 g"),
        inventory: text("50 g"),
    };
    let mut out = String::new();
    write_misc(&mut out, &m, 0);
    assert_eq!(
        out,
        "<MISC>\n\
\x20 <NAME>Irish Moss</NAME>\n\
\x20 <VERSION>1</VERSION>\n\
\x20 <TYPE>Fining</TYPE>\n\
\x20 <USE>Boil</USE>\n\
\x20 <TIME>15</TIME>\n\
\x20 <AMOUNT>0.01</AMOUNT>\n\
\x20 <AMOUNT_IS_WEIGHT>true</AMOUNT_IS_WEIGHT>\n\
\x20 <USE_FOR>clarity</USE_FOR>\n\
\x20 <NOTES>rehydrate first</NOTES>\n\
\x20 <DISPLAY_TIME>15 min</DISPLAY_TIME>\n\
\x20 <DISPLAY_AMOUNT>10 g</DISPLAY_AMOUNT>\n\
\x20 <INVENTORY>50 g</INVENTORY>\n\
</MISC>\n"
    );
}

#[test]
fn bare_misc_element() {
    let mut m = Misc::default();
    m.name = "Gypsum".to_string();
    m.type_ = MiscType::WaterAgent;
    m.use_ = MiscUse::Mash;
    let mut out = String::new();
    write_misc(&mut out, &m, 0);
    assert_eq!(
        out,
        "<MISC>\n\
\x20 <NAME>Gypsum</NAME>\n\
\x20 <VERSION>0</VERSION>\n\
\x20 <TYPE>Water Agent</TYPE>\n\
\x20 <USE>Mash</USE>\n\
\x20 <TIME>0</TIME>\n\
\x20 <AMOUNT>0</AMOUNT>\n\
</MISC>\n"
    );
}

#[test]
fn full_water_element() {
    let w = Water {
        name: "Burton".to_string(),
        version: 1,
        amount: number(20.0),
        calcium: number(295.0),
        bicarbonate: number(300.0),
        sulfate: number(725.0),
        chloride: number(25.0),
        sodium: number(55.0),
        magnesium: number(45.0),
        ph: Some(number(8.0)),
        notes: text("hard"),
    };
    let mut out = String::new();
    write_water(&mut out, &w, 0);
    assert_eq!(
        out,
        "<WATER>\n\
\x20 <NAME>Burton</NAME>\n\
\x20 <VERSION>1</VERSION>\n\
\x20 <AMOUNT>20</AMOUNT>\n\
\x20 <CALCIUM>295</CALCIUM>\n\
\x20 <BICARBONATE>300</BICARBONATE>\n\
\x20 <SULFATE>725</SULFATE>\n\
\x20 <CHLORIDE>25</CHLORIDE>\n\
\x20 <SODIUM>55</SODIUM>\n\
\x20 <MAGNESIUM>45</MAGNESIUM>\n\
\x20 <PH>8</PH>\n\
\x20 <NOTES>hard</NOTES>\n\
</WATER>\n"
    );
}

#[test]
fn bare_water_element() {
    let mut out = String::new();
    write_water(&mut out, &Water::default(), 0);
    assert_eq!(
        tags_of(&out),
        [
            "NAME",
            "VERSION",
            "AMOUNT",
            "CALCIUM",
            "BICARBONATE",
            "SULFATE",
            "CHLORIDE",
            "SODIUM",
            "MAGNESIUM"
        ]
    );
}

#[test]
fn write_element_is_the_writer_of_the_kind() {
    let mut by_trait = String::new();
    let mut by_name = String::new();
    pale_malt().write_element(&mut by_trait, 3);
    write_fermentable(&mut by_name, &pale_malt(), 3);
    assert_eq!(by_trait, by_name);
    let mut by_trait = String::new();
    let mut by_name = String::new();
    full_hop().write_element(&mut by_trait, 1);
    write_hop(&mut by_name, &full_hop(), 1);
    assert_eq!(by_trait, by_name);
    let mut by_trait = String::new();
    let mut by_name = String::new();
    full_yeast().write_element(&mut by_trait, 0);
    write_yeast(&mut by_name, &full_yeast(), 0);
    assert_eq!(by_trait, by_name);
}

#[test]
fn a_writer_appends() {
    let mut out = String::from("before\n");
    write_water(&mut out, &Water::default(), 0);
    assert!(out.starts_with("before\n<WATER>\n"));
    assert!(out.ends_with("</WATER>\n"));
}
