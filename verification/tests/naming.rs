use mmcli::models::product::{ProductDetail, Specification};
use mmcli::naming::abbreviations::{
    abbreviate_value, get_steel_grade_material, parse_material_and_finish, stem_of,
};
use mmcli::naming::converters::{extract_thread_with_pitch, thread_with_pitch};
use mmcli::naming::detectors::{
    classify, classify_bearing, determine_bearing_type, determine_category, determine_nut_type,
    determine_pin_type, determine_pulley_type, determine_shaft_collar_type,
    determine_spacer_type, determine_standoff_type, determine_washer_type,
};
use mmcli::naming::generator::{
    abbreviate_with, fallback_label_of, field_role, role_for, FieldRole, NameGenerator,
    NamingTemplate, SpecMapping, TransformType,
};
use mmcli::naming::table::Table;
use std::sync::Arc;

fn spec(attribute: &str, value: &str) -> Specification {
    Specification { attribute: attribute.to_string(), values: vec![value.to_string()] }
}

fn product(part_number: &str, family: &str, specs: Vec<Specification>) -> ProductDetail {
    ProductDetail {
        part_number: part_number.to_string(),
        detail_description: String::new(),
        family_description: family.to_string(),
        product_category: String::new(),
        product_status: "Active".to_string(),
        specifications: specs,
    }
}

fn button_head_screw(material: &str) -> ProductDetail {
    product(
        "91251A540",
        "Button Head Socket Cap Screw",
        vec![
            spec("Material", material),
            spec("Thread Size", "1/4-20"),
            spec("Length", "3/4\""),
            spec("Drive Style", "Hex"),
        ],
    )
}

#[test]
fn button_head_screw_end_to_end() {
    let p = button_head_screw("18-8 Stainless Steel");
    assert_eq!(determine_category(&p), "button_head_screw");
    assert_eq!(NameGenerator::new().generate_name(&p), "BHS-SS188-1/4x20-0.75-HEX");
}

#[test]
fn passivated_finish_is_suppressed() {
    let p = button_head_screw("Passivated 316 Stainless Steel");
    let name = NameGenerator::new().generate_name(&p);
    assert_eq!(name, "BHS-SS316-1/4x20-0.75-HEX");
    assert!(name.split('-').all(|token| token != "PASS"));
}

#[test]
fn extracted_finish_is_appended() {
    let p = button_head_screw("Zinc Plated Steel");
    assert_eq!(NameGenerator::new().generate_name(&p), "BHS-S-1/4x20-0.75-HEX-ZP");
}

#[test]
fn explicit_finish_wins_over_extracted_finish() {
    let mut p = button_head_screw("Zinc Plated Steel");
    p.specifications.push(spec("Finish", "Black Oxide"));
    assert_eq!(NameGenerator::new().generate_name(&p), "BHS-S-1/4x20-0.75-HEX-BO");
}

#[test]
fn explicit_passivated_finish_is_suppressed() {
    let mut p = button_head_screw("316 Stainless Steel");
    p.specifications.push(spec("Finish", "Passivated"));
    assert_eq!(NameGenerator::new().generate_name(&p), "BHS-SS316-1/4x20-0.75-HEX");
}

#[test]
fn names_are_deterministic() {
    let p = button_head_screw("18-8 Stainless Steel");
    let q = button_head_screw("18-8 Stainless Steel");
    let first = NameGenerator::new();
    let second = NameGenerator::new();
    assert_eq!(first.generate_name(&p), first.generate_name(&p));
    assert_eq!(first.generate_name(&p), second.generate_name(&q));
    assert_eq!(determine_category(&p), determine_category(&q));
}

#[test]
fn names_are_never_empty() {
    let generator = NameGenerator::new();
    assert!(!generator.generate_name(&product("", "", vec![])).is_empty());
    assert_eq!(generator.generate_name(&product("", "", vec![])), "UNKNOWN-");
    assert_eq!(generator.generate_name(&product("", ",", vec![])), "-");
    assert_eq!(generator.generate_name(&product("1", "Hex Nut", vec![])), "HN");
}

#[test]
fn thread_forming_takes_precedence() {
    let p = product("1", "Thread-Forming Socket Head Screw", vec![]);
    assert_eq!(determine_category(&p), "thread_forming_socket_head_screw");
    let p = product("1", "Thread Forming Screws for Plastic", vec![]);
    assert_eq!(determine_category(&p), "thread_forming_screw");
    let p = product("1", "Low-Profile Socket Head Screw", vec![]);
    assert_eq!(determine_category(&p), "low_socket_head_screw");
    let p = product("1", "Socket Head Screw", vec![]);
    assert_eq!(determine_category(&p), "socket_head_screw");
    let p = product("1", "Machine Screw", vec![]);
    assert_eq!(determine_category(&p), "generic_screw");
}

#[test]
fn classification_ignores_case() {
    let p = product("1", "BUTTON HEAD SCREW", vec![]);
    assert_eq!(determine_category(&p), "button_head_screw");
    assert_eq!(classify("BUTTON HEAD SCREW", "", "", "", ""), "unknown");
}

#[test]
fn screws_come_before_washers_and_nuts() {
    assert_eq!(classify("screw with washer and nut", "", "", "", ""), "generic_screw");
    assert_eq!(classify("washer for nut", "", "", "", ""), "flat_washer");
    assert_eq!(classify("split lock washer", "", "", "", ""), "split_washer");
    assert_eq!(classify("hex nut", "", "", "", ""), "hex_nut");
    assert_eq!(classify("anything", "nuts", "", "", ""), "generic_nut");
    assert_eq!(classify("unthreaded spacer", "", "", "", ""), "unthreaded_spacer");
    assert_eq!(classify("aluminum spacer", "spacers", "", "", ""), "aluminum_unthreaded_spacer");
    assert_eq!(classify("male-female standoff", "", "", "", ""), "male_female_hex_standoff");
    assert_eq!(classify("clevis pin", "", "", "", ""), "clevis_pin");
    assert_eq!(classify("face-mount shaft collar", "", "", "", ""), "face_mount_shaft_collar");
    assert_eq!(classify("wire rope pulley", "", "", "", ""), "wire_rope_pulley");
    assert_eq!(classify("sheave", "", "", "", ""), "sheave");
    assert_eq!(classify("gasket", "seals", "", "", ""), "unknown");
}

#[test]
fn family_helpers_follow_their_order() {
    assert_eq!(determine_washer_type("double clipped washer"), "double_clipped_washer");
    assert_eq!(determine_washer_type("clipped washer"), "clipped_washer");
    assert_eq!(determine_washer_type("washer"), "flat_washer");
    assert_eq!(determine_nut_type("nylon insert locknut"), "nylon_insert_locknut");
    assert_eq!(determine_nut_type("cotter pin locknut"), "cotter_pin_locknut");
    assert_eq!(determine_nut_type("cotter pin nut"), "generic_nut");
    assert_eq!(determine_nut_type("locknut"), "generic_locknut");
    assert_eq!(determine_nut_type("wing nut"), "wing_nut");
    assert_eq!(determine_standoff_type("female threaded standoff"), "female_hex_standoff");
    assert_eq!(determine_standoff_type("standoff"), "generic_standoff");
    assert_eq!(determine_spacer_type("18-8 spacer"), "stainless_steel_unthreaded_spacer");
    assert_eq!(determine_spacer_type("nylon spacer"), "nylon_unthreaded_spacer");
    assert_eq!(
        determine_pin_type("clevis pin with retaining ring groove"),
        "clevis_pin_with_retaining_ring_groove"
    );
    assert_eq!(determine_pin_type("dowel pin"), "generic_pin");
    assert_eq!(determine_shaft_collar_type("shaft collar"), "generic_shaft_collar");
    assert_eq!(determine_pulley_type("rope pulley"), "rope_pulley");
    assert_eq!(determine_pulley_type("v-belt pulley"), "v_belt_pulley");
    assert_eq!(determine_pulley_type("pulley"), "pulley");
}

#[test]
fn bearings_are_told_apart() {
    assert_eq!(classify_bearing("mounted bearing", "", "", "", "two-bolt flange"), "flange_mounted_ball_bearing");
    assert_eq!(
        classify_bearing("mounted bearing", "", "low-profile housing", "", "flange"),
        "low_profile_flange_mounted_ball_bearing"
    );
    assert_eq!(classify_bearing("mounted bearing", "", "", "", "pillow block"), "pillow_block_mounted_ball_bearing");
    assert_eq!(classify_bearing("mounted bearing", "", "", "", ""), "generic_mounted_bearing");
    assert_eq!(classify_bearing("sleeve bearing", "", "", "flanged", ""), "flanged_sleeve_bearing");
    assert_eq!(classify_bearing("bearing", "", "", "Flanged", ""), "flanged_bearing");
    assert_eq!(classify_bearing("ball bearing", "", "", "", ""), "ball_bearing");
    assert_eq!(classify_bearing("bearing", "", "", "", ""), "generic_bearing");
    let mut p = product("1", "Mounted Ball Bearing", vec![spec("Mounted Bearing Type", "Pillow Block")]);
    assert_eq!(determine_bearing_type(&p), "pillow_block_mounted_ball_bearing");
    assert_eq!(determine_category(&p), "pillow_block_mounted_ball_bearing");
    p.specifications[0].values[0] = "Two-Bolt Flange".to_string();
    p.detail_description = "Low-Profile Mounted Bearing".to_string();
    assert_eq!(determine_category(&p), "low_profile_flange_mounted_ball_bearing");
}

fn spacer_template() -> NamingTemplate {
    let mut aliases: Table<Vec<String>> = Table::new();
    aliases.insert("For Screw Size".to_string(), vec!["For Screw Size".to_string()]);
    let mut abbreviations: Table<String> = Table::new();
    abbreviations.put("Aluminum", "AL");
    NamingTemplate::new("SP", vec!["Material", "For Screw Size"])
        .with_aliases(aliases)
        .with_abbreviations(Arc::new(abbreviations))
}

#[test]
fn alias_that_repeats_the_field_resolves() {
    let generator = NameGenerator::new();
    let template = spacer_template();
    let with_size = product("1", "Spacer", vec![spec("Material", "Aluminum"), spec("For Screw Size", "1/4\"")]);
    assert_eq!(generator.apply_template(&with_size, &template, "unthreaded_spacer"), "SP-AL-0.25");
    let without_size = product("1", "Spacer", vec![spec("Material", "Aluminum")]);
    assert_eq!(generator.apply_template(&without_size, &template, "unthreaded_spacer"), "SP-AL");
    let found = generator.find_specification_with_aliases(&with_size, "for screw size", &template);
    assert_eq!(found.map(|(s, name)| (s.values[0].clone(), name)), Some(("1/4\"".to_string(), "for screw size".to_string())));
    assert!(generator.find_specification_with_aliases(&without_size, "For Screw Size", &template).is_none());
}

#[test]
fn alias_under_another_name_resolves() {
    let generator = NameGenerator::new();
    let mut aliases: Table<Vec<String>> = Table::new();
    aliases.insert(
        "Thread Size".to_string(),
        vec!["Thread (A) Size".to_string(), "Thread (B) Size".to_string()],
    );
    let template = NamingTemplate::new("X", vec!["Thread Size"]).with_aliases(aliases);
    let p = product("1", "Stud", vec![spec("Thread (B) Size", "M8"), spec("Thread (A) Size", "1/4-20")]);
    assert_eq!(generator.apply_template(&p, &template, "stud"), "X-1/4x20");
}

#[test]
fn screw_size_depends_on_the_family() {
    let generator = NameGenerator::new();
    let washer = product("1", "Flat Washer", vec![spec("Material", "Steel"), spec("For Screw Size", "1/4\"")]);
    assert_eq!(generator.generate_name(&washer), "FW-Steel-1/4");
    let numbered = product("1", "Flat Washer", vec![spec("Material", "Steel"), spec("For Screw Size", "No. 8")]);
    assert_eq!(generator.generate_name(&numbered), "FW-Steel-8");
    let spacer = product(
        "1",
        "Unthreaded Spacer",
        vec![spec("Material", "Aluminum"), spec("For Screw Size", "1/4\""), spec("OD", "1/2\""), spec("Length", "1-1/2\"")],
    );
    assert_eq!(generator.generate_name(&spacer), "SP-AL-0.25-0.5-1.5");
}

#[test]
fn unknown_family_falls_back() {
    let generator = NameGenerator::new();
    let p = product("1234K56", "Flexible Rubber Tubing, Clear, Extra Long", vec![]);
    assert_eq!(determine_category(&p), "unknown");
    assert_eq!(generator.generate_name(&p), "FLEXIBLE-RUBBER-TUBING-CLEAR-1234K56");
    assert_eq!(generator.fallback_name(&p), "FLEXIBLE-RUBBER-TUBING-CLEAR-1234K56");
    let p = product("1234K56", "  Gasket\tSheet ", vec![]);
    assert_eq!(generator.generate_name(&p), "GASKET-SHEET-1234K56");
    let p = product("1234K56", "   ", vec![]);
    assert_eq!(generator.generate_name(&p), "UNKNOWN-1234K56");
    assert_eq!(fallback_label_of("A,B-C,", "7"), "AB-C-7");
}

#[test]
fn every_family_has_templates() {
    let generator = NameGenerator::new();
    for (key, prefix) in [
        ("button_head_screw", "BHS"),
        ("generic_screw", "SCREW"),
        ("flat_washer", "FW"),
        ("wedge_washer", "WDW"),
        ("hex_nut", "HN"),
        ("steel_insert_locknut", "LN"),
        ("with_pilot_hole_nut", "PHN"),
        ("generic_standoff", "SO"),
        ("nylon_unthreaded_spacer", "NSP"),
        ("clevis_pin", "CP"),
        ("flange_mount_shaft_collar", "FLSC"),
        ("generic_bearing", "BRG"),
        ("sheave", "SHV"),
        ("generic_latch", "LATCH"),
        ("cable_holder", "CH"),
    ] {
        let template = generator.get_template(key);
        assert_eq!(template.map(|t| t.prefix.clone()), Some(prefix.to_string()), "{}", key);
    }
    assert!(generator.get_template("unknown").is_none());
    let spacer = generator.get_template("unthreaded_spacer").unwrap();
    assert_eq!(spacer.key_specs, vec!["Material", "For Screw Size", "OD", "Length", "Finish"]);
    assert!(spacer.spec_aliases.is_some());
    assert_eq!(spacer.spec_abbreviations.get("Black-Anodized"), Some(&"BA".to_string()));
    let screw = generator.get_template("pan_head_screw").unwrap();
    assert_eq!(screw.spec_abbreviations.get("Pozidriv®"), Some(&"PZ".to_string()));
    assert_eq!(screw.spec_abbreviations.get("Torx Plus"), Some(&"TXP".to_string()));
    let collar = generator.get_template("face_mount_shaft_collar").unwrap();
    assert_eq!(collar.spec_abbreviations.get("1215 Carbon Steel"), Some(&"1215S".to_string()));
    assert_eq!(collar.spec_abbreviations.get("Plain"), Some(&"".to_string()));
}

#[test]
fn pulleys_are_named_by_template() {
    let p = product(
        "3434T12",
        "Pulley for Wire Rope",
        vec![spec("Material", "Steel"), spec("For Rope Diameter", "1/4\""), spec("OD", "3\""), spec("Bearing Type", "Ball")],
    );
    assert_eq!(determine_category(&p), "wire_rope_pulley");
    assert_eq!(NameGenerator::new().generate_name(&p), "WRP-S-0.25-3-BALL");
}

#[test]
fn material_and_finish_are_split() {
    assert_eq!(
        parse_material_and_finish("Zinc Plated Steel"),
        ("Steel".to_string(), Some("Zinc Plated".to_string()))
    );
    assert_eq!(
        parse_material_and_finish("Zinc Yellow-Chromate Plated Grade 8 Steel"),
        ("Grade 8 Steel".to_string(), Some("Zinc Yellow-Chromate Plated".to_string()))
    );
    assert_eq!(parse_material_and_finish("Passivated 18-8 Stainless Steel").1, Some("Passivated".to_string()));
    assert_eq!(parse_material_and_finish("Plain Steel"), ("Steel".to_string(), Some("Plain".to_string())));
    assert_eq!(parse_material_and_finish("Brass"), ("Brass".to_string(), None));
    assert_eq!(parse_material_and_finish("Galvanized"), ("Galvanized".to_string(), None));
    assert_eq!(parse_material_and_finish("Galvanized "), ("".to_string(), Some("Galvanized".to_string())));
    assert_eq!(parse_material_and_finish(""), ("".to_string(), None));
}

#[test]
fn steel_is_graded() {
    let graded = |grade: &str| {
        let p = product("1", "Screw", vec![spec("fastener strength grade/class", grade)]);
        get_steel_grade_material(&p, "Steel")
    };
    assert_eq!(graded("Grade 5"), "Grade 5 Steel");
    assert_eq!(graded("SAE Grade 8"), "Grade 8 Steel");
    assert_eq!(graded("Class 12.9"), "12.9 Steel");
    assert_eq!(graded("Class 10.9"), "10.9 Steel");
    assert_eq!(graded("Class 8.8"), "8.8 Steel");
    assert_eq!(graded("Grade 1"), "Grade 1 Steel");
    assert_eq!(graded("Grade 2"), "Grade 2 Steel");
    assert_eq!(graded("A307"), "Steel");
    assert_eq!(get_steel_grade_material(&product("1", "Screw", vec![]), "Alloy Steel"), "Alloy Steel");
    let mut p = button_head_screw("Alloy Steel");
    p.specifications.push(spec("Fastener Strength Grade/Class", "Class 12.9"));
    assert_eq!(NameGenerator::new().generate_name(&p), "BHS-S12.9-1/4x20-0.75-HEX");
}

#[test]
fn bearing_material_takes_its_filler() {
    let generator = NameGenerator::new();
    let p = product(
        "1",
        "Sleeve Bearing",
        vec![
            spec("Material", "Nylon Plastic"),
            spec("Filler Material", "MDS"),
            spec("For Shaft Diameter", "1/2\""),
            spec("OD", "5/8\""),
            spec("Length", "1\""),
        ],
    );
    assert_eq!(generator.generate_name(&p), "SB-MDSNYL-0.5-0.625-1");
    let p = product("1", "Sleeve Bearing", vec![spec("Material", "Nylon Plastic"), spec("Filler Material", "None")]);
    assert_eq!(generator.generate_name(&p), "SB-NYL");
    let p = product(
        "1",
        "Sleeve Bearing",
        vec![spec("Material", "Steel"), spec("Fastener Strength Grade/Class", "Grade 5")],
    );
    assert_eq!(generator.generate_name(&p), "SB-GRAD");
}

#[test]
fn values_are_abbreviated() {
    assert_eq!(abbreviate_value("5/16x18"), "5/16x18");
    assert_eq!(abbreviate_value("M8x1.25"), "M8x1.25");
    assert_eq!(abbreviate_value("1/4\"x20"), "1/4x20");
    assert_eq!(abbreviate_value("M10"), "M10");
    assert_eq!(abbreviate_value("1/4"), "1/4");
    assert_eq!(abbreviate_value("5/16-18"), "5/16-18");
    assert_eq!(abbreviate_value("Hex"), "Hex");
    assert_eq!(abbreviate_value("No. 10"), "10");
    assert_eq!(abbreviate_value("Phillips"), "PHIL");
    assert_eq!(abbreviate_value("Passivated"), "PASS");
    assert_eq!(abbreviate_value("Zinc Plated"), "ZINC");
    assert_eq!(abbreviate_value("a b"), "AB");
    assert_eq!(abbreviate_value("3\""), "3");
    assert_eq!(abbreviate_value("Metal"), "META");
    assert_eq!(abbreviate_value(""), "");
    assert_eq!(abbreviate_value("straße"), "STRA");
    assert_eq!(stem_of("Phillips"), ("Phil".to_string(), true));
    assert_eq!(stem_of("M8x1.25"), ("M8x1.25".to_string(), false));
    assert_eq!(stem_of("No. 6"), ("6".to_string(), false));
    let mut dictionary: Table<String> = Table::new();
    dictionary.put("Hex", "HEX");
    dictionary.put("Hex", "HX");
    assert_eq!(abbreviate_with(&dictionary, "Hex"), "HX");
    assert_eq!(abbreviate_with(&dictionary, "Torx"), "Torx");
    assert_eq!(abbreviate_with(&dictionary, "Slotted"), "SLOT");
}

#[test]
fn threads_gain_their_pitch() {
    let mut p = product("1", "Screw", vec![]);
    assert_eq!(extract_thread_with_pitch(&p, "1/4-20"), "1/4x20");
    assert_eq!(extract_thread_with_pitch(&p, "M8"), "M8");
    p.detail_description = "Metric Screw, M8 x 1.25 mm Thread, 20 mm Long".to_string();
    assert_eq!(extract_thread_with_pitch(&p, "M8"), "M8x1.25");
    assert_eq!(extract_thread_with_pitch(&p, "M8-1"), "M8x1");
    p.detail_description = "M10x1.5mm thread".to_string();
    assert_eq!(extract_thread_with_pitch(&p, "M10"), "M10x1.5");
    p.detail_description = "no pitch here".to_string();
    p.specifications.push(spec("thread pitch", " 1.25 mm "));
    assert_eq!(extract_thread_with_pitch(&p, "M8"), "M8x1.25");
    assert_eq!(thread_with_pitch(&p, "M8", Some("0.75".to_string())), "M8x0.75");
    assert_eq!(thread_with_pitch(&p, "M8", None), "M8x1.25");
    let inch = product("1", "Screw", vec![spec("Number of Threads per Inch", " 32 ")]);
    assert_eq!(extract_thread_with_pitch(&inch, "No. 4"), "4x32");
    assert_eq!(extract_thread_with_pitch(&inch, "1/4"), "1/4x32");
    assert_eq!(extract_thread_with_pitch(&inch, "M5"), "M5x32");
    let p = product("1", "Pan Head Screw", vec![spec("Thread Size", "No. 4"), spec("Threads per Inch", "40")]);
    assert_eq!(NameGenerator::new().generate_name(&p), "PHS-4x40");
}

#[test]
fn fields_have_roles() {
    assert_eq!(field_role("Material"), FieldRole::Material);
    assert_eq!(field_role("Housing Material"), FieldRole::Material);
    assert_eq!(field_role("FILLER MATERIAL"), FieldRole::Material);
    assert_eq!(field_role("finish"), FieldRole::Finish);
    assert_eq!(field_role("LENGTH"), FieldRole::Length);
    assert_eq!(field_role("For Screw Size"), FieldRole::ScrewSize);
    assert_eq!(field_role("OD"), FieldRole::Dimension);
    assert_eq!(field_role("For Shaft Diameter"), FieldRole::Dimension);
    assert_eq!(field_role("Bore"), FieldRole::Dimension);
    assert_eq!(field_role("Usable Length"), FieldRole::Dimension);
    assert_eq!(field_role("Overall Height"), FieldRole::Dimension);
    assert_eq!(field_role("Mounting Hole Center -to-Center"), FieldRole::Dimension);
    assert_eq!(field_role("Thread Size"), FieldRole::ThreadSize);
    assert_eq!(field_role("Thread (A) Size"), FieldRole::ThreadSize);
    assert_eq!(field_role("Drive Style"), FieldRole::Other);
    assert_eq!(field_role("Grid"), FieldRole::Other);
    assert_eq!(role_for("Anything", "material"), FieldRole::Material);
    assert_eq!(role_for("Finish", "MATERIAL"), FieldRole::Finish);
    let generator = NameGenerator::new();
    assert!(generator.is_material_field("Material"));
    assert!(generator.is_dimension_field("Width"));
    assert!(!generator.is_dimension_field("Grid"));
    assert!(generator.is_diameter_field("diameter of hole"));
    assert!(generator.is_length_field("overall length"));
    assert!(generator.is_thread_size_field("Thread Size (Metric)"));
    assert!(generator.is_washer_template("flat_washer"));
    assert!(!generator.is_washer_template("hex_nut"));
}

#[test]
fn empty_abbreviation_gives_no_token() {
    let generator = NameGenerator::new();
    let p = product(
        "1",
        "Clevis Pin",
        vec![spec("Material", "Steel"), spec("Diameter", "1/4\""), spec("Usable Length", "1\""), spec("Finish", "Plain")],
    );
    assert_eq!(generator.generate_name(&p), "CP-S-0.25-1");
    let p = product("1", "Clevis Pin", vec![Specification { attribute: "Material".to_string(), values: vec![] }]);
    assert_eq!(generator.generate_name(&p), "CP");
}

#[test]
fn builders_keep_what_they_are_given() {
    let template = NamingTemplate::new("FW", vec!["Material", "Finish"]);
    assert_eq!(template.prefix, "FW");
    assert_eq!(template.key_specs, vec!["Material", "Finish"]);
    assert!(template.spec_aliases.is_none());
    assert_eq!(template.spec_abbreviations.len(), 0);
    let simple = SpecMapping::simple("Thread Size");
    assert_eq!(simple.aliases, vec!["Thread Size"]);
    assert!(simple.required);
    assert!(simple.transform.is_none());
    let mapping = SpecMapping::with_aliases(vec!["Thread Size", "Thread (A) Size"])
        .with_transform(TransformType::ThreadConversion)
        .optional();
    assert_eq!(mapping.aliases, vec!["Thread Size", "Thread (A) Size"]);
    assert!(!mapping.required);
    assert!(matches!(mapping.transform, Some(TransformType::ThreadConversion)));
}

#[test]
fn generators_take_only_well_formed_templates() {
    let mut registry: Table<NamingTemplate> = Table::new();
    registry.insert("flat_washer".to_string(), NamingTemplate::new("W", vec!["Material"]));
    let generator = NameGenerator::with_templates(registry).unwrap();
    let p = product("1", "Flat Washer", vec![spec("Material", "Brass")]);
    assert_eq!(generator.generate_name(&p), "W-BRAS");
    let p = product("1", "Hex Nut", vec![]);
    assert_eq!(generator.generate_name(&p), "HEX-NUT-1");
    let mut registry: Table<NamingTemplate> = Table::new();
    registry.insert("a".to_string(), NamingTemplate::new("A", vec!["Material"]));
    registry.insert("b".to_string(), NamingTemplate::new("", vec!["Material"]));
    assert!(NameGenerator::with_templates(registry).is_none());
    let mut registry: Table<NamingTemplate> = Table::new();
    registry.insert("a".to_string(), NamingTemplate::new("A", vec![]));
    assert!(NameGenerator::with_templates(registry).is_none());
    assert!(NameGenerator::with_templates(Table::new()).is_some());
}

#[test]
fn every_category_has_a_template() {
    let generator = NameGenerator::new();
    let categories = [
        "cup_washer", "curved_washer", "dished_washer", "domed_washer", "double_clipped_washer",
        "clipped_washer", "hillside_washer", "notched_washer", "perforated_washer",
        "pronged_washer", "rectangular_washer", "sleeve_washer", "slotted_washer",
        "spherical_washer", "split_washer", "square_washer", "tab_washer", "tapered_washer",
        "tooth_washer", "wave_washer", "wedge_washer", "flat_washer", "cotter_pin_locknut",
        "distorted_thread_locknut", "flex_top_locknut", "lock_washer_locknut",
        "nylon_insert_locknut", "serrations_locknut", "spring_stop_locknut", "steel_insert_locknut",
        "generic_locknut", "acorn_nut", "barrel_nut", "cage_nut", "castle_nut", "clinch_nut",
        "coupling_nut", "flange_nut", "hex_nut", "jam_nut", "knurled_thumb_nut",
        "machine_screw_nut", "panel_nut", "push_on_nut", "rivet_nut", "round_nut",
        "screw_mount_nut", "snap_in_nut", "socket_nut", "speed_nut", "square_nut",
        "tamper_resistant_nut", "threadless_nut", "thumb_nut", "tube_end_nut", "twist_close_nut",
        "weld_nut", "with_pilot_hole_nut", "wing_nut", "cap_nut", "generic_nut",
        "male_female_hex_standoff", "female_hex_standoff", "generic_standoff",
        "aluminum_unthreaded_spacer", "stainless_steel_unthreaded_spacer",
        "nylon_unthreaded_spacer", "unthreaded_spacer", "clevis_pin_with_retaining_ring_groove",
        "clevis_pin", "generic_pin", "face_mount_shaft_collar", "flange_mount_shaft_collar",
        "generic_shaft_collar", "wire_rope_pulley", "rope_pulley", "v_belt_pulley", "sheave",
        "pulley", "low_profile_flange_mounted_ball_bearing", "flange_mounted_ball_bearing",
        "pillow_block_mounted_ball_bearing", "generic_mounted_bearing", "flanged_sleeve_bearing",
        "flanged_bearing", "sleeve_bearing", "ball_bearing", "linear_bearing", "needle_bearing",
        "roller_bearing", "generic_bearing", "thread_forming_button_head_screw",
        "thread_forming_high_socket_head_screw", "thread_forming_low_socket_head_screw",
        "thread_forming_socket_head_screw", "thread_forming_flat_head_screw",
        "thread_forming_pan_head_screw", "thread_forming_hex_head_screw", "thread_forming_screw",
        "button_head_screw", "high_socket_head_screw", "low_socket_head_screw",
        "ultra_low_socket_head_screw", "standard_socket_head_screw", "socket_head_screw",
        "narrow_flat_head_screw", "standard_flat_head_screw", "undercut_flat_head_screw",
        "wide_flat_head_screw", "flat_head_screw", "pan_head_screw", "hex_head_screw",
        "standard_oval_head_screw", "undercut_oval_head_screw", "oval_head_screw",
        "square_head_screw", "binding_head_screw", "carriage_head_screw", "cheese_head_screw",
        "fillister_head_screw", "pancake_head_screw", "round_head_screw", "truss_head_screw",
        "rounded_head_screw", "12_point_head_screw", "t_handle_screw", "t_slot_screw",
        "l_handle_screw", "domed_head_screw", "headless_screw", "pentagon_head_screw",
        "four_arm_thumb_screw", "hex_thumb_screw", "multilobe_thumb_screw", "rectangle_thumb_screw",
        "round_thumb_screw", "spade_thumb_screw", "two_arm_thumb_screw", "wing_thumb_screw",
        "thumb_screw", "captive_panel_screw", "hook_screw", "ring_screw", "eye_screw", "knob_screw",
        "threaded_screw", "tee_screw", "generic_screw",
    ];
    assert_eq!(categories.len(), 148);
    for category in categories {
        let template = generator.get_template(category);
        assert!(template.is_some(), "{}", category);
        assert!(!template.unwrap().prefix.is_empty(), "{}", category);
        assert!(!template.unwrap().key_specs.is_empty(), "{}", category);
    }
}

#[test]
fn only_unknown_products_fall_back() {
    let generator = NameGenerator::new();
    let named = |family: &str| {
        let p = product(
            "90000A001",
            family,
            vec![spec("Material", "Steel"), spec("Thread Size", "1/4-20"), spec("Diameter", "1/4\"")],
        );
        generator.generate_name(&p)
    };
    assert_eq!(named("Thread-Forming Socket Head Screw"), "TFSHS-S-1/4x20");
    assert_eq!(named("Thread Forming Screws for Plastic"), "TFS-S-1/4x20");
    assert_eq!(named("Thread-Forming Rivet"), "TFS-S-1/4x20");
    assert_eq!(named("Truss Head Screw"), "TRUSS-S-1/4x20");
    assert_eq!(named("12-Point Screw"), "12PHS-S-1/4x20");
    assert_eq!(named("Wing Thumb Screw"), "WINGTHUMB-S-1/4x20");
    assert_eq!(named("T-Handle Screw"), "THS-S-1/4x20");
    assert_eq!(named("Captive Panel Screw"), "CPS-S-1/4x20");
    assert_eq!(named("Dowel Pin"), "PIN-S-0.25");
    assert_eq!(named("Shaft Collar"), "SC-S");
    assert_eq!(named("Gasket"), "GASKET-90000A001");
}
