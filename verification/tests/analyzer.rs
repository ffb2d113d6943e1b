use mmcli::models::product::{ProductDetail, Specification};
use mmcli::naming::analyzer::{finish_for_material, suggestions_from, PartAnalyzer};
use mmcli::naming::generator::{NameGenerator, NamingTemplate};
use mmcli::naming::table::Table;

fn spec(attribute: &str, value: &str) -> Specification {
    Specification { attribute: attribute.to_string(), values: vec![value.to_string()] }
}

fn screw(material: &str) -> ProductDetail {
    ProductDetail {
        part_number: "91251A540".to_string(),
        detail_description: "18-8 Stainless Steel Button Head Hex Drive Screw".to_string(),
        family_description: "Button Head Socket Cap Screw".to_string(),
        product_category: "Screws".to_string(),
        product_status: "Active".to_string(),
        specifications: vec![
            spec("Material", material),
            spec("Thread Size", "1/4-20"),
            spec("Length", "3/4\""),
            spec("Drive Style", "Hex"),
            spec("Head Diameter", "0.437\""),
        ],
    }
}

fn strings(items: &[&str]) -> Vec<String> {
    items.iter().map(|s| s.to_string()).collect()
}

#[test]
fn analysis_reports_what_the_template_uses() {
    let analyzer = PartAnalyzer::new();
    let analysis = analyzer.analyze_part(&screw("18-8 Stainless Steel"), true, true);
    assert_eq!(analysis.part_number, "91251A540");
    assert_eq!(analysis.category, "Screws");
    assert_eq!(analysis.detected_type, "button_head_screw");
    assert_eq!(analysis.family_description, "Button Head Socket Cap Screw");
    assert_eq!(analysis.product_description, "18-8 Stainless Steel Button Head Hex Drive Screw");
    assert_eq!(analysis.template_used, Some("button_head_screw".to_string()));
    assert_eq!(
        analysis.template_specs,
        strings(&["Material", "Thread Size", "Length", "Drive Style", "Finish"])
    );
    assert_eq!(analysis.spec_aliases.len(), 0);
    assert_eq!(analysis.generated_name, "BHS-SS188-1/4x20-0.75-HEX");
    assert_eq!(analysis.missing_specs, strings(&["Finish"]));
    assert_eq!(analysis.unmapped_specs, strings(&["Head Diameter"]));
    assert_eq!(analysis.specifications.len(), 5);
    assert_eq!(analysis.specifications[0].name, "Material");
    assert_eq!(analysis.specifications[0].values, strings(&["18-8 Stainless Steel"]));
    assert!(analysis.specifications[0].used_in_name);
    assert_eq!(analysis.specifications[0].source, "direct");
    assert!(analysis.specifications[0].processed_value.is_none());
    assert!(!analysis.specifications[4].used_in_name);
    assert_eq!(analysis.specifications[4].source, "unmapped");
    assert_eq!(analysis.suggested_name, Some("BHS-SS188-1/4x20-0.75-HEX-PASS".to_string()));
    let components: Vec<(String, String)> = analysis
        .name_components
        .iter()
        .map(|c| (c.component.clone(), c.source.clone()))
        .collect();
    let expected: Vec<(String, String)> = [
        ("BHS", "Template prefix (button_head_screw)"),
        ("SS188", "Material"),
        ("1/4x20", "Thread Size"),
        ("0.75", "Length"),
        ("HEX", "Drive Style"),
    ]
    .iter()
    .map(|(a, b)| (a.to_string(), b.to_string()))
    .collect();
    assert_eq!(components, expected);
    assert!(analysis.name_components.iter().all(|c| c.original_value.is_none()));
    assert_eq!(
        analysis.suggestions,
        strings(&[
            "🔍 Missing expected specifications: Finish",
            "   → These specs might be named differently in the API",
            "   → Consider adding aliases to the template",
            "📋 Unmapped specifications available: Head Diameter",
            "   → These could be added to the template for more detailed names",
        ])
    );
}

#[test]
fn analysis_without_template() {
    let analyzer = PartAnalyzer::new();
    let product = ProductDetail {
        part_number: "5234K57".to_string(),
        detail_description: String::new(),
        family_description: "Rubber Tubing".to_string(),
        product_category: "Tubing".to_string(),
        product_status: "Active".to_string(),
        specifications: vec![spec("Material", "Rubber")],
    };
    let analysis = analyzer.analyze_part(&product, false, false);
    assert_eq!(analysis.detected_type, "unknown");
    assert_eq!(analysis.template_used, None);
    assert!(analysis.template_specs.is_empty());
    assert!(analysis.missing_specs.is_empty());
    assert_eq!(analysis.unmapped_specs, strings(&["Material"]));
    assert_eq!(analysis.generated_name, "RUBBER-TUBING-5234K57");
    assert_eq!(analysis.suggested_name, None);
    assert_eq!(analysis.name_components.len(), 1);
    assert_eq!(analysis.name_components[0].component, "RUBBER-TUBING-5234K57");
    assert_eq!(analysis.name_components[0].source, "Unknown template");
    assert_eq!(
        analysis.suggestions,
        strings(&["⚠️  No template found for this part type. Consider adding a new template."])
    );
}

#[test]
fn finish_is_suggested_by_material() {
    let analyzer = PartAnalyzer::new();
    assert_eq!(analyzer.suggest_finish_for_material(&screw("316 Stainless Steel")), Some("PASS".to_string()));
    assert_eq!(analyzer.suggest_finish_for_material(&screw("Alloy STEEL")), Some("ZP".to_string()));
    assert_eq!(analyzer.suggest_finish_for_material(&screw("Brass")), Some("UNFINISHED".to_string()));
    assert_eq!(analyzer.suggest_finish_for_material(&screw("6061 Aluminum")), Some("CLEAR".to_string()));
    assert_eq!(analyzer.suggest_finish_for_material(&screw("Nylon")), Some("?".to_string()));
    let mut two = screw("Nylon");
    two.specifications.push(spec("material", "Brass"));
    assert_eq!(analyzer.suggest_finish_for_material(&two), Some("?".to_string()));
    two.specifications.push(spec("Material", "Brass"));
    assert_eq!(analyzer.suggest_finish_for_material(&two), Some("UNFINISHED".to_string()));
    assert_eq!(finish_for_material("stainless steel"), Some("PASS".to_string()));
    assert_eq!(finish_for_material("Stainless Steel"), None);
    let suggested = analyzer.analyze_part(&screw("Zinc Plated Steel"), false, false).suggested_name;
    assert_eq!(suggested, None);
    let suggested = analyzer.analyze_part(&screw("Nylon"), false, false).suggested_name;
    assert_eq!(suggested, Some("BHS-Nylon-1/4x20-0.75-HEX-?".to_string()));
}

#[test]
fn fields_are_found_letter_for_letter() {
    let analyzer = PartAnalyzer::new();
    let mut aliases: Table<Vec<String>> = Table::new();
    aliases.insert("Thread Size".to_string(), strings(&["Thread (A) Size", "Thread (B) Size"]));
    let template = NamingTemplate::new("X", vec!["Material", "Thread Size"]).with_aliases(aliases);
    let mut product = screw("Brass");
    product.specifications[1].attribute = "Thread (B) Size".to_string();
    assert_eq!(analyzer.find_spec_in_product("Thread Size", &product, &template), Some("1/4-20".to_string()));
    assert_eq!(analyzer.find_spec_in_product("Material", &product, &template), Some("Brass".to_string()));
    assert_eq!(analyzer.find_spec_in_product("material", &product, &template), None);
    assert_eq!(analyzer.find_spec_in_product("Finish", &product, &template), None);
    product.specifications[0].values.clear();
    assert_eq!(analyzer.find_spec_in_product("Material", &product, &template), None);
    assert!(analyzer.is_spec_mapped("Material", &template));
    assert!(analyzer.is_spec_mapped("Thread Size", &template));
    assert!(analyzer.is_spec_mapped("Thread (B) Size", &template));
    assert!(!analyzer.is_spec_mapped("thread size", &template));
    assert!(!analyzer.is_spec_mapped("Length", &template));
}

#[test]
fn names_break_down_by_position() {
    let analyzer = PartAnalyzer::new();
    let template = NamingTemplate::new("X", vec!["Material"]);
    let components = analyzer.breakdown_name("X-AL-0.5-ZP", "thing", Some(&template));
    let sources: Vec<&str> = components.iter().map(|c| c.source.as_str()).collect();
    assert_eq!(sources, vec!["Template prefix (thing)", "Material", "Unknown spec 2", "Unknown spec 3"]);
    let parts: Vec<&str> = components.iter().map(|c| c.component.as_str()).collect();
    assert_eq!(parts, vec!["X", "AL", "0.5", "ZP"]);
    let whole = analyzer.breakdown_name("A-B", "thing", None);
    assert_eq!(whole.len(), 1);
    assert_eq!(whole[0].component, "A-B");
    let empty = analyzer.breakdown_name("", "thing", Some(&template));
    assert_eq!(empty.len(), 1);
    assert_eq!(empty[0].component, "");
}

#[test]
fn suggestions_follow_the_findings() {
    let none: Vec<String> = vec![];
    assert_eq!(
        suggestions_from(true, "hex nut", &none, &none),
        strings(&["✅ Template uses all available key specifications"])
    );
    assert_eq!(
        suggestions_from(true, "stainless steel hex nut", &none, &strings(&["Finish", "Thread Size"])),
        strings(&[
            "🔍 Missing expected specifications: Finish, Thread Size",
            "   → These specs might be named differently in the API",
            "   → Consider adding aliases to the template",
            "💡 Stainless steel parts often have finish embedded in material",
        ])
    );
    assert_eq!(suggestions_from(true, "stainless", &strings(&["A"]), &none).len(), 2);
    assert_eq!(suggestions_from(false, "stainless", &strings(&["A"]), &strings(&["B"])).len(), 1);
}

#[test]
fn report_for_people() {
    let analyzer = PartAnalyzer::with_generator(NameGenerator::new());
    let analysis = analyzer.analyze_part(&screw("18-8 Stainless Steel"), true, true);
    let expected = "🔍 Part Analysis: 91251A540\n\n\
📦 Product Info:\n   Category: Screws\n   Family: Button Head Socket Cap Screw\n   Detected Type: button_head_screw\n\n\
📋 Specifications (5 found):\n\
\x20  ✓ Material: 18-8 Stainless Steel → (used in name)\n\
\x20  ✓ Thread Size: 1/4-20 → (used in name)\n\
\x20  ✓ Length: 3/4\" → (used in name)\n\
\x20  ✓ Drive Style: Hex → (used in name)\n\
\x20  ✗ Head Diameter: 0.437\" → (not used)\n\n\
🏷️  Template: button_head_screw \n   Expected: [Material, Thread Size, Length, Drive Style, Finish]\n\n\
🔧 Generated Name: BHS-SS188-1/4x20-0.75-HEX\n\
💡 Suggested Name with Finish: BHS-SS188-1/4x20-0.75-HEX-PASS\n\
\x20  Components:\n\
\x20  - BHS: Template prefix (button_head_screw)\n\
\x20  - SS188: Material\n\
\x20  - 1/4x20: Thread Size\n\
\x20  - 0.75: Length\n\
\x20  - HEX: Drive Style\n\n\
💡 Suggestions:\n\
\x20  🔍 Missing expected specifications: Finish\n\
\x20     → These specs might be named differently in the API\n\
\x20     → Consider adding aliases to the template\n\
\x20  📋 Unmapped specifications available: Head Diameter\n\
\x20     → These could be added to the template for more detailed names\n";
    assert_eq!(analyzer.format_human(&analysis, true, true), expected);
    let short = analyzer.format_human(&analysis, false, true);
    assert!(!short.contains("Template:"));
    assert!(short.contains("(5 found):"));
}

#[test]
fn report_lists_aliases() {
    let analyzer = PartAnalyzer::new();
    let product = ProductDetail {
        part_number: "92510A029".to_string(),
        detail_description: String::new(),
        family_description: "Aluminum Unthreaded Spacer".to_string(),
        product_category: "Spacers".to_string(),
        product_status: "Active".to_string(),
        specifications: vec![spec("Material", "Aluminum"), spec("For Screw Size", "No. 4")],
    };
    let analysis = analyzer.analyze_part(&product, true, true);
    assert_eq!(analysis.detected_type, "aluminum_unthreaded_spacer");
    assert_eq!(analysis.generated_name, "ASP-AL-No. 4");
    assert_eq!(analysis.spec_aliases.len(), 1);
    let report = analyzer.format_human(&analysis, true, true);
    assert!(report.contains("   Aliases:\n   - For Screw Size: For Screw Size, For Screw Size\n\n"));
    let report = analyzer.format_human(&analysis, true, false);
    assert!(!report.contains("Aliases"));
    let unknown = ProductDetail { family_description: "Tubing".to_string(), ..product };
    let analysis = analyzer.analyze_part(&unknown, true, true);
    assert!(analyzer.format_human(&analysis, true, true).contains("🏷️  Template: None found\n\n"));
}
