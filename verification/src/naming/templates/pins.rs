//! Pin and shaft collar naming templates.

use crate::naming::generator::{all_well_formed, register, template_of, NamingTemplate, TemplateView};
use crate::naming::table::{lemma_push_keeps_keys, lookup, Table};
use crate::text::slices;
use std::sync::Arc;
use vstd::prelude::*;

verus! {

/// The fields of a clevis pin.
pub open spec fn clevis_pin_fields() -> Seq<Seq<char>> {
    seq![
        "Material"@,
        "Diameter"@,
        "Usable Length"@,
        "Finish"@,
    ]
}

/// The fields of a clevis pin.
fn clevis_pin_field_names() -> (r: Vec<&'static str>)
    ensures
        slices(r@) == clevis_pin_fields(),
        r.len() > 0,
{
    let r = vec!["Material", "Diameter", "Usable Length", "Finish"];
    assert(slices(r@) =~= clevis_pin_fields());
    r
}

/// The fields of a shaft collar.
pub open spec fn shaft_collar_fields() -> Seq<Seq<char>> {
    seq![
        "Material"@,
        "For Shaft Diameter"@,
        "OD"@,
        "Width"@,
        "Finish"@,
    ]
}

/// The fields of a shaft collar.
fn shaft_collar_field_names() -> (r: Vec<&'static str>)
    ensures
        slices(r@) == shaft_collar_fields(),
        r.len() > 0,
{
    let r = vec!["Material", "For Shaft Diameter", "OD", "Width", "Finish"];
    assert(slices(r@) =~= shaft_collar_fields());
    r
}

/// The dictionary of the pin templates: materials, steel grades, finishes and end types.
pub open spec fn pin_abbreviations() -> Seq<(Seq<char>, Seq<char>)> {
    Seq::<(Seq<char>, Seq<char>)>::empty()
        .push(("316 Stainless Steel"@, "SS316"@))
        .push(("18-8 Stainless Steel"@, "SS188"@))
        .push(("Stainless Steel"@, "SS"@))
        .push(("Steel"@, "S"@))
        .push(("Alloy Steel"@, "S"@))
        .push(("Brass"@, "Brass"@))
        .push(("Aluminum"@, "AL"@))
        .push(("Titanium"@, "TI"@))
        .push(("Grade 1 Steel"@, "SG1"@))
        .push(("Grade 2 Steel"@, "SG2"@))
        .push(("Grade 5 Steel"@, "SG5"@))
        .push(("Grade 8 Steel"@, "SG8"@))
        .push(("8.8 Steel"@, "S8.8"@))
        .push(("10.9 Steel"@, "S10.9"@))
        .push(("12.9 Steel"@, "S12.9"@))
        .push(("Zinc Plated"@, "ZP"@))
        .push(("Zinc-Plated"@, "ZP"@))
        .push(("Zinc Yellow-Chromate Plated"@, "ZYC"@))
        .push(("Zinc Yellow Chromate Plated"@, "ZYC"@))
        .push(("Black Oxide"@, "BO"@))
        .push(("Black-Oxide"@, "BO"@))
        .push(("Cadmium Plated"@, "CD"@))
        .push(("Cadmium-Plated"@, "CD"@))
        .push(("Nickel Plated"@, "NI"@))
        .push(("Nickel-Plated"@, "NI"@))
        .push(("Chrome Plated"@, "CR"@))
        .push(("Chrome-Plated"@, "CR"@))
        .push(("Galvanized"@, "GAL"@))
        .push(("Retaining Ring Groove"@, "RRG"@))
        .push(("Plain"@, ""@))
}

/// Builds the dictionary that the templates of this family share.
fn create_pin_abbreviations() -> (abbrevs: Table<String>)
    ensures
        abbrevs@ == pin_abbreviations(),
{
    let mut abbrevs: Table<String> = Table::new();
    abbrevs.put("316 Stainless Steel", "SS316");
    abbrevs.put("18-8 Stainless Steel", "SS188");
    abbrevs.put("Stainless Steel", "SS");
    abbrevs.put("Steel", "S");
    abbrevs.put("Alloy Steel", "S");
    abbrevs.put("Brass", "Brass");
    abbrevs.put("Aluminum", "AL");
    abbrevs.put("Titanium", "TI");
    abbrevs.put("Grade 1 Steel", "SG1");
    abbrevs.put("Grade 2 Steel", "SG2");
    abbrevs.put("Grade 5 Steel", "SG5");
    abbrevs.put("Grade 8 Steel", "SG8");
    abbrevs.put("8.8 Steel", "S8.8");
    abbrevs.put("10.9 Steel", "S10.9");
    abbrevs.put("12.9 Steel", "S12.9");
    abbrevs.put("Zinc Plated", "ZP");
    abbrevs.put("Zinc-Plated", "ZP");
    abbrevs.put("Zinc Yellow-Chromate Plated", "ZYC");
    abbrevs.put("Zinc Yellow Chromate Plated", "ZYC");
    abbrevs.put("Black Oxide", "BO");
    abbrevs.put("Black-Oxide", "BO");
    abbrevs.put("Cadmium Plated", "CD");
    abbrevs.put("Cadmium-Plated", "CD");
    abbrevs.put("Nickel Plated", "NI");
    abbrevs.put("Nickel-Plated", "NI");
    abbrevs.put("Chrome Plated", "CR");
    abbrevs.put("Chrome-Plated", "CR");
    abbrevs.put("Galvanized", "GAL");
    abbrevs.put("Retaining Ring Groove", "RRG");
    abbrevs.put("Plain", "");
    abbrevs
}

/// The dictionary of the shaft collar templates: that of the pins and two more materials.
pub open spec fn shaft_collar_abbreviations() -> Seq<(Seq<char>, Seq<char>)> {
    pin_abbreviations()
        .push(("303 Stainless Steel"@, "SS303"@))
        .push(("1215 Carbon Steel"@, "1215S"@))
}

/// Builds the dictionary that the shaft collar templates share.
fn create_shaft_collar_abbreviations() -> (abbrevs: Table<String>)
    ensures
        abbrevs@ == shaft_collar_abbreviations(),
{
    let mut abbrevs = create_pin_abbreviations();
    abbrevs.put("303 Stainless Steel", "SS303");
    abbrevs.put("1215 Carbon Steel", "1215S");
    abbrevs
}

/// A registry with the pin and shaft collar templates registered after its own.
pub open spec fn with_pin_templates(registry: Seq<(Seq<char>, TemplateView)>) -> Seq<
    (Seq<char>, TemplateView),
> {
    registry
        .push(("clevis_pin"@, template_of("CP"@, clevis_pin_fields(), None, pin_abbreviations())))
        .push(("clevis_pin_with_retaining_ring_groove"@, template_of("CPRRG"@, clevis_pin_fields(), None, pin_abbreviations())))
        .push(("generic_pin"@, template_of("PIN"@, clevis_pin_fields(), None, pin_abbreviations())))
        .push(("face_mount_shaft_collar"@, template_of("FMSC"@, shaft_collar_fields(), None, shaft_collar_abbreviations())))
        .push(("flange_mount_shaft_collar"@, template_of("FLSC"@, shaft_collar_fields(), None, shaft_collar_abbreviations())))
        .push(("generic_shaft_collar"@, template_of("SC"@, shaft_collar_fields(), None, shaft_collar_abbreviations())))
}

/// Registers every pin and shaft collar template; the pins share one
/// dictionary and the collars another.
pub fn initialize_pin_templates(category_templates: &mut Table<NamingTemplate>)
    ensures
        final(category_templates)@ == with_pin_templates(old(category_templates)@),
        all_well_formed(old(category_templates)@) ==> all_well_formed(final(category_templates)@),
{
    let pin_abbrevs = Arc::new(create_pin_abbreviations());
    let collar_abbrevs = Arc::new(create_shaft_collar_abbreviations());
    proof {
        reveal_strlit("CP");
    }
    register(
        category_templates,
        "clevis_pin",
        "CP",
        clevis_pin_field_names(),
        None,
        &pin_abbrevs,
    );
    proof {
        reveal_strlit("CPRRG");
    }
    register(
        category_templates,
        "clevis_pin_with_retaining_ring_groove",
        "CPRRG",
        clevis_pin_field_names(),
        None,
        &pin_abbrevs,
    );
    proof {
        reveal_strlit("PIN");
    }
    register(
        category_templates,
        "generic_pin",
        "PIN",
        clevis_pin_field_names(),
        None,
        &pin_abbrevs,
    );
    proof {
        reveal_strlit("FMSC");
    }
    register(
        category_templates,
        "face_mount_shaft_collar",
        "FMSC",
        shaft_collar_field_names(),
        None,
        &collar_abbrevs,
    );
    proof {
        reveal_strlit("FLSC");
    }
    register(
        category_templates,
        "flange_mount_shaft_collar",
        "FLSC",
        shaft_collar_field_names(),
        None,
        &collar_abbrevs,
    );
    proof {
        reveal_strlit("SC");
    }
    register(
        category_templates,
        "generic_shaft_collar",
        "SC",
        shaft_collar_field_names(),
        None,
        &collar_abbrevs,
    );
}

/// What was registered stays registered, and every key of this step is
/// registered after it.
pub proof fn lemma_with_pin_templates_keys(
    registry: Seq<(Seq<char>, TemplateView)>,
)
    ensures
        forall|key: Seq<char>|
            lookup(registry, key) is Some ==> (#[trigger] lookup(with_pin_templates(registry), key)) is Some,
        lookup(with_pin_templates(registry), "clevis_pin"@) is Some,
        lookup(with_pin_templates(registry), "clevis_pin_with_retaining_ring_groove"@) is Some,
        lookup(with_pin_templates(registry), "generic_pin"@) is Some,
        lookup(with_pin_templates(registry), "face_mount_shaft_collar"@) is Some,
        lookup(with_pin_templates(registry), "flange_mount_shaft_collar"@) is Some,
        lookup(with_pin_templates(registry), "generic_shaft_collar"@) is Some,
{
    lemma_push_keeps_keys::<TemplateView>();
}

} // verus!
