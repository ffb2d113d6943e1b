//! Screw naming templates.

use crate::naming::generator::{all_well_formed, register, template_of, NamingTemplate, TemplateView};
use crate::naming::table::{lemma_push_keeps_keys, lookup, Table};
use crate::text::slices;
use std::sync::Arc;
use vstd::prelude::*;

verus! {

/// The fields of a screw whose drive is named.
pub open spec fn driven_screw_fields() -> Seq<Seq<char>> {
    seq![
        "Material"@,
        "Thread Size"@,
        "Length"@,
        "Drive Style"@,
        "Finish"@,
    ]
}

/// The fields of a screw whose drive is named.
fn driven_screw_field_names() -> (r: Vec<&'static str>)
    ensures
        slices(r@) == driven_screw_fields(),
        r.len() > 0,
{
    let r = vec!["Material", "Thread Size", "Length", "Drive Style", "Finish"];
    assert(slices(r@) =~= driven_screw_fields());
    r
}

/// The fields of a screw whose drive is not named.
pub open spec fn plain_screw_fields() -> Seq<Seq<char>> {
    seq![
        "Material"@,
        "Thread Size"@,
        "Length"@,
        "Finish"@,
    ]
}

/// The fields of a screw whose drive is not named.
fn plain_screw_field_names() -> (r: Vec<&'static str>)
    ensures
        slices(r@) == plain_screw_fields(),
        r.len() > 0,
{
    let r = vec!["Material", "Thread Size", "Length", "Finish"];
    assert(slices(r@) =~= plain_screw_fields());
    r
}

/// The dictionary of the screw templates: materials, steel grades, finishes and drive styles.
pub open spec fn screw_abbreviations() -> Seq<(Seq<char>, Seq<char>)> {
    Seq::<(Seq<char>, Seq<char>)>::empty()
        .push(("316 Stainless Steel"@, "SS316"@))
        .push(("18-8 Stainless Steel"@, "SS188"@))
        .push(("Stainless Steel"@, "SS"@))
        .push(("Steel"@, "S"@))
        .push(("Alloy Steel"@, "S"@))
        .push(("Brass"@, "Brass"@))
        .push(("Aluminum"@, "AL"@))
        .push(("Nylon"@, "Nylon"@))
        .push(("Plastic"@, "Plastic"@))
        .push(("Grade 1 Steel"@, "SG1"@))
        .push(("Grade 2 Steel"@, "SG2"@))
        .push(("Grade 5 Steel"@, "SG5"@))
        .push(("Grade 8 Steel"@, "SG8"@))
        .push(("8.8 Steel"@, "S8.8"@))
        .push(("10.9 Steel"@, "S10.9"@))
        .push(("12.9 Steel"@, "S12.9"@))
        .push(("Grade 1 Alloy Steel"@, "SG1"@))
        .push(("Grade 2 Alloy Steel"@, "SG2"@))
        .push(("Grade 5 Alloy Steel"@, "SG5"@))
        .push(("Grade 8 Alloy Steel"@, "SG8"@))
        .push(("8.8 Alloy Steel"@, "S8.8"@))
        .push(("10.9 Alloy Steel"@, "S10.9"@))
        .push(("12.9 Alloy Steel"@, "S12.9"@))
        .push(("Zinc Plated"@, "ZP"@))
        .push(("Zinc-Plated"@, "ZP"@))
        .push(("Zinc Yellow-Chromate Plated"@, "ZYC"@))
        .push(("Zinc Yellow Chromate Plated"@, "ZYC"@))
        .push(("Black Oxide"@, "BO"@))
        .push(("Black-Oxide"@, "BO"@))
        .push(("Cadmium Plated"@, "CD"@))
        .push(("Cadmium-Plated"@, "CD"@))
        .push(("Nickel Plated"@, "NI"@))
        .push(("Nickel-Plated"@, "NI"@))
        .push(("Chrome Plated"@, "CR"@))
        .push(("Chrome-Plated"@, "CR"@))
        .push(("Galvanized"@, "GAL"@))
        .push(("External Hex"@, "EHEX"@))
        .push(("Hex"@, "HEX"@))
        .push(("Phillips"@, "PH"@))
        .push(("Torx"@, "TX"@))
        .push(("Torx Plus"@, "TXP"@))
        .push(("Slotted"@, "SL"@))
        .push(("Square"@, "SQUARE"@))
        .push(("Tamper-Resistant Hex"@, "TRHEX"@))
        .push(("Tamper-Resistant Torx"@, "TRTX"@))
        .push(("Pozidriv®"@, "PZ"@))
        .push(("Pozidriv"@, "PZ"@))
        .push(("6-Lobe"@, "6L"@))
        .push(("12-Point"@, "12PT"@))
        .push(("Double Hex"@, "DHEX"@))
        .push(("Splined"@, "SPL"@))
        .push(("Triangle"@, "TRI"@))
        .push(("Spline"@, "SP"@))
        .push(("Clutch"@, "CLU"@))
        .push(("One-Way"@, "1WAY"@))
        .push(("Pin-in-Torx"@, "PINTX"@))
        .push(("Pin Hex"@, "PINHEX"@))
}

/// Builds the dictionary that every template of this family shares.
fn create_screw_abbreviations() -> (abbrevs: Table<String>)
    ensures
        abbrevs@ == screw_abbreviations(),
{
    let mut abbrevs: Table<String> = Table::new();
    abbrevs.put("316 Stainless Steel", "SS316");
    abbrevs.put("18-8 Stainless Steel", "SS188");
    abbrevs.put("Stainless Steel", "SS");
    abbrevs.put("Steel", "S");
    abbrevs.put("Alloy Steel", "S");
    abbrevs.put("Brass", "Brass");
    abbrevs.put("Aluminum", "AL");
    abbrevs.put("Nylon", "Nylon");
    abbrevs.put("Plastic", "Plastic");
    abbrevs.put("Grade 1 Steel", "SG1");
    abbrevs.put("Grade 2 Steel", "SG2");
    abbrevs.put("Grade 5 Steel", "SG5");
    abbrevs.put("Grade 8 Steel", "SG8");
    abbrevs.put("8.8 Steel", "S8.8");
    abbrevs.put("10.9 Steel", "S10.9");
    abbrevs.put("12.9 Steel", "S12.9");
    abbrevs.put("Grade 1 Alloy Steel", "SG1");
    abbrevs.put("Grade 2 Alloy Steel", "SG2");
    abbrevs.put("Grade 5 Alloy Steel", "SG5");
    abbrevs.put("Grade 8 Alloy Steel", "SG8");
    abbrevs.put("8.8 Alloy Steel", "S8.8");
    abbrevs.put("10.9 Alloy Steel", "S10.9");
    abbrevs.put("12.9 Alloy Steel", "S12.9");
    abbrevs.put("Zinc Plated", "ZP");
    abbrevs.put("Zinc-Plated", "ZP");
    abbrevs.put("Zinc Yellow-Chromate Plated", "ZYC");
    abbrevs.put("Zinc Yellow Chromate Plated", "ZYC");
    abbrevs.put("Black Oxide", "BO");
    abbrevs.put("Black-Oxide", "BO");
    abbrevs.put("Cadmium Plated", "CD");
    abbrevs.put("Cadmium-Plated", "CD");
    abbrevs.put("Nickel Plated", "NI");
    abbrevs.put("Nickel-Plated", "NI");
    abbrevs.put("Chrome Plated", "CR");
    abbrevs.put("Chrome-Plated", "CR");
    abbrevs.put("Galvanized", "GAL");
    abbrevs.put("External Hex", "EHEX");
    abbrevs.put("Hex", "HEX");
    abbrevs.put("Phillips", "PH");
    abbrevs.put("Torx", "TX");
    abbrevs.put("Torx Plus", "TXP");
    abbrevs.put("Slotted", "SL");
    abbrevs.put("Square", "SQUARE");
    abbrevs.put("Tamper-Resistant Hex", "TRHEX");
    abbrevs.put("Tamper-Resistant Torx", "TRTX");
    abbrevs.put("Pozidriv®", "PZ");
    abbrevs.put("Pozidriv", "PZ");
    abbrevs.put("6-Lobe", "6L");
    abbrevs.put("12-Point", "12PT");
    abbrevs.put("Double Hex", "DHEX");
    abbrevs.put("Splined", "SPL");
    abbrevs.put("Triangle", "TRI");
    abbrevs.put("Spline", "SP");
    abbrevs.put("Clutch", "CLU");
    abbrevs.put("One-Way", "1WAY");
    abbrevs.put("Pin-in-Torx", "PINTX");
    abbrevs.put("Pin Hex", "PINHEX");
    abbrevs
}

/// A registry with the button head screw template registered after its own.
pub open spec fn with_button_head_screws(
    registry: Seq<(Seq<char>, TemplateView)>,
    abbreviations: Seq<(Seq<char>, Seq<char>)>,
) -> Seq<(Seq<char>, TemplateView)> {
    registry
        .push(("button_head_screw"@, template_of("BHS"@, driven_screw_fields(), None, abbreviations)))
}

/// Registers the button head screw template.
pub fn initialize_button_head_screws(
    category_templates: &mut Table<NamingTemplate>,
    abbrevs: &Arc<Table<String>>,
)
    ensures
        final(category_templates)@ == with_button_head_screws(old(category_templates)@, abbrevs@),
        all_well_formed(old(category_templates)@) ==> all_well_formed(final(category_templates)@),
{
    proof {
        reveal_strlit("BHS");
    }
    register(
        category_templates,
        "button_head_screw",
        "BHS",
        driven_screw_field_names(),
        None,
        abbrevs,
    );
}

/// What was registered stays registered, and every key of this step is
/// registered after it.
pub proof fn lemma_with_button_head_screws_keys(
    registry: Seq<(Seq<char>, TemplateView)>,
    abbreviations: Seq<(Seq<char>, Seq<char>)>,
)
    ensures
        forall|key: Seq<char>|
            lookup(registry, key) is Some ==> (#[trigger] lookup(with_button_head_screws(registry, abbreviations), key)) is Some,
        lookup(with_button_head_screws(registry, abbreviations), "button_head_screw"@) is Some,
{
    lemma_push_keeps_keys::<TemplateView>();
}

/// A registry with the socket head screw templates registered after its own.
pub open spec fn with_socket_head_screws(
    registry: Seq<(Seq<char>, TemplateView)>,
    abbreviations: Seq<(Seq<char>, Seq<char>)>,
) -> Seq<(Seq<char>, TemplateView)> {
    registry
        .push(("socket_head_screw"@, template_of("SHS"@, driven_screw_fields(), None, abbreviations)))
        .push(("high_socket_head_screw"@, template_of("HSHS"@, driven_screw_fields(), None, abbreviations)))
        .push(("low_socket_head_screw"@, template_of("LSHS"@, driven_screw_fields(), None, abbreviations)))
        .push(("ultra_low_socket_head_screw"@, template_of("ULSHS"@, driven_screw_fields(), None, abbreviations)))
        .push(("standard_socket_head_screw"@, template_of("SSHS"@, driven_screw_fields(), None, abbreviations)))
}

/// Registers the socket head screw templates.
pub fn initialize_socket_head_screws(
    category_templates: &mut Table<NamingTemplate>,
    abbrevs: &Arc<Table<String>>,
)
    ensures
        final(category_templates)@ == with_socket_head_screws(old(category_templates)@, abbrevs@),
        all_well_formed(old(category_templates)@) ==> all_well_formed(final(category_templates)@),
{
    proof {
        reveal_strlit("SHS");
    }
    register(
        category_templates,
        "socket_head_screw",
        "SHS",
        driven_screw_field_names(),
        None,
        abbrevs,
    );
    proof {
        reveal_strlit("HSHS");
    }
    register(
        category_templates,
        "high_socket_head_screw",
        "HSHS",
        driven_screw_field_names(),
        None,
        abbrevs,
    );
    proof {
        reveal_strlit("LSHS");
    }
    register(
        category_templates,
        "low_socket_head_screw",
        "LSHS",
        driven_screw_field_names(),
        None,
        abbrevs,
    );
    proof {
        reveal_strlit("ULSHS");
    }
    register(
        category_templates,
        "ultra_low_socket_head_screw",
        "ULSHS",
        driven_screw_field_names(),
        None,
        abbrevs,
    );
    proof {
        reveal_strlit("SSHS");
    }
    register(
        category_templates,
        "standard_socket_head_screw",
        "SSHS",
        driven_screw_field_names(),
        None,
        abbrevs,
    );
}

/// What was registered stays registered, and every key of this step is
/// registered after it.
pub proof fn lemma_with_socket_head_screws_keys(
    registry: Seq<(Seq<char>, TemplateView)>,
    abbreviations: Seq<(Seq<char>, Seq<char>)>,
)
    ensures
        forall|key: Seq<char>|
            lookup(registry, key) is Some ==> (#[trigger] lookup(with_socket_head_screws(registry, abbreviations), key)) is Some,
        lookup(with_socket_head_screws(registry, abbreviations), "socket_head_screw"@) is Some,
        lookup(with_socket_head_screws(registry, abbreviations), "high_socket_head_screw"@) is Some,
        lookup(with_socket_head_screws(registry, abbreviations), "low_socket_head_screw"@) is Some,
        lookup(with_socket_head_screws(registry, abbreviations), "ultra_low_socket_head_screw"@) is Some,
        lookup(with_socket_head_screws(registry, abbreviations), "standard_socket_head_screw"@) is Some,
{
    lemma_push_keeps_keys::<TemplateView>();
}

/// A registry with the flat head screw templates registered after its own.
pub open spec fn with_flat_head_screws(
    registry: Seq<(Seq<char>, TemplateView)>,
    abbreviations: Seq<(Seq<char>, Seq<char>)>,
) -> Seq<(Seq<char>, TemplateView)> {
    registry
        .push(("flat_head_screw"@, template_of("FHS"@, driven_screw_fields(), None, abbreviations)))
        .push(("narrow_flat_head_screw"@, template_of("NFHS"@, driven_screw_fields(), None, abbreviations)))
        .push(("standard_flat_head_screw"@, template_of("SFHS"@, driven_screw_fields(), None, abbreviations)))
        .push(("undercut_flat_head_screw"@, template_of("UFHS"@, driven_screw_fields(), None, abbreviations)))
        .push(("wide_flat_head_screw"@, template_of("WFHS"@, driven_screw_fields(), None, abbreviations)))
}

/// Registers the flat head screw templates.
pub fn initialize_flat_head_screws(
    category_templates: &mut Table<NamingTemplate>,
    abbrevs: &Arc<Table<String>>,
)
    ensures
        final(category_templates)@ == with_flat_head_screws(old(category_templates)@, abbrevs@),
        all_well_formed(old(category_templates)@) ==> all_well_formed(final(category_templates)@),
{
    proof {
        reveal_strlit("FHS");
    }
    register(
        category_templates,
        "flat_head_screw",
        "FHS",
        driven_screw_field_names(),
        None,
        abbrevs,
    );
    proof {
        reveal_strlit("NFHS");
    }
    register(
        category_templates,
        "narrow_flat_head_screw",
        "NFHS",
        driven_screw_field_names(),
        None,
        abbrevs,
    );
    proof {
        reveal_strlit("SFHS");
    }
    register(
        category_templates,
        "standard_flat_head_screw",
        "SFHS",
        driven_screw_field_names(),
        None,
        abbrevs,
    );
    proof {
        reveal_strlit("UFHS");
    }
    register(
        category_templates,
        "undercut_flat_head_screw",
        "UFHS",
        driven_screw_field_names(),
        None,
        abbrevs,
    );
    proof {
        reveal_strlit("WFHS");
    }
    register(
        category_templates,
        "wide_flat_head_screw",
        "WFHS",
        driven_screw_field_names(),
        None,
        abbrevs,
    );
}

/// What was registered stays registered, and every key of this step is
/// registered after it.
pub proof fn lemma_with_flat_head_screws_keys(
    registry: Seq<(Seq<char>, TemplateView)>,
    abbreviations: Seq<(Seq<char>, Seq<char>)>,
)
    ensures
        forall|key: Seq<char>|
            lookup(registry, key) is Some ==> (#[trigger] lookup(with_flat_head_screws(registry, abbreviations), key)) is Some,
        lookup(with_flat_head_screws(registry, abbreviations), "flat_head_screw"@) is Some,
        lookup(with_flat_head_screws(registry, abbreviations), "narrow_flat_head_screw"@) is Some,
        lookup(with_flat_head_screws(registry, abbreviations), "standard_flat_head_screw"@) is Some,
        lookup(with_flat_head_screws(registry, abbreviations), "undercut_flat_head_screw"@) is Some,
        lookup(with_flat_head_screws(registry, abbreviations), "wide_flat_head_screw"@) is Some,
{
    lemma_push_keeps_keys::<TemplateView>();
}

/// A registry with the templates of the other common heads and of the generic screw registered after its own.
pub open spec fn with_other_head_screws(
    registry: Seq<(Seq<char>, TemplateView)>,
    abbreviations: Seq<(Seq<char>, Seq<char>)>,
) -> Seq<(Seq<char>, TemplateView)> {
    registry
        .push(("pan_head_screw"@, template_of("PHS"@, driven_screw_fields(), None, abbreviations)))
        .push(("hex_head_screw"@, template_of("HHS"@, driven_screw_fields(), None, abbreviations)))
        .push(("rounded_head_screw"@, template_of("RHS"@, driven_screw_fields(), None, abbreviations)))
        .push(("generic_screw"@, template_of("SCREW"@, plain_screw_fields(), None, abbreviations)))
}

/// Registers the templates of the other common heads and of the generic screw.
pub fn initialize_other_head_screws(
    category_templates: &mut Table<NamingTemplate>,
    abbrevs: &Arc<Table<String>>,
)
    ensures
        final(category_templates)@ == with_other_head_screws(old(category_templates)@, abbrevs@),
        all_well_formed(old(category_templates)@) ==> all_well_formed(final(category_templates)@),
{
    proof {
        reveal_strlit("PHS");
    }
    register(
        category_templates,
        "pan_head_screw",
        "PHS",
        driven_screw_field_names(),
        None,
        abbrevs,
    );
    proof {
        reveal_strlit("HHS");
    }
    register(
        category_templates,
        "hex_head_screw",
        "HHS",
        driven_screw_field_names(),
        None,
        abbrevs,
    );
    proof {
        reveal_strlit("RHS");
    }
    register(
        category_templates,
        "rounded_head_screw",
        "RHS",
        driven_screw_field_names(),
        None,
        abbrevs,
    );
    proof {
        reveal_strlit("SCREW");
    }
    register(
        category_templates,
        "generic_screw",
        "SCREW",
        plain_screw_field_names(),
        None,
        abbrevs,
    );
}

/// What was registered stays registered, and every key of this step is
/// registered after it.
pub proof fn lemma_with_other_head_screws_keys(
    registry: Seq<(Seq<char>, TemplateView)>,
    abbreviations: Seq<(Seq<char>, Seq<char>)>,
)
    ensures
        forall|key: Seq<char>|
            lookup(registry, key) is Some ==> (#[trigger] lookup(with_other_head_screws(registry, abbreviations), key)) is Some,
        lookup(with_other_head_screws(registry, abbreviations), "pan_head_screw"@) is Some,
        lookup(with_other_head_screws(registry, abbreviations), "hex_head_screw"@) is Some,
        lookup(with_other_head_screws(registry, abbreviations), "rounded_head_screw"@) is Some,
        lookup(with_other_head_screws(registry, abbreviations), "generic_screw"@) is Some,
{
    lemma_push_keeps_keys::<TemplateView>();
}

/// A registry with the specialty screw templates registered after its own.
pub open spec fn with_specialty_screws(
    registry: Seq<(Seq<char>, TemplateView)>,
    abbreviations: Seq<(Seq<char>, Seq<char>)>,
) -> Seq<(Seq<char>, TemplateView)> {
    registry
        .push(("thumb_screw"@, template_of("THUMB"@, plain_screw_fields(), None, abbreviations)))
        .push(("eye_screw"@, template_of("EYE"@, plain_screw_fields(), None, abbreviations)))
        .push(("hook_screw"@, template_of("HOOK"@, plain_screw_fields(), None, abbreviations)))
}

/// Registers the specialty screw templates.
pub fn initialize_specialty_screws(
    category_templates: &mut Table<NamingTemplate>,
    abbrevs: &Arc<Table<String>>,
)
    ensures
        final(category_templates)@ == with_specialty_screws(old(category_templates)@, abbrevs@),
        all_well_formed(old(category_templates)@) ==> all_well_formed(final(category_templates)@),
{
    proof {
        reveal_strlit("THUMB");
    }
    register(
        category_templates,
        "thumb_screw",
        "THUMB",
        plain_screw_field_names(),
        None,
        abbrevs,
    );
    proof {
        reveal_strlit("EYE");
    }
    register(
        category_templates,
        "eye_screw",
        "EYE",
        plain_screw_field_names(),
        None,
        abbrevs,
    );
    proof {
        reveal_strlit("HOOK");
    }
    register(
        category_templates,
        "hook_screw",
        "HOOK",
        plain_screw_field_names(),
        None,
        abbrevs,
    );
}

/// What was registered stays registered, and every key of this step is
/// registered after it.
pub proof fn lemma_with_specialty_screws_keys(
    registry: Seq<(Seq<char>, TemplateView)>,
    abbreviations: Seq<(Seq<char>, Seq<char>)>,
)
    ensures
        forall|key: Seq<char>|
            lookup(registry, key) is Some ==> (#[trigger] lookup(with_specialty_screws(registry, abbreviations), key)) is Some,
        lookup(with_specialty_screws(registry, abbreviations), "thumb_screw"@) is Some,
        lookup(with_specialty_screws(registry, abbreviations), "eye_screw"@) is Some,
        lookup(with_specialty_screws(registry, abbreviations), "hook_screw"@) is Some,
{
    lemma_push_keeps_keys::<TemplateView>();
}

/// A registry with the templates of the less common heads registered after its own.
pub open spec fn with_further_head_screws(
    registry: Seq<(Seq<char>, TemplateView)>,
    abbreviations: Seq<(Seq<char>, Seq<char>)>,
) -> Seq<(Seq<char>, TemplateView)> {
    registry
        .push(("12_point_head_screw"@, template_of("12PHS"@, driven_screw_fields(), None, abbreviations)))
        .push(("binding_head_screw"@, template_of("BINDING"@, driven_screw_fields(), None, abbreviations)))
        .push(("carriage_head_screw"@, template_of("CARRIAGE"@, driven_screw_fields(), None, abbreviations)))
        .push(("cheese_head_screw"@, template_of("CHEESE"@, driven_screw_fields(), None, abbreviations)))
        .push(("domed_head_screw"@, template_of("DHS"@, driven_screw_fields(), None, abbreviations)))
        .push(("fillister_head_screw"@, template_of("FILLISTER"@, driven_screw_fields(), None, abbreviations)))
        .push(("headless_screw"@, template_of("HEADLESS"@, driven_screw_fields(), None, abbreviations)))
        .push(("oval_head_screw"@, template_of("OHS"@, driven_screw_fields(), None, abbreviations)))
        .push(("standard_oval_head_screw"@, template_of("SOHS"@, driven_screw_fields(), None, abbreviations)))
        .push(("undercut_oval_head_screw"@, template_of("UOHS"@, driven_screw_fields(), None, abbreviations)))
        .push(("pancake_head_screw"@, template_of("PANCAKE"@, driven_screw_fields(), None, abbreviations)))
        .push(("pentagon_head_screw"@, template_of("PENTHS"@, driven_screw_fields(), None, abbreviations)))
        .push(("round_head_screw"@, template_of("ROUND"@, driven_screw_fields(), None, abbreviations)))
        .push(("square_head_screw"@, template_of("SQHS"@, plain_screw_fields(), None, abbreviations)))
        .push(("truss_head_screw"@, template_of("TRUSS"@, driven_screw_fields(), None, abbreviations)))
}

/// Registers the templates of the less common heads.
pub fn initialize_further_head_screws(
    category_templates: &mut Table<NamingTemplate>,
    abbrevs: &Arc<Table<String>>,
)
    ensures
        final(category_templates)@ == with_further_head_screws(old(category_templates)@, abbrevs@),
        all_well_formed(old(category_templates)@) ==> all_well_formed(final(category_templates)@),
{
    proof {
        reveal_strlit("12PHS");
    }
    register(
        category_templates,
        "12_point_head_screw",
        "12PHS",
        driven_screw_field_names(),
        None,
        abbrevs,
    );
    proof {
        reveal_strlit("BINDING");
    }
    register(
        category_templates,
        "binding_head_screw",
        "BINDING",
        driven_screw_field_names(),
        None,
        abbrevs,
    );
    proof {
        reveal_strlit("CARRIAGE");
    }
    register(
        category_templates,
        "carriage_head_screw",
        "CARRIAGE",
        driven_screw_field_names(),
        None,
        abbrevs,
    );
    proof {
        reveal_strlit("CHEESE");
    }
    register(
        category_templates,
        "cheese_head_screw",
        "CHEESE",
        driven_screw_field_names(),
        None,
        abbrevs,
    );
    proof {
        reveal_strlit("DHS");
    }
    register(
        category_templates,
        "domed_head_screw",
        "DHS",
        driven_screw_field_names(),
        None,
        abbrevs,
    );
    proof {
        reveal_strlit("FILLISTER");
    }
    register(
        category_templates,
        "fillister_head_screw",
        "FILLISTER",
        driven_screw_field_names(),
        None,
        abbrevs,
    );
    proof {
        reveal_strlit("HEADLESS");
    }
    register(
        category_templates,
        "headless_screw",
        "HEADLESS",
        driven_screw_field_names(),
        None,
        abbrevs,
    );
    proof {
        reveal_strlit("OHS");
    }
    register(
        category_templates,
        "oval_head_screw",
        "OHS",
        driven_screw_field_names(),
        None,
        abbrevs,
    );
    proof {
        reveal_strlit("SOHS");
    }
    register(
        category_templates,
        "standard_oval_head_screw",
        "SOHS",
        driven_screw_field_names(),
        None,
        abbrevs,
    );
    proof {
        reveal_strlit("UOHS");
    }
    register(
        category_templates,
        "undercut_oval_head_screw",
        "UOHS",
        driven_screw_field_names(),
        None,
        abbrevs,
    );
    proof {
        reveal_strlit("PANCAKE");
    }
    register(
        category_templates,
        "pancake_head_screw",
        "PANCAKE",
        driven_screw_field_names(),
        None,
        abbrevs,
    );
    proof {
        reveal_strlit("PENTHS");
    }
    register(
        category_templates,
        "pentagon_head_screw",
        "PENTHS",
        driven_screw_field_names(),
        None,
        abbrevs,
    );
    proof {
        reveal_strlit("ROUND");
    }
    register(
        category_templates,
        "round_head_screw",
        "ROUND",
        driven_screw_field_names(),
        None,
        abbrevs,
    );
    proof {
        reveal_strlit("SQHS");
    }
    register(
        category_templates,
        "square_head_screw",
        "SQHS",
        plain_screw_field_names(),
        None,
        abbrevs,
    );
    proof {
        reveal_strlit("TRUSS");
    }
    register(
        category_templates,
        "truss_head_screw",
        "TRUSS",
        driven_screw_field_names(),
        None,
        abbrevs,
    );
}

/// What was registered stays registered, and every key of this step is
/// registered after it.
pub proof fn lemma_with_further_head_screws_keys(
    registry: Seq<(Seq<char>, TemplateView)>,
    abbreviations: Seq<(Seq<char>, Seq<char>)>,
)
    ensures
        forall|key: Seq<char>|
            lookup(registry, key) is Some ==> (#[trigger] lookup(with_further_head_screws(registry, abbreviations), key)) is Some,
        lookup(with_further_head_screws(registry, abbreviations), "12_point_head_screw"@) is Some,
        lookup(with_further_head_screws(registry, abbreviations), "binding_head_screw"@) is Some,
        lookup(with_further_head_screws(registry, abbreviations), "carriage_head_screw"@) is Some,
        lookup(with_further_head_screws(registry, abbreviations), "cheese_head_screw"@) is Some,
        lookup(with_further_head_screws(registry, abbreviations), "domed_head_screw"@) is Some,
        lookup(with_further_head_screws(registry, abbreviations), "fillister_head_screw"@) is Some,
        lookup(with_further_head_screws(registry, abbreviations), "headless_screw"@) is Some,
        lookup(with_further_head_screws(registry, abbreviations), "oval_head_screw"@) is Some,
        lookup(with_further_head_screws(registry, abbreviations), "standard_oval_head_screw"@) is Some,
        lookup(with_further_head_screws(registry, abbreviations), "undercut_oval_head_screw"@) is Some,
        lookup(with_further_head_screws(registry, abbreviations), "pancake_head_screw"@) is Some,
        lookup(with_further_head_screws(registry, abbreviations), "pentagon_head_screw"@) is Some,
        lookup(with_further_head_screws(registry, abbreviations), "round_head_screw"@) is Some,
        lookup(with_further_head_screws(registry, abbreviations), "square_head_screw"@) is Some,
        lookup(with_further_head_screws(registry, abbreviations), "truss_head_screw"@) is Some,
{
    lemma_push_keeps_keys::<TemplateView>();
}

/// A registry with the templates of the thumb screws by the shape of their head registered after its own.
pub open spec fn with_thumb_screws(
    registry: Seq<(Seq<char>, TemplateView)>,
    abbreviations: Seq<(Seq<char>, Seq<char>)>,
) -> Seq<(Seq<char>, TemplateView)> {
    registry
        .push(("four_arm_thumb_screw"@, template_of("4ARM"@, plain_screw_fields(), None, abbreviations)))
        .push(("hex_thumb_screw"@, template_of("HEXTHUMB"@, plain_screw_fields(), None, abbreviations)))
        .push(("multilobe_thumb_screw"@, template_of("MULTILOBE"@, plain_screw_fields(), None, abbreviations)))
        .push(("rectangle_thumb_screw"@, template_of("RECTTHUMB"@, plain_screw_fields(), None, abbreviations)))
        .push(("round_thumb_screw"@, template_of("ROUNDTHUMB"@, plain_screw_fields(), None, abbreviations)))
        .push(("spade_thumb_screw"@, template_of("SPADE"@, plain_screw_fields(), None, abbreviations)))
        .push(("two_arm_thumb_screw"@, template_of("2ARM"@, plain_screw_fields(), None, abbreviations)))
        .push(("wing_thumb_screw"@, template_of("WINGTHUMB"@, plain_screw_fields(), None, abbreviations)))
}

/// Registers the templates of the thumb screws by the shape of their head.
pub fn initialize_thumb_screws(
    category_templates: &mut Table<NamingTemplate>,
    abbrevs: &Arc<Table<String>>,
)
    ensures
        final(category_templates)@ == with_thumb_screws(old(category_templates)@, abbrevs@),
        all_well_formed(old(category_templates)@) ==> all_well_formed(final(category_templates)@),
{
    proof {
        reveal_strlit("4ARM");
    }
    register(
        category_templates,
        "four_arm_thumb_screw",
        "4ARM",
        plain_screw_field_names(),
        None,
        abbrevs,
    );
    proof {
        reveal_strlit("HEXTHUMB");
    }
    register(
        category_templates,
        "hex_thumb_screw",
        "HEXTHUMB",
        plain_screw_field_names(),
        None,
        abbrevs,
    );
    proof {
        reveal_strlit("MULTILOBE");
    }
    register(
        category_templates,
        "multilobe_thumb_screw",
        "MULTILOBE",
        plain_screw_field_names(),
        None,
        abbrevs,
    );
    proof {
        reveal_strlit("RECTTHUMB");
    }
    register(
        category_templates,
        "rectangle_thumb_screw",
        "RECTTHUMB",
        plain_screw_field_names(),
        None,
        abbrevs,
    );
    proof {
        reveal_strlit("ROUNDTHUMB");
    }
    register(
        category_templates,
        "round_thumb_screw",
        "ROUNDTHUMB",
        plain_screw_field_names(),
        None,
        abbrevs,
    );
    proof {
        reveal_strlit("SPADE");
    }
    register(
        category_templates,
        "spade_thumb_screw",
        "SPADE",
        plain_screw_field_names(),
        None,
        abbrevs,
    );
    proof {
        reveal_strlit("2ARM");
    }
    register(
        category_templates,
        "two_arm_thumb_screw",
        "2ARM",
        plain_screw_field_names(),
        None,
        abbrevs,
    );
    proof {
        reveal_strlit("WINGTHUMB");
    }
    register(
        category_templates,
        "wing_thumb_screw",
        "WINGTHUMB",
        plain_screw_field_names(),
        None,
        abbrevs,
    );
}

/// What was registered stays registered, and every key of this step is
/// registered after it.
pub proof fn lemma_with_thumb_screws_keys(
    registry: Seq<(Seq<char>, TemplateView)>,
    abbreviations: Seq<(Seq<char>, Seq<char>)>,
)
    ensures
        forall|key: Seq<char>|
            lookup(registry, key) is Some ==> (#[trigger] lookup(with_thumb_screws(registry, abbreviations), key)) is Some,
        lookup(with_thumb_screws(registry, abbreviations), "four_arm_thumb_screw"@) is Some,
        lookup(with_thumb_screws(registry, abbreviations), "hex_thumb_screw"@) is Some,
        lookup(with_thumb_screws(registry, abbreviations), "multilobe_thumb_screw"@) is Some,
        lookup(with_thumb_screws(registry, abbreviations), "rectangle_thumb_screw"@) is Some,
        lookup(with_thumb_screws(registry, abbreviations), "round_thumb_screw"@) is Some,
        lookup(with_thumb_screws(registry, abbreviations), "spade_thumb_screw"@) is Some,
        lookup(with_thumb_screws(registry, abbreviations), "two_arm_thumb_screw"@) is Some,
        lookup(with_thumb_screws(registry, abbreviations), "wing_thumb_screw"@) is Some,
{
    lemma_push_keeps_keys::<TemplateView>();
}

/// A registry with the templates of screws with a handle, knob or ring, of threaded and tee screws and of captive panel screws registered after its own.
pub open spec fn with_handle_screws(
    registry: Seq<(Seq<char>, TemplateView)>,
    abbreviations: Seq<(Seq<char>, Seq<char>)>,
) -> Seq<(Seq<char>, TemplateView)> {
    registry
        .push(("t_handle_screw"@, template_of("THS"@, driven_screw_fields(), None, abbreviations)))
        .push(("t_slot_screw"@, template_of("TSLOT"@, driven_screw_fields(), None, abbreviations)))
        .push(("l_handle_screw"@, template_of("LHS"@, plain_screw_fields(), None, abbreviations)))
        .push(("knob_screw"@, template_of("KNOB"@, driven_screw_fields(), None, abbreviations)))
        .push(("ring_screw"@, template_of("RING"@, plain_screw_fields(), None, abbreviations)))
        .push(("threaded_screw"@, template_of("THREADED"@, driven_screw_fields(), None, abbreviations)))
        .push(("tee_screw"@, template_of("TEE"@, plain_screw_fields(), None, abbreviations)))
        .push(("captive_panel_screw"@, template_of("CPS"@, plain_screw_fields(), None, abbreviations)))
}

/// Registers the templates of screws with a handle, knob or ring, of threaded and tee screws and of captive panel screws.
pub fn initialize_handle_screws(
    category_templates: &mut Table<NamingTemplate>,
    abbrevs: &Arc<Table<String>>,
)
    ensures
        final(category_templates)@ == with_handle_screws(old(category_templates)@, abbrevs@),
        all_well_formed(old(category_templates)@) ==> all_well_formed(final(category_templates)@),
{
    proof {
        reveal_strlit("THS");
    }
    register(
        category_templates,
        "t_handle_screw",
        "THS",
        driven_screw_field_names(),
        None,
        abbrevs,
    );
    proof {
        reveal_strlit("TSLOT");
    }
    register(
        category_templates,
        "t_slot_screw",
        "TSLOT",
        driven_screw_field_names(),
        None,
        abbrevs,
    );
    proof {
        reveal_strlit("LHS");
    }
    register(
        category_templates,
        "l_handle_screw",
        "LHS",
        plain_screw_field_names(),
        None,
        abbrevs,
    );
    proof {
        reveal_strlit("KNOB");
    }
    register(
        category_templates,
        "knob_screw",
        "KNOB",
        driven_screw_field_names(),
        None,
        abbrevs,
    );
    proof {
        reveal_strlit("RING");
    }
    register(
        category_templates,
        "ring_screw",
        "RING",
        plain_screw_field_names(),
        None,
        abbrevs,
    );
    proof {
        reveal_strlit("THREADED");
    }
    register(
        category_templates,
        "threaded_screw",
        "THREADED",
        driven_screw_field_names(),
        None,
        abbrevs,
    );
    proof {
        reveal_strlit("TEE");
    }
    register(
        category_templates,
        "tee_screw",
        "TEE",
        plain_screw_field_names(),
        None,
        abbrevs,
    );
    proof {
        reveal_strlit("CPS");
    }
    register(
        category_templates,
        "captive_panel_screw",
        "CPS",
        plain_screw_field_names(),
        None,
        abbrevs,
    );
}

/// What was registered stays registered, and every key of this step is
/// registered after it.
pub proof fn lemma_with_handle_screws_keys(
    registry: Seq<(Seq<char>, TemplateView)>,
    abbreviations: Seq<(Seq<char>, Seq<char>)>,
)
    ensures
        forall|key: Seq<char>|
            lookup(registry, key) is Some ==> (#[trigger] lookup(with_handle_screws(registry, abbreviations), key)) is Some,
        lookup(with_handle_screws(registry, abbreviations), "t_handle_screw"@) is Some,
        lookup(with_handle_screws(registry, abbreviations), "t_slot_screw"@) is Some,
        lookup(with_handle_screws(registry, abbreviations), "l_handle_screw"@) is Some,
        lookup(with_handle_screws(registry, abbreviations), "knob_screw"@) is Some,
        lookup(with_handle_screws(registry, abbreviations), "ring_screw"@) is Some,
        lookup(with_handle_screws(registry, abbreviations), "threaded_screw"@) is Some,
        lookup(with_handle_screws(registry, abbreviations), "tee_screw"@) is Some,
        lookup(with_handle_screws(registry, abbreviations), "captive_panel_screw"@) is Some,
{
    lemma_push_keeps_keys::<TemplateView>();
}

/// A registry with the templates of the thread-forming screws registered after its own.
pub open spec fn with_thread_forming_screws(
    registry: Seq<(Seq<char>, TemplateView)>,
    abbreviations: Seq<(Seq<char>, Seq<char>)>,
) -> Seq<(Seq<char>, TemplateView)> {
    registry
        .push(("thread_forming_button_head_screw"@, template_of("TFBHS"@, driven_screw_fields(), None, abbreviations)))
        .push(("thread_forming_high_socket_head_screw"@, template_of("TFHSHS"@, driven_screw_fields(), None, abbreviations)))
        .push(("thread_forming_low_socket_head_screw"@, template_of("TFLSHS"@, driven_screw_fields(), None, abbreviations)))
        .push(("thread_forming_socket_head_screw"@, template_of("TFSHS"@, driven_screw_fields(), None, abbreviations)))
        .push(("thread_forming_flat_head_screw"@, template_of("TFFHS"@, driven_screw_fields(), None, abbreviations)))
        .push(("thread_forming_pan_head_screw"@, template_of("TFPHS"@, driven_screw_fields(), None, abbreviations)))
        .push(("thread_forming_hex_head_screw"@, template_of("TFHHS"@, driven_screw_fields(), None, abbreviations)))
        .push(("thread_forming_screw"@, template_of("TFS"@, plain_screw_fields(), None, abbreviations)))
}

/// Registers the templates of the thread-forming screws.
pub fn initialize_thread_forming_screws(
    category_templates: &mut Table<NamingTemplate>,
    abbrevs: &Arc<Table<String>>,
)
    ensures
        final(category_templates)@ == with_thread_forming_screws(old(category_templates)@, abbrevs@),
        all_well_formed(old(category_templates)@) ==> all_well_formed(final(category_templates)@),
{
    proof {
        reveal_strlit("TFBHS");
    }
    register(
        category_templates,
        "thread_forming_button_head_screw",
        "TFBHS",
        driven_screw_field_names(),
        None,
        abbrevs,
    );
    proof {
        reveal_strlit("TFHSHS");
    }
    register(
        category_templates,
        "thread_forming_high_socket_head_screw",
        "TFHSHS",
        driven_screw_field_names(),
        None,
        abbrevs,
    );
    proof {
        reveal_strlit("TFLSHS");
    }
    register(
        category_templates,
        "thread_forming_low_socket_head_screw",
        "TFLSHS",
        driven_screw_field_names(),
        None,
        abbrevs,
    );
    proof {
        reveal_strlit("TFSHS");
    }
    register(
        category_templates,
        "thread_forming_socket_head_screw",
        "TFSHS",
        driven_screw_field_names(),
        None,
        abbrevs,
    );
    proof {
        reveal_strlit("TFFHS");
    }
    register(
        category_templates,
        "thread_forming_flat_head_screw",
        "TFFHS",
        driven_screw_field_names(),
        None,
        abbrevs,
    );
    proof {
        reveal_strlit("TFPHS");
    }
    register(
        category_templates,
        "thread_forming_pan_head_screw",
        "TFPHS",
        driven_screw_field_names(),
        None,
        abbrevs,
    );
    proof {
        reveal_strlit("TFHHS");
    }
    register(
        category_templates,
        "thread_forming_hex_head_screw",
        "TFHHS",
        driven_screw_field_names(),
        None,
        abbrevs,
    );
    proof {
        reveal_strlit("TFS");
    }
    register(
        category_templates,
        "thread_forming_screw",
        "TFS",
        plain_screw_field_names(),
        None,
        abbrevs,
    );
}

/// What was registered stays registered, and every key of this step is
/// registered after it.
pub proof fn lemma_with_thread_forming_screws_keys(
    registry: Seq<(Seq<char>, TemplateView)>,
    abbreviations: Seq<(Seq<char>, Seq<char>)>,
)
    ensures
        forall|key: Seq<char>|
            lookup(registry, key) is Some ==> (#[trigger] lookup(with_thread_forming_screws(registry, abbreviations), key)) is Some,
        lookup(with_thread_forming_screws(registry, abbreviations), "thread_forming_button_head_screw"@) is Some,
        lookup(with_thread_forming_screws(registry, abbreviations), "thread_forming_high_socket_head_screw"@) is Some,
        lookup(with_thread_forming_screws(registry, abbreviations), "thread_forming_low_socket_head_screw"@) is Some,
        lookup(with_thread_forming_screws(registry, abbreviations), "thread_forming_socket_head_screw"@) is Some,
        lookup(with_thread_forming_screws(registry, abbreviations), "thread_forming_flat_head_screw"@) is Some,
        lookup(with_thread_forming_screws(registry, abbreviations), "thread_forming_pan_head_screw"@) is Some,
        lookup(with_thread_forming_screws(registry, abbreviations), "thread_forming_hex_head_screw"@) is Some,
        lookup(with_thread_forming_screws(registry, abbreviations), "thread_forming_screw"@) is Some,
{
    lemma_push_keeps_keys::<TemplateView>();
}

/// A registry with the screw templates registered after its own, in this order.
pub open spec fn with_screw_templates(registry: Seq<(Seq<char>, TemplateView)>) -> Seq<
    (Seq<char>, TemplateView),
> {
    let r1 = with_button_head_screws(registry, screw_abbreviations());
    let r2 = with_socket_head_screws(r1, screw_abbreviations());
    let r3 = with_flat_head_screws(r2, screw_abbreviations());
    let r4 = with_other_head_screws(r3, screw_abbreviations());
    let r5 = with_specialty_screws(r4, screw_abbreviations());
    let r6 = with_further_head_screws(r5, screw_abbreviations());
    let r7 = with_thumb_screws(r6, screw_abbreviations());
    let r8 = with_handle_screws(r7, screw_abbreviations());
    with_thread_forming_screws(r8, screw_abbreviations())
}

/// Registers every screw template, all sharing one dictionary.
pub fn initialize_screw_templates(category_templates: &mut Table<NamingTemplate>)
    ensures
        final(category_templates)@ == with_screw_templates(old(category_templates)@),
        all_well_formed(old(category_templates)@) ==> all_well_formed(final(category_templates)@),
{
    let abbrevs = Arc::new(create_screw_abbreviations());
    initialize_button_head_screws(category_templates, &abbrevs);
    initialize_socket_head_screws(category_templates, &abbrevs);
    initialize_flat_head_screws(category_templates, &abbrevs);
    initialize_other_head_screws(category_templates, &abbrevs);
    initialize_specialty_screws(category_templates, &abbrevs);
    initialize_further_head_screws(category_templates, &abbrevs);
    initialize_thumb_screws(category_templates, &abbrevs);
    initialize_handle_screws(category_templates, &abbrevs);
    initialize_thread_forming_screws(category_templates, &abbrevs);
}

/// What was registered stays registered, and every key of this step is
/// registered after it.
pub proof fn lemma_with_screw_templates_keys(
    registry: Seq<(Seq<char>, TemplateView)>,
)
    ensures
        forall|key: Seq<char>|
            lookup(registry, key) is Some ==> (#[trigger] lookup(with_screw_templates(registry), key)) is Some,
        lookup(with_screw_templates(registry), "button_head_screw"@) is Some,
        lookup(with_screw_templates(registry), "socket_head_screw"@) is Some,
        lookup(with_screw_templates(registry), "high_socket_head_screw"@) is Some,
        lookup(with_screw_templates(registry), "low_socket_head_screw"@) is Some,
        lookup(with_screw_templates(registry), "ultra_low_socket_head_screw"@) is Some,
        lookup(with_screw_templates(registry), "standard_socket_head_screw"@) is Some,
        lookup(with_screw_templates(registry), "flat_head_screw"@) is Some,
        lookup(with_screw_templates(registry), "narrow_flat_head_screw"@) is Some,
        lookup(with_screw_templates(registry), "standard_flat_head_screw"@) is Some,
        lookup(with_screw_templates(registry), "undercut_flat_head_screw"@) is Some,
        lookup(with_screw_templates(registry), "wide_flat_head_screw"@) is Some,
        lookup(with_screw_templates(registry), "pan_head_screw"@) is Some,
        lookup(with_screw_templates(registry), "hex_head_screw"@) is Some,
        lookup(with_screw_templates(registry), "rounded_head_screw"@) is Some,
        lookup(with_screw_templates(registry), "generic_screw"@) is Some,
        lookup(with_screw_templates(registry), "thumb_screw"@) is Some,
        lookup(with_screw_templates(registry), "eye_screw"@) is Some,
        lookup(with_screw_templates(registry), "hook_screw"@) is Some,
        lookup(with_screw_templates(registry), "12_point_head_screw"@) is Some,
        lookup(with_screw_templates(registry), "binding_head_screw"@) is Some,
        lookup(with_screw_templates(registry), "carriage_head_screw"@) is Some,
        lookup(with_screw_templates(registry), "cheese_head_screw"@) is Some,
        lookup(with_screw_templates(registry), "domed_head_screw"@) is Some,
        lookup(with_screw_templates(registry), "fillister_head_screw"@) is Some,
        lookup(with_screw_templates(registry), "headless_screw"@) is Some,
        lookup(with_screw_templates(registry), "oval_head_screw"@) is Some,
        lookup(with_screw_templates(registry), "standard_oval_head_screw"@) is Some,
        lookup(with_screw_templates(registry), "undercut_oval_head_screw"@) is Some,
        lookup(with_screw_templates(registry), "pancake_head_screw"@) is Some,
        lookup(with_screw_templates(registry), "pentagon_head_screw"@) is Some,
        lookup(with_screw_templates(registry), "round_head_screw"@) is Some,
        lookup(with_screw_templates(registry), "square_head_screw"@) is Some,
        lookup(with_screw_templates(registry), "truss_head_screw"@) is Some,
        lookup(with_screw_templates(registry), "four_arm_thumb_screw"@) is Some,
        lookup(with_screw_templates(registry), "hex_thumb_screw"@) is Some,
        lookup(with_screw_templates(registry), "multilobe_thumb_screw"@) is Some,
        lookup(with_screw_templates(registry), "rectangle_thumb_screw"@) is Some,
        lookup(with_screw_templates(registry), "round_thumb_screw"@) is Some,
        lookup(with_screw_templates(registry), "spade_thumb_screw"@) is Some,
        lookup(with_screw_templates(registry), "two_arm_thumb_screw"@) is Some,
        lookup(with_screw_templates(registry), "wing_thumb_screw"@) is Some,
        lookup(with_screw_templates(registry), "t_handle_screw"@) is Some,
        lookup(with_screw_templates(registry), "t_slot_screw"@) is Some,
        lookup(with_screw_templates(registry), "l_handle_screw"@) is Some,
        lookup(with_screw_templates(registry), "knob_screw"@) is Some,
        lookup(with_screw_templates(registry), "ring_screw"@) is Some,
        lookup(with_screw_templates(registry), "threaded_screw"@) is Some,
        lookup(with_screw_templates(registry), "tee_screw"@) is Some,
        lookup(with_screw_templates(registry), "captive_panel_screw"@) is Some,
        lookup(with_screw_templates(registry), "thread_forming_button_head_screw"@) is Some,
        lookup(with_screw_templates(registry), "thread_forming_high_socket_head_screw"@) is Some,
        lookup(with_screw_templates(registry), "thread_forming_low_socket_head_screw"@) is Some,
        lookup(with_screw_templates(registry), "thread_forming_socket_head_screw"@) is Some,
        lookup(with_screw_templates(registry), "thread_forming_flat_head_screw"@) is Some,
        lookup(with_screw_templates(registry), "thread_forming_pan_head_screw"@) is Some,
        lookup(with_screw_templates(registry), "thread_forming_hex_head_screw"@) is Some,
        lookup(with_screw_templates(registry), "thread_forming_screw"@) is Some,
{
    lemma_with_button_head_screws_keys(registry, screw_abbreviations());
    let r1 = with_button_head_screws(registry, screw_abbreviations());
    lemma_with_socket_head_screws_keys(r1, screw_abbreviations());
    let r2 = with_socket_head_screws(r1, screw_abbreviations());
    lemma_with_flat_head_screws_keys(r2, screw_abbreviations());
    let r3 = with_flat_head_screws(r2, screw_abbreviations());
    lemma_with_other_head_screws_keys(r3, screw_abbreviations());
    let r4 = with_other_head_screws(r3, screw_abbreviations());
    lemma_with_specialty_screws_keys(r4, screw_abbreviations());
    let r5 = with_specialty_screws(r4, screw_abbreviations());
    lemma_with_further_head_screws_keys(r5, screw_abbreviations());
    let r6 = with_further_head_screws(r5, screw_abbreviations());
    lemma_with_thumb_screws_keys(r6, screw_abbreviations());
    let r7 = with_thumb_screws(r6, screw_abbreviations());
    lemma_with_handle_screws_keys(r7, screw_abbreviations());
    let r8 = with_handle_screws(r7, screw_abbreviations());
    lemma_with_thread_forming_screws_keys(r8, screw_abbreviations());
}

} // verus!
