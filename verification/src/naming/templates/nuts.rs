//! Nut naming templates.

use crate::naming::generator::{all_well_formed, register, template_of, NamingTemplate, TemplateView};
use crate::naming::table::{lemma_push_keeps_keys, lookup, Table};
use crate::text::slices;
use std::sync::Arc;
use vstd::prelude::*;

verus! {

/// The fields of a nut.
pub open spec fn nut_fields() -> Seq<Seq<char>> {
    seq![
        "Material"@,
        "Thread Size"@,
        "Finish"@,
    ]
}

/// The fields of a nut.
fn nut_field_names() -> (r: Vec<&'static str>)
    ensures
        slices(r@) == nut_fields(),
        r.len() > 0,
{
    let r = vec!["Material", "Thread Size", "Finish"];
    assert(slices(r@) =~= nut_fields());
    r
}

/// The dictionary of the nut templates: materials, steel grades and finishes.
pub open spec fn nut_abbreviations() -> Seq<(Seq<char>, Seq<char>)> {
    Seq::<(Seq<char>, Seq<char>)>::empty()
        .push(("316 Stainless Steel"@, "SS316"@))
        .push(("18-8 Stainless Steel"@, "SS188"@))
        .push(("Stainless Steel"@, "SS"@))
        .push(("Steel"@, "S"@))
        .push(("Alloy Steel"@, "S"@))
        .push(("Brass"@, "Brass"@))
        .push(("Aluminum"@, "AL"@))
        .push(("Nylon"@, "Nylon"@))
        .push(("Plastic"@, "Plastic"@))
        .push(("Grade 1 Steel"@, "SG1"@))
        .push(("Grade 2 Steel"@, "SG2"@))
        .push(("Grade 5 Steel"@, "SG5"@))
        .push(("Grade 8 Steel"@, "SG8"@))
        .push(("8.8 Steel"@, "S8.8"@))
        .push(("10.9 Steel"@, "S10.9"@))
        .push(("12.9 Steel"@, "S12.9"@))
        .push(("Grade 1 Alloy Steel"@, "SG1"@))
        .push(("Grade 2 Alloy Steel"@, "SG2"@))
        .push(("Grade 5 Alloy Steel"@, "SG5"@))
        .push(("Grade 8 Alloy Steel"@, "SG8"@))
        .push(("8.8 Alloy Steel"@, "S8.8"@))
        .push(("10.9 Alloy Steel"@, "S10.9"@))
        .push(("12.9 Alloy Steel"@, "S12.9"@))
        .push(("Zinc Plated"@, "ZP"@))
        .push(("Zinc-Plated"@, "ZP"@))
        .push(("Zinc Yellow-Chromate Plated"@, "ZYC"@))
        .push(("Zinc Yellow Chromate Plated"@, "ZYC"@))
        .push(("Black Oxide"@, "BO"@))
        .push(("Black-Oxide"@, "BO"@))
        .push(("Cadmium Plated"@, "CD"@))
        .push(("Cadmium-Plated"@, "CD"@))
        .push(("Nickel Plated"@, "NI"@))
        .push(("Nickel-Plated"@, "NI"@))
        .push(("Chrome Plated"@, "CR"@))
        .push(("Chrome-Plated"@, "CR"@))
        .push(("Galvanized"@, "GAL"@))
}

/// Builds the dictionary that every template of this family shares.
fn create_nut_abbreviations() -> (abbrevs: Table<String>)
    ensures
        abbrevs@ == nut_abbreviations(),
{
    let mut abbrevs: Table<String> = Table::new();
    abbrevs.put("316 Stainless Steel", "SS316");
    abbrevs.put("18-8 Stainless Steel", "SS188");
    abbrevs.put("Stainless Steel", "SS");
    abbrevs.put("Steel", "S");
    abbrevs.put("Alloy Steel", "S");
    abbrevs.put("Brass", "Brass");
    abbrevs.put("Aluminum", "AL");
    abbrevs.put("Nylon", "Nylon");
    abbrevs.put("Plastic", "Plastic");
    abbrevs.put("Grade 1 Steel", "SG1");
    abbrevs.put("Grade 2 Steel", "SG2");
    abbrevs.put("Grade 5 Steel", "SG5");
    abbrevs.put("Grade 8 Steel", "SG8");
    abbrevs.put("8.8 Steel", "S8.8");
    abbrevs.put("10.9 Steel", "S10.9");
    abbrevs.put("12.9 Steel", "S12.9");
    abbrevs.put("Grade 1 Alloy Steel", "SG1");
    abbrevs.put("Grade 2 Alloy Steel", "SG2");
    abbrevs.put("Grade 5 Alloy Steel", "SG5");
    abbrevs.put("Grade 8 Alloy Steel", "SG8");
    abbrevs.put("8.8 Alloy Steel", "S8.8");
    abbrevs.put("10.9 Alloy Steel", "S10.9");
    abbrevs.put("12.9 Alloy Steel", "S12.9");
    abbrevs.put("Zinc Plated", "ZP");
    abbrevs.put("Zinc-Plated", "ZP");
    abbrevs.put("Zinc Yellow-Chromate Plated", "ZYC");
    abbrevs.put("Zinc Yellow Chromate Plated", "ZYC");
    abbrevs.put("Black Oxide", "BO");
    abbrevs.put("Black-Oxide", "BO");
    abbrevs.put("Cadmium Plated", "CD");
    abbrevs.put("Cadmium-Plated", "CD");
    abbrevs.put("Nickel Plated", "NI");
    abbrevs.put("Nickel-Plated", "NI");
    abbrevs.put("Chrome Plated", "CR");
    abbrevs.put("Chrome-Plated", "CR");
    abbrevs.put("Galvanized", "GAL");
    abbrevs
}

/// A registry with the templates of the common nuts and of the generic nut registered after its own.
pub open spec fn with_common_nuts(
    registry: Seq<(Seq<char>, TemplateView)>,
    abbreviations: Seq<(Seq<char>, Seq<char>)>,
) -> Seq<(Seq<char>, TemplateView)> {
    registry
        .push(("hex_nut"@, template_of("HN"@, nut_fields(), None, abbreviations)))
        .push(("wing_nut"@, template_of("WN"@, nut_fields(), None, abbreviations)))
        .push(("cap_nut"@, template_of("CN"@, nut_fields(), None, abbreviations)))
        .push(("flange_nut"@, template_of("FN"@, nut_fields(), None, abbreviations)))
        .push(("generic_nut"@, template_of("N"@, nut_fields(), None, abbreviations)))
}

/// Registers the templates of the common nuts and of the generic nut.
pub fn initialize_common_nuts(
    category_templates: &mut Table<NamingTemplate>,
    abbrevs: &Arc<Table<String>>,
)
    ensures
        final(category_templates)@ == with_common_nuts(old(category_templates)@, abbrevs@),
        all_well_formed(old(category_templates)@) ==> all_well_formed(final(category_templates)@),
{
    proof {
        reveal_strlit("HN");
    }
    register(
        category_templates,
        "hex_nut",
        "HN",
        nut_field_names(),
        None,
        abbrevs,
    );
    proof {
        reveal_strlit("WN");
    }
    register(
        category_templates,
        "wing_nut",
        "WN",
        nut_field_names(),
        None,
        abbrevs,
    );
    proof {
        reveal_strlit("CN");
    }
    register(
        category_templates,
        "cap_nut",
        "CN",
        nut_field_names(),
        None,
        abbrevs,
    );
    proof {
        reveal_strlit("FN");
    }
    register(
        category_templates,
        "flange_nut",
        "FN",
        nut_field_names(),
        None,
        abbrevs,
    );
    proof {
        reveal_strlit("N");
    }
    register(
        category_templates,
        "generic_nut",
        "N",
        nut_field_names(),
        None,
        abbrevs,
    );
}

/// What was registered stays registered, and every key of this step is
/// registered after it.
pub proof fn lemma_with_common_nuts_keys(
    registry: Seq<(Seq<char>, TemplateView)>,
    abbreviations: Seq<(Seq<char>, Seq<char>)>,
)
    ensures
        forall|key: Seq<char>|
            lookup(registry, key) is Some ==> (#[trigger] lookup(with_common_nuts(registry, abbreviations), key)) is Some,
        lookup(with_common_nuts(registry, abbreviations), "hex_nut"@) is Some,
        lookup(with_common_nuts(registry, abbreviations), "wing_nut"@) is Some,
        lookup(with_common_nuts(registry, abbreviations), "cap_nut"@) is Some,
        lookup(with_common_nuts(registry, abbreviations), "flange_nut"@) is Some,
        lookup(with_common_nuts(registry, abbreviations), "generic_nut"@) is Some,
{
    lemma_push_keeps_keys::<TemplateView>();
}

/// A registry with the locknut templates registered after its own.
pub open spec fn with_locking_nuts(
    registry: Seq<(Seq<char>, TemplateView)>,
    abbreviations: Seq<(Seq<char>, Seq<char>)>,
) -> Seq<(Seq<char>, TemplateView)> {
    registry
        .push(("nylon_insert_locknut"@, template_of("LN"@, nut_fields(), None, abbreviations)))
        .push(("generic_locknut"@, template_of("LN"@, nut_fields(), None, abbreviations)))
        .push(("cotter_pin_locknut"@, template_of("LN"@, nut_fields(), None, abbreviations)))
        .push(("distorted_thread_locknut"@, template_of("LN"@, nut_fields(), None, abbreviations)))
        .push(("flex_top_locknut"@, template_of("LN"@, nut_fields(), None, abbreviations)))
        .push(("lock_washer_locknut"@, template_of("LN"@, nut_fields(), None, abbreviations)))
        .push(("serrations_locknut"@, template_of("LN"@, nut_fields(), None, abbreviations)))
        .push(("spring_stop_locknut"@, template_of("LN"@, nut_fields(), None, abbreviations)))
        .push(("steel_insert_locknut"@, template_of("LN"@, nut_fields(), None, abbreviations)))
}

/// Registers the locknut templates, which all have the prefix `LN`.
pub fn initialize_locking_nuts(
    category_templates: &mut Table<NamingTemplate>,
    abbrevs: &Arc<Table<String>>,
)
    ensures
        final(category_templates)@ == with_locking_nuts(old(category_templates)@, abbrevs@),
        all_well_formed(old(category_templates)@) ==> all_well_formed(final(category_templates)@),
{
    proof {
        reveal_strlit("LN");
    }
    register(
        category_templates,
        "nylon_insert_locknut",
        "LN",
        nut_field_names(),
        None,
        abbrevs,
    );
    proof {
        reveal_strlit("LN");
    }
    register(
        category_templates,
        "generic_locknut",
        "LN",
        nut_field_names(),
        None,
        abbrevs,
    );
    proof {
        reveal_strlit("LN");
    }
    register(
        category_templates,
        "cotter_pin_locknut",
        "LN",
        nut_field_names(),
        None,
        abbrevs,
    );
    proof {
        reveal_strlit("LN");
    }
    register(
        category_templates,
        "distorted_thread_locknut",
        "LN",
        nut_field_names(),
        None,
        abbrevs,
    );
    proof {
        reveal_strlit("LN");
    }
    register(
        category_templates,
        "flex_top_locknut",
        "LN",
        nut_field_names(),
        None,
        abbrevs,
    );
    proof {
        reveal_strlit("LN");
    }
    register(
        category_templates,
        "lock_washer_locknut",
        "LN",
        nut_field_names(),
        None,
        abbrevs,
    );
    proof {
        reveal_strlit("LN");
    }
    register(
        category_templates,
        "serrations_locknut",
        "LN",
        nut_field_names(),
        None,
        abbrevs,
    );
    proof {
        reveal_strlit("LN");
    }
    register(
        category_templates,
        "spring_stop_locknut",
        "LN",
        nut_field_names(),
        None,
        abbrevs,
    );
    proof {
        reveal_strlit("LN");
    }
    register(
        category_templates,
        "steel_insert_locknut",
        "LN",
        nut_field_names(),
        None,
        abbrevs,
    );
}

/// What was registered stays registered, and every key of this step is
/// registered after it.
pub proof fn lemma_with_locking_nuts_keys(
    registry: Seq<(Seq<char>, TemplateView)>,
    abbreviations: Seq<(Seq<char>, Seq<char>)>,
)
    ensures
        forall|key: Seq<char>|
            lookup(registry, key) is Some ==> (#[trigger] lookup(with_locking_nuts(registry, abbreviations), key)) is Some,
        lookup(with_locking_nuts(registry, abbreviations), "nylon_insert_locknut"@) is Some,
        lookup(with_locking_nuts(registry, abbreviations), "generic_locknut"@) is Some,
        lookup(with_locking_nuts(registry, abbreviations), "cotter_pin_locknut"@) is Some,
        lookup(with_locking_nuts(registry, abbreviations), "distorted_thread_locknut"@) is Some,
        lookup(with_locking_nuts(registry, abbreviations), "flex_top_locknut"@) is Some,
        lookup(with_locking_nuts(registry, abbreviations), "lock_washer_locknut"@) is Some,
        lookup(with_locking_nuts(registry, abbreviations), "serrations_locknut"@) is Some,
        lookup(with_locking_nuts(registry, abbreviations), "spring_stop_locknut"@) is Some,
        lookup(with_locking_nuts(registry, abbreviations), "steel_insert_locknut"@) is Some,
{
    lemma_push_keeps_keys::<TemplateView>();
}

/// A registry with the specialty nut templates registered after its own.
pub open spec fn with_specialty_nuts(
    registry: Seq<(Seq<char>, TemplateView)>,
    abbreviations: Seq<(Seq<char>, Seq<char>)>,
) -> Seq<(Seq<char>, TemplateView)> {
    registry
        .push(("acorn_nut"@, template_of("AN"@, nut_fields(), None, abbreviations)))
        .push(("barrel_nut"@, template_of("BN"@, nut_fields(), None, abbreviations)))
        .push(("cage_nut"@, template_of("CAGEN"@, nut_fields(), None, abbreviations)))
        .push(("castle_nut"@, template_of("CASN"@, nut_fields(), None, abbreviations)))
        .push(("clinch_nut"@, template_of("CLIN"@, nut_fields(), None, abbreviations)))
        .push(("coupling_nut"@, template_of("COUPN"@, nut_fields(), None, abbreviations)))
        .push(("jam_nut"@, template_of("JN"@, nut_fields(), None, abbreviations)))
        .push(("knurled_thumb_nut"@, template_of("KTN"@, nut_fields(), None, abbreviations)))
        .push(("machine_screw_nut"@, template_of("MSN"@, nut_fields(), None, abbreviations)))
        .push(("panel_nut"@, template_of("PN"@, nut_fields(), None, abbreviations)))
        .push(("push_on_nut"@, template_of("PON"@, nut_fields(), None, abbreviations)))
        .push(("rivet_nut"@, template_of("RN"@, nut_fields(), None, abbreviations)))
        .push(("round_nut"@, template_of("ROUNDN"@, nut_fields(), None, abbreviations)))
        .push(("screw_mount_nut"@, template_of("SMN"@, nut_fields(), None, abbreviations)))
        .push(("snap_in_nut"@, template_of("SIN"@, nut_fields(), None, abbreviations)))
        .push(("socket_nut"@, template_of("SN"@, nut_fields(), None, abbreviations)))
        .push(("speed_nut"@, template_of("SPEEDN"@, nut_fields(), None, abbreviations)))
        .push(("square_nut"@, template_of("SQN"@, nut_fields(), None, abbreviations)))
        .push(("tamper_resistant_nut"@, template_of("TRN"@, nut_fields(), None, abbreviations)))
        .push(("threadless_nut"@, template_of("TLN"@, nut_fields(), None, abbreviations)))
        .push(("thumb_nut"@, template_of("TN"@, nut_fields(), None, abbreviations)))
        .push(("tube_end_nut"@, template_of("TEN"@, nut_fields(), None, abbreviations)))
        .push(("twist_close_nut"@, template_of("TCN"@, nut_fields(), None, abbreviations)))
        .push(("weld_nut"@, template_of("WLN"@, nut_fields(), None, abbreviations)))
        .push(("with_pilot_hole_nut"@, template_of("PHN"@, nut_fields(), None, abbreviations)))
}

/// Registers the specialty nut templates.
pub fn initialize_specialty_nuts(
    category_templates: &mut Table<NamingTemplate>,
    abbrevs: &Arc<Table<String>>,
)
    ensures
        final(category_templates)@ == with_specialty_nuts(old(category_templates)@, abbrevs@),
        all_well_formed(old(category_templates)@) ==> all_well_formed(final(category_templates)@),
{
    proof {
        reveal_strlit("AN");
    }
    register(
        category_templates,
        "acorn_nut",
        "AN",
        nut_field_names(),
        None,
        abbrevs,
    );
    proof {
        reveal_strlit("BN");
    }
    register(
        category_templates,
        "barrel_nut",
        "BN",
        nut_field_names(),
        None,
        abbrevs,
    );
    proof {
        reveal_strlit("CAGEN");
    }
    register(
        category_templates,
        "cage_nut",
        "CAGEN",
        nut_field_names(),
        None,
        abbrevs,
    );
    proof {
        reveal_strlit("CASN");
    }
    register(
        category_templates,
        "castle_nut",
        "CASN",
        nut_field_names(),
        None,
        abbrevs,
    );
    proof {
        reveal_strlit("CLIN");
    }
    register(
        category_templates,
        "clinch_nut",
        "CLIN",
        nut_field_names(),
        None,
        abbrevs,
    );
    proof {
        reveal_strlit("COUPN");
    }
    register(
        category_templates,
        "coupling_nut",
        "COUPN",
        nut_field_names(),
        None,
        abbrevs,
    );
    proof {
        reveal_strlit("JN");
    }
    register(
        category_templates,
        "jam_nut",
        "JN",
        nut_field_names(),
        None,
        abbrevs,
    );
    proof {
        reveal_strlit("KTN");
    }
    register(
        category_templates,
        "knurled_thumb_nut",
        "KTN",
        nut_field_names(),
        None,
        abbrevs,
    );
    proof {
        reveal_strlit("MSN");
    }
    register(
        category_templates,
        "machine_screw_nut",
        "MSN",
        nut_field_names(),
        None,
        abbrevs,
    );
    proof {
        reveal_strlit("PN");
    }
    register(
        category_templates,
        "panel_nut",
        "PN",
        nut_field_names(),
        None,
        abbrevs,
    );
    proof {
        reveal_strlit("PON");
    }
    register(
        category_templates,
        "push_on_nut",
        "PON",
        nut_field_names(),
        None,
        abbrevs,
    );
    proof {
        reveal_strlit("RN");
    }
    register(
        category_templates,
        "rivet_nut",
        "RN",
        nut_field_names(),
        None,
        abbrevs,
    );
    proof {
        reveal_strlit("ROUNDN");
    }
    register(
        category_templates,
        "round_nut",
        "ROUNDN",
        nut_field_names(),
        None,
        abbrevs,
    );
    proof {
        reveal_strlit("SMN");
    }
    register(
        category_templates,
        "screw_mount_nut",
        "SMN",
        nut_field_names(),
        None,
        abbrevs,
    );
    proof {
        reveal_strlit("SIN");
    }
    register(
        category_templates,
        "snap_in_nut",
        "SIN",
        nut_field_names(),
        None,
        abbrevs,
    );
    proof {
        reveal_strlit("SN");
    }
    register(
        category_templates,
        "socket_nut",
        "SN",
        nut_field_names(),
        None,
        abbrevs,
    );
    proof {
        reveal_strlit("SPEEDN");
    }
    register(
        category_templates,
        "speed_nut",
        "SPEEDN",
        nut_field_names(),
        None,
        abbrevs,
    );
    proof {
        reveal_strlit("SQN");
    }
    register(
        category_templates,
        "square_nut",
        "SQN",
        nut_field_names(),
        None,
        abbrevs,
    );
    proof {
        reveal_strlit("TRN");
    }
    register(
        category_templates,
        "tamper_resistant_nut",
        "TRN",
        nut_field_names(),
        None,
        abbrevs,
    );
    proof {
        reveal_strlit("TLN");
    }
    register(
        category_templates,
        "threadless_nut",
        "TLN",
        nut_field_names(),
        None,
        abbrevs,
    );
    proof {
        reveal_strlit("TN");
    }
    register(
        category_templates,
        "thumb_nut",
        "TN",
        nut_field_names(),
        None,
        abbrevs,
    );
    proof {
        reveal_strlit("TEN");
    }
    register(
        category_templates,
        "tube_end_nut",
        "TEN",
        nut_field_names(),
        None,
        abbrevs,
    );
    proof {
        reveal_strlit("TCN");
    }
    register(
        category_templates,
        "twist_close_nut",
        "TCN",
        nut_field_names(),
        None,
        abbrevs,
    );
    proof {
        reveal_strlit("WLN");
    }
    register(
        category_templates,
        "weld_nut",
        "WLN",
        nut_field_names(),
        None,
        abbrevs,
    );
    proof {
        reveal_strlit("PHN");
    }
    register(
        category_templates,
        "with_pilot_hole_nut",
        "PHN",
        nut_field_names(),
        None,
        abbrevs,
    );
}

/// What was registered stays registered, and every key of this step is
/// registered after it.
pub proof fn lemma_with_specialty_nuts_keys(
    registry: Seq<(Seq<char>, TemplateView)>,
    abbreviations: Seq<(Seq<char>, Seq<char>)>,
)
    ensures
        forall|key: Seq<char>|
            lookup(registry, key) is Some ==> (#[trigger] lookup(with_specialty_nuts(registry, abbreviations), key)) is Some,
        lookup(with_specialty_nuts(registry, abbreviations), "acorn_nut"@) is Some,
        lookup(with_specialty_nuts(registry, abbreviations), "barrel_nut"@) is Some,
        lookup(with_specialty_nuts(registry, abbreviations), "cage_nut"@) is Some,
        lookup(with_specialty_nuts(registry, abbreviations), "castle_nut"@) is Some,
        lookup(with_specialty_nuts(registry, abbreviations), "clinch_nut"@) is Some,
        lookup(with_specialty_nuts(registry, abbreviations), "coupling_nut"@) is Some,
        lookup(with_specialty_nuts(registry, abbreviations), "jam_nut"@) is Some,
        lookup(with_specialty_nuts(registry, abbreviations), "knurled_thumb_nut"@) is Some,
        lookup(with_specialty_nuts(registry, abbreviations), "machine_screw_nut"@) is Some,
        lookup(with_specialty_nuts(registry, abbreviations), "panel_nut"@) is Some,
        lookup(with_specialty_nuts(registry, abbreviations), "push_on_nut"@) is Some,
        lookup(with_specialty_nuts(registry, abbreviations), "rivet_nut"@) is Some,
        lookup(with_specialty_nuts(registry, abbreviations), "round_nut"@) is Some,
        lookup(with_specialty_nuts(registry, abbreviations), "screw_mount_nut"@) is Some,
        lookup(with_specialty_nuts(registry, abbreviations), "snap_in_nut"@) is Some,
        lookup(with_specialty_nuts(registry, abbreviations), "socket_nut"@) is Some,
        lookup(with_specialty_nuts(registry, abbreviations), "speed_nut"@) is Some,
        lookup(with_specialty_nuts(registry, abbreviations), "square_nut"@) is Some,
        lookup(with_specialty_nuts(registry, abbreviations), "tamper_resistant_nut"@) is Some,
        lookup(with_specialty_nuts(registry, abbreviations), "threadless_nut"@) is Some,
        lookup(with_specialty_nuts(registry, abbreviations), "thumb_nut"@) is Some,
        lookup(with_specialty_nuts(registry, abbreviations), "tube_end_nut"@) is Some,
        lookup(with_specialty_nuts(registry, abbreviations), "twist_close_nut"@) is Some,
        lookup(with_specialty_nuts(registry, abbreviations), "weld_nut"@) is Some,
        lookup(with_specialty_nuts(registry, abbreviations), "with_pilot_hole_nut"@) is Some,
{
    lemma_push_keeps_keys::<TemplateView>();
}

/// A registry with the nut templates registered after its own, in this order.
pub open spec fn with_nut_templates(registry: Seq<(Seq<char>, TemplateView)>) -> Seq<
    (Seq<char>, TemplateView),
> {
    let r1 = with_common_nuts(registry, nut_abbreviations());
    let r2 = with_locking_nuts(r1, nut_abbreviations());
    with_specialty_nuts(r2, nut_abbreviations())
}

/// Registers every nut template, all sharing one dictionary.
pub fn initialize_nut_templates(category_templates: &mut Table<NamingTemplate>)
    ensures
        final(category_templates)@ == with_nut_templates(old(category_templates)@),
        all_well_formed(old(category_templates)@) ==> all_well_formed(final(category_templates)@),
{
    let abbrevs = Arc::new(create_nut_abbreviations());
    initialize_common_nuts(category_templates, &abbrevs);
    initialize_locking_nuts(category_templates, &abbrevs);
    initialize_specialty_nuts(category_templates, &abbrevs);
}

/// What was registered stays registered, and every key of this step is
/// registered after it.
pub proof fn lemma_with_nut_templates_keys(
    registry: Seq<(Seq<char>, TemplateView)>,
)
    ensures
        forall|key: Seq<char>|
            lookup(registry, key) is Some ==> (#[trigger] lookup(with_nut_templates(registry), key)) is Some,
        lookup(with_nut_templates(registry), "hex_nut"@) is Some,
        lookup(with_nut_templates(registry), "wing_nut"@) is Some,
        lookup(with_nut_templates(registry), "cap_nut"@) is Some,
        lookup(with_nut_templates(registry), "flange_nut"@) is Some,
        lookup(with_nut_templates(registry), "generic_nut"@) is Some,
        lookup(with_nut_templates(registry), "nylon_insert_locknut"@) is Some,
        lookup(with_nut_templates(registry), "generic_locknut"@) is Some,
        lookup(with_nut_templates(registry), "cotter_pin_locknut"@) is Some,
        lookup(with_nut_templates(registry), "distorted_thread_locknut"@) is Some,
        lookup(with_nut_templates(registry), "flex_top_locknut"@) is Some,
        lookup(with_nut_templates(registry), "lock_washer_locknut"@) is Some,
        lookup(with_nut_templates(registry), "serrations_locknut"@) is Some,
        lookup(with_nut_templates(registry), "spring_stop_locknut"@) is Some,
        lookup(with_nut_templates(registry), "steel_insert_locknut"@) is Some,
        lookup(with_nut_templates(registry), "acorn_nut"@) is Some,
        lookup(with_nut_templates(registry), "barrel_nut"@) is Some,
        lookup(with_nut_templates(registry), "cage_nut"@) is Some,
        lookup(with_nut_templates(registry), "castle_nut"@) is Some,
        lookup(with_nut_templates(registry), "clinch_nut"@) is Some,
        lookup(with_nut_templates(registry), "coupling_nut"@) is Some,
        lookup(with_nut_templates(registry), "jam_nut"@) is Some,
        lookup(with_nut_templates(registry), "knurled_thumb_nut"@) is Some,
        lookup(with_nut_templates(registry), "machine_screw_nut"@) is Some,
        lookup(with_nut_templates(registry), "panel_nut"@) is Some,
        lookup(with_nut_templates(registry), "push_on_nut"@) is Some,
        lookup(with_nut_templates(registry), "rivet_nut"@) is Some,
        lookup(with_nut_templates(registry), "round_nut"@) is Some,
        lookup(with_nut_templates(registry), "screw_mount_nut"@) is Some,
        lookup(with_nut_templates(registry), "snap_in_nut"@) is Some,
        lookup(with_nut_templates(registry), "socket_nut"@) is Some,
        lookup(with_nut_templates(registry), "speed_nut"@) is Some,
        lookup(with_nut_templates(registry), "square_nut"@) is Some,
        lookup(with_nut_templates(registry), "tamper_resistant_nut"@) is Some,
        lookup(with_nut_templates(registry), "threadless_nut"@) is Some,
        lookup(with_nut_templates(registry), "thumb_nut"@) is Some,
        lookup(with_nut_templates(registry), "tube_end_nut"@) is Some,
        lookup(with_nut_templates(registry), "twist_close_nut"@) is Some,
        lookup(with_nut_templates(registry), "weld_nut"@) is Some,
        lookup(with_nut_templates(registry), "with_pilot_hole_nut"@) is Some,
{
    lemma_with_common_nuts_keys(registry, nut_abbreviations());
    let r1 = with_common_nuts(registry, nut_abbreviations());
    lemma_with_locking_nuts_keys(r1, nut_abbreviations());
    let r2 = with_locking_nuts(r1, nut_abbreviations());
    lemma_with_specialty_nuts_keys(r2, nut_abbreviations());
}

} // verus!
