//! Washer naming templates.

use crate::naming::generator::{all_well_formed, register, template_of, NamingTemplate, TemplateView};
use crate::naming::table::{lemma_push_keeps_keys, lookup, Table};
use crate::text::slices;
use std::sync::Arc;
use vstd::prelude::*;

verus! {

/// The fields of a washer.
pub open spec fn washer_fields() -> Seq<Seq<char>> {
    seq![
        "Material"@,
        "For Screw Size"@,
        "Finish"@,
    ]
}

/// The fields of a washer.
fn washer_field_names() -> (r: Vec<&'static str>)
    ensures
        slices(r@) == washer_fields(),
        r.len() > 0,
{
    let r = vec!["Material", "For Screw Size", "Finish"];
    assert(slices(r@) =~= washer_fields());
    r
}

/// The dictionary of the washer templates: materials and finishes.
pub open spec fn washer_abbreviations() -> Seq<(Seq<char>, Seq<char>)> {
    Seq::<(Seq<char>, Seq<char>)>::empty()
        .push(("316 Stainless Steel"@, "SS316"@))
        .push(("18-8 Stainless Steel"@, "SS188"@))
        .push(("Stainless Steel"@, "SS"@))
        .push(("Steel"@, "Steel"@))
        .push(("Alloy Steel"@, "Steel"@))
        .push(("Brass"@, "Brass"@))
        .push(("Aluminum"@, "AL"@))
        .push(("Nylon"@, "Nylon"@))
        .push(("Plastic"@, "Plastic"@))
        .push(("Rubber"@, "Rubber"@))
        .push(("Spring Steel"@, "Steel"@))
        .push(("Zinc Plated"@, "ZP"@))
        .push(("Zinc-Plated"@, "ZP"@))
        .push(("Zinc Yellow-Chromate Plated"@, "ZYC"@))
        .push(("Zinc Yellow Chromate Plated"@, "ZYC"@))
        .push(("Black Oxide"@, "BO"@))
        .push(("Black-Oxide"@, "BO"@))
        .push(("Cadmium Plated"@, "CD"@))
        .push(("Cadmium-Plated"@, "CD"@))
        .push(("Nickel Plated"@, "NI"@))
        .push(("Nickel-Plated"@, "NI"@))
        .push(("Chrome Plated"@, "CR"@))
        .push(("Chrome-Plated"@, "CR"@))
        .push(("Galvanized"@, "GAL"@))
}

/// Builds the dictionary that every template of this family shares.
fn create_washer_abbreviations() -> (abbrevs: Table<String>)
    ensures
        abbrevs@ == washer_abbreviations(),
{
    let mut abbrevs: Table<String> = Table::new();
    abbrevs.put("316 Stainless Steel", "SS316");
    abbrevs.put("18-8 Stainless Steel", "SS188");
    abbrevs.put("Stainless Steel", "SS");
    abbrevs.put("Steel", "Steel");
    abbrevs.put("Alloy Steel", "Steel");
    abbrevs.put("Brass", "Brass");
    abbrevs.put("Aluminum", "AL");
    abbrevs.put("Nylon", "Nylon");
    abbrevs.put("Plastic", "Plastic");
    abbrevs.put("Rubber", "Rubber");
    abbrevs.put("Spring Steel", "Steel");
    abbrevs.put("Zinc Plated", "ZP");
    abbrevs.put("Zinc-Plated", "ZP");
    abbrevs.put("Zinc Yellow-Chromate Plated", "ZYC");
    abbrevs.put("Zinc Yellow Chromate Plated", "ZYC");
    abbrevs.put("Black Oxide", "BO");
    abbrevs.put("Black-Oxide", "BO");
    abbrevs.put("Cadmium Plated", "CD");
    abbrevs.put("Cadmium-Plated", "CD");
    abbrevs.put("Nickel Plated", "NI");
    abbrevs.put("Nickel-Plated", "NI");
    abbrevs.put("Chrome Plated", "CR");
    abbrevs.put("Chrome-Plated", "CR");
    abbrevs.put("Galvanized", "GAL");
    abbrevs
}

/// A registry with one template for each washer shape registered after its own.
pub open spec fn with_washer_types(
    registry: Seq<(Seq<char>, TemplateView)>,
    abbreviations: Seq<(Seq<char>, Seq<char>)>,
) -> Seq<(Seq<char>, TemplateView)> {
    registry
        .push(("cup_washer"@, template_of("CW"@, washer_fields(), None, abbreviations)))
        .push(("curved_washer"@, template_of("CRVW"@, washer_fields(), None, abbreviations)))
        .push(("dished_washer"@, template_of("DW"@, washer_fields(), None, abbreviations)))
        .push(("domed_washer"@, template_of("DMW"@, washer_fields(), None, abbreviations)))
        .push(("double_clipped_washer"@, template_of("DCW"@, washer_fields(), None, abbreviations)))
        .push(("clipped_washer"@, template_of("CLW"@, washer_fields(), None, abbreviations)))
        .push(("flat_washer"@, template_of("FW"@, washer_fields(), None, abbreviations)))
        .push(("hillside_washer"@, template_of("HW"@, washer_fields(), None, abbreviations)))
        .push(("notched_washer"@, template_of("NW"@, washer_fields(), None, abbreviations)))
        .push(("perforated_washer"@, template_of("PW"@, washer_fields(), None, abbreviations)))
        .push(("pronged_washer"@, template_of("PRW"@, washer_fields(), None, abbreviations)))
        .push(("rectangular_washer"@, template_of("RW"@, washer_fields(), None, abbreviations)))
        .push(("sleeve_washer"@, template_of("SW"@, washer_fields(), None, abbreviations)))
        .push(("slotted_washer"@, template_of("SLW"@, washer_fields(), None, abbreviations)))
        .push(("spherical_washer"@, template_of("SPW"@, washer_fields(), None, abbreviations)))
        .push(("split_washer"@, template_of("SPLW"@, washer_fields(), None, abbreviations)))
        .push(("square_washer"@, template_of("SQW"@, washer_fields(), None, abbreviations)))
        .push(("tab_washer"@, template_of("TW"@, washer_fields(), None, abbreviations)))
        .push(("tapered_washer"@, template_of("TPW"@, washer_fields(), None, abbreviations)))
        .push(("tooth_washer"@, template_of("TOW"@, washer_fields(), None, abbreviations)))
        .push(("wave_washer"@, template_of("WW"@, washer_fields(), None, abbreviations)))
        .push(("wedge_washer"@, template_of("WDW"@, washer_fields(), None, abbreviations)))
}

/// Registers one template for each washer shape.
pub fn initialize_all_washer_types(
    category_templates: &mut Table<NamingTemplate>,
    abbrevs: &Arc<Table<String>>,
)
    ensures
        final(category_templates)@ == with_washer_types(old(category_templates)@, abbrevs@),
        all_well_formed(old(category_templates)@) ==> all_well_formed(final(category_templates)@),
{
    proof {
        reveal_strlit("CW");
    }
    register(
        category_templates,
        "cup_washer",
        "CW",
        washer_field_names(),
        None,
        abbrevs,
    );
    proof {
        reveal_strlit("CRVW");
    }
    register(
        category_templates,
        "curved_washer",
        "CRVW",
        washer_field_names(),
        None,
        abbrevs,
    );
    proof {
        reveal_strlit("DW");
    }
    register(
        category_templates,
        "dished_washer",
        "DW",
        washer_field_names(),
        None,
        abbrevs,
    );
    proof {
        reveal_strlit("DMW");
    }
    register(
        category_templates,
        "domed_washer",
        "DMW",
        washer_field_names(),
        None,
        abbrevs,
    );
    proof {
        reveal_strlit("DCW");
    }
    register(
        category_templates,
        "double_clipped_washer",
        "DCW",
        washer_field_names(),
        None,
        abbrevs,
    );
    proof {
        reveal_strlit("CLW");
    }
    register(
        category_templates,
        "clipped_washer",
        "CLW",
        washer_field_names(),
        None,
        abbrevs,
    );
    proof {
        reveal_strlit("FW");
    }
    register(
        category_templates,
        "flat_washer",
        "FW",
        washer_field_names(),
        None,
        abbrevs,
    );
    proof {
        reveal_strlit("HW");
    }
    register(
        category_templates,
        "hillside_washer",
        "HW",
        washer_field_names(),
        None,
        abbrevs,
    );
    proof {
        reveal_strlit("NW");
    }
    register(
        category_templates,
        "notched_washer",
        "NW",
        washer_field_names(),
        None,
        abbrevs,
    );
    proof {
        reveal_strlit("PW");
    }
    register(
        category_templates,
        "perforated_washer",
        "PW",
        washer_field_names(),
        None,
        abbrevs,
    );
    proof {
        reveal_strlit("PRW");
    }
    register(
        category_templates,
        "pronged_washer",
        "PRW",
        washer_field_names(),
        None,
        abbrevs,
    );
    proof {
        reveal_strlit("RW");
    }
    register(
        category_templates,
        "rectangular_washer",
        "RW",
        washer_field_names(),
        None,
        abbrevs,
    );
    proof {
        reveal_strlit("SW");
    }
    register(
        category_templates,
        "sleeve_washer",
        "SW",
        washer_field_names(),
        None,
        abbrevs,
    );
    proof {
        reveal_strlit("SLW");
    }
    register(
        category_templates,
        "slotted_washer",
        "SLW",
        washer_field_names(),
        None,
        abbrevs,
    );
    proof {
        reveal_strlit("SPW");
    }
    register(
        category_templates,
        "spherical_washer",
        "SPW",
        washer_field_names(),
        None,
        abbrevs,
    );
    proof {
        reveal_strlit("SPLW");
    }
    register(
        category_templates,
        "split_washer",
        "SPLW",
        washer_field_names(),
        None,
        abbrevs,
    );
    proof {
        reveal_strlit("SQW");
    }
    register(
        category_templates,
        "square_washer",
        "SQW",
        washer_field_names(),
        None,
        abbrevs,
    );
    proof {
        reveal_strlit("TW");
    }
    register(
        category_templates,
        "tab_washer",
        "TW",
        washer_field_names(),
        None,
        abbrevs,
    );
    proof {
        reveal_strlit("TPW");
    }
    register(
        category_templates,
        "tapered_washer",
        "TPW",
        washer_field_names(),
        None,
        abbrevs,
    );
    proof {
        reveal_strlit("TOW");
    }
    register(
        category_templates,
        "tooth_washer",
        "TOW",
        washer_field_names(),
        None,
        abbrevs,
    );
    proof {
        reveal_strlit("WW");
    }
    register(
        category_templates,
        "wave_washer",
        "WW",
        washer_field_names(),
        None,
        abbrevs,
    );
    proof {
        reveal_strlit("WDW");
    }
    register(
        category_templates,
        "wedge_washer",
        "WDW",
        washer_field_names(),
        None,
        abbrevs,
    );
}

/// What was registered stays registered, and every key of this step is
/// registered after it.
pub proof fn lemma_with_washer_types_keys(
    registry: Seq<(Seq<char>, TemplateView)>,
    abbreviations: Seq<(Seq<char>, Seq<char>)>,
)
    ensures
        forall|key: Seq<char>|
            lookup(registry, key) is Some ==> (#[trigger] lookup(with_washer_types(registry, abbreviations), key)) is Some,
        lookup(with_washer_types(registry, abbreviations), "cup_washer"@) is Some,
        lookup(with_washer_types(registry, abbreviations), "curved_washer"@) is Some,
        lookup(with_washer_types(registry, abbreviations), "dished_washer"@) is Some,
        lookup(with_washer_types(registry, abbreviations), "domed_washer"@) is Some,
        lookup(with_washer_types(registry, abbreviations), "double_clipped_washer"@) is Some,
        lookup(with_washer_types(registry, abbreviations), "clipped_washer"@) is Some,
        lookup(with_washer_types(registry, abbreviations), "flat_washer"@) is Some,
        lookup(with_washer_types(registry, abbreviations), "hillside_washer"@) is Some,
        lookup(with_washer_types(registry, abbreviations), "notched_washer"@) is Some,
        lookup(with_washer_types(registry, abbreviations), "perforated_washer"@) is Some,
        lookup(with_washer_types(registry, abbreviations), "pronged_washer"@) is Some,
        lookup(with_washer_types(registry, abbreviations), "rectangular_washer"@) is Some,
        lookup(with_washer_types(registry, abbreviations), "sleeve_washer"@) is Some,
        lookup(with_washer_types(registry, abbreviations), "slotted_washer"@) is Some,
        lookup(with_washer_types(registry, abbreviations), "spherical_washer"@) is Some,
        lookup(with_washer_types(registry, abbreviations), "split_washer"@) is Some,
        lookup(with_washer_types(registry, abbreviations), "square_washer"@) is Some,
        lookup(with_washer_types(registry, abbreviations), "tab_washer"@) is Some,
        lookup(with_washer_types(registry, abbreviations), "tapered_washer"@) is Some,
        lookup(with_washer_types(registry, abbreviations), "tooth_washer"@) is Some,
        lookup(with_washer_types(registry, abbreviations), "wave_washer"@) is Some,
        lookup(with_washer_types(registry, abbreviations), "wedge_washer"@) is Some,
{
    lemma_push_keeps_keys::<TemplateView>();
}

/// A registry with the washer templates registered after its own, in this order.
pub open spec fn with_washer_templates(registry: Seq<(Seq<char>, TemplateView)>) -> Seq<
    (Seq<char>, TemplateView),
> {
    with_washer_types(registry, washer_abbreviations())
}

/// Registers every washer template, all sharing one dictionary.
pub fn initialize_washer_templates(category_templates: &mut Table<NamingTemplate>)
    ensures
        final(category_templates)@ == with_washer_templates(old(category_templates)@),
        all_well_formed(old(category_templates)@) ==> all_well_formed(final(category_templates)@),
{
    let abbrevs = Arc::new(create_washer_abbreviations());
    initialize_all_washer_types(category_templates, &abbrevs);
}

/// What was registered stays registered, and every key of this step is
/// registered after it.
pub proof fn lemma_with_washer_templates_keys(
    registry: Seq<(Seq<char>, TemplateView)>,
)
    ensures
        forall|key: Seq<char>|
            lookup(registry, key) is Some ==> (#[trigger] lookup(with_washer_templates(registry), key)) is Some,
        lookup(with_washer_templates(registry), "cup_washer"@) is Some,
        lookup(with_washer_templates(registry), "curved_washer"@) is Some,
        lookup(with_washer_templates(registry), "dished_washer"@) is Some,
        lookup(with_washer_templates(registry), "domed_washer"@) is Some,
        lookup(with_washer_templates(registry), "double_clipped_washer"@) is Some,
        lookup(with_washer_templates(registry), "clipped_washer"@) is Some,
        lookup(with_washer_templates(registry), "flat_washer"@) is Some,
        lookup(with_washer_templates(registry), "hillside_washer"@) is Some,
        lookup(with_washer_templates(registry), "notched_washer"@) is Some,
        lookup(with_washer_templates(registry), "perforated_washer"@) is Some,
        lookup(with_washer_templates(registry), "pronged_washer"@) is Some,
        lookup(with_washer_templates(registry), "rectangular_washer"@) is Some,
        lookup(with_washer_templates(registry), "sleeve_washer"@) is Some,
        lookup(with_washer_templates(registry), "slotted_washer"@) is Some,
        lookup(with_washer_templates(registry), "spherical_washer"@) is Some,
        lookup(with_washer_templates(registry), "split_washer"@) is Some,
        lookup(with_washer_templates(registry), "square_washer"@) is Some,
        lookup(with_washer_templates(registry), "tab_washer"@) is Some,
        lookup(with_washer_templates(registry), "tapered_washer"@) is Some,
        lookup(with_washer_templates(registry), "tooth_washer"@) is Some,
        lookup(with_washer_templates(registry), "wave_washer"@) is Some,
        lookup(with_washer_templates(registry), "wedge_washer"@) is Some,
{
    lemma_with_washer_types_keys(registry, washer_abbreviations());
}

} // verus!
