//! Latch naming templates.

use crate::naming::generator::{all_well_formed, register, template_of, NamingTemplate, TemplateView};
use crate::naming::table::{lemma_push_keeps_keys, lookup, Table};
use crate::text::slices;
use std::sync::Arc;
use vstd::prelude::*;

verus! {

/// The fields of a draw latch.
pub open spec fn draw_latch_fields() -> Seq<Seq<char>> {
    seq![
        "Material"@,
        "Mount Type"@,
        "Latching Distance"@,
        "Draw Latch Type"@,
    ]
}

/// The fields of a draw latch.
fn draw_latch_field_names() -> (r: Vec<&'static str>)
    ensures
        slices(r@) == draw_latch_fields(),
        r.len() > 0,
{
    let r = vec!["Material", "Mount Type", "Latching Distance", "Draw Latch Type"];
    assert(slices(r@) =~= draw_latch_fields());
    r
}

/// The fields of a toggle latch.
pub open spec fn toggle_latch_fields() -> Seq<Seq<char>> {
    seq![
        "Material"@,
        "Mount Type"@,
        "Latching Distance"@,
    ]
}

/// The fields of a toggle latch.
fn toggle_latch_field_names() -> (r: Vec<&'static str>)
    ensures
        slices(r@) == toggle_latch_fields(),
        r.len() > 0,
{
    let r = vec!["Material", "Mount Type", "Latching Distance"];
    assert(slices(r@) =~= toggle_latch_fields());
    r
}

/// The fields of any other latch.
pub open spec fn simple_latch_fields() -> Seq<Seq<char>> {
    seq![
        "Material"@,
        "Mount Type"@,
    ]
}

/// The fields of any other latch.
fn simple_latch_field_names() -> (r: Vec<&'static str>)
    ensures
        slices(r@) == simple_latch_fields(),
        r.len() > 0,
{
    let r = vec!["Material", "Mount Type"];
    assert(slices(r@) =~= simple_latch_fields());
    r
}

/// The dictionary of the latch templates: materials, mount types, latching distances, latch types and capacities.
pub open spec fn latch_abbreviations() -> Seq<(Seq<char>, Seq<char>)> {
    Seq::<(Seq<char>, Seq<char>)>::empty()
        .push(("304 Stainless Steel"@, "SS304"@))
        .push(("316 Stainless Steel"@, "SS316"@))
        .push(("18-8 Stainless Steel"@, "SS188"@))
        .push(("Stainless Steel"@, "SS"@))
        .push(("Steel"@, "STEEL"@))
        .push(("Aluminum"@, "AL"@))
        .push(("Brass"@, "BRASS"@))
        .push(("Zinc Plated Steel"@, "STEEL-ZP"@))
        .push(("Chrome Plated Steel"@, "STEEL-CR"@))
        .push(("Screw On"@, "SO"@))
        .push(("Screw-On"@, "SO"@))
        .push(("Weld On"@, "WO"@))
        .push(("Weld-On"@, "WO"@))
        .push(("Bolt On"@, "BO"@))
        .push(("Bolt-On"@, "BO"@))
        .push(("Surface Mount"@, "SM"@))
        .push(("Surface"@, "SM"@))
        .push(("1/8\""@, "0.125"@))
        .push(("3/16\""@, "0.1875"@))
        .push(("1/4\""@, "0.25"@))
        .push(("5/16\""@, "0.3125"@))
        .push(("3/8\""@, "0.375"@))
        .push(("1/2\""@, "0.5"@))
        .push(("5/8\""@, "0.625"@))
        .push(("3/4\""@, "0.75"@))
        .push(("1\""@, "1"@))
        .push(("Locking"@, "L"@))
        .push(("Nonlocking"@, "NL"@))
        .push(("Non-locking"@, "NL"@))
        .push(("Keyed"@, "K"@))
        .push(("Adjustable"@, "ADJ"@))
        .push(("Fixed"@, "F"@))
        .push(("130 lbs."@, "130"@))
        .push(("200 lbs."@, "200"@))
        .push(("250 lbs."@, "250"@))
        .push(("300 lbs."@, "300"@))
        .push(("400 lbs."@, "400"@))
        .push(("500 lbs."@, "500"@))
}

/// Builds the dictionary that every template of this family shares.
fn create_latch_abbreviations() -> (abbrevs: Table<String>)
    ensures
        abbrevs@ == latch_abbreviations(),
{
    let mut abbrevs: Table<String> = Table::new();
    abbrevs.put("304 Stainless Steel", "SS304");
    abbrevs.put("316 Stainless Steel", "SS316");
    abbrevs.put("18-8 Stainless Steel", "SS188");
    abbrevs.put("Stainless Steel", "SS");
    abbrevs.put("Steel", "STEEL");
    abbrevs.put("Aluminum", "AL");
    abbrevs.put("Brass", "BRASS");
    abbrevs.put("Zinc Plated Steel", "STEEL-ZP");
    abbrevs.put("Chrome Plated Steel", "STEEL-CR");
    abbrevs.put("Screw On", "SO");
    abbrevs.put("Screw-On", "SO");
    abbrevs.put("Weld On", "WO");
    abbrevs.put("Weld-On", "WO");
    abbrevs.put("Bolt On", "BO");
    abbrevs.put("Bolt-On", "BO");
    abbrevs.put("Surface Mount", "SM");
    abbrevs.put("Surface", "SM");
    abbrevs.put("1/8\"", "0.125");
    abbrevs.put("3/16\"", "0.1875");
    abbrevs.put("1/4\"", "0.25");
    abbrevs.put("5/16\"", "0.3125");
    abbrevs.put("3/8\"", "0.375");
    abbrevs.put("1/2\"", "0.5");
    abbrevs.put("5/8\"", "0.625");
    abbrevs.put("3/4\"", "0.75");
    abbrevs.put("1\"", "1");
    abbrevs.put("Locking", "L");
    abbrevs.put("Nonlocking", "NL");
    abbrevs.put("Non-locking", "NL");
    abbrevs.put("Keyed", "K");
    abbrevs.put("Adjustable", "ADJ");
    abbrevs.put("Fixed", "F");
    abbrevs.put("130 lbs.", "130");
    abbrevs.put("200 lbs.", "200");
    abbrevs.put("250 lbs.", "250");
    abbrevs.put("300 lbs.", "300");
    abbrevs.put("400 lbs.", "400");
    abbrevs.put("500 lbs.", "500");
    abbrevs
}

/// A registry with one template for each kind of latch registered after its own.
pub open spec fn with_latch_types(
    registry: Seq<(Seq<char>, TemplateView)>,
    abbreviations: Seq<(Seq<char>, Seq<char>)>,
) -> Seq<(Seq<char>, TemplateView)> {
    registry
        .push(("draw_latch"@, template_of("DL"@, draw_latch_fields(), None, abbreviations)))
        .push(("toggle_latch"@, template_of("TL"@, toggle_latch_fields(), None, abbreviations)))
        .push(("compression_latch"@, template_of("CL"@, simple_latch_fields(), None, abbreviations)))
        .push(("slam_latch"@, template_of("SL"@, simple_latch_fields(), None, abbreviations)))
        .push(("generic_latch"@, template_of("LATCH"@, simple_latch_fields(), None, abbreviations)))
}

/// Registers one template for each kind of latch.
pub fn initialize_latch_types(
    category_templates: &mut Table<NamingTemplate>,
    abbrevs: &Arc<Table<String>>,
)
    ensures
        final(category_templates)@ == with_latch_types(old(category_templates)@, abbrevs@),
        all_well_formed(old(category_templates)@) ==> all_well_formed(final(category_templates)@),
{
    proof {
        reveal_strlit("DL");
    }
    register(
        category_templates,
        "draw_latch",
        "DL",
        draw_latch_field_names(),
        None,
        abbrevs,
    );
    proof {
        reveal_strlit("TL");
    }
    register(
        category_templates,
        "toggle_latch",
        "TL",
        toggle_latch_field_names(),
        None,
        abbrevs,
    );
    proof {
        reveal_strlit("CL");
    }
    register(
        category_templates,
        "compression_latch",
        "CL",
        simple_latch_field_names(),
        None,
        abbrevs,
    );
    proof {
        reveal_strlit("SL");
    }
    register(
        category_templates,
        "slam_latch",
        "SL",
        simple_latch_field_names(),
        None,
        abbrevs,
    );
    proof {
        reveal_strlit("LATCH");
    }
    register(
        category_templates,
        "generic_latch",
        "LATCH",
        simple_latch_field_names(),
        None,
        abbrevs,
    );
}

/// What was registered stays registered, and every key of this step is
/// registered after it.
pub proof fn lemma_with_latch_types_keys(
    registry: Seq<(Seq<char>, TemplateView)>,
    abbreviations: Seq<(Seq<char>, Seq<char>)>,
)
    ensures
        forall|key: Seq<char>|
            lookup(registry, key) is Some ==> (#[trigger] lookup(with_latch_types(registry, abbreviations), key)) is Some,
        lookup(with_latch_types(registry, abbreviations), "draw_latch"@) is Some,
        lookup(with_latch_types(registry, abbreviations), "toggle_latch"@) is Some,
        lookup(with_latch_types(registry, abbreviations), "compression_latch"@) is Some,
        lookup(with_latch_types(registry, abbreviations), "slam_latch"@) is Some,
        lookup(with_latch_types(registry, abbreviations), "generic_latch"@) is Some,
{
    lemma_push_keeps_keys::<TemplateView>();
}

/// A registry with the latch templates registered after its own, in this order.
pub open spec fn with_latch_templates(registry: Seq<(Seq<char>, TemplateView)>) -> Seq<
    (Seq<char>, TemplateView),
> {
    with_latch_types(registry, latch_abbreviations())
}

/// Registers every latch template, all sharing one dictionary.
pub fn initialize_latch_templates(category_templates: &mut Table<NamingTemplate>)
    ensures
        final(category_templates)@ == with_latch_templates(old(category_templates)@),
        all_well_formed(old(category_templates)@) ==> all_well_formed(final(category_templates)@),
{
    let abbrevs = Arc::new(create_latch_abbreviations());
    initialize_latch_types(category_templates, &abbrevs);
}

/// What was registered stays registered, and every key of this step is
/// registered after it.
pub proof fn lemma_with_latch_templates_keys(
    registry: Seq<(Seq<char>, TemplateView)>,
)
    ensures
        forall|key: Seq<char>|
            lookup(registry, key) is Some ==> (#[trigger] lookup(with_latch_templates(registry), key)) is Some,
        lookup(with_latch_templates(registry), "draw_latch"@) is Some,
        lookup(with_latch_templates(registry), "toggle_latch"@) is Some,
        lookup(with_latch_templates(registry), "compression_latch"@) is Some,
        lookup(with_latch_templates(registry), "slam_latch"@) is Some,
        lookup(with_latch_templates(registry), "generic_latch"@) is Some,
{
    lemma_with_latch_types_keys(registry, latch_abbreviations());
}

} // verus!
