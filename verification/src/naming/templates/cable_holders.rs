//! Cable holder naming templates.

use crate::naming::generator::{all_well_formed, register, template_of, NamingTemplate, TemplateView};
use crate::naming::table::{lemma_push_keeps_keys, lookup, Table};
use crate::text::slices;
use std::sync::Arc;
use vstd::prelude::*;

verus! {

/// The fields of a cable holder that is screwed on.
pub open spec fn cable_holder_fields() -> Seq<Seq<char>> {
    seq![
        "Material"@,
        "Mount Type"@,
        "For Maximum Bundle Diameter"@,
        "For Screw Size"@,
    ]
}

/// The fields of a cable holder that is screwed on.
fn cable_holder_field_names() -> (r: Vec<&'static str>)
    ensures
        slices(r@) == cable_holder_fields(),
        r.len() > 0,
{
    let r = vec!["Material", "Mount Type", "For Maximum Bundle Diameter", "For Screw Size"];
    assert(slices(r@) =~= cable_holder_fields());
    r
}

/// The fields of any other cable holder.
pub open spec fn generic_cable_holder_fields() -> Seq<Seq<char>> {
    seq![
        "Material"@,
        "Mount Type"@,
        "For Maximum Bundle Diameter"@,
    ]
}

/// The fields of any other cable holder.
fn generic_cable_holder_field_names() -> (r: Vec<&'static str>)
    ensures
        slices(r@) == generic_cable_holder_fields(),
        r.len() > 0,
{
    let r = vec!["Material", "Mount Type", "For Maximum Bundle Diameter"];
    assert(slices(r@) =~= generic_cable_holder_fields());
    r
}

/// The dictionary of the cable holder templates: materials, mount types, bundle diameters and screw sizes.
pub open spec fn cable_holder_abbreviations() -> Seq<(Seq<char>, Seq<char>)> {
    Seq::<(Seq<char>, Seq<char>)>::empty()
        .push(("Nylon Plastic"@, "NY"@))
        .push(("Plastic"@, "PL"@))
        .push(("Polyethylene"@, "PE"@))
        .push(("Polypropylene"@, "PP"@))
        .push(("PVC"@, "PVC"@))
        .push(("Aluminum"@, "AL"@))
        .push(("Steel"@, "STEEL"@))
        .push(("Stainless Steel"@, "SS"@))
        .push(("Screw In"@, "SI"@))
        .push(("Screw-In"@, "SI"@))
        .push(("Adhesive"@, "ADH"@))
        .push(("Self-Adhesive"@, "ADH"@))
        .push(("Snap In"@, "SNP"@))
        .push(("Snap-In"@, "SNP"@))
        .push(("Push Mount"@, "PUSH"@))
        .push(("Tie Mount"@, "TIE"@))
        .push(("1/8\""@, "0.125"@))
        .push(("3/16\""@, "0.1875"@))
        .push(("1/4\""@, "0.25"@))
        .push(("5/16\""@, "0.3125"@))
        .push(("3/8\""@, "0.375"@))
        .push(("1/2\""@, "0.5"@))
        .push(("5/8\""@, "0.625"@))
        .push(("3/4\""@, "0.75"@))
        .push(("1\""@, "1"@))
        .push(("No. 4"@, "4"@))
        .push(("No. 6"@, "6"@))
        .push(("No. 8"@, "8"@))
        .push(("No. 10"@, "10"@))
        .push(("#4"@, "4"@))
        .push(("#6"@, "6"@))
        .push(("#8"@, "8"@))
        .push(("#10"@, "10"@))
}

/// Builds the dictionary that every template of this family shares.
fn create_cable_holder_abbreviations() -> (abbrevs: Table<String>)
    ensures
        abbrevs@ == cable_holder_abbreviations(),
{
    let mut abbrevs: Table<String> = Table::new();
    abbrevs.put("Nylon Plastic", "NY");
    abbrevs.put("Plastic", "PL");
    abbrevs.put("Polyethylene", "PE");
    abbrevs.put("Polypropylene", "PP");
    abbrevs.put("PVC", "PVC");
    abbrevs.put("Aluminum", "AL");
    abbrevs.put("Steel", "STEEL");
    abbrevs.put("Stainless Steel", "SS");
    abbrevs.put("Screw In", "SI");
    abbrevs.put("Screw-In", "SI");
    abbrevs.put("Adhesive", "ADH");
    abbrevs.put("Self-Adhesive", "ADH");
    abbrevs.put("Snap In", "SNP");
    abbrevs.put("Snap-In", "SNP");
    abbrevs.put("Push Mount", "PUSH");
    abbrevs.put("Tie Mount", "TIE");
    abbrevs.put("1/8\"", "0.125");
    abbrevs.put("3/16\"", "0.1875");
    abbrevs.put("1/4\"", "0.25");
    abbrevs.put("5/16\"", "0.3125");
    abbrevs.put("3/8\"", "0.375");
    abbrevs.put("1/2\"", "0.5");
    abbrevs.put("5/8\"", "0.625");
    abbrevs.put("3/4\"", "0.75");
    abbrevs.put("1\"", "1");
    abbrevs.put("No. 4", "4");
    abbrevs.put("No. 6", "6");
    abbrevs.put("No. 8", "8");
    abbrevs.put("No. 10", "10");
    abbrevs.put("#4", "4");
    abbrevs.put("#6", "6");
    abbrevs.put("#8", "8");
    abbrevs.put("#10", "10");
    abbrevs
}

/// A registry with the cable holder templates registered after its own.
pub open spec fn with_cable_holder_types(
    registry: Seq<(Seq<char>, TemplateView)>,
    abbreviations: Seq<(Seq<char>, Seq<char>)>,
) -> Seq<(Seq<char>, TemplateView)> {
    registry
        .push(("cable_holder"@, template_of("CH"@, cable_holder_fields(), None, abbreviations)))
        .push(("generic_cable_holder"@, template_of("CH"@, generic_cable_holder_fields(), None, abbreviations)))
}

/// Registers the cable holder templates.
pub fn initialize_cable_holder_types(
    category_templates: &mut Table<NamingTemplate>,
    abbrevs: &Arc<Table<String>>,
)
    ensures
        final(category_templates)@ == with_cable_holder_types(old(category_templates)@, abbrevs@),
        all_well_formed(old(category_templates)@) ==> all_well_formed(final(category_templates)@),
{
    proof {
        reveal_strlit("CH");
    }
    register(
        category_templates,
        "cable_holder",
        "CH",
        cable_holder_field_names(),
        None,
        abbrevs,
    );
    proof {
        reveal_strlit("CH");
    }
    register(
        category_templates,
        "generic_cable_holder",
        "CH",
        generic_cable_holder_field_names(),
        None,
        abbrevs,
    );
}

/// What was registered stays registered, and every key of this step is
/// registered after it.
pub proof fn lemma_with_cable_holder_types_keys(
    registry: Seq<(Seq<char>, TemplateView)>,
    abbreviations: Seq<(Seq<char>, Seq<char>)>,
)
    ensures
        forall|key: Seq<char>|
            lookup(registry, key) is Some ==> (#[trigger] lookup(with_cable_holder_types(registry, abbreviations), key)) is Some,
        lookup(with_cable_holder_types(registry, abbreviations), "cable_holder"@) is Some,
        lookup(with_cable_holder_types(registry, abbreviations), "generic_cable_holder"@) is Some,
{
    lemma_push_keeps_keys::<TemplateView>();
}

/// A registry with the cable holder templates registered after its own, in this order.
pub open spec fn with_cable_holder_templates(registry: Seq<(Seq<char>, TemplateView)>) -> Seq<
    (Seq<char>, TemplateView),
> {
    with_cable_holder_types(registry, cable_holder_abbreviations())
}

/// Registers every cable holder template, all sharing one dictionary.
pub fn initialize_cable_holder_templates(category_templates: &mut Table<NamingTemplate>)
    ensures
        final(category_templates)@ == with_cable_holder_templates(old(category_templates)@),
        all_well_formed(old(category_templates)@) ==> all_well_formed(final(category_templates)@),
{
    let abbrevs = Arc::new(create_cable_holder_abbreviations());
    initialize_cable_holder_types(category_templates, &abbrevs);
}

/// What was registered stays registered, and every key of this step is
/// registered after it.
pub proof fn lemma_with_cable_holder_templates_keys(
    registry: Seq<(Seq<char>, TemplateView)>,
)
    ensures
        forall|key: Seq<char>|
            lookup(registry, key) is Some ==> (#[trigger] lookup(with_cable_holder_templates(registry), key)) is Some,
        lookup(with_cable_holder_templates(registry), "cable_holder"@) is Some,
        lookup(with_cable_holder_templates(registry), "generic_cable_holder"@) is Some,
{
    lemma_with_cable_holder_types_keys(registry, cable_holder_abbreviations());
}

} // verus!
