//! Pulley naming templates.

use crate::naming::generator::{all_well_formed, register, template_of, NamingTemplate, TemplateView};
use crate::naming::table::{lemma_push_keeps_keys, lookup, Table};
use crate::text::slices;
use std::sync::Arc;
use vstd::prelude::*;

verus! {

/// The fields of a pulley for rope.
pub open spec fn rope_pulley_fields() -> Seq<Seq<char>> {
    seq![
        "Material"@,
        "For Rope Diameter"@,
        "OD"@,
        "Bearing Type"@,
    ]
}

/// The fields of a pulley for rope.
fn rope_pulley_field_names() -> (r: Vec<&'static str>)
    ensures
        slices(r@) == rope_pulley_fields(),
        r.len() > 0,
{
    let r = vec!["Material", "For Rope Diameter", "OD", "Bearing Type"];
    assert(slices(r@) =~= rope_pulley_fields());
    r
}

/// The fields of a pulley for a belt.
pub open spec fn belt_pulley_fields() -> Seq<Seq<char>> {
    seq![
        "Material"@,
        "For Belt Width"@,
        "OD"@,
        "Bearing Type"@,
    ]
}

/// The fields of a pulley for a belt.
fn belt_pulley_field_names() -> (r: Vec<&'static str>)
    ensures
        slices(r@) == belt_pulley_fields(),
        r.len() > 0,
{
    let r = vec!["Material", "For Belt Width", "OD", "Bearing Type"];
    assert(slices(r@) =~= belt_pulley_fields());
    r
}

/// The fields of any other pulley.
pub open spec fn generic_pulley_fields() -> Seq<Seq<char>> {
    seq![
        "Material"@,
        "OD"@,
        "Bearing Type"@,
    ]
}

/// The fields of any other pulley.
fn generic_pulley_field_names() -> (r: Vec<&'static str>)
    ensures
        slices(r@) == generic_pulley_fields(),
        r.len() > 0,
{
    let r = vec!["Material", "OD", "Bearing Type"];
    assert(slices(r@) =~= generic_pulley_fields());
    r
}

/// The dictionary of the pulley templates: materials, bearing types and applications.
pub open spec fn pulley_abbreviations() -> Seq<(Seq<char>, Seq<char>)> {
    Seq::<(Seq<char>, Seq<char>)>::empty()
        .push(("Steel"@, "S"@))
        .push(("Stainless Steel"@, "SS"@))
        .push(("303 Stainless Steel"@, "SS303"@))
        .push(("316 Stainless Steel"@, "SS316"@))
        .push(("Aluminum"@, "AL"@))
        .push(("Bronze"@, "BR"@))
        .push(("Cast Iron"@, "CI"@))
        .push(("Plastic"@, "PL"@))
        .push(("Nylon"@, "NYL"@))
        .push(("Ball"@, "BALL"@))
        .push(("Plain"@, "PLAIN"@))
        .push(("Roller"@, "ROLLER"@))
        .push(("None"@, "NONE"@))
        .push(("For Pulling"@, "PULL"@))
        .push(("For Lifting"@, "LIFT"@))
        .push(("For Horizontal Pulling"@, "HPULL"@))
}

/// Builds the dictionary that the templates of this family share.
fn create_pulley_abbreviations() -> (abbrevs: Table<String>)
    ensures
        abbrevs@ == pulley_abbreviations(),
{
    let mut abbrevs: Table<String> = Table::new();
    abbrevs.put("Steel", "S");
    abbrevs.put("Stainless Steel", "SS");
    abbrevs.put("303 Stainless Steel", "SS303");
    abbrevs.put("316 Stainless Steel", "SS316");
    abbrevs.put("Aluminum", "AL");
    abbrevs.put("Bronze", "BR");
    abbrevs.put("Cast Iron", "CI");
    abbrevs.put("Plastic", "PL");
    abbrevs.put("Nylon", "NYL");
    abbrevs.put("Ball", "BALL");
    abbrevs.put("Plain", "PLAIN");
    abbrevs.put("Roller", "ROLLER");
    abbrevs.put("None", "NONE");
    abbrevs.put("For Pulling", "PULL");
    abbrevs.put("For Lifting", "LIFT");
    abbrevs.put("For Horizontal Pulling", "HPULL");
    abbrevs
}

/// A registry with the pulley templates registered after its own, in this order.
pub open spec fn with_pulley_templates(registry: Seq<(Seq<char>, TemplateView)>) -> Seq<
    (Seq<char>, TemplateView),
> {
    registry
        .push(("wire_rope_pulley"@, template_of("WRP"@, rope_pulley_fields(), None, pulley_abbreviations())))
        .push(("rope_pulley"@, template_of("RP"@, rope_pulley_fields(), None, pulley_abbreviations())))
        .push(("v_belt_pulley"@, template_of("VBP"@, belt_pulley_fields(), None, pulley_abbreviations())))
        .push(("pulley"@, template_of("PUL"@, generic_pulley_fields(), None, pulley_abbreviations())))
        .push(("sheave"@, template_of("SHV"@, rope_pulley_fields(), None, pulley_abbreviations())))
}

/// Registers every pulley template, all sharing one dictionary.
pub fn initialize_pulley_templates(category_templates: &mut Table<NamingTemplate>)
    ensures
        final(category_templates)@ == with_pulley_templates(old(category_templates)@),
        all_well_formed(old(category_templates)@) ==> all_well_formed(final(category_templates)@),
{
    let abbrevs = Arc::new(create_pulley_abbreviations());
    proof {
        reveal_strlit("WRP");
    }
    register(
        category_templates,
        "wire_rope_pulley",
        "WRP",
        rope_pulley_field_names(),
        None,
        &abbrevs,
    );
    proof {
        reveal_strlit("RP");
    }
    register(
        category_templates,
        "rope_pulley",
        "RP",
        rope_pulley_field_names(),
        None,
        &abbrevs,
    );
    proof {
        reveal_strlit("VBP");
    }
    register(
        category_templates,
        "v_belt_pulley",
        "VBP",
        belt_pulley_field_names(),
        None,
        &abbrevs,
    );
    proof {
        reveal_strlit("PUL");
    }
    register(
        category_templates,
        "pulley",
        "PUL",
        generic_pulley_field_names(),
        None,
        &abbrevs,
    );
    proof {
        reveal_strlit("SHV");
    }
    register(
        category_templates,
        "sheave",
        "SHV",
        rope_pulley_field_names(),
        None,
        &abbrevs,
    );
}

/// What was registered stays registered, and every key of this step is
/// registered after it.
pub proof fn lemma_with_pulley_templates_keys(
    registry: Seq<(Seq<char>, TemplateView)>,
)
    ensures
        forall|key: Seq<char>|
            lookup(registry, key) is Some ==> (#[trigger] lookup(with_pulley_templates(registry), key)) is Some,
        lookup(with_pulley_templates(registry), "wire_rope_pulley"@) is Some,
        lookup(with_pulley_templates(registry), "rope_pulley"@) is Some,
        lookup(with_pulley_templates(registry), "v_belt_pulley"@) is Some,
        lookup(with_pulley_templates(registry), "pulley"@) is Some,
        lookup(with_pulley_templates(registry), "sheave"@) is Some,
{
    lemma_push_keeps_keys::<TemplateView>();
}

} // verus!
