//! Bearing naming templates.

use crate::naming::generator::{all_well_formed, register, template_of, NamingTemplate, TemplateView};
use crate::naming::table::{lemma_push_keeps_keys, lookup, Table};
use crate::text::slices;
use std::sync::Arc;
use vstd::prelude::*;

verus! {

/// The fields of a sleeve or flanged bearing.
pub open spec fn sleeve_bearing_fields() -> Seq<Seq<char>> {
    seq![
        "Material"@,
        "For Shaft Diameter"@,
        "OD"@,
        "Length"@,
    ]
}

/// The fields of a sleeve or flanged bearing.
fn sleeve_bearing_field_names() -> (r: Vec<&'static str>)
    ensures
        slices(r@) == sleeve_bearing_fields(),
        r.len() > 0,
{
    let r = vec!["Material", "For Shaft Diameter", "OD", "Length"];
    assert(slices(r@) =~= sleeve_bearing_fields());
    r
}

/// The fields of a ball bearing.
pub open spec fn ball_bearing_fields() -> Seq<Seq<char>> {
    seq![
        "Material"@,
        "Bore"@,
        "OD"@,
    ]
}

/// The fields of a ball bearing.
fn ball_bearing_field_names() -> (r: Vec<&'static str>)
    ensures
        slices(r@) == ball_bearing_fields(),
        r.len() > 0,
{
    let r = vec!["Material", "Bore", "OD"];
    assert(slices(r@) =~= ball_bearing_fields());
    r
}

/// The fields of a linear bearing.
pub open spec fn linear_bearing_fields() -> Seq<Seq<char>> {
    seq![
        "Material"@,
        "For Shaft Diameter"@,
        "Length"@,
    ]
}

/// The fields of a linear bearing.
fn linear_bearing_field_names() -> (r: Vec<&'static str>)
    ensures
        slices(r@) == linear_bearing_fields(),
        r.len() > 0,
{
    let r = vec!["Material", "For Shaft Diameter", "Length"];
    assert(slices(r@) =~= linear_bearing_fields());
    r
}

/// The fields of a needle or roller bearing.
pub open spec fn rolling_bearing_fields() -> Seq<Seq<char>> {
    seq![
        "Material"@,
        "Bore"@,
        "OD"@,
        "Length"@,
    ]
}

/// The fields of a needle or roller bearing.
fn rolling_bearing_field_names() -> (r: Vec<&'static str>)
    ensures
        slices(r@) == rolling_bearing_fields(),
        r.len() > 0,
{
    let r = vec!["Material", "Bore", "OD", "Length"];
    assert(slices(r@) =~= rolling_bearing_fields());
    r
}

/// The fields of a flange or pillow-block mounted bearing.
pub open spec fn mounted_bearing_fields() -> Seq<Seq<char>> {
    seq![
        "Housing Material"@,
        "For Shaft Diameter"@,
        "Mounting Hole Center -to-Center"@,
        "Overall Height"@,
    ]
}

/// The fields of a flange or pillow-block mounted bearing.
fn mounted_bearing_field_names() -> (r: Vec<&'static str>)
    ensures
        slices(r@) == mounted_bearing_fields(),
        r.len() > 0,
{
    let r = vec!["Housing Material", "For Shaft Diameter", "Mounting Hole Center -to-Center", "Overall Height"];
    assert(slices(r@) =~= mounted_bearing_fields());
    r
}

/// The fields of any other mounted bearing.
pub open spec fn generic_mounted_bearing_fields() -> Seq<Seq<char>> {
    seq![
        "Housing Material"@,
        "For Shaft Diameter"@,
        "Overall Height"@,
    ]
}

/// The fields of any other mounted bearing.
fn generic_mounted_bearing_field_names() -> (r: Vec<&'static str>)
    ensures
        slices(r@) == generic_mounted_bearing_fields(),
        r.len() > 0,
{
    let r = vec!["Housing Material", "For Shaft Diameter", "Overall Height"];
    assert(slices(r@) =~= generic_mounted_bearing_fields());
    r
}

/// The fields of any other bearing.
pub open spec fn generic_bearing_fields() -> Seq<Seq<char>> {
    seq![
        "Material"@,
        "Type"@,
    ]
}

/// The fields of any other bearing.
fn generic_bearing_field_names() -> (r: Vec<&'static str>)
    ensures
        slices(r@) == generic_bearing_fields(),
        r.len() > 0,
{
    let r = vec!["Material", "Type"];
    assert(slices(r@) =~= generic_bearing_fields());
    r
}

/// The dictionary of the bearing templates: bearing materials.
pub open spec fn bearing_abbreviations() -> Seq<(Seq<char>, Seq<char>)> {
    Seq::<(Seq<char>, Seq<char>)>::empty()
        .push(("MDS-Filled Nylon Plastic"@, "MDSNYL"@))
        .push(("MDS-Filled Nylon"@, "MDSNYL"@))
        .push(("Nylon Plastic"@, "NYL"@))
        .push(("Bronze SAE 841"@, "BR841"@))
        .push(("Bronze SAE 863"@, "BR863"@))
        .push(("Cast Bronze"@, "CB"@))
        .push(("Oil-Filled Bronze"@, "OFB"@))
        .push(("PTFE"@, "PTFE"@))
        .push(("Rulon"@, "RUL"@))
        .push(("Graphite"@, "GRAPH"@))
        .push(("Steel-Backed PTFE"@, "SBPTFE"@))
        .push(("Bronze"@, "BR"@))
        .push(("Steel"@, "S"@))
        .push(("Stainless Steel"@, "SS"@))
        .push(("303 Stainless Steel"@, "SS303"@))
        .push(("Aluminum"@, "AL"@))
        .push(("Plastic"@, "PL"@))
}

/// Builds the dictionary that the templates of this family share.
fn create_bearing_abbreviations() -> (abbrevs: Table<String>)
    ensures
        abbrevs@ == bearing_abbreviations(),
{
    let mut abbrevs: Table<String> = Table::new();
    abbrevs.put("MDS-Filled Nylon Plastic", "MDSNYL");
    abbrevs.put("MDS-Filled Nylon", "MDSNYL");
    abbrevs.put("Nylon Plastic", "NYL");
    abbrevs.put("Bronze SAE 841", "BR841");
    abbrevs.put("Bronze SAE 863", "BR863");
    abbrevs.put("Cast Bronze", "CB");
    abbrevs.put("Oil-Filled Bronze", "OFB");
    abbrevs.put("PTFE", "PTFE");
    abbrevs.put("Rulon", "RUL");
    abbrevs.put("Graphite", "GRAPH");
    abbrevs.put("Steel-Backed PTFE", "SBPTFE");
    abbrevs.put("Bronze", "BR");
    abbrevs.put("Steel", "S");
    abbrevs.put("Stainless Steel", "SS");
    abbrevs.put("303 Stainless Steel", "SS303");
    abbrevs.put("Aluminum", "AL");
    abbrevs.put("Plastic", "PL");
    abbrevs
}

/// A registry with the bearing templates registered after its own, in this order.
pub open spec fn with_bearing_templates(registry: Seq<(Seq<char>, TemplateView)>) -> Seq<
    (Seq<char>, TemplateView),
> {
    registry
        .push(("flanged_sleeve_bearing"@, template_of("FSB"@, sleeve_bearing_fields(), None, bearing_abbreviations())))
        .push(("sleeve_bearing"@, template_of("SB"@, sleeve_bearing_fields(), None, bearing_abbreviations())))
        .push(("flanged_bearing"@, template_of("FB"@, sleeve_bearing_fields(), None, bearing_abbreviations())))
        .push(("ball_bearing"@, template_of("BB"@, ball_bearing_fields(), None, bearing_abbreviations())))
        .push(("linear_bearing"@, template_of("LB"@, linear_bearing_fields(), None, bearing_abbreviations())))
        .push(("needle_bearing"@, template_of("NB"@, rolling_bearing_fields(), None, bearing_abbreviations())))
        .push(("roller_bearing"@, template_of("RB"@, rolling_bearing_fields(), None, bearing_abbreviations())))
        .push(("flange_mounted_ball_bearing"@, template_of("MFBB"@, mounted_bearing_fields(), None, bearing_abbreviations())))
        .push(("low_profile_flange_mounted_ball_bearing"@, template_of("LPMFBB"@, mounted_bearing_fields(), None, bearing_abbreviations())))
        .push(("pillow_block_mounted_ball_bearing"@, template_of("PBMBB"@, mounted_bearing_fields(), None, bearing_abbreviations())))
        .push(("generic_mounted_bearing"@, template_of("MBB"@, generic_mounted_bearing_fields(), None, bearing_abbreviations())))
        .push(("generic_bearing"@, template_of("BRG"@, generic_bearing_fields(), None, bearing_abbreviations())))
}

/// Registers every bearing template, all sharing one dictionary.
pub fn initialize_bearing_templates(category_templates: &mut Table<NamingTemplate>)
    ensures
        final(category_templates)@ == with_bearing_templates(old(category_templates)@),
        all_well_formed(old(category_templates)@) ==> all_well_formed(final(category_templates)@),
{
    let abbrevs = Arc::new(create_bearing_abbreviations());
    proof {
        reveal_strlit("FSB");
    }
    register(
        category_templates,
        "flanged_sleeve_bearing",
        "FSB",
        sleeve_bearing_field_names(),
        None,
        &abbrevs,
    );
    proof {
        reveal_strlit("SB");
    }
    register(
        category_templates,
        "sleeve_bearing",
        "SB",
        sleeve_bearing_field_names(),
        None,
        &abbrevs,
    );
    proof {
        reveal_strlit("FB");
    }
    register(
        category_templates,
        "flanged_bearing",
        "FB",
        sleeve_bearing_field_names(),
        None,
        &abbrevs,
    );
    proof {
        reveal_strlit("BB");
    }
    register(
        category_templates,
        "ball_bearing",
        "BB",
        ball_bearing_field_names(),
        None,
        &abbrevs,
    );
    proof {
        reveal_strlit("LB");
    }
    register(
        category_templates,
        "linear_bearing",
        "LB",
        linear_bearing_field_names(),
        None,
        &abbrevs,
    );
    proof {
        reveal_strlit("NB");
    }
    register(
        category_templates,
        "needle_bearing",
        "NB",
        rolling_bearing_field_names(),
        None,
        &abbrevs,
    );
    proof {
        reveal_strlit("RB");
    }
    register(
        category_templates,
        "roller_bearing",
        "RB",
        rolling_bearing_field_names(),
        None,
        &abbrevs,
    );
    proof {
        reveal_strlit("MFBB");
    }
    register(
        category_templates,
        "flange_mounted_ball_bearing",
        "MFBB",
        mounted_bearing_field_names(),
        None,
        &abbrevs,
    );
    proof {
        reveal_strlit("LPMFBB");
    }
    register(
        category_templates,
        "low_profile_flange_mounted_ball_bearing",
        "LPMFBB",
        mounted_bearing_field_names(),
        None,
        &abbrevs,
    );
    proof {
        reveal_strlit("PBMBB");
    }
    register(
        category_templates,
        "pillow_block_mounted_ball_bearing",
        "PBMBB",
        mounted_bearing_field_names(),
        None,
        &abbrevs,
    );
    proof {
        reveal_strlit("MBB");
    }
    register(
        category_templates,
        "generic_mounted_bearing",
        "MBB",
        generic_mounted_bearing_field_names(),
        None,
        &abbrevs,
    );
    proof {
        reveal_strlit("BRG");
    }
    register(
        category_templates,
        "generic_bearing",
        "BRG",
        generic_bearing_field_names(),
        None,
        &abbrevs,
    );
}

/// What was registered stays registered, and every key of this step is
/// registered after it.
pub proof fn lemma_with_bearing_templates_keys(
    registry: Seq<(Seq<char>, TemplateView)>,
)
    ensures
        forall|key: Seq<char>|
            lookup(registry, key) is Some ==> (#[trigger] lookup(with_bearing_templates(registry), key)) is Some,
        lookup(with_bearing_templates(registry), "flanged_sleeve_bearing"@) is Some,
        lookup(with_bearing_templates(registry), "sleeve_bearing"@) is Some,
        lookup(with_bearing_templates(registry), "flanged_bearing"@) is Some,
        lookup(with_bearing_templates(registry), "ball_bearing"@) is Some,
        lookup(with_bearing_templates(registry), "linear_bearing"@) is Some,
        lookup(with_bearing_templates(registry), "needle_bearing"@) is Some,
        lookup(with_bearing_templates(registry), "roller_bearing"@) is Some,
        lookup(with_bearing_templates(registry), "flange_mounted_ball_bearing"@) is Some,
        lookup(with_bearing_templates(registry), "low_profile_flange_mounted_ball_bearing"@) is Some,
        lookup(with_bearing_templates(registry), "pillow_block_mounted_ball_bearing"@) is Some,
        lookup(with_bearing_templates(registry), "generic_mounted_bearing"@) is Some,
        lookup(with_bearing_templates(registry), "generic_bearing"@) is Some,
{
    lemma_push_keeps_keys::<TemplateView>();
}

} // verus!
