//! Unthreaded spacer naming templates.

use crate::naming::generator::{all_well_formed, register, template_of, NamingTemplate, TemplateView};
use crate::naming::table::{lemma_push_keeps_keys, lookup, Table};
use crate::text::slices;
use std::sync::Arc;
use vstd::prelude::*;

verus! {

/// The fields of a spacer that may have a finish.
pub open spec fn finished_spacer_fields() -> Seq<Seq<char>> {
    seq![
        "Material"@,
        "For Screw Size"@,
        "OD"@,
        "Length"@,
        "Finish"@,
    ]
}

/// The fields of a spacer that may have a finish.
fn finished_spacer_field_names() -> (r: Vec<&'static str>)
    ensures
        slices(r@) == finished_spacer_fields(),
        r.len() > 0,
{
    let r = vec!["Material", "For Screw Size", "OD", "Length", "Finish"];
    assert(slices(r@) =~= finished_spacer_fields());
    r
}

/// The fields of a spacer without a finish.
pub open spec fn bare_spacer_fields() -> Seq<Seq<char>> {
    seq![
        "Material"@,
        "For Screw Size"@,
        "OD"@,
        "Length"@,
    ]
}

/// The fields of a spacer without a finish.
fn bare_spacer_field_names() -> (r: Vec<&'static str>)
    ensures
        slices(r@) == bare_spacer_fields(),
        r.len() > 0,
{
    let r = vec!["Material", "For Screw Size", "OD", "Length"];
    assert(slices(r@) =~= bare_spacer_fields());
    r
}

/// The dictionary of the spacer templates: materials and finishes.
pub open spec fn spacer_abbreviations() -> Seq<(Seq<char>, Seq<char>)> {
    Seq::<(Seq<char>, Seq<char>)>::empty()
        .push(("Acetal Plastic"@, "ACET"@))
        .push(("Acetal"@, "ACET"@))
        .push(("Polyethylene"@, "PE"@))
        .push(("Polypropylene"@, "PP"@))
        .push(("PEEK"@, "PEEK"@))
        .push(("PTFE"@, "PTFE"@))
        .push(("Polycarbonate"@, "PC"@))
        .push(("316 Stainless Steel"@, "SS316"@))
        .push(("18-8 Stainless Steel"@, "SS188"@))
        .push(("Stainless Steel"@, "SS"@))
        .push(("Steel"@, "S"@))
        .push(("Alloy Steel"@, "S"@))
        .push(("Brass"@, "Brass"@))
        .push(("Aluminum"@, "AL"@))
        .push(("Nylon"@, "Nylon"@))
        .push(("Titanium"@, "TI"@))
        .push(("Zinc Plated"@, "ZP"@))
        .push(("Zinc-Plated"@, "ZP"@))
        .push(("Zinc Yellow-Chromate Plated"@, "ZYC"@))
        .push(("Zinc Yellow Chromate Plated"@, "ZYC"@))
        .push(("Black Oxide"@, "BO"@))
        .push(("Black-Oxide"@, "BO"@))
        .push(("Cadmium Plated"@, "CD"@))
        .push(("Cadmium-Plated"@, "CD"@))
        .push(("Nickel Plated"@, "NI"@))
        .push(("Nickel-Plated"@, "NI"@))
        .push(("Chrome Plated"@, "CR"@))
        .push(("Chrome-Plated"@, "CR"@))
        .push(("Galvanized"@, "GAL"@))
        .push(("Black Anodized"@, "BA"@))
        .push(("Black-Anodized"@, "BA"@))
}

/// Builds the dictionary that the templates of this family share.
fn create_spacer_abbreviations() -> (abbrevs: Table<String>)
    ensures
        abbrevs@ == spacer_abbreviations(),
{
    let mut abbrevs: Table<String> = Table::new();
    abbrevs.put("Acetal Plastic", "ACET");
    abbrevs.put("Acetal", "ACET");
    abbrevs.put("Polyethylene", "PE");
    abbrevs.put("Polypropylene", "PP");
    abbrevs.put("PEEK", "PEEK");
    abbrevs.put("PTFE", "PTFE");
    abbrevs.put("Polycarbonate", "PC");
    abbrevs.put("316 Stainless Steel", "SS316");
    abbrevs.put("18-8 Stainless Steel", "SS188");
    abbrevs.put("Stainless Steel", "SS");
    abbrevs.put("Steel", "S");
    abbrevs.put("Alloy Steel", "S");
    abbrevs.put("Brass", "Brass");
    abbrevs.put("Aluminum", "AL");
    abbrevs.put("Nylon", "Nylon");
    abbrevs.put("Titanium", "TI");
    abbrevs.put("Zinc Plated", "ZP");
    abbrevs.put("Zinc-Plated", "ZP");
    abbrevs.put("Zinc Yellow-Chromate Plated", "ZYC");
    abbrevs.put("Zinc Yellow Chromate Plated", "ZYC");
    abbrevs.put("Black Oxide", "BO");
    abbrevs.put("Black-Oxide", "BO");
    abbrevs.put("Cadmium Plated", "CD");
    abbrevs.put("Cadmium-Plated", "CD");
    abbrevs.put("Nickel Plated", "NI");
    abbrevs.put("Nickel-Plated", "NI");
    abbrevs.put("Chrome Plated", "CR");
    abbrevs.put("Chrome-Plated", "CR");
    abbrevs.put("Galvanized", "GAL");
    abbrevs.put("Black Anodized", "BA");
    abbrevs.put("Black-Anodized", "BA");
    abbrevs
}

/// The aliases of the spacer fields: the screw size is looked for under its
/// own name.
pub open spec fn screw_size_aliases() -> Seq<(Seq<char>, Seq<Seq<char>>)> {
    seq![("For Screw Size"@, seq!["For Screw Size"@, "For Screw Size"@])]
}

/// Builds the aliases of the spacer fields.
fn create_screw_size_aliases() -> (aliases: Table<Vec<String>>)
    ensures
        aliases@ == screw_size_aliases(),
{
    let mut names: Vec<String> = Vec::new();
    names.push("For Screw Size".to_string());
    names.push("For Screw Size".to_string());
    assert(names.deep_view() =~= seq!["For Screw Size"@, "For Screw Size"@]);
    let mut aliases: Table<Vec<String>> = Table::new();
    aliases.insert("For Screw Size".to_string(), names);
    assert(aliases@ =~= screw_size_aliases());
    aliases
}

/// A registry with the unthreaded spacer templates registered after its own.
pub open spec fn with_spacer_templates(registry: Seq<(Seq<char>, TemplateView)>) -> Seq<
    (Seq<char>, TemplateView),
> {
    registry
        .push(("unthreaded_spacer"@, template_of("SP"@, finished_spacer_fields(), Some(screw_size_aliases()), spacer_abbreviations())))
        .push(("aluminum_unthreaded_spacer"@, template_of("ASP"@, finished_spacer_fields(), Some(screw_size_aliases()), spacer_abbreviations())))
        .push(("stainless_steel_unthreaded_spacer"@, template_of("SSSP"@, finished_spacer_fields(), Some(screw_size_aliases()), spacer_abbreviations())))
        .push(("nylon_unthreaded_spacer"@, template_of("NSP"@, bare_spacer_fields(), Some(screw_size_aliases()), spacer_abbreviations())))
}

/// Registers every unthreaded spacer template, all sharing one dictionary.
pub fn initialize_spacer_templates(category_templates: &mut Table<NamingTemplate>)
    ensures
        final(category_templates)@ == with_spacer_templates(old(category_templates)@),
        all_well_formed(old(category_templates)@) ==> all_well_formed(final(category_templates)@),
{
    let abbrevs = Arc::new(create_spacer_abbreviations());
    proof {
        reveal_strlit("SP");
    }
    register(
        category_templates,
        "unthreaded_spacer",
        "SP",
        finished_spacer_field_names(),
        Some(create_screw_size_aliases()),
        &abbrevs,
    );
    proof {
        reveal_strlit("ASP");
    }
    register(
        category_templates,
        "aluminum_unthreaded_spacer",
        "ASP",
        finished_spacer_field_names(),
        Some(create_screw_size_aliases()),
        &abbrevs,
    );
    proof {
        reveal_strlit("SSSP");
    }
    register(
        category_templates,
        "stainless_steel_unthreaded_spacer",
        "SSSP",
        finished_spacer_field_names(),
        Some(create_screw_size_aliases()),
        &abbrevs,
    );
    proof {
        reveal_strlit("NSP");
    }
    register(
        category_templates,
        "nylon_unthreaded_spacer",
        "NSP",
        bare_spacer_field_names(),
        Some(create_screw_size_aliases()),
        &abbrevs,
    );
}

/// What was registered stays registered, and every key of this step is
/// registered after it.
pub proof fn lemma_with_spacer_templates_keys(
    registry: Seq<(Seq<char>, TemplateView)>,
)
    ensures
        forall|key: Seq<char>|
            lookup(registry, key) is Some ==> (#[trigger] lookup(with_spacer_templates(registry), key)) is Some,
        lookup(with_spacer_templates(registry), "unthreaded_spacer"@) is Some,
        lookup(with_spacer_templates(registry), "aluminum_unthreaded_spacer"@) is Some,
        lookup(with_spacer_templates(registry), "stainless_steel_unthreaded_spacer"@) is Some,
        lookup(with_spacer_templates(registry), "nylon_unthreaded_spacer"@) is Some,
{
    lemma_push_keeps_keys::<TemplateView>();
}

} // verus!
