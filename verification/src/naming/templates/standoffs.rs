//! Threaded standoff naming templates.

use crate::naming::generator::{all_well_formed, register, template_of, NamingTemplate, TemplateView};
use crate::naming::table::{lemma_push_keeps_keys, lookup, Table};
use crate::text::slices;
use std::sync::Arc;
use vstd::prelude::*;

verus! {

/// The fields of a threaded standoff.
pub open spec fn standoff_fields() -> Seq<Seq<char>> {
    seq![
        "Material"@,
        "Thread Size"@,
        "Length"@,
        "Finish"@,
    ]
}

/// The fields of a threaded standoff.
fn standoff_field_names() -> (r: Vec<&'static str>)
    ensures
        slices(r@) == standoff_fields(),
        r.len() > 0,
{
    let r = vec!["Material", "Thread Size", "Length", "Finish"];
    assert(slices(r@) =~= standoff_fields());
    r
}

/// The dictionary of the standoff templates: materials, steel grades and finishes.
pub open spec fn standoff_abbreviations() -> Seq<(Seq<char>, Seq<char>)> {
    Seq::<(Seq<char>, Seq<char>)>::empty()
        .push(("316 Stainless Steel"@, "SS316"@))
        .push(("18-8 Stainless Steel"@, "SS188"@))
        .push(("Stainless Steel"@, "SS"@))
        .push(("Steel"@, "S"@))
        .push(("Alloy Steel"@, "S"@))
        .push(("Brass"@, "Brass"@))
        .push(("Aluminum"@, "AL"@))
        .push(("Nylon"@, "Nylon"@))
        .push(("Grade 1 Steel"@, "SG1"@))
        .push(("Grade 2 Steel"@, "SG2"@))
        .push(("Grade 5 Steel"@, "SG5"@))
        .push(("Grade 8 Steel"@, "SG8"@))
        .push(("8.8 Steel"@, "S8.8"@))
        .push(("10.9 Steel"@, "S10.9"@))
        .push(("12.9 Steel"@, "S12.9"@))
        .push(("Grade 1 Alloy Steel"@, "SG1"@))
        .push(("Grade 2 Alloy Steel"@, "SG2"@))
        .push(("Grade 5 Alloy Steel"@, "SG5"@))
        .push(("Grade 8 Alloy Steel"@, "SG8"@))
        .push(("8.8 Alloy Steel"@, "S8.8"@))
        .push(("10.9 Alloy Steel"@, "S10.9"@))
        .push(("12.9 Alloy Steel"@, "S12.9"@))
        .push(("Zinc Plated"@, "ZP"@))
        .push(("Zinc-Plated"@, "ZP"@))
        .push(("Zinc Yellow-Chromate Plated"@, "ZYC"@))
        .push(("Zinc Yellow Chromate Plated"@, "ZYC"@))
        .push(("Black Oxide"@, "BO"@))
        .push(("Black-Oxide"@, "BO"@))
        .push(("Cadmium Plated"@, "CD"@))
        .push(("Cadmium-Plated"@, "CD"@))
        .push(("Nickel Plated"@, "NI"@))
        .push(("Nickel-Plated"@, "NI"@))
        .push(("Chrome Plated"@, "CR"@))
        .push(("Chrome-Plated"@, "CR"@))
        .push(("Galvanized"@, "GAL"@))
}

/// Builds the dictionary that the templates of this family share.
fn create_standoff_abbreviations() -> (abbrevs: Table<String>)
    ensures
        abbrevs@ == standoff_abbreviations(),
{
    let mut abbrevs: Table<String> = Table::new();
    abbrevs.put("316 Stainless Steel", "SS316");
    abbrevs.put("18-8 Stainless Steel", "SS188");
    abbrevs.put("Stainless Steel", "SS");
    abbrevs.put("Steel", "S");
    abbrevs.put("Alloy Steel", "S");
    abbrevs.put("Brass", "Brass");
    abbrevs.put("Aluminum", "AL");
    abbrevs.put("Nylon", "Nylon");
    abbrevs.put("Grade 1 Steel", "SG1");
    abbrevs.put("Grade 2 Steel", "SG2");
    abbrevs.put("Grade 5 Steel", "SG5");
    abbrevs.put("Grade 8 Steel", "SG8");
    abbrevs.put("8.8 Steel", "S8.8");
    abbrevs.put("10.9 Steel", "S10.9");
    abbrevs.put("12.9 Steel", "S12.9");
    abbrevs.put("Grade 1 Alloy Steel", "SG1");
    abbrevs.put("Grade 2 Alloy Steel", "SG2");
    abbrevs.put("Grade 5 Alloy Steel", "SG5");
    abbrevs.put("Grade 8 Alloy Steel", "SG8");
    abbrevs.put("8.8 Alloy Steel", "S8.8");
    abbrevs.put("10.9 Alloy Steel", "S10.9");
    abbrevs.put("12.9 Alloy Steel", "S12.9");
    abbrevs.put("Zinc Plated", "ZP");
    abbrevs.put("Zinc-Plated", "ZP");
    abbrevs.put("Zinc Yellow-Chromate Plated", "ZYC");
    abbrevs.put("Zinc Yellow Chromate Plated", "ZYC");
    abbrevs.put("Black Oxide", "BO");
    abbrevs.put("Black-Oxide", "BO");
    abbrevs.put("Cadmium Plated", "CD");
    abbrevs.put("Cadmium-Plated", "CD");
    abbrevs.put("Nickel Plated", "NI");
    abbrevs.put("Nickel-Plated", "NI");
    abbrevs.put("Chrome Plated", "CR");
    abbrevs.put("Chrome-Plated", "CR");
    abbrevs.put("Galvanized", "GAL");
    abbrevs
}

/// A registry with the threaded standoff templates registered after its own, in this order.
pub open spec fn with_standoff_templates(registry: Seq<(Seq<char>, TemplateView)>) -> Seq<
    (Seq<char>, TemplateView),
> {
    registry
        .push(("male_female_hex_standoff"@, template_of("MFSO"@, standoff_fields(), None, standoff_abbreviations())))
        .push(("female_hex_standoff"@, template_of("FSO"@, standoff_fields(), None, standoff_abbreviations())))
        .push(("generic_standoff"@, template_of("SO"@, standoff_fields(), None, standoff_abbreviations())))
}

/// Registers every threaded standoff template, all sharing one dictionary.
pub fn initialize_standoff_templates(category_templates: &mut Table<NamingTemplate>)
    ensures
        final(category_templates)@ == with_standoff_templates(old(category_templates)@),
        all_well_formed(old(category_templates)@) ==> all_well_formed(final(category_templates)@),
{
    let abbrevs = Arc::new(create_standoff_abbreviations());
    proof {
        reveal_strlit("MFSO");
    }
    register(
        category_templates,
        "male_female_hex_standoff",
        "MFSO",
        standoff_field_names(),
        None,
        &abbrevs,
    );
    proof {
        reveal_strlit("FSO");
    }
    register(
        category_templates,
        "female_hex_standoff",
        "FSO",
        standoff_field_names(),
        None,
        &abbrevs,
    );
    proof {
        reveal_strlit("SO");
    }
    register(
        category_templates,
        "generic_standoff",
        "SO",
        standoff_field_names(),
        None,
        &abbrevs,
    );
}

/// What was registered stays registered, and every key of this step is
/// registered after it.
pub proof fn lemma_with_standoff_templates_keys(
    registry: Seq<(Seq<char>, TemplateView)>,
)
    ensures
        forall|key: Seq<char>|
            lookup(registry, key) is Some ==> (#[trigger] lookup(with_standoff_templates(registry), key)) is Some,
        lookup(with_standoff_templates(registry), "male_female_hex_standoff"@) is Some,
        lookup(with_standoff_templates(registry), "female_hex_standoff"@) is Some,
        lookup(with_standoff_templates(registry), "generic_standoff"@) is Some,
{
    lemma_push_keeps_keys::<TemplateView>();
}

} // verus!
