//! The part analyzer: why a product got the name it has.
//!
//! An analysis reruns detection and template lookup and reports which
//! specifications the template uses, which of its fields the product lacks,
//! how the generated name breaks down, and what might improve it.

use crate::models::product::{ProductDetail, ProductView, SpecificationView};
use crate::naming::converters::{decimal_text, push_decimal, text_of};
use crate::naming::detectors::{category_of, determine_category};
use crate::naming::generator::{generated_name, NameGenerator, NamingTemplate, TemplateView};
use crate::naming::table::{lookup, Table};
use crate::text::{
    append, append_str, chars_of, contains, has_substring, has_suffix, join, joined, lowercase,
    matches_at, segments_of, split, str_eq, string_of, texts, to_lowercase,
};
use vstd::prelude::*;

verus! {

/// What the analysis says of one specification of the product.
#[derive(Debug)]
pub struct SpecAnalysis {
    pub name: String,
    pub values: Vec<String>,
    pub used_in_name: bool,
    pub processed_value: Option<String>,
    /// `direct` where the template uses the specification, else `unmapped`.
    pub source: String,
}

/// The mathematical content of a [`SpecAnalysis`].
pub struct SpecAnalysisView {
    pub name: Seq<char>,
    pub values: Seq<Seq<char>>,
    pub used_in_name: bool,
    pub processed_value: Option<Seq<char>>,
    pub source: Seq<char>,
}

impl View for SpecAnalysis {
    type V = SpecAnalysisView;

    open spec fn view(&self) -> SpecAnalysisView {
        SpecAnalysisView {
            name: self.name@,
            values: texts(self.values@),
            used_in_name: self.used_in_name,
            processed_value: text_of(self.processed_value),
            source: self.source@,
        }
    }
}

/// One token of the generated name with the field it is ascribed to.
#[derive(Debug)]
pub struct NameComponent {
    pub component: String,
    pub source: String,
    pub original_value: Option<String>,
}

/// The mathematical content of a [`NameComponent`].
pub struct NameComponentView {
    pub component: Seq<char>,
    pub source: Seq<char>,
    pub original_value: Option<Seq<char>>,
}

impl View for NameComponent {
    type V = NameComponentView;

    open spec fn view(&self) -> NameComponentView {
        NameComponentView {
            component: self.component@,
            source: self.source@,
            original_value: text_of(self.original_value),
        }
    }
}

/// The analysis of a product's specifications and name.
#[derive(Debug)]
pub struct PartAnalysis {
    pub part_number: String,
    pub category: String,
    pub detected_type: String,
    pub family_description: String,
    pub product_description: String,
    pub specifications: Vec<SpecAnalysis>,
    pub missing_specs: Vec<String>,
    pub unmapped_specs: Vec<String>,
    pub template_used: Option<String>,
    pub template_specs: Vec<String>,
    pub spec_aliases: Table<Vec<String>>,
    pub generated_name: String,
    /// The name with a guessed finish, where the template's finish is missing.
    pub suggested_name: Option<String>,
    pub name_components: Vec<NameComponent>,
    pub suggestions: Vec<String>,
}

/// The mathematical content of a [`PartAnalysis`].
pub struct PartAnalysisView {
    pub part_number: Seq<char>,
    pub category: Seq<char>,
    pub detected_type: Seq<char>,
    pub family_description: Seq<char>,
    pub product_description: Seq<char>,
    pub specifications: Seq<SpecAnalysisView>,
    pub missing_specs: Seq<Seq<char>>,
    pub unmapped_specs: Seq<Seq<char>>,
    pub template_used: Option<Seq<char>>,
    pub template_specs: Seq<Seq<char>>,
    pub spec_aliases: Seq<(Seq<char>, Seq<Seq<char>>)>,
    pub generated_name: Seq<char>,
    pub suggested_name: Option<Seq<char>>,
    pub name_components: Seq<NameComponentView>,
    pub suggestions: Seq<Seq<char>>,
}

/// The views of a list of specification analyses.
pub open spec fn spec_analysis_views(v: Seq<SpecAnalysis>) -> Seq<SpecAnalysisView> {
    Seq::new(v.len(), |i: int| v[i]@)
}

/// The views of a list of name components.
pub open spec fn component_views(v: Seq<NameComponent>) -> Seq<NameComponentView> {
    Seq::new(v.len(), |i: int| v[i]@)
}

impl View for PartAnalysis {
    type V = PartAnalysisView;

    open spec fn view(&self) -> PartAnalysisView {
        PartAnalysisView {
            part_number: self.part_number@,
            category: self.category@,
            detected_type: self.detected_type@,
            family_description: self.family_description@,
            product_description: self.product_description@,
            specifications: spec_analysis_views(self.specifications@),
            missing_specs: texts(self.missing_specs@),
            unmapped_specs: texts(self.unmapped_specs@),
            template_used: text_of(self.template_used),
            template_specs: texts(self.template_specs@),
            spec_aliases: self.spec_aliases@,
            generated_name: self.generated_name@,
            suggested_name: text_of(self.suggested_name),
            name_components: component_views(self.name_components@),
            suggestions: texts(self.suggestions@),
        }
    }
}

/// One of the alias lists holds `name`.
pub open spec fn names_alias(aliases: Seq<(Seq<char>, Seq<Seq<char>>)>, name: Seq<char>) -> bool {
    exists|i: int| 0 <= i < aliases.len() && (#[trigger] aliases[i]).1.contains(name)
}

/// The template uses the specification `name`: it is one of the template's
/// fields or one of their aliases, letter for letter.
pub open spec fn is_mapped(template: TemplateView, name: Seq<char>) -> bool {
    template.key_specs.contains(name) || match template.spec_aliases {
        Some(aliases) => names_alias(aliases, name),
        None => false,
    }
}

/// Whether the template, if there is one, uses the specification `name`.
pub open spec fn is_used(template: Option<TemplateView>, name: Seq<char>) -> bool {
    match template {
        Some(t) => is_mapped(t, name),
        None => false,
    }
}

/// What the analysis says of one specification.
pub open spec fn spec_analysis_of(
    template: Option<TemplateView>,
    spec: SpecificationView,
) -> SpecAnalysisView {
    SpecAnalysisView {
        name: spec.attribute,
        values: spec.values,
        used_in_name: is_used(template, spec.attribute),
        processed_value: None,
        source: if is_used(template, spec.attribute) {
            "direct"@
        } else {
            "unmapped"@
        },
    }
}

/// What the analysis says of the specifications, one by one.
pub open spec fn spec_analyses(
    template: Option<TemplateView>,
    specs: Seq<SpecificationView>,
) -> Seq<SpecAnalysisView> {
    Seq::new(specs.len(), |i: int| spec_analysis_of(template, specs[i]))
}

/// The names of those among the first `n` specifications that the template
/// does not use, in order.
pub open spec fn unmapped_among(
    template: Option<TemplateView>,
    specs: Seq<SpecificationView>,
    n: int,
) -> Seq<Seq<char>>
    decreases n,
{
    if n <= 0 || n > specs.len() {
        Seq::<Seq<char>>::empty()
    } else if is_used(template, specs[n - 1].attribute) {
        unmapped_among(template, specs, n - 1)
    } else {
        unmapped_among(template, specs, n - 1).push(specs[n - 1].attribute)
    }
}

/// The position of the first specification, from `from` on, whose attribute
/// is `name` letter for letter.
pub open spec fn position_of_exact(specs: Seq<SpecificationView>, name: Seq<char>, from: int) -> Option<
    int,
>
    decreases specs.len() - from,
{
    if from < 0 || from >= specs.len() {
        None
    } else if specs[from].attribute == name {
        Some(from)
    } else {
        position_of_exact(specs, name, from + 1)
    }
}

/// The first value of a specification, if it has one.
pub open spec fn first_of(spec: SpecificationView) -> Option<Seq<char>> {
    if spec.values.len() > 0 {
        Some(spec.values[0])
    } else {
        None
    }
}

/// The value found under the first of `names`, from position `from` on, that
/// is the attribute of a specification.
pub open spec fn alias_value(specs: Seq<SpecificationView>, names: Seq<Seq<char>>, from: int) -> Option<
    Seq<char>,
>
    decreases names.len() - from,
{
    if from < 0 || from >= names.len() {
        None
    } else {
        match position_of_exact(specs, names[from], 0) {
            Some(i) => first_of(specs[i]),
            None => alias_value(specs, names, from + 1),
        }
    }
}

/// The value that the product has for a field of the template: the first
/// value of the specification named like the field, else of the first
/// specification that an alias of the field names. Names are compared
/// letter for letter; a specification without a value gives none.
pub open spec fn found_value(
    template: TemplateView,
    specs: Seq<SpecificationView>,
    name: Seq<char>,
) -> Option<Seq<char>> {
    match position_of_exact(specs, name, 0) {
        Some(i) => first_of(specs[i]),
        None => match template.spec_aliases {
            Some(aliases) => match lookup(aliases, name) {
                Some(names) => alias_value(specs, names, 0),
                None => None,
            },
            None => None,
        },
    }
}

/// Those among the first `n` fields of the template for which the product
/// has no value, in order.
pub open spec fn missing_among(
    template: TemplateView,
    specs: Seq<SpecificationView>,
    n: int,
) -> Seq<Seq<char>>
    decreases n,
{
    if n <= 0 || n > template.key_specs.len() {
        Seq::<Seq<char>>::empty()
    } else if found_value(template, specs, template.key_specs[n - 1]) is Some {
        missing_among(template, specs, n - 1)
    } else {
        missing_among(template, specs, n - 1).push(template.key_specs[n - 1])
    }
}

/// The fields of the template, if there is one, for which the product has
/// no value.
pub open spec fn missing_fields(
    template: Option<TemplateView>,
    specs: Seq<SpecificationView>,
) -> Seq<Seq<char>> {
    match template {
        Some(t) => missing_among(t, specs, t.key_specs.len() as int),
        None => Seq::<Seq<char>>::empty(),
    }
}

/// The finish that is usual for a material, given in lower case:
/// passivated for stainless steel, zinc plated for other steel, none for
/// brass, clear anodized for aluminum.
pub open spec fn usual_finish(material_lower: Seq<char>) -> Option<Seq<char>> {
    if has_substring(material_lower, "stainless"@) {
        Some("PASS"@)
    } else if has_substring(material_lower, "steel"@) {
        Some("ZP"@)
    } else if has_substring(material_lower, "brass"@) {
        Some("UNFINISHED"@)
    } else if has_substring(material_lower, "aluminum"@) {
        Some("CLEAR"@)
    } else {
        None
    }
}

/// The finish suggested for a product: the usual finish of the first
/// specification named `Material`, from position `from` on, whose first
/// value has one; `?` where there is none.
pub open spec fn suggested_finish(specs: Seq<SpecificationView>, from: int) -> Seq<char>
    decreases specs.len() - from,
{
    if from < 0 || from >= specs.len() {
        "?"@
    } else if specs[from].attribute == "Material"@ && specs[from].values.len() > 0 {
        match usual_finish(lowercase(specs[from].values[0])) {
            Some(finish) => finish,
            None => suggested_finish(specs, from + 1),
        }
    } else {
        suggested_finish(specs, from + 1)
    }
}

/// The name suggested in place of `name`: where the template has the field
/// `Finish` and the product lacks it, the name with the suggested finish
/// appended, unless it ends with that finish already.
pub open spec fn suggested_name_of(
    template: Option<TemplateView>,
    specs: Seq<SpecificationView>,
    missing: Seq<Seq<char>>,
    name: Seq<char>,
) -> Option<Seq<char>> {
    match template {
        Some(t) => if t.key_specs.contains("Finish"@) && missing.contains("Finish"@) {
            let ending = "-"@ + suggested_finish(specs, 0);
            if has_suffix(name, ending) {
                None
            } else {
                Some(name + ending)
            }
        } else {
            None
        },
        None => None,
    }
}

/// The field to which the token at position `i` after the prefix is
/// ascribed: the template's field at that position, which is a guess, since
/// a field without a token shifts those after it.
pub open spec fn component_source(template: TemplateView, i: int) -> Seq<char> {
    if 0 <= i < template.key_specs.len() {
        template.key_specs[i]
    } else {
        "Unknown spec "@ + decimal_text((i + 1) as nat)
    }
}

/// The component at position `i` of a name with the segments `parts`.
pub open spec fn component_at(
    parts: Seq<Seq<char>>,
    category: Seq<char>,
    template: TemplateView,
    i: int,
) -> NameComponentView {
    NameComponentView {
        component: parts[i],
        source: if i == 0 {
            "Template prefix ("@ + category + ")"@
        } else {
            component_source(template, i - 1)
        },
        original_value: None,
    }
}

/// The breakdown of a name: with a template, one component for each segment
/// between hyphens, the first ascribed to the prefix and the others to the
/// template's fields by position; without a template, the name as a whole.
pub open spec fn breakdown(
    name: Seq<char>,
    category: Seq<char>,
    template: Option<TemplateView>,
) -> Seq<NameComponentView> {
    match template {
        Some(t) => Seq::new(
            segments_of(name, '-').len(),
            |i: int| component_at(segments_of(name, '-'), category, t, i),
        ),
        None => seq![
            NameComponentView {
                component: name,
                source: "Unknown template"@,
                original_value: None,
            },
        ],
    }
}

/// The suggestions of an analysis, from whether a template was found, the
/// lower-cased family description and the unmapped and missing names.
pub open spec fn suggestions_for(
    template_found: bool,
    family_lower: Seq<char>,
    unmapped: Seq<Seq<char>>,
    missing: Seq<Seq<char>>,
) -> Seq<Seq<char>> {
    if !template_found {
        seq!["⚠️  No template found for this part type. Consider adding a new template."@]
    } else {
        let s0 = Seq::<Seq<char>>::empty();
        let s1 = if missing.len() == 0 && unmapped.len() == 0 {
            s0.push("✅ Template uses all available key specifications"@)
        } else {
            s0
        };
        let s2 = if missing.len() > 0 {
            s1.push("🔍 Missing expected specifications: "@ + joined(missing, ", "@)).push(
                "   → These specs might be named differently in the API"@,
            ).push("   → Consider adding aliases to the template"@)
        } else {
            s1
        };
        let s3 = if unmapped.len() > 0 {
            s2.push("📋 Unmapped specifications available: "@ + joined(unmapped, ", "@)).push(
                "   → These could be added to the template for more detailed names"@,
            )
        } else {
            s2
        };
        if has_substring(family_lower, "stainless"@) && missing.len() > 0 {
            s3.push("💡 Stainless steel parts often have finish embedded in material"@)
        } else {
            s3
        }
    }
}

/// The aliases that an analysis reports.
pub open spec fn reported_aliases(template: Option<TemplateView>) -> Seq<
    (Seq<char>, Seq<Seq<char>>),
> {
    match template {
        Some(t) => match t.spec_aliases {
            Some(aliases) => aliases,
            None => Seq::<(Seq<char>, Seq<Seq<char>>)>::empty(),
        },
        None => Seq::<(Seq<char>, Seq<Seq<char>>)>::empty(),
    }
}

/// The analysis of a product under a registry of templates.
pub open spec fn analysis_of(
    registry: Seq<(Seq<char>, TemplateView)>,
    p: ProductView,
) -> PartAnalysisView {
    let detected = category_of(p);
    let template = lookup(registry, detected);
    let name = generated_name(registry, p);
    let missing = missing_fields(template, p.specifications);
    let unmapped = unmapped_among(template, p.specifications, p.specifications.len() as int);
    PartAnalysisView {
        part_number: p.part_number,
        category: p.product_category,
        detected_type: detected,
        family_description: p.family_description,
        product_description: p.detail_description,
        specifications: spec_analyses(template, p.specifications),
        missing_specs: missing,
        unmapped_specs: unmapped,
        template_used: match template {
            Some(_) => Some(detected),
            None => None,
        },
        template_specs: match template {
            Some(t) => t.key_specs,
            None => Seq::<Seq<char>>::empty(),
        },
        spec_aliases: reported_aliases(template),
        generated_name: name,
        suggested_name: suggested_name_of(template, p.specifications, missing, name),
        name_components: breakdown(name, detected, template),
        suggestions: suggestions_for(
            template is Some,
            lowercase(p.family_description),
            unmapped,
            missing,
        ),
    }
}

/// The head of a report: the part number and the product's descriptions.
pub open spec fn report_header(a: PartAnalysisView) -> Seq<char> {
    "🔍 Part Analysis: "@ + a.part_number + "\n\n"@ + "📦 Product Info:\n"@ + "   Category: "@
        + a.category + "\n"@ + "   Family: "@ + a.family_description + "\n"@
        + "   Detected Type: "@ + a.detected_type + "\n\n"@
}

/// The line of a report for one specification.
pub open spec fn spec_line(s: SpecAnalysisView) -> Seq<char> {
    "   "@ + (if s.used_in_name {
        "✓"@
    } else {
        "✗"@
    }) + " "@ + s.name + ": "@ + joined(s.values, ", "@) + " → ("@ + (if s.used_in_name {
        "used in name"@
    } else {
        "not used"@
    }) + ")\n"@
}

/// The lines of a report for the first `n` specifications.
pub open spec fn spec_lines(specs: Seq<SpecAnalysisView>, n: int) -> Seq<char>
    decreases n,
{
    if n <= 0 || n > specs.len() {
        Seq::<char>::empty()
    } else {
        spec_lines(specs, n - 1) + spec_line(specs[n - 1])
    }
}

/// The part of a report that lists the specifications.
pub open spec fn specifications_section(a: PartAnalysisView) -> Seq<char> {
    "📋 Specifications ("@ + decimal_text(a.specifications.len()) + " found):\n"@ + spec_lines(
        a.specifications,
        a.specifications.len() as int,
    ) + "\n"@
}

/// The line of a report for the aliases of one field.
pub open spec fn alias_line(entry: (Seq<char>, Seq<Seq<char>>)) -> Seq<char> {
    "   - "@ + entry.0 + ": "@ + joined(entry.1, ", "@) + "\n"@
}

/// The lines of a report for the first `n` entries of the aliases.
pub open spec fn alias_lines(aliases: Seq<(Seq<char>, Seq<Seq<char>>)>, n: int) -> Seq<char>
    decreases n,
{
    if n <= 0 || n > aliases.len() {
        Seq::<char>::empty()
    } else {
        alias_lines(aliases, n - 1) + alias_line(aliases[n - 1])
    }
}

/// The part of a report about the template, where it is asked for.
pub open spec fn template_section(
    a: PartAnalysisView,
    show_template: bool,
    show_aliases: bool,
) -> Seq<char> {
    if !show_template {
        Seq::<char>::empty()
    } else {
        match a.template_used {
            Some(name) => "🏷️  Template: "@ + name + " \n"@ + "   Expected: ["@ + joined(
                a.template_specs,
                ", "@,
            ) + "]\n"@ + (if show_aliases && a.spec_aliases.len() > 0 {
                "   Aliases:\n"@ + alias_lines(a.spec_aliases, a.spec_aliases.len() as int)
            } else {
                Seq::<char>::empty()
            }) + "\n"@,
            None => "🏷️  Template: None found\n\n"@,
        }
    }
}

/// The line of a report for one component of the name.
pub open spec fn component_line(c: NameComponentView) -> Seq<char> {
    "   - "@ + c.component + ": "@ + c.source + "\n"@
}

/// The lines of a report for the first `n` components of the name.
pub open spec fn component_lines(components: Seq<NameComponentView>, n: int) -> Seq<char>
    decreases n,
{
    if n <= 0 || n > components.len() {
        Seq::<char>::empty()
    } else {
        component_lines(components, n - 1) + component_line(components[n - 1])
    }
}

/// The part of a report about the generated name.
pub open spec fn name_section(a: PartAnalysisView) -> Seq<char> {
    "🔧 Generated Name: "@ + a.generated_name + "\n"@ + (match a.suggested_name {
        Some(suggested) => "💡 Suggested Name with Finish: "@ + suggested + "\n"@,
        None => Seq::<char>::empty(),
    }) + (if a.name_components.len() > 0 {
        "   Components:\n"@ + component_lines(a.name_components, a.name_components.len() as int)
    } else {
        Seq::<char>::empty()
    }) + "\n"@
}

/// The lines of a report for the first `n` suggestions.
pub open spec fn suggestion_lines(suggestions: Seq<Seq<char>>, n: int) -> Seq<char>
    decreases n,
{
    if n <= 0 || n > suggestions.len() {
        Seq::<char>::empty()
    } else {
        suggestion_lines(suggestions, n - 1) + ("   "@ + suggestions[n - 1] + "\n"@)
    }
}

/// The part of a report that lists the suggestions, if there are any.
pub open spec fn suggestions_section(a: PartAnalysisView) -> Seq<char> {
    if a.suggestions.len() > 0 {
        "💡 Suggestions:\n"@ + suggestion_lines(a.suggestions, a.suggestions.len() as int)
    } else {
        Seq::<char>::empty()
    }
}

/// The report of an analysis for people to read.
pub open spec fn human_report(
    a: PartAnalysisView,
    show_template: bool,
    show_aliases: bool,
) -> Seq<char> {
    report_header(a) + specifications_section(a) + template_section(
        a,
        show_template,
        show_aliases,
    ) + name_section(a) + suggestions_section(a)
}

/// The view of a template that may be absent.
pub open spec fn template_view(template: Option<&NamingTemplate>) -> Option<TemplateView> {
    match template {
        Some(t) => Some(t@),
        None => None,
    }
}

/// Whether a list of strings holds `name`.
fn contains_text(list: &Vec<String>, name: &str) -> (r: bool)
    ensures
        r == texts(list@).contains(name@),
{
    let mut i: usize = 0;
    while i < list.len()
        invariant
            i <= list.len(),
            forall|j: int| 0 <= j < i ==> texts(list@)[j] != name@,
        decreases list.len() - i,
    {
        if str_eq(list[i].as_str(), name) {
            assert(texts(list@)[i as int] == name@);
            return true;
        }
        i += 1;
    }
    false
}

/// A copy of a list of strings.
fn copy_strings(list: &Vec<String>) -> (r: Vec<String>)
    ensures
        texts(r@) == texts(list@),
        r.len() == list.len(),
{
    let mut out: Vec<String> = Vec::new();
    let mut i: usize = 0;
    while i < list.len()
        invariant
            i <= list.len(),
            out.len() == i,
            forall|j: int| 0 <= j < i ==> out@[j]@ == list@[j]@,
        decreases list.len() - i,
    {
        out.push(list[i].clone());
        i += 1;
    }
    assert(texts(out@) =~= texts(list@));
    out
}

/// A copy of a table of aliases.
fn copy_aliases(aliases: &Table<Vec<String>>) -> (r: Table<Vec<String>>)
    ensures
        r@ == aliases@,
{
    let mut out: Table<Vec<String>> = Table::new();
    let mut i: usize = 0;
    while i < aliases.entries.len()
        invariant
            i <= aliases.entries.len(),
            out@ == aliases@.take(i as int),
        decreases aliases.entries.len() - i,
    {
        let names = copy_strings(&aliases.entries[i].1);
        assert(names.deep_view() =~= aliases.entries@[i as int].1.deep_view()) by {
            assert(texts(names@) == texts(aliases.entries@[i as int].1@));
            assert forall|j: int| 0 <= j < names@.len() implies names.deep_view()[j]
                == aliases.entries@[i as int].1.deep_view()[j] by {
                assert(texts(names@)[j] == texts(aliases.entries@[i as int].1@)[j]);
            }
        }
        out.insert(aliases.entries[i].0.clone(), names);
        assert(out@ =~= aliases@.take(i + 1));
        i += 1;
    }
    assert(aliases@.take(aliases.entries.len() as int) =~= aliases@);
    out
}

/// The position of the first specification whose attribute is `name`.
fn exact_position(product: &ProductDetail, name: &str) -> (r: Option<usize>)
    ensures
        match r {
            Some(i) => position_of_exact(product@.specifications, name@, 0) == Some(i as int)
                && i < product.specifications.len(),
            None => position_of_exact(product@.specifications, name@, 0) is None,
        },
{
    let mut i: usize = 0;
    while i < product.specifications.len()
        invariant
            i <= product.specifications.len(),
            position_of_exact(product@.specifications, name@, 0) == position_of_exact(
                product@.specifications,
                name@,
                i as int,
            ),
        decreases product.specifications.len() - i,
    {
        if str_eq(product.specifications[i].attribute.as_str(), name) {
            return Some(i);
        }
        i += 1;
    }
    None
}

/// The first value of the specification at position `i`.
fn first_value_at(product: &ProductDetail, i: usize) -> (r: Option<String>)
    requires
        i < product.specifications.len(),
    ensures
        text_of(r) == first_of(product@.specifications[i as int]),
{
    if product.specifications[i].values.len() > 0 {
        Some(product.specifications[i].values[0].clone())
    } else {
        None
    }
}

/// Tells the finish that is usual for a material given in lower case.
pub fn finish_for_material(material_lower: &str) -> (r: Option<String>)
    ensures
        text_of(r) == usual_finish(material_lower@),
{
    let material = chars_of(material_lower);
    if contains(&material, "stainless") {
        Some("PASS".to_string())
    } else if contains(&material, "steel") {
        Some("ZP".to_string())
    } else if contains(&material, "brass") {
        Some("UNFINISHED".to_string())
    } else if contains(&material, "aluminum") {
        Some("CLEAR".to_string())
    } else {
        None
    }
}

/// Writes the suggestions of an analysis from whether a template was found,
/// the lower-cased family description and the unmapped and missing names.
pub fn suggestions_from(
    template_found: bool,
    family_lower: &str,
    unmapped_specs: &Vec<String>,
    missing_specs: &Vec<String>,
) -> (r: Vec<String>)
    ensures
        texts(r@) == suggestions_for(
            template_found,
            family_lower@,
            texts(unmapped_specs@),
            texts(missing_specs@),
        ),
{
    let mut suggestions: Vec<String> = Vec::new();
    if !template_found {
        suggestions.push(
            "⚠️  No template found for this part type. Consider adding a new template.".to_string(),
        );
        assert(texts(suggestions@) =~= suggestions_for(
            template_found,
            family_lower@,
            texts(unmapped_specs@),
            texts(missing_specs@),
        ));
        return suggestions;
    }
    let ghost s0 = Seq::<Seq<char>>::empty();
    assert(texts(suggestions@) =~= s0);
    if missing_specs.len() == 0 && unmapped_specs.len() == 0 {
        suggestions.push("✅ Template uses all available key specifications".to_string());
    }
    let ghost s1 = if texts(missing_specs@).len() == 0 && texts(unmapped_specs@).len() == 0 {
        s0.push("✅ Template uses all available key specifications"@)
    } else {
        s0
    };
    assert(texts(suggestions@) =~= s1);
    if missing_specs.len() > 0 {
        let mut line = chars_of("🔍 Missing expected specifications: ");
        append(&mut line, &join(missing_specs, ", "));
        suggestions.push(string_of(&line));
        suggestions.push("   → These specs might be named differently in the API".to_string());
        suggestions.push("   → Consider adding aliases to the template".to_string());
    }
    let ghost s2 = if texts(missing_specs@).len() > 0 {
        s1.push(
            "🔍 Missing expected specifications: "@ + joined(texts(missing_specs@), ", "@),
        ).push("   → These specs might be named differently in the API"@).push(
            "   → Consider adding aliases to the template"@,
        )
    } else {
        s1
    };
    assert(texts(suggestions@) =~= s2);
    if unmapped_specs.len() > 0 {
        let mut line = chars_of("📋 Unmapped specifications available: ");
        append(&mut line, &join(unmapped_specs, ", "));
        suggestions.push(string_of(&line));
        suggestions.push(
            "   → These could be added to the template for more detailed names".to_string(),
        );
    }
    let ghost s3 = if texts(unmapped_specs@).len() > 0 {
        s2.push(
            "📋 Unmapped specifications available: "@ + joined(texts(unmapped_specs@), ", "@),
        ).push("   → These could be added to the template for more detailed names"@)
    } else {
        s2
    };
    assert(texts(suggestions@) =~= s3);
    let family = chars_of(family_lower);
    if contains(&family, "stainless") && missing_specs.len() > 0 {
        suggestions.push(
            "💡 Stainless steel parts often have finish embedded in material".to_string(),
        );
    }
    assert(texts(suggestions@) =~= suggestions_for(
        template_found,
        family_lower@,
        texts(unmapped_specs@),
        texts(missing_specs@),
    ));
    suggestions
}

/// Writes the head of a report.
fn write_header(analysis: &PartAnalysis) -> (r: Vec<char>)
    ensures
        r@ == report_header(analysis@),
{
    let mut out = chars_of("🔍 Part Analysis: ");
    append_str(&mut out, analysis.part_number.as_str());
    append_str(&mut out, "\n\n");
    append_str(&mut out, "📦 Product Info:\n");
    append_str(&mut out, "   Category: ");
    append_str(&mut out, analysis.category.as_str());
    append_str(&mut out, "\n");
    append_str(&mut out, "   Family: ");
    append_str(&mut out, analysis.family_description.as_str());
    append_str(&mut out, "\n");
    append_str(&mut out, "   Detected Type: ");
    append_str(&mut out, analysis.detected_type.as_str());
    append_str(&mut out, "\n\n");
    out
}

/// Writes the line of a report for one specification.
fn write_spec_line(spec: &SpecAnalysis) -> (r: Vec<char>)
    ensures
        r@ == spec_line(spec@),
{
    let mut out = chars_of("   ");
    append_str(&mut out, if spec.used_in_name { "✓" } else { "✗" });
    append_str(&mut out, " ");
    append_str(&mut out, spec.name.as_str());
    append_str(&mut out, ": ");
    append(&mut out, &join(&spec.values, ", "));
    append_str(&mut out, " → (");
    append_str(&mut out, if spec.used_in_name { "used in name" } else { "not used" });
    append_str(&mut out, ")\n");
    out
}

/// Writes the part of a report that lists the specifications.
fn write_specifications(analysis: &PartAnalysis) -> (r: Vec<char>)
    ensures
        r@ == specifications_section(analysis@),
{
    let mut lines: Vec<char> = Vec::new();
    let mut i: usize = 0;
    assert(lines@ =~= spec_lines(analysis@.specifications, 0));
    while i < analysis.specifications.len()
        invariant
            i <= analysis.specifications.len(),
            lines@ == spec_lines(analysis@.specifications, i as int),
        decreases analysis.specifications.len() - i,
    {
        assert(analysis.specifications@[i as int]@ == analysis@.specifications[i as int]);
        append(&mut lines, &write_spec_line(&analysis.specifications[i]));
        i += 1;
    }
    let mut out = chars_of("📋 Specifications (");
    push_decimal(&mut out, analysis.specifications.len() as u128);
    append_str(&mut out, " found):\n");
    append(&mut out, &lines);
    append_str(&mut out, "\n");
    out
}

/// Writes the lines of a report for the aliases.
fn write_alias_lines(aliases: &Table<Vec<String>>) -> (r: Vec<char>)
    ensures
        r@ == alias_lines(aliases@, aliases@.len() as int),
{
    let mut lines: Vec<char> = Vec::new();
    let mut i: usize = 0;
    assert(lines@ =~= alias_lines(aliases@, 0));
    while i < aliases.entries.len()
        invariant
            i <= aliases.entries.len(),
            lines@ == alias_lines(aliases@, i as int),
        decreases aliases.entries.len() - i,
    {
        assert(aliases@[i as int].1 =~= texts(aliases.entries@[i as int].1@));
        let mut line = chars_of("   - ");
        append_str(&mut line, aliases.entries[i].0.as_str());
        append_str(&mut line, ": ");
        append(&mut line, &join(&aliases.entries[i].1, ", "));
        append_str(&mut line, "\n");
        assert(line@ == alias_line(aliases@[i as int]));
        append(&mut lines, &line);
        i += 1;
    }
    lines
}

/// Writes the part of a report about the template.
fn write_template(analysis: &PartAnalysis, show_template: bool, show_aliases: bool) -> (r: Vec<
    char,
>)
    ensures
        r@ == template_section(analysis@, show_template, show_aliases),
{
    if !show_template {
        return Vec::new();
    }
    match &analysis.template_used {
        Some(name) => {
            let mut out = chars_of("🏷️  Template: ");
            append_str(&mut out, name.as_str());
            append_str(&mut out, " \n");
            append_str(&mut out, "   Expected: [");
            append(&mut out, &join(&analysis.template_specs, ", "));
            append_str(&mut out, "]\n");
            let mut listed: Vec<char> = Vec::new();
            if show_aliases && analysis.spec_aliases.len() > 0 {
                listed = chars_of("   Aliases:\n");
                append(&mut listed, &write_alias_lines(&analysis.spec_aliases));
            }
            append(&mut out, &listed);
            append_str(&mut out, "\n");
            out
        },
        None => chars_of("🏷️  Template: None found\n\n"),
    }
}

/// Writes the part of a report about the generated name.
fn write_name(analysis: &PartAnalysis) -> (r: Vec<char>)
    ensures
        r@ == name_section(analysis@),
{
    let mut lines: Vec<char> = Vec::new();
    let mut i: usize = 0;
    assert(lines@ =~= component_lines(analysis@.name_components, 0));
    while i < analysis.name_components.len()
        invariant
            i <= analysis.name_components.len(),
            lines@ == component_lines(analysis@.name_components, i as int),
        decreases analysis.name_components.len() - i,
    {
        assert(analysis.name_components@[i as int]@ == analysis@.name_components[i as int]);
        let mut line = chars_of("   - ");
        append_str(&mut line, analysis.name_components[i].component.as_str());
        append_str(&mut line, ": ");
        append_str(&mut line, analysis.name_components[i].source.as_str());
        append_str(&mut line, "\n");
        append(&mut lines, &line);
        i += 1;
    }
    let mut out = chars_of("🔧 Generated Name: ");
    append_str(&mut out, analysis.generated_name.as_str());
    append_str(&mut out, "\n");
    let mut suggested: Vec<char> = Vec::new();
    match &analysis.suggested_name {
        Some(name) => {
            suggested = chars_of("💡 Suggested Name with Finish: ");
            append_str(&mut suggested, name.as_str());
            append_str(&mut suggested, "\n");
        },
        None => {},
    }
    append(&mut out, &suggested);
    let mut components: Vec<char> = Vec::new();
    if analysis.name_components.len() > 0 {
        components = chars_of("   Components:\n");
        append(&mut components, &lines);
    }
    append(&mut out, &components);
    append_str(&mut out, "\n");
    out
}

/// Writes the part of a report that lists the suggestions.
fn write_suggestions(analysis: &PartAnalysis) -> (r: Vec<char>)
    ensures
        r@ == suggestions_section(analysis@),
{
    if analysis.suggestions.len() == 0 {
        return Vec::new();
    }
    let mut lines: Vec<char> = Vec::new();
    let mut i: usize = 0;
    assert(lines@ =~= suggestion_lines(analysis@.suggestions, 0));
    while i < analysis.suggestions.len()
        invariant
            i <= analysis.suggestions.len(),
            lines@ == suggestion_lines(analysis@.suggestions, i as int),
        decreases analysis.suggestions.len() - i,
    {
        let mut line = chars_of("   ");
        append_str(&mut line, analysis.suggestions[i].as_str());
        append_str(&mut line, "\n");
        append(&mut lines, &line);
        i += 1;
    }
    let mut out = chars_of("💡 Suggestions:\n");
    append(&mut out, &lines);
    out
}

/// The analyzer: a name generator that explains itself.
pub struct PartAnalyzer {
    name_generator: NameGenerator,
}

impl View for PartAnalyzer {
    type V = Seq<(Seq<char>, TemplateView)>;

    closed spec fn view(&self) -> Seq<(Seq<char>, TemplateView)> {
        self.name_generator@
    }
}

impl PartAnalyzer {
    /// An analyzer over the templates of every family.
    pub fn new() -> (r: Self)
        ensures
            r@ == crate::naming::generator::standard_registry(),
    {
        PartAnalyzer { name_generator: NameGenerator::new() }
    }

    /// An analyzer over the templates of a name generator.
    pub fn with_generator(name_generator: NameGenerator) -> (r: Self)
        ensures
            r@ == name_generator@,
    {
        PartAnalyzer { name_generator }
    }

    /// Analyzes a product: the category and template that apply, the use
    /// that the template makes of the specifications, the generated and the
    /// suggested name, the breakdown of the name, and suggestions.
    pub fn analyze_part(
        &self,
        product: &ProductDetail,
        _show_template: bool,
        _show_aliases: bool,
    ) -> (r: PartAnalysis)
        ensures
            r@ == analysis_of(self@, product@),
    {
        let detected_type = determine_category(product);
        let template = self.name_generator.get_template(detected_type.as_str());
        let ghost tv = template_view(template);
        let ghost specs = product@.specifications;

        let mut spec_analyses_list: Vec<SpecAnalysis> = Vec::new();
        let mut unmapped_specs: Vec<String> = Vec::new();
        let mut i: usize = 0;
        while i < product.specifications.len()
            invariant
                i <= product.specifications.len(),
                specs == product@.specifications,
                tv == template_view(template),
                spec_analyses_list.len() == i,
                forall|j: int|
                    0 <= j < i ==> (#[trigger] spec_analyses_list@[j])@ == spec_analysis_of(
                        tv,
                        specs[j],
                    ),
                texts(unmapped_specs@) == unmapped_among(tv, specs, i as int),
            decreases product.specifications.len() - i,
        {
            let spec = &product.specifications[i];
            assert(spec@ == specs[i as int]);
            let is_mapped = match template {
                Some(t) => self.is_spec_mapped(spec.attribute.as_str(), t),
                None => false,
            };
            let analysis = SpecAnalysis {
                name: spec.attribute.clone(),
                values: copy_strings(&spec.values),
                used_in_name: is_mapped,
                processed_value: None,
                source: if is_mapped {
                    "direct".to_string()
                } else {
                    "unmapped".to_string()
                },
            };
            assert(analysis@ == spec_analysis_of(tv, specs[i as int]));
            spec_analyses_list.push(analysis);
            if !is_mapped {
                let ghost before = unmapped_specs@;
                unmapped_specs.push(spec.attribute.clone());
                assert(texts(unmapped_specs@) =~= texts(before).push(spec@.attribute));
            }
            i += 1;
        }
        assert(spec_analysis_views(spec_analyses_list@) =~= spec_analyses(tv, specs));

        let mut missing_specs: Vec<String> = Vec::new();
        match template {
            Some(t) => {
                let mut k: usize = 0;
                while k < t.key_specs.len()
                    invariant
                        k <= t.key_specs.len(),
                        specs == product@.specifications,
                        texts(missing_specs@) == missing_among(t@, specs, k as int),
                    decreases t.key_specs.len() - k,
                {
                    let expected = t.key_specs[k].as_str();
                    assert(expected@ == t@.key_specs[k as int]);
                    if self.find_spec_in_product(expected, product, t).is_none() {
                        let ghost before = missing_specs@;
                        missing_specs.push(t.key_specs[k].clone());
                        assert(texts(missing_specs@) =~= texts(before).push(expected@));
                    }
                    k += 1;
                }
            },
            None => {
                assert(texts(missing_specs@) =~= Seq::<Seq<char>>::empty());
            },
        }
        assert(texts(missing_specs@) == missing_fields(tv, specs));

        let generated_name = self.name_generator.generate_name(product);
        let suggested_name = self.generate_suggested_name(product, &template, &missing_specs);
        let name_components = self.breakdown_name(
            generated_name.as_str(),
            detected_type.as_str(),
            template,
        );

        let mut template_used: Option<String> = None;
        let mut template_specs: Vec<String> = Vec::new();
        let mut spec_aliases: Table<Vec<String>> = Table::new();
        match template {
            Some(t) => {
                template_used = Some(detected_type.clone());
                template_specs = copy_strings(&t.key_specs);
                match &t.spec_aliases {
                    Some(aliases) => {
                        spec_aliases = copy_aliases(aliases);
                    },
                    None => {},
                }
            },
            None => {
                assert(texts(template_specs@) =~= Seq::<Seq<char>>::empty());
            },
        }

        let suggestions = self.generate_suggestions(
            product,
            template,
            &unmapped_specs,
            &missing_specs,
        );

        PartAnalysis {
            part_number: product.part_number.clone(),
            category: product.product_category.clone(),
            detected_type,
            family_description: product.family_description.clone(),
            product_description: product.detail_description.clone(),
            specifications: spec_analyses_list,
            missing_specs,
            unmapped_specs,
            template_used,
            template_specs,
            spec_aliases,
            generated_name,
            suggested_name,
            name_components,
            suggestions,
        }
    }

    /// Whether the template uses a specification: its name is one of the
    /// template's fields or one of their aliases, letter for letter.
    pub fn is_spec_mapped(&self, spec_name: &str, template: &NamingTemplate) -> (r: bool)
        ensures
            r == is_mapped(template@, spec_name@),
    {
        if contains_text(&template.key_specs, spec_name) {
            return true;
        }
        match &template.spec_aliases {
            Some(aliases) => {
                let mut i: usize = 0;
                while i < aliases.entries.len()
                    invariant
                        i <= aliases.entries.len(),
                        !template@.key_specs.contains(spec_name@),
                        template@.spec_aliases == Some(aliases@),
                        forall|k: int| 0 <= k < i ==> !(#[trigger] aliases@[k]).1.contains(
                            spec_name@,
                        ),
                    decreases aliases.entries.len() - i,
                {
                    assert(aliases@[i as int].1 =~= texts(aliases.entries@[i as int].1@));
                    if contains_text(&aliases.entries[i].1, spec_name) {
                        assert(aliases@[i as int].1.contains(spec_name@));
                        return true;
                    }
                    i += 1;
                }
                false
            },
            None => false,
        }
    }

    /// Finds the value that the product has for a field of the template,
    /// under the field's name or one of its aliases, letter for letter.
    pub fn find_spec_in_product(
        &self,
        spec_name: &str,
        product: &ProductDetail,
        template: &NamingTemplate,
    ) -> (r: Option<String>)
        ensures
            text_of(r) == found_value(template@, product@.specifications, spec_name@),
    {
        match exact_position(product, spec_name) {
            Some(i) => {
                return first_value_at(product, i);
            },
            None => {},
        }
        match &template.spec_aliases {
            Some(aliases) => {
                match aliases.get(spec_name) {
                    Some(alias_list) => {
                        let mut k: usize = 0;
                        while k < alias_list.len()
                            invariant
                                k <= alias_list.len(),
                                position_of_exact(product@.specifications, spec_name@, 0) is None,
                                template@.spec_aliases == Some(aliases@),
                                lookup(aliases@, spec_name@) == Some(alias_list.deep_view()),
                                alias_value(product@.specifications, alias_list.deep_view(), 0)
                                    == alias_value(
                                    product@.specifications,
                                    alias_list.deep_view(),
                                    k as int,
                                ),
                            decreases alias_list.len() - k,
                        {
                            assert(alias_list.deep_view()[k as int] == alias_list@[k as int]@);
                            match exact_position(product, alias_list[k].as_str()) {
                                Some(i) => {
                                    return first_value_at(product, i);
                                },
                                None => {},
                            }
                            k += 1;
                        }
                        None
                    },
                    None => None,
                }
            },
            None => None,
        }
    }

    /// Breaks a generated name down into its components. The ascription of
    /// a component to a field goes by position and is a best effort.
    pub fn breakdown_name(
        &self,
        name: &str,
        category: &str,
        template: Option<&NamingTemplate>,
    ) -> (r: Vec<NameComponent>)
        ensures
            component_views(r@) == breakdown(name@, category@, template_view(template)),
    {
        let mut components: Vec<NameComponent> = Vec::new();
        match template {
            Some(t) => {
                let parts = split(&chars_of(name), '-');
                let mut i: usize = 0;
                while i < parts.len()
                    invariant
                        i <= parts.len(),
                        components.len() == i,
                        texts(parts@) == segments_of(name@, '-'),
                        forall|j: int|
                            0 <= j < i ==> (#[trigger] components@[j])@ == component_at(
                                texts(parts@),
                                category@,
                                t@,
                                j,
                            ),
                    decreases parts.len() - i,
                {
                    let source: String = if i == 0 {
                        let mut text = chars_of("Template prefix (");
                        append_str(&mut text, category);
                        append_str(&mut text, ")");
                        string_of(&text)
                    } else if i - 1 < t.key_specs.len() {
                        t.key_specs[i - 1].clone()
                    } else {
                        let mut text = chars_of("Unknown spec ");
                        push_decimal(&mut text, i as u128);
                        string_of(&text)
                    };
                    let component = NameComponent {
                        component: parts[i].clone(),
                        source,
                        original_value: None,
                    };
                    assert(component@ == component_at(texts(parts@), category@, t@, i as int));
                    components.push(component);
                    i += 1;
                }
                assert(component_views(components@) =~= breakdown(
                    name@,
                    category@,
                    template_view(template),
                ));
            },
            None => {
                components.push(
                    NameComponent {
                        component: name.to_string(),
                        source: "Unknown template".to_string(),
                        original_value: None,
                    },
                );
                assert(component_views(components@) =~= breakdown(
                    name@,
                    category@,
                    template_view(template),
                ));
            },
        }
        components
    }

    /// Suggests a name with a finish, where the template has the field
    /// `Finish` and the product lacks it.
    pub fn generate_suggested_name(
        &self,
        product: &ProductDetail,
        template: &Option<&NamingTemplate>,
        missing_specs: &Vec<String>,
    ) -> (r: Option<String>)
        ensures
            text_of(r) == suggested_name_of(
                template_view(*template),
                product@.specifications,
                texts(missing_specs@),
                generated_name(self@, product@),
            ),
    {
        match template {
            Some(t) => {
                if contains_text(&t.key_specs, "Finish") && contains_text(missing_specs, "Finish") {
                    match self.suggest_finish_for_material(product) {
                        Some(finish) => {
                            let current_name = self.name_generator.generate_name(product);
                            let mut ending = chars_of("-");
                            append_str(&mut ending, finish.as_str());
                            let mut name = chars_of(current_name.as_str());
                            let ends = ending.len() <= name.len() && matches_at(
                                &name,
                                &ending,
                                name.len() - ending.len(),
                            );
                            if ends {
                                None
                            } else {
                                append(&mut name, &ending);
                                Some(string_of(&name))
                            }
                        },
                        None => None,
                    }
                } else {
                    None
                }
            },
            None => None,
        }
    }

    /// Suggests the finish that is usual for the product's material; `?`
    /// where the material tells nothing.
    pub fn suggest_finish_for_material(&self, product: &ProductDetail) -> (r: Option<String>)
        ensures
            r matches Some(finish) && finish@ == suggested_finish(product@.specifications, 0),
    {
        let mut i: usize = 0;
        while i < product.specifications.len()
            invariant
                i <= product.specifications.len(),
                suggested_finish(product@.specifications, 0) == suggested_finish(
                    product@.specifications,
                    i as int,
                ),
            decreases product.specifications.len() - i,
        {
            let spec = &product.specifications[i];
            assert(spec@ == product@.specifications[i as int]);
            if str_eq(spec.attribute.as_str(), "Material") && spec.values.len() > 0 {
                let material_lower = to_lowercase(spec.values[0].as_str());
                match finish_for_material(material_lower.as_str()) {
                    Some(finish) => {
                        return Some(finish);
                    },
                    None => {},
                }
            }
            i += 1;
        }
        Some("?".to_string())
    }

    /// Writes the suggestions of an analysis.
    pub fn generate_suggestions(
        &self,
        product: &ProductDetail,
        template: Option<&NamingTemplate>,
        unmapped_specs: &Vec<String>,
        missing_specs: &Vec<String>,
    ) -> (r: Vec<String>)
        ensures
            texts(r@) == suggestions_for(
                template is Some,
                lowercase(product@.family_description),
                texts(unmapped_specs@),
                texts(missing_specs@),
            ),
    {
        let family_lower = to_lowercase(product.family_description.as_str());
        suggestions_from(template.is_some(), family_lower.as_str(), unmapped_specs, missing_specs)
    }

    /// Writes the report of an analysis for people to read, with the
    /// template and its aliases where they are asked for.
    pub fn format_human(
        &self,
        analysis: &PartAnalysis,
        show_template: bool,
        show_aliases: bool,
    ) -> (r: String)
        ensures
            r@ == human_report(analysis@, show_template, show_aliases),
    {
        let mut output = write_header(analysis);
        append(&mut output, &write_specifications(analysis));
        append(&mut output, &write_template(analysis, show_template, show_aliases));
        append(&mut output, &write_name(analysis));
        append(&mut output, &write_suggestions(analysis));
        string_of(&output)
    }
}

} // verus!
