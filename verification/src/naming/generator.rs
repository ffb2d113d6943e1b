//! Naming templates and the name assembler.
//!
//! A template names the fields that make up a name and the order in which
//! they appear. The assembler resolves each field against the product's
//! specifications, transforms the value by the field's role and joins the
//! tokens that result with hyphens.

use crate::models::product::{
    attribute_value, find_attribute, first_value, ProductDetail, ProductView, Specification,
    SpecificationView,
};
use crate::naming::abbreviations::{
    abbreviate_value, abbreviation, get_steel_grade_material, material_and_finish,
    parse_material_and_finish, steel_grade_material,
};
use crate::naming::converters::{
    captured_group, convert_length_to_decimal, extract_thread_with_pitch, length_text,
    pitch_pattern, text_of, thread_designation,
};
use crate::naming::detectors::{
    category_of, classified, determine_category, mounted_bearing_type, plain_bearing_type,
};
use crate::naming::table::{lookup, Table};
use crate::naming::templates::bearings::{
    initialize_bearing_templates, lemma_with_bearing_templates_keys, with_bearing_templates,
};
use crate::naming::templates::cable_holders::{
    initialize_cable_holder_templates, lemma_with_cable_holder_templates_keys, with_cable_holder_templates,
};
use crate::naming::templates::latches::{
    initialize_latch_templates, lemma_with_latch_templates_keys, with_latch_templates,
};
use crate::naming::templates::nuts::{
    initialize_nut_templates, lemma_with_nut_templates_keys, with_nut_templates,
};
use crate::naming::templates::pins::{
    initialize_pin_templates, lemma_with_pin_templates_keys, with_pin_templates,
};
use crate::naming::templates::pulleys::{
    initialize_pulley_templates, lemma_with_pulley_templates_keys, with_pulley_templates,
};
use crate::naming::templates::screws::{
    initialize_screw_templates, lemma_with_screw_templates_keys, with_screw_templates,
};
use crate::naming::templates::spacers::{
    initialize_spacer_templates, lemma_with_spacer_templates_keys, with_spacer_templates,
};
use crate::naming::templates::standoffs::{
    initialize_standoff_templates, lemma_with_standoff_templates_keys, with_standoff_templates,
};
use crate::naming::templates::washers::{
    initialize_washer_templates, lemma_with_washer_templates_keys, with_washer_templates,
};
use crate::text::{
    append_str, chars_of, contains, ends_with, eq_ignore_ascii_case, equal_ignoring_ascii_case,
    has_prefix, has_substring, has_suffix, equals, join, joined, lowercase, replace, replaced, slices,
    lemma_all_segments_lack, lemma_segments_hold_no_separator, lemma_some_segment_is_not_empty,
    lemma_split_of_join, lemma_split_undoes_join, segments_after, segments_of, split_whitespace, starts_with, string_of, texts,
    to_lowercase, to_uppercase, uppercase, words_of,
};
use std::sync::Arc;
use vstd::prelude::*;

verus! {

/// A transformation that a specification mapping may ask for.
#[derive(Debug, Clone)]
pub enum TransformType {
    /// Convert fractions such as `1/4` to decimals.
    FractionToDecimal,
    /// Convert the hyphens of a thread size to `x`.
    ThreadConversion,
    /// Split a material text into material and finish.
    MaterialFinishSplit,
}

/// A logical field with the attribute names under which it may be found.
#[derive(Debug, Clone)]
pub struct SpecMapping {
    pub aliases: Vec<String>,
    pub required: bool,
    pub transform: Option<TransformType>,
}

/// The template of one category: its prefix, its fields in the order of the
/// name, the aliases of its fields and its dictionary of abbreviations.
#[derive(Debug)]
pub struct NamingTemplate {
    pub prefix: String,
    pub key_specs: Vec<String>,
    pub spec_aliases: Option<Table<Vec<String>>>,
    pub spec_abbreviations: Arc<Table<String>>,
}

/// The mathematical content of a [`NamingTemplate`].
pub struct TemplateView {
    pub prefix: Seq<char>,
    pub key_specs: Seq<Seq<char>>,
    pub spec_aliases: Option<Seq<(Seq<char>, Seq<Seq<char>>)>>,
    pub spec_abbreviations: Seq<(Seq<char>, Seq<char>)>,
}

impl View for NamingTemplate {
    type V = TemplateView;

    open spec fn view(&self) -> TemplateView {
        TemplateView {
            prefix: self.prefix@,
            key_specs: texts(self.key_specs@),
            spec_aliases: match self.spec_aliases {
                Some(aliases) => Some(aliases@),
                None => None,
            },
            spec_abbreviations: self.spec_abbreviations@,
        }
    }
}

impl DeepView for NamingTemplate {
    type V = TemplateView;

    open spec fn deep_view(&self) -> TemplateView {
        self.view()
    }
}

impl TemplateView {
    /// A template is well formed where it has a prefix and at least one field.
    pub open spec fn well_formed(self) -> bool {
        self.prefix.len() > 0 && self.key_specs.len() > 0
    }
}

/// The template with the given prefix, fields, aliases and dictionary.
pub open spec fn template_of(
    prefix: Seq<char>,
    key_specs: Seq<Seq<char>>,
    spec_aliases: Option<Seq<(Seq<char>, Seq<Seq<char>>)>>,
    spec_abbreviations: Seq<(Seq<char>, Seq<char>)>,
) -> TemplateView {
    TemplateView { prefix, key_specs, spec_aliases, spec_abbreviations }
}

/// Every template of a registry is well formed.
pub open spec fn all_well_formed(registry: Seq<(Seq<char>, TemplateView)>) -> bool {
    forall|i: int| 0 <= i < registry.len() ==> (#[trigger] registry[i]).1.well_formed()
}

/// Registers under `key` a template that shares the dictionary
/// `abbreviations`. A template with a prefix and a field keeps a well-formed
/// registry well formed.
pub fn register(
    registry: &mut Table<NamingTemplate>,
    key: &str,
    prefix: &str,
    fields: Vec<&str>,
    aliases: Option<Table<Vec<String>>>,
    abbreviations: &Arc<Table<String>>,
)
    ensures
        final(registry)@ == old(registry)@.push(
            (key@, template_of(prefix@, slices(fields@), aliases.deep_view(), abbreviations@)),
        ),
        prefix@.len() > 0 && fields.len() > 0 && all_well_formed(old(registry)@)
            ==> all_well_formed(final(registry)@),
{
    let template = NamingTemplate {
        prefix: prefix.to_string(),
        key_specs: strings_of(&fields),
        spec_aliases: aliases,
        spec_abbreviations: abbreviations.clone(),
    };
    assert(template@ == template_of(
        prefix@,
        slices(fields@),
        aliases.deep_view(),
        abbreviations@,
    ));
    registry.insert(key.to_string(), template);
}

/// The part that a field plays in a name; it decides how the field's value
/// is transformed.
#[derive(Debug, Clone, Copy, PartialEq, Eq, Structural)]
pub enum FieldRole {
    /// A material, which may carry a finish in front.
    Material,
    /// The finish.
    Finish,
    /// The length.
    Length,
    /// The size of the screw that a part is made for.
    ScrewSize,
    /// A diameter, width, height or other dimension.
    Dimension,
    /// A thread size.
    ThreadSize,
    /// Anything else.
    Other,
}

/// A lower-cased field name that names a material.
pub open spec fn is_material_name(lower: Seq<char>) -> bool {
    lower == "material"@ || lower == "housing material"@ || has_suffix(lower, " material"@)
}

/// A lower-cased field name that names a diameter.
pub open spec fn is_diameter_name(lower: Seq<char>) -> bool {
    lower == "diameter"@ || has_suffix(lower, " diameter"@) || has_prefix(lower, "diameter "@)
        || lower == "bore"@ || has_suffix(lower, " bore"@)
}

/// A lower-cased field name that names a length.
pub open spec fn is_length_name(lower: Seq<char>) -> bool {
    lower == "length"@ || has_suffix(lower, " length"@) || has_prefix(lower, "length "@) || (
    has_prefix(lower, "overall "@) && has_suffix(lower, " length"@))
}

/// A lower-cased field name that names a dimension.
pub open spec fn is_dimension_name(lower: Seq<char>) -> bool {
    is_diameter_name(lower) || is_length_name(lower) || lower == "width"@ || has_suffix(
        lower,
        " width"@,
    ) || lower == "height"@ || has_suffix(lower, " height"@) || lower == "od"@ || has_suffix(
        lower,
        " od"@,
    ) || lower == "id"@ || has_suffix(lower, " id"@) || lower == "for screw size"@
        || has_substring(lower, "mounting hole center"@)
}

/// A lower-cased field name that names a thread size.
pub open spec fn is_thread_size_name(lower: Seq<char>) -> bool {
    lower == "thread size"@ || lower == "thread (a) size"@ || lower == "thread (b) size"@
        || has_prefix(lower, "thread size"@) || (has_prefix(lower, "thread ("@) && has_substring(
        lower,
        ") size"@,
    ))
}

/// The role of the field `name`, whose lower-cased form is `lower`.
///
/// Materials are told first, then the fields `Finish`, `Length` and
/// `For Screw Size` by their names without regard to ASCII case, then
/// dimensions, then thread sizes.
pub open spec fn role_of(name: Seq<char>, lower: Seq<char>) -> FieldRole {
    if is_material_name(lower) {
        FieldRole::Material
    } else if equal_ignoring_ascii_case(name, "Finish"@) {
        FieldRole::Finish
    } else if equal_ignoring_ascii_case(name, "Length"@) {
        FieldRole::Length
    } else if equal_ignoring_ascii_case(name, "For Screw Size"@) {
        FieldRole::ScrewSize
    } else if is_dimension_name(lower) {
        FieldRole::Dimension
    } else if is_thread_size_name(lower) {
        FieldRole::ThreadSize
    } else {
        FieldRole::Other
    }
}

/// The role of the field `name`.
pub open spec fn field_role_of(name: Seq<char>) -> FieldRole {
    role_of(name, lowercase(name))
}

/// A non-empty text as a token; an empty text gives no token.
pub open spec fn token_of(t: Seq<char>) -> Option<Seq<char>> {
    if t.len() == 0 {
        None
    } else {
        Some(t)
    }
}

/// The dictionary's abbreviation of `value`, else its generic abbreviation.
pub open spec fn abbreviated(dictionary: Seq<(Seq<char>, Seq<char>)>, value: Seq<char>) -> Seq<
    char,
> {
    match lookup(dictionary, value) {
        Some(a) => a,
        None => abbreviation(value),
    }
}

/// The dictionary's abbreviation of `value`, else `value` itself.
pub open spec fn listed_or_same(
    dictionary: Seq<(Seq<char>, Seq<char>)>,
    value: Seq<char>,
) -> Seq<char> {
    match lookup(dictionary, value) {
        Some(a) => a,
        None => value,
    }
}

/// A prefix that marks a bearing whose material may be filled: it ends in
/// `B` and begins with `FSB`, `SB` or `BB`.
pub open spec fn is_filled_bearing_prefix(prefix: Seq<char>) -> bool {
    has_suffix(prefix, "B"@) && (has_prefix(prefix, "FSB"@) || has_prefix(prefix, "SB"@)
        || has_prefix(prefix, "BB"@))
}

/// The filler of a product, where it says something: the first value of
/// `Filler Material` unless it is empty, `None` or `Not Specified`.
pub open spec fn informative_filler(specs: Seq<SpecificationView>) -> Option<Seq<char>> {
    match attribute_value(specs, "Filler Material"@) {
        Some(filler) => if filler.len() == 0 || filler == "None"@ || filler == "Not Specified"@ {
            None
        } else {
            Some(filler)
        },
        None => None,
    }
}

/// The label under which a material is abbreviated.
///
/// The finish in front of the material is left out. For a bearing with an
/// informative filler the label is `<filler>-Filled <material>`. A label
/// that then reads `Steel` or `Alloy Steel` is replaced by the graded steel
/// that the product's strength grade names.
pub open spec fn material_label(
    template: TemplateView,
    p: ProductView,
    value: Seq<char>,
) -> Seq<char> {
    let material = material_and_finish(value).0;
    let filled = if is_filled_bearing_prefix(template.prefix) {
        match informative_filler(p.specifications) {
            Some(filler) => filler + "-Filled "@ + material,
            None => material,
        }
    } else {
        material
    };
    if equal_ignoring_ascii_case(filled, "Steel"@) || equal_ignoring_ascii_case(
        filled,
        "Alloy Steel"@,
    ) {
        steel_grade_material(p.specifications, filled)
    } else {
        filled
    }
}

/// The finish that a finish field stands for: its value where that is not
/// empty, else the finish that the material carried, else nothing.
pub open spec fn resolved_finish(value: Seq<char>, extracted: Option<Seq<char>>) -> Seq<char> {
    if value.len() > 0 {
        value
    } else {
        match extracted {
            Some(f) => f,
            None => Seq::<char>::empty(),
        }
    }
}

/// The token of a finish field with the value `value`, where `extracted` is
/// the finish that the material carried.
///
/// A finish that abbreviates to `PASS` gives no token, nor does an empty
/// finish or abbreviation.
pub open spec fn finish_token(
    dictionary: Seq<(Seq<char>, Seq<char>)>,
    value: Seq<char>,
    extracted: Option<Seq<char>>,
) -> Option<Seq<char>> {
    let finish = resolved_finish(value, extracted);
    if finish.len() == 0 {
        None
    } else {
        let a = abbreviated(dictionary, finish);
        if a.len() == 0 || a == "PASS"@ {
            None
        } else {
            Some(a)
        }
    }
}

/// What a field yields: its token, if any, and the finish that is known
/// from the material after the field.
pub struct FieldOutcome {
    pub token: Option<Seq<char>>,
    pub finish: Option<Seq<char>>,
}

/// The outcome of a field with the role `role` and the value `value`, in a
/// template of the category `category`.
pub open spec fn processed(
    template: TemplateView,
    category: Seq<char>,
    p: ProductView,
    role: FieldRole,
    value: Seq<char>,
    extracted: Option<Seq<char>>,
) -> FieldOutcome {
    let dictionary = template.spec_abbreviations;
    match role {
        FieldRole::Material => FieldOutcome {
            token: token_of(abbreviated(dictionary, material_label(template, p, value))),
            finish: material_and_finish(value).1,
        },
        FieldRole::Finish => FieldOutcome {
            token: finish_token(dictionary, value, extracted),
            finish: extracted,
        },
        FieldRole::Length | FieldRole::Dimension => FieldOutcome {
            token: token_of(listed_or_same(dictionary, length_text(value))),
            finish: extracted,
        },
        FieldRole::ScrewSize => FieldOutcome {
            token: if has_substring(category, "washer"@) {
                token_of(abbreviated(dictionary, value))
            } else {
                token_of(listed_or_same(dictionary, length_text(value)))
            },
            finish: extracted,
        },
        FieldRole::ThreadSize => FieldOutcome {
            token: token_of(
                abbreviated(
                    dictionary,
                    thread_designation(
                        p,
                        value,
                        captured_group(pitch_pattern(), p.detail_description, 1),
                    ),
                ),
            ),
            finish: extracted,
        },
        FieldRole::Other => FieldOutcome {
            token: token_of(abbreviated(dictionary, value)),
            finish: extracted,
        },
    }
}

/// The first specification that one of `names`, tried in order from
/// position `from`, resolves to.
pub open spec fn first_alias_match(
    specs: Seq<SpecificationView>,
    names: Seq<Seq<char>>,
    from: int,
) -> Option<SpecificationView>
    decreases names.len() - from,
{
    if from < 0 || from >= names.len() {
        None
    } else {
        match find_attribute(specs, names[from]) {
            Some(spec) => Some(spec),
            None => first_alias_match(specs, names, from + 1),
        }
    }
}

/// The specification that the field `field` resolves to: the one named like
/// the field, else the first that one of the field's aliases names.
pub open spec fn resolved(
    template: TemplateView,
    specs: Seq<SpecificationView>,
    field: Seq<char>,
) -> Option<SpecificationView> {
    match find_attribute(specs, field) {
        Some(spec) => Some(spec),
        None => match template.spec_aliases {
            Some(aliases) => match lookup(aliases, field) {
                Some(names) => first_alias_match(specs, names, 0),
                None => None,
            },
            None => None,
        },
    }
}

/// The first of `names`, tried in order from position `from`, that names a
/// specification.
pub open spec fn first_alias_name(
    specs: Seq<SpecificationView>,
    names: Seq<Seq<char>>,
    from: int,
) -> Option<Seq<char>>
    decreases names.len() - from,
{
    if from < 0 || from >= names.len() {
        None
    } else if find_attribute(specs, names[from]) is Some {
        Some(names[from])
    } else {
        first_alias_name(specs, names, from + 1)
    }
}

/// The name under which the field `field` resolves: the field's own name
/// where a specification is named like it, else the first of its aliases
/// that names a specification.
pub open spec fn resolved_name(
    template: TemplateView,
    specs: Seq<SpecificationView>,
    field: Seq<char>,
) -> Option<Seq<char>> {
    if find_attribute(specs, field) is Some {
        Some(field)
    } else {
        match template.spec_aliases {
            Some(aliases) => match lookup(aliases, field) {
                Some(names) => first_alias_name(specs, names, 0),
                None => None,
            },
            None => None,
        }
    }
}

/// The outcome of the field `field`.
///
/// A field that resolves is processed with the first value of its
/// specification. A field that does not resolve yields nothing, except the
/// field `Finish` where the material carried a finish.
pub open spec fn field_outcome(
    template: TemplateView,
    category: Seq<char>,
    p: ProductView,
    field: Seq<char>,
    extracted: Option<Seq<char>>,
) -> FieldOutcome {
    match resolved(template, p.specifications, field) {
        Some(spec) => processed(
            template,
            category,
            p,
            field_role_of(field),
            first_value(spec),
            extracted,
        ),
        None => if equal_ignoring_ascii_case(field, "Finish"@) && extracted is Some {
            processed(template, category, p, field_role_of(field), Seq::<char>::empty(), extracted)
        } else {
            FieldOutcome { token: None, finish: extracted }
        },
    }
}

/// The tokens of the fields from position `from` on, where `extracted` is
/// the finish known from the material so far.
pub open spec fn tokens_from(
    template: TemplateView,
    category: Seq<char>,
    p: ProductView,
    from: int,
    extracted: Option<Seq<char>>,
) -> Seq<Seq<char>>
    decreases template.key_specs.len() - from,
{
    if from < 0 || from >= template.key_specs.len() {
        Seq::<Seq<char>>::empty()
    } else {
        let outcome = field_outcome(template, category, p, template.key_specs[from], extracted);
        let rest = tokens_from(template, category, p, from + 1, outcome.finish);
        match outcome.token {
            Some(t) => seq![t] + rest,
            None => rest,
        }
    }
}

/// The tokens of a name: the prefix, then the tokens of the fields in order.
pub open spec fn name_tokens(
    template: TemplateView,
    category: Seq<char>,
    p: ProductView,
) -> Seq<Seq<char>> {
    seq![template.prefix] + tokens_from(template, category, p, 0, None)
}

/// The name that a template gives a product: its tokens joined by hyphens.
pub open spec fn template_name(
    template: TemplateView,
    category: Seq<char>,
    p: ProductView,
) -> Seq<char> {
    joined(name_tokens(template, category, p), "-"@)
}

/// At most the first four elements of `words`.
pub open spec fn leading_words(words: Seq<Seq<char>>) -> Seq<Seq<char>> {
    if words.len() <= 4 {
        words
    } else {
        words.take(4)
    }
}

/// The heading of a fallback name: the first four words of the family
/// description joined by hyphens.
pub open spec fn fallback_heading(family: Seq<char>) -> Seq<char> {
    joined(leading_words(words_of(family)), "-"@)
}

/// The fallback name made of an upper-cased heading and a part number: the
/// heading without its commas, a hyphen, the part number.
pub open spec fn fallback_label(heading_upper: Seq<char>, part_number: Seq<char>) -> Seq<char> {
    replaced(heading_upper, ","@, ""@) + "-"@ + part_number
}

/// The name of a product that has no template.
pub open spec fn fallback_name_of(p: ProductView) -> Seq<char> {
    if words_of(p.family_description).len() == 0 {
        "UNKNOWN-"@ + p.part_number
    } else {
        fallback_label(uppercase(fallback_heading(p.family_description)), p.part_number)
    }
}

/// The name that a registry of templates gives a product: that of the
/// template registered for the product's category, else the fallback name.
pub open spec fn generated_name(
    registry: Seq<(Seq<char>, TemplateView)>,
    p: ProductView,
) -> Seq<char> {
    match lookup(registry, category_of(p)) {
        Some(template) => template_name(template, category_of(p), p),
        None => fallback_name_of(p),
    }
}

/// Owned copies of a list of string slices.
fn strings_of(v: &Vec<&str>) -> (r: Vec<String>)
    ensures
        texts(r@) == slices(v@),
{
    let mut out: Vec<String> = Vec::new();
    let mut i: usize = 0;
    while i < v.len()
        invariant
            i <= v.len(),
            out.len() == i,
            texts(out@) == slices(v@).take(i as int),
        decreases v.len() - i,
    {
        let ghost before = out@;
        out.push(v[i].to_string());
        assert(texts(out@) =~= slices(v@).take(i + 1)) by {
            assert forall|j: int| 0 <= j < i + 1 implies texts(out@)[j] == slices(v@).take(
                i + 1,
            )[j] by {
                if j < i {
                    assert(texts(before)[j] == slices(v@).take(i as int)[j]);
                }
            }
        }
        i += 1;
    }
    assert(slices(v@).take(v.len() as int) =~= slices(v@));
    out
}

impl NamingTemplate {
    /// A template with a prefix and fields, without aliases or abbreviations.
    pub fn new(prefix: &str, key_specs: Vec<&str>) -> (r: Self)
        ensures
            r@.prefix == prefix@,
            r@.key_specs == slices(key_specs@),
            r@.spec_aliases is None,
            r@.spec_abbreviations == Seq::<(Seq<char>, Seq<char>)>::empty(),
    {
        NamingTemplate {
            prefix: prefix.to_string(),
            key_specs: strings_of(&key_specs),
            spec_aliases: None,
            spec_abbreviations: Arc::new(Table::new()),
        }
    }

    /// The same template with `aliases` as the aliases of its fields.
    pub fn with_aliases(self, aliases: Table<Vec<String>>) -> (r: Self)
        ensures
            r@ == (TemplateView { spec_aliases: Some(aliases@), ..self@ }),
    {
        NamingTemplate {
            prefix: self.prefix,
            key_specs: self.key_specs,
            spec_aliases: Some(aliases),
            spec_abbreviations: self.spec_abbreviations,
        }
    }

    /// The same template with `abbreviations` as its dictionary.
    pub fn with_abbreviations(self, abbreviations: Arc<Table<String>>) -> (r: Self)
        ensures
            r@ == (TemplateView { spec_abbreviations: abbreviations@, ..self@ }),
    {
        NamingTemplate {
            prefix: self.prefix,
            key_specs: self.key_specs,
            spec_aliases: self.spec_aliases,
            spec_abbreviations: abbreviations,
        }
    }
}

impl SpecMapping {
    /// A required mapping with a single name.
    pub fn simple(name: &str) -> (r: Self)
        ensures
            texts(r.aliases@) == seq![name@],
            r.required,
            r.transform is None,
    {
        let mut aliases: Vec<String> = Vec::new();
        aliases.push(name.to_string());
        assert(texts(aliases@) =~= seq![name@]);
        SpecMapping { aliases, required: true, transform: None }
    }

    /// A required mapping with several names, tried in order.
    pub fn with_aliases(aliases: Vec<&str>) -> (r: Self)
        ensures
            texts(r.aliases@) == slices(aliases@),
            r.required,
            r.transform is None,
    {
        SpecMapping { aliases: strings_of(&aliases), required: true, transform: None }
    }

    /// The same mapping with a transformation.
    pub fn with_transform(self, transform: TransformType) -> (r: Self)
        ensures
            r.aliases == self.aliases,
            r.required == self.required,
            r.transform == Some(transform),
    {
        SpecMapping { aliases: self.aliases, required: self.required, transform: Some(transform) }
    }

    /// The same mapping, no longer required.
    pub fn optional(self) -> (r: Self)
        ensures
            r.aliases == self.aliases,
            !r.required,
            r.transform == self.transform,
    {
        SpecMapping { aliases: self.aliases, required: false, transform: self.transform }
    }
}

/// Whether a lower-cased field name names a material.
fn names_material(lower: &Vec<char>) -> (r: bool)
    ensures
        r == is_material_name(lower@),
{
    equals(lower, "material") || equals(lower, "housing material") || ends_with(lower, " material")
}

/// Whether a lower-cased field name names a diameter.
fn names_diameter(lower: &Vec<char>) -> (r: bool)
    ensures
        r == is_diameter_name(lower@),
{
    equals(lower, "diameter") || ends_with(lower, " diameter") || starts_with(lower, "diameter ")
        || equals(lower, "bore") || ends_with(lower, " bore")
}

/// Whether a lower-cased field name names a length.
fn names_length(lower: &Vec<char>) -> (r: bool)
    ensures
        r == is_length_name(lower@),
{
    equals(lower, "length") || ends_with(lower, " length") || starts_with(lower, "length ") || (
    starts_with(lower, "overall ") && ends_with(lower, " length"))
}

/// Whether a lower-cased field name names a dimension.
fn names_dimension(lower: &Vec<char>) -> (r: bool)
    ensures
        r == is_dimension_name(lower@),
{
    names_diameter(lower) || names_length(lower) || equals(lower, "width") || ends_with(
        lower,
        " width",
    ) || equals(lower, "height") || ends_with(lower, " height") || equals(lower, "od") || ends_with(
        lower,
        " od",
    ) || equals(lower, "id") || ends_with(lower, " id") || equals(lower, "for screw size") || contains(
        lower,
        "mounting hole center",
    )
}

/// Whether a lower-cased field name names a thread size.
fn names_thread_size(lower: &Vec<char>) -> (r: bool)
    ensures
        r == is_thread_size_name(lower@),
{
    equals(lower, "thread size") || equals(lower, "thread (a) size") || equals(lower, "thread (b) size")
        || starts_with(lower, "thread size") || (starts_with(lower, "thread (") && contains(
        lower,
        ") size",
    ))
}

/// Tells the role of a field from its name and the lower-cased name.
pub fn role_for(name: &str, name_lower: &str) -> (r: FieldRole)
    ensures
        r == role_of(name@, name_lower@),
{
    let lower = chars_of(name_lower);
    if names_material(&lower) {
        FieldRole::Material
    } else if eq_ignore_ascii_case(name, "Finish") {
        FieldRole::Finish
    } else if eq_ignore_ascii_case(name, "Length") {
        FieldRole::Length
    } else if eq_ignore_ascii_case(name, "For Screw Size") {
        FieldRole::ScrewSize
    } else if names_dimension(&lower) {
        FieldRole::Dimension
    } else if names_thread_size(&lower) {
        FieldRole::ThreadSize
    } else {
        FieldRole::Other
    }
}

/// Tells the role of a field from its name.
pub fn field_role(name: &str) -> (r: FieldRole)
    ensures
        r == field_role_of(name@),
{
    let lower = to_lowercase(name);
    role_for(name, lower.as_str())
}

/// A non-empty text as a token.
fn some_token(t: String) -> (r: Option<String>)
    ensures
        text_of(r) == token_of(t@),
{
    if t.as_str().is_empty() {
        None
    } else {
        Some(t)
    }
}

/// Abbreviates a value by the dictionary, else generically.
pub fn abbreviate_with(dictionary: &Table<String>, value: &str) -> (r: String)
    ensures
        r@ == abbreviated(dictionary@, value@),
{
    match dictionary.get(value) {
        Some(a) => a.clone(),
        None => abbreviate_value(value),
    }
}

/// Abbreviates a value by the dictionary, else leaves it as it is.
fn listed_or(dictionary: &Table<String>, value: String) -> (r: String)
    ensures
        r@ == listed_or_same(dictionary@, value@),
{
    match dictionary.get(value.as_str()) {
        Some(a) => a.clone(),
        None => value,
    }
}

/// Whether a prefix marks a bearing whose material may be filled.
fn marks_filled_bearing(prefix: &str) -> (r: bool)
    ensures
        r == is_filled_bearing_prefix(prefix@),
{
    let p = chars_of(prefix);
    ends_with(&p, "B") && (starts_with(&p, "FSB") || starts_with(&p, "SB") || starts_with(
        &p,
        "BB",
    ))
}

/// The filler of a product, where it says something.
fn filler_of(product: &ProductDetail) -> (r: Option<&String>)
    ensures
        match r {
            Some(f) => informative_filler(product@.specifications) == Some(f@),
            None => informative_filler(product@.specifications) is None,
        },
{
    match product.specification_value("Filler Material") {
        Some(filler) => {
            let f = chars_of(filler.as_str());
            if f.len() == 0 || equals(&f, "None") || equals(&f, "Not Specified") {
                None
            } else {
                Some(filler)
            }
        },
        None => None,
    }
}

/// The label under which the material of a product is abbreviated, from the
/// material without its finish.
fn label_material(template: &NamingTemplate, product: &ProductDetail, material: String) -> (r:
    String)
    ensures
        r@ == ({
            let filled = if is_filled_bearing_prefix(template@.prefix) {
                match informative_filler(product@.specifications) {
                    Some(filler) => filler + "-Filled "@ + material@,
                    None => material@,
                }
            } else {
                material@
            };
            if equal_ignoring_ascii_case(filled, "Steel"@) || equal_ignoring_ascii_case(
                filled,
                "Alloy Steel"@,
            ) {
                steel_grade_material(product@.specifications, filled)
            } else {
                filled
            }
        }),
{
    let mut filled = material;
    if marks_filled_bearing(template.prefix.as_str()) {
        match filler_of(product) {
            Some(filler) => {
                let mut text = chars_of(filler.as_str());
                append_str(&mut text, "-Filled ");
                append_str(&mut text, filled.as_str());
                filled = string_of(&text);
            },
            None => {},
        }
    }
    if eq_ignore_ascii_case(filled.as_str(), "Steel") || eq_ignore_ascii_case(
        filled.as_str(),
        "Alloy Steel",
    ) {
        get_steel_grade_material(product, filled.as_str())
    } else {
        filled
    }
}

/// The token of a finish field.
fn token_of_finish(dictionary: &Table<String>, value: &str, extracted: &Option<String>) -> (r:
    Option<String>)
    ensures
        text_of(r) == finish_token(dictionary@, value@, text_of(*extracted)),
        text_of(r) != Some("PASS"@),
{
    let finish: String = if !value.is_empty() {
        value.to_string()
    } else {
        match extracted {
            Some(f) => f.clone(),
            None => String::new(),
        }
    };
    if finish.as_str().is_empty() {
        None
    } else {
        let a = abbreviate_with(dictionary, finish.as_str());
        if a.as_str().is_empty() || crate::text::str_eq(a.as_str(), "PASS") {
            None
        } else {
            Some(a)
        }
    }
}

/// What a key stands for in a table is the value of one of its entries.
pub proof fn lemma_lookup_is_entry<X>(entries: Seq<(Seq<char>, X)>, key: Seq<char>)
    ensures
        lookup(entries, key) matches Some(x) ==> exists|i: int|
            0 <= i < entries.len() && (#[trigger] entries[i]).1 == x,
    decreases entries.len(),
{
    if entries.len() > 0 {
        if entries.last().0 == key {
            assert(entries[entries.len() - 1].1 == entries.last().1);
        } else {
            lemma_lookup_is_entry(entries.drop_last(), key);
            if lookup(entries.drop_last(), key) is Some {
                let x = lookup(entries.drop_last(), key)->0;
                let i = choose|i: int|
                    0 <= i < entries.drop_last().len() && (#[trigger] entries.drop_last()[i]).1
                        == x;
                assert(entries[i].1 == x);
            }
        }
    }
}

/// A joined list is at least as long as its first element.
pub proof fn lemma_joined_covers_first(parts: Seq<Seq<char>>, sep: Seq<char>)
    requires
        parts.len() > 0,
    ensures
        joined(parts, sep).len() >= parts[0].len(),
    decreases parts.len(),
{
    if parts.len() > 1 {
        lemma_joined_covers_first(parts.drop_last(), sep);
    }
}

/// A registry with the templates of every family registered after its own:
/// screws, washers, nuts, standoffs, spacers, pins and shaft collars,
/// bearings, pulleys, latches and cable holders, in this order.
pub open spec fn with_all_templates(registry: Seq<(Seq<char>, TemplateView)>) -> Seq<
    (Seq<char>, TemplateView),
> {
    with_cable_holder_templates(
        with_latch_templates(
            with_pulley_templates(
                with_bearing_templates(
                    with_pin_templates(
                        with_spacer_templates(
                            with_standoff_templates(
                                with_nut_templates(
                                    with_washer_templates(with_screw_templates(registry)),
                                ),
                            ),
                        ),
                    ),
                ),
            ),
        ),
    )
}

/// The registry of a new name generator.
pub open spec fn standard_registry() -> Seq<(Seq<char>, TemplateView)> {
    with_all_templates(Seq::<(Seq<char>, TemplateView)>::empty())
}

/// Every key that the families register is registered in the standard
/// registry.
pub proof fn lemma_standard_registry_keys()
    ensures
        lookup(standard_registry(), "button_head_screw"@) is Some,
        lookup(standard_registry(), "socket_head_screw"@) is Some,
        lookup(standard_registry(), "high_socket_head_screw"@) is Some,
        lookup(standard_registry(), "low_socket_head_screw"@) is Some,
        lookup(standard_registry(), "ultra_low_socket_head_screw"@) is Some,
        lookup(standard_registry(), "standard_socket_head_screw"@) is Some,
        lookup(standard_registry(), "flat_head_screw"@) is Some,
        lookup(standard_registry(), "narrow_flat_head_screw"@) is Some,
        lookup(standard_registry(), "standard_flat_head_screw"@) is Some,
        lookup(standard_registry(), "undercut_flat_head_screw"@) is Some,
        lookup(standard_registry(), "wide_flat_head_screw"@) is Some,
        lookup(standard_registry(), "pan_head_screw"@) is Some,
        lookup(standard_registry(), "hex_head_screw"@) is Some,
        lookup(standard_registry(), "rounded_head_screw"@) is Some,
        lookup(standard_registry(), "generic_screw"@) is Some,
        lookup(standard_registry(), "thumb_screw"@) is Some,
        lookup(standard_registry(), "eye_screw"@) is Some,
        lookup(standard_registry(), "hook_screw"@) is Some,
        lookup(standard_registry(), "12_point_head_screw"@) is Some,
        lookup(standard_registry(), "binding_head_screw"@) is Some,
        lookup(standard_registry(), "carriage_head_screw"@) is Some,
        lookup(standard_registry(), "cheese_head_screw"@) is Some,
        lookup(standard_registry(), "domed_head_screw"@) is Some,
        lookup(standard_registry(), "fillister_head_screw"@) is Some,
        lookup(standard_registry(), "headless_screw"@) is Some,
        lookup(standard_registry(), "oval_head_screw"@) is Some,
        lookup(standard_registry(), "standard_oval_head_screw"@) is Some,
        lookup(standard_registry(), "undercut_oval_head_screw"@) is Some,
        lookup(standard_registry(), "pancake_head_screw"@) is Some,
        lookup(standard_registry(), "pentagon_head_screw"@) is Some,
        lookup(standard_registry(), "round_head_screw"@) is Some,
        lookup(standard_registry(), "square_head_screw"@) is Some,
        lookup(standard_registry(), "truss_head_screw"@) is Some,
        lookup(standard_registry(), "four_arm_thumb_screw"@) is Some,
        lookup(standard_registry(), "hex_thumb_screw"@) is Some,
        lookup(standard_registry(), "multilobe_thumb_screw"@) is Some,
        lookup(standard_registry(), "rectangle_thumb_screw"@) is Some,
        lookup(standard_registry(), "round_thumb_screw"@) is Some,
        lookup(standard_registry(), "spade_thumb_screw"@) is Some,
        lookup(standard_registry(), "two_arm_thumb_screw"@) is Some,
        lookup(standard_registry(), "wing_thumb_screw"@) is Some,
        lookup(standard_registry(), "t_handle_screw"@) is Some,
        lookup(standard_registry(), "t_slot_screw"@) is Some,
        lookup(standard_registry(), "l_handle_screw"@) is Some,
        lookup(standard_registry(), "knob_screw"@) is Some,
        lookup(standard_registry(), "ring_screw"@) is Some,
        lookup(standard_registry(), "threaded_screw"@) is Some,
        lookup(standard_registry(), "tee_screw"@) is Some,
        lookup(standard_registry(), "captive_panel_screw"@) is Some,
        lookup(standard_registry(), "thread_forming_button_head_screw"@) is Some,
        lookup(standard_registry(), "thread_forming_high_socket_head_screw"@) is Some,
        lookup(standard_registry(), "thread_forming_low_socket_head_screw"@) is Some,
        lookup(standard_registry(), "thread_forming_socket_head_screw"@) is Some,
        lookup(standard_registry(), "thread_forming_flat_head_screw"@) is Some,
        lookup(standard_registry(), "thread_forming_pan_head_screw"@) is Some,
        lookup(standard_registry(), "thread_forming_hex_head_screw"@) is Some,
        lookup(standard_registry(), "thread_forming_screw"@) is Some,
        lookup(standard_registry(), "cup_washer"@) is Some,
        lookup(standard_registry(), "curved_washer"@) is Some,
        lookup(standard_registry(), "dished_washer"@) is Some,
        lookup(standard_registry(), "domed_washer"@) is Some,
        lookup(standard_registry(), "double_clipped_washer"@) is Some,
        lookup(standard_registry(), "clipped_washer"@) is Some,
        lookup(standard_registry(), "flat_washer"@) is Some,
        lookup(standard_registry(), "hillside_washer"@) is Some,
        lookup(standard_registry(), "notched_washer"@) is Some,
        lookup(standard_registry(), "perforated_washer"@) is Some,
        lookup(standard_registry(), "pronged_washer"@) is Some,
        lookup(standard_registry(), "rectangular_washer"@) is Some,
        lookup(standard_registry(), "sleeve_washer"@) is Some,
        lookup(standard_registry(), "slotted_washer"@) is Some,
        lookup(standard_registry(), "spherical_washer"@) is Some,
        lookup(standard_registry(), "split_washer"@) is Some,
        lookup(standard_registry(), "square_washer"@) is Some,
        lookup(standard_registry(), "tab_washer"@) is Some,
        lookup(standard_registry(), "tapered_washer"@) is Some,
        lookup(standard_registry(), "tooth_washer"@) is Some,
        lookup(standard_registry(), "wave_washer"@) is Some,
        lookup(standard_registry(), "wedge_washer"@) is Some,
        lookup(standard_registry(), "hex_nut"@) is Some,
        lookup(standard_registry(), "wing_nut"@) is Some,
        lookup(standard_registry(), "cap_nut"@) is Some,
        lookup(standard_registry(), "flange_nut"@) is Some,
        lookup(standard_registry(), "generic_nut"@) is Some,
        lookup(standard_registry(), "nylon_insert_locknut"@) is Some,
        lookup(standard_registry(), "generic_locknut"@) is Some,
        lookup(standard_registry(), "cotter_pin_locknut"@) is Some,
        lookup(standard_registry(), "distorted_thread_locknut"@) is Some,
        lookup(standard_registry(), "flex_top_locknut"@) is Some,
        lookup(standard_registry(), "lock_washer_locknut"@) is Some,
        lookup(standard_registry(), "serrations_locknut"@) is Some,
        lookup(standard_registry(), "spring_stop_locknut"@) is Some,
        lookup(standard_registry(), "steel_insert_locknut"@) is Some,
        lookup(standard_registry(), "acorn_nut"@) is Some,
        lookup(standard_registry(), "barrel_nut"@) is Some,
        lookup(standard_registry(), "cage_nut"@) is Some,
        lookup(standard_registry(), "castle_nut"@) is Some,
        lookup(standard_registry(), "clinch_nut"@) is Some,
        lookup(standard_registry(), "coupling_nut"@) is Some,
        lookup(standard_registry(), "jam_nut"@) is Some,
        lookup(standard_registry(), "knurled_thumb_nut"@) is Some,
        lookup(standard_registry(), "machine_screw_nut"@) is Some,
        lookup(standard_registry(), "panel_nut"@) is Some,
        lookup(standard_registry(), "push_on_nut"@) is Some,
        lookup(standard_registry(), "rivet_nut"@) is Some,
        lookup(standard_registry(), "round_nut"@) is Some,
        lookup(standard_registry(), "screw_mount_nut"@) is Some,
        lookup(standard_registry(), "snap_in_nut"@) is Some,
        lookup(standard_registry(), "socket_nut"@) is Some,
        lookup(standard_registry(), "speed_nut"@) is Some,
        lookup(standard_registry(), "square_nut"@) is Some,
        lookup(standard_registry(), "tamper_resistant_nut"@) is Some,
        lookup(standard_registry(), "threadless_nut"@) is Some,
        lookup(standard_registry(), "thumb_nut"@) is Some,
        lookup(standard_registry(), "tube_end_nut"@) is Some,
        lookup(standard_registry(), "twist_close_nut"@) is Some,
        lookup(standard_registry(), "weld_nut"@) is Some,
        lookup(standard_registry(), "with_pilot_hole_nut"@) is Some,
        lookup(standard_registry(), "male_female_hex_standoff"@) is Some,
        lookup(standard_registry(), "female_hex_standoff"@) is Some,
        lookup(standard_registry(), "generic_standoff"@) is Some,
        lookup(standard_registry(), "unthreaded_spacer"@) is Some,
        lookup(standard_registry(), "aluminum_unthreaded_spacer"@) is Some,
        lookup(standard_registry(), "stainless_steel_unthreaded_spacer"@) is Some,
        lookup(standard_registry(), "nylon_unthreaded_spacer"@) is Some,
        lookup(standard_registry(), "clevis_pin"@) is Some,
        lookup(standard_registry(), "clevis_pin_with_retaining_ring_groove"@) is Some,
        lookup(standard_registry(), "generic_pin"@) is Some,
        lookup(standard_registry(), "face_mount_shaft_collar"@) is Some,
        lookup(standard_registry(), "flange_mount_shaft_collar"@) is Some,
        lookup(standard_registry(), "generic_shaft_collar"@) is Some,
        lookup(standard_registry(), "flanged_sleeve_bearing"@) is Some,
        lookup(standard_registry(), "sleeve_bearing"@) is Some,
        lookup(standard_registry(), "flanged_bearing"@) is Some,
        lookup(standard_registry(), "ball_bearing"@) is Some,
        lookup(standard_registry(), "linear_bearing"@) is Some,
        lookup(standard_registry(), "needle_bearing"@) is Some,
        lookup(standard_registry(), "roller_bearing"@) is Some,
        lookup(standard_registry(), "flange_mounted_ball_bearing"@) is Some,
        lookup(standard_registry(), "low_profile_flange_mounted_ball_bearing"@) is Some,
        lookup(standard_registry(), "pillow_block_mounted_ball_bearing"@) is Some,
        lookup(standard_registry(), "generic_mounted_bearing"@) is Some,
        lookup(standard_registry(), "generic_bearing"@) is Some,
        lookup(standard_registry(), "wire_rope_pulley"@) is Some,
        lookup(standard_registry(), "rope_pulley"@) is Some,
        lookup(standard_registry(), "v_belt_pulley"@) is Some,
        lookup(standard_registry(), "pulley"@) is Some,
        lookup(standard_registry(), "sheave"@) is Some,
        lookup(standard_registry(), "draw_latch"@) is Some,
        lookup(standard_registry(), "toggle_latch"@) is Some,
        lookup(standard_registry(), "compression_latch"@) is Some,
        lookup(standard_registry(), "slam_latch"@) is Some,
        lookup(standard_registry(), "generic_latch"@) is Some,
        lookup(standard_registry(), "cable_holder"@) is Some,
        lookup(standard_registry(), "generic_cable_holder"@) is Some,
{
    let r0 = Seq::<(Seq<char>, TemplateView)>::empty();
    lemma_with_screw_templates_keys(r0);
    let r1 = with_screw_templates(r0);
    lemma_with_washer_templates_keys(r1);
    let r2 = with_washer_templates(r1);
    lemma_with_nut_templates_keys(r2);
    let r3 = with_nut_templates(r2);
    lemma_with_standoff_templates_keys(r3);
    let r4 = with_standoff_templates(r3);
    lemma_with_spacer_templates_keys(r4);
    let r5 = with_spacer_templates(r4);
    lemma_with_pin_templates_keys(r5);
    let r6 = with_pin_templates(r5);
    lemma_with_bearing_templates_keys(r6);
    let r7 = with_bearing_templates(r6);
    lemma_with_pulley_templates_keys(r7);
    let r8 = with_pulley_templates(r7);
    lemma_with_latch_templates_keys(r8);
    let r9 = with_latch_templates(r8);
    lemma_with_cable_holder_templates_keys(r9);
}

/// The registry covers the classifier: every category that a product can
/// be given, other than `unknown`, has a template in the standard registry,
/// so that only an unknown product gets a fallback name.
pub proof fn lemma_every_category_has_a_template(
    family: Seq<char>,
    category: Seq<char>,
    description: Seq<char>,
    plain: Seq<char>,
    mount: Seq<char>,
)
    ensures
        classified(family, category, description, plain, mount) != "unknown"@ ==> lookup(
            standard_registry(),
            classified(family, category, description, plain, mount),
        ) is Some,
{
    lemma_standard_registry_keys();
}

/// Every product whose category is not `unknown` is named by a template.
pub proof fn lemma_known_products_have_a_template(p: ProductView)
    ensures
        category_of(p) != "unknown"@ ==> lookup(standard_registry(), category_of(p)) is Some,
{
    lemma_every_category_has_a_template(
        lowercase(p.family_description),
        lowercase(p.product_category),
        lowercase(p.detail_description),
        plain_bearing_type(p),
        mounted_bearing_type(p),
    );
}

/// The naming system: a registry of templates by category.
pub struct NameGenerator {
    category_templates: Table<NamingTemplate>,
}

impl View for NameGenerator {
    type V = Seq<(Seq<char>, TemplateView)>;

    closed spec fn view(&self) -> Seq<(Seq<char>, TemplateView)> {
        self.category_templates@
    }
}

impl NameGenerator {
    /// Every registered template has a prefix and at least one field.
    #[verifier::type_invariant]
    spec fn registry_is_well_formed(&self) -> bool {
        all_well_formed(self.category_templates@)
    }

    /// A name generator with the templates of every family.
    pub fn new() -> (r: Self)
        ensures
            r@ == standard_registry(),
    {
        let mut category_templates: Table<NamingTemplate> = Table::new();
        Self::initialize_templates(&mut category_templates);
        NameGenerator { category_templates }
    }

    /// Registers the templates of every family.
    pub fn initialize_templates(category_templates: &mut Table<NamingTemplate>)
        ensures
            final(category_templates)@ == with_all_templates(old(category_templates)@),
            all_well_formed(old(category_templates)@) ==> all_well_formed(
                final(category_templates)@,
            ),
    {
        initialize_screw_templates(category_templates);
        initialize_washer_templates(category_templates);
        initialize_nut_templates(category_templates);
        initialize_standoff_templates(category_templates);
        initialize_spacer_templates(category_templates);
        initialize_pin_templates(category_templates);
        initialize_bearing_templates(category_templates);
        initialize_pulley_templates(category_templates);
        initialize_latch_templates(category_templates);
        initialize_cable_holder_templates(category_templates);
    }

    /// A name generator over the templates of `registry`, provided each of
    /// them has a prefix and at least one field.
    pub fn with_templates(registry: Table<NamingTemplate>) -> (r: Option<Self>)
        ensures
            match r {
                Some(generator) => generator@ == registry@ && all_well_formed(registry@),
                None => !all_well_formed(registry@),
            },
    {
        let mut i: usize = 0;
        while i < registry.entries.len()
            invariant
                i <= registry.entries.len(),
                forall|j: int| 0 <= j < i ==> (#[trigger] registry@[j]).1.well_formed(),
            decreases registry.entries.len() - i,
        {
            let template = &registry.entries[i].1;
            assert(registry@[i as int].1 == template@);
            if template.prefix.as_str().is_empty() || template.key_specs.len() == 0 {
                return None;
            }
            i += 1;
        }
        Some(NameGenerator { category_templates: registry })
    }

    /// The template registered for a category.
    pub fn get_template(&self, category: &str) -> (r: Option<&NamingTemplate>)
        ensures
            match r {
                Some(template) => lookup(self@, category@) == Some(template@)
                    && template@.well_formed(),
                None => lookup(self@, category@) is None,
            },
    {
        proof {
            use_type_invariant(self);
            lemma_lookup_is_entry(self.category_templates@, category@);
        }
        self.category_templates.get(category)
    }

    /// Generates the name of a product: by the template of its category, or
    /// the fallback name where the category has no template. The name is
    /// never empty.
    pub fn generate_name(&self, product: &ProductDetail) -> (r: String)
        ensures
            r@ == generated_name(self@, product@),
            r@.len() > 0,
    {
        let template_key = determine_category(product);
        match self.get_template(template_key.as_str()) {
            Some(template) => self.apply_template(product, template, template_key.as_str()),
            None => self.fallback_name(product),
        }
    }

    /// Applies a template to a product: the prefix and the tokens of the
    /// template's fields, in order, joined by hyphens.
    pub fn apply_template(
        &self,
        product: &ProductDetail,
        template: &NamingTemplate,
        template_category: &str,
    ) -> (r: String)
        ensures
            r@ == template_name(template@, template_category@, product@),
            r@.len() >= template@.prefix.len(),
    {
        let mut name_parts: Vec<String> = Vec::new();
        name_parts.push(template.prefix.clone());
        let mut extracted_finish: Option<String> = None;
        let mut k: usize = 0;
        assert(texts(name_parts@) =~= seq![template@.prefix]);
        while k < template.key_specs.len()
            invariant
                k <= template.key_specs.len(),
                name_parts.len() >= 1,
                texts(name_parts@)[0] == template@.prefix,
                name_tokens(template@, template_category@, product@) == texts(name_parts@)
                    + tokens_from(
                    template@,
                    template_category@,
                    product@,
                    k as int,
                    text_of(extracted_finish),
                ),
            decreases template.key_specs.len() - k,
        {
            let spec_name = template.key_specs[k].as_str();
            assert(spec_name@ == template@.key_specs[k as int]);
            let ghost before = texts(name_parts@);
            let ghost outcome = field_outcome(
                template@,
                template_category@,
                product@,
                spec_name@,
                text_of(extracted_finish),
            );
            let processed_value = self.field_token(
                product,
                template,
                template_category,
                spec_name,
                &mut extracted_finish,
            );
            assert(text_of(processed_value) == outcome.token);
            assert(text_of(extracted_finish) == outcome.finish);
            match processed_value {
                Some(processed) => {
                    name_parts.push(processed);
                    assert(texts(name_parts@) =~= before + seq![processed@]);
                },
                None => {},
            }
            assert(name_tokens(template@, template_category@, product@) =~= texts(name_parts@)
                + tokens_from(
                template@,
                template_category@,
                product@,
                k + 1,
                text_of(extracted_finish),
            ));
            k += 1;
        }
        assert(name_tokens(template@, template_category@, product@) =~= texts(name_parts@));
        proof {
            lemma_joined_covers_first(texts(name_parts@), "-"@);
        }
        string_of(&join(&name_parts, "-"))
    }

    /// The token of one field of a template, if the field has one.
    ///
    /// A field that resolves is processed with the first value of its
    /// specification. A field that does not resolve has no token, except
    /// the field `Finish` where the material carried a finish.
    pub fn field_token(
        &self,
        product: &ProductDetail,
        template: &NamingTemplate,
        template_category: &str,
        spec_name: &str,
        extracted_finish: &mut Option<String>,
    ) -> (r: Option<String>)
        ensures
            text_of(r) == field_outcome(
                template@,
                template_category@,
                product@,
                spec_name@,
                text_of(*old(extracted_finish)),
            ).token,
            text_of(*final(extracted_finish)) == field_outcome(
                template@,
                template_category@,
                product@,
                spec_name@,
                text_of(*old(extracted_finish)),
            ).finish,
            field_role_of(spec_name@) == FieldRole::Finish ==> text_of(r) != Some("PASS"@),
    {
        match self.find_specification_with_aliases(product, spec_name, template) {
            Some((spec, _actual_name)) => {
                let value: String = if spec.values.len() > 0 {
                    spec.values[0].clone()
                } else {
                    String::new()
                };
                assert(value@ == first_value(spec@));
                self.process_legacy_specification(
                    product,
                    template,
                    template_category,
                    spec_name,
                    value.as_str(),
                    extracted_finish,
                )
            },
            None => {
                if eq_ignore_ascii_case(spec_name, "Finish") && extracted_finish.is_some() {
                    let r = self.process_legacy_specification(
                        product,
                        template,
                        template_category,
                        spec_name,
                        "",
                        extracted_finish,
                    );
                    assert(""@ =~= Seq::<char>::empty()) by {
                        reveal_strlit("");
                    }
                    r
                } else {
                    None
                }
            },
        }
    }

    /// Finds the specification of a field: the one named like the field,
    /// else the first that one of the field's aliases names. The name under
    /// which it was found comes with it.
    pub fn find_specification_with_aliases<'a>(
        &self,
        product: &'a ProductDetail,
        spec_name: &str,
        template: &NamingTemplate,
    ) -> (r: Option<(&'a Specification, String)>)
        ensures
            match r {
                Some((spec, name)) => resolved(template@, product@.specifications, spec_name@)
                    == Some(spec@) && resolved_name(
                    template@,
                    product@.specifications,
                    spec_name@,
                ) == Some(name@) && equal_ignoring_ascii_case(spec@.attribute, name@),
                None => resolved(template@, product@.specifications, spec_name@) is None
                    && resolved_name(template@, product@.specifications, spec_name@) is None,
            },
    {
        match product.find_specification(spec_name) {
            Some(spec) => {
                proof {
                    lemma_found_attribute_matches(product@.specifications, spec_name@, 0);
                }
                return Some((spec, spec_name.to_string()));
            },
            None => {},
        }
        match &template.spec_aliases {
            Some(aliases) => {
                match aliases.get(spec_name) {
                    Some(alias_list) => {
                        let mut i: usize = 0;
                        while i < alias_list.len()
                            invariant
                                i <= alias_list.len(),
                                find_attribute(product@.specifications, spec_name@) is None,
                                template@.spec_aliases == Some(aliases@),
                                lookup(aliases@, spec_name@) == Some(alias_list.deep_view()),
                                first_alias_name(
                                    product@.specifications,
                                    alias_list.deep_view(),
                                    0,
                                ) == first_alias_name(
                                    product@.specifications,
                                    alias_list.deep_view(),
                                    i as int,
                                ),
                                first_alias_match(
                                    product@.specifications,
                                    alias_list.deep_view(),
                                    0,
                                ) == first_alias_match(
                                    product@.specifications,
                                    alias_list.deep_view(),
                                    i as int,
                                ),
                            decreases alias_list.len() - i,
                        {
                            assert(alias_list.deep_view()[i as int] == alias_list@[i as int]@);
                            match product.find_specification(alias_list[i].as_str()) {
                                Some(spec) => {
                                    proof {
                                        lemma_found_attribute_matches(
                                            product@.specifications,
                                            alias_list@[i as int]@,
                                            0,
                                        );
                                    }
                                    return Some((spec, alias_list[i].clone()));
                                },
                                None => {},
                            }
                            i += 1;
                        }
                        None
                    },
                    None => None,
                }
            },
            None => None,
        }
    }

    /// Processes the value of a field by the field's role and gives its
    /// token, if it has one. A material leaves the finish that it carried in
    /// `extracted_finish`; a finish field reads it there and never gives
    /// the token `PASS`.
    pub fn process_legacy_specification(
        &self,
        product: &ProductDetail,
        template: &NamingTemplate,
        template_category: &str,
        spec_name: &str,
        value: &str,
        extracted_finish: &mut Option<String>,
    ) -> (r: Option<String>)
        ensures
            text_of(r) == processed(
                template@,
                template_category@,
                product@,
                field_role_of(spec_name@),
                value@,
                text_of(*old(extracted_finish)),
            ).token,
            text_of(*final(extracted_finish)) == processed(
                template@,
                template_category@,
                product@,
                field_role_of(spec_name@),
                value@,
                text_of(*old(extracted_finish)),
            ).finish,
            field_role_of(spec_name@) == FieldRole::Finish ==> text_of(r) != Some("PASS"@),
    {
        let dictionary: &Table<String> = &template.spec_abbreviations;
        match field_role(spec_name) {
            FieldRole::Material => {
                let (material, finish) = parse_material_and_finish(value);
                *extracted_finish = finish;
                let label = label_material(template, product, material);
                some_token(abbreviate_with(dictionary, label.as_str()))
            },
            FieldRole::Finish => token_of_finish(dictionary, value, extracted_finish),
            FieldRole::Length | FieldRole::Dimension => {
                some_token(listed_or(dictionary, convert_length_to_decimal(value)))
            },
            FieldRole::ScrewSize => {
                if self.is_washer_template(template_category) {
                    some_token(abbreviate_with(dictionary, value))
                } else {
                    some_token(listed_or(dictionary, convert_length_to_decimal(value)))
                }
            },
            FieldRole::ThreadSize => {
                let thread_value = extract_thread_with_pitch(product, value);
                some_token(abbreviate_with(dictionary, thread_value.as_str()))
            },
            FieldRole::Other => some_token(abbreviate_with(dictionary, value)),
        }
    }

    /// Whether a field name names a dimension.
    pub fn is_dimension_field(&self, spec_name: &str) -> (r: bool)
        ensures
            r == is_dimension_name(lowercase(spec_name@)),
    {
        let lower = chars_of(to_lowercase(spec_name).as_str());
        names_dimension(&lower)
    }

    /// Whether a lower-cased field name names a diameter.
    pub fn is_diameter_field(&self, spec_lower: &str) -> (r: bool)
        ensures
            r == is_diameter_name(spec_lower@),
    {
        let lower = chars_of(spec_lower);
        names_diameter(&lower)
    }

    /// Whether a lower-cased field name names a length.
    pub fn is_length_field(&self, spec_lower: &str) -> (r: bool)
        ensures
            r == is_length_name(spec_lower@),
    {
        let lower = chars_of(spec_lower);
        names_length(&lower)
    }

    /// Whether a category belongs to the washers.
    pub fn is_washer_template(&self, template_category: &str) -> (r: bool)
        ensures
            r == has_substring(template_category@, "washer"@),
    {
        let category = chars_of(template_category);
        contains(&category, "washer")
    }

    /// Whether a field name names a thread size.
    pub fn is_thread_size_field(&self, spec_name: &str) -> (r: bool)
        ensures
            r == is_thread_size_name(lowercase(spec_name@)),
    {
        let lower = chars_of(to_lowercase(spec_name).as_str());
        names_thread_size(&lower)
    }

    /// Whether a field name names a material.
    pub fn is_material_field(&self, spec_name: &str) -> (r: bool)
        ensures
            r == is_material_name(lowercase(spec_name@)),
    {
        let lower = chars_of(to_lowercase(spec_name).as_str());
        names_material(&lower)
    }

    /// The name of a product without a template: the first four words of its
    /// family description in upper case, joined by hyphens and without
    /// commas, then a hyphen and the part number; `UNKNOWN-` and the part
    /// number where the description has no word.
    pub fn fallback_name(&self, product: &ProductDetail) -> (r: String)
        ensures
            r@ == fallback_name_of(product@),
            r@.len() > 0,
    {
        let family = chars_of(product.family_description.as_str());
        let words = split_whitespace(&family);
        if words.len() == 0 {
            let mut out = chars_of("UNKNOWN-");
            append_str(&mut out, product.part_number.as_str());
            proof {
                reveal_strlit("UNKNOWN-");
            }
            return string_of(&out);
        }
        let mut first: Vec<String> = Vec::new();
        let mut i: usize = 0;
        while i < words.len() && i < 4
            invariant
                i <= words.len(),
                i <= 4,
                first.len() == i,
                texts(first@) == texts(words@).take(i as int),
            decreases words.len() - i,
        {
            let ghost before = first@;
            first.push(words[i].clone());
            assert(texts(first@) =~= texts(words@).take(i + 1)) by {
                assert forall|j: int| 0 <= j < i + 1 implies texts(first@)[j] == texts(
                    words@,
                ).take(i + 1)[j] by {
                    if j < i {
                        assert(texts(before)[j] == texts(words@).take(i as int)[j]);
                    }
                }
            }
            i += 1;
        }
        assert(texts(first@) =~= leading_words(texts(words@))) by {
            if words.len() <= 4 {
                assert(texts(words@).take(words.len() as int) =~= texts(words@));
            }
        }
        let heading = string_of(&join(&first, "-"));
        let upper = to_uppercase(heading.as_str());
        fallback_label_of(upper.as_str(), product.part_number.as_str())
    }
}

/// A specification that was found under a name has that name, without
/// regard to ASCII case.
pub proof fn lemma_found_attribute_matches(
    specs: Seq<SpecificationView>,
    name: Seq<char>,
    from: int,
)
    requires
        0 <= from,
    ensures
        crate::models::product::position_of_attribute(specs, name, from) matches Some(i) ==> from
            <= i < specs.len() && equal_ignoring_ascii_case(specs[i].attribute, name),
    decreases specs.len() - from,
{
    if from < specs.len() && !equal_ignoring_ascii_case(specs[from].attribute, name) {
        lemma_found_attribute_matches(specs, name, from + 1);
    }
}

/// Builds a fallback name from an upper-cased heading and the part number.
pub fn fallback_label_of(heading_upper: &str, part_number: &str) -> (r: String)
    ensures
        r@ == fallback_label(heading_upper@, part_number@),
        r@.len() > 0,
{
    let mut out = replace(&chars_of(heading_upper), ",", "");
    append_str(&mut out, "-");
    append_str(&mut out, part_number);
    proof {
        reveal_strlit("-");
    }
    string_of(&out)
}

/// Names are determined by their input: two generators with the same
/// templates give two products with the same content the same category and
/// the same name.
pub proof fn lemma_same_input_same_name(
    first: &NameGenerator,
    second: &NameGenerator,
    a: &ProductDetail,
    b: &ProductDetail,
)
    requires
        first@ == second@,
        a@ == b@,
    ensures
        category_of(a@) == category_of(b@),
        generated_name(first@, a@) == generated_name(second@, b@),
{
}

/// A joined list begins with its first element.
pub proof fn lemma_joined_begins_with_first(parts: Seq<Seq<char>>, sep: Seq<char>)
    requires
        parts.len() > 0,
    ensures
        has_prefix(joined(parts, sep), parts[0]),
    decreases parts.len(),
{
    if parts.len() > 1 {
        lemma_joined_begins_with_first(parts.drop_last(), sep);
        let head = joined(parts.drop_last(), sep);
        let whole = joined(parts, sep);
        assert(whole == head + sep + parts.last());
        assert(whole.subrange(0, parts[0].len() as int) =~= head.subrange(
            0,
            parts[0].len() as int,
        ));
    } else {
        assert(parts[0].subrange(0, parts[0].len() as int) =~= parts[0]);
    }
}

/// A name is never empty: under a registry of well-formed templates the
/// name of every product has at least one character, and a name made by a
/// template begins with the template's prefix.
pub proof fn lemma_name_is_never_empty(registry: Seq<(Seq<char>, TemplateView)>, p: ProductView)
    requires
        all_well_formed(registry),
    ensures
        generated_name(registry, p).len() > 0,
        lookup(registry, category_of(p)) matches Some(template) ==> has_prefix(
            generated_name(registry, p),
            template.prefix,
        ),
{
    let key = category_of(p);
    lemma_lookup_is_entry(registry, key);
    match lookup(registry, key) {
        Some(template) => {
            let tokens = name_tokens(template, key, p);
            assert(tokens[0] == template.prefix);
            lemma_joined_covers_first(tokens, "-"@);
            lemma_joined_begins_with_first(tokens, "-"@);
        },
        None => {
            reveal_strlit("-");
            reveal_strlit("UNKNOWN-");
        },
    }
}

/// A finish field never yields the token `PASS`: a finish that abbreviates
/// to `PASS` is left out of the name.
pub proof fn lemma_finish_never_yields_pass(
    template: TemplateView,
    category: Seq<char>,
    p: ProductView,
    field: Seq<char>,
    extracted: Option<Seq<char>>,
)
    requires
        field_role_of(field) == FieldRole::Finish,
    ensures
        field_outcome(template, category, p, field, extracted).token != Some("PASS"@),
{
}

/// The token `PASS` never comes from a finish: where no field of another
/// role yields `PASS`, none of the tokens of the fields is `PASS`.
pub proof fn lemma_no_pass_among_field_tokens(
    template: TemplateView,
    category: Seq<char>,
    p: ProductView,
    from: int,
    extracted: Option<Seq<char>>,
)
    requires
        0 <= from,
        forall|k: int, e: Option<Seq<char>>|
            0 <= k < template.key_specs.len() && field_role_of(template.key_specs[k])
                != FieldRole::Finish ==> (#[trigger] field_outcome(
                template,
                category,
                p,
                template.key_specs[k],
                e,
            )).token != Some("PASS"@),
    ensures
        !tokens_from(template, category, p, from, extracted).contains("PASS"@),
    decreases template.key_specs.len() - from,
{
    if from < template.key_specs.len() {
        let field = template.key_specs[from];
        let outcome = field_outcome(template, category, p, field, extracted);
        let rest = tokens_from(template, category, p, from + 1, outcome.finish);
        lemma_no_pass_among_field_tokens(template, category, p, from + 1, outcome.finish);
        if field_role_of(field) == FieldRole::Finish {
            lemma_finish_never_yields_pass(template, category, p, field, extracted);
        }
        match outcome.token {
            Some(t) => {
                let all = seq![t] + rest;
                assert forall|i: int| 0 <= i < all.len() implies all[i] != "PASS"@ by {
                    if i > 0 {
                        assert(all[i] == rest[i - 1]);
                        assert(rest.contains(rest[i - 1]));
                    }
                }
            },
            None => {},
        }
    }
}

/// Finish suppression: where the prefix is not `PASS` and no field of
/// another role than finish yields `PASS`, no token of the name is `PASS`,
/// whatever finish the product has.
pub proof fn lemma_no_pass_token_in_name(
    template: TemplateView,
    category: Seq<char>,
    p: ProductView,
)
    requires
        template.prefix != "PASS"@,
        forall|k: int, e: Option<Seq<char>>|
            0 <= k < template.key_specs.len() && field_role_of(template.key_specs[k])
                != FieldRole::Finish ==> (#[trigger] field_outcome(
                template,
                category,
                p,
                template.key_specs[k],
                e,
            )).token != Some("PASS"@),
    ensures
        !name_tokens(template, category, p).contains("PASS"@),
{
    lemma_no_pass_among_field_tokens(template, category, p, 0, None);
    let rest = tokens_from(template, category, p, 0, None);
    let all = name_tokens(template, category, p);
    assert forall|i: int| 0 <= i < all.len() implies all[i] != "PASS"@ by {
        if i > 0 {
            assert(all[i] == rest[i - 1]);
            assert(rest.contains(rest[i - 1]));
        }
    }
}

/// Where no token holds a hyphen, cutting a name at its hyphens gives its
/// tokens back.
pub proof fn lemma_name_segments_are_tokens(
    template: TemplateView,
    category: Seq<char>,
    p: ProductView,
)
    requires
        forall|i: int|
            0 <= i < name_tokens(template, category, p).len() ==> !(#[trigger] name_tokens(
                template,
                category,
                p,
            )[i]).contains('-'),
    ensures
        segments_of(template_name(template, category, p), '-') == name_tokens(
            template,
            category,
            p,
        ),
{
    reveal_strlit("-");
    assert("-"@ =~= seq!['-']);
    lemma_split_undoes_join(name_tokens(template, category, p), '-');
}

/// A finish that abbreviates to `PASS` is left out: the finish field has
/// no token.
pub proof fn lemma_pass_finish_has_no_token(
    dictionary: Seq<(Seq<char>, Seq<char>)>,
    value: Seq<char>,
    extracted: Option<Seq<char>>,
)
    requires
        abbreviated(dictionary, resolved_finish(value, extracted)) == "PASS"@,
    ensures
        finish_token(dictionary, value, extracted) is None,
{
}

/// A token, if there is one, has no segment `PASS` between its hyphens.
pub open spec fn lacks_pass(token: Option<Seq<char>>) -> bool {
    match token {
        Some(t) => !segments_of(t, '-').contains("PASS"@),
        None => true,
    }
}

/// Where no field yields a token with a segment `PASS`, no token of the
/// fields has one.
pub proof fn lemma_field_tokens_lack_pass(
    template: TemplateView,
    category: Seq<char>,
    p: ProductView,
    from: int,
    extracted: Option<Seq<char>>,
)
    requires
        0 <= from,
        forall|k: int, e: Option<Seq<char>>|
            0 <= k < template.key_specs.len() ==> lacks_pass(
                (#[trigger] field_outcome(template, category, p, template.key_specs[k], e)).token,
            ),
    ensures
        forall|i: int|
            0 <= i < tokens_from(template, category, p, from, extracted).len() ==> !segments_of(
                #[trigger] tokens_from(template, category, p, from, extracted)[i],
                '-',
            ).contains("PASS"@),
    decreases template.key_specs.len() - from,
{
    if from < template.key_specs.len() {
        let outcome = field_outcome(template, category, p, template.key_specs[from], extracted);
        let rest = tokens_from(template, category, p, from + 1, outcome.finish);
        let all = tokens_from(template, category, p, from, extracted);
        lemma_field_tokens_lack_pass(template, category, p, from + 1, outcome.finish);
        assert(lacks_pass(outcome.token));
        match outcome.token {
            Some(t) => {
                assert(all == seq![t] + rest);
                assert forall|i: int| 0 <= i < all.len() implies !segments_of(
                    #[trigger] all[i],
                    '-',
                ).contains("PASS"@) by {
                    if i > 0 {
                        assert(all[i] == rest[i - 1]);
                    }
                }
            },
            None => {},
        }
    }
}

/// Finish suppression in the name itself: a name has no segment `PASS`
/// between its hyphens where neither the prefix nor the token of any field
/// has one. A finish field whose finish abbreviates to `PASS` has no token
/// and so meets this whatever the finish is; the inputs left out are those
/// in which the prefix or another token brings a `PASS` of its own.
pub proof fn lemma_no_pass_segment_in_name(
    template: TemplateView,
    category: Seq<char>,
    p: ProductView,
)
    requires
        !segments_of(template.prefix, '-').contains("PASS"@),
        forall|k: int, e: Option<Seq<char>>|
            0 <= k < template.key_specs.len() ==> lacks_pass(
                (#[trigger] field_outcome(template, category, p, template.key_specs[k], e)).token,
            ),
    ensures
        !segments_of(template_name(template, category, p), '-').contains("PASS"@),
{
    let tokens = name_tokens(template, category, p);
    let rest = tokens_from(template, category, p, 0, None);
    lemma_field_tokens_lack_pass(template, category, p, 0, None);
    assert forall|i: int| 0 <= i < tokens.len() implies !segments_of(
        #[trigger] tokens[i],
        '-',
    ).contains("PASS"@) by {
        if i > 0 {
            assert(tokens[i] == rest[i - 1]);
        }
    }
    reveal_strlit("-");
    assert("-"@ =~= seq!['-']);
    lemma_split_of_join(tokens, '-');
    lemma_all_segments_lack(tokens, '-', "PASS"@);
}

/// A name holds a token: a segment between its hyphens that is not empty.
pub open spec fn holds_a_token(name: Seq<char>) -> bool {
    exists|k: int|
        0 <= k < segments_of(name, '-').len() && (#[trigger] segments_of(name, '-')[k]).len() > 0
}

/// A name that holds a character other than the hyphen holds a token, and
/// no segment of a name holds a hyphen. The names left out are those made
/// of hyphens only, such as the fallback name `-` of a product whose family
/// description is a comma and whose part number is empty.
pub proof fn lemma_name_holds_a_token(name: Seq<char>)
    requires
        exists|i: int| 0 <= i < name.len() && name[i] != '-',
    ensures
        holds_a_token(name),
        forall|k: int|
            0 <= k < segments_of(name, '-').len() ==> !(#[trigger] segments_of(name, '-')[k]).contains(
                '-',
            ),
{
    let none = Seq::<char>::empty();
    lemma_some_segment_is_not_empty(name, '-', none);
    lemma_segments_hold_no_separator(name, '-', none);
    let k = choose|k: int|
        0 <= k < segments_after(name, '-', none).len() && (#[trigger] segments_after(
            name,
            '-',
            none,
        )[k]).len() > 0;
    assert(segments_of(name, '-')[k].len() > 0);
}

/// Non-emptiness of generated names: a name made by a template whose prefix
/// holds a character other than the hyphen holds a token, and so does a
/// fallback name where the family description has no word or the part
/// number holds a character other than the hyphen.
pub proof fn lemma_generated_name_holds_a_token(
    registry: Seq<(Seq<char>, TemplateView)>,
    p: ProductView,
)
    requires
        match lookup(registry, category_of(p)) {
            Some(template) => exists|i: int|
                0 <= i < template.prefix.len() && template.prefix[i] != '-',
            None => words_of(p.family_description).len() == 0 || exists|i: int|
                0 <= i < p.part_number.len() && p.part_number[i] != '-',
        },
    ensures
        holds_a_token(generated_name(registry, p)),
{
    let name = generated_name(registry, p);
    match lookup(registry, category_of(p)) {
        Some(template) => {
            let tokens = name_tokens(template, category_of(p), p);
            assert(tokens[0] == template.prefix);
            lemma_joined_begins_with_first(tokens, "-"@);
            let i = choose|i: int| 0 <= i < template.prefix.len() && template.prefix[i] != '-';
            assert(name.subrange(0, template.prefix.len() as int)[i] == template.prefix[i]);
            assert(name[i] != '-');
        },
        None => {
            if words_of(p.family_description).len() == 0 {
                reveal_strlit("UNKNOWN-");
                assert(name[0] == 'U');
            } else {
                let head = replaced(
                    uppercase(fallback_heading(p.family_description)),
                    ","@,
                    ""@,
                ) + "-"@;
                let i = choose|i: int| 0 <= i < p.part_number.len() && p.part_number[i] != '-';
                assert(name == head + p.part_number);
                assert(name[head.len() + i] == p.part_number[i]);
            }
        },
    }
    lemma_name_holds_a_token(name);
}

/// A field that resolves to no specification has no token, unless it is the
/// field `Finish` and the material carried a finish.
pub proof fn lemma_unresolved_field_is_skipped(
    template: TemplateView,
    category: Seq<char>,
    p: ProductView,
    field: Seq<char>,
    extracted: Option<Seq<char>>,
)
    requires
        resolved(template, p.specifications, field) is None,
        !equal_ignoring_ascii_case(field, "Finish"@) || extracted is None,
    ensures
        field_outcome(template, category, p, field, extracted).token is None,
        field_outcome(template, category, p, field, extracted).finish == extracted,
{
}

} // verus!
