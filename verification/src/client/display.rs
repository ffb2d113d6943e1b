//! The lines that show a product to people.

use crate::models::product::{
    find_attribute, ProductDetail, ProductView, Specification, SpecificationView,
};
use crate::text::{append, append_str, chars_of, join, joined, string_of, texts};
use crate::utils::output::{field_views, FieldView, parsed_fields, ProductField};
use vstd::prelude::*;

verus! {

/// The line that shows one specification in the list of all.
pub open spec fn listed_specification(spec: SpecificationView) -> Seq<char> {
    "  • "@ + spec.attribute + ": "@ + joined(spec.values, ", "@)
}

/// The lines that show the first `n` specifications.
pub open spec fn listed_specifications(specs: Seq<SpecificationView>, n: int) -> Seq<Seq<char>>
    decreases n,
{
    if n <= 0 || n > specs.len() {
        Seq::<Seq<char>>::empty()
    } else {
        listed_specifications(specs, n - 1).push(listed_specification(specs[n - 1]))
    }
}

/// The lines that show one field of a product. A specification that the
/// product does not have shows nothing.
pub open spec fn field_lines(p: ProductView, field: FieldView) -> Seq<Seq<char>> {
    match field {
        FieldView::PartNumber => seq!["📦 Part Number: "@ + p.part_number],
        FieldView::DetailDescription => seq!["📝 Description: "@ + p.detail_description],
        FieldView::FamilyDescription => seq!["🏷️ Family: "@ + p.family_description],
        FieldView::Category => seq!["📂 Category: "@ + p.product_category],
        FieldView::Status => seq!["🔄 Status: "@ + p.product_status],
        FieldView::AllSpecs => seq!["🔧 Specifications:"@] + listed_specifications(
            p.specifications,
            p.specifications.len() as int,
        ),
        FieldView::Specification(name) => match find_attribute(p.specifications, name) {
            Some(spec) => seq!["🔧 "@ + spec.attribute + ": "@ + joined(spec.values, ", "@)],
            None => Seq::<Seq<char>>::empty(),
        },
        FieldView::BasicInfo => seq![
            "📦 Part Number: "@ + p.part_number,
            "📝 Description: "@ + p.detail_description,
            "🏷️ Family: "@ + p.family_description,
            "📂 Category: "@ + p.product_category,
            "🔄 Status: "@ + p.product_status,
        ],
    }
}

/// The lines that show the first `n` of the fields.
pub open spec fn lines_among(p: ProductView, fields: Seq<FieldView>, n: int) -> Seq<Seq<char>>
    decreases n,
{
    if n <= 0 || n > fields.len() {
        Seq::<Seq<char>>::empty()
    } else {
        lines_among(p, fields, n - 1) + field_lines(p, fields[n - 1])
    }
}

/// The lines that show the fields that a field list names.
pub open spec fn shown_lines(p: ProductView, field_list: Seq<char>) -> Seq<Seq<char>> {
    lines_among(p, parsed_fields(field_list), parsed_fields(field_list).len() as int)
}

/// A label followed by a value.
fn labelled(label: &str, value: &str) -> (r: String)
    ensures
        r@ == label@ + value@,
{
    let mut out = chars_of(label);
    append_str(&mut out, value);
    string_of(&out)
}

/// A mark, the attribute of a specification, and its values.
fn specification_line(mark: &str, spec: &Specification) -> (r: String)
    ensures
        r@ == mark@ + spec@.attribute + ": "@ + joined(spec@.values, ", "@),
{
    let mut out = chars_of(mark);
    append_str(&mut out, spec.attribute.as_str());
    append_str(&mut out, ": ");
    append(&mut out, &join(&spec.values, ", "));
    string_of(&out)
}

/// Writes the lines that show one field of a product.
pub fn show_field(product: &ProductDetail, field: &ProductField) -> (r: Vec<String>)
    ensures
        texts(r@) == field_lines(product@, field@),
{
    let mut lines: Vec<String> = Vec::new();
    match field {
        ProductField::PartNumber => {
            lines.push(labelled("📦 Part Number: ", product.part_number.as_str()));
        },
        ProductField::DetailDescription => {
            lines.push(labelled("📝 Description: ", product.detail_description.as_str()));
        },
        ProductField::FamilyDescription => {
            lines.push(labelled("🏷️ Family: ", product.family_description.as_str()));
        },
        ProductField::Category => {
            lines.push(labelled("📂 Category: ", product.product_category.as_str()));
        },
        ProductField::Status => {
            lines.push(labelled("🔄 Status: ", product.product_status.as_str()));
        },
        ProductField::AllSpecs => {
            lines.push("🔧 Specifications:".to_string());
            let ghost head = texts(lines@);
            let mut i: usize = 0;
            assert(texts(lines@) =~= head + listed_specifications(product@.specifications, 0));
            while i < product.specifications.len()
                invariant
                    i <= product.specifications.len(),
                    texts(lines@) == head + listed_specifications(
                        product@.specifications,
                        i as int,
                    ),
                decreases product.specifications.len() - i,
            {
                let ghost before = texts(lines@);
                assert(product.specifications@[i as int]@ == product@.specifications[i as int]);
                lines.push(specification_line("  • ", &product.specifications[i]));
                assert(texts(lines@) =~= head + listed_specifications(
                    product@.specifications,
                    i + 1,
                )) by {
                    assert(texts(lines@) =~= before.push(
                        listed_specification(product@.specifications[i as int]),
                    ));
                }
                i += 1;
            }
            assert(head =~= seq!["🔧 Specifications:"@]);
        },
        ProductField::Specification(name) => {
            match product.find_specification(name.as_str()) {
                Some(spec) => {
                    lines.push(specification_line("🔧 ", spec));
                },
                None => {},
            }
        },
        ProductField::BasicInfo => {
            lines.push(labelled("📦 Part Number: ", product.part_number.as_str()));
            lines.push(labelled("📝 Description: ", product.detail_description.as_str()));
            lines.push(labelled("🏷️ Family: ", product.family_description.as_str()));
            lines.push(labelled("📂 Category: ", product.product_category.as_str()));
            lines.push(labelled("🔄 Status: ", product.product_status.as_str()));
        },
    }
    assert(texts(lines@) =~= field_lines(product@, field@));
    lines
}

/// Writes the lines that show a product: those of the fields that the
/// field list names, in the order of the list.
pub fn show_product(product: &ProductDetail, fields_str: &str) -> (r: Vec<String>)
    ensures
        texts(r@) == shown_lines(product@, fields_str@),
{
    let fields = ProductField::parse_fields(fields_str);
    let mut lines: Vec<String> = Vec::new();
    let mut i: usize = 0;
    assert(texts(lines@) =~= lines_among(product@, field_views(fields@), 0));
    while i < fields.len()
        invariant
            i <= fields.len(),
            texts(lines@) == lines_among(product@, field_views(fields@), i as int),
        decreases fields.len() - i,
    {
        let mut more = show_field(product, &fields[i]);
        let ghost before = texts(lines@);
        let ghost added = texts(more@);
        assert(added == field_lines(product@, field_views(fields@)[i as int]));
        let mut k: usize = 0;
        while k < more.len()
            invariant
                k <= more.len(),
                added == texts(more@),
                texts(lines@) == before + added.take(k as int),
            decreases more.len() - k,
        {
            let ghost so_far = texts(lines@);
            lines.push(more[k].clone());
            assert(texts(lines@) =~= before + added.take(k + 1)) by {
                assert(texts(lines@) =~= so_far.push(added[k as int]));
            }
            k += 1;
        }
        assert(added.take(more.len() as int) =~= added);
        i += 1;
    }
    lines
}

} // verus!
