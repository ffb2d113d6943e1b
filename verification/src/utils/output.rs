//! Output formats and the fields of a product that can be shown.

use crate::text::{
    append, chars_of, equals, joined, replace, replaced, segments_of, slice, split, split_whitespace,
    string_of, texts, to_uppercase, trim, trimmed, uppercase, words_of,
};
use vstd::prelude::*;

verus! {

/// How product information is shown.
#[derive(Copy, Clone, PartialEq, Eq, PartialOrd, Ord, Debug, Structural)]
pub enum OutputFormat {
    /// For people, with formatting.
    Human,
    /// For machines, as JSON.
    Json,
}

impl OutputFormat {
    /// The name of the format as it is written on the command line.
    pub fn name(&self) -> (r: String)
        ensures
            r@ == match *self {
                OutputFormat::Human => "human"@,
                OutputFormat::Json => "json"@,
            },
    {
        match self {
            OutputFormat::Human => "human".to_string(),
            OutputFormat::Json => "json".to_string(),
        }
    }
}

/// A field of a product that can be shown.
#[derive(Debug, Clone, PartialEq)]
pub enum ProductField {
    PartNumber,
    DetailDescription,
    FamilyDescription,
    Category,
    Status,
    Specification(String),
    AllSpecs,
    BasicInfo,
}

/// The mathematical content of a [`ProductField`].
pub enum FieldView {
    PartNumber,
    DetailDescription,
    FamilyDescription,
    Category,
    Status,
    Specification(Seq<char>),
    AllSpecs,
    BasicInfo,
}

impl View for ProductField {
    type V = FieldView;

    open spec fn view(&self) -> FieldView {
        match self {
            ProductField::PartNumber => FieldView::PartNumber,
            ProductField::DetailDescription => FieldView::DetailDescription,
            ProductField::FamilyDescription => FieldView::FamilyDescription,
            ProductField::Category => FieldView::Category,
            ProductField::Status => FieldView::Status,
            ProductField::Specification(name) => FieldView::Specification(name@),
            ProductField::AllSpecs => FieldView::AllSpecs,
            ProductField::BasicInfo => FieldView::BasicInfo,
        }
    }
}

/// The views of a list of fields.
pub open spec fn field_views(v: Seq<ProductField>) -> Seq<FieldView> {
    Seq::new(v.len(), |i: int| v[i]@)
}

/// A word with its first character in upper case.
pub open spec fn capitalized(word: Seq<char>) -> Seq<char> {
    if word.len() == 0 {
        word
    } else {
        uppercase(seq![word[0]]) + word.skip(1)
    }
}

/// Every word of `words` capitalized.
pub open spec fn all_capitalized(words: Seq<Seq<char>>) -> Seq<Seq<char>> {
    Seq::new(words.len(), |i: int| capitalized(words[i]))
}

/// The name of the specification that a field word in kebab case stands
/// for: hyphens become spaces and every word is capitalized.
pub open spec fn specification_name(word: Seq<char>) -> Seq<char> {
    joined(all_capitalized(words_of(replaced(word, "-"@, " "@))), " "@)
}

/// The field that a field word names; a word that names none of the fixed
/// fields names a specification.
pub open spec fn field_of(word: Seq<char>) -> FieldView {
    if word == "part-number"@ || word == "partnumber"@ {
        FieldView::PartNumber
    } else if word == "detail-description"@ || word == "detail"@ || word == "description"@ {
        FieldView::DetailDescription
    } else if word == "family-description"@ || word == "family"@ {
        FieldView::FamilyDescription
    } else if word == "category"@ || word == "product-category"@ {
        FieldView::Category
    } else if word == "status"@ || word == "product-status"@ {
        FieldView::Status
    } else if word == "specs"@ || word == "specifications"@ {
        FieldView::AllSpecs
    } else if word == "basic"@ {
        FieldView::BasicInfo
    } else {
        FieldView::Specification(specification_name(word))
    }
}

/// The fields that the segments of a list name, each segment trimmed.
pub open spec fn fields_of(segments: Seq<Seq<char>>) -> Seq<FieldView> {
    Seq::new(segments.len(), |i: int| field_of(trimmed(segments[i])))
}

/// The fields that a field list names.
///
/// `all`, `basic` and `specs` stand for fixed lists; any other text is a
/// list of field words separated by commas.
pub open spec fn parsed_fields(list: Seq<char>) -> Seq<FieldView> {
    if list == "all"@ {
        seq![
            FieldView::PartNumber,
            FieldView::DetailDescription,
            FieldView::FamilyDescription,
            FieldView::Category,
            FieldView::Status,
            FieldView::AllSpecs,
        ]
    } else if list == "basic"@ {
        seq![
            FieldView::PartNumber,
            FieldView::DetailDescription,
            FieldView::FamilyDescription,
            FieldView::Category,
            FieldView::Status,
        ]
    } else if list == "specs"@ {
        seq![FieldView::AllSpecs]
    } else {
        fields_of(segments_of(list, ','))
    }
}

/// Capitalizes a word.
fn capitalize(word: &str) -> (r: String)
    ensures
        r@ == capitalized(word@),
{
    let w = chars_of(word);
    if w.len() == 0 {
        return string_of(&w);
    }
    let first = slice(&w, 0, 1);
    assert(first@ =~= seq![w@[0]]);
    let mut out = chars_of(to_uppercase(string_of(&first).as_str()).as_str());
    let rest = slice(&w, 1, w.len());
    assert(rest@ =~= w@.skip(1));
    append(&mut out, &rest);
    string_of(&out)
}

/// The name of the specification that a field word stands for.
fn name_specification(word: &Vec<char>) -> (r: String)
    ensures
        r@ == specification_name(word@),
{
    let words = split_whitespace(&replace(word, "-", " "));
    let mut capitals: Vec<String> = Vec::new();
    let mut i: usize = 0;
    while i < words.len()
        invariant
            i <= words.len(),
            capitals.len() == i,
            texts(capitals@) == all_capitalized(texts(words@)).take(i as int),
        decreases words.len() - i,
    {
        let ghost before = capitals@;
        capitals.push(capitalize(words[i].as_str()));
        assert(texts(capitals@) =~= all_capitalized(texts(words@)).take(i + 1)) by {
            assert forall|j: int| 0 <= j < i + 1 implies texts(capitals@)[j] == all_capitalized(
                texts(words@),
            ).take(i + 1)[j] by {
                if j < i {
                    assert(texts(before)[j] == all_capitalized(texts(words@)).take(i as int)[j]);
                }
            }
        }
        i += 1;
    }
    assert(all_capitalized(texts(words@)).take(words.len() as int) =~= all_capitalized(
        texts(words@),
    ));
    string_of(&crate::text::join(&capitals, " "))
}

/// The field that a field word names.
fn parse_field(word: &Vec<char>) -> (r: ProductField)
    ensures
        r@ == field_of(word@),
{
    if equals(word, "part-number") || equals(word, "partnumber") {
        ProductField::PartNumber
    } else if equals(word, "detail-description") || equals(word, "detail") || equals(word, "description") {
        ProductField::DetailDescription
    } else if equals(word, "family-description") || equals(word, "family") {
        ProductField::FamilyDescription
    } else if equals(word, "category") || equals(word, "product-category") {
        ProductField::Category
    } else if equals(word, "status") || equals(word, "product-status") {
        ProductField::Status
    } else if equals(word, "specs") || equals(word, "specifications") {
        ProductField::AllSpecs
    } else if equals(word, "basic") {
        ProductField::BasicInfo
    } else {
        ProductField::Specification(name_specification(word))
    }
}

impl ProductField {
    /// Parses a list of field words separated by commas; `all`, `basic` and
    /// `specs` stand for fixed lists.
    pub fn parse_fields(fields_str: &str) -> (r: Vec<ProductField>)
        ensures
            field_views(r@) == parsed_fields(fields_str@),
    {
        let list = chars_of(fields_str);
        let mut out: Vec<ProductField> = Vec::new();
        if equals(&list, "all") {
            out.push(ProductField::PartNumber);
            out.push(ProductField::DetailDescription);
            out.push(ProductField::FamilyDescription);
            out.push(ProductField::Category);
            out.push(ProductField::Status);
            out.push(ProductField::AllSpecs);
            assert(field_views(out@) =~= parsed_fields(fields_str@));
            return out;
        }
        if equals(&list, "basic") {
            out.push(ProductField::PartNumber);
            out.push(ProductField::DetailDescription);
            out.push(ProductField::FamilyDescription);
            out.push(ProductField::Category);
            out.push(ProductField::Status);
            assert(field_views(out@) =~= parsed_fields(fields_str@));
            return out;
        }
        if equals(&list, "specs") {
            out.push(ProductField::AllSpecs);
            assert(field_views(out@) =~= parsed_fields(fields_str@));
            return out;
        }
        let segments = split(&list, ',');
        let mut i: usize = 0;
        while i < segments.len()
            invariant
                i <= segments.len(),
                out.len() == i,
                field_views(out@) == fields_of(texts(segments@)).take(i as int),
            decreases segments.len() - i,
        {
            let ghost before = out@;
            let word = trim(&chars_of(segments[i].as_str()));
            out.push(parse_field(&word));
            assert(field_views(out@) =~= fields_of(texts(segments@)).take(i + 1)) by {
                assert forall|j: int| 0 <= j < i + 1 implies field_views(out@)[j] == fields_of(
                    texts(segments@),
                ).take(i + 1)[j] by {
                    if j < i {
                        assert(field_views(before)[j] == fields_of(texts(segments@)).take(
                            i as int,
                        )[j]);
                    }
                }
            }
            i += 1;
        }
        assert(fields_of(texts(segments@)).take(segments.len() as int) =~= fields_of(
            texts(segments@),
        ));
        out
    }
}

} // verus!
