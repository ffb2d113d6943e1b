//! Material, finish and generic value abbreviations.

use crate::models::product::{attribute_value, ProductDetail, SpecificationView};
use crate::naming::converters::is_digit;
use crate::text::{
    chars_of, contains, contains_char, has_prefix, has_substring, matches_at, replace, replaced,
    slice, slices, string_of, to_uppercase, uppercase,
};
use vstd::prelude::*;

verus! {

/// The finishes that a material text may begin with, in the order in which
/// they are tried.
pub open spec fn finish_names() -> Seq<Seq<char>> {
    seq![
        "Black-Oxide"@,
        "Black Oxide"@,
        "Zinc Plated"@,
        "Zinc-Plated"@,
        "Zinc Yellow-Chromate Plated"@,
        "Zinc Yellow Chromate Plated"@,
        "Galvanized"@,
        "Cadmium Plated"@,
        "Cadmium-Plated"@,
        "Nickel Plated"@,
        "Nickel-Plated"@,
        "Chrome Plated"@,
        "Chrome-Plated"@,
        "Passivated"@,
        "Plain"@,
        "Unfinished"@,
    ]
}

/// The first finish of `names`, from position `from` on, that `value` begins
/// with, the finish being followed by a space.
pub open spec fn leading_finish(value: Seq<char>, names: Seq<Seq<char>>, from: int) -> Option<
    Seq<char>,
>
    decreases names.len() - from,
{
    if from < 0 || from >= names.len() {
        None
    } else if has_prefix(value, names[from].push(' ')) {
        Some(names[from])
    } else {
        leading_finish(value, names, from + 1)
    }
}

/// A material text split into the material proper and the finish that it
/// begins with, if it begins with one of [`finish_names`].
pub open spec fn material_and_finish(value: Seq<char>) -> (Seq<char>, Option<Seq<char>>) {
    match leading_finish(value, finish_names(), 0) {
        Some(finish) => (value.skip(finish.len() as int + 1), Some(finish)),
        None => (value, None),
    }
}

/// Splits a finish off the front of a material text.
///
/// `Zinc Plated Steel` gives `Steel` with the finish `Zinc Plated`; a text
/// that begins with none of the known finishes comes back whole.
pub fn parse_material_and_finish(material_value: &str) -> (r: (String, Option<String>))
    ensures
        r.0@ == material_and_finish(material_value@).0,
        match r.1 {
            Some(finish) => material_and_finish(material_value@).1 == Some(finish@),
            None => material_and_finish(material_value@).1 is None,
        },
{
    let names: Vec<&str> = vec![
        "Black-Oxide",
        "Black Oxide",
        "Zinc Plated",
        "Zinc-Plated",
        "Zinc Yellow-Chromate Plated",
        "Zinc Yellow Chromate Plated",
        "Galvanized",
        "Cadmium Plated",
        "Cadmium-Plated",
        "Nickel Plated",
        "Nickel-Plated",
        "Chrome Plated",
        "Chrome-Plated",
        "Passivated",
        "Plain",
        "Unfinished",
    ];
    assert(slices(names@) =~= finish_names());
    let value = chars_of(material_value);
    let mut i: usize = 0;
    while i < names.len()
        invariant
            i <= names.len(),
            slices(names@) == finish_names(),
            value@ == material_value@,
            leading_finish(value@, finish_names(), 0) == leading_finish(
                value@,
                finish_names(),
                i as int,
            ),
        decreases names.len() - i,
    {
        let mut prefix = chars_of(names[i]);
        prefix.push(' ');
        assert(prefix@ == finish_names()[i as int].push(' ')) by {
            assert(slices(names@)[i as int] == names@[i as int]@);
        }
        if matches_at(&value, &prefix, 0) {
            let rest = slice(&value, prefix.len(), value.len());
            assert(rest@ =~= value@.skip(prefix.len() as int));
            return (string_of(&rest), Some(names[i].to_string()));
        }
        i += 1;
    }
    (string_of(&value), None)
}

/// The specification that upgrades plain steel to a graded steel.
pub open spec fn grade_attribute() -> Seq<char> {
    "Fastener Strength Grade/Class"@
}

/// The steel that a strength grade or class names, if it names one: the
/// grades 1, 2, 5 and 8 and the classes 8.8, 10.9 and 12.9, tried in this order.
pub open spec fn graded_steel(grade: Seq<char>) -> Option<Seq<char>> {
    if has_substring(grade, "Grade 1"@) {
        Some("Grade 1 Steel"@)
    } else if has_substring(grade, "Grade 2"@) {
        Some("Grade 2 Steel"@)
    } else if has_substring(grade, "Grade 5"@) {
        Some("Grade 5 Steel"@)
    } else if has_substring(grade, "Grade 8"@) {
        Some("Grade 8 Steel"@)
    } else if has_substring(grade, "8.8"@) {
        Some("8.8 Steel"@)
    } else if has_substring(grade, "10.9"@) {
        Some("10.9 Steel"@)
    } else if has_substring(grade, "12.9"@) {
        Some("12.9 Steel"@)
    } else {
        None
    }
}

/// The material label of a steel part: the graded steel that the product's
/// strength grade names, else the material as it was given.
pub open spec fn steel_grade_material(
    specs: Seq<SpecificationView>,
    original: Seq<char>,
) -> Seq<char> {
    match attribute_value(specs, grade_attribute()) {
        Some(grade) => match graded_steel(grade) {
            Some(label) => label,
            None => original,
        },
        None => original,
    }
}

/// Names the steel of a product by its strength grade or class.
///
/// Where the product has no `Fastener Strength Grade/Class` or the grade is
/// none of the known ones, `original_material` comes back.
pub fn get_steel_grade_material(product: &ProductDetail, original_material: &str) -> (r: String)
    ensures
        r@ == steel_grade_material(product@.specifications, original_material@),
{
    match product.specification_value("Fastener Strength Grade/Class") {
        Some(value) => {
            let grade = chars_of(value.as_str());
            if contains(&grade, "Grade 1") {
                "Grade 1 Steel".to_string()
            } else if contains(&grade, "Grade 2") {
                "Grade 2 Steel".to_string()
            } else if contains(&grade, "Grade 5") {
                "Grade 5 Steel".to_string()
            } else if contains(&grade, "Grade 8") {
                "Grade 8 Steel".to_string()
            } else if contains(&grade, "8.8") {
                "8.8 Steel".to_string()
            } else if contains(&grade, "10.9") {
                "10.9 Steel".to_string()
            } else if contains(&grade, "12.9") {
                "12.9 Steel".to_string()
            } else {
                original_material.to_string()
            }
        },
        None => original_material.to_string(),
    }
}

/// `v` reads as a thread designation: it holds an `x`, or begins with `M`
/// and a digit, or begins with a digit and holds a `/`.
pub open spec fn looks_like_thread(v: Seq<char>) -> bool {
    ||| v.contains('x')
    ||| (v.len() >= 2 && v[0] == 'M' && is_digit(v[1]))
    ||| (v.len() >= 1 && is_digit(v[0]) && v.contains('/'))
}

/// The first four characters of `v`, or all of `v` where it has fewer.
pub open spec fn first_four(v: Seq<char>) -> Seq<char> {
    if v.len() <= 4 {
        v
    } else {
        v.take(4)
    }
}

/// What is left of a value before its case is settled, and whether it is
/// to be put in upper case.
///
/// A thread designation only loses its inch marks and keeps its case.
/// `No. n` becomes `n`. Any other value loses inch marks and spaces, is cut
/// to its first four characters, and is to be put in upper case.
pub open spec fn abbreviation_stem(v: Seq<char>) -> (Seq<char>, bool) {
    if looks_like_thread(v) {
        (replaced(v, "\""@, ""@), false)
    } else if has_prefix(v, "No. "@) {
        (v.skip("No. "@.len() as int), false)
    } else {
        (first_four(replaced(replaced(v, "\""@, ""@), " "@, ""@)), true)
    }
}

/// The abbreviation of a value that no dictionary knows: its stem, in upper
/// case where the stem asks for it.
pub open spec fn abbreviation(v: Seq<char>) -> Seq<char> {
    let stem = abbreviation_stem(v);
    if stem.1 {
        uppercase(stem.0)
    } else {
        stem.0
    }
}

/// Whether `c` is one of the digits `0` to `9`.
fn is_ascii_digit(c: char) -> (r: bool)
    ensures
        r == is_digit(c),
{
    c >= '0' && c <= '9'
}

/// Computes the stem of an abbreviation: the text before its case is
/// settled, and whether it is to be put in upper case.
pub fn stem_of(value: &str) -> (r: (String, bool))
    ensures
        r.0@ == abbreviation_stem(value@).0,
        r.1 == abbreviation_stem(value@).1,
{
    let v = chars_of(value);
    let thread = contains_char(&v, 'x') || (v.len() >= 2 && v[0] == 'M' && is_ascii_digit(v[1]))
        || (v.len() >= 1 && is_ascii_digit(v[0]) && contains_char(&v, '/'));
    if thread {
        return (string_of(&replace(&v, "\"", "")), false);
    }
    let number_prefix = chars_of("No. ");
    if matches_at(&v, &number_prefix, 0) {
        let rest = slice(&v, number_prefix.len(), v.len());
        assert(rest@ =~= v@.skip("No. "@.len() as int));
        return (string_of(&rest), false);
    }
    let clean = replace(&replace(&v, "\"", ""), " ", "");
    let head = if clean.len() <= 4 {
        clean
    } else {
        let h = slice(&clean, 0, 4);
        assert(h@ =~= clean@.take(4));
        h
    };
    (string_of(&head), true)
}

/// Abbreviates a value that the template's dictionary does not hold.
pub fn abbreviate_value(value: &str) -> (r: String)
    ensures
        r@ == abbreviation(value@),
{
    let (stem, upper) = stem_of(value);
    if upper {
        to_uppercase(stem.as_str())
    } else {
        stem
    }
}

} // verus!
