//! Product records: the input of the naming engine.

use crate::text::{eq_ignore_ascii_case, equal_ignoring_ascii_case, texts};
use vstd::prelude::*;

verus! {

/// One named attribute of a product with its values, as the catalog lists them.
#[derive(Debug)]
pub struct Specification {
    pub attribute: String,
    pub values: Vec<String>,
}

/// The mathematical content of a [`Specification`].
pub struct SpecificationView {
    pub attribute: Seq<char>,
    pub values: Seq<Seq<char>>,
}

impl View for Specification {
    type V = SpecificationView;

    open spec fn view(&self) -> SpecificationView {
        SpecificationView { attribute: self.attribute@, values: texts(self.values@) }
    }
}

/// A product as the catalog describes it.
#[derive(Debug)]
pub struct ProductDetail {
    pub part_number: String,
    pub detail_description: String,
    pub family_description: String,
    pub product_category: String,
    pub product_status: String,
    pub specifications: Vec<Specification>,
}

/// The mathematical content of a [`ProductDetail`].
pub struct ProductView {
    pub part_number: Seq<char>,
    pub detail_description: Seq<char>,
    pub family_description: Seq<char>,
    pub product_category: Seq<char>,
    pub product_status: Seq<char>,
    pub specifications: Seq<SpecificationView>,
}

/// The views of a list of specifications.
pub open spec fn specification_views(v: Seq<Specification>) -> Seq<SpecificationView> {
    Seq::new(v.len(), |i: int| v[i]@)
}

impl View for ProductDetail {
    type V = ProductView;

    open spec fn view(&self) -> ProductView {
        ProductView {
            part_number: self.part_number@,
            detail_description: self.detail_description@,
            family_description: self.family_description@,
            product_category: self.product_category@,
            product_status: self.product_status@,
            specifications: specification_views(self.specifications@),
        }
    }
}

/// The position of the first specification whose attribute equals `name`
/// without regard to ASCII case, counted from `from`.
pub open spec fn position_of_attribute(
    specs: Seq<SpecificationView>,
    name: Seq<char>,
    from: int,
) -> Option<int>
    decreases specs.len() - from,
{
    if from < 0 || from >= specs.len() {
        None
    } else if equal_ignoring_ascii_case(specs[from].attribute, name) {
        Some(from)
    } else {
        position_of_attribute(specs, name, from + 1)
    }
}

/// The first specification whose attribute equals `name` without regard to
/// ASCII case.
pub open spec fn find_attribute(specs: Seq<SpecificationView>, name: Seq<char>) -> Option<
    SpecificationView,
> {
    match position_of_attribute(specs, name, 0) {
        Some(i) => Some(specs[i]),
        None => None,
    }
}

/// The first value of a specification, or the empty text where it has none.
pub open spec fn first_value(spec: SpecificationView) -> Seq<char> {
    if spec.values.len() > 0 {
        spec.values[0]
    } else {
        Seq::<char>::empty()
    }
}

/// The first value of the first specification named `name`, if that
/// specification exists and has a value.
pub open spec fn attribute_value(specs: Seq<SpecificationView>, name: Seq<char>) -> Option<
    Seq<char>,
> {
    match find_attribute(specs, name) {
        Some(spec) => if spec.values.len() > 0 {
            Some(spec.values[0])
        } else {
            None
        },
        None => None,
    }
}

impl ProductDetail {
    /// The first specification whose attribute equals `name` without regard to
    /// ASCII case.
    pub fn find_specification(&self, name: &str) -> (r: Option<&Specification>)
        ensures
            match r {
                Some(spec) => find_attribute(self@.specifications, name@) == Some(spec@),
                None => find_attribute(self@.specifications, name@) is None,
            },
    {
        let mut i: usize = 0;
        while i < self.specifications.len()
            invariant
                i <= self.specifications.len(),
                position_of_attribute(self@.specifications, name@, 0) == position_of_attribute(
                    self@.specifications,
                    name@,
                    i as int,
                ),
            decreases self.specifications.len() - i,
        {
            if eq_ignore_ascii_case(self.specifications[i].attribute.as_str(), name) {
                return Some(&self.specifications[i]);
            }
            i += 1;
        }
        None
    }

    /// The first value of the first specification named `name`.
    pub fn specification_value(&self, name: &str) -> (r: Option<&String>)
        ensures
            match r {
                Some(v) => attribute_value(self@.specifications, name@) == Some(v@),
                None => attribute_value(self@.specifications, name@) is None,
            },
    {
        match self.find_specification(name) {
            Some(spec) => {
                if spec.values.len() > 0 {
                    Some(&spec.values[0])
                } else {
                    None
                }
            },
            None => None,
        }
    }
}

} // verus!
