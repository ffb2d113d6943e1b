//! Models of the catalog's answers about links and files.

use crate::text::{chars_of, contains, has_substring, str_eq, texts};
use vstd::prelude::*;

verus! {

/// One link of an answer: what it is and where it points.
#[derive(Debug)]
pub struct LinkItem {
    pub key: String,
    pub value: String,
}

/// An answer that lists the links of a product.
#[derive(Debug)]
pub struct ProductResponse {
    pub links: Option<Vec<LinkItem>>,
}

/// A CAD file of a product.
#[derive(Debug, Clone)]
pub struct CadFile {
    pub format: CadFormat,
    pub url: String,
    /// The key under which the catalog lists the file, such as `3-D STEP`.
    pub key: String,
}

/// The formats of CAD files.
#[derive(Debug, Clone, Copy, PartialEq, Eq, Structural)]
pub enum CadFormat {
    Dwg,
    Step,
    Dxf,
    Iges,
    Solidworks,
    Sat,
    Edrw,
    Pdf,
}

/// The links of a product, by what they lead to.
pub struct ProductLinks {
    pub images: Vec<String>,
    pub cad: Vec<CadFile>,
    pub datasheets: Vec<String>,
}

/// What the catalog says of a product in brief.
#[derive(Debug)]
pub struct ProductInfo {
    pub part_number: Option<String>,
    pub detail_description: Option<String>,
    pub family_description: Option<String>,
}

/// The mathematical content of a [`LinkItem`].
pub struct LinkView {
    pub key: Seq<char>,
    pub value: Seq<char>,
}

impl View for LinkItem {
    type V = LinkView;

    open spec fn view(&self) -> LinkView {
        LinkView { key: self.key@, value: self.value@ }
    }
}

/// The mathematical content of a [`CadFile`].
pub struct CadFileView {
    pub format: CadFormat,
    pub url: Seq<char>,
    pub key: Seq<char>,
}

impl View for CadFile {
    type V = CadFileView;

    open spec fn view(&self) -> CadFileView {
        CadFileView { format: self.format, url: self.url@, key: self.key@ }
    }
}

/// The mathematical content of a [`ProductLinks`].
pub struct LinksView {
    pub images: Seq<Seq<char>>,
    pub cad: Seq<CadFileView>,
    pub datasheets: Seq<Seq<char>>,
}

impl View for ProductLinks {
    type V = LinksView;

    open spec fn view(&self) -> LinksView {
        LinksView {
            images: texts(self.images@),
            cad: Seq::new(self.cad@.len(), |i: int| self.cad@[i]@),
            datasheets: texts(self.datasheets@),
        }
    }
}

/// The file extension of a format.
pub open spec fn extension_of(format: CadFormat) -> Seq<char> {
    match format {
        CadFormat::Dwg => "dwg"@,
        CadFormat::Step => "step"@,
        CadFormat::Dxf => "dxf"@,
        CadFormat::Iges => "iges"@,
        CadFormat::Solidworks => "sldprt"@,
        CadFormat::Sat => "sat"@,
        CadFormat::Edrw => "edrw"@,
        CadFormat::Pdf => "pdf"@,
    }
}

/// The format that a catalog key names: the first of the formats, in the
/// order of their declaration, whose mark the key holds.
pub open spec fn format_of_key(key: Seq<char>) -> Option<CadFormat> {
    if has_substring(key, "DWG"@) {
        Some(CadFormat::Dwg)
    } else if has_substring(key, "STEP"@) {
        Some(CadFormat::Step)
    } else if has_substring(key, "DXF"@) {
        Some(CadFormat::Dxf)
    } else if has_substring(key, "IGES"@) {
        Some(CadFormat::Iges)
    } else if has_substring(key, "SLDPRT"@) || has_substring(key, "SLDDRW"@) || has_substring(
        key,
        "Solidworks"@,
    ) {
        Some(CadFormat::Solidworks)
    } else if has_substring(key, "SAT"@) {
        Some(CadFormat::Sat)
    } else if has_substring(key, "EDRW"@) {
        Some(CadFormat::Edrw)
    } else if has_substring(key, "PDF"@) {
        Some(CadFormat::Pdf)
    } else {
        None
    }
}

/// The format that a filter word names.
pub open spec fn format_of_filter(filter: Seq<char>) -> Option<CadFormat> {
    if filter == "dwg"@ {
        Some(CadFormat::Dwg)
    } else if filter == "step"@ {
        Some(CadFormat::Step)
    } else if filter == "dxf"@ {
        Some(CadFormat::Dxf)
    } else if filter == "iges"@ {
        Some(CadFormat::Iges)
    } else if filter == "solidworks"@ {
        Some(CadFormat::Solidworks)
    } else if filter == "sat"@ {
        Some(CadFormat::Sat)
    } else if filter == "edrw"@ {
        Some(CadFormat::Edrw)
    } else if filter == "pdf"@ {
        Some(CadFormat::Pdf)
    } else {
        None
    }
}

impl CadFormat {
    /// The format that a catalog key such as `2-D DWG` names.
    pub fn from_api_key(key: &str) -> (r: Option<Self>)
        ensures
            r == format_of_key(key@),
    {
        let k = chars_of(key);
        if contains(&k, "DWG") {
            Some(CadFormat::Dwg)
        } else if contains(&k, "STEP") {
            Some(CadFormat::Step)
        } else if contains(&k, "DXF") {
            Some(CadFormat::Dxf)
        } else if contains(&k, "IGES") {
            Some(CadFormat::Iges)
        } else if contains(&k, "SLDPRT") || contains(&k, "SLDDRW") || contains(&k, "Solidworks") {
            Some(CadFormat::Solidworks)
        } else if contains(&k, "SAT") {
            Some(CadFormat::Sat)
        } else if contains(&k, "EDRW") {
            Some(CadFormat::Edrw)
        } else if contains(&k, "PDF") {
            Some(CadFormat::Pdf)
        } else {
            None
        }
    }

    /// The extension of the files of this format.
    pub fn extension(&self) -> (r: &'static str)
        ensures
            r@ == extension_of(*self),
    {
        match self {
            CadFormat::Dwg => "dwg",
            CadFormat::Step => "step",
            CadFormat::Dxf => "dxf",
            CadFormat::Iges => "iges",
            CadFormat::Solidworks => "sldprt",
            CadFormat::Sat => "sat",
            CadFormat::Edrw => "edrw",
            CadFormat::Pdf => "pdf",
        }
    }

    /// Whether the filter word names this format.
    pub fn matches_filter(&self, filter: &str) -> (r: bool)
        ensures
            r == (format_of_filter(filter@) == Some(*self)),
    {
        let named = if str_eq(filter, "dwg") {
            Some(CadFormat::Dwg)
        } else if str_eq(filter, "step") {
            Some(CadFormat::Step)
        } else if str_eq(filter, "dxf") {
            Some(CadFormat::Dxf)
        } else if str_eq(filter, "iges") {
            Some(CadFormat::Iges)
        } else if str_eq(filter, "solidworks") {
            Some(CadFormat::Solidworks)
        } else if str_eq(filter, "sat") {
            Some(CadFormat::Sat)
        } else if str_eq(filter, "edrw") {
            Some(CadFormat::Edrw)
        } else if str_eq(filter, "pdf") {
            Some(CadFormat::Pdf)
        } else {
            None
        };
        match named {
            Some(format) => format == *self,
            None => false,
        }
    }
}

} // verus!
