//! Addresses of the catalog and the links of a product.

use crate::models::api::{
    CadFile, CadFileView, CadFormat, format_of_filter, format_of_key, LinkItem, LinksView, LinkView,
    ProductLinks,
};
use crate::naming::converters::{decimal_text, push_decimal};
use crate::text::{
    append_str, chars_of, contains, has_prefix, has_substring, lowercase, slices, starts_with,
    str_eq, string_of, texts, to_lowercase, trim, trimmed,
};
use vstd::prelude::*;
use vstd::utf8::encode_utf8;

verus! {

/// A byte that stands for itself in a percent-encoded text: a letter, a
/// digit, or one of `-`, `.`, `_`, `~`.
pub open spec fn is_unreserved(b: u8) -> bool {
    (0x30 <= b <= 0x39) || (0x41 <= b <= 0x5a) || (0x61 <= b <= 0x7a) || b == 0x2d || b == 0x2e
        || b == 0x5f || b == 0x7e
}

/// The hexadecimal digit of a number below sixteen, in upper case.
pub open spec fn hex_digit(n: int) -> char {
    if n < 10 {
        (n + 48) as char
    } else {
        (n + 55) as char
    }
}

/// Bytes in percent encoding: an unreserved byte as its character, any
/// other byte as `%` and its two hexadecimal digits.
pub open spec fn percent_encoded(bytes: Seq<u8>) -> Seq<char>
    decreases bytes.len(),
{
    if bytes.len() == 0 {
        Seq::<char>::empty()
    } else if is_unreserved(bytes[0]) {
        seq![bytes[0] as char] + percent_encoded(bytes.drop_first())
    } else {
        seq!['%', hex_digit(bytes[0] as int / 16), hex_digit(bytes[0] as int % 16)]
            + percent_encoded(bytes.drop_first())
    }
}

/// `urlencoding::encode`: percent-encodes every byte of the UTF-8 form of
/// `s` except letters, digits, `-`, `.`, `_` and `~`, with upper-case
/// hexadecimal digits.
#[verifier::external_body]
fn percent_encode(s: &str) -> (r: String)
    ensures
        r@ == percent_encoded(encode_utf8(s@)),
{
    urlencoding::encode(s).into_owned()
}

/// The address under which the catalog serves a product.
pub open spec fn product_address(product: Seq<char>) -> Seq<char> {
    "https://api.mcmaster.com/v1/products/"@ + product
}

/// The address under which the catalog serves a product.
pub fn product_url(product: &str) -> (r: String)
    ensures
        r@ == product_address(product@),
{
    let mut out = chars_of("https://api.mcmaster.com/v1/products/");
    append_str(&mut out, product);
    string_of(&out)
}

/// The address under which the catalog serves the price of a product.
pub fn price_url(product: &str) -> (r: String)
    ensures
        r@ == product_address(product@) + "/price"@,
{
    let mut out = chars_of("https://api.mcmaster.com/v1/products/");
    append_str(&mut out, product);
    append_str(&mut out, "/price");
    string_of(&out)
}

/// The address of the page of a product, by which a subscription names it.
pub fn product_page_url(product: &str) -> (r: String)
    ensures
        r@ == "https://mcmaster.com/"@ + product@,
{
    let mut out = chars_of("https://mcmaster.com/");
    append_str(&mut out, product);
    string_of(&out)
}

/// The address under which the catalog lists the changes since a date; the
/// date is percent-encoded.
pub fn changes_url(start_date: &str) -> (r: String)
    ensures
        r@ == "https://api.mcmaster.com/v1/changes?start="@ + percent_encoded(
            encode_utf8(start_date@),
        ),
{
    let mut out = chars_of("https://api.mcmaster.com/v1/changes?start=");
    append_str(&mut out, percent_encode(start_date).as_str());
    string_of(&out)
}

/// The full address of a link: a link that begins with `/` is relative to
/// the catalog.
pub fn absolute_url(url: &str) -> (r: String)
    ensures
        r@ == if has_prefix(url@, "/"@) {
            "https://api.mcmaster.com"@ + url@
        } else {
            url@
        },
{
    let u = chars_of(url);
    if starts_with(&u, "/") {
        let mut out = chars_of("https://api.mcmaster.com");
        append_str(&mut out, url);
        string_of(&out)
    } else {
        url.to_string()
    }
}

/// The value of the `Authorization` header for a token.
pub fn bearer(token: &str) -> (r: String)
    ensures
        r@ == "Bearer "@ + token@,
{
    let mut out = chars_of("Bearer ");
    append_str(&mut out, token);
    string_of(&out)
}

/// The name of the file for download number `index`, counted from zero, of
/// `count`: the product and the extension, with the number of the download
/// between them where there are several.
pub open spec fn file_name(
    product: Seq<char>,
    index: nat,
    count: nat,
    extension: Seq<char>,
) -> Seq<char> {
    if count == 1 {
        product + "."@ + extension
    } else {
        product + "_"@ + decimal_text(index + 1) + "."@ + extension
    }
}

/// Names the file of a download.
pub fn download_file_name(product: &str, index: usize, count: usize, extension: &str) -> (r:
    String)
    ensures
        r@ == file_name(product@, index as nat, count as nat, extension@),
{
    let mut out = chars_of(product);
    if count != 1 {
        append_str(&mut out, "_");
        push_decimal(&mut out, index as u128 + 1);
    }
    append_str(&mut out, ".");
    append_str(&mut out, extension);
    string_of(&out)
}

/// Whether an answer to a yes-or-no question, trimmed and in lower case,
/// says yes: it is empty, `y` or `yes`.
pub open spec fn says_yes(answer: Seq<char>) -> bool {
    answer.len() == 0 || answer == "y"@ || answer == "yes"@
}

/// Whether a trimmed and lower-cased answer says yes.
pub fn affirms(answer_lower: &str) -> (r: bool)
    ensures
        r == says_yes(answer_lower@),
{
    answer_lower.is_empty() || str_eq(answer_lower, "y") || str_eq(answer_lower, "yes")
}

/// Whether the answer typed to a yes-or-no question says yes.
pub fn is_affirmative(answer: &str) -> (r: bool)
    ensures
        r == says_yes(lowercase(trimmed(answer@))),
{
    let answer_lower = to_lowercase(string_of(&trim(&chars_of(answer))).as_str());
    affirms(answer_lower.as_str())
}

/// The first `n` links sorted by what they lead to: images by the word
/// `Image` in the key, CAD files by the format that the key names, data
/// sheets by `Data Sheet` or `Datasheet`; other links are left out.
pub open spec fn sorted_among(links: Seq<LinkView>, n: int) -> LinksView
    decreases n,
{
    if n <= 0 || n > links.len() {
        LinksView {
            images: Seq::<Seq<char>>::empty(),
            cad: Seq::<CadFileView>::empty(),
            datasheets: Seq::<Seq<char>>::empty(),
        }
    } else {
        let before = sorted_among(links, n - 1);
        let link = links[n - 1];
        if has_substring(link.key, "Image"@) {
            LinksView { images: before.images.push(link.value), ..before }
        } else if format_of_key(link.key) is Some {
            LinksView {
                cad: before.cad.push(
                    CadFileView {
                        format: format_of_key(link.key)->0,
                        url: link.value,
                        key: link.key,
                    },
                ),
                ..before
            }
        } else if has_substring(link.key, "Data Sheet"@) || has_substring(link.key, "Datasheet"@) {
            LinksView { datasheets: before.datasheets.push(link.value), ..before }
        } else {
            before
        }
    }
}

/// The views of a list of links.
pub open spec fn link_views(v: Seq<LinkItem>) -> Seq<LinkView> {
    Seq::new(v.len(), |i: int| v[i]@)
}

/// Sorts the links of a product by what they lead to.
pub fn sort_links(links: &Vec<LinkItem>) -> (r: ProductLinks)
    ensures
        r@ == sorted_among(link_views(links@), links.len() as int),
{
    let mut images: Vec<String> = Vec::new();
    let mut cad: Vec<CadFile> = Vec::new();
    let mut datasheets: Vec<String> = Vec::new();
    let mut i: usize = 0;
    let ghost all = link_views(links@);
    assert((ProductLinks { images, cad, datasheets })@ =~= sorted_among(all, 0)) by {
        assert(texts(images@) =~= Seq::<Seq<char>>::empty());
        assert(texts(datasheets@) =~= Seq::<Seq<char>>::empty());
        assert(Seq::new(cad@.len(), |k: int| cad@[k]@) =~= Seq::<CadFileView>::empty());
    }
    while i < links.len()
        invariant
            i <= links.len(),
            all == link_views(links@),
            (ProductLinks { images, cad, datasheets })@ == sorted_among(all, i as int),
        decreases links.len() - i,
    {
        let link = &links[i];
        assert(link@ == all[i as int]);
        let key = chars_of(link.key.as_str());
        let ghost before = (ProductLinks { images, cad, datasheets })@;
        if contains(&key, "Image") {
            images.push(link.value.clone());
            assert(texts(images@) =~= before.images.push(link@.value));
        } else {
            match CadFormat::from_api_key(link.key.as_str()) {
                Some(format) => {
                    cad.push(CadFile { format, url: link.value.clone(), key: link.key.clone() });
                    assert(Seq::new(cad@.len(), |k: int| cad@[k]@) =~= before.cad.push(
                        CadFileView { format, url: link@.value, key: link@.key },
                    ));
                },
                None => {
                    if contains(&key, "Data Sheet") || contains(&key, "Datasheet") {
                        datasheets.push(link.value.clone());
                        assert(texts(datasheets@) =~= before.datasheets.push(link@.value));
                    }
                },
            }
        }
        i += 1;
    }
    ProductLinks { images, cad, datasheets }
}

/// Whether one of the filter words names the format.
pub open spec fn is_wanted(format: CadFormat, filters: Seq<Seq<char>>) -> bool {
    exists|j: int| 0 <= j < filters.len() && format_of_filter(#[trigger] filters[j]) == Some(format)
}

/// The positions, among the first `n` CAD files, of those whose format one
/// of the filter words names.
pub open spec fn wanted_among(cad: Seq<CadFileView>, filters: Seq<Seq<char>>, n: int) -> Seq<int>
    decreases n,
{
    if n <= 0 || n > cad.len() {
        Seq::<int>::empty()
    } else if is_wanted(cad[n - 1].format, filters) {
        wanted_among(cad, filters, n - 1).push(n - 1)
    } else {
        wanted_among(cad, filters, n - 1)
    }
}

/// The positions of the CAD files to download: all of them where all are
/// asked for or no format is named, else those of the named formats.
pub open spec fn selected_positions(
    cad: Seq<CadFileView>,
    filters: Seq<Seq<char>>,
    download_all: bool,
) -> Seq<int> {
    if download_all || filters.len() == 0 {
        Seq::new(cad.len(), |i: int| i)
    } else {
        wanted_among(cad, filters, cad.len() as int)
    }
}

/// The positions held in a list of indices.
pub open spec fn positions(v: Seq<usize>) -> Seq<int> {
    Seq::new(v.len(), |i: int| v[i] as int)
}

/// Selects the CAD files to download, by their positions in `cad`.
pub fn select_cad_files(cad: &Vec<CadFile>, formats: &Vec<&str>, download_all: bool) -> (r: Vec<
    usize,
>)
    ensures
        positions(r@) == selected_positions(
            Seq::new(cad@.len(), |i: int| cad@[i]@),
            slices(formats@),
            download_all,
        ),
        forall|k: int| 0 <= k < r.len() ==> r@[k] < cad.len(),
{
    let ghost files = Seq::new(cad@.len(), |i: int| cad@[i]@);
    let ghost filters = slices(formats@);
    let mut out: Vec<usize> = Vec::new();
    let everything = download_all || formats.len() == 0;
    let mut i: usize = 0;
    assert(positions(out@) =~= wanted_among(files, filters, 0));
    while i < cad.len()
        invariant
            i <= cad.len(),
            files == Seq::new(cad@.len(), |i: int| cad@[i]@),
            filters == slices(formats@),
            everything == (download_all || formats.len() == 0),
            forall|k: int| 0 <= k < out.len() ==> out@[k] < i,
            everything ==> positions(out@) == Seq::new(i as nat, |k: int| k),
            !everything ==> positions(out@) == wanted_among(files, filters, i as int),
        decreases cad.len() - i,
    {
        let mut wanted = everything;
        if !everything {
            let mut j: usize = 0;
            while j < formats.len() && !wanted
                invariant
                    j <= formats.len(),
                    i < cad.len(),
                    filters == slices(formats@),
                    files == Seq::new(cad@.len(), |i: int| cad@[i]@),
                    wanted ==> is_wanted(files[i as int].format, filters),
                    !wanted ==> forall|k: int|
                        0 <= k < j ==> format_of_filter(#[trigger] filters[k]) != Some(
                            files[i as int].format,
                        ),
                decreases formats.len() - j + if wanted {
                    0int
                } else {
                    1int
                },
            {
                if cad[i].format.matches_filter(formats[j]) {
                    assert(format_of_filter(filters[j as int]) == Some(files[i as int].format));
                    wanted = true;
                } else {
                    j += 1;
                }
            }
        }
        let ghost before = positions(out@);
        if wanted {
            out.push(i);
            assert(positions(out@) =~= before.push(i as int));
        }
        proof {
            if everything {
                assert(positions(out@) =~= Seq::new((i + 1) as nat, |k: int| k));
            }
        }
        i += 1;
    }
    out
}

} // verus!
