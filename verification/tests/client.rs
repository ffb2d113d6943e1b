use mmcli::client::display::{show_field, show_product};
use mmcli::client::links::{
    absolute_url, affirms, bearer, changes_url, download_file_name, is_affirmative, price_url,
    product_page_url, product_url, select_cad_files, sort_links,
};
use mmcli::models::product::{ProductDetail, Specification};
use mmcli::{CadFile, CadFormat, LinkItem, ProductField};

fn link(key: &str, value: &str) -> LinkItem {
    LinkItem { key: key.to_string(), value: value.to_string() }
}

#[test]
fn addresses_are_built() {
    assert_eq!(product_url("91251A540"), "https://api.mcmaster.com/v1/products/91251A540");
    assert_eq!(price_url("91251A540"), "https://api.mcmaster.com/v1/products/91251A540/price");
    assert_eq!(product_page_url("91251A540"), "https://mcmaster.com/91251A540");
    assert_eq!(bearer("abc"), "Bearer abc");
    assert_eq!(absolute_url("/v1/images/1.png"), "https://api.mcmaster.com/v1/images/1.png");
    assert_eq!(absolute_url("https://example.com/a"), "https://example.com/a");
    assert_eq!(absolute_url(""), "");
}

#[test]
fn dates_are_percent_encoded() {
    assert_eq!(
        changes_url("01/01/2024 10:30"),
        "https://api.mcmaster.com/v1/changes?start=01%2F01%2F2024%2010%3A30"
    );
    assert_eq!(changes_url("aZ09-._~"), "https://api.mcmaster.com/v1/changes?start=aZ09-._~");
    assert_eq!(changes_url("é+"), "https://api.mcmaster.com/v1/changes?start=%C3%A9%2B");
    assert_eq!(changes_url(""), "https://api.mcmaster.com/v1/changes?start=");
}

#[test]
fn downloads_are_named() {
    assert_eq!(download_file_name("91251A540", 0, 1, "jpg"), "91251A540.jpg");
    assert_eq!(download_file_name("91251A540", 0, 3, "jpg"), "91251A540_1.jpg");
    assert_eq!(download_file_name("91251A540", 11, 12, "pdf"), "91251A540_12.pdf");
    assert_eq!(download_file_name("91251A540", 0, 0, "pdf"), "91251A540_1.pdf");
    assert_eq!(download_file_name("p", usize::MAX, 2, "x"), format!("p_{}.x", usize::MAX as u128 + 1));
}

#[test]
fn answers_are_understood() {
    assert!(is_affirmative("\n"));
    assert!(is_affirmative(" Y \n"));
    assert!(is_affirmative("yes"));
    assert!(is_affirmative("YES"));
    assert!(!is_affirmative("n"));
    assert!(!is_affirmative("yes please"));
    assert!(affirms(""));
    assert!(!affirms("Y"));
}

#[test]
fn links_are_sorted() {
    let links = vec![
        link("Image", "/img/1"),
        link("2-D DWG", "/cad/1"),
        link("Data Sheet", "/doc/1"),
        link("3-D PDF", "/cad/2"),
        link("Datasheet (German)", "/doc/2"),
        link("Price", "/price"),
        link("Image of DWG", "/img/2"),
        link("3-D Solidworks", "/cad/3"),
    ];
    let sorted = sort_links(&links);
    assert_eq!(sorted.images, vec!["/img/1", "/img/2"]);
    assert_eq!(sorted.datasheets, vec!["/doc/1", "/doc/2"]);
    let cad: Vec<(CadFormat, &str, &str)> =
        sorted.cad.iter().map(|f| (f.format, f.url.as_str(), f.key.as_str())).collect();
    assert_eq!(
        cad,
        vec![
            (CadFormat::Dwg, "/cad/1", "2-D DWG"),
            (CadFormat::Pdf, "/cad/2", "3-D PDF"),
            (CadFormat::Solidworks, "/cad/3", "3-D Solidworks"),
        ]
    );
    let none = sort_links(&vec![]);
    assert!(none.images.is_empty() && none.cad.is_empty() && none.datasheets.is_empty());
}

#[test]
fn cad_files_are_selected() {
    let file = |format: CadFormat| CadFile { format, url: String::new(), key: String::new() };
    let cad = vec![file(CadFormat::Dwg), file(CadFormat::Step), file(CadFormat::Pdf), file(CadFormat::Step)];
    assert_eq!(select_cad_files(&cad, &vec!["step"], false), vec![1, 3]);
    assert_eq!(select_cad_files(&cad, &vec!["pdf", "dwg"], false), vec![0, 2]);
    assert_eq!(select_cad_files(&cad, &vec!["iges", "STEP"], false), Vec::<usize>::new());
    assert_eq!(select_cad_files(&cad, &vec![], false), vec![0, 1, 2, 3]);
    assert_eq!(select_cad_files(&cad, &vec!["step"], true), vec![0, 1, 2, 3]);
    assert_eq!(select_cad_files(&vec![], &vec!["step"], false), Vec::<usize>::new());
    assert_eq!(CadFormat::Solidworks.extension(), "sldprt");
    assert_eq!(CadFormat::Step.extension(), "step");
}

fn product() -> ProductDetail {
    ProductDetail {
        part_number: "91251A540".to_string(),
        detail_description: "Button Head Screw".to_string(),
        family_description: "Screws".to_string(),
        product_category: "Fasteners".to_string(),
        product_status: "Active".to_string(),
        specifications: vec![
            Specification { attribute: "Material".to_string(), values: vec!["Steel".to_string()] },
            Specification {
                attribute: "Thread Size".to_string(),
                values: vec!["1/4\"-20".to_string(), "M6".to_string()],
            },
        ],
    }
}

#[test]
fn products_are_shown() {
    let p = product();
    assert_eq!(
        show_product(&p, "all"),
        vec![
            "📦 Part Number: 91251A540",
            "📝 Description: Button Head Screw",
            "🏷️ Family: Screws",
            "📂 Category: Fasteners",
            "🔄 Status: Active",
            "🔧 Specifications:",
            "  • Material: Steel",
            "  • Thread Size: 1/4\"-20, M6",
        ]
    );
    assert_eq!(
        show_product(&p, "thread-size, status,length,basic").len(),
        1 + 1 + 0 + 5
    );
    assert_eq!(show_product(&p, "thread-size")[0], "🔧 Thread Size: 1/4\"-20, M6");
    assert_eq!(show_field(&p, &ProductField::Specification("MATERIAL".to_string())), vec!["🔧 Material: Steel"]);
    assert!(show_field(&p, &ProductField::Specification("Finish".to_string())).is_empty());
    assert_eq!(show_field(&p, &ProductField::AllSpecs).len(), 3);
}
