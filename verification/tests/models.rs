use mmcli::utils::output::{OutputFormat, ProductField};
use mmcli::CadFormat;

#[test]
fn cad_formats_are_told_from_keys() {
    assert_eq!(CadFormat::from_api_key("2-D DWG"), Some(CadFormat::Dwg));
    assert_eq!(CadFormat::from_api_key("3-D STEP"), Some(CadFormat::Step));
    assert_eq!(CadFormat::from_api_key("2-D DXF"), Some(CadFormat::Dxf));
    assert_eq!(CadFormat::from_api_key("3-D IGES"), Some(CadFormat::Iges));
    assert_eq!(CadFormat::from_api_key("3-D Solidworks"), Some(CadFormat::Solidworks));
    assert_eq!(CadFormat::from_api_key("3-D SLDPRT"), Some(CadFormat::Solidworks));
    assert_eq!(CadFormat::from_api_key("3-D SAT"), Some(CadFormat::Sat));
    assert_eq!(CadFormat::from_api_key("3-D EDRW"), Some(CadFormat::Edrw));
    assert_eq!(CadFormat::from_api_key("3-D PDF"), Some(CadFormat::Pdf));
    assert_eq!(CadFormat::from_api_key("DWG and PDF"), Some(CadFormat::Dwg));
    assert_eq!(CadFormat::from_api_key("dwg"), None);
    assert_eq!(CadFormat::from_api_key(""), None);
}

#[test]
fn cad_formats_match_their_filter() {
    assert!(CadFormat::Dwg.matches_filter("dwg"));
    assert!(CadFormat::Solidworks.matches_filter("solidworks"));
    assert!(CadFormat::Pdf.matches_filter("pdf"));
    assert!(!CadFormat::Pdf.matches_filter("dwg"));
    assert!(!CadFormat::Pdf.matches_filter("PDF"));
    assert!(!CadFormat::Step.matches_filter("stp"));
}

#[test]
fn field_lists_are_parsed() {
    assert_eq!(
        ProductField::parse_fields("all"),
        vec![
            ProductField::PartNumber,
            ProductField::DetailDescription,
            ProductField::FamilyDescription,
            ProductField::Category,
            ProductField::Status,
            ProductField::AllSpecs,
        ]
    );
    assert_eq!(ProductField::parse_fields("basic").len(), 5);
    assert_eq!(ProductField::parse_fields("specs"), vec![ProductField::AllSpecs]);
    assert_eq!(
        ProductField::parse_fields("part-number, family ,status,basic,specifications"),
        vec![
            ProductField::PartNumber,
            ProductField::FamilyDescription,
            ProductField::Status,
            ProductField::BasicInfo,
            ProductField::AllSpecs,
        ]
    );
    assert_eq!(
        ProductField::parse_fields("thread-size,for  screw-size, ßeta"),
        vec![
            ProductField::Specification("Thread Size".to_string()),
            ProductField::Specification("For Screw Size".to_string()),
            ProductField::Specification("SSeta".to_string()),
        ]
    );
    assert_eq!(ProductField::parse_fields(""), vec![ProductField::Specification(String::new())]);
    assert_eq!(
        ProductField::parse_fields("detail,"),
        vec![ProductField::DetailDescription, ProductField::Specification(String::new())]
    );
}

#[test]
fn output_formats_have_names() {
    assert_eq!(OutputFormat::Human.name(), "human");
    assert_eq!(OutputFormat::Json.name(), "json");
}
