use mmcli::naming::converters::{convert_length_to_decimal, parse_fraction_to_decimal};

#[test]
fn test_simple_fractions() {
    // Test common simple fractions
    assert_eq!(convert_length_to_decimal("1/8\""), "0.125");
    assert_eq!(convert_length_to_decimal("1/4\""), "0.25");
    assert_eq!(convert_length_to_decimal("3/8\""), "0.375");
    assert_eq!(convert_length_to_decimal("1/2\""), "0.5");
    assert_eq!(convert_length_to_decimal("5/8\""), "0.625");
    assert_eq!(convert_length_to_decimal("3/4\""), "0.75");
    assert_eq!(convert_length_to_decimal("7/8\""), "0.875");
}

#[test]
fn test_sixteenths_fractions() {
    assert_eq!(convert_length_to_decimal("3/16\""), "0.1875");
    assert_eq!(convert_length_to_decimal("5/16\""), "0.3125");
    assert_eq!(convert_length_to_decimal("7/16\""), "0.4375");
    assert_eq!(convert_length_to_decimal("9/16\""), "0.5625");
    assert_eq!(convert_length_to_decimal("11/16\""), "0.6875");
    assert_eq!(convert_length_to_decimal("13/16\""), "0.8125");
    assert_eq!(convert_length_to_decimal("15/16\""), "0.9375");
}

#[test]
fn test_thirty_seconds_fractions() {
    assert_eq!(convert_length_to_decimal("13/32\""), "0.40625");
}

#[test]
fn test_mixed_numbers() {
    assert_eq!(convert_length_to_decimal("1-1/8\""), "1.125");
    assert_eq!(convert_length_to_decimal("1-1/4\""), "1.25");
    assert_eq!(convert_length_to_decimal("1-3/8\""), "1.375");
    assert_eq!(convert_length_to_decimal("1-1/2\""), "1.5");
    assert_eq!(convert_length_to_decimal("1-5/8\""), "1.625");
    assert_eq!(convert_length_to_decimal("1-3/4\""), "1.75");
    assert_eq!(convert_length_to_decimal("1-7/8\""), "1.875");
}

#[test]
fn test_two_inch_mixed_numbers() {
    assert_eq!(convert_length_to_decimal("2-1/8\""), "2.125");
    assert_eq!(convert_length_to_decimal("2-1/4\""), "2.25");
    assert_eq!(convert_length_to_decimal("2-3/8\""), "2.375");
    assert_eq!(convert_length_to_decimal("2-1/2\""), "2.5");
    assert_eq!(convert_length_to_decimal("2-5/8\""), "2.625");
    assert_eq!(convert_length_to_decimal("2-3/4\""), "2.75");
    assert_eq!(convert_length_to_decimal("2-7/8\""), "2.875");
}

#[test]
fn test_larger_mixed_numbers() {
    assert_eq!(convert_length_to_decimal("3-1/4\""), "3.25");
    assert_eq!(convert_length_to_decimal("3-1/2\""), "3.5");
    assert_eq!(convert_length_to_decimal("3-3/4\""), "3.75");
    assert_eq!(convert_length_to_decimal("4-1/2\""), "4.5");
    assert_eq!(convert_length_to_decimal("5-1/2\""), "5.5");
}

#[test]
fn test_whole_numbers() {
    assert_eq!(convert_length_to_decimal("1\""), "1");
    assert_eq!(convert_length_to_decimal("2\""), "2");
    assert_eq!(convert_length_to_decimal("3\""), "3");
    assert_eq!(convert_length_to_decimal("4\""), "4");
    assert_eq!(convert_length_to_decimal("5\""), "5");
    assert_eq!(convert_length_to_decimal("6\""), "6");
}

#[test]
fn test_space_format() {
    // Test space format (e.g., "2 3/8"") gets converted correctly
    assert_eq!(convert_length_to_decimal("2 3/8\""), "2.375");
    assert_eq!(convert_length_to_decimal("1 1/2\""), "1.5");
}

#[test]
fn test_metric_dimensions() {
    assert_eq!(convert_length_to_decimal("10mm"), "10");
    assert_eq!(convert_length_to_decimal("25.4mm"), "25.4");
    assert_eq!(convert_length_to_decimal("5mm"), "5");
}

#[test]
fn test_no_suffix() {
    assert_eq!(convert_length_to_decimal("10"), "10");
    assert_eq!(convert_length_to_decimal("5.5"), "5.5");
    assert_eq!(convert_length_to_decimal("test"), "test");
}

#[test]
fn test_edge_cases() {
    // Test unusual fractions that should still work
    assert_eq!(convert_length_to_decimal("7/64\""), "0.10938");
    assert_eq!(convert_length_to_decimal("21/64\""), "0.32812");
    
    // Test invalid fractions (should return cleaned input)
    assert_eq!(convert_length_to_decimal("invalid\""), "invalid");
    assert_eq!(convert_length_to_decimal("1/0\""), "1/0"); // Division by zero case
}

fn value(text: &str) -> Option<f64> {
    parse_fraction_to_decimal(text).map(|q| q.num as f64 / q.den as f64)
}

#[test]
fn test_parse_fraction_to_decimal() {
    assert_eq!(value("1/2"), Some(0.5));
    assert_eq!(value("3/4"), Some(0.75));
    assert_eq!(value("1-1/4"), Some(1.25));
    assert_eq!(value("2"), Some(2.0));
    assert_eq!(value("invalid"), None);
    assert_eq!(value("1/0"), None); // Division by zero
}

#[test]
fn fraction_table() {
    assert_eq!(convert_length_to_decimal("3/4\""), "0.75");
    assert_eq!(convert_length_to_decimal("1-3/8\""), "1.375");
    assert_eq!(convert_length_to_decimal("2\""), "2");
    assert_eq!(convert_length_to_decimal("10mm"), "10");
}

#[test]
fn decimals_with_inch_marks_are_normalized() {
    assert_eq!(convert_length_to_decimal("0.500\""), "0.5");
    assert_eq!(convert_length_to_decimal("1.0\""), "1");
    assert_eq!(convert_length_to_decimal(".25\""), "0.25");
    assert_eq!(convert_length_to_decimal("5.\""), "5");
    assert_eq!(convert_length_to_decimal("1.5-1/4\""), "1.75");
    assert_eq!(convert_length_to_decimal("1/0.5\""), "2");
    assert_eq!(convert_length_to_decimal("0\""), "0");
    assert_eq!(convert_length_to_decimal("12/4\""), "3");
}

#[test]
fn rounding_goes_to_five_places_half_to_even() {
    assert_eq!(convert_length_to_decimal("1/3\""), "0.33333");
    assert_eq!(convert_length_to_decimal("2/3\""), "0.66667");
    assert_eq!(convert_length_to_decimal("1/128\""), "0.00781");
    assert_eq!(convert_length_to_decimal("3/128\""), "0.02344");
    assert_eq!(convert_length_to_decimal("1/1000000\""), "0");
    assert_eq!(convert_length_to_decimal("999999/1000000\""), "1");
    assert_eq!(convert_length_to_decimal("9-999999/1000000\""), "10");
    assert_eq!(convert_length_to_decimal("1/200000\""), "0");
    assert_eq!(convert_length_to_decimal("3/200000\""), "0.00002");
    assert_eq!(convert_length_to_decimal("100-1/2\""), "100.5");
}

#[test]
fn what_is_no_number_stays() {
    assert_eq!(convert_length_to_decimal("\""), "");
    assert_eq!(convert_length_to_decimal("1/2/3\""), "1/2/3");
    assert_eq!(convert_length_to_decimal("1-2-3/4\""), "1-2-3/4");
    assert_eq!(convert_length_to_decimal("1-2\""), "1-2");
    assert_eq!(convert_length_to_decimal("-1/2\""), "-1/2");
    assert_eq!(convert_length_to_decimal("1 1 1/2\""), "1-1-1/2");
    assert_eq!(convert_length_to_decimal("1..5\""), "1..5");
    assert_eq!(convert_length_to_decimal(".\""), ".");
    assert_eq!(convert_length_to_decimal("1e3\""), "1e3");
    assert_eq!(convert_length_to_decimal("0.12345678912\""), "0.12345678912");
    assert_eq!(convert_length_to_decimal("123456789012\""), "123456789012");
    assert_eq!(convert_length_to_decimal("1-1/100000000000\""), "1-1/100000000000");
    assert_eq!(convert_length_to_decimal("0/0\""), "0/0");
    assert_eq!(convert_length_to_decimal("1/0.0\""), "1/0.0");
    assert_eq!(convert_length_to_decimal("3/4\" long"), "3/4-long");
}

#[test]
fn numerals_have_up_to_eleven_digits() {
    assert_eq!(convert_length_to_decimal("0.1234567891\""), "0.12346");
    assert_eq!(convert_length_to_decimal("12345678901\""), "12345678901");
    assert_eq!(convert_length_to_decimal("00000000000.5\""), "00000000000.5");
    assert_eq!(convert_length_to_decimal("0000000000.5\""), "0.5");
    assert_eq!(
        convert_length_to_decimal("99999999999-99999999999/0.0000000001\""),
        "1000000000089999999999"
    );
    assert_eq!(convert_length_to_decimal("99999999999-1/99999999999\""), "99999999999");
    assert_eq!(convert_length_to_decimal("1-99999999998/99999999999\""), "2");
    assert_eq!(convert_length_to_decimal("99999999999/0.0000000003\""), "333333333330000000000");
}

#[test]
fn millimetres_lose_their_unit() {
    assert_eq!(convert_length_to_decimal(" 10 mm "), "10");
    assert_eq!(convert_length_to_decimal("mm"), "");
    assert_eq!(convert_length_to_decimal("1/2 mm"), "1/2");
    assert_eq!(convert_length_to_decimal("10 MM"), "10 MM");
}

#[test]
fn fractions_are_read_exactly() {
    let q = parse_fraction_to_decimal("2-3/8").unwrap();
    assert_eq!((q.num, q.den), (19, 8));
    let q = parse_fraction_to_decimal("0.25").unwrap();
    assert_eq!((q.num, q.den), (25, 100));
    let q = parse_fraction_to_decimal("1.5/0.25").unwrap();
    assert_eq!((q.num, q.den), (1500, 250));
    assert!(parse_fraction_to_decimal("").is_none());
    assert!(parse_fraction_to_decimal("3/").is_none());
    assert!(parse_fraction_to_decimal("/4").is_none());
    assert!(parse_fraction_to_decimal("-3/4").is_none());
    assert!(parse_fraction_to_decimal("³/4").is_none());
}
