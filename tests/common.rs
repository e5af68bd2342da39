use prg_convert::common::{get_attribute, is_decimal_literal, parse_gml_pos, Attribute};
use prg_convert::text::{split_tokens, trim};

#[test]
fn test_get_attribute_returns_value() {
    let xml = r#"<root attr="hello" key="value"/>"#;
    let mut reader = quick_xml::Reader::from_str(xml);
    reader.config_mut().expand_empty_elements = true;
    loop {
        match reader.read_event().unwrap() {
            quick_xml::events::Event::Start(e) => {
                let attrs: Vec<Attribute> = e
                    .attributes()
                    .map(|a| {
                        let a = a.unwrap();
                        Attribute {
                            key: a.key.as_ref().to_string(),
                            value: a.normalized_value(quick_xml::XmlVersion::Implicit1_0).unwrap().to_string(),
                        }
                    })
                    .collect();
                assert_eq!(get_attribute(&attrs, "attr"), Some("hello".to_string()));
                assert_eq!(get_attribute(&attrs, "key"), Some("value".to_string()));
                break;
            }
            quick_xml::events::Event::Eof => panic!("no element"),
            _ => {}
        }
    }
}

#[test]
fn get_attribute_missing_and_first_wins() {
    let attrs = vec![
        Attribute { key: "a".to_string(), value: "1".to_string() },
        Attribute { key: "a".to_string(), value: "2".to_string() },
    ];
    assert_eq!(get_attribute(&attrs, "a"), Some("1".to_string()));
    assert_eq!(get_attribute(&attrs, "b"), None);
}

#[test]
fn test_parse_gml_pos_empty() {
    let gml_pos = "";
    let coords = parse_gml_pos(gml_pos);
    assert!(coords.is_err());
}

#[test]
fn test_parse_gml_pos_1() {
    let gml_pos = "0.0";
    let coords = parse_gml_pos(gml_pos);
    assert!(coords.is_err());
}

#[test]
fn test_parse_gml_pos_3() {
    let gml_pos = "0.0 1.1 2.2";
    let coords = parse_gml_pos(gml_pos);
    assert!(coords.is_err());
}

#[test]
fn test_parse_gml_pos_nan() {
    let gml_pos = "NaN NaN";
    let coords = parse_gml_pos(gml_pos).ok().expect("NaN should have been parsed.");
    assert!(coords.is_none());
}

#[test]
fn parse_gml_pos_counts_tokens() {
    match parse_gml_pos("1 2 3") {
        Err(e) => assert_eq!(e.found, 3),
        Ok(_) => panic!("three tokens accepted"),
    }
}

#[test]
fn parse_gml_pos_two_numbers() {
    let p = parse_gml_pos("  512345.12\t\n612345.5e0 ").ok().unwrap().unwrap();
    assert_eq!(p.northing, "512345.12");
    assert_eq!(p.easting, "612345.5e0");
}

#[test]
fn parse_gml_pos_non_numbers_are_absent() {
    assert!(parse_gml_pos("NaN 1.0").ok().unwrap().is_none());
    assert!(parse_gml_pos("inf 1.0").ok().unwrap().is_none());
    assert!(parse_gml_pos("abc 1.0").ok().unwrap().is_none());
}

#[test]
fn decimal_literals() {
    for ok in ["0", "-1", "+2.5", ".5", "5.", "1e10", "1E-3", "-0.25e+2"] {
        assert!(is_decimal_literal(ok), "{}", ok);
    }
    for bad in ["", "-", ".", "e5", "1e", "1e+", "1.2.3", "NaN", "inf", "1x"] {
        assert!(!is_decimal_literal(bad), "{}", bad);
    }
}

#[test]
fn trim_and_tokens() {
    assert_eq!(trim("\u{a0} a b \n"), "a b");
    assert_eq!(trim("   "), "");
    assert_eq!(split_tokens(" a  bc\td "), vec!["a".to_string(), "bc".to_string(), "d".to_string()]);
    assert!(split_tokens("").is_empty());
}
