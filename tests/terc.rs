use prg_convert::common::ConvertError;
use prg_convert::terc::{classify_code, composite_code, terc_mapping, TercBuilder, TercRow, UnitLevel};

fn row(woj: &str, pow: Option<&str>, gmi: Option<&str>, rodz: Option<&str>, nazwa: &str) -> TercRow {
    TercRow {
        woj: woj.to_string(),
        pow: pow.map(|s| s.to_string()),
        gmi: gmi.map(|s| s.to_string()),
        rodz: rodz.map(|s| s.to_string()),
        nazwa: nazwa.to_string(),
    }
}

#[test]
fn code_lengths_classify_units() {
    assert_eq!(classify_code("02"), Some(UnitLevel::Voivodeship));
    assert_eq!(classify_code("0201"), Some(UnitLevel::County));
    assert_eq!(classify_code("0201011"), Some(UnitLevel::Municipality));
    assert_eq!(classify_code("020"), None);
    assert_eq!(classify_code(""), None);
    assert_eq!(composite_code(&row("02", Some("01"), Some("01"), Some("1"), "x")), "0201011");
}

#[test]
fn municipality_composes_its_parents() {
    let mut t = TercBuilder::new();
    t.add_row(row("02", None, None, None, "DOLNOŚLĄSKIE")).ok().unwrap();
    t.add_row(row("02", Some("01"), None, None, "bolesławiecki")).ok().unwrap();
    t.add_row(row("02", Some("01"), Some("01"), Some("1"), "Bolesławiec")).ok().unwrap();
    let m = t.into_mapping();
    let k0201011 = m.get("0201011").unwrap();
    assert_eq!(k0201011.municipality_name, "Bolesławiec");
    assert_eq!(k0201011.county_teryt_id, "0201");
    assert_eq!(k0201011.county_name, "bolesławiecki");
    assert_eq!(k0201011.voivodeship_teryt_id, "02");
    assert_eq!(k0201011.voivodeship_name, "dolnośląskie");
}

#[test]
fn unknown_code_length_is_fatal() {
    let mut t = TercBuilder::new();
    match t.add_row(row("02", Some("0"), None, None, "x")) {
        Err(ConvertError::UnknownTerytCode { code }) => assert_eq!(code, "020"),
        _ => panic!("three-digit code accepted"),
    }
}

#[test]
fn municipality_without_county_is_fatal() {
    let mut t = TercBuilder::new();
    t.add_row(row("02", None, None, None, "X")).ok().unwrap();
    assert!(matches!(
        t.add_row(row("02", Some("01"), Some("01"), Some("1"), "Y")),
        Err(ConvertError::MissingParentUnit { .. })
    ));
}

#[test]
fn whole_table_mapping() {
    let rows = vec![
        row("02", None, None, None, "DOLNOŚLĄSKIE"),
        row("02", Some("01"), None, None, "bolesławiecki"),
        row("02", Some("01"), Some("01"), Some("1"), "Bolesławiec"),
        row("02", Some("01"), Some("02"), Some("2"), "Bolesławiec"),
        row("02", Some("02"), None, None, "dzierżoniowski"),
    ];
    let m = terc_mapping(rows).ok().unwrap();
    assert_eq!(m.len(), 2);
    let k = m.get("0201022").unwrap();
    assert_eq!(k.county_teryt_id, "0201");
    assert_eq!(k.voivodeship_teryt_id, "02");
    assert_eq!(k.voivodeship_name, "dolnośląskie");
    assert!(m.get("0202").is_none());
}

#[test]
fn whole_table_rejects_bad_rows() {
    let out_of_order = vec![row("02", Some("01"), Some("01"), Some("1"), "X"), row("02", None, None, None, "Y")];
    assert!(matches!(terc_mapping(out_of_order), Err(ConvertError::MissingParentUnit { .. })));
    let bad_length = vec![row("02", None, None, None, "Y"), row("0", None, None, None, "Z")];
    assert!(matches!(terc_mapping(bad_length), Err(ConvertError::UnknownTerytCode { .. })));
    assert_eq!(terc_mapping(Vec::new()).ok().unwrap().len(), 0);
}

#[test]
fn voivodeship_code_comes_from_the_code_prefix() {
    let mut t = TercBuilder::new();
    t.add_row(row("02", None, None, None, "X")).ok().unwrap();
    t.add_row(row("0", Some("201"), None, None, "c")).ok().unwrap();
    t.add_row(row("0", Some("201"), Some("011"), None, "m")).ok().unwrap();
    let m = t.into_mapping();
    assert_eq!(m.get("0201011").unwrap().voivodeship_teryt_id, "02");
}

#[test]
fn repeated_municipality_code_takes_the_last_row() {
    let rows = vec![
        row("02", None, None, None, "DOLNOŚLĄSKIE"),
        row("02", Some("01"), None, None, "bolesławiecki"),
        row("02", Some("01"), Some("01"), Some("1"), "Stara"),
        row("02", Some("01"), Some("01"), Some("1"), "Nowa"),
    ];
    let m = terc_mapping(rows).ok().unwrap();
    assert_eq!(m.len(), 1);
    assert_eq!(m.get("0201011").unwrap().municipality_name, "Nowa");
}
