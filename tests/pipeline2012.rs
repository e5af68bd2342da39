use prg_convert::batch::{Batch, Step};
use prg_convert::common::{Attribute, ConvertError, XmlEvent};
use prg_convert::model2012::{AdditionalInfo, AddressParser2012, DictBuilder2012, KomponentType};

fn start(name: &str, attrs: &[(&str, &str)]) -> XmlEvent {
    XmlEvent::Start {
        name: name.to_string(),
        attributes: attrs
            .iter()
            .map(|(k, v)| Attribute { key: k.to_string(), value: v.to_string() })
            .collect(),
    }
}

fn text(t: &str) -> XmlEvent {
    XmlEvent::Text(t.to_string())
}

fn end(name: &str) -> XmlEvent {
    XmlEvent::End(name.to_string())
}

fn leaf(name: &str, value: &str) -> Vec<XmlEvent> {
    vec![start(name, &[]), text(value), end(name), text("\n  ")]
}

fn definitions() -> Vec<XmlEvent> {
    let mut ev = vec![start("gml:FeatureCollection", &[])];
    ev.push(start("prg-ad:PRG_JednostkaAdministracyjnaNazwa", &[("gml:id", "PL.PZGIK.200_1")]));
    ev.extend(leaf("prg-ad:nazwa", " lubuskie "));
    ev.extend(leaf("prg-ad:idTERYT", "08"));
    ev.extend(leaf("prg-ad:poziom", "2poziom"));
    ev.push(end("prg-ad:PRG_JednostkaAdministracyjnaNazwa"));
    ev.push(start("prg-ad:PRG_MiejscowoscNazwa", &[("gml:id", "C_1")]));
    ev.extend(leaf("prg-ad:nazwa", "Konotop"));
    ev.extend(leaf("prg-ad:idTERYT", "0910140"));
    ev.push(end("prg-ad:PRG_MiejscowoscNazwa"));
    ev.push(start("prg-ad:PRG_UlicaNazwa", &[("gml:id", "S_1")]));
    ev.extend(leaf("mua:przedrostek1Czesc", ""));
    ev.extend(leaf("mua:nazwaGlownaCzesc", "Podgórna"));
    ev.extend(leaf("mua:idTERYT", "16742"));
    ev.push(end("prg-ad:PRG_UlicaNazwa"));
    ev.push(end("gml:FeatureCollection"));
    ev
}

fn feed_all(events: Vec<XmlEvent>) -> Result<DictBuilder2012, ConvertError> {
    let mut b = DictBuilder2012::new();
    for e in events {
        b.feed(e)?;
    }
    Ok(b)
}

fn build_error(events: Vec<XmlEvent>) -> Option<ConvertError> {
    match feed_all(events) {
        Err(e) => Some(e),
        Ok(b) => b.finish().err(),
    }
}

fn new_parser(batch_size: usize) -> AddressParser2012 {
    let dict = feed_all(definitions()).ok().unwrap().finish().ok().unwrap();
    AddressParser2012::new(dict, batch_size)
}

fn entry_check(dict_key: &str, check: impl Fn(&AdditionalInfo)) {
    let dict = feed_all(definitions()).ok().unwrap().finish().ok().unwrap();
    check(dict.get(dict_key).unwrap());
}

fn address(id: &str, pos: &str) -> Vec<XmlEvent> {
    let mut ev = vec![start("prg-ad:PRG_PunktAdresowy", &[("gml:id", id)]), text("\n")];
    ev.push(start("prg-ad:idIIP", &[]));
    ev.push(text("\n"));
    ev.push(start("bt:BT_Identyfikator", &[]));
    ev.push(text("\n"));
    ev.extend(leaf("bt:lokalnyId", id));
    ev.extend(leaf("bt:przestrzenNazw", "PL.ZIPIN"));
    ev.extend(leaf("bt:wersjaId", "2020-05-01T10:00:00+02:00"));
    ev.push(end("bt:BT_Identyfikator"));
    ev.push(end("prg-ad:idIIP"));
    ev.extend(leaf("prg-ad:waznyOd", "1970-01-11"));
    ev.extend(leaf("prg-ad:jednostkaAdmnistracyjna", "POLSKA"));
    ev.extend(leaf("prg-ad:jednostkaAdmnistracyjna", "lubuskie"));
    ev.extend(leaf("prg-ad:jednostkaAdmnistracyjna", "nowosolski"));
    ev.extend(leaf("prg-ad:jednostkaAdmnistracyjna", "Kolsko"));
    ev.extend(leaf("prg-ad:miejscowosc", "Konotop"));
    ev.extend(leaf("prg-ad:ulica", ""));
    ev.extend(leaf("prg-ad:numerPorzadkowy", "12A"));
    ev.push(start("prg-ad:komponent", &[("xlink:href", "http://geoportal.gov.pl/PZGIK/dane/PL.PZGIK.200_1")]));
    ev.push(end("prg-ad:komponent"));
    ev.push(start("prg-ad:komponent", &[("xlink:href", "http://geoportal.gov.pl/PZGIK/dane/S_1")]));
    ev.push(end("prg-ad:komponent"));
    ev.push(start("prg-ad:komponent", &[("xlink:href", "http://elsewhere/unknown")]));
    ev.push(end("prg-ad:komponent"));
    ev.push(start("prg-ad:pozycja", &[]));
    ev.push(start("gml:Point", &[]));
    ev.extend(leaf("gml:pos", pos));
    ev.push(end("gml:Point"));
    ev.push(end("prg-ad:pozycja"));
    ev.push(end("prg-ad:PRG_PunktAdresowy"));
    ev.push(text("\n"));
    ev
}

fn assert_columns_equal(b: &Batch, n: usize) {
    let lens = [
        b.id_namespace.len(),
        b.local_id.len(),
        b.version.len(),
        b.lifecycle_start.len(),
        b.valid_from.len(),
        b.valid_to.len(),
        b.voivodeship_teryt.len(),
        b.voivodeship.len(),
        b.county_teryt.len(),
        b.county.len(),
        b.municipality_teryt.len(),
        b.municipality.len(),
        b.city_teryt.len(),
        b.city.len(),
        b.city_part.len(),
        b.street_teryt.len(),
        b.street.len(),
        b.house_number.len(),
        b.postcode.len(),
        b.status.len(),
        b.position.len(),
    ];
    for l in lens {
        assert_eq!(l, n);
    }
}

fn run(p: &mut AddressParser2012, events: Vec<XmlEvent>) -> Vec<Batch> {
    let mut out = Vec::new();
    for e in events {
        match p.feed(e).ok().expect("event rejected") {
            Step::Batch(b) => out.push(b),
            _ => {}
        }
    }
    out
}

#[test]
fn dictionary_2012_entries() {
    entry_check("http://geoportal.gov.pl/PZGIK/dane/PL.PZGIK.200_1", |voiv| {
        assert_eq!(voiv.typ, KomponentType::Voivodeship);
        assert_eq!(voiv.name, "lubuskie");
        assert_eq!(voiv.teryt_id, Some("08".to_string()));
    });
    entry_check("http://geoportal.gov.pl/PZGIK/dane/C_1", |city| {
        assert_eq!(city.typ, KomponentType::City);
        assert_eq!(city.name, "Konotop");
    });
    entry_check("http://geoportal.gov.pl/PZGIK/dane/S_1", |street| {
        assert_eq!(street.typ, KomponentType::Street);
        assert_eq!(street.name, "Podgórna");
        assert_eq!(street.teryt_id, Some("16742".to_string()));
    });
}

#[test]
fn dictionary_2012_unknown_level_is_fatal() {
    let ev = vec![
        start("prg-ad:PRG_JednostkaAdministracyjnaNazwa", &[("gml:id", "X")]),
        start("prg-ad:poziom", &[]),
        text("5poziom"),
    ];
    assert!(matches!(build_error(ev), Some(ConvertError::UnknownLevel { .. })));
}

#[test]
fn dictionary_2012_missing_parts() {
    let no_level = vec![
        start("prg-ad:PRG_JednostkaAdministracyjnaNazwa", &[("gml:id", "X")]),
        start("prg-ad:nazwa", &[]),
        text("a"),
        end("prg-ad:nazwa"),
        end("prg-ad:PRG_JednostkaAdministracyjnaNazwa"),
    ];
    assert!(matches!(build_error(no_level), Some(ConvertError::MissingKind { .. })));
    let no_name = vec![start("prg-ad:PRG_MiejscowoscNazwa", &[("gml:id", "X")]), end("prg-ad:PRG_MiejscowoscNazwa")];
    assert!(matches!(build_error(no_name), Some(ConvertError::MissingName { .. })));
    let no_id = vec![start("prg-ad:PRG_MiejscowoscNazwa", &[])];
    assert!(matches!(build_error(no_id), Some(ConvertError::MissingAttribute { .. })));
    let truncated = vec![start("prg-ad:PRG_MiejscowoscNazwa", &[("gml:id", "X")])];
    assert!(matches!(build_error(truncated), Some(ConvertError::UnexpectedEnd)));
}

#[test]
fn address_2012_record_fields() {
    let mut parser = new_parser(10);
    assert!(run(&mut parser, address("a1", "512345.5 612345.25")).is_empty());
    let b = parser.finish().ok().unwrap().unwrap();
    assert_columns_equal(&b, 1);
    assert_eq!(b.local_id[0], Some("a1".to_string()));
    assert_eq!(b.id_namespace[0], Some("PL.ZIPIN".to_string()));
    assert_eq!(b.version[0], Some(1588320000000));
    assert_eq!(b.valid_from[0], Some(10));
    assert_eq!(b.valid_to[0], None);
    assert_eq!(b.voivodeship[0], Some("lubuskie".to_string()));
    assert_eq!(b.county[0], Some("nowosolski".to_string()));
    assert_eq!(b.municipality[0], Some("Kolsko".to_string()));
    assert_eq!(b.voivodeship_teryt[0], Some("08".to_string()));
    assert_eq!(b.street_teryt[0], Some("16742".to_string()));
    assert_eq!(b.city_teryt[0], None);
    assert_eq!(b.city[0], Some("Konotop".to_string()));
    assert_eq!(b.street[0], None);
    assert_eq!(b.house_number[0], Some("12A".to_string()));
    let p = b.position[0].as_ref().unwrap();
    assert_eq!(p.northing, "512345.5");
    assert_eq!(p.easting, "612345.25");
}

#[test]
fn address_2012_nan_position_is_one_null_row() {
    let mut parser = new_parser(10);
    run(&mut parser, address("a1", "NaN NaN"));
    let b = parser.finish().ok().unwrap().unwrap();
    assert_columns_equal(&b, 1);
    assert!(b.position[0].is_none());
}

#[test]
fn address_2012_bad_position_is_fatal() {
    let mut parser = new_parser(10);
    let mut failed = None;
    for e in address("a1", "1.0 2.0 3.0") {
        if let Err(err) = parser.feed(e) {
            failed = Some(err);
            break;
        }
    }
    assert!(matches!(failed, Some(ConvertError::BadPosition { found: 3 })));
}

#[test]
fn address_2012_fifth_unit_and_bad_timestamp_are_fatal() {
    let mut parser = new_parser(10);
    parser.feed(start("prg-ad:PRG_PunktAdresowy", &[])).ok().unwrap();
    let mut err = None;
    for _ in 0..5 {
        for e in leaf("prg-ad:jednostkaAdmnistracyjna", "x") {
            if let Err(x) = parser.feed(e) {
                err = Some(x);
            }
        }
    }
    assert!(matches!(err, Some(ConvertError::TooManyAdministrativeUnits)));
    let mut parser = new_parser(10);
    parser.feed(start("prg-ad:PRG_PunktAdresowy", &[])).ok().unwrap();
    parser.feed(start("bt:wersjaId", &[])).ok().unwrap();
    assert!(matches!(parser.feed(text("yesterday")), Err(ConvertError::BadTimestamp { .. })));
    parser.feed(start("prg-ad:waznyOd", &[])).ok().unwrap();
    assert!(matches!(parser.feed(text("2020-13-45")), Err(ConvertError::BadDate { .. })));
}

#[test]
fn address_2012_unknown_element_is_reported() {
    let mut parser = new_parser(10);
    parser.feed(start("prg-ad:PRG_PunktAdresowy", &[])).ok().unwrap();
    parser.feed(start("prg-ad:cosInnego", &[])).ok().unwrap();
    match parser.feed(text("x")) {
        Ok(Step::UnknownElement(name)) => assert_eq!(name, "prg-ad:cosInnego"),
        _ => panic!("unknown element not reported"),
    }
    assert!(matches!(parser.finish(), Err(ConvertError::UnexpectedEnd)));
}

#[test]
fn batches_flush_at_batch_size() {
    let mut parser = new_parser(2);
    let mut batches = Vec::new();
    for i in 0..5 {
        let before = batches.len();
        batches.extend(run(&mut parser, address(&format!("a{}", i), "1 2")));
        // a batch comes out exactly at the second and fourth record
        assert_eq!(batches.len() - before, if i % 2 == 1 { 1 } else { 0 });
    }
    assert_eq!(batches.len(), 2);
    for b in &batches {
        assert_columns_equal(b, 2);
    }
    assert_eq!(batches[1].local_id[1], Some("a3".to_string()));
    let last = parser.finish().ok().unwrap().unwrap();
    assert_columns_equal(&last, 1);
    assert_eq!(last.local_id[0], Some("a4".to_string()));
    assert!(parser.finish().ok().unwrap().is_none());
}

#[test]
fn no_records_no_batches() {
    let mut parser = new_parser(3);
    assert!(run(&mut parser, definitions()).is_empty());
    assert!(parser.finish().ok().unwrap().is_none());
}
