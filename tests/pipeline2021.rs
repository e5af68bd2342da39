use prg_convert::batch::Step;
use prg_convert::common::{Attribute, ConvertError, XmlEvent};
use prg_convert::model2021::{city_type, AddressParser2021, DictBuilder2021, Mappings};
use prg_convert::terc::{TercBuilder, TercRow};

fn start(name: &str, attrs: &[(&str, &str)]) -> XmlEvent {
    XmlEvent::Start {
        name: name.to_string(),
        attributes: attrs
            .iter()
            .map(|(k, v)| Attribute { key: k.to_string(), value: v.to_string() })
            .collect(),
    }
}

fn text(t: &str) -> XmlEvent {
    XmlEvent::Text(t.to_string())
}

fn end(name: &str) -> XmlEvent {
    XmlEvent::End(name.to_string())
}

fn leaf(name: &str, value: &str) -> Vec<XmlEvent> {
    vec![start(name, &[]), text(value), end(name), text("\n")]
}

fn row(woj: &str, pow: Option<&str>, gmi: Option<&str>, rodz: Option<&str>, nazwa: &str) -> TercRow {
    TercRow {
        woj: woj.to_string(),
        pow: pow.map(|s| s.to_string()),
        gmi: gmi.map(|s| s.to_string()),
        rodz: rodz.map(|s| s.to_string()),
        nazwa: nazwa.to_string(),
    }
}

fn definitions() -> Vec<XmlEvent> {
    let mut ev = vec![start("prgad:AD_Miejscowosc", &[("gml:id", "M1")])];
    ev.extend(leaf("prg-ad:nazwa", "Bolesławiec"));
    ev.extend(leaf("prgad:rodzaj", "96"));
    ev.extend(leaf("prgad:identyfikatorSIMC", "0935980"));
    ev.extend(leaf("prgad:TERYTGminy", "0201011"));
    ev.push(end("prgad:AD_Miejscowosc"));
    ev.push(start("prgad:AD_Miejscowosc", &[("gml:id", "M2")]));
    ev.extend(leaf("prg-ad:nazwa", "Nigdzie"));
    ev.extend(leaf("prgad:TERYTGminy", "9999999"));
    ev.push(end("prgad:AD_Miejscowosc"));
    ev.push(start("prgad:AD_UlicaPlac", &[("gml:id", "U1")]));
    ev.extend(leaf("prgad:rodzaj", "3"));
    ev.extend(leaf("prgad:identyfikatorULIC", "12345"));
    ev.extend(leaf("prgad:TERYTNazwa1", "Ratuszowy"));
    ev.push(end("prgad:AD_UlicaPlac"));
    ev
}

fn mappings() -> Mappings {
    let mut b = DictBuilder2021::new();
    for e in definitions() {
        b.feed(e).ok().unwrap();
    }
    b.finish().ok().unwrap()
}

fn units() -> TercBuilder {
    let mut t = TercBuilder::new();
    t.add_row(row("02", None, None, None, "DOLNOŚLĄSKIE")).ok().unwrap();
    t.add_row(row("02", Some("01"), None, None, "bolesławiecki")).ok().unwrap();
    t.add_row(row("02", Some("01"), Some("01"), Some("1"), "Bolesławiec")).ok().unwrap();
    t
}

fn address(city: &str, pos: &str) -> Vec<XmlEvent> {
    let mut ev = vec![start("prgad:AD_PunktAdresowy", &[("gml:id", "A")]), text("\n")];
    ev.push(start("prgad:idIIP", &[]));
    ev.push(start("prgad:AD_IdentyfikatorIIP", &[]));
    ev.extend(leaf("prgad:lokalnyId", "uuid-1"));
    ev.extend(leaf("prgad:przestrzenNazw", "PL.PZGiK.994.EMUiA"));
    ev.extend(leaf("prgad:wersjaId", "2021-01-01T00:00:00Z"));
    ev.push(end("prgad:AD_IdentyfikatorIIP"));
    ev.push(end("prgad:idIIP"));
    ev.extend(leaf("prgad:poczatekWersjiObiektu", "1970-01-01T02:00:01"));
    ev.extend(leaf("prgad:dataNadania", "1970-01-03"));
    ev.push(start("prgad:miejscowosc", &[("xlink:href", city)]));
    ev.push(end("prgad:miejscowosc"));
    ev.push(start("prgad:ulica2", &[("xlink:href", "#U1")]));
    ev.push(end("prgad:ulica2"));
    ev.extend(leaf("prgad:numerPorzadkowy", "7"));
    ev.extend(leaf("prgad:kodPocztowy", "59-700"));
    ev.push(start("prgad:georeferencja", &[]));
    ev.push(start("gml:Point", &[]));
    ev.extend(leaf("gml:pos", pos));
    ev.push(end("gml:Point"));
    ev.push(end("prgad:georeferencja"));
    ev.push(end("prgad:AD_PunktAdresowy"));
    ev
}

#[test]
fn dictionary_2021_street_name_from_type() {
    let m = mappings();
    let s = m.street.get("U1").unwrap();
    assert_eq!(s.name, "plac Ratuszowy");
    assert_eq!(s.teryt_id, Some("12345".to_string()));
    let c = m.city.get("M1").unwrap();
    assert_eq!(c.kind, "miasto");
    assert_eq!(c.municipality_teryt_id, "0201011");
    assert_eq!(c.city_teryt_id, Some("0935980".to_string()));
}

#[test]
fn dictionary_2021_unnamed_street_is_fatal() {
    let mut b = DictBuilder2021::new();
    b.feed(start("prgad:AD_UlicaPlac", &[("gml:id", "U9")])).ok().unwrap();
    for e in leaf("prgad:TERYTNazwa1", "Ratuszowy") {
        b.feed(e).ok().unwrap();
    }
    assert!(matches!(b.feed(end("prgad:AD_UlicaPlac")), Err(ConvertError::UnnamedStreet { .. })));
}

#[test]
fn city_types() {
    assert_eq!(city_type("01"), "wieś");
    assert_eq!(city_type("99"), "część miasta");
    assert_eq!(city_type("zz"), "");
}

#[test]
fn address_2021_enriched_record() {
    let mut p = AddressParser2021::new(mappings(), units().into_mapping(), 5);
    for e in address("#M1", "NaN NaN") {
        assert!(matches!(p.feed(e), Ok(Step::Nothing)));
    }
    let b = p.finish().ok().unwrap().unwrap();
    assert_eq!(b.local_id, vec![Some("uuid-1".to_string())]);
    assert_eq!(b.version, vec![Some(1609459200000)]);
    assert_eq!(b.lifecycle_start, vec![Some(1000)]);
    assert_eq!(b.valid_from, vec![Some(2)]);
    assert_eq!(b.city, vec![Some("Bolesławiec".to_string())]);
    assert_eq!(b.municipality_teryt, vec![Some("0201011".to_string())]);
    assert_eq!(b.voivodeship, vec![Some("dolnośląskie".to_string())]);
    assert_eq!(b.voivodeship_teryt, vec![Some("02".to_string())]);
    assert_eq!(b.county_teryt, vec![Some("0201".to_string())]);
    assert_eq!(b.county, vec![Some("bolesławiecki".to_string())]);
    assert_eq!(b.municipality, vec![Some("Bolesławiec".to_string())]);
    assert_eq!(b.street, vec![Some("plac Ratuszowy".to_string())]);
    assert_eq!(b.street_teryt, vec![Some("12345".to_string())]);
    assert_eq!(b.postcode, vec![Some("59-700".to_string())]);
    assert_eq!(b.status, vec![None]);
    assert_eq!(b.city_part, vec![None]);
    assert_eq!(b.position.len(), 1);
    assert!(b.position[0].is_none());
}

#[test]
fn address_2021_unknown_municipality_is_reported() {
    let mut p = AddressParser2021::new(mappings(), units().into_mapping(), 5);
    let mut reported = Vec::new();
    for e in address("#M2", "1 2") {
        if let Ok(Step::UnknownMunicipality(code)) = p.feed(e) {
            reported.push(code);
        }
    }
    assert_eq!(reported, vec!["9999999".to_string()]);
    let b = p.finish().ok().unwrap().unwrap();
    assert_eq!(b.city, vec![Some("Nigdzie".to_string())]);
    assert_eq!(b.voivodeship, vec![None]);
}

#[test]
fn address_2021_batches() {
    let mut p = AddressParser2021::new(mappings(), units().into_mapping(), 1);
    let mut n = 0;
    for _ in 0..3 {
        for e in address("#M1", "1 2") {
            if let Ok(Step::Batch(b)) = p.feed(e) {
                assert_eq!(b.local_id.len(), 1);
                assert_eq!(b.position.len(), 1);
                n += 1;
            }
        }
    }
    assert_eq!(n, 3);
    assert!(p.finish().ok().unwrap().is_none());
}

#[test]
fn address_2021_missing_reference_attribute() {
    let mut p = AddressParser2021::new(mappings(), units().into_mapping(), 5);
    p.feed(start("prgad:AD_PunktAdresowy", &[])).ok().unwrap();
    assert!(matches!(p.feed(start("prgad:ulica2", &[])), Err(ConvertError::MissingAttribute { .. })));
}
