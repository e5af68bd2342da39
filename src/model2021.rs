//! The 2021 schema: dictionaries of cities and streets, street names made from
//! a type and name parts, and address records completed from the national
//! table of administrative units.
use vstd::prelude::*;
use vstd::hash_map::StringHashMap;
use crate::batch::{AddressRecord, Batch, BatchAccumulator, Step};
use crate::common::{
    attr_value, clone_opt, get_attribute, nonempty, nonempty_or_none, opt_view, parse_gml_pos,
    ConvertError, XmlEvent,
};
use crate::dates::{
    date_days, date_epoch_days, local_datetime_millis, lower_of, lowercase,
    naive_datetime_millis, rfc3339_instant_millis, rfc3339_millis, shift_west, DATE_FORMAT,
    LOCAL_DATETIME_FORMAT, LOCAL_OFFSET_MILLIS,
};
use crate::model2012::position_of;
use crate::terc::Terc;
use crate::text::{has_prefix, join_nonempty, push_fragment, starts_with, str_eq, tokens, trim, trimmed};
use crate::tracker::{TagRole, TagTracker};

verus! {

pub const CITY_TAG: &'static str = "prgad:AD_Miejscowosc";
pub const STREET_TAG: &'static str = "prgad:AD_UlicaPlac";
pub const ADDRESS_TAG: &'static str = "prgad:AD_PunktAdresowy";

pub const ID_ATTRIBUTE: &'static str = "gml:id";
pub const HREF_ATTRIBUTE: &'static str = "xlink:href";

pub const CITY_NAME: &'static str = "prg-ad:nazwa";
pub const KIND: &'static str = "prgad:rodzaj";
pub const CITY_ID: &'static str = "prgad:identyfikatorSIMC";
pub const MUNICIPALITY_ID: &'static str = "prgad:TERYTGminy";
pub const STREET_ID: &'static str = "prgad:identyfikatorULIC";
pub const STREET_NAME_1: &'static str = "prgad:TERYTNazwa1";
pub const STREET_NAME_2: &'static str = "prgad:TERYTNazwa2";

pub const LOCAL_ID: &'static str = "prgad:lokalnyId";
pub const NAMESPACE: &'static str = "prgad:przestrzenNazw";
pub const VERSION: &'static str = "prgad:wersjaId";
pub const LIFECYCLE_START: &'static str = "prgad:poczatekWersjiObiektu";
pub const ASSIGNED: &'static str = "prgad:dataNadania";
pub const HOUSE_NUMBER: &'static str = "prgad:numerPorzadkowy";
pub const POSTCODE: &'static str = "prgad:kodPocztowy";
pub const POSITION: &'static str = "gml:pos";
pub const CITY_REF: &'static str = "prgad:miejscowosc";
pub const STREET_REF: &'static str = "prgad:ulica2";

/// A city: its name, the word for its kind, its own code where it has one,
/// and the code of its municipality.
pub struct City {
    pub name: String,
    pub kind: String,
    pub city_teryt_id: Option<String>,
    pub municipality_teryt_id: String,
}

/// A street: its full name, its type code and its code where it has one.
pub struct Street {
    pub name: String,
    pub kind: String,
    pub teryt_id: Option<String>,
}

/// The two dictionaries of a 2021 document, keyed by `gml:id`.
pub struct Mappings {
    pub city: StringHashMap<City>,
    pub street: StringHashMap<Street>,
}

/// The word for a city kind code; empty for an unknown code.
pub open spec fn city_type_word(code: Seq<char>) -> Seq<char> {
    if code == "02"@ {
        "kolonia"@
    } else if code == "03"@ {
        "przysiółek"@
    } else if code == "06"@ {
        "osiedle"@
    } else if code == "05"@ {
        "osada leśna"@
    } else if code == "04"@ {
        "osada"@
    } else if code == "96"@ {
        "miasto"@
    } else if code == "01"@ {
        "wieś"@
    } else if code == "00"@ {
        "część miejscowości"@
    } else if code == "07"@ {
        "schronisko turystyczne"@
    } else if code == "95"@ {
        "dzielnica Warszawy"@
    } else if code == "98"@ {
        "delegatura"@
    } else if code == "99"@ {
        "część miasta"@
    } else {
        Seq::empty()
    }
}

pub fn city_type(code: &str) -> (r: &'static str)
    ensures
        r@ == city_type_word(code@),
{
    if str_eq(code, "02") {
        "kolonia"
    } else if str_eq(code, "03") {
        "przysiółek"
    } else if str_eq(code, "06") {
        "osiedle"
    } else if str_eq(code, "05") {
        "osada leśna"
    } else if str_eq(code, "04") {
        "osada"
    } else if str_eq(code, "96") {
        "miasto"
    } else if str_eq(code, "01") {
        "wieś"
    } else if str_eq(code, "00") {
        "część miejscowości"
    } else if str_eq(code, "07") {
        "schronisko turystyczne"
    } else if str_eq(code, "95") {
        "dzielnica Warszawy"
    } else if str_eq(code, "98") {
        "delegatura"
    } else if str_eq(code, "99") {
        "część miasta"
    } else {
        let e = "";
        proof {
            reveal_strlit("");
        }
        e
    }
}

/// The word that a street type code puts before the name. Plain streets
/// ("1") and the two catch-all types ("15", "16") have none, nor has an
/// unknown code.
pub open spec fn street_type_word(typ: Seq<char>) -> Seq<char> {
    if typ == "3"@ {
        "plac"@
    } else if typ == "11"@ {
        "osiedle"@
    } else if typ == "6"@ {
        "rondo"@
    } else if typ == "2"@ {
        "aleja"@
    } else if typ == "4"@ {
        "skwer"@
    } else if typ == "5"@ {
        "bulwar"@
    } else if typ == "7"@ {
        "park"@
    } else if typ == "8"@ {
        "rynek"@
    } else if typ == "9"@ {
        "szosa"@
    } else if typ == "10"@ {
        "droga"@
    } else if typ == "12"@ {
        "ogród"@
    } else if typ == "13"@ {
        "wyspa"@
    } else if typ == "14"@ {
        "wybrzeże"@
    } else {
        Seq::empty()
    }
}

fn street_type(typ: &str) -> (r: &'static str)
    ensures
        r@ == street_type_word(typ@),
{
    if str_eq(typ, "3") {
        "plac"
    } else if str_eq(typ, "11") {
        "osiedle"
    } else if str_eq(typ, "6") {
        "rondo"
    } else if str_eq(typ, "2") {
        "aleja"
    } else if str_eq(typ, "4") {
        "skwer"
    } else if str_eq(typ, "5") {
        "bulwar"
    } else if str_eq(typ, "7") {
        "park"
    } else if str_eq(typ, "8") {
        "rynek"
    } else if str_eq(typ, "9") {
        "szosa"
    } else if str_eq(typ, "10") {
        "droga"
    } else if str_eq(typ, "12") {
        "ogród"
    } else if str_eq(typ, "13") {
        "wyspa"
    } else if str_eq(typ, "14") {
        "wybrzeże"
    } else {
        let e = "";
        proof {
            reveal_strlit("");
        }
        e
    }
}

/// The abbreviation of a street type that names may begin with instead of
/// the full word.
pub open spec fn street_type_abbreviation(typ: Seq<char>) -> Option<Seq<char>> {
    if typ == "3"@ {
        Some("pl."@)
    } else if typ == "11"@ {
        Some("os."@)
    } else if typ == "6"@ {
        Some("rondo"@)
    } else if typ == "2"@ {
        Some("al."@)
    } else {
        None
    }
}

fn street_abbreviation(typ: &str) -> (r: Option<&'static str>)
    ensures
        match r {
            Some(a) => street_type_abbreviation(typ@) == Some(a@),
            None => street_type_abbreviation(typ@).is_none(),
        },
{
    if str_eq(typ, "3") {
        Some("pl.")
    } else if str_eq(typ, "11") {
        Some("os.")
    } else if str_eq(typ, "6") {
        Some("rondo")
    } else if str_eq(typ, "2") {
        Some("al.")
    } else {
        None
    }
}

/// The type word to put before a name whose lower-case form is `lowered`:
/// none where the name already begins with the word or its abbreviation.
pub open spec fn street_prefix(typ: Seq<char>, lowered: Seq<char>) -> Seq<char> {
    let w = street_type_word(typ);
    if has_prefix(lowered, w) || (street_type_abbreviation(typ) matches Some(a) && has_prefix(lowered, a)) {
        Seq::empty()
    } else {
        w
    }
}

/// A street's full name: the type word where it is due, the second name part
/// and the first, the empty ones skipped and the others joined by spaces.
pub open spec fn full_street_name(part1: Seq<char>, part2: Seq<char>, typ: Seq<char>) -> Seq<char> {
    join_nonempty(seq![street_prefix(typ, lower_of(part1)), part2, part1])
}

pub open spec fn part_or_empty(p: Option<String>) -> Seq<char> {
    match p {
        Some(s) => s@,
        None => Seq::empty(),
    }
}

/// The street name from its parts and type, given the lower-case form of the
/// first part: the type word is left out where that form already begins with
/// it or with its abbreviation.
pub fn full_name_from_lowered(part1: &String, part2: &Option<String>, typ: &str, lowered: &str) -> (r: String)
    ensures
        r@ == join_nonempty(seq![street_prefix(typ@, lowered@), part_or_empty(*part2), part1@]),
{
    let word = street_type(typ);
    let has_word = starts_with(lowered, word);
    let has_abbreviation = match street_abbreviation(typ) {
        Some(a) => starts_with(lowered, a),
        None => false,
    };
    let mut r = String::new();
    if !(has_word || has_abbreviation) {
        push_fragment(&mut r, word);
    }
    match part2 {
        Some(p) => push_fragment(&mut r, p.as_str()),
        None => {
            let e = "";
            proof {
                reveal_strlit("");
            }
            push_fragment(&mut r, e);
        },
    }
    push_fragment(&mut r, part1.as_str());
    proof {
        let parts = seq![street_prefix(typ@, lowered@), part_or_empty(*part2), part1@];
        reveal_with_fuel(join_nonempty, 4);
        assert(parts.drop_last().drop_last().drop_last() =~= Seq::<Seq<char>>::empty());
        assert(parts.drop_last().drop_last() =~= seq![street_prefix(typ@, lowered@)]);
        assert(parts.drop_last() =~= seq![street_prefix(typ@, lowered@), part_or_empty(*part2)]);
    }
    r
}

/// Concatenates the parts of the name and the street type. Where the name
/// already holds the type, in full or abbreviated, the type is not repeated.
pub fn construct_full_name_from_parts(part1: &String, part2: &Option<String>, typ: &str) -> (r: String)
    ensures
        r@ == full_street_name(part1@, part_or_empty(*part2), typ@),
{
    let lowered = lowercase(part1.as_str());
    full_name_from_lowered(part1, part2, typ, lowered.as_str())
}

/// What has been read so far of a street definition.
pub struct StreetDraft {
    pub kind: String,
    pub teryt_id: Option<String>,
    pub part1: String,
    pub part2: Option<String>,
}

/// A definition being read.
pub enum Draft {
    City(City),
    Street(StreetDraft),
}

pub struct OpenFeature {
    pub id: String,
    pub tracker: TagTracker,
    pub draft: Draft,
}

/// How text `x` of element `t` inside a city definition turns `d` into `n`.
pub open spec fn city_text_rule(d: City, n: City, t: Seq<char>, x: Seq<char>) -> bool {
    if t == CITY_NAME@ {
        n.name@ == x && n == (City { name: n.name, ..d })
    } else if t == KIND@ {
        n.kind@ == city_type_word(x) && n == (City { kind: n.kind, ..d })
    } else if t == CITY_ID@ {
        opt_view(n.city_teryt_id) == Some(x) && n == (City { city_teryt_id: n.city_teryt_id, ..d })
    } else if t == MUNICIPALITY_ID@ {
        n.municipality_teryt_id@ == x && n == (City { municipality_teryt_id: n.municipality_teryt_id, ..d })
    } else {
        n == d
    }
}

fn apply_city_text(d: &mut City, t: &str, x: &str)
    ensures
        city_text_rule(*old(d), *final(d), t@, x@),
{
    if str_eq(t, CITY_NAME) {
        d.name = String::from_str(x);
    } else if str_eq(t, KIND) {
        d.kind = String::from_str(city_type(x));
    } else if str_eq(t, CITY_ID) {
        d.city_teryt_id = Some(String::from_str(x));
    } else if str_eq(t, MUNICIPALITY_ID) {
        d.municipality_teryt_id = String::from_str(x);
    }
}

/// How text `x` of element `t` inside a street definition turns `d` into `n`.
pub open spec fn street_text_rule(d: StreetDraft, n: StreetDraft, t: Seq<char>, x: Seq<char>) -> bool {
    if t == KIND@ {
        n.kind@ == x && n == (StreetDraft { kind: n.kind, ..d })
    } else if t == STREET_ID@ {
        opt_view(n.teryt_id) == Some(x) && n == (StreetDraft { teryt_id: n.teryt_id, ..d })
    } else if t == STREET_NAME_1@ {
        n.part1@ == x && n == (StreetDraft { part1: n.part1, ..d })
    } else if t == STREET_NAME_2@ {
        opt_view(n.part2) == Some(x) && n == (StreetDraft { part2: n.part2, ..d })
    } else {
        n == d
    }
}

fn apply_street_text(d: &mut StreetDraft, t: &str, x: &str)
    ensures
        street_text_rule(*old(d), *final(d), t@, x@),
{
    if str_eq(t, KIND) {
        d.kind = String::from_str(x);
    } else if str_eq(t, STREET_ID) {
        d.teryt_id = Some(String::from_str(x));
    } else if str_eq(t, STREET_NAME_1) {
        d.part1 = String::from_str(x);
    } else if str_eq(t, STREET_NAME_2) {
        d.part2 = Some(String::from_str(x));
    }
}

/// A street definition names no street where its type or its first name part
/// is missing.
pub open spec fn street_unnamed(d: StreetDraft) -> bool {
    d.kind@.len() == 0 || d.part1@.len() == 0
}

pub open spec fn completed_street(d: StreetDraft, s: Street) -> bool {
    s.name@ == full_street_name(d.part1@, part_or_empty(d.part2), d.kind@) && s.kind == d.kind
        && s.teryt_id == d.teryt_id
}

fn complete_street(d: StreetDraft, id: &String) -> (r: Result<Street, ConvertError>)
    ensures
        r.is_err() == street_unnamed(d),
        r matches Ok(s) ==> completed_street(d, s),
{
    if d.kind.unicode_len() == 0 || d.part1.unicode_len() == 0 {
        return Err(ConvertError::UnnamedStreet { id: id.clone() });
    }
    let name = construct_full_name_from_parts(&d.part1, &d.part2, d.kind.as_str());
    Ok(Street { name, kind: d.kind, teryt_id: d.teryt_id })
}

pub open spec fn fresh_city(c: City) -> bool {
    c.name@.len() == 0 && c.kind@.len() == 0 && c.city_teryt_id.is_none() && c.municipality_teryt_id@.len() == 0
}

pub open spec fn fresh_street(s: StreetDraft) -> bool {
    s.kind@.len() == 0 && s.teryt_id.is_none() && s.part1@.len() == 0 && s.part2.is_none()
}

/// Builds the city and street dictionaries of a 2021 document from its
/// events, in one forward pass.
pub struct DictBuilder2021 {
    cities: StringHashMap<City>,
    streets: StringHashMap<Street>,
    open: Option<OpenFeature>,
}

impl DictBuilder2021 {
    pub closed spec fn cities(&self) -> Map<Seq<char>, City> {
        self.cities@
    }

    pub closed spec fn streets(&self) -> Map<Seq<char>, Street> {
        self.streets@
    }

    pub closed spec fn reading(&self) -> Option<OpenFeature> {
        self.open
    }

    pub fn new() -> (r: DictBuilder2021)
        ensures
            r.cities() == Map::<Seq<char>, City>::empty(),
            r.streets() == Map::<Seq<char>, Street>::empty(),
            r.reading().is_none(),
    {
        DictBuilder2021 { cities: StringHashMap::new(), streets: StringHashMap::new(), open: None }
    }

    /// Takes one event of the document.
    pub fn feed(&mut self, ev: XmlEvent) -> (r: Result<(), ConvertError>)
        ensures
            old(self).reading().is_none() ==> final(self).cities() == old(self).cities()
                && final(self).streets() == old(self).streets() && match ev {
                XmlEvent::Start { name, attributes } => if name@ == CITY_TAG@ || name@ == STREET_TAG@ {
                    match attr_value(attributes@, ID_ATTRIBUTE@) {
                        Some(id) => r.is_ok() && (final(self).reading() matches Some(o) && o.id@ == id
                            && o.tracker.target().is_none() && if name@ == CITY_TAG@ {
                            o.draft matches Draft::City(c) && fresh_city(c)
                        } else {
                            o.draft matches Draft::Street(s) && fresh_street(s)
                        }),
                        None => r.is_err(),
                    }
                } else {
                    r.is_ok() && final(self).reading().is_none()
                },
                _ => r.is_ok() && final(self).reading().is_none(),
            },
            old(self).reading() matches Some(o) ==> match ev {
                XmlEvent::Start { name, attributes } => r.is_ok() && final(self).cities() == old(self).cities()
                    && final(self).streets() == old(self).streets() && (final(self).reading() matches Some(p)
                    && p.id == o.id && p.draft == o.draft && p.tracker.target() == Some(name@)),
                XmlEvent::Text(x) => r.is_ok() && final(self).cities() == old(self).cities()
                    && final(self).streets() == old(self).streets() && match o.tracker.target() {
                    Some(t) => final(self).reading() matches Some(p) && p.id == o.id
                        && p.tracker.target().is_none() && match o.draft {
                        Draft::City(c) => p.draft matches Draft::City(c2) && city_text_rule(c, c2, t, trimmed(x@)),
                        Draft::Street(s) => p.draft matches Draft::Street(s2) && street_text_rule(s, s2, t, trimmed(x@)),
                    },
                    None => final(self).reading() == old(self).reading(),
                },
                XmlEvent::End(name) => match o.draft {
                    Draft::City(c) => if name@ == CITY_TAG@ {
                        r.is_ok() && final(self).reading().is_none() && final(self).cities()
                            == old(self).cities().insert(o.id@, c) && final(self).streets() == old(self).streets()
                    } else {
                        r.is_ok() && *final(self) == *old(self)
                    },
                    Draft::Street(s) => if name@ == STREET_TAG@ {
                        (r.is_err() == street_unnamed(s)) && (r.is_ok() ==> final(self).reading().is_none()
                            && final(self).cities() == old(self).cities() && exists|st: Street|
                            completed_street(s, st) && final(self).streets() == old(self).streets().insert(o.id@, st))
                    } else {
                        r.is_ok() && *final(self) == *old(self)
                    },
                },
            },
    {
        let mut cur: Option<OpenFeature> = None;
        core::mem::swap(&mut cur, &mut self.open);
        match cur {
            None => {
                if let XmlEvent::Start { name, attributes } = ev {
                    let is_city = str_eq(name.as_str(), CITY_TAG);
                    if is_city || str_eq(name.as_str(), STREET_TAG) {
                        match get_attribute(&attributes, ID_ATTRIBUTE) {
                            Some(id) => {
                                let draft = if is_city {
                                    Draft::City(
                                        City {
                                            name: String::new(),
                                            kind: String::new(),
                                            city_teryt_id: None,
                                            municipality_teryt_id: String::new(),
                                        },
                                    )
                                } else {
                                    Draft::Street(
                                        StreetDraft {
                                            kind: String::new(),
                                            teryt_id: None,
                                            part1: String::new(),
                                            part2: None,
                                        },
                                    )
                                };
                                self.open = Some(OpenFeature { id, tracker: TagTracker::new(), draft });
                            },
                            None => {
                                return Err(
                                    ConvertError::MissingAttribute {
                                        element: name,
                                        attribute: String::from_str(ID_ATTRIBUTE),
                                    },
                                );
                            },
                        }
                    }
                }
                Ok(())
            },
            Some(o) => {
                let OpenFeature { id, mut tracker, draft } = o;
                match ev {
                    XmlEvent::Start { name, attributes } => {
                        tracker.open(name, TagRole::Leaf);
                        self.open = Some(OpenFeature { id, tracker, draft });
                        Ok(())
                    },
                    XmlEvent::Text(x) => {
                        match tracker.take_text_target() {
                            Some(t) => {
                                let x = trim(x.as_str());
                                let draft = match draft {
                                    Draft::City(mut c) => {
                                        apply_city_text(&mut c, t.as_str(), x);
                                        Draft::City(c)
                                    },
                                    Draft::Street(mut s) => {
                                        apply_street_text(&mut s, t.as_str(), x);
                                        Draft::Street(s)
                                    },
                                };
                                self.open = Some(OpenFeature { id, tracker, draft });
                            },
                            None => {
                                self.open = Some(OpenFeature { id, tracker, draft });
                            },
                        }
                        Ok(())
                    },
                    XmlEvent::End(name) => match draft {
                        Draft::City(c) => {
                            if str_eq(name.as_str(), CITY_TAG) {
                                self.cities.insert(id, c);
                            } else {
                                self.open = Some(OpenFeature { id, tracker, draft: Draft::City(c) });
                            }
                            Ok(())
                        },
                        Draft::Street(s) => {
                            if str_eq(name.as_str(), STREET_TAG) {
                                let st = complete_street(s, &id)?;
                                self.streets.insert(id, st);
                            } else {
                                self.open = Some(OpenFeature { id, tracker, draft: Draft::Street(s) });
                            }
                            Ok(())
                        },
                    },
                }
            },
        }
    }

    /// The dictionaries, once the document has ended; an error where it ended
    /// inside a definition.
    pub fn finish(self) -> (r: Result<Mappings, ConvertError>)
        ensures
            r.is_err() == self.reading().is_some(),
            r matches Ok(m) ==> m.city@ == self.cities() && m.street@ == self.streets(),
    {
        if self.open.is_some() {
            Err(ConvertError::UnexpectedEnd)
        } else {
            Ok(Mappings { city: self.cities, street: self.streets })
        }
    }
}

/// How an opening tag inside an address bears on the text after it.
pub open spec fn address_role(name: Seq<char>) -> TagRole {
    if name == "prgad:idIIP"@ || name == "prgad:AD_IdentyfikatorIIP"@ || name == "prgad:georeferencja"@
        || name == "gml:Point"@ {
        TagRole::PassThrough
    } else if name == CITY_REF@ || name == STREET_REF@ {
        TagRole::Reference
    } else {
        TagRole::Leaf
    }
}

fn role_of(name: &str) -> (r: TagRole)
    ensures
        r == address_role(name@),
{
    if str_eq(name, "prgad:idIIP") || str_eq(name, "prgad:AD_IdentyfikatorIIP") || str_eq(
        name,
        "prgad:georeferencja",
    ) || str_eq(name, "gml:Point") {
        TagRole::PassThrough
    } else if str_eq(name, CITY_REF) || str_eq(name, STREET_REF) {
        TagRole::Reference
    } else {
        TagRole::Leaf
    }
}

/// Whether text `x` of element `t` aborts the conversion.
pub open spec fn address_text_fails(t: Seq<char>, x: Seq<char>) -> bool {
    if t == LOCAL_ID@ || t == NAMESPACE@ {
        false
    } else if t == VERSION@ {
        rfc3339_instant_millis(x).is_none()
    } else if t == LIFECYCLE_START@ {
        x.len() > 0 && local_millis(x).is_none()
    } else if t == ASSIGNED@ {
        x.len() > 0 && date_epoch_days(x, DATE_FORMAT@).is_none()
    } else if t == HOUSE_NUMBER@ || t == POSTCODE@ {
        false
    } else if t == POSITION@ {
        tokens(x).len() != 2
    } else {
        false
    }
}

/// A wall-clock time without offset, read at the fixed offset, in
/// milliseconds of UTC.
pub open spec fn local_millis(x: Seq<char>) -> Option<i64> {
    shift_west(naive_datetime_millis(x, LOCAL_DATETIME_FORMAT@), LOCAL_OFFSET_MILLIS)
}

/// The elements whose text an address uses.
pub open spec fn known_address_element(t: Seq<char>) -> bool {
    t == LOCAL_ID@ || t == NAMESPACE@ || t == VERSION@ || t == LIFECYCLE_START@ || t == ASSIGNED@
        || t == HOUSE_NUMBER@ || t == POSTCODE@ || t == POSITION@
}

/// How text `x` of element `t` turns record `d` into `n`.
pub open spec fn address_text_rule(d: AddressRecord, n: AddressRecord, t: Seq<char>, x: Seq<char>) -> bool {
    if t == LOCAL_ID@ {
        opt_view(n.local_id) == Some(x) && n == (AddressRecord { local_id: n.local_id, ..d })
    } else if t == NAMESPACE@ {
        opt_view(n.id_namespace) == Some(x) && n == (AddressRecord { id_namespace: n.id_namespace, ..d })
    } else if t == VERSION@ {
        n == (AddressRecord { version: rfc3339_instant_millis(x), ..d })
    } else if t == LIFECYCLE_START@ {
        n == (AddressRecord { lifecycle_start: if x.len() == 0 { None } else { local_millis(x) }, ..d })
    } else if t == ASSIGNED@ {
        n == (AddressRecord { valid_from: if x.len() == 0 { None } else { date_epoch_days(x, DATE_FORMAT@) }, ..d })
    } else if t == HOUSE_NUMBER@ {
        opt_view(n.house_number) == Some(x) && n == (AddressRecord { house_number: n.house_number, ..d })
    } else if t == POSTCODE@ {
        opt_view(n.postcode) == nonempty(x) && n == (AddressRecord { postcode: n.postcode, ..d })
    } else if t == POSITION@ {
        position_of(x, n.position) && n == (AddressRecord { position: n.position, ..d })
    } else {
        n == d
    }
}

fn apply_address_text(rec: &mut AddressRecord, t: &str, x: &str) -> (r: Result<bool, ConvertError>)
    ensures
        r.is_err() == address_text_fails(t@, x@),
        r.is_ok() ==> address_text_rule(*old(rec), *final(rec), t@, x@),
        r matches Ok(k) ==> k == known_address_element(t@),
{
    if str_eq(t, LOCAL_ID) {
        rec.local_id = Some(String::from_str(x));
    } else if str_eq(t, NAMESPACE) {
        rec.id_namespace = Some(String::from_str(x));
    } else if str_eq(t, VERSION) {
        match rfc3339_millis(x) {
            Some(v) => {
                rec.version = Some(v);
            },
            None => {
                return Err(ConvertError::BadTimestamp { element: String::from_str(t), text: String::from_str(x) });
            },
        }
    } else if str_eq(t, LIFECYCLE_START) {
        if x.unicode_len() == 0 {
            rec.lifecycle_start = None;
        } else {
            match local_datetime_millis(x) {
                Some(v) => {
                    rec.lifecycle_start = Some(v);
                },
                None => {
                    return Err(ConvertError::BadTimestamp { element: String::from_str(t), text: String::from_str(x) });
                },
            }
        }
    } else if str_eq(t, ASSIGNED) {
        if x.unicode_len() == 0 {
            rec.valid_from = None;
        } else {
            match date_days(x) {
                Some(v) => {
                    rec.valid_from = Some(v);
                },
                None => {
                    return Err(ConvertError::BadDate { element: String::from_str(t), text: String::from_str(x) });
                },
            }
        }
    } else if str_eq(t, HOUSE_NUMBER) {
        rec.house_number = Some(String::from_str(x));
    } else if str_eq(t, POSTCODE) {
        rec.postcode = nonempty_or_none(x);
    } else if str_eq(t, POSITION) {
        match parse_gml_pos(x) {
            Ok(p) => {
                rec.position = p;
            },
            Err(e) => {
                return Err(ConvertError::BadPosition { found: e.found });
            },
        }
    } else {
        return Ok(false);
    }
    Ok(true)
}

/// The dictionary key that a reference names: the reference without its
/// leading `#`.
pub open spec fn reference_key(h: Seq<char>) -> Seq<char> {
    if h.len() > 0 {
        h.drop_first()
    } else {
        h
    }
}

fn key_of_reference(h: &str) -> (r: &str)
    ensures
        r@ == reference_key(h@),
{
    let n = h.unicode_len();
    if n > 0 {
        h.substring_char(1, n)
    } else {
        h
    }
}

pub open spec fn lookup<V>(m: Map<Seq<char>, V>, k: Seq<char>) -> Option<V> {
    if m.contains_key(k) {
        Some(m[k])
    } else {
        None
    }
}

/// How a reference to city `city` turns record `d` into `n`: the city gives
/// its name and codes, and the administrative-unit table the names of its
/// municipality, county and voivodeship, where it has them.
pub open spec fn city_rule(d: AddressRecord, n: AddressRecord, city: Option<City>, units: Map<Seq<char>, Terc>) -> bool {
    match city {
        None => n == d,
        Some(c) => {
            let with_city = AddressRecord {
                city: Some(c.name),
                municipality_teryt: Some(c.municipality_teryt_id),
                city_teryt: c.city_teryt_id,
                ..d
            };
            match lookup(units, c.municipality_teryt_id@) {
                None => n == with_city,
                Some(u) => n == (AddressRecord {
                    voivodeship_teryt: Some(u.voivodeship_teryt_id),
                    voivodeship: Some(u.voivodeship_name),
                    county_teryt: Some(u.county_teryt_id),
                    county: Some(u.county_name),
                    municipality: Some(u.municipality_name),
                    ..with_city
                }),
            }
        },
    }
}

/// What a reference to city `city` reports: the city's municipality code
/// where the administrative-unit table lacks it, nothing otherwise.
pub open spec fn city_step(city: Option<City>, units: Map<Seq<char>, Terc>) -> Step {
    match city {
        Some(c) => if lookup(units, c.municipality_teryt_id@).is_none() {
            Step::UnknownMunicipality(c.municipality_teryt_id)
        } else {
            Step::Nothing
        },
        None => Step::Nothing,
    }
}

/// How a reference to street `street` turns record `d` into `n`.
pub open spec fn street_rule(d: AddressRecord, n: AddressRecord, street: Option<Street>) -> bool {
    match street {
        None => n == d,
        Some(s) => n == (AddressRecord { street: Some(s.name), street_teryt: s.teryt_id, ..d }),
    }
}

/// An address being read.
pub struct OpenAddress {
    pub tracker: TagTracker,
    pub record: AddressRecord,
}

/// Reads the addresses of a 2021 document, event by event, against the
/// dictionaries built from the same document and the administrative-unit
/// table, and gathers them into batches.
pub struct AddressParser2021 {
    mappings: Mappings,
    teryt_names: StringHashMap<Terc>,
    acc: BatchAccumulator,
    open: Option<OpenAddress>,
}

impl AddressParser2021 {
    pub closed spec fn cities(&self) -> Map<Seq<char>, City> {
        self.mappings.city@
    }

    pub closed spec fn streets(&self) -> Map<Seq<char>, Street> {
        self.mappings.street@
    }

    pub closed spec fn units(&self) -> Map<Seq<char>, Terc> {
        self.teryt_names@
    }

    pub closed spec fn capacity(&self) -> nat {
        self.acc.capacity()
    }

    pub closed spec fn pending(&self) -> Seq<AddressRecord> {
        self.acc.pending()
    }

    pub closed spec fn reading(&self) -> Option<OpenAddress> {
        self.open
    }

    pub closed spec fn wf(&self) -> bool {
        self.acc.wf() && self.acc.pending().len() < self.acc.capacity()
    }

    pub fn new(mappings: Mappings, teryt_names: StringHashMap<Terc>, batch_size: usize) -> (r: AddressParser2021)
        requires
            batch_size > 0,
        ensures
            r.wf(),
            r.cities() == mappings.city@,
            r.streets() == mappings.street@,
            r.units() == teryt_names@,
            r.capacity() == batch_size,
            r.pending() == Seq::<AddressRecord>::empty(),
            r.reading().is_none(),
    {
        AddressParser2021 { mappings, teryt_names, acc: BatchAccumulator::new(batch_size), open: None }
    }

    fn apply_city(&self, rec: &mut AddressRecord, key: &str) -> (r: Option<String>)
        ensures
            city_rule(*old(rec), *final(rec), lookup(self.cities(), key@), self.units()),
            match r {
                Some(code) => lookup(self.cities(), key@) matches Some(c) && code == c.municipality_teryt_id
                    && lookup(self.units(), c.municipality_teryt_id@).is_none(),
                None => lookup(self.cities(), key@) matches Some(c) ==> lookup(self.units(), c.municipality_teryt_id@).is_some(),
            },
    {
        match self.mappings.city.get(key) {
            None => None,
            Some(c) => {
                rec.city = Some(c.name.clone());
                rec.municipality_teryt = Some(c.municipality_teryt_id.clone());
                rec.city_teryt = clone_opt(&c.city_teryt_id);
                match self.teryt_names.get(c.municipality_teryt_id.as_str()) {
                    None => Some(c.municipality_teryt_id.clone()),
                    Some(u) => {
                        rec.voivodeship_teryt = Some(u.voivodeship_teryt_id.clone());
                        rec.voivodeship = Some(u.voivodeship_name.clone());
                        rec.county_teryt = Some(u.county_teryt_id.clone());
                        rec.county = Some(u.county_name.clone());
                        rec.municipality = Some(u.municipality_name.clone());
                        None
                    },
                }
            },
        }
    }

    fn apply_street(&self, rec: &mut AddressRecord, key: &str)
        ensures
            street_rule(*old(rec), *final(rec), lookup(self.streets(), key@)),
    {
        if let Some(s) = self.mappings.street.get(key) {
            rec.street = Some(s.name.clone());
            rec.street_teryt = clone_opt(&s.teryt_id);
        }
    }

    /// Takes one event of the document. The closing tag of an address appends
    /// its record, and hands out a batch exactly when that makes as many rows as
    /// the batch size.
    pub fn feed(&mut self, ev: XmlEvent) -> (r: Result<Step, ConvertError>)
        requires
            old(self).wf(),
        ensures
            final(self).wf(),
            final(self).cities() == old(self).cities(),
            final(self).streets() == old(self).streets(),
            final(self).units() == old(self).units(),
            final(self).capacity() == old(self).capacity(),
            old(self).reading().is_none() ==> (r matches Ok(Step::Nothing)) && final(self).pending()
                == old(self).pending() && match ev {
                XmlEvent::Start { name, attributes } => if name@ == ADDRESS_TAG@ {
                    final(self).reading() matches Some(a) && a.record == AddressRecord::spec_empty()
                        && a.tracker.target().is_none()
                } else {
                    final(self).reading().is_none()
                },
                _ => final(self).reading().is_none(),
            },
            old(self).reading() matches Some(a) ==> match ev {
                XmlEvent::End(name) => if name@ == ADDRESS_TAG@ {
                    final(self).reading().is_none() && if old(self).pending().len() + 1 == old(self).capacity() {
                        (r matches Ok(Step::Batch(b)) && b.wf() && b.rows() == old(self).pending().push(a.record))
                            && final(self).pending() == Seq::<AddressRecord>::empty()
                    } else {
                        (r matches Ok(Step::Nothing)) && final(self).pending() == old(self).pending().push(a.record)
                    }
                } else {
                    (r matches Ok(Step::Nothing)) && final(self).pending() == old(self).pending()
                        && final(self).reading() == old(self).reading()
                },
                XmlEvent::Text(x) => final(self).pending() == old(self).pending() && match a.tracker.target() {
                    Some(t) => (r.is_err() == address_text_fails(t, trimmed(x@))) && (r.is_ok()
                        ==> (final(self).reading() matches Some(p) && address_text_rule(a.record, p.record, t, trimmed(x@))
                        && p.tracker.target().is_none()))
                        && (r matches Ok(Step::UnknownElement(u)) <==> r.is_ok() && !known_address_element(t))
                        && (r matches Ok(Step::UnknownElement(u)) ==> u@ == t)
                        && !(r matches Ok(Step::Batch(_))),
                    None => (r matches Ok(Step::Nothing)) && final(self).reading() == old(self).reading(),
                },
                XmlEvent::Start { name, attributes } => final(self).pending() == old(self).pending()
                    && !(r matches Ok(Step::Batch(_))) && if name@ == CITY_REF@ || name@ == STREET_REF@ {
                    match attr_value(attributes@, HREF_ATTRIBUTE@) {
                        None => r.is_err(),
                        Some(h) => r == Ok::<Step, ConvertError>(if name@ == CITY_REF@ {
                            city_step(lookup(old(self).cities(), reference_key(h)), old(self).units())
                        } else {
                            Step::Nothing
                        }) && (final(self).reading() matches Some(p) && p.tracker.target().is_none()
                            && if name@ == CITY_REF@ {
                            city_rule(a.record, p.record, lookup(old(self).cities(), reference_key(h)), old(self).units())
                        } else {
                            street_rule(a.record, p.record, lookup(old(self).streets(), reference_key(h)))
                        }),
                    }
                } else {
                    (r matches Ok(Step::Nothing)) && (final(self).reading() matches Some(p) && p.record
                        == a.record && p.tracker.target() == (if address_role(name@) == TagRole::Leaf {
                        Some(name@)
                    } else {
                        None
                    }))
                },
            },
    {
        let mut cur: Option<OpenAddress> = None;
        core::mem::swap(&mut cur, &mut self.open);
        match cur {
            None => {
                if let XmlEvent::Start { name, attributes } = ev {
                    if str_eq(name.as_str(), ADDRESS_TAG) {
                        self.open = Some(OpenAddress { tracker: TagTracker::new(), record: AddressRecord::empty() });
                    }
                }
                Ok(Step::Nothing)
            },
            Some(mut a) => match ev {
                XmlEvent::End(name) => {
                    if str_eq(name.as_str(), ADDRESS_TAG) {
                        match self.acc.push_record(a.record) {
                            Some(b) => Ok(Step::Batch(b)),
                            None => Ok(Step::Nothing),
                        }
                    } else {
                        self.open = Some(a);
                        Ok(Step::Nothing)
                    }
                },
                XmlEvent::Text(x) => {
                    match a.tracker.take_text_target() {
                        Some(t) => {
                            let res = apply_address_text(&mut a.record, t.as_str(), trim(x.as_str()));
                            self.open = Some(a);
                            match res {
                                Ok(true) => Ok(Step::Nothing),
                                Ok(false) => Ok(Step::UnknownElement(t)),
                                Err(e) => Err(e),
                            }
                        },
                        None => {
                            self.open = Some(a);
                            Ok(Step::Nothing)
                        },
                    }
                },
                XmlEvent::Start { name, attributes } => {
                    let is_city = str_eq(name.as_str(), CITY_REF);
                    if is_city || str_eq(name.as_str(), STREET_REF) {
                        let h = match get_attribute(&attributes, HREF_ATTRIBUTE) {
                            None => {
                                return Err(
                                    ConvertError::MissingAttribute {
                                        element: name,
                                        attribute: String::from_str(HREF_ATTRIBUTE),
                                    },
                                );
                            },
                            Some(h) => h,
                        };
                        let key = key_of_reference(h.as_str());
                        let mut step = Step::Nothing;
                        if is_city {
                            if let Some(code) = self.apply_city(&mut a.record, key) {
                                step = Step::UnknownMunicipality(code);
                            }
                        } else {
                            self.apply_street(&mut a.record, key);
                        }
                        a.tracker.open(name, TagRole::Reference);
                        self.open = Some(a);
                        Ok(step)
                    } else {
                        let role = role_of(name.as_str());
                        a.tracker.open(name, role);
                        self.open = Some(a);
                        Ok(Step::Nothing)
                    }
                },
            },
        }
    }

    /// The end of the document: the last, partial batch where it has rows. The
    /// document must not end inside an address.
    pub fn finish(&mut self) -> (r: Result<Option<Batch>, ConvertError>)
        requires
            old(self).wf(),
        ensures
            final(self).wf(),
            final(self).capacity() == old(self).capacity(),
            final(self).reading() == old(self).reading(),
            r.is_err() == old(self).reading().is_some(),
            r.is_ok() ==> final(self).pending() == Seq::<AddressRecord>::empty(),
            r matches Ok(Some(b)) ==> old(self).pending().len() > 0 && b.wf() && b.rows() == old(self).pending(),
            r matches Ok(None) ==> old(self).pending().len() == 0,
    {
        if self.open.is_some() {
            return Err(ConvertError::UnexpectedEnd);
        }
        Ok(self.acc.finish())
    }
}

} // verus!
