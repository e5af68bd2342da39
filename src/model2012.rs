//! The 2012 schema: a dictionary of administrative units, cities and streets,
//! and the address records that refer to them.
use vstd::prelude::*;
use vstd::hash_map::StringHashMap;
use crate::batch::{AddressRecord, Batch, BatchAccumulator, Step};
use crate::common::{
    clone_opt, get_attribute, nonempty, nonempty_or_none, opt_view, parse_gml_pos, attr_value,
    ConvertError, XmlEvent,
};
use crate::dates::{date_days, date_epoch_days, rfc3339_instant_millis, rfc3339_millis, DATE_FORMAT};
use crate::text::{join_nonempty, push_fragment, str_eq, tokens, trim, trimmed};
use crate::tracker::{TagRole, TagTracker};

verus! {

pub const ADDRESS_TAG: &'static str = "prg-ad:PRG_PunktAdresowy";
pub const ADMINISTRATIVE_UNIT_TAG: &'static str = "prg-ad:PRG_JednostkaAdministracyjnaNazwa";
pub const CITY_TAG: &'static str = "prg-ad:PRG_MiejscowoscNazwa";
pub const STREET_TAG: &'static str = "prg-ad:PRG_UlicaNazwa";

/// Dictionary keys are the definition's `gml:id` under this namespace, the
/// form in which addresses refer to them.
pub const ID_PREFIX: &'static str = "http://geoportal.gov.pl/PZGIK/dane/";

pub const ID_ATTRIBUTE: &'static str = "gml:id";
pub const HREF_ATTRIBUTE: &'static str = "xlink:href";

pub const NAME: &'static str = "prg-ad:nazwa";
pub const NAME_PART_1: &'static str = "mua:przedrostek1Czesc";
pub const NAME_PART_2: &'static str = "mua:przedrostek2Czesc";
pub const NAME_PART_3: &'static str = "mua:nazwaCzesc";
pub const NAME_PART_4: &'static str = "mua:nazwaGlownaCzesc";
pub const TERYT_ID: &'static str = "prg-ad:idTERYT";
pub const TERYT_ID_STREET: &'static str = "mua:idTERYT";
pub const LEVEL: &'static str = "prg-ad:poziom";

pub const LOCAL_ID: &'static str = "bt:lokalnyId";
pub const NAMESPACE: &'static str = "bt:przestrzenNazw";
pub const VERSION: &'static str = "bt:wersjaId";
pub const LIFECYCLE_START: &'static str = "bt:poczatekWersjiObiektu";
pub const VALID_FROM: &'static str = "prg-ad:waznyOd";
pub const VALID_TO: &'static str = "prg-ad:waznyDo";
pub const ADMIN_UNIT: &'static str = "prg-ad:jednostkaAdmnistracyjna";
pub const CITY: &'static str = "prg-ad:miejscowosc";
pub const CITY_PART: &'static str = "prg-ad:czescMiejscowosci";
pub const STREET: &'static str = "prg-ad:ulica";
pub const HOUSE_NUMBER: &'static str = "prg-ad:numerPorzadkowy";
pub const POSTCODE: &'static str = "prg-ad:kodPocztowy";
pub const STATUS: &'static str = "prg-ad:status";
pub const POSITION: &'static str = "gml:pos";
pub const IDENTIFIER: &'static str = "gml:identifier";
pub const COMPONENT: &'static str = "prg-ad:komponent";
pub const EMUIA_OBJECT: &'static str = "prg-ad:obiektEMUiA";

/// What a dictionary entry describes.
#[derive(PartialEq, Eq, Structural, Clone, Copy, Debug)]
pub enum KomponentType {
    Country,
    Voivodeship,
    County,
    Municipality,
    City,
    Street,
    Unknown,
}

/// A dictionary entry: the kind of component, its display name and its
/// official code where it has one.
pub struct AdditionalInfo {
    pub typ: KomponentType,
    pub name: String,
    pub teryt_id: Option<String>,
}

impl Default for AdditionalInfo {
    /// The entry of an unknown component, which contributes nothing.
    fn default() -> (r: Self)
        ensures
            r.typ == KomponentType::Unknown,
            r.name@ == Seq::<char>::empty(),
            r.teryt_id.is_none(),
    {
        AdditionalInfo { typ: KomponentType::Unknown, name: String::new(), teryt_id: None }
    }
}

/// Concatenates the parts of a street name: the empty ones are skipped, the
/// others joined by single spaces in their fixed order.
pub fn construct_full_name_from_parts(
    name_part_1: String,
    name_part_2: String,
    name_part_3: String,
    name_part_4: String,
) -> (r: String)
    ensures
        r@ == join_nonempty(seq![name_part_1@, name_part_2@, name_part_3@, name_part_4@]),
{
    let ghost parts = seq![name_part_1@, name_part_2@, name_part_3@, name_part_4@];
    let mut r = String::new();
    push_fragment(&mut r, name_part_1.as_str());
    push_fragment(&mut r, name_part_2.as_str());
    push_fragment(&mut r, name_part_3.as_str());
    push_fragment(&mut r, name_part_4.as_str());
    proof {
        reveal_with_fuel(join_nonempty, 5);
        assert(parts.drop_last().drop_last().drop_last().drop_last() =~= Seq::<Seq<char>>::empty());
        assert(parts.drop_last().drop_last().drop_last() =~= seq![name_part_1@]);
        assert(parts.drop_last().drop_last() =~= seq![name_part_1@, name_part_2@]);
        assert(parts.drop_last() =~= seq![name_part_1@, name_part_2@, name_part_3@]);
    }
    r
}

/// The kind of component that a level code names.
pub open spec fn level_kind(x: Seq<char>) -> Option<KomponentType> {
    if x == "1poziom"@ {
        Some(KomponentType::Country)
    } else if x == "2poziom"@ {
        Some(KomponentType::Voivodeship)
    } else if x == "3poziom"@ {
        Some(KomponentType::County)
    } else if x == "4poziom"@ {
        Some(KomponentType::Municipality)
    } else {
        None
    }
}

fn level_of(x: &str) -> (r: Option<KomponentType>)
    ensures
        r == level_kind(x@),
{
    if str_eq(x, "1poziom") {
        Some(KomponentType::Country)
    } else if str_eq(x, "2poziom") {
        Some(KomponentType::Voivodeship)
    } else if str_eq(x, "3poziom") {
        Some(KomponentType::County)
    } else if str_eq(x, "4poziom") {
        Some(KomponentType::Municipality)
    } else {
        None
    }
}

/// Which of the three kinds of definition an element opens.
#[derive(PartialEq, Eq, Structural, Clone, Copy, Debug)]
pub enum DefinitionKind {
    AdministrativeUnit,
    City,
    Street,
}

pub open spec fn definition_kind(name: Seq<char>) -> Option<DefinitionKind> {
    if name == ADMINISTRATIVE_UNIT_TAG@ {
        Some(DefinitionKind::AdministrativeUnit)
    } else if name == CITY_TAG@ {
        Some(DefinitionKind::City)
    } else if name == STREET_TAG@ {
        Some(DefinitionKind::Street)
    } else {
        None
    }
}

pub open spec fn definition_tag(kind: DefinitionKind) -> Seq<char> {
    match kind {
        DefinitionKind::AdministrativeUnit => ADMINISTRATIVE_UNIT_TAG@,
        DefinitionKind::City => CITY_TAG@,
        DefinitionKind::Street => STREET_TAG@,
    }
}

fn kind_of_definition(name: &str) -> (r: Option<DefinitionKind>)
    ensures
        r == definition_kind(name@),
{
    if str_eq(name, ADMINISTRATIVE_UNIT_TAG) {
        Some(DefinitionKind::AdministrativeUnit)
    } else if str_eq(name, CITY_TAG) {
        Some(DefinitionKind::City)
    } else if str_eq(name, STREET_TAG) {
        Some(DefinitionKind::Street)
    } else {
        None
    }
}

fn tag_of_definition(kind: DefinitionKind) -> (r: &'static str)
    ensures
        r@ == definition_tag(kind),
{
    match kind {
        DefinitionKind::AdministrativeUnit => ADMINISTRATIVE_UNIT_TAG,
        DefinitionKind::City => CITY_TAG,
        DefinitionKind::Street => STREET_TAG,
    }
}

/// What has been read so far of one definition.
pub struct Definition {
    pub typ: Option<KomponentType>,
    pub name: Option<String>,
    pub name_part_1: String,
    pub name_part_2: String,
    pub name_part_3: String,
    pub name_part_4: String,
    pub teryt_id: Option<String>,
}

impl Definition {
    pub open spec fn spec_fresh(self) -> bool {
        &&& self.typ.is_none()
        &&& self.name.is_none()
        &&& self.name_part_1@.len() == 0
        &&& self.name_part_2@.len() == 0
        &&& self.name_part_3@.len() == 0
        &&& self.name_part_4@.len() == 0
        &&& self.teryt_id.is_none()
    }

    fn fresh() -> (r: Definition)
        ensures
            r.spec_fresh(),
    {
        Definition {
            typ: None,
            name: None,
            name_part_1: String::new(),
            name_part_2: String::new(),
            name_part_3: String::new(),
            name_part_4: String::new(),
            teryt_id: None,
        }
    }
}

/// Whether text `x` of element `t` inside a definition of `kind` is rejected:
/// only a level code other than the four known ones is.
pub open spec fn definition_text_fails(t: Seq<char>, x: Seq<char>) -> bool {
    t == LEVEL@ && level_kind(x).is_none()
}

/// How text `x` of element `t` inside a definition of `kind` turns `d` into `n`.
pub open spec fn definition_text_rule(
    kind: DefinitionKind,
    d: Definition,
    n: Definition,
    t: Seq<char>,
    x: Seq<char>,
) -> bool {
    if t == LEVEL@ {
        n == (Definition { typ: level_kind(x), ..d })
    } else if t == NAME@ {
        if kind != DefinitionKind::Street {
            opt_view(n.name) == Some(x) && n == (Definition { name: n.name, ..d })
        } else {
            n == d
        }
    } else if t == NAME_PART_1@ {
        n.name_part_1@ == x && n == (Definition { name_part_1: n.name_part_1, ..d })
    } else if t == NAME_PART_2@ {
        n.name_part_2@ == x && n == (Definition { name_part_2: n.name_part_2, ..d })
    } else if t == NAME_PART_3@ {
        n.name_part_3@ == x && n == (Definition { name_part_3: n.name_part_3, ..d })
    } else if t == NAME_PART_4@ {
        n.name_part_4@ == x && n == (Definition { name_part_4: n.name_part_4, ..d })
    } else if t == TERYT_ID@ || t == TERYT_ID_STREET@ {
        if x.len() > 0 {
            opt_view(n.teryt_id) == Some(x) && n == (Definition { teryt_id: n.teryt_id, ..d })
        } else {
            n == d
        }
    } else {
        n == d
    }
}

fn apply_definition_text(kind: DefinitionKind, d: &mut Definition, t: &str, x: &str) -> (r: Result<(), ConvertError>)
    ensures
        r.is_err() == definition_text_fails(t@, x@),
        r.is_ok() ==> definition_text_rule(kind, *old(d), *final(d), t@, x@),
{
    if str_eq(t, LEVEL) {
        match level_of(x) {
            Some(k) => {
                d.typ = Some(k);
            },
            None => {
                return Err(ConvertError::UnknownLevel { text: String::from_str(x) });
            },
        }
    } else if str_eq(t, NAME) {
        if kind != DefinitionKind::Street {
            d.name = Some(String::from_str(x));
        }
    } else if str_eq(t, NAME_PART_1) {
        d.name_part_1 = String::from_str(x);
    } else if str_eq(t, NAME_PART_2) {
        d.name_part_2 = String::from_str(x);
    } else if str_eq(t, NAME_PART_3) {
        d.name_part_3 = String::from_str(x);
    } else if str_eq(t, NAME_PART_4) {
        d.name_part_4 = String::from_str(x);
    } else if str_eq(t, TERYT_ID) || str_eq(t, TERYT_ID_STREET) {
        if x.unicode_len() > 0 {
            d.teryt_id = Some(String::from_str(x));
        }
    }
    Ok(())
}

/// The entry that a complete definition of `kind` gives: cities and streets
/// take their kind from the element, streets their name from the four parts.
pub open spec fn completed_entry(kind: DefinitionKind, d: Definition, info: AdditionalInfo) -> bool {
    match kind {
        DefinitionKind::AdministrativeUnit => d.typ == Some(info.typ) && opt_view(d.name) == Some(
            info.name@,
        ) && info.teryt_id == d.teryt_id,
        DefinitionKind::City => info.typ == KomponentType::City && opt_view(d.name) == Some(
            info.name@,
        ) && info.teryt_id == d.teryt_id,
        DefinitionKind::Street => info.typ == KomponentType::Street && info.name@ == join_nonempty(
            seq![d.name_part_1@, d.name_part_2@, d.name_part_3@, d.name_part_4@],
        ) && info.teryt_id == d.teryt_id,
    }
}

/// A definition that ends without a kind or without a name.
pub open spec fn completion_fails(kind: DefinitionKind, d: Definition) -> bool {
    match kind {
        DefinitionKind::AdministrativeUnit => d.typ.is_none() || d.name.is_none(),
        DefinitionKind::City => d.name.is_none(),
        DefinitionKind::Street => false,
    }
}

fn complete_definition(kind: DefinitionKind, d: Definition, id: &String) -> (r: Result<AdditionalInfo, ConvertError>)
    ensures
        r.is_err() == completion_fails(kind, d),
        r matches Ok(info) ==> completed_entry(kind, d, info),
{
    let Definition { typ, name, name_part_1, name_part_2, name_part_3, name_part_4, teryt_id } = d;
    match kind {
        DefinitionKind::Street => {
            let name = construct_full_name_from_parts(name_part_1, name_part_2, name_part_3, name_part_4);
            Ok(AdditionalInfo { typ: KomponentType::Street, name, teryt_id })
        },
        DefinitionKind::City => match name {
            Some(name) => Ok(AdditionalInfo { typ: KomponentType::City, name, teryt_id }),
            None => Err(ConvertError::MissingName { id: id.clone() }),
        },
        DefinitionKind::AdministrativeUnit => match typ {
            None => Err(ConvertError::MissingKind { id: id.clone() }),
            Some(typ) => match name {
                Some(name) => Ok(AdditionalInfo { typ, name, teryt_id }),
                None => Err(ConvertError::MissingName { id: id.clone() }),
            },
        },
    }
}

/// A definition being read.
pub struct OpenDefinition {
    pub id: String,
    pub kind: DefinitionKind,
    pub tracker: TagTracker,
    pub fields: Definition,
}

/// Builds the dictionary of a 2012 document from its events, in one forward
/// pass: every administrative unit, city and street definition, wherever it
/// stands, under its prefixed identifier.
pub struct DictBuilder2012 {
    dict: StringHashMap<AdditionalInfo>,
    open: Option<OpenDefinition>,
}

impl DictBuilder2012 {
    pub closed spec fn entries(&self) -> Map<Seq<char>, AdditionalInfo> {
        self.dict@
    }

    /// The definition being read, if any.
    pub closed spec fn reading(&self) -> Option<OpenDefinition> {
        self.open
    }

    pub fn new() -> (r: DictBuilder2012)
        ensures
            r.entries() == Map::<Seq<char>, AdditionalInfo>::empty(),
            r.reading().is_none(),
    {
        DictBuilder2012 { dict: StringHashMap::new(), open: None }
    }

    /// Takes one event of the document.
    pub fn feed(&mut self, ev: XmlEvent) -> (r: Result<(), ConvertError>)
        ensures
            // Outside a definition, only the opening of one changes anything.
            old(self).reading().is_none() ==> final(self).entries() == old(self).entries() && match ev {
                XmlEvent::Start { name, attributes } => match definition_kind(name@) {
                    Some(kind) => match attr_value(attributes@, ID_ATTRIBUTE@) {
                        Some(id) => r.is_ok() && (final(self).reading() matches Some(o) && o.kind
                            == kind && o.id@ == ID_PREFIX@ + id && o.fields.spec_fresh()
                            && o.tracker.target().is_none()),
                        None => r.is_err(),
                    },
                    None => r.is_ok() && final(self).reading().is_none(),
                },
                _ => r.is_ok() && final(self).reading().is_none(),
            },
            // Inside one, attributed text is applied by the rules above, and the
            // closing tag stores the entry.
            old(self).reading() matches Some(o) ==> match ev {
                XmlEvent::Text(x) => final(self).entries() == old(self).entries() && match o.tracker.target() {
                    Some(t) => (r.is_err() == definition_text_fails(t, trimmed(x@))) && (r.is_ok()
                        ==> (final(self).reading() matches Some(p) && p.id == o.id && p.kind
                        == o.kind && definition_text_rule(o.kind, o.fields, p.fields, t, trimmed(x@))
                        && p.tracker.target().is_none())),
                    None => r.is_ok() && final(self).reading() == old(self).reading(),
                },
                XmlEvent::End(name) => if name@ == definition_tag(o.kind) {
                    (r.is_err() == completion_fails(o.kind, o.fields)) && (r.is_ok()
                        ==> final(self).reading().is_none() && exists|info: AdditionalInfo|
                        completed_entry(o.kind, o.fields, info) && final(self).entries()
                            == old(self).entries().insert(o.id@, info))
                } else {
                    r.is_ok() && final(self).entries() == old(self).entries() && final(self).reading()
                        == old(self).reading()
                },
                XmlEvent::Start { name, attributes } => r.is_ok() && final(self).entries() == old(self).entries()
                    && (final(self).reading() matches Some(p) && p.id == o.id && p.kind == o.kind
                    && p.fields == o.fields && p.tracker.target() == Some(name@)),
            },
    {
        let mut cur: Option<OpenDefinition> = None;
        core::mem::swap(&mut cur, &mut self.open);
        match cur {
            None => {
                if let XmlEvent::Start { name, attributes } = ev {
                    if let Some(kind) = kind_of_definition(name.as_str()) {
                        match get_attribute(&attributes, ID_ATTRIBUTE) {
                            Some(id) => {
                                let mut full = String::from_str(ID_PREFIX);
                                full.append(id.as_str());
                                self.open = Some(
                                    OpenDefinition {
                                        id: full,
                                        kind,
                                        tracker: TagTracker::new(),
                                        fields: Definition::fresh(),
                                    },
                                );
                            },
                            None => {
                                return Err(
                                    ConvertError::MissingAttribute {
                                        element: name,
                                        attribute: String::from_str(ID_ATTRIBUTE),
                                    },
                                );
                            },
                        }
                    }
                }
                Ok(())
            },
            Some(mut o) => match ev {
                XmlEvent::Start { name, attributes } => {
                    o.tracker.open(name, TagRole::Leaf);
                    self.open = Some(o);
                    Ok(())
                },
                XmlEvent::Text(x) => {
                    match o.tracker.take_text_target() {
                        Some(t) => {
                            let res = apply_definition_text(o.kind, &mut o.fields, t.as_str(), trim(x.as_str()));
                            self.open = Some(o);
                            res
                        },
                        None => {
                            self.open = Some(o);
                            Ok(())
                        },
                    }
                },
                XmlEvent::End(name) => {
                    if str_eq(name.as_str(), tag_of_definition(o.kind)) {
                        let OpenDefinition { id, kind, tracker, fields } = o;
                        let info = complete_definition(kind, fields, &id)?;
                        self.dict.insert(id, info);
                        Ok(())
                    } else {
                        self.open = Some(o);
                        Ok(())
                    }
                },
            },
        }
    }

    /// The dictionary, once the document has ended; an error where it ended
    /// inside a definition.
    pub fn finish(self) -> (r: Result<StringHashMap<AdditionalInfo>, ConvertError>)
        ensures
            r.is_err() == self.reading().is_some(),
            r matches Ok(d) ==> d@ == self.entries(),
    {
        if self.open.is_some() {
            Err(ConvertError::UnexpectedEnd)
        } else {
            Ok(self.dict)
        }
    }
}

/// How an opening tag inside an address bears on the text after it.
pub open spec fn address_role(name: Seq<char>) -> TagRole {
    if name == "prg-ad:idIIP"@ || name == "bt:BT_Identyfikator"@ || name == "prg-ad:cyklZycia"@
        || name == "bt:BT_CyklZyciaInfo"@ || name == "prg-ad:pozycja"@ || name == "gml:Point"@ {
        TagRole::PassThrough
    } else if name == COMPONENT@ || name == EMUIA_OBJECT@ {
        TagRole::Reference
    } else {
        TagRole::Leaf
    }
}

fn role_of(name: &str) -> (r: TagRole)
    ensures
        r == address_role(name@),
{
    if str_eq(name, "prg-ad:idIIP") || str_eq(name, "bt:BT_Identyfikator") || str_eq(
        name,
        "prg-ad:cyklZycia",
    ) || str_eq(name, "bt:BT_CyklZyciaInfo") || str_eq(name, "prg-ad:pozycja") || str_eq(
        name,
        "gml:Point",
    ) {
        TagRole::PassThrough
    } else if str_eq(name, COMPONENT) || str_eq(name, EMUIA_OBJECT) {
        TagRole::Reference
    } else {
        TagRole::Leaf
    }
}

/// Whether text `x` of element `t` aborts the conversion, `units`
/// administrative units having been read before it.
pub open spec fn address_text_fails(units: int, t: Seq<char>, x: Seq<char>) -> bool {
    if t == LOCAL_ID@ || t == NAMESPACE@ {
        false
    } else if t == VERSION@ {
        rfc3339_instant_millis(x).is_none()
    } else if t == LIFECYCLE_START@ {
        x.len() > 0 && rfc3339_instant_millis(x).is_none()
    } else if t == VALID_FROM@ || t == VALID_TO@ {
        x.len() > 0 && date_epoch_days(x, DATE_FORMAT@).is_none()
    } else if t == ADMIN_UNIT@ {
        units >= 4
    } else if t == CITY@ || t == CITY_PART@ || t == STREET@ || t == HOUSE_NUMBER@ || t
        == POSTCODE@ || t == STATUS@ {
        false
    } else if t == POSITION@ {
        tokens(x).len() != 2
    } else {
        false
    }
}

/// The elements whose text an address uses, or deliberately skips.
pub open spec fn known_address_element(t: Seq<char>) -> bool {
    t == LOCAL_ID@ || t == NAMESPACE@ || t == VERSION@ || t == LIFECYCLE_START@ || t
        == VALID_FROM@ || t == VALID_TO@ || t == ADMIN_UNIT@ || t == CITY@ || t == CITY_PART@
        || t == STREET@ || t == HOUSE_NUMBER@ || t == POSTCODE@ || t == STATUS@ || t
        == POSITION@ || t == IDENTIFIER@
}

/// A timestamp field: absent where the text is empty.
pub open spec fn optional_millis(x: Seq<char>) -> Option<i64> {
    if x.len() == 0 {
        None
    } else {
        rfc3339_instant_millis(x)
    }
}

/// A date field: absent where the text is empty.
pub open spec fn optional_days(x: Seq<char>) -> Option<i32> {
    if x.len() == 0 {
        None
    } else {
        date_epoch_days(x, DATE_FORMAT@)
    }
}

/// The point that position text `x` gives, as [`parse_gml_pos`] reads it.
pub open spec fn position_of(x: Seq<char>, p: Option<crate::common::GridPos>) -> bool {
    let tk = tokens(x);
    match p {
        None => !(crate::common::is_decimal(tk[0]) && crate::common::is_decimal(tk[1])),
        Some(g) => crate::common::is_decimal(tk[0]) && crate::common::is_decimal(tk[1])
            && g.northing@ == tk[0] && g.easting@ == tk[1],
    }
}

/// How text `x` of element `t` turns record `d` into `n`, and the count of
/// administrative units read from `units` into `m`. The administrative units
/// come in order: country (not kept), voivodeship, county, municipality.
pub open spec fn address_text_rule(
    d: AddressRecord,
    units: int,
    n: AddressRecord,
    m: int,
    t: Seq<char>,
    x: Seq<char>,
) -> bool {
    if t == LOCAL_ID@ {
        m == units && opt_view(n.local_id) == Some(x) && n == (AddressRecord { local_id: n.local_id, ..d })
    } else if t == NAMESPACE@ {
        m == units && opt_view(n.id_namespace) == Some(x) && n == (AddressRecord { id_namespace: n.id_namespace, ..d })
    } else if t == VERSION@ {
        m == units && n == (AddressRecord { version: rfc3339_instant_millis(x), ..d })
    } else if t == LIFECYCLE_START@ {
        m == units && n == (AddressRecord { lifecycle_start: optional_millis(x), ..d })
    } else if t == VALID_FROM@ {
        m == units && n == (AddressRecord { valid_from: optional_days(x), ..d })
    } else if t == VALID_TO@ {
        m == units && n == (AddressRecord { valid_to: optional_days(x), ..d })
    } else if t == ADMIN_UNIT@ {
        m == units + 1 && if units == 0 {
            n == d
        } else if units == 1 {
            opt_view(n.voivodeship) == Some(x) && n == (AddressRecord { voivodeship: n.voivodeship, ..d })
        } else if units == 2 {
            opt_view(n.county) == Some(x) && n == (AddressRecord { county: n.county, ..d })
        } else {
            opt_view(n.municipality) == Some(x) && n == (AddressRecord { municipality: n.municipality, ..d })
        }
    } else if t == CITY@ {
        m == units && opt_view(n.city) == Some(x) && n == (AddressRecord { city: n.city, ..d })
    } else if t == CITY_PART@ {
        m == units && opt_view(n.city_part) == nonempty(x) && n == (AddressRecord { city_part: n.city_part, ..d })
    } else if t == STREET@ {
        m == units && opt_view(n.street) == nonempty(x) && n == (AddressRecord { street: n.street, ..d })
    } else if t == HOUSE_NUMBER@ {
        m == units && opt_view(n.house_number) == Some(x) && n == (AddressRecord { house_number: n.house_number, ..d })
    } else if t == POSTCODE@ {
        m == units && opt_view(n.postcode) == nonempty(x) && n == (AddressRecord { postcode: n.postcode, ..d })
    } else if t == STATUS@ {
        m == units && opt_view(n.status) == Some(x) && n == (AddressRecord { status: n.status, ..d })
    } else if t == POSITION@ {
        m == units && position_of(x, n.position) && n == (AddressRecord { position: n.position, ..d })
    } else {
        m == units && n == d
    }
}

fn optional_timestamp(t: &str, x: &str) -> (r: Result<Option<i64>, ConvertError>)
    ensures
        r.is_err() == (x@.len() > 0 && rfc3339_instant_millis(x@).is_none()),
        r matches Ok(v) ==> v == optional_millis(x@),
{
    if x.unicode_len() == 0 {
        return Ok(None);
    }
    match rfc3339_millis(x) {
        Some(v) => Ok(Some(v)),
        None => Err(ConvertError::BadTimestamp { element: String::from_str(t), text: String::from_str(x) }),
    }
}

fn optional_date(t: &str, x: &str) -> (r: Result<Option<i32>, ConvertError>)
    ensures
        r.is_err() == (x@.len() > 0 && date_epoch_days(x@, DATE_FORMAT@).is_none()),
        r matches Ok(v) ==> v == optional_days(x@),
{
    if x.unicode_len() == 0 {
        return Ok(None);
    }
    match date_days(x) {
        Some(v) => Ok(Some(v)),
        None => Err(ConvertError::BadDate { element: String::from_str(t), text: String::from_str(x) }),
    }
}

/// Applies the text `x` of element `t` to the record; `Ok(false)` where the
/// element is not one an address uses.
fn apply_address_text(rec: &mut AddressRecord, units: &mut u8, t: &str, x: &str) -> (r: Result<bool, ConvertError>)
    requires
        *old(units) <= 4,
    ensures
        r.is_err() == address_text_fails(*old(units) as int, t@, x@),
        r.is_ok() ==> address_text_rule(*old(rec), *old(units) as int, *final(rec), *final(units) as int, t@, x@),
        *final(units) <= 4,
        r matches Ok(k) ==> k == known_address_element(t@),
{
    if str_eq(t, LOCAL_ID) {
        rec.local_id = Some(String::from_str(x));
    } else if str_eq(t, NAMESPACE) {
        rec.id_namespace = Some(String::from_str(x));
    } else if str_eq(t, VERSION) {
        match rfc3339_millis(x) {
            Some(v) => {
                rec.version = Some(v);
            },
            None => {
                return Err(ConvertError::BadTimestamp { element: String::from_str(t), text: String::from_str(x) });
            },
        }
    } else if str_eq(t, LIFECYCLE_START) {
        rec.lifecycle_start = optional_timestamp(t, x)?;
    } else if str_eq(t, VALID_FROM) {
        rec.valid_from = optional_date(t, x)?;
    } else if str_eq(t, VALID_TO) {
        rec.valid_to = optional_date(t, x)?;
    } else if str_eq(t, ADMIN_UNIT) {
        if *units >= 4 {
            return Err(ConvertError::TooManyAdministrativeUnits);
        }
        if *units == 1 {
            rec.voivodeship = Some(String::from_str(x));
        } else if *units == 2 {
            rec.county = Some(String::from_str(x));
        } else if *units == 3 {
            rec.municipality = Some(String::from_str(x));
        }
        *units = *units + 1;
    } else if str_eq(t, CITY) {
        rec.city = Some(String::from_str(x));
    } else if str_eq(t, CITY_PART) {
        rec.city_part = nonempty_or_none(x);
    } else if str_eq(t, STREET) {
        rec.street = nonempty_or_none(x);
    } else if str_eq(t, HOUSE_NUMBER) {
        rec.house_number = Some(String::from_str(x));
    } else if str_eq(t, POSTCODE) {
        rec.postcode = nonempty_or_none(x);
    } else if str_eq(t, STATUS) {
        rec.status = Some(String::from_str(x));
    } else if str_eq(t, POSITION) {
        match parse_gml_pos(x) {
            Ok(p) => {
                rec.position = p;
            },
            Err(e) => {
                return Err(ConvertError::BadPosition { found: e.found });
            },
        }
    } else if str_eq(t, IDENTIFIER) {
    } else {
        return Ok(false);
    }
    Ok(true)
}

/// The entry that a reference resolves to, where the dictionary has one.
pub open spec fn lookup(dict: Map<Seq<char>, AdditionalInfo>, key: Seq<char>) -> Option<AdditionalInfo> {
    if dict.contains_key(key) {
        Some(dict[key])
    } else {
        None
    }
}

/// How a reference to dictionary entry `info` turns record `d` into `n`: it
/// supplies the code of the unit, city or street that it names. A reference
/// that the dictionary lacks, or to the country, contributes nothing.
pub open spec fn component_rule(d: AddressRecord, n: AddressRecord, info: Option<AdditionalInfo>) -> bool {
    match info {
        None => n == d,
        Some(i) => match i.typ {
            KomponentType::Voivodeship => n == (AddressRecord { voivodeship_teryt: i.teryt_id, ..d }),
            KomponentType::County => n == (AddressRecord { county_teryt: i.teryt_id, ..d }),
            KomponentType::Municipality => n == (AddressRecord { municipality_teryt: i.teryt_id, ..d }),
            KomponentType::City => n == (AddressRecord { city_teryt: i.teryt_id, ..d }),
            KomponentType::Street => n == (AddressRecord { street_teryt: i.teryt_id, ..d }),
            _ => n == d,
        },
    }
}

fn apply_component(rec: &mut AddressRecord, info: Option<&AdditionalInfo>)
    ensures
        component_rule(*old(rec), *final(rec), match info {
            Some(i) => Some(*i),
            None => None,
        }),
{
    if let Some(i) = info {
        match i.typ {
            KomponentType::Voivodeship => {
                rec.voivodeship_teryt = clone_opt(&i.teryt_id);
            },
            KomponentType::County => {
                rec.county_teryt = clone_opt(&i.teryt_id);
            },
            KomponentType::Municipality => {
                rec.municipality_teryt = clone_opt(&i.teryt_id);
            },
            KomponentType::City => {
                rec.city_teryt = clone_opt(&i.teryt_id);
            },
            KomponentType::Street => {
                rec.street_teryt = clone_opt(&i.teryt_id);
            },
            _ => {},
        }
    }
}

/// An address being read.
pub struct OpenAddress {
    pub tracker: TagTracker,
    pub record: AddressRecord,
    /// How many administrative units have been read.
    pub admin_units: u8,
}

/// Reads the addresses of a 2012 document, event by event, against the
/// dictionary built from the same document, and gathers them into batches.
pub struct AddressParser2012 {
    additional_info: StringHashMap<AdditionalInfo>,
    acc: BatchAccumulator,
    open: Option<OpenAddress>,
}

impl AddressParser2012 {
    pub closed spec fn dictionary(&self) -> Map<Seq<char>, AdditionalInfo> {
        self.additional_info@
    }

    pub closed spec fn capacity(&self) -> nat {
        self.acc.capacity()
    }

    /// The records completed since the last batch was handed out.
    pub closed spec fn pending(&self) -> Seq<AddressRecord> {
        self.acc.pending()
    }

    /// The address being read, if any.
    pub closed spec fn reading(&self) -> Option<OpenAddress> {
        self.open
    }

    /// Fewer records are pending than the batch size, and every column of the
    /// batch being filled has one entry per record.
    pub closed spec fn wf(&self) -> bool {
        self.acc.wf() && self.acc.pending().len() < self.acc.capacity() && (self.open matches Some(a)
            ==> a.admin_units <= 4)
    }

    pub fn new(additional_info: StringHashMap<AdditionalInfo>, batch_size: usize) -> (r: AddressParser2012)
        requires
            batch_size > 0,
        ensures
            r.wf(),
            r.dictionary() == additional_info@,
            r.capacity() == batch_size,
            r.pending() == Seq::<AddressRecord>::empty(),
            r.reading().is_none(),
    {
        AddressParser2012 { additional_info, acc: BatchAccumulator::new(batch_size), open: None }
    }

    /// Takes one event of the document. The closing tag of an address appends
    /// its record, and hands out a batch exactly when that makes as many rows as
    /// the batch size.
    pub fn feed(&mut self, ev: XmlEvent) -> (r: Result<Step, ConvertError>)
        requires
            old(self).wf(),
        ensures
            final(self).wf(),
            final(self).dictionary() == old(self).dictionary(),
            final(self).capacity() == old(self).capacity(),
            old(self).reading().is_none() ==> (r matches Ok(Step::Nothing)) && final(self).pending()
                == old(self).pending() && match ev {
                XmlEvent::Start { name, attributes } => if name@ == ADDRESS_TAG@ {
                    final(self).reading() matches Some(a) && a.record == AddressRecord::spec_empty()
                        && a.admin_units == 0 && a.tracker.target().is_none()
                } else {
                    final(self).reading().is_none()
                },
                _ => final(self).reading().is_none(),
            },
            old(self).reading() matches Some(a) ==> match ev {
                XmlEvent::End(name) => if name@ == ADDRESS_TAG@ {
                    final(self).reading().is_none() && if old(self).pending().len() + 1 == old(self).capacity() {
                        (r matches Ok(Step::Batch(b)) && b.wf() && b.rows() == old(self).pending().push(a.record))
                            && final(self).pending() == Seq::<AddressRecord>::empty()
                    } else {
                        (r matches Ok(Step::Nothing)) && final(self).pending() == old(self).pending().push(a.record)
                    }
                } else {
                    (r matches Ok(Step::Nothing)) && final(self).pending() == old(self).pending()
                        && final(self).reading() == old(self).reading()
                },
                XmlEvent::Text(x) => final(self).pending() == old(self).pending() && match a.tracker.target() {
                    Some(t) => (r.is_err() == address_text_fails(a.admin_units as int, t, trimmed(x@)))
                        && (r.is_ok() ==> (final(self).reading() matches Some(p) && address_text_rule(
                        a.record, a.admin_units as int, p.record, p.admin_units as int, t, trimmed(x@))
                        && p.tracker.target().is_none()))
                        && (r matches Ok(Step::UnknownElement(u)) <==> r.is_ok() && !known_address_element(t))
                        && (r matches Ok(Step::UnknownElement(u)) ==> u@ == t)
                        && !(r matches Ok(Step::Batch(_))),
                    None => (r matches Ok(Step::Nothing)) && final(self).reading() == old(self).reading(),
                },
                XmlEvent::Start { name, attributes } => final(self).pending() == old(self).pending()
                    && if name@ == COMPONENT@ {
                    match attr_value(attributes@, HREF_ATTRIBUTE@) {
                        None => r.is_err(),
                        Some(h) => (r matches Ok(Step::Nothing)) && (final(self).reading() matches Some(p)
                            && component_rule(a.record, p.record, lookup(old(self).dictionary(), h))
                            && p.admin_units == a.admin_units && p.tracker.target().is_none()),
                    }
                } else {
                    (r matches Ok(Step::Nothing)) && (final(self).reading() matches Some(p) && p.record
                        == a.record && p.admin_units == a.admin_units && p.tracker.target() == (if address_role(name@)
                        == TagRole::Leaf {
                        Some(name@)
                    } else {
                        None
                    }))
                },
            },
    {
        let mut cur: Option<OpenAddress> = None;
        core::mem::swap(&mut cur, &mut self.open);
        match cur {
            None => {
                if let XmlEvent::Start { name, attributes } = ev {
                    if str_eq(name.as_str(), ADDRESS_TAG) {
                        self.open = Some(
                            OpenAddress {
                                tracker: TagTracker::new(),
                                record: AddressRecord::empty(),
                                admin_units: 0,
                            },
                        );
                    }
                }
                Ok(Step::Nothing)
            },
            Some(mut a) => match ev {
                XmlEvent::End(name) => {
                    if str_eq(name.as_str(), ADDRESS_TAG) {
                        match self.acc.push_record(a.record) {
                            Some(b) => Ok(Step::Batch(b)),
                            None => Ok(Step::Nothing),
                        }
                    } else {
                        self.open = Some(a);
                        Ok(Step::Nothing)
                    }
                },
                XmlEvent::Text(x) => {
                    match a.tracker.take_text_target() {
                        Some(t) => {
                            let res = apply_address_text(&mut a.record, &mut a.admin_units, t.as_str(), trim(x.as_str()));
                            self.open = Some(a);
                            match res {
                                Ok(true) => Ok(Step::Nothing),
                                Ok(false) => Ok(Step::UnknownElement(t)),
                                Err(e) => Err(e),
                            }
                        },
                        None => {
                            self.open = Some(a);
                            Ok(Step::Nothing)
                        },
                    }
                },
                XmlEvent::Start { name, attributes } => {
                    if str_eq(name.as_str(), COMPONENT) {
                        match get_attribute(&attributes, HREF_ATTRIBUTE) {
                            None => {
                                return Err(
                                    ConvertError::MissingAttribute {
                                        element: name,
                                        attribute: String::from_str(HREF_ATTRIBUTE),
                                    },
                                );
                            },
                            Some(h) => {
                                apply_component(&mut a.record, self.additional_info.get(h.as_str()));
                            },
                        }
                        a.tracker.open(name, TagRole::Reference);
                    } else {
                        let role = role_of(name.as_str());
                        a.tracker.open(name, role);
                    }
                    self.open = Some(a);
                    Ok(Step::Nothing)
                },
            },
        }
    }

    /// The end of the document: the last, partial batch where it has rows. The
    /// document must not end inside an address.
    pub fn finish(&mut self) -> (r: Result<Option<Batch>, ConvertError>)
        requires
            old(self).wf(),
        ensures
            final(self).wf(),
            final(self).capacity() == old(self).capacity(),
            final(self).reading() == old(self).reading(),
            r.is_err() == old(self).reading().is_some(),
            r.is_ok() ==> final(self).pending() == Seq::<AddressRecord>::empty(),
            r matches Ok(Some(b)) ==> old(self).pending().len() > 0 && b.wf() && b.rows() == old(self).pending(),
            r matches Ok(None) ==> old(self).pending().len() == 0,
    {
        if self.open.is_some() {
            return Err(ConvertError::UnexpectedEnd);
        }
        Ok(self.acc.finish())
    }
}

} // verus!
