//! The national table of administrative units, turned into a lookup from a
//! municipality's seven-digit code to its names and those of its county and
//! voivodeship.
use vstd::prelude::*;
use vstd::hash_map::StringHashMap;
use crate::common::{clone_opt, ConvertError};
use crate::dates::{lower_of, lowercase};

verus! {

/// The names and codes that a municipality code stands for.
pub struct Terc {
    pub voivodeship_teryt_id: String,
    pub voivodeship_name: String,
    pub county_teryt_id: String,
    pub county_name: String,
    pub municipality_name: String,
}

/// One row of the table: the code's segments, of which the later ones are
/// absent for a voivodeship or a county, and the unit's name.
pub struct TercRow {
    pub woj: String,
    pub pow: Option<String>,
    pub gmi: Option<String>,
    pub rodz: Option<String>,
    pub nazwa: String,
}

/// The level of administrative unit that a composite code denotes.
#[derive(PartialEq, Eq, Structural, Clone, Copy, Debug)]
pub enum UnitLevel {
    Voivodeship,
    County,
    Municipality,
}

/// Codes of two, four and seven digits are voivodeships, counties and
/// municipalities; no other length is known.
pub open spec fn unit_level(code: Seq<char>) -> Option<UnitLevel> {
    if code.len() == 2 {
        Some(UnitLevel::Voivodeship)
    } else if code.len() == 4 {
        Some(UnitLevel::County)
    } else if code.len() == 7 {
        Some(UnitLevel::Municipality)
    } else {
        None
    }
}

pub fn classify_code(code: &str) -> (r: Option<UnitLevel>)
    ensures
        r == unit_level(code@),
{
    let n = code.unicode_len();
    if n == 2 {
        Some(UnitLevel::Voivodeship)
    } else if n == 4 {
        Some(UnitLevel::County)
    } else if n == 7 {
        Some(UnitLevel::Municipality)
    } else {
        None
    }
}

pub open spec fn segment(s: Option<String>) -> Seq<char> {
    match s {
        Some(v) => v@,
        None => Seq::empty(),
    }
}

/// The composite code of a row: its segments in order.
pub open spec fn row_code(row: TercRow) -> Seq<char> {
    row.woj@ + segment(row.pow) + segment(row.gmi) + segment(row.rodz)
}

fn append_segment(code: &mut String, s: &Option<String>)
    ensures
        final(code)@ == old(code)@ + segment(*s),
{
    match s {
        Some(v) => code.append(v.as_str()),
        None => {
            assert(old(code)@ + Seq::<char>::empty() =~= old(code)@);
        },
    }
}

pub fn composite_code(row: &TercRow) -> (r: String)
    ensures
        r@ == row_code(*row),
{
    let mut code = row.woj.clone();
    append_segment(&mut code, &row.pow);
    append_segment(&mut code, &row.gmi);
    append_segment(&mut code, &row.rodz);
    code
}

pub open spec fn names(m: Map<Seq<char>, String>) -> Map<Seq<char>, Seq<char>> {
    m.map_values(|s: String| s@)
}

/// The entry `t` of municipality `code`, named `name`, given the voivodeship
/// and county names read before it: the parents' codes are the first two and
/// four digits of its code.
pub open spec fn entry_from(
    code: Seq<char>,
    voivodeships: Map<Seq<char>, Seq<char>>,
    counties: Map<Seq<char>, Seq<char>>,
    name: Seq<char>,
    t: Terc,
) -> bool {
    &&& t.voivodeship_teryt_id@ == code.subrange(0, 2)
    &&& t.voivodeship_name@ == voivodeships[code.subrange(0, 2)]
    &&& t.county_teryt_id@ == code.subrange(0, 4)
    &&& t.county_name@ == counties[code.subrange(0, 4)]
    &&& t.municipality_name@ == name
}

/// The table read so far: voivodeship and county names by code, and the
/// entries of the municipalities.
pub struct TercBuilder {
    voivodeships: StringHashMap<String>,
    counties: StringHashMap<String>,
    municipalities: StringHashMap<Terc>,
}

impl TercBuilder {
    pub closed spec fn voivodeships(&self) -> Map<Seq<char>, Seq<char>> {
        names(self.voivodeships@)
    }

    pub closed spec fn counties(&self) -> Map<Seq<char>, Seq<char>> {
        names(self.counties@)
    }

    pub closed spec fn municipalities(&self) -> Map<Seq<char>, Terc> {
        self.municipalities@
    }

    pub fn new() -> (r: TercBuilder)
        ensures
            r.voivodeships() == Map::<Seq<char>, Seq<char>>::empty(),
            r.counties() == Map::<Seq<char>, Seq<char>>::empty(),
            r.municipalities() == Map::<Seq<char>, Terc>::empty(),
    {
        let r = TercBuilder {
            voivodeships: StringHashMap::new(),
            counties: StringHashMap::new(),
            municipalities: StringHashMap::new(),
        };
        assert(r.voivodeships() =~= Map::<Seq<char>, Seq<char>>::empty());
        assert(r.counties() =~= Map::<Seq<char>, Seq<char>>::empty());
        r
    }

    /// Takes one row. A voivodeship is kept under its code with its name in
    /// lower case; a county under its code; a municipality gets the names of
    /// the voivodeship of the first two digits of its code and of the county
    /// of the first four, which must have come before it. A code of any other
    /// length is an error.
    pub fn add_row(&mut self, row: TercRow) -> (r: Result<(), ConvertError>)
        ensures
            match unit_level(row_code(row)) {
                None => r.is_err() && *final(self) == *old(self),
                Some(UnitLevel::Voivodeship) => r.is_ok() && final(self).voivodeships()
                    == old(self).voivodeships().insert(row_code(row), lower_of(row.nazwa@))
                    && final(self).counties() == old(self).counties() && final(self).municipalities()
                    == old(self).municipalities(),
                Some(UnitLevel::County) => r.is_ok() && final(self).counties()
                    == old(self).counties().insert(row_code(row), row.nazwa@)
                    && final(self).voivodeships() == old(self).voivodeships()
                    && final(self).municipalities() == old(self).municipalities(),
                Some(UnitLevel::Municipality) => {
                    let code = row_code(row);
                    if old(self).voivodeships().contains_key(code.subrange(0, 2)) && old(self).counties().contains_key(code.subrange(0, 4)) {
                        r.is_ok() && final(self).voivodeships() == old(self).voivodeships()
                            && final(self).counties() == old(self).counties() && exists|t: Terc|
                            entry_from(code, old(self).voivodeships(), old(self).counties(), row.nazwa@, t)
                            && final(self).municipalities() == old(self).municipalities().insert(code, t)
                    } else {
                        r.is_err() && *final(self) == *old(self)
                    }
                },
            },
    {
        let code = composite_code(&row);
        match classify_code(code.as_str()) {
            None => Err(ConvertError::UnknownTerytCode { code }),
            Some(UnitLevel::Voivodeship) => {
                let name = lowercase(row.nazwa.as_str());
                self.voivodeships.insert(code, name);
                assert(self.voivodeships() =~= old(self).voivodeships().insert(row_code(row), lower_of(row.nazwa@)));
                Ok(())
            },
            Some(UnitLevel::County) => {
                let TercRow { woj, pow, gmi, rodz, nazwa } = row;
                self.counties.insert(code, nazwa);
                assert(self.counties() =~= old(self).counties().insert(row_code(row), row.nazwa@));
                Ok(())
            },
            Some(UnitLevel::Municipality) => {
                let voivodeship_code = String::from_str(code.as_str().substring_char(0, 2));
                let county_code = String::from_str(code.as_str().substring_char(0, 4));
                assert(self.voivodeships().dom() =~= self.voivodeships@.dom());
                assert(self.counties().dom() =~= self.counties@.dom());
                let voivodeship_name = match self.voivodeships.get(voivodeship_code.as_str()) {
                    Some(v) => v.clone(),
                    None => {
                        return Err(ConvertError::MissingParentUnit { code });
                    },
                };
                let county_name = match self.counties.get(county_code.as_str()) {
                    Some(c) => c.clone(),
                    None => {
                        return Err(ConvertError::MissingParentUnit { code });
                    },
                };
                let TercRow { woj, pow, gmi, rodz, nazwa } = row;
                let entry = Terc {
                    voivodeship_teryt_id: voivodeship_code,
                    voivodeship_name,
                    county_teryt_id: county_code,
                    county_name,
                    municipality_name: nazwa,
                };
                let ghost witness = entry;
                self.municipalities.insert(code, entry);
                assert(witness.voivodeship_name@ == old(self).voivodeships()[witness.voivodeship_teryt_id@]);
                assert(witness.county_name@ == old(self).counties()[witness.county_teryt_id@]);
                assert(self.municipalities() == old(self).municipalities().insert(row_code(row), witness));
                assert(entry_from(row_code(row), old(self).voivodeships(), old(self).counties(), row.nazwa@, witness));
                Ok(())
            },
        }
    }

    /// The lookup from municipality code to its entry.
    pub fn into_mapping(self) -> (r: StringHashMap<Terc>)
        ensures
            r@ == self.municipalities(),
    {
        self.municipalities
    }
}

/// The voivodeship names that `rows` define, by code, in lower case; a later
/// row of the same code replaces an earlier one.
pub open spec fn voivodeship_names(rows: Seq<TercRow>) -> Map<Seq<char>, Seq<char>>
    decreases rows.len(),
{
    if rows.len() == 0 {
        Map::empty()
    } else {
        let prev = voivodeship_names(rows.drop_last());
        let r = rows.last();
        if unit_level(row_code(r)) == Some(UnitLevel::Voivodeship) {
            prev.insert(row_code(r), lower_of(r.nazwa@))
        } else {
            prev
        }
    }
}

/// The county names that `rows` define, by code.
pub open spec fn county_names(rows: Seq<TercRow>) -> Map<Seq<char>, Seq<char>>
    decreases rows.len(),
{
    if rows.len() == 0 {
        Map::empty()
    } else {
        let prev = county_names(rows.drop_last());
        let r = rows.last();
        if unit_level(row_code(r)) == Some(UnitLevel::County) {
            prev.insert(row_code(r), r.nazwa@)
        } else {
            prev
        }
    }
}

/// A table that can be read: every code has two, four or seven digits, and
/// the voivodeship and county of every municipality come before it.
pub open spec fn table_valid(rows: Seq<TercRow>) -> bool
    decreases rows.len(),
{
    rows.len() == 0 || {
        let prev = rows.drop_last();
        let c = row_code(rows.last());
        table_valid(prev) && match unit_level(c) {
            None => false,
            Some(UnitLevel::Municipality) => voivodeship_names(prev).contains_key(c.subrange(0, 2))
                && county_names(prev).contains_key(c.subrange(0, 4)),
            _ => true,
        }
    }
}

/// `t` is the entry that the first `n` rows of `rows` give municipality `k`:
/// the last of those rows with code `k` names it, and the voivodeship and
/// county names come from the rows before that one.
pub open spec fn entry_within(rows: Seq<TercRow>, k: Seq<char>, t: Terc, n: int) -> bool {
    exists|i: int|
        0 <= i < n && #[trigger] row_code(rows[i]) == k && k.len() == 7 && (forall|j: int|
            i < j < n ==> row_code(#[trigger] rows[j]) != k) && entry_from(
            k,
            voivodeship_names(rows.take(i)),
            county_names(rows.take(i)),
            rows[i].nazwa@,
            t,
        )
}

/// `t` is the entry of municipality `k` in table `rows`: the last row with
/// code `k` names it, and the voivodeship and county names come from the rows
/// before that one.
pub open spec fn municipality_entry(rows: Seq<TercRow>, k: Seq<char>, t: Terc) -> bool {
    entry_within(rows, k, t, rows.len() as int)
}

proof fn lemma_valid_prefix(rows: Seq<TercRow>, n: int)
    requires
        table_valid(rows),
        0 <= n <= rows.len(),
    ensures
        table_valid(rows.take(n)),
    decreases rows.len(),
{
    if n == rows.len() {
        assert(rows.take(n) =~= rows);
    } else {
        lemma_valid_prefix(rows.drop_last(), n);
        assert(rows.drop_last().take(n) =~= rows.take(n));
    }
}

fn copy_row(row: &TercRow) -> (r: TercRow)
    ensures
        r == *row,
{
    TercRow {
        woj: row.woj.clone(),
        pow: clone_opt(&row.pow),
        gmi: clone_opt(&row.gmi),
        rodz: clone_opt(&row.rodz),
        nazwa: row.nazwa.clone(),
    }
}

/// The lookup from municipality code to its entry, for the whole table. It
/// is read where every code has two, four or seven digits and every
/// municipality comes after its voivodeship and county; then its keys are the
/// seven-digit codes, and each entry has the voivodeship and county codes
/// that prefix its own, with their names.
pub fn terc_mapping(rows: Vec<TercRow>) -> (r: Result<StringHashMap<Terc>, ConvertError>)
    ensures
        r.is_ok() == table_valid(rows@),
        r matches Ok(m) ==> forall|k: Seq<char>|
            m@.contains_key(k) <==> exists|i: int|
                0 <= i < rows@.len() && #[trigger] row_code(rows@[i]) == k && k.len() == 7,
        r matches Ok(m) ==> forall|k: Seq<char>|
            #[trigger] m@.contains_key(k) ==> municipality_entry(rows@, k, m@[k]),
{
    let mut b = TercBuilder::new();
    let mut i: usize = 0;
    assert(rows@.take(0) =~= Seq::<TercRow>::empty());
    while i < rows.len()
        invariant
            i <= rows@.len(),
            b.voivodeships() == voivodeship_names(rows@.take(i as int)),
            b.counties() == county_names(rows@.take(i as int)),
            table_valid(rows@.take(i as int)),
            forall|k: Seq<char>|
                b.municipalities().contains_key(k) <==> exists|j: int|
                    0 <= j < i && #[trigger] row_code(rows@[j]) == k && k.len() == 7,
            forall|k: Seq<char>|
                #[trigger] b.municipalities().contains_key(k) ==> entry_within(
                    rows@,
                    k,
                    b.municipalities()[k],
                    i as int,
                ),
        decreases rows@.len() - i,
    {
        let row = copy_row(&rows[i]);
        let ghost pre = rows@.take(i as int);
        let ghost cur = rows@.take(i + 1);
        let ghost old_b = b;
        let ghost code = row_code(row);
        assert(cur.drop_last() =~= pre);
        assert(cur.last() == rows@[i as int]);
        match b.add_row(row) {
            Err(e) => {
                proof {
                    if table_valid(rows@) {
                        lemma_valid_prefix(rows@, i + 1);
                    }
                }
                return Err(e);
            },
            Ok(()) => {},
        }
        proof {
            if unit_level(code) == Some(UnitLevel::Municipality) {
                let t = choose|t: Terc|
                    entry_from(code, old_b.voivodeships(), old_b.counties(), rows@[i as int].nazwa@, t)
                        && b.municipalities() == old_b.municipalities().insert(code, t);
                assert(row_code(rows@[i as int]) == code);
                assert(entry_within(rows@, code, t, i + 1));
                assert forall|k: Seq<char>|
                    #[trigger] b.municipalities().contains_key(k) implies entry_within(
                        rows@,
                        k,
                        b.municipalities()[k],
                        i + 1,
                    ) by {
                    if k != code {
                        let w = choose|w: int|
                            0 <= w < i && #[trigger] row_code(rows@[w]) == k && k.len() == 7 && (forall|j: int|
                                w < j < i ==> row_code(#[trigger] rows@[j]) != k) && entry_from(
                                k,
                                voivodeship_names(rows@.take(w)),
                                county_names(rows@.take(w)),
                                rows@[w].nazwa@,
                                old_b.municipalities()[k],
                            );
                        assert(row_code(rows@[i as int]) != k);
                        assert(forall|j: int| w < j < i + 1 ==> row_code(#[trigger] rows@[j]) != k);
                    }
                }
                assert forall|k: Seq<char>|
                    b.municipalities().contains_key(k) <==> exists|j: int|
                        0 <= j < i + 1 && #[trigger] row_code(rows@[j]) == k && k.len() == 7 by {
                    if k == code {
                        assert(row_code(rows@[i as int]) == k);
                    }
                    if exists|j: int| 0 <= j < i + 1 && #[trigger] row_code(rows@[j]) == k && k.len() == 7 {
                        let j = choose|j: int| 0 <= j < i + 1 && #[trigger] row_code(rows@[j]) == k && k.len() == 7;
                        if j < i {
                            assert(old_b.municipalities().contains_key(k));
                        }
                    }
                }
            } else {
                assert forall|k: Seq<char>|
                    #[trigger] b.municipalities().contains_key(k) implies entry_within(
                        rows@,
                        k,
                        b.municipalities()[k],
                        i + 1,
                    ) by {
                    let w = choose|w: int|
                        0 <= w < i && #[trigger] row_code(rows@[w]) == k && k.len() == 7 && (forall|j: int|
                            w < j < i ==> row_code(#[trigger] rows@[j]) != k) && entry_from(
                            k,
                            voivodeship_names(rows@.take(w)),
                            county_names(rows@.take(w)),
                            rows@[w].nazwa@,
                            old_b.municipalities()[k],
                        );
                    assert(row_code(rows@[i as int]) != k);
                    assert(forall|j: int| w < j < i + 1 ==> row_code(#[trigger] rows@[j]) != k);
                }
                assert forall|k: Seq<char>|
                    b.municipalities().contains_key(k) <==> exists|j: int|
                        0 <= j < i + 1 && #[trigger] row_code(rows@[j]) == k && k.len() == 7 by {
                    if exists|j: int| 0 <= j < i + 1 && #[trigger] row_code(rows@[j]) == k && k.len() == 7 {
                        let j = choose|j: int| 0 <= j < i + 1 && #[trigger] row_code(rows@[j]) == k && k.len() == 7;
                        if j < i {
                            assert(old_b.municipalities().contains_key(k));
                        } else {
                            assert(row_code(rows@[i as int]) == code);
                        }
                    }
                }
            }
        }
        i = i + 1;
    }
    assert(rows@.take(rows@.len() as int) =~= rows@);
    Ok(b.into_mapping())
}

} // verus!
