//! Address records and their columnar accumulation into batches.
use vstd::prelude::*;
use crate::common::GridPos;

verus! {

/// One address point, every field nullable. Timestamps are milliseconds since
/// the Unix epoch (UTC); dates are days since 1970-01-01.
pub struct AddressRecord {
    pub id_namespace: Option<String>,
    pub local_id: Option<String>,
    pub version: Option<i64>,
    pub lifecycle_start: Option<i64>,
    pub valid_from: Option<i32>,
    pub valid_to: Option<i32>,
    pub voivodeship_teryt: Option<String>,
    pub voivodeship: Option<String>,
    pub county_teryt: Option<String>,
    pub county: Option<String>,
    pub municipality_teryt: Option<String>,
    pub municipality: Option<String>,
    pub city_teryt: Option<String>,
    pub city: Option<String>,
    pub city_part: Option<String>,
    pub street_teryt: Option<String>,
    pub street: Option<String>,
    pub house_number: Option<String>,
    pub postcode: Option<String>,
    pub status: Option<String>,
    pub position: Option<GridPos>,
}

impl AddressRecord {
    /// A record with every field absent.
    pub open spec fn spec_empty() -> AddressRecord {
        AddressRecord {
            id_namespace: None,
            local_id: None,
            version: None,
            lifecycle_start: None,
            valid_from: None,
            valid_to: None,
            voivodeship_teryt: None,
            voivodeship: None,
            county_teryt: None,
            county: None,
            municipality_teryt: None,
            municipality: None,
            city_teryt: None,
            city: None,
            city_part: None,
            street_teryt: None,
            street: None,
            house_number: None,
            postcode: None,
            status: None,
            position: None,
        }
    }

    pub fn empty() -> (r: AddressRecord)
        ensures
            r == AddressRecord::spec_empty(),
    {
        AddressRecord {
            id_namespace: None,
            local_id: None,
            version: None,
            lifecycle_start: None,
            valid_from: None,
            valid_to: None,
            voivodeship_teryt: None,
            voivodeship: None,
            county_teryt: None,
            county: None,
            municipality_teryt: None,
            municipality: None,
            city_teryt: None,
            city: None,
            city_part: None,
            street_teryt: None,
            street: None,
            house_number: None,
            postcode: None,
            status: None,
            position: None,
        }
    }
}

/// Records stored column by column: one vector per field of
/// [`AddressRecord`], a `None` entry being a null.
pub struct Batch {
    pub id_namespace: Vec<Option<String>>,
    pub local_id: Vec<Option<String>>,
    pub version: Vec<Option<i64>>,
    pub lifecycle_start: Vec<Option<i64>>,
    pub valid_from: Vec<Option<i32>>,
    pub valid_to: Vec<Option<i32>>,
    pub voivodeship_teryt: Vec<Option<String>>,
    pub voivodeship: Vec<Option<String>>,
    pub county_teryt: Vec<Option<String>>,
    pub county: Vec<Option<String>>,
    pub municipality_teryt: Vec<Option<String>>,
    pub municipality: Vec<Option<String>>,
    pub city_teryt: Vec<Option<String>>,
    pub city: Vec<Option<String>>,
    pub city_part: Vec<Option<String>>,
    pub street_teryt: Vec<Option<String>>,
    pub street: Vec<Option<String>>,
    pub house_number: Vec<Option<String>>,
    pub postcode: Vec<Option<String>>,
    pub status: Vec<Option<String>>,
    pub position: Vec<Option<GridPos>>,
}

impl Batch {
    /// The number of rows: the length of the first column.
    pub open spec fn spec_len(&self) -> nat {
        self.local_id@.len()
    }

    /// Every column has the same length.
    pub open spec fn wf(&self) -> bool {
        let n = self.local_id@.len();
        &&& self.id_namespace@.len() == n
        &&& self.version@.len() == n
        &&& self.lifecycle_start@.len() == n
        &&& self.valid_from@.len() == n
        &&& self.valid_to@.len() == n
        &&& self.voivodeship_teryt@.len() == n
        &&& self.voivodeship@.len() == n
        &&& self.county_teryt@.len() == n
        &&& self.county@.len() == n
        &&& self.municipality_teryt@.len() == n
        &&& self.municipality@.len() == n
        &&& self.city_teryt@.len() == n
        &&& self.city@.len() == n
        &&& self.city_part@.len() == n
        &&& self.street_teryt@.len() == n
        &&& self.street@.len() == n
        &&& self.house_number@.len() == n
        &&& self.postcode@.len() == n
        &&& self.status@.len() == n
        &&& self.position@.len() == n
    }

    /// Row `i`, read across the columns.
    pub open spec fn row(&self, i: int) -> AddressRecord {
        AddressRecord {
            id_namespace: self.id_namespace@[i],
            local_id: self.local_id@[i],
            version: self.version@[i],
            lifecycle_start: self.lifecycle_start@[i],
            valid_from: self.valid_from@[i],
            valid_to: self.valid_to@[i],
            voivodeship_teryt: self.voivodeship_teryt@[i],
            voivodeship: self.voivodeship@[i],
            county_teryt: self.county_teryt@[i],
            county: self.county@[i],
            municipality_teryt: self.municipality_teryt@[i],
            municipality: self.municipality@[i],
            city_teryt: self.city_teryt@[i],
            city: self.city@[i],
            city_part: self.city_part@[i],
            street_teryt: self.street_teryt@[i],
            street: self.street@[i],
            house_number: self.house_number@[i],
            postcode: self.postcode@[i],
            status: self.status@[i],
            position: self.position@[i],
        }
    }

    /// The records held, in the order they were appended.
    pub open spec fn rows(&self) -> Seq<AddressRecord> {
        Seq::new(self.spec_len(), |i: int| self.row(i))
    }

    pub fn new() -> (r: Batch)
        ensures
            r.wf(),
            r.rows() == Seq::<AddressRecord>::empty(),
    {
        let r = Batch {
            id_namespace: Vec::new(),
            local_id: Vec::new(),
            version: Vec::new(),
            lifecycle_start: Vec::new(),
            valid_from: Vec::new(),
            valid_to: Vec::new(),
            voivodeship_teryt: Vec::new(),
            voivodeship: Vec::new(),
            county_teryt: Vec::new(),
            county: Vec::new(),
            municipality_teryt: Vec::new(),
            municipality: Vec::new(),
            city_teryt: Vec::new(),
            city: Vec::new(),
            city_part: Vec::new(),
            street_teryt: Vec::new(),
            street: Vec::new(),
            house_number: Vec::new(),
            postcode: Vec::new(),
            status: Vec::new(),
            position: Vec::new(),
        };
        assert(r.rows() =~= Seq::<AddressRecord>::empty());
        r
    }

    pub fn len(&self) -> (r: usize)
        ensures
            r == self.spec_len(),
    {
        self.local_id.len()
    }

    /// Appends one row: every column grows by exactly one entry.
    pub fn push(&mut self, rec: AddressRecord)
        requires
            old(self).wf(),
        ensures
            final(self).wf(),
            final(self).rows() == old(self).rows().push(rec),
    {
        let ghost before = self.rows();
        let AddressRecord {
            id_namespace,
            local_id,
            version,
            lifecycle_start,
            valid_from,
            valid_to,
            voivodeship_teryt,
            voivodeship,
            county_teryt,
            county,
            municipality_teryt,
            municipality,
            city_teryt,
            city,
            city_part,
            street_teryt,
            street,
            house_number,
            postcode,
            status,
            position,
        } = rec;
        self.id_namespace.push(id_namespace);
        self.local_id.push(local_id);
        self.version.push(version);
        self.lifecycle_start.push(lifecycle_start);
        self.valid_from.push(valid_from);
        self.valid_to.push(valid_to);
        self.voivodeship_teryt.push(voivodeship_teryt);
        self.voivodeship.push(voivodeship);
        self.county_teryt.push(county_teryt);
        self.county.push(county);
        self.municipality_teryt.push(municipality_teryt);
        self.municipality.push(municipality);
        self.city_teryt.push(city_teryt);
        self.city.push(city);
        self.city_part.push(city_part);
        self.street_teryt.push(street_teryt);
        self.street.push(street);
        self.house_number.push(house_number);
        self.postcode.push(postcode);
        self.status.push(status);
        self.position.push(position);
        assert(self.rows() =~= before.push(rec));
    }
}

/// What one event of the document gives the caller.
pub enum Step {
    Nothing,
    /// Text of an element that the parser does not know, which it skips; the
    /// element's name is given for the caller to report.
    UnknownElement(String),
    /// A city whose municipality code the administrative-unit table lacks;
    /// the code is given for the caller to report.
    UnknownMunicipality(String),
    /// A batch that has reached the configured number of rows.
    Batch(Batch),
}

/// Collects records into batches of a fixed number of rows.
pub struct BatchAccumulator {
    batch_size: usize,
    current: Batch,
}

impl BatchAccumulator {
    pub closed spec fn capacity(&self) -> nat {
        self.batch_size as nat
    }

    /// The records appended since the last flush.
    pub closed spec fn pending(&self) -> Seq<AddressRecord> {
        self.current.rows()
    }

    pub closed spec fn wf(&self) -> bool {
        self.batch_size > 0 && self.current.wf()
    }

    pub fn new(batch_size: usize) -> (r: BatchAccumulator)
        requires
            batch_size > 0,
        ensures
            r.wf(),
            r.capacity() == batch_size,
            r.pending() == Seq::<AddressRecord>::empty(),
    {
        BatchAccumulator { batch_size, current: Batch::new() }
    }

    /// Adds one row, writing a null into every column whose field is absent.
    pub fn append(&mut self, rec: AddressRecord)
        requires
            old(self).wf(),
        ensures
            final(self).wf(),
            final(self).capacity() == old(self).capacity(),
            final(self).pending() == old(self).pending().push(rec),
    {
        self.current.push(rec);
    }

    pub fn pending_len(&self) -> (r: usize)
        requires
            self.wf(),
        ensures
            r == self.pending().len(),
    {
        self.current.len()
    }

    /// Whether the row count has reached the batch size.
    pub fn should_flush(&self) -> (r: bool)
        requires
            self.wf(),
        ensures
            r == (self.pending().len() >= self.capacity()),
    {
        self.current.len() >= self.batch_size
    }

    /// Hands out every pending row as one batch and starts an empty one.
    pub fn flush(&mut self) -> (r: Batch)
        requires
            old(self).wf(),
        ensures
            final(self).wf(),
            final(self).capacity() == old(self).capacity(),
            final(self).pending() == Seq::<AddressRecord>::empty(),
            r.wf(),
            r.rows() == old(self).pending(),
    {
        let mut out = Batch::new();
        core::mem::swap(&mut out, &mut self.current);
        out
    }

    /// Appends a record, and hands out the batch as soon as it holds as many
    /// rows as the batch size.
    pub fn push_record(&mut self, rec: AddressRecord) -> (r: Option<Batch>)
        requires
            old(self).wf(),
            old(self).pending().len() < old(self).capacity(),
        ensures
            final(self).wf(),
            final(self).capacity() == old(self).capacity(),
            final(self).pending().len() < final(self).capacity(),
            if old(self).pending().len() + 1 == old(self).capacity() {
                (r matches Some(b) && b.wf() && b.rows() == old(self).pending().push(rec))
                    && final(self).pending() == Seq::<AddressRecord>::empty()
            } else {
                r.is_none() && final(self).pending() == old(self).pending().push(rec)
            },
    {
        self.append(rec);
        if self.should_flush() {
            Some(self.flush())
        } else {
            None
        }
    }

    /// The last, partial batch at the end of the input; none where it would be
    /// empty.
    pub fn finish(&mut self) -> (r: Option<Batch>)
        requires
            old(self).wf(),
        ensures
            final(self).wf(),
            final(self).capacity() == old(self).capacity(),
            final(self).pending() == Seq::<AddressRecord>::empty(),
            match r {
                Some(b) => old(self).pending().len() > 0 && b.wf() && b.rows() == old(
                    self,
                ).pending(),
                None => old(self).pending().len() == 0,
            },
    {
        if self.current.len() == 0 {
            assert(self.current.rows() =~= Seq::<AddressRecord>::empty());
            None
        } else {
            Some(self.flush())
        }
    }
}

} // verus!
