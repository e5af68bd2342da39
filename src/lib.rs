//! Conversion of national address-registry feature documents into columnar
//! batches of address records.
//!
//! A document is read twice. The first pass feeds its events to a dictionary
//! builder ([`model2012::DictBuilder2012`], [`model2021::DictBuilder2021`]);
//! the second feeds them to an address parser, which resolves references
//! against the dictionary and hands out batches of a fixed number of rows.
use vstd::prelude::*;
use crate::dates::{lower_of, lowercase};
use crate::text::str_eq;

pub mod batch;
pub mod common;
pub mod dates;
pub mod model2012;
pub mod model2021;
pub mod terc;
pub mod text;
pub mod tracker;

verus! {

/// The order of the two coordinates of a point.
#[derive(PartialEq, Eq, Structural, Clone, Copy, Debug)]
pub enum CoordOrder {
    XY,
    YX,
}

/// The shape of the output: flat text columns, or columns with a geometry.
#[derive(PartialEq, Eq, Structural, Clone, Copy, Debug)]
pub enum OutputFormat {
    CSV,
    GeoParquet,
}

/// The kind of an input file.
#[derive(PartialEq, Eq, Structural, Clone, Copy, Debug)]
pub enum FileType {
    XML,
    ZIP,
}

/// The generation of the document schema.
#[derive(PartialEq, Eq, Structural, Clone, Copy, Debug)]
pub enum SchemaVersion {
    Model2012,
    Model2021,
}

/// The coordinate system of an output geometry: the national grid or
/// geographic degrees.
#[derive(PartialEq, Eq, Structural, Clone, Copy, Debug)]
pub enum CRS {
    Epsg2180,
    Epsg4326,
}

impl OutputFormat {
    pub open spec fn spec_name(self) -> Seq<char> {
        match self {
            OutputFormat::CSV => "csv"@,
            OutputFormat::GeoParquet => "geoparquet"@,
        }
    }

    /// The format's name, as it is given on the command line.
    pub fn name(&self) -> (r: &'static str)
        ensures
            r@ == self.spec_name(),
    {
        match self {
            OutputFormat::CSV => "csv",
            OutputFormat::GeoParquet => "geoparquet",
        }
    }
}

impl FileType {
    pub open spec fn spec_name(self) -> Seq<char> {
        match self {
            FileType::XML => "XML"@,
            FileType::ZIP => "ZIP"@,
        }
    }

    pub fn name(&self) -> (r: &'static str)
        ensures
            r@ == self.spec_name(),
    {
        match self {
            FileType::XML => "XML",
            FileType::ZIP => "ZIP",
        }
    }
}

impl SchemaVersion {
    pub open spec fn spec_name(self) -> Seq<char> {
        match self {
            SchemaVersion::Model2012 => "2012"@,
            SchemaVersion::Model2021 => "2021"@,
        }
    }

    pub fn name(&self) -> (r: &'static str)
        ensures
            r@ == self.spec_name(),
    {
        match self {
            SchemaVersion::Model2012 => "2012",
            SchemaVersion::Model2021 => "2021",
        }
    }
}

impl CRS {
    pub open spec fn spec_name(self) -> Seq<char> {
        match self {
            CRS::Epsg2180 => "EPSG:2180"@,
            CRS::Epsg4326 => "EPSG:4326"@,
        }
    }

    pub fn name(&self) -> (r: &'static str)
        ensures
            r@ == self.spec_name(),
    {
        match self {
            CRS::Epsg2180 => "EPSG:2180",
            CRS::Epsg4326 => "EPSG:4326",
        }
    }
}

/// The schema version that a lower-case command-line value names.
pub open spec fn schema_version_named(l: Seq<char>) -> Option<SchemaVersion> {
    if l == "2012"@ {
        Some(SchemaVersion::Model2012)
    } else if l == "2021"@ {
        Some(SchemaVersion::Model2021)
    } else {
        None
    }
}

pub fn schema_version_of_lowered(l: &str) -> (r: Option<SchemaVersion>)
    ensures
        r == schema_version_named(l@),
{
    if str_eq(l, "2012") {
        Some(SchemaVersion::Model2012)
    } else if str_eq(l, "2021") {
        Some(SchemaVersion::Model2021)
    } else {
        None
    }
}

/// The schema version that a command-line value names, in any letter case.
pub fn parse_schema_version(s: &str) -> (r: Option<SchemaVersion>)
    ensures
        r == schema_version_named(lower_of(s@)),
{
    schema_version_of_lowered(lowercase(s).as_str())
}

/// The output format that a lower-case command-line value names.
pub open spec fn output_format_named(l: Seq<char>) -> Option<OutputFormat> {
    if l == "csv"@ {
        Some(OutputFormat::CSV)
    } else if l == "geoparquet"@ {
        Some(OutputFormat::GeoParquet)
    } else {
        None
    }
}

pub fn output_format_of_lowered(l: &str) -> (r: Option<OutputFormat>)
    ensures
        r == output_format_named(l@),
{
    if str_eq(l, "csv") {
        Some(OutputFormat::CSV)
    } else if str_eq(l, "geoparquet") {
        Some(OutputFormat::GeoParquet)
    } else {
        None
    }
}

/// The output format that a command-line value names, in any letter case.
pub fn parse_output_format(s: &str) -> (r: Option<OutputFormat>)
    ensures
        r == output_format_named(lower_of(s@)),
{
    output_format_of_lowered(lowercase(s).as_str())
}

} // verus!
