use prg_convert::dates::{date_days, local_datetime_millis, local_millis_to_utc, rfc3339_millis};
use prg_convert::{parse_output_format, parse_schema_version, OutputFormat, SchemaVersion, CRS};

#[test]
fn rfc3339_to_millis() {
    assert_eq!(rfc3339_millis("1970-01-01T00:00:01Z"), Some(1000));
    assert_eq!(rfc3339_millis("1970-01-01T01:00:00+01:00"), Some(0));
    assert_eq!(rfc3339_millis("2020-05-01T10:00:00.750+02:00"), Some(1588320000750));
    assert_eq!(rfc3339_millis("not a time"), None);
}

#[test]
fn local_time_is_read_at_plus_two_hours() {
    assert_eq!(local_datetime_millis("1970-01-01T02:00:00"), Some(0));
    assert_eq!(local_datetime_millis("2021-06-01T12:00:00"), Some(1622541600000));
    assert_eq!(local_datetime_millis("2021-06-01"), None);
}

#[test]
fn dates_as_epoch_days() {
    assert_eq!(date_days("1970-01-01"), Some(0));
    assert_eq!(date_days("2005-09-10"), Some(13036));
    assert_eq!(date_days("1969-12-31"), Some(-1));
    assert_eq!(date_days("2005-02-30"), None);
}

#[test]
fn command_line_names() {
    assert_eq!(parse_schema_version("2012"), Some(SchemaVersion::Model2012));
    assert_eq!(parse_schema_version("2021"), Some(SchemaVersion::Model2021));
    assert_eq!(parse_schema_version("2020"), None);
    assert_eq!(parse_output_format("CSV"), Some(OutputFormat::CSV));
    assert_eq!(parse_output_format("GeoParquet"), Some(OutputFormat::GeoParquet));
    assert_eq!(parse_output_format("json"), None);
    assert_eq!(OutputFormat::GeoParquet.name(), "geoparquet");
    assert_eq!(CRS::Epsg4326.name(), "EPSG:4326");
    assert_eq!(SchemaVersion::Model2012.name(), "2012");
}

#[test]
fn local_shift_is_two_hours() {
    assert_eq!(local_millis_to_utc(Some(7_200_000)), Some(0));
    assert_eq!(local_millis_to_utc(Some(i64::MIN)), None);
    assert_eq!(local_millis_to_utc(None), None);
}
