//! Timestamps and calendar dates read from document text, and the one case
//! folding that street-name synthesis needs.
use vstd::prelude::*;

verus! {

/// What `chrono::DateTime::parse_from_rfc3339` gives for a text: the instant's
/// milliseconds since the Unix epoch (fractions of a second below a
/// millisecond dropped), or `None` where the text is not RFC 3339.
pub uninterp spec fn rfc3339_instant_millis(s: Seq<char>) -> Option<i64>;

/// What `chrono::NaiveDateTime::parse_from_str` gives for a text and a format:
/// the milliseconds since the Unix epoch of that wall-clock time read as UTC,
/// or `None` where the text does not match the format.
pub uninterp spec fn naive_datetime_millis(s: Seq<char>, fmt: Seq<char>) -> Option<i64>;

/// What `chrono::NaiveDate::parse_from_str` gives for a text and a format: the
/// day's number counted from 1970-01-01, or `None` where the text does not
/// match the format.
pub uninterp spec fn date_epoch_days(s: Seq<char>, fmt: Seq<char>) -> Option<i32>;

/// What `str::to_lowercase` gives for a text.
pub uninterp spec fn lower_of(s: Seq<char>) -> Seq<char>;

/// Relies on `chrono::DateTime::parse_from_rfc3339` and
/// `DateTime::timestamp_millis`.
#[verifier::external_body]
fn rfc3339_to_millis(s: &str) -> (r: Option<i64>)
    ensures
        r == rfc3339_instant_millis(s@),
{
    match chrono::DateTime::parse_from_rfc3339(s) {
        Ok(dt) => Some(dt.to_utc().timestamp_millis()),
        Err(_) => None,
    }
}

/// Relies on `chrono::NaiveDateTime::parse_from_str`, then `and_utc` and
/// `DateTime::timestamp_millis`.
#[verifier::external_body]
fn naive_datetime_to_millis(s: &str, fmt: &str) -> (r: Option<i64>)
    ensures
        r == naive_datetime_millis(s@, fmt@),
{
    match chrono::NaiveDateTime::parse_from_str(s, fmt) {
        Ok(dt) => Some(dt.and_utc().timestamp_millis()),
        Err(_) => None,
    }
}

/// Relies on `chrono::NaiveDate::parse_from_str` and `NaiveDate::to_epoch_days`.
#[verifier::external_body]
fn date_to_epoch_days(s: &str, fmt: &str) -> (r: Option<i32>)
    ensures
        r == date_epoch_days(s@, fmt@),
{
    match chrono::NaiveDate::parse_from_str(s, fmt) {
        Ok(d) => Some(d.to_epoch_days()),
        Err(_) => None,
    }
}

/// Relies on `str::to_lowercase`: the result depends on the characters alone.
#[verifier::external_body]
pub(crate) fn lowercase(s: &str) -> (r: String)
    ensures
        r@ == lower_of(s@),
{
    s.to_lowercase()
}

/// The format of calendar dates in documents of both dialects.
pub const DATE_FORMAT: &'static str = "%Y-%m-%d";

/// The format of dialect-2021 wall-clock times, which carry no offset.
pub const LOCAL_DATETIME_FORMAT: &'static str = "%Y-%m-%dT%H:%M:%S";

/// The offset from UTC assumed for dialect-2021 wall-clock times: two hours,
/// in milliseconds.
pub const LOCAL_OFFSET_MILLIS: i64 = 7_200_000;

/// A wall-clock time at a fixed offset east of UTC, as milliseconds of UTC;
/// absent where that overflows.
pub open spec fn shift_west(millis: Option<i64>, offset: i64) -> Option<i64> {
    match millis {
        Some(m) => if i64::MIN <= m - offset <= i64::MAX {
            Some((m - offset) as i64)
        } else {
            None
        },
        None => None,
    }
}

/// An RFC 3339 timestamp, in milliseconds of UTC.
pub fn rfc3339_millis(text: &str) -> (r: Option<i64>)
    ensures
        r == rfc3339_instant_millis(text@),
{
    rfc3339_to_millis(text)
}

/// The milliseconds of a wall-clock time read as UTC, taken as a time at the
/// fixed offset of +02:00, in milliseconds of UTC.
pub fn local_millis_to_utc(millis: Option<i64>) -> (r: Option<i64>)
    ensures
        r == shift_west(millis, LOCAL_OFFSET_MILLIS),
{
    match millis {
        Some(m) => m.checked_sub(LOCAL_OFFSET_MILLIS),
        None => None,
    }
}

/// A wall-clock time without offset, read at +02:00, in milliseconds of UTC.
pub fn local_datetime_millis(text: &str) -> (r: Option<i64>)
    ensures
        r == shift_west(naive_datetime_millis(text@, LOCAL_DATETIME_FORMAT@), LOCAL_OFFSET_MILLIS),
{
    local_millis_to_utc(naive_datetime_to_millis(text, LOCAL_DATETIME_FORMAT))
}

/// A `YYYY-MM-DD` date as days since 1970-01-01.
pub fn date_days(text: &str) -> (r: Option<i32>)
    ensures
        r == date_epoch_days(text@, DATE_FORMAT@),
{
    date_to_epoch_days(text, DATE_FORMAT)
}

} // verus!
