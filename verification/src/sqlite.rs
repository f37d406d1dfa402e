//! SQLite's forms of dates, times, datetimes and instants.
//!
//! SQLite keeps them as text; instants and datetimes may also be stored as
//! Unix seconds (an integer) or as a Julian day number (a real).
use vstd::prelude::*;
use crate::calendar::{
    in_timestamp_range, lemma_timestamp_of_nanos_in_range, timestamp_of_nanos, Date, DateTime, SignedDuration, Time, Timestamp,
    TIMESTAMP_MAX_SECOND, TIMESTAMP_MIN_SECOND,
};
use crate::text::{
    civil_nanos, date_from_text, date_text, datetime_from_text, datetime_of_parts, datetime_text, read_date,
    read_datetime, read_time, read_timestamp, time_from_text, time_text, timestamp_from_text, timestamp_text,
};
use crate::error::DecodeError;
use crate::jiff_api::{
    format_date, format_datetime, format_time, format_timestamp, parsed_datetime,
    timestamp_from_duration, timestamp_from_second, utc_to_datetime, utc_to_timestamp,
};

verus! {

/// The types SQLite columns and values are described by.
#[derive(Clone, Copy, Debug, PartialEq, Eq, Structural)]
pub enum DataType {
    Null,
    Int4,
    Float,
    Text,
    Blob,
    Numeric,
    Bool,
    Integer,
    Date,
    Time,
    Datetime,
}

/// A stored SQLite value, as far as instants and datetimes are read from
/// it. A real is a Julian day number; it is given here as the duration
/// since the Unix epoch that it names, or `None` when that duration is
/// beyond what a signed duration holds.
pub enum SqliteValue<'a> {
    Text(&'a str),
    Integer(i64),
    Int4(i64),
    Float(Option<SignedDuration>),
    Other(DataType),
}

/// The type that instants are stored as.
pub fn timestamp_type_info() -> (r: DataType)
    ensures
        r == DataType::Datetime,
{
    DataType::Datetime
}

/// Instants are read from datetime, text, integer and real columns.
pub fn timestamp_compatible(ty: DataType) -> (r: bool)
    ensures
        r == (ty == DataType::Datetime || ty == DataType::Text || ty == DataType::Integer || ty
            == DataType::Int4 || ty == DataType::Float),
{
    match ty {
        DataType::Datetime | DataType::Text | DataType::Integer | DataType::Int4 | DataType::Float => true,
        _ => false,
    }
}

/// The type that datetimes are stored as.
pub fn datetime_type_info() -> (r: DataType)
    ensures
        r == DataType::Datetime,
{
    DataType::Datetime
}

/// Datetimes are read from the same columns as instants.
pub fn datetime_compatible(ty: DataType) -> (r: bool)
    ensures
        r == (ty == DataType::Datetime || ty == DataType::Text || ty == DataType::Integer || ty
            == DataType::Int4 || ty == DataType::Float),
{
    timestamp_compatible(ty)
}

/// The type that dates are stored as.
pub fn date_type_info() -> (r: DataType)
    ensures
        r == DataType::Date,
{
    DataType::Date
}

/// Dates are read from date and text columns.
pub fn date_compatible(ty: DataType) -> (r: bool)
    ensures
        r == (ty == DataType::Date || ty == DataType::Text),
{
    match ty {
        DataType::Date | DataType::Text => true,
        _ => false,
    }
}

/// The type that times of day are stored as.
pub fn time_type_info() -> (r: DataType)
    ensures
        r == DataType::Time,
{
    DataType::Time
}

/// Times of day are read from time and text columns.
pub fn time_compatible(ty: DataType) -> (r: bool)
    ensures
        r == (ty == DataType::Time || ty == DataType::Text),
{
    match ty {
        DataType::Time | DataType::Text => true,
        _ => false,
    }
}

/// The text an instant is stored as.
pub fn encode_timestamp(ts: &Timestamp) -> (r: String)
    requires
        ts.wf(),
    ensures
        r@ == timestamp_text(*ts),
{
    format_timestamp(*ts)
}

/// The text a datetime is stored as.
pub fn encode_datetime(dt: &DateTime) -> (r: String)
    requires
        dt.wf(),
    ensures
        r@ == datetime_text(*dt),
{
    format_datetime(*dt)
}

/// The text a date is stored as.
pub fn encode_date(d: &Date) -> (r: String)
    requires
        d.wf(),
    ensures
        r@ == date_text(*d),
{
    format_date(*d)
}

/// The text a time of day is stored as.
pub fn encode_time(t: &Time) -> (r: String)
    requires
        t.wf(),
    ensures
        r@ == time_text(*t),
{
    format_time(*t)
}

/// The text without one trailing `Z`.
pub open spec fn without_z(text: Seq<char>) -> Seq<char> {
    if text.len() > 0 && text.last() == 'Z' { text.drop_last() } else { text }
}

/// `str::strip_suffix` with the character `Z`.
#[verifier::external_body]
fn strip_z_suffix(text: &str) -> (r: Option<&str>)
    ensures
        r is Some <==> (text@.len() > 0 && text@.last() == 'Z'),
        r matches Some(s) ==> s@ == text@.drop_last(),
{
    text.strip_suffix('Z')
}

/// What reading an instant from text gives: an instant, or else, when that
/// fails for any reason, a datetime read as UTC.
pub open spec fn spec_timestamp_from_text(text: Seq<char>) -> Result<Timestamp, DecodeError> {
    match timestamp_from_text(text) {
        Ok(ts) => Ok(ts),
        Err(_) => match parsed_datetime(text) {
            None => Err(DecodeError::Parse),
            Some(v) => if in_timestamp_range(datetime_of_parts(v).unix_nanos()) {
                Ok(timestamp_of_nanos(datetime_of_parts(v).unix_nanos()))
            } else {
                Err(DecodeError::OutOfRange)
            },
        },
    }
}

/// What reading an instant from a SQLite value gives.
pub open spec fn spec_decode_timestamp(value: SqliteValue) -> Result<Timestamp, DecodeError> {
    match value {
        SqliteValue::Text(text) => spec_timestamp_from_text(text@),
        SqliteValue::Integer(secs) | SqliteValue::Int4(secs) => if TIMESTAMP_MIN_SECOND <= secs
            <= TIMESTAMP_MAX_SECOND {
            Ok(Timestamp { second: secs, nanosecond: 0 })
        } else {
            Err(DecodeError::OutOfRange)
        },
        SqliteValue::Float(Some(d)) => if in_timestamp_range(d.total()) {
            Ok(timestamp_of_nanos(d.total()))
        } else {
            Err(DecodeError::OutOfRange)
        },
        SqliteValue::Float(None) => Err(DecodeError::OutOfRange),
        SqliteValue::Other(_) => Err(DecodeError::UnsupportedStorageClass),
    }
}

/// Reads an instant from text, Unix seconds or a Julian day number.
pub fn decode_timestamp(value: SqliteValue) -> (r: Result<Timestamp, DecodeError>)
    requires
        value matches SqliteValue::Float(Some(d)) ==> d.wf(),
    ensures
        r == spec_decode_timestamp(value),
        r matches Ok(ts) ==> ts.wf(),
{
    match value {
        SqliteValue::Text(text) => {
            if let Ok(ts) = read_timestamp(text) {
                return Ok(ts);
            }
            let dt = match read_datetime(text) {
                Ok(dt) => dt,
                Err(_) => return Err(DecodeError::Parse),
            };
            if dt.is_in_second_before_first_instant() {
                return Err(DecodeError::OutOfRange);
            }
            match utc_to_timestamp(dt) {
                Ok(ts) => {
                    proof {
                        crate::calendar::lemma_timestamp_of_nanos(ts);
                    }
                    Ok(ts)
                },
                Err(_) => Err(DecodeError::OutOfRange),
            }
        },
        SqliteValue::Integer(secs) | SqliteValue::Int4(secs) => match timestamp_from_second(secs) {
            Ok(ts) => Ok(ts),
            Err(_) => Err(DecodeError::OutOfRange),
        },
        SqliteValue::Float(Some(d)) => match timestamp_from_duration(d) {
            Ok(ts) => {
                proof {
                    crate::calendar::lemma_timestamp_of_nanos(ts);
                }
                Ok(ts)
            },
            Err(_) => Err(DecodeError::OutOfRange),
        },
        SqliteValue::Float(None) => Err(DecodeError::OutOfRange),
        SqliteValue::Other(_) => Err(DecodeError::UnsupportedStorageClass),
    }
}

/// Reads a datetime from text (with or without a trailing `Z`), or as the
/// UTC datetime of Unix seconds or of a Julian day number.
pub fn decode_datetime(value: SqliteValue) -> (r: Result<DateTime, DecodeError>)
    requires
        value matches SqliteValue::Float(Some(d)) ==> d.wf(),
    ensures
        match value {
            SqliteValue::Text(text) => r == datetime_from_text(without_z(text@)),
            SqliteValue::Integer(secs) | SqliteValue::Int4(secs) => {
                &&& r is Ok <==> TIMESTAMP_MIN_SECOND <= secs <= TIMESTAMP_MAX_SECOND
                &&& r matches Ok(dt) ==> dt.unix_nanos() == secs * 1_000_000_000
                &&& r is Err ==> r == Err::<DateTime, DecodeError>(DecodeError::OutOfRange)
            },
            SqliteValue::Float(Some(d)) => {
                &&& r is Ok <==> in_timestamp_range(d.total())
                &&& r matches Ok(dt) ==> dt.unix_nanos() == d.total()
                &&& r is Err ==> r == Err::<DateTime, DecodeError>(DecodeError::OutOfRange)
            },
            SqliteValue::Float(None) => r == Err::<DateTime, DecodeError>(DecodeError::OutOfRange),
            SqliteValue::Other(_) => r == Err::<DateTime, DecodeError>(DecodeError::UnsupportedStorageClass),
        },
        r matches Ok(dt) ==> dt.wf(),
{
    match value {
        SqliteValue::Text(text) => {
            let text = match strip_z_suffix(text) {
                Some(s) => s,
                None => text,
            };
            read_datetime(text)
        },
        SqliteValue::Integer(secs) | SqliteValue::Int4(secs) => match timestamp_from_second(secs) {
            Ok(ts) => Ok(utc_to_datetime(ts)),
            Err(_) => Err(DecodeError::OutOfRange),
        },
        SqliteValue::Float(Some(d)) => match timestamp_from_duration(d) {
            Ok(ts) => Ok(utc_to_datetime(ts)),
            Err(_) => Err(DecodeError::OutOfRange),
        },
        SqliteValue::Float(None) => Err(DecodeError::OutOfRange),
        SqliteValue::Other(_) => Err(DecodeError::UnsupportedStorageClass),
    }
}

/// Reads a date from the text of a value.
pub fn decode_date(text: &str) -> (r: Result<Date, DecodeError>)
    ensures
        r == date_from_text(text@),
        r matches Ok(d) ==> d.wf(),
{
    read_date(text)
}

/// Reads a time of day from the text of a value, with or without a
/// trailing `Z`.
pub fn decode_time(text: &str) -> (r: Result<Time, DecodeError>)
    ensures
        r == time_from_text(without_z(text@)),
        r matches Ok(t) ==> t.wf(),
{
    let text = match strip_z_suffix(text) {
        Some(s) => s,
        None => text,
    };
    read_time(text)
}

/// Text that names an instant is read as that instant. Text that does not,
/// but holds a datetime, is read as that datetime in UTC: the instant has the
/// civil datetime's own nanoseconds since 1970-01-01T00:00:00, its hour,
/// minute, second and fraction included, or the read fails with
/// `OutOfRange` outside the range of instants.
pub proof fn law_sqlite_text_instant_or_utc(text: Seq<char>, v: (i16, i8, i8, i8, i8, i8, i32))
    requires
        parsed_datetime(text) == Some(v),
    ensures
        timestamp_from_text(text) is Ok ==> spec_timestamp_from_text(text) == timestamp_from_text(text),
        timestamp_from_text(text) is Err && in_timestamp_range(civil_nanos((v.0, v.1, v.2), (v.3, v.4, v.5, v.6)))
            ==> (spec_timestamp_from_text(text) matches Ok(ts) && ts.wf() && ts.unix_nanos() == civil_nanos(
            (v.0, v.1, v.2),
            (v.3, v.4, v.5, v.6),
        )),
        timestamp_from_text(text) is Err && !in_timestamp_range(civil_nanos((v.0, v.1, v.2), (v.3, v.4, v.5, v.6)))
            ==> spec_timestamp_from_text(text) == Err::<Timestamp, DecodeError>(DecodeError::OutOfRange),
{
    let n = civil_nanos((v.0, v.1, v.2), (v.3, v.4, v.5, v.6));
    assert(datetime_of_parts(v).unix_nanos() == n);
    if in_timestamp_range(n) {
        lemma_timestamp_of_nanos_in_range(n);
    }
}

/// Text that is neither an instant nor a datetime is not read.
pub proof fn law_sqlite_text_unreadable(text: Seq<char>)
    requires
        timestamp_from_text(text) is Err,
        parsed_datetime(text) is None,
    ensures
        spec_timestamp_from_text(text) == Err::<Timestamp, DecodeError>(DecodeError::Parse),
{
}

} // verus!
