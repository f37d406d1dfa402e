//! MySQL's forms of dates, times, datetimes, instants and durations.
//!
//! In the binary protocol a `DATE` is a length byte, a little-endian `u16`
//! year, a month and a day; a `DATETIME` adds hours, minutes and seconds
//! when they are not all zero and a little-endian `u32` of microseconds
//! when there are any. Instants are stored as their UTC datetime; times of
//! day and durations are stored as `TIME`.
use vstd::prelude::*;
use crate::bytes_io::{
    get_u8, le_bytes_u16, le_bytes_u32, le_value_u16, le_value_u32, read_u16_le, read_u32_le,
    u16_to_le_bytes, u32_to_le_bytes,
};
use crate::calendar::{
    days_from_civil, in_timestamp_range, trunc_div, is_valid_date, is_valid_time,
    lemma_days_from_civil_ordered, lemma_timestamp_of_nanos, timestamp_of_nanos, Date, DateTime,
    SignedDuration, Time, Timestamp, NANOS_PER_DAY,
};
use crate::error::{DecodeError, EncodeError, MySqlTimeError};
use crate::jiff_api::{date_new, datetime_new, time_new, utc_to_datetime, utc_to_timestamp};
use crate::text::{date_from_text, datetime_from_text, read_date, read_datetime};
use crate::mysql_time::{
    magnitude_of, mysql_time_bytes, spec_decode_mysql_time, spec_mysql_time_new, MySqlTime, MySqlTimeSign,
};

verus! {

/// The column types of the MySQL protocol.
#[derive(Clone, Copy, Debug, PartialEq, Eq, Structural)]
pub enum ColumnType {
    Decimal,
    Tiny,
    Short,
    Long,
    Float,
    Double,
    Null,
    Timestamp,
    LongLong,
    Int24,
    Date,
    Time,
    Datetime,
    Year,
    VarChar,
    Bit,
    Json,
    NewDecimal,
    Enum,
    SetType,
    TinyBlob,
    MediumBlob,
    LongBlob,
    Blob,
    VarString,
    String,
    Geometry,
}

/// A value as MySQL sends it: the bytes of the binary protocol, or the text
/// of the text protocol.
pub enum MySqlValue<'a> {
    Binary(&'a [u8]),
    Text(&'a str),
}

/// The column type that instants are sent as.
pub fn timestamp_type_info() -> (r: ColumnType)
    ensures
        r == ColumnType::Timestamp,
{
    ColumnType::Timestamp
}

/// Instants are read from `DATETIME` and `TIMESTAMP` columns.
pub fn timestamp_compatible(ty: ColumnType) -> (r: bool)
    ensures
        r == (ty == ColumnType::Datetime || ty == ColumnType::Timestamp),
{
    match ty {
        ColumnType::Datetime | ColumnType::Timestamp => true,
        _ => false,
    }
}

/// The column type that times of day are sent as.
pub fn time_type_info() -> (r: ColumnType)
    ensures
        r == ColumnType::Time,
{
    ColumnType::Time
}

/// The column type that durations are sent as.
pub fn signed_duration_type_info() -> (r: ColumnType)
    ensures
        r == ColumnType::Time,
{
    ColumnType::Time
}

/// The column type that dates are sent as.
pub fn date_type_info() -> (r: ColumnType)
    ensures
        r == ColumnType::Date,
{
    ColumnType::Date
}

/// The column type that datetimes are sent as.
pub fn datetime_type_info() -> (r: ColumnType)
    ensures
        r == ColumnType::Datetime,
{
    ColumnType::Datetime
}

/// The bytes of a date: length 4, the year, the month and the day.
pub open spec fn mysql_date_bytes(d: Date) -> Seq<u8> {
    seq![4u8] + le_bytes_u16(d.year as int) + seq![d.month as u8, d.day as u8]
}

/// The length byte of a datetime: 4 at midnight, 7 on a whole second, 11
/// otherwise.
pub open spec fn datetime_length(t: Time) -> u8 {
    if t.hour == 0 && t.minute == 0 && t.second == 0 && t.subsec_nanosecond == 0 {
        4
    } else if t.subsec_nanosecond == 0 {
        7
    } else {
        11
    }
}

/// The bytes of a datetime; the nanoseconds are cut to microseconds.
pub open spec fn mysql_datetime_bytes(dt: DateTime) -> Seq<u8> {
    let len = datetime_length(dt.time);
    seq![len] + le_bytes_u16(dt.date.year as int) + seq![dt.date.month as u8, dt.date.day as u8]
        + (if len > 4 {
        seq![dt.time.hour as u8, dt.time.minute as u8, dt.time.second as u8]
    } else {
        Seq::empty()
    }) + (if len > 7 {
        le_bytes_u32(dt.time.subsec_nanosecond / 1000)
    } else {
        Seq::empty()
    })
}

/// What reading a date from its binary bytes gives: at least five bytes, the
/// length byte unread, and a year, month and day that fit jiff's integers
/// and make a valid date.
pub open spec fn spec_decode_binary_date(b: Seq<u8>) -> Result<Date, DecodeError> {
    if b.len() < 5 {
        Err(DecodeError::UnexpectedNull)
    } else {
        let year = le_value_u16(b.subrange(1, 3));
        if year > 32767 || b[3] > 127 || b[4] > 127 {
            Err(DecodeError::IntegerOutOfRange)
        } else if !is_valid_date(year, b[3] as int, b[4] as int) {
            Err(DecodeError::OutOfRange)
        } else {
            Ok(Date { year: year as i16, month: b[3] as i8, day: b[4] as i8 })
        }
    }
}

/// What reading a datetime from its binary bytes gives: a length byte of
/// 4, 7 or 11 that counts the bytes after it, microseconds below a second,
/// fields that fit jiff's integers, and a valid date and time.
pub open spec fn spec_decode_binary_datetime(b: Seq<u8>) -> Result<DateTime, DecodeError> {
    if b.len() == 0 {
        Err(DecodeError::EmptyBuffer)
    } else if b[0] != 4 && b[0] != 7 && b[0] != 11 {
        Err(DecodeError::InvalidLength(b[0]))
    } else if b.len() - 1 != b[0] {
        Err(DecodeError::LengthMismatch((b.len() - 1) as usize))
    } else if b[0] > 7 && le_value_u32(b.subrange(8, 12)) > 999_999 {
        Err(DecodeError::MicrosecondsOutOfRange(le_value_u32(b.subrange(8, 12)) as u32))
    } else {
        let year = le_value_u16(b.subrange(1, 3));
        let hour: int = if b[0] > 4 { b[5] as int } else { 0 };
        let minute: int = if b[0] > 4 { b[6] as int } else { 0 };
        let second: int = if b[0] > 4 { b[7] as int } else { 0 };
        let nanos: int = if b[0] > 7 { le_value_u32(b.subrange(8, 12)) * 1000 } else { 0 };
        if year > 32767 || b[3] > 127 || b[4] > 127 || hour > 127 || minute > 127 || second > 127 {
            Err(DecodeError::IntegerOutOfRange)
        } else if !(is_valid_date(year, b[3] as int, b[4] as int) && is_valid_time(hour, minute, second, nanos)) {
            Err(DecodeError::OutOfRange)
        } else {
            Ok(DateTime {
                date: Date { year: year as i16, month: b[3] as i8, day: b[4] as i8 },
                time: Time { hour: hour as i8, minute: minute as i8, second: second as i8, subsec_nanosecond: nanos as i32 },
            })
        }
    }
}

/// What reading a date from a MySQL value gives.
pub open spec fn spec_decode_date(value: MySqlValue) -> Result<Date, DecodeError> {
    match value {
        MySqlValue::Binary(b) => spec_decode_binary_date(b@),
        MySqlValue::Text(t) => date_from_text(t@),
    }
}

/// What reading a datetime from a MySQL value gives.
pub open spec fn spec_decode_datetime(value: MySqlValue) -> Result<DateTime, DecodeError> {
    match value {
        MySqlValue::Binary(b) => spec_decode_binary_datetime(b@),
        MySqlValue::Text(t) => datetime_from_text(t@),
    }
}

/// Writes a date: the length 4, the year as a little-endian `u16`, the month
/// and the day. A negative year cannot be written and leaves the buffer as
/// it was.
pub fn encode_date(d: &Date, buf: &mut Vec<u8>) -> (r: Result<(), EncodeError>)
    requires
        d.wf(),
    ensures
        r is Ok <==> d.year >= 0,
        r is Ok ==> final(buf)@ == old(buf)@ + mysql_date_bytes(*d),
        r is Err ==> r == Err::<(), EncodeError>(EncodeError::YearOutOfRange) && final(buf)@ == old(buf)@,
{
    if d.year < 0 {
        return Err(EncodeError::YearOutOfRange);
    }
    let year = u16_to_le_bytes(d.year as u16);
    buf.push(4);
    buf.extend_from_slice(&year);
    buf.push(d.month as u8);
    buf.push(d.day as u8);
    assert(buf@ =~= old(buf)@ + mysql_date_bytes(*d));
    Ok(())
}

/// The number of bytes reserved for a date.
pub fn date_size_hint() -> (r: usize)
    ensures
        r == 5,
{
    5
}

/// Reads a date, from the bytes of the binary protocol or from text.
pub fn decode_date(value: MySqlValue) -> (r: Result<Date, DecodeError>)
    ensures
        r == spec_decode_date(value),
        r matches Ok(d) ==> d.wf(),
{
    match value {
        MySqlValue::Binary(buf) => {
            if buf.len() < 5 {
                return Err(DecodeError::UnexpectedNull);
            }
            let year = read_u16_le(&buf[1..buf.len()]);
            assert(le_value_u16(buf@.subrange(1, buf@.len() as int)) == le_value_u16(buf@.subrange(1, 3)));
            if year > 32767 || buf[3] > 127 || buf[4] > 127 {
                return Err(DecodeError::IntegerOutOfRange);
            }
            match date_new(year as i16, buf[3] as i8, buf[4] as i8) {
                Ok(d) => Ok(d),
                Err(_) => Err(DecodeError::OutOfRange),
            }
        },
        MySqlValue::Text(text) => read_date(text),
    }
}

/// Writes a datetime: the length byte, the date, then hours, minutes and
/// seconds unless the time is midnight, then the microseconds unless there
/// is no fraction of a second. A negative year cannot be written and leaves
/// the buffer as it was.
pub fn encode_datetime(dt: &DateTime, buf: &mut Vec<u8>) -> (r: Result<(), EncodeError>)
    requires
        dt.wf(),
    ensures
        r is Ok <==> dt.date.year >= 0,
        r is Ok ==> final(buf)@ == old(buf)@ + mysql_datetime_bytes(*dt),
        r is Err ==> r == Err::<(), EncodeError>(EncodeError::YearOutOfRange) && final(buf)@ == old(buf)@,
{
    if dt.date.year < 0 {
        return Err(EncodeError::YearOutOfRange);
    }
    let t = dt.time;
    let len: u8 = if t.hour == 0 && t.minute == 0 && t.second == 0 && t.subsec_nanosecond == 0 {
        4
    } else if t.subsec_nanosecond == 0 {
        7
    } else {
        11
    };
    let year = u16_to_le_bytes(dt.date.year as u16);
    buf.push(len);
    buf.extend_from_slice(&year);
    buf.push(dt.date.month as u8);
    buf.push(dt.date.day as u8);
    let ghost after_date = buf@;
    if len > 4 {
        buf.push(t.hour as u8);
        buf.push(t.minute as u8);
        buf.push(t.second as u8);
    }
    let ghost after_time = buf@;
    if len > 7 {
        let micros = u32_to_le_bytes((t.subsec_nanosecond / 1000) as u32);
        buf.extend_from_slice(&micros);
    }
    assert(buf@ =~= old(buf)@ + mysql_datetime_bytes(*dt));
    Ok(())
}

/// The number of bytes reserved for a datetime.
pub fn datetime_size_hint() -> (r: usize)
    ensures
        r == 12,
{
    12
}

/// Reads a datetime, from the bytes of the binary protocol or from text.
pub fn decode_datetime(value: MySqlValue) -> (r: Result<DateTime, DecodeError>)
    ensures
        r == spec_decode_datetime(value),
        r matches Ok(dt) ==> dt.wf(),
{
    match value {
        MySqlValue::Binary(buf) => decode_binary_datetime(buf),
        MySqlValue::Text(text) => read_datetime(text),
    }
}

/// Reads a datetime from the bytes of the binary protocol.
fn decode_binary_datetime(b: &[u8]) -> (r: Result<DateTime, DecodeError>)
    ensures
        r == spec_decode_binary_datetime(b@),
        r matches Ok(dt) ==> dt.wf(),
{
    if b.len() == 0 {
        return Err(DecodeError::EmptyBuffer);
    }
    let (len, buf) = get_u8(b);
    if len != 4 && len != 7 && len != 11 {
        return Err(DecodeError::InvalidLength(len));
    }
    if buf.len() != len as usize {
        return Err(DecodeError::LengthMismatch(buf.len()));
    }
    let nanosecond: i32 = if len > 7 {
        let microseconds = read_u32_le(&buf[7..buf.len()]);
        assert(buf@.subrange(7, buf@.len() as int).subrange(0, 4) =~= b@.subrange(8, 12));
        if microseconds > 999_999 {
            return Err(DecodeError::MicrosecondsOutOfRange(microseconds));
        }
        (microseconds * 1000) as i32
    } else {
        0
    };
    let year = read_u16_le(buf);
    assert(buf@.subrange(0, 2) =~= b@.subrange(1, 3));
    let hour: u8 = if len > 4 { buf[4] } else { 0 };
    let minute: u8 = if len > 4 { buf[5] } else { 0 };
    let second: u8 = if len > 4 { buf[6] } else { 0 };
    if year > 32767 || buf[2] > 127 || buf[3] > 127 || hour > 127 || minute > 127 || second > 127 {
        return Err(DecodeError::IntegerOutOfRange);
    }
    let date = Date { year: year as i16, month: buf[2] as i8, day: buf[3] as i8 };
    let time = Time { hour: hour as i8, minute: minute as i8, second: second as i8, subsec_nanosecond: nanosecond };
    match datetime_new(date, time) {
        Ok(dt) => Ok(dt),
        Err(_) => Err(DecodeError::OutOfRange),
    }
}

/// A datetime has a negative year exactly when it comes before
/// 0000-01-01T00:00:00.
proof fn lemma_negative_year(dt: DateTime)
    requires
        dt.wf(),
    ensures
        dt.date.year < 0 <==> dt.unix_nanos() < days_from_civil(0, 1, 1) * NANOS_PER_DAY,
{
    let (y, m, d) = (dt.date.year as int, dt.date.month as int, dt.date.day as int);
    crate::calendar::lemma_nanos_of_day_bounds(dt.time);
    if y < 0 {
        lemma_days_from_civil_ordered(y, m, d, 0, 1, 1);
        assert(dt.date.unix_days() + 1 <= days_from_civil(0, 1, 1));
        assert(dt.unix_nanos() < days_from_civil(0, 1, 1) * NANOS_PER_DAY) by (nonlinear_arith)
            requires
                dt.date.unix_days() + 1 <= days_from_civil(0, 1, 1),
                dt.unix_nanos() == dt.date.unix_days() * NANOS_PER_DAY + dt.time.nanos_of_day(),
                dt.time.nanos_of_day() < NANOS_PER_DAY,
        ;
    } else {
        if y > 0 || m > 1 || d > 1 {
            lemma_days_from_civil_ordered(0, 1, 1, y, m, d);
        }
        assert(dt.unix_nanos() >= days_from_civil(0, 1, 1) * NANOS_PER_DAY) by (nonlinear_arith)
            requires
                dt.date.unix_days() >= days_from_civil(0, 1, 1),
                dt.unix_nanos() == dt.date.unix_days() * NANOS_PER_DAY + dt.time.nanos_of_day(),
                dt.time.nanos_of_day() >= 0,
        ;
    }
}

/// Writes an instant as the datetime it is in UTC. Instants before year 0
/// cannot be written and leave the buffer as it was.
pub fn encode_timestamp(ts: &Timestamp, buf: &mut Vec<u8>) -> (r: Result<(), EncodeError>)
    requires
        ts.wf(),
    ensures
        r is Ok <==> ts.unix_nanos() >= days_from_civil(0, 1, 1) * NANOS_PER_DAY,
        r is Ok ==> exists|dt: DateTime|
            dt.wf() && dt.unix_nanos() == ts.unix_nanos() && final(buf)@ == old(buf)@ + #[trigger] mysql_datetime_bytes(dt),
        r is Err ==> r == Err::<(), EncodeError>(EncodeError::YearOutOfRange) && final(buf)@ == old(buf)@,
{
    let dt = utc_to_datetime(*ts);
    proof {
        lemma_negative_year(dt);
    }
    encode_datetime(&dt, buf)
}

/// What reading an instant from a MySQL value gives: the datetime read as
/// UTC, when that is within the range of instants.
pub open spec fn spec_decode_timestamp(value: MySqlValue) -> Result<Timestamp, DecodeError> {
    spec_timestamp_of_decoded(spec_decode_datetime(value))
}

/// The instant of a decoded datetime read as UTC, when it is within the range
/// of instants.
pub open spec fn spec_timestamp_of_decoded(decoded: Result<DateTime, DecodeError>) -> Result<Timestamp, DecodeError> {
    match decoded {
        Err(e) => Err(e),
        Ok(dt) => if in_timestamp_range(dt.unix_nanos()) {
            Ok(timestamp_of_nanos(dt.unix_nanos()))
        } else {
            Err(DecodeError::OutOfRange)
        },
    }
}

/// Reads an instant: a datetime, read as UTC.
pub fn decode_timestamp(value: MySqlValue) -> (r: Result<Timestamp, DecodeError>)
    ensures
        r == spec_decode_timestamp(value),
        r matches Ok(ts) ==> ts.wf(),
{
    let dt = match decode_datetime(value) {
        Ok(dt) => dt,
        Err(e) => return Err(e),
    };
    if dt.is_in_second_before_first_instant() {
        return Err(DecodeError::OutOfRange);
    }
    match utc_to_timestamp(dt) {
        Ok(ts) => {
            proof {
                lemma_timestamp_of_nanos(ts);
            }
            Ok(ts)
        },
        Err(_) => Err(DecodeError::OutOfRange),
    }
}

/// The MySQL `TIME` of a time of day: positive, cut to microseconds.
pub open spec fn mysql_time_of_day(t: Time) -> MySqlTime {
    MySqlTime {
        sign: MySqlTimeSign::Positive,
        hours: t.hour as u32,
        minutes: t.minute as u8,
        seconds: t.second as u8,
        microseconds: (t.subsec_nanosecond / 1000) as u32,
    }
}

/// Writes a time of day as a positive `TIME`, cut to microseconds. Every
/// time of day fits.
pub fn encode_time(t: &Time, buf: &mut Vec<u8>) -> (r: Result<(), EncodeError>)
    requires
        t.wf(),
    ensures
        r is Ok,
        final(buf)@ == old(buf)@ + mysql_time_bytes(mysql_time_of_day(*t)),
{
    let time = MySqlTime::new(
        MySqlTimeSign::Positive,
        t.hour as u32,
        t.minute as u8,
        t.second as u8,
        (t.subsec_nanosecond / 1000) as u32,
    );
    match time {
        Ok(time) => {
            time.write_binary(buf);
            Ok(())
        },
        Err(e) => Err(EncodeError::MySqlTime(e)),
    }
}

/// What reading a time of day from the bytes of a `TIME` gives: the value
/// must be a positive `TIME` below 24 hours.
pub open spec fn spec_decode_time(b: Seq<u8>) -> Result<Time, DecodeError> {
    match spec_decode_mysql_time(b) {
        Err(e) => Err(e),
        Ok(t) => if t.sign == MySqlTimeSign::Positive && t.hours < 24 {
            Ok(Time {
                hour: t.hours as i8,
                minute: t.minutes as i8,
                second: t.seconds as i8,
                subsec_nanosecond: (t.microseconds * 1000) as i32,
            })
        } else {
            Err(DecodeError::NotTimeOfDay)
        },
    }
}

/// Reads a time of day from the bytes of a `TIME`.
pub fn decode_time(buf: &[u8]) -> (r: Result<Time, DecodeError>)
    ensures
        r == spec_decode_time(buf@),
        r matches Ok(t) ==> t.wf(),
{
    let time = match MySqlTime::read_binary(buf) {
        Ok(t) => t,
        Err(e) => return Err(e),
    };
    if !time.is_valid_time_of_day() {
        return Err(DecodeError::NotTimeOfDay);
    }
    match time_new(time.hours as i8, time.minutes as i8, time.seconds as i8, (time.microseconds * 1000) as i32) {
        Ok(t) => Ok(t),
        Err(_) => Err(DecodeError::OutOfRange),
    }
}

/// The duration of a `TIME`: its signed value, in microseconds.
pub fn signed_duration_from_mysql_time(time: MySqlTime) -> (r: SignedDuration)
    requires
        time.wf(),
    ensures
        r.wf(),
        r.total() == time.signed_micros() * 1000,
{
    let sign: i64 = if time.is_negative() { -1 } else { 1 };
    let nanos: i64 = sign * time.subsec_nanos() as i64;
    SignedDuration::new(time.whole_seconds_signed(), nanos as i32)
}

/// What converting a duration to a `TIME` gives: its magnitude, cut to
/// microseconds, with its sign.
pub open spec fn spec_mysql_time_of_duration(d: SignedDuration) -> Result<MySqlTime, MySqlTimeError> {
    let u = d.abs_spec();
    let magnitude = if u.secs / 3600 > u32::MAX {
        Err(MySqlTimeError::FieldRange(crate::error::TimeField::Hours))
    } else {
        spec_mysql_time_new(
            MySqlTimeSign::Positive,
            (u.secs / 3600) as u32,
            (u.secs % 3600 / 60) as u8,
            (u.secs % 60) as u8,
            (u.nanos / 1000) as u32,
        )
    };
    match magnitude {
        Ok(t) => Ok(MySqlTime { sign: if d.total() < 0 { MySqlTimeSign::Negative } else { MySqlTimeSign::Positive }, ..t }),
        Err(e) => Err(e),
    }
}

/// Converts a duration to a `TIME`: the magnitude, cut to microseconds, must
/// fit 838:59:59.
pub fn mysql_time_from_signed_duration(d: SignedDuration) -> (r: Result<MySqlTime, MySqlTimeError>)
    requires
        d.wf(),
    ensures
        r == spec_mysql_time_of_duration(d),
        r matches Ok(t) ==> t.wf(),
{
    let sign = if d.is_negative() { MySqlTimeSign::Negative } else { MySqlTimeSign::Positive };
    match MySqlTime::try_from_duration(d.unsigned_abs()) {
        Ok(t) => Ok(t.with_sign(sign)),
        Err(e) => Err(e),
    }
}

/// Writes a duration as a `TIME`.
pub fn encode_signed_duration(d: &SignedDuration, buf: &mut Vec<u8>) -> (r: Result<(), EncodeError>)
    requires
        d.wf(),
    ensures
        match spec_mysql_time_of_duration(*d) {
            Ok(t) => r is Ok && final(buf)@ == old(buf)@ + mysql_time_bytes(t),
            Err(e) => r == Err::<(), EncodeError>(EncodeError::MySqlTime(e)) && final(buf)@ == old(buf)@,
        },
{
    match mysql_time_from_signed_duration(*d) {
        Ok(t) => {
            t.write_binary(buf);
            Ok(())
        },
        Err(e) => Err(EncodeError::MySqlTime(e)),
    }
}

/// Reads a duration from the bytes of a `TIME`.
pub fn decode_signed_duration(buf: &[u8]) -> (r: Result<SignedDuration, DecodeError>)
    ensures
        match spec_decode_mysql_time(buf@) {
            Ok(t) => r matches Ok(d) && d.wf() && d.total() == t.signed_micros() * 1000,
            Err(e) => r == Err::<SignedDuration, DecodeError>(e),
        },
{
    match MySqlTime::read_binary(buf) {
        Ok(t) => Ok(signed_duration_from_mysql_time(t)),
        Err(e) => Err(e),
    }
}

/// A datetime with its nanoseconds cut to whole microseconds.
pub open spec fn datetime_to_micros(dt: DateTime) -> DateTime {
    DateTime {
        time: Time { subsec_nanosecond: (dt.time.subsec_nanosecond / 1000 * 1000) as i32, ..dt.time },
        ..dt
    }
}

/// A time of day with its nanoseconds cut to whole microseconds.
pub open spec fn time_to_micros(t: Time) -> Time {
    Time { subsec_nanosecond: (t.subsec_nanosecond / 1000 * 1000) as i32, ..t }
}

/// Reading back the bytes written for a date with a year of at least 0
/// gives the date.
pub proof fn law_mysql_date_roundtrip(d: Date)
    requires
        d.wf(),
        d.year >= 0,
    ensures
        spec_decode_binary_date(mysql_date_bytes(d)) == Ok::<Date, DecodeError>(d),
{
    let b = mysql_date_bytes(d);
    assert(b.subrange(1, 3) =~= le_bytes_u16(d.year as int));
    crate::bytes_io::lemma_le_u16_roundtrip(d.year as int);
}

/// Reading back the bytes written for a datetime with a year of at least 0
/// gives the datetime cut to microseconds.
pub proof fn law_mysql_datetime_roundtrip(dt: DateTime)
    requires
        dt.wf(),
        dt.date.year >= 0,
    ensures
        spec_decode_binary_datetime(mysql_datetime_bytes(dt)) == Ok::<DateTime, DecodeError>(datetime_to_micros(dt)),
{
    let b = mysql_datetime_bytes(dt);
    let len = datetime_length(dt.time);
    assert(b.subrange(1, 3) =~= le_bytes_u16(dt.date.year as int));
    crate::bytes_io::lemma_le_u16_roundtrip(dt.date.year as int);
    if len > 7 {
        assert(b.subrange(8, 12) =~= le_bytes_u32(dt.time.subsec_nanosecond / 1000));
        crate::bytes_io::lemma_le_u32_roundtrip(dt.time.subsec_nanosecond / 1000);
    }
    assert(b.len() == len + 1);
}

/// A datetime written takes at most the bytes reserved for it, and a date
/// exactly its five.
pub proof fn law_mysql_encoded_sizes(d: Date, dt: DateTime)
    ensures
        mysql_date_bytes(d).len() == 5,
        mysql_datetime_bytes(dt).len() <= 12,
{
}

/// Reading back the bytes written for a `TIME` gives the `TIME`, unless it
/// is a negative zero, which is written as the zero time.
pub proof fn law_mysql_time_value_roundtrip(t: MySqlTime)
    requires
        t.wf(),
    ensures
        !(t.is_zero() && t.sign == MySqlTimeSign::Negative) ==> spec_decode_mysql_time(mysql_time_bytes(t)) == Ok::<MySqlTime, DecodeError>(t),
        t.is_zero() ==> spec_decode_mysql_time(mysql_time_bytes(t)) == Ok::<MySqlTime, DecodeError>(MySqlTime { sign: MySqlTimeSign::Positive, ..t }),
{
    let b = mysql_time_bytes(t);
    if !t.is_zero() {
        let days = t.hours as int / 24;
        assert(b.subrange(2, 6) =~= le_bytes_u32(days));
        crate::bytes_io::lemma_le_u32_roundtrip(days);
        if t.microseconds != 0 {
            assert(b.subrange(9, 13) =~= le_bytes_u32(t.microseconds as int));
            crate::bytes_io::lemma_le_u32_roundtrip(t.microseconds as int);
        }
        assert(days * 24 + (t.hours % 24) as u8 == t.hours);
    }
}

/// Reading back the `TIME` written for a time of day gives the time of day
/// cut to microseconds.
pub proof fn law_mysql_time_of_day_roundtrip(t: Time)
    requires
        t.wf(),
    ensures
        spec_decode_time(mysql_time_bytes(mysql_time_of_day(t))) == Ok::<Time, DecodeError>(time_to_micros(t)),
{
    law_mysql_time_value_roundtrip(mysql_time_of_day(t));
}

/// Whole seconds split into hours, minutes and seconds add back up.
proof fn lemma_split_seconds(secs: int)
    requires
        secs >= 0,
    ensures
        ((secs / 3600) * 60 + secs % 3600 / 60) * 60 + secs % 60 == secs,
        secs % 3600 / 60 < 60,
        secs % 60 < 60,
{
    assert(((secs / 3600) * 60 + secs % 3600 / 60) * 60 + secs % 60 == secs) by (nonlinear_arith)
        requires secs >= 0,
    {
        vstd::arithmetic::div_mod::lemma_fundamental_div_mod(secs, 3600);
        vstd::arithmetic::div_mod::lemma_fundamental_div_mod(secs % 3600, 60);
        vstd::arithmetic::div_mod::lemma_mod_mod(secs, 60, 60);
        vstd::arithmetic::div_mod::lemma_mod_breakdown(secs, 60, 60);
    }
}

/// A duration whose microseconds fit a `TIME` is written as a `TIME` that
/// reads back as the duration cut toward zero to microseconds.
pub proof fn law_mysql_duration_roundtrip(d: SignedDuration)
    requires
        d.wf(),
        -(crate::mysql_time::MAGNITUDE_MAX_MICROS as int) <= trunc_div(d.total(), 1000) <= crate::mysql_time::MAGNITUDE_MAX_MICROS,
    ensures
        spec_mysql_time_of_duration(d) is Ok,
        spec_decode_mysql_time(mysql_time_bytes(spec_mysql_time_of_duration(d)->Ok_0)) matches Ok(t)
            && t.signed_micros() * 1000 == trunc_div(d.total(), 1000) * 1000,
{
    let u = d.abs_spec();
    let secs = u.secs as int;
    lemma_split_seconds(secs);
    let micros = secs * 1_000_000 + u.nanos / 1000;
    assert(trunc_div(d.total(), 1000) == if d.total() < 0 { -micros } else { micros }) by (nonlinear_arith)
        requires
            crate::calendar::is_balanced(d.secs as int, d.nanos as int),
            secs == (if d.secs < 0 { -d.secs } else { d.secs as int }),
            u.nanos == (if d.nanos < 0 { -d.nanos } else { d.nanos as int }),
            micros == secs * 1_000_000 + u.nanos / 1000,
    ;
    assert(secs / 3600 <= 838) by (nonlinear_arith)
        requires
            secs * 1_000_000 <= micros,
            micros <= 3_020_399_000_000,
            secs >= 0,
    ;
    let t = spec_mysql_time_of_duration(d)->Ok_0;
    assert(t.magnitude() == micros);
    law_mysql_time_value_roundtrip(t);
}

/// An instant from year 0 on, written as its UTC datetime, reads back as
/// the instant cut down to whole microseconds.
pub proof fn law_mysql_timestamp_roundtrip(ts: Timestamp, dt: DateTime)
    requires
        ts.wf(),
        ts.unix_nanos() >= days_from_civil(0, 1, 1) * NANOS_PER_DAY,
        dt.wf(),
        dt.unix_nanos() == ts.unix_nanos(),
    ensures
        spec_timestamp_of_decoded(spec_decode_binary_datetime(mysql_datetime_bytes(dt)))
            == Ok::<Timestamp, DecodeError>(timestamp_of_nanos(ts.unix_nanos() - ts.unix_nanos() % 1000)),
{
    lemma_negative_year(dt);
    law_mysql_datetime_roundtrip(dt);
    let n = ts.unix_nanos();
    let ns = dt.time.subsec_nanosecond as int;
    let whole = dt.date.unix_days() * 86_400_000_000 + (dt.time.hour * 60 + dt.time.minute) * 60_000_000 + dt.time.second * 1_000_000;
    assert(n == 1000 * whole + ns);
    vstd::arithmetic::div_mod::lemma_mod_multiples_vanish(whole, ns, 1000);
    assert(datetime_to_micros(dt).unix_nanos() == n - n % 1000);
    assert(days_from_civil(0, 1, 1) == -719528);
}

/// A date from year 0 on is written as five bytes: the length 4, the year
/// least significant byte first, the month, then the day.
pub proof fn law_mysql_date_bytes(d: Date)
    requires
        d.wf(),
        d.year >= 0,
    ensures
        mysql_date_bytes(d).len() == 5,
        mysql_date_bytes(d)[0] == 4,
        mysql_date_bytes(d)[1] + 256 * mysql_date_bytes(d)[2] == d.year,
        mysql_date_bytes(d)[3] == d.month,
        mysql_date_bytes(d)[4] == d.day,
{
}

/// A date read from binary bytes has the year of bytes 1 and 2 (least
/// significant first), the month of byte 3 and the day of byte 4; five or
/// more bytes that hold a valid date are always read.
pub proof fn law_mysql_date_decode_fields(b: Seq<u8>)
    ensures
        spec_decode_binary_date(b) matches Ok(d) ==> (b.len() >= 5 && d.year == b[1] + 256 * b[2] && d.month
            == b[3] && d.day == b[4]),
        (b.len() >= 5 && is_valid_date(b[1] + 256 * b[2], b[3] as int, b[4] as int)) ==> spec_decode_binary_date(b) is Ok,
{
}

/// A datetime from year 0 on is written as its length byte (4 at midnight, 7
/// on a whole second, 11 otherwise) and that many bytes: the year least
/// significant byte first, the month, the day, then the hour, minute and
/// second unless it is midnight, then the microseconds least significant
/// byte first when there is a fraction of a second.
pub proof fn law_mysql_datetime_bytes(dt: DateTime)
    requires
        dt.wf(),
        dt.date.year >= 0,
    ensures
        mysql_datetime_bytes(dt).len() == mysql_datetime_bytes(dt)[0] + 1,
        mysql_datetime_bytes(dt)[0] == (if dt.time.hour == 0 && dt.time.minute == 0 && dt.time.second == 0
            && dt.time.subsec_nanosecond == 0 {
            4int
        } else if dt.time.subsec_nanosecond == 0 {
            7int
        } else {
            11int
        }),
        mysql_datetime_bytes(dt)[1] + 256 * mysql_datetime_bytes(dt)[2] == dt.date.year,
        mysql_datetime_bytes(dt)[3] == dt.date.month,
        mysql_datetime_bytes(dt)[4] == dt.date.day,
        mysql_datetime_bytes(dt)[0] > 4 ==> (mysql_datetime_bytes(dt)[5] == dt.time.hour
            && mysql_datetime_bytes(dt)[6] == dt.time.minute && mysql_datetime_bytes(dt)[7] == dt.time.second),
        mysql_datetime_bytes(dt)[0] > 7 ==> mysql_datetime_bytes(dt)[8] + 256 * mysql_datetime_bytes(dt)[9]
            + 65536 * mysql_datetime_bytes(dt)[10] + 16777216 * mysql_datetime_bytes(dt)[11]
            == dt.time.subsec_nanosecond / 1000,
{
    let b = mysql_datetime_bytes(dt);
    let micros = dt.time.subsec_nanosecond / 1000;
    if b[0] > 7 {
        assert(b.subrange(8, 12) =~= le_bytes_u32(micros as int));
        crate::bytes_io::lemma_le_u32_roundtrip(micros as int);
    }
}

/// A datetime read from binary bytes has the date of bytes 1 to 4, the hour,
/// minute and second of bytes 5, 6 and 7 when the length byte is 7 or 11
/// (else midnight), and the microseconds of bytes 8 to 11 when it is 11.
pub proof fn law_mysql_datetime_decode_fields(b: Seq<u8>)
    ensures
        spec_decode_binary_datetime(b) matches Ok(dt) ==> (b.len() == b[0] + 1 && (b[0] == 4 || b[0] == 7
            || b[0] == 11) && dt.date.year == b[1] + 256 * b[2] && dt.date.month == b[3] && dt.date.day == b[4]
            && dt.time.hour == (if b[0] > 4 { b[5] as int } else { 0 }) && dt.time.minute == (if b[0] > 4 {
            b[6] as int
        } else {
            0
        }) && dt.time.second == (if b[0] > 4 { b[7] as int } else { 0 }) && dt.time.subsec_nanosecond == (if b[0]
            > 7 {
            (b[8] + 256 * b[9] + 65536 * b[10] + 16777216 * b[11]) * 1000
        } else {
            0
        })),
{
}

/// A duration is converted to the `TIME` of its value cut toward zero to
/// whole microseconds, and the conversion succeeds exactly when that value
/// is within 838:59:59 either way.
pub proof fn law_mysql_time_of_duration_value(d: SignedDuration)
    requires
        d.wf(),
    ensures
        spec_mysql_time_of_duration(d) is Ok <==> (-(crate::mysql_time::MAGNITUDE_MAX_MICROS as int) <= trunc_div(
            d.total(),
            1000,
        ) <= crate::mysql_time::MAGNITUDE_MAX_MICROS),
        spec_mysql_time_of_duration(d) matches Ok(t) ==> t.signed_micros() == trunc_div(d.total(), 1000),
{
    let u = d.abs_spec();
    let secs = u.secs as int;
    lemma_split_seconds(secs);
    let micros = secs * 1_000_000 + u.nanos / 1000;
    assert(trunc_div(d.total(), 1000) == if d.total() < 0 { -micros } else { micros }) by (nonlinear_arith)
        requires
            crate::calendar::is_balanced(d.secs as int, d.nanos as int),
            secs == (if d.secs < 0 { -d.secs } else { d.secs as int }),
            u.nanos == (if d.nanos < 0 { -d.nanos } else { d.nanos as int }),
            micros == secs * 1_000_000 + u.nanos / 1000,
    ;
    if secs / 3600 <= 838 {
        assert(magnitude_of(secs / 3600, secs % 3600 / 60, secs % 60, (u.nanos / 1000) as int) == micros);
    } else {
        assert(micros > 3_020_399_000_000) by (nonlinear_arith)
            requires
                secs / 3600 > 838,
                secs >= 0,
                micros == secs * 1_000_000 + u.nanos / 1000,
                u.nanos >= 0,
        ;
    }
}

/// A time of day read from the bytes of a `TIME` that do not start with zero
/// has the hour of byte 6, the minute of byte 7, the second of byte 8 and
/// the microseconds of bytes 9 to 12 when there are 13 bytes.
pub proof fn law_mysql_time_of_day_decode_fields(b: Seq<u8>)
    ensures
        (b.len() > 0 && b[0] != 0) ==> (spec_decode_time(b) matches Ok(t) ==> (t.hour == b[6] && t.minute == b[7]
            && t.second == b[8] && t.subsec_nanosecond == (if b.len() == 13 {
            b[9] + 256 * b[10] + 65536 * b[11] + 16777216 * b[12]
        } else {
            0int
        }) * 1000)),
{
}

/// A time of day other than midnight is written as a positive `TIME` of no
/// days whose byte 6 is the hour, byte 7 the minute and byte 8 the second.
pub proof fn law_mysql_time_of_day_bytes(t: Time)
    requires
        t.wf(),
        !(t.hour == 0 && t.minute == 0 && t.second == 0 && t.subsec_nanosecond < 1000),
    ensures
        mysql_time_bytes(mysql_time_of_day(t))[1] == 0,
        mysql_time_bytes(mysql_time_of_day(t))[2] == 0 && mysql_time_bytes(mysql_time_of_day(t))[3] == 0
            && mysql_time_bytes(mysql_time_of_day(t))[4] == 0 && mysql_time_bytes(mysql_time_of_day(t))[5] == 0,
        mysql_time_bytes(mysql_time_of_day(t))[6] == t.hour,
        mysql_time_bytes(mysql_time_of_day(t))[7] == t.minute,
        mysql_time_bytes(mysql_time_of_day(t))[8] == t.second,
        mysql_time_bytes(mysql_time_of_day(t)).len() == (if t.subsec_nanosecond >= 1000 { 13int } else { 9int }),
        t.subsec_nanosecond >= 1000 ==> mysql_time_bytes(mysql_time_of_day(t))[9] + 256 * mysql_time_bytes(
            mysql_time_of_day(t),
        )[10] + 65536 * mysql_time_bytes(mysql_time_of_day(t))[11] + 16777216 * mysql_time_bytes(
            mysql_time_of_day(t),
        )[12] == t.subsec_nanosecond / 1000,
{
    crate::mysql_time::law_mysql_time_bytes(mysql_time_of_day(t));
}

/// A datetime read as an instant is read as UTC: the instant has the civil
/// datetime's own nanoseconds since 1970-01-01T00:00:00, or the read fails
/// with `OutOfRange` outside the range of instants; a failed read of the
/// datetime is passed on.
pub proof fn law_mysql_timestamp_is_utc(decoded: Result<DateTime, DecodeError>)
    ensures
        decoded matches Err(e) ==> spec_timestamp_of_decoded(decoded) == Err::<Timestamp, DecodeError>(e),
        decoded matches Ok(dt) ==> (in_timestamp_range(crate::text::civil_nanos(
            (dt.date.year, dt.date.month, dt.date.day),
            (dt.time.hour, dt.time.minute, dt.time.second, dt.time.subsec_nanosecond),
        )) ==> (spec_timestamp_of_decoded(decoded) matches Ok(ts) && ts.wf() && ts.unix_nanos()
            == crate::text::civil_nanos(
            (dt.date.year, dt.date.month, dt.date.day),
            (dt.time.hour, dt.time.minute, dt.time.second, dt.time.subsec_nanosecond),
        ))),
        decoded matches Ok(dt) ==> (!in_timestamp_range(crate::text::civil_nanos(
            (dt.date.year, dt.date.month, dt.date.day),
            (dt.time.hour, dt.time.minute, dt.time.second, dt.time.subsec_nanosecond),
        )) ==> spec_timestamp_of_decoded(decoded) == Err::<Timestamp, DecodeError>(DecodeError::OutOfRange)),
{
    if let Ok(dt) = decoded {
        if in_timestamp_range(dt.unix_nanos()) {
            crate::calendar::lemma_timestamp_of_nanos_in_range(dt.unix_nanos());
        }
    }
}

} // verus!
