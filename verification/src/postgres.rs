//! PostgreSQL's forms of dates, times, datetimes, instants and durations.
//!
//! PostgreSQL counts from 2000-01-01: an instant or a datetime is stored as
//! microseconds since its midnight, a date as days since it, a time of day
//! as microseconds since midnight, and a duration as an interval of months,
//! days and microseconds.
use vstd::prelude::*;
use crate::calendar::{
    days_from_civil, in_timestamp_range, timestamp_of_nanos, trunc_div, Date, DateTime,
    SignedDuration, Span, Time, Timestamp, NANOS_PER_DAY, SPAN_DAYS_MAX, SPAN_MICROSECONDS_MAX,
    SPAN_MONTHS_MAX, UNIX_EPOCH_DAYS_MAX, UNIX_EPOCH_DAYS_MIN,
};
use crate::error::{DecodeError, EncodeError};
use crate::jiff_api::{
    date_checked_add_days, date_days_since, datetime_checked_add, datetime_duration_since,
    span_try_days, span_try_microseconds, span_try_months, time_checked_add, time_duration_since,
    timestamp_checked_add, timestamp_duration_since,
};
use crate::text::{
    civil_nanos, date_from_text, datetime_from_text, read_date, read_datetime, read_time, read_timestamp,
    time_from_text, timestamp_from_text,
};

verus! {

/// The PostgreSQL types of dates, times and durations, and their arrays.
#[derive(Clone, Copy, Debug, PartialEq, Eq, Structural)]
pub enum PgType {
    Timestamptz,
    TimestamptzArray,
    Timestamp,
    TimestampArray,
    Date,
    DateArray,
    Time,
    TimeArray,
    Interval,
    IntervalArray,
}

/// A value as PostgreSQL sends it: the number of the binary format, or the
/// text of the text format.
pub enum PgValue<'a, T> {
    Binary(T),
    Text(&'a str),
}

/// A PostgreSQL interval: months, days and microseconds, each with its own
/// sign.
#[derive(Clone, Copy, Debug, PartialEq, Eq, Structural)]
pub struct PgInterval {
    pub months: i32,
    pub days: i32,
    pub microseconds: i64,
}

/// Nanoseconds from the Unix epoch to 2000-01-01T00:00:00Z.
pub open spec fn pg_epoch_nanos() -> int {
    946_684_800_000_000_000
}

/// 2000-01-01, the day PostgreSQL counts dates from.
pub fn postgres_epoch_date() -> (r: Date)
    ensures
        r == (Date { year: 2000, month: 1, day: 1 }),
        r.wf(),
        r.unix_days() == 10957,
{
    Date { year: 2000, month: 1, day: 1 }
}

/// Midnight.
pub fn midnight() -> (r: Time)
    ensures
        r == (Time { hour: 0, minute: 0, second: 0, subsec_nanosecond: 0 }),
        r.wf(),
        r.nanos_of_day() == 0,
{
    Time { hour: 0, minute: 0, second: 0, subsec_nanosecond: 0 }
}

/// 2000-01-01T00:00:00, the datetime PostgreSQL counts datetimes from.
pub fn postgres_epoch_datetime() -> (r: DateTime)
    ensures
        r == (DateTime { date: Date { year: 2000, month: 1, day: 1 }, time: Time { hour: 0, minute: 0, second: 0, subsec_nanosecond: 0 } }),
        r.wf(),
        r.unix_nanos() == pg_epoch_nanos(),
{
    DateTime { date: postgres_epoch_date(), time: midnight() }
}

/// 2000-01-01T00:00:00Z, the instant PostgreSQL counts instants from.
pub fn postgres_epoch_timestamp() -> (r: Timestamp)
    ensures
        r == (Timestamp { second: 946_684_800, nanosecond: 0 }),
        r.wf(),
        r.unix_nanos() == pg_epoch_nanos(),
{
    Timestamp { second: 946_684_800, nanosecond: 0 }
}

/// The type of instants.
pub fn timestamp_type_info() -> (r: PgType)
    ensures r == PgType::Timestamptz,
{
    PgType::Timestamptz
}

/// The type of arrays of instants.
pub fn timestamp_array_type_info() -> (r: PgType)
    ensures r == PgType::TimestamptzArray,
{
    PgType::TimestamptzArray
}

/// The type of datetimes.
pub fn datetime_type_info() -> (r: PgType)
    ensures r == PgType::Timestamp,
{
    PgType::Timestamp
}

/// The type of arrays of datetimes.
pub fn datetime_array_type_info() -> (r: PgType)
    ensures r == PgType::TimestampArray,
{
    PgType::TimestampArray
}

/// The type of dates.
pub fn date_type_info() -> (r: PgType)
    ensures r == PgType::Date,
{
    PgType::Date
}

/// The type of arrays of dates.
pub fn date_array_type_info() -> (r: PgType)
    ensures r == PgType::DateArray,
{
    PgType::DateArray
}

/// The type of times of day.
pub fn time_type_info() -> (r: PgType)
    ensures r == PgType::Time,
{
    PgType::Time
}

/// The type of arrays of times of day.
pub fn time_array_type_info() -> (r: PgType)
    ensures r == PgType::TimeArray,
{
    PgType::TimeArray
}

/// The type of durations.
pub fn signed_duration_type_info() -> (r: PgType)
    ensures r == PgType::Interval,
{
    PgType::Interval
}

/// The type of arrays of durations.
pub fn signed_duration_array_type_info() -> (r: PgType)
    ensures r == PgType::IntervalArray,
{
    PgType::IntervalArray
}

/// The type of spans.
pub fn span_type_info() -> (r: PgType)
    ensures r == PgType::Interval,
{
    PgType::Interval
}

/// The type of arrays of spans.
pub fn span_array_type_info() -> (r: PgType)
    ensures r == PgType::IntervalArray,
{
    PgType::IntervalArray
}

/// The bytes of an instant: one `i64`.
pub fn timestamp_size_hint() -> (r: usize)
    ensures r == 8,
{
    core::mem::size_of::<i64>()
}

/// The bytes of a datetime: one `i64`.
pub fn datetime_size_hint() -> (r: usize)
    ensures r == 8,
{
    core::mem::size_of::<i64>()
}

/// The bytes of a date: one `i32`.
pub fn date_size_hint() -> (r: usize)
    ensures r == 4,
{
    core::mem::size_of::<i32>()
}

/// The bytes of a time of day: one `i64`.
pub fn time_size_hint() -> (r: usize)
    ensures r == 8,
{
    core::mem::size_of::<i64>()
}

/// The bytes of an interval: two `i64`s' worth.
pub fn signed_duration_size_hint() -> (r: usize)
    ensures r == 16,
{
    2 * core::mem::size_of::<i64>()
}

/// The instant the given microseconds after 2000-01-01T00:00:00Z, when it is
/// within the range of instants.
pub open spec fn spec_timestamp_from_micros(micros: int) -> Result<Timestamp, DecodeError> {
    if in_timestamp_range(pg_epoch_nanos() + micros * 1000) {
        Ok(timestamp_of_nanos(pg_epoch_nanos() + micros * 1000))
    } else {
        Err(DecodeError::OutOfRange)
    }
}

/// The microseconds since 2000-01-01T00:00:00Z that an instant is stored as,
/// cut toward that epoch.
pub fn encode_timestamp(ts: &Timestamp) -> (r: Result<i64, EncodeError>)
    requires
        ts.wf(),
    ensures
        r == Ok::<i64, EncodeError>(trunc_div(ts.unix_nanos() - pg_epoch_nanos(), 1000) as i64),
{
    let micros = timestamp_duration_since(*ts, postgres_epoch_timestamp()).as_micros();
    if micros < i64::MIN as i128 || micros > i64::MAX as i128 {
        return Err(EncodeError::IntegerOutOfRange);
    }
    Ok(micros as i64)
}

/// Reads an instant: microseconds since 2000-01-01T00:00:00Z, or text.
pub fn decode_timestamp(value: PgValue<i64>) -> (r: Result<Timestamp, DecodeError>)
    ensures
        match value {
            PgValue::Binary(micros) => r == spec_timestamp_from_micros(micros as int),
            PgValue::Text(text) => r == timestamp_from_text(text@),
        },
        r matches Ok(ts) ==> ts.wf(),
{
    match value {
        PgValue::Binary(micros) => {
            match timestamp_checked_add(postgres_epoch_timestamp(), SignedDuration::from_micros(micros)) {
                Ok(ts) => {
                    proof {
                        crate::calendar::lemma_timestamp_of_nanos(ts);
                    }
                    Ok(ts)
                },
                Err(_) => Err(DecodeError::OutOfRange),
            }
        },
        PgValue::Text(text) => read_timestamp(text),
    }
}

/// The microseconds since 2000-01-01T00:00:00 that a datetime is stored as,
/// cut toward that epoch.
pub fn encode_datetime(dt: &DateTime) -> (r: Result<i64, EncodeError>)
    requires
        dt.wf(),
    ensures
        r == Ok::<i64, EncodeError>(trunc_div(dt.unix_nanos() - pg_epoch_nanos(), 1000) as i64),
{
    let micros = datetime_duration_since(*dt, postgres_epoch_datetime()).as_micros();
    proof {
        crate::calendar::lemma_datetime_nanos_bounds(*dt);
    }
    if micros < i64::MIN as i128 || micros > i64::MAX as i128 {
        return Err(EncodeError::IntegerOutOfRange);
    }
    Ok(micros as i64)
}

/// The days that adding the given microseconds to midnight carries.
pub open spec fn carried_days_of_micros(micros: int) -> int {
    (micros * 1000) / NANOS_PER_DAY as int
}

/// Adding the given microseconds to 2000-01-01T00:00:00 succeeds: the whole
/// days carried, and the day reached, are day numbers of the date range.
pub open spec fn datetime_micros_addable(micros: int) -> bool {
    &&& UNIX_EPOCH_DAYS_MIN <= carried_days_of_micros(micros) <= UNIX_EPOCH_DAYS_MAX
    &&& UNIX_EPOCH_DAYS_MIN <= 10957 + carried_days_of_micros(micros) <= UNIX_EPOCH_DAYS_MAX
}

/// Reads a datetime: microseconds since 2000-01-01T00:00:00, or text. The
/// microseconds are added as jiff adds a duration to a datetime, which fails
/// when the whole days of the duration, or the day reached, fall outside the
/// day numbers of the date range.
pub fn decode_datetime(value: PgValue<i64>) -> (r: Result<DateTime, DecodeError>)
    ensures
        match value {
            PgValue::Binary(micros) => {
                &&& r is Ok <==> datetime_micros_addable(micros as int)
                &&& r matches Ok(dt) ==> dt.unix_nanos() == pg_epoch_nanos() + micros * 1000
                &&& r is Err ==> r == Err::<DateTime, DecodeError>(DecodeError::OutOfRange)
            },
            PgValue::Text(text) => r == datetime_from_text(text@),
        },
        r matches Ok(dt) ==> dt.wf(),
{
    match value {
        PgValue::Binary(micros) => {
            let dur = SignedDuration::from_micros(micros);
            match datetime_checked_add(postgres_epoch_datetime(), dur) {
                Ok(dt) => Ok(dt),
                Err(_) => Err(DecodeError::OutOfRange),
            }
        },
        PgValue::Text(text) => read_datetime(text),
    }
}

/// The days since 2000-01-01 that a date is stored as.
pub fn encode_date(d: &Date) -> (r: i32)
    requires
        d.wf(),
    ensures
        r == d.unix_days() - 10957,
{
    date_days_since(*d, postgres_epoch_date())
}

/// Reads a date: days since 2000-01-01, or text.
pub fn decode_date(value: PgValue<i32>) -> (r: Result<Date, DecodeError>)
    ensures
        match value {
            PgValue::Binary(days) => {
                &&& r is Ok <==> (UNIX_EPOCH_DAYS_MIN <= 10957 + days <= UNIX_EPOCH_DAYS_MAX)
                &&& r matches Ok(d) ==> d.unix_days() == 10957 + days
                &&& r is Err ==> r == Err::<Date, DecodeError>(DecodeError::OutOfRange)
            },
            PgValue::Text(text) => r == date_from_text(text@),
        },
        r matches Ok(d) ==> d.wf(),
{
    match value {
        PgValue::Binary(days) => {
            let span = match span_try_days(Span::new(), days) {
                Ok(span) => span,
                Err(_) => return Err(DecodeError::OutOfRange),
            };
            match date_checked_add_days(postgres_epoch_date(), span) {
                Ok(d) => Ok(d),
                Err(_) => Err(DecodeError::OutOfRange),
            }
        },
        PgValue::Text(text) => read_date(text),
    }
}

/// The microseconds since midnight that a time of day is stored as, cut to
/// whole microseconds.
pub fn encode_time(t: &Time) -> (r: Result<i64, EncodeError>)
    requires
        t.wf(),
    ensures
        r == Ok::<i64, EncodeError>((t.nanos_of_day() / 1000) as i64),
{
    let micros = time_duration_since(*t, midnight()).as_micros();
    if micros < i64::MIN as i128 || micros > i64::MAX as i128 {
        return Err(EncodeError::IntegerOutOfRange);
    }
    Ok(micros as i64)
}

/// Reads a time of day: microseconds since midnight, which must be less than
/// a day, or text.
pub fn decode_time(value: PgValue<i64>) -> (r: Result<Time, DecodeError>)
    ensures
        match value {
            PgValue::Binary(micros) => {
                &&& r is Ok <==> 0 <= micros < 86_400_000_000
                &&& r matches Ok(t) ==> t.nanos_of_day() == micros * 1000
                &&& r is Err ==> r == Err::<Time, DecodeError>(DecodeError::OutOfRange)
            },
            PgValue::Text(text) => r == time_from_text(text@),
        },
        r matches Ok(t) ==> t.wf(),
{
    match value {
        PgValue::Binary(micros) => match time_checked_add(midnight(), SignedDuration::from_micros(micros)) {
            Ok(t) => Ok(t),
            Err(_) => Err(DecodeError::OutOfRange),
        },
        PgValue::Text(text) => read_time(text),
    }
}

/// Writes a duration as an interval of microseconds alone. A duration with
/// a fraction of a microsecond, or with more microseconds than an `i64`
/// holds, cannot be written.
pub fn encode_signed_duration(d: &SignedDuration) -> (r: Result<PgInterval, EncodeError>)
    requires
        d.wf(),
    ensures
        d.total() % 1000 != 0 ==> r == Err::<PgInterval, EncodeError>(EncodeError::NanosecondPrecision),
        d.total() % 1000 == 0 && !(i64::MIN <= d.total() / 1000 <= i64::MAX) ==> r == Err::<PgInterval, EncodeError>(EncodeError::IntegerOutOfRange),
        d.total() % 1000 == 0 && i64::MIN <= d.total() / 1000 <= i64::MAX ==> r == Ok::<PgInterval, EncodeError>(PgInterval { months: 0, days: 0, microseconds: (d.total() / 1000) as i64 }),
{
    if d.as_nanos() % 1000 != 0 {
        return Err(EncodeError::NanosecondPrecision);
    }
    let micros = d.as_micros();
    if micros < i64::MIN as i128 || micros > i64::MAX as i128 {
        return Err(EncodeError::IntegerOutOfRange);
    }
    Ok(PgInterval { months: 0, days: 0, microseconds: micros as i64 })
}

/// Reads a duration from an interval: its days are 24 hours each and its
/// months must be zero.
pub fn decode_signed_duration(interval: PgInterval) -> (r: Result<SignedDuration, DecodeError>)
    ensures
        interval.months != 0 ==> r == Err::<SignedDuration, DecodeError>(DecodeError::IntervalHasMonths),
        interval.months == 0 ==> (r matches Ok(d) && d.wf()
            && d.total() == interval.days * 86_400_000_000_000 + interval.microseconds * 1000),
{
    if interval.months != 0 {
        return Err(DecodeError::IntervalHasMonths);
    }
    let days = SignedDuration::from_hours(interval.days as i64 * 24);
    match days.checked_add(SignedDuration::from_micros(interval.microseconds)) {
        Some(d) => Ok(d),
        None => Err(DecodeError::OutOfRange),
    }
}

/// The parts of an interval do not have different signs.
pub open spec fn same_signs(interval: PgInterval) -> bool {
    &&& (interval.months > 0 || interval.days > 0 || interval.microseconds > 0)
        ==> (interval.months >= 0 && interval.days >= 0 && interval.microseconds >= 0)
}

/// Reads a span from an interval. Parts of different signs are refused;
/// otherwise each part must be within the range of its unit.
pub fn decode_span(interval: PgInterval) -> (r: Result<Span, DecodeError>)
    ensures
        !same_signs(interval) ==> r == Err::<Span, DecodeError>(DecodeError::MixedSigns),
        same_signs(interval) ==> (r is Ok <==> (-SPAN_MONTHS_MAX <= interval.months <= SPAN_MONTHS_MAX
            && -SPAN_DAYS_MAX <= interval.days <= SPAN_DAYS_MAX
            && -SPAN_MICROSECONDS_MAX <= interval.microseconds <= SPAN_MICROSECONDS_MAX)),
        same_signs(interval) && r is Err ==> r == Err::<Span, DecodeError>(DecodeError::OutOfRange),
        r matches Ok(s) ==> s == (Span { months: interval.months, days: interval.days, microseconds: interval.microseconds }) && s.wf(),
{
    let components: [i64; 3] = [interval.months as i64, interval.days as i64, interval.microseconds];
    let mut sign: i64 = 0;
    let mut i: usize = 0;
    while i < 3
        invariant
            0 <= i <= 3,
            components@ == seq![interval.months as i64, interval.days as i64, interval.microseconds],
            sign == 0 ==> forall|j: int| 0 <= j < i ==> components@[j] == 0,
            sign == 1 ==> (forall|j: int| 0 <= j < i ==> components@[j] >= 0) && exists|j: int| 0 <= j < i && components@[j] > 0,
            sign == -1 ==> (forall|j: int| 0 <= j < i ==> components@[j] <= 0) && exists|j: int| 0 <= j < i && components@[j] < 0,
            sign == 0 || sign == 1 || sign == -1,
        decreases 3 - i,
    {
        let component = components[i];
        if component != 0 {
            let signum: i64 = if component > 0 { 1 } else { -1 };
            if sign != 0 && sign != signum {
                return Err(DecodeError::MixedSigns);
            }
            sign = signum;
        }
        i = i + 1;
    }
    let span = match span_try_months(Span::new(), interval.months) {
        Ok(s) => s,
        Err(_) => return Err(DecodeError::OutOfRange),
    };
    let span = match span_try_days(span, interval.days) {
        Ok(s) => s,
        Err(_) => return Err(DecodeError::OutOfRange),
    };
    match span_try_microseconds(span, interval.microseconds) {
        Ok(s) => Ok(s),
        Err(_) => Err(DecodeError::OutOfRange),
    }
}

/// An instant stored and read back is the instant cut toward 2000-01-01 to
/// whole microseconds; an instant of whole microseconds comes back as it
/// was.
pub proof fn law_pg_timestamp_roundtrip(ts: Timestamp)
    requires
        ts.wf(),
    ensures
        spec_timestamp_from_micros(trunc_div(ts.unix_nanos() - pg_epoch_nanos(), 1000))
            == Ok::<Timestamp, DecodeError>(timestamp_of_nanos(pg_epoch_nanos() + trunc_div(ts.unix_nanos() - pg_epoch_nanos(), 1000) * 1000)),
        ts.unix_nanos() % 1000 == 0 ==> spec_timestamp_from_micros(trunc_div(ts.unix_nanos() - pg_epoch_nanos(), 1000)) == Ok::<Timestamp, DecodeError>(ts),
{
    let n = ts.unix_nanos();
    let x = n - pg_epoch_nanos();
    let q = trunc_div(x, 1000);
    assert(x >= 0 ==> 0 <= q * 1000 <= x);
    assert(x < 0 ==> x <= q * 1000 <= 0);
    if n % 1000 == 0 {
        assert(x % 1000 == 0);
        assert(q * 1000 == x);
        crate::calendar::lemma_timestamp_of_nanos(ts);
    }
}

/// A datetime of whole microseconds, stored and read back, is the same
/// datetime, unless it is within the first 10957 days of the date range
/// (before about -9969), where jiff refuses to add the duration.
pub proof fn law_pg_datetime_roundtrip(dt: DateTime, back: DateTime)
    requires
        dt.wf(),
        dt.time.subsec_nanosecond % 1000 == 0,
        dt.date.unix_days() >= UNIX_EPOCH_DAYS_MIN + 10957,
        back.wf(),
        back.unix_nanos() == pg_epoch_nanos() + trunc_div(dt.unix_nanos() - pg_epoch_nanos(), 1000) * 1000,
    ensures
        datetime_micros_addable(trunc_div(dt.unix_nanos() - pg_epoch_nanos(), 1000)),
        back == dt,
{
    crate::calendar::lemma_datetime_nanos_bounds(dt);
    crate::calendar::lemma_nanos_of_day_bounds(dt.time);
    let n = dt.unix_nanos();
    let x = n - pg_epoch_nanos();
    let whole = dt.date.unix_days() * 86_400_000_000 + (dt.time.hour * 60 + dt.time.minute) * 60_000_000
        + dt.time.second * 1_000_000 + dt.time.subsec_nanosecond / 1000;
    assert(n == 1000 * whole);
    assert(x == 1000 * (whole - 946_684_800_000_000));
    let q = trunc_div(x, 1000);
    assert(q == whole - 946_684_800_000_000);
    let c = carried_days_of_micros(q);
    assert(q * 1000 == (dt.date.unix_days() - 10957) * NANOS_PER_DAY + dt.time.nanos_of_day());
    crate::calendar::lemma_day_split(dt.date.unix_days() - 10957, dt.time.nanos_of_day());
    assert(c == dt.date.unix_days() - 10957);
    crate::calendar::lemma_datetime_unix_nanos_injective(back, dt);
}

/// A date stored and read back is the same date.
pub proof fn law_pg_date_roundtrip(d: Date, back: Date)
    requires
        d.wf(),
        back.wf(),
        back.unix_days() == 10957 + (d.unix_days() - 10957),
    ensures
        UNIX_EPOCH_DAYS_MIN <= 10957 + (d.unix_days() - 10957) <= UNIX_EPOCH_DAYS_MAX,
        back == d,
{
    crate::calendar::lemma_date_days_bounds(d);
    crate::calendar::lemma_days_from_civil_injective(
        back.year as int, back.month as int, back.day as int,
        d.year as int, d.month as int, d.day as int,
    );
}

/// A time of day of whole microseconds, stored and read back, is the same
/// time of day.
pub proof fn law_pg_time_roundtrip(t: Time, back: Time)
    requires
        t.wf(),
        t.subsec_nanosecond % 1000 == 0,
        back.wf(),
        back.nanos_of_day() == (t.nanos_of_day() / 1000) * 1000,
    ensures
        0 <= t.nanos_of_day() / 1000 < 86_400_000_000,
        back == t,
{
    let whole = ((t.hour * 60 + t.minute) * 60 + t.second) * 1_000_000 + t.subsec_nanosecond / 1000;
    assert(t.nanos_of_day() == 1000 * whole);
    crate::calendar::lemma_nanos_of_day_injective(back, t);
}

/// A duration of whole microseconds that an `i64` of microseconds holds,
/// stored as an interval and read back, is the same duration.
pub proof fn law_pg_signed_duration_roundtrip(d: SignedDuration, back: SignedDuration)
    requires
        d.wf(),
        d.total() % 1000 == 0,
        i64::MIN <= d.total() / 1000 <= i64::MAX,
        back.wf(),
        back.total() == 0 * 86_400_000_000_000int + (d.total() / 1000) * 1000,
    ensures
        back == d,
{
    crate::calendar::lemma_balanced_unique(back.secs as int, back.nanos as int, d.secs as int, d.nanos as int);
}

/// PostgreSQL counts instants from 2000-01-01T00:00:00Z: its epoch is that
/// civil midnight, 10957 days after the Unix epoch. An instant read from
/// binary microseconds is that many microseconds after it, either way, or
/// the read fails with `OutOfRange` outside the range of instants.
pub proof fn law_pg_timestamp_from_micros(micros: int)
    ensures
        pg_epoch_nanos() == civil_nanos((2000i16, 1i8, 1i8), (0i8, 0i8, 0i8, 0i32)),
        pg_epoch_nanos() == 10957 * 86_400_000_000_000,
        in_timestamp_range(946_684_800_000_000_000 + micros * 1000) ==> (spec_timestamp_from_micros(micros) matches Ok(
            ts,
        ) && ts.wf() && ts.unix_nanos() == 946_684_800_000_000_000 + micros * 1000),
        !in_timestamp_range(946_684_800_000_000_000 + micros * 1000) ==> spec_timestamp_from_micros(micros)
            == Err::<Timestamp, DecodeError>(DecodeError::OutOfRange),
{
    assert(days_from_civil(2000, 1, 1) == 10957);
    let n = 946_684_800_000_000_000 + micros * 1000;
    if in_timestamp_range(n) {
        crate::calendar::lemma_timestamp_of_nanos_in_range(n);
    }
}

} // verus!
