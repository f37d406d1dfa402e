//! The calls into the `jiff` calendar library. Each function here makes one
//! call; its contract states what jiff's documentation and source say of it.
use vstd::prelude::*;
use crate::text::{date_text, datetime_text, time_text, timestamp_text};
use crate::calendar::{
    is_valid_date, is_valid_time, in_timestamp_range, Date, DateTime, SignedDuration, Span, Time, Timestamp,
    NANOS_PER_DAY, SPAN_DAYS_MAX, SPAN_MICROSECONDS_MAX, SPAN_MONTHS_MAX, TIMESTAMP_MAX_SECOND,
    TIMESTAMP_MIN_SECOND, UNIX_EPOCH_DAYS_MAX, UNIX_EPOCH_DAYS_MIN,
};

verus! {

/// `jiff::Error`, the error of jiff's fallible calls, carried as an opaque
/// value.
#[verifier::external_type_specification]
#[verifier::external_body]
pub struct ExJiffError(jiff::Error);

/// `jiff::civil::Date::new`: succeeds exactly when the year is in
/// -9999..=9999, the month in 1..=12 and the day within that month.
#[verifier::external_body]
pub(crate) fn date_new(year: i16, month: i8, day: i8) -> (r: Result<Date, jiff::Error>)
    ensures
        r is Ok <==> is_valid_date(year as int, month as int, day as int),
        r matches Ok(d) ==> d == (Date { year, month, day }),
{
    match jiff::civil::Date::new(year, month, day) {
        Ok(d) => Ok(Date { year: d.year(), month: d.month(), day: d.day() }),
        Err(e) => Err(e),
    }
}

/// `jiff::civil::Time::new`: succeeds exactly when hour, minute, second and
/// nanosecond are each within a day's range.
#[verifier::external_body]
pub(crate) fn time_new(hour: i8, minute: i8, second: i8, subsec_nanosecond: i32) -> (r: Result<Time, jiff::Error>)
    ensures
        r is Ok <==> is_valid_time(hour as int, minute as int, second as int, subsec_nanosecond as int),
        r matches Ok(t) ==> t == (Time { hour, minute, second, subsec_nanosecond }),
{
    match jiff::civil::Time::new(hour, minute, second, subsec_nanosecond) {
        Ok(t) => Ok(Time { hour: t.hour(), minute: t.minute(), second: t.second(), subsec_nanosecond: t.subsec_nanosecond() }),
        Err(e) => Err(e),
    }
}

/// `jiff::civil::DateTime::new`: succeeds exactly when both the date and the
/// time of day are valid.
#[verifier::external_body]
pub(crate) fn datetime_new(date: Date, time: Time) -> (r: Result<DateTime, jiff::Error>)
    ensures
        r is Ok <==> (date.wf() && time.wf()),
        r matches Ok(dt) ==> dt == (DateTime { date, time }),
{
    match jiff::civil::DateTime::new(date.year, date.month, date.day, time.hour, time.minute, time.second, time.subsec_nanosecond) {
        Ok(v) => Ok(DateTime {
            date: Date { year: v.year(), month: v.month(), day: v.day() },
            time: Time { hour: v.hour(), minute: v.minute(), second: v.second(), subsec_nanosecond: v.subsec_nanosecond() },
        }),
        Err(e) => Err(e),
    }
}

/// `jiff::tz::TimeZone::UTC.to_datetime`: the civil datetime in UTC of an
/// instant; it names the same nanosecond count since the epoch.
#[verifier::external_body]
pub(crate) fn utc_to_datetime(ts: Timestamp) -> (r: DateTime)
    requires
        ts.wf(),
    ensures
        r.wf(),
        r.unix_nanos() == ts.unix_nanos(),
{
    let dt = jiff::tz::TimeZone::UTC.to_datetime(jiff::Timestamp::constant(ts.second, ts.nanosecond));
    DateTime {
        date: Date { year: dt.year(), month: dt.month(), day: dt.day() },
        time: Time { hour: dt.hour(), minute: dt.minute(), second: dt.second(), subsec_nanosecond: dt.subsec_nanosecond() },
    }
}

/// Nanoseconds since the epoch of the civil datetimes in the second before
/// the first instant (-9999-01-02T01:59:58 with a fraction). On them
/// `TimeZone::UTC.to_timestamp` builds an instant below its minimum, which
/// jiff's debug assertions reject with a panic.
pub open spec fn in_second_before_first_instant(n: int) -> bool {
    (TIMESTAMP_MIN_SECOND - 1) * 1_000_000_000 < n < TIMESTAMP_MIN_SECOND * 1_000_000_000
}

/// `jiff::tz::TimeZone::UTC.to_timestamp`: the instant of a civil datetime
/// read in UTC; it fails exactly when that instant is outside the range of
/// instants.
#[verifier::external_body]
pub(crate) fn utc_to_timestamp(dt: DateTime) -> (r: Result<Timestamp, jiff::Error>)
    requires
        dt.wf(),
        !in_second_before_first_instant(dt.unix_nanos()),
    ensures
        r is Ok <==> in_timestamp_range(dt.unix_nanos()),
        r matches Ok(ts) ==> ts.wf() && ts.unix_nanos() == dt.unix_nanos(),
{
    let (d, t) = (dt.date, dt.time);
    let civil = jiff::civil::datetime(d.year, d.month, d.day, t.hour, t.minute, t.second, t.subsec_nanosecond);
    match jiff::tz::TimeZone::UTC.to_timestamp(civil) {
        Ok(ts) => Ok(Timestamp { second: ts.as_second(), nanosecond: ts.subsec_nanosecond() }),
        Err(e) => Err(e),
    }
}

/// `jiff::Timestamp::from_second`: succeeds exactly when the second is within
/// the range of instants.
#[verifier::external_body]
pub(crate) fn timestamp_from_second(second: i64) -> (r: Result<Timestamp, jiff::Error>)
    ensures
        r is Ok <==> TIMESTAMP_MIN_SECOND <= second <= TIMESTAMP_MAX_SECOND,
        r matches Ok(ts) ==> ts == (Timestamp { second, nanosecond: 0 }),
{
    match jiff::Timestamp::from_second(second) {
        Ok(ts) => Ok(Timestamp { second: ts.as_second(), nanosecond: ts.subsec_nanosecond() }),
        Err(e) => Err(e),
    }
}

/// `jiff::Timestamp::from_duration`: the instant the duration after the Unix
/// epoch; it fails exactly when that is outside the range of instants.
#[verifier::external_body]
pub(crate) fn timestamp_from_duration(dur: SignedDuration) -> (r: Result<Timestamp, jiff::Error>)
    requires
        dur.wf(),
    ensures
        r is Ok <==> in_timestamp_range(dur.total()),
        r matches Ok(ts) ==> ts.wf() && ts.unix_nanos() == dur.total(),
{
    match jiff::Timestamp::from_duration(jiff::SignedDuration::new(dur.secs, dur.nanos)) {
        Ok(ts) => Ok(Timestamp { second: ts.as_second(), nanosecond: ts.subsec_nanosecond() }),
        Err(e) => Err(e),
    }
}

/// `jiff::Timestamp::duration_since`: the exact time from `earlier` to `ts`.
#[verifier::external_body]
pub(crate) fn timestamp_duration_since(ts: Timestamp, earlier: Timestamp) -> (r: SignedDuration)
    requires
        ts.wf(),
        earlier.wf(),
    ensures
        r.wf(),
        r.total() == ts.unix_nanos() - earlier.unix_nanos(),
{
    let a = jiff::Timestamp::constant(ts.second, ts.nanosecond);
    let d = a.duration_since(jiff::Timestamp::constant(earlier.second, earlier.nanosecond));
    SignedDuration { secs: d.as_secs(), nanos: d.subsec_nanos() }
}

/// `jiff::civil::DateTime::duration_since`: the exact time from `earlier` to
/// `dt`, counting every day as 24 hours.
#[verifier::external_body]
pub(crate) fn datetime_duration_since(dt: DateTime, earlier: DateTime) -> (r: SignedDuration)
    requires
        dt.wf(),
        earlier.wf(),
    ensures
        r.wf(),
        r.total() == dt.unix_nanos() - earlier.unix_nanos(),
{
    let (d, t, e, u) = (dt.date, dt.time, earlier.date, earlier.time);
    let a = jiff::civil::datetime(d.year, d.month, d.day, t.hour, t.minute, t.second, t.subsec_nanosecond);
    let b = jiff::civil::datetime(e.year, e.month, e.day, u.hour, u.minute, u.second, u.subsec_nanosecond);
    let r = a.duration_since(b);
    SignedDuration { secs: r.as_secs(), nanos: r.subsec_nanos() }
}

/// `jiff::civil::Time::duration_since`: the exact time from `earlier` to `t`.
#[verifier::external_body]
pub(crate) fn time_duration_since(t: Time, earlier: Time) -> (r: SignedDuration)
    requires
        t.wf(),
        earlier.wf(),
    ensures
        r.wf(),
        r.total() == t.nanos_of_day() - earlier.nanos_of_day(),
{
    let a = jiff::civil::time(t.hour, t.minute, t.second, t.subsec_nanosecond);
    let b = jiff::civil::time(earlier.hour, earlier.minute, earlier.second, earlier.subsec_nanosecond);
    let r = a.duration_since(b);
    SignedDuration { secs: r.as_secs(), nanos: r.subsec_nanos() }
}

/// `jiff::civil::Date` subtraction: the span from `earlier` to `d`, in days.
#[verifier::external_body]
pub(crate) fn date_days_since(d: Date, earlier: Date) -> (r: i32)
    requires
        d.wf(),
        earlier.wf(),
    ensures
        r == d.unix_days() - earlier.unix_days(),
{
    let span = jiff::civil::date(d.year, d.month, d.day) - jiff::civil::date(earlier.year, earlier.month, earlier.day);
    span.get_days()
}

/// `jiff::Timestamp::checked_add` with a signed duration: fails exactly when
/// the sum is outside the range of instants.
#[verifier::external_body]
pub(crate) fn timestamp_checked_add(ts: Timestamp, dur: SignedDuration) -> (r: Result<Timestamp, jiff::Error>)
    requires
        ts.wf(),
        dur.wf(),
    ensures
        r is Ok <==> in_timestamp_range(ts.unix_nanos() + dur.total()),
        r matches Ok(v) ==> v.wf() && v.unix_nanos() == ts.unix_nanos() + dur.total(),
{
    let a = jiff::Timestamp::constant(ts.second, ts.nanosecond);
    match a.checked_add(jiff::SignedDuration::new(dur.secs, dur.nanos)) {
        Ok(v) => Ok(Timestamp { second: v.as_second(), nanosecond: v.subsec_nanosecond() }),
        Err(e) => Err(e),
    }
}

/// The whole days that adding `dur` to the time of day `t` carries into the
/// date (rounded down).
pub open spec fn carried_days(t: Time, dur: SignedDuration) -> int {
    (t.nanos_of_day() + dur.total()) / NANOS_PER_DAY as int
}

/// `jiff::civil::DateTime::checked_add` with a signed duration: the time of
/// day takes the sum modulo a day and the date moves by the carried days.
/// It fails exactly when the carried days or the new day number fall outside
/// the day numbers of the date range.
#[verifier::external_body]
pub(crate) fn datetime_checked_add(dt: DateTime, dur: SignedDuration) -> (r: Result<DateTime, jiff::Error>)
    requires
        dt.wf(),
        dur.wf(),
    ensures
        r is Ok <==> (UNIX_EPOCH_DAYS_MIN <= carried_days(dt.time, dur) <= UNIX_EPOCH_DAYS_MAX
            && UNIX_EPOCH_DAYS_MIN <= dt.date.unix_days() + carried_days(dt.time, dur) <= UNIX_EPOCH_DAYS_MAX),
        r matches Ok(v) ==> v.wf() && v.unix_nanos() == dt.unix_nanos() + dur.total(),
{
    let (d, t) = (dt.date, dt.time);
    let a = jiff::civil::datetime(d.year, d.month, d.day, t.hour, t.minute, t.second, t.subsec_nanosecond);
    match a.checked_add(jiff::SignedDuration::new(dur.secs, dur.nanos)) {
        Ok(v) => Ok(DateTime {
            date: Date { year: v.year(), month: v.month(), day: v.day() },
            time: Time { hour: v.hour(), minute: v.minute(), second: v.second(), subsec_nanosecond: v.subsec_nanosecond() },
        }),
        Err(e) => Err(e),
    }
}

/// `jiff::civil::Time::checked_add` with a signed duration: fails exactly
/// when the sum leaves the day.
#[verifier::external_body]
pub(crate) fn time_checked_add(t: Time, dur: SignedDuration) -> (r: Result<Time, jiff::Error>)
    requires
        t.wf(),
        dur.wf(),
    ensures
        r is Ok <==> 0 <= t.nanos_of_day() + dur.total() < NANOS_PER_DAY,
        r matches Ok(v) ==> v.wf() && v.nanos_of_day() == t.nanos_of_day() + dur.total(),
{
    let a = jiff::civil::time(t.hour, t.minute, t.second, t.subsec_nanosecond);
    match a.checked_add(jiff::SignedDuration::new(dur.secs, dur.nanos)) {
        Ok(v) => Ok(Time { hour: v.hour(), minute: v.minute(), second: v.second(), subsec_nanosecond: v.subsec_nanosecond() }),
        Err(e) => Err(e),
    }
}

/// `jiff::civil::Date::checked_add` with a span of days: fails exactly when
/// the new day number falls outside the day numbers of the date range.
#[verifier::external_body]
pub(crate) fn date_checked_add_days(d: Date, span: Span) -> (r: Result<Date, jiff::Error>)
    requires
        d.wf(),
        span.wf(),
        span.months == 0,
        span.microseconds == 0,
    ensures
        r is Ok <==> UNIX_EPOCH_DAYS_MIN <= d.unix_days() + span.days <= UNIX_EPOCH_DAYS_MAX,
        r matches Ok(v) ==> v.wf() && v.unix_days() == d.unix_days() + span.days,
{
    match jiff::civil::date(d.year, d.month, d.day).checked_add(jiff::Span::new().days(span.days)) {
        Ok(v) => Ok(Date { year: v.year(), month: v.month(), day: v.day() }),
        Err(e) => Err(e),
    }
}

/// `jiff::Span::try_months`: fails exactly when the months are out of range.
/// When the new value has the sign of the units already set, the result is
/// the span with its months replaced; otherwise jiff gives the whole span the
/// sign of a negative value, which this contract leaves unsaid.
#[verifier::external_body]
pub(crate) fn span_try_months(span: Span, months: i32) -> (r: Result<Span, jiff::Error>)
    requires
        span.wf(),
    ensures
        r is Ok <==> -SPAN_MONTHS_MAX <= months <= SPAN_MONTHS_MAX,
        r matches Ok(v) ==> v.wf(),
        r matches Ok(v) ==> span.sign_agrees(months as int) ==> v == (Span { months, ..span }),
{
    let s = jiff::Span::new().months(span.months).days(span.days).microseconds(span.microseconds);
    match s.try_months(months) {
        Ok(v) => Ok(Span { months: v.get_months(), days: v.get_days(), microseconds: v.get_microseconds() }),
        Err(e) => Err(e),
    }
}

/// `jiff::Span::try_days`: fails exactly when the days are out of range.
/// When the new value has the sign of the units already set, the result is
/// the span with its days replaced; otherwise jiff gives the whole span the
/// sign of a negative value, which this contract leaves unsaid.
#[verifier::external_body]
pub(crate) fn span_try_days(span: Span, days: i32) -> (r: Result<Span, jiff::Error>)
    requires
        span.wf(),
    ensures
        r is Ok <==> -SPAN_DAYS_MAX <= days <= SPAN_DAYS_MAX,
        r matches Ok(v) ==> v.wf(),
        r matches Ok(v) ==> span.sign_agrees(days as int) ==> v == (Span { days, ..span }),
{
    let s = jiff::Span::new().months(span.months).days(span.days).microseconds(span.microseconds);
    match s.try_days(days) {
        Ok(v) => Ok(Span { months: v.get_months(), days: v.get_days(), microseconds: v.get_microseconds() }),
        Err(e) => Err(e),
    }
}

/// `jiff::Span::try_microseconds`: fails exactly when the microseconds are
/// out of range. When the new value has the sign of the units already set,
/// the result is the span with its microseconds replaced; otherwise jiff
/// gives the whole span the sign of a negative value, which this contract
/// leaves unsaid.
#[verifier::external_body]
pub(crate) fn span_try_microseconds(span: Span, microseconds: i64) -> (r: Result<Span, jiff::Error>)
    requires
        span.wf(),
    ensures
        r is Ok <==> -SPAN_MICROSECONDS_MAX <= microseconds <= SPAN_MICROSECONDS_MAX,
        r matches Ok(v) ==> v.wf(),
        r matches Ok(v) ==> span.sign_agrees(microseconds as int) ==> v == (Span { microseconds, ..span }),
{
    let s = jiff::Span::new().months(span.months).days(span.days).microseconds(span.microseconds);
    match s.try_microseconds(microseconds) {
        Ok(v) => Ok(Span { months: v.get_months(), days: v.get_days(), microseconds: v.get_microseconds() }),
        Err(e) => Err(e),
    }
}

/// What jiff's `FromStr` for `civil::Date` reads from a text: year, month
/// and day, or nothing when the text is not a date.
pub uninterp spec fn parsed_date(text: Seq<char>) -> Option<(i16, i8, i8)>;

/// What jiff's `FromStr` for `civil::Time` reads from a text: hour, minute,
/// second and nanosecond, or nothing when the text is not a time.
pub uninterp spec fn parsed_time(text: Seq<char>) -> Option<(i8, i8, i8, i32)>;

/// What jiff's `FromStr` for `civil::DateTime` reads from a text: year,
/// month, day, hour, minute, second and nanosecond, or nothing when the text
/// is not a datetime.
pub uninterp spec fn parsed_datetime(text: Seq<char>) -> Option<(i16, i8, i8, i8, i8, i8, i32)>;

/// What jiff's `Pieces::parse` reads from a text: the date, the time of day
/// if any, and the offset from UTC in seconds if any; or nothing when the
/// text is not a datetime.
pub uninterp spec fn parsed_pieces(text: Seq<char>) -> Option<((i16, i8, i8), Option<(i8, i8, i8, i32)>, Option<i32>)>;





/// `str::parse::<jiff::civil::Date>`. A date it reads is a valid date.
#[verifier::external_body]
pub(crate) fn parse_date(text: &str) -> (r: Result<(i16, i8, i8), jiff::Error>)
    ensures
        r is Ok <==> parsed_date(text@) is Some,
        r matches Ok(v) ==> parsed_date(text@) == Some(v),
        r matches Ok(v) ==> is_valid_date(v.0 as int, v.1 as int, v.2 as int),
{
    match text.parse::<jiff::civil::Date>() {
        Ok(d) => Ok((d.year(), d.month(), d.day())),
        Err(e) => Err(e),
    }
}

/// `str::parse::<jiff::civil::Time>`. A time it reads is a valid time of
/// day.
#[verifier::external_body]
pub(crate) fn parse_time(text: &str) -> (r: Result<(i8, i8, i8, i32), jiff::Error>)
    ensures
        r is Ok <==> parsed_time(text@) is Some,
        r matches Ok(v) ==> parsed_time(text@) == Some(v),
        r matches Ok(v) ==> is_valid_time(v.0 as int, v.1 as int, v.2 as int, v.3 as int),
{
    match text.parse::<jiff::civil::Time>() {
        Ok(t) => Ok((t.hour(), t.minute(), t.second(), t.subsec_nanosecond())),
        Err(e) => Err(e),
    }
}

/// `str::parse::<jiff::civil::DateTime>`. A datetime it reads has a valid
/// date and a valid time of day.
#[verifier::external_body]
pub(crate) fn parse_datetime(text: &str) -> (r: Result<(i16, i8, i8, i8, i8, i8, i32), jiff::Error>)
    ensures
        r is Ok <==> parsed_datetime(text@) is Some,
        r matches Ok(v) ==> parsed_datetime(text@) == Some(v),
        r matches Ok(v) ==> is_valid_date(v.0 as int, v.1 as int, v.2 as int),
        r matches Ok(v) ==> is_valid_time(v.3 as int, v.4 as int, v.5 as int, v.6 as int),
{
    match text.parse::<jiff::civil::DateTime>() {
        Ok(d) => Ok((d.year(), d.month(), d.day(), d.hour(), d.minute(), d.second(), d.subsec_nanosecond())),
        Err(e) => Err(e),
    }
}

/// `jiff::fmt::temporal::Pieces::parse`, read down to plain values: the
/// date, the time of day if the text has one, and the offset from UTC in
/// seconds if the text has one (`Z` and `-00:00` read as zero). The date and
/// time it reads are valid and the offset is within jiff's offset range.
#[verifier::external_body]
pub(crate) fn parse_pieces(text: &str) -> (r: Result<((i16, i8, i8), Option<(i8, i8, i8, i32)>, Option<i32>), jiff::Error>)
    ensures
        r is Ok <==> parsed_pieces(text@) is Some,
        r matches Ok(v) ==> parsed_pieces(text@) == Some(v),
        r matches Ok(v) ==> is_valid_date(v.0.0 as int, v.0.1 as int, v.0.2 as int),
        r matches Ok(v) ==> (v.1 matches Some(t) ==> is_valid_time(t.0 as int, t.1 as int, t.2 as int, t.3 as int)),
        r matches Ok(v) ==> (v.2 matches Some(o) ==> -93599 <= o <= 93599),
{
    match jiff::fmt::temporal::Pieces::parse(text) {
        Ok(p) => {
            let d = p.date();
            let t = p.time().map(|t| (t.hour(), t.minute(), t.second(), t.subsec_nanosecond()));
            Ok(((d.year(), d.month(), d.day()), t, p.to_numeric_offset().map(|o| o.seconds())))
        },
        Err(e) => Err(e),
    }
}

/// `jiff::tz::Offset::to_timestamp` for the offset of the given seconds: the
/// instant of a civil datetime read at that offset from UTC; it fails exactly
/// when that instant is outside the range of instants. On the second before
/// the first instant it builds an instant below its minimum, which jiff's
/// debug assertions reject with a panic, so that second is left out.
#[verifier::external_body]
pub(crate) fn offset_to_timestamp(offset_seconds: i32, dt: DateTime) -> (r: Result<Timestamp, jiff::Error>)
    requires
        dt.wf(),
        -93599 <= offset_seconds <= 93599,
        !in_second_before_first_instant(dt.unix_nanos() - offset_seconds * 1_000_000_000),
    ensures
        r is Ok <==> in_timestamp_range(dt.unix_nanos() - offset_seconds * 1_000_000_000),
        r matches Ok(ts) ==> ts.wf() && ts.unix_nanos() == dt.unix_nanos() - offset_seconds * 1_000_000_000,
{
    let (d, t) = (dt.date, dt.time);
    let civil = jiff::civil::datetime(d.year, d.month, d.day, t.hour, t.minute, t.second, t.subsec_nanosecond);
    match jiff::tz::Offset::from_seconds(offset_seconds) {
        Ok(offset) => match offset.to_timestamp(civil) {
            Ok(ts) => Ok(Timestamp { second: ts.as_second(), nanosecond: ts.subsec_nanosecond() }),
            Err(e) => Err(e),
        },
        Err(e) => Err(e),
    }
}

/// `ToString` through jiff's `Display` for `civil::Date`: the year in four
/// digits (after `-00` when negative), then `-`, the month and `-`, the day,
/// each in two digits.
#[verifier::external_body]
pub(crate) fn format_date(d: Date) -> (r: String)
    requires
        d.wf(),
    ensures
        r@ == date_text(d),
{
    jiff::civil::date(d.year, d.month, d.day).to_string()
}

/// `ToString` through jiff's `Display` for `civil::Time`: hour, minute and
/// second in two digits each, separated by `:`, then, when the nanoseconds
/// are not zero, `.` and their nine digits without trailing zeros.
#[verifier::external_body]
pub(crate) fn format_time(t: Time) -> (r: String)
    requires
        t.wf(),
    ensures
        r@ == time_text(t),
{
    jiff::civil::time(t.hour, t.minute, t.second, t.subsec_nanosecond).to_string()
}

/// `ToString` through jiff's `Display` for `civil::DateTime`: the date, `T`,
/// and the time of day.
#[verifier::external_body]
pub(crate) fn format_datetime(dt: DateTime) -> (r: String)
    requires
        dt.wf(),
    ensures
        r@ == datetime_text(dt),
{
    let (d, t) = (dt.date, dt.time);
    jiff::civil::datetime(d.year, d.month, d.day, t.hour, t.minute, t.second, t.subsec_nanosecond).to_string()
}

/// `ToString` through jiff's `Display` for `Timestamp`: the instant's UTC
/// datetime as `Display` for `civil::DateTime` writes it, then `Z`.
#[verifier::external_body]
pub(crate) fn format_timestamp(ts: Timestamp) -> (r: String)
    requires
        ts.wf(),
    ensures
        r@ == timestamp_text(ts),
{
    jiff::Timestamp::constant(ts.second, ts.nanosecond).to_string()
}

} // verus!
