//! The calendar model: civil dates, times of day, datetimes, instants and
//! signed durations, each as plain integers with the range rules of the
//! calendar library they stand for.
use vstd::prelude::*;

verus! {

/// Nanoseconds in one second.
pub const NANOS_PER_SECOND: i64 = 1_000_000_000;

/// Nanoseconds in one civil day (always 24 hours).
pub const NANOS_PER_DAY: i64 = 86_400_000_000_000;

/// Smallest number of seconds since the Unix epoch that an instant may have.
pub const TIMESTAMP_MIN_SECOND: i64 = -377_705_023_201;

/// Largest number of seconds since the Unix epoch that an instant may have.
pub const TIMESTAMP_MAX_SECOND: i64 = 253_402_207_200;

/// Smallest day number (days since 1970-01-01) that date arithmetic accepts.
pub const UNIX_EPOCH_DAYS_MIN: i64 = -4_371_587;

/// Largest day number (days since 1970-01-01) that date arithmetic accepts.
pub const UNIX_EPOCH_DAYS_MAX: i64 = 2_932_896;

pub open spec fn is_leap_year(y: int) -> bool {
    (y % 4 == 0 && y % 100 != 0) || y % 400 == 0
}

pub open spec fn days_in_month(y: int, m: int) -> int {
    if m == 2 {
        if is_leap_year(y) { 29 } else { 28 }
    } else if m == 4 || m == 6 || m == 9 || m == 11 {
        30
    } else {
        31
    }
}

/// A year-month-day that the calendar accepts: years -9999 to 9999 of the
/// proleptic Gregorian calendar.
pub open spec fn is_valid_date(y: int, m: int, d: int) -> bool {
    &&& -9999 <= y <= 9999
    &&& 1 <= m <= 12
    &&& 1 <= d <= days_in_month(y, m)
}

/// A time of day with nanosecond precision; there are no leap seconds.
pub open spec fn is_valid_time(h: int, mi: int, s: int, ns: int) -> bool {
    &&& 0 <= h <= 23
    &&& 0 <= mi <= 59
    &&& 0 <= s <= 59
    &&& 0 <= ns <= 999_999_999
}

/// The number of days from 1970-01-01 to the given date of the proleptic
/// Gregorian calendar (negative before it). Years are counted from March so
/// that the leap day comes last.
pub open spec fn days_from_civil(y: int, m: int, d: int) -> int {
    let yp = if m <= 2 { y - 1 } else { y };
    let mp = if m <= 2 { m + 9 } else { m - 3 };
    365 * yp + yp / 4 - yp / 100 + yp / 400 + (153 * mp + 2) / 5 + d - 1 - 719468
}

/// A civil date.
#[derive(Clone, Copy, Debug, PartialEq, Eq, Structural)]
pub struct Date {
    pub year: i16,
    pub month: i8,
    pub day: i8,
}

/// A civil time of day.
#[derive(Clone, Copy, Debug, PartialEq, Eq, Structural)]
pub struct Time {
    pub hour: i8,
    pub minute: i8,
    pub second: i8,
    pub subsec_nanosecond: i32,
}

/// A civil datetime: a date and a time of day, with no time zone.
#[derive(Clone, Copy, Debug, PartialEq, Eq, Structural)]
pub struct DateTime {
    pub date: Date,
    pub time: Time,
}

/// An instant: seconds and nanoseconds since 1970-01-01T00:00:00Z. Both parts
/// have the same sign.
#[derive(Clone, Copy, Debug, PartialEq, Eq, Structural)]
pub struct Timestamp {
    pub second: i64,
    pub nanosecond: i32,
}

/// A signed span of exact time: seconds and nanoseconds of the same sign.
#[derive(Clone, Copy, Debug, PartialEq, Eq, Structural)]
pub struct SignedDuration {
    pub secs: i64,
    pub nanos: i32,
}

/// An unsigned span of exact time.
#[derive(Clone, Copy, Debug, PartialEq, Eq, Structural)]
pub struct UnsignedDuration {
    pub secs: u64,
    pub nanos: u32,
}

/// A span of calendar units, as read from a PostgreSQL interval: months,
/// days and microseconds. All units that are not zero have the same sign.
#[derive(Clone, Copy, Debug, PartialEq, Eq, Structural)]
pub struct Span {
    pub months: i32,
    pub days: i32,
    pub microseconds: i64,
}

/// Largest magnitude of the months of a span.
pub const SPAN_MONTHS_MAX: i32 = 239_976;

/// Largest magnitude of the days of a span.
pub const SPAN_DAYS_MAX: i32 = 7_304_484;

/// Largest magnitude of the microseconds of a span.
pub const SPAN_MICROSECONDS_MAX: i64 = 631_107_417_600_000_000;

impl Span {
    pub open spec fn wf(self) -> bool {
        &&& -SPAN_MONTHS_MAX <= self.months <= SPAN_MONTHS_MAX
        &&& -SPAN_DAYS_MAX <= self.days <= SPAN_DAYS_MAX
        &&& -SPAN_MICROSECONDS_MAX <= self.microseconds <= SPAN_MICROSECONDS_MAX
        &&& self.sign_agrees(1) || self.sign_agrees(-1)
    }

    /// Setting a unit to `v` keeps every unit of the same sign.
    pub open spec fn sign_agrees(self, v: int) -> bool {
        &&& v > 0 ==> self.months >= 0 && self.days >= 0 && self.microseconds >= 0
        &&& v < 0 ==> self.months <= 0 && self.days <= 0 && self.microseconds <= 0
    }

    /// The span with no units.
    pub fn new() -> (r: Span)
        ensures
            r.wf(),
            r == (Span { months: 0, days: 0, microseconds: 0 }),
    {
        Span { months: 0, days: 0, microseconds: 0 }
    }
}

impl Date {
    pub open spec fn wf(self) -> bool {
        is_valid_date(self.year as int, self.month as int, self.day as int)
    }

    /// Days since 1970-01-01.
    pub open spec fn unix_days(self) -> int {
        days_from_civil(self.year as int, self.month as int, self.day as int)
    }
}

impl Time {
    pub open spec fn wf(self) -> bool {
        is_valid_time(
            self.hour as int,
            self.minute as int,
            self.second as int,
            self.subsec_nanosecond as int,
        )
    }

    /// Nanoseconds since midnight.
    pub open spec fn nanos_of_day(self) -> int {
        ((self.hour as int * 60 + self.minute as int) * 60 + self.second as int) * 1_000_000_000
            + self.subsec_nanosecond as int
    }
}

impl DateTime {
    pub open spec fn wf(self) -> bool {
        self.date.wf() && self.time.wf()
    }

    /// Nanoseconds since 1970-01-01T00:00:00, counting every day as 24 hours.
    pub open spec fn unix_nanos(self) -> int {
        self.date.unix_days() * NANOS_PER_DAY + self.time.nanos_of_day()
    }
}

/// Division that rounds toward zero, as integer division does in Rust
/// (`b` is positive).
pub open spec fn trunc_div(a: int, b: int) -> int {
    if a >= 0 { a / b } else { -((-a) / b) }
}

/// The remainder that goes with `trunc_div`; it has the sign of `a`.
pub open spec fn trunc_rem(a: int, b: int) -> int {
    a - trunc_div(a, b) * b
}

/// Total nanoseconds of a seconds and nanoseconds pair.
pub open spec fn total_nanos(secs: int, nanos: int) -> int {
    secs * 1_000_000_000 + nanos
}

/// The seconds and nanoseconds have the same sign and the nanoseconds are
/// less than a second.
pub open spec fn is_balanced(secs: int, nanos: int) -> bool {
    &&& -1_000_000_000 < nanos < 1_000_000_000
    &&& secs > 0 ==> nanos >= 0
    &&& secs < 0 ==> nanos <= 0
}

/// Nanoseconds since the Unix epoch that an instant may have.
pub open spec fn in_timestamp_range(n: int) -> bool {
    TIMESTAMP_MIN_SECOND * 1_000_000_000 <= n <= TIMESTAMP_MAX_SECOND * 1_000_000_000
        + 999_999_999
}

impl Timestamp {
    pub open spec fn wf(self) -> bool {
        &&& TIMESTAMP_MIN_SECOND <= self.second <= TIMESTAMP_MAX_SECOND
        &&& is_balanced(self.second as int, self.nanosecond as int)
        &&& self.second == TIMESTAMP_MIN_SECOND ==> self.nanosecond >= 0
    }

    pub open spec fn unix_nanos(self) -> int {
        total_nanos(self.second as int, self.nanosecond as int)
    }
}

impl SignedDuration {
    pub open spec fn wf(self) -> bool {
        is_balanced(self.secs as int, self.nanos as int)
    }

    pub open spec fn total(self) -> int {
        total_nanos(self.secs as int, self.nanos as int)
    }
}

impl UnsignedDuration {
    pub open spec fn wf(self) -> bool {
        self.nanos < 1_000_000_000
    }

    pub open spec fn total(self) -> int {
        total_nanos(self.secs as int, self.nanos as int)
    }
}

pub open spec fn year_len(y: int) -> int {
    if is_leap_year(y) { 366 } else { 365 }
}

proof fn lemma_year_step(y: int)
    ensures
        days_from_civil(y + 1, 1, 1) == days_from_civil(y, 1, 1) + year_len(y),
        days_from_civil(y, 3, 1) == days_from_civil(y, 2, 1) + year_len(y) - 337,
{
    let a = y - 1;
    assert(y / 4 - a / 4 == (if y % 4 == 0 { 1int } else { 0 }));
    assert(y / 100 - a / 100 == (if y % 100 == 0 { 1int } else { 0 }));
    assert(y / 400 - a / 400 == (if y % 400 == 0 { 1int } else { 0 }));
    assert(y % 400 == 0 ==> y % 100 == 0 && y % 4 == 0);
    assert(y % 100 == 0 ==> y % 4 == 0);
}

proof fn lemma_month_step(y: int, m: int)
    requires
        1 <= m <= 12,
    ensures
        m < 12 ==> days_from_civil(y, m + 1, 1) == days_from_civil(y, m, 1) + days_in_month(y, m),
        m == 12 ==> days_from_civil(y + 1, 1, 1) == days_from_civil(y, m, 1) + days_in_month(y, m),
{
    lemma_year_step(y);
}

proof fn lemma_month_order(y: int, m1: int, m2: int)
    requires
        1 <= m1 < m2 <= 12,
    ensures
        days_from_civil(y, m1, 1) + days_in_month(y, m1) <= days_from_civil(y, m2, 1),
    decreases m2 - m1,
{
    lemma_month_step(y, m1);
    if m1 + 1 < m2 {
        lemma_month_order(y, m1 + 1, m2);
    }
}

proof fn lemma_month_in_year(y: int, m: int)
    requires
        1 <= m <= 12,
    ensures
        days_from_civil(y, 1, 1) <= days_from_civil(y, m, 1),
        days_from_civil(y, m, 1) + days_in_month(y, m) <= days_from_civil(y + 1, 1, 1),
{
    if m > 1 {
        lemma_month_order(y, 1, m);
    }
    if m < 12 {
        lemma_month_order(y, m, 12);
    }
    lemma_month_step(y, 12);
}

proof fn lemma_year_order(y1: int, y2: int)
    requires
        y1 < y2,
    ensures
        days_from_civil(y1 + 1, 1, 1) <= days_from_civil(y2, 1, 1),
    decreases y2 - y1,
{
    if y1 + 1 < y2 {
        lemma_year_order(y1 + 1, y2);
        lemma_year_step(y1 + 1);
    }
}

/// Dates of the calendar are numbered in order: a date that comes earlier
/// (by year, then month, then day) has a smaller day number.
pub proof fn lemma_days_from_civil_ordered(y1: int, m1: int, d1: int, y2: int, m2: int, d2: int)
    requires
        is_valid_date(y1, m1, d1),
        is_valid_date(y2, m2, d2),
        y1 < y2 || (y1 == y2 && m1 < m2) || (y1 == y2 && m1 == m2 && d1 < d2),
    ensures
        days_from_civil(y1, m1, d1) < days_from_civil(y2, m2, d2),
{
    lemma_month_in_year(y1, m1);
    lemma_month_in_year(y2, m2);
    if y1 < y2 {
        lemma_year_order(y1, y2);
    } else if m1 < m2 {
        lemma_month_order(y1, m1, m2);
    }
}

/// Two valid dates with the same day number are the same date.
pub proof fn lemma_days_from_civil_injective(y1: int, m1: int, d1: int, y2: int, m2: int, d2: int)
    requires
        is_valid_date(y1, m1, d1),
        is_valid_date(y2, m2, d2),
        days_from_civil(y1, m1, d1) == days_from_civil(y2, m2, d2),
    ensures
        y1 == y2 && m1 == m2 && d1 == d2,
{
    if y1 < y2 || (y1 == y2 && m1 < m2) || (y1 == y2 && m1 == m2 && d1 < d2) {
        lemma_days_from_civil_ordered(y1, m1, d1, y2, m2, d2);
    } else if y2 < y1 || (y1 == y2 && m2 < m1) || (y1 == y2 && m1 == m2 && d2 < d1) {
        lemma_days_from_civil_ordered(y2, m2, d2, y1, m1, d1);
    }
}

/// Day numbers count days from 1970-01-01, which is day 0, and the day after
/// a valid date has the next number: the next day of the month, else the
/// first of the next month, else New Year's Day of the next year.
pub proof fn law_calendar_next_day(y: int, m: int, d: int)
    requires
        is_valid_date(y, m, d),
    ensures
        days_from_civil(1970, 1, 1) == 0,
        d < days_in_month(y, m) ==> days_from_civil(y, m, d + 1) == days_from_civil(y, m, d) + 1,
        d == days_in_month(y, m) && m < 12 ==> days_from_civil(y, m + 1, 1) == days_from_civil(y, m, d) + 1,
        d == days_in_month(y, m) && m == 12 ==> days_from_civil(y + 1, 1, 1) == days_from_civil(y, m, d) + 1,
{
    lemma_month_step(y, m);
}

impl Date {
    /// Days since 1970-01-01.
    pub fn unix_days_exec(&self) -> (r: i64)
        requires
            self.wf(),
        ensures
            r == self.unix_days(),
    {
        let y = self.year as i64;
        let m = self.month as i64;
        let yp: i64 = if m <= 2 { y - 1 } else { y };
        let mp: i64 = if m <= 2 { m + 9 } else { m - 3 };
        // Shifted by 30 cycles of 400 years so that the divisions see no
        // negative numbers.
        let shifted: i64 = yp + 12000;
        assert(yp / 4 == shifted / 4 - 3000);
        assert(yp / 100 == shifted / 100 - 120);
        assert(yp / 400 == shifted / 400 - 30);
        365 * yp + (shifted / 4 - 3000) - (shifted / 100 - 120) + (shifted / 400 - 30)
            + (153 * mp + 2) / 5 + self.day as i64 - 1 - 719468
    }
}

impl DateTime {
    /// The whole seconds, rounded down, of the instant this datetime names at
    /// the given offset from UTC in seconds.
    pub fn instant_second_at_offset(&self, offset_seconds: i32) -> (r: i64)
        requires
            self.wf(),
            -93599 <= offset_seconds <= 93599,
        ensures
            r * 1_000_000_000 + self.time.subsec_nanosecond == self.unix_nanos() - offset_seconds * 1_000_000_000,
    {
        let days = self.date.unix_days_exec();
        proof {
            lemma_date_days_bounds(self.date);
        }
        let t = self.time;
        days * 86400 + (t.hour as i64 * 60 + t.minute as i64) * 60 + t.second as i64 - offset_seconds as i64
    }

    /// Whether the datetime lies in the second just before the first instant
    /// (-9999-01-02T01:59:58 with a fraction of a second): civil datetimes that
    /// name no instant.
    pub fn is_in_second_before_first_instant(&self) -> (r: bool)
        requires
            self.wf(),
        ensures
            r == ((TIMESTAMP_MIN_SECOND - 1) * 1_000_000_000 < self.unix_nanos()
                < TIMESTAMP_MIN_SECOND * 1_000_000_000),
    {
        let d = self.date;
        let t = self.time;
        let ghost y: int = d.year as int;
        let ghost m: int = d.month as int;
        let ghost dd: int = d.day as int;
        proof {
            assert(days_from_civil(-9999, 1, 2) == -4371586);
            if y < -9999 || (y == -9999 && m < 1) || (y == -9999 && m == 1 && dd < 2) {
                lemma_days_from_civil_ordered(y, m, dd, -9999, 1, 2);
            } else if y > -9999 || (y == -9999 && m > 1) || (y == -9999 && m == 1 && dd > 2) {
                lemma_days_from_civil_ordered(-9999, 1, 2, y, m, dd);
            }
        }
        d.year == -9999 && d.month == 1 && d.day == 2 && t.hour == 1 && t.minute == 59 && t.second
            == 58 && t.subsec_nanosecond > 0
    }
}

/// A seconds and nanoseconds pair is fixed by its total once it is balanced.
pub proof fn lemma_balanced_unique(s1: int, n1: int, s2: int, n2: int)
    requires
        is_balanced(s1, n1),
        is_balanced(s2, n2),
        total_nanos(s1, n1) == total_nanos(s2, n2),
    ensures
        s1 == s2 && n1 == n2,
{
    if s1 < s2 {
        assert(total_nanos(s1, n1) < total_nanos(s2, n2)) by (nonlinear_arith)
            requires
                s1 < s2,
                is_balanced(s1, n1),
                is_balanced(s2, n2),
        ;
    } else if s2 < s1 {
        assert(total_nanos(s2, n2) < total_nanos(s1, n1)) by (nonlinear_arith)
            requires
                s2 < s1,
                is_balanced(s1, n1),
                is_balanced(s2, n2),
        ;
    }
}

/// The balanced pair of a total: whole seconds toward zero and the rest.
pub proof fn lemma_balance_total(t: int)
    ensures
        is_balanced(trunc_div(t, 1_000_000_000), t - trunc_div(t, 1_000_000_000) * 1_000_000_000),
        total_nanos(trunc_div(t, 1_000_000_000), t - trunc_div(t, 1_000_000_000) * 1_000_000_000) == t,
{
}

/// The balanced instant of a count of nanoseconds since the epoch.
pub open spec fn timestamp_of_nanos(n: int) -> Timestamp {
    Timestamp {
        second: trunc_div(n, 1_000_000_000) as i64,
        nanosecond: (n - trunc_div(n, 1_000_000_000) * 1_000_000_000) as i32,
    }
}

/// An instant is the balanced instant of its own nanosecond count.
pub proof fn lemma_timestamp_of_nanos(ts: Timestamp)
    requires
        ts.wf(),
    ensures
        timestamp_of_nanos(ts.unix_nanos()) == ts,
{
    let n = ts.unix_nanos();
    lemma_balance_total(n);
    lemma_balanced_unique(
        ts.second as int,
        ts.nanosecond as int,
        trunc_div(n, 1_000_000_000),
        n - trunc_div(n, 1_000_000_000) * 1_000_000_000,
    );
}

/// A count of nanoseconds in the range of instants gives a valid instant with
/// that count.
pub proof fn lemma_timestamp_of_nanos_in_range(n: int)
    requires
        in_timestamp_range(n),
    ensures
        timestamp_of_nanos(n).wf(),
        timestamp_of_nanos(n).unix_nanos() == n,
{
    lemma_balance_total(n);
    let s = trunc_div(n, 1_000_000_000);
    let r = n - s * 1_000_000_000;
    assert(TIMESTAMP_MIN_SECOND <= s <= TIMESTAMP_MAX_SECOND);
    assert(timestamp_of_nanos(n).second == s);
    assert(timestamp_of_nanos(n).nanosecond == r);
}

/// Two valid times of day at the same nanosecond of the day are equal.
pub proof fn lemma_nanos_of_day_injective(a: Time, b: Time)
    requires
        a.wf(),
        b.wf(),
        a.nanos_of_day() == b.nanos_of_day(),
    ensures
        a == b,
{
    let (h1, m1, s1, n1) = (a.hour as int, a.minute as int, a.second as int, a.subsec_nanosecond as int);
    let (h2, m2, s2, n2) = (b.hour as int, b.minute as int, b.second as int, b.subsec_nanosecond as int);
    assert(h1 == h2 && m1 == m2 && s1 == s2 && n1 == n2) by (nonlinear_arith)
        requires
            0 <= m1 < 60, 0 <= m2 < 60, 0 <= s1 < 60, 0 <= s2 < 60,
            0 <= n1 < 1_000_000_000, 0 <= n2 < 1_000_000_000,
            0 <= h1, 0 <= h2,
            ((h1 * 60 + m1) * 60 + s1) * 1_000_000_000 + n1 == ((h2 * 60 + m2) * 60 + s2) * 1_000_000_000 + n2,
    ;
}

/// The nanoseconds of the day are less than a day.
pub proof fn lemma_nanos_of_day_bounds(t: Time)
    requires
        t.wf(),
    ensures
        0 <= t.nanos_of_day() < NANOS_PER_DAY,
{
}

/// Splitting a count into whole days and the rest of the day gives back the
/// days and the rest.
pub proof fn lemma_day_split(days: int, rest: int)
    requires
        0 <= rest < NANOS_PER_DAY,
    ensures
        (days * NANOS_PER_DAY + rest) / NANOS_PER_DAY as int == days,
        (days * NANOS_PER_DAY + rest) % NANOS_PER_DAY as int == rest,
{
    vstd::arithmetic::div_mod::lemma_fundamental_div_mod_converse(
        days * NANOS_PER_DAY + rest,
        NANOS_PER_DAY as int,
        days,
        rest,
    );
}

/// Two valid datetimes with the same nanosecond count are equal.
pub proof fn lemma_datetime_unix_nanos_injective(a: DateTime, b: DateTime)
    requires
        a.wf(),
        b.wf(),
        a.unix_nanos() == b.unix_nanos(),
    ensures
        a == b,
{
    lemma_day_split(a.date.unix_days(), a.time.nanos_of_day());
    lemma_day_split(b.date.unix_days(), b.time.nanos_of_day());
    lemma_days_from_civil_injective(
        a.date.year as int, a.date.month as int, a.date.day as int,
        b.date.year as int, b.date.month as int, b.date.day as int,
    );
    lemma_nanos_of_day_injective(a.time, b.time);
}

/// A valid datetime is within the day numbers of the date range.
pub proof fn lemma_datetime_nanos_bounds(dt: DateTime)
    requires
        dt.wf(),
    ensures
        UNIX_EPOCH_DAYS_MIN <= dt.date.unix_days() <= UNIX_EPOCH_DAYS_MAX,
        UNIX_EPOCH_DAYS_MIN * NANOS_PER_DAY <= dt.unix_nanos() < (UNIX_EPOCH_DAYS_MAX + 1) * NANOS_PER_DAY,
{
    lemma_date_days_bounds(dt.date);
    lemma_nanos_of_day_bounds(dt.time);
    let d = dt.date.unix_days();
    assert(UNIX_EPOCH_DAYS_MIN * NANOS_PER_DAY <= dt.unix_nanos() < (UNIX_EPOCH_DAYS_MAX + 1) * NANOS_PER_DAY) by (nonlinear_arith)
        requires
            UNIX_EPOCH_DAYS_MIN <= d <= UNIX_EPOCH_DAYS_MAX,
            dt.unix_nanos() == d * NANOS_PER_DAY + dt.time.nanos_of_day(),
            0 <= dt.time.nanos_of_day() < NANOS_PER_DAY,
    ;
}

/// The day number of a valid date lies between those of -9999-01-01 and
/// 9999-12-31.
pub proof fn lemma_date_days_bounds(d: Date)
    requires
        d.wf(),
    ensures
        UNIX_EPOCH_DAYS_MIN <= d.unix_days() <= UNIX_EPOCH_DAYS_MAX,
{
    let (y, m, dd) = (d.year as int, d.month as int, d.day as int);
    assert(days_from_civil(-9999, 1, 1) == UNIX_EPOCH_DAYS_MIN);
    assert(days_from_civil(9999, 12, 31) == UNIX_EPOCH_DAYS_MAX);
    if y > -9999 || m > 1 || dd > 1 {
        lemma_days_from_civil_ordered(-9999, 1, 1, y, m, dd);
    }
    if y < 9999 || m < 12 || dd < 31 {
        lemma_days_from_civil_ordered(y, m, dd, 9999, 12, 31);
    }
}

} // verus!
