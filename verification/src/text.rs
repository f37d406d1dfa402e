//! Reading dates, times, datetimes and instants from their text forms.
use vstd::prelude::*;
use crate::calendar::{
    days_from_civil, in_timestamp_range, lemma_timestamp_of_nanos_in_range, timestamp_of_nanos, Date,
    DateTime, Time, Timestamp, TIMESTAMP_MIN_SECOND,
};
use crate::error::DecodeError;
use crate::jiff_api::{
    offset_to_timestamp, parse_date, parse_datetime, parse_pieces, parse_time, parsed_date,
    parsed_datetime, parsed_pieces, parsed_time,
};

verus! {

/// The date of parsed year, month and day.
pub open spec fn date_of_parts(v: (i16, i8, i8)) -> Date {
    Date { year: v.0, month: v.1, day: v.2 }
}

/// The time of day of parsed hour, minute, second and nanosecond.
pub open spec fn time_of_parts(v: (i8, i8, i8, i32)) -> Time {
    Time { hour: v.0, minute: v.1, second: v.2, subsec_nanosecond: v.3 }
}

/// The datetime of parsed date and time fields.
pub open spec fn datetime_of_parts(v: (i16, i8, i8, i8, i8, i8, i32)) -> DateTime {
    DateTime {
        date: Date { year: v.0, month: v.1, day: v.2 },
        time: Time { hour: v.3, minute: v.4, second: v.5, subsec_nanosecond: v.6 },
    }
}

/// What reading a date from text gives.
pub open spec fn date_from_text(text: Seq<char>) -> Result<Date, DecodeError> {
    match parsed_date(text) {
        Some(v) => Ok(date_of_parts(v)),
        None => Err(DecodeError::Parse),
    }
}

/// What reading a time of day from text gives.
pub open spec fn time_from_text(text: Seq<char>) -> Result<Time, DecodeError> {
    match parsed_time(text) {
        Some(v) => Ok(time_of_parts(v)),
        None => Err(DecodeError::Parse),
    }
}

/// What reading a datetime from text gives.
pub open spec fn datetime_from_text(text: Seq<char>) -> Result<DateTime, DecodeError> {
    match parsed_datetime(text) {
        Some(v) => Ok(datetime_of_parts(v)),
        None => Err(DecodeError::Parse),
    }
}

/// The instant a parsed text names: its date and time read at its offset
/// from UTC. A text without a time or without an offset names none.
pub open spec fn instant_nanos_of_pieces(v: ((i16, i8, i8), Option<(i8, i8, i8, i32)>, Option<i32>)) -> Option<int> {
    match (v.1, v.2) {
        (Some(t), Some(o)) => Some(
            datetime_of_parts((v.0.0, v.0.1, v.0.2, t.0, t.1, t.2, t.3)).unix_nanos() - o * 1_000_000_000,
        ),
        _ => None,
    }
}

/// What reading an instant from text gives.
pub open spec fn timestamp_from_text(text: Seq<char>) -> Result<Timestamp, DecodeError> {
    match parsed_pieces(text) {
        None => Err(DecodeError::Parse),
        Some(v) => match instant_nanos_of_pieces(v) {
            None => Err(DecodeError::Parse),
            Some(n) => if in_timestamp_range(n) {
                Ok(timestamp_of_nanos(n))
            } else {
                Err(DecodeError::OutOfRange)
            },
        },
    }
}

/// The character of a decimal digit.
pub open spec fn digit_char(n: int) -> char {
    (48 + n) as char
}

/// A number below 100 in two digits.
pub open spec fn pad2(n: int) -> Seq<char> {
    seq![digit_char(n / 10 % 10), digit_char(n % 10)]
}

/// A number below 10000 in four digits.
pub open spec fn pad4(n: int) -> Seq<char> {
    seq![digit_char(n / 1000 % 10), digit_char(n / 100 % 10), digit_char(n / 10 % 10), digit_char(n % 10)]
}

/// A number below a billion in nine digits.
pub open spec fn pad9(n: int) -> Seq<char> {
    seq![
        digit_char(n / 100_000_000 % 10), digit_char(n / 10_000_000 % 10), digit_char(n / 1_000_000 % 10),
        digit_char(n / 100_000 % 10), digit_char(n / 10_000 % 10), digit_char(n / 1000 % 10),
        digit_char(n / 100 % 10), digit_char(n / 10 % 10), digit_char(n % 10),
    ]
}

/// The digits without their trailing zeros.
pub open spec fn without_trailing_zeros(s: Seq<char>) -> Seq<char>
    decreases s.len(),
{
    if s.len() > 0 && s.last() == '0' { without_trailing_zeros(s.drop_last()) } else { s }
}

/// The text of a date: `YYYY-MM-DD`, with `-00` before the year when it is
/// negative.
pub open spec fn date_text(d: Date) -> Seq<char> {
    (if d.year < 0 { seq!['-', '0', '0'] + pad4(-d.year) } else { pad4(d.year as int) }) + seq!['-']
        + pad2(d.month as int) + seq!['-'] + pad2(d.day as int)
}

/// The text of a time of day: `HH:MM:SS`, then `.` and the fraction of a
/// second without trailing zeros when there is one.
pub open spec fn time_text(t: Time) -> Seq<char> {
    pad2(t.hour as int) + seq![':'] + pad2(t.minute as int) + seq![':'] + pad2(t.second as int) + if t.subsec_nanosecond
        != 0 {
        seq!['.'] + without_trailing_zeros(pad9(t.subsec_nanosecond as int))
    } else {
        Seq::empty()
    }
}

/// The text of a datetime: the date, `T`, and the time of day.
pub open spec fn datetime_text(dt: DateTime) -> Seq<char> {
    date_text(dt.date) + seq!['T'] + time_text(dt.time)
}

/// The valid datetime that names the instant in UTC (there is exactly one).
pub open spec fn utc_datetime_of(ts: Timestamp) -> DateTime {
    choose|dt: DateTime| dt.wf() && dt.unix_nanos() == ts.unix_nanos()
}

/// The text of an instant: its UTC datetime, then `Z`.
pub open spec fn timestamp_text(ts: Timestamp) -> Seq<char> {
    datetime_text(utc_datetime_of(ts)) + seq!['Z']
}

/// Reads a date from text.
pub fn read_date(text: &str) -> (r: Result<Date, DecodeError>)
    ensures
        r == date_from_text(text@),
        r matches Ok(d) ==> d.wf(),
{
    match parse_date(text) {
        Ok(v) => Ok(Date { year: v.0, month: v.1, day: v.2 }),
        Err(_) => Err(DecodeError::Parse),
    }
}

/// Reads a time of day from text.
pub fn read_time(text: &str) -> (r: Result<Time, DecodeError>)
    ensures
        r == time_from_text(text@),
        r matches Ok(t) ==> t.wf(),
{
    match parse_time(text) {
        Ok(v) => Ok(Time { hour: v.0, minute: v.1, second: v.2, subsec_nanosecond: v.3 }),
        Err(_) => Err(DecodeError::Parse),
    }
}

/// Reads a datetime from text.
pub fn read_datetime(text: &str) -> (r: Result<DateTime, DecodeError>)
    ensures
        r == datetime_from_text(text@),
        r matches Ok(dt) ==> dt.wf(),
{
    match parse_datetime(text) {
        Ok(v) => Ok(DateTime {
            date: Date { year: v.0, month: v.1, day: v.2 },
            time: Time { hour: v.3, minute: v.4, second: v.5, subsec_nanosecond: v.6 },
        }),
        Err(_) => Err(DecodeError::Parse),
    }
}

/// Reads an instant from text: a date, a time of day and an offset from UTC.
pub fn read_timestamp(text: &str) -> (r: Result<Timestamp, DecodeError>)
    ensures
        r == timestamp_from_text(text@),
        r matches Ok(ts) ==> ts.wf(),
{
    let (d, t, o) = match parse_pieces(text) {
        Ok(v) => v,
        Err(_) => return Err(DecodeError::Parse),
    };
    let (t, offset) = match (t, o) {
        (Some(t), Some(offset)) => (t, offset),
        _ => return Err(DecodeError::Parse),
    };
    let dt = DateTime {
        date: Date { year: d.0, month: d.1, day: d.2 },
        time: Time { hour: t.0, minute: t.1, second: t.2, subsec_nanosecond: t.3 },
    };
    let second = dt.instant_second_at_offset(offset);
    if second == TIMESTAMP_MIN_SECOND - 1 && dt.time.subsec_nanosecond > 0 {
        // The second before the first instant.
        return Err(DecodeError::OutOfRange);
    }
    match offset_to_timestamp(offset, dt) {
        Ok(ts) => {
            proof {
                crate::calendar::lemma_timestamp_of_nanos(ts);
            }
            Ok(ts)
        },
        Err(_) => Err(DecodeError::OutOfRange),
    }
}

/// Nanoseconds since 1970-01-01T00:00:00 of a civil date and time of day,
/// counting every day as 24 hours.
pub open spec fn civil_nanos(d: (i16, i8, i8), t: (i8, i8, i8, i32)) -> int {
    days_from_civil(d.0 as int, d.1 as int, d.2 as int) * 86_400_000_000_000
        + ((t.0 as int * 60 + t.1 as int) * 60 + t.2 as int) * 1_000_000_000 + t.3 as int
}

/// Text that holds a date, a time of day and an offset of `o` seconds east
/// of UTC is read as the civil datetime less `o` seconds, the offset's sign
/// kept: `10:22:45-05:00` is read as five hours after `10:22:45Z`. Outside
/// the range of instants the read fails with `OutOfRange`.
pub proof fn law_text_instant_at_offset(text: Seq<char>, d: (i16, i8, i8), t: (i8, i8, i8, i32), o: i32)
    requires
        parsed_pieces(text) == Some((d, Some(t), Some(o))),
    ensures
        in_timestamp_range(civil_nanos(d, t) - o * 1_000_000_000) ==> (timestamp_from_text(text) matches Ok(ts)
            && ts.wf() && ts.unix_nanos() == civil_nanos(d, t) - o * 1_000_000_000),
        !in_timestamp_range(civil_nanos(d, t) - o * 1_000_000_000) ==> timestamp_from_text(text) == Err::<
            Timestamp,
            DecodeError,
        >(DecodeError::OutOfRange),
{
    let n = civil_nanos(d, t) - o * 1_000_000_000;
    assert(instant_nanos_of_pieces((d, Some(t), Some(o))) == Some(n));
    if in_timestamp_range(n) {
        lemma_timestamp_of_nanos_in_range(n);
    }
}

/// Two texts, each with a date, a time of day and an offset, whose civil
/// datetimes less their offsets agree, name the same instant: `10:22:45-05:00`
/// and `15:22:45Z` on the same day read alike.
pub proof fn law_text_instants_agree(
    text1: Seq<char>,
    d1: (i16, i8, i8),
    t1: (i8, i8, i8, i32),
    o1: i32,
    text2: Seq<char>,
    d2: (i16, i8, i8),
    t2: (i8, i8, i8, i32),
    o2: i32,
)
    requires
        parsed_pieces(text1) == Some((d1, Some(t1), Some(o1))),
        parsed_pieces(text2) == Some((d2, Some(t2), Some(o2))),
        civil_nanos(d1, t1) - o1 * 1_000_000_000 == civil_nanos(d2, t2) - o2 * 1_000_000_000,
    ensures
        timestamp_from_text(text1) == timestamp_from_text(text2),
{
    law_text_instant_at_offset(text1, d1, t1, o1);
    law_text_instant_at_offset(text2, d2, t2, o2);
}

/// A date, time of day or datetime read from text has the fields the text
/// was parsed into, in order: year, month and day, then hour, minute,
/// second and nanosecond. Text that does not parse is refused with `Parse`.
pub proof fn law_text_fields(text: Seq<char>)
    ensures
        parsed_date(text) matches Some(v) ==> (date_from_text(text) matches Ok(d) && d.year == v.0 && d.month
            == v.1 && d.day == v.2),
        parsed_date(text) is None ==> date_from_text(text) == Err::<Date, DecodeError>(DecodeError::Parse),
        parsed_time(text) matches Some(v) ==> (time_from_text(text) matches Ok(t) && t.hour == v.0 && t.minute
            == v.1 && t.second == v.2 && t.subsec_nanosecond == v.3),
        parsed_time(text) is None ==> time_from_text(text) == Err::<Time, DecodeError>(DecodeError::Parse),
        parsed_datetime(text) matches Some(v) ==> (datetime_from_text(text) matches Ok(dt) && dt.date.year
            == v.0 && dt.date.month == v.1 && dt.date.day == v.2 && dt.time.hour == v.3 && dt.time.minute == v.4
            && dt.time.second == v.5 && dt.time.subsec_nanosecond == v.6),
        parsed_datetime(text) is None ==> datetime_from_text(text) == Err::<DateTime, DecodeError>(
            DecodeError::Parse,
        ),
{
}

/// The value of a decimal digit character.
pub open spec fn digit_value(c: char) -> int {
    c as int - 48
}

/// Every character of the text is a decimal digit.
pub open spec fn all_digits(s: Seq<char>, from: int, to: int) -> bool {
    forall|i: int| from <= i < to ==> '0' <= #[trigger] s[i] <= '9'
}

/// A date of year 0 to 9999 is written as ten characters `YYYY-MM-DD`: four
/// digits of the year, a hyphen, two of the month, a hyphen and two of the
/// day.
pub proof fn law_date_text_digits(d: Date)
    requires
        d.wf(),
        d.year >= 0,
    ensures
        date_text(d).len() == 10,
        date_text(d)[4] == '-' && date_text(d)[7] == '-',
        all_digits(date_text(d), 0, 4) && all_digits(date_text(d), 5, 7) && all_digits(date_text(d), 8, 10),
        digit_value(date_text(d)[0]) * 1000 + digit_value(date_text(d)[1]) * 100 + digit_value(date_text(d)[2]) * 10
            + digit_value(date_text(d)[3]) == d.year,
        digit_value(date_text(d)[5]) * 10 + digit_value(date_text(d)[6]) == d.month,
        digit_value(date_text(d)[8]) * 10 + digit_value(date_text(d)[9]) == d.day,
{
    let y = d.year as int;
    assert(y / 1000 % 10 * 1000 + y / 100 % 10 * 100 + y / 10 % 10 * 10 + y % 10 == y) by (nonlinear_arith)
        requires
            0 <= y <= 9999,
    ;
}

/// A time of day is written as `HH:MM:SS`: two digits each of the hour, the
/// minute and the second, separated by colons, then `.` and the fraction of
/// a second when there is one.
pub proof fn law_time_text_digits(t: Time)
    requires
        t.wf(),
    ensures
        time_text(t).len() >= 8,
        time_text(t)[2] == ':' && time_text(t)[5] == ':',
        all_digits(time_text(t), 0, 2) && all_digits(time_text(t), 3, 5) && all_digits(time_text(t), 6, 8),
        digit_value(time_text(t)[0]) * 10 + digit_value(time_text(t)[1]) == t.hour,
        digit_value(time_text(t)[3]) * 10 + digit_value(time_text(t)[4]) == t.minute,
        digit_value(time_text(t)[6]) * 10 + digit_value(time_text(t)[7]) == t.second,
        t.subsec_nanosecond == 0 ==> time_text(t).len() == 8,
        t.subsec_nanosecond != 0 ==> (time_text(t).len() > 9 && time_text(t)[8] == '.'),
{
    if t.subsec_nanosecond != 0 {
        let digits = pad9(t.subsec_nanosecond as int);
        assert(digits[0] != '0' || digits[1] != '0' || digits[2] != '0' || digits[3] != '0' || digits[4] != '0'
            || digits[5] != '0' || digits[6] != '0' || digits[7] != '0' || digits[8] != '0') by (nonlinear_arith)
            requires
                0 < t.subsec_nanosecond <= 999_999_999,
                digits == pad9(t.subsec_nanosecond as int),
        ;
        lemma_without_trailing_zeros_nonempty(digits);
    }
}

/// Digits that are not all zeros keep at least one after their trailing
/// zeros are taken off.
proof fn lemma_without_trailing_zeros_nonempty(s: Seq<char>)
    requires
        exists|i: int| 0 <= i < s.len() && s[i] != '0',
    ensures
        without_trailing_zeros(s).len() > 0,
    decreases s.len(),
{
    if s.len() > 0 && s.last() == '0' {
        let i = choose|i: int| 0 <= i < s.len() && s[i] != '0';
        assert(s.drop_last()[i] == s[i]);
        lemma_without_trailing_zeros_nonempty(s.drop_last());
    }
}

/// A datetime of year 0 to 9999 is written as its date, `T` at index 10,
/// and its time of day.
pub proof fn law_datetime_text_layout(dt: DateTime)
    requires
        dt.wf(),
        dt.date.year >= 0,
    ensures
        datetime_text(dt).subrange(0, 10) == date_text(dt.date),
        datetime_text(dt)[10] == 'T',
        datetime_text(dt).subrange(11, datetime_text(dt).len() as int) == time_text(dt.time),
{
    law_date_text_digits(dt.date);
    assert(datetime_text(dt).subrange(0, 10) =~= date_text(dt.date));
    assert(datetime_text(dt).subrange(11, datetime_text(dt).len() as int) =~= time_text(dt.time));
}

} // verus!
