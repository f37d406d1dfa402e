use jiff_sql::calendar::{Date, DateTime, SignedDuration, Span, Time, Timestamp};
use jiff_sql::error::{DecodeError, EncodeError};
use jiff_sql::postgres::{
    date_array_type_info, date_size_hint, date_type_info, datetime_array_type_info,
    datetime_size_hint, datetime_type_info, decode_date, decode_datetime, decode_signed_duration,
    decode_span, decode_time, decode_timestamp, encode_date, encode_datetime,
    encode_signed_duration, encode_time, encode_timestamp, midnight, postgres_epoch_date,
    postgres_epoch_datetime, postgres_epoch_timestamp, signed_duration_array_type_info,
    signed_duration_size_hint, signed_duration_type_info, span_array_type_info, span_type_info,
    time_array_type_info, time_size_hint, time_type_info, timestamp_array_type_info,
    timestamp_size_hint, timestamp_type_info, PgInterval, PgType, PgValue,
};

fn date(year: i16, month: i8, day: i8) -> Date {
    Date { year, month, day }
}

fn time(hour: i8, minute: i8, second: i8, subsec_nanosecond: i32) -> Time {
    Time { hour, minute, second, subsec_nanosecond }
}

fn datetime(d: Date, t: Time) -> DateTime {
    DateTime { date: d, time: t }
}

#[test]
fn type_infos_and_sizes() {
    assert_eq!(timestamp_type_info(), PgType::Timestamptz);
    assert_eq!(timestamp_array_type_info(), PgType::TimestamptzArray);
    assert_eq!(datetime_type_info(), PgType::Timestamp);
    assert_eq!(datetime_array_type_info(), PgType::TimestampArray);
    assert_eq!(date_type_info(), PgType::Date);
    assert_eq!(date_array_type_info(), PgType::DateArray);
    assert_eq!(time_type_info(), PgType::Time);
    assert_eq!(time_array_type_info(), PgType::TimeArray);
    assert_eq!(signed_duration_type_info(), PgType::Interval);
    assert_eq!(signed_duration_array_type_info(), PgType::IntervalArray);
    assert_eq!(span_type_info(), PgType::Interval);
    assert_eq!(span_array_type_info(), PgType::IntervalArray);
    assert_eq!(timestamp_size_hint(), 8);
    assert_eq!(datetime_size_hint(), 8);
    assert_eq!(date_size_hint(), 4);
    assert_eq!(time_size_hint(), 8);
    assert_eq!(signed_duration_size_hint(), 16);
}

#[test]
fn epochs() {
    assert_eq!(postgres_epoch_date(), date(2000, 1, 1));
    assert_eq!(midnight(), time(0, 0, 0, 0));
    assert_eq!(postgres_epoch_datetime(), datetime(date(2000, 1, 1), time(0, 0, 0, 0)));
    assert_eq!(postgres_epoch_timestamp(), Timestamp { second: 946_684_800, nanosecond: 0 });
}

#[test]
fn timestamp_micros() {
    assert_eq!(encode_timestamp(&Timestamp { second: 946_684_800, nanosecond: 0 }), Ok(0));
    assert_eq!(encode_timestamp(&Timestamp { second: 946_684_801, nanosecond: 500 }), Ok(1_000_000));
    // cut toward 2000-01-01
    assert_eq!(encode_timestamp(&Timestamp { second: 946_684_799, nanosecond: 999_999_500 }), Ok(0));
    assert_eq!(encode_timestamp(&Timestamp { second: 0, nanosecond: 0 }), Ok(-946_684_800_000_000));
}

#[test]
fn timestamp_decode() {
    assert_eq!(decode_timestamp(PgValue::Binary(0)), Ok(Timestamp { second: 946_684_800, nanosecond: 0 }));
    assert_eq!(decode_timestamp(PgValue::Binary(-1)), Ok(Timestamp { second: 946_684_799, nanosecond: 999_999_000 }));
    assert_eq!(
        decode_timestamp(PgValue::Binary(-946_684_800_000_001)),
        Ok(Timestamp { second: 0, nanosecond: -1_000 })
    );
    assert_eq!(decode_timestamp(PgValue::Binary(i64::MAX)), Err(DecodeError::OutOfRange));
    assert_eq!(
        decode_timestamp(PgValue::Text("2024-06-19T15:22:45Z")),
        Ok(Timestamp { second: 1_718_810_565, nanosecond: 0 })
    );
    assert_eq!(decode_timestamp(PgValue::Text("2024-06-19 15:22:45")), Err(DecodeError::Parse));
}

#[test]
fn pg_timestamp_roundtrip() {
    let ts = Timestamp { second: -12_345_678, nanosecond: -987_654_000 };
    let micros = encode_timestamp(&ts).unwrap();
    assert_eq!(decode_timestamp(PgValue::Binary(micros)), Ok(ts));
}

#[test]
fn datetime_micros() {
    let epoch = postgres_epoch_datetime();
    assert_eq!(encode_datetime(&epoch), Ok(0));
    assert_eq!(encode_datetime(&datetime(date(2000, 1, 1), time(0, 0, 0, 1_999))), Ok(1));
    assert_eq!(encode_datetime(&datetime(date(1999, 12, 31), time(23, 59, 59, 999_999_999))), Ok(0));
    assert_eq!(encode_datetime(&datetime(date(1999, 12, 31), time(0, 0, 0, 0))), Ok(-86_400_000_000));
}

#[test]
fn datetime_decode() {
    assert_eq!(decode_datetime(PgValue::Binary(86_400_000_000)), Ok(datetime(date(2000, 1, 2), time(0, 0, 0, 0))));
    assert_eq!(
        decode_datetime(PgValue::Binary(-1)),
        Ok(datetime(date(1999, 12, 31), time(23, 59, 59, 999_999_000)))
    );
    assert_eq!(decode_datetime(PgValue::Binary(i64::MIN)), Err(DecodeError::OutOfRange));
    assert_eq!(
        decode_datetime(PgValue::Text("2024-06-19 15:22:45")),
        Ok(datetime(date(2024, 6, 19), time(15, 22, 45, 0)))
    );
}

#[test]
fn pg_datetime_roundtrip() {
    let dt = datetime(date(-9960, 1, 1), time(0, 0, 0, 0));
    let micros = encode_datetime(&dt).unwrap();
    assert_eq!(micros, -377_421_120_000_000_000);
    assert_eq!(decode_datetime(PgValue::Binary(micros)), Ok(dt));
    let dt = datetime(date(9999, 12, 31), time(23, 59, 59, 999_999_000));
    let micros = encode_datetime(&dt).unwrap();
    assert_eq!(decode_datetime(PgValue::Binary(micros)), Ok(dt));
}

#[test]
fn datetime_near_the_first_year_is_not_read_back() {
    // the whole days of the duration fall below the first day number
    let dt = datetime(date(-9990, 1, 1), time(0, 0, 0, 0));
    let micros = encode_datetime(&dt).unwrap();
    assert_eq!(micros, -378_367_804_800_000_000);
    assert_eq!(decode_datetime(PgValue::Binary(micros)), Err(DecodeError::OutOfRange));
}

#[test]
fn date_days() {
    assert_eq!(encode_date(&date(2000, 1, 1)), 0);
    assert_eq!(encode_date(&date(1999, 12, 31)), -1);
    assert_eq!(encode_date(&date(2024, 2, 29)), 8825);
    assert_eq!(decode_date(PgValue::Binary(8825)), Ok(date(2024, 2, 29)));
    assert_eq!(decode_date(PgValue::Binary(-4_382_544)), Ok(date(-9999, 1, 1)));
    assert_eq!(decode_date(PgValue::Binary(2_921_939)), Ok(date(9999, 12, 31)));
    assert_eq!(decode_date(PgValue::Binary(2_921_940)), Err(DecodeError::OutOfRange));
    assert_eq!(decode_date(PgValue::Binary(i32::MAX)), Err(DecodeError::OutOfRange));
    assert_eq!(decode_date(PgValue::Text("2024-02-29")), Ok(date(2024, 2, 29)));
}

#[test]
fn pg_date_roundtrip() {
    for d in [date(-9999, 1, 1), date(1, 3, 1), date(2000, 2, 29), date(9999, 12, 31)] {
        assert_eq!(decode_date(PgValue::Binary(encode_date(&d))), Ok(d));
    }
}

#[test]
fn time_micros() {
    assert_eq!(encode_time(&time(0, 0, 1, 0)), Ok(1_000_000));
    assert_eq!(encode_time(&time(23, 59, 59, 999_999_999)), Ok(86_399_999_999));
    assert_eq!(decode_time(PgValue::Binary(0)), Ok(time(0, 0, 0, 0)));
    assert_eq!(decode_time(PgValue::Binary(86_399_999_999)), Ok(time(23, 59, 59, 999_999_000)));
    assert_eq!(decode_time(PgValue::Binary(86_400_000_000)), Err(DecodeError::OutOfRange));
    assert_eq!(decode_time(PgValue::Binary(-1)), Err(DecodeError::OutOfRange));
    assert_eq!(decode_time(PgValue::Text("15:22:45.123")), Ok(time(15, 22, 45, 123_000_000)));
}

#[test]
fn pg_time_roundtrip() {
    let t = time(12, 0, 30, 250_000);
    assert_eq!(decode_time(PgValue::Binary(encode_time(&t).unwrap())), Ok(t));
}

#[test]
fn duration_interval() {
    assert_eq!(
        encode_signed_duration(&SignedDuration { secs: 0, nanos: 1 }),
        Err(EncodeError::NanosecondPrecision)
    );
    assert_eq!(
        encode_signed_duration(&SignedDuration { secs: i64::MAX, nanos: 0 }),
        Err(EncodeError::IntegerOutOfRange)
    );
    assert_eq!(
        encode_signed_duration(&SignedDuration { secs: -1, nanos: -500_000_000 }),
        Ok(PgInterval { months: 0, days: 0, microseconds: -1_500_000 })
    );
}

#[test]
fn duration_from_interval() {
    assert_eq!(
        decode_signed_duration(PgInterval { months: 1, days: 0, microseconds: 0 }),
        Err(DecodeError::IntervalHasMonths)
    );
    assert_eq!(
        decode_signed_duration(PgInterval { months: 0, days: 1, microseconds: 5 }),
        Ok(SignedDuration { secs: 86_400, nanos: 5_000 })
    );
    assert_eq!(
        decode_signed_duration(PgInterval { months: 0, days: -1, microseconds: 1 }),
        Ok(SignedDuration { secs: -86_399, nanos: -999_999_000 })
    );
}

#[test]
fn pg_duration_roundtrip() {
    let d = SignedDuration { secs: -7, nanos: -123_456_000 };
    let interval = encode_signed_duration(&d).unwrap();
    assert_eq!(decode_signed_duration(interval), Ok(d));
}

#[test]
fn span_from_interval() {
    assert_eq!(
        decode_span(PgInterval { months: 1, days: 2, microseconds: 3 }),
        Ok(Span { months: 1, days: 2, microseconds: 3 })
    );
    assert_eq!(
        decode_span(PgInterval { months: -1, days: 0, microseconds: -5 }),
        Ok(Span { months: -1, days: 0, microseconds: -5 })
    );
    assert_eq!(
        decode_span(PgInterval { months: 0, days: 0, microseconds: 0 }),
        Ok(Span { months: 0, days: 0, microseconds: 0 })
    );
    assert_eq!(decode_span(PgInterval { months: 1, days: -1, microseconds: 0 }), Err(DecodeError::MixedSigns));
    assert_eq!(decode_span(PgInterval { months: 0, days: 5, microseconds: -1 }), Err(DecodeError::MixedSigns));
    assert_eq!(decode_span(PgInterval { months: 300_000, days: 0, microseconds: 0 }), Err(DecodeError::OutOfRange));
    assert_eq!(decode_span(PgInterval { months: 0, days: -7_304_485, microseconds: 0 }), Err(DecodeError::OutOfRange));
    assert_eq!(decode_span(PgInterval { months: 0, days: 0, microseconds: i64::MIN }), Err(DecodeError::OutOfRange));
}

#[test]
fn timestamp_text_offsets() {
    assert_eq!(
        decode_timestamp(PgValue::Text("2024-06-19T17:22:45+02:00")),
        Ok(Timestamp { second: 1_718_810_565, nanosecond: 0 })
    );
    assert_eq!(
        decode_timestamp(PgValue::Text("2024-06-19T15:22:45.25-00:00")),
        Ok(Timestamp { second: 1_718_810_565, nanosecond: 250_000_000 })
    );
    assert_eq!(decode_timestamp(PgValue::Text("2024-06-19")), Err(DecodeError::Parse));
    // the second before the first instant, and the first instant itself
    assert_eq!(decode_timestamp(PgValue::Text("-009999-01-02T01:59:58.5Z")), Err(DecodeError::OutOfRange));
    assert_eq!(decode_timestamp(PgValue::Text("-009999-01-02T03:59:58.5+02:00")), Err(DecodeError::OutOfRange));
    assert_eq!(
        decode_timestamp(PgValue::Text("-009999-01-02T01:59:59Z")),
        Ok(Timestamp { second: -377_705_023_201, nanosecond: 0 })
    );
    assert_eq!(decode_timestamp(PgValue::Text("9999-12-31T23:00:00Z")), Err(DecodeError::OutOfRange));
}
