use jiff_sql::calendar::{Date, DateTime, SignedDuration, Time, Timestamp};
use jiff_sql::error::{DecodeError, EncodeError, MySqlTimeError, TimeField};
use jiff_sql::mysql::{
    date_size_hint, date_type_info, datetime_size_hint, datetime_type_info, decode_date,
    decode_datetime, decode_signed_duration, decode_time, decode_timestamp, encode_date,
    encode_datetime, encode_signed_duration, encode_time, encode_timestamp,
    mysql_time_from_signed_duration, signed_duration_from_mysql_time, signed_duration_type_info,
    time_type_info, timestamp_compatible, timestamp_type_info, ColumnType, MySqlValue,
};
use jiff_sql::mysql_time::{MySqlTime, MySqlTimeSign};

fn date(year: i16, month: i8, day: i8) -> Date {
    Date { year, month, day }
}

fn time(hour: i8, minute: i8, second: i8, subsec_nanosecond: i32) -> Time {
    Time { hour, minute, second, subsec_nanosecond }
}

fn datetime(d: Date, t: Time) -> DateTime {
    DateTime { date: d, time: t }
}

#[test]
fn type_infos() {
    assert_eq!(timestamp_type_info(), ColumnType::Timestamp);
    assert_eq!(time_type_info(), ColumnType::Time);
    assert_eq!(signed_duration_type_info(), ColumnType::Time);
    assert_eq!(date_type_info(), ColumnType::Date);
    assert_eq!(datetime_type_info(), ColumnType::Datetime);
    assert_eq!(date_size_hint(), 5);
    assert_eq!(datetime_size_hint(), 12);
}

#[test]
fn timestamp_compatible_columns() {
    assert!(timestamp_compatible(ColumnType::Datetime));
    assert!(timestamp_compatible(ColumnType::Timestamp));
    assert!(!timestamp_compatible(ColumnType::Date));
    assert!(!timestamp_compatible(ColumnType::VarChar));
}

#[test]
fn date_bytes() {
    let mut buf = vec![9u8];
    assert_eq!(encode_date(&date(2024, 2, 29), &mut buf), Ok(()));
    assert_eq!(buf, vec![9, 4, 0xE8, 0x07, 2, 29]);
}

#[test]
fn date_negative_year_is_refused() {
    let mut buf = vec![1u8, 2];
    assert_eq!(encode_date(&date(-1, 1, 1), &mut buf), Err(EncodeError::YearOutOfRange));
    assert_eq!(buf, vec![1, 2]);
}

#[test]
fn date_decode_binary() {
    let bytes = [4u8, 0xE8, 0x07, 2, 29];
    assert_eq!(decode_date(MySqlValue::Binary(&bytes)), Ok(date(2024, 2, 29)));
    // the length byte is not read, and bytes after the fifth are ignored
    let bytes = [0u8, 0xE8, 0x07, 2, 29, 77];
    assert_eq!(decode_date(MySqlValue::Binary(&bytes)), Ok(date(2024, 2, 29)));
}

#[test]
fn date_decode_errors() {
    assert_eq!(decode_date(MySqlValue::Binary(&[4, 0xE8, 0x07, 2])), Err(DecodeError::UnexpectedNull));
    assert_eq!(decode_date(MySqlValue::Binary(&[4, 0xFF, 0xFF, 2, 1])), Err(DecodeError::IntegerOutOfRange));
    assert_eq!(decode_date(MySqlValue::Binary(&[4, 0xE7, 0x07, 2, 29])), Err(DecodeError::OutOfRange));
    assert_eq!(decode_date(MySqlValue::Binary(&[4, 0xE8, 0x07, 200, 1])), Err(DecodeError::IntegerOutOfRange));
    assert_eq!(decode_date(MySqlValue::Binary(&[4, 0xE8, 0x07, 13, 1])), Err(DecodeError::OutOfRange));
}

#[test]
fn date_decode_text() {
    assert_eq!(decode_date(MySqlValue::Text("2024-02-29")), Ok(date(2024, 2, 29)));
    assert_eq!(decode_date(MySqlValue::Text("2023-02-29")), Err(DecodeError::Parse));
    assert_eq!(decode_date(MySqlValue::Text("not a date")), Err(DecodeError::Parse));
}

#[test]
fn datetime_lengths() {
    let d = date(2024, 6, 19);
    let mut buf = Vec::new();
    encode_datetime(&datetime(d, time(0, 0, 0, 0)), &mut buf).unwrap();
    assert_eq!(buf, vec![4, 0xE8, 0x07, 6, 19]);

    let mut buf = Vec::new();
    encode_datetime(&datetime(d, time(15, 22, 45, 0)), &mut buf).unwrap();
    assert_eq!(buf, vec![7, 0xE8, 0x07, 6, 19, 15, 22, 45]);

    // nanoseconds are cut to microseconds: 123_456_789 ns is 123_456 us (0x01E240)
    let mut buf = Vec::new();
    encode_datetime(&datetime(d, time(15, 22, 45, 123_456_789)), &mut buf).unwrap();
    assert_eq!(buf, vec![11, 0xE8, 0x07, 6, 19, 15, 22, 45, 0x40, 0xE2, 0x01, 0x00]);
    assert!(buf.len() <= datetime_size_hint());
}

#[test]
fn datetime_negative_year_is_refused() {
    let mut buf = Vec::new();
    let dt = datetime(date(-5, 3, 1), time(1, 2, 3, 0));
    assert_eq!(encode_datetime(&dt, &mut buf), Err(EncodeError::YearOutOfRange));
    assert!(buf.is_empty());
}

#[test]
fn datetime_roundtrip_cuts_to_microseconds() {
    let dt = datetime(date(1999, 12, 31), time(23, 59, 59, 999_999_999));
    let mut buf = Vec::new();
    encode_datetime(&dt, &mut buf).unwrap();
    let back = decode_datetime(MySqlValue::Binary(&buf)).unwrap();
    assert_eq!(back, datetime(date(1999, 12, 31), time(23, 59, 59, 999_999_000)));
}

#[test]
fn datetime_decode_errors() {
    assert_eq!(decode_datetime(MySqlValue::Binary(&[])), Err(DecodeError::EmptyBuffer));
    assert_eq!(decode_datetime(MySqlValue::Binary(&[5, 0, 0, 0, 0, 0])), Err(DecodeError::InvalidLength(5)));
    assert_eq!(decode_datetime(MySqlValue::Binary(&[7, 0xE8, 0x07, 6, 19])), Err(DecodeError::LengthMismatch(4)));
    let micros = [11, 0xE8, 0x07, 6, 19, 15, 22, 45, 0x40, 0x42, 0x0F, 0x00];
    assert_eq!(decode_datetime(MySqlValue::Binary(&micros)), Err(DecodeError::MicrosecondsOutOfRange(1_000_000)));
    assert_eq!(decode_datetime(MySqlValue::Binary(&[7, 0xE8, 0x07, 6, 19, 24, 0, 0])), Err(DecodeError::OutOfRange));
    assert_eq!(decode_datetime(MySqlValue::Binary(&[4, 0x00, 0x80, 6, 19])), Err(DecodeError::IntegerOutOfRange));
}

#[test]
fn datetime_decode_text() {
    assert_eq!(
        decode_datetime(MySqlValue::Text("2024-06-19 15:22:45.5")),
        Ok(datetime(date(2024, 6, 19), time(15, 22, 45, 500_000_000)))
    );
    assert_eq!(decode_datetime(MySqlValue::Text("2024-06-19 25:00")), Err(DecodeError::Parse));
}

#[test]
fn timestamp_written_as_utc_datetime() {
    let mut buf = Vec::new();
    encode_timestamp(&Timestamp { second: 0, nanosecond: 0 }, &mut buf).unwrap();
    assert_eq!(buf, vec![4, 0xB2, 0x07, 1, 1]);

    // one and a half microseconds before the epoch: 1969-12-31T23:59:59.9999985
    let mut buf = Vec::new();
    encode_timestamp(&Timestamp { second: 0, nanosecond: -1_500 }, &mut buf).unwrap();
    assert_eq!(buf, vec![11, 0xB1, 0x07, 12, 31, 23, 59, 59, 0x3E, 0x42, 0x0F, 0x00]);
}

#[test]
fn timestamp_before_year_zero_is_refused() {
    let mut buf = Vec::new();
    // 0000-01-01T00:00:00Z is -62167219200 seconds
    let ts = Timestamp { second: -62_167_219_201, nanosecond: 0 };
    assert_eq!(encode_timestamp(&ts, &mut buf), Err(EncodeError::YearOutOfRange));
    let ts = Timestamp { second: -62_167_219_200, nanosecond: 0 };
    assert_eq!(encode_timestamp(&ts, &mut buf), Ok(()));
}

#[test]
fn timestamp_roundtrip() {
    let ts = Timestamp { second: 1_718_810_565, nanosecond: 123_456_789 };
    let mut buf = Vec::new();
    encode_timestamp(&ts, &mut buf).unwrap();
    assert_eq!(decode_timestamp(MySqlValue::Binary(&buf)), Ok(Timestamp { second: 1_718_810_565, nanosecond: 123_456_000 }));
    // before the epoch the instant is cut down, not toward zero
    let ts = Timestamp { second: 0, nanosecond: -1_500 };
    let mut buf = Vec::new();
    encode_timestamp(&ts, &mut buf).unwrap();
    assert_eq!(decode_timestamp(MySqlValue::Binary(&buf)), Ok(Timestamp { second: 0, nanosecond: -2_000 }));
}

#[test]
fn timestamp_decode_text_is_utc() {
    assert_eq!(
        decode_timestamp(MySqlValue::Text("1970-01-02 00:00:01")),
        Ok(Timestamp { second: 86_401, nanosecond: 0 })
    );
}

#[test]
fn time_of_day_bytes() {
    let mut buf = Vec::new();
    assert_eq!(encode_time(&time(12, 34, 56, 789_012_345), &mut buf), Ok(()));
    // 789_012 us is 0x0C0A14
    assert_eq!(buf, vec![12, 0, 0, 0, 0, 0, 12, 34, 56, 0x14, 0x0A, 0x0C, 0x00]);
    let mut buf = Vec::new();
    assert_eq!(encode_time(&time(0, 0, 0, 999), &mut buf), Ok(()));
    assert_eq!(buf, vec![0]);
    let mut buf = Vec::new();
    encode_time(&time(23, 0, 1, 0), &mut buf).unwrap();
    assert_eq!(buf, vec![8, 0, 0, 0, 0, 0, 23, 0, 1]);
}

#[test]
fn time_of_day_roundtrip() {
    let t = time(23, 59, 59, 999_999_999);
    let mut buf = Vec::new();
    encode_time(&t, &mut buf).unwrap();
    assert_eq!(decode_time(&buf), Ok(time(23, 59, 59, 999_999_000)));
    assert_eq!(decode_time(&[0]), Ok(time(0, 0, 0, 0)));
}

#[test]
fn time_of_day_decode_errors() {
    // negative
    assert_eq!(decode_time(&[8, 1, 0, 0, 0, 0, 1, 0, 0]), Err(DecodeError::NotTimeOfDay));
    // one day and two hours
    assert_eq!(decode_time(&[8, 0, 1, 0, 0, 0, 2, 0, 0]), Err(DecodeError::NotTimeOfDay));
    assert_eq!(decode_time(&[]), Err(DecodeError::EmptyBuffer));
    assert_eq!(decode_time(&[8, 0, 0, 0]), Err(DecodeError::LengthMismatch(3)));
    assert_eq!(
        decode_time(&[8, 0, 0, 0, 0, 0, 1, 60, 0]),
        Err(DecodeError::MySqlTime(MySqlTimeError::FieldRange(TimeField::Minutes)))
    );
    assert_eq!(decode_time(&[8, 0, 0xFF, 0xFF, 0xFF, 0xFF, 0, 0, 0]), Err(DecodeError::HoursOverflow));
}

#[test]
fn duration_bytes() {
    // -1h30m
    let d = SignedDuration { secs: -5_400, nanos: 0 };
    let mut buf = Vec::new();
    assert_eq!(encode_signed_duration(&d, &mut buf), Ok(()));
    assert_eq!(buf, vec![8, 1, 0, 0, 0, 0, 1, 30, 0]);
    assert_eq!(decode_signed_duration(&buf), Ok(d));
    // 26 hours is one day and two hours
    let d = SignedDuration { secs: 93_600, nanos: 1_000 };
    let mut buf = Vec::new();
    encode_signed_duration(&d, &mut buf).unwrap();
    assert_eq!(buf, vec![12, 0, 1, 0, 0, 0, 2, 0, 0, 1, 0, 0, 0]);
    assert_eq!(decode_signed_duration(&buf), Ok(d));
}

#[test]
fn duration_roundtrip_cuts_toward_zero() {
    let d = SignedDuration { secs: -1, nanos: -1_999 };
    let mut buf = Vec::new();
    encode_signed_duration(&d, &mut buf).unwrap();
    assert_eq!(decode_signed_duration(&buf), Ok(SignedDuration { secs: -1, nanos: -1_000 }));
    // less than a microsecond below zero is written as zero
    let d = SignedDuration { secs: 0, nanos: -999 };
    let mut buf = Vec::new();
    encode_signed_duration(&d, &mut buf).unwrap();
    assert_eq!(buf, vec![0]);
    assert_eq!(decode_signed_duration(&buf), Ok(SignedDuration { secs: 0, nanos: 0 }));
}

#[test]
fn duration_out_of_time_range() {
    let mut buf = Vec::new();
    let d = SignedDuration { secs: 839 * 3600, nanos: 0 };
    assert_eq!(
        encode_signed_duration(&d, &mut buf),
        Err(EncodeError::MySqlTime(MySqlTimeError::FieldRange(TimeField::Hours)))
    );
    let d = SignedDuration { secs: -(838 * 3600 + 59 * 60 + 59), nanos: -500_000_000 };
    assert_eq!(encode_signed_duration(&d, &mut buf), Err(EncodeError::MySqlTime(MySqlTimeError::OutOfRange)));
    assert!(buf.is_empty());
    let d = SignedDuration { secs: i64::MAX, nanos: 0 };
    assert_eq!(
        mysql_time_from_signed_duration(d),
        Err(MySqlTimeError::FieldRange(TimeField::Hours))
    );
    let d = SignedDuration { secs: 838 * 3600 + 59 * 60 + 59, nanos: 0 };
    assert!(mysql_time_from_signed_duration(d).is_ok());
}

#[test]
fn duration_of_time() {
    let t = MySqlTime { sign: MySqlTimeSign::Negative, hours: 1, minutes: 2, seconds: 3, microseconds: 4 };
    assert_eq!(signed_duration_from_mysql_time(t), SignedDuration { secs: -3_723, nanos: -4_000 });
    let t = MySqlTime { sign: MySqlTimeSign::Positive, hours: 838, minutes: 59, seconds: 59, microseconds: 0 };
    assert_eq!(signed_duration_from_mysql_time(t), SignedDuration { secs: 3_020_399, nanos: 0 });
    let d = SignedDuration { secs: -3_723, nanos: -4_500 };
    assert_eq!(
        mysql_time_from_signed_duration(d),
        Ok(MySqlTime { sign: MySqlTimeSign::Negative, hours: 1, minutes: 2, seconds: 3, microseconds: 4 })
    );
}

#[test]
fn mysql_time_new_errors() {
    assert_eq!(
        MySqlTime::new(MySqlTimeSign::Positive, 839, 0, 0, 0),
        Err(MySqlTimeError::FieldRange(TimeField::Hours))
    );
    assert_eq!(
        MySqlTime::new(MySqlTimeSign::Positive, 1, 0, 60, 0),
        Err(MySqlTimeError::FieldRange(TimeField::Seconds))
    );
    assert_eq!(
        MySqlTime::new(MySqlTimeSign::Positive, 1, 0, 0, 1_000_000),
        Err(MySqlTimeError::FieldRange(TimeField::Microseconds))
    );
    assert_eq!(MySqlTime::new(MySqlTimeSign::Positive, 838, 59, 59, 1), Err(MySqlTimeError::OutOfRange));
    assert_eq!(MySqlTime::new(MySqlTimeSign::Negative, 0, 0, 0, 0), Err(MySqlTimeError::NegativeZero));
    assert!(MySqlTime::new(MySqlTimeSign::Negative, 838, 59, 59, 0).is_ok());
}

#[test]
fn mysql_time_queries() {
    let t = MySqlTime { sign: MySqlTimeSign::Negative, hours: 25, minutes: 1, seconds: 2, microseconds: 3 };
    assert!(t.is_negative());
    assert!(!t.is_valid_time_of_day());
    assert_eq!(t.whole_seconds(), 90_062);
    assert_eq!(t.whole_seconds_signed(), -90_062);
    assert_eq!(t.subsec_nanos(), 3_000);
    assert_eq!(t.with_sign(MySqlTimeSign::Positive).sign, MySqlTimeSign::Positive);
    assert!(MySqlTime::zero().is_zero_time());
}
