use jiff_sql::calendar::{Date, DateTime, SignedDuration, Time, Timestamp};
use jiff_sql::error::DecodeError;
use jiff_sql::sqlite::{
    date_compatible, date_type_info, datetime_compatible, datetime_type_info, decode_date,
    decode_datetime, decode_time, decode_timestamp, encode_date, encode_datetime, encode_time,
    encode_timestamp, time_compatible, time_type_info, timestamp_compatible, timestamp_type_info,
    DataType, SqliteValue,
};

fn date(year: i16, month: i8, day: i8) -> Date {
    Date { year, month, day }
}

fn time(hour: i8, minute: i8, second: i8, subsec_nanosecond: i32) -> Time {
    Time { hour, minute, second, subsec_nanosecond }
}

#[test]
fn types() {
    assert_eq!(timestamp_type_info(), DataType::Datetime);
    assert_eq!(datetime_type_info(), DataType::Datetime);
    assert_eq!(date_type_info(), DataType::Date);
    assert_eq!(time_type_info(), DataType::Time);
    for ty in [DataType::Datetime, DataType::Text, DataType::Integer, DataType::Int4, DataType::Float] {
        assert!(timestamp_compatible(ty));
        assert!(datetime_compatible(ty));
    }
    for ty in [DataType::Null, DataType::Blob, DataType::Numeric, DataType::Bool, DataType::Date, DataType::Time] {
        assert!(!timestamp_compatible(ty));
        assert!(!datetime_compatible(ty));
    }
    assert!(date_compatible(DataType::Date) && date_compatible(DataType::Text));
    assert!(!date_compatible(DataType::Datetime));
    assert!(time_compatible(DataType::Time) && time_compatible(DataType::Text));
    assert!(!time_compatible(DataType::Integer));
}

#[test]
fn texts() {
    assert_eq!(encode_timestamp(&Timestamp { second: 1_718_810_565, nanosecond: 0 }), "2024-06-19T15:22:45Z");
    assert_eq!(
        encode_datetime(&DateTime { date: date(2024, 6, 19), time: time(15, 22, 45, 500_000_000) }),
        "2024-06-19T15:22:45.5"
    );
    assert_eq!(encode_date(&date(-5, 3, 1)), "-000005-03-01");
    assert_eq!(encode_time(&time(7, 8, 9, 0)), "07:08:09");
}

#[test]
fn timestamp_from_text() {
    assert_eq!(
        decode_timestamp(SqliteValue::Text("2024-06-19T15:22:45Z")),
        Ok(Timestamp { second: 1_718_810_565, nanosecond: 0 })
    );
    // a datetime without an offset is read as UTC
    assert_eq!(
        decode_timestamp(SqliteValue::Text("2024-06-19 15:22:45")),
        Ok(Timestamp { second: 1_718_810_565, nanosecond: 0 })
    );
    assert_eq!(decode_timestamp(SqliteValue::Text("yesterday")), Err(DecodeError::Parse));
    // civil datetimes before the first instant
    assert_eq!(decode_timestamp(SqliteValue::Text("-009999-01-01T00:00:00")), Err(DecodeError::OutOfRange));
    assert_eq!(decode_timestamp(SqliteValue::Text("-009999-01-02T01:59:58.5")), Err(DecodeError::OutOfRange));
    assert_eq!(
        decode_timestamp(SqliteValue::Text("-009999-01-02T01:59:59")),
        Ok(Timestamp { second: -377_705_023_201, nanosecond: 0 })
    );
}

#[test]
fn timestamp_from_numbers() {
    assert_eq!(decode_timestamp(SqliteValue::Integer(86_400)), Ok(Timestamp { second: 86_400, nanosecond: 0 }));
    assert_eq!(decode_timestamp(SqliteValue::Int4(-1)), Ok(Timestamp { second: -1, nanosecond: 0 }));
    assert_eq!(decode_timestamp(SqliteValue::Integer(i64::MAX)), Err(DecodeError::OutOfRange));
    let d = SignedDuration { secs: -1, nanos: -500_000_000 };
    assert_eq!(decode_timestamp(SqliteValue::Float(Some(d))), Ok(Timestamp { second: -1, nanosecond: -500_000_000 }));
    let d = SignedDuration { secs: i64::MAX, nanos: 0 };
    assert_eq!(decode_timestamp(SqliteValue::Float(Some(d))), Err(DecodeError::OutOfRange));
    assert_eq!(decode_timestamp(SqliteValue::Float(None)), Err(DecodeError::OutOfRange));
    assert_eq!(decode_timestamp(SqliteValue::Other(DataType::Blob)), Err(DecodeError::UnsupportedStorageClass));
}

#[test]
fn datetime_reads() {
    let want = DateTime { date: date(2024, 6, 19), time: time(15, 22, 45, 0) };
    assert_eq!(decode_datetime(SqliteValue::Text("2024-06-19 15:22:45")), Ok(want));
    assert_eq!(decode_datetime(SqliteValue::Text("2024-06-19T15:22:45Z")), Ok(want));
    assert_eq!(decode_datetime(SqliteValue::Text("2024-06-19T15:22:45ZZ")), Err(DecodeError::Parse));
    assert_eq!(decode_datetime(SqliteValue::Integer(1_718_810_565)), Ok(want));
    assert_eq!(
        decode_datetime(SqliteValue::Int4(-1)),
        Ok(DateTime { date: date(1969, 12, 31), time: time(23, 59, 59, 0) })
    );
    let d = SignedDuration { secs: 1_718_810_565, nanos: 0 };
    assert_eq!(decode_datetime(SqliteValue::Float(Some(d))), Ok(want));
    assert_eq!(decode_datetime(SqliteValue::Float(None)), Err(DecodeError::OutOfRange));
    assert_eq!(decode_datetime(SqliteValue::Integer(i64::MIN)), Err(DecodeError::OutOfRange));
    assert_eq!(decode_datetime(SqliteValue::Other(DataType::Null)), Err(DecodeError::UnsupportedStorageClass));
}

#[test]
fn date_and_time_reads() {
    assert_eq!(decode_date("2024-02-29"), Ok(date(2024, 2, 29)));
    assert_eq!(decode_date("2024-02-30"), Err(DecodeError::Parse));
    assert_eq!(decode_time("15:22:45Z"), Ok(time(15, 22, 45, 0)));
    assert_eq!(decode_time("15:22:45.000001"), Ok(time(15, 22, 45, 1_000)));
    assert_eq!(decode_time("25:00:00"), Err(DecodeError::Parse));
}

#[test]
fn texts_read_back() {
    let ts = Timestamp { second: -1, nanosecond: -5 };
    assert_eq!(decode_timestamp(SqliteValue::Text(&encode_timestamp(&ts))), Ok(ts));
    let dt = DateTime { date: date(1, 1, 1), time: time(0, 0, 0, 1) };
    assert_eq!(decode_datetime(SqliteValue::Text(&encode_datetime(&dt))), Ok(dt));
    assert_eq!(decode_date(&encode_date(&date(-9999, 1, 1))), Ok(date(-9999, 1, 1)));
    assert_eq!(decode_time(&encode_time(&time(23, 59, 59, 999_999_999))), Ok(time(23, 59, 59, 999_999_999)));
}

#[test]
fn timestamp_text_falls_back_to_utc_datetime() {
    // the instant is before the first one, but the datetime read as UTC is not
    assert_eq!(
        decode_timestamp(SqliteValue::Text("-009999-01-02T02:00:00+05:00")),
        Ok(Timestamp { second: -377_705_023_200, nanosecond: 0 })
    );
    // a `Z` datetime is no civil datetime
    assert_eq!(decode_timestamp(SqliteValue::Text("-009999-01-02T01:59:58.5Z")), Err(DecodeError::Parse));
    assert_eq!(
        decode_timestamp(SqliteValue::Text("2024-06-19T17:22:45+02:00")),
        Ok(Timestamp { second: 1_718_810_565, nanosecond: 0 })
    );
}

#[test]
fn text_digits() {
    assert_eq!(encode_date(&date(5, 1, 2)), "0005-01-02");
    assert_eq!(encode_time(&time(0, 0, 0, 1)), "00:00:00.000000001");
    assert_eq!(encode_time(&time(23, 5, 0, 120_000_000)), "23:05:00.12");
    assert_eq!(encode_timestamp(&Timestamp { second: -1, nanosecond: -5 }), "1969-12-31T23:59:58.999999995Z");
}
