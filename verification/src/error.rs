//! Errors of encoding and decoding.
use vstd::prelude::*;

verus! {

/// A field of a MySQL `TIME` value.
#[derive(Clone, Copy, Debug, PartialEq, Eq, Structural)]
pub enum TimeField {
    Hours,
    Minutes,
    Seconds,
    Microseconds,
}

/// Why a MySQL `TIME` value cannot be built.
#[derive(Clone, Copy, Debug, PartialEq, Eq, Structural)]
pub enum MySqlTimeError {
    /// A field is above its largest value.
    FieldRange(TimeField),
    /// The value is beyond 838:59:59.
    OutOfRange,
    /// All fields are zero but the sign is negative.
    NegativeZero,
}

/// Why a value cannot be written in a database's form.
#[derive(Clone, Copy, Debug, PartialEq, Eq, Structural)]
pub enum EncodeError {
    /// The year is negative; MySQL stores years as unsigned.
    YearOutOfRange,
    /// The value does not fit a MySQL `TIME`.
    MySqlTime(MySqlTimeError),
    /// A count does not fit the integer the database stores.
    IntegerOutOfRange,
    /// PostgreSQL intervals have microsecond precision.
    NanosecondPrecision,
}

/// Why stored data cannot be read as a value.
#[derive(Clone, Copy, Debug, PartialEq, Eq, Structural)]
pub enum DecodeError {
    /// A MySQL `DATE` shorter than its five bytes.
    UnexpectedNull,
    /// No bytes at all.
    EmptyBuffer,
    /// The length byte of a MySQL `DATETIME` is not 4, 7 or 11.
    InvalidLength(u8),
    /// The number of bytes does not match the length byte, or a MySQL `TIME`
    /// is neither 8 nor 12 bytes after it.
    LengthMismatch(usize),
    /// Days and hours of a MySQL `TIME` overflow a `u32` of hours.
    HoursOverflow,
    /// Microseconds above 999,999.
    MicrosecondsOutOfRange(u32),
    /// A stored integer does not fit the calendar field it is read into.
    IntegerOutOfRange,
    /// The stored fields do not make a MySQL `TIME`.
    MySqlTime(MySqlTimeError),
    /// A MySQL `TIME` that is negative or 24 hours or more.
    NotTimeOfDay,
    /// The value is outside the calendar's range.
    OutOfRange,
    /// The text is not a value of the expected kind.
    Parse,
    /// A PostgreSQL interval with months cannot be an exact duration.
    IntervalHasMonths,
    /// A PostgreSQL interval whose parts have different signs.
    MixedSigns,
    /// The SQLite value is of a storage class the type cannot be read from.
    UnsupportedStorageClass,
}

} // verus!
