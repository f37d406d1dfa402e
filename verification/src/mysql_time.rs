//! MySQL's `TIME` type: a signed duration of at most 838:59:59, stored with
//! microsecond precision.
use vstd::prelude::*;
use crate::bytes_io::{get_u8, le_bytes_u32, le_value_u32, read_u32_le, u32_to_le_bytes};
use crate::calendar::UnsignedDuration;
use crate::error::{DecodeError, MySqlTimeError, TimeField};

verus! {

/// The sign of a MySQL `TIME`.
#[derive(Clone, Copy, Debug, PartialEq, Eq, Structural)]
pub enum MySqlTimeSign {
    Positive,
    Negative,
}

/// A MySQL `TIME` value: a sign and a magnitude in hours, minutes, seconds and
/// microseconds.
#[derive(Clone, Copy, Debug, PartialEq, Eq, Structural)]
pub struct MySqlTime {
    pub sign: MySqlTimeSign,
    pub hours: u32,
    pub minutes: u8,
    pub seconds: u8,
    pub microseconds: u32,
}

/// The magnitude of 838:59:59, the largest `TIME`, in microseconds.
pub const MAGNITUDE_MAX_MICROS: u64 = 3_020_399_000_000;

/// The magnitude in microseconds of the given fields.
pub open spec fn magnitude_of(hours: int, minutes: int, seconds: int, microseconds: int) -> int {
    ((hours * 60 + minutes) * 60 + seconds) * 1_000_000 + microseconds
}

/// What `MySqlTime::new` gives for the given fields: the first field above
/// its limit, then a magnitude above 838:59:59, then a negative zero, is an
/// error.
pub open spec fn spec_mysql_time_new(
    sign: MySqlTimeSign,
    hours: u32,
    minutes: u8,
    seconds: u8,
    microseconds: u32,
) -> Result<MySqlTime, MySqlTimeError> {
    if hours > 838 {
        Err(MySqlTimeError::FieldRange(TimeField::Hours))
    } else if minutes > 59 {
        Err(MySqlTimeError::FieldRange(TimeField::Minutes))
    } else if seconds > 59 {
        Err(MySqlTimeError::FieldRange(TimeField::Seconds))
    } else if microseconds > 999_999 {
        Err(MySqlTimeError::FieldRange(TimeField::Microseconds))
    } else if magnitude_of(hours as int, minutes as int, seconds as int, microseconds as int)
        > MAGNITUDE_MAX_MICROS {
        Err(MySqlTimeError::OutOfRange)
    } else if hours == 0 && minutes == 0 && seconds == 0 && microseconds == 0 && sign
        == MySqlTimeSign::Negative {
        Err(MySqlTimeError::NegativeZero)
    } else {
        Ok(MySqlTime { sign, hours, minutes, seconds, microseconds })
    }
}

/// The bytes of a MySQL `TIME` in the binary protocol: a lone zero for the
/// zero time; otherwise the count of bytes that follow (8, or 12 with
/// microseconds), the sign (1 when negative), the days and the remaining
/// hours, minutes and seconds, and the microseconds when there are any.
pub open spec fn mysql_time_bytes(t: MySqlTime) -> Seq<u8> {
    if t.is_zero() {
        seq![0u8]
    } else {
        seq![if t.microseconds != 0 { 12u8 } else { 8u8 }, if t.sign == MySqlTimeSign::Negative { 1u8 } else { 0u8 }]
            + le_bytes_u32(t.hours as int / 24)
            + seq![(t.hours % 24) as u8, t.minutes, t.seconds]
            + if t.microseconds != 0 { le_bytes_u32(t.microseconds as int) } else { Seq::empty() }
    }
}

/// What reading a MySQL `TIME` from its binary bytes gives.
pub open spec fn spec_decode_mysql_time(buf: Seq<u8>) -> Result<MySqlTime, DecodeError> {
    if buf.len() == 0 {
        Err(DecodeError::EmptyBuffer)
    } else if buf[0] == 0 {
        Ok(MySqlTime { sign: MySqlTimeSign::Positive, hours: 0, minutes: 0, seconds: 0, microseconds: 0 })
    } else if buf.len() - 1 != 8 && buf.len() - 1 != 12 {
        Err(DecodeError::LengthMismatch((buf.len() - 1) as usize))
    } else {
        let sign = if buf[1] == 1 { MySqlTimeSign::Negative } else { MySqlTimeSign::Positive };
        let days = le_value_u32(buf.subrange(2, 6));
        let whole_hours = days * 24 + buf[6];
        let microseconds = if buf.len() == 13 { le_value_u32(buf.subrange(9, 13)) } else { 0 };
        if whole_hours > u32::MAX {
            Err(DecodeError::HoursOverflow)
        } else {
            match spec_mysql_time_new(sign, whole_hours as u32, buf[7], buf[8], microseconds as u32) {
                Ok(t) => Ok(t),
                Err(e) => Err(DecodeError::MySqlTime(e)),
            }
        }
    }
}

impl MySqlTime {
    pub open spec fn wf(self) -> bool {
        &&& self.hours <= 838
        &&& self.minutes <= 59
        &&& self.seconds <= 59
        &&& self.microseconds <= 999_999
        &&& self.magnitude() <= MAGNITUDE_MAX_MICROS
    }

    /// The magnitude in microseconds.
    pub open spec fn magnitude(self) -> int {
        magnitude_of(self.hours as int, self.minutes as int, self.seconds as int, self.microseconds as int)
    }

    pub open spec fn is_zero(self) -> bool {
        self.hours == 0 && self.minutes == 0 && self.seconds == 0 && self.microseconds == 0
    }

    /// The value in microseconds, negative when the sign is.
    pub open spec fn signed_micros(self) -> int {
        if self.sign == MySqlTimeSign::Negative { -self.magnitude() } else { self.magnitude() }
    }

    /// The zero time.
    pub fn zero() -> (r: MySqlTime)
        ensures
            r.wf(),
            r.is_zero(),
            r.sign == MySqlTimeSign::Positive,
    {
        MySqlTime { sign: MySqlTimeSign::Positive, hours: 0, minutes: 0, seconds: 0, microseconds: 0 }
    }

    /// Builds a `TIME` from its fields, checking each against its limit, the
    /// whole against 838:59:59, and that zero is not negative.
    pub fn new(sign: MySqlTimeSign, hours: u32, minutes: u8, seconds: u8, microseconds: u32) -> (r: Result<MySqlTime, MySqlTimeError>)
        ensures
            r == spec_mysql_time_new(sign, hours, minutes, seconds, microseconds),
            r matches Ok(t) ==> t.wf(),
    {
        if hours > 838 {
            return Err(MySqlTimeError::FieldRange(TimeField::Hours));
        }
        if minutes > 59 {
            return Err(MySqlTimeError::FieldRange(TimeField::Minutes));
        }
        if seconds > 59 {
            return Err(MySqlTimeError::FieldRange(TimeField::Seconds));
        }
        if microseconds > 999_999 {
            return Err(MySqlTimeError::FieldRange(TimeField::Microseconds));
        }
        let magnitude: u64 = ((hours as u64 * 60 + minutes as u64) * 60 + seconds as u64) * 1_000_000
            + microseconds as u64;
        if magnitude > MAGNITUDE_MAX_MICROS {
            return Err(MySqlTimeError::OutOfRange);
        }
        if hours == 0 && minutes == 0 && seconds == 0 && microseconds == 0 && sign
            == MySqlTimeSign::Negative {
            return Err(MySqlTimeError::NegativeZero);
        }
        Ok(MySqlTime { sign, hours, minutes, seconds, microseconds })
    }

    /// Whether all fields are zero.
    pub fn is_zero_time(&self) -> (r: bool)
        ensures
            r == self.is_zero(),
    {
        self.hours == 0 && self.minutes == 0 && self.seconds == 0 && self.microseconds == 0
    }

    /// Whether the sign is negative.
    pub fn is_negative(&self) -> (r: bool)
        ensures
            r == (self.sign == MySqlTimeSign::Negative),
    {
        self.sign == MySqlTimeSign::Negative
    }

    /// Whether the value is a time of day: not negative and under 24 hours.
    pub fn is_valid_time_of_day(&self) -> (r: bool)
        ensures
            r == (self.sign == MySqlTimeSign::Positive && self.hours < 24),
    {
        self.sign == MySqlTimeSign::Positive && self.hours < 24
    }

    /// The whole seconds of the magnitude.
    pub fn whole_seconds(&self) -> (r: u32)
        requires
            self.wf(),
        ensures
            r == (self.hours * 60 + self.minutes) * 60 + self.seconds,
    {
        (self.hours * 60 + self.minutes as u32) * 60 + self.seconds as u32
    }

    /// The whole seconds, negative when the sign is.
    pub fn whole_seconds_signed(&self) -> (r: i64)
        requires
            self.wf(),
        ensures
            r == (if self.sign == MySqlTimeSign::Negative { -1int } else { 1int }) * ((self.hours
                * 60 + self.minutes) * 60 + self.seconds),
    {
        let secs = self.whole_seconds() as i64;
        if self.sign == MySqlTimeSign::Negative {
            -secs
        } else {
            secs
        }
    }

    /// The fraction of a second in nanoseconds.
    pub fn subsec_nanos(&self) -> (r: u32)
        requires
            self.wf(),
        ensures
            r == self.microseconds * 1000,
    {
        self.microseconds * 1000
    }

    /// The same magnitude with the given sign.
    pub fn with_sign(self, sign: MySqlTimeSign) -> (r: MySqlTime)
        ensures
            r == (MySqlTime { sign, ..self }),
    {
        MySqlTime { sign, ..self }
    }

    /// A positive `TIME` of an unsigned duration, truncated to microseconds.
    pub fn try_from_duration(d: UnsignedDuration) -> (r: Result<MySqlTime, MySqlTimeError>)
        requires
            d.wf(),
        ensures
            r == (if d.secs / 3600 > u32::MAX {
                Err(MySqlTimeError::FieldRange(TimeField::Hours))
            } else {
                spec_mysql_time_new(
                    MySqlTimeSign::Positive,
                    (d.secs / 3600) as u32,
                    (d.secs % 3600 / 60) as u8,
                    (d.secs % 60) as u8,
                    (d.nanos / 1000) as u32,
                )
            }),
    {
        let hours: u64 = d.secs / 3600;
        let rem_seconds: u64 = d.secs % 3600;
        let minutes: u8 = (rem_seconds / 60) as u8;
        let seconds: u8 = (rem_seconds % 60) as u8;
        let microseconds: u32 = d.nanos / 1000;
        assert(rem_seconds % 60 == d.secs % 60) by (nonlinear_arith)
            requires
                rem_seconds == d.secs % 3600,
        ;
        if hours > u32::MAX as u64 {
            return Err(MySqlTimeError::FieldRange(TimeField::Hours));
        }
        MySqlTime::new(MySqlTimeSign::Positive, hours as u32, minutes, seconds, microseconds)
    }

    /// Appends the binary protocol bytes of this `TIME`.
    pub fn write_binary(&self, buf: &mut Vec<u8>)
        requires
            self.wf(),
        ensures
            final(buf)@ == old(buf)@ + mysql_time_bytes(*self),
    {
        if self.is_zero_time() {
            buf.push(0);
            return;
        }
        let len: u8 = if self.microseconds != 0 { 12 } else { 8 };
        buf.push(len);
        buf.push(if self.sign == MySqlTimeSign::Negative { 1 } else { 0 });
        let days = u32_to_le_bytes(self.hours / 24);
        buf.extend_from_slice(&days);
        buf.push((self.hours % 24) as u8);
        buf.push(self.minutes);
        buf.push(self.seconds);
        if self.microseconds != 0 {
            let micros = u32_to_le_bytes(self.microseconds);
            buf.extend_from_slice(&micros);
        }
        assert(buf@ =~= old(buf)@ + mysql_time_bytes(*self));
    }

    /// Reads a `TIME` from its binary protocol bytes.
    pub fn read_binary(buf: &[u8]) -> (r: Result<MySqlTime, DecodeError>)
        ensures
            r == spec_decode_mysql_time(buf@),
            r matches Ok(t) ==> t.wf(),
    {
        if buf.len() == 0 {
            return Err(DecodeError::EmptyBuffer);
        }
        let (length, r1) = get_u8(buf);
        if length == 0 {
            return Ok(MySqlTime::zero());
        }
        if r1.len() != 8 && r1.len() != 12 {
            return Err(DecodeError::LengthMismatch(r1.len()));
        }
        let ghost n: int = buf@.len() as int;
        let (sign_byte, r2) = get_u8(r1);
        assert(r2@ =~= buf@.subrange(2, n));
        let sign = if sign_byte == 1 { MySqlTimeSign::Negative } else { MySqlTimeSign::Positive };
        let days = read_u32_le(r2);
        assert(r2@.subrange(0, 4) =~= buf@.subrange(2, 6));
        let r3 = &r2[4..r2.len()];
        assert(r3@ =~= buf@.subrange(6, n));
        let (hours, r4) = get_u8(r3);
        assert(r4@ =~= buf@.subrange(7, n));
        let (minutes, r5) = get_u8(r4);
        assert(r5@ =~= buf@.subrange(8, n));
        let (seconds, r6) = get_u8(r5);
        assert(r6@ =~= buf@.subrange(9, n));
        let microseconds: u32 = if r6.len() != 0 { read_u32_le(r6) } else { 0 };
        assert(n == 13 ==> r6@ =~= buf@.subrange(9, 13));
        let whole_hours = match days.checked_mul(24) {
            Some(h) => h.checked_add(hours as u32),
            None => None,
        };
        match whole_hours {
            None => Err(DecodeError::HoursOverflow),
            Some(whole_hours) => match MySqlTime::new(sign, whole_hours, minutes, seconds, microseconds) {
                Ok(t) => Ok(t),
                Err(e) => Err(DecodeError::MySqlTime(e)),
            },
        }
    }
}

/// The value a non-zero `TIME` is written with: byte 1 is 1 when it is
/// negative, bytes 2 to 5 hold the days least significant byte first, byte 6
/// the remaining hours, byte 7 the minutes, byte 8 the seconds, and bytes 9
/// to 12 the microseconds when there are any; the zero time is a lone zero.
pub proof fn law_mysql_time_bytes(t: MySqlTime)
    requires
        t.wf(),
    ensures
        t.is_zero() ==> mysql_time_bytes(t) == seq![0u8],
        !t.is_zero() ==> mysql_time_bytes(t).len() == mysql_time_bytes(t)[0] + 1,
        !t.is_zero() ==> mysql_time_bytes(t)[0] == (if t.microseconds != 0 { 12int } else { 8int }),
        !t.is_zero() ==> mysql_time_bytes(t)[1] == (if t.sign == MySqlTimeSign::Negative { 1int } else { 0int }),
        !t.is_zero() ==> mysql_time_bytes(t)[2] + 256 * mysql_time_bytes(t)[3] + 65536 * mysql_time_bytes(t)[4]
            + 16777216 * mysql_time_bytes(t)[5] == t.hours / 24,
        !t.is_zero() ==> mysql_time_bytes(t)[6] == t.hours % 24,
        !t.is_zero() ==> mysql_time_bytes(t)[7] == t.minutes,
        !t.is_zero() ==> mysql_time_bytes(t)[8] == t.seconds,
        !t.is_zero() && t.microseconds != 0 ==> mysql_time_bytes(t)[9] + 256 * mysql_time_bytes(t)[10] + 65536
            * mysql_time_bytes(t)[11] + 16777216 * mysql_time_bytes(t)[12] == t.microseconds,
{
    let b = mysql_time_bytes(t);
    if !t.is_zero() {
        assert(b.subrange(2, 6) =~= le_bytes_u32(t.hours as int / 24));
        crate::bytes_io::lemma_le_u32_roundtrip(t.hours as int / 24);
        if t.microseconds != 0 {
            assert(b.subrange(9, 13) =~= le_bytes_u32(t.microseconds as int));
            crate::bytes_io::lemma_le_u32_roundtrip(t.microseconds as int);
        }
    }
}

/// A `TIME` read from binary bytes that do not start with zero has the
/// signed value of its bytes: minus when byte 1 is 1, of the days in bytes 2
/// to 5, the hours of byte 6, the minutes of byte 7, the seconds of byte 8
/// and the microseconds in bytes 9 to 12 when there are 13 bytes. Bytes that
/// start with zero are the zero time.
pub proof fn law_mysql_time_decode_value(b: Seq<u8>)
    ensures
        (b.len() > 0 && b[0] != 0) ==> (spec_decode_mysql_time(b) matches Ok(t) ==> ((b.len() == 9 || b.len() == 13)
            && t.minutes == b[7] && t.seconds == b[8] && t.signed_micros() == (if b[1] == 1 { -1int } else { 1int })
            * (((((b[2] + 256 * b[3] + 65536 * b[4] + 16777216 * b[5]) * 24 + b[6]) * 60 + b[7]) * 60 + b[8]) * 1_000_000
            + (if b.len() == 13 {
            b[9] + 256 * b[10] + 65536 * b[11] + 16777216 * b[12]
        } else {
            0int
        })))),
        (b.len() > 0 && b[0] == 0) ==> (spec_decode_mysql_time(b) matches Ok(t) && t.signed_micros() == 0),
{
}

} // verus!
