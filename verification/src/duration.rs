//! Arithmetic on signed durations.
use vstd::prelude::*;
use crate::calendar::{is_balanced, lemma_balance_total, total_nanos, trunc_div, SignedDuration, UnsignedDuration};

verus! {

impl SignedDuration {
    /// The zero duration.
    pub fn zero() -> (r: SignedDuration)
        ensures
            r.wf(),
            r.total() == 0,
    {
        SignedDuration { secs: 0, nanos: 0 }
    }

    /// Builds a balanced duration from seconds and nanoseconds of any signs.
    pub fn new(secs: i64, nanos: i32) -> (r: SignedDuration)
        requires
            i64::MIN <= trunc_div(total_nanos(secs as int, nanos as int), 1_000_000_000) <= i64::MAX,
        ensures
            r.wf(),
            r.total() == total_nanos(secs as int, nanos as int),
    {
        let t: i128 = secs as i128 * 1_000_000_000i128 + nanos as i128;
        let s: i128 = t / 1_000_000_000i128;
        let n: i128 = t % 1_000_000_000i128;
        proof {
            lemma_balance_total(t as int);
        }
        SignedDuration { secs: s as i64, nanos: n as i32 }
    }

    /// The duration of the given number of microseconds.
    pub fn from_micros(micros: i64) -> (r: SignedDuration)
        ensures
            r.wf(),
            r.total() == micros as int * 1000,
    {
        let secs: i64 = micros / 1_000_000;
        let nanos: i32 = ((micros % 1_000_000) as i32) * 1000;
        SignedDuration { secs, nanos }
    }

    /// The duration of the given number of hours.
    pub fn from_hours(hours: i64) -> (r: SignedDuration)
        requires
            i64::MIN <= hours as int * 3600 <= i64::MAX,
        ensures
            r.wf(),
            r.total() == hours as int * 3_600_000_000_000,
    {
        SignedDuration { secs: hours * 3600, nanos: 0 }
    }

    /// The sum of two durations, or `None` when its whole seconds do not fit
    /// in an `i64`.
    pub fn checked_add(self, rhs: SignedDuration) -> (r: Option<SignedDuration>)
        requires
            self.wf(),
            rhs.wf(),
        ensures
            r is Some <==> i64::MIN <= trunc_div(self.total() + rhs.total(), 1_000_000_000)
                <= i64::MAX,
            r matches Some(d) ==> d.wf() && d.total() == self.total() + rhs.total(),
    {
        let t: i128 = self.as_nanos() + rhs.as_nanos();
        let s: i128 = t / 1_000_000_000i128;
        let n: i128 = t % 1_000_000_000i128;
        proof {
            lemma_balance_total(t as int);
        }
        if s < i64::MIN as i128 || s > i64::MAX as i128 {
            None
        } else {
            Some(SignedDuration { secs: s as i64, nanos: n as i32 })
        }
    }

    /// The whole number of microseconds, rounded toward zero.
    pub fn as_micros(&self) -> (r: i128)
        requires
            self.wf(),
        ensures
            r == trunc_div(self.total(), 1000),
    {
        let micros: i128 = self.secs as i128 * 1_000_000i128;
        let sub: i128 = (self.nanos / 1000) as i128;
        assert(trunc_div(self.total(), 1000) == self.secs * 1_000_000 + trunc_div(self.nanos as int, 1000)) by (nonlinear_arith)
            requires
                is_balanced(self.secs as int, self.nanos as int),
        ;
        micros + sub
    }

    /// The total number of nanoseconds.
    pub fn as_nanos(&self) -> (r: i128)
        ensures
            r == self.total(),
    {
        self.secs as i128 * 1_000_000_000i128 + self.nanos as i128
    }

    /// Whether the duration is below zero.
    pub fn is_negative(&self) -> (r: bool)
        requires
            self.wf(),
        ensures
            r == (self.total() < 0),
    {
        self.secs < 0 || self.nanos < 0
    }

    /// The magnitude of the duration: each part without its sign.
    pub open spec fn abs_spec(self) -> UnsignedDuration {
        UnsignedDuration {
            secs: (if self.secs < 0 { -self.secs } else { self.secs as int }) as u64,
            nanos: (if self.nanos < 0 { -self.nanos } else { self.nanos as int }) as u32,
        }
    }

    /// The magnitude of the duration.
    pub fn unsigned_abs(self) -> (r: UnsignedDuration)
        requires
            self.wf(),
        ensures
            r == self.abs_spec(),
            r.wf(),
            r.total() == if self.total() < 0 { -self.total() } else { self.total() },
    {
        let secs: u64 = if self.secs < 0 {
            (-(self.secs as i128)) as u64
        } else {
            self.secs as u64
        };
        let nanos: u32 = if self.nanos < 0 {
            (-(self.nanos as i64)) as u32
        } else {
            self.nanos as u32
        };
        UnsignedDuration { secs, nanos }
    }
}

} // verus!
