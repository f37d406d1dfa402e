use jiff_sql::calendar::{DateTime, Date, SignedDuration, Span, Time, UnsignedDuration};

#[test]
fn duration_new_balances() {
    assert_eq!(SignedDuration::new(12, -1), SignedDuration { secs: 11, nanos: 999_999_999 });
    assert_eq!(SignedDuration::new(12, 1_000_000_000), SignedDuration { secs: 13, nanos: 0 });
    assert_eq!(SignedDuration::new(-2, 999_999_999), SignedDuration { secs: -1, nanos: -1 });
    assert_eq!(SignedDuration::new(0, -2_000_000_001), SignedDuration { secs: -2, nanos: -1 });
}

#[test]
fn duration_units() {
    assert_eq!(SignedDuration::from_micros(-1_500_000), SignedDuration { secs: -1, nanos: -500_000_000 });
    assert_eq!(SignedDuration::from_micros(1_999), SignedDuration { secs: 0, nanos: 1_999_000 });
    assert_eq!(SignedDuration::from_hours(-2), SignedDuration { secs: -7_200, nanos: 0 });
    assert_eq!(SignedDuration::zero(), SignedDuration { secs: 0, nanos: 0 });
    let d = SignedDuration { secs: -1, nanos: -500 };
    assert_eq!(d.as_micros(), -1_000_000);
    assert_eq!(d.as_nanos(), -1_000_000_500);
    assert!(d.is_negative());
    assert!(!SignedDuration { secs: 0, nanos: 0 }.is_negative());
    assert_eq!(d.unsigned_abs(), UnsignedDuration { secs: 1, nanos: 500 });
}

#[test]
fn duration_checked_add() {
    let a = SignedDuration { secs: 1, nanos: 600_000_000 };
    let b = SignedDuration { secs: -3, nanos: -700_000_000 };
    assert_eq!(a.checked_add(b), Some(SignedDuration { secs: -2, nanos: -100_000_000 }));
    let max = SignedDuration { secs: i64::MAX, nanos: 999_999_999 };
    assert_eq!(max.checked_add(SignedDuration { secs: 0, nanos: 1 }), None);
    assert_eq!(
        max.checked_add(SignedDuration { secs: 0, nanos: -1 }),
        Some(SignedDuration { secs: i64::MAX, nanos: 999_999_998 })
    );
}

#[test]
fn span_new_is_empty() {
    assert_eq!(Span::new(), Span { months: 0, days: 0, microseconds: 0 });
}

#[test]
fn second_before_first_instant() {
    let at = |h: i8, m: i8, s: i8, ns: i32| DateTime {
        date: Date { year: -9999, month: 1, day: 2 },
        time: Time { hour: h, minute: m, second: s, subsec_nanosecond: ns },
    };
    assert!(at(1, 59, 58, 1).is_in_second_before_first_instant());
    assert!(!at(1, 59, 58, 0).is_in_second_before_first_instant());
    assert!(!at(1, 59, 59, 0).is_in_second_before_first_instant());
}
