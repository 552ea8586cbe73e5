use ups_monitor::clock::{
    instant_within, now_iso, parse_date_bound, parse_instant, DateBound, Instant,
};

#[test]
fn epoch_is_written_as_rfc3339() {
    assert_eq!(now_iso(0), "1970-01-01T00:00:00+00:00");
    assert_eq!(now_iso(947_638_923_004), "2000-01-12T01:02:03.004+00:00");
}

#[test]
fn time_beyond_the_calendar_is_empty() {
    assert_eq!(now_iso(u64::MAX), "");
    assert_eq!(now_iso(i64::MAX as u64), "");
}

#[test]
fn rfc3339_is_read_to_utc() {
    assert_eq!(
        parse_instant("1970-01-01T00:00:00+00:00"),
        Some(Instant { day: 719_163, second_of_day: 0, nanosecond: 0 })
    );
    assert_eq!(
        parse_instant("1970-01-02T01:00:00.5+02:00"),
        Some(Instant { day: 719_163, second_of_day: 82_800, nanosecond: 500_000_000 })
    );
    assert_eq!(parse_instant("yesterday"), None);
    assert_eq!(parse_instant(""), None);
}

#[test]
fn written_time_reads_back() {
    let text = now_iso(1_700_000_000_123);
    assert_eq!(
        parse_instant(&text),
        Some(Instant { day: 738_838, second_of_day: 80_000, nanosecond: 123_000_000 })
    );
}

#[test]
fn date_bounds() {
    assert_eq!(
        parse_date_bound("1970-01-01", false),
        Some(DateBound { day: 719_163, second_of_day: 0 })
    );
    assert_eq!(
        parse_date_bound("1970-01-01", true),
        Some(DateBound { day: 719_163, second_of_day: 86_399 })
    );
    assert_eq!(parse_date_bound("1970-02-30", false), None);
    assert_eq!(parse_date_bound("01/02/1970", false), None);
    assert_eq!(parse_date_bound("", true), None);
}

#[test]
fn bounds_are_inclusive() {
    let from = Some(DateBound { day: 10, second_of_day: 0 });
    let to = Some(DateBound { day: 10, second_of_day: 86_399 });
    let at = |day, second_of_day, nanosecond| Some(Instant { day, second_of_day, nanosecond });
    assert!(instant_within(at(10, 0, 0), from, to));
    assert!(instant_within(at(10, 86_399, 0), from, to));
    assert!(instant_within(at(10, 86_399, 1), from, to));
    assert!(instant_within(at(10, 86_399, 500_000_000), from, to));
    assert!(instant_within(at(10, 86_399, 999_999_999), from, to));
    assert!(instant_within(at(10, 86_399, 1_500_000_000), from, to));
    assert!(!instant_within(at(10, 86_398, 0), from, Some(DateBound { day: 10, second_of_day: 86_397 })));
    assert!(!instant_within(at(9, 86_399, 999_999_999), from, to));
    assert!(!instant_within(at(11, 0, 0), from, to));
    assert!(instant_within(at(11, 0, 0), from, None));
    assert!(instant_within(at(9, 0, 0), None, to));
    assert!(instant_within(at(-5, 0, 0), None, None));
    assert!(instant_within(None, from, to));
}
