use scc_license::Timestamp;

#[test]
fn later_instant_is_after_earlier_instant() {
    let early = Timestamp { secs: 100, nanos: 5 };
    assert!(Timestamp { secs: 101, nanos: 0 }.is_after(early));
    assert!(Timestamp { secs: 100, nanos: 6 }.is_after(early));
    assert!(!early.is_after(early));
    assert!(!Timestamp { secs: 100, nanos: 4 }.is_after(early));
    assert!(!Timestamp { secs: 99, nanos: 999_999_999 }.is_after(early));
    assert!(Timestamp { secs: -1, nanos: 0 }.is_after(Timestamp { secs: -2, nanos: 999 }));
}

#[test]
fn plus_days_adds_whole_days() {
    let start = Timestamp { secs: 1_735_689_600, nanos: 123 };
    assert_eq!(start.plus_days(365), Some(Timestamp { secs: 1_767_225_600, nanos: 123 }));
    assert_eq!(start.plus_days(0), Some(start));
    assert_eq!(start.plus_days(-1), Some(Timestamp { secs: 1_735_603_200, nanos: 123 }));
    assert_eq!(start.plus_days(10), Some(Timestamp { secs: 1_736_553_600, nanos: 123 }));
}

#[test]
fn plus_days_gives_nothing_where_the_seconds_do_not_fit() {
    let start = Timestamp { secs: 1_735_689_600, nanos: 0 };
    assert_eq!(start.plus_days(i64::MAX), None);
    assert_eq!(start.plus_days(i64::MIN), None);
    assert_eq!(start.plus_days(106_751_991_167_301), None);
    assert_eq!(Timestamp { secs: i64::MAX - 86_400, nanos: 0 }.plus_days(1), Some(Timestamp { secs: i64::MAX, nanos: 0 }));
    assert_eq!(Timestamp { secs: i64::MAX - 86_399, nanos: 0 }.plus_days(1), None);
    assert_eq!(
        Timestamp { secs: i64::MIN, nanos: 0 }.plus_days(106_751_991_167_301),
        Some(Timestamp { secs: 30_592, nanos: 0 })
    );
}

#[test]
fn instants_are_written_in_rfc3339() {
    assert_eq!(
        Timestamp { secs: 0, nanos: 0 }.to_rfc3339(),
        Some("1970-01-01T00:00:00+00:00".to_string())
    );
    assert_eq!(
        Timestamp { secs: 1_735_689_600, nanos: 0 }.to_rfc3339(),
        Some("2025-01-01T00:00:00+00:00".to_string())
    );
    assert_eq!(
        Timestamp { secs: 1_735_689_600, nanos: 250_000_000 }.to_rfc3339(),
        Some("2025-01-01T00:00:00.250+00:00".to_string())
    );
    assert_eq!(
        Timestamp { secs: -1, nanos: 1 }.to_rfc3339(),
        Some("1969-12-31T23:59:59.000000001+00:00".to_string())
    );
}

#[test]
fn instants_that_cannot_be_written_give_nothing() {
    assert_eq!(Timestamp { secs: i64::MAX, nanos: 0 }.to_rfc3339(), None);
    assert_eq!(Timestamp { secs: 0, nanos: 2_000_000_000 }.to_rfc3339(), None);
}

#[test]
fn instants_are_read_from_rfc3339() {
    assert_eq!(
        Timestamp::parse("2025-01-01T00:00:00+00:00"),
        Some(Timestamp { secs: 1_735_689_600, nanos: 0 })
    );
    assert_eq!(Timestamp::parse("2025-01-01T00:00:00Z"), Some(Timestamp { secs: 1_735_689_600, nanos: 0 }));
    assert_eq!(
        Timestamp::parse("2025-01-01T02:00:00.5+02:00"),
        Some(Timestamp { secs: 1_735_689_600, nanos: 500_000_000 })
    );
    assert_eq!(Timestamp::parse("2012-12-12 12:12:12Z"), Some(Timestamp { secs: 1_355_314_332, nanos: 0 }));
}

#[test]
fn other_texts_are_no_instants() {
    assert_eq!(Timestamp::parse(""), None);
    assert_eq!(Timestamp::parse("2025-01-01"), None);
    assert_eq!(Timestamp::parse("next week"), None);
    assert_eq!(Timestamp::parse("2025-13-01T00:00:00Z"), None);
    assert_eq!(Timestamp::parse("1735689600"), None);
}

#[test]
fn written_instants_are_read_back() {
    for instant in [
        Timestamp { secs: 0, nanos: 0 },
        Timestamp { secs: 1_735_689_600, nanos: 999_999_999 },
        Timestamp { secs: -86_400, nanos: 1 },
        Timestamp { secs: 253_402_300_799, nanos: 0 },
    ] {
        let text = instant.to_rfc3339().unwrap();
        assert_eq!(Timestamp::parse(&text), Some(instant));
    }
}

#[test]
fn the_clock_reads_a_time_of_this_century() {
    let now = Timestamp::now();
    assert!(now.is_after(Timestamp { secs: 1_735_689_600, nanos: 0 }));
    assert!(Timestamp { secs: 4_102_444_800, nanos: 0 }.is_after(now));
    assert!(now.nanos < 1_000_000_000);
}

#[test]
fn instants_are_ordered_as_chrono_orders_them() {
    let samples = [
        Timestamp { secs: -86_401, nanos: 0 },
        Timestamp { secs: -1, nanos: 999_999_999 },
        Timestamp { secs: 0, nanos: 0 },
        Timestamp { secs: 0, nanos: 1 },
        Timestamp { secs: 59, nanos: 999_999_999 },
        Timestamp { secs: 59, nanos: 1_000_000_000 },
        Timestamp { secs: 59, nanos: 1_999_999_999 },
        Timestamp { secs: 60, nanos: 0 },
        Timestamp { secs: 1_735_689_600, nanos: 0 },
        Timestamp { secs: 1_735_689_600, nanos: 500 },
        Timestamp { secs: 1_735_689_601, nanos: 0 },
    ];
    for a in samples {
        for b in samples {
            let left = chrono::DateTime::from_timestamp(a.secs, a.nanos).unwrap();
            let right = chrono::DateTime::from_timestamp(b.secs, b.nanos).unwrap();
            assert_eq!(a.is_after(b), left > right, "{:?} {:?}", a, b);
            assert_eq!(
                Timestamp { secs: left.timestamp(), nanos: left.timestamp_subsec_nanos() },
                a
            );
        }
    }
}

#[test]
fn plus_days_agrees_with_chrono() {
    let start = chrono::DateTime::from_timestamp(1_735_689_600, 123_456_789).unwrap();
    for days in [1i64, 10, 30, 365, 3650, 100_000] {
        let later = start + chrono::Duration::days(days);
        assert_eq!(
            Timestamp { secs: 1_735_689_600, nanos: 123_456_789 }.plus_days(days),
            Some(Timestamp { secs: later.timestamp(), nanos: later.timestamp_subsec_nanos() })
        );
    }
}
