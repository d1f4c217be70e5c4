use countdown::duration::Duration;
use countdown::timestamp::Timestamp;

#[test]
fn whole_units_round_towards_zero() {
    let span = Duration::seconds(3662);
    assert_eq!(span.num_seconds(), 3662);
    assert_eq!(span.num_minutes(), 61);
    assert_eq!(span.num_hours(), 1);
    assert_eq!(span.num_days(), 0);

    let back = Duration::seconds(-3662);
    assert_eq!(back.num_seconds(), -3662);
    assert_eq!(back.num_minutes(), -61);
    assert_eq!(back.num_hours(), -1);
    assert_eq!(back.num_days(), 0);
}

#[test]
fn whole_seconds_of_a_fraction() {
    let forward = Duration::new(1, 500_000_000).unwrap();
    assert_eq!(forward.num_seconds(), 1);
    assert_eq!(forward.floor_seconds(), 1);
    assert_eq!(forward.subsec_nanos(), 500_000_000);

    // One and a half seconds backwards: -2 s + 0.5 s.
    let backward = Duration::new(-2, 500_000_000).unwrap();
    assert_eq!(backward.num_seconds(), -1);
    assert_eq!(backward.floor_seconds(), -2);
    assert!(!backward.is_non_negative());

    let half_back = Duration::new(-1, 500_000_000).unwrap();
    assert_eq!(half_back.num_seconds(), 0);
    assert!(!half_back.is_non_negative());
}

#[test]
fn duration_agrees_with_chrono() {
    let samples = [
        (0i64, 0u32),
        (1, 0),
        (59, 999_999_999),
        (3662, 1),
        (86_400, 0),
        (-1, 0),
        (-1, 1),
        (-1, 999_999_999),
        (-3662, 500_000_000),
        (9_223_372_036_854_775, 0),
        (-9_223_372_036_854_775, 0),
    ];
    for (secs, nanos) in samples {
        let ours = Duration::new(secs, nanos).unwrap();
        let theirs = chrono::TimeDelta::new(secs, nanos).unwrap();
        assert_eq!(ours.num_seconds(), theirs.num_seconds());
        assert_eq!(ours.num_minutes(), theirs.num_minutes());
        assert_eq!(ours.num_hours(), theirs.num_hours());
        assert_eq!(ours.num_days(), theirs.num_days());
        assert_eq!(ours.is_non_negative(), theirs >= chrono::TimeDelta::seconds(0));
    }
}

#[test]
fn duration_bounds() {
    assert!(Duration::new(9_223_372_036_854_775, 999_999_999).is_some());
    assert!(Duration::new(9_223_372_036_854_776, 0).is_none());
    assert!(Duration::new(-9_223_372_036_854_775, 0).is_some());
    assert!(Duration::new(-9_223_372_036_854_776, 0).is_none());
    assert!(Duration::new(0, 1_000_000_000).is_none());
}

#[test]
fn named_spans() {
    assert_eq!(Duration::hours(1), Duration::seconds(3_600));
    assert_eq!(Duration::days(1), Duration::seconds(86_400));
    assert_eq!(Duration::days(-2), Duration::seconds(-172_800));
    assert_eq!(Duration::seconds(5), Duration::new(5, 0).unwrap());
}

#[test]
fn timestamp_bounds() {
    let limit = 1i64 << 50;
    assert!(Timestamp::new(limit, 999_999_999).is_some());
    assert!(Timestamp::new(limit + 1, 0).is_none());
    assert!(Timestamp::new(-limit, 0).is_some());
    assert!(Timestamp::new(-limit - 1, 0).is_none());
    assert!(Timestamp::new(0, 1_000_000_000).is_none());
}

#[test]
fn timestamp_parts() {
    let t = Timestamp::new(1_700_000_000, 123_456_789).unwrap();
    assert_eq!(t.seconds(), 1_700_000_000);
    assert_eq!(t.subsec_nanos(), 123_456_789);
    let before_epoch = Timestamp::new(-5, 250_000_000).unwrap();
    assert_eq!(before_epoch.seconds(), -5);
    assert_eq!(before_epoch.subsec_nanos(), 250_000_000);
}

#[test]
fn timestamp_order() {
    let a = Timestamp::new(10, 5).unwrap();
    let b = Timestamp::new(10, 6).unwrap();
    let c = Timestamp::new(11, 0).unwrap();
    assert!(b.is_after(&a));
    assert!(c.is_after(&b));
    assert!(c.is_after(&a));
    assert!(!a.is_after(&b));
    assert!(!a.is_after(&a));
    assert!(!b.is_after(&c));
}

#[test]
fn span_between_timestamps() {
    let a = Timestamp::new(100, 200_000_000).unwrap();
    let b = Timestamp::new(103, 100_000_000).unwrap();
    assert_eq!(b.since(&a), Duration::new(2, 900_000_000).unwrap());
    assert_eq!(a.since(&b), Duration::new(-3, 100_000_000).unwrap());
    assert_eq!(a.since(&a), Duration::seconds(0));
    assert_eq!(b.since(&a).num_seconds(), 2);
    assert_eq!(a.since(&b).num_seconds(), -2);
}

#[test]
fn span_between_timestamps_agrees_with_chrono() {
    let samples = [
        ((1_700_000_000i64, 0u32), (1_700_003_662i64, 0u32)),
        ((1_700_000_000, 999_999_999), (1_700_000_001, 0)),
        ((1_700_000_000, 1), (1_700_000_000, 0)),
        ((-10, 500_000_000), (10, 250_000_000)),
        ((0, 0), (0, 0)),
    ];
    for ((s1, n1), (s2, n2)) in samples {
        let ours = Timestamp::new(s2, n2).unwrap().since(&Timestamp::new(s1, n1).unwrap());
        let theirs = chrono::DateTime::from_timestamp(s2, n2).unwrap()
            - chrono::DateTime::from_timestamp(s1, n1).unwrap();
        assert_eq!(ours.floor_seconds() as i128 * 1_000_000_000 + ours.subsec_nanos() as i128,
            theirs.num_nanoseconds().unwrap() as i128);
        assert_eq!(ours.num_seconds(), theirs.num_seconds());
    }
}

#[test]
fn timestamp_moved_by_a_span() {
    let a = Timestamp::new(100, 900_000_000).unwrap();
    assert_eq!(a.plus(&Duration::days(1)), Timestamp::new(86_500, 900_000_000).unwrap());
    assert_eq!(
        a.plus(&Duration::new(0, 200_000_000).unwrap()),
        Timestamp::new(101, 100_000_000).unwrap()
    );
    assert_eq!(
        a.plus(&Duration::new(-1, 0).unwrap()),
        Timestamp::new(99, 900_000_000).unwrap()
    );
    assert_eq!(a.plus(&Duration::seconds(0)), a);
    let b = Timestamp::new(5_000, 1).unwrap();
    assert_eq!(a.plus(&b.since(&a)), b);
}
