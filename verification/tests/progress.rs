use countdown::duration::Duration;
use countdown::progress::percent;
use countdown::progress::Countdown;
use countdown::progress::Frame;
use countdown::progress::Phase;
use countdown::progress::TickError;
use countdown::timestamp::Timestamp;

#[test]
fn countdown_needs_a_target_not_before_the_start() {
    let a = Timestamp::new(100, 0).unwrap();
    let b = Timestamp::new(100, 1).unwrap();
    assert!(Countdown::new(a, b).is_some());
    assert!(Countdown::new(a, a).is_some());
    assert!(Countdown::new(b, a).is_none());
}

#[test]
fn countdown_starts_waiting_with_all_its_time() {
    let start = Timestamp::new(1_000, 250_000_000).unwrap();
    let target = Timestamp::new(4_662, 0).unwrap();
    let countdown = Countdown::new(start, target).unwrap();
    assert_eq!(countdown.total(), Duration::new(3_661, 750_000_000).unwrap());
    assert_eq!(countdown.begin(), Phase::Waiting(Duration::new(3_661, 750_000_000).unwrap()));
}

#[test]
fn countdown_waits_until_the_target_is_behind() {
    let start = Timestamp::new(1_000, 0).unwrap();
    let target = Timestamp::new(1_060, 0).unwrap();
    let countdown = Countdown::new(start, target).unwrap();
    assert_eq!(
        countdown.after_sleep(&Timestamp::new(1_001, 0).unwrap()),
        Phase::Waiting(Duration::seconds(59))
    );
    assert_eq!(
        countdown.after_sleep(&Timestamp::new(1_059, 400_000_000).unwrap()),
        Phase::Waiting(Duration::new(0, 600_000_000).unwrap())
    );
    assert_eq!(countdown.after_sleep(&target), Phase::Waiting(Duration::seconds(0)));
    assert_eq!(countdown.after_sleep(&Timestamp::new(1_060, 1).unwrap()), Phase::Done);
    assert_eq!(countdown.after_sleep(&Timestamp::new(2_000, 0).unwrap()), Phase::Done);
}

#[test]
fn percent_is_rounded_towards_zero() {
    let total = Duration::seconds(3);
    assert_eq!(percent(&Duration::seconds(0), &total), 0);
    assert_eq!(percent(&Duration::seconds(1), &total), 33);
    assert_eq!(percent(&Duration::seconds(2), &total), 66);
    assert_eq!(percent(&Duration::seconds(3), &total), 100);
    assert_eq!(percent(&Duration::seconds(30), &Duration::seconds(120)), 25);
    assert_eq!(percent(&Duration::new(29, 999_999_999).unwrap(), &Duration::seconds(120)), 24);
    assert_eq!(percent(&Duration::seconds(30), &Duration::new(120, 999_999_999).unwrap()), 25);
}

#[test]
fn percent_is_kept_to_16_bits() {
    let total = Duration::seconds(1);
    assert_eq!(percent(&Duration::seconds(2), &total), 200);
    assert_eq!(percent(&Duration::seconds(655), &total), 65_500);
    assert_eq!(percent(&Duration::seconds(656), &total), 64);
    assert_eq!(percent(&Duration::seconds(-1), &Duration::seconds(100)), 65_535);
    assert_eq!(percent(&Duration::seconds(-1), &Duration::seconds(101)), 0);
    assert_eq!(percent(&Duration::seconds(-2), &Duration::seconds(3)), 65_470);
    let samples = [(-5i64, 7i64), (123_456, 7), (-123_456, 11), (9_000_000_000_000_000, 1)];
    for (elapsed, whole) in samples {
        assert_eq!(
            percent(&Duration::seconds(elapsed), &Duration::seconds(whole)),
            (elapsed * 100 / whole) as u16
        );
    }
}

#[test]
fn tick_measures_the_line() {
    let start = Timestamp::new(100, 0).unwrap();
    let target = Timestamp::new(220, 0).unwrap();
    let countdown = Countdown::new(start, target).unwrap();
    let now = Timestamp::new(130, 500).unwrap();
    let frame = countdown.tick(&Duration::seconds(90), &now, Some(40)).unwrap();
    assert_eq!(frame.percent, 25);
    assert_eq!(frame.remaining, "1m 30s");
    // 40 - 6 - "25".len() - "1m 30s".len()
    assert_eq!(frame.room, 26);
    assert!(!frame.last);
}

#[test]
fn tick_marks_the_last_line() {
    let start = Timestamp::new(100, 0).unwrap();
    let target = Timestamp::new(220, 0).unwrap();
    let countdown = Countdown::new(start, target).unwrap();
    let now = Timestamp::new(220, 0).unwrap();
    let frame = countdown.tick(&Duration::new(0, 300_000_000).unwrap(), &now, Some(20)).unwrap();
    assert!(frame.last);
    assert_eq!(frame.percent, 100);
    assert_eq!(frame.remaining, "");
    assert_eq!(frame.room, 11);
    let frame = countdown.tick(&Duration::seconds(1), &now, Some(20)).unwrap();
    assert!(!frame.last);
    assert_eq!(frame.remaining, "1s");
    assert_eq!(frame.room, 9);
}

#[test]
fn tick_errors() {
    let start = Timestamp::new(100, 0).unwrap();
    let target = Timestamp::new(220, 0).unwrap();
    let countdown = Countdown::new(start, target).unwrap();
    let now = Timestamp::new(130, 0).unwrap();
    let left = Duration::seconds(90);
    assert_eq!(countdown.tick(&left, &now, None).unwrap_err(), TickError::NoTerminalSize);
    // "[>] 25% 1m 30s" takes 14 characters.
    assert_eq!(countdown.tick(&left, &now, Some(13)).unwrap_err(), TickError::TooNarrow);
    assert_eq!(countdown.tick(&left, &now, Some(0)).unwrap_err(), TickError::TooNarrow);
    assert_eq!(countdown.tick(&left, &now, Some(14)).unwrap().room, 0);
    assert_eq!(countdown.tick(&left, &now, Some(u16::MAX)).unwrap().room, 65_521);

    let short = Countdown::new(start, Timestamp::new(100, 999_999_999).unwrap()).unwrap();
    assert_eq!(short.tick(&left, &now, Some(80)).unwrap_err(), TickError::NoWholeSecond);
    // The width is asked for first.
    assert_eq!(short.tick(&left, &now, None).unwrap_err(), TickError::NoTerminalSize);
    // The percentage is taken before the line is measured.
    assert_eq!(short.tick(&left, &now, Some(0)).unwrap_err(), TickError::NoWholeSecond);
}

#[test]
fn line_is_drawn_over_the_whole_width() {
    let start = Timestamp::new(100, 0).unwrap();
    let target = Timestamp::new(220, 0).unwrap();
    let countdown = Countdown::new(start, target).unwrap();
    let now = Timestamp::new(130, 0).unwrap();
    let frame = countdown.tick(&Duration::seconds(90), &now, Some(24)).unwrap();
    assert_eq!(frame.room, 10);
    assert_eq!(frame.line(0).unwrap(), "[>          ] 25% 1m 30s\r");
    assert_eq!(frame.line(3).unwrap(), "[===>       ] 25% 1m 30s\r");
    assert_eq!(frame.line(10).unwrap(), "[==========>] 25% 1m 30s\r");
    assert_eq!(frame.line(11), None);
    for filled in 0..=10 {
        assert_eq!(frame.line(filled).unwrap().chars().count(), 24 + 1);
    }
}

#[test]
fn last_line_ends_in_a_line_feed() {
    let frame = Frame { room: 4, percent: 100, remaining: String::new(), last: true };
    assert_eq!(frame.line(4).unwrap(), "[====>] 100% \n");
    let frame = Frame { room: 4, percent: 99, remaining: String::from("1s"), last: false };
    assert_eq!(frame.line(3).unwrap(), "[===> ] 99% 1s\r");
    let frame = Frame { room: 0, percent: 0, remaining: String::from("2d"), last: false };
    assert_eq!(frame.line(0).unwrap(), "[>] 0% 2d\r");
    assert_eq!(frame.line(1), None);
}

#[test]
fn whole_countdown_of_three_seconds() {
    let start = Timestamp::new(1_000, 0).unwrap();
    let target = Timestamp::new(1_003, 0).unwrap();
    let countdown = Countdown::new(start, target).unwrap();
    let mut phase = countdown.begin();
    let mut clock = 1_000;
    let mut lines: Vec<String> = Vec::new();
    while let Phase::Waiting(left) = phase {
        let now = Timestamp::new(clock, 0).unwrap();
        let frame = countdown.tick(&left, &now, Some(20)).unwrap();
        let filled = frame.room * (clock - 1_000) as usize / 3;
        let line = frame.line(filled).unwrap();
        assert_eq!(line.chars().count(), 20 + 1);
        lines.push(line);
        clock += 1;
        phase = countdown.after_sleep(&Timestamp::new(clock, 0).unwrap());
    }
    assert_eq!(
        lines,
        vec![
            "[>           ] 0% 3s\r",
            "[===>       ] 33% 2s\r",
            "[======>    ] 66% 1s\r",
            "[===========>] 100% \n",
        ]
    );
}
