use away::clock::{sample_clock, ClockSample, DeadlineClock, RunMode};
use away::timefmt::{parse_clock_12h, parse_duration_hms};

#[test]
fn clock_sample_stays_inside_a_day() {
    let c = sample_clock();
    assert!(c.local_secs < 86400);
    assert!(c.utc_ms <= 9_000_000_000_000_000);
}

#[test]
fn duration_deadline_is_start_plus_duration() {
    let dur = parse_duration_hms("0:00:05").unwrap();
    assert_eq!(
        DeadlineClock::for_duration(1000, &dur),
        DeadlineClock::AtUtcMs(6000)
    );
}

#[test]
fn until_time_deadline_is_the_target_second() {
    let t = parse_clock_12h("5:30:pm").unwrap();
    assert_eq!(
        DeadlineClock::until_time(&t),
        DeadlineClock::AtLocalSecond(17 * 3600 + 30 * 60)
    );
}

#[test]
fn starting_a_mode_matches_its_deadline_kind() {
    let t = parse_clock_12h("10:00:am").unwrap();
    assert_eq!(
        DeadlineClock::start(&RunMode::UntilTime(t)),
        DeadlineClock::AtLocalSecond(36000)
    );
    assert_eq!(
        DeadlineClock::start(&RunMode::Indefinite),
        DeadlineClock::Indefinite
    );
    let dur = parse_duration_hms("0:00:01").unwrap();
    assert!(matches!(
        DeadlineClock::start(&RunMode::ForDuration(dur)),
        DeadlineClock::AtUtcMs(_)
    ));
}

#[test]
fn expiry_and_remaining_follow_the_clock() {
    let d = DeadlineClock::AtUtcMs(5000);
    let before = ClockSample {
        utc_ms: 1500,
        local_secs: 0,
    };
    assert!(!d.is_expired(&before));
    assert_eq!(d.remaining_secs(&before), 3);
    let at = ClockSample {
        utc_ms: 5000,
        local_secs: 0,
    };
    assert!(d.is_expired(&at));

    let target = DeadlineClock::AtLocalSecond(100);
    let early = ClockSample {
        utc_ms: 0,
        local_secs: 40,
    };
    assert!(!target.is_expired(&early));
    assert_eq!(target.remaining_secs(&early), 60);
}
