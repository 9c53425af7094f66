use away::app::{App, TickAction};
use away::clock::{ClockSample, DeadlineClock};
use away::config::Config;
use away::suppress::TickEvent;
use away::timefmt::parse_duration_hms;

fn at(utc_ms: u64) -> ClockSample {
    ClockSample {
        utc_ms,
        local_secs: 0,
    }
}

fn local(local_secs: u32) -> ClockSample {
    ClockSample {
        utc_ms: 0,
        local_secs,
    }
}

#[test]
fn indefinite_run_injects_every_tick() {
    let config = Config {
        user_input_wait_time_ms: 60000,
        key_press_time_ms: 100,
    };
    let mut app = App::new(config);
    let deadline = DeadlineClock::Indefinite;
    let none: Vec<TickEvent> = Vec::new();
    for _ in 0..8 {
        let outcome = app.tick(&deadline, &at(0), &none);
        assert_eq!(outcome.action, TickAction::Inject { hold_ms: 100 });
        assert!(outcome.timer.is_none());
        assert!(outcome.emit.is_some());
    }
}

#[test]
fn indefinite_run_rotates_the_indicator() {
    let mut app = App::new(Config::default());
    let deadline = DeadlineClock::Indefinite;
    let none: Vec<TickEvent> = Vec::new();
    let first = app.tick(&deadline, &at(0), &none).emit.unwrap();
    assert_eq!(first, "\rStaying Awake: / ");
    let second = app.tick(&deadline, &at(0), &none).emit.unwrap();
    assert_eq!(second, "\rStaying Awake: - ");
    let third = app.tick(&deadline, &at(0), &none).emit.unwrap();
    assert_eq!(third, "\rStaying Awake: \\ ");
    let fourth = app.tick(&deadline, &at(0), &none).emit.unwrap();
    assert_eq!(fourth, "\rStaying Awake: | ");
    let fifth = app.tick(&deadline, &at(0), &none).emit.unwrap();
    assert_eq!(fifth, "\rStaying Awake: / ");
}

#[test]
fn five_second_run_counts_down_and_stops() {
    let dur = parse_duration_hms("0:00:05").unwrap();
    let deadline = DeadlineClock::for_duration(0, &dur);
    let mut app = App::new(Config::default());
    let none: Vec<TickEvent> = Vec::new();

    let start = app.tick(&deadline, &at(0), &none);
    assert_eq!(start.action, TickAction::Inject { hold_ms: 100 });
    assert_eq!(start.emit.unwrap(), "\r0:00:05");

    let last = app.tick(&deadline, &at(4950), &none);
    assert_eq!(last.action, TickAction::Inject { hold_ms: 100 });
    assert_eq!(last.emit.unwrap(), "\r0:00:00");

    let done = app.tick(&deadline, &at(5000), &none);
    assert_eq!(done.action, TickAction::Stop);
    assert!(done.emit.is_none());
}

#[test]
fn until_time_stops_when_local_clock_passes_target() {
    let deadline = DeadlineClock::AtLocalSecond(63000);
    let mut app = App::new(Config::default());
    let none: Vec<TickEvent> = Vec::new();
    let before = app.tick(&deadline, &local(62999), &none);
    assert_eq!(before.action, TickAction::Inject { hold_ms: 100 });
    assert_eq!(before.emit.unwrap(), "\r0:00:01");
    let at_target = app.tick(&deadline, &local(63000), &none);
    assert_eq!(at_target.action, TickAction::Stop);
    let past = app.tick(&deadline, &local(70000), &none);
    assert_eq!(past.action, TickAction::Stop);
}

#[test]
fn activity_suppresses_and_arms_a_timer() {
    let mut app = App::new(Config::default());
    let deadline = DeadlineClock::Indefinite;
    let events = vec![TickEvent::Activity];
    let outcome = app.tick(&deadline, &at(0), &events);
    assert_eq!(outcome.action, TickAction::Idle { idle_ms: 100 });
    let timer = outcome.timer.unwrap();
    assert_eq!(timer.generation, 1);
    assert_eq!(timer.wait_ms, 60000);
    assert_eq!(outcome.emit.unwrap(), "\rUser Activity Detected");
}

#[test]
fn stale_timer_does_not_resume_injection() {
    let mut app = App::new(Config::default());
    let deadline = DeadlineClock::Indefinite;
    let none: Vec<TickEvent> = Vec::new();

    let first = app.tick(&deadline, &at(0), &vec![TickEvent::Activity]);
    let first_timer = first.timer.unwrap();
    let second = app.tick(&deadline, &at(0), &vec![TickEvent::Activity]);
    let second_timer = second.timer.unwrap();

    let stale = app.tick(&deadline, &at(0), &vec![TickEvent::QuietElapsed(first_timer.generation)]);
    assert_eq!(stale.action, TickAction::Idle { idle_ms: 100 });

    let fresh = app.tick(
        &deadline,
        &at(0),
        &vec![TickEvent::QuietElapsed(second_timer.generation)],
    );
    assert!(matches!(fresh.action, TickAction::Inject { .. }));

    let steady = app.tick(&deadline, &at(0), &none);
    assert!(matches!(steady.action, TickAction::Inject { .. }));
}

#[test]
fn deadline_expiry_is_checked_even_while_suppressed() {
    let dur = parse_duration_hms("0:01:00").unwrap();
    let deadline = DeadlineClock::for_duration(0, &dur);
    let mut app = App::new(Config::default());
    let none: Vec<TickEvent> = Vec::new();

    let early = app.tick(&deadline, &at(10_000), &vec![TickEvent::Activity]);
    assert_eq!(early.action, TickAction::Idle { idle_ms: 100 });

    let still_suppressed = app.tick(&deadline, &at(30_000), &none);
    assert_eq!(still_suppressed.action, TickAction::Idle { idle_ms: 100 });
    assert!(still_suppressed.emit.is_none());

    let at_deadline = app.tick(&deadline, &at(60_000), &none);
    assert_eq!(at_deadline.action, TickAction::Stop);
}

#[test]
fn quiet_window_resumes_injection_before_a_later_deadline() {
    let dur = parse_duration_hms("0:02:00").unwrap();
    let deadline = DeadlineClock::for_duration(0, &dur);
    let mut app = App::new(Config::default());

    let opened = app.tick(&deadline, &at(10_000), &vec![TickEvent::Activity]);
    let timer = opened.timer.unwrap();
    assert_eq!(timer.wait_ms, 60000);

    let resumed = app.tick(&deadline, &at(70_000), &vec![TickEvent::QuietElapsed(timer.generation)]);
    assert_eq!(resumed.action, TickAction::Inject { hold_ms: 100 });
    assert_eq!(
        resumed.emit.unwrap(),
        "\r                      \r0:00:50"
    );
}
