use proxy_autologin::options::Options;
use proxy_autologin::schedule::{pause_until, run, Instant, Pause, RunAction, RunEvent, NANOS_PER_SEC};

fn options(now: bool) -> Options {
    Options::new(
        "alice".to_string(),
        "s3cret-pw".to_string(),
        now,
        "http://probe.example/ok.txt".to_string(),
        "0 0 6 * * mon-fri *".to_string(),
        300,
        3,
    )
}

fn at(secs: i64, nanos: u32) -> Instant {
    Instant { secs, nanos }
}

#[test]
fn nanoseconds_in_a_second() {
    assert_eq!(NANOS_PER_SEC, 1_000_000_000);
}

#[test]
fn pause_is_the_time_until_the_tick() {
    assert_eq!(pause_until(at(1_000, 0), at(400, 0)), Some(Pause { secs: 600, nanos: 0 }));
    assert_eq!(
        pause_until(at(1_000, 0), at(999, 250_000_000)),
        Some(Pause { secs: 0, nanos: 750_000_000 })
    );
    assert_eq!(
        pause_until(at(10, 100), at(5, 500_000_000)),
        Some(Pause { secs: 4, nanos: 500_000_100 })
    );
    assert_eq!(pause_until(at(-5, 3), at(-5, 1)), Some(Pause { secs: 0, nanos: 2 }));
    assert_eq!(pause_until(at(2, 0), at(-3, 0)), Some(Pause { secs: 5, nanos: 0 }));
}

#[test]
fn no_pause_for_a_tick_that_is_not_to_come() {
    assert_eq!(pause_until(at(1_000, 0), at(1_000, 0)), None);
    assert_eq!(pause_until(at(1_000, 0), at(1_000, 1)), None);
    assert_eq!(pause_until(at(999, 999_999_999), at(1_000, 0)), None);
    assert_eq!(pause_until(at(-10, 0), at(10, 0)), None);
    assert_eq!(pause_until(at(i64::MIN, 0), at(i64::MAX, u32::MAX)), None);
}

#[test]
fn pause_counts_nanoseconds_beyond_a_second() {
    assert_eq!(pause_until(at(5, 1_500_000_000), at(5, 0)), Some(Pause { secs: 1, nanos: 500_000_000 }));
    assert_eq!(pause_until(at(6, 0), at(5, 1_000_000_000)), None);
}

#[test]
fn pause_stops_at_the_most_seconds_it_can_hold() {
    assert_eq!(
        pause_until(at(i64::MAX, 0), at(i64::MIN, 0)),
        Some(Pause { secs: u64::MAX, nanos: 0 })
    );
    assert_eq!(
        pause_until(at(i64::MAX, 2_000_000_001), at(i64::MIN, 0)),
        Some(Pause { secs: u64::MAX, nanos: 1 })
    );
    assert_eq!(
        pause_until(at(i64::MAX, 0), at(i64::MIN + 1, 1)),
        Some(Pause { secs: u64::MAX - 2, nanos: 999_999_999 })
    );
}

#[test]
fn run_checks_at_once_when_asked_to() {
    assert_eq!(run(&options(true), RunEvent::Started), RunAction::Check);
    assert_eq!(run(&options(true), RunEvent::Checked(true)), RunAction::NextTick);
    assert_eq!(run(&options(true), RunEvent::Checked(false)), RunAction::NextTick);
}

#[test]
fn run_asks_the_schedule_first_otherwise() {
    assert_eq!(run(&options(false), RunEvent::Started), RunAction::NextTick);
}

#[test]
fn run_skips_the_wait_for_a_tick_that_has_passed() {
    let ticks = [at(1_000, 0), at(2_000, 0), at(3_000, 0)];
    let now = at(1_500, 0);
    let options = options(false);
    assert_eq!(run(&options, RunEvent::Tick { at: ticks[0], now }), RunAction::Check);
    assert_eq!(run(&options, RunEvent::Checked(true)), RunAction::NextTick);
    assert_eq!(
        run(&options, RunEvent::Tick { at: ticks[1], now }),
        RunAction::Sleep(Pause { secs: 500, nanos: 0 })
    );
    assert_eq!(run(&options, RunEvent::Woke), RunAction::Check);
    assert_eq!(run(&options, RunEvent::Checked(false)), RunAction::NextTick);
    assert_eq!(
        run(&options, RunEvent::Tick { at: ticks[2], now: at(2_000, 400_000_000) }),
        RunAction::Sleep(Pause { secs: 999, nanos: 600_000_000 })
    );
}

#[test]
fn run_waits_for_less_than_a_second_too() {
    assert_eq!(
        run(&options(false), RunEvent::Tick { at: at(10, 0), now: at(9, 999_999_999) }),
        RunAction::Sleep(Pause { secs: 0, nanos: 1 })
    );
    assert_eq!(run(&options(false), RunEvent::Tick { at: at(10, 0), now: at(10, 0) }), RunAction::Check);
}
