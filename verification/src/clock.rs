//! Run modes, clock samples and the deadline.
//!
//! A run goes until a local time of day, for a fixed duration, or
//! indefinitely. The deadline is computed once at start and never
//! changes; each tick then compares it against a fresh clock sample.
//! For a duration run the comparison uses the absolute time in
//! milliseconds; for a time-of-day run it uses the local second of the
//! day, taken literally: a target that has already passed today counts
//! as expired rather than wrapping to the next day.

use vstd::prelude::*;
use chrono::Timelike;
use crate::timefmt::{ClockTime12, Hms};

verus! {

/// An absolute time, in milliseconds, never exceeds this: the calendar
/// the clock library can represent ends far below it.
pub const UTC_MS_BOUND: u64 = 9_000_000_000_000_000;

/// How the user asked the run to end, chosen once at start.
#[derive(Clone, Copy, PartialEq, Eq, Structural, Debug)]
pub enum RunMode {
    /// Run until the local clock first reaches this time of day.
    UntilTime(ClockTime12),
    /// Run for this long.
    ForDuration(Hms),
    /// Run until cancelled.
    Indefinite,
}

impl RunMode {
    pub open spec fn wf(&self) -> bool {
        match *self {
            RunMode::UntilTime(t) => t.wf(),
            RunMode::ForDuration(d) => d.wf(),
            RunMode::Indefinite => true,
        }
    }
}

/// One reading of the clocks, taken fresh each tick.
#[derive(Clone, Copy, PartialEq, Eq, Structural, Debug)]
pub struct ClockSample {
    /// Milliseconds of absolute (universal) time.
    pub utc_ms: u64,
    /// The local second of the day.
    pub local_secs: u32,
}

impl ClockSample {
    pub open spec fn wf(&self) -> bool {
        self.utc_ms <= UTC_MS_BOUND && self.local_secs < 86400
    }
}

/// Relies on chrono's `Local::now`, `DateTime::time` and
/// `NaiveTime::num_seconds_from_midnight` for the local second of the
/// day; a `NaiveTime` holds fewer than 86400 whole seconds (a leap
/// second lives in its fractional part). The call aborts rather than
/// returns if the system clock precedes the epoch or lies outside
/// chrono's calendar, or the timezone data cannot be read.
#[verifier::external_body]
fn local_seconds_of_day() -> (r: u32)
    ensures
        r < 86400,
{
    chrono::Local::now().time().num_seconds_from_midnight()
}

/// Relies on chrono's `Utc::now` and `DateTime::timestamp_millis` for
/// the absolute time; chrono's calendar spans fewer than 262144 years
/// either way from its epoch, so the count stays within nine
/// quadrillion milliseconds of it. The call aborts rather than returns
/// if the system clock precedes the epoch or lies outside that
/// calendar.
#[verifier::external_body]
fn utc_now_millis() -> (r: i64)
    ensures
        -9_000_000_000_000_000 <= r <= 9_000_000_000_000_000,
{
    chrono::Utc::now().timestamp_millis()
}

/// Reads both clocks for one tick. A pre-epoch absolute time reads as
/// the epoch itself.
pub fn sample_clock() -> (c: ClockSample)
    ensures
        c.wf(),
{
    let ms = utc_now_millis();
    let utc_ms: u64 = if ms < 0 {
        0
    } else {
        ms as u64
    };
    let local_secs = local_seconds_of_day();
    ClockSample { utc_ms, local_secs }
}

/// When the run ends: computed once at start, immutable thereafter.
#[derive(Clone, Copy, PartialEq, Eq, Structural, Debug)]
pub enum DeadlineClock {
    /// No deadline; the status line shows the rotating indicator.
    Indefinite,
    /// The run ends when the absolute time reaches this millisecond.
    AtUtcMs(u64),
    /// The run ends when the local clock reaches this second of the day.
    AtLocalSecond(u32),
}

impl DeadlineClock {
    pub open spec fn wf(&self) -> bool {
        match *self {
            DeadlineClock::Indefinite => true,
            DeadlineClock::AtUtcMs(d) => d <= UTC_MS_BOUND + 86_400_000,
            DeadlineClock::AtLocalSecond(t) => t < 86400,
        }
    }

    /// The deadline for a duration run that starts now.
    pub fn for_duration(now_ms: u64, dur: &Hms) -> (r: DeadlineClock)
        requires
            now_ms <= UTC_MS_BOUND,
            dur.wf(),
        ensures
            r == DeadlineClock::AtUtcMs((now_ms + dur.spec_total_seconds() * 1000) as u64),
            r.wf(),
    {
        let dur_ms: u64 = (dur.total_seconds() as u64) * 1000;
        DeadlineClock::AtUtcMs(now_ms + dur_ms)
    }

    /// The deadline for a run until a time of day.
    pub fn until_time(t: &ClockTime12) -> (r: DeadlineClock)
        requires
            t.wf(),
        ensures
            r == DeadlineClock::AtLocalSecond(t.spec_target_seconds() as u32),
            r.wf(),
    {
        DeadlineClock::AtLocalSecond(t.target_seconds())
    }

    /// The deadline a run mode asks for, with the duration clock read
    /// now. A duration deadline never changes once computed here.
    pub fn start(mode: &RunMode) -> (r: DeadlineClock)
        requires
            mode.wf(),
        ensures
            r.wf(),
            mode matches RunMode::UntilTime(t) ==> r == DeadlineClock::AtLocalSecond(
                t.spec_target_seconds() as u32,
            ),
            mode matches RunMode::ForDuration(d) ==> (r matches DeadlineClock::AtUtcMs(ms) && ms
                >= d.spec_total_seconds() * 1000),
            mode is Indefinite ==> r == DeadlineClock::Indefinite,
    {
        match mode {
            RunMode::UntilTime(t) => DeadlineClock::until_time(t),
            RunMode::ForDuration(d) => {
                let now = sample_clock();
                DeadlineClock::for_duration(now.utc_ms, d)
            },
            RunMode::Indefinite => DeadlineClock::Indefinite,
        }
    }

    /// Whether the run is over at this clock sample. Suppression plays
    /// no part: expiry is its own check, made every tick.
    pub open spec fn spec_expired(&self, c: ClockSample) -> bool {
        match *self {
            DeadlineClock::Indefinite => false,
            DeadlineClock::AtUtcMs(d) => c.utc_ms >= d,
            DeadlineClock::AtLocalSecond(t) => c.local_secs >= t,
        }
    }

    pub fn is_expired(&self, c: &ClockSample) -> (r: bool)
        ensures
            r == self.spec_expired(*c),
    {
        match *self {
            DeadlineClock::Indefinite => false,
            DeadlineClock::AtUtcMs(d) => c.utc_ms >= d,
            DeadlineClock::AtLocalSecond(t) => c.local_secs >= t,
        }
    }

    /// How many whole seconds remain at this clock sample.
    pub open spec fn spec_remaining_secs(&self, c: ClockSample) -> int {
        match *self {
            DeadlineClock::Indefinite => 0,
            DeadlineClock::AtUtcMs(d) => (d - c.utc_ms) / 1000,
            DeadlineClock::AtLocalSecond(t) => t - c.local_secs,
        }
    }

    pub fn remaining_secs(&self, c: &ClockSample) -> (r: u64)
        requires
            !self.spec_expired(*c),
        ensures
            r == self.spec_remaining_secs(*c),
    {
        match *self {
            DeadlineClock::Indefinite => 0,
            DeadlineClock::AtUtcMs(d) => (d - c.utc_ms) / 1000,
            DeadlineClock::AtLocalSecond(t) => ((t - c.local_secs) as u64),
        }
    }
}

/// A duration run stops exactly when the absolute clock reaches the
/// deadline computed at start — no earlier tick stops it and no later
/// tick keeps it alive, whatever the suppression state, since expiry
/// reads nothing but the clock.
pub proof fn lemma_duration_stops_at_deadline(d: u64, c: ClockSample)
    ensures
        DeadlineClock::AtUtcMs(d).spec_expired(c) == (c.utc_ms >= d),
{
}

/// A run until a time of day stops exactly when the local clock first
/// reaches or passes the target second.
pub proof fn lemma_until_time_stops(t: u32, c: ClockSample)
    ensures
        DeadlineClock::AtLocalSecond(t).spec_expired(c) == (c.local_secs >= t),
{
}

/// On the last tick before a duration deadline — less than a second
/// left — the countdown renders as the zero value: the final text a
/// duration run shows.
pub proof fn lemma_duration_final_render(d: u64, c: ClockSample)
    requires
        c.utc_ms < d,
        d - c.utc_ms < 1000,
    ensures
        crate::timefmt::hms_chars(DeadlineClock::AtUtcMs(d).spec_remaining_secs(c) as nat)
            == "0:00:00"@,
{
    crate::timefmt::lemma_zero_render();
}

} // verus!
