//! The run of the program: a check at once if that was asked for, and then
//! one at each time that the schedule names.
//!
//! The run is told what happened and says what to do next. Whoever drives it
//! reads the schedule and the clock, carries out the checks and does the
//! waiting.

use crate::options::Options;
use vstd::prelude::*;

verus! {

/// A point in time: the whole seconds since the beginning of 1970, and the
/// nanoseconds that have passed since the last of them.
#[derive(Debug, Clone, Copy, PartialEq, Eq, Structural)]
pub struct Instant {
    pub secs: i64,
    pub nanos: u32,
}

/// A span of time to wait for.
#[derive(Debug, Clone, Copy, PartialEq, Eq, Structural)]
pub struct Pause {
    pub secs: u64,
    pub nanos: u32,
}

/// What a run is told.
#[derive(Debug, Clone, Copy, PartialEq, Eq, Structural)]
pub enum RunEvent {
    /// The program has started.
    Started,
    /// The check that the run asked for is over, with or without an answer.
    Checked(bool),
    /// The schedule names `at` as the time of the next check, and the clock
    /// shows `now`.
    Tick { at: Instant, now: Instant },
    /// The wait that the run asked for is over.
    Woke,
}

/// What a run asks for.
#[derive(Debug, Clone, Copy, PartialEq, Eq, Structural)]
pub enum RunAction {
    /// Carry out a check and say how it ended.
    Check,
    /// Ask the schedule for the time of the next check, read the clock, and
    /// hand back both.
    NextTick,
    /// Wait for the given span and say so.
    Sleep(Pause),
}

/// The nanoseconds in a second.
pub const NANOS_PER_SEC: u32 = 1_000_000_000;

/// A point in time as the nanoseconds since the beginning of 1970.
pub open spec fn nanos_of(instant: Instant) -> int {
    instant.secs * NANOS_PER_SEC + instant.nanos
}

/// The wait from `now` until `at`: none if `at` is not after `now`, and
/// otherwise the time between the two. The seconds of a wait stop at the
/// largest number that they can hold.
pub open spec fn pause_model(at: Instant, now: Instant) -> Option<Pause> {
    let span = nanos_of(at) - nanos_of(now);
    if span <= 0 {
        None
    } else {
        let secs = span / (NANOS_PER_SEC as int);
        Some(
            Pause {
                secs: if secs <= u64::MAX {
                    secs as u64
                } else {
                    u64::MAX
                },
                nanos: (span % (NANOS_PER_SEC as int)) as u32,
            },
        )
    }
}

/// What a run does on being told `event`. At its start it carries out a
/// check at once if `now` is set, and asks for the schedule if it is not.
/// After a check it asks for the schedule. For a time that the schedule
/// names it waits if that time is still to come, and carries out the check
/// at once if it is not. After a wait it carries out the check.
pub open spec fn run_model(now: bool, event: RunEvent) -> RunAction {
    match event {
        RunEvent::Started => if now {
            RunAction::Check
        } else {
            RunAction::NextTick
        },
        RunEvent::Checked(_) => RunAction::NextTick,
        RunEvent::Tick { at, now } => match pause_model(at, now) {
            Some(pause) => RunAction::Sleep(pause),
            None => RunAction::Check,
        },
        RunEvent::Woke => RunAction::Check,
    }
}

/// The wait from `now` until `at`, if `at` is still to come. A wait ends
/// exactly at `at`, unless its seconds are more than a wait can hold.
pub fn pause_until(at: Instant, now: Instant) -> (pause: Option<Pause>)
    ensures
        pause == pause_model(at, now),
        pause is None <==> nanos_of(at) <= nanos_of(now),
        pause is Some ==> pause->Some_0.nanos < NANOS_PER_SEC,
        pause is Some && pause->Some_0.secs < u64::MAX ==> nanos_of(now) + pause->Some_0.secs
            * NANOS_PER_SEC + pause->Some_0.nanos == nanos_of(at),
{
    let unit: i128 = 1_000_000_000;
    let until: i128 = (at.secs as i128) * unit + (at.nanos as i128);
    let since: i128 = (now.secs as i128) * unit + (now.nanos as i128);
    let span: i128 = until - since;
    if span <= 0 {
        None
    } else {
        let whole: i128 = span / unit;
        let part: i128 = span % unit;
        let secs: u64 = if whole <= u64::MAX as i128 {
            whole as u64
        } else {
            u64::MAX
        };
        Some(Pause { secs, nanos: part as u32 })
    }
}

/// Takes the run one step further: told what happened, it says what is to
/// be done next. With the setting for a check at once, the first thing a
/// run asks for is a check, before it asks for the schedule.
pub fn run(options: &Options, event: RunEvent) -> (action: RunAction)
    ensures
        action == run_model(options@.now, event),
        event == RunEvent::Started && options@.now ==> action == RunAction::Check,
        event == RunEvent::Started && !options@.now ==> action == RunAction::NextTick,
{
    match event {
        RunEvent::Started => if options.now() {
            RunAction::Check
        } else {
            RunAction::NextTick
        },
        RunEvent::Checked(_) => RunAction::NextTick,
        RunEvent::Tick { at, now } => match pause_until(at, now) {
            Some(pause) => RunAction::Sleep(pause),
            None => RunAction::Check,
        },
        RunEvent::Woke => RunAction::Check,
    }
}

} // verus!
