//! Timers and stopwatches of `bevy_time`, with the contracts that the rest of the
//! crate relies on. Nothing in this file is proved: each contract states what
//! `bevy_time` does.

use bevy_time::{Stopwatch, Timer, TimerMode};
use std::time::Duration;
use vstd::prelude::*;

verus! {

#[verifier::external_type_specification]
#[verifier::external_body]
pub struct ExTimer(bevy_time::Timer);

#[verifier::external_type_specification]
#[verifier::external_body]
pub struct ExStopwatch(bevy_time::Stopwatch);

/// What a `Timer` reports through its getters, with times in nanoseconds.
pub struct TimerState {
    /// `Timer::elapsed`
    pub elapsed: nat,
    /// `Timer::duration`
    pub duration: nat,
    /// `Timer::mode` is `TimerMode::Repeating`
    pub repeating: bool,
    /// `Timer::is_paused`
    pub paused: bool,
    /// `Timer::is_finished`
    pub finished: bool,
    /// `Timer::times_finished_this_tick`
    pub times_finished: nat,
}

/// What a `Stopwatch` reports through its getters, with time in nanoseconds.
pub struct StopwatchState {
    /// `Stopwatch::elapsed`
    pub elapsed: nat,
    /// `Stopwatch::is_paused`
    pub paused: bool,
}

/// The state of a timer, as its getters report it.
pub uninterp spec fn timer_state(t: Timer) -> TimerState;

/// The state of a stopwatch, as its getters report it.
pub uninterp spec fn stopwatch_state(s: Stopwatch) -> StopwatchState;

/// The length of a duration in nanoseconds, as `Duration::as_nanos` reports it.
pub uninterp spec fn duration_nanos(d: Duration) -> nat;

/// `Duration::MAX` in nanoseconds: `u64::MAX` seconds and 999,999,999 nanoseconds.
pub open spec fn max_duration_nanos() -> nat {
    18_446_744_073_709_551_615_999_999_999
}

/// Adding two durations without overflow, as `Duration::saturating_add` does.
pub open spec fn saturating_nanos(a: nat, b: nat) -> nat {
    if a + b <= max_duration_nanos() {
        a + b
    } else {
        max_duration_nanos()
    }
}

/// The state of a timer after `Timer::tick` with a step of `delta` nanoseconds.
///
/// A paused timer does not advance, and a one-shot timer that has finished stays
/// as it is; both stop reporting `just_finished`. Otherwise the elapsed time
/// grows by `delta`. A one-shot timer that reaches its duration stops there. A
/// repeating timer wraps around, counts the completed rounds in 32 bits, and
/// keeps the remainder in 64 bits.
pub open spec fn timer_after_tick(s: TimerState, delta: nat) -> TimerState {
    let reached = saturating_nanos(s.elapsed, delta);
    if s.paused {
        TimerState { times_finished: 0, finished: s.finished && !s.repeating, ..s }
    } else if !s.repeating && s.finished {
        TimerState { times_finished: 0, ..s }
    } else if reached < s.duration {
        TimerState { elapsed: reached, finished: false, times_finished: 0, ..s }
    } else if !s.repeating {
        TimerState { elapsed: s.duration, finished: true, times_finished: 1, ..s }
    } else if s.duration == 0 {
        TimerState { elapsed: 0, finished: true, times_finished: 0xFFFF_FFFF, ..s }
    } else {
        TimerState {
            elapsed: (reached % s.duration) % 0x1_0000_0000_0000_0000,
            finished: true,
            times_finished: (reached / s.duration) % 0x1_0000_0000,
            ..s
        }
    }
}

/// The state of a timer after `Timer::reset`: the elapsed time and both finished
/// marks are cleared; duration, mode and pause stay.
pub open spec fn timer_after_reset(s: TimerState) -> TimerState {
    TimerState { elapsed: 0, finished: false, times_finished: 0, ..s }
}

/// The state of a stopwatch after `Stopwatch::tick` with a step of `delta`
/// nanoseconds: a running stopwatch advances by `delta`, a paused one does not.
pub open spec fn stopwatch_after_tick(s: StopwatchState, delta: nat) -> StopwatchState {
    if s.paused {
        s
    } else {
        StopwatchState { elapsed: saturating_nanos(s.elapsed, delta), ..s }
    }
}

/// `Duration::clone` copies the duration, which is `Copy`.
pub assume_specification[ <Duration as Clone>::clone ](duration: &Duration) -> (r: Duration)
    ensures
        r == *duration,
;

/// Calls `Timer::new` with `TimerMode::Once`, which gives a running one-shot timer
/// at zero, with the duration given.
#[verifier::external_body]
pub(crate) fn timer_once(duration: Duration) -> (r: Timer)
    ensures
        timer_state(r) == (TimerState {
            elapsed: 0,
            duration: duration_nanos(duration),
            repeating: false,
            paused: false,
            finished: false,
            times_finished: 0,
        }),
{
    Timer::new(duration, TimerMode::Once)
}

/// Calls `Timer::tick`. The new state is `timer_after_tick` of the old one.
#[verifier::external_body]
pub(crate) fn timer_tick(timer: &mut Timer, delta: Duration)
    ensures
        timer_state(*final(timer)) == timer_after_tick(
            timer_state(*old(timer)),
            duration_nanos(delta),
        ),
{
    timer.tick(delta);
}

/// Calls `Timer::is_finished`, which reads the timer's `finished` flag.
#[verifier::external_body]
pub(crate) fn timer_is_finished(timer: &Timer) -> (r: bool)
    ensures
        r == timer_state(*timer).finished,
{
    timer.is_finished()
}

/// Calls `Timer::just_finished`, which tells whether the last tick completed the
/// timer at least once.
#[verifier::external_body]
pub(crate) fn timer_just_finished(timer: &Timer) -> (r: bool)
    ensures
        r == (timer_state(*timer).times_finished > 0),
{
    timer.just_finished()
}

/// Calls `Timer::set_duration`, which replaces the duration and nothing else.
#[verifier::external_body]
pub(crate) fn timer_set_duration(timer: &mut Timer, duration: Duration)
    ensures
        timer_state(*final(timer)) == (TimerState {
            duration: duration_nanos(duration),
            ..timer_state(*old(timer))
        }),
{
    timer.set_duration(duration);
}

/// Calls `Timer::reset`. The new state is `timer_after_reset` of the old one.
#[verifier::external_body]
pub(crate) fn timer_reset(timer: &mut Timer)
    ensures
        timer_state(*final(timer)) == timer_after_reset(timer_state(*old(timer))),
{
    timer.reset();
}

/// Calls `Timer::pause`, which sets the pause flag and nothing else.
#[verifier::external_body]
pub(crate) fn timer_pause(timer: &mut Timer)
    ensures
        timer_state(*final(timer)) == (TimerState { paused: true, ..timer_state(*old(timer)) }),
{
    timer.pause();
}

/// Calls `Timer::unpause`, which clears the pause flag and nothing else.
#[verifier::external_body]
pub(crate) fn timer_unpause(timer: &mut Timer)
    ensures
        timer_state(*final(timer)) == (TimerState { paused: false, ..timer_state(*old(timer)) }),
{
    timer.unpause();
}

/// Calls `Timer::is_paused`, which reads the pause flag.
#[verifier::external_body]
pub(crate) fn timer_is_paused(timer: &Timer) -> (r: bool)
    ensures
        r == timer_state(*timer).paused,
{
    timer.is_paused()
}

/// `Timer::clone` is derived: the copy has the state of the timer it was made from.
pub assume_specification[ <Timer as Clone>::clone ](timer: &Timer) -> (r: Timer)
    ensures
        timer_state(r) == timer_state(*timer),
;

/// Calls `Stopwatch::new`, which gives a running stopwatch at zero.
#[verifier::external_body]
pub(crate) fn stopwatch_new() -> (r: Stopwatch)
    ensures
        stopwatch_state(r) == (StopwatchState { elapsed: 0, paused: false }),
{
    Stopwatch::new()
}

/// Calls `Stopwatch::tick`. The new state is `stopwatch_after_tick` of the old one.
#[verifier::external_body]
pub(crate) fn stopwatch_tick(stopwatch: &mut Stopwatch, delta: Duration)
    ensures
        stopwatch_state(*final(stopwatch)) == stopwatch_after_tick(
            stopwatch_state(*old(stopwatch)),
            duration_nanos(delta),
        ),
{
    stopwatch.tick(delta);
}

/// `Stopwatch::clone` is derived: the copy has the state of the stopwatch it was made
/// from.
pub assume_specification[ <Stopwatch as Clone>::clone ](stopwatch: &Stopwatch) -> (r: Stopwatch)
    ensures
        stopwatch_state(r) == stopwatch_state(*stopwatch),
;

} // verus!
