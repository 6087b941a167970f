//! The checkpoint countdown, kept by the engine's own `Timer`.

use bevy::time::{Timer, TimerMode};
use std::time::Duration;
use vstd::prelude::*;

verus! {

/// The engine's timer, carried as an opaque value.
#[verifier::external_type_specification]
#[verifier::external_body]
pub struct ExTimer(Timer);

/// What a `Timer` holds, as far as the countdown reads it.
pub struct TimerState {
    /// Time counted so far, in nanoseconds.
    pub elapsed_nanos: nat,
    /// The budget the timer was made with, in nanoseconds.
    pub duration_nanos: nat,
    /// Whether the timer has reached its budget.
    pub finished: bool,
    /// Whether ticking is suspended.
    pub paused: bool,
    /// Whether the timer starts over when it reaches its budget.
    pub repeating: bool,
}

/// The state held inside a `Timer`.
pub uninterp spec fn timer_state(t: Timer) -> TimerState;

/// The longest time a `Duration` can hold, in nanoseconds.
pub open spec fn duration_max_nanos() -> nat {
    (u64::MAX as nat) * 1_000_000_000 + 999_999_999
}

/// Calls `Timer::new` with a duration of `total_ms` milliseconds and
/// `TimerMode::Once`. The new timer has counted nothing, is neither finished
/// nor paused, and keeps the duration it was given.
#[verifier::external_body]
fn timer_once(total_ms: u64) -> (t: Timer)
    ensures
        timer_state(t) == (TimerState {
            elapsed_nanos: 0,
            duration_nanos: total_ms as nat * 1_000_000,
            finished: false,
            paused: false,
            repeating: false,
        }),
{
    Timer::new(Duration::from_millis(total_ms), TimerMode::Once)
}

/// What `Timer::tick` leaves in a timer that does not repeat, after `delta`
/// nanoseconds: a paused or finished timer is left as it is; otherwise the
/// elapsed time grows by `delta`, stops at the duration, and the timer is
/// finished once the duration is reached.
pub open spec fn ticked(s: TimerState, delta: nat) -> TimerState {
    if s.paused || s.finished {
        s
    } else if s.elapsed_nanos + delta >= s.duration_nanos {
        TimerState { elapsed_nanos: s.duration_nanos, finished: true, ..s }
    } else {
        TimerState { elapsed_nanos: s.elapsed_nanos + delta, ..s }
    }
}

/// Calls `Timer::tick` with `dt_ms` milliseconds. The timer must not repeat,
/// and the sum of elapsed time and step must fit in a `Duration`, since the
/// engine adds the two without a check.
#[verifier::external_body]
fn timer_tick(t: &mut Timer, dt_ms: u64)
    requires
        !timer_state(*old(t)).repeating,
        timer_state(*old(t)).elapsed_nanos + dt_ms as nat * 1_000_000 <= duration_max_nanos(),
    ensures
        timer_state(*final(t)) == ticked(timer_state(*old(t)), dt_ms as nat * 1_000_000),
{
    t.tick(Duration::from_millis(dt_ms));
}

/// `Timer::reset` sets the elapsed time to zero and clears the finished
/// flag; duration, mode and pause are kept.
pub assume_specification[ Timer::reset ](t: &mut Timer)
    ensures
        timer_state(*final(t)) == (TimerState {
            elapsed_nanos: 0,
            finished: false,
            ..timer_state(*old(t))
        }),
;

/// `Timer::finished` reads the finished flag.
pub assume_specification[ Timer::finished ](t: &Timer) -> (b: bool)
    ensures
        b == timer_state(*t).finished,
;

/// Reads `Timer::elapsed` in whole milliseconds, rounded down.
#[verifier::external_body]
fn timer_elapsed_ms(t: &Timer) -> (ms: u64)
    requires
        timer_state(*t).elapsed_nanos / 1_000_000 <= u64::MAX,
    ensures
        ms == timer_state(*t).elapsed_nanos / 1_000_000,
{
    t.elapsed().as_millis() as u64
}

/// The countdown's budget, in milliseconds.
pub const CHECK_POINT_TIME: u64 = 20_000;

/// A countdown with a fixed budget of `CHECK_POINT_TIME` milliseconds.
pub struct Countdown {
    timer: Timer,
}

impl Countdown {
    /// Every countdown runs once over the fixed budget, is never paused,
    /// counts in whole milliseconds, and is finished exactly when the whole
    /// budget has elapsed.
    pub closed spec fn wf(&self) -> bool {
        let s = timer_state(self.timer);
        &&& !s.paused
        &&& !s.repeating
        &&& s.duration_nanos == CHECK_POINT_TIME as nat * 1_000_000
        &&& s.elapsed_nanos <= s.duration_nanos
        &&& s.elapsed_nanos % 1_000_000 == 0
        &&& s.finished == (s.elapsed_nanos >= s.duration_nanos)
    }

    /// Milliseconds counted since the countdown was made or last reset.
    pub closed spec fn elapsed_ms(&self) -> nat {
        timer_state(self.timer).elapsed_nanos / 1_000_000
    }

    /// A well-formed countdown has not counted past its budget.
    pub proof fn lemma_elapsed_within_budget(&self)
        requires
            self.wf(),
        ensures
            self.elapsed_ms() <= CHECK_POINT_TIME,
    {
    }

    /// A full countdown.
    pub fn new() -> (c: Countdown)
        ensures
            c.wf(),
            c.elapsed_ms() == 0,
    {
        Countdown { timer: timer_once(CHECK_POINT_TIME) }
    }

    /// Counts `dt_ms` more milliseconds, stopping at the budget.
    pub fn tick(&mut self, dt_ms: u32)
        requires
            old(self).wf(),
        ensures
            final(self).wf(),
            final(self).elapsed_ms() == if old(self).elapsed_ms() + dt_ms >= CHECK_POINT_TIME {
                CHECK_POINT_TIME as nat
            } else {
                old(self).elapsed_ms() + dt_ms as nat
            },
    {
        timer_tick(&mut self.timer, dt_ms as u64);
    }

    /// Restores the full budget.
    pub fn reset(&mut self)
        requires
            old(self).wf(),
        ensures
            final(self).wf(),
            final(self).elapsed_ms() == 0,
    {
        self.timer.reset();
    }

    /// Milliseconds counted so far.
    pub fn elapsed(&self) -> (ms: u64)
        requires
            self.wf(),
        ensures
            ms == self.elapsed_ms(),
            ms <= CHECK_POINT_TIME,
    {
        timer_elapsed_ms(&self.timer)
    }

    /// Milliseconds left before the countdown expires.
    pub fn remaining(&self) -> (ms: u64)
        requires
            self.wf(),
        ensures
            ms == CHECK_POINT_TIME - self.elapsed_ms(),
    {
        CHECK_POINT_TIME - self.elapsed()
    }

    /// Whether the whole budget has elapsed.
    pub fn expired(&self) -> (b: bool)
        requires
            self.wf(),
        ensures
            b == (self.elapsed_ms() >= CHECK_POINT_TIME),
    {
        self.timer.finished()
    }
}

} // verus!
