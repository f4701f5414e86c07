//! Countdown/repeating timers on integer microseconds, with the semantics
//! of Bevy's `Timer::tick` (unpaused): a one-shot timer stops at its
//! duration and stays finished until reset; a repeating timer wraps around
//! and reports how many times it completed during the last tick.
use vstd::prelude::*;

verus! {

/// Whether a timer stops at its duration or wraps around and keeps going.
#[derive(Clone, Copy, PartialEq, Eq, Structural, Debug)]
pub enum TimerMode {
    /// Stops at the duration and stays finished until reset.
    Once,
    /// Wraps around on every completion.
    Repeating,
}

/// Plain snapshot of a timer: what the contracts speak of.
#[derive(Clone, Copy, PartialEq, Eq, Structural, Debug)]
pub struct TimerState {
    pub duration: u64,
    pub elapsed: u64,
    pub mode: TimerMode,
    pub finished: bool,
    pub times_finished_this_tick: u32,
}

/// `a + b`, saturating at `u64::MAX`.
pub open spec fn saturating_add_spec(a: u64, b: u64) -> u64 {
    if a + b > u64::MAX {
        u64::MAX
    } else {
        (a + b) as u64
    }
}

/// A fresh timer: nothing elapsed, not finished.
pub open spec fn new_timer_spec(duration: u64, mode: TimerMode) -> TimerState {
    TimerState { duration, elapsed: 0, mode, finished: false, times_finished_this_tick: 0 }
}

/// The state after advancing a timer by `delta` microseconds.
pub open spec fn tick_spec(s: TimerState, delta: u64) -> TimerState {
    if s.mode != TimerMode::Repeating && s.finished {
        TimerState { times_finished_this_tick: 0, ..s }
    } else {
        let total = saturating_add_spec(s.elapsed, delta);
        if total >= s.duration {
            if s.mode == TimerMode::Repeating {
                if s.duration == 0 {
                    TimerState {
                        elapsed: 0,
                        finished: true,
                        times_finished_this_tick: u32::MAX,
                        ..s
                    }
                } else {
                    TimerState {
                        elapsed: (total % s.duration) as u64,
                        finished: true,
                        times_finished_this_tick: ((total / s.duration) as u64) as u32,
                        ..s
                    }
                }
            } else {
                TimerState {
                    elapsed: s.duration,
                    finished: true,
                    times_finished_this_tick: 1,
                    ..s
                }
            }
        } else {
            TimerState { elapsed: total, finished: false, times_finished_this_tick: 0, ..s }
        }
    }
}

/// The state after a reset: nothing elapsed, not finished, same duration and mode.
pub open spec fn reset_spec(s: TimerState) -> TimerState {
    TimerState { elapsed: 0, finished: false, times_finished_this_tick: 0, ..s }
}

/// Tracks elapsed time and enters the finished state once the duration is reached.
#[derive(Debug)]
pub struct Timer {
    state: TimerState,
}

impl View for Timer {
    type V = TimerState;

    closed spec fn view(&self) -> TimerState {
        self.state
    }
}

impl Clone for Timer {
    fn clone(&self) -> (r: Timer)
        ensures
            r@ == self@,
    {
        Timer { state: self.state }
    }
}

impl Timer {
    /// A timer of `duration` microseconds with nothing elapsed.
    pub fn new(duration: u64, mode: TimerMode) -> (r: Timer)
        ensures
            r@ == new_timer_spec(duration, mode),
    {
        Timer { state: TimerState { duration, elapsed: 0, mode, finished: false, times_finished_this_tick: 0 } }
    }

    /// A one-shot timer that has already run out.
    pub fn expired(duration: u64) -> (r: Timer)
        ensures
            r@ == tick_spec(new_timer_spec(duration, TimerMode::Once), duration),
            r@.finished,
            r@.elapsed == duration,
    {
        let mut t = Timer::new(duration, TimerMode::Once);
        t.tick(duration);
        t
    }

    /// Advance the timer by `delta` microseconds.
    pub fn tick(&mut self, delta: u64)
        ensures
            final(self)@ == tick_spec(old(self)@, delta),
    {
        let s = self.state;
        if s.mode != TimerMode::Repeating && s.finished {
            self.state = TimerState { times_finished_this_tick: 0, ..s };
            return;
        }
        let total = s.elapsed.saturating_add(delta);
        if total >= s.duration {
            if s.mode == TimerMode::Repeating {
                if s.duration == 0 {
                    self.state = TimerState {
                        elapsed: 0,
                        finished: true,
                        times_finished_this_tick: u32::MAX,
                        ..s
                    };
                } else {
                    let times: u64 = total / s.duration;
                    self.state = TimerState {
                        elapsed: total % s.duration,
                        finished: true,
                        times_finished_this_tick: #[verifier::truncate] (times as u32),
                        ..s
                    };
                }
            } else {
                self.state = TimerState {
                    elapsed: s.duration,
                    finished: true,
                    times_finished_this_tick: 1,
                    ..s
                };
            }
        } else {
            self.state = TimerState {
                elapsed: total,
                finished: false,
                times_finished_this_tick: 0,
                ..s
            };
        }
    }

    /// Restart from zero, clearing the finished state.
    pub fn reset(&mut self)
        ensures
            final(self)@ == reset_spec(old(self)@),
    {
        let s = self.state;
        self.state = TimerState { elapsed: 0, finished: false, times_finished_this_tick: 0, ..s };
    }

    /// Whether the timer has reached its duration (for a repeating timer:
    /// during the last tick).
    pub fn finished(&self) -> (r: bool)
        ensures
            r == self@.finished,
    {
        self.state.finished
    }

    /// Whether the timer reached its duration during the last tick.
    pub fn just_finished(&self) -> (r: bool)
        ensures
            r == (self@.times_finished_this_tick > 0),
    {
        self.state.times_finished_this_tick > 0
    }

    /// How many times the timer completed during the last tick.
    pub fn times_finished_this_tick(&self) -> (r: u32)
        ensures
            r == self@.times_finished_this_tick,
    {
        self.state.times_finished_this_tick
    }

    /// Time elapsed since the start or last wrap, in microseconds.
    pub fn elapsed(&self) -> (r: u64)
        ensures
            r == self@.elapsed,
    {
        self.state.elapsed
    }

    /// The timer's duration, in microseconds.
    pub fn duration(&self) -> (r: u64)
        ensures
            r == self@.duration,
    {
        self.state.duration
    }

    /// The timer's mode.
    pub fn mode(&self) -> (r: TimerMode)
        ensures
            r == self@.mode,
    {
        self.state.mode
    }

    /// A snapshot of the timer's state.
    pub fn state(&self) -> (r: TimerState)
        ensures
            r == self@,
    {
        self.state
    }
}

/// A one-shot timer never runs past its duration: ticking keeps `elapsed`
/// at or below the duration.
pub proof fn lemma_once_stays_within_duration(s: TimerState, delta: u64)
    requires
        s.mode == TimerMode::Once,
        s.elapsed <= s.duration,
    ensures
        tick_spec(s, delta).elapsed <= s.duration,
        tick_spec(s, delta).duration == s.duration,
{
}

/// A finished one-shot timer stays finished, with nothing newly completed,
/// until it is reset.
pub proof fn lemma_once_finished_is_sticky(s: TimerState, delta: u64)
    requires
        s.mode == TimerMode::Once,
        s.finished,
    ensures
        tick_spec(s, delta).finished,
        tick_spec(s, delta).times_finished_this_tick == 0,
        tick_spec(s, delta).elapsed == s.elapsed,
{
}

/// A repeating timer with a positive duration always wraps back below it.
pub proof fn lemma_repeating_wraps(s: TimerState, delta: u64)
    requires
        s.mode == TimerMode::Repeating,
        s.duration > 0,
    ensures
        tick_spec(s, delta).elapsed < s.duration,
        tick_spec(s, delta).mode == TimerMode::Repeating,
        tick_spec(s, delta).duration == s.duration,
{
}

/// A one-shot timer finishes exactly when the elapsed time reaches its
/// duration, and reports that completion once.
pub proof fn lemma_once_finishes_at_duration(s: TimerState, delta: u64)
    requires
        s.mode == TimerMode::Once,
        !s.finished,
    ensures
        tick_spec(s, delta).finished <==> s.elapsed + delta >= s.duration,
        tick_spec(s, delta).finished ==> tick_spec(s, delta).times_finished_this_tick == 1,
{
}

/// Whatever the mode, a completion during the tick leaves the timer finished.
pub proof fn lemma_just_finished_implies_finished(s: TimerState, delta: u64)
    ensures
        tick_spec(s, delta).times_finished_this_tick > 0 ==> tick_spec(s, delta).finished,
{
}

/// A running one-shot timer that has not reached its duration simply
/// accumulates the tick; one that reaches it stops exactly at its duration.
pub proof fn lemma_once_accumulates(s: TimerState, delta: u64)
    requires
        s.mode == TimerMode::Once,
        !s.finished,
    ensures
        s.elapsed + delta < s.duration ==> tick_spec(s, delta).elapsed == s.elapsed + delta,
        s.elapsed + delta >= s.duration ==> tick_spec(s, delta).elapsed == s.duration,
        tick_spec(s, delta).mode == s.mode,
        tick_spec(s, delta).duration == s.duration,
{
}

/// A repeating timer counts every lap: the laps completed during a tick,
/// times the duration, plus what is left over, is exactly the time that
/// had elapsed plus the tick (when nothing saturates).
pub proof fn lemma_repeating_counts_every_lap(s: TimerState, delta: u64)
    requires
        s.mode == TimerMode::Repeating,
        s.duration > 0,
        s.elapsed + delta <= u64::MAX,
        (s.elapsed + delta) / (s.duration as int) <= u32::MAX,
    ensures
        tick_spec(s, delta).times_finished_this_tick * s.duration + tick_spec(s, delta).elapsed
            == s.elapsed + delta,
        tick_spec(s, delta).elapsed < s.duration,
        tick_spec(s, delta).finished == (s.elapsed + delta >= s.duration),
{
    let total = s.elapsed + delta;
    let d = s.duration as int;
    assert(total == (total / d) * d + total % d) by (nonlinear_arith)
        requires
            d > 0,
    ;
    assert(total / d >= 0) by (nonlinear_arith)
        requires
            d > 0,
            total >= 0,
    ;
    assert(total < d ==> total / d == 0 && total % d == total) by (nonlinear_arith)
        requires
            d > 0,
            total >= 0,
    ;
    if total >= d {
        assert(((total / d) as u64) as u32 == total / d);
    }
}

/// A reset restarts the timer from zero, unfinished, keeping its duration
/// and mode.
pub proof fn lemma_reset_restarts(s: TimerState)
    ensures
        reset_spec(s).elapsed == 0,
        !reset_spec(s).finished,
        reset_spec(s).times_finished_this_tick == 0,
        reset_spec(s).duration == s.duration,
        reset_spec(s).mode == s.mode,
{
}

} // verus!
