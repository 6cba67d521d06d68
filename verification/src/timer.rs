//! Countdown timers that are advanced by the time each frame took.

use vstd::prelude::*;
use vstd::arithmetic::div_mod::lemma_mod_bound;
use crate::units::Ratio;

verus! {

/// What a timer does when it reaches its duration.
#[derive(Clone, Copy, Debug, PartialEq, Eq, Structural)]
pub enum TimerMode {
    /// The timer stops at its duration and stays finished.
    Once,
    /// The timer starts over, keeping the time by which it overshot.
    Repeating,
}

/// A timer counting nanoseconds up to a duration.
#[derive(Clone, Copy, Debug, PartialEq, Eq, Structural)]
pub struct Timer {
    /// Nanoseconds counted so far, within the current round for a repeating timer.
    pub elapsed: u64,
    /// Nanoseconds after which the timer finishes.
    pub duration: u64,
    pub mode: TimerMode,
    /// The timer reached its duration: for good if it runs once, during the last tick if it repeats.
    pub finished: bool,
    /// The timer reached its duration during the last tick.
    pub just_finished: bool,
}

impl Timer {
    /// The timer never counted past its duration, it finished if it has just
    /// finished, and a one-shot timer that finished stands at its duration.
    pub open spec fn wf(self) -> bool {
        &&& self.elapsed <= self.duration
        &&& self.just_finished ==> self.finished
        &&& self.mode == TimerMode::Once && self.finished ==> self.elapsed == self.duration
    }

    /// A timer of the given duration that has not counted anything yet.
    pub open spec fn fresh(duration: u64, mode: TimerMode) -> Timer {
        Timer { elapsed: 0, duration, mode, finished: false, just_finished: false }
    }

    /// The timer after a tick of `delta` nanoseconds.
    ///
    /// A finished one-shot timer no longer moves. Any other timer counts
    /// `delta` more; on reaching its duration a one-shot timer stops there,
    /// and a repeating timer keeps what is left after whole rounds.
    pub open spec fn ticked(self, delta: u64) -> Timer {
        if self.mode == TimerMode::Once && self.finished {
            Timer { just_finished: false, ..self }
        } else if self.elapsed + delta >= self.duration {
            Timer {
                elapsed: if self.mode == TimerMode::Once {
                    self.duration
                } else if self.duration == 0 {
                    0
                } else {
                    ((self.elapsed + delta) % (self.duration as int)) as u64
                },
                finished: true,
                just_finished: true,
                ..self
            }
        } else {
            Timer {
                elapsed: (self.elapsed + delta) as u64,
                finished: false,
                just_finished: false,
                ..self
            }
        }
    }

    /// The part of the duration that has elapsed; 1 for a timer of duration zero.
    pub open spec fn fraction(self) -> Ratio {
        if self.duration == 0 {
            Ratio { num: 1, den: 1 }
        } else {
            Ratio { num: self.elapsed, den: self.duration }
        }
    }

    /// Makes a timer of `duration` nanoseconds.
    pub fn new(duration: u64, mode: TimerMode) -> (t: Timer)
        ensures
            t == Timer::fresh(duration, mode),
            t.wf(),
    {
        Timer { elapsed: 0, duration, mode, finished: false, just_finished: false }
    }

    /// Advances the timer by `delta` nanoseconds.
    pub fn tick(&mut self, delta: u64)
        requires
            old(self).wf(),
        ensures
            *final(self) == old(self).ticked(delta),
            final(self).wf(),
    {
        if self.mode == TimerMode::Once && self.finished {
            self.just_finished = false;
        } else {
            proof {
                if self.duration > 0 {
                    lemma_mod_bound(self.elapsed + delta, self.duration as int);
                }
            }
            *self = tick_running(*self, delta);
            self.just_finished = self.finished;
        }
    }

    /// Whether the timer has reached its duration.
    pub fn finished(&self) -> (b: bool)
        ensures
            b == self.finished,
    {
        self.finished
    }

    /// Whether the timer reached its duration during the last tick.
    pub fn just_finished(&self) -> (b: bool)
        ensures
            b == self.just_finished,
    {
        self.just_finished
    }

    /// The part of the duration that has elapsed.
    pub fn percent(&self) -> (t: Ratio)
        requires
            self.wf(),
        ensures
            t == self.fraction(),
            t.wf(),
    {
        if self.duration == 0 {
            Ratio { num: 1, den: 1 }
        } else {
            Ratio { num: self.elapsed, den: self.duration }
        }
    }
}

/// Ticks a timer that still runs with `Timer::tick` of bevy: makes a
/// `bevy::time::Timer` of the same duration and mode with `Timer::new`, sets
/// what it has counted with `set_elapsed`, ticks it by `delta`, and reads
/// back `elapsed`, `finished` and `just_finished`. Claimed of bevy's tick, for
/// a timer that is not paused and is not a one-shot timer that has finished:
/// it counts `delta` more; on reaching its duration a one-shot timer stops
/// there and a repeating timer keeps what is left after whole rounds, none
/// if its duration is zero; and it has finished exactly if it reached its
/// duration in this tick. Of `just_finished` only this is claimed: it is not
/// set unless the timer finished. Bevy counts the rounds of a tick in 32
/// bits, so a repeating timer that completes a multiple of 2^32 rounds in
/// one tick finishes without saying that it just did.
#[verifier::external_body]
fn tick_running(timer: Timer, delta: u64) -> (next: Timer)
    requires
        timer.wf(),
        !(timer.mode == TimerMode::Once && timer.finished),
    ensures
        next.elapsed == timer.ticked(delta).elapsed,
        next.finished == timer.ticked(delta).finished,
        next.duration == timer.duration,
        next.mode == timer.mode,
        next.just_finished ==> next.finished,
{
    let mode = match timer.mode {
        TimerMode::Once => bevy::time::TimerMode::Once,
        TimerMode::Repeating => bevy::time::TimerMode::Repeating,
    };
    let mut outside = bevy::time::Timer::new(std::time::Duration::from_nanos(timer.duration), mode);
    outside.set_elapsed(std::time::Duration::from_nanos(timer.elapsed));
    outside.tick(std::time::Duration::from_nanos(delta));
    Timer {
        elapsed: outside.elapsed().as_nanos() as u64,
        finished: outside.finished(),
        just_finished: outside.just_finished(),
        ..timer
    }
}

} // verus!
