//! Countdown timers advanced by elapsed frame time.

use vstd::prelude::*;

verus! {

/// One second, in the microseconds that every span of time is counted in.
pub const MICROS_PER_SECOND: u32 = 1_000_000;

/// What a timer does once it has reached its duration.
#[derive(Clone, Copy, Debug, PartialEq, Eq, Structural)]
pub enum TimerMode {
    /// Stay finished until reset.
    Once,
    /// Start the next period at once, keeping the overshoot.
    Repeating,
}

/// A countdown over `duration` microseconds.
///
/// A one-shot timer stops at its duration and stays `finished`.  A repeating
/// timer wraps around and is `finished` only on the tick that completed a
/// period.  `just_finished` is set for exactly the tick on which the duration
/// was reached.
#[derive(Clone, Copy, Debug, PartialEq, Eq, Structural)]
pub struct Timer {
    pub duration: u32,
    pub elapsed: u32,
    pub mode: TimerMode,
    pub finished: bool,
    pub just_finished: bool,
}

impl Timer {
    /// The timer as it stands after `delta` more microseconds.
    pub open spec fn ticked(self, delta: u32) -> Timer {
        let total = self.elapsed + delta;
        match self.mode {
            TimerMode::Once => {
                if self.finished {
                    Timer { just_finished: false, ..self }
                } else if total >= self.duration {
                    Timer { elapsed: self.duration, finished: true, just_finished: true, ..self }
                } else {
                    Timer { elapsed: total as u32, finished: false, just_finished: false, ..self }
                }
            },
            TimerMode::Repeating => {
                if total < self.duration {
                    Timer { elapsed: total as u32, finished: false, just_finished: false, ..self }
                } else if self.duration == 0 {
                    Timer { elapsed: 0, finished: true, just_finished: true, ..self }
                } else {
                    Timer {
                        elapsed: (total % (self.duration as int)) as u32,
                        finished: true,
                        just_finished: true,
                        ..self
                    }
                }
            },
        }
    }

    /// The timer wound back to the start of its countdown.
    pub open spec fn restarted(self) -> Timer {
        Timer { elapsed: 0, finished: false, just_finished: false, ..self }
    }

    /// A fresh timer: nothing elapsed, not finished.
    pub open spec fn fresh(duration: u32, mode: TimerMode) -> Timer {
        Timer { duration, elapsed: 0, mode, finished: false, just_finished: false }
    }

    /// The elapsed time never passes the duration, and a one-shot timer that
    /// is finished rests exactly on it.
    pub open spec fn wf(self) -> bool {
        &&& self.elapsed <= self.duration
        &&& self.just_finished ==> self.finished
        &&& self.mode == TimerMode::Once && self.finished ==> self.elapsed == self.duration
        &&& self.mode == TimerMode::Repeating && self.duration > 0 ==> self.elapsed < self.duration
    }

    pub fn new(duration: u32, mode: TimerMode) -> (timer: Timer)
        ensures
            timer == Timer::fresh(duration, mode),
    {
        Timer { duration, elapsed: 0, mode, finished: false, just_finished: false }
    }

    /// Advances the timer by `delta` microseconds and says whether it
    /// reached its duration on this very tick.
    pub fn tick(&mut self, delta: u32) -> (fired: bool)
        ensures
            *final(self) == old(self).ticked(delta),
            fired == final(self).just_finished,
    {
        let total: u64 = self.elapsed as u64 + delta as u64;
        match self.mode {
            TimerMode::Once => {
                if self.finished {
                    self.just_finished = false;
                } else if total >= self.duration as u64 {
                    self.elapsed = self.duration;
                    self.finished = true;
                    self.just_finished = true;
                } else {
                    self.elapsed = total as u32;
                    self.finished = false;
                    self.just_finished = false;
                }
            },
            TimerMode::Repeating => {
                if total < self.duration as u64 {
                    self.elapsed = total as u32;
                    self.finished = false;
                    self.just_finished = false;
                } else if self.duration == 0 {
                    self.elapsed = 0;
                    self.finished = true;
                    self.just_finished = true;
                } else {
                    self.elapsed = (total % self.duration as u64) as u32;
                    self.finished = true;
                    self.just_finished = true;
                }
            },
        }
        self.just_finished
    }

    /// Winds the timer back to the start of its countdown.
    pub fn reset(&mut self)
        ensures
            *final(self) == old(self).restarted(),
    {
        self.elapsed = 0;
        self.finished = false;
        self.just_finished = false;
    }

    pub fn finished(&self) -> (done: bool)
        ensures
            done == self.finished,
    {
        self.finished
    }

    pub fn just_finished(&self) -> (fired: bool)
        ensures
            fired == self.just_finished,
    {
        self.just_finished
    }

    /// A tick keeps the duration and the mode, and keeps a well-formed timer
    /// well-formed.
    pub proof fn lemma_tick_wf(self, delta: u32)
        ensures
            self.ticked(delta).duration == self.duration,
            self.ticked(delta).mode == self.mode,
            self.wf() ==> self.ticked(delta).wf(),
    {
    }
}

} // verus!
