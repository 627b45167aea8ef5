//! The timer engine: a countdown (Pomodoro) or count-up (stopwatch) clock
//! that advances on externally delivered ticks carrying a timestamp.
//!
//! Durations and timestamps are whole nanoseconds held in `u64`.
use vstd::prelude::*;

verus! {

/// Nanoseconds in one second.
pub const NANOS_PER_SEC: u64 = 1_000_000_000;

/// Nanoseconds in one minute.
pub const NANOS_PER_MIN: u64 = 60 * NANOS_PER_SEC;

/// The step by which the Pomodoro length changes.
pub const TARGET_STEP: u64 = 5 * NANOS_PER_MIN;

/// The shortest Pomodoro length.
pub const TARGET_MIN: u64 = 5 * NANOS_PER_MIN;

/// The longest Pomodoro length.
pub const TARGET_MAX: u64 = 60 * NANOS_PER_MIN;

/// The Pomodoro length a fresh timer starts with.
pub const TARGET_DEFAULT: u64 = 25 * NANOS_PER_MIN;

#[derive(Clone, Copy, Debug, PartialEq, Eq, Structural)]
pub enum Mode {
    Pomodoro,
    Stopwatch,
}

#[derive(Clone, Copy, Debug, PartialEq, Eq, Structural)]
pub enum RunState {
    Idle,
    Running { last_tick: u64 },
}

/// The abstract state of a timer.
pub struct TimerModel {
    /// Remaining time (Pomodoro) or elapsed time (stopwatch).
    pub duration: nat,
    pub state: RunState,
    pub mode: Mode,
    /// The configured Pomodoro length.
    pub target: nat,
}

/// Time between two timestamps; a timestamp earlier than the last one
/// counts as no time at all.
pub open spec fn elapsed(last: u64, now: u64) -> nat {
    if now >= last {
        (now - last) as nat
    } else {
        0
    }
}

impl TimerModel {
    pub open spec fn wf(self) -> bool {
        &&& TARGET_MIN <= self.target <= TARGET_MAX
        &&& self.target % (TARGET_STEP as nat) == 0
        &&& self.duration <= u64::MAX
        &&& self.mode == Mode::Pomodoro ==> self.duration <= self.target
    }

    pub open spec fn is_running(self) -> bool {
        self.state is Running
    }

    /// The duration a mode starts from.
    pub open spec fn start_duration(self, mode: Mode) -> nat {
        match mode {
            Mode::Pomodoro => self.target,
            Mode::Stopwatch => 0,
        }
    }

    pub open spec fn initial() -> TimerModel {
        TimerModel {
            duration: TARGET_DEFAULT as nat,
            state: RunState::Idle,
            mode: Mode::Pomodoro,
            target: TARGET_DEFAULT as nat,
        }
    }

    pub open spec fn toggled_run(self, now: u64) -> TimerModel {
        match self.state {
            RunState::Idle => TimerModel { state: RunState::Running { last_tick: now }, ..self },
            RunState::Running { .. } => TimerModel { state: RunState::Idle, ..self },
        }
    }

    pub open spec fn toggled_mode(self) -> TimerModel {
        let mode = match self.mode {
            Mode::Pomodoro => Mode::Stopwatch,
            Mode::Stopwatch => Mode::Pomodoro,
        };
        TimerModel { duration: self.start_duration(mode), state: RunState::Idle, mode, ..self }
    }

    /// The state after a tick at `now`, and whether the tick ended a
    /// Pomodoro interval.
    pub open spec fn ticked(self, now: u64) -> (TimerModel, bool) {
        match self.state {
            RunState::Idle => (self, false),
            RunState::Running { last_tick } => {
                let e = elapsed(last_tick, now);
                let running = RunState::Running { last_tick: now };
                match self.mode {
                    Mode::Pomodoro => if self.duration > NANOS_PER_SEC {
                        let d = if self.duration >= e { (self.duration - e) as nat } else { 0 };
                        (TimerModel { duration: d, state: running, ..self }, false)
                    } else {
                        (TimerModel { duration: self.target, state: RunState::Idle, ..self }, true)
                    },
                    Mode::Stopwatch => {
                        let d = if self.duration + e <= u64::MAX {
                            self.duration + e
                        } else {
                            u64::MAX as nat
                        };
                        (TimerModel { duration: d, state: running, ..self }, false)
                    },
                }
            },
        }
    }

    pub open spec fn after_reset(self) -> TimerModel {
        TimerModel { duration: self.start_duration(self.mode), state: RunState::Idle, ..self }
    }

    /// The state after an early end of the interval, and whether it ended one.
    pub open spec fn terminated_early(self) -> (TimerModel, bool) {
        match self.mode {
            Mode::Pomodoro => (
                TimerModel { duration: self.target, state: RunState::Idle, ..self },
                true,
            ),
            Mode::Stopwatch => (self, false),
        }
    }

    /// Whether the Pomodoro length may be changed now.
    pub open spec fn target_adjustable(self) -> bool {
        self.state is Idle && self.mode == Mode::Pomodoro
    }

    pub open spec fn increased_target(self) -> TimerModel {
        if self.target_adjustable() && self.target < TARGET_MAX {
            let t = (self.target + TARGET_STEP) as nat;
            TimerModel { duration: t, target: t, ..self }
        } else {
            self
        }
    }

    pub open spec fn decreased_target(self) -> TimerModel {
        if self.target_adjustable() && self.target > TARGET_MIN {
            let t = (self.target - TARGET_STEP) as nat;
            TimerModel { duration: t, target: t, ..self }
        } else {
            self
        }
    }
}

/// Hours, minutes and seconds of a duration, as a clock face shows them.
pub open spec fn clock_face_of(duration: nat) -> (nat, nat, nat) {
    let secs = duration / (NANOS_PER_SEC as nat);
    (secs / 3600, (secs % 3600) / 60, secs % 60)
}

pub struct TimerEngine {
    duration: u64,
    state: RunState,
    mode: Mode,
    pomodoro_target: u64,
}

impl View for TimerEngine {
    type V = TimerModel;

    closed spec fn view(&self) -> TimerModel {
        TimerModel {
            duration: self.duration as nat,
            state: self.state,
            mode: self.mode,
            target: self.pomodoro_target as nat,
        }
    }
}

impl TimerEngine {
    pub open spec fn wf(&self) -> bool {
        self@.wf()
    }

    /// An idle Pomodoro timer at the default length.
    pub fn new() -> (r: TimerEngine)
        ensures
            r@ == TimerModel::initial(),
            r.wf(),
    {
        TimerEngine {
            duration: TARGET_DEFAULT,
            state: RunState::Idle,
            mode: Mode::Pomodoro,
            pomodoro_target: TARGET_DEFAULT,
        }
    }

    pub fn duration(&self) -> (r: u64)
        ensures
            r == self@.duration,
    {
        self.duration
    }

    pub fn pomodoro_target(&self) -> (r: u64)
        ensures
            r == self@.target,
    {
        self.pomodoro_target
    }

    pub fn mode(&self) -> (r: Mode)
        ensures
            r == self@.mode,
    {
        self.mode
    }

    pub fn state(&self) -> (r: RunState)
        ensures
            r == self@.state,
    {
        self.state
    }

    pub fn is_running(&self) -> (r: bool)
        ensures
            r == self@.is_running(),
    {
        match self.state {
            RunState::Idle => false,
            RunState::Running { .. } => true,
        }
    }

    /// Starts the timer at `now` when idle; pauses it when running.
    pub fn toggle_run(&mut self, now: u64)
        requires
            old(self).wf(),
        ensures
            final(self)@ == old(self)@.toggled_run(now),
            final(self).wf(),
    {
        self.state = match self.state {
            RunState::Idle => RunState::Running { last_tick: now },
            RunState::Running { .. } => RunState::Idle,
        };
    }

    /// Switches between Pomodoro and stopwatch; the timer stops and starts
    /// over from the new mode's starting duration.
    pub fn toggle_mode(&mut self)
        requires
            old(self).wf(),
        ensures
            final(self)@ == old(self)@.toggled_mode(),
            final(self).wf(),
            final(self)@.state == RunState::Idle,
            final(self)@.mode != old(self)@.mode,
            final(self)@.mode == Mode::Pomodoro ==> final(self)@.duration == old(self)@.target,
            final(self)@.mode == Mode::Stopwatch ==> final(self)@.duration == 0,
    {
        self.state = RunState::Idle;
        match self.mode {
            Mode::Pomodoro => {
                self.mode = Mode::Stopwatch;
                self.duration = 0;
            },
            Mode::Stopwatch => {
                self.mode = Mode::Pomodoro;
                self.duration = self.pomodoro_target;
            },
        }
    }

    /// Advances a running timer by the time since its last tick. A Pomodoro
    /// with more than one second left counts down, stopping at zero; with one
    /// second or less it stops, is rewound, and the call returns `true`. A
    /// stopwatch counts up, stopping at the largest `u64`.
    pub fn tick(&mut self, now: u64) -> (timed_out: bool)
        requires
            old(self).wf(),
        ensures
            (final(self)@, timed_out) == old(self)@.ticked(now),
            final(self).wf(),
    {
        match self.state {
            RunState::Idle => false,
            RunState::Running { last_tick } => {
                let e: u64 = if now >= last_tick { now - last_tick } else { 0 };
                match self.mode {
                    Mode::Pomodoro => {
                        if self.duration > NANOS_PER_SEC {
                            self.duration = if self.duration >= e { self.duration - e } else { 0 };
                            self.state = RunState::Running { last_tick: now };
                            false
                        } else {
                            self.duration = self.pomodoro_target;
                            self.state = RunState::Idle;
                            true
                        }
                    },
                    Mode::Stopwatch => {
                        self.duration = self.duration.saturating_add(e);
                        self.state = RunState::Running { last_tick: now };
                        false
                    },
                }
            },
        }
    }

    /// Stops the timer and rewinds it to its mode's starting duration.
    pub fn reset(&mut self)
        requires
            old(self).wf(),
        ensures
            final(self)@ == old(self)@.after_reset(),
            final(self).wf(),
    {
        match self.mode {
            Mode::Pomodoro => self.duration = self.pomodoro_target,
            Mode::Stopwatch => self.duration = 0,
        }
        self.state = RunState::Idle;
    }

    /// Ends the current Pomodoro interval at once. Returns whether an
    /// interval was ended; a stopwatch is left as it is.
    pub fn early_terminate(&mut self) -> (timed_out: bool)
        requires
            old(self).wf(),
        ensures
            (final(self)@, timed_out) == old(self)@.terminated_early(),
            final(self).wf(),
    {
        match self.mode {
            Mode::Pomodoro => {
                self.duration = self.pomodoro_target;
                self.state = RunState::Idle;
                true
            },
            Mode::Stopwatch => false,
        }
    }

    /// Lengthens an idle Pomodoro by one step, up to the longest length, and
    /// rewinds it to the new length.
    pub fn increase_pomodoro_target(&mut self)
        requires
            old(self).wf(),
        ensures
            final(self)@ == old(self)@.increased_target(),
            final(self).wf(),
    {
        if self.is_idle_pomodoro() && self.pomodoro_target < TARGET_MAX {
            self.pomodoro_target = self.pomodoro_target + TARGET_STEP;
            self.duration = self.pomodoro_target;
        }
    }

    /// Shortens an idle Pomodoro by one step, down to the shortest length,
    /// and rewinds it to the new length.
    pub fn decrease_pomodoro_target(&mut self)
        requires
            old(self).wf(),
        ensures
            final(self)@ == old(self)@.decreased_target(),
            final(self).wf(),
    {
        if self.is_idle_pomodoro() && self.pomodoro_target > TARGET_MIN {
            self.pomodoro_target = self.pomodoro_target - TARGET_STEP;
            self.duration = self.pomodoro_target;
        }
    }

    fn is_idle_pomodoro(&self) -> (r: bool)
        ensures
            r == self@.target_adjustable(),
    {
        match (self.state, self.mode) {
            (RunState::Idle, Mode::Pomodoro) => true,
            _ => false,
        }
    }

    /// The duration in whole hours, minutes and seconds.
    pub fn clock_face(&self) -> (r: (u64, u64, u64))
        ensures
            (r.0 as nat, r.1 as nat, r.2 as nat) == clock_face_of(self@.duration),
    {
        let secs = self.duration / NANOS_PER_SEC;
        (secs / 3600, (secs % 3600) / 60, secs % 60)
    }
}

} // verus!
