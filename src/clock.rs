//! The clock application's decisions: which event does what to the timer and
//! the colours, which follow-up the host should carry out, and which key
//! press stands for which event.
use vstd::prelude::*;
use crate::theme::{ThemeCycler, ThemeModel};
use crate::timer::{TimerEngine, TimerModel};

verus! {

/// An event delivered to the clock.
#[derive(Clone, Copy, Debug, PartialEq, Eq, Structural)]
pub enum Message {
    Toggle,
    ToggleMode,
    Reset,
    /// A periodic tick carrying the timestamp it was taken at.
    Tick(u64),
    IncreasePomodoroDuration,
    DecreasePomodoroDuration,
    Shutdown,
    StartDragging,
    ChangeTextColor,
    ChangeBackgroundColor,
    TimeOut,
    CloseReminder,
    EarlyTermination,
}

/// What the host has to do after an event.
#[derive(Clone, Copy, Debug, PartialEq, Eq, Structural)]
pub enum Effect {
    Nothing,
    /// Deliver `Message::TimeOut` next.
    SignalTimeOut,
    /// Open the reminder window.
    OpenReminder,
    /// Let the user drag the clock window.
    DragClock,
    /// Close the reminder window.
    CloseReminder,
    /// Exit the program, first writing the configuration back if `persist`.
    Exit { persist: bool },
}

/// The abstract state of the clock application.
pub struct ClockModel<C> {
    pub timer: TimerModel,
    pub theme: ThemeModel<C>,
    pub reminder_open: bool,
    pub persist_on_exit: bool,
}

impl<C> ClockModel<C> {
    pub open spec fn wf(self) -> bool {
        self.timer.wf() && self.theme.wf()
    }

    pub open spec fn with_timer(self, timer: TimerModel) -> ClockModel<C> {
        ClockModel { timer, ..self }
    }

    /// The state after `msg` at time `now`, and the host's follow-up.
    pub open spec fn updated(self, msg: Message, now: u64) -> (ClockModel<C>, Effect) {
        let running = self.timer.is_running();
        match msg {
            Message::Toggle => (self.with_timer(self.timer.toggled_run(now)), Effect::Nothing),
            Message::ToggleMode => (self.with_timer(self.timer.toggled_mode()), Effect::Nothing),
            Message::Reset => (self.with_timer(self.timer.after_reset()), Effect::Nothing),
            Message::Tick(t) => {
                let (timer, timed_out) = self.timer.ticked(t);
                (
                    self.with_timer(timer),
                    if timed_out {
                        Effect::SignalTimeOut
                    } else {
                        Effect::Nothing
                    },
                )
            },
            Message::IncreasePomodoroDuration => (
                self.with_timer(self.timer.increased_target()),
                Effect::Nothing,
            ),
            Message::DecreasePomodoroDuration => (
                self.with_timer(self.timer.decreased_target()),
                Effect::Nothing,
            ),
            Message::EarlyTermination => {
                let (timer, timed_out) = self.timer.terminated_early();
                (
                    self.with_timer(timer),
                    if timed_out {
                        Effect::SignalTimeOut
                    } else {
                        Effect::Nothing
                    },
                )
            },
            Message::Shutdown => (self, Effect::Exit { persist: self.persist_on_exit }),
            Message::StartDragging => (self, Effect::DragClock),
            Message::ChangeTextColor => (
                ClockModel { theme: self.theme.advanced_text(running), ..self },
                Effect::Nothing,
            ),
            Message::ChangeBackgroundColor => (
                ClockModel { theme: self.theme.advanced_background(running), ..self },
                Effect::Nothing,
            ),
            Message::TimeOut => (ClockModel { reminder_open: true, ..self }, Effect::OpenReminder),
            Message::CloseReminder => if self.reminder_open {
                (ClockModel { reminder_open: false, ..self }, Effect::CloseReminder)
            } else {
                (self, Effect::Nothing)
            },
        }
    }
}

/// The timer, its colours, and whether a reminder is showing.
pub struct ClockApp<C> {
    timer: TimerEngine,
    theme: ThemeCycler<C>,
    reminder_open: bool,
    persist_on_exit: bool,
}

impl<C> View for ClockApp<C> {
    type V = ClockModel<C>;

    closed spec fn view(&self) -> ClockModel<C> {
        ClockModel {
            timer: self.timer@,
            theme: self.theme@,
            reminder_open: self.reminder_open,
            persist_on_exit: self.persist_on_exit,
        }
    }
}

impl<C> ClockApp<C> {
    pub open spec fn wf(&self) -> bool {
        self@.wf()
    }

    /// A fresh timer with the given colours; `persist_on_exit` says whether
    /// the configuration is written back on shutdown.
    pub fn new(theme: ThemeCycler<C>, persist_on_exit: bool) -> (r: ClockApp<C>)
        requires
            theme.wf(),
        ensures
            r.wf(),
            r@.timer == TimerModel::initial(),
            r@.theme == theme@,
            !r@.reminder_open,
            r@.persist_on_exit == persist_on_exit,
    {
        ClockApp { timer: TimerEngine::new(), theme, reminder_open: false, persist_on_exit }
    }

    pub fn timer(&self) -> (r: &TimerEngine)
        ensures
            r@ == self@.timer,
    {
        &self.timer
    }

    pub fn theme(&self) -> (r: &ThemeCycler<C>)
        ensures
            r@ == self@.theme,
    {
        &self.theme
    }

    pub fn reminder_open(&self) -> (r: bool)
        ensures
            r == self@.reminder_open,
    {
        self.reminder_open
    }

    /// Whether the host should deliver periodic ticks.
    pub fn wants_ticks(&self) -> (r: bool)
        ensures
            r == self@.timer.is_running(),
    {
        self.timer.is_running()
    }

    /// The clock's text colour in its current run state.
    pub fn text_color(&self) -> (r: &C)
        requires
            self.wf(),
        ensures
            *r == self@.theme.text_colors[self@.theme.indices.text(self@.timer.is_running()) as int],
    {
        self.theme.text_color(self.timer.is_running())
    }

    /// The clock's background colour in its current run state.
    pub fn background_color(&self) -> (r: &C)
        requires
            self.wf(),
        ensures
            *r == self@.theme.background_colors[self@.theme.indices.background(
                self@.timer.is_running(),
            ) as int],
    {
        self.theme.background_color(self.timer.is_running())
    }

    /// Handles one event at time `now` and says what the host has to do.
    pub fn update(&mut self, msg: Message, now: u64) -> (r: Effect)
        requires
            old(self).wf(),
        ensures
            (final(self)@, r) == old(self)@.updated(msg, now),
            final(self).wf(),
    {
        let running = self.timer.is_running();
        match msg {
            Message::Toggle => {
                self.timer.toggle_run(now);
                Effect::Nothing
            },
            Message::ToggleMode => {
                self.timer.toggle_mode();
                Effect::Nothing
            },
            Message::Reset => {
                self.timer.reset();
                Effect::Nothing
            },
            Message::Tick(t) => {
                if self.timer.tick(t) {
                    Effect::SignalTimeOut
                } else {
                    Effect::Nothing
                }
            },
            Message::IncreasePomodoroDuration => {
                self.timer.increase_pomodoro_target();
                Effect::Nothing
            },
            Message::DecreasePomodoroDuration => {
                self.timer.decrease_pomodoro_target();
                Effect::Nothing
            },
            Message::EarlyTermination => {
                if self.timer.early_terminate() {
                    Effect::SignalTimeOut
                } else {
                    Effect::Nothing
                }
            },
            Message::Shutdown => Effect::Exit { persist: self.persist_on_exit },
            Message::StartDragging => Effect::DragClock,
            Message::ChangeTextColor => {
                self.theme.advance_text_color(running);
                Effect::Nothing
            },
            Message::ChangeBackgroundColor => {
                self.theme.advance_background_color(running);
                Effect::Nothing
            },
            Message::TimeOut => {
                self.reminder_open = true;
                Effect::OpenReminder
            },
            Message::CloseReminder => {
                if self.reminder_open {
                    self.reminder_open = false;
                    Effect::CloseReminder
                } else {
                    Effect::Nothing
                }
            },
        }
    }
}

} // verus!
