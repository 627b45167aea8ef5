//! Properties that relate several operations or many calls of one.
use vstd::prelude::*;
use vstd::arithmetic::div_mod::{
    lemma_add_mod_noop_right,
    lemma_mod_add_multiples_vanish,
    lemma_mod_pos_bound,
    lemma_small_mod,
};
use crate::clock::{ClockModel, Effect, Message};
use crate::theme::{ThemeModel, next_index};
use crate::timer::{Mode, NANOS_PER_SEC, RunState, TARGET_MAX, TARGET_MIN, TARGET_STEP, TimerModel};

verus! {

/// The state after ticks at each of `times` in turn, and how many of them
/// ended a Pomodoro interval.
pub open spec fn run_ticks(m: TimerModel, times: Seq<u64>) -> (TimerModel, nat)
    decreases times.len(),
{
    if times.len() == 0 {
        (m, 0)
    } else {
        let (next, timed_out) = m.ticked(times[0]);
        let (last, count) = run_ticks(next, times.drop_first());
        (last, count + if timed_out { 1nat } else { 0nat })
    }
}

pub open spec fn non_decreasing(times: Seq<u64>) -> bool {
    forall|i: int, j: int| 0 <= i <= j < times.len() ==> times[i] <= times[j]
}

/// One tick of a running Pomodoro: it ends the interval exactly when at most
/// one second is left, and otherwise keeps running with no more time left
/// than before.
pub proof fn lemma_pomodoro_tick(m: TimerModel, now: u64)
    requires
        m.wf(),
        m.is_running(),
        m.mode == Mode::Pomodoro,
    ensures
        m.ticked(now).1 <==> m.duration <= NANOS_PER_SEC,
        m.ticked(now).1 ==> m.ticked(now).0.state == RunState::Idle
            && m.ticked(now).0.duration == m.target,
        !m.ticked(now).1 ==> m.ticked(now).0.is_running() && m.ticked(now).0.duration
            <= m.duration,
        m.ticked(now).0.wf(),
{
}

/// Ticks on a running Pomodoro end the interval at most once. Until they do,
/// the timer keeps running and the time left never grows; once they do, the
/// timer is idle and rewound to the Pomodoro length.
pub proof fn lemma_pomodoro_ticks(m: TimerModel, times: Seq<u64>)
    requires
        m.wf(),
        m.is_running(),
        m.mode == Mode::Pomodoro,
        non_decreasing(times),
    ensures
        run_ticks(m, times).1 <= 1,
        run_ticks(m, times).0.wf(),
        run_ticks(m, times).0.mode == Mode::Pomodoro,
        run_ticks(m, times).1 == 0 ==> run_ticks(m, times).0.is_running()
            && run_ticks(m, times).0.duration <= m.duration,
        run_ticks(m, times).1 == 1 ==> run_ticks(m, times).0.state == RunState::Idle
            && run_ticks(m, times).0.duration == m.target,
    decreases times.len(),
{
    if times.len() > 0 {
        let (next, timed_out) = m.ticked(times[0]);
        let rest = times.drop_first();
        if timed_out {
            lemma_idle_ticks(next, rest);
        } else {
            assert(non_decreasing(rest)) by {
                assert forall|i: int, j: int| 0 <= i <= j < rest.len() implies rest[i]
                    <= rest[j] by {
                    assert(rest[i] == times[i + 1] && rest[j] == times[j + 1]);
                }
            }
            lemma_pomodoro_ticks(next, rest);
        }
    }
}

/// Ticks leave an idle timer as it is.
pub proof fn lemma_idle_ticks(m: TimerModel, times: Seq<u64>)
    requires
        m.state == RunState::Idle,
    ensures
        run_ticks(m, times) == (m, 0nat),
    decreases times.len(),
{
    if times.len() > 0 {
        lemma_idle_ticks(m, times.drop_first());
    }
}

/// Ticks on a running stopwatch never end an interval and never take time
/// off. With timestamps in order, the elapsed time grows by exactly the time
/// from the last recorded tick to the latest one, wherever that fits.
pub proof fn lemma_stopwatch_ticks(m: TimerModel, times: Seq<u64>)
    requires
        m.wf(),
        m.is_running(),
        m.mode == Mode::Stopwatch,
    ensures
        run_ticks(m, times).1 == 0,
        run_ticks(m, times).0.wf(),
        run_ticks(m, times).0.is_running(),
        run_ticks(m, times).0.mode == Mode::Stopwatch,
        run_ticks(m, times).0.duration >= m.duration,
        non_decreasing(times) && times.len() > 0 && times[0] >= m.state->last_tick
            && m.duration + (times.last() - m.state->last_tick) <= u64::MAX ==> run_ticks(
            m,
            times,
        ).0.duration == m.duration + (times.last() - m.state->last_tick),
    decreases times.len(),
{
    if times.len() > 0 {
        let (next, timed_out) = m.ticked(times[0]);
        let rest = times.drop_first();
        lemma_stopwatch_ticks(next, rest);
        if non_decreasing(times) && times[0] >= m.state->last_tick && m.duration + (times.last()
            - m.state->last_tick) <= u64::MAX {
            if rest.len() > 0 {
                assert(rest.last() == times.last());
                assert(times[1] >= times[0]);
                assert(non_decreasing(rest)) by {
                    assert forall|i: int, j: int| 0 <= i <= j < rest.len() implies rest[i]
                        <= rest[j] by {
                        assert(rest[i] == times[i + 1] && rest[j] == times[j + 1]);
                    }
                }
                assert(times[0] <= times.last());
            }
        }
    }
}

/// The state after `n` requests to lengthen the Pomodoro.
pub open spec fn increased_times(m: TimerModel, n: nat) -> TimerModel
    decreases n,
{
    if n == 0 {
        m
    } else {
        increased_times(m, (n - 1) as nat).increased_target()
    }
}

/// The state after `n` requests to shorten the Pomodoro.
pub open spec fn decreased_times(m: TimerModel, n: nat) -> TimerModel
    decreases n,
{
    if n == 0 {
        m
    } else {
        decreased_times(m, (n - 1) as nat).decreased_target()
    }
}

/// Lengthening or shortening the Pomodoro changes nothing unless the timer
/// is idle, in Pomodoro mode, and the length can still move that way.
pub proof fn lemma_target_change_conditions(m: TimerModel)
    requires
        m.wf(),
    ensures
        m.increased_target() == m <==> !(m.target_adjustable() && m.target < TARGET_MAX),
        m.decreased_target() == m <==> !(m.target_adjustable() && m.target > TARGET_MIN),
{
}

/// Repeated lengthening of an idle Pomodoro goes up in steps of five
/// minutes and stops at sixty; the time left follows the length.
pub proof fn lemma_increase_saturates(m: TimerModel, n: nat)
    requires
        m.wf(),
        m.target_adjustable(),
    ensures
        increased_times(m, n).wf(),
        increased_times(m, n).target_adjustable(),
        increased_times(m, n).target == if m.target + n * TARGET_STEP <= TARGET_MAX {
            m.target + n * TARGET_STEP
        } else {
            TARGET_MAX as int
        },
        n > 0 && m.target < TARGET_MAX ==> increased_times(m, n).duration == increased_times(m,
            n,
        ).target,
    decreases n,
{
    if n > 0 {
        lemma_increase_saturates(m, (n - 1) as nat);
    }
}

/// Repeated shortening of an idle Pomodoro goes down in steps of five
/// minutes and stops at five; the time left follows the length.
pub proof fn lemma_decrease_saturates(m: TimerModel, n: nat)
    requires
        m.wf(),
        m.target_adjustable(),
    ensures
        decreased_times(m, n).wf(),
        decreased_times(m, n).target_adjustable(),
        decreased_times(m, n).target == if m.target - n * TARGET_STEP >= TARGET_MIN {
            m.target - n * TARGET_STEP
        } else {
            TARGET_MIN as int
        },
        n > 0 && m.target > TARGET_MIN ==> decreased_times(m, n).duration == decreased_times(m,
            n,
        ).target,
    decreases n,
{
    if n > 0 {
        lemma_decrease_saturates(m, (n - 1) as nat);
    }
}

/// The colours after `n` text colour changes in the given run state.
pub open spec fn text_advanced_times<C>(m: ThemeModel<C>, running: bool, n: nat) -> ThemeModel<C>
    decreases n,
{
    if n == 0 {
        m
    } else {
        text_advanced_times(m, running, (n - 1) as nat).advanced_text(running)
    }
}

/// The colours after `n` background colour changes in the given run state.
pub open spec fn background_advanced_times<C>(m: ThemeModel<C>, running: bool, n: nat) -> ThemeModel<
    C,
>
    decreases n,
{
    if n == 0 {
        m
    } else {
        background_advanced_times(m, running, (n - 1) as nat).advanced_background(running)
    }
}

proof fn lemma_next_index_steps(i: usize, len: nat, n: nat)
    requires
        0 < len <= usize::MAX,
    ensures
        0 <= (i + n) % (len as int) < len,
        0 <= (i + n + 1) % (len as int) < len,
        next_index(((i + n) % (len as int)) as usize, len) == ((i + n + 1) % (len as int)) as usize,
{
    lemma_mod_pos_bound(i + n, len as int);
    lemma_mod_pos_bound(i + n + 1, len as int);
    lemma_add_mod_noop_right(1, i + n, len as int);
}

/// `n` text colour changes move the position `n` places round the palette,
/// leave the palettes and every other position alone, and a full round comes
/// back to the start.
pub proof fn lemma_text_color_cycle<C>(m: ThemeModel<C>, running: bool, n: nat)
    requires
        m.wf(),
    ensures
        text_advanced_times(m, running, n) == (ThemeModel {
            indices: m.indices.with_text(
                running,
                ((m.indices.text(running) + n) % (m.text_colors.len() as int)) as usize,
            ),
            ..m
        }),
        text_advanced_times(m, running, n).wf(),
        text_advanced_times(m, running, n).indices.text(!running) == m.indices.text(!running),
        text_advanced_times(m, running, n).indices.stop_background == m.indices.stop_background,
        text_advanced_times(m, running, n).indices.run_background == m.indices.run_background,
        n == m.text_colors.len() ==> text_advanced_times(m, running, n) == m,
    decreases n,
{
    let len = m.text_colors.len();
    let i = m.indices.text(running);
    if n > 0 {
        let k = (n - 1) as nat;
        lemma_text_color_cycle(m, running, k);
        lemma_next_index_steps(i, len, k);
        assert(i + k + 1 == i + n);
    } else {
        lemma_small_mod(i as nat, len);
    }
    lemma_mod_pos_bound(i + n, len as int);
    if n == len {
        lemma_mod_add_multiples_vanish(i as int, len as int);
        lemma_small_mod(i as nat, len);
    }
}

/// `n` background colour changes move the position `n` places round the
/// palette, leave the palettes and every other position alone, and a full
/// round comes back to the start.
pub proof fn lemma_background_color_cycle<C>(m: ThemeModel<C>, running: bool, n: nat)
    requires
        m.wf(),
    ensures
        background_advanced_times(m, running, n) == (ThemeModel {
            indices: m.indices.with_background(
                running,
                ((m.indices.background(running) + n) % (m.background_colors.len() as int)) as usize,
            ),
            ..m
        }),
        background_advanced_times(m, running, n).wf(),
        background_advanced_times(m, running, n).indices.background(!running)
            == m.indices.background(!running),
        background_advanced_times(m, running, n).indices.stop_text == m.indices.stop_text,
        background_advanced_times(m, running, n).indices.run_text == m.indices.run_text,
        n == m.background_colors.len() ==> background_advanced_times(m, running, n) == m,
    decreases n,
{
    let len = m.background_colors.len();
    let i = m.indices.background(running);
    if n > 0 {
        let k = (n - 1) as nat;
        lemma_background_color_cycle(m, running, k);
        lemma_next_index_steps(i, len, k);
        assert(i + k + 1 == i + n);
    } else {
        lemma_small_mod(i as nat, len);
    }
    lemma_mod_pos_bound(i + n, len as int);
    if n == len {
        lemma_mod_add_multiples_vanish(i as int, len as int);
        lemma_small_mod(i as nat, len);
    }
}

/// The clock's state after each event of `msgs`, delivered at its
/// timestamp, and how many of them asked the host to signal a time-out.
pub open spec fn run_updates<C>(m: ClockModel<C>, msgs: Seq<(Message, u64)>) -> (ClockModel<C>, nat)
    decreases msgs.len(),
{
    if msgs.len() == 0 {
        (m, 0)
    } else {
        let (next, effect) = m.updated(msgs[0].0, msgs[0].1);
        let (last, count) = run_updates(next, msgs.drop_first());
        (last, count + if effect == Effect::SignalTimeOut { 1nat } else { 0nat })
    }
}

/// One tick event for each timestamp, delivered at that time.
pub open spec fn tick_messages(times: Seq<u64>) -> Seq<(Message, u64)> {
    Seq::new(times.len(), |i: int| (Message::Tick(times[i]), times[i]))
}

proof fn lemma_updates_of_ticks<C>(m: ClockModel<C>, times: Seq<u64>)
    ensures
        run_updates(m, tick_messages(times)) == (
            m.with_timer(run_ticks(m.timer, times).0),
            run_ticks(m.timer, times).1,
        ),
    decreases times.len(),
{
    if times.len() > 0 {
        let next = m.with_timer(m.timer.ticked(times[0]).0);
        assert(tick_messages(times).drop_first() =~= tick_messages(times.drop_first()));
        lemma_updates_of_ticks(next, times.drop_first());
    }
}

/// Tick events on a running Pomodoro signal a time-out at most once. Until
/// they do, the clock keeps running and the time left never grows; once they
/// do, it is idle and rewound. Colours and the reminder are left alone.
pub proof fn lemma_clock_pomodoro_ticks<C>(m: ClockModel<C>, times: Seq<u64>)
    requires
        m.wf(),
        m.timer.is_running(),
        m.timer.mode == Mode::Pomodoro,
        non_decreasing(times),
    ensures
        ({
            let (f, count) = run_updates(m, tick_messages(times));
            &&& count <= 1
            &&& f.wf()
            &&& f.theme == m.theme
            &&& f.reminder_open == m.reminder_open
            &&& f.timer.mode == Mode::Pomodoro
            &&& count == 0 ==> f.timer.is_running() && f.timer.duration <= m.timer.duration
            &&& count == 1 ==> f.timer.state == RunState::Idle && f.timer.duration == m.timer.target
        }),
{
    lemma_updates_of_ticks(m, times);
    lemma_pomodoro_ticks(m.timer, times);
}

/// Tick events on a running stopwatch never signal a time-out and never
/// take time off; with timestamps in order the elapsed time grows by exactly
/// the time from the last recorded tick to the latest one, wherever that
/// fits.
pub proof fn lemma_clock_stopwatch_ticks<C>(m: ClockModel<C>, times: Seq<u64>)
    requires
        m.wf(),
        m.timer.is_running(),
        m.timer.mode == Mode::Stopwatch,
    ensures
        ({
            let (f, count) = run_updates(m, tick_messages(times));
            &&& count == 0
            &&& f.wf()
            &&& f.theme == m.theme
            &&& f.timer.is_running()
            &&& f.timer.mode == Mode::Stopwatch
            &&& f.timer.target == m.timer.target
            &&& f.timer.duration >= m.timer.duration
            &&& non_decreasing(times) && times.len() > 0 && times[0] >= m.timer.state->last_tick
                && m.timer.duration + (times.last() - m.timer.state->last_tick) <= u64::MAX
                ==> f.timer.duration == m.timer.duration + (times.last()
                - m.timer.state->last_tick)
        }),
{
    lemma_updates_of_ticks(m, times);
    lemma_stopwatch_ticks(m.timer, times);
    lemma_stopwatch_keeps_target(m.timer, times);
}

proof fn lemma_stopwatch_keeps_target(m: TimerModel, times: Seq<u64>)
    requires
        m.is_running(),
        m.mode == Mode::Stopwatch,
    ensures
        run_ticks(m, times).0.target == m.target,
    decreases times.len(),
{
    if times.len() > 0 {
        lemma_stopwatch_keeps_target(m.ticked(times[0]).0, times.drop_first());
    }
}

/// Whether every event of `msgs` is `msg`.
pub open spec fn all_are(msgs: Seq<(Message, u64)>, msg: Message) -> bool {
    forall|i: int| 0 <= i < msgs.len() ==> #[trigger] msgs[i].0 == msg
}

proof fn lemma_updates_of_increase<C>(m: ClockModel<C>, msgs: Seq<(Message, u64)>)
    requires
        all_are(msgs, Message::IncreasePomodoroDuration),
    ensures
        run_updates(m, msgs) == (m.with_timer(increased_times(m.timer, msgs.len())), 0nat),
    decreases msgs.len(),
{
    if msgs.len() > 0 {
        let rest = msgs.drop_first();
        assert(msgs[0].0 == Message::IncreasePomodoroDuration);
        assert(all_are(rest, Message::IncreasePomodoroDuration)) by {
            assert forall|i: int| 0 <= i < rest.len() implies #[trigger] rest[i].0
                == Message::IncreasePomodoroDuration by {
                assert(rest[i] == msgs[i + 1]);
            }
        }
        lemma_updates_of_increase(m.with_timer(m.timer.increased_target()), rest);
        lemma_increased_times_first(m.timer, rest.len());
    }
}

proof fn lemma_increased_times_first(m: TimerModel, n: nat)
    ensures
        increased_times(m.increased_target(), n) == increased_times(m, n + 1),
    decreases n,
{
    assert(increased_times(m, n + 1) == increased_times(m, n).increased_target());
    if n > 0 {
        lemma_increased_times_first(m, (n - 1) as nat);
    }
}

proof fn lemma_updates_of_decrease<C>(m: ClockModel<C>, msgs: Seq<(Message, u64)>)
    requires
        all_are(msgs, Message::DecreasePomodoroDuration),
    ensures
        run_updates(m, msgs) == (m.with_timer(decreased_times(m.timer, msgs.len())), 0nat),
    decreases msgs.len(),
{
    if msgs.len() > 0 {
        let rest = msgs.drop_first();
        assert(msgs[0].0 == Message::DecreasePomodoroDuration);
        assert(all_are(rest, Message::DecreasePomodoroDuration)) by {
            assert forall|i: int| 0 <= i < rest.len() implies #[trigger] rest[i].0
                == Message::DecreasePomodoroDuration by {
                assert(rest[i] == msgs[i + 1]);
            }
        }
        lemma_updates_of_decrease(m.with_timer(m.timer.decreased_target()), rest);
        lemma_decreased_times_first(m.timer, rest.len());
    }
}

proof fn lemma_decreased_times_first(m: TimerModel, n: nat)
    ensures
        decreased_times(m.decreased_target(), n) == decreased_times(m, n + 1),
    decreases n,
{
    assert(decreased_times(m, n + 1) == decreased_times(m, n).decreased_target());
    if n > 0 {
        lemma_decreased_times_first(m, (n - 1) as nat);
    }
}

/// `k` lengthen events on an idle Pomodoro clock set its length to
/// `min(length + 5k minutes, 60 minutes)`, and `k` shorten events to
/// `max(length - 5k minutes, 5 minutes)`; the time left follows the length.
pub proof fn lemma_clock_target_steps<C>(m: ClockModel<C>, msgs: Seq<(Message, u64)>)
    requires
        m.wf(),
        m.timer.target_adjustable(),
    ensures
        all_are(msgs, Message::IncreasePomodoroDuration) ==> ({
            let f = run_updates(m, msgs).0;
            &&& f.wf()
            &&& f.theme == m.theme
            &&& f.timer.target == if m.timer.target + msgs.len() * TARGET_STEP <= TARGET_MAX {
                m.timer.target + msgs.len() * TARGET_STEP
            } else {
                TARGET_MAX as int
            }
            &&& msgs.len() > 0 && m.timer.target < TARGET_MAX ==> f.timer.duration == f.timer.target
        }),
        all_are(msgs, Message::DecreasePomodoroDuration) ==> ({
            let f = run_updates(m, msgs).0;
            &&& f.wf()
            &&& f.theme == m.theme
            &&& f.timer.target == if m.timer.target - msgs.len() * TARGET_STEP >= TARGET_MIN {
                m.timer.target - msgs.len() * TARGET_STEP
            } else {
                TARGET_MIN as int
            }
            &&& msgs.len() > 0 && m.timer.target > TARGET_MIN ==> f.timer.duration == f.timer.target
        }),
{
    if all_are(msgs, Message::IncreasePomodoroDuration) {
        lemma_updates_of_increase(m, msgs);
        lemma_increase_saturates(m.timer, msgs.len());
    }
    if all_are(msgs, Message::DecreasePomodoroDuration) {
        lemma_updates_of_decrease(m, msgs);
        lemma_decrease_saturates(m.timer, msgs.len());
    }
}

/// Any run of events keeps the clock well formed: in particular the
/// Pomodoro length stays on the five-minute grid between five and sixty
/// minutes.
pub proof fn lemma_clock_stays_wf<C>(m: ClockModel<C>, msgs: Seq<(Message, u64)>)
    requires
        m.wf(),
    ensures
        run_updates(m, msgs).0.wf(),
    decreases msgs.len(),
{
    if msgs.len() > 0 {
        let next = m.updated(msgs[0].0, msgs[0].1).0;
        assert(next.wf());
        lemma_clock_stays_wf(next, msgs.drop_first());
    }
}

proof fn lemma_updates_of_text_color<C>(m: ClockModel<C>, msgs: Seq<(Message, u64)>)
    requires
        all_are(msgs, Message::ChangeTextColor),
    ensures
        run_updates(m, msgs) == (
            ClockModel {
                theme: text_advanced_times(m.theme, m.timer.is_running(), msgs.len()),
                ..m
            },
            0nat,
        ),
    decreases msgs.len(),
{
    if msgs.len() > 0 {
        let rest = msgs.drop_first();
        let running = m.timer.is_running();
        assert(msgs[0].0 == Message::ChangeTextColor);
        assert(all_are(rest, Message::ChangeTextColor)) by {
            assert forall|i: int| 0 <= i < rest.len() implies #[trigger] rest[i].0
                == Message::ChangeTextColor by {
                assert(rest[i] == msgs[i + 1]);
            }
        }
        let next = ClockModel { theme: m.theme.advanced_text(running), ..m };
        lemma_updates_of_text_color(next, rest);
        lemma_text_advanced_times_first(m.theme, running, rest.len());
    }
}

proof fn lemma_text_advanced_times_first<C>(m: ThemeModel<C>, running: bool, n: nat)
    ensures
        text_advanced_times(m.advanced_text(running), running, n) == text_advanced_times(
            m,
            running,
            n + 1,
        ),
    decreases n,
{
    assert(text_advanced_times(m, running, n + 1) == text_advanced_times(m, running, n).advanced_text(running));
    if n > 0 {
        lemma_text_advanced_times_first(m, running, (n - 1) as nat);
    }
}

proof fn lemma_updates_of_background_color<C>(m: ClockModel<C>, msgs: Seq<(Message, u64)>)
    requires
        all_are(msgs, Message::ChangeBackgroundColor),
    ensures
        run_updates(m, msgs) == (
            ClockModel {
                theme: background_advanced_times(m.theme, m.timer.is_running(), msgs.len()),
                ..m
            },
            0nat,
        ),
    decreases msgs.len(),
{
    if msgs.len() > 0 {
        let rest = msgs.drop_first();
        let running = m.timer.is_running();
        assert(msgs[0].0 == Message::ChangeBackgroundColor);
        assert(all_are(rest, Message::ChangeBackgroundColor)) by {
            assert forall|i: int| 0 <= i < rest.len() implies #[trigger] rest[i].0
                == Message::ChangeBackgroundColor by {
                assert(rest[i] == msgs[i + 1]);
            }
        }
        let next = ClockModel { theme: m.theme.advanced_background(running), ..m };
        lemma_updates_of_background_color(next, rest);
        lemma_background_advanced_times_first(m.theme, running, rest.len());
    }
}

proof fn lemma_background_advanced_times_first<C>(m: ThemeModel<C>, running: bool, n: nat)
    ensures
        background_advanced_times(m.advanced_background(running), running, n)
            == background_advanced_times(m, running, n + 1),
    decreases n,
{
    assert(background_advanced_times(m, running, n + 1) == background_advanced_times(m, running, n).advanced_background(running));
    if n > 0 {
        lemma_background_advanced_times_first(m, running, (n - 1) as nat);
    }
}

/// `j` text colour events move the clock's text colour position for its
/// current run state `j` places round the palette and touch nothing else; as
/// many events as the palette has colours bring the clock back to where it
/// started. The same holds of background colour events.
pub proof fn lemma_clock_color_cycle<C>(m: ClockModel<C>, msgs: Seq<(Message, u64)>)
    requires
        m.wf(),
    ensures
        all_are(msgs, Message::ChangeTextColor) ==> ({
            let f = run_updates(m, msgs).0;
            let running = m.timer.is_running();
            &&& f.timer == m.timer
            &&& f.theme.indices.text(running) == (m.theme.indices.text(running) + msgs.len())
                % (m.theme.text_colors.len() as int)
            &&& f.theme.indices.text(!running) == m.theme.indices.text(!running)
            &&& f.theme.indices.stop_background == m.theme.indices.stop_background
            &&& f.theme.indices.run_background == m.theme.indices.run_background
            &&& msgs.len() == m.theme.text_colors.len() ==> f == m
        }),
        all_are(msgs, Message::ChangeBackgroundColor) ==> ({
            let f = run_updates(m, msgs).0;
            let running = m.timer.is_running();
            &&& f.timer == m.timer
            &&& f.theme.indices.background(running) == (m.theme.indices.background(running)
                + msgs.len()) % (m.theme.background_colors.len() as int)
            &&& f.theme.indices.background(!running) == m.theme.indices.background(!running)
            &&& f.theme.indices.stop_text == m.theme.indices.stop_text
            &&& f.theme.indices.run_text == m.theme.indices.run_text
            &&& msgs.len() == m.theme.background_colors.len() ==> f == m
        }),
{
    let running = m.timer.is_running();
    if all_are(msgs, Message::ChangeTextColor) {
        lemma_updates_of_text_color(m, msgs);
        lemma_text_color_cycle(m.theme, running, msgs.len());
    }
    if all_are(msgs, Message::ChangeBackgroundColor) {
        lemma_updates_of_background_color(m, msgs);
        lemma_background_color_cycle(m.theme, running, msgs.len());
    }
}

/// One tick event on a running Pomodoro clock signals a time-out exactly
/// when at most one second is left before it; otherwise the clock keeps
/// running with no more time left than before.
pub proof fn lemma_clock_pomodoro_tick<C>(m: ClockModel<C>, t: u64, now: u64)
    requires
        m.wf(),
        m.timer.is_running(),
        m.timer.mode == Mode::Pomodoro,
    ensures
        ({
            let (f, effect) = m.updated(Message::Tick(t), now);
            &&& effect == Effect::SignalTimeOut <==> m.timer.duration <= NANOS_PER_SEC
            &&& effect == Effect::SignalTimeOut ==> f.timer.state == RunState::Idle
                && f.timer.duration == m.timer.target
            &&& effect != Effect::SignalTimeOut ==> effect == Effect::Nothing
                && f.timer.is_running() && f.timer.duration <= m.timer.duration
        }),
{
    lemma_pomodoro_tick(m.timer, t);
}

/// Tick events leave an idle clock exactly as it is and signal nothing.
pub proof fn lemma_clock_idle_ticks<C>(m: ClockModel<C>, times: Seq<u64>)
    requires
        m.timer.state == RunState::Idle,
    ensures
        run_updates(m, tick_messages(times)) == (m, 0nat),
{
    lemma_updates_of_ticks(m, times);
    lemma_idle_ticks(m.timer, times);
}

} // verus!
