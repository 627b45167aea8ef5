use tomato_clock::timer::{
    Mode, RunState, TimerEngine, NANOS_PER_MIN, NANOS_PER_SEC, TARGET_DEFAULT, TARGET_MAX,
    TARGET_MIN, TARGET_STEP,
};

const SEC: u64 = NANOS_PER_SEC;
const MIN: u64 = NANOS_PER_MIN;

#[test]
fn new_timer_is_idle_pomodoro_at_default_length() {
    let t = TimerEngine::new();
    assert_eq!(t.mode(), Mode::Pomodoro);
    assert_eq!(t.state(), RunState::Idle);
    assert_eq!(t.duration(), 25 * MIN);
    assert_eq!(t.pomodoro_target(), TARGET_DEFAULT);
    assert!(!t.is_running());
}

#[test]
fn countdown_reaches_one_second_then_times_out() {
    let mut t = TimerEngine::new();
    let t0: u64 = 1_000 * SEC;
    t.toggle_run(t0);
    assert!(t.is_running());
    let t1 = t0 + 24 * MIN + 59 * SEC;
    assert!(!t.tick(t1));
    assert_eq!(t.duration(), SEC);
    assert_eq!(t.clock_face(), (0, 0, 1));
    assert!(t.tick(t1 + 2 * SEC));
    assert_eq!(t.state(), RunState::Idle);
    assert_eq!(t.duration(), 25 * MIN);
}

#[test]
fn early_terminate_in_pomodoro_signals_and_rewinds() {
    let mut t = TimerEngine::new();
    assert!(t.early_terminate());
    assert_eq!(t.state(), RunState::Idle);
    assert_eq!(t.duration(), t.pomodoro_target());

    t.toggle_run(0);
    t.tick(10 * SEC);
    assert!(t.early_terminate());
    assert_eq!(t.state(), RunState::Idle);
    assert_eq!(t.duration(), 25 * MIN);
}

#[test]
fn early_terminate_in_stopwatch_does_nothing() {
    let mut t = TimerEngine::new();
    t.toggle_mode();
    t.toggle_run(0);
    t.tick(5 * SEC);
    assert!(!t.early_terminate());
    assert!(t.is_running());
    assert_eq!(t.duration(), 5 * SEC);
}

#[test]
fn pomodoro_ticks_never_increase_and_time_out_once() {
    let mut t = TimerEngine::new();
    t.toggle_run(0);
    let mut last = t.duration();
    let mut timeouts = 0;
    let mut now: u64 = 0;
    for _ in 0..40 {
        now += 60 * SEC;
        if t.tick(now) {
            timeouts += 1;
        } else if t.is_running() {
            assert!(t.duration() <= last);
            last = t.duration();
        }
    }
    assert_eq!(timeouts, 1);
    assert!(!t.is_running());
    assert_eq!(t.duration(), 25 * MIN);
}

#[test]
fn pomodoro_tick_after_long_gap_stops_at_zero() {
    let mut t = TimerEngine::new();
    t.toggle_run(0);
    assert!(!t.tick(90 * MIN));
    assert_eq!(t.duration(), 0);
    assert!(t.tick(90 * MIN + SEC));
    assert_eq!(t.duration(), 25 * MIN);
}

#[test]
fn tick_uses_elapsed_time_not_tick_count() {
    let mut t = TimerEngine::new();
    t.toggle_run(100);
    t.tick(100 + 1_500_000_000);
    assert_eq!(t.duration(), 25 * MIN - 1_500_000_000);
    t.tick(100 + 4_000_000_000);
    assert_eq!(t.duration(), 25 * MIN - 4_000_000_000);
    assert_eq!(t.clock_face(), (0, 24, 56));
}

#[test]
fn idle_timer_ignores_ticks() {
    let mut t = TimerEngine::new();
    assert!(!t.tick(10 * MIN));
    assert_eq!(t.duration(), 25 * MIN);
    t.toggle_run(0);
    t.toggle_run(5 * SEC);
    assert!(!t.tick(10 * MIN));
    assert_eq!(t.duration(), 25 * MIN);
}

#[test]
fn stopwatch_counts_up_without_bound() {
    let mut t = TimerEngine::new();
    t.toggle_mode();
    assert_eq!(t.duration(), 0);
    t.toggle_run(7);
    let mut last = 0;
    for k in 1..=5u64 {
        assert!(!t.tick(7 + k * 3 * SEC));
        assert!(t.duration() >= last);
        last = t.duration();
    }
    assert_eq!(t.duration(), 15 * SEC);
    t.tick(7 + 100 * 60 * MIN);
    assert_eq!(t.duration(), 100 * 60 * MIN);
    assert_eq!(t.clock_face(), (100, 0, 0));
}

#[test]
fn stopwatch_saturates_at_the_largest_duration() {
    let mut t = TimerEngine::new();
    t.toggle_mode();
    t.toggle_run(0);
    t.tick(u64::MAX - 1);
    t.tick(u64::MAX);
    assert_eq!(t.duration(), u64::MAX);
}

#[test]
fn earlier_timestamp_counts_as_no_time() {
    let mut t = TimerEngine::new();
    t.toggle_mode();
    t.toggle_run(50 * SEC);
    t.tick(40 * SEC);
    assert_eq!(t.duration(), 0);
}

#[test]
fn toggle_mode_resets_and_stops() {
    let mut t = TimerEngine::new();
    t.toggle_run(0);
    t.tick(3 * MIN);
    t.toggle_mode();
    assert_eq!(t.mode(), Mode::Stopwatch);
    assert_eq!(t.state(), RunState::Idle);
    assert_eq!(t.duration(), 0);
    t.toggle_run(0);
    t.tick(9 * SEC);
    t.toggle_mode();
    assert_eq!(t.mode(), Mode::Pomodoro);
    assert_eq!(t.state(), RunState::Idle);
    assert_eq!(t.duration(), 25 * MIN);
}

#[test]
fn reset_rewinds_each_mode() {
    let mut t = TimerEngine::new();
    t.toggle_run(0);
    t.tick(2 * MIN);
    t.reset();
    assert_eq!(t.state(), RunState::Idle);
    assert_eq!(t.duration(), 25 * MIN);
    t.toggle_mode();
    t.toggle_run(0);
    t.tick(2 * MIN);
    t.reset();
    assert_eq!(t.state(), RunState::Idle);
    assert_eq!(t.duration(), 0);
}

#[test]
fn increase_saturates_at_sixty_minutes() {
    let mut t = TimerEngine::new();
    t.increase_pomodoro_target();
    assert_eq!(t.pomodoro_target(), 30 * MIN);
    assert_eq!(t.duration(), 30 * MIN);
    for _ in 0..20 {
        t.increase_pomodoro_target();
    }
    assert_eq!(t.pomodoro_target(), TARGET_MAX);
    assert_eq!(t.pomodoro_target(), 60 * MIN);
    assert_eq!(t.duration(), 60 * MIN);
}

#[test]
fn decrease_saturates_at_five_minutes() {
    let mut t = TimerEngine::new();
    t.decrease_pomodoro_target();
    assert_eq!(t.pomodoro_target(), 20 * MIN);
    assert_eq!(t.duration(), 20 * MIN);
    for _ in 0..20 {
        t.decrease_pomodoro_target();
    }
    assert_eq!(t.pomodoro_target(), TARGET_MIN);
    assert_eq!(t.pomodoro_target(), 5 * MIN);
    assert_eq!(TARGET_STEP, 5 * MIN);
}

#[test]
fn target_change_ignored_while_running_or_in_stopwatch() {
    let mut t = TimerEngine::new();
    t.toggle_run(0);
    t.tick(SEC * 10);
    t.increase_pomodoro_target();
    t.decrease_pomodoro_target();
    assert_eq!(t.pomodoro_target(), 25 * MIN);
    assert_eq!(t.duration(), 25 * MIN - 10 * SEC);

    let mut s = TimerEngine::new();
    s.toggle_mode();
    s.increase_pomodoro_target();
    s.decrease_pomodoro_target();
    assert_eq!(s.pomodoro_target(), 25 * MIN);
    assert_eq!(s.duration(), 0);
}

#[test]
fn paused_pomodoro_target_change_rewinds_duration() {
    let mut t = TimerEngine::new();
    t.toggle_run(0);
    t.tick(MIN);
    t.toggle_run(MIN);
    assert_eq!(t.duration(), 24 * MIN);
    t.increase_pomodoro_target();
    assert_eq!(t.duration(), 30 * MIN);
}

#[test]
fn clock_face_splits_hours_minutes_seconds() {
    let mut t = TimerEngine::new();
    assert_eq!(t.clock_face(), (0, 25, 0));
    t.toggle_mode();
    t.toggle_run(0);
    t.tick(3723 * SEC + 999_999_999);
    assert_eq!(t.clock_face(), (1, 2, 3));
}
