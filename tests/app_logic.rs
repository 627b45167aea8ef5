use tomato_clock::clock::{ClockApp, Effect, Message};
use tomato_clock::keys::{hotkey, KeyInput};
use tomato_clock::reminder::{picture_kind, picture_kind_for_extension, PictureKind, Reminder, DEFAULT_FONT_SIZE};
use tomato_clock::theme::{ColorIndices, ThemeCycler};
use tomato_clock::timer::{NANOS_PER_MIN, NANOS_PER_SEC};
use tomato_clock::windows::{window_title, WindowRole, WindowRoles};

fn app(persist: bool) -> ClockApp<u32> {
    let theme = ThemeCycler::from_config(
        vec![1, 2],
        vec![10, 20, 30],
        ColorIndices { stop_text: 0, run_text: 1, stop_background: 0, run_background: 2 },
    );
    ClockApp::new(theme, persist)
}

#[test]
fn countdown_signals_then_opens_and_closes_reminder() {
    let mut a = app(false);
    assert_eq!(a.update(Message::Toggle, 0), Effect::Nothing);
    assert!(a.wants_ticks());
    assert_eq!(a.update(Message::Tick(24 * NANOS_PER_MIN + 59 * NANOS_PER_SEC), 0), Effect::Nothing);
    assert_eq!(a.timer().duration(), NANOS_PER_SEC);
    let t = 25 * NANOS_PER_MIN + NANOS_PER_SEC;
    assert_eq!(a.update(Message::Tick(t), t), Effect::SignalTimeOut);
    assert!(!a.wants_ticks());
    assert_eq!(a.update(Message::TimeOut, t), Effect::OpenReminder);
    assert!(a.reminder_open());
    assert_eq!(a.update(Message::CloseReminder, t), Effect::CloseReminder);
    assert!(!a.reminder_open());
    assert_eq!(a.update(Message::CloseReminder, t), Effect::Nothing);
}

#[test]
fn early_termination_signals_in_pomodoro_only() {
    let mut a = app(false);
    assert_eq!(a.update(Message::EarlyTermination, 0), Effect::SignalTimeOut);
    a.update(Message::ToggleMode, 0);
    assert_eq!(a.update(Message::EarlyTermination, 0), Effect::Nothing);
}

#[test]
fn colours_follow_run_state() {
    let mut a = app(false);
    assert_eq!(*a.text_color(), 1);
    assert_eq!(*a.background_color(), 10);
    a.update(Message::ChangeBackgroundColor, 0);
    assert_eq!(*a.background_color(), 20);
    a.update(Message::Toggle, 0);
    assert_eq!(*a.text_color(), 2);
    assert_eq!(*a.background_color(), 30);
    a.update(Message::ChangeTextColor, 0);
    assert_eq!(*a.text_color(), 1);
    assert_eq!(a.theme().indices(), ColorIndices { stop_text: 0, run_text: 0, stop_background: 1, run_background: 2 });
}

#[test]
fn shutdown_persists_only_with_a_config_file() {
    assert_eq!(app(true).update(Message::Shutdown, 0), Effect::Exit { persist: true });
    assert_eq!(app(false).update(Message::Shutdown, 0), Effect::Exit { persist: false });
    assert_eq!(app(false).update(Message::StartDragging, 0), Effect::DragClock);
}

#[test]
fn target_keys_change_pomodoro_length() {
    let mut a = app(false);
    a.update(Message::IncreasePomodoroDuration, 0);
    assert_eq!(a.timer().pomodoro_target(), 30 * NANOS_PER_MIN);
    a.update(Message::DecreasePomodoroDuration, 0);
    a.update(Message::DecreasePomodoroDuration, 0);
    assert_eq!(a.timer().duration(), 20 * NANOS_PER_MIN);
    a.update(Message::Toggle, 0);
    a.update(Message::Tick(NANOS_PER_MIN), 0);
    a.update(Message::Reset, 0);
    assert_eq!(a.timer().duration(), 20 * NANOS_PER_MIN);
}

#[test]
fn hotkeys_map_to_messages() {
    assert_eq!(hotkey(&KeyInput::Space), Some(Message::Toggle));
    assert_eq!(hotkey(&KeyInput::Escape), Some(Message::Shutdown));
    let ch = |s: &str| hotkey(&KeyInput::Character(s.to_string()));
    assert_eq!(ch("r"), Some(Message::Reset));
    assert_eq!(ch("m"), Some(Message::ToggleMode));
    assert_eq!(ch("["), Some(Message::DecreasePomodoroDuration));
    assert_eq!(ch("]"), Some(Message::IncreasePomodoroDuration));
    assert_eq!(ch("t"), Some(Message::ChangeTextColor));
    assert_eq!(ch("b"), Some(Message::ChangeBackgroundColor));
    assert_eq!(ch("x"), None);
    assert_eq!(ch("rr"), None);
    assert_eq!(hotkey(&KeyInput::Other), None);
}

#[test]
fn gif_path_is_animated_other_paths_still() {
    assert_eq!(picture_kind(&Some("pics/cat.gif".to_string())), Some(PictureKind::Animated));
    assert_eq!(picture_kind(&Some("pics/cat.png".to_string())), Some(PictureKind::Still));
    assert_eq!(picture_kind(&Some("gif".to_string())), Some(PictureKind::Still));
    assert_eq!(picture_kind(&Some("noext".to_string())), Some(PictureKind::Still));
    assert_eq!(picture_kind(&None), None);
    assert_eq!(picture_kind_for_extension(&Some("gif".to_string())), PictureKind::Animated);
    assert_eq!(picture_kind_for_extension(&Some("GIF".to_string())), PictureKind::Still);
    assert_eq!(picture_kind_for_extension(&None), PictureKind::Still);
}

#[test]
fn reminder_falls_back_to_defaults() {
    let r = Reminder::new(&None, None, None, None, None, 5u8);
    assert_eq!(r.text, ":) Time out!!!!!");
    assert_eq!(r.color, 5);
    assert_eq!(r.font_size, DEFAULT_FONT_SIZE);
    assert_eq!(r.font_size, 180);
    assert_eq!(r.width, None);
    let r = Reminder::new(&Some("Break".to_string()), Some(9u8), Some(40), Some(300), Some(200), 5u8);
    assert_eq!(r.text, "Break");
    assert_eq!(r.color, 9);
    assert_eq!(r.font_size, 40);
    assert_eq!(r.width, Some(300));
    assert_eq!(r.height, Some(200));
}

#[test]
fn window_roles_tell_windows_apart() {
    let mut w = WindowRoles::new(1u64);
    assert_eq!(w.role_of(&1), Some(WindowRole::MainClock));
    assert_eq!(w.role_of(&2), None);
    w.set_reminder(2);
    assert_eq!(w.role_of(&2), Some(WindowRole::Reminder));
    assert_eq!(w.take_reminder(), Some(2));
    assert_eq!(w.role_of(&2), None);
    assert_eq!(window_title(Some(WindowRole::MainClock)), "Tomato Clock");
    assert_eq!(window_title(Some(WindowRole::Reminder)), "Time out");
    assert_eq!(window_title(None), "Time out");
}
