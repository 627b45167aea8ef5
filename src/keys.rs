//! Keyboard shortcuts of the clock window.
use vstd::prelude::*;
use crate::clock::Message;

verus! {

/// A pressed key, as far as the shortcuts tell keys apart.
#[derive(Debug)]
pub enum KeyInput {
    Space,
    Escape,
    /// A key that types the given text.
    Character(String),
    Other,
}

/// The event a key press stands for, if any.
pub open spec fn hotkey_of(key: KeyInput) -> Option<Message> {
    match key {
        KeyInput::Space => Some(Message::Toggle),
        KeyInput::Escape => Some(Message::Shutdown),
        KeyInput::Character(s) => if s@ == "r"@ {
            Some(Message::Reset)
        } else if s@ == "m"@ {
            Some(Message::ToggleMode)
        } else if s@ == "["@ {
            Some(Message::DecreasePomodoroDuration)
        } else if s@ == "]"@ {
            Some(Message::IncreasePomodoroDuration)
        } else if s@ == "t"@ {
            Some(Message::ChangeTextColor)
        } else if s@ == "b"@ {
            Some(Message::ChangeBackgroundColor)
        } else {
            None
        },
        KeyInput::Other => None,
    }
}

/// Maps a key press to its event: space starts or pauses, escape quits,
/// `r` resets, `m` switches mode, `[` and `]` shorten and lengthen the
/// Pomodoro, `t` and `b` cycle the text and background colours.
pub fn hotkey(key: &KeyInput) -> (r: Option<Message>)
    ensures
        r == hotkey_of(*key),
{
    match key {
        KeyInput::Space => Some(Message::Toggle),
        KeyInput::Escape => Some(Message::Shutdown),
        KeyInput::Character(s) => {
            if *s == "r".to_owned() {
                Some(Message::Reset)
            } else if *s == "m".to_owned() {
                Some(Message::ToggleMode)
            } else if *s == "[".to_owned() {
                Some(Message::DecreasePomodoroDuration)
            } else if *s == "]".to_owned() {
                Some(Message::IncreasePomodoroDuration)
            } else if *s == "t".to_owned() {
                Some(Message::ChangeTextColor)
            } else if *s == "b".to_owned() {
                Some(Message::ChangeBackgroundColor)
            } else {
                None
            }
        },
        KeyInput::Other => None,
    }
}

} // verus!
