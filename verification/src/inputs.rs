//! The logical key events the interface works on. The terminal driver maps
//! physical key presses to this type before anything here sees them.

use vstd::prelude::*;
use vstd::string::StringExecFns;

verus! {

/// One logical key press.
#[derive(Copy, Clone, PartialEq, Eq, Structural, Debug)]
pub enum Key {
    Enter,
    Esc,
    Tab,
    Backspace,
    Left,
    Right,
    Up,
    Down,
    Char(char),
    Ctrl(char),
    Alt(char),
    Unknown,
}

/// A short fixed name for each key variant, used when command help text is
/// assembled.
pub open spec fn key_label_view(k: Key) -> Seq<char> {
    match k {
        Key::Enter => "Enter"@,
        Key::Esc => "Esc"@,
        Key::Tab => "Tab"@,
        Key::Backspace => "Backspace"@,
        Key::Left => "Left"@,
        Key::Right => "Right"@,
        Key::Up => "Up"@,
        Key::Down => "Down"@,
        Key::Char(_) => "char"@,
        Key::Ctrl(_) => "ctrl"@,
        Key::Alt(_) => "alt"@,
        Key::Unknown => "unknown"@,
    }
}

impl Key {
    /// The key's fixed display name.
    pub fn label(&self) -> (r: String)
        ensures
            r@ == key_label_view(*self),
    {
        match self {
            Key::Enter => String::from_str("Enter"),
            Key::Esc => String::from_str("Esc"),
            Key::Tab => String::from_str("Tab"),
            Key::Backspace => String::from_str("Backspace"),
            Key::Left => String::from_str("Left"),
            Key::Right => String::from_str("Right"),
            Key::Up => String::from_str("Up"),
            Key::Down => String::from_str("Down"),
            Key::Char(_) => String::from_str("char"),
            Key::Ctrl(_) => String::from_str("ctrl"),
            Key::Alt(_) => String::from_str("alt"),
            Key::Unknown => String::from_str("unknown"),
        }
    }
}

/// What one turn of the input loop delivers: a key press, or a tick when the
/// poll timed out with nothing pressed.
pub enum InputEvent {
    Input(Key),
    Tick,
}

} // verus!
