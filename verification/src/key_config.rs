//! The configurable key bindings: which physical key drives each logical
//! action. The structural keys (Tab, Esc, `/`) are hard-wired elsewhere and
//! not remappable.

use vstd::prelude::*;
use crate::inputs::Key;

verus! {

/// One binding per logical action.
#[derive(Copy, Clone, PartialEq, Eq, Structural, Debug)]
pub struct KeyConfig {
    pub focus_left: Key,
    pub focus_right: Key,
    pub focus_up: Key,
    pub focus_down: Key,
    pub scroll_up: Key,
    pub scroll_down: Key,
    pub enter: Key,
    pub exit: Key,
    pub quit: Key,
}

impl Default for KeyConfig {
    /// The stock bindings: arrows move focus, `k`/`j` scroll, `Ctrl-c` and
    /// `q` leave.
    fn default() -> (r: Self)
        ensures
            r == (KeyConfig {
                focus_left: Key::Left,
                focus_right: Key::Right,
                focus_up: Key::Up,
                focus_down: Key::Down,
                scroll_up: Key::Char('k'),
                scroll_down: Key::Char('j'),
                enter: Key::Enter,
                exit: Key::Ctrl('c'),
                quit: Key::Char('q'),
            }),
    {
        Self {
            focus_left: Key::Left,
            focus_right: Key::Right,
            focus_up: Key::Up,
            focus_down: Key::Down,
            scroll_up: Key::Char('k'),
            scroll_down: Key::Char('j'),
            enter: Key::Enter,
            exit: Key::Ctrl('c'),
            quit: Key::Char('q'),
        }
    }
}

} // verus!
