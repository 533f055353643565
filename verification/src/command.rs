//! Help-line texts for the commands the interface offers, grouped by the part
//! of the interface they belong to.

use vstd::prelude::*;
use vstd::string::StringExecFns;
use crate::key_config::KeyConfig;
use crate::inputs::key_label_view;

verus! {

/// One command's help text and the group it is shown under.
#[derive(Clone, PartialEq, PartialOrd, Ord, Eq)]
pub struct CommandText {
    pub name: String,
    pub group: &'static str,
}

impl CommandText {
    pub fn new(name: String, group: &'static str) -> (r: Self)
        ensures
            r.name == name,
            r.group == group,
    {
        Self { name, group }
    }
}

/// A command entry of the help line.
pub struct CommandInfo {
    pub text: CommandText,
}

impl CommandInfo {
    pub fn new(text: CommandText) -> (r: Self)
        ensures
            r.text == text,
    {
        Self { text }
    }
}

/// The help text for scrolling, under the general group.
pub fn scroll(key: &KeyConfig) -> (r: CommandText)
    ensures
        r.name@ == "Scroll up/down [up,down]"@,
        r.group@ == "-- General --"@,
{
    CommandText::new(String::from_str("Scroll up/down [up,down]"), "-- General --")
}

/// The help text for moving focus, naming the four configured focus keys,
/// under the inbox group.
pub fn move_focus(key: &KeyConfig) -> (r: CommandText)
    ensures
        r.name@ == "Move focus to up/down/left/right ["@ + key_label_view(key.focus_up) + ","@
            + key_label_view(key.focus_down) + ","@ + key_label_view(key.focus_left) + ","@
            + key_label_view(key.focus_right) + "]"@,
        r.group@ == "-- Inbox --"@,
{
    let mut name = String::from_str("Move focus to up/down/left/right [");
    name.append(key.focus_up.label().as_str());
    name.append(",");
    name.append(key.focus_down.label().as_str());
    name.append(",");
    name.append(key.focus_left.label().as_str());
    name.append(",");
    name.append(key.focus_right.label().as_str());
    name.append("]");
    CommandText::new(name, "-- Inbox --")
}

/// The help text for opening the selected record, under the inbox group.
pub fn open_pdf(key: &KeyConfig) -> (r: CommandText)
    ensures
        r.name@ == "Open []"@,
        r.group@ == "-- Inbox --"@,
{
    CommandText::new(String::from_str("Open []"), "-- Inbox --")
}

} // verus!
