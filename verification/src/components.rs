//! Shared component vocabulary: the consumed/not-consumed propagation signal,
//! the scroll direction, and the trait the focusable leaf panes implement.

use vstd::prelude::*;
use crate::inputs::Key;

verus! {

/// The direction of a selection move or a raw scroll.
#[derive(Copy, Clone, PartialEq, Eq, Structural, Debug)]
pub enum ScrollType {
    Up,
    Down,
}

/// Whether a pane's command list blocks those of the panes behind it.
#[derive(Copy, Clone, PartialEq, Eq, Structural, Debug)]
pub enum CommandBlocking {
    Blocking,
    PassingOn,
}

/// The propagation signal an event handler returns: `Consumed` stops the
/// event's handling chain, `NotConsumed` passes it on.
#[derive(Copy, Clone, PartialEq, Eq, Structural, Debug)]
pub enum EventState {
    Consumed,
    NotConsumed,
}

impl EventState {
    pub fn is_consumed(&self) -> (r: bool)
        ensures
            r == (*self is Consumed),
    {
        *self == Self::Consumed
    }
}

impl From<bool> for EventState {
    fn from(consumed: bool) -> (r: Self) {
        if consumed {
            Self::Consumed
        } else {
            Self::NotConsumed
        }
    }
}

impl vstd::std_specs::convert::FromSpecImpl<bool> for EventState {
    open spec fn obeys_from_spec() -> bool {
        true
    }

    open spec fn from_spec(consumed: bool) -> Self {
        if consumed {
            EventState::Consumed
        } else {
            EventState::NotConsumed
        }
    }
}

/// The largest selectable index of a list of `len` records; 0 for an empty
/// list, whose selection is inactive and rests at 0.
pub open spec fn max_selection(len: nat) -> nat {
    if len == 0 {
        0
    } else {
        (len - 1) as nat
    }
}

/// The index one selection move aims at: one step up (stopping at 0) or one
/// step down.
pub open spec fn move_target(sel: nat, d: ScrollType) -> nat {
    match d {
        ScrollType::Up => if sel == 0 {
            0
        } else {
            (sel - 1) as nat
        },
        ScrollType::Down => sel + 1,
    }
}

/// Whether a selection move is carried out at all: a move aiming past the
/// last record is rejected entirely, not clamped.
pub open spec fn move_accepted(len: nat, sel: nat, d: ScrollType) -> bool {
    move_target(sel, d) <= max_selection(len)
}

/// The selection after one move request: the target where the move is
/// accepted, the old selection where it is rejected.
pub open spec fn sel_after(len: nat, sel: nat, d: ScrollType) -> nat {
    if move_accepted(len, sel, d) {
        move_target(sel, d)
    } else {
        sel
    }
}

/// Whether one move request actually changed the selection.
pub open spec fn sel_changed(len: nat, sel: nat, d: ScrollType) -> bool {
    move_accepted(len, sel, d) && move_target(sel, d) != sel
}

/// Law: a Down move with the selection already on the last record leaves the
/// selection unchanged and reports no change, so the event is not consumed.
pub proof fn lemma_down_at_last_rejected(len: nat)
    requires
        len > 0,
    ensures
        sel_after(len, (len - 1) as nat, ScrollType::Down) == len - 1,
        !sel_changed(len, (len - 1) as nat, ScrollType::Down),
{
}

/// Law: an Up move with the selection already on the first record leaves the
/// selection unchanged and reports no change, so the event is not consumed.
pub proof fn lemma_up_at_first_rejected(len: nat)
    ensures
        sel_after(len, 0, ScrollType::Up) == 0,
        !sel_changed(len, 0, ScrollType::Up),
{
}

/// A focusable pane: it can describe its commands, take a key event, and be
/// told whether it holds focus. The minimal leaves implement it; the panes
/// with richer contracts expose their handlers as inherent methods.
pub trait Component {
    fn commands(&self);

    fn event(&mut self, key: Key) -> EventState;

    fn focused(&self) -> bool {
        false
    }

    fn focus(&mut self, _focus: bool) {
    }
}

} // verus!
