//! The reduced binding set the interface actually dispatches on: scrolling,
//! enter, and the two ways to leave.

use vstd::prelude::*;
use crate::inputs::Key;

verus! {

/// One binding per dispatched action.
#[derive(Copy, Clone, PartialEq, Eq, Structural, Debug)]
pub struct KeyConfig {
    pub scroll_up: Key,
    pub scroll_down: Key,
    pub enter: Key,
    pub exit: Key,
    pub quit: Key,
}

} // verus!
