//! The search bar: a minimal focusable leaf. It owns no cross-pane state and
//! consumes every key handed to it.

use vstd::prelude::*;
use crate::components::Component;
use crate::components::EventState;
use crate::inputs::Key;
use crate::key_config::KeyConfig;

verus! {

pub struct SearchbarComponent {
    pub key_config: KeyConfig,
}

impl SearchbarComponent {
    pub fn new(key_config: KeyConfig) -> (r: Self)
        ensures
            r.key_config == key_config,
    {
        Self { key_config }
    }
}

impl Component for SearchbarComponent {
    fn commands(&self) {
    }

    fn event(&mut self, key: Key) -> EventState {
        EventState::Consumed
    }
}

} // verus!
