//! The import modal: an overlay pane that, while visible, addresses one
//! record and exclusively holds focus until dismissed. Opening it again or
//! closing it while closed is a no-op, never an error. The older minimal
//! overlay, kept alongside, holds no state at all.

use vstd::prelude::*;
use crate::components::Component;
use crate::components::EventState;
use crate::inputs::Key;
use crate::key_config::KeyConfig;
use crate::pdf_file::PdfFile;

verus! {

/// The modal's state: a visibility flag and, while visible, the record it is
/// addressed to.
pub struct PdfImportPopupComponent {
    pub key_config: KeyConfig,
    pub visible: bool,
    pub record: Option<PdfFile>,
}

impl PdfImportPopupComponent {
    /// The modal addresses a record exactly while it is visible.
    pub open spec fn wf(&self) -> bool {
        self.visible <==> self.record is Some
    }

    pub fn new(key_config: KeyConfig) -> (r: Self)
        ensures
            r.key_config == key_config,
            !r.visible,
            r.record is None,
    {
        Self { key_config, visible: false, record: None }
    }

    /// Opens the modal addressed to `record`. Opening an already-open modal
    /// is a no-op: the record it addresses does not change.
    pub fn open(&mut self, record: PdfFile)
        ensures
            final(self).key_config == old(self).key_config,
            final(self).visible,
            old(self).visible ==> final(self).record == old(self).record,
            !old(self).visible ==> final(self).record == Some(record),
    {
        if !self.visible {
            self.visible = true;
            self.record = Some(record);
        }
    }

    /// Closes the modal and drops the record it addressed. Closing an
    /// already-closed modal is a no-op.
    pub fn close(&mut self)
        ensures
            final(self).key_config == old(self).key_config,
            !final(self).visible,
            old(self).visible ==> final(self).record is None,
            !old(self).visible ==> final(self).record == old(self).record,
    {
        if self.visible {
            self.visible = false;
            self.record = None;
        }
    }
}

impl Component for PdfImportPopupComponent {
    fn commands(&self) {
    }

    fn event(&mut self, key: Key) -> EventState {
        EventState::NotConsumed
    }
}

/// The older overlay shell: no state of its own, and it passes every key on.
pub struct PdfImportPopup {
}

impl PdfImportPopup {
    pub fn new() -> (r: Self) {
        Self {  }
    }

    pub fn open(&mut self)
        ensures
            *final(self) == *old(self),
    {
    }
}

impl Component for PdfImportPopup {
    fn commands(&self) {
    }

    fn event(&mut self, key: Key) -> EventState {
        EventState::NotConsumed
    }
}

} // verus!
