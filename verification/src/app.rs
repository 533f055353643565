//! The root of the pane tree. It receives every key event first, checks the
//! hard-wired quit and exit bindings, then hands the event to the inbox
//! router and, where the router passes it on, to the pane holding focus.
//! Termination is observed by the caller polling `is_quit` after each
//! dispatch; a reload of the record lists is requested the same way, through
//! `pending_reload`, and its outcome handed back to `update_inbox_list`.

use vstd::prelude::*;
use crate::components::EventState;
use crate::inbox::InboxComponent;
use crate::inbox::InboxFocus;
use crate::inbox::inbox_consumes;
use crate::inbox::inbox_step;
use crate::inputs::Key;
use crate::key_config::KeyConfig;
use crate::pdf_file::PdfFile;

verus! {

/// What the caller's loop does after one event: keep going or leave.
#[derive(Copy, Clone, PartialEq, Eq, Structural, Debug)]
pub enum AppReturn {
    Exit,
    Continue,
}

/// The screens the root can focus. The inbox is the only one so far; a new
/// screen would add a variant here and a field on `App`.
#[derive(Copy, Clone, PartialEq, Eq, Structural, Debug)]
pub enum Focus {
    Inbox,
}

pub struct App {
    pub inbox: InboxComponent,
    pub focus: Focus,
    pub key_config: KeyConfig,
    pub do_quit: bool,
    pub pending_reload: bool,
}

impl App {
    pub open spec fn wf(&self) -> bool {
        self.inbox.wf()
    }

    pub fn new(key_config: KeyConfig) -> (r: Self)
        ensures
            r.inbox.managed_pdf_list.pdf_files@.len() == 0,
            r.inbox.unmanaged_pdf_list.pdf_files@.len() == 0,
            r.inbox.focus == InboxFocus::ManagedPdfList,
            !r.inbox.show_import_popup,
            r.inbox.key_config == key_config,
            r.focus == Focus::Inbox,
            r.key_config == key_config,
            !r.do_quit,
            !r.pending_reload,
            r.wf(),
    {
        Self {
            inbox: InboxComponent::new(key_config),
            focus: Focus::Inbox,
            key_config,
            do_quit: false,
            pending_reload: false,
        }
    }

    /// Marks the app as terminating when the key is the configured quit or
    /// exit binding, and says whether it was.
    fn check_quit(&mut self, key: Key) -> (quit: bool)
        ensures
            quit == (key == old(self).key_config.quit || key == old(self).key_config.exit),
            final(self).do_quit == (old(self).do_quit || quit),
            final(self).inbox == old(self).inbox,
            final(self).focus == old(self).focus,
            final(self).key_config == old(self).key_config,
            final(self).pending_reload == old(self).pending_reload,
    {
        if key == self.key_config.quit || key == self.key_config.exit {
            self.do_quit = true;
            return true;
        }
        false
    }

    /// Whether a quit or exit binding has been seen; the caller polls this
    /// after every dispatch.
    pub fn is_quit(&self) -> (quit: bool)
        ensures
            quit == self.do_quit,
    {
        self.do_quit
    }

    /// Whether a reload of the record lists has been requested and not yet
    /// applied; the caller polls this after every dispatch, runs the scans,
    /// and hands their outcome to `update_inbox_list`.
    pub fn is_reload_pending(&self) -> (pending: bool)
        ensures
            pending == self.pending_reload,
    {
        self.pending_reload
    }

    /// Handles focus across screens. With the inbox as the only screen it
    /// focuses the inbox and consumes the event.
    pub fn focus_inbox(&mut self, key: Key) -> (r: EventState)
        ensures
            *final(self) == (App { focus: Focus::Inbox, ..*old(self) }),
            r == EventState::Consumed,
    {
        self.focus = Focus::Inbox;
        EventState::Consumed
    }

    /// Handles focus inside the inbox: a key the router passed on goes to
    /// the pane holding focus. The list panes take it as a selection move;
    /// for any other pane the router itself is asked once more and its
    /// answer returned unchanged.
    pub fn focus_components(&mut self, key: Key) -> (r: EventState)
        requires
            old(self).wf(),
        ensures
            final(self).focus == old(self).focus,
            final(self).key_config == old(self).key_config,
            final(self).do_quit == old(self).do_quit,
            final(self).pending_reload == old(self).pending_reload,
            final(self).wf(),
            old(self).inbox.focus == InboxFocus::ManagedPdfList ==> final(self).inbox == (
            InboxComponent {
                managed_pdf_list: old(self).inbox.managed_pdf_list.step(key),
                ..old(self).inbox
            }) && r == (if old(self).inbox.managed_pdf_list.consumes(key) {
                EventState::Consumed
            } else {
                EventState::NotConsumed
            }),
            old(self).inbox.focus == InboxFocus::UnmanagedPdfList ==> final(self).inbox == (
            InboxComponent {
                unmanaged_pdf_list: old(self).inbox.unmanaged_pdf_list.step(key),
                ..old(self).inbox
            }) && r == (if old(self).inbox.unmanaged_pdf_list.consumes(key) {
                EventState::Consumed
            } else {
                EventState::NotConsumed
            }),
            old(self).inbox.focus == InboxFocus::Searchbar || old(self).inbox.focus
                == InboxFocus::ImportPopup ==> final(self).inbox == inbox_step(
                old(self).inbox,
                key,
            ) && r == (if inbox_consumes(old(self).inbox, key) {
                EventState::Consumed
            } else {
                EventState::NotConsumed
            }),
    {
        match self.inbox.focus {
            InboxFocus::ManagedPdfList => {
                let state = self.inbox.managed_pdf_list.event(key);
                return state;
            },
            InboxFocus::UnmanagedPdfList => {
                let state = self.inbox.unmanaged_pdf_list.event(key);
                return state;
            },
            InboxFocus::Searchbar => {},
            InboxFocus::ImportPopup => {},
        }
        if self.inbox.event(key).is_consumed() {
            return EventState::Consumed;
        }
        EventState::NotConsumed
    }

    /// Applies the outcome of the requested reload and clears the request.
    /// A pane whose scan succeeded gets its records replaced and its
    /// selection reset; a pane whose scan failed keeps what it had.
    pub fn update_inbox_list(
        &mut self,
        managed: Option<Vec<PdfFile>>,
        unmanaged: Option<Vec<PdfFile>>,
    )
        requires
            old(self).wf(),
        ensures
            final(self).focus == old(self).focus,
            final(self).key_config == old(self).key_config,
            final(self).do_quit == old(self).do_quit,
            !final(self).pending_reload,
            final(self).inbox.searchbar == old(self).inbox.searchbar,
            final(self).inbox.pdf_detail == old(self).inbox.pdf_detail,
            final(self).inbox.pdf_import_popup == old(self).inbox.pdf_import_popup,
            final(self).inbox.focus == old(self).inbox.focus,
            final(self).inbox.show_import_popup == old(self).inbox.show_import_popup,
            final(self).inbox.key_config == old(self).inbox.key_config,
            managed matches Some(files) ==> final(self).inbox.managed_pdf_list.pdf_files == files
                && final(self).inbox.managed_pdf_list.selection == 0,
            managed is None ==> final(self).inbox.managed_pdf_list == old(
                self,
            ).inbox.managed_pdf_list,
            unmanaged matches Some(files) ==> final(self).inbox.unmanaged_pdf_list.pdf_files
                == files && final(self).inbox.unmanaged_pdf_list.selection == 0,
            unmanaged is None ==> final(self).inbox.unmanaged_pdf_list == old(
                self,
            ).inbox.unmanaged_pdf_list,
            final(self).wf(),
    {
        self.inbox.update(managed, unmanaged);
        self.pending_reload = false;
    }

    /// Hands one event to the inbox: the router steps first; a configured
    /// enter binding additionally requests a reload and consumes the event.
    pub fn components_event(&mut self, key: Key) -> (r: EventState)
        requires
            old(self).wf(),
        ensures
            final(self).inbox == inbox_step(old(self).inbox, key),
            final(self).focus == old(self).focus,
            final(self).key_config == old(self).key_config,
            final(self).do_quit == old(self).do_quit,
            final(self).pending_reload == (old(self).pending_reload || key == old(
                self,
            ).key_config.enter),
            r == (if key == old(self).key_config.enter || inbox_consumes(old(self).inbox, key) {
                EventState::Consumed
            } else {
                EventState::NotConsumed
            }),
            final(self).wf(),
    {
        let state = self.inbox.event(key);
        if key == self.key_config.enter {
            self.pending_reload = true;
            return EventState::Consumed;
        }
        state
    }

    /// One full dispatch, in order, first match wins: the quit and exit
    /// bindings mark the app terminating and are reported unhandled; the
    /// inbox router steps and an enter binding requests a reload; a key the
    /// router passed on goes to the pane holding focus; whatever is left
    /// falls back to focusing the inbox. Every key but quit and exit is
    /// consumed.
    pub fn event(&mut self, key: Key) -> (r: EventState)
        requires
            old(self).wf(),
        ensures
            final(self).focus == old(self).focus,
            final(self).key_config == old(self).key_config,
            final(self).wf(),
            (key == old(self).key_config.quit || key == old(self).key_config.exit) ==> {
                &&& final(self).do_quit
                &&& final(self).inbox == old(self).inbox
                &&& final(self).pending_reload == old(self).pending_reload
                &&& r == EventState::NotConsumed
            },
            !(key == old(self).key_config.quit || key == old(self).key_config.exit) ==> {
                &&& final(self).do_quit == old(self).do_quit
                &&& final(self).pending_reload == (old(self).pending_reload || key == old(
                    self,
                ).key_config.enter)
                &&& r == EventState::Consumed
                &&& final(self).inbox == (if key == old(self).key_config.enter || inbox_consumes(
                    old(self).inbox,
                    key,
                ) {
                    inbox_step(old(self).inbox, key)
                } else if old(self).inbox.focus == InboxFocus::ManagedPdfList {
                    (InboxComponent {
                        managed_pdf_list: old(self).inbox.managed_pdf_list.step(key),
                        ..old(self).inbox
                    })
                } else if old(self).inbox.focus == InboxFocus::UnmanagedPdfList {
                    (InboxComponent {
                        unmanaged_pdf_list: old(self).inbox.unmanaged_pdf_list.step(key),
                        ..old(self).inbox
                    })
                } else {
                    old(self).inbox
                })
            },
    {
        if self.check_quit(key) {
            return EventState::NotConsumed;
        }

        if self.components_event(key).is_consumed() {
            return EventState::Consumed;
        }

        if self.focus_components(key).is_consumed() {
            return EventState::Consumed;
        }

        if self.focus_inbox(key).is_consumed() {
            return EventState::Consumed;
        }
        EventState::NotConsumed
    }
}

} // verus!
