//! The inbox container: it owns the panes and the single authoritative focus
//! value, and routes every key event. While the import modal is open it alone
//! receives keys; otherwise the structural keys (Tab, Esc, `/`, Enter) are
//! intercepted here, and anything else is forwarded to the focused pane by
//! the caller. Focus is mutated here and nowhere else.

use vstd::prelude::*;
use crate::components::EventState;
use crate::inputs::Key;
use crate::key_config::KeyConfig;
use crate::managed_pdf_list::ManagedPdfListComponent;
use crate::pdf_detail::PdfDetailComponent;
use crate::pdf_file::PdfFile;
use crate::pdf_import_popup::PdfImportPopupComponent;
use crate::searchbar::SearchbarComponent;
use crate::unmanaged_pdf_list::UnmanagedPdfListComponent;

verus! {

/// The pane identifiers the focus value ranges over: exactly one is current
/// at any time.
#[derive(Copy, Clone, PartialEq, Eq, Structural, Debug)]
pub enum InboxFocus {
    Searchbar,
    ManagedPdfList,
    UnmanagedPdfList,
    ImportPopup,
}

/// Where Tab moves the focus: a cycle over the search bar and the two lists.
/// The modal is not part of the cycle; while it is open, Tab is swallowed.
pub open spec fn tab_next(f: InboxFocus) -> InboxFocus {
    match f {
        InboxFocus::Searchbar => InboxFocus::ManagedPdfList,
        InboxFocus::ManagedPdfList => InboxFocus::UnmanagedPdfList,
        InboxFocus::UnmanagedPdfList => InboxFocus::Searchbar,
        InboxFocus::ImportPopup => InboxFocus::ImportPopup,
    }
}

/// Law: three Tab presses return the focus to the pane it started on, for
/// every pane of the cycle.
pub proof fn lemma_tab_three_cycle(f: InboxFocus)
    requires
        f != InboxFocus::ImportPopup,
    ensures
        tab_next(tab_next(tab_next(f))) == f,
{
}

/// The router's transition, first match wins. While the modal is open, only
/// Esc does anything: it closes the modal and forces focus back to the
/// managed list, whichever pane opened it. While it is closed: Enter on a
/// non-empty list pane opens the modal addressed to that pane's selected
/// record, `/` forces focus to the search bar, and Tab advances the focus
/// cycle. Every other key, and Enter on an empty list, changes nothing.
pub open spec fn inbox_step(s: InboxComponent, key: Key) -> InboxComponent {
    if s.show_import_popup {
        if key == Key::Esc {
            InboxComponent {
                pdf_import_popup: PdfImportPopupComponent {
                    key_config: s.pdf_import_popup.key_config,
                    visible: false,
                    record: None,
                },
                focus: InboxFocus::ManagedPdfList,
                show_import_popup: false,
                ..s
            }
        } else {
            s
        }
    } else if key == Key::Enter {
        if s.focus == InboxFocus::ManagedPdfList && s.managed_pdf_list.pdf_files@.len() > 0 {
            InboxComponent {
                pdf_import_popup: PdfImportPopupComponent {
                    key_config: s.pdf_import_popup.key_config,
                    visible: true,
                    record: Some(
                        s.managed_pdf_list.pdf_files@[s.managed_pdf_list.selection as int],
                    ),
                },
                focus: InboxFocus::ImportPopup,
                show_import_popup: true,
                ..s
            }
        } else if s.focus == InboxFocus::UnmanagedPdfList
            && s.unmanaged_pdf_list.pdf_files@.len() > 0 {
            InboxComponent {
                pdf_import_popup: PdfImportPopupComponent {
                    key_config: s.pdf_import_popup.key_config,
                    visible: true,
                    record: Some(
                        s.unmanaged_pdf_list.pdf_files@[s.unmanaged_pdf_list.selection as int],
                    ),
                },
                focus: InboxFocus::ImportPopup,
                show_import_popup: true,
                ..s
            }
        } else {
            s
        }
    } else if key == Key::Char('/') {
        InboxComponent { focus: InboxFocus::Searchbar, ..s }
    } else if key == Key::Tab {
        InboxComponent { focus: tab_next(s.focus), ..s }
    } else {
        s
    }
}

/// Whether the router consumes a key. While the modal is open every key is
/// swallowed. While it is closed, the structural keys are consumed when they
/// do something: Enter only on a non-empty list pane, `/` and Tab always.
pub open spec fn inbox_consumes(s: InboxComponent, key: Key) -> bool {
    if s.show_import_popup {
        true
    } else if key == Key::Enter {
        ||| s.focus == InboxFocus::ManagedPdfList && s.managed_pdf_list.pdf_files@.len() > 0
        ||| s.focus == InboxFocus::UnmanagedPdfList && s.unmanaged_pdf_list.pdf_files@.len() > 0
    } else {
        key == Key::Char('/') || key == Key::Tab
    }
}

/// Law: while the modal is closed, three Tab events return the router to
/// the focus it started from, and each of them is consumed.
pub proof fn lemma_router_tab_three_cycle(s: InboxComponent)
    requires
        !s.show_import_popup,
    ensures
        inbox_step(inbox_step(inbox_step(s, Key::Tab), Key::Tab), Key::Tab).focus == s.focus,
        inbox_consumes(s, Key::Tab),
{
}

pub struct InboxComponent {
    pub searchbar: SearchbarComponent,
    pub managed_pdf_list: ManagedPdfListComponent,
    pub unmanaged_pdf_list: UnmanagedPdfListComponent,
    pub pdf_detail: PdfDetailComponent,
    pub pdf_import_popup: PdfImportPopupComponent,
    pub focus: InboxFocus,
    pub show_import_popup: bool,
    pub key_config: KeyConfig,
}

impl InboxComponent {
    /// Both lists are well formed, and the three views of the modal agree:
    /// the flag here, the focus value, and the modal's own visibility.
    pub open spec fn wf(&self) -> bool {
        &&& self.managed_pdf_list.wf()
        &&& self.unmanaged_pdf_list.wf()
        &&& self.pdf_import_popup.wf()
        &&& self.show_import_popup <==> self.focus is ImportPopup
        &&& self.show_import_popup <==> self.pdf_import_popup.visible
    }

    pub fn new(key_config: KeyConfig) -> (r: Self)
        ensures
            r.managed_pdf_list.pdf_files@.len() == 0,
            r.unmanaged_pdf_list.pdf_files@.len() == 0,
            r.focus == InboxFocus::ManagedPdfList,
            !r.show_import_popup,
            r.key_config == key_config,
            r.wf(),
    {
        Self {
            searchbar: SearchbarComponent::new(key_config),
            managed_pdf_list: ManagedPdfListComponent::new(key_config),
            unmanaged_pdf_list: UnmanagedPdfListComponent::new(key_config),
            pdf_detail: PdfDetailComponent::new(key_config),
            pdf_import_popup: PdfImportPopupComponent::new(key_config),
            focus: InboxFocus::ManagedPdfList,
            show_import_popup: false,
            key_config,
        }
    }

    /// Applies the outcome of one reload of each directory. A successful scan
    /// replaces that pane's records wholesale and resets its selection; a
    /// failed scan (`None`) keeps the pane's previous records untouched, so
    /// the next reload can try again.
    pub fn update(&mut self, managed: Option<Vec<PdfFile>>, unmanaged: Option<Vec<PdfFile>>)
        requires
            old(self).wf(),
        ensures
            final(self).searchbar == old(self).searchbar,
            final(self).pdf_detail == old(self).pdf_detail,
            final(self).pdf_import_popup == old(self).pdf_import_popup,
            final(self).focus == old(self).focus,
            final(self).show_import_popup == old(self).show_import_popup,
            final(self).key_config == old(self).key_config,
            managed matches Some(files) ==> final(self).managed_pdf_list.pdf_files == files
                && final(self).managed_pdf_list.selection == 0
                && final(self).managed_pdf_list.scroll == old(self).managed_pdf_list.scroll
                && final(self).managed_pdf_list.key_config == old(self).managed_pdf_list.key_config,
            managed is None ==> final(self).managed_pdf_list == old(self).managed_pdf_list,
            unmanaged matches Some(files) ==> final(self).unmanaged_pdf_list.pdf_files == files
                && final(self).unmanaged_pdf_list.selection == 0
                && final(self).unmanaged_pdf_list.scroll == old(self).unmanaged_pdf_list.scroll
                && final(self).unmanaged_pdf_list.key_config == old(
                self,
            ).unmanaged_pdf_list.key_config,
            unmanaged is None ==> final(self).unmanaged_pdf_list == old(self).unmanaged_pdf_list,
            final(self).wf(),
    {
        match managed {
            Some(files) => self.managed_pdf_list.update(files),
            None => {},
        }
        match unmanaged {
            Some(files) => self.unmanaged_pdf_list.update(files),
            None => {},
        }
    }

    /// Whether a pane holds the focus, for the renderer's emphasis flag:
    /// the pane's identity compared against the current focus value.
    pub fn pane_focused(&self, pane: InboxFocus) -> (r: bool)
        ensures
            r == (self.focus == pane),
    {
        self.focus == pane
    }

    /// The focus router's own step, first match wins. While the modal is
    /// open: Esc closes it and forces focus back to the managed list, every
    /// other key is swallowed. While it is closed: Tab advances the focus
    /// cycle, `/` forces focus to the search bar, and Enter on a non-empty
    /// list pane opens the modal addressed to that pane's selected record
    /// (on an empty list it is a silent no-op, passed on). Anything else is
    /// passed on untouched. The record lists themselves are never changed
    /// here.
    pub fn event(&mut self, key: Key) -> (r: EventState)
        requires
            old(self).wf(),
        ensures
            *final(self) == inbox_step(*old(self), key),
            r == (if inbox_consumes(*old(self), key) {
                EventState::Consumed
            } else {
                EventState::NotConsumed
            }),
            final(self).wf(),
    {
        if self.show_import_popup {
            // The modal holds focus exclusively: Esc dismisses it, every
            // other key is swallowed here and reaches no pane behind it.
            if key == Key::Esc {
                self.pdf_import_popup.close();
                self.show_import_popup = false;
                self.focus = InboxFocus::ManagedPdfList;
            }
            return EventState::Consumed;
        }

        match key {
            Key::Enter => {
                match self.focus {
                    InboxFocus::ManagedPdfList => {
                        if self.managed_pdf_list.pdf_files.len() > 0 {
                            let record = self.managed_pdf_list.find_selected_file().clone();
                            self.pdf_import_popup.open(record);
                            self.show_import_popup = true;
                            self.focus = InboxFocus::ImportPopup;
                            return EventState::Consumed;
                        }
                        // An Enter on an empty list is a silent no-op.
                        EventState::NotConsumed
                    },
                    InboxFocus::UnmanagedPdfList => {
                        if self.unmanaged_pdf_list.pdf_files.len() > 0 {
                            let record = self.unmanaged_pdf_list.find_selected_file().clone();
                            self.pdf_import_popup.open(record);
                            self.show_import_popup = true;
                            self.focus = InboxFocus::ImportPopup;
                            return EventState::Consumed;
                        }
                        EventState::NotConsumed
                    },
                    _ => EventState::NotConsumed,
                }
            },
            Key::Esc => EventState::NotConsumed,
            Key::Char(c) => {
                if c == '/' {
                    self.focus = InboxFocus::Searchbar;
                    EventState::Consumed
                } else {
                    EventState::NotConsumed
                }
            },
            Key::Tab => {
                self.focus = match self.focus {
                    InboxFocus::Searchbar => InboxFocus::ManagedPdfList,
                    InboxFocus::ManagedPdfList => InboxFocus::UnmanagedPdfList,
                    InboxFocus::UnmanagedPdfList => InboxFocus::Searchbar,
                    InboxFocus::ImportPopup => InboxFocus::ImportPopup,
                };
                EventState::Consumed
            },
            _ => EventState::NotConsumed,
        }
    }
}

} // verus!
