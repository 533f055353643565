//! The pane listing the managed directory's PDFs. It owns its record list,
//! its selection and its viewport exclusively; moves are bounds-safe and a
//! move past either end is rejected, never clamped or wrapped.

use vstd::prelude::*;
use crate::components::EventState;
use crate::components::ScrollType;
use crate::components::sel_after;
use crate::components::sel_changed;
use crate::inputs::Key;
use crate::key_config::KeyConfig;
use crate::pdf_file::PdfFile;
use crate::pdf_file_loader::PdfFileLoader;
use crate::pdf_file_loader::pdf_records_of;
use crate::vertical_scroll::VerticalScroll;
use crate::vertical_scroll::spec_max_top;
use crate::vertical_scroll::spec_scroll_top;

verus! {

pub struct ManagedPdfListComponent {
    pub pdf_files: Vec<PdfFile>,
    pub pdf_file_loader: PdfFileLoader,
    pub selection: usize,
    pub scroll: VerticalScroll,
    pub key_config: KeyConfig,
}

impl ManagedPdfListComponent {
    /// The selection is a real index whenever the list is non-empty, and
    /// rests at 0 while the list is empty.
    pub open spec fn wf(&self) -> bool {
        &&& self.pdf_files@.len() == 0 ==> self.selection == 0
        &&& self.pdf_files@.len() > 0 ==> (self.selection as nat) < self.pdf_files@.len()
    }

    pub fn new(key_config: KeyConfig) -> (r: Self)
        ensures
            r.pdf_files@.len() == 0,
            r.selection == 0,
            r.scroll.top == 0,
            r.scroll.max_top == 0,
            r.key_config == key_config,
            r.wf(),
    {
        Self {
            pdf_files: Vec::new(),
            pdf_file_loader: PdfFileLoader::new(),
            selection: 0,
            scroll: VerticalScroll::new(),
            key_config,
        }
    }

    /// The record the selection rests on.
    pub fn find_selected_file(&self) -> (r: &PdfFile)
        requires
            self.wf(),
            self.pdf_files@.len() > 0,
        ensures
            *r == self.pdf_files@[self.selection as int],
    {
        &self.pdf_files[self.selection]
    }

    /// One directory scan's entries turned into records, in scan order.
    pub fn load_files(&self, entries: Vec<Option<String>>) -> (r: Vec<PdfFile>)
        ensures
            r@ == pdf_records_of(entries@),
    {
        self.pdf_file_loader.load_files(entries)
    }

    /// Replaces the record list wholesale and resets the selection to the
    /// top. The viewport is left alone; the next draw re-derives it.
    pub fn update(&mut self, pdf_files: Vec<PdfFile>)
        ensures
            final(self).pdf_files == pdf_files,
            final(self).selection == 0,
            final(self).scroll == old(self).scroll,
            final(self).key_config == old(self).key_config,
            final(self).wf(),
    {
        self.pdf_files = pdf_files;
        self.selection = 0;
    }

    /// One selection move, per `sel_after`: bounds-safe, and rejected
    /// entirely when it would pass the last record. Reports whether the
    /// selection actually changed.
    pub fn move_selection(&mut self, scroll: ScrollType) -> (changed: bool)
        requires
            old(self).wf(),
        ensures
            final(self).pdf_files == old(self).pdf_files,
            final(self).scroll == old(self).scroll,
            final(self).key_config == old(self).key_config,
            final(self).selection == sel_after(
                old(self).pdf_files@.len(),
                old(self).selection as nat,
                scroll,
            ),
            changed == sel_changed(
                old(self).pdf_files@.len(),
                old(self).selection as nat,
                scroll,
            ),
            final(self).wf(),
    {
        let speed_int: usize = 1;
        let new_selection = match scroll {
            ScrollType::Up => self.selection.saturating_sub(speed_int),
            ScrollType::Down => self.selection.saturating_add(speed_int),
        };
        let selection_max = self.pdf_files.len().saturating_sub(1);
        if selection_max < new_selection {
            return false;
        }
        let new_selection = if new_selection < selection_max {
            new_selection
        } else {
            selection_max
        };
        let needs_update = new_selection != self.selection;
        self.selection = new_selection;
        needs_update
    }

    /// The pane after one key event: a configured scroll key moves the
    /// selection per `sel_after`; any other key leaves the pane untouched.
    pub open spec fn step(self, key: Key) -> Self {
        if key == self.key_config.scroll_down {
            Self {
                selection: sel_after(
                    self.pdf_files@.len(),
                    self.selection as nat,
                    ScrollType::Down,
                ) as usize,
                ..self
            }
        } else if key == self.key_config.scroll_up {
            Self {
                selection: sel_after(
                    self.pdf_files@.len(),
                    self.selection as nat,
                    ScrollType::Up,
                ) as usize,
                ..self
            }
        } else {
            self
        }
    }

    /// Whether the pane consumes a key event: exactly when a configured
    /// scroll key actually changed the selection.
    pub open spec fn consumes(self, key: Key) -> bool {
        if key == self.key_config.scroll_down {
            sel_changed(self.pdf_files@.len(), self.selection as nat, ScrollType::Down)
        } else if key == self.key_config.scroll_up {
            sel_changed(self.pdf_files@.len(), self.selection as nat, ScrollType::Up)
        } else {
            false
        }
    }

    /// Routes a configured scroll key to a selection move; any other key is
    /// passed on untouched.
    pub fn event(&mut self, key: Key) -> (r: EventState)
        requires
            old(self).wf(),
        ensures
            *final(self) == old(self).step(key),
            r == (if old(self).consumes(key) {
                EventState::Consumed
            } else {
                EventState::NotConsumed
            }),
            final(self).wf(),
    {
        let selection_changed = if key == self.key_config.scroll_down {
            self.move_selection(ScrollType::Down)
        } else if key == self.key_config.scroll_up {
            self.move_selection(ScrollType::Up)
        } else {
            false
        };

        match selection_changed {
            true => EventState::Consumed,
            false => EventState::NotConsumed,
        }
    }

    /// The per-draw viewport update: recomputes the scroll offset from the
    /// current selection, record count and display height.
    pub fn update_viewport(&mut self, visible_height: usize) -> (top: usize)
        requires
            old(self).wf(),
        ensures
            final(self).pdf_files == old(self).pdf_files,
            final(self).selection == old(self).selection,
            final(self).key_config == old(self).key_config,
            final(self).wf(),
            final(self).scroll.top == spec_scroll_top(
                old(self).scroll.top as nat,
                visible_height as nat,
                old(self).selection as nat,
                old(self).pdf_files@.len(),
            ),
            final(self).scroll.max_top == spec_max_top(
                old(self).pdf_files@.len(),
                visible_height as nat,
            ),
            top == final(self).scroll.top,
    {
        let count = self.pdf_files.len();
        self.scroll.update(self.selection, count, visible_height)
    }

    /// The record names in list order, for the renderer's item labels.
    pub fn file_names(&self) -> (r: Vec<String>)
        ensures
            r@.len() == self.pdf_files@.len(),
            forall|i: int|
                0 <= i < r@.len() ==> r@[i] == #[trigger] self.pdf_files@[i].file_name,
    {
        let mut names: Vec<String> = Vec::new();
        let n = self.pdf_files.len();
        let mut i: usize = 0;
        while i < n
            invariant
                n == self.pdf_files@.len(),
                i <= n,
                names@.len() == i,
                forall|j: int|
                    0 <= j < i ==> names@[j] == #[trigger] self.pdf_files@[j].file_name,
            decreases n - i,
        {
            names.push(self.pdf_files[i].file_name.clone());
            i = i + 1;
        }
        names
    }
}

} // verus!
