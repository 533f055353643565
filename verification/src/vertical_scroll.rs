//! Viewport engine for a scrollable list: computes the first visible row
//! (`top`) from the current offset, the display height, the selected index
//! and the number of items, so that the selection is always on screen and the
//! offset never jitters when the selection is already visible.

use vstd::prelude::*;

verus! {

/// The scroll offset a viewport update yields, by the rules:
/// a zero-height viewport shows nothing and rests at the top; content that
/// fits entirely needs no scrolling; a selection below the window pulls the
/// window down just far enough to put it on the last visible row; a selection
/// above the window pulls the window up to put it on the first visible row;
/// a selection already visible leaves the offset untouched.
pub open spec fn spec_scroll_top(
    current_top: nat,
    height_in_lines: nat,
    selection: nat,
    selection_max: nat,
) -> nat {
    if height_in_lines == 0 {
        0
    } else if selection_max <= height_in_lines {
        0
    } else if current_top + height_in_lines <= selection {
        (selection - height_in_lines + 1) as nat
    } else if current_top > selection {
        selection
    } else {
        current_top
    }
}

/// The largest offset that still fills the viewport: one past the last item,
/// minus the height, and never negative. A zero-height viewport pins it to 0.
pub open spec fn spec_max_top(selection_max: nat, height_in_lines: nat) -> nat {
    if height_in_lines == 0 {
        0
    } else if selection_max <= height_in_lines {
        0
    } else {
        (selection_max - height_in_lines) as nat
    }
}

/// Whenever the content fits into a viewport of positive height, the computed
/// offset is 0: no scrolling happens regardless of the selection.
pub proof fn lemma_content_fits_no_scroll(
    current_top: nat,
    height_in_lines: nat,
    selection: nat,
    selection_max: nat,
)
    requires
        height_in_lines > 0,
        selection_max <= height_in_lines,
    ensures
        spec_scroll_top(current_top, height_in_lines, selection, selection_max) == 0,
{
}

/// Whenever the content overflows a viewport of positive height, one update
/// puts the selection on screen: `top <= selection <= top + height - 1`,
/// whatever offset the viewport held before.
pub proof fn lemma_selection_visible(
    current_top: nat,
    height_in_lines: nat,
    selection: nat,
    selection_max: nat,
)
    requires
        height_in_lines > 0,
        selection_max > height_in_lines,
    ensures
        spec_scroll_top(current_top, height_in_lines, selection, selection_max) <= selection,
        selection <= spec_scroll_top(current_top, height_in_lines, selection, selection_max)
            + height_in_lines - 1,
{
}

/// Computes the scroll offset per `spec_scroll_top`. The comparison
/// `current_top + height_in_lines <= selection` is carried out without the
/// addition so that it cannot overflow.
pub fn calc_scroll_top(
    current_top: usize,
    height_in_lines: usize,
    selection: usize,
    selection_max: usize,
) -> (r: usize)
    ensures
        r == spec_scroll_top(
            current_top as nat,
            height_in_lines as nat,
            selection as nat,
            selection_max as nat,
        ),
{
    if height_in_lines == 0 {
        return 0;
    }
    if selection_max <= height_in_lines {
        return 0;
    }

    if height_in_lines <= selection && current_top <= selection - height_in_lines {
        selection - height_in_lines + 1
    } else if current_top > selection {
        selection
    } else {
        current_top
    }
}

/// The persistent viewport state of one list pane: the first visible row and
/// the largest offset the last update allowed. Both are re-derived on every
/// draw; only this type's own methods change them.
pub struct VerticalScroll {
    pub top: usize,
    pub max_top: usize,
}

impl VerticalScroll {
    pub fn new() -> (r: Self)
        ensures
            r.top == 0,
            r.max_top == 0,
    {
        Self { top: 0, max_top: 0 }
    }

    pub fn get_top(&self) -> (r: usize)
        ensures
            r == self.top,
    {
        self.top
    }

    pub fn reset(&mut self)
        ensures
            final(self).top == 0,
            final(self).max_top == old(self).max_top,
    {
        self.top = 0;
    }

    /// Raw scrolling: pans the window one row up or down without moving the
    /// selection, clamped into `[0, max_top]`, and reports whether the offset
    /// actually changed.
    pub fn move_top(&mut self, move_type: crate::components::ScrollType) -> (changed: bool)
        ensures
            final(self).max_top == old(self).max_top,
            final(self).top == (match move_type {
                crate::components::ScrollType::Down => if old(self).top + 1 <= old(self).max_top {
                    old(self).top + 1
                } else {
                    old(self).max_top as int
                },
                crate::components::ScrollType::Up => if old(self).top == 0 {
                    0
                } else if old(self).top - 1 <= old(self).max_top {
                    old(self).top - 1
                } else {
                    old(self).max_top as int
                },
            }),
            changed == (final(self).top != old(self).top),
    {
        let old_top = self.top;
        let max = self.max_top;

        let new_scroll_top: usize = match move_type {
            crate::components::ScrollType::Down => old_top.saturating_add(1),
            crate::components::ScrollType::Up => old_top.saturating_sub(1),
        };

        let new_scroll_top = if new_scroll_top > max {
            max
        } else {
            new_scroll_top
        };
        if new_scroll_top == old_top {
            return false;
        }
        self.top = new_scroll_top;
        true
    }

    /// The selection-driven update a pane runs on every draw: recomputes
    /// `top` per `spec_scroll_top` and `max_top` per `spec_max_top`. When the
    /// old offset lay within the new bounds, so does the new one.
    pub fn update(&mut self, selection: usize, selection_max: usize, visual_height: usize) -> (r:
        usize)
        requires
            selection_max == 0 || selection < selection_max,
        ensures
            final(self).top == spec_scroll_top(
                old(self).top as nat,
                visual_height as nat,
                selection as nat,
                selection_max as nat,
            ),
            final(self).max_top == spec_max_top(selection_max as nat, visual_height as nat),
            r == final(self).top,
            final(self).top <= selection,
            old(self).top <= final(self).max_top ==> final(self).top <= final(self).max_top,
    {
        let new_top = calc_scroll_top(self.get_top(), visual_height, selection, selection_max);
        self.top = new_top;
        if visual_height == 0 {
            self.max_top = 0;
        } else {
            let new_max = selection_max.saturating_sub(visual_height);
            self.max_top = new_max;
        }
        new_top
    }
}

} // verus!
