use pdf_inbox::components::ScrollType;
use pdf_inbox::vertical_scroll::VerticalScroll;
use pdf_inbox::vertical_scroll::calc_scroll_top;

#[test]
fn test_scroll_no_scroll_to_top() {
    assert_eq!(calc_scroll_top(1, 10, 4, 4), 0);
}

#[test]
fn test_scroll_zero_height() {
    assert_eq!(calc_scroll_top(4, 0, 4, 3), 0);
}

#[test]
fn content_fits_means_top_zero() {
    // Whenever the count is at most the height, the offset is 0 regardless
    // of the selection and of the previous offset.
    assert_eq!(calc_scroll_top(7, 5, 4, 5), 0);
    assert_eq!(calc_scroll_top(0, 1, 0, 1), 0);
    assert_eq!(calc_scroll_top(3, 10, 9, 10), 0);
}

#[test]
fn selection_below_window_scrolls_down_just_enough() {
    // Selection 4 with height 3 and top 0: the window moves so that the
    // selection lands on the last visible row.
    assert_eq!(calc_scroll_top(0, 3, 4, 5), 2);
    assert_eq!(calc_scroll_top(2, 3, 9, 10), 7);
}

#[test]
fn selection_above_window_scrolls_up_to_it() {
    assert_eq!(calc_scroll_top(5, 3, 2, 10), 2);
    assert_eq!(calc_scroll_top(9, 2, 0, 10), 0);
}

#[test]
fn selection_visible_keeps_top_unchanged() {
    assert_eq!(calc_scroll_top(1, 3, 2, 10), 1);
    assert_eq!(calc_scroll_top(4, 3, 6, 10), 4);
}

#[test]
fn selection_stays_visible_after_update() {
    // For overflowing content, one update puts the selection between top
    // and top + height - 1.
    for selection in 0..10 {
        for current_top in 0..12 {
            let top = calc_scroll_top(current_top, 3, selection, 10);
            assert!(top <= selection);
            assert!(selection <= top + 3 - 1);
        }
    }
}

#[test]
fn update_sets_top_and_max_top() {
    let mut scroll = VerticalScroll::new();
    assert_eq!(scroll.get_top(), 0);
    let top = scroll.update(4, 5, 3);
    assert_eq!(top, 2);
    assert_eq!(scroll.get_top(), 2);
    let top = scroll.update(0, 5, 3);
    assert_eq!(top, 0);
}

#[test]
fn update_with_zero_height_rests_at_top() {
    let mut scroll = VerticalScroll::new();
    let top = scroll.update(4, 9, 0);
    assert_eq!(top, 0);
    // With a zero height the raw scroll has no room either.
    assert!(!scroll.move_top(ScrollType::Down));
}

#[test]
fn reset_returns_to_top() {
    let mut scroll = VerticalScroll::new();
    scroll.update(9, 10, 3);
    assert!(scroll.get_top() > 0);
    scroll.reset();
    assert_eq!(scroll.get_top(), 0);
}

#[test]
fn move_top_pans_and_clamps() {
    let mut scroll = VerticalScroll::new();
    // count 10, height 3: offsets range over [0, 7].
    scroll.update(0, 10, 3);
    assert_eq!(scroll.get_top(), 0);
    // Panning above the first row is rejected.
    assert!(!scroll.move_top(ScrollType::Up));
    assert_eq!(scroll.get_top(), 0);
    assert!(scroll.move_top(ScrollType::Down));
    assert_eq!(scroll.get_top(), 1);
    for _ in 0..10 {
        scroll.move_top(ScrollType::Down);
    }
    // Panning stops at the largest offset.
    assert_eq!(scroll.get_top(), 7);
    assert!(!scroll.move_top(ScrollType::Down));
    assert!(scroll.move_top(ScrollType::Up));
    assert_eq!(scroll.get_top(), 6);
}
