use pdf_inbox::components::EventState;
use pdf_inbox::components::ScrollType;
use pdf_inbox::inputs::Key;
use pdf_inbox::key_config::KeyConfig;
use pdf_inbox::managed_pdf_list::ManagedPdfListComponent;
use pdf_inbox::pdf_file::PdfFile;
use pdf_inbox::unmanaged_pdf_list::UnmanagedPdfListComponent;

fn records(names: &[&str]) -> Vec<PdfFile> {
    let mut files = Vec::new();
    for name in names {
        files.push(PdfFile { file_name: String::from(*name) });
    }
    files
}

fn managed_with(names: &[&str]) -> ManagedPdfListComponent {
    let mut pane = ManagedPdfListComponent::new(KeyConfig::default());
    pane.update(records(names));
    pane
}

#[test]
fn down_at_last_record_is_rejected() {
    let mut pane = managed_with(&["a.pdf", "b.pdf"]);
    assert!(pane.move_selection(ScrollType::Down));
    assert_eq!(pane.selection, 1);
    // At the last record a further Down leaves the selection unchanged and
    // reports no change, so the event is not consumed.
    assert!(!pane.move_selection(ScrollType::Down));
    assert_eq!(pane.selection, 1);
    assert_eq!(pane.event(Key::Char('j')), EventState::NotConsumed);
    assert_eq!(pane.selection, 1);
}

#[test]
fn up_at_first_record_is_rejected() {
    let mut pane = managed_with(&["a.pdf", "b.pdf"]);
    assert_eq!(pane.selection, 0);
    assert!(!pane.move_selection(ScrollType::Up));
    assert_eq!(pane.selection, 0);
    assert_eq!(pane.event(Key::Char('k')), EventState::NotConsumed);
    assert_eq!(pane.selection, 0);
}

#[test]
fn moves_on_empty_list_are_no_ops() {
    let mut pane = managed_with(&[]);
    assert!(!pane.move_selection(ScrollType::Down));
    assert!(!pane.move_selection(ScrollType::Up));
    assert_eq!(pane.selection, 0);
    assert_eq!(pane.event(Key::Char('j')), EventState::NotConsumed);
    assert_eq!(pane.event(Key::Char('k')), EventState::NotConsumed);
    assert_eq!(pane.selection, 0);
}

#[test]
fn five_records_walked_down_and_back() {
    // records A..E, height 3, selection and top at 0: four Down presses put
    // the selection at 4 with the window at 2; four Up presses return both
    // to 0.
    let mut pane = managed_with(&["A.pdf", "B.pdf", "C.pdf", "D.pdf", "E.pdf"]);
    assert_eq!(pane.update_viewport(3), 0);
    for _ in 0..4 {
        assert_eq!(pane.event(Key::Char('j')), EventState::Consumed);
        pane.update_viewport(3);
    }
    assert_eq!(pane.selection, 4);
    assert_eq!(pane.scroll.get_top(), 2);
    for _ in 0..4 {
        assert_eq!(pane.event(Key::Char('k')), EventState::Consumed);
        pane.update_viewport(3);
    }
    assert_eq!(pane.selection, 0);
    assert_eq!(pane.scroll.get_top(), 0);
}

#[test]
fn unmanaged_pane_moves_like_managed() {
    let mut pane = UnmanagedPdfListComponent::new(KeyConfig::default());
    pane.update(records(&["x.pdf", "y.pdf", "z.pdf"]));
    assert_eq!(pane.event(Key::Char('j')), EventState::Consumed);
    assert_eq!(pane.event(Key::Char('j')), EventState::Consumed);
    assert_eq!(pane.selection, 2);
    assert_eq!(pane.event(Key::Char('j')), EventState::NotConsumed);
    assert_eq!(pane.selection, 2);
    assert_eq!(pane.find_selected_file().file_name, "z.pdf");
}

#[test]
fn other_keys_are_passed_on() {
    let mut pane = managed_with(&["a.pdf", "b.pdf"]);
    assert_eq!(pane.event(Key::Char('x')), EventState::NotConsumed);
    assert_eq!(pane.event(Key::Left), EventState::NotConsumed);
    assert_eq!(pane.selection, 0);
}

#[test]
fn update_replaces_records_and_resets_selection() {
    let mut pane = managed_with(&["a.pdf", "b.pdf", "c.pdf"]);
    pane.move_selection(ScrollType::Down);
    assert_eq!(pane.selection, 1);
    pane.update(records(&["d.pdf"]));
    assert_eq!(pane.selection, 0);
    assert_eq!(pane.pdf_files.len(), 1);
    assert_eq!(pane.find_selected_file().file_name, "d.pdf");
}

#[test]
fn file_names_lists_labels_in_order() {
    let pane = managed_with(&["a.pdf", "b.pdf"]);
    let names = pane.file_names();
    assert_eq!(names.len(), 2);
    assert_eq!(names[0], "a.pdf");
    assert_eq!(names[1], "b.pdf");
}
