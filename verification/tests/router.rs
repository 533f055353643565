use pdf_inbox::app::App;
use pdf_inbox::components::EventState;
use pdf_inbox::inbox::InboxComponent;
use pdf_inbox::inbox::InboxFocus;
use pdf_inbox::inputs::Key;
use pdf_inbox::key_config::KeyConfig;
use pdf_inbox::pdf_file::PdfFile;

fn records(names: &[&str]) -> Vec<PdfFile> {
    let mut files = Vec::new();
    for name in names {
        files.push(PdfFile { file_name: String::from(*name) });
    }
    files
}

fn inbox_with(managed: &[&str], unmanaged: &[&str]) -> InboxComponent {
    let mut inbox = InboxComponent::new(KeyConfig::default());
    inbox.update(Some(records(managed)), Some(records(unmanaged)));
    inbox
}

#[test]
fn tab_cycles_through_the_three_panes() {
    let mut inbox = inbox_with(&["a.pdf"], &["b.pdf"]);
    assert_eq!(inbox.focus, InboxFocus::ManagedPdfList);
    assert_eq!(inbox.event(Key::Tab), EventState::Consumed);
    assert_eq!(inbox.focus, InboxFocus::UnmanagedPdfList);
    assert_eq!(inbox.event(Key::Tab), EventState::Consumed);
    assert_eq!(inbox.focus, InboxFocus::Searchbar);
    assert_eq!(inbox.event(Key::Tab), EventState::Consumed);
    assert_eq!(inbox.focus, InboxFocus::ManagedPdfList);
}

#[test]
fn three_tabs_return_to_the_start_from_any_pane() {
    for start in [
        InboxFocus::Searchbar,
        InboxFocus::ManagedPdfList,
        InboxFocus::UnmanagedPdfList,
    ] {
        let mut inbox = inbox_with(&["a.pdf"], &["b.pdf"]);
        inbox.focus = start;
        for _ in 0..3 {
            assert_eq!(inbox.event(Key::Tab), EventState::Consumed);
        }
        assert_eq!(inbox.focus, start);
    }
}

#[test]
fn slash_forces_focus_to_the_search_bar() {
    let mut inbox = inbox_with(&["a.pdf"], &[]);
    assert_eq!(inbox.event(Key::Char('/')), EventState::Consumed);
    assert_eq!(inbox.focus, InboxFocus::Searchbar);
}

#[test]
fn enter_opens_the_modal_on_the_selected_managed_record() {
    let mut inbox = inbox_with(&["a.pdf", "b.pdf"], &[]);
    inbox.managed_pdf_list.move_selection(pdf_inbox::components::ScrollType::Down);
    assert_eq!(inbox.event(Key::Enter), EventState::Consumed);
    assert!(inbox.show_import_popup);
    assert_eq!(inbox.focus, InboxFocus::ImportPopup);
    let record = inbox.pdf_import_popup.record.as_ref().unwrap();
    assert_eq!(record.file_name, "b.pdf");
}

#[test]
fn enter_on_unmanaged_then_esc_lands_on_managed() {
    // Enter on the unmanaged list opens the modal addressed to its selected
    // record; Esc closes it, and focus afterwards is the managed list
    // regardless of which pane opened the modal.
    let mut inbox = inbox_with(&["a.pdf"], &["u.pdf"]);
    inbox.focus = InboxFocus::UnmanagedPdfList;
    assert_eq!(inbox.event(Key::Enter), EventState::Consumed);
    assert!(inbox.show_import_popup);
    assert_eq!(inbox.focus, InboxFocus::ImportPopup);
    assert_eq!(
        inbox.pdf_import_popup.record.as_ref().unwrap().file_name,
        "u.pdf"
    );
    assert_eq!(inbox.event(Key::Esc), EventState::Consumed);
    assert!(!inbox.show_import_popup);
    assert!(inbox.pdf_import_popup.record.is_none());
    assert_eq!(inbox.focus, InboxFocus::ManagedPdfList);
}

#[test]
fn open_modal_swallows_every_other_key() {
    let mut inbox = inbox_with(&["a.pdf"], &[]);
    assert_eq!(inbox.event(Key::Enter), EventState::Consumed);
    assert!(inbox.show_import_popup);
    for key in [Key::Tab, Key::Char('/'), Key::Char('j'), Key::Enter, Key::Up] {
        assert_eq!(inbox.event(key), EventState::Consumed);
        assert!(inbox.show_import_popup);
        assert_eq!(inbox.focus, InboxFocus::ImportPopup);
    }
}

#[test]
fn empty_pane_ignores_moves_and_enter() {
    // An empty directory scan yields no records; selection moves and Enter
    // on that pane are silent no-ops.
    let mut inbox = inbox_with(&[], &[]);
    assert_eq!(inbox.event(Key::Enter), EventState::NotConsumed);
    assert!(!inbox.show_import_popup);
    assert_eq!(inbox.focus, InboxFocus::ManagedPdfList);
    let mut app = App::new(KeyConfig::default());
    assert_eq!(app.event(Key::Char('j')), EventState::Consumed);
    assert_eq!(app.inbox.managed_pdf_list.selection, 0);
    assert_eq!(app.event(Key::Char('k')), EventState::Consumed);
    assert_eq!(app.inbox.managed_pdf_list.selection, 0);
}

#[test]
fn quit_keys_set_the_flag_and_are_reported_unhandled() {
    let mut app = App::new(KeyConfig::default());
    assert!(!app.is_quit());
    assert_eq!(app.event(Key::Char('q')), EventState::NotConsumed);
    assert!(app.is_quit());

    let mut app = App::new(KeyConfig::default());
    assert_eq!(app.event(Key::Ctrl('c')), EventState::NotConsumed);
    assert!(app.is_quit());
}

#[test]
fn enter_requests_a_reload() {
    let mut app = App::new(KeyConfig::default());
    assert!(!app.is_reload_pending());
    assert_eq!(app.event(Key::Enter), EventState::Consumed);
    assert!(app.is_reload_pending());
    app.update_inbox_list(Some(records(&["m.pdf"])), None);
    assert!(!app.is_reload_pending());
    assert_eq!(app.inbox.managed_pdf_list.pdf_files.len(), 1);
}

#[test]
fn failed_scan_keeps_previous_records() {
    let mut app = App::new(KeyConfig::default());
    app.update_inbox_list(Some(records(&["m.pdf"])), Some(records(&["u.pdf"])));
    // A later scan that fails leaves the pane's records untouched.
    app.update_inbox_list(None, Some(records(&["v.pdf", "w.pdf"])));
    assert_eq!(app.inbox.managed_pdf_list.pdf_files.len(), 1);
    assert_eq!(app.inbox.managed_pdf_list.pdf_files[0].file_name, "m.pdf");
    assert_eq!(app.inbox.unmanaged_pdf_list.pdf_files.len(), 2);
}

#[test]
fn app_routes_scroll_keys_to_the_focused_list() {
    let mut app = App::new(KeyConfig::default());
    app.update_inbox_list(
        Some(records(&["a.pdf", "b.pdf"])),
        Some(records(&["u.pdf", "v.pdf"])),
    );
    assert_eq!(app.event(Key::Char('j')), EventState::Consumed);
    assert_eq!(app.inbox.managed_pdf_list.selection, 1);
    assert_eq!(app.inbox.unmanaged_pdf_list.selection, 0);
    // Tab moves focus to the unmanaged list; scroll keys go there now.
    assert_eq!(app.event(Key::Tab), EventState::Consumed);
    assert_eq!(app.event(Key::Char('j')), EventState::Consumed);
    assert_eq!(app.inbox.managed_pdf_list.selection, 1);
    assert_eq!(app.inbox.unmanaged_pdf_list.selection, 1);
}
