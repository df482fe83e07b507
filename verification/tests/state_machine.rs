use venv_cleaner::app::App;
use venv_cleaner::scanner::VenvInfo;

fn entry(path: &str) -> VenvInfo {
    VenvInfo { path: path.to_string(), size: 1, last_modified: None }
}

fn three() -> App {
    App::new(vec![entry("v1"), entry("v2"), entry("v3")])
}

fn paths(app: &App) -> Vec<String> {
    app.venvs.iter().map(|v| v.path.clone()).collect()
}

#[test]
fn new_starts_browsing_at_top() {
    let app = three();
    assert_eq!(app.selected, 0);
    assert!(!app.show_confirmation_dialog);
    assert!(app.venv_to_delete_idx.is_none());
}

#[test]
fn move_down_saturates_at_last_entry() {
    let mut app = three();
    for _ in 0..10 {
        app.next();
    }
    assert_eq!(app.selected, 2);
}

#[test]
fn move_up_saturates_at_first_entry() {
    let mut app = three();
    app.next();
    app.next();
    for _ in 0..10 {
        app.previous();
    }
    assert_eq!(app.selected, 0);
}

#[test]
fn navigation_on_empty_list_stays_at_zero() {
    let mut app = App::new(Vec::new());
    app.next();
    assert_eq!(app.selected, 0);
    app.previous();
    assert_eq!(app.selected, 0);
}

#[test]
fn request_delete_on_empty_list_opens_no_dialog() {
    let mut app = App::new(Vec::new());
    app.start_deletion();
    assert!(!app.show_confirmation_dialog);
    assert!(app.venv_to_delete_idx.is_none());
}

#[test]
fn request_delete_captures_cursor() {
    let mut app = three();
    app.next();
    app.start_deletion();
    assert!(app.show_confirmation_dialog);
    assert_eq!(app.venv_to_delete_idx, Some(1));
}

#[test]
fn delete_first_of_three() {
    let mut app = three();
    app.start_deletion();
    let removed = app.confirm_deletion();
    assert_eq!(removed, Some("v1".to_string()));
    assert_eq!(paths(&app), vec!["v2".to_string(), "v3".to_string()]);
    assert_eq!(app.selected, 0);
    assert!(!app.show_confirmation_dialog);
    assert!(app.venv_to_delete_idx.is_none());
}

#[test]
fn delete_middle_of_three() {
    let mut app = three();
    app.next();
    app.start_deletion();
    let removed = app.confirm_deletion();
    assert_eq!(removed, Some("v2".to_string()));
    assert_eq!(paths(&app), vec!["v1".to_string(), "v3".to_string()]);
    assert_eq!(app.selected, 1);
}

#[test]
fn delete_last_of_three() {
    let mut app = three();
    app.next();
    app.next();
    app.start_deletion();
    let removed = app.confirm_deletion();
    assert_eq!(removed, Some("v3".to_string()));
    assert_eq!(paths(&app), vec!["v1".to_string(), "v2".to_string()]);
    assert_eq!(app.selected, 1);
}

#[test]
fn delete_sole_entry() {
    let mut app = App::new(vec![entry("only")]);
    app.start_deletion();
    let removed = app.confirm_deletion();
    assert_eq!(removed, Some("only".to_string()));
    assert!(app.venvs.is_empty());
    assert_eq!(app.selected, 0);
}

#[test]
fn delete_before_cursor_shifts_cursor_left() {
    let mut app = three();
    app.next();
    app.next();
    app.start_deletion();
    app.previous();
    app.previous();
    // pending index is 2, cursor now 0: the entry after the cursor goes.
    let removed = app.confirm_deletion();
    assert_eq!(removed, Some("v3".to_string()));
    assert_eq!(app.selected, 0);
}

#[test]
fn cancel_delete_keeps_entries_and_returns_to_browsing() {
    let mut app = three();
    app.next();
    app.start_deletion();
    app.cancel_deletion();
    assert_eq!(paths(&app), vec!["v1".to_string(), "v2".to_string(), "v3".to_string()]);
    assert_eq!(app.selected, 1);
    assert!(!app.show_confirmation_dialog);
    assert!(app.venv_to_delete_idx.is_none());
}

#[test]
fn confirm_while_browsing_is_a_no_op() {
    let mut app = three();
    let removed = app.confirm_deletion();
    assert_eq!(removed, None);
    assert_eq!(paths(&app), vec!["v1".to_string(), "v2".to_string(), "v3".to_string()]);
    assert_eq!(app.selected, 0);
    assert!(!app.show_confirmation_dialog);
}

#[test]
fn confirm_with_stale_pending_index_resets_without_removal() {
    let mut app = App {
        venvs: vec![entry("v1")],
        selected: 0,
        show_confirmation_dialog: true,
        venv_to_delete_idx: Some(5),
    };
    let removed = app.confirm_deletion();
    assert_eq!(removed, None);
    assert_eq!(paths(&app), vec!["v1".to_string()]);
    assert!(!app.show_confirmation_dialog);
    assert!(app.venv_to_delete_idx.is_none());
}
