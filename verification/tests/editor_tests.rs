use todomvc::editor::{submit_new_title, RowAction, RowEvent, RowState};
use todomvc::models::Todo;

fn row(title: &str, completed: bool) -> RowState {
    RowState::new(&Todo { id: "1".into(), title: title.into(), completed, display_order: 0 })
}

fn key(name: &str) -> RowEvent {
    RowEvent::KeyDown(name.to_string())
}

#[test]
fn test_new_row_shows_todo() {
    let r = row("Walk", true);
    assert_eq!(r.title, "Walk");
    assert_eq!(r.edit_text, "Walk");
    assert!(r.completed);
    assert!(!r.editing);
}

#[test]
fn test_toggle_flips_and_reports() {
    let (r, a) = row("Walk", false).step(RowEvent::Toggle);
    assert!(r.completed);
    assert!(matches!(a, RowAction::SetCompleted(true)));
    let (r, a) = r.step(RowEvent::Toggle);
    assert!(!r.completed);
    assert!(matches!(a, RowAction::SetCompleted(false)));
}

#[test]
fn test_destroy_deletes() {
    let (r, a) = row("Walk", false).step(RowEvent::Destroy);
    assert_eq!(r.title, "Walk");
    assert!(matches!(a, RowAction::Delete));
}

#[test]
fn test_start_editing_focuses() {
    let (r, a) = row("Walk", false).step(RowEvent::StartEditing);
    assert!(r.editing);
    assert_eq!(r.edit_text, "Walk");
    assert!(matches!(a, RowAction::FocusEditor));
}

#[test]
fn test_enter_renames_with_trimmed_text() {
    let (r, _) = row("Walk", false).step(RowEvent::StartEditing);
    let (r, a) = r.step(RowEvent::EditInput("  Run  ".to_string()));
    assert!(matches!(a, RowAction::Nothing));
    let (r, a) = r.step(key("Enter"));
    assert!(!r.editing);
    assert_eq!(r.title, "Run");
    match a {
        RowAction::Rename(t) => assert_eq!(t, "Run"),
        _ => panic!("expected a rename"),
    }
    let (r2, a) = r.step(RowEvent::Blur);
    assert!(matches!(a, RowAction::Nothing));
    assert_eq!(r2.title, "Run");
}

#[test]
fn test_enter_with_same_title_does_nothing() {
    let (r, _) = row("Walk", false).step(RowEvent::StartEditing);
    let (r, _) = r.step(RowEvent::EditInput(" Walk ".to_string()));
    let (r, a) = r.step(key("Enter"));
    assert!(matches!(a, RowAction::Nothing));
    assert!(!r.editing);
    assert_eq!(r.title, "Walk");
}

#[test]
fn test_blank_edit_deletes() {
    let (r, _) = row("Walk", false).step(RowEvent::StartEditing);
    let (r, _) = r.step(RowEvent::EditInput("   ".to_string()));
    let (r, a) = r.step(RowEvent::Blur);
    assert!(matches!(a, RowAction::Delete));
    assert!(!r.editing);
}

#[test]
fn test_escape_discards_edit() {
    let (r, _) = row("Walk", false).step(RowEvent::StartEditing);
    let (r, _) = r.step(RowEvent::EditInput("Run".to_string()));
    let (r, a) = r.step(key("Escape"));
    assert!(matches!(a, RowAction::Nothing));
    assert!(!r.editing);
    assert_eq!(r.title, "Walk");
    assert_eq!(r.edit_text, "Walk");
}

#[test]
fn test_other_keys_do_nothing() {
    let (r, _) = row("Walk", false).step(RowEvent::StartEditing);
    let (r, a) = r.step(key("a"));
    assert!(matches!(a, RowAction::Nothing));
    assert!(r.editing);
}

#[test]
fn test_blur_without_editing_does_nothing() {
    let (r, a) = row("Walk", false).step(RowEvent::Blur);
    assert!(matches!(a, RowAction::Nothing));
    assert_eq!(r.title, "Walk");
}

#[test]
fn test_submit_new_title() {
    let c = submit_new_title("  Buy milk ").expect("a title");
    assert_eq!(c.title, "Buy milk");
    assert!(c.order.is_none());
    assert!(submit_new_title("").is_none());
    assert!(submit_new_title(" \t ").is_none());
}
