use todomvc::client::ApiError;
use todomvc::editor::{forward_delete, forward_update, HeaderAction, HeaderEvent, HeaderState};
use todomvc::models::Todo;
use todomvc::todo_list::{apply_reply, shows_main, Reply};

fn todo(id: &str, title: &str, completed: bool) -> Todo {
    Todo { id: id.into(), title: title.into(), completed, display_order: 0 }
}

fn sample() -> Vec<Todo> {
    vec![todo("1", "Active", false), todo("2", "Done", true), todo("3", "Also active", false)]
}

fn failed() -> ApiError {
    ApiError("HTTP 500".to_string())
}

#[test]
fn test_header_enter_creates_and_clears() {
    let h = HeaderState::new();
    let (h, a) = h.step(HeaderEvent::Input("  Buy milk ".to_string()));
    assert!(matches!(a, HeaderAction::Nothing));
    let (h, a) = h.step(HeaderEvent::KeyDown("Enter".to_string()));
    assert_eq!(h.input, "");
    match a {
        HeaderAction::Create(c) => {
            assert_eq!(c.title, "Buy milk");
            assert!(c.order.is_none());
        }
        HeaderAction::Nothing => panic!("expected a create"),
    }
}

#[test]
fn test_header_other_key_or_blank_does_nothing() {
    let (h, _) = HeaderState::new().step(HeaderEvent::Input("Walk".to_string()));
    let (h, a) = h.step(HeaderEvent::KeyDown("a".to_string()));
    assert!(matches!(a, HeaderAction::Nothing));
    assert_eq!(h.input, "Walk");
    let (h, _) = h.step(HeaderEvent::Input("   ".to_string()));
    let (h, a) = h.step(HeaderEvent::KeyDown("Enter".to_string()));
    assert!(matches!(a, HeaderAction::Nothing));
    assert_eq!(h.input, "   ");
}

#[test]
fn test_row_forwards_only_success() {
    assert_eq!(forward_update(Ok(todo("1", "A", true))), Some(todo("1", "A", true)));
    assert_eq!(forward_update(Err(failed())), None);
    assert_eq!(forward_delete("7".to_string(), Ok(())), Some("7".to_string()));
    assert_eq!(forward_delete("7".to_string(), Err(failed())), None);
}

#[test]
fn test_failed_replies_leave_list() {
    let replies = vec![
        Reply::Fetched(Err(failed())),
        Reply::Created(Err(failed())),
        Reply::Updated(Err(failed())),
        Reply::Deleted("2".to_string(), Err(failed())),
        Reply::ClearedCompleted(Err(failed())),
        Reply::ToggledAll(Err(failed())),
    ];
    for r in replies {
        let mut list = sample();
        apply_reply(&mut list, r);
        assert_eq!(list, sample());
    }
}

#[test]
fn test_successful_replies_change_list() {
    let mut list = Vec::new();
    apply_reply(&mut list, Reply::Fetched(Ok(sample())));
    assert_eq!(list, sample());
    apply_reply(&mut list, Reply::Created(Ok(todo("4", "New", false))));
    assert_eq!(list.len(), 4);
    apply_reply(&mut list, Reply::Updated(Ok(todo("1", "Active", true))));
    assert!(list[0].completed);
    apply_reply(&mut list, Reply::Deleted("4".to_string(), Ok(())));
    assert_eq!(list.len(), 3);
    apply_reply(&mut list, Reply::ClearedCompleted(Ok(())));
    assert_eq!(list, vec![todo("3", "Also active", false)]);
    apply_reply(&mut list, Reply::ToggledAll(Ok(vec![todo("3", "Also active", true)])));
    assert!(list[0].completed);
}

#[test]
fn test_shows_main() {
    assert!(shows_main(&sample()));
    assert!(!shows_main(&Vec::new()));
}
