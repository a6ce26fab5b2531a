use todomvc::client::{check_status, completed_url, todo_url, todos_url, toggle_all_url, ApiError};
use todomvc::models::{CreateTodo, UpdateTodo};
use todomvc::repo::{found_row, new_todo, plan_update, todo_from_input, SqlValue};
use todomvc::routes::{check_new_todo, reply_status, Operation, Outcome, Rejection, Status};

fn create(title: &str, order: Option<i64>) -> CreateTodo {
    CreateTodo { title: title.into(), order }
}

#[test]
fn test_todo_from_input() {
    let t = todo_from_input("abc-123".to_string(), &create("Test", None));
    assert_eq!(t.id, "abc-123");
    assert_eq!(t.title, "Test");
    assert!(!t.completed);
    assert_eq!(t.display_order, 0);
    let t = todo_from_input("x".to_string(), &create("Later", Some(5)));
    assert_eq!(t.display_order, 5);
}

#[test]
fn test_new_todo_gets_a_random_uuid() {
    let a = new_todo(&create("Buy milk", None));
    let b = new_todo(&create("Buy milk", None));
    assert_eq!(a.title, "Buy milk");
    assert!(!a.completed);
    assert_eq!(a.display_order, 0);
    assert_eq!(a.id.len(), 36);
    assert_eq!(a.id.as_bytes()[14], b'4');
    for i in [8, 13, 18, 23] {
        assert_eq!(a.id.as_bytes()[i], b'-');
    }
    assert!(!a.id.is_empty());
    assert_ne!(a.id, b.id);
}

#[test]
fn test_plan_update_title_and_completed() {
    let u = UpdateTodo { title: Some("Updated".into()), completed: Some(true), order: None };
    let st = plan_update("id-1", &u).expect("a statement");
    assert_eq!(st.sql, "UPDATE todos SET title = ?, completed = ? WHERE id = ?");
    assert_eq!(st.params.len(), 3);
    assert!(matches!(&st.params[0], SqlValue::Text(t) if t == "Updated"));
    assert!(matches!(&st.params[1], SqlValue::Flag(true)));
    assert!(matches!(&st.params[2], SqlValue::Text(t) if t == "id-1"));
}

#[test]
fn test_plan_update_each_field() {
    let u = UpdateTodo { completed: Some(false), ..Default::default() };
    let st = plan_update("k", &u).expect("a statement");
    assert_eq!(st.sql, "UPDATE todos SET completed = ? WHERE id = ?");
    let u = UpdateTodo { order: Some(3), ..Default::default() };
    let st = plan_update("k", &u).expect("a statement");
    assert_eq!(st.sql, "UPDATE todos SET display_order = ? WHERE id = ?");
    assert!(matches!(&st.params[0], SqlValue::Integer(3)));
    let u = UpdateTodo { title: Some("T".into()), completed: Some(true), order: Some(1) };
    let st = plan_update("k", &u).expect("a statement");
    assert_eq!(
        st.sql,
        "UPDATE todos SET title = ?, completed = ?, display_order = ? WHERE id = ?"
    );
    assert_eq!(st.params.len(), 4);
    assert_eq!(st.sql.matches('?').count(), st.params.len());
}

#[test]
fn test_plan_update_nothing_to_change() {
    assert!(plan_update("k", &UpdateTodo::default()).is_none());
}

#[test]
fn test_found_row() {
    assert!(found_row(1));
    assert!(!found_row(0));
}

#[test]
fn test_create_empty_title() {
    let r = check_new_todo(&create("", None));
    assert_eq!(r, Err(Rejection::EmptyTitle));
    assert_eq!(Rejection::EmptyTitle.status().code(), 400);
    assert_eq!(Rejection::EmptyTitle.message(), "title must not be empty");
}

#[test]
fn test_create_whitespace_title() {
    let r = check_new_todo(&create("   ", None));
    assert_eq!(r, Err(Rejection::EmptyTitle));
}

#[test]
fn test_create_title_accepted() {
    assert_eq!(check_new_todo(&create("Buy milk", None)), Ok(()));
}

#[test]
fn test_reply_status() {
    assert_eq!(reply_status(Operation::List, Outcome::Done).code(), 200);
    assert_eq!(reply_status(Operation::Create, Outcome::Done).code(), 201);
    assert_eq!(reply_status(Operation::Get, Outcome::Done).code(), 200);
    assert_eq!(reply_status(Operation::Get, Outcome::Missing).code(), 404);
    assert_eq!(reply_status(Operation::Update, Outcome::Done).code(), 200);
    assert_eq!(reply_status(Operation::Update, Outcome::Missing), Status::NotFound);
    assert_eq!(reply_status(Operation::Delete, Outcome::Done).code(), 204);
    assert_eq!(reply_status(Operation::Delete, Outcome::Missing).code(), 404);
    assert_eq!(reply_status(Operation::DeleteCompleted, Outcome::Done).code(), 204);
    assert_eq!(reply_status(Operation::ToggleAll, Outcome::Done).code(), 200);
    assert_eq!(reply_status(Operation::List, Outcome::Failed).code(), 500);
}

#[test]
fn test_urls() {
    assert_eq!(todos_url(), "/api/todos");
    assert_eq!(todo_url("abc"), "/api/todos/abc");
    assert_eq!(completed_url(), "/api/todos/completed");
    assert_eq!(toggle_all_url(), "/api/todos/toggle-all");
}

#[test]
fn test_check_status() {
    assert!(check_status(200).is_ok());
    assert!(check_status(204).is_ok());
    assert!(check_status(299).is_ok());
    let e = check_status(404).unwrap_err();
    assert_eq!(e.message(), "HTTP 404");
    assert_eq!(check_status(500).unwrap_err().0, "HTTP 500");
    assert_eq!(check_status(199).unwrap_err().0, "HTTP 199");
}

#[test]
fn test_api_error_message() {
    let e = ApiError("boom".to_string());
    assert_eq!(e.clone().message(), "boom");
}
