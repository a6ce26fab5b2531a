use todomvc::filter::{active_count, all_completed, apply_filter, has_completed, Filter};
use todomvc::models::Todo;
use todomvc::todo_list::{
    add_created, clear_completed, items_left_text, remove_by_id, replace_by_id,
    toggle_all_target,
};

fn todo(id: &str, title: &str, completed: bool, order: i64) -> Todo {
    Todo { id: id.into(), title: title.into(), completed, display_order: order }
}

fn sample_todos() -> Vec<Todo> {
    vec![
        todo("1", "Active", false, 0),
        todo("2", "Done", true, 1),
        todo("3", "Also active", false, 2),
    ]
}

#[test]
fn test_filter_from_hash_all() {
    assert_eq!(Filter::from_hash("#/"), Filter::All);
}

#[test]
fn test_filter_from_hash_active() {
    assert_eq!(Filter::from_hash("#/active"), Filter::Active);
}

#[test]
fn test_filter_from_hash_completed() {
    assert_eq!(Filter::from_hash("#/completed"), Filter::Completed);
}

#[test]
fn test_filter_from_hash_unknown_defaults_to_all() {
    assert_eq!(Filter::from_hash(""), Filter::All);
    assert_eq!(Filter::from_hash("#/unknown"), Filter::All);
    assert_eq!(Filter::from_hash("garbage"), Filter::All);
}

#[test]
fn test_filter_links_select_their_view() {
    for f in [Filter::All, Filter::Active, Filter::Completed] {
        assert_eq!(Filter::from_hash(f.link()), f);
    }
    assert_eq!(Filter::Active.link(), "#/active");
}

#[test]
fn test_filter_all_returns_everything() {
    let todos = sample_todos();
    let filtered = apply_filter(&todos, Filter::All);
    assert_eq!(filtered.len(), 3);
    assert_eq!(filtered, todos);
}

#[test]
fn test_filter_active_excludes_completed() {
    let todos = sample_todos();
    let filtered = apply_filter(&todos, Filter::Active);
    assert_eq!(filtered.len(), 2);
    assert!(filtered.iter().all(|t| !t.completed));
    assert_eq!(filtered[0].id, "1");
    assert_eq!(filtered[1].id, "3");
}

#[test]
fn test_filter_completed_only_completed() {
    let todos = sample_todos();
    let filtered = apply_filter(&todos, Filter::Completed);
    assert_eq!(filtered.len(), 1);
    assert_eq!(filtered[0].title, "Done");
}

#[test]
fn test_filter_empty_list() {
    let todos: Vec<Todo> = vec![];
    assert_eq!(apply_filter(&todos, Filter::All).len(), 0);
    assert_eq!(apply_filter(&todos, Filter::Active).len(), 0);
    assert_eq!(apply_filter(&todos, Filter::Completed).len(), 0);
}

#[test]
fn test_views_partition_the_list() {
    let todos = sample_todos();
    let active = apply_filter(&todos, Filter::Active).len();
    let done = apply_filter(&todos, Filter::Completed).len();
    assert_eq!(active + done, todos.len());
}

#[test]
fn test_active_count() {
    let todos = sample_todos();
    assert_eq!(active_count(&todos), 2);
    assert_eq!(active_count(&Vec::new()), 0);
}

#[test]
fn test_has_completed() {
    let todos = sample_todos();
    assert!(has_completed(&todos));
    let all_active = vec![todo("1", "Active", false, 0)];
    assert!(!has_completed(&all_active));
}

#[test]
fn test_all_completed_check() {
    let todos = sample_todos();
    assert!(!all_completed(&todos));
    let all_done = vec![todo("1", "Done", true, 0)];
    assert!(all_completed(&all_done));
    assert!(!all_completed(&Vec::new()));
}

#[test]
fn test_toggle_all_target() {
    assert!(toggle_all_target(&sample_todos()));
    assert!(!toggle_all_target(&vec![todo("1", "Done", true, 0)]));
    assert!(toggle_all_target(&Vec::new()));
}

#[test]
fn test_items_left_text() {
    assert_eq!(items_left_text(1), "1 item left");
    assert_eq!(items_left_text(0), "0 items left");
    assert_eq!(items_left_text(2), "2 items left");
    assert_eq!(items_left_text(1234), "1234 items left");
}

#[test]
fn test_add_created_appends() {
    let mut todos = sample_todos();
    add_created(&mut todos, todo("4", "New", false, 0));
    assert_eq!(todos.len(), 4);
    assert_eq!(todos[3].id, "4");
}

#[test]
fn test_replace_by_id_replaces_first_match() {
    let mut todos = sample_todos();
    replace_by_id(&mut todos, todo("2", "Done again", false, 7));
    assert_eq!(todos.len(), 3);
    assert_eq!(todos[1], todo("2", "Done again", false, 7));
    assert_eq!(todos[0], todo("1", "Active", false, 0));
    assert_eq!(todos[2], todo("3", "Also active", false, 2));
}

#[test]
fn test_replace_by_id_unknown_leaves_list() {
    let mut todos = sample_todos();
    replace_by_id(&mut todos, todo("9", "Nobody", true, 0));
    assert_eq!(todos, sample_todos());
}

#[test]
fn test_remove_by_id() {
    let mut todos = sample_todos();
    remove_by_id(&mut todos, "2");
    assert_eq!(todos.len(), 2);
    assert!(todos.iter().all(|t| t.id != "2"));
    assert_eq!(todos[0].id, "1");
    assert_eq!(todos[1].id, "3");
    remove_by_id(&mut todos, "missing");
    assert_eq!(todos.len(), 2);
}

#[test]
fn test_clear_completed() {
    let mut todos = sample_todos();
    clear_completed(&mut todos);
    assert_eq!(todos.len(), 2);
    assert!(!has_completed(&todos));
    assert_eq!(active_count(&todos), 2);
    assert_eq!(todos[0].title, "Active");
    assert_eq!(todos[1].title, "Also active");
}
