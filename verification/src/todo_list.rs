//! The list of todos as the user interface holds it, and how each reply of
//! the service changes it.

use vstd::prelude::*;
use crate::filter::{Filter, shown, every_completed, all_completed, any_completed, active_len};
use crate::client::ApiError;
use crate::models::Todo;
use crate::text::{decimal, decimal_text, same_text};

verus! {

/// Whether a todo's identifier differs from `id`.
pub open spec fn other_id(id: Seq<char>) -> spec_fn(Todo) -> bool {
    |t: Todo| t.id@ != id
}

/// The todos of `todos` whose identifier is not `id`, in list order.
pub open spec fn without_id(todos: Seq<Todo>, id: Seq<char>) -> Seq<Todo> {
    todos.filter(other_id(id))
}

/// Whether `i` is the first place in `todos` that holds identifier `id`.
pub open spec fn first_with_id(todos: Seq<Todo>, id: Seq<char>, i: int) -> bool {
    &&& 0 <= i < todos.len()
    &&& todos[i].id@ == id
    &&& forall|k: int| 0 <= k < i ==> (#[trigger] todos[k]).id@ != id
}

/// Whether no todo of `todos` has identifier `id`.
pub open spec fn lacks_id(todos: Seq<Todo>, id: Seq<char>) -> bool {
    forall|k: int| 0 <= k < todos.len() ==> (#[trigger] todos[k]).id@ != id
}

/// Clearing the completed todos leaves no todo done, keeps every active
/// todo in its order, and leaves the number of active todos unchanged.
pub proof fn lemma_cleared_list(todos: Seq<Todo>)
    ensures
        !any_completed(shown(todos, Filter::Active)),
        shown(shown(todos, Filter::Active), Filter::Active) == shown(todos, Filter::Active),
        active_len(shown(todos, Filter::Active)) == active_len(todos),
    decreases todos.len(),
{
    reveal_with_fuel(Seq::filter, 1);
    let c = shown(todos, Filter::Active);
    if todos.len() > 0 {
        let init = todos.drop_last();
        lemma_cleared_list(init);
        let ci = shown(init, Filter::Active);
        if !todos.last().completed {
            assert(c == ci.push(todos.last()));
            assert(c.drop_last() =~= ci);
            assert forall|i: int| 0 <= i < c.len() implies !(#[trigger] c[i]).completed by {
                if i < ci.len() {
                    assert(c[i] == ci[i]);
                }
            }
        }
    }
}

/// After removing identifier `id`, no todo has it, and every todo with
/// another identifier is still there.
pub proof fn lemma_removed_id_absent(todos: Seq<Todo>, id: Seq<char>)
    ensures
        lacks_id(without_id(todos, id), id),
        forall|i: int|
            0 <= i < todos.len() && (#[trigger] todos[i]).id@ != id ==> without_id(
                todos,
                id,
            ).contains(todos[i]),
{
    broadcast use vstd::seq_lib::group_filter_ensures;

    let pred = other_id(id);
    assert forall|k: int| 0 <= k < without_id(todos, id).len() implies (#[trigger] without_id(
        todos,
        id,
    )[k]).id@ != id by {
        assert(pred(todos.filter(pred)[k]));
    }
    assert forall|i: int|
        0 <= i < todos.len() && (#[trigger] todos[i]).id@ != id implies without_id(
            todos,
            id,
        ).contains(todos[i]) by {
        assert(pred(todos[i]));
    }
}

/// Appends a todo that the service has just created.
pub fn add_created(list: &mut Vec<Todo>, todo: Todo)
    ensures
        final(list)@ == old(list)@.push(todo),
{
    list.push(todo);
}

/// Puts the service's new version of a todo in place of the first todo
/// with the same identifier; the list stays as it is when none has it.
pub fn replace_by_id(list: &mut Vec<Todo>, updated: Todo)
    ensures
        lacks_id(old(list)@, updated.id@) ==> final(list)@ == old(list)@,
        forall|i: int|
            first_with_id(old(list)@, updated.id@, i) ==> final(list)@ == old(list)@.update(
                i,
                updated,
            ),
{
    let n = list.len();
    let mut i: usize = 0;
    while i < n
        invariant
            n == list@.len(),
            list@ == old(list)@,
            i <= n,
            forall|k: int| 0 <= k < i ==> (#[trigger] list@[k]).id@ != updated.id@,
        decreases n - i,
    {
        if same_text(list[i].id.as_str(), updated.id.as_str()) {
            list[i] = updated;
            return;
        }
        i = i + 1;
    }
}

/// Drops every todo with identifier `id`, keeping the others in order.
pub fn remove_by_id(list: &mut Vec<Todo>, id: &str)
    ensures
        final(list)@ == without_id(old(list)@, id@),
{
    let ghost pred = other_id(id@);
    let mut kept: Vec<Todo> = Vec::new();
    let n = list.len();
    for i in 0..n
        invariant
            n == list@.len(),
            list@ == old(list)@,
            pred == other_id(id@),
            kept@ == list@.take(i as int).filter(pred),
    {
        proof {
            list@.take(i as int).lemma_filter_push(list@[i as int], pred);
            assert(list@.take(i as int).push(list@[i as int]) =~= list@.take(i + 1));
            assert(pred(list@[i as int]) == (list@[i as int].id@ != id@));
        }
        if !same_text(list[i].id.as_str(), id) {
            kept.push(list[i].clone());
        }
    }
    proof {
        assert(list@.take(n as int) =~= list@);
    }
    *list = kept;
}

/// Drops every todo that is done, keeping the others in order.
pub fn clear_completed(list: &mut Vec<Todo>)
    ensures
        final(list)@ == shown(old(list)@, Filter::Active),
{
    let ghost pred = |t: Todo| Filter::Active.shows(t.completed);
    let mut kept: Vec<Todo> = Vec::new();
    let n = list.len();
    for i in 0..n
        invariant
            n == list@.len(),
            list@ == old(list)@,
            pred == (|t: Todo| Filter::Active.shows(t.completed)),
            kept@ == list@.take(i as int).filter(pred),
    {
        proof {
            list@.take(i as int).lemma_filter_push(list@[i as int], pred);
            assert(list@.take(i as int).push(list@[i as int]) =~= list@.take(i + 1));
            assert(pred(list@[i as int]) == !list@[i as int].completed);
        }
        if !list[i].completed {
            kept.push(list[i].clone());
        }
    }
    proof {
        assert(list@.take(n as int) =~= list@);
    }
    *list = kept;
}

/// The completion that the toggle-all box asks for: every todo done,
/// unless every todo already is.
pub fn toggle_all_target(list: &Vec<Todo>) -> (b: bool)
    ensures
        b == !every_completed(list@),
{
    !all_completed(list)
}

/// The footer's count text: `1 item left`, or `N items left` for any other
/// count `N`.
pub open spec fn items_left(count: nat) -> Seq<char> {
    if count == 1 {
        "1 item left"@
    } else {
        decimal(count) + " items left"@
    }
}

/// The footer's count text.
pub fn items_left_text(count: usize) -> (r: String)
    ensures
        r@ == items_left(count as nat),
{
    if count == 1 {
        String::from_str("1 item left")
    } else {
        let mut r = decimal_text(count as u64);
        r.append(" items left");
        r
    }
}

/// A reply of the service that the list takes in.
pub enum Reply {
    /// The list fetched when the page opens.
    Fetched(Result<Vec<Todo>, ApiError>),
    /// A todo the service created.
    Created(Result<Todo, ApiError>),
    /// The service's version of a todo a row changed.
    Updated(Result<Todo, ApiError>),
    /// The service deleted (or failed to delete) the todo with this identifier.
    Deleted(String, Result<(), ApiError>),
    /// The service deleted (or failed to delete) every todo that is done.
    ClearedCompleted(Result<(), ApiError>),
    /// The whole list after the service marked every todo.
    ToggledAll(Result<Vec<Todo>, ApiError>),
}

/// Takes a reply of the service into the list. A failed reply leaves the
/// list as it is; a successful one changes it as the reply says.
pub fn apply_reply(list: &mut Vec<Todo>, reply: Reply)
    ensures
        match reply {
            Reply::Fetched(Ok(v)) => final(list)@ == v@,
            Reply::Created(Ok(t)) => final(list)@ == old(list)@.push(t),
            Reply::Updated(Ok(t)) => {
                &&& lacks_id(old(list)@, t.id@) ==> final(list)@ == old(list)@
                &&& forall|i: int|
                    first_with_id(old(list)@, t.id@, i) ==> final(list)@ == old(list)@.update(
                        i,
                        t,
                    )
            },
            Reply::Deleted(id, Ok(_)) => final(list)@ == without_id(old(list)@, id@),
            Reply::ClearedCompleted(Ok(_)) => final(list)@ == shown(old(list)@, Filter::Active),
            Reply::ToggledAll(Ok(v)) => final(list)@ == v@,
            _ => final(list)@ == old(list)@,
        },
{
    match reply {
        Reply::Fetched(Ok(v)) => {
            *list = v;
        },
        Reply::Created(Ok(t)) => add_created(list, t),
        Reply::Updated(Ok(t)) => replace_by_id(list, t),
        Reply::Deleted(id, Ok(_)) => remove_by_id(list, id.as_str()),
        Reply::ClearedCompleted(Ok(_)) => clear_completed(list),
        Reply::ToggledAll(Ok(v)) => {
            *list = v;
        },
        _ => {},
    }
}

/// Whether the page shows the list and the footer: only when there are
/// todos.
pub fn shows_main(list: &Vec<Todo>) -> (b: bool)
    ensures
        b == (list@.len() > 0),
{
    list.len() > 0
}

} // verus!
