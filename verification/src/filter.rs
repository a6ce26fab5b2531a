//! Which todos a view shows, and the counts the footer reports.

use vstd::prelude::*;
use crate::models::Todo;
use crate::text::same_text;

verus! {

/// The three views of the list, chosen by the location hash.
#[derive(Clone, Copy, Debug, PartialEq, Eq, Structural)]
pub enum Filter {
    All,
    Active,
    Completed,
}

impl Filter {
    /// The view that a location hash selects: `#/active` and `#/completed`
    /// select their views, any other hash selects all todos.
    pub open spec fn of_hash(hash: Seq<char>) -> Filter {
        if hash == "#/active"@ {
            Filter::Active
        } else if hash == "#/completed"@ {
            Filter::Completed
        } else {
            Filter::All
        }
    }

    /// Whether the view shows a todo with this completion.
    pub open spec fn shows(self, completed: bool) -> bool {
        match self {
            Filter::All => true,
            Filter::Active => !completed,
            Filter::Completed => completed,
        }
    }

    /// The view that a location hash selects.
    pub fn from_hash(hash: &str) -> (f: Filter)
        ensures
            f == Filter::of_hash(hash@),
    {
        if same_text(hash, "#/active") {
            Filter::Active
        } else if same_text(hash, "#/completed") {
            Filter::Completed
        } else {
            Filter::All
        }
    }

    /// The hash of the footer link that selects this view.
    pub open spec fn link_of(self) -> Seq<char> {
        match self {
            Filter::All => "#/"@,
            Filter::Active => "#/active"@,
            Filter::Completed => "#/completed"@,
        }
    }

    /// The hash of the footer link that selects this view.
    pub fn link(&self) -> (r: &'static str)
        ensures
            r@ == self.link_of(),
    {
        match self {
            Filter::All => "#/",
            Filter::Active => "#/active",
            Filter::Completed => "#/completed",
        }
    }

    /// Whether the view shows `todo`.
    pub fn admits(&self, todo: &Todo) -> (b: bool)
        ensures
            b == self.shows(todo.completed),
    {
        match self {
            Filter::All => true,
            Filter::Active => !todo.completed,
            Filter::Completed => todo.completed,
        }
    }
}

/// Following a footer link selects the view the link stands for.
pub proof fn lemma_link_selects_view(f: Filter)
    ensures
        Filter::of_hash(f.link_of()) == f,
{
    reveal_strlit("#/");
    reveal_strlit("#/active");
    reveal_strlit("#/completed");
    assert("#/"@.len() != "#/active"@.len());
    assert("#/"@.len() != "#/completed"@.len());
    assert("#/active"@.len() != "#/completed"@.len());
}

/// The hash `#/active` selects the active view, `#/completed` the
/// completed view, and every other hash (the empty one and `#/` included)
/// selects all todos.
pub proof fn lemma_hash_views(hash: Seq<char>)
    ensures
        hash == "#/active"@ ==> Filter::of_hash(hash) == Filter::Active,
        hash == "#/completed"@ ==> Filter::of_hash(hash) == Filter::Completed,
        hash != "#/active"@ && hash != "#/completed"@ ==> Filter::of_hash(hash) == Filter::All,
{
    reveal_strlit("#/active");
    reveal_strlit("#/completed");
    assert("#/active"@.len() != "#/completed"@.len());
}

/// The todos that `filter` shows, in list order.
pub open spec fn shown(todos: Seq<Todo>, filter: Filter) -> Seq<Todo> {
    todos.filter(|t: Todo| filter.shows(t.completed))
}

/// The number of todos not yet done.
pub open spec fn active_len(todos: Seq<Todo>) -> nat {
    shown(todos, Filter::Active).len()
}

/// Whether some todo is done.
pub open spec fn any_completed(todos: Seq<Todo>) -> bool {
    exists|i: int| 0 <= i < todos.len() && #[trigger] todos[i].completed
}

/// Whether the list is not empty and every todo in it is done.
pub open spec fn every_completed(todos: Seq<Todo>) -> bool {
    todos.len() > 0 && forall|i: int| 0 <= i < todos.len() ==> #[trigger] todos[i].completed
}

/// The view of all todos shows the whole list, in its order.
pub proof fn lemma_all_shows_everything(todos: Seq<Todo>)
    ensures
        shown(todos, Filter::All) == todos,
    decreases todos.len(),
{
    reveal_with_fuel(Seq::filter, 1);
    if todos.len() > 0 {
        lemma_all_shows_everything(todos.drop_last());
        assert(todos.drop_last().push(todos.last()) =~= todos);
    }
}

/// The active view holds only todos not done and every such todo of the
/// list; the completed view holds only todos done and every such todo; the
/// view of all todos holds every todo.
pub proof fn lemma_views_select(todos: Seq<Todo>)
    ensures
        forall|i: int|
            0 <= i < shown(todos, Filter::Active).len() ==> !(#[trigger] shown(
                todos,
                Filter::Active,
            )[i]).completed,
        forall|i: int|
            0 <= i < shown(todos, Filter::Completed).len() ==> (#[trigger] shown(
                todos,
                Filter::Completed,
            )[i]).completed,
        forall|i: int|
            0 <= i < todos.len() && !(#[trigger] todos[i]).completed ==> shown(
                todos,
                Filter::Active,
            ).contains(todos[i]),
        forall|i: int|
            0 <= i < todos.len() && (#[trigger] todos[i]).completed ==> shown(
                todos,
                Filter::Completed,
            ).contains(todos[i]),
        forall|i: int|
            0 <= i < todos.len() ==> shown(todos, Filter::All).contains(#[trigger] todos[i]),
{
    broadcast use vstd::seq_lib::group_filter_ensures;

    let pa = |t: Todo| Filter::Active.shows(t.completed);
    let pc = |t: Todo| Filter::Completed.shows(t.completed);
    let pl = |t: Todo| Filter::All.shows(t.completed);
    assert(shown(todos, Filter::Active) == todos.filter(pa));
    assert(shown(todos, Filter::Completed) == todos.filter(pc));
    assert(shown(todos, Filter::All) == todos.filter(pl));
    assert forall|i: int| 0 <= i < todos.filter(pa).len() implies !(#[trigger] todos.filter(
        pa,
    )[i]).completed by {
        assert(pa(todos.filter(pa)[i]));
    }
    assert forall|i: int| 0 <= i < todos.filter(pc).len() implies (#[trigger] todos.filter(
        pc,
    )[i]).completed by {
        assert(pc(todos.filter(pc)[i]));
    }
    assert forall|i: int| 0 <= i < todos.len() && !(#[trigger] todos[i]).completed implies todos.filter(
        pa,
    ).contains(todos[i]) by {
        assert(pa(todos[i]));
    }
    assert forall|i: int| 0 <= i < todos.len() && (#[trigger] todos[i]).completed implies todos.filter(
        pc,
    ).contains(todos[i]) by {
        assert(pc(todos[i]));
    }
    assert forall|i: int| 0 <= i < todos.len() implies todos.filter(pl).contains(
        #[trigger] todos[i],
    ) by {
        assert(pl(todos[i]));
    }
}

/// Every todo is in exactly one of the active and the completed views:
/// their sizes add up to the size of the list.
pub proof fn lemma_views_partition(todos: Seq<Todo>)
    ensures
        shown(todos, Filter::Active).len() + shown(todos, Filter::Completed).len() == todos.len(),
    decreases todos.len(),
{
    reveal_with_fuel(Seq::filter, 1);
    if todos.len() > 0 {
        lemma_views_partition(todos.drop_last());
    }
}

/// Some todo is done exactly when the completed view is not empty.
pub proof fn lemma_any_completed_iff_view_nonempty(todos: Seq<Todo>)
    ensures
        any_completed(todos) <==> shown(todos, Filter::Completed).len() > 0,
    decreases todos.len(),
{
    reveal_with_fuel(Seq::filter, 1);
    if todos.len() > 0 {
        let init = todos.drop_last();
        lemma_any_completed_iff_view_nonempty(init);
        if any_completed(init) {
            let i = choose|i: int| 0 <= i < init.len() && #[trigger] init[i].completed;
            assert(todos[i] == init[i]);
        }
        if any_completed(todos) && !todos.last().completed {
            let i = choose|i: int| 0 <= i < todos.len() && #[trigger] todos[i].completed;
            assert(init[i] == todos[i]);
        }
        if todos.last().completed {
            assert(todos[todos.len() - 1].completed);
        }
    }
}

/// The list is all done exactly when it is not empty and no todo is active.
pub proof fn lemma_every_completed_iff_none_active(todos: Seq<Todo>)
    ensures
        every_completed(todos) <==> todos.len() > 0 && active_len(todos) == 0,
    decreases todos.len(),
{
    reveal_with_fuel(Seq::filter, 1);
    if todos.len() > 0 {
        let init = todos.drop_last();
        lemma_every_completed_iff_none_active(init);
        lemma_views_partition(init);
        if every_completed(todos) {
            assert forall|i: int| 0 <= i < init.len() implies #[trigger] init[i].completed by {
                assert(init[i] == todos[i]);
            }
            assert(todos[todos.len() - 1].completed);
        }
        if active_len(todos) == 0 {
            if init.len() > 0 {
                assert(every_completed(init));
            }
            assert forall|i: int| 0 <= i < todos.len() implies #[trigger] todos[i].completed by {
                if i < init.len() {
                    assert(init[i] == todos[i]);
                }
            }
        }
    }
}

/// The todos of `todos` that `filter` shows, in list order.
pub fn apply_filter(todos: &Vec<Todo>, filter: Filter) -> (r: Vec<Todo>)
    ensures
        r@ == shown(todos@, filter),
{
    let ghost pred = |t: Todo| filter.shows(t.completed);
    let mut r: Vec<Todo> = Vec::new();
    let n = todos.len();
    for i in 0..n
        invariant
            n == todos@.len(),
            pred == (|t: Todo| filter.shows(t.completed)),
            r@ == todos@.take(i as int).filter(pred),
    {
        proof {
            todos@.take(i as int).lemma_filter_push(todos@[i as int], pred);
            assert(todos@.take(i as int).push(todos@[i as int]) =~= todos@.take(i + 1));
            assert(pred(todos@[i as int]) == filter.shows(todos@[i as int].completed));
        }
        if filter.admits(&todos[i]) {
            r.push(todos[i].clone());
        }
    }
    proof {
        assert(todos@.take(n as int) =~= todos@);
    }
    r
}

/// The number of todos not yet done.
pub fn active_count(todos: &Vec<Todo>) -> (n: usize)
    ensures
        n == active_len(todos@),
{
    let ghost pred = |t: Todo| Filter::Active.shows(t.completed);
    let mut count: usize = 0;
    let n = todos.len();
    for i in 0..n
        invariant
            n == todos@.len(),
            pred == (|t: Todo| Filter::Active.shows(t.completed)),
            count == todos@.take(i as int).filter(pred).len(),
            count <= i,
    {
        proof {
            todos@.take(i as int).lemma_filter_push(todos@[i as int], pred);
            assert(todos@.take(i as int).push(todos@[i as int]) =~= todos@.take(i + 1));
            assert(pred(todos@[i as int]) == !todos@[i as int].completed);
        }
        if !todos[i].completed {
            count = count + 1;
        }
    }
    proof {
        assert(todos@.take(n as int) =~= todos@);
    }
    count
}

/// Whether some todo is done.
pub fn has_completed(todos: &Vec<Todo>) -> (b: bool)
    ensures
        b == any_completed(todos@),
{
    let n = todos.len();
    for i in 0..n
        invariant
            n == todos@.len(),
            forall|k: int| 0 <= k < i ==> !(#[trigger] todos@[k]).completed,
    {
        if todos[i].completed {
            return true;
        }
    }
    false
}

/// Whether the list is not empty and every todo in it is done.
pub fn all_completed(todos: &Vec<Todo>) -> (b: bool)
    ensures
        b == every_completed(todos@),
{
    let n = todos.len();
    for i in 0..n
        invariant
            n == todos@.len(),
            forall|k: int| 0 <= k < i ==> (#[trigger] todos@[k]).completed,
    {
        if !todos[i].completed {
            return false;
        }
    }
    n > 0
}

} // verus!
