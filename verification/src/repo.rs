//! What the store computes around its database statements: the record a new
//! todo gets, and the statement that applies a partial change.

use vstd::prelude::*;
use crate::models::{CreateTodo, Todo, UpdateTodo};

verus! {

/// Whether `c` is a lower-case hexadecimal digit.
pub open spec fn is_lower_hex(c: char) -> bool {
    ('0' <= c && c <= '9') || ('a' <= c && c <= 'f')
}

/// Whether `s` is a random (version 4) UUID in its hyphenated lower-case
/// form, such as `67e55044-10b1-426f-9247-bb680e5fe0c8`.
pub open spec fn is_v4_uuid_text(s: Seq<char>) -> bool {
    &&& s.len() == 36
    &&& forall|i: int|
        0 <= i < 36 ==> if i == 8 || i == 13 || i == 18 || i == 23 {
            #[trigger] s[i] == '-'
        } else {
            is_lower_hex(s[i])
        }
    &&& s[14] == '4'
    &&& (s[19] == '8' || s[19] == '9' || s[19] == 'a' || s[19] == 'b')
}

/// A fresh identifier from `uuid::Uuid::new_v4`, written by its `Display`.
/// The contract claims only the form that the uuid source gives every such
/// value: 36 characters, hyphens at 8, 13, 18 and 23, lower-case hex
/// elsewhere, the version digit 4 and a variant digit of 8, 9, a or b.
/// Which identifier comes out rests on chance and is not stated.
#[verifier::external_body]
fn fresh_id() -> (id: String)
    ensures
        is_v4_uuid_text(id@),
{
    uuid::Uuid::new_v4().to_string()
}

/// The order a new todo gets: the one asked for, else 0.
pub open spec fn order_or_default(order: Option<i64>) -> i64 {
    match order {
        Some(o) => o,
        None => 0,
    }
}

/// The record of a new todo with identifier `id`: the title asked for, not
/// done, in the place asked for or at 0.
pub fn todo_from_input(id: String, input: &CreateTodo) -> (t: Todo)
    ensures
        t.id == id,
        t.title == input.title,
        !t.completed,
        t.display_order == order_or_default(input.order),
{
    let order = match input.order {
        Some(o) => o,
        None => 0,
    };
    Todo { id, title: input.title.clone(), completed: false, display_order: order }
}

/// The record of a new todo under a fresh random identifier.
pub fn new_todo(input: &CreateTodo) -> (t: Todo)
    ensures
        is_v4_uuid_text(t.id@),
        t.title == input.title,
        !t.completed,
        t.display_order == order_or_default(input.order),
{
    let id = fresh_id();
    todo_from_input(id, input)
}

/// A column that a change can set.
#[derive(Clone, Copy, Debug, PartialEq, Eq, Structural)]
pub enum Column {
    Title,
    Completed,
    DisplayOrder,
}

/// A value bound to a placeholder of a statement.
#[derive(Debug)]
pub enum SqlValue {
    Text(String),
    Flag(bool),
    Integer(i64),
}

/// A bound value with its text as a character sequence.
pub enum SqlValueView {
    Text(Seq<char>),
    Flag(bool),
    Integer(int),
}

impl View for SqlValue {
    type V = SqlValueView;

    open spec fn view(&self) -> SqlValueView {
        match self {
            SqlValue::Text(s) => SqlValueView::Text(s@),
            SqlValue::Flag(b) => SqlValueView::Flag(*b),
            SqlValue::Integer(i) => SqlValueView::Integer(*i as int),
        }
    }
}

/// A statement with its bound values, in placeholder order.
pub struct UpdateStatement {
    pub sql: String,
    pub params: Vec<SqlValue>,
}

/// The columns that a change sets, in the order title, completed, order.
pub open spec fn changed_columns(u: &UpdateTodo) -> Seq<Column> {
    (if u.title is Some { seq![Column::Title] } else { Seq::empty() }) + (if u.completed is Some {
        seq![Column::Completed]
    } else {
        Seq::empty()
    }) + (if u.order is Some { seq![Column::DisplayOrder] } else { Seq::empty() })
}

/// The assignment that sets one column from a placeholder.
pub open spec fn assignment(c: Column) -> Seq<char> {
    match c {
        Column::Title => "title = ?"@,
        Column::Completed => "completed = ?"@,
        Column::DisplayOrder => "display_order = ?"@,
    }
}

/// The assignments of `cs`, separated by `, `.
pub open spec fn assignments(cs: Seq<Column>) -> Seq<char>
    decreases cs.len(),
{
    if cs.len() == 0 {
        Seq::empty()
    } else if cs.len() == 1 {
        assignment(cs[0])
    } else {
        assignments(cs.drop_last()) + ", "@ + assignment(cs.last())
    }
}

/// The statement that applies change `u` to the todo whose identifier is
/// bound last.
pub open spec fn update_sql(u: &UpdateTodo) -> Seq<char> {
    "UPDATE todos SET "@ + assignments(changed_columns(u)) + " WHERE id = ?"@
}

/// The values bound to that statement: the new values in column order, then
/// the identifier.
pub open spec fn update_params(u: &UpdateTodo, id: Seq<char>) -> Seq<SqlValueView> {
    (match u.title {
        Some(t) => seq![SqlValueView::Text(t@)],
        None => Seq::empty(),
    }) + (match u.completed {
        Some(b) => seq![SqlValueView::Flag(b)],
        None => Seq::empty(),
    }) + (match u.order {
        Some(o) => seq![SqlValueView::Integer(o as int)],
        None => Seq::empty(),
    }) + seq![SqlValueView::Text(id)]
}

/// The number of `?` placeholders in a statement text.
pub open spec fn placeholders(s: Seq<char>) -> nat
    decreases s.len(),
{
    if s.len() == 0 {
        0
    } else {
        placeholders(s.drop_last()) + if s.last() == '?' {
            1nat
        } else {
            0nat
        }
    }
}

proof fn lemma_placeholders_add(a: Seq<char>, b: Seq<char>)
    ensures
        placeholders(a + b) == placeholders(a) + placeholders(b),
    decreases b.len(),
{
    if b.len() > 0 {
        lemma_placeholders_add(a, b.drop_last());
        assert((a + b).drop_last() =~= a + b.drop_last());
    } else {
        assert(a + b =~= a);
    }
}

proof fn lemma_assignment_placeholder(c: Column)
    ensures
        placeholders(assignment(c)) == 1,
{
    reveal_with_fuel(placeholders, 18);
    match c {
        Column::Title => {
            reveal_strlit("title = ?");
        },
        Column::Completed => {
            reveal_strlit("completed = ?");
        },
        Column::DisplayOrder => {
            reveal_strlit("display_order = ?");
        },
    }
}

proof fn lemma_separator_placeholders()
    ensures
        placeholders(", "@) == 0,
{
    reveal_with_fuel(placeholders, 3);
    reveal_strlit(", ");
}

proof fn lemma_assignments_placeholders(cs: Seq<Column>)
    ensures
        placeholders(assignments(cs)) == cs.len(),
    decreases cs.len(),
{
    if cs.len() == 1 {
        lemma_assignment_placeholder(cs[0]);
    } else if cs.len() > 1 {
        lemma_assignments_placeholders(cs.drop_last());
        lemma_assignment_placeholder(cs.last());
        lemma_separator_placeholders();
        lemma_placeholders_add(assignments(cs.drop_last()), ", "@);
        lemma_placeholders_add(assignments(cs.drop_last()) + ", "@, assignment(cs.last()));
    }
}

proof fn lemma_frame_placeholders()
    ensures
        placeholders("UPDATE todos SET "@) == 0,
        placeholders(" WHERE id = ?"@) == 1,
{
    reveal_strlit("UPDATE todos SET ");
    reveal_strlit(" WHERE id = ?");
    reveal_with_fuel(placeholders, 18);
}

/// The statement that applies a change has exactly one placeholder for each
/// value bound to it.
pub proof fn lemma_placeholders_match_params(u: &UpdateTodo, id: Seq<char>)
    ensures
        placeholders(update_sql(u)) == update_params(u, id).len(),
{
    let cs = changed_columns(u);
    lemma_assignments_placeholders(cs);
    lemma_frame_placeholders();
    lemma_placeholders_add("UPDATE todos SET "@, assignments(cs));
    lemma_placeholders_add("UPDATE todos SET "@ + assignments(cs), " WHERE id = ?"@);
}

/// Each value bound to the statement of a change belongs to the column at
/// the same place in its assignments: the new title to `title`, the new
/// completion to `completed`, the new order to `display_order`. The
/// statement sets exactly the fields the change gives, each once, in the
/// order title, completed, order, and the identifier is bound last.
pub proof fn lemma_params_follow_columns(u: &UpdateTodo, id: Seq<char>)
    ensures
        update_params(u, id).len() == changed_columns(u).len() + 1,
        update_params(u, id).last() == SqlValueView::Text(id),
        forall|k: int|
            #![trigger changed_columns(u)[k]]
            0 <= k < changed_columns(u).len() ==> {
                &&& changed_columns(u)[k] == Column::Title ==> (u.title matches Some(t)
                    && update_params(u, id)[k] == SqlValueView::Text(t@))
                &&& changed_columns(u)[k] == Column::Completed ==> (u.completed matches Some(b)
                    && update_params(u, id)[k] == SqlValueView::Flag(b))
                &&& changed_columns(u)[k] == Column::DisplayOrder ==> (u.order matches Some(o)
                    && update_params(u, id)[k] == SqlValueView::Integer(o as int))
            },
        u.title is Some <==> changed_columns(u).contains(Column::Title),
        u.completed is Some <==> changed_columns(u).contains(Column::Completed),
        u.order is Some <==> changed_columns(u).contains(Column::DisplayOrder),
        changed_columns(u).no_duplicates(),
        forall|k: int, m: int|
            0 <= k < m < changed_columns(u).len() ==> column_rank(changed_columns(u)[k])
                < column_rank(changed_columns(u)[m]),
{
    let cs = changed_columns(u);
    let ps = update_params(u, id);
    if u.title is Some {
        assert(cs[0] == Column::Title);
    }
    if u.completed is Some {
        let k = if u.title is Some { 1int } else { 0int };
        assert(cs[k] == Column::Completed);
    }
    if u.order is Some {
        assert(cs[cs.len() - 1] == Column::DisplayOrder);
    }
}

/// The place of a column in the order title, completed, order.
pub open spec fn column_rank(c: Column) -> int {
    match c {
        Column::Title => 0,
        Column::Completed => 1,
        Column::DisplayOrder => 2,
    }
}

fn assignment_text(c: Column) -> (r: &'static str)
    ensures
        r@ == assignment(c),
{
    match c {
        Column::Title => "title = ?",
        Column::Completed => "completed = ?",
        Column::DisplayOrder => "display_order = ?",
    }
}

/// The statement that applies `input` to the todo `id`, or nothing when
/// `input` changes no field (the store then reads the todo as it is).
pub fn plan_update(id: &str, input: &UpdateTodo) -> (r: Option<UpdateStatement>)
    ensures
        r is None <==> input.is_empty(),
        r matches Some(st) ==> st.sql@ == update_sql(input) && st.params@.map_values(
            |v: SqlValue| v@,
        ) == update_params(input, id@),
{
    let mut cols: Vec<Column> = Vec::new();
    let mut params: Vec<SqlValue> = Vec::new();
    if let Some(t) = &input.title {
        cols.push(Column::Title);
        params.push(SqlValue::Text(t.clone()));
    }
    if let Some(b) = input.completed {
        cols.push(Column::Completed);
        params.push(SqlValue::Flag(b));
    }
    if let Some(o) = input.order {
        cols.push(Column::DisplayOrder);
        params.push(SqlValue::Integer(o));
    }
    assert(cols@ =~= changed_columns(input));
    if cols.len() == 0 {
        return None;
    }
    params.push(SqlValue::Text(String::from_str(id)));
    assert(params@.map_values(|v: SqlValue| v@) =~= update_params(input, id@));
    let mut sql = String::from_str("UPDATE todos SET ");
    let n = cols.len();
    for i in 0..n
        invariant
            n == cols@.len(),
            sql@ == "UPDATE todos SET "@ + assignments(cols@.take(i as int)),
    {
        let ghost before = sql@;
        if i > 0 {
            sql.append(", ");
        }
        sql.append(assignment_text(cols[i]));
        proof {
            let cs = cols@.take(i + 1);
            assert(cs.drop_last() =~= cols@.take(i as int));
            assert(cs.last() == cols@[i as int]);
            if i == 0 {
                assert(assignments(cols@.take(0)) =~= Seq::<char>::empty());
                assert(sql@ =~= "UPDATE todos SET "@ + assignments(cs));
            } else {
                assert(sql@ =~= "UPDATE todos SET "@ + assignments(cs));
            }
        }
    }
    assert(cols@.take(n as int) =~= cols@);
    sql.append(" WHERE id = ?");
    Some(UpdateStatement { sql, params })
}

/// Whether a statement that names one todo found it, by the number of rows
/// it changed.
pub fn found_row(rows_affected: usize) -> (b: bool)
    ensures
        b == (rows_affected > 0),
{
    rows_affected > 0
}

} // verus!
