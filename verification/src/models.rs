//! The records that the service stores and the user interface shows and sends.

use vstd::prelude::*;

verus! {

/// One todo: its identifier, its title, whether it is done, and its place
/// in the list (`order` on the wire).
#[derive(Debug)]
pub struct Todo {
    pub id: String,
    pub title: String,
    pub completed: bool,
    pub display_order: i64,
}

impl PartialEq for Todo {
    fn eq(&self, other: &Self) -> (r: bool) {
        self.id == other.id && self.title == other.title && self.completed == other.completed
            && self.display_order == other.display_order
    }
}

impl vstd::std_specs::cmp::PartialEqSpecImpl for Todo {
    open spec fn obeys_eq_spec() -> bool {
        true
    }

    open spec fn eq_spec(&self, other: &Self) -> bool {
        self.id@ == other.id@ && self.title@ == other.title@ && self.completed == other.completed
            && self.display_order == other.display_order
    }
}

impl Clone for Todo {
    fn clone(&self) -> (r: Self)
        ensures
            r == *self,
    {
        Todo {
            id: self.id.clone(),
            title: self.title.clone(),
            completed: self.completed,
            display_order: self.display_order,
        }
    }
}

/// What a client sends to create a todo: a title and, optionally, its place.
#[derive(Debug)]
pub struct CreateTodo {
    pub title: String,
    pub order: Option<i64>,
}

/// A partial change of a todo: each field that is present replaces the
/// todo's own.
#[derive(Debug)]
pub struct UpdateTodo {
    pub title: Option<String>,
    pub completed: Option<bool>,
    pub order: Option<i64>,
}

impl Default for UpdateTodo {
    /// A change that changes nothing.
    fn default() -> (r: Self)
        ensures
            r.title is None,
            r.completed is None,
            r.order is None,
    {
        UpdateTodo { title: None, completed: None, order: None }
    }
}

impl UpdateTodo {
    /// Whether the change names no field at all.
    pub open spec fn is_empty(&self) -> bool {
        self.title is None && self.completed is None && self.order is None
    }
}

/// The request that marks every todo done, or every todo not done.
#[derive(Debug, Clone, Copy)]
pub struct ToggleAll {
    pub completed: bool,
}

} // verus!
