//! How the service answers each request: which status a reply carries, and
//! which new todos it refuses.

use vstd::prelude::*;
use crate::models::CreateTodo;
use crate::text::{blank, is_blank};

verus! {

/// The statuses the service replies with.
#[derive(Clone, Copy, Debug, PartialEq, Eq, Structural)]
pub enum Status {
    Success,
    Created,
    NoContent,
    BadRequest,
    NotFound,
    InternalServerError,
}

impl Status {
    /// The HTTP code of a status.
    pub open spec fn code_of(self) -> u16 {
        match self {
            Status::Success => 200,
            Status::Created => 201,
            Status::NoContent => 204,
            Status::BadRequest => 400,
            Status::NotFound => 404,
            Status::InternalServerError => 500,
        }
    }

    /// The HTTP code of this status.
    pub fn code(&self) -> (c: u16)
        ensures
            c == self.code_of(),
    {
        match self {
            Status::Success => 200,
            Status::Created => 201,
            Status::NoContent => 204,
            Status::BadRequest => 400,
            Status::NotFound => 404,
            Status::InternalServerError => 500,
        }
    }
}

/// The requests the service answers.
#[derive(Clone, Copy, Debug, PartialEq, Eq, Structural)]
pub enum Operation {
    List,
    Create,
    Get,
    Update,
    Delete,
    DeleteCompleted,
    ToggleAll,
}

/// How the store handled a request.
#[derive(Clone, Copy, Debug, PartialEq, Eq, Structural)]
pub enum Outcome {
    /// The store did what was asked.
    Done,
    /// The todo the request names does not exist.
    Missing,
    /// The store failed.
    Failed,
}

/// The status of the reply to `op` when the store's outcome was `outcome`.
pub open spec fn status_of(op: Operation, outcome: Outcome) -> Status {
    match outcome {
        Outcome::Failed => Status::InternalServerError,
        Outcome::Missing => Status::NotFound,
        Outcome::Done => match op {
            Operation::Create => Status::Created,
            Operation::Delete | Operation::DeleteCompleted => Status::NoContent,
            _ => Status::Success,
        },
    }
}

/// The status of the reply to `op` when the store's outcome was `outcome`.
pub fn reply_status(op: Operation, outcome: Outcome) -> (s: Status)
    ensures
        s == status_of(op, outcome),
{
    match outcome {
        Outcome::Failed => Status::InternalServerError,
        Outcome::Missing => Status::NotFound,
        Outcome::Done => match op {
            Operation::Create => Status::Created,
            Operation::Delete | Operation::DeleteCompleted => Status::NoContent,
            _ => Status::Success,
        },
    }
}

/// A reply says "not found" exactly when the todo the request names is
/// missing, and every failure of the store is a server error.
pub proof fn lemma_status_cases(op: Operation, outcome: Outcome)
    ensures
        status_of(op, outcome) == Status::NotFound <==> outcome == Outcome::Missing,
        status_of(op, outcome) == Status::InternalServerError <==> outcome == Outcome::Failed,
        outcome == Outcome::Done ==> 200 <= status_of(op, outcome).code_of() <= 299,
{
}

/// The codes of the replies: a created todo 201, a deletion 204, any other
/// request carried out 200, a missing todo 404, a failed store 500.
pub proof fn lemma_reply_codes(op: Operation, outcome: Outcome)
    ensures
        outcome == Outcome::Failed ==> status_of(op, outcome).code_of() == 500,
        outcome == Outcome::Missing ==> status_of(op, outcome).code_of() == 404,
        outcome == Outcome::Done && op == Operation::Create ==> status_of(op, outcome).code_of()
            == 201,
        outcome == Outcome::Done && (op == Operation::Delete || op == Operation::DeleteCompleted)
            ==> status_of(op, outcome).code_of() == 204,
        outcome == Outcome::Done && (op == Operation::List || op == Operation::Get || op
            == Operation::Update || op == Operation::ToggleAll) ==> status_of(op, outcome).code_of()
            == 200,
{
}

/// Why the service refuses to create a todo.
#[derive(Clone, Copy, Debug, PartialEq, Eq, Structural)]
pub enum Rejection {
    /// The title is empty or white space only.
    EmptyTitle,
}

impl Rejection {
    /// The status of the refusal.
    pub fn status(&self) -> (s: Status)
        ensures
            s == Status::BadRequest,
    {
        Status::BadRequest
    }

    /// The text of the refusal.
    pub fn message(&self) -> (m: &'static str)
        ensures
            m@ == "title must not be empty"@,
    {
        "title must not be empty"
    }
}

/// Whether the service takes a request to create `input`: it refuses a
/// title that is blank.
pub fn check_new_todo(input: &CreateTodo) -> (r: Result<(), Rejection>)
    ensures
        r is Err <==> is_blank(input.title@),
{
    if blank(input.title.as_str()) {
        Err(Rejection::EmptyTitle)
    } else {
        Ok(())
    }
}

} // verus!
