//! The addresses the user interface sends its requests to, and how it reads
//! the status of a reply.

use vstd::prelude::*;
use crate::text::{decimal, decimal_text};

verus! {

/// A failed request, with its message.
#[derive(Debug)]
pub struct ApiError(pub String);

impl Clone for ApiError {
    fn clone(&self) -> (r: Self)
        ensures
            r == *self,
    {
        ApiError(self.0.clone())
    }
}

impl ApiError {
    /// The message, as the error prints itself.
    pub fn message(&self) -> (r: String)
        ensures
            r@ == self.0@,
    {
        self.0.clone()
    }
}

/// The address of the todo collection.
pub fn todos_url() -> (r: String)
    ensures
        r@ == "/api/todos"@,
{
    String::from_str("/api/todos")
}

/// The address of the todo with identifier `id`.
pub fn todo_url(id: &str) -> (r: String)
    ensures
        r@ == "/api/todos/"@ + id@,
{
    let mut r = String::from_str("/api/todos/");
    r.append(id);
    r
}

/// The address that deletes every todo that is done.
pub fn completed_url() -> (r: String)
    ensures
        r@ == "/api/todos/completed"@,
{
    String::from_str("/api/todos/completed")
}

/// The address that marks every todo done or not done.
pub fn toggle_all_url() -> (r: String)
    ensures
        r@ == "/api/todos/toggle-all"@,
{
    String::from_str("/api/todos/toggle-all")
}

/// Whether an HTTP status reports success (200 to 299).
pub open spec fn status_ok(status: u16) -> bool {
    200 <= status && status <= 299
}

/// A status reports success exactly when it lies from 200 to 299; so every
/// status the service gives a request it carried out (200, 201, 204) is read
/// as a success, and its "not found" (404) and server error (500) are not.
pub proof fn lemma_status_ok_range(status: u16)
    ensures
        status_ok(status) <==> 200 <= status && status <= 299,
        forall|op: crate::routes::Operation|
            #![trigger crate::routes::status_of(op, crate::routes::Outcome::Done)]
            status_ok(crate::routes::status_of(op, crate::routes::Outcome::Done).code_of()),
        !status_ok(404),
        !status_ok(500),
{
}

/// The outcome of a reply with this status: success, or an error whose
/// message is `HTTP` and the status.
pub fn check_status(status: u16) -> (r: Result<(), ApiError>)
    ensures
        r is Ok <==> status_ok(status),
        r is Ok <==> 200 <= status && status <= 299,
        r matches Err(e) ==> e.0@ == "HTTP "@ + decimal(status as nat),
{
    if 200 <= status && status <= 299 {
        Ok(())
    } else {
        let mut m = String::from_str("HTTP ");
        let digits = decimal_text(status as u64);
        m.append(digits.as_str());
        Err(ApiError(m))
    }
}

} // verus!
