//! A TodoMVC core: the rules that decide what a todo list shows and what
//! the service does with each request, stated and proved with Verus.

pub mod client;
pub mod editor;
pub mod filter;
pub mod models;
pub mod repo;
pub mod routes;
pub mod text;
pub mod todo_list;
