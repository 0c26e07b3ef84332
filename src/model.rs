use vstd::prelude::*;

verus! {

/// HTTP status of a successful read or an echoed identifier.
pub const STATUS_OK: u16 = 200;

/// HTTP status of a record that was just stored.
pub const STATUS_CREATED: u16 = 201;

/// HTTP status of every storage failure.
pub const STATUS_INTERNAL_SERVER_ERROR: u16 = 500;

/// One row of the `todo` table.
#[derive(Debug, Clone, PartialEq, Eq)]
pub struct Todo {
    pub id: String,
    pub description: String,
    pub completed: bool,
}

/// Body of a create request.
#[derive(Debug, Clone, PartialEq, Eq)]
pub struct CreateTodo {
    pub description: String,
}

/// Body of an update request; only `id` is read.
#[derive(Debug, Clone, PartialEq, Eq)]
pub struct UpdateTodo {
    pub id: String,
    pub description: Option<String>,
    pub completed: Option<bool>,
}

/// A status code together with the body sent under it.
#[derive(Debug, Clone, PartialEq, Eq)]
pub struct Reply<T> {
    pub status: u16,
    pub body: T,
}

} // verus!
