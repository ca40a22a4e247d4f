//! Todo command handlers.
//!
//! Todo CRUD is performed by the front end directly against the SQL
//! plugin; these handlers are reserved entry points on the backend side.
//! They answer with empty or unit values, except `create_todo`, which
//! echoes a `title-priority` tag for the caller.

use vstd::prelude::*;

use vstd::string::StringExecFns;

verus! {

/// A todo item as the UI layer exchanges it.
#[derive(Debug, Clone)]
pub struct Todo {
    pub id: String,
    pub title: String,
    pub priority: String,
    pub is_completed: bool,
    pub created_at: String,
    pub completed_at: Option<String>,
    pub last_reminded_at: Option<String>,
}

/// List todos. No backend store exists in this core, so the list is
/// always empty.
pub fn get_todos() -> (r: Result<Vec<Todo>, String>)
    ensures
        r is Ok,
        r->Ok_0@ == Seq::<Todo>::empty(),
{
    let todos: Vec<Todo> = Vec::new();
    assert(todos@ =~= Seq::<Todo>::empty());
    Ok(todos)
}

/// Create a todo. No backend store exists in this core; the handler
/// answers with the `title-priority` tag of the request.
pub fn create_todo(title: String, priority: String) -> (r: Result<String, String>)
    ensures
        r is Ok,
        r->Ok_0@ == title@ + "-"@ + priority@,
{
    let mut tag = title;
    tag.append("-");
    tag.append(priority.as_str());
    Ok(tag)
}

/// Mark a todo completed or pending. No backend store exists in this
/// core, so the request is accepted and discarded.
pub fn update_todo_status(id: String, is_completed: bool) -> (r: Result<(), String>)
    ensures
        r is Ok,
{
    let _ = (id, is_completed);
    Ok(())
}

/// Delete a todo. No backend store exists in this core, so the request
/// is accepted and discarded.
pub fn delete_todo(id: String) -> (r: Result<(), String>)
    ensures
        r is Ok,
{
    let _ = id;
    Ok(())
}

} // verus!
