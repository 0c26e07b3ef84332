use vstd::prelude::*;
use crate::ident::{fresh_todo_id, is_todo_id};
use crate::model::{
    CreateTodo, Reply, Todo, UpdateTodo, STATUS_CREATED, STATUS_INTERNAL_SERVER_ERROR, STATUS_OK,
};
use crate::paging::Page;

verus! {

/// A row as the list query reads it: `id`, `description`, `completed`.
pub type TodoRow = (String, String, bool);

/// The failure reply: status 500 with the error's text as body.
pub open spec fn failure(message: String) -> Reply<String> {
    Reply { status: STATUS_INTERNAL_SERVER_ERROR, body: message }
}

/// The record that a row holds, field by field in column order.
pub open spec fn todo_of_row(row: TodoRow) -> Todo {
    Todo { id: row.0, description: row.1, completed: row.2 }
}

/// How many of `n` rows a window of `limit` keeps: all of them when the
/// limit is negative, else at most `limit`.
pub open spec fn window_len(n: nat, limit: i64) -> nat {
    if limit < 0 || n <= limit {
        n
    } else {
        limit as nat
    }
}

/// The records that a list reply carries for the rows that the store
/// returned, in the store's order.
pub open spec fn list_body(rows: Seq<TodoRow>, limit: i64) -> Seq<Todo> {
    rows.take(window_len(rows.len(), limit) as int).map_values(|row: TodoRow| todo_of_row(row))
}

/// The reply to a create request once the store has answered.
pub open spec fn create_reply(todo: Todo, stored: Result<u64, String>) -> Result<
    Reply<Todo>,
    Reply<String>,
> {
    match stored {
        Ok(_) => Ok(Reply { status: STATUS_CREATED, body: todo }),
        Err(e) => Err(failure(e)),
    }
}

/// The reply of the update and delete routes: the identifier, echoed.
pub open spec fn echo_reply(id: String) -> Result<Reply<String>, Reply<String>> {
    Ok(Reply { status: STATUS_OK, body: id })
}

/// Turns a storage failure (pool checkout or statement) into a reply.
pub fn internal_error(message: String) -> (r: Reply<String>)
    ensures
        r == failure(message),
{
    Reply { status: STATUS_INTERNAL_SERVER_ERROR, body: message }
}

/// The record that a create request stores: a fresh random identifier, the
/// given description, not completed.
pub fn new_todo(input: CreateTodo) -> (r: Todo)
    ensures
        is_todo_id(r.id@),
        r.description == input.description,
        !r.completed,
{
    Todo { id: fresh_todo_id(), description: input.description, completed: false }
}

/// The reply to a create request, given what the insert of `todo` returned
/// (the count of rows written, or the error's text).
pub fn todo_create(todo: Todo, stored: Result<u64, String>) -> (r: Result<
    Reply<Todo>,
    Reply<String>,
>)
    ensures
        r == create_reply(todo, stored),
{
    match stored {
        Ok(_) => Ok(Reply { status: STATUS_CREATED, body: todo }),
        Err(e) => Err(internal_error(e)),
    }
}

/// The reply to an update request: the identifier, echoed; storage is not read.
pub fn todo_update(input: UpdateTodo) -> (r: Result<Reply<String>, Reply<String>>)
    ensures
        r == echo_reply(input.id),
{
    Ok(Reply { status: STATUS_OK, body: input.id })
}

/// The reply to a delete request: the identifier, echoed; storage is not read.
pub fn todo_delete(id: String) -> (r: Result<Reply<String>, Reply<String>>)
    ensures
        r == echo_reply(id),
{
    Ok(Reply { status: STATUS_OK, body: id })
}

/// The reply to a list request over `page`, given what the query returned:
/// the rows as records, in order, at most `page.limit` of them; or the
/// failure reply.
pub fn todos_list(page: &Page, rows: Result<Vec<TodoRow>, String>) -> (r: Result<
    Reply<Vec<Todo>>,
    Reply<String>,
>)
    ensures
        match rows {
            Ok(rows) => r matches Ok(rep) && rep.status == STATUS_OK && rep.body@ == list_body(
                rows@,
                page.limit,
            ),
            Err(e) => r == Err::<Reply<Vec<Todo>>, Reply<String>>(failure(e)),
        },
{
    match rows {
        Err(e) => Err(internal_error(e)),
        Ok(rows) => {
            let n: usize = if page.limit < 0 || rows.len() as u128 <= page.limit as u128 {
                rows.len()
            } else {
                page.limit as usize
            };
            let mut todos: Vec<Todo> = Vec::new();
            let mut i: usize = 0;
            while i < n
                invariant
                    n == window_len(rows@.len(), page.limit),
                    n <= rows@.len(),
                    i <= n,
                    todos@ == list_body(rows@, page.limit).take(i as int),
                decreases n - i,
            {
                let row = &rows[i];
                let todo = Todo {
                    id: row.0.clone(),
                    description: row.1.clone(),
                    completed: row.2,
                };
                todos.push(todo);
                i = i + 1;
                assert(todos@ =~= list_body(rows@, page.limit).take(i as int));
            }
            assert(todos@ =~= list_body(rows@, page.limit));
            Ok(Reply { status: STATUS_OK, body: todos })
        },
    }
}

/// A create request whose insert succeeded is answered with status 201 and
/// the stored record, which is not completed and whose identifier is a
/// non-empty UUID text.
pub proof fn lemma_created_reply(todo: Todo, written: u64)
    requires
        is_todo_id(todo.id@),
        !todo.completed,
    ensures
        create_reply(todo, Ok(written)) matches Ok(rep) && rep.status == STATUS_CREATED
            && rep.body == todo && !rep.body.completed && rep.body.id@.len() > 0,
{
}

/// A list request with limit 0 is answered with no records, whatever the
/// store returned.
pub proof fn lemma_zero_limit_lists_nothing(rows: Seq<TodoRow>)
    ensures
        list_body(rows, 0).len() == 0,
{
}

/// A record that create stored, once the list query returns its row inside
/// the window, is in the list reply with the same identifier and
/// description, not completed.
pub proof fn lemma_created_record_listed(
    input: CreateTodo,
    todo: Todo,
    rows: Seq<TodoRow>,
    limit: i64,
    i: int,
)
    requires
        todo.description == input.description,
        !todo.completed,
        0 <= i < rows.len(),
        limit < 0 || i < limit,
        rows[i] == (todo.id, todo.description, todo.completed),
    ensures
        exists|j: int|
            0 <= j < list_body(rows, limit).len() && #[trigger] list_body(rows, limit)[j] == todo
                && list_body(rows, limit)[j].description == input.description && !list_body(
                rows,
                limit,
            )[j].completed,
{
    let body = list_body(rows, limit);
    assert(body[i] == todo_of_row(rows[i]));
}

/// Update and delete answer alike every time they are called with the same
/// identifier, whether or not a record has it: neither consults storage.
pub proof fn lemma_echo_repeatable(first: UpdateTodo, second: UpdateTodo, deleted: String)
    requires
        first.id == second.id,
        deleted == first.id,
    ensures
        echo_reply(first.id) == echo_reply(second.id),
        echo_reply(deleted) == echo_reply(first.id),
        echo_reply(deleted) matches Ok(rep) && rep.status == STATUS_OK && rep.body == deleted,
{
}

} // verus!
