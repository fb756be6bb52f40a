//! The handlers of the todo endpoints. Every one of them works on the todos of
//! one fixed user.
use vstd::prelude::*;
use vstd::string::*;
use crate::clock::{now, Timestamp};
use crate::db::{Database, DatabaseView};
use crate::errors::{AppError, AppErrorView, CREATED, NO_CONTENT};
use crate::ident::{random_id, Id};
use crate::models::{
    clone_opt_text, CreateTodo, CreateTodoView, Todo, TodoView, UpdateTodo, UpdateTodoView,
};

verus! {

/// The user whose todos the endpoints serve:
/// `a0eebc99-9c0b-4ef8-bb6d-6bb9bd380a11`.
pub const DUMMY_USER_ID: Id = 0xa0eebc99_9c0b_4ef8_bb6d_6bb9bd380a11;

/// Whether the table holds a todo with that identifier which the served user
/// owns.
pub open spec fn visible(db: DatabaseView, id: Id) -> bool {
    db.todos.contains_key(id) && db.todos[id].user_id == DUMMY_USER_ID
}

/// The text with which the store refuses a row whose key is taken.
pub open spec fn conflict() -> AppErrorView {
    AppErrorView::DatabaseError("UNIQUE constraint failed"@)
}

/// The row that a creation request makes, given the identifier and the
/// instant that were drawn for it.
pub open spec fn new_row(payload: CreateTodoView, id: Id, at: Timestamp) -> TodoView {
    TodoView {
        id,
        user_id: DUMMY_USER_ID,
        title: payload.title,
        description: payload.description,
        completed: false,
        priority: payload.priority,
        created_at: at,
        updated_at: at,
    }
}

/// The row that an update makes of `row`: the fields that the request holds
/// replace the stored ones, the others stay, and the row is stamped anew.
pub open spec fn merged(row: TodoView, patch: UpdateTodoView, at: Timestamp) -> TodoView {
    TodoView {
        id: row.id,
        user_id: row.user_id,
        title: match patch.title {
            Some(t) => t,
            None => row.title,
        },
        description: match patch.description {
            Some(d) => Some(d),
            None => row.description,
        },
        completed: match patch.completed {
            Some(c) => c,
            None => row.completed,
        },
        priority: match patch.priority {
            Some(p) => p,
            None => row.priority,
        },
        created_at: row.created_at,
        updated_at: at,
    }
}

/// What `get_todo` answers.
pub open spec fn get_spec(db: DatabaseView, id: Id) -> Result<TodoView, AppErrorView> {
    if visible(db, id) {
        Ok(db.todos[id])
    } else {
        Err(AppErrorView::NotFound)
    }
}

/// The tables after `create_todo_at`, and what it answers.
pub open spec fn create_spec(db: DatabaseView, payload: CreateTodoView, id: Id, at: Timestamp) -> (
    DatabaseView,
    Result<(u16, TodoView), AppErrorView>,
) {
    if db.todos.contains_key(id) {
        (db, Err(conflict()))
    } else {
        let row = new_row(payload, id, at);
        (DatabaseView { users: db.users, todos: db.todos.insert(id, row) }, Ok((CREATED, row)))
    }
}

/// The tables after `update_todo_at`, and what it answers.
pub open spec fn update_spec(db: DatabaseView, id: Id, patch: UpdateTodoView, at: Timestamp) -> (
    DatabaseView,
    Result<TodoView, AppErrorView>,
) {
    if visible(db, id) {
        let row = merged(db.todos[id], patch, at);
        (DatabaseView { users: db.users, todos: db.todos.insert(id, row) }, Ok(row))
    } else {
        (db, Err(AppErrorView::NotFound))
    }
}

/// The tables after `delete_todo`, and what it answers.
pub open spec fn delete_spec(db: DatabaseView, id: Id) -> (
    DatabaseView,
    Result<u16, AppErrorView>,
) {
    if visible(db, id) {
        (DatabaseView { users: db.users, todos: db.todos.remove(id) }, Ok(NO_CONTENT))
    } else {
        (db, Err(AppErrorView::NotFound))
    }
}

/// All todos of the served user, each once, in no promised order.
pub fn all_todos(db: &Database) -> (r: Result<Vec<Todo>, AppError>)
    requires
        db.wf(),
    ensures
        r matches Ok(list) && {
            &&& forall|k: int|
                0 <= k < list@.len() ==> visible(db@, (#[trigger] list@[k]).id)
                    && db@.todos[list@[k].id] == list@[k]@
            &&& forall|id: Id|
                visible(db@, id) ==> exists|k: int|
                    0 <= k < list@.len() && (#[trigger] list@[k]).id == id
            &&& forall|k: int, l: int|
                0 <= k < l < list@.len() ==> (#[trigger] list@[k]).id != (#[trigger] list@[l]).id
        },
{
    Ok(db.todos_of(DUMMY_USER_ID))
}

/// The todo with the given identifier, if the served user owns it.
pub fn get_todo(db: &Database, id: Id) -> (r: Result<Todo, AppError>)
    requires
        db.wf(),
    ensures
        match r {
            Ok(t) => get_spec(db@, id) == Ok::<TodoView, AppErrorView>(t@),
            Err(e) => get_spec(db@, id) == Err::<TodoView, AppErrorView>(e@),
        },
{
    match db.todo(id) {
        Some(t) => {
            if t.user_id == DUMMY_USER_ID {
                Ok(t)
            } else {
                Err(AppError::NotFound)
            }
        },
        None => Err(AppError::NotFound),
    }
}

/// Stores the todo that `payload` asks for under the identifier `id`, stamped
/// with `at`, and answers with the stored row. Fails, and stores nothing,
/// when the identifier is taken. The title is stored as it is.
pub fn create_todo_at(db: &mut Database, payload: CreateTodo, id: Id, at: Timestamp) -> (r: Result<
    (u16, Todo),
    AppError,
>)
    requires
        old(db).wf(),
    ensures
        final(db).wf(),
        final(db)@ == create_spec(old(db)@, payload@, id, at).0,
        match r {
            Ok((code, t)) => create_spec(old(db)@, payload@, id, at).1 == Ok::<
                (u16, TodoView),
                AppErrorView,
            >((code, t@)),
            Err(e) => create_spec(old(db)@, payload@, id, at).1 == Err::<
                (u16, TodoView),
                AppErrorView,
            >(e@),
        },
{
    let row = Todo {
        id,
        user_id: DUMMY_USER_ID,
        title: payload.title,
        description: payload.description,
        completed: false,
        priority: payload.priority,
        created_at: at,
        updated_at: at,
    };
    let answer = row.clone();
    if db.insert_todo(row) {
        Ok((CREATED, answer))
    } else {
        Err(AppError::DatabaseError(String::from_str("UNIQUE constraint failed")))
    }
}

/// Creates a todo under a random identifier, stamped with the current time.
/// The creation fails only if the identifier that was drawn is taken by a
/// stored todo, so it never fails on tables that hold no todo.
pub fn create_todo(db: &mut Database, payload: CreateTodo) -> (r: Result<(u16, Todo), AppError>)
    requires
        old(db).wf(),
    ensures
        final(db).wf(),
        match r {
            Ok((code, t)) => {
                &&& !old(db)@.todos.contains_key(t.id)
                &&& code == CREATED
                &&& t@ == new_row(payload@, t.id, t.created_at)
                &&& final(db)@.users == old(db)@.users
                &&& final(db)@.todos == old(db)@.todos.insert(t.id, t@)
            },
            Err(e) => {
                &&& e@ == conflict()
                &&& final(db)@ == old(db)@
                &&& exists|taken: Id| old(db)@.todos.contains_key(taken)
            },
        },
{
    let id = random_id();
    let at = now();
    let r = create_todo_at(db, payload, id, at);
    proof {
        if r is Err {
            assert(old(db)@.todos.contains_key(id));
        }
    }
    r
}

fn merge(row: &Todo, payload: UpdateTodo, at: Timestamp) -> (r: Todo)
    ensures
        r@ == merged(row@, payload@, at),
{
    Todo {
        id: row.id,
        user_id: row.user_id,
        title: match payload.title {
            Some(t) => t,
            None => row.title.clone(),
        },
        description: match payload.description {
            Some(d) => Some(d),
            None => clone_opt_text(&row.description),
        },
        completed: match payload.completed {
            Some(c) => c,
            None => row.completed,
        },
        priority: match payload.priority {
            Some(p) => p,
            None => row.priority,
        },
        created_at: row.created_at,
        updated_at: at,
    }
}

/// Applies the fields that `payload` holds to the todo with the given
/// identifier, stamps it with `at`, and answers with the row as it is then.
pub fn update_todo_at(db: &mut Database, id: Id, payload: UpdateTodo, at: Timestamp) -> (r: Result<
    Todo,
    AppError,
>)
    requires
        old(db).wf(),
    ensures
        final(db).wf(),
        final(db)@ == update_spec(old(db)@, id, payload@, at).0,
        match r {
            Ok(t) => update_spec(old(db)@, id, payload@, at).1 == Ok::<TodoView, AppErrorView>(
                t@,
            ),
            Err(e) => update_spec(old(db)@, id, payload@, at).1 == Err::<TodoView, AppErrorView>(
                e@,
            ),
        },
{
    proof {
        db.lemma_view_wf();
    }
    match get_todo(db, id) {
        Err(e) => Err(e),
        Ok(row) => {
            let next = merge(&row, payload, at);
            let answer = next.clone();
            let found = db.replace_todo(next);
            assert(found);
            Ok(answer)
        },
    }
}

/// Applies `payload` to the todo with the given identifier and stamps it with
/// the current time.
pub fn update_todo(db: &mut Database, id: Id, payload: UpdateTodo) -> (r: Result<Todo, AppError>)
    requires
        old(db).wf(),
    ensures
        final(db).wf(),
        match r {
            Ok(t) => {
                &&& visible(old(db)@, id)
                &&& t@ == merged(old(db)@.todos[id], payload@, t.updated_at)
                &&& final(db)@.users == old(db)@.users
                &&& final(db)@.todos == old(db)@.todos.insert(id, t@)
            },
            Err(e) => !visible(old(db)@, id) && e@ == AppErrorView::NotFound && final(db)@ == old(
                db,
            )@,
        },
{
    let at = now();
    update_todo_at(db, id, payload, at)
}

/// Deletes the todo with the given identifier, if the served user owns it.
pub fn delete_todo(db: &mut Database, id: Id) -> (r: Result<u16, AppError>)
    requires
        old(db).wf(),
    ensures
        final(db).wf(),
        final(db)@ == delete_spec(old(db)@, id).0,
        match r {
            Ok(code) => delete_spec(old(db)@, id).1 == Ok::<u16, AppErrorView>(code),
            Err(e) => delete_spec(old(db)@, id).1 == Err::<u16, AppErrorView>(e@),
        },
{
    let rows_affected = db.remove_todo(id, DUMMY_USER_ID);
    if rows_affected == 0 {
        Err(AppError::NotFound)
    } else {
        Ok(NO_CONTENT)
    }
}

/// A todo that was created is found under its identifier as it was made:
/// with the title as submitted, whatever it holds, not completed, and with one
/// instant for both stamps.
pub proof fn lemma_create_then_get(
    db: DatabaseView,
    payload: CreateTodoView,
    id: Id,
    at: Timestamp,
)
    requires
        !db.todos.contains_key(id),
    ensures
        create_spec(db, payload, id, at).1 == Ok::<(u16, TodoView), AppErrorView>(
            (CREATED, new_row(payload, id, at)),
        ),
        get_spec(create_spec(db, payload, id, at).0, id) == Ok::<TodoView, AppErrorView>(
            new_row(payload, id, at),
        ),
        new_row(payload, id, at).title == payload.title,
        !new_row(payload, id, at).completed,
        new_row(payload, id, at).created_at == new_row(payload, id, at).updated_at,
{
}

/// Creating a todo leaves every other todo as it was.
pub proof fn lemma_create_keeps_others(
    db: DatabaseView,
    payload: CreateTodoView,
    id: Id,
    at: Timestamp,
    other: Id,
)
    requires
        other != id,
    ensures
        get_spec(create_spec(db, payload, id, at).0, other) == get_spec(db, other),
{
}

/// A todo that was updated is found as the update left it: the fields that
/// the request held are the request's, every other field is as it was stored,
/// and the row is stamped with the instant of the update.
pub proof fn lemma_update_then_get(db: DatabaseView, id: Id, patch: UpdateTodoView, at: Timestamp)
    requires
        db.wf(),
        visible(db, id),
    ensures
        update_spec(db, id, patch, at).1 == Ok::<TodoView, AppErrorView>(
            merged(db.todos[id], patch, at),
        ),
        get_spec(update_spec(db, id, patch, at).0, id) == Ok::<TodoView, AppErrorView>(
            merged(db.todos[id], patch, at),
        ),
        merged(db.todos[id], patch, at).id == id,
        merged(db.todos[id], patch, at).user_id == db.todos[id].user_id,
        merged(db.todos[id], patch, at).created_at == db.todos[id].created_at,
        merged(db.todos[id], patch, at).updated_at == at,
        patch.title is None ==> merged(db.todos[id], patch, at).title == db.todos[id].title,
        patch.title matches Some(t) ==> merged(db.todos[id], patch, at).title == t,
        patch.description is None ==> merged(db.todos[id], patch, at).description
            == db.todos[id].description,
        patch.description matches Some(d) ==> merged(db.todos[id], patch, at).description == Some(
            d,
        ),
        patch.completed is None ==> merged(db.todos[id], patch, at).completed
            == db.todos[id].completed,
        patch.completed matches Some(c) ==> merged(db.todos[id], patch, at).completed == c,
        patch.priority is None ==> merged(db.todos[id], patch, at).priority
            == db.todos[id].priority,
        patch.priority matches Some(p) ==> merged(db.todos[id], patch, at).priority == p,
{
}

/// The request that only marks a todo as completed.
pub open spec fn completing() -> UpdateTodoView {
    UpdateTodoView { title: None, description: None, completed: Some(true), priority: None }
}

/// After a todo was marked as completed at an instant later than its
/// creation, it is found completed, stamped later than it was created, and
/// otherwise as it was.
pub proof fn lemma_complete_then_get(db: DatabaseView, id: Id, at: Timestamp)
    requires
        db.wf(),
        visible(db, id),
        at.after(db.todos[id].created_at),
    ensures
        get_spec(update_spec(db, id, completing(), at).0, id) matches Ok(t) && {
            &&& t.completed
            &&& t.updated_at.after(t.created_at)
            &&& t.id == db.todos[id].id
            &&& t.user_id == db.todos[id].user_id
            &&& t.title == db.todos[id].title
            &&& t.description == db.todos[id].description
            &&& t.priority == db.todos[id].priority
            &&& t.created_at == db.todos[id].created_at
        },
{
}

/// Updating a todo leaves every other todo as it was.
pub proof fn lemma_update_keeps_others(
    db: DatabaseView,
    id: Id,
    patch: UpdateTodoView,
    at: Timestamp,
    other: Id,
)
    requires
        other != id,
    ensures
        get_spec(update_spec(db, id, patch, at).0, other) == get_spec(db, other),
{
}

/// An update of a todo that is not there, or that another user owns, fails
/// and changes nothing.
pub proof fn lemma_update_missing(db: DatabaseView, id: Id, patch: UpdateTodoView, at: Timestamp)
    requires
        !visible(db, id),
    ensures
        update_spec(db, id, patch, at) == (db, Err::<TodoView, AppErrorView>(AppErrorView::NotFound)),
{
}

/// Once a todo was deleted, it is not found any more.
pub proof fn lemma_delete_then_get(db: DatabaseView, id: Id)
    ensures
        get_spec(delete_spec(db, id).0, id) == Err::<TodoView, AppErrorView>(
            AppErrorView::NotFound,
        ),
{
}

/// Deleting a todo that is not there, or that another user owns, is a
/// failure, not a success, and changes nothing.
pub proof fn lemma_delete_missing(db: DatabaseView, id: Id)
    requires
        !visible(db, id),
    ensures
        delete_spec(db, id) == (db, Err::<u16, AppErrorView>(AppErrorView::NotFound)),
{
}

/// Deleting a todo leaves every other todo as it was.
pub proof fn lemma_delete_keeps_others(db: DatabaseView, id: Id, other: Id)
    requires
        other != id,
    ensures
        get_spec(delete_spec(db, id).0, other) == get_spec(db, other),
{
}

/// Whatever the three changing handlers do to well-formed tables, the tables
/// stay well formed.
pub proof fn lemma_handlers_keep_wf(
    db: DatabaseView,
    id: Id,
    payload: CreateTodoView,
    patch: UpdateTodoView,
    at: Timestamp,
)
    requires
        db.wf(),
    ensures
        create_spec(db, payload, id, at).0.wf(),
        update_spec(db, id, patch, at).0.wf(),
        delete_spec(db, id).0.wf(),
{
}

} // verus!
