//! The two request paths of the service, from what was received to what is answered.

use vstd::prelude::*;
use crate::auth::{authorize, guard_outcome, header_view};
use crate::model::{todos_view, ApiError, AppState, Todo, TodoRequest, TodoView};
use crate::tasks::{is_add, max_id, mutated, mutation_outcome, post_todos, starting_collection};

verus! {

/// What a listing shows: the stored collection, or the empty one where the store could
/// not be read or holds no task collection.
pub open spec fn listing(stored: Option<Seq<TodoView>>) -> Seq<TodoView> {
    match stored {
        Some(tasks) => tasks,
        None => Seq::<TodoView>::empty(),
    }
}

/// The stored collection as values, where there is one.
pub open spec fn stored_view(stored: Option<Vec<Todo>>) -> Option<Seq<TodoView>> {
    match stored {
        Some(v) => Some(todos_view(v@)),
        None => None,
    }
}

/// Answers a listing from the stored collection, `None` standing for a snapshot that is
/// missing or is no task collection. A listing never fails: it is then empty.
pub fn get_todos(stored: Option<Vec<Todo>>) -> (todos: Vec<Todo>)
    ensures
        todos_view(todos@) == listing(stored_view(stored)),
        stored matches Some(v) ==> todos@ == v@,
        stored is None ==> todos@.len() == 0,
{
    starting_collection(stored)
}

/// A mutation request behind the guard, at the second `now`: where the guard turns the
/// request down, that is the answer and the collection is untouched; else the request is
/// applied.
pub fn guarded_post_todos(
    state: &AppState,
    header: Option<&str>,
    now: i64,
    todos: &mut Vec<Todo>,
    request: TodoRequest,
) -> (r: Result<(), ApiError>)
    requires
        is_add(request@) ==> max_id(todos_view(old(todos)@)) < i64::MAX,
    ensures
        match guard_outcome(state@.admins, state@.jwt_secret, header_view(header), now as int) {
            Ok(_) => r == mutation_outcome(todos_view(old(todos)@), request@) && todos_view(final(todos)@) == mutated(
                todos_view(old(todos)@),
                request@,
            ),
            Err(e) => r == Err::<(), ApiError>(e) && final(todos)@ == old(todos)@ && todos_view(final(todos)@) == todos_view(
                old(todos)@,
            ),
        },
{
    match authorize(state, header, now) {
        Ok(_) => post_todos(todos, request),
        Err(e) => Err(e),
    }
}

} // verus!
