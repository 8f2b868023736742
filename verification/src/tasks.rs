//! The task collection and the three operations that change it.

use vstd::prelude::*;
use crate::model::{todos_view, ApiError, Todo, TodoRequest, TodoRequestView, TodoView};

verus! {

/// The number by which a task counts when ids are allotted: its id, or 0 where it has none.
pub open spec fn id_key(t: TodoView) -> int {
    match t.id {
        Some(v) => v as int,
        None => 0,
    }
}

/// The greatest `id_key` in the collection, or 0 for the empty one.
pub open spec fn max_id(s: Seq<TodoView>) -> int
    decreases s.len(),
{
    if s.len() == 0 {
        0
    } else if s.len() == 1 {
        id_key(s[0])
    } else {
        let rest = max_id(s.drop_last());
        let k = id_key(s.last());
        if k > rest { k } else { rest }
    }
}

/// The task `t` with its id set to `id`, all else kept.
pub open spec fn with_id(t: TodoView, id: int) -> TodoView {
    TodoView { id: Some(id as i64), task: t.task, completed: t.completed, assignee: t.assignee, creator: t.creator }
}

/// Some task of the collection has this id.
pub open spec fn has_id(s: Seq<TodoView>, id: i64) -> bool {
    exists|i: int| 0 <= i < s.len() && (#[trigger] s[i]).id == Some(id)
}

/// `i` is the place of the first task with this id.
pub open spec fn is_first_with_id(s: Seq<TodoView>, id: i64, i: int) -> bool {
    &&& 0 <= i < s.len()
    &&& s[i].id == Some(id)
    &&& forall|j: int| 0 <= j < i ==> (#[trigger] s[j]).id != Some(id)
}

/// The place of the first task with this id, where there is one.
pub open spec fn first_with_id(s: Seq<TodoView>, id: i64) -> int {
    choose|i: int| is_first_with_id(s, id, i)
}

/// The collection after an add: the task goes to the end, under the next free id.
pub open spec fn added(s: Seq<TodoView>, t: TodoView) -> Seq<TodoView> {
    s.push(with_id(t, max_id(s) + 1))
}

/// The collection after an update: the first task with that id gives way to `t`,
/// which takes the id; without such a task nothing changes.
pub open spec fn updated(s: Seq<TodoView>, id: i64, t: TodoView) -> Seq<TodoView> {
    if has_id(s, id) {
        s.update(first_with_id(s, id), with_id(t, id as int))
    } else {
        s
    }
}

/// The collection after a delete: every task with that id is gone, the others keep their order.
pub open spec fn deleted(s: Seq<TodoView>, id: i64) -> Seq<TodoView> {
    s.filter(|t: TodoView| t.id != Some(id))
}

/// The greatest id in use, counting a task without id as 0; 0 for the empty collection.
pub fn highest_id(todos: &Vec<Todo>) -> (m: i64)
    ensures
        m == max_id(todos_view(todos@)),
{
    let ghost v = todos_view(todos@);
    if todos.len() == 0 {
        return 0;
    }
    let mut m: i64 = match todos[0].id {
        Some(v) => v,
        None => 0,
    };
    assert(v.take(1).len() == 1);
    assert(v.take(1)[0] == todos@[0]@);
    let mut i: usize = 1;
    while i < todos.len()
        invariant
            1 <= i <= todos.len(),
            v == todos_view(todos@),
            m == max_id(v.take(i as int)),
        decreases todos.len() - i,
    {
        let k: i64 = match todos[i].id {
            Some(v) => v,
            None => 0,
        };
        proof {
            let next = v.take(i + 1);
            assert(next.drop_last() =~= v.take(i as int));
            assert(next.last() == todos@[i as int]@);
        }
        if k > m {
            m = k;
        }
        i += 1;
    }
    assert(v.take(i as int) =~= v);
    m
}

/// The id that the next added task gets: one more than the greatest in use, 1 for the
/// empty collection. An id that a delete freed is given again only if it was the greatest.
pub fn next_id(todos: &Vec<Todo>) -> (id: i64)
    requires
        max_id(todos_view(todos@)) < i64::MAX,
    ensures
        id == max_id(todos_view(todos@)) + 1,
{
    highest_id(todos) + 1
}

/// Appends `todo` under the next free id, whatever id it came with.
pub fn add(todos: &mut Vec<Todo>, todo: Todo)
    requires
        max_id(todos_view(old(todos)@)) < i64::MAX,
    ensures
        todos_view(final(todos)@) == added(todos_view(old(todos)@), todo@),
{
    let id: i64 = next_id(todos);
    let mut todo = todo;
    todo.id = Some(id);
    todos.push(todo);
    assert(todos_view(todos@) =~= added(todos_view(old(todos)@), todo@));
}

/// The place of the first task with this id.
pub fn position(todos: &Vec<Todo>, id: i64) -> (r: Option<usize>)
    ensures
        r is Some <==> has_id(todos_view(todos@), id),
        r matches Some(i) ==> i == first_with_id(todos_view(todos@), id) && is_first_with_id(
            todos_view(todos@),
            id,
            i as int,
        ),
{
    let ghost v = todos_view(todos@);
    let mut i: usize = 0;
    while i < todos.len()
        invariant
            i <= todos.len(),
            v == todos_view(todos@),
            forall|j: int| 0 <= j < i ==> (#[trigger] v[j]).id != Some(id),
        decreases todos.len() - i,
    {
        let hit = match todos[i].id {
            Some(v) => v == id,
            None => false,
        };
        assert(v[i as int] == todos@[i as int]@);
        if hit {
            assert(is_first_with_id(v, id, i as int));
            return Some(i);
        }
        i += 1;
    }
    None
}

/// Puts `todo` in the place of the first task with this id and gives it the id, so that
/// nothing of the old task is left; `NotFound`, and no change, where no task has the id.
pub fn update(todos: &mut Vec<Todo>, id: i64, todo: Todo) -> (r: Result<(), ApiError>)
    ensures
        has_id(todos_view(old(todos)@), id) ==> r == Ok::<(), ApiError>(()),
        !has_id(todos_view(old(todos)@), id) ==> r == Err::<(), ApiError>(ApiError::NotFound),
        todos_view(final(todos)@) == updated(todos_view(old(todos)@), id, todo@),
{
    match position(todos, id) {
        Some(index) => {
            let mut todo = todo;
            todo.id = Some(id);
            todos.set(index, todo);
            assert(todos_view(todos@) =~= updated(todos_view(old(todos)@), id, todo@));
            Ok(())
        },
        None => Err(ApiError::NotFound),
    }
}

/// Removes every task with this id; the others stay as they were. It is no error if there is none.
pub fn delete(todos: &mut Vec<Todo>, id: i64)
    ensures
        todos_view(final(todos)@) == deleted(todos_view(old(todos)@), id),
{
    let ghost orig = todos_view(todos@);
    let ghost keep = |t: TodoView| t.id != Some(id);
    let ghost mut k: int = 0;
    let mut i: usize = 0;
    proof {
        reveal(Seq::filter);
        assert(orig.take(0).filter(keep) =~= todos_view(todos@).take(0));
        assert(todos_view(todos@).skip(0) =~= orig.skip(0));
    }
    while i < todos.len()
        invariant
            0 <= i <= todos.len(),
            i <= k <= orig.len(),
            orig.len() - k == todos.len() - i,
            keep == (|t: TodoView| t.id != Some(id)),
            todos_view(todos@).take(i as int) == orig.take(k).filter(keep),
            todos_view(todos@).skip(i as int) == orig.skip(k),
        decreases todos.len() - i,
    {
        let hit = match todos[i].id {
            Some(v) => v == id,
            None => false,
        };
        let ghost before = todos_view(todos@);
        proof {
            reveal(Seq::filter);
            assert(before[i as int] == todos@[i as int]@);
            assert(before[i as int] == before.skip(i as int)[0]);
            assert(orig[k] == orig.skip(k)[0]);
            assert(orig.take(k + 1).drop_last() =~= orig.take(k));
            assert(orig.take(k + 1).last() == orig[k]);
            assert(before.skip(i + 1) =~= before.skip(i as int).skip(1));
            assert(orig.skip(k + 1) =~= orig.skip(k).skip(1));
        }
        if hit {
            todos.remove(i);
            proof {
                assert(todos_view(todos@) =~= before.remove(i as int));
                assert(todos_view(todos@).take(i as int) =~= before.take(i as int));
                assert(todos_view(todos@).skip(i as int) =~= before.skip(i + 1));
            }
        } else {
            proof {
                assert(before.take(i + 1) =~= before.take(i as int).push(before[i as int]));
            }
            i += 1;
        }
        proof {
            k = k + 1;
        }
    }
    proof {
        assert(todos_view(todos@).take(i as int) =~= todos_view(todos@));
        assert(orig.take(k) =~= orig);
    }
}

/// Whether a request is granted: `add` needs a task, `update` a task, an id and a task
/// with that id, `delete` an id; any other action word is a bad request.
pub open spec fn mutation_outcome(s: Seq<TodoView>, request: TodoRequestView) -> Result<(), ApiError> {
    if request.action == "add"@ {
        if request.todo is Some {
            Ok(())
        } else {
            Err(ApiError::BadRequest)
        }
    } else if request.action == "update"@ {
        if request.id is None || request.todo is None {
            Err(ApiError::BadRequest)
        } else if has_id(s, request.id.unwrap()) {
            Ok(())
        } else {
            Err(ApiError::NotFound)
        }
    } else if request.action == "delete"@ {
        if request.id is Some {
            Ok(())
        } else {
            Err(ApiError::BadRequest)
        }
    } else {
        Err(ApiError::BadRequest)
    }
}

/// The collection after a request: changed by the one operation where the request is
/// granted, and as it was where it is not.
pub open spec fn mutated(s: Seq<TodoView>, request: TodoRequestView) -> Seq<TodoView> {
    if mutation_outcome(s, request) is Err {
        s
    } else if request.action == "add"@ {
        added(s, request.todo.unwrap())
    } else if request.action == "update"@ {
        updated(s, request.id.unwrap(), request.todo.unwrap())
    } else {
        deleted(s, request.id.unwrap())
    }
}

/// The request is an add that will be carried out.
pub open spec fn is_add(request: TodoRequestView) -> bool {
    request.action == "add"@ && request.todo is Some
}

/// Applies one mutation request to the loaded collection. The caller stores the
/// collection after an `Ok`; after an `Err` it is unchanged.
pub fn post_todos(todos: &mut Vec<Todo>, request: TodoRequest) -> (r: Result<(), ApiError>)
    requires
        is_add(request@) ==> max_id(todos_view(old(todos)@)) < i64::MAX,
    ensures
        r == mutation_outcome(todos_view(old(todos)@), request@),
        todos_view(final(todos)@) == mutated(todos_view(old(todos)@), request@),
{
    let TodoRequest { action, todo, id } = request;
    if action == "add".to_owned() {
        match todo {
            Some(t) => {
                self::add(todos, t);
                Ok(())
            },
            None => Err(ApiError::BadRequest),
        }
    } else if action == "update".to_owned() {
        match (id, todo) {
            (Some(target), Some(t)) => update(todos, target, t),
            _ => Err(ApiError::BadRequest),
        }
    } else if action == "delete".to_owned() {
        match id {
            Some(target) => {
                delete(todos, target);
                Ok(())
            },
            None => Err(ApiError::BadRequest),
        }
    } else {
        Err(ApiError::BadRequest)
    }
}

/// The collection that a mutation starts from: the stored one, or the empty one where
/// none could be read.
pub fn starting_collection(stored: Option<Vec<Todo>>) -> (todos: Vec<Todo>)
    ensures
        todos_view(todos@) == (match stored {
            Some(v) => todos_view(v@),
            None => Seq::<TodoView>::empty(),
        }),
        stored matches Some(v) ==> todos@ == v@,
        stored is None ==> todos@.len() == 0,
{
    match stored {
        Some(v) => v,
        None => {
            let todos: Vec<Todo> = Vec::new();
            assert(todos_view(todos@) =~= Seq::<TodoView>::empty());
            todos
        },
    }
}

} // verus!
