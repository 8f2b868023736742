use todo_backend::model::{ApiError, Todo, TodoRequest};
use todo_backend::tasks::{add, delete, highest_id, next_id, position, post_todos, starting_collection, update};

fn task(text: &str) -> Todo {
    Todo { id: None, task: Some(text.to_string()), completed: None, assignee: None, creator: None }
}

fn stored(id: i64, text: &str) -> Todo {
    Todo { id: Some(id), task: Some(text.to_string()), completed: None, assignee: None, creator: None }
}

fn request(action: &str, todo: Option<Todo>, id: Option<i64>) -> TodoRequest {
    TodoRequest { action: action.to_string(), todo, id }
}

fn ids(todos: &Vec<Todo>) -> Vec<Option<i64>> {
    todos.iter().map(|t| t.id).collect()
}

#[test]
fn next_id_of_empty_collection_is_one() {
    let todos: Vec<Todo> = Vec::new();
    assert_eq!(highest_id(&todos), 0);
    assert_eq!(next_id(&todos), 1);
}

#[test]
fn next_id_is_one_above_the_greatest() {
    let todos = vec![stored(4, "a"), stored(9, "b"), stored(2, "c")];
    assert_eq!(highest_id(&todos), 9);
    assert_eq!(next_id(&todos), 10);
}

#[test]
fn task_without_id_counts_as_zero() {
    let todos = vec![task("a")];
    assert_eq!(next_id(&todos), 1);
    let todos = vec![stored(-5, "a")];
    assert_eq!(next_id(&todos), -4);
    let todos = vec![stored(-5, "a"), task("b")];
    assert_eq!(next_id(&todos), 1);
}

#[test]
fn sequential_adds_count_from_one() {
    let mut todos: Vec<Todo> = Vec::new();
    add(&mut todos, task("a"));
    add(&mut todos, task("b"));
    add(&mut todos, task("c"));
    assert_eq!(todos, vec![stored(1, "a"), stored(2, "b"), stored(3, "c")]);
}

#[test]
fn add_overwrites_the_id_of_the_payload() {
    let mut todos = vec![stored(1, "a")];
    add(&mut todos, stored(77, "b"));
    assert_eq!(todos, vec![stored(1, "a"), stored(2, "b")]);
}

#[test]
fn deleting_a_middle_id_does_not_free_it() {
    let mut todos: Vec<Todo> = Vec::new();
    add(&mut todos, task("a"));
    add(&mut todos, task("b"));
    add(&mut todos, task("c"));
    delete(&mut todos, 2);
    assert_eq!(ids(&todos), vec![Some(1), Some(3)]);
    add(&mut todos, task("d"));
    assert_eq!(ids(&todos), vec![Some(1), Some(3), Some(4)]);
}

#[test]
fn deleting_the_greatest_id_frees_it() {
    let mut todos: Vec<Todo> = Vec::new();
    add(&mut todos, task("a"));
    add(&mut todos, task("b"));
    delete(&mut todos, 2);
    add(&mut todos, task("c"));
    assert_eq!(todos, vec![stored(1, "a"), stored(2, "c")]);
}

#[test]
fn delete_removes_every_task_with_the_id() {
    let mut todos = vec![stored(1, "a"), stored(2, "b"), stored(1, "c"), task("d"), stored(3, "e"), stored(1, "f")];
    delete(&mut todos, 1);
    assert_eq!(todos, vec![stored(2, "b"), task("d"), stored(3, "e")]);
}

#[test]
fn delete_of_an_absent_id_changes_nothing() {
    let mut todos = vec![stored(1, "a"), stored(2, "b")];
    delete(&mut todos, 5);
    assert_eq!(todos, vec![stored(1, "a"), stored(2, "b")]);
    let r = post_todos(&mut todos, request("delete", None, Some(5)));
    assert_eq!(r, Ok(()));
    assert_eq!(todos, vec![stored(1, "a"), stored(2, "b")]);
}

#[test]
fn position_is_the_first_match() {
    let todos = vec![stored(1, "a"), stored(2, "b"), stored(2, "c")];
    assert_eq!(position(&todos, 2), Some(1));
    assert_eq!(position(&todos, 1), Some(0));
    assert_eq!(position(&todos, 3), None);
    assert_eq!(position(&vec![task("x")], 0), None);
}

#[test]
fn update_replaces_the_whole_task() {
    let before = Todo {
        id: Some(2),
        task: Some("b".to_string()),
        completed: Some(true),
        assignee: Some("ann".to_string()),
        creator: Some("bob".to_string()),
    };
    let mut todos = vec![stored(1, "a"), before, stored(3, "c")];
    let payload = Todo { id: None, task: Some("new".to_string()), completed: None, assignee: None, creator: None };
    assert_eq!(update(&mut todos, 2, payload), Ok(()));
    assert_eq!(todos, vec![stored(1, "a"), stored(2, "new"), stored(3, "c")]);
    assert_eq!(todos[1].assignee, None);
    assert_eq!(todos[1].completed, None);
}

#[test]
fn update_forces_the_target_id() {
    let mut todos = vec![stored(1, "a"), stored(2, "b")];
    assert_eq!(update(&mut todos, 1, stored(2, "forged")), Ok(()));
    assert_eq!(todos, vec![stored(1, "forged"), stored(2, "b")]);
}

#[test]
fn update_touches_only_the_first_match() {
    let mut todos = vec![stored(2, "a"), stored(2, "b")];
    assert_eq!(update(&mut todos, 2, task("n")), Ok(()));
    assert_eq!(todos, vec![stored(2, "n"), stored(2, "b")]);
}

#[test]
fn update_of_an_absent_id_is_not_found() {
    let mut todos = vec![stored(1, "a")];
    assert_eq!(update(&mut todos, 9, task("n")), Err(ApiError::NotFound));
    assert_eq!(todos, vec![stored(1, "a")]);
    let r = post_todos(&mut todos, request("update", Some(task("n")), Some(9)));
    assert_eq!(r, Err(ApiError::NotFound));
    assert_eq!(r.unwrap_err().status_code(), 404);
    assert_eq!(todos, vec![stored(1, "a")]);
}

#[test]
fn post_add_appends() {
    let mut todos = vec![stored(3, "a")];
    let r = post_todos(&mut todos, request("add", Some(task("b")), Some(1)));
    assert_eq!(r, Ok(()));
    assert_eq!(todos, vec![stored(3, "a"), stored(4, "b")]);
}

#[test]
fn post_update_and_delete() {
    let mut todos = vec![stored(1, "a"), stored(2, "b")];
    assert_eq!(post_todos(&mut todos, request("update", Some(task("z")), Some(2))), Ok(()));
    assert_eq!(todos, vec![stored(1, "a"), stored(2, "z")]);
    assert_eq!(post_todos(&mut todos, request("delete", Some(task("ignored")), Some(1))), Ok(()));
    assert_eq!(todos, vec![stored(2, "z")]);
}

#[test]
fn missing_fields_are_bad_requests() {
    let mut todos = vec![stored(1, "a")];
    assert_eq!(post_todos(&mut todos, request("add", None, Some(1))), Err(ApiError::BadRequest));
    assert_eq!(post_todos(&mut todos, request("update", None, Some(1))), Err(ApiError::BadRequest));
    assert_eq!(post_todos(&mut todos, request("update", Some(task("x")), None)), Err(ApiError::BadRequest));
    assert_eq!(post_todos(&mut todos, request("update", None, None)), Err(ApiError::BadRequest));
    assert_eq!(post_todos(&mut todos, request("delete", Some(task("x")), None)), Err(ApiError::BadRequest));
    assert_eq!(todos, vec![stored(1, "a")]);
}

#[test]
fn unknown_actions_are_bad_requests() {
    let mut todos = vec![stored(1, "a")];
    for word in ["", "ADD", "Add", "remove", "add ", "deleted"] {
        let r = post_todos(&mut todos, request(word, Some(task("x")), Some(1)));
        assert_eq!(r, Err(ApiError::BadRequest));
    }
    assert_eq!(todos, vec![stored(1, "a")]);
}

#[test]
fn a_missing_snapshot_is_an_empty_collection() {
    assert_eq!(starting_collection(None), Vec::<Todo>::new());
    assert_eq!(starting_collection(Some(vec![stored(1, "a")])), vec![stored(1, "a")]);
}

#[test]
fn status_codes() {
    assert_eq!(ApiError::BadRequest.status_code(), 400);
    assert_eq!(ApiError::Unauthenticated.status_code(), 401);
    assert_eq!(ApiError::Forbidden.status_code(), 403);
    assert_eq!(ApiError::NotFound.status_code(), 404);
    assert_eq!(ApiError::InternalError.status_code(), 500);
}
