//! The records that the service works on, and its error taxonomy.

use vstd::prelude::*;

verus! {

/// One administrator: a username and the password that goes with it, compared as plain text.
#[derive(Clone, Debug, PartialEq, Eq)]
pub struct AdminUser {
    pub username: String,
    pub password: String,
}

/// What every request handler shares: the administrators and the key that signs tokens.
#[derive(Clone, Debug)]
pub struct AppState {
    pub admins: Vec<AdminUser>,
    pub jwt_secret: String,
}

/// The content of a session token: who it was issued to, and the second at which it ends.
#[derive(Clone, Debug, PartialEq, Eq)]
pub struct Claims {
    pub sub: String,
    pub exp: i64,
}

/// The body of a login request.
#[derive(Clone, Debug, PartialEq, Eq)]
pub struct LoginRequest {
    pub username: String,
    pub password: String,
}

/// A task. Every field may be absent; a stored task carries an id.
#[derive(Clone, Debug, PartialEq, Eq)]
pub struct Todo {
    pub id: Option<i64>,
    pub task: Option<String>,
    pub completed: Option<bool>,
    pub assignee: Option<String>,
    pub creator: Option<String>,
}

/// The body of a mutation request: an action word, and the task and id it may need.
#[derive(Clone, Debug, PartialEq, Eq)]
pub struct TodoRequest {
    pub action: String,
    pub todo: Option<Todo>,
    pub id: Option<i64>,
}

/// An administrator as a pair of texts.
pub struct AdminUserView {
    pub username: Seq<char>,
    pub password: Seq<char>,
}

/// The shared state as values: the administrators in order, and the key's text.
pub struct AppStateView {
    pub admins: Seq<AdminUserView>,
    pub jwt_secret: Seq<char>,
}

/// Claims as values: the subject's text and the second of the end.
pub struct ClaimsView {
    pub sub: Seq<char>,
    pub exp: int,
}

/// A login request as a pair of texts.
pub struct LoginRequestView {
    pub username: Seq<char>,
    pub password: Seq<char>,
}

/// A task as values, each field present or absent.
pub struct TodoView {
    pub id: Option<i64>,
    pub task: Option<Seq<char>>,
    pub completed: Option<bool>,
    pub assignee: Option<Seq<char>>,
    pub creator: Option<Seq<char>>,
}

/// A mutation request as values.
pub struct TodoRequestView {
    pub action: Seq<char>,
    pub todo: Option<TodoView>,
    pub id: Option<i64>,
}

/// The text of a string that may be absent.
pub open spec fn text_view(s: Option<String>) -> Option<Seq<char>> {
    match s {
        Some(t) => Some(t@),
        None => None,
    }
}

/// The task that may be absent, as values.
pub open spec fn todo_option_view(t: Option<Todo>) -> Option<TodoView> {
    match t {
        Some(t) => Some(t@),
        None => None,
    }
}

/// The tasks of a collection as values, in their order.
pub open spec fn todos_view(s: Seq<Todo>) -> Seq<TodoView> {
    s.map_values(|t: Todo| t@)
}

/// The administrators as values, in their order.
pub open spec fn admins_view(s: Seq<AdminUser>) -> Seq<AdminUserView> {
    s.map_values(|a: AdminUser| a@)
}

impl View for AdminUser {
    type V = AdminUserView;

    open spec fn view(&self) -> AdminUserView {
        AdminUserView { username: self.username@, password: self.password@ }
    }
}

impl View for AppState {
    type V = AppStateView;

    open spec fn view(&self) -> AppStateView {
        AppStateView { admins: admins_view(self.admins@), jwt_secret: self.jwt_secret@ }
    }
}

impl View for Claims {
    type V = ClaimsView;

    open spec fn view(&self) -> ClaimsView {
        ClaimsView { sub: self.sub@, exp: self.exp as int }
    }
}

impl View for LoginRequest {
    type V = LoginRequestView;

    open spec fn view(&self) -> LoginRequestView {
        LoginRequestView { username: self.username@, password: self.password@ }
    }
}

impl View for Todo {
    type V = TodoView;

    open spec fn view(&self) -> TodoView {
        TodoView {
            id: self.id,
            task: text_view(self.task),
            completed: self.completed,
            assignee: text_view(self.assignee),
            creator: text_view(self.creator),
        }
    }
}

impl View for TodoRequest {
    type V = TodoRequestView;

    open spec fn view(&self) -> TodoRequestView {
        TodoRequestView { action: self.action@, todo: todo_option_view(self.todo), id: self.id }
    }
}

/// Why a request was turned down.
#[derive(Clone, Copy, Debug, PartialEq, Eq, Structural)]
pub enum ApiError {
    /// The request is malformed or lacks a field that its action needs.
    BadRequest,
    /// No token, or one that is malformed, wrongly signed or expired.
    Unauthenticated,
    /// A good token whose subject is not an administrator.
    Forbidden,
    /// The task to update does not exist.
    NotFound,
    /// Signing or storing failed.
    InternalError,
}

/// Why a token was turned down.
#[derive(Clone, Copy, Debug, PartialEq, Eq, Structural)]
pub enum AuthError {
    /// The token is not one that this key signed, or its claims are not a session's.
    InvalidSignature,
    /// The token's end has come.
    Expired,
}

impl ApiError {
    /// The HTTP status that stands for this error.
    pub open spec fn status(self) -> int {
        match self {
            ApiError::BadRequest => 400,
            ApiError::Unauthenticated => 401,
            ApiError::Forbidden => 403,
            ApiError::NotFound => 404,
            ApiError::InternalError => 500,
        }
    }

    /// The HTTP status that stands for this error.
    pub fn status_code(&self) -> (code: u16)
        ensures
            code == self.status(),
    {
        match self {
            ApiError::BadRequest => 400,
            ApiError::Unauthenticated => 401,
            ApiError::Forbidden => 403,
            ApiError::NotFound => 404,
            ApiError::InternalError => 500,
        }
    }
}

} // verus!
