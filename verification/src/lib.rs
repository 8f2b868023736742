//! A small task tracker: anonymous readers list tasks, administrators who hold
//! a signed session token add, replace and delete them.
//!
//! The crate holds the decisions of that service as verified functions on
//! plain values; reading and writing the snapshots and speaking HTTP is left
//! to the program around it.

pub mod auth;
pub mod model;
pub mod service;
pub mod task_laws;
pub mod tasks;
pub mod token;

pub use model::{AdminUser, ApiError, AppState, AuthError, Claims, LoginRequest, Todo, TodoRequest};
