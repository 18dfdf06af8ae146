//! The records of the account store: tasks and users. The store itself
//! lives outside the library.
use vstd::prelude::*;

verus! {

/// A stored task.
#[derive(Debug, Clone, PartialEq, Eq)]
pub struct Task {
    pub id: i64,
    pub title: String,
}

/// The fields of a task to be created.
#[derive(Debug, Clone, PartialEq, Eq)]
pub struct TaskForCreate {
    pub title: String,
}

/// The fields of a task to be changed; an absent field is left as it is.
#[derive(Debug, Clone, PartialEq, Eq)]
pub struct TaskForUpdate {
    pub title: Option<String>,
}

/// A stored user, without credentials.
#[derive(Debug, Clone, PartialEq, Eq)]
pub struct User {
    pub id: i64,
    pub username: String,
}

/// The fields of a user to be created; the password in clear.
#[derive(Debug, Clone, PartialEq, Eq)]
pub struct UserForCreate {
    pub username: String,
    pub pwd_clear: String,
}

} // verus!
