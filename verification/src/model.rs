//! The domain entity, the uniform response envelope, and the error type that
//! carries a storage failure's descriptive text.

use vstd::prelude::*;

verus! {

/// Mathematical view of a stored user row: each field as a character
/// sequence.
pub struct UserView {
    pub id: Seq<char>,
    pub username: Seq<char>,
    pub password: Seq<char>,
}

/// The only entity of the service. The `id` is generated by the service at
/// creation time and never changes; `username` and `password` are stored
/// exactly as supplied (no hashing, no normalization).
#[derive(Debug)]
pub struct User {
    pub id: String,
    pub username: String,
    pub password: String,
}

impl View for User {
    type V = UserView;

    open spec fn view(&self) -> UserView {
        UserView { id: self.id@, username: self.username@, password: self.password@ }
    }
}

impl User {
    /// A fresh copy of the row, field by field.
    pub fn duplicate(&self) -> (r: User)
        ensures
            r@ == self@,
    {
        User { id: self.id.clone(), username: self.username.clone(), password: self.password.clone() }
    }
}

/// A failure reported by the storage layer, reduced to its descriptive
/// message. Every storage failure is surfaced through this one kind; none is
/// retried.
#[derive(Debug)]
pub struct StorageError {
    pub msg: String,
}

/// The uniform response envelope: every operation's outcome is reported
/// through it, success and failure alike. `data` is present only on success
/// and only when the operation naturally returns a value.
pub struct Response<T> {
    pub was_success: bool,
    pub data: Option<T>,
    pub msg: String,
}

impl<T> Response<T> {
    /// The failure envelope: no payload, the given message.
    pub fn with_error(msg: String) -> (r: Self)
        ensures
            !r.was_success,
            r.data is None,
            r.msg == msg,
    {
        Response { was_success: false, data: None, msg }
    }
}

} // verus!
