//! Externally supplied credentials.
use crate::client::UserAuthentication;
use crate::errors::{ErrorKind, ValClientError};
use vstd::prelude::*;

verus! {

/// A user name and password for remote authentication.
#[derive(Debug)]
pub struct Auth {
    pub username: String,
    pub password: String,
}

impl Auth {
    pub fn new(username: String, password: String) -> (r: Self)
        ensures
            r.username == username,
            r.password == password,
    {
        Self { username, password }
    }

    /// Empty credentials.
    pub fn none() -> (r: Self)
        ensures
            r.username@ == Seq::<char>::empty(),
            r.password@ == Seq::<char>::empty(),
    {
        Self { username: String::new(), password: String::new() }
    }

    /// Remote authentication with user name and password; not supported, so
    /// it always fails.
    pub fn authenticate(&self) -> (r: Result<UserAuthentication, ValClientError>)
        ensures
            r matches Err(e) && e.kind == ErrorKind::Unsupported && e.data@ == "Authentication failed"@
                && e.debug@ == "Username authentication is not supported yet"@,
    {
        Err(
            ValClientError::with_kind(
                ErrorKind::Unsupported,
                "Authentication failed",
                "Username authentication is not supported yet",
            ),
        )
    }
}

} // verus!
