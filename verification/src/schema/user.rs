//! Request bodies for users.

use vstd::prelude::*;

verus! {

/// The body of a registration.
#[derive(Debug, Clone, PartialEq, Eq)]
pub struct CreateUserSchema {
    pub name: String,
    pub email: String,
    pub password: String,
}

/// The body of a login; the address comes with the path.
#[derive(Debug, Clone, PartialEq, Eq)]
pub struct LoginUserSchema {
    pub password: String,
}

} // verus!
