//! Users.

use crate::schema::Instant;
use vstd::prelude::*;

verus! {

/// An account.
#[derive(Debug, Clone, PartialEq, Eq)]
pub struct UserModel {
    pub user_id: u128,
    pub name: String,
    pub email: String,
    pub password_hash: String,
    pub created_at: Option<Instant>,
    pub updated_at: Option<Instant>,
}

} // verus!
