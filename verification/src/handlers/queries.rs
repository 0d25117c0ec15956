//! Reading what is stored, and logging in.

use crate::models::user::UserModel;
use crate::schema::{
    ApiError, ApiResponse, Envelope, STATUS_BAD_REQUEST, STATUS_INTERNAL_SERVER_ERROR,
    STATUS_NOT_FOUND, STATUS_UNAUTHORIZED,
};
use crate::utils::hash::{hash_comparison, verify_hash_password};
use crate::utils::helper::validate_email;
use crate::utils::pattern::{email_pattern, email_verdict, regex_matching};
use vstd::prelude::*;

verus! {

/// A record that was asked for by its identifier: the record where the
/// store holds it for this owner, status 404 with `message` where it holds
/// none.
pub fn found_or_missing<T>(row: Option<T>, message: &str) -> (r: Result<T, ApiError>)
    ensures
        match row {
            Some(record) => r == Ok::<T, ApiError>(record),
            None => r matches Err(e) && e.is_error_with(message@, STATUS_NOT_FOUND),
        },
{
    match row {
        Some(record) => Ok(record),
        None => Err(ApiResponse::error(message, STATUS_NOT_FOUND)),
    }
}

/// The answer to a request for one expense, from what the store holds.
pub fn get_expense_by_id<T>(row: Option<T>) -> (r: Result<T, ApiError>)
    ensures
        match row {
            Some(record) => r == Ok::<T, ApiError>(record),
            None => r matches Err(e) && e.is_error_with("Expense not found"@, STATUS_NOT_FOUND),
        },
{
    found_or_missing(row, "Expense not found")
}

/// The answer to a request for one budget, from what the store holds.
pub fn get_budget_by_id<T>(row: Option<T>) -> (r: Result<T, ApiError>)
    ensures
        match row {
            Some(record) => r == Ok::<T, ApiError>(record),
            None => r matches Err(e) && e.is_error_with("Budget not found"@, STATUS_NOT_FOUND),
        },
{
    found_or_missing(row, "Budget not found")
}

/// Judges the address of a login before the store is asked.
pub fn login_user(email: &str) -> (r: Result<(), ApiError>)
    ensures
        match email_verdict(regex_matching(email_pattern(), email@)) {
            Ok(true) => r is Ok,
            Ok(false) => r matches Err(e) && e.is_error_with(
                "Not a valid email"@,
                STATUS_BAD_REQUEST,
            ),
            Err(reason) => r matches Err(e) && e.is_error_with(
                reason,
                STATUS_INTERNAL_SERVER_ERROR,
            ),
        },
{
    validate_email(email)
}

/// The objection, if any, to a login: that there is no account, that the
/// stored hash cannot be read, or that the password is not the account's.
/// `compared` is what comparing the password with the stored hash gave.
pub open spec fn login_refusal(found: bool, compared: Option<bool>) -> Option<
    Envelope<serde_json::Value>,
> {
    if !found {
        Some(Envelope::of_error("User doesn't exists"@, STATUS_UNAUTHORIZED))
    } else {
        match compared {
            None => Some(
                Envelope::of_error(
                    "\"Failed to verify password\": \"Failed to verify hash_password\""@,
                    STATUS_INTERNAL_SERVER_ERROR,
                ),
            ),
            Some(false) => Some(
                Envelope::of_error(
                    "Password doesn't match, please check again"@,
                    STATUS_UNAUTHORIZED,
                ),
            ),
            Some(true) => None,
        }
    }
}

/// Judges a login against the account the store holds for the address
/// (`None` where it holds none): the account where the password is its own,
/// else the refusal.
pub fn check_password(user: Option<UserModel>, password: &str) -> (r: Result<UserModel, ApiError>)
    ensures
        match user {
            None => r matches Err(e) && Some(e@) == login_refusal(false, None),
            Some(account) => match login_refusal(
                true,
                hash_comparison(password@, account.password_hash@),
            ) {
                Some(refusal) => r matches Err(e) && e@ == refusal,
                None => r == Ok::<UserModel, ApiError>(account),
            },
        },
{
    let account = match user {
        Some(account) => account,
        None => {
            return Err(ApiResponse::error("User doesn't exists", STATUS_UNAUTHORIZED));
        },
    };
    let compared = match verify_hash_password(password, account.password_hash.as_str()) {
        Ok(same) => Some(same),
        Err(_) => None,
    };
    match compared {
        None => Err(
            ApiResponse::error(
                "\"Failed to verify password\": \"Failed to verify hash_password\"",
                STATUS_INTERNAL_SERVER_ERROR,
            ),
        ),
        Some(false) => Err(
            ApiResponse::error("Password doesn't match, please check again", STATUS_UNAUTHORIZED),
        ),
        Some(true) => Ok(account),
    }
}

} // verus!
