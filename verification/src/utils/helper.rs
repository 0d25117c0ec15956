//! The rules that every handler applies to names, passwords and addresses,
//! and the envelope each broken rule is answered with.

use crate::schema::{ApiResponse, STATUS_BAD_REQUEST, STATUS_INTERNAL_SERVER_ERROR};
use crate::utils::pattern::{email_pattern, email_verdict, is_valid_email, regex_matching};
use vstd::prelude::*;
use vstd::utf8::encode_utf8;

verus! {

/// The shortest name, in bytes.
pub const MIN_NAME_BYTES: usize = 2;

/// The shortest password, in bytes.
pub const MIN_PASSWORD_BYTES: usize = 8;

/// The length of a text in bytes, as it is stored and sent (UTF-8).
pub open spec fn byte_length(text: Seq<char>) -> nat {
    encode_utf8(text).len()
}

/// A name is accepted where it is at least two bytes long.
pub fn validate_name(name: &str) -> (r: Result<(), ApiResponse<serde_json::Value>>)
    ensures
        match r {
            Ok(_) => byte_length(name@) >= MIN_NAME_BYTES,
            Err(refusal) => byte_length(name@) < MIN_NAME_BYTES && refusal.is_error_with(
                "name min length 2"@,
                STATUS_BAD_REQUEST,
            ),
        },
{
    if name.as_bytes().len() < MIN_NAME_BYTES {
        return Err(ApiResponse::error("name min length 2", STATUS_BAD_REQUEST));
    }
    Ok(())
}

/// A password is accepted where it is at least eight bytes long.
pub fn validate_password(password: &str) -> (r: Result<(), ApiResponse<serde_json::Value>>)
    ensures
        match r {
            Ok(_) => byte_length(password@) >= MIN_PASSWORD_BYTES,
            Err(refusal) => byte_length(password@) < MIN_PASSWORD_BYTES && refusal.is_error_with(
                "password min length 8"@,
                STATUS_BAD_REQUEST,
            ),
        },
{
    if password.as_bytes().len() < MIN_PASSWORD_BYTES {
        return Err(ApiResponse::error("password min length 8", STATUS_BAD_REQUEST));
    }
    Ok(())
}

/// Whether a judged address passes: it does where it has the shape of an
/// address. One that has not is the caller's mistake; a judgement that
/// failed is the service's.
pub open spec fn email_accepted(verdict: Result<bool, Seq<char>>) -> bool {
    verdict == Ok::<bool, Seq<char>>(true)
}

/// The answer to an address that was judged: nothing to object where it has
/// the shape of an address, status 400 where it has not, and status 500 with
/// the reason where the judgement itself failed.
pub fn email_judgement(verdict: Result<bool, String>) -> (r: Result<
    (),
    ApiResponse<serde_json::Value>,
>)
    ensures
        match verdict {
            Ok(true) => r is Ok,
            Ok(false) => r matches Err(refusal) && refusal.is_error_with(
                "Not a valid email"@,
                STATUS_BAD_REQUEST,
            ),
            Err(reason) => r matches Err(refusal) && refusal.is_error_with(
                reason@,
                STATUS_INTERNAL_SERVER_ERROR,
            ),
        },
{
    match verdict {
        Ok(true) => Ok(()),
        Ok(false) => Err(ApiResponse::error("Not a valid email", STATUS_BAD_REQUEST)),
        Err(reason) => Err(ApiResponse::error(reason.as_str(), STATUS_INTERNAL_SERVER_ERROR)),
    }
}

/// An address is accepted where it has the shape of an address.
pub fn validate_email(email: &str) -> (r: Result<(), ApiResponse<serde_json::Value>>)
    ensures
        match email_verdict(regex_matching(email_pattern(), email@)) {
            Ok(true) => r is Ok,
            Ok(false) => r matches Err(refusal) && refusal.is_error_with(
                "Not a valid email"@,
                STATUS_BAD_REQUEST,
            ),
            Err(reason) => r matches Err(refusal) && refusal.is_error_with(
                reason,
                STATUS_INTERNAL_SERVER_ERROR,
            ),
        },
{
    email_judgement(is_valid_email(email))
}

/// The answer to a failure of the store: status 500, with the store's own
/// words.
pub fn storage_failure(reason: &str) -> (r: ApiResponse<serde_json::Value>)
    ensures
        r.is_error_with(reason@, STATUS_INTERNAL_SERVER_ERROR),
{
    ApiResponse::error(reason, STATUS_INTERNAL_SERVER_ERROR)
}

/// What looking for an account gave.
#[derive(Debug, Clone, PartialEq, Eq)]
pub enum AccountLookup {
    /// There is such an account.
    Found,
    /// There is none.
    Missing,
    /// The store failed, with its own words.
    Failed(String),
}

/// The mathematical value of an `AccountLookup`.
pub enum AccountLookupView {
    Found,
    Missing,
    Failed(Seq<char>),
}

impl View for AccountLookup {
    type V = AccountLookupView;

    open spec fn view(&self) -> AccountLookupView {
        match self {
            AccountLookup::Found => AccountLookupView::Found,
            AccountLookup::Missing => AccountLookupView::Missing,
            AccountLookup::Failed(reason) => AccountLookupView::Failed(reason@),
        }
    }
}

/// Whether an account exists, from what looking for it gave; a failure of
/// the store is answered with status 500.
pub fn user_exists(lookup: AccountLookup) -> (r: Result<bool, ApiResponse<serde_json::Value>>)
    ensures
        match lookup {
            AccountLookup::Found => r == Ok::<bool, ApiResponse<serde_json::Value>>(true),
            AccountLookup::Missing => r == Ok::<bool, ApiResponse<serde_json::Value>>(false),
            AccountLookup::Failed(reason) => r matches Err(refusal) && refusal.is_error_with(
                reason@,
                STATUS_INTERNAL_SERVER_ERROR,
            ),
        },
{
    match lookup {
        AccountLookup::Found => Ok(true),
        AccountLookup::Missing => Ok(false),
        AccountLookup::Failed(reason) => Err(storage_failure(reason.as_str())),
    }
}

} // verus!
