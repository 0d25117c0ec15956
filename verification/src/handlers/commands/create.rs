//! Creating users, expenses, budgets and categories.

use crate::handlers::budget_alert::{
    alert_step, budget_evaluation_step, AlertAction, AlertEvent, AlertEventView, AlertState,
    AlertStateView,
};
use crate::schema::{
    ApiError, ApiResponse, CreateBudgetSchema, CreateCategorySchema, CreateExpenseSchema,
    CreateUserSchema, DayNumber, Envelope, STATUS_BAD_REQUEST, STATUS_CONFLICT,
    STATUS_INTERNAL_SERVER_ERROR,
};
use crate::utils::hash::{hash_comparison, hash_password};
use crate::utils::helper::{
    byte_length, validate_email, validate_name, validate_password, MIN_NAME_BYTES,
    MIN_PASSWORD_BYTES,
};
use crate::utils::ids::{parse_uuid, uuid_parsing};
use crate::utils::jwt::{issued_token, second, sign, text_of, JwtPayload, Subject};
use crate::utils::pattern::{email_pattern, email_verdict, regex_matching};
use crate::utils::text::chars_of;
use vstd::prelude::*;

verus! {

/// The objection, if any, to a registration: the name, the password and the
/// address are judged in this order, and the first rule that is broken
/// decides. `judged` is what judging the address gave.
pub open spec fn registration_refusal(
    name: Seq<char>,
    password: Seq<char>,
    judged: Result<bool, Seq<char>>,
) -> Option<Envelope<serde_json::Value>> {
    if byte_length(name) < MIN_NAME_BYTES {
        Some(Envelope::of_error("name min length 2"@, STATUS_BAD_REQUEST))
    } else if byte_length(password) < MIN_PASSWORD_BYTES {
        Some(Envelope::of_error("password min length 8"@, STATUS_BAD_REQUEST))
    } else {
        match judged {
            Ok(true) => None,
            Ok(false) => Some(Envelope::of_error("Not a valid email"@, STATUS_BAD_REQUEST)),
            Err(reason) => Some(Envelope::of_error(reason, STATUS_INTERNAL_SERVER_ERROR)),
        }
    }
}

/// Judges a registration before anything is asked of the store.
pub fn create_user(body: &CreateUserSchema) -> (r: Result<(), ApiError>)
    ensures
        match registration_refusal(
            body.name@,
            body.password@,
            email_verdict(regex_matching(email_pattern(), body.email@)),
        ) {
            None => r is Ok,
            Some(refusal) => r matches Err(e) && e@ == refusal,
        },
{
    validate_name(body.name.as_str())?;
    validate_password(body.password.as_str())?;
    validate_email(body.email.as_str())?;
    Ok(())
}

/// A registration for an address that already has an account is refused.
pub fn reject_existing_user(exists: bool) -> (r: Result<(), ApiError>)
    ensures
        match r {
            Ok(_) => !exists,
            Err(e) => exists && e.is_error_with("User already exists"@, STATUS_CONFLICT),
        },
{
    if exists {
        return Err(ApiResponse::error("User already exists", STATUS_CONFLICT));
    }
    Ok(())
}

/// Hashes the password of a registration; a failure is the service's. The
/// hash that comes back is one that the password verifies against.
pub fn hash_new_password(password: &str) -> (r: Result<String, ApiError>)
    ensures
        match r {
            Ok(hashed) => hash_comparison(password@, hashed@) == Some(true),
            Err(e) => e.is_error_with("Failed to hash password"@, STATUS_INTERNAL_SERVER_ERROR),
        },
{
    match hash_password(password) {
        Ok(hashed) => Ok(hashed),
        Err(reason) => Err(ApiResponse::error(reason, STATUS_INTERNAL_SERVER_ERROR)),
    }
}

/// The answer to an attempt to issue a token: the token, or status 500 with
/// the reason.
pub fn token_or_failure(issued: Result<String, String>) -> (r: Result<String, ApiError>)
    ensures
        match issued {
            Ok(token) => r == Ok::<String, ApiError>(token),
            Err(reason) => r matches Err(e) && e.is_error_with(
                reason@,
                STATUS_INTERNAL_SERVER_ERROR,
            ),
        },
{
    match issued {
        Ok(token) => Ok(token),
        Err(reason) => Err(ApiResponse::error(reason.as_str(), STATUS_INTERNAL_SERVER_ERROR)),
    }
}

/// Issues the token of an account that has just been stored or has just
/// logged in, at a reading of the clock; a failure is the service's.
pub fn issue_token(email: &str, user_id: u128, secret: &str, reading: i64) -> (r: Result<
    String,
    ApiError,
>)
    ensures
        match r {
            Ok(token) => issued_token(Subject { email: email@, user_id }, secret@, second(reading))
                == Some(token@),
            Err(e) => issued_token(Subject { email: email@, user_id }, secret@, second(reading))
                is None && e.is_error_with(
                "Error encoding jwt token"@,
                STATUS_INTERNAL_SERVER_ERROR,
            ),
        },
{
    token_or_failure(sign(JwtPayload { email: email.to_owned(), user_id }, secret, reading))
}

/// What is stored for a new expense.
#[derive(Debug, Clone, PartialEq, Eq)]
pub struct NewExpense {
    pub name: String,
    pub amount: i64,
    pub date: DayNumber,
    pub description: Option<String>,
    pub category_id: Option<i32>,
    pub user_id: u128,
    pub budget_id: Option<u128>,
}

/// The budget that a request names: none, the one its text stands for, or a
/// text that is no identifier.
pub open spec fn named_budget(text: Option<Seq<char>>) -> Result<Option<u128>, ()> {
    match text {
        None => Ok(None),
        Some(t) => match uuid_parsing(t) {
            Some(id) => Ok(Some(id)),
            None => Err(()),
        },
    }
}

/// The objection, if any, to a new expense: the name, the amount and the
/// budget's identifier are judged in this order.
pub open spec fn expense_refusal(name: Seq<char>, amount: i64, budget: Option<Seq<char>>) -> Option<
    Envelope<serde_json::Value>,
> {
    if byte_length(name) < MIN_NAME_BYTES {
        Some(Envelope::of_error("name min length 2"@, STATUS_BAD_REQUEST))
    } else if amount <= 0 {
        Some(Envelope::of_error("Amount can't be less than zero"@, STATUS_BAD_REQUEST))
    } else if named_budget(budget) is Err {
        Some(Envelope::of_error("Invalid budget ID format"@, STATUS_BAD_REQUEST))
    } else {
        None
    }
}

/// Reads the budget that a request names.
pub fn budget_reference(text: &Option<String>) -> (r: Result<Option<u128>, ApiError>)
    ensures
        match named_budget(text_of(*text)) {
            Ok(budget) => r == Ok::<Option<u128>, ApiError>(budget),
            Err(_) => r matches Err(e) && e.is_error_with(
                "Invalid budget ID format"@,
                STATUS_BAD_REQUEST,
            ),
        },
{
    match text {
        None => Ok(None),
        Some(t) => match parse_uuid(t.as_str()) {
            Some(id) => Ok(Some(id)),
            None => Err(ApiResponse::error("Invalid budget ID format", STATUS_BAD_REQUEST)),
        },
    }
}

/// Judges a new expense for `user_id`: what is to be stored, or the refusal.
pub fn create_expense(user_id: u128, body: CreateExpenseSchema) -> (r: Result<NewExpense, ApiError>)
    ensures
        match expense_refusal(body.name@, body.amount, text_of(body.budget_id)) {
            Some(refusal) => r matches Err(e) && e@ == refusal,
            None => r matches Ok(expense) && expense.name == body.name && expense.amount
                == body.amount && expense.date == body.date && expense.description
                == body.description && expense.category_id == body.category_id && expense.user_id
                == user_id && Ok::<Option<u128>, ()>(expense.budget_id) == named_budget(
                text_of(body.budget_id),
            ),
        },
{
    validate_name(body.name.as_str())?;
    if body.amount <= 0 {
        return Err(ApiResponse::error("Amount can't be less than zero", STATUS_BAD_REQUEST));
    }
    let budget_id = budget_reference(&body.budget_id)?;
    Ok(
        NewExpense {
            name: body.name,
            amount: body.amount,
            date: body.date,
            description: body.description,
            category_id: body.category_id,
            user_id,
            budget_id,
        },
    )
}

/// What follows the storing of an expense: the first step of its budget's
/// evaluation. An expense that names no budget leaves nothing to do.
pub fn after_expense_stored(expense: &NewExpense) -> (next: (AlertState, AlertAction))
    ensures
        (next.0@, next.1@) == alert_step(
            AlertStateView::Idle,
            AlertEventView::ExpenseCreated {
                budget_id: expense.budget_id,
                user_id: expense.user_id,
            },
        ),
{
    budget_evaluation_step(
        AlertState::Idle,
        AlertEvent::ExpenseCreated { budget_id: expense.budget_id, user_id: expense.user_id },
    )
}

/// What is stored for a new budget.
#[derive(Debug, Clone, PartialEq, Eq)]
pub struct NewBudget {
    pub name: String,
    pub amount: i64,
    pub start_date: DayNumber,
    pub end_date: DayNumber,
    pub user_id: u128,
}

/// The objection, if any, to a budget with these values: the name, the
/// amount and the dates are judged in this order.
pub open spec fn budget_refusal(
    name: Seq<char>,
    amount: i64,
    start_date: DayNumber,
    end_date: DayNumber,
) -> Option<Envelope<serde_json::Value>> {
    if byte_length(name) < MIN_NAME_BYTES {
        Some(Envelope::of_error("name min length 2"@, STATUS_BAD_REQUEST))
    } else if amount <= 0 {
        Some(Envelope::of_error("Amount can't be less than zero"@, STATUS_BAD_REQUEST))
    } else if end_date <= start_date {
        Some(Envelope::of_error("End date must be after start date"@, STATUS_BAD_REQUEST))
    } else {
        None
    }
}

/// Judges a new budget for `user_id`: what is to be stored, or the refusal.
/// What is stored has a positive amount and ends after it starts.
pub fn create_budget(user_id: u128, body: CreateBudgetSchema) -> (r: Result<NewBudget, ApiError>)
    ensures
        match budget_refusal(body.name@, body.amount, body.start_date, body.end_date) {
            Some(refusal) => r matches Err(e) && e@ == refusal,
            None => r matches Ok(budget) && budget.name == body.name && budget.amount
                == body.amount && budget.start_date == body.start_date && budget.end_date
                == body.end_date && budget.user_id == user_id,
        },
        r matches Ok(budget) ==> budget.amount > 0 && budget.end_date > budget.start_date,
{
    validate_name(body.name.as_str())?;
    if body.amount <= 0 {
        return Err(ApiResponse::error("Amount can't be less than zero", STATUS_BAD_REQUEST));
    }
    if body.end_date <= body.start_date {
        return Err(ApiResponse::error("End date must be after start date", STATUS_BAD_REQUEST));
    }
    Ok(
        NewBudget {
            name: body.name,
            amount: body.amount,
            start_date: body.start_date,
            end_date: body.end_date,
            user_id,
        },
    )
}

/// Whether a character is white space.
pub open spec fn is_blank(c: char) -> bool {
    c == ' ' || c == '\t' || c == '\n' || c == '\r' || c == '\u{0B}' || c == '\u{0C}' || c
        == '\u{85}' || c == '\u{A0}' || c == '\u{1680}' || ('\u{2000}' <= c && c <= '\u{200A}')
        || c == '\u{2028}' || c == '\u{2029}' || c == '\u{202F}' || c == '\u{205F}' || c
        == '\u{3000}'
}

/// Whether a text holds nothing but white space.
pub open spec fn is_blank_text(text: Seq<char>) -> bool {
    forall|i: int| 0 <= i < text.len() ==> is_blank(#[trigger] text[i])
}

/// Whether a character is white space.
pub fn blank(c: char) -> (r: bool)
    ensures
        r == is_blank(c),
{
    c == ' ' || c == '\t' || c == '\n' || c == '\r' || c == '\u{0B}' || c == '\u{0C}' || c
        == '\u{85}' || c == '\u{A0}' || c == '\u{1680}' || ('\u{2000}' <= c && c <= '\u{200A}')
        || c == '\u{2028}' || c == '\u{2029}' || c == '\u{202F}' || c == '\u{205F}' || c
        == '\u{3000}'
}

/// Whether a text holds nothing but white space.
pub fn blank_text(text: &str) -> (r: bool)
    ensures
        r == is_blank_text(text@),
{
    let chars = chars_of(text);
    let n = chars.len();
    let mut i: usize = 0;
    while i < n
        invariant
            i <= n,
            n == text@.len(),
            chars@ == text@,
            forall|j: int| 0 <= j < i ==> is_blank(#[trigger] text@[j]),
        decreases n - i,
    {
        if !blank(chars[i]) {
            return false;
        }
        i = i + 1;
    }
    true
}

/// Judges a new category before the store is asked: a name of nothing but
/// white space is refused.
pub fn create_category(body: &CreateCategorySchema) -> (r: Result<(), ApiError>)
    ensures
        match r {
            Ok(_) => !is_blank_text(body.category_name@),
            Err(e) => is_blank_text(body.category_name@) && e.is_error_with(
                "Category name cannot be empty"@,
                STATUS_BAD_REQUEST,
            ),
        },
{
    if blank_text(body.category_name.as_str()) {
        return Err(ApiResponse::error("Category name cannot be empty", STATUS_BAD_REQUEST));
    }
    Ok(())
}

/// A category whose name the user already has is refused.
pub fn reject_existing_category(exists: bool) -> (r: Result<(), ApiError>)
    ensures
        match r {
            Ok(_) => !exists,
            Err(e) => exists && e.is_error_with(
                "Category with this name already exists"@,
                STATUS_CONFLICT,
            ),
        },
{
    if exists {
        return Err(ApiResponse::error("Category with this name already exists", STATUS_CONFLICT));
    }
    Ok(())
}

} // verus!
