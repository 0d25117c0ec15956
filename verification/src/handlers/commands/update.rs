//! Changing expenses and budgets.
//!
//! A change names the fields it changes; every other field stays as it is
//! stored. What comes out is judged by the rules for new records.

use crate::handlers::commands::create::named_budget;
use crate::models::budget::BudgetModel;
use crate::models::expense::ExpenseModel;
use crate::schema::{
    ApiError, ApiResponse, DayNumber, Envelope, UpdateBudgetSchema, UpdateExpenseSchema,
    STATUS_BAD_REQUEST, STATUS_NOT_FOUND,
};
use crate::utils::helper::{byte_length, validate_name, MIN_NAME_BYTES};
use crate::utils::ids::{parse_uuid, uuid_parsing};
use crate::utils::jwt::text_of;
use vstd::prelude::*;

verus! {

/// The values an expense has after a change.
#[derive(Debug, Clone, PartialEq, Eq)]
pub struct ExpenseChange {
    pub expense_id: u128,
    pub user_id: u128,
    pub name: String,
    pub amount: i64,
    pub date: DayNumber,
    pub description: Option<String>,
    pub category_id: Option<i32>,
    pub budget_id: Option<u128>,
}

/// The objection, if any, to a change of an expense: that there is no such
/// expense of this owner, then the new name, the new amount and the new
/// budget's identifier, in this order.
pub open spec fn expense_change_refusal(
    found: bool,
    name: Option<Seq<char>>,
    amount: Option<i64>,
    budget: Option<Seq<char>>,
) -> Option<Envelope<serde_json::Value>> {
    if !found {
        Some(
            Envelope::of_error(
                "Expense not found or you don't have permission to update it"@,
                STATUS_NOT_FOUND,
            ),
        )
    } else if name matches Some(n) && byte_length(n) < MIN_NAME_BYTES {
        Some(Envelope::of_error("name min length 2"@, STATUS_BAD_REQUEST))
    } else if amount matches Some(a) && a <= 0 {
        Some(Envelope::of_error("Amount can't be less than zero"@, STATUS_BAD_REQUEST))
    } else if named_budget(budget) is Err {
        Some(Envelope::of_error("Invalid budget ID format"@, STATUS_BAD_REQUEST))
    } else {
        None
    }
}

/// Judges a change of an expense, from the expense as the store holds it for
/// this owner (`None` where it holds none) and the request: the values to
/// store, or the refusal.
pub fn update_expense(existing: Option<ExpenseModel>, body: UpdateExpenseSchema) -> (r: Result<
    ExpenseChange,
    ApiError,
>)
    ensures
        match expense_change_refusal(
            existing is Some,
            text_of(body.name),
            body.amount,
            text_of(body.budget_id),
        ) {
            Some(refusal) => r matches Err(e) && e@ == refusal,
            None => r matches Ok(change) && existing matches Some(stored) && {
                &&& change.expense_id == stored.expense_id
                &&& change.user_id == stored.user_id
                &&& change.name == (match body.name {
                    Some(n) => n,
                    None => stored.name,
                })
                &&& change.amount == (match body.amount {
                    Some(a) => a,
                    None => stored.amount,
                })
                &&& change.date == (match body.date {
                    Some(d) => d,
                    None => stored.date,
                })
                &&& change.description == (match body.description {
                    Some(d) => Some(d),
                    None => stored.description,
                })
                &&& change.category_id == (match body.category_id {
                    Some(c) => Some(c),
                    None => stored.category_id,
                })
                &&& change.budget_id == (match body.budget_id {
                    Some(b) => uuid_parsing(b@),
                    None => stored.budget_id,
                })
            },
        },
{
    let stored = match existing {
        Some(stored) => stored,
        None => {
            return Err(
                ApiResponse::error(
                    "Expense not found or you don't have permission to update it",
                    STATUS_NOT_FOUND,
                ),
            );
        },
    };
    match &body.name {
        Some(name) => {
            validate_name(name.as_str())?;
        },
        None => {},
    }
    match body.amount {
        Some(amount) => {
            if amount <= 0 {
                return Err(
                    ApiResponse::error("Amount can't be less than zero", STATUS_BAD_REQUEST),
                );
            }
        },
        None => {},
    }
    let budget_id = match &body.budget_id {
        Some(text) => match parse_uuid(text.as_str()) {
            Some(id) => Some(id),
            None => {
                return Err(ApiResponse::error("Invalid budget ID format", STATUS_BAD_REQUEST));
            },
        },
        None => stored.budget_id,
    };
    Ok(
        ExpenseChange {
            expense_id: stored.expense_id,
            user_id: stored.user_id,
            name: match body.name {
                Some(n) => n,
                None => stored.name,
            },
            amount: match body.amount {
                Some(a) => a,
                None => stored.amount,
            },
            date: match body.date {
                Some(d) => d,
                None => stored.date,
            },
            description: match body.description {
                Some(d) => Some(d),
                None => stored.description,
            },
            category_id: match body.category_id {
                Some(c) => Some(c),
                None => stored.category_id,
            },
            budget_id,
        },
    )
}

/// The values a budget has after a change.
#[derive(Debug, Clone, PartialEq, Eq)]
pub struct BudgetChange {
    pub budget_id: u128,
    pub user_id: u128,
    pub name: String,
    pub amount: i64,
    pub start_date: DayNumber,
    pub end_date: DayNumber,
}

/// The objection, if any, to a change of a budget: that there is no such
/// budget of this owner, then the new name and the new amount, then the
/// dates as they stand after the change.
pub open spec fn budget_change_refusal(
    found: bool,
    name: Option<Seq<char>>,
    amount: Option<i64>,
    start_date: DayNumber,
    end_date: DayNumber,
) -> Option<Envelope<serde_json::Value>> {
    if !found {
        Some(
            Envelope::of_error(
                "Budget not found or you don't have permission to update it"@,
                STATUS_NOT_FOUND,
            ),
        )
    } else if name matches Some(n) && byte_length(n) < MIN_NAME_BYTES {
        Some(Envelope::of_error("name min length 2"@, STATUS_BAD_REQUEST))
    } else if amount matches Some(a) && a <= 0 {
        Some(Envelope::of_error("Amount can't be less than zero"@, STATUS_BAD_REQUEST))
    } else if end_date <= start_date {
        Some(Envelope::of_error("End date must be after start date"@, STATUS_BAD_REQUEST))
    } else {
        None
    }
}

/// A date after a change: the new one where the change names one, else the
/// stored one.
pub open spec fn changed_date(new: Option<DayNumber>, stored: DayNumber) -> DayNumber {
    match new {
        Some(d) => d,
        None => stored,
    }
}

/// Judges a change of a budget, from the budget as the store holds it for
/// this owner (`None` where it holds none) and the request: the values to
/// store, or the refusal. What is stored ends after it starts, and has a
/// positive amount where the stored budget had one.
pub fn update_budget(existing: Option<BudgetModel>, body: UpdateBudgetSchema) -> (r: Result<
    BudgetChange,
    ApiError,
>)
    ensures
        match existing {
            None => r matches Err(e) && Some(e@) == budget_change_refusal(
                false,
                text_of(body.name),
                body.amount,
                0,
                0,
            ),
            Some(stored) => match budget_change_refusal(
                true,
                text_of(body.name),
                body.amount,
                changed_date(body.start_date, stored.start_date),
                changed_date(body.end_date, stored.end_date),
            ) {
                Some(refusal) => r matches Err(e) && e@ == refusal,
                None => r matches Ok(change) && {
                    &&& change.budget_id == stored.budget_id
                    &&& change.user_id == stored.user_id
                    &&& change.name == (match body.name {
                        Some(n) => n,
                        None => stored.name,
                    })
                    &&& change.amount == (match body.amount {
                        Some(a) => a,
                        None => stored.amount,
                    })
                    &&& change.start_date == changed_date(body.start_date, stored.start_date)
                    &&& change.end_date == changed_date(body.end_date, stored.end_date)
                    &&& change.end_date > change.start_date
                    &&& stored.well_formed() ==> change.amount > 0
                },
            },
        },
{
    let stored = match existing {
        Some(stored) => stored,
        None => {
            return Err(
                ApiResponse::error(
                    "Budget not found or you don't have permission to update it",
                    STATUS_NOT_FOUND,
                ),
            );
        },
    };
    match &body.name {
        Some(name) => {
            validate_name(name.as_str())?;
        },
        None => {},
    }
    match body.amount {
        Some(amount) => {
            if amount <= 0 {
                return Err(
                    ApiResponse::error("Amount can't be less than zero", STATUS_BAD_REQUEST),
                );
            }
        },
        None => {},
    }
    let start_date = match body.start_date {
        Some(d) => d,
        None => stored.start_date,
    };
    let end_date = match body.end_date {
        Some(d) => d,
        None => stored.end_date,
    };
    if end_date <= start_date {
        return Err(ApiResponse::error("End date must be after start date", STATUS_BAD_REQUEST));
    }
    Ok(
        BudgetChange {
            budget_id: stored.budget_id,
            user_id: stored.user_id,
            name: match body.name {
                Some(n) => n,
                None => stored.name,
            },
            amount: match body.amount {
                Some(a) => a,
                None => stored.amount,
            },
            start_date,
            end_date,
        },
    )
}

} // verus!
