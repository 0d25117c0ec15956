//! Request bodies for expenses.

use crate::schema::DayNumber;
use vstd::prelude::*;

verus! {

/// The body of a request for a new expense. `budget_id`, where present, is
/// the text of the budget's identifier.
#[derive(Debug, Clone, PartialEq, Eq)]
pub struct CreateExpenseSchema {
    pub name: String,
    pub amount: i64,
    pub date: DayNumber,
    pub description: Option<String>,
    pub category_id: Option<i32>,
    pub budget_id: Option<String>,
}

/// The body of a request to change an expense: each field that is absent
/// stays as it is stored.
#[derive(Debug, Clone, PartialEq, Eq)]
pub struct UpdateExpenseSchema {
    pub name: Option<String>,
    pub amount: Option<i64>,
    pub date: Option<DayNumber>,
    pub description: Option<String>,
    pub category_id: Option<i32>,
    pub budget_id: Option<String>,
}

} // verus!
