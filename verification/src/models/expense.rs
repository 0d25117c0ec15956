//! Expenses.

use crate::schema::{DayNumber, Instant};
use vstd::prelude::*;

verus! {

/// One spend record, optionally booked under a category and against a budget.
#[derive(Debug, Clone, PartialEq, Eq)]
pub struct ExpenseModel {
    pub expense_id: u128,
    pub name: String,
    pub amount: i64,
    pub date: DayNumber,
    pub description: Option<String>,
    pub category_id: Option<i32>,
    pub budget_id: Option<u128>,
    pub user_id: u128,
    pub created_at: Option<Instant>,
    pub updated_at: Option<Instant>,
}

} // verus!
