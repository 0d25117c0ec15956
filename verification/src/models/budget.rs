//! Budgets.

use crate::schema::{DayNumber, Instant};
use vstd::prelude::*;

verus! {

/// A spending limit over a range of days, owned by one user.
#[derive(Debug, Clone, PartialEq, Eq)]
pub struct BudgetModel {
    pub budget_id: u128,
    pub name: String,
    pub amount: i64,
    pub start_date: DayNumber,
    pub end_date: DayNumber,
    pub user_id: u128,
    pub created_at: Option<Instant>,
    pub updated_at: Option<Instant>,
}

/// A budget together with the sum of the expenses booked against it.
#[derive(Debug, Clone, PartialEq, Eq)]
pub struct BudgetWithSpentModel {
    pub budget_id: u128,
    pub name: String,
    pub amount: i64,
    pub start_date: DayNumber,
    pub end_date: DayNumber,
    pub user_id: u128,
    pub created_at: Option<Instant>,
    pub updated_at: Option<Instant>,
    pub total_spent: i64,
}

/// The mathematical value of a `BudgetModel`.
pub struct BudgetView {
    pub budget_id: u128,
    pub name: Seq<char>,
    pub amount: i64,
    pub start_date: DayNumber,
    pub end_date: DayNumber,
    pub user_id: u128,
    pub created_at: Option<Instant>,
    pub updated_at: Option<Instant>,
}

impl View for BudgetModel {
    type V = BudgetView;

    open spec fn view(&self) -> BudgetView {
        BudgetView {
            budget_id: self.budget_id,
            name: self.name@,
            amount: self.amount,
            start_date: self.start_date,
            end_date: self.end_date,
            user_id: self.user_id,
            created_at: self.created_at,
            updated_at: self.updated_at,
        }
    }
}

impl BudgetModel {
    /// The budget is one that the service itself would have stored: a
    /// positive amount, and an end after the start.
    pub open spec fn well_formed(&self) -> bool {
        &&& self.amount > 0
        &&& self.end_date > self.start_date
    }
}

} // verus!
