//! Request bodies for budgets.

use crate::schema::DayNumber;
use vstd::prelude::*;

verus! {

/// The body of a request for a new budget.
#[derive(Debug, Clone, PartialEq, Eq)]
pub struct CreateBudgetSchema {
    pub name: String,
    pub amount: i64,
    pub start_date: DayNumber,
    pub end_date: DayNumber,
}

/// The body of a request to change a budget: each field that is absent
/// stays as it is stored.
#[derive(Debug, Clone, PartialEq, Eq)]
pub struct UpdateBudgetSchema {
    pub name: Option<String>,
    pub amount: Option<i64>,
    pub start_date: Option<DayNumber>,
    pub end_date: Option<DayNumber>,
}

} // verus!
