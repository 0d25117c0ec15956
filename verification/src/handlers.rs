//! What the handlers decide.
//!
//! A handler of the service reads a request, asks the store, and answers.
//! What it decides in between stands here, as functions from plain values to
//! plain values: which requests are refused and with what answer, what is
//! stored, and what the answer says.

pub mod budget_alert;
pub mod commands;
pub mod queries;

pub use commands::create::{create_budget, create_category, create_expense, create_user};
pub use commands::delete::{delete_budget, delete_category, delete_expense};
pub use commands::update::{update_budget, update_expense};
pub use queries::{get_budget_by_id, get_expense_by_id, login_user};
