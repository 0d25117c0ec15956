//! The stored records, as the rules see them.

pub mod budget;
pub mod expense;
pub mod notification;
pub mod user;

pub use budget::{BudgetModel, BudgetWithSpentModel};
pub use expense::ExpenseModel;
pub use notification::NotificationModel;
pub use user::UserModel;
