//! Deleting expenses, budgets and categories.
//!
//! A record is deleted by its identifier and its owner together, so that
//! nobody deletes what belongs to another.

use crate::schema::{ApiError, ApiResponse, STATUS_BAD_REQUEST, STATUS_NOT_FOUND};
use crate::utils::ids::{parse_uuid, uuid_parsing};
use crate::utils::numbers::{i32_reading, parse_i32};
use vstd::prelude::*;
use vstd::string::StringExecFns;

verus! {

/// The words that refuse a text that is no identifier of a `resource`.
pub open spec fn invalid_id_message(resource: Seq<char>) -> Seq<char> {
    "Invalid "@ + resource + " ID format"@
}

/// The statement that deletes a record of `table` by `id_column` and owner,
/// and gives the identifier back where something was deleted.
pub open spec fn delete_statement_text(table: Seq<char>, id_column: Seq<char>) -> Seq<char> {
    "DELETE FROM "@ + table + " WHERE "@ + id_column + " = $1 AND user_id = $2 RETURNING "@
        + id_column
}

/// The words that report a deletion.
pub open spec fn deleted_message(resource: Seq<char>) -> Seq<char> {
    resource + " deleted successfully"@
}

/// The words that report that there was nothing to delete.
pub open spec fn not_deleted_message(resource: Seq<char>) -> Seq<char> {
    resource + " not found or you don't have permission to delete it"@
}

/// Reads the identifier of a `resource` from a path; a text that is no
/// identifier is answered with status 400.
pub fn resource_id(id: &str, resource: &str) -> (r: Result<u128, ApiError>)
    ensures
        match uuid_parsing(id@) {
            Some(number) => r == Ok::<u128, ApiError>(number),
            None => r matches Err(e) && e.is_error_with(
                invalid_id_message(resource@),
                STATUS_BAD_REQUEST,
            ),
        },
{
    match parse_uuid(id) {
        Some(number) => Ok(number),
        None => {
            let mut message = "Invalid ".to_owned();
            message.append(resource);
            message.append(" ID format");
            Err(ApiResponse::error(message.as_str(), STATUS_BAD_REQUEST))
        },
    }
}

/// Writes the statement that deletes a record of `table`.
pub fn delete_statement(table: &str, id_column: &str) -> (statement: String)
    ensures
        statement@ == delete_statement_text(table@, id_column@),
{
    let mut statement = "DELETE FROM ".to_owned();
    statement.append(table);
    statement.append(" WHERE ");
    statement.append(id_column);
    statement.append(" = $1 AND user_id = $2 RETURNING ");
    statement.append(id_column);
    statement
}

/// A deletion that the store is asked for.
#[derive(Debug, Clone, PartialEq, Eq)]
pub struct Deletion {
    pub statement: String,
    pub resource_id: u128,
    pub user_id: u128,
}

/// Prepares the deletion of the record of `table` that `id` names, for its
/// owner `user_id`.
pub fn delete_resource_by_uuid(
    table: &str,
    id_column: &str,
    id: &str,
    user_id: u128,
    resource: &str,
) -> (r: Result<Deletion, ApiError>)
    ensures
        match uuid_parsing(id@) {
            Some(number) => r matches Ok(deletion) && deletion.resource_id == number
                && deletion.user_id == user_id && deletion.statement@ == delete_statement_text(
                table@,
                id_column@,
            ),
            None => r matches Err(e) && e.is_error_with(
                invalid_id_message(resource@),
                STATUS_BAD_REQUEST,
            ),
        },
{
    let resource_id = resource_id(id, resource)?;
    Ok(Deletion { statement: delete_statement(table, id_column), resource_id, user_id })
}

/// The answer to a deletion: the words of success where the store deleted
/// the record, status 404 where it had none for this owner.
pub fn deletion_answer(resource: &str, deleted: bool) -> (r: Result<String, ApiError>)
    ensures
        match r {
            Ok(message) => deleted && message@ == deleted_message(resource@),
            Err(e) => !deleted && e.is_error_with(not_deleted_message(resource@), STATUS_NOT_FOUND),
        },
{
    if deleted {
        let mut message = resource.to_owned();
        message.append(" deleted successfully");
        Ok(message)
    } else {
        let mut message = resource.to_owned();
        message.append(" not found or you don't have permission to delete it");
        Err(ApiResponse::error(message.as_str(), STATUS_NOT_FOUND))
    }
}

/// Prepares the deletion of an expense.
pub fn delete_expense(id: &str, user_id: u128) -> (r: Result<Deletion, ApiError>)
    ensures
        match uuid_parsing(id@) {
            Some(number) => r matches Ok(deletion) && deletion.resource_id == number
                && deletion.user_id == user_id && deletion.statement@ == delete_statement_text(
                "expenses"@,
                "expense_id"@,
            ),
            None => r matches Err(e) && e.is_error_with(
                invalid_id_message("Expense"@),
                STATUS_BAD_REQUEST,
            ),
        },
{
    delete_resource_by_uuid("expenses", "expense_id", id, user_id, "Expense")
}

/// Prepares the deletion of a budget.
pub fn delete_budget(id: &str, user_id: u128) -> (r: Result<Deletion, ApiError>)
    ensures
        match uuid_parsing(id@) {
            Some(number) => r matches Ok(deletion) && deletion.resource_id == number
                && deletion.user_id == user_id && deletion.statement@ == delete_statement_text(
                "budgets"@,
                "budget_id"@,
            ),
            None => r matches Err(e) && e.is_error_with(
                invalid_id_message("Budget"@),
                STATUS_BAD_REQUEST,
            ),
        },
{
    delete_resource_by_uuid("budgets", "budget_id", id, user_id, "Budget")
}

/// The deletion of a category that the store is asked for.
#[derive(Debug, Clone, PartialEq, Eq)]
pub struct CategoryDeletion {
    pub category_id: i32,
    pub user_id: u128,
}

/// Prepares the deletion of a category; categories are numbered.
pub fn delete_category(id: &str, user_id: u128) -> (r: Result<CategoryDeletion, ApiError>)
    ensures
        match i32_reading(id@) {
            Ok(number) => r matches Ok(deletion) && deletion.category_id == number
                && deletion.user_id == user_id,
            Err(_) => r matches Err(e) && e.is_error_with(
                "Invalid category ID format"@,
                STATUS_BAD_REQUEST,
            ),
        },
{
    match parse_i32(id) {
        Ok(category_id) => Ok(CategoryDeletion { category_id, user_id }),
        Err(_) => Err(ApiResponse::error("Invalid category ID format", STATUS_BAD_REQUEST)),
    }
}

/// The answer to the deletion of a category.
pub fn category_deletion_answer(deleted: bool) -> (r: Result<String, ApiError>)
    ensures
        match r {
            Ok(message) => deleted && message@ == "category deleted successfully"@,
            Err(e) => !deleted && e.is_error_with(
                "category not found or you don't have permission to delete it"@,
                STATUS_NOT_FOUND,
            ),
        },
{
    if deleted {
        Ok("category deleted successfully".to_owned())
    } else {
        Err(
            ApiResponse::error(
                "category not found or you don't have permission to delete it",
                STATUS_NOT_FOUND,
            ),
        )
    }
}

} // verus!
