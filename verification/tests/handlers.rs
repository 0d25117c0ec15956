use backend::handlers::budget_alert::{AlertAction, AlertState};
use backend::handlers::commands::create::{
    after_expense_stored, blank, blank_text, budget_reference, hash_new_password, issue_token,
    reject_existing_category, reject_existing_user, token_or_failure, NewBudget, NewExpense,
};
use backend::handlers::commands::delete::{
    category_deletion_answer, delete_resource_by_uuid, delete_statement, deletion_answer,
    resource_id, CategoryDeletion, Deletion,
};
use backend::handlers::commands::update::{BudgetChange, ExpenseChange};
use backend::handlers::queries::{check_password, found_or_missing};
use backend::handlers::{
    create_budget, create_category, create_expense, create_user, delete_budget, delete_category,
    delete_expense, get_budget_by_id, get_expense_by_id, login_user, update_budget,
    update_expense,
};
use backend::models::{BudgetModel, ExpenseModel, UserModel};
use backend::schema::{
    ApiResponse, CreateBudgetSchema, CreateCategorySchema, CreateExpenseSchema, CreateUserSchema,
    UpdateBudgetSchema, UpdateExpenseSchema,
};
use backend::utils::hash_password;
use backend::utils::jwt::verify;

const OWNER: u128 = 0x11111111_2222_3333_4444_555555555555;
const BUDGET: u128 = 0x67e55044_10b1_426f_9247_bb680e5fe0c8;
const BUDGET_TEXT: &str = "67e55044-10b1-426f-9247-bb680e5fe0c8";

fn refusal<T: std::fmt::Debug>(r: Result<T, ApiResponse<serde_json::Value>>) -> (String, u16) {
    let e = r.unwrap_err();
    assert!(!e.success);
    assert_eq!(e.data, None);
    (e.message.unwrap(), e.status)
}

fn says(message: &str, status: u16) -> (String, u16) {
    (message.to_string(), status)
}

fn registration(name: &str, email: &str, password: &str) -> CreateUserSchema {
    CreateUserSchema {
        name: name.to_string(),
        email: email.to_string(),
        password: password.to_string(),
    }
}

#[test]
fn registration_is_judged_name_first() {
    assert!(create_user(&registration("Ann", "ann@example.org", "12345678")).is_ok());
    assert_eq!(
        refusal(create_user(&registration("A", "nobody", "1"))),
        says("name min length 2", 400)
    );
    assert_eq!(
        refusal(create_user(&registration("Ann", "nobody", "1"))),
        says("password min length 8", 400)
    );
    assert_eq!(
        refusal(create_user(&registration("Ann", "nobody", "12345678"))),
        says("Not a valid email", 400)
    );
}

#[test]
fn existing_user_is_a_conflict() {
    assert!(reject_existing_user(false).is_ok());
    assert_eq!(refusal(reject_existing_user(true)), says("User already exists", 409));
}

#[test]
fn new_password_is_hashed() {
    let hashed = hash_new_password("12345678").unwrap();
    assert_ne!(hashed, "12345678");
    assert_eq!(backend::utils::verify_hash_password("12345678", &hashed), Ok(true));
}

#[test]
fn token_outcomes() {
    assert_eq!(token_or_failure(Ok("t".to_string())).ok(), Some("t".to_string()));
    assert_eq!(
        refusal(token_or_failure(Err("Error encoding jwt token".to_string()))),
        says("Error encoding jwt token", 500)
    );
}

#[test]
fn issued_token_speaks_for_the_account() {
    let token = issue_token("ann@example.org", OWNER, "secret", 1_000).unwrap();
    let back = verify(&token, "secret", 1_000).unwrap();
    assert_eq!(back.email, "ann@example.org");
    assert_eq!(back.user_id, OWNER);
    assert!(verify(&token, "secret", 1_000 + 2_592_000).is_err());
    assert_eq!(
        issue_token("ann@example.org", OWNER, "secret", 1_000).ok(),
        backend::utils::jwt::sign_at(
            backend::utils::jwt::JwtPayload { email: "ann@example.org".to_string(), user_id: OWNER },
            "secret",
            1_000
        )
        .ok()
    );
}

fn expense_body(name: &str, amount: i64, budget: Option<&str>) -> CreateExpenseSchema {
    CreateExpenseSchema {
        name: name.to_string(),
        amount,
        date: 738_000,
        description: Some("weekly".to_string()),
        category_id: Some(3),
        budget_id: budget.map(String::from),
    }
}

#[test]
fn new_expense_is_stored_as_it_was_sent() {
    let expense = create_expense(OWNER, expense_body("Bread", 250, Some(BUDGET_TEXT))).unwrap();
    assert_eq!(
        expense,
        NewExpense {
            name: "Bread".to_string(),
            amount: 250,
            date: 738_000,
            description: Some("weekly".to_string()),
            category_id: Some(3),
            user_id: OWNER,
            budget_id: Some(BUDGET),
        }
    );
    let expense = create_expense(OWNER, expense_body("Bread", 1, None)).unwrap();
    assert_eq!(expense.budget_id, None);
    assert_eq!(expense.amount, 1);
}

#[test]
fn new_expense_is_judged_name_first() {
    assert_eq!(
        refusal(create_expense(OWNER, expense_body("B", 0, Some("nothing")))),
        says("name min length 2", 400)
    );
    assert_eq!(
        refusal(create_expense(OWNER, expense_body("Bread", 0, Some("nothing")))),
        says("Amount can't be less than zero", 400)
    );
    assert_eq!(
        refusal(create_expense(OWNER, expense_body("Bread", -1, None))),
        says("Amount can't be less than zero", 400)
    );
    assert_eq!(
        refusal(create_expense(OWNER, expense_body("Bread", 1, Some("nothing")))),
        says("Invalid budget ID format", 400)
    );
    assert_eq!(
        refusal(create_expense(OWNER, expense_body("Bread", 1, Some("")))),
        says("Invalid budget ID format", 400)
    );
}

#[test]
fn budget_named_by_a_request() {
    assert_eq!(budget_reference(&None).ok(), Some(None));
    assert_eq!(budget_reference(&Some(BUDGET_TEXT.to_string())).ok(), Some(Some(BUDGET)));
    assert_eq!(
        budget_reference(&Some("67E5504410B1426F9247BB680E5FE0C8".to_string())).ok(),
        Some(Some(BUDGET))
    );
    assert_eq!(
        refusal(budget_reference(&Some("67e55044".to_string()))),
        says("Invalid budget ID format", 400)
    );
}

#[test]
fn stored_expense_starts_the_evaluation_of_its_budget() {
    let expense = create_expense(OWNER, expense_body("Bread", 250, Some(BUDGET_TEXT))).unwrap();
    let (state, action) = after_expense_stored(&expense);
    assert_eq!(state, AlertState::Looking { budget_id: BUDGET, user_id: OWNER });
    assert_eq!(action, AlertAction::FindBudget { budget_id: BUDGET, user_id: OWNER });
    let expense = create_expense(OWNER, expense_body("Bread", 250, None)).unwrap();
    let (state, action) = after_expense_stored(&expense);
    assert_eq!(state, AlertState::Done);
    assert_eq!(action, AlertAction::Stop(None));
}

fn budget_body(name: &str, amount: i64, start: i32, end: i32) -> CreateBudgetSchema {
    CreateBudgetSchema { name: name.to_string(), amount, start_date: start, end_date: end }
}

#[test]
fn new_budget_is_stored_as_it_was_sent() {
    assert_eq!(
        create_budget(OWNER, budget_body("Food", 1000, 10, 11)).unwrap(),
        NewBudget {
            name: "Food".to_string(),
            amount: 1000,
            start_date: 10,
            end_date: 11,
            user_id: OWNER
        }
    );
}

#[test]
fn new_budget_is_judged_name_first() {
    assert_eq!(
        refusal(create_budget(OWNER, budget_body("F", 0, 10, 10))),
        says("name min length 2", 400)
    );
    assert_eq!(
        refusal(create_budget(OWNER, budget_body("Food", 0, 10, 10))),
        says("Amount can't be less than zero", 400)
    );
    assert_eq!(
        refusal(create_budget(OWNER, budget_body("Food", i64::MIN, 10, 11))),
        says("Amount can't be less than zero", 400)
    );
    assert_eq!(
        refusal(create_budget(OWNER, budget_body("Food", 1, 10, 10))),
        says("End date must be after start date", 400)
    );
    assert_eq!(
        refusal(create_budget(OWNER, budget_body("Food", 1, 10, 9))),
        says("End date must be after start date", 400)
    );
}

#[test]
fn white_space() {
    for c in [' ', '\t', '\n', '\r', '\u{0B}', '\u{0C}', '\u{85}', '\u{A0}', '\u{2003}', '\u{3000}'] {
        assert!(blank(c));
    }
    for c in ['a', '0', '_', '\u{200B}', '\u{0}', '\u{1F}'] {
        assert!(!blank(c));
    }
}

#[test]
fn white_space_agrees_with_the_standard_library() {
    for code in 0u32..0x3100 {
        if let Some(c) = char::from_u32(code) {
            assert_eq!(blank(c), c.is_whitespace(), "{:x}", code);
        }
    }
    assert!(!blank(char::MAX));
}

#[test]
fn blank_texts() {
    assert!(blank_text(""));
    assert!(blank_text("   "));
    assert!(blank_text(" \t\r\n\u{3000}"));
    assert!(!blank_text(" a "));
    assert!(!blank_text("a"));
}

#[test]
fn category_needs_a_name() {
    let named = |name: &str| CreateCategorySchema { category_name: name.to_string() };
    assert!(create_category(&named("Travel")).is_ok());
    assert!(create_category(&named(" x ")).is_ok());
    assert_eq!(refusal(create_category(&named(""))), says("Category name cannot be empty", 400));
    assert_eq!(
        refusal(create_category(&named(" \t "))),
        says("Category name cannot be empty", 400)
    );
}

#[test]
fn existing_category_is_a_conflict() {
    assert!(reject_existing_category(false).is_ok());
    assert_eq!(
        refusal(reject_existing_category(true)),
        says("Category with this name already exists", 409)
    );
}

#[test]
fn identifier_from_a_path() {
    assert_eq!(resource_id(BUDGET_TEXT, "budget").ok(), Some(BUDGET));
    assert_eq!(
        resource_id("00000000-0000-0000-0000-000000000001", "budget").ok(),
        Some(1)
    );
    assert_eq!(refusal(resource_id("17", "budget")), says("Invalid budget ID format", 400));
    assert_eq!(refusal(resource_id("", "Expense")), says("Invalid Expense ID format", 400));
}

#[test]
fn delete_statements() {
    assert_eq!(
        delete_statement("expenses", "expense_id"),
        "DELETE FROM expenses WHERE expense_id = $1 AND user_id = $2 RETURNING expense_id"
    );
    assert_eq!(delete_statement("", ""), "DELETE FROM  WHERE  = $1 AND user_id = $2 RETURNING ");
}

#[test]
fn deletions_are_prepared_for_the_owner() {
    assert_eq!(
        delete_expense(BUDGET_TEXT, OWNER).unwrap(),
        Deletion {
            statement:
                "DELETE FROM expenses WHERE expense_id = $1 AND user_id = $2 RETURNING expense_id"
                    .to_string(),
            resource_id: BUDGET,
            user_id: OWNER,
        }
    );
    assert_eq!(
        delete_budget(BUDGET_TEXT, OWNER).unwrap(),
        Deletion {
            statement:
                "DELETE FROM budgets WHERE budget_id = $1 AND user_id = $2 RETURNING budget_id"
                    .to_string(),
            resource_id: BUDGET,
            user_id: OWNER,
        }
    );
    assert_eq!(
        delete_resource_by_uuid("t", "c", BUDGET_TEXT, 5, "Thing").unwrap(),
        Deletion {
            statement: "DELETE FROM t WHERE c = $1 AND user_id = $2 RETURNING c".to_string(),
            resource_id: BUDGET,
            user_id: 5,
        }
    );
}

#[test]
fn deletion_of_what_is_no_identifier_is_refused() {
    assert_eq!(refusal(delete_expense("x", OWNER)), says("Invalid Expense ID format", 400));
    assert_eq!(refusal(delete_budget("x", OWNER)), says("Invalid Budget ID format", 400));
    assert_eq!(
        refusal(delete_resource_by_uuid("t", "c", "x", 5, "Thing")),
        says("Invalid Thing ID format", 400)
    );
}

#[test]
fn deletion_answers() {
    assert_eq!(deletion_answer("Expense", true).ok(), Some("Expense deleted successfully".to_string()));
    assert_eq!(
        refusal(deletion_answer("Budget", false)),
        says("Budget not found or you don't have permission to delete it", 404)
    );
    assert_eq!(
        category_deletion_answer(true).ok(),
        Some("category deleted successfully".to_string())
    );
    assert_eq!(
        refusal(category_deletion_answer(false)),
        says("category not found or you don't have permission to delete it", 404)
    );
}

#[test]
fn categories_are_numbered() {
    assert_eq!(
        delete_category("17", OWNER).unwrap(),
        CategoryDeletion { category_id: 17, user_id: OWNER }
    );
    assert_eq!(delete_category("-3", OWNER).unwrap().category_id, -3);
    assert_eq!(delete_category("+3", OWNER).unwrap().category_id, 3);
    assert_eq!(delete_category("2147483647", OWNER).unwrap().category_id, i32::MAX);
    for id in ["", "x", "1.5", " 1", "2147483648", BUDGET_TEXT] {
        assert_eq!(
            refusal(delete_category(id, OWNER)),
            says("Invalid category ID format", 400),
            "{:?}",
            id
        );
    }
}

fn stored_expense() -> ExpenseModel {
    ExpenseModel {
        expense_id: 77,
        name: "Bread".to_string(),
        amount: 250,
        date: 738_000,
        description: Some("weekly".to_string()),
        category_id: Some(3),
        budget_id: Some(BUDGET),
        user_id: OWNER,
        created_at: Some(1),
        updated_at: None,
    }
}

fn no_expense_change() -> UpdateExpenseSchema {
    UpdateExpenseSchema {
        name: None,
        amount: None,
        date: None,
        description: None,
        category_id: None,
        budget_id: None,
    }
}

#[test]
fn empty_change_keeps_the_expense() {
    assert_eq!(
        update_expense(Some(stored_expense()), no_expense_change()).unwrap(),
        ExpenseChange {
            expense_id: 77,
            user_id: OWNER,
            name: "Bread".to_string(),
            amount: 250,
            date: 738_000,
            description: Some("weekly".to_string()),
            category_id: Some(3),
            budget_id: Some(BUDGET),
        }
    );
}

#[test]
fn change_replaces_the_fields_it_names() {
    let body = UpdateExpenseSchema {
        name: Some("Cake".to_string()),
        amount: Some(900),
        date: Some(738_005),
        description: Some("once".to_string()),
        category_id: Some(4),
        budget_id: Some("00000000-0000-0000-0000-000000000009".to_string()),
    };
    assert_eq!(
        update_expense(Some(stored_expense()), body).unwrap(),
        ExpenseChange {
            expense_id: 77,
            user_id: OWNER,
            name: "Cake".to_string(),
            amount: 900,
            date: 738_005,
            description: Some("once".to_string()),
            category_id: Some(4),
            budget_id: Some(9),
        }
    );
    let mut body = no_expense_change();
    body.amount = Some(1);
    let change = update_expense(Some(stored_expense()), body).unwrap();
    assert_eq!(change.amount, 1);
    assert_eq!(change.name, "Bread");
}

#[test]
fn change_of_an_expense_is_judged() {
    let mut body = no_expense_change();
    body.name = Some("C".to_string());
    body.amount = Some(0);
    body.budget_id = Some("x".to_string());
    assert_eq!(
        refusal(update_expense(None, body.clone())),
        says("Expense not found or you don't have permission to update it", 404)
    );
    assert_eq!(
        refusal(update_expense(Some(stored_expense()), body.clone())),
        says("name min length 2", 400)
    );
    body.name = None;
    assert_eq!(
        refusal(update_expense(Some(stored_expense()), body.clone())),
        says("Amount can't be less than zero", 400)
    );
    body.amount = Some(5);
    assert_eq!(
        refusal(update_expense(Some(stored_expense()), body)),
        says("Invalid budget ID format", 400)
    );
}

fn stored_budget() -> BudgetModel {
    BudgetModel {
        budget_id: BUDGET,
        name: "Food".to_string(),
        amount: 1000,
        start_date: 100,
        end_date: 130,
        user_id: OWNER,
        created_at: None,
        updated_at: None,
    }
}

fn no_budget_change() -> UpdateBudgetSchema {
    UpdateBudgetSchema { name: None, amount: None, start_date: None, end_date: None }
}

#[test]
fn empty_change_keeps_the_budget() {
    assert_eq!(
        update_budget(Some(stored_budget()), no_budget_change()).unwrap(),
        BudgetChange {
            budget_id: BUDGET,
            user_id: OWNER,
            name: "Food".to_string(),
            amount: 1000,
            start_date: 100,
            end_date: 130,
        }
    );
}

#[test]
fn change_replaces_the_fields_of_a_budget() {
    let body = UpdateBudgetSchema {
        name: Some("Rent".to_string()),
        amount: Some(5),
        start_date: Some(1),
        end_date: Some(2),
    };
    assert_eq!(
        update_budget(Some(stored_budget()), body).unwrap(),
        BudgetChange {
            budget_id: BUDGET,
            user_id: OWNER,
            name: "Rent".to_string(),
            amount: 5,
            start_date: 1,
            end_date: 2,
        }
    );
}

#[test]
fn change_of_a_budget_is_judged() {
    let mut body = no_budget_change();
    body.name = Some("R".to_string());
    body.amount = Some(-1);
    body.start_date = Some(130);
    assert_eq!(
        refusal(update_budget(None, body.clone())),
        says("Budget not found or you don't have permission to update it", 404)
    );
    assert_eq!(
        refusal(update_budget(Some(stored_budget()), body.clone())),
        says("name min length 2", 400)
    );
    body.name = None;
    assert_eq!(
        refusal(update_budget(Some(stored_budget()), body.clone())),
        says("Amount can't be less than zero", 400)
    );
    body.amount = None;
    assert_eq!(
        refusal(update_budget(Some(stored_budget()), body.clone())),
        says("End date must be after start date", 400)
    );
    body.start_date = None;
    body.end_date = Some(99);
    assert_eq!(
        refusal(update_budget(Some(stored_budget()), body.clone())),
        says("End date must be after start date", 400)
    );
    body.end_date = Some(101);
    assert_eq!(update_budget(Some(stored_budget()), body).unwrap().end_date, 101);
}

#[test]
fn one_record_or_status_404() {
    assert_eq!(get_expense_by_id(Some(5u8)).ok(), Some(5));
    assert_eq!(refusal(get_expense_by_id::<u8>(None)), says("Expense not found", 404));
    assert_eq!(get_budget_by_id(Some("b")).ok(), Some("b"));
    assert_eq!(refusal(get_budget_by_id::<u8>(None)), says("Budget not found", 404));
    assert_eq!(found_or_missing(Some(1u8), "gone").ok(), Some(1));
    assert_eq!(refusal(found_or_missing::<u8>(None, "gone")), says("gone", 404));
}

#[test]
fn login_address_is_judged() {
    assert!(login_user("ann@example.org").is_ok());
    assert_eq!(refusal(login_user("ann")), says("Not a valid email", 400));
}

fn account(password_hash: &str) -> UserModel {
    UserModel {
        user_id: OWNER,
        name: "Ann".to_string(),
        email: "ann@example.org".to_string(),
        password_hash: password_hash.to_string(),
        created_at: None,
        updated_at: None,
    }
}

#[test]
fn login_is_judged_against_the_account() {
    let known = "$2b$04$uA/4qOPQ3.iJ8jjMU5y3e.safXqadgICy0voGWm44gDjBqX1O3wIS";
    assert_eq!(check_password(Some(account(known)), "password1").unwrap(), account(known));
    assert_eq!(
        refusal(check_password(Some(account(known)), "password2")),
        says("Password doesn't match, please check again", 401)
    );
    assert_eq!(refusal(check_password(None, "password1")), says("User doesn't exists", 401));
    assert_eq!(
        refusal(check_password(Some(account("nonsense")), "password1")),
        says("\"Failed to verify password\": \"Failed to verify hash_password\"", 500)
    );
}

#[test]
fn registered_password_logs_in() {
    let hashed = hash_password("12345678").unwrap();
    assert!(check_password(Some(account(&hashed)), "12345678").is_ok());
    assert!(check_password(Some(account(&hashed)), "123456789").is_err());
}

#[test]
fn long_blank_text_is_read_in_one_pass() {
    let mut text = " \u{3000}".repeat(500_000);
    assert!(blank_text(&text));
    text.push('x');
    assert!(!blank_text(&text));
}
