//! Budget alerts.
//!
//! When an expense is booked against a budget, the service works out, apart
//! from the request that booked it, how much of the budget is spent, and
//! leaves a notification where spending has reached four fifths of the
//! budget (a warning) or all of it (exceeded). The sum is taken afresh over
//! every expense booked against the budget, after the new one was stored.
//! Nothing is remembered between two evaluations: each one that finds a
//! threshold reached leaves its own notification. Nothing that goes wrong
//! reaches the caller: an evaluation that cannot go on stops, and leaves a
//! line for the log.
//!
//! The evaluation is a machine that is fed what the store answers and says
//! what to ask or to store next; it performs no I/O itself. Whether a
//! threshold is reached is decided here, on whole numbers. The percentage
//! that the message shows is a floating-point number, which this library
//! does not compute: the evaluation asks for its text and puts the text it
//! is given into the message.

use crate::models::budget::{BudgetModel, BudgetView};
use crate::utils::ids::{uuid_format, uuid_text};
use crate::utils::jwt::text_of;
use crate::utils::text::{decimal_digits, decimal_text};
use vstd::prelude::*;
use vstd::string::StringExecFns;

verus! {

/// How spending stands against a budget.
#[derive(Clone, Copy, Debug, PartialEq, Eq, Structural)]
pub enum AlertLevel {
    /// Less than four fifths of the budget is spent.
    Quiet,
    /// Four fifths of the budget or more is spent, but not all of it.
    Warning,
    /// The whole budget or more is spent.
    Exceeded,
}

/// The level of a total spent against a budget's amount. Usage is the exact
/// ratio of the two: 80% and more is a warning, 100% and more is exceeded.
/// The two numbers are compared as whole numbers, so that no rounding ever
/// decides. A budget without a positive amount never alerts.
pub open spec fn alert_level(total: int, amount: int) -> AlertLevel {
    if amount <= 0 {
        AlertLevel::Quiet
    } else if total >= amount {
        AlertLevel::Exceeded
    } else if 5 * total >= 4 * amount {
        AlertLevel::Warning
    } else {
        AlertLevel::Quiet
    }
}

/// The category under which alerts are stored.
pub open spec fn alert_category() -> Seq<char> {
    "BUDGET_ALERT"@
}

/// The message of an alert: it names the budget, the total spent, the
/// budget's amount and the usage in percent. `usage` is the text of the
/// percentage as the caller has written it.
pub open spec fn alert_message(
    level: AlertLevel,
    name: Seq<char>,
    budget_id: u128,
    total: int,
    amount: int,
    usage: Seq<char>,
) -> Option<Seq<char>> {
    let spent = decimal_digits(total as nat);
    let limit = decimal_digits(amount as nat);
    match level {
        AlertLevel::Quiet => None,
        AlertLevel::Warning => Some(
            "\u{26A0}\u{FE0F}  BUDGET WARNING: Budget '"@ + name + "' (ID: "@ + uuid_format(
                budget_id,
            ) + ") is at "@ + usage + "% usage. Total spent: "@ + spent + " / Budget: "@ + limit,
        ),
        AlertLevel::Exceeded => Some(
            "\u{1F6A8} BUDGET ALERT: Budget '"@ + name + "' (ID: "@ + uuid_format(budget_id)
                + ") has been EXCEEDED! Total spent: "@ + spent + " / Budget: "@ + limit + " ("@
                + usage + "%)"@,
        ),
    }
}

/// The alert, if any, that a total spent raises for a budget.
pub open spec fn alert_for(
    name: Seq<char>,
    budget_id: u128,
    amount: int,
    total: int,
    usage: Seq<char>,
) -> Option<Seq<char>> {
    alert_message(alert_level(total, amount), name, budget_id, total, amount, usage)
}

/// The level of a total spent against a budget's amount.
pub fn classify(total: i64, amount: i64) -> (level: AlertLevel)
    ensures
        level == alert_level(total as int, amount as int),
        5 * total < 4 * amount ==> level == AlertLevel::Quiet,
        level != AlertLevel::Quiet ==> amount > 0 && total > 0,
{
    if amount <= 0 {
        AlertLevel::Quiet
    } else if total >= amount {
        AlertLevel::Exceeded
    } else if 5 * (total as i128) >= 4 * (amount as i128) {
        AlertLevel::Warning
    } else {
        AlertLevel::Quiet
    }
}

/// The alert, if any, that a total spent raises for a budget; `usage` is the
/// text of the percentage to show.
pub fn budget_alert(
    name: &str,
    budget_id: u128,
    amount: i64,
    total: i64,
    usage: &str,
) -> (message: Option<String>)
    ensures
        text_of(message) == alert_for(name@, budget_id, amount as int, total as int, usage@),
        message is Some <==> alert_level(total as int, amount as int) != AlertLevel::Quiet,
{
    let level = classify(total, amount);
    match level {
        AlertLevel::Quiet => None,
        AlertLevel::Warning => {
            let spent = decimal_text(total as u128);
            let limit = decimal_text(amount as u128);
            let id = uuid_text(budget_id);
            let mut text = "\u{26A0}\u{FE0F}  BUDGET WARNING: Budget '".to_owned();
            text.append(name);
            text.append("' (ID: ");
            text.append(id.as_str());
            text.append(") is at ");
            text.append(usage);
            text.append("% usage. Total spent: ");
            text.append(spent.as_str());
            text.append(" / Budget: ");
            text.append(limit.as_str());
            Some(text)
        },
        AlertLevel::Exceeded => {
            let spent = decimal_text(total as u128);
            let limit = decimal_text(amount as u128);
            let id = uuid_text(budget_id);
            let mut text = "\u{1F6A8} BUDGET ALERT: Budget '".to_owned();
            text.append(name);
            text.append("' (ID: ");
            text.append(id.as_str());
            text.append(") has been EXCEEDED! Total spent: ");
            text.append(spent.as_str());
            text.append(" / Budget: ");
            text.append(limit.as_str());
            text.append(" (");
            text.append(usage);
            text.append("%)");
            Some(text)
        },
    }
}

/// What asking the store for a budget gave.
#[derive(Debug, Clone, PartialEq, Eq)]
pub enum BudgetLookup {
    /// The budget the store holds under the identifier, for the owner.
    Found(BudgetModel),
    /// The store holds no such budget for the owner.
    Missing,
    /// The store failed, with its own words.
    Failed(String),
}

/// What asking the store for the sum of a budget's expenses gave.
#[derive(Debug, Clone, PartialEq, Eq)]
pub enum SpendLookup {
    /// The sum over every expense booked against the budget.
    Total(i64),
    /// The store gave no number.
    Unknown,
    /// The store failed, with its own words.
    Failed(String),
}

/// What storing a notification gave.
#[derive(Debug, Clone, PartialEq, Eq)]
pub enum StoreOutcome {
    /// The notification is stored.
    Stored,
    /// The store failed, with its own words.
    Failed(String),
}

/// What an evaluation is told.
#[derive(Debug, Clone, PartialEq, Eq)]
pub enum AlertEvent {
    /// An expense was stored for `user_id`, booked against `budget_id` if it
    /// names a budget.
    ExpenseCreated { budget_id: Option<u128>, user_id: u128 },
    /// The store answered the question for the budget.
    Budget(BudgetLookup),
    /// The store answered the question for the sum.
    Spend(SpendLookup),
    /// The percentage that was asked for, written with one decimal place.
    Usage(String),
    /// The store answered the request to keep a notification.
    Notification(StoreOutcome),
}

/// Where an evaluation stands.
#[derive(Debug, Clone, PartialEq, Eq)]
pub enum AlertState {
    /// Nothing has happened yet.
    Idle,
    /// The store has been asked for the budget `budget_id` of `user_id`.
    Looking { budget_id: u128, user_id: u128 },
    /// The budget is known; the store has been asked for the sum.
    Summing(BudgetModel),
    /// A threshold is reached with this sum; the text of the percentage has
    /// been asked for.
    Rendering(BudgetModel, i64),
    /// A threshold is reached; the store has been asked to keep the alert
    /// for the budget `budget_id`.
    Storing { budget_id: u128 },
    /// The evaluation is over.
    Done,
}

/// What an evaluation wants done next.
#[derive(Debug, Clone, PartialEq, Eq)]
pub enum AlertAction {
    /// Ask the store for the budget `budget_id` that belongs to `user_id`.
    FindBudget { budget_id: u128, user_id: u128 },
    /// Ask the store for the sum of all expenses booked against `budget_id`.
    SumExpenses { budget_id: u128 },
    /// Write `total` as a percentage of `amount`: the quotient of the two
    /// times one hundred, in floating point, with one decimal place.
    RenderUsage { total: i64, amount: i64 },
    /// Store a notification for `user_id`.
    Notify { user_id: u128, category: String, message: String },
    /// Nothing more; with a line for the log where the evaluation gave up.
    Stop(Option<String>),
}

/// The mathematical value of a `BudgetLookup`.
pub enum BudgetLookupView {
    Found(BudgetView),
    Missing,
    Failed(Seq<char>),
}

/// The mathematical value of a `SpendLookup`.
pub enum SpendLookupView {
    Total(i64),
    Unknown,
    Failed(Seq<char>),
}

/// The mathematical value of a `StoreOutcome`.
pub enum StoreOutcomeView {
    Stored,
    Failed(Seq<char>),
}

/// The mathematical value of an `AlertEvent`.
pub enum AlertEventView {
    ExpenseCreated { budget_id: Option<u128>, user_id: u128 },
    Budget(BudgetLookupView),
    Spend(SpendLookupView),
    Usage(Seq<char>),
    Notification(StoreOutcomeView),
}

/// The mathematical value of an `AlertState`.
pub enum AlertStateView {
    Idle,
    Looking { budget_id: u128, user_id: u128 },
    Summing(BudgetView),
    Rendering(BudgetView, i64),
    Storing { budget_id: u128 },
    Done,
}

/// The mathematical value of an `AlertAction`.
pub enum AlertActionView {
    FindBudget { budget_id: u128, user_id: u128 },
    SumExpenses { budget_id: u128 },
    RenderUsage { total: i64, amount: i64 },
    Notify { user_id: u128, category: Seq<char>, message: Seq<char> },
    Stop(Option<Seq<char>>),
}

impl View for BudgetLookup {
    type V = BudgetLookupView;

    open spec fn view(&self) -> BudgetLookupView {
        match self {
            BudgetLookup::Found(budget) => BudgetLookupView::Found(budget@),
            BudgetLookup::Missing => BudgetLookupView::Missing,
            BudgetLookup::Failed(reason) => BudgetLookupView::Failed(reason@),
        }
    }
}

impl View for SpendLookup {
    type V = SpendLookupView;

    open spec fn view(&self) -> SpendLookupView {
        match self {
            SpendLookup::Total(total) => SpendLookupView::Total(*total),
            SpendLookup::Unknown => SpendLookupView::Unknown,
            SpendLookup::Failed(reason) => SpendLookupView::Failed(reason@),
        }
    }
}

impl View for StoreOutcome {
    type V = StoreOutcomeView;

    open spec fn view(&self) -> StoreOutcomeView {
        match self {
            StoreOutcome::Stored => StoreOutcomeView::Stored,
            StoreOutcome::Failed(reason) => StoreOutcomeView::Failed(reason@),
        }
    }
}

impl View for AlertEvent {
    type V = AlertEventView;

    open spec fn view(&self) -> AlertEventView {
        match self {
            AlertEvent::ExpenseCreated { budget_id, user_id } => AlertEventView::ExpenseCreated {
                budget_id: *budget_id,
                user_id: *user_id,
            },
            AlertEvent::Budget(lookup) => AlertEventView::Budget(lookup@),
            AlertEvent::Spend(lookup) => AlertEventView::Spend(lookup@),
            AlertEvent::Usage(text) => AlertEventView::Usage(text@),
            AlertEvent::Notification(outcome) => AlertEventView::Notification(outcome@),
        }
    }
}

impl View for AlertState {
    type V = AlertStateView;

    open spec fn view(&self) -> AlertStateView {
        match self {
            AlertState::Idle => AlertStateView::Idle,
            AlertState::Looking { budget_id, user_id } => AlertStateView::Looking {
                budget_id: *budget_id,
                user_id: *user_id,
            },
            AlertState::Summing(budget) => AlertStateView::Summing(budget@),
            AlertState::Rendering(budget, total) => AlertStateView::Rendering(budget@, *total),
            AlertState::Storing { budget_id } => AlertStateView::Storing { budget_id: *budget_id },
            AlertState::Done => AlertStateView::Done,
        }
    }
}

impl View for AlertAction {
    type V = AlertActionView;

    open spec fn view(&self) -> AlertActionView {
        match self {
            AlertAction::FindBudget { budget_id, user_id } => AlertActionView::FindBudget {
                budget_id: *budget_id,
                user_id: *user_id,
            },
            AlertAction::SumExpenses { budget_id } => AlertActionView::SumExpenses {
                budget_id: *budget_id,
            },
            AlertAction::RenderUsage { total, amount } => AlertActionView::RenderUsage {
                total: *total,
                amount: *amount,
            },
            AlertAction::Notify { user_id, category, message } => AlertActionView::Notify {
                user_id: *user_id,
                category: category@,
                message: message@,
            },
            AlertAction::Stop(line) => AlertActionView::Stop(text_of(*line)),
        }
    }
}

/// A line for the log about a budget: the budget's identifier between two
/// texts, and a reason after them.
pub open spec fn log_line(
    before: Seq<char>,
    budget_id: u128,
    after: Seq<char>,
    reason: Seq<char>,
) -> Seq<char> {
    before + uuid_format(budget_id) + after + reason
}

/// Writes a line for the log about a budget.
pub fn log_text(before: &str, budget_id: u128, after: &str, reason: &str) -> (line: String)
    ensures
        line@ == log_line(before@, budget_id, after@, reason@),
{
    let id = uuid_text(budget_id);
    let mut line = before.to_owned();
    line.append(id.as_str());
    line.append(after);
    line.append(reason);
    line
}

/// What an evaluation does once the sum is known: where a threshold is
/// reached, it asks for the text of the percentage; where none is, it stops.
pub open spec fn alert_decision(budget: BudgetView, total: i64) -> (
    AlertStateView,
    AlertActionView,
) {
    if alert_level(total as int, budget.amount as int) == AlertLevel::Quiet {
        (AlertStateView::Done, AlertActionView::Stop(None))
    } else {
        (
            AlertStateView::Rendering(budget, total),
            AlertActionView::RenderUsage { total, amount: budget.amount },
        )
    }
}

/// What an evaluation does once it has the text of the percentage: it asks
/// for the alert to be stored for the budget's owner.
pub open spec fn alert_notice(budget: BudgetView, total: i64, usage: Seq<char>) -> (
    AlertStateView,
    AlertActionView,
) {
    match alert_for(budget.name, budget.budget_id, budget.amount as int, total as int, usage) {
        Some(message) => (
            AlertStateView::Storing { budget_id: budget.budget_id },
            AlertActionView::Notify {
                user_id: budget.user_id,
                category: alert_category(),
                message,
            },
        ),
        None => (AlertStateView::Done, AlertActionView::Stop(None)),
    }
}

/// One step of an evaluation: the state it moves to and what it wants done,
/// from the state it is in and what it is told.
///
/// An expense that names no budget leaves nothing to do. For one that does,
/// the budget is fetched for the user who booked the expense; the evaluation
/// stops where the store has no such budget, answers with a budget of
/// another identifier or owner, or fails. Then the sum is fetched; the
/// evaluation stops where the store gives none. With the sum, it decides as
/// `alert_decision` says, and with the text of the percentage it goes on as
/// `alert_notice` says. Whether the notification could be stored or not, the
/// evaluation is then over. An evaluation told anything that it did not
/// ask for stops.
pub open spec fn alert_step(state: AlertStateView, event: AlertEventView) -> (
    AlertStateView,
    AlertActionView,
) {
    match (state, event) {
        (AlertStateView::Idle, AlertEventView::ExpenseCreated { budget_id: None, user_id }) => (
            AlertStateView::Done,
            AlertActionView::Stop(None),
        ),
        (
            AlertStateView::Idle,
            AlertEventView::ExpenseCreated { budget_id: Some(budget_id), user_id },
        ) => (
            AlertStateView::Looking { budget_id, user_id },
            AlertActionView::FindBudget { budget_id, user_id },
        ),
        (
            AlertStateView::Looking { budget_id, user_id },
            AlertEventView::Budget(BudgetLookupView::Found(budget)),
        ) => if budget.budget_id == budget_id && budget.user_id == user_id {
            (AlertStateView::Summing(budget), AlertActionView::SumExpenses { budget_id })
        } else {
            (
                AlertStateView::Done,
                AlertActionView::Stop(
                    Some(
                        log_line(
                            "Budget "@,
                            budget_id,
                            " is not the budget the store answered with"@,
                            ""@,
                        ),
                    ),
                ),
            )
        },
        (
            AlertStateView::Looking { budget_id, user_id },
            AlertEventView::Budget(BudgetLookupView::Missing),
        ) => (
            AlertStateView::Done,
            AlertActionView::Stop(
                Some(log_line("Budget "@, budget_id, " not found for its owner"@, ""@)),
            ),
        ),
        (
            AlertStateView::Looking { budget_id, user_id },
            AlertEventView::Budget(BudgetLookupView::Failed(reason)),
        ) => (
            AlertStateView::Done,
            AlertActionView::Stop(
                Some(log_line("Failed to load budget "@, budget_id, ": "@, reason)),
            ),
        ),
        (AlertStateView::Summing(budget), AlertEventView::Spend(SpendLookupView::Total(total))) => {
            alert_decision(budget, total)
        },
        (AlertStateView::Rendering(budget, total), AlertEventView::Usage(usage)) => {
            alert_notice(budget, total, usage)
        },
        (AlertStateView::Summing(budget), AlertEventView::Spend(_)) => (
            AlertStateView::Done,
            AlertActionView::Stop(
                Some(
                    log_line(
                        "Failed to calculate total spent for budget "@,
                        budget.budget_id,
                        ""@,
                        ""@,
                    ),
                ),
            ),
        ),
        (
            AlertStateView::Storing { budget_id },
            AlertEventView::Notification(StoreOutcomeView::Stored),
        ) => (AlertStateView::Done, AlertActionView::Stop(None)),
        (
            AlertStateView::Storing { budget_id },
            AlertEventView::Notification(StoreOutcomeView::Failed(reason)),
        ) => (
            AlertStateView::Done,
            AlertActionView::Stop(
                Some(log_line("Failed to store the alert for budget "@, budget_id, ": "@, reason)),
            ),
        ),
        _ => (AlertStateView::Done, AlertActionView::Stop(Some("Budget evaluation out of order"@))),
    }
}

/// Starts the evaluation for an expense that was booked against a budget:
/// the first thing to do is to fetch that budget for the user.
pub fn trigger_budget_evaluation(budget_id: u128, user_id: u128) -> (next: (
    AlertState,
    AlertAction,
))
    ensures
        (next.0@, next.1@) == alert_step(
            AlertStateView::Idle,
            AlertEventView::ExpenseCreated { budget_id: Some(budget_id), user_id },
        ),
        next.1@ == (AlertActionView::FindBudget { budget_id, user_id }),
{
    (AlertState::Looking { budget_id, user_id }, AlertAction::FindBudget { budget_id, user_id })
}

/// What an evaluation does once the sum is known.
pub fn decide_alert(budget: BudgetModel, total: i64) -> (next: (AlertState, AlertAction))
    ensures
        (next.0@, next.1@) == alert_decision(budget@, total),
{
    match classify(total, budget.amount) {
        AlertLevel::Quiet => (AlertState::Done, AlertAction::Stop(None)),
        _ => {
            let amount = budget.amount;
            (AlertState::Rendering(budget, total), AlertAction::RenderUsage { total, amount })
        },
    }
}

/// What an evaluation does once it has the text of the percentage.
pub fn write_alert(budget: BudgetModel, total: i64, usage: &str) -> (next: (
    AlertState,
    AlertAction,
))
    ensures
        (next.0@, next.1@) == alert_notice(budget@, total, usage@),
{
    match budget_alert(budget.name.as_str(), budget.budget_id, budget.amount, total, usage) {
        Some(message) => (
            AlertState::Storing { budget_id: budget.budget_id },
            AlertAction::Notify {
                user_id: budget.user_id,
                category: "BUDGET_ALERT".to_owned(),
                message,
            },
        ),
        None => (AlertState::Done, AlertAction::Stop(None)),
    }
}

/// One step of an evaluation.
pub fn budget_evaluation_step(state: AlertState, event: AlertEvent) -> (next: (
    AlertState,
    AlertAction,
))
    ensures
        (next.0@, next.1@) == alert_step(state@, event@),
{
    match (state, event) {
        (AlertState::Idle, AlertEvent::ExpenseCreated { budget_id: None, user_id }) => (
            AlertState::Done,
            AlertAction::Stop(None),
        ),
        (AlertState::Idle, AlertEvent::ExpenseCreated { budget_id: Some(budget_id), user_id }) => {
            trigger_budget_evaluation(budget_id, user_id)
        },
        (
            AlertState::Looking { budget_id, user_id },
            AlertEvent::Budget(BudgetLookup::Found(budget)),
        ) => {
            if budget.budget_id == budget_id && budget.user_id == user_id {
                (AlertState::Summing(budget), AlertAction::SumExpenses { budget_id })
            } else {
                (
                    AlertState::Done,
                    AlertAction::Stop(
                        Some(
                            log_text(
                                "Budget ",
                                budget_id,
                                " is not the budget the store answered with",
                                "",
                            ),
                        ),
                    ),
                )
            }
        },
        (AlertState::Looking { budget_id, user_id }, AlertEvent::Budget(BudgetLookup::Missing)) => (
            AlertState::Done,
            AlertAction::Stop(Some(log_text("Budget ", budget_id, " not found for its owner", ""))),
        ),
        (
            AlertState::Looking { budget_id, user_id },
            AlertEvent::Budget(BudgetLookup::Failed(reason)),
        ) => (
            AlertState::Done,
            AlertAction::Stop(
                Some(log_text("Failed to load budget ", budget_id, ": ", reason.as_str())),
            ),
        ),
        (AlertState::Summing(budget), AlertEvent::Spend(SpendLookup::Total(total))) => {
            decide_alert(budget, total)
        },
        (AlertState::Rendering(budget, total), AlertEvent::Usage(usage)) => {
            write_alert(budget, total, usage.as_str())
        },
        (AlertState::Summing(budget), AlertEvent::Spend(_)) => (
            AlertState::Done,
            AlertAction::Stop(
                Some(
                    log_text(
                        "Failed to calculate total spent for budget ",
                        budget.budget_id,
                        "",
                        "",
                    ),
                ),
            ),
        ),
        (AlertState::Storing { budget_id }, AlertEvent::Notification(StoreOutcome::Stored)) => (
            AlertState::Done,
            AlertAction::Stop(None),
        ),
        (
            AlertState::Storing { budget_id },
            AlertEvent::Notification(StoreOutcome::Failed(reason)),
        ) => (
            AlertState::Done,
            AlertAction::Stop(
                Some(
                    log_text(
                        "Failed to store the alert for budget ",
                        budget_id,
                        ": ",
                        reason.as_str(),
                    ),
                ),
            ),
        ),
        _ => (
            AlertState::Done,
            AlertAction::Stop(Some("Budget evaluation out of order".to_owned())),
        ),
    }
}

/// A notification as the store is asked to keep it.
pub struct Notice {
    pub user_id: u128,
    pub category: Seq<char>,
    pub message: Seq<char>,
}

/// The notification that an action asks the store to keep, if it asks for
/// one.
pub open spec fn notice_of(action: AlertActionView) -> Option<Notice> {
    match action {
        AlertActionView::Notify { user_id, category, message } => Some(
            Notice { user_id, category, message },
        ),
        _ => None,
    }
}

/// The actions of one whole evaluation, from the trigger to its end, where
/// the three questions to the store are answered with `budget`, `spend` and
/// `stored`, and the request for the text of the percentage with `usage`:
/// each is asked for only if the evaluation has not stopped before.
pub open spec fn evaluation(
    budget_id: u128,
    user_id: u128,
    budget: BudgetLookupView,
    spend: SpendLookupView,
    usage: Seq<char>,
    stored: StoreOutcomeView,
) -> Seq<AlertActionView> {
    let trigger = AlertEventView::ExpenseCreated { budget_id: Some(budget_id), user_id };
    let (looking, first) = alert_step(AlertStateView::Idle, trigger);
    let (summing, second) = alert_step(looking, AlertEventView::Budget(budget));
    let (rendering, third) = alert_step(summing, AlertEventView::Spend(spend));
    let (storing, fourth) = alert_step(rendering, AlertEventView::Usage(usage));
    let (done, fifth) = alert_step(storing, AlertEventView::Notification(stored));
    if second is Stop {
        seq![first, second]
    } else if third is Stop {
        seq![first, second, third]
    } else if fourth is Stop {
        seq![first, second, third, fourth]
    } else {
        seq![first, second, third, fourth, fifth]
    }
}

/// The notifications that the store holds after the actions of an
/// evaluation were carried out on a store that held `before`: each one that
/// was asked for is added at the end, and none is taken away or changed.
pub open spec fn notices_after(before: Seq<Notice>, actions: Seq<AlertActionView>) -> Seq<Notice>
    decreases actions.len(),
{
    if actions.len() == 0 {
        before
    } else {
        let earlier = notices_after(before, actions.drop_last());
        match notice_of(actions.last()) {
            Some(notice) => earlier.push(notice),
            None => earlier,
        }
    }
}

/// What carrying out an evaluation's actions leaves in the store: where the
/// fourth action asks for a notification, that one is added; else nothing.
proof fn notices_of_an_evaluation(
    before: Seq<Notice>,
    budget_id: u128,
    user_id: u128,
    budget: BudgetLookupView,
    spend: SpendLookupView,
    usage: Seq<char>,
    stored: StoreOutcomeView,
)
    ensures
        ({
            let actions = evaluation(budget_id, user_id, budget, spend, usage, stored);
            let after = notices_after(before, actions);
            &&& 2 <= actions.len() <= 5
            &&& actions.last() is Stop
            &&& forall|i: int|
                0 <= i < actions.len() && i != 3 ==> notice_of(#[trigger] actions[i]) is None
            &&& actions.len() >= 4 && notice_of(actions[3]) is Some ==> after == before.push(
                notice_of(actions[3])->0,
            )
            &&& !(actions.len() >= 4 && notice_of(actions[3]) is Some) ==> after == before
        }),
{
    // An evaluation has at most five actions: the stored notifications are
    // found by going through them from the last to the first.
    let actions = evaluation(budget_id, user_id, budget, spend, usage, stored);
    reveal_with_fuel(notices_after, 6);
    if actions.len() == 5 {
        assert(actions.drop_last().drop_last().drop_last().drop_last().drop_last() =~= Seq::<
            AlertActionView,
        >::empty());
    } else if actions.len() == 4 {
        assert(actions.drop_last().drop_last().drop_last().drop_last() =~= Seq::<
            AlertActionView,
        >::empty());
    }
}

/// An evaluation that finds a threshold reached asks for exactly one
/// notification: for the budget's owner, under the alert category, with the
/// message of the level reached, which shows the percentage as it was
/// handed in. It stores nothing else.
pub proof fn reached_threshold_raises_one_alert(
    before: Seq<Notice>,
    budget: BudgetView,
    total: i64,
    usage: Seq<char>,
    stored: StoreOutcomeView,
)
    requires
        alert_level(total as int, budget.amount as int) != AlertLevel::Quiet,
    ensures
        notices_after(
            before,
            evaluation(
                budget.budget_id,
                budget.user_id,
                BudgetLookupView::Found(budget),
                SpendLookupView::Total(total),
                usage,
                stored,
            ),
        ) == before.push(
            Notice {
                user_id: budget.user_id,
                category: alert_category(),
                message: alert_for(
                    budget.name,
                    budget.budget_id,
                    budget.amount as int,
                    total as int,
                    usage,
                )->0,
            },
        ),
{
    notices_of_an_evaluation(
        before,
        budget.budget_id,
        budget.user_id,
        BudgetLookupView::Found(budget),
        SpendLookupView::Total(total),
        usage,
        stored,
    );
}

/// While less than four fifths of a budget is spent, an evaluation stores
/// nothing, and does not even ask for the percentage.
pub proof fn below_four_fifths_raises_nothing(
    before: Seq<Notice>,
    budget: BudgetView,
    total: i64,
    usage: Seq<char>,
    stored: StoreOutcomeView,
)
    requires
        5 * total < 4 * budget.amount,
    ensures
        ({
            let actions = evaluation(
                budget.budget_id,
                budget.user_id,
                BudgetLookupView::Found(budget),
                SpendLookupView::Total(total),
                usage,
                stored,
            );
            &&& notices_after(before, actions) == before
            &&& actions.len() == 3
            &&& actions[2] == AlertActionView::Stop(None)
        }),
{
    notices_of_an_evaluation(
        before,
        budget.budget_id,
        budget.user_id,
        BudgetLookupView::Found(budget),
        SpendLookupView::Total(total),
        usage,
        stored,
    );
}

/// Alerts are not deduplicated. Two evaluations that find the same total
/// over a reached threshold, with no expense booked in between, leave two
/// notifications with the same message: nothing of the first evaluation is
/// known to the second.
pub proof fn repeated_evaluation_alerts_again(
    before: Seq<Notice>,
    budget: BudgetView,
    total: i64,
    usage: Seq<char>,
    first_stored: StoreOutcomeView,
    second_stored: StoreOutcomeView,
)
    requires
        alert_level(total as int, budget.amount as int) != AlertLevel::Quiet,
    ensures
        ({
            let first = evaluation(
                budget.budget_id,
                budget.user_id,
                BudgetLookupView::Found(budget),
                SpendLookupView::Total(total),
                usage,
                first_stored,
            );
            let second = evaluation(
                budget.budget_id,
                budget.user_id,
                BudgetLookupView::Found(budget),
                SpendLookupView::Total(total),
                usage,
                second_stored,
            );
            let after = notices_after(notices_after(before, first), second);
            &&& after.len() == before.len() + 2
            &&& after[after.len() - 1] == after[after.len() - 2]
            &&& after[after.len() - 1].message == alert_for(
                budget.name,
                budget.budget_id,
                budget.amount as int,
                total as int,
                usage,
            )->0
        }),
{
    reached_threshold_raises_one_alert(before, budget, total, usage, first_stored);
    let middle = notices_after(
        before,
        evaluation(
            budget.budget_id,
            budget.user_id,
            BudgetLookupView::Found(budget),
            SpendLookupView::Total(total),
            usage,
            first_stored,
        ),
    );
    reached_threshold_raises_one_alert(middle, budget, total, usage, second_stored);
}

/// An evaluation whose budget is gone when it runs (deleted, or never the
/// user's) stops at once: it asks for the budget, stops with a line for the
/// log, stores nothing, and asks nothing more. No action of an evaluation
/// addresses the caller, so nothing of this reaches one.
pub proof fn missing_budget_raises_nothing(
    before: Seq<Notice>,
    budget_id: u128,
    user_id: u128,
    spend: SpendLookupView,
    usage: Seq<char>,
    stored: StoreOutcomeView,
)
    ensures
        ({
            let actions = evaluation(
                budget_id,
                user_id,
                BudgetLookupView::Missing,
                spend,
                usage,
                stored,
            );
            &&& actions.len() == 2
            &&& actions[0] == (AlertActionView::FindBudget { budget_id, user_id })
            &&& actions[1] is Stop
            &&& notices_after(before, actions) == before
        }),
{
    notices_of_an_evaluation(
        before,
        budget_id,
        user_id,
        BudgetLookupView::Missing,
        spend,
        usage,
        stored,
    );
}

/// An evaluation that the store fails before the sum is known stores
/// nothing, and ends with a line for the log.
pub proof fn failed_store_ends_the_evaluation(
    before: Seq<Notice>,
    budget_id: u128,
    user_id: u128,
    budget: BudgetLookupView,
    spend: SpendLookupView,
    usage: Seq<char>,
    stored: StoreOutcomeView,
)
    requires
        budget is Failed || (budget is Found && !(spend is Total)),
    ensures
        ({
            let actions = evaluation(budget_id, user_id, budget, spend, usage, stored);
            &&& actions.last() matches AlertActionView::Stop(Some(_))
            &&& notices_after(before, actions) == before
        }),
{
    notices_of_an_evaluation(before, budget_id, user_id, budget, spend, usage, stored);
}

/// An alert goes to the user who booked the expense, and speaks of the
/// budget the expense was booked against as it stands now: whatever the
/// store answers, a notification that an evaluation asks for is addressed to
/// the user of the trigger, and carries the message for the budget of the
/// trigger, which the store holds for that user, worked out from the sum
/// that the store gave in this very evaluation.
pub proof fn alert_goes_to_the_owner(
    budget_id: u128,
    user_id: u128,
    budget: BudgetLookupView,
    spend: SpendLookupView,
    usage: Seq<char>,
    stored: StoreOutcomeView,
    i: int,
)
    requires
        0 <= i < evaluation(budget_id, user_id, budget, spend, usage, stored).len(),
        evaluation(budget_id, user_id, budget, spend, usage, stored)[i] is Notify,
    ensures
        i == 3,
        budget matches BudgetLookupView::Found(found) && found.budget_id == budget_id
            && found.user_id == user_id,
        spend matches SpendLookupView::Total(total) && budget matches BudgetLookupView::Found(found)
            && notice_of(evaluation(budget_id, user_id, budget, spend, usage, stored)[i]) == Some(
            Notice {
                user_id,
                category: alert_category(),
                message: alert_for(
                    found.name,
                    budget_id,
                    found.amount as int,
                    total as int,
                    usage,
                )->0,
            },
        ) && alert_level(total as int, found.amount as int) != AlertLevel::Quiet,
{
    notices_of_an_evaluation(Seq::empty(), budget_id, user_id, budget, spend, usage, stored);
}

} // verus!
