//! Notifications.

use crate::schema::Instant;
use vstd::prelude::*;

verus! {

/// An alert kept for a user until it has been handed out.
#[derive(Debug, Clone, PartialEq, Eq)]
pub struct NotificationModel {
    pub notification_id: u128,
    pub user_id: u128,
    pub category: String,
    pub message: String,
    pub is_sent: bool,
    pub created_at: Option<Instant>,
    pub updated_at: Option<Instant>,
}

} // verus!
