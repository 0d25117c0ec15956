//! What the routes themselves decide.

use crate::models::notification::NotificationModel;
use vstd::prelude::*;

pub mod expense;

verus! {

/// The identifiers of notifications, in their order.
pub open spec fn notification_ids(notifications: Seq<NotificationModel>) -> Seq<u128> {
    Seq::new(notifications.len(), |i: int| notifications[i].notification_id)
}

/// What handing out a user's pending notifications comes to: how many there
/// are, and which ones are to be marked as sent afterwards; `None` where
/// there is nothing to mark.
#[derive(Debug, Clone, PartialEq, Eq)]
pub struct Handout {
    pub count: usize,
    pub mark_sent: Option<Vec<u128>>,
}

/// Decides what is marked as sent when the pending notifications of a user
/// are handed out: each of them, once.
pub fn get_notifications(notifications: &Vec<NotificationModel>) -> (handout: Handout)
    ensures
        handout.count == notifications@.len(),
        match handout.mark_sent {
            None => notifications@.len() == 0,
            Some(ids) => notifications@.len() > 0 && ids@ == notification_ids(notifications@),
        },
{
    let count = notifications.len();
    if count == 0 {
        return Handout { count, mark_sent: None };
    }
    let mut ids: Vec<u128> = Vec::new();
    let mut i: usize = 0;
    while i < count
        invariant
            i <= count,
            count == notifications@.len(),
            ids@.len() == i,
            forall|j: int| 0 <= j < i ==> ids@[j] == notifications@[j].notification_id,
        decreases count - i,
    {
        ids.push(notifications[i].notification_id);
        i = i + 1;
    }
    Handout { count, mark_sent: Some(ids) }
}

} // verus!
