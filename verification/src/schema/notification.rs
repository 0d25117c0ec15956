//! Request bodies for notifications.

use vstd::prelude::*;

verus! {

/// The body of a request that names a kind of notification.
#[derive(Debug, Clone, PartialEq, Eq)]
pub struct NotificationSchema {
    pub category: String,
}

} // verus!
