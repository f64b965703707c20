//! Notifications published to users.

use vstd::prelude::*;

use crate::ids::Oid;

verus! {

/// How prominently a notification is shown.
#[derive(Debug, Clone, Copy, PartialEq, Eq, Structural, Hash)]
pub enum NotificationType {
    Pin,
    Important,
    Normal,
}

/// A published notification.
#[derive(Debug, Clone, PartialEq)]
pub struct Notification {
    pub _id: Oid,
    pub title: String,
    pub content: Option<String>,
    pub time: u64,
    pub notification_type: NotificationType,
    pub publisher: Oid,
    pub receivers: Option<Vec<Oid>>,
    pub anoymous: bool,
    pub global: bool,
    pub expire: u64,
}

} // verus!
