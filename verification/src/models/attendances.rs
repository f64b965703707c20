//! Member participation records, embedded in an activity.
//!
//! Durations are whole units of accumulated time. A record is mutable only
//! while its status is pending, draft or rejected; once effective or refused
//! it is frozen (see the transition rules in the activity routers).

use vstd::prelude::*;

use crate::ids::{Oid, StoredId};

verus! {

/// The lifecycle states of a participation record.
#[derive(Debug, Clone, Copy, PartialEq, Eq, Structural, Hash)]
pub enum AttendanceStatus {
    Effective,
    Pending,
    Refused,
    Rejected,
    Draft,
}

/// The participation mode a record's duration counts toward.
#[derive(Debug, Clone, Copy, PartialEq, Eq, Structural, Hash)]
pub enum AttendanceMode {
    OnCampus,
    OffCampus,
    SocialPractice,
}

/// One entry of a record's append-only status-change history.
#[derive(Debug, Clone, PartialEq)]
pub struct AttendanceHistory {
    pub impression: String,
    pub duration: u64,
    pub time: String,
    pub actor: Oid,
    pub result: AttendanceStatus,
}

/// A user's participation record inside an activity.
#[derive(Debug, Clone, PartialEq)]
pub struct ActivityMember {
    pub _id: StoredId,
    pub status: AttendanceStatus,
    pub impression: Option<String>,
    pub duration: u64,
    pub mode: AttendanceMode,
    pub history: Option<Vec<AttendanceHistory>>,
    pub images: Option<Vec<String>>,
}

} // verus!
