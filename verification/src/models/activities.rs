//! Activities: trackable volunteer events with an approval lifecycle.

use vstd::prelude::*;

use crate::ids::Oid;
use crate::models::attendances::ActivityMember;

verus! {

/// The category of an activity, which together with the requester's role
/// decides the status a newly created activity receives.
#[derive(Debug, Clone, Copy, PartialEq, Eq, Structural, Hash)]
pub enum ActivityType {
    Specified,
    Social,
    Scale,
    Special,
}

/// The lifecycle states of an activity.
#[derive(Debug, Clone, Copy, PartialEq, Eq, Structural, Hash)]
pub enum ActivityStatus {
    Effective,
    Pending,
    Refused,
}

/// The tag a special-category activity may carry.
#[derive(Debug, Clone, Copy, PartialEq, Eq, Structural, Hash)]
pub enum SpecialActivityCategory {
    Prize,
    Import,
    Club,
    Deduction,
    Other,
}

/// An activity record. `_id` is immutable once assigned; dates are unix
/// timestamps in seconds.
#[derive(Debug, Clone, PartialEq)]
pub struct Activity {
    pub _id: Oid,
    pub activity_type: ActivityType,
    pub name: String,
    pub description: Option<String>,
    pub date: u64,
    pub created_at: u64,
    pub updated_at: u64,
    pub creator: Oid,
    pub status: ActivityStatus,
    pub members: Option<Vec<ActivityMember>>,
    pub location: Option<String>,
    pub category: Option<SpecialActivityCategory>,
}

/// The member list of an activity, reading a missing list as empty.
pub open spec fn spec_members_of(a: Activity) -> Seq<ActivityMember> {
    match a.members {
        Some(v) => v@,
        None => Seq::empty(),
    }
}

/// Whether two activities agree on every field but the member list.
pub open spec fn spec_same_except_members(a: Activity, b: Activity) -> bool {
    &&& a._id == b._id
    &&& a.activity_type == b.activity_type
    &&& a.name == b.name
    &&& a.description == b.description
    &&& a.date == b.date
    &&& a.created_at == b.created_at
    &&& a.updated_at == b.updated_at
    &&& a.creator == b.creator
    &&& a.status == b.status
    &&& a.location == b.location
    &&& a.category == b.category
}

} // verus!
