//! Volunteer events in their standalone form.

use vstd::prelude::*;

use crate::ids::Oid;

verus! {

/// The category of a volunteer event.
#[derive(Debug, Clone, Copy, PartialEq, Eq, Structural, Hash)]
pub enum VolunteerType {
    Mobile,
    Social,
    Practice,
}

/// The lifecycle states of a volunteer event.
#[derive(Debug, Clone, Copy, PartialEq, Eq, Structural, Hash)]
pub enum VolunteerStatus {
    Pending,
    Effective,
    Refused,
}

/// The participation mode a volunteer event counts toward.
#[derive(Debug, Clone, Copy, PartialEq, Eq, Structural, Hash)]
pub enum VolunteerMode {
    OnCampus,
    OffCampus,
    SocialPractice,
}

/// A standalone volunteer event record.
#[derive(Debug, Clone, PartialEq)]
pub struct Volunteer {
    pub _id: Oid,
    pub name: String,
    pub description: Option<String>,
    pub volunteer_type: VolunteerType,
    pub status: VolunteerStatus,
    pub date: u64,
    pub creator: Oid,
    pub location: String,
    pub members: Vec<Oid>,
}

} // verus!
