//! Creating activities.
//!
//! The status a new activity receives is a pure function of the requester's
//! permission set and the activity's type:
//!
//! | requester    | type            | status            |
//! |--------------|-----------------|-------------------|
//! | admin        | any             | effective         |
//! | department   | special         | pending           |
//! | department   | other           | effective         |
//! | secretary    | specified       | pending           |
//! | secretary    | special         | denied            |
//! | secretary    | other           | effective         |
//! | plain user   | social or scale | pending           |
//! | plain user   | other           | denied            |
//!
//! The branches are checked in that order, so a requester holding several
//! of the roles is read under the strongest one.

use vstd::prelude::*;

use crate::ids::Oid;
use crate::models::activities::{Activity, ActivityStatus, ActivityType};
use crate::models::groups::{contains_permission, GroupPermission};
use crate::models::response::{create_error, ErrorResponse, ResponseStatus};
use crate::utils::jwt::UserData;

verus! {

/// The status a newly created activity receives, by the table above, or
/// nothing when the request is denied.
pub open spec fn spec_creation_status(perms: Seq<GroupPermission>, t: ActivityType) -> Option<
    ActivityStatus,
> {
    if perms.contains(GroupPermission::Admin) {
        Some(ActivityStatus::Effective)
    } else if perms.contains(GroupPermission::Department) {
        if t == ActivityType::Special {
            Some(ActivityStatus::Pending)
        } else {
            Some(ActivityStatus::Effective)
        }
    } else if perms.contains(GroupPermission::Secretary) {
        if t == ActivityType::Specified {
            Some(ActivityStatus::Pending)
        } else if t != ActivityType::Special {
            Some(ActivityStatus::Effective)
        } else {
            None
        }
    } else {
        if t == ActivityType::Social || t == ActivityType::Scale {
            Some(ActivityStatus::Pending)
        } else {
            None
        }
    }
}

/// The status a newly created activity receives, or nothing when denied.
pub fn creation_status(perms: &Vec<GroupPermission>, t: ActivityType) -> (r: Option<
    ActivityStatus,
>)
    ensures
        r == spec_creation_status(perms@, t),
{
    if contains_permission(perms, GroupPermission::Admin) {
        Some(ActivityStatus::Effective)
    } else if contains_permission(perms, GroupPermission::Department) {
        if matches!(t, ActivityType::Special) {
            Some(ActivityStatus::Pending)
        } else {
            Some(ActivityStatus::Effective)
        }
    } else if contains_permission(perms, GroupPermission::Secretary) {
        if matches!(t, ActivityType::Specified) {
            Some(ActivityStatus::Pending)
        } else if !matches!(t, ActivityType::Special) {
            Some(ActivityStatus::Effective)
        } else {
            None
        }
    } else {
        if matches!(t, ActivityType::Social) || matches!(t, ActivityType::Scale) {
            Some(ActivityStatus::Pending)
        } else {
            None
        }
    }
}

/// Applies the creation rules to a submitted activity: sets the status the
/// table assigns, gives the record the fresh identity unless the caller
/// opted out of renewal, and leaves every other field as submitted. Denied
/// requests fail with the forbidden error and change nothing.
pub fn insert_activity(
    user: &UserData,
    renew_object_id: Option<bool>,
    activity: Activity,
    fresh_id: Oid,
) -> (r: Result<Activity, ErrorResponse>)
    ensures
        r is Ok <==> spec_creation_status(user.perms@, activity.activity_type) is Some,
        r matches Ok(a) ==> {
            &&& Some(a.status) == spec_creation_status(user.perms@, activity.activity_type)
            &&& a._id == if renew_object_id == Some(false) {
                activity._id
            } else {
                fresh_id
            }
            &&& a.activity_type == activity.activity_type
            &&& a.name == activity.name
            &&& a.description == activity.description
            &&& a.date == activity.date
            &&& a.created_at == activity.created_at
            &&& a.updated_at == activity.updated_at
            &&& a.creator == activity.creator
            &&& a.members == activity.members
            &&& a.location == activity.location
            &&& a.category == activity.category
        },
        r matches Err(e) ==> e.status == ResponseStatus::Error && e.code == 403 && e.message@
            == "Permission denied"@,
{
    let status = match creation_status(&user.perms, activity.activity_type) {
        Some(s) => s,
        None => {
            return Err(create_error(403, "Permission denied".to_string()));
        },
    };
    let renew = match renew_object_id {
        Some(b) => b,
        None => true,
    };
    let mut out = activity;
    out.status = status;
    if renew {
        out._id = fresh_id;
    }
    Ok(out)
}

} // verus!
