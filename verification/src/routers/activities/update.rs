//! Renaming activities and editing their descriptions.
//!
//! Admins, the department, and the activity's creator may edit; anyone
//! else is forbidden.

use vstd::prelude::*;

use crate::ids::Oid;
use crate::models::activities::{Activity, ActivityStatus};
use crate::models::groups::{contains_permission, GroupPermission};
use crate::models::response::{create_error, ErrorResponse, ResponseStatus};
use crate::utils::jwt::UserData;

verus! {

/// A rename request body.
#[derive(Debug, Clone, PartialEq)]
pub struct UpdateActivityName {
    pub name: String,
}

/// A description-edit request body.
#[derive(Debug, Clone, PartialEq)]
pub struct UpdateActivityDescription {
    pub description: String,
}

/// A status-override request body.
#[derive(Debug, Clone, Copy, PartialEq, Eq, Structural, Hash)]
pub struct UpdateActivityStatus {
    pub status: ActivityStatus,
}

/// Whether the requester may edit `activity`'s name or description.
pub open spec fn spec_can_update(
    perms: Seq<GroupPermission>,
    requester: Oid,
    activity: Activity,
) -> bool {
    ||| perms.contains(GroupPermission::Admin)
    ||| perms.contains(GroupPermission::Department)
    ||| activity.creator == requester
}

/// Whether the requester may edit `activity`'s name or description.
pub fn can_update(user: &UserData, activity: &Activity) -> (r: bool)
    ensures
        r == spec_can_update(user.perms@, user.id, *activity),
{
    contains_permission(&user.perms, GroupPermission::Admin) || contains_permission(
        &user.perms,
        GroupPermission::Department,
    ) || activity.creator == user.id
}

/// Renames an activity. Succeeds exactly for an admin, the department, or
/// the creator, replacing the name and nothing else.
pub fn update_activity_name(user: &UserData, activity: Activity, data: UpdateActivityName) -> (r:
    Result<Activity, ErrorResponse>)
    ensures
        r is Ok <==> spec_can_update(user.perms@, user.id, activity),
        r matches Ok(a) ==> a == (Activity { name: data.name, ..activity }),
        r matches Err(e) ==> e.status == ResponseStatus::Error && e.code == 403 && e.message@
            == "Permission denied"@,
{
    if can_update(user, &activity) {
        let mut out = activity;
        out.name = data.name;
        Ok(out)
    } else {
        Err(create_error(403, "Permission denied".to_string()))
    }
}

/// Replaces an activity's description. Succeeds exactly for an admin, the
/// department, or the creator, replacing the description and nothing else.
pub fn update_activity_description(
    user: &UserData,
    activity: Activity,
    data: UpdateActivityDescription,
) -> (r: Result<Activity, ErrorResponse>)
    ensures
        r is Ok <==> spec_can_update(user.perms@, user.id, activity),
        r matches Ok(a) ==> a == (Activity { description: Some(data.description), ..activity }),
        r matches Err(e) ==> e.status == ResponseStatus::Error && e.code == 403 && e.message@
            == "Permission denied"@,
{
    if can_update(user, &activity) {
        let mut out = activity;
        out.description = Some(data.description);
        Ok(out)
    } else {
        Err(create_error(403, "Permission denied".to_string()))
    }
}

} // verus!
