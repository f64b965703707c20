//! Removing activities.
//!
//! Admins and the department remove unconditionally; anyone else may remove
//! only an activity they created. The caller hands in the stored record for
//! the requested identity, or nothing when no such record exists.

use vstd::prelude::*;

use crate::ids::Oid;
use crate::models::activities::Activity;
use crate::models::groups::{contains_permission, GroupPermission};
use crate::models::response::{create_error, ErrorResponse, ResponseStatus};
use crate::utils::jwt::UserData;

verus! {

/// Whether the requester may remove `activity`.
pub open spec fn spec_can_remove(
    perms: Seq<GroupPermission>,
    requester: Oid,
    activity: Activity,
) -> bool {
    ||| perms.contains(GroupPermission::Admin)
    ||| perms.contains(GroupPermission::Department)
    ||| activity.creator == requester
}

/// Decides a removal request against the stored record. Succeeds exactly
/// when the record exists and the requester is an admin, the department, or
/// its creator; a missing record is not found, an unauthorized requester is
/// forbidden.
pub fn remove_activity(user: &UserData, activity: Option<&Activity>) -> (r: Result<
    (),
    ErrorResponse,
>)
    ensures
        activity is None ==> (r matches Err(e) && e.code == 404 && e.status
            == ResponseStatus::Error && e.message@ == "Activity not found"@),
        activity matches Some(a) ==> {
            if spec_can_remove(user.perms@, user.id, *a) {
                r is Ok
            } else {
                (r matches Err(e) && e.code == 403 && e.status == ResponseStatus::Error
                    && e.message@ == "Permission denied"@)
            }
        },
{
    let a = match activity {
        Some(a) => a,
        None => {
            return Err(create_error(404, "Activity not found".to_string()));
        },
    };
    if contains_permission(&user.perms, GroupPermission::Admin) || contains_permission(
        &user.perms,
        GroupPermission::Department,
    ) {
        return Ok(());
    }
    if a.creator == user.id {
        Ok(())
    } else {
        Err(create_error(403, "Permission denied".to_string()))
    }
}

} // verus!
