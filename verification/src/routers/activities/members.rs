//! Member participation records of an activity: insertion, reading, and
//! status transitions.
//!
//! Insertion is open to admins and the department only, and a member
//! identity may appear on an activity at most once. Reading is open to
//! admins, the department, auditors and the member themself; a secretary
//! sees a record only when sharing a class group with its member. A status
//! transition is decided by the record's current status: effective and
//! refused records are frozen; pending records are decided by auditors and
//! admins; draft and rejected records only by the member themself.

use vstd::prelude::*;

use crate::ids::Oid;
use crate::models::activities::{
    spec_members_of, spec_same_except_members, Activity,
};
use crate::models::attendances::{ActivityMember, AttendanceMode, AttendanceStatus};
use crate::models::groups::{contains_permission, GroupPermission};
use crate::models::response::{create_error, ErrorResponse, ResponseStatus};
use crate::utils::jwt::UserData;

verus! {

/// A mode-change request body.
#[derive(Debug, Clone, Copy, PartialEq, Eq, Structural, Hash)]
pub struct UpdateActivityMemberMode {
    pub mode: AttendanceMode,
}

/// A status-transition request body: the status to move to and, optionally,
/// a new duration; an omitted duration keeps the stored one.
#[derive(Debug, Clone, Copy, PartialEq, Eq, Structural, Hash)]
pub struct UpdateActivityMemberStatus {
    pub status: AttendanceStatus,
    pub duration: Option<u64>,
}

/// An impression-edit request body.
#[derive(Debug, Clone, PartialEq)]
pub struct UpdateActivityMemberImpression {
    pub impression: String,
}

/// The first position at or after `i` whose member stands for `id`, or -1.
pub open spec fn spec_member_index_from(ms: Seq<ActivityMember>, i: int, id: Oid) -> int
    decreases ms.len() - i,
{
    if i < 0 || i >= ms.len() {
        -1
    } else if ms[i]._id.spec_oid() == id {
        i
    } else {
        spec_member_index_from(ms, i + 1, id)
    }
}

/// The first position whose member stands for `id`, or -1.
pub open spec fn spec_member_index(ms: Seq<ActivityMember>, id: Oid) -> int {
    spec_member_index_from(ms, 0, id)
}

/// The position of `id`'s member record, if there is one.
fn find_member_index(ms: &Vec<ActivityMember>, id: Oid) -> (r: Option<usize>)
    ensures
        match r {
            Some(i) => spec_member_index(ms@, id) == i && i < ms@.len(),
            None => spec_member_index(ms@, id) == -1,
        },
{
    let mut i: usize = 0;
    while i < ms.len()
        invariant
            i <= ms@.len(),
            spec_member_index(ms@, id) == spec_member_index_from(ms@, i as int, id),
        decreases ms@.len() - i,
    {
        if ms[i]._id.matches(id) {
            return Some(i);
        }
        i += 1;
    }
    None
}

/// Inserts a participation record into an activity. The role gate governs
/// every request: a requester who is neither an admin nor the department is
/// forbidden, whatever the member list holds. For an authorized requester
/// the record is refused as a conflict when the activity already holds a
/// record for the same identity, and otherwise appended as submitted, with
/// no status reassignment.
pub fn insert_member_into_activity(
    user: &UserData,
    activity: Activity,
    activity_member: ActivityMember,
) -> (r: Result<Activity, ErrorResponse>)
    ensures
        !(user.perms@.contains(GroupPermission::Admin) || user.perms@.contains(
            GroupPermission::Department,
        )) ==> (r matches Err(e) && e.code == 403 && e.status == ResponseStatus::Error
            && e.message@ == "Permission denied"@),
        (user.perms@.contains(GroupPermission::Admin) || user.perms@.contains(
            GroupPermission::Department,
        )) && spec_member_index(spec_members_of(activity), activity_member._id.spec_oid()) >= 0
            ==> (r matches Err(e) && e.code == 400 && e.status == ResponseStatus::Error
            && e.message@ == "Member already exists"@),
        (user.perms@.contains(GroupPermission::Admin) || user.perms@.contains(
            GroupPermission::Department,
        )) && spec_member_index(spec_members_of(activity), activity_member._id.spec_oid()) == -1
            ==> (r matches Ok(a) && spec_same_except_members(a, activity) && (
        a.members matches Some(v) && v@ == spec_members_of(activity).push(activity_member))),
{
    if !(contains_permission(&user.perms, GroupPermission::Admin) || contains_permission(
        &user.perms,
        GroupPermission::Department,
    )) {
        return Err(create_error(403, "Permission denied".to_string()));
    }
    let ghost ms0 = spec_members_of(activity);
    let members: Vec<ActivityMember> = match activity.members {
        Some(v) => v,
        None => Vec::new(),
    };
    assert(members@ =~= ms0);
    if let Some(_) = find_member_index(&members, activity_member._id.oid()) {
        return Err(create_error(400, "Member already exists".to_string()));
    }
    let mut members = members;
    members.push(activity_member);
    Ok(
        Activity {
            members: Some(members),
            _id: activity._id,
            activity_type: activity.activity_type,
            name: activity.name,
            description: activity.description,
            date: activity.date,
            created_at: activity.created_at,
            updated_at: activity.updated_at,
            creator: activity.creator,
            status: activity.status,
            location: activity.location,
            category: activity.category,
        },
    )
}

/// Whether the requester may read `member_id`'s record without a cohort
/// check: admins, the department, auditors, and the member themself.
pub open spec fn spec_can_read_directly(
    perms: Seq<GroupPermission>,
    requester: Oid,
    member_id: Oid,
) -> bool {
    ||| perms.contains(GroupPermission::Admin)
    ||| perms.contains(GroupPermission::Department)
    ||| perms.contains(GroupPermission::Auditor)
    ||| requester == member_id
}

/// Reads one participation record. `same_class` is the outcome of the
/// cohort lookup for the requester and the member — shared, not shared, or
/// nothing when the lookup itself failed — and is consulted only for a
/// secretary without direct access.
pub fn read_member(
    user: &UserData,
    activity: Activity,
    member_id: Oid,
    same_class: Option<bool>,
) -> (r: Result<ActivityMember, ErrorResponse>)
    ensures
        spec_member_index(spec_members_of(activity), member_id) == -1 ==> (r matches Err(e)
            && e.code == 404 && e.status == ResponseStatus::Error && e.message@
            == "Activity not found"@),
        spec_member_index(spec_members_of(activity), member_id) >= 0 ==> {
            let ms = spec_members_of(activity);
            let idx = spec_member_index(ms, member_id);
            if spec_can_read_directly(user.perms@, user.id, member_id) {
                r matches Ok(m) && m == ms[idx]
            } else if user.perms@.contains(GroupPermission::Secretary) {
                match same_class {
                    None => (r matches Err(e) && e.code == 500 && e.status
                        == ResponseStatus::Error && e.message@ == "Cannot validate user"@),
                    Some(true) => r matches Ok(m) && m == ms[idx],
                    Some(false) => (r matches Err(e) && e.code == 403 && e.status
                        == ResponseStatus::Error && e.message@ == "Permission denied"@),
                }
            } else {
                (r matches Err(e) && e.code == 403 && e.status == ResponseStatus::Error
                    && e.message@ == "Permission denied"@)
            }
        },
{
    let ghost ms0 = spec_members_of(activity);
    let mut members: Vec<ActivityMember> = match activity.members {
        Some(v) => v,
        None => Vec::new(),
    };
    assert(members@ =~= ms0);
    let idx = match find_member_index(&members, member_id) {
        Some(i) => i,
        None => {
            return Err(create_error(404, "Activity not found".to_string()));
        },
    };
    if contains_permission(&user.perms, GroupPermission::Admin) || contains_permission(
        &user.perms,
        GroupPermission::Department,
    ) || contains_permission(&user.perms, GroupPermission::Auditor) || user.id == member_id {
        return Ok(members.remove(idx));
    }
    if contains_permission(&user.perms, GroupPermission::Secretary) {
        match same_class {
            None => Err(create_error(500, "Cannot validate user".to_string())),
            Some(true) => Ok(members.remove(idx)),
            Some(false) => Err(create_error(403, "Permission denied".to_string())),
        }
    } else {
        Err(create_error(403, "Permission denied".to_string()))
    }
}

/// Whether a record with current status `cur` may be transitioned by this
/// requester: effective and refused records by nobody, pending records by
/// auditors and admins, draft and rejected records by the member themself.
pub open spec fn spec_transition_allowed(
    cur: AttendanceStatus,
    perms: Seq<GroupPermission>,
    requester: Oid,
    member_id: Oid,
) -> bool {
    match cur {
        AttendanceStatus::Effective => false,
        AttendanceStatus::Refused => false,
        AttendanceStatus::Pending => perms.contains(GroupPermission::Auditor) || perms.contains(
            GroupPermission::Admin,
        ),
        AttendanceStatus::Draft => requester == member_id,
        AttendanceStatus::Rejected => requester == member_id,
    }
}

/// A transition out of an effective or refused record always fails, for
/// every requester: the two statuses are terminal.
pub proof fn lemma_terminal_statuses_frozen(
    cur: AttendanceStatus,
    perms: Seq<GroupPermission>,
    requester: Oid,
    member_id: Oid,
)
    requires
        cur == AttendanceStatus::Effective || cur == AttendanceStatus::Refused,
    ensures
        !spec_transition_allowed(cur, perms, requester, member_id),
{
}

/// Applies a status transition to `member_id`'s record: the new status is
/// written, and the duration is replaced when the request carries one and
/// kept otherwise. Fails as not-found when the activity has no record for
/// the identity, and as forbidden when the transition table refuses the
/// requester.
pub fn update_member_status(
    user: &UserData,
    activity: Activity,
    member_id: Oid,
    update: &UpdateActivityMemberStatus,
) -> (r: Result<Activity, ErrorResponse>)
    ensures
        spec_member_index(spec_members_of(activity), member_id) == -1 ==> (r matches Err(e)
            && e.code == 404 && e.status == ResponseStatus::Error && e.message@
            == "Activity not found"@),
        spec_member_index(spec_members_of(activity), member_id) >= 0 ==> {
            let ms = spec_members_of(activity);
            let idx = spec_member_index(ms, member_id);
            let cur = ms[idx];
            if spec_transition_allowed(cur.status, user.perms@, user.id, member_id) {
                r matches Ok(a) && spec_same_except_members(a, activity) && (
                a.members matches Some(v) && v@ == ms.update(
                    idx,
                    ActivityMember {
                        status: update.status,
                        duration: match update.duration {
                            Some(d) => d,
                            None => cur.duration,
                        },
                        ..cur
                    },
                ))
            } else {
                (r matches Err(e) && e.code == 403 && e.status == ResponseStatus::Error
                    && e.message@ == "Cannot update member duration"@)
            }
        },
{
    let ghost ms0 = spec_members_of(activity);
    let mut members: Vec<ActivityMember> = match activity.members {
        Some(v) => v,
        None => Vec::new(),
    };
    assert(members@ =~= ms0);
    let idx = match find_member_index(&members, member_id) {
        Some(i) => i,
        None => {
            return Err(create_error(404, "Activity not found".to_string()));
        },
    };
    let cur = members.remove(idx);
    if !member_transition_allowed(cur.status, user, member_id) {
        return Err(create_error(403, "Cannot update member duration".to_string()));
    }
    let duration = match update.duration {
        Some(d) => d,
        None => cur.duration,
    };
    let ghost cur0 = cur;
    let updated = ActivityMember { status: update.status, duration, ..cur };
    members.insert(idx, updated);
    proof {
        assert(members@ =~= ms0.update(idx as int, updated));
    }
    Ok(
        Activity {
            members: Some(members),
            _id: activity._id,
            activity_type: activity.activity_type,
            name: activity.name,
            description: activity.description,
            date: activity.date,
            created_at: activity.created_at,
            updated_at: activity.updated_at,
            creator: activity.creator,
            status: activity.status,
            location: activity.location,
            category: activity.category,
        },
    )
}

/// Whether the transition table lets this requester move a record with
/// current status `cur`.
fn member_transition_allowed(cur: AttendanceStatus, user: &UserData, member_id: Oid) -> (r: bool)
    ensures
        r == spec_transition_allowed(cur, user.perms@, user.id, member_id),
{
    match cur {
        AttendanceStatus::Effective => false,
        AttendanceStatus::Refused => false,
        AttendanceStatus::Pending => contains_permission(&user.perms, GroupPermission::Auditor)
            || contains_permission(&user.perms, GroupPermission::Admin),
        AttendanceStatus::Draft => user.id == member_id,
        AttendanceStatus::Rejected => user.id == member_id,
    }
}

} // verus!
