//! Listing and reading activities.
//!
//! Listing is open to the department, admins and auditors. It filters by a
//! case-insensitive substring match on the name, pages the matches with a
//! 1-indexed page, and answers with the page plus the total match count.
//! Embedded member records are projected: their free-text and image fields
//! are always dropped, and the member list itself is narrowed to pending
//! records for the review queue of auditors and admins and emptied for
//! everyone else. Reading one activity is open to any authenticated user
//! and applies only the field projection. Callers supply the stored
//! activities in the order they should be listed.

use vstd::prelude::*;
use vstd::utf8::encode_utf8;

use crate::models::activities::{spec_same_except_members, Activity};
use crate::models::attendances::{ActivityMember, AttendanceStatus};
use crate::models::groups::{contains_permission, GroupPermission};
use crate::models::response::{
    create_error, ErrorResponse, MetadataSize, ResponseStatus, SuccessResponse,
};
use crate::utils::jwt::UserData;
use crate::utils::text::{contains_ci, name_matches};

verus! {

/// The query parameters of a listing request: a 1-indexed page, a page
/// size, and a name filter. A missing page reads as the first, a missing
/// size as ten, a missing filter as no filter.
#[derive(Debug, Clone, PartialEq)]
pub struct ReadActivityQuery {
    pub page: Option<u32>,
    pub perpage: Option<u32>,
    pub query: Option<String>,
}

/// The page a query asks for, 1-indexed; a missing or zero page reads as
/// the first.
pub open spec fn spec_page_of(q: ReadActivityQuery) -> u32 {
    match q.page {
        Some(p) => if p >= 1 {
            p
        } else {
            1
        },
        None => 1,
    }
}

/// The page size a query asks for; missing reads as ten.
pub open spec fn spec_perpage_of(q: ReadActivityQuery) -> u32 {
    match q.perpage {
        Some(p) => p,
        None => 10,
    }
}

/// The UTF-8 bytes of the query's name filter; missing reads as empty,
/// which matches every name.
pub open spec fn spec_query_bytes_of(q: ReadActivityQuery) -> Seq<u8> {
    match q.query {
        Some(s) => encode_utf8(s@),
        None => Seq::empty(),
    }
}

/// Whether an activity's name matches the filter bytes.
pub open spec fn spec_activity_matches(a: Activity, qb: Seq<u8>) -> bool {
    contains_ci(encode_utf8(a.name@), qb)
}

/// A member record with its free-text and image fields dropped.
pub open spec fn spec_strip_member(m: ActivityMember) -> ActivityMember {
    ActivityMember {
        _id: m._id,
        status: m.status,
        impression: None,
        duration: m.duration,
        mode: m.mode,
        history: None,
        images: None,
    }
}

/// The pending members of a list, stripped, from position `i` on.
pub open spec fn spec_pending_stripped_from(ms: Seq<ActivityMember>, i: int) -> Seq<
    ActivityMember,
>
    decreases ms.len() - i,
{
    if i < 0 || i >= ms.len() {
        Seq::empty()
    } else if ms[i].status == AttendanceStatus::Pending {
        seq![spec_strip_member(ms[i])] + spec_pending_stripped_from(ms, i + 1)
    } else {
        spec_pending_stripped_from(ms, i + 1)
    }
}

/// Whether `r` is `a` as the listing shows it: the same activity with its
/// members stripped and narrowed to pending records when `keep_pending`
/// holds and emptied otherwise; a missing member list stays missing.
pub open spec fn spec_is_projected_listed(a: Activity, keep_pending: bool, r: Activity) -> bool {
    &&& spec_same_except_members(r, a)
    &&& match a.members {
        None => r.members is None,
        Some(ms) => r.members matches Some(v) && v@ == if keep_pending {
            spec_pending_stripped_from(ms@, 0)
        } else {
            Seq::<ActivityMember>::empty()
        },
    }
}

/// The listing window, as the matched source activities: walking the
/// activities from position `i` with `c` matches already seen, every
/// further match whose running count falls in `[start, end)` contributes
/// itself.
pub open spec fn spec_listing(
    acts: Seq<Activity>,
    i: int,
    c: int,
    start: int,
    end: int,
    qb: Seq<u8>,
) -> Seq<Activity>
    decreases acts.len() - i,
{
    if i < 0 || i >= acts.len() {
        Seq::empty()
    } else if spec_activity_matches(acts[i], qb) {
        (if start <= c < end {
            seq![acts[i]]
        } else {
            Seq::empty()
        }) + spec_listing(acts, i + 1, c + 1, start, end, qb)
    } else {
        spec_listing(acts, i + 1, c, start, end, qb)
    }
}

/// How many activities from position `i` on match the filter.
pub open spec fn spec_match_count_from(acts: Seq<Activity>, i: int, qb: Seq<u8>) -> int
    decreases acts.len() - i,
{
    if i < 0 || i >= acts.len() {
        0
    } else {
        (if spec_activity_matches(acts[i], qb) {
            1int
        } else {
            0int
        }) + spec_match_count_from(acts, i + 1, qb)
    }
}

/// Drops a member record's free-text and image fields.
fn strip_member(m: &ActivityMember) -> (r: ActivityMember)
    ensures
        r == spec_strip_member(*m),
{
    ActivityMember {
        _id: m._id,
        status: m.status,
        impression: None,
        duration: m.duration,
        mode: m.mode,
        history: None,
        images: None,
    }
}

/// Projects one activity for the listing.
fn project_listed(a: &Activity, keep_pending: bool) -> (r: Activity)
    ensures
        spec_is_projected_listed(*a, keep_pending, r),
{
    let members: Option<Vec<ActivityMember>> = match &a.members {
        None => None,
        Some(ms) => {
            let mut out: Vec<ActivityMember> = Vec::new();
            if keep_pending {
                let mut i: usize = 0;
                while i < ms.len()
                    invariant
                        i <= ms@.len(),
                        spec_pending_stripped_from(ms@, 0) == out@ + spec_pending_stripped_from(
                            ms@,
                            i as int,
                        ),
                    decreases ms@.len() - i,
                {
                    if matches!(ms[i].status, AttendanceStatus::Pending) {
                        out.push(strip_member(&ms[i]));
                    }
                    i += 1;
                }
            }
            Some(out)
        },
    };
    let description = match &a.description {
        Some(s) => Some(s.clone()),
        None => None,
    };
    let location = match &a.location {
        Some(s) => Some(s.clone()),
        None => None,
    };
    Activity {
        _id: a._id,
        activity_type: a.activity_type,
        name: a.name.clone(),
        description,
        date: a.date,
        created_at: a.created_at,
        updated_at: a.updated_at,
        creator: a.creator,
        status: a.status,
        members,
        location,
        category: a.category,
    }
}

/// The listing's gate alone, for callers that want to refuse a request
/// before fetching anything: succeeds exactly for the department, admins
/// and auditors, and fails with the same forbidden error as the listing.
pub fn authorize_read_all(user: &UserData) -> (r: Result<(), ErrorResponse>)
    ensures
        r is Ok <==> (user.perms@.contains(GroupPermission::Department) || user.perms@.contains(
            GroupPermission::Admin,
        ) || user.perms@.contains(GroupPermission::Auditor)),
        r matches Err(e) ==> e.code == 403 && e.status == ResponseStatus::Error && e.message@
            == "Permission denied"@,
{
    if contains_permission(&user.perms, GroupPermission::Department) || contains_permission(
        &user.perms,
        GroupPermission::Admin,
    ) || contains_permission(&user.perms, GroupPermission::Auditor) {
        Ok(())
    } else {
        Err(create_error(403, "Permission denied".to_string()))
    }
}

/// Lists activities for the review and overview screens. Forbidden without
/// the department, admin or auditor role. On success the data is the
/// requested page of name-filtered activities in the given order, each
/// projected — pending members kept for admins and auditors, members
/// emptied for the department — and the metadata carries the total match
/// count.
pub fn read_all(user: &UserData, q: &ReadActivityQuery, activities: &Vec<Activity>) -> (r: Result<
    SuccessResponse<Vec<Activity>, MetadataSize>,
    ErrorResponse,
>)
    ensures
        !(user.perms@.contains(GroupPermission::Department) || user.perms@.contains(
            GroupPermission::Admin,
        ) || user.perms@.contains(GroupPermission::Auditor)) ==> (r matches Err(e) && e.code == 403
            && e.status == ResponseStatus::Error && e.message@ == "Permission denied"@),
        (user.perms@.contains(GroupPermission::Department) || user.perms@.contains(
            GroupPermission::Admin,
        ) || user.perms@.contains(GroupPermission::Auditor)) ==> (r matches Ok(resp) && {
            let keep = user.perms@.contains(GroupPermission::Auditor) || user.perms@.contains(
                GroupPermission::Admin,
            );
            let start = (spec_page_of(*q) - 1) * spec_perpage_of(*q);
            let window = spec_listing(
                activities@,
                0,
                0,
                start as int,
                start + spec_perpage_of(*q),
                spec_query_bytes_of(*q),
            );
            &&& resp.status == ResponseStatus::Success
            &&& resp.code == 200
            &&& resp.data@.len() == window.len()
            &&& (forall|k: int|
                0 <= k < window.len() ==> spec_is_projected_listed(
                    window[k],
                    keep,
                    resp.data@[k],
                ))
            &&& resp.metadata == Some(
                MetadataSize {
                    size: spec_match_count_from(activities@, 0, spec_query_bytes_of(*q)) as u64,
                },
            )
        }),
{
    if let Err(e) = authorize_read_all(user) {
        return Err(e);
    }
    let keep = contains_permission(&user.perms, GroupPermission::Auditor) || contains_permission(
        &user.perms,
        GroupPermission::Admin,
    );
    let page: u32 = match q.page {
        Some(p) => if p >= 1 {
            p
        } else {
            1
        },
        None => 1,
    };
    let perpage: u32 = match q.perpage {
        Some(p) => p,
        None => 10,
    };
    let empty = String::new();
    let query: &String = match &q.query {
        Some(s) => s,
        None => &empty,
    };
    proof {
        assert(page >= 1);
        assert((page as u64 - 1) * (perpage as u64) <= (u32::MAX as u64) * (u32::MAX as u64))
            by (nonlinear_arith)
            requires
                1 <= page as u64 <= u32::MAX as u64,
                perpage as u64 <= u32::MAX as u64,
        ;
    }
    let start: u64 = (page as u64 - 1) * (perpage as u64);
    let end: u64 = start + perpage as u64;
    let ghost qb = spec_query_bytes_of(*q);
    proof {
        assert(encode_utf8(Seq::<char>::empty()) =~= Seq::<u8>::empty());
    }
    let ghost win0 = spec_listing(activities@, 0, 0, start as int, end as int, qb);
    let ghost mut processed = Seq::<Activity>::empty();
    let mut out: Vec<Activity> = Vec::new();
    let mut count: u64 = 0;
    let mut i: usize = 0;
    while i < activities.len()
        invariant
            i <= activities@.len(),
            count <= i,
            encode_utf8(query@) == qb,
            win0 == spec_listing(activities@, 0, 0, start as int, end as int, qb),
            win0 == processed + spec_listing(
                activities@,
                i as int,
                count as int,
                start as int,
                end as int,
                qb,
            ),
            out@.len() == processed.len(),
            forall|k: int|
                0 <= k < processed.len() ==> spec_is_projected_listed(processed[k], keep, out@[k]),
            spec_match_count_from(activities@, 0, qb) == count + spec_match_count_from(
                activities@,
                i as int,
                qb,
            ),
        decreases activities@.len() - i,
    {
        if name_matches(activities[i].name.as_str(), query.as_str()) {
            if start <= count && count < end {
                out.push(project_listed(&activities[i], keep));
                proof {
                    processed = processed.push(activities@[i as int]);
                }
            }
            count += 1;
        }
        i += 1;
    }
    Ok(
        SuccessResponse {
            status: ResponseStatus::Success,
            code: 200,
            data: out,
            metadata: Some(MetadataSize { size: count }),
        },
    )
}

/// The members of a list, stripped of free-text and image fields, from
/// position `i` on.
pub open spec fn spec_stripped_from(ms: Seq<ActivityMember>, i: int) -> Seq<ActivityMember>
    decreases ms.len() - i,
{
    if i < 0 || i >= ms.len() {
        Seq::empty()
    } else {
        seq![spec_strip_member(ms[i])] + spec_stripped_from(ms, i + 1)
    }
}

/// Whether `r` is `a` as a single read shows it: every member kept,
/// stripped of free-text and image fields.
pub open spec fn spec_is_projected_one(a: Activity, r: Activity) -> bool {
    &&& spec_same_except_members(r, a)
    &&& match a.members {
        None => r.members is None,
        Some(ms) => r.members matches Some(v) && v@ == spec_stripped_from(ms@, 0),
    }
}

/// Reads one activity: not-found when the store had no record, otherwise
/// the record with its members stripped of free-text and image fields.
pub fn read_one(activity: Option<Activity>) -> (r: Result<Activity, ErrorResponse>)
    ensures
        activity is None ==> (r matches Err(e) && e.code == 404 && e.status
            == ResponseStatus::Error && e.message@ == "Activity not found"@),
        activity matches Some(a) ==> (r matches Ok(p) && spec_is_projected_one(a, p)),
{
    let a = match activity {
        Some(a) => a,
        None => {
            return Err(create_error(404, "Activity not found".to_string()));
        },
    };
    let members: Option<Vec<ActivityMember>> = match &a.members {
        None => None,
        Some(ms) => {
            let mut out: Vec<ActivityMember> = Vec::new();
            let mut i: usize = 0;
            while i < ms.len()
                invariant
                    i <= ms@.len(),
                    spec_stripped_from(ms@, 0) == out@ + spec_stripped_from(ms@, i as int),
                decreases ms@.len() - i,
            {
                out.push(strip_member(&ms[i]));
                i += 1;
            }
            Some(out)
        },
    };
    let mut projected = a;
    projected.members = members;
    Ok(projected)
}

} // verus!
