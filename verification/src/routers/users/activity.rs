//! A user's own activity listing.
//!
//! Privileged roles — admin, auditor, department — may list any user's
//! activities; a secretary may list a user's activities only when the two
//! share a class group; anyone else may list only their own. The listing
//! keeps the activities in which the user holds a participation record and
//! whose name matches the filter, narrows each member list to the user's
//! own records, and pages the matches as the overview listing does.

use vstd::prelude::*;
use vstd::utf8::encode_utf8;

use crate::ids::Oid;
use crate::models::activities::{spec_members_of, spec_same_except_members, Activity};
use crate::models::attendances::ActivityMember;
use crate::models::groups::{contains_permission, GroupPermission};
use crate::models::response::{
    create_error, ErrorResponse, MetadataSize, ResponseStatus, SuccessResponse,
};
use crate::routers::activities::read::ReadActivityQuery;
use crate::utils::jwt::UserData;
use crate::utils::text::{contains_ci, name_matches};

verus! {

/// The user's own records among a member list, from position `i` on.
pub open spec fn spec_user_members_from(ms: Seq<ActivityMember>, i: int, uid: Oid) -> Seq<
    ActivityMember,
>
    decreases ms.len() - i,
{
    if i < 0 || i >= ms.len() {
        Seq::empty()
    } else if ms[i]._id.spec_oid() == uid {
        seq![ms[i]] + spec_user_members_from(ms, i + 1, uid)
    } else {
        spec_user_members_from(ms, i + 1, uid)
    }
}

/// Whether the listing keeps an activity: its name matches the filter and
/// the user holds a record on it.
pub open spec fn spec_user_match(a: Activity, uid: Oid, qb: Seq<u8>) -> bool {
    &&& contains_ci(encode_utf8(a.name@), qb)
    &&& spec_user_members_from(spec_members_of(a), 0, uid).len() > 0
}

/// Whether `r` is `a` narrowed to the user's own records.
pub open spec fn spec_is_user_projected(a: Activity, uid: Oid, r: Activity) -> bool {
    &&& spec_same_except_members(r, a)
    &&& (r.members matches Some(v) && v@ == spec_user_members_from(spec_members_of(a), 0, uid))
}

/// The window of kept source activities: walking from position `i` with
/// `c` matches seen, every further match whose running count falls in
/// `[start, end)` contributes itself.
pub open spec fn spec_user_listing(
    acts: Seq<Activity>,
    i: int,
    c: int,
    start: int,
    end: int,
    uid: Oid,
    qb: Seq<u8>,
) -> Seq<Activity>
    decreases acts.len() - i,
{
    if i < 0 || i >= acts.len() {
        Seq::empty()
    } else if spec_user_match(acts[i], uid, qb) {
        (if start <= c < end {
            seq![acts[i]]
        } else {
            Seq::empty()
        }) + spec_user_listing(acts, i + 1, c + 1, start, end, uid, qb)
    } else {
        spec_user_listing(acts, i + 1, c, start, end, uid, qb)
    }
}

/// How many activities from position `i` on the listing keeps.
pub open spec fn spec_user_count_from(acts: Seq<Activity>, i: int, uid: Oid, qb: Seq<u8>) -> int
    decreases acts.len() - i,
{
    if i < 0 || i >= acts.len() {
        0
    } else {
        (if spec_user_match(acts[i], uid, qb) {
            1int
        } else {
            0int
        }) + spec_user_count_from(acts, i + 1, uid, qb)
    }
}

/// Whether the requester may list `user_id`'s activities.
pub open spec fn spec_can_list_user(
    perms: Seq<GroupPermission>,
    requester: Oid,
    user_id: Oid,
    same_class: Option<bool>,
) -> bool {
    if perms.contains(GroupPermission::Admin) || perms.contains(GroupPermission::Auditor)
        || perms.contains(GroupPermission::Department) {
        true
    } else if perms.contains(GroupPermission::Secretary) {
        same_class == Some(true)
    } else {
        requester == user_id
    }
}

/// Whether the requester may list `user_id`'s activities.
pub fn can_list_user(user: &UserData, user_id: Oid, same_class: Option<bool>) -> (r: bool)
    ensures
        r == spec_can_list_user(user.perms@, user.id, user_id, same_class),
{
    if contains_permission(&user.perms, GroupPermission::Admin) || contains_permission(
        &user.perms,
        GroupPermission::Auditor,
    ) || contains_permission(&user.perms, GroupPermission::Department) {
        true
    } else if contains_permission(&user.perms, GroupPermission::Secretary) {
        matches!(same_class, Some(true))
    } else {
        user.id == user_id
    }
}

/// The listing's gate alone, for callers that want to refuse a request
/// before fetching the store: succeeds exactly when the requester may
/// list `user_id`'s activities, and fails with the same forbidden error
/// as the listing.
pub fn authorize_read_user_activities(
    user: &UserData,
    user_id: Oid,
    same_class: Option<bool>,
) -> (r: Result<(), ErrorResponse>)
    ensures
        r is Ok <==> spec_can_list_user(user.perms@, user.id, user_id, same_class),
        r matches Err(e) ==> e.code == 403 && e.status == ResponseStatus::Error && e.message@
            == "Permission denied"@,
{
    if can_list_user(user, user_id, same_class) {
        Ok(())
    } else {
        Err(create_error(403, "Permission denied".to_string()))
    }
}

/// Lists the activities a user participates in. `same_class` is the
/// outcome of the cohort lookup for the requester and the listed user, and
/// is consulted only for a secretary. On success the data is the requested
/// page of kept activities, each narrowed to the user's own records, and
/// the metadata carries the total count of kept activities.
pub fn read_user_activities(
    user: &UserData,
    user_id: Oid,
    same_class: Option<bool>,
    q: &ReadActivityQuery,
    activities: Vec<Activity>,
) -> (r: Result<SuccessResponse<Vec<Activity>, MetadataSize>, ErrorResponse>)
    ensures
        !spec_can_list_user(user.perms@, user.id, user_id, same_class) ==> (r matches Err(e)
            && e.code == 403 && e.status == ResponseStatus::Error && e.message@
            == "Permission denied"@),
        spec_can_list_user(user.perms@, user.id, user_id, same_class) ==> (r matches Ok(resp)
            && {
            let start = (crate::routers::activities::read::spec_page_of(*q) - 1)
                * crate::routers::activities::read::spec_perpage_of(*q);
            let window = spec_user_listing(
                activities@,
                0,
                0,
                start as int,
                start + crate::routers::activities::read::spec_perpage_of(*q),
                user_id,
                crate::routers::activities::read::spec_query_bytes_of(*q),
            );
            &&& resp.status == ResponseStatus::Success
            &&& resp.code == 200
            &&& resp.data@.len() == window.len()
            &&& (forall|k: int|
                0 <= k < window.len() ==> spec_is_user_projected(window[k], user_id, resp.data@[k]))
            &&& resp.metadata == Some(
                MetadataSize {
                    size: spec_user_count_from(
                        activities@,
                        0,
                        user_id,
                        crate::routers::activities::read::spec_query_bytes_of(*q),
                    ) as u64,
                },
            )
        }),
{
    if !can_list_user(user, user_id, same_class) {
        return Err(create_error(403, "Permission denied".to_string()));
    }
    let page: u32 = match q.page {
        Some(p) => if p >= 1 {
            p
        } else {
            1
        },
        None => 1,
    };
    let perpage: u32 = match q.perpage {
        Some(p) => p,
        None => 10,
    };
    let empty = String::new();
    let query: &String = match &q.query {
        Some(s) => s,
        None => &empty,
    };
    proof {
        assert(page >= 1);
        assert((page as u64 - 1) * (perpage as u64) <= (u32::MAX as u64) * (u32::MAX as u64))
            by (nonlinear_arith)
            requires
                1 <= page as u64 <= u32::MAX as u64,
                perpage as u64 <= u32::MAX as u64,
        ;
    }
    let start: u64 = (page as u64 - 1) * (perpage as u64);
    let end: u64 = start + perpage as u64;
    let ghost acts0 = activities@;
    let ghost qb = crate::routers::activities::read::spec_query_bytes_of(*q);
    proof {
        assert(encode_utf8(Seq::<char>::empty()) =~= Seq::<u8>::empty());
    }
    let ghost win0 = spec_user_listing(acts0, 0, 0, start as int, end as int, user_id, qb);
    let ghost mut processed = Seq::<Activity>::empty();
    let n = activities.len();
    let mut src = activities;
    let mut out: Vec<Activity> = Vec::new();
    let mut count: u64 = 0;
    let mut i: usize = 0;
    while i < n
        invariant
            i <= n,
            n == acts0.len(),
            count <= i,
            src@ =~= acts0.subrange(i as int, n as int),
            encode_utf8(query@) == qb,
            win0 == spec_user_listing(acts0, 0, 0, start as int, end as int, user_id, qb),
            win0 == processed + spec_user_listing(
                acts0,
                i as int,
                count as int,
                start as int,
                end as int,
                user_id,
                qb,
            ),
            out@.len() == processed.len(),
            forall|k: int|
                0 <= k < processed.len() ==> spec_is_user_projected(processed[k], user_id, out@[k]),
            spec_user_count_from(acts0, 0, user_id, qb) == count + spec_user_count_from(
                acts0,
                i as int,
                user_id,
                qb,
            ),
        decreases n - i,
    {
        let a = src.remove(0);
        assert(a == acts0[i as int]);
        let matches_name = name_matches(a.name.as_str(), query.as_str());
        let ghost ms0 = spec_members_of(a);
        let members: Vec<ActivityMember> = match a.members {
            Some(v) => v,
            None => Vec::new(),
        };
        assert(members@ =~= ms0);
        let total_m = members.len();
        let mut kept: Vec<ActivityMember> = Vec::new();
        let mut msrc = members;
        let mut j: usize = 0;
        while j < total_m
            invariant
                j <= total_m,
                total_m == ms0.len(),
                msrc@ =~= ms0.subrange(j as int, total_m as int),
                spec_user_members_from(ms0, 0, user_id) == kept@ + spec_user_members_from(
                    ms0,
                    j as int,
                    user_id,
                ),
            decreases total_m - j,
        {
            let m = msrc.remove(0);
            assert(m == ms0[j as int]);
            if m._id.matches(user_id) {
                kept.push(m);
            }
            j += 1;
        }
        if matches_name && kept.len() > 0 {
            assert(spec_user_match(acts0[i as int], user_id, qb));
            if start <= count && count < end {
                let projected = Activity {
                    members: Some(kept),
                    _id: a._id,
                    activity_type: a.activity_type,
                    name: a.name,
                    description: a.description,
                    date: a.date,
                    created_at: a.created_at,
                    updated_at: a.updated_at,
                    creator: a.creator,
                    status: a.status,
                    location: a.location,
                    category: a.category,
                };
                assert(spec_is_user_projected(acts0[i as int], user_id, projected));
                out.push(projected);
                proof {
                    processed = processed.push(acts0[i as int]);
                }
            }
            count += 1;
        } else {
            assert(!spec_user_match(acts0[i as int], user_id, qb));
        }
        i += 1;
    }
    Ok(
        SuccessResponse {
            status: ResponseStatus::Success,
            code: 200,
            data: out,
            metadata: Some(MetadataSize { size: count }),
        },
    )
}

} // verus!
