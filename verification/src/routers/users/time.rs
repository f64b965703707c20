//! Per-user accumulated participation time.
//!
//! For one user, the durations of the user's participation records are
//! summed per participation mode over all activities, and folded into four
//! numbers: on-campus, off-campus, social-practice, and their total. A user
//! with no records yields all zeros. Records are matched by identity in
//! either stored form.

use vstd::prelude::*;

use crate::ids::Oid;
use crate::models::activities::{spec_members_of, Activity};
use crate::models::attendances::{ActivityMember, AttendanceMode};

verus! {

/// The per-user accumulated time, split by mode.
#[derive(Debug, Clone, Copy, PartialEq, Eq, Structural, Hash)]
pub struct UserActivityTime {
    pub on_campus: u64,
    pub off_campus: u64,
    pub social_practice: u64,
    pub total: u64,
}

/// What one record contributes to a user's sum for one mode: its duration
/// when it is the user's record in that mode, nothing otherwise.
pub open spec fn spec_member_amount(m: ActivityMember, uid: Oid, mode: AttendanceMode) -> int {
    if m._id.spec_oid() == uid && m.mode == mode {
        m.duration as int
    } else {
        0
    }
}

/// The user's sum for one mode over the members from position `i` on.
pub open spec fn spec_members_sum_from(
    ms: Seq<ActivityMember>,
    i: int,
    uid: Oid,
    mode: AttendanceMode,
) -> int
    decreases ms.len() - i,
{
    if i < 0 || i >= ms.len() {
        0
    } else {
        spec_member_amount(ms[i], uid, mode) + spec_members_sum_from(ms, i + 1, uid, mode)
    }
}

/// The user's sum for one mode over the activities from position `i` on.
pub open spec fn spec_acts_sum_from(
    acts: Seq<Activity>,
    i: int,
    uid: Oid,
    mode: AttendanceMode,
) -> int
    decreases acts.len() - i,
{
    if i < 0 || i >= acts.len() {
        0
    } else {
        spec_members_sum_from(spec_members_of(acts[i]), 0, uid, mode) + spec_acts_sum_from(
            acts,
            i + 1,
            uid,
            mode,
        )
    }
}

/// The user's total for one mode over all activities.
pub open spec fn spec_mode_total(acts: Seq<Activity>, uid: Oid, mode: AttendanceMode) -> int {
    spec_acts_sum_from(acts, 0, uid, mode)
}

/// Member sums are never negative.
pub proof fn lemma_members_sum_nonneg(
    ms: Seq<ActivityMember>,
    i: int,
    uid: Oid,
    mode: AttendanceMode,
)
    ensures
        spec_members_sum_from(ms, i, uid, mode) >= 0,
    decreases ms.len() - i,
{
    if 0 <= i < ms.len() {
        lemma_members_sum_nonneg(ms, i + 1, uid, mode);
    }
}

/// Activity sums are never negative.
pub proof fn lemma_acts_sum_nonneg(acts: Seq<Activity>, i: int, uid: Oid, mode: AttendanceMode)
    ensures
        spec_acts_sum_from(acts, i, uid, mode) >= 0,
    decreases acts.len() - i,
{
    if 0 <= i < acts.len() {
        lemma_members_sum_nonneg(spec_members_of(acts[i]), 0, uid, mode);
        lemma_acts_sum_nonneg(acts, i + 1, uid, mode);
    }
}

/// A user who appears in no member list sums to zero in every mode.
pub proof fn lemma_absent_user_sums_zero(acts: Seq<Activity>, uid: Oid, mode: AttendanceMode)
    requires
        forall|i: int, j: int|
            0 <= i < acts.len() && 0 <= j < spec_members_of(acts[i]).len()
                ==> spec_members_of(acts[i])[j]._id.spec_oid() != uid,
    ensures
        spec_mode_total(acts, uid, mode) == 0,
{
    lemma_absent_acts_from(acts, 0, uid, mode);
}

proof fn lemma_absent_members_from(
    ms: Seq<ActivityMember>,
    i: int,
    uid: Oid,
    mode: AttendanceMode,
)
    requires
        forall|j: int| 0 <= j < ms.len() ==> ms[j]._id.spec_oid() != uid,
    ensures
        spec_members_sum_from(ms, i, uid, mode) == 0,
    decreases ms.len() - i,
{
    if 0 <= i < ms.len() {
        lemma_absent_members_from(ms, i + 1, uid, mode);
    }
}

proof fn lemma_absent_acts_from(acts: Seq<Activity>, i: int, uid: Oid, mode: AttendanceMode)
    requires
        forall|k: int, j: int|
            0 <= k < acts.len() && 0 <= j < spec_members_of(acts[k]).len()
                ==> spec_members_of(acts[k])[j]._id.spec_oid() != uid,
    ensures
        spec_acts_sum_from(acts, i, uid, mode) == 0,
    decreases acts.len() - i,
{
    if 0 <= i < acts.len() {
        lemma_absent_members_from(spec_members_of(acts[i]), 0, uid, mode);
        lemma_absent_acts_from(acts, i + 1, uid, mode);
    }
}

/// Sums the user's participation time per mode over all activities.
/// Succeeds with the three per-mode sums and their grand total exactly
/// when the grand total fits the result type; a user with no records
/// yields all zeros.
pub fn calculate_user_activity_time(user_id: Oid, activities: &Vec<Activity>) -> (r: Option<
    UserActivityTime,
>)
    ensures
        r matches Some(t) ==> {
            &&& t.on_campus == spec_mode_total(activities@, user_id, AttendanceMode::OnCampus)
            &&& t.off_campus == spec_mode_total(activities@, user_id, AttendanceMode::OffCampus)
            &&& t.social_practice == spec_mode_total(
                activities@,
                user_id,
                AttendanceMode::SocialPractice,
            )
            &&& t.total == spec_mode_total(activities@, user_id, AttendanceMode::OnCampus)
                + spec_mode_total(activities@, user_id, AttendanceMode::OffCampus)
                + spec_mode_total(activities@, user_id, AttendanceMode::SocialPractice)
        },
        r is Some <==> spec_mode_total(activities@, user_id, AttendanceMode::OnCampus)
            + spec_mode_total(activities@, user_id, AttendanceMode::OffCampus) + spec_mode_total(
            activities@,
            user_id,
            AttendanceMode::SocialPractice,
        ) <= u64::MAX,
{
    let ghost acts = activities@;
    let ghost t_on = spec_mode_total(acts, user_id, AttendanceMode::OnCampus);
    let ghost t_off = spec_mode_total(acts, user_id, AttendanceMode::OffCampus);
    let ghost t_soc = spec_mode_total(acts, user_id, AttendanceMode::SocialPractice);
    let mut on: u64 = 0;
    let mut off: u64 = 0;
    let mut soc: u64 = 0;
    let mut i: usize = 0;
    while i < activities.len()
        invariant
            i <= acts.len(),
            acts == activities@,
            t_on == spec_mode_total(acts, user_id, AttendanceMode::OnCampus),
            t_off == spec_mode_total(acts, user_id, AttendanceMode::OffCampus),
            t_soc == spec_mode_total(acts, user_id, AttendanceMode::SocialPractice),
            on == t_on - spec_acts_sum_from(acts, i as int, user_id, AttendanceMode::OnCampus),
            off == t_off - spec_acts_sum_from(acts, i as int, user_id, AttendanceMode::OffCampus),
            soc == t_soc - spec_acts_sum_from(
                acts,
                i as int,
                user_id,
                AttendanceMode::SocialPractice,
            ),
        decreases acts.len() - i,
    {
        match &activities[i].members {
            None => {
                assert(spec_members_of(acts[i as int]) =~= Seq::<ActivityMember>::empty());
            },
            Some(ms) => {
                let ghost msv = ms@;
                proof {
                    assert(spec_members_of(acts[i as int]) == msv);
                }
                let mut j: usize = 0;
                while j < ms.len()
                    invariant
                        j <= msv.len(),
                        msv == ms@,
                        spec_members_of(acts[i as int]) == msv,
                        i < acts.len(),
                        acts == activities@,
                        t_on == spec_mode_total(acts, user_id, AttendanceMode::OnCampus),
                        t_off == spec_mode_total(acts, user_id, AttendanceMode::OffCampus),
                        t_soc == spec_mode_total(acts, user_id, AttendanceMode::SocialPractice),
                        on == t_on - spec_acts_sum_from(
                            acts,
                            i as int,
                            user_id,
                            AttendanceMode::OnCampus,
                        ) + spec_members_sum_from(msv, 0, user_id, AttendanceMode::OnCampus)
                            - spec_members_sum_from(msv, j as int, user_id, AttendanceMode::OnCampus),
                        off == t_off - spec_acts_sum_from(
                            acts,
                            i as int,
                            user_id,
                            AttendanceMode::OffCampus,
                        ) + spec_members_sum_from(msv, 0, user_id, AttendanceMode::OffCampus)
                            - spec_members_sum_from(
                            msv,
                            j as int,
                            user_id,
                            AttendanceMode::OffCampus,
                        ),
                        soc == t_soc - spec_acts_sum_from(
                            acts,
                            i as int,
                            user_id,
                            AttendanceMode::SocialPractice,
                        ) + spec_members_sum_from(msv, 0, user_id, AttendanceMode::SocialPractice)
                            - spec_members_sum_from(
                            msv,
                            j as int,
                            user_id,
                            AttendanceMode::SocialPractice,
                        ),
                    decreases msv.len() - j,
                {
                    let m = &ms[j];
                    if m._id.matches(user_id) {
                        let d = m.duration;
                        proof {
                            lemma_members_sum_nonneg(msv, j + 1, user_id, AttendanceMode::OnCampus);
                            lemma_members_sum_nonneg(
                                msv,
                                j + 1,
                                user_id,
                                AttendanceMode::OffCampus,
                            );
                            lemma_members_sum_nonneg(
                                msv,
                                j + 1,
                                user_id,
                                AttendanceMode::SocialPractice,
                            );
                            lemma_acts_sum_nonneg(
                                acts,
                                i + 1 as int,
                                user_id,
                                AttendanceMode::OnCampus,
                            );
                            lemma_acts_sum_nonneg(
                                acts,
                                i + 1 as int,
                                user_id,
                                AttendanceMode::OffCampus,
                            );
                            lemma_acts_sum_nonneg(
                                acts,
                                i + 1 as int,
                                user_id,
                                AttendanceMode::SocialPractice,
                            );
                            lemma_acts_sum_nonneg(acts, 0, user_id, AttendanceMode::OnCampus);
                            lemma_acts_sum_nonneg(acts, 0, user_id, AttendanceMode::OffCampus);
                            lemma_acts_sum_nonneg(acts, 0, user_id, AttendanceMode::SocialPractice);
                        }
                        match m.mode {
                            AttendanceMode::OnCampus => {
                                on = match on.checked_add(d) {
                                    Some(v) => v,
                                    None => {
                                        return None;
                                    },
                                };
                            },
                            AttendanceMode::OffCampus => {
                                off = match off.checked_add(d) {
                                    Some(v) => v,
                                    None => {
                                        return None;
                                    },
                                };
                            },
                            AttendanceMode::SocialPractice => {
                                soc = match soc.checked_add(d) {
                                    Some(v) => v,
                                    None => {
                                        return None;
                                    },
                                };
                            },
                        }
                    }
                    j += 1;
                }
            },
        }
        i += 1;
    }
    proof {
        lemma_acts_sum_nonneg(acts, acts.len() as int, user_id, AttendanceMode::OnCampus);
    }
    let total = match on.checked_add(off) {
        Some(v) => match v.checked_add(soc) {
            Some(w) => w,
            None => {
                return None;
            },
        },
        None => {
            return None;
        },
    };
    Some(UserActivityTime { on_campus: on, off_campus: off, social_practice: soc, total })
}

} // verus!
