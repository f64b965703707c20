//! Shared-cohort test for secretary-level visibility.
//!
//! A secretary may look at another user's records only when the two share a
//! class group: a group of kind class that both users belong to.

use vstd::prelude::*;

use crate::ids::Oid;
use crate::models::groups::{Group, GroupType};
use crate::models::users::User;

verus! {

/// Whether an identity occurs in a list of identities.
pub fn contains_oid(ids: &Vec<Oid>, id: Oid) -> (r: bool)
    ensures
        r == ids@.contains(id),
{
    let mut i: usize = 0;
    while i < ids.len()
        invariant
            i <= ids@.len(),
            forall|j: int| 0 <= j < i ==> ids@[j] != id,
        decreases ids@.len() - i,
    {
        if ids[i] == id {
            return true;
        }
        i += 1;
    }
    false
}

/// Whether some class group in `groups` has both users as members.
pub open spec fn spec_same_class(
    user_groups: Seq<Oid>,
    target_groups: Seq<Oid>,
    groups: Seq<Group>,
) -> bool {
    exists|i: int|
        0 <= i < groups.len() && groups[i].group_type == GroupType::Class && user_groups.contains(
            groups[i]._id,
        ) && target_groups.contains(groups[i]._id)
}

/// Whether `user` and `target` share a class group, resolved against the
/// given group list.
pub fn validate_same_class(user: &User, target: &User, groups: &Vec<Group>) -> (r: bool)
    ensures
        r == spec_same_class(user.group@, target.group@, groups@),
{
    let mut i: usize = 0;
    while i < groups.len()
        invariant
            i <= groups@.len(),
            forall|j: int|
                0 <= j < i ==> !(groups@[j].group_type == GroupType::Class
                    && user.group@.contains(groups@[j]._id) && target.group@.contains(
                    groups@[j]._id,
                )),
        decreases groups@.len() - i,
    {
        let g = &groups[i];
        if matches!(g.group_type, GroupType::Class) && contains_oid(&user.group, g._id)
            && contains_oid(&target.group, g._id) {
            return true;
        }
        i += 1;
    }
    false
}

} // verus!
