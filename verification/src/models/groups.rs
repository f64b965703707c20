//! Groups and the permission vocabulary.
//!
//! Authorization is a flat design: a fixed set of seven role tags, with each
//! rule naming the roles it accepts. There is no hierarchy. A user's
//! effective permission set is the union of the permissions of every group
//! the user belongs to.

use vstd::prelude::*;

use crate::ids::Oid;

verus! {

/// The seven fixed role tags.
#[derive(Debug, Clone, Copy, PartialEq, Eq, Structural, Hash)]
pub enum GroupPermission {
    Student,
    Secretary,
    Department,
    Auditor,
    Inspector,
    Admin,
    System,
}

/// What kind of group a group is. Class groups tie users into cohorts;
/// secretary-level visibility asks whether two users share one.
#[derive(Debug, Clone, Copy, PartialEq, Eq, Structural, Hash)]
pub enum GroupType {
    Class,
    Permission,
    Group,
}

/// A named group carrying a permission set and a kind.
#[derive(Debug, Clone, PartialEq)]
pub struct Group {
    pub _id: Oid,
    pub name: String,
    pub description: Option<String>,
    pub permissions: Vec<GroupPermission>,
    pub group_type: GroupType,
}

/// The first group at or after position `i` whose identity is `id`.
pub open spec fn spec_find_group_from(groups: Seq<Group>, i: int, id: Oid) -> Option<Group>
    decreases groups.len() - i,
{
    if i < 0 || i >= groups.len() {
        None
    } else if groups[i]._id == id {
        Some(groups[i])
    } else {
        spec_find_group_from(groups, i + 1, id)
    }
}

/// The first group in the list whose identity is `id`.
pub open spec fn spec_find_group(groups: Seq<Group>, id: Oid) -> Option<Group> {
    spec_find_group_from(groups, 0, id)
}

/// Looks a group up by its identity.
pub fn find_group<'a>(groups: &'a Vec<Group>, id: Oid) -> (r: Option<&'a Group>)
    ensures
        match r {
            Some(g) => spec_find_group(groups@, id) == Some(*g),
            None => spec_find_group(groups@, id) is None,
        },
{
    let mut i: usize = 0;
    while i < groups.len()
        invariant
            i <= groups@.len(),
            spec_find_group(groups@, id) == spec_find_group_from(groups@, i as int, id),
        decreases groups@.len() - i,
    {
        if groups[i]._id == id {
            return Some(&groups[i]);
        }
        i += 1;
    }
    None
}

/// Whether a permission set carries the role `p`.
pub fn contains_permission(perms: &Vec<GroupPermission>, p: GroupPermission) -> (r: bool)
    ensures
        r == perms@.contains(p),
{
    let mut i: usize = 0;
    while i < perms.len()
        invariant
            i <= perms@.len(),
            forall|j: int| 0 <= j < i ==> perms@[j] != p,
        decreases perms@.len() - i,
    {
        if perms[i] == p {
            return true;
        }
        i += 1;
    }
    false
}

} // verus!
