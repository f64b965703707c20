//! Users and their credentials.
//!
//! A user's effective permission set is the union — in list order, kept as
//! a concatenation — of the permissions of every group the user belongs to.
//! The stored password hash never leaves the type.

use vstd::prelude::*;

use crate::ids::Oid;
use crate::models::groups::{spec_find_group, Group, GroupPermission};
use crate::models::groups::find_group;
use crate::utils::jwt::{
    generate_token, jwt_claims_of, spec_codes_of, spec_term_secs, TokenType,
};
use crate::utils::verify::{bcrypt_accepts, hash_password, verify_password};

verus! {

/// A user's registered sex.
#[derive(Debug, Clone, Copy, PartialEq, Eq, Structural, Hash)]
pub enum UserSex {
    Male,
    Female,
    Unknown,
}

/// A registered user. `group` lists the identities of the groups the user
/// belongs to; `password` holds the bcrypt hash of the password and must
/// never be serialized outward.
#[derive(Debug, Clone, PartialEq)]
pub struct User {
    pub _id: Oid,
    pub id: String,
    pub name: String,
    pub group: Vec<Oid>,
    pub password: String,
}

/// Whether every group a user belongs to is present in the group list.
pub open spec fn spec_all_groups_found(user_groups: Seq<Oid>, groups: Seq<Group>) -> bool {
    forall|i: int| 0 <= i < user_groups.len() ==> spec_find_group(groups, user_groups[i]) is Some
}

/// The permissions collected over a user's groups, in list order; a group
/// that is missing from the list contributes nothing.
pub open spec fn spec_perms_union(user_groups: Seq<Oid>, groups: Seq<Group>) -> Seq<
    GroupPermission,
>
    decreases user_groups.len(),
{
    if user_groups.len() == 0 {
        Seq::empty()
    } else {
        spec_perms_union(user_groups.drop_last(), groups) + match spec_find_group(
            groups,
            user_groups.last(),
        ) {
            Some(g) => g.permissions@,
            None => Seq::empty(),
        }
    }
}

impl User {
    /// Whether `password` is the user's password, by the bcrypt check
    /// against the stored hash.
    pub fn valid_password(self, password: String) -> (r: bool)
        ensures
            r == bcrypt_accepts(password@, self.password@),
    {
        verify_password(password.as_str(), self.password.as_str())
    }

    /// Replaces the stored hash with a hash of `password`. When hashing
    /// fails the stored hash is left as it was; everything else is
    /// unchanged either way.
    pub fn set_password(&mut self, password: String)
        ensures
            final(self)._id == old(self)._id,
            final(self).id == old(self).id,
            final(self).name == old(self).name,
            final(self).group == old(self).group,
            final(self).password == old(self).password || bcrypt_accepts(
                password@,
                final(self).password@,
            ),
    {
        let hashed = hash_password(password.as_str());
        if !hashed.as_str().is_empty() {
            self.password = hashed;
        }
    }

    /// Issues a token for this user: the permission set is the union of the
    /// permissions of the user's groups, looked up in `groups`. Fails
    /// exactly when one of the user's groups is missing from the list.
    pub fn generate_token(
        &self,
        groups: &Vec<Group>,
        term: TokenType,
        now: u64,
        secret: &String,
    ) -> (r: Result<String, String>)
        requires
            now + spec_term_secs(term) <= u64::MAX,
        ensures
            r is Ok <==> spec_all_groups_found(self.group@, groups@),
            r matches Ok(tok) ==> jwt_claims_of(secret@, tok@) == Some(
                (
                    self._id.hi,
                    self._id.lo,
                    (now + spec_term_secs(term)) as u64,
                    now,
                    term == TokenType::LongTerm,
                    spec_codes_of(spec_perms_union(self.group@, groups@)),
                ),
            ),
            r matches Err(e) ==> e@ == "Group not found"@,
            r matches Ok(tok) ==> forall|i: int| 0 <= i < tok@.len() ==> tok@[i] != ' ',
    {
        let mut perms: Vec<GroupPermission> = Vec::new();
        let mut i: usize = 0;
        while i < self.group.len()
            invariant
                i <= self.group@.len(),
                forall|j: int|
                    0 <= j < i ==> spec_find_group(groups@, self.group@[j]) is Some,
                perms@ == spec_perms_union(self.group@.subrange(0, i as int), groups@),
            decreases self.group@.len() - i,
        {
            let gid = self.group[i];
            match find_group(groups, gid) {
                Some(g) => {
                    let mut adds = g.permissions.clone();
                    perms.append(&mut adds);
                },
                None => {
                    return Err("Group not found".to_string());
                },
            }
            proof {
                let pre = self.group@.subrange(0, i as int);
                let cur = self.group@.subrange(0, i + 1 as int);
                assert(cur.drop_last() =~= pre);
                assert(cur.last() == self.group@[i as int]);
            }
            i += 1;
        }
        proof {
            assert(self.group@.subrange(0, self.group@.len() as int) =~= self.group@);
        }
        Ok(generate_token(self._id, term, &perms, now, secret))
    }
}

} // verus!
