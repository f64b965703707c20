//! Identity values.
//!
//! The document store names every user and activity by a 12-byte object
//! identity. The library holds such an identity as two integers (the first
//! eight bytes and the last four), which keeps equality a plain structural
//! comparison. Stored member identities additionally remember whether the
//! record held the identity in its typed form or as its text form, since
//! historical records carry both; matching tolerates either.

use vstd::prelude::*;

verus! {

/// A 12-byte object identity, packed as two integers.
#[derive(Debug, Clone, Copy, PartialEq, Eq, Structural, Hash)]
pub struct Oid {
    /// The first eight bytes of the identity.
    pub hi: u64,
    /// The last four bytes of the identity.
    pub lo: u64,
}

/// A task identity for export jobs: an opaque 128-bit value.
#[derive(Debug, Clone, Copy, PartialEq, Eq, Structural, Hash)]
pub struct TaskId {
    pub hi: u64,
    pub lo: u64,
}

/// How a member record stores the participant's identity: either in the
/// typed form or as its text rendering. Both stand for the same identity,
/// and every rule matches them interchangeably.
#[derive(Debug, Clone, Copy, PartialEq, Eq, Structural, Hash)]
pub enum StoredId {
    Typed(Oid),
    Text(Oid),
}

impl StoredId {
    /// The identity a stored form stands for, whichever form it has.
    pub open spec fn spec_oid(self) -> Oid {
        match self {
            StoredId::Typed(o) => o,
            StoredId::Text(o) => o,
        }
    }

    /// Extracts the identity, ignoring the stored form.
    pub fn oid(self) -> (r: Oid)
        ensures
            r == self.spec_oid(),
    {
        match self {
            StoredId::Typed(o) => o,
            StoredId::Text(o) => o,
        }
    }

    /// Whether this stored identity stands for `target`, in either form.
    pub fn matches(self, target: Oid) -> (r: bool)
        ensures
            r == (self.spec_oid() == target),
    {
        self.oid() == target
    }
}

} // verus!
