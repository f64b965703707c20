//! Case-insensitive substring matching over UTF-8 bytes.
//!
//! The listing endpoints filter activities by a case-insensitive substring
//! match on the name. Folding is ASCII-only: the byte values of `A` to `Z`
//! are mapped to their lowercase forms and every other byte, including the
//! bytes of multi-byte characters, is compared as it stands.

use vstd::prelude::*;
use vstd::string::StrSliceExecFns;
use vstd::string::StringSliceAdditionalSpecFns;

verus! {

/// ASCII lowercase folding of one byte.
pub open spec fn lower_byte(b: u8) -> u8 {
    if 65 <= b && b <= 90 {
        (b + 32) as u8
    } else {
        b
    }
}

/// Whether `needle` occurs in `hay` at position `i`, comparing bytes under
/// ASCII folding.
pub open spec fn matches_at(hay: Seq<u8>, needle: Seq<u8>, i: int) -> bool {
    &&& 0 <= i
    &&& i + needle.len() <= hay.len()
    &&& forall|j: int|
        0 <= j < needle.len() ==> lower_byte(hay[i + j]) == lower_byte(needle[j])
}

/// Whether `needle` occurs anywhere in `hay`, comparing bytes under ASCII
/// folding. An empty needle occurs in every haystack.
pub open spec fn contains_ci(hay: Seq<u8>, needle: Seq<u8>) -> bool {
    exists|i: int| matches_at(hay, needle, i)
}

/// ASCII lowercase folding of one byte.
pub fn lower_u8(b: u8) -> (r: u8)
    ensures
        r == lower_byte(b),
{
    if 65 <= b && b <= 90 {
        b + 32
    } else {
        b
    }
}

/// Whether `needle` occurs in `hay` starting at `i`, under ASCII folding.
fn matches_at_exec(hay: &Vec<u8>, needle: &Vec<u8>, i: usize) -> (r: bool)
    requires
        i + needle@.len() <= hay@.len(),
    ensures
        r == matches_at(hay@, needle@, i as int),
{
    let n = hay.len();
    let mut j: usize = 0;
    while j < needle.len()
        invariant
            n == hay@.len(),
            i + needle@.len() <= hay@.len(),
            j <= needle@.len(),
            forall|k: int| 0 <= k < j ==> lower_byte(hay@[i + k]) == lower_byte(needle@[k]),
        decreases needle@.len() - j,
    {
        if lower_u8(hay[i + j]) != lower_u8(needle[j]) {
            return false;
        }
        j += 1;
    }
    true
}

/// Whether `needle` occurs anywhere in `hay`, under ASCII folding.
pub fn contains_bytes_ci(hay: &Vec<u8>, needle: &Vec<u8>) -> (r: bool)
    ensures
        r == contains_ci(hay@, needle@),
{
    if needle.len() > hay.len() {
        assert(forall|i: int| !matches_at(hay@, needle@, i));
        return false;
    }
    if needle.len() == 0 {
        assert(matches_at(hay@, needle@, 0));
        return true;
    }
    let last: usize = hay.len() - needle.len();
    let mut i: usize = 0;
    while i <= last
        invariant
            1 <= needle@.len() <= hay@.len(),
            last == hay@.len() - needle@.len(),
            last < usize::MAX,
            i <= last + 1,
            forall|k: int| 0 <= k < i ==> !matches_at(hay@, needle@, k),
        decreases last + 1 - i,
    {
        if matches_at_exec(hay, needle, i) {
            return true;
        }
        i += 1;
    }
    assert(forall|k: int| matches_at(hay@, needle@, k) ==> 0 <= k <= last);
    false
}

/// Whether `query` occurs in `name`, comparing their UTF-8 bytes under
/// ASCII folding. An empty query matches every name.
pub fn name_matches(name: &str, query: &str) -> (r: bool)
    ensures
        r == contains_ci(name.spec_bytes(), query.spec_bytes()),
{
    let hay = name.as_bytes_vec();
    let needle = query.as_bytes_vec();
    contains_bytes_ci(&hay, &needle)
}

} // verus!
