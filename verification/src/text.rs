//! Substring matching over transcript bytes.
//!
//! Transcripts and trigger phrases are UTF-8 text handled as byte sequences;
//! because UTF-8 is self-synchronizing, byte-level substring occurrence
//! coincides with textual occurrence.

use vstd::prelude::*;

verus! {

/// `needle` occurs in `hay` starting at byte offset `i`.
pub open spec fn occurs_at(hay: Seq<u8>, needle: Seq<u8>, i: int) -> bool {
    0 <= i && i + needle.len() <= hay.len() && hay.subrange(i, i + needle.len()) == needle
}

/// `needle` occurs somewhere in `hay`. The empty needle occurs in every hay.
pub open spec fn occurs_in(needle: Seq<u8>, hay: Seq<u8>) -> bool {
    exists|i: int| occurs_at(hay, needle, i)
}

/// `needle` occurs at offset `i` of `hay`: every byte matches.
fn matches_at(hay: &Vec<u8>, needle: &Vec<u8>, i: usize) -> (r: bool)
    requires
        i + needle@.len() <= hay@.len(),
    ensures
        r == occurs_at(hay@, needle@, i as int),
{
    let hay_len: usize = hay.len();
    let mut j: usize = 0;
    while j < needle.len()
        invariant
            j <= needle@.len(),
            i + needle@.len() <= hay@.len(),
            hay_len == hay@.len(),
            forall|k: int| 0 <= k < j ==> hay@[i + k] == needle@[k],
        decreases needle@.len() - j,
    {
        assert(i + j < hay@.len());
        if hay[i + j] != needle[j] {
            assert(hay@.subrange(i as int, i + needle@.len())[j as int] == hay@[i + j]);
            return false;
        }
        j += 1;
    }
    assert(hay@.subrange(i as int, i + needle@.len()) =~= needle@);
    true
}

/// Naive substring search: reports whether `needle` occurs in `hay`.
pub fn contains_phrase(hay: &Vec<u8>, needle: &Vec<u8>) -> (r: bool)
    ensures
        r == occurs_in(needle@, hay@),
{
    if needle.len() > hay.len() {
        assert(forall|i: int| !occurs_at(hay@, needle@, i));
        return false;
    }
    if needle.len() == 0 {
        assert(hay@.subrange(0, 0) =~= needle@);
        assert(occurs_at(hay@, needle@, 0));
        return true;
    }
    let last: usize = hay.len() - needle.len();
    let mut i: usize = 0;
    while i <= last
        invariant
            1 <= needle@.len() <= hay@.len(),
            hay@.len() <= usize::MAX,
            last == hay@.len() - needle@.len(),
            i <= last + 1,
            forall|k: int| 0 <= k < i ==> !occurs_at(hay@, needle@, k),
        decreases last + 1 - i,
    {
        if matches_at(hay, needle, i) {
            assert(occurs_in(needle@, hay@));
            return true;
        }
        i += 1;
    }
    assert(forall|k: int| !occurs_at(hay@, needle@, k));
    false
}

} // verus!
