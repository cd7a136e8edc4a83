//! Searching byte strings.

use vstd::prelude::*;
use vstd::slice::*;

verus! {

/// `needle` stands in `hay` at offset `at`.
pub open spec fn occurs_at(hay: Seq<u8>, needle: Seq<u8>, at: int) -> bool {
    &&& 0 <= at
    &&& at + needle.len() <= hay.len()
    &&& hay.subrange(at, at + needle.len()) == needle
}

/// `needle` stands somewhere in `hay`.
pub open spec fn contains_bytes(hay: Seq<u8>, needle: Seq<u8>) -> bool {
    exists|at: int| occurs_at(hay, needle, at)
}

/// `end` is where the NUL-terminated string that starts at `start` stops: the
/// first NUL at or after `start`, or the end of the data where there is none.
pub open spec fn is_c_string_end(data: Seq<u8>, start: int, end: int) -> bool {
    &&& 0 <= start <= end <= data.len()
    &&& end < data.len() ==> data[end] == 0
    &&& forall|k: int| start <= k < end ==> data[k] != 0
}

/// Tests whether `needle` stands in `hay` at offset `at`.
pub fn matches_at(hay: &[u8], needle: &[u8], at: usize) -> (r: bool)
    ensures
        r == occurs_at(hay@, needle@, at as int),
{
    if needle.len() > hay.len() || at > hay.len() - needle.len() {
        return false;
    }
    let mut i: usize = 0;
    while i < needle.len()
        invariant
            at + needle.len() <= hay.len(),
            i <= needle.len(),
            forall|k: int| 0 <= k < i ==> hay@[at + k] == needle@[k],
        decreases needle.len() - i,
    {
        if hay[at + i] != needle[i] {
            assert(hay@.subrange(at as int, at + needle@.len())[i as int] != needle@[i as int]);
            return false;
        }
        i += 1;
    }
    assert(hay@.subrange(at as int, at + needle@.len()) =~= needle@);
    true
}

/// The offset of the first occurrence of `needle` in `hay`.
pub fn find_bytes(hay: &[u8], needle: &[u8]) -> (r: Option<usize>)
    ensures
        match r {
            Some(at) => occurs_at(hay@, needle@, at as int) && forall|j: int|
                0 <= j < at ==> !occurs_at(hay@, needle@, j),
            None => !contains_bytes(hay@, needle@),
        },
{
    let mut at: usize = 0;
    while at < hay.len()
        invariant
            at <= hay.len(),
            forall|j: int| 0 <= j < at ==> !occurs_at(hay@, needle@, j),
        decreases hay.len() - at,
    {
        if matches_at(hay, needle, at) {
            return Some(at);
        }
        at += 1;
    }
    if matches_at(hay, needle, at) {
        Some(at)
    } else {
        None
    }
}

/// Where the NUL-terminated string that starts at `start` stops.
pub fn c_string_end(data: &[u8], start: usize) -> (end: usize)
    requires
        start <= data.len(),
    ensures
        is_c_string_end(data@, start as int, end as int),
{
    let mut end: usize = start;
    while end < data.len() && data[end] != 0
        invariant
            start <= end <= data.len(),
            forall|k: int| start <= k < end ==> data@[k] != 0,
        decreases data.len() - end,
    {
        end += 1;
    }
    end
}

/// Two ends of the same NUL-terminated string coincide.
pub proof fn lemma_c_string_end_unique(data: Seq<u8>, start: int, e1: int, e2: int)
    requires
        is_c_string_end(data, start, e1),
        is_c_string_end(data, start, e2),
    ensures
        e1 == e2,
{
    if e1 < e2 {
        assert(data[e1] != 0);
    } else if e2 < e1 {
        assert(data[e2] != 0);
    }
}

} // verus!
