//! Finding one run of bytes inside another.

use vstd::prelude::*;

verus! {

/// Whether `needle` stands in `haystack` at index `at`, byte for byte and
/// without a gap. The empty needle stands at every index up to the end.
pub open spec fn matches_at(haystack: Seq<u8>, needle: Seq<u8>, at: int) -> bool {
    &&& 0 <= at
    &&& at + needle.len() <= haystack.len()
    &&& haystack.subrange(at, at + needle.len()) == needle
}

/// Whether `needle` stands somewhere in `haystack`.
pub open spec fn occurs_in(needle: Seq<u8>, haystack: Seq<u8>) -> bool {
    exists|at: int| matches_at(haystack, needle, at)
}

/// Whether the bytes of `haystack` from `start` on begin with `needle`.
fn window_matches(haystack: &[u8], start: usize, needle: &[u8]) -> (same: bool)
    requires
        start + needle@.len() <= haystack@.len(),
    ensures
        same == matches_at(haystack@, needle@, start as int),
{
    let mut offset: usize = 0;
    while offset < needle.len()
        invariant
            offset <= needle.len(),
            start + needle.len() <= haystack.len(),
            forall|k: int| 0 <= k < offset ==> haystack@[start + k] == needle@[k],
        decreases needle.len() - offset,
    {
        if haystack[start + offset] != needle[offset] {
            return false;
        }
        offset += 1;
    }
    assert(haystack@.subrange(start as int, start + needle@.len()) =~= needle@);
    true
}

/// Finds the first place where `needle` stands in `haystack`.
///
/// Returns the lowest index at which `haystack` goes on with all of `needle`,
/// or `None` where there is no such index. The empty needle is found at index
/// zero of any haystack; a needle longer than the haystack is never found.
pub fn find_subsequence(haystack: &[u8], needle: &[u8]) -> (found: Option<usize>)
    ensures
        match found {
            Some(at) => {
                &&& matches_at(haystack@, needle@, at as int)
                &&& forall|earlier: int|
                    0 <= earlier < at ==> !matches_at(haystack@, needle@, earlier)
            },
            None => !occurs_in(needle@, haystack@),
        },
{
    if needle.len() > haystack.len() {
        return None;
    }
    let last = haystack.len() - needle.len();
    let mut start: usize = 0;
    loop
        invariant
            start <= last,
            last + needle@.len() == haystack@.len(),
            forall|earlier: int| 0 <= earlier < start ==> !matches_at(haystack@, needle@, earlier),
        decreases last - start,
    {
        if window_matches(haystack, start, needle) {
            return Some(start);
        }
        if start == last {
            return None;
        }
        start += 1;
    }
}

/// A needle stands wherever it was put: between any bytes before it and any
/// bytes after it.
pub proof fn law_occurs_where_placed(before: Seq<u8>, needle: Seq<u8>, after: Seq<u8>)
    ensures
        matches_at(before + needle + after, needle, before.len() as int),
        occurs_in(needle, before + needle + after),
{
    let haystack = before + needle + after;
    assert(haystack.subrange(before.len() as int, (before.len() + needle.len()) as int) =~= needle);
}

/// Bytes put behind a haystack take no occurrence away: a needle that stands
/// in `haystack` stands in `haystack + more`, at the same index.
pub proof fn law_occurrence_survives_append(needle: Seq<u8>, haystack: Seq<u8>, more: Seq<u8>)
    requires
        occurs_in(needle, haystack),
    ensures
        occurs_in(needle, haystack + more),
{
    let at = choose|at: int| matches_at(haystack, needle, at);
    assert((haystack + more).subrange(at, at + needle.len()) =~= haystack.subrange(
        at,
        at + needle.len(),
    ));
    assert(matches_at(haystack + more, needle, at));
}

/// Bytes put in front of a haystack take no occurrence away either: the
/// needle then stands that many bytes further on.
pub proof fn law_occurrence_survives_prepend(needle: Seq<u8>, before: Seq<u8>, haystack: Seq<u8>)
    requires
        occurs_in(needle, haystack),
    ensures
        occurs_in(needle, before + haystack),
{
    let at = choose|at: int| matches_at(haystack, needle, at);
    assert((before + haystack).subrange(before.len() + at, before.len() + at + needle.len())
        =~= haystack.subrange(at, at + needle.len()));
    assert(matches_at(before + haystack, needle, before.len() + at));
}

/// The empty needle stands in every haystack.
pub proof fn law_empty_needle_occurs(haystack: Seq<u8>)
    ensures
        occurs_in(Seq::<u8>::empty(), haystack),
{
    assert(haystack.subrange(0, 0) =~= Seq::<u8>::empty());
    assert(matches_at(haystack, Seq::<u8>::empty(), 0));
}

} // verus!
