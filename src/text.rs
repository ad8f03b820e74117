use vstd::prelude::*;

verus! {

broadcast use vstd::slice::group_slice_axioms;

/// UTF-8 bytes of a string's characters.
pub open spec fn utf8_of(s: Seq<char>) -> Seq<u8> {
    vstd::utf8::encode_utf8(s)
}

/// `needle` occurs in `hay` at byte offset `at`.
pub open spec fn occurs_at(hay: Seq<u8>, needle: Seq<u8>, at: int) -> bool {
    0 <= at && at + needle.len() <= hay.len() && hay.subrange(at, at + needle.len()) == needle
}

/// `needle` is a contiguous run of bytes within `hay`.
pub open spec fn contains_bytes(hay: Seq<u8>, needle: Seq<u8>) -> bool {
    exists|at: int| occurs_at(hay, needle, at)
}

/// The empty run of bytes is found in every string.
pub proof fn lemma_empty_is_contained(hay: Seq<u8>)
    ensures
        contains_bytes(hay, Seq::<u8>::empty()),
{
    assert(hay.subrange(0, 0) =~= Seq::<u8>::empty());
    assert(occurs_at(hay, Seq::<u8>::empty(), 0));
}

fn matches_at(hay: &[u8], needle: &[u8], at: usize) -> (r: bool)
    requires
        at + needle@.len() <= hay@.len(),
        hay@.len() <= usize::MAX,
    ensures
        r == occurs_at(hay@, needle@, at as int),
{
    let mut k: usize = 0;
    while k < needle.len()
        invariant
            k <= needle@.len(),
            at + needle@.len() <= hay@.len(),
            hay@.len() <= usize::MAX,
            forall|j: int| 0 <= j < k ==> hay@[at + j] == needle@[j],
        decreases needle@.len() - k,
    {
        if hay[at + k] != needle[k] {
            assert(hay@.subrange(at as int, at + needle@.len())[k as int] != needle@[k as int]);
            return false;
        }
        k = k + 1;
    }
    assert(hay@.subrange(at as int, at + needle@.len()) =~= needle@);
    true
}

/// Whether the bytes of `needle` appear contiguously in those of `hay`
/// (case-sensitive, exact byte comparison).
pub fn contains_str(hay: &str, needle: &str) -> (r: bool)
    ensures
        r == contains_bytes(utf8_of(hay@), utf8_of(needle@)),
{
    let h = hay.as_bytes();
    let n = needle.as_bytes();
    assert(h@ == utf8_of(hay@) && n@ == utf8_of(needle@));
    let hl = h.len();
    assert(h@.len() <= usize::MAX);
    if n.len() == 0 {
        assert(h@.subrange(0, 0) =~= n@);
        assert(occurs_at(h@, n@, 0));
        return true;
    }
    if n.len() > h.len() {
        assert forall|at: int| !occurs_at(h@, n@, at) by {}
        return false;
    }
    let last: usize = h.len() - n.len();
    let mut at: usize = 0;
    while at <= last
        invariant
            last + n@.len() == h@.len(),
            h@ == utf8_of(hay@),
            n@ == utf8_of(needle@),
            h@.len() <= usize::MAX,
            n@.len() > 0,
            forall|p: int| 0 <= p < at ==> !occurs_at(h@, n@, p),
        decreases last + 1 - at,
    {
        if matches_at(h, n, at) {
            assert(occurs_at(h@, n@, at as int));
            return true;
        }
        at = at + 1;
    }
    assert forall|p: int| !occurs_at(h@, n@, p) by {
        if 0 <= p && p < at {
        }
    }
    false
}

} // verus!
