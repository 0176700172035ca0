//! Small operations on byte strings.

use vstd::prelude::*;
use vstd::slice::slice_subrange;

verus! {

/// The position of the first `needle` in `s`, or the length of `s` where
/// there is none.
pub open spec fn first_index_of(s: Seq<u8>, needle: u8) -> int
    decreases s.len(),
{
    if s.len() == 0 {
        0
    } else if s[0] == needle {
        0
    } else {
        1 + first_index_of(s.skip(1), needle)
    }
}

/// `first_index_of` lies within the string, no earlier byte is the needle,
/// and the byte it points at is.
pub proof fn lemma_first_index_of(s: Seq<u8>, needle: u8)
    ensures
        0 <= first_index_of(s, needle) <= s.len(),
        forall|j: int| 0 <= j < first_index_of(s, needle) ==> s[j] != needle,
        first_index_of(s, needle) < s.len() ==> s[first_index_of(s, needle)] == needle,
    decreases s.len(),
{
    if s.len() > 0 && s[0] != needle {
        let t = s.skip(1);
        lemma_first_index_of(t, needle);
        assert forall|j: int| 0 <= j < first_index_of(s, needle) implies s[j] != needle by {
            if j > 0 {
                assert(s[j] == t[j - 1]);
            }
        }
        if first_index_of(s, needle) < s.len() {
            assert(s[first_index_of(s, needle)] == t[first_index_of(t, needle)]);
        }
    }
}

/// The first position at which `needle` stands is `first_index_of`.
pub proof fn lemma_first_index_is(s: Seq<u8>, needle: u8, at: int)
    requires
        0 <= at <= s.len(),
        forall|j: int| 0 <= j < at ==> s[j] != needle,
        at < s.len() ==> s[at] == needle,
    ensures
        first_index_of(s, needle) == at,
{
    lemma_first_index_of(s, needle);
}

/// Appends all of `tail` to `out`.
pub fn push_all(out: &mut Vec<u8>, tail: &[u8])
    ensures
        final(out)@ == old(out)@ + tail@,
{
    let n: usize = tail.len();
    let mut i: usize = 0;
    while i < n
        invariant
            i <= n == tail@.len(),
            out@ == old(out)@ + tail@.take(i as int),
        decreases n - i,
    {
        out.push(tail[i]);
        assert(tail@.take(i + 1) =~= tail@.take(i as int).push(tail@[i as int]));
        i = i + 1;
    }
    assert(tail@.take(n as int) =~= tail@);
}

/// Whether `s` begins with `prefix`.
pub fn starts_with(s: &[u8], prefix: &[u8]) -> (r: bool)
    ensures
        r == prefix@.is_prefix_of(s@),
{
    let n: usize = prefix.len();
    if s.len() < n {
        return false;
    }
    let mut i: usize = 0;
    while i < n
        invariant
            i <= n == prefix@.len(),
            n <= s@.len(),
            forall|j: int| 0 <= j < i ==> s@[j] == prefix@[j],
        decreases n - i,
    {
        if s[i] != prefix[i] {
            assert(s@.subrange(0, n as int)[i as int] != prefix@[i as int]);
            return false;
        }
        i = i + 1;
    }
    assert(prefix@ =~= s@.subrange(0, n as int));
    true
}

/// Where the first `needle` stands in `s`, if anywhere.
pub fn find(s: &[u8], needle: u8) -> (r: Option<usize>)
    ensures
        match r {
            Some(i) => i < s@.len() && i == first_index_of(s@, needle),
            None => first_index_of(s@, needle) == s@.len(),
        },
{
    let n: usize = s.len();
    let mut i: usize = 0;
    while i < n
        invariant
            i <= n == s@.len(),
            forall|j: int| 0 <= j < i ==> s@[j] != needle,
        decreases n - i,
    {
        if s[i] == needle {
            proof {
                lemma_first_index_is(s@, needle, i as int);
            }
            return Some(i);
        }
        i = i + 1;
    }
    proof {
        lemma_first_index_is(s@, needle, n as int);
    }
    None
}

/// A copy of the bytes of `s` from `from` up to `to`.
pub fn copy_range(s: &[u8], from: usize, to: usize) -> (r: Vec<u8>)
    requires
        from <= to <= s@.len(),
    ensures
        r@ == s@.subrange(from as int, to as int),
{
    let mut out: Vec<u8> = Vec::new();
    push_all(&mut out, slice_subrange(s, from, to));
    assert(out@ =~= s@.subrange(from as int, to as int));
    out
}

} // verus!
