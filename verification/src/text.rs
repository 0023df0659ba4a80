//! Byte-level text predicates shared by the validators and the markdown lint.
//!
//! Every string is modelled by its UTF-8 bytes (`spec_bytes`), which is what
//! `str::len`, `str::starts_with` and `str::contains` look at.

use vstd::prelude::*;
use vstd::string::StringSliceAdditionalSpecFns;
use vstd::utf8::*;

verus! {

/// `needle` occurs in `hay` starting at byte offset `at`.
pub open spec fn occurs_at(hay: Seq<u8>, needle: Seq<u8>, at: int) -> bool {
    &&& 0 <= at
    &&& at + needle.len() <= hay.len()
    &&& hay.subrange(at, at + needle.len()) == needle
}

/// `needle` occurs somewhere in `hay` (the empty needle occurs everywhere).
pub open spec fn bytes_contain(hay: Seq<u8>, needle: Seq<u8>) -> bool {
    exists|at: int| occurs_at(hay, needle, at)
}

/// `hay` begins with `prefix`.
pub open spec fn bytes_start_with(hay: Seq<u8>, prefix: Seq<u8>) -> bool {
    prefix.is_prefix_of(hay)
}

/// Byte-wise equality of `hay[at..at + needle.len()]` and `needle`.
fn matches_at(hay: &[u8], needle: &[u8], at: usize) -> (r: bool)
    requires
        at + needle@.len() <= hay@.len(),
    ensures
        r == occurs_at(hay@, needle@, at as int),
{
    let hay_len = hay.len();
    let mut j: usize = 0;
    while j < needle.len()
        invariant
            hay_len == hay@.len(),
            at + needle@.len() <= hay@.len(),
            j <= needle@.len(),
            forall|k: int| 0 <= k < j ==> hay@[at + k] == needle@[k],
        decreases needle@.len() - j,
    {
        if hay[at + j] != needle[j] {
            assert(hay@.subrange(at as int, at + needle@.len())[j as int] != needle@[j as int]);
            return false;
        }
        j = j + 1;
    }
    assert(hay@.subrange(at as int, at + needle@.len()) =~= needle@);
    true
}

/// Whether `prefix` is a prefix of `hay`.
pub(crate) fn starts_with_bytes(hay: &[u8], prefix: &[u8]) -> (r: bool)
    ensures
        r == bytes_start_with(hay@, prefix@),
{
    if prefix.len() > hay.len() {
        return false;
    }
    matches_at(hay, prefix, 0)
}

/// Whether `needle` occurs anywhere in `hay`.
pub(crate) fn contains_bytes(hay: &[u8], needle: &[u8]) -> (r: bool)
    ensures
        r == bytes_contain(hay@, needle@),
{
    if needle.len() > hay.len() {
        assert forall|at: int| !occurs_at(hay@, needle@, at) by {}
        return false;
    }
    let last = hay.len() - needle.len();
    let mut at: usize = 0;
    while at < last
        invariant
            last == hay@.len() - needle@.len(),
            at <= last,
            forall|k: int| 0 <= k < at ==> !occurs_at(hay@, needle@, k),
        decreases last - at,
    {
        if matches_at(hay, needle, at) {
            return true;
        }
        at = at + 1;
    }
    let r = matches_at(hay, needle, last);
    assert(r == bytes_contain(hay@, needle@)) by {
        if !r {
            assert forall|k: int| !occurs_at(hay@, needle@, k) by {}
        }
    }
    r
}

/// A needle occurs in any text built around it, and never in a shorter text.
pub proof fn law_contains_embedded(before: Seq<u8>, needle: Seq<u8>, after: Seq<u8>, hay: Seq<u8>)
    ensures
        bytes_contain(before + needle + after, needle),
        bytes_contain(hay, needle) ==> needle.len() <= hay.len(),
{
    assert((before + needle + after).subrange(
        before.len() as int,
        (before.len() + needle.len()) as int,
    ) =~= needle);
    assert(occurs_at(before + needle + after, needle, before.len() as int));
}

/// A text starts with a prefix exactly when it is that prefix followed by
/// something.
pub proof fn law_starts_with_is_prefix(hay: Seq<u8>, prefix: Seq<u8>)
    ensures
        bytes_start_with(hay, prefix) <==> exists|rest: Seq<u8>| hay == prefix + rest,
{
    if bytes_start_with(hay, prefix) {
        assert(hay =~= prefix + hay.skip(prefix.len() as int));
    }
    if exists|rest: Seq<u8>| hay == prefix + rest {
        let rest = choose|rest: Seq<u8>| hay == prefix + rest;
        assert(hay.subrange(0, prefix.len() as int) =~= prefix);
    }
}

/// The UTF-8 encoding of `chars` has between one and four bytes per char.
pub(crate) proof fn lemma_utf8_len_bounds(chars: Seq<char>)
    ensures
        chars.len() <= encode_utf8(chars).len() <= 4 * chars.len(),
    decreases chars.len(),
{
    if chars.len() > 0 {
        lemma_utf8_len_bounds(chars.drop_first());
    }
}

/// A string has no bytes exactly when it has no chars.
pub(crate) proof fn lemma_str_bytes_empty(s: &str)
    ensures
        (s.spec_bytes().len() == 0) == (s@.len() == 0),
        s@.len() <= s.spec_bytes().len() <= 4 * s@.len(),
{
    lemma_utf8_len_bounds(s@);
}

} // verus!
