//! Classification of broadcast failures.  The network reports a replacement
//! of an already-mined transaction through an error message containing
//! "nonce too low"; that outcome is silent completion, every other broadcast
//! failure is fatal to the watch loop.

use vstd::prelude::*;

verus! {

/// True when `needle` occurs as a contiguous run inside `haystack`.
pub open spec fn contains_subseq(haystack: Seq<u8>, needle: Seq<u8>) -> bool {
    exists|i: int|
        0 <= i <= haystack.len() - needle.len() && #[trigger] haystack.subrange(
            i,
            i + needle.len(),
        ) == needle
}

/// The marker the network puts in its rejection of a replacement whose
/// nonce was already superseded by a mined transaction: "nonce too low",
/// as bytes.
pub open spec fn nonce_too_low_marker() -> Seq<u8> {
    seq![110u8, 111u8, 110u8, 99u8, 101u8, 32u8, 116u8, 111u8, 111u8, 32u8, 108u8, 111u8, 119u8]
}

/// A broadcast failure counts as a rejected replacement exactly when the
/// error message carries the nonce-too-low marker.
pub open spec fn is_replacement_rejected_spec(message: Seq<u8>) -> bool {
    contains_subseq(message, nonce_too_low_marker())
}

/// Whether `needle` matches `haystack` starting at position `at`.
fn matches_at(haystack: &Vec<u8>, needle: &Vec<u8>, at: usize) -> (r: bool)
    requires
        at + needle@.len() <= haystack@.len(),
    ensures
        r == (haystack@.subrange(at as int, at + needle@.len()) == needle@),
{
    let hay_len = haystack.len();
    let mut j: usize = 0;
    while j < needle.len()
        invariant
            at + needle@.len() <= haystack@.len(),
            hay_len == haystack@.len(),
            j <= needle@.len(),
            forall|k: int| 0 <= k < j ==> haystack@[at + k] == needle@[k],
        decreases needle@.len() - j,
    {
        if haystack[at + j] != needle[j] {
            assert(haystack@.subrange(at as int, at + needle@.len())[j as int] != needle@[j as int]);
            return false;
        }
        j = j + 1;
    }
    assert(haystack@.subrange(at as int, at + needle@.len()) =~= needle@);
    true
}

/// Byte-level search for a contiguous occurrence of `needle` in `haystack`.
pub fn contains_subsequence(haystack: &Vec<u8>, needle: &Vec<u8>) -> (r: bool)
    ensures
        r == contains_subseq(haystack@, needle@),
{
    if needle.len() > haystack.len() {
        return false;
    }
    let last = haystack.len() - needle.len();
    let mut i: usize = 0;
    while i < last
        invariant
            needle@.len() <= haystack@.len(),
            last == haystack@.len() - needle@.len(),
            i <= last,
            forall|k: int|
                0 <= k < i ==> #[trigger] haystack@.subrange(k, k + needle@.len()) != needle@,
        decreases last - i,
    {
        if matches_at(haystack, needle, i) {
            assert(contains_subseq(haystack@, needle@));
            return true;
        }
        i = i + 1;
    }
    if matches_at(haystack, needle, last) {
        assert(contains_subseq(haystack@, needle@));
        return true;
    }
    false
}

/// The nonce-too-low marker as an executable byte vector.
fn nonce_too_low_pattern() -> (v: Vec<u8>)
    ensures
        v@ == nonce_too_low_marker(),
{
    let mut v: Vec<u8> = Vec::new();
    v.push(110);
    v.push(111);
    v.push(110);
    v.push(99);
    v.push(101);
    v.push(32);
    v.push(116);
    v.push(111);
    v.push(111);
    v.push(32);
    v.push(108);
    v.push(111);
    v.push(119);
    assert(v@ =~= nonce_too_low_marker());
    v
}

/// Decides whether a broadcast failure, handed over as the bytes of the
/// provider's error message, is a rejected replacement (nonce already
/// superseded) rather than a fatal failure.
pub fn is_replacement_rejected(message: &Vec<u8>) -> (r: bool)
    ensures
        r == is_replacement_rejected_spec(message@),
{
    let needle = nonce_too_low_pattern();
    contains_subsequence(message, &needle)
}

} // verus!
