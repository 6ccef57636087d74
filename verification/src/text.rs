//! Byte-level text matching: prefix and substring tests over UTF-8 string
//! slices, specified over their byte sequences. Used by the routing, policy
//! and authorization logic.

use vstd::prelude::*;
use vstd::string::StringSliceAdditionalSpecFns;

verus! {

/// `needle` occurs in `haystack` at byte position `at`.
pub open spec fn spec_match_at(haystack: Seq<u8>, needle: Seq<u8>, at: int) -> bool {
    &&& 0 <= at
    &&& at + needle.len() <= haystack.len()
    &&& haystack.subrange(at, at + needle.len()) == needle
}

/// `needle` is a byte prefix of `haystack`.
pub open spec fn spec_starts_with(haystack: Seq<u8>, needle: Seq<u8>) -> bool {
    spec_match_at(haystack, needle, 0)
}

/// `needle` occurs somewhere in `haystack`.
pub open spec fn spec_contains(haystack: Seq<u8>, needle: Seq<u8>) -> bool {
    exists|at: int| #[trigger] spec_match_at(haystack, needle, at)
}

/// Whether `needle` matches the bytes of `haystack` starting at `at`.
fn match_at(haystack: &[u8], needle: &[u8], at: usize) -> (r: bool)
    requires
        at + needle@.len() <= haystack@.len(),
    ensures
        r == spec_match_at(haystack@, needle@, at as int),
{
    let hl = haystack.len();
    let n = needle.len();
    for i in 0..n
        invariant
            at + n <= hl,
            hl == haystack@.len(),
            n == needle@.len(),
            forall|j: int| 0 <= j < i ==> haystack@[at + j] == needle@[j],
    {
        if haystack[at + i] != needle[i] {
            proof {
                let sub = haystack@.subrange(at as int, at + n);
                assert(sub[i as int] == haystack@[at + i]);
            }
            return false;
        }
    }
    proof {
        assert(haystack@.subrange(at as int, at + n) =~= needle@);
    }
    true
}

/// Whether the string starts with the given prefix, byte for byte.
pub fn str_starts_with(s: &str, prefix: &str) -> (r: bool)
    ensures
        r == spec_starts_with(s.spec_bytes(), prefix.spec_bytes()),
{
    let sb = s.as_bytes();
    let pb = prefix.as_bytes();
    if pb.len() > sb.len() {
        return false;
    }
    match_at(sb, pb, 0)
}

/// Whether two strings are equal, byte for byte.
pub fn str_eq(a: &str, b: &str) -> (r: bool)
    ensures
        r == (a.spec_bytes() == b.spec_bytes()),
{
    let ab = a.as_bytes();
    let bb = b.as_bytes();
    if ab.len() != bb.len() {
        return false;
    }
    let r = match_at(ab, bb, 0);
    proof {
        assert(ab@.subrange(0, ab@.len() as int) =~= ab@);
    }
    r
}

/// Whether the string contains the given pattern, byte for byte.
pub fn str_contains(s: &str, pattern: &str) -> (r: bool)
    ensures
        r == spec_contains(s.spec_bytes(), pattern.spec_bytes()),
{
    let sb = s.as_bytes();
    let pb = pattern.as_bytes();
    if pb.len() > sb.len() {
        return false;
    }
    if pb.len() == 0 {
        proof {
            assert(sb@.subrange(0, 0) =~= pb@);
            assert(spec_match_at(s.spec_bytes(), pattern.spec_bytes(), 0));
        }
        return true;
    }
    let last = sb.len() - pb.len();
    for at in 0..(last + 1)
        invariant
            1 <= pb@.len() <= sb@.len(),
            last == sb@.len() - pb@.len(),
            sb@ == s.spec_bytes(),
            pb@ == pattern.spec_bytes(),
            forall|j: int| 0 <= j < at ==> !#[trigger] spec_match_at(sb@, pb@, j),
    {
        if match_at(sb, pb, at) {
            proof {
                assert(spec_match_at(s.spec_bytes(), pattern.spec_bytes(), at as int));
            }
            return true;
        }
    }
    proof {
        assert forall|j: int| !spec_match_at(s.spec_bytes(), pattern.spec_bytes(), j) by {
            if 0 <= j <= last as int {
                assert(!spec_match_at(sb@, pb@, j));
            }
        }
    }
    false
}

} // verus!
