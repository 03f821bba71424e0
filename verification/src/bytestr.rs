//! Helpers over byte slices: equality, substring search, and the bridge from
//! ASCII string literals to byte sequences. The rest of the crate states its
//! contracts over these sequence-level spec functions.

use vstd::prelude::*;
use vstd::string::is_ascii_spec_bytes;

verus! {

/// The byte sequence an ASCII character sequence stands for, character by
/// character.
pub open spec fn ascii_seq(s: Seq<char>) -> Seq<u8> {
    Seq::new(s.len(), |i: int| s[i] as u8)
}

/// The bytes of an ASCII string slice.
pub fn str_to_bytes(s: &str) -> (r: &[u8])
    requires
        s.is_ascii(),
    ensures
        r@ == ascii_seq(s@),
{
    broadcast use is_ascii_spec_bytes;

    let r = s.as_bytes();
    proof {
        assert(r@ =~= ascii_seq(s@));
    }
    r
}

/// Equality of two byte slices.
pub fn bytes_eq(a: &[u8], b: &[u8]) -> (r: bool)
    ensures
        r == (a@ == b@),
{
    if a.len() != b.len() {
        assert(a@ != b@) by {
            assert(a@.len() != b@.len());
        }
        return false;
    }
    let n = a.len();
    let mut i: usize = 0;
    while i < n
        invariant
            n == a@.len() == b@.len(),
            i <= n,
            forall|j: int| 0 <= j < i ==> a@[j] == b@[j],
        decreases n - i,
    {
        if a[i] != b[i] {
            return false;
        }
        i = i + 1;
    }
    proof {
        assert(a@ =~= b@);
    }
    true
}

/// `needle` occurs as a contiguous subsequence of `s`.
pub open spec fn contains_seq(s: Seq<u8>, needle: Seq<u8>) -> bool {
    exists|i: int|
        0 <= i && i + needle.len() <= s.len() && #[trigger] s.subrange(
            i,
            i + needle.len() as int,
        ) == needle
}

/// Substring search: does `needle` occur anywhere in `s`?
pub fn contains_bytes(s: &[u8], needle: &[u8]) -> (r: bool)
    ensures
        r == contains_seq(s@, needle@),
{
    let m: usize = s.len();
    let n: usize = needle.len();
    if n > m {
        return false;
    }
    if n == 0 {
        assert(contains_seq(s@, needle@)) by {
            assert(s@.subrange(0, 0 + needle@.len() as int) =~= needle@);
        }
        return true;
    }
    let last: usize = m - n;
    let mut i: usize = 0;
    while i <= last
        invariant
            m == s@.len(),
            n == needle@.len(),
            1 <= n <= m,
            last == m - n,
            i <= last + 1,
            forall|j: int|
                0 <= j < i ==> #[trigger] s@.subrange(j, j + needle@.len() as int) != needle@,
        decreases last + 1 - i,
    {
        let window = &s[i..i + n];
        if bytes_eq(window, needle) {
            assert(s@.subrange(i as int, i + needle@.len() as int) == needle@);
            return true;
        }
        i = i + 1;
    }
    false
}

} // verus!
