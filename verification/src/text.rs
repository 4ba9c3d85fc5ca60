//! Verified text primitives: equality and substring search over `&str`.

use vstd::prelude::*;

verus! {

/// `p` occurs as a contiguous run of characters somewhere in `s`.
pub open spec fn spec_contains(s: Seq<char>, p: Seq<char>) -> bool {
    exists|i: int| 0 <= i && i + p.len() <= s.len() && #[trigger] s.subrange(i, i + p.len() as int)
        == p
}

/// Character-for-character equality of two string slices.
pub fn str_eq(a: &str, b: &str) -> (r: bool)
    ensures
        r == (a@ == b@),
{
    let n = a.unicode_len();
    let m = b.unicode_len();
    if n != m {
        return false;
    }
    for j in 0..n
        invariant
            n == a@.len(),
            n == b@.len(),
            forall|k: int| 0 <= k < j ==> a@[k] == b@[k],
    {
        if a.get_char(j) != b.get_char(j) {
            return false;
        }
    }
    proof {
        assert(a@ =~= b@);
    }
    true
}

/// Whether `pat` matches the characters of `s` starting at `i`.
fn match_at(s: &str, i: usize, pat: &str) -> (r: bool)
    requires
        i + pat@.len() <= s@.len(),
    ensures
        r == (s@.subrange(i as int, i as int + pat@.len() as int) == pat@),
{
    let n = s.unicode_len();
    let m = pat.unicode_len();
    let ghost sub = s@.subrange(i as int, i as int + pat@.len() as int);
    for j in 0..m
        invariant
            n == s@.len(),
            m == pat@.len(),
            i + m <= n,
            sub == s@.subrange(i as int, i as int + m as int),
            forall|k: int| 0 <= k < j ==> sub[k] == pat@[k],
    {
        if s.get_char(i + j) != pat.get_char(j) {
            proof {
                assert(sub[j as int] != pat@[j as int]);
            }
            return false;
        }
        proof {
            assert(sub[j as int] == s@[i + j]);
        }
    }
    proof {
        assert(sub =~= pat@);
    }
    true
}

/// Substring search: whether the characters of `pat` occur contiguously in
/// `s`.
pub fn str_contains(s: &str, pat: &str) -> (r: bool)
    ensures
        r == spec_contains(s@, pat@),
{
    let n = s.unicode_len();
    let m = pat.unicode_len();
    if m > n {
        return false;
    }
    if m == 0 {
        proof {
            assert(s@.subrange(0, 0 + pat@.len() as int) =~= pat@);
        }
        return true;
    }
    for i in 0..(n - m + 1)
        invariant
            n == s@.len(),
            m == pat@.len(),
            0 < m <= n,
            forall|k: int| 0 <= k < i ==> #[trigger] s@.subrange(k, k + m as int) != pat@,
    {
        if match_at(s, i, pat) {
            return true;
        }
    }
    false
}

/// Whether the characters of `pat` occur contiguously in the string `s`.
pub fn string_contains(s: &String, pat: &str) -> (r: bool)
    ensures
        r == spec_contains(s@, pat@),
{
    str_contains(s.as_str(), pat)
}

/// Character-for-character equality of a string and a slice.
pub fn string_eq_str(s: &String, other: &str) -> (r: bool)
    ensures
        r == (s@ == other@),
{
    str_eq(s.as_str(), other)
}

} // verus!
