//! Verified character-level string helpers.
//!
//! The classifier's rules are all predicates over the characters of a path,
//! so equality, prefix and substring tests are implemented here once, each
//! with a contract phrased over the string views (`Seq<char>`).

use vstd::prelude::*;

verus! {

/// `pat` occurs as a contiguous run of characters somewhere in `s`.
pub open spec fn contains_seq(s: Seq<char>, pat: Seq<char>) -> bool {
    exists|i: int|
        0 <= i && i + pat.len() <= s.len() && #[trigger] s.subrange(i, i + pat.len() as int)
            == pat
}

/// Character-wise string equality.
pub fn str_eq(a: &str, b: &str) -> (r: bool)
    ensures
        r == (a@ == b@),
{
    let a_len = a.unicode_len();
    let b_len = b.unicode_len();
    if a_len != b_len {
        assert(a@ != b@) by {
            assert(a@.len() != b@.len());
        }
        return false;
    }
    let mut i: usize = 0;
    while i < a_len
        invariant
            i <= a_len,
            a_len == a@.len(),
            a_len == b@.len(),
            forall|k: int| 0 <= k < i ==> a@[k] == b@[k],
        decreases a_len - i,
    {
        if a.get_char(i) != b.get_char(i) {
            return false;
        }
        i = i + 1;
    }
    assert(a@ =~= b@);
    true
}

/// `prefix` is an initial run of the characters of `s`.
pub fn starts_with(s: &str, prefix: &str) -> (r: bool)
    ensures
        r == prefix@.is_prefix_of(s@),
{
    let s_len = s.unicode_len();
    let p_len = prefix.unicode_len();
    if p_len > s_len {
        return false;
    }
    let mut i: usize = 0;
    while i < p_len
        invariant
            i <= p_len,
            p_len <= s_len,
            s_len == s@.len(),
            p_len == prefix@.len(),
            forall|k: int| 0 <= k < i ==> s@[k] == prefix@[k],
        decreases p_len - i,
    {
        if s.get_char(i) != prefix.get_char(i) {
            assert(!prefix@.is_prefix_of(s@)) by {
                assert(s@.subrange(0, prefix@.len() as int)[i as int] != prefix@[i as int]);
            }
            return false;
        }
        i = i + 1;
    }
    assert(prefix@ =~= s@.subrange(0, prefix@.len() as int));
    true
}

/// `pat` matches the characters of `s` beginning at position `at`.
fn matches_at(s: &str, pat: &str, at: usize) -> (r: bool)
    requires
        at + pat@.len() <= s@.len(),
    ensures
        r == (s@.subrange(at as int, at + pat@.len() as int) == pat@),
{
    let s_len = s.unicode_len();
    let p_len = pat.unicode_len();
    let mut j: usize = 0;
    while j < p_len
        invariant
            j <= p_len,
            s_len == s@.len(),
            p_len == pat@.len(),
            at + p_len <= s_len,
            forall|k: int| 0 <= k < j ==> s@[at + k] == pat@[k],
        decreases p_len - j,
    {
        if s.get_char(at + j) != pat.get_char(j) {
            assert(s@.subrange(at as int, at + pat@.len() as int) != pat@) by {
                assert(s@.subrange(at as int, at + pat@.len() as int)[j as int] != pat@[j as int]);
            }
            return false;
        }
        j = j + 1;
    }
    assert(s@.subrange(at as int, at + pat@.len() as int) =~= pat@);
    true
}

/// `pat` occurs as a substring of `s`.
pub fn contains_substring(s: &str, pat: &str) -> (r: bool)
    ensures
        r == contains_seq(s@, pat@),
{
    let s_len = s.unicode_len();
    let p_len = pat.unicode_len();
    if p_len > s_len {
        assert(!contains_seq(s@, pat@));
        return false;
    }
    if p_len == 0 {
        assert(s@.subrange(0, 0 + pat@.len() as int) =~= pat@);
        return true;
    }
    let bound = s_len - p_len + 1;
    let mut i: usize = 0;
    while i < bound
        invariant
            1 <= p_len <= s_len,
            s_len == s@.len(),
            p_len == pat@.len(),
            bound == s_len - p_len + 1,
            i <= bound,
            forall|k: int|
                0 <= k < i ==> #[trigger] s@.subrange(k, k + pat@.len() as int) != pat@,
        decreases bound - i,
    {
        if matches_at(s, pat, i) {
            assert(contains_seq(s@, pat@));
            return true;
        }
        i = i + 1;
    }
    assert(!contains_seq(s@, pat@));
    false
}

/// The concatenation `head` + `mid` + `tail` equals `s`.
pub fn eq_concat3(s: &str, head: &str, mid: &str, tail: &str) -> (r: bool)
    ensures
        r == (s@ == head@ + mid@ + tail@),
{
    let mut joined = head.to_owned();
    joined.append(mid);
    joined.append(tail);
    str_eq(s, joined.as_str())
}

} // verus!
