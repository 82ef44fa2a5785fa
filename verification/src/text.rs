//! Verified text predicates used by field validation.
//!
//! The validators of the engine only ever ask three questions of a string:
//! whether one string is a prefix of another, whether it contains a given
//! substring, and whether it contains a given character. The executable
//! functions here answer them with contracts over the character views.

use vstd::prelude::*;
use vstd::string::StrSliceExecFns;

verus! {

/// True when `p` is a prefix of `s`.
pub open spec fn is_prefix_of(p: Seq<char>, s: Seq<char>) -> bool {
    p.len() <= s.len() && p =~= s.subrange(0, p.len() as int)
}

/// True when `p` occurs in `s` starting at position `j`.
pub open spec fn match_at(s: Seq<char>, p: Seq<char>, j: int) -> bool {
    0 <= j && j + p.len() <= s.len() && p =~= s.subrange(j, j + p.len() as int)
}

/// True when `p` occurs somewhere in `s`.
pub open spec fn contains_seq(s: Seq<char>, p: Seq<char>) -> bool {
    exists|j: int| match_at(s, p, j)
}

/// True when the character `c` occurs in `s`.
pub open spec fn contains_char(s: Seq<char>, c: char) -> bool {
    exists|i: int| 0 <= i < s.len() && s[i] == c
}

/// Whether `prefix` is a prefix of `s`, by characters.
pub fn str_starts_with(s: &str, prefix: &str) -> (r: bool)
    ensures
        r == is_prefix_of(prefix@, s@),
{
    let n: usize = s.unicode_len();
    let m: usize = prefix.unicode_len();
    if m > n {
        return false;
    }
    let mut i: usize = 0;
    while i < m
        invariant
            m <= n,
            n == s@.len(),
            m == prefix@.len(),
            i <= m,
            forall|k: int| 0 <= k < i ==> s@[k] == prefix@[k],
        decreases m - i,
    {
        if s.get_char(i) != prefix.get_char(i) {
            proof {
                if is_prefix_of(prefix@, s@) {
                    assert(prefix@[i as int] == s@.subrange(0, prefix@.len() as int)[i as int]);
                }
            }
            return false;
        }
        i += 1;
    }
    proof {
        assert forall|k: int| 0 <= k < prefix@.len() implies prefix@[k] == s@.subrange(
            0,
            prefix@.len() as int,
        )[k] by {
            assert(s@.subrange(0, prefix@.len() as int)[k] == s@[k]);
        }
        assert(prefix@ =~= s@.subrange(0, prefix@.len() as int));
    }
    true
}

/// Whether the character `c` occurs in `s`.
pub fn str_contains_char(s: &str, c: char) -> (r: bool)
    ensures
        r == contains_char(s@, c),
{
    let n: usize = s.unicode_len();
    let mut i: usize = 0;
    while i < n
        invariant
            n == s@.len(),
            i <= n,
            forall|k: int| 0 <= k < i ==> s@[k] != c,
        decreases n - i,
    {
        if s.get_char(i) == c {
            assert(contains_char(s@, c)) by {
                assert(0 <= i < s@.len() && s@[i as int] == c);
            }
            return true;
        }
        i += 1;
    }
    false
}

/// Whether `pat` occurs in `s` starting at position `j`.
fn str_match_at(s: &str, pat: &str, j: usize) -> (r: bool)
    requires
        j + pat@.len() <= s@.len(),
    ensures
        r == match_at(s@, pat@, j as int),
{
    let n: usize = s.unicode_len();
    let m: usize = pat.unicode_len();
    let mut i: usize = 0;
    while i < m
        invariant
            j + pat@.len() <= s@.len(),
            n == s@.len(),
            m == pat@.len(),
            i <= m,
            forall|k: int| 0 <= k < i ==> s@[j + k] == pat@[k],
        decreases m - i,
    {
        if s.get_char(j + i) != pat.get_char(i) {
            proof {
                if match_at(s@, pat@, j as int) {
                    assert(pat@[i as int] == s@.subrange(
                        j as int,
                        j + pat@.len() as int,
                    )[i as int]);
                }
            }
            return false;
        }
        i += 1;
    }
    proof {
        assert forall|k: int| 0 <= k < pat@.len() implies pat@[k] == s@.subrange(
            j as int,
            j + pat@.len() as int,
        )[k] by {
            assert(s@.subrange(j as int, j + pat@.len() as int)[k] == s@[j + k]);
        }
        assert(pat@ =~= s@.subrange(j as int, j + pat@.len() as int));
    }
    true
}

/// Whether `pat` occurs somewhere in `s`, by characters.
pub fn str_contains_seq(s: &str, pat: &str) -> (r: bool)
    ensures
        r == contains_seq(s@, pat@),
{
    let n: usize = s.unicode_len();
    let m: usize = pat.unicode_len();
    if m > n {
        proof {
            if contains_seq(s@, pat@) {
                let j = choose|j: int| match_at(s@, pat@, j);
                assert(j + pat@.len() <= s@.len());
            }
        }
        return false;
    }
    let last: usize = n - m;
    let mut j: usize = 0;
    while j <= last
        invariant
            m <= n,
            n == s@.len(),
            m == pat@.len(),
            last == n - m,
            j <= last + 1,
            forall|t: int| 0 <= t < j ==> !match_at(s@, pat@, t),
        decreases last + 1 - j,
    {
        if str_match_at(s, pat, j) {
            assert(contains_seq(s@, pat@));
            return true;
        }
        j += 1;
    }
    proof {
        assert forall|t: int| !match_at(s@, pat@, t) by {
            if match_at(s@, pat@, t) {
                assert(0 <= t && t + pat@.len() <= s@.len());
                assert(t < j);
            }
        }
    }
    false
}

} // verus!
