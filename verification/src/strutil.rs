//! Character and substring utilities shared by the content negotiator
//! and the authentication layer.

use vstd::prelude::*;

verus! {

/// The ASCII lowercase of a character: `'A'..='Z'` map down by 32, all
/// other characters are unchanged.
pub open spec fn lower_char(c: char) -> char {
    if 'A' <= c && c <= 'Z' {
        ((c as u32) + 32) as char
    } else {
        c
    }
}

/// `t` occurs at position `i` of `s`, comparing ASCII-case-insensitively.
pub open spec fn matches_ci_at(s: Seq<char>, t: Seq<char>, i: int) -> bool {
    forall|j: int| 0 <= j < t.len() ==> lower_char(s[i + j]) == lower_char(t[j])
}

/// `t` occurs somewhere in `s`, comparing ASCII-case-insensitively.
pub open spec fn contains_ci(s: Seq<char>, t: Seq<char>) -> bool {
    exists|i: int| 0 <= i <= s.len() - t.len() && matches_ci_at(s, t, i)
}

/// `t` occurs at position `i` of `s`.
pub open spec fn matches_at(s: Seq<char>, t: Seq<char>, i: int) -> bool {
    forall|j: int| 0 <= j < t.len() ==> s[i + j] == t[j]
}

/// `t` occurs somewhere in `s`.
pub open spec fn contains_seq(s: Seq<char>, t: Seq<char>) -> bool {
    exists|i: int| 0 <= i <= s.len() - t.len() && matches_at(s, t, i)
}

fn to_lower_char(c: char) -> (r: char)
    ensures
        r == lower_char(c),
{
    if 'A' <= c && c <= 'Z' {
        assert((c as u32) < 128);
        (((c as u8) + 32) as char)
    } else {
        c
    }
}

/// Case-insensitive (ASCII) substring search.
pub fn str_contains_ci(s: &str, t: &str) -> (r: bool)
    ensures
        r == contains_ci(s@, t@),
{
    let n = s.unicode_len();
    let m = t.unicode_len();
    if m > n {
        assert(!contains_ci(s@, t@));
        return false;
    }
    let mut i: usize = 0;
    while i <= n - m
        invariant
            m <= n,
            n == s@.len(),
            m == t@.len(),
            i <= n - m + 1,
            forall|k: int| 0 <= k < i ==> !matches_ci_at(s@, t@, k),
        decreases n - m - i + 1,
    {
        let mut j: usize = 0;
        let mut hit = true;
        while j < m
            invariant
                m <= n,
                n == s@.len(),
                m == t@.len(),
                i <= n - m,
                j <= m,
                hit == forall|k: int| 0 <= k < j ==> lower_char(s@[i + k]) == lower_char(t@[k]),
            decreases m - j,
        {
            if to_lower_char(s.get_char(i + j)) != to_lower_char(t.get_char(j)) {
                hit = false;
                assert(!(forall|k: int| 0 <= k < j + 1 ==> lower_char(s@[i + k]) == lower_char(
                    t@[k],
                )));
            }
            j = j + 1;
        }
        if hit {
            assert(matches_ci_at(s@, t@, i as int));
            return true;
        }
        i = i + 1;
    }
    assert(forall|k: int| 0 <= k <= n - m ==> !matches_ci_at(s@, t@, k));
    false
}

/// Case-sensitive substring search.
pub fn str_contains(s: &str, t: &str) -> (r: bool)
    ensures
        r == contains_seq(s@, t@),
{
    let n = s.unicode_len();
    let m = t.unicode_len();
    if m > n {
        assert(!contains_seq(s@, t@));
        return false;
    }
    let mut i: usize = 0;
    while i <= n - m
        invariant
            m <= n,
            n == s@.len(),
            m == t@.len(),
            i <= n - m + 1,
            forall|k: int| 0 <= k < i ==> !matches_at(s@, t@, k),
        decreases n - m - i + 1,
    {
        let mut j: usize = 0;
        let mut hit = true;
        while j < m
            invariant
                m <= n,
                n == s@.len(),
                m == t@.len(),
                i <= n - m,
                j <= m,
                hit == forall|k: int| 0 <= k < j ==> s@[i + k] == t@[k],
            decreases m - j,
        {
            if s.get_char(i + j) != t.get_char(j) {
                hit = false;
                assert(!(forall|k: int| 0 <= k < j + 1 ==> s@[i + k] == t@[k]));
            }
            j = j + 1;
        }
        if hit {
            assert(matches_at(s@, t@, i as int));
            return true;
        }
        i = i + 1;
    }
    assert(forall|k: int| 0 <= k <= n - m ==> !matches_at(s@, t@, k));
    false
}

/// `p` is a prefix of `s`.
pub open spec fn has_prefix(s: Seq<char>, p: Seq<char>) -> bool {
    p.len() <= s.len() && s.subrange(0, p.len() as int) == p
}

/// Prefix test.
pub fn str_has_prefix(s: &str, p: &str) -> (r: bool)
    ensures
        r == has_prefix(s@, p@),
{
    let n = s.unicode_len();
    let m = p.unicode_len();
    if m > n {
        return false;
    }
    let mut j: usize = 0;
    while j < m
        invariant
            m <= n,
            n == s@.len(),
            m == p@.len(),
            j <= m,
            forall|k: int| 0 <= k < j ==> s@[k] == p@[k],
        decreases m - j,
    {
        if s.get_char(j) != p.get_char(j) {
            assert(s@.subrange(0, m as int)[j as int] != p@[j as int]);
            return false;
        }
        j = j + 1;
    }
    assert(s@.subrange(0, m as int) =~= p@);
    true
}

} // verus!
