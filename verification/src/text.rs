//! Verified string predicates the classifier is built from: exact equality,
//! suffix matching, substring search, and ASCII case-insensitive equality.
//! Each executable function returns exactly the value of its spec-level
//! counterpart over the strings' character sequences.

use vstd::prelude::*;

verus! {

/// `suffix` is the final segment of `s`.
pub open spec fn spec_ends_with(s: Seq<char>, suffix: Seq<char>) -> bool {
    suffix.len() <= s.len() && s.subrange(s.len() - suffix.len(), s.len() as int) == suffix
}

/// `sub` occurs somewhere inside `s` as a contiguous run of characters.
pub open spec fn spec_contains_sub(s: Seq<char>, sub: Seq<char>) -> bool {
    exists|k: int| 0 <= k <= s.len() - sub.len() && #[trigger] s.subrange(k, k + sub.len()) == sub
}

/// `a` and `b` are the same character up to ASCII case: equal outright, or an
/// ASCII letter paired with its other case (the two cases differ by 32 in
/// code-point value).
pub open spec fn char_ieq(a: char, b: char) -> bool {
    a == b
    || (('A' as int) <= a as int && a as int <= ('Z' as int) && b as int == a as int + 32)
    || (('A' as int) <= b as int && b as int <= ('Z' as int) && a as int == b as int + 32)
}

/// `a` and `b` are equal up to ASCII case, character by character.
pub open spec fn seq_ieq(a: Seq<char>, b: Seq<char>) -> bool {
    a.len() == b.len() && forall|i: int| 0 <= i < a.len() ==> char_ieq(a[i], b[i])
}

/// Exact string equality, decided character by character.
pub fn str_eq(a: &str, b: &str) -> (r: bool)
    ensures
        r == (a@ == b@),
{
    let alen = a.unicode_len();
    let blen = b.unicode_len();
    if alen != blen {
        return false;
    }
    let mut i: usize = 0;
    while i < alen
        invariant
            alen == a@.len(),
            alen == b@.len(),
            i <= alen,
            forall|j: int| 0 <= j < i ==> a@[j] == b@[j],
        decreases alen - i,
    {
        if a.get_char(i) != b.get_char(i) {
            return false;
        }
        i += 1;
    }
    proof {
        assert(a@ =~= b@);
    }
    true
}

/// Whether `s` ends with `suffix`.
pub fn str_ends_with(s: &str, suffix: &str) -> (r: bool)
    ensures
        r == spec_ends_with(s@, suffix@),
{
    let n = s.unicode_len();
    let m = suffix.unicode_len();
    if m > n {
        return false;
    }
    let off = n - m;
    let mut i: usize = 0;
    while i < m
        invariant
            n == s@.len(),
            m == suffix@.len(),
            m <= n,
            off == n - m,
            i <= m,
            forall|j: int| 0 <= j < i ==> s@[off + j] == suffix@[j],
        decreases m - i,
    {
        if s.get_char(off + i) != suffix.get_char(i) {
            proof {
                let tail = s@.subrange(off as int, n as int);
                assert(tail[i as int] == s@[off + i]);
            }
            return false;
        }
        i += 1;
    }
    proof {
        assert(s@.subrange(off as int, n as int) =~= suffix@);
    }
    true
}

/// Whether the characters of `s` starting at `k` read exactly as `sub`.
fn str_matches_at(s: &str, sub: &str, k: usize) -> (r: bool)
    requires
        k + sub@.len() <= s@.len(),
    ensures
        r == (s@.subrange(k as int, k + sub@.len()) == sub@),
{
    let n = s.unicode_len();
    let m = sub.unicode_len();
    let mut i: usize = 0;
    while i < m
        invariant
            n == s@.len(),
            m == sub@.len(),
            k + m <= n,
            i <= m,
            forall|j: int| 0 <= j < i ==> s@[k + j] == sub@[j],
        decreases m - i,
    {
        if s.get_char(k + i) != sub.get_char(i) {
            proof {
                let window = s@.subrange(k as int, k + sub@.len());
                assert(window[i as int] == s@[k + i]);
            }
            return false;
        }
        i += 1;
    }
    proof {
        assert(s@.subrange(k as int, k + sub@.len()) =~= sub@);
    }
    true
}

/// Whether `sub` occurs inside `s` as a substring.
pub fn str_contains(s: &str, sub: &str) -> (r: bool)
    ensures
        r == spec_contains_sub(s@, sub@),
{
    let n = s.unicode_len();
    let m = sub.unicode_len();
    if m > n {
        return false;
    }
    if m == 0 {
        proof {
            assert(s@.subrange(0, 0 + sub@.len() as int) =~= sub@);
        }
        return true;
    }
    let mut k: usize = 0;
    while k <= n - m
        invariant
            n == s@.len(),
            m == sub@.len(),
            1 <= m <= n,
            k <= n - m + 1,
            forall|j: int| 0 <= j < k ==> #[trigger] s@.subrange(j, j + sub@.len()) != sub@,
        decreases n - m - k + 1,
    {
        if str_matches_at(s, sub, k) {
            return true;
        }
        k += 1;
    }
    false
}

/// Whether `a` and `b` agree up to the case of ASCII letters.
pub fn str_ieq(a: &str, b: &str) -> (r: bool)
    ensures
        r == seq_ieq(a@, b@),
{
    let alen = a.unicode_len();
    let blen = b.unicode_len();
    if alen != blen {
        return false;
    }
    let mut i: usize = 0;
    while i < alen
        invariant
            alen == a@.len(),
            alen == b@.len(),
            i <= alen,
            forall|j: int| 0 <= j < i ==> char_ieq(a@[j], b@[j]),
        decreases alen - i,
    {
        let x = a.get_char(i);
        let y = b.get_char(i);
        let xc = x as u32;
        let yc = y as u32;
        let same = x == y
            || (65 <= xc && xc <= 90 && yc == xc + 32)
            || (65 <= yc && yc <= 90 && xc == yc + 32);
        if !same {
            return false;
        }
        i += 1;
    }
    true
}

} // verus!
