//! Substring search over character sequences: the lexical ground layer of the
//! shape recognizer. Specifications are stated over `Seq<char>`; the
//! executable functions scan characters one at a time.

use vstd::prelude::*;
use vstd::string::StrSliceExecFns;

verus! {

/// The pattern `p` occurs in `s` starting at character position `i`.
pub open spec fn occurs_at(s: Seq<char>, p: Seq<char>, i: int) -> bool {
    0 <= i && i + p.len() <= s.len() && s.subrange(i, i + p.len() as int) == p
}

/// The pattern `p` occurs somewhere in `s`.
pub open spec fn contains(s: Seq<char>, p: Seq<char>) -> bool {
    exists|i: int| occurs_at(s, p, i)
}

/// Position of the last occurrence of `p` in `s` that starts at or before
/// `j`, or -1 if there is none.
pub open spec fn rfind_at_or_before(s: Seq<char>, p: Seq<char>, j: int) -> int
    decreases j + 1,
{
    if j < 0 {
        -1
    } else if occurs_at(s, p, j) {
        j
    } else {
        rfind_at_or_before(s, p, j - 1)
    }
}

/// Position of the first occurrence of `p` in `s` that starts at or after
/// `i`, or -1 if there is none.
pub open spec fn find_at_or_after(s: Seq<char>, p: Seq<char>, i: int) -> int
    decreases s.len() - i + 1,
{
    if i < 0 {
        find_at_or_after(s, p, 0)
    } else if i + p.len() > s.len() {
        -1
    } else if occurs_at(s, p, i) {
        i
    } else {
        find_at_or_after(s, p, i + 1)
    }
}

/// What `rfind_at_or_before` returns: either -1 and no occurrence at or
/// before `j`, or the greatest occurrence position at or before `j`.
pub proof fn lemma_rfind_at_or_before(s: Seq<char>, p: Seq<char>, j: int)
    ensures
        rfind_at_or_before(s, p, j) == -1 ==> forall|k: int|
            k <= j ==> !occurs_at(s, p, k),
        rfind_at_or_before(s, p, j) != -1 ==> {
            let r = rfind_at_or_before(s, p, j);
            &&& 0 <= r <= j
            &&& occurs_at(s, p, r)
            &&& forall|k: int| r < k <= j ==> !occurs_at(s, p, k)
        },
    decreases j + 1,
{
    if j < 0 {
    } else if occurs_at(s, p, j) {
    } else {
        lemma_rfind_at_or_before(s, p, j - 1);
    }
}

/// What `find_at_or_after` returns: either -1 and no occurrence at or after
/// `i`, or the least occurrence position at or after `i`.
pub proof fn lemma_find_at_or_after(s: Seq<char>, p: Seq<char>, i: int)
    requires
        0 <= i,
    ensures
        find_at_or_after(s, p, i) == -1 ==> forall|k: int|
            i <= k ==> !occurs_at(s, p, k),
        find_at_or_after(s, p, i) != -1 ==> {
            let r = find_at_or_after(s, p, i);
            &&& i <= r
            &&& r + p.len() <= s.len()
            &&& occurs_at(s, p, r)
            &&& forall|k: int| i <= k < r ==> !occurs_at(s, p, k)
        },
    decreases s.len() - i + 1,
{
    if i + p.len() > s.len() {
        assert forall|k: int| i <= k implies !occurs_at(s, p, k) by {}
    } else if occurs_at(s, p, i) {
    } else {
        lemma_find_at_or_after(s, p, i + 1);
    }
}

/// An occurrence of `p` at `j` pins down each character of `s` under it.
pub proof fn lemma_occurs_char(s: Seq<char>, p: Seq<char>, j: int, i: int)
    requires
        occurs_at(s, p, j),
        0 <= i < p.len(),
    ensures
        s[j + i] == p[i],
{
    assert(s.subrange(j, j + p.len() as int)[i] == s[j + i]);
}

/// Character-by-character test that `p` occurs in `s` at position `i`.
pub fn matches_at(s: &str, p: &str, i: usize) -> (r: bool)
    requires
        i + p@.len() <= s@.len(),
        s@.len() <= usize::MAX,
    ensures
        r == occurs_at(s@, p@, i as int),
{
    let m: usize = p.unicode_len();
    let mut k: usize = 0;
    while k < m
        invariant
            m == p@.len(),
            0 <= k <= m,
            i + m <= s@.len(),
            s@.len() <= usize::MAX,
            forall|k2: int| 0 <= k2 < k ==> s@[i as int + k2] == p@[k2],
        decreases m - k,
    {
        if s.get_char(i + k) != p.get_char(k) {
            assert(s@.subrange(i as int, i as int + m) != p@) by {
                assert(s@.subrange(i as int, i as int + m)[k as int] == s@[i as int
                    + k as int]);
            }
            return false;
        }
        k = k + 1;
    }
    assert(s@.subrange(i as int, i as int + m) =~= p@);
    true
}

/// Whether `i` is a position of `s` at which an occurrence of `p` fits, and
/// one occurs there.
pub fn occurs_at_exec(s: &str, n: usize, p: &str, m: usize, i: usize) -> (r: bool)
    requires
        n == s@.len(),
        m == p@.len(),
    ensures
        r == occurs_at(s@, p@, i as int),
{
    if m <= n && i <= n - m {
        matches_at(s, p, i)
    } else {
        false
    }
}

/// Exact equality of two strings, by characters.
pub fn str_eq(s: &str, p: &str) -> (r: bool)
    ensures
        r == (s@ == p@),
{
    let n: usize = s.unicode_len();
    let m: usize = p.unicode_len();
    if n != m {
        return false;
    }
    let r = matches_at(s, p, 0);
    assert(s@.subrange(0, n as int) =~= s@);
    r
}

/// Scan downward for the last occurrence of `p` at or before `j`.
pub fn rfind(s: &str, n: usize, p: &str, m: usize, j: usize) -> (r: Option<usize>)
    requires
        n == s@.len(),
        m == p@.len(),
    ensures
        match r {
            Some(v) => v == rfind_at_or_before(s@, p@, j as int),
            None => rfind_at_or_before(s@, p@, j as int) == -1,
        },
{
    let mut cur: usize = j;
    loop
        invariant
            n == s@.len(),
            m == p@.len(),
            0 <= cur <= j,
            rfind_at_or_before(s@, p@, j as int) == rfind_at_or_before(
                s@,
                p@,
                cur as int,
            ),
        decreases cur,
    {
        if occurs_at_exec(s, n, p, m, cur) {
            return Some(cur);
        }
        if cur == 0 {
            assert(rfind_at_or_before(s@, p@, -1) == -1);
            return None;
        }
        cur = cur - 1;
    }
}

/// Scan upward for the first occurrence of `p` at or after `i`.
pub fn find(s: &str, n: usize, p: &str, m: usize, i: usize) -> (r: Option<usize>)
    requires
        n == s@.len(),
        m == p@.len(),
        1 <= m,
    ensures
        match r {
            Some(v) => v == find_at_or_after(s@, p@, i as int),
            None => find_at_or_after(s@, p@, i as int) == -1,
        },
{
    if i > n {
        return None;
    }
    let mut cur: usize = i;
    loop
        invariant
            n == s@.len(),
            m == p@.len(),
            1 <= m,
            i <= cur,
            cur <= n,
            find_at_or_after(s@, p@, i as int) == find_at_or_after(
                s@,
                p@,
                cur as int,
            ),
        decreases n - cur,
    {
        if m > n - cur {
            return None;
        }
        if occurs_at_exec(s, n, p, m, cur) {
            return Some(cur);
        }
        cur = cur + 1;
    }
}

} // verus!
