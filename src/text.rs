//! Small verified helpers over character sequences.

use vstd::prelude::*;

verus! {

/// True when `pat` occurs in `s` starting at position `at`.
pub open spec fn occurs_at(s: Seq<char>, pat: Seq<char>, at: int) -> bool {
    0 <= at && at + pat.len() <= s.len() && s.subrange(at, at + pat.len()) == pat
}

/// True when `pat` occurs anywhere in `s`.
pub open spec fn occurs_in(s: Seq<char>, pat: Seq<char>) -> bool {
    exists|at: int| occurs_at(s, pat, at)
}

/// Character-wise equality of two strings.
pub fn text_equals(a: &str, b: &str) -> (r: bool)
    ensures
        r == (a@ == b@),
{
    let n = a.unicode_len();
    if n != b.unicode_len() {
        return false;
    }
    let mut i: usize = 0;
    while i < n
        invariant
            n == a@.len(),
            n == b@.len(),
            i <= n,
            a@.subrange(0, i as int) == b@.subrange(0, i as int),
        decreases n - i,
    {
        if a.get_char(i) != b.get_char(i) {
            assert(a@[i as int] != b@[i as int]);
            return false;
        }
        assert(a@.subrange(0, i + 1) == a@.subrange(0, i as int).push(a@[i as int]));
        assert(b@.subrange(0, i + 1) == b@.subrange(0, i as int).push(b@[i as int]));
        i = i + 1;
    }
    assert(a@ == a@.subrange(0, n as int));
    assert(b@ == b@.subrange(0, n as int));
    true
}

/// Whether `pat` occurs in `s` as a contiguous run of characters.
pub fn contains_text(s: &str, pat: &str) -> (r: bool)
    ensures
        r == occurs_in(s@, pat@),
{
    let n = s.unicode_len();
    let m = pat.unicode_len();
    if m > n {
        assert forall|at: int| !occurs_at(s@, pat@, at) by {}
        return false;
    }
    if m == 0 {
        assert(s@.subrange(0, 0) == pat@);
        assert(occurs_at(s@, pat@, 0));
        return true;
    }
    let mut start: usize = 0;
    while start <= n - m
        invariant
            n == s@.len(),
            m == pat@.len(),
            0 < m <= n,
            start <= n - m + 1,
            forall|at: int| 0 <= at < start ==> !occurs_at(s@, pat@, at),
        decreases n - m + 1 - start,
    {
        let mut k: usize = 0;
        let mut matched = true;
        while k < m
            invariant
                n == s@.len(),
                m == pat@.len(),
                start + m <= n,
                k <= m,
                matched ==> s@.subrange(start as int, start + k) == pat@.subrange(0, k as int),
                !matched ==> !occurs_at(s@, pat@, start as int),
            decreases m - k,
        {
            if matched {
                if s.get_char(start + k) != pat.get_char(k) {
                    assert(s@.subrange(start as int, start + m)[k as int] != pat@[k as int]);
                    matched = false;
                } else {
                    assert(s@.subrange(start as int, start + k + 1) == s@.subrange(
                        start as int,
                        start + k,
                    ).push(s@[start + k]));
                    assert(pat@.subrange(0, k + 1) == pat@.subrange(0, k as int).push(
                        pat@[k as int],
                    ));
                }
            }
            k = k + 1;
        }
        if matched {
            assert(pat@.subrange(0, m as int) == pat@);
            assert(occurs_at(s@, pat@, start as int));
            return true;
        }
        start = start + 1;
    }
    assert forall|at: int| !occurs_at(s@, pat@, at) by {
        if 0 <= at && at + m <= n {
            assert(at < start);
        }
    }
    false
}

} // verus!
