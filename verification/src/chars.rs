//! Character-level helpers over `&str`: first-occurrence search, equality,
//! and prefix tests, each tied to a spec-level definition over `Seq<char>`.

use vstd::prelude::*;
use vstd::string::*;

verus! {

/// Index of the first occurrence of `c` in `s`, or `s.len()` when `c` does
/// not occur.
pub open spec fn first_index(s: Seq<char>, c: char) -> nat
    decreases s.len(),
{
    if s.len() == 0 {
        0
    } else if s[0] == c {
        0
    } else {
        (1 + first_index(s.drop_first(), c)) as nat
    }
}

/// `p` is a prefix of `s`.
pub open spec fn seq_starts_with(s: Seq<char>, p: Seq<char>) -> bool {
    p.len() <= s.len() && s.take(p.len() as int) == p
}

/// A position `k` with no occurrence of `c` before it, and `c` at it unless
/// `k` is the length, is exactly `first_index`.
pub proof fn lemma_first_index_at(s: Seq<char>, c: char, k: int)
    requires
        0 <= k <= s.len(),
        forall|j: int| 0 <= j < k ==> s[j] != c,
        k < s.len() ==> s[k] == c,
    ensures
        first_index(s, c) == k,
    decreases s.len(),
{
    if s.len() == 0 {
    } else if s[0] == c {
        assert(k == 0);
    } else {
        assert(k >= 1);
        assert forall|j: int| 0 <= j < k - 1 implies s.drop_first()[j] != c by {
            assert(s.drop_first()[j] == s[j + 1]);
        }
        assert(k - 1 < s.drop_first().len() ==> s.drop_first()[k - 1] == s[k]);
        lemma_first_index_at(s.drop_first(), c, k - 1);
    }
}

/// `first_index` on a suffix, located through positions of the whole string:
/// if `c` does not occur in `[from, k)` and occurs at `k` unless `k` is the
/// length, then on `s.skip(from)` the first occurrence is at `k - from`.
pub proof fn lemma_first_index_skip(s: Seq<char>, c: char, from: int, k: int)
    requires
        0 <= from <= k <= s.len(),
        forall|j: int| from <= j < k ==> s[j] != c,
        k < s.len() ==> s[k] == c,
    ensures
        first_index(s.skip(from), c) == k - from,
{
    assert forall|j: int| 0 <= j < k - from implies s.skip(from)[j] != c by {
        assert(s.skip(from)[j] == s[j + from]);
    }
    assert(k - from < s.skip(from).len() ==> s.skip(from)[k - from] == s[k]);
    lemma_first_index_at(s.skip(from), c, k - from);
}

/// First position of `c` in `s` within `[from, to)`, or `to` when `c` does
/// not occur there.
pub fn find_in_range(s: &str, from: usize, to: usize, c: char) -> (r: usize)
    requires
        from <= to,
        to <= s@.len(),
    ensures
        from <= r <= to,
        r < to ==> s@[r as int] == c,
        forall|j: int| from <= j < r ==> s@[j] != c,
{
    let mut i: usize = from;
    while i < to
        invariant
            from <= i <= to,
            to <= s@.len(),
            forall|j: int| from <= j < i ==> s@[j] != c,
        decreases to - i,
    {
        if s.get_char(i) == c {
            return i;
        }
        i = i + 1;
    }
    i
}

/// String equality at the character level.
pub fn str_eq(a: &str, b: &str) -> (r: bool)
    ensures
        r == (a@ == b@),
{
    let na = a.unicode_len();
    let nb = b.unicode_len();
    if na != nb {
        return false;
    }
    let mut i: usize = 0;
    while i < na
        invariant
            i <= na,
            na == a@.len(),
            nb == b@.len(),
            na == nb,
            forall|j: int| 0 <= j < i ==> a@[j] == b@[j],
        decreases na - i,
    {
        if a.get_char(i) != b.get_char(i) {
            return false;
        }
        i = i + 1;
    }
    proof {
        assert(a@ =~= b@);
    }
    true
}

/// Prefix test at the character level.
pub fn str_starts_with(a: &str, p: &str) -> (r: bool)
    ensures
        r == seq_starts_with(a@, p@),
{
    let na = a.unicode_len();
    let np = p.unicode_len();
    if np > na {
        return false;
    }
    let mut i: usize = 0;
    while i < np
        invariant
            i <= np,
            np <= na,
            na == a@.len(),
            np == p@.len(),
            forall|j: int| 0 <= j < i ==> a@[j] == p@[j],
        decreases np - i,
    {
        if a.get_char(i) != p.get_char(i) {
            proof {
                assert(a@.take(np as int)[i as int] == a@[i as int]);
            }
            return false;
        }
        i = i + 1;
    }
    proof {
        assert(a@.take(np as int) =~= p@);
    }
    true
}

} // verus!
