//! Query-string model: the ordered list of `name=value` pairs, and the value
//! of the first pair with a given name.
//!
//! A query splits on `&` into segments, in order; each segment splits at its
//! first `=` into a name and a value, the value being empty when no `=` is
//! present. No decoding is applied: names and values are the literal
//! characters of the activation URI.

use vstd::prelude::*;
use vstd::string::*;
use crate::chars::{find_in_range, first_index, lemma_first_index_at, lemma_first_index_skip, str_eq};

verus! {

/// The name and value of one query segment.
pub open spec fn spec_pair(p: Seq<char>) -> (Seq<char>, Seq<char>) {
    let e = first_index(p, '=') as int;
    if e < p.len() {
        (p.take(e), p.skip(e + 1))
    } else {
        (p, Seq::empty())
    }
}

/// The ordered pairs of a query string.
pub open spec fn spec_pairs(q: Seq<char>) -> Seq<(Seq<char>, Seq<char>)>
    decreases q.len(),
{
    if q.len() == 0 {
        Seq::empty()
    } else {
        let a = first_index(q, '&') as int;
        if a < q.len() {
            seq![spec_pair(q.take(a))] + spec_pairs(q.skip(a + 1))
        } else {
            seq![spec_pair(q)]
        }
    }
}

/// The value of the first pair named `name`, if any pair has that name.
pub open spec fn spec_first_value(
    ps: Seq<(Seq<char>, Seq<char>)>,
    name: Seq<char>,
) -> Option<Seq<char>>
    decreases ps.len(),
{
    if ps.len() == 0 {
        None
    } else if ps[0].0 == name {
        Some(ps[0].1)
    } else {
        spec_first_value(ps.drop_first(), name)
    }
}

/// The first pair with the wanted name wins: whatever pairs stand before it
/// (under other names) or after it (under any name), the value delivered is
/// that pair's value.
pub proof fn lemma_first_value_at(ps: Seq<(Seq<char>, Seq<char>)>, name: Seq<char>, i: int)
    requires
        0 <= i < ps.len(),
        ps[i].0 == name,
        forall|j: int| 0 <= j < i ==> ps[j].0 != name,
    ensures
        spec_first_value(ps, name) == Some(ps[i].1),
    decreases ps.len(),
{
    if i > 0 {
        assert forall|j: int| 0 <= j < i - 1 implies ps.drop_first()[j].0 != name by {
            assert(ps.drop_first()[j] == ps[j + 1]);
        }
        lemma_first_value_at(ps.drop_first(), name, i - 1);
    }
}

/// When no pair has the wanted name, no value is delivered.
pub proof fn lemma_first_value_none(ps: Seq<(Seq<char>, Seq<char>)>, name: Seq<char>)
    requires
        forall|j: int| 0 <= j < ps.len() ==> ps[j].0 != name,
    ensures
        spec_first_value(ps, name) is None,
    decreases ps.len(),
{
    if ps.len() > 0 {
        assert forall|j: int| 0 <= j < ps.drop_first().len() implies ps.drop_first()[j].0
            != name by {
            assert(ps.drop_first()[j] == ps[j + 1]);
        }
        lemma_first_value_none(ps.drop_first(), name);
    }
}

/// The value of the first query parameter named `name`, walking the pairs in
/// their original order; nothing when no parameter has that name.
pub fn first_value(q: &str, name: &str) -> (r: Option<String>)
    ensures
        (r matches Some(v) ==> spec_first_value(spec_pairs(q@), name@) == Some(v@)),
        (r is None ==> spec_first_value(spec_pairs(q@), name@) is None),
{
    let n = q.unicode_len();
    let mut pos: usize = 0;
    proof {
        assert(q@.skip(0) =~= q@);
    }
    loop
        invariant
            pos <= n,
            n == q@.len(),
            spec_first_value(spec_pairs(q@), name@) == spec_first_value(
                spec_pairs(q@.skip(pos as int)),
                name@,
            ),
        decreases n - pos,
    {
        if pos == n {
            proof {
                assert(q@.skip(pos as int).len() == 0);
            }
            return None;
        }
        let e = find_in_range(q, pos, n, '&');
        let m = find_in_range(q, pos, e, '=');
        let name_part = q.substring_char(pos, m);
        let ghost s = q@;
        let ghost sk = s.skip(pos as int);
        let ghost a = e - pos;
        let ghost ps = spec_pairs(sk);
        proof {
            lemma_first_index_skip(s, '&', pos as int, e as int);
            let seg = if a < sk.len() {
                sk.take(a)
            } else {
                sk
            };
            assert(seg =~= s.subrange(pos as int, e as int));
            assert(ps == seq![spec_pair(seg)] + if a < sk.len() {
                spec_pairs(sk.skip(a + 1))
            } else {
                Seq::<(Seq<char>, Seq<char>)>::empty()
            });
            assert forall|j: int| 0 <= j < m - pos implies seg[j] != '=' by {
                assert(seg[j] == s[j + pos]);
            }
            assert(m - pos < seg.len() ==> seg[m - pos] == '=');
            lemma_first_index_at(seg, '=', m - pos);
            if (m as int) < e {
                assert(spec_pair(seg).0 =~= s.subrange(pos as int, m as int));
                assert forall|j: int| 0 <= j < e - m - 1 implies (#[trigger] spec_pair(seg).1[j]
                    == s[j + m + 1]) by {
                    assert(spec_pair(seg).1[j] == seg[j + (m - pos) + 1]);
                }
                assert(spec_pair(seg).1 =~= s.subrange(m as int + 1, e as int));
            } else {
                assert(spec_pair(seg).0 =~= s.subrange(pos as int, e as int));
                assert(spec_pair(seg).1 =~= Seq::<char>::empty());
            }
            assert(name_part@ =~= s.subrange(pos as int, m as int));
            assert(ps[0] == spec_pair(seg));
        }
        if str_eq(name_part, name) {
            let v = if m < e {
                q.substring_char(m + 1, e).to_owned()
            } else {
                String::new()
            };
            proof {
                if (m as int) < e {
                    assert(v@ =~= s.subrange(m as int + 1, e as int));
                } else {
                    assert(name_part@ =~= s.subrange(pos as int, e as int));
                }
                assert(ps[0].0 == name@);
                assert(spec_first_value(ps, name@) == Some(ps[0].1));
                assert(ps[0].1 == v@);
            }
            return Some(v);
        }
        proof {
            assert(ps[0].0 != name@);
            assert(spec_first_value(ps, name@) == spec_first_value(ps.drop_first(), name@));
        }
        if e == n {
            proof {
                assert(ps.drop_first() =~= Seq::<(Seq<char>, Seq<char>)>::empty());
            }
            return None;
        }
        proof {
            assert(ps.drop_first() =~= spec_pairs(sk.skip(a + 1)));
            assert(sk.skip(a + 1) =~= s.skip(e as int + 1));
        }
        pos = e + 1;
    }
}

} // verus!
