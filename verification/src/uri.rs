//! Activation-URI grammar and parser.
//!
//! The shape consumed is `<scheme>://<host>/<path>?<query>`: the scheme is a
//! non-empty run of scheme characters ending at the first `:`, which must be
//! followed by `//`; the host runs to the first `/` or `?`; the path runs
//! from that `/` (inclusive) to the first `?`; the query is everything after
//! the first `?`. A string without that shape does not parse.

use vstd::prelude::*;
use vstd::string::*;
use crate::chars::{find_in_range, first_index, lemma_first_index_at, lemma_first_index_skip};

verus! {

/// The parsed components of an activation URI, as character sequences.
#[verifier::ext_equal]
pub struct UriParts {
    pub scheme: Seq<char>,
    pub host: Seq<char>,
    pub path: Seq<char>,
    pub query: Seq<char>,
}

/// Characters allowed in a URI scheme after the first one.
pub open spec fn is_scheme_char(c: char) -> bool {
    ('a' <= c && c <= 'z') || ('0' <= c && c <= '9') || c == '+' || c == '-' || c == '.'
}

/// A scheme token: non-empty, starting with a lowercase letter, made of
/// scheme characters only. Such a token cannot contain `:` or `/`.
pub open spec fn is_valid_scheme(s: Seq<char>) -> bool {
    &&& s.len() > 0
    &&& 'a' <= s[0] && s[0] <= 'z'
    &&& forall|i: int| 0 <= i < s.len() ==> is_scheme_char(#[trigger] s[i])
}

/// What parsing an activation URI yields: the components when `s` has the
/// callback shape, nothing when it does not.
pub open spec fn spec_parse(s: Seq<char>) -> Option<UriParts> {
    let c = first_index(s, ':') as int;
    if c + 3 <= s.len() && s[c + 1] == '/' && s[c + 2] == '/' && is_valid_scheme(s.take(c)) {
        let r = s.skip(c + 3);
        let q = first_index(r, '?') as int;
        let before = r.take(q);
        let h = first_index(before, '/') as int;
        Some(
            UriParts {
                scheme: s.take(c),
                host: before.take(h),
                path: before.skip(h),
                query: if q < r.len() {
                    r.skip(q + 1)
                } else {
                    Seq::empty()
                },
            },
        )
    } else {
        None
    }
}

/// A parsed activation URI, owning its components.
pub struct CallbackUri {
    pub scheme: String,
    pub host: String,
    pub path: String,
    pub query: String,
}

impl View for CallbackUri {
    type V = UriParts;

    open spec fn view(&self) -> UriParts {
        UriParts {
            scheme: self.scheme@,
            host: self.host@,
            path: self.path@,
            query: self.query@,
        }
    }
}

/// Is `c` a scheme character?
pub fn scheme_char(c: char) -> (r: bool)
    ensures
        r == is_scheme_char(c),
{
    ('a' <= c && c <= 'z') || ('0' <= c && c <= '9') || c == '+' || c == '-' || c == '.'
}

/// Is `s` a valid scheme token?
pub fn valid_scheme(s: &str) -> (r: bool)
    ensures
        r == is_valid_scheme(s@),
{
    let n = s.unicode_len();
    if n == 0 {
        return false;
    }
    let c0 = s.get_char(0);
    if !('a' <= c0 && c0 <= 'z') {
        return false;
    }
    let mut i: usize = 0;
    while i < n
        invariant
            i <= n,
            n == s@.len(),
            forall|j: int| 0 <= j < i ==> is_scheme_char(#[trigger] s@[j]),
        decreases n - i,
    {
        if !scheme_char(s.get_char(i)) {
            return false;
        }
        i = i + 1;
    }
    true
}

/// Parse an activation URI. Returns the parsed components exactly when the
/// string has the callback shape of `spec_parse`.
pub fn parse(raw: &str) -> (r: Option<CallbackUri>)
    ensures
        (r matches Some(u) ==> spec_parse(raw@) == Some(u@)),
        (r is None ==> spec_parse(raw@) is None),
{
    let n = raw.unicode_len();
    let c = find_in_range(raw, 0, n, ':');
    proof {
        lemma_first_index_at(raw@, ':', c as int);
    }
    if n - c < 3 {
        return None;
    }
    if !(raw.get_char(c + 1) == '/' && raw.get_char(c + 2) == '/') {
        return None;
    }
    let scheme_part = raw.substring_char(0, c);
    proof {
        assert(scheme_part@ =~= raw@.take(c as int));
    }
    if !valid_scheme(scheme_part) {
        return None;
    }
    // The shape check of `spec_parse` holds; locate the query and the path.
    let q_abs = find_in_range(raw, c + 3, n, '?');
    let h_abs = find_in_range(raw, c + 3, q_abs, '/');
    let host_part = raw.substring_char(c + 3, h_abs);
    let path_part = raw.substring_char(h_abs, q_abs);
    let query_part = if q_abs < n {
        raw.substring_char(q_abs + 1, n).to_owned()
    } else {
        String::new()
    };
    let u = CallbackUri {
        scheme: scheme_part.to_owned(),
        host: host_part.to_owned(),
        path: path_part.to_owned(),
        query: query_part,
    };
    proof {
        let s = raw@;
        let ci = c as int;
        let r = s.skip(ci + 3);
        lemma_first_index_skip(s, '?', ci + 3, q_abs as int);
        let q = first_index(r, '?') as int;
        assert(q == q_abs - (ci + 3));
        let before = r.take(q);
        assert forall|j: int| 0 <= j < h_abs - (ci + 3) implies before[j] != '/' by {
            assert(before[j] == s[j + ci + 3]);
        }
        assert(h_abs - (ci + 3) < before.len() ==> before[h_abs - (ci + 3)] == s[h_abs as int]);
        lemma_first_index_at(before, '/', h_abs - (ci + 3));
        let h = first_index(before, '/') as int;
        let p = spec_parse(s)->Some_0;
        assert(u@.scheme =~= p.scheme);
        assert forall|j: int| 0 <= j < h implies before.take(h)[j] == s[j + ci + 3] by {
            assert(before.take(h)[j] == before[j]);
        }
        assert(u@.host =~= p.host);
        assert forall|j: int| 0 <= j < q - h implies before.skip(h)[j] == s[j + h_abs] by {
            assert(before.skip(h)[j] == before[j + h]);
        }
        assert(u@.path =~= p.path);
        if q_abs < n {
            assert forall|j: int| 0 <= j < s.len() - (q_abs + 1) implies (#[trigger] r.skip(q + 1)[j]
                == s[j + q_abs + 1]) by {
                assert(r.skip(q + 1)[j] == r[j + q + 1]);
                assert(r[j + q + 1] == s[j + q + 1 + ci + 3]);
            }
        }
        assert(u@.query =~= p.query);
        assert(u@ =~= p);
    }
    Some(u)
}

} // verus!
