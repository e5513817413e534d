//! Header-list operations: case-insensitive lookup, and the
//! `Accept-Encoding` token logic that guarantees the backend may always
//! answer with unencoded bytes.

use vstd::prelude::*;
use crate::strutil::{
    eq_ignore_case, eq_ignore_case_str, is_space_char, lemma_trim_end_skip, lemma_trim_start_skip,
    trim, trim_spec,
};

verus! {

/// The view of a header list: a sequence of (name, value) character sequences.
pub open spec fn headers_view(hs: Seq<(String, String)>) -> Seq<(Seq<char>, Seq<char>)> {
    hs.map_values(|p: (String, String)| (p.0@, p.1@))
}

/// The value of the first header whose name matches `name_lc`
/// case-insensitively.
pub open spec fn find_header(hs: Seq<(Seq<char>, Seq<char>)>, name_lc: Seq<char>) -> Option<
    Seq<char>,
>
    decreases hs.len(),
{
    if hs.len() == 0 {
        None
    } else if eq_ignore_case(hs[0].0, name_lc) {
        Some(hs[0].1)
    } else {
        find_header(hs.drop_first(), name_lc)
    }
}

proof fn lemma_find_header_skip(hs: Seq<(Seq<char>, Seq<char>)>, name_lc: Seq<char>, i: int)
    requires
        0 <= i <= hs.len(),
        forall|k: int| 0 <= k < i ==> !eq_ignore_case(hs[k].0, name_lc),
    ensures
        find_header(hs, name_lc) == find_header(hs.skip(i), name_lc),
    decreases i,
{
    if i > 0 {
        assert(!eq_ignore_case(hs[0].0, name_lc));
        lemma_find_header_skip(hs.drop_first(), name_lc, i - 1);
        assert(hs.drop_first().skip(i - 1) =~= hs.skip(i));
    } else {
        assert(hs.skip(0) =~= hs);
    }
}

/// Finds the first header whose name matches `name_lc` case-insensitively.
pub fn get_header_value<'a>(headers: &'a Vec<(String, String)>, name_lc: &str) -> (r: Option<
    &'a String,
>)
    ensures
        match r {
            Some(v) => find_header(headers_view(headers@), name_lc@) == Some(v@),
            None => find_header(headers_view(headers@), name_lc@) is None,
        },
{
    let ghost hv = headers_view(headers@);
    let n = headers.len();
    let mut i: usize = 0;
    while i < n
        invariant
            n == headers@.len(),
            hv == headers_view(headers@),
            hv.len() == n,
            0 <= i <= n,
            forall|k: int| 0 <= k < i ==> !eq_ignore_case(hv[k].0, name_lc@),
        decreases n - i,
    {
        if eq_ignore_case_str(headers[i].0.as_str(), name_lc) {
            proof {
                lemma_find_header_skip(hv, name_lc@, i as int);
                assert(hv.skip(i as int)[0] == hv[i as int]);
            }
            return Some(&headers[i].1);
        }
        i += 1;
    }
    proof {
        lemma_find_header_skip(hv, name_lc@, n as int);
        assert(hv.skip(n as int).len() == 0);
    }
    None
}

/// Clones a header list; the clone has the same view.
pub fn clone_headers(hs: &Vec<(String, String)>) -> (r: Vec<(String, String)>)
    ensures
        headers_view(r@) == headers_view(hs@),
{
    let n = hs.len();
    let mut out: Vec<(String, String)> = Vec::new();
    let mut i: usize = 0;
    while i < n
        invariant
            n == hs@.len(),
            0 <= i <= n,
            out@.len() == i,
            forall|k: int| 0 <= k < i ==> out@[k].0@ == hs@[k].0@ && out@[k].1@ == hs@[k].1@,
        decreases n - i,
    {
        out.push((hs[i].0.clone(), hs[i].1.clone()));
        i += 1;
    }
    proof {
        assert(headers_view(out@) =~= headers_view(hs@));
    }
    out
}

/// `i` and `j` delimit one comma-separated token of `s`.
pub open spec fn token_bounds(s: Seq<char>, i: int, j: int) -> bool {
    &&& 0 <= i <= j <= s.len()
    &&& (i == 0 || s[i - 1] == ',')
    &&& (j == s.len() || s[j] == ',')
    &&& forall|k: int| i <= k < j ==> s[k] != ','
}

/// A token that reads `identity` once trimmed, compared case-insensitively.
pub open spec fn is_identity_token(t: Seq<char>) -> bool {
    eq_ignore_case(trim_spec(t), "identity"@)
}

/// Some comma-separated token of `s` is `identity`.
pub open spec fn has_identity_token(s: Seq<char>) -> bool {
    exists|i: int, j: int| token_bounds(s, i, j) && is_identity_token(s.subrange(i, j))
}

/// A token's start is determined by its end: both runs are comma-free and
/// start right after a comma (or at the start of the sequence).
proof fn lemma_token_start_unique(s: Seq<char>, start: int, i: int, j: int)
    requires
        token_bounds(s, i, j),
        0 <= start <= j,
        start == 0 || s[start - 1] == ',',
        forall|k: int| start <= k < j ==> s[k] != ',',
    ensures
        i == start,
{
    if i < start {
        assert(s[start - 1] == ',');
        assert(i <= start - 1 < j);
    } else if i > start {
        assert(s[i - 1] == ',');
        assert(start <= i - 1 < j);
    }
}

fn token_matches_identity(t: &str) -> (r: bool)
    ensures
        r == is_identity_token(t@),
{
    eq_ignore_case_str(trim(t), "identity")
}

/// Reports whether some comma-separated token of `value` is `identity`,
/// ignoring surrounding whitespace and ASCII case.
pub fn contains_identity(value: &str) -> (r: bool)
    ensures
        r == has_identity_token(value@),
{
    let ghost s = value@;
    let n = value.unicode_len();
    let mut start: usize = 0;
    let mut k: usize = 0;
    while k < n
        invariant
            n == s.len(),
            s == value@,
            0 <= start <= k <= n,
            start == 0 || s[start as int - 1] == ',',
            forall|m: int| start <= m < k ==> s[m] != ',',
            forall|i: int, j: int|
                token_bounds(s, i, j) && j < k ==> !is_identity_token(s.subrange(i, j)),
        decreases n - k,
    {
        if value.get_char(k) == ',' {
            let token = value.substring_char(start, k);
            if token_matches_identity(token) {
                proof {
                    assert(token_bounds(s, start as int, k as int));
                }
                return true;
            }
            proof {
                assert forall|i: int, j: int|
                    token_bounds(s, i, j) && j < k + 1 implies !is_identity_token(
                    s.subrange(i, j),
                ) by {
                    if j == k {
                        lemma_token_start_unique(s, start as int, i, j);
                    }
                }
            }
            start = k + 1;
        } else {
            proof {
                assert forall|i: int, j: int|
                    token_bounds(s, i, j) && j < k + 1 implies !is_identity_token(
                    s.subrange(i, j),
                ) by {
                    if j == k {
                        assert(s[j] != ',');
                        assert(false);
                    }
                }
            }
        }
        k += 1;
    }
    let token = value.substring_char(start, n);
    if token_matches_identity(token) {
        proof {
            assert(token_bounds(s, start as int, n as int));
        }
        return true;
    }
    proof {
        assert forall|i: int, j: int| token_bounds(s, i, j) implies !is_identity_token(
            s.subrange(i, j),
        ) by {
            if j == n {
                lemma_token_start_unique(s, start as int, i, j);
            }
        }
    }
    false
}

/// The `Accept-Encoding` value with `, identity` appended unless some token
/// already is `identity`.
pub open spec fn normalize_accept_encoding(v: Seq<char>) -> Seq<char> {
    if has_identity_token(v) {
        v
    } else {
        v + ", identity"@
    }
}

proof fn lemma_append_identity(v: Seq<char>)
    ensures
        has_identity_token(v + ", identity"@),
{
    reveal_strlit(", identity");
    reveal_strlit("identity");
    let lit = ", identity"@;
    let s = v + lit;
    let i = v.len() as int + 1;
    let j = s.len() as int;
    assert(s[i - 1] == ',');
    assert forall|k: int| i <= k < j implies s[k] != ',' by {
        assert(s[k] == lit[k - v.len()]);
    }
    assert(token_bounds(s, i, j));
    let t = s.subrange(i, j);
    assert(t =~= lit.subrange(1, 10));
    assert(is_space_char(t[0]));
    assert(!is_space_char(t[1]));
    lemma_trim_start_skip(t, 1);
    let u = t.subrange(1, 9);
    assert(!is_space_char(u[u.len() - 1]));
    lemma_trim_end_skip(u, u.len() as int);
    assert(u.subrange(0, u.len() as int) =~= u);
    assert(trim_spec(t) == u);
    assert(u =~= "identity"@);
    assert(is_identity_token(t));
}

/// A normalized `Accept-Encoding` value always carries an `identity` token.
pub proof fn lemma_normalize_has_identity(v: Seq<char>)
    ensures
        has_identity_token(normalize_accept_encoding(v)),
{
    if !has_identity_token(v) {
        lemma_append_identity(v);
    }
}

/// Returns `value`, with `, identity` appended when no token of `value`
/// already is `identity`.
pub fn ensure_identity(value: &String) -> (r: String)
    ensures
        r@ == normalize_accept_encoding(value@),
        has_identity_token(r@),
{
    if contains_identity(value.as_str()) {
        value.clone()
    } else {
        let r = value.clone().concat(", identity");
        proof {
            lemma_append_identity(value@);
        }
        r
    }
}

} // verus!
