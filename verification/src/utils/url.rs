//! Joining the API base with a path, and the path that signatures cover.

use vstd::prelude::*;

use crate::text::{split, split_char, views_of, lemma_split_nonempty};

verus! {

/// `s` without its leading `c`s.
pub open spec fn strip_leading(s: Seq<char>, c: char) -> Seq<char>
    decreases s.len(),
{
    if s.len() > 0 && s[0] == c {
        strip_leading(s.drop_first(), c)
    } else {
        s
    }
}

/// `s` without its trailing `c`s.
pub open spec fn strip_trailing(s: Seq<char>, c: char) -> Seq<char>
    decreases s.len(),
{
    if s.len() > 0 && s.last() == c {
        strip_trailing(s.drop_last(), c)
    } else {
        s
    }
}

pub proof fn lemma_strip_leading_skip(s: Seq<char>, c: char, i: int)
    requires
        0 <= i <= s.len(),
        forall|k: int| 0 <= k < i ==> s[k] == c,
        i == s.len() || s[i] != c,
    ensures
        strip_leading(s, c) == s.skip(i),
    decreases i,
{
    if i == 0 {
        assert(s.skip(0) =~= s);
    } else {
        let t = s.drop_first();
        assert forall|k: int| 0 <= k < i - 1 implies t[k] == c by {
            assert(t[k] == s[k + 1]);
        }
        if i < s.len() {
            assert(t[i - 1] == s[i]);
        }
        lemma_strip_leading_skip(t, c, i - 1);
        assert(t.skip(i - 1) =~= s.skip(i));
    }
}

pub proof fn lemma_strip_trailing_take(s: Seq<char>, c: char, j: int)
    requires
        0 <= j <= s.len(),
        forall|k: int| j <= k < s.len() ==> s[k] == c,
        j == 0 || s[j - 1] != c,
    ensures
        strip_trailing(s, c) == s.take(j),
    decreases s.len() - j,
{
    if j == s.len() {
        assert(s.take(j) =~= s);
    } else {
        let t = s.drop_last();
        assert forall|k: int| j <= k < t.len() implies t[k] == c by {
            assert(t[k] == s[k]);
        }
        if j > 0 {
            assert(t[j - 1] == s[j - 1]);
        }
        lemma_strip_trailing_take(t, c, j);
        assert(t.take(j) =~= s.take(j));
    }
}

/// Stripping trailing `c`s keeps a prefix that does not end in `c`.
pub proof fn lemma_strip_trailing_prefix(s: Seq<char>, c: char)
    ensures
        strip_trailing(s, c).len() <= s.len(),
        forall|k: int| 0 <= k < strip_trailing(s, c).len() ==> strip_trailing(s, c)[k] == s[k],
        strip_trailing(s, c).len() == 0 || strip_trailing(s, c).last() != c,
    decreases s.len(),
{
    if s.len() > 0 && s.last() == c {
        let t = s.drop_last();
        lemma_strip_trailing_prefix(t, c);
        assert forall|k: int| 0 <= k < strip_trailing(s, c).len() implies strip_trailing(s, c)[k]
            == s[k] by {
            assert(t[k] == s[k]);
        }
    }
}

/// `base.trim_end_matches('/') + "/" + path.trim_start_matches('/')`.
pub open spec fn joined_url(base: Seq<char>, path: Seq<char>) -> Seq<char> {
    strip_trailing(base, '/') + seq!['/'] + strip_leading(path, '/')
}

/// Joins the base address and an endpoint path with exactly one `/`.
pub fn join_base_and_path(base: &str, path: &str) -> (r: String)
    ensures
        r@ == joined_url(base@, path@),
{
    let n = base.unicode_len();
    let mut j: usize = n;
    while j > 0 && base.get_char(j - 1) == '/'
        invariant
            n == base@.len(),
            j <= n,
            forall|k: int| j <= k < n ==> base@[k] == '/',
        decreases j,
    {
        j = j - 1;
    }
    let m = path.unicode_len();
    let mut i: usize = 0;
    while i < m && path.get_char(i) == '/'
        invariant
            m == path@.len(),
            i <= m,
            forall|k: int| 0 <= k < i ==> path@[k] == '/',
        decreases m - i,
    {
        i = i + 1;
    }
    proof {
        lemma_strip_trailing_take(base@, '/', j as int);
        lemma_strip_leading_skip(path@, '/', i as int);
        reveal_strlit("/");
    }
    let mut out = base.substring_char(0, j).to_owned();
    out.append("/");
    out.append(path.substring_char(i, m));
    proof {
        assert(base@.subrange(0, j as int) =~= base@.take(j as int));
        assert(path@.subrange(i as int, m as int) =~= path@.skip(i as int));
        assert(out@ =~= joined_url(base@, path@));
    }
    out
}

/// The path of `s` when it parses as an absolute URL (`Url::parse(s)` then
/// `path()`), or `None` when it does not parse.
pub uninterp spec fn url_path(s: Seq<char>) -> Option<Seq<char>>;

/// `reqwest::Url::parse(s).map(|u| u.path())`; the outcome is named, not
/// stated.
#[verifier::external_body]
fn parse_url_path(s: &str) -> (r: Option<String>)
    ensures
        match r {
            Some(p) => url_path(s@) == Some(p@),
            None => url_path(s@) is None,
        },
{
    match reqwest::Url::parse(s) {
        Ok(u) => Some(u.path().to_string()),
        Err(_) => None,
    }
}

/// The text before the first `?` (all of it if there is none).
pub open spec fn before_query(s: Seq<char>) -> Seq<char> {
    split(s, '?')[0]
}

/// The signed base of a URL or path, given how it parses as a URL: the
/// parsed path, or else the text before the query, followed by `?sign=`.
pub open spec fn sign_path_spec(url_or_path: Seq<char>, parsed: Option<Seq<char>>) -> Seq<char> {
    match parsed {
        Some(p) => p + "?sign="@,
        None => before_query(url_or_path) + "?sign="@,
    }
}

/// The signed base from an already parsed path (see `sign_path_spec`).
pub fn sign_path_from(url_or_path: &str, parsed: Option<String>) -> (r: String)
    ensures
        r@ == sign_path_spec(
            url_or_path@,
            match parsed {
                Some(p) => Some(p@),
                None => None,
            },
        ),
{
    match parsed {
        Some(p) => {
            let mut out = p;
            out.append("?sign=");
            out
        },
        None => {
            let pieces = split_char(url_or_path, '?');
            proof {
                lemma_split_nonempty(url_or_path@, '?');
                assert(views_of(pieces@)[0] == pieces@[0]@);
            }
            let mut out = pieces[0].to_owned();
            out.append("?sign=");
            out
        },
    }
}

/// The URL base that signatures cover: the query is dropped and `?sign=`
/// appended; absolute URLs are reduced to their path, anything else is taken
/// as a path.
pub fn to_sign_path(url_or_path: &str) -> (r: String)
    ensures
        r@ == sign_path_spec(url_or_path@, url_path(url_or_path@)),
{
    let parsed = parse_url_path(url_or_path);
    sign_path_from(url_or_path, parsed)
}

} // verus!
