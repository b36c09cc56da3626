//! Trimming and joining of URL paths.
use vstd::prelude::*;
use vstd::string::*;
use crate::text::{chars_of, str_eq};

verus! {

/// `s` with every trailing `c` removed.
pub open spec fn trim_end_char(s: Seq<char>, c: char) -> Seq<char>
    decreases s.len(),
{
    if s.len() > 0 && s.last() == c {
        trim_end_char(s.drop_last(), c)
    } else {
        s
    }
}

/// `s` with every leading `c` removed.
pub open spec fn trim_start_char(s: Seq<char>, c: char) -> Seq<char>
    decreases s.len(),
{
    if s.len() > 0 && s[0] == c {
        trim_start_char(s.drop_first(), c)
    } else {
        s
    }
}

/// `s.trim_end_matches(c)`.
pub fn trim_end_matches_char(s: &str, c: char) -> (res: &str)
    ensures
        res@ == trim_end_char(s@, c),
{
    let v = chars_of(s);
    let mut k = v.len();
    assert(s@.take(k as int) =~= s@);
    while k > 0 && v[k - 1] == c
        invariant
            v@ == s@,
            k <= v@.len(),
            trim_end_char(s@, c) == trim_end_char(s@.take(k as int), c),
        decreases k,
    {
        assert(s@.take(k as int).drop_last() =~= s@.take(k - 1));
        k = k - 1;
    }
    s.substring_char(0, k)
}

/// `s.trim_start_matches(c)`.
pub fn trim_start_matches_char(s: &str, c: char) -> (res: &str)
    ensures
        res@ == trim_start_char(s@, c),
{
    let v = chars_of(s);
    let n = v.len();
    let mut k: usize = 0;
    assert(s@.skip(0) =~= s@);
    while k < n && v[k] == c
        invariant
            v@ == s@,
            n == v@.len(),
            k <= n,
            trim_start_char(s@, c) == trim_start_char(s@.skip(k as int), c),
        decreases n - k,
    {
        assert(s@.skip(k as int).drop_first() =~= s@.skip(k + 1));
        k = k + 1;
    }
    assert(s@.skip(k as int) =~= s@.subrange(k as int, n as int));
    s.substring_char(k, n)
}

/// `"{base without trailing /}/{path without leading /}"`.
pub open spec fn joined_path(base: Seq<char>, path: Seq<char>) -> Seq<char> {
    trim_end_char(base, '/') + seq!['/'] + trim_start_char(path, '/')
}

/// Joins two path pieces with exactly one slash between them.
pub fn join_paths(base: &str, path: &str) -> (res: String)
    ensures
        res@ == joined_path(base@, path@),
{
    let mut out = trim_end_matches_char(base, '/').to_owned();
    out.append("/");
    proof {
        reveal_strlit("/");
    }
    out.append(trim_start_matches_char(path, '/'));
    assert(out@ =~= joined_path(base@, path@));
    out
}

/// `s` ends with `suffix`.
pub open spec fn ends_with(s: Seq<char>, suffix: Seq<char>) -> bool {
    suffix.len() <= s.len() && s.skip(s.len() - suffix.len()) == suffix
}

/// The path prefix under which an Agent serves its API, given the path of an
/// Agent endpoint: trailing slashes are dropped, and so is a trace-intake
/// suffix (`/v0.4/traces`, `/v0.5/traces`, `/v1.0/traces`, first match).
pub open spec fn agent_path_prefix(base_path: Seq<char>) -> Seq<char> {
    let p = trim_end_char(base_path, '/');
    if ends_with(p, "/v0.4/traces"@) {
        p.take(p.len() - "/v0.4/traces"@.len())
    } else if ends_with(p, "/v0.5/traces"@) {
        p.take(p.len() - "/v0.5/traces"@.len())
    } else if ends_with(p, "/v1.0/traces"@) {
        p.take(p.len() - "/v1.0/traces"@.len())
    } else {
        p
    }
}

/// `s.strip_suffix(suffix)` on characters.
fn strip_suffix_chars<'a>(s: &'a str, suffix: &str) -> (res: Option<&'a str>)
    ensures
        match res {
            Some(r) => ends_with(s@, suffix@) && r@ == s@.take(s@.len() - suffix@.len()),
            None => !ends_with(s@, suffix@),
        },
{
    let v = chars_of(s);
    let w = chars_of(suffix);
    if w.len() > v.len() {
        return None;
    }
    let vl = v.len();
    let start = vl - w.len();
    let mut i: usize = 0;
    while i < w.len()
        invariant
            v@ == s@,
            w@ == suffix@,
            vl == v@.len(),
            start == vl - w@.len(),
            w@.len() <= vl,
            i <= w@.len(),
            forall|j: int| 0 <= j < i ==> v@[start + j] == w@[j],
        decreases w@.len() - i,
    {
        if v[start + i] != w[i] {
            assert(s@.skip(start as int)[i as int] != suffix@[i as int]);
            return None;
        }
        i = i + 1;
    }
    assert(s@.skip(start as int) =~= suffix@);
    Some(s.substring_char(0, start))
}

/// The Agent path for an API `path`: the Agent endpoint's path prefix (see
/// [`agent_path_prefix`]) joined with `path`.
pub fn agent_route_path(base_path: &str, path: &str) -> (res: String)
    ensures
        res@ == joined_path(agent_path_prefix(base_path@), path@),
{
    let p = trim_end_matches_char(base_path, '/');
    let prefix = if let Some(r) = strip_suffix_chars(p, "/v0.4/traces") {
        r
    } else if let Some(r) = strip_suffix_chars(p, "/v0.5/traces") {
        r
    } else if let Some(r) = strip_suffix_chars(p, "/v1.0/traces") {
        r
    } else {
        p
    };
    join_paths(prefix, path)
}

} // verus!
