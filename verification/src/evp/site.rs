//! DNS label and Datadog site validation for direct intake hosts.
use vstd::prelude::*;

verus! {

/// Longest DNS host name.
pub const MAX_DNS_HOST_LENGTH: usize = 253;
/// Longest DNS label.
pub const MAX_DNS_LABEL_LENGTH: usize = 63;

/// `b` is `[a-z0-9-]`.
pub open spec fn is_label_byte(b: u8) -> bool {
    (97 <= b && b <= 122) || (48 <= b && b <= 57) || b == 45
}

/// `b` is ASCII alphanumeric.
pub open spec fn is_alnum_byte(b: u8) -> bool {
    (97 <= b && b <= 122) || (65 <= b && b <= 90) || (48 <= b && b <= 57)
}

/// One canonical DNS label: 1 to 63 bytes of `[a-z0-9-]`, beginning and ending
/// with an alphanumeric byte.
pub open spec fn valid_label(l: Seq<u8>) -> bool {
    &&& 0 < l.len() <= 63
    &&& forall|k: int| 0 <= k < l.len() ==> is_label_byte(#[trigger] l[k])
    &&& is_alnum_byte(l[0])
    &&& is_alnum_byte(l[l.len() - 1])
}

/// `s[i..j]` is one of the pieces that splitting `s` at every `.` yields.
pub open spec fn is_segment(s: Seq<u8>, i: int, j: int) -> bool {
    &&& 0 <= i <= j <= s.len()
    &&& (i == 0 || s[i - 1] == 46)
    &&& (j == s.len() || s[j] == 46)
    &&& forall|k: int| i <= k < j ==> s[k] != 46
}

/// A Datadog site: at most 253 bytes, and every dot-separated piece is a
/// canonical DNS label.
pub open spec fn valid_dns_site(s: Seq<u8>) -> bool {
    &&& s.len() <= 253
    &&& forall|i: int, j: int| #[trigger] is_segment(s, i, j) ==> valid_label(s.subrange(i, j))
}

fn is_label_byte_exec(b: u8) -> (res: bool)
    ensures
        res == is_label_byte(b),
{
    (97 <= b && b <= 122) || (48 <= b && b <= 57) || b == 45
}

fn is_alnum_byte_exec(b: u8) -> (res: bool)
    ensures
        res == is_alnum_byte(b),
{
    (97 <= b && b <= 122) || (65 <= b && b <= 90) || (48 <= b && b <= 57)
}

/// Whether `s[start..end]` is one canonical DNS label.
fn label_is_valid(s: &[u8], start: usize, end: usize) -> (res: bool)
    requires
        start <= end <= s@.len(),
    ensures
        res == valid_label(s@.subrange(start as int, end as int)),
{
    let ghost l = s@.subrange(start as int, end as int);
    if start == end || end - start > 63 {
        return false;
    }
    if !is_alnum_byte_exec(s[start]) || !is_alnum_byte_exec(s[end - 1]) {
        return false;
    }
    let mut k = start;
    while k < end
        invariant
            start <= k <= end <= s@.len(),
            l == s@.subrange(start as int, end as int),
            forall|m: int| 0 <= m < k - start ==> is_label_byte(#[trigger] l[m]),
        decreases end - k,
    {
        if !is_label_byte_exec(s[k]) {
            assert(!is_label_byte(l[k - start]));
            return false;
        }
        k = k + 1;
    }
    true
}

/// Whether `subdomain` is one canonical DNS label.
pub fn is_valid_intake_subdomain(subdomain: &[u8]) -> (res: bool)
    ensures
        res == valid_label(subdomain@),
{
    let r = label_is_valid(subdomain, 0, subdomain.len());
    assert(subdomain@.subrange(0, subdomain@.len() as int) =~= subdomain@);
    r
}

/// Whether `site` is a valid Datadog site (see [`valid_dns_site`]).
pub fn is_valid_dns_site(site: &[u8]) -> (res: bool)
    ensures
        res == valid_dns_site(site@),
{
    let ghost s = site@;
    if site.len() > MAX_DNS_HOST_LENGTH {
        return false;
    }
    let n = site.len();
    let mut start: usize = 0;
    let mut i: usize = 0;
    while i < n
        invariant
            n == s.len(),
            s == site@,
            start <= i <= n,
            start == 0 || s[start - 1] == 46,
            forall|k: int| start <= k < i ==> s[k] != 46,
            forall|a: int, b: int| #[trigger] is_segment(s, a, b) && b < start ==> valid_label(
                s.subrange(a, b),
            ),
        decreases n - i,
    {
        if site[i] == 46 {
            assert(is_segment(s, start as int, i as int));
            if !label_is_valid(site, start, i) {
                return false;
            }
            assert forall|a: int, b: int| #[trigger] is_segment(s, a, b) && b < i + 1 implies valid_label(
                s.subrange(a, b),
            ) by {
                if b >= start {
                    // b can only be the dot at i, so the segment is the one just checked
                    if b < i {
                        assert(s[b] != 46);
                    }
                    assert(b == i);
                    if a < start {
                        assert(s[start - 1] == 46);
                    }
                    if a > start {
                        assert(s[a - 1] != 46);
                    }
                    assert(a == start);
                }
            }
            start = i + 1;
        }
        i = i + 1;
    }
    assert(is_segment(s, start as int, n as int));
    if !label_is_valid(site, start, n) {
        return false;
    }
    assert forall|a: int, b: int| #[trigger] is_segment(s, a, b) implies valid_label(s.subrange(a, b)) by {
        if b >= start {
            if b < n {
                assert(s[b] != 46);
            }
            assert(b == n);
            if a < start {
                assert(s[start - 1] == 46);
            }
            if a > start {
                assert(s[a - 1] != 46);
            }
            assert(a == start);
        }
    }
    true
}

} // verus!
