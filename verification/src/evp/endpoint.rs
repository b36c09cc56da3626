//! The endpoint model and validation of direct-intake endpoints.
use vstd::prelude::*;
use vstd::string::*;
use vstd::utf8::encode_utf8;
use crate::text::{str_eq, chars_of, is_valid_header_value, valid_header_value};
use crate::evp::site::{is_valid_dns_site, valid_dns_site, is_valid_intake_subdomain, valid_label, MAX_DNS_HOST_LENGTH};
use crate::evp::uri::{parse_uri, uri_components, UriComponents, UriComponentsView};

verus! {

/// A destination for HTTP requests: a URL, an optional API key, a timeout
/// and an optional test-session token.
#[derive(Debug)]
pub struct Endpoint {
    pub url: String,
    pub api_key: Option<String>,
    pub timeout_ms: u64,
    pub test_token: Option<String>,
}

/// Spec view of [`Endpoint`].
pub struct EndpointView {
    pub url: Seq<char>,
    pub api_key: Option<Seq<char>>,
    pub timeout_ms: u64,
    pub test_token: Option<Seq<char>>,
}

pub open spec fn opt_view(o: Option<String>) -> Option<Seq<char>> {
    match o {
        Some(s) => Some(s@),
        None => None,
    }
}

impl View for Endpoint {
    type V = EndpointView;

    open spec fn view(&self) -> EndpointView {
        EndpointView {
            url: self.url@,
            api_key: opt_view(self.api_key),
            timeout_ms: self.timeout_ms,
            test_token: opt_view(self.test_token),
        }
    }
}

/// Copies an optional string.
pub fn clone_opt_string(o: &Option<String>) -> (res: Option<String>)
    ensures
        opt_view(res) == opt_view(*o),
{
    match o {
        Some(s) => Some(s.clone()),
        None => None,
    }
}

impl Endpoint {
    /// A copy of this endpoint.
    pub fn duplicate(&self) -> (res: Endpoint)
        ensures
            res@ == self@,
    {
        Endpoint {
            url: self.url.clone(),
            api_key: clone_opt_string(&self.api_key),
            timeout_ms: self.timeout_ms,
            test_token: clone_opt_string(&self.test_token),
        }
    }
}

/// Whether two optional strings hold the same text.
pub fn opt_str_eq(a: &Option<String>, b: &Option<String>) -> (res: bool)
    ensures
        res == (opt_view(*a) == opt_view(*b)),
{
    match (a, b) {
        (Some(x), Some(y)) => str_eq(x.as_str(), y.as_str()),
        (None, None) => true,
        _ => false,
    }
}

/// Whether two endpoints are equal.
pub fn endpoint_eq(a: &Endpoint, b: &Endpoint) -> (res: bool)
    ensures
        res == (a@ == b@),
{
    str_eq(a.url.as_str(), b.url.as_str()) && opt_str_eq(&a.api_key, &b.api_key) && a.timeout_ms
        == b.timeout_ms && opt_str_eq(&a.test_token, &b.test_token)
}

/// The message for an intake subdomain that is not one DNS label.
pub open spec fn msg_bad_subdomain() -> Seq<char> {
    "EVP intake subdomain must be one canonical DNS label"@
}

/// `validate_intake_subdomain`: the subdomain must be one canonical DNS label.
pub open spec fn intake_subdomain_check(subdomain: Seq<char>) -> Result<(), Seq<char>> {
    if valid_label(encode_utf8(subdomain)) {
        Ok(())
    } else {
        Err(msg_bad_subdomain())
    }
}

/// Checks that `subdomain` is one canonical DNS label.
pub fn validate_intake_subdomain(subdomain: &str) -> (res: Result<(), String>)
    ensures
        match res {
            Ok(()) => intake_subdomain_check(subdomain@) is Ok,
            Err(e) => intake_subdomain_check(subdomain@) == Err::<(), Seq<char>>(e@),
        },
{
    if is_valid_intake_subdomain(subdomain.as_bytes()) {
        Ok(())
    } else {
        Err("EVP intake subdomain must be one canonical DNS label".to_owned())
    }
}

/// `bytes` starts with the bytes of `subdomain` followed by a dot.
pub open spec fn has_subdomain_prefix(bytes: Seq<u8>, subdomain: Seq<u8>) -> bool {
    subdomain.len() < bytes.len() && bytes.take(subdomain.len() as int) == subdomain
        && bytes[subdomain.len() as int] == 46
}

/// The error, if any, of a direct-intake endpoint for `subdomain`. With
/// `limit_host`, the whole host must also fit in 253 bytes.
pub open spec fn direct_endpoint_error(
    ep: EndpointView,
    subdomain: Seq<char>,
    limit_host: bool,
) -> Option<Seq<char>> {
    match ep.api_key {
        None => Some("direct EVP endpoint requires a non-empty API key"@),
        Some(key) => if key.len() == 0 {
            Some("direct EVP endpoint requires a non-empty API key"@)
        } else if !valid_header_value(encode_utf8(key)) {
            Some("direct EVP endpoint API key is not a valid HTTP header value"@)
        } else {
            direct_url_error(ep.url, subdomain, limit_host)
        },
    }
}

/// The error, if any, of the parsed URL `c` of a direct-intake endpoint.
pub open spec fn direct_components_error(c: UriComponentsView, subdomain: Seq<char>, limit_host: bool) -> Option<Seq<char>> {
    if c.scheme != Some("https"@) {
        Some("direct EVP endpoint must use HTTPS"@)
    } else {
        match c.authority {
            None => Some("direct EVP endpoint requires an authority"@),
            Some(a) => if a.text.contains('@') || a.has_port {
                Some(
                    "direct EVP endpoint must use the canonical authority without userinfo or a port"@,
                )
            } else if !has_subdomain_prefix(encode_utf8(a.host), encode_utf8(subdomain)) {
                Some("direct EVP endpoint host must be "@ + subdomain + ".<site>"@)
            } else if (limit_host && encode_utf8(a.host).len() > 253) || !valid_dns_site(
                encode_utf8(a.host).skip(encode_utf8(subdomain).len() as int + 1),
            ) {
                Some("direct EVP endpoint contains an invalid Datadog site"@)
            } else {
                match c.path_and_query {
                    None => None,
                    Some(p) => if p == ""@ || p == "/"@ {
                        None
                    } else {
                        Some("direct EVP endpoint must not include a path or query"@)
                    },
                }
            },
        }
    }
}

/// The error, if any, of the URL of a direct-intake endpoint.
pub open spec fn direct_url_error(url: Seq<char>, subdomain: Seq<char>, limit_host: bool) -> Option<
    Seq<char>,
> {
    match uri_components(url) {
        None => Some("direct EVP endpoint URL is not a valid URI"@),
        Some(c) => direct_components_error(c, subdomain, limit_host),
    }
}

/// An endpoint that passes direct-intake validation is the canonical intake:
/// it carries a non-empty API key that is a valid header value, and its URL
/// is HTTPS on `<subdomain>.<site>` with no user info, no port and no path
/// or query.
pub proof fn lemma_valid_direct_endpoint_is_canonical(ep: EndpointView, subdomain: Seq<char>, limit_host: bool)
    requires
        direct_endpoint_error(ep, subdomain, limit_host) is None,
    ensures
        ep.api_key matches Some(k) && k.len() > 0 && valid_header_value(encode_utf8(k)),
        uri_components(ep.url) matches Some(c) && {
            &&& c.scheme == Some("https"@)
            &&& c.authority matches Some(a) && !a.text.contains('@') && !a.has_port
                && has_subdomain_prefix(encode_utf8(a.host), encode_utf8(subdomain))
            &&& (c.path_and_query matches Some(p) ==> (p == ""@ || p == "/"@))
        },
{
}

/// Whether `s` contains `c`.
pub fn str_contains_char(s: &str, c: char) -> (res: bool)
    ensures
        res == s@.contains(c),
{
    let v = chars_of(s);
    let mut i: usize = 0;
    while i < v.len()
        invariant
            v@ == s@,
            i <= v@.len(),
            forall|j: int| 0 <= j < i ==> v@[j] != c,
        decreases v@.len() - i,
    {
        if v[i] == c {
            return true;
        }
        i = i + 1;
    }
    false
}

/// Whether `bytes` starts with `prefix` followed by a dot.
fn starts_with_label(bytes: &[u8], prefix: &[u8]) -> (res: bool)
    ensures
        res == has_subdomain_prefix(bytes@, prefix@),
{
    if prefix.len() >= bytes.len() {
        return false;
    }
    let mut i: usize = 0;
    while i < prefix.len()
        invariant
            prefix@.len() < bytes@.len(),
            i <= prefix@.len(),
            forall|j: int| 0 <= j < i ==> bytes@[j] == prefix@[j],
        decreases prefix@.len() - i,
    {
        if bytes[i] != prefix[i] {
            assert(bytes@.take(prefix@.len() as int)[i as int] != prefix@[i as int]);
            return false;
        }
        i = i + 1;
    }
    assert(bytes@.take(prefix@.len() as int) =~= prefix@);
    bytes[prefix.len()] == 46
}

/// The URL part of direct-endpoint validation.
fn check_direct_url(url: &str, subdomain: &str, limit_host: bool) -> (res: Result<(), String>)
    ensures
        match res {
            Ok(()) => direct_url_error(url@, subdomain@, limit_host) is None,
            Err(e) => direct_url_error(url@, subdomain@, limit_host) == Some(e@),
        },
{
    match parse_uri(url) {
        Some(c) => check_direct_components(&c, subdomain, limit_host),
        None => Err("direct EVP endpoint URL is not a valid URI".to_owned()),
    }
}

/// Checks the parsed URL of a direct-intake endpoint: HTTPS, an authority
/// without user info or port whose host is `<subdomain>.<site>` with a valid
/// site (at most 253 bytes with `limit_host`), and no path or query.
pub fn check_direct_components(components: &UriComponents, subdomain: &str, limit_host: bool) -> (res: Result<(), String>)
    ensures
        match res {
            Ok(()) => direct_components_error(components@, subdomain@, limit_host) is None,
            Err(e) => direct_components_error(components@, subdomain@, limit_host) == Some(e@),
        },
{
    let https = match &components.scheme {
        Some(s) => str_eq(s.as_str(), "https"),
        None => false,
    };
    if !https {
        return Err("direct EVP endpoint must use HTTPS".to_owned());
    }
    let authority = match &components.authority {
        Some(a) => a,
        None => return Err("direct EVP endpoint requires an authority".to_owned()),
    };
    if str_contains_char(authority.text.as_str(), '@') || authority.has_port {
        return Err(
            "direct EVP endpoint must use the canonical authority without userinfo or a port".to_owned(),
        );
    }
    let host = authority.host.as_str().as_bytes();
    let prefix = subdomain.as_bytes();
    if !starts_with_label(host, prefix) {
        let mut msg = "direct EVP endpoint host must be ".to_owned();
        msg.append(subdomain);
        msg.append(".<site>");
        return Err(msg);
    }
    let host_len = host.len();
    assert(prefix@.len() < host_len);
    let site = &host[prefix.len() + 1..host_len];
    if (limit_host && host.len() > MAX_DNS_HOST_LENGTH) || !is_valid_dns_site(site) {
        return Err("direct EVP endpoint contains an invalid Datadog site".to_owned());
    }
    match &components.path_and_query {
        None => Ok(()),
        Some(p) => {
            if str_eq(p.as_str(), "") || str_eq(p.as_str(), "/") {
                Ok(())
            } else {
                Err("direct EVP endpoint must not include a path or query".to_owned())
            }
        },
    }
}

/// Rejects direct credentials unless their destination is the canonical
/// HTTPS intake `<subdomain>.<site>`, with no userinfo, port, path or query.
/// With `limit_host`, the host must also fit in 253 bytes.
pub fn validate_direct_endpoint(endpoint: &Endpoint, subdomain: &str, limit_host: bool) -> (res:
    Result<(), String>)
    ensures
        match res {
            Ok(()) => direct_endpoint_error(endpoint@, subdomain@, limit_host) is None,
            Err(e) => direct_endpoint_error(endpoint@, subdomain@, limit_host) == Some(e@),
        },
{
    match &endpoint.api_key {
        None => Err("direct EVP endpoint requires a non-empty API key".to_owned()),
        Some(key) => {
            if key.as_str().is_empty() {
                Err("direct EVP endpoint requires a non-empty API key".to_owned())
            } else if !is_valid_header_value(key.as_str()) {
                Err("direct EVP endpoint API key is not a valid HTTP header value".to_owned())
            } else {
                assert(endpoint@.api_key == Some(key@));
                let r = check_direct_url(endpoint.url.as_str(), subdomain, limit_host);
                r
            }
        },
    }
}

} // verus!
