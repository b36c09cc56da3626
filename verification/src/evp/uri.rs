//! URI components, as `http::Uri` parses them.
use vstd::prelude::*;

verus! {

/// The authority of a URI: its full text, its host, and whether it names a port.
pub struct UriAuthority {
    pub text: String,
    pub host: String,
    pub has_port: bool,
}

/// The components of a parsed URI that endpoint validation reads.
pub struct UriComponents {
    pub scheme: Option<String>,
    pub authority: Option<UriAuthority>,
    pub path_and_query: Option<String>,
    pub path: String,
}

/// Spec view of [`UriAuthority`].
pub struct UriAuthorityView {
    pub text: Seq<char>,
    pub host: Seq<char>,
    pub has_port: bool,
}

/// Spec view of [`UriComponents`].
pub struct UriComponentsView {
    pub scheme: Option<Seq<char>>,
    pub authority: Option<UriAuthorityView>,
    pub path_and_query: Option<Seq<char>>,
    pub path: Seq<char>,
}

impl View for UriAuthority {
    type V = UriAuthorityView;

    open spec fn view(&self) -> UriAuthorityView {
        UriAuthorityView { text: self.text@, host: self.host@, has_port: self.has_port }
    }
}

impl View for UriComponents {
    type V = UriComponentsView;

    open spec fn view(&self) -> UriComponentsView {
        UriComponentsView {
            scheme: match self.scheme {
                Some(s) => Some(s@),
                None => None,
            },
            authority: match self.authority {
                Some(a) => Some(a@),
                None => None,
            },
            path_and_query: match self.path_and_query {
                Some(p) => Some(p@),
                None => None,
            },
            path: self.path@,
        }
    }
}

/// The components `http::Uri` parses out of `s`, or `None` when it rejects `s`.
pub uninterp spec fn uri_components(s: Seq<char>) -> Option<UriComponentsView>;

/// Parses `s` with `http::Uri` (`str::parse::<http::Uri>`) and reads its
/// scheme, authority (text, host, port presence), path-and-query and path.
#[verifier::external_body]
pub(crate) fn parse_uri(s: &str) -> (res: Option<UriComponents>)
    ensures
        match res {
            Some(c) => uri_components(s@) == Some(c@),
            None => uri_components(s@) is None,
        },
{
    let uri = s.parse::<http::Uri>().ok()?;
    let authority = uri.authority().map(|a| UriAuthority {
        text: a.as_str().to_owned(),
        host: a.host().to_owned(),
        has_port: a.port().is_some(),
    });
    Some(UriComponents {
        scheme: uri.scheme_str().map(str::to_owned),
        authority,
        path_and_query: uri.path_and_query().map(|p| p.as_str().to_owned()),
        path: uri.path().to_owned(),
    })
}

} // verus!
