//! Where one EVP delivery attempt goes, and how its outcome is classified.
use vstd::prelude::*;
use crate::evp::endpoint::{Endpoint, EndpointView};
use crate::evp::route::{
    definitive_chain, is_definitive_connection_failure, proxy_path, DeliveryFailure, IoErrorCause,
    Route,
};
use crate::evp::uri::{parse_uri, uri_components};
use crate::paths::{agent_path_prefix, agent_route_path, join_paths, joined_path};

verus! {

/// What `http::Uri` makes of `url` with its path and query replaced by
/// `path`: the new URI's text, or the text of the error that stopped it.
pub uninterp spec fn uri_with_path(url: Seq<char>, path: Seq<char>) -> Result<Seq<char>, Seq<char>>;

/// Parses `path` as an `http::uri::PathAndQuery` and `url` as an
/// `http::Uri`, puts the one in place of the other's path and query
/// (`Uri::from_parts`) and renders the result; the first error's text
/// otherwise.
#[verifier::external_body]
fn replace_uri_path(url: &str, path: &str) -> (res: Result<String, String>)
    ensures
        match res {
            Ok(u) => uri_with_path(url@, path@) == Ok::<Seq<char>, Seq<char>>(u@),
            Err(e) => uri_with_path(url@, path@) == Err::<Seq<char>, Seq<char>>(e@),
        },
{
    let pq = match http::uri::PathAndQuery::try_from(path) {
        Ok(p) => p,
        Err(e) => return Err(e.to_string()),
    };
    let uri = match url.parse::<http::Uri>() {
        Ok(u) => u,
        Err(e) => return Err(e.to_string()),
    };
    let mut parts = uri.into_parts();
    parts.path_and_query = Some(pq);
    match http::Uri::from_parts(parts) {
        Ok(u) => Ok(u.to_string()),
        Err(e) => Err(e.to_string()),
    }
}

/// `base` with its URL's path replaced by `path`, everything else kept.
pub open spec fn endpoint_with_path_spec(base: EndpointView, path: Seq<char>) -> Result<EndpointView, Seq<char>> {
    match uri_with_path(base.url, path) {
        Ok(u) => Ok(EndpointView { url: u, ..base }),
        Err(e) => Err(e),
    }
}

/// The path of an endpoint's URL (empty when it does not parse).
pub open spec fn url_path(url: Seq<char>) -> Seq<char> {
    match uri_components(url) {
        Some(c) => c.path,
        None => Seq::empty(),
    }
}

/// An Agent API endpoint: the Agent endpoint's path prefix joined with `path`.
pub open spec fn agent_endpoint_spec(base: EndpointView, path: Seq<char>) -> Result<EndpointView, Seq<char>> {
    endpoint_with_path_spec(base, joined_path(agent_path_prefix(url_path(base.url)), path))
}

/// Why a direct delivery cannot be made without a direct endpoint.
pub const NO_DIRECT_ENDPOINT: &'static str = "direct endpoint is not configured";

/// The endpoint of a delivery attempt on `route` for `intake_path`: the
/// Agent's proxy path joined with the intake path, under the Agent
/// endpoint's prefix, for a local route; the intake path on the direct
/// endpoint for the direct route.
pub open spec fn delivery_endpoint_spec(
    agent: EndpointView,
    direct: Option<EndpointView>,
    route: Route,
    intake_path: Seq<char>,
) -> Result<EndpointView, Seq<char>> {
    match route {
        Route::Local(v) => agent_endpoint_spec(agent, joined_path(proxy_path(v), intake_path)),
        Route::Direct => match direct {
            Some(d) => endpoint_with_path_spec(d, intake_path),
            None => Err(NO_DIRECT_ENDPOINT@),
        },
    }
}

/// `base` with its URL's path replaced by `path`.
pub fn endpoint_with_path(base: &Endpoint, path: &str) -> (res: Result<Endpoint, String>)
    ensures
        match res {
            Ok(e) => endpoint_with_path_spec(base@, path@) == Ok::<EndpointView, Seq<char>>(e@),
            Err(m) => endpoint_with_path_spec(base@, path@) == Err::<EndpointView, Seq<char>>(m@),
        },
{
    match replace_uri_path(base.url.as_str(), path) {
        Ok(url) => {
            let mut e = base.duplicate();
            e.url = url;
            Ok(e)
        },
        Err(m) => Err(m),
    }
}

/// The Agent API endpoint for `path` under the Agent endpoint `base`: its
/// prefix kept, any trace-intake suffix dropped.
pub fn agent_endpoint_with_path(base: &Endpoint, path: &str) -> (res: Result<Endpoint, String>)
    ensures
        match res {
            Ok(e) => agent_endpoint_spec(base@, path@) == Ok::<EndpointView, Seq<char>>(e@),
            Err(m) => agent_endpoint_spec(base@, path@) == Err::<EndpointView, Seq<char>>(m@),
        },
{
    let base_path = match parse_uri(base.url.as_str()) {
        Some(c) => c.path,
        None => String::new(),
    };
    proof {
        assert(base_path@ == url_path(base.url@));
    }
    let route_path = agent_route_path(base_path.as_str(), path);
    endpoint_with_path(base, route_path.as_str())
}

/// The endpoint of a delivery attempt on `route` for `intake_path`, or why
/// there is none (an error that is definitive: nothing was sent).
pub fn delivery_endpoint(agent: &Endpoint, direct: &Option<Endpoint>, route: Route, intake_path: &str) -> (res:
    Result<Endpoint, String>)
    ensures
        match res {
            Ok(e) => delivery_endpoint_spec(agent@, direct_view(*direct), route, intake_path@) == Ok::<
                EndpointView,
                Seq<char>,
            >(e@),
            Err(m) => delivery_endpoint_spec(agent@, direct_view(*direct), route, intake_path@)
                == Err::<EndpointView, Seq<char>>(m@),
        },
{
    match route {
        Route::Local(v) => {
            let path = join_paths(v.path(), intake_path);
            agent_endpoint_with_path(agent, path.as_str())
        },
        Route::Direct => match direct {
            Some(d) => endpoint_with_path(d, intake_path),
            None => Err(NO_DIRECT_ENDPOINT.to_owned()),
        },
    }
}

/// The optional direct endpoint's view.
pub open spec fn direct_view(d: Option<Endpoint>) -> Option<EndpointView> {
    match d {
        Some(e) => Some(e@),
        None => None,
    }
}

/// Whether a delivery attempt on `route` names the intake subdomain in a
/// header: only through the Agent, which forwards by it.
pub fn sends_subdomain_header(route: Route) -> (res: bool)
    ensures
        res == (route is Local),
{
    match route {
        Route::Local(_) => true,
        Route::Direct => false,
    }
}

/// A response status: success for 2xx, otherwise a status failure.
pub fn classify_status(status: u16) -> (res: Result<(), DeliveryFailure>)
    ensures
        200 <= status < 300 ==> res is Ok,
        !(200 <= status < 300) ==> (res matches Err(DeliveryFailure::Status(s)) && s == status),
{
    if 200 <= status && status < 300 {
        Ok(())
    } else {
        Err(DeliveryFailure::Status(status))
    }
}

/// How an HTTP client failed.
pub enum HttpError {
    /// The request could not be built.
    InvalidRequest(String),
    /// The network failed; `chain` holds the I/O errors among its causes.
    Network { message: String, chain: Vec<Option<IoErrorCause>> },
    /// Reading the response body failed.
    ResponseBody(String),
    /// Anything else.
    Other(String),
    /// The request timed out.
    Timeout,
}

/// The message of a timed-out request.
pub const TIMED_OUT: &'static str = "request timed out";

/// What a client failure means for delivery: an invalid request, or a
/// network failure whose causes prove no connection was made, is
/// definitive (nothing was sent); every other failure is ambiguous.
pub fn classify_http_error(error: HttpError) -> (res: DeliveryFailure)
    ensures
        match error {
            HttpError::InvalidRequest(m) => res matches DeliveryFailure::DefinitivePreSend(r) && r@
                == m@,
            HttpError::Network { message, chain } => if definitive_chain(chain@) {
                res matches DeliveryFailure::DefinitivePreSend(r) && r@ == message@
            } else {
                res matches DeliveryFailure::Ambiguous(r) && r@ == message@
            },
            HttpError::ResponseBody(m) => res matches DeliveryFailure::Ambiguous(r) && r@ == m@,
            HttpError::Other(m) => res matches DeliveryFailure::Ambiguous(r) && r@ == m@,
            HttpError::Timeout => res matches DeliveryFailure::Ambiguous(r) && r@ == TIMED_OUT@,
        },
{
    match error {
        HttpError::InvalidRequest(m) => DeliveryFailure::DefinitivePreSend(m),
        HttpError::Network { message, chain } => {
            if is_definitive_connection_failure(chain.as_slice()) {
                DeliveryFailure::DefinitivePreSend(message)
            } else {
                DeliveryFailure::Ambiguous(message)
            }
        },
        HttpError::ResponseBody(m) => DeliveryFailure::Ambiguous(m),
        HttpError::Other(m) => DeliveryFailure::Ambiguous(m),
        HttpError::Timeout => DeliveryFailure::Ambiguous(TIMED_OUT.to_owned()),
    }
}

/// The URL a product's intake is reached at for an agentless session: a URL
/// without a scheme gets `https` and the product's `subdomain` in front of
/// its authority; either way the path becomes `/`. `None` where that URL
/// cannot be built (no authority to prefix, or an invalid result).
pub open spec fn product_url(subdomain: Seq<char>, url: Seq<char>) -> Option<Seq<char>> {
    match uri_components(url) {
        None => None,
        Some(c) => {
            let base = if c.scheme is None {
                match c.authority {
                    Some(a) => Some("https://"@ + subdomain + "."@ + a.text),
                    None => None,
                }
            } else {
                Some(url)
            };
            match base {
                Some(b) => match uri_with_path(b, "/"@) {
                    Ok(u) => Some(u),
                    Err(_) => None,
                },
                None => None,
            }
        },
    }
}

/// The endpoint a product (telemetry, traces, debugger) uses for a session:
/// an agentless endpoint (with an API key) is pointed at the product's
/// intake (see [`product_url`]); an endpoint through the Agent is used as
/// it is.
pub open spec fn product_endpoint(subdomain: Seq<char>, endpoint: EndpointView) -> EndpointView {
    match endpoint.api_key {
        Some(_) => EndpointView { url: product_url(subdomain, endpoint.url)->0, ..endpoint },
        None => endpoint,
    }
}

/// Builds [`product_url`], or `None` where it cannot be built.
fn build_product_url(subdomain: &str, url: &str) -> (res: Option<String>)
    ensures
        match res {
            Some(u) => product_url(subdomain@, url@) == Some(u@),
            None => product_url(subdomain@, url@) is None,
        },
{
    let c = match parse_uri(url) {
        Some(c) => c,
        None => return None,
    };
    let base = if c.scheme.is_none() {
        match c.authority {
            Some(a) => {
                let mut b = "https://".to_owned();
                b.append(subdomain);
                b.append(".");
                b.append(a.text.as_str());
                b
            },
            None => return None,
        }
    } else {
        url.to_owned()
    };
    match replace_uri_path(base.as_str(), "/") {
        Ok(u) => Some(u),
        Err(_) => None,
    }
}

/// The endpoint of a product for a session (see [`product_endpoint`]). The
/// agentless product URL must be buildable.
pub fn get_product_endpoint(subdomain: &str, endpoint: &Endpoint) -> (res: Endpoint)
    requires
        endpoint.api_key is Some ==> product_url(subdomain@, endpoint.url@) is Some,
    ensures
        res@ == product_endpoint(subdomain@, endpoint@),
{
    if endpoint.api_key.is_some() {
        match build_product_url(subdomain, endpoint.url.as_str()) {
            Some(u) => {
                let mut e = endpoint.duplicate();
                e.url = u;
                e
            },
            None => endpoint.duplicate(),
        }
    } else {
        endpoint.duplicate()
    }
}

/// The endpoint of a product for a session, or `None` for an agentless
/// endpoint whose product URL cannot be built.
pub fn try_get_product_endpoint(subdomain: &str, endpoint: &Endpoint) -> (res: Option<Endpoint>)
    ensures
        endpoint.api_key is Some && product_url(subdomain@, endpoint.url@) is None ==> res is None,
        !(endpoint.api_key is Some && product_url(subdomain@, endpoint.url@) is None) ==> (res matches Some(e)
            && e@ == product_endpoint(subdomain@, endpoint@)),
{
    if endpoint.api_key.is_some() {
        if build_product_url(subdomain, endpoint.url.as_str()).is_none() {
            return None;
        }
    }
    Some(get_product_endpoint(subdomain, endpoint))
}

/// A direct delivery without a direct endpoint fails before anything is
/// sent, whatever the rest of the configuration.
pub proof fn lemma_direct_needs_endpoint(agent: EndpointView, intake_path: Seq<char>)
    ensures
        delivery_endpoint_spec(agent, None, Route::Direct, intake_path) == Err::<
            EndpointView,
            Seq<char>,
        >(NO_DIRECT_ENDPOINT@),
{
}

} // verus!
