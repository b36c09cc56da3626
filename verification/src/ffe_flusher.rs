//! Where feature-flag exposures are posted.
use vstd::prelude::*;
use crate::evp::delivery::{endpoint_with_path, endpoint_with_path_spec};
use crate::evp::endpoint::{Endpoint, EndpointView};
use vstd::utf8::{decode_utf8, valid_utf8};

verus! {

/// The Agent's EVP proxy path for exposures.
pub const EVP_EXPOSURES_PATH: &'static str = "/evp_proxy/v2/api/v2/exposures";

/// Header naming the intake an EVP proxy request is for.
pub const EVP_SUBDOMAIN_HEADER: &'static str = "X-Datadog-EVP-Subdomain";

/// The intake exposures go to.
pub const EVP_SUBDOMAIN_VALUE: &'static str = "event-platform-intake";

/// The exposure endpoint of a session's Agent endpoint: only the path
/// changes; scheme, authority, API key, timeout and test token are kept.
pub fn exposure_endpoint(base: &Endpoint) -> (res: Option<Endpoint>)
    ensures
        match res {
            Some(e) => endpoint_with_path_spec(base@, EVP_EXPOSURES_PATH@) == Ok::<
                EndpointView,
                Seq<char>,
            >(e@),
            None => endpoint_with_path_spec(base@, EVP_EXPOSURES_PATH@) is Err,
        },
{
    match endpoint_with_path(base, EVP_EXPOSURES_PATH) {
        Ok(e) => Some(e),
        Err(_) => None,
    }
}

/// What `String::from_utf8_lossy` makes of `bytes`: their text, with each
/// invalid sequence replaced.
pub uninterp spec fn lossy_text(bytes: Seq<u8>) -> Seq<char>;

/// `String::from_utf8_lossy(bytes).into_owned()`: valid UTF-8 is returned
/// as it is.
#[verifier::external_body]
fn utf8_lossy(bytes: &[u8]) -> (res: String)
    ensures
        res@ == lossy_text(bytes@),
        valid_utf8(bytes@) ==> res@ == decode_utf8(bytes@),
{
    String::from_utf8_lossy(bytes).into_owned()
}

/// The first `cap` bytes of a response body as text, for a log line.
pub fn truncate(bytes: &[u8], cap: usize) -> (res: String)
    ensures
        res@ == lossy_text(bytes@.take(if bytes@.len() < cap {
            bytes@.len() as int
        } else {
            cap as int
        })),
{
    let take = if bytes.len() < cap {
        bytes.len()
    } else {
        cap
    };
    let mut prefix: Vec<u8> = Vec::new();
    let mut i: usize = 0;
    while i < take
        invariant
            take <= bytes@.len(),
            i <= take,
            prefix@ == bytes@.take(i as int),
        decreases take - i,
    {
        prefix.push(bytes[i]);
        assert(bytes@.take(i + 1) =~= bytes@.take(i as int).push(bytes@[i as int]));
        i = i + 1;
    }
    utf8_lossy(prefix.as_slice())
}

} // verus!
