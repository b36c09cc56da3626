//! EVP route selection: which local proxy version an Agent offers, and the
//! per-session route state machine with its fallback and cooldown rules.
use vstd::prelude::*;
use vstd::string::*;
use vstd::utf8::encode_utf8;
use crate::paths::{trim_end_char, trim_end_matches_char};
use crate::text::{str_eq, trim_str, trimmed, eq_ignore_ascii_case, str_eq_ignore_ascii_case};

verus! {

/// Header carrying the producer's origin.
pub const EVP_ORIGIN_HEADER: &'static str = "DD-EVP-ORIGIN";
/// Header carrying the producer's version.
pub const EVP_ORIGIN_VERSION_HEADER: &'static str = "DD-EVP-ORIGIN-VERSION";
/// Agent path of the EVP proxy, version 4.
pub const EVP_PROXY_V4_PATH: &'static str = "/evp_proxy/v4";
/// Agent path of the EVP proxy, version 2.
pub const EVP_PROXY_V2_PATH: &'static str = "/evp_proxy/v2";
/// Agent path of the capability report.
pub const INFO_PATH: &'static str = "/info";
/// Largest capability report that is read.
pub const MAX_INFO_RESPONSE_BYTES: usize = 1048576;
/// Default wait, in milliseconds, before an unavailable route is probed again.
pub const DEFAULT_UNAVAILABLE_RECOVERY_COOLDOWN_MS: u64 = 30000;

/// A version of the Agent's EVP proxy.
#[derive(Debug, Clone, Copy, PartialEq, Eq, Structural)]
pub enum ProxyVersion {
    V4,
    V2,
}

/// The Agent path of a proxy version.
pub open spec fn proxy_path(v: ProxyVersion) -> Seq<char> {
    match v {
        ProxyVersion::V4 => EVP_PROXY_V4_PATH@,
        ProxyVersion::V2 => EVP_PROXY_V2_PATH@,
    }
}

impl ProxyVersion {
    /// The Agent path of this proxy version.
    pub fn path(self) -> (res: &'static str)
        ensures
            res@ == proxy_path(self),
    {
        match self {
            ProxyVersion::V4 => EVP_PROXY_V4_PATH,
            ProxyVersion::V2 => EVP_PROXY_V2_PATH,
        }
    }
}

/// Some advertised endpoint, without its trailing slashes, is `path`.
pub open spec fn advertises(endpoints: Seq<String>, path: Seq<char>) -> bool {
    exists|i: int| 0 <= i < endpoints.len() && trim_end_char(#[trigger] endpoints[i]@, '/') == path
}

/// The preferred proxy version among those an Agent advertises: v4 over v2.
pub open spec fn selected_proxy_version(endpoints: Seq<String>) -> Option<ProxyVersion> {
    if advertises(endpoints, EVP_PROXY_V4_PATH@) {
        Some(ProxyVersion::V4)
    } else if advertises(endpoints, EVP_PROXY_V2_PATH@) {
        Some(ProxyVersion::V2)
    } else {
        None
    }
}

fn advertises_exec(endpoints: &[String], path: &str) -> (res: bool)
    ensures
        res == advertises(endpoints@, path@),
{
    let mut i: usize = 0;
    while i < endpoints.len()
        invariant
            i <= endpoints@.len(),
            forall|j: int| 0 <= j < i ==> trim_end_char(#[trigger] endpoints@[j]@, '/') != path@,
        decreases endpoints@.len() - i,
    {
        let e = trim_end_matches_char(endpoints[i].as_str(), '/');
        if str_eq(e, path) {
            return true;
        }
        i = i + 1;
    }
    false
}

/// Picks the EVP proxy version to use from the endpoints an Agent advertises.
pub fn select_proxy_version(endpoints: &[String]) -> (res: Option<ProxyVersion>)
    ensures
        res == selected_proxy_version(endpoints@),
{
    if advertises_exec(endpoints, EVP_PROXY_V4_PATH) {
        Some(ProxyVersion::V4)
    } else if advertises_exec(endpoints, EVP_PROXY_V2_PATH) {
        Some(ProxyVersion::V2)
    } else {
        None
    }
}

/// Some header in the list, trimmed, equals `name` up to ASCII case.
pub open spec fn lists_header(headers: Seq<String>, name: Seq<char>) -> bool {
    exists|i: int|
        0 <= i < headers.len() && eq_ignore_ascii_case(
            encode_utf8(trimmed(#[trigger] headers[i]@)),
            encode_utf8(name),
        )
}

/// The Agent forwards both producer-identity headers.
pub open spec fn identity_headers_supported(headers: Option<Seq<String>>) -> bool {
    match headers {
        None => false,
        Some(h) => lists_header(h, EVP_ORIGIN_HEADER@) && lists_header(h, EVP_ORIGIN_VERSION_HEADER@),
    }
}

fn lists_header_exec(headers: &[String], name: &str) -> (res: bool)
    ensures
        res == lists_header(headers@, name@),
{
    let mut i: usize = 0;
    while i < headers.len()
        invariant
            i <= headers@.len(),
            forall|j: int|
                0 <= j < i ==> !eq_ignore_ascii_case(
                    encode_utf8(trimmed(#[trigger] headers@[j]@)),
                    encode_utf8(name@),
                ),
        decreases headers@.len() - i,
    {
        let h = trim_str(headers[i].as_str());
        if str_eq_ignore_ascii_case(h, name) {
            return true;
        }
        i = i + 1;
    }
    false
}

/// Whether the Agent's allowed-header list covers both identity headers.
pub fn supports_identity_headers(headers: Option<&[String]>) -> (res: bool)
    ensures
        res == identity_headers_supported(
            match headers {
                Some(h) => Some(h@),
                None => None,
            },
        ),
{
    match headers {
        None => false,
        Some(h) => lists_header_exec(h, EVP_ORIGIN_HEADER) && lists_header_exec(
            h,
            EVP_ORIGIN_VERSION_HEADER,
        ),
    }
}

/// How one delivery attempt failed.
#[derive(Debug)]
pub enum DeliveryFailure {
    /// The request was never sent (invalid request, refused connection).
    DefinitivePreSend(String),
    /// The request may have reached the receiver (timeout, reset).
    Ambiguous(String),
    /// The receiver answered with a non-2xx status.
    Status(u16),
}

/// A failure after which the same batch may safely be sent to direct intake:
/// nothing was sent, or the Agent rejected the route (404, 405) before
/// processing the request.
pub open spec fn replayable(f: DeliveryFailure) -> bool {
    match f {
        DeliveryFailure::DefinitivePreSend(_) => true,
        DeliveryFailure::Status(s) => s == 404 || s == 405,
        DeliveryFailure::Ambiguous(_) => false,
    }
}

/// Which local failures move future batches off the local route.
#[derive(Debug, Clone, Copy, PartialEq, Eq, Structural)]
pub enum FailurePolicy {
    /// Shared EVP transport: also leaves the local route on 403, 429 and 5xx.
    LeaveOnRejection,
    /// Feature-flag transport: only replayable and ambiguous failures leave it.
    LeaveOnReplayableOrAmbiguous,
}

/// After a failed local attempt, future batches leave the local route.
pub open spec fn switches_future(policy: FailurePolicy, f: DeliveryFailure) -> bool {
    replayable(f) || f is Ambiguous || (policy == FailurePolicy::LeaveOnRejection && match f {
        DeliveryFailure::Status(s) => s == 403 || s == 429 || (500 <= s && s < 600),
        _ => false,
    })
}

/// Whether the failure allows replaying the batch.
pub fn is_replayable(f: &DeliveryFailure) -> (res: bool)
    ensures
        res == replayable(*f),
{
    match f {
        DeliveryFailure::DefinitivePreSend(_) => true,
        DeliveryFailure::Status(s) => *s == 404 || *s == 405,
        DeliveryFailure::Ambiguous(_) => false,
    }
}

fn is_switching(policy: FailurePolicy, f: &DeliveryFailure) -> (res: bool)
    ensures
        res == switches_future(policy, *f),
{
    if is_replayable(f) {
        return true;
    }
    match f {
        DeliveryFailure::Ambiguous(_) => true,
        DeliveryFailure::Status(s) => policy == FailurePolicy::LeaveOnRejection && (*s == 403 || *s
            == 429 || (500 <= *s && *s < 600)),
        DeliveryFailure::DefinitivePreSend(_) => false,
    }
}

/// Where the next batch of a session goes.
#[derive(Debug, Clone, Copy, PartialEq, Eq, Structural)]
pub enum RouteState {
    /// No decision yet: the next batch probes the Agent.
    Unresolved,
    /// The Agent's EVP proxy of the given version.
    Local(ProxyVersion),
    /// Authenticated direct intake.
    Direct,
    /// No route; the Agent is probed again from `retry_at` (milliseconds).
    Unavailable { retry_at: u64 },
}

/// A concrete route for one batch.
#[derive(Debug, Clone, Copy, PartialEq, Eq, Structural)]
pub enum Route {
    Local(ProxyVersion),
    Direct,
}

/// What to do before sending a batch.
#[derive(Debug, Clone, Copy, PartialEq, Eq, Structural)]
pub enum RouteDecision {
    /// Send on this route.
    Use(Route),
    /// Drop the batch: no route until the cooldown ends.
    Unavailable,
    /// Probe the Agent's capabilities, then call [`RouteSelector::complete_discovery`].
    Discover,
}

/// The route state of one session, with the facts its transitions depend on.
#[derive(Debug, Clone, Copy, PartialEq, Eq, Structural)]
pub struct RouteSelector {
    /// The session may leave the local route at all.
    pub fallback_allowed: bool,
    /// A validated direct endpoint is configured.
    pub has_direct: bool,
    /// Which failures leave the local route.
    pub policy: FailurePolicy,
    /// Milliseconds an unavailable route waits before the next probe.
    pub cooldown: u64,
    /// The current route state.
    pub state: RouteState,
}

/// The decision for the next batch at time `now`.
pub open spec fn decide(s: RouteSelector, now: u64) -> RouteDecision {
    match s.state {
        RouteState::Local(v) => RouteDecision::Use(Route::Local(v)),
        RouteState::Direct => RouteDecision::Use(Route::Direct),
        RouteState::Unavailable { retry_at } => if now < retry_at {
            RouteDecision::Unavailable
        } else {
            RouteDecision::Discover
        },
        RouteState::Unresolved => RouteDecision::Discover,
    }
}

/// The state and route after a probe that found `found`.
pub open spec fn after_discovery(s: RouteSelector, found: Option<ProxyVersion>, now: u64) -> (
    RouteState,
    Option<Route>,
) {
    match found {
        Some(v) => (RouteState::Local(v), Some(Route::Local(v))),
        None => if s.has_direct {
            (RouteState::Direct, Some(Route::Direct))
        } else {
            (RouteState::Unavailable { retry_at: (now + s.cooldown) as u64 }, None)
        },
    }
}

/// The state after leaving the local route, and whether direct intake is now used.
pub open spec fn after_leave(s: RouteSelector, now: u64) -> (RouteState, bool) {
    if !s.fallback_allowed {
        (s.state, false)
    } else if s.has_direct {
        (RouteState::Direct, true)
    } else {
        (RouteState::Unavailable { retry_at: (now + s.cooldown) as u64 }, false)
    }
}

/// The state after a first attempt on `route` failed with `f`, and whether
/// the same batch is to be sent again through direct intake.
pub open spec fn after_failure(s: RouteSelector, route: Route, f: DeliveryFailure, now: u64) -> (
    RouteState,
    bool,
) {
    if route == Route::Direct || !switches_future(s.policy, f) {
        (s.state, false)
    } else {
        let (state, direct) = after_leave(s, now);
        (state, direct && replayable(f))
    }
}

impl RouteSelector {
    /// Decides where the next batch goes (see [`decide`]).
    pub fn begin_send(&self, now: u64) -> (res: RouteDecision)
        ensures
            res == decide(*self, now),
    {
        match self.state {
            RouteState::Local(v) => RouteDecision::Use(Route::Local(v)),
            RouteState::Direct => RouteDecision::Use(Route::Direct),
            RouteState::Unavailable { retry_at } => if now < retry_at {
                RouteDecision::Unavailable
            } else {
                RouteDecision::Discover
            },
            RouteState::Unresolved => RouteDecision::Discover,
        }
    }

    /// Records the result of a probe: a local proxy when one was found, else
    /// direct intake when configured, else a cooldown.
    pub fn complete_discovery(&mut self, found: Option<ProxyVersion>, now: u64) -> (res: Option<Route>)
        requires
            now + old(self).cooldown <= u64::MAX,
        ensures
            (final(self).state, res) == after_discovery(*old(self), found, now),
            final(self).fallback_allowed == old(self).fallback_allowed,
            final(self).has_direct == old(self).has_direct,
            final(self).policy == old(self).policy,
            final(self).cooldown == old(self).cooldown,
    {
        match found {
            Some(v) => {
                self.state = RouteState::Local(v);
                Some(Route::Local(v))
            },
            None => {
                if self.has_direct {
                    self.state = RouteState::Direct;
                    Some(Route::Direct)
                } else {
                    self.state = RouteState::Unavailable { retry_at: now + self.cooldown };
                    None
                }
            },
        }
    }

    /// Leaves the local route: to direct intake when configured, else into a
    /// cooldown. Sessions without fallback keep their route. Returns whether
    /// direct intake is now selected.
    pub fn leave_local_route(&mut self, now: u64) -> (res: bool)
        requires
            now + old(self).cooldown <= u64::MAX,
        ensures
            (final(self).state, res) == after_leave(*old(self), now),
            final(self).fallback_allowed == old(self).fallback_allowed,
            final(self).has_direct == old(self).has_direct,
            final(self).policy == old(self).policy,
            final(self).cooldown == old(self).cooldown,
    {
        if !self.fallback_allowed {
            return false;
        }
        if self.has_direct {
            self.state = RouteState::Direct;
            true
        } else {
            self.state = RouteState::Unavailable { retry_at: now + self.cooldown };
            false
        }
    }

    /// Handles a failed first attempt on `route`; returns whether the same
    /// batch is to be replayed through direct intake.
    pub fn after_failed_attempt(&mut self, route: Route, f: &DeliveryFailure, now: u64) -> (res: bool)
        requires
            now + old(self).cooldown <= u64::MAX,
        ensures
            (final(self).state, res) == after_failure(*old(self), route, *f, now),
            final(self).fallback_allowed == old(self).fallback_allowed,
            final(self).has_direct == old(self).has_direct,
            final(self).policy == old(self).policy,
            final(self).cooldown == old(self).cooldown,
    {
        if route == Route::Direct || !is_switching(self.policy, f) {
            return false;
        }
        let direct = self.leave_local_route(now);
        direct && is_replayable(f)
    }
}

/// The Windows code for a refused connection (`WSAECONNREFUSED`).
pub const WSAECONNREFUSED: i32 = 10061;

/// The kinds of I/O error that connection classification distinguishes.
#[derive(Debug, Clone, Copy, PartialEq, Eq, Structural)]
pub enum IoErrorKind {
    ConnectionRefused,
    NotFound,
    AddrNotAvailable,
    Other,
}

/// An I/O error found in an error's chain of causes.
#[derive(Debug, Clone, Copy, PartialEq, Eq, Structural)]
pub struct IoErrorCause {
    pub raw_os_error: Option<i32>,
    pub kind: IoErrorKind,
}

/// An I/O cause that proves the connection was never established.
pub open spec fn definitive_cause(c: IoErrorCause) -> bool {
    c.raw_os_error == Some(WSAECONNREFUSED) || c.kind == IoErrorKind::ConnectionRefused || c.kind
        == IoErrorKind::NotFound || c.kind == IoErrorKind::AddrNotAvailable
}

/// Some cause in the chain (`None` for causes that are not I/O errors) is definitive.
pub open spec fn definitive_chain(chain: Seq<Option<IoErrorCause>>) -> bool {
    exists|i: int| 0 <= i < chain.len() && (#[trigger] chain[i] matches Some(c) && definitive_cause(c))
}

/// Whether a network error proves that nothing was sent: some cause in its
/// chain is a refused connection, a missing socket or an unavailable address.
pub fn is_definitive_connection_failure(chain: &[Option<IoErrorCause>]) -> (res: bool)
    ensures
        res == definitive_chain(chain@),
{
    let mut i: usize = 0;
    while i < chain.len()
        invariant
            i <= chain@.len(),
            forall|j: int| 0 <= j < i ==> !(#[trigger] chain@[j] matches Some(c) && definitive_cause(c)),
        decreases chain@.len() - i,
    {
        if let Some(c) = chain[i] {
            if c.raw_os_error == Some(WSAECONNREFUSED) || c.kind == IoErrorKind::ConnectionRefused
                || c.kind == IoErrorKind::NotFound || c.kind == IoErrorKind::AddrNotAvailable {
                return true;
            }
        }
        i = i + 1;
    }
    false
}

/// The states a session can reach: direct intake is only selected with a
/// direct endpoint, and a session without fallback stays on the Agent's v2
/// proxy.
pub open spec fn route_invariant(s: RouteSelector) -> bool {
    &&& (s.state == RouteState::Direct ==> s.has_direct)
    &&& (!s.fallback_allowed ==> s.state == RouteState::Local(ProxyVersion::V2))
}

/// Every transition keeps [`route_invariant`].
pub proof fn lemma_route_invariant_preserved(
    s: RouteSelector,
    now: u64,
    found: Option<ProxyVersion>,
    route: Route,
    f: DeliveryFailure,
)
    requires
        route_invariant(s),
    ensures
        decide(s, now) == RouteDecision::Discover ==> route_invariant(
            RouteSelector { state: after_discovery(s, found, now).0, ..s },
        ),
        route_invariant(RouteSelector { state: after_leave(s, now).0, ..s }),
        route_invariant(RouteSelector { state: after_failure(s, route, f, now).0, ..s }),
{
}

/// A session without fallback always uses the Agent's v2 proxy: it never
/// probes, never leaves it, and never replays a batch elsewhere.
pub proof fn lemma_agent_only_route_is_fixed(s: RouteSelector, now: u64, route: Route, f: DeliveryFailure)
    requires
        route_invariant(s),
        !s.fallback_allowed,
    ensures
        decide(s, now) == RouteDecision::Use(Route::Local(ProxyVersion::V2)),
        after_leave(s, now) == (s.state, false),
        after_failure(s, route, f, now) == (s.state, false),
{
}

/// Once direct intake is selected, it stays selected, whatever fails.
pub proof fn lemma_direct_route_is_sticky(s: RouteSelector, now: u64, route: Route, f: DeliveryFailure)
    requires
        route_invariant(s),
        s.state == RouteState::Direct,
    ensures
        decide(s, now) == RouteDecision::Use(Route::Direct),
        after_leave(s, now).0 == RouteState::Direct,
        after_failure(s, route, f, now).0 == RouteState::Direct,
{
}

/// An unavailable route is not probed again before its cooldown ends, and is
/// probed once it has.
pub proof fn lemma_cooldown_bounds_probes(s: RouteSelector, now: u64, retry_at: u64)
    requires
        s.state == (RouteState::Unavailable { retry_at }),
    ensures
        now < retry_at ==> decide(s, now) == RouteDecision::Unavailable,
        now >= retry_at ==> decide(s, now) == RouteDecision::Discover,
{
}

/// A batch is replayed through direct intake only after a failure that proves
/// the local route did not process it, and only when a direct endpoint is
/// configured; the session then stays on direct intake.
pub proof fn lemma_replay_only_when_safe(s: RouteSelector, route: Route, f: DeliveryFailure, now: u64)
    requires
        after_failure(s, route, f, now).1,
    ensures
        route != Route::Direct,
        replayable(f),
        s.fallback_allowed,
        s.has_direct,
        after_failure(s, route, f, now).0 == RouteState::Direct,
{
}

/// Under the shared transport's policy, a local attempt that the Agent
/// answers with 403, 429 or a 5xx sends every later batch of a session that
/// may fall back and has a direct endpoint to direct intake; the failed
/// batch itself is not replayed, since the Agent may have processed it.
pub proof fn lemma_agent_rejection_moves_to_direct(
    s: RouteSelector,
    v: ProxyVersion,
    status: u16,
    now: u64,
)
    requires
        s.policy == FailurePolicy::LeaveOnRejection,
        s.fallback_allowed,
        s.has_direct,
        status == 403 || status == 429 || (500 <= status && status < 600),
    ensures
        after_failure(s, Route::Local(v), DeliveryFailure::Status(status), now) == (
            RouteState::Direct,
            false,
        ),
{
}

/// A status the Agent gives that is not a route rejection (404, 405), nor,
/// under the shared transport's policy, 403, 429 or a 5xx, changes nothing.
pub proof fn lemma_other_statuses_keep_the_route(
    s: RouteSelector,
    v: ProxyVersion,
    status: u16,
    now: u64,
)
    requires
        status != 404 && status != 405,
        s.policy != FailurePolicy::LeaveOnRejection || !(status == 403 || status == 429 || (500
            <= status && status < 600)),
    ensures
        after_failure(s, Route::Local(v), DeliveryFailure::Status(status), now) == (s.state, false),
{
}

} // verus!
