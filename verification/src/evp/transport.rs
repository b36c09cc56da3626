//! Per-session EVP transports: the sanitized configuration, the producer
//! identity and the route state of one session.
use vstd::prelude::*;
use vstd::string::*;
use crate::evp::config::{EvpTransportConfig, EvpTransportConfigView, EvpTransportMode, evp_config_check, matches_check, opt_endpoint_view};
use crate::evp::endpoint::{Endpoint, EndpointView, direct_endpoint_error, endpoint_eq, validate_direct_endpoint};
use crate::evp::ffe::{
    FfeConfigurationSource, FfeEvpProducerIdentity, FfeEvpTransportConfig, FfeEvpTransportConfigView,
    EVENT_PLATFORM_INTAKE_SUBDOMAIN, ffe_config_check_without_identity,
};
use crate::evp::identity::EvpProducerIdentity;
use crate::evp::route::{
    FailurePolicy, ProxyVersion, RouteSelector, RouteState, DEFAULT_UNAVAILABLE_RECOVERY_COOLDOWN_MS,
    Route, RouteDecision, DeliveryFailure, decide, after_discovery, after_failure, route_invariant,
};
use crate::text::{str_eq, u64_to_decimal, push_char, decimal_digits};
use crate::version::SIDECAR_VERSION;
use crate::evp::delivery::{delivery_endpoint, delivery_endpoint_spec};

verus! {

/// `ep` without its API key: a local receiver must never see direct-intake credentials.
pub open spec fn without_api_key(ep: EndpointView) -> EndpointView {
    EndpointView { api_key: None, ..ep }
}

/// The configuration an EVP transport keeps: no API key on the Agent
/// endpoint, and no direct endpoint in agent-only mode.
pub open spec fn sanitized_evp_config(c: EvpTransportConfigView) -> EvpTransportConfigView {
    EvpTransportConfigView {
        agent_endpoint: without_api_key(c.agent_endpoint),
        direct_endpoint: if c.mode == EvpTransportMode::AgentOnly {
            None
        } else {
            c.direct_endpoint
        },
        ..c
    }
}

/// The initial route state of a session in `mode`.
pub open spec fn initial_evp_route(c: EvpTransportConfigView) -> RouteSelector {
    RouteSelector {
        fallback_allowed: c.mode == EvpTransportMode::PreferLocalThenDirect,
        has_direct: sanitized_evp_config(c).direct_endpoint is Some,
        policy: FailurePolicy::LeaveOnRejection,
        cooldown: DEFAULT_UNAVAILABLE_RECOVERY_COOLDOWN_MS,
        state: if c.mode == EvpTransportMode::AgentOnly {
            RouteState::Local(ProxyVersion::V2)
        } else {
            RouteState::Unresolved
        },
    }
}

/// Removes the API key of an endpoint.
fn strip_api_key(ep: Endpoint) -> (res: Endpoint)
    ensures
        res@ == without_api_key(ep@),
{
    Endpoint { api_key: None, ..ep }
}

/// The textual scope `"{id}\0{origin}\0{version}"`.
pub open spec fn scope_text(id: u64, origin: Seq<char>, version: Seq<char>) -> Seq<char> {
    decimal_digits(id as nat) + seq!['\0'] + origin + seq!['\0'] + version
}

fn make_scope(id: u64, origin: &str, version: &str) -> (res: String)
    ensures
        res@ == scope_text(id, origin@, version@),
{
    let mut s = u64_to_decimal(id);
    push_char(&mut s, '\0');
    s.append(origin);
    push_char(&mut s, '\0');
    s.append(version);
    s
}

/// The shared EVP transport of one session.
#[derive(Debug)]
pub struct EvpTransport {
    id: u64,
    config: EvpTransportConfig,
    producer: EvpProducerIdentity,
    route: RouteSelector,
}

impl EvpTransport {
    /// The identifier of this session's transport.
    pub closed spec fn spec_id(&self) -> u64 {
        self.id
    }

    /// The configuration this transport keeps.
    pub closed spec fn spec_config(&self) -> EvpTransportConfigView {
        self.config@
    }

    /// The producer identity this transport attaches.
    pub closed spec fn spec_producer(&self) -> (Seq<char>, Seq<char>) {
        self.producer@
    }

    /// The route state of this session.
    pub closed spec fn spec_route(&self) -> RouteSelector {
        self.route
    }

    /// Validates `config` and builds the transport `id`. The Agent endpoint
    /// loses its API key, agent-only sessions lose their direct endpoint, and
    /// the route starts on the Agent's v2 proxy (agent-only) or undecided.
    pub fn new_with_identity(config: EvpTransportConfig, producer: EvpProducerIdentity, id: u64) -> (res:
        Result<Self, String>)
        ensures
            match res {
                Ok(t) => evp_config_check(config@) is Ok && t.spec_id() == id && t.spec_config()
                    == sanitized_evp_config(config@) && t.spec_producer() == producer@ && t.spec_route()
                    == initial_evp_route(config@),
                Err(e) => evp_config_check(config@) == Err::<(), Seq<char>>(e@),
            },
    {
        config.validate()?;
        let mode = config.mode;
        let agent_endpoint = strip_api_key(config.agent_endpoint);
        let direct_endpoint = if mode == EvpTransportMode::AgentOnly {
            None
        } else {
            config.direct_endpoint
        };
        let has_direct = direct_endpoint.is_some();
        let route = RouteSelector {
            fallback_allowed: mode == EvpTransportMode::PreferLocalThenDirect,
            has_direct,
            policy: FailurePolicy::LeaveOnRejection,
            cooldown: DEFAULT_UNAVAILABLE_RECOVERY_COOLDOWN_MS,
            state: if mode == EvpTransportMode::AgentOnly {
                RouteState::Local(ProxyVersion::V2)
            } else {
                RouteState::Unresolved
            },
        };
        let config = EvpTransportConfig {
            mode,
            agent_endpoint,
            direct_endpoint,
            intake_subdomain: config.intake_subdomain,
        };
        Ok(EvpTransport { id, config, producer, route })
    }

    /// An agent-only transport with the sidecar's own identity.
    pub fn agent_only(endpoint: Endpoint, intake_subdomain: &str, id: u64) -> (res: Result<Self, String>)
        ensures
            match res {
                Ok(t) => t.spec_producer() == ("ddtrace-sidecar"@, SIDECAR_VERSION@) && t.spec_route().state
                    == RouteState::Local(ProxyVersion::V2) && !t.spec_route().fallback_allowed
                    && t.spec_config().direct_endpoint is None
                    && t.spec_config().agent_endpoint.api_key is None,
                Err(e) => evp_config_check(
                    EvpTransportConfigView {
                        mode: EvpTransportMode::AgentOnly,
                        agent_endpoint: endpoint@,
                        direct_endpoint: None,
                        intake_subdomain: intake_subdomain@,
                    },
                ) == Err::<(), Seq<char>>(e@),
            },
    {
        Self::new_with_identity(
            EvpTransportConfig::agent_only(endpoint, intake_subdomain),
            EvpProducerIdentity::legacy_sidecar(),
            id,
        )
    }

    /// The configuration this transport keeps.
    pub fn config(&self) -> (res: &EvpTransportConfig)
        ensures
            res@ == self.spec_config(),
    {
        &self.config
    }

    /// The producer identity of this transport.
    pub fn producer(&self) -> (res: &EvpProducerIdentity)
        ensures
            res@ == self.spec_producer(),
    {
        &self.producer
    }

    /// Same effective configuration and producer; route state and identifier
    /// do not count, so reinstalling an unchanged configuration keeps sticky
    /// routing, cooldowns and the deduplication scope.
    pub fn has_same_configuration(&self, other: &Self) -> (res: bool)
        ensures
            res == (self.spec_config() == other.spec_config() && self.spec_producer()
                == other.spec_producer()),
    {
        let a = &self.config;
        let b = &other.config;
        let same_direct = match (&a.direct_endpoint, &b.direct_endpoint) {
            (Some(x), Some(y)) => endpoint_eq(x, y),
            (None, None) => true,
            _ => false,
        };
        a.mode == b.mode && endpoint_eq(&a.agent_endpoint, &b.agent_endpoint) && same_direct && str_eq(
            a.intake_subdomain.as_str(),
            b.intake_subdomain.as_str(),
        ) && self.producer.same_as(&other.producer)
    }


    /// Decides where the next batch goes (see [`decide`]).
    pub fn begin_send(&self, now: u64) -> (res: RouteDecision)
        ensures
            res == decide(self.spec_route(), now),
    {
        self.route.begin_send(now)
    }

    /// Records the result of a capability probe (see [`after_discovery`]).
    pub fn complete_discovery(&mut self, found: Option<ProxyVersion>, now: u64) -> (res: Option<Route>)
        requires
            now + old(self).spec_route().cooldown <= u64::MAX,
        ensures
            (final(self).spec_route().state, res) == after_discovery(old(self).spec_route(), found, now),
            final(self).spec_route() == (RouteSelector { state: final(self).spec_route().state, ..old(self).spec_route() }),
            final(self).spec_id() == old(self).spec_id(),
            final(self).spec_config() == old(self).spec_config(),
            final(self).spec_producer() == old(self).spec_producer(),
    {
        self.route.complete_discovery(found, now)
    }

    /// Handles a failed first attempt (see [`after_failure`]); returns
    /// whether the batch is to be replayed through direct intake.
    pub fn after_failed_attempt(&mut self, route: Route, f: &DeliveryFailure, now: u64) -> (res: bool)
        requires
            now + old(self).spec_route().cooldown <= u64::MAX,
        ensures
            (final(self).spec_route().state, res) == after_failure(old(self).spec_route(), route, *f, now),
            final(self).spec_route() == (RouteSelector { state: final(self).spec_route().state, ..old(self).spec_route() }),
            final(self).spec_id() == old(self).spec_id(),
            final(self).spec_config() == old(self).spec_config(),
            final(self).spec_producer() == old(self).spec_producer(),
    {
        self.route.after_failed_attempt(route, f, now)
    }

    /// The route state of this session.
    pub fn route(&self) -> (res: RouteSelector)
        ensures
            res == self.spec_route(),
    {
        self.route
    }

    /// Sets how long an unavailable route waits before the next probe.
    pub fn set_recovery_cooldown(&mut self, cooldown_ms: u64)
        ensures
            final(self).spec_route() == (RouteSelector { cooldown: cooldown_ms, ..old(self).spec_route() }),
            final(self).spec_id() == old(self).spec_id(),
            final(self).spec_config() == old(self).spec_config(),
            final(self).spec_producer() == old(self).spec_producer(),
    {
        self.route.cooldown = cooldown_ms;
    }

    /// The scope in which exposures are deduplicated: this session's transport
    /// and producer.
    pub fn deduplication_scope(&self) -> (res: String)
        ensures
            res@ == scope_text(self.spec_id(), self.spec_producer().0, self.spec_producer().1),
    {
        make_scope(self.id, self.producer.origin(), self.producer.version())
    }

    /// The endpoint of a delivery attempt on `route` for `intake_path`, from
    /// this session's (sanitized) configuration.
    pub fn delivery_endpoint(&self, route: Route, intake_path: &str) -> (res: Result<Endpoint, String>)
        ensures
            match res {
                Ok(e) => delivery_endpoint_spec(
                    self.spec_config().agent_endpoint,
                    self.spec_config().direct_endpoint,
                    route,
                    intake_path@,
                ) == Ok::<EndpointView, Seq<char>>(e@),
                Err(m) => delivery_endpoint_spec(
                    self.spec_config().agent_endpoint,
                    self.spec_config().direct_endpoint,
                    route,
                    intake_path@,
                ) == Err::<EndpointView, Seq<char>>(m@),
            },
    {
        delivery_endpoint(&self.config.agent_endpoint, &self.config.direct_endpoint, route, intake_path)
    }
}

/// The configuration a feature-flag transport keeps: no API key on the Agent
/// endpoint, and no direct endpoint for Agent-backed flags or when the direct
/// endpoint is not a valid Event Platform intake.
pub open spec fn sanitized_ffe_config(c: FfeEvpTransportConfigView) -> FfeEvpTransportConfigView {
    FfeEvpTransportConfigView {
        agent_endpoint: without_api_key(c.agent_endpoint),
        direct_endpoint: match c.direct_endpoint {
            Some(ep) => if c.source == FfeConfigurationSource::Agent || direct_endpoint_error(
                ep,
                EVENT_PLATFORM_INTAKE_SUBDOMAIN@,
                false,
            ) is Some {
                None
            } else {
                Some(ep)
            },
            None => None,
        },
        ..c
    }
}

/// The initial route state of a feature-flag session.
pub open spec fn initial_ffe_route(c: FfeEvpTransportConfigView) -> RouteSelector {
    RouteSelector {
        fallback_allowed: c.source == FfeConfigurationSource::Agentless,
        has_direct: sanitized_ffe_config(c).direct_endpoint is Some,
        policy: FailurePolicy::LeaveOnReplayableOrAmbiguous,
        cooldown: DEFAULT_UNAVAILABLE_RECOVERY_COOLDOWN_MS,
        state: if c.source == FfeConfigurationSource::Agent {
            RouteState::Local(ProxyVersion::V2)
        } else {
            RouteState::Unresolved
        },
    }
}

/// The feature-flag EVP transport of one session.
#[derive(Debug)]
pub struct FfeEvpTransport {
    id: u64,
    config: FfeEvpTransportConfig,
    producer: FfeEvpProducerIdentity,
    route: RouteSelector,
}

impl FfeEvpTransport {
    /// The identifier of this session's transport.
    pub closed spec fn spec_id(&self) -> u64 {
        self.id
    }

    /// The configuration this transport keeps.
    pub closed spec fn spec_config(&self) -> FfeEvpTransportConfigView {
        self.config@
    }

    /// The producer identity this transport attaches.
    pub closed spec fn spec_producer(&self) -> (Seq<char>, Seq<char>) {
        self.producer@
    }

    /// The route state of this session.
    pub closed spec fn spec_route(&self) -> RouteSelector {
        self.route
    }

    /// A transport for configuration supplied without an identity: agentless
    /// sources are refused, the rest uses the sidecar's own identity.
    pub fn new(config: FfeEvpTransportConfig, id: u64) -> (res: Result<Self, String>)
        ensures
            match res {
                Ok(t) => ffe_config_check_without_identity(config@) is Ok && t.spec_id() == id
                    && t.spec_config() == sanitized_ffe_config(config@) && t.spec_producer() == (
                "ddtrace-sidecar"@, SIDECAR_VERSION@) && t.spec_route() == initial_ffe_route(config@),
                Err(e) => ffe_config_check_without_identity(config@) == Err::<(), Seq<char>>(e@),
            },
    {
        config.validate_without_identity()?;
        Ok(Self::new_with_identity(config, FfeEvpProducerIdentity::legacy_sidecar(), id))
    }

    /// Builds the transport `id`. Invalid direct endpoints, which may come
    /// from an untrusted peer, are dropped rather than refused.
    pub fn new_with_identity(config: FfeEvpTransportConfig, producer: FfeEvpProducerIdentity, id: u64) -> (res: Self)
        ensures
            res.spec_id() == id,
            res.spec_config() == sanitized_ffe_config(config@),
            res.spec_producer() == producer@,
            res.spec_route() == initial_ffe_route(config@),
    {
        let source = config.source;
        let agent_endpoint = strip_api_key(config.agent_endpoint);
        let direct_endpoint = match config.direct_endpoint {
            Some(ep) => {
                if source == FfeConfigurationSource::Agent || validate_direct_endpoint(
                    &ep,
                    EVENT_PLATFORM_INTAKE_SUBDOMAIN,
                    false,
                ).is_err() {
                    None
                } else {
                    Some(ep)
                }
            },
            None => None,
        };
        let has_direct = direct_endpoint.is_some();
        let route = RouteSelector {
            fallback_allowed: source == FfeConfigurationSource::Agentless,
            has_direct,
            policy: FailurePolicy::LeaveOnReplayableOrAmbiguous,
            cooldown: DEFAULT_UNAVAILABLE_RECOVERY_COOLDOWN_MS,
            state: if source == FfeConfigurationSource::Agent {
                RouteState::Local(ProxyVersion::V2)
            } else {
                RouteState::Unresolved
            },
        };
        FfeEvpTransport {
            id,
            config: FfeEvpTransportConfig { source, agent_endpoint, direct_endpoint },
            producer,
            route,
        }
    }

    /// An Agent-backed transport with the sidecar's own identity.
    pub fn agent_only(endpoint: Endpoint, id: u64) -> (res: Self)
        ensures
            res.spec_producer() == ("ddtrace-sidecar"@, SIDECAR_VERSION@),
            res.spec_route().state == RouteState::Local(ProxyVersion::V2),
            !res.spec_route().fallback_allowed,
            res.spec_config().direct_endpoint is None,
            res.spec_config().agent_endpoint == without_api_key(endpoint@),
    {
        Self::new_with_identity(FfeEvpTransportConfig::agent(endpoint), FfeEvpProducerIdentity::legacy_sidecar(), id)
    }

    /// The configuration this transport keeps.
    pub fn config(&self) -> (res: &FfeEvpTransportConfig)
        ensures
            res@ == self.spec_config(),
    {
        &self.config
    }

    /// The producer identity of this transport.
    pub fn producer(&self) -> (res: &FfeEvpProducerIdentity)
        ensures
            res@ == self.spec_producer(),
    {
        &self.producer
    }


    /// Decides where the next batch goes (see [`decide`]).
    pub fn begin_send(&self, now: u64) -> (res: RouteDecision)
        ensures
            res == decide(self.spec_route(), now),
    {
        self.route.begin_send(now)
    }

    /// Records the result of a capability probe (see [`after_discovery`]).
    pub fn complete_discovery(&mut self, found: Option<ProxyVersion>, now: u64) -> (res: Option<Route>)
        requires
            now + old(self).spec_route().cooldown <= u64::MAX,
        ensures
            (final(self).spec_route().state, res) == after_discovery(old(self).spec_route(), found, now),
            final(self).spec_route() == (RouteSelector { state: final(self).spec_route().state, ..old(self).spec_route() }),
            final(self).spec_id() == old(self).spec_id(),
            final(self).spec_config() == old(self).spec_config(),
            final(self).spec_producer() == old(self).spec_producer(),
    {
        self.route.complete_discovery(found, now)
    }

    /// Handles a failed first attempt (see [`after_failure`]); returns
    /// whether the batch is to be replayed through direct intake.
    pub fn after_failed_attempt(&mut self, route: Route, f: &DeliveryFailure, now: u64) -> (res: bool)
        requires
            now + old(self).spec_route().cooldown <= u64::MAX,
        ensures
            (final(self).spec_route().state, res) == after_failure(old(self).spec_route(), route, *f, now),
            final(self).spec_route() == (RouteSelector { state: final(self).spec_route().state, ..old(self).spec_route() }),
            final(self).spec_id() == old(self).spec_id(),
            final(self).spec_config() == old(self).spec_config(),
            final(self).spec_producer() == old(self).spec_producer(),
    {
        self.route.after_failed_attempt(route, f, now)
    }

    /// The route state of this session.
    pub fn route(&self) -> (res: RouteSelector)
        ensures
            res == self.spec_route(),
    {
        self.route
    }

    /// Sets how long an unavailable route waits before the next probe.
    pub fn set_recovery_cooldown(&mut self, cooldown_ms: u64)
        ensures
            final(self).spec_route() == (RouteSelector { cooldown: cooldown_ms, ..old(self).spec_route() }),
            final(self).spec_id() == old(self).spec_id(),
            final(self).spec_config() == old(self).spec_config(),
            final(self).spec_producer() == old(self).spec_producer(),
    {
        self.route.cooldown = cooldown_ms;
    }

    /// The scope in which exposures are deduplicated.
    pub fn deduplication_scope(&self) -> (res: String)
        ensures
            res@ == scope_text(self.spec_id(), self.spec_producer().0, self.spec_producer().1),
    {
        make_scope(self.id, self.producer.origin(), self.producer.version())
    }

    /// The endpoint of a delivery attempt on `route` for `intake_path`, from
    /// this session's (sanitized) configuration.
    pub fn delivery_endpoint(&self, route: Route, intake_path: &str) -> (res: Result<Endpoint, String>)
        ensures
            match res {
                Ok(e) => delivery_endpoint_spec(
                    self.spec_config().agent_endpoint,
                    self.spec_config().direct_endpoint,
                    route,
                    intake_path@,
                ) == Ok::<EndpointView, Seq<char>>(e@),
                Err(m) => delivery_endpoint_spec(
                    self.spec_config().agent_endpoint,
                    self.spec_config().direct_endpoint,
                    route,
                    intake_path@,
                ) == Err::<EndpointView, Seq<char>>(m@),
            },
    {
        delivery_endpoint(&self.config.agent_endpoint, &self.config.direct_endpoint, route, intake_path)
    }
}

/// A new session starts in a reachable route state, keeps no API key on its
/// Agent endpoint, and keeps a direct endpoint only when fallback is allowed
/// and the endpoint is the canonical HTTPS intake of its subdomain.
pub proof fn lemma_evp_transport_start(c: EvpTransportConfigView)
    requires
        evp_config_check(c) is Ok,
    ensures
        route_invariant(initial_evp_route(c)),
        sanitized_evp_config(c).agent_endpoint.api_key is None,
        sanitized_evp_config(c).direct_endpoint matches Some(ep) ==> (c.mode
            == EvpTransportMode::PreferLocalThenDirect && direct_endpoint_error(ep, c.intake_subdomain, true) is None),
{
}

/// A new feature-flag session starts in a reachable route state, keeps no API
/// key on its Agent endpoint, and keeps a direct endpoint only for agentless
/// flags and only when it is the canonical HTTPS Event Platform intake.
pub proof fn lemma_ffe_transport_start(c: FfeEvpTransportConfigView)
    ensures
        route_invariant(initial_ffe_route(c)),
        sanitized_ffe_config(c).agent_endpoint.api_key is None,
        sanitized_ffe_config(c).direct_endpoint matches Some(ep) ==> (c.source
            == FfeConfigurationSource::Agentless && direct_endpoint_error(
            ep,
            EVENT_PLATFORM_INTAKE_SUBDOMAIN@,
            false,
        ) is None),
{
}

/// Credentials reach the intake and nothing else: a delivery through the
/// Agent carries no API key, and a direct delivery goes only to the
/// validated intake endpoint, with its key.
pub proof fn lemma_keys_only_reach_the_intake(c: EvpTransportConfigView, route: Route, path: Seq<char>)
    requires
        evp_config_check(c) is Ok,
    ensures
        ({
            let s = sanitized_evp_config(c);
            let d = delivery_endpoint_spec(s.agent_endpoint, s.direct_endpoint, route, path);
            &&& route is Local ==> (d matches Ok(e) ==> e.api_key is None)
            &&& route is Direct ==> (d matches Ok(e) ==> (s.direct_endpoint matches Some(ep) && e.api_key
                == ep.api_key && direct_endpoint_error(ep, c.intake_subdomain, true) is None))
        }),
{
    lemma_evp_transport_start(c);
}

/// The same for feature-flag sessions: through the Agent no API key, and a
/// direct delivery only to the validated Event Platform intake.
pub proof fn lemma_ffe_keys_only_reach_the_intake(c: FfeEvpTransportConfigView, route: Route, path: Seq<char>)
    ensures
        ({
            let s = sanitized_ffe_config(c);
            let d = delivery_endpoint_spec(s.agent_endpoint, s.direct_endpoint, route, path);
            &&& route is Local ==> (d matches Ok(e) ==> e.api_key is None)
            &&& route is Direct ==> (d matches Ok(e) ==> (s.direct_endpoint matches Some(ep) && e.api_key
                == ep.api_key && direct_endpoint_error(ep, EVENT_PLATFORM_INTAKE_SUBDOMAIN@, false)
                is None))
        }),
{
    lemma_ffe_transport_start(c);
}

} // verus!
