//! Per-session EVP transport configuration and its validation.
use vstd::prelude::*;
use vstd::string::*;
use crate::evp::endpoint::{
    Endpoint, EndpointView, direct_endpoint_error, intake_subdomain_check, validate_direct_endpoint,
    validate_intake_subdomain,
};
use crate::evp::identity::EvpProducerIdentity;

verus! {

/// Routing policy selected by an EVP consumer.
#[derive(Debug, Clone, Copy, PartialEq, Eq, Structural)]
pub enum EvpTransportMode {
    /// Keep the historical fixed Agent EVP v2 route.
    AgentOnly,
    /// Prefer a compatible local EVP route, then fall back to direct intake.
    PreferLocalThenDirect,
}

/// Explicit per-session EVP configuration.
#[derive(Debug)]
pub struct EvpTransportConfig {
    pub mode: EvpTransportMode,
    pub agent_endpoint: Endpoint,
    pub direct_endpoint: Option<Endpoint>,
    pub intake_subdomain: String,
}

/// Spec view of [`EvpTransportConfig`].
pub struct EvpTransportConfigView {
    pub mode: EvpTransportMode,
    pub agent_endpoint: EndpointView,
    pub direct_endpoint: Option<EndpointView>,
    pub intake_subdomain: Seq<char>,
}

/// The view of an optional endpoint.
pub open spec fn opt_endpoint_view(o: Option<Endpoint>) -> Option<EndpointView> {
    match o {
        Some(e) => Some(e@),
        None => None,
    }
}

impl View for EvpTransportConfig {
    type V = EvpTransportConfigView;

    open spec fn view(&self) -> EvpTransportConfigView {
        EvpTransportConfigView {
            mode: self.mode,
            agent_endpoint: self.agent_endpoint@,
            direct_endpoint: opt_endpoint_view(self.direct_endpoint),
            intake_subdomain: self.intake_subdomain@,
        }
    }
}

/// The outcome of [`EvpTransportConfig::validate`]: the subdomain must be one
/// DNS label, and in `PreferLocalThenDirect` mode a direct endpoint, when
/// present, must be the canonical HTTPS intake for that subdomain.
pub open spec fn evp_config_check(c: EvpTransportConfigView) -> Result<(), Seq<char>> {
    match intake_subdomain_check(c.intake_subdomain) {
        Err(e) => Err(e),
        Ok(()) => if c.mode != EvpTransportMode::PreferLocalThenDirect {
            Ok(())
        } else {
            match c.direct_endpoint {
                None => Ok(()),
                Some(ep) => match direct_endpoint_error(ep, c.intake_subdomain, true) {
                    Some(e) => Err(e),
                    None => Ok(()),
                },
            }
        },
    }
}

/// A string result matches a spec outcome.
pub open spec fn matches_check(res: Result<(), String>, check: Result<(), Seq<char>>) -> bool {
    match res {
        Ok(()) => check is Ok,
        Err(e) => check == Err::<(), Seq<char>>(e@),
    }
}

impl EvpTransportConfig {
    /// Agent-only configuration: the fixed Agent EVP v2 route, no direct intake.
    pub fn agent_only(agent_endpoint: Endpoint, intake_subdomain: &str) -> (res: Self)
        ensures
            res@ == (EvpTransportConfigView {
                mode: EvpTransportMode::AgentOnly,
                agent_endpoint: agent_endpoint@,
                direct_endpoint: None,
                intake_subdomain: intake_subdomain@,
            }),
    {
        EvpTransportConfig {
            mode: EvpTransportMode::AgentOnly,
            agent_endpoint,
            direct_endpoint: None,
            intake_subdomain: intake_subdomain.to_owned(),
        }
    }

    /// Local discovery with an optional authenticated direct fallback.
    pub fn prefer_local_then_direct(
        agent_endpoint: Endpoint,
        direct_endpoint: Option<Endpoint>,
        intake_subdomain: &str,
    ) -> (res: Self)
        ensures
            res@ == (EvpTransportConfigView {
                mode: EvpTransportMode::PreferLocalThenDirect,
                agent_endpoint: agent_endpoint@,
                direct_endpoint: opt_endpoint_view(direct_endpoint),
                intake_subdomain: intake_subdomain@,
            }),
    {
        EvpTransportConfig {
            mode: EvpTransportMode::PreferLocalThenDirect,
            agent_endpoint,
            direct_endpoint,
            intake_subdomain: intake_subdomain.to_owned(),
        }
    }

    /// Validates the target and rejects direct credentials unless their
    /// destination is the configured canonical HTTPS intake.
    pub fn validate(&self) -> (res: Result<(), String>)
        ensures
            matches_check(res, evp_config_check(self@)),
    {
        validate_intake_subdomain(self.intake_subdomain.as_str())?;
        if self.mode != EvpTransportMode::PreferLocalThenDirect {
            return Ok(());
        }
        match &self.direct_endpoint {
            Some(endpoint) => validate_direct_endpoint(endpoint, self.intake_subdomain.as_str(), true),
            None => Ok(()),
        }
    }
}

/// Identity-bearing configuration, used when a client explicitly configures
/// the shared EVP transport.
#[derive(Debug)]
pub struct EvpTransportConfigWithIdentity {
    pub transport: EvpTransportConfig,
    pub producer: EvpProducerIdentity,
}

impl EvpTransportConfigWithIdentity {
    /// Pairs a validated configuration with its producer.
    pub fn new(transport: EvpTransportConfig, producer: EvpProducerIdentity) -> (res: Result<
        Self,
        String,
    >)
        ensures
            match res {
                Ok(c) => evp_config_check(transport@) is Ok && c.transport@ == transport@
                    && c.producer@ == producer@,
                Err(e) => evp_config_check(transport@) == Err::<(), Seq<char>>(e@),
            },
    {
        match transport.validate() {
            Ok(()) => Ok(EvpTransportConfigWithIdentity { transport, producer }),
            Err(e) => Err(e),
        }
    }
}

} // verus!
