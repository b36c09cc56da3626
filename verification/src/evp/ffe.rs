//! Feature-flag (FFE) EVP producer identity and transport configuration.
use vstd::prelude::*;
use vstd::string::*;
use crate::evp::endpoint::{Endpoint, direct_endpoint_error, validate_direct_endpoint};
use crate::evp::config::{opt_endpoint_view, matches_check};
use crate::evp::identity::{FieldProblem, field_problem, lemma_legacy_identity_is_valid, check_identity_field, too_long_message, too_long_text, MAX_FFE_EVP_PRODUCER_IDENTITY_LENGTH};
use crate::evp::endpoint::EndpointView;
use crate::text::str_eq;
use crate::version::SIDECAR_VERSION;

verus! {

/// The intake subdomain of the Event Platform.
pub const EVENT_PLATFORM_INTAKE_SUBDOMAIN: &'static str = "event-platform-intake";

/// Why an FFE producer identity was refused.
#[derive(Debug, PartialEq, Eq, Structural)]
pub enum FfeEvpProducerIdentityError {
    EmptyOrigin,
    EmptyVersion,
    OriginTooLong { length: usize },
    VersionTooLong { length: usize },
    InvalidOrigin,
    InvalidVersion,
}

/// The text of each identity error.
pub open spec fn ffe_identity_error_message(e: FfeEvpProducerIdentityError) -> Seq<char> {
    match e {
        FfeEvpProducerIdentityError::EmptyOrigin => "EVP producer origin must not be empty"@,
        FfeEvpProducerIdentityError::EmptyVersion => "EVP producer version must not be empty"@,
        FfeEvpProducerIdentityError::OriginTooLong { length } => too_long_message(
            "origin"@,
            length,
            MAX_FFE_EVP_PRODUCER_IDENTITY_LENGTH,
        ),
        FfeEvpProducerIdentityError::VersionTooLong { length } => too_long_message(
            "version"@,
            length,
            MAX_FFE_EVP_PRODUCER_IDENTITY_LENGTH,
        ),
        FfeEvpProducerIdentityError::InvalidOrigin => "EVP producer origin is not a valid HTTP header value"@,
        FfeEvpProducerIdentityError::InvalidVersion => "EVP producer version is not a valid HTTP header value"@,
    }
}

impl FfeEvpProducerIdentityError {
    /// The error's text, as a user reads it.
    pub fn message(&self) -> (res: String)
        ensures
            res@ == ffe_identity_error_message(*self),
    {
        match self {
            FfeEvpProducerIdentityError::EmptyOrigin => "EVP producer origin must not be empty".to_owned(),
            FfeEvpProducerIdentityError::EmptyVersion => "EVP producer version must not be empty".to_owned(),
            FfeEvpProducerIdentityError::OriginTooLong { length } => too_long_text(
                "origin",
                *length,
                MAX_FFE_EVP_PRODUCER_IDENTITY_LENGTH,
            ),
            FfeEvpProducerIdentityError::VersionTooLong { length } => too_long_text(
                "version",
                *length,
                MAX_FFE_EVP_PRODUCER_IDENTITY_LENGTH,
            ),
            FfeEvpProducerIdentityError::InvalidOrigin => "EVP producer origin is not a valid HTTP header value".to_owned(),
            FfeEvpProducerIdentityError::InvalidVersion => "EVP producer version is not a valid HTTP header value".to_owned(),
        }
    }
}

/// The error for a field problem, for the origin or for the version.
pub open spec fn ffe_identity_error(p: FieldProblem, is_origin: bool) -> FfeEvpProducerIdentityError {
    match p {
        FieldProblem::Empty => if is_origin {
            FfeEvpProducerIdentityError::EmptyOrigin
        } else {
            FfeEvpProducerIdentityError::EmptyVersion
        },
        FieldProblem::TooLong { length } => if is_origin {
            FfeEvpProducerIdentityError::OriginTooLong { length }
        } else {
            FfeEvpProducerIdentityError::VersionTooLong { length }
        },
        FieldProblem::Invalid => if is_origin {
            FfeEvpProducerIdentityError::InvalidOrigin
        } else {
            FfeEvpProducerIdentityError::InvalidVersion
        },
    }
}

/// The outcome of building an FFE identity; the origin is checked first.
pub open spec fn ffe_identity_check(origin: Seq<char>, version: Seq<char>) -> Result<
    (Seq<char>, Seq<char>),
    FfeEvpProducerIdentityError,
> {
    match field_problem(origin) {
        Some(p) => Err(ffe_identity_error(p, true)),
        None => match field_problem(version) {
            Some(p) => Err(ffe_identity_error(p, false)),
            None => Ok((origin, version)),
        },
    }
}

fn to_ffe_identity_error(p: FieldProblem, is_origin: bool) -> (res: FfeEvpProducerIdentityError)
    ensures
        res == ffe_identity_error(p, is_origin),
{
    match p {
        FieldProblem::Empty => if is_origin {
            FfeEvpProducerIdentityError::EmptyOrigin
        } else {
            FfeEvpProducerIdentityError::EmptyVersion
        },
        FieldProblem::TooLong { length } => if is_origin {
            FfeEvpProducerIdentityError::OriginTooLong { length }
        } else {
            FfeEvpProducerIdentityError::VersionTooLong { length }
        },
        FieldProblem::Invalid => if is_origin {
            FfeEvpProducerIdentityError::InvalidOrigin
        } else {
            FfeEvpProducerIdentityError::InvalidVersion
        },
    }
}

/// Logical SDK identity attached to FFE EVP requests.
#[derive(Debug)]
pub struct FfeEvpProducerIdentity {
    origin: String,
    version: String,
}

impl View for FfeEvpProducerIdentity {
    type V = (Seq<char>, Seq<char>);

    closed spec fn view(&self) -> (Seq<char>, Seq<char>) {
        (self.origin@, self.version@)
    }
}

impl FfeEvpProducerIdentity {
    /// Builds an identity under the same rules as the EVP producer identity.
    pub fn new(origin: &str, version: &str) -> (res: Result<Self, FfeEvpProducerIdentityError>)
        ensures
            match res {
                Ok(id) => ffe_identity_check(origin@, version@) == Ok::<_, FfeEvpProducerIdentityError>(id@),
                Err(e) => ffe_identity_check(origin@, version@) == Err::<(Seq<char>, Seq<char>), _>(e),
            },
    {
        if let Some(p) = check_identity_field(origin) {
            return Err(to_ffe_identity_error(p, true));
        }
        if let Some(p) = check_identity_field(version) {
            return Err(to_ffe_identity_error(p, false));
        }
        Ok(FfeEvpProducerIdentity { origin: origin.to_owned(), version: version.to_owned() })
    }

    /// The producer's origin (SDK name).
    pub fn origin(&self) -> (res: &str)
        ensures
            res@ == self@.0,
    {
        self.origin.as_str()
    }

    /// The producer's version.
    pub fn version(&self) -> (res: &str)
        ensures
            res@ == self@.1,
    {
        self.version.as_str()
    }

    /// The identity of the sidecar itself.
    pub fn legacy_sidecar() -> (res: Self)
        ensures
            res@ == ("ddtrace-sidecar"@, SIDECAR_VERSION@),
    {
        FfeEvpProducerIdentity { origin: "ddtrace-sidecar".to_owned(), version: SIDECAR_VERSION.to_owned() }
    }

    /// A copy of this identity.
    pub fn duplicate(&self) -> (res: Self)
        ensures
            res@ == self@,
    {
        FfeEvpProducerIdentity { origin: self.origin.clone(), version: self.version.clone() }
    }

    /// Whether two identities are equal.
    pub fn same_as(&self, other: &Self) -> (res: bool)
        ensures
            res == (self@ == other@),
    {
        str_eq(self.origin.as_str(), other.origin.as_str()) && str_eq(
            self.version.as_str(),
            other.version.as_str(),
        )
    }
}

/// Where the feature flags come from, which decides whether direct EVP
/// fallback is allowed.
#[derive(Debug, Clone, Copy, PartialEq, Eq, Structural)]
pub enum FfeConfigurationSource {
    /// Agent-backed feature flags: EVP stays on the Agent.
    Agent,
    /// CDN-delivered feature flags: EVP may fall back to direct intake.
    Agentless,
}

/// Per-session FFE EVP configuration.
#[derive(Debug)]
pub struct FfeEvpTransportConfig {
    pub source: FfeConfigurationSource,
    pub agent_endpoint: Endpoint,
    pub direct_endpoint: Option<Endpoint>,
}

/// Spec view of [`FfeEvpTransportConfig`].
pub struct FfeEvpTransportConfigView {
    pub source: FfeConfigurationSource,
    pub agent_endpoint: EndpointView,
    pub direct_endpoint: Option<EndpointView>,
}

impl View for FfeEvpTransportConfig {
    type V = FfeEvpTransportConfigView;

    open spec fn view(&self) -> FfeEvpTransportConfigView {
        FfeEvpTransportConfigView {
            source: self.source,
            agent_endpoint: self.agent_endpoint@,
            direct_endpoint: opt_endpoint_view(self.direct_endpoint),
        }
    }
}

/// The outcome of [`FfeEvpTransportConfig::validate`]: for an agentless
/// source, a direct endpoint must be the canonical HTTPS Event Platform intake.
pub open spec fn ffe_config_check(c: FfeEvpTransportConfigView) -> Result<(), Seq<char>> {
    if c.source != FfeConfigurationSource::Agentless {
        Ok(())
    } else {
        match c.direct_endpoint {
            None => Ok(()),
            Some(ep) => match direct_endpoint_error(ep, EVENT_PLATFORM_INTAKE_SUBDOMAIN@, false) {
                Some(e) => Err(e),
                None => Ok(()),
            },
        }
    }
}

/// The message for agentless configuration supplied without an identity.
pub open spec fn msg_agentless_needs_identity() -> Seq<char> {
    "Agentless EVP configuration requires a logical SDK producer identity"@
}

/// The outcome of [`FfeEvpTransportConfig::validate_without_identity`].
pub open spec fn ffe_config_check_without_identity(c: FfeEvpTransportConfigView) -> Result<(), Seq<char>> {
    match ffe_config_check(c) {
        Err(e) => Err(e),
        Ok(()) => if c.source == FfeConfigurationSource::Agentless {
            Err(msg_agentless_needs_identity())
        } else {
            Ok(())
        },
    }
}

impl FfeEvpTransportConfig {
    /// Agent-backed configuration, without direct intake.
    pub fn agent(agent_endpoint: Endpoint) -> (res: Self)
        ensures
            res@ == (FfeEvpTransportConfigView {
                source: FfeConfigurationSource::Agent,
                agent_endpoint: agent_endpoint@,
                direct_endpoint: None,
            }),
    {
        FfeEvpTransportConfig { source: FfeConfigurationSource::Agent, agent_endpoint, direct_endpoint: None }
    }

    /// Agentless configuration with an optional direct endpoint.
    pub fn agentless(agent_endpoint: Endpoint, direct_endpoint: Option<Endpoint>) -> (res: Self)
        ensures
            res@ == (FfeEvpTransportConfigView {
                source: FfeConfigurationSource::Agentless,
                agent_endpoint: agent_endpoint@,
                direct_endpoint: opt_endpoint_view(direct_endpoint),
            }),
    {
        FfeEvpTransportConfig { source: FfeConfigurationSource::Agentless, agent_endpoint, direct_endpoint }
    }

    /// Rejects direct credentials unless their destination is the canonical
    /// HTTPS Event Platform intake for a Datadog site.
    pub fn validate(&self) -> (res: Result<(), String>)
        ensures
            matches_check(res, ffe_config_check(self@)),
    {
        if self.source != FfeConfigurationSource::Agentless {
            return Ok(());
        }
        match &self.direct_endpoint {
            Some(endpoint) => validate_direct_endpoint(endpoint, EVENT_PLATFORM_INTAKE_SUBDOMAIN, false),
            None => Ok(()),
        }
    }

    /// Validates configuration supplied without a producer identity: an
    /// agentless source is refused, since direct intake must identify the SDK
    /// that produced the events.
    pub fn validate_without_identity(&self) -> (res: Result<(), String>)
        ensures
            matches_check(res, ffe_config_check_without_identity(self@)),
    {
        self.validate()?;
        if self.source == FfeConfigurationSource::Agentless {
            return Err("Agentless EVP configuration requires a logical SDK producer identity".to_owned());
        }
        Ok(())
    }
}

/// Identity-bearing FFE configuration.
#[derive(Debug)]
pub struct FfeEvpTransportConfigWithIdentity {
    pub transport: FfeEvpTransportConfig,
    pub producer: FfeEvpProducerIdentity,
}

impl FfeEvpTransportConfigWithIdentity {
    /// Pairs a validated configuration with its producer.
    pub fn new(transport: FfeEvpTransportConfig, producer: FfeEvpProducerIdentity) -> (res: Result<
        Self,
        String,
    >)
        ensures
            match res {
                Ok(c) => ffe_config_check(transport@) is Ok && c.transport@ == transport@
                    && c.producer@ == producer@,
                Err(e) => ffe_config_check(transport@) == Err::<(), Seq<char>>(e@),
            },
    {
        match transport.validate() {
            Ok(()) => Ok(FfeEvpTransportConfigWithIdentity { transport, producer }),
            Err(e) => Err(e),
        }
    }
}

/// The legacy identity, `ddtrace-sidecar` at the sidecar's version, is a
/// valid feature-flag producer identity.
pub proof fn lemma_ffe_legacy_identity_is_valid()
    ensures
        ffe_identity_check("ddtrace-sidecar"@, SIDECAR_VERSION@) == Ok::<
            (Seq<char>, Seq<char>),
            FfeEvpProducerIdentityError,
        >(("ddtrace-sidecar"@, SIDECAR_VERSION@)),
{
    lemma_legacy_identity_is_valid();
}

} // verus!
