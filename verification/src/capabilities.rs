//! What a provider driver says it can do, in the public vocabulary, and how a bounded discovery
//! that did not answer is refused.

use vstd::prelude::*;

use crate::kinds::ErrorKind;
use crate::serve::{plain, says, PublicFailure};

verus! {

/// Whether a driver offers one capability.
#[derive(Clone, Copy, Debug, PartialEq, Eq, Structural)]
pub enum CapabilityState {
    Available,
    Unsupported,
    Unknown,
}

/// Where a driver learned what it says of a capability.
#[derive(Clone, Copy, Debug, PartialEq, Eq, Structural)]
pub enum CapabilitySource {
    OfficialProtocol,
    OfficialCli,
    DriverContract,
}

/// What a driver says of one capability.
#[derive(Debug)]
pub struct ProviderCapability {
    pub state: CapabilityState,
    pub source: Option<CapabilitySource>,
    pub why: Option<String>,
}

/// What a driver says of every capability it is asked about.
#[derive(Debug)]
pub struct ProviderCapabilities {
    pub fresh_session: ProviderCapability,
    pub resume: ProviderCapability,
    pub structured_events: ProviderCapability,
    pub interrupt: ProviderCapability,
    pub approvals: ProviderCapability,
    pub cooling: ProviderCapability,
    pub native_session_catalogue: ProviderCapability,
    pub set_model: ProviderCapability,
    pub set_reasoning_effort: ProviderCapability,
    pub native_session_delete: ProviderCapability,
    pub native_session_archive: ProviderCapability,
}

/// A capability nothing is known of.
pub open spec fn unknown_capability(c: ProviderCapability) -> bool {
    c.state == CapabilityState::Unknown && c.source is None && c.why is None
}

impl ProviderCapability {
    /// A capability nothing is known of.
    pub fn unknown() -> (r: Self)
        ensures
            unknown_capability(r),
    {
        ProviderCapability { state: CapabilityState::Unknown, source: None, why: None }
    }
}

impl ProviderCapabilities {
    /// What a driver that has said nothing yet reports: every capability unknown.
    pub fn unknown() -> (r: Self)
        ensures
            unknown_capability(r.fresh_session),
            unknown_capability(r.resume),
            unknown_capability(r.structured_events),
            unknown_capability(r.interrupt),
            unknown_capability(r.approvals),
            unknown_capability(r.cooling),
            unknown_capability(r.native_session_catalogue),
            unknown_capability(r.set_model),
            unknown_capability(r.set_reasoning_effort),
            unknown_capability(r.native_session_delete),
            unknown_capability(r.native_session_archive),
    {
        ProviderCapabilities {
            fresh_session: ProviderCapability::unknown(),
            resume: ProviderCapability::unknown(),
            structured_events: ProviderCapability::unknown(),
            interrupt: ProviderCapability::unknown(),
            approvals: ProviderCapability::unknown(),
            cooling: ProviderCapability::unknown(),
            native_session_catalogue: ProviderCapability::unknown(),
            set_model: ProviderCapability::unknown(),
            set_reasoning_effort: ProviderCapability::unknown(),
            native_session_delete: ProviderCapability::unknown(),
            native_session_archive: ProviderCapability::unknown(),
        }
    }
}

/// The public availability of a capability.
#[derive(Clone, Copy, Debug, PartialEq, Eq, Structural)]
pub enum CapabilityAvailability {
    Available,
    Unsupported,
    Unknown,
}

/// The public provenance of what is said of a capability.
#[derive(Clone, Copy, Debug, PartialEq, Eq, Structural)]
pub enum CapabilityProvenance {
    OfficialProtocol,
    OfficialCli,
    DriverContract,
}

/// One capability as a client reads it.
#[derive(Debug)]
pub struct CapabilityObservation {
    pub availability: CapabilityAvailability,
    pub provenance: Option<CapabilityProvenance>,
    pub why: Option<String>,
}

/// How fresh a capability answer is; discovery always answers from the prepared driver.
#[derive(Clone, Copy, Debug, PartialEq, Eq, Structural)]
pub enum CapabilityFreshness {
    Current,
}

/// A provider's capabilities as a client reads them.
#[derive(Debug)]
pub struct RuntimeProviderCapabilities {
    pub provider_id: String,
    pub freshness: CapabilityFreshness,
    pub fresh_session: CapabilityObservation,
    pub resume: CapabilityObservation,
    pub structured_events: CapabilityObservation,
    pub interrupt: CapabilityObservation,
    pub approvals: CapabilityObservation,
    pub cooling: CapabilityObservation,
    pub native_session_catalogue: CapabilityObservation,
    pub set_model: Option<CapabilityObservation>,
    pub set_reasoning_effort: Option<CapabilityObservation>,
    pub native_session_delete: Option<CapabilityObservation>,
    pub native_session_archive: Option<CapabilityObservation>,
}

pub open spec fn availability_of(state: CapabilityState) -> CapabilityAvailability {
    match state {
        CapabilityState::Available => CapabilityAvailability::Available,
        CapabilityState::Unsupported => CapabilityAvailability::Unsupported,
        CapabilityState::Unknown => CapabilityAvailability::Unknown,
    }
}

pub open spec fn provenance_of(source: CapabilitySource) -> CapabilityProvenance {
    match source {
        CapabilitySource::OfficialProtocol => CapabilityProvenance::OfficialProtocol,
        CapabilitySource::OfficialCli => CapabilityProvenance::OfficialCli,
        CapabilitySource::DriverContract => CapabilityProvenance::DriverContract,
    }
}

/// Whether an observation says exactly what the driver said of a capability.
pub open spec fn observes(o: CapabilityObservation, c: ProviderCapability) -> bool {
    &&& o.availability == availability_of(c.state)
    &&& o.provenance == match c.source {
        Some(s) => Some(provenance_of(s)),
        None => None::<CapabilityProvenance>,
    }
    &&& o.why == c.why
}

/// One capability in the public vocabulary, with its explanation carried over unchanged.
pub fn provider_capability(capability: ProviderCapability) -> (r: CapabilityObservation)
    ensures
        observes(r, capability),
{
    let availability = match capability.state {
        CapabilityState::Available => CapabilityAvailability::Available,
        CapabilityState::Unsupported => CapabilityAvailability::Unsupported,
        CapabilityState::Unknown => CapabilityAvailability::Unknown,
    };
    let provenance = match capability.source {
        Some(CapabilitySource::OfficialProtocol) => Some(CapabilityProvenance::OfficialProtocol),
        Some(CapabilitySource::OfficialCli) => Some(CapabilityProvenance::OfficialCli),
        Some(CapabilitySource::DriverContract) => Some(CapabilityProvenance::DriverContract),
        None => None,
    };
    CapabilityObservation { availability, provenance, why: capability.why }
}

/// Every capability a driver reported, as current, in the public vocabulary.
pub fn provider_capabilities(provider_id: String, capabilities: ProviderCapabilities) -> (r:
    RuntimeProviderCapabilities)
    ensures
        r.provider_id == provider_id,
        r.freshness == CapabilityFreshness::Current,
        observes(r.fresh_session, capabilities.fresh_session),
        observes(r.resume, capabilities.resume),
        observes(r.structured_events, capabilities.structured_events),
        observes(r.interrupt, capabilities.interrupt),
        observes(r.approvals, capabilities.approvals),
        observes(r.cooling, capabilities.cooling),
        observes(r.native_session_catalogue, capabilities.native_session_catalogue),
        r.set_model matches Some(o) && observes(o, capabilities.set_model),
        r.set_reasoning_effort matches Some(o) && observes(o, capabilities.set_reasoning_effort),
        r.native_session_delete matches Some(o) && observes(o, capabilities.native_session_delete),
        r.native_session_archive matches Some(o) && observes(o, capabilities.native_session_archive),
{
    RuntimeProviderCapabilities {
        provider_id,
        freshness: CapabilityFreshness::Current,
        fresh_session: provider_capability(capabilities.fresh_session),
        resume: provider_capability(capabilities.resume),
        structured_events: provider_capability(capabilities.structured_events),
        interrupt: provider_capability(capabilities.interrupt),
        approvals: provider_capability(capabilities.approvals),
        cooling: provider_capability(capabilities.cooling),
        native_session_catalogue: provider_capability(capabilities.native_session_catalogue),
        set_model: Some(provider_capability(capabilities.set_model)),
        set_reasoning_effort: Some(provider_capability(capabilities.set_reasoning_effort)),
        native_session_delete: Some(provider_capability(capabilities.native_session_delete)),
        native_session_archive: Some(provider_capability(capabilities.native_session_archive)),
    }
}

/// What a bounded provider discovery was asked for.
#[derive(Clone, Copy, Debug, PartialEq, Eq, Structural)]
pub enum Discovery {
    Capabilities,
    Models,
    Activity,
}

/// The refusal of a discovery that did not answer: the provider failed, or the bounded deadline
/// passed first.
pub open spec fn discovery_refusal(what: Discovery, timed_out: bool) -> (ErrorKind, Seq<char>) {
    if timed_out {
        (
            ErrorKind::RuntimeUnavailable,
            match what {
                Discovery::Capabilities => "provider capability discovery exceeded its bounded deadline"@,
                Discovery::Models => "model catalogue discovery exceeded its bounded deadline"@,
                Discovery::Activity => "naming what was written lately exceeded its bounded deadline"@,
            },
        )
    } else {
        (
            ErrorKind::ProviderUnavailable,
            match what {
                Discovery::Capabilities => "the selected provider could not supply structural capabilities"@,
                Discovery::Models => "the selected provider could not supply a model catalogue"@,
                Discovery::Activity => "the selected provider could not say what it wrote lately"@,
            },
        )
    }
}

/// Refuse a discovery that did not answer.
pub fn discovery_failure(what: Discovery, timed_out: bool) -> (r: PublicFailure)
    ensures
        says(r, discovery_refusal(what, timed_out).0, discovery_refusal(what, timed_out).1),
{
    if timed_out {
        match what {
            Discovery::Capabilities => plain(
                ErrorKind::RuntimeUnavailable,
                "provider capability discovery exceeded its bounded deadline",
            ),
            Discovery::Models => plain(ErrorKind::RuntimeUnavailable, "model catalogue discovery exceeded its bounded deadline"),
            Discovery::Activity => plain(
                ErrorKind::RuntimeUnavailable,
                "naming what was written lately exceeded its bounded deadline",
            ),
        }
    } else {
        match what {
            Discovery::Capabilities => plain(
                ErrorKind::ProviderUnavailable,
                "the selected provider could not supply structural capabilities",
            ),
            Discovery::Models => plain(ErrorKind::ProviderUnavailable, "the selected provider could not supply a model catalogue"),
            Discovery::Activity => plain(ErrorKind::ProviderUnavailable, "the selected provider could not say what it wrote lately"),
        }
    }
}

} // verus!
