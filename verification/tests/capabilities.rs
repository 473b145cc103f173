use runtrol_daemon::capabilities::{
    discovery_failure, provider_capabilities, provider_capability, CapabilityAvailability, CapabilityFreshness,
    CapabilityProvenance, CapabilitySource, CapabilityState, Discovery, ProviderCapabilities, ProviderCapability,
};
use runtrol_daemon::kinds::ErrorKind;

fn capability(state: CapabilityState, source: Option<CapabilitySource>, why: Option<&str>) -> ProviderCapability {
    ProviderCapability { state, source, why: why.map(str::to_owned) }
}

#[test]
fn a_capability_keeps_its_state_source_and_reason() {
    let observed = provider_capability(capability(
        CapabilityState::Unsupported,
        Some(CapabilitySource::OfficialCli),
        Some("the CLI has no resume"),
    ));
    assert_eq!(observed.availability, CapabilityAvailability::Unsupported);
    assert_eq!(observed.provenance, Some(CapabilityProvenance::OfficialCli));
    assert_eq!(observed.why.as_deref(), Some("the CLI has no resume"));
    let unknown = provider_capability(capability(CapabilityState::Unknown, None, None));
    assert_eq!(unknown.availability, CapabilityAvailability::Unknown);
    assert_eq!(unknown.provenance, None);
}

#[test]
fn every_capability_is_reported_as_current() {
    let available = || capability(CapabilityState::Available, Some(CapabilitySource::DriverContract), None);
    let reported = provider_capabilities(
        "provider".to_owned(),
        ProviderCapabilities {
            fresh_session: available(),
            resume: available(),
            structured_events: available(),
            interrupt: available(),
            approvals: available(),
            cooling: available(),
            native_session_catalogue: available(),
            set_model: available(),
            set_reasoning_effort: capability(CapabilityState::Unsupported, None, None),
            native_session_delete: available(),
            native_session_archive: available(),
        },
    );
    assert_eq!(reported.provider_id, "provider");
    assert_eq!(reported.freshness, CapabilityFreshness::Current);
    assert_eq!(reported.set_model.expect("set model").availability, CapabilityAvailability::Available);
    assert_eq!(
        reported.set_reasoning_effort.expect("effort").availability,
        CapabilityAvailability::Unsupported
    );
}

#[test]
fn an_unanswered_discovery_says_why() {
    let late = discovery_failure(Discovery::Models, true);
    assert_eq!(late.kind, ErrorKind::RuntimeUnavailable);
    assert_eq!(late.message, "model catalogue discovery exceeded its bounded deadline");
    let failed = discovery_failure(Discovery::Capabilities, false);
    assert_eq!(failed.kind, ErrorKind::ProviderUnavailable);
    assert_eq!(failed.message, "the selected provider could not supply structural capabilities");
    assert_eq!(
        discovery_failure(Discovery::Activity, false).message,
        "the selected provider could not say what it wrote lately"
    );
}

#[test]
fn archive_capability_is_projected_without_guessing() {
    let projected = provider_capabilities("provider-a".to_owned(), ProviderCapabilities::unknown());
    assert_eq!(projected.provider_id, "provider-a");
    assert!(matches!(
        projected.native_session_archive,
        Some(runtrol_daemon::capabilities::CapabilityObservation {
            availability: CapabilityAvailability::Unknown,
            ..
        })
    ));
}
