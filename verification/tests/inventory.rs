use runtrol_daemon::inventory::{installation, provider_help, unresolved_installation, InstallationState, ProbeOutcome};
use runtrol_daemon::auth::{AuthorizedIntegration, IntegrationGrant, IntegrationId, IntegrationKey, IntegrationRootRow};
use runtrol_daemon::control::SessionDescriptor;
use runtrol_daemon::inventory::{
    approved_roots, authorized_root, ProviderInventoryCache, RootObservation, RuntimeInventoryFailure,
    RuntimeSessionCatalogue, RuntimeSessionRecord,
};
use runtrol_daemon::kinds::{AppScope, LifecycleState};

#[test]
fn a_background_provider_scan_cannot_overwrite_a_direct_invalidation() {
    let mut cache = ProviderInventoryCache::new();
    let first = cache
        .begin_background_refresh(0)
        .expect("an empty cache starts one background scan");
    assert!(
        cache.begin_background_refresh(0).is_none(),
        "a second list read coalesces behind the same scan"
    );
    cache.invalidate();
    assert!(
        !cache.finish_background_refresh(first),
        "a probe write makes the older filesystem answer stale"
    );
    assert_ne!(
        cache.begin_background_refresh(0).expect("the invalidated cache may scan again"),
        first
    );
}

#[test]
fn a_fresh_snapshot_is_not_rescanned_within_the_floor() {
    let mut cache = ProviderInventoryCache::new();
    let revision = cache.begin_background_refresh(10_000).expect("scan");
    assert!(cache.finish_background_refresh(revision));
    cache.record_checked(10_000);
    assert!(cache.begin_background_refresh(10_999).is_none());
    assert_eq!(cache.begin_background_refresh(11_000), Some(revision));
}

#[test]
fn invalidation_never_reaches_revision_zero() {
    let mut cache = ProviderInventoryCache { checked_at_ms: Some(1), revision: u64::MAX, background_revision: None };
    cache.invalidate();
    assert_eq!(cache.revision, 1);
    assert!(cache.checked_at_ms.is_none());
}

fn project() -> String {
    "/tmp/runtrol-runtime-root-replacement/project".to_owned()
}

fn authority() -> AuthorizedIntegration {
    AuthorizedIntegration {
        key: IntegrationKey::from_bytes([4; 16]),
        grant: IntegrationGrant {
            integration_id: IntegrationId::new("int_fixture"),
            scopes: vec![AppScope::SessionList],
            roots: vec![project()],
            key_generation: 1,
            grant_generation: 1,
        },
        roots: vec![IntegrationRootRow { path: project(), identity: [5; 24] }],
    }
}

fn catalogue() -> RuntimeSessionCatalogue {
    RuntimeSessionCatalogue {
        sessions: vec![RuntimeSessionRecord {
            session: [8; 16],
            provider: "provider-fixture".to_owned(),
            native: Some("native_fixture".to_owned()),
            descriptor: SessionDescriptor {
                session_id: "session_fixture".to_owned(),
                provider_id: "provider_fixture".to_owned(),
                native_session_id: Some("native_fixture".to_owned()),
                workspace: project(),
                hot: false,
                lifecycle: LifecycleState::Cold,
                looks_stuck: false,
                waiting_on: None,
                session_generation: 0,
                label: None,
            },
            workspace: project(),
        }],
        unreadable: 0,
        available: true,
    }
}

#[test]
fn the_local_surface_sees_the_machine_even_when_an_enrollment_root_was_replaced() {
    let authority = authority();
    let catalogue = catalogue();
    assert_eq!(
        catalogue.authorized(&authority).expect("original root remains authorized").sessions.len(),
        1
    );
    // The approved directory is replaced by another at the same path: its identity changed.
    let replaced = vec![Some(RootObservation { canonical: project(), identity: [6; 24] })];
    assert_eq!(approved_roots(&authority, &replaced).expect_err("the root moved"), RuntimeInventoryFailure::RootAuthorityChanged);
    assert_eq!(
        catalogue.authorized(&authority).expect("the local surface stays machine-wide").sessions.len(),
        1,
        "a replaced enrollment root must not hide the machine from its owner"
    );
}

#[test]
fn sessions_resolve_by_public_identity_and_native_merge_key() {
    let authority = authority();
    let catalogue = catalogue();
    assert_eq!(catalogue.authorized_session(&authority, "session_fixture"), Ok([8; 16]));
    assert_eq!(catalogue.authorized_session(&authority, "missing"), Err(RuntimeInventoryFailure::SessionNotFound));
    assert_eq!(catalogue.provider_of(&[8; 16]).as_deref(), Some("provider-fixture"));
    assert_eq!(catalogue.provider_of(&[9; 16]), None);
    assert_eq!(catalogue.managed_as(&authority, "provider-fixture", "native_fixture"), Ok(Some("session_fixture".to_owned())));
    assert_eq!(catalogue.managed_as(&authority, "other", "native_fixture"), Ok(None));
    let managed = catalogue.authorized_managed_session(&authority, "session_fixture").expect("managed");
    assert_eq!(managed.workspace, project());
    let unavailable = RuntimeSessionCatalogue::unavailable();
    assert_eq!(unavailable.managed_as(&authority, "provider-fixture", "native_fixture"), Err(RuntimeInventoryFailure::Unavailable));
    assert!(unavailable.authorized(&authority).is_err());
}

#[test]
fn unreadable_rows_are_reported_as_a_warning() {
    let mut catalogue = catalogue();
    catalogue.unreadable = 3;
    let list = catalogue.authorized(&authority()).expect("available");
    assert_eq!(list.warnings, vec!["3 stored session rows were unreadable and omitted".to_owned()]);
}

#[test]
fn a_selected_root_must_be_approved_and_unchanged() {
    let authority = authority();
    let current = vec![Some(RootObservation { canonical: project(), identity: [5; 24] })];
    let roots = approved_roots(&authority, &current).expect("unchanged");
    assert_eq!(roots.len(), 1);
    assert_eq!(roots[0].path, project());
    assert!(authorized_root(&authority, &current, &project()).is_ok());
    assert_eq!(authorized_root(&authority, &current, "/elsewhere").expect_err("not approved"), RuntimeInventoryFailure::RootAuthorityChanged);
    assert!(approved_roots(&authority, &vec![None]).is_err());
    let moved = vec![Some(RootObservation { canonical: "/tmp/elsewhere".to_owned(), identity: [5; 24] })];
    assert!(approved_roots(&authority, &moved).is_err());
}

#[test]
fn only_a_probed_executable_is_usable() {
    let (observed, path) = installation(false, Some("/bin/tool".to_owned()), ProbeOutcome::Probed("1.0".to_owned()));
    assert_eq!(observed.state, InstallationState::Unavailable);
    assert_eq!(observed.why.as_deref(), Some("this Runtime build has no driver for the declared provider kind"));
    assert_eq!(path, None);
    let (observed, path) = installation(true, None, ProbeOutcome::NotProbed);
    assert_eq!(observed.state, InstallationState::Missing);
    assert_eq!(path, None);
    let (observed, path) = installation(true, Some("/bin/tool".to_owned()), ProbeOutcome::Unverified);
    assert_eq!(observed.state, InstallationState::Unavailable);
    assert_eq!(observed.why.as_deref(), Some("the installed executable identity could not be verified"));
    assert_eq!(path.as_deref(), Some("/bin/tool"));
    let (observed, _) = installation(true, Some("/bin/tool".to_owned()), ProbeOutcome::NotProbed);
    assert_eq!(observed.why.as_deref(), Some("the installed executable has not completed a verified probe"));
    let (observed, _) = installation(true, Some("/bin/tool".to_owned()), ProbeOutcome::Probed("2.1.0".to_owned()));
    assert_eq!(observed.state, InstallationState::Usable);
    assert_eq!(observed.version.as_deref(), Some("2.1.0"));
    assert_eq!(observed.why, None);
    assert_eq!(unresolved_installation().state, InstallationState::Unavailable);
}

#[test]
fn help_lines_start_from_the_first_declared_executable() {
    let sign_in = vec!["auth".to_owned(), "login".to_owned()];
    let help = provider_help(Some("tool"), &sign_in, &Vec::new(), Some("https://example.test/install"))
        .expect("some help");
    assert_eq!(help.sign_in.as_deref(), Some("tool auth login"));
    assert_eq!(help.diagnose, None);
    assert_eq!(help.install.as_deref(), Some("https://example.test/install"));
    assert!(provider_help(Some("tool"), &Vec::new(), &Vec::new(), None).is_none());
    assert!(provider_help(None, &sign_in, &Vec::new(), None).is_none());
}

#[test]
fn a_managed_session_heats_only_at_its_exact_current_workspace() {
    let managed = || runtrol_daemon::inventory::AuthorizedManagedSession {
        session: [1; 16],
        provider: "provider-a".to_owned(),
        native: Some("native-1".to_owned()),
        descriptor: SessionDescriptor {
            session_id: "ses_1".to_owned(),
            provider_id: "provider-a".to_owned(),
            native_session_id: Some("native-1".to_owned()),
            workspace: "/work/./repo".to_owned(),
            hot: false,
            lifecycle: runtrol_daemon::kinds::LifecycleState::Cold,
            looks_stuck: false,
            waiting_on: None,
            session_generation: 2,
            label: None,
        },
        workspace: "/work/./repo".to_owned(),
    };
    let resolved = runtrol_daemon::inventory::with_canonical_workspace(managed(), Some("/work/repo".to_owned()))
        .expect("resolves");
    assert_eq!(resolved.workspace, "/work/repo");
    assert_eq!(resolved.native.as_deref(), Some("native-1"));
    assert_eq!(
        runtrol_daemon::inventory::with_canonical_workspace(managed(), None).expect_err("gone"),
        RuntimeInventoryFailure::SessionNotFound
    );
}

#[test]
fn a_list_read_reuses_a_young_snapshot_and_restamps_an_older_one() {
    let mut cache = ProviderInventoryCache::new();
    assert_eq!(cache.read_plan(5_000), runtrol_daemon::inventory::InventoryRead::Build);
    cache.record_checked(5_000);
    assert_eq!(cache.read_plan(5_999), runtrol_daemon::inventory::InventoryRead::Cached);
    assert_eq!(cache.read_plan(6_000), runtrol_daemon::inventory::InventoryRead::Restamp);
    cache.invalidate();
    assert_eq!(cache.read_plan(6_000), runtrol_daemon::inventory::InventoryRead::Build);
}
