use runtrol_daemon::auth::{AuthorizedIntegration, IntegrationGrant, IntegrationId, IntegrationKey, IntegrationRootRow};
use runtrol_daemon::catalogue::{
    check_listing_cursor, discovery_answer, finish_listing, open_listing, NativeDiscoveryFailure,
    authorize_catalogue, is_under, map_coverage, map_resume, omitted_sentence, CatalogueCoverage,
    CatalogueSource, NativeResumeCapability, NativeSessionCatalogue, NativeSessionEntry,
    ProviderCatalogue, ProviderCoverage, ProviderResume, ProviderSource, ResolvedPaths,
};
use runtrol_daemon::control::SessionDescriptor;
use runtrol_daemon::cursor::{AuthorizedRoot, NativeCursorCodec};
use runtrol_daemon::inventory::{RuntimeInventoryFailure, RuntimeSessionCatalogue, RuntimeSessionRecord};
use runtrol_daemon::kinds::{AppScope, ErrorKind, LifecycleState};
use runtrol_daemon::serve::Bounded;

const NOW: u64 = 1_700_000_000_000;

/// The one provider answer both scope tests are judged against: two rows inside a folder the
/// integration holds, sharing one native identity that a managed session already owns, and one
/// row in a folder it does not hold.
struct CatalogueFixture {
    root: AuthorizedRoot,
    authority: AuthorizedIntegration,
    managed: RuntimeSessionCatalogue,
    project: String,
    outside: String,
}

impl CatalogueFixture {
    fn make(name: &str) -> Self {
        let base = format!("/tmp/runtrol-native-catalogue-{name}");
        let project = format!("{base}/project");
        let outside = format!("{base}/outside");
        let root = AuthorizedRoot { path: project.clone(), identity: [3; 24] };
        let authority = AuthorizedIntegration {
            key: IntegrationKey::from_bytes([7; 16]),
            grant: IntegrationGrant {
                integration_id: IntegrationId::new("int_fixture"),
                scopes: vec![AppScope::SessionNativeDiscover],
                roots: vec![project.clone()],
                key_generation: 2,
                grant_generation: 3,
            },
            roots: vec![IntegrationRootRow { path: project.clone(), identity: [3; 24] }],
        };
        let managed = RuntimeSessionCatalogue {
            sessions: vec![RuntimeSessionRecord {
                session: [1; 16],
                provider: "provider".to_owned(),
                native: Some("native-1".to_owned()),
                descriptor: SessionDescriptor {
                    session_id: "session_fixture".to_owned(),
                    provider_id: "provider".to_owned(),
                    native_session_id: Some("native-1".to_owned()),
                    workspace: project.clone(),
                    hot: false,
                    lifecycle: LifecycleState::Cold,
                    looks_stuck: false,
                    waiting_on: None,
                    session_generation: 0,
                    label: None,
                },
                workspace: project.clone(),
            }],
            unreadable: 0,
            available: true,
        };
        CatalogueFixture { root, authority, managed, project, outside }
    }

    fn entry(native: &str, cwd: &str, title: Option<&str>) -> NativeSessionEntry {
        NativeSessionEntry {
            native: native.to_owned(),
            cwd: cwd.to_owned(),
            additional_directories: Vec::new(),
            title: title.map(str::to_owned),
            updated_at: None,
            resume: ProviderResume::Available,
        }
    }

    fn answered(&self) -> ProviderCatalogue {
        ProviderCatalogue {
            coverage: ProviderCoverage::Complete { source: ProviderSource::OfficialProtocol },
            sessions: vec![
                Self::entry("native-1", &self.project, Some("Provider title")),
                Self::entry("native-1", &self.project, None),
                Self::entry("native-outside", &self.outside, None),
            ],
            next_cursor: None,
        }
    }

    fn resolved(&self) -> Vec<ResolvedPaths> {
        vec![
            ResolvedPaths { cwd: Some(self.project.clone()), additional: Some(Vec::new()) },
            ResolvedPaths { cwd: Some(self.project.clone()), additional: Some(Vec::new()) },
            ResolvedPaths { cwd: Some(self.outside.clone()), additional: Some(Vec::new()) },
        ]
    }

    fn authorized(&self, scope: Option<&AuthorizedRoot>) -> NativeSessionCatalogue {
        authorize_catalogue(
            &NativeCursorCodec::new().expect("random codec"),
            &self.authority,
            scope,
            std::slice::from_ref(&self.root),
            &self.managed,
            "provider",
            [4; 32],
            &self.answered(),
            &self.resolved(),
            NOW,
        )
        .expect("filter catalogue")
    }
}

#[test]
fn a_named_folder_keeps_its_boundary_and_merges_by_native_identity() {
    let fixture = CatalogueFixture::make("folder");
    let public = fixture.authorized(Some(&fixture.root));
    assert_eq!(public.sessions.len(), 1, "the row outside the folder is not shown");
    assert!(
        public.sessions.first().is_some_and(|session| session.already_managed_as.is_some()),
        "the two rows sharing one native identity collapse into the managed one"
    );
    assert!(matches!(
        public.coverage,
        CatalogueCoverage::Partial { ref why, .. }
            if why.contains("2 listed conversations are not shown")
    ));
}

#[test]
fn the_machine_scope_shows_a_conversation_whose_folder_was_never_approved() {
    let fixture = CatalogueFixture::make("machine");
    let machine = fixture.authorized(None);
    assert_eq!(machine.sessions.len(), 2, "the unapproved folder's row survives");
    assert!(
        machine.sessions.iter().any(|session| session.cwd.as_str() == fixture.outside.as_str()),
        "and it is the one outside the approved root"
    );
    assert!(
        machine.sessions.iter().any(|session| session.already_managed_as.is_some()),
        "deduplication and managed-session matching are unchanged by the wider scope"
    );
}

#[test]
fn only_unmanaged_resumable_conversations_carry_an_adoption_proof() {
    let fixture = CatalogueFixture::make("proofs");
    let machine = fixture.authorized(None);
    let managed = machine.sessions.iter().find(|s| s.native_session_id == "native-1").expect("managed row");
    assert_eq!(managed.already_managed_as.as_deref(), Some("session_fixture"));
    assert!(managed.adoption_token.is_none());
    assert_eq!(managed.title.as_deref(), Some("Provider title"));
    let outside = machine.sessions.iter().find(|s| s.native_session_id == "native-outside").expect("outside row");
    assert!(outside.adoption_token.is_some());
    assert_eq!(outside.resume, NativeResumeCapability::Available);
}

#[test]
fn an_unreadable_folder_or_an_unsafe_title_is_omitted_and_counted() {
    let fixture = CatalogueFixture::make("omissions");
    let mut page = fixture.answered();
    page.sessions[0].title = Some("bad\u{1b}title".to_owned());
    let mut resolved = fixture.resolved();
    resolved[2].cwd = None;
    let public = authorize_catalogue(
        &NativeCursorCodec::new().expect("random codec"),
        &fixture.authority,
        None,
        std::slice::from_ref(&fixture.root),
        &fixture.managed,
        "provider",
        [4; 32],
        &page,
        &resolved,
        NOW,
    )
    .expect("filter catalogue");
    // The unsafe title is dropped without taking its identity, so the second row is shown.
    assert_eq!(public.sessions.len(), 1);
    assert!(matches!(
        public.coverage,
        CatalogueCoverage::Partial { ref why, source: CatalogueSource::OfficialProtocol }
            if why == "2 listed conversations are not shown: their folders no longer exist, or they repeat or overrun entries"
    ));
}

#[test]
fn an_unsupported_page_that_lists_something_is_refused() {
    let fixture = CatalogueFixture::make("unsupported");
    let mut page = fixture.answered();
    page.coverage = ProviderCoverage::Unsupported { why: "no listing".to_owned() };
    let refused = authorize_catalogue(
        &NativeCursorCodec::new().expect("random codec"),
        &fixture.authority,
        None,
        std::slice::from_ref(&fixture.root),
        &fixture.managed,
        "provider",
        [4; 32],
        &page,
        &fixture.resolved(),
        NOW,
    );
    assert_eq!(refused.expect_err("refused"), RuntimeInventoryFailure::Unavailable);
}

#[test]
fn the_omission_sentence_counts_what_was_dropped() {
    assert_eq!(
        omitted_sentence(1),
        "1 listed conversation is not shown: its folder no longer exists, or it repeats or overruns an entry"
    );
    assert_eq!(
        omitted_sentence(12),
        "12 listed conversations are not shown: their folders no longer exist, or they repeat or overrun entries"
    );
    assert!(omitted_sentence(0).starts_with("0 listed conversations"));
}

#[test]
fn coverage_keeps_the_provider_reason_and_adds_the_omission() {
    let complete = ProviderCoverage::Complete { source: ProviderSource::OfficialCli };
    assert!(matches!(map_coverage(&complete, 0), Ok(CatalogueCoverage::Complete { source: CatalogueSource::OfficialCli })));
    let partial = ProviderCoverage::Partial { source: ProviderSource::OfficialProtocol, why: "paged".to_owned() };
    match map_coverage(&partial, 1) {
        Ok(CatalogueCoverage::Partial { why, .. }) => assert_eq!(
            why,
            "paged; 1 listed conversation is not shown: its folder no longer exists, or it repeats or overruns an entry"
        ),
        other => panic!("expected partial coverage, got {other:?}"),
    }
    let unsupported = ProviderCoverage::Unsupported { why: "none".to_owned() };
    assert!(map_coverage(&unsupported, 0).is_ok());
    assert!(map_coverage(&unsupported, 1).is_err());
    let unsafe_reason = ProviderCoverage::Partial { source: ProviderSource::OfficialCli, why: "x\u{0}".to_owned() };
    assert!(map_coverage(&unsafe_reason, 0).is_err());
    assert_eq!(map_resume(ProviderResume::Unknown), NativeResumeCapability::Unknown);
}

#[test]
fn a_path_is_under_its_root_only_at_a_separator() {
    assert!(is_under("/work", "/work"));
    assert!(is_under("/work/a", "/work"));
    assert!(is_under("/work/a", "/work/"));
    assert!(is_under(r"C:\work\a", r"C:\work"));
    assert!(!is_under("/workshop", "/work"));
    assert!(!is_under("/wor", "/work"));
}

#[test]
fn a_listing_continues_only_in_its_own_context() {
    let fixture = CatalogueFixture::make("listing");
    let codec = NativeCursorCodec::new().expect("random codec");
    assert!(matches!(
        open_listing(&codec, &fixture.authority, None, "provider", [4; 32], false, None, NOW),
        Err(NativeDiscoveryFailure::RootRequired)
    ));
    assert!(matches!(
        open_listing(&codec, &fixture.authority, Some(&fixture.root), "provider", [4; 32], false, None, NOW),
        Ok(None)
    ));
    let mut answered = fixture.answered();
    answered.next_cursor = Some("provider-page-2".to_owned());
    let page = finish_listing(
        &codec,
        &fixture.authority,
        Some(&fixture.root),
        std::slice::from_ref(&fixture.root),
        &fixture.managed,
        "provider",
        [4; 32],
        &answered,
        &fixture.resolved(),
        None,
        NOW,
    )
    .expect("page");
    let next = page.next_cursor.expect("a sealed continuation");
    assert_ne!(next, "provider-page-2", "the provider's cursor is never handed out raw");
    let opened = open_listing(&codec, &fixture.authority, Some(&fixture.root), "provider", [4; 32], false, Some(&next), NOW)
        .expect("opens")
        .expect("a continuation");
    assert_eq!(opened.provider_cursor, "provider-page-2");
    assert!(matches!(
        open_listing(&codec, &fixture.authority, Some(&fixture.root), "provider", [5; 32], false, Some(&next), NOW),
        Err(NativeDiscoveryFailure::Cursor(_))
    ));
    assert!(matches!(
        open_listing(&codec, &fixture.authority, None, "provider", [4; 32], true, Some(&next), NOW),
        Err(NativeDiscoveryFailure::Cursor(_))
    ), "a folder's continuation does not open for the machine");
}

#[test]
fn discovery_failures_answer_in_the_public_vocabulary() {
    assert!(check_listing_cursor(None).is_ok());
    assert!(check_listing_cursor(Some(&"c".repeat(8192))).is_ok());
    let oversized = check_listing_cursor(Some(&"c".repeat(8193))).unwrap_err();
    assert_eq!(oversized.message, "the native session catalogue cursor is oversized");
    let late = discovery_answer(Bounded::TimedOut);
    assert_eq!(late.kind, ErrorKind::RuntimeUnavailable);
    assert_eq!(late.message, "native session discovery exceeded its bounded deadline");
    assert_eq!(discovery_answer(Bounded::Answered(NativeDiscoveryFailure::Provider)).kind, ErrorKind::ProviderUnavailable);
    let machine = discovery_answer(Bounded::Answered(NativeDiscoveryFailure::RootRequired));
    assert_eq!(machine.kind, ErrorKind::InvalidRequest);
    assert_eq!(
        discovery_answer(Bounded::Answered(NativeDiscoveryFailure::Inventory(RuntimeInventoryFailure::RootAuthorityChanged))).kind,
        ErrorKind::RootDenied
    );
}
