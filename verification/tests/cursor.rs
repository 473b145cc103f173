use runtrol_daemon::auth::{AuthorizedIntegration, IntegrationGrant, IntegrationId, IntegrationKey, IntegrationRootRow};
use runtrol_daemon::cursor::{AuthorizedRoot, Cursor, NativeCursorCodec, NativeCursorFailure};
use runtrol_daemon::kinds::AppScope;

const NOW: u64 = 1_700_000_000_000;

fn work() -> &'static str {
    "/work"
}

fn root() -> AuthorizedRoot {
    AuthorizedRoot { path: work().to_owned(), identity: [9; 24] }
}

fn fixture_authority(root: &AuthorizedRoot) -> AuthorizedIntegration {
    AuthorizedIntegration {
        key: IntegrationKey::from_bytes([7; 16]),
        grant: IntegrationGrant {
            integration_id: IntegrationId::new("int_fixture"),
            scopes: vec![AppScope::SessionNativeDiscover],
            roots: vec![root.path.clone()],
            key_generation: 2,
            grant_generation: 3,
        },
        roots: vec![IntegrationRootRow { path: root.path.clone(), identity: root.identity }],
    }
}

#[test]
fn cursor_is_bound_to_root_provider_binary_and_grant() {
    let root = root();
    let authority = fixture_authority(&root);
    let codec = NativeCursorCodec::new().expect("random codec");
    let token = codec
        .seal(&authority, "provider", Some(&root), [4; 32], "provider-page-2", None, NOW)
        .expect("sealed");
    let opened = codec
        .open(&authority, "provider", Some(&root), [4; 32], &token, NOW)
        .expect("same context opens");
    assert_eq!(opened.provider_cursor, "provider-page-2");
    assert!(codec.open(&authority, "provider", Some(&root), [5; 32], &token, NOW).is_err());
}

#[test]
fn a_machine_wide_adoption_proof_opens_for_the_same_workspace_whatever_the_roots() {
    let root = root();
    let authority = fixture_authority(&root);
    let codec = NativeCursorCodec::new().expect("random codec");
    let workspace = "/elsewhere";
    let proof = codec
        .seal_adoption(&authority, "provider", None, [4; 32], "native-1", workspace, NOW)
        .expect("sealed");
    codec
        .open_adoption(&authority, &[], "provider", [4; 32], "native-1", workspace, &proof, NOW)
        .expect("a machine-wide proof opens with no approved roots at all");
    codec
        .open_adoption(&authority, std::slice::from_ref(&root), "provider", [4; 32], "native-1", workspace, &proof, NOW)
        .expect("and with unrelated approved roots");
    let other = "/other";
    assert!(
        codec.open_adoption(&authority, &[], "provider", [4; 32], "native-1", other, &proof, NOW).is_err(),
        "the workspace is still bound"
    );
    assert!(
        codec.open_adoption(&authority, &[], "provider", [5; 32], "native-1", workspace, &proof, NOW).is_err(),
        "and so is the provider binary"
    );
}

#[test]
fn a_folder_adoption_proof_still_needs_its_folder_approved() {
    let root = root();
    let authority = fixture_authority(&root);
    let codec = NativeCursorCodec::new().expect("random codec");
    let proof = codec
        .seal_adoption(&authority, "provider", Some(&root), [4; 32], "native-1", &root.path, NOW)
        .expect("sealed");
    codec
        .open_adoption(&authority, std::slice::from_ref(&root), "provider", [4; 32], "native-1", &root.path, &proof, NOW)
        .expect("opens while the folder is approved");
    assert!(
        codec.open_adoption(&authority, &[], "provider", [4; 32], "native-1", &root.path, &proof, NOW).is_err(),
        "a folder proof does not open once its folder is gone from the grant"
    );
}

#[test]
fn cursor_rejects_a_repeated_provider_page() {
    let root = root();
    let authority = fixture_authority(&root);
    let codec = NativeCursorCodec::new().expect("random codec");
    let first = codec
        .seal(&authority, "provider", Some(&root), [4; 32], "provider-page-2", None, NOW)
        .expect("first cursor");
    let opened = codec.open(&authority, "provider", Some(&root), [4; 32], &first, NOW).expect("open first");
    assert!(codec
        .seal(&authority, "provider", Some(&root), [4; 32], "provider-page-2", Some(&opened), NOW)
        .is_err());
}

#[test]
fn a_cursor_expires_after_its_lifetime() {
    let root = root();
    let authority = fixture_authority(&root);
    let codec = NativeCursorCodec::new().expect("random codec");
    let token = codec.seal(&authority, "provider", Some(&root), [4; 32], "page", None, NOW).expect("sealed");
    assert!(codec.open(&authority, "provider", Some(&root), [4; 32], &token, NOW + 299_999).is_ok());
    assert_eq!(
        codec.open(&authority, "provider", Some(&root), [4; 32], &token, NOW + 300_000).expect_err("expired"),
        NativeCursorFailure::Expired
    );
}

#[test]
fn a_cursor_does_not_cross_scopes_grants_or_codecs() {
    let root = root();
    let authority = fixture_authority(&root);
    let codec = NativeCursorCodec::new().expect("random codec");
    let token = codec.seal(&authority, "provider", Some(&root), [4; 32], "page", None, NOW).expect("sealed");
    assert_eq!(codec.open(&authority, "provider", None, [4; 32], &token, NOW).expect_err("machine"), NativeCursorFailure::Invalid);
    assert_eq!(codec.open(&authority, "other", Some(&root), [4; 32], &token, NOW).expect_err("provider"), NativeCursorFailure::Invalid);
    let mut regranted = fixture_authority(&root);
    regranted.grant.grant_generation = 4;
    assert_eq!(codec.open(&regranted, "provider", Some(&root), [4; 32], &token, NOW).expect_err("grant"), NativeCursorFailure::Invalid);
    let restarted = NativeCursorCodec::new().expect("random codec");
    assert_eq!(restarted.open(&authority, "provider", Some(&root), [4; 32], &token, NOW).expect_err("restart"), NativeCursorFailure::Invalid);
    let mut tampered = token.clone();
    let last = tampered.pop().expect("non-empty");
    tampered.push(if last == 'A' { 'B' } else { 'A' });
    assert_eq!(codec.open(&authority, "provider", Some(&root), [4; 32], &tampered, NOW).expect_err("tampered"), NativeCursorFailure::Invalid);
    assert_eq!(codec.open(&authority, "provider", Some(&root), [4; 32], "!!", NOW).expect_err("not base64"), NativeCursorFailure::Invalid);
}

#[test]
fn a_walk_keeps_its_history_and_ends_at_the_page_limit() {
    let root = root();
    let authority = fixture_authority(&root);
    let codec = NativeCursorCodec::new().expect("random codec");
    let mut opened = None;
    for page in 0..32 {
        let token = codec
            .seal(&authority, "provider", Some(&root), [4; 32], &format!("page-{page}"), opened.as_ref(), NOW)
            .expect("within the walk");
        let next = codec.open(&authority, "provider", Some(&root), [4; 32], &token, NOW).expect("opens");
        assert_eq!(next.seen.len(), page + 1);
        opened = Some(next);
    }
    assert_eq!(
        codec
            .seal(&authority, "provider", Some(&root), [4; 32], "page-32", opened.as_ref(), NOW)
            .expect_err("too long"),
        NativeCursorFailure::TooManyPages
    );
}

#[test]
fn an_oversized_provider_cursor_is_refused() {
    let root = root();
    let authority = fixture_authority(&root);
    let codec = NativeCursorCodec::new().expect("random codec");
    assert!(codec.seal(&authority, "provider", Some(&root), [4; 32], &"c".repeat(4096), None, NOW).is_ok());
    assert_eq!(
        codec.seal(&authority, "provider", Some(&root), [4; 32], &"c".repeat(4097), None, NOW).expect_err("oversized"),
        NativeCursorFailure::Invalid
    );
}

#[test]
fn a_cursor_reads_big_endian_fields_and_refuses_past_the_end() {
    let bytes = [0x01, 0x02, 0x00, 0x00, 0x00, 0x00, 0x00, 0x00, 0x01, 0x00, 0xff];
    let mut cursor = Cursor { bytes: &bytes, at: 0 };
    assert_eq!(cursor.u16(), Ok(0x0102));
    assert_eq!(cursor.u64(), Ok(0x0100));
    assert_eq!(cursor.byte(), Ok(0xff));
    assert_eq!(cursor.byte(), Err(NativeCursorFailure::Invalid));
    assert_eq!(cursor.at, bytes.len());
    let mut short = Cursor { bytes: &bytes, at: 9 };
    assert_eq!(short.take(3), Err(NativeCursorFailure::Invalid));
    assert_eq!(short.at, 9);
    assert_eq!(short.take(2), Ok(&bytes[9..11]));
}

#[test]
fn a_reader_past_its_end_refuses_without_moving() {
    let bytes = [1u8, 2];
    let mut reader = Cursor { bytes: &bytes, at: 5 };
    assert!(matches!(reader.byte(), Err(NativeCursorFailure::Invalid)));
    assert!(matches!(reader.take(0), Err(NativeCursorFailure::Invalid)));
    assert!(matches!(reader.u64(), Err(NativeCursorFailure::Invalid)));
    assert_eq!(reader.at, 5);
}
