use base64ct::Encoding;
use ed25519_dalek::Signer;
use runtrol_daemon::auth::{
    verify_signature, hex, integration_id, integration_key, parse_key, pending_id, enrollment_key, validate_client_text,
    check_roots, validate_roots, widening_continues, EnrollmentKey, IntegrationGrant, IntegrationId,
    IntegrationKey,
};
use runtrol_daemon::kinds::{AppScope, ErrorKind};

fn grant_with(generation: u64, scopes: Vec<AppScope>, roots: Vec<String>) -> IntegrationGrant {
    IntegrationGrant {
        integration_id: IntegrationId::new("enr_ab"),
        scopes,
        roots,
        grant_generation: generation,
        key_generation: 1,
    }
}

#[test]
fn only_a_pure_widening_continues_across_a_grant_change() {
    let current = grant_with(1, vec![AppScope::SessionList], vec!["C:/alpha".to_owned()]);

    let widened = grant_with(
        2,
        vec![AppScope::SessionList, AppScope::SessionStart],
        vec!["C:/alpha".to_owned(), "C:/beta".to_owned()],
    );
    assert!(widening_continues(&current, &widened), "added authority continues in place");

    let shrunk_roots = grant_with(2, vec![AppScope::SessionList], Vec::new());
    assert!(
        !widening_continues(&current, &shrunk_roots),
        "a removed root must tear the connection down"
    );

    let shrunk_scopes = grant_with(2, Vec::new(), vec!["C:/alpha".to_owned()]);
    assert!(
        !widening_continues(&current, &shrunk_scopes),
        "a removed scope must tear the connection down"
    );

    let rolled_back = grant_with(
        0,
        vec![AppScope::SessionList, AppScope::SessionStart],
        vec!["C:/alpha".to_owned(), "C:/beta".to_owned()],
    );
    assert!(
        !widening_continues(&current, &rolled_back),
        "an older generation is never a widening, whatever it contains"
    );
}

#[test]
fn opaque_ids_round_trip_without_accepting_another_prefix() {
    let integration = IntegrationKey::from_bytes([0xAB; 16]);
    assert_eq!(integration_key(&integration_id(integration)), Ok(integration));
    assert!(integration_key(&IntegrationId::new("enr_00")).is_err());
}

#[test]
fn the_same_grant_is_not_a_widening() {
    let current = grant_with(3, vec![AppScope::SessionList], vec!["C:/alpha".to_owned()]);
    let same = grant_with(3, vec![AppScope::SessionList], vec!["C:/alpha".to_owned()]);
    assert!(!widening_continues(&current, &same));
}

#[test]
fn pending_identities_round_trip_under_their_own_prefix() {
    let key = EnrollmentKey::from_bytes([0x01; 16]);
    let id = pending_id(key);
    assert_eq!(id.as_str(), "enr_01010101010101010101010101010101");
    assert_eq!(enrollment_key(&id), Ok(key));
}

#[test]
fn integration_identity_is_lowercase_hex_under_its_prefix() {
    let id = integration_id(IntegrationKey::from_bytes([0xAB; 16]));
    assert!(id.as_str().ends_with("abababababababababababababababab"));
    assert_eq!(id.as_str().len(), 4 + 32);
}

#[test]
fn hex_writes_two_lowercase_digits_per_byte() {
    assert_eq!(hex(&[0x00, 0x0f, 0xa0, 0xff]), "000fa0ff");
    assert_eq!(hex(&[]), "");
}

#[test]
fn a_key_with_uppercase_digits_is_read_like_lowercase() {
    let lower = parse_key("int_abababababababababababababababab", "int_").expect("lowercase reads");
    let upper = parse_key("int_ABABABABABABABABABABABABABABABAB", "int_").expect("uppercase reads");
    assert_eq!(lower, upper);
    assert_eq!(lower, [0xAB; 16]);
}

#[test]
fn a_key_of_the_wrong_length_is_malformed() {
    let failure = parse_key("int_abab", "int_").expect_err("too short");
    assert_eq!(failure.kind, ErrorKind::InvalidRequest);
}

#[test]
fn client_text_must_be_present_safe_and_bounded() {
    assert!(validate_client_text("Runtrol Studio").is_ok());
    assert!(validate_client_text("   ").is_err());
    assert!(validate_client_text("").is_err());
    assert!(validate_client_text("bad\u{7}bell").is_err());
    assert!(validate_client_text(&"x".repeat(128)).is_ok());
    assert!(validate_client_text(&"x".repeat(129)).is_err());
}

#[test]
fn roots_must_be_few_absolute_and_safe() {
    let absolute = "/work";
    assert!(validate_roots(&vec![absolute.to_owned()]).is_ok());
    assert!(validate_roots(&vec!["relative/path".to_owned()]).is_err());
    let too_many: Vec<String> = (0..33).map(|i| format!("{absolute}{i}")).collect();
    assert!(validate_roots(&too_many).is_err());
}

#[test]
fn an_empty_root_list_is_accepted() {
    assert!(validate_roots(&Vec::new()).is_ok());
    assert!(check_roots(&Vec::new(), &Vec::new()).is_ok());
}

#[test]
fn each_root_is_judged_by_its_own_absoluteness_and_shape() {
    let roots = vec!["/a".to_owned(), "b".to_owned()];
    assert!(check_roots(&roots, &vec![true, true]).is_ok());
    let relative = check_roots(&roots, &vec![true, false]).expect_err("second root is relative");
    assert_eq!(relative.kind, ErrorKind::InvalidRequest);
    assert_eq!(relative.message, "a requested project root is unsafe, relative, or oversized");
    assert!(check_roots(&roots, &vec![true]).is_err(), "a root without a reading counts as relative");
    assert!(check_roots(&vec![String::new()], &vec![true]).is_err());
    assert!(check_roots(&vec!["/bad\u{7}".to_owned()], &vec![true]).is_err());
    let too_many: Vec<String> = (0..33).map(|i| format!("/r{i}")).collect();
    let flags = vec![true; 33];
    let refused = check_roots(&too_many, &flags).expect_err("too many roots");
    assert_eq!(refused.message, "too many project roots were requested");
}

#[test]
fn a_signature_verifies_only_over_its_own_payload_and_key() {
    let signing = ed25519_dalek::SigningKey::from_bytes(&[7u8; 32]);
    let public = signing.verifying_key().to_bytes();
    let payload = b"initialization payload";
    let encoded = base64ct::Base64UrlUnpadded::encode_string(&signing.sign(payload).to_bytes());
    assert!(verify_signature(&public, &encoded, payload).is_ok());
    let other_payload = verify_signature(&public, &encoded, b"another payload").unwrap_err();
    assert_eq!(other_payload.kind, ErrorKind::Unauthenticated);
    assert_eq!(other_payload.message, "the integration signature does not verify");
    let other_key = ed25519_dalek::SigningKey::from_bytes(&[8u8; 32]).verifying_key().to_bytes();
    assert_eq!(verify_signature(&other_key, &encoded, payload).unwrap_err().kind, ErrorKind::Unauthenticated);
    let malformed = verify_signature(&public, "AAAA", payload).unwrap_err();
    assert_eq!(malformed.kind, ErrorKind::InvalidRequest);
    assert_eq!(malformed.message, "the integration signature is malformed");
}

#[test]
fn a_self_approval_is_proved_by_the_requesting_key() {
    let signing = ed25519_dalek::SigningKey::from_bytes(&[12u8; 32]);
    let public = signing.verifying_key().to_bytes();
    let payload = b"self approval payload";
    let signature = base64ct::Base64UrlUnpadded::encode_string(&signing.sign(payload).to_bytes());
    assert!(runtrol_daemon::auth::verify_self_approval(&public, &signature, payload).is_ok());
    let other = ed25519_dalek::SigningKey::from_bytes(&[13u8; 32]).verifying_key().to_bytes();
    assert!(runtrol_daemon::auth::verify_self_approval(&other, &signature, payload).is_err());
}

#[test]
fn a_copied_authority_is_the_same_authority() {
    let held = runtrol_daemon::auth::AuthorizedIntegration {
        key: IntegrationKey::from_bytes([4; 16]),
        grant: grant_with(3, vec![AppScope::SessionList], vec!["/work".to_owned()]),
        roots: vec![runtrol_daemon::auth::IntegrationRootRow { path: "/work".to_owned(), identity: [1; 24] }],
    };
    let copied = runtrol_daemon::auth::copy_authority(&held);
    assert_eq!(copied.key, held.key);
    assert_eq!(copied.grant.scopes, held.grant.scopes);
    assert_eq!(copied.grant.roots, held.grant.roots);
    assert_eq!(copied.grant.grant_generation, 3);
    assert_eq!(copied.roots[0].path, "/work");
    assert_eq!(copied.roots[0].identity, [1; 24]);
}

#[test]
fn a_root_without_an_absolute_lead_is_refused_on_every_platform() {
    let refused = validate_roots(&vec!["project".to_owned()]).expect_err("relative");
    assert_eq!(refused.message, "a requested project root is unsafe, relative, or oversized");
}
