use base64ct::Encoding;
use ed25519_dalek::Signer;
use runtrol_daemon::auth::{
    approved_decision, authenticate, authentication_key, challenge, check_enrollment_proof, enrollment_answer, check_pending_identity, enrollment_admission,
    enrollment_reading, integration_id, new_enrollment_row, pending_id, receipt, request_enrollment_proof,
    verify_key_rotation, ClientInfo, EnrollmentAdmission, EnrollmentDecision, EnrollmentKey, EnrollmentManifest,
    EnrollmentReading, EnrollmentState, IntegrationAuthentication, IntegrationId, IntegrationKey, IntegrationRow,
    PendingEnrollmentId, RotateIntegrationKeyParams, ServerChallenge,
};
use runtrol_daemon::kinds::{AppScope, ErrorKind, MutationRequestId};

const NOW: u64 = 1_700_000_000_000;

fn b64(bytes: &[u8]) -> String {
    base64ct::Base64UrlUnpadded::encode_string(bytes)
}

fn signing(seed: u8) -> ed25519_dalek::SigningKey {
    ed25519_dalek::SigningKey::from_bytes(&[seed; 32])
}

fn fresh_challenge() -> ServerChallenge {
    ServerChallenge {
        instance_id: "rtm_0123456789abcdef0123456789abcdef".to_owned(),
        nonce_id: "nonce_00".to_owned(),
        nonce: "AAAA".to_owned(),
        expires_at_ms: NOW + 60_000,
    }
}

fn manifest(public: &[u8; 32], digest: &[u8; 32]) -> EnrollmentManifest {
    EnrollmentManifest {
        client_instance_id: "editor-window-1".to_owned(),
        public_key: b64(public),
        manifest_digest: b64(digest),
        requested_scopes: vec![AppScope::SessionList, AppScope::ProviderRead],
        requested_roots: vec!["/work".to_owned()],
    }
}

fn client() -> ClientInfo {
    ClientInfo { name: "Editor".to_owned(), version: "1.4.0".to_owned() }
}

#[test]
fn an_enrollment_must_prove_possession_of_its_key() {
    let key = signing(11);
    let public = key.verifying_key().to_bytes();
    let digest = [5u8; 32];
    let manifest = manifest(&public, &digest);
    let payload = b"enrollment signing payload";
    let signature = b64(&key.sign(payload).to_bytes());
    let (proved_key, proved_digest) =
        request_enrollment_proof(&fresh_challenge(), &client(), &manifest, &signature, payload, NOW).expect("proved");
    assert_eq!(proved_key, public);
    assert_eq!(proved_digest, digest);

    let late = request_enrollment_proof(&fresh_challenge(), &client(), &manifest, &signature, payload, NOW + 60_001);
    assert_eq!(late.unwrap_err().kind, ErrorKind::Unauthenticated);
    let forged = request_enrollment_proof(&fresh_challenge(), &client(), &manifest, &signature, b"another payload", NOW);
    assert_eq!(forged.unwrap_err().message, "the integration signature does not verify");
    let mut no_scopes = manifest.clone_for_test();
    no_scopes.requested_scopes = Vec::new();
    let refused = request_enrollment_proof(&fresh_challenge(), &client(), &no_scopes, &signature, payload, NOW);
    assert_eq!(refused.unwrap_err().message, "requested scopes are empty, duplicated, or oversized");
    let mut twice = manifest.clone_for_test();
    twice.requested_scopes = vec![AppScope::SessionList, AppScope::SessionList];
    assert!(request_enrollment_proof(&fresh_challenge(), &client(), &twice, &signature, payload, NOW).is_err());
}

#[test]
fn an_enrollment_with_a_relative_root_is_refused_before_its_signature_is_read() {
    let key = signing(12);
    let public = key.verifying_key().to_bytes();
    let digest = [6u8; 32];
    let manifest = manifest(&public, &digest);
    let payload = b"enrollment signing payload";
    let signature = b64(&key.sign(payload).to_bytes());
    let proved = check_enrollment_proof(&fresh_challenge(), &client(), &manifest, &signature, payload, NOW, &vec![true])
        .expect("an absolute root passes");
    assert_eq!(proved, (public, digest));
    let relative = check_enrollment_proof(&fresh_challenge(), &client(), &manifest, "not a signature", payload, NOW, &vec![false])
        .expect_err("a relative root is refused");
    assert_eq!(relative.message, "a requested project root is unsafe, relative, or oversized");
    let forged = check_enrollment_proof(&fresh_challenge(), &client(), &manifest, &signature, b"other", NOW, &vec![true])
        .expect_err("a forged signature is refused");
    assert_eq!(forged.message, "the integration signature does not verify");
    let mut rootless = manifest.clone_for_test();
    rootless.requested_roots = Vec::new();
    assert!(request_enrollment_proof(&fresh_challenge(), &client(), &rootless, &signature, payload, NOW).is_ok());
}

trait CloneForTest {
    fn clone_for_test(&self) -> Self;
}

impl CloneForTest for EnrollmentManifest {
    fn clone_for_test(&self) -> Self {
        EnrollmentManifest {
            client_instance_id: self.client_instance_id.clone(),
            public_key: self.public_key.clone(),
            manifest_digest: self.manifest_digest.clone(),
            requested_scopes: self.requested_scopes.clone(),
            requested_roots: self.requested_roots.clone(),
        }
    }
}

#[test]
fn a_proposal_is_admitted_once_and_replayed_to_its_proposer() {
    let public = [3u8; 32];
    let digest = [4u8; 32];
    let manifest = manifest(&public, &digest);
    assert_eq!(enrollment_admission(&Vec::new(), &public, &digest, &manifest, NOW), EnrollmentAdmission::Create);
    let row = new_enrollment_row(public, digest, &client(), &manifest, NOW);
    assert_eq!(row.expires_at, NOW + 600_000);
    assert!(matches!(row.state, EnrollmentState::Pending));
    let pending = EnrollmentKey::from_bytes([1; 16]);
    let rows = vec![(pending, row)];
    assert_eq!(
        enrollment_admission(&rows, &public, &digest, &manifest, NOW + 1),
        EnrollmentAdmission::Replay { key: pending, expires_at: NOW + 600_000 }
    );
    assert_eq!(enrollment_admission(&rows, &public, &[9; 32], &manifest, NOW + 1), EnrollmentAdmission::Conflict);
    assert_eq!(
        enrollment_admission(&rows, &public, &digest, &manifest, NOW + 600_001),
        EnrollmentAdmission::Create,
        "an expired proposal no longer binds its proposer"
    );
    assert_eq!(enrollment_reading(Some(&rows[0].1), NOW), EnrollmentReading::Pending);
    assert_eq!(enrollment_reading(Some(&rows[0].1), NOW + 600_001), EnrollmentReading::Expired);
    assert_eq!(enrollment_reading(None, NOW), EnrollmentReading::Expired);
    let issued = receipt(pending, NOW + 600_000);
    assert_eq!(issued.pending_id.value, format!("enr_{}", "01".repeat(16)));
    assert!(check_pending_identity(pending, &pending_id(pending)).is_ok());
    let other = check_pending_identity(EnrollmentKey::from_bytes([2; 16]), &pending_id(pending)).unwrap_err();
    assert_eq!(other.kind, ErrorKind::Unauthenticated);
    let malformed = check_pending_identity(pending, &PendingEnrollmentId::new("int_01")).unwrap_err();
    assert_eq!(malformed.kind, ErrorKind::InvalidRequest);
}

fn row(public: [u8; 32], key_generation: u64) -> IntegrationRow {
    IntegrationRow {
        public_key: public,
        key_generation,
        grant_generation: 1,
        scopes: vec!["sessions.list".to_owned()],
        roots: Vec::new(),
        revoked_at: None,
    }
}

#[test]
fn an_approved_enrollment_answers_its_grant() {
    let key = IntegrationKey::from_bytes([7; 16]);
    match approved_decision(key, Some(&row([1; 32], 1))).expect("approved") {
        EnrollmentDecision::Approved { grant } => {
            assert_eq!(grant.integration_id.value, integration_id(key).value);
            assert_eq!(grant.scopes, vec![AppScope::SessionList]);
        }
        other => panic!("unexpected {other:?}"),
    }
    assert_eq!(approved_decision(key, None).unwrap_err().kind, ErrorKind::Internal);
    let mut unreadable = row([1; 32], 1);
    unreadable.scopes = vec!["not.a.scope".to_owned()];
    assert_eq!(approved_decision(key, Some(&unreadable)).unwrap_err().kind, ErrorKind::Internal);
}

#[test]
fn initialization_authenticates_only_the_current_key_over_the_payload() {
    let signer = signing(21);
    let key = IntegrationKey::from_bytes([8; 16]);
    let payload = b"initialization payload";
    let proof = IntegrationAuthentication {
        integration_id: integration_id(key),
        key_generation: 2,
        grant_generation: 1,
        signature: b64(&signer.sign(payload).to_bytes()),
    };
    assert_eq!(authentication_key(&fresh_challenge(), &proof, NOW), Ok(key));
    assert_eq!(authentication_key(&fresh_challenge(), &proof, NOW + 60_001).unwrap_err().kind, ErrorKind::Unauthenticated);
    let current = row(signer.verifying_key().to_bytes(), 2);
    let authorized = authenticate(payload, &proof, key, Some(&current)).expect("authenticated");
    assert_eq!(authorized.key, key);
    assert_eq!(authorized.grant.scopes, vec![AppScope::SessionList]);
    assert_eq!(authorized.grant.key_generation, 2);
    assert_eq!(authenticate(b"other payload", &proof, key, Some(&current)).unwrap_err().kind, ErrorKind::Unauthenticated);
    let rotated = row(signer.verifying_key().to_bytes(), 3);
    assert_eq!(
        authenticate(payload, &proof, key, Some(&rotated)).unwrap_err().message,
        "the integration generation is stale"
    );
    let mut revoked = row(signer.verifying_key().to_bytes(), 2);
    revoked.revoked_at = Some(NOW);
    assert_eq!(authenticate(payload, &proof, key, Some(&revoked)).unwrap_err().kind, ErrorKind::IntegrationRevoked);
    assert_eq!(
        authenticate(payload, &proof, key, None).unwrap_err().message,
        "the integration is not enrolled"
    );
    let foreign = IntegrationAuthentication {
        integration_id: IntegrationId::new("enr_00"),
        key_generation: 2,
        grant_generation: 1,
        signature: String::new(),
    };
    assert_eq!(authentication_key(&fresh_challenge(), &foreign, NOW).unwrap_err().kind, ErrorKind::InvalidRequest);
}

#[test]
fn a_key_rotation_is_proved_by_the_new_key_and_replays_once_done() {
    let old = signing(31);
    let new = signing(32);
    let new_public = new.verifying_key().to_bytes();
    let payload = b"rotation payload";
    let params = |expected: u64, created: u64, proof: String| RotateIntegrationKeyParams {
        request_id: MutationRequestId { unix_millis: Some(created), bytes: Some([1; 16]) },
        expected_key_generation: expected,
        new_public_key: b64(&new_public),
        new_key_proof: proof,
    };
    let by_new = b64(&new.sign(payload).to_bytes());
    let current = row(old.verifying_key().to_bytes(), 3);
    assert_eq!(verify_key_rotation(&current, &params(3, NOW, by_new.clone()), payload, NOW), Ok(new_public));
    let done = row(new_public, 4);
    assert_eq!(
        verify_key_rotation(&done, &params(3, NOW, by_new.clone()), payload, NOW),
        Ok(new_public),
        "the completed rotation replays"
    );
    let moved_on = verify_key_rotation(&current, &params(2, NOW, by_new.clone()), payload, NOW).unwrap_err();
    assert_eq!(moved_on.kind, ErrorKind::IdempotencyConflict);
    let stale = verify_key_rotation(&current, &params(3, NOW - 86_400_001, by_new.clone()), payload, NOW).unwrap_err();
    assert_eq!(stale.message, "the key rotation request identity is outside its bounded lifetime");
    let by_old = b64(&old.sign(payload).to_bytes());
    assert_eq!(
        verify_key_rotation(&current, &params(3, NOW, by_old), payload, NOW).unwrap_err().kind,
        ErrorKind::Unauthenticated
    );
    let exhausted = verify_key_rotation(&current, &params(u64::MAX, NOW, by_new), payload, NOW).unwrap_err();
    assert_eq!(exhausted.message, "the expected integration key generation is exhausted");
}

#[test]
fn a_challenge_is_bound_to_the_instance_and_lives_briefly() {
    let issued = challenge("rtm_0123456789abcdef0123456789abcdef", NOW).expect("randomness");
    assert_eq!(issued.instance_id, "rtm_0123456789abcdef0123456789abcdef");
    assert_eq!(issued.expires_at_ms, NOW + 60_000);
    assert!(issued.nonce_id.starts_with("nonce_"));
    assert_eq!(issued.nonce_id.len(), 6 + 32);
    assert_eq!(base64ct::Base64UrlUnpadded::decode_vec(&issued.nonce).expect("base64").len(), 32);
    let again = challenge("rtm_0123456789abcdef0123456789abcdef", NOW).expect("randomness");
    assert_ne!(issued.nonce, again.nonce);
}

#[test]
fn a_repeated_enrollment_is_answered_from_the_enrollment_it_repeats() {
    let key = EnrollmentKey::from_bytes([3; 16]);
    let (replayed, receipt) = enrollment_answer(EnrollmentAdmission::Replay { key, expires_at: NOW + 5 })
        .expect("replay")
        .expect("a receipt");
    assert_eq!(replayed, key);
    assert_eq!(receipt.expires_at_ms, NOW + 5);
    assert_eq!(receipt.pending_id.value, format!("enr_{}", "03".repeat(16)));
    let conflict = enrollment_answer(EnrollmentAdmission::Conflict).expect_err("conflict");
    assert_eq!(conflict.kind, ErrorKind::IdempotencyConflict);
    assert_eq!(conflict.message, "the same integration key already has a different pending proposal");
    let exhausted = enrollment_answer(EnrollmentAdmission::Exhausted).expect_err("exhausted");
    assert_eq!(exhausted.kind, ErrorKind::ResourceExhausted);
    assert!(matches!(enrollment_answer(EnrollmentAdmission::Create), Ok(None)));
}
