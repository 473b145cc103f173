use runtrol_daemon::locator::{
    check_instance_record, check_readable, check_writable, endpoint_kind, ensure_replaceable,
    mint_instance, owns_locator, pending_name, removes_locator, valid_instance, EndpointPlatform, RecordFacts,
    RuntimeBootstrapError, StaleLocator, MAX_RECORD_BYTES, SCHEMA,
};

#[test]
fn installed_instance_survives_restart_and_full_removal_mints_another() {
    let first = mint_instance().expect("mint instance");
    let second = check_instance_record("instance.json", SCHEMA, first.clone()).expect("restore instance");
    assert_eq!(first, second);
    let third = mint_instance().expect("mint after reinstall");
    assert_ne!(first, third);
}

#[test]
fn locator_is_published_after_readiness_and_removed_by_its_owner() {
    let instance = "rtm_0123456789abcdef0123456789abcdef";
    assert!(valid_instance(instance));
    assert!(owns_locator(instance, instance));
    assert!(!owns_locator("rtm_ffffffffffffffffffffffffffffffff", instance));
}

#[test]
fn a_new_locator_atomically_replaces_a_verified_regular_record() {
    let regular = RecordFacts { is_symlink: false, is_file: true, len: 100 };
    assert!(ensure_replaceable("locator.json", StaleLocator::Present(regular)).is_ok());
    assert!(ensure_replaceable("locator.json", StaleLocator::Absent).is_ok());
    let link = RecordFacts { is_symlink: true, is_file: false, len: 0 };
    assert!(matches!(
        ensure_replaceable("locator.json", StaleLocator::Present(link)),
        Err(RuntimeBootstrapError::Unsafe { why: "the stale locator is not a regular file", .. })
    ));
    let pending = pending_name("/home/locator.json", Some("locator.json")).expect("randomness");
    assert!(pending.starts_with("locator.json."));
    assert!(pending.ends_with(".new"));
    assert_eq!(pending.len(), "locator.json.".len() + 16 + ".new".len());
}

#[test]
fn instance_identities_are_exactly_rtm_and_lowercase_hex() {
    assert!(!valid_instance("rtm_0123456789ABCDEF0123456789abcdef"));
    assert!(!valid_instance("rtx_0123456789abcdef0123456789abcdef"));
    assert!(!valid_instance("rtm_0123456789abcdef0123456789abcde"));
    assert!(!valid_instance("rtm_0123456789abcdef0123456789abcdeg"));
    assert!(valid_instance(&mint_instance().expect("randomness")));
    assert!(matches!(
        check_instance_record("instance.json", 2, "rtm_0123456789abcdef0123456789abcdef".to_owned()),
        Err(RuntimeBootstrapError::Malformed { .. })
    ));
    assert!(check_instance_record("instance.json", 1, "rtm_bad".to_owned()).is_err());
}

#[test]
fn records_are_bounded_regular_files() {
    assert!(check_readable("r", RecordFacts { is_symlink: false, is_file: true, len: MAX_RECORD_BYTES }).is_ok());
    assert!(matches!(
        check_readable("r", RecordFacts { is_symlink: false, is_file: true, len: MAX_RECORD_BYTES + 1 }),
        Err(RuntimeBootstrapError::Unsafe { why: "the record exceeds its byte limit", .. })
    ));
    assert!(matches!(
        check_readable("r", RecordFacts { is_symlink: true, is_file: true, len: 1 }),
        Err(RuntimeBootstrapError::Unsafe { why: "the record is not a regular file", .. })
    ));
    assert!(check_writable("r", 8192).is_ok());
    assert!(check_writable("r", 8193).is_err());
    assert!(pending_name("/", None).is_err());
    assert_eq!(endpoint_kind(EndpointPlatform::Windows), "namedPipe");
    assert_eq!(endpoint_kind(EndpointPlatform::Unix), "unixSocket");
}

#[test]
fn only_the_owner_removes_a_readable_locator_naming_it() {
    let regular = Some(RecordFacts { is_symlink: false, is_file: true, len: 64 });
    assert!(removes_locator(regular, Some("rtm_a"), "rtm_a"));
    assert!(!removes_locator(regular, Some("rtm_b"), "rtm_a"));
    assert!(!removes_locator(regular, None, "rtm_a"));
    assert!(!removes_locator(None, Some("rtm_a"), "rtm_a"));
    assert!(!removes_locator(Some(RecordFacts { is_symlink: true, is_file: false, len: 64 }), Some("rtm_a"), "rtm_a"));
    assert!(!removes_locator(Some(RecordFacts { is_symlink: false, is_file: true, len: 1 << 30 }), Some("rtm_a"), "rtm_a"));
}
