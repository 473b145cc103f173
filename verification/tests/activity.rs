use runtrol_daemon::activity::{
    attachable_native_sessions, live_pids, unambiguous_processes, wants_focus, FocusProof,
    NativeProcessActivity, NativeProcessBinding,
};

fn binding(pid: u32, native: &str, official_terminal: bool) -> NativeProcessBinding {
    NativeProcessBinding { pid, native: native.to_owned(), official_terminal }
}

fn activity(processes: Vec<NativeProcessBinding>, live: &[&str]) -> NativeProcessActivity {
    NativeProcessActivity {
        processes,
        live: live.iter().map(|s| (*s).to_owned()).collect(),
        active: Vec::new(),
    }
}

#[test]
fn a_multiplexed_process_binds_no_conversation() {
    let observed = activity(
        vec![
            binding(30, "c", false),
            binding(10, "a", false),
            binding(20, "b1", false),
            binding(20, "b2", false),
            binding(10, "a", true),
        ],
        &[],
    );
    let kept: Vec<(u32, &str)> = unambiguous_processes(&observed)
        .into_iter()
        .map(|p| (p.pid, p.native.as_str()))
        .collect();
    assert_eq!(kept, vec![(10, "a"), (30, "c")]);
    assert!(!unambiguous_processes(&observed)[0].official_terminal, "the first binding of a process is kept");
}

#[test]
fn only_live_conversations_with_an_official_route_are_attachable() {
    let observed = activity(
        vec![
            binding(1, "zeta", true),
            binding(2, "alpha", true),
            binding(3, "beta", false),
            binding(4, "gone", true),
            binding(5, "alpha", true),
        ],
        &["zeta", "alpha", "beta"],
    );
    assert_eq!(attachable_native_sessions(&observed), vec!["alpha".to_owned(), "zeta".to_owned()]);
}

#[test]
fn live_processes_are_listed_once_in_ascending_order() {
    let observed = activity(
        vec![binding(9, "a", false), binding(3, "b", false), binding(9, "c", false), binding(4, "dead", false)],
        &["a", "b", "c"],
    );
    assert_eq!(live_pids(&observed), vec![3, 9]);
}

#[test]
fn the_focus_proof_is_retaken_only_when_stale_or_changed() {
    let live = vec![3, 9];
    assert!(!wants_focus(&Vec::new(), None, 1_000, 500));
    assert!(wants_focus(&live, None, 1_000, 500));
    let fresh = FocusProof { live_pids: vec![3, 9], taken_at_ms: 900 };
    assert!(!wants_focus(&live, Some(&fresh), 1_000, 500));
    assert!(wants_focus(&live, Some(&fresh), 1_400, 500));
    let changed = FocusProof { live_pids: vec![3], taken_at_ms: 900 };
    assert!(wants_focus(&live, Some(&changed), 1_000, 500));
    let future = FocusProof { live_pids: vec![3, 9], taken_at_ms: 5_000 };
    assert!(!wants_focus(&live, Some(&future), 1_000, 500));
}
