use fappa::num::parse_u64;
use fappa::setup::{
    first_child_steps, init_argv, is_map_reply, is_map_request, map_reply_bytes,
    map_request_bytes, outer_exit_status, pid_one_steps, resolv_conf_content, SetupStep,
    CLONE_NEWIPC, CLONE_NEWNS, CLONE_NEWPID, CLONE_NEWUSER, CLONE_NEWUTS, EXIT_BAD_WAIT,
    INIT_FILE_MODE, MNT_DETACH, MS_BIND, MS_NOSUID, MS_REC,
};
use fappa::text::chars_of;

#[test]
fn barrier_sits_between_unshare_and_identity() {
    let steps = first_child_steps();
    let unshare_at = steps
        .iter()
        .position(|s| matches!(s, SetupStep::Unshare { .. }))
        .unwrap();
    let barrier_at = steps
        .iter()
        .position(|s| matches!(s, SetupStep::AwaitIdMaps))
        .unwrap();
    let uid_at = steps
        .iter()
        .position(|s| matches!(s, SetupStep::SetResUid { .. }))
        .unwrap();
    let pivot_at = steps
        .iter()
        .position(|s| matches!(s, SetupStep::PivotIntoRoot))
        .unwrap();
    assert!(unshare_at < barrier_at);
    assert!(barrier_at < uid_at);
    assert!(barrier_at < pivot_at);
    match steps[unshare_at] {
        SetupStep::Unshare { flags } => assert_eq!(
            flags,
            CLONE_NEWIPC | CLONE_NEWNS | CLONE_NEWPID | CLONE_NEWUSER | CLONE_NEWUTS
        ),
        _ => unreachable!(),
    }
    // the identities installed are all root
    assert!(steps.contains(&SetupStep::SetResUid { uid: 0 }));
    assert!(steps.contains(&SetupStep::SetResGid { gid: 0 }));
    assert!(steps.contains(&SetupStep::SetGroups { gid: 0 }));
    assert!(matches!(steps.last().unwrap(), SetupStep::ForkAndWait));
}

#[test]
fn exec_happens_only_as_pid_one() {
    let first = first_child_steps();
    assert!(first.iter().all(|s| !matches!(s, SetupStep::ExecInit)));
    let inner = pid_one_steps();
    assert!(matches!(inner[0], SetupStep::RequirePidOne));
    assert!(matches!(inner.last().unwrap(), SetupStep::ExecInit));
    assert_eq!(
        inner
            .iter()
            .filter(|s| matches!(s, SetupStep::ExecInit))
            .count(),
        1
    );
}

#[test]
fn mount_flags_match_the_kernel() {
    let first = first_child_steps();
    assert!(first.contains(&SetupStep::BindRootOnSelf { flags: MS_BIND | MS_NOSUID }));
    assert!(first.contains(&SetupStep::BindHostProc { flags: MS_BIND | MS_REC }));
    assert!(first.contains(&SetupStep::DetachOld { flags: MNT_DETACH }));
    assert_eq!(MS_BIND, 0x1000);
    assert_eq!(MS_NOSUID, 0x2);
    assert_eq!(INIT_FILE_MODE, 0o755);
    let inner = pid_one_steps();
    assert!(inner.contains(&SetupStep::FixTmpMode { mode: 0o1777 }));
    assert!(inner.contains(&SetupStep::FixVarTmpMode { mode: 0o1777 }));
}

#[test]
fn map_barrier_bytes() {
    assert_eq!(map_request_bytes(), b"map?".to_vec());
    assert_eq!(map_reply_bytes(), b"map!".to_vec());
    assert!(is_map_request(&b"map?".to_vec()));
    assert!(!is_map_request(&b"map!".to_vec()));
    assert!(is_map_reply(&b"map!".to_vec()));
    assert!(!is_map_reply(&b"maps".to_vec()));
}

#[test]
fn init_argv_round_trips() {
    let argv = init_argv(33, 34);
    assert_eq!(argv, vec!["33", "34"]);
    let back = parse_u64(&chars_of(&argv[0])).unwrap();
    assert_eq!(back, 33);
    let back = parse_u64(&chars_of(&argv[1])).unwrap();
    assert_eq!(back, 34);
}

#[test]
fn host_prepares_resolv_conf() {
    assert_eq!(resolv_conf_content(), b"nameserver 127.0.0.53".to_vec());
}

#[test]
fn outer_wait_status() {
    assert_eq!(outer_exit_status(Some(0)), 0);
    assert_eq!(outer_exit_status(Some(67)), 67);
    assert_eq!(outer_exit_status(None), EXIT_BAD_WAIT);
    assert_eq!(EXIT_BAD_WAIT, 66);
}
