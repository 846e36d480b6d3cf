use fappa::init::{
    cap_drop_error_is_fatal, caps_to_drop, close_fds_plan, exit_byte, init_step, parse_last_cap,
    securebits_lockdown, AfterAck, InitAction, InitEvent, InitState, UNPRIVILEGED_ID,
};

fn ack_frame() -> InitEvent {
    InitEvent::Frame { code: 100, payload: vec![] }
}

fn expect_send(action: &InitAction, code: u64) -> Vec<u8> {
    match action {
        InitAction::SendFrame { code: c, payload } => {
            assert_eq!(*c, code);
            payload.clone()
        }
        other => panic!("expected a frame, got {:?}", other),
    }
}

#[test]
fn happy_path_root_command() {
    // setup: greeting, ack, ready
    let (st, acts) = init_step(InitState::Setup, InitEvent::Debug { text: b"hi".to_vec() });
    assert_eq!(st, InitState::AwaitAck { then: AfterAck::BackToSetup });
    assert_eq!(acts.len(), 1);
    assert_eq!(expect_send(&acts[0], 1), b"hi".to_vec());

    let (st, acts) = init_step(st, ack_frame());
    assert_eq!(st, InitState::Setup);
    assert!(acts.is_empty());

    let (st, acts) = init_step(st, InitEvent::SetupDone);
    assert_eq!(st, InitState::AwaitCommand);
    assert_eq!(expect_send(&acts[0], 4), b"".to_vec());

    // the host sends RunAsRoot with a script
    let (st, acts) = init_step(
        st,
        InitEvent::Frame { code: 101, payload: b"echo hello".to_vec() },
    );
    assert_eq!(st, InitState::Streaming);
    match &acts[0] {
        InitAction::SpawnShell { script, drop_privileges } => {
            assert_eq!(script, &b"echo hello".to_vec());
            assert!(!drop_privileges);
        }
        other => panic!("expected a spawn, got {:?}", other),
    }

    // the shell prints, then exits 0
    let (st, acts) = init_step(st, InitEvent::Chunk { data: b"hello\n".to_vec() });
    assert_eq!(st, InitState::Streaming);
    assert_eq!(expect_send(&acts[0], 5), b"hello\n".to_vec());

    let (st, acts) = init_step(
        st,
        InitEvent::Exited { status: Some(0), note: b"shell done".to_vec() },
    );
    assert_eq!(st, InitState::AwaitAck { then: AfterAck::EmitSubExited { status: 0 } });
    assert_eq!(expect_send(&acts[0], 1), b"shell done".to_vec());

    let (st, acts) = init_step(st, ack_frame());
    assert_eq!(st, InitState::AwaitCommand);
    assert_eq!(expect_send(&acts[0], 6), vec![0u8]);

    // Die: clean shutdown, exit 0
    let (st, acts) = init_step(st, InitEvent::Frame { code: 103, payload: vec![] });
    assert_eq!(st, InitState::Finished);
    assert_eq!(expect_send(&acts[0], 2), b"".to_vec());
    assert!(matches!(acts[1], InitAction::ExitProcess { status: 0 }));
}

#[test]
fn debug_handshake_blocks_until_ack() {
    // after a debug line, the only acceptable frame is an empty Ack
    let awaiting = InitState::AwaitAck { then: AfterAck::EmitSubExited { status: 7 } };
    let (st, acts) = init_step(awaiting, InitEvent::Frame { code: 101, payload: vec![] });
    assert_eq!(st, InitState::Finished);
    let text = expect_send(&acts[0], 3);
    assert_eq!(text, b"unexpected reply to debug output".to_vec());
    assert!(matches!(acts[1], InitAction::ExitProcess { status: 1 }));

    // an Ack with a payload is not the empty Ack
    let awaiting = InitState::AwaitAck { then: AfterAck::BackToSetup };
    let (st, _) = init_step(awaiting, InitEvent::Frame { code: 100, payload: vec![1] });
    assert_eq!(st, InitState::Finished);

    // the empty Ack releases the owed report
    let awaiting = InitState::AwaitAck { then: AfterAck::EmitSubExited { status: 7 } };
    let (st, acts) = init_step(awaiting, ack_frame());
    assert_eq!(st, InitState::AwaitCommand);
    assert_eq!(expect_send(&acts[0], 6), vec![7u8]);
}

#[test]
fn non_root_run_drops_privileges() {
    let (st, acts) = init_step(
        InitState::AwaitCommand,
        InitEvent::Frame { code: 102, payload: b"id -u".to_vec() },
    );
    assert_eq!(st, InitState::Streaming);
    match &acts[0] {
        InitAction::SpawnShell { script, drop_privileges } => {
            assert_eq!(script, &b"id -u".to_vec());
            assert!(*drop_privileges);
        }
        other => panic!("expected a spawn, got {:?}", other),
    }
    assert_eq!(UNPRIVILEGED_ID, 212);
}

#[test]
fn protocol_violation_shuts_down() {
    let (st, acts) = init_step(
        InitState::AwaitCommand,
        InitEvent::Frame { code: 999, payload: vec![] },
    );
    assert_eq!(st, InitState::Finished);
    assert_eq!(acts.len(), 2);
    assert_eq!(expect_send(&acts[0], 3), b"unsupported code".to_vec());
    assert!(matches!(acts[1], InitAction::ExitProcess { status: 1 }));

    // an Ack outside the handshake is just as unsupported
    let (st, _) = init_step(
        InitState::AwaitCommand,
        InitEvent::Frame { code: 100, payload: vec![] },
    );
    assert_eq!(st, InitState::Finished);
}

#[test]
fn run_failures_keep_the_session() {
    let (st, acts) = init_step(
        InitState::Streaming,
        InitEvent::RunFailed { note: b"no stdin".to_vec() },
    );
    assert_eq!(st, InitState::AwaitAck { then: AfterAck::EmitSubExited { status: 255 } });
    assert_eq!(expect_send(&acts[0], 1), b"no stdin".to_vec());
}

#[test]
fn setup_failure_reports_and_exits() {
    let (st, acts) = init_step(
        InitState::Setup,
        InitEvent::SetupFailed { message: b"broken".to_vec() },
    );
    assert_eq!(st, InitState::Finished);
    assert_eq!(expect_send(&acts[0], 3), b"broken".to_vec());
    assert!(matches!(acts[1], InitAction::ExitProcess { status: 1 }));
}

#[test]
fn exit_bytes_clamp() {
    assert_eq!(exit_byte(Some(0)), 0);
    assert_eq!(exit_byte(Some(42)), 42);
    assert_eq!(exit_byte(Some(255)), 255);
    assert_eq!(exit_byte(Some(-1)), 255);
    assert_eq!(exit_byte(Some(300)), 255);
    assert_eq!(exit_byte(None), 255);
}

#[test]
fn descriptor_hygiene() {
    let listed = vec![0, 1, 2, 3, 19, 20, 21, 25, 40, 100];
    let plan = close_fds_plan(&listed, 21, 40);
    // the low block is swept except the allowed descriptors
    let expected_low: Vec<u64> = (0..=20).filter(|f| ![0, 1, 2].contains(f)).collect();
    assert_eq!(plan.shut_low, expected_low);
    // above the block, only unallowed listed descriptors leak
    assert_eq!(plan.leaked, vec![25, 100]);
}

#[test]
fn descriptor_hygiene_keeps_pipe_ends_in_block() {
    let plan = close_fds_plan(&vec![], 4, 5);
    let expected: Vec<u64> = (0..=20).filter(|f| ![0, 1, 2, 4, 5].contains(f)).collect();
    assert_eq!(plan.shut_low, expected);
    assert_eq!(plan.leaked, Vec::<u64>::new());
}

#[test]
fn capability_drop_plan() {
    assert_eq!(securebits_lockdown(), 0x2f);
    let caps = caps_to_drop(39);
    assert_eq!(caps.len(), 40);
    assert_eq!(caps[0], 0);
    assert_eq!(caps[39], 39);
    assert!(!cap_drop_error_is_fatal(22)); // EINVAL: capability undefined here
    assert!(cap_drop_error_is_fatal(1)); // EPERM is fatal
}

#[test]
fn last_cap_parsing() {
    assert_eq!(parse_last_cap("39\n"), Some(39));
    assert_eq!(parse_last_cap("  40  "), Some(40));
    assert_eq!(parse_last_cap("0"), None);
    assert_eq!(parse_last_cap(""), None);
    assert_eq!(parse_last_cap("abc"), None);
    assert_eq!(parse_last_cap("99999999999999999999"), None);
}
