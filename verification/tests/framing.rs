use fappa::codec::{decode_header, encode_frame};
use fappa::protocol::{
    interpret_child_frame, parse_child_code, parse_host_code, parse_header, ChildReport, CodeFrom,
    CodeTo, FromChild, ProtocolError,
};
use fappa::session::{interpret_wait, run_code, session_verdict, HostPhase, HostTeardownError,
    SessionVerdict};

#[test]
fn frame_round_trip() {
    let payload = b"hello sandbox".to_vec();
    let frame = encode_frame(5, &payload);
    assert_eq!(frame.len(), payload.len() + 16);
    let (len, code) = decode_header(&frame[..16]);
    assert_eq!(len, payload.len() as u64 + 16);
    assert_eq!(code, 5);
    assert_eq!(&frame[16..], &payload[..]);
}

#[test]
fn frame_round_trip_empty_payload() {
    let frame = encode_frame(4, &[]);
    assert_eq!(frame.len(), 16);
    let (len, code) = decode_header(&frame);
    assert_eq!(len, 16);
    assert_eq!(code, 4);
}

#[test]
fn length_field_little_endian() {
    let frame = encode_frame(2, &[0xAA; 3]);
    assert_eq!(&frame[..8], &[19, 0, 0, 0, 0, 0, 0, 0]);
    assert_eq!(&frame[8..16], &[2, 0, 0, 0, 0, 0, 0, 0]);
}

#[test]
fn direction_mismatch_on_host_pipe() {
    for v in 100..=103u64 {
        assert_eq!(
            parse_child_code(v),
            Err(ProtocolError::DirectionMismatch { code: v })
        );
    }
    for v in 1..=6u64 {
        assert_eq!(
            parse_host_code(v),
            Err(ProtocolError::DirectionMismatch { code: v })
        );
    }
}

#[test]
fn unknown_codes_rejected() {
    assert_eq!(parse_child_code(999), Err(ProtocolError::UnknownCode { code: 999 }));
    assert_eq!(parse_child_code(0), Err(ProtocolError::UnknownCode { code: 0 }));
    assert_eq!(parse_host_code(7), Err(ProtocolError::UnknownCode { code: 7 }));
    assert_eq!(parse_child_code(3), Ok(CodeFrom::ShutdownError));
    assert_eq!(parse_host_code(103), Ok(CodeTo::Die));
}

#[test]
fn truncated_header_rejected() {
    let frame = encode_frame(1, b"x");
    assert_eq!(parse_header(&frame[..16]), Ok((1, 1)));
    let mut short = vec![0u8; 16];
    short[0] = 15; // length field 15 < 16
    assert_eq!(parse_header(&short), Err(ProtocolError::TruncatedHeader));
}

#[test]
fn debug_frame_needs_ack() {
    let report = interpret_child_frame(1, b"a log line".to_vec()).unwrap();
    match report {
        ChildReport::Event { event: FromChild::Debug(s), ack } => {
            assert_eq!(s, "a log line");
            assert!(ack);
        }
        other => panic!("wrong report: {:?}", other),
    }
    let report = interpret_child_frame(5, b"out".to_vec()).unwrap();
    match report {
        ChildReport::Event { event: FromChild::Output(d), ack } => {
            assert_eq!(d, b"out".to_vec());
            assert!(!ack);
        }
        other => panic!("wrong report: {:?}", other),
    }
}

#[test]
fn malformed_frames_rejected() {
    // SubExited without its status byte
    assert_eq!(
        interpret_child_frame(6, vec![]).unwrap_err(),
        ProtocolError::MalformedFrame
    );
    // DebugOutput with invalid UTF-8
    assert_eq!(
        interpret_child_frame(1, vec![0xff, 0xfe]).unwrap_err(),
        ProtocolError::MalformedFrame
    );
    // ShutdownError carries its message
    match interpret_child_frame(3, b"boom".to_vec()).unwrap() {
        ChildReport::Failed { message } => assert_eq!(message, "boom"),
        other => panic!("wrong report: {:?}", other),
    }
    // clean shutdown
    assert!(matches!(
        interpret_child_frame(2, vec![]).unwrap(),
        ChildReport::Finished
    ));
}

#[test]
fn session_phase_verdicts() {
    let ready = ChildReport::Event { event: FromChild::Ready, ack: false };
    let debug = ChildReport::Event { event: FromChild::Debug(String::from("d")), ack: true };
    let output = ChildReport::Event { event: FromChild::Output(vec![1]), ack: false };
    let exited = ChildReport::Event { event: FromChild::SubExited(0), ack: false };
    assert_eq!(session_verdict(HostPhase::AwaitReady, &ready), SessionVerdict::Done);
    assert_eq!(session_verdict(HostPhase::AwaitReady, &debug), SessionVerdict::Proceed);
    assert_eq!(session_verdict(HostPhase::AwaitReady, &output), SessionVerdict::Unexpected);
    assert_eq!(session_verdict(HostPhase::Execute, &output), SessionVerdict::Proceed);
    assert_eq!(session_verdict(HostPhase::Execute, &exited), SessionVerdict::Done);
    assert_eq!(session_verdict(HostPhase::Shutdown, &exited), SessionVerdict::Unexpected);
    assert_eq!(session_verdict(HostPhase::Shutdown, &debug), SessionVerdict::Proceed);
    assert_eq!(
        session_verdict(HostPhase::Execute, &ChildReport::Finished),
        SessionVerdict::Done
    );
    assert_eq!(
        session_verdict(HostPhase::Execute, &ChildReport::Failed { message: String::new() }),
        SessionVerdict::ChildFailed
    );
}

#[test]
fn run_codes_and_teardown() {
    assert_eq!(run_code(true), CodeTo::RunAsRoot);
    assert_eq!(run_code(false), CodeTo::RunWithoutRoot);
    assert_eq!(run_code(true).value(), 101);
    assert_eq!(run_code(false).value(), 102);
    assert_eq!(interpret_wait(Some(3)), Ok(3));
    assert_eq!(interpret_wait(None), Err(HostTeardownError::NotAPlainExit));
}
