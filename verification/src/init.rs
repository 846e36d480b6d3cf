//! The in-sandbox init, as a state machine.
//!
//! The init binary runs as PID 1 inside the sandbox and services the host's
//! commands.  Every decision it takes — which frame to answer, what to spawn,
//! when to block for an Ack, what to report when a shell finishes — is made
//! here, from the current state and one incoming event.  The surrounding
//! binary performs the pipe reads, the process spawning and the waiting, and
//! feeds the results back as events.

use vstd::prelude::*;
use vstd::seq_lib::group_seq_properties;
use vstd::string::StrSliceExecFns;
use vstd::utf8::encode_utf8;

use crate::num::{spec_dec_string_value, spec_is_dec_string, parse_u64};
use crate::text::{chars_of, spec_trim, trim_chars};

verus! {

/// What the init owes the host once the pending Ack arrives.
#[derive(Copy, Clone, Debug, PartialEq, Eq, Structural)]
pub enum AfterAck {
    /// Go on with setup: more debug lines may follow, then Ready.
    BackToSetup,
    /// Report how the spawned shell ended, then await the next command.
    EmitSubExited { status: u8 },
}

/// Where the init stands in its lifecycle.
#[derive(Copy, Clone, Debug, PartialEq, Eq, Structural)]
pub enum InitState {
    /// Before Ready: closing leaked descriptors, reporting processes.
    Setup,
    /// A DebugOutput frame is out; nothing more may be sent until the host
    /// answers it with an empty Ack.
    AwaitAck { then: AfterAck },
    /// Ready has been sent; the next frame from the host is a command.
    AwaitCommand,
    /// A shell is running; its output is being streamed back.
    Streaming,
    /// The session is over and the process exits.
    Finished,
}

/// One thing the surrounding binary observed.
#[derive(Debug)]
pub enum InitEvent {
    /// A frame arrived from the host.
    Frame { code: u64, payload: Vec<u8> },
    /// The init wants to log a line through the debug handshake.
    Debug { text: Vec<u8> },
    /// Setup finished; the host may start sending commands.
    SetupDone,
    /// Setup failed with this message.
    SetupFailed { message: Vec<u8> },
    /// The running shell printed a block of output.
    Chunk { data: Vec<u8> },
    /// The shell terminated; `status` is its wait status exit code, absent
    /// when it died of a signal.  `note` is the log line to report first.
    Exited { status: Option<i32>, note: Vec<u8> },
    /// Driving the shell failed (no stdin, write error, spawn failure);
    /// `note` describes it.  The session survives such errors.
    RunFailed { note: Vec<u8> },
}

/// One thing the surrounding binary must now do, in order.
#[derive(Debug)]
pub enum InitAction {
    /// Write this frame, whole, to the host pipe.
    SendFrame { code: u64, payload: Vec<u8> },
    /// Spawn the command shell and feed it this script on stdin.
    SpawnShell { script: Vec<u8>, drop_privileges: bool },
    /// Exit the whole init process with this status.
    ExitProcess { status: i32 },
}

/// Which events can arrive in which state.
pub open spec fn spec_event_fits(state: InitState, event: InitEvent) -> bool {
    match state {
        InitState::Setup => event is Debug || event is SetupDone || event is SetupFailed,
        InitState::AwaitAck { .. } => event is Frame,
        InitState::AwaitCommand => event is Frame,
        InitState::Streaming => event is Chunk || event is Exited || event is RunFailed,
        InitState::Finished => false,
    }
}

/// The single byte of a SubExited report: the shell's exit code, or 255
/// when the shell died of a signal or reported an out-of-range code.
pub open spec fn spec_exit_byte(status: Option<i32>) -> u8 {
    match status {
        Some(c) => if 0 <= c <= 255 {
            c as u8
        } else {
            255
        },
        None => 255,
    }
}

pub fn exit_byte(status: Option<i32>) -> (b: u8)
    ensures
        b == spec_exit_byte(status),
{
    match status {
        Some(c) => if 0 <= c && c <= 255 {
            c as u8
        } else {
            255
        },
        None => 255,
    }
}

/// The frame at this position sends this code and payload.
pub open spec fn spec_send(acts: Seq<InitAction>, idx: int, code: u64, payload: Seq<u8>) -> bool {
    &&& 0 <= idx < acts.len()
    &&& acts[idx] matches InitAction::SendFrame { code: c, payload: p } && c == code && p@
        == payload
}

/// The reply the init gives when the debug handshake is answered with
/// anything but an empty Ack.
pub open spec fn spec_bad_ack_text() -> Seq<u8> {
    encode_utf8("unexpected reply to debug output"@)
}

/// The reply the init gives to a code it does not serve.
pub open spec fn spec_bad_code_text() -> Seq<u8> {
    encode_utf8("unsupported code"@)
}

/// The empty Ack frame that releases the debug handshake.
pub open spec fn spec_is_good_ack(event: InitEvent) -> bool {
    event matches InitEvent::Frame { code, payload } && code == 100 && payload@.len() == 0
}

/// The full transition relation of the init: from a state and an event to
/// the next state and the actions to perform, in order.
pub open spec fn spec_init_step(
    state: InitState,
    event: InitEvent,
    next: InitState,
    acts: Seq<InitAction>,
) -> bool {
    match (state, event) {
        (InitState::Setup, InitEvent::Debug { text }) => {
            &&& next == (InitState::AwaitAck { then: AfterAck::BackToSetup })
            &&& acts.len() == 1
            &&& spec_send(acts, 0, 1, text@)
        },
        (InitState::Setup, InitEvent::SetupDone) => {
            &&& next == InitState::AwaitCommand
            &&& acts.len() == 1
            &&& spec_send(acts, 0, 4, Seq::<u8>::empty())
        },
        (InitState::Setup, InitEvent::SetupFailed { message }) => {
            &&& next == InitState::Finished
            &&& acts.len() == 2
            &&& spec_send(acts, 0, 3, message@)
            &&& acts[1] == (InitAction::ExitProcess { status: 1 })
        },
        (InitState::AwaitAck { then }, InitEvent::Frame { code, payload }) => {
            if code == 100 && payload@.len() == 0 {
                match then {
                    AfterAck::BackToSetup => {
                        &&& next == InitState::Setup
                        &&& acts.len() == 0
                    },
                    AfterAck::EmitSubExited { status } => {
                        &&& next == InitState::AwaitCommand
                        &&& acts.len() == 1
                        &&& spec_send(acts, 0, 6, seq![status])
                    },
                }
            } else {
                &&& next == InitState::Finished
                &&& acts.len() == 2
                &&& spec_send(acts, 0, 3, spec_bad_ack_text())
                &&& acts[1] == (InitAction::ExitProcess { status: 1 })
            }
        },
        (InitState::AwaitCommand, InitEvent::Frame { code, payload }) => {
            if code == 101 || code == 102 {
                &&& next == InitState::Streaming
                &&& acts.len() == 1
                &&& (acts[0] matches InitAction::SpawnShell { script, drop_privileges }
                    && script@ == payload@ && drop_privileges == (code == 102))
            } else if code == 103 {
                &&& next == InitState::Finished
                &&& acts.len() == 2
                &&& spec_send(acts, 0, 2, Seq::<u8>::empty())
                &&& acts[1] == (InitAction::ExitProcess { status: 0 })
            } else {
                &&& next == InitState::Finished
                &&& acts.len() == 2
                &&& spec_send(acts, 0, 3, spec_bad_code_text())
                &&& acts[1] == (InitAction::ExitProcess { status: 1 })
            }
        },
        (InitState::Streaming, InitEvent::Chunk { data }) => {
            &&& next == InitState::Streaming
            &&& acts.len() == 1
            &&& spec_send(acts, 0, 5, data@)
        },
        (InitState::Streaming, InitEvent::Exited { status, note }) => {
            &&& next == (InitState::AwaitAck {
                then: AfterAck::EmitSubExited { status: spec_exit_byte(status) },
            })
            &&& acts.len() == 1
            &&& spec_send(acts, 0, 1, note@)
        },
        (InitState::Streaming, InitEvent::RunFailed { note }) => {
            &&& next == (InitState::AwaitAck { then: AfterAck::EmitSubExited { status: 255 } })
            &&& acts.len() == 1
            &&& spec_send(acts, 0, 1, note@)
        },
        _ => false,
    }
}

/// Takes one step of the init's life: decides the next state and the
/// actions the binary must perform, exactly as `spec_init_step` relates.
pub fn init_step(state: InitState, event: InitEvent) -> (r: (InitState, Vec<InitAction>))
    requires
        spec_event_fits(state, event),
    ensures
        spec_init_step(state, event, r.0, r.1@),
{
    let mut acts: Vec<InitAction> = Vec::new();
    match (state, event) {
        (InitState::Setup, InitEvent::Debug { text }) => {
            acts.push(InitAction::SendFrame { code: 1, payload: text });
            (InitState::AwaitAck { then: AfterAck::BackToSetup }, acts)
        },
        (InitState::Setup, InitEvent::SetupDone) => {
            acts.push(InitAction::SendFrame { code: 4, payload: Vec::new() });
            (InitState::AwaitCommand, acts)
        },
        (InitState::Setup, InitEvent::SetupFailed { message }) => {
            acts.push(InitAction::SendFrame { code: 3, payload: message });
            acts.push(InitAction::ExitProcess { status: 1 });
            (InitState::Finished, acts)
        },
        (InitState::AwaitAck { then }, InitEvent::Frame { code, payload }) => {
            if code == 100 && payload.len() == 0 {
                match then {
                    AfterAck::BackToSetup => (InitState::Setup, acts),
                    AfterAck::EmitSubExited { status } => {
                        let mut single: Vec<u8> = Vec::new();
                        single.push(status);
                        proof {
                            assert(single@ =~= seq![status]);
                        }
                        acts.push(InitAction::SendFrame { code: 6, payload: single });
                        (InitState::AwaitCommand, acts)
                    },
                }
            } else {
                let text = "unexpected reply to debug output".as_bytes_vec();
                acts.push(InitAction::SendFrame { code: 3, payload: text });
                acts.push(InitAction::ExitProcess { status: 1 });
                (InitState::Finished, acts)
            }
        },
        (InitState::AwaitCommand, InitEvent::Frame { code, payload }) => {
            if code == 101 || code == 102 {
                acts.push(
                    InitAction::SpawnShell { script: payload, drop_privileges: code == 102 },
                );
                (InitState::Streaming, acts)
            } else if code == 103 {
                acts.push(InitAction::SendFrame { code: 2, payload: Vec::new() });
                acts.push(InitAction::ExitProcess { status: 0 });
                (InitState::Finished, acts)
            } else {
                let text = "unsupported code".as_bytes_vec();
                acts.push(InitAction::SendFrame { code: 3, payload: text });
                acts.push(InitAction::ExitProcess { status: 1 });
                (InitState::Finished, acts)
            }
        },
        (InitState::Streaming, InitEvent::Chunk { data }) => {
            acts.push(InitAction::SendFrame { code: 5, payload: data });
            (InitState::Streaming, acts)
        },
        (InitState::Streaming, InitEvent::Exited { status, note }) => {
            let b = exit_byte(status);
            acts.push(InitAction::SendFrame { code: 1, payload: note });
            (InitState::AwaitAck { then: AfterAck::EmitSubExited { status: b } }, acts)
        },
        (InitState::Streaming, InitEvent::RunFailed { note }) => {
            acts.push(InitAction::SendFrame { code: 1, payload: note });
            (InitState::AwaitAck { then: AfterAck::EmitSubExited { status: 255 } }, acts)
        },
        _ => {
            proof {
                assert(false);
            }
            (InitState::Finished, acts)
        },
    }
}

/// Lock step of the debug handshake, on the child's side: while an Ack is
/// owed, the init acts only on a frame from the host; only the empty Ack
/// lets the session continue (and releases the owed report, if any); any
/// other reply ends the session with a shutdown error.
pub proof fn lemma_handshake_lockstep(
    state: InitState,
    event: InitEvent,
    next: InitState,
    acts: Seq<InitAction>,
)
    requires
        state is AwaitAck,
        spec_event_fits(state, event),
        spec_init_step(state, event, next, acts),
    ensures
        event is Frame,
        spec_is_good_ack(event) && state == (InitState::AwaitAck {
            then: AfterAck::BackToSetup,
        }) ==> acts.len() == 0 && next == InitState::Setup,
        forall|status: u8|
            spec_is_good_ack(event) && state == (InitState::AwaitAck {
                then: AfterAck::EmitSubExited { status },
            }) ==> acts.len() == 1 && spec_send(acts, 0, 6, seq![status]) && next
                == InitState::AwaitCommand,
        !spec_is_good_ack(event) ==> next == InitState::Finished && acts.len() == 2 && spec_send(
            acts,
            0,
            3,
            spec_bad_ack_text(),
        ),
{
}

/// Protocol violation: a frame whose code is no command the init serves is
/// answered, within one frame, by a shutdown error, and the init exits
/// non-zero.
pub proof fn lemma_unknown_code_rejected(
    state: InitState,
    event: InitEvent,
    next: InitState,
    acts: Seq<InitAction>,
    code: u64,
    payload: Vec<u8>,
)
    requires
        state is AwaitCommand,
        event == (InitEvent::Frame { code, payload }),
        !(101 <= code <= 103),
        spec_init_step(state, event, next, acts),
    ensures
        next == InitState::Finished,
        acts.len() == 2,
        spec_send(acts, 0, 3, spec_bad_code_text()),
        acts[1] == (InitAction::ExitProcess { status: 1 }),
{
}

/// The descriptors the init may keep open: the standard three and its two
/// pipe ends.
pub open spec fn spec_fd_allowed(fd: u64, recv: u64, send: u64) -> bool {
    fd == 0 || fd == 1 || fd == 2 || fd == recv || fd == send
}

/// The descriptor hygiene plan for the freshly exec'd init.
pub struct FdPlan {
    /// Closed silently: everything in the low safety block 0..=20 that is
    /// not allowed to stay.
    pub shut_low: Vec<u64>,
    /// Closed after reporting a leak: every listed descriptor above the
    /// safety block that is not allowed to stay.
    pub leaked: Vec<u64>,
}

/// Decides which descriptors to close, given the descriptors listed as open
/// and the two pipe ends to keep.  The low block is swept unconditionally;
/// anything above it that is listed, and not allowed, is a leak.
pub fn close_fds_plan(listed: &Vec<u64>, recv: u64, send: u64) -> (r: FdPlan)
    ensures
        r.shut_low@ == Seq::new(21, |i: int| i as u64).filter(
            |f: u64| !spec_fd_allowed(f, recv, send),
        ),
        r.leaked@ == listed@.filter(|f: u64| f > 20 && !spec_fd_allowed(f, recv, send)),
{
    broadcast use group_seq_properties;

    let ghost low = Seq::new(21, |i: int| i as u64);
    let mut shut_low: Vec<u64> = Vec::new();
    let mut i: u64 = 0;
    proof {
        reveal(Seq::filter);
        assert(low.take(0) =~= Seq::<u64>::empty());
        assert(shut_low@ =~= low.take(0).filter(|f: u64| !spec_fd_allowed(f, recv, send)));
    }
    while i <= 20
        invariant
            i <= 21,
            low == Seq::new(21, |k: int| k as u64),
            shut_low@ == low.take(i as int).filter(|f: u64| !spec_fd_allowed(f, recv, send)),
        decreases 21 - i,
    {
        if !(i == 0 || i == 1 || i == 2 || i == recv || i == send) {
            shut_low.push(i);
        }
        proof {
            reveal(Seq::filter);
            assert(low.take(i + 1).drop_last() =~= low.take(i as int));
            assert(low.take(i + 1).last() == i);
        }
        i = i + 1;
    }
    proof {
        assert(low.take(21) =~= low);
    }
    let mut leaked: Vec<u64> = Vec::new();
    let mut j: usize = 0;
    proof {
        reveal(Seq::filter);
        assert(listed@.take(0) =~= Seq::<u64>::empty());
        assert(leaked@ =~= listed@.take(0).filter(
            |f: u64| f > 20 && !spec_fd_allowed(f, recv, send),
        ));
    }
    while j < listed.len()
        invariant
            j <= listed@.len(),
            leaked@ == listed@.take(j as int).filter(
                |f: u64| f > 20 && !spec_fd_allowed(f, recv, send),
            ),
        decreases listed@.len() - j,
    {
        let fd = listed[j];
        if fd > 20 && !(fd == 0 || fd == 1 || fd == 2 || fd == recv || fd == send) {
            leaked.push(fd);
        }
        proof {
            reveal(Seq::filter);
            assert(listed@.take(j + 1).drop_last() =~= listed@.take(j as int));
            assert(listed@.take(j + 1).last() == fd);
        }
        j = j + 1;
    }
    proof {
        assert(listed@.take(listed@.len() as int) =~= listed@);
    }
    FdPlan { shut_low, leaked }
}

/// Securebits that lock the process out of re-acquiring privilege:
/// NOROOT and its lock, NO_SETUID_FIXUP and its lock, and the lock on
/// KEEP_CAPS (kept off).
pub const SECBIT_NOROOT: u64 = 0x1;

pub const SECBIT_NOROOT_LOCKED: u64 = 0x2;

pub const SECBIT_NO_SETUID_FIXUP: u64 = 0x4;

pub const SECBIT_NO_SETUID_FIXUP_LOCKED: u64 = 0x8;

pub const SECBIT_KEEP_CAPS_LOCKED: u64 = 0x20;

/// The securebits value installed before the non-root shell is spawned.
pub fn securebits_lockdown() -> (r: u64)
    ensures
        r == (SECBIT_KEEP_CAPS_LOCKED | SECBIT_NO_SETUID_FIXUP | SECBIT_NO_SETUID_FIXUP_LOCKED
            | SECBIT_NOROOT | SECBIT_NOROOT_LOCKED),
        r == 0x2f,
{
    proof {
        assert((0x20u64 | 0x4u64 | 0x8u64 | 0x1u64 | 0x2u64) == 0x2fu64) by (bit_vector);
    }
    0x2f
}

/// The sandbox's unprivileged identity: commands run without root execute
/// as this uid and gid.
pub const UNPRIVILEGED_ID: u64 = 212;

/// Reads the kernel's report of the last valid capability number, as the
/// text of /proc/sys/kernel/cap_last_cap: a positive decimal, surrounding
/// whitespace ignored, within the range of a C int.
pub fn parse_last_cap(text: &str) -> (r: Option<u64>)
    ensures
        match r {
            Some(v) => {
                &&& spec_is_dec_string(spec_trim(text@))
                &&& v == spec_dec_string_value(spec_trim(text@))
                &&& 0 < v <= 0x7fffffff
            },
            None => {
                ||| !spec_is_dec_string(spec_trim(text@))
                ||| spec_dec_string_value(spec_trim(text@)) == 0
                ||| spec_dec_string_value(spec_trim(text@)) > 0x7fffffff
            },
        },
{
    let raw = chars_of(text);
    let trimmed = trim_chars(&raw);
    match parse_u64(&trimmed) {
        Some(v) => if 0 < v && v <= 0x7fffffff {
            Some(v)
        } else {
            None
        },
        None => None,
    }
}

/// Every capability number from zero to the last one, in order: the whole
/// bounding set is dropped, none skipped.
pub fn caps_to_drop(last_cap: u64) -> (r: Vec<u64>)
    requires
        last_cap <= 0x7fffffff,
    ensures
        r@ == Seq::new((last_cap + 1) as nat, |i: int| i as u64),
{
    let mut r: Vec<u64> = Vec::new();
    let mut i: u64 = 0;
    while i <= last_cap
        invariant
            last_cap <= 0x7fffffff,
            i <= last_cap + 1,
            r@ == Seq::new(i as nat, |k: int| k as u64),
        decreases last_cap + 1 - i,
    {
        r.push(i);
        i = i + 1;
        proof {
            assert(r@ =~= Seq::new(i as nat, |k: int| k as u64));
        }
    }
    r
}

/// Whether a failed capability drop aborts the init.  EINVAL (the kernel
/// does not define the capability number) is tolerated; every other error
/// is fatal.
pub fn cap_drop_error_is_fatal(errno: i32) -> (r: bool)
    ensures
        r == (errno != 22),
{
    errno != 22
}

} // verus!
