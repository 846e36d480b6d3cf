//! The host's side of a sandbox session.
//!
//! After launching the sandbox the host drives it through three phases:
//! waiting for Ready, executing commands, and shutting down.  In each phase
//! only some child events are in order; the verdict functions here decide,
//! for every report the child can send, whether the host keeps reading,
//! is done with the phase, or must abort.

use vstd::prelude::*;

use crate::protocol::{ChildReport, CodeTo, FromChild};

verus! {

/// Which phase of the session the host is in.
#[derive(Copy, Clone, Debug, PartialEq, Eq, Structural)]
pub enum HostPhase {
    /// Between launch and the child's Ready.
    AwaitReady,
    /// Between sending a Run command and the child's SubExited.
    Execute,
    /// Between sending Die and the child's clean shutdown.
    Shutdown,
}

/// What the host does with one report in a phase.
#[derive(Copy, Clone, Debug, PartialEq, Eq, Structural)]
pub enum SessionVerdict {
    /// Keep reading: the report was a debug line or streamed output.
    Proceed,
    /// The phase is over.
    Done,
    /// The child reported a shutdown error; the session failed.
    ChildFailed,
    /// The child sent an event this phase does not allow.
    Unexpected,
}

/// The host's verdict on one report, phase by phase.  A clean shutdown ends
/// any phase; a reported error fails any phase; debug lines are always
/// consumed; output and exit reports belong to command execution alone, and
/// Ready is in order only while it is being awaited.
pub open spec fn spec_session_verdict(phase: HostPhase, report: ChildReport) -> SessionVerdict {
    match report {
        ChildReport::Finished => SessionVerdict::Done,
        ChildReport::Failed { .. } => SessionVerdict::ChildFailed,
        ChildReport::Event { event, .. } => match (phase, event) {
            (HostPhase::AwaitReady, FromChild::Ready) => SessionVerdict::Done,
            (HostPhase::AwaitReady, FromChild::Debug(_)) => SessionVerdict::Proceed,
            (HostPhase::Execute, FromChild::Debug(_)) => SessionVerdict::Proceed,
            (HostPhase::Execute, FromChild::Output(_)) => SessionVerdict::Proceed,
            (HostPhase::Execute, FromChild::SubExited(_)) => SessionVerdict::Done,
            (HostPhase::Shutdown, FromChild::Debug(_)) => SessionVerdict::Proceed,
            _ => SessionVerdict::Unexpected,
        },
    }
}

pub fn session_verdict(phase: HostPhase, report: &ChildReport) -> (r: SessionVerdict)
    ensures
        r == spec_session_verdict(phase, *report),
{
    match report {
        ChildReport::Finished => SessionVerdict::Done,
        ChildReport::Failed { .. } => SessionVerdict::ChildFailed,
        ChildReport::Event { event, .. } => match (phase, event) {
            (HostPhase::AwaitReady, FromChild::Ready) => SessionVerdict::Done,
            (HostPhase::AwaitReady, FromChild::Debug(_)) => SessionVerdict::Proceed,
            (HostPhase::Execute, FromChild::Debug(_)) => SessionVerdict::Proceed,
            (HostPhase::Execute, FromChild::Output(_)) => SessionVerdict::Proceed,
            (HostPhase::Execute, FromChild::SubExited(_)) => SessionVerdict::Done,
            (HostPhase::Shutdown, FromChild::Debug(_)) => SessionVerdict::Proceed,
            _ => SessionVerdict::Unexpected,
        },
    }
}

/// The command code for a script: run it as sandbox root, or with
/// privileges dropped.
pub fn run_code(as_root: bool) -> (c: CodeTo)
    ensures
        c == if as_root {
            CodeTo::RunAsRoot
        } else {
            CodeTo::RunWithoutRoot
        },
{
    if as_root {
        CodeTo::RunAsRoot
    } else {
        CodeTo::RunWithoutRoot
    }
}

/// The child handle was torn down without a plain exit.
#[derive(Copy, Clone, Debug, PartialEq, Eq, Structural)]
pub enum HostTeardownError {
    /// The outer child's wait status was not a normal exit.
    NotAPlainExit,
}

/// The host's reading of the outer child's wait status: a plain exit yields
/// its code, anything else is a teardown error.
pub fn interpret_wait(status: Option<i32>) -> (r: Result<i32, HostTeardownError>)
    ensures
        match status {
            Some(c) => r == Ok::<i32, HostTeardownError>(c),
            None => r == Err::<i32, HostTeardownError>(HostTeardownError::NotAPlainExit),
        },
{
    match status {
        Some(c) => Ok(c),
        None => Err(HostTeardownError::NotAPlainExit),
    }
}

} // verus!
