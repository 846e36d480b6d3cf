//! Typed operation codes and frame interpretation.
//!
//! The protocol is directional: the child-to-host codes and the
//! host-to-child codes live in disjoint numeric ranges, and each side only
//! decodes the codes of the other side.  A code from the wrong space is a
//! direction mismatch, an unknown number is an unknown code; neither is ever
//! decoded into an event.

use vstd::prelude::*;
use vstd::utf8::{decode_utf8, valid_utf8};

use crate::codec::{spec_frame_code, spec_frame_len};
use crate::text::string_from_utf8;

verus! {

/// Codes the child sends to the host.
#[derive(Copy, Clone, Debug, PartialEq, Eq, Structural)]
pub enum CodeFrom {
    DebugOutput,
    ShutdownSuccess,
    ShutdownError,
    Ready,
    Output,
    SubExited,
}

/// Codes the host sends to the child.
#[derive(Copy, Clone, Debug, PartialEq, Eq, Structural)]
pub enum CodeTo {
    Ack,
    RunAsRoot,
    RunWithoutRoot,
    Die,
}

/// Why a received frame was rejected.
#[derive(Copy, Clone, Debug, PartialEq, Eq, Structural)]
pub enum ProtocolError {
    /// The code number belongs to neither direction.
    UnknownCode { code: u64 },
    /// The length field announces less than a bare header.
    TruncatedHeader,
    /// The code belongs to the sender's own code space.
    DirectionMismatch { code: u64 },
    /// The payload does not fit the code (bad text, missing status byte).
    MalformedFrame,
}

impl CodeFrom {
    /// The number of this code on the wire.
    pub open spec fn spec_value(self) -> u64 {
        match self {
            CodeFrom::DebugOutput => 1,
            CodeFrom::ShutdownSuccess => 2,
            CodeFrom::ShutdownError => 3,
            CodeFrom::Ready => 4,
            CodeFrom::Output => 5,
            CodeFrom::SubExited => 6,
        }
    }

    /// Whether a number is a child-to-host code.
    pub open spec fn spec_is_code(v: u64) -> bool {
        1 <= v <= 6
    }

    pub fn value(self) -> (v: u64)
        ensures
            v == self.spec_value(),
    {
        match self {
            CodeFrom::DebugOutput => 1,
            CodeFrom::ShutdownSuccess => 2,
            CodeFrom::ShutdownError => 3,
            CodeFrom::Ready => 4,
            CodeFrom::Output => 5,
            CodeFrom::SubExited => 6,
        }
    }
}

impl CodeTo {
    /// The number of this code on the wire.
    pub open spec fn spec_value(self) -> u64 {
        match self {
            CodeTo::Ack => 100,
            CodeTo::RunAsRoot => 101,
            CodeTo::RunWithoutRoot => 102,
            CodeTo::Die => 103,
        }
    }

    /// Whether a number is a host-to-child code.
    pub open spec fn spec_is_code(v: u64) -> bool {
        100 <= v <= 103
    }

    pub fn value(self) -> (v: u64)
        ensures
            v == self.spec_value(),
    {
        match self {
            CodeTo::Ack => 100,
            CodeTo::RunAsRoot => 101,
            CodeTo::RunWithoutRoot => 102,
            CodeTo::Die => 103,
        }
    }
}

/// How the host decodes a code number read from the child's pipe.
pub open spec fn spec_parse_child_code(v: u64) -> Result<CodeFrom, ProtocolError> {
    if v == 1 {
        Ok(CodeFrom::DebugOutput)
    } else if v == 2 {
        Ok(CodeFrom::ShutdownSuccess)
    } else if v == 3 {
        Ok(CodeFrom::ShutdownError)
    } else if v == 4 {
        Ok(CodeFrom::Ready)
    } else if v == 5 {
        Ok(CodeFrom::Output)
    } else if v == 6 {
        Ok(CodeFrom::SubExited)
    } else if CodeTo::spec_is_code(v) {
        Err(ProtocolError::DirectionMismatch { code: v })
    } else {
        Err(ProtocolError::UnknownCode { code: v })
    }
}

/// How the child decodes a code number read from the host's pipe.
pub open spec fn spec_parse_host_code(v: u64) -> Result<CodeTo, ProtocolError> {
    if v == 100 {
        Ok(CodeTo::Ack)
    } else if v == 101 {
        Ok(CodeTo::RunAsRoot)
    } else if v == 102 {
        Ok(CodeTo::RunWithoutRoot)
    } else if v == 103 {
        Ok(CodeTo::Die)
    } else if CodeFrom::spec_is_code(v) {
        Err(ProtocolError::DirectionMismatch { code: v })
    } else {
        Err(ProtocolError::UnknownCode { code: v })
    }
}

pub fn parse_child_code(v: u64) -> (r: Result<CodeFrom, ProtocolError>)
    ensures
        r == spec_parse_child_code(v),
{
    if v == 1 {
        Ok(CodeFrom::DebugOutput)
    } else if v == 2 {
        Ok(CodeFrom::ShutdownSuccess)
    } else if v == 3 {
        Ok(CodeFrom::ShutdownError)
    } else if v == 4 {
        Ok(CodeFrom::Ready)
    } else if v == 5 {
        Ok(CodeFrom::Output)
    } else if v == 6 {
        Ok(CodeFrom::SubExited)
    } else if 100 <= v && v <= 103 {
        Err(ProtocolError::DirectionMismatch { code: v })
    } else {
        Err(ProtocolError::UnknownCode { code: v })
    }
}

pub fn parse_host_code(v: u64) -> (r: Result<CodeTo, ProtocolError>)
    ensures
        r == spec_parse_host_code(v),
{
    if v == 100 {
        Ok(CodeTo::Ack)
    } else if v == 101 {
        Ok(CodeTo::RunAsRoot)
    } else if v == 102 {
        Ok(CodeTo::RunWithoutRoot)
    } else if v == 103 {
        Ok(CodeTo::Die)
    } else if 1 <= v && v <= 6 {
        Err(ProtocolError::DirectionMismatch { code: v })
    } else {
        Err(ProtocolError::UnknownCode { code: v })
    }
}

/// Direction safety: a code of the host's own sending space, seen on the
/// pipe the host reads from, is rejected as a direction mismatch; and the
/// same holds with the sides swapped.
pub proof fn lemma_direction_safety(v: u64)
    ensures
        CodeTo::spec_is_code(v) ==> spec_parse_child_code(v) == Err::<
            CodeFrom,
            ProtocolError,
        >(ProtocolError::DirectionMismatch { code: v }),
        CodeFrom::spec_is_code(v) ==> spec_parse_host_code(v) == Err::<
            CodeTo,
            ProtocolError,
        >(ProtocolError::DirectionMismatch { code: v }),
{
}

/// Checks the header of an incoming frame and yields the payload length it
/// announces together with the raw code number.
pub fn parse_header(header: &[u8]) -> (r: Result<(u64, u64), ProtocolError>)
    requires
        header@.len() == 16,
    ensures
        match r {
            Ok(fields) => {
                &&& spec_frame_len(header@) >= 16
                &&& fields.0 == spec_frame_len(header@) - 16
                &&& fields.1 == spec_frame_code(header@)
            },
            Err(e) => e == ProtocolError::TruncatedHeader && spec_frame_len(header@) < 16,
        },
{
    let (len, code) = crate::codec::decode_header(header);
    if len < 16 {
        Err(ProtocolError::TruncatedHeader)
    } else {
        Ok((len - 16, code))
    }
}

/// An event the child reported to the host.
#[derive(Debug, Clone)]
pub enum FromChild {
    Debug(String),
    Ready,
    Output(Vec<u8>),
    SubExited(u8),
}

/// The host's reading of one well-formed frame from the child.
#[derive(Debug)]
pub enum ChildReport {
    /// An event to act on; `ack` says whether the child now blocks until
    /// the host replies with an empty Ack frame.
    Event { event: FromChild, ack: bool },
    /// The child shut down cleanly.
    Finished,
    /// The child shut down reporting an error.
    Failed { message: String },
}

/// The only code whose receipt obliges the host to reply before the child
/// will send anything further.
pub open spec fn spec_needs_ack(c: CodeFrom) -> bool {
    c is DebugOutput
}

/// Decides what a frame from the child means to the host: which event it
/// carries, and whether the synchronous debug handshake owes an Ack.  The
/// host owes an Ack exactly for a DebugOutput frame.
pub fn interpret_child_frame(code: u64, payload: Vec<u8>) -> (r: Result<ChildReport, ProtocolError>)
    ensures
        spec_parse_child_code(code) matches Err(e) ==> r == Err::<ChildReport, ProtocolError>(e),
        r matches Ok(ChildReport::Event { event, ack }) ==> (spec_parse_child_code(code) matches Ok(
            c,
        ) && ack == spec_needs_ack(c)),
        code == CodeFrom::DebugOutput.spec_value() ==> (if valid_utf8(payload@) {
            r matches Ok(ChildReport::Event { event: FromChild::Debug(s), ack }) && ack
                && s@ == decode_utf8(payload@)
        } else {
            r == Err::<ChildReport, ProtocolError>(ProtocolError::MalformedFrame)
        }),
        code == CodeFrom::ShutdownSuccess.spec_value() ==> r matches Ok(ChildReport::Finished),
        code == CodeFrom::ShutdownError.spec_value() ==> (if valid_utf8(payload@) {
            r matches Ok(ChildReport::Failed { message }) && message@ == decode_utf8(payload@)
        } else {
            r == Err::<ChildReport, ProtocolError>(ProtocolError::MalformedFrame)
        }),
        code == CodeFrom::Ready.spec_value() ==> (r matches Ok(ChildReport::Event {
            event: FromChild::Ready,
            ack,
        }) && !ack),
        code == CodeFrom::Output.spec_value() ==> (r matches Ok(ChildReport::Event {
            event: FromChild::Output(data),
            ack,
        }) && !ack && data@ == payload@),
        code == CodeFrom::SubExited.spec_value() ==> (if payload@.len() >= 1 {
            r matches Ok(ChildReport::Event { event: FromChild::SubExited(b), ack }) && !ack && b
                == payload@[0]
        } else {
            r == Err::<ChildReport, ProtocolError>(ProtocolError::MalformedFrame)
        }),
{
    let parsed = parse_child_code(code)?;
    match parsed {
        CodeFrom::DebugOutput => match string_from_utf8(payload) {
            Some(s) => Ok(ChildReport::Event { event: FromChild::Debug(s), ack: true }),
            None => Err(ProtocolError::MalformedFrame),
        },
        CodeFrom::ShutdownSuccess => Ok(ChildReport::Finished),
        CodeFrom::ShutdownError => match string_from_utf8(payload) {
            Some(s) => Ok(ChildReport::Failed { message: s }),
            None => Err(ProtocolError::MalformedFrame),
        },
        CodeFrom::Ready => Ok(ChildReport::Event { event: FromChild::Ready, ack: false }),
        CodeFrom::Output => Ok(ChildReport::Event { event: FromChild::Output(payload), ack: false }),
        CodeFrom::SubExited => {
            if payload.len() >= 1 {
                let b = payload[0];
                Ok(ChildReport::Event { event: FromChild::SubExited(b), ack: false })
            } else {
                Err(ProtocolError::MalformedFrame)
            }
        },
    }
}

} // verus!
