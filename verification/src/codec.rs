//! The wire format of one protocol frame.
//!
//! A frame is an 8-byte little-endian total length (header included, so the
//! field is always at least 16), an 8-byte little-endian operation code, and
//! a payload of exactly (length - 16) bytes.  A writer emits the whole frame
//! as one buffer; a reader takes the 16-byte header first and then reads the
//! payload it announces.

use vstd::prelude::*;
use vstd::bytes::{spec_u64_from_le_bytes, spec_u64_to_le_bytes, u64_from_le_bytes, u64_to_le_bytes};
use vstd::bytes::lemma_auto_spec_u64_to_from_le_bytes;
use vstd::slice::slice_subrange;

verus! {

/// Bytes in a frame header: eight of length, eight of code.
pub const HEADER_LEN: u64 = 16;

/// The bytes of one frame: little-endian total length (header included),
/// little-endian operation code, then the payload.
pub open spec fn spec_frame(code: u64, payload: Seq<u8>) -> Seq<u8> {
    spec_u64_to_le_bytes((payload.len() + 16) as u64) + spec_u64_to_le_bytes(code) + payload
}

/// The length field of an encoded frame.
pub open spec fn spec_frame_len(frame: Seq<u8>) -> u64 {
    spec_u64_from_le_bytes(frame.subrange(0, 8))
}

/// The code field of an encoded frame.
pub open spec fn spec_frame_code(frame: Seq<u8>) -> u64 {
    spec_u64_from_le_bytes(frame.subrange(8, 16))
}

/// The payload of an encoded frame: everything after the header.
pub open spec fn spec_frame_payload(frame: Seq<u8>) -> Seq<u8> {
    frame.skip(16)
}

/// Builds the full wire image of one frame in a single buffer, so a writer
/// can commit it with one write and never interleave a partial frame.
///
/// The length field equals the payload length plus 16.
pub fn encode_frame(code: u64, payload: &[u8]) -> (frame: Vec<u8>)
    requires
        payload@.len() + 16 <= u64::MAX,
    ensures
        frame@ == spec_frame(code, payload@),
        frame@.len() == payload@.len() + 16,
        spec_frame_len(frame@) == payload@.len() + 16,
        spec_frame_code(frame@) == code,
        spec_frame_payload(frame@) == payload@,
{
    proof {
        lemma_auto_spec_u64_to_from_le_bytes();
    }
    let total: u64 = payload.len() as u64 + 16;
    let mut frame = u64_to_le_bytes(total);
    let mut code_bytes = u64_to_le_bytes(code);
    frame.append(&mut code_bytes);
    frame.extend_from_slice(payload);
    proof {
        lemma_frame_fields(code, payload@);
        assert(frame@ =~= spec_frame(code, payload@));
    }
    frame
}

/// Splits a 16-byte header into its length and code fields.
pub fn decode_header(header: &[u8]) -> (fields: (u64, u64))
    requires
        header@.len() == 16,
    ensures
        fields.0 == spec_frame_len(header@),
        fields.1 == spec_frame_code(header@),
{
    let len = u64_from_le_bytes(slice_subrange(header, 0, 8));
    let code = u64_from_le_bytes(slice_subrange(header, 8, 16));
    (len, code)
}

/// The header fields of an encoded frame name the code that was written and
/// announce exactly the payload that follows.
pub proof fn lemma_frame_fields(code: u64, payload: Seq<u8>)
    requires
        payload.len() + 16 <= u64::MAX,
    ensures
        spec_frame(code, payload).len() == payload.len() + 16,
        spec_frame_len(spec_frame(code, payload)) == payload.len() + 16,
        spec_frame_code(spec_frame(code, payload)) == code,
        spec_frame_payload(spec_frame(code, payload)) == payload,
{
    lemma_auto_spec_u64_to_from_le_bytes();
    let frame = spec_frame(code, payload);
    assert(frame.subrange(0, 8) =~= spec_u64_to_le_bytes((payload.len() + 16) as u64));
    assert(frame.subrange(8, 16) =~= spec_u64_to_le_bytes(code));
    assert(frame.skip(16) =~= payload);
}

/// Round trip: writing a frame for (code, payload) and reading it back
/// yields the same code and the same payload.
pub proof fn lemma_frame_round_trip(code: u64, payload: Seq<u8>)
    requires
        payload.len() + 16 <= u64::MAX,
    ensures
        spec_frame_code(spec_frame(code, payload)) == code,
        spec_frame_payload(spec_frame(code, payload)) == payload,
        spec_frame_len(spec_frame(code, payload)) - 16 == payload.len(),
{
    lemma_frame_fields(code, payload);
}

} // verus!
