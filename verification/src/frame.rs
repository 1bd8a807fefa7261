//! Frame codec for the two byte streams to the worker subprocess.
//!
//! Each message travels as one self-delimited frame: a four-byte
//! little-endian length followed by that many payload bytes. Decoding is
//! restartable: a partial frame leaves the buffer untouched until more
//! bytes arrive, and a malformed payload can never desynchronise the
//! stream because the length prefix alone delimits it. Inbound frames
//! are classified by their first byte: control JSON, one of the four
//! diagnostic text classes, or unparseable bytes that are logged and
//! never fatal.

use vstd::prelude::*;
use vstd::bytes::{spec_u32_to_le_bytes, spec_u32_from_le_bytes, u32_to_le_bytes, u32_from_le_bytes};
use vstd::slice::slice_subrange;

verus! {

/// Largest payload an outgoing control frame may carry.
pub const MESSAGE_MAX_LEN: usize = 4194304;

/// Largest binary payload an outgoing payload frame may carry.
pub const PAYLOAD_MAX_LEN: usize = 4194304;

/// The frame encoding of a payload: its length over four little-endian
/// bytes, then the payload itself.
pub open spec fn frame_bytes(payload: Seq<u8>) -> Seq<u8> {
    spec_u32_to_le_bytes(payload.len() as u32) + payload
}

/// Encodes one frame.
pub fn encode_frame(payload: Vec<u8>) -> (r: Vec<u8>)
    requires
        payload@.len() <= u32::MAX,
    ensures
        r@ == frame_bytes(payload@),
{
    let mut out = u32_to_le_bytes(payload.len() as u32);
    let mut body = payload;
    out.append(&mut body);
    out
}

/// What one decode step found.
#[derive(Debug, Copy, Clone, PartialEq, Eq, Structural)]
pub enum FrameDecode {
    /// The buffer holds no complete frame from `from` on; read more.
    Incomplete,
    /// One complete frame: its payload spans `start..end`, and the next
    /// decode step continues at `end`.
    Frame { start: usize, end: usize },
}

/// The length announced by the prefix at `from`, if the buffer holds a
/// whole prefix.
pub open spec fn announced_len(buf: Seq<u8>, from: int) -> int {
    spec_u32_from_le_bytes(buf.subrange(from, from + 4)) as int
}

/// Decodes the next frame of `buf` starting at `from`. Never consumes a
/// partial frame: either the whole frame is there or nothing happens.
pub fn decode_frame(buf: &[u8], from: usize) -> (r: FrameDecode)
    requires
        from <= buf@.len(),
        buf@.len() <= usize::MAX - 8,
    ensures
        ({
            let have_prefix = buf@.len() - from >= 4;
            let plen = announced_len(buf@, from as int);
            if have_prefix && buf@.len() - (from + 4) >= plen {
                r == (FrameDecode::Frame {
                    start: (from + 4) as usize,
                    end: (from + 4 + plen) as usize,
                })
            } else {
                r == FrameDecode::Incomplete
            }
        }),
{
    if buf.len() - from < 4 {
        return FrameDecode::Incomplete;
    }
    let prefix = slice_subrange(buf, from, from + 4);
    let plen = u32_from_le_bytes(prefix) as usize;
    if buf.len() - (from + 4) < plen {
        return FrameDecode::Incomplete;
    }
    FrameDecode::Frame { start: from + 4, end: from + 4 + plen }
}

/// Decoding right after encoding recovers the payload: in a buffer that
/// starts with the frame of `payload`, the decoder finds exactly the
/// payload's bytes and resumes where the remainder begins.
pub proof fn lemma_frame_round_trip(payload: Seq<u8>, rest: Seq<u8>)
    requires
        payload.len() <= u32::MAX,
    ensures
        announced_len(frame_bytes(payload) + rest, 0) == payload.len(),
        (frame_bytes(payload) + rest).subrange(4, 4 + payload.len() as int) == payload,
{
    vstd::bytes::lemma_auto_spec_u32_to_from_le_bytes();
    let whole = frame_bytes(payload) + rest;
    assert(whole.subrange(0, 4) =~= spec_u32_to_le_bytes(payload.len() as u32));
    assert(whole.subrange(4, 4 + payload.len() as int) =~= payload);
}

/// The class of one inbound frame on the control stream.
#[derive(Debug, Copy, Clone, PartialEq, Eq, Structural)]
pub enum FrameClass {
    /// A control message: a response or a notification in JSON.
    ControlJson,
    /// Diagnostic text at debug severity.
    DebugLog,
    /// Diagnostic text at warn severity.
    WarnLog,
    /// Diagnostic text at error severity.
    ErrorLog,
    /// A dump requested from the worker, to be printed verbatim.
    DumpLog,
    /// Anything else: logged as unexpected, never fatal.
    Unexpected,
}

/// How an inbound frame is classified: by its first byte. An opening
/// brace opens control JSON; `D`, `W`, `E` and `X` announce diagnostic
/// text; everything else, the empty frame included, is unexpected.
pub open spec fn classification(frame: Seq<u8>) -> FrameClass {
    if frame.len() == 0 {
        FrameClass::Unexpected
    } else if frame[0] == 123u8 {
        FrameClass::ControlJson
    } else if frame[0] == 68u8 {
        FrameClass::DebugLog
    } else if frame[0] == 87u8 {
        FrameClass::WarnLog
    } else if frame[0] == 69u8 {
        FrameClass::ErrorLog
    } else if frame[0] == 88u8 {
        FrameClass::DumpLog
    } else {
        FrameClass::Unexpected
    }
}

/// Classifies one inbound control-stream frame.
pub fn classify_frame(frame: &[u8]) -> (r: FrameClass)
    ensures
        r == classification(frame@),
{
    if frame.len() == 0 {
        return FrameClass::Unexpected;
    }
    let b = frame[0];
    if b == 123u8 {
        FrameClass::ControlJson
    } else if b == 68u8 {
        FrameClass::DebugLog
    } else if b == 87u8 {
        FrameClass::WarnLog
    } else if b == 69u8 {
        FrameClass::ErrorLog
    } else if b == 88u8 {
        FrameClass::DumpLog
    } else {
        FrameClass::Unexpected
    }
}

} // verus!
