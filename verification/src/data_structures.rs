//! Common value types carried through the channels.

use vstd::prelude::*;

verus! {

/// Custom application data attached to a resource. The core never reads
/// it; it only travels with the owning handle.
#[derive(Debug, Clone)]
pub struct AppData;

impl Default for AppData {
    /// Empty application data.
    fn default() -> (r: Self)
        ensures
            r == AppData,
    {
        AppData
    }
}

/// A message exchanged over a direct transport. The four variants mirror
/// the four SCTP payload protocol identifiers used on DataChannels.
#[derive(Debug, Clone, PartialEq, Eq)]
pub enum WebRtcMessage {
    /// UTF-8 text, carried as its raw bytes.
    String(Vec<u8>),
    /// Opaque binary payload.
    Binary(Vec<u8>),
    /// An empty text message, carried on the wire as a single space.
    EmptyString,
    /// An empty binary message, carried on the wire as a single zero byte.
    EmptyBinary,
}

/// Payload protocol identifier announcing UTF-8 text.
pub const PPID_STRING: u32 = 51;

/// Payload protocol identifier announcing binary data.
pub const PPID_BINARY: u32 = 53;

/// Payload protocol identifier announcing an empty text message.
pub const PPID_EMPTY_STRING: u32 = 56;

/// Payload protocol identifier announcing an empty binary message.
pub const PPID_EMPTY_BINARY: u32 = 57;

/// The message a received payload protocol identifier and payload decode
/// to, if the identifier is known.
pub open spec fn message_of(ppid: u32, payload: Vec<u8>) -> Option<WebRtcMessage> {
    if ppid == PPID_STRING {
        Some(WebRtcMessage::String(payload))
    } else if ppid == PPID_BINARY {
        Some(WebRtcMessage::Binary(payload))
    } else if ppid == PPID_EMPTY_STRING {
        Some(WebRtcMessage::EmptyString)
    } else if ppid == PPID_EMPTY_BINARY {
        Some(WebRtcMessage::EmptyBinary)
    } else {
        None
    }
}

/// The payload protocol identifier a message is sent under.
pub open spec fn message_ppid(m: WebRtcMessage) -> u32 {
    match m {
        WebRtcMessage::String(_) => PPID_STRING,
        WebRtcMessage::Binary(_) => PPID_BINARY,
        WebRtcMessage::EmptyString => PPID_EMPTY_STRING,
        WebRtcMessage::EmptyBinary => PPID_EMPTY_BINARY,
    }
}

/// The payload bytes a message is sent with. Empty messages are padded
/// with one placeholder byte because an empty frame cannot travel.
pub open spec fn message_payload(m: WebRtcMessage) -> Seq<u8> {
    match m {
        WebRtcMessage::String(b) => b@,
        WebRtcMessage::Binary(b) => b@,
        WebRtcMessage::EmptyString => seq![32u8],
        WebRtcMessage::EmptyBinary => seq![0u8],
    }
}

impl WebRtcMessage {
    /// Decodes a received payload protocol identifier and payload.
    /// Returns `None` exactly on an unknown identifier.
    pub fn new(ppid: u32, payload: Vec<u8>) -> (r: Option<WebRtcMessage>)
        ensures
            r == message_of(ppid, payload),
    {
        if ppid == PPID_STRING {
            Some(WebRtcMessage::String(payload))
        } else if ppid == PPID_BINARY {
            Some(WebRtcMessage::Binary(payload))
        } else if ppid == PPID_EMPTY_STRING {
            Some(WebRtcMessage::EmptyString)
        } else if ppid == PPID_EMPTY_BINARY {
            Some(WebRtcMessage::EmptyBinary)
        } else {
            None
        }
    }

    /// The payload protocol identifier and payload this message is sent
    /// with. Decoding the pair restores the message unchanged.
    pub fn into_ppid_and_payload(self) -> (r: (u32, Vec<u8>))
        ensures
            r.0 == message_ppid(self),
            r.1@ == message_payload(self),
            message_of(r.0, r.1) == Some(self),
    {
        match self {
            WebRtcMessage::String(b) => (PPID_STRING, b),
            WebRtcMessage::Binary(b) => (PPID_BINARY, b),
            WebRtcMessage::EmptyString => {
                let mut v: Vec<u8> = Vec::new();
                v.push(32u8);
                proof {
                    assert(v@ =~= seq![32u8]);
                }
                (PPID_EMPTY_STRING, v)
            },
            WebRtcMessage::EmptyBinary => {
                let mut v: Vec<u8> = Vec::new();
                v.push(0u8);
                proof {
                    assert(v@ =~= seq![0u8]);
                }
                (PPID_EMPTY_BINARY, v)
            },
        }
    }
}

} // verus!
