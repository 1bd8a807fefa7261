//! SCTP stream parameters describing how a DataChannel endpoint sends
//! its messages.

use vstd::prelude::*;

verus! {

/// Parameters of one SCTP stream.
#[derive(Debug, Copy, Clone, PartialEq, Eq, Hash, Structural)]
pub struct SctpStreamParameters {
    /// SCTP stream id of the DataChannel.
    pub stream_id: u16,
    /// Whether data messages must arrive in order. When `true` messages
    /// are sent reliably.
    pub ordered: bool,
    /// When `ordered` is `false`: time in milliseconds after which an
    /// SCTP packet stops being retransmitted.
    pub max_packet_life_time: Option<u16>,
    /// When `ordered` is `false`: maximum number of times a packet is
    /// retransmitted.
    pub max_retransmits: Option<u16>,
}

impl SctpStreamParameters {
    /// Reliable, ordered delivery.
    pub fn new_ordered(stream_id: u16) -> (r: Self)
        ensures
            r.stream_id == stream_id,
            r.ordered,
            r.max_packet_life_time is None,
            r.max_retransmits is None,
    {
        SctpStreamParameters {
            stream_id,
            ordered: true,
            max_packet_life_time: None,
            max_retransmits: None,
        }
    }

    /// Unreliable, unordered delivery with a bounded packet lifetime.
    pub fn new_unordered_with_life_time(stream_id: u16, max_packet_life_time: u16) -> (r: Self)
        ensures
            r.stream_id == stream_id,
            !r.ordered,
            r.max_packet_life_time == Some(max_packet_life_time),
            r.max_retransmits is None,
    {
        SctpStreamParameters {
            stream_id,
            ordered: false,
            max_packet_life_time: Some(max_packet_life_time),
            max_retransmits: None,
        }
    }

    /// Unreliable, unordered delivery with a bounded retransmit count.
    pub fn new_unordered_with_retransmits(stream_id: u16, max_retransmits: u16) -> (r: Self)
        ensures
            r.stream_id == stream_id,
            !r.ordered,
            r.max_packet_life_time is None,
            r.max_retransmits == Some(max_retransmits),
    {
        SctpStreamParameters {
            stream_id,
            ordered: false,
            max_packet_life_time: None,
            max_retransmits: Some(max_retransmits),
        }
    }
}

} // verus!
