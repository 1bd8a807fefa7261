//! A data consumer: an endpoint receiving data messages from a router,
//! over SCTP or directly in the application.

use vstd::prelude::*;
use vstd::string::StringExecFns;
use crate::data_structures::{AppData, WebRtcMessage, message_ppid, message_payload};
use crate::frame::PAYLOAD_MAX_LEN;
use crate::ids::DataProducerId;
use crate::messages::{
    RequestKind,
    DataConsumerInternal,
    data_consumer_internal_json,
    data_consumer_internal_chars,
    request_chars,
    method_chars,
    build_request,
    ppid_data_chars,
    ppid_data_json,
    threshold_data_chars,
    threshold_data_json,
};
use crate::sctp_parameters::SctpStreamParameters;
use crate::worker::RequestError;

verus! {

/// Data consumer options.
#[derive(Debug, Clone)]
pub struct DataConsumerOptions {
    /// The data producer to consume.
    pub data_producer_id: DataProducerId,
    /// Only over SCTP: whether messages must arrive in order. When
    /// unset the value of the producer is inherited.
    pub ordered: Option<bool>,
    /// Only over SCTP, unordered: time in milliseconds after which an
    /// SCTP packet stops being retransmitted. When unset the value of
    /// the producer is inherited.
    pub max_packet_life_time: Option<u16>,
    /// Only over SCTP, unordered: maximum number of retransmissions.
    /// When unset the value of the producer is inherited.
    pub max_retransmits: Option<u16>,
    /// Custom application data.
    pub app_data: AppData,
}

impl DataConsumerOptions {
    /// Inherits every delivery parameter of the producer.
    pub fn new_sctp(data_producer_id: DataProducerId) -> (r: Self)
        ensures
            r.data_producer_id == data_producer_id,
            r.ordered is None,
            r.max_packet_life_time is None,
            r.max_retransmits is None,
    {
        DataConsumerOptions {
            data_producer_id,
            ordered: None,
            max_packet_life_time: None,
            max_retransmits: None,
            app_data: AppData::default(),
        }
    }

    /// For a direct transport: messages arrive in order.
    pub fn new_direct(data_producer_id: DataProducerId) -> (r: Self)
        ensures
            r.data_producer_id == data_producer_id,
            r.ordered == Some(true),
            r.max_packet_life_time is None,
            r.max_retransmits is None,
    {
        DataConsumerOptions {
            data_producer_id,
            ordered: Some(true),
            max_packet_life_time: None,
            max_retransmits: None,
            app_data: AppData::default(),
        }
    }

    /// Messages are delivered reliably in order.
    pub fn new_sctp_ordered(data_producer_id: DataProducerId) -> (r: Self)
        ensures
            r.data_producer_id == data_producer_id,
            r.ordered is None,
            r.max_packet_life_time is None,
            r.max_retransmits is None,
    {
        DataConsumerOptions {
            data_producer_id,
            ordered: None,
            max_packet_life_time: None,
            max_retransmits: None,
            app_data: AppData::default(),
        }
    }

    /// Unreliable delivery with a bounded packet lifetime in
    /// milliseconds.
    pub fn new_sctp_unordered_with_life_time(
        data_producer_id: DataProducerId,
        max_packet_life_time: u16,
    ) -> (r: Self)
        ensures
            r.data_producer_id == data_producer_id,
            r.ordered is None,
            r.max_packet_life_time == Some(max_packet_life_time),
            r.max_retransmits is None,
    {
        DataConsumerOptions {
            data_producer_id,
            ordered: None,
            max_packet_life_time: Some(max_packet_life_time),
            max_retransmits: None,
            app_data: AppData::default(),
        }
    }

    /// Unreliable delivery with a bounded number of retransmissions.
    pub fn new_sctp_unordered_with_retransmits(
        data_producer_id: DataProducerId,
        max_retransmits: u16,
    ) -> (r: Self)
        ensures
            r.data_producer_id == data_producer_id,
            r.ordered is None,
            r.max_packet_life_time is None,
            r.max_retransmits == Some(max_retransmits),
    {
        DataConsumerOptions {
            data_producer_id,
            ordered: None,
            max_packet_life_time: None,
            max_retransmits: Some(max_retransmits),
            app_data: AppData::default(),
        }
    }
}

/// Snapshot of a data consumer as reported by a dump request.
#[derive(Debug, Clone, PartialEq)]
pub struct DataConsumerDump {
    /// The consumer.
    pub id: crate::ids::DataConsumerId,
    /// The producer it consumes.
    pub data_producer_id: DataProducerId,
    /// Its type.
    pub data_type: DataConsumerType,
    /// Its label.
    pub label: String,
    /// Its sub-protocol.
    pub protocol: String,
    /// Its SCTP stream parameters, for an SCTP consumer.
    pub sctp_stream_parameters: Option<SctpStreamParameters>,
    /// Threshold below which the buffered-amount-low event fires.
    pub buffered_amount_low_threshold: u32,
}

/// RTC statistics of the data consumer.
#[derive(Debug, Clone, PartialEq)]
pub struct DataConsumerStat {
    /// When the sample was taken.
    pub timestamp: u64,
    /// The consumer's label.
    pub label: String,
    /// The consumer's sub-protocol.
    pub protocol: String,
    /// Messages sent to the endpoint.
    pub messages_sent: usize,
    /// Bytes sent to the endpoint.
    pub bytes_sent: usize,
    /// Bytes currently buffered in the SCTP association.
    pub buffered_amount: u32,
}

/// Data consumer type.
#[derive(Debug, Copy, Clone, Eq, PartialEq, Ord, PartialOrd, Hash, Structural)]
pub enum DataConsumerType {
    /// The endpoint receives messages using the SCTP protocol.
    Sctp,
    /// Messages are received directly by the application over a direct
    /// transport.
    Direct,
}

/// A notification the worker pushes under a data consumer's identity.
#[derive(Debug, Copy, Clone, PartialEq, Eq, Structural)]
pub enum DataConsumerNotification {
    /// The bound data producer closed; the consumer must close itself.
    DataProducerClose,
    /// A message could not be sent because the SCTP send buffer was
    /// full.
    SctpSendBufferFull,
    /// The buffered byte count dropped to the configured threshold.
    BufferedAmountLow {
        /// Bytes still buffered.
        buffered_amount: u32,
    },
}

/// What a decoded data-consumer notification means: the event tag names
/// the notification, and the buffered-amount-low event must carry its
/// byte count in range. Anything else fails to parse, is logged by the
/// caller, and is dropped without further effect.
pub open spec fn consumer_notification_of(event: Seq<char>, amount: Option<u64>) -> Option<
    DataConsumerNotification,
> {
    if event == "dataproducerclose"@ {
        Some(DataConsumerNotification::DataProducerClose)
    } else if event == "sctpsendbufferfull"@ {
        Some(DataConsumerNotification::SctpSendBufferFull)
    } else if event == "bufferedamountlow"@ {
        match amount {
            Some(a) => if a <= u32::MAX {
                Some(DataConsumerNotification::BufferedAmountLow { buffered_amount: a as u32 })
            } else {
                None
            },
            None => None,
        }
    } else {
        None
    }
}

/// Decodes the event tag and optional buffered-amount field of a
/// notification addressed to a data consumer.
pub fn interpret_consumer_notification(event: &String, amount: Option<u64>) -> (r: Option<
    DataConsumerNotification,
>)
    ensures
        r == consumer_notification_of(event@, amount),
{
    let dpc = String::from_str("dataproducerclose");
    let full = String::from_str("sctpsendbufferfull");
    let low = String::from_str("bufferedamountlow");
    if event.eq(&dpc) {
        Some(DataConsumerNotification::DataProducerClose)
    } else if event.eq(&full) {
        Some(DataConsumerNotification::SctpSendBufferFull)
    } else if event.eq(&low) {
        match amount {
            Some(a) => {
                if a <= 0xffff_ffff {
                    Some(DataConsumerNotification::BufferedAmountLow { buffered_amount: a as u32 })
                } else {
                    None
                }
            },
            None => None,
        }
    } else {
        None
    }
}

/// What a decoded payload-channel notification for a data consumer
/// means: a direct message with its payload protocol identifier.
pub open spec fn payload_notification_ppid(event: Seq<char>, ppid: Option<u64>) -> Option<u32> {
    if event == "message"@ {
        match ppid {
            Some(p) => if p <= u32::MAX {
                Some(p as u32)
            } else {
                None
            },
            None => None,
        }
    } else {
        None
    }
}

/// Decodes the event tag and payload protocol identifier of a
/// payload-channel notification addressed to a data consumer.
pub fn interpret_payload_notification(event: &String, ppid: Option<u64>) -> (r: Option<u32>)
    ensures
        r == payload_notification_ppid(event@, ppid),
{
    let msg = String::from_str("message");
    if event.eq(&msg) {
        match ppid {
            Some(p) => {
                if p <= 0xffff_ffff {
                    Some(p as u32)
                } else {
                    None
                }
            },
            None => None,
        }
    } else {
        None
    }
}

/// A live data consumer: the resource node in the session graph along
/// with the identity chain that addresses it in requests.
#[derive(Debug, Clone)]
pub struct DataConsumer {
    /// Index of the consumer's node in the session graph.
    pub node: usize,
    /// Identity chain addressing the consumer.
    pub internal: DataConsumerInternal,
    /// The consumer's type.
    pub data_type: DataConsumerType,
    /// SCTP stream parameters, for an SCTP consumer.
    pub sctp_stream_parameters: Option<SctpStreamParameters>,
    /// The consumer's label.
    pub label: String,
    /// The consumer's sub-protocol.
    pub protocol: String,
    /// Custom application data.
    pub app_data: AppData,
}

impl DataConsumer {
    /// The consumer's identifier.
    pub fn id(&self) -> (r: crate::ids::DataConsumerId)
        ensures
            r == self.internal.data_consumer_id,
    {
        self.internal.data_consumer_id
    }

    /// The identifier of the producer this consumer is bound to.
    pub fn data_producer_id(&self) -> (r: DataProducerId)
        ensures
            r == self.internal.data_producer_id,
    {
        self.internal.data_producer_id
    }

    /// Whether the consumer is closed, read from the session graph the
    /// handle's node lives in.
    pub fn closed(&self, graph: &crate::graph::Graph) -> (r: bool)
        requires
            self.node < graph.nodes@.len(),
        ensures
            r == graph.nodes@[self.node as int].closed,
    {
        graph.is_closed(self.node)
    }

    /// The envelope of a dump request for this consumer. On a closed
    /// consumer the operation fails fast as already-closed — the remote
    /// object is gone, so nothing is built and nothing would be sent —
    /// with the error a closed channel gives; on an open consumer the
    /// envelope is owed.
    pub fn dump_request(&self, graph: &crate::graph::Graph, correlation_id: u64) -> (r: Result<
        String,
        RequestError,
    >)
        requires
            self.node < graph.nodes@.len(),
        ensures
            graph.nodes@[self.node as int].closed <==> r == Err::<String, _>(
                RequestError::ChannelClosed,
            ),
            !graph.nodes@[self.node as int].closed ==> (r matches Ok(s) && s@ == request_chars(
                correlation_id,
                method_chars(RequestKind::DataConsumerDump),
                data_consumer_internal_chars(self.internal),
                None,
            )),
    {
        if graph.is_closed(self.node) {
            return Err(RequestError::ChannelClosed);
        }
        let internal = data_consumer_internal_json(&self.internal);
        Ok(build_request(correlation_id, RequestKind::DataConsumerDump, &internal, None))
    }

    /// The envelope of a statistics request for this consumer; fails
    /// fast as already-closed on a closed consumer, owed otherwise.
    pub fn get_stats_request(&self, graph: &crate::graph::Graph, correlation_id: u64) -> (r:
        Result<String, RequestError>)
        requires
            self.node < graph.nodes@.len(),
        ensures
            graph.nodes@[self.node as int].closed <==> r == Err::<String, _>(
                RequestError::ChannelClosed,
            ),
            !graph.nodes@[self.node as int].closed ==> (r matches Ok(s) && s@ == request_chars(
                correlation_id,
                method_chars(RequestKind::DataConsumerGetStats),
                data_consumer_internal_chars(self.internal),
                None,
            )),
    {
        if graph.is_closed(self.node) {
            return Err(RequestError::ChannelClosed);
        }
        let internal = data_consumer_internal_json(&self.internal);
        Ok(build_request(correlation_id, RequestKind::DataConsumerGetStats, &internal, None))
    }

    /// The envelope of a buffered-amount request for this consumer;
    /// fails fast as already-closed on a closed consumer, owed
    /// otherwise.
    pub fn get_buffered_amount_request(
        &self,
        graph: &crate::graph::Graph,
        correlation_id: u64,
    ) -> (r: Result<String, RequestError>)
        requires
            self.node < graph.nodes@.len(),
        ensures
            graph.nodes@[self.node as int].closed <==> r == Err::<String, _>(
                RequestError::ChannelClosed,
            ),
            !graph.nodes@[self.node as int].closed ==> (r matches Ok(s) && s@ == request_chars(
                correlation_id,
                method_chars(RequestKind::DataConsumerGetBufferedAmount),
                data_consumer_internal_chars(self.internal),
                None,
            )),
    {
        if graph.is_closed(self.node) {
            return Err(RequestError::ChannelClosed);
        }
        let internal = data_consumer_internal_json(&self.internal);
        Ok(
            build_request(
                correlation_id,
                RequestKind::DataConsumerGetBufferedAmount,
                &internal,
                None,
            ),
        )
    }

    /// The envelope of a request setting the threshold below which the
    /// buffered-amount-low event fires; fails fast as already-closed on
    /// a closed consumer, owed otherwise.
    pub fn set_buffered_amount_low_threshold_request(
        &self,
        graph: &crate::graph::Graph,
        correlation_id: u64,
        threshold: u32,
    ) -> (r: Result<String, RequestError>)
        requires
            self.node < graph.nodes@.len(),
        ensures
            graph.nodes@[self.node as int].closed <==> r == Err::<String, _>(
                RequestError::ChannelClosed,
            ),
            !graph.nodes@[self.node as int].closed ==> (r matches Ok(s) && s@ == request_chars(
                correlation_id,
                method_chars(RequestKind::DataConsumerSetBufferedAmountLowThreshold),
                data_consumer_internal_chars(self.internal),
                Some(threshold_data_chars(threshold)),
            )),
    {
        if graph.is_closed(self.node) {
            return Err(RequestError::ChannelClosed);
        }
        let internal = data_consumer_internal_json(&self.internal);
        let data = threshold_data_json(threshold);
        Ok(
            build_request(
                correlation_id,
                RequestKind::DataConsumerSetBufferedAmountLowThreshold,
                &internal,
                Some(&data),
            ),
        )
    }

    /// The envelope of the best-effort close request sent upstream when
    /// the consumer is closed locally. Deliberately unconditional: this
    /// message belongs to the close path itself and is built after the
    /// closed flag already flipped.
    pub fn close_request(&self, correlation_id: u64) -> (r: String)
        ensures
            r@ == request_chars(
                correlation_id,
                method_chars(RequestKind::DataConsumerClose),
                data_consumer_internal_chars(self.internal),
                None,
            ),
    {
        let internal = data_consumer_internal_json(&self.internal);
        build_request(correlation_id, RequestKind::DataConsumerClose, &internal, None)
    }

    /// The two payload-channel frames of a direct send: the request
    /// envelope announcing the payload protocol identifier, and the raw
    /// payload. A closed consumer fails fast as already-closed; an
    /// oversized payload is rejected locally; otherwise the pair is
    /// owed — nothing else can fail here.
    pub fn send_request(
        &self,
        graph: &crate::graph::Graph,
        correlation_id: u64,
        message: WebRtcMessage,
    ) -> (r: Result<(String, Vec<u8>), RequestError>)
        requires
            self.node < graph.nodes@.len(),
        ensures
            graph.nodes@[self.node as int].closed ==> r == Err::<(String, Vec<u8>), _>(
                RequestError::ChannelClosed,
            ),
            !graph.nodes@[self.node as int].closed ==> {
                let pay_long = message_payload(message).len() > PAYLOAD_MAX_LEN;
                &&& pay_long <==> r == Err::<(String, Vec<u8>), _>(RequestError::PayloadTooLong)
                &&& !pay_long ==> r is Ok
                &&& r matches Ok(p) ==> {
                    &&& p.0@ == request_chars(
                        correlation_id,
                        method_chars(RequestKind::DataConsumerSend),
                        data_consumer_internal_chars(self.internal),
                        Some(ppid_data_chars(message_ppid(message))),
                    )
                    &&& p.1@ == message_payload(message)
                }
            },
    {
        if graph.is_closed(self.node) {
            return Err(RequestError::ChannelClosed);
        }
        let (ppid, payload) = message.into_ppid_and_payload();
        if payload.len() > PAYLOAD_MAX_LEN {
            return Err(RequestError::PayloadTooLong);
        }
        let internal = data_consumer_internal_json(&self.internal);
        let data = ppid_data_json(ppid);
        let header = build_request(
            correlation_id,
            RequestKind::DataConsumerSend,
            &internal,
            Some(&data),
        );
        Ok((header, payload))
    }
}

/// What a buffered-amount response means to its caller, for every
/// completion path: a rejection carries the worker's reason, a missing
/// body is `NoData`, a body without a usable `bufferedAmount` figure
/// fails to parse, and otherwise the caller receives exactly the
/// decoded figure.
pub fn interpret_buffered_amount_response(
    accepted: bool,
    reason: String,
    has_data: bool,
    buffered_amount: Option<u64>,
) -> (r: Result<u32, RequestError>)
    ensures
        !accepted ==> r == Err::<u32, _>(RequestError::Response { reason }),
        accepted && !has_data ==> r == Err::<u32, _>(RequestError::NoData),
        accepted && has_data && buffered_amount is None ==> (r matches Err(
            RequestError::FailedToParse { error },
        ) && error@ == "bufferedAmount missing or not a number"@),
        buffered_amount matches Some(a) ==> (accepted && has_data ==> if a <= u32::MAX {
            r == Ok::<_, RequestError>(a as u32)
        } else {
            r matches Err(RequestError::FailedToParse { error }) && error@
                == "bufferedAmount out of range"@
        }),
{
    if !accepted {
        return Err(RequestError::Response { reason });
    }
    if !has_data {
        return Err(RequestError::NoData);
    }
    match buffered_amount {
        Some(a) => {
            if a <= 0xffff_ffff {
                Ok(a as u32)
            } else {
                Err(
                    RequestError::FailedToParse {
                        error: String::from_str("bufferedAmount out of range"),
                    },
                )
            }
        },
        None => Err(
            RequestError::FailedToParse {
                error: String::from_str("bufferedAmount missing or not a number"),
            },
        ),
    }
}

} // verus!
