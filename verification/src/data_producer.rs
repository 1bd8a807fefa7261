//! A data producer: an endpoint injecting data messages into a router,
//! over SCTP or directly from the application.

use vstd::prelude::*;
use crate::data_structures::{AppData, WebRtcMessage, message_ppid, message_payload};
use crate::frame::PAYLOAD_MAX_LEN;
use crate::ids::DataProducerId;
use crate::messages::{
    RequestKind,
    DataProducerInternal,
    data_producer_internal_json,
    request_chars,
    method_chars,
    build_request,
    notification_chars,
    build_notification,
    ppid_data_chars,
    ppid_data_json,
};
use crate::sctp_parameters::SctpStreamParameters;
use crate::worker::{NotificationError, RequestError};

verus! {

/// Data producer options.
#[derive(Debug, Clone)]
pub struct DataProducerOptions {
    /// Pre-assigned producer id; only router-to-router piping sets it.
    pub id: Option<DataProducerId>,
    /// SCTP parameters defining how the endpoint sends its data.
    /// Required over SCTP, absent on a direct transport.
    pub sctp_stream_parameters: Option<SctpStreamParameters>,
    /// A label distinguishing this DataChannel from others.
    pub label: String,
    /// Name of the sub-protocol used by this DataChannel.
    pub protocol: String,
    /// Custom application data.
    pub app_data: AppData,
}

impl DataProducerOptions {
    /// Options for piping an existing data producer into another
    /// router: the id and stream parameters are carried over.
    pub fn new_pipe_transport(
        data_producer_id: DataProducerId,
        sctp_stream_parameters: SctpStreamParameters,
    ) -> (r: Self)
        ensures
            r.id == Some(data_producer_id),
            r.sctp_stream_parameters == Some(sctp_stream_parameters),
            r.label@.len() == 0,
            r.protocol@.len() == 0,
    {
        DataProducerOptions {
            id: Some(data_producer_id),
            sctp_stream_parameters: Some(sctp_stream_parameters),
            label: String::new(),
            protocol: String::new(),
            app_data: AppData::default(),
        }
    }

    /// Options for an SCTP data producer.
    pub fn new_sctp(sctp_stream_parameters: SctpStreamParameters) -> (r: Self)
        ensures
            r.id is None,
            r.sctp_stream_parameters == Some(sctp_stream_parameters),
            r.label@.len() == 0,
            r.protocol@.len() == 0,
    {
        DataProducerOptions {
            id: None,
            sctp_stream_parameters: Some(sctp_stream_parameters),
            label: String::new(),
            protocol: String::new(),
            app_data: AppData::default(),
        }
    }

    /// Options for a data producer on a direct transport.
    pub fn new_direct() -> (r: Self)
        ensures
            r.id is None,
            r.sctp_stream_parameters is None,
            r.label@.len() == 0,
            r.protocol@.len() == 0,
    {
        DataProducerOptions {
            id: None,
            sctp_stream_parameters: None,
            label: String::new(),
            protocol: String::new(),
            app_data: AppData::default(),
        }
    }
}

/// Data producer type.
#[derive(Debug, Copy, Clone, Eq, PartialEq, Ord, PartialOrd, Hash, Structural)]
pub enum DataProducerType {
    /// The endpoint sends messages using the SCTP protocol.
    Sctp,
    /// Messages are sent directly from the application over a direct
    /// transport.
    Direct,
}

/// Snapshot of a data producer as reported by a dump request.
#[derive(Debug, Clone, PartialEq)]
pub struct DataProducerDump {
    /// The producer.
    pub id: DataProducerId,
    /// Its type.
    pub data_type: DataProducerType,
    /// Its label.
    pub label: String,
    /// Its sub-protocol.
    pub protocol: String,
    /// Its SCTP stream parameters, for an SCTP producer.
    pub sctp_stream_parameters: Option<SctpStreamParameters>,
}

/// RTC statistics of the data producer.
#[derive(Debug, Clone, PartialEq)]
pub struct DataProducerStat {
    /// When the sample was taken.
    pub timestamp: u64,
    /// The producer's label.
    pub label: String,
    /// The producer's sub-protocol.
    pub protocol: String,
    /// Messages received from the endpoint.
    pub messages_received: usize,
    /// Bytes received from the endpoint.
    pub bytes_received: usize,
}

/// A live data producer: the resource node in the session graph along
/// with the identity chain that addresses it in requests.
#[derive(Debug, Clone)]
pub struct DataProducer {
    /// Index of the producer's node in the session graph.
    pub node: usize,
    /// Identity chain addressing the producer.
    pub internal: DataProducerInternal,
    /// The producer's type.
    pub data_type: DataProducerType,
    /// SCTP stream parameters, for an SCTP producer.
    pub sctp_stream_parameters: Option<SctpStreamParameters>,
    /// The producer's label.
    pub label: String,
    /// The producer's sub-protocol.
    pub protocol: String,
    /// Custom application data.
    pub app_data: AppData,
}

impl DataProducer {
    /// The producer's identifier.
    pub fn id(&self) -> (r: DataProducerId)
        ensures
            r == self.internal.data_producer_id,
    {
        self.internal.data_producer_id
    }

    /// Whether the producer is closed, read from the session graph the
    /// handle's node lives in.
    pub fn closed(&self, graph: &crate::graph::Graph) -> (r: bool)
        requires
            self.node < graph.nodes@.len(),
        ensures
            r == graph.nodes@[self.node as int].closed,
    {
        graph.is_closed(self.node)
    }

    /// The envelope of a dump request for this producer. On a closed
    /// producer the operation fails fast as already-closed — the remote
    /// object is gone, so nothing is built and nothing would be sent —
    /// with the error a closed channel gives; on an open producer the
    /// envelope is owed.
    pub fn dump_request(&self, graph: &crate::graph::Graph, correlation_id: u64) -> (r: Result<
        String,
        RequestError,
    >)
        requires
            self.node < graph.nodes@.len(),
        ensures
            graph.nodes@[self.node as int].closed <==> r == Err::<String, _>(
                RequestError::ChannelClosed,
            ),
            !graph.nodes@[self.node as int].closed ==> (r matches Ok(s) && s@ == request_chars(
                correlation_id,
                method_chars(RequestKind::DataProducerDump),
                crate::messages::data_producer_internal_chars(self.internal),
                None,
            )),
    {
        if graph.is_closed(self.node) {
            return Err(RequestError::ChannelClosed);
        }
        let internal = data_producer_internal_json(&self.internal);
        Ok(build_request(correlation_id, RequestKind::DataProducerDump, &internal, None))
    }

    /// The envelope of a statistics request for this producer; fails
    /// fast as already-closed on a closed producer, owed otherwise.
    pub fn get_stats_request(&self, graph: &crate::graph::Graph, correlation_id: u64) -> (r:
        Result<String, RequestError>)
        requires
            self.node < graph.nodes@.len(),
        ensures
            graph.nodes@[self.node as int].closed <==> r == Err::<String, _>(
                RequestError::ChannelClosed,
            ),
            !graph.nodes@[self.node as int].closed ==> (r matches Ok(s) && s@ == request_chars(
                correlation_id,
                method_chars(RequestKind::DataProducerGetStats),
                crate::messages::data_producer_internal_chars(self.internal),
                None,
            )),
    {
        if graph.is_closed(self.node) {
            return Err(RequestError::ChannelClosed);
        }
        let internal = data_producer_internal_json(&self.internal);
        Ok(build_request(correlation_id, RequestKind::DataProducerGetStats, &internal, None))
    }

    /// The envelope of the best-effort close request sent upstream when
    /// the producer is closed locally. Deliberately unconditional: this
    /// message belongs to the close path itself and is built after the
    /// closed flag already flipped.
    pub fn close_request(&self, correlation_id: u64) -> (r: String)
        ensures
            r@ == request_chars(
                correlation_id,
                method_chars(RequestKind::DataProducerClose),
                crate::messages::data_producer_internal_chars(self.internal),
                None,
            ),
    {
        let internal = data_producer_internal_json(&self.internal);
        build_request(correlation_id, RequestKind::DataProducerClose, &internal, None)
    }

    /// The two payload-channel frames of a direct send: the
    /// notification header announcing the payload protocol identifier,
    /// and the raw payload. A closed producer fails fast as
    /// already-closed; an oversized payload is rejected locally;
    /// otherwise the pair is owed — nothing else can fail here.
    pub fn send_notification(
        &self,
        graph: &crate::graph::Graph,
        message: WebRtcMessage,
    ) -> (r: Result<(String, Vec<u8>), NotificationError>)
        requires
            self.node < graph.nodes@.len(),
        ensures
            graph.nodes@[self.node as int].closed ==> r == Err::<(String, Vec<u8>), _>(
                NotificationError::ChannelClosed,
            ),
            !graph.nodes@[self.node as int].closed ==> {
                let pay_long = message_payload(message).len() > PAYLOAD_MAX_LEN;
                &&& pay_long <==> r == Err::<(String, Vec<u8>), _>(
                    NotificationError::PayloadTooLong,
                )
                &&& !pay_long ==> r is Ok
                &&& r matches Ok(p) ==> {
                    &&& p.0@ == notification_chars(
                        "dataProducer.send"@,
                        crate::messages::data_producer_internal_chars(self.internal),
                        Some(ppid_data_chars(message_ppid(message))),
                    )
                    &&& p.1@ == message_payload(message)
                }
            },
    {
        if graph.is_closed(self.node) {
            return Err(NotificationError::ChannelClosed);
        }
        let (ppid, payload) = message.into_ppid_and_payload();
        if payload.len() > PAYLOAD_MAX_LEN {
            return Err(NotificationError::PayloadTooLong);
        }
        let internal = data_producer_internal_json(&self.internal);
        let data = ppid_data_json(ppid);
        let header = build_notification("dataProducer.send", &internal, Some(&data));
        proof {
            reveal_strlit("dataProducer.send");
        }
        Ok((header, payload))
    }
}

} // verus!
