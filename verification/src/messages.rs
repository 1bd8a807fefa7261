//! Control messages: the request methods the worker understands, the
//! identity chains that address them, and the exact bytes an outgoing
//! request is serialised to.
//!
//! An outgoing request reads `{"id":N,"method":"...","internal":{...}}`
//! with an optional `,"data":...` member spliced in verbatim: the data
//! body is domain payload, opaque to the core, and already serialised by
//! the caller. Identifiers render in hyphenated hexadecimal form, method
//! names come from a fixed table, and the correlation id renders in
//! decimal, so no member of the envelope ever needs escaping.

use vstd::prelude::*;
use vstd::string::StringExecFns;
use crate::ids::{RouterId, TransportId, DataProducerId, DataConsumerId, uuid_chars, format_uuid};
use crate::text::{dec_chars, append_dec};

verus! {

/// Every request method the session sends to the worker.
#[derive(Debug, Copy, Clone, PartialEq, Eq, Structural)]
pub enum RequestKind {
    /// Dump the worker state.
    WorkerDump,
    /// Read resource usage of the worker process.
    WorkerGetResourceUsage,
    /// Update worker settings at runtime.
    WorkerUpdateSettings,
    /// Create a router.
    WorkerCreateRouter,
    /// Close a router.
    RouterClose,
    /// Dump a router.
    RouterDump,
    /// Close a transport.
    TransportClose,
    /// Close a data producer.
    DataProducerClose,
    /// Dump a data producer.
    DataProducerDump,
    /// Read statistics of a data producer.
    DataProducerGetStats,
    /// Close a data consumer.
    DataConsumerClose,
    /// Dump a data consumer.
    DataConsumerDump,
    /// Read statistics of a data consumer.
    DataConsumerGetStats,
    /// Read the buffered byte count of a data consumer.
    DataConsumerGetBufferedAmount,
    /// Set the buffered-amount-low threshold of a data consumer.
    DataConsumerSetBufferedAmountLowThreshold,
    /// Send a direct message through a data consumer.
    DataConsumerSend,
}

/// The wire name of each request method.
pub open spec fn method_chars(k: RequestKind) -> Seq<char> {
    match k {
        RequestKind::WorkerDump => "worker.dump"@,
        RequestKind::WorkerGetResourceUsage => "worker.getResourceUsage"@,
        RequestKind::WorkerUpdateSettings => "worker.updateSettings"@,
        RequestKind::WorkerCreateRouter => "worker.createRouter"@,
        RequestKind::RouterClose => "router.close"@,
        RequestKind::RouterDump => "router.dump"@,
        RequestKind::TransportClose => "transport.close"@,
        RequestKind::DataProducerClose => "dataProducer.close"@,
        RequestKind::DataProducerDump => "dataProducer.dump"@,
        RequestKind::DataProducerGetStats => "dataProducer.getStats"@,
        RequestKind::DataConsumerClose => "dataConsumer.close"@,
        RequestKind::DataConsumerDump => "dataConsumer.dump"@,
        RequestKind::DataConsumerGetStats => "dataConsumer.getStats"@,
        RequestKind::DataConsumerGetBufferedAmount => "dataConsumer.getBufferedAmount"@,
        RequestKind::DataConsumerSetBufferedAmountLowThreshold
            => "dataConsumer.setBufferedAmountLowThreshold"@,
        RequestKind::DataConsumerSend => "dataConsumer.send"@,
    }
}

impl RequestKind {
    /// The wire name of the method.
    pub fn as_method(&self) -> (r: &'static str)
        ensures
            r@ == method_chars(*self),
    {
        match self {
            RequestKind::WorkerDump => "worker.dump",
            RequestKind::WorkerGetResourceUsage => "worker.getResourceUsage",
            RequestKind::WorkerUpdateSettings => "worker.updateSettings",
            RequestKind::WorkerCreateRouter => "worker.createRouter",
            RequestKind::RouterClose => "router.close",
            RequestKind::RouterDump => "router.dump",
            RequestKind::TransportClose => "transport.close",
            RequestKind::DataProducerClose => "dataProducer.close",
            RequestKind::DataProducerDump => "dataProducer.dump",
            RequestKind::DataProducerGetStats => "dataProducer.getStats",
            RequestKind::DataConsumerClose => "dataConsumer.close",
            RequestKind::DataConsumerDump => "dataConsumer.dump",
            RequestKind::DataConsumerGetStats => "dataConsumer.getStats",
            RequestKind::DataConsumerGetBufferedAmount => "dataConsumer.getBufferedAmount",
            RequestKind::DataConsumerSetBufferedAmountLowThreshold
                => "dataConsumer.setBufferedAmountLowThreshold",
            RequestKind::DataConsumerSend => "dataConsumer.send",
        }
    }
}

/// Identity chain addressing a router.
#[derive(Debug, Copy, Clone, PartialEq, Eq, Structural)]
pub struct RouterInternal {
    /// The router.
    pub router_id: RouterId,
}

/// Identity chain addressing a transport.
#[derive(Debug, Copy, Clone, PartialEq, Eq, Structural)]
pub struct TransportInternal {
    /// The router owning the transport.
    pub router_id: RouterId,
    /// The transport.
    pub transport_id: TransportId,
}

/// Identity chain addressing a data producer.
#[derive(Debug, Copy, Clone, PartialEq, Eq, Structural)]
pub struct DataProducerInternal {
    /// The router owning the transport.
    pub router_id: RouterId,
    /// The transport owning the data producer.
    pub transport_id: TransportId,
    /// The data producer.
    pub data_producer_id: DataProducerId,
}

/// Identity chain addressing a data consumer.
#[derive(Debug, Copy, Clone, PartialEq, Eq, Structural)]
pub struct DataConsumerInternal {
    /// The router owning the transport.
    pub router_id: RouterId,
    /// The transport owning the data consumer.
    pub transport_id: TransportId,
    /// The data consumer.
    pub data_consumer_id: DataConsumerId,
    /// The data producer the consumer is bound to.
    pub data_producer_id: DataProducerId,
}

/// One quoted identifier member, `"NAME":"UUID"`.
pub open spec fn id_member_chars(name: Seq<char>, v: u128) -> Seq<char> {
    seq!['"'] + name + seq!['"', ':', '"'] + uuid_chars(v) + seq!['"']
}

/// The JSON object of a router chain.
pub open spec fn router_internal_chars(i: RouterInternal) -> Seq<char> {
    seq!['{'] + id_member_chars("routerId"@, i.router_id.value) + seq!['}']
}

/// The JSON object of a transport chain.
pub open spec fn transport_internal_chars(i: TransportInternal) -> Seq<char> {
    seq!['{'] + id_member_chars("routerId"@, i.router_id.value) + seq![','] + id_member_chars(
        "transportId"@,
        i.transport_id.value,
    ) + seq!['}']
}

/// The JSON object of a data-producer chain.
pub open spec fn data_producer_internal_chars(i: DataProducerInternal) -> Seq<char> {
    seq!['{'] + id_member_chars("routerId"@, i.router_id.value) + seq![','] + id_member_chars(
        "transportId"@,
        i.transport_id.value,
    ) + seq![','] + id_member_chars("dataProducerId"@, i.data_producer_id.value) + seq!['}']
}

/// The JSON object of a data-consumer chain.
pub open spec fn data_consumer_internal_chars(i: DataConsumerInternal) -> Seq<char> {
    seq!['{'] + id_member_chars("routerId"@, i.router_id.value) + seq![','] + id_member_chars(
        "transportId"@,
        i.transport_id.value,
    ) + seq![','] + id_member_chars("dataConsumerId"@, i.data_consumer_id.value) + seq![
        ',',
    ] + id_member_chars("dataProducerId"@, i.data_producer_id.value) + seq!['}']
}

/// Appends `"NAME":"UUID"` for one identifier member.
fn append_id_member(s: &mut String, name: &str, v: u128)
    ensures
        final(s)@ == old(s)@ + id_member_chars(name@, v),
{
    proof {
        reveal_strlit("\"");
        reveal_strlit("\":\"");
    }
    s.append("\"");
    s.append(name);
    s.append("\":\"");
    let u = format_uuid(v);
    s.append(u.as_str());
    s.append("\"");
    proof {
        assert(final(s)@ =~= old(s)@ + id_member_chars(name@, v));
    }
}

/// Serialises a router chain.
pub fn router_internal_json(i: &RouterInternal) -> (r: String)
    ensures
        r@ == router_internal_chars(*i),
{
    proof {
        reveal_strlit("{");
        reveal_strlit("}");
    }
    let mut s = String::from_str("{");
    append_id_member(&mut s, "routerId", i.router_id.value);
    s.append("}");
    proof {
        assert(s@ =~= router_internal_chars(*i));
    }
    s
}

/// Serialises a transport chain.
pub fn transport_internal_json(i: &TransportInternal) -> (r: String)
    ensures
        r@ == transport_internal_chars(*i),
{
    proof {
        reveal_strlit("{");
        reveal_strlit(",");
        reveal_strlit("}");
    }
    let mut s = String::from_str("{");
    append_id_member(&mut s, "routerId", i.router_id.value);
    s.append(",");
    append_id_member(&mut s, "transportId", i.transport_id.value);
    s.append("}");
    proof {
        assert(s@ =~= transport_internal_chars(*i));
    }
    s
}

/// Serialises a data-producer chain.
pub fn data_producer_internal_json(i: &DataProducerInternal) -> (r: String)
    ensures
        r@ == data_producer_internal_chars(*i),
{
    proof {
        reveal_strlit("{");
        reveal_strlit(",");
        reveal_strlit("}");
    }
    let mut s = String::from_str("{");
    append_id_member(&mut s, "routerId", i.router_id.value);
    s.append(",");
    append_id_member(&mut s, "transportId", i.transport_id.value);
    s.append(",");
    append_id_member(&mut s, "dataProducerId", i.data_producer_id.value);
    s.append("}");
    proof {
        assert(s@ =~= data_producer_internal_chars(*i));
    }
    s
}

/// Serialises a data-consumer chain.
pub fn data_consumer_internal_json(i: &DataConsumerInternal) -> (r: String)
    ensures
        r@ == data_consumer_internal_chars(*i),
{
    proof {
        reveal_strlit("{");
        reveal_strlit(",");
        reveal_strlit("}");
    }
    let mut s = String::from_str("{");
    append_id_member(&mut s, "routerId", i.router_id.value);
    s.append(",");
    append_id_member(&mut s, "transportId", i.transport_id.value);
    s.append(",");
    append_id_member(&mut s, "dataConsumerId", i.data_consumer_id.value);
    s.append(",");
    append_id_member(&mut s, "dataProducerId", i.data_producer_id.value);
    s.append("}");
    proof {
        assert(s@ =~= data_consumer_internal_chars(*i));
    }
    s
}

/// The full request envelope: correlation id, method name, identity
/// chain, and the optional data body spliced in verbatim.
pub open spec fn request_chars(
    id: u64,
    method: Seq<char>,
    internal: Seq<char>,
    data: Option<Seq<char>>,
) -> Seq<char> {
    "{\"id\":"@ + dec_chars(id as nat) + ",\"method\":\""@ + method + "\",\"internal\":"@
        + internal + (match data {
        Some(d) => ",\"data\":"@ + d,
        None => Seq::empty(),
    }) + seq!['}']
}

/// Serialises one request envelope.
pub fn build_request(id: u64, kind: RequestKind, internal: &String, data: Option<&String>) -> (r:
    String)
    ensures
        r@ == request_chars(id, method_chars(kind), internal@, match data {
            Some(d) => Some(d@),
            None => None,
        }),
{
    proof {
        reveal_strlit("}");
    }
    let mut s = String::from_str("{\"id\":");
    append_dec(&mut s, id);
    s.append(",\"method\":\"");
    s.append(kind.as_method());
    s.append("\",\"internal\":");
    s.append(internal.as_str());
    match data {
        Some(d) => {
            s.append(",\"data\":");
            s.append(d.as_str());
        },
        None => {},
    }
    s.append("}");
    proof {
        assert(s@ =~= request_chars(id, method_chars(kind), internal@, match data {
            Some(d) => Some(d@),
            None => None::<Seq<char>>,
        }));
    }
    s
}

/// A worker-level request envelope: correlation id and method, with no
/// identity chain — the worker itself is the addressee — and the
/// optional data body spliced in verbatim.
pub open spec fn plain_request_chars(id: u64, method: Seq<char>, data: Option<Seq<char>>) -> Seq<
    char,
> {
    "{\"id\":"@ + dec_chars(id as nat) + ",\"method\":\""@ + method + seq!['"'] + (match data {
        Some(d) => ",\"data\":"@ + d,
        None => Seq::empty(),
    }) + seq!['}']
}

/// Serialises one worker-level request envelope.
pub fn build_plain_request(id: u64, kind: RequestKind, data: Option<&String>) -> (r: String)
    ensures
        r@ == plain_request_chars(id, method_chars(kind), match data {
            Some(d) => Some(d@),
            None => None,
        }),
{
    proof {
        reveal_strlit("\"");
        reveal_strlit("}");
    }
    let mut s = String::from_str("{\"id\":");
    append_dec(&mut s, id);
    s.append(",\"method\":\"");
    s.append(kind.as_method());
    s.append("\"");
    match data {
        Some(d) => {
            s.append(",\"data\":");
            s.append(d.as_str());
        },
        None => {},
    }
    s.append("}");
    proof {
        assert(s@ =~= plain_request_chars(id, method_chars(kind), match data {
            Some(d) => Some(d@),
            None => None::<Seq<char>>,
        }));
    }
    s
}

/// A fire-and-forget notification envelope: event name, identity chain
/// and the optional data body spliced in verbatim. No correlation id:
/// nothing answers it.
pub open spec fn notification_chars(
    event: Seq<char>,
    internal: Seq<char>,
    data: Option<Seq<char>>,
) -> Seq<char> {
    "{\"event\":\""@ + event + "\",\"internal\":"@ + internal + (match data {
        Some(d) => ",\"data\":"@ + d,
        None => Seq::empty(),
    }) + seq!['}']
}

/// Serialises one notification envelope.
pub fn build_notification(event: &str, internal: &String, data: Option<&String>) -> (r: String)
    ensures
        r@ == notification_chars(event@, internal@, match data {
            Some(d) => Some(d@),
            None => None,
        }),
{
    proof {
        reveal_strlit("}");
    }
    let mut s = String::from_str("{\"event\":\"");
    s.append(event);
    s.append("\",\"internal\":");
    s.append(internal.as_str());
    match data {
        Some(d) => {
            s.append(",\"data\":");
            s.append(d.as_str());
        },
        None => {},
    }
    s.append("}");
    proof {
        assert(s@ =~= notification_chars(event@, internal@, match data {
            Some(d) => Some(d@),
            None => None::<Seq<char>>,
        }));
    }
    s
}

/// The data body announcing a payload protocol identifier.
pub open spec fn ppid_data_chars(ppid: u32) -> Seq<char> {
    "{\"ppid\":"@ + dec_chars(ppid as nat) + seq!['}']
}

/// Serialises the payload-protocol-identifier body.
pub fn ppid_data_json(ppid: u32) -> (r: String)
    ensures
        r@ == ppid_data_chars(ppid),
{
    proof {
        reveal_strlit("}");
    }
    let mut s = String::from_str("{\"ppid\":");
    append_dec(&mut s, ppid as u64);
    s.append("}");
    proof {
        assert(s@ =~= ppid_data_chars(ppid));
    }
    s
}

/// The data body carrying a buffered-amount threshold.
pub open spec fn threshold_data_chars(threshold: u32) -> Seq<char> {
    "{\"threshold\":"@ + dec_chars(threshold as nat) + seq!['}']
}

/// Serialises the threshold body.
pub fn threshold_data_json(threshold: u32) -> (r: String)
    ensures
        r@ == threshold_data_chars(threshold),
{
    proof {
        reveal_strlit("}");
    }
    let mut s = String::from_str("{\"threshold\":");
    append_dec(&mut s, threshold as u64);
    s.append("}");
    proof {
        assert(s@ =~= threshold_data_chars(threshold));
    }
    s
}

} // verus!
