use mediasoup::data_consumer::{interpret_buffered_amount_response, DataConsumer, DataConsumerOptions};
use mediasoup::data_producer::{DataProducer, DataProducerOptions};
use mediasoup::data_structures::{AppData, WebRtcMessage};
use mediasoup::graph::CloseTrigger;
use mediasoup::ids::{DataConsumerId, DataProducerId, RouterId, TransportId};
use mediasoup::messages::{
    build_notification, build_plain_request, build_request, data_consumer_internal_json,
    data_producer_internal_json, ppid_data_json, router_internal_json, threshold_data_json,
    transport_internal_json, DataConsumerInternal, DataProducerInternal, RequestKind,
    RouterInternal, TransportInternal,
};
use mediasoup::worker::{NotificationError, RequestError, Worker};

fn router_id() -> RouterId {
    RouterId::from_u128(1)
}

fn transport_id() -> TransportId {
    TransportId::from_u128(2)
}

fn producer_id() -> DataProducerId {
    DataProducerId::from_u128(3)
}

fn consumer_id() -> DataConsumerId {
    DataConsumerId::from_u128(4)
}

const R: &str = "00000000-0000-0000-0000-000000000001";
const T: &str = "00000000-0000-0000-0000-000000000002";
const P: &str = "00000000-0000-0000-0000-000000000003";
const C: &str = "00000000-0000-0000-0000-000000000004";

/// A session with a router, a transport, and a producer/consumer pair
/// under it.
fn session() -> (Worker, DataProducer, DataConsumer) {
    let mut w = Worker::new(9, AppData);
    let r = w.complete_create_router(router_id());
    let t = w.create_transport(r, transport_id());
    let producer = w.create_data_producer(
        router_id(),
        transport_id(),
        t,
        producer_id(),
        DataProducerOptions::new_direct(),
    );
    let consumer = w.create_data_consumer(
        router_id(),
        transport_id(),
        t,
        consumer_id(),
        &producer,
        DataConsumerOptions::new_direct(producer_id()),
        None,
        String::from("chat"),
        String::from(""),
    );
    (w, producer, consumer)
}

#[test]
fn method_names() {
    assert_eq!(RequestKind::WorkerDump.as_method(), "worker.dump");
    assert_eq!(RequestKind::WorkerGetResourceUsage.as_method(), "worker.getResourceUsage");
    assert_eq!(RequestKind::WorkerUpdateSettings.as_method(), "worker.updateSettings");
    assert_eq!(RequestKind::WorkerCreateRouter.as_method(), "worker.createRouter");
    assert_eq!(RequestKind::RouterClose.as_method(), "router.close");
    assert_eq!(RequestKind::RouterDump.as_method(), "router.dump");
    assert_eq!(RequestKind::TransportClose.as_method(), "transport.close");
    assert_eq!(RequestKind::DataProducerClose.as_method(), "dataProducer.close");
    assert_eq!(RequestKind::DataProducerDump.as_method(), "dataProducer.dump");
    assert_eq!(RequestKind::DataProducerGetStats.as_method(), "dataProducer.getStats");
    assert_eq!(RequestKind::DataConsumerClose.as_method(), "dataConsumer.close");
    assert_eq!(RequestKind::DataConsumerDump.as_method(), "dataConsumer.dump");
    assert_eq!(RequestKind::DataConsumerGetStats.as_method(), "dataConsumer.getStats");
    assert_eq!(
        RequestKind::DataConsumerGetBufferedAmount.as_method(),
        "dataConsumer.getBufferedAmount"
    );
    assert_eq!(
        RequestKind::DataConsumerSetBufferedAmountLowThreshold.as_method(),
        "dataConsumer.setBufferedAmountLowThreshold"
    );
    assert_eq!(RequestKind::DataConsumerSend.as_method(), "dataConsumer.send");
}

#[test]
fn internal_chains_serialise() {
    assert_eq!(
        router_internal_json(&RouterInternal { router_id: router_id() }),
        format!("{{\"routerId\":\"{R}\"}}")
    );
    assert_eq!(
        transport_internal_json(&TransportInternal {
            router_id: router_id(),
            transport_id: transport_id(),
        }),
        format!("{{\"routerId\":\"{R}\",\"transportId\":\"{T}\"}}")
    );
    assert_eq!(
        data_producer_internal_json(&DataProducerInternal {
            router_id: router_id(),
            transport_id: transport_id(),
            data_producer_id: producer_id(),
        }),
        format!("{{\"routerId\":\"{R}\",\"transportId\":\"{T}\",\"dataProducerId\":\"{P}\"}}")
    );
    assert_eq!(
        data_consumer_internal_json(&DataConsumerInternal {
            router_id: router_id(),
            transport_id: transport_id(),
            data_consumer_id: consumer_id(),
            data_producer_id: producer_id(),
        }),
        format!(
            "{{\"routerId\":\"{R}\",\"transportId\":\"{T}\",\"dataConsumerId\":\"{C}\",\"dataProducerId\":\"{P}\"}}"
        )
    );
}

#[test]
fn request_envelopes_serialise() {
    let internal = router_internal_json(&RouterInternal { router_id: router_id() });
    let msg = build_request(12, RequestKind::WorkerCreateRouter, &internal, None);
    assert_eq!(
        msg,
        format!(
            "{{\"id\":12,\"method\":\"worker.createRouter\",\"internal\":{{\"routerId\":\"{R}\"}}}}"
        )
    );
    let data = String::from("{\"custom\":true}");
    let msg = build_request(7, RequestKind::RouterDump, &internal, Some(&data));
    assert_eq!(
        msg,
        format!(
            "{{\"id\":7,\"method\":\"router.dump\",\"internal\":{{\"routerId\":\"{R}\"}},\"data\":{{\"custom\":true}}}}"
        )
    );
    assert!(serde_json::from_str::<serde_json::Value>(&msg).is_ok());
    assert_eq!(
        build_plain_request(3, RequestKind::WorkerDump, None),
        "{\"id\":3,\"method\":\"worker.dump\"}"
    );
}

#[test]
fn notification_envelope_serialises() {
    let internal = router_internal_json(&RouterInternal { router_id: router_id() });
    let data = ppid_data_json(51);
    let msg = build_notification("dataProducer.send", &internal, Some(&data));
    assert_eq!(
        msg,
        format!(
            "{{\"event\":\"dataProducer.send\",\"internal\":{{\"routerId\":\"{R}\"}},\"data\":{{\"ppid\":51}}}}"
        )
    );
    assert!(serde_json::from_str::<serde_json::Value>(&msg).is_ok());
    assert_eq!(threshold_data_json(4096), "{\"threshold\":4096}");
}

#[test]
fn resource_request_builders() {
    let (w, p, c) = session();
    assert_eq!(p.id(), producer_id());
    assert!(!p.closed(&w.graph));
    assert_eq!(
        p.dump_request(&w.graph, 3).unwrap(),
        format!(
            "{{\"id\":3,\"method\":\"dataProducer.dump\",\"internal\":{{\"routerId\":\"{R}\",\"transportId\":\"{T}\",\"dataProducerId\":\"{P}\"}}}}"
        )
    );
    assert!(p
        .get_stats_request(&w.graph, 4)
        .unwrap()
        .contains("\"method\":\"dataProducer.getStats\""));
    assert!(p.close_request(5).contains("\"method\":\"dataProducer.close\""));

    assert_eq!(c.id(), consumer_id());
    assert_eq!(c.data_producer_id(), producer_id());
    assert!(c
        .dump_request(&w.graph, 6)
        .unwrap()
        .contains("\"method\":\"dataConsumer.dump\""));
    assert!(c
        .get_stats_request(&w.graph, 7)
        .unwrap()
        .contains("\"method\":\"dataConsumer.getStats\""));
    assert!(c
        .get_buffered_amount_request(&w.graph, 8)
        .unwrap()
        .contains("\"method\":\"dataConsumer.getBufferedAmount\""));
    let msg = c
        .set_buffered_amount_low_threshold_request(&w.graph, 9, 1024)
        .unwrap();
    assert!(msg.contains("\"method\":\"dataConsumer.setBufferedAmountLowThreshold\""));
    assert!(msg.ends_with(",\"data\":{\"threshold\":1024}}"));
    assert!(c.close_request(10).contains("\"method\":\"dataConsumer.close\""));
}

#[test]
fn closed_resources_fail_fast_without_issuing_requests() {
    let (mut w, p, c) = session();
    w.close_resource(p.node, CloseTrigger::Local);
    // The producer is closed and the consumer closed with it by cascade:
    // every operation fails fast as already-closed, nothing is built.
    assert!(p.closed(&w.graph));
    assert!(c.closed(&w.graph));
    assert_eq!(p.dump_request(&w.graph, 1), Err(RequestError::ChannelClosed));
    assert_eq!(p.get_stats_request(&w.graph, 2), Err(RequestError::ChannelClosed));
    assert_eq!(
        p.send_notification(&w.graph, WebRtcMessage::EmptyBinary),
        Err(NotificationError::ChannelClosed)
    );
    assert_eq!(c.dump_request(&w.graph, 3), Err(RequestError::ChannelClosed));
    assert_eq!(c.get_stats_request(&w.graph, 4), Err(RequestError::ChannelClosed));
    assert_eq!(
        c.get_buffered_amount_request(&w.graph, 5),
        Err(RequestError::ChannelClosed)
    );
    assert_eq!(
        c.set_buffered_amount_low_threshold_request(&w.graph, 6, 1),
        Err(RequestError::ChannelClosed)
    );
    assert_eq!(
        c.send_request(&w.graph, 7, WebRtcMessage::EmptyString),
        Err(RequestError::ChannelClosed)
    );
    assert_eq!(
        w.prepare_data_consumer_send(&c, WebRtcMessage::EmptyString),
        Err(RequestError::ChannelClosed)
    );
    assert_eq!(
        w.prepare_data_producer_send(&p, WebRtcMessage::EmptyString),
        Err(NotificationError::ChannelClosed)
    );
    // The close-path message itself stays available: it is built after
    // the flag flipped.
    assert!(p.close_request(8).contains("dataProducer.close"));
}

#[test]
fn direct_sends_pair_header_and_payload() {
    let (w, p, c) = session();
    let (header, payload) = p
        .send_notification(&w.graph, WebRtcMessage::String(b"hi".to_vec()))
        .unwrap();
    assert_eq!(payload, b"hi".to_vec());
    assert!(header.starts_with("{\"event\":\"dataProducer.send\""));
    assert!(header.ends_with(",\"data\":{\"ppid\":51}}"));

    let (header, payload) = c
        .send_request(&w.graph, 11, WebRtcMessage::Binary(vec![9, 9]))
        .unwrap();
    assert_eq!(payload, vec![9, 9]);
    assert!(header.starts_with("{\"id\":11,\"method\":\"dataConsumer.send\""));
    assert!(header.ends_with(",\"data\":{\"ppid\":53}}"));
}

#[test]
fn oversized_payloads_are_rejected_before_sending() {
    let (w, p, c) = session();
    let big = WebRtcMessage::Binary(vec![0u8; 4194305]);
    assert_eq!(
        p.send_notification(&w.graph, big.clone()),
        Err(NotificationError::PayloadTooLong)
    );
    assert_eq!(
        c.send_request(&w.graph, 1, big),
        Err(RequestError::PayloadTooLong)
    );
}

#[test]
fn payload_channel_sends_pair_frames() {
    let (mut w, p, c) = session();
    let (id, header, payload) = w
        .prepare_data_consumer_send(&c, WebRtcMessage::String(b"hey".to_vec()))
        .unwrap();
    assert_eq!(id, 0);
    assert_eq!(w.payload_channel.pending, vec![0]);
    // Both frames carry the length prefix of the framing layer.
    assert_eq!(&header[0..4], &((header.len() - 4) as u32).to_le_bytes());
    assert_eq!(&payload[4..], b"hey");
    let header_text = String::from_utf8(header[4..].to_vec()).unwrap();
    assert!(header_text.starts_with("{\"id\":0,\"method\":\"dataConsumer.send\""));
    assert!(header_text.ends_with(",\"data\":{\"ppid\":51}}"));

    // An oversized payload is rejected before any allocation.
    let big = WebRtcMessage::Binary(vec![0u8; 4194305]);
    assert_eq!(
        w.prepare_data_consumer_send(&c, big.clone()),
        Err(RequestError::PayloadTooLong)
    );
    assert_eq!(w.payload_channel.pending, vec![0]);

    let (header, payload) = w
        .prepare_data_producer_send(&p, WebRtcMessage::EmptyBinary)
        .unwrap();
    assert_eq!(&payload[4..], &[0u8]);
    let header_text = String::from_utf8(header[4..].to_vec()).unwrap();
    assert!(header_text.starts_with("{\"event\":\"dataProducer.send\""));
    assert!(header_text.ends_with(",\"data\":{\"ppid\":57}}"));
    assert_eq!(
        w.prepare_data_producer_send(&p, big),
        Err(NotificationError::PayloadTooLong)
    );

    // Once the payload channel closes, nothing more travels.
    let fx = w.on_exit(0);
    assert_eq!(fx.failed_payload_requests, vec![0]);
    // The resources are force-closed by the exit, so the sends fail
    // fast as already-closed.
    assert_eq!(
        w.prepare_data_consumer_send(&c, WebRtcMessage::EmptyString),
        Err(RequestError::ChannelClosed)
    );
    assert_eq!(
        w.prepare_data_producer_send(&p, WebRtcMessage::EmptyString),
        Err(NotificationError::ChannelClosed)
    );
}

#[test]
fn buffered_amount_responses_interpret_exactly() {
    assert_eq!(
        interpret_buffered_amount_response(true, String::new(), true, Some(512)),
        Ok(512)
    );
    assert_eq!(
        interpret_buffered_amount_response(false, String::from("not found"), true, Some(1)),
        Err(RequestError::Response { reason: String::from("not found") })
    );
    assert_eq!(
        interpret_buffered_amount_response(true, String::new(), false, None),
        Err(RequestError::NoData)
    );
    assert_eq!(
        interpret_buffered_amount_response(true, String::new(), true, None),
        Err(RequestError::FailedToParse {
            error: String::from("bufferedAmount missing or not a number")
        })
    );
    assert_eq!(
        interpret_buffered_amount_response(true, String::new(), true, Some(u64::MAX)),
        Err(RequestError::FailedToParse { error: String::from("bufferedAmount out of range") })
    );
}
