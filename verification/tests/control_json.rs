use mediasoup::data_consumer::{
    interpret_buffered_amount_response, interpret_consumer_notification,
    interpret_payload_notification, DataConsumerNotification, DataConsumerOptions,
};
use mediasoup::data_producer::DataProducerOptions;
use mediasoup::graph::CloseAction;
use mediasoup::ids::{DataConsumerId, DataProducerId, TransportId};
use mediasoup::data_structures::AppData;
use mediasoup::graph::CloseTrigger;
use mediasoup::ids::{format_uuid, RouterId, SubscriptionTarget};
use mediasoup::json::{parse_control_frame, ControlMessage};
use mediasoup::registry::DispatchOutcome;
use mediasoup::worker::Worker;

#[test]
fn responses_parse_by_correlation_id() {
    match parse_control_frame(b"{\"id\":3,\"accepted\":true}") {
        ControlMessage::Response { id, accepted, reason, has_data, buffered_amount } => {
            assert_eq!(id, 3);
            assert!(accepted);
            assert_eq!(reason, "");
            assert!(!has_data);
            assert_eq!(buffered_amount, None);
        }
        other => panic!("response expected, got {other:?}"),
    }
    match parse_control_frame(b"{\"id\":9,\"error\":\"Error\",\"reason\":\"not found\"}") {
        ControlMessage::Response { id, accepted, reason, .. } => {
            assert_eq!(id, 9);
            assert!(!accepted);
            assert_eq!(reason, "not found");
        }
        other => panic!("response expected, got {other:?}"),
    }
}

#[test]
fn accepted_response_bodies_reach_verified_decoding() {
    // The buffered-amount figure of an accepted response flows from the
    // frame bytes to the caller through verified interpretation.
    match parse_control_frame(b"{\"id\":5,\"accepted\":true,\"data\":{\"bufferedAmount\":2048}}") {
        ControlMessage::Response { id, accepted, reason, has_data, buffered_amount } => {
            assert_eq!(id, 5);
            assert_eq!(
                interpret_buffered_amount_response(accepted, reason, has_data, buffered_amount),
                Ok(2048)
            );
        }
        other => panic!("response expected, got {other:?}"),
    }
    // An accepted response without a body maps to NoData for a caller
    // that expected one.
    match parse_control_frame(b"{\"id\":6,\"accepted\":true}") {
        ControlMessage::Response { accepted, reason, has_data, buffered_amount, .. } => {
            assert_eq!(
                interpret_buffered_amount_response(accepted, reason, has_data, buffered_amount),
                Err(mediasoup::worker::RequestError::NoData)
            );
        }
        other => panic!("response expected, got {other:?}"),
    }
}

#[test]
fn notifications_parse_target_and_event() {
    // A worker-level notification keyed by process number.
    match parse_control_frame(b"{\"targetId\":4242,\"event\":\"running\"}") {
        ControlMessage::Notification { target, event, .. } => {
            assert_eq!(target, SubscriptionTarget::Number(4242));
            assert_eq!(event, "running");
        }
        other => panic!("notification expected, got {other:?}"),
    }
    // A resource notification keyed by identifier: the textual id must
    // resolve to the same value the library rendered it from.
    let v = 0x0123_4567_89ab_cdef_0011_2233_4455_6677u128;
    let rendered = format_uuid(v);
    assert_eq!(RouterId::from_u128(v).hyphenated_string(), rendered);
    let frame = format!(
        "{{\"targetId\":\"{rendered}\",\"event\":\"bufferedamountlow\",\"data\":{{\"bufferedAmount\":512}}}}"
    );
    match parse_control_frame(frame.as_bytes()) {
        ControlMessage::Notification { target, event, buffered_amount, .. } => {
            assert_eq!(target, SubscriptionTarget::Uuid(v));
            assert_eq!(event, "bufferedamountlow");
            assert_eq!(buffered_amount, Some(512));
        }
        other => panic!("notification expected, got {other:?}"),
    }
}

#[test]
fn malformed_frames_are_unrecognized_never_fatal() {
    assert!(matches!(parse_control_frame(b"not json"), ControlMessage::Unrecognized));
    assert!(matches!(parse_control_frame(b"{\"event\":\"x\"}"), ControlMessage::Unrecognized));
    assert!(matches!(
        parse_control_frame(b"{\"targetId\":\"zz\",\"event\":\"x\"}"),
        ControlMessage::Unrecognized
    ));
    assert!(matches!(parse_control_frame(b"{}"), ControlMessage::Unrecognized));
}

#[test]
fn consumer_notifications_interpret_exactly() {
    assert_eq!(
        interpret_consumer_notification(&String::from("dataproducerclose"), None),
        Some(DataConsumerNotification::DataProducerClose)
    );
    assert_eq!(
        interpret_consumer_notification(&String::from("sctpsendbufferfull"), None),
        Some(DataConsumerNotification::SctpSendBufferFull)
    );
    assert_eq!(
        interpret_consumer_notification(&String::from("bufferedamountlow"), Some(100)),
        Some(DataConsumerNotification::BufferedAmountLow { buffered_amount: 100 })
    );
    // A buffered-amount-low event without its byte count fails to parse.
    assert_eq!(
        interpret_consumer_notification(&String::from("bufferedamountlow"), None),
        None
    );
    assert_eq!(
        interpret_consumer_notification(&String::from("bufferedamountlow"), Some(u64::MAX)),
        None
    );
    assert_eq!(interpret_consumer_notification(&String::from("unknown"), None), None);

    assert_eq!(
        interpret_payload_notification(&String::from("message"), Some(51)),
        Some(51)
    );
    assert_eq!(interpret_payload_notification(&String::from("message"), None), None);
    assert_eq!(interpret_payload_notification(&String::from("other"), Some(51)), None);
}

/// The full inbound path: a worker session whose consumer closes itself
/// when the worker pushes the producer-closed notification, as the
/// subprocess-initiated removal path prescribes — no close request goes
/// upstream for it.
#[test]
fn remote_producer_close_reaches_the_consumer() {
    let mut w = Worker::new(7, AppData);
    let router_id = RouterId::from_u128(1);
    let transport_id = TransportId::from_u128(2);
    let producer_id = DataProducerId::from_u128(3);
    let consumer_id = DataConsumerId::from_u128(4);
    let r = w.complete_create_router(router_id);
    let t = w.create_transport(r, transport_id);
    let producer = w.create_data_producer(
        router_id,
        transport_id,
        t,
        producer_id,
        DataProducerOptions::new_direct(),
    );
    let consumer = w.create_data_consumer(
        router_id,
        transport_id,
        t,
        consumer_id,
        &producer,
        DataConsumerOptions::new_direct(producer_id),
        None,
        String::new(),
        String::new(),
    );

    // The worker pushes the notification under the consumer's identity.
    let frame = format!(
        "{{\"targetId\":\"{}\",\"event\":\"dataproducerclose\"}}",
        format_uuid(consumer_id.value)
    );
    let (target, event, amount) = match parse_control_frame(frame.as_bytes()) {
        ControlMessage::Notification { target, event, buffered_amount, .. } => {
            (target, event, buffered_amount)
        }
        other => panic!("notification expected, got {other:?}"),
    };
    // It reaches the consumer's subscription registered at creation.
    assert!(matches!(w.on_notification(target, frame.into_bytes()), DispatchOutcome::Delivered(_)));
    assert_eq!(
        interpret_consumer_notification(&event, amount),
        Some(DataConsumerNotification::DataProducerClose)
    );
    // The consumer closes itself; the removal came from the remote side,
    // so its closed event fires locally and nothing goes upstream.
    let acts = w.close_resource(consumer.node, CloseTrigger::Remote);
    assert!(acts.contains(&CloseAction::ClosedEvent(consumer.node)));
    assert!(!acts.iter().any(|a| matches!(a, CloseAction::CloseRequest(_))));
    assert!(w.graph.nodes[consumer.node].closed);
}
