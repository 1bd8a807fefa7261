use mediasoup::data_consumer::{DataConsumerNotification, DataConsumerOptions};
use mediasoup::data_producer::DataProducerOptions;
use mediasoup::data_structures::AppData;
use mediasoup::graph::{CloseAction, CloseTrigger, Graph, ResourceKind};
use mediasoup::ids::{DataConsumerId, DataProducerId, RouterId, TransportId};
use mediasoup::worker::Worker;

/// Builds the scenario tree: router R, transport T under it, data
/// producer P and data consumer C (bound to P) under T. Returns the
/// session and the node indices (r, t, p, c).
fn build_tree() -> (Worker, usize, usize, usize, usize) {
    let mut w = Worker::new(9, AppData);
    let router_id = RouterId::from_u128(1);
    let transport_id = TransportId::from_u128(2);
    let producer_id = DataProducerId::from_u128(3);
    let consumer_id = DataConsumerId::from_u128(4);

    let r = w.complete_create_router(router_id);
    let t = w.create_transport(r, transport_id);
    let producer = w.create_data_producer(
        router_id,
        transport_id,
        t,
        producer_id,
        DataProducerOptions::new_direct(),
    );
    let p = producer.node;
    let consumer = w.create_data_consumer(
        router_id,
        transport_id,
        t,
        consumer_id,
        &producer,
        DataConsumerOptions::new_direct(producer_id),
        None,
        String::from("chat"),
        String::from(""),
    );
    let c = consumer.node;
    (w, r, t, p, c)
}

#[test]
fn closing_twice_fires_the_closed_event_once() {
    let (mut w, _r, _t, p, _c) = build_tree();
    let first = w.close_resource(p, CloseTrigger::Local);
    let closed_events = first
        .iter()
        .filter(|a| matches!(a, CloseAction::ClosedEvent(n) if *n == p))
        .count();
    assert_eq!(closed_events, 1);
    // Any further close, from any trigger, changes nothing and fires nothing.
    assert!(w.close_resource(p, CloseTrigger::Local).is_empty());
    assert!(w.close_resource(p, CloseTrigger::Remote).is_empty());
}

#[test]
fn closing_the_producer_closes_its_bound_consumer() {
    let (mut w, r, t, p, c) = build_tree();
    let acts = w.close_resource(p, CloseTrigger::Local);
    // C transitions to Closed and its producer-closed event fires.
    assert!(w.graph.nodes[c].closed);
    assert!(acts.contains(&CloseAction::PeerCloseEvent(c)));
    assert!(acts.contains(&CloseAction::ClosedEvent(c)));
    // T and R remain open.
    assert!(!w.graph.nodes[t].closed);
    assert!(!w.graph.nodes[r].closed);
    // Only the producer's own close request goes upstream.
    assert!(acts.contains(&CloseAction::CloseRequest(p)));
    assert!(!acts.contains(&CloseAction::CloseRequest(c)));
}

#[test]
fn closing_the_transport_cascades_before_its_own_closed_event() {
    let (mut w, r, t, p, c) = build_tree();
    let acts = w.close_resource(t, CloseTrigger::Local);
    // P and C both transition to Closed.
    assert!(w.graph.nodes[p].closed);
    assert!(w.graph.nodes[c].closed);
    assert!(!w.graph.nodes[r].closed);
    // Their closed events fire before T's own closed event.
    let pos = |needle: CloseAction| acts.iter().position(|a| *a == needle).unwrap();
    assert!(pos(CloseAction::ClosedEvent(p)) < pos(CloseAction::ClosedEvent(t)));
    assert!(pos(CloseAction::ClosedEvent(c)) < pos(CloseAction::ClosedEvent(t)));
    // Cascade-closed children never send their own close request upstream;
    // only the transport's request follows its closed event, last.
    assert!(!acts.contains(&CloseAction::CloseRequest(p)));
    assert!(!acts.contains(&CloseAction::CloseRequest(c)));
    assert_eq!(*acts.last().unwrap(), CloseAction::CloseRequest(t));
    // Subsequent operations on P and C fail fast as already closed
    // rather than issuing requests.
    assert!(w.close_resource(p, CloseTrigger::Local).is_empty());
    assert!(w.close_resource(c, CloseTrigger::Local).is_empty());
}

#[test]
fn parent_cascade_marks_the_cause() {
    let (mut w, _r, t, p, c) = build_tree();
    let acts = w.close_resource(t, CloseTrigger::Remote);
    // Both children name the parent chain as their cause; the consumer
    // hangs from the transport directly, so no peer event fires for it.
    assert!(acts.contains(&CloseAction::ParentCloseEvent(p)));
    assert!(acts.contains(&CloseAction::ParentCloseEvent(c)));
    // A remote-triggered close sends nothing upstream at all.
    assert!(!acts.iter().any(|a| matches!(a, CloseAction::CloseRequest(_))));
}

#[test]
fn subprocess_death_closes_every_resource_without_requests() {
    let (mut w, r, t, p, c) = build_tree();
    w.mark_ready(&String::from("running"));
    let fx = w.on_exit(0);
    for n in [r, t, p, c] {
        assert!(w.graph.nodes[n].closed);
    }
    // Children fire before parents, nothing goes upstream.
    assert_eq!(
        fx.resource_events,
        vec![
            CloseAction::ClosedEvent(c),
            CloseAction::ClosedEvent(p),
            CloseAction::ClosedEvent(t),
            CloseAction::ClosedEvent(r),
        ]
    );
}

#[test]
fn plain_graph_cascade_without_session() {
    let mut g = Graph::new();
    let r = g.add_node(1, ResourceKind::Router, None, None);
    let t = g.add_node(2, ResourceKind::Transport, Some(r), None);
    let p = g.add_node(3, ResourceKind::Producer, Some(t), None);
    let c = g.add_node(4, ResourceKind::Consumer, Some(t), Some(p));
    assert!(!g.is_closed(c));
    let acts = g.close(r, CloseTrigger::Local);
    assert!(g.is_closed(r) && g.is_closed(t) && g.is_closed(p) && g.is_closed(c));
    // Exactly one closed event per node, the router's last among them.
    for n in [r, t, p, c] {
        let count = acts
            .iter()
            .filter(|a| matches!(a, CloseAction::ClosedEvent(m) if *m == n))
            .count();
        assert_eq!(count, 1);
    }
    assert_eq!(*acts.last().unwrap(), CloseAction::CloseRequest(r));
}

#[test]
fn close_callbacks_on_closed_resources_fire_in_place() {
    let (mut w, _r, _t, p, _c) = build_tree();
    // On an open resource the callback waits for the closed event.
    let (h1, fire_now) = w.register_close_callback(p);
    assert!(!fire_now);
    w.close_resource(p, CloseTrigger::Local);
    // On an already-closed resource the callback runs in place, once,
    // at registration.
    let (h2, fire_now) = w.register_close_callback(p);
    assert!(fire_now);
    assert_ne!(h1, h2);
}

#[test]
fn consumer_notification_effects() {
    let (mut w, _r, t, p, c) = build_tree();
    // Flow-control events touch no state.
    let acts = w.apply_consumer_notification(c, DataConsumerNotification::SctpSendBufferFull);
    assert!(acts.is_empty());
    assert!(!w.graph.nodes[c].closed);
    let acts = w.apply_consumer_notification(
        c,
        DataConsumerNotification::BufferedAmountLow { buffered_amount: 3 },
    );
    assert!(acts.is_empty());
    // The producer-closed notification closes the consumer itself, as a
    // remote-initiated removal: no request goes upstream.
    let acts = w.apply_consumer_notification(c, DataConsumerNotification::DataProducerClose);
    assert!(w.graph.nodes[c].closed);
    assert!(acts.contains(&CloseAction::ClosedEvent(c)));
    assert!(!acts.iter().any(|a| matches!(a, CloseAction::CloseRequest(_))));
    assert!(!w.graph.nodes[p].closed);
    assert!(!w.graph.nodes[t].closed);
}
