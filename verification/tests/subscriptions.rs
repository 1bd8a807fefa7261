use mediasoup::ids::SubscriptionTarget;
use mediasoup::registry::{DispatchOutcome, Registry};

const X: SubscriptionTarget = SubscriptionTarget::Uuid(77);
const Y: SubscriptionTarget = SubscriptionTarget::Uuid(78);

fn delivered(r: DispatchOutcome) -> Vec<u64> {
    match r {
        DispatchOutcome::Delivered(hs) => hs,
        DispatchOutcome::Queued => panic!("queued instead of delivered"),
        DispatchOutcome::Dropped => panic!("dropped instead of delivered"),
    }
}

#[test]
fn delivery_in_registration_order() {
    let mut r = Registry::new();
    let h1 = r.subscribe(X, false);
    let _other = r.subscribe(Y, false);
    let h2 = r.subscribe(X, false);
    let hs = delivered(r.dispatch(X, b"n".to_vec()));
    assert_eq!(hs, vec![h1, h2]);
    // Multi-fire entries persist across deliveries.
    let hs = delivered(r.dispatch(X, b"n2".to_vec()));
    assert_eq!(hs, vec![h1, h2]);
}

#[test]
fn single_fire_entries_leave_after_first_delivery() {
    let mut r = Registry::new();
    let once = r.subscribe(X, true);
    let many = r.subscribe(X, false);
    assert_eq!(delivered(r.dispatch(X, b"a".to_vec())), vec![once, many]);
    assert_eq!(delivered(r.dispatch(X, b"b".to_vec())), vec![many]);
}

#[test]
fn unsubscribe_removes_exactly_its_own_entry() {
    let mut r = Registry::new();
    let h1 = r.subscribe(X, false);
    let h2 = r.subscribe(X, false);
    let h3 = r.subscribe(X, false);
    assert!(r.unsubscribe(h2));
    assert!(!r.unsubscribe(h2));
    assert_eq!(delivered(r.dispatch(X, b"n".to_vec())), vec![h1, h3]);
}

#[test]
fn unmatched_notification_without_guard_is_dropped() {
    let mut r = Registry::new();
    let _elsewhere = r.subscribe(Y, false);
    assert!(matches!(r.dispatch(X, b"n".to_vec()), DispatchOutcome::Dropped));
    assert!(r.queued.is_empty());
}

#[test]
fn buffering_guard_queues_and_replays_in_arrival_order() {
    let mut r = Registry::new();
    // Guard acquired before the subscriber exists: early notifications queue.
    assert!(r.begin_buffering(X));
    assert!(matches!(r.dispatch(X, b"first".to_vec()), DispatchOutcome::Queued));
    assert!(matches!(r.dispatch(X, b"second".to_vec()), DispatchOutcome::Queued));
    // Notifications for other targets are not affected by the guard.
    assert!(matches!(r.dispatch(Y, b"other".to_vec()), DispatchOutcome::Dropped));

    // The subscriber registers; releasing the guard replays in order.
    let h = r.subscribe(X, false);
    let replay = r.end_buffering(X);
    let bodies: Vec<Vec<u8>> = replay.iter().map(|q| q.body.clone()).collect();
    assert_eq!(bodies, vec![b"first".to_vec(), b"second".to_vec()]);
    for q in replay {
        assert_eq!(delivered(r.dispatch(q.target, q.body)), vec![h]);
    }

    // After release the buffering mode has ended.
    let mut fresh = Registry::new();
    assert!(fresh.begin_buffering(X));
    assert!(fresh.end_buffering(X).is_empty());
    assert!(matches!(fresh.dispatch(X, b"late".to_vec()), DispatchOutcome::Dropped));
}

#[test]
fn replay_to_no_subscriber_drops_and_logs() {
    let mut r = Registry::new();
    assert!(r.begin_buffering(X));
    assert!(matches!(r.dispatch(X, b"early".to_vec()), DispatchOutcome::Queued));
    let replay = r.end_buffering(X);
    assert_eq!(replay.len(), 1);
    // Nobody registered: the replayed notification is dropped.
    assert!(matches!(
        r.dispatch(replay[0].target, replay[0].body.clone()),
        DispatchOutcome::Dropped
    ));
}
