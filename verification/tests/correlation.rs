use mediasoup::channel::Channel;
use mediasoup::data_structures::AppData;
use mediasoup::ids::RouterId;
use mediasoup::registry::DispatchOutcome;
use mediasoup::worker::{
    interpret_response, parse_worker_resource_usage, update_settings_data_json, BodyOutcome,
    RequestError, Worker, WorkerEvent, WorkerLogLevel, WorkerLogTag, WorkerUpdateSettings,
};

#[test]
fn correlation_ids_grow_and_complete() {
    let mut c = Channel::new();
    assert_eq!(c.begin_request(), Ok(0));
    assert_eq!(c.begin_request(), Ok(1));
    assert_eq!(c.begin_request(), Ok(2));
    assert_eq!(c.pending, vec![0, 1, 2]);
    assert!(c.take_pending(1));
    assert_eq!(c.pending, vec![0, 2]);
    assert!(!c.take_pending(1));
    assert_eq!(c.pending, vec![0, 2]);
}

#[test]
fn unknown_response_id_is_dropped_without_side_effects() {
    let mut w = Worker::new(100, AppData);
    let internal = String::from("{}");
    let (id0, _) = w
        .prepare_request(mediasoup::messages::RequestKind::WorkerDump, &internal, None)
        .unwrap();
    let (id1, _) = w
        .prepare_request(mediasoup::messages::RequestKind::WorkerDump, &internal, None)
        .unwrap();
    assert_eq!((id0, id1), (0, 1));
    // A response that matches no pending entry: dropped, both entries stay.
    assert!(!w.on_response(999));
    assert_eq!(w.channel.pending, vec![0, 1]);
    // The matching responses complete exactly their own entry.
    assert!(w.on_response(id1));
    assert_eq!(w.channel.pending, vec![0]);
    assert!(w.on_response(id0));
    assert!(w.channel.pending.is_empty());
}

#[test]
fn timeout_fails_request_and_removes_entry() {
    let mut w = Worker::new(100, AppData);
    let internal = String::from("{}");
    let (id, _) = w
        .prepare_request(mediasoup::messages::RequestKind::WorkerDump, &internal, None)
        .unwrap();
    assert_eq!(w.fail_request_timeout(id), Some(RequestError::TimedOut));
    assert!(w.channel.pending.is_empty());
    // No leak: a second timeout finds nothing, and a late response is dropped.
    assert_eq!(w.fail_request_timeout(id), None);
    assert!(!w.on_response(id));
}

#[test]
fn requests_on_closed_channel_fail_immediately() {
    let mut c = Channel::new();
    let failed = c.close();
    assert!(failed.is_empty());
    assert_eq!(c.begin_request(), Err(RequestError::ChannelClosed));
}

#[test]
fn closing_fails_all_pending_in_send_order() {
    let mut c = Channel::new();
    c.begin_request().unwrap();
    c.begin_request().unwrap();
    c.begin_request().unwrap();
    let failed = c.close();
    assert_eq!(failed, vec![0, 1, 2]);
    assert!(c.pending.is_empty());
}

#[test]
fn subprocess_exit_fails_pending_and_fires_events_once() {
    let mut w = Worker::new(4242, AppData);
    w.mark_ready(&String::from("running"));
    let internal = String::from("{}");
    for _ in 0..3 {
        w.prepare_request(mediasoup::messages::RequestKind::WorkerDump, &internal, None)
            .unwrap();
    }
    assert!(!w.closed());

    let fx = w.on_exit(139);
    // All three pending requests fail with ChannelClosed.
    assert_eq!(fx.failed_requests, vec![0, 1, 2]);
    assert!(fx.failed_payload_requests.is_empty());
    // The dead event fires first, carrying the exit status, then the
    // closed event; each exactly once.
    assert_eq!(
        fx.events,
        vec![WorkerEvent::Dead { status_code: 139 }, WorkerEvent::Closed]
    );
    assert!(w.closed());
    // Further requests fail at once.
    let mut w2 = w;
    assert_eq!(
        w2.prepare_request(mediasoup::messages::RequestKind::WorkerDump, &internal, None),
        Err(RequestError::ChannelClosed)
    );
    // A second exit observation fires nothing again.
    let fx2 = w2.on_exit(139);
    assert!(fx2.events.is_empty());
    assert!(fx2.failed_requests.is_empty());
}

#[test]
fn exit_before_readiness_is_a_startup_failure_not_a_death() {
    let mut w = Worker::new(4243, AppData);
    assert!(w.exit_is_startup_failure());
    let fx = w.on_exit(42);
    // No dead event: the caller reports a failed start instead. The
    // closed event still fires, exactly once.
    assert_eq!(fx.events, vec![WorkerEvent::Closed]);
    assert!(w.closed());
    assert!(!w.dead);
}

#[test]
fn worker_close_fires_closed_but_not_dead() {
    let mut w = Worker::new(1, AppData);
    let internal = String::from("{}");
    w.prepare_request(mediasoup::messages::RequestKind::WorkerDump, &internal, None)
        .unwrap();
    let fx = w.close();
    // The closed event alone fires, once; the teardown fails every
    // pending request with ChannelClosed.
    assert_eq!(fx.events, vec![WorkerEvent::Closed]);
    assert_eq!(fx.failed_requests, vec![0]);
    assert!(!w.dead);
    assert!(w.closed());
    let fx2 = w.close();
    assert!(fx2.events.is_empty());
}

#[test]
fn oversized_request_leaves_no_pending_entry() {
    let mut w = Worker::new(1, AppData);
    let internal = String::from_utf8(vec![b'x'; 5 * 1024 * 1024]).unwrap();
    let r = w.prepare_request(mediasoup::messages::RequestKind::WorkerDump, &internal, None);
    assert_eq!(r, Err(RequestError::MessageTooLong));
    assert!(w.channel.pending.is_empty());
    // The channel still works afterwards.
    let small = String::from("{}");
    assert!(w
        .prepare_request(mediasoup::messages::RequestKind::WorkerDump, &small, None)
        .is_ok());
}

#[test]
fn response_interpretation_covers_every_completion_path() {
    assert_eq!(
        interpret_response(true, String::new(), BodyOutcome::NotNeeded),
        Ok(())
    );
    assert_eq!(
        interpret_response(true, String::new(), BodyOutcome::Parsed),
        Ok(())
    );
    assert_eq!(
        interpret_response(true, String::new(), BodyOutcome::Missing),
        Err(RequestError::NoData)
    );
    assert_eq!(
        interpret_response(
            true,
            String::new(),
            BodyOutcome::Unparsable(String::from("bad field"))
        ),
        Err(RequestError::FailedToParse { error: String::from("bad field") })
    );
    assert_eq!(
        interpret_response(false, String::from("not found"), BodyOutcome::NotNeeded),
        Err(RequestError::Response { reason: String::from("not found") })
    );
}

#[test]
fn readiness_follows_the_running_event() {
    let mut w = Worker::new(5, AppData);
    assert!(!w.mark_ready(&String::from("stopped")));
    assert!(!w.ready);
    assert!(w.mark_ready(&String::from("running")));
    assert!(w.ready);
}

#[test]
fn startup_failure_is_an_exit_before_readiness() {
    let mut w = Worker::new(77, AppData);
    assert!(w.exit_is_startup_failure());
    w.mark_ready(&String::from("running"));
    assert!(!w.exit_is_startup_failure());
}

#[test]
fn worker_level_requests_have_no_identity_chain() {
    let mut w = Worker::new(3, AppData);
    let (id, frame) = w.dump_request().unwrap();
    assert_eq!(id, 0);
    assert_eq!(
        String::from_utf8(frame[4..].to_vec()).unwrap(),
        "{\"id\":0,\"method\":\"worker.dump\"}"
    );
    let (id, frame) = w.get_resource_usage_request().unwrap();
    assert_eq!(
        String::from_utf8(frame[4..].to_vec()).unwrap(),
        format!("{{\"id\":{id},\"method\":\"worker.getResourceUsage\"}}")
    );

    assert_eq!(update_settings_data_json(&WorkerUpdateSettings::default()), "{}");
    let update = WorkerUpdateSettings {
        log_level: Some(WorkerLogLevel::Warn),
        log_tags: Some(vec![WorkerLogTag::Ice, WorkerLogTag::Dtls]),
    };
    assert_eq!(
        update_settings_data_json(&update),
        "{\"logLevel\":\"warn\",\"logTags\":[\"ice\",\"dtls\"]}"
    );
    let (id, frame) = w.update_settings_request(&update).unwrap();
    assert_eq!(
        String::from_utf8(frame[4..].to_vec()).unwrap(),
        format!(
            "{{\"id\":{id},\"method\":\"worker.updateSettings\",\"data\":{{\"logLevel\":\"warn\",\"logTags\":[\"ice\",\"dtls\"]}}}}"
        )
    );
    assert_eq!(w.channel.pending, vec![0, 1, 2]);
}

#[test]
fn new_router_callbacks_run_per_creation() {
    let mut w = Worker::new(8, AppData);
    // Nobody registered yet: the event reaches no callback.
    w.complete_create_router(RouterId::from_u128(1));
    assert!(matches!(w.notify_new_router(), DispatchOutcome::Dropped));
    // A registered callback runs once per creation, before the creation
    // returns to its caller, and persists across creations.
    let h = w.on_new_router();
    w.complete_create_router(RouterId::from_u128(2));
    match w.notify_new_router() {
        DispatchOutcome::Delivered(hs) => assert_eq!(hs, vec![h]),
        other => panic!("delivery expected, got {other:?}"),
    }
    w.complete_create_router(RouterId::from_u128(3));
    assert!(matches!(w.notify_new_router(), DispatchOutcome::Delivered(_)));
}

#[test]
fn resource_usage_bodies_decode_from_the_frame() {
    let mut body = String::from("{\"id\":4,\"accepted\":true,\"data\":{");
    let names = [
        "ru_utime", "ru_stime", "ru_maxrss", "ru_ixrss", "ru_idrss", "ru_isrss", "ru_minflt",
        "ru_majflt", "ru_nswap", "ru_inblock", "ru_oublock", "ru_msgsnd", "ru_msgrcv",
        "ru_nsignals", "ru_nvcsw", "ru_nivcsw",
    ];
    for (i, name) in names.iter().enumerate() {
        if i > 0 {
            body.push(',');
        }
        body.push_str(&format!("\"{name}\":{}", i + 1));
    }
    body.push_str("}}");
    let usage = parse_worker_resource_usage(body.as_bytes()).expect("all counters present");
    assert_eq!(usage.ru_utime, 1);
    assert_eq!(usage.ru_stime, 2);
    assert_eq!(usage.ru_maxrss, 3);
    assert_eq!(usage.ru_nivcsw, 16);
    // A missing counter fails the decode.
    assert!(parse_worker_resource_usage(b"{\"id\":4,\"accepted\":true,\"data\":{\"ru_utime\":1}}")
        .is_none());
    assert!(parse_worker_resource_usage(b"not json").is_none());
}
