use mediasoup::data_consumer::DataConsumerOptions;
use mediasoup::data_producer::DataProducerOptions;
use mediasoup::ids::DataProducerId;
use mediasoup::sctp_parameters::SctpStreamParameters;
use mediasoup::worker::{
    exit_result_of_status, worker_spawn_args, ExitError, PortRange, WorkerDtlsFiles,
    WorkerLogLevel, WorkerLogTag, WorkerSettings, WorkerSpawnError, WorkerUpdateSettings,
};

#[test]
fn consumer_options_new_sctp_inherits_producer_parameters() {
    let producer = DataProducerId::from_u128(7);
    let o = DataConsumerOptions::new_sctp(producer);
    assert_eq!(o.data_producer_id, producer);
    assert_eq!(o.ordered, None);
    assert_eq!(o.max_packet_life_time, None);
    assert_eq!(o.max_retransmits, None);
}

#[test]
fn consumer_options_new_direct_is_ordered() {
    let producer = DataProducerId::from_u128(8);
    let o = DataConsumerOptions::new_direct(producer);
    assert_eq!(o.data_producer_id, producer);
    assert_eq!(o.ordered, Some(true));
    assert_eq!(o.max_packet_life_time, None);
    assert_eq!(o.max_retransmits, None);
}

#[test]
fn consumer_options_new_sctp_ordered() {
    let producer = DataProducerId::from_u128(9);
    let o = DataConsumerOptions::new_sctp_ordered(producer);
    assert_eq!(o.data_producer_id, producer);
    assert_eq!(o.ordered, None);
    assert_eq!(o.max_packet_life_time, None);
    assert_eq!(o.max_retransmits, None);
}

#[test]
fn consumer_options_unordered_with_life_time() {
    let producer = DataProducerId::from_u128(10);
    let o = DataConsumerOptions::new_sctp_unordered_with_life_time(producer, 2500);
    assert_eq!(o.data_producer_id, producer);
    assert_eq!(o.ordered, None);
    assert_eq!(o.max_packet_life_time, Some(2500));
    assert_eq!(o.max_retransmits, None);
}

#[test]
fn consumer_options_unordered_with_retransmits() {
    let producer = DataProducerId::from_u128(11);
    let o = DataConsumerOptions::new_sctp_unordered_with_retransmits(producer, 4);
    assert_eq!(o.data_producer_id, producer);
    assert_eq!(o.ordered, None);
    assert_eq!(o.max_packet_life_time, None);
    assert_eq!(o.max_retransmits, Some(4));
}

#[test]
fn producer_options_constructors() {
    let sctp = SctpStreamParameters::new_ordered(3);
    let o = DataProducerOptions::new_sctp(sctp);
    assert_eq!(o.id, None);
    assert_eq!(o.sctp_stream_parameters, Some(sctp));
    assert_eq!(o.label, "");
    assert_eq!(o.protocol, "");

    let o = DataProducerOptions::new_direct();
    assert_eq!(o.id, None);
    assert_eq!(o.sctp_stream_parameters, None);

    let id = DataProducerId::from_u128(42);
    let o = DataProducerOptions::new_pipe_transport(id, sctp);
    assert_eq!(o.id, Some(id));
    assert_eq!(o.sctp_stream_parameters, Some(sctp));
}

#[test]
fn sctp_stream_parameter_constructors() {
    let p = SctpStreamParameters::new_ordered(1);
    assert!(p.ordered);
    assert_eq!(p.max_packet_life_time, None);
    assert_eq!(p.max_retransmits, None);

    let p = SctpStreamParameters::new_unordered_with_life_time(2, 900);
    assert!(!p.ordered);
    assert_eq!(p.max_packet_life_time, Some(900));
    assert_eq!(p.max_retransmits, None);

    let p = SctpStreamParameters::new_unordered_with_retransmits(3, 5);
    assert!(!p.ordered);
    assert_eq!(p.max_packet_life_time, None);
    assert_eq!(p.max_retransmits, Some(5));
}

#[test]
fn worker_settings_default() {
    let s = WorkerSettings::default();
    assert_eq!(s.log_level, WorkerLogLevel::Error);
    assert!(s.log_tags.is_empty());
    assert_eq!(s.rtc_ports_range, PortRange { start: 10000, end: 59999 });
    assert!(s.dtls_files.is_none());

    let u = WorkerUpdateSettings::default();
    assert!(u.log_level.is_none());
    assert!(u.log_tags.is_none());
}

#[test]
fn log_level_and_tag_render() {
    assert_eq!(WorkerLogLevel::default(), WorkerLogLevel::Error);
    assert_eq!(WorkerLogLevel::Debug.as_str(), "debug");
    assert_eq!(WorkerLogLevel::Warn.as_str(), "warn");
    assert_eq!(WorkerLogLevel::Error.as_str(), "error");
    assert_eq!(WorkerLogLevel::Off.as_str(), "none");
    assert_eq!(WorkerLogTag::Info.as_str(), "info");
    assert_eq!(WorkerLogTag::Ice.as_str(), "ice");
    assert_eq!(WorkerLogTag::Dtls.as_str(), "dtls");
    assert_eq!(WorkerLogTag::Rtp.as_str(), "rtp");
    assert_eq!(WorkerLogTag::Srtp.as_str(), "srtp");
    assert_eq!(WorkerLogTag::Rtcp.as_str(), "rtcp");
    assert_eq!(WorkerLogTag::Rtx.as_str(), "rtx");
    assert_eq!(WorkerLogTag::Bwe.as_str(), "bwe");
    assert_eq!(WorkerLogTag::Score.as_str(), "score");
    assert_eq!(WorkerLogTag::Simulcast.as_str(), "simulcast");
    assert_eq!(WorkerLogTag::Svc.as_str(), "svc");
    assert_eq!(WorkerLogTag::Sctp.as_str(), "sctp");
    assert_eq!(WorkerLogTag::Message.as_str(), "message");
}

#[test]
fn exit_status_code_mapping() {
    assert_eq!(exit_result_of_status(0), Ok(()));
    assert_eq!(exit_result_of_status(1), Err(ExitError::Generic));
    assert_eq!(exit_result_of_status(42), Err(ExitError::Settings));
    assert_eq!(
        exit_result_of_status(7),
        Err(ExitError::Unknown { status_code: 7 })
    );
    assert_eq!(
        exit_result_of_status(-3),
        Err(ExitError::Unknown { status_code: -3 })
    );
}

#[test]
fn spawn_args_reject_empty_port_range() {
    let mut s = WorkerSettings::default();
    s.rtc_ports_range = PortRange { start: 2, end: 1 };
    assert_eq!(
        worker_spawn_args(&s),
        Err(WorkerSpawnError::InvalidRtcPortsRange)
    );
}

#[test]
fn spawn_args_render_settings() {
    let mut s = WorkerSettings::default();
    s.log_level = WorkerLogLevel::Warn;
    s.log_tags = vec![WorkerLogTag::Ice, WorkerLogTag::Sctp];
    s.rtc_ports_range = PortRange { start: 20000, end: 29999 };
    s.dtls_files = Some(WorkerDtlsFiles {
        certificate: String::from("/tmp/cert.pem"),
        private_key: String::from("/tmp/key.pem"),
    });
    let args = worker_spawn_args(&s).unwrap();
    assert_eq!(
        args,
        vec![
            String::from("--logLevel=warn"),
            String::from("--logTag=ice"),
            String::from("--logTag=sctp"),
            String::from("--rtcMinPort=20000"),
            String::from("--rtcMaxPort=29999"),
            String::from("--dtlsCertificateFile=/tmp/cert.pem"),
            String::from("--dtlsPrivateKeyFile=/tmp/key.pem"),
        ]
    );
}
