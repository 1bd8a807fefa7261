use mediasoup::rtp_parameters::{
    MediaKind, RtcpFeedback, RtpCapabilities, RtpCodecCapability, RtpHeaderExtensionDirection,
};
use mediasoup::supported_rtp_capabilities::get_supported_rtp_capabilities;

fn fb(t: &str, p: Option<&str>) -> RtcpFeedback {
    RtcpFeedback { feedback_type: String::from(t), parameter: p.map(String::from) }
}

fn video_feedback() -> Vec<RtcpFeedback> {
    vec![
        fb("nack", None),
        fb("nack", Some("pli")),
        fb("ccm", Some("fir")),
        fb("goog-remb", None),
        fb("transport-cc", None),
    ]
}

fn check_audio(
    c: &RtpCodecCapability,
    mime: &str,
    ppt: Option<u32>,
    rate: u32,
    channels: u8,
    with_tcc: bool,
) {
    assert_eq!(c.kind, MediaKind::Audio);
    assert_eq!(c.mime_type, mime);
    assert_eq!(c.preferred_payload_type, ppt);
    assert_eq!(c.clock_rate, rate);
    assert_eq!(c.channels, Some(channels));
    assert!(c.parameters.is_empty());
    let expected = if with_tcc { vec![fb("transport-cc", None)] } else { vec![] };
    assert_eq!(c.rtcp_feedback, Some(expected));
}

fn check_video(c: &RtpCodecCapability, mime: &str, parameters: &[(String, String)]) {
    assert_eq!(c.kind, MediaKind::Video);
    assert_eq!(c.mime_type, mime);
    assert_eq!(c.preferred_payload_type, None);
    assert_eq!(c.clock_rate, 90000);
    assert_eq!(c.channels, None);
    assert_eq!(&c.parameters, parameters);
    assert_eq!(c.rtcp_feedback, Some(video_feedback()));
}

fn h26x_parameters(packetization_mode: &str) -> Vec<(String, String)> {
    vec![
        (String::from("packetization-mode"), String::from(packetization_mode)),
        (String::from("level-asymmetry-allowed"), String::from("1")),
    ]
}

#[test]
fn supported_codecs_list_every_entry() {
    let caps: RtpCapabilities = get_supported_rtp_capabilities();
    let cs = caps.codecs.expect("codec table");
    assert_eq!(cs.len(), 24);
    check_audio(&cs[0], "audio/opus", None, 48000, 2, true);
    check_audio(&cs[1], "audio/PCMU", Some(0), 8000, 1, true);
    check_audio(&cs[2], "audio/PCMA", Some(8), 8000, 1, true);
    check_audio(&cs[3], "audio/ISAC", None, 32000, 1, true);
    check_audio(&cs[4], "audio/ISAC", None, 16000, 1, true);
    check_audio(&cs[5], "audio/G722", Some(9), 8000, 1, true);
    check_audio(&cs[6], "audio/iLBC", None, 8000, 1, true);
    check_audio(&cs[7], "audio/SILK", None, 24000, 1, true);
    check_audio(&cs[8], "audio/SILK", None, 16000, 1, true);
    check_audio(&cs[9], "audio/SILK", None, 12000, 1, true);
    check_audio(&cs[10], "audio/SILK", None, 8000, 1, true);
    check_audio(&cs[11], "audio/CN", Some(13), 32000, 1, false);
    check_audio(&cs[12], "audio/CN", Some(13), 16000, 1, false);
    check_audio(&cs[13], "audio/CN", Some(13), 8000, 1, false);
    check_audio(&cs[14], "audio/telephone-event", None, 48000, 1, false);
    check_audio(&cs[15], "audio/telephone-event", None, 32000, 1, false);
    check_audio(&cs[16], "audio/telephone-event", None, 16000, 1, false);
    check_audio(&cs[17], "audio/telephone-event", None, 8000, 1, false);
    check_video(&cs[18], "video/VP8", &[]);
    check_video(&cs[19], "video/VP9", &[]);
    check_video(&cs[20], "video/H264", &h26x_parameters("1"));
    check_video(&cs[21], "video/H264", &h26x_parameters("0"));
    check_video(&cs[22], "video/H265", &h26x_parameters("1"));
    check_video(&cs[23], "video/H265", &h26x_parameters("0"));
}

#[test]
fn supported_header_extensions_list_every_entry() {
    let caps = get_supported_rtp_capabilities();
    let es = caps.header_extensions.expect("extension table");
    let expected: Vec<(Option<MediaKind>, &str, u16, RtpHeaderExtensionDirection)> = vec![
        (Some(MediaKind::Audio), "urn:ietf:params:rtp-hdrext:sdes:mid", 1, RtpHeaderExtensionDirection::SendRecv),
        (Some(MediaKind::Video), "urn:ietf:params:rtp-hdrext:sdes:mid", 1, RtpHeaderExtensionDirection::SendRecv),
        (Some(MediaKind::Video), "urn:ietf:params:rtp-hdrext:sdes:rtp-stream-id", 2, RtpHeaderExtensionDirection::RecvOnly),
        (Some(MediaKind::Video), "urn:ietf:params:rtp-hdrext:sdes:repaired-rtp-stream-id", 3, RtpHeaderExtensionDirection::RecvOnly),
        (Some(MediaKind::Audio), "http://www.webrtc.org/experiments/rtp-hdrext/abs-send-time", 4, RtpHeaderExtensionDirection::SendRecv),
        (Some(MediaKind::Video), "http://www.webrtc.org/experiments/rtp-hdrext/abs-send-time", 4, RtpHeaderExtensionDirection::SendRecv),
        (Some(MediaKind::Audio), "http://www.ietf.org/id/draft-holmer-rmcat-transport-wide-cc-extensions-01", 5, RtpHeaderExtensionDirection::RecvOnly),
        (Some(MediaKind::Video), "http://www.ietf.org/id/draft-holmer-rmcat-transport-wide-cc-extensions-01", 5, RtpHeaderExtensionDirection::SendRecv),
        (Some(MediaKind::Video), "http://tools.ietf.org/html/draft-ietf-avtext-framemarking-07", 6, RtpHeaderExtensionDirection::SendRecv),
        (Some(MediaKind::Video), "urn:ietf:params:rtp-hdrext:framemarking", 7, RtpHeaderExtensionDirection::SendRecv),
        (Some(MediaKind::Audio), "urn:ietf:params:rtp-hdrext:ssrc-audio-level", 10, RtpHeaderExtensionDirection::SendRecv),
        (Some(MediaKind::Video), "urn:3gpp:video-orientation", 11, RtpHeaderExtensionDirection::SendRecv),
        (Some(MediaKind::Video), "urn:ietf:params:rtp-hdrext:toffset", 12, RtpHeaderExtensionDirection::SendRecv),
    ];
    assert_eq!(es.len(), expected.len());
    for (e, (kind, uri, preferred_id, direction)) in es.iter().zip(expected) {
        assert_eq!(e.kind, kind);
        assert_eq!(e.uri, uri);
        assert_eq!(e.preferred_id, preferred_id);
        assert!(!e.preferred_encrypt);
        assert_eq!(e.direction, direction);
    }
    assert_eq!(caps.fec_mechanisms, Some(vec![]));
}
