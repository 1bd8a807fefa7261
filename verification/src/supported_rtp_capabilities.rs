//! The RTP capabilities the router itself supports.

use vstd::prelude::*;
use vstd::string::StringExecFns;
use crate::rtp_parameters::{
    MediaKind,
    RtcpFeedback,
    RtpCapabilities,
    RtpCodecCapability,
    RtpHeaderExtension,
    RtpHeaderExtensionDirection,
};

verus! {

/// Basic fields of one codec capability.
pub open spec fn codec_is(
    c: RtpCodecCapability,
    kind: MediaKind,
    mime: Seq<char>,
    preferred_payload_type: Option<u32>,
    clock_rate: u32,
    channels: Option<u8>,
) -> bool {
    &&& c.kind == kind
    &&& c.mime_type@ == mime
    &&& c.preferred_payload_type == preferred_payload_type
    &&& c.clock_rate == clock_rate
    &&& c.channels == channels
}

/// A codec with no codec-specific parameter.
pub open spec fn no_parameters(c: RtpCodecCapability) -> bool {
    c.parameters@.len() == 0
}

/// The two codec-matching parameters every H264 and H265 entry pins:
/// its packetization mode and that level asymmetry is allowed.
pub open spec fn h26x_parameters_are(c: RtpCodecCapability, packetization_mode: Seq<char>) -> bool {
    &&& c.parameters@.len() == 2
    &&& c.parameters@[0].0@ == "packetization-mode"@
    &&& c.parameters@[0].1@ == packetization_mode
    &&& c.parameters@[1].0@ == "level-asymmetry-allowed"@
    &&& c.parameters@[1].1@ == "1"@
}

/// One RTCP feedback entry.
pub open spec fn fb_is(f: RtcpFeedback, t: Seq<char>, parameter: Option<Seq<char>>) -> bool {
    &&& f.feedback_type@ == t
    &&& match (f.parameter, parameter) {
        (Some(p), Some(q)) => p@ == q,
        (None, None) => true,
        _ => false,
    }
}

/// Feedback of the audio codecs that support congestion control:
/// transport-cc alone.
pub open spec fn transport_cc_only(fb: Option<Vec<RtcpFeedback>>) -> bool {
    fb matches Some(v) && v@.len() == 1 && fb_is(v@[0], "transport-cc"@, None)
}

/// No feedback at all, as an empty list.
pub open spec fn no_feedback(fb: Option<Vec<RtcpFeedback>>) -> bool {
    fb matches Some(v) && v@.len() == 0
}

/// Feedback of every video codec: nack, nack pli, ccm fir, goog-remb
/// and transport-cc, in that order.
pub open spec fn full_video_feedback(fb: Option<Vec<RtcpFeedback>>) -> bool {
    &&& fb matches Some(v)
    &&& fb matches Some(v) ==> {
        &&& v@.len() == 5
        &&& fb_is(v@[0], "nack"@, None)
        &&& fb_is(v@[1], "nack"@, Some("pli"@))
        &&& fb_is(v@[2], "ccm"@, Some("fir"@))
        &&& fb_is(v@[3], "goog-remb"@, None)
        &&& fb_is(v@[4], "transport-cc"@, None)
    }
}

/// One header extension entry; encryption is never preferred.
pub open spec fn ext_is(
    e: RtpHeaderExtension,
    kind: Option<MediaKind>,
    uri: Seq<char>,
    preferred_id: u16,
    direction: RtpHeaderExtensionDirection,
) -> bool {
    &&& e.kind == kind
    &&& e.uri@ == uri
    &&& e.preferred_id == preferred_id
    &&& !e.preferred_encrypt
    &&& e.direction == direction
}

/// The complete codec table the router supports, in order.
pub open spec fn supported_codecs_listed(cs: Seq<RtpCodecCapability>) -> bool {
    &&& cs.len() == 24
    &&& codec_is(cs[0], MediaKind::Audio, "audio/opus"@, None, 48000, Some(2))
    &&& transport_cc_only(cs[0].rtcp_feedback)
    &&& no_parameters(cs[0])
    &&& codec_is(cs[1], MediaKind::Audio, "audio/PCMU"@, Some(0), 8000, Some(1))
    &&& transport_cc_only(cs[1].rtcp_feedback)
    &&& no_parameters(cs[1])
    &&& codec_is(cs[2], MediaKind::Audio, "audio/PCMA"@, Some(8), 8000, Some(1))
    &&& transport_cc_only(cs[2].rtcp_feedback)
    &&& no_parameters(cs[2])
    &&& codec_is(cs[3], MediaKind::Audio, "audio/ISAC"@, None, 32000, Some(1))
    &&& transport_cc_only(cs[3].rtcp_feedback)
    &&& no_parameters(cs[3])
    &&& codec_is(cs[4], MediaKind::Audio, "audio/ISAC"@, None, 16000, Some(1))
    &&& transport_cc_only(cs[4].rtcp_feedback)
    &&& no_parameters(cs[4])
    &&& codec_is(cs[5], MediaKind::Audio, "audio/G722"@, Some(9), 8000, Some(1))
    &&& transport_cc_only(cs[5].rtcp_feedback)
    &&& no_parameters(cs[5])
    &&& codec_is(cs[6], MediaKind::Audio, "audio/iLBC"@, None, 8000, Some(1))
    &&& transport_cc_only(cs[6].rtcp_feedback)
    &&& no_parameters(cs[6])
    &&& codec_is(cs[7], MediaKind::Audio, "audio/SILK"@, None, 24000, Some(1))
    &&& transport_cc_only(cs[7].rtcp_feedback)
    &&& no_parameters(cs[7])
    &&& codec_is(cs[8], MediaKind::Audio, "audio/SILK"@, None, 16000, Some(1))
    &&& transport_cc_only(cs[8].rtcp_feedback)
    &&& no_parameters(cs[8])
    &&& codec_is(cs[9], MediaKind::Audio, "audio/SILK"@, None, 12000, Some(1))
    &&& transport_cc_only(cs[9].rtcp_feedback)
    &&& no_parameters(cs[9])
    &&& codec_is(cs[10], MediaKind::Audio, "audio/SILK"@, None, 8000, Some(1))
    &&& transport_cc_only(cs[10].rtcp_feedback)
    &&& no_parameters(cs[10])
    &&& codec_is(cs[11], MediaKind::Audio, "audio/CN"@, Some(13), 32000, Some(1))
    &&& no_feedback(cs[11].rtcp_feedback)
    &&& no_parameters(cs[11])
    &&& codec_is(cs[12], MediaKind::Audio, "audio/CN"@, Some(13), 16000, Some(1))
    &&& no_feedback(cs[12].rtcp_feedback)
    &&& no_parameters(cs[12])
    &&& codec_is(cs[13], MediaKind::Audio, "audio/CN"@, Some(13), 8000, Some(1))
    &&& no_feedback(cs[13].rtcp_feedback)
    &&& no_parameters(cs[13])
    &&& codec_is(cs[14], MediaKind::Audio, "audio/telephone-event"@, None, 48000, Some(1))
    &&& no_feedback(cs[14].rtcp_feedback)
    &&& no_parameters(cs[14])
    &&& codec_is(cs[15], MediaKind::Audio, "audio/telephone-event"@, None, 32000, Some(1))
    &&& no_feedback(cs[15].rtcp_feedback)
    &&& no_parameters(cs[15])
    &&& codec_is(cs[16], MediaKind::Audio, "audio/telephone-event"@, None, 16000, Some(1))
    &&& no_feedback(cs[16].rtcp_feedback)
    &&& no_parameters(cs[16])
    &&& codec_is(cs[17], MediaKind::Audio, "audio/telephone-event"@, None, 8000, Some(1))
    &&& no_feedback(cs[17].rtcp_feedback)
    &&& no_parameters(cs[17])
    &&& codec_is(cs[18], MediaKind::Video, "video/VP8"@, None, 90000, None)
    &&& full_video_feedback(cs[18].rtcp_feedback)
    &&& no_parameters(cs[18])
    &&& codec_is(cs[19], MediaKind::Video, "video/VP9"@, None, 90000, None)
    &&& full_video_feedback(cs[19].rtcp_feedback)
    &&& no_parameters(cs[19])
    &&& codec_is(cs[20], MediaKind::Video, "video/H264"@, None, 90000, None)
    &&& full_video_feedback(cs[20].rtcp_feedback)
    &&& h26x_parameters_are(cs[20], "1"@)
    &&& codec_is(cs[21], MediaKind::Video, "video/H264"@, None, 90000, None)
    &&& full_video_feedback(cs[21].rtcp_feedback)
    &&& h26x_parameters_are(cs[21], "0"@)
    &&& codec_is(cs[22], MediaKind::Video, "video/H265"@, None, 90000, None)
    &&& full_video_feedback(cs[22].rtcp_feedback)
    &&& h26x_parameters_are(cs[22], "1"@)
    &&& codec_is(cs[23], MediaKind::Video, "video/H265"@, None, 90000, None)
    &&& full_video_feedback(cs[23].rtcp_feedback)
    &&& h26x_parameters_are(cs[23], "0"@)
}

/// The complete header extension table the router supports, in order.
pub open spec fn supported_extensions_listed(es: Seq<RtpHeaderExtension>) -> bool {
    &&& es.len() == 13
    &&& ext_is(es[0], Some(MediaKind::Audio), "urn:ietf:params:rtp-hdrext:sdes:mid"@, 1, RtpHeaderExtensionDirection::SendRecv)
    &&& ext_is(es[1], Some(MediaKind::Video), "urn:ietf:params:rtp-hdrext:sdes:mid"@, 1, RtpHeaderExtensionDirection::SendRecv)
    &&& ext_is(es[2], Some(MediaKind::Video), "urn:ietf:params:rtp-hdrext:sdes:rtp-stream-id"@, 2, RtpHeaderExtensionDirection::RecvOnly)
    &&& ext_is(es[3], Some(MediaKind::Video), "urn:ietf:params:rtp-hdrext:sdes:repaired-rtp-stream-id"@, 3, RtpHeaderExtensionDirection::RecvOnly)
    &&& ext_is(es[4], Some(MediaKind::Audio), "http://www.webrtc.org/experiments/rtp-hdrext/abs-send-time"@, 4, RtpHeaderExtensionDirection::SendRecv)
    &&& ext_is(es[5], Some(MediaKind::Video), "http://www.webrtc.org/experiments/rtp-hdrext/abs-send-time"@, 4, RtpHeaderExtensionDirection::SendRecv)
    &&& ext_is(es[6], Some(MediaKind::Audio), "http://www.ietf.org/id/draft-holmer-rmcat-transport-wide-cc-extensions-01"@, 5, RtpHeaderExtensionDirection::RecvOnly)
    &&& ext_is(es[7], Some(MediaKind::Video), "http://www.ietf.org/id/draft-holmer-rmcat-transport-wide-cc-extensions-01"@, 5, RtpHeaderExtensionDirection::SendRecv)
    &&& ext_is(es[8], Some(MediaKind::Video), "http://tools.ietf.org/html/draft-ietf-avtext-framemarking-07"@, 6, RtpHeaderExtensionDirection::SendRecv)
    &&& ext_is(es[9], Some(MediaKind::Video), "urn:ietf:params:rtp-hdrext:framemarking"@, 7, RtpHeaderExtensionDirection::SendRecv)
    &&& ext_is(es[10], Some(MediaKind::Audio), "urn:ietf:params:rtp-hdrext:ssrc-audio-level"@, 10, RtpHeaderExtensionDirection::SendRecv)
    &&& ext_is(es[11], Some(MediaKind::Video), "urn:3gpp:video-orientation"@, 11, RtpHeaderExtensionDirection::SendRecv)
    &&& ext_is(es[12], Some(MediaKind::Video), "urn:ietf:params:rtp-hdrext:toffset"@, 12, RtpHeaderExtensionDirection::SendRecv)
}

/// The transport-cc feedback list.
fn transport_cc_feedback() -> (r: Vec<RtcpFeedback>)
    ensures
        r@.len() == 1,
        fb_is(r@[0], "transport-cc"@, None),
{
    let mut v: Vec<RtcpFeedback> = Vec::new();
    v.push(RtcpFeedback { feedback_type: String::from_str("transport-cc"), parameter: None });
    v
}

/// The feedback list of every video codec.
fn video_feedback() -> (r: Vec<RtcpFeedback>)
    ensures
        r@.len() == 5,
        fb_is(r@[0], "nack"@, None),
        fb_is(r@[1], "nack"@, Some("pli"@)),
        fb_is(r@[2], "ccm"@, Some("fir"@)),
        fb_is(r@[3], "goog-remb"@, None),
        fb_is(r@[4], "transport-cc"@, None),
{
    let mut v: Vec<RtcpFeedback> = Vec::new();
    v.push(RtcpFeedback { feedback_type: String::from_str("nack"), parameter: None });
    v.push(RtcpFeedback {
        feedback_type: String::from_str("nack"),
        parameter: Some(String::from_str("pli")),
    });
    v.push(RtcpFeedback {
        feedback_type: String::from_str("ccm"),
        parameter: Some(String::from_str("fir")),
    });
    v.push(RtcpFeedback { feedback_type: String::from_str("goog-remb"), parameter: None });
    v.push(RtcpFeedback { feedback_type: String::from_str("transport-cc"), parameter: None });
    v
}

/// One audio codec entry; none carries codec-specific parameters.
fn audio_codec(
    mime: &str,
    preferred_payload_type: Option<u32>,
    clock_rate: u32,
    channels: u8,
    rtcp_feedback: Vec<RtcpFeedback>,
) -> (r: RtpCodecCapability)
    ensures
        codec_is(r, MediaKind::Audio, mime@, preferred_payload_type, clock_rate, Some(channels)),
        no_parameters(r),
        r.rtcp_feedback == Some(rtcp_feedback),
{
    RtpCodecCapability {
        kind: MediaKind::Audio,
        mime_type: String::from_str(mime),
        preferred_payload_type,
        clock_rate,
        channels: Some(channels),
        parameters: Vec::new(),
        rtcp_feedback: Some(rtcp_feedback),
    }
}

/// One video codec entry without parameters; the clock rate of every
/// video codec is 90000 and no preferred payload type is pinned.
fn video_codec(mime: &str, rtcp_feedback: Vec<RtcpFeedback>) -> (r: RtpCodecCapability)
    ensures
        codec_is(r, MediaKind::Video, mime@, None, 90000, None),
        no_parameters(r),
        r.rtcp_feedback == Some(rtcp_feedback),
{
    RtpCodecCapability {
        kind: MediaKind::Video,
        mime_type: String::from_str(mime),
        preferred_payload_type: None,
        clock_rate: 90000,
        channels: None,
        parameters: Vec::new(),
        rtcp_feedback: Some(rtcp_feedback),
    }
}

/// One video codec entry carrying the H264 and H265 matching
/// parameters: the packetization mode and allowed level asymmetry.
fn video_codec_with_parameters(
    mime: &str,
    packetization_mode: &str,
    rtcp_feedback: Vec<RtcpFeedback>,
) -> (r: RtpCodecCapability)
    ensures
        codec_is(r, MediaKind::Video, mime@, None, 90000, None),
        h26x_parameters_are(r, packetization_mode@),
        r.rtcp_feedback == Some(rtcp_feedback),
{
    let mut parameters: Vec<(String, String)> = Vec::new();
    parameters.push(
        (String::from_str("packetization-mode"), String::from_str(packetization_mode)),
    );
    parameters.push((String::from_str("level-asymmetry-allowed"), String::from_str("1")));
    RtpCodecCapability {
        kind: MediaKind::Video,
        mime_type: String::from_str(mime),
        preferred_payload_type: None,
        clock_rate: 90000,
        channels: None,
        parameters,
        rtcp_feedback: Some(rtcp_feedback),
    }
}

/// One header extension entry.
fn header_extension(
    kind: Option<MediaKind>,
    uri: &str,
    preferred_id: u16,
    direction: RtpHeaderExtensionDirection,
) -> (r: RtpHeaderExtension)
    ensures
        ext_is(r, kind, uri@, preferred_id, direction),
{
    RtpHeaderExtension {
        kind,
        uri: String::from_str(uri),
        preferred_id,
        preferred_encrypt: false,
        direction,
    }
}

/// The RTP capabilities the router supports: the full codec table with
/// each entry's feedback and codec-matching parameters, the full header
/// extension table, and no FEC mechanism.
///
/// These are not the capabilities an endpoint library loads its device
/// with; endpoints use the capabilities of the router they talk to.
#[verifier::rlimit(50)]
pub fn get_supported_rtp_capabilities() -> (r: RtpCapabilities)
    ensures
        r.codecs matches Some(cs) && supported_codecs_listed(cs@),
        r.header_extensions matches Some(es) && supported_extensions_listed(es@),
        r.fec_mechanisms matches Some(f) && f@.len() == 0,
{
    let mut codecs: Vec<RtpCodecCapability> = Vec::new();
    codecs.push(audio_codec("audio/opus", None, 48000, 2, transport_cc_feedback()));
    codecs.push(audio_codec("audio/PCMU", Some(0), 8000, 1, transport_cc_feedback()));
    codecs.push(audio_codec("audio/PCMA", Some(8), 8000, 1, transport_cc_feedback()));
    codecs.push(audio_codec("audio/ISAC", None, 32000, 1, transport_cc_feedback()));
    codecs.push(audio_codec("audio/ISAC", None, 16000, 1, transport_cc_feedback()));
    codecs.push(audio_codec("audio/G722", Some(9), 8000, 1, transport_cc_feedback()));
    codecs.push(audio_codec("audio/iLBC", None, 8000, 1, transport_cc_feedback()));
    codecs.push(audio_codec("audio/SILK", None, 24000, 1, transport_cc_feedback()));
    codecs.push(audio_codec("audio/SILK", None, 16000, 1, transport_cc_feedback()));
    codecs.push(audio_codec("audio/SILK", None, 12000, 1, transport_cc_feedback()));
    codecs.push(audio_codec("audio/SILK", None, 8000, 1, transport_cc_feedback()));
    codecs.push(audio_codec("audio/CN", Some(13), 32000, 1, Vec::new()));
    codecs.push(audio_codec("audio/CN", Some(13), 16000, 1, Vec::new()));
    codecs.push(audio_codec("audio/CN", Some(13), 8000, 1, Vec::new()));
    codecs.push(audio_codec("audio/telephone-event", None, 48000, 1, Vec::new()));
    codecs.push(audio_codec("audio/telephone-event", None, 32000, 1, Vec::new()));
    codecs.push(audio_codec("audio/telephone-event", None, 16000, 1, Vec::new()));
    codecs.push(audio_codec("audio/telephone-event", None, 8000, 1, Vec::new()));
    codecs.push(video_codec("video/VP8", video_feedback()));
    codecs.push(video_codec("video/VP9", video_feedback()));
    codecs.push(video_codec_with_parameters("video/H264", "1", video_feedback()));
    codecs.push(video_codec_with_parameters("video/H264", "0", video_feedback()));
    codecs.push(video_codec_with_parameters("video/H265", "1", video_feedback()));
    codecs.push(video_codec_with_parameters("video/H265", "0", video_feedback()));

    let mut extensions: Vec<RtpHeaderExtension> = Vec::new();
    extensions.push(header_extension(Some(MediaKind::Audio), "urn:ietf:params:rtp-hdrext:sdes:mid", 1, RtpHeaderExtensionDirection::SendRecv));
    extensions.push(header_extension(Some(MediaKind::Video), "urn:ietf:params:rtp-hdrext:sdes:mid", 1, RtpHeaderExtensionDirection::SendRecv));
    extensions.push(header_extension(Some(MediaKind::Video), "urn:ietf:params:rtp-hdrext:sdes:rtp-stream-id", 2, RtpHeaderExtensionDirection::RecvOnly));
    extensions.push(header_extension(Some(MediaKind::Video), "urn:ietf:params:rtp-hdrext:sdes:repaired-rtp-stream-id", 3, RtpHeaderExtensionDirection::RecvOnly));
    extensions.push(header_extension(Some(MediaKind::Audio), "http://www.webrtc.org/experiments/rtp-hdrext/abs-send-time", 4, RtpHeaderExtensionDirection::SendRecv));
    extensions.push(header_extension(Some(MediaKind::Video), "http://www.webrtc.org/experiments/rtp-hdrext/abs-send-time", 4, RtpHeaderExtensionDirection::SendRecv));
    extensions.push(header_extension(Some(MediaKind::Audio), "http://www.ietf.org/id/draft-holmer-rmcat-transport-wide-cc-extensions-01", 5, RtpHeaderExtensionDirection::RecvOnly));
    extensions.push(header_extension(Some(MediaKind::Video), "http://www.ietf.org/id/draft-holmer-rmcat-transport-wide-cc-extensions-01", 5, RtpHeaderExtensionDirection::SendRecv));
    extensions.push(header_extension(Some(MediaKind::Video), "http://tools.ietf.org/html/draft-ietf-avtext-framemarking-07", 6, RtpHeaderExtensionDirection::SendRecv));
    extensions.push(header_extension(Some(MediaKind::Video), "urn:ietf:params:rtp-hdrext:framemarking", 7, RtpHeaderExtensionDirection::SendRecv));
    extensions.push(header_extension(Some(MediaKind::Audio), "urn:ietf:params:rtp-hdrext:ssrc-audio-level", 10, RtpHeaderExtensionDirection::SendRecv));
    extensions.push(header_extension(Some(MediaKind::Video), "urn:3gpp:video-orientation", 11, RtpHeaderExtensionDirection::SendRecv));
    extensions.push(header_extension(Some(MediaKind::Video), "urn:ietf:params:rtp-hdrext:toffset", 12, RtpHeaderExtensionDirection::SendRecv));

    RtpCapabilities {
        codecs: Some(codecs),
        header_extensions: Some(extensions),
        fec_mechanisms: Some(Vec::new()),
    }
}

} // verus!
