//! RTP capability and parameter value types exchanged with endpoints.

use vstd::prelude::*;

verus! {

/// The RTP capabilities define what the router or an endpoint can
/// receive at media level.
#[derive(Debug, Clone, PartialEq, Eq)]
pub struct RtpCapabilities {
    /// Supported media and RTX codecs.
    pub codecs: Option<Vec<RtpCodecCapability>>,
    /// Supported RTP header extensions.
    pub header_extensions: Option<Vec<RtpHeaderExtension>>,
    /// Supported FEC mechanisms.
    pub fec_mechanisms: Option<Vec<String>>,
}

impl Default for RtpCapabilities {
    /// No capability at all.
    fn default() -> (r: Self)
        ensures
            r.codecs is None,
            r.header_extensions is None,
            r.fec_mechanisms is None,
    {
        RtpCapabilities { codecs: None, header_extensions: None, fec_mechanisms: None }
    }
}

/// Media kind.
#[derive(Debug, Copy, Clone, Eq, PartialEq, Hash, Structural)]
pub enum MediaKind {
    /// Audio.
    Audio,
    /// Video.
    Video,
}

/// Capabilities of one codec the router supports.
#[derive(Debug, Clone, PartialEq, Eq)]
pub struct RtpCodecCapability {
    /// Media kind.
    pub kind: MediaKind,
    /// The codec MIME media type and subtype, such as `audio/opus` or
    /// `video/VP8`.
    pub mime_type: String,
    /// The preferred RTP payload type.
    pub preferred_payload_type: Option<u32>,
    /// Codec clock rate expressed in Hertz.
    pub clock_rate: u32,
    /// The number of channels supported; audio only. Default one.
    pub channels: Option<u8>,
    /// Codec specific parameters as name-value pairs; some, such as
    /// `packetization-mode` and `profile-level-id` in H264, are
    /// critical for codec matching.
    pub parameters: Vec<(String, String)>,
    /// Transport layer and codec-specific feedback messages for this
    /// codec.
    pub rtcp_feedback: Option<Vec<RtcpFeedback>>,
}

/// Direction of an RTP header extension.
#[derive(Debug, Copy, Clone, Eq, PartialEq, Hash, Structural)]
pub enum RtpHeaderExtensionDirection {
    /// The router can send and receive the extension.
    SendRecv,
    /// The router can only send the extension.
    SendOnly,
    /// The router can only receive the extension.
    RecvOnly,
    /// The extension is not active.
    Inactive,
}

/// One RTP header extension the router supports.
#[derive(Debug, Clone, Eq, PartialEq, Hash)]
pub struct RtpHeaderExtension {
    /// Media kind the extension applies to; `None` means every kind.
    pub kind: Option<MediaKind>,
    /// The URI of the RTP header extension, as defined in RFC 5285.
    pub uri: String,
    /// The preferred numeric identifier in the RTP packet. Unique.
    pub preferred_id: u16,
    /// Whether it is preferred that the header value be encrypted as
    /// per RFC 6904. Default false.
    pub preferred_encrypt: bool,
    /// Whether the router can send, receive, or both, this extension.
    pub direction: RtpHeaderExtensionDirection,
}

/// The RTP parameters describing a media stream.
#[derive(Debug, Clone, PartialEq)]
pub struct RtpParameters {
    /// The MID RTP extension value as defined in the BUNDLE
    /// specification.
    pub mid: Option<String>,
    /// Media and RTX codecs in use.
    pub codecs: Vec<RtpCodecParameters>,
    /// RTP header extensions in use.
    pub header_extensions: Option<Vec<RtpHeaderExtensionParameters>>,
    /// Transmitted RTP streams and their settings.
    pub encodings: Option<Vec<RtpEncodingParameters>>,
    /// Parameters used for RTCP.
    pub rtcp: Option<RtcpParameters>,
}

impl Default for RtpParameters {
    /// No stream described.
    fn default() -> (r: Self)
        ensures
            r.mid is None,
            r.codecs@.len() == 0,
            r.header_extensions is None,
            r.encodings is None,
            r.rtcp is None,
    {
        RtpParameters {
            mid: None,
            codecs: Vec::new(),
            header_extensions: None,
            encodings: None,
            rtcp: None,
        }
    }
}

/// Settings of one codec within RTP parameters.
#[derive(Debug, Clone, PartialEq, Eq)]
pub struct RtpCodecParameters {
    /// The codec MIME media type and subtype.
    pub mime_type: String,
    /// The value of the RTP payload type field. Unique.
    pub payload_type: u8,
    /// Codec clock rate expressed in Hertz.
    pub clock_rate: u32,
    /// The number of channels supported; audio only. Default one.
    pub channels: Option<u8>,
    /// Codec-specific parameters available for signalling, as
    /// name-value pairs.
    pub parameters: Vec<(String, String)>,
    /// Transport layer and codec-specific feedback messages for this
    /// codec.
    pub rtcp_feedback: Option<Vec<RtcpFeedback>>,
}

/// One RTCP feedback message a codec supports.
#[derive(Debug, Clone, Eq, PartialEq, Hash)]
pub struct RtcpFeedback {
    /// RTCP feedback type.
    pub feedback_type: String,
    /// RTCP feedback parameter.
    pub parameter: Option<String>,
}

/// RTX stream information of an encoding.
#[derive(Debug, Copy, Clone, Eq, PartialEq, Hash, Structural)]
pub struct RtpEncodingParametersRtx {
    /// The RTX SSRC.
    pub ssrc: u32,
}

/// Settings of one encoding: a media RTP stream and its associated RTX
/// stream, if any.
#[derive(Debug, Clone, PartialEq)]
pub struct RtpEncodingParameters {
    /// The media SSRC.
    pub ssrc: Option<u32>,
    /// The RID RTP extension value. Unique.
    pub rid: Option<String>,
    /// Codec payload type this encoding affects; defaults to the first
    /// media codec.
    pub codec_payload_type: Option<u8>,
    /// RTX stream information.
    pub rtx: Option<RtpEncodingParametersRtx>,
    /// Whether discontinuous RTP transmission is used. Default false.
    pub dtx: Option<bool>,
    /// Number of spatial and temporal layers in the RTP stream, such as
    /// `L1T3`.
    pub scalability_mode: Option<String>,
    /// Upper bitrate bound for this encoding.
    pub max_bitrate: Option<u32>,
}

/// One RTP header extension within RTP parameters.
#[derive(Debug, Clone, Eq, PartialEq)]
pub struct RtpHeaderExtensionParameters {
    /// The URI of the RTP header extension, as defined in RFC 5285.
    pub uri: String,
    /// The numeric identifier in the RTP packet. Unique.
    pub id: u16,
    /// Whether the header value is encrypted as per RFC 6904. Default
    /// false.
    pub encrypt: Option<bool>,
    /// Configuration parameters of the extension, as name-value pairs.
    pub parameters: Vec<(String, String)>,
}

/// RTCP settings within RTP parameters.
#[derive(Debug, Clone, Eq, PartialEq, Hash)]
pub struct RtcpParameters {
    /// The Canonical Name (CNAME) used by RTCP.
    pub cname: Option<String>,
    /// Whether reduced size RTCP (RFC 5506) is configured, rather than
    /// compound RTCP (RFC 3550). Default true.
    pub reduced_size: Option<bool>,
    /// Whether RTCP-mux is used. Default true.
    pub mux: Option<bool>,
}

} // verus!
