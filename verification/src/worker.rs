//! Worker-session value types: error taxonomy, logging configuration,
//! settings, and the arguments the subprocess is started with.

use vstd::prelude::*;
use vstd::string::StringExecFns;
use vstd::utf8::encode_utf8;
use crate::channel::Channel;
use crate::data_structures::AppData;
use crate::frame::{frame_bytes, encode_frame, MESSAGE_MAX_LEN};
use crate::graph::{
    Graph,
    CloseAction,
    CloseTrigger,
    ResourceKind,
    graph_well_formed,
    closed_after,
    close_actions,
    all_closed,
    close_all_actions,
};
use crate::ids::{RouterId, TransportId, DataProducerId, DataConsumerId, SubscriptionTarget};
use crate::messages::{
    RequestKind,
    plain_request_chars,
    build_plain_request,
    RouterInternal,
    DataProducerInternal,
    DataConsumerInternal,
    router_internal_json,
    router_internal_chars,
    method_chars,
    request_chars,
    build_request,
    data_producer_internal_json,
    data_consumer_internal_json,
};
use crate::registry::{
    Registry,
    registry_well_formed,
    subscribe_t,
    begin_buffering_t,
    end_buffering_t,
    dispatch_t,
    dispatch_outcome,
    DispatchOutcome,
    DispatchOutcomeView,
    QueuedNotification,
    queued_for,
};
use crate::data_producer::{DataProducer, DataProducerOptions, DataProducerType};
use crate::data_consumer::{DataConsumer, DataConsumerOptions, DataConsumerType};
use crate::data_structures::{WebRtcMessage, message_ppid, message_payload};
use crate::frame::PAYLOAD_MAX_LEN;
use crate::messages::{
    build_notification,
    notification_chars,
    ppid_data_json,
    ppid_data_chars,
    data_producer_internal_chars,
    data_consumer_internal_chars,
};
use crate::sctp_parameters::SctpStreamParameters;

verus! {

/// Error that caused a request to the worker subprocess to fail.
#[derive(Debug, Clone, PartialEq, Eq)]
pub enum RequestError {
    /// Channel already closed.
    ChannelClosed,
    /// Message is too long.
    MessageTooLong,
    /// Payload is too long.
    PayloadTooLong,
    /// Request timed out.
    TimedOut,
    /// The worker reported a failure.
    Response { reason: String },
    /// Failed to parse the response body.
    FailedToParse { error: String },
    /// The worker returned no data although a body was expected.
    NoData,
}

/// Error that caused a fire-and-forget notification to fail.
#[derive(Debug, Clone, PartialEq, Eq)]
pub enum NotificationError {
    /// Channel already closed.
    ChannelClosed,
    /// Message is too long.
    MessageTooLong,
    /// Payload is too long.
    PayloadTooLong,
}

/// Error reported when router RTP capabilities cannot be generated from
/// the requested media codecs.
#[derive(Debug, Clone, PartialEq, Eq)]
pub enum RtpCapabilitiesError {
    /// A requested codec is not supported.
    UnsupportedCodec { mime_type: String },
    /// No free payload type remained for a codec.
    CannotAllocatePayloadType,
    /// Two codecs asked for the same preferred payload type.
    DuplicatedPreferredPayloadType(u8),
}

/// Error that caused router creation to fail.
#[derive(Debug, Clone, PartialEq, Eq)]
pub enum CreateRouterError {
    /// RTP capabilities generation error.
    FailedRtpCapabilitiesGeneration(RtpCapabilitiesError),
    /// Request to the worker failed.
    Request(RequestError),
}

/// How the worker subprocess ended.
#[derive(Debug, Copy, Clone, PartialEq, Eq, Structural)]
pub enum ExitError {
    /// Generic error.
    Generic,
    /// Settings error.
    Settings,
    /// Unknown error with the given status code.
    Unknown { status_code: i32 },
    /// The worker exited unexpectedly.
    Unexpected,
}

/// Outcome the worker's exit status code maps to: zero is a clean exit,
/// one a generic error, forty-two a settings error, anything else is
/// unknown.
pub open spec fn exit_outcome(status_code: i32) -> Result<(), ExitError> {
    if status_code == 0 {
        Ok(())
    } else if status_code == 1 {
        Err(ExitError::Generic)
    } else if status_code == 42 {
        Err(ExitError::Settings)
    } else {
        Err(ExitError::Unknown { status_code })
    }
}

/// Maps the worker's exit status code to the session outcome.
pub fn exit_result_of_status(status_code: i32) -> (r: Result<(), ExitError>)
    ensures
        r == exit_outcome(status_code),
{
    if status_code == 0 {
        Ok(())
    } else if status_code == 1 {
        Err(ExitError::Generic)
    } else if status_code == 42 {
        Err(ExitError::Settings)
    } else {
        Err(ExitError::Unknown { status_code })
    }
}

/// Logging level for logs generated by the worker subprocess.
#[derive(Debug, Copy, Clone, Eq, PartialEq, Ord, PartialOrd, Hash, Structural)]
pub enum WorkerLogLevel {
    /// Log all severities.
    Debug,
    /// Log "warn" and "error" severities.
    Warn,
    /// Log "error" severity.
    Error,
    /// Do not log anything.
    Off,
}

/// The tag each logging level is written as on the command line.
pub open spec fn log_level_chars(l: WorkerLogLevel) -> Seq<char> {
    match l {
        WorkerLogLevel::Debug => "debug"@,
        WorkerLogLevel::Warn => "warn"@,
        WorkerLogLevel::Error => "error"@,
        WorkerLogLevel::Off => "none"@,
    }
}

impl Default for WorkerLogLevel {
    /// The default level logs errors only.
    fn default() -> (r: Self)
        ensures
            r == WorkerLogLevel::Error,
    {
        WorkerLogLevel::Error
    }
}

impl WorkerLogLevel {
    /// Command-line rendering of the level.
    pub fn as_str(&self) -> (r: &'static str)
        ensures
            r@ == log_level_chars(*self),
    {
        match self {
            WorkerLogLevel::Debug => "debug",
            WorkerLogLevel::Warn => "warn",
            WorkerLogLevel::Error => "error",
            WorkerLogLevel::Off => "none",
        }
    }
}

/// Log tags for debugging particular subsystems of the worker.
#[derive(Debug, Copy, Clone, Eq, PartialEq, Ord, PartialOrd, Hash, Structural)]
pub enum WorkerLogTag {
    /// Software and library versions, configuration and process information.
    Info,
    /// ICE.
    Ice,
    /// DTLS.
    Dtls,
    /// RTP.
    Rtp,
    /// SRTP encryption and decryption.
    Srtp,
    /// RTCP.
    Rtcp,
    /// RTP retransmission, including NACK, PLI and FIR.
    Rtx,
    /// Transport bandwidth estimation.
    Bwe,
    /// Scores of producers and consumers.
    Score,
    /// Video simulcast.
    Simulcast,
    /// Video SVC.
    Svc,
    /// SCTP (DataChannel).
    Sctp,
    /// Messages, either SCTP messages or direct messages.
    Message,
}

/// The tag each log tag is written as on the command line.
pub open spec fn log_tag_chars(t: WorkerLogTag) -> Seq<char> {
    match t {
        WorkerLogTag::Info => "info"@,
        WorkerLogTag::Ice => "ice"@,
        WorkerLogTag::Dtls => "dtls"@,
        WorkerLogTag::Rtp => "rtp"@,
        WorkerLogTag::Srtp => "srtp"@,
        WorkerLogTag::Rtcp => "rtcp"@,
        WorkerLogTag::Rtx => "rtx"@,
        WorkerLogTag::Bwe => "bwe"@,
        WorkerLogTag::Score => "score"@,
        WorkerLogTag::Simulcast => "simulcast"@,
        WorkerLogTag::Svc => "svc"@,
        WorkerLogTag::Sctp => "sctp"@,
        WorkerLogTag::Message => "message"@,
    }
}

impl WorkerLogTag {
    /// Command-line rendering of the tag.
    pub fn as_str(&self) -> (r: &'static str)
        ensures
            r@ == log_tag_chars(*self),
    {
        match self {
            WorkerLogTag::Info => "info",
            WorkerLogTag::Ice => "ice",
            WorkerLogTag::Dtls => "dtls",
            WorkerLogTag::Rtp => "rtp",
            WorkerLogTag::Srtp => "srtp",
            WorkerLogTag::Rtcp => "rtcp",
            WorkerLogTag::Rtx => "rtx",
            WorkerLogTag::Bwe => "bwe",
            WorkerLogTag::Score => "score",
            WorkerLogTag::Simulcast => "simulcast",
            WorkerLogTag::Svc => "svc",
            WorkerLogTag::Sctp => "sctp",
            WorkerLogTag::Message => "message",
        }
    }
}

/// DTLS certificate and private key, each as a path.
#[derive(Debug, Clone)]
pub struct WorkerDtlsFiles {
    /// Path to the DTLS public certificate file in PEM format.
    pub certificate: String,
    /// Path to the DTLS certificate private key file in PEM format.
    pub private_key: String,
}

/// Inclusive range of ports available for RTC traffic.
#[derive(Debug, Copy, Clone, PartialEq, Eq, Hash, Structural)]
pub struct PortRange {
    /// First port of the range.
    pub start: u16,
    /// Last port of the range, included.
    pub end: u16,
}

impl PortRange {
    /// An inclusive range is empty exactly when its bounds cross.
    pub open spec fn spec_is_empty(self) -> bool {
        self.start > self.end
    }

    /// Whether the range holds no port at all.
    pub fn is_empty(&self) -> (r: bool)
        ensures
            r == self.spec_is_empty(),
    {
        self.start > self.end
    }
}

/// Settings a worker is created with.
#[derive(Debug, Clone)]
pub struct WorkerSettings {
    /// Custom application data.
    pub app_data: AppData,
    /// Logging level for the worker subprocess.
    pub log_level: WorkerLogLevel,
    /// Log tags for debugging.
    pub log_tags: Vec<WorkerLogTag>,
    /// RTC ports range for ICE, DTLS, RTP and the rest.
    pub rtc_ports_range: PortRange,
    /// DTLS certificate and private key; when absent a certificate is
    /// created dynamically.
    pub dtls_files: Option<WorkerDtlsFiles>,
}

impl Default for WorkerSettings {
    /// Error-level logging, no tags, ports 10000 through 59999, dynamic
    /// DTLS certificate.
    fn default() -> (r: Self)
        ensures
            r.log_level == WorkerLogLevel::Error,
            r.log_tags@ =~= Seq::<WorkerLogTag>::empty(),
            r.rtc_ports_range == (PortRange { start: 10000, end: 59999 }),
            r.dtls_files is None,
    {
        WorkerSettings {
            app_data: AppData::default(),
            log_level: WorkerLogLevel::default(),
            log_tags: Vec::new(),
            rtc_ports_range: PortRange { start: 10000, end: 59999 },
            dtls_files: None,
        }
    }
}

/// Worker settings that can be updated at runtime.
#[derive(Debug, Clone)]
pub struct WorkerUpdateSettings {
    /// New logging level, or `None` to leave it unchanged.
    pub log_level: Option<WorkerLogLevel>,
    /// New log tags, or `None` to leave them unchanged.
    pub log_tags: Option<Vec<WorkerLogTag>>,
}

impl Default for WorkerUpdateSettings {
    /// Updates nothing.
    fn default() -> (r: Self)
        ensures
            r.log_level is None,
            r.log_tags is None,
    {
        WorkerUpdateSettings { log_level: None, log_tags: None }
    }
}

/// One log tag as a quoted JSON string.
pub open spec fn quoted_tag_chars(t: WorkerLogTag) -> Seq<char> {
    seq!['"'] + log_tag_chars(t) + seq!['"']
}

/// A JSON array of log tags, in order.
pub open spec fn log_tags_array_chars(tags: Seq<WorkerLogTag>) -> Seq<char> {
    seq!['['] + tags_inner_chars(tags) + seq![']']
}

/// The comma-separated members of the log tag array.
pub open spec fn tags_inner_chars(tags: Seq<WorkerLogTag>) -> Seq<char>
    decreases tags.len(),
{
    if tags.len() == 0 {
        Seq::empty()
    } else if tags.len() == 1 {
        quoted_tag_chars(tags[0])
    } else {
        tags_inner_chars(tags.drop_last()) + seq![','] + quoted_tag_chars(tags.last())
    }
}

/// The data body of a settings update: only the members being updated
/// appear.
pub open spec fn update_settings_chars(u: WorkerUpdateSettings) -> Seq<char> {
    match (u.log_level, u.log_tags) {
        (Option::None, Option::None) => "{}"@,
        (Option::Some(l), Option::None) => "{\"logLevel\":\""@ + log_level_chars(l) + "\"}"@,
        (Option::None, Option::Some(ts)) => "{\"logTags\":"@ + log_tags_array_chars(ts@) + seq![
            '}',
        ],
        (Option::Some(l), Option::Some(ts)) => "{\"logLevel\":\""@ + log_level_chars(l)
            + "\",\"logTags\":"@ + log_tags_array_chars(ts@) + seq!['}'],
    }
}

/// Appends the log tag array.
fn append_tags_array(s: &mut String, tags: &Vec<WorkerLogTag>)
    ensures
        final(s)@ == old(s)@ + log_tags_array_chars(tags@),
{
    proof {
        reveal_strlit("[");
        reveal_strlit("]");
        reveal_strlit(",");
        reveal_strlit("\"");
    }
    s.append("[");
    let n = tags.len();
    let mut i: usize = 0;
    while i < n
        invariant
            n == tags@.len(),
            i <= n,
            s@ == old(s)@ + seq!['['] + tags_inner_chars(tags@.subrange(0, i as int)),
        decreases n - i,
    {
        proof {
            reveal_strlit(",");
            reveal_strlit("\"");
            assert(tags@.subrange(0, i + 1).drop_last() =~= tags@.subrange(0, i as int));
        }
        if i > 0 {
            s.append(",");
        }
        s.append("\"");
        s.append(tags[i].as_str());
        s.append("\"");
        proof {
            if i == 0 {
                assert(tags@.subrange(0, 1).len() == 1);
                assert(s@ =~= old(s)@ + seq!['['] + tags_inner_chars(tags@.subrange(0, 1)));
            } else {
                assert(s@ =~= old(s)@ + seq!['['] + tags_inner_chars(tags@.subrange(0, i + 1)));
            }
        }
        i = i + 1;
    }
    proof {
        assert(tags@.subrange(0, n as int) =~= tags@);
    }
    s.append("]");
    proof {
        assert(final(s)@ =~= old(s)@ + log_tags_array_chars(tags@));
    }
}

/// Serialises the data body of a settings update.
pub fn update_settings_data_json(u: &WorkerUpdateSettings) -> (r: String)
    ensures
        r@ == update_settings_chars(*u),
{
    proof {
        reveal_strlit("{}");
        reveal_strlit("\"}");
        reveal_strlit("}");
    }
    match (&u.log_level, &u.log_tags) {
        (Option::None, Option::None) => String::from_str("{}"),
        (Option::Some(l), Option::None) => {
            let mut s = String::from_str("{\"logLevel\":\"");
            s.append(l.as_str());
            s.append("\"}");
            proof {
                assert(s@ =~= update_settings_chars(*u));
            }
            s
        },
        (Option::None, Option::Some(ts)) => {
            let mut s = String::from_str("{\"logTags\":");
            append_tags_array(&mut s, ts);
            s.append("}");
            proof {
                assert(s@ =~= update_settings_chars(*u));
            }
            s
        },
        (Option::Some(l), Option::Some(ts)) => {
            let mut s = String::from_str("{\"logLevel\":\"");
            s.append(l.as_str());
            s.append("\",\"logTags\":");
            append_tags_array(&mut s, ts);
            s.append("}");
            proof {
                assert(s@ =~= update_settings_chars(*u));
            }
            s
        },
    }
}

/// CPU, memory and other resource usage reported by the worker.
#[derive(Debug, Copy, Clone)]
pub struct WorkerResourceUsage {
    /// User CPU time used (in ms).
    pub ru_utime: u64,
    /// System CPU time used (in ms).
    pub ru_stime: u64,
    /// Maximum resident set size.
    pub ru_maxrss: u64,
    /// Integral shared memory size.
    pub ru_ixrss: u64,
    /// Integral unshared data size.
    pub ru_idrss: u64,
    /// Integral unshared stack size.
    pub ru_isrss: u64,
    /// Page reclaims (soft page faults).
    pub ru_minflt: u64,
    /// Page faults (hard page faults).
    pub ru_majflt: u64,
    /// Swaps.
    pub ru_nswap: u64,
    /// Block input operations.
    pub ru_inblock: u64,
    /// Block output operations.
    pub ru_oublock: u64,
    /// IPC messages sent.
    pub ru_msgsnd: u64,
    /// IPC messages received.
    pub ru_msgrcv: u64,
    /// Signals received.
    pub ru_nsignals: u64,
    /// Voluntary context switches.
    pub ru_nvcsw: u64,
    /// Involuntary context switches.
    pub ru_nivcsw: u64,
}


/// Decodes the body of an accepted resource-usage response from the
/// frame bytes: every one of the sixteen counters must be there as a
/// number, and the caller receives exactly the decoded figures.
/// Anything missing fails the decode, which the caller maps to
/// `FailedToParse`.
pub fn parse_worker_resource_usage(frame: &[u8]) -> (r: Option<WorkerResourceUsage>)
    ensures
        r matches Some(u) ==> {
            &&& crate::json::json_data_u64_field(frame@, "ru_utime"@) == Some(u.ru_utime)
            &&& crate::json::json_data_u64_field(frame@, "ru_stime"@) == Some(u.ru_stime)
            &&& crate::json::json_data_u64_field(frame@, "ru_maxrss"@) == Some(u.ru_maxrss)
            &&& crate::json::json_data_u64_field(frame@, "ru_ixrss"@) == Some(u.ru_ixrss)
            &&& crate::json::json_data_u64_field(frame@, "ru_idrss"@) == Some(u.ru_idrss)
            &&& crate::json::json_data_u64_field(frame@, "ru_isrss"@) == Some(u.ru_isrss)
            &&& crate::json::json_data_u64_field(frame@, "ru_minflt"@) == Some(u.ru_minflt)
            &&& crate::json::json_data_u64_field(frame@, "ru_majflt"@) == Some(u.ru_majflt)
            &&& crate::json::json_data_u64_field(frame@, "ru_nswap"@) == Some(u.ru_nswap)
            &&& crate::json::json_data_u64_field(frame@, "ru_inblock"@) == Some(u.ru_inblock)
            &&& crate::json::json_data_u64_field(frame@, "ru_oublock"@) == Some(u.ru_oublock)
            &&& crate::json::json_data_u64_field(frame@, "ru_msgsnd"@) == Some(u.ru_msgsnd)
            &&& crate::json::json_data_u64_field(frame@, "ru_msgrcv"@) == Some(u.ru_msgrcv)
            &&& crate::json::json_data_u64_field(frame@, "ru_nsignals"@) == Some(u.ru_nsignals)
            &&& crate::json::json_data_u64_field(frame@, "ru_nvcsw"@) == Some(u.ru_nvcsw)
            &&& crate::json::json_data_u64_field(frame@, "ru_nivcsw"@) == Some(u.ru_nivcsw)
        },
        r is None <==> {
            ||| crate::json::json_data_u64_field(frame@, "ru_utime"@) is None
            ||| crate::json::json_data_u64_field(frame@, "ru_stime"@) is None
            ||| crate::json::json_data_u64_field(frame@, "ru_maxrss"@) is None
            ||| crate::json::json_data_u64_field(frame@, "ru_ixrss"@) is None
            ||| crate::json::json_data_u64_field(frame@, "ru_idrss"@) is None
            ||| crate::json::json_data_u64_field(frame@, "ru_isrss"@) is None
            ||| crate::json::json_data_u64_field(frame@, "ru_minflt"@) is None
            ||| crate::json::json_data_u64_field(frame@, "ru_majflt"@) is None
            ||| crate::json::json_data_u64_field(frame@, "ru_nswap"@) is None
            ||| crate::json::json_data_u64_field(frame@, "ru_inblock"@) is None
            ||| crate::json::json_data_u64_field(frame@, "ru_oublock"@) is None
            ||| crate::json::json_data_u64_field(frame@, "ru_msgsnd"@) is None
            ||| crate::json::json_data_u64_field(frame@, "ru_msgrcv"@) is None
            ||| crate::json::json_data_u64_field(frame@, "ru_nsignals"@) is None
            ||| crate::json::json_data_u64_field(frame@, "ru_nvcsw"@) is None
            ||| crate::json::json_data_u64_field(frame@, "ru_nivcsw"@) is None
        },
{
    let ru_utime = match crate::json::read_data_u64_field(frame, "ru_utime") {
        Some(v) => v,
        None => {
            return None;
        },
    };
    let ru_stime = match crate::json::read_data_u64_field(frame, "ru_stime") {
        Some(v) => v,
        None => {
            return None;
        },
    };
    let ru_maxrss = match crate::json::read_data_u64_field(frame, "ru_maxrss") {
        Some(v) => v,
        None => {
            return None;
        },
    };
    let ru_ixrss = match crate::json::read_data_u64_field(frame, "ru_ixrss") {
        Some(v) => v,
        None => {
            return None;
        },
    };
    let ru_idrss = match crate::json::read_data_u64_field(frame, "ru_idrss") {
        Some(v) => v,
        None => {
            return None;
        },
    };
    let ru_isrss = match crate::json::read_data_u64_field(frame, "ru_isrss") {
        Some(v) => v,
        None => {
            return None;
        },
    };
    let ru_minflt = match crate::json::read_data_u64_field(frame, "ru_minflt") {
        Some(v) => v,
        None => {
            return None;
        },
    };
    let ru_majflt = match crate::json::read_data_u64_field(frame, "ru_majflt") {
        Some(v) => v,
        None => {
            return None;
        },
    };
    let ru_nswap = match crate::json::read_data_u64_field(frame, "ru_nswap") {
        Some(v) => v,
        None => {
            return None;
        },
    };
    let ru_inblock = match crate::json::read_data_u64_field(frame, "ru_inblock") {
        Some(v) => v,
        None => {
            return None;
        },
    };
    let ru_oublock = match crate::json::read_data_u64_field(frame, "ru_oublock") {
        Some(v) => v,
        None => {
            return None;
        },
    };
    let ru_msgsnd = match crate::json::read_data_u64_field(frame, "ru_msgsnd") {
        Some(v) => v,
        None => {
            return None;
        },
    };
    let ru_msgrcv = match crate::json::read_data_u64_field(frame, "ru_msgrcv") {
        Some(v) => v,
        None => {
            return None;
        },
    };
    let ru_nsignals = match crate::json::read_data_u64_field(frame, "ru_nsignals") {
        Some(v) => v,
        None => {
            return None;
        },
    };
    let ru_nvcsw = match crate::json::read_data_u64_field(frame, "ru_nvcsw") {
        Some(v) => v,
        None => {
            return None;
        },
    };
    let ru_nivcsw = match crate::json::read_data_u64_field(frame, "ru_nivcsw") {
        Some(v) => v,
        None => {
            return None;
        },
    };
    Some(WorkerResourceUsage {
        ru_utime,
        ru_stime,
        ru_maxrss,
        ru_ixrss,
        ru_idrss,
        ru_isrss,
        ru_minflt,
        ru_majflt,
        ru_nswap,
        ru_inblock,
        ru_oublock,
        ru_msgsnd,
        ru_msgrcv,
        ru_nsignals,
        ru_nvcsw,
        ru_nivcsw,
    })
}

/// Snapshot of a worker as reported by a dump request.
#[derive(Debug, Clone)]
pub struct WorkerDump {
    /// Process number of the worker.
    pub pid: u32,
    /// Routers alive under the worker.
    pub router_ids: Vec<RouterId>,
}

/// Error raised while building the worker's spawn arguments.
#[derive(Debug, Copy, Clone, PartialEq, Eq, Structural)]
pub enum WorkerSpawnError {
    /// The RTC ports range holds no port.
    InvalidRtcPortsRange,
}

/// Number of arguments the spawn line holds for given settings: the log
/// level, one argument per log tag, the two port bounds, and two paths
/// when DTLS files are given.
pub open spec fn spawn_args_len(s: WorkerSettings) -> int {
    3 + s.log_tags@.len() + if s.dtls_files is Some {
        2int
    } else {
        0int
    }
}

/// Builds the command-line arguments the worker subprocess is started
/// with. Fails exactly when the RTC ports range is empty.
pub fn worker_spawn_args(settings: &WorkerSettings) -> (r: Result<Vec<String>, WorkerSpawnError>)
    ensures
        settings.rtc_ports_range.spec_is_empty() <==> r == Err::<Vec<String>, _>(
            WorkerSpawnError::InvalidRtcPortsRange,
        ),
        r matches Ok(args) ==> {
            &&& args@.len() == spawn_args_len(*settings)
            &&& args@[0]@ == "--logLevel="@ + log_level_chars(settings.log_level)
            &&& forall|i: int|
                0 <= i < settings.log_tags@.len() ==> args@[1 + i]@ == "--logTag="@
                    + log_tag_chars(settings.log_tags@[i])
            &&& args@[1 + settings.log_tags@.len() as int]@ == "--rtcMinPort="@ + crate::text::dec_chars(
                settings.rtc_ports_range.start as nat,
            )
            &&& args@[2 + settings.log_tags@.len() as int]@ == "--rtcMaxPort="@ + crate::text::dec_chars(
                settings.rtc_ports_range.end as nat,
            )
            &&& settings.dtls_files matches Some(files) ==> {
                &&& args@[3 + settings.log_tags@.len() as int]@ == "--dtlsCertificateFile="@
                    + files.certificate@
                &&& args@[4 + settings.log_tags@.len() as int]@ == "--dtlsPrivateKeyFile="@
                    + files.private_key@
            }
        },
{
    if settings.rtc_ports_range.is_empty() {
        return Err(WorkerSpawnError::InvalidRtcPortsRange);
    }
    let mut args: Vec<String> = Vec::new();

    let mut level_arg = String::from_str("--logLevel=");
    level_arg.append(settings.log_level.as_str());
    args.push(level_arg);

    let tag_count = settings.log_tags.len();
    let mut i: usize = 0;
    while i < tag_count
        invariant
            i <= tag_count,
            tag_count == settings.log_tags@.len(),
            args@.len() == 1 + i,
            args@[0]@ == "--logLevel="@ + log_level_chars(settings.log_level),
            forall|j: int|
                0 <= j < i ==> args@[1 + j]@ == "--logTag="@ + log_tag_chars(
                    settings.log_tags@[j],
                ),
        decreases tag_count - i,
    {
        let mut tag_arg = String::from_str("--logTag=");
        tag_arg.append(settings.log_tags[i].as_str());
        args.push(tag_arg);
        i = i + 1;
    }

    let mut min_arg = String::from_str("--rtcMinPort=");
    crate::text::append_dec(&mut min_arg, settings.rtc_ports_range.start as u64);
    args.push(min_arg);

    let mut max_arg = String::from_str("--rtcMaxPort=");
    crate::text::append_dec(&mut max_arg, settings.rtc_ports_range.end as u64);
    args.push(max_arg);

    match &settings.dtls_files {
        Some(files) => {
            let mut cert_arg = String::from_str("--dtlsCertificateFile=");
            cert_arg.append(files.certificate.as_str());
            args.push(cert_arg);
            let mut key_arg = String::from_str("--dtlsPrivateKeyFile=");
            key_arg.append(files.private_key.as_str());
            args.push(key_arg);
        },
        None => {},
    }

    Ok(args)
}

/// How the body of an accepted response fared at its caller.
#[derive(Debug, Clone, PartialEq, Eq)]
pub enum BodyOutcome {
    /// The caller expected no body.
    NotNeeded,
    /// The caller expected a body and none came.
    Missing,
    /// The body parsed into the expected type.
    Parsed,
    /// The body failed to parse; the decoder's message rides along.
    Unparsable(String),
}

/// What a completed response means to its caller, for every completion
/// path: a rejection carries the worker's reason, a missing body is
/// `NoData`, an unparsable body is `FailedToParse`, and everything else
/// succeeds.
pub fn interpret_response(accepted: bool, reason: String, body: BodyOutcome) -> (r: Result<
    (),
    RequestError,
>)
    ensures
        !accepted ==> r == Err::<(), _>(RequestError::Response { reason }),
        accepted && body == BodyOutcome::Missing ==> r == Err::<(), _>(RequestError::NoData),
        body matches BodyOutcome::Unparsable(e) ==> (accepted ==> r == Err::<(), _>(
            RequestError::FailedToParse { error: e },
        )),
        accepted && (body == BodyOutcome::NotNeeded || body == BodyOutcome::Parsed) ==> r == Ok::<
            _,
            RequestError,
        >(()),
{
    if !accepted {
        return Err(RequestError::Response { reason });
    }
    match body {
        BodyOutcome::NotNeeded => Ok(()),
        BodyOutcome::Parsed => Ok(()),
        BodyOutcome::Missing => Err(RequestError::NoData),
        BodyOutcome::Unparsable(error) => Err(RequestError::FailedToParse { error }),
    }
}

/// A session-level event the application delivers to its subscribers.
#[derive(Debug, Copy, Clone, PartialEq, Eq, Structural)]
pub enum WorkerEvent {
    /// The subprocess died; the exit status code rides along.
    Dead { status_code: i32 },
    /// The session closed.
    Closed,
}

/// Everything a worker exit sets in motion.
#[derive(Debug)]
pub struct ExitEffects {
    /// The session events to fire, in order: the dead event with the
    /// exit status, then the closed event — or the closed event alone
    /// on a startup failure, or nothing at all on a session already
    /// closed.
    pub events: Vec<WorkerEvent>,
    /// Control-channel requests that now fail with `ChannelClosed`, in
    /// the order they were sent.
    pub failed_requests: Vec<u64>,
    /// Payload-channel requests that now fail with `ChannelClosed`.
    pub failed_payload_requests: Vec<u64>,
    /// Forced-close events of every resource still open, children
    /// before parents.
    pub resource_events: Vec<CloseAction>,
}

/// One worker session: the subprocess's channels, registries,
/// lifecycle flags and resource graph.
#[derive(Debug)]
pub struct Worker {
    /// Process number of the subprocess.
    pub pid: u32,
    /// Custom application data.
    pub app_data: AppData,
    /// Whether the session is closed. Terminal.
    pub closed: bool,
    /// Whether the subprocess died before the session was closed.
    pub dead: bool,
    /// Whether the subprocess announced readiness.
    pub ready: bool,
    /// Correlation state of the control channel.
    pub channel: Channel,
    /// Correlation state of the payload channel.
    pub payload_channel: Channel,
    /// Subscriptions of the control channel.
    pub registry: Registry,
    /// Subscriptions of the payload channel.
    pub payload_registry: Registry,
    /// Subscribers to the session's own events, keyed under the
    /// session's process number: today the new-router event.
    pub session_registry: Registry,
    /// The session's resource graph.
    pub graph: Graph,
}

impl Worker {
    /// Both channels, both registries and the graph are well formed.
    pub open spec fn well_formed(self) -> bool {
        &&& self.channel.well_formed()
        &&& self.payload_channel.well_formed()
        &&& registry_well_formed(self.registry@)
        &&& registry_well_formed(self.payload_registry@)
        &&& registry_well_formed(self.session_registry@)
        &&& graph_well_formed(self.graph.nodes@)
    }

    /// A fresh session around a just-spawned subprocess: open channels,
    /// empty registries, empty graph, not yet ready.
    pub fn new(pid: u32, app_data: AppData) -> (r: Worker)
        ensures
            r.well_formed(),
            r.pid == pid,
            !r.closed,
            !r.dead,
            !r.ready,
            !r.channel.closed,
            r.channel.next_id == 0,
            r.channel.pending@.len() == 0,
            !r.payload_channel.closed,
            r.payload_channel.next_id == 0,
            r.payload_channel.pending@.len() == 0,
            r.registry@.next_handle == 0,
            r.registry@.entries.len() == 0,
            r.registry@.guards.len() == 0,
            r.registry@.queued.len() == 0,
            r.payload_registry@.next_handle == 0,
            r.payload_registry@.entries.len() == 0,
            r.payload_registry@.guards.len() == 0,
            r.payload_registry@.queued.len() == 0,
            r.session_registry@.next_handle == 0,
            r.session_registry@.entries.len() == 0,
            r.graph.nodes@.len() == 0,
    {
        Worker {
            pid,
            app_data,
            closed: false,
            dead: false,
            ready: false,
            channel: Channel::new(),
            payload_channel: Channel::new(),
            registry: Registry::new(),
            payload_registry: Registry::new(),
            session_registry: Registry::new(),
            graph: Graph::new(),
        }
    }

    /// The process number of the subprocess.
    pub fn pid(&self) -> (r: u32)
        ensures
            r == self.pid,
    {
        self.pid
    }

    /// Custom application data.
    pub fn app_data(&self) -> (r: &AppData)
        ensures
            r == &self.app_data,
    {
        &self.app_data
    }

    /// Whether the session is closed.
    pub fn closed(&self) -> (r: bool)
        ensures
            r == self.closed,
    {
        self.closed
    }

    /// Handles the first notification the subprocess pushes under its
    /// own process number: the running event marks the session ready;
    /// anything else is a startup failure the caller reports.
    pub fn mark_ready(&mut self, event: &String) -> (r: bool)
        ensures
            r == (event@ == "running"@),
            final(self).ready == (old(self).ready || (r && !old(self).closed)),
            *final(self) == (Worker { ready: final(self).ready, ..*old(self) }),
    {
        let running = String::from_str("running");
        if event.eq(&running) {
            if !self.closed {
                self.ready = true;
            }
            true
        } else {
            false
        }
    }

    /// Allocates a correlation id for a control-channel request and
    /// serialises its frame. Fails with `ChannelClosed` at once on a
    /// closed channel, and with `MessageTooLong` when the envelope
    /// exceeds the message size limit; an oversized request leaves no
    /// pending entry behind.
    pub fn prepare_request(
        &mut self,
        kind: RequestKind,
        internal: &String,
        data: Option<&String>,
    ) -> (r: Result<(u64, Vec<u8>), RequestError>)
        requires
            old(self).well_formed(),
            old(self).channel.next_id < u64::MAX,
        ensures
            final(self).well_formed(),
            *final(self) == (Worker { channel: final(self).channel, ..*old(self) }),
            old(self).channel.closed ==> r == Err::<(u64, Vec<u8>), _>(RequestError::ChannelClosed)
                && final(self).channel == old(self).channel,
            !old(self).channel.closed ==> {
                let msg = request_chars(
                    old(self).channel.next_id,
                    method_chars(kind),
                    internal@,
                    match data {
                        Some(d) => Some(d@),
                        None => None,
                    },
                );
                let too_long = encode_utf8(msg).len() > MESSAGE_MAX_LEN;
                &&& too_long <==> r == Err::<(u64, Vec<u8>), _>(RequestError::MessageTooLong)
                &&& too_long ==> final(self).channel.pending@ == old(self).channel.pending@
                &&& !too_long ==> r is Ok
                &&& r matches Ok(p) ==> {
                    &&& p.0 == old(self).channel.next_id
                    &&& final(self).channel.pending@ == old(self).channel.pending@.push(p.0)
                    &&& p.1@ == frame_bytes(encode_utf8(msg))
                }
            },
    {
        let id = match self.channel.begin_request() {
            Ok(id) => id,
            Err(e) => {
                return Err(e);
            },
        };
        let msg = build_request(id, kind, internal, data);
        let bytes = msg.as_str().as_bytes_vec();
        if bytes.len() > MESSAGE_MAX_LEN {
            let _ = self.channel.take_pending(id);
            proof {
                crate::channel::lemma_push_remove_value(old(self).channel.pending@, id);
            }
            return Err(RequestError::MessageTooLong);
        }
        let frame = encode_frame(bytes);
        Ok((id, frame))
    }

    /// Allocates a correlation id for a worker-level request — one that
    /// addresses the worker itself and carries no identity chain — and
    /// serialises its frame. Failure cases are those of any request:
    /// `ChannelClosed` on a closed channel, `MessageTooLong` past the
    /// size limit with no pending entry left behind.
    pub fn prepare_worker_request(&mut self, kind: RequestKind, data: Option<&String>) -> (r:
        Result<(u64, Vec<u8>), RequestError>)
        requires
            old(self).well_formed(),
            old(self).channel.next_id < u64::MAX,
        ensures
            final(self).well_formed(),
            *final(self) == (Worker { channel: final(self).channel, ..*old(self) }),
            old(self).channel.closed ==> r == Err::<(u64, Vec<u8>), _>(RequestError::ChannelClosed)
                && final(self).channel == old(self).channel,
            !old(self).channel.closed ==> {
                let msg = plain_request_chars(
                    old(self).channel.next_id,
                    method_chars(kind),
                    match data {
                        Some(d) => Some(d@),
                        None => None,
                    },
                );
                let too_long = encode_utf8(msg).len() > MESSAGE_MAX_LEN;
                &&& too_long <==> r == Err::<(u64, Vec<u8>), _>(RequestError::MessageTooLong)
                &&& too_long ==> final(self).channel.pending@ == old(self).channel.pending@
                &&& !too_long ==> r is Ok
                &&& r matches Ok(p) ==> {
                    &&& p.0 == old(self).channel.next_id
                    &&& final(self).channel.pending@ == old(self).channel.pending@.push(p.0)
                    &&& p.1@ == frame_bytes(encode_utf8(msg))
                }
            },
    {
        let id = match self.channel.begin_request() {
            Ok(id) => id,
            Err(e) => {
                return Err(e);
            },
        };
        let msg = build_plain_request(id, kind, data);
        let bytes = msg.as_str().as_bytes_vec();
        if bytes.len() > MESSAGE_MAX_LEN {
            let _ = self.channel.take_pending(id);
            proof {
                crate::channel::lemma_push_remove_value(old(self).channel.pending@, id);
            }
            return Err(RequestError::MessageTooLong);
        }
        let frame = encode_frame(bytes);
        Ok((id, frame))
    }

    /// The dump request for the worker itself.
    pub fn dump_request(&mut self) -> (r: Result<(u64, Vec<u8>), RequestError>)
        requires
            old(self).well_formed(),
            old(self).channel.next_id < u64::MAX,
        ensures
            final(self).well_formed(),
            *final(self) == (Worker { channel: final(self).channel, ..*old(self) }),
            old(self).channel.closed ==> r == Err::<(u64, Vec<u8>), _>(RequestError::ChannelClosed)
                && final(self).channel == old(self).channel,
            !old(self).channel.closed ==> {
                let msg = plain_request_chars(
                    old(self).channel.next_id,
                    method_chars(RequestKind::WorkerDump),
                    None,
                );
                let too_long = encode_utf8(msg).len() > MESSAGE_MAX_LEN;
                &&& too_long <==> r == Err::<(u64, Vec<u8>), _>(RequestError::MessageTooLong)
                &&& too_long ==> final(self).channel.pending@ == old(self).channel.pending@
                &&& !too_long ==> r is Ok
                &&& r matches Ok(p) ==> {
                    &&& p.0 == old(self).channel.next_id
                    &&& final(self).channel.pending@ == old(self).channel.pending@.push(p.0)
                    &&& p.1@ == frame_bytes(encode_utf8(msg))
                }
            },
    {
        self.prepare_worker_request(RequestKind::WorkerDump, None)
    }

    /// The resource-usage request for the worker process.
    pub fn get_resource_usage_request(&mut self) -> (r: Result<(u64, Vec<u8>), RequestError>)
        requires
            old(self).well_formed(),
            old(self).channel.next_id < u64::MAX,
        ensures
            final(self).well_formed(),
            *final(self) == (Worker { channel: final(self).channel, ..*old(self) }),
            old(self).channel.closed ==> r == Err::<(u64, Vec<u8>), _>(RequestError::ChannelClosed)
                && final(self).channel == old(self).channel,
            !old(self).channel.closed ==> {
                let msg = plain_request_chars(
                    old(self).channel.next_id,
                    method_chars(RequestKind::WorkerGetResourceUsage),
                    None,
                );
                let too_long = encode_utf8(msg).len() > MESSAGE_MAX_LEN;
                &&& too_long <==> r == Err::<(u64, Vec<u8>), _>(RequestError::MessageTooLong)
                &&& too_long ==> final(self).channel.pending@ == old(self).channel.pending@
                &&& !too_long ==> r is Ok
                &&& r matches Ok(p) ==> {
                    &&& p.0 == old(self).channel.next_id
                    &&& final(self).channel.pending@ == old(self).channel.pending@.push(p.0)
                    &&& p.1@ == frame_bytes(encode_utf8(msg))
                }
            },
    {
        self.prepare_worker_request(RequestKind::WorkerGetResourceUsage, None)
    }

    /// The runtime settings-update request: only the members given in
    /// the update travel.
    pub fn update_settings_request(&mut self, update: &WorkerUpdateSettings) -> (r: Result<
        (u64, Vec<u8>),
        RequestError,
    >)
        requires
            old(self).well_formed(),
            old(self).channel.next_id < u64::MAX,
        ensures
            final(self).well_formed(),
            *final(self) == (Worker { channel: final(self).channel, ..*old(self) }),
            old(self).channel.closed ==> r == Err::<(u64, Vec<u8>), _>(RequestError::ChannelClosed)
                && final(self).channel == old(self).channel,
            !old(self).channel.closed ==> {
                let msg = plain_request_chars(
                    old(self).channel.next_id,
                    method_chars(RequestKind::WorkerUpdateSettings),
                    Some(update_settings_chars(*update)),
                );
                let too_long = encode_utf8(msg).len() > MESSAGE_MAX_LEN;
                &&& too_long <==> r == Err::<(u64, Vec<u8>), _>(RequestError::MessageTooLong)
                &&& too_long ==> final(self).channel.pending@ == old(self).channel.pending@
                &&& !too_long ==> r is Ok
                &&& r matches Ok(p) ==> {
                    &&& p.0 == old(self).channel.next_id
                    &&& final(self).channel.pending@ == old(self).channel.pending@.push(p.0)
                    &&& p.1@ == frame_bytes(encode_utf8(msg))
                }
            },
    {
        let data = update_settings_data_json(update);
        self.prepare_worker_request(RequestKind::WorkerUpdateSettings, Some(&data))
    }

    /// Routes one response frame by its correlation id: the matching
    /// pending request completes, and a response whose id matches no
    /// pending entry is dropped (and logged by the caller) without
    /// touching any other pending entry.
    pub fn on_response(&mut self, id: u64) -> (matched: bool)
        requires
            old(self).well_formed(),
        ensures
            final(self).well_formed(),
            *final(self) == (Worker { channel: final(self).channel, ..*old(self) }),
            matched == old(self).channel.pending@.contains(id),
            !matched ==> final(self).channel == old(self).channel,
            final(self).channel.pending@ == old(self).channel.pending@.remove_value(id),
            forall|x: u64|
                x != id ==> (final(self).channel.pending@.contains(x)
                    <==> old(self).channel.pending@.contains(x)),
    {
        self.channel.take_pending(id)
    }

    /// Gives up on a request that never received its response: the
    /// caller fails with `TimedOut`, the pending entry is removed so
    /// nothing leaks, and every other pending entry stays. Returns
    /// nothing when the response won the race instead.
    pub fn fail_request_timeout(&mut self, id: u64) -> (r: Option<RequestError>)
        requires
            old(self).well_formed(),
        ensures
            final(self).well_formed(),
            *final(self) == (Worker { channel: final(self).channel, ..*old(self) }),
            r == Some(RequestError::TimedOut) <==> old(self).channel.pending@.contains(id),
            r is None <==> !old(self).channel.pending@.contains(id),
            !final(self).channel.pending@.contains(id),
            final(self).channel.pending@ == old(self).channel.pending@.remove_value(id),
            forall|x: u64|
                x != id ==> (final(self).channel.pending@.contains(x)
                    <==> old(self).channel.pending@.contains(x)),
    {
        if self.channel.take_pending(id) {
            Some(RequestError::TimedOut)
        } else {
            None
        }
    }

    /// Registers a callback for notifications under a target on the
    /// control channel; the handle releases exactly this subscription.
    pub fn subscribe_to_notifications(
        &mut self,
        target: SubscriptionTarget,
        single_fire: bool,
    ) -> (h: u64)
        requires
            old(self).well_formed(),
            old(self).registry.next_handle < u64::MAX,
        ensures
            final(self).well_formed(),
            *final(self) == (Worker { registry: final(self).registry, ..*old(self) }),
            h == old(self).registry@.next_handle,
            final(self).registry@ == subscribe_t(old(self).registry@, target, single_fire),
    {
        self.registry.subscribe(target, single_fire)
    }

    /// Dispatches one notification arriving on the control channel.
    pub fn on_notification(&mut self, target: SubscriptionTarget, body: Vec<u8>) -> (r:
        DispatchOutcome)
        requires
            old(self).well_formed(),
        ensures
            final(self).well_formed(),
            *final(self) == (Worker { registry: final(self).registry, ..*old(self) }),
            final(self).registry@ == dispatch_t(old(self).registry@, target, body@),
            match r {
                DispatchOutcome::Delivered(hs) => dispatch_outcome(old(self).registry@, target)
                    == DispatchOutcomeView::Delivered(hs@),
                DispatchOutcome::Queued => dispatch_outcome(old(self).registry@, target)
                    == DispatchOutcomeView::Queued,
                DispatchOutcome::Dropped => dispatch_outcome(old(self).registry@, target)
                    == DispatchOutcomeView::Dropped,
            },
    {
        self.registry.dispatch(target, body)
    }

    /// Starts buffering notifications for a resource about to be
    /// created, so that an event pushed right after the creation request
    /// is acknowledged cannot be lost before the caller subscribes.
    pub fn buffer_notifications_for(&mut self, target: SubscriptionTarget) -> (started: bool)
        requires
            old(self).well_formed(),
        ensures
            final(self).well_formed(),
            *final(self) == (Worker { registry: final(self).registry, ..*old(self) }),
            started == !crate::registry::is_buffering(old(self).registry@, target),
            final(self).registry@ == begin_buffering_t(old(self).registry@, target),
    {
        self.registry.begin_buffering(target)
    }

    /// Releases the buffering guard for a target and hands back the
    /// notifications to replay, in arrival order.
    pub fn release_buffered_notifications(&mut self, target: SubscriptionTarget) -> (replay: Vec<
        QueuedNotification,
    >)
        requires
            old(self).well_formed(),
        ensures
            final(self).well_formed(),
            *final(self) == (Worker { registry: final(self).registry, ..*old(self) }),
            final(self).registry@ == end_buffering_t(old(self).registry@, target),
            crate::registry::qviews(replay@) == queued_for(old(self).registry@.queued, target),
    {
        self.registry.end_buffering(target)
    }

    /// Builds the router-creation request: acquires the buffering guard
    /// for the new router's identity and serialises the request frame.
    /// The guard stays held until the caller finished subscribing the
    /// new router.
    pub fn create_router(&mut self, router_id: RouterId) -> (r: Result<
        (u64, Vec<u8>),
        CreateRouterError,
    >)
        requires
            old(self).well_formed(),
            old(self).channel.next_id < u64::MAX,
        ensures
            final(self).well_formed(),
            *final(self) == (Worker {
                channel: final(self).channel,
                registry: final(self).registry,
                ..*old(self)
            }),
            final(self).registry@ == begin_buffering_t(
                old(self).registry@,
                SubscriptionTarget::Uuid(router_id.value),
            ),
            crate::registry::is_buffering(
                final(self).registry@,
                SubscriptionTarget::Uuid(router_id.value),
            ),
            old(self).channel.closed ==> r == Err::<(u64, Vec<u8>), _>(
                CreateRouterError::Request(RequestError::ChannelClosed),
            ) && final(self).channel == old(self).channel,
            !old(self).channel.closed ==> {
                let msg = request_chars(
                    old(self).channel.next_id,
                    method_chars(RequestKind::WorkerCreateRouter),
                    router_internal_chars(RouterInternal { router_id }),
                    None,
                );
                let too_long = encode_utf8(msg).len() > MESSAGE_MAX_LEN;
                &&& too_long <==> r == Err::<(u64, Vec<u8>), _>(
                    CreateRouterError::Request(RequestError::MessageTooLong),
                )
                &&& too_long ==> final(self).channel.pending@ == old(self).channel.pending@
                &&& !too_long ==> r is Ok
                &&& r matches Ok(p) ==> {
                    &&& p.0 == old(self).channel.next_id
                    &&& final(self).channel.pending@ == old(self).channel.pending@.push(p.0)
                    &&& p.1@ == frame_bytes(encode_utf8(msg))
                }
            },
    {
        let ghost r0 = self.registry@;
        let target = SubscriptionTarget::Uuid(router_id.value);
        self.buffer_notifications_for(target);
        proof {
            if !crate::registry::is_buffering(r0, target) {
                assert(self.registry@.guards[r0.guards.len() as int] == target);
                assert(self.registry@.guards.contains(target));
            }
            assert(crate::registry::is_buffering(self.registry@, target));
        }
        let internal = router_internal_json(&RouterInternal { router_id });
        match self.prepare_request(RequestKind::WorkerCreateRouter, &internal, None) {
            Ok(p) => Ok(p),
            Err(e) => Err(CreateRouterError::Request(e)),
        }
    }

    /// Registers a callback for newly created routers. It persists
    /// across creations; the handle releases exactly this subscription.
    pub fn on_new_router(&mut self) -> (h: u64)
        requires
            old(self).well_formed(),
            old(self).session_registry.next_handle < u64::MAX,
        ensures
            final(self).well_formed(),
            *final(self) == (Worker {
                session_registry: final(self).session_registry,
                ..*old(self)
            }),
            h == old(self).session_registry@.next_handle,
            final(self).session_registry@ == subscribe_t(
                old(self).session_registry@,
                SubscriptionTarget::Number(old(self).pid as u64),
                false,
            ),
    {
        let pid = self.pid;
        self.session_registry.subscribe(SubscriptionTarget::Number(pid as u64), false)
    }

    /// Delivers the new-router event to every registered callback, in
    /// registration order, before router creation returns to its
    /// caller; the callbacks receive the new router from the caller.
    pub fn notify_new_router(&mut self) -> (r: DispatchOutcome)
        requires
            old(self).well_formed(),
        ensures
            final(self).well_formed(),
            *final(self) == (Worker {
                session_registry: final(self).session_registry,
                ..*old(self)
            }),
            final(self).session_registry@ == dispatch_t(
                old(self).session_registry@,
                SubscriptionTarget::Number(old(self).pid as u64),
                Seq::empty(),
            ),
            match r {
                DispatchOutcome::Delivered(hs) => dispatch_outcome(
                    old(self).session_registry@,
                    SubscriptionTarget::Number(old(self).pid as u64),
                ) == DispatchOutcomeView::Delivered(hs@),
                DispatchOutcome::Queued => dispatch_outcome(
                    old(self).session_registry@,
                    SubscriptionTarget::Number(old(self).pid as u64),
                ) == DispatchOutcomeView::Queued,
                DispatchOutcome::Dropped => dispatch_outcome(
                    old(self).session_registry@,
                    SubscriptionTarget::Number(old(self).pid as u64),
                ) == DispatchOutcomeView::Dropped,
            },
    {
        let pid = self.pid;
        let body: Vec<u8> = Vec::new();
        proof {
            assert(body@ =~= Seq::<u8>::empty());
        }
        self.session_registry.dispatch(SubscriptionTarget::Number(pid as u64), body)
    }

    /// Records the router in the session graph once its creation
    /// request succeeded at the subprocess.
    pub fn complete_create_router(&mut self, router_id: RouterId) -> (idx: usize)
        requires
            old(self).well_formed(),
            old(self).graph.nodes@.len() < usize::MAX,
        ensures
            final(self).well_formed(),
            *final(self) == (Worker { graph: final(self).graph, ..*old(self) }),
            idx == old(self).graph.nodes@.len(),
            final(self).graph.nodes@ == old(self).graph.nodes@.push(
                crate::graph::ResourceNode {
                    id: router_id.value,
                    kind: ResourceKind::Router,
                    parent: None,
                    peer: None,
                    closed: false,
                },
            ),
    {
        self.graph.add_node(router_id.value, ResourceKind::Router, None, None)
    }

    /// Records a transport under its router.
    pub fn create_transport(&mut self, router_node: usize, transport_id: TransportId) -> (idx:
        usize)
        requires
            old(self).well_formed(),
            router_node < old(self).graph.nodes@.len(),
            old(self).graph.nodes@.len() < usize::MAX,
        ensures
            final(self).well_formed(),
            *final(self) == (Worker { graph: final(self).graph, ..*old(self) }),
            idx == old(self).graph.nodes@.len(),
            final(self).graph.nodes@ == old(self).graph.nodes@.push(
                crate::graph::ResourceNode {
                    id: transport_id.value,
                    kind: ResourceKind::Transport,
                    parent: Some(router_node),
                    peer: None,
                    closed: false,
                },
            ),
    {
        self.graph.add_node(transport_id.value, ResourceKind::Transport, Some(router_node), None)
    }

    /// Creates a data producer under a transport: the node joins the
    /// graph with the transport as parent — which stands for the
    /// single-fire close callback the producer registers with it — and
    /// the handle carries the full identity chain. Its type follows the
    /// options: SCTP when stream parameters are given, direct
    /// otherwise.
    pub fn create_data_producer(
        &mut self,
        router_id: RouterId,
        transport_id: TransportId,
        transport_node: usize,
        data_producer_id: DataProducerId,
        options: DataProducerOptions,
    ) -> (r: DataProducer)
        requires
            old(self).well_formed(),
            transport_node < old(self).graph.nodes@.len(),
            old(self).graph.nodes@.len() < usize::MAX,
        ensures
            final(self).well_formed(),
            *final(self) == (Worker { graph: final(self).graph, ..*old(self) }),
            final(self).graph.nodes@ == old(self).graph.nodes@.push(
                crate::graph::ResourceNode {
                    id: data_producer_id.value,
                    kind: ResourceKind::DataProducer,
                    parent: Some(transport_node),
                    peer: None,
                    closed: false,
                },
            ),
            r.node == old(self).graph.nodes@.len(),
            r.internal == (DataProducerInternal { router_id, transport_id, data_producer_id }),
            r.data_type == (if options.sctp_stream_parameters is Some {
                DataProducerType::Sctp
            } else {
                DataProducerType::Direct
            }),
            r.sctp_stream_parameters == options.sctp_stream_parameters,
            r.label == options.label,
            r.protocol == options.protocol,
    {
        let node = self.graph.add_node(
            data_producer_id.value,
            ResourceKind::DataProducer,
            Some(transport_node),
            None,
        );
        let data_type = match options.sctp_stream_parameters {
            Some(_) => DataProducerType::Sctp,
            None => DataProducerType::Direct,
        };
        DataProducer {
            node,
            internal: DataProducerInternal { router_id, transport_id, data_producer_id },
            data_type,
            sctp_stream_parameters: options.sctp_stream_parameters,
            label: options.label,
            protocol: options.protocol,
            app_data: options.app_data,
        }
    }

    /// Creates a data consumer under a transport, bound to the data
    /// producer it consumes: the parent link and the producer binding
    /// stand for the two single-fire close callbacks the consumer
    /// registers, and the consumer subscribes for its notifications on
    /// both channels.
    pub fn create_data_consumer(
        &mut self,
        router_id: RouterId,
        transport_id: TransportId,
        transport_node: usize,
        data_consumer_id: DataConsumerId,
        producer: &DataProducer,
        options: DataConsumerOptions,
        sctp_stream_parameters: Option<SctpStreamParameters>,
        label: String,
        protocol: String,
    ) -> (r: DataConsumer)
        requires
            old(self).well_formed(),
            transport_node < old(self).graph.nodes@.len(),
            producer.node < old(self).graph.nodes@.len(),
            old(self).graph.nodes@.len() < usize::MAX,
            old(self).registry.next_handle < u64::MAX,
            old(self).payload_registry.next_handle < u64::MAX,
            options.data_producer_id == producer.internal.data_producer_id,
        ensures
            final(self).well_formed(),
            *final(self) == (Worker {
                graph: final(self).graph,
                registry: final(self).registry,
                payload_registry: final(self).payload_registry,
                ..*old(self)
            }),
            final(self).graph.nodes@ == old(self).graph.nodes@.push(
                crate::graph::ResourceNode {
                    id: data_consumer_id.value,
                    kind: ResourceKind::DataConsumer,
                    parent: Some(transport_node),
                    peer: Some(producer.node),
                    closed: false,
                },
            ),
            final(self).registry@ == subscribe_t(
                old(self).registry@,
                SubscriptionTarget::Uuid(data_consumer_id.value),
                false,
            ),
            final(self).payload_registry@ == subscribe_t(
                old(self).payload_registry@,
                SubscriptionTarget::Uuid(data_consumer_id.value),
                false,
            ),
            r.node == old(self).graph.nodes@.len(),
            r.internal == (DataConsumerInternal {
                router_id,
                transport_id,
                data_consumer_id,
                data_producer_id: options.data_producer_id,
            }),
            r.data_type == (if sctp_stream_parameters is Some {
                DataConsumerType::Sctp
            } else {
                DataConsumerType::Direct
            }),
            r.sctp_stream_parameters == sctp_stream_parameters,
            r.label == label,
            r.protocol == protocol,
    {
        let node = self.graph.add_node(
            data_consumer_id.value,
            ResourceKind::DataConsumer,
            Some(transport_node),
            Some(producer.node),
        );
        self.registry.subscribe(SubscriptionTarget::Uuid(data_consumer_id.value), false);
        self.payload_registry.subscribe(SubscriptionTarget::Uuid(data_consumer_id.value), false);
        let data_type = match sctp_stream_parameters {
            Some(_) => DataConsumerType::Sctp,
            None => DataConsumerType::Direct,
        };
        DataConsumer {
            node,
            internal: DataConsumerInternal {
                router_id,
                transport_id,
                data_consumer_id,
                data_producer_id: options.data_producer_id,
            },
            data_type,
            sctp_stream_parameters,
            label,
            protocol,
            app_data: options.app_data,
        }
    }

    /// Closes one resource and cascades through everything hanging from
    /// it. The returned actions happen in order: cascade events,
    /// children before parents, then the resource's own closed event,
    /// then — only for a local, first-party close — its upstream close
    /// request. Closing an already closed resource does nothing.
    pub fn close_resource(&mut self, node: usize, trigger: CloseTrigger) -> (acts: Vec<
        CloseAction,
    >)
        requires
            old(self).well_formed(),
            node < old(self).graph.nodes@.len(),
        ensures
            final(self).well_formed(),
            *final(self) == (Worker { graph: final(self).graph, ..*old(self) }),
            final(self).graph.nodes@ == closed_after(old(self).graph.nodes@, node as int),
            acts@ == close_actions(old(self).graph.nodes@, node as int, trigger),
            old(self).graph.nodes@[node as int].closed ==> final(self).graph.nodes@ == old(
                self,
            ).graph.nodes@ && acts@.len() == 0,
    {
        self.graph.close(node, trigger)
    }

    /// Handles the death of the subprocess: the first call fails every
    /// request still pending on either channel with `ChannelClosed`,
    /// forcibly closes every resource, and hands back the session
    /// events in firing order — the dead event carrying the exit
    /// status, then the closed event. An exit before the subprocess
    /// ever announced readiness is a startup failure, not a death: only
    /// the closed event fires, and the caller reports a failed start.
    /// Any further call finds the session closed and does nothing at
    /// all, so no event ever fires twice.
    pub fn on_exit(&mut self, status_code: i32) -> (r: ExitEffects)
        requires
            old(self).well_formed(),
        ensures
            final(self).well_formed(),
            old(self).closed ==> {
                &&& *final(self) == *old(self)
                &&& r.events@.len() == 0
                &&& r.failed_requests@.len() == 0
                &&& r.failed_payload_requests@.len() == 0
                &&& r.resource_events@.len() == 0
            },
            !old(self).closed ==> {
                &&& final(self).closed
                &&& final(self).dead == (old(self).dead || old(self).ready)
                &&& r.events@ == if old(self).ready {
                    seq![WorkerEvent::Dead { status_code }, WorkerEvent::Closed]
                } else {
                    seq![WorkerEvent::Closed]
                }
                &&& r.failed_requests@ == old(self).channel.pending@
                &&& r.failed_payload_requests@ == old(self).payload_channel.pending@
                &&& final(self).channel.closed
                &&& final(self).channel.pending@.len() == 0
                &&& final(self).channel.next_id == old(self).channel.next_id
                &&& final(self).payload_channel.closed
                &&& final(self).payload_channel.pending@.len() == 0
                &&& final(self).payload_channel.next_id == old(self).payload_channel.next_id
                &&& final(self).graph.nodes@ == all_closed(old(self).graph.nodes@)
                &&& r.resource_events@ == close_all_actions(
                    old(self).graph.nodes@,
                    old(self).graph.nodes@.len() - 1,
                )
            },
    {
        if self.closed {
            return ExitEffects {
                events: Vec::new(),
                failed_requests: Vec::new(),
                failed_payload_requests: Vec::new(),
                resource_events: Vec::new(),
            };
        }
        self.closed = true;
        let mut events: Vec<WorkerEvent> = Vec::new();
        if self.ready {
            self.dead = true;
            events.push(WorkerEvent::Dead { status_code });
        }
        events.push(WorkerEvent::Closed);
        proof {
            if old(self).ready {
                assert(events@ =~= seq![
                    WorkerEvent::Dead { status_code },
                    WorkerEvent::Closed,
                ]);
            } else {
                assert(events@ =~= seq![WorkerEvent::Closed]);
            }
        }
        let failed_requests = self.channel.close();
        let failed_payload_requests = self.payload_channel.close();
        let resource_events = self.graph.close_all();
        ExitEffects { events, failed_requests, failed_payload_requests, resource_events }
    }

    /// Prepares a direct send through a data consumer: a request on the
    /// payload channel carrying two consecutive frames, the envelope
    /// announcing the payload protocol identifier and the raw payload.
    /// A closed consumer fails fast as already-closed — nothing is
    /// built or allocated; then an oversized payload, a closed payload
    /// channel and an oversized envelope are rejected in that order,
    /// an oversized envelope leaving no pending entry behind; and on an
    /// open consumer and channel with everything in bounds the send is
    /// owed: both frames come back with a fresh correlation id.
    pub fn prepare_data_consumer_send(
        &mut self,
        consumer: &DataConsumer,
        message: WebRtcMessage,
    ) -> (r: Result<(u64, Vec<u8>, Vec<u8>), RequestError>)
        requires
            old(self).well_formed(),
            old(self).payload_channel.next_id < u64::MAX,
            consumer.node < old(self).graph.nodes@.len(),
        ensures
            final(self).well_formed(),
            *final(self) == (Worker { payload_channel: final(self).payload_channel, ..*old(self) }),
            old(self).graph.nodes@[consumer.node as int].closed ==> r == Err::<
                (u64, Vec<u8>, Vec<u8>),
                _,
            >(RequestError::ChannelClosed) && final(self).payload_channel == old(
                self,
            ).payload_channel,
            !old(self).graph.nodes@[consumer.node as int].closed ==> {
                let pay_long = message_payload(message).len() > PAYLOAD_MAX_LEN;
                &&& pay_long <==> r == Err::<(u64, Vec<u8>, Vec<u8>), _>(
                    RequestError::PayloadTooLong,
                )
                &&& pay_long ==> final(self).payload_channel == old(self).payload_channel
                &&& !pay_long && old(self).payload_channel.closed ==> r == Err::<
                    (u64, Vec<u8>, Vec<u8>),
                    _,
                >(RequestError::ChannelClosed) && final(self).payload_channel == old(
                    self,
                ).payload_channel
                &&& !pay_long && !old(self).payload_channel.closed ==> {
                    let msg = request_chars(
                        old(self).payload_channel.next_id,
                        method_chars(RequestKind::DataConsumerSend),
                        data_consumer_internal_chars(consumer.internal),
                        Some(ppid_data_chars(message_ppid(message))),
                    );
                    let hdr_long = encode_utf8(msg).len() > MESSAGE_MAX_LEN;
                    &&& hdr_long <==> r == Err::<(u64, Vec<u8>, Vec<u8>), _>(
                        RequestError::MessageTooLong,
                    )
                    &&& hdr_long ==> final(self).payload_channel.pending@ == old(
                        self,
                    ).payload_channel.pending@
                    &&& !hdr_long ==> r is Ok
                    &&& r matches Ok(t) ==> {
                        &&& t.0 == old(self).payload_channel.next_id
                        &&& final(self).payload_channel.pending@ == old(
                            self,
                        ).payload_channel.pending@.push(t.0)
                        &&& t.1@ == frame_bytes(encode_utf8(msg))
                        &&& t.2@ == frame_bytes(message_payload(message))
                    }
                }
            },
    {
        if self.graph.is_closed(consumer.node) {
            return Err(RequestError::ChannelClosed);
        }
        let (ppid, payload_bytes) = message.into_ppid_and_payload();
        if payload_bytes.len() > PAYLOAD_MAX_LEN {
            return Err(RequestError::PayloadTooLong);
        }
        let id = match self.payload_channel.begin_request() {
            Ok(id) => id,
            Err(e) => {
                return Err(e);
            },
        };
        let internal = crate::messages::data_consumer_internal_json(&consumer.internal);
        let data = ppid_data_json(ppid);
        let msg = build_request(id, RequestKind::DataConsumerSend, &internal, Some(&data));
        let header_bytes = msg.as_str().as_bytes_vec();
        if header_bytes.len() > MESSAGE_MAX_LEN {
            let _ = self.payload_channel.take_pending(id);
            proof {
                crate::channel::lemma_push_remove_value(old(self).payload_channel.pending@, id);
            }
            return Err(RequestError::MessageTooLong);
        }
        let header = encode_frame(header_bytes);
        let payload = encode_frame(payload_bytes);
        Ok((id, header, payload))
    }

    /// Prepares a direct send through a data producer: a fire-and-forget
    /// notification on the payload channel, again as an envelope frame
    /// followed by the raw payload frame. A closed producer fails fast
    /// as already-closed; an oversized payload, a closed payload
    /// channel and an oversized envelope are rejected locally in that
    /// order; otherwise the two frames come back — nothing else can
    /// fail.
    #[verifier::rlimit(100)]
    #[verifier::spinoff_prover]
    pub fn prepare_data_producer_send(
        &mut self,
        producer: &DataProducer,
        message: WebRtcMessage,
    ) -> (r: Result<(Vec<u8>, Vec<u8>), NotificationError>)
        requires
            old(self).well_formed(),
            producer.node < old(self).graph.nodes@.len(),
        ensures
            final(self).well_formed(),
            *final(self) == *old(self),
            old(self).graph.nodes@[producer.node as int].closed ==> r == Err::<
                (Vec<u8>, Vec<u8>),
                _,
            >(NotificationError::ChannelClosed),
            !old(self).graph.nodes@[producer.node as int].closed ==> {
                let pay_long = message_payload(message).len() > PAYLOAD_MAX_LEN;
                &&& pay_long <==> r == Err::<(Vec<u8>, Vec<u8>), _>(
                    NotificationError::PayloadTooLong,
                )
                &&& !pay_long && old(self).payload_channel.closed ==> r == Err::<
                    (Vec<u8>, Vec<u8>),
                    _,
                >(NotificationError::ChannelClosed)
                &&& !pay_long && !old(self).payload_channel.closed ==> {
                    let msg = notification_chars(
                        "dataProducer.send"@,
                        data_producer_internal_chars(producer.internal),
                        Some(ppid_data_chars(message_ppid(message))),
                    );
                    let hdr_long = encode_utf8(msg).len() > MESSAGE_MAX_LEN;
                    &&& hdr_long <==> r == Err::<(Vec<u8>, Vec<u8>), _>(
                        NotificationError::MessageTooLong,
                    )
                    &&& !hdr_long ==> r is Ok
                    &&& r matches Ok(t) ==> {
                        &&& t.0@ == frame_bytes(encode_utf8(msg))
                        &&& t.1@ == frame_bytes(message_payload(message))
                    }
                }
            },
    {
        if self.graph.is_closed(producer.node) {
            return Err(NotificationError::ChannelClosed);
        }
        let (ppid, payload_bytes) = message.into_ppid_and_payload();
        if payload_bytes.len() > PAYLOAD_MAX_LEN {
            return Err(NotificationError::PayloadTooLong);
        }
        if self.payload_channel.closed {
            return Err(NotificationError::ChannelClosed);
        }
        proof {
            reveal_strlit("dataProducer.send");
        }
        let internal = crate::messages::data_producer_internal_json(&producer.internal);
        let data = ppid_data_json(ppid);
        let header_text = build_notification("dataProducer.send", &internal, Some(&data));
        let header_bytes = header_text.as_str().as_bytes_vec();
        if header_bytes.len() > MESSAGE_MAX_LEN {
            return Err(NotificationError::MessageTooLong);
        }
        let header = encode_frame(header_bytes);
        let payload = encode_frame(payload_bytes);
        Ok((header, payload))
    }

    /// Whether an observed subprocess exit is a startup failure: the
    /// process ended before it ever announced readiness, so the caller
    /// reports a failed start instead of a death.
    pub fn exit_is_startup_failure(&self) -> (r: bool)
        ensures
            r == !self.ready,
    {
        !self.ready
    }

    /// Applies one interpreted notification to the data consumer it is
    /// addressed to: the producer-closed event closes the consumer
    /// itself — a removal by the remote side, so nothing goes upstream
    /// — while the two flow-control events touch no state and are only
    /// handed to the subscribed callbacks.
    pub fn apply_consumer_notification(
        &mut self,
        consumer_node: usize,
        n: crate::data_consumer::DataConsumerNotification,
    ) -> (acts: Vec<CloseAction>)
        requires
            old(self).well_formed(),
            consumer_node < old(self).graph.nodes@.len(),
        ensures
            final(self).well_formed(),
            *final(self) == (Worker { graph: final(self).graph, ..*old(self) }),
            n is DataProducerClose ==> {
                &&& final(self).graph.nodes@ == closed_after(
                    old(self).graph.nodes@,
                    consumer_node as int,
                )
                &&& acts@ == close_actions(
                    old(self).graph.nodes@,
                    consumer_node as int,
                    CloseTrigger::Remote,
                )
            },
            !(n is DataProducerClose) ==> *final(self) == *old(self) && acts@.len() == 0,
    {
        match n {
            crate::data_consumer::DataConsumerNotification::DataProducerClose => {
                self.graph.close(consumer_node, CloseTrigger::Remote)
            },
            _ => Vec::new(),
        }
    }

    /// Registers a single-fire callback for a resource's own closed
    /// event, under the resource's identity. The returned flag says
    /// whether the resource is already closed, in which case the
    /// callback must run in place, exactly once, before registration
    /// returns — a close that already happened fires no event again.
    pub fn register_close_callback(&mut self, node: usize) -> (r: (u64, bool))
        requires
            old(self).well_formed(),
            node < old(self).graph.nodes@.len(),
            old(self).registry.next_handle < u64::MAX,
        ensures
            final(self).well_formed(),
            *final(self) == (Worker { registry: final(self).registry, ..*old(self) }),
            final(self).registry@ == subscribe_t(
                old(self).registry@,
                SubscriptionTarget::Uuid(old(self).graph.nodes@[node as int].id),
                true,
            ),
            r.0 == old(self).registry@.next_handle,
            r.1 == old(self).graph.nodes@[node as int].closed,
    {
        let id = self.graph.nodes[node].id;
        let fire_in_place = self.graph.is_closed(node);
        let handle = self.registry.subscribe(SubscriptionTarget::Uuid(id), true);
        (handle, fire_in_place)
    }

    /// Closes the session from the application side (an explicit close
    /// or the drop of the last handle): tears both channels down,
    /// failing every still-pending request with `ChannelClosed`,
    /// forcibly closes every resource — the subprocess is being stopped,
    /// so nothing goes upstream — and fires the single closed event.
    /// The dead event never fires here, and a session already closed
    /// does nothing at all.
    pub fn close(&mut self) -> (r: ExitEffects)
        requires
            old(self).well_formed(),
        ensures
            final(self).well_formed(),
            final(self).closed,
            final(self).dead == old(self).dead,
            old(self).closed ==> {
                &&& *final(self) == *old(self)
                &&& r.events@.len() == 0
                &&& r.failed_requests@.len() == 0
                &&& r.failed_payload_requests@.len() == 0
                &&& r.resource_events@.len() == 0
            },
            !old(self).closed ==> {
                &&& r.events@ == seq![WorkerEvent::Closed]
                &&& r.failed_requests@ == old(self).channel.pending@
                &&& r.failed_payload_requests@ == old(self).payload_channel.pending@
                &&& final(self).channel.closed
                &&& final(self).channel.pending@.len() == 0
                &&& final(self).channel.next_id == old(self).channel.next_id
                &&& final(self).payload_channel.closed
                &&& final(self).payload_channel.pending@.len() == 0
                &&& final(self).payload_channel.next_id == old(self).payload_channel.next_id
                &&& final(self).graph.nodes@ == all_closed(old(self).graph.nodes@)
                &&& r.resource_events@ == close_all_actions(
                    old(self).graph.nodes@,
                    old(self).graph.nodes@.len() - 1,
                )
            },
    {
        if self.closed {
            return ExitEffects {
                events: Vec::new(),
                failed_requests: Vec::new(),
                failed_payload_requests: Vec::new(),
                resource_events: Vec::new(),
            };
        }
        self.closed = true;
        let mut events: Vec<WorkerEvent> = Vec::new();
        events.push(WorkerEvent::Closed);
        proof {
            assert(events@ =~= seq![WorkerEvent::Closed]);
        }
        let failed_requests = self.channel.close();
        let failed_payload_requests = self.payload_channel.close();
        let resource_events = self.graph.close_all();
        ExitEffects { events, failed_requests, failed_payload_requests, resource_events }
    }
}

} // verus!
