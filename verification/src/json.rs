//! Decoding of inbound control JSON.
//!
//! The JSON itself is read through `serde_json`, which the crate trusts
//! for exactly this: reading one member of the document the frame bytes
//! hold. Each read is a pure function of the bytes, so its result
//! carries a name, and the decoder's own contract — and everything
//! decided on the decoded fields: correlation, routing, event
//! interpretation — is stated over those names and verified.

use vstd::prelude::*;
use vstd::string::StringExecFns;
use crate::ids::SubscriptionTarget;

verus! {

/// The unsigned value of the member under `key`, if `bytes` is a JSON
/// object whose member under `key` is such a number.
pub uninterp spec fn json_u64_field(bytes: Seq<u8>, key: Seq<char>) -> Option<u64>;

/// The boolean value of the member under `key`, likewise.
pub uninterp spec fn json_bool_field(bytes: Seq<u8>, key: Seq<char>) -> Option<bool>;

/// The text of the string member under `key`, likewise.
pub uninterp spec fn json_text_field(bytes: Seq<u8>, key: Seq<char>) -> Option<Seq<char>>;

/// Whether `bytes` is a JSON object holding a member under `key`.
pub uninterp spec fn json_has_field(bytes: Seq<u8>, key: Seq<char>) -> bool;

/// The unsigned value of the member under `key` inside the `data`
/// member, likewise.
pub uninterp spec fn json_data_u64_field(bytes: Seq<u8>, key: Seq<char>) -> Option<u64>;

/// The 128-bit identifier a piece of text denotes, if it is the textual
/// form of one.
pub uninterp spec fn uuid_of_text(s: Seq<char>) -> Option<u128>;

/// Relies on `serde_json::from_slice`, `Value::get` and `Value::as_u64`:
/// reads the unsigned number under `key`, or nothing when the bytes are
/// not a JSON object carrying one. A pure function of its arguments.
#[verifier::external_body]
fn read_u64_field(bytes: &[u8], key: &str) -> (r: Option<u64>)
    ensures
        r == json_u64_field(bytes@, key@),
{
    serde_json::from_slice::<serde_json::Value>(bytes)
        .ok()
        .and_then(|v| v.get(key).and_then(|f| f.as_u64()))
}

/// Relies on `serde_json::from_slice`, `Value::get` and `Value::as_bool`:
/// reads the boolean under `key`, or nothing. A pure function of its
/// arguments.
#[verifier::external_body]
fn read_bool_field(bytes: &[u8], key: &str) -> (r: Option<bool>)
    ensures
        r == json_bool_field(bytes@, key@),
{
    serde_json::from_slice::<serde_json::Value>(bytes)
        .ok()
        .and_then(|v| v.get(key).and_then(|f| f.as_bool()))
}

/// Relies on `serde_json::from_slice`, `Value::get` and `Value::as_str`:
/// reads the text under `key`, or nothing. A pure function of its
/// arguments.
#[verifier::external_body]
fn read_text_field(bytes: &[u8], key: &str) -> (r: Option<String>)
    ensures
        match r {
            Some(s) => json_text_field(bytes@, key@) == Some(s@),
            None => json_text_field(bytes@, key@) is None,
        },
{
    serde_json::from_slice::<serde_json::Value>(bytes)
        .ok()
        .and_then(|v| v.get(key).and_then(|f| f.as_str().map(str::to_owned)))
}

/// Relies on `serde_json::from_slice` and `Value::get`: whether the
/// bytes are a JSON object with a member under `key`. A pure function
/// of its arguments.
#[verifier::external_body]
fn read_has_field(bytes: &[u8], key: &str) -> (r: bool)
    ensures
        r == json_has_field(bytes@, key@),
{
    serde_json::from_slice::<serde_json::Value>(bytes)
        .ok()
        .and_then(|v| v.get(key).map(|_| ()))
        .is_some()
}

/// Relies on `serde_json::from_slice`, `Value::get` and `Value::as_u64`:
/// reads the unsigned number under `key` inside the `data` member, or
/// nothing. A pure function of its arguments.
#[verifier::external_body]
pub(crate) fn read_data_u64_field(bytes: &[u8], key: &str) -> (r: Option<u64>)
    ensures
        r == json_data_u64_field(bytes@, key@),
{
    serde_json::from_slice::<serde_json::Value>(bytes)
        .ok()
        .and_then(|v| v.get("data").and_then(|d| d.get(key).and_then(|f| f.as_u64())))
}

/// Relies on `uuid::Uuid::parse_str`: reads an identifier from its
/// textual form, or nothing when the text is not one. A pure function
/// of its argument.
#[verifier::external_body]
fn parse_uuid_str(s: &str) -> (r: Option<u128>)
    ensures
        r == uuid_of_text(s@),
{
    match uuid::Uuid::parse_str(s) {
        Ok(u) => Some(u.as_u128()),
        Err(_) => None,
    }
}

/// One decoded control message, reduced to the plain values the
/// verified dispatch logic works on.
#[derive(Debug, Clone)]
pub enum ControlMessage {
    /// A response: correlation id, acceptance, the worker's reason when
    /// it rejected, and the flat data fields a response body may carry.
    Response {
        /// Correlation id the response answers.
        id: u64,
        /// Whether the worker accepted the request.
        accepted: bool,
        /// The worker's reason when it rejected the request.
        reason: String,
        /// Whether the response carries a data body at all.
        has_data: bool,
        /// The `bufferedAmount` data field, when present.
        buffered_amount: Option<u64>,
    },
    /// A notification: target identity, event tag, and the two data
    /// fields any consumer-facing event may carry.
    Notification {
        /// Identity the notification is addressed to.
        target: SubscriptionTarget,
        /// Event tag.
        event: String,
        /// The `bufferedAmount` data field, when present.
        buffered_amount: Option<u64>,
        /// The `ppid` data field, when present.
        ppid: Option<u64>,
    },
    /// Anything else: logged and dropped, never fatal to the stream.
    Unrecognized,
}

/// The identity a frame's `targetId` member routes to: a resource
/// identifier when the member is the textual form of one, the worker's
/// process number when it is a number, nothing otherwise.
pub open spec fn frame_target(bytes: Seq<u8>) -> Option<SubscriptionTarget> {
    match json_text_field(bytes, "targetId"@) {
        Some(s) => match uuid_of_text(s) {
            Some(u) => Some(SubscriptionTarget::Uuid(u)),
            None => None,
        },
        None => match json_u64_field(bytes, "targetId"@) {
            Some(n) => Some(SubscriptionTarget::Number(n)),
            None => None,
        },
    }
}

/// Decodes one control frame into the values dispatch decides on: a
/// frame carrying an `id` member is a response, exactly as extracted; a
/// frame carrying a target and an event is a notification; anything
/// else — malformed JSON included — is unrecognised, logged by the
/// caller, and dropped, never fatal to the stream. A rejection's reason
/// defaults to empty text and a missing `accepted` member means
/// rejection.
pub fn parse_control_frame(frame: &[u8]) -> (r: ControlMessage)
    ensures
        json_u64_field(frame@, "id"@) matches Some(i) ==> (r matches ControlMessage::Response {
            id,
            accepted,
            reason,
            has_data,
            buffered_amount,
        } && {
            &&& id == i
            &&& accepted == (json_bool_field(frame@, "accepted"@) == Some(true))
            &&& (match json_text_field(frame@, "reason"@) {
                Some(t) => reason@ == t,
                None => reason@ == Seq::<char>::empty(),
            })
            &&& has_data == json_has_field(frame@, "data"@)
            &&& buffered_amount == json_data_u64_field(frame@, "bufferedAmount"@)
        }),
        json_u64_field(frame@, "id"@) is None ==> (match (
            frame_target(frame@),
            json_text_field(frame@, "event"@),
        ) {
            (Some(t), Some(e)) => r matches ControlMessage::Notification {
                target,
                event,
                buffered_amount,
                ppid,
            } && {
                &&& target == t
                &&& event@ == e
                &&& buffered_amount == json_data_u64_field(frame@, "bufferedAmount"@)
                &&& ppid == json_data_u64_field(frame@, "ppid"@)
            },
            _ => r == ControlMessage::Unrecognized,
        }),
{
    match read_u64_field(frame, "id") {
        Some(id) => {
            let accepted = match read_bool_field(frame, "accepted") {
                Some(b) => b,
                None => false,
            };
            let reason = match read_text_field(frame, "reason") {
                Some(t) => t,
                None => String::new(),
            };
            let has_data = read_has_field(frame, "data");
            let buffered_amount = read_data_u64_field(frame, "bufferedAmount");
            return ControlMessage::Response { id, accepted, reason, has_data, buffered_amount };
        },
        None => {},
    }
    let event = match read_text_field(frame, "event") {
        Some(e) => e,
        None => {
            return ControlMessage::Unrecognized;
        },
    };
    let target: SubscriptionTarget = match read_text_field(frame, "targetId") {
        Some(s) => {
            match parse_uuid_str(s.as_str()) {
                Some(u) => SubscriptionTarget::Uuid(u),
                None => {
                    return ControlMessage::Unrecognized;
                },
            }
        },
        None => {
            match read_u64_field(frame, "targetId") {
                Some(n) => SubscriptionTarget::Number(n),
                None => {
                    return ControlMessage::Unrecognized;
                },
            }
        },
    };
    let buffered_amount = read_data_u64_field(frame, "bufferedAmount");
    let ppid = read_data_u64_field(frame, "ppid");
    ControlMessage::Notification { target, event, buffered_amount, ppid }
}

} // verus!
