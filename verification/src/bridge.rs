use vstd::prelude::*;

use crate::events::{event_name, event_name_spec, CallbackKind};
use crate::json::{json_wf, parse_json};

verus! {

/// The body of a native callback as the host's channel delivers it:
/// JSON text, or raw bytes that the bridge does not understand.
pub enum ResponseBody {
    Json(String),
    Raw(Vec<u8>),
}

/// What the bridge emits for one callback: the decoded payload, forwarded
/// as it came, or the fixed error marker — one field named `error` holding
/// a fixed message.
pub enum EmitPayload {
    Forward(serde_json::Value),
    Error(String, String),
}

/// One application event to emit: its name and its payload.
pub struct Emission {
    pub event: String,
    pub payload: EmitPayload,
}

/// The field name of the error marker.
pub open spec fn error_key() -> Seq<char> {
    "error"@
}

/// The message of the error marker.
pub open spec fn error_message() -> Seq<char> {
    "Unsupported response type"@
}

/// A payload is the fixed error marker.
pub open spec fn is_error_marker(p: EmitPayload) -> bool {
    match p {
        EmitPayload::Error(k, m) => k@ == error_key() && m@ == error_message(),
        EmitPayload::Forward(_) => false,
    }
}

/// The fixed payload emitted when a callback body cannot be decoded.
pub fn error_payload() -> (r: EmitPayload)
    ensures
        is_error_marker(r),
{
    EmitPayload::Error(
        String::from_str("error"),
        String::from_str("Unsupported response type"),
    )
}

/// Build the emission for a callback once its body has been decoded:
/// a decoded payload is forwarded exactly as it came, under the
/// callback's application event; a failed decode yields the fixed error
/// marker under the same event.
pub fn emission_for(kind: CallbackKind, parsed: Option<serde_json::Value>) -> (r: Emission)
    ensures
        r.event@ == event_name_spec(kind),
        match parsed {
            Some(v) => r.payload == EmitPayload::Forward(v),
            None => is_error_marker(r.payload),
        },
{
    let event = event_name(kind);
    match parsed {
        Some(v) => Emission { event, payload: EmitPayload::Forward(v) },
        None => Emission { event, payload: error_payload() },
    }
}

/// Decide what to emit for one native callback. Every callback yields an
/// emission under the callback's application event: a well-formed JSON
/// body is decoded and forwarded, and any body that cannot be decoded as
/// JSON yields the fixed error marker instead.
pub fn handle_callback(kind: CallbackKind, body: ResponseBody) -> (r: Emission)
    ensures
        r.event@ == event_name_spec(kind),
        match body {
            ResponseBody::Json(s) => if json_wf(s@) {
                r.payload is Forward
            } else {
                is_error_marker(r.payload)
            },
            ResponseBody::Raw(_) => is_error_marker(r.payload),
        },
{
    match body {
        ResponseBody::Json(s) => {
            let parsed = parse_json(s.as_str());
            emission_for(kind, parsed)
        }
        ResponseBody::Raw(_) => emission_for(kind, None),
    }
}

} // verus!
