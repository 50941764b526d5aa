//! Task handler: turns one pulled wire envelope into at most one reply.
//!
//! Decode, dispatch against the Client capability, encode — with the
//! rejection rule of the protocol: a task that cannot be dispatched still
//! gets a reply with status code `Error` when its identity could be
//! recovered, and is skipped only when the identity itself is
//! unrecoverable.  The loop never loses a task silently otherwise.

use vstd::prelude::*;

use crate::client::Client;
use crate::codec::DecodeError;
use crate::codec::decode;
use crate::codec::encode;
use crate::codec::payload_of_wire;
use crate::codec::spec_decode;
use crate::codec::wire_of_payload;
use crate::dispatch::dispatch;
use crate::dispatch::error_payload;
use crate::dispatch::make_error_payload;
use crate::types::OpKind;
use crate::types::TaskEnvelope;
use crate::types::TaskPayload;
use crate::types::TaskPayloadV;
use crate::wire::WireTask;
use crate::wire::WireTaskV;

verus! {

/// Reply message for an envelope that embedded no payload.
pub open spec fn empty_payload_text() -> Seq<char> {
    "task envelope carried no payload"@
}

/// Reply message for a payload of an unsupported kind.
pub open spec fn unsupported_text() -> Seq<char> {
    "unsupported task payload"@
}

/// Reply message for an inbound payload that is a response, not a
/// request.
pub open spec fn not_a_request_text() -> Seq<char> {
    "task payload is not a request"@
}

/// A wire task the dispatcher can run: it decodes, and the decoded
/// payload is an operation request.
pub open spec fn dispatchable(w: WireTaskV) -> bool {
    match spec_decode(w) {
        Ok(e) => e.payload.is_request(),
        Err(_) => false,
    }
}

/// The message of the rejection reply for a task that cannot be
/// dispatched.
pub open spec fn rejection_text(w: WireTaskV) -> Seq<char> {
    match spec_decode(w) {
        Err(DecodeError::EmptyPayload) => empty_payload_text(),
        Err(DecodeError::UnsupportedTask) => unsupported_text(),
        Ok(_) => not_a_request_text(),
    }
}

/// The payload of a rejection reply: an error status with the given
/// message.  A fetch-properties response is the leanest response — it
/// carries only a status besides its (empty) mapping — so it serves as
/// the carrier.
pub open spec fn rejection_payload(msg: Seq<char>) -> TaskPayloadV {
    error_payload(OpKind::FetchProperties, msg)
}

/// A rejection reply is never a malformed partial result: its payload is
/// a response with status code `Error` and a non-empty message naming
/// why the task was rejected.
pub proof fn lemma_rejection_reply(w: WireTaskV)
    ensures
        rejection_payload(rejection_text(w)).is_response(),
        rejection_payload(rejection_text(w)).status() == Some(
            crate::dispatch::error_status(rejection_text(w)),
        ),
        rejection_text(w).len() > 0,
{
    reveal_strlit("task envelope carried no payload");
    reveal_strlit("unsupported task payload");
    reveal_strlit("task payload is not a request");
}

/// Builds the rejection reply for a task with a recoverable identity.
fn make_rejection(task_id: String, group_id: String, message: String) -> (res: WireTask)
    ensures
        res.deep_view().task_id == task_id.deep_view(),
        res.deep_view().group_id == group_id.deep_view(),
        res.deep_view().payload == Some(
            wire_of_payload(rejection_payload(message.deep_view())),
        ),
{
    let payload = make_error_payload(OpKind::FetchProperties, message);
    encode(TaskEnvelope { task_id, group_id, payload })
}

/// Handles one pulled wire envelope: dispatches it when it decodes to an
/// operation request; otherwise replies with an error status when the
/// task's identity could be recovered, and skips it (returning nothing)
/// only when the identity itself is unrecoverable.
pub fn handle_task<C: Client>(w: WireTask, client: &C) -> (r: Option<WireTask>)
    ensures
        ({
            let wv = w.deep_view();
            match r {
                None => !dispatchable(wv) && wv.task_id.len() == 0,
                Some(res) => {
                    let rv = res.deep_view();
                    &&& rv.task_id == wv.task_id
                    &&& rv.group_id == wv.group_id
                    &&& (dispatchable(wv) ==> (match (spec_decode(wv), rv.payload) {
                        (Ok(e), Some(p)) => match payload_of_wire(p) {
                            Some(dp) => dp.is_response() && dp.response_kind()
                                == e.payload.request_kind(),
                            None => false,
                        },
                        _ => false,
                    }))
                    &&& (!dispatchable(wv) ==> wv.task_id.len() > 0 && rv.payload == Some(
                        wire_of_payload(rejection_payload(rejection_text(wv))),
                    ))
                },
            }
        }),
{
    let task_id = w.task_id.clone();
    let group_id = w.group_id.clone();
    match decode(w) {
        Ok(env) => {
            let is_req = match &env.payload {
                TaskPayload::GetParametersIns => true,
                TaskPayload::GetPropertiesIns(_) => true,
                TaskPayload::FitIns(_) => true,
                TaskPayload::EvaluateIns(_) => true,
                _ => false,
            };
            if is_req {
                let reply = dispatch(env, client);
                Some(encode(reply))
            } else if task_id.as_str().is_empty() {
                None
            } else {
                Some(make_rejection(task_id, group_id, "task payload is not a request".to_owned()))
            }
        },
        Err(e) => {
            if task_id.as_str().is_empty() {
                None
            } else {
                let message = match e {
                    DecodeError::EmptyPayload => "task envelope carried no payload".to_owned(),
                    DecodeError::UnsupportedTask => "unsupported task payload".to_owned(),
                };
                Some(make_rejection(task_id, group_id, message))
            }
        },
    }
}

} // verus!
