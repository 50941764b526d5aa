//! Task dispatcher: runs exactly one Client operation for a decoded task
//! and packages the result as a reply with the same routing identity.
//!
//! A failure raised by the capability is contained here: it surfaces as a
//! synthesized response with status code `Error` and a non-empty message,
//! never as a loop-level fault, so the server receives exactly one reply
//! per task it issued.

use vstd::prelude::*;

use crate::client::Client;
use crate::client::ClientError;
use crate::types::Code;
use crate::types::EvaluateRes;
use crate::types::EvaluateResV;
use crate::types::FitRes;
use crate::types::FitResV;
use crate::types::GetParametersRes;
use crate::types::GetParametersResV;
use crate::types::GetPropertiesRes;
use crate::types::GetPropertiesResV;
use crate::types::OpKind;
use crate::types::Parameters;
use crate::types::ParametersV;
use crate::types::Status;
use crate::types::StatusV;
use crate::types::TaskEnvelope;
use crate::types::TaskPayload;
use crate::types::TaskPayloadV;

verus! {

/// Message used when the capability failed without a description.
pub open spec fn fallback_text() -> Seq<char> {
    "client operation failed"@
}

/// The message a synthesized error response carries for a capability
/// failure whose own message is `raw`: the failure's description, or the
/// fallback where it gave none.
pub open spec fn error_text(raw: Seq<char>) -> Seq<char> {
    if raw.len() == 0 {
        fallback_text()
    } else {
        raw
    }
}

/// An error status with the given message.
pub open spec fn error_status(msg: Seq<char>) -> StatusV {
    StatusV { code: Code::Error, message: msg }
}

/// The empty parameters placed in a synthesized error response.
pub open spec fn empty_parameters() -> ParametersV {
    ParametersV { tensors: Seq::empty(), tensor_type: Seq::empty() }
}

/// The response payload synthesized when the operation of the given kind
/// failed: status code `Error`, the given message, and default content.
pub open spec fn error_payload(kind: OpKind, msg: Seq<char>) -> TaskPayloadV {
    match kind {
        OpKind::FetchParameters => TaskPayloadV::GetParametersRes(
            GetParametersResV { status: error_status(msg), parameters: empty_parameters() },
        ),
        OpKind::FetchProperties => TaskPayloadV::GetPropertiesRes(
            GetPropertiesResV { status: error_status(msg), properties: Seq::empty() },
        ),
        OpKind::Fit => TaskPayloadV::FitRes(
            FitResV {
                status: error_status(msg),
                parameters: empty_parameters(),
                num_examples: 0,
                metrics: Seq::empty(),
            },
        ),
        OpKind::Evaluate => TaskPayloadV::EvaluateRes(
            EvaluateResV {
                status: error_status(msg),
                loss_bits: 0,
                num_examples: 0,
                metrics: Seq::empty(),
            },
        ),
    }
}

/// The message for a capability failure, never empty.
fn error_message(e: ClientError) -> (m: String)
    ensures
        m.deep_view() == error_text(e.message.deep_view()),
{
    if e.message.as_str().is_empty() {
        "client operation failed".to_owned()
    } else {
        e.message
    }
}

/// Builds the synthesized error response payload for the given kind.
pub(crate) fn make_error_payload(kind: OpKind, message: String) -> (p: TaskPayload)
    ensures
        p.deep_view() == error_payload(kind, message.deep_view()),
{
    let status = Status { code: Code::Error, message };
    match kind {
        OpKind::FetchParameters => {
            let parameters = Parameters { tensors: Vec::new(), tensor_type: String::new() };
            proof {
                assert(parameters.deep_view().tensors =~= Seq::<Seq<u8>>::empty());
            }
            TaskPayload::GetParametersRes(GetParametersRes { status, parameters })
        },
        OpKind::FetchProperties => {
            let properties: Vec<(String, crate::types::Scalar)> = Vec::new();
            proof {
                assert(properties.deep_view() =~= Seq::<(Seq<char>, crate::types::ScalarV)>::empty());
            }
            TaskPayload::GetPropertiesRes(GetPropertiesRes { status, properties })
        },
        OpKind::Fit => {
            let parameters = Parameters { tensors: Vec::new(), tensor_type: String::new() };
            let metrics: Vec<(String, crate::types::Scalar)> = Vec::new();
            proof {
                assert(parameters.deep_view().tensors =~= Seq::<Seq<u8>>::empty());
                assert(metrics.deep_view() =~= Seq::<(Seq<char>, crate::types::ScalarV)>::empty());
            }
            TaskPayload::FitRes(FitRes { status, parameters, num_examples: 0, metrics })
        },
        OpKind::Evaluate => {
            let metrics: Vec<(String, crate::types::Scalar)> = Vec::new();
            proof {
                assert(metrics.deep_view() =~= Seq::<(Seq<char>, crate::types::ScalarV)>::empty());
            }
            TaskPayload::EvaluateRes(EvaluateRes { status, loss_bits: 0, num_examples: 0, metrics })
        },
    }
}

/// Packages the outcome of a fetch-parameters call: the response itself
/// on success, a synthesized error response on failure.
pub fn wrap_get_parameters(outcome: Result<GetParametersRes, ClientError>) -> (p: TaskPayload)
    ensures
        match outcome {
            Ok(res) => p.deep_view() == TaskPayloadV::GetParametersRes(res.deep_view()),
            Err(e) => p.deep_view() == error_payload(
                OpKind::FetchParameters,
                error_text(e.message.deep_view()),
            ),
        },
{
    match outcome {
        Ok(res) => TaskPayload::GetParametersRes(res),
        Err(e) => make_error_payload(OpKind::FetchParameters, error_message(e)),
    }
}

/// Packages the outcome of a fetch-properties call.
pub fn wrap_get_properties(outcome: Result<GetPropertiesRes, ClientError>) -> (p: TaskPayload)
    ensures
        match outcome {
            Ok(res) => p.deep_view() == TaskPayloadV::GetPropertiesRes(res.deep_view()),
            Err(e) => p.deep_view() == error_payload(
                OpKind::FetchProperties,
                error_text(e.message.deep_view()),
            ),
        },
{
    match outcome {
        Ok(res) => TaskPayload::GetPropertiesRes(res),
        Err(e) => make_error_payload(OpKind::FetchProperties, error_message(e)),
    }
}

/// Packages the outcome of a fit call.
pub fn wrap_fit(outcome: Result<FitRes, ClientError>) -> (p: TaskPayload)
    ensures
        match outcome {
            Ok(res) => p.deep_view() == TaskPayloadV::FitRes(res.deep_view()),
            Err(e) => p.deep_view() == error_payload(OpKind::Fit, error_text(e.message.deep_view())),
        },
{
    match outcome {
        Ok(res) => TaskPayload::FitRes(res),
        Err(e) => make_error_payload(OpKind::Fit, error_message(e)),
    }
}

/// Packages the outcome of an evaluate call.
pub fn wrap_evaluate(outcome: Result<EvaluateRes, ClientError>) -> (p: TaskPayload)
    ensures
        match outcome {
            Ok(res) => p.deep_view() == TaskPayloadV::EvaluateRes(res.deep_view()),
            Err(e) => p.deep_view() == error_payload(
                OpKind::Evaluate,
                error_text(e.message.deep_view()),
            ),
        },
{
    match outcome {
        Ok(res) => TaskPayload::EvaluateRes(res),
        Err(e) => make_error_payload(OpKind::Evaluate, error_message(e)),
    }
}

/// Runs exactly one Client operation for the decoded task and returns
/// exactly one reply envelope whose identity and ancestry equal the
/// input's and whose payload is a response of the request's kind.
pub fn dispatch<C: Client>(env: TaskEnvelope, client: &C) -> (r: TaskEnvelope)
    requires
        env.deep_view().payload.is_request(),
    ensures
        r.deep_view().task_id == env.deep_view().task_id,
        r.deep_view().group_id == env.deep_view().group_id,
        r.deep_view().payload.is_response(),
        r.deep_view().payload.response_kind() == env.deep_view().payload.request_kind(),
{
    let TaskEnvelope { task_id, group_id, payload } = env;
    let reply = match payload {
        TaskPayload::GetParametersIns => wrap_get_parameters(client.get_parameters()),
        TaskPayload::GetPropertiesIns(ins) => wrap_get_properties(client.get_properties(ins)),
        TaskPayload::FitIns(ins) => wrap_fit(client.fit(ins)),
        TaskPayload::EvaluateIns(ins) => wrap_evaluate(client.evaluate(ins)),
        _ => unreached(),
    };
    TaskEnvelope { task_id, group_id, payload: reply }
}

/// Failure containment: whatever failure the capability raised, the
/// synthesized reply is a response of the failed operation's kind, with
/// status code `Error` and a non-empty message.
pub proof fn lemma_failure_containment(kind: OpKind, raw: Seq<char>)
    ensures
        error_payload(kind, error_text(raw)).response_kind() == Some(kind),
        error_payload(kind, error_text(raw)).status() == Some(error_status(error_text(raw))),
        error_text(raw).len() > 0,
{
    reveal_strlit("client operation failed");
}

} // verus!
