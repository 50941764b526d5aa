//! Message translator: the stateless, bidirectional mapping between wire
//! envelopes and domain task envelopes.
//!
//! `decode` and `encode` are total over their inputs; the round-trip law
//! `spec_decode(spec_encode(e)) == Ok(e)` is proved in
//! [`lemma_round_trip`].  All sequence and mapping fields are copied
//! without reordering or deduplication.

use vstd::prelude::*;

use crate::types::TaskEnvelope;
use crate::types::TaskEnvelopeV;
use crate::types::TaskPayload;
use crate::types::TaskPayloadV;
use crate::wire::WirePayload;
use crate::wire::WirePayloadV;
use crate::wire::WireTask;
use crate::wire::WireTaskV;

verus! {

/// Why a wire envelope could not be decoded.
#[derive(Clone, Copy, PartialEq, Eq, Structural, Debug)]
pub enum DecodeError {
    /// The envelope embedded no payload at all, violating the
    /// one-payload-per-envelope invariant.
    EmptyPayload,
    /// The embedded payload is of a kind outside the supported operation
    /// set.
    UnsupportedTask,
}

/// The wire form of a domain payload.
pub open spec fn wire_of_payload(p: TaskPayloadV) -> WirePayloadV {
    match p {
        TaskPayloadV::GetParametersIns => WirePayloadV::GetParametersIns,
        TaskPayloadV::GetPropertiesIns(m) => WirePayloadV::GetPropertiesIns(m),
        TaskPayloadV::FitIns(m) => WirePayloadV::FitIns(m),
        TaskPayloadV::EvaluateIns(m) => WirePayloadV::EvaluateIns(m),
        TaskPayloadV::GetParametersRes(m) => WirePayloadV::GetParametersRes(m),
        TaskPayloadV::GetPropertiesRes(m) => WirePayloadV::GetPropertiesRes(m),
        TaskPayloadV::FitRes(m) => WirePayloadV::FitRes(m),
        TaskPayloadV::EvaluateRes(m) => WirePayloadV::EvaluateRes(m),
    }
}

/// The domain payload a wire payload stands for, if its kind is supported.
pub open spec fn payload_of_wire(w: WirePayloadV) -> Option<TaskPayloadV> {
    match w {
        WirePayloadV::GetParametersIns => Some(TaskPayloadV::GetParametersIns),
        WirePayloadV::GetPropertiesIns(m) => Some(TaskPayloadV::GetPropertiesIns(m)),
        WirePayloadV::FitIns(m) => Some(TaskPayloadV::FitIns(m)),
        WirePayloadV::EvaluateIns(m) => Some(TaskPayloadV::EvaluateIns(m)),
        WirePayloadV::GetParametersRes(m) => Some(TaskPayloadV::GetParametersRes(m)),
        WirePayloadV::GetPropertiesRes(m) => Some(TaskPayloadV::GetPropertiesRes(m)),
        WirePayloadV::FitRes(m) => Some(TaskPayloadV::FitRes(m)),
        WirePayloadV::EvaluateRes(m) => Some(TaskPayloadV::EvaluateRes(m)),
        WirePayloadV::Unrecognized(_) => None,
    }
}

/// What `encode` produces: the same identity, the payload wrapped.
pub open spec fn spec_encode(e: TaskEnvelopeV) -> WireTaskV {
    WireTaskV {
        task_id: e.task_id,
        group_id: e.group_id,
        payload: Some(wire_of_payload(e.payload)),
    }
}

/// What `decode` produces: an envelope with the same identity when the
/// payload is present and supported, the exact error otherwise.
pub open spec fn spec_decode(w: WireTaskV) -> Result<TaskEnvelopeV, DecodeError> {
    match w.payload {
        None => Err(DecodeError::EmptyPayload),
        Some(wp) => match payload_of_wire(wp) {
            None => Err(DecodeError::UnsupportedTask),
            Some(p) => Ok(
                TaskEnvelopeV { task_id: w.task_id, group_id: w.group_id, payload: p },
            ),
        },
    }
}

/// Encodes a domain envelope into wire form.
pub fn encode(e: TaskEnvelope) -> (w: WireTask)
    ensures
        w.deep_view() == spec_encode(e.deep_view()),
{
    let TaskEnvelope { task_id, group_id, payload } = e;
    let wp = match payload {
        TaskPayload::GetParametersIns => WirePayload::GetParametersIns,
        TaskPayload::GetPropertiesIns(m) => WirePayload::GetPropertiesIns(m),
        TaskPayload::FitIns(m) => WirePayload::FitIns(m),
        TaskPayload::EvaluateIns(m) => WirePayload::EvaluateIns(m),
        TaskPayload::GetParametersRes(m) => WirePayload::GetParametersRes(m),
        TaskPayload::GetPropertiesRes(m) => WirePayload::GetPropertiesRes(m),
        TaskPayload::FitRes(m) => WirePayload::FitRes(m),
        TaskPayload::EvaluateRes(m) => WirePayload::EvaluateRes(m),
    };
    WireTask { task_id, group_id, payload: Some(wp) }
}

/// Decodes a wire envelope, rejecting an absent payload and any payload
/// kind outside the supported operation set.
pub fn decode(w: WireTask) -> (r: Result<TaskEnvelope, DecodeError>)
    ensures
        match r {
            Ok(e) => spec_decode(w.deep_view()) == Ok::<TaskEnvelopeV, DecodeError>(e.deep_view()),
            Err(err) => spec_decode(w.deep_view()) == Err::<TaskEnvelopeV, DecodeError>(err),
        },
{
    let WireTask { task_id, group_id, payload } = w;
    match payload {
        None => Err(DecodeError::EmptyPayload),
        Some(wp) => {
            let p = match wp {
                WirePayload::GetParametersIns => TaskPayload::GetParametersIns,
                WirePayload::GetPropertiesIns(m) => TaskPayload::GetPropertiesIns(m),
                WirePayload::FitIns(m) => TaskPayload::FitIns(m),
                WirePayload::EvaluateIns(m) => TaskPayload::EvaluateIns(m),
                WirePayload::GetParametersRes(m) => TaskPayload::GetParametersRes(m),
                WirePayload::GetPropertiesRes(m) => TaskPayload::GetPropertiesRes(m),
                WirePayload::FitRes(m) => TaskPayload::FitRes(m),
                WirePayload::EvaluateRes(m) => TaskPayload::EvaluateRes(m),
                WirePayload::Unrecognized(_) => {
                    return Err(DecodeError::UnsupportedTask);
                },
            };
            Ok(TaskEnvelope { task_id, group_id, payload: p })
        },
    }
}

/// Round-trip law: decoding an encoded envelope yields the envelope back,
/// for every envelope, in particular for every supported operation kind.
pub proof fn lemma_round_trip(e: TaskEnvelopeV)
    ensures
        spec_decode(spec_encode(e)) == Ok::<TaskEnvelopeV, DecodeError>(e),
{
}

/// Decoding never invents or merges mapping entries: a well-formed wire
/// envelope decodes, if at all, to a well-formed domain envelope, and
/// encoding a well-formed envelope yields a well-formed wire envelope.
pub proof fn lemma_codec_preserves_wf(e: TaskEnvelopeV, w: WireTaskV)
    ensures
        e.wf() ==> spec_encode(e).wf(),
        w.wf() && spec_decode(w) is Ok ==> spec_decode(w)->Ok_0.wf(),
{
}

} // verus!
