//! Wire-format task envelopes, as the transport hands them over.
//!
//! The wire side is looser than the domain side: the embedded payload may
//! be absent, and it may be of a kind this engine does not support (the
//! protocol is extensible).  The message translator in [`crate::codec`]
//! maps between the two.

use vstd::prelude::*;

use crate::types::EvaluateIns;
use crate::types::EvaluateInsV;
use crate::types::EvaluateRes;
use crate::types::EvaluateResV;
use crate::types::FitIns;
use crate::types::FitInsV;
use crate::types::FitRes;
use crate::types::FitResV;
use crate::types::GetParametersRes;
use crate::types::GetParametersResV;
use crate::types::GetPropertiesIns;
use crate::types::GetPropertiesInsV;
use crate::types::GetPropertiesRes;
use crate::types::GetPropertiesResV;
use crate::types::unique_keys;

verus! {

/// Payload of a wire envelope.  `Unrecognized` stands for a payload kind
/// outside the supported operation set; it records the wire tag of the
/// kind that was seen, and decoding rejects it.
#[derive(Clone, PartialEq, Eq, Debug)]
pub enum WirePayload {
    GetParametersIns,
    GetPropertiesIns(GetPropertiesIns),
    FitIns(FitIns),
    EvaluateIns(EvaluateIns),
    GetParametersRes(GetParametersRes),
    GetPropertiesRes(GetPropertiesRes),
    FitRes(FitRes),
    EvaluateRes(EvaluateRes),
    Unrecognized(u64),
}

/// Ghost counterpart of [`WirePayload`].
pub enum WirePayloadV {
    GetParametersIns,
    GetPropertiesIns(GetPropertiesInsV),
    FitIns(FitInsV),
    EvaluateIns(EvaluateInsV),
    GetParametersRes(GetParametersResV),
    GetPropertiesRes(GetPropertiesResV),
    FitRes(FitResV),
    EvaluateRes(EvaluateResV),
    Unrecognized(u64),
}

impl DeepView for WirePayload {
    type V = WirePayloadV;

    open spec fn deep_view(&self) -> WirePayloadV {
        match self {
            WirePayload::GetParametersIns => WirePayloadV::GetParametersIns,
            WirePayload::GetPropertiesIns(m) => WirePayloadV::GetPropertiesIns(m.deep_view()),
            WirePayload::FitIns(m) => WirePayloadV::FitIns(m.deep_view()),
            WirePayload::EvaluateIns(m) => WirePayloadV::EvaluateIns(m.deep_view()),
            WirePayload::GetParametersRes(m) => WirePayloadV::GetParametersRes(m.deep_view()),
            WirePayload::GetPropertiesRes(m) => WirePayloadV::GetPropertiesRes(m.deep_view()),
            WirePayload::FitRes(m) => WirePayloadV::FitRes(m.deep_view()),
            WirePayload::EvaluateRes(m) => WirePayloadV::EvaluateRes(m.deep_view()),
            WirePayload::Unrecognized(tag) => WirePayloadV::Unrecognized(*tag),
        }
    }
}

impl WirePayloadV {
    /// Every mapping embedded in the payload has unique keys.
    pub open spec fn wf(self) -> bool {
        match self {
            WirePayloadV::GetParametersIns => true,
            WirePayloadV::GetPropertiesIns(m) => unique_keys(m.config),
            WirePayloadV::FitIns(m) => unique_keys(m.config),
            WirePayloadV::EvaluateIns(m) => unique_keys(m.config),
            WirePayloadV::GetParametersRes(_) => true,
            WirePayloadV::GetPropertiesRes(m) => unique_keys(m.properties),
            WirePayloadV::FitRes(m) => unique_keys(m.metrics),
            WirePayloadV::EvaluateRes(m) => unique_keys(m.metrics),
            WirePayloadV::Unrecognized(_) => true,
        }
    }
}

/// A task envelope in wire form: routing identity plus an optional,
/// possibly unsupported payload.
#[derive(Clone, PartialEq, Eq, Debug)]
pub struct WireTask {
    pub task_id: String,
    pub group_id: String,
    pub payload: Option<WirePayload>,
}

/// Ghost counterpart of [`WireTask`].
pub struct WireTaskV {
    pub task_id: Seq<char>,
    pub group_id: Seq<char>,
    pub payload: Option<WirePayloadV>,
}

impl DeepView for WireTask {
    type V = WireTaskV;

    open spec fn deep_view(&self) -> WireTaskV {
        WireTaskV {
            task_id: self.task_id.deep_view(),
            group_id: self.group_id.deep_view(),
            payload: self.payload.deep_view(),
        }
    }
}

impl WireTaskV {
    pub open spec fn wf(self) -> bool {
        match self.payload {
            Some(p) => p.wf(),
            None => true,
        }
    }
}

} // verus!
