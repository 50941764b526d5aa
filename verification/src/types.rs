//! Domain types: parameters, statuses, the per-operation request/response
//! messages, and the task envelope that wraps exactly one of them.
//!
//! Every type has a deep view onto a ghost counterpart built from `Seq`,
//! so that contracts can state value equality extensionally.

use vstd::prelude::*;

verus! {

/// Result code carried by every response status.  Extensible in the
/// protocol; this engine distinguishes success from failure.
#[derive(Clone, Copy, PartialEq, Eq, Structural, Debug)]
pub enum Code {
    Okay,
    Error,
}

impl DeepView for Code {
    type V = Code;

    open spec fn deep_view(&self) -> Code {
        *self
    }
}

/// Outcome report attached to every operation response: a result code and
/// a human-readable message.
#[derive(Clone, PartialEq, Eq, Debug)]
pub struct Status {
    pub code: Code,
    pub message: String,
}

/// Ghost counterpart of [`Status`].
pub struct StatusV {
    pub code: Code,
    pub message: Seq<char>,
}

impl DeepView for Status {
    type V = StatusV;

    open spec fn deep_view(&self) -> StatusV {
        StatusV { code: self.code, message: self.message.deep_view() }
    }
}

/// A single configuration, property or metric value.  The engine moves
/// these values between server and client without interpreting them; a
/// floating-point value travels as its IEEE-754 bit pattern.
#[derive(Clone, PartialEq, Eq, Debug)]
pub enum Scalar {
    Bool(bool),
    Bytes(Vec<u8>),
    Double(u64),
    Int(i64),
    Str(String),
}

/// Ghost counterpart of [`Scalar`].
pub enum ScalarV {
    Bool(bool),
    Bytes(Seq<u8>),
    Double(u64),
    Int(i64),
    Str(Seq<char>),
}

impl DeepView for Scalar {
    type V = ScalarV;

    open spec fn deep_view(&self) -> ScalarV {
        match self {
            Scalar::Bool(b) => ScalarV::Bool(*b),
            Scalar::Bytes(v) => ScalarV::Bytes(v.deep_view()),
            Scalar::Double(bits) => ScalarV::Double(*bits),
            Scalar::Int(i) => ScalarV::Int(*i),
            Scalar::Str(s) => ScalarV::Str(s.deep_view()),
        }
    }
}

/// Named-value mapping used for configuration, properties and metrics,
/// kept as an association list so that the server's order is preserved.
/// Well-formed maps never contain duplicate keys; see [`unique_keys`].
pub type ScalarMap = Vec<(String, Scalar)>;

/// Ghost counterpart of [`ScalarMap`].
pub type ScalarMapV = Seq<(Seq<char>, ScalarV)>;

/// No two entries of the mapping share a key.
pub open spec fn unique_keys(entries: ScalarMapV) -> bool {
    forall|i: int, j: int|
        0 <= i < j < entries.len() ==> (#[trigger] entries[i]).0 != (#[trigger] entries[j]).0
}

/// Model parameters: an ordered sequence of opaque tensor buffers plus a
/// tensor-format tag.  Order is significant and preserved bit-for-bit
/// through every transformation.
#[derive(Clone, PartialEq, Eq, Debug)]
pub struct Parameters {
    pub tensors: Vec<Vec<u8>>,
    pub tensor_type: String,
}

/// Ghost counterpart of [`Parameters`].
pub struct ParametersV {
    pub tensors: Seq<Seq<u8>>,
    pub tensor_type: Seq<char>,
}

impl DeepView for Parameters {
    type V = ParametersV;

    open spec fn deep_view(&self) -> ParametersV {
        ParametersV { tensors: self.tensors.deep_view(), tensor_type: self.tensor_type.deep_view() }
    }
}

/// Response to a fetch-parameters operation.
#[derive(Clone, PartialEq, Eq, Debug)]
pub struct GetParametersRes {
    pub status: Status,
    pub parameters: Parameters,
}

/// Ghost counterpart of [`GetParametersRes`].
pub struct GetParametersResV {
    pub status: StatusV,
    pub parameters: ParametersV,
}

impl DeepView for GetParametersRes {
    type V = GetParametersResV;

    open spec fn deep_view(&self) -> GetParametersResV {
        GetParametersResV { status: self.status.deep_view(), parameters: self.parameters.deep_view() }
    }
}

/// Request of a fetch-properties operation.
#[derive(Clone, PartialEq, Eq, Debug)]
pub struct GetPropertiesIns {
    pub config: ScalarMap,
}

/// Ghost counterpart of [`GetPropertiesIns`].
pub struct GetPropertiesInsV {
    pub config: ScalarMapV,
}

impl DeepView for GetPropertiesIns {
    type V = GetPropertiesInsV;

    open spec fn deep_view(&self) -> GetPropertiesInsV {
        GetPropertiesInsV { config: self.config.deep_view() }
    }
}

/// Response to a fetch-properties operation.
#[derive(Clone, PartialEq, Eq, Debug)]
pub struct GetPropertiesRes {
    pub status: Status,
    pub properties: ScalarMap,
}

/// Ghost counterpart of [`GetPropertiesRes`].
pub struct GetPropertiesResV {
    pub status: StatusV,
    pub properties: ScalarMapV,
}

impl DeepView for GetPropertiesRes {
    type V = GetPropertiesResV;

    open spec fn deep_view(&self) -> GetPropertiesResV {
        GetPropertiesResV { status: self.status.deep_view(), properties: self.properties.deep_view() }
    }
}

/// Request of a fit operation: parameters to train on plus configuration.
#[derive(Clone, PartialEq, Eq, Debug)]
pub struct FitIns {
    pub parameters: Parameters,
    pub config: ScalarMap,
}

/// Ghost counterpart of [`FitIns`].
pub struct FitInsV {
    pub parameters: ParametersV,
    pub config: ScalarMapV,
}

impl DeepView for FitIns {
    type V = FitInsV;

    open spec fn deep_view(&self) -> FitInsV {
        FitInsV { parameters: self.parameters.deep_view(), config: self.config.deep_view() }
    }
}

/// Response to a fit operation: updated parameters, a sample count and
/// training metrics.
#[derive(Clone, PartialEq, Eq, Debug)]
pub struct FitRes {
    pub status: Status,
    pub parameters: Parameters,
    pub num_examples: u64,
    pub metrics: ScalarMap,
}

/// Ghost counterpart of [`FitRes`].
pub struct FitResV {
    pub status: StatusV,
    pub parameters: ParametersV,
    pub num_examples: u64,
    pub metrics: ScalarMapV,
}

impl DeepView for FitRes {
    type V = FitResV;

    open spec fn deep_view(&self) -> FitResV {
        FitResV {
            status: self.status.deep_view(),
            parameters: self.parameters.deep_view(),
            num_examples: self.num_examples,
            metrics: self.metrics.deep_view(),
        }
    }
}

/// Request of an evaluate operation: parameters to score plus configuration.
#[derive(Clone, PartialEq, Eq, Debug)]
pub struct EvaluateIns {
    pub parameters: Parameters,
    pub config: ScalarMap,
}

/// Ghost counterpart of [`EvaluateIns`].
pub struct EvaluateInsV {
    pub parameters: ParametersV,
    pub config: ScalarMapV,
}

impl DeepView for EvaluateIns {
    type V = EvaluateInsV;

    open spec fn deep_view(&self) -> EvaluateInsV {
        EvaluateInsV { parameters: self.parameters.deep_view(), config: self.config.deep_view() }
    }
}

/// Response to an evaluate operation: the loss (as an IEEE-754 bit
/// pattern, uninterpreted by the engine), a sample count and metrics.
#[derive(Clone, PartialEq, Eq, Debug)]
pub struct EvaluateRes {
    pub status: Status,
    pub loss_bits: u64,
    pub num_examples: u64,
    pub metrics: ScalarMap,
}

/// Ghost counterpart of [`EvaluateRes`].
pub struct EvaluateResV {
    pub status: StatusV,
    pub loss_bits: u64,
    pub num_examples: u64,
    pub metrics: ScalarMapV,
}

impl DeepView for EvaluateRes {
    type V = EvaluateResV;

    open spec fn deep_view(&self) -> EvaluateResV {
        EvaluateResV {
            status: self.status.deep_view(),
            loss_bits: self.loss_bits,
            num_examples: self.num_examples,
            metrics: self.metrics.deep_view(),
        }
    }
}

/// The four operations the protocol supports.
#[derive(Clone, Copy, PartialEq, Eq, Structural, Debug)]
pub enum OpKind {
    FetchParameters,
    FetchProperties,
    Fit,
    Evaluate,
}

/// The one operation payload embedded in a task envelope: a request on the
/// inbound side, a response on the outbound side.
#[derive(Clone, PartialEq, Eq, Debug)]
pub enum TaskPayload {
    GetParametersIns,
    GetPropertiesIns(GetPropertiesIns),
    FitIns(FitIns),
    EvaluateIns(EvaluateIns),
    GetParametersRes(GetParametersRes),
    GetPropertiesRes(GetPropertiesRes),
    FitRes(FitRes),
    EvaluateRes(EvaluateRes),
}

/// Ghost counterpart of [`TaskPayload`].
pub enum TaskPayloadV {
    GetParametersIns,
    GetPropertiesIns(GetPropertiesInsV),
    FitIns(FitInsV),
    EvaluateIns(EvaluateInsV),
    GetParametersRes(GetParametersResV),
    GetPropertiesRes(GetPropertiesResV),
    FitRes(FitResV),
    EvaluateRes(EvaluateResV),
}

impl DeepView for TaskPayload {
    type V = TaskPayloadV;

    open spec fn deep_view(&self) -> TaskPayloadV {
        match self {
            TaskPayload::GetParametersIns => TaskPayloadV::GetParametersIns,
            TaskPayload::GetPropertiesIns(m) => TaskPayloadV::GetPropertiesIns(m.deep_view()),
            TaskPayload::FitIns(m) => TaskPayloadV::FitIns(m.deep_view()),
            TaskPayload::EvaluateIns(m) => TaskPayloadV::EvaluateIns(m.deep_view()),
            TaskPayload::GetParametersRes(m) => TaskPayloadV::GetParametersRes(m.deep_view()),
            TaskPayload::GetPropertiesRes(m) => TaskPayloadV::GetPropertiesRes(m.deep_view()),
            TaskPayload::FitRes(m) => TaskPayloadV::FitRes(m.deep_view()),
            TaskPayload::EvaluateRes(m) => TaskPayloadV::EvaluateRes(m.deep_view()),
        }
    }
}

impl TaskPayloadV {
    /// The operation kind, if this payload is a request.
    pub open spec fn request_kind(self) -> Option<OpKind> {
        match self {
            TaskPayloadV::GetParametersIns => Some(OpKind::FetchParameters),
            TaskPayloadV::GetPropertiesIns(_) => Some(OpKind::FetchProperties),
            TaskPayloadV::FitIns(_) => Some(OpKind::Fit),
            TaskPayloadV::EvaluateIns(_) => Some(OpKind::Evaluate),
            _ => None,
        }
    }

    /// The operation kind, if this payload is a response.
    pub open spec fn response_kind(self) -> Option<OpKind> {
        match self {
            TaskPayloadV::GetParametersRes(_) => Some(OpKind::FetchParameters),
            TaskPayloadV::GetPropertiesRes(_) => Some(OpKind::FetchProperties),
            TaskPayloadV::FitRes(_) => Some(OpKind::Fit),
            TaskPayloadV::EvaluateRes(_) => Some(OpKind::Evaluate),
            _ => None,
        }
    }

    pub open spec fn is_request(self) -> bool {
        self.request_kind() is Some
    }

    pub open spec fn is_response(self) -> bool {
        self.response_kind() is Some
    }

    /// The status a response payload carries; requests carry none.
    pub open spec fn status(self) -> Option<StatusV> {
        match self {
            TaskPayloadV::GetParametersRes(m) => Some(m.status),
            TaskPayloadV::GetPropertiesRes(m) => Some(m.status),
            TaskPayloadV::FitRes(m) => Some(m.status),
            TaskPayloadV::EvaluateRes(m) => Some(m.status),
            _ => None,
        }
    }

    /// Every mapping embedded in the payload has unique keys.
    pub open spec fn wf(self) -> bool {
        match self {
            TaskPayloadV::GetParametersIns => true,
            TaskPayloadV::GetPropertiesIns(m) => unique_keys(m.config),
            TaskPayloadV::FitIns(m) => unique_keys(m.config),
            TaskPayloadV::EvaluateIns(m) => unique_keys(m.config),
            TaskPayloadV::GetParametersRes(_) => true,
            TaskPayloadV::GetPropertiesRes(m) => unique_keys(m.properties),
            TaskPayloadV::FitRes(m) => unique_keys(m.metrics),
            TaskPayloadV::EvaluateRes(m) => unique_keys(m.metrics),
        }
    }
}

/// A unit of work (inbound) or its reply (outbound): routing identity plus
/// exactly one embedded operation payload.
#[derive(Clone, PartialEq, Eq, Debug)]
pub struct TaskEnvelope {
    /// Identifier of the task; a reply carries the identifier of the task
    /// that produced it.
    pub task_id: String,
    /// Group/ancestry reference used by the server for routing and
    /// ordering; opaque to the client and echoed back unchanged.
    pub group_id: String,
    pub payload: TaskPayload,
}

/// Ghost counterpart of [`TaskEnvelope`].
pub struct TaskEnvelopeV {
    pub task_id: Seq<char>,
    pub group_id: Seq<char>,
    pub payload: TaskPayloadV,
}

impl DeepView for TaskEnvelope {
    type V = TaskEnvelopeV;

    open spec fn deep_view(&self) -> TaskEnvelopeV {
        TaskEnvelopeV {
            task_id: self.task_id.deep_view(),
            group_id: self.group_id.deep_view(),
            payload: self.payload.deep_view(),
        }
    }
}

impl TaskEnvelopeV {
    pub open spec fn wf(self) -> bool {
        self.payload.wf()
    }
}

} // verus!
