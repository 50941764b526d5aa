use flwr::client::Client;
use flwr::client::ClientError;
use flwr::dispatch::dispatch;
use flwr::types::Code;
use flwr::types::EvaluateIns;
use flwr::types::EvaluateRes;
use flwr::types::FitIns;
use flwr::types::FitRes;
use flwr::types::GetParametersRes;
use flwr::types::GetPropertiesIns;
use flwr::types::GetPropertiesRes;
use flwr::types::Parameters;
use flwr::types::Scalar;
use flwr::types::Status;
use flwr::types::TaskEnvelope;
use flwr::types::TaskPayload;

fn ok_status() -> Status {
    Status { code: Code::Okay, message: "".to_string() }
}

fn one_tensor() -> Parameters {
    Parameters { tensors: vec![vec![1]], tensor_type: "".to_string() }
}

/// A capability that answers every operation, mirroring a minimal
/// demonstration client.
struct OkClient;

impl Client for OkClient {
    fn get_parameters(&self) -> Result<GetParametersRes, ClientError> {
        Ok(GetParametersRes { status: ok_status(), parameters: one_tensor() })
    }

    fn get_properties(&self, _ins: GetPropertiesIns) -> Result<GetPropertiesRes, ClientError> {
        Ok(GetPropertiesRes {
            status: ok_status(),
            properties: vec![("ready".to_string(), Scalar::Bool(true))],
        })
    }

    fn fit(&self, _ins: FitIns) -> Result<FitRes, ClientError> {
        Ok(FitRes {
            status: ok_status(),
            parameters: one_tensor(),
            num_examples: 1,
            metrics: vec![],
        })
    }

    fn evaluate(&self, _ins: EvaluateIns) -> Result<EvaluateRes, ClientError> {
        Ok(EvaluateRes {
            status: ok_status(),
            loss_bits: 1.0f64.to_bits(),
            num_examples: 1,
            metrics: vec![],
        })
    }
}

/// A capability that fails every operation with the given message.
struct FailClient {
    message: String,
}

impl FailClient {
    fn err<T>(&self) -> Result<T, ClientError> {
        Err(ClientError { message: self.message.clone() })
    }
}

impl Client for FailClient {
    fn get_parameters(&self) -> Result<GetParametersRes, ClientError> {
        self.err()
    }

    fn get_properties(&self, _ins: GetPropertiesIns) -> Result<GetPropertiesRes, ClientError> {
        self.err()
    }

    fn fit(&self, _ins: FitIns) -> Result<FitRes, ClientError> {
        self.err()
    }

    fn evaluate(&self, _ins: EvaluateIns) -> Result<EvaluateRes, ClientError> {
        self.err()
    }
}

fn request_payloads() -> Vec<TaskPayload> {
    vec![
        TaskPayload::GetParametersIns,
        TaskPayload::GetPropertiesIns(GetPropertiesIns { config: vec![] }),
        TaskPayload::FitIns(FitIns { parameters: one_tensor(), config: vec![] }),
        TaskPayload::EvaluateIns(EvaluateIns { parameters: one_tensor(), config: vec![] }),
    ]
}

fn response_matches(request: &TaskPayload, response: &TaskPayload) -> bool {
    matches!(
        (request, response),
        (TaskPayload::GetParametersIns, TaskPayload::GetParametersRes(_))
            | (TaskPayload::GetPropertiesIns(_), TaskPayload::GetPropertiesRes(_))
            | (TaskPayload::FitIns(_), TaskPayload::FitRes(_))
            | (TaskPayload::EvaluateIns(_), TaskPayload::EvaluateRes(_))
    )
}

#[test]
fn dispatch_is_total_and_preserves_identity() {
    for (i, payload) in request_payloads().into_iter().enumerate() {
        let env = TaskEnvelope {
            task_id: format!("task-{}", i),
            group_id: format!("group-{}", i),
            payload: payload.clone(),
        };
        let reply = dispatch(env, &OkClient);
        assert_eq!(reply.task_id, format!("task-{}", i));
        assert_eq!(reply.group_id, format!("group-{}", i));
        assert!(response_matches(&payload, &reply.payload));
    }
}

#[test]
fn dispatch_fetch_parameters_passes_result_through() {
    let env = TaskEnvelope {
        task_id: "t".to_string(),
        group_id: "g".to_string(),
        payload: TaskPayload::GetParametersIns,
    };
    let reply = dispatch(env, &OkClient);
    match reply.payload {
        TaskPayload::GetParametersRes(res) => {
            assert_eq!(res.status.code, Code::Okay);
            assert_eq!(res.parameters.tensors, vec![vec![1]]);
        }
        other => panic!("unexpected payload: {:?}", other),
    }
}

#[test]
fn dispatch_contains_client_failure() {
    let client = FailClient { message: "cuda out of memory".to_string() };
    for (i, payload) in request_payloads().into_iter().enumerate() {
        let env = TaskEnvelope {
            task_id: format!("task-{}", i),
            group_id: "g".to_string(),
            payload: payload.clone(),
        };
        let reply = dispatch(env, &client);
        assert_eq!(reply.task_id, format!("task-{}", i));
        assert!(response_matches(&payload, &reply.payload));
        let status = match &reply.payload {
            TaskPayload::GetParametersRes(r) => &r.status,
            TaskPayload::GetPropertiesRes(r) => &r.status,
            TaskPayload::FitRes(r) => &r.status,
            TaskPayload::EvaluateRes(r) => &r.status,
            other => panic!("unexpected payload: {:?}", other),
        };
        assert_eq!(status.code, Code::Error);
        assert_eq!(status.message, "cuda out of memory");
    }
}

#[test]
fn dispatch_failure_message_is_never_empty() {
    let client = FailClient { message: "".to_string() };
    let env = TaskEnvelope {
        task_id: "t".to_string(),
        group_id: "g".to_string(),
        payload: TaskPayload::FitIns(FitIns { parameters: one_tensor(), config: vec![] }),
    };
    let reply = dispatch(env, &client);
    match reply.payload {
        TaskPayload::FitRes(res) => {
            assert_eq!(res.status.code, Code::Error);
            assert!(!res.status.message.is_empty());
        }
        other => panic!("unexpected payload: {:?}", other),
    }
}
