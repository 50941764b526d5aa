use flwr::codec::DecodeError;
use flwr::codec::decode;
use flwr::codec::encode;
use flwr::types::Code;
use flwr::types::EvaluateIns;
use flwr::types::FitIns;
use flwr::types::FitRes;
use flwr::types::GetPropertiesIns;
use flwr::types::Parameters;
use flwr::types::Scalar;
use flwr::types::Status;
use flwr::types::TaskEnvelope;
use flwr::types::TaskPayload;
use flwr::wire::WirePayload;
use flwr::wire::WireTask;

fn sample_parameters() -> Parameters {
    Parameters {
        tensors: vec![vec![1, 2, 3], vec![4], vec![]],
        tensor_type: "numpy.ndarray".to_string(),
    }
}

fn envelope(task_id: &str, group_id: &str, payload: TaskPayload) -> TaskEnvelope {
    TaskEnvelope {
        task_id: task_id.to_string(),
        group_id: group_id.to_string(),
        payload,
    }
}

fn round_trips(e: TaskEnvelope) {
    let decoded = decode(encode(e.clone())).expect("round trip must decode");
    assert_eq!(decoded, e);
}

#[test]
fn round_trip_fetch_parameters() {
    round_trips(envelope("t1", "g1", TaskPayload::GetParametersIns));
}

#[test]
fn round_trip_fetch_properties() {
    let ins = GetPropertiesIns {
        config: vec![
            ("alpha".to_string(), Scalar::Int(7)),
            ("beta".to_string(), Scalar::Str("x".to_string())),
        ],
    };
    round_trips(envelope("t2", "g1", TaskPayload::GetPropertiesIns(ins)));
}

#[test]
fn round_trip_fit() {
    let ins = FitIns {
        parameters: sample_parameters(),
        config: vec![
            ("epochs".to_string(), Scalar::Int(3)),
            ("rate".to_string(), Scalar::Double(0.25f64.to_bits())),
            ("shuffle".to_string(), Scalar::Bool(true)),
            ("seed".to_string(), Scalar::Bytes(vec![9, 9])),
        ],
    };
    round_trips(envelope("t3", "g2", TaskPayload::FitIns(ins)));
}

#[test]
fn round_trip_evaluate() {
    let ins = EvaluateIns { parameters: sample_parameters(), config: vec![] };
    round_trips(envelope("t4", "g2", TaskPayload::EvaluateIns(ins)));
}

#[test]
fn round_trip_fit_response() {
    let res = FitRes {
        status: Status { code: Code::Okay, message: "done".to_string() },
        parameters: sample_parameters(),
        num_examples: 42,
        metrics: vec![("accuracy".to_string(), Scalar::Double(0.5f64.to_bits()))],
    };
    round_trips(envelope("t5", "g3", TaskPayload::FitRes(res)));
}

#[test]
fn encode_preserves_tensor_order() {
    let e = envelope(
        "t6",
        "g3",
        TaskPayload::FitIns(FitIns { parameters: sample_parameters(), config: vec![] }),
    );
    let w = encode(e);
    match w.payload {
        Some(WirePayload::FitIns(ins)) => {
            assert_eq!(ins.parameters.tensors, vec![vec![1, 2, 3], vec![4], vec![]]);
            assert_eq!(ins.parameters.tensor_type, "numpy.ndarray");
        }
        other => panic!("unexpected wire payload: {:?}", other),
    }
}

#[test]
fn decode_missing_payload_is_rejected() {
    let w = WireTask { task_id: "t7".to_string(), group_id: "g4".to_string(), payload: None };
    assert_eq!(decode(w), Err(DecodeError::EmptyPayload));
}

#[test]
fn decode_unrecognized_kind_is_unsupported() {
    let w = WireTask {
        task_id: "t8".to_string(),
        group_id: "g4".to_string(),
        payload: Some(WirePayload::Unrecognized(12)),
    };
    assert_eq!(decode(w), Err(DecodeError::UnsupportedTask));
}
