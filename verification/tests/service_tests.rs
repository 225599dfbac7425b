use grpc_vision_svc::errors::RpcError;
use grpc_vision_svc::gate::AdmissionGate;
use grpc_vision_svc::service::{
    admit_request, outcome_response, validate_request, AdmissionDecision, ImgProcRequest,
    ModelType, WorkerOutcome,
};

#[test]
fn validate_rejects_empty_image() {
    let request = ImgProcRequest { model: 0, image: Vec::new() };
    let err = validate_request(&request).unwrap_err();
    match err {
        RpcError::InvalidArgument(m) => assert_eq!(m, "Empty vector of bytes"),
        _ => panic!("expected InvalidArgument"),
    }
}

#[test]
fn validate_rejects_out_of_range_model() {
    // An out-of-range model enum value is rejected with InvalidArgument.
    let request = ImgProcRequest { model: 7, image: vec![1, 2, 3] };
    let err = validate_request(&request).unwrap_err();
    match err {
        RpcError::InvalidArgument(m) => assert_eq!(m, "Invalid model type"),
        _ => panic!("expected InvalidArgument"),
    }

    let request = ImgProcRequest { model: -1, image: vec![1] };
    assert!(validate_request(&request).is_err());
}

#[test]
fn validate_accepts_known_models() {
    let request = ImgProcRequest { model: 0, image: vec![9] };
    assert!(matches!(validate_request(&request), Ok(ModelType::Blip)));
    let request = ImgProcRequest { model: 1, image: vec![9] };
    assert!(matches!(validate_request(&request), Ok(ModelType::BlipQuantized)));
}

#[test]
fn model_type_wire_codes() {
    assert_eq!(ModelType::try_from_code(0), Some(ModelType::Blip));
    assert_eq!(ModelType::try_from_code(1), Some(ModelType::BlipQuantized));
    assert_eq!(ModelType::try_from_code(2), None);
    assert_eq!(ModelType::try_from_code(-1), None);
}

#[test]
fn invalid_request_never_reaches_the_gate() {
    // The rejected request takes no permit and starts no work.
    let mut gate = AdmissionGate::new(4);
    let request = ImgProcRequest { model: 9, image: vec![1] };
    let decision = admit_request(&mut gate, &request);
    assert!(matches!(
        decision,
        AdmissionDecision::Reject(RpcError::InvalidArgument(_))
    ));
    assert_eq!(gate.in_use(), 0);
}

#[test]
fn valid_request_takes_a_permit_before_work_starts() {
    let mut gate = AdmissionGate::new(2);
    let request = ImgProcRequest { model: 1, image: vec![1] };
    let decision = admit_request(&mut gate, &request);
    assert!(matches!(decision, AdmissionDecision::Start(ModelType::BlipQuantized)));
    assert_eq!(gate.in_use(), 1);
}

#[test]
fn saturated_gate_makes_valid_requests_wait() {
    let mut gate = AdmissionGate::new(1);
    let request = ImgProcRequest { model: 0, image: vec![1] };
    assert!(matches!(admit_request(&mut gate, &request), AdmissionDecision::Start(_)));
    assert!(matches!(admit_request(&mut gate, &request), AdmissionDecision::Wait));
    assert_eq!(gate.in_use(), 1);
    gate.release();
    assert!(matches!(admit_request(&mut gate, &request), AdmissionDecision::Start(_)));
}

#[test]
fn outcome_mapping_matches_the_taxonomy() {
    let ok = outcome_response(WorkerOutcome::Completed(String::from("a red bird"))).unwrap();
    assert_eq!(ok.description, "a red bird");

    let failed = outcome_response(WorkerOutcome::Failed(String::from("shape mismatch")));
    match failed.unwrap_err() {
        RpcError::Internal(m) => assert_eq!(m, "Error processing image: shape mismatch"),
        _ => panic!("expected Internal"),
    }

    let crashed = outcome_response(WorkerOutcome::Crashed(String::from("panicked")));
    match crashed.unwrap_err() {
        RpcError::Internal(m) => assert_eq!(m, "Error executing blocking task: panicked"),
        _ => panic!("expected Internal"),
    }
}

#[test]
fn batch_with_one_bad_item_isolates_it() {
    // One empty-image request among valid ones: every item gets a verdict,
    // exactly one is rejected, and the rest pass validation untouched.
    let requests = vec![
        ImgProcRequest { model: 0, image: vec![1] },
        ImgProcRequest { model: 1, image: vec![2] },
        ImgProcRequest { model: 0, image: Vec::new() },
        ImgProcRequest { model: 1, image: vec![3] },
    ];
    let verdicts: Vec<Result<ModelType, RpcError>> =
        requests.iter().map(validate_request).collect();
    assert_eq!(verdicts.len(), requests.len());
    let rejected: Vec<usize> = verdicts
        .iter()
        .enumerate()
        .filter(|(_, v)| v.is_err())
        .map(|(i, _)| i)
        .collect();
    assert_eq!(rejected, vec![2]);
    assert!(matches!(
        verdicts[2].as_ref().unwrap_err(),
        RpcError::InvalidArgument(_)
    ));
}

#[test]
fn rpc_error_messages_are_preserved() {
    let err = RpcError::InvalidArgument(String::from("Empty vector of bytes"));
    assert_eq!(err.message().as_str(), "Empty vector of bytes");
    let err = RpcError::ResourceExhausted(String::from("Too many concurrent requests"));
    assert_eq!(err.message().as_str(), "Too many concurrent requests");
    let err = RpcError::Internal(String::from("worker failed"));
    assert_eq!(err.message().as_str(), "worker failed");
}
