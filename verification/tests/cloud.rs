use soma::cli::adapter_cloud_output::{
    capture_input, cloud_output_outcome, default_decision, default_enqueue_proposal,
    default_proposal_action, needs_new_proposal, proposal_id, resolve_claim_extraction,
    run_json_str, CapturedCloudOutput, CloudDecision, CloudOutputRequest,
    LocalClaimExtractorRuntime, ProposalAction, TaskFrameSource, DEFAULT_PROPOSAL_REASON,
};
use soma::cli::context::requests::StoredEvidenceRef;
use soma::json::Json;

fn request() -> CloudOutputRequest {
    CloudOutputRequest {
        task_frame_id: Some(3),
        task_frame_query: None,
        project: None,
        session_id: None,
        cwd: None,
        client: None,
        handoff_id: Some("h".into()),
        protocol_contract: Some("c".into()),
        artifact_version: Some(2),
        allow_local_private_projection: false,
        local_private_projection_reason: None,
        output_text: "answer".into(),
        decision: default_decision(),
        extracted_claims: vec![Json::Int(1)],
        verification_requests: vec![Json::Int(2)],
        required_edits: vec!["edit".into()],
        evidence_refs: vec![StoredEvidenceRef { kind: "k".into(), id: "i".into(), source: None }],
        local_claim_extractor: false,
        local_claim_extractor_endpoint: Some("http://e".into()),
        local_claim_extractor_model: None,
        enqueue_proposal: default_enqueue_proposal(),
        proposal_action: default_proposal_action(),
        proposal_target_lifecycle_state: None,
        proposal_reason: None,
    }
}

fn runtime() -> Option<LocalClaimExtractorRuntime> {
    Some(LocalClaimExtractorRuntime { endpoint: "http://e".into(), model: "m".into() })
}

#[test]
fn answers_are_captured_as_the_payload_says() {
    let plan = run_json_str(Ok(request()), Ok(()), None, None).unwrap();
    assert!(matches!(plan.frame, TaskFrameSource::Stored(3)));
    assert!(plan.extractor.is_none());
    let input = capture_input(&plan, 3, Ok(vec![Json::Int(9)])).unwrap();
    assert_eq!(input.output_text, "answer");
    assert_eq!(input.handoff_id.as_deref(), Some("h"));
    assert_eq!(input.protocol_contract.as_deref(), Some("c"));
    assert_eq!(input.artifact_version, Some(2));
    assert_eq!(input.critic.task_frame_id, 3);
    assert!(matches!(input.critic.decision, CloudDecision::Accept));
    assert!(matches!(input.critic.extracted_claims[..], [Json::Int(9)]));
    assert!(matches!(input.critic.verification_requests[..], [Json::Int(2)]));
    assert_eq!(input.critic.required_edits, vec!["edit"]);
    assert_eq!(input.critic.evidence_refs[0].id, "i");
    let failed = capture_input(&plan, 3, Err("down".into())).unwrap_err();
    assert_eq!(failed.message(), "local claim extractor: down");
    assert_eq!(failed.exit_code(), 3);
}

#[test]
fn local_extractor_runs_on_demand() {
    let plan = run_json_str(Ok(request()), Ok(()), None, None).unwrap();
    let selection = resolve_claim_extraction(&plan, runtime());
    assert!(selection.runtime.is_none());
    assert_eq!(selection.output_text, "answer");
    assert_eq!(selection.claims.len(), 1);
    let mut asked = request();
    asked.local_claim_extractor = true;
    let plan = run_json_str(Ok(asked), Ok(()), None, None).unwrap();
    let flags = plan.extractor.as_ref().expect("a local model is asked for");
    assert_eq!(flags.endpoint.as_deref(), Some("http://e"));
    assert_eq!(flags.model, None);
    assert_eq!(resolve_claim_extraction(&plan, runtime()).runtime.unwrap().model, "m");
}

#[test]
fn proposals_follow_unless_declined() {
    let plan = run_json_str(Ok(request()), Ok(()), None, None).unwrap();
    let proposal = plan.proposal.as_ref().expect("a proposal follows");
    assert!(matches!(proposal.action, ProposalAction::RequestVerification));
    assert_eq!(proposal.reason, DEFAULT_PROPOSAL_REASON);
    assert!(needs_new_proposal(&plan, None));
    assert!(!needs_new_proposal(&plan, Some(4)));
    assert_eq!(proposal_id(&plan, Some(4), None), Some(4));
    assert_eq!(proposal_id(&plan, None, Some(5)), Some(5));
    let mut declined = request();
    declined.enqueue_proposal = false;
    let plan = run_json_str(Ok(declined), Ok(()), None, None).unwrap();
    assert!(plan.proposal.is_none());
    assert!(!needs_new_proposal(&plan, None));
    assert_eq!(proposal_id(&plan, Some(4), None), None);
}

#[test]
fn frames_are_built_from_queries() {
    let mut p = request();
    p.task_frame_id = None;
    p.task_frame_query = Some(" what ".into());
    let plan = run_json_str(Ok(p), Ok(()), Some("/w"), Some("proj")).unwrap();
    let TaskFrameSource::Build(input) = plan.frame else {
        panic!("no frame is named");
    };
    assert_eq!(input.query.as_deref(), Some("what"));
    assert_eq!(input.cwd.as_deref(), Some("/w"));
    assert_eq!(input.project.as_deref(), Some("proj"));
    assert_eq!(input.client.as_deref(), Some("adapter-cloud-output"));
    let mut p = request();
    p.task_frame_id = None;
    let refused = run_json_str(Ok(p), Ok(()), None, None).unwrap_err();
    assert_eq!(refused.exit_code(), 1);
    assert_eq!(
        run_json_str(Err("eof".into()), Ok(()), None, None).unwrap_err().message(),
        "malformed input: JSON parse: eof"
    );
}

#[test]
fn outcomes_tell_what_was_captured() {
    let captured = CapturedCloudOutput {
        task_frame_id: 3,
        handoff_id: None,
        idempotency_key: "k".into(),
        replayed: true,
        decision: Json::Null,
        claim_ids: vec![1, 2],
        verification_event_ids: vec![],
        verification_requests: Json::Null,
        required_edits: vec![],
    };
    let told = cloud_output_outcome(captured, Some(7), Json::Int(1), Json::Int(2), "b".into());
    assert_eq!(told.proposal_id, Some(7));
    assert_eq!(told.claim_ids, vec![1, 2]);
    assert!(told.replayed);
    assert!(matches!(told.claim_extraction, Json::Int(1)));
    assert!(matches!(told.protocol, Json::Int(2)));
    assert_eq!(told.trust_boundary, "b");
}
