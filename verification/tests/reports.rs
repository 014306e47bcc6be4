use serde_json::Value;
use soma::cli::adapter_binding_proof::types::AdapterBindingProofError;
use soma::cli::context::args::{ContextCompareRankingArgs, ContextTaskFrameOutcomeArgs};
use soma::cli::context::envelope::{correction_sections, CorrectionSignal};
use soma::cli::context::hardening::{client_binding_hardening_probe_proof_session, probe_failed};
use soma::cli::context::ranking::{
    compare_ranking_text, malformed_corpus, malformed_line, unread_corpus,
};
use soma::cli::context::reports::{
    audit_text, l2_promote_text, l3_decay_text, learning_apply_text, learning_proposals_text,
    outcomes_text, retention_text, set_status_text, task_frame_text, why_text,
};
use soma::cli::context::requests::{
    run_task_frame_outcome, unread_cases, DecayRequest, LearningProposalsRequest,
    ProposalStatusChange, TaskFrameOutcomesRequest,
};
use soma::cli::context::review::unread_operations;
use soma::cli::context::thread_identity::{run_thread_identity_list_confirmed, thread_confirmed};
use soma::cli::context::tokens::LearningCriticProposalStatus;
use soma::json::{Json, Members};
use soma::storage::StorageError;

fn read(text: &str) -> Value {
    assert!(text.ends_with('\n'));
    serde_json::from_str(text).expect("a report is JSON")
}

fn number(v: &Value, place: &str) -> Option<i64> {
    v.pointer(place).and_then(Value::as_i64)
}

fn word(v: &Value, place: &str) -> Option<String> {
    v.pointer(place).and_then(Value::as_str).map(str::to_string)
}

fn flag(v: &Value, place: &str) -> Option<bool> {
    v.pointer(place).and_then(Value::as_bool)
}

#[test]
fn task_frame_reports() {
    assert_eq!(
        task_frame_text(4, None).unwrap_err().message(),
        "storage: inserted TaskFrame 4 was not readable"
    );
    let v = read(&retention_text(9, 30, 5, 60, Json::Bool(true)));
    assert_eq!(number(&v, "/now_ns"), Some(9));
    assert_eq!(number(&v, "/policy/retention_days"), Some(30));
    assert_eq!(number(&v, "/policy/cutoff_ns"), Some(5));
    assert_eq!(number(&v, "/policy/default_retention_days"), Some(60));
    assert_eq!(flag(&v, "/policy/protects_claim_or_proposal_references"), Some(true));
    assert_eq!(flag(&v, "/report"), Some(true));

    let request = TaskFrameOutcomesRequest {
        project: Some("p".into()),
        session_id: None,
        task_frame_id: Some(3),
        limit: 10,
    };
    let v = read(&outcomes_text(&request, vec![Json::Int(1), Json::Int(2)]));
    assert_eq!(word(&v, "/kind").as_deref(), Some("task_frame_outcomes"));
    assert_eq!(word(&v, "/mode").as_deref(), Some("read_only"));
    assert_eq!(word(&v, "/project").as_deref(), Some("p"));
    assert!(v.pointer("/session_id").unwrap().is_null());
    assert_eq!(number(&v, "/outcome_count"), Some(2));
    assert_eq!(number(&v, "/outcomes/1"), Some(2));

    let args = ContextTaskFrameOutcomeArgs {
        task_frame_id: 3,
        outcome_type: "Done".into(),
        summary: "s".into(),
        evidence_kind: "episode".into(),
        evidence_id: "7".into(),
        evidence_source: None,
        claim_ids: vec![1],
        proposal_ids: vec![],
        latent_proxy_ids: vec![2, 3],
    };
    let draft = run_task_frame_outcome(&args, Ok("done".into())).unwrap();
    assert_eq!(draft.outcome_type, "done");
    assert_eq!(draft.evidence_refs.len(), 1);
    assert_eq!(draft.evidence_refs[0].id, "7");
    assert_eq!(draft.latent_proxy_ids, vec![2, 3]);
    let refused = run_task_frame_outcome(&args, Err(StorageError { message: "unknown".into() }));
    assert_eq!(refused.unwrap_err().message(), "storage: unknown");
}

#[test]
fn memory_reports() {
    let request = DecayRequest {
        cutoff_ns: 5,
        cutoff_source: "clock".into(),
        max_access_count: 1,
        reason: "old".into(),
        dry_run: true,
        limit: 2,
    };
    let v = read(&l3_decay_text(30, &request, Json::Null));
    assert_eq!(word(&v, "/kind").as_deref(), Some("l3_proxy_decay"));
    assert_eq!(number(&v, "/policy/older_than_days"), Some(30));
    assert_eq!(flag(&v, "/policy/dry_run"), Some(true));
    assert_eq!(
        word(&v, "/policy/storage_transition").as_deref(),
        Some("long_term_memory -> decayed")
    );
    let v = read(&l2_promote_text(false, Json::Int(8)));
    assert_eq!(word(&v, "/kind").as_deref(), Some("l2_proxy_promotion"));
    assert_eq!(flag(&v, "/apply"), Some(false));
    assert_eq!(number(&v, "/report"), Some(8));
}

#[test]
fn proposal_reports() {
    let request = LearningProposalsRequest {
        project: None,
        session_id: Some("s".into()),
        status: Some(LearningCriticProposalStatus::WaitingVerification),
        limit: 5,
    };
    let v = read(&learning_proposals_text(&request, vec![Json::Null]));
    assert_eq!(word(&v, "/status").as_deref(), Some("waiting_verification"));
    assert_eq!(number(&v, "/count"), Some(1));
    let v = read(&learning_apply_text(7, Json::Text("applied".into()), Some(Json::Null)).unwrap());
    assert_eq!(number(&v, "/proposal_id"), Some(7));
    assert_eq!(word(&v, "/outcome").as_deref(), Some("applied"));
    assert!(learning_apply_text(7, Json::Null, None).is_err());
    let change = ProposalStatusChange {
        proposal_id: 7,
        status: LearningCriticProposalStatus::Rejected,
        result: Json::Null,
    };
    let v = read(&set_status_text(&change, Some(Json::Null)).unwrap());
    assert_eq!(word(&v, "/status").as_deref(), Some("rejected"));
    assert!(set_status_text(&change, None).is_err());
}

#[test]
fn audits_pass_only_whole() {
    let told = |envelope: bool, frame: Option<bool>| {
        let text = audit_text(Json::Null, 1, None, Json::Null, envelope, Json::Null, frame);
        flag(&read(&text), "/passed").unwrap()
    };
    assert!(told(true, None));
    assert!(told(true, Some(true)));
    assert!(!told(true, Some(false)));
    assert!(!told(false, Some(true)));
    assert!(!told(false, None));
    let text = why_text(Json::Null, 1, Some(2), Json::Null, Some("goal"), None, vec![Json::Int(4)]);
    let v = read(&text);
    assert_eq!(number(&v, "/task_frame_id"), Some(2));
    assert_eq!(word(&v, "/section").as_deref(), Some("goal"));
    assert_eq!(number(&v, "/match_count"), Some(1));
    assert_eq!(number(&v, "/matches/0"), Some(4));
}

#[test]
fn ranking_reports() {
    let args = ContextCompareRankingArgs {
        query: None,
        project: None,
        session_id: None,
        semantic_k: 4,
        corpus: Some("/c".into()),
        expected_episodes: vec![3, 1],
    };
    let v = read(&compare_ranking_text(&args, false, Json::Null));
    assert_eq!(word(&v, "/case_source/kind").as_deref(), Some("corpus"));
    assert_eq!(word(&v, "/backend_status/candidate_effective").as_deref(), Some("hnsw-fallback"));
    assert_eq!(number(&v, "/expected_episode_ids/0"), Some(3));
    let v = read(&compare_ranking_text(&args, true, Json::Null));
    assert_eq!(word(&v, "/backend_status/candidate_effective").as_deref(), Some("hopfield"));
}

#[test]
fn thread_reports() {
    let v = read(&run_thread_identity_list_confirmed(Some("p"), 3, Json::List(vec![])));
    assert_eq!(word(&v, "/status").as_deref(), Some("read_only"));
    assert_eq!(number(&v, "/scope/limit"), Some(3));
    let v = read(&thread_confirmed("p", Json::Null, 2, 5));
    assert_eq!(word(&v, "/status").as_deref(), Some("operator_confirmed"));
    assert_eq!(number(&v, "/source/session_count"), Some(2));
    assert_eq!(number(&v, "/source/evidence_episode_count"), Some(5));
}

#[test]
fn unread_files_are_named() {
    assert_eq!(unread_corpus("/c", "gone").message(), "path: read ranking corpus `/c`: gone");
    assert_eq!(
        malformed_corpus("/c", "bad").message(),
        "bad format: parse ranking corpus `/c`: bad"
    );
    assert_eq!(
        malformed_line("/c", 12, "bad").message(),
        "bad format: parse ranking corpus `/c` line 12: bad"
    );
    assert_eq!(
        unread_cases("/c", "gone").message(),
        "path: failed to read latent eval case JSONL `/c`: gone"
    );
    assert_eq!(
        unread_operations("/o", "gone").message(),
        "bad format: failed to read operations_file `/o`: gone"
    );
    let error = AdapterBindingProofError::Io("disk".into());
    assert_eq!(
        probe_failed(&error).message(),
        "bad format: client binding proof-session probe: io: disk"
    );
}

#[test]
fn probes_of_a_client_record_nothing() {
    let args = client_binding_hardening_probe_proof_session("cursor", "/home/u", 9);
    assert_eq!(args.client.as_deref(), Some("cursor"));
    assert_eq!(args.config_root.as_deref(), Some("/home/u"));
    assert_eq!(args.limit, 9);
    assert!(!args.operator_confirm_real_app_invocation);
    assert!(!args.operator_confirm_in_client_render);
    assert!(!args.operator_confirm_review_action);
}

#[test]
fn corrections_keep_their_order() {
    let signals = vec![
        CorrectionSignal { stale_claim: None, section: Json::Int(2) },
        CorrectionSignal {
            stale_claim: Some("x".into()),
            section: Members::new().flag("a", true).done(),
        },
    ];
    let sections = correction_sections(&signals);
    assert_eq!(sections.len(), 2);
    assert!(matches!(sections[0], Json::Int(2)));
    assert!(matches!(sections[1], Json::Object(_)));
}
