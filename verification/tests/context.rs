use soma::cli::context::args::{
    Confidence, ContextArgs, ContextCompareRankingArgs, ContextCorrectArgs,
    ContextHardeningReportArgs, ContextL2PromoteArgs, ContextL3DecayArgs,
    ContextLearningProposalSetStatusArgs, ContextLatentEvalArgs, ContextMode, ContextRenderArgs,
    ContextReviewActionArgs, ContextReviewActionsArgs, ContextReviewBatchArgs,
    ContextReviewQueueArgs, ContextReviewRenderArgs, ContextReviewReportArgs,
    ContextSchedulerRunArgs, ContextSemanticProposalsArgs, ContextTaskFrameRetentionArgs,
    ContextThreadIdentityArgs, ContextVerifyClaimArgs, EnvelopeArgs,
};
use soma::cli::context::envelope::{
    begin_envelope, build_envelope_for_cli, correction_stale_claims, envelope_read_arguments,
    envelope_step_arguments, ContextScope, CorrectionSignal, EnvelopeLimits, EnvelopeRead,
    EnvelopeStep, TaskFrameScope,
};
use soma::cli::context::error::{PackError, ReviewActionError};
use soma::cli::context::hardening::{
    begin_client_binding_audit, begin_probes, client_binding_hardening_audit, probe_step,
    run_hardening_report, ProbeStep, RequiredClientProofRow,
};
use soma::cli::context::ranking::{
    check_ranking_cases, compare_ranking_cases, read_ranking_corpus, CorpusForm, RankingSource,
    RelevantMemoryRankingCase,
};
use soma::cli::context::reports::{
    correct_text, review_actions_text, review_render_text, review_text, task_frame_outcome_text,
    unwritten_artifact, OutcomeRow, WriteStep,
};
use soma::cli::context::requests::{
    run_correct, run_l2_promote, run_l3_decay, run_latent_eval, run_learning_proposals_set_status,
    run_review_queue, run_review_report, run_scheduler_run, run_semantic_proposals,
    run_task_frame_retention, LatentCases, ProposalsFormat, SchedulerDefaults, StoredEvidenceRef,
};
use soma::cli::context::review::{
    attach_review_action_report_path_hint, review_action_report_path_hint_from_env,
    review_batch_operations_from_cli, run_review_action, run_review_batch, OperationsSource,
    ReviewBatchOperationJson, ReviewTarget,
};
use soma::cli::context::run::ContextRequest;
use soma::cli::context::semantic::{
    render_semantic_proposals_brief, semantic_brief_truncate, GroupRules, ReadinessCheck,
    ReadinessScore, ResolutionPlan, SemanticLearningItem, SemanticLearningReport,
    SupportDiversity,
};
use soma::cli::context::thread_identity::{
    confirm_thread, default_thread_key, normalize_confirm_sessions, run_thread_identity,
    sanitize_key, EpisodeRef, ThreadIdentityRequest,
};
use soma::cli::context::tokens::{
    parse_learning_proposal_status, parse_review_action, parse_verification_result,
    parse_verifier_type, LearningCriticProposalStatus, ReviewAction, VerificationResult,
    VerifierType,
};
use soma::cli::context::verify::{
    run_verify_claim, verification_report, ClaimRead, EventRow, VerificationTargets,
};
use soma::cli::context::{exit_code_for, resolve_db_path, run_context, ContextError};
use soma::cli::adapter_binding_proof::types::{
    AdapterBindingProofError, AdapterBindingProofStatusOutcome,
};
use soma::fingerprint::stable_content_fingerprint;
use soma::json::{Json, Members};
use soma::storage::StorageError;

fn some(s: &str) -> Option<String> {
    Some(s.to_string())
}

fn texts(items: &[&str]) -> Vec<String> {
    items.iter().map(|s| s.to_string()).collect()
}

fn failed(m: &str) -> StorageError {
    StorageError { message: m.into() }
}

fn unit(text: &str, within: bool) -> Confidence {
    Confidence { within, text: text.into() }
}

fn envelope() -> EnvelopeArgs {
    EnvelopeArgs {
        query: None,
        project: None,
        session_id: None,
        local_compiler: false,
        local_compiler_endpoint: None,
        local_compiler_model: None,
        task_frame_id: None,
    }
}

#[test]
fn review_action_report_path_hint_is_read_only_metadata() {
    let value = Members::new()
        .text("schema", "soma.review_action_plan.v1")
        .put("actions", Json::List(vec![]))
        .done();
    let value = attach_review_action_report_path_hint(value, Some("/tmp/soma/review-action.json"));

    let hint = value.get("review_action_report_path_hint").expect("hint");
    assert_eq!(hint.get_text("source"), Some("soma.review_action_plan.report_path_hint.v1"));
    assert_eq!(hint.get_text("path"), Some("/tmp/soma/review-action.json"));
    assert_eq!(hint.get_bool("records_client_binding_proof"), Some(false));
    assert_eq!(hint.get_bool("report_still_requires_rendered_control_id"), Some(true));
    assert_eq!(hint.get_bool("report_still_requires_non_cloud_verification"), Some(true));
    assert!(hint.get_text("trust_boundary").is_some_and(|value| value.contains("writes no file")));
    assert!(hint
        .get_text("trust_boundary")
        .is_some_and(|value| value.contains("records no client-binding proof row")));
    assert_eq!(value.get_text("schema"), Some("soma.review_action_plan.v1"));
}

#[test]
fn path_hint_comes_from_the_first_variable_that_is_not_blank() {
    assert_eq!(review_action_report_path_hint_from_env(Some(" /a "), Some("/b")), Some("/a"));
    assert_eq!(review_action_report_path_hint_from_env(Some(" "), Some("/b")), Some("/b"));
    assert_eq!(review_action_report_path_hint_from_env(None, None), None);
    let list = attach_review_action_report_path_hint(Json::List(vec![]), Some("/a"));
    assert!(matches!(list, Json::List(_)));
}

#[test]
fn context_errors_have_exit_codes() {
    assert_eq!(exit_code_for(&ContextError::BadFormat("x".into())), 1);
    let invalid = ContextError::ReviewAction(ReviewActionError::Invalid("x".into()));
    assert_eq!(exit_code_for(&invalid), 1);
    assert_eq!(invalid.message(), "review action: x");
    let store = ContextError::ReviewAction(ReviewActionError::Storage(failed("x")));
    assert_eq!(exit_code_for(&store), 2);
    assert_eq!(exit_code_for(&ContextError::Pack(PackError { message: "x".into() })), 2);
    assert_eq!(exit_code_for(&ContextError::Path("x".into())), 3);
    assert_eq!(resolve_db_path(Some("/db"), None, None).unwrap(), "/db");
    assert_eq!(exit_code_for(&resolve_db_path(None, None, None).unwrap_err()), 3);
}

#[test]
fn words_of_flags_are_read() {
    assert_eq!(parse_verifier_type(" Local-Observation ").unwrap(), VerifierType::LocalObservation);
    assert_eq!(parse_review_action("reject_claim").unwrap(), ReviewAction::Contradict);
    assert_eq!(parse_review_action("approve-and-apply").unwrap(), ReviewAction::ConfirmAndApply);
    assert_eq!(
        parse_verification_result("CONFIRMED").unwrap(),
        VerificationResult::Confirmed
    );
    assert_eq!(
        parse_learning_proposal_status("waiting-verification").unwrap(),
        LearningCriticProposalStatus::WaitingVerification
    );
    assert_eq!(
        parse_verifier_type("cloud").unwrap_err().message(),
        "bad format: unknown verifier `cloud`; expected user, test, tool, local_observation, or correction"
    );
    assert!(parse_review_action("x").is_err());
    assert!(parse_verification_result("x").is_err());
    assert!(parse_learning_proposal_status("x").is_err());
}

#[test]
fn render_needs_a_known_format() {
    let call = |format: &str| ContextArgs {
        mode: ContextMode::Render(ContextRenderArgs { envelope: envelope(), format: format.into() }),
    };
    let ok = run_context(&call("prompt"), None, None, Ok(())).unwrap();
    assert!(matches!(ok, ContextRequest::Render(soma::cli::context::error::OutputFormat::Xml, _)));
    let e = run_context(&call("yaml"), None, None, Ok(())).unwrap_err();
    assert_eq!(e.message(), "bad format: unknown format `yaml`; expected `xml` or `json`");
}

#[test]
fn limits_of_zero_are_refused() {
    let args = ContextReviewQueueArgs {
        project: None,
        session_id: None,
        limit: 0,
        json: false,
        format: "json".into(),
    };
    assert_eq!(
        run_review_queue(&args).unwrap_err().message(),
        "bad format: limit must be greater than 0"
    );
}

fn frame(project: Option<&str>, session: Option<&str>) -> TaskFrameScope {
    TaskFrameScope {
        project: project.map(|s| s.to_string()),
        session_id: session.map(|s| s.to_string()),
        cloud_redacted_json: Members::new().text("goal_state", "  ship it ").done(),
    }
}

#[test]
fn envelope_takes_what_flags_leave_open_from_the_frame() {
    let mut args = envelope();
    args.task_frame_id = Some(4);
    let request = begin_envelope(&args, Ok(Some(frame(Some("soma"), None)))).unwrap();
    assert_eq!(request.query.as_deref(), Some("ship it"));
    assert_eq!(request.project.as_deref(), Some("soma"));
    assert!(!request.infer_project && request.has_frame);
    let plan = build_envelope_for_cli(&request, &some("inferred"));
    assert_eq!(plan.project.as_deref(), Some("soma"));
    assert!(matches!(plan.scope, ContextScope::Project { .. }));
    assert_eq!(plan.reads.len(), 8);
    assert_eq!(plan.reads[2], EnvelopeRead::Corrections);
    assert_eq!(
        plan.steps,
        vec![
            EnvelopeStep::AppendRelevantMemory,
            EnvelopeStep::ApplyCorrectionOverrides,
            EnvelopeStep::AttachThreadState,
            EnvelopeStep::AttachShortTermCandidates,
            EnvelopeStep::AttachProjectExperience,
            EnvelopeStep::AttachStableFacts,
            EnvelopeStep::AttachUserPolicy,
            EnvelopeStep::AttachOpenDecisions,
            EnvelopeStep::AttachCorrections,
        ]
    );
}

#[test]
fn envelope_refuses_a_frame_of_another_scope() {
    let mut args = envelope();
    args.task_frame_id = Some(4);
    args.project = some("other");
    let e = begin_envelope(&args, Ok(Some(frame(Some("soma"), None)))).unwrap_err();
    assert_eq!(
        e.message(),
        "bad format: TaskFrame 4 project `soma` does not match requested project `other`"
    );
    args.project = None;
    args.session_id = some("s2");
    let e = begin_envelope(&args, Ok(Some(frame(None, Some("s1"))))).unwrap_err();
    assert!(e.message().contains("session `s1` does not match requested session `s2`"));
    let e = begin_envelope(&args, Ok(None)).unwrap_err();
    assert_eq!(e.message(), "storage: TaskFrame 4 not found");
}

#[test]
fn project_is_inferred_only_where_nothing_is_known() {
    let request = begin_envelope(&envelope(), Ok(None)).unwrap();
    assert!(request.infer_project);
    let plan = build_envelope_for_cli(&request, &some("inferred"));
    assert_eq!(plan.project.as_deref(), Some("inferred"));
    let plan = build_envelope_for_cli(&request, &None);
    assert!(matches!(plan.scope, ContextScope::Current { query: None }));
    let signals = vec![
        CorrectionSignal { stale_claim: some("old"), section: Json::Null },
        CorrectionSignal { stale_claim: None, section: Json::Null },
    ];
    assert_eq!(correction_stale_claims(&signals), vec!["old"]);
}

fn thread_args() -> ContextThreadIdentityArgs {
    ContextThreadIdentityArgs {
        project: some(" my proj "),
        session_id: None,
        limit: 10,
        join_window_minutes: 5,
        confirm: true,
        list_confirmed: false,
        confirm_sessions: texts(&[" s1 ", "s2"]),
        confirm_cross_session: true,
        confirmation_reason: some("same work"),
        confirmed_by: "me".into(),
        thread_key: None,
    }
}

#[test]
fn threads_are_confirmed_by_an_operator() {
    let plan = match run_thread_identity(&thread_args()).unwrap() {
        ThreadIdentityRequest::Confirm(p) => p,
        _ => panic!("a confirmation was asked for"),
    };
    assert_eq!(plan.sessions, vec!["s1", "s2"]);
    assert_eq!(
        plan.thread_key,
        format!("thread:my_proj:{}", stable_content_fingerprint(b"my proj\ns1\ns2"))
    );
    let live = Ok(vec![
        EpisodeRef { id: 7, session_id: some("s1") },
        EpisodeRef { id: 8, session_id: some("s2") },
    ]);
    let draft = confirm_thread(plan, &vec![Ok(false), Ok(false)], &live).unwrap();
    assert_eq!(draft.evidence_episode_ids, vec![7, 8]);
    assert_eq!(draft.project, "my proj");
}

#[test]
fn threads_need_sessions_of_their_own() {
    let plan = || match run_thread_identity(&thread_args()).unwrap() {
        ThreadIdentityRequest::Confirm(p) => p,
        _ => panic!("a confirmation was asked for"),
    };
    let live = Ok(vec![EpisodeRef { id: 7, session_id: some("s1") }]);
    let e = confirm_thread(plan(), &vec![Ok(false), Ok(true)], &live).unwrap_err();
    assert!(e.message().contains("session `s2` has live episodes outside project `my proj`"));
    let e = confirm_thread(plan(), &vec![Ok(false), Ok(false)], &live).unwrap_err();
    assert_eq!(
        e.message(),
        "bad format: session `s2` has no live episodes in project `my proj`"
    );
    let mut args = thread_args();
    args.confirm_cross_session = false;
    assert!(run_thread_identity(&args).unwrap_err().message().contains("--confirm-cross-session"));
    args.confirm_sessions = texts(&["a"]);
    args.confirmed_by = " ".into();
    assert!(run_thread_identity(&args).unwrap_err().message().contains("--confirmed-by"));
    assert!(normalize_confirm_sessions(&texts(&["a", " a "])).is_err());
    assert!(normalize_confirm_sessions(&texts(&["a", " "])).is_err());
    assert!(normalize_confirm_sessions(&vec![]).is_err());
    assert_eq!(sanitize_key("a b/c.d"), "a_b_c.d");
    assert_eq!(sanitize_key(""), "unknown");
    assert!(default_thread_key("p", &vec![]).starts_with("thread:p:fnv1a64:"));
    let mut args = thread_args();
    args.join_window_minutes = 0;
    assert!(run_thread_identity(&args).is_err());
    let mut args = thread_args();
    args.list_confirmed = true;
    assert!(run_thread_identity(&args).unwrap_err().message().contains("mutually exclusive"));
}

fn verify_args() -> ContextVerifyClaimArgs {
    ContextVerifyClaimArgs {
        claim_id: Some(1),
        proposal_id: None,
        verifier: "test".into(),
        result: "confirmed".into(),
        evidence_kind: " run ".into(),
        evidence_id: "42".into(),
        evidence_source: some(" "),
    }
}

#[test]
fn verifications_name_what_they_rest_on() {
    let plan = run_verify_claim(&verify_args(), Ok(())).unwrap();
    assert_eq!(plan.target, ReviewTarget::Claim(1));
    assert_eq!(plan.evidence_ref.kind, "run");
    assert_eq!(plan.evidence_ref.source, None);
    let mut args = verify_args();
    args.evidence_id = " ".into();
    assert!(run_verify_claim(&args, Ok(())).unwrap_err().message().contains("non-empty"));
    let mut args = verify_args();
    args.proposal_id = Some(2);
    assert_eq!(
        run_verify_claim(&args, Ok(())).unwrap_err().message(),
        "bad format: claim_id and proposal_id are mutually exclusive"
    );
    assert_eq!(
        run_verify_claim(&args, Err(failed("locked"))).unwrap_err().message(),
        "storage: locked"
    );
}

fn targets() -> VerificationTargets {
    VerificationTargets {
        claim_ids: vec![1, 2],
        skipped_claim_ids: vec![3],
        target_type: "proposal".into(),
        target_id: 9,
        proposal: Json::Null,
    }
}

#[test]
fn verification_tells_only_what_was_recorded_now() {
    let event = |id| EventRow { id, value: Json::Int(id as i128) };
    let reads = vec![
        ClaimRead { claim: Some(Json::Text("c1".into())), events: vec![event(5), event(10)] },
        ClaimRead { claim: Some(Json::Text("c2".into())), events: vec![event(11)] },
    ];
    let text =
        verification_report(&targets(), &vec![10, 11], &reads, &vec![true, true, false]).unwrap();
    assert!(text.contains("\"durable_promotion_trust\": false"));
    assert!(text.contains("\"events\": [\n    10,\n    11\n  ]"));
    assert!(text.contains("\"event\": 10"));
    assert!(text.contains("\"claim\": \"c1\""));
    assert!(text.ends_with("}\n"));
    let gone = vec![
        ClaimRead { claim: Some(Json::Null), events: vec![] },
        ClaimRead { claim: None, events: vec![] },
    ];
    assert_eq!(
        verification_report(&targets(), &vec![], &gone, &vec![]).unwrap_err().message(),
        "storage: claim 2 disappeared after verification insert"
    );
}

fn operation() -> ReviewBatchOperationJson {
    ReviewBatchOperationJson {
        claim_id: Some(1),
        proposal_id: None,
        action: "confirm".into(),
        control_id: None,
        verifier_type: None,
        verifier: None,
        evidence_ref: None,
        evidence_kind: None,
        evidence_id: None,
        evidence_source: None,
        note: None,
        confirm_destructive: false,
    }
}

#[test]
fn batches_are_taken_whole_or_not_at_all() {
    let mut second = operation();
    second.claim_id = None;
    second.proposal_id = Some(4);
    second.verifier = some("tool");
    let inputs = run_review_batch(&Ok(vec![operation(), second])).unwrap();
    assert_eq!(inputs[0].verifier_type, Some(VerifierType::User));
    assert_eq!(inputs[1].target, ReviewTarget::Proposal(4));
    assert_eq!(inputs[1].verifier_type, Some(VerifierType::Tool));
    let mut bad = operation();
    bad.claim_id = None;
    assert_eq!(
        run_review_batch(&Ok(vec![operation(), bad])).unwrap_err().message(),
        "bad format: operations[1] requires claim_id or proposal_id"
    );
    let mut both = operation();
    both.evidence_kind = some("k");
    both.evidence_ref =
        Some(StoredEvidenceRef { kind: "k".into(), id: "i".into(), source: None });
    assert!(run_review_batch(&Ok(vec![both])).unwrap_err().message().contains("must use either"));
    let mut alone = operation();
    alone.evidence_kind = some("k");
    assert!(run_review_batch(&Ok(vec![alone])).unwrap_err().message().contains("together"));
    assert!(run_review_batch(&Err("eof".into())).unwrap_err().message().contains("operations JSON"));
}

#[test]
fn batch_operations_stand_in_one_place() {
    let args = |json: Option<&str>, file: Option<&str>| ContextReviewBatchArgs {
        operations_json: json.map(|s| s.to_string()),
        operations_file: file.map(|s| s.to_string()),
        dry_run: true,
    };
    let one = review_batch_operations_from_cli(&args(Some("[]"), None)).unwrap();
    assert!(matches!(one, OperationsSource::Json(_)));
    let two = review_batch_operations_from_cli(&args(None, Some("/f"))).unwrap();
    assert!(matches!(two, OperationsSource::File(_)));
    assert!(review_batch_operations_from_cli(&args(None, None)).is_err());
    assert!(review_batch_operations_from_cli(&args(Some("[]"), Some("/f"))).is_err());
}

#[test]
fn one_review_action() {
    let mut args = ContextReviewActionArgs {
        claim_id: None,
        proposal_id: Some(4),
        action: "wait".into(),
        control_id: some("proposal:4:wait"),
        verifier: "user".into(),
        evidence_kind: some("note"),
        evidence_id: some("1"),
        evidence_source: None,
        note: None,
        confirm_destructive: false,
    };
    let input = run_review_action(&args).unwrap();
    assert_eq!(input.action, ReviewAction::Wait);
    assert_eq!(input.evidence_ref.unwrap().kind, "note");
    args.evidence_id = None;
    assert!(run_review_action(&args).unwrap_err().message().contains("together"));
}

#[test]
fn commands_check_their_flags() {
    let mut l2 = ContextL2PromoteArgs {
        project: None,
        session_id: None,
        apply: false,
        min_confidence: unit("0.5", true),
        anomaly_min_confidence: unit("2", false),
        min_repeated_support: 2,
        manual_proxy_ids: vec![],
        reason: "r".into(),
        limit: 1,
    };
    assert_eq!(
        run_l2_promote(&l2).unwrap_err().message(),
        "bad format: anomaly_min_confidence must be finite within [0,1], got 2"
    );
    l2.anomaly_min_confidence = unit("1", true);
    assert!(run_l2_promote(&l2).unwrap().dry_run);
    l2.apply = true;
    assert!(!run_l2_promote(&l2).unwrap().dry_run);

    let l3 = ContextL3DecayArgs {
        older_than_days: 1,
        cutoff_ns: Some(5),
        max_access_count: 0,
        reason: "r".into(),
        dry_run: true,
        limit: 1,
    };
    assert_eq!(run_l3_decay(&l3, Err(failed("x"))).unwrap().cutoff_source, "explicit_cutoff_ns");

    let retention = ContextTaskFrameRetentionArgs {
        older_than_days: 0,
        project: None,
        session_id: None,
        apply: false,
    };
    assert!(run_task_frame_retention(&retention, Ok(1)).is_err());

    let correct = ContextCorrectArgs {
        claim: "c".into(),
        correction: "d".into(),
        project: None,
        session_id: None,
        all_projects: false,
    };
    assert_eq!(run_correct(&correct, Some("here")).unwrap().project.as_deref(), Some("here"));

    let applied = ContextLearningProposalSetStatusArgs {
        proposal_id: 1,
        status: "applied".into(),
        note: None,
    };
    assert!(run_learning_proposals_set_status(&applied)
        .unwrap_err()
        .message()
        .contains("cannot mark a proposal applied"));

    let eval = ContextLatentEvalArgs {
        project: None,
        session_id: None,
        limit: 2,
        scan_limit: 4,
        case_limit: 1,
        min_confidence: unit("0", true),
        case_jsonl: some("/cases"),
        outcome_cases: true,
    };
    let (cases, input) = run_latent_eval(&eval).unwrap();
    assert!(matches!(cases, LatentCases::Jsonl(_)));
    assert_eq!(input.case_source, "jsonl:/cases");
}

fn scheduler() -> ContextSchedulerRunArgs {
    ContextSchedulerRunArgs {
        project: None,
        session_id: None,
        limit: 1,
        semantic_min_support: 2,
        l2_promotion_min_confidence: unit("0.5", true),
        l2_promotion_anomaly_min_confidence: unit("0.5", true),
        l2_promotion_min_repeated_support: 2,
        l2_promotion_reason: " ".into(),
        l3_decay_older_than_days: 1,
        l3_decay_cutoff_ns: Some(99),
        l3_decay_max_access_count: 0,
        l3_decay_reason: " said ".into(),
        task_frame_retention_days: 1,
        task_frame_retention_cutoff_ns: None,
        task_frame_retention_reason: "".into(),
        dry_run: true,
        passes: vec![],
    }
}

#[test]
fn scheduler_fills_in_what_is_not_said() {
    let defaults = SchedulerDefaults {
        l2_promotion_reason: "l2".into(),
        l3_decay_reason: "l3".into(),
        task_frame_retention_reason: "tf".into(),
    };
    let input =
        run_scheduler_run(&scheduler(), Ok(texts(&["decay"])), Ok(1), Ok(2), &defaults).unwrap();
    assert_eq!(input.l2_promotion_reason, "l2");
    assert_eq!(input.l3_decay_reason, "said");
    assert_eq!(input.task_frame_retention_reason, "tf");
    assert_eq!(input.l3_decay_cutoff_ns, 99);
    assert_eq!(input.task_frame_retention_cutoff_ns, 2);
    let e = run_scheduler_run(&scheduler(), Err("bad pass".into()), Ok(1), Ok(2), &defaults);
    assert_eq!(e.unwrap_err().message(), "bad format: bad pass");
    let e = run_scheduler_run(&scheduler(), Ok(vec![]), Err(failed("x")), Ok(2), &defaults);
    assert_eq!(e.unwrap_err().message(), "storage: x");
    let mut args = scheduler();
    args.l3_decay_max_access_count = -1;
    let e = run_scheduler_run(&args, Ok(vec![]), Ok(1), Ok(2), &defaults);
    assert!(e.unwrap_err().message().contains("non-negative"));
}

#[test]
fn reports_are_told_in_known_forms() {
    let j = Json::Bool(true);
    assert_eq!(review_text("review-queue", false, " MD ", &j, "# m").unwrap(), "# m\n");
    assert_eq!(review_text("review-queue", true, "x", &j, "").unwrap(), "true\n");
    assert_eq!(
        review_text("review-digest", false, "x", &j, "").unwrap_err().message(),
        "bad format: unknown review-digest format `x`; expected json or markdown"
    );
    let actions = ContextReviewActionsArgs {
        project: None,
        session_id: None,
        limit: 1,
        include_disabled: false,
        json: false,
        brief: true,
        format: "json".into(),
    };
    assert_eq!(
        review_actions_text(&actions, Json::Null, "brief", "md", None).unwrap(),
        "brief\n"
    );
    let mut render = ContextReviewRenderArgs {
        project: None,
        session_id: None,
        limit: 1,
        client: None,
        include_disabled: false,
        json: false,
        format: "html".into(),
        write_report: some("/r"),
    };
    assert!(review_render_text(&render, &j, "m", "<p>")
        .unwrap_err()
        .message()
        .contains("--write-report requires JSON"));
    render.json = true;
    let out = review_render_text(&render, &j, "m", "<p>").unwrap();
    assert_eq!(out.output, "true\n");
    assert_eq!(out.write_report.as_deref(), Some("/r"));
    assert_eq!(
        correct_text(7, 1, 2),
        "soma: recorded correction episode #7 (corrected claim_records: 1, resolved contradictions: 2)\n"
    );
    let rows = vec![OutcomeRow { id: 1, value: Json::Null }];
    assert!(task_frame_outcome_text(1, &rows).is_ok());
    assert_eq!(
        task_frame_outcome_text(2, &rows).unwrap_err().message(),
        "storage: inserted TaskFrame outcome 2 was not readable"
    );
    assert_eq!(
        unwritten_artifact(WriteStep::Create, "/r", "exists").message(),
        "path: failed to create report `/r`: exists"
    );
    let report = ContextReviewReportArgs {
        project: None,
        session_id: None,
        limit: 1,
        include_disabled: false,
        action: " Confirm ".into(),
        target_type: "ANY".into(),
        verifier: some("Local-Observation"),
        evidence_kind: None,
        evidence_id: None,
        evidence_source: None,
        format: "json".into(),
    };
    let input = run_review_report(&report).unwrap();
    assert_eq!(input.action, "confirm");
    assert_eq!(input.verifier_type.as_deref(), Some("local_observation"));
}

#[test]
fn ranking_cases_come_from_one_place() {
    let mut args = ContextCompareRankingArgs {
        query: some("q"),
        project: None,
        session_id: None,
        semantic_k: 1,
        corpus: None,
        expected_episodes: vec![3],
    };
    assert!(matches!(compare_ranking_cases(&args).unwrap(), RankingSource::Single(_)));
    args.corpus = some("/c");
    assert!(compare_ranking_cases(&args).is_err());
    args.query = None;
    args.expected_episodes = vec![];
    assert!(matches!(compare_ranking_cases(&args).unwrap(), RankingSource::Corpus(_)));
    match read_ranking_corpus("/c", "{\"query\":\"a\"}\n\n  {\"query\":\"b\"}\n").unwrap() {
        CorpusForm::Lines(l) => {
            assert_eq!(l.len(), 2);
            assert_eq!(l[1].number, 3);
            assert_eq!(l[1].text, "{\"query\":\"b\"}");
        }
        CorpusForm::List(_) => panic!("one case to a line"),
    }
    assert!(matches!(read_ranking_corpus("/c", " [ ] ").unwrap(), CorpusForm::List(_)));
    assert!(read_ranking_corpus("/c", " ").unwrap_err().message().contains("is empty"));
    let case = |q: &str| RelevantMemoryRankingCase {
        query: q.into(),
        expected_episode_ids: vec![],
    };
    assert_eq!(
        check_ranking_cases("/c", vec![case("a"), case(" ")]).unwrap_err().message(),
        "bad format: ranking corpus `/c` case 2 has empty query"
    );
    assert!(check_ranking_cases("/c", vec![]).is_err());
    assert_eq!(check_ranking_cases("/c", vec![case("a")]).unwrap().len(), 1);
}

fn semantic_args(json: bool, brief: bool, format: &str) -> ContextSemanticProposalsArgs {
    ContextSemanticProposalsArgs {
        project: None,
        session_id: None,
        limit: 1,
        min_support: 2,
        dry_run: true,
        json,
        brief,
        format: format.into(),
    }
}

fn item() -> SemanticLearningItem {
    SemanticLearningItem {
        action: "would_propose".into(),
        group_rule: "exact".into(),
        normalized_text: "the sky is blue".into(),
        proposal_id: None,
        support_claim_ids: vec![5, 6],
        proposal_claim_ids: vec![],
        support_count: 2,
        trusted: true,
        support_diversity: SupportDiversity {
            bias_risk: "low".into(),
            support_projects: texts(&["soma"]),
            distinct_task_frame_count: 1,
            distinct_source_type_count: 2,
            distinct_verifier_type_count: 1,
            distinct_evidence_source_count: 1,
        },
        readiness_score: ReadinessScore {
            verdict: "ready".into(),
            score: 4,
            max_score: 5,
            blocks_l4_auto_apply: true,
            review_required: true,
            checks: vec![
                ReadinessCheck { check_id: "a".into(), passed: true },
                ReadinessCheck { check_id: "b".into(), passed: false },
            ],
        },
        resolution_plan: ResolutionPlan {
            status: "open".into(),
            target_lifecycle_state: "l4".into(),
            next_step: "verify".into(),
            intent: "i".into(),
            allowed_resolution_actions: texts(&["confirm"]),
            blocked_resolution_actions: vec![],
            trusted_verifier_types: texts(&["user", "test"]),
            trusted_evidence_kinds: vec![],
            forbidden_evidence_kinds: vec![],
            trust_boundary: "tb".into(),
        },
        evidence_refs: vec![StoredEvidenceRef {
            kind: "k".into(),
            id: "1".into(),
            source: None,
        }],
        skipped_reason: None,
    }
}

fn report(items: Vec<SemanticLearningItem>) -> SemanticLearningReport {
    SemanticLearningReport {
        status: "ok".into(),
        headline: "h".into(),
        project: some("soma"),
        session_id: None,
        dry_run: true,
        limit: 20,
        min_support: 2,
        inspected_claim_count: 1,
        l4_candidate_count: 1,
        review_only_candidate_count: 0,
        proposed_count: 0,
        review_proposed_count: 0,
        skipped_untrusted_count: 0,
        skipped_existing_semantic_count: 0,
        skipped_existing_proposal_count: 0,
        skipped_existing_review_proposal_count: 0,
        items,
    }
}

#[test]
fn semantic_proposals_are_told_in_one_form() {
    let (format, _) = run_semantic_proposals(&semantic_args(false, true, "json")).unwrap();
    assert_eq!(format, ProposalsFormat::Brief);
    assert!(run_semantic_proposals(&semantic_args(true, true, "json")).is_err());
    assert!(run_semantic_proposals(&semantic_args(false, false, "xml"))
        .unwrap_err()
        .message()
        .contains("unknown format `xml`"));
}

#[test]
fn semantic_brief_tells_candidates_with_guidance() {
    let rules = GroupRules { exact: "exact".into(), token: "token".into() };
    let text = render_semantic_proposals_brief(&report(vec![item()]), &rules);
    let expected = [
        "SOMA semantic proposals brief",
        "  Status: ok - h",
        "  Scope: project=soma session=all dry_run=true limit=20 min_support=2",
        "  Counts: inspected_claims=1 l4_candidates=1 review_only_candidates=0 proposed=0 review_proposed=0 skipped_untrusted=0 skipped_existing_semantic=0 skipped_existing_proposal=0 skipped_existing_review=0",
        "  Trust boundary: read-only dry-run; records no proposal, verification, promotion, correction, or cloud-draft trust",
        "  Candidates:",
        "    1. [L4-candidate] action=would_propose verdict=ready score=4/5 support=2 trusted=true bias=low",
        "       claim: the sky is blue",
        "       group_rule=exact proposal_id=none support_claim_ids=5,6 proposal_claim_ids=none",
        "       diversity: projects=soma task_frames=1 source_types=2 verifier_types=1 evidence_sources=1",
        "       l4_auto_apply_blocked=true review_required=true",
        "       failing_checks: b",
        "       proposal_creation_hint: soma context semantic-proposals --brief --min-support 2 --limit 20 --project soma",
        "       proposal_creation_boundary: creates review/proposal rows only; records no verification, applies no proposal, writes no semantic_fact, and promotes no cloud draft",
        "       verification_template: soma context verify-claim --claim-id 5 --verifier TRUSTED_VERIFIER --result VERIFICATION_RESULT --evidence-kind TRUSTED_EVIDENCE_KIND --evidence-id TRUSTED_EVIDENCE_ID",
        "       verification_scope: representative_claim=5 repeat_or_create_review_proposal_for_claim_ids=5,6",
        "       verification_boundary: independent user/tool/test/local_observation/correction evidence only; cloud output and client render text are forbidden evidence",
        "       resolution_plan: status=open target=l4 next=verify",
        "       resolution_intent: i",
        "       resolution_options: allowed=confirm blocked=",
        "       trusted_evidence: verifiers=user,test kinds= forbidden=",
        "       resolution_boundary: tb",
        "       evidence: k:1@none",
    ];
    assert_eq!(text, format!("{}\n", expected.join("\n")));
}

#[test]
fn semantic_brief_tells_at_most_ten() {
    let rules = GroupRules { exact: "exact".into(), token: "token".into() };
    let text = render_semantic_proposals_brief(&report((0..12).map(|_| item()).collect()), &rules);
    assert!(text.contains("    10. ["));
    assert!(!text.contains("    11. ["));
    assert!(text.contains("... 2 more candidate(s) omitted"));
    let none = render_semantic_proposals_brief(&report(vec![]), &rules);
    assert!(none.ends_with("  Candidates: none\n"));
    assert_eq!(semantic_brief_truncate("abcd", 3), "abc...");
    assert_eq!(semantic_brief_truncate("abc", 3), "abc");
}

fn hardening_args() -> ContextHardeningReportArgs {
    ContextHardeningReportArgs {
        envelope: envelope(),
        trust_limit: 1000,
        review_limit: 5,
        client: some(" Codex-App "),
        required_clients: texts(&["codex-app", " "]),
        client_proof_limit: 500,
        client_binding_config_root: None,
        require_client_binding_ready: false,
        require_review_queue_clear: true,
        require_task_frame_retention_clean: false,
        require_task_frame_projection: false,
        task_frame_retention_days: 30,
        skip_client_binding: false,
        json: true,
    }
}

#[test]
fn hardening_report_says_what_it_looks_at() {
    let plan = run_hardening_report(
        &hardening_args(),
        Some("soma"),
        None,
        &texts(&["codex-app"]),
        Some("here"),
        30,
    )
    .unwrap();
    assert!(plan.requirements.client_binding_ready);
    assert_eq!(plan.client_binding.unwrap().limit, 200);
    assert_eq!(
        plan.override_command,
        texts(&[
            "soma",
            "context",
            "hardening-report",
            "--project",
            "here",
            "--client",
            "Codex-App",
            "--required-client",
            "codex-app",
            "--review-limit",
            "5",
            "--client-proof-limit",
            "500",
            "--require-review-queue-clear",
            "--json",
        ])
    );
    let mut args = hardening_args();
    args.task_frame_retention_days = 0;
    assert!(run_hardening_report(&args, None, None, &vec![], None, 30).is_err());
    let plan = run_hardening_report(&hardening_args(), None, None, &vec![], None, 30).unwrap();
    assert!(plan.override_command.is_empty());
}

#[test]
fn audit_without_proofs_keeps_the_gate_shut() {
    let required = texts(&["codex-app", "cursor"]);
    let query = begin_client_binding_audit(Some(" Codex-App "), &required, 0);
    assert_eq!(query.client.as_deref(), Some("codex-app"));
    assert_eq!(query.limit, 1);
    assert_eq!(query.proof_client, None);
    let status = AdapterBindingProofStatusOutcome {
        client: None,
        proof_id: None,
        limit: 1,
        proofs_found: 0,
        client_count: 0,
        all_latest_artifacts_verified: false,
        trust_boundary: String::new(),
        clients: vec![],
    };
    let ProbeStep::Done(looked_at) = begin_probes(vec![], None, 1) else {
        panic!("there is nothing to look at");
    };
    let audit =
        client_binding_hardening_audit(&query, &required, &status, looked_at, Json::Null);
    assert_eq!(audit.proof_session_release_gate, "fail");
    assert_eq!(audit.missing_required_clients, required);
    assert_eq!(audit.required_ready_client_count, 0);
    assert_eq!(
        audit.proof_session_next_step_id.as_deref(),
        Some("render_client_binding_proof_session")
    );
    assert!(audit.proof_session_runbook_required);
}

fn row(client: &str, required: bool) -> RequiredClientProofRow {
    RequiredClientProofRow {
        client: client.into(),
        proof_session_required: required,
        proof_session_cli: String::new(),
        proof_session_mcp_arguments: Json::Object(vec![]),
        config_root_probe_hint: None,
        probe: None,
        render_evidence_artifact_path: None,
        details: Json::Null,
    }
}

#[test]
fn only_required_clients_are_looked_at() {
    let rows = || vec![row("a", false), row("b", true), row("c", true)];
    assert!(matches!(begin_probes(rows(), Some("  "), 5), ProbeStep::Done(_)));
    assert!(matches!(begin_probes(vec![row("a", false)], Some("/h"), 5), ProbeStep::Done(_)));
    let ProbeStep::Probe(walk, flags) = begin_probes(rows(), Some(" /h "), 5) else {
        panic!("a row asks for a proof session");
    };
    assert_eq!(flags.client.as_deref(), Some("b"));
    assert_eq!(flags.config_root.as_deref(), Some("/h"));
    assert_eq!(flags.limit, 5);
    assert_eq!(walk.at, 1);
    let fault = Err(AdapterBindingProofError::Io("disk".into()));
    let ProbeStep::Failed(e) = probe_step(walk, fault, "soma", "/h", Json::Null, 5) else {
        panic!("the session could not be looked at");
    };
    assert_eq!(e.message(), "bad format: client binding proof-session probe: io: disk");
}

#[test]
fn reads_take_what_belongs_to_them() {
    let mut args = envelope();
    args.project = some("p");
    args.session_id = some("s");
    args.query = some("q");
    args.local_compiler_endpoint = some("http://localhost");
    let request = begin_envelope(&args, Ok(None)).unwrap();
    let plan = build_envelope_for_cli(&request, &None);
    let limits = EnvelopeLimits {
        relevant_memory: 1,
        corrections: 2,
        open_decisions: 3,
        short_term_candidates: 4,
        project_experience: 5,
        stable_facts: 6,
    };
    let signals = vec![
        CorrectionSignal { stale_claim: some("old"), section: Json::Int(1) },
        CorrectionSignal { stale_claim: None, section: Json::Int(2) },
    ];
    let take = |read| envelope_read_arguments(&plan, read, limits, &signals);
    let pack = take(EnvelopeRead::MemoryPack);
    assert_eq!(pack.query.as_deref(), Some("q"));
    assert_eq!(pack.limit, None);
    let decisions = take(EnvelopeRead::OpenDecisions);
    assert_eq!(decisions.stale_claims, vec!["old"]);
    assert_eq!(decisions.limit, Some(3));
    assert_eq!(decisions.session_id.as_deref(), Some("s"));
    let policy = take(EnvelopeRead::UserPolicy);
    assert_eq!(policy.session_id, None);
    assert_eq!(policy.project.as_deref(), Some("p"));
    assert_eq!(policy.corrections.len(), 2);
    assert!(take(EnvelopeRead::StableFacts).corrections.is_empty());
    let step = |s| envelope_step_arguments(&args, s, &signals);
    assert_eq!(step(EnvelopeStep::ApplyCorrectionOverrides).stale_claims, vec!["old"]);
    assert_eq!(step(EnvelopeStep::AttachCorrections).sections.len(), 2);
    assert_eq!(
        step(EnvelopeStep::AttachLocalCompilerNote).endpoint.as_deref(),
        Some("http://localhost")
    );
    assert_eq!(step(EnvelopeStep::AttachStableFacts).endpoint, None);
}
