use soma::cli::adapter_binding_proof::artifacts::artifact_replay_status;
use soma::cli::adapter_binding_proof::brief::render_proof_session_brief;
use soma::cli::adapter_binding_proof::bundle::run_evidence_bundle_blocking;
use soma::cli::adapter_binding_proof::check::{
    run_discover_installed_config_blocking, run_installed_config_check_blocking,
};
use soma::cli::adapter_binding_proof::collector::{continue_devdata_collector_endpoint, TcpProbe};
use soma::cli::adapter_binding_proof::disk::Disk;
use soma::cli::adapter_binding_proof::events::scan_event_jsonl;
use soma::cli::adapter_binding_proof::evidence::{
    annotate_render_evidence_scan, scan_render_evidence, RENDER_EVIDENCE_BOUNDARY,
    REVIEW_ACTION_BOUNDARY, REVIEW_RENDER_BOUNDARY,
};
use soma::cli::adapter_binding_proof::kit::run_real_app_proof_kit_blocking;
use soma::cli::adapter_binding_proof::nonce::{
    extract_binding_nonce_from_text, normalize_binding_nonce, resolve_binding_nonce_for_prepare,
};
use soma::cli::adapter_binding_proof::places::{
    dedup_paths, discover_installed_config_paths, private_client_display_name,
    private_client_target_installed_config_relpaths,
};
use soma::cli::adapter_binding_proof::prepare::{
    checked_written_config, installed_config_text, run_prepare_installed_config_blocking,
    run_render_installed_config_blocking,
};
use soma::cli::adapter_binding_proof::proof_session::{
    proof_session_storage_diagnostic_db_path, run_proof_session_blocking,
};
use soma::cli::adapter_binding_proof::readiness::run_status_blocking;
use soma::cli::adapter_binding_proof::record::{proof_outcome, run_blocking};
use soma::cli::adapter_binding_proof::repair::{
    run_list_blocking, run_verify_evidence_artifacts_blocking,
};
use soma::cli::adapter_binding_proof::types::{
    AdapterBindingProofArgs, AdapterBindingProofError, EvidenceArtifactStatus, Host, ObservedFile,
    ResolvedPath,
};
use soma::cli::binary_identity::{collect_binary_identity, ObservedBinary};
use soma::cli::context::hardening::{begin_probes, probe_step, ProbeStep, RequiredClientProofRow};
use soma::fingerprint::stable_content_fingerprint;
use soma::json::{Json, Members};
use soma::storage::{
    ClientBindingProofDraft, ClientBindingProofLevel, StorageError, StoredClientBindingProof,
};

fn args() -> AdapterBindingProofArgs {
    AdapterBindingProofArgs {
        manifest: None,
        client: Some("cursor".into()),
        proof_level: "reference_binding".into(),
        evidence_source: "manual".into(),
        event_jsonl: None,
        installed_config: None,
        drain_report: None,
        review_render_report: None,
        render_evidence: None,
        review_action_report: None,
        binding_nonce: None,
        config_root: Some("/home/u".into()),
        artifact_dir: None,
        write_installed_config: None,
        write_render_evidence: None,
        limit: 20,
        proof_id: None,
        list: false,
        status: false,
        verify_evidence_artifacts: false,
        discover_installed_config: false,
        real_app_proof_kit: false,
        prepare_installed_config: false,
        require_private_target_config_for_app_hook: false,
        operator_confirm_real_app_invocation: false,
        operator_confirm_in_client_render: false,
        operator_confirm_review_action: false,
        operator_confirm_release_grade_evidence: false,
    }
}

fn host() -> Host {
    let exe = ObservedBinary {
        path: "/usr/bin/soma".into(),
        canonical: Some("/usr/bin/soma".into()),
        contents: Ok(b"x".to_vec()),
    };
    let (identity, _) = collect_binary_identity(&Ok(exe), &None);
    Host {
        home: Some("/home/u".into()),
        cwd: Some("/work".into()),
        identity,
        collector_host: "127.0.0.1".into(),
        collector_port: 7777,
        manifests: vec![],
        safety: vec![],
    }
}

fn file(path: &str, contents: &[u8]) -> ObservedFile {
    ObservedFile {
        path: path.into(),
        exists: true,
        is_file: true,
        len: contents.len() as u64,
        modified_at_ns: Some(1_000),
        metadata_error: None,
        contents: contents.to_vec(),
        read_error: None,
        not_found: false,
    }
}

fn disk(files: Vec<ObservedFile>) -> Disk {
    let names = files
        .iter()
        .map(|f| ResolvedPath { path: f.path.clone(), resolved: f.path.clone() })
        .collect();
    Disk { names, files }
}

fn stored(level: ClientBindingProofLevel) -> StoredClientBindingProof {
    StoredClientBindingProof {
        id: 1,
        client: "cursor".into(),
        proof_level: level,
        manifest_path: "/m.json".into(),
        manifest_status: "reference".into(),
        evidence_source: "manual".into(),
        event_jsonl_path: None,
        installed_config_path: None,
        render_evidence_path: None,
        review_action_report_path: None,
        drain_report_json: None,
        review_render_json: None,
        trust_boundary: "tb".into(),
        checks_json: Json::Object(vec![]),
        observed_at_ns: 5,
    }
}

#[test]
fn render_evidence_rejects_raw_mcp_tool_output_as_release_render_proof() {
    let evidence = file(
        "/tmp/render-evidence.json",
        br#"{
  "schema": "soma.in_client_render_evidence.v1",
  "client": "codex-app",
  "source": "client_capture",
  "observed_at_ns": 12345,
  "review_render_fingerprint": "fnv1a64:test",
  "review_workbench_version": "soma.review_workbench.v1",
  "review_interaction_contract_version": "soma.review_interaction_contract.v1",
  "rendered_control_ids": ["proposal:4:wait"],
  "rendered_surfaces": [{
    "kind": "codex_app_mcp_tool_result",
    "name": "action_buttons",
    "title": "SOMA Review Render Plan visible as raw MCP tool output",
    "visible": true,
    "rendered_control_ids": ["proposal:4:wait"]
  }],
  "trust_boundary": "observed_in_client_render_is_ui_only_and_never_verifies_promotes_applies_or_acknowledges"
}"#,
    );

    let mut scan = scan_render_evidence(&evidence).expect("scan render evidence");
    let expected_surface_names = vec!["action_buttons".to_string()];
    let expected_control_ids = vec!["proposal:4:wait".to_string()];
    let missing = annotate_render_evidence_scan(
        &mut scan,
        "codex-app",
        Some("fnv1a64:test"),
        Some("soma.review_workbench.v1"),
        Some("soma.review_interaction_contract.v1"),
        &expected_surface_names,
        &expected_control_ids,
    );

    assert_eq!(scan.raw_tool_output_surface_count, 1);
    assert!(missing.contains(&"rendered_surfaces_must_not_be_raw_mcp_or_tool_output"));
    assert!(!scan.valid_structured_render_evidence);
}

#[test]
fn errors_of_proofs_have_exit_codes() {
    assert_eq!(AdapterBindingProofError::MalformedInput("x".into()).exit_code(), 1);
    let store = AdapterBindingProofError::Storage(StorageError { message: "x".into() });
    assert_eq!(store.exit_code(), 2);
    let io = AdapterBindingProofError::Io("x".into());
    assert_eq!(io.exit_code(), 3);
    assert_eq!(io.message(), "io: x");
    assert_eq!(EvidenceArtifactStatus::Changed.as_str(), "changed");
}

#[test]
fn evidence_files_may_only_grow_where_events_are_appended() {
    let was = b"{\"a\":1}\n".to_vec();
    let print = stable_content_fingerprint(&was);
    let len = Some(was.len() as u64);
    let mut grown = was.clone();
    grown.extend_from_slice(b"{\"b\":2}\n");
    let status = |kind: &str, bytes: &Vec<u8>| {
        artifact_replay_status(kind, bytes, len, Some(print.as_str()))
    };
    assert_eq!(status("installed_config", &was), EvidenceArtifactStatus::Verified);
    assert_eq!(status("event_jsonl", &grown), EvidenceArtifactStatus::VerifiedAppendOnlyGrowth);
    assert_eq!(status("installed_config", &grown), EvidenceArtifactStatus::Changed);
    assert_eq!(status("event_jsonl", &b"{".to_vec()), EvidenceArtifactStatus::Changed);
    assert_eq!(
        artifact_replay_status("event_jsonl", &was, None, Some(print.as_str())),
        EvidenceArtifactStatus::Changed
    );
}

#[test]
fn made_nonces_are_new_and_can_be_given_back() {
    let (a, made) = resolve_binding_nonce_for_prepare(None).unwrap();
    let (b, _) = resolve_binding_nonce_for_prepare(None).unwrap();
    assert!(made && a != b && a.starts_with("soma-bind-") && a.len() == 46);
    assert_eq!(normalize_binding_nonce(&format!("  {a} ")).unwrap(), a);
    assert!(normalize_binding_nonce("two words").is_err());
    assert!(normalize_binding_nonce(" ").is_err());
    assert!(normalize_binding_nonce(&"x".repeat(257)).is_err());
}

#[test]
fn nonces_are_found_in_configurations() {
    assert_eq!(
        extract_binding_nonce_from_text("{\"env\":{\"SOMA_ADAPTER_BINDING_NONCE\":\" n1 \"}}")
            .as_deref(),
        Some("n1")
    );
    assert_eq!(
        extract_binding_nonce_from_text("# toml\nbinding_nonce = \"n2\",\n").as_deref(),
        Some("n2")
    );
    assert_eq!(extract_binding_nonce_from_text("nothing"), None);
}

#[test]
fn rendered_configuration_is_eligible_once_it_is_installed() {
    let mut a = args();
    a.binding_nonce = Some("nonce-1".into());
    let rendered = run_render_installed_config_blocking(&a, &host(), &disk(vec![])).unwrap();
    assert_eq!(rendered.binding_nonce, "nonce-1");
    assert!(!rendered.generated_binding_nonce);
    let text = installed_config_text(&rendered);
    assert!(text.contains("\"SOMA_ADAPTER_BINDING_NONCE\": \"nonce-1\""));
    let path = "/home/u/.cursor/soma-installed-binding.json";
    let written = file(path, text.as_bytes());
    let mut w = args();
    w.binding_nonce = Some("nonce-1".into());
    w.write_installed_config = Some(path.into());
    let rendered = run_render_installed_config_blocking(&w, &host(), &disk(vec![])).unwrap();
    let checked = checked_written_config(rendered, &written).unwrap();
    assert_eq!(checked.eligible_for_observed_app_hook, Some(true));

    let d = disk(vec![file(path, text.as_bytes())]);
    let found = run_discover_installed_config_blocking(&args(), Some("/home/u"), &d).unwrap();
    assert_eq!(found.eligible_candidates, 1);
    assert_eq!(found.private_client_target_eligible_candidates, 1);
    assert_eq!(found.eligible_private_client_target_paths, vec![path]);

    let mut c = args();
    c.installed_config = Some(path.into());
    let check = run_installed_config_check_blocking(&c, &d).unwrap();
    assert!(check.eligible_for_observed_app_hook);
    assert_eq!(check.checks.binding_nonce.as_deref(), Some("nonce-1"));
    let d = disk(vec![file(path, b"{}")]);
    let check = run_installed_config_check_blocking(&c, &d).unwrap();
    assert!(!check.eligible_for_observed_app_hook);
    assert!(check.missing_requirements.contains(&"binding_nonce_reference"));
    assert!(run_installed_config_check_blocking(&args(), &d).is_err());
}

#[test]
fn preparing_makes_a_nonce_where_none_is_given() {
    let prepared = run_prepare_installed_config_blocking(&args(), &host(), &disk(vec![])).unwrap();
    assert!(prepared.generated_binding_nonce);
    assert!(prepared.binding_nonce.starts_with("soma-bind-"));
    let mut a = args();
    a.binding_nonce = Some("a b".into());
    assert!(run_prepare_installed_config_blocking(&a, &host(), &disk(vec![])).is_err());
}

#[test]
fn events_are_counted_by_client_and_source() {
    let line = |client: &str| {
        format!(
            "{{\"kind\":\"turn\",\"observed_at_ns\":7,\"writer_contract\":\"soma_adapter_spool_append_v1\",\"payload\":{{\"client\":\"{client}\",\"source\":\"{client}\",\"binding_nonce\":\"n\",\"event_source\":\"cursor_private_lifecycle_hook\",\"prompt_text\":\"p\"}}}}\n"
        )
    };
    let content = format!("{}{}\n", line("cursor"), line("other"));
    let scan = scan_event_jsonl(
        &file("/e.jsonl", content.as_bytes()),
        "cursor",
        Some("cursor_private_lifecycle_hook"),
        Some("n"),
    )
    .unwrap();
    assert_eq!(scan.matching_events, 1);
    assert_eq!(scan.matching_turns, 1);
    assert_eq!(scan.matching_private_event_sources, 1);
    assert_eq!(scan.matching_private_binding_nonces, 1);
    assert_eq!(scan.max_matching_observed_at_ns, Some(7));
    assert!(scan_event_jsonl(&file("/e.jsonl", b"{\n"), "cursor", None, None).is_err());
}

#[test]
fn proofs_are_listed_and_verified() {
    let list = run_list_blocking(
        &args(),
        Ok(vec![stored(ClientBindingProofLevel::ReferenceBinding)]),
    )
    .unwrap();
    assert_eq!(list.proofs.len(), 1);
    let shut = run_list_blocking(&args(), Err(StorageError { message: "locked".into() }));
    assert_eq!(shut.unwrap_err().exit_code(), 2);

    let kept = |path: &str, bytes: &[u8]| {
        Members::new()
            .text("path", path)
            .integer("byte_len", bytes.len() as i128)
            .text("fingerprint", &stable_content_fingerprint(bytes))
    };
    let verified = |events: &[u8], manifest: &[u8]| {
        let mut proof = stored(ClientBindingProofLevel::ObservedEventFile);
        proof.event_jsonl_path = Some("/e.jsonl".into());
        proof.checks_json = Members::new()
            .object("manifest_scan", kept("/m.json", b"{}"))
            .object("event_scan", kept("/e.jsonl", b"abc"))
            .done();
        run_verify_evidence_artifacts_blocking(
            &args(),
            Ok(vec![proof]),
            &vec![file("/e.jsonl", events), file("/m.json", manifest)],
        )
        .unwrap()
        .all_artifacts_verified
    };
    assert!(verified(b"abc", b"{}"));
    assert!(verified(b"abcdef", b"{}"));
    assert!(!verified(b"abX", b"{}"));
    assert!(!verified(b"abc", b"{}\n"));
    let unrecorded = run_verify_evidence_artifacts_blocking(
        &args(),
        Ok(vec![stored(ClientBindingProofLevel::ReferenceBinding)]),
        &vec![file("/m.json", b"{}")],
    )
    .unwrap();
    assert!(!unrecorded.all_artifacts_verified);
}

#[test]
fn a_reference_proof_allows_no_claim() {
    let status = run_status_blocking(
        &args(),
        Ok(vec![stored(ClientBindingProofLevel::ReferenceBinding)]),
        &vec![],
        &host(),
    )
    .unwrap();
    assert_eq!(status.client_count, 1);
    assert!(!status.clients[0].ready_for_private_client_claim);
    assert!(status.clients[0].has_reference_binding);
    let flow = &status.clients[0].operator_flow;
    assert_eq!(flow.len(), 14);
    let recorded_by = |id: &str| {
        let step = flow.iter().find(|s| s.id == id).unwrap();
        assert!(step.records_proof);
        step.requires_operator_action
    };
    assert!(!recorded_by("record_reference_binding_manifest"));
    assert!(recorded_by("record_observed_app_hook"));
    assert!(recorded_by("record_observed_in_client_render"));
    assert!(recorded_by("record_observed_review_action"));
}

#[test]
fn proof_kit_tells_what_is_missing() {
    let kit = run_real_app_proof_kit_blocking(&args(), &host(), &disk(vec![])).unwrap();
    assert_eq!(kit.client, "cursor");
    let hook = kit
        .proof_readiness
        .iter()
        .find(|r| r.proof_level == ClientBindingProofLevel::ObservedAppHook)
        .unwrap();
    assert!(!hook.ready_to_attempt_record);
    assert!(!hook.missing_requirements.is_empty());
    assert!(!kit.artifacts.is_empty());
}

const MANIFEST: &[u8] = br#"{
  "schema": "soma.client_binding.v1",
  "client": "cursor",
  "status": "reference",
  "trust_boundary": "tb",
  "lifecycle": {"wrapper": "w", "sample_event": {}, "event_source": "cursor_private_lifecycle_hook"},
  "spool_drain": {"wrapper": "w"},
  "review_ui": {"wrapper": "w"}
}"#;

#[test]
fn reference_proofs_are_recorded() {
    let mut a = args();
    a.manifest = Some("/m.json".into());
    let d = disk(vec![file("/m.json", MANIFEST)]);
    let draft = run_blocking(&a, Ok(()), &Ok(vec![]), 99, &d).unwrap();
    let done = proof_outcome(draft, Ok(7)).unwrap();
    assert_eq!(done.proof_id, 7);
    assert_eq!(done.client, "cursor");
    assert_eq!(done.proof_level, ClientBindingProofLevel::ReferenceBinding);
    a.client = Some("other".into());
    assert!(run_blocking(&a, Ok(()), &Ok(vec![]), 99, &d)
        .unwrap_err()
        .message()
        .contains("does not match requested client `other`"));
    let mut a = args();
    a.list = true;
    assert!(run_blocking(&a, Ok(()), &Ok(vec![]), 99, &d).unwrap_err().message().contains("run_list_blocking"));
    let mut a = args();
    a.manifest = Some("/m.json".into());
    a.proof_level = "observed_app_hook".into();
    assert!(run_blocking(&a, Ok(()), &Ok(vec![]), 99, &d)
        .unwrap_err()
        .message()
        .contains("--operator-confirm-real-app-invocation"));
    a.proof_level = "nonsense".into();
    assert!(run_blocking(&a, Ok(()), &Ok(vec![]), 99, &d).unwrap_err().message().contains("unknown proof level"));
}

#[test]
fn bundles_and_sessions_keep_the_gate_shut_without_proofs() {
    let bundle = run_evidence_bundle_blocking(
        &args(),
        Ok(vec![]),
        &vec![],
        &disk(vec![]),
        &vec![],
        None,
        TcpProbe::Unresolved,
        &host(),
    )
    .unwrap();
    assert_eq!(bundle.proof_session.release_gate, "fail");
    assert!(!bundle.proof_session.ready_for_private_client_claim);
    assert!(!bundle.blocking_gaps.is_empty());

    let session = run_proof_session_blocking(
        &args(),
        Ok(vec![]),
        &vec![],
        &disk(vec![]),
        &vec![],
        None,
        TcpProbe::Unresolved,
        &host(),
        "/db",
        "/tmp/diag.db",
    )
    .unwrap();
    assert_eq!(session.release_gate, "fail");
    let brief = render_proof_session_brief(&session);
    assert!(brief.contains("release_gate=fail"));
    assert!(brief.contains("Trust boundary: "));
}

#[test]
fn sessions_degrade_where_the_store_cannot_be_read() {
    let session = run_proof_session_blocking(
        &args(),
        Err(StorageError { message: "locked".into() }),
        &vec![],
        &disk(vec![]),
        &vec![],
        None,
        TcpProbe::Unresolved,
        &host(),
        "/db",
        "/tmp/diag.db",
    )
    .unwrap();
    assert!(session.proof_storage_error.is_some());
    assert!(!session.ready_for_private_client_claim);
    assert!(session
        .proof_storage_recovery_commands
        .iter()
        .any(|c| c.contains(&"/tmp/diag.db".to_string())));
    assert_eq!(
        proof_session_storage_diagnostic_db_path("/tmp", 12),
        "/tmp/soma-client-binding-proof-session-diagnostic-12.db"
    );
}

#[test]
fn lists_hold_each_path_once() {
    let paths: Vec<String> = ["a", "b", "a"].iter().map(|s| s.to_string()).collect();
    assert_eq!(dedup_paths(&paths), vec!["a", "b"]);
    let written = ["/h//a", "/h/a", "/h/a/", "/h/./a", "h/a", "./h/a"];
    let written: Vec<String> = written.iter().map(|p| p.to_string()).collect();
    assert_eq!(dedup_paths(&written), vec!["/h//a", "h/a", "./h/a"]);
    assert_eq!(continue_devdata_collector_endpoint(Some("h"), Some("99")).1, 99);
    assert_eq!(private_client_display_name("cursor"), "Cursor");
    assert_eq!(private_client_display_name("codex-app"), "Codex app");
    assert_eq!(private_client_display_name("other"), "other");
    assert_eq!(
        discover_installed_config_paths("codex-app", "/h", None),
        vec![
            "/h/.soma/client-bindings/codex-app-installed-binding.json",
            "/h/.codex/soma-installed-binding.json",
        ]
    );
    assert_eq!(
        private_client_target_installed_config_relpaths("codex-app"),
        vec![".codex/soma-installed-binding.json"]
    );
}

fn kept(id: i64, d: ClientBindingProofDraft) -> StoredClientBindingProof {
    StoredClientBindingProof {
        id,
        client: d.client,
        proof_level: d.proof_level,
        manifest_path: d.manifest_path,
        manifest_status: d.manifest_status,
        evidence_source: d.evidence_source,
        event_jsonl_path: d.event_jsonl_path,
        installed_config_path: d.installed_config_path,
        render_evidence_path: d.render_evidence_path,
        review_action_report_path: d.review_action_report_path,
        drain_report_json: d.drain_report_json,
        review_render_json: d.review_render_json,
        trust_boundary: d.trust_boundary,
        checks_json: d.checks_json,
        observed_at_ns: d.observed_at_ns,
    }
}

/// The files that prove everything of the client, of which the action is on `control`.
fn whole_evidence(control: &str) -> Vec<ObservedFile> {
    let mut a = args();
    a.binding_nonce = Some("nonce-1".into());
    let rendered = run_render_installed_config_blocking(&a, &host(), &disk(vec![])).unwrap();
    let config = file(
        "/home/u/.cursor/soma-installed-binding.json",
        installed_config_text(&rendered).as_bytes(),
    );
    let event = "{\"kind\":\"turn\",\"observed_at_ns\":2000,\"writer_contract\":\"soma_adapter_spool_append_v1\",\"payload\":{\"client\":\"cursor\",\"binding_nonce\":\"nonce-1\",\"event_source\":\"cursor_private_lifecycle_hook\",\"prompt_text\":\"p\"}}\n";
    let mut events = file("/e.jsonl", event.as_bytes());
    events.modified_at_ns = Some(2_500);
    let review = format!(
        "{{\"client\":\"cursor\",\"trust_boundary\":\"{REVIEW_RENDER_BOUNDARY}\",\"workbench\":{{\"version\":\"w1\"}},\"interaction_contract\":{{\"version\":\"i1\",\"actions\":[{{\"control_id\":\"c1\"}}]}}}}"
    );
    let print = stable_content_fingerprint(review.as_bytes());
    let render = format!(
        "{{\"schema\":\"soma.in_client_render_evidence.v1\",\"client\":\"cursor\",\"source\":\"client_capture\",\"observed_at_ns\":3000,\"review_render_fingerprint\":\"{print}\",\"review_workbench_version\":\"w1\",\"review_interaction_contract_version\":\"i1\",\"rendered_control_ids\":[\"c1\"],\"rendered_surfaces\":[{{\"name\":\"action_buttons\",\"kind\":\"panel\",\"title\":\"Review\",\"visible\":true,\"rendered_control_ids\":[\"c1\"]}}],\"trust_boundary\":\"{RENDER_EVIDENCE_BOUNDARY}\"}}"
    );
    let action = format!(
        "{{\"target_type\":\"claim\",\"target_id\":1,\"action\":\"confirm\",\"control_id\":\"{control}\",\"control_binding_verified\":true,\"verification_result\":\"confirmed\",\"verification_event_ids\":[1],\"verification_events\":[{{\"verifier_type\":\"user\"}}],\"claim_ids\":[1],\"trust_boundary\":\"{REVIEW_ACTION_BOUNDARY}\"}}"
    );
    vec![
        file("/m.json", MANIFEST),
        config,
        events,
        file("/review.json", review.as_bytes()),
        file("/render.json", render.as_bytes()),
        file("/action.json", action.as_bytes()),
        file("/drain.json", br#"{"captured_turns":1}"#),
    ]
}

fn claiming(level: &str) -> AdapterBindingProofArgs {
    let mut a = args();
    a.manifest = Some("/m.json".into());
    a.proof_level = level.into();
    a.evidence_source = format!("private_client_operator_observed_cursor_{level}");
    a.installed_config = Some("/home/u/.cursor/soma-installed-binding.json".into());
    a.operator_confirm_release_grade_evidence = true;
    match level {
        "observed_app_hook" => {
            a.event_jsonl = Some("/e.jsonl".into());
            a.drain_report = Some("/drain.json".into());
            a.operator_confirm_real_app_invocation = true;
        }
        "observed_in_client_render" => {
            a.review_render_report = Some("/review.json".into());
            a.render_evidence = Some("/render.json".into());
            a.operator_confirm_in_client_render = true;
        }
        _ => {
            a.review_action_report = Some("/action.json".into());
            a.operator_confirm_review_action = true;
        }
    }
    a
}

fn whole_proofs(files: &Disk) -> Vec<StoredClientBindingProof> {
    let mut undrained = claiming("observed_app_hook");
    undrained.drain_report = None;
    assert_eq!(
        run_blocking(&undrained, Ok(()), &Ok(vec![]), 10_000, files).unwrap_err().message(),
        "malformed input: observed_app_hook requires --drain-report"
    );
    let hook = run_blocking(&claiming("observed_app_hook"), Ok(()), &Ok(vec![]), 10_000, files);
    let hook = hook.unwrap();
    let shown = claiming("observed_in_client_render");
    let render = run_blocking(&shown, Ok(()), &Ok(vec![]), 11_000, files).unwrap();
    let render = kept(2, render);
    let acted = claiming("observed_review_action");
    let action = run_blocking(&acted, Ok(()), &Ok(vec![render]), 12_000, files).unwrap();
    let shown = claiming("observed_in_client_render");
    let render = run_blocking(&shown, Ok(()), &Ok(vec![]), 11_000, files).unwrap();
    vec![kept(3, action), kept(2, render), kept(1, hook)]
}

#[test]
fn whole_evidence_allows_the_claim() {
    let files = disk(whole_evidence("c1"));
    let status =
        run_status_blocking(&args(), Ok(whole_proofs(&files)), &whole_evidence("c1"), &host())
            .unwrap();
    assert_eq!(status.clients.len(), 1);
    assert!(status.clients[0].ready_for_private_client_claim);

    let session = run_proof_session_blocking(
        &args(),
        Ok(whole_proofs(&files)),
        &whole_evidence("c1"),
        &files,
        &vec![],
        None,
        TcpProbe::Unresolved,
        &host(),
        "/db",
        "/tmp/d",
    )
    .unwrap();
    assert_eq!(session.release_gate, "pass");
    assert!(session.pending_proof_levels.is_empty());
    assert!(session.ready_for_private_client_claim);
}

#[test]
fn changed_evidence_takes_the_claim_back() {
    let files = disk(whole_evidence("c1"));
    let mut changed = whole_evidence("c1");
    changed[4].contents.push(b' ');
    let status =
        run_status_blocking(&args(), Ok(whole_proofs(&files)), &changed, &host()).unwrap();
    assert!(!status.clients[0].ready_for_private_client_claim);
    let mut grown = whole_evidence("c1");
    grown[2].contents.extend_from_slice(b"{}\n");
    let status = run_status_blocking(&args(), Ok(whole_proofs(&files)), &grown, &host()).unwrap();
    assert!(status.clients[0].ready_for_private_client_claim);
}

#[test]
fn actions_must_be_on_what_was_rendered() {
    let files = disk(whole_evidence("c9"));
    let shown = claiming("observed_in_client_render");
    let render = run_blocking(&shown, Ok(()), &Ok(vec![]), 11_000, &files).unwrap();
    let acted = claiming("observed_review_action");
    let refused = run_blocking(&acted, Ok(()), &Ok(vec![kept(2, render)]), 12_000, &files);
    assert_eq!(
        refused.unwrap_err().message(),
        "malformed input: observed_review_action control_id `c9` was not present in the latest observed_in_client_render proof"
    );
    let unlisted = || Err(StorageError { message: "locked".into() });
    let unread = run_blocking(
        &claiming("observed_review_action"),
        Ok(()),
        &unlisted(),
        12_000,
        &files,
    );
    assert_eq!(unread.unwrap_err().message(), "storage: locked");
    let hook = claiming("observed_app_hook");
    assert!(run_blocking(&hook, Ok(()), &unlisted(), 12_000, &files).is_ok());
    let shut = Err(StorageError { message: "no store".into() });
    assert_eq!(
        run_blocking(&hook, shut, &Ok(vec![]), 12_000, &files).unwrap_err().message(),
        "storage: no store"
    );
    let alone = run_blocking(&acted, Ok(()), &Ok(vec![]), 12_000, &files);
    assert!(alone
        .unwrap_err()
        .message()
        .contains("requires an existing observed_in_client_render proof"));
}

#[test]
fn first_session_that_is_looked_at_is_kept() {
    let row = |client: &str, required: bool| RequiredClientProofRow {
        client: client.into(),
        proof_session_required: required,
        proof_session_cli: String::new(),
        proof_session_mcp_arguments: Json::Object(vec![]),
        config_root_probe_hint: None,
        probe: None,
        render_evidence_artifact_path: None,
        details: Json::Null,
    };
    let look = |files: Vec<ObservedFile>, proofs: Vec<StoredClientBindingProof>| {
        run_proof_session_blocking(
            &args(),
            Ok(proofs),
            &files,
            &disk(whole_evidence("c1")),
            &vec![],
            None,
            TcpProbe::Unresolved,
            &host(),
            "/db",
            "/tmp/d",
        )
        .map(|o| o.proof_session)
    };
    let rows = vec![row("cursor", true), row("other", false), row("continue", true)];
    let ProbeStep::Probe(walk, _) = begin_probes(rows, Some("/home/u"), 3) else {
        panic!("a row asks for a session");
    };
    let whole = whole_proofs(&disk(whole_evidence("c1")));
    let looked = look(whole_evidence("c1"), whole);
    let step = probe_step(walk, looked, "soma", "/home/u", Json::Bool(true), 3);
    let ProbeStep::Probe(walk, flags) = step else {
        panic!("another row asks for one");
    };
    assert_eq!(flags.client.as_deref(), Some("continue"));
    let step = probe_step(walk, look(vec![], vec![]), "soma", "/home/u", Json::Null, 3);
    let ProbeStep::Done(done) = step else {
        panic!("all were looked at");
    };
    assert_eq!(done.first.unwrap().release_gate, "pass");
    assert!(done.rows[0].probe.is_some() && done.rows[2].probe.is_some());
    assert!(done.rows[1].probe.is_none());
    assert_eq!(
        done.rows[0].proof_session_cli,
        "soma adapter-binding-proof --client cursor --proof-session --config-root /home/u"
    );
    assert_eq!(done.rows[0].proof_session_mcp_arguments.get_text("config_root"), Some("/home/u"));
}
