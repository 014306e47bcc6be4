use soma::capture::ai_cli::{
    compute_summary_signature, duration_ms, emit_error_json, enforce_mutex, episode_index_text,
    exit_code_for, resolve_db_path, run_ingest, validate_stdout_file_path, IngestArgs, IngestEnv,
    IngestError, JsonPayload, MAX_COMMAND_BYTES,
};
use soma::capture::graph::{
    ingest_steps, latent_dims, wire_edges_after_ingest, IngestStep, Neighbor, ScoreVerdict,
};
use soma::storage::{Episode, EpisodeSource};

fn args_claude(prompt: &str, response: &str) -> IngestArgs {
    IngestArgs {
        source: "codex-cli".into(),
        session: Some("d0-test".into()),
        prompt: Some(prompt.into()),
        response: Some(response.into()),
        command: None,
        stdout_file: None,
        exit_code: None,
        cwd: None,
        git_branch: None,
        project: Some("soma".into()),
        digest: None,
        json: None,
        db_path: None,
    }
}

fn env() -> IngestEnv {
    IngestEnv { project: None, session_id: None, now_ns: 1_000_000_000 }
}

fn episode() -> Episode {
    Episode {
        ts_start_ns: 0,
        ts_end_ns: 0,
        duration_ms: 0,
        source: EpisodeSource::Terminal,
        session_id: None,
        prompt_text: Some(String::new()),
        response_text: None,
        command: Some("ls".into()),
        stdout: None,
        exit_code: None,
        cwd: None,
        git_branch: None,
        project: None,
        digest: None,
    }
}

#[test]
fn ingest_writes_vector_for_hash_model() {
    let args = args_claude(
        "Help me refactor the auth middleware in myapp",
        "I suggest splitting into token validation and rate limit",
    );
    let plan = run_ingest(&args, None, None, &env()).expect("ingest must succeed");
    assert!(plan.embed, "exactly one vector row");
    assert_eq!(
        plan.index_text,
        "Help me refactor the auth middleware in myapp\nI suggest splitting into token validation and rate limit"
    );
    assert_eq!(plan.episode.project.as_deref(), Some("soma"));
}

#[test]
fn ingest_terminal_episode_embeds_command() {
    let mut args = args_claude("", "");
    args.source = "terminal".into();
    args.prompt = None;
    args.response = None;
    args.command = Some("cargo test --workspace".into());
    let plan = run_ingest(&args, None, None, &env()).expect("terminal ingest must succeed");
    assert!(plan.embed, "command-only episode still embeds");
    assert_eq!(plan.index_text, "cargo test --workspace");
}

#[test]
fn exit_code_for_path_error_is_three() {
    let err = IngestError::Path("home directory not resolvable".into());
    assert_eq!(exit_code_for(&err), 3);
    let msg = err.message();
    assert!(msg.contains("path"), "Display lost the kind tag: {msg}");
}

#[test]
fn episode_index_text_skips_empty_fields() {
    let mut ep = episode();
    assert_eq!(episode_index_text(&ep), "ls");

    ep.prompt_text = Some("hello".into());
    ep.response_text = Some("world".into());
    ep.command = None;
    assert_eq!(episode_index_text(&ep), "hello\nworld");
}

#[test]
fn stdout_file_must_lie_below_the_temporary_directory() {
    let ok = validate_stdout_file_path("/tmp/link.bin", "/tmp/target.bin", "/tmp");
    assert_eq!(ok.expect("valid tempdir path"), "/tmp/target.bin");
    let bad = validate_stdout_file_path("/tmp/link.bin", "/etc/passwd", "/tmp");
    assert!(matches!(bad, Err(IngestError::MalformedInput(_))));
}

#[test]
fn signature_is_the_hash_of_command_project_and_exit_code() {
    let mut ep = episode();
    ep.project = Some("soma".into());
    ep.exit_code = Some(0);
    assert_eq!(
        compute_summary_signature(&ep).as_deref(),
        Some("f41e0b997b51f7ce4c7bc6fe2d732c8a9d348aabbd58e6178195741e0e0dc18e")
    );
    ep.project = None;
    ep.exit_code = None;
    assert_eq!(
        compute_summary_signature(&ep).as_deref(),
        Some("a138220234cf51523575c97ff1d58e0c2d3cdbc78748a5277645317d1baf2f2f")
    );
    ep.command = None;
    assert_eq!(compute_summary_signature(&ep), None);
}

#[test]
fn long_commands_hash_over_block_boundaries() {
    let mut ep = episode();
    ep.command = Some("x".repeat(200));
    assert_eq!(
        compute_summary_signature(&ep).as_deref(),
        Some("e1ac4fdfa1760e7170984d0479b6922480924b2bfaa27d6bfbfdd742b101f025")
    );
}

#[test]
fn json_and_payload_flags_exclude_each_other() {
    let mut args = args_claude("p", "r");
    args.json = Some("-".into());
    assert!(matches!(enforce_mutex(&args), Err(IngestError::MalformedInput(_))));
    args.prompt = None;
    args.response = None;
    args.session = None;
    args.project = None;
    assert!(enforce_mutex(&args).is_ok());
}

#[test]
fn base64_output_in_a_payload_is_decoded() {
    let mut args = args_claude("", "");
    args.source = String::new();
    args.prompt = None;
    args.response = None;
    args.session = None;
    args.project = None;
    args.json = Some("-".into());
    let mut payload = JsonPayload::default();
    payload.source = Some("terminal".into());
    payload.command = Some("echo hi".into());
    payload.stdout_b64 = Some("aGkK".into());
    let plan = run_ingest(&args, Some(Ok(payload)), None, &env()).expect("payload is valid");
    assert_eq!(plan.episode.stdout, Some(b"hi\n".to_vec()));

    let mut payload = JsonPayload::default();
    payload.source = Some("terminal".into());
    payload.command = Some("echo hi".into());
    payload.stdout_b64 = Some("not base64!".into());
    let refused = run_ingest(&args, Some(Ok(payload)), None, &env());
    assert!(refused.is_err());
}

#[test]
fn oversized_command_is_refused() {
    let mut args = args_claude("", "");
    args.source = "terminal".into();
    args.prompt = None;
    args.response = None;
    args.command = Some("x".repeat(MAX_COMMAND_BYTES + 1));
    let refused = run_ingest(&args, None, None, &env());
    assert_eq!(exit_code_for(&refused.expect_err("too large")), 4);
    args.command = Some("x".repeat(MAX_COMMAND_BYTES));
    assert!(run_ingest(&args, None, None, &env()).is_ok());
}

#[test]
fn time_runs_forward_in_whole_milliseconds() {
    assert_eq!(duration_ms(0, 1_999_999), 1);
    assert_eq!(duration_ms(5, 4), 0);
    assert_eq!(duration_ms(i64::MIN, i64::MAX), i64::MAX / 1_000_000);
}

#[test]
fn store_is_found_by_flag_then_variable_then_home() {
    assert_eq!(resolve_db_path(Some("/a"), Some("/b"), Some("/h")).unwrap(), "/a");
    assert_eq!(resolve_db_path(None, Some("/b"), Some("/h")).unwrap(), "/b");
    assert_eq!(resolve_db_path(None, Some(""), Some("/h")).unwrap(), "/h/.soma/soma.db");
    assert_eq!(exit_code_for(&resolve_db_path(None, None, None).unwrap_err()), 3);
}

#[test]
fn assistants_must_say_something() {
    for source in ["codex-cli", "codex-app", "cursor", "continue"] {
        let mut args = args_claude("", "");
        args.source = source.into();
        args.prompt = None;
        args.response = None;
        let refused = run_ingest(&args, None, None, &env()).expect_err("nothing is said");
        assert_eq!(
            refused.message(),
            format!(
                "malformed input: source=`{source}` requires at least one of prompt_text / response_text"
            )
        );
    }
}

#[test]
fn errors_are_told_as_json() {
    let text = emit_error_json(&IngestError::MalformedInput("no".into()));
    assert_eq!(text, "{\"code\":\"malformed\",\"error\":\"malformed input: no\"}");
}

#[test]
fn edges_join_the_most_alike() {
    let row = |episode_id, similarity| Neighbor { episode_id, similarity };
    let rows = vec![row(1, 60), row(2, 90), row(9, 99), row(3, 40), row(4, 90), row(5, 70)];
    let edges = wire_edges_after_ingest(&rows, 9, 50, 3);
    assert_eq!(edges, vec![row(2, 90), row(4, 90), row(5, 70)]);
    assert_eq!(wire_edges_after_ingest(&rows, 9, 50, 10).len(), 4);
    assert_eq!(wire_edges_after_ingest(&rows, 9, 50, 0), vec![]);
}

#[test]
fn latent_sizes_halve() {
    assert_eq!(latent_dims(7), None);
    assert_eq!(latent_dims(8), Some(vec![8, 4, 2, 1]));
    assert_eq!(latent_dims(1023), Some(vec![1023, 511, 255, 127]));
}

#[test]
fn steps_follow_what_was_stored() {
    let args = args_claude("p", "r");
    let plan = run_ingest(&args, None, None, &env()).unwrap();
    assert_eq!(
        ingest_steps(&plan, true, Some(ScoreVerdict { anomalous: true, pin: true })),
        vec![
            IngestStep::WriteSecondaryVector,
            IngestStep::WireEdges,
            IngestStep::UpdateCentroid,
            IngestStep::RecordAnomaly,
            IngestStep::PinEpisode,
        ]
    );
    assert_eq!(ingest_steps(&plan, false, None), vec![IngestStep::WriteSecondaryVector]);
}
