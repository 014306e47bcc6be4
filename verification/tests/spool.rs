use soma::cli::adapter_capture::{current_git_branch, AdapterCaptureArgs, CapturePlace};
use soma::cli::adapter_lifecycle::{
    infer_event_name, normalize_token, AdapterLifecycleArgs, AdapterLifecycleError,
    AdapterLifecyclePayload, LifecycleEnv,
};
use soma::cli::adapter_spool::{
    append_outcome, count, default_checkpoint_path, drain_step, next_line, read_checkpoint,
    run_append_blocking, run_blocking, spool_action, write_checkpoint, AdapterSpoolAppendArgs,
    AdapterSpoolArgs, CheckpointRead, DrainStep, SpoolEnv, SpoolKind, SpoolOpenFault,
};
use soma::json::Json;

fn append_args(kind: &str) -> AdapterSpoolAppendArgs {
    AdapterSpoolAppendArgs {
        jsonl: "/spool/events.jsonl".into(),
        kind: kind.into(),
        json: "-".into(),
        source: None,
        cwd: None,
        project: None,
        session_id: None,
        git_branch: None,
        client: None,
        binding_nonce: None,
        fsync: false,
    }
}

fn no_env() -> SpoolEnv {
    SpoolEnv { project: None, session_id: None, client: None }
}

fn drain_args() -> AdapterSpoolArgs {
    AdapterSpoolArgs {
        jsonl: "/spool/events.jsonl".into(),
        checkpoint: None,
        source: None,
        cwd: None,
        project: None,
        session_id: None,
        git_branch: None,
    }
}

#[test]
fn default_checkpoint_sits_next_to_jsonl_with_offset_extension() {
    let checkpoint = default_checkpoint_path("/tmp/soma/adapter/events.jsonl");
    assert_eq!(checkpoint, "/tmp/soma/adapter/events.offset");
}

#[test]
fn append_writes_one_line_with_defaults() {
    let mut args = append_args(" Capture-Turn ");
    args.source = Some("codex-app".into());
    let env = SpoolEnv { project: Some(" soma ".into()), session_id: None, client: None };
    let raw = "{\"prompt_text\":\"hi\\nthere\"}".to_string();
    let a = run_append_blocking(&args, Ok(raw), &env, 7).expect("valid turn");
    assert_eq!(a.kind, "turn");
    assert_eq!(
        a.line,
        "{\"kind\":\"turn\",\"observed_at_ns\":7,\"payload\":{\"project\":\"soma\",\"prompt_text\":\"hi\\nthere\",\"source\":\"codex-app\"},\"schema\":\"soma.adapter_spool_event.v1\",\"writer_contract\":\"soma_adapter_spool_append_v1\"}\n"
    );
    let bytes = a.line.len();
    let done = append_outcome(a, 500);
    assert_eq!(done.appended_bytes, bytes);
    assert_eq!(done.end_offset, 500);
}

#[test]
fn append_refuses_what_is_not_an_event() {
    let unknown = run_append_blocking(&append_args("other"), Ok("{}".into()), &no_env(), 0);
    assert_eq!(
        unknown.unwrap_err().message(),
        "malformed input: unknown spool event kind `other`; expected turn or cloud_output"
    );
    let blank = run_append_blocking(&append_args("turn"), Ok("{}".into()), &no_env(), 0);
    assert_eq!(blank.unwrap_err().exit_code(), 1);
    let list = run_append_blocking(&append_args("turn"), Ok("[]".into()), &no_env(), 0);
    assert!(list.unwrap_err().message().contains("payload must be a JSON object"));
    let broken = run_append_blocking(&append_args("turn"), Ok("{".into()), &no_env(), 0);
    assert_eq!(broken.unwrap_err().exit_code(), 1);
    let unread = run_append_blocking(&append_args("turn"), Err("gone".into()), &no_env(), 0);
    assert_eq!(unread.unwrap_err().message(), "io: read stdin: gone");
}

#[test]
fn cloud_output_needs_a_frame() {
    let args = append_args("cloud_output");
    let none = run_append_blocking(&args, Ok("{\"output_text\":\"x\"}".into()), &no_env(), 0);
    assert!(none.unwrap_err().message().contains("task_frame_id or task_frame_query"));
    let some = run_append_blocking(
        &args,
        Ok("{\"output_text\":\"x\",\"task_frame_id\":3}".into()),
        &no_env(),
        0,
    );
    assert_eq!(some.unwrap().kind, "cloud_output");
}

#[test]
fn checkpoints_are_read_back() {
    for n in [0, 7, u64::MAX] {
        let text = write_checkpoint(n);
        assert_eq!(read_checkpoint("/c", &CheckpointRead::Text(text)).unwrap(), n);
    }
    assert_eq!(read_checkpoint("/c", &CheckpointRead::Missing).unwrap(), 0);
    let bad = read_checkpoint("/c", &CheckpointRead::Text("x".into())).unwrap_err();
    assert_eq!(
        bad.message(),
        "malformed input: checkpoint `/c` is not a byte offset: invalid digit found in string"
    );
}

#[test]
fn drain_reads_lines_once() {
    let content = b"\n{\"a\":1}\n  \n{\"b\":2}\n".to_vec();
    let args = drain_args();
    let mut d = run_blocking(&args, &CheckpointRead::Missing, Ok(content.len() as u64)).unwrap();
    assert_eq!(next_line(&mut d, &content).unwrap().as_deref(), Some("{\"a\":1}"));
    count(&mut d, SpoolKind::Turn);
    assert_eq!(next_line(&mut d, &content).unwrap().as_deref(), Some("{\"b\":2}"));
    count(&mut d, SpoolKind::CloudOutput);
    assert_eq!(next_line(&mut d, &content).unwrap(), None);
    assert_eq!(d.outcome.scanned_lines, 2);
    assert_eq!(d.outcome.skipped_empty_lines, 2);
    assert_eq!(d.outcome.captured_turns, 1);
    assert_eq!(d.outcome.captured_cloud_outputs, 1);
    assert_eq!(d.outcome.end_offset, content.len() as u64);

    let again = CheckpointRead::Text(write_checkpoint(d.outcome.end_offset));
    let mut d = run_blocking(&args, &again, Ok(content.len() as u64)).unwrap();
    assert_eq!(d.outcome.start_offset, content.len() as u64);
    assert_eq!(next_line(&mut d, &vec![]).unwrap(), None);
}

#[test]
fn done_drains_give_the_checkpoint() {
    let content = b"{\"a\":1}\n\n{\"b\":2}\n".to_vec();
    let len = content.len() as u64;
    let d = run_blocking(&drain_args(), &CheckpointRead::Missing, Ok(len)).unwrap();
    let DrainStep::Line(d, line) = drain_step(d, &content, None) else {
        panic!("a line stands first");
    };
    assert_eq!(line, "{\"a\":1}");
    let DrainStep::Line(d, line) = drain_step(d, &content, Some(Ok(SpoolKind::Turn))) else {
        panic!("another line follows");
    };
    assert_eq!(line, "{\"b\":2}");
    let DrainStep::Done(o, text) = drain_step(d, &content, Some(Ok(SpoolKind::CloudOutput))) else {
        panic!("nothing is left");
    };
    assert_eq!(o.scanned_lines, 2);
    assert_eq!((o.captured_turns, o.captured_cloud_outputs), (1, 1));
    assert_eq!(o.end_offset, len);
    assert_eq!(text, format!("{len}\n"));
    let again = CheckpointRead::Text(text);
    let d = run_blocking(&drain_args(), &again, Ok(len)).unwrap();
    let DrainStep::Done(o, _) = drain_step(d, &vec![], None) else {
        panic!("nothing is drained twice");
    };
    assert_eq!((o.start_offset, o.end_offset, o.scanned_lines), (len, len, 0));
}

#[test]
fn failed_lines_give_no_checkpoint() {
    let content = b"{\"a\":1}\nno\n".to_vec();
    let d = run_blocking(&drain_args(), &CheckpointRead::Missing, Ok(11)).unwrap();
    let DrainStep::Line(d, _) = drain_step(d, &content, None) else {
        panic!("a line stands first");
    };
    let DrainStep::Line(d, _) = drain_step(d, &content, Some(Ok(SpoolKind::Turn))) else {
        panic!("another line follows");
    };
    let fault = spool_action(Err("eof".into())).unwrap_err();
    let DrainStep::Failed(e) = drain_step(d, &content, Some(Err(fault))) else {
        panic!("the line failed");
    };
    assert_eq!(e.message(), "malformed input: JSONL event parse: eof");
}

#[test]
fn drain_refuses_bytes_that_are_no_text() {
    let content = b"\xff\xfe\n".to_vec();
    let mut d = run_blocking(&drain_args(), &CheckpointRead::Missing, Ok(3)).unwrap();
    let e = next_line(&mut d, &content).unwrap_err();
    assert_eq!(e.exit_code(), 3);
    let shut = run_blocking(
        &drain_args(),
        &CheckpointRead::Missing,
        Err(SpoolOpenFault::Open("denied".into())),
    );
    assert_eq!(shut.unwrap_err().message(), "io: open `/spool/events.jsonl`: denied");
}

#[test]
fn lines_become_actions() {
    let payload = Json::Object(vec![]);
    let a = spool_action(Ok(("adapter-cloud-output".into(), payload))).unwrap();
    assert_eq!(a.kind, SpoolKind::CloudOutput);
    assert_eq!(a.payload, "{}");
    assert!(spool_action(Err("eof".into())).unwrap_err().message().contains("JSONL event parse"));
}

fn lifecycle_args() -> AdapterLifecycleArgs {
    AdapterLifecycleArgs {
        json: "-".into(),
        jsonl: None,
        client: None,
        source: None,
        event: None,
        event_source: None,
        binding_nonce: None,
        hook_adapter: None,
        cwd: None,
        project: None,
        session_id: None,
        git_branch: None,
        fsync: false,
        format: "event".into(),
    }
}

fn lifecycle_payload() -> AdapterLifecyclePayload {
    AdapterLifecyclePayload {
        client: None,
        event: None,
        lifecycle_event: None,
        kind: None,
        event_type: None,
        source: None,
        session_id: None,
        thread_id: None,
        prompt_text: None,
        response_text: None,
        output_text: None,
        task_frame_id: None,
        task_frame_query: None,
    }
}

fn lifecycle_env() -> LifecycleEnv {
    LifecycleEnv {
        client: None,
        project: None,
        session_id: None,
        lifecycle_client: None,
        lifecycle_hook_adapter: None,
        lifecycle_cwd: None,
        lifecycle_project: None,
        lifecycle_session: None,
    }
}

#[test]
fn lifecycle_events_become_spool_events() {
    let raw = "{\"event\":\"turn-completed\",\"client\":\"cursor\",\"prompt_text\":\"p\",\"thread_id\":\"t1\",\"output_text\":\"o\"}";
    let mut payload = lifecycle_payload();
    payload.event = Some("turn-completed".into());
    payload.client = Some("cursor".into());
    payload.prompt_text = Some("p".into());
    payload.thread_id = Some("t1".into());
    payload.output_text = Some("o".into());
    let mut args = lifecycle_args();
    args.jsonl = Some("/spool/e.jsonl".into());
    let read = Ok((raw.to_string(), Ok(payload)));
    let plan = soma::cli::adapter_lifecycle::run_blocking(&args, read, &lifecycle_env(), 5)
        .expect("a turn");
    assert_eq!(plan.outcome.client, "cursor");
    assert_eq!(plan.outcome.lifecycle_event, "turn-completed");
    assert_eq!(plan.outcome.normalized_kind, "turn");
    let payload = plan.outcome.emitted_event.get("payload").expect("payload");
    assert_eq!(payload.get_text("session_id"), Some("t1"));
    assert_eq!(payload.get_text("response_text"), Some("o"));
    assert_eq!(payload.get_text("source"), Some("cursor"));
    assert_eq!(payload.get_text("lifecycle_event"), Some("turn-completed"));
    assert!(payload.get("event").is_none());
    assert_eq!(plan.outcome.emitted_event.get_i64("observed_at_ns"), Some(5));
    let append = plan.append.expect("a spool is named");
    let parsed: serde_json::Value = serde_json::from_str(&append.line).unwrap();
    assert_eq!(parsed.get("observed_at_ns").and_then(|v| v.as_i64()), Some(5));
    assert_eq!(append.line, format!("{parsed}\n"));
    let told = plan.outcome.emitted_event.get("payload").unwrap().get_text("lifecycle_event");
    assert_eq!(parsed.pointer("/payload/lifecycle_event").and_then(|v| v.as_str()), told);
    assert_eq!(append.spool_path, "/spool/e.jsonl");
}

#[test]
fn lifecycle_flags_and_variables_come_first() {
    let mut payload = lifecycle_payload();
    payload.prompt_text = Some("p".into());
    payload.client = Some("from-payload".into());
    let raw = "{\"prompt_text\":\"p\",\"client\":\"from-payload\"}".to_string();
    let mut env = lifecycle_env();
    env.client = Some("from-env".into());
    let plan = soma::cli::adapter_lifecycle::run_blocking(
        &lifecycle_args(),
        Ok((raw, Ok(payload))),
        &env,
        1,
    )
    .unwrap();
    assert_eq!(plan.outcome.client, "from-env");
    assert!(plan.append.is_none());
}

#[test]
fn lifecycle_refuses_what_it_cannot_read() {
    let run = |format: &str, raw: &str, payload: Result<AdapterLifecyclePayload, String>| {
        let mut args = lifecycle_args();
        args.format = format.into();
        soma::cli::adapter_lifecycle::run_blocking(
            &args,
            Ok((raw.to_string(), payload)),
            &lifecycle_env(),
            0,
        )
        .unwrap_err()
    };
    assert_eq!(
        run("xml", "{}", Ok(lifecycle_payload())).message(),
        "malformed input: unknown format `xml`; expected event or report"
    );
    assert_eq!(run("report", "{}", Err("eof".into())).message(), "malformed input: JSON parse: eof");
    assert_eq!(
        run("event", "[]", Ok(lifecycle_payload())).message(),
        "malformed input: lifecycle payload must be a JSON object"
    );
    let mut odd = lifecycle_payload();
    odd.event = Some("Odd Event".into());
    let e = run("event", "{}", Ok(odd));
    assert!(e.message().contains("unknown lifecycle event `odd_event`"));
    assert_eq!(e.exit_code(), 1);
    let mut auto = lifecycle_payload();
    auto.event = Some("auto".into());
    assert!(run("event", "{}", Ok(auto)).message().contains("cannot infer lifecycle kind"));
    let spool = run("event", "{}", Ok(lifecycle_payload()));
    assert!(matches!(spool, AdapterLifecycleError::Spool(_)));
    let unread = soma::cli::adapter_lifecycle::run_blocking(
        &lifecycle_args(),
        Err("gone".into()),
        &lifecycle_env(),
        0,
    );
    assert_eq!(unread.unwrap_err().exit_code(), 3);
}

#[test]
fn event_names_are_normalised_or_inferred() {
    assert_eq!(normalize_token(" Turn-Completed now "), "turn_completed_now");
    assert_eq!(infer_event_name(&lifecycle_payload()), "turn_completed");
    let mut p = lifecycle_payload();
    p.output_text = Some("o".into());
    assert_eq!(infer_event_name(&p), "assistant_response");
}

#[test]
fn turns_are_completed_with_flags_variables_and_directory() {
    let args = AdapterCaptureArgs {
        json: "-".into(),
        source: Some("cursor".into()),
        cwd: None,
        project: None,
        session_id: None,
        git_branch: None,
    };
    let at = CapturePlace {
        current_dir: Some("/work".into()),
        env_project: Some(" from-env ".into()),
        env_session: None,
        dir_project: Some("from-dir".into()),
        dir_branch: Some("main\n".into()),
    };
    let mut payload = soma::capture::ai_cli::JsonPayload::default();
    payload.prompt_text = Some("p".into());
    payload.response_text = Some("r".into());
    let plan =
        soma::cli::adapter_capture::run_blocking(&args, Ok(Ok(payload)), &at, 9).expect("a turn");
    assert_eq!(plan.episode.project.as_deref(), Some("from-env"));
    assert_eq!(plan.episode.git_branch.as_deref(), Some("main"));
    assert_eq!(plan.episode.cwd.as_deref(), Some("/work"));
    assert_eq!(plan.episode.source.name(), "cursor");
}

#[test]
fn branch_is_what_git_printed() {
    assert_eq!(current_git_branch(Some(&b"main\n".to_vec())).as_deref(), Some("main"));
    assert_eq!(current_git_branch(Some(&b"\n".to_vec())), None);
    assert_eq!(current_git_branch(Some(&b"\xff".to_vec())), None);
    assert_eq!(current_git_branch(None), None);
}
