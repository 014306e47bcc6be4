use soma::capture::ai_cli::IngestError;
use soma::cli::backfill::{BackfillError, BackfillStep};
use soma::cli::binary_identity::{
    collect_binary_identity, command_with_current_binary_when_path_soma_differs, ObservedBinary,
};
use soma::cli::capture::{
    emit_ingest, shell_of, stdout_file_name, CaptureContext, CaptureError, PtySession,
    STDOUT_BUFFER_CAP,
};
use soma::cli::diagnose::{
    diagnose, DiagnoseSeen, HeadShape, HopfieldShape, LayerShape, MemoryShape, ResidentSeen,
    StoreSeen, WeightShapes,
};
use soma::cli::inspect::{
    begin_inspect, derive_recall_active, find_row, run_inspect, CentroidFacts, EdgeRow,
    EpisodeNote, EpisodeRead, InspectArgs, InspectError, InspectQuery, InspectRead, NarrativeRow,
    PinRead, ProjectionWeights, StoredEpisode, VectorFacts, WeightsRead,
};
use soma::json::Json;
use soma::storage::StorageError;

fn failed(m: &str) -> StorageError {
    StorageError { message: m.into() }
}

#[test]
fn backfill_goes_on_until_nothing_is_written() {
    let start = soma::cli::backfill::run_blocking(Ok("/db".into()), Ok(()), "hash-v1", 64).unwrap();
    assert_eq!(
        start.heading,
        vec![
            "soma: backfill — re-embedding episodes under primary backend",
            "  model_id: hash-v1",
            "  dim:      64",
            "  db:       /db",
        ]
    );
    let mut b = start.backfill;
    match b.advance(64) {
        BackfillStep::Again(line) => {
            assert_eq!(line, "  cycle   1: +64 episodes (cumulative: 64)")
        }
        BackfillStep::Done(_) => panic!("more is to come"),
    }
    match b.advance(3) {
        BackfillStep::Again(line) => {
            assert_eq!(line, "  cycle   2: +3 episodes (cumulative: 67)")
        }
        BackfillStep::Done(_) => panic!("more is to come"),
    }
    match b.advance(0) {
        BackfillStep::Done(line) => assert_eq!(
            line,
            "soma: backfill complete — 67 episodes re-embedded over 2 cycle(s)"
        ),
        BackfillStep::Again(_) => panic!("nothing was written"),
    }
}

#[test]
fn backfill_of_a_full_store_does_nothing() {
    let start = soma::cli::backfill::run_blocking(Ok("/db".into()), Ok(()), "m", 1).unwrap();
    let mut b = start.backfill;
    match b.advance(0) {
        BackfillStep::Done(line) => assert!(line.ends_with("(no-op)")),
        BackfillStep::Again(_) => panic!("nothing was written"),
    }
}

#[test]
fn backfill_errors_have_exit_codes() {
    let path = soma::cli::backfill::run_blocking(
        Err(IngestError::Path("no home".into())),
        Ok(()),
        "m",
        1,
    );
    let e = path.unwrap_err();
    assert_eq!(e.message(), "path: path: no home");
    assert_eq!(soma::cli::backfill::exit_code_for(&e), 3);
    let e = BackfillError::Storage(failed("locked"));
    assert_eq!(soma::cli::backfill::exit_code_for(&e), 2);
    assert_eq!(e.message(), "storage: locked");
}

#[test]
fn commands_and_their_output_are_captured() {
    let mut s = PtySession::new();
    let out = s.read(b"$ \x1b]133;B\x07ls -l\n\x1b]133;C\x07total 0\n");
    assert_eq!(out.passthrough, b"$ ls -l\ntotal 0\n");
    assert!(out.finished.is_empty());
    let out = s.read(b"file\n\x1b]133;D;0\x07$ ");
    assert_eq!(out.passthrough, b"file\n$ ");
    assert_eq!(out.finished.len(), 1);
    assert_eq!(out.finished[0].command, "ls -l");
    assert_eq!(out.finished[0].exit_code, Some(0));
    assert_eq!(out.finished[0].stdout, b"total 0\nfile\n");
}

#[test]
fn blank_commands_are_passed_over_and_bad_bytes_replaced() {
    let mut s = PtySession::new();
    let out = s.read(b"\x1b]133;B\x07  \x1b]133;C\x07\x1b]133;D;0\x07");
    assert!(out.finished.is_empty());
    let out = s.read(b"\x1b]133;B\x07a\xffb\x1b]133;C\x07\x1b]133;D;1\x07");
    assert_eq!(out.finished[0].command, "a\u{fffd}b");
}

#[test]
fn captured_output_is_capped() {
    let mut s = PtySession::new();
    s.read(b"\x1b]133;B\x07yes\x1b]133;C\x07");
    let chunk = vec![b'y'; 4096];
    for _ in 0..300 {
        s.read(&chunk);
    }
    let out = s.read(b"\x1b]133;D;0\x07");
    assert_eq!(out.finished[0].stdout.len(), STDOUT_BUFFER_CAP);
}

#[test]
fn finished_commands_become_ingest_calls() {
    let ctx = CaptureContext {
        db_path: "/db".into(),
        project: Some("soma".into()),
        session_id: "s1".into(),
    };
    let mut s = PtySession::new();
    let out = s.read(b"\x1b]133;B\x07ls\x1b]133;C\x07\x1b]133;D;2\x07");
    let args = emit_ingest(&ctx, &out.finished[0], Some("/tmp/x"), Some("/work"));
    assert_eq!(args.source, "terminal");
    assert_eq!(args.command.as_deref(), Some("ls"));
    assert_eq!(args.exit_code, Some(2));
    assert_eq!(args.stdout_file, None);
    assert_eq!(args.project.as_deref(), Some("soma"));
    assert_eq!(args.cwd.as_deref(), Some("/work"));
    assert_eq!(stdout_file_name(7, 123, 0), "soma-pty-stdout-7-123-0.bin");
    assert_eq!(shell_of(None), "/bin/sh");
    let e = CaptureError::Pty("openpty: no".into());
    assert_eq!(e.message(), "pty: openpty: no");
    assert_eq!(soma::cli::capture::exit_code_for(&e), 1);
}

fn binary(path: &str, bytes: &[u8]) -> ObservedBinary {
    ObservedBinary {
        path: path.into(),
        canonical: Some(path.into()),
        contents: Ok(bytes.to_vec()),
    }
}

#[test]
fn binaries_are_compared_by_place_and_bytes() {
    let (id, errors) =
        collect_binary_identity(&Ok(binary("/a/soma", b"x")), &Some(binary("/b/soma", b"y")));
    assert!(errors.is_empty());
    assert!(id.differs_from_path_soma());
    let command = vec!["soma".to_string(), "--soma-bin".to_string(), "soma".to_string()];
    assert_eq!(
        command_with_current_binary_when_path_soma_differs(command, &id),
        vec!["/a/soma", "--soma-bin", "/a/soma"]
    );
    let (id, _) =
        collect_binary_identity(&Ok(binary("/a/soma", b"x")), &Some(binary("/b/soma", b"x")));
    assert_eq!(id.status, "path_soma_same_bytes_different_path");
    let (id, errors) = collect_binary_identity(&Err("gone".into()), &None);
    assert_eq!(id.status, "binary_identity_unavailable");
    assert_eq!(errors, vec!["current_exe: gone"]);
}

fn shapes() -> WeightShapes {
    WeightShapes {
        mlstm: Ok(Some(MemoryShape { dim: 4, train_steps: 10 })),
        hopfield: Ok(Some(HopfieldShape { dim: 4, num_heads: 2, train_steps: 3 })),
        anil: Ok(Some(HeadShape { d_emb: 4, num_classes: 5, train_steps: 6 })),
        pc_layers: Ok(vec![LayerShape { layer_idx: 0, d_in: 4, d_out: 2, train_steps: 1 }]),
    }
}

fn seen() -> DiagnoseSeen {
    DiagnoseSeen {
        version: "1.2.3".into(),
        git_sha: None,
        features: vec!["cognitive".into()],
        db_path: Ok("/db".into()),
        db_size_bytes: Ok(4096),
        store: Ok(StoreSeen { episode_count: Ok(12), weights: shapes() }),
        disposition: Json::Null,
        resident: ResidentSeen::NotRunning { socket: "/run/soma.sock".into() },
        current_exe: Ok(binary("/a/soma", b"x")),
        path_soma: None,
    }
}

#[test]
fn diagnosis_of_a_whole_environment() {
    let j = diagnose(seen());
    assert_eq!(j.get_text("git_sha"), Some("unknown"));
    assert_eq!(j.get_i64("episode_count"), Some(12));
    assert_eq!(j.get_i64("db_size_bytes"), Some(4096));
    assert_eq!(j.at("resident", "state").and_then(|v| match v {
        Json::Text(s) => Some(s.as_str()),
        _ => None,
    }), Some("not_running"));
    let shapes = j.get("weight_shapes").unwrap();
    assert_eq!(shapes.at("hopfield", "num_heads").is_some(), true);
    assert_eq!(shapes.get_list("pc_layers").map(|l| l.len()), Some(1));
    assert_eq!(j.get_list("_errors").map(|l| l.len()), Some(0));
    assert_eq!(j.at("binary", "byte_len").is_none(), true);
}

#[test]
fn diagnosis_lists_everything_that_went_wrong() {
    let mut s = seen();
    s.db_size_bytes = Err("no file".into());
    s.store = Ok(StoreSeen {
        episode_count: Err(failed("bad count")),
        weights: WeightShapes {
            mlstm: Err(failed("m")),
            hopfield: Ok(None),
            anil: Err(failed("a")),
            pc_layers: Ok(vec![]),
        },
    });
    s.resident = ResidentSeen::NoAnswer { socket: "/s".into(), error: "timeout".into() };
    s.current_exe = Err("gone".into());
    let j = diagnose(s);
    let errors: Vec<String> = soma::json::texts_of(j.get("_errors"));
    assert_eq!(
        errors,
        vec![
            "db metadata: no file",
            "counters: bad count",
            "get_working_memory_weights: m",
            "get_anil_head_weights: a",
            "resident probe: timeout",
            "current_exe: gone",
        ]
    );
    assert_eq!(j.get_i64("episode_count"), Some(0));
    let mut s = seen();
    s.db_path = Err(IngestError::Path("no home".into()));
    let j = diagnose(s);
    assert!(matches!(j.get("db_path"), Some(Json::Null)));
    assert_eq!(
        soma::json::texts_of(j.get("_errors")),
        vec!["resolve_db_path: path: no home"]
    );
    assert!(soma::cli::diagnose::run_blocking(seen()).starts_with("{\n  \"_errors\": [],"));
}

fn inspect_args(kind: &str, id: Option<i64>) -> InspectArgs {
    InspectArgs { kind: kind.into(), id, format: "json".into(), include_forgotten: false }
}

fn episode_read(forgotten: Option<EpisodeNote>) -> InspectRead {
    InspectRead::Episode(EpisodeRead {
        episode: Ok(Some(StoredEpisode {
            id: 3,
            ts_start_ns: 1,
            ts_end_ns: 2,
            duration_ms: 0,
            source: "terminal".into(),
            session_id: None,
            prompt_text: None,
            response_text: None,
            command: Some("ls".into()),
            exit_code: Some(0),
            cwd: None,
            git_branch: None,
            project: None,
            digest: None,
            memory_tier: Json::Text("l1".into()),
            salience: Json::Float("0.5".into()),
        })),
        access: Ok(Some((4, 5))),
        summary: Ok(None),
        forgotten: Ok(forgotten),
    })
}

#[test]
fn inspect_decides_what_is_asked_for() {
    assert_eq!(
        begin_inspect(&inspect_args("episode", Some(3)), Ok(())).unwrap(),
        InspectQuery::Episode(3)
    );
    assert_eq!(
        begin_inspect(&inspect_args("weights", None), Ok(())).unwrap(),
        InspectQuery::Weights
    );
    let e = begin_inspect(&inspect_args("pin", None), Ok(())).unwrap_err();
    assert_eq!(e.message(), "bad input: --id is required for this kind");
    assert_eq!(soma::cli::inspect::exit_code_for(&e), 1);
    let e = begin_inspect(&inspect_args("x", None), Ok(())).unwrap_err();
    assert!(e.message().starts_with("bad input: unknown kind `x` — accepted: episode/"));
    let e = begin_inspect(&inspect_args("episode", Some(3)), Err(failed("locked"))).unwrap_err();
    assert_eq!(soma::cli::inspect::exit_code_for(&e), 2);
    assert_eq!(soma::cli::inspect::exit_code_for(&InspectError::Path("x".into())), 3);
}

#[test]
fn inspect_tells_an_episode() {
    let text = run_inspect(
        &inspect_args("episode", Some(3)),
        InspectQuery::Episode(3),
        episode_read(None),
    )
    .unwrap();
    assert!(text.contains("\"salience\": 0.5"));
    assert!(text.contains("\"access_count\": 4"));
    assert!(text.contains("\"forgotten_at_ns\": null"));
    let mut args = inspect_args("episode", Some(3));
    args.format = "markdown".into();
    let text = run_inspect(&args, InspectQuery::Episode(3), episode_read(None)).unwrap();
    assert!(text.starts_with("# Inspect: episode\n\n```json\n{\n"));
    assert!(text.ends_with("\n}\n```\n"));
    args.format = "yaml".into();
    let e = run_inspect(&args, InspectQuery::Episode(3), episode_read(None)).unwrap_err();
    assert_eq!(e.message(), "bad input: unknown --format `yaml` — accepted: json / markdown");
}

#[test]
fn forgotten_episodes_are_told_on_demand() {
    let note = || Some(EpisodeNote { number: 9, text: Some("old".into()) });
    let mut args = inspect_args("episode", Some(3));
    let e = run_inspect(&args, InspectQuery::Episode(3), episode_read(note())).unwrap_err();
    assert_eq!(soma::cli::inspect::exit_code_for(&e), 4);
    args.include_forgotten = true;
    let text = run_inspect(&args, InspectQuery::Episode(3), episode_read(note())).unwrap();
    assert!(text.contains("\"forgotten_reason\": \"old\""));
}

#[test]
fn inspect_tells_pins_edges_and_the_rest() {
    let pin = |pinned| {
        run_inspect(
            &inspect_args("pin", Some(1)),
            InspectQuery::Pin(1),
            InspectRead::Pin(PinRead { pinned: Ok(pinned), all: Ok(vec![1, 2]) }),
        )
        .unwrap()
    };
    assert_eq!(pin(false), "{\n  \"episode_id\": 1,\n  \"pinned\": false\n}");
    assert!(pin(true).contains("all_pinned"));
    let edges = run_inspect(
        &inspect_args("edges", Some(1)),
        InspectQuery::Edges(1),
        InspectRead::Edges(Ok(vec![EdgeRow { episode_id: 2, similarity: Json::Float("0.75".into()) }])),
    )
    .unwrap();
    assert!(edges.contains("\"edge_count\": 1") && edges.contains("\"similarity\": 0.75"));
    let none = run_inspect(
        &inspect_args("narrative", None),
        InspectQuery::Narrative,
        InspectRead::Narrative(Ok(None)),
    )
    .unwrap();
    assert!(none.contains("\"kind\": \"rule\""));
    let some = run_inspect(
        &inspect_args("narrative", None),
        InspectQuery::Narrative,
        InspectRead::Narrative(Ok(Some(NarrativeRow {
            paragraph_md: "p".into(),
            synthesized_at_ns: 4,
            kind: "llm".into(),
        }))),
    )
    .unwrap();
    assert!(some.contains("\"kind\": \"llm\""));
    let centroid = run_inspect(
        &inspect_args("centroid", None),
        InspectQuery::Centroid,
        InspectRead::Centroid(Ok(Some(CentroidFacts {
            episode_count: 2,
            dim: 8,
            preview: vec![Json::Float("0.5".into())],
        }))),
    )
    .unwrap();
    assert!(centroid.contains("\"dim\": 8"));
    let vector = run_inspect(
        &inspect_args("vector", Some(5)),
        InspectQuery::Vector(5),
        InspectRead::Vector { model_id: "m".into(), vector: Ok(None) },
    );
    assert_eq!(vector.unwrap_err().message(), "not found: vector for episode #5");
    let vector = run_inspect(
        &inspect_args("vector", Some(5)),
        InspectQuery::Vector(5),
        InspectRead::Vector {
            model_id: "m".into(),
            vector: Ok(Some(VectorFacts {
                dim: 2,
                norm: Json::Float("1.5".into()),
                preview: vec![],
            })),
        },
    );
    assert!(vector.unwrap().contains("\"norm\": 1.5"));
    assert_eq!(find_row(&vec![4, 5, 5], 5), Some(1));
    assert_eq!(find_row(&vec![4], 5), None);
}

fn weights(dim: usize, len: usize, bad: bool) -> ProjectionWeights {
    ProjectionWeights {
        dim,
        num_heads: Some(2),
        train_steps: 1,
        saved_at_ns: 2,
        len_q: len,
        len_k: len,
        len_v: len,
        delta_q: Json::Null,
        delta_k: Json::Null,
        delta_v: Json::Null,
        any_non_finite: bad,
    }
}

#[test]
fn trained_weights_must_fit() {
    assert_eq!(derive_recall_active(&weights(4, 16, false), 4), "trained");
    assert_eq!(
        derive_recall_active(&weights(4, 16, false), 8),
        "frozen (dim mismatch with embedder)"
    );
    assert_eq!(derive_recall_active(&weights(4, 15, false), 4), "frozen (shape mismatch)");
    assert_eq!(derive_recall_active(&weights(4, 16, true), 4), "frozen (corrupt: NaN/Inf)");
    let text = run_inspect(
        &inspect_args("weights", None),
        InspectQuery::Weights,
        InspectRead::Weights(WeightsRead {
            primary_dim: 4,
            disposition: Json::Null,
            mlstm: Ok(None),
            hopfield: Ok(Some(weights(4, 16, false))),
            anil: Ok(None),
            pc_layers: Ok(vec![]),
        }),
    )
    .unwrap();
    assert!(text.contains("\"recall_active\": \"trained\""));
    assert!(text.contains("\"mlstm\": null"));
}
