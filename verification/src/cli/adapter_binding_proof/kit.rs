//! The proof kit: which evidence of a real app is at hand, and which proofs it allows.
use super::check::{
    checked_client, checked_source, find_manifest_path, manifest_path_of, resolve_client_for_check,
    resolve_expected_event_source_for_check,
};
use super::config::{
    add_if, app_hook_lacks, config_scan_json, observed_app_hook_missing_requirements, push_if,
    scan_installed_config, scanned_config,
};
use super::disk::{canonical_if_given, canonical_opt, file_at, seen_or, unseen_file, Disk, DiskView};
use super::events::{ahead, event_scan_json, scan_event_jsonl, scanned_events, shift, CLOCK_SKEW_NS};
use super::evidence::{
    action_lacks, action_scan_json, judge_render_evidence, judged, render_scan_json, report_valid,
    review_action_report_missing_requirements, scan_render_evidence, scan_review_action_report,
    scanned_action, scanned_render, validate_review_render,
};
use super::files::{fingerprinted, json_file, read_json_file, scan_file_fingerprint};
use super::flow::{real_app_commands, real_app_proof_commands, DEFAULT_EVENT_JSONL};
use super::places::{
    durable_client_artifact_path, durable_dir, file_in, is_private_client_target_config_path,
    is_target_path, private_client_target_installed_config_relpaths, target_relpaths, ANY_RUN,
};
use super::types::{
    fault_text, AdapterBindingProofArgs, AdapterBindingProofArgsView, AdapterBindingProofError,
    AdapterBindingRealAppProofKitOutcome, AdapterBindingRealAppProofKitOutcomeView, BindingFault,
    EventScan, EventScanView, FileFingerprintScan, FileFingerprintScanView, Host, HostView,
    InstalledConfigScan, InstalledConfigScanView, RealAppProofAcceptanceGate,
    RealAppProofAcceptanceGateView, RealAppProofArtifact, RealAppProofArtifactView,
    RealAppProofReadiness, RealAppProofReadinessView, RenderEvidenceScan, RenderEvidenceScanView,
    ReviewActionReportScan, ReviewActionReportScanView,
};
use crate::dup::Dup;
use crate::json::{Json, JsonView};
use crate::outcome::{borrow_value, borrowed, outcome, outcome_opt, value_in};
use crate::storage::{level_name, ClientBindingProofLevel};
use crate::text::{cat2, cat3, cat5, nil, none, same, table, table_texts, with, with_text};
use vstd::prelude::*;

verus! {

// ---------------------------------------------------------------------------
// Artifacts
// ---------------------------------------------------------------------------

/// An artifact that was read.
pub open spec fn found_artifact(
    kind: Seq<char>,
    path: Seq<char>,
    status: Seq<char>,
    scan: Option<JsonView>,
    lacks: Seq<Seq<char>>,
) -> RealAppProofArtifactView {
    RealAppProofArtifactView {
        kind,
        path,
        provided: true,
        status,
        scan,
        missing_requirements: lacks,
        error: None,
    }
}

fn found(
    kind: &str,
    path: &str,
    status: &str,
    scan: Option<Json>,
    lacks: Vec<&'static str>,
) -> (r: RealAppProofArtifact)
    ensures
        r.deep_view() == found_artifact(
            kind@,
            path@,
            status@,
            scan.deep_view(),
            lacks.deep_view(),
        ),
{
    RealAppProofArtifact {
        kind: kind.to_string(),
        path: path.to_string(),
        provided: true,
        status: status.to_string(),
        scan,
        missing_requirements: lacks,
        error: None,
    }
}

/// An artifact that could not be used.
pub open spec fn faulty_artifact(
    kind: Seq<char>,
    path: Seq<char>,
    status: Seq<char>,
    f: BindingFault,
) -> RealAppProofArtifactView {
    RealAppProofArtifactView {
        kind,
        path,
        provided: true,
        status,
        scan: None,
        missing_requirements: nil(),
        error: Some(fault_text(f)),
    }
}

fn faulty(kind: &str, path: &str, status: &str, e: &AdapterBindingProofError) -> (r:
    RealAppProofArtifact)
    ensures
        r.deep_view() == faulty_artifact(kind@, path@, status@, e.deep_view()),
{
    RealAppProofArtifact {
        kind: kind.to_string(),
        path: path.to_string(),
        provided: true,
        status: status.to_string(),
        scan: None,
        missing_requirements: none(),
        error: Some(e.message()),
    }
}

/// An artifact that was not named.
pub open spec fn absent_artifact(
    kind: Seq<char>,
    path: Seq<char>,
    status: Seq<char>,
    lack: Seq<char>,
) -> RealAppProofArtifactView {
    RealAppProofArtifactView {
        kind,
        path,
        provided: false,
        status,
        scan: None,
        missing_requirements: nil().push(lack),
        error: None,
    }
}

fn absent_one(kind: &str, path: &str, status: &str, lack: &'static str) -> (r: RealAppProofArtifact)
    ensures
        r.deep_view() == absent_artifact(kind@, path@, status@, lack@),
{
    RealAppProofArtifact {
        kind: kind.to_string(),
        path: path.to_string(),
        provided: false,
        status: status.to_string(),
        scan: None,
        missing_requirements: with(none(), lack),
        error: None,
    }
}

pub const NEEDED_FOR_HOOK: &'static str =
    "required before observed_app_hook proof can be recorded";

pub const NEEDED_FOR_RENDER: &'static str =
    "required before observed_in_client_render proof can be recorded";

pub const NEEDED_FOR_ACTION: &'static str =
    "required before observed_review_action proof can be recorded";

pub const UNKNOWN_HOOK_CONFIG: &'static str = "<client-hook-config>";

pub const TARGET_NOT_FOUND: &'static str = "private_client_target_config_not_discovered";

/// What is known of the installed configuration.
pub open spec fn config_artifact(
    path: Option<Seq<char>>,
    scan: Option<Result<InstalledConfigScanView, BindingFault>>,
) -> RealAppProofArtifactView {
    match (path, scan) {
        (Some(p), Some(Ok(s))) => found_artifact(
            "installed_config"@,
            p,
            if app_hook_lacks(s).len() == 0 {
                "eligible"@
            } else {
                "not_eligible"@
            },
            Some(config_scan_json(s)),
            app_hook_lacks(s),
        ),
        (Some(p), Some(Err(f))) => faulty_artifact("installed_config"@, p, "unreadable"@, f),
        _ => absent_artifact(
            "installed_config"@,
            UNKNOWN_HOOK_CONFIG@,
            "not_provided"@,
            NEEDED_FOR_HOOK@,
        ),
    }
}

pub fn real_app_installed_config_artifact(
    path: Option<&str>,
    scan: &Option<Result<InstalledConfigScan, AdapterBindingProofError>>,
) -> (r: RealAppProofArtifact)
    ensures
        r.deep_view() == config_artifact(path.deep_view(), outcome_opt(*scan)),
{
    match (path, scan) {
        (Some(p), Some(Ok(s))) => {
            let lacks = observed_app_hook_missing_requirements(s);
            assert(lacks.deep_view().len() == lacks.len());
            let status = if lacks.len() == 0 { "eligible" } else { "not_eligible" };
            found("installed_config", p, status, Some(s.to_json()), lacks)
        },
        (Some(p), Some(Err(e))) => faulty("installed_config", p, "unreadable", e),
        _ => absent_one("installed_config", UNKNOWN_HOOK_CONFIG, "not_provided", NEEDED_FOR_HOOK),
    }
}

/// Whether the configuration is one that the client reads.
pub open spec fn target_artifact(client: Seq<char>, path: Option<Seq<char>>) ->
    RealAppProofArtifactView {
    match path {
        Some(p) => if is_target_path(p, target_relpaths(client)) {
            found_artifact("private_client_target_config"@, p, "present"@, None, nil())
        } else {
            found_artifact(
                "private_client_target_config"@,
                p,
                "setup_artifact_only"@,
                None,
                nil().push(TARGET_NOT_FOUND@),
            )
        },
        None => absent_artifact(
            "private_client_target_config"@,
            ""@,
            "missing"@,
            TARGET_NOT_FOUND@,
        ),
    }
}

pub fn real_app_private_client_target_config_artifact(client: &str, path: Option<&str>) -> (r:
    RealAppProofArtifact)
    ensures
        r.deep_view() == target_artifact(client@, path.deep_view()),
{
    let relpaths = private_client_target_installed_config_relpaths(client);
    match path {
        Some(p) => if is_private_client_target_config_path(p, &relpaths) {
            found("private_client_target_config", p, "present", None, none())
        } else {
            found(
                "private_client_target_config",
                p,
                "setup_artifact_only",
                None,
                with(none(), TARGET_NOT_FOUND),
            )
        },
        None => absent_one("private_client_target_config", "", "missing", TARGET_NOT_FOUND),
    }
}

pub const NO_SOURCE_EVENT: &'static str =
    "event JSONL must include the expected private event_source";

pub const NO_NONCE_EVENT: &'static str =
    "event JSONL must include the installed config binding_nonce";

pub const NO_WRITER_EVENT: &'static str =
    "event JSONL must carry soma_adapter_spool_append_v1 writer metadata";

pub const NO_TIMED_EVENT: &'static str =
    "event JSONL must include observed_at_ns on the matching private event";

pub const OLD_EVENT: &'static str =
    "event JSONL matching private event observed_at_ns must be at or after installed config modified_at";

pub const OLD_EVENT_FILE: &'static str =
    "event JSONL file modified_at must be at or after installed config modified_at";

pub const UNDATED_CONFIG: &'static str =
    "installed config modified_at required before app-hook proof can be recorded";

/// A time, with what clocks may differ by, lies before another.
pub open spec fn lies_before(t: Option<i64>, changed: i64) -> bool {
    t matches Some(t) && ahead(t, CLOCK_SKEW_NS) < changed
}

fn too_old(t: Option<i64>, changed: i64) -> (r: bool)
    ensures
        r == lies_before(t, changed),
{
    match t {
        Some(t) => shift(t, CLOCK_SKEW_NS) < changed,
        None => false,
    }
}

/// What app-hook proof lacks of an event file.
pub open spec fn event_lacks(s: EventScanView, config: Option<InstalledConfigScanView>) -> Seq<
    Seq<char>,
> {
    let a = add_if(nil(), s.matching_private_event_sources == 0, NO_SOURCE_EVENT@);
    let b = add_if(
        a,
        s.expected_binding_nonce is Some && s.matching_private_binding_nonces == 0,
        NO_NONCE_EVENT@,
    );
    let c = add_if(b, s.matching_private_writer_contract_events == 0, NO_WRITER_EVENT@);
    let d = add_if(c, s.matching_private_events_with_observed_at == 0, NO_TIMED_EVENT@);
    match config {
        None => d,
        Some(config) => match config.modified_at_ns {
            None => add_if(d, true, UNDATED_CONFIG@),
            Some(changed) => add_if(
                add_if(
                    d,
                    lies_before(s.max_matching_private_observed_at_ns, changed),
                    OLD_EVENT@,
                ),
                lies_before(s.modified_at_ns, changed),
                OLD_EVENT_FILE@,
            ),
        },
    }
}

pub fn real_app_event_missing_requirements(
    scan: &EventScan,
    installed_config_scan: Option<&InstalledConfigScan>,
) -> (r: Vec<&'static str>)
    ensures
        r.deep_view() == event_lacks(scan.deep_view(), installed_config_scan.deep_view()),
{
    let list = push_if(none(), scan.matching_private_event_sources == 0, NO_SOURCE_EVENT);
    let list = push_if(
        list,
        scan.expected_binding_nonce.is_some() && scan.matching_private_binding_nonces == 0,
        NO_NONCE_EVENT,
    );
    let list = push_if(list, scan.matching_private_writer_contract_events == 0, NO_WRITER_EVENT);
    let list = push_if(list, scan.matching_private_events_with_observed_at == 0, NO_TIMED_EVENT);
    match installed_config_scan {
        None => list,
        Some(config) => match config.modified_at_ns {
            None => push_if(list, true, UNDATED_CONFIG),
            Some(changed) => push_if(
                push_if(
                    list,
                    too_old(scan.max_matching_private_observed_at_ns, changed),
                    OLD_EVENT,
                ),
                too_old(scan.modified_at_ns, changed),
                OLD_EVENT_FILE,
            ),
        },
    }
}

/// The event file holds an event of the client, whatever its age.
pub open spec fn has_private_event(s: EventScanView) -> bool {
    &&& s.matching_private_event_sources > 0
    &&& s.matching_private_writer_contract_events > 0
    &&& s.matching_private_binding_nonces > 0
    &&& s.matching_private_events_with_observed_at > 0
}

/// What is known of the event file.
pub open spec fn events_artifact(
    path: Option<Seq<char>>,
    scan: Option<Result<EventScanView, BindingFault>>,
    config: Option<InstalledConfigScanView>,
) -> RealAppProofArtifactView {
    match (path, scan) {
        (Some(p), Some(Ok(s))) => found_artifact(
            "event_jsonl"@,
            p,
            if event_lacks(s, config).len() == 0 {
                "matching_private_event"@
            } else if has_private_event(s) {
                "stale_private_event"@
            } else {
                "missing_private_event_requirements"@
            },
            Some(event_scan_json(s)),
            event_lacks(s, config),
        ),
        (Some(p), Some(Err(f))) => faulty_artifact("event_jsonl"@, p, "unreadable"@, f),
        _ => absent_artifact(
            "event_jsonl"@,
            DEFAULT_EVENT_JSONL@,
            "not_provided"@,
            NEEDED_FOR_HOOK@,
        ),
    }
}

pub fn real_app_event_jsonl_artifact(
    path: Option<&str>,
    scan: &Option<Result<EventScan, AdapterBindingProofError>>,
    installed_config_scan: Option<&InstalledConfigScan>,
) -> (r: RealAppProofArtifact)
    ensures
        r.deep_view() == events_artifact(
            path.deep_view(),
            outcome_opt(*scan),
            installed_config_scan.deep_view(),
        ),
{
    match (path, scan) {
        (Some(p), Some(Ok(s))) => {
            let lacks = real_app_event_missing_requirements(s, installed_config_scan);
            assert(lacks.deep_view().len() == lacks.len());
            let status = if lacks.len() == 0 {
                "matching_private_event"
            } else if s.matching_private_event_sources > 0
                && s.matching_private_writer_contract_events > 0
                && s.matching_private_binding_nonces > 0
                && s.matching_private_events_with_observed_at > 0 {
                "stale_private_event"
            } else {
                "missing_private_event_requirements"
            };
            found("event_jsonl", p, status, Some(s.to_json()), lacks)
        },
        (Some(p), Some(Err(e))) => faulty("event_jsonl", p, "unreadable", e),
        _ => absent_one("event_jsonl", DEFAULT_EVENT_JSONL, "not_provided", NEEDED_FOR_HOOK),
    }
}

/// Where a file of this name is kept for a client.
pub open spec fn kept_at(client: Seq<char>, name: Seq<char>, home: Option<Seq<char>>) -> Seq<char> {
    file_in(durable_dir(client, ANY_RUN@, home), name)
}

/// What is known of the review report.
pub open spec fn report_artifact(
    client: Seq<char>,
    path: Option<Seq<char>>,
    scan: Option<Result<JsonView, BindingFault>>,
    home: Option<Seq<char>>,
) -> RealAppProofArtifactView {
    match (path, scan) {
        (Some(p), Some(Ok(report))) => found_artifact(
            "review_render_report"@,
            p,
            "valid"@,
            Some(report),
            nil(),
        ),
        (Some(p), Some(Err(f))) => faulty_artifact("review_render_report"@, p, "invalid"@, f),
        _ => absent_artifact(
            "review_render_report"@,
            kept_at(client, "review-render.json"@, home),
            "not_provided"@,
            NEEDED_FOR_RENDER@,
        ),
    }
}

pub fn real_app_review_render_artifact(
    client: &str,
    path: Option<&str>,
    scan: &Option<Result<Json, AdapterBindingProofError>>,
    home: Option<&str>,
) -> (r: RealAppProofArtifact)
    ensures
        r.deep_view() == report_artifact(
            client@,
            path.deep_view(),
            outcome_opt(*scan),
            home.deep_view(),
        ),
{
    match (path, scan) {
        (Some(p), Some(Ok(report))) => found(
            "review_render_report",
            p,
            "valid",
            Some(report.dup()),
            none(),
        ),
        (Some(p), Some(Err(e))) => faulty("review_render_report", p, "invalid", e),
        _ => {
            let kept = durable_client_artifact_path(client, "review-render.json", home);
            absent_one("review_render_report", kept.as_str(), "not_provided", NEEDED_FOR_RENDER)
        },
    }
}

/// What is known of the render evidence, held against the review report.
pub open spec fn evidence_artifact(
    path: Option<Seq<char>>,
    scan: Option<Result<RenderEvidenceScanView, BindingFault>>,
    client: Seq<char>,
    report_file: Option<FileFingerprintScanView>,
    report: Option<JsonView>,
    home: Option<Seq<char>>,
) -> RealAppProofArtifactView {
    match (path, scan) {
        (Some(p), Some(Ok(s))) => {
            let j = judged(s, client, report_file, report);
            found_artifact(
                "render_evidence"@,
                p,
                if j.missing_requirements.len() == 0 {
                    "valid_structured"@
                } else {
                    "not_eligible"@
                },
                Some(render_scan_json(j)),
                j.missing_requirements,
            )
        },
        (Some(p), Some(Err(f))) => faulty_artifact("render_evidence"@, p, "unreadable"@, f),
        _ => absent_artifact(
            "render_evidence"@,
            kept_at(client, "render-evidence.json"@, home),
            "not_provided"@,
            NEEDED_FOR_RENDER@,
        ),
    }
}

pub fn real_app_render_evidence_artifact(
    path: Option<&str>,
    scan: &Option<Result<RenderEvidenceScan, AdapterBindingProofError>>,
    client: &str,
    review_render_file_scan: &Option<Result<FileFingerprintScan, AdapterBindingProofError>>,
    review_render_scan: &Option<Result<Json, AdapterBindingProofError>>,
    home: Option<&str>,
) -> (r: RealAppProofArtifact)
    ensures
        r.deep_view() == evidence_artifact(
            path.deep_view(),
            outcome_opt(*scan),
            client@,
            value_in(outcome_opt(*review_render_file_scan)),
            value_in(outcome_opt(*review_render_scan)),
            home.deep_view(),
        ),
{
    match (path, scan) {
        (Some(p), Some(Ok(s))) => {
            let mut s = s.dup();
            let lacks = judge_render_evidence(
                &mut s,
                client,
                borrow_value(review_render_file_scan),
                borrow_value(review_render_scan),
            );
            assert(lacks.deep_view().len() == lacks.len());
            let status = if lacks.len() == 0 { "valid_structured" } else { "not_eligible" };
            found("render_evidence", p, status, Some(s.to_json()), lacks)
        },
        (Some(p), Some(Err(e))) => faulty("render_evidence", p, "unreadable", e),
        _ => {
            let kept = durable_client_artifact_path(client, "render-evidence.json", home);
            absent_one("render_evidence", kept.as_str(), "not_provided", NEEDED_FOR_RENDER)
        },
    }
}

/// What is known of the report of a review action.
pub open spec fn action_artifact(
    client: Seq<char>,
    path: Option<Seq<char>>,
    scan: Option<Result<ReviewActionReportScanView, BindingFault>>,
    home: Option<Seq<char>>,
) -> RealAppProofArtifactView {
    match (path, scan) {
        (Some(p), Some(Ok(s))) => found_artifact(
            "review_action_report"@,
            p,
            if s.valid_storage_gated_review_action {
                "valid_storage_gated"@
            } else {
                "not_eligible"@
            },
            Some(action_scan_json(s)),
            action_lacks(s),
        ),
        (Some(p), Some(Err(f))) => faulty_artifact("review_action_report"@, p, "unreadable"@, f),
        _ => absent_artifact(
            "review_action_report"@,
            kept_at(client, "review-action.json"@, home),
            "not_provided"@,
            NEEDED_FOR_ACTION@,
        ),
    }
}

pub fn real_app_review_action_artifact(
    client: &str,
    path: Option<&str>,
    scan: &Option<Result<ReviewActionReportScan, AdapterBindingProofError>>,
    home: Option<&str>,
) -> (r: RealAppProofArtifact)
    ensures
        r.deep_view() == action_artifact(
            client@,
            path.deep_view(),
            outcome_opt(*scan),
            home.deep_view(),
        ),
{
    match (path, scan) {
        (Some(p), Some(Ok(s))) => {
            let status = if s.valid_storage_gated_review_action {
                "valid_storage_gated"
            } else {
                "not_eligible"
            };
            let lacks = review_action_report_missing_requirements(s);
            found("review_action_report", p, status, Some(s.to_json()), lacks)
        },
        (Some(p), Some(Err(e))) => faulty("review_action_report", p, "unreadable", e),
        _ => {
            let kept = durable_client_artifact_path(client, "review-action.json", home);
            absent_one("review_action_report", kept.as_str(), "not_provided", NEEDED_FOR_ACTION)
        },
    }
}

// ---------------------------------------------------------------------------
// Readiness
// ---------------------------------------------------------------------------

/// An artifact that a proof needs, and the status that it must have.
pub struct Need {
    pub kind: &'static str,
    pub status: &'static str,
}

impl DeepView for Need {
    type V = (Seq<char>, Seq<char>);

    open spec fn deep_view(&self) -> (Seq<char>, Seq<char>) {
        (self.kind@, self.status@)
    }
}

/// The artifact of a kind.
pub open spec fn artifact_of(artifacts: Seq<RealAppProofArtifactView>, kind: Seq<char>) -> Option<
    RealAppProofArtifactView,
>
    decreases artifacts.len(),
{
    if artifacts.len() == 0 {
        None
    } else if artifacts[0].kind == kind {
        Some(artifacts[0])
    } else {
        artifact_of(artifacts.skip(1), kind)
    }
}

pub fn find_artifact<'a>(artifacts: &'a Vec<RealAppProofArtifact>, kind: &str) -> (r: Option<
    &'a RealAppProofArtifact,
>)
    ensures
        r.deep_view() == artifact_of(artifacts.deep_view(), kind@),
{
    let ghost all = artifacts.deep_view();
    let mut i: usize = 0;
    assert(all.skip(0) =~= all);
    while i < artifacts.len()
        invariant
            i <= artifacts.len(),
            all == artifacts.deep_view(),
            artifact_of(all, kind@) == artifact_of(all.skip(i as int), kind@),
        decreases artifacts.len() - i,
    {
        assert(all.skip(i as int)[0] == artifacts[i as int].deep_view());
        if same(artifacts[i].kind.as_str(), kind) {
            return Some(&artifacts[i]);
        }
        assert(all.skip(i as int).skip(1) =~= all.skip(i + 1));
        i = i + 1;
    }
    None
}

/// Each text behind a kind.
pub open spec fn labelled(kind: Seq<char>, lacks: Seq<Seq<char>>) -> Seq<Seq<char>> {
    Seq::new(lacks.len(), |i: int| kind + ": "@ + lacks[i])
}

/// What is missing of one artifact.
pub open spec fn unmet(
    artifacts: Seq<RealAppProofArtifactView>,
    need: (Seq<char>, Seq<char>),
) -> Seq<Seq<char>> {
    match artifact_of(artifacts, need.0) {
        None => nil().push(need.0 + ": required artifact not present in proof kit"@),
        Some(a) => if a.status == need.1 {
            nil()
        } else {
            let lacks = if a.missing_requirements.len() == 0 {
                nil().push(
                    need.0 + (": expected status `"@ + need.1 + "`, got `"@ + a.status + "`"@),
                )
            } else {
                labelled(need.0, a.missing_requirements)
            };
            match a.error {
                Some(e) => lacks.push(need.0 + ": "@ + e),
                None => lacks,
            }
        },
    }
}

/// What is missing of all that a proof needs.
pub open spec fn all_unmet(
    artifacts: Seq<RealAppProofArtifactView>,
    needs: Seq<(Seq<char>, Seq<char>)>,
) -> Seq<Seq<char>>
    decreases needs.len(),
{
    if needs.len() == 0 {
        nil()
    } else {
        all_unmet(artifacts, needs.drop_last()) + unmet(artifacts, needs.last())
    }
}

fn push_unmet(list: Vec<String>, artifacts: &Vec<RealAppProofArtifact>, need: &Need) -> (r: Vec<
    String,
>)
    ensures
        r.deep_view() == list.deep_view() + unmet(artifacts.deep_view(), need.deep_view()),
{
    let ghost before = list.deep_view();
    let kind = need.kind;
    let mut list = list;
    match find_artifact(artifacts, kind) {
        None => {
            list = with(list, cat2(kind, ": required artifact not present in proof kit"));
        },
        Some(a) => if !same(a.status.as_str(), need.status) {
            let ghost av = a.deep_view();
            assert(av.missing_requirements.len() == a.missing_requirements.len());
            if a.missing_requirements.len() == 0 {
                let tail = cat5(
                    ": expected status `",
                    need.status,
                    "`, got `",
                    a.status.as_str(),
                    "`",
                );
                list = with(list, cat2(kind, tail.as_str()));
            } else {
                let mut k: usize = 0;
                assert(before + labelled(kind@, av.missing_requirements).take(0) =~= before);
                while k < a.missing_requirements.len()
                    invariant
                        k <= a.missing_requirements.len(),
                        av == a.deep_view(),
                        av.missing_requirements.len() == a.missing_requirements.len(),
                        list.deep_view() == before + labelled(kind@, av.missing_requirements).take(
                            k as int,
                        ),
                    decreases a.missing_requirements.len() - k,
                {
                    list = with(list, cat3(kind, ": ", a.missing_requirements[k]));
                    assert(av.missing_requirements[k as int] == a.missing_requirements[k as int]@);
                    assert((before + labelled(kind@, av.missing_requirements).take(k as int)).push(
                        labelled(kind@, av.missing_requirements)[k as int],
                    ) =~= before + labelled(kind@, av.missing_requirements).take(k + 1));
                    k = k + 1;
                }
                assert(labelled(kind@, av.missing_requirements).take(k as int) =~= labelled(
                    kind@,
                    av.missing_requirements,
                ));
            }
            match &a.error {
                Some(e) => {
                    list = with(list, cat3(kind, ": ", e.as_str()));
                },
                None => {},
            }
        },
    }
    assert(list.deep_view() =~= before + unmet(artifacts.deep_view(), need.deep_view()));
    list
}

/// The command records a proof of this level.
pub open spec fn names_level(command: Seq<Seq<char>>, level: ClientBindingProofLevel) -> bool {
    exists|i: int|
        0 <= i && i + 1 < command.len() && #[trigger] command[i] == "--proof-level"@ && command[i
            + 1] == level_name(level)
}

fn records_level(command: &Vec<String>, level: ClientBindingProofLevel) -> (r: bool)
    ensures
        r == names_level(command.deep_view(), level),
{
    if command.len() < 2 {
        assert(command.deep_view().len() == command.len());
        return false;
    }
    let mut i: usize = 0;
    while i < command.len() - 1
        invariant
            i <= command.len() - 1,
            command.deep_view().len() == command.len(),
            forall|j: int|
                0 <= j < i ==> !(#[trigger] command.deep_view()[j] == "--proof-level"@
                    && command.deep_view()[j + 1] == level_name(level)),
        decreases command.len() - i,
    {
        assert(command.deep_view()[i as int] == command[i as int]@);
        assert(command.deep_view()[i + 1] == command[i + 1]@);
        if same(command[i].as_str(), "--proof-level") && same(
            command[i + 1].as_str(),
            level.as_str(),
        ) {
            return true;
        }
        i = i + 1;
    }
    false
}

/// The first command that records a proof of this level.
pub open spec fn level_command(
    commands: Seq<Seq<Seq<char>>>,
    level: ClientBindingProofLevel,
) -> Option<Seq<Seq<char>>>
    decreases commands.len(),
{
    if commands.len() == 0 {
        None
    } else if names_level(commands[0], level) {
        Some(commands[0])
    } else {
        level_command(commands.skip(1), level)
    }
}

pub fn command_for_proof_level(
    commands: &Vec<Vec<String>>,
    proof_level: ClientBindingProofLevel,
) -> (r: Option<Vec<String>>)
    ensures
        r.deep_view() == level_command(commands.deep_view(), proof_level),
{
    let ghost all = commands.deep_view();
    let mut i: usize = 0;
    assert(all.skip(0) =~= all);
    while i < commands.len()
        invariant
            i <= commands.len(),
            all == commands.deep_view(),
            level_command(all, proof_level) == level_command(all.skip(i as int), proof_level),
        decreases commands.len() - i,
    {
        assert(all.skip(i as int)[0] == commands[i as int].deep_view());
        if records_level(&commands[i], proof_level) {
            return Some(commands[i].dup());
        }
        assert(all.skip(i as int).skip(1) =~= all.skip(i + 1));
        i = i + 1;
    }
    None
}

/// Whether a proof can be recorded with what is at hand.
pub open spec fn level_readiness(
    level: ClientBindingProofLevel,
    artifacts: Seq<RealAppProofArtifactView>,
    commands: Seq<Seq<Seq<char>>>,
    needs: Seq<(Seq<char>, Seq<char>)>,
    boundary: Seq<char>,
) -> RealAppProofReadinessView {
    let lacks = all_unmet(artifacts, needs);
    RealAppProofReadinessView {
        proof_level: level,
        status: if lacks.len() == 0 {
            "ready_to_attempt_record"@
        } else {
            "blocked_by_missing_or_invalid_artifacts"@
        },
        ready_to_attempt_record: lacks.len() == 0,
        required_artifacts: kinds_of(needs),
        missing_requirements: lacks,
        command: match level_command(commands, level) {
            Some(c) => c,
            None => nil(),
        },
        trust_boundary: boundary,
    }
}

pub open spec fn kinds_of(needs: Seq<(Seq<char>, Seq<char>)>) -> Seq<Seq<char>> {
    Seq::new(needs.len(), |i: int| needs[i].0)
}

pub fn readiness_for_proof_level(
    proof_level: ClientBindingProofLevel,
    artifacts: &Vec<RealAppProofArtifact>,
    commands: &Vec<Vec<String>>,
    requirements: &Vec<Need>,
    trust_boundary: &str,
) -> (r: RealAppProofReadiness)
    ensures
        r.deep_view() == level_readiness(
            proof_level,
            artifacts.deep_view(),
            commands.deep_view(),
            requirements.deep_view(),
            trust_boundary@,
        ),
{
    let ghost needs = requirements.deep_view();
    let mut lacks: Vec<String> = none();
    let mut kinds: Vec<String> = none();
    let mut i: usize = 0;
    while i < requirements.len()
        invariant
            i <= requirements.len(),
            needs == requirements.deep_view(),
            lacks.deep_view() == all_unmet(artifacts.deep_view(), needs.take(i as int)),
            kinds.deep_view() =~= kinds_of(needs).take(i as int),
        decreases requirements.len() - i,
    {
        assert(needs.take(i + 1).drop_last() =~= needs.take(i as int));
        assert(needs.take(i + 1).last() == requirements[i as int].deep_view());
        assert(needs[i as int] == requirements[i as int].deep_view());
        lacks = push_unmet(lacks, artifacts, &requirements[i]);
        kinds = with_text(kinds, requirements[i].kind);
        i = i + 1;
    }
    assert(needs.take(i as int) =~= needs);
    assert(kinds_of(needs).take(i as int) =~= kinds_of(needs));
    assert(lacks.deep_view().len() == lacks.len());
    let command = match command_for_proof_level(commands, proof_level) {
        Some(c) => c,
        None => none(),
    };
    let ready = lacks.len() == 0;
    let status = if ready {
        "ready_to_attempt_record"
    } else {
        "blocked_by_missing_or_invalid_artifacts"
    };
    RealAppProofReadiness {
        proof_level,
        status: status.to_string(),
        ready_to_attempt_record: ready,
        required_artifacts: kinds,
        missing_requirements: lacks,
        command,
        trust_boundary: trust_boundary.to_string(),
    }
}

pub const HOOK_RECORD_BOUNDARY: &'static str =
    "observed_app_hook_recording_requires_real_private_event_artifacts_and_operator_confirmation";

pub const RENDER_RECORD_BOUNDARY: &'static str =
    "observed_in_client_render_recording_requires_visible_client_render_artifacts_and_operator_confirmation";

pub const ACTION_RECORD_BOUNDARY: &'static str =
    "observed_review_action_recording_requires_storage_gated_review_action_artifact_and_operator_confirmation";

/// What app-hook proof needs.
pub open spec fn hook_needs(target_required: bool) -> Seq<(Seq<char>, Seq<char>)> {
    let a = Seq::empty().push(("installed_config"@, "eligible"@));
    let b = if target_required {
        a.push(("private_client_target_config"@, "present"@))
    } else {
        a
    };
    b.push(("event_jsonl"@, "matching_private_event"@))
}

pub open spec fn render_needs() -> Seq<(Seq<char>, Seq<char>)> {
    Seq::empty().push(("review_render_report"@, "valid"@)).push(
        ("render_evidence"@, "valid_structured"@),
    )
}

pub open spec fn action_needs() -> Seq<(Seq<char>, Seq<char>)> {
    Seq::empty().push(("installed_config"@, "eligible"@)).push(
        ("review_action_report"@, "valid_storage_gated"@),
    )
}

fn need(kind: &'static str, status: &'static str) -> (r: Need)
    ensures
        r.deep_view() == (kind@, status@),
{
    Need { kind, status }
}

/// Which proofs of a real app can be recorded.
pub open spec fn kit_readiness(
    artifacts: Seq<RealAppProofArtifactView>,
    commands: Seq<Seq<Seq<char>>>,
    target_required: bool,
) -> Seq<RealAppProofReadinessView> {
    Seq::empty().push(
        level_readiness(
            ClientBindingProofLevel::ObservedAppHook,
            artifacts,
            commands,
            hook_needs(target_required),
            HOOK_RECORD_BOUNDARY@,
        ),
    ).push(
        level_readiness(
            ClientBindingProofLevel::ObservedInClientRender,
            artifacts,
            commands,
            render_needs(),
            RENDER_RECORD_BOUNDARY@,
        ),
    ).push(
        level_readiness(
            ClientBindingProofLevel::ObservedReviewAction,
            artifacts,
            commands,
            action_needs(),
            ACTION_RECORD_BOUNDARY@,
        ),
    )
}

pub fn real_app_proof_readiness(
    artifacts: &Vec<RealAppProofArtifact>,
    commands: &Vec<Vec<String>>,
    require_private_target_config_for_app_hook: bool,
) -> (r: Vec<RealAppProofReadiness>)
    ensures
        r.deep_view() == kit_readiness(
            artifacts.deep_view(),
            commands.deep_view(),
            require_private_target_config_for_app_hook,
        ),
{
    let mut hook: Vec<Need> = with(none(), need("installed_config", "eligible"));
    if require_private_target_config_for_app_hook {
        hook = with(hook, need("private_client_target_config", "present"));
    }
    let hook = with(hook, need("event_jsonl", "matching_private_event"));
    let render = with(
        with(none(), need("review_render_report", "valid")),
        need("render_evidence", "valid_structured"),
    );
    let action = with(
        with(none(), need("installed_config", "eligible")),
        need("review_action_report", "valid_storage_gated"),
    );
    let a = readiness_for_proof_level(
        ClientBindingProofLevel::ObservedAppHook,
        artifacts,
        commands,
        &hook,
        HOOK_RECORD_BOUNDARY,
    );
    let b = readiness_for_proof_level(
        ClientBindingProofLevel::ObservedInClientRender,
        artifacts,
        commands,
        &render,
        RENDER_RECORD_BOUNDARY,
    );
    let c = readiness_for_proof_level(
        ClientBindingProofLevel::ObservedReviewAction,
        artifacts,
        commands,
        &action,
        ACTION_RECORD_BOUNDARY,
    );
    with(with(with(none(), a), b), c)
}

/// A proof can be recorded exactly when every artifact that it needs is there with the
/// status that it must have.
pub proof fn law_ready_iff_all_needs_met(
    artifacts: Seq<RealAppProofArtifactView>,
    needs: Seq<(Seq<char>, Seq<char>)>,
)
    ensures
        all_unmet(artifacts, needs).len() == 0 <==> forall|i: int|
            0 <= i < needs.len() ==> (artifact_of(artifacts, (#[trigger] needs[i]).0) matches Some(
                a)
                && a.status == needs[i].1),
    decreases needs.len(),
{
    if needs.len() > 0 {
        let front = needs.drop_last();
        law_ready_iff_all_needs_met(artifacts, front);
        let last = needs.last();
        assert(needs[needs.len() - 1] == last);
        let met = artifact_of(artifacts, last.0) matches Some(a) && a.status == last.1;
        assert(unmet(artifacts, last).len() == 0 <==> met);
        if all_unmet(artifacts, needs).len() == 0 {
            assert forall|i: int| 0 <= i < needs.len() implies (artifact_of(
                artifacts,
                (#[trigger] needs[i]).0,
            ) matches Some(a) && a.status == needs[i].1) by {
                if i < front.len() {
                    assert(front[i] == needs[i]);
                }
            }
        } else if unmet(artifacts, last).len() == 0 {
            let i = choose|i: int|
                0 <= i < front.len() && !(artifact_of(
                    artifacts, (#[trigger] front[i]).0) matches Some(
                    a,
                ) && a.status == front[i].1);
            assert(needs[i] == front[i]);
        }
    }
}

// ---------------------------------------------------------------------------
// The kit
// ---------------------------------------------------------------------------

pub const HOOK_ARTIFACTS: [&'static str; 3] = [
    "installed_config",
    "event_jsonl",
    "optional_drain_report",
];

pub const HOOK_CHECKS: [&'static str; 5] = [
    "installed config references lifecycle/spool wrapper, client, private event_source, and binding_nonce",
    "event JSONL includes matching private event_source",
    "event JSONL includes matching binding_nonce from installed config",
    "event JSONL carries soma_adapter_spool_append_v1 writer metadata",
    "event observed_at_ns is at or after installed config modified_at",
];

pub const TARGET_CHECK: &'static str =
    "automated proof-session readiness treats only a known private-client target config path as installed; setup artifacts can guide installation but cannot make app-hook proof ready";

pub const RENDER_ARTIFACTS: [&'static str; 2] = ["review_render_report", "render_evidence"];

pub const RENDER_CHECKS: [&'static str; 6] = [
    "review render report matches the target client",
    "render evidence uses soma.in_client_render_evidence.v1 and matches the target client",
    "render evidence review_render_fingerprint matches the supplied review render report",
    "render evidence echoes the review workbench and interaction contract versions from the supplied report",
    "render evidence rendered_control_ids cover the current review action control_ids from the supplied report",
    "artifact path, byte length, and stable fingerprint are stored only as evidence metadata",
];

pub const ACTION_ARTIFACTS: [&'static str; 2] = ["installed_config", "review_action_report"];

pub const ACTION_CHECKS: [&'static str; 5] = [
    "review action report was produced by soma_review_action or soma context review-action",
    "report carries control_binding_verified=true and a non-empty control_id",
    "report records at least one verification event with non-cloud evidence",
    "control_id was present globally and inside the visible action_buttons surface in a prior observed_in_client_render proof",
    "review action proof uses the same installed config fingerprint and binding_nonce as the linked render proof",
];

pub const UNPROVEN_UNTIL: [&'static str; 5] = [
    "the private app actually calls the configured wrapper",
    "observed_app_hook is recorded with matching installed-config and event evidence plus operator confirmation",
    "observed_in_client_render is recorded with a real app render artifact plus operator confirmation",
    "observed_review_action is recorded with a storage-gated review action report whose control_id matched prior render evidence",
    "artifact replay remains stable after storage; append-only event_jsonl growth must preserve the recorded prefix fingerprint",
];

pub const KIT_BOUNDARY: &'static str =
    "real_app_proof_kit_is_read_only: renders operator steps and optional local preflight scans only; it records no proof row, verifies no claim, promotes no cloud draft, applies no proposal, and does not prove private app invocation by itself";

/// What must hold before a proof of a real app is accepted.
pub open spec fn acceptance_gates(target_required: bool) -> Seq<RealAppProofAcceptanceGateView> {
    Seq::empty().push(
        RealAppProofAcceptanceGateView {
            proof_level: ClientBindingProofLevel::ObservedAppHook,
            requires_operator_confirmation: true,
            required_artifacts: table(HOOK_ARTIFACTS),
            required_checks: if target_required {
                table(HOOK_CHECKS).insert(1, TARGET_CHECK@)
            } else {
                table(HOOK_CHECKS)
            },
        },
    ).push(
        RealAppProofAcceptanceGateView {
            proof_level: ClientBindingProofLevel::ObservedInClientRender,
            requires_operator_confirmation: true,
            required_artifacts: table(RENDER_ARTIFACTS),
            required_checks: table(RENDER_CHECKS),
        },
    ).push(
        RealAppProofAcceptanceGateView {
            proof_level: ClientBindingProofLevel::ObservedReviewAction,
            requires_operator_confirmation: true,
            required_artifacts: table(ACTION_ARTIFACTS),
            required_checks: table(ACTION_CHECKS),
        },
    )
}

fn make_gates(target_required: bool) -> (r: Vec<RealAppProofAcceptanceGate>)
    ensures
        r.deep_view() == acceptance_gates(target_required),
{
    let mut checks = table_texts(&HOOK_CHECKS);
    if target_required {
        let ghost before = checks.deep_view();
        assert(before.len() == checks.len());
        checks.insert(1, TARGET_CHECK.to_string());
        assert(checks.deep_view() =~= before.insert(1, TARGET_CHECK@));
    }
    let hook = RealAppProofAcceptanceGate {
        proof_level: ClientBindingProofLevel::ObservedAppHook,
        requires_operator_confirmation: true,
        required_artifacts: table_texts(&HOOK_ARTIFACTS),
        required_checks: checks,
    };
    let render = RealAppProofAcceptanceGate {
        proof_level: ClientBindingProofLevel::ObservedInClientRender,
        requires_operator_confirmation: true,
        required_artifacts: table_texts(&RENDER_ARTIFACTS),
        required_checks: table_texts(&RENDER_CHECKS),
    };
    let action = RealAppProofAcceptanceGate {
        proof_level: ClientBindingProofLevel::ObservedReviewAction,
        requires_operator_confirmation: true,
        required_artifacts: table_texts(&ACTION_ARTIFACTS),
        required_checks: table_texts(&ACTION_CHECKS),
    };
    with(with(with(none(), hook), render), action)
}

/// The evidence files that the flags name, by their resolved paths.
pub struct KitPaths {
    pub config: Option<String>,
    pub events: Option<String>,
    pub report: Option<String>,
    pub evidence: Option<String>,
    pub action: Option<String>,
}

/// What a `KitPaths` holds.
#[verifier::ext_equal]
pub struct KitPathsView {
    pub config: Option<Seq<char>>,
    pub events: Option<Seq<char>>,
    pub report: Option<Seq<char>>,
    pub evidence: Option<Seq<char>>,
    pub action: Option<Seq<char>>,
}

impl DeepView for KitPaths {
    type V = KitPathsView;

    open spec fn deep_view(&self) -> KitPathsView {
        KitPathsView {
            config: self.config.deep_view(),
            events: self.events.deep_view(),
            report: self.report.deep_view(),
            evidence: self.evidence.deep_view(),
            action: self.action.deep_view(),
        }
    }
}

pub open spec fn kit_paths(args: AdapterBindingProofArgsView, disk: DiskView) -> KitPathsView {
    KitPathsView {
        config: canonical_opt(args.installed_config, disk),
        events: canonical_opt(args.event_jsonl, disk),
        report: canonical_opt(args.review_render_report, disk),
        evidence: canonical_opt(args.render_evidence, disk),
        action: canonical_opt(args.review_action_report, disk),
    }
}

fn find_kit_paths(args: &AdapterBindingProofArgs, disk: &Disk) -> (r: KitPaths)
    ensures
        r.deep_view() == kit_paths(args.deep_view(), disk.deep_view()),
{
    KitPaths {
        config: canonical_if_given(borrowed(&args.installed_config), disk),
        events: canonical_if_given(borrowed(&args.event_jsonl), disk),
        report: canonical_if_given(borrowed(&args.review_render_report), disk),
        evidence: canonical_if_given(borrowed(&args.render_evidence), disk),
        action: canonical_if_given(borrowed(&args.review_action_report), disk),
    }
}

pub const REPORT_LABEL: &'static str = "review render report";

/// What the configuration at a path refers to.
pub open spec fn config_scan_at(
    path: Option<Seq<char>>,
    client: Seq<char>,
    source: Seq<char>,
    disk: DiskView,
) -> Option<Result<InstalledConfigScanView, BindingFault>> {
    match path {
        Some(p) => Some(scanned_config(file_at(p, disk), client, Some(source))),
        None => None,
    }
}

fn scan_config_at(path: Option<&str>, client: &str, source: &str, disk: &Disk) -> (r: Option<
    Result<InstalledConfigScan, AdapterBindingProofError>,
>)
    ensures
        outcome_opt(r) == config_scan_at(path.deep_view(), client@, source@, disk.deep_view()),
{
    match path {
        Some(p) => {
            let other = unseen_file(p);
            Some(scan_installed_config(seen_or(disk, p, &other), client, Some(source)))
        },
        None => None,
    }
}

/// What the event file at a path holds.
pub open spec fn event_scan_at(
    path: Option<Seq<char>>,
    client: Seq<char>,
    source: Seq<char>,
    nonce: Option<Seq<char>>,
    disk: DiskView,
) -> Option<Result<EventScanView, BindingFault>> {
    match path {
        Some(p) => Some(scanned_events(file_at(p, disk), client, Some(source), nonce)),
        None => None,
    }
}

fn scan_events_at(
    path: Option<&str>,
    client: &str,
    source: &str,
    nonce: Option<&str>,
    disk: &Disk,
) -> (r: Option<Result<EventScan, AdapterBindingProofError>>)
    ensures
        outcome_opt(r) == event_scan_at(
            path.deep_view(),
            client@,
            source@,
            nonce.deep_view(),
            disk.deep_view(),
        ),
{
    match path {
        Some(p) => {
            let other = unseen_file(p);
            Some(scan_event_jsonl(seen_or(disk, p, &other), client, Some(source), nonce))
        },
        None => None,
    }
}

/// The length and fingerprint of the report at a path.
pub open spec fn report_file_at(path: Option<Seq<char>>, disk: DiskView) -> Option<
    Result<FileFingerprintScanView, BindingFault>,
> {
    match path {
        Some(p) => Some(fingerprinted(file_at(p, disk), REPORT_LABEL@)),
        None => None,
    }
}

fn scan_report_file_at(path: Option<&str>, disk: &Disk) -> (r: Option<
    Result<FileFingerprintScan, AdapterBindingProofError>,
>)
    ensures
        outcome_opt(r) == report_file_at(path.deep_view(), disk.deep_view()),
{
    match path {
        Some(p) => {
            let other = unseen_file(p);
            Some(scan_file_fingerprint(seen_or(disk, p, &other), REPORT_LABEL))
        },
        None => None,
    }
}

/// The report at a path, where it is one for the client.
pub open spec fn report_at(path: Option<Seq<char>>, client: Seq<char>, disk: DiskView) -> Option<
    Result<JsonView, BindingFault>,
> {
    match path {
        Some(p) => Some(
            match json_file(file_at(p, disk), REPORT_LABEL@) {
                Err(f) => Err(f),
                Ok(report) => match report_valid(Some(report), client) {
                    Err(f) => Err(f),
                    Ok(_) => Ok(report),
                },
            },
        ),
        None => None,
    }
}

fn read_report_at(path: Option<&str>, client: &str, disk: &Disk) -> (r: Option<
    Result<Json, AdapterBindingProofError>,
>)
    ensures
        outcome_opt(r) == report_at(path.deep_view(), client@, disk.deep_view()),
{
    match path {
        Some(p) => {
            let other = unseen_file(p);
            match read_json_file(seen_or(disk, p, &other), REPORT_LABEL) {
                Err(e) => Some(Err(e)),
                Ok(report) => match validate_review_render(Some(&report), client) {
                    Err(e) => Some(Err(e)),
                    Ok(_) => Some(Ok(report)),
                },
            }
        },
        None => None,
    }
}

/// The render evidence at a path.
pub open spec fn evidence_at(path: Option<Seq<char>>, disk: DiskView) -> Option<
    Result<RenderEvidenceScanView, BindingFault>,
> {
    match path {
        Some(p) => Some(scanned_render(file_at(p, disk))),
        None => None,
    }
}

fn scan_evidence_at(path: Option<&str>, disk: &Disk) -> (r: Option<
    Result<RenderEvidenceScan, AdapterBindingProofError>,
>)
    ensures
        outcome_opt(r) == evidence_at(path.deep_view(), disk.deep_view()),
{
    match path {
        Some(p) => {
            let other = unseen_file(p);
            Some(scan_render_evidence(seen_or(disk, p, &other)))
        },
        None => None,
    }
}

/// The report of a review action at a path.
pub open spec fn action_at(path: Option<Seq<char>>, disk: DiskView) -> Option<
    Result<ReviewActionReportScanView, BindingFault>,
> {
    match path {
        Some(p) => Some(scanned_action(file_at(p, disk))),
        None => None,
    }
}

fn scan_action_at(path: Option<&str>, disk: &Disk) -> (r: Option<
    Result<ReviewActionReportScan, AdapterBindingProofError>,
>)
    ensures
        outcome_opt(r) == action_at(path.deep_view(), disk.deep_view()),
{
    match path {
        Some(p) => {
            let other = unseen_file(p);
            Some(scan_review_action_report(seen_or(disk, p, &other)))
        },
        None => None,
    }
}

/// The nonce of a configuration that could be read.
pub open spec fn nonce_in(scan: Option<Result<InstalledConfigScanView, BindingFault>>) -> Option<
    Seq<char>,
> {
    match value_in(scan) {
        Some(s) => s.binding_nonce,
        None => None,
    }
}

/// What is known of each artifact. That of the target configuration stands behind the
/// installed one, where it is asked for.
pub open spec fn kit_artifacts(
    p: KitPathsView,
    client: Seq<char>,
    source: Seq<char>,
    target_required: bool,
    home: Option<Seq<char>>,
    disk: DiskView,
) -> Seq<RealAppProofArtifactView> {
    let config = config_scan_at(p.config, client, source, disk);
    let report = report_at(p.report, client, disk);
    let start = Seq::empty().push(config_artifact(p.config, config));
    let with_target = if target_required {
        start.push(target_artifact(client, p.config))
    } else {
        start
    };
    with_target.push(
        events_artifact(
            p.events,
            event_scan_at(p.events, client, source, nonce_in(config), disk),
            value_in(config),
        ),
    ).push(report_artifact(client, p.report, report, home)).push(
        evidence_artifact(
            p.evidence,
            evidence_at(p.evidence, disk),
            client,
            value_in(report_file_at(p.report, disk)),
            value_in(report),
            home,
        ),
    ).push(action_artifact(client, p.action, action_at(p.action, disk), home))
}

fn find_artifacts(
    p: &KitPaths,
    client: &str,
    source: &str,
    target_required: bool,
    home: Option<&str>,
    disk: &Disk,
) -> (r: Vec<RealAppProofArtifact>)
    ensures
        r.deep_view() == kit_artifacts(
            p.deep_view(),
            client@,
            source@,
            target_required,
            home.deep_view(),
            disk.deep_view(),
        ),
{
    let config = scan_config_at(borrowed(&p.config), client, source, disk);
    let nonce = match &config {
        Some(Ok(s)) => borrowed(&s.binding_nonce),
        _ => None,
    };
    let events = scan_events_at(borrowed(&p.events), client, source, nonce, disk);
    let report_file = scan_report_file_at(borrowed(&p.report), disk);
    let report = read_report_at(borrowed(&p.report), client, disk);
    let evidence = scan_evidence_at(borrowed(&p.evidence), disk);
    let action = scan_action_at(borrowed(&p.action), disk);
    let mut list: Vec<RealAppProofArtifact> = with(
        none(),
        real_app_installed_config_artifact(borrowed(&p.config), &config),
    );
    if target_required {
        list =
        with(
            list,
            real_app_private_client_target_config_artifact(client, borrowed(&p.config)),
        );
    }
    let list = with(
        list,
        real_app_event_jsonl_artifact(borrowed(&p.events), &events, borrow_value(&config)),
    );
    let list = with(
        list,
        real_app_review_render_artifact(client, borrowed(&p.report), &report, home),
    );
    let list = with(
        list,
        real_app_render_evidence_artifact(
            borrowed(&p.evidence),
            &evidence,
            client,
            &report_file,
            &report,
            home,
        ),
    );
    with(list, real_app_review_action_artifact(client, borrowed(&p.action), &action, home))
}

/// The proof kit for a client.
pub open spec fn kit_of(
    args: AdapterBindingProofArgsView,
    client: Seq<char>,
    source: Seq<char>,
    host: HostView,
    disk: DiskView,
) -> AdapterBindingRealAppProofKitOutcomeView {
    let manifest = manifest_path_of(args, client, disk);
    let p = kit_paths(args, disk);
    let target_required = args.require_private_target_config_for_app_hook;
    let artifacts = kit_artifacts(p, client, source, target_required, host.home, disk);
    let commands = real_app_commands(
        client,
        manifest,
        p.config,
        p.events,
        p.report,
        p.evidence,
        p.action,
        host,
    );
    AdapterBindingRealAppProofKitOutcomeView {
        client,
        manifest_path: manifest,
        expected_event_source: source,
        artifacts,
        proof_readiness: kit_readiness(artifacts, commands, target_required),
        commands,
        acceptance_gates: acceptance_gates(target_required),
        unproven_until: table(UNPROVEN_UNTIL),
        trust_boundary: KIT_BOUNDARY@,
    }
}

/// The proof kit that the flags ask for.
pub open spec fn proof_kit(
    args: AdapterBindingProofArgsView,
    host: HostView,
    disk: DiskView,
) -> Result<AdapterBindingRealAppProofKitOutcomeView, BindingFault> {
    match checked_client(args, disk) {
        Err(f) => Err(f),
        Ok(client) => match checked_source(args, client, disk) {
            Err(f) => Err(f),
            Ok(source) => Ok(kit_of(args, client, source, host, disk)),
        },
    }
}

/// What is at hand for proof of a real app, and what to do about the rest.
pub fn run_real_app_proof_kit_blocking(
    args: &AdapterBindingProofArgs,
    host: &Host,
    disk: &Disk,
) -> (r: Result<AdapterBindingRealAppProofKitOutcome, AdapterBindingProofError>)
    ensures
        outcome(r) == proof_kit(args.deep_view(), host.deep_view(), disk.deep_view()),
{
    let client = match resolve_client_for_check(args, disk) {
        Err(e) => return Err(e),
        Ok(c) => c,
    };
    let source = match resolve_expected_event_source_for_check(args, client.as_str(), disk) {
        Err(e) => return Err(e),
        Ok(s) => s,
    };
    let manifest = find_manifest_path(args, client.as_str(), disk);
    let p = find_kit_paths(args, disk);
    let target_required = args.require_private_target_config_for_app_hook;
    let artifacts = find_artifacts(
        &p,
        client.as_str(),
        source.as_str(),
        target_required,
        borrowed(&host.home),
        disk,
    );
    let commands = real_app_proof_commands(
        client.as_str(),
        borrowed(&manifest),
        borrowed(&p.config),
        borrowed(&p.events),
        borrowed(&p.report),
        borrowed(&p.evidence),
        borrowed(&p.action),
        host,
    );
    let proof_readiness = real_app_proof_readiness(&artifacts, &commands, target_required);
    Ok(
        AdapterBindingRealAppProofKitOutcome {
            client,
            manifest_path: manifest,
            expected_event_source: source,
            artifacts,
            proof_readiness,
            commands,
            acceptance_gates: make_gates(target_required),
            unproven_until: table_texts(&UNPROVEN_UNTIL),
            trust_boundary: KIT_BOUNDARY.to_string(),
        },
    )
}

}
