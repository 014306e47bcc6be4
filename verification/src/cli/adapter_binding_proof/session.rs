//! A proof session: how far each level of proof is, and the step that comes next.
use super::kit::{artifact_of, find_artifact};
use super::labels::{
    action_label, next_action, proof_session_operator_next_action_id,
    proof_session_operator_next_action_label, runbook_step_evidence_kind, runbook_step_proof_level,
    runbook_step_stage, step_evidence, step_level, step_stage,
};
use super::places::{
    allows_new_files, artifact_dir_write_status, artifact_dir_write_status_allows_new_files,
    client_binding_artifact_path_suggestions, default_client_binding_manifest, default_manifest,
    display_name, fallback_dir, path_suggestions, private_client_display_name, step_artifact_path,
    suggested_artifact_path_for_step, workspace_fallback_artifact_dir_for_client, write_status,
    DirSeen, NO_MANIFEST,
};
use super::readiness::{entry, find_entry};
use super::types::{
    ActionSafety, ActionSafetyView, AdapterBindingProofStatusOutcome,
    AdapterBindingProofStatusOutcomeView, AdapterBindingRealAppProofKitOutcome,
    AdapterBindingRealAppProofKitOutcomeView, ClientBindingArtifactFailure,
    ClientBindingArtifactFailureView, ClientBindingExternalOperatorAction,
    ClientBindingExternalOperatorActionView, ClientBindingMcpCallTemplate,
    ClientBindingMcpCallTemplateView, ClientBindingNonReleaseEvidenceSource,
    ClientBindingNonReleaseEvidenceSourceView, ClientBindingOperatorFlowStep,
    ClientBindingOperatorFlowStepView, ClientBindingProofArtifactPathSuggestion,
    ClientBindingProofArtifactPathSuggestionView, ClientBindingProofRunbookProgress,
    ClientBindingProofRunbookProgressView, ClientBindingProofRunbookStep,
    ClientBindingProofRunbookStepView, ClientBindingProofSession, ClientBindingProofSessionRunbook,
    ClientBindingProofSessionRunbookView, ClientBindingProofSessionStage,
    ClientBindingProofSessionStageView, ClientBindingProofSessionView, ClientBindingReadinessStatus,
    ClientBindingReadinessStatusView, ContinueDevdataCollectorProbe,
    ContinueDevdataCollectorProbeView, ExternalActionSafety, ExternalActionSafetyView, Host,
    HostView, RealAppProofReadiness, RealAppProofReadinessView,
};
use crate::cli::binary_identity::{operator_bin, resolved_soma_bin_for_operator_command};
use crate::dup::Dup;
use crate::outcome::{borrowed, copy_text, owned};
use crate::storage::{level_name, ClientBindingProofLevel};
use crate::text::{
    begins, cat2, cat3, listed, nil, none, same, starts_with, table, table_texts, with, Words,
};
use vstd::prelude::*;

verus! {

// ---------------------------------------------------------------------------
// Steps
// ---------------------------------------------------------------------------

/// The step with an id.
pub open spec fn step_named(flow: Seq<ClientBindingOperatorFlowStepView>, id: Seq<char>) -> Option<
    ClientBindingOperatorFlowStepView,
>
    decreases flow.len(),
{
    if flow.len() == 0 {
        None
    } else if flow[0].id == id {
        Some(flow[0])
    } else {
        step_named(flow.skip(1), id)
    }
}

pub fn find_step<'a>(flow: &'a Vec<ClientBindingOperatorFlowStep>, id: &str) -> (r: Option<
    &'a ClientBindingOperatorFlowStep,
>)
    ensures
        r.deep_view() == step_named(flow.deep_view(), id@),
{
    let ghost all = flow.deep_view();
    let mut i: usize = 0;
    assert(all.skip(0) =~= all);
    while i < flow.len()
        invariant
            i <= flow.len(),
            all == flow.deep_view(),
            step_named(all, id@) == step_named(all.skip(i as int), id@),
        decreases flow.len() - i,
    {
        assert(all.skip(i as int)[0] == flow[i as int].deep_view());
        if same(flow[i].id.as_str(), id) {
            return Some(&flow[i]);
        }
        assert(all.skip(i as int).skip(1) =~= all.skip(i + 1));
        i = i + 1;
    }
    None
}

/// The command of a step that may be missing.
pub open spec fn command_of(s: Option<ClientBindingOperatorFlowStepView>) -> Option<
    Seq<Seq<char>>,
> {
    match s {
        Some(s) => s.command,
        None => None,
    }
}

pub fn copy_command(s: Option<&ClientBindingOperatorFlowStep>) -> (r: Option<Vec<String>>)
    ensures
        r.deep_view() == command_of(s.deep_view()),
{
    match s {
        Some(s) => s.command.dup(),
        None => None,
    }
}

/// The tool call of a step that may be missing.
pub open spec fn call_of(s: Option<ClientBindingOperatorFlowStepView>) -> Option<
    ClientBindingMcpCallTemplateView,
> {
    match s {
        Some(s) => s.mcp_call,
        None => None,
    }
}

pub fn copy_call(s: Option<&ClientBindingOperatorFlowStep>) -> (r: Option<
    ClientBindingMcpCallTemplate,
>)
    ensures
        r.deep_view() == call_of(s.deep_view()),
{
    match s {
        Some(s) => s.mcp_call.dup(),
        None => None,
    }
}

// ---------------------------------------------------------------------------
// Actions outside
// ---------------------------------------------------------------------------

pub const HOOK_STEP: &'static str = "trigger_private_client_hook";

pub const HOOK_ACTION: &'static str =
    "trigger_real_private_client_hook_to_write_private_spool_event";

/// What the operator should know before an action.
pub open spec fn safety_of(known: Seq<ActionSafetyView>, action_id: Seq<char>) -> Option<
    ExternalActionSafetyView,
>
    decreases known.len(),
{
    if known.len() == 0 {
        None
    } else if known[0].action_id == action_id {
        Some(known[0].safety)
    } else {
        safety_of(known.skip(1), action_id)
    }
}

pub fn find_safety(known: &Vec<ActionSafety>, action_id: &str) -> (r: Option<ExternalActionSafety>)
    ensures
        r.deep_view() == safety_of(known.deep_view(), action_id@),
{
    let ghost all = known.deep_view();
    let mut i: usize = 0;
    assert(all.skip(0) =~= all);
    while i < known.len()
        invariant
            i <= known.len(),
            all == known.deep_view(),
            safety_of(all, action_id@) == safety_of(all.skip(i as int), action_id@),
        decreases known.len() - i,
    {
        assert(all.skip(i as int)[0] == known[i as int].deep_view());
        if same(known[i].action_id.as_str(), action_id) {
            return Some(known[i].safety.dup());
        }
        assert(all.skip(i as int).skip(1) =~= all.skip(i + 1));
        i = i + 1;
    }
    None
}

/// What the operator should know before a step.
pub open spec fn step_safety(step_id: Seq<char>, host: HostView) -> Option<
    ExternalActionSafetyView,
> {
    if step_id == HOOK_STEP@ {
        safety_of(host.safety, HOOK_ACTION@)
    } else {
        None
    }
}

pub fn runbook_step_external_action_safety(step_id: &str, host: &Host) -> (r: Option<
    ExternalActionSafety,
>)
    ensures
        r.deep_view() == step_safety(step_id@, host.deep_view()),
{
    if same(step_id, HOOK_STEP) {
        find_safety(&host.safety, HOOK_ACTION)
    } else {
        None
    }
}

pub const EXTERNAL_ACTION_SOURCE: &'static str =
    "soma_client_binding_proof_session.external_operator_action.v1";

pub const RUN_REAL_ACTION_END: &'static str =
    " chat/action from the installed private-client binding, using only the minimal hook-ping prompt unless the operator explicitly approves broader context.";

pub const FRESH_EVENT_END: &'static str =
    "` lifecycle event with the expected event_source, binding_nonce, writer metadata, and observed_at_ns must appear in the adapter JSONL before any observed_app_hook proof is recordable.";

pub const NO_TOOL_CALL_REASON: &'static str =
    "A real private-client hook cannot be substituted by an MCP call; MCP can only inspect readiness or record proof after independent private-client evidence exists.";

pub const EXTERNAL_ACTION_BOUNDARY: &'static str =
    "client_binding_external_operator_action_is_read_only: describes the required external private-client action and privacy boundary only; it executes no client action, submits no prompt, records no proof row, creates no verification event, applies no proposal, and promotes no cloud draft";

/// What the operator does in the private client, where the hook comes next.
pub open spec fn external_action(
    client: Seq<char>,
    action_id: Seq<char>,
    label: Seq<char>,
    step_id: Seq<char>,
    probe_command: Option<Seq<Seq<char>>>,
    host: HostView,
) -> Option<ClientBindingExternalOperatorActionView> {
    match safety_of(host.safety, action_id) {
        Some(safety) => if step_id == HOOK_STEP@ && action_id == HOOK_ACTION@ {
            Some(
                ClientBindingExternalOperatorActionView {
                    source: EXTERNAL_ACTION_SOURCE@,
                    client,
                    action_id,
                    action_label: label,
                    proof_session_step_id: step_id,
                    action_kind: "real_private_client_action"@,
                    required_operator_action: "Run one real "@ + display_name(client)
                        + RUN_REAL_ACTION_END@,
                    requires_operator_confirmation_before_submission:
                        safety.requires_operator_confirmation_before_submission,
                    may_transmit_prompt_to_provider: safety.may_transmit_prompt_to_provider,
                    suggested_minimal_test_prompt: safety.suggested_minimal_test_prompt,
                    forbidden_inputs: safety.forbidden_inputs,
                    readiness_probe_command: probe_command,
                    records_proof: false,
                    creates_verification_event: false,
                    promotes_cloud_draft: false,
                    proof_after_success_step_id: "record_observed_app_hook"@,
                    required_observation: "A fresh private `"@ + client + FRESH_EVENT_END@,
                    why_next_mcp_call_is_null: NO_TOOL_CALL_REASON@,
                    trust_boundary: EXTERNAL_ACTION_BOUNDARY@,
                },
            )
        } else {
            None
        },
        None => None,
    }
}

pub fn client_binding_external_operator_action(
    client: &str,
    action_id: &str,
    action_label: &str,
    proof_session_step_id: &str,
    readiness_probe_command: &Option<Vec<String>>,
    host: &Host,
) -> (r: Option<ClientBindingExternalOperatorAction>)
    ensures
        r.deep_view() == external_action(
            client@,
            action_id@,
            action_label@,
            proof_session_step_id@,
            readiness_probe_command.deep_view(),
            host.deep_view(),
        ),
{
    if !same(proof_session_step_id, HOOK_STEP) || !same(action_id, HOOK_ACTION) {
        return None;
    }
    let safety = match find_safety(&host.safety, action_id) {
        Some(s) => s,
        None => return None,
    };
    let name = private_client_display_name(client);
    Some(
        ClientBindingExternalOperatorAction {
            source: EXTERNAL_ACTION_SOURCE,
            client: client.to_string(),
            action_id: action_id.to_string(),
            action_label: action_label.to_string(),
            proof_session_step_id: proof_session_step_id.to_string(),
            action_kind: "real_private_client_action".to_string(),
            required_operator_action: cat3("Run one real ", name.as_str(), RUN_REAL_ACTION_END),
            requires_operator_confirmation_before_submission:
                safety.requires_operator_confirmation_before_submission,
            may_transmit_prompt_to_provider: safety.may_transmit_prompt_to_provider,
            suggested_minimal_test_prompt: safety.suggested_minimal_test_prompt,
            forbidden_inputs: safety.forbidden_inputs,
            readiness_probe_command: readiness_probe_command.dup(),
            records_proof: false,
            creates_verification_event: false,
            promotes_cloud_draft: false,
            proof_after_success_step_id: "record_observed_app_hook".to_string(),
            required_observation: cat3("A fresh private `", client, FRESH_EVENT_END),
            why_next_mcp_call_is_null: NO_TOOL_CALL_REASON.to_string(),
            trust_boundary: EXTERNAL_ACTION_BOUNDARY.to_string(),
        },
    )
}

// ---------------------------------------------------------------------------
// Stages
// ---------------------------------------------------------------------------

/// The status of one client.
pub open spec fn status_of_client(
    clients: Seq<ClientBindingReadinessStatusView>,
    client: Seq<char>,
) -> Option<ClientBindingReadinessStatusView>
    decreases clients.len(),
{
    if clients.len() == 0 {
        None
    } else if clients[0].client == client {
        Some(clients[0])
    } else {
        status_of_client(clients.skip(1), client)
    }
}

pub fn find_client_status<'a>(
    clients: &'a Vec<ClientBindingReadinessStatus>,
    client: &str,
) -> (r: Option<&'a ClientBindingReadinessStatus>)
    ensures
        r.deep_view() == status_of_client(clients.deep_view(), client@),
{
    let ghost all = clients.deep_view();
    let mut i: usize = 0;
    assert(all.skip(0) =~= all);
    while i < clients.len()
        invariant
            i <= clients.len(),
            all == clients.deep_view(),
            status_of_client(all, client@) == status_of_client(all.skip(i as int), client@),
        decreases clients.len() - i,
    {
        assert(all.skip(i as int)[0] == clients[i as int].deep_view());
        if same(clients[i].client.as_str(), client) {
            return Some(&clients[i]);
        }
        assert(all.skip(i as int).skip(1) =~= all.skip(i + 1));
        i = i + 1;
    }
    None
}

/// Whether a proof of a level can be recorded.
pub open spec fn readiness_of(
    list: Seq<RealAppProofReadinessView>,
    level: ClientBindingProofLevel,
) -> Option<RealAppProofReadinessView>
    decreases list.len(),
{
    if list.len() == 0 {
        None
    } else if list[0].proof_level == level {
        Some(list[0])
    } else {
        readiness_of(list.skip(1), level)
    }
}

fn find_readiness<'a>(
    list: &'a Vec<RealAppProofReadiness>,
    level: ClientBindingProofLevel,
) -> (r: Option<&'a RealAppProofReadiness>)
    ensures
        r.deep_view() == readiness_of(list.deep_view(), level),
{
    let ghost all = list.deep_view();
    let mut i: usize = 0;
    assert(all.skip(0) =~= all);
    while i < list.len()
        invariant
            i <= list.len(),
            all == list.deep_view(),
            readiness_of(all, level) == readiness_of(all.skip(i as int), level),
        decreases list.len() - i,
    {
        assert(all.skip(i as int)[0] == list[i as int].deep_view());
        if list[i].proof_level == level {
            return Some(&list[i]);
        }
        assert(all.skip(i as int).skip(1) =~= all.skip(i + 1));
        i = i + 1;
    }
    None
}

/// An evidence file of this level is no longer what it was.
pub open spec fn level_failed(
    failures: Seq<ClientBindingArtifactFailureView>,
    level: ClientBindingProofLevel,
) -> bool {
    exists|i: int| 0 <= i < failures.len() && (#[trigger] failures[i]).proof_level == level
}

fn any_failed(
    failures: &Vec<ClientBindingArtifactFailure>,
    level: ClientBindingProofLevel,
) -> (r: bool)
    ensures
        r == level_failed(failures.deep_view(), level),
{
    let mut i: usize = 0;
    while i < failures.len()
        invariant
            i <= failures.len(),
            forall|j: int|
                0 <= j < i ==> (#[trigger] failures.deep_view()[j]).proof_level != level,
        decreases failures.len() - i,
    {
        assert(failures.deep_view()[i as int] == failures[i as int].deep_view());
        if failures[i].proof_level == level {
            return true;
        }
        i = i + 1;
    }
    false
}

/// Why the evidence of this level does not count for a release.
pub open spec fn source_reason(
    list: Seq<ClientBindingNonReleaseEvidenceSourceView>,
    level: ClientBindingProofLevel,
) -> Option<Seq<char>>
    decreases list.len(),
{
    if list.len() == 0 {
        None
    } else if list[0].proof_level == level {
        Some(list[0].reason)
    } else {
        source_reason(list.skip(1), level)
    }
}

fn find_source_reason(
    list: &Vec<ClientBindingNonReleaseEvidenceSource>,
    level: ClientBindingProofLevel,
) -> (r: Option<String>)
    ensures
        r.deep_view() == source_reason(list.deep_view(), level),
{
    let ghost all = list.deep_view();
    let mut i: usize = 0;
    assert(all.skip(0) =~= all);
    while i < list.len()
        invariant
            i <= list.len(),
            all == list.deep_view(),
            source_reason(all, level) == source_reason(all.skip(i as int), level),
        decreases list.len() - i,
    {
        assert(all.skip(i as int)[0] == list[i as int].deep_view());
        if list[i].proof_level == level {
            return Some(list[i].reason.clone());
        }
        assert(all.skip(i as int).skip(1) =~= all.skip(i + 1));
        i = i + 1;
    }
    None
}

/// The incoherence counts against this level.
pub open spec fn concerns_level(failure: Seq<char>, level: ClientBindingProofLevel) -> bool {
    match level {
        ClientBindingProofLevel::ObservedInClientRender => !starts_with(
            failure,
            "review_action_"@,
        ),
        ClientBindingProofLevel::ObservedReviewAction => starts_with(failure, "review_action_"@),
        _ => false,
    }
}

/// The incoherences that count against this level.
pub open spec fn level_incoherences(
    failures: Seq<Seq<char>>,
    level: ClientBindingProofLevel,
) -> Seq<Seq<char>>
    decreases failures.len(),
{
    if failures.len() == 0 {
        nil()
    } else {
        let front = level_incoherences(failures.drop_last(), level);
        if concerns_level(failures.last(), level) {
            front.push(failures.last())
        } else {
            front
        }
    }
}

pub fn stage_coherence_failures(
    proof_level: ClientBindingProofLevel,
    failures: &Vec<String>,
) -> (r: Vec<String>)
    ensures
        r.deep_view() == level_incoherences(failures.deep_view(), proof_level),
{
    let ghost all = failures.deep_view();
    let mut out: Vec<String> = none();
    let mut i: usize = 0;
    while i < failures.len()
        invariant
            i <= failures.len(),
            all == failures.deep_view(),
            out.deep_view() == level_incoherences(all.take(i as int), proof_level),
        decreases failures.len() - i,
    {
        assert(all.take(i + 1).drop_last() =~= all.take(i as int));
        assert(all.take(i + 1).last() == failures[i as int]@);
        let of_action = begins(failures[i].as_str(), "review_action_");
        let concerns = match proof_level {
            ClientBindingProofLevel::ObservedInClientRender => !of_action,
            ClientBindingProofLevel::ObservedReviewAction => of_action,
            _ => false,
        };
        if concerns {
            out = with(out, failures[i].clone());
        }
        i = i + 1;
    }
    assert(all.take(i as int) =~= all);
    out
}

/// What the ledger says of a level.
pub open spec fn ledger_status(
    level: ClientBindingProofLevel,
    status: Option<ClientBindingReadinessStatusView>,
) -> Seq<char> {
    match status {
        Some(s) => match entry(s.latest_by_level, level) {
            Some(latest) => if level_failed(s.artifact_failures, level)
                || !latest.all_artifacts_verified {
                "stored_but_artifact_integrity_failed"@
            } else if level_incoherences(s.coherence_failures, level).len() > 0 {
                "stored_but_identity_mismatch"@
            } else if source_reason(s.non_release_evidence_sources, level) is Some {
                "stored_but_non_release_evidence_source"@
            } else {
                "stored_verified"@
            },
            None => "missing"@,
        },
        None => "missing"@,
    }
}

/// What stands in the way of a level.
pub open spec fn stage_reasons(
    level: ClientBindingProofLevel,
    status: Option<ClientBindingReadinessStatusView>,
    ready: Option<RealAppProofReadinessView>,
) -> Seq<Seq<char>> {
    let key = level_name(level);
    let reasons = match ready {
        Some(r) => r.missing_requirements,
        None => nil().push(
            key + ": no proof readiness verdict was available in proof kit"@,
        ),
    };
    match status {
        Some(s) => match entry(s.latest_by_level, level) {
            Some(latest) => if level_failed(s.artifact_failures, level)
                || !latest.all_artifacts_verified {
                reasons.push(key + ": stored proof artifact replay failed"@)
            } else if level_incoherences(s.coherence_failures, level).len() > 0 {
                reasons + level_incoherences(s.coherence_failures, level)
            } else {
                match source_reason(s.non_release_evidence_sources, level) {
                    Some(reason) => reasons.push(key + ": "@ + reason),
                    None => nil(),
                }
            },
            None => reasons,
        },
        None => reasons,
    }
}

/// A level can be recorded with what is at hand.
pub open spec fn recordable(
    ledger: Seq<char>,
    ready: Option<RealAppProofReadinessView>,
) -> bool {
    (ledger == "missing"@ || ledger == "stored_but_artifact_integrity_failed"@ || ledger
        == "stored_but_identity_mismatch"@) && (ready matches Some(r) && r.ready_to_attempt_record)
}

/// The step that records a level.
pub open spec fn record_step(level: ClientBindingProofLevel) -> Option<Seq<char>> {
    match level {
        ClientBindingProofLevel::ObservedAppHook => Some("record_observed_app_hook"@),
        ClientBindingProofLevel::ObservedInClientRender => Some(
            "record_observed_in_client_render"@,
        ),
        ClientBindingProofLevel::ObservedReviewAction => Some("record_observed_review_action"@),
        _ => None,
    }
}

/// The tool call that records a level.
pub open spec fn stage_call(
    level: ClientBindingProofLevel,
    flow: Seq<ClientBindingOperatorFlowStepView>,
) -> Option<ClientBindingMcpCallTemplateView> {
    match record_step(level) {
        Some(id) => call_of(step_named(flow, id)),
        None => None,
    }
}

pub fn proof_session_stage_mcp_call(
    proof_level: ClientBindingProofLevel,
    operator_flow: &Vec<ClientBindingOperatorFlowStep>,
) -> (r: Option<ClientBindingMcpCallTemplate>)
    ensures
        r.deep_view() == stage_call(proof_level, operator_flow.deep_view()),
{
    let id = match proof_level {
        ClientBindingProofLevel::ObservedAppHook => "record_observed_app_hook",
        ClientBindingProofLevel::ObservedInClientRender => "record_observed_in_client_render",
        ClientBindingProofLevel::ObservedReviewAction => "record_observed_review_action",
        _ => return None,
    };
    copy_call(find_step(operator_flow, id))
}

pub const HOOK_STAGE_BOUNDARY: &'static str =
    "observed_app_hook_stage_requires_real_private_event_evidence_and_operator_confirmation";

pub const RENDER_STAGE_BOUNDARY: &'static str =
    "observed_in_client_render_stage_is_ui_only_and_never_verifies_promotes_applies_or_acknowledges";

pub const ACTION_STAGE_BOUNDARY: &'static str =
    "observed_review_action_stage_requires_rendered_control_id_storage_gated_report_non_cloud_verification_and_operator_confirmation";

pub const SETUP_STAGE_BOUNDARY: &'static str =
    "setup_stage_does_not_prove_private_client_operator_loop";

/// How far a stage may be trusted.
pub open spec fn stage_boundary(level: ClientBindingProofLevel) -> Seq<char> {
    match level {
        ClientBindingProofLevel::ObservedAppHook => HOOK_STAGE_BOUNDARY@,
        ClientBindingProofLevel::ObservedInClientRender => RENDER_STAGE_BOUNDARY@,
        ClientBindingProofLevel::ObservedReviewAction => ACTION_STAGE_BOUNDARY@,
        _ => SETUP_STAGE_BOUNDARY@,
    }
}

pub fn proof_session_stage_trust_boundary(proof_level: ClientBindingProofLevel) -> (r: &'static str)
    ensures
        r@ == stage_boundary(proof_level),
{
    match proof_level {
        ClientBindingProofLevel::ObservedAppHook => HOOK_STAGE_BOUNDARY,
        ClientBindingProofLevel::ObservedInClientRender => RENDER_STAGE_BOUNDARY,
        ClientBindingProofLevel::ObservedReviewAction => ACTION_STAGE_BOUNDARY,
        _ => SETUP_STAGE_BOUNDARY,
    }
}

/// The command that records a level.
pub open spec fn stage_command(
    level: ClientBindingProofLevel,
    recordable_now: bool,
    ready: Option<RealAppProofReadinessView>,
    flow: Seq<ClientBindingOperatorFlowStepView>,
) -> Option<Seq<Seq<char>>> {
    let usual = match ready {
        Some(r) => if r.command.len() > 0 {
            Some(r.command)
        } else {
            None
        },
        None => None,
    };
    if level == ClientBindingProofLevel::ObservedAppHook && recordable_now {
        match command_of(step_named(flow, "record_observed_app_hook"@)) {
            Some(c) => Some(c),
            None => usual,
        }
    } else {
        usual
    }
}

/// How far a level is.
pub open spec fn stage_of(
    level: ClientBindingProofLevel,
    status: Option<ClientBindingReadinessStatusView>,
    kit: AdapterBindingRealAppProofKitOutcomeView,
    flow: Seq<ClientBindingOperatorFlowStepView>,
) -> ClientBindingProofSessionStageView {
    let ready = readiness_of(kit.proof_readiness, level);
    let ledger = ledger_status(level, status);
    ClientBindingProofSessionStageView {
        proof_level: level,
        ledger_status: ledger,
        artifact_status: match ready {
            Some(r) => Some(r.status),
            None => None,
        },
        ready_to_record_now: recordable(ledger, ready),
        blocking_reasons: stage_reasons(level, status, ready),
        command: stage_command(level, recordable(ledger, ready), ready, flow),
        mcp_call: stage_call(level, flow),
        trust_boundary: stage_boundary(level),
    }
}

fn usual_command(ready: Option<&RealAppProofReadiness>) -> (r: Option<Vec<String>>)
    ensures
        r.deep_view() == match ready.deep_view() {
            Some(r) => if r.command.len() > 0 {
                Some(r.command)
            } else {
                None
            },
            None => None,
        },
{
    match ready {
        Some(r) => {
            assert(r.command.deep_view().len() == r.command.len());
            if r.command.len() > 0 {
                Some(r.command.dup())
            } else {
                None
            }
        },
        None => None,
    }
}

/// The ledger's word on a level, and what stands in its way.
fn judge_stage(
    level: ClientBindingProofLevel,
    status: Option<&ClientBindingReadinessStatus>,
    ready: Option<&RealAppProofReadiness>,
) -> (r: (&'static str, Vec<String>))
    ensures
        r.0@ == ledger_status(level, status.deep_view()),
        r.1.deep_view() == stage_reasons(level, status.deep_view(), ready.deep_view()),
{
    let key = level.as_str();
    let reasons: Vec<String> = match ready {
        Some(r) => r.missing_requirements.dup(),
        None => with(
            none(),
            cat2(key, ": no proof readiness verdict was available in proof kit"),
        ),
    };
    let s = match status {
        Some(s) => s,
        None => return ("missing", reasons),
    };
    let latest = match find_entry(&s.latest_by_level, level) {
        Some(l) => l,
        None => return ("missing", reasons),
    };
    if any_failed(&s.artifact_failures, level) || !latest.all_artifacts_verified {
        return (
            "stored_but_artifact_integrity_failed",
            with(reasons, cat2(key, ": stored proof artifact replay failed")),
        );
    }
    let incoherent = stage_coherence_failures(level, &s.coherence_failures);
    assert(incoherent.deep_view().len() == incoherent.len());
    if incoherent.len() > 0 {
        let all = Words::starting(reasons).more(&incoherent).done();
        return ("stored_but_identity_mismatch", all);
    }
    match find_source_reason(&s.non_release_evidence_sources, level) {
        Some(reason) => (
            "stored_but_non_release_evidence_source",
            with(reasons, cat3(key, ": ", reason.as_str())),
        ),
        None => ("stored_verified", none()),
    }
}

pub fn proof_session_stage(
    proof_level: ClientBindingProofLevel,
    client_status: Option<&ClientBindingReadinessStatus>,
    proof_kit: &AdapterBindingRealAppProofKitOutcome,
    operator_flow: &Vec<ClientBindingOperatorFlowStep>,
) -> (r: ClientBindingProofSessionStage)
    ensures
        r.deep_view() == stage_of(
            proof_level,
            client_status.deep_view(),
            proof_kit.deep_view(),
            operator_flow.deep_view(),
        ),
{
    let ready = find_readiness(&proof_kit.proof_readiness, proof_level);
    let (ledger, blocking_reasons) = judge_stage(proof_level, client_status, ready);
    let attempt = match ready {
        Some(r) => r.ready_to_attempt_record,
        None => false,
    };
    let recordable_now = (same(ledger, "missing") || same(
        ledger,
        "stored_but_artifact_integrity_failed",
    ) || same(ledger, "stored_but_identity_mismatch")) && attempt;
    let mut command = usual_command(ready);
    if recordable_now {
        match proof_level {
            ClientBindingProofLevel::ObservedAppHook => {
                match copy_command(find_step(operator_flow, "record_observed_app_hook")) {
                    Some(c) => {
                        command = Some(c);
                    },
                    None => {},
                }
            },
            _ => {},
        }
    }
    let artifact_status = match ready {
        Some(r) => Some(r.status.clone()),
        None => None,
    };
    ClientBindingProofSessionStage {
        proof_level,
        ledger_status: ledger.to_string(),
        artifact_status,
        ready_to_record_now: recordable_now,
        blocking_reasons,
        command,
        mcp_call: proof_session_stage_mcp_call(proof_level, operator_flow),
        trust_boundary: proof_session_stage_trust_boundary(proof_level).to_string(),
    }
}

// ---------------------------------------------------------------------------
// The next step
// ---------------------------------------------------------------------------

/// The kit has an artifact of this kind with this status.
pub open spec fn kit_has(
    kit: AdapterBindingRealAppProofKitOutcomeView,
    kind: Seq<char>,
    status: Seq<char>,
) -> bool {
    artifact_of(kit.artifacts, kind) matches Some(a) && a.status == status
}

pub fn proof_kit_artifact_has_status(
    proof_kit: &AdapterBindingRealAppProofKitOutcome,
    kind: &str,
    status: &str,
) -> (r: bool)
    ensures
        r == kit_has(proof_kit.deep_view(), kind@, status@),
{
    match find_artifact(&proof_kit.artifacts, kind) {
        Some(a) => same(a.status.as_str(), status),
        None => false,
    }
}

/// What comes next for app-hook proof.
pub open spec fn next_hook_step(kit: AdapterBindingRealAppProofKitOutcomeView) -> Seq<char> {
    match artifact_of(kit.artifacts, "installed_config"@) {
        Some(a) => if a.status == "eligible"@ {
            HOOK_STEP@
        } else if a.provided {
            "check_installed_config"@
        } else {
            "render_or_write_installed_config"@
        },
        None => "render_or_write_installed_config"@,
    }
}

pub fn proof_session_next_app_hook_step_id(
    proof_kit: &AdapterBindingRealAppProofKitOutcome,
) -> (r: &'static str)
    ensures
        r@ == next_hook_step(proof_kit.deep_view()),
{
    match find_artifact(&proof_kit.artifacts, "installed_config") {
        Some(a) => if same(a.status.as_str(), "eligible") {
            HOOK_STEP
        } else if a.provided {
            "check_installed_config"
        } else {
            "render_or_write_installed_config"
        },
        None => "render_or_write_installed_config",
    }
}

/// What comes next for in-client-render proof.
pub open spec fn next_render_step(kit: AdapterBindingRealAppProofKitOutcomeView) -> Seq<char> {
    if kit_has(kit, "review_render_report"@, "valid"@) {
        CAPTURE_STEP@
    } else {
        "render_review_surface"@
    }
}

pub fn proof_session_next_render_step_id(
    proof_kit: &AdapterBindingRealAppProofKitOutcome,
) -> (r: &'static str)
    ensures
        r@ == next_render_step(proof_kit.deep_view()),
{
    if proof_kit_artifact_has_status(proof_kit, "review_render_report", "valid") {
        CAPTURE_STEP
    } else {
        "render_review_surface"
    }
}

pub const CAPTURE_STEP: &'static str = "capture_in_client_render_evidence";

/// What comes next for a level.
pub open spec fn next_step_of(
    level: ClientBindingProofLevel,
    recordable_now: bool,
    kit: AdapterBindingRealAppProofKitOutcomeView,
) -> Seq<char> {
    match level {
        ClientBindingProofLevel::ObservedAppHook => if recordable_now {
            "record_observed_app_hook"@
        } else {
            next_hook_step(kit)
        },
        ClientBindingProofLevel::ObservedInClientRender => if recordable_now {
            "record_observed_in_client_render"@
        } else {
            next_render_step(kit)
        },
        ClientBindingProofLevel::ObservedReviewAction => if recordable_now {
            "record_observed_review_action"@
        } else {
            "execute_rendered_review_control"@
        },
        _ => "inspect_client_binding_status"@,
    }
}

pub fn proof_session_next_step_id(
    proof_level: ClientBindingProofLevel,
    ready_to_record_now: bool,
    proof_kit: &AdapterBindingRealAppProofKitOutcome,
) -> (r: &'static str)
    ensures
        r@ == next_step_of(proof_level, ready_to_record_now, proof_kit.deep_view()),
{
    match proof_level {
        ClientBindingProofLevel::ObservedAppHook => if ready_to_record_now {
            "record_observed_app_hook"
        } else {
            proof_session_next_app_hook_step_id(proof_kit)
        },
        ClientBindingProofLevel::ObservedInClientRender => if ready_to_record_now {
            "record_observed_in_client_render"
        } else {
            proof_session_next_render_step_id(proof_kit)
        },
        ClientBindingProofLevel::ObservedReviewAction => if ready_to_record_now {
            "record_observed_review_action"
        } else {
            "execute_rendered_review_control"
        },
        _ => "inspect_client_binding_status",
    }
}

/// The step for a client: with Continue, the collector comes before the hook.
pub open spec fn client_step(
    client: Seq<char>,
    step_id: Seq<char>,
    probe: Option<ContinueDevdataCollectorProbeView>,
) -> Seq<char> {
    match probe {
        Some(p) => if client != "continue"@ || step_id != HOOK_STEP@
            || !p.devdata_destination_visible {
            step_id
        } else if p.collector_status == "probe_blocked"@ || p.collector_status
            == "probe_unavailable"@ {
            "check_continue_devdata_collector_status"@
        } else if p.collector_status == "not_listening"@ {
            "start_continue_devdata_collector_before_real_hook"@
        } else {
            step_id
        },
        None => step_id,
    }
}

pub fn proof_session_next_step_id_for_client(
    client: &str,
    step_id: &str,
    continue_collector_probe: &Option<ContinueDevdataCollectorProbe>,
) -> (r: String)
    ensures
        r@ == client_step(client@, step_id@, continue_collector_probe.deep_view()),
{
    match continue_collector_probe {
        Some(p) => {
            if same(client, "continue") && same(step_id, HOOK_STEP)
                && p.devdata_destination_visible {
                if same(p.collector_status.as_str(), "probe_blocked") || same(
                    p.collector_status.as_str(),
                    "probe_unavailable",
                ) {
                    return "check_continue_devdata_collector_status".to_string();
                }
                if same(p.collector_status.as_str(), "not_listening") {
                    return "start_continue_devdata_collector_before_real_hook".to_string();
                }
            }
        },
        None => {},
    }
    step_id.to_string()
}

// ---------------------------------------------------------------------------
// The runbook
// ---------------------------------------------------------------------------

/// The stage of a level.
pub open spec fn stage_at(
    stages: Seq<ClientBindingProofSessionStageView>,
    level: Option<ClientBindingProofLevel>,
) -> Option<ClientBindingProofSessionStageView>
    decreases stages.len(),
{
    match level {
        None => None,
        Some(level) => if stages.len() == 0 {
            None
        } else if stages[0].proof_level == level {
            Some(stages[0])
        } else {
            stage_at(stages.skip(1), Some(level))
        },
    }
}

pub fn find_stage<'a>(
    stages: &'a Vec<ClientBindingProofSessionStage>,
    level: Option<ClientBindingProofLevel>,
) -> (r: Option<&'a ClientBindingProofSessionStage>)
    ensures
        r.deep_view() == stage_at(stages.deep_view(), level),
{
    let wanted = match level {
        Some(l) => l,
        None => return None,
    };
    let ghost all = stages.deep_view();
    let mut i: usize = 0;
    assert(all.skip(0) =~= all);
    while i < stages.len()
        invariant
            i <= stages.len(),
            all == stages.deep_view(),
            level == Some(wanted),
            stage_at(all, level) == stage_at(all.skip(i as int), level),
        decreases stages.len() - i,
    {
        assert(all.skip(i as int)[0] == stages[i as int].deep_view());
        if stages[i].proof_level == wanted {
            return Some(&stages[i]);
        }
        assert(all.skip(i as int).skip(1) =~= all.skip(i + 1));
        i = i + 1;
    }
    None
}

/// Which stages are meant.
#[derive(Clone, Copy)]
pub enum StageKind {
    Completed,
    Pending,
    Recordable,
    Blocked,
}

/// A stage is one of those that are meant.
pub open spec fn is_stage(s: ClientBindingProofSessionStageView, kind: StageKind) -> bool {
    match kind {
        StageKind::Completed => s.ledger_status == "stored_verified"@,
        StageKind::Pending => s.ledger_status != "stored_verified"@,
        StageKind::Recordable => s.ready_to_record_now,
        StageKind::Blocked => s.ledger_status != "stored_verified"@ && !s.ready_to_record_now,
    }
}

fn stage_is(s: &ClientBindingProofSessionStage, kind: StageKind) -> (r: bool)
    ensures
        r == is_stage(s.deep_view(), kind),
{
    let stored = same(s.ledger_status.as_str(), "stored_verified");
    match kind {
        StageKind::Completed => stored,
        StageKind::Pending => !stored,
        StageKind::Recordable => s.ready_to_record_now,
        StageKind::Blocked => !stored && !s.ready_to_record_now,
    }
}

/// The levels of the stages that are meant, in order.
pub open spec fn levels_in(
    stages: Seq<ClientBindingProofSessionStageView>,
    kind: StageKind,
) -> Seq<ClientBindingProofLevel>
    decreases stages.len(),
{
    if stages.len() == 0 {
        Seq::empty()
    } else {
        let front = levels_in(stages.drop_last(), kind);
        if is_stage(stages.last(), kind) {
            front.push(stages.last().proof_level)
        } else {
            front
        }
    }
}

fn select_levels(
    stages: &Vec<ClientBindingProofSessionStage>,
    kind: StageKind,
) -> (r: Vec<ClientBindingProofLevel>)
    ensures
        r.deep_view() == levels_in(stages.deep_view(), kind),
{
    let ghost all = stages.deep_view();
    let mut out: Vec<ClientBindingProofLevel> = none();
    let mut i: usize = 0;
    while i < stages.len()
        invariant
            i <= stages.len(),
            all == stages.deep_view(),
            out.deep_view() == levels_in(all.take(i as int), kind),
        decreases stages.len() - i,
    {
        assert(all.take(i + 1).drop_last() =~= all.take(i as int));
        assert(all.take(i + 1).last() == stages[i as int].deep_view());
        if stage_is(&stages[i], kind) {
            out = with(out, stages[i].proof_level);
        }
        i = i + 1;
    }
    assert(all.take(i as int) =~= all);
    out
}

/// One step of the runbook.
pub open spec fn runbook_step(
    client: Seq<char>,
    dir: Seq<char>,
    step: ClientBindingOperatorFlowStepView,
    next_step: Option<Seq<char>>,
    stages: Seq<ClientBindingProofSessionStageView>,
    host: HostView,
) -> ClientBindingProofRunbookStepView {
    let stage = stage_at(stages, step_level(step.id));
    ClientBindingProofRunbookStepView {
        id: step.id,
        title: step.title,
        intent: step.intent,
        stage: step_stage(step.id),
        evidence_kind: step_evidence(step.id),
        suggested_artifact_path: step_artifact_path(dir, step.id),
        command: step.command,
        mcp_call: step.mcp_call,
        external_action_safety: step_safety(step.id, host),
        external_action: external_action(
            client,
            HOOK_ACTION@,
            action_label(HOOK_ACTION@, client),
            step.id,
            step.command,
            host,
        ),
        requires_operator_action: step.requires_operator_action,
        records_proof: step.records_proof,
        ready_now: next_step == Some(step.id) || (stage matches Some(s) && s.ready_to_record_now
            && step.records_proof),
        blocking_reasons: match stage {
            Some(s) => if step.records_proof && is_stage(s, StageKind::Blocked) {
                s.blocking_reasons
            } else {
                nil()
            },
            None => nil(),
        },
        trust_boundary: step.trust_boundary,
    }
}

pub fn client_binding_runbook_step(
    client: &str,
    artifact_dir: &str,
    step: &ClientBindingOperatorFlowStep,
    target_next_step_id: Option<&str>,
    stages: &Vec<ClientBindingProofSessionStage>,
    host: &Host,
) -> (r: ClientBindingProofRunbookStep)
    ensures
        r.deep_view() == runbook_step(
            client@,
            artifact_dir@,
            step.deep_view(),
            target_next_step_id.deep_view(),
            stages.deep_view(),
            host.deep_view(),
        ),
{
    let id = step.id.as_str();
    let stage = find_stage(stages, runbook_step_proof_level(id));
    let is_next = match target_next_step_id {
        Some(next) => same(next, id),
        None => false,
    };
    let recordable_now = match stage {
        Some(s) => s.ready_to_record_now && step.records_proof,
        None => false,
    };
    let blocking_reasons = match stage {
        Some(s) => if step.records_proof && stage_is(s, StageKind::Blocked) {
            s.blocking_reasons.dup()
        } else {
            none()
        },
        None => none(),
    };
    let label = proof_session_operator_next_action_label(HOOK_ACTION, client);
    ClientBindingProofRunbookStep {
        id: step.id.clone(),
        title: step.title.clone(),
        intent: step.intent.clone(),
        stage: runbook_step_stage(id).to_string(),
        evidence_kind: runbook_step_evidence_kind(id).to_string(),
        suggested_artifact_path: suggested_artifact_path_for_step(artifact_dir, id),
        command: step.command.dup(),
        mcp_call: step.mcp_call.dup(),
        external_action_safety: runbook_step_external_action_safety(id, host),
        external_action: client_binding_external_operator_action(
            client,
            HOOK_ACTION,
            label.as_str(),
            id,
            &step.command,
            host,
        ),
        requires_operator_action: step.requires_operator_action,
        records_proof: step.records_proof,
        ready_now: is_next || recordable_now,
        blocking_reasons,
        trust_boundary: step.trust_boundary.clone(),
    }
}

pub open spec fn runbook_steps(
    client: Seq<char>,
    dir: Seq<char>,
    flow: Seq<ClientBindingOperatorFlowStepView>,
    next_step: Option<Seq<char>>,
    stages: Seq<ClientBindingProofSessionStageView>,
    host: HostView,
) -> Seq<ClientBindingProofRunbookStepView> {
    Seq::new(flow.len(), |i: int| runbook_step(client, dir, flow[i], next_step, stages, host))
}

fn make_runbook_steps(
    client: &str,
    artifact_dir: &str,
    flow: &Vec<ClientBindingOperatorFlowStep>,
    next_step: Option<&str>,
    stages: &Vec<ClientBindingProofSessionStage>,
    host: &Host,
) -> (r: Vec<ClientBindingProofRunbookStep>)
    ensures
        r.deep_view() == runbook_steps(
            client@,
            artifact_dir@,
            flow.deep_view(),
            next_step.deep_view(),
            stages.deep_view(),
            host.deep_view(),
        ),
{
    let ghost want = runbook_steps(
        client@,
        artifact_dir@,
        flow.deep_view(),
        next_step.deep_view(),
        stages.deep_view(),
        host.deep_view(),
    );
    let mut out: Vec<ClientBindingProofRunbookStep> = none();
    let mut i: usize = 0;
    while i < flow.len()
        invariant
            i <= flow.len(),
            want == runbook_steps(
                client@,
                artifact_dir@,
                flow.deep_view(),
                next_step.deep_view(),
                stages.deep_view(),
                host.deep_view(),
            ),
            out.deep_view() =~= want.take(i as int),
        decreases flow.len() - i,
    {
        assert(flow.deep_view()[i as int] == flow[i as int].deep_view());
        out =
        with(
            out,
            client_binding_runbook_step(client, artifact_dir, &flow[i], next_step, stages, host),
        );
        i = i + 1;
    }
    assert(want.take(i as int) =~= want);
    out
}

/// The number of steps that satisfy a condition.
pub open spec fn step_count(
    steps: Seq<ClientBindingProofRunbookStepView>,
    p: spec_fn(ClientBindingProofRunbookStepView) -> bool,
) -> nat
    decreases steps.len(),
{
    if steps.len() == 0 {
        0
    } else if p(steps.last()) {
        step_count(steps.drop_last(), p) + 1
    } else {
        step_count(steps.drop_last(), p)
    }
}

/// The number of reasons that stand in the way, over all steps.
pub open spec fn reason_count(steps: Seq<ClientBindingProofRunbookStepView>) -> nat
    decreases steps.len(),
{
    if steps.len() == 0 {
        0
    } else {
        reason_count(steps.drop_last()) + steps.last().blocking_reasons.len()
    }
}

/// The number, or the largest that can be told.
pub open spec fn clipped(n: nat) -> usize {
    if n > usize::MAX {
        usize::MAX
    } else {
        n as usize
    }
}

pub open spec fn by_operator() -> spec_fn(ClientBindingProofRunbookStepView) -> bool {
    |s: ClientBindingProofRunbookStepView| s.requires_operator_action
}

pub open spec fn recording() -> spec_fn(ClientBindingProofRunbookStepView) -> bool {
    |s: ClientBindingProofRunbookStepView| s.records_proof
}

pub open spec fn due_now() -> spec_fn(ClientBindingProofRunbookStepView) -> bool {
    |s: ClientBindingProofRunbookStepView| s.ready_now
}

pub open spec fn held_up() -> spec_fn(ClientBindingProofRunbookStepView) -> bool {
    |s: ClientBindingProofRunbookStepView|
        s.records_proof && !s.ready_now && s.blocking_reasons.len() > 0
}

/// How far the session is.
pub open spec fn progress_of(
    steps: Seq<ClientBindingProofRunbookStepView>,
    stages: Seq<ClientBindingProofSessionStageView>,
    gate: Seq<char>,
) -> ClientBindingProofRunbookProgressView {
    ClientBindingProofRunbookProgressView {
        total_step_count: steps.len() as usize,
        operator_action_step_count: step_count(steps, by_operator()) as usize,
        proof_recording_step_count: step_count(steps, recording()) as usize,
        ready_now_step_count: step_count(steps, due_now()) as usize,
        blocked_proof_step_count: step_count(steps, held_up()) as usize,
        blocking_reason_count: clipped(reason_count(steps)),
        completed_proof_level_count: levels_in(stages, StageKind::Completed).len() as usize,
        pending_proof_level_count: levels_in(stages, StageKind::Pending).len() as usize,
        ready_to_record_proof_level_count: levels_in(stages, StageKind::Recordable).len() as usize,
        blocked_proof_level_count: levels_in(stages, StageKind::Blocked).len() as usize,
        release_ready: gate == "pass"@,
    }
}

pub fn client_binding_runbook_progress(
    steps: &Vec<ClientBindingProofRunbookStep>,
    stages: &Vec<ClientBindingProofSessionStage>,
    release_gate: &str,
) -> (r: ClientBindingProofRunbookProgress)
    ensures
        r.deep_view() == progress_of(steps.deep_view(), stages.deep_view(), release_gate@),
{
    let ghost all = steps.deep_view();
    assert(all.len() == steps.len());
    let mut operator: usize = 0;
    let mut records: usize = 0;
    let mut due: usize = 0;
    let mut held: usize = 0;
    let mut reasons: usize = 0;
    let mut i: usize = 0;
    while i < steps.len()
        invariant
            i <= steps.len(),
            all == steps.deep_view(),
            operator <= i && records <= i && due <= i && held <= i,
            operator == step_count(all.take(i as int), by_operator()),
            records == step_count(all.take(i as int), recording()),
            due == step_count(all.take(i as int), due_now()),
            held == step_count(all.take(i as int), held_up()),
            reasons == clipped(reason_count(all.take(i as int))),
        decreases steps.len() - i,
    {
        let s = &steps[i];
        assert(all.take(i + 1).drop_last() =~= all.take(i as int));
        assert(all.take(i + 1).last() == s.deep_view());
        assert(s.deep_view().blocking_reasons.len() == s.blocking_reasons.len());
        if s.requires_operator_action {
            operator = operator + 1;
        }
        if s.records_proof {
            records = records + 1;
        }
        if s.ready_now {
            due = due + 1;
        }
        if s.records_proof && !s.ready_now && s.blocking_reasons.len() > 0 {
            held = held + 1;
        }
        reasons = reasons.saturating_add(s.blocking_reasons.len());
        i = i + 1;
    }
    assert(all.take(i as int) =~= all);
    let completed = select_levels(stages, StageKind::Completed);
    let pending = select_levels(stages, StageKind::Pending);
    let recordable_now = select_levels(stages, StageKind::Recordable);
    let blocked = select_levels(stages, StageKind::Blocked);
    assert(completed.deep_view().len() == completed.len());
    assert(pending.deep_view().len() == pending.len());
    assert(recordable_now.deep_view().len() == recordable_now.len());
    assert(blocked.deep_view().len() == blocked.len());
    ClientBindingProofRunbookProgress {
        total_step_count: steps.len(),
        operator_action_step_count: operator,
        proof_recording_step_count: records,
        ready_now_step_count: due,
        blocked_proof_step_count: held,
        blocking_reason_count: reasons,
        completed_proof_level_count: completed.len(),
        pending_proof_level_count: pending.len(),
        ready_to_record_proof_level_count: recordable_now.len(),
        blocked_proof_level_count: blocked.len(),
        release_ready: same(release_gate, "pass"),
    }
}

pub const RENDER_PREP: &'static str = "tools/soma-client-render-proof-prep.sh";

/// The commands for evidence below the working directory.
pub open spec fn fallback_commands(client: Seq<char>, dir: Seq<char>, host: HostView) -> Seq<
    Seq<Seq<char>>,
> {
    let bin = operator_bin(host.identity);
    let manifest = match default_manifest(client) {
        Some(m) => m,
        None => NO_MANIFEST@,
    };
    Seq::empty().push(
        nil().push(bin).push("adapter-binding-proof"@).push("--client"@).push(client).push(
            "--proof-session"@,
        ).push("--brief"@).push("--artifact-dir"@).push(dir),
    ).push(
        nil().push(RENDER_PREP@).push("--client"@).push(client).push("--soma-bin"@).push(bin).push(
            "--manifest"@,
        ).push(manifest).push("--artifact-dir"@).push(dir),
    )
}

pub fn client_binding_workspace_fallback_commands(
    client: &str,
    artifact_dir: &str,
    host: &Host,
) -> (r: Vec<Vec<String>>)
    ensures
        r.deep_view() == fallback_commands(client@, artifact_dir@, host.deep_view()),
{
    let bin = resolved_soma_bin_for_operator_command(&host.identity);
    let manifest = match default_client_binding_manifest(client) {
        Some(m) => m,
        None => NO_MANIFEST,
    };
    let session = Words::new().w(bin.as_str()).w("adapter-binding-proof").w("--client").w(client).w(
        "--proof-session",
    ).w("--brief").w("--artifact-dir").w(artifact_dir).done();
    let prepare = Words::new().w(RENDER_PREP).w("--client").w(client).w("--soma-bin").w(
        bin.as_str(),
    ).w("--manifest").w(manifest).w("--artifact-dir").w(artifact_dir).done();
    with(with(none(), session), prepare)
}

pub const RUNBOOK_SCHEMA: &'static str = "soma.client_binding_proof_session_runbook.v1";

pub const RERUN_CHECK: &'static str =
    "rerun `soma adapter-binding-proof --proof-session --json` or MCP `soma_client_binding_proof_session` until release_gate is pass";

pub const SAVE_CHECK: &'static str =
    "save review-render, render-evidence, and review-action report artifacts under `";

pub const SAVE_CHECK_END: &'static str =
    "` so proof replay survives process restarts and tmp cleanup";

pub const HARDENING_CHECK: &'static str =
    "rerun product hardening with client-binding readiness required before claiming private-client release";

pub const RUNBOOK_BOUNDARY: &'static str =
    "client_binding_proof_session_runbook_is_read_only: it exports the operator proof sequence and current blockers only; it writes no files, records no proof row, creates no verification event, promotes no cloud draft, applies no proposal, and does not prove private app installation, rendering, or review-action execution";

/// The directory below the working directory, where files cannot be put where they
/// belong.
pub open spec fn fallback_for(
    client: Seq<char>,
    dir: Seq<char>,
    status: Seq<char>,
    host: HostView,
) -> Option<Seq<char>> {
    if allows_new_files(status) {
        None
    } else {
        fallback_dir(client, dir, host.cwd)
    }
}

/// The runbook of a session.
pub open spec fn runbook_of(
    client: Seq<char>,
    status: Seq<char>,
    gate: Seq<char>,
    next_step: Option<Seq<char>>,
    next_operator_step: Option<ClientBindingOperatorFlowStepView>,
    flow: Seq<ClientBindingOperatorFlowStepView>,
    stages: Seq<ClientBindingProofSessionStageView>,
    criteria: Seq<Seq<char>>,
    dir: Seq<char>,
    seen: Seq<DirSeen>,
    host: HostView,
) -> ClientBindingProofSessionRunbookView {
    let steps = runbook_steps(client, dir, flow, next_step, stages, host);
    let fallback = fallback_for(client, dir, write_status(dir, seen), host);
    let action = next_action(status, next_step);
    ClientBindingProofSessionRunbookView {
        schema: RUNBOOK_SCHEMA@,
        client,
        status,
        release_gate: gate,
        durable_artifact_dir: dir,
        durable_artifact_dir_write_status: write_status(dir, seen),
        suggested_artifact_paths: path_suggestions(dir),
        workspace_fallback_artifact_dir: fallback,
        workspace_fallback_artifact_paths: match fallback {
            Some(f) => path_suggestions(f),
            None => Seq::empty(),
        },
        workspace_fallback_commands: match fallback {
            Some(f) => fallback_commands(client, f, host),
            None => Seq::empty(),
        },
        target_next_step_id: next_step,
        target_next_operator_step: next_operator_step,
        external_action_safety: match next_step {
            Some(id) => step_safety(id, host),
            None => None,
        },
        external_action: match next_operator_step {
            Some(step) => external_action(
                client,
                action,
                action_label(action, client),
                step.id,
                step.command,
                host,
            ),
            None => None,
        },
        progress: progress_of(steps, stages, gate),
        steps,
        completion_checks: criteria.push(RERUN_CHECK@).push(
            SAVE_CHECK@ + dir + SAVE_CHECK_END@,
        ).push(HARDENING_CHECK@),
        trust_boundary: RUNBOOK_BOUNDARY@,
    }
}

pub fn client_binding_proof_session_runbook(
    client: &str,
    status: &str,
    release_gate: &str,
    target_next_step_id: Option<&str>,
    target_next_operator_step: Option<&ClientBindingOperatorFlowStep>,
    operator_flow: &Vec<ClientBindingOperatorFlowStep>,
    stages: &Vec<ClientBindingProofSessionStage>,
    completion_criteria: &Vec<String>,
    artifact_dir: &str,
    seen: &Vec<DirSeen>,
    host: &Host,
) -> (r: ClientBindingProofSessionRunbook)
    ensures
        r.deep_view() == runbook_of(
            client@,
            status@,
            release_gate@,
            target_next_step_id.deep_view(),
            target_next_operator_step.deep_view(),
            operator_flow.deep_view(),
            stages.deep_view(),
            completion_criteria.deep_view(),
            artifact_dir@,
            seen@,
            host.deep_view(),
        ),
{
    let save = cat3(SAVE_CHECK, artifact_dir, SAVE_CHECK_END);
    let checks = Words::starting(completion_criteria.dup()).w(RERUN_CHECK).w(save.as_str()).w(
        HARDENING_CHECK,
    ).done();
    let steps = make_runbook_steps(
        client,
        artifact_dir,
        operator_flow,
        target_next_step_id,
        stages,
        host,
    );
    let progress = client_binding_runbook_progress(&steps, stages, release_gate);
    let external_action_safety = match target_next_step_id {
        Some(id) => runbook_step_external_action_safety(id, host),
        None => None,
    };
    let outside = match target_next_operator_step {
        Some(step) => {
            let action = proof_session_operator_next_action_id(status, target_next_step_id);
            let label = proof_session_operator_next_action_label(action.as_str(), client);
            client_binding_external_operator_action(
                client,
                action.as_str(),
                label.as_str(),
                step.id.as_str(),
                &step.command,
                host,
            )
        },
        None => None,
    };
    let dir_status = artifact_dir_write_status(artifact_dir, seen);
    let fallback = if artifact_dir_write_status_allows_new_files(dir_status.as_str()) {
        None
    } else {
        workspace_fallback_artifact_dir_for_client(client, artifact_dir, borrowed(&host.cwd))
    };
    let fallback_paths = match &fallback {
        Some(f) => client_binding_artifact_path_suggestions(f.as_str()),
        None => none(),
    };
    let fallback_commands = match &fallback {
        Some(f) => client_binding_workspace_fallback_commands(client, f.as_str(), host),
        None => none(),
    };
    let target_step = match target_next_operator_step {
        Some(s) => Some(s.dup()),
        None => None,
    };
    ClientBindingProofSessionRunbook {
        schema: RUNBOOK_SCHEMA.to_string(),
        client: client.to_string(),
        status: status.to_string(),
        release_gate: release_gate.to_string(),
        durable_artifact_dir: artifact_dir.to_string(),
        durable_artifact_dir_write_status: dir_status,
        suggested_artifact_paths: client_binding_artifact_path_suggestions(artifact_dir),
        workspace_fallback_artifact_dir: fallback,
        workspace_fallback_artifact_paths: fallback_paths,
        workspace_fallback_commands: fallback_commands,
        target_next_step_id: owned(target_next_step_id),
        target_next_operator_step: target_step,
        external_action_safety,
        external_action: outside,
        progress,
        steps,
        completion_checks: checks,
        trust_boundary: RUNBOOK_BOUNDARY.to_string(),
    }
}

/// The first command that has a word.
pub open spec fn command_with_word(commands: Seq<Seq<Seq<char>>>, word: Seq<char>) -> Option<
    Seq<Seq<char>>,
>
    decreases commands.len(),
{
    if commands.len() == 0 {
        None
    } else if commands[0].contains(word) {
        Some(commands[0])
    } else {
        command_with_word(commands.skip(1), word)
    }
}

fn find_command(commands: &Vec<Vec<String>>, word: &str) -> (r: Option<Vec<String>>)
    ensures
        r.deep_view() == command_with_word(commands.deep_view(), word@),
{
    let ghost all = commands.deep_view();
    let mut i: usize = 0;
    assert(all.skip(0) =~= all);
    while i < commands.len()
        invariant
            i <= commands.len(),
            all == commands.deep_view(),
            command_with_word(all, word@) == command_with_word(all.skip(i as int), word@),
        decreases commands.len() - i,
    {
        assert(all.skip(i as int)[0] == commands[i as int].deep_view());
        if listed(&commands[i], word) {
            return Some(commands[i].dup());
        }
        assert(all.skip(i as int).skip(1) =~= all.skip(i + 1));
        i = i + 1;
    }
    None
}

/// The command of a step for evidence below the working directory.
pub open spec fn fallback_command(
    runbook: ClientBindingProofSessionRunbookView,
    step_id: Seq<char>,
) -> Option<Seq<Seq<char>>> {
    if runbook.workspace_fallback_artifact_dir is Some && step_id == CAPTURE_STEP@ {
        command_with_word(runbook.workspace_fallback_commands, RENDER_PREP@)
    } else {
        None
    }
}

pub fn workspace_fallback_command_for_step(
    runbook: &ClientBindingProofSessionRunbook,
    step_id: &str,
) -> (r: Option<Vec<String>>)
    ensures
        r.deep_view() == fallback_command(runbook.deep_view(), step_id@),
{
    if runbook.workspace_fallback_artifact_dir.is_some() && same(step_id, CAPTURE_STEP) {
        find_command(&runbook.workspace_fallback_commands, RENDER_PREP)
    } else {
        None
    }
}

/// The kind of evidence file that a step makes or records.
pub open spec fn step_file_kind(step_id: Seq<char>) -> Option<Seq<char>> {
    if step_id == "render_review_surface"@ {
        Some("review_render_report"@)
    } else if step_id == CAPTURE_STEP@ || step_id == "record_observed_in_client_render"@ {
        Some("render_evidence"@)
    } else if step_id == "execute_rendered_review_control"@ || step_id
        == "record_observed_review_action"@ {
        Some("review_action_report"@)
    } else {
        None
    }
}

/// The path that is suggested for a kind of file.
pub open spec fn suggested_for(
    list: Seq<ClientBindingProofArtifactPathSuggestionView>,
    kind: Seq<char>,
) -> Option<Seq<char>>
    decreases list.len(),
{
    if list.len() == 0 {
        None
    } else if list[0].artifact_kind == kind {
        Some(list[0].path)
    } else {
        suggested_for(list.skip(1), kind)
    }
}

fn find_suggestion(
    list: &Vec<ClientBindingProofArtifactPathSuggestion>,
    kind: &str,
) -> (r: Option<String>)
    ensures
        r.deep_view() == suggested_for(list.deep_view(), kind@),
{
    let ghost all = list.deep_view();
    let mut i: usize = 0;
    assert(all.skip(0) =~= all);
    while i < list.len()
        invariant
            i <= list.len(),
            all == list.deep_view(),
            suggested_for(all, kind@) == suggested_for(all.skip(i as int), kind@),
        decreases list.len() - i,
    {
        assert(all.skip(i as int)[0] == list[i as int].deep_view());
        if same(list[i].artifact_kind.as_str(), kind) {
            return Some(list[i].path.clone());
        }
        assert(all.skip(i as int).skip(1) =~= all.skip(i + 1));
        i = i + 1;
    }
    None
}

/// Where a step puts its evidence below the working directory.
pub open spec fn fallback_path(
    runbook: ClientBindingProofSessionRunbookView,
    step_id: Seq<char>,
) -> Option<Seq<char>> {
    match step_file_kind(step_id) {
        Some(kind) => if runbook.workspace_fallback_artifact_dir is Some {
            suggested_for(runbook.workspace_fallback_artifact_paths, kind)
        } else {
            None
        },
        None => None,
    }
}

pub fn workspace_fallback_artifact_path_for_step(
    runbook: &ClientBindingProofSessionRunbook,
    step_id: &str,
) -> (r: Option<String>)
    ensures
        r.deep_view() == fallback_path(runbook.deep_view(), step_id@),
{
    if runbook.workspace_fallback_artifact_dir.is_none() {
        return None;
    }
    let kind = if same(step_id, "render_review_surface") {
        "review_render_report"
    } else if same(step_id, CAPTURE_STEP) || same(step_id, "record_observed_in_client_render") {
        "render_evidence"
    } else if same(step_id, "execute_rendered_review_control") || same(
        step_id,
        "record_observed_review_action",
    ) {
        "review_action_report"
    } else {
        return None;
    };
    find_suggestion(&runbook.workspace_fallback_artifact_paths, kind)
}

/// Where the session suggests to put render evidence.
pub open spec fn evidence_path_in(
    steps: Seq<ClientBindingProofRunbookStepView>,
) -> Option<Seq<char>>
    decreases steps.len(),
{
    if steps.len() == 0 {
        None
    } else if steps[0].id == CAPTURE_STEP@ || steps[0].evidence_kind
        == "in_client_render_evidence_packet"@ {
        steps[0].suggested_artifact_path
    } else {
        evidence_path_in(steps.skip(1))
    }
}

pub fn proof_session_render_evidence_artifact_path(
    proof_session: &ClientBindingProofSession,
) -> (r: Option<String>)
    ensures
        r.deep_view() == evidence_path_in(proof_session.deep_view().runbook.steps),
{
    let steps = &proof_session.runbook.steps;
    let ghost all = steps.deep_view();
    let mut i: usize = 0;
    assert(all.skip(0) =~= all);
    while i < steps.len()
        invariant
            i <= steps.len(),
            all == steps.deep_view(),
            all == proof_session.deep_view().runbook.steps,
            evidence_path_in(all) == evidence_path_in(all.skip(i as int)),
        decreases steps.len() - i,
    {
        assert(all.skip(i as int)[0] == steps[i as int].deep_view());
        if same(steps[i].id.as_str(), CAPTURE_STEP) || same(
            steps[i].evidence_kind.as_str(),
            "in_client_render_evidence_packet",
        ) {
            return copy_text(&steps[i].suggested_artifact_path);
        }
        assert(all.skip(i as int).skip(1) =~= all.skip(i + 1));
        i = i + 1;
    }
    None
}

// ---------------------------------------------------------------------------
// The session
// ---------------------------------------------------------------------------

pub const COMPLETION_CRITERIA: [&'static str; 5] = [
    "current known private-client target config is discoverable, eligible, and carries the same binding nonce as the proof chain",
    "observed_app_hook proof recorded from a real private client event with matching event_source, binding_nonce, writer metadata, temporal binding, and operator confirmation",
    "observed_in_client_render proof recorded from structured UI-only render evidence bound to the review-render report, workbench version, interaction contract, visible surfaces, and installed config",
    "observed_review_action proof recorded from a rendered control_id that produced a storage-gated review-action report with non-cloud verification evidence",
    "latest stored evidence artifacts replay successfully; append-only event_jsonl growth must preserve the recorded prefix fingerprint and app-hook/render/review-action proofs share one installed-config identity",
];

pub const SESSION_BOUNDARY: &'static str =
    "client_binding_proof_session_is_read_only: summarizes stored proof readiness and currently provided artifact readiness only; it records no proof row, creates no verification event, promotes no cloud draft, applies no proposal, and does not prove private app installation or in-client rendering by itself";

/// The levels of proof that a release rests on, in order.
pub open spec fn required_levels() -> Seq<ClientBindingProofLevel> {
    Seq::empty().push(ClientBindingProofLevel::ObservedAppHook).push(
        ClientBindingProofLevel::ObservedInClientRender,
    ).push(ClientBindingProofLevel::ObservedReviewAction)
}

pub fn required_private_client_proof_levels() -> (r: Vec<ClientBindingProofLevel>)
    ensures
        r.deep_view() == required_levels(),
{
    with(
        with(
            with(none(), ClientBindingProofLevel::ObservedAppHook),
            ClientBindingProofLevel::ObservedInClientRender,
        ),
        ClientBindingProofLevel::ObservedReviewAction,
    )
}

/// How far each of the three levels is.
pub open spec fn session_stages(
    status: Option<ClientBindingReadinessStatusView>,
    kit: AdapterBindingRealAppProofKitOutcomeView,
    flow: Seq<ClientBindingOperatorFlowStepView>,
) -> Seq<ClientBindingProofSessionStageView> {
    Seq::empty().push(stage_of(ClientBindingProofLevel::ObservedAppHook, status, kit, flow)).push(
        stage_of(ClientBindingProofLevel::ObservedInClientRender, status, kit, flow),
    ).push(stage_of(ClientBindingProofLevel::ObservedReviewAction, status, kit, flow))
}

/// The first stage that is not complete.
pub open spec fn first_pending(stages: Seq<ClientBindingProofSessionStageView>) -> Option<
    ClientBindingProofSessionStageView,
>
    decreases stages.len(),
{
    if stages.len() == 0 {
        None
    } else if is_stage(stages[0], StageKind::Pending) {
        Some(stages[0])
    } else {
        first_pending(stages.skip(1))
    }
}

fn find_pending(stages: &Vec<ClientBindingProofSessionStage>) -> (r: Option<
    &ClientBindingProofSessionStage,
>)
    ensures
        r.deep_view() == first_pending(stages.deep_view()),
{
    let ghost all = stages.deep_view();
    let mut i: usize = 0;
    assert(all.skip(0) =~= all);
    while i < stages.len()
        invariant
            i <= stages.len(),
            all == stages.deep_view(),
            first_pending(all) == first_pending(all.skip(i as int)),
        decreases stages.len() - i,
    {
        assert(all.skip(i as int)[0] == stages[i as int].deep_view());
        if stage_is(&stages[i], StageKind::Pending) {
            return Some(&stages[i]);
        }
        assert(all.skip(i as int).skip(1) =~= all.skip(i + 1));
        i = i + 1;
    }
    None
}

/// Some stage has this word from the ledger.
pub open spec fn some_ledger(
    stages: Seq<ClientBindingProofSessionStageView>,
    word: Seq<char>,
) -> bool {
    exists|i: int| 0 <= i < stages.len() && (#[trigger] stages[i]).ledger_status == word
}

fn any_ledger(stages: &Vec<ClientBindingProofSessionStage>, word: &str) -> (r: bool)
    ensures
        r == some_ledger(stages.deep_view(), word@),
{
    let mut i: usize = 0;
    while i < stages.len()
        invariant
            i <= stages.len(),
            forall|j: int|
                0 <= j < i ==> (#[trigger] stages.deep_view()[j]).ledger_status != word@,
        decreases stages.len() - i,
    {
        assert(stages.deep_view()[i as int] == stages[i as int].deep_view());
        if same(stages[i].ledger_status.as_str(), word) {
            return true;
        }
        i = i + 1;
    }
    false
}

/// Some stage is stored with a fault.
pub open spec fn some_stored_fault(stages: Seq<ClientBindingProofSessionStageView>) -> bool {
    exists|i: int|
        0 <= i < stages.len() && starts_with(
            (#[trigger] stages[i]).ledger_status,
            "stored_but_"@,
        )
}

fn any_stored_fault(stages: &Vec<ClientBindingProofSessionStage>) -> (r: bool)
    ensures
        r == some_stored_fault(stages.deep_view()),
{
    let mut i: usize = 0;
    while i < stages.len()
        invariant
            i <= stages.len(),
            forall|j: int|
                0 <= j < i ==> !starts_with(
                    (#[trigger] stages.deep_view()[j]).ledger_status,
                    "stored_but_"@,
                ),
        decreases stages.len() - i,
    {
        assert(stages.deep_view()[i as int] == stages[i as int].deep_view());
        if begins(stages[i].ledger_status.as_str(), "stored_but_") {
            return true;
        }
        i = i + 1;
    }
    false
}

/// What a session looks at.
pub struct SessionInput {
    pub client: Seq<char>,
    pub dir: Seq<char>,
    pub readiness: AdapterBindingProofStatusOutcomeView,
    pub kit: AdapterBindingRealAppProofKitOutcomeView,
    pub flow: Seq<ClientBindingOperatorFlowStepView>,
    pub target_ready: bool,
    pub probe: Option<ContinueDevdataCollectorProbeView>,
    pub seen: Seq<DirSeen>,
    pub host: HostView,
}

/// The stored proofs allow the claim.
pub open spec fn stored_ready(x: SessionInput) -> bool {
    status_of_client(x.readiness.clients, x.client) matches Some(s)
        && s.ready_for_private_client_claim
}

/// The stages of a session.
pub open spec fn stages_of(x: SessionInput) -> Seq<ClientBindingProofSessionStageView> {
    session_stages(status_of_client(x.readiness.clients, x.client), x.kit, x.flow)
}

/// The step that comes next.
pub open spec fn session_next_step(x: SessionInput) -> Option<Seq<char>> {
    if stored_ready(x) && !x.target_ready {
        Some("install_or_merge_private_client_config"@)
    } else {
        match first_pending(stages_of(x)) {
            Some(s) => Some(
                client_step(
                    x.client,
                    next_step_of(s.proof_level, s.ready_to_record_now, x.kit),
                    x.probe,
                ),
            ),
            None => None,
        }
    }
}

/// The operator's step that comes next.
pub open spec fn session_operator_step(x: SessionInput) -> Option<
    ClientBindingOperatorFlowStepView,
> {
    match session_next_step(x) {
        Some(id) => step_named(x.flow, id),
        None => None,
    }
}

/// The command that comes next, before it is known whether files can be put where they
/// belong.
pub open spec fn session_first_command(x: SessionInput) -> Option<Seq<Seq<char>>> {
    if stored_ready(x) && !x.target_ready {
        command_of(session_operator_step(x))
    } else {
        match first_pending(stages_of(x)) {
            Some(s) => if s.ready_to_record_now {
                s.command
            } else {
                command_of(session_operator_step(x))
            },
            None => None,
        }
    }
}

/// The state of a session in one word.
pub open spec fn session_status(x: SessionInput) -> Seq<char> {
    let stages = stages_of(x);
    if stored_ready(x) && x.target_ready {
        "ready_for_private_client_claim"@
    } else if stored_ready(x) {
        "blocked_by_missing_private_target_config"@
    } else if levels_in(stages, StageKind::Recordable).len() > 0 {
        "proof_artifacts_ready_for_operator_recording"@
    } else if some_ledger(stages, "stored_but_non_release_evidence_source"@) {
        "blocked_by_non_release_evidence_source"@
    } else if some_stored_fault(stages) {
        "blocked_by_stored_proof_integrity_or_identity"@
    } else {
        "blocked_by_missing_or_invalid_artifacts"@
    }
}

/// The release gate: open only where the claim is allowed.
pub open spec fn session_gate(x: SessionInput) -> Seq<char> {
    if stored_ready(x) && x.target_ready {
        "pass"@
    } else {
        "fail"@
    }
}

pub open spec fn session_runbook(x: SessionInput) -> ClientBindingProofSessionRunbookView {
    runbook_of(
        x.client,
        session_status(x),
        session_gate(x),
        session_next_step(x),
        session_operator_step(x),
        x.flow,
        stages_of(x),
        table(COMPLETION_CRITERIA),
        x.dir,
        x.seen,
        x.host,
    )
}

/// The command that comes next.
pub open spec fn session_command(x: SessionInput) -> Option<Seq<Seq<char>>> {
    if session_next_step(x) == Some(CAPTURE_STEP@) {
        match fallback_command(session_runbook(x), CAPTURE_STEP@) {
            Some(c) => Some(c),
            None => session_first_command(x),
        }
    } else {
        session_first_command(x)
    }
}

/// A proof session.
pub open spec fn session_of(x: SessionInput) -> ClientBindingProofSessionView {
    let stages = stages_of(x);
    let action = next_action(session_status(x), session_next_step(x));
    ClientBindingProofSessionView {
        client: x.client,
        status: session_status(x),
        release_gate: session_gate(x),
        ready_for_private_client_claim: stored_ready(x) && x.target_ready,
        completed_proof_levels: levels_in(stages, StageKind::Completed),
        pending_proof_levels: levels_in(stages, StageKind::Pending),
        ready_to_record_proof_levels: levels_in(stages, StageKind::Recordable),
        blocked_proof_levels: levels_in(stages, StageKind::Blocked),
        next_step_id: session_next_step(x),
        next_command: session_command(x),
        next_mcp_call: call_of(session_operator_step(x)),
        next_operator_step: session_operator_step(x),
        external_action: match session_next_step(x) {
            Some(id) => external_action(
                x.client,
                action,
                action_label(action, x.client),
                id,
                session_command(x),
                x.host,
            ),
            None => None,
        },
        stages,
        runbook: session_runbook(x),
        completion_criteria: table(COMPLETION_CRITERIA),
        trust_boundary: SESSION_BOUNDARY@,
    }
}

fn proof_session_next_command_with_workspace_fallback(
    next_step_id: Option<&str>,
    command: Option<Vec<String>>,
    runbook: &ClientBindingProofSessionRunbook,
) -> (r: Option<Vec<String>>)
    ensures
        r.deep_view() == (if next_step_id.deep_view() == Some(CAPTURE_STEP@) {
            match fallback_command(runbook.deep_view(), CAPTURE_STEP@) {
                Some(c) => Some(c),
                None => command.deep_view(),
            }
        } else {
            command.deep_view()
        }),
{
    match next_step_id {
        Some(id) => if same(id, CAPTURE_STEP) {
            match workspace_fallback_command_for_step(runbook, CAPTURE_STEP) {
                Some(c) => return Some(c),
                None => {},
            }
        },
        None => {},
    }
    command
}

/// How far the proof of a client is, and what comes next.
pub fn client_binding_proof_session(
    client: &str,
    artifact_dir: &str,
    readiness: &AdapterBindingProofStatusOutcome,
    proof_kit: &AdapterBindingRealAppProofKitOutcome,
    operator_flow: &Vec<ClientBindingOperatorFlowStep>,
    current_private_target_config_ready: bool,
    continue_collector_probe: &Option<ContinueDevdataCollectorProbe>,
    seen: &Vec<DirSeen>,
    host: &Host,
) -> (r: ClientBindingProofSession)
    ensures
        r.deep_view() == session_of(
            (SessionInput {
                client: client@,
                dir: artifact_dir@,
                readiness: readiness.deep_view(),
                kit: proof_kit.deep_view(),
                flow: operator_flow.deep_view(),
                target_ready: current_private_target_config_ready,
                probe: continue_collector_probe.deep_view(),
                seen: seen@,
                host: host.deep_view(),
            }),
        ),
{
    let ghost x = SessionInput {
        client: client@,
        dir: artifact_dir@,
        readiness: readiness.deep_view(),
        kit: proof_kit.deep_view(),
        flow: operator_flow.deep_view(),
        target_ready: current_private_target_config_ready,
        probe: continue_collector_probe.deep_view(),
        seen: seen@,
        host: host.deep_view(),
    };
    let client_status = find_client_status(&readiness.clients, client);
    let hook = proof_session_stage(
        ClientBindingProofLevel::ObservedAppHook,
        client_status,
        proof_kit,
        operator_flow,
    );
    let render = proof_session_stage(
        ClientBindingProofLevel::ObservedInClientRender,
        client_status,
        proof_kit,
        operator_flow,
    );
    let action = proof_session_stage(
        ClientBindingProofLevel::ObservedReviewAction,
        client_status,
        proof_kit,
        operator_flow,
    );
    let stages = with(with(with(none(), hook), render), action);
    assert(stages.deep_view() == stages_of(x));
    let stored = match client_status {
        Some(s) => s.ready_for_private_client_claim,
        None => false,
    };
    assert(stored == stored_ready(x));
    let target_missing = stored && !current_private_target_config_ready;
    let ready = stored && current_private_target_config_ready;
    let pending = find_pending(&stages);
    let next_step_id: Option<String> = if target_missing {
        Some("install_or_merge_private_client_config".to_string())
    } else {
        match pending {
            Some(s) => {
                let id = proof_session_next_step_id(
                    s.proof_level,
                    s.ready_to_record_now,
                    proof_kit,
                );
                Some(proof_session_next_step_id_for_client(client, id, continue_collector_probe))
            },
            None => None,
        }
    };
    assert(next_step_id.deep_view() == session_next_step(x));
    let operator_step = match &next_step_id {
        Some(id) => find_step(operator_flow, id.as_str()),
        None => None,
    };
    assert(operator_step.deep_view() == session_operator_step(x));
    let first_command = if target_missing {
        copy_command(operator_step)
    } else {
        match pending {
            Some(s) => if s.ready_to_record_now {
                s.command.dup()
            } else {
                copy_command(operator_step)
            },
            None => None,
        }
    };
    assert(first_command.deep_view() == session_first_command(x));
    let recordable_now = select_levels(&stages, StageKind::Recordable);
    assert(recordable_now.deep_view().len() == recordable_now.len());
    let status = if ready {
        "ready_for_private_client_claim"
    } else if target_missing {
        "blocked_by_missing_private_target_config"
    } else if recordable_now.len() > 0 {
        "proof_artifacts_ready_for_operator_recording"
    } else if any_ledger(&stages, "stored_but_non_release_evidence_source") {
        "blocked_by_non_release_evidence_source"
    } else if any_stored_fault(&stages) {
        "blocked_by_stored_proof_integrity_or_identity"
    } else {
        "blocked_by_missing_or_invalid_artifacts"
    };
    assert(status@ == session_status(x));
    let gate = if ready { "pass" } else { "fail" };
    let action_id = proof_session_operator_next_action_id(status, borrowed(&next_step_id));
    let label = proof_session_operator_next_action_label(action_id.as_str(), client);
    let criteria = table_texts(&COMPLETION_CRITERIA);
    let runbook = client_binding_proof_session_runbook(
        client,
        status,
        gate,
        borrowed(&next_step_id),
        operator_step,
        operator_flow,
        &stages,
        &criteria,
        artifact_dir,
        seen,
        host,
    );
    assert(runbook.deep_view() == session_runbook(x));
    let next_command = proof_session_next_command_with_workspace_fallback(
        borrowed(&next_step_id),
        first_command,
        &runbook,
    );
    assert(next_command.deep_view() == session_command(x));
    let outside = match &next_step_id {
        Some(id) => client_binding_external_operator_action(
            client,
            action_id.as_str(),
            label.as_str(),
            id.as_str(),
            &next_command,
            host,
        ),
        None => None,
    };
    let next_operator_step = match operator_step {
        Some(s) => Some(s.dup()),
        None => None,
    };
    ClientBindingProofSession {
        client: client.to_string(),
        status: status.to_string(),
        release_gate: gate.to_string(),
        ready_for_private_client_claim: ready,
        completed_proof_levels: select_levels(&stages, StageKind::Completed),
        pending_proof_levels: select_levels(&stages, StageKind::Pending),
        ready_to_record_proof_levels: recordable_now,
        blocked_proof_levels: select_levels(&stages, StageKind::Blocked),
        next_step_id,
        next_command,
        next_mcp_call: copy_call(operator_step),
        next_operator_step,
        external_action: outside,
        stages,
        runbook,
        completion_criteria: criteria,
        trust_boundary: SESSION_BOUNDARY.to_string(),
    }
}

}
