//! What to do about evidence files that are no longer what they were.
use super::artifacts::{
    evidence_artifact_status_is_verified, is_verified, verifications, verify_all,
};
use super::types::{
    AdapterBindingEvidenceArtifactVerificationOutcome,
    AdapterBindingEvidenceArtifactVerificationOutcomeView, AdapterBindingProofArgs,
    AdapterBindingProofArgsView, AdapterBindingProofError, AdapterBindingProofListOutcome,
    AdapterBindingProofListOutcomeView, BindingFault, ClientBindingEvidenceArtifactVerification,
    ClientBindingEvidenceArtifactVerificationView, EvidenceArtifactCheck, EvidenceArtifactCheckView,
    EvidenceArtifactRepairAction, EvidenceArtifactRepairActionView, EvidenceArtifactStatus,
    ObservedFile, ObservedFileView,
};
use crate::dup::Dup;
use crate::outcome::{borrowed, copy_text, outcome, trim_nonblank, trimmed_nonblank};
use crate::storage::{
    ClientBindingProofLevel, StorageError, StoredClientBindingProof, StoredClientBindingProofView,
};
use crate::text::{lower, lowered, nil, none, same, same_list, trimmed, with, Words};
use vstd::prelude::*;

verus! {

/// The repair is up to the operator: only the client can make that evidence.
pub open spec fn needs_operator(level: ClientBindingProofLevel, kind: Seq<char>) -> bool {
    match level {
        ClientBindingProofLevel::ObservedAppHook => kind == "event_jsonl"@ || kind
            == "installed_config"@,
        ClientBindingProofLevel::ObservedInClientRender => kind == "render_evidence"@,
        ClientBindingProofLevel::ObservedReviewAction => kind == "review_action_report"@,
        _ => false,
    }
}

pub fn evidence_artifact_repair_requires_operator_action(
    level: ClientBindingProofLevel,
    kind: &str,
) -> (r: bool)
    ensures
        r == needs_operator(level, kind@),
{
    match level {
        ClientBindingProofLevel::ObservedAppHook => same(kind, "event_jsonl") || same(
            kind,
            "installed_config",
        ),
        ClientBindingProofLevel::ObservedInClientRender => same(kind, "render_evidence"),
        ClientBindingProofLevel::ObservedReviewAction => same(kind, "review_action_report"),
        _ => false,
    }
}

pub const RECAPTURE_RENDER: &'static str =
    "Re-capture a structured soma.in_client_render_evidence.v1 artifact after the private client visibly renders the current review surface, then re-record observed_in_client_render with explicit operator confirmation.";

pub const REDO_REVIEW_ACTION: &'static str =
    "Execute a currently rendered review control with non-cloud user/tool/local/correction evidence, save the storage-gated review-action report, then re-record observed_review_action with explicit operator confirmation.";

pub const TRIGGER_HOOK_AGAIN: &'static str =
    "Trigger the real private client hook again, drain the adapter spool, then re-record observed_app_hook only after matching event_source, binding_nonce, writer metadata, temporal binding, and explicit operator confirmation.";

pub const RECHECK_CONFIG: &'static str =
    "Re-check or reinstall the private client binding config before recording app-hook/render/review-action proof against a fresh installed-config artifact.";

pub const INSPECT_MANIFEST: &'static str =
    "Inspect the changed binding manifest and re-record reference or stronger proof only after confirming the current manifest is the intended contract.";

pub const RESTORE_MANIFEST: &'static str =
    "Restore or locate the binding manifest, then rerun the proof-session before claiming client readiness.";

pub const INSPECT_EVENTS: &'static str =
    "The event JSONL no longer matches the stored proof prefix; inspect the event file and record fresh proof from a valid private-client event if needed.";

pub const RESTORE_EVENTS: &'static str =
    "Restore or regenerate the event JSONL evidence through the client wrapper before recording any stronger private-client proof.";

pub const RESTORE_CONFIG: &'static str =
    "Restore, regenerate, or re-check the installed client binding config before recording proof that depends on it.";

pub const REBUILD_RENDER: &'static str =
    "Rebuild render evidence from a fresh visible client render before relying on observed_in_client_render proof.";

pub const REGENERATE_ACTION: &'static str =
    "Regenerate a storage-gated review-action report from a visible rendered control before relying on observed_review_action proof.";

pub const INSPECT_ARTIFACT: &'static str =
    "Inspect the stale artifact and follow the proof-session runbook before relying on this proof row.";

/// What to do about an evidence file.
pub open spec fn repair_intent(
    level: ClientBindingProofLevel,
    kind: Seq<char>,
    status: EvidenceArtifactStatus,
) -> Seq<char> {
    let changed = status == EvidenceArtifactStatus::Changed;
    if level == ClientBindingProofLevel::ObservedInClientRender && kind == "render_evidence"@ {
        RECAPTURE_RENDER@
    } else if level == ClientBindingProofLevel::ObservedReviewAction && kind
        == "review_action_report"@ {
        REDO_REVIEW_ACTION@
    } else if level == ClientBindingProofLevel::ObservedAppHook && kind == "event_jsonl"@ {
        TRIGGER_HOOK_AGAIN@
    } else if level == ClientBindingProofLevel::ObservedAppHook && kind == "installed_config"@ {
        RECHECK_CONFIG@
    } else if kind == "manifest"@ {
        if changed {
            INSPECT_MANIFEST@
        } else {
            RESTORE_MANIFEST@
        }
    } else if kind == "event_jsonl"@ {
        if changed {
            INSPECT_EVENTS@
        } else {
            RESTORE_EVENTS@
        }
    } else if kind == "installed_config"@ {
        RESTORE_CONFIG@
    } else if kind == "render_evidence"@ {
        REBUILD_RENDER@
    } else if kind == "review_action_report"@ {
        REGENERATE_ACTION@
    } else {
        INSPECT_ARTIFACT@
    }
}

pub fn evidence_artifact_repair_intent(
    level: ClientBindingProofLevel,
    kind: &str,
    status: EvidenceArtifactStatus,
) -> (r: &'static str)
    ensures
        r@ == repair_intent(level, kind@, status),
{
    let changed = match status {
        EvidenceArtifactStatus::Changed => true,
        _ => false,
    };
    match level {
        ClientBindingProofLevel::ObservedInClientRender => {
            if same(kind, "render_evidence") {
                return RECAPTURE_RENDER;
            }
        },
        ClientBindingProofLevel::ObservedReviewAction => {
            if same(kind, "review_action_report") {
                return REDO_REVIEW_ACTION;
            }
        },
        ClientBindingProofLevel::ObservedAppHook => {
            if same(kind, "event_jsonl") {
                return TRIGGER_HOOK_AGAIN;
            }
            if same(kind, "installed_config") {
                return RECHECK_CONFIG;
            }
        },
        _ => {},
    }
    if same(kind, "manifest") {
        if changed {
            INSPECT_MANIFEST
        } else {
            RESTORE_MANIFEST
        }
    } else if same(kind, "event_jsonl") {
        if changed {
            INSPECT_EVENTS
        } else {
            RESTORE_EVENTS
        }
    } else if same(kind, "installed_config") {
        RESTORE_CONFIG
    } else if same(kind, "render_evidence") {
        REBUILD_RENDER
    } else if same(kind, "review_action_report") {
        REGENERATE_ACTION
    } else {
        INSPECT_ARTIFACT
    }
}

pub const REPAIR_SOURCE: &'static str =
    "soma.adapter_binding_proof.artifact_replay_repair_action.v1";

pub const REPAIR_BOUNDARY: &'static str =
    "artifact_replay_repair_action_is_read_only: it identifies stale or changed proof artifacts and points back to the proof-session runbook; it records no proof row, creates no verification event, promotes no cloud draft, applies no proposal, and cannot replace fresh private-client evidence plus explicit operator confirmation";

/// The repair of one evidence file.
pub open spec fn repair_of(
    p: ClientBindingEvidenceArtifactVerificationView,
    c: EvidenceArtifactCheckView,
) -> EvidenceArtifactRepairActionView {
    EvidenceArtifactRepairActionView {
        source: REPAIR_SOURCE@,
        proof_id: p.proof_id,
        client: p.client,
        proof_level: p.proof_level,
        artifact_kind: c.kind,
        status: c.status,
        stale_path: c.path,
        intent: repair_intent(p.proof_level, c.kind, c.status),
        command: nil().push("soma"@).push("adapter-binding-proof"@).push("--proof-session"@).push(
            "--client"@,
        ).push(p.client).push("--json"@),
        records_proof: false,
        requires_operator_action: needs_operator(p.proof_level, c.kind),
        trust_boundary: REPAIR_BOUNDARY@,
    }
}

fn make_repair(
    p: &ClientBindingEvidenceArtifactVerification,
    c: &EvidenceArtifactCheck,
) -> (r: EvidenceArtifactRepairAction)
    ensures
        r.deep_view() == repair_of(p.deep_view(), c.deep_view()),
{
    EvidenceArtifactRepairAction {
        source: REPAIR_SOURCE,
        proof_id: p.proof_id,
        client: p.client.clone(),
        proof_level: p.proof_level,
        artifact_kind: c.kind.clone(),
        status: c.status,
        stale_path: copy_text(&c.path),
        intent: evidence_artifact_repair_intent(
            p.proof_level,
            c.kind.as_str(),
            c.status,
        ).to_string(),
        command: Words::new().w("soma").w("adapter-binding-proof").w("--proof-session").w(
            "--client",
        ).w(p.client.as_str()).w("--json").done(),
        records_proof: false,
        requires_operator_action: evidence_artifact_repair_requires_operator_action(
            p.proof_level,
            c.kind.as_str(),
        ),
        trust_boundary: REPAIR_BOUNDARY.to_string(),
    }
}

/// The repairs for the first `k` evidence files of a proof.
pub open spec fn repairs_of(p: ClientBindingEvidenceArtifactVerificationView, k: nat) -> Seq<
    EvidenceArtifactRepairActionView,
>
    decreases k,
{
    if k == 0 || k > p.artifact_checks.len() {
        Seq::empty()
    } else {
        let c = p.artifact_checks[k - 1];
        let front = repairs_of(p, (k - 1) as nat);
        if is_verified(c.status) {
            front
        } else {
            front.push(repair_of(p, c))
        }
    }
}

/// A repair for each evidence file that is not verified, proof by proof.
pub open spec fn repairs(proofs: Seq<ClientBindingEvidenceArtifactVerificationView>) -> Seq<
    EvidenceArtifactRepairActionView,
>
    decreases proofs.len(),
{
    if proofs.len() == 0 {
        Seq::empty()
    } else {
        repairs(proofs.drop_last()) + repairs_of(
            proofs.last(),
            proofs.last().artifact_checks.len(),
        )
    }
}

pub fn evidence_artifact_repair_actions(
    proofs: &Vec<ClientBindingEvidenceArtifactVerification>,
) -> (r: Vec<EvidenceArtifactRepairAction>)
    ensures
        r.deep_view() == repairs(proofs.deep_view()),
{
    let ghost all = proofs.deep_view();
    let mut out: Vec<EvidenceArtifactRepairAction> = none();
    let mut i: usize = 0;
    while i < proofs.len()
        invariant
            i <= proofs.len(),
            all == proofs.deep_view(),
            out.deep_view() == repairs(all.take(i as int)),
        decreases proofs.len() - i,
    {
        assert(all.take(i + 1).drop_last() =~= all.take(i as int));
        assert(all.take(i + 1).last() == proofs[i as int].deep_view());
        let p = &proofs[i];
        let ghost before = out.deep_view();
        let ghost pv = p.deep_view();
        let mut k: usize = 0;
        assert(before + repairs_of(pv, 0) =~= before);
        while k < p.artifact_checks.len()
            invariant
                k <= p.artifact_checks.len(),
                pv == p.deep_view(),
                pv.artifact_checks.len() == p.artifact_checks.len(),
                out.deep_view() == before + repairs_of(pv, k as nat),
            decreases p.artifact_checks.len() - k,
        {
            assert(pv.artifact_checks[k as int] == p.artifact_checks[k as int].deep_view());
            if !evidence_artifact_status_is_verified(p.artifact_checks[k].status) {
                out = with(out, make_repair(p, &p.artifact_checks[k]));
                assert(out.deep_view() =~= before + repairs_of(pv, (k + 1) as nat));
            }
            k = k + 1;
        }
        i = i + 1;
    }
    assert(all.take(i as int) =~= all);
    out
}

/// The commands without repetitions: of equal ones the first stays.
pub open spec fn unique_commands(commands: Seq<Seq<Seq<char>>>) -> Seq<Seq<Seq<char>>>
    decreases commands.len(),
{
    if commands.len() == 0 {
        Seq::empty()
    } else {
        let front = unique_commands(commands.drop_last());
        if front.contains(commands.last()) {
            front
        } else {
            front.push(commands.last())
        }
    }
}

fn has_command(list: &Vec<Vec<String>>, command: &Vec<String>) -> (r: bool)
    ensures
        r == list.deep_view().contains(command.deep_view()),
{
    let mut i: usize = 0;
    while i < list.len()
        invariant
            i <= list.len(),
            forall|j: int| 0 <= j < i ==> list.deep_view()[j] != command.deep_view(),
        decreases list.len() - i,
    {
        if same_list(&list[i], command) {
            assert(list.deep_view()[i as int] == command.deep_view());
            return true;
        }
        i = i + 1;
    }
    false
}

pub fn dedup_command_lists(commands: &Vec<Vec<String>>) -> (r: Vec<Vec<String>>)
    ensures
        r.deep_view() == unique_commands(commands.deep_view()),
{
    let ghost all = commands.deep_view();
    let mut out: Vec<Vec<String>> = none();
    let mut i: usize = 0;
    while i < commands.len()
        invariant
            i <= commands.len(),
            all == commands.deep_view(),
            out.deep_view() == unique_commands(all.take(i as int)),
        decreases commands.len() - i,
    {
        assert(all.take(i + 1).drop_last() =~= all.take(i as int));
        assert(all.take(i + 1).last() == commands[i as int].deep_view());
        if !has_command(&out, &commands[i]) {
            out = with(out, commands[i].dup());
        }
        i = i + 1;
    }
    assert(all.take(i as int) =~= all);
    out
}

pub open spec fn repair_commands(actions: Seq<EvidenceArtifactRepairActionView>) -> Seq<
    Seq<Seq<char>>,
> {
    Seq::new(actions.len(), |i: int| actions[i].command)
}

fn commands_of(actions: &Vec<EvidenceArtifactRepairAction>) -> (r: Vec<Vec<String>>)
    ensures
        r.deep_view() == repair_commands(actions.deep_view()),
{
    let mut out: Vec<Vec<String>> = none();
    let mut i: usize = 0;
    while i < actions.len()
        invariant
            i <= actions.len(),
            out.deep_view() =~= repair_commands(actions.deep_view()).take(i as int),
        decreases actions.len() - i,
    {
        assert(actions.deep_view()[i as int] == actions[i as int].deep_view());
        out = with(out, actions[i].command.dup());
        i = i + 1;
    }
    assert(repair_commands(actions.deep_view()).take(i as int) =~= repair_commands(
        actions.deep_view(),
    ));
    out
}

/// What comes after the evidence files were compared.
pub open spec fn replay_steps(all: bool, any_repair: bool) -> Seq<Seq<char>> {
    if all {
        nil().push("stored_artifact_replay_passed"@).push(
            "rerun_client_binding_status_or_hardening_report_if_release_gate_is_still_blocked"@,
        )
    } else if !any_repair {
        nil().push(
            "inspect_missing_or_changed_artifact_rows_before_trusting_private_client_readiness"@,
        ).push("rerun_soma_adapter_binding_proof_proof_session_for_the_affected_client"@)
    } else {
        nil().push("follow_repair_actions_for_each_missing_or_changed_artifact"@).push(
            "re_capture_real_private_client_evidence_before_recording_new_release_grade_proof_rows"@,
        ).push("rerun_verify_evidence_artifacts_after_re_recording_fresh_proof_rows"@)
    }
}

pub fn evidence_artifact_replay_next_steps(
    all_artifacts_verified: bool,
    repair_actions: &Vec<EvidenceArtifactRepairAction>,
) -> (r: Vec<String>)
    ensures
        r.deep_view() == replay_steps(all_artifacts_verified, repair_actions.len() > 0),
{
    if all_artifacts_verified {
        Words::new().w("stored_artifact_replay_passed").w(
            "rerun_client_binding_status_or_hardening_report_if_release_gate_is_still_blocked",
        ).done()
    } else if repair_actions.len() == 0 {
        Words::new().w(
            "inspect_missing_or_changed_artifact_rows_before_trusting_private_client_readiness",
        ).w("rerun_soma_adapter_binding_proof_proof_session_for_the_affected_client").done()
    } else {
        Words::new().w("follow_repair_actions_for_each_missing_or_changed_artifact").w(
            "re_capture_real_private_client_evidence_before_recording_new_release_grade_proof_rows",
        ).w("rerun_verify_evidence_artifacts_after_re_recording_fresh_proof_rows").done()
    }
}

// ---------------------------------------------------------------------------
// The commands
// ---------------------------------------------------------------------------

/// The client that a command is for.
pub open spec fn requested(client: Option<Seq<char>>) -> Option<Seq<char>> {
    match trimmed_nonblank(client) {
        Some(c) => Some(lowered(c)),
        None => None,
    }
}

pub fn requested_client(client: Option<&str>) -> (r: Option<String>)
    ensures
        r.deep_view() == requested(client.deep_view()),
{
    match trim_nonblank(client) {
        Some(c) => Some(lower(c)),
        None => None,
    }
}

/// How many proofs are told of: at least one, and at most 200.
pub open spec fn clamped(limit: usize) -> usize {
    if limit < 1 {
        1
    } else if limit > 200 {
        200
    } else {
        limit
    }
}

pub fn clamp_limit(limit: usize) -> (r: usize)
    ensures
        r == clamped(limit),
{
    if limit < 1 {
        1
    } else if limit > 200 {
        200
    } else {
        limit
    }
}

/// The proofs, or the failure of the store.
pub open spec fn stored_proofs(
    stored: Result<Vec<StoredClientBindingProof>, StorageError>,
) -> Result<Seq<StoredClientBindingProofView>, BindingFault> {
    match stored {
        Ok(p) => Ok(p.deep_view()),
        Err(e) => Err(BindingFault::Storage(e.message@)),
    }
}

/// Lists the proofs that the store gave.
pub fn run_list_blocking(
    args: &AdapterBindingProofArgs,
    stored: Result<Vec<StoredClientBindingProof>, StorageError>,
) -> (r: Result<AdapterBindingProofListOutcome, AdapterBindingProofError>)
    ensures
        outcome(r) == match stored_proofs(stored) {
            Ok(proofs) => Ok(
                AdapterBindingProofListOutcomeView {
                    client: requested(args.deep_view().client),
                    limit: clamped(args.limit),
                    proofs,
                },
            ),
            Err(f) => Err(f),
        },
{
    match stored {
        Ok(proofs) => Ok(
            AdapterBindingProofListOutcome {
                client: requested_client(borrowed(&args.client)),
                limit: clamp_limit(args.limit),
                proofs,
            },
        ),
        Err(e) => Err(AdapterBindingProofError::Storage(e)),
    }
}

/// How many of the evidence files of a proof are not verified.
pub open spec fn failing(checks: Seq<EvidenceArtifactCheckView>) -> nat
    decreases checks.len(),
{
    if checks.len() == 0 {
        0
    } else {
        failing(checks.drop_last()) + if is_verified(checks.last().status) {
            0nat
        } else {
            1nat
        }
    }
}

/// How many evidence files are not verified.
pub open spec fn all_failing(proofs: Seq<ClientBindingEvidenceArtifactVerificationView>) -> nat
    decreases proofs.len(),
{
    if proofs.len() == 0 {
        0
    } else {
        all_failing(proofs.drop_last()) + failing(proofs.last().artifact_checks)
    }
}

/// Each evidence file that is not verified has its repair.
pub proof fn law_every_failure_has_a_repair(
    proofs: Seq<ClientBindingEvidenceArtifactVerificationView>,
)
    ensures
        repairs(proofs).len() == all_failing(proofs),
    decreases proofs.len(),
{
    if proofs.len() > 0 {
        law_every_failure_has_a_repair(proofs.drop_last());
        lemma_repairs_len(proofs.last(), proofs.last().artifact_checks.len());
        let checks = proofs.last().artifact_checks;
        assert(checks.take(checks.len() as int) =~= checks);
    }
}

proof fn lemma_repairs_len(p: ClientBindingEvidenceArtifactVerificationView, k: nat)
    requires
        k <= p.artifact_checks.len(),
    ensures
        repairs_of(p, k).len() == failing(p.artifact_checks.take(k as int)),
    decreases k,
{
    if k > 0 {
        lemma_repairs_len(p, (k - 1) as nat);
        assert(p.artifact_checks.take(k as int).drop_last() =~= p.artifact_checks.take(k - 1));
    }
}

/// Nothing is missing: there are proofs, and each has its evidence files, all verified.
pub open spec fn all_proofs_verified(
    proofs: Seq<ClientBindingEvidenceArtifactVerificationView>,
) -> bool {
    proofs.len() > 0 && forall|i: int|
        0 <= i < proofs.len() ==> (#[trigger] proofs[i]).all_artifacts_verified
}

fn every_proof_verified(proofs: &Vec<ClientBindingEvidenceArtifactVerification>) -> (r: bool)
    ensures
        r == all_proofs_verified(proofs.deep_view()),
{
    assert(proofs.deep_view().len() == proofs.len());
    if proofs.len() == 0 {
        return false;
    }
    let mut i: usize = 0;
    while i < proofs.len()
        invariant
            i <= proofs.len(),
            proofs.deep_view().len() == proofs.len(),
            forall|j: int|
                0 <= j < i ==> (#[trigger] proofs.deep_view()[j]).all_artifacts_verified,
        decreases proofs.len() - i,
    {
        assert(proofs.deep_view()[i as int].all_artifacts_verified
            == proofs[i as int].all_artifacts_verified);
        if !proofs[i].all_artifacts_verified {
            return false;
        }
        i = i + 1;
    }
    true
}

pub const REPLAY_BOUNDARY: &'static str =
    "evidence_artifact_replay_is_read_only: compares stored path/byte_length/fingerprint; event_jsonl artifacts may grow append-only when the recorded prefix fingerprint still matches, while other artifacts require exact replay; repair_actions and recovery_commands are read-only handoffs back to proof-session runbooks and record no proof row; it records no verification event, promotes no claim, applies no proposal, and does not prove private app installation beyond the stored proof row";

/// What became of the stored evidence files.
pub open spec fn artifact_report(
    args: AdapterBindingProofArgsView,
    proofs: Seq<StoredClientBindingProofView>,
    files: Seq<ObservedFileView>,
) -> AdapterBindingEvidenceArtifactVerificationOutcomeView {
    let v = verifications(proofs, files);
    let actions = repairs(v);
    AdapterBindingEvidenceArtifactVerificationOutcomeView {
        client: requested(args.client),
        proof_id: args.proof_id,
        limit: clamped(args.limit),
        proofs_found: proofs.len() as usize,
        all_artifacts_verified: all_proofs_verified(v),
        failing_artifact_count: actions.len() as usize,
        repair_actions: actions,
        recovery_commands: unique_commands(repair_commands(actions)),
        next_steps: replay_steps(all_proofs_verified(v), actions.len() > 0),
        trust_boundary: REPLAY_BOUNDARY@,
        proofs: v,
    }
}

/// Compares the evidence files of the stored proofs with their records.
pub fn run_verify_evidence_artifacts_blocking(
    args: &AdapterBindingProofArgs,
    stored: Result<Vec<StoredClientBindingProof>, StorageError>,
    files: &Vec<ObservedFile>,
) -> (r: Result<AdapterBindingEvidenceArtifactVerificationOutcome, AdapterBindingProofError>)
    ensures
        outcome(r) == match stored_proofs(stored) {
            Ok(proofs) => Ok(artifact_report(args.deep_view(), proofs, files.deep_view())),
            Err(f) => Err(f),
        },
{
    let stored = match stored {
        Ok(p) => p,
        Err(e) => return Err(AdapterBindingProofError::Storage(e)),
    };
    let proofs = verify_all(&stored, files);
    let all = every_proof_verified(&proofs);
    let actions = evidence_artifact_repair_actions(&proofs);
    let recovery_commands = dedup_command_lists(&commands_of(&actions));
    let next_steps = evidence_artifact_replay_next_steps(all, &actions);
    assert(proofs.deep_view().len() == proofs.len());
    assert(actions.deep_view().len() == actions.len());
    assert(stored.deep_view().len() == stored.len());
    Ok(
        AdapterBindingEvidenceArtifactVerificationOutcome {
            client: requested_client(borrowed(&args.client)),
            proof_id: args.proof_id,
            limit: clamp_limit(args.limit),
            proofs_found: proofs.len(),
            all_artifacts_verified: all,
            failing_artifact_count: actions.len(),
            repair_actions: actions,
            recovery_commands,
            next_steps,
            trust_boundary: REPLAY_BOUNDARY.to_string(),
            proofs,
        },
    )
}

/// A replay names each file that is no longer what it was, once and in order, with its
/// proof, client, level and path; it records nothing. A file that still is what it was gets
/// no action.
pub proof fn law_each_failing_file_is_named(proofs: Seq<ClientBindingEvidenceArtifactVerificationView>)
    ensures
        forall|i: int, j: int|
            #![trigger proofs[i].artifact_checks[j]]
            0 <= i < proofs.len() && 0 <= j < proofs[i].artifact_checks.len() && !is_verified(
                proofs[i].artifact_checks[j].status,
            ) ==> repairs(proofs).contains(repair_of(proofs[i], proofs[i].artifact_checks[j])),
        repairs(proofs).len() == all_failing(proofs),
        forall|k: int|
            0 <= k < repairs(proofs).len() ==> !is_verified((#[trigger] repairs(proofs)[k]).status)
                && !repairs(proofs)[k].records_proof,
    decreases proofs.len(),
{
    if proofs.len() > 0 {
        let front = proofs.drop_last();
        let last = proofs.last();
        let n = last.artifact_checks.len();
        law_each_failing_file_is_named(front);
        lemma_named(last, n);
        assert(last.artifact_checks.take(n as int) =~= last.artifact_checks);
        let a = repairs(front);
        let b = repairs_of(last, n);
        assert(repairs(proofs) == a + b);
        assert forall|i: int, j: int|
            #![trigger proofs[i].artifact_checks[j]]
            0 <= i < proofs.len() && 0 <= j < proofs[i].artifact_checks.len() && !is_verified(
                proofs[i].artifact_checks[j].status,
            ) implies (a + b).contains(repair_of(proofs[i], proofs[i].artifact_checks[j])) by {
            let x = repair_of(proofs[i], proofs[i].artifact_checks[j]);
            if i < front.len() {
                assert(front[i] == proofs[i]);
                assert(!is_verified(front[i].artifact_checks[j].status));
                let k = choose|k: int| 0 <= k < a.len() && a[k] == x;
                assert((a + b)[k] == x);
            } else {
                assert(proofs[i] == last);
                let k = choose|k: int| 0 <= k < b.len() && b[k] == x;
                assert((a + b)[a.len() + k] == x);
            }
        }
        assert forall|k: int| 0 <= k < (a + b).len() implies !is_verified(
            (#[trigger] (a + b)[k]).status,
        ) && !(a + b)[k].records_proof by {
            if k < a.len() {
                assert((a + b)[k] == a[k]);
            } else {
                assert((a + b)[k] == b[k - a.len()]);
            }
        }
    }
}

proof fn lemma_named(p: ClientBindingEvidenceArtifactVerificationView, k: nat)
    requires
        k <= p.artifact_checks.len(),
    ensures
        forall|j: int|
            0 <= j < k && !is_verified((#[trigger] p.artifact_checks[j]).status) ==> repairs_of(
                p,
                k,
            ).contains(repair_of(p, p.artifact_checks[j])),
        repairs_of(p, k).len() == failing(p.artifact_checks.take(k as int)),
        forall|i: int|
            0 <= i < repairs_of(p, k).len() ==> !is_verified(
                (#[trigger] repairs_of(p, k)[i]).status,
            ) && !repairs_of(p, k)[i].records_proof,
    decreases k,
{
    if k > 0 {
        lemma_named(p, (k - 1) as nat);
        let c = p.artifact_checks[k - 1];
        let front = repairs_of(p, (k - 1) as nat);
        let all = repairs_of(p, k);
        assert(p.artifact_checks.take(k as int).drop_last() =~= p.artifact_checks.take(k - 1));
        assert(p.artifact_checks.take(k as int).last() == c);
        assert forall|j: int|
            0 <= j < k && !is_verified((#[trigger] p.artifact_checks[j]).status) implies all.contains(
            repair_of(p, p.artifact_checks[j]),
        ) by {
            let x = repair_of(p, p.artifact_checks[j]);
            if j < k - 1 {
                let i = choose|i: int| 0 <= i < front.len() && front[i] == x;
                assert(all[i] == x);
            } else {
                assert(all[all.len() - 1] == x);
            }
        }
    }
}

/// What a replay tells of a file is of that file and its proof, and the operator is asked
/// exactly for what only a running client can give: its events and configuration for the
/// hook, its shown review, its action.
pub proof fn law_actions_are_of_their_file(
    p: ClientBindingEvidenceArtifactVerificationView,
    c: EvidenceArtifactCheckView,
)
    ensures
        ({
            let a = repair_of(p, c);
            &&& a.proof_id == p.proof_id && a.client == p.client && a.proof_level == p.proof_level
            &&& a.artifact_kind == c.kind && a.status == c.status && a.stale_path == c.path
            &&& a.command == seq![
                "soma"@,
                "adapter-binding-proof"@,
                "--proof-session"@,
                "--client"@,
                p.client,
                "--json"@,
            ]
            &&& a.requires_operator_action <==> match p.proof_level {
                ClientBindingProofLevel::ObservedAppHook => c.kind == "event_jsonl"@ || c.kind
                    == "installed_config"@,
                ClientBindingProofLevel::ObservedInClientRender => c.kind == "render_evidence"@,
                ClientBindingProofLevel::ObservedReviewAction => c.kind == "review_action_report"@,
                ClientBindingProofLevel::ReferenceBinding => false,
                ClientBindingProofLevel::ObservedEventFile => false,
            }
        }),
{
}

/// A replay tells of the proofs that were asked for and passes iff there are some and every
/// one passes; what is to be done next follows from that. At least one proof is asked for and
/// at most two hundred; a client is asked for in lower case.
pub proof fn law_replays_pass_iff_all_proofs_do(
    args: AdapterBindingProofArgsView,
    proofs: Seq<StoredClientBindingProofView>,
    files: Seq<ObservedFileView>,
)
    requires
        proofs.len() <= usize::MAX,
    ensures
        ({
            let r = artifact_report(args, proofs, files);
            &&& r.proof_id == args.proof_id && r.proofs_found == proofs.len()
            &&& 1 <= r.limit <= 200 && (1 <= args.limit <= 200 ==> r.limit == args.limit)
            &&& args.limit > 200 ==> r.limit == 200
            &&& args.client is None ==> r.client is None
            &&& (args.client matches Some(c) && trimmed(c).len() > 0) ==> r.client == Some(
                lowered(trimmed(args.client->0)),
            )
            &&& r.all_artifacts_verified <==> r.proofs.len() > 0 && forall|i: int|
                0 <= i < r.proofs.len() ==> (#[trigger] r.proofs[i]).all_artifacts_verified
            &&& r.all_artifacts_verified ==> r.next_steps[0] == "stored_artifact_replay_passed"@
            &&& !r.all_artifacts_verified && r.repair_actions.len() > 0 ==> r.next_steps[0]
                == "follow_repair_actions_for_each_missing_or_changed_artifact"@
            &&& !r.all_artifacts_verified && r.repair_actions.len() == 0 ==> r.next_steps[0]
                == "inspect_missing_or_changed_artifact_rows_before_trusting_private_client_readiness"@
        }),
{
}

}
