//! What a proof session tells, also where the store cannot be read.
use super::bundle::{bundle, evidence_bundle, BundleInput};
use super::card::{
    card_of, client_binding_app_hook_evidence_summary, hook_summary, proof_session_operator_card,
    CardInput,
};
use super::check::{
    checked_client, checked_source, config_root_of, find_manifest_path, manifest_path_of,
    resolve_client_for_check, resolve_config_root, resolve_expected_event_source_for_check,
};
use super::collector::{collector_state, TcpProbe};
use super::disk::{Disk, DiskView};
use super::flow::step;
use super::labels::{
    action_label, next_action, proof_session_operator_next_action_id,
    proof_session_operator_next_action_label,
};
use super::nonce::{nonce_allowed, nonce_view, resolve_binding_nonce_for_prepare};
use super::places::{durable_client_artifact_dir, durable_dir, DirSeen, ANY_RUN};
use super::repair::stored_proofs;
use super::session::{
    client_binding_proof_session_runbook, find_client_status, required_levels,
    required_private_client_proof_levels, runbook_of, status_of_client,
};
use super::types::{
    malformed, refuse, AdapterBindingEvidenceBundleOutcome, AdapterBindingEvidenceBundleOutcomeView,
    AdapterBindingProofArgs, AdapterBindingProofArgsView, AdapterBindingProofError,
    AdapterBindingProofSessionOutcome, AdapterBindingProofSessionOutcomeView, BindingFault,
    ClientBindingArtifactFailure, ClientBindingArtifactFailureView, ClientBindingOperatorFlowStep,
    ClientBindingOperatorFlowStepView, ClientBindingProofSession, ClientBindingProofSessionStage,
    ClientBindingProofSessionStageView, ClientBindingProofSessionView, Host, HostView, ObservedFile,
};
use crate::dup::Dup;
use crate::number::{decimal, decimal_text};
use crate::outcome::{borrowed, outcome, trim_nonblank, trimmed_nonblank};
use crate::storage::{ClientBindingProofLevel, StorageError, StoredClientBindingProof};
use crate::path::{join, joined_path};
use crate::text::{cat2, cat3, cat5, nil, none, table, table_texts, with, with_text, Words};
use vstd::prelude::*;

verus! {

// ---------------------------------------------------------------------------
// With the store
// ---------------------------------------------------------------------------

pub const OUTCOME_BOUNDARY: &'static str =
    "client_binding_proof_session_outcome_is_read_only: composes stored proof readiness and currently supplied artifact readiness through the evidence bundle contract; writes no files, records no proof row, creates no verification event, promotes no cloud draft, applies no proposal, and does not prove private app installation, rendering, or review-action execution";

/// The failed evidence files of the client of a bundle.
pub open spec fn bundle_failures(b: AdapterBindingEvidenceBundleOutcomeView) -> Seq<
    ClientBindingArtifactFailureView,
> {
    match status_of_client(b.readiness.clients, b.client) {
        Some(s) => s.artifact_failures,
        None => Seq::empty(),
    }
}

fn find_bundle_failures(b: &AdapterBindingEvidenceBundleOutcome) -> (r: Vec<
    ClientBindingArtifactFailure,
>)
    ensures
        r.deep_view() == bundle_failures(b.deep_view()),
{
    match find_client_status(&b.readiness.clients, b.client.as_str()) {
        Some(s) => s.artifact_failures.dup(),
        None => none(),
    }
}

/// What the card of a bundle's session is made of.
pub open spec fn bundle_card(
    b: AdapterBindingEvidenceBundleOutcomeView,
    host: HostView,
) -> CardInput {
    let s = b.proof_session;
    let action = next_action(s.status, s.next_step_id);
    CardInput {
        client: b.client,
        status: s.status,
        gate: s.release_gate,
        action_id: action,
        label: action_label(action, b.client),
        next_step: s.next_step_id,
        operator_step: s.next_operator_step,
        next_command: s.next_command,
        ready: s.ready_for_private_client_claim,
        pending: s.pending_proof_levels,
        blocked: s.blocked_proof_levels,
        gaps: b.blocking_gaps,
        failures: bundle_failures(b),
        hook: hook_summary(
            b.client,
            b.event_jsonl_path,
            b.expected_event_source,
            b.binding_nonce,
            s.stages,
            b.operator_flow,
            b.continue_devdata_collector,
        ),
        host,
    }
}

/// What a session tells, from its bundle.
pub open spec fn told(b: AdapterBindingEvidenceBundleOutcomeView, host: HostView) ->
    AdapterBindingProofSessionOutcomeView {
    let s = b.proof_session;
    let x = bundle_card(b, host);
    let card = card_of(x);
    AdapterBindingProofSessionOutcomeView {
        client: b.client,
        manifest_path: b.manifest_path,
        expected_event_source: b.expected_event_source,
        binding_nonce: b.binding_nonce,
        generated_binding_nonce: b.generated_binding_nonce,
        config_root: b.config_root,
        proof_storage_status: "available"@,
        proof_storage_error: None,
        proof_storage_recovery_commands: Seq::empty(),
        status: s.status,
        release_gate: s.release_gate,
        ready_for_private_client_claim: s.ready_for_private_client_claim,
        operator_next_action_id: x.action_id,
        operator_next_action_label: x.label,
        headline: card.headline,
        primary_next_step: card.primary_next_step,
        primary_next_command: card.primary_next_command,
        proof_session_next_step_id: card.proof_session_next_step_id,
        next_operator_step_title: card.next_operator_step_title,
        artifact_failure_count: card.artifact_failure_count,
        artifact_failures: card.artifact_failures,
        safe_to_claim: card.safe_to_claim,
        blocked_claims: card.blocked_claims,
        app_hook_evidence: x.hook,
        external_action_safety: card.external_action_safety,
        external_action: card.external_action,
        operator_card: card,
        next_step_id: s.next_step_id,
        next_command: s.next_command,
        next_mcp_call: s.next_mcp_call,
        next_operator_step: s.next_operator_step,
        runbook_schema: s.runbook.schema,
        pending_proof_levels: s.pending_proof_levels,
        blocked_proof_levels: s.blocked_proof_levels,
        proof_session: s,
        blocking_gaps: b.blocking_gaps,
        operator_flow: b.operator_flow,
        proofs_found: b.readiness.proofs_found,
        ready_client_count: if s.ready_for_private_client_claim {
            1
        } else {
            0
        },
        installed_config_eligible_candidates: b.installed_config_discovery.eligible_candidates,
        setup_artifact_eligible_candidates:
            b.installed_config_discovery.setup_artifact_eligible_candidates,
        private_client_target_eligible_candidates:
            b.installed_config_discovery.private_client_target_eligible_candidates,
        eligible_setup_artifact_paths: b.installed_config_discovery.eligible_setup_artifact_paths,
        eligible_private_client_target_paths:
            b.installed_config_discovery.eligible_private_client_target_paths,
        private_client_target_candidate_paths:
            b.installed_config_discovery.private_client_target_candidate_paths,
        trust_boundary: OUTCOME_BOUNDARY@,
    }
}

/// What a session tells, from its bundle.
pub fn proof_session_of_bundle(
    bundle: AdapterBindingEvidenceBundleOutcome,
    host: &Host,
) -> (r: AdapterBindingProofSessionOutcome)
    ensures
        r.deep_view() == told(bundle.deep_view(), host.deep_view()),
{
    let ghost b = bundle.deep_view();
    let failures = find_bundle_failures(&bundle);
    let hook = client_binding_app_hook_evidence_summary(
        bundle.client.as_str(),
        borrowed(&bundle.event_jsonl_path),
        bundle.expected_event_source.as_str(),
        bundle.binding_nonce.as_str(),
        &bundle.proof_session,
        &bundle.operator_flow,
        &bundle.continue_devdata_collector,
    );
    let s = bundle.proof_session;
    let action = proof_session_operator_next_action_id(
        s.status.as_str(),
        borrowed(&s.next_step_id),
    );
    let label = proof_session_operator_next_action_label(
        action.as_str(),
        bundle.client.as_str(),
    );
    let step = match &s.next_operator_step {
        Some(step) => Some(step),
        None => None,
    };
    let card = proof_session_operator_card(
        bundle.client.as_str(),
        s.status.as_str(),
        s.release_gate.as_str(),
        action.as_str(),
        label.as_str(),
        borrowed(&s.next_step_id),
        step,
        &s.next_command,
        s.ready_for_private_client_claim,
        &s.pending_proof_levels,
        &s.blocked_proof_levels,
        &bundle.blocking_gaps,
        &failures,
        &hook,
        host,
    );
    assert(card.deep_view() == card_of(bundle_card(b, host.deep_view())));
    let discovered = bundle.installed_config_discovery;
    let ready = s.ready_for_private_client_claim;
    AdapterBindingProofSessionOutcome {
        client: bundle.client,
        manifest_path: bundle.manifest_path,
        expected_event_source: bundle.expected_event_source,
        binding_nonce: bundle.binding_nonce,
        generated_binding_nonce: bundle.generated_binding_nonce,
        config_root: bundle.config_root,
        proof_storage_status: "available".to_string(),
        proof_storage_error: None,
        proof_storage_recovery_commands: none(),
        status: s.status.clone(),
        release_gate: s.release_gate.clone(),
        ready_for_private_client_claim: ready,
        operator_next_action_id: action,
        operator_next_action_label: label,
        headline: card.headline.clone(),
        primary_next_step: card.primary_next_step.clone(),
        primary_next_command: card.primary_next_command.dup(),
        proof_session_next_step_id: card.proof_session_next_step_id.dup(),
        next_operator_step_title: card.next_operator_step_title.dup(),
        artifact_failure_count: card.artifact_failure_count,
        artifact_failures: card.artifact_failures.dup(),
        safe_to_claim: card.safe_to_claim.dup(),
        blocked_claims: card.blocked_claims.dup(),
        app_hook_evidence: hook,
        external_action_safety: card.external_action_safety.dup(),
        external_action: card.external_action.dup(),
        operator_card: card,
        next_step_id: s.next_step_id.dup(),
        next_command: s.next_command.dup(),
        next_mcp_call: s.next_mcp_call.dup(),
        next_operator_step: s.next_operator_step.dup(),
        runbook_schema: s.runbook.schema.clone(),
        pending_proof_levels: s.pending_proof_levels.dup(),
        blocked_proof_levels: s.blocked_proof_levels.dup(),
        proof_session: s,
        blocking_gaps: bundle.blocking_gaps,
        operator_flow: bundle.operator_flow,
        proofs_found: bundle.readiness.proofs_found,
        ready_client_count: if ready { 1 } else { 0 },
        installed_config_eligible_candidates: discovered.eligible_candidates,
        setup_artifact_eligible_candidates: discovered.setup_artifact_eligible_candidates,
        private_client_target_eligible_candidates:
            discovered.private_client_target_eligible_candidates,
        eligible_setup_artifact_paths: discovered.eligible_setup_artifact_paths,
        eligible_private_client_target_paths: discovered.eligible_private_client_target_paths,
        private_client_target_candidate_paths: discovered.private_client_target_candidate_paths,
        trust_boundary: OUTCOME_BOUNDARY.to_string(),
    }
}

// ---------------------------------------------------------------------------
// Without the store
// ---------------------------------------------------------------------------

pub const RESTORE_STEP: &'static str = "restore_client_binding_proof_storage_access";

pub const RESTORE_INTENT_END: &'static str = " app-hook/render/review-action readiness.";

pub const RESTORE_INTENT_MID: &'static str =
    "`). Use a readable SOMA_DB or diagnostic DB before claiming private ";

pub const RESTORE_BOUNDARY: &'static str =
    "proof_session_storage_recovery_step_is_read_only: reports unreadable proof storage and suggests diagnostic commands only; records no proof row, creates no verification event, installs no hook, and promotes no cloud draft";

pub const UNKNOWN_STAGE_BOUNDARY: &'static str =
    "proof_session_storage_unavailable_stage_is_read_only: storage must be readable before stored proof levels can be inspected or recorded; records no proof row, creates no verification event, installs no hook, and promotes no cloud draft";

pub const NO_STORE_CRITERIA: [&'static str; 4] = [
    "proof storage is readable from the current client/session",
    "observed_app_hook proof can be inspected before any app-hook readiness claim",
    "observed_in_client_render proof can be inspected before any in-client review claim",
    "observed_review_action proof can be inspected before any review-action claim",
];

pub const NO_STORE_SESSION_BOUNDARY: &'static str =
    "client_binding_proof_session_storage_unavailable_is_read_only: reports that proof storage could not be read; records no proof row, creates no verification event, installs no hook, applies no proposal, and promotes no cloud draft";

pub const NO_STORE_BOUNDARY: &'static str =
    "client_binding_proof_session_storage_unavailable_outcome_is_read_only: composes a degraded proof-session handoff after storage open failed; writes no files, records no proof row, creates no verification event, installs no hook, applies no proposal, and promotes no cloud draft";

/// A session command with a database.
pub open spec fn session_with_db(client: Seq<char>, db: Seq<char>) -> Seq<Seq<char>> {
    nil().push("soma"@).push("adapter-binding-proof"@).push("--proof-session"@).push(
        "--client"@,
    ).push(client).push("--db-path"@).push(db).push("--brief"@)
}

/// A database of this process alone, to look at proofs with where the store cannot be read.
pub open spec fn diagnostic_db(temp_dir: Seq<char>, pid: nat) -> Seq<char> {
    joined_path(
        temp_dir,
        "soma-client-binding-proof-session-diagnostic-"@ + decimal(pid) + ".db"@,
    )
}

pub fn proof_session_storage_diagnostic_db_path(temp_dir: &str, pid: u32) -> (r: String)
    ensures
        r@ == diagnostic_db(temp_dir@, pid as nat),
{
    join(
        temp_dir,
        cat3(
            "soma-client-binding-proof-session-diagnostic-",
            decimal_text(pid as u64).as_str(),
            ".db",
        ).as_str(),
    )
}

/// What may help where the store cannot be read.
pub open spec fn recovery_commands(client: Seq<char>, diagnostic_db: Seq<char>) -> Seq<
    Seq<Seq<char>>,
> {
    Seq::empty().push(session_with_db(client, diagnostic_db)).push(
        session_with_db(client, "<readable-soma.db>"@),
    ).push(
        nil().push("soma"@).push("clients"@).push("--client"@).push(client).push("--brief"@),
    ).push(nil().push("soma"@).push("diagnose"@))
}

fn make_session_with_db(client: &str, db: &str) -> (r: Vec<String>)
    ensures
        r.deep_view() == session_with_db(client@, db@),
{
    Words::new().w("soma").w("adapter-binding-proof").w("--proof-session").w("--client").w(
        client,
    ).w("--db-path").w(db).w("--brief").done()
}

pub fn proof_session_storage_recovery_commands(client: &str, diagnostic_db: &str) -> (r: Vec<
    Vec<String>,
>)
    ensures
        r.deep_view() == recovery_commands(client@, diagnostic_db@),
{
    let clients = Words::new().w("soma").w("clients").w("--client").w(client).w("--brief").done();
    let diagnose = Words::new().w("soma").w("diagnose").done();
    with(
        with(
            with(
                with(none(), make_session_with_db(client, diagnostic_db)),
                make_session_with_db(client, "<readable-soma.db>"),
            ),
            clients,
        ),
        diagnose,
    )
}

/// The step that restores the store.
pub open spec fn restore_step(
    client: Seq<char>,
    db_path: Seq<char>,
    error: Seq<char>,
    diagnostic_db: Seq<char>,
) -> ClientBindingOperatorFlowStepView {
    ClientBindingOperatorFlowStepView {
        id: RESTORE_STEP@,
        title: "Restore client binding proof storage access"@,
        intent: "SOMA cannot read `"@ + db_path + "` for client-binding proof rows (`"@ + error
            + RESTORE_INTENT_MID@ + client + RESTORE_INTENT_END@,
        command: Some(session_with_db(client, diagnostic_db)),
        mcp_call: None,
        requires_operator_action: false,
        records_proof: false,
        trust_boundary: RESTORE_BOUNDARY@,
    }
}

fn make_restore_step(client: &str, db_path: &str, error: &str, diagnostic_db: &str) -> (r:
    ClientBindingOperatorFlowStep)
    ensures
        r.deep_view() == restore_step(client@, db_path@, error@, diagnostic_db@),
{
    let mut intent = cat5(
        "SOMA cannot read `",
        db_path,
        "` for client-binding proof rows (`",
        error,
        RESTORE_INTENT_MID,
    );
    intent.append(client);
    intent.append(RESTORE_INTENT_END);
    step(
        RESTORE_STEP,
        "Restore client binding proof storage access",
        intent.as_str(),
        Some(make_session_with_db(client, diagnostic_db)),
        None,
        false,
        false,
        RESTORE_BOUNDARY,
    )
}

/// A level of which nothing is known.
pub open spec fn unknown_stage(level: ClientBindingProofLevel, reason: Seq<char>) ->
    ClientBindingProofSessionStageView {
    ClientBindingProofSessionStageView {
        proof_level: level,
        ledger_status: "unknown_storage_unavailable"@,
        artifact_status: None,
        ready_to_record_now: false,
        blocking_reasons: nil().push(reason),
        command: None,
        mcp_call: None,
        trust_boundary: UNKNOWN_STAGE_BOUNDARY@,
    }
}

fn make_unknown_stage(level: ClientBindingProofLevel, reason: &str) -> (r:
    ClientBindingProofSessionStage)
    ensures
        r.deep_view() == unknown_stage(level, reason@),
{
    ClientBindingProofSessionStage {
        proof_level: level,
        ledger_status: "unknown_storage_unavailable".to_string(),
        artifact_status: None,
        ready_to_record_now: false,
        blocking_reasons: with_text(none(), reason),
        command: None,
        mcp_call: None,
        trust_boundary: UNKNOWN_STAGE_BOUNDARY.to_string(),
    }
}

pub open spec fn unknown_stages(reason: Seq<char>) -> Seq<ClientBindingProofSessionStageView> {
    Seq::empty().push(unknown_stage(ClientBindingProofLevel::ObservedAppHook, reason)).push(
        unknown_stage(ClientBindingProofLevel::ObservedInClientRender, reason),
    ).push(unknown_stage(ClientBindingProofLevel::ObservedReviewAction, reason))
}

fn make_unknown_stages(reason: &str) -> (r: Vec<ClientBindingProofSessionStage>)
    ensures
        r.deep_view() == unknown_stages(reason@),
{
    with(
        with(
            with(none(), make_unknown_stage(ClientBindingProofLevel::ObservedAppHook, reason)),
            make_unknown_stage(ClientBindingProofLevel::ObservedInClientRender, reason),
        ),
        make_unknown_stage(ClientBindingProofLevel::ObservedReviewAction, reason),
    )
}

/// A session where the store cannot be read.
pub open spec fn storeless_session(
    client: Seq<char>,
    restore: ClientBindingOperatorFlowStepView,
    reason: Seq<char>,
    host: HostView,
) -> ClientBindingProofSessionView {
    let stages = unknown_stages(reason);
    let criteria = table(NO_STORE_CRITERIA);
    ClientBindingProofSessionView {
        client,
        status: "proof_storage_unavailable"@,
        release_gate: "fail"@,
        ready_for_private_client_claim: false,
        completed_proof_levels: Seq::empty(),
        pending_proof_levels: required_levels(),
        ready_to_record_proof_levels: Seq::empty(),
        blocked_proof_levels: required_levels(),
        next_step_id: Some(RESTORE_STEP@),
        next_command: restore.command,
        next_mcp_call: None,
        next_operator_step: Some(restore),
        external_action: None,
        stages,
        runbook: runbook_of(
            client,
            "proof_storage_unavailable"@,
            "fail"@,
            Some(RESTORE_STEP@),
            Some(restore),
            Seq::empty().push(restore),
            stages,
            criteria,
            durable_dir(client, ANY_RUN@, host.home),
            Seq::empty(),
            host,
        ),
        completion_criteria: criteria,
        trust_boundary: NO_STORE_SESSION_BOUNDARY@,
    }
}

fn make_storeless_session(
    client: &str,
    restore: &ClientBindingOperatorFlowStep,
    reason: &str,
    host: &Host,
) -> (r: ClientBindingProofSession)
    ensures
        r.deep_view() == storeless_session(client@, restore.deep_view(), reason@, host.deep_view()),
{
    let stages = make_unknown_stages(reason);
    let criteria = table_texts(&NO_STORE_CRITERIA);
    let flow = with(none(), restore.dup());
    let dir = durable_client_artifact_dir(client, borrowed(&host.home));
    let seen: Vec<DirSeen> = Vec::new();
    assert(seen@ =~= Seq::empty());
    let runbook = client_binding_proof_session_runbook(
        client,
        "proof_storage_unavailable",
        "fail",
        Some(RESTORE_STEP),
        Some(restore),
        &flow,
        &stages,
        &criteria,
        dir.as_str(),
        &seen,
        host,
    );
    ClientBindingProofSession {
        client: client.to_string(),
        status: "proof_storage_unavailable".to_string(),
        release_gate: "fail".to_string(),
        ready_for_private_client_claim: false,
        completed_proof_levels: none(),
        pending_proof_levels: required_private_client_proof_levels(),
        ready_to_record_proof_levels: none(),
        blocked_proof_levels: required_private_client_proof_levels(),
        next_step_id: Some(RESTORE_STEP.to_string()),
        next_command: restore.command.dup(),
        next_mcp_call: None,
        next_operator_step: Some(restore.dup()),
        external_action: None,
        stages,
        runbook,
        completion_criteria: criteria,
        trust_boundary: NO_STORE_SESSION_BOUNDARY.to_string(),
    }
}

/// What the card of a session without the store is made of.
pub open spec fn storeless_card(
    client: Seq<char>,
    restore: ClientBindingOperatorFlowStepView,
    reason: Seq<char>,
    event_jsonl: Option<Seq<char>>,
    source: Seq<char>,
    nonce: Seq<char>,
    host: HostView,
) -> CardInput {
    let action = next_action("proof_storage_unavailable"@, Some(RESTORE_STEP@));
    CardInput {
        client,
        status: "proof_storage_unavailable"@,
        gate: "fail"@,
        action_id: action,
        label: action_label(action, client),
        next_step: Some(RESTORE_STEP@),
        operator_step: Some(restore),
        next_command: restore.command,
        ready: false,
        pending: required_levels(),
        blocked: required_levels(),
        gaps: nil().push(reason),
        failures: Seq::empty(),
        hook: hook_summary(
            client,
            event_jsonl,
            source,
            nonce,
            unknown_stages(reason),
            Seq::empty().push(restore),
            None,
        ),
        host,
    }
}

/// What a session tells where the store cannot be read.
pub open spec fn told_without_store(
    args: AdapterBindingProofArgsView,
    nonce: Result<(Seq<char>, bool), BindingFault>,
    error: Seq<char>,
    db_path: Seq<char>,
    diagnostic_db: Seq<char>,
    host: HostView,
    disk: DiskView,
) -> Result<AdapterBindingProofSessionOutcomeView, BindingFault> {
    match checked_client(args, disk) {
        Err(f) => Err(f),
        Ok(client) => match checked_source(args, client, disk) {
            Err(f) => Err(f),
            Ok(source) => match config_root_of(args, host.home) {
                Err(f) => Err(f),
                Ok(root) => match nonce {
                    Err(f) => Err(f),
                    Ok((nonce, generated)) => {
                        let reason = "proof_storage_unavailable: "@ + error;
                        let restore = restore_step(client, db_path, error, diagnostic_db);
                        let s = storeless_session(client, restore, reason, host);
                        let x = storeless_card(
                            client,
                            restore,
                            reason,
                            args.event_jsonl,
                            source,
                            nonce,
                            host,
                        );
                        let card = card_of(x);
                        Ok(
                            AdapterBindingProofSessionOutcomeView {
                                client,
                                manifest_path: manifest_path_of(args, client, disk),
                                expected_event_source: source,
                                binding_nonce: nonce,
                                generated_binding_nonce: generated,
                                config_root: root,
                                proof_storage_status: "unavailable"@,
                                proof_storage_error: Some(error),
                                proof_storage_recovery_commands: recovery_commands(
                                    client,
                                    diagnostic_db,
                                ),
                                status: s.status,
                                release_gate: s.release_gate,
                                ready_for_private_client_claim: false,
                                operator_next_action_id: x.action_id,
                                operator_next_action_label: x.label,
                                headline: card.headline,
                                primary_next_step: card.primary_next_step,
                                primary_next_command: card.primary_next_command,
                                proof_session_next_step_id: card.proof_session_next_step_id,
                                next_operator_step_title: card.next_operator_step_title,
                                artifact_failure_count: card.artifact_failure_count,
                                artifact_failures: card.artifact_failures,
                                safe_to_claim: card.safe_to_claim,
                                blocked_claims: card.blocked_claims,
                                app_hook_evidence: x.hook,
                                external_action_safety: None,
                                external_action: None,
                                operator_card: card,
                                next_step_id: s.next_step_id,
                                next_command: s.next_command,
                                next_mcp_call: None,
                                next_operator_step: s.next_operator_step,
                                runbook_schema: s.runbook.schema,
                                pending_proof_levels: s.pending_proof_levels,
                                blocked_proof_levels: s.blocked_proof_levels,
                                proof_session: s,
                                blocking_gaps: x.gaps,
                                operator_flow: Seq::empty().push(restore),
                                proofs_found: 0,
                                ready_client_count: 0,
                                installed_config_eligible_candidates: 0,
                                setup_artifact_eligible_candidates: 0,
                                private_client_target_eligible_candidates: 0,
                                eligible_setup_artifact_paths: nil(),
                                eligible_private_client_target_paths: nil(),
                                private_client_target_candidate_paths: nil(),
                                trust_boundary: NO_STORE_BOUNDARY@,
                            },
                        )
                    },
                },
            },
        },
    }
}

/// What a session tells where the store cannot be read.
pub fn degraded_proof_session_storage_unavailable(
    args: &AdapterBindingProofArgs,
    nonce: Result<(String, bool), AdapterBindingProofError>,
    error: String,
    db_path: &str,
    diagnostic_db: &str,
    host: &Host,
    disk: &Disk,
) -> (r: Result<AdapterBindingProofSessionOutcome, AdapterBindingProofError>)
    ensures
        outcome(r) == told_without_store(
            args.deep_view(),
            nonce_view(nonce),
            error@,
            db_path@,
            diagnostic_db@,
            host.deep_view(),
            disk.deep_view(),
        ),
{
    let client = match resolve_client_for_check(args, disk) {
        Err(e) => return Err(e),
        Ok(c) => c,
    };
    let source = match resolve_expected_event_source_for_check(args, client.as_str(), disk) {
        Err(e) => return Err(e),
        Ok(s) => s,
    };
    let root = match resolve_config_root(args, borrowed(&host.home)) {
        Err(e) => return Err(e),
        Ok(r) => r,
    };
    let (nonce, generated) = match nonce {
        Err(e) => return Err(e),
        Ok(n) => n,
    };
    let manifest = find_manifest_path(args, client.as_str(), disk);
    let reason = cat2("proof_storage_unavailable: ", error.as_str());
    let restore = make_restore_step(client.as_str(), db_path, error.as_str(), diagnostic_db);
    let s = make_storeless_session(client.as_str(), &restore, reason.as_str(), host);
    let flow = with(none(), restore.dup());
    let hook = client_binding_app_hook_evidence_summary(
        client.as_str(),
        borrowed(&args.event_jsonl),
        source.as_str(),
        nonce.as_str(),
        &s,
        &flow,
        &None,
    );
    let action = proof_session_operator_next_action_id(
        "proof_storage_unavailable",
        Some(RESTORE_STEP),
    );
    let label = proof_session_operator_next_action_label(action.as_str(), client.as_str());
    let gaps = with(none(), reason.clone());
    let card = proof_session_operator_card(
        client.as_str(),
        "proof_storage_unavailable",
        "fail",
        action.as_str(),
        label.as_str(),
        Some(RESTORE_STEP),
        Some(&restore),
        &restore.command,
        false,
        &s.pending_proof_levels,
        &s.blocked_proof_levels,
        &gaps,
        &none(),
        &hook,
        host,
    );
    assert(card.deep_view() == card_of(
        storeless_card(
            client@,
            restore.deep_view(),
            reason@,
            args.deep_view().event_jsonl,
            source@,
            nonce@,
            host.deep_view(),
        ),
    ));
    let recovery = proof_session_storage_recovery_commands(client.as_str(), diagnostic_db);
    Ok(
        AdapterBindingProofSessionOutcome {
            client,
            manifest_path: manifest,
            expected_event_source: source,
            binding_nonce: nonce,
            generated_binding_nonce: generated,
            config_root: root,
            proof_storage_status: "unavailable".to_string(),
            proof_storage_error: Some(error),
            proof_storage_recovery_commands: recovery,
            status: s.status.clone(),
            release_gate: s.release_gate.clone(),
            ready_for_private_client_claim: false,
            operator_next_action_id: action,
            operator_next_action_label: label,
            headline: card.headline.clone(),
            primary_next_step: card.primary_next_step.clone(),
            primary_next_command: card.primary_next_command.dup(),
            proof_session_next_step_id: card.proof_session_next_step_id.dup(),
            next_operator_step_title: card.next_operator_step_title.dup(),
            artifact_failure_count: card.artifact_failure_count,
            artifact_failures: card.artifact_failures.dup(),
            safe_to_claim: card.safe_to_claim.dup(),
            blocked_claims: card.blocked_claims.dup(),
            app_hook_evidence: hook,
            external_action_safety: None,
            external_action: None,
            operator_card: card,
            next_step_id: s.next_step_id.dup(),
            next_command: s.next_command.dup(),
            next_mcp_call: None,
            next_operator_step: s.next_operator_step.dup(),
            runbook_schema: s.runbook.schema.clone(),
            pending_proof_levels: s.pending_proof_levels.dup(),
            blocked_proof_levels: s.blocked_proof_levels.dup(),
            proof_session: s,
            blocking_gaps: gaps,
            operator_flow: flow,
            proofs_found: 0,
            ready_client_count: 0,
            installed_config_eligible_candidates: 0,
            setup_artifact_eligible_candidates: 0,
            private_client_target_eligible_candidates: 0,
            eligible_setup_artifact_paths: none(),
            eligible_private_client_target_paths: none(),
            private_client_target_candidate_paths: none(),
            trust_boundary: NO_STORE_BOUNDARY.to_string(),
        },
    )
}

// ---------------------------------------------------------------------------
// The command
// ---------------------------------------------------------------------------

pub const SESSION_NEEDS: &'static str = "--proof-session requires --client or --manifest";

/// What a proof session tells: with the store from a bundle, without it what is known
/// all the same. A second nonce is made where the store cannot be read.
pub open spec fn session_told(
    args: AdapterBindingProofArgsView,
    nonce: Result<(Seq<char>, bool), BindingFault>,
    second: Result<(Seq<char>, bool), BindingFault>,
    x: BundleInput,
    db_path: Seq<char>,
    diagnostic_db: Seq<char>,
) -> Result<AdapterBindingProofSessionOutcomeView, BindingFault> {
    if trimmed_nonblank(args.client) is None && trimmed_nonblank(args.manifest) is None {
        malformed(SESSION_NEEDS@)
    } else {
        match bundle(args, nonce, x) {
            Ok(b) => Ok(told(b, x.host)),
            Err(BindingFault::Storage(error)) => told_without_store(
                args,
                second,
                error,
                db_path,
                diagnostic_db,
                x.host,
                x.disk,
            ),
            Err(f) => Err(f),
        }
    }
}

/// How far the proof of a client is, what comes next, and what may be claimed.
/// `diagnostic_db` is where a database for diagnosis can be put.
pub fn run_proof_session_blocking(
    args: &AdapterBindingProofArgs,
    stored: Result<Vec<StoredClientBindingProof>, StorageError>,
    files: &Vec<ObservedFile>,
    disk: &Disk,
    seen: &Vec<DirSeen>,
    declared: Option<&str>,
    probe: TcpProbe,
    host: &Host,
    db_path: &str,
    diagnostic_db: &str,
) -> (r: Result<AdapterBindingProofSessionOutcome, AdapterBindingProofError>)
    ensures
        exists|
            n: Result<(Seq<char>, bool), BindingFault>,
            m: Result<(Seq<char>, bool), BindingFault>,
        | #[trigger]
            nonce_allowed(args.deep_view().binding_nonce, n) && #[trigger] nonce_allowed(
                args.deep_view().binding_nonce,
                m,
            ) && outcome(r) == session_told(
                args.deep_view(),
                n,
                m,
                (BundleInput {
                    stored: stored_proofs(stored),
                    files: files.deep_view(),
                    disk: disk.deep_view(),
                    seen: seen@,
                    collector: collector_state(declared.deep_view(), probe),
                    host: host.deep_view(),
                }),
                db_path@,
                diagnostic_db@,
            ),
{
    let nonce = resolve_binding_nonce_for_prepare(borrowed(&args.binding_nonce));
    let second = resolve_binding_nonce_for_prepare(borrowed(&args.binding_nonce));
    assert(nonce_allowed(args.deep_view().binding_nonce, nonce_view(nonce)));
    assert(nonce_allowed(args.deep_view().binding_nonce, nonce_view(second)));
    if trim_nonblank(borrowed(&args.client)).is_none() && trim_nonblank(
        borrowed(&args.manifest),
    ).is_none() {
        return refuse(SESSION_NEEDS);
    }
    match evidence_bundle(args, nonce, stored, files, disk, seen, declared, probe, host) {
        Ok(bundle) => Ok(proof_session_of_bundle(bundle, host)),
        Err(AdapterBindingProofError::Storage(e)) => degraded_proof_session_storage_unavailable(
            args,
            second,
            e.message,
            db_path,
            diagnostic_db,
            host,
            disk,
        ),
        Err(e) => Err(e),
    }
}

}
