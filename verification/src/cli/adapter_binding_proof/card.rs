//! The operator's card: one action, and what may be claimed meanwhile.
use super::labels::{action_headline, operator_card_headline};
use super::places::{display_name, private_client_display_name};
use super::session::{
    client_binding_external_operator_action, command_of, copy_command, external_action, find_safety,
    find_stage, find_step, safety_of, stage_at, step_named, HOOK_STEP,
};
use super::types::{
    artifact_status_name, ClientBindingAppHookEvidenceSummary,
    ClientBindingAppHookEvidenceSummaryView, ClientBindingArtifactFailure,
    ClientBindingArtifactFailureView, ClientBindingOperatorFlowStep,
    ClientBindingOperatorFlowStepView, ClientBindingProofSession,
    ClientBindingProofSessionOperatorCard, ClientBindingProofSessionOperatorCardView,
    ClientBindingProofSessionStageView, ContinueDevdataCollectorProbe,
    ContinueDevdataCollectorProbeView, Host, HostView,
};
use crate::dup::Dup;
use crate::number::{decimal_int, int_text};
use crate::outcome::owned;
use crate::storage::{level_name, ClientBindingProofLevel};
use crate::text::{cat3, cat5, join, joined, nil, none, same, with, with_text, Words};
use vstd::prelude::*;

verus! {

// ---------------------------------------------------------------------------
// The next step
// ---------------------------------------------------------------------------

pub const RERUN_HARDENING: &'static str =
    "Rerun product hardening with client-binding readiness required before claiming release.";

pub const INSPECT_PACKET: &'static str =
    "Inspect or regenerate the proof-free render evidence packet, replace visible-render placeholders from the real ";

pub const INSPECT_PACKET_END: &'static str =
    " UI, then record observed_in_client_render only with explicit operator confirmation.";

pub const REPLAY_ARTIFACTS: &'static str =
    "Replay stored proof artifacts, inspect changed or missing files, then re-record stale proof rows from fresh real-client evidence.";

pub const RESTORE_STORE: &'static str =
    "Restore access to a readable SOMA_DB before claiming private-client proof readiness.";

pub const INSPECT_STATUS: &'static str =
    "Inspect the proof session status and follow the next proof step.";

/// What the operator does next, in a sentence.
pub open spec fn card_step(
    action_id: Seq<char>,
    client: Seq<char>,
    step: Option<ClientBindingOperatorFlowStepView>,
) -> Seq<char> {
    if action_id == "client_binding_release_gate_passed"@ {
        RERUN_HARDENING@
    } else if action_id == "inspect_render_evidence_packet_for_artifact_repair"@ {
        INSPECT_PACKET@ + display_name(client) + INSPECT_PACKET_END@
    } else if action_id == "refresh_invalid_client_binding_artifacts"@ {
        REPLAY_ARTIFACTS@
    } else if action_id == "restore_client_binding_proof_storage_access"@ {
        RESTORE_STORE@
    } else {
        match step {
            Some(s) => s.intent,
            None => INSPECT_STATUS@,
        }
    }
}

fn make_card_step(
    action_id: &str,
    client: &str,
    step: Option<&ClientBindingOperatorFlowStep>,
) -> (r: String)
    ensures
        r@ == card_step(action_id@, client@, step.deep_view()),
{
    if same(action_id, "client_binding_release_gate_passed") {
        RERUN_HARDENING.to_string()
    } else if same(action_id, "inspect_render_evidence_packet_for_artifact_repair") {
        let name = private_client_display_name(client);
        cat3(INSPECT_PACKET, name.as_str(), INSPECT_PACKET_END)
    } else if same(action_id, "refresh_invalid_client_binding_artifacts") {
        REPLAY_ARTIFACTS.to_string()
    } else if same(action_id, "restore_client_binding_proof_storage_access") {
        RESTORE_STORE.to_string()
    } else {
        match step {
            Some(s) => s.intent.clone(),
            None => INSPECT_STATUS.to_string(),
        }
    }
}

/// A command of `soma adapter-binding-proof` for a client.
pub open spec fn proof_command(flag: Seq<char>, client: Seq<char>) -> Seq<Seq<char>> {
    nil().push("soma"@).push("adapter-binding-proof"@).push(flag).push("--client"@).push(
        client,
    ).push("--json"@)
}

fn make_proof_command(flag: &str, client: &str) -> (r: Vec<String>)
    ensures
        r.deep_view() == proof_command(flag@, client@),
{
    Words::new().w("soma").w("adapter-binding-proof").w(flag).w("--client").w(client).w(
        "--json",
    ).done()
}

/// What the operator calls next.
pub open spec fn card_command(
    action_id: Seq<char>,
    client: Seq<char>,
    next_command: Option<Seq<Seq<char>>>,
) -> Seq<Seq<char>> {
    if action_id == "client_binding_release_gate_passed"@ {
        proof_command("--status"@, client)
    } else if action_id == "refresh_invalid_client_binding_artifacts"@ {
        proof_command("--verify-evidence-artifacts"@, client)
    } else {
        match next_command {
            Some(c) => c,
            None => if action_id == "inspect_render_evidence_packet_for_artifact_repair"@ {
                nil().push("soma"@).push("adapter-binding-proof"@).push("--client"@).push(
                    client,
                ).push("--proof-session"@).push("--brief"@)
            } else {
                proof_command("--proof-session"@, client)
            },
        }
    }
}

fn make_card_command(
    action_id: &str,
    client: &str,
    next_command: &Option<Vec<String>>,
) -> (r: Vec<String>)
    ensures
        r.deep_view() == card_command(action_id@, client@, next_command.deep_view()),
{
    if same(action_id, "client_binding_release_gate_passed") {
        return make_proof_command("--status", client);
    }
    if same(action_id, "refresh_invalid_client_binding_artifacts") {
        return make_proof_command("--verify-evidence-artifacts", client);
    }
    match next_command {
        Some(c) => c.dup(),
        None => if same(action_id, "inspect_render_evidence_packet_for_artifact_repair") {
            Words::new().w("soma").w("adapter-binding-proof").w("--client").w(client).w(
                "--proof-session",
            ).w("--brief").done()
        } else {
            make_proof_command("--proof-session", client)
        },
    }
}

// ---------------------------------------------------------------------------
// Claims
// ---------------------------------------------------------------------------

pub const PROOFS_REPLAY: &'static str =
    "Release-gate proof rows replay cleanly for app-hook, in-client-render, and review-action evidence.";

pub const GATE_PASSES: &'static str = "The proof-session release gate is pass.";

pub const NOT_CLAIMABLE: &'static str =
    "Private-client readiness is not claimable until app-hook, render, and review-action proof all pass with release-grade evidence.";

pub const GATE_FAILS: &'static str = "The proof-session release gate is fail.";

/// The number of failed artifacts that a card lists.
pub const SHOWN_FAILURES: usize = 5;

/// What may be claimed.
pub open spec fn safe_claims(ready: bool, gate: Seq<char>) -> Seq<Seq<char>> {
    let a = if ready {
        nil().push(PROOFS_REPLAY@)
    } else {
        nil()
    };
    if gate == "pass"@ {
        a.push(GATE_PASSES@)
    } else {
        a
    }
}

fn make_safe_claims(ready: bool, gate: &str) -> (r: Vec<String>)
    ensures
        r.deep_view() == safe_claims(ready, gate@),
{
    let mut list: Vec<String> = none();
    if ready {
        list = with_text(list, PROOFS_REPLAY);
    }
    if same(gate, "pass") {
        list = with_text(list, GATE_PASSES);
    }
    list
}

/// The names of levels, with commas between them.
pub open spec fn level_names(levels: Seq<ClientBindingProofLevel>) -> Seq<char> {
    joined(Seq::new(levels.len(), |i: int| level_name(levels[i])), ", "@)
}

pub fn level_list(levels: &Vec<ClientBindingProofLevel>) -> (r: String)
    ensures
        r@ == level_names(levels.deep_view()),
{
    let ghost want = Seq::new(levels@.len(), |i: int| level_name(levels.deep_view()[i]));
    let mut names: Vec<String> = none();
    let mut i: usize = 0;
    while i < levels.len()
        invariant
            i <= levels.len(),
            want == Seq::new(levels@.len(), |i: int| level_name(levels.deep_view()[i])),
            names.deep_view() =~= want.take(i as int),
        decreases levels.len() - i,
    {
        assert(levels.deep_view()[i as int] == levels[i as int]);
        names = with_text(names, levels[i].as_str());
        i = i + 1;
    }
    assert(want.take(i as int) =~= want);
    assert(levels.deep_view().len() == levels@.len());
    assert(want =~= Seq::new(
        levels.deep_view().len(),
        |i: int| level_name(levels.deep_view()[i]),
    ));
    join(&names, ", ")
}

/// Each gap as a sentence.
pub open spec fn gap_claims(gaps: Seq<Seq<char>>) -> Seq<Seq<char>> {
    Seq::new(gaps.len(), |i: int| "Blocking gap: "@ + gaps[i] + "."@)
}

/// A failed artifact as a sentence.
pub open spec fn failure_claim(f: ClientBindingArtifactFailureView) -> Seq<char> {
    let path = match f.path {
        Some(p) => p,
        None => "<unknown>"@,
    };
    "Artifact replay failed for proof "@ + decimal_int(f.proof_id as int) + " "@ + level_name(
        f.proof_level,
    ) + " `"@ + f.kind + "` at `"@ + path + "` with status "@ + artifact_status_name(f.status)
        + "."@
}

fn make_failure_claim(f: &ClientBindingArtifactFailure) -> (r: String)
    ensures
        r@ == failure_claim(f.deep_view()),
{
    let path = match &f.path {
        Some(p) => p.as_str(),
        None => "<unknown>",
    };
    let id = int_text(f.proof_id);
    let mut r = cat5(
        "Artifact replay failed for proof ",
        id.as_str(),
        " ",
        f.proof_level.as_str(),
        " `",
    );
    r.append(f.kind.as_str());
    r.append("` at `");
    r.append(path);
    r.append("` with status ");
    r.append(f.status.as_str());
    r.append(".");
    r
}

/// The failures that a card lists.
pub open spec fn shown_failures(failures: Seq<ClientBindingArtifactFailureView>) -> Seq<
    ClientBindingArtifactFailureView,
> {
    if failures.len() > SHOWN_FAILURES {
        failures.take(SHOWN_FAILURES as int)
    } else {
        failures
    }
}

pub open spec fn failure_claims(failures: Seq<ClientBindingArtifactFailureView>) -> Seq<Seq<char>> {
    Seq::new(failures.len(), |i: int| failure_claim(failures[i]))
}

/// What may not be claimed, and why.
pub open spec fn blocked_claims(
    ready: bool,
    gate: Seq<char>,
    pending: Seq<ClientBindingProofLevel>,
    blocked: Seq<ClientBindingProofLevel>,
    gaps: Seq<Seq<char>>,
    failures: Seq<ClientBindingArtifactFailureView>,
) -> Seq<Seq<char>> {
    let a = if ready {
        nil()
    } else {
        nil().push(NOT_CLAIMABLE@)
    };
    let b = if gate == "pass"@ {
        a
    } else {
        a.push(GATE_FAILS@)
    };
    let c = if pending.len() > 0 {
        b.push("Pending proof levels: "@ + level_names(pending) + "."@)
    } else {
        b
    };
    let d = if blocked.len() > 0 {
        c.push("Blocked proof levels: "@ + level_names(blocked) + "."@)
    } else {
        c
    };
    d + gap_claims(gaps) + failure_claims(shown_failures(failures))
}

fn push_gaps(list: Vec<String>, gaps: &Vec<String>) -> (r: Vec<String>)
    ensures
        r.deep_view() == list.deep_view() + gap_claims(gaps.deep_view()),
{
    let ghost before = list.deep_view();
    let ghost want = gap_claims(gaps.deep_view());
    let mut list = list;
    let mut i: usize = 0;
    assert(before + want.take(0) =~= before);
    while i < gaps.len()
        invariant
            i <= gaps.len(),
            want == gap_claims(gaps.deep_view()),
            list.deep_view() == before + want.take(i as int),
        decreases gaps.len() - i,
    {
        assert(gaps.deep_view()[i as int] == gaps[i as int]@);
        list = with(list, cat3("Blocking gap: ", gaps[i].as_str(), "."));
        assert((before + want.take(i as int)).push(want[i as int]) =~= before + want.take(i + 1));
        i = i + 1;
    }
    assert(want.take(i as int) =~= want);
    list
}

fn push_failures(list: Vec<String>, failures: &Vec<ClientBindingArtifactFailure>) -> (r: Vec<
    String,
>)
    ensures
        r.deep_view() == list.deep_view() + failure_claims(failures.deep_view()),
{
    let ghost before = list.deep_view();
    let ghost want = failure_claims(failures.deep_view());
    let mut list = list;
    let mut i: usize = 0;
    assert(before + want.take(0) =~= before);
    while i < failures.len()
        invariant
            i <= failures.len(),
            want == failure_claims(failures.deep_view()),
            list.deep_view() == before + want.take(i as int),
        decreases failures.len() - i,
    {
        assert(failures.deep_view()[i as int] == failures[i as int].deep_view());
        list = with(list, make_failure_claim(&failures[i]));
        assert((before + want.take(i as int)).push(want[i as int]) =~= before + want.take(i + 1));
        i = i + 1;
    }
    assert(want.take(i as int) =~= want);
    list
}

fn first_failures(failures: &Vec<ClientBindingArtifactFailure>) -> (r: Vec<
    ClientBindingArtifactFailure,
>)
    ensures
        r.deep_view() == shown_failures(failures.deep_view()),
{
    let ghost all = failures.deep_view();
    let mut out: Vec<ClientBindingArtifactFailure> = none();
    let mut i: usize = 0;
    while i < failures.len() && i < SHOWN_FAILURES
        invariant
            i <= failures.len(),
            i <= SHOWN_FAILURES,
            all == failures.deep_view(),
            out.deep_view() =~= all.take(i as int),
        decreases failures.len() - i,
    {
        assert(all[i as int] == failures[i as int].deep_view());
        out = with(out, failures[i].dup());
        i = i + 1;
    }
    assert(all.take(i as int) =~= shown_failures(all));
    out
}

fn make_blocked_claims(
    ready: bool,
    gate: &str,
    pending: &Vec<ClientBindingProofLevel>,
    blocked: &Vec<ClientBindingProofLevel>,
    gaps: &Vec<String>,
    shown: &Vec<ClientBindingArtifactFailure>,
    Ghost(failures): Ghost<Seq<ClientBindingArtifactFailureView>>,
) -> (r: Vec<String>)
    requires
        shown.deep_view() == shown_failures(failures),
    ensures
        r.deep_view() == blocked_claims(
            ready,
            gate@,
            pending.deep_view(),
            blocked.deep_view(),
            gaps.deep_view(),
            failures,
        ),
{
    assert(pending.deep_view().len() == pending.len());
    assert(blocked.deep_view().len() == blocked.len());
    let mut list: Vec<String> = none();
    if !ready {
        list = with_text(list, NOT_CLAIMABLE);
    }
    if !same(gate, "pass") {
        list = with_text(list, GATE_FAILS);
    }
    if pending.len() > 0 {
        list = with(list, cat3("Pending proof levels: ", level_list(pending).as_str(), "."));
    }
    if blocked.len() > 0 {
        list = with(list, cat3("Blocked proof levels: ", level_list(blocked).as_str(), "."));
    }
    let list = push_gaps(list, gaps);
    push_failures(list, shown)
}

// ---------------------------------------------------------------------------
// The card
// ---------------------------------------------------------------------------

pub const CARD_SOURCE: &'static str = "soma_client_binding_proof_session.operator_card.v1";

pub const CARD_BOUNDARY: &'static str =
    "client_binding_proof_session_operator_card_is_read_only: translates proof-session status into one operator action only; records no proof row, creates no verification event, installs no hook, applies no proposal, and promotes no cloud draft";

/// What a card is made of.
#[verifier::ext_equal]
pub struct CardInput {
    pub client: Seq<char>,
    pub status: Seq<char>,
    pub gate: Seq<char>,
    pub action_id: Seq<char>,
    pub label: Seq<char>,
    pub next_step: Option<Seq<char>>,
    pub operator_step: Option<ClientBindingOperatorFlowStepView>,
    pub next_command: Option<Seq<Seq<char>>>,
    pub ready: bool,
    pub pending: Seq<ClientBindingProofLevel>,
    pub blocked: Seq<ClientBindingProofLevel>,
    pub gaps: Seq<Seq<char>>,
    pub failures: Seq<ClientBindingArtifactFailureView>,
    pub hook: ClientBindingAppHookEvidenceSummaryView,
    pub host: HostView,
}

/// The operator's card.
pub open spec fn card_of(x: CardInput) -> ClientBindingProofSessionOperatorCardView {
    ClientBindingProofSessionOperatorCardView {
        source: CARD_SOURCE@,
        client: x.client,
        status: x.status,
        release_gate: x.gate,
        operator_next_action_id: x.action_id,
        operator_next_action_label: x.label,
        headline: action_headline(x.action_id, x.client),
        primary_next_step: card_step(x.action_id, x.client, x.operator_step),
        primary_next_command: card_command(x.action_id, x.client, x.next_command),
        external_action_safety: safety_of(x.host.safety, x.action_id),
        external_action: match x.next_step {
            Some(id) => external_action(
                x.client,
                x.action_id,
                x.label,
                id,
                x.next_command,
                x.host,
            ),
            None => None,
        },
        proof_session_next_step_id: x.next_step,
        next_operator_step_title: match x.operator_step {
            Some(s) => Some(s.title),
            None => None,
        },
        ready_for_private_client_claim: x.ready,
        pending_proof_level_count: x.pending.len() as usize,
        blocked_proof_level_count: x.blocked.len() as usize,
        blocking_gap_count: x.gaps.len() as usize,
        artifact_failure_count: x.failures.len() as usize,
        artifact_failures: shown_failures(x.failures),
        safe_to_claim: safe_claims(x.ready, x.gate),
        blocked_claims: blocked_claims(x.ready, x.gate, x.pending, x.blocked, x.gaps, x.failures),
        app_hook_evidence: x.hook,
        trust_boundary: CARD_BOUNDARY@,
    }
}

/// One action for the operator, and what may be claimed meanwhile.
pub fn proof_session_operator_card(
    client: &str,
    status: &str,
    release_gate: &str,
    operator_next_action_id: &str,
    operator_next_action_label: &str,
    next_step_id: Option<&str>,
    next_operator_step: Option<&ClientBindingOperatorFlowStep>,
    next_command: &Option<Vec<String>>,
    ready_for_private_client_claim: bool,
    pending_proof_levels: &Vec<ClientBindingProofLevel>,
    blocked_proof_levels: &Vec<ClientBindingProofLevel>,
    blocking_gaps: &Vec<String>,
    artifact_failures: &Vec<ClientBindingArtifactFailure>,
    app_hook_evidence: &ClientBindingAppHookEvidenceSummary,
    host: &Host,
) -> (r: ClientBindingProofSessionOperatorCard)
    ensures
        r.deep_view() == card_of(
            (CardInput {
                client: client@,
                status: status@,
                gate: release_gate@,
                action_id: operator_next_action_id@,
                label: operator_next_action_label@,
                next_step: next_step_id.deep_view(),
                operator_step: next_operator_step.deep_view(),
                next_command: next_command.deep_view(),
                ready: ready_for_private_client_claim,
                pending: pending_proof_levels.deep_view(),
                blocked: blocked_proof_levels.deep_view(),
                gaps: blocking_gaps.deep_view(),
                failures: artifact_failures.deep_view(),
                hook: app_hook_evidence.deep_view(),
                host: host.deep_view(),
            }),
        ),
{
    assert(pending_proof_levels.deep_view().len() == pending_proof_levels.len());
    assert(blocked_proof_levels.deep_view().len() == blocked_proof_levels.len());
    assert(blocking_gaps.deep_view().len() == blocking_gaps.len());
    assert(artifact_failures.deep_view().len() == artifact_failures.len());
    let outside = match next_step_id {
        Some(id) => client_binding_external_operator_action(
            client,
            operator_next_action_id,
            operator_next_action_label,
            id,
            next_command,
            host,
        ),
        None => None,
    };
    let title = match next_operator_step {
        Some(s) => Some(s.title.clone()),
        None => None,
    };
    let shown = first_failures(artifact_failures);
    let blocked = make_blocked_claims(
        ready_for_private_client_claim,
        release_gate,
        pending_proof_levels,
        blocked_proof_levels,
        blocking_gaps,
        &shown,
        Ghost(artifact_failures.deep_view()),
    );
    ClientBindingProofSessionOperatorCard {
        source: CARD_SOURCE,
        client: client.to_string(),
        status: status.to_string(),
        release_gate: release_gate.to_string(),
        operator_next_action_id: operator_next_action_id.to_string(),
        operator_next_action_label: operator_next_action_label.to_string(),
        headline: operator_card_headline(operator_next_action_id, client),
        primary_next_step: make_card_step(operator_next_action_id, client, next_operator_step),
        primary_next_command: make_card_command(operator_next_action_id, client, next_command),
        external_action_safety: find_safety(&host.safety, operator_next_action_id),
        external_action: outside,
        proof_session_next_step_id: owned(next_step_id),
        next_operator_step_title: title,
        ready_for_private_client_claim,
        pending_proof_level_count: pending_proof_levels.len(),
        blocked_proof_level_count: blocked_proof_levels.len(),
        blocking_gap_count: blocking_gaps.len(),
        artifact_failure_count: artifact_failures.len(),
        artifact_failures: shown,
        safe_to_claim: make_safe_claims(ready_for_private_client_claim, release_gate),
        blocked_claims: blocked,
        app_hook_evidence: app_hook_evidence.dup(),
        trust_boundary: CARD_BOUNDARY,
    }
}

/// Nothing may be claimed while the release gate is closed, and the card says why.
pub proof fn law_closed_gate_allows_no_claim(x: CardInput)
    requires
        x.ready <==> x.gate == "pass"@,
    ensures
        x.ready ==> card_of(x).safe_to_claim == nil().push(PROOFS_REPLAY@).push(GATE_PASSES@),
        !x.ready ==> card_of(x).safe_to_claim.len() == 0 && card_of(x).blocked_claims.len() >= 2,
{
}

// ---------------------------------------------------------------------------
// App-hook evidence
// ---------------------------------------------------------------------------

pub const HOOK_SUMMARY_SOURCE: &'static str = "soma_client_binding_app_hook_evidence_summary.v1";

pub const HOOK_SUMMARY_BOUNDARY: &'static str =
    "app_hook_evidence_summary_is_read_only: mirrors event-jsonl and proof-session blockers only; records no proof row, creates no verification event, executes no hook, applies no proposal, and promotes no cloud draft";

pub const NO_STAGE: &'static str =
    "observed_app_hook: no proof-session stage verdict was available";

/// How far app-hook proof is, in one word.
pub open spec fn hook_status(stage: Option<ClientBindingProofSessionStageView>) -> Seq<char> {
    match stage {
        None => "stage_missing"@,
        Some(s) => if s.ledger_status == "stored_verified"@ {
            "stored_verified"@
        } else if s.ready_to_record_now {
            "ready_to_record"@
        } else {
            match s.artifact_status {
                Some(a) => a,
                None => s.ledger_status,
            }
        },
    }
}

/// What is known of app-hook evidence.
pub open spec fn hook_summary(
    client: Seq<char>,
    event_jsonl: Option<Seq<char>>,
    source: Seq<char>,
    nonce: Seq<char>,
    stages: Seq<ClientBindingProofSessionStageView>,
    flow: Seq<ClientBindingOperatorFlowStepView>,
    collector: Option<ContinueDevdataCollectorProbeView>,
) -> ClientBindingAppHookEvidenceSummaryView {
    let stage = stage_at(stages, Some(ClientBindingProofLevel::ObservedAppHook));
    let reasons = match stage {
        Some(s) => s.blocking_reasons,
        None => nil().push(NO_STAGE@),
    };
    ClientBindingAppHookEvidenceSummaryView {
        source: HOOK_SUMMARY_SOURCE@,
        client,
        event_jsonl_path: event_jsonl,
        expected_event_source: source,
        binding_nonce: nonce,
        status: hook_status(stage),
        ready_to_record_now: stage matches Some(s) && s.ready_to_record_now,
        blocking_reason_count: reasons.len() as usize,
        blocking_reasons: reasons,
        readiness_probe_command: command_of(step_named(flow, HOOK_STEP@)),
        record_proof_command: match command_of(step_named(flow, "record_observed_app_hook"@)) {
            Some(c) => Some(c),
            None => match stage {
                Some(s) => s.command,
                None => None,
            },
        },
        continue_devdata_collector: collector,
        trust_boundary: HOOK_SUMMARY_BOUNDARY@,
    }
}

pub fn client_binding_app_hook_evidence_summary(
    client: &str,
    event_jsonl_path: Option<&str>,
    expected_event_source: &str,
    binding_nonce: &str,
    proof_session: &ClientBindingProofSession,
    operator_flow: &Vec<ClientBindingOperatorFlowStep>,
    continue_devdata_collector: &Option<ContinueDevdataCollectorProbe>,
) -> (r: ClientBindingAppHookEvidenceSummary)
    ensures
        r.deep_view() == hook_summary(
            client@,
            event_jsonl_path.deep_view(),
            expected_event_source@,
            binding_nonce@,
            proof_session.deep_view().stages,
            operator_flow.deep_view(),
            continue_devdata_collector.deep_view(),
        ),
{
    let stage = find_stage(
        &proof_session.stages,
        Some(ClientBindingProofLevel::ObservedAppHook),
    );
    let reasons = match stage {
        Some(s) => s.blocking_reasons.dup(),
        None => with_text(none(), NO_STAGE),
    };
    assert(reasons.deep_view().len() == reasons.len());
    let ready = match stage {
        Some(s) => s.ready_to_record_now,
        None => false,
    };
    let status = match stage {
        None => "stage_missing".to_string(),
        Some(s) => if same(s.ledger_status.as_str(), "stored_verified") {
            "stored_verified".to_string()
        } else if s.ready_to_record_now {
            "ready_to_record".to_string()
        } else {
            match &s.artifact_status {
                Some(a) => a.clone(),
                None => s.ledger_status.clone(),
            }
        },
    };
    let record = match copy_command(find_step(operator_flow, "record_observed_app_hook")) {
        Some(c) => Some(c),
        None => match stage {
            Some(s) => s.command.dup(),
            None => None,
        },
    };
    ClientBindingAppHookEvidenceSummary {
        source: HOOK_SUMMARY_SOURCE,
        client: client.to_string(),
        event_jsonl_path: owned(event_jsonl_path),
        expected_event_source: expected_event_source.to_string(),
        binding_nonce: binding_nonce.to_string(),
        status,
        ready_to_record_now: ready,
        blocking_reason_count: reasons.len(),
        blocking_reasons: reasons,
        readiness_probe_command: copy_command(find_step(operator_flow, HOOK_STEP)),
        record_proof_command: record,
        continue_devdata_collector: continue_devdata_collector.dup(),
        trust_boundary: HOOK_SUMMARY_BOUNDARY,
    }
}

/// A claim is safe only where it holds: that the proofs replay iff the client is ready, and
/// that the session is open for release iff it is. Nothing else is ever called safe.
pub proof fn law_safe_claims_hold(ready: bool, gate: Seq<char>)
    ensures
        ready && gate == "pass"@ ==> safe_claims(ready, gate) == seq![
            PROOFS_REPLAY@,
            "The proof-session release gate is pass."@,
        ],
        ready && gate != "pass"@ ==> safe_claims(ready, gate) == seq![PROOFS_REPLAY@],
        !ready && gate == "pass"@ ==> safe_claims(ready, gate) == seq![
            "The proof-session release gate is pass."@,
        ],
        !ready && gate != "pass"@ ==> safe_claims(ready, gate).len() == 0,
{
}

/// What blocks a claim is told in order: that the client is not ready, that the session is
/// not open for release, the levels still open, each gap and the first five failures. Nothing is told of a client
/// that is ready, passes and lacks nothing.
pub proof fn law_blocked_claims_tell_every_block(
    ready: bool,
    gate: Seq<char>,
    pending: Seq<ClientBindingProofLevel>,
    blocked: Seq<ClientBindingProofLevel>,
    gaps: Seq<Seq<char>>,
    failures: Seq<ClientBindingArtifactFailureView>,
)
    ensures
        ({
            let claims = blocked_claims(ready, gate, pending, blocked, gaps, failures);
            let head: int = (if ready {
                0int
            } else {
                1int
            }) + (if gate == "pass"@ {
                0int
            } else {
                1int
            }) + (if pending.len() > 0 {
                1int
            } else {
                0int
            }) + (if blocked.len() > 0 {
                1int
            } else {
                0int
            });
            let shown: int = if failures.len() > 5 {
                5int
            } else {
                failures.len() as int
            };
            &&& claims.len() == head + gaps.len() + shown
            &&& forall|i: int|
                0 <= i < gaps.len() ==> #[trigger] claims[head + i] == "Blocking gap: "@ + gaps[i]
                    + "."@
            &&& forall|i: int|
                0 <= i < shown ==> #[trigger] claims[head + gaps.len() + i] == failure_claim(
                    failures[i],
                )
            &&& !ready ==> claims[0] == NOT_CLAIMABLE@
            &&& ready && gate != "pass"@ ==> claims[0] == "The proof-session release gate is fail."@
            &&& claims.len() == 0 <==> ready && gate == "pass"@ && pending.len() == 0
                && blocked.len() == 0 && gaps.len() == 0 && failures.len() == 0
        }),
{
}

/// A card tells what it is made from, and the numbers on it are those of what it counts.
pub proof fn law_cards_tell_what_they_are_made_from(x: CardInput)
    requires
        x.pending.len() <= usize::MAX,
        x.blocked.len() <= usize::MAX,
        x.gaps.len() <= usize::MAX,
        x.failures.len() <= usize::MAX,
    ensures
        ({
            let c = card_of(x);
            &&& c.client == x.client && c.status == x.status && c.release_gate == x.gate
            &&& c.operator_next_action_id == x.action_id && c.operator_next_action_label == x.label
            &&& c.ready_for_private_client_claim == x.ready
            &&& c.proof_session_next_step_id == x.next_step
            &&& c.pending_proof_level_count == x.pending.len()
            &&& c.blocked_proof_level_count == x.blocked.len()
            &&& c.blocking_gap_count == x.gaps.len()
            &&& c.artifact_failure_count == x.failures.len()
            &&& c.artifact_failures.len() <= 5
            &&& x.failures.len() <= 5 ==> c.artifact_failures == x.failures
            &&& x.next_step is None ==> c.external_action is None
        }),
{
}

/// The command of a card is the next one, but for a client that is done, which is looked at
/// again, and for faulty files, which are replayed. Without a next one the session is looked at.
pub proof fn law_card_commands_follow_the_action(
    action_id: Seq<char>,
    client: Seq<char>,
    next: Option<Seq<Seq<char>>>,
)
    ensures
        ({
            let c = card_command(action_id, client, next);
            let passed = action_id == "client_binding_release_gate_passed"@;
            let faulty = action_id == "refresh_invalid_client_binding_artifacts"@;
            let packet = action_id == "inspect_render_evidence_packet_for_artifact_repair"@;
            &&& passed ==> c == seq![
                "soma"@,
                "adapter-binding-proof"@,
                "--status"@,
                "--client"@,
                client,
                "--json"@,
            ]
            &&& faulty ==> c == seq![
                "soma"@,
                "adapter-binding-proof"@,
                "--verify-evidence-artifacts"@,
                "--client"@,
                client,
                "--json"@,
            ]
            &&& !passed && !faulty && next is Some ==> c == next->0
            &&& !passed && !faulty && !packet && next is None ==> c == seq![
                "soma"@,
                "adapter-binding-proof"@,
                "--proof-session"@,
                "--client"@,
                client,
                "--json"@,
            ]
        }),
{
    reveal_strlit("client_binding_release_gate_passed");
    reveal_strlit("refresh_invalid_client_binding_artifacts");
    assert("client_binding_release_gate_passed"@[0] == 'c');
    assert("refresh_invalid_client_binding_artifacts"@[0] == 'r');
}

/// The hook is told to be stored and verified, ready to be recorded, or what its files or
/// the ledger say, in that order.
pub proof fn law_hook_status_words(s: ClientBindingProofSessionStageView)
    ensures
        hook_status(None) == "stage_missing"@,
        s.ledger_status == "stored_verified"@ ==> hook_status(Some(s)) == "stored_verified"@,
        s.ledger_status != "stored_verified"@ && s.ready_to_record_now ==> hook_status(Some(s))
            == "ready_to_record"@,
        s.ledger_status != "stored_verified"@ && !s.ready_to_record_now && s.artifact_status is Some
            ==> hook_status(Some(s)) == s.artifact_status->0,
        s.ledger_status != "stored_verified"@ && !s.ready_to_record_now && s.artifact_status is None
            ==> hook_status(Some(s)) == s.ledger_status,
{
}

}
