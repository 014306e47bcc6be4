//! What holds of the stages of every proof session, word by word.
use super::kit::artifact_of;
use super::readiness::entry;
use super::session::{
    client_step, external_action, first_pending, ledger_status, level_failed, level_incoherences,
    levels_in, next_step_of, readiness_of, record_step, recordable, safety_of, session_next_step,
    session_of, session_status, some_ledger, some_stored_fault, source_reason, stage_of,
    stage_reasons, stages_of, step_file_kind, step_safety, stored_ready, SessionInput, StageKind,
};
use super::types::{
    AdapterBindingRealAppProofKitOutcomeView, ClientBindingOperatorFlowStepView,
    ClientBindingReadinessStatusView, ContinueDevdataCollectorProbeView, HostView,
    RealAppProofReadinessView,
};
use crate::storage::ClientBindingProofLevel;
use vstd::prelude::*;
use vstd::string::*;

verus! {

/// What the ledger holds of a level is told by a word: missing where nothing is stored;
/// failed where a file of it is no longer what it was; of another identity where its
/// configuration differs; not of release grade where its source is not; and verified only
/// where none of these holds.
pub proof fn law_ledger_words(
    level: ClientBindingProofLevel,
    s: ClientBindingReadinessStatusView,
)
    ensures
        ledger_status(level, None) == "missing"@,
        ({
            let w = ledger_status(level, Some(s));
            let stored = entry(s.latest_by_level, level);
            let failed = level_failed(s.artifact_failures, level) || !stored->0.all_artifacts_verified;
            let differs = level_incoherences(s.coherence_failures, level).len() > 0;
            let weak = source_reason(s.non_release_evidence_sources, level) is Some;
            &&& stored is None ==> w == "missing"@
            &&& stored is Some && failed ==> w == "stored_but_artifact_integrity_failed"@
            &&& stored is Some && !failed && differs ==> w == "stored_but_identity_mismatch"@
            &&& stored is Some && !failed && !differs && weak ==> w
                == "stored_but_non_release_evidence_source"@
            &&& stored is Some && !failed && !differs && !weak ==> w == "stored_verified"@
        }),
{
}

/// A level can be recorded now iff its files are ready and the ledger holds nothing of it,
/// or only what failed or differs. A stored proof from a weak source is not overwritten
/// here, nor a verified one.
pub proof fn law_levels_are_recorded_when_missing(
    ledger: Seq<char>,
    ready: Option<RealAppProofReadinessView>,
)
    ensures
        recordable(ledger, ready) <==> ready is Some && ready->0.ready_to_attempt_record && (ledger
            == "missing"@ || ledger == "stored_but_artifact_integrity_failed"@ || ledger
            == "stored_but_identity_mismatch"@),
        record_step(ClientBindingProofLevel::ObservedAppHook) == Some("record_observed_app_hook"@),
        record_step(ClientBindingProofLevel::ObservedInClientRender) == Some(
            "record_observed_in_client_render"@,
        ),
        record_step(ClientBindingProofLevel::ObservedReviewAction) == Some(
            "record_observed_review_action"@,
        ),
        record_step(ClientBindingProofLevel::ReferenceBinding) is None,
        record_step(ClientBindingProofLevel::ObservedEventFile) is None,
{
}

/// A stage tells of its level what the ledger and the files say, and what blocks it; a
/// level that is stored and verified is blocked by nothing.
pub proof fn law_stages_tell_what_blocks_them(
    level: ClientBindingProofLevel,
    status: Option<ClientBindingReadinessStatusView>,
    kit: AdapterBindingRealAppProofKitOutcomeView,
    flow: Seq<ClientBindingOperatorFlowStepView>,
)
    ensures
        ({
            let s = stage_of(level, status, kit, flow);
            let ready = readiness_of(kit.proof_readiness, level);
            &&& s.proof_level == level
            &&& s.ledger_status == ledger_status(level, status)
            &&& s.ready_to_record_now <==> recordable(s.ledger_status, ready)
            &&& s.blocking_reasons == stage_reasons(level, status, ready)
            &&& s.ledger_status == "stored_verified"@ ==> s.blocking_reasons.len() == 0
            &&& s.ledger_status == "missing"@ && ready is Some ==> s.blocking_reasons
                == ready->0.missing_requirements
        }),
{
    reveal_strlit("missing");
    reveal_strlit("stored_but_artifact_integrity_failed");
    reveal_strlit("stored_but_identity_mismatch");
    reveal_strlit("stored_but_non_release_evidence_source");
    reveal_strlit("stored_verified");
    assert("missing"@.len() == 7);
    assert("stored_but_artifact_integrity_failed"@.len() == 36);
    assert("stored_but_identity_mismatch"@.len() == 28);
    assert("stored_but_non_release_evidence_source"@.len() == 38);
    assert("stored_verified"@.len() == 15);
}

/// The next step records a level that can be recorded; else it leads there: to the
/// configuration until one is eligible and then to the hook, to the review surface until its
/// report is valid and then to its evidence, to the rendered control for a review action.
pub proof fn law_next_step_leads_to_the_level(
    recordable_now: bool,
    kit: AdapterBindingRealAppProofKitOutcomeView,
)
    ensures
        ({
            let hook = next_step_of(ClientBindingProofLevel::ObservedAppHook, recordable_now, kit);
            let render = next_step_of(
                ClientBindingProofLevel::ObservedInClientRender,
                recordable_now,
                kit,
            );
            let action = next_step_of(
                ClientBindingProofLevel::ObservedReviewAction,
                recordable_now,
                kit,
            );
            let config = artifact_of(kit.artifacts, "installed_config"@);
            let report = artifact_of(kit.artifacts, "review_render_report"@);
            &&& recordable_now ==> hook == "record_observed_app_hook"@ && render
                == "record_observed_in_client_render"@ && action == "record_observed_review_action"@
            &&& !recordable_now && config is Some && config->0.status == "eligible"@ ==> hook
                == "trigger_private_client_hook"@
            &&& !recordable_now && config is Some && config->0.status != "eligible"@
                && config->0.provided ==> hook == "check_installed_config"@
            &&& !recordable_now && (config is None || (config->0.status != "eligible"@
                && !config->0.provided)) ==> hook == "render_or_write_installed_config"@
            &&& !recordable_now && report is Some && report->0.status == "valid"@ ==> render
                == "capture_in_client_render_evidence"@
            &&& !recordable_now && (report is None || report->0.status != "valid"@) ==> render
                == "render_review_surface"@
            &&& !recordable_now ==> action == "execute_rendered_review_control"@
        }),
{
}

/// Before the hook of the one client with a collector is triggered, a collector that was
/// seen to be down is to be started, and one whose state is unknown to be looked at. No
/// other step and no other client waits for a collector.
pub proof fn law_collectors_come_before_the_hook(
    client: Seq<char>,
    step_id: Seq<char>,
    p: ContinueDevdataCollectorProbeView,
)
    ensures
        ({
            let s = client_step(client, step_id, Some(p));
            let waits = client == "continue"@ && step_id == "trigger_private_client_hook"@
                && p.devdata_destination_visible;
            &&& !waits ==> s == step_id
            &&& waits && p.collector_status == "not_listening"@ ==> s
                == "start_continue_devdata_collector_before_real_hook"@
            &&& waits && (p.collector_status == "probe_blocked"@ || p.collector_status
                == "probe_unavailable"@) ==> s == "check_continue_devdata_collector_status"@
            &&& waits && p.collector_status != "not_listening"@ && p.collector_status
                != "probe_blocked"@ && p.collector_status != "probe_unavailable"@ ==> s == step_id
        }),
        client_step(client, step_id, None) == step_id,
{
    reveal_strlit("not_listening");
    reveal_strlit("probe_blocked");
    reveal_strlit("probe_unavailable");
    assert("not_listening"@[0] == 'n');
    assert("probe_blocked"@[0] == 'p');
    assert("probe_unavailable"@[0] == 'p');
}

/// An action outside is described only for triggering the hook, with the safety that is
/// known of it; it records nothing, verifies nothing and promotes nothing.
pub proof fn law_outside_actions_record_nothing(
    client: Seq<char>,
    action_id: Seq<char>,
    label: Seq<char>,
    step_id: Seq<char>,
    probe: Option<Seq<Seq<char>>>,
    host: HostView,
)
    ensures
        external_action(client, action_id, label, step_id, probe, host) matches Some(a) ==> {
            &&& step_id == "trigger_private_client_hook"@
            &&& action_id == "trigger_real_private_client_hook_to_write_private_spool_event"@
            &&& a.client == client && a.action_id == action_id && a.proof_session_step_id == step_id
            &&& !a.records_proof && !a.creates_verification_event && !a.promotes_cloud_draft
            &&& safety_of(host.safety, action_id) matches Some(s) && {
                &&& a.requires_operator_confirmation_before_submission
                    == s.requires_operator_confirmation_before_submission
                &&& a.may_transmit_prompt_to_provider == s.may_transmit_prompt_to_provider
                &&& a.forbidden_inputs == s.forbidden_inputs
            }
        },
        step_id != "trigger_private_client_hook"@ ==> step_safety(step_id, host) is None,
{
}

/// Each step writes the file of its kind: the review surface its report, the capture and the
/// render proof their evidence, the control and the action proof the report of the action.
pub proof fn law_steps_write_their_files(step_id: Seq<char>)
    ensures
        step_id == "render_review_surface"@ ==> step_file_kind(step_id) == Some(
            "review_render_report"@,
        ),
        step_id == "capture_in_client_render_evidence"@ || step_id
            == "record_observed_in_client_render"@ ==> step_file_kind(step_id) == Some(
            "render_evidence"@,
        ),
        step_id == "execute_rendered_review_control"@ || step_id == "record_observed_review_action"@
            ==> step_file_kind(step_id) == Some("review_action_report"@),
{
    reveal_strlit("render_review_surface");
    reveal_strlit("capture_in_client_render_evidence");
    reveal_strlit("record_observed_in_client_render");
    reveal_strlit("execute_rendered_review_control");
    reveal_strlit("record_observed_review_action");
    assert("render_review_surface"@.len() == 21);
    assert("capture_in_client_render_evidence"@.len() == 33);
    assert("record_observed_in_client_render"@.len() == 32);
    assert("execute_rendered_review_control"@.len() == 31);
    assert("record_observed_review_action"@.len() == 29);
}

/// A session is ready iff all is stored and the configuration stands at its place. Else its
/// status tells the nearest way on: the configuration where only that is missing, a
/// recording where one can be made, then what is wrong with what is stored, and at the last
/// what is missing. It is open for release iff it is ready.
pub proof fn law_session_status_tells_the_way_on(x: SessionInput)
    ensures
        ({
            let s = session_of(x);
            let stages = stages_of(x);
            let ready = stored_ready(x);
            let due = levels_in(stages, StageKind::Recordable).len() > 0;
            let weak = some_ledger(stages, "stored_but_non_release_evidence_source"@);
            &&& s.client == x.client
            &&& s.ready_for_private_client_claim <==> ready && x.target_ready
            &&& s.release_gate == "pass"@ <==> ready && x.target_ready
            &&& ready && x.target_ready ==> s.status == "ready_for_private_client_claim"@
            &&& ready && !x.target_ready ==> s.status
                == "blocked_by_missing_private_target_config"@ && s.next_step_id == Some(
                "install_or_merge_private_client_config"@,
            )
            &&& !ready && due ==> s.status == "proof_artifacts_ready_for_operator_recording"@
            &&& !ready && !due && weak ==> s.status == "blocked_by_non_release_evidence_source"@
            &&& !ready && !due && !weak && some_stored_fault(stages) ==> s.status
                == "blocked_by_stored_proof_integrity_or_identity"@
            &&& !ready && !due && !weak && !some_stored_fault(stages) ==> s.status
                == "blocked_by_missing_or_invalid_artifacts"@
            &&& s.status == session_status(x)
            &&& s.next_step_id == session_next_step(x)
            &&& (!ready || x.target_ready) && first_pending(stages) is None ==> s.next_step_id
                is None
        }),
{
    reveal_strlit("pass");
    reveal_strlit("fail");
    assert("pass"@[0] == 'p');
    assert("fail"@[0] == 'f');
}

}
