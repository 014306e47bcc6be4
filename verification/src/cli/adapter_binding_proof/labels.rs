//! What the steps of a proof session are called, and what they are for.
use super::places::{display_name, private_client_display_name};
use crate::storage::ClientBindingProofLevel;
use crate::text::{cat2, cat3, same};
use vstd::prelude::*;

verus! {

/// The level of proof that a step leads to.
pub open spec fn step_level(step_id: Seq<char>) -> Option<ClientBindingProofLevel> {
    if step_id == "check_continue_devdata_collector_status"@ || step_id
        == "start_continue_devdata_collector_before_real_hook"@ || step_id
        == "trigger_private_client_hook"@ || step_id == "drain_adapter_spool"@ || step_id
        == "record_observed_app_hook"@ {
        Some(ClientBindingProofLevel::ObservedAppHook)
    } else if step_id == "render_review_surface"@ || step_id
        == "capture_in_client_render_evidence"@ || step_id == "record_observed_in_client_render"@ {
        Some(ClientBindingProofLevel::ObservedInClientRender)
    } else if step_id == "execute_rendered_review_control"@ || step_id
        == "record_observed_review_action"@ {
        Some(ClientBindingProofLevel::ObservedReviewAction)
    } else {
        None
    }
}

pub fn runbook_step_proof_level(step_id: &str) -> (r: Option<ClientBindingProofLevel>)
    ensures
        r == step_level(step_id@),
{
    if same(step_id, "check_continue_devdata_collector_status")
        || same(step_id, "start_continue_devdata_collector_before_real_hook")
        || same(step_id, "trigger_private_client_hook") || same(step_id, "drain_adapter_spool")
        || same(step_id, "record_observed_app_hook") {
        Some(ClientBindingProofLevel::ObservedAppHook)
    } else if same(step_id, "render_review_surface")
        || same(step_id, "capture_in_client_render_evidence")
        || same(step_id, "record_observed_in_client_render") {
        Some(ClientBindingProofLevel::ObservedInClientRender)
    } else if same(step_id, "execute_rendered_review_control")
        || same(step_id, "record_observed_review_action") {
        Some(ClientBindingProofLevel::ObservedReviewAction)
    } else {
        None
    }
}

/// The part of a session that a step belongs to.
pub open spec fn step_stage(step_id: Seq<char>) -> Seq<char> {
    if step_id == "record_reference_binding_manifest"@ || step_id
        == "render_or_write_installed_config"@ || step_id
        == "install_or_merge_private_client_config"@ || step_id == "check_installed_config"@ {
        "setup"@
    } else if step_id == "check_continue_devdata_collector_status"@ || step_id
        == "trigger_private_client_hook"@ || step_id
        == "start_continue_devdata_collector_before_real_hook"@ || step_id
        == "drain_adapter_spool"@ || step_id == "record_observed_event_file"@ || step_id
        == "record_observed_app_hook"@ {
        "app_hook"@
    } else if step_id == "render_review_surface"@ || step_id
        == "capture_in_client_render_evidence"@ || step_id == "record_observed_in_client_render"@ {
        "review_render"@
    } else if step_id == "execute_rendered_review_control"@ || step_id
        == "record_observed_review_action"@ {
        "review_action"@
    } else if step_id == "verify_evidence_artifacts_and_status"@ {
        "verification"@
    } else {
        "unknown"@
    }
}

pub fn runbook_step_stage(step_id: &str) -> (r: &'static str)
    ensures
        r@ == step_stage(step_id@),
{
    if same(step_id, "record_reference_binding_manifest")
        || same(step_id, "render_or_write_installed_config")
        || same(step_id, "install_or_merge_private_client_config")
        || same(step_id, "check_installed_config") {
        "setup"
    } else if same(step_id, "check_continue_devdata_collector_status")
        || same(step_id, "trigger_private_client_hook")
        || same(step_id, "start_continue_devdata_collector_before_real_hook")
        || same(step_id, "drain_adapter_spool") || same(step_id, "record_observed_event_file")
        || same(step_id, "record_observed_app_hook") {
        "app_hook"
    } else if same(step_id, "render_review_surface")
        || same(step_id, "capture_in_client_render_evidence")
        || same(step_id, "record_observed_in_client_render") {
        "review_render"
    } else if same(step_id, "execute_rendered_review_control")
        || same(step_id, "record_observed_review_action") {
        "review_action"
    } else if same(step_id, "verify_evidence_artifacts_and_status") {
        "verification"
    } else {
        "unknown"
    }
}

/// What a step leaves as evidence.
pub open spec fn step_evidence(step_id: Seq<char>) -> Seq<char> {
    if step_id == "record_reference_binding_manifest"@ {
        "binding_manifest"@
    } else if step_id == "render_or_write_installed_config"@ {
        "installed_config_preview"@
    } else if step_id == "install_or_merge_private_client_config"@ {
        "operator_installed_config"@
    } else if step_id == "check_installed_config"@ {
        "installed_config_scan"@
    } else if step_id == "check_continue_devdata_collector_status"@ {
        "continue_devdata_collector_status"@
    } else if step_id == "start_continue_devdata_collector_before_real_hook"@ {
        "continue_devdata_collector"@
    } else if step_id == "trigger_private_client_hook"@ {
        "private_client_lifecycle_event"@
    } else if step_id == "drain_adapter_spool"@ {
        "adapter_spool_drain_report"@
    } else if step_id == "record_observed_event_file"@ {
        "observed_event_file_proof"@
    } else if step_id == "record_observed_app_hook"@ {
        "observed_app_hook_proof"@
    } else if step_id == "render_review_surface"@ {
        "review_render_report"@
    } else if step_id == "capture_in_client_render_evidence"@ {
        "in_client_render_evidence_packet"@
    } else if step_id == "record_observed_in_client_render"@ {
        "observed_in_client_render_proof"@
    } else if step_id == "execute_rendered_review_control"@ {
        "review_action_report"@
    } else if step_id == "record_observed_review_action"@ {
        "observed_review_action_proof"@
    } else if step_id == "verify_evidence_artifacts_and_status"@ {
        "proof_status_and_artifact_replay"@
    } else {
        "unknown"@
    }
}

pub fn runbook_step_evidence_kind(step_id: &str) -> (r: &'static str)
    ensures
        r@ == step_evidence(step_id@),
{
    if same(step_id, "record_reference_binding_manifest") {
        "binding_manifest"
    } else if same(step_id, "render_or_write_installed_config") {
        "installed_config_preview"
    } else if same(step_id, "install_or_merge_private_client_config") {
        "operator_installed_config"
    } else if same(step_id, "check_installed_config") {
        "installed_config_scan"
    } else if same(step_id, "check_continue_devdata_collector_status") {
        "continue_devdata_collector_status"
    } else if same(step_id, "start_continue_devdata_collector_before_real_hook") {
        "continue_devdata_collector"
    } else if same(step_id, "trigger_private_client_hook") {
        "private_client_lifecycle_event"
    } else if same(step_id, "drain_adapter_spool") {
        "adapter_spool_drain_report"
    } else if same(step_id, "record_observed_event_file") {
        "observed_event_file_proof"
    } else if same(step_id, "record_observed_app_hook") {
        "observed_app_hook_proof"
    } else if same(step_id, "render_review_surface") {
        "review_render_report"
    } else if same(step_id, "capture_in_client_render_evidence") {
        "in_client_render_evidence_packet"
    } else if same(step_id, "record_observed_in_client_render") {
        "observed_in_client_render_proof"
    } else if same(step_id, "execute_rendered_review_control") {
        "review_action_report"
    } else if same(step_id, "record_observed_review_action") {
        "observed_review_action_proof"
    } else if same(step_id, "verify_evidence_artifacts_and_status") {
        "proof_status_and_artifact_replay"
    } else {
        "unknown"
    }
}

/// What the operator does for a step.
pub open spec fn step_action(step_id: Seq<char>) -> Seq<char> {
    if step_id == "render_or_write_installed_config"@ || step_id
        == "install_or_merge_private_client_config"@ {
        "write_or_install_private_client_binding_config"@
    } else if step_id == "trigger_private_client_hook"@ {
        "trigger_real_private_client_hook_to_write_private_spool_event"@
    } else if step_id == "start_continue_devdata_collector_before_real_hook"@ {
        "start_continue_devdata_collector_before_real_hook"@
    } else if step_id == "check_continue_devdata_collector_status"@ {
        "check_continue_devdata_collector_status"@
    } else if step_id == "record_observed_app_hook"@ {
        "record_observed_app_hook_from_real_event_after_operator_confirmation"@
    } else if step_id == "render_review_surface"@ {
        "render_client_review_surface"@
    } else if step_id == "capture_in_client_render_evidence"@ {
        "capture_in_client_render_evidence"@
    } else if step_id == "record_observed_in_client_render"@ {
        "record_observed_in_client_render_after_operator_confirmation"@
    } else if step_id == "execute_rendered_review_control"@ {
        "execute_rendered_review_control"@
    } else if step_id == "record_observed_review_action"@ {
        "record_observed_review_action_after_operator_confirmation"@
    } else if step_id == "verify_evidence_artifacts_and_status"@ {
        "verify_client_binding_evidence_artifacts"@
    } else {
        "continue_proof_session_"@ + step_id
    }
}

fn action_for_step(step_id: &str) -> (r: String)
    ensures
        r@ == step_action(step_id@),
{
    if same(step_id, "render_or_write_installed_config")
        || same(step_id, "install_or_merge_private_client_config") {
        "write_or_install_private_client_binding_config".to_string()
    } else if same(step_id, "trigger_private_client_hook") {
        "trigger_real_private_client_hook_to_write_private_spool_event".to_string()
    } else if same(step_id, "start_continue_devdata_collector_before_real_hook") {
        "start_continue_devdata_collector_before_real_hook".to_string()
    } else if same(step_id, "check_continue_devdata_collector_status") {
        "check_continue_devdata_collector_status".to_string()
    } else if same(step_id, "record_observed_app_hook") {
        "record_observed_app_hook_from_real_event_after_operator_confirmation".to_string()
    } else if same(step_id, "render_review_surface") {
        "render_client_review_surface".to_string()
    } else if same(step_id, "capture_in_client_render_evidence") {
        "capture_in_client_render_evidence".to_string()
    } else if same(step_id, "record_observed_in_client_render") {
        "record_observed_in_client_render_after_operator_confirmation".to_string()
    } else if same(step_id, "execute_rendered_review_control") {
        "execute_rendered_review_control".to_string()
    } else if same(step_id, "record_observed_review_action") {
        "record_observed_review_action_after_operator_confirmation".to_string()
    } else if same(step_id, "verify_evidence_artifacts_and_status") {
        "verify_client_binding_evidence_artifacts".to_string()
    } else {
        cat2("continue_proof_session_", step_id)
    }
}

/// What the operator does next.
pub open spec fn next_action(status: Seq<char>, next_step: Option<Seq<char>>) -> Seq<char> {
    if status == "proof_storage_unavailable"@ {
        "restore_client_binding_proof_storage_access"@
    } else if status == "ready_for_private_client_claim"@ {
        "client_binding_release_gate_passed"@
    } else if status == "blocked_by_stored_proof_integrity_or_identity"@ {
        if next_step == Some("capture_in_client_render_evidence"@) {
            "capture_in_client_render_evidence"@
        } else {
            "refresh_invalid_client_binding_artifacts"@
        }
    } else if status == "blocked_by_non_release_evidence_source"@ {
        "record_release_grade_private_client_proof"@
    } else {
        match next_step {
            Some(step) => step_action(step),
            None => "inspect_private_client_readiness"@,
        }
    }
}

pub fn proof_session_operator_next_action_id(status: &str, next_step_id: Option<&str>) -> (r:
    String)
    ensures
        r@ == next_action(status@, next_step_id.deep_view()),
{
    if same(status, "proof_storage_unavailable") {
        return "restore_client_binding_proof_storage_access".to_string();
    }
    if same(status, "ready_for_private_client_claim") {
        return "client_binding_release_gate_passed".to_string();
    }
    if same(status, "blocked_by_stored_proof_integrity_or_identity") {
        match next_step_id {
            Some(step) => if same(step, "capture_in_client_render_evidence") {
                return "capture_in_client_render_evidence".to_string();
            },
            None => {},
        }
        return "refresh_invalid_client_binding_artifacts".to_string();
    }
    if same(status, "blocked_by_non_release_evidence_source") {
        return "record_release_grade_private_client_proof".to_string();
    }
    match next_step_id {
        Some(step) => action_for_step(step),
        None => "inspect_private_client_readiness".to_string(),
    }
}

/// An action in a few words.
pub open spec fn action_label(action_id: Seq<char>, client: Seq<char>) -> Seq<char> {
    let name = display_name(client);
    if action_id == "client_binding_release_gate_passed"@ {
        "Release gate passed"@
    } else if action_id == "inspect_render_evidence_packet_for_artifact_repair"@ {
        "Inspect render evidence packet"@
    } else if action_id == "refresh_invalid_client_binding_artifacts"@ {
        "Refresh invalid binding artifacts"@
    } else if action_id == "restore_client_binding_proof_storage_access"@ {
        "Restore proof storage access"@
    } else if action_id == "record_release_grade_private_client_proof"@ {
        "Record release-grade private-client proof"@
    } else if action_id == "write_or_install_private_client_binding_config"@ {
        "Install "@ + name + " binding config"@
    } else if action_id == "trigger_real_private_client_hook_to_write_private_spool_event"@ {
        "Trigger real "@ + name + " hook"@
    } else if action_id == "start_continue_devdata_collector_before_real_hook"@ {
        "Start Continue dev-data collector"@
    } else if action_id == "check_continue_devdata_collector_status"@ {
        "Check Continue collector status"@
    } else if action_id == "record_observed_app_hook_from_real_event_after_operator_confirmation"@ {
        "Record observed app hook after confirmation"@
    } else if action_id == "render_client_review_surface"@ {
        "Render client review surface"@
    } else if action_id == "capture_in_client_render_evidence"@ {
        "Capture in-client render evidence"@
    } else if action_id == "record_observed_in_client_render_after_operator_confirmation"@ {
        "Record in-client render proof after confirmation"@
    } else if action_id == "execute_rendered_review_control"@ {
        "Execute rendered review control"@
    } else if action_id == "record_observed_review_action_after_operator_confirmation"@ {
        "Record review-action proof after confirmation"@
    } else if action_id == "verify_client_binding_evidence_artifacts"@ {
        "Verify client binding evidence artifacts"@
    } else {
        "Continue proof session"@
    }
}

pub fn proof_session_operator_next_action_label(action_id: &str, client: &str) -> (r: String)
    ensures
        r@ == action_label(action_id@, client@),
{
    let name = private_client_display_name(client);
    if same(action_id, "client_binding_release_gate_passed") {
        "Release gate passed".to_string()
    } else if same(action_id, "inspect_render_evidence_packet_for_artifact_repair") {
        "Inspect render evidence packet".to_string()
    } else if same(action_id, "refresh_invalid_client_binding_artifacts") {
        "Refresh invalid binding artifacts".to_string()
    } else if same(action_id, "restore_client_binding_proof_storage_access") {
        "Restore proof storage access".to_string()
    } else if same(action_id, "record_release_grade_private_client_proof") {
        "Record release-grade private-client proof".to_string()
    } else if same(action_id, "write_or_install_private_client_binding_config") {
        cat3("Install ", name.as_str(), " binding config")
    } else if same(action_id, "trigger_real_private_client_hook_to_write_private_spool_event") {
        cat3("Trigger real ", name.as_str(), " hook")
    } else if same(action_id, "start_continue_devdata_collector_before_real_hook") {
        "Start Continue dev-data collector".to_string()
    } else if same(action_id, "check_continue_devdata_collector_status") {
        "Check Continue collector status".to_string()
    } else if same(
        action_id, "record_observed_app_hook_from_real_event_after_operator_confirmation") {
        "Record observed app hook after confirmation".to_string()
    } else if same(action_id, "render_client_review_surface") {
        "Render client review surface".to_string()
    } else if same(action_id, "capture_in_client_render_evidence") {
        "Capture in-client render evidence".to_string()
    } else if same(action_id, "record_observed_in_client_render_after_operator_confirmation") {
        "Record in-client render proof after confirmation".to_string()
    } else if same(action_id, "execute_rendered_review_control") {
        "Execute rendered review control".to_string()
    } else if same(action_id, "record_observed_review_action_after_operator_confirmation") {
        "Record review-action proof after confirmation".to_string()
    } else if same(action_id, "verify_client_binding_evidence_artifacts") {
        "Verify client binding evidence artifacts".to_string()
    } else {
        "Continue proof session".to_string()
    }
}

/// An action as a headline.
pub open spec fn action_headline(action_id: Seq<char>, client: Seq<char>) -> Seq<char> {
    let name = display_name(client);
    if action_id == "client_binding_release_gate_passed"@ {
        name + " private-client release proof is ready."@
    } else if action_id == "inspect_render_evidence_packet_for_artifact_repair"@ {
        name + " render evidence needs fresh private-client UI observation."@
    } else if action_id == "refresh_invalid_client_binding_artifacts"@ {
        name + " proof artifacts changed or failed replay."@
    } else if action_id == "restore_client_binding_proof_storage_access"@ {
        name + " proof storage is unreadable."@
    } else if action_id == "record_release_grade_private_client_proof"@ {
        name + " proof exists, but release-grade evidence is still required."@
    } else if action_id == "write_or_install_private_client_binding_config"@ {
        "Install the "@ + name + " SOMA binding config before app-hook proof."@
    } else if action_id == "trigger_real_private_client_hook_to_write_private_spool_event"@ {
        "Trigger a real "@ + name + " private app hook."@
    } else if action_id == "check_continue_devdata_collector_status"@ {
        "Check Continue dev-data collector status."@
    } else if action_id == "record_observed_app_hook_from_real_event_after_operator_confirmation"@ {
        "Record "@ + name + " app-hook proof after real-event confirmation."@
    } else if action_id == "render_client_review_surface"@ {
        "Render the "@ + name + " review surface before UI proof."@
    } else if action_id == "capture_in_client_render_evidence"@ {
        "Capture structured "@ + name + " in-client render evidence."@
    } else if action_id == "record_observed_in_client_render_after_operator_confirmation"@ {
        "Record "@ + name + " in-client render proof after confirmation."@
    } else if action_id == "execute_rendered_review_control"@ {
        "Execute a rendered "@ + name + " review control."@
    } else if action_id == "record_observed_review_action_after_operator_confirmation"@ {
        "Record "@ + name + " review-action proof after confirmation."@
    } else {
        "Continue the "@ + name + " proof session."@
    }
}

pub fn operator_card_headline(action_id: &str, client: &str) -> (r: String)
    ensures
        r@ == action_headline(action_id@, client@),
{
    let name = private_client_display_name(client);
    if same(action_id, "client_binding_release_gate_passed") {
        cat2(name.as_str(), " private-client release proof is ready.")
    } else if same(action_id, "inspect_render_evidence_packet_for_artifact_repair") {
        cat2(name.as_str(), " render evidence needs fresh private-client UI observation.")
    } else if same(action_id, "refresh_invalid_client_binding_artifacts") {
        cat2(name.as_str(), " proof artifacts changed or failed replay.")
    } else if same(action_id, "restore_client_binding_proof_storage_access") {
        cat2(name.as_str(), " proof storage is unreadable.")
    } else if same(action_id, "record_release_grade_private_client_proof") {
        cat2(name.as_str(), " proof exists, but release-grade evidence is still required.")
    } else if same(action_id, "write_or_install_private_client_binding_config") {
        cat3("Install the ", name.as_str(), " SOMA binding config before app-hook proof.")
    } else if same(action_id, "trigger_real_private_client_hook_to_write_private_spool_event") {
        cat3("Trigger a real ", name.as_str(), " private app hook.")
    } else if same(action_id, "check_continue_devdata_collector_status") {
        "Check Continue dev-data collector status.".to_string()
    } else if same(
        action_id, "record_observed_app_hook_from_real_event_after_operator_confirmation") {
        cat3("Record ", name.as_str(), " app-hook proof after real-event confirmation.")
    } else if same(action_id, "render_client_review_surface") {
        cat3("Render the ", name.as_str(), " review surface before UI proof.")
    } else if same(action_id, "capture_in_client_render_evidence") {
        cat3("Capture structured ", name.as_str(), " in-client render evidence.")
    } else if same(action_id, "record_observed_in_client_render_after_operator_confirmation") {
        cat3("Record ", name.as_str(), " in-client render proof after confirmation.")
    } else if same(action_id, "execute_rendered_review_control") {
        cat3("Execute a rendered ", name.as_str(), " review control.")
    } else if same(action_id, "record_observed_review_action_after_operator_confirmation") {
        cat3("Record ", name.as_str(), " review-action proof after confirmation.")
    } else {
        cat3("Continue the ", name.as_str(), " proof session.")
    }
}

}
