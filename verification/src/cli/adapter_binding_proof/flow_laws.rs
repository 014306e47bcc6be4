//! What holds of the steps that an operator is led through.
use super::flow::{flow_steps, named_paths, operator_flow, record_call, FlowPathsView};
use super::labels::step_level;
use super::places::private_event_source;
use super::session::runbook_step;
use super::types::{ClientBindingOperatorFlowStepView, ClientBindingProofSessionStageView, HostView};
use crate::json::JsonView;
use crate::storage::{level_name, ClientBindingProofLevel};
use vstd::prelude::*;

verus! {

/// An action outside SOMA is only described: it records no proof, creates no verification
/// event and promotes no draft. It stands only where the hook of the private client comes
/// next.
pub proof fn law_outside_actions_change_nothing(
    client: Seq<char>,
    dir: Seq<char>,
    step: ClientBindingOperatorFlowStepView,
    next_step: Option<Seq<char>>,
    stages: Seq<ClientBindingProofSessionStageView>,
    host: HostView,
)
    ensures
        runbook_step(client, dir, step, next_step, stages, host).external_action matches Some(a)
            ==> {
            &&& !a.records_proof
            &&& !a.creates_verification_event
            &&& !a.promotes_cloud_draft
            &&& a.proof_session_step_id == step.id
            &&& a.client == client
        },
{
}

proof fn lemma_first_records_have_no_level()
    ensures
        step_level("record_reference_binding_manifest"@) is None,
        step_level("record_observed_event_file"@) is None,
{
    reveal_strlit("record_reference_binding_manifest");
    reveal_strlit("record_observed_event_file");
    reveal_strlit("check_continue_devdata_collector_status");
    reveal_strlit("start_continue_devdata_collector_before_real_hook");
    reveal_strlit("trigger_private_client_hook");
    reveal_strlit("drain_adapter_spool");
    reveal_strlit("record_observed_app_hook");
    reveal_strlit("render_review_surface");
    reveal_strlit("capture_in_client_render_evidence");
    reveal_strlit("record_observed_in_client_render");
    reveal_strlit("execute_rendered_review_control");
    reveal_strlit("record_observed_review_action");
    assert("record_reference_binding_manifest"@.len() == 33);
    assert("record_observed_event_file"@.len() == 26);
    assert("check_continue_devdata_collector_status"@.len() == 39);
    assert("start_continue_devdata_collector_before_real_hook"@.len() == 49);
    assert("trigger_private_client_hook"@.len() == 27);
    assert("drain_adapter_spool"@.len() == 19);
    assert("record_observed_app_hook"@.len() == 24);
    assert("render_review_surface"@.len() == 21);
    assert("capture_in_client_render_evidence"@.len() == 33);
    assert("record_observed_in_client_render"@.len() == 32);
    assert("execute_rendered_review_control"@.len() == 31);
    assert("record_observed_review_action"@.len() == 29);
    assert("record_reference_binding_manifest"@[1] == 'e');
    assert("capture_in_client_render_evidence"@[1] == 'a');
}

/// The proof of a level that a claim rests on is never recorded without an operator.
pub proof fn law_claims_are_recorded_by_operators(
    client: Seq<char>,
    manifest_path: Option<Seq<char>>,
    event_source: Option<Seq<char>>,
    nonce: Seq<char>,
    artifact_dir: Option<Seq<char>>,
    config_root: Option<Seq<char>>,
    installed_config: Option<Seq<char>>,
    event_jsonl: Option<Seq<char>>,
    review_render: Option<Seq<char>>,
    render_evidence: Option<Seq<char>>,
    review_action: Option<Seq<char>>,
    host: HostView,
    i: int,
)
    requires
        0 <= i < operator_flow(
            client,
            manifest_path,
            event_source,
            nonce,
            artifact_dir,
            config_root,
            installed_config,
            event_jsonl,
            review_render,
            render_evidence,
            review_action,
            host,
        ).len(),
    ensures
        ({
            let step = operator_flow(
                client,
                manifest_path,
                event_source,
                nonce,
                artifact_dir,
                config_root,
                installed_config,
                event_jsonl,
                review_render,
                render_evidence,
                review_action,
                host,
            )[i];
            step.records_proof && step_level(step.id) is Some ==> step.requires_operator_action
        }),
{
    lemma_first_records_have_no_level();
}

/// The way to a claim has fourteen steps in one order: first what sets the client up, then
/// the hook, the shown review, the action on it, and at the last a look at what is stored.
pub proof fn law_steps_stand_in_order(p: FlowPathsView)
    ensures
        ({
            let f = flow_steps(p);
            &&& f.len() == 14
            &&& f[0].id == "record_reference_binding_manifest"@
            &&& f[1].id == "render_or_write_installed_config"@
            &&& f[2].id == "install_or_merge_private_client_config"@
            &&& f[3].id == "check_installed_config"@
            &&& f[4].id == "trigger_private_client_hook"@
            &&& f[5].id == "drain_adapter_spool"@
            &&& f[6].id == "record_observed_event_file"@
            &&& f[7].id == "record_observed_app_hook"@
            &&& f[8].id == "render_review_surface"@
            &&& f[9].id == "capture_in_client_render_evidence"@
            &&& f[10].id == "record_observed_in_client_render"@
            &&& f[11].id == "execute_rendered_review_control"@
            &&& f[12].id == "record_observed_review_action"@
            &&& f[13].id == "verify_evidence_artifacts_and_status"@
            &&& forall|i: int|
                0 <= i < 14 ==> ((#[trigger] f[i]).records_proof <==> i == 0 || i == 6 || i == 7
                    || i == 10 || i == 12)
            &&& forall|i: int|
                0 <= i < 14 ==> ((#[trigger] f[i]).requires_operator_action <==> i == 2 || i == 4
                    || i == 7 || i == 9 || i == 10 || i == 11 || i == 12)
        }),
{
}

/// A path that is given is the one that the steps name; else each has its own default. A run
/// goes by the source and the nonce that were given.
pub proof fn law_given_paths_are_the_ones_named(
    client: Seq<char>,
    manifest_path: Option<Seq<char>>,
    event_source: Option<Seq<char>>,
    nonce: Seq<char>,
    dir: Seq<char>,
    config_root: Option<Seq<char>>,
    config: Seq<char>,
    events: Seq<char>,
    render: Seq<char>,
    evidence: Seq<char>,
    action: Seq<char>,
    host: HostView,
)
    ensures
        ({
            let p = named_paths(
                client,
                manifest_path,
                event_source,
                nonce,
                dir,
                config_root,
                Some(config),
                Some(events),
                Some(render),
                Some(evidence),
                Some(action),
                host,
            );
            &&& p.client == client && p.nonce == nonce && p.artifact_dir == dir
            &&& p.config_root == config_root && p.manifest_path == manifest_path
            &&& p.installed_config == config && p.event_jsonl == events
            &&& p.review_render == render && p.render_evidence == evidence && p.review_action
                == action
            &&& event_source matches Some(s) ==> p.event_source == s
            &&& manifest_path matches Some(m) ==> p.manifest == m
            &&& p.app_hook_source == "private_client_operator_observed_"@ + client + "_"@
                + "observed_app_hook"@
            &&& p.render_source == "private_client_operator_observed_"@ + client + "_"@
                + "observed_in_client_render"@
            &&& p.review_action_source == "private_client_operator_observed_"@ + client + "_"@
                + "observed_review_action"@
        }),
        ({
            let p = named_paths(
                client,
                manifest_path,
                None,
                nonce,
                dir,
                config_root,
                None,
                None,
                None,
                None,
                None,
                host,
            );
            &&& p.installed_config == "<"@ + client + "-hook-config>"@
            &&& p.event_source == private_event_source(client)
            &&& p.event_jsonl == "$HOME/.soma/adapter/events.jsonl"@
            &&& p.review_render == dir + "/"@ + "review-render.json"@
            &&& p.render_evidence == dir + "/"@ + "render-evidence.json"@
            &&& p.review_action == dir + "/"@ + "review-action.json"@
        }),
{
}

/// The command that records a shown review or an action names its level, its files and its
/// source, each behind its own flag, and the two confirmations.
pub proof fn law_recording_commands_name_their_evidence(p: FlowPathsView)
    ensures
        flow_steps(p)[10].command == Some(
            seq![
                "soma"@,
                "adapter-binding-proof"@,
                "--manifest"@,
                p.manifest,
                "--proof-level"@,
                "observed_in_client_render"@,
                "--installed-config"@,
                p.installed_config,
                "--review-render-report"@,
                p.review_render,
                "--render-evidence"@,
                p.render_evidence,
                "--evidence-source"@,
                p.render_source,
                "--operator-confirm-in-client-render"@,
                "--operator-confirm-release-grade-evidence"@,
            ],
        ),
        flow_steps(p)[12].command == Some(
            seq![
                "soma"@,
                "adapter-binding-proof"@,
                "--manifest"@,
                p.manifest,
                "--proof-level"@,
                "observed_review_action"@,
                "--installed-config"@,
                p.installed_config,
                "--review-action-report"@,
                p.review_action,
                "--evidence-source"@,
                p.review_action_source,
                "--operator-confirm-review-action"@,
                "--operator-confirm-release-grade-evidence"@,
            ],
        ),
        flow_steps(p)[6].command == Some(
            seq![
                "soma"@,
                "adapter-binding-proof"@,
                "--manifest"@,
                p.manifest,
                "--proof-level"@,
                "observed_event_file"@,
                "--event-jsonl"@,
                p.event_jsonl,
            ],
        ),
        flow_steps(p)[5].command == Some(
            seq![
                "soma"@,
                "adapter-spool"@,
                "--jsonl"@,
                p.event_jsonl,
                "--checkpoint"@,
                "$HOME/.soma/adapter/events.offset"@,
            ],
        ),
        flow_steps(p)[3].command == Some(
            seq![
                "soma"@,
                "adapter-binding-proof"@,
                "--check-installed-config"@,
                "--manifest"@,
                p.manifest,
                "--installed-config"@,
                p.installed_config,
            ],
        ),
        flow_steps(p)[2].command is None,
{
    assert(flow_steps(p)[10].command->0 =~= seq![
        "soma"@,
        "adapter-binding-proof"@,
        "--manifest"@,
        p.manifest,
        "--proof-level"@,
        "observed_in_client_render"@,
        "--installed-config"@,
        p.installed_config,
        "--review-render-report"@,
        p.review_render,
        "--render-evidence"@,
        p.render_evidence,
        "--evidence-source"@,
        p.render_source,
        "--operator-confirm-in-client-render"@,
        "--operator-confirm-release-grade-evidence"@,
    ]);
    assert(flow_steps(p)[12].command->0 =~= seq![
        "soma"@,
        "adapter-binding-proof"@,
        "--manifest"@,
        p.manifest,
        "--proof-level"@,
        "observed_review_action"@,
        "--installed-config"@,
        p.installed_config,
        "--review-action-report"@,
        p.review_action,
        "--evidence-source"@,
        p.review_action_source,
        "--operator-confirm-review-action"@,
        "--operator-confirm-release-grade-evidence"@,
    ]);
    assert(flow_steps(p)[6].command->0 =~= seq![
        "soma"@,
        "adapter-binding-proof"@,
        "--manifest"@,
        p.manifest,
        "--proof-level"@,
        "observed_event_file"@,
        "--event-jsonl"@,
        p.event_jsonl,
    ]);
    assert(flow_steps(p)[5].command->0 =~= seq![
        "soma"@,
        "adapter-spool"@,
        "--jsonl"@,
        p.event_jsonl,
        "--checkpoint"@,
        "$HOME/.soma/adapter/events.offset"@,
    ]);
    assert(flow_steps(p)[3].command->0 =~= seq![
        "soma"@,
        "adapter-binding-proof"@,
        "--check-installed-config"@,
        "--manifest"@,
        p.manifest,
        "--installed-config"@,
        p.installed_config,
    ]);
}

/// A call that records a proof names the manifest, the client, the level and the source, and
/// the release-grade confirmation iff a claim rests on the level.
pub proof fn law_recording_calls_name_what_they_record(
    client: Seq<char>,
    manifest: Seq<char>,
    level: ClientBindingProofLevel,
    source: Seq<char>,
    config: Option<Seq<char>>,
    confirmation: Option<Seq<char>>,
)
    ensures
        ({
            let c = record_call(
                client,
                manifest,
                level,
                source,
                None,
                config,
                None,
                None,
                None,
                confirmation,
            );
            let m = c.arguments->Object_0;
            let graded = level is ObservedAppHook || level is ObservedInClientRender || level
                is ObservedReviewAction;
            &&& c.tool == "soma_client_binding_record_proof"@
            &&& m[0] == ("manifest"@, JsonView::Text(manifest))
            &&& m[1] == ("client"@, JsonView::Text(client))
            &&& m[2] == ("proof_level"@, JsonView::Text(level_name(level)))
            &&& m[3] == ("evidence_source"@, JsonView::Text(source))
            &&& config matches Some(x) ==> m[4] == ("installed_config"@, JsonView::Text(x))
            &&& graded ==> m.last() == (
                "operator_confirm_release_grade_evidence"@,
                JsonView::Bool(true),
            )
            &&& !graded && confirmation is Some ==> m.last() == (
                confirmation->0,
                JsonView::Bool(true),
            )
            &&& !graded && confirmation is None && config is None ==> m.len() == 4
        }),
{
}

}
