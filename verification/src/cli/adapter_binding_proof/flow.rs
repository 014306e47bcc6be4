//! The steps that lead to a complete proof, and the commands and tool calls in them.
use super::places::{
    default_private_event_source, display_name, durable_client_artifact_dir,
    durable_client_artifact_dir_for_run, durable_client_artifact_path_in_dir, durable_dir, file_in,
    manifest_arg, manifest_path_for_mcp_arg, manifest_to_name, mcp_manifest,
    private_client_display_name, private_event_source, ANY_RUN,
};
use super::types::{
    ClientBindingMcpCallTemplate, ClientBindingMcpCallTemplateView, ClientBindingOperatorFlowStep,
    ClientBindingOperatorFlowStepView, Host, HostView,
};
use crate::cli::binary_identity::{
    command_with_current_binary_when_path_soma_differs, operator_bin, operator_command,
    resolved_soma_bin_for_operator_command, BinaryIdentity, BinaryIdentityView,
};
use crate::dup::Dup;
use crate::json::{JsonView, Members};

use crate::outcome::{borrowed, nonblank, owned};
use crate::storage::{level_name, ClientBindingProofLevel};
use crate::text::{cat2, cat3, cat4, cat5, nil, none, same, trim, with, Words};
use vstd::prelude::*;
use vstd::string::*;

verus! {

/// What the steps of a flow name: the client, its files, and the words that the proofs are
/// recorded with.
#[derive(Debug)]
pub struct FlowPaths {
    pub client: String,
    pub manifest: String,
    pub installed_config: String,
    pub event_source: String,
    pub nonce: String,
    pub event_jsonl: String,
    pub artifact_dir: String,
    pub review_render: String,
    pub render_evidence: String,
    pub review_action: String,
    pub app_hook_source: String,
    pub render_source: String,
    pub review_action_source: String,
    pub soma_bin: String,
    pub mcp_manifest: String,
    pub config_root: Option<String>,
    pub manifest_path: Option<String>,
}

/// What a `FlowPaths` holds.
#[verifier::ext_equal]
pub struct FlowPathsView {
    pub client: Seq<char>,
    pub manifest: Seq<char>,
    pub installed_config: Seq<char>,
    pub event_source: Seq<char>,
    pub nonce: Seq<char>,
    pub event_jsonl: Seq<char>,
    pub artifact_dir: Seq<char>,
    pub review_render: Seq<char>,
    pub render_evidence: Seq<char>,
    pub review_action: Seq<char>,
    pub app_hook_source: Seq<char>,
    pub render_source: Seq<char>,
    pub review_action_source: Seq<char>,
    pub soma_bin: Seq<char>,
    pub mcp_manifest: Seq<char>,
    pub config_root: Option<Seq<char>>,
    pub manifest_path: Option<Seq<char>>,
}

impl DeepView for FlowPaths {
    type V = FlowPathsView;

    open spec fn deep_view(&self) -> FlowPathsView {
        FlowPathsView {
            client: self.client.deep_view(),
            manifest: self.manifest.deep_view(),
            installed_config: self.installed_config.deep_view(),
            event_source: self.event_source.deep_view(),
            nonce: self.nonce.deep_view(),
            event_jsonl: self.event_jsonl.deep_view(),
            artifact_dir: self.artifact_dir.deep_view(),
            review_render: self.review_render.deep_view(),
            render_evidence: self.render_evidence.deep_view(),
            review_action: self.review_action.deep_view(),
            app_hook_source: self.app_hook_source.deep_view(),
            render_source: self.render_source.deep_view(),
            review_action_source: self.review_action_source.deep_view(),
            soma_bin: self.soma_bin.deep_view(),
            mcp_manifest: self.mcp_manifest.deep_view(),
            config_root: self.config_root.deep_view(),
            manifest_path: self.manifest_path.deep_view(),
        }
    }
}

/// The levels that a release rests on.
pub open spec fn is_release_level(level: ClientBindingProofLevel) -> bool {
    ||| level == ClientBindingProofLevel::ObservedAppHook
    ||| level == ClientBindingProofLevel::ObservedInClientRender
    ||| level == ClientBindingProofLevel::ObservedReviewAction
}

pub fn release_claim_proof_level(level: ClientBindingProofLevel) -> (r: bool)
    ensures
        r == is_release_level(level),
{
    match level {
        ClientBindingProofLevel::ReferenceBinding | ClientBindingProofLevel::ObservedEventFile => {
            false
        },
        _ => true,
    }
}

/// How the operator's own observation is called as an evidence source.
pub open spec fn operator_source(client: Seq<char>, level: ClientBindingProofLevel) -> Seq<char> {
    "private_client_operator_observed_"@ + client + "_"@ + level_name(level)
}

pub fn release_grade_operator_evidence_source(
    client: &str,
    level: ClientBindingProofLevel,
) -> (r: String)
    ensures
        r@ == operator_source(client@, level),
{
    cat4("private_client_operator_observed_", client, "_", level.as_str())
}

/// A command with the client that it is for: by manifest where there is one.
pub open spec fn targeted(
    command: Seq<Seq<char>>,
    client: Seq<char>,
    manifest_path: Option<Seq<char>>,
) -> Seq<Seq<char>> {
    match manifest_path {
        Some(m) => command.push("--manifest"@).push(m),
        None => command.push("--client"@).push(client),
    }
}

pub fn with_binding_target(prefix: Words, client: &str, manifest_path: Option<&str>) -> (r: Vec<
    String,
>)
    ensures
        r.deep_view() == targeted(prefix@, client@, manifest_path.deep_view()),
{
    match manifest_path {
        Some(m) => prefix.w("--manifest").w(m).done(),
        None => prefix.w("--client").w(client).done(),
    }
}

/// One more member with a text, where there is one.
pub open spec fn put_some(
    m: Seq<(Seq<char>, JsonView)>,
    name: Seq<char>,
    value: Option<Seq<char>>,
) -> Seq<(Seq<char>, JsonView)> {
    match value {
        Some(s) => m.push((name, JsonView::Text(s))),
        None => m,
    }
}

fn put_text_if(m: Members, name: &str, value: Option<&str>) -> (r: Members)
    ensures
        r@ == put_some(m@, name@, value.deep_view()),
{
    match value {
        Some(s) => m.text(name, s),
        None => m,
    }
}

pub const RECORD_CALL_BOUNDARY: &'static str =
    "mcp_record_proof_template_only: calling this template records exactly one client-binding proof row through soma_client_binding_record_proof; it creates no claim verification event, promotes no cloud draft, applies no proposal, and stronger proof levels still require real evidence artifacts plus explicit operator and release-grade private-client evidence confirmation";

/// The tool call that records a proof.
pub open spec fn record_call(
    client: Seq<char>,
    manifest: Seq<char>,
    level: ClientBindingProofLevel,
    evidence_source: Seq<char>,
    event_jsonl: Option<Seq<char>>,
    installed_config: Option<Seq<char>>,
    review_render_report: Option<Seq<char>>,
    render_evidence: Option<Seq<char>>,
    review_action_report: Option<Seq<char>>,
    confirmation: Option<Seq<char>>,
) -> ClientBindingMcpCallTemplateView {
    let base = Seq::empty().push(("manifest"@, JsonView::Text(manifest))).push(
        ("client"@, JsonView::Text(client)),
    ).push(("proof_level"@, JsonView::Text(level_name(level)))).push(
        ("evidence_source"@, JsonView::Text(evidence_source)),
    );
    let a = put_some(base, "event_jsonl"@, event_jsonl);
    let b = put_some(a, "installed_config"@, installed_config);
    let c = put_some(b, "review_render_report"@, review_render_report);
    let d = put_some(c, "render_evidence"@, render_evidence);
    let e = put_some(d, "review_action_report"@, review_action_report);
    let f = match confirmation {
        Some(key) => e.push((key, JsonView::Bool(true))),
        None => e,
    };
    let g = if is_release_level(level) {
        f.push(("operator_confirm_release_grade_evidence"@, JsonView::Bool(true)))
    } else {
        f
    };
    ClientBindingMcpCallTemplateView {
        tool: "soma_client_binding_record_proof"@,
        arguments: JsonView::Object(g),
        trust_boundary: RECORD_CALL_BOUNDARY@,
    }
}

pub fn client_binding_record_proof_mcp_call(
    client: &str,
    manifest: &str,
    level: ClientBindingProofLevel,
    evidence_source: &str,
    event_jsonl: Option<&str>,
    installed_config: Option<&str>,
    review_render_report: Option<&str>,
    render_evidence: Option<&str>,
    review_action_report: Option<&str>,
    confirmation: Option<&str>,
) -> (r: ClientBindingMcpCallTemplate)
    ensures
        r.deep_view() == record_call(
            client@,
            manifest@,
            level,
            evidence_source@,
            event_jsonl.deep_view(),
            installed_config.deep_view(),
            review_render_report.deep_view(),
            render_evidence.deep_view(),
            review_action_report.deep_view(),
            confirmation.deep_view(),
        ),
{
    let m = Members::new().text("manifest", manifest).text("client", client).text(
        "proof_level",
        level.as_str(),
    ).text("evidence_source", evidence_source);
    let m = put_text_if(m, "event_jsonl", event_jsonl);
    let m = put_text_if(m, "installed_config", installed_config);
    let m = put_text_if(m, "review_render_report", review_render_report);
    let m = put_text_if(m, "render_evidence", render_evidence);
    let m = put_text_if(m, "review_action_report", review_action_report);
    let m = match confirmation {
        Some(key) => m.flag(key, true),
        None => m,
    };
    let m = if release_claim_proof_level(level) {
        m.flag("operator_confirm_release_grade_evidence", true)
    } else {
        m
    };
    ClientBindingMcpCallTemplate {
        tool: "soma_client_binding_record_proof".to_string(),
        arguments: m.done(),
        trust_boundary: RECORD_CALL_BOUNDARY.to_string(),
    }
}

pub const PACKET_CALL_BOUNDARY: &'static str =
    "mcp_render_evidence_packet_template_only: calling this template materializes a proof-free soma.in_client_render_evidence.v1 packet from a saved review-render report; it writes no files, records no proof row, creates no verification event, promotes no cloud draft, applies no proposal, and cannot prove in-client rendering until visible observations are filled and observed_in_client_render is recorded with explicit operator confirmation";

/// The tool call that makes a form for render evidence.
pub open spec fn packet_call(
    client: Seq<char>,
    manifest: Seq<char>,
    review_render_report: Seq<char>,
) -> ClientBindingMcpCallTemplateView {
    ClientBindingMcpCallTemplateView {
        tool: "soma_client_render_evidence_packet"@,
        arguments: JsonView::Object(
            Seq::empty().push(("client"@, JsonView::Text(client))).push(
                ("manifest"@, JsonView::Text(manifest)),
            ).push(("review_render_report"@, JsonView::Text(review_render_report))),
        ),
        trust_boundary: PACKET_CALL_BOUNDARY@,
    }
}

pub fn client_render_evidence_packet_mcp_call(
    client: &str,
    manifest: &str,
    review_render_report: &str,
) -> (r: ClientBindingMcpCallTemplate)
    ensures
        r.deep_view() == packet_call(client@, manifest@, review_render_report@),
{
    ClientBindingMcpCallTemplate {
        tool: "soma_client_render_evidence_packet".to_string(),
        arguments: Members::new().text("client", client).text("manifest", manifest).text(
            "review_render_report",
            review_render_report,
        ).done(),
        trust_boundary: PACKET_CALL_BOUNDARY.to_string(),
    }
}

/// The command that records app-hook proof, by the wrapper script.
pub open spec fn app_hook_record_command(p: FlowPathsView) -> Seq<Seq<char>> {
    let head = nil().push("env"@).push("SOMA_BIN="@ + p.soma_bin).push(
        "SOMA_CLIENT_BINDING_CLIENT="@ + p.client,
    ).push("SOMA_CLIENT_BINDING_MANIFEST="@ + p.manifest);
    let root = match nonblank(p.config_root) {
        Some(r) => head.push("SOMA_CLIENT_BINDING_CONFIG_ROOT="@ + r),
        None => head,
    };
    root.push("SOMA_CLIENT_BINDING_EVENT_JSONL="@ + p.event_jsonl).push(
        "SOMA_CLIENT_BINDING_EVENT_SOURCE="@ + p.event_source,
    ).push("SOMA_CLIENT_BINDING_NONCE="@ + p.nonce).push(
        "SOMA_CLIENT_BINDING_APP_HOOK_EVIDENCE_SOURCE="@ + p.app_hook_source,
    ).push("SOMA_CONFIRM_REAL_CLIENT_HOOK=1"@).push("SOMA_CONFIRM_RELEASE_GRADE_EVIDENCE=1"@).push(
        "tools/soma-client-record-app-hook-proof.sh"@,
    )
}

pub fn observed_app_hook_record_wrapper_command(p: &FlowPaths) -> (r: Vec<String>)
    ensures
        r.deep_view() == app_hook_record_command(p.deep_view()),
{
    let head = Words::new().w("env").w(cat2("SOMA_BIN=", p.soma_bin.as_str()).as_str()).w(
        cat2("SOMA_CLIENT_BINDING_CLIENT=", p.client.as_str()).as_str(),
    ).w(cat2("SOMA_CLIENT_BINDING_MANIFEST=", p.manifest.as_str()).as_str());
    let root = match &p.config_root {
        Some(r) => if trim(r.as_str()).is_empty() {
            head
        } else {
            head.w(cat2("SOMA_CLIENT_BINDING_CONFIG_ROOT=", r.as_str()).as_str())
        },
        None => head,
    };
    root.w(cat2("SOMA_CLIENT_BINDING_EVENT_JSONL=", p.event_jsonl.as_str()).as_str()).w(
        cat2("SOMA_CLIENT_BINDING_EVENT_SOURCE=", p.event_source.as_str()).as_str(),
    ).w(cat2("SOMA_CLIENT_BINDING_NONCE=", p.nonce.as_str()).as_str()).w(
        cat2(
            "SOMA_CLIENT_BINDING_APP_HOOK_EVIDENCE_SOURCE=",
            p.app_hook_source.as_str(),
        ).as_str(),
    ).w("SOMA_CONFIRM_REAL_CLIENT_HOOK=1").w("SOMA_CONFIRM_RELEASE_GRADE_EVIDENCE=1").w(
        "tools/soma-client-record-app-hook-proof.sh",
    ).done()
}

pub open spec fn hook_title(client: Seq<char>) -> Seq<char> {
    "Trigger the "@ + display_name(client) + " hook"@
}

pub fn private_client_hook_trigger_title(client: &str) -> (r: String)
    ensures
        r@ == hook_title(client@),
{
    cat3("Trigger the ", private_client_display_name(client).as_str(), " hook")
}

pub const CODEX_HOOK_INTENT: &'static str =
    "Quit or restart the stale Codex app process first if `soma clients` reports restart_recommended, then reopen Codex app and run a real turn that should call the configured wrapper and append a private ";

pub const CODEX_HOOK_INTENT_END: &'static str =
    " event; rerun the read-only readiness probe until the matching event_source and binding_nonce are observed. `open -a Codex` is only a reopen hint and does not force a stale running process to reload the notify config.";

pub const CONTINUE_HOOK_INTENT: &'static str =
    "Reload Continue or its host editor if needed, then run a real Continue extension chat/edit/review action (not Cursor Agent/Composer) that should call the configured wrapper and append a private ";

pub const CURSOR_HOOK_INTENT: &'static str =
    "Run a real Cursor action from the installed Cursor binding so the configured wrapper appends a private ";

pub const OTHER_HOOK_INTENT: &'static str =
    " action that should call the configured wrapper and append a private ";

pub const HOOK_INTENT_END: &'static str =
    " event; rerun the read-only readiness probe until the matching event_source and binding_nonce are observed.";

/// What the operator does to make a client's hook run.
pub open spec fn hook_intent(client: Seq<char>, event_source: Seq<char>) -> Seq<char> {
    if client == "codex-app"@ {
        CODEX_HOOK_INTENT@ + event_source + CODEX_HOOK_INTENT_END@
    } else if client == "continue"@ {
        CONTINUE_HOOK_INTENT@ + event_source + HOOK_INTENT_END@
    } else if client == "cursor"@ {
        CURSOR_HOOK_INTENT@ + event_source + HOOK_INTENT_END@
    } else {
        "Run a real "@ + display_name(client) + OTHER_HOOK_INTENT@ + event_source
            + HOOK_INTENT_END@
    }
}

pub fn private_client_hook_trigger_intent(client: &str, event_source: &str) -> (r: String)
    ensures
        r@ == hook_intent(client@, event_source@),
{
    if same(client, "codex-app") {
        cat3(CODEX_HOOK_INTENT, event_source, CODEX_HOOK_INTENT_END)
    } else if same(client, "continue") {
        cat3(CONTINUE_HOOK_INTENT, event_source, HOOK_INTENT_END)
    } else if same(client, "cursor") {
        cat3(CURSOR_HOOK_INTENT, event_source, HOOK_INTENT_END)
    } else {
        cat5(
            "Run a real ",
            private_client_display_name(client).as_str(),
            OTHER_HOOK_INTENT,
            event_source,
            HOOK_INTENT_END,
        )
    }
}

/// A step from its parts.
pub fn step(
    id: &str,
    title: &str,
    intent: &str,
    command: Option<Vec<String>>,
    mcp_call: Option<ClientBindingMcpCallTemplate>,
    requires_operator_action: bool,
    records_proof: bool,
    trust_boundary: &str,
) -> (r: ClientBindingOperatorFlowStep)
    ensures
        r.deep_view() == (ClientBindingOperatorFlowStepView {
            id: id@,
            title: title@,
            intent: intent@,
            command: command.deep_view(),
            mcp_call: mcp_call.deep_view(),
            requires_operator_action,
            records_proof,
            trust_boundary: trust_boundary@,
        }),
{
    ClientBindingOperatorFlowStep {
        id: id.to_string(),
        title: title.to_string(),
        intent: intent.to_string(),
        command,
        mcp_call,
        requires_operator_action,
        records_proof,
        trust_boundary: trust_boundary.to_string(),
    }
}

pub const RECORD_REFERENCE_BINDING_MANIFEST_TITLE: &'static str =
    "Record reference binding manifest";

pub const RECORD_REFERENCE_BINDING_MANIFEST_INTENT: &'static str =
    "Persist only the checked-in client binding contract; this proves the reference wrapper shape, not private app installation.";

pub const RECORD_REFERENCE_BINDING_MANIFEST_BOUNDARY: &'static str =
    "reference_binding_records_contract_only_and_does_not_prove_private_app_invocation";

/// The step `record_reference_binding_manifest`.
pub open spec fn record_reference_binding_manifest_step(
    p: FlowPathsView,
) -> ClientBindingOperatorFlowStepView {
    ClientBindingOperatorFlowStepView {
        id: "record_reference_binding_manifest"@,
        title: RECORD_REFERENCE_BINDING_MANIFEST_TITLE@,
        intent: RECORD_REFERENCE_BINDING_MANIFEST_INTENT@,
        command: Some(nil().push("soma"@).push("adapter-binding-proof"@).push("--manifest"@)
            .push(p.manifest).push("--proof-level"@).push("reference_binding"@)),
        mcp_call: Some(record_call(p.client, p.mcp_manifest,
            ClientBindingProofLevel::ReferenceBinding, "operator_flow_reference_binding"@, None,
            None, None, None, None, None)),
        requires_operator_action: false,
        records_proof: true,
        trust_boundary: RECORD_REFERENCE_BINDING_MANIFEST_BOUNDARY@,
    }
}

fn make_record_reference_binding_manifest(p: &FlowPaths) -> (r: ClientBindingOperatorFlowStep)
    ensures
        r.deep_view() == record_reference_binding_manifest_step(p.deep_view()),
{
    step(
        "record_reference_binding_manifest",
        RECORD_REFERENCE_BINDING_MANIFEST_TITLE,
        RECORD_REFERENCE_BINDING_MANIFEST_INTENT,
        Some(Words::new().w("soma").w("adapter-binding-proof").w("--manifest")
            .w(p.manifest.as_str()).w("--proof-level").w("reference_binding").done()),
        Some(client_binding_record_proof_mcp_call(
            p.client.as_str(), p.mcp_manifest.as_str(), ClientBindingProofLevel::ReferenceBinding,
            "operator_flow_reference_binding", None, None, None, None, None, None)),
        false,
        true,
        RECORD_REFERENCE_BINDING_MANIFEST_BOUNDARY,
    )
}

pub const RENDER_OR_WRITE_INSTALLED_CONFIG_TITLE: &'static str =
    "Render proof-free installed client config";

pub const RENDER_OR_WRITE_INSTALLED_CONFIG_INTENT: &'static str =
    "Create the client hook config artifact with a per-install binding nonce; this is setup guidance only.";

pub const RENDER_OR_WRITE_INSTALLED_CONFIG_BOUNDARY: &'static str =
    "config_render_records_no_proof_and_does_not_prove_private_install";

/// The step `render_or_write_installed_config`.
pub open spec fn render_or_write_installed_config_step(
    p: FlowPathsView,
) -> ClientBindingOperatorFlowStepView {
    ClientBindingOperatorFlowStepView {
        id: "render_or_write_installed_config"@,
        title: RENDER_OR_WRITE_INSTALLED_CONFIG_TITLE@,
        intent: RENDER_OR_WRITE_INSTALLED_CONFIG_INTENT@,
        command: Some(nil().push("soma"@).push("adapter-binding-proof"@)
            .push("--render-installed-config"@).push("--manifest"@).push(p.manifest)
            .push("--binding-nonce"@).push(p.nonce)),
        mcp_call: None,
        requires_operator_action: false,
        records_proof: false,
        trust_boundary: RENDER_OR_WRITE_INSTALLED_CONFIG_BOUNDARY@,
    }
}

fn make_render_or_write_installed_config(p: &FlowPaths) -> (r: ClientBindingOperatorFlowStep)
    ensures
        r.deep_view() == render_or_write_installed_config_step(p.deep_view()),
{
    step(
        "render_or_write_installed_config",
        RENDER_OR_WRITE_INSTALLED_CONFIG_TITLE,
        RENDER_OR_WRITE_INSTALLED_CONFIG_INTENT,
        Some(Words::new().w("soma").w("adapter-binding-proof").w("--render-installed-config")
            .w("--manifest").w(p.manifest.as_str()).w("--binding-nonce").w(p.nonce.as_str())
            .done()),
        None,
        false,
        false,
        RENDER_OR_WRITE_INSTALLED_CONFIG_BOUNDARY,
    )
}

pub const INSTALL_OR_MERGE_PRIVATE_CLIENT_CONFIG_TITLE: &'static str =
    "Install or merge config in the private client";

pub const INSTALL_OR_MERGE_PRIVATE_CLIENT_CONFIG_INTENT: &'static str =
    "Operator/client must place the rendered config where the private app will actually call SOMA wrappers.";

pub const INSTALL_OR_MERGE_PRIVATE_CLIENT_CONFIG_BOUNDARY: &'static str =
    "human_or_client_install_step_is_required_before_app_hook_evidence_exists";

/// The step `install_or_merge_private_client_config`.
pub open spec fn install_or_merge_private_client_config_step(
    p: FlowPathsView,
) -> ClientBindingOperatorFlowStepView {
    ClientBindingOperatorFlowStepView {
        id: "install_or_merge_private_client_config"@,
        title: INSTALL_OR_MERGE_PRIVATE_CLIENT_CONFIG_TITLE@,
        intent: INSTALL_OR_MERGE_PRIVATE_CLIENT_CONFIG_INTENT@,
        command: None,
        mcp_call: None,
        requires_operator_action: true,
        records_proof: false,
        trust_boundary: INSTALL_OR_MERGE_PRIVATE_CLIENT_CONFIG_BOUNDARY@,
    }
}

fn make_install_or_merge_private_client_config(p: &FlowPaths) -> (r: ClientBindingOperatorFlowStep)
    ensures
        r.deep_view() == install_or_merge_private_client_config_step(p.deep_view()),
{
    step(
        "install_or_merge_private_client_config",
        INSTALL_OR_MERGE_PRIVATE_CLIENT_CONFIG_TITLE,
        INSTALL_OR_MERGE_PRIVATE_CLIENT_CONFIG_INTENT,
        None,
        None,
        true,
        false,
        INSTALL_OR_MERGE_PRIVATE_CLIENT_CONFIG_BOUNDARY,
    )
}

pub const CHECK_INSTALLED_CONFIG_TITLE: &'static str = "Preflight installed config";

pub const CHECK_INSTALLED_CONFIG_INTENT: &'static str =
    "Confirm the installed config references the lifecycle/spool wrapper, private event_source, JSONL path, and binding_nonce.";

pub const CHECK_INSTALLED_CONFIG_BOUNDARY: &'static str =
    "installed_config_preflight_is_read_only_and_not_app_invocation_proof";

/// The step `check_installed_config`.
pub open spec fn check_installed_config_step(
    p: FlowPathsView,
) -> ClientBindingOperatorFlowStepView {
    ClientBindingOperatorFlowStepView {
        id: "check_installed_config"@,
        title: CHECK_INSTALLED_CONFIG_TITLE@,
        intent: CHECK_INSTALLED_CONFIG_INTENT@,
        command: Some(nil().push("soma"@).push("adapter-binding-proof"@)
            .push("--check-installed-config"@).push("--manifest"@).push(p.manifest)
            .push("--installed-config"@).push(p.installed_config)),
        mcp_call: None,
        requires_operator_action: false,
        records_proof: false,
        trust_boundary: CHECK_INSTALLED_CONFIG_BOUNDARY@,
    }
}

fn make_check_installed_config(p: &FlowPaths) -> (r: ClientBindingOperatorFlowStep)
    ensures
        r.deep_view() == check_installed_config_step(p.deep_view()),
{
    step(
        "check_installed_config",
        CHECK_INSTALLED_CONFIG_TITLE,
        CHECK_INSTALLED_CONFIG_INTENT,
        Some(Words::new().w("soma").w("adapter-binding-proof").w("--check-installed-config")
            .w("--manifest").w(p.manifest.as_str()).w("--installed-config")
            .w(p.installed_config.as_str()).done()),
        None,
        false,
        false,
        CHECK_INSTALLED_CONFIG_BOUNDARY,
    )
}

pub const TRIGGER_PRIVATE_CLIENT_HOOK_BOUNDARY: &'static str =
    "only_the_private_client_invocation_can_create_app_hook_evidence; readiness_probe_records_no_proof_and_only_explains_event_jsonl_state";

/// The step `trigger_private_client_hook`.
pub open spec fn trigger_private_client_hook_step(
    p: FlowPathsView,
) -> ClientBindingOperatorFlowStepView {
    ClientBindingOperatorFlowStepView {
        id: "trigger_private_client_hook"@,
        title: hook_title(p.client),
        intent: hook_intent(p.client, p.event_source),
        command: Some(nil().push("env"@).push("SOMA_CLIENT_BINDING_CLIENT="@ + p.client)
            .push("SOMA_CLIENT_BINDING_MANIFEST="@ + p.manifest)
            .push("SOMA_CLIENT_BINDING_EVENT_JSONL="@ + p.event_jsonl)
            .push("SOMA_CLIENT_BINDING_EVENT_SOURCE="@ + p.event_source)
            .push("SOMA_CLIENT_BINDING_NONCE="@ + p.nonce)
            .push("tools/soma-client-hook-readiness.sh"@)),
        mcp_call: None,
        requires_operator_action: true,
        records_proof: false,
        trust_boundary: TRIGGER_PRIVATE_CLIENT_HOOK_BOUNDARY@,
    }
}

fn make_trigger_private_client_hook(p: &FlowPaths) -> (r: ClientBindingOperatorFlowStep)
    ensures
        r.deep_view() == trigger_private_client_hook_step(p.deep_view()),
{
    step(
        "trigger_private_client_hook",
        private_client_hook_trigger_title(p.client.as_str()).as_str(),
        private_client_hook_trigger_intent(
            p.client.as_str(),
            p.event_source.as_str(),
        ).as_str(),
        Some(Words::new().w("env").w(cat2("SOMA_CLIENT_BINDING_CLIENT=", p.client.as_str())
            .as_str()).w(cat2("SOMA_CLIENT_BINDING_MANIFEST=", p.manifest.as_str()).as_str())
            .w(cat2("SOMA_CLIENT_BINDING_EVENT_JSONL=", p.event_jsonl.as_str()).as_str())
            .w(cat2("SOMA_CLIENT_BINDING_EVENT_SOURCE=", p.event_source.as_str()).as_str())
            .w(cat2("SOMA_CLIENT_BINDING_NONCE=", p.nonce.as_str()).as_str())
            .w("tools/soma-client-hook-readiness.sh").done()),
        None,
        true,
        false,
        TRIGGER_PRIVATE_CLIENT_HOOK_BOUNDARY,
    )
}

pub const DRAIN_ADAPTER_SPOOL_TITLE: &'static str = "Drain adapter spool";

pub const DRAIN_ADAPTER_SPOOL_INTENT: &'static str =
    "Forward the private event JSONL into SOMA capture surfaces and produce a drain report.";

pub const DRAIN_ADAPTER_SPOOL_BOUNDARY: &'static str =
    "spool_drain_captures_events_but_does_not_record_binding_proof_by_itself";

/// The step `drain_adapter_spool`.
pub open spec fn drain_adapter_spool_step(p: FlowPathsView) -> ClientBindingOperatorFlowStepView {
    ClientBindingOperatorFlowStepView {
        id: "drain_adapter_spool"@,
        title: DRAIN_ADAPTER_SPOOL_TITLE@,
        intent: DRAIN_ADAPTER_SPOOL_INTENT@,
        command: Some(nil().push("soma"@).push("adapter-spool"@).push("--jsonl"@)
            .push(p.event_jsonl).push("--checkpoint"@).push("$HOME/.soma/adapter/events.offset"@)),
        mcp_call: None,
        requires_operator_action: false,
        records_proof: false,
        trust_boundary: DRAIN_ADAPTER_SPOOL_BOUNDARY@,
    }
}

fn make_drain_adapter_spool(p: &FlowPaths) -> (r: ClientBindingOperatorFlowStep)
    ensures
        r.deep_view() == drain_adapter_spool_step(p.deep_view()),
{
    step(
        "drain_adapter_spool",
        DRAIN_ADAPTER_SPOOL_TITLE,
        DRAIN_ADAPTER_SPOOL_INTENT,
        Some(Words::new().w("soma").w("adapter-spool").w("--jsonl").w(p.event_jsonl.as_str())
            .w("--checkpoint").w("$HOME/.soma/adapter/events.offset").done()),
        None,
        false,
        false,
        DRAIN_ADAPTER_SPOOL_BOUNDARY,
    )
}

pub const RECORD_OBSERVED_EVENT_FILE_TITLE: &'static str = "Record observed event-file proof";

pub const RECORD_OBSERVED_EVENT_FILE_INTENT: &'static str =
    "Persist proof that a wrapper-compatible event file exists; this still does not prove the private app installed or called the hook.";

pub const RECORD_OBSERVED_EVENT_FILE_BOUNDARY: &'static str =
    "observed_event_file_is_wrapper_event_evidence_only_not_private_app_invocation_proof";

/// The step `record_observed_event_file`.
pub open spec fn record_observed_event_file_step(
    p: FlowPathsView,
) -> ClientBindingOperatorFlowStepView {
    ClientBindingOperatorFlowStepView {
        id: "record_observed_event_file"@,
        title: RECORD_OBSERVED_EVENT_FILE_TITLE@,
        intent: RECORD_OBSERVED_EVENT_FILE_INTENT@,
        command: Some(nil().push("soma"@).push("adapter-binding-proof"@).push("--manifest"@)
            .push(p.manifest).push("--proof-level"@).push("observed_event_file"@)
            .push("--event-jsonl"@).push(p.event_jsonl)),
        mcp_call: Some(record_call(p.client, p.mcp_manifest,
            ClientBindingProofLevel::ObservedEventFile, "operator_flow_observed_event_file"@,
            Some(p.event_jsonl), None, None, None, None, None)),
        requires_operator_action: false,
        records_proof: true,
        trust_boundary: RECORD_OBSERVED_EVENT_FILE_BOUNDARY@,
    }
}

fn make_record_observed_event_file(p: &FlowPaths) -> (r: ClientBindingOperatorFlowStep)
    ensures
        r.deep_view() == record_observed_event_file_step(p.deep_view()),
{
    step(
        "record_observed_event_file",
        RECORD_OBSERVED_EVENT_FILE_TITLE,
        RECORD_OBSERVED_EVENT_FILE_INTENT,
        Some(Words::new().w("soma").w("adapter-binding-proof").w("--manifest")
            .w(p.manifest.as_str()).w("--proof-level").w("observed_event_file").w("--event-jsonl")
            .w(p.event_jsonl.as_str()).done()),
        Some(client_binding_record_proof_mcp_call(
            p.client.as_str(), p.mcp_manifest.as_str(), ClientBindingProofLevel::ObservedEventFile,
            "operator_flow_observed_event_file", Some(p.event_jsonl.as_str()), None, None, None,
            None, None)),
        false,
        true,
        RECORD_OBSERVED_EVENT_FILE_BOUNDARY,
    )
}

pub const RECORD_OBSERVED_APP_HOOK_TITLE: &'static str = "Record observed app-hook proof";

pub const RECORD_OBSERVED_APP_HOOK_INTENT: &'static str =
    "Persist app-hook proof only after the event came from the real private app and operator confirmation is explicit.";

pub const RECORD_OBSERVED_APP_HOOK_BOUNDARY: &'static str =
    "observed_app_hook_requires_real_private_event_evidence_operator_confirmation_and_release_grade_confirmation";

/// The step `record_observed_app_hook`.
pub open spec fn record_observed_app_hook_step(
    p: FlowPathsView,
) -> ClientBindingOperatorFlowStepView {
    ClientBindingOperatorFlowStepView {
        id: "record_observed_app_hook"@,
        title: RECORD_OBSERVED_APP_HOOK_TITLE@,
        intent: RECORD_OBSERVED_APP_HOOK_INTENT@,
        command: Some(app_hook_record_command(p)),
        mcp_call: Some(record_call(p.client, p.mcp_manifest,
            ClientBindingProofLevel::ObservedAppHook, p.app_hook_source, Some(p.event_jsonl),
            Some(p.installed_config), None, None, None,
            Some("operator_confirm_real_app_invocation"@))),
        requires_operator_action: true,
        records_proof: true,
        trust_boundary: RECORD_OBSERVED_APP_HOOK_BOUNDARY@,
    }
}

fn make_record_observed_app_hook(p: &FlowPaths) -> (r: ClientBindingOperatorFlowStep)
    ensures
        r.deep_view() == record_observed_app_hook_step(p.deep_view()),
{
    step(
        "record_observed_app_hook",
        RECORD_OBSERVED_APP_HOOK_TITLE,
        RECORD_OBSERVED_APP_HOOK_INTENT,
        Some(observed_app_hook_record_wrapper_command(p)),
        Some(client_binding_record_proof_mcp_call(
            p.client.as_str(), p.mcp_manifest.as_str(), ClientBindingProofLevel::ObservedAppHook,
            p.app_hook_source.as_str(), Some(p.event_jsonl.as_str()),
            Some(p.installed_config.as_str()), None, None, None,
            Some("operator_confirm_real_app_invocation"))),
        true,
        true,
        RECORD_OBSERVED_APP_HOOK_BOUNDARY,
    )
}

pub const RENDER_REVIEW_SURFACE_TITLE: &'static str = "Render review surface in the client";

pub const RENDER_REVIEW_SURFACE_INTENT: &'static str =
    "Generate the read-only review-render report that the private client should visibly render.";

pub const RENDER_REVIEW_SURFACE_BOUNDARY: &'static str =
    "review_render_is_read_only_and_never_verifies_promotes_applies_or_acknowledges";

/// The step `render_review_surface`.
pub open spec fn render_review_surface_step(p: FlowPathsView) -> ClientBindingOperatorFlowStepView {
    ClientBindingOperatorFlowStepView {
        id: "render_review_surface"@,
        title: RENDER_REVIEW_SURFACE_TITLE@,
        intent: RENDER_REVIEW_SURFACE_INTENT@,
        command: Some(nil().push("soma"@).push("context"@).push("review-render"@).push("--client"@)
            .push(p.client).push("--format"@).push("json"@).push("--write-report"@)
            .push(p.review_render)),
        mcp_call: None,
        requires_operator_action: false,
        records_proof: false,
        trust_boundary: RENDER_REVIEW_SURFACE_BOUNDARY@,
    }
}

fn make_render_review_surface(p: &FlowPaths) -> (r: ClientBindingOperatorFlowStep)
    ensures
        r.deep_view() == render_review_surface_step(p.deep_view()),
{
    step(
        "render_review_surface",
        RENDER_REVIEW_SURFACE_TITLE,
        RENDER_REVIEW_SURFACE_INTENT,
        Some(Words::new().w("soma").w("context").w("review-render").w("--client")
            .w(p.client.as_str()).w("--format").w("json").w("--write-report")
            .w(p.review_render.as_str()).done()),
        None,
        false,
        false,
        RENDER_REVIEW_SURFACE_BOUNDARY,
    )
}

pub const CAPTURE_IN_CLIENT_RENDER_EVIDENCE_TITLE: &'static str =
    "Capture in-client render evidence";

pub const CAPTURE_IN_CLIENT_RENDER_EVIDENCE_INTENT: &'static str =
    "Prepare proof-free review-render JSON/Markdown/HTML and a render evidence template, then fill structured soma.in_client_render_evidence.v1 evidence only after the review UI is visibly rendered in the private client.";

pub const CAPTURE_IN_CLIENT_RENDER_EVIDENCE_BOUNDARY: &'static str =
    "render_proof_prep_records_no_proof_and_render_evidence_is_ui_visibility_evidence_only_not_verification_or_promotion";

/// The step `capture_in_client_render_evidence`.
pub open spec fn capture_in_client_render_evidence_step(
    p: FlowPathsView,
) -> ClientBindingOperatorFlowStepView {
    ClientBindingOperatorFlowStepView {
        id: "capture_in_client_render_evidence"@,
        title: CAPTURE_IN_CLIENT_RENDER_EVIDENCE_TITLE@,
        intent: CAPTURE_IN_CLIENT_RENDER_EVIDENCE_INTENT@,
        command: Some(nil().push("tools/soma-client-render-proof-prep.sh"@).push("--client"@)
            .push(p.client).push("--soma-bin"@).push(p.soma_bin).push("--manifest"@)
            .push(p.manifest).push("--artifact-dir"@).push(p.artifact_dir)),
        mcp_call: Some(packet_call(p.client, p.mcp_manifest, p.review_render)),
        requires_operator_action: true,
        records_proof: false,
        trust_boundary: CAPTURE_IN_CLIENT_RENDER_EVIDENCE_BOUNDARY@,
    }
}

fn make_capture_in_client_render_evidence(p: &FlowPaths) -> (r: ClientBindingOperatorFlowStep)
    ensures
        r.deep_view() == capture_in_client_render_evidence_step(p.deep_view()),
{
    step(
        "capture_in_client_render_evidence",
        CAPTURE_IN_CLIENT_RENDER_EVIDENCE_TITLE,
        CAPTURE_IN_CLIENT_RENDER_EVIDENCE_INTENT,
        Some(Words::new().w("tools/soma-client-render-proof-prep.sh").w("--client")
            .w(p.client.as_str()).w("--soma-bin").w(p.soma_bin.as_str()).w("--manifest")
            .w(p.manifest.as_str()).w("--artifact-dir").w(p.artifact_dir.as_str()).done()),
        Some(client_render_evidence_packet_mcp_call(
            p.client.as_str(), p.mcp_manifest.as_str(), p.review_render.as_str())),
        true,
        false,
        CAPTURE_IN_CLIENT_RENDER_EVIDENCE_BOUNDARY,
    )
}

pub const RECORD_OBSERVED_IN_CLIENT_RENDER_TITLE: &'static str =
    "Record observed in-client render proof";

pub const RECORD_OBSERVED_IN_CLIENT_RENDER_INTENT: &'static str =
    "Persist UI-only render proof with structured evidence bound to the review-render report and installed config.";

pub const RECORD_OBSERVED_IN_CLIENT_RENDER_BOUNDARY: &'static str =
    "observed_in_client_render_is_ui_only_release_grade_confirmed_and_never_verifies_promotes_applies_or_acknowledges";

/// The step `record_observed_in_client_render`.
pub open spec fn record_observed_in_client_render_step(
    p: FlowPathsView,
) -> ClientBindingOperatorFlowStepView {
    ClientBindingOperatorFlowStepView {
        id: "record_observed_in_client_render"@,
        title: RECORD_OBSERVED_IN_CLIENT_RENDER_TITLE@,
        intent: RECORD_OBSERVED_IN_CLIENT_RENDER_INTENT@,
        command: Some(nil().push("soma"@).push("adapter-binding-proof"@).push("--manifest"@)
            .push(p.manifest).push("--proof-level"@).push("observed_in_client_render"@)
            .push("--installed-config"@).push(p.installed_config).push("--review-render-report"@)
            .push(p.review_render).push("--render-evidence"@).push(p.render_evidence)
            .push("--evidence-source"@).push(p.render_source)
            .push("--operator-confirm-in-client-render"@)
            .push("--operator-confirm-release-grade-evidence"@)),
        mcp_call: Some(record_call(p.client, p.mcp_manifest,
            ClientBindingProofLevel::ObservedInClientRender, p.render_source, None,
            Some(p.installed_config), Some(p.review_render), Some(p.render_evidence), None,
            Some("operator_confirm_in_client_render"@))),
        requires_operator_action: true,
        records_proof: true,
        trust_boundary: RECORD_OBSERVED_IN_CLIENT_RENDER_BOUNDARY@,
    }
}

fn make_record_observed_in_client_render(p: &FlowPaths) -> (r: ClientBindingOperatorFlowStep)
    ensures
        r.deep_view() == record_observed_in_client_render_step(p.deep_view()),
{
    step(
        "record_observed_in_client_render",
        RECORD_OBSERVED_IN_CLIENT_RENDER_TITLE,
        RECORD_OBSERVED_IN_CLIENT_RENDER_INTENT,
        Some(Words::new().w("soma").w("adapter-binding-proof").w("--manifest")
            .w(p.manifest.as_str()).w("--proof-level").w("observed_in_client_render")
            .w("--installed-config").w(p.installed_config.as_str()).w("--review-render-report")
            .w(p.review_render.as_str()).w("--render-evidence").w(p.render_evidence.as_str())
            .w("--evidence-source").w(p.render_source.as_str())
            .w("--operator-confirm-in-client-render").w("--operator-confirm-release-grade-evidence")
            .done()),
        Some(client_binding_record_proof_mcp_call(
            p.client.as_str(), p.mcp_manifest.as_str(),
            ClientBindingProofLevel::ObservedInClientRender, p.render_source.as_str(), None,
            Some(p.installed_config.as_str()), Some(p.review_render.as_str()),
            Some(p.render_evidence.as_str()), None, Some("operator_confirm_in_client_render"))),
        true,
        true,
        RECORD_OBSERVED_IN_CLIENT_RENDER_BOUNDARY,
    )
}

pub const EXECUTE_RENDERED_REVIEW_CONTROL_TITLE: &'static str =
    "Execute rendered review control in the client";

pub const EXECUTE_RENDERED_REVIEW_CONTROL_INTENT: &'static str =
    "Operator/client must render the read-only action plan, activate one rendered review control_id, and save the resulting soma_review_action report before review-action proof can be recorded.";

pub const EXECUTE_RENDERED_REVIEW_CONTROL_BOUNDARY: &'static str =
    "review_action_plan_probe_records_no_proof; executing_a_rendered_review_control_may_create_review_action_evidence_but_does_not_record_binding_proof_by_itself";

/// The step `execute_rendered_review_control`.
pub open spec fn execute_rendered_review_control_step(
    p: FlowPathsView,
) -> ClientBindingOperatorFlowStepView {
    ClientBindingOperatorFlowStepView {
        id: "execute_rendered_review_control"@,
        title: EXECUTE_RENDERED_REVIEW_CONTROL_TITLE@,
        intent: EXECUTE_RENDERED_REVIEW_CONTROL_INTENT@,
        command: Some(nil().push("env"@).push("SOMA_REVIEW_CLIENT="@ + p.client)
            .push("SOMA_REVIEW_FORMAT=json"@).push("SOMA_REVIEW_ACTION_REPORT="@ + p.review_action)
            .push("SOMA_CLIENT_BINDING_REVIEW_ACTION_REPORT="@ + p.review_action)
            .push("tools/soma-review-actions.sh"@)),
        mcp_call: None,
        requires_operator_action: true,
        records_proof: false,
        trust_boundary: EXECUTE_RENDERED_REVIEW_CONTROL_BOUNDARY@,
    }
}

fn make_execute_rendered_review_control(p: &FlowPaths) -> (r: ClientBindingOperatorFlowStep)
    ensures
        r.deep_view() == execute_rendered_review_control_step(p.deep_view()),
{
    step(
        "execute_rendered_review_control",
        EXECUTE_RENDERED_REVIEW_CONTROL_TITLE,
        EXECUTE_RENDERED_REVIEW_CONTROL_INTENT,
        Some(Words::new().w("env").w(cat2("SOMA_REVIEW_CLIENT=", p.client.as_str()).as_str())
            .w("SOMA_REVIEW_FORMAT=json").w(cat2("SOMA_REVIEW_ACTION_REPORT=",
            p.review_action.as_str()).as_str()).w(
            cat2("SOMA_CLIENT_BINDING_REVIEW_ACTION_REPORT=", p.review_action.as_str()).as_str())
            .w("tools/soma-review-actions.sh").done()),
        None,
        true,
        false,
        EXECUTE_RENDERED_REVIEW_CONTROL_BOUNDARY,
    )
}

pub const RECORD_OBSERVED_REVIEW_ACTION_TITLE: &'static str =
    "Record observed review-action loop proof";

pub const RECORD_OBSERVED_REVIEW_ACTION_INTENT: &'static str =
    "Persist proof only after a rendered control_id from the private client produced a soma_review_action report with storage-gated non-cloud verification evidence.";

pub const RECORD_OBSERVED_REVIEW_ACTION_BOUNDARY: &'static str =
    "observed_review_action_requires_rendered_control_id_storage_gated_review_action_report_operator_confirmation_and_release_grade_confirmation";

/// The step `record_observed_review_action`.
pub open spec fn record_observed_review_action_step(
    p: FlowPathsView,
) -> ClientBindingOperatorFlowStepView {
    ClientBindingOperatorFlowStepView {
        id: "record_observed_review_action"@,
        title: RECORD_OBSERVED_REVIEW_ACTION_TITLE@,
        intent: RECORD_OBSERVED_REVIEW_ACTION_INTENT@,
        command: Some(nil().push("soma"@).push("adapter-binding-proof"@).push("--manifest"@)
            .push(p.manifest).push("--proof-level"@).push("observed_review_action"@)
            .push("--installed-config"@).push(p.installed_config).push("--review-action-report"@)
            .push(p.review_action).push("--evidence-source"@).push(p.review_action_source)
            .push("--operator-confirm-review-action"@)
            .push("--operator-confirm-release-grade-evidence"@)),
        mcp_call: Some(record_call(p.client, p.mcp_manifest,
            ClientBindingProofLevel::ObservedReviewAction, p.review_action_source, None,
            Some(p.installed_config), None, None, Some(p.review_action),
            Some("operator_confirm_review_action"@))),
        requires_operator_action: true,
        records_proof: true,
        trust_boundary: RECORD_OBSERVED_REVIEW_ACTION_BOUNDARY@,
    }
}

fn make_record_observed_review_action(p: &FlowPaths) -> (r: ClientBindingOperatorFlowStep)
    ensures
        r.deep_view() == record_observed_review_action_step(p.deep_view()),
{
    step(
        "record_observed_review_action",
        RECORD_OBSERVED_REVIEW_ACTION_TITLE,
        RECORD_OBSERVED_REVIEW_ACTION_INTENT,
        Some(Words::new().w("soma").w("adapter-binding-proof").w("--manifest")
            .w(p.manifest.as_str()).w("--proof-level").w("observed_review_action")
            .w("--installed-config").w(p.installed_config.as_str()).w("--review-action-report")
            .w(p.review_action.as_str()).w("--evidence-source").w(p.review_action_source.as_str())
            .w("--operator-confirm-review-action").w("--operator-confirm-release-grade-evidence")
            .done()),
        Some(client_binding_record_proof_mcp_call(
            p.client.as_str(), p.mcp_manifest.as_str(),
            ClientBindingProofLevel::ObservedReviewAction, p.review_action_source.as_str(), None,
            Some(p.installed_config.as_str()), None, None, Some(p.review_action.as_str()),
            Some("operator_confirm_review_action"))),
        true,
        true,
        RECORD_OBSERVED_REVIEW_ACTION_BOUNDARY,
    )
}

pub const VERIFY_EVIDENCE_ARTIFACTS_AND_STATUS_TITLE: &'static str =
    "Replay evidence artifacts and inspect readiness";

pub const VERIFY_EVIDENCE_ARTIFACTS_AND_STATUS_INTENT: &'static str =
    "Confirm stored artifact paths still match their recorded byte lengths/fingerprints and readiness derives from coherent proof rows.";

pub const VERIFY_EVIDENCE_ARTIFACTS_AND_STATUS_BOUNDARY: &'static str =
    "status_and_artifact_replay_are_read_only_integrity_checks_not_new_evidence";

/// The step `verify_evidence_artifacts_and_status`.
pub open spec fn verify_evidence_artifacts_and_status_step(
    p: FlowPathsView,
) -> ClientBindingOperatorFlowStepView {
    ClientBindingOperatorFlowStepView {
        id: "verify_evidence_artifacts_and_status"@,
        title: VERIFY_EVIDENCE_ARTIFACTS_AND_STATUS_TITLE@,
        intent: VERIFY_EVIDENCE_ARTIFACTS_AND_STATUS_INTENT@,
        command: Some(targeted(nil().push("soma"@).push("adapter-binding-proof"@).push("--status"@)
            .push("--json"@), p.client, p.manifest_path)),
        mcp_call: None,
        requires_operator_action: false,
        records_proof: false,
        trust_boundary: VERIFY_EVIDENCE_ARTIFACTS_AND_STATUS_BOUNDARY@,
    }
}

fn make_verify_evidence_artifacts_and_status(p: &FlowPaths) -> (r: ClientBindingOperatorFlowStep)
    ensures
        r.deep_view() == verify_evidence_artifacts_and_status_step(p.deep_view()),
{
    step(
        "verify_evidence_artifacts_and_status",
        VERIFY_EVIDENCE_ARTIFACTS_AND_STATUS_TITLE,
        VERIFY_EVIDENCE_ARTIFACTS_AND_STATUS_INTENT,
        Some(with_binding_target(Words::new().w("soma").w("adapter-binding-proof").w("--status")
            .w("--json"), p.client.as_str(), borrowed(&p.manifest_path))),
        None,
        false,
        false,
        VERIFY_EVIDENCE_ARTIFACTS_AND_STATUS_BOUNDARY,
    )
}

/// The steps from a binding contract to a complete proof, before the executable is
/// named.
pub open spec fn flow_steps(p: FlowPathsView) -> Seq<ClientBindingOperatorFlowStepView> {
    Seq::empty().push(record_reference_binding_manifest_step(p))
        .push(render_or_write_installed_config_step(p))
        .push(install_or_merge_private_client_config_step(p)).push(check_installed_config_step(p))
        .push(trigger_private_client_hook_step(p)).push(drain_adapter_spool_step(p))
        .push(record_observed_event_file_step(p)).push(record_observed_app_hook_step(p))
        .push(render_review_surface_step(p)).push(capture_in_client_render_evidence_step(p))
        .push(record_observed_in_client_render_step(p))
        .push(execute_rendered_review_control_step(p)).push(record_observed_review_action_step(p))
        .push(verify_evidence_artifacts_and_status_step(p))
}

fn make_flow(p: &FlowPaths) -> (r: Vec<ClientBindingOperatorFlowStep>)
    ensures
        r.deep_view() == flow_steps(p.deep_view()),
{
    let list: Vec<ClientBindingOperatorFlowStep> = none();
    let list = with(list, make_record_reference_binding_manifest(p));
    let list = with(list, make_render_or_write_installed_config(p));
    let list = with(list, make_install_or_merge_private_client_config(p));
    let list = with(list, make_check_installed_config(p));
    let list = with(list, make_trigger_private_client_hook(p));
    let list = with(list, make_drain_adapter_spool(p));
    let list = with(list, make_record_observed_event_file(p));
    let list = with(list, make_record_observed_app_hook(p));
    let list = with(list, make_render_review_surface(p));
    let list = with(list, make_capture_in_client_render_evidence(p));
    let list = with(list, make_record_observed_in_client_render(p));
    let list = with(list, make_execute_rendered_review_control(p));
    let list = with(list, make_record_observed_review_action(p));
    let list = with(list, make_verify_evidence_artifacts_and_status(p));
    list
}

/// The commands that lead to proof of a real app, before the executable is named.
pub open spec fn proof_commands(p: FlowPathsView) -> Seq<Seq<Seq<char>>> {
    Seq::empty().push(
        targeted(nil().push("soma"@).push("adapter-binding-proof"@).push("--real-app-proof-kit"@),
            p.client, p.manifest_path),
    ).push(
        targeted(nil().push("soma"@).push("adapter-binding-proof"@)
            .push("--discover-installed-config"@), p.client, p.manifest_path),
    ).push(
        targeted(nil().push("soma"@).push("adapter-binding-proof"@)
            .push("--prepare-installed-config"@), p.client, p.manifest_path),
    ).push(
        nil().push("soma"@).push("adapter-binding-proof"@).push("--check-installed-config"@)
            .push("--manifest"@).push(p.manifest).push("--installed-config"@)
            .push(p.installed_config),
    ).push(
        nil().push("soma"@).push("adapter-binding-proof"@).push("--render-render-evidence"@)
            .push("--manifest"@).push(p.manifest).push("--review-render-report"@)
            .push(p.review_render).push("--write-render-evidence"@).push(p.render_evidence),
    ).push(
        nil().push("soma"@).push("adapter-binding-proof"@).push("--manifest"@).push(p.manifest)
            .push("--proof-level"@).push("observed_app_hook"@).push("--event-jsonl"@)
            .push(p.event_jsonl).push("--installed-config"@).push(p.installed_config)
            .push("--evidence-source"@).push(p.app_hook_source)
            .push("--operator-confirm-real-app-invocation"@)
            .push("--operator-confirm-release-grade-evidence"@),
    ).push(
        nil().push("soma"@).push("adapter-binding-proof"@).push("--manifest"@).push(p.manifest)
            .push("--proof-level"@).push("observed_in_client_render"@).push("--installed-config"@)
            .push(p.installed_config).push("--review-render-report"@).push(p.review_render)
            .push("--render-evidence"@).push(p.render_evidence).push("--evidence-source"@)
            .push(p.render_source).push("--operator-confirm-in-client-render"@)
            .push("--operator-confirm-release-grade-evidence"@),
    ).push(
        nil().push("soma"@).push("adapter-binding-proof"@).push("--manifest"@).push(p.manifest)
            .push("--proof-level"@).push("observed_review_action"@).push("--installed-config"@)
            .push(p.installed_config).push("--review-action-report"@).push(p.review_action)
            .push("--evidence-source"@).push(p.review_action_source)
            .push("--operator-confirm-review-action"@)
            .push("--operator-confirm-release-grade-evidence"@),
    ).push(
        targeted(nil().push("soma"@).push("adapter-binding-proof"@)
            .push("--verify-evidence-artifacts"@), p.client, p.manifest_path),
    )
}

fn make_proof_commands(p: &FlowPaths) -> (r: Vec<Vec<String>>)
    ensures
        r.deep_view() == proof_commands(p.deep_view()),
{
    let list: Vec<Vec<String>> = none();
    let list = with(list, with_binding_target(Words::new().w("soma").w("adapter-binding-proof")
        .w("--real-app-proof-kit"), p.client.as_str(), borrowed(&p.manifest_path)));
    let list = with(list, with_binding_target(Words::new().w("soma").w("adapter-binding-proof")
        .w("--discover-installed-config"), p.client.as_str(), borrowed(&p.manifest_path)));
    let list = with(list, with_binding_target(Words::new().w("soma").w("adapter-binding-proof")
        .w("--prepare-installed-config"), p.client.as_str(), borrowed(&p.manifest_path)));
    let list = with(list, Words::new().w("soma").w("adapter-binding-proof")
        .w("--check-installed-config").w("--manifest").w(p.manifest.as_str())
        .w("--installed-config").w(p.installed_config.as_str()).done());
    let list = with(list, Words::new().w("soma").w("adapter-binding-proof")
        .w("--render-render-evidence").w("--manifest").w(p.manifest.as_str())
        .w("--review-render-report").w(p.review_render.as_str()).w("--write-render-evidence")
        .w(p.render_evidence.as_str()).done());
    let list = with(list, Words::new().w("soma").w("adapter-binding-proof").w("--manifest")
        .w(p.manifest.as_str()).w("--proof-level").w("observed_app_hook").w("--event-jsonl")
        .w(p.event_jsonl.as_str()).w("--installed-config").w(p.installed_config.as_str())
        .w("--evidence-source").w(p.app_hook_source.as_str())
        .w("--operator-confirm-real-app-invocation").w("--operator-confirm-release-grade-evidence")
        .done());
    let list = with(list, Words::new().w("soma").w("adapter-binding-proof").w("--manifest")
        .w(p.manifest.as_str()).w("--proof-level").w("observed_in_client_render")
        .w("--installed-config").w(p.installed_config.as_str()).w("--review-render-report")
        .w(p.review_render.as_str()).w("--render-evidence").w(p.render_evidence.as_str())
        .w("--evidence-source").w(p.render_source.as_str()).w("--operator-confirm-in-client-render")
        .w("--operator-confirm-release-grade-evidence").done());
    let list = with(list, Words::new().w("soma").w("adapter-binding-proof").w("--manifest")
        .w(p.manifest.as_str()).w("--proof-level").w("observed_review_action")
        .w("--installed-config").w(p.installed_config.as_str()).w("--review-action-report")
        .w(p.review_action.as_str()).w("--evidence-source").w(p.review_action_source.as_str())
        .w("--operator-confirm-review-action").w("--operator-confirm-release-grade-evidence")
        .done());
    let list = with(list, with_binding_target(Words::new().w("soma").w("adapter-binding-proof")
        .w("--verify-evidence-artifacts"), p.client.as_str(), borrowed(&p.manifest_path)));
    list
}

/// The commands, with the running executable named in them.
pub open spec fn operator_commands(commands: Seq<Seq<Seq<char>>>, id: BinaryIdentityView) -> Seq<
    Seq<Seq<char>>,
> {
    Seq::new(commands.len(), |i: int| operator_command(commands[i], id))
}

pub fn commands_with_resolved_soma_binary(
    commands: &Vec<Vec<String>>,
    identity: &BinaryIdentity,
) -> (r: Vec<Vec<String>>)
    ensures
        r.deep_view() == operator_commands(commands.deep_view(), identity.deep_view()),
{
    let mut out: Vec<Vec<String>> = none();
    let mut i: usize = 0;
    while i < commands.len()
        invariant
            i <= commands.len(),
            out.deep_view() =~= operator_commands(
                commands.deep_view(),
                identity.deep_view(),
            ).take(i as int),
        decreases commands.len() - i,
    {
        assert(commands.deep_view()[i as int] == commands[i as int].deep_view());
        out = with(
            out,
            command_with_current_binary_when_path_soma_differs(commands[i].dup(), identity),
        );
        i = i + 1;
    }
    assert(operator_commands(commands.deep_view(), identity.deep_view()).take(i as int)
        =~= operator_commands(commands.deep_view(), identity.deep_view()));
    out
}

/// A step, with the running executable named in its command.
pub open spec fn operator_step(
    s: ClientBindingOperatorFlowStepView,
    id: BinaryIdentityView,
) -> ClientBindingOperatorFlowStepView {
    ClientBindingOperatorFlowStepView {
        command: match s.command {
            Some(c) => Some(operator_command(c, id)),
            None => None,
        },
        ..s
    }
}

pub open spec fn operator_steps(
    steps: Seq<ClientBindingOperatorFlowStepView>,
    id: BinaryIdentityView,
) -> Seq<ClientBindingOperatorFlowStepView> {
    Seq::new(steps.len(), |i: int| operator_step(steps[i], id))
}

fn name_executable(
    s: &ClientBindingOperatorFlowStep,
    identity: &BinaryIdentity,
) -> (r: ClientBindingOperatorFlowStep)
    ensures
        r.deep_view() == operator_step(s.deep_view(), identity.deep_view()),
{
    let command = match &s.command {
        Some(c) => Some(command_with_current_binary_when_path_soma_differs(c.dup(), identity)),
        None => None,
    };
    ClientBindingOperatorFlowStep {
        id: s.id.clone(),
        title: s.title.clone(),
        intent: s.intent.clone(),
        command,
        mcp_call: s.mcp_call.dup(),
        requires_operator_action: s.requires_operator_action,
        records_proof: s.records_proof,
        trust_boundary: s.trust_boundary.clone(),
    }
}

pub fn operator_flow_with_resolved_soma_binary(
    steps: &Vec<ClientBindingOperatorFlowStep>,
    identity: &BinaryIdentity,
) -> (r: Vec<ClientBindingOperatorFlowStep>)
    ensures
        r.deep_view() == operator_steps(steps.deep_view(), identity.deep_view()),
{
    let mut out: Vec<ClientBindingOperatorFlowStep> = none();
    let mut i: usize = 0;
    while i < steps.len()
        invariant
            i <= steps.len(),
            out.deep_view() =~= operator_steps(steps.deep_view(), identity.deep_view()).take(
                i as int,
            ),
        decreases steps.len() - i,
    {
        assert(steps.deep_view()[i as int] == steps[i as int].deep_view());
        out = with(out, name_executable(&steps[i], identity));
        i = i + 1;
    }
    assert(operator_steps(steps.deep_view(), identity.deep_view()).take(i as int)
        =~= operator_steps(steps.deep_view(), identity.deep_view()));
    out
}

pub const DEFAULT_EVENT_JSONL: &'static str = "$HOME/.soma/adapter/events.jsonl";

/// The configuration file to name where none is known.
pub open spec fn unknown_config(client: Seq<char>) -> Seq<char> {
    "<"@ + client + "-hook-config>"@
}

pub fn unknown_config_name(client: &str) -> (r: String)
    ensures
        r@ == unknown_config(client@),
{
    cat3("<", client, "-hook-config>")
}

pub open spec fn or_else(a: Option<Seq<char>>, b: Seq<char>) -> Seq<char> {
    match a {
        Some(s) => s,
        None => b,
    }
}

pub fn text_or(a: Option<&str>, b: &str) -> (r: String)
    ensures
        r@ == or_else(a.deep_view(), b@),
{
    match a {
        Some(s) => s.to_string(),
        None => b.to_string(),
    }
}

/// What the steps name, where each file that is not given has its usual place in
/// `dir`.
pub open spec fn named_paths(
    client: Seq<char>,
    manifest_path: Option<Seq<char>>,
    event_source: Option<Seq<char>>,
    nonce: Seq<char>,
    dir: Seq<char>,
    config_root: Option<Seq<char>>,
    installed_config: Option<Seq<char>>,
    event_jsonl: Option<Seq<char>>,
    review_render: Option<Seq<char>>,
    render_evidence: Option<Seq<char>>,
    review_action: Option<Seq<char>>,
    host: HostView,
) -> FlowPathsView {
    let manifest = manifest_arg(client, manifest_path);
    FlowPathsView {
        client,
        manifest,
        installed_config: or_else(installed_config, unknown_config(client)),
        event_source: or_else(event_source, private_event_source(client)),
        nonce,
        event_jsonl: or_else(event_jsonl, DEFAULT_EVENT_JSONL@),
        artifact_dir: dir,
        review_render: or_else(review_render, file_in(dir, "review-render.json"@)),
        render_evidence: or_else(render_evidence, file_in(dir, "render-evidence.json"@)),
        review_action: or_else(review_action, file_in(dir, "review-action.json"@)),
        app_hook_source: operator_source(client, ClientBindingProofLevel::ObservedAppHook),
        render_source: operator_source(client, ClientBindingProofLevel::ObservedInClientRender),
        review_action_source: operator_source(
            client,
            ClientBindingProofLevel::ObservedReviewAction,
        ),
        soma_bin: operator_bin(host.identity),
        mcp_manifest: mcp_manifest(manifest, host.manifests),
        config_root,
        manifest_path,
    }
}

fn make_paths(
    client: &str,
    manifest_path: Option<&str>,
    event_source: Option<&str>,
    nonce: &str,
    dir: &str,
    config_root: Option<&str>,
    installed_config: Option<&str>,
    event_jsonl: Option<&str>,
    review_render: Option<&str>,
    render_evidence: Option<&str>,
    review_action: Option<&str>,
    host: &Host,
) -> (r: FlowPaths)
    ensures
        r.deep_view() == named_paths(
            client@,
            manifest_path.deep_view(),
            event_source.deep_view(),
            nonce@,
            dir@,
            config_root.deep_view(),
            installed_config.deep_view(),
            event_jsonl.deep_view(),
            review_render.deep_view(),
            render_evidence.deep_view(),
            review_action.deep_view(),
            host.deep_view(),
        ),
{
    let manifest = manifest_to_name(client, manifest_path);
    let mcp = manifest_path_for_mcp_arg(manifest.as_str(), host);
    FlowPaths {
        client: client.to_string(),
        manifest,
        installed_config: text_or(installed_config, unknown_config_name(client).as_str()),
        event_source: text_or(event_source, default_private_event_source(client).as_str()),
        nonce: nonce.to_string(),
        event_jsonl: text_or(event_jsonl, DEFAULT_EVENT_JSONL),
        artifact_dir: dir.to_string(),
        review_render: text_or(
            review_render,
            durable_client_artifact_path_in_dir(dir, "review-render.json").as_str(),
        ),
        render_evidence: text_or(
            render_evidence,
            durable_client_artifact_path_in_dir(dir, "render-evidence.json").as_str(),
        ),
        review_action: text_or(
            review_action,
            durable_client_artifact_path_in_dir(dir, "review-action.json").as_str(),
        ),
        app_hook_source: release_grade_operator_evidence_source(
            client,
            ClientBindingProofLevel::ObservedAppHook,
        ),
        render_source: release_grade_operator_evidence_source(
            client,
            ClientBindingProofLevel::ObservedInClientRender,
        ),
        review_action_source: release_grade_operator_evidence_source(
            client,
            ClientBindingProofLevel::ObservedReviewAction,
        ),
        soma_bin: resolved_soma_bin_for_operator_command(&host.identity),
        mcp_manifest: mcp,
        config_root: owned(config_root),
        manifest_path: owned(manifest_path),
    }
}

/// The steps from a binding contract to a complete proof.
pub open spec fn operator_flow(
    client: Seq<char>,
    manifest_path: Option<Seq<char>>,
    event_source: Option<Seq<char>>,
    nonce: Seq<char>,
    artifact_dir: Option<Seq<char>>,
    config_root: Option<Seq<char>>,
    installed_config: Option<Seq<char>>,
    event_jsonl: Option<Seq<char>>,
    review_render: Option<Seq<char>>,
    render_evidence: Option<Seq<char>>,
    review_action: Option<Seq<char>>,
    host: HostView,
) -> Seq<ClientBindingOperatorFlowStepView> {
    let dir = or_else(artifact_dir, durable_dir(client, nonce, host.home));
    operator_steps(
        flow_steps(
            named_paths(
                client,
                manifest_path,
                event_source,
                nonce,
                dir,
                config_root,
                installed_config,
                event_jsonl,
                review_render,
                render_evidence,
                review_action,
                host,
            ),
        ),
        host.identity,
    )
}

/// The steps from a binding contract to a complete proof.
pub fn client_binding_operator_flow(
    client: &str,
    manifest_path: Option<&str>,
    expected_event_source: Option<&str>,
    binding_nonce: &str,
    artifact_dir: Option<&str>,
    config_root: Option<&str>,
    installed_config_path: Option<&str>,
    event_jsonl_path: Option<&str>,
    review_render_report_path: Option<&str>,
    render_evidence_path: Option<&str>,
    review_action_report_path: Option<&str>,
    host: &Host,
) -> (r: Vec<ClientBindingOperatorFlowStep>)
    ensures
        r.deep_view() == operator_flow(
            client@,
            manifest_path.deep_view(),
            expected_event_source.deep_view(),
            binding_nonce@,
            artifact_dir.deep_view(),
            config_root.deep_view(),
            installed_config_path.deep_view(),
            event_jsonl_path.deep_view(),
            review_render_report_path.deep_view(),
            render_evidence_path.deep_view(),
            review_action_report_path.deep_view(),
            host.deep_view(),
        ),
{
    let dir = text_or(
        artifact_dir,
        durable_client_artifact_dir_for_run(client, binding_nonce, borrowed(&host.home)).as_str(),
    );
    let paths = make_paths(
        client,
        manifest_path,
        expected_event_source,
        binding_nonce,
        dir.as_str(),
        config_root,
        installed_config_path,
        event_jsonl_path,
        review_render_report_path,
        render_evidence_path,
        review_action_report_path,
        host,
    );
    let steps = make_flow(&paths);
    operator_flow_with_resolved_soma_binary(&steps, &host.identity)
}

/// The commands that lead to proof of a real app.
pub open spec fn real_app_commands(
    client: Seq<char>,
    manifest_path: Option<Seq<char>>,
    installed_config: Option<Seq<char>>,
    event_jsonl: Option<Seq<char>>,
    review_render: Option<Seq<char>>,
    render_evidence: Option<Seq<char>>,
    review_action: Option<Seq<char>>,
    host: HostView,
) -> Seq<Seq<Seq<char>>> {
    operator_commands(
        proof_commands(
            named_paths(
                client,
                manifest_path,
                None,
                ""@,
                durable_dir(client, ANY_RUN@, host.home),
                None,
                installed_config,
                event_jsonl,
                review_render,
                render_evidence,
                review_action,
                host,
            ),
        ),
        host.identity,
    )
}

/// The commands that lead to proof of a real app.
pub fn real_app_proof_commands(
    client: &str,
    manifest_path: Option<&str>,
    installed_config_path: Option<&str>,
    event_jsonl_path: Option<&str>,
    review_render_report_path: Option<&str>,
    render_evidence_path: Option<&str>,
    review_action_report_path: Option<&str>,
    host: &Host,
) -> (r: Vec<Vec<String>>)
    ensures
        r.deep_view() == real_app_commands(
            client@,
            manifest_path.deep_view(),
            installed_config_path.deep_view(),
            event_jsonl_path.deep_view(),
            review_render_report_path.deep_view(),
            render_evidence_path.deep_view(),
            review_action_report_path.deep_view(),
            host.deep_view(),
        ),
{
    let dir = durable_client_artifact_dir(client, borrowed(&host.home));
    let paths = make_paths(
        client,
        manifest_path,
        None,
        "",
        dir.as_str(),
        None,
        installed_config_path,
        event_jsonl_path,
        review_render_report_path,
        render_evidence_path,
        review_action_report_path,
        host,
    );
    let commands = make_proof_commands(&paths);
    commands_with_resolved_soma_binary(&commands, &host.identity)
}

}
