//! A proof session in a few lines for the terminal.
use super::session::{
    fallback_command, fallback_path, workspace_fallback_artifact_path_for_step,
    workspace_fallback_command_for_step,
};
use super::types::{
    AdapterBindingProofSessionOutcome, AdapterBindingProofSessionOutcomeView,
    ClientBindingAppHookEvidenceSummary, ClientBindingAppHookEvidenceSummaryView,
    ClientBindingMcpCallTemplate, ClientBindingMcpCallTemplateView, ClientBindingOperatorFlowStep,
    ClientBindingOperatorFlowStepView, ClientBindingProofArtifactPathSuggestion,
    ClientBindingProofArtifactPathSuggestionView, ClientBindingProofRunbookStep,
    ClientBindingProofRunbookStepView, ClientBindingProofSession, ClientBindingProofSessionRunbook,
    ClientBindingProofSessionRunbookView, ClientBindingProofSessionView,
    ContinueDevdataCollectorProbe, ContinueDevdataCollectorProbeView,
};
use crate::dup::Dup;
use crate::number::decimal;
use crate::outcome::copy_text;
use crate::outside::{json_line, print_json};
use crate::shell::{command_line, line_of};
use crate::storage::{level_name, ClientBindingProofLevel};
use crate::text::{cat2, flag_text, join, joined, nil, none, same, with, with_text, Phrase, Words};
use vstd::prelude::*;
use vstd::string::*;

verus! {

// ---------------------------------------------------------------------------
// Parts of lines
// ---------------------------------------------------------------------------

/// The texts, with semicolons between them.
pub open spec fn list_text(list: Seq<Seq<char>>) -> Seq<char> {
    if list.len() == 0 {
        "none"@
    } else {
        joined(list, "; "@)
    }
}

pub fn string_list_or_none(values: &Vec<String>) -> (r: String)
    ensures
        r@ == list_text(values.deep_view()),
{
    assert(values.deep_view().len() == values.len());
    if values.len() == 0 {
        "none".to_string()
    } else {
        join(values, "; ")
    }
}

/// The names of levels, with commas between them.
pub open spec fn levels_text(levels: Seq<ClientBindingProofLevel>) -> Seq<char> {
    if levels.len() == 0 {
        "none"@
    } else {
        joined(Seq::new(levels.len(), |i: int| level_name(levels[i])), ","@)
    }
}

pub fn proof_level_list(levels: &Vec<ClientBindingProofLevel>) -> (r: String)
    ensures
        r@ == levels_text(levels.deep_view()),
{
    let ghost all = levels.deep_view();
    let ghost want = Seq::new(all.len(), |i: int| level_name(all[i]));
    assert(all.len() == levels.len());
    if levels.len() == 0 {
        return "none".to_string();
    }
    let mut names: Vec<String> = none();
    let mut i: usize = 0;
    while i < levels.len()
        invariant
            i <= levels.len(),
            all == levels.deep_view(),
            want == Seq::new(all.len(), |i: int| level_name(all[i])),
            names.deep_view() =~= want.take(i as int),
        decreases levels.len() - i,
    {
        assert(all[i as int] == levels[i as int]);
        names = with_text(names, levels[i].as_str());
        i = i + 1;
    }
    assert(want.take(i as int) =~= want);
    join(&names, ",")
}

/// A line with a command, where there is one.
pub open spec fn command_lines(
    label: Seq<char>,
    command: Option<Seq<Seq<char>>>,
) -> Seq<Seq<char>> {
    match command {
        Some(c) => nil().push(label + line_of(c)),
        None => nil(),
    }
}

fn push_command(w: Words, label: &str, command: &Option<Vec<String>>) -> (r: Words)
    ensures
        r@ == w@ + command_lines(label@, command.deep_view()),
{
    match command {
        Some(c) => {
            let line = cat2(label, command_line(c).as_str());
            let r = w.w(line.as_str());
            assert(r@ =~= w@ + command_lines(label@, command.deep_view()));
            r
        },
        None => {
            assert(w@ + nil() =~= w@);
            w
        },
    }
}

/// A command that is not empty.
pub open spec fn nonempty(command: Option<Seq<Seq<char>>>) -> Option<Seq<Seq<char>>> {
    match command {
        Some(c) => if c.len() > 0 {
            Some(c)
        } else {
            None
        },
        None => None,
    }
}

fn copy_nonempty(command: &Option<Vec<String>>) -> (r: Option<Vec<String>>)
    ensures
        r.deep_view() == nonempty(command.deep_view()),
{
    match command {
        Some(c) => {
            assert(c.deep_view().len() == c.len());
            if c.len() > 0 {
                Some(c.dup())
            } else {
                None
            }
        },
        None => None,
    }
}

/// A line with a tool call, where there is one.
pub open spec fn call_lines(
    label: Seq<char>,
    call: Option<ClientBindingMcpCallTemplateView>,
) -> Seq<Seq<char>> {
    match call {
        Some(c) => nil().push(label + c.tool + " "@ + json_line(c.arguments)),
        None => nil(),
    }
}

fn push_call(w: Words, label: &str, call: &Option<ClientBindingMcpCallTemplate>) -> (r: Words)
    ensures
        r@ == w@ + call_lines(label@, call.deep_view()),
{
    match call {
        Some(c) => {
            let line = Phrase::new(label).t(c.tool.as_str()).t(" ").t(
                print_json(&c.arguments).as_str(),
            ).done();
            let r = w.w(line.as_str());
            assert(r@ =~= w@ + call_lines(label@, call.deep_view()));
            r
        },
        None => {
            assert(w@ + nil() =~= w@);
            w
        },
    }
}

// ---------------------------------------------------------------------------
// Sections
// ---------------------------------------------------------------------------

/// The most commands, or steps, that a section shows.
pub const SHOWN_COMMANDS: usize = 4;

pub const SHOWN_STEPS: usize = 5;

/// At most the first `n` commands, one to a line.
pub open spec fn each_command(label: Seq<char>, commands: Seq<Seq<Seq<char>>>, n: nat) -> Seq<
    Seq<char>,
> {
    let shown = if commands.len() > n {
        n
    } else {
        commands.len()
    };
    Seq::new(shown, |i: int| label + line_of(commands[i]))
}

fn push_commands(w: Words, label: &str, commands: &Vec<Vec<String>>, n: usize) -> (r: Words)
    ensures
        r@ == w@ + each_command(label@, commands.deep_view(), n as nat),
{
    let ghost before = w@;
    let ghost want = each_command(label@, commands.deep_view(), n as nat);
    assert(commands.deep_view().len() == commands.len());
    let mut w = w;
    let mut i: usize = 0;
    assert(before + want.take(0) =~= before);
    while i < commands.len() && i < n
        invariant
            i <= commands.len(),
            i <= n,
            commands.deep_view().len() == commands.len(),
            want == each_command(label@, commands.deep_view(), n as nat),
            w@ == before + want.take(i as int),
        decreases commands.len() - i,
    {
        assert(commands.deep_view()[i as int] == commands[i as int].deep_view());
        let line = cat2(label, command_line(&commands[i]).as_str());
        w = w.w(line.as_str());
        assert((before + want.take(i as int)).push(want[i as int]) =~= before + want.take(i + 1));
        i = i + 1;
    }
    assert(want.take(i as int) =~= want);
    w
}

/// What the session is about, and its state.
pub open spec fn head_lines(o: AdapterBindingProofSessionOutcomeView) -> Seq<Seq<char>> {
    let a = nil().push("SOMA client binding proof-session brief"@).push("Client: "@ + o.client);
    let b = match o.manifest_path {
        Some(m) => a.push("Manifest: "@ + m),
        None => a,
    };
    let c = b.push("Status: "@ + o.status + " release_gate="@ + o.release_gate + " ready="@
        + flag_text(o.ready_for_private_client_claim));
    let d = if o.proof_storage_status != "available"@ {
        let s = c.push("Proof storage: "@ + o.proof_storage_status);
        let f = match o.proof_storage_error {
            Some(e) => s.push("Proof storage error: "@ + e),
            None => s,
        };
        f + each_command("Recovery: "@, o.proof_storage_recovery_commands, SHOWN_COMMANDS as nat)
    } else {
        c
    };
    d.push("Next action: "@ + o.operator_next_action_id + " ("@ + o.operator_next_action_label
        + ")"@)
}

fn make_head(o: &AdapterBindingProofSessionOutcome) -> (r: Vec<String>)
    ensures
        r.deep_view() == head_lines(o.deep_view()),
{
    let client = Phrase::new("Client: ").t(o.client.as_str()).done();
    let mut w = Words::new().w("SOMA client binding proof-session brief").w(client.as_str());
    match &o.manifest_path {
        Some(m) => {
            let line = Phrase::new("Manifest: ").t(m.as_str()).done();
            w = w.w(line.as_str());
        },
        None => {},
    }
    let status = Phrase::new("Status: ").t(o.status.as_str()).t(" release_gate=")
        .t(o.release_gate.as_str()).t(" ready=").b(o.ready_for_private_client_claim).done();
    w = w.w(status.as_str());
    if !same(o.proof_storage_status.as_str(), "available") {
        let storage = Phrase::new("Proof storage: ").t(o.proof_storage_status.as_str()).done();
        w = w.w(storage.as_str());
        match &o.proof_storage_error {
            Some(e) => {
                let line = Phrase::new("Proof storage error: ").t(e.as_str()).done();
                w = w.w(line.as_str());
            },
            None => {},
        }
        w = push_commands(w, "Recovery: ", &o.proof_storage_recovery_commands, SHOWN_COMMANDS);
    }
    let action = Phrase::new("Next action: ").t(o.operator_next_action_id.as_str()).t(" (")
        .t(o.operator_next_action_label.as_str()).t(")").done();
    w.w(action.as_str()).done()
}

/// The command to show: the next one, or else that of the card.
pub open spec fn shown_command(o: AdapterBindingProofSessionOutcomeView) -> Option<Seq<Seq<char>>> {
    match nonempty(o.next_command) {
        Some(c) => Some(c),
        None => nonempty(Some(o.operator_card.primary_next_command)),
    }
}

/// The step that comes next.
pub open spec fn step_lines(o: AdapterBindingProofSessionOutcomeView) -> Seq<Seq<char>> {
    let a = match o.next_operator_step {
        Some(step) => {
            let id = match o.next_step_id {
                Some(id) => id,
                None => step.id,
            };
            nil().push("Proof step: "@ + id + " - "@ + step.title).push("Why: "@ + step.intent)
        },
        None => {
            let id = match o.next_step_id {
                Some(id) => id,
                None => "none"@,
            };
            nil().push("Proof step: "@ + id).push("Why: "@ + o.operator_card.primary_next_step)
        },
    };
    a + command_lines("Command: "@, shown_command(o)) + call_lines("MCP: "@, o.next_mcp_call)
}

fn make_step(o: &AdapterBindingProofSessionOutcome) -> (r: Vec<String>)
    ensures
        r.deep_view() == step_lines(o.deep_view()),
{
    let w = match &o.next_operator_step {
        Some(step) => {
            let id = match &o.next_step_id {
                Some(id) => id.as_str(),
                None => step.id.as_str(),
            };
            let line = Phrase::new("Proof step: ").t(id).t(" - ").t(step.title.as_str()).done();
            let why = Phrase::new("Why: ").t(step.intent.as_str()).done();
            Words::new().w(line.as_str()).w(why.as_str())
        },
        None => {
            let id = match &o.next_step_id {
                Some(id) => id.as_str(),
                None => "none",
            };
            let line = Phrase::new("Proof step: ").t(id).done();
            let why = Phrase::new("Why: ").t(o.operator_card.primary_next_step.as_str()).done();
            Words::new().w(line.as_str()).w(why.as_str())
        },
    };
    let command = match copy_nonempty(&o.next_command) {
        Some(c) => Some(c),
        None => {
            let of_card = Some(o.operator_card.primary_next_command.dup());
            copy_nonempty(&of_card)
        },
    };
    let w = push_command(w, "Command: ", &command);
    push_call(w, "MCP: ", &o.next_mcp_call).done()
}

/// The collector of Continue.
pub open spec fn collector_lines(c: Option<ContinueDevdataCollectorProbeView>) -> Seq<Seq<char>> {
    match c {
        None => nil(),
        Some(c) => {
            let a = nil().push("Continue collector: status="@ + c.collector_status + " listening="@
                + flag_text(c.collector_listening) + " endpoint="@ + c.collector_host + ":"@
                + decimal(c.collector_port as nat) + " devdata_visible="@
                + flag_text(c.devdata_destination_visible));
            let b = match c.collector_error {
                Some(e) => a.push("Continue collector probe error: "@ + e),
                None => a,
            };
            b + command_lines("Continue collector status check: "@, c.status_command)
                + command_lines("Continue collector start: "@, c.start_command)
        },
    }
}

fn make_collector(c: &Option<ContinueDevdataCollectorProbe>) -> (r: Vec<String>)
    ensures
        r.deep_view() == collector_lines(c.deep_view()),
{
    match c {
        None => none(),
        Some(c) => {
            let line = Phrase::new("Continue collector: status=").t(c.collector_status.as_str())
                .t(" listening=").b(c.collector_listening).t(" endpoint=")
                .t(c.collector_host.as_str()).t(":").n(c.collector_port as usize)
                .t(" devdata_visible=").b(c.devdata_destination_visible).done();
            let mut w = Words::new().w(line.as_str());
            match &c.collector_error {
                Some(e) => {
                    let line = Phrase::new("Continue collector probe error: ").t(e.as_str()).done();
                    w = w.w(line.as_str());
                },
                None => {},
            }
            let w = push_command(w, "Continue collector status check: ", &c.status_command);
            push_command(w, "Continue collector start: ", &c.start_command).done()
        },
    }
}

/// App-hook evidence.
pub open spec fn hook_lines(h: ClientBindingAppHookEvidenceSummaryView) -> Seq<Seq<char>> {
    let events = match h.event_jsonl_path {
        Some(p) => p,
        None => "none"@,
    };
    let a = nil().push("App hook evidence: status="@ + h.status + " ready="@
        + flag_text(h.ready_to_record_now) + " event_jsonl="@ + events + " expected_event_source="@
        + h.expected_event_source + " binding_nonce="@ + h.binding_nonce + " blockers="@
        + decimal(h.blocking_reason_count as nat));
    let b = if h.blocking_reasons.len() > 0 {
        a.push("App hook blockers: "@ + list_text(h.blocking_reasons))
    } else {
        a
    };
    b + command_lines("App hook readiness probe: "@, h.readiness_probe_command) + collector_lines(
        h.continue_devdata_collector,
    )
}

fn make_hook(h: &ClientBindingAppHookEvidenceSummary) -> (r: Vec<String>)
    ensures
        r.deep_view() == hook_lines(h.deep_view()),
{
    let events = match &h.event_jsonl_path {
        Some(p) => p.as_str(),
        None => "none",
    };
    let line = Phrase::new("App hook evidence: status=").t(h.status.as_str()).t(" ready=")
        .b(h.ready_to_record_now).t(" event_jsonl=").t(events).t(" expected_event_source=")
        .t(h.expected_event_source.as_str()).t(" binding_nonce=").t(h.binding_nonce.as_str())
        .t(" blockers=").n(h.blocking_reason_count).done();
    let mut w = Words::new().w(line.as_str());
    assert(h.deep_view().blocking_reasons.len() == h.blocking_reasons.len());
    if h.blocking_reasons.len() > 0 {
        let line = Phrase::new("App hook blockers: ")
            .t(string_list_or_none(&h.blocking_reasons).as_str()).done();
        w = w.w(line.as_str());
    }
    let w = push_command(w, "App hook readiness probe: ", &h.readiness_probe_command);
    w.more(&make_collector(&h.continue_devdata_collector)).done()
}

/// The step that records what an action outside shows.
pub open spec fn step_after(
    flow: Seq<ClientBindingOperatorFlowStepView>,
    id: Seq<char>,
) -> Option<ClientBindingOperatorFlowStepView>
    decreases flow.len(),
{
    if flow.len() == 0 {
        None
    } else if flow[0].id == id && flow[0].records_proof {
        Some(flow[0])
    } else {
        step_after(flow.skip(1), id)
    }
}

fn proof_step_after_external_success<'a>(
    flow: &'a Vec<ClientBindingOperatorFlowStep>,
    id: &str,
) -> (r: Option<&'a ClientBindingOperatorFlowStep>)
    ensures
        r.deep_view() == step_after(flow.deep_view(), id@),
{
    let ghost all = flow.deep_view();
    let mut i: usize = 0;
    assert(all.skip(0) =~= all);
    while i < flow.len()
        invariant
            i <= flow.len(),
            all == flow.deep_view(),
            step_after(all, id@) == step_after(all.skip(i as int), id@),
        decreases flow.len() - i,
    {
        assert(all.skip(i as int)[0] == flow[i as int].deep_view());
        if same(flow[i].id.as_str(), id) && flow[i].records_proof {
            return Some(&flow[i]);
        }
        assert(all.skip(i as int).skip(1) =~= all.skip(i + 1));
        i = i + 1;
    }
    None
}

/// The action outside, and what records it.
pub open spec fn outside_lines(o: AdapterBindingProofSessionOutcomeView) -> Seq<Seq<char>> {
    match o.external_action {
        None => nil(),
        Some(a) => {
            let head = nil().push("External action: "@ + a.action_label + " ("@ + a.action_kind
                + ")"@).push("External proof after success: "@ + a.proof_after_success_step_id);
            match step_after(o.operator_flow, a.proof_after_success_step_id) {
                None => head,
                Some(step) => (head + command_lines(
                    "After success proof command: "@,
                    nonempty(step.command),
                ) + call_lines("After success proof MCP: "@, step.mcp_call))
                    .push("After success proof boundary: "@ + step.trust_boundary),
            }
        },
    }
}

fn make_outside(o: &AdapterBindingProofSessionOutcome) -> (r: Vec<String>)
    ensures
        r.deep_view() == outside_lines(o.deep_view()),
{
    match &o.external_action {
        None => none(),
        Some(a) => {
            let line = Phrase::new("External action: ").t(a.action_label.as_str()).t(" (")
                .t(a.action_kind.as_str()).t(")").done();
            let after = Phrase::new("External proof after success: ")
                .t(a.proof_after_success_step_id.as_str()).done();
            let w = Words::new().w(line.as_str()).w(after.as_str());
            match proof_step_after_external_success(
                &o.operator_flow,
                a.proof_after_success_step_id.as_str(),
            ) {
                None => w.done(),
                Some(step) => {
                    let w = push_command(
                        w,
                        "After success proof command: ",
                        &copy_nonempty(&step.command),
                    );
                    let w = push_call(w, "After success proof MCP: ", &step.mcp_call);
                    let line = Phrase::new("After success proof boundary: ")
                        .t(step.trust_boundary.as_str()).done();
                    w.w(line.as_str()).done()
                },
            }
        },
    }
}

/// What the operator should know before acting outside.
pub open spec fn safety_lines(o: AdapterBindingProofSessionOutcomeView) -> Seq<Seq<char>> {
    let safety = if o.external_action_safety is Some {
        o.external_action_safety
    } else {
        o.operator_card.external_action_safety
    };
    match safety {
        None => nil(),
        Some(s) => nil().push("External safety: classification="@ + s.classification
            + " requires_confirmation="@ + flag_text(
            s.requires_operator_confirmation_before_submission)
            + " may_transmit_prompt_to_provider="@ + flag_text(s.may_transmit_prompt_to_provider))
            .push("Minimal prompt: "@ + s.suggested_minimal_test_prompt)
            .push("Forbidden inputs: "@ + list_text(s.forbidden_inputs)),
    }
}

fn make_safety(o: &AdapterBindingProofSessionOutcome) -> (r: Vec<String>)
    ensures
        r.deep_view() == safety_lines(o.deep_view()),
{
    let safety = if o.external_action_safety.is_some() {
        &o.external_action_safety
    } else {
        &o.operator_card.external_action_safety
    };
    match safety {
        None => none(),
        Some(s) => {
            let line = Phrase::new("External safety: classification=").t(s.classification.as_str())
                .t(" requires_confirmation=").b(s.requires_operator_confirmation_before_submission)
                .t(" may_transmit_prompt_to_provider=").b(s.may_transmit_prompt_to_provider).done();
            let prompt = Phrase::new("Minimal prompt: ").t(s.suggested_minimal_test_prompt.as_str())
                .done();
            let forbidden = Phrase::new("Forbidden inputs: ")
                .t(string_list_or_none(&s.forbidden_inputs).as_str()).done();
            Words::new().w(line.as_str()).w(prompt.as_str()).w(forbidden.as_str()).done()
        },
    }
}

/// Suggested paths, one to a line.
pub open spec fn suggestion_lines(
    label: Seq<char>,
    list: Seq<ClientBindingProofArtifactPathSuggestionView>,
) -> Seq<Seq<char>> {
    Seq::new(
        list.len(),
        |i: int|
            {
                let x = list[i];
                label + (" artifact: kind="@ + x.artifact_kind + " path="@ + x.path + " intent="@
                    + x.intent)
            },
    )
}

fn push_suggestions(
    w: Words,
    label: &str,
    list: &Vec<ClientBindingProofArtifactPathSuggestion>,
) -> (r: Words)
    ensures
        r@ == w@ + suggestion_lines(label@, list.deep_view()),
{
    let ghost before = w@;
    let ghost want = suggestion_lines(label@, list.deep_view());
    let mut w = w;
    let mut i: usize = 0;
    assert(before + want.take(0) =~= before);
    while i < list.len()
        invariant
            i <= list.len(),
            want == suggestion_lines(label@, list.deep_view()),
            w@ == before + want.take(i as int),
        decreases list.len() - i,
    {
        let x = &list[i];
        assert(list.deep_view()[i as int] == x.deep_view());
        let tail = Phrase::new(" artifact: kind=").t(x.artifact_kind.as_str()).t(" path=")
            .t(x.path.as_str()).t(" intent=").t(x.intent.as_str()).done();
        let line = cat2(label, tail.as_str());
        w = w.w(line.as_str());
        assert(line@ == want[i as int]);
        assert((before + want.take(i as int)).push(want[i as int]) =~= before + want.take(i + 1));
        i = i + 1;
    }
    assert(want.take(i as int) =~= want);
    w
}

/// How far the session is, and where evidence goes.
pub open spec fn progress_lines(s: ClientBindingProofSessionView) -> Seq<Seq<char>> {
    let r = s.runbook;
    let p = r.progress;
    let a = nil().push("Proof levels: completed="@ + levels_text(s.completed_proof_levels)
        + " pending="@ + levels_text(s.pending_proof_levels) + " ready_to_record="@
        + levels_text(s.ready_to_record_proof_levels) + " blocked="@
        + levels_text(s.blocked_proof_levels)).push(
        "Runbook: steps="@ + decimal(p.total_step_count as nat) + " operator_actions="@
        + decimal(p.operator_action_step_count as nat) + " proof_recording="@
        + decimal(p.proof_recording_step_count as nat) + " ready_now="@
        + decimal(p.ready_now_step_count as nat) + " blocked_proofs="@
        + decimal(p.blocked_proof_step_count as nat) + " blocking_reasons="@
        + decimal(p.blocking_reason_count as nat) + " release_ready="@ + flag_text(p.release_ready))
        .push("Durable artifact dir: "@ + r.durable_artifact_dir)
        .push("Durable artifact dir write: "@ + r.durable_artifact_dir_write_status)
        + suggestion_lines("Suggested"@, r.suggested_artifact_paths);
    match r.workspace_fallback_artifact_dir {
        None => a,
        Some(d) => a.push("Workspace fallback artifact dir: "@ + d) + suggestion_lines(
            "Workspace fallback"@,
            r.workspace_fallback_artifact_paths,
        ) + each_command(
            "Workspace fallback command: "@,
            r.workspace_fallback_commands,
            r.workspace_fallback_commands.len(),
        ),
    }
}

fn make_progress(s: &ClientBindingProofSession) -> (r: Vec<String>)
    ensures
        r.deep_view() == progress_lines(s.deep_view()),
{
    let r = &s.runbook;
    let p = &r.progress;
    let levels = Phrase::new("Proof levels: completed=")
        .t(proof_level_list(&s.completed_proof_levels).as_str()).t(" pending=")
        .t(proof_level_list(&s.pending_proof_levels).as_str()).t(" ready_to_record=")
        .t(proof_level_list(&s.ready_to_record_proof_levels).as_str()).t(" blocked=")
        .t(proof_level_list(&s.blocked_proof_levels).as_str()).done();
    let runbook = Phrase::new("Runbook: steps=").n(p.total_step_count).t(" operator_actions=")
        .n(p.operator_action_step_count).t(" proof_recording=").n(p.proof_recording_step_count)
        .t(" ready_now=").n(p.ready_now_step_count).t(" blocked_proofs=")
        .n(p.blocked_proof_step_count).t(" blocking_reasons=").n(p.blocking_reason_count)
        .t(" release_ready=").b(p.release_ready).done();
    let dir = Phrase::new("Durable artifact dir: ").t(r.durable_artifact_dir.as_str()).done();
    let written = Phrase::new("Durable artifact dir write: ")
        .t(r.durable_artifact_dir_write_status.as_str()).done();
    let w = Words::new().w(levels.as_str()).w(runbook.as_str()).w(dir.as_str()).w(written.as_str());
    let w = push_suggestions(w, "Suggested", &r.suggested_artifact_paths);
    match &r.workspace_fallback_artifact_dir {
        None => w.done(),
        Some(d) => {
            let line = Phrase::new("Workspace fallback artifact dir: ").t(d.as_str()).done();
            let w = push_suggestions(
                w.w(line.as_str()),
                "Workspace fallback",
                &r.workspace_fallback_artifact_paths,
            );
            let commands = &r.workspace_fallback_commands;
            assert(commands.deep_view().len() == commands.len());
            push_commands(w, "Workspace fallback command: ", commands, commands.len()).done()
        },
    }
}

/// A step that can be done now.
pub open spec fn ready_step(
    step: ClientBindingProofRunbookStepView,
    r: ClientBindingProofSessionRunbookView,
) -> Seq<Seq<char>> {
    let a = nil().push("- "@ + step.id + ": "@ + step.title);
    let path = match fallback_path(r, step.id) {
        Some(p) => Some(p),
        None => step.suggested_artifact_path,
    };
    let b = match path {
        Some(p) => a.push("  artifact: "@ + p),
        None => a,
    };
    let command = match fallback_command(r, step.id) {
        Some(c) => Some(c),
        None => step.command,
    };
    b + command_lines("  command: "@, nonempty(command))
}

fn make_ready_step(
    step: &ClientBindingProofRunbookStep,
    r: &ClientBindingProofSessionRunbook,
) -> (out: Vec<String>)
    ensures
        out.deep_view() == ready_step(step.deep_view(), r.deep_view()),
{
    let line = Phrase::new("- ").t(step.id.as_str()).t(": ").t(step.title.as_str()).done();
    let mut w = Words::new().w(line.as_str());
    let path = match workspace_fallback_artifact_path_for_step(r, step.id.as_str()) {
        Some(p) => Some(p),
        None => copy_text(&step.suggested_artifact_path),
    };
    match path {
        Some(p) => {
            let line = cat2("  artifact: ", p.as_str());
            w = w.w(line.as_str());
        },
        None => {},
    }
    let command = match workspace_fallback_command_for_step(r, step.id.as_str()) {
        Some(c) => Some(c),
        None => step.command.dup(),
    };
    push_command(w, "  command: ", &copy_nonempty(&command)).done()
}

/// A step that something stands in the way of.
pub open spec fn blocked_step(step: ClientBindingProofRunbookStepView) -> Seq<Seq<char>> {
    let a = nil().push("- "@ + step.id + ": "@ + list_text(step.blocking_reasons));
    if step.records_proof {
        (a + command_lines(
            "  proof command after evidence is refreshed: "@,
            nonempty(step.command),
        ) + call_lines("  proof MCP after evidence is refreshed: "@, step.mcp_call))
            .push("  proof boundary: "@ + step.trust_boundary)
    } else {
        a
    }
}

fn make_blocked_step(step: &ClientBindingProofRunbookStep) -> (r: Vec<String>)
    ensures
        r.deep_view() == blocked_step(step.deep_view()),
{
    let line = Phrase::new("- ").t(step.id.as_str()).t(": ")
        .t(string_list_or_none(&step.blocking_reasons).as_str()).done();
    let w = Words::new().w(line.as_str());
    if step.records_proof {
        let w = push_command(
            w,
            "  proof command after evidence is refreshed: ",
            &copy_nonempty(&step.command),
        );
        let w = push_call(w, "  proof MCP after evidence is refreshed: ", &step.mcp_call);
        let line = Phrase::new("  proof boundary: ").t(step.trust_boundary.as_str()).done();
        w.w(line.as_str()).done()
    } else {
        w.done()
    }
}

/// The lines of the steps that can be done now, and how many of them there are. At most
/// `SHOWN_STEPS` are shown.
pub open spec fn ready_steps(
    steps: Seq<ClientBindingProofRunbookStepView>,
    r: ClientBindingProofSessionRunbookView,
) -> (nat, Seq<Seq<char>>)
    decreases steps.len(),
{
    if steps.len() == 0 {
        (0, nil())
    } else {
        let (n, front) = ready_steps(steps.drop_last(), r);
        if !steps.last().ready_now {
            (n, front)
        } else if n < SHOWN_STEPS {
            (n + 1, front + ready_step(steps.last(), r))
        } else {
            (n + 1, front)
        }
    }
}

/// The lines of the steps that something stands in the way of, and how many of them there
/// are. At most `SHOWN_STEPS` are shown.
pub open spec fn blocked_steps(steps: Seq<ClientBindingProofRunbookStepView>) -> (
    nat,
    Seq<Seq<char>>,
)
    decreases steps.len(),
{
    if steps.len() == 0 {
        (0, nil())
    } else {
        let (n, front) = blocked_steps(steps.drop_last());
        if steps.last().blocking_reasons.len() == 0 {
            (n, front)
        } else if n < SHOWN_STEPS {
            (n + 1, front + blocked_step(steps.last()))
        } else {
            (n + 1, front)
        }
    }
}

/// The steps that can be done now.
pub open spec fn ready_lines(r: ClientBindingProofSessionRunbookView) -> Seq<Seq<char>> {
    let (n, list) = ready_steps(r.steps, r);
    if n == 0 {
        nil().push("Ready now: none"@)
    } else {
        nil().push("Ready now:"@) + list
    }
}

fn make_ready(r: &ClientBindingProofSessionRunbook) -> (out: Vec<String>)
    ensures
        out.deep_view() == ready_lines(r.deep_view()),
{
    let ghost all = r.steps.deep_view();
    let mut n: usize = 0;
    let mut w = Words::new();
    let mut i: usize = 0;
    while i < r.steps.len()
        invariant
            i <= r.steps.len(),
            n <= i,
            all == r.steps.deep_view(),
            n == ready_steps(all.take(i as int), r.deep_view()).0,
            w@ == ready_steps(all.take(i as int), r.deep_view()).1,
        decreases r.steps.len() - i,
    {
        assert(all.take(i + 1).drop_last() =~= all.take(i as int));
        assert(all.take(i + 1).last() == r.steps[i as int].deep_view());
        let step = &r.steps[i];
        if step.ready_now {
            if n < SHOWN_STEPS {
                w = w.more(&make_ready_step(step, r));
            }
            n = n + 1;
        }
        i = i + 1;
    }
    assert(all.take(i as int) =~= all);
    if n == 0 {
        Words::new().w("Ready now: none").done()
    } else {
        Words::new().w("Ready now:").more(&w.done()).done()
    }
}

/// The steps that something stands in the way of.
pub open spec fn blocked_lines(r: ClientBindingProofSessionRunbookView) -> Seq<Seq<char>> {
    let (n, list) = blocked_steps(r.steps);
    if n == 0 {
        nil()
    } else {
        nil().push("Blocked steps:"@) + list
    }
}

fn make_blocked(r: &ClientBindingProofSessionRunbook) -> (out: Vec<String>)
    ensures
        out.deep_view() == blocked_lines(r.deep_view()),
{
    let ghost all = r.steps.deep_view();
    let mut n: usize = 0;
    let mut w = Words::new();
    let mut i: usize = 0;
    while i < r.steps.len()
        invariant
            i <= r.steps.len(),
            n <= i,
            all == r.steps.deep_view(),
            n == blocked_steps(all.take(i as int)).0,
            w@ == blocked_steps(all.take(i as int)).1,
        decreases r.steps.len() - i,
    {
        assert(all.take(i + 1).drop_last() =~= all.take(i as int));
        assert(all.take(i + 1).last() == r.steps[i as int].deep_view());
        let step = &r.steps[i];
        assert(step.deep_view().blocking_reasons.len() == step.blocking_reasons.len());
        if step.blocking_reasons.len() > 0 {
            if n < SHOWN_STEPS {
                w = w.more(&make_blocked_step(step));
            }
            n = n + 1;
        }
        i = i + 1;
    }
    assert(all.take(i as int) =~= all);
    if n == 0 {
        none()
    } else {
        Words::new().w("Blocked steps:").more(&w.done()).done()
    }
}

/// What may and may not be claimed.
pub open spec fn claim_lines(o: AdapterBindingProofSessionOutcomeView) -> Seq<Seq<char>> {
    nil().push("Blocking gaps: "@ + list_text(o.blocking_gaps))
        .push("Blocked claims: "@ + list_text(o.operator_card.blocked_claims))
        .push("Safe claims: "@ + list_text(o.operator_card.safe_to_claim))
        .push("Trust boundary: "@ + o.trust_boundary)
}

fn make_claims(o: &AdapterBindingProofSessionOutcome) -> (r: Vec<String>)
    ensures
        r.deep_view() == claim_lines(o.deep_view()),
{
    let gaps = Phrase::new("Blocking gaps: ").t(string_list_or_none(&o.blocking_gaps).as_str())
        .done();
    let blocked = Phrase::new("Blocked claims: ").t(
        string_list_or_none(&o.operator_card.blocked_claims).as_str()).done();
    let safe = Phrase::new("Safe claims: ").t(string_list_or_none(&o.operator_card.safe_to_claim)
        .as_str()).done();
    let trust = Phrase::new("Trust boundary: ").t(o.trust_boundary.as_str()).done();
    Words::new().w(gaps.as_str()).w(blocked.as_str()).w(safe.as_str()).w(trust.as_str()).done()
}

// ---------------------------------------------------------------------------
// The brief
// ---------------------------------------------------------------------------

/// The lines of a brief.
pub open spec fn brief_lines(o: AdapterBindingProofSessionOutcomeView) -> Seq<Seq<char>> {
    let s = o.proof_session;
    nil() + head_lines(o) + step_lines(o) + hook_lines(o.app_hook_evidence) + outside_lines(o)
        + safety_lines(o) + progress_lines(s) + ready_lines(s.runbook) + blocked_lines(s.runbook)
        + claim_lines(o)
}

/// A proof session in a few lines, each with its newline.
pub fn render_proof_session_brief(outcome: &AdapterBindingProofSessionOutcome) -> (r: String)
    ensures
        r@ == crate::text::unlines(brief_lines(outcome.deep_view())),
{
    let s = &outcome.proof_session;
    let lines = Words::new().more(&make_head(outcome)).more(&make_step(outcome)).more(
        &make_hook(&outcome.app_hook_evidence),
    ).more(&make_outside(outcome)).more(&make_safety(outcome)).more(&make_progress(s)).more(
        &make_ready(&s.runbook),
    ).more(&make_blocked(&s.runbook)).more(&make_claims(outcome)).done();
    crate::text::text_of_lines(&lines)
}

}
