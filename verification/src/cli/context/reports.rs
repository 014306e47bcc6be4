//! What the `soma context` commands tell of what the store gave.
use super::args::{
    ContextReviewActionsArgs, ContextReviewActionsArgsView, ContextReviewRenderArgs,
    ContextReviewRenderArgsView,
};
use super::error::{bad, bad_format, corrupt, ContextError, ContextFault};
use super::requests::{
    DecayRequest, DecayRequestView, LearningProposalsRequest, LearningProposalsRequestView,
    ProposalStatusChange, ProposalStatusChangeView, TaskFrameOutcomesRequest,
    TaskFrameOutcomesRequestView,
};
use super::review::{attach_review_action_report_path_hint, with_path_hint};
use super::tokens::{learning_critic_proposal_status_name, LearningCriticProposalStatus};
use crate::dup::Dup;
use crate::json::{opt_int, opt_text, text_list, Json, JsonView, Members};
use crate::number::{decimal, decimal_int};
use crate::outcome::{borrowed, copy_text, outcome};
use crate::outside::{json_pretty, print_json_pretty};
use crate::storage::StorageError;
use crate::text::{cat2, cat3, lower, lowered, same, trim, trimmed, Phrase};
use vstd::prelude::*;
use vstd::string::*;

verus! {

/// A value as it is printed, and a line break.
pub open spec fn report_text(v: JsonView) -> Seq<char> {
    json_pretty(v) + "\n"@
}

pub fn json_text(v: &Json) -> (r: String)
    ensures
        r@ == report_text(v@),
{
    cat2(print_json_pretty(v).as_str(), "\n")
}

/// What of a task frame a cloud model may see.
#[derive(Debug)]
pub struct ProjectionPolicy {
    pub name: String,
    pub allow_project_internal: bool,
    pub allow_local_private: bool,
    pub explicit_reason: Option<String>,
    pub allowed_sensitivity_labels: Vec<String>,
}

/// What a `ProjectionPolicy` holds.
#[verifier::ext_equal]
pub struct ProjectionPolicyView {
    pub name: Seq<char>,
    pub allow_project_internal: bool,
    pub allow_local_private: bool,
    pub explicit_reason: Option<Seq<char>>,
    pub allowed_sensitivity_labels: Seq<Seq<char>>,
}

impl DeepView for ProjectionPolicy {
    type V = ProjectionPolicyView;

    open spec fn deep_view(&self) -> ProjectionPolicyView {
        ProjectionPolicyView {
            name: self.name.deep_view(),
            allow_project_internal: self.allow_project_internal,
            allow_local_private: self.allow_local_private,
            explicit_reason: self.explicit_reason.deep_view(),
            allowed_sensitivity_labels: self.allowed_sensitivity_labels.deep_view(),
        }
    }
}

/// A task frame as the store gives it back. What it says of itself in JSON is told as it is.
#[derive(Debug)]
pub struct StoredTaskFrame {
    pub id: i64,
    pub hash: String,
    pub builder_version: Json,
    pub created_at_ns: i64,
    pub project: Option<String>,
    pub session_id: Option<String>,
    pub work_mode: Json,
    pub goal_state: Json,
    pub projection_policy: ProjectionPolicy,
    pub blocked_fields: Json,
    pub cloud_redacted_json: Json,
    pub local_full_json: Json,
}

/// What a `StoredTaskFrame` holds.
#[verifier::ext_equal]
pub struct StoredTaskFrameView {
    pub id: i64,
    pub hash: Seq<char>,
    pub builder_version: JsonView,
    pub created_at_ns: i64,
    pub project: Option<Seq<char>>,
    pub session_id: Option<Seq<char>>,
    pub work_mode: JsonView,
    pub goal_state: JsonView,
    pub projection_policy: ProjectionPolicyView,
    pub blocked_fields: JsonView,
    pub cloud_redacted_json: JsonView,
    pub local_full_json: JsonView,
}

impl DeepView for StoredTaskFrame {
    type V = StoredTaskFrameView;

    open spec fn deep_view(&self) -> StoredTaskFrameView {
        StoredTaskFrameView {
            id: self.id,
            hash: self.hash.deep_view(),
            builder_version: self.builder_version.deep_view(),
            created_at_ns: self.created_at_ns,
            project: self.project.deep_view(),
            session_id: self.session_id.deep_view(),
            work_mode: self.work_mode.deep_view(),
            goal_state: self.goal_state.deep_view(),
            projection_policy: self.projection_policy.deep_view(),
            blocked_fields: self.blocked_fields.deep_view(),
            cloud_redacted_json: self.cloud_redacted_json.deep_view(),
            local_full_json: self.local_full_json.deep_view(),
        }
    }
}

/// An outcome of a task frame that is stored.
#[derive(Debug)]
pub struct OutcomeRow {
    pub id: i64,
    pub value: Json,
}

/// What an `OutcomeRow` holds.
#[verifier::ext_equal]
pub struct OutcomeRowView {
    pub id: i64,
    pub value: JsonView,
}

impl DeepView for OutcomeRow {
    type V = OutcomeRowView;

    open spec fn deep_view(&self) -> OutcomeRowView {
        OutcomeRowView {
            id: self.id,
            value: self.value.deep_view(),
        }
    }
}

pub const OUTCOME_BOUNDARY: &'static str =
    "TaskFrame outcome records evaluation evidence only; it creates no claim, verification event, proposal, lifecycle transition, semantic fact, or ContextEnvelope mutation";

pub const OUTCOMES_BOUNDARY: &'static str =
    "TaskFrame outcome listing is read-only and records no verification, promotion, proposal, lifecycle, semantic, or ContextEnvelope mutation";

pub const DECAY_EVIDENCE: &'static str =
    "original episode/proxy evidence remains stored; ContextEnvelope relevant_memory excludes decayed L3 proxies";

pub const PROMOTION_BOUNDARY: &'static str =
    "L2 proxy promotion is policy-selected, evidence-backed, dry-run by default, and still blocks cloud_draft or unsafe privacy labels before L3 lifecycle transition";

/// What is told of a task frame that was built.
pub open spec fn frame_value(f: StoredTaskFrameView) -> JsonView {
    JsonView::Object(Seq::empty().push(("task_frame_id"@, JsonView::Int(f.id as int)))
        .push(("hash"@, JsonView::Text(f.hash))).push(("builder_version"@, f.builder_version))
        .push(("created_at_ns"@, JsonView::Int(f.created_at_ns as int)))
        .push(("project"@, opt_text(f.project))).push(("session_id"@, opt_text(f.session_id)))
        .push(("work_mode"@, f.work_mode)).push(("goal_state"@, f.goal_state))
        .push(("projection_policy"@, JsonView::Object(
        Seq::empty().push(("name"@, JsonView::Text(f.projection_policy.name)))
        .push(("allow_project_internal"@, JsonView::Bool(
        f.projection_policy.allow_project_internal)))
        .push(("allow_local_private"@, JsonView::Bool(f.projection_policy.allow_local_private)))
        .push(("explicit_reason"@, opt_text(f.projection_policy.explicit_reason)))
        .push(("allowed_sensitivity_labels"@, text_list(
        f.projection_policy.allowed_sensitivity_labels))))))
        .push(("blocked_fields"@, f.blocked_fields))
        .push(("cloud_redacted_json"@, f.cloud_redacted_json))
        .push(("local_full_json"@, f.local_full_json)))
}

fn frame_text(f: &StoredTaskFrame) -> (r: String)
    ensures
        r@ == report_text(frame_value(f.deep_view())),
{
    json_text(&Members::new().integer("task_frame_id", f.id as i128).text("hash", f.hash.as_str())
        .put("builder_version", f.builder_version.dup())
        .integer("created_at_ns", f.created_at_ns as i128).opt_text("project", borrowed(&f.project))
        .opt_text("session_id", borrowed(&f.session_id)).put("work_mode", f.work_mode.dup())
        .put("goal_state", f.goal_state.dup()).object(
        "projection_policy", Members::new().text("name", f.projection_policy.name.as_str())
        .flag("allow_project_internal", f.projection_policy.allow_project_internal)
        .flag("allow_local_private", f.projection_policy.allow_local_private)
        .opt_text("explicit_reason", borrowed(&f.projection_policy.explicit_reason))
        .texts("allowed_sensitivity_labels", &f.projection_policy.allowed_sensitivity_labels))
        .put("blocked_fields", f.blocked_fields.dup())
        .put("cloud_redacted_json", f.cloud_redacted_json.dup())
        .put("local_full_json", f.local_full_json.dup()).done())
}

/// What is told of a task frame that was stored under a number and read again.
pub open spec fn built_frame(id: i64, stored: Option<StoredTaskFrameView>) -> Result<
    Seq<char>,
    ContextFault,
> {
    match stored {
        Some(f) => Ok(report_text(frame_value(f))),
        None => Err(
            ContextFault::Storage(
                "inserted TaskFrame "@ + decimal_int(id as int) + " was not readable"@,
            ),
        ),
    }
}

pub fn task_frame_text(id: i64, stored: Option<&StoredTaskFrame>) -> (r: Result<
    String,
    ContextError,
>)
    ensures
        outcome(r) == built_frame(id, stored.deep_view()),
{
    match stored {
        Some(f) => Ok(frame_text(f)),
        None => corrupt(
            Phrase::new("inserted TaskFrame ").i(id).t(" was not readable").done().as_str(),
        ),
    }
}

/// A task frame that the store does not have.
pub open spec fn no_frame(id: i64) -> ContextFault {
    ContextFault::Storage("TaskFrame "@ + decimal_int(id as int) + " not found"@)
}

pub fn missing_frame(id: i64) -> (r: ContextError)
    ensures
        r.deep_view() == no_frame(id),
{
    ContextError::Storage(
        StorageError { message: Phrase::new("TaskFrame ").i(id).t(" not found").done() },
    )
}

/// What is told of a retention.
pub open spec fn retention_value(
    now_ns: i64,
    retention_days: i64,
    cutoff_ns: i64,
    default_days: i64,
    report: JsonView,
) -> JsonView {
    JsonView::Object(Seq::empty().push(("now_ns"@, JsonView::Int(now_ns as int)))
        .push(("policy"@, JsonView::Object(Seq::empty()
        .push(("retention_days"@, JsonView::Int(retention_days as int)))
        .push(("cutoff_ns"@, JsonView::Int(cutoff_ns as int)))
        .push(("default_retention_days"@, JsonView::Int(default_days as int)))
        .push(("protects_claim_or_proposal_references"@, JsonView::Bool(true))))))
        .push(("report"@, report)))
}

pub fn retention_text(
    now_ns: i64,
    retention_days: i64,
    cutoff_ns: i64,
    default_days: i64,
    report: Json,
) -> (r: String)
    ensures
        r@ == report_text(retention_value(now_ns, retention_days, cutoff_ns, default_days,
            report@)),
{
    json_text(&Members::new().integer("now_ns", now_ns as i128)
        .object("policy", Members::new().integer("retention_days", retention_days as i128)
        .integer("cutoff_ns", cutoff_ns as i128).integer(
        "default_retention_days", default_days as i128)
        .flag("protects_claim_or_proposal_references", true)).put("report", report).done())
}

/// The first outcome with a number.
pub open spec fn outcome_at(rows: Seq<OutcomeRowView>, id: i64) -> Option<JsonView>
    decreases rows.len(),
{
    if rows.len() == 0 {
        None
    } else if rows[0].id == id {
        Some(rows[0].value)
    } else {
        outcome_at(rows.skip(1), id)
    }
}

pub open spec fn outcome_value(value: JsonView) -> JsonView {
    JsonView::Object(
        Seq::empty().push(("kind"@, JsonView::Text("task_frame_outcome"@))).push(
            ("trust_boundary"@, JsonView::Text(OUTCOME_BOUNDARY@)),
        ).push(("outcome"@, value)),
    )
}

/// What is told of an outcome that was stored under a number, where it is among those that
/// were read again.
pub open spec fn recorded_outcome(id: i64, rows: Seq<OutcomeRowView>) -> Result<
    Seq<char>,
    ContextFault,
> {
    match outcome_at(rows, id) {
        Some(v) => Ok(report_text(outcome_value(v))),
        None => Err(
            ContextFault::Storage(
                "inserted TaskFrame outcome "@ + decimal_int(id as int) + " was not readable"@,
            ),
        ),
    }
}

pub fn task_frame_outcome_text(id: i64, rows: &Vec<OutcomeRow>) -> (r: Result<
    String,
    ContextError,
>)
    ensures
        outcome(r) == recorded_outcome(id, rows.deep_view()),
{
    let ghost all = rows.deep_view();
    let mut i: usize = 0;
    assert(all.skip(0) =~= all);
    while i < rows.len()
        invariant
            i <= rows.len(),
            all == rows.deep_view(),
            outcome_at(all, id) == outcome_at(all.skip(i as int), id),
        decreases rows.len() - i,
    {
        assert(all.skip(i as int)[0] == rows[i as int].deep_view());
        assert(all.skip(i as int).skip(1) =~= all.skip(i + 1));
        if rows[i].id == id {
            let value = Members::new().text("kind", "task_frame_outcome").text(
                "trust_boundary",
                OUTCOME_BOUNDARY,
            ).put("outcome", rows[i].value.dup()).done();
            return Ok(json_text(&value));
        }
        i = i + 1;
    }
    assert(all.len() == rows.len());
    corrupt(
        Phrase::new("inserted TaskFrame outcome ").i(id).t(" was not readable").done().as_str(),
    )
}

/// What is told of a correction.
pub open spec fn correction_line(episode_id: i64, corrected: nat, resolved: nat) -> Seq<char> {
    "soma: recorded correction episode #"@ + decimal_int(episode_id as int)
        + " (corrected claim_records: "@ + decimal(corrected) + ", resolved contradictions: "@
        + decimal(resolved) + ")\n"@
}

pub fn correct_text(episode_id: i64, corrected: usize, resolved: usize) -> (r: String)
    ensures
        r@ == correction_line(episode_id, corrected as nat, resolved as nat),
{
    Phrase::new("soma: recorded correction episode #").i(episode_id).t(
        " (corrected claim_records: ",
    ).n(corrected).t(", resolved contradictions: ").n(resolved).t(")\n").done()
}

pub open spec fn status_told(s: Option<LearningCriticProposalStatus>) -> Option<Seq<char>> {
    match s {
        Some(s) => Some(learning_critic_proposal_status_name(s)),
        None => None,
    }
}

fn status_name(s: Option<LearningCriticProposalStatus>) -> (r: Option<&'static str>)
    ensures
        r.deep_view() == status_told(s),
{
    match s {
        Some(s) => Some(s.as_str()),
        None => None,
    }
}

/// What is told of the outcomes of task frames.
pub open spec fn outcomes_value(
    request: TaskFrameOutcomesRequestView,
    outcomes: Seq<JsonView>,
) -> JsonView {
    JsonView::Object(Seq::empty().push(("kind"@, JsonView::Text("task_frame_outcomes"@)))
        .push(("mode"@, JsonView::Text("read_only"@)))
        .push(("trust_boundary"@, JsonView::Text(OUTCOMES_BOUNDARY@)))
        .push(("project"@, opt_text(request.project)))
        .push(("session_id"@, opt_text(request.session_id)))
        .push(("task_frame_id"@, opt_int(request.task_frame_id)))
        .push(("limit"@, JsonView::Int(request.limit as int)))
        .push(("outcome_count"@, JsonView::Int(outcomes.len() as int)))
        .push(("outcomes"@, JsonView::List(outcomes))))
}

pub fn outcomes_text(request: &TaskFrameOutcomesRequest, outcomes: Vec<Json>) -> (r: String)
    ensures
        r@ == report_text(outcomes_value(request.deep_view(), outcomes.deep_view())),
{
    assert(outcomes.deep_view().len() == outcomes.len());
    let count: usize = outcomes.len();
    json_text(&Members::new().text("kind", "task_frame_outcomes").text("mode", "read_only")
        .text("trust_boundary", OUTCOMES_BOUNDARY).opt_text("project", borrowed(&request.project))
        .opt_text("session_id", borrowed(&request.session_id))
        .opt_integer("task_frame_id", request.task_frame_id).integer("limit", request.limit as i128)
        .integer("outcome_count", count as i128).put("outcomes", Json::list(outcomes)).done())
}

/// What is told of a decay of long-term memories.
pub open spec fn decay_value(
    older_than_days: i64,
    request: DecayRequestView,
    report: JsonView,
) -> JsonView {
    JsonView::Object(Seq::empty().push(("kind"@, JsonView::Text("l3_proxy_decay"@)))
        .push(("policy"@, JsonView::Object(Seq::empty()
        .push(("older_than_days"@, JsonView::Int(older_than_days as int)))
        .push(("max_access_count"@, JsonView::Int(request.max_access_count as int)))
        .push(("reason"@, JsonView::Text(request.reason)))
        .push(("dry_run"@, JsonView::Bool(request.dry_run)))
        .push(("limit"@, JsonView::Int(request.limit as int)))
        .push(("cutoff_ns"@, JsonView::Int(request.cutoff_ns as int)))
        .push(("cutoff_source"@, JsonView::Text(request.cutoff_source)))
        .push(("storage_transition"@, JsonView::Text("long_term_memory -> decayed"@)))
        .push(("evidence_behavior"@, JsonView::Text(DECAY_EVIDENCE@)))))).push(("report"@, report)))
}

pub fn l3_decay_text(older_than_days: i64, request: &DecayRequest, report: Json) -> (r: String)
    ensures
        r@ == report_text(decay_value(older_than_days, request.deep_view(), report@)),
{
    json_text(&Members::new().text("kind", "l3_proxy_decay")
        .object("policy", Members::new().integer("older_than_days", older_than_days as i128)
        .integer("max_access_count", request.max_access_count as i128)
        .text("reason", request.reason.as_str()).flag("dry_run", request.dry_run)
        .integer("limit", request.limit as i128).integer("cutoff_ns", request.cutoff_ns as i128)
        .text("cutoff_source", request.cutoff_source.as_str())
        .text("storage_transition", "long_term_memory -> decayed")
        .text("evidence_behavior", DECAY_EVIDENCE)).put("report", report).done())
}

/// What is told of a promotion of short-term memories.
pub open spec fn promotion_value(apply: bool, report: JsonView) -> JsonView {
    JsonView::Object(Seq::empty().push(("kind"@, JsonView::Text("l2_proxy_promotion"@)))
        .push(("trust_boundary"@, JsonView::Text(PROMOTION_BOUNDARY@)))
        .push(("apply"@, JsonView::Bool(apply))).push(("report"@, report)))
}

pub fn l2_promote_text(apply: bool, report: Json) -> (r: String)
    ensures
        r@ == report_text(promotion_value(apply, report@)),
{
    json_text(&Members::new().text("kind", "l2_proxy_promotion")
        .text("trust_boundary", PROMOTION_BOUNDARY).flag("apply", apply).put("report", report)
        .done())
}

/// What is told of the proposals of the learning critic.
pub open spec fn proposals_value(
    request: LearningProposalsRequestView,
    proposals: Seq<JsonView>,
) -> JsonView {
    JsonView::Object(Seq::empty().push(("project"@, opt_text(request.project)))
        .push(("session_id"@, opt_text(request.session_id)))
        .push(("status"@, opt_text(status_told(request.status))))
        .push(("limit"@, JsonView::Int(request.limit as int)))
        .push(("count"@, JsonView::Int(proposals.len() as int)))
        .push(("proposals"@, JsonView::List(proposals))))
}

pub fn learning_proposals_text(
    request: &LearningProposalsRequest,
    proposals: Vec<Json>,
) -> (r: String)
    ensures
        r@ == report_text(proposals_value(request.deep_view(), proposals.deep_view())),
{
    assert(proposals.deep_view().len() == proposals.len());
    let count: usize = proposals.len();
    json_text(&Members::new().opt_text("project", borrowed(&request.project))
        .opt_text("session_id", borrowed(&request.session_id))
        .opt_text("status", status_name(request.status)).integer("limit", request.limit as i128)
        .integer("count", count as i128).put("proposals", Json::list(proposals)).done())
}

/// A proposal that the store does not have any more.
pub open spec fn lost_proposal(id: i64) -> ContextFault {
    ContextFault::Storage(
        "learning critic proposal "@ + decimal_int(id as int) + " disappeared"@,
    )
}

fn lose_proposal<T>(id: i64) -> (r: Result<T, ContextError>)
    ensures
        r matches Err(e) && e.deep_view() == lost_proposal(id),
{
    corrupt(
        Phrase::new("learning critic proposal ").i(id).t(" disappeared").done().as_str(),
    )
}

/// What is told of a proposal that was applied, with what came of it.
pub open spec fn applied_proposal(id: i64, came: JsonView, proposal: Option<JsonView>) -> Result<
    Seq<char>,
    ContextFault,
> {
    match proposal {
        None => Err(lost_proposal(id)),
        Some(p) => Ok(
            report_text(
                JsonView::Object(
                    Seq::empty().push(("proposal_id"@, JsonView::Int(id as int))).push(
                        ("outcome"@, came),
                    ).push(("proposal"@, p)),
                ),
            ),
        ),
    }
}

pub fn learning_apply_text(id: i64, came: Json, proposal: Option<Json>) -> (r: Result<
    String,
    ContextError,
>)
    ensures
        outcome(r) == applied_proposal(id, came@, proposal.deep_view()),
{
    match proposal {
        None => lose_proposal(id),
        Some(p) => Ok(
            json_text(
                &Members::new().integer("proposal_id", id as i128).put("outcome", came).put(
                    "proposal",
                    p,
                ).done(),
            ),
        ),
    }
}

/// What is told of a proposal whose state was set.
pub open spec fn changed_proposal(
    change: ProposalStatusChangeView,
    proposal: Option<JsonView>,
) -> Result<Seq<char>, ContextFault> {
    match proposal {
        None => Err(lost_proposal(change.proposal_id)),
        Some(p) => Ok(
            report_text(
                JsonView::Object(
                    Seq::empty().push(
                        ("proposal_id"@, JsonView::Int(change.proposal_id as int)),
                    ).push(
                        (
                            "status"@,
                            JsonView::Text(learning_critic_proposal_status_name(change.status)),
                        ),
                    ).push(("proposal"@, p)),
                ),
            ),
        ),
    }
}

pub fn set_status_text(change: &ProposalStatusChange, proposal: Option<Json>) -> (r: Result<
    String,
    ContextError,
>)
    ensures
        outcome(r) == changed_proposal(change.deep_view(), proposal.deep_view()),
{
    match proposal {
        None => lose_proposal(change.proposal_id),
        Some(p) => Ok(
            json_text(
                &Members::new().integer("proposal_id", change.proposal_id as i128).text(
                    "status",
                    change.status.as_str(),
                ).put("proposal", p).done(),
            ),
        ),
    }
}

/// The form that was asked for. The flag for JSON counts before the name of a form.
pub open spec fn form_asked(json: bool, format: Seq<char>) -> Seq<char> {
    if json {
        "json"@
    } else {
        lowered(trimmed(format))
    }
}

fn asked_form(json: bool, format: &str) -> (r: String)
    ensures
        r@ == form_asked(json, format@),
{
    if json {
        "json".to_string()
    } else {
        lower(trim(format))
    }
}

/// A report that is told as JSON or as Markdown. `name` is the command.
pub open spec fn json_or_markdown(
    name: Seq<char>,
    form: Seq<char>,
    value: JsonView,
    markdown: Seq<char>,
) -> Result<Seq<char>, ContextFault> {
    if form == "json"@ {
        Ok(report_text(value))
    } else if form == "markdown"@ || form == "md"@ {
        Ok(markdown + "\n"@)
    } else {
        bad("unknown "@ + name + " format `"@ + form + "`; expected json or markdown"@)
    }
}

/// A report of the command `name` in the form that was asked for.
pub fn review_text(
    name: &str,
    json: bool,
    format: &str,
    value: &Json,
    markdown: &str,
) -> (r: Result<
    String,
    ContextError,
>)
    ensures
        outcome(r) == json_or_markdown(name@, form_asked(json, format@), value@, markdown@),
{
    let form = asked_form(json, format);
    if same(form.as_str(), "json") {
        Ok(json_text(value))
    } else if same(form.as_str(), "markdown") || same(form.as_str(), "md") {
        Ok(cat2(markdown, "\n"))
    } else {
        bad_format(
            Phrase::new("unknown ").t(name).t(" format `").t(form.as_str()).t(
                "`; expected json or markdown",
            ).done().as_str(),
        )
    }
}

pub open spec fn actions_form(args: ContextReviewActionsArgsView) -> Seq<char> {
    if !args.json && args.brief {
        "brief"@
    } else {
        form_asked(args.json, args.format)
    }
}

/// The actions that can be taken in a review, in the form that was asked for. As JSON they
/// carry where the report of an action goes.
pub open spec fn actions_told(
    args: ContextReviewActionsArgsView,
    plan: JsonView,
    brief: Seq<char>,
    markdown: Seq<char>,
    path: Option<Seq<char>>,
) -> Result<Seq<char>, ContextFault> {
    let form = actions_form(args);
    if form == "json"@ {
        Ok(report_text(with_path_hint(plan, path)))
    } else if form == "brief"@ {
        Ok(brief + "\n"@)
    } else if form == "markdown"@ || form == "md"@ {
        Ok(markdown + "\n"@)
    } else {
        bad(
            "unknown review-actions format `"@ + form
                + "`; expected json, brief, or markdown"@,
        )
    }
}

pub fn review_actions_text(
    args: &ContextReviewActionsArgs,
    plan: Json,
    brief: &str,
    markdown: &str,
    path: Option<&str>,
) -> (r: Result<String, ContextError>)
    ensures
        outcome(r) == actions_told(args.deep_view(), plan@, brief@, markdown@, path.deep_view()),
{
    let form = if !args.json && args.brief {
        "brief".to_string()
    } else {
        asked_form(args.json, args.format.as_str())
    };
    if same(form.as_str(), "json") {
        Ok(json_text(&attach_review_action_report_path_hint(plan, path)))
    } else if same(form.as_str(), "brief") {
        Ok(cat2(brief, "\n"))
    } else if same(form.as_str(), "markdown") || same(form.as_str(), "md") {
        Ok(cat2(markdown, "\n"))
    } else {
        bad_format(
            cat3(
                "unknown review-actions format `",
                form.as_str(),
                "`; expected json, brief, or markdown",
            ).as_str(),
        )
    }
}

/// The review queue as a client shows it, and the file that it is written to.
#[derive(Debug)]
pub struct RenderedReview {
    pub output: String,
    pub write_report: Option<String>,
}

/// What a `RenderedReview` holds.
#[verifier::ext_equal]
pub struct RenderedReviewView {
    pub output: Seq<char>,
    pub write_report: Option<Seq<char>>,
}

impl DeepView for RenderedReview {
    type V = RenderedReviewView;

    open spec fn deep_view(&self) -> RenderedReviewView {
        RenderedReviewView {
            output: self.output@,
            write_report: self.write_report.deep_view(),
        }
    }
}

/// The text of the review queue as a client shows it.
pub open spec fn rendered_text(
    form: Seq<char>,
    plan: JsonView,
    markdown: Seq<char>,
    html: Seq<char>,
) -> Result<Seq<char>, ContextFault> {
    if form == "json"@ {
        Ok(report_text(plan))
    } else if form == "markdown"@ || form == "md"@ {
        Ok(markdown + "\n"@)
    } else if form == "html"@ {
        Ok(html + "\n"@)
    } else {
        bad(
            "unknown review-render format `"@ + form + "`; expected json, markdown, or html"@,
        )
    }
}

/// Only JSON is written to a file.
pub open spec fn rendered_review(
    args: ContextReviewRenderArgsView,
    plan: JsonView,
    markdown: Seq<char>,
    html: Seq<char>,
) -> Result<RenderedReviewView, ContextFault> {
    let form = form_asked(args.json, args.format);
    match rendered_text(form, plan, markdown, html) {
        Err(f) => Err(f),
        Ok(output) => if args.write_report is Some && form != "json"@ {
            bad("--write-report requires JSON review-render output"@)
        } else {
            Ok(RenderedReviewView { output, write_report: args.write_report })
        },
    }
}

pub fn review_render_text(
    args: &ContextReviewRenderArgs,
    plan: &Json,
    markdown: &str,
    html: &str,
) -> (r: Result<RenderedReview, ContextError>)
    ensures
        outcome(r) == rendered_review(args.deep_view(), plan@, markdown@, html@),
{
    let form = asked_form(args.json, args.format.as_str());
    let output = if same(form.as_str(), "json") {
        json_text(plan)
    } else if same(form.as_str(), "markdown") || same(form.as_str(), "md") {
        cat2(markdown, "\n")
    } else if same(form.as_str(), "html") {
        cat2(html, "\n")
    } else {
        return bad_format(
            cat3(
                "unknown review-render format `",
                form.as_str(),
                "`; expected json, markdown, or html",
            ).as_str(),
        );
    };
    if args.write_report.is_some() && !same(form.as_str(), "json") {
        return bad_format("--write-report requires JSON review-render output");
    }
    Ok(RenderedReview { output, write_report: copy_text(&args.write_report) })
}

/// What went wrong on writing a report.
#[derive(Debug, Clone, Copy, PartialEq, Eq, Structural)]
pub enum WriteStep {
    Directory,
    Create,
    Write,
}

/// A report could not be written. `path` is the file, or the directory where that could not
/// be made.
pub fn unwritten_artifact(step: WriteStep, path: &str, error: &str) -> (r: ContextError)
    ensures
        r.deep_view() == ContextFault::Path(
            match step {
                WriteStep::Directory => "failed to create parent directory `"@,
                WriteStep::Create => "failed to create report `"@,
                WriteStep::Write => "failed to write report `"@,
            } + path@ + "`: "@ + error@,
        ),
{
    let start = match step {
        WriteStep::Directory => "failed to create parent directory `",
        WriteStep::Create => "failed to create report `",
        WriteStep::Write => "failed to write report `",
    };
    ContextError::Path(Phrase::new(start).t(path).t("`: ").t(error).done())
}

/// What is told of an audit of an envelope, and of its task frame where it has one. Both must
/// pass.
pub open spec fn audit_value(
    scope: JsonView,
    assembled_at_ns: i64,
    task_frame_id: Option<i64>,
    envelope: JsonView,
    envelope_passed: bool,
    task_frame: JsonView,
    frame_passed: Option<bool>,
) -> JsonView {
    JsonView::Object(Seq::empty().push(("scope"@, scope))
        .push(("assembled_at_ns"@, JsonView::Int(assembled_at_ns as int)))
        .push(("task_frame_id"@, opt_int(task_frame_id)))
        .push(("passed"@, JsonView::Bool(envelope_passed && frame_passed != Some(false))))
        .push(("envelope"@, envelope)).push(("task_frame"@, task_frame)))
}

pub fn audit_text(
    scope: Json,
    assembled_at_ns: i64,
    task_frame_id: Option<i64>,
    envelope: Json,
    envelope_passed: bool,
    task_frame: Json,
    frame_passed: Option<bool>,
) -> (r: String)
    ensures
        r@ == report_text(audit_value(scope@, assembled_at_ns, task_frame_id, envelope@,
            envelope_passed, task_frame@, frame_passed)),
{
    let passed = match frame_passed {
        Some(p) => p,
        None => true,
    };
    json_text(&Members::new().put("scope", scope).integer(
        "assembled_at_ns", assembled_at_ns as i128).opt_integer("task_frame_id", task_frame_id)
        .flag("passed", envelope_passed && passed).put("envelope", envelope)
        .put("task_frame", task_frame).done())
}

/// What is told of why an envelope holds what it holds.
pub open spec fn why_value(
    scope: JsonView,
    assembled_at_ns: i64,
    task_frame_id: Option<i64>,
    projection: JsonView,
    section: Option<Seq<char>>,
    contains: Option<Seq<char>>,
    matches: Seq<JsonView>,
) -> JsonView {
    JsonView::Object(Seq::empty().push(("scope"@, scope))
        .push(("assembled_at_ns"@, JsonView::Int(assembled_at_ns as int)))
        .push(("task_frame_id"@, opt_int(task_frame_id)))
        .push(("task_frame_projection"@, projection)).push(("section"@, opt_text(section)))
        .push(("contains"@, opt_text(contains))).push(
        ("match_count"@, JsonView::Int(matches.len() as int)))
        .push(("matches"@, JsonView::List(matches))))
}

pub fn why_text(
    scope: Json,
    assembled_at_ns: i64,
    task_frame_id: Option<i64>,
    projection: Json,
    section: Option<&str>,
    contains: Option<&str>,
    matches: Vec<Json>,
) -> (r: String)
    ensures
        r@ == report_text(why_value(scope@, assembled_at_ns, task_frame_id, projection@,
            section.deep_view(), contains.deep_view(), matches.deep_view())),
{
    assert(matches.deep_view().len() == matches.len());
    let count: usize = matches.len();
    json_text(&Members::new().put("scope", scope).integer(
        "assembled_at_ns", assembled_at_ns as i128).opt_integer("task_frame_id", task_frame_id)
        .put("task_frame_projection", projection).opt_text("section", section)
        .opt_text("contains", contains).integer("match_count", count as i128)
        .put("matches", Json::list(matches)).done())
}

/// The form of a report is the one that was asked for, in any case and with white space
/// round it; the flag for JSON goes before it. A form that is not known is refused.
pub proof fn law_reports_come_in_the_form_asked_for(
    name: Seq<char>,
    json: bool,
    format: Seq<char>,
    value: JsonView,
    markdown: Seq<char>,
)
    ensures
        ({
            let form = form_asked(json, format);
            let r = json_or_markdown(name, form, value, markdown);
            let word = lowered(trimmed(format));
            &&& json || word == "json"@ ==> r == Ok::<Seq<char>, ContextFault>(
                json_pretty(value) + "\n"@,
            )
            &&& !json && (word == "markdown"@ || word == "md"@) ==> r == Ok::<
                Seq<char>,
                ContextFault,
            >(markdown + "\n"@)
            &&& r is Err <==> !json && word != "json"@ && word != "markdown"@ && word != "md"@
        }),
{
    reveal_strlit("json");
    reveal_strlit("markdown");
    reveal_strlit("md");
    assert("json"@.len() == 4);
    assert("markdown"@.len() == 8);
    assert("md"@.len() == 2);
}

/// A plan of actions comes as JSON with the hint of its path, as a brief where that was asked
/// for without JSON, or as text; in no other form.
pub proof fn law_action_plans_come_in_the_form_asked_for(
    args: ContextReviewActionsArgsView,
    plan: JsonView,
    brief: Seq<char>,
    markdown: Seq<char>,
    path: Option<Seq<char>>,
)
    ensures
        ({
            let r = actions_told(args, plan, brief, markdown, path);
            let word = lowered(trimmed(args.format));
            &&& args.json ==> r == Ok::<Seq<char>, ContextFault>(
                report_text(with_path_hint(plan, path)),
            )
            &&& !args.json && (args.brief || word == "brief"@) ==> r == Ok::<
                Seq<char>,
                ContextFault,
            >(brief + "\n"@)
            &&& !args.json && !args.brief && word == "json"@ ==> r == Ok::<
                Seq<char>,
                ContextFault,
            >(report_text(with_path_hint(plan, path)))
            &&& !args.json && !args.brief && (word == "markdown"@ || word == "md"@) ==> r == Ok::<
                Seq<char>,
                ContextFault,
            >(markdown + "\n"@)
            &&& r is Err <==> !args.json && !args.brief && word != "json"@ && word != "brief"@
                && word != "markdown"@ && word != "md"@
        }),
{
    reveal_strlit("json");
    reveal_strlit("brief");
    reveal_strlit("markdown");
    reveal_strlit("md");
    assert("json"@.len() == 4);
    assert("brief"@.len() == 5);
    assert("markdown"@.len() == 8);
    assert("md"@.len() == 2);
}

/// A shown review comes as JSON, text or page, as was asked for. It is written to a file only
/// as JSON, and to the file that was asked for.
pub proof fn law_shown_reviews_are_written_as_json_only(
    args: ContextReviewRenderArgsView,
    plan: JsonView,
    markdown: Seq<char>,
    html: Seq<char>,
)
    ensures
        ({
            let r = rendered_review(args, plan, markdown, html);
            let word = lowered(trimmed(args.format));
            let as_json = args.json || word == "json"@;
            let as_text = !as_json && (word == "markdown"@ || word == "md"@);
            let as_page = !as_json && word == "html"@;
            &&& r is Ok <==> as_json || ((as_text || as_page) && args.write_report is None)
            &&& r is Ok ==> r->Ok_0.write_report == args.write_report
            &&& r is Ok && as_json ==> r->Ok_0.output == json_pretty(plan) + "\n"@
            &&& r is Ok && as_text ==> r->Ok_0.output == markdown + "\n"@
            &&& r is Ok && as_page ==> r->Ok_0.output == html + "\n"@
        }),
{
    reveal_strlit("json");
    reveal_strlit("html");
    reveal_strlit("markdown");
    reveal_strlit("md");
    assert("json"@[0] == 'j');
    assert("html"@[0] == 'h');
    assert("json"@.len() == 4);
    assert("html"@.len() == 4);
    assert("markdown"@.len() == 8);
    assert("md"@.len() == 2);
}

/// A look over a context passes iff its envelope does and its frame, where it was looked at,
/// does not fail; it tells both as they are.
pub proof fn law_audits_pass_iff_both_parts_do(
    scope: JsonView,
    assembled_at_ns: i64,
    task_frame_id: Option<i64>,
    envelope: JsonView,
    envelope_passed: bool,
    task_frame: JsonView,
    frame_passed: Option<bool>,
)
    ensures
        ({
            let m = audit_value(
                scope,
                assembled_at_ns,
                task_frame_id,
                envelope,
                envelope_passed,
                task_frame,
                frame_passed,
            )->Object_0;
            &&& m.len() == 6
            &&& m[0] == ("scope"@, scope)
            &&& m[1] == ("assembled_at_ns"@, JsonView::Int(assembled_at_ns as int))
            &&& m[3] == (
                "passed"@,
                JsonView::Bool(envelope_passed && (frame_passed is None || frame_passed->0)),
            )
            &&& m[4] == ("envelope"@, envelope)
            &&& m[5] == ("task_frame"@, task_frame)
        }),
{
}

/// An outcome is told iff it stands among the rows that were read back, and then it is the
/// first row with its number.
pub proof fn law_told_outcome_is_the_stored_one(id: i64, rows: Seq<OutcomeRowView>, i: int)
    requires
        0 <= i < rows.len(),
        rows[i].id == id,
        forall|j: int| 0 <= j < i ==> (#[trigger] rows[j]).id != id,
    ensures
        outcome_at(rows, id) == Some(rows[i].value),
        recorded_outcome(id, rows) == Ok::<Seq<char>, ContextFault>(
            json_pretty(outcome_value(rows[i].value)) + "\n"@,
        ),
    decreases rows.len(),
{
    if i > 0 {
        assert(rows[0].id != id);
        let rest = rows.skip(1);
        assert forall|j: int| 0 <= j < i - 1 implies (#[trigger] rest[j]).id != id by {
            assert(rest[j] == rows[j + 1]);
        }
        law_told_outcome_is_the_stored_one(id, rest, i - 1);
    }
}

/// What is listed is counted, told in full and under what it was asked for.
pub proof fn law_lists_are_counted_and_told_in_full(
    asked: TaskFrameOutcomesRequestView,
    outcomes: Seq<JsonView>,
    request: LearningProposalsRequestView,
    proposals: Seq<JsonView>,
)
    ensures
        ({
            let m = outcomes_value(asked, outcomes)->Object_0;
            let p = proposals_value(request, proposals)->Object_0;
            &&& m[3] == ("project"@, opt_text(asked.project))
            &&& m[4] == ("session_id"@, opt_text(asked.session_id))
            &&& m[5] == ("task_frame_id"@, opt_int(asked.task_frame_id))
            &&& m[6] == ("limit"@, JsonView::Int(asked.limit as int))
            &&& m[7] == ("outcome_count"@, JsonView::Int(outcomes.len() as int))
            &&& m[8] == ("outcomes"@, JsonView::List(outcomes)) && m.len() == 9
            &&& p[0] == ("project"@, opt_text(request.project))
            &&& p[1] == ("session_id"@, opt_text(request.session_id))
            &&& p[3] == ("limit"@, JsonView::Int(request.limit as int))
            &&& p[4] == ("count"@, JsonView::Int(proposals.len() as int))
            &&& p[5] == ("proposals"@, JsonView::List(proposals)) && p.len() == 6
        }),
{
}

/// What is told of old frames and of fading memory names the limits in force.
pub proof fn law_policies_name_the_limits_in_force(
    now_ns: i64,
    days: i64,
    cutoff_ns: i64,
    default_days: i64,
    report: JsonView,
    request: DecayRequestView,
)
    ensures
        ({
            let m = retention_value(now_ns, days, cutoff_ns, default_days, report)->Object_0;
            let p = m[1].1->Object_0;
            &&& m[0] == ("now_ns"@, JsonView::Int(now_ns as int)) && m[2] == ("report"@, report)
            &&& m[1].0 == "policy"@
            &&& p[0] == ("retention_days"@, JsonView::Int(days as int))
            &&& p[1] == ("cutoff_ns"@, JsonView::Int(cutoff_ns as int))
            &&& p[2] == ("default_retention_days"@, JsonView::Int(default_days as int))
        }),
        ({
            let m = decay_value(days, request, report)->Object_0;
            let p = m[1].1->Object_0;
            &&& m[1].0 == "policy"@ && m[2] == ("report"@, report)
            &&& p[0] == ("older_than_days"@, JsonView::Int(days as int))
            &&& p[1] == ("max_access_count"@, JsonView::Int(request.max_access_count as int))
            &&& p[2] == ("reason"@, JsonView::Text(request.reason))
            &&& p[3] == ("dry_run"@, JsonView::Bool(request.dry_run))
            &&& p[4] == ("limit"@, JsonView::Int(request.limit as int))
            &&& p[5] == ("cutoff_ns"@, JsonView::Int(request.cutoff_ns as int))
        }),
{
}

}
