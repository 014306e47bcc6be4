//! `soma context semantic-proposals --brief`: claims that say the same, in short.
//!
//! Each candidate is told with what it rests on, what it fails, and which commands would
//! verify it. None of the lines does anything: they say what an operator can do.
use super::requests::{StoredEvidenceRef, StoredEvidenceRefView};
use crate::number::{decimal, decimal_int, decimal_text, int_text};
use crate::text::{
    cat2, cat5, chars, flag_text, join, joined, nil, none, same, slice_of, text_of_lines, unlines,
    with, Phrase, Words,
};
use vstd::prelude::*;
use vstd::string::*;

verus! {

/// How far the support of a claim is spread.
#[derive(Debug)]
pub struct SupportDiversity {
    pub bias_risk: String,
    pub support_projects: Vec<String>,
    pub distinct_task_frame_count: usize,
    pub distinct_source_type_count: usize,
    pub distinct_verifier_type_count: usize,
    pub distinct_evidence_source_count: usize,
}

/// What a `SupportDiversity` holds.
#[verifier::ext_equal]
pub struct SupportDiversityView {
    pub bias_risk: Seq<char>,
    pub support_projects: Seq<Seq<char>>,
    pub distinct_task_frame_count: usize,
    pub distinct_source_type_count: usize,
    pub distinct_verifier_type_count: usize,
    pub distinct_evidence_source_count: usize,
}

impl DeepView for SupportDiversity {
    type V = SupportDiversityView;

    open spec fn deep_view(&self) -> SupportDiversityView {
        SupportDiversityView {
            bias_risk: self.bias_risk.deep_view(),
            support_projects: self.support_projects.deep_view(),
            distinct_task_frame_count: self.distinct_task_frame_count,
            distinct_source_type_count: self.distinct_source_type_count,
            distinct_verifier_type_count: self.distinct_verifier_type_count,
            distinct_evidence_source_count: self.distinct_evidence_source_count,
        }
    }
}

/// One check of a claim.
#[derive(Debug)]
pub struct ReadinessCheck {
    pub check_id: String,
    pub passed: bool,
}

/// What a `ReadinessCheck` holds.
#[verifier::ext_equal]
pub struct ReadinessCheckView {
    pub check_id: Seq<char>,
    pub passed: bool,
}

impl DeepView for ReadinessCheck {
    type V = ReadinessCheckView;

    open spec fn deep_view(&self) -> ReadinessCheckView {
        ReadinessCheckView {
            check_id: self.check_id.deep_view(),
            passed: self.passed,
        }
    }
}

/// How ready a claim is.
#[derive(Debug)]
pub struct ReadinessScore {
    pub verdict: String,
    pub score: usize,
    pub max_score: usize,
    pub blocks_l4_auto_apply: bool,
    pub review_required: bool,
    pub checks: Vec<ReadinessCheck>,
}

/// What a `ReadinessScore` holds.
#[verifier::ext_equal]
pub struct ReadinessScoreView {
    pub verdict: Seq<char>,
    pub score: usize,
    pub max_score: usize,
    pub blocks_l4_auto_apply: bool,
    pub review_required: bool,
    pub checks: Seq<ReadinessCheckView>,
}

impl DeepView for ReadinessScore {
    type V = ReadinessScoreView;

    open spec fn deep_view(&self) -> ReadinessScoreView {
        ReadinessScoreView {
            verdict: self.verdict.deep_view(),
            score: self.score,
            max_score: self.max_score,
            blocks_l4_auto_apply: self.blocks_l4_auto_apply,
            review_required: self.review_required,
            checks: self.checks.deep_view(),
        }
    }
}

/// How a claim can be resolved.
#[derive(Debug)]
pub struct ResolutionPlan {
    pub status: String,
    pub target_lifecycle_state: String,
    pub next_step: String,
    pub intent: String,
    pub allowed_resolution_actions: Vec<String>,
    pub blocked_resolution_actions: Vec<String>,
    pub trusted_verifier_types: Vec<String>,
    pub trusted_evidence_kinds: Vec<String>,
    pub forbidden_evidence_kinds: Vec<String>,
    pub trust_boundary: String,
}

/// What a `ResolutionPlan` holds.
#[verifier::ext_equal]
pub struct ResolutionPlanView {
    pub status: Seq<char>,
    pub target_lifecycle_state: Seq<char>,
    pub next_step: Seq<char>,
    pub intent: Seq<char>,
    pub allowed_resolution_actions: Seq<Seq<char>>,
    pub blocked_resolution_actions: Seq<Seq<char>>,
    pub trusted_verifier_types: Seq<Seq<char>>,
    pub trusted_evidence_kinds: Seq<Seq<char>>,
    pub forbidden_evidence_kinds: Seq<Seq<char>>,
    pub trust_boundary: Seq<char>,
}

impl DeepView for ResolutionPlan {
    type V = ResolutionPlanView;

    open spec fn deep_view(&self) -> ResolutionPlanView {
        ResolutionPlanView {
            status: self.status.deep_view(),
            target_lifecycle_state: self.target_lifecycle_state.deep_view(),
            next_step: self.next_step.deep_view(),
            intent: self.intent.deep_view(),
            allowed_resolution_actions: self.allowed_resolution_actions.deep_view(),
            blocked_resolution_actions: self.blocked_resolution_actions.deep_view(),
            trusted_verifier_types: self.trusted_verifier_types.deep_view(),
            trusted_evidence_kinds: self.trusted_evidence_kinds.deep_view(),
            forbidden_evidence_kinds: self.forbidden_evidence_kinds.deep_view(),
            trust_boundary: self.trust_boundary.deep_view(),
        }
    }
}

/// Claims that say the same, and what may come of them.
#[derive(Debug)]
pub struct SemanticLearningItem {
    pub action: String,
    pub group_rule: String,
    pub normalized_text: String,
    pub proposal_id: Option<i64>,
    pub support_claim_ids: Vec<i64>,
    pub proposal_claim_ids: Vec<i64>,
    pub support_count: usize,
    pub trusted: bool,
    pub support_diversity: SupportDiversity,
    pub readiness_score: ReadinessScore,
    pub resolution_plan: ResolutionPlan,
    pub evidence_refs: Vec<StoredEvidenceRef>,
    pub skipped_reason: Option<String>,
}

/// What a `SemanticLearningItem` holds.
#[verifier::ext_equal]
pub struct SemanticLearningItemView {
    pub action: Seq<char>,
    pub group_rule: Seq<char>,
    pub normalized_text: Seq<char>,
    pub proposal_id: Option<i64>,
    pub support_claim_ids: Seq<i64>,
    pub proposal_claim_ids: Seq<i64>,
    pub support_count: usize,
    pub trusted: bool,
    pub support_diversity: SupportDiversityView,
    pub readiness_score: ReadinessScoreView,
    pub resolution_plan: ResolutionPlanView,
    pub evidence_refs: Seq<StoredEvidenceRefView>,
    pub skipped_reason: Option<Seq<char>>,
}

impl DeepView for SemanticLearningItem {
    type V = SemanticLearningItemView;

    open spec fn deep_view(&self) -> SemanticLearningItemView {
        SemanticLearningItemView {
            action: self.action.deep_view(),
            group_rule: self.group_rule.deep_view(),
            normalized_text: self.normalized_text.deep_view(),
            proposal_id: self.proposal_id.deep_view(),
            support_claim_ids: self.support_claim_ids.deep_view(),
            proposal_claim_ids: self.proposal_claim_ids.deep_view(),
            support_count: self.support_count,
            trusted: self.trusted,
            support_diversity: self.support_diversity.deep_view(),
            readiness_score: self.readiness_score.deep_view(),
            resolution_plan: self.resolution_plan.deep_view(),
            evidence_refs: self.evidence_refs.deep_view(),
            skipped_reason: self.skipped_reason.deep_view(),
        }
    }
}

/// What bringing claims together found.
#[derive(Debug)]
pub struct SemanticLearningReport {
    pub status: String,
    pub headline: String,
    pub project: Option<String>,
    pub session_id: Option<String>,
    pub dry_run: bool,
    pub limit: usize,
    pub min_support: usize,
    pub inspected_claim_count: usize,
    pub l4_candidate_count: usize,
    pub review_only_candidate_count: usize,
    pub proposed_count: usize,
    pub review_proposed_count: usize,
    pub skipped_untrusted_count: usize,
    pub skipped_existing_semantic_count: usize,
    pub skipped_existing_proposal_count: usize,
    pub skipped_existing_review_proposal_count: usize,
    pub items: Vec<SemanticLearningItem>,
}

/// What a `SemanticLearningReport` holds.
#[verifier::ext_equal]
pub struct SemanticLearningReportView {
    pub status: Seq<char>,
    pub headline: Seq<char>,
    pub project: Option<Seq<char>>,
    pub session_id: Option<Seq<char>>,
    pub dry_run: bool,
    pub limit: usize,
    pub min_support: usize,
    pub inspected_claim_count: usize,
    pub l4_candidate_count: usize,
    pub review_only_candidate_count: usize,
    pub proposed_count: usize,
    pub review_proposed_count: usize,
    pub skipped_untrusted_count: usize,
    pub skipped_existing_semantic_count: usize,
    pub skipped_existing_proposal_count: usize,
    pub skipped_existing_review_proposal_count: usize,
    pub items: Seq<SemanticLearningItemView>,
}

impl DeepView for SemanticLearningReport {
    type V = SemanticLearningReportView;

    open spec fn deep_view(&self) -> SemanticLearningReportView {
        SemanticLearningReportView {
            status: self.status.deep_view(),
            headline: self.headline.deep_view(),
            project: self.project.deep_view(),
            session_id: self.session_id.deep_view(),
            dry_run: self.dry_run,
            limit: self.limit,
            min_support: self.min_support,
            inspected_claim_count: self.inspected_claim_count,
            l4_candidate_count: self.l4_candidate_count,
            review_only_candidate_count: self.review_only_candidate_count,
            proposed_count: self.proposed_count,
            review_proposed_count: self.review_proposed_count,
            skipped_untrusted_count: self.skipped_untrusted_count,
            skipped_existing_semantic_count: self.skipped_existing_semantic_count,
            skipped_existing_proposal_count: self.skipped_existing_proposal_count,
            skipped_existing_review_proposal_count: self.skipped_existing_review_proposal_count,
            items: self.items.deep_view(),
        }
    }
}

/// The names of the two rules by which claims are put into one group for a semantic fact.
#[derive(Debug)]
pub struct GroupRules {
    pub exact: String,
    pub token: String,
}

/// What a `GroupRules` holds.
#[verifier::ext_equal]
pub struct GroupRulesView {
    pub exact: Seq<char>,
    pub token: Seq<char>,
}

impl DeepView for GroupRules {
    type V = GroupRulesView;

    open spec fn deep_view(&self) -> GroupRulesView {
        GroupRulesView {
            exact: self.exact.deep_view(),
            token: self.token.deep_view(),
        }
    }
}

// ---------------------------------------------------------------------------
// Words
// ---------------------------------------------------------------------------

pub open spec fn or_all(s: Option<Seq<char>>) -> Seq<char> {
    match s {
        Some(s) => s,
        None => "all"@,
    }
}

fn all_or(s: &Option<String>) -> (r: &str)
    ensures
        r@ == or_all(s.deep_view()),
{
    match s {
        Some(s) => s.as_str(),
        None => "all",
    }
}

pub open spec fn id_text(id: Option<i64>) -> Seq<char> {
    match id {
        Some(id) => decimal_int(id as int),
        None => "none"@,
    }
}

fn id_or_none(id: Option<i64>) -> (r: String)
    ensures
        r@ == id_text(id),
{
    match id {
        Some(id) => int_text(id),
        None => "none".to_string(),
    }
}

/// Numbers, with commas between them.
pub open spec fn ids_text(ids: Seq<i64>) -> Seq<char> {
    if ids.len() == 0 {
        "none"@
    } else {
        joined(Seq::new(ids.len(), |i: int| decimal_int(ids[i] as int)), ","@)
    }
}

pub fn semantic_brief_ids(ids: &Vec<i64>) -> (r: String)
    ensures
        r@ == ids_text(ids.deep_view()),
{
    let ghost all = ids.deep_view();
    assert(all =~= ids@);
    if ids.len() == 0 {
        return "none".to_string();
    }
    let mut words: Vec<String> = none();
    let mut i: usize = 0;
    while i < ids.len()
        invariant
            i <= ids.len(),
            all == ids@,
            words.deep_view() =~= Seq::new(i as nat, |k: int| decimal_int(all[k] as int)),
        decreases ids.len() - i,
    {
        words = with(words, int_text(ids[i]));
        i = i + 1;
    }
    join(&words, ",")
}

/// Texts, with commas between them.
pub open spec fn strings_text(values: Seq<Seq<char>>) -> Seq<char> {
    if values.len() == 0 {
        "none"@
    } else {
        joined(values, ","@)
    }
}

pub fn semantic_brief_strings(values: &Vec<String>) -> (r: String)
    ensures
        r@ == strings_text(values.deep_view()),
{
    assert(values.deep_view().len() == values.len());
    if values.len() == 0 {
        "none".to_string()
    } else {
        join(values, ",")
    }
}

/// A text, cut after some characters.
pub open spec fn truncated(value: Seq<char>, max: int) -> Seq<char> {
    if value.len() > max {
        value.take(max) + "..."@
    } else {
        value
    }
}

pub fn semantic_brief_truncate(value: &str, max_chars: usize) -> (r: String)
    ensures
        r@ == truncated(value@, max_chars as int),
{
    let cs = chars(value);
    if cs.len() > max_chars {
        let front = slice_of(&cs, 0, max_chars);
        assert(front@ =~= value@.take(max_chars as int));
        cat2(front.as_str(), "...")
    } else {
        value.to_string()
    }
}

pub const DRY_RUN_BOUNDARY: &'static str =
    "read-only dry-run; records no proposal, verification, promotion, correction, or cloud-draft trust";

pub const PROPOSING_BOUNDARY: &'static str =
    "may create review proposals only; never applies L4 semantic memory, records verification, or promotes cloud drafts without user/tool/local/correction evidence";

pub open spec fn proposals_boundary(dry_run: bool) -> Seq<char> {
    if dry_run {
        DRY_RUN_BOUNDARY@
    } else {
        PROPOSING_BOUNDARY@
    }
}

pub fn semantic_proposals_trust_boundary(dry_run: bool) -> (r: &'static str)
    ensures
        r@ == proposals_boundary(dry_run),
{
    if dry_run {
        DRY_RUN_BOUNDARY
    } else {
        PROPOSING_BOUNDARY
    }
}

// ---------------------------------------------------------------------------
// Lanes
// ---------------------------------------------------------------------------

/// The candidate may become a semantic fact.
pub open spec fn is_l4_candidate(item: SemanticLearningItemView, rules: GroupRulesView) -> bool {
    (item.action == "would_propose"@ || item.action == "proposed"@) && (item.group_rule
        == rules.exact || item.group_rule == rules.token)
}

pub fn semantic_item_is_l4_candidate(item: &SemanticLearningItem, rules: &GroupRules) -> (r: bool)
    ensures
        r == is_l4_candidate(item.deep_view(), rules.deep_view()),
{
    (same(item.action.as_str(), "would_propose") || same(item.action.as_str(), "proposed")) && (
    same(item.group_rule.as_str(), rules.exact.as_str()) || same(
        item.group_rule.as_str(),
        rules.token.as_str(),
    ))
}

/// The candidate is only to be reviewed.
pub open spec fn is_review_only(item: SemanticLearningItemView) -> bool {
    item.action == "would_request_verification"@ || item.action == "review_proposed"@
        || item.readiness_score.verdict == "review_only_requires_resolution"@
}

pub fn semantic_item_is_review_only_candidate(item: &SemanticLearningItem) -> (r: bool)
    ensures
        r == is_review_only(item.deep_view()),
{
    same(item.action.as_str(), "would_request_verification") || same(
        item.action.as_str(),
        "review_proposed",
    ) || same(item.readiness_score.verdict.as_str(), "review_only_requires_resolution")
}

/// The candidate is told with what would verify it.
pub open spec fn needs_guidance(item: SemanticLearningItemView, rules: GroupRulesView) -> bool {
    is_l4_candidate(item, rules) || is_review_only(item) || item.skipped_reason == Some(
        "durable_promotion_trust_required"@,
    )
}

pub fn semantic_item_needs_verification_guidance(
    item: &SemanticLearningItem,
    rules: &GroupRules,
) -> (r: bool)
    ensures
        r == needs_guidance(item.deep_view(), rules.deep_view()),
{
    let skipped = match &item.skipped_reason {
        Some(s) => same(s.as_str(), "durable_promotion_trust_required"),
        None => false,
    };
    semantic_item_is_l4_candidate(item, rules) || semantic_item_is_review_only_candidate(item)
        || skipped
}

pub open spec fn lane(item: SemanticLearningItemView, rules: GroupRulesView) -> Seq<char> {
    if is_l4_candidate(item, rules) {
        "L4-candidate"@
    } else if is_review_only(item) {
        "review-only"@
    } else if item.trusted {
        "trusted-skip"@
    } else {
        "blocked"@
    }
}

fn lane_of(item: &SemanticLearningItem, rules: &GroupRules) -> (r: &'static str)
    ensures
        r@ == lane(item.deep_view(), rules.deep_view()),
{
    if semantic_item_is_l4_candidate(item, rules) {
        "L4-candidate"
    } else if semantic_item_is_review_only_candidate(item) {
        "review-only"
    } else if item.trusted {
        "trusted-skip"
    } else {
        "blocked"
    }
}

// ---------------------------------------------------------------------------
// Commands
// ---------------------------------------------------------------------------

/// A command for one project and one session, where they are named.
pub open spec fn scoped(command: Seq<Seq<char>>, report: SemanticLearningReportView) -> Seq<
    Seq<char>,
> {
    let a = match report.project {
        Some(p) => command.push("--project"@).push(p),
        None => command,
    };
    match report.session_id {
        Some(s) => a.push("--session-id"@).push(s),
        None => a,
    }
}

fn scope_command(command: Words, report: &SemanticLearningReport) -> (r: Vec<String>)
    ensures
        r.deep_view() == scoped(command@, report.deep_view()),
{
    let a = match &report.project {
        Some(p) => command.w("--project").w(p.as_str()),
        None => command,
    };
    match &report.session_id {
        Some(s) => a.w("--session-id").w(s.as_str()).done(),
        None => a.done(),
    }
}

/// The command that would make proposals.
pub open spec fn creation_command(report: SemanticLearningReportView) -> Seq<Seq<char>> {
    scoped(
        nil().push("soma"@).push("context"@).push("semantic-proposals"@).push("--brief"@).push(
            "--min-support"@,
        ).push(decimal(report.min_support as nat)).push("--limit"@).push(
            decimal(report.limit as nat),
        ),
        report,
    )
}

pub fn semantic_brief_proposal_creation_command(report: &SemanticLearningReport) -> (r: Vec<String>)
    ensures
        r.deep_view() == creation_command(report.deep_view()),
{
    let words = Words::new().w("soma").w("context").w("semantic-proposals").w("--brief").w(
        "--min-support",
    ).w(decimal_text(report.min_support as u64).as_str()).w("--limit").w(
        decimal_text(report.limit as u64).as_str(),
    );
    scope_command(words, report)
}

/// The command that would show the queue of reviews.
pub open spec fn review_command(report: SemanticLearningReportView) -> Seq<Seq<char>> {
    scoped(
        nil().push("soma"@).push("context"@).push("review-queue"@).push("--format"@).push(
            "json"@,
        ).push("--limit"@).push("20"@),
        report,
    )
}

pub fn semantic_brief_proposal_review_command(report: &SemanticLearningReport) -> (r: Vec<String>)
    ensures
        r.deep_view() == review_command(report.deep_view()),
{
    let words = Words::new().w("soma").w("context").w("review-queue").w("--format").w("json").w(
        "--limit",
    ).w("20");
    scope_command(words, report)
}

/// What the command that would verify a candidate names: its proposal, else its first
/// claim, else a placeholder.
pub open spec fn verified_target(item: SemanticLearningItemView) -> (Seq<char>, Seq<char>) {
    match item.proposal_id {
        Some(id) => ("--proposal-id"@, decimal_int(id as int)),
        None => (
            "--claim-id"@,
            if item.proposal_claim_ids.len() > 0 {
                decimal_int(item.proposal_claim_ids[0] as int)
            } else if item.support_claim_ids.len() > 0 {
                decimal_int(item.support_claim_ids[0] as int)
            } else {
                "CLAIM_ID"@
            },
        ),
    }
}

/// The command that would verify a candidate, with placeholders for what an operator must
/// say.
pub open spec fn verification_command(item: SemanticLearningItemView) -> Seq<Seq<char>> {
    nil().push("soma"@).push("context"@).push("verify-claim"@).push(verified_target(item).0).push(
        verified_target(item).1,
    ).push("--verifier"@).push("TRUSTED_VERIFIER"@).push("--result"@).push(
        "VERIFICATION_RESULT"@,
    ).push("--evidence-kind"@).push("TRUSTED_EVIDENCE_KIND"@).push("--evidence-id"@).push(
        "TRUSTED_EVIDENCE_ID"@,
    )
}

pub fn semantic_brief_verification_command(item: &SemanticLearningItem) -> (r: Vec<String>)
    ensures
        r.deep_view() == verification_command(item.deep_view()),
{
    assert(item.proposal_claim_ids.deep_view() =~= item.proposal_claim_ids@);
    assert(item.support_claim_ids.deep_view() =~= item.support_claim_ids@);
    let (flag, target) = match item.proposal_id {
        Some(id) => ("--proposal-id", int_text(id)),
        None => (
            "--claim-id",
            if item.proposal_claim_ids.len() > 0 {
                int_text(item.proposal_claim_ids[0])
            } else if item.support_claim_ids.len() > 0 {
                int_text(item.support_claim_ids[0])
            } else {
                "CLAIM_ID".to_string()
            },
        ),
    };
    Words::new().w("soma").w("context").w("verify-claim").w(flag).w(target.as_str()).w(
        "--verifier",
    ).w("TRUSTED_VERIFIER").w("--result").w("VERIFICATION_RESULT").w("--evidence-kind").w(
        "TRUSTED_EVIDENCE_KIND",
    ).w("--evidence-id").w("TRUSTED_EVIDENCE_ID").done()
}

/// The claims that a verification would cover.
pub open spec fn covered_claims(item: SemanticLearningItemView) -> Seq<i64> {
    if item.proposal_claim_ids.len() == 0 {
        item.support_claim_ids
    } else {
        item.proposal_claim_ids
    }
}

pub open spec fn verification_scope(item: SemanticLearningItemView) -> Seq<char> {
    let ids = covered_claims(item);
    match item.proposal_id {
        Some(id) => "proposal_id="@ + decimal_int(id as int) + " claim_ids="@ + ids_text(ids),
        None => if ids.len() > 1 {
            "representative_claim="@ + decimal_int(ids[0] as int)
                + " repeat_or_create_review_proposal_for_claim_ids="@ + ids_text(ids)
        } else {
            "claim_ids="@ + ids_text(ids)
        },
    }
}

pub fn semantic_brief_verification_scope(item: &SemanticLearningItem) -> (r: String)
    ensures
        r@ == verification_scope(item.deep_view()),
{
    assert(item.proposal_claim_ids.deep_view() =~= item.proposal_claim_ids@);
    assert(item.support_claim_ids.deep_view() =~= item.support_claim_ids@);
    let ids = if item.proposal_claim_ids.len() == 0 {
        &item.support_claim_ids
    } else {
        &item.proposal_claim_ids
    };
    let claims = semantic_brief_ids(ids);
    match item.proposal_id {
        Some(id) => Phrase::new("proposal_id=").i(id).t(" claim_ids=").t(claims.as_str()).done(),
        None => if ids.len() > 1 {
            Phrase::new("representative_claim=").i(ids[0]).t(
                " repeat_or_create_review_proposal_for_claim_ids=",
            ).t(claims.as_str()).done()
        } else {
            cat2("claim_ids=", claims.as_str())
        },
    }
}

// ---------------------------------------------------------------------------
// Lines
// ---------------------------------------------------------------------------

/// What stands above the candidates.
pub open spec fn heading_lines(report: SemanticLearningReportView) -> Seq<Seq<char>> {
    nil().push("SOMA semantic proposals brief"@).push(
        "  Status: "@ + report.status + " - "@ + report.headline)
        .push("  Scope: project="@ + or_all(report.project) + " session="@
        + or_all(report.session_id) + " dry_run="@ + flag_text(report.dry_run) + " limit="@
        + decimal(report.limit as nat) + " min_support="@ + decimal(report.min_support as nat))
        .push("  Counts: inspected_claims="@ + decimal(report.inspected_claim_count as nat)
        + " l4_candidates="@ + decimal(report.l4_candidate_count as nat)
        + " review_only_candidates="@ + decimal(report.review_only_candidate_count as nat)
        + " proposed="@ + decimal(report.proposed_count as nat) + " review_proposed="@
        + decimal(report.review_proposed_count as nat) + " skipped_untrusted="@
        + decimal(report.skipped_untrusted_count as nat) + " skipped_existing_semantic="@
        + decimal(report.skipped_existing_semantic_count as nat) + " skipped_existing_proposal="@
        + decimal(report.skipped_existing_proposal_count as nat) + " skipped_existing_review="@
        + decimal(report.skipped_existing_review_proposal_count as nat))
        .push("  Trust boundary: "@ + proposals_boundary(report.dry_run))
}

fn heading(report: &SemanticLearningReport) -> (r: Vec<String>)
    ensures
        r.deep_view() == heading_lines(report.deep_view()),
{
    Words::new().w(Phrase::new("SOMA semantic proposals brief").done().as_str())
        .w(Phrase::new("  Status: ").t(report.status.as_str()).t(" - ").t(report.headline.as_str())
        .done().as_str()).w(Phrase::new("  Scope: project=").t(all_or(&report.project))
        .t(" session=").t(all_or(&report.session_id)).t(" dry_run=").b(report.dry_run).t(" limit=")
        .n(report.limit).t(" min_support=").n(report.min_support).done().as_str())
        .w(Phrase::new("  Counts: inspected_claims=").n(report.inspected_claim_count)
        .t(" l4_candidates=").n(report.l4_candidate_count).t(" review_only_candidates=")
        .n(report.review_only_candidate_count).t(" proposed=").n(report.proposed_count)
        .t(" review_proposed=").n(report.review_proposed_count).t(" skipped_untrusted=")
        .n(report.skipped_untrusted_count).t(" skipped_existing_semantic=")
        .n(report.skipped_existing_semantic_count).t(" skipped_existing_proposal=")
        .n(report.skipped_existing_proposal_count).t(" skipped_existing_review=")
        .n(report.skipped_existing_review_proposal_count).done().as_str())
        .w(Phrase::new("  Trust boundary: ").t(semantic_proposals_trust_boundary(report.dry_run))
        .done().as_str()).done()
}

/// The lines that every candidate has.
pub open spec fn item_heading_lines(
    index: nat,
    lane: Seq<char>,
    item: SemanticLearningItemView,
) -> Seq<Seq<char>> {
    nil().push("    "@ + decimal(index as nat) + ". ["@ + lane + "] action="@ + item.action
        + " verdict="@ + item.readiness_score.verdict + " score="@
        + decimal(item.readiness_score.score as nat) + "/"@
        + decimal(item.readiness_score.max_score as nat) + " support="@
        + decimal(item.support_count as nat) + " trusted="@ + flag_text(item.trusted) + " bias="@
        + item.support_diversity.bias_risk).push("       claim: "@
        + truncated(item.normalized_text, 180)).push(
        "       group_rule="@ + item.group_rule + " proposal_id="@ + id_text(item.proposal_id)
        + " support_claim_ids="@ + ids_text(item.support_claim_ids) + " proposal_claim_ids="@
        + ids_text(item.proposal_claim_ids)).push(
        "       diversity: projects="@ + strings_text(item.support_diversity.support_projects)
        + " task_frames="@ + decimal(item.support_diversity.distinct_task_frame_count as nat)
        + " source_types="@ + decimal(item.support_diversity.distinct_source_type_count as nat)
        + " verifier_types="@ + decimal(item.support_diversity.distinct_verifier_type_count as nat)
        + " evidence_sources="@
        + decimal(item.support_diversity.distinct_evidence_source_count as nat))
        .push("       l4_auto_apply_blocked="@ + flag_text(
        item.readiness_score.blocks_l4_auto_apply) + " review_required="@
        + flag_text(item.readiness_score.review_required))
}

fn item_heading(index: usize, lane: &str, item: &SemanticLearningItem) -> (r: Vec<String>)
    ensures
        r.deep_view() == item_heading_lines(index as nat, lane@, item.deep_view()),
{
    Words::new().w(Phrase::new("    ").n(index).t(". [").t(lane).t("] action=")
        .t(item.action.as_str()).t(" verdict=").t(item.readiness_score.verdict.as_str())
        .t(" score=").n(item.readiness_score.score).t("/").n(item.readiness_score.max_score)
        .t(" support=").n(item.support_count).t(" trusted=").b(item.trusted).t(" bias=")
        .t(item.support_diversity.bias_risk.as_str()).done().as_str())
        .w(Phrase::new("       claim: ").t(semantic_brief_truncate(
        item.normalized_text.as_str(), 180).as_str()).done().as_str())
        .w(Phrase::new("       group_rule=").t(item.group_rule.as_str()).t(" proposal_id=")
        .t(id_or_none(item.proposal_id).as_str()).t(" support_claim_ids=")
        .t(semantic_brief_ids(&item.support_claim_ids).as_str()).t(" proposal_claim_ids=")
        .t(semantic_brief_ids(&item.proposal_claim_ids).as_str()).done().as_str())
        .w(Phrase::new("       diversity: projects=")
        .t(semantic_brief_strings(&item.support_diversity.support_projects).as_str())
        .t(" task_frames=").n(item.support_diversity.distinct_task_frame_count).t(" source_types=")
        .n(item.support_diversity.distinct_source_type_count).t(" verifier_types=")
        .n(item.support_diversity.distinct_verifier_type_count).t(" evidence_sources=")
        .n(item.support_diversity.distinct_evidence_source_count).done().as_str())
        .w(Phrase::new("       l4_auto_apply_blocked=").b(item.readiness_score.blocks_l4_auto_apply)
        .t(" review_required=").b(item.readiness_score.review_required).done().as_str()).done()
}

/// How a candidate can be resolved.
pub open spec fn resolution_lines(plan: ResolutionPlanView) -> Seq<Seq<char>> {
    nil().push("       resolution_plan: status="@ + plan.status + " target="@
        + plan.target_lifecycle_state + " next="@ + plan.next_step)
        .push("       resolution_intent: "@ + plan.intent)
        .push("       resolution_options: allowed="@
        + joined(plan.allowed_resolution_actions, ","@) + " blocked="@
        + joined(plan.blocked_resolution_actions, ","@))
        .push("       trusted_evidence: verifiers="@ + joined(plan.trusted_verifier_types, ","@)
        + " kinds="@ + joined(plan.trusted_evidence_kinds, ","@) + " forbidden="@
        + joined(plan.forbidden_evidence_kinds, ","@))
        .push("       resolution_boundary: "@ + plan.trust_boundary)
}

fn render_semantic_resolution_plan_brief(plan: &ResolutionPlan) -> (r: Vec<String>)
    ensures
        r.deep_view() == resolution_lines(plan.deep_view()),
{
    Words::new().w(Phrase::new("       resolution_plan: status=").t(plan.status.as_str())
        .t(" target=").t(plan.target_lifecycle_state.as_str()).t(" next=")
        .t(plan.next_step.as_str()).done().as_str())
        .w(Phrase::new("       resolution_intent: ").t(plan.intent.as_str()).done().as_str())
        .w(Phrase::new("       resolution_options: allowed=")
        .t(join(&plan.allowed_resolution_actions, ",").as_str()).t(" blocked=")
        .t(join(&plan.blocked_resolution_actions, ",").as_str()).done().as_str())
        .w(Phrase::new("       trusted_evidence: verifiers=")
        .t(join(&plan.trusted_verifier_types, ",").as_str()).t(" kinds=")
        .t(join(&plan.trusted_evidence_kinds, ",").as_str()).t(" forbidden=")
        .t(join(&plan.forbidden_evidence_kinds, ",").as_str()).done().as_str())
        .w(Phrase::new("       resolution_boundary: ").t(plan.trust_boundary.as_str()).done()
        .as_str()).done()
}

/// The checks that a candidate fails, by name.
pub open spec fn failing(checks: Seq<ReadinessCheckView>) -> Seq<Seq<char>>
    decreases checks.len(),
{
    if checks.len() == 0 {
        nil()
    } else {
        let front = failing(checks.drop_last());
        if checks.last().passed {
            front
        } else {
            front.push(checks.last().check_id)
        }
    }
}

fn failing_checks(checks: &Vec<ReadinessCheck>) -> (r: Vec<String>)
    ensures
        r.deep_view() == failing(checks.deep_view()),
{
    let ghost all = checks.deep_view();
    let mut out: Vec<String> = none();
    let mut i: usize = 0;
    assert(all.take(0) =~= Seq::empty());
    while i < checks.len()
        invariant
            i <= checks.len(),
            all == checks.deep_view(),
            out.deep_view() == failing(all.take(i as int)),
        decreases checks.len() - i,
    {
        assert(all.take(i + 1).drop_last() =~= all.take(i as int));
        assert(all.take(i + 1).last() == checks[i as int].deep_view());
        if !checks[i].passed {
            out = with(out, checks[i].check_id.clone());
        }
        i = i + 1;
    }
    assert(all.take(i as int) =~= all);
    out
}

pub open spec fn failing_line(checks: Seq<ReadinessCheckView>) -> Seq<char> {
    if failing(checks).len() == 0 {
        "       failing_checks: none"@
    } else {
        "       failing_checks: "@ + joined(failing(checks), ","@)
    }
}

fn tell_failing(checks: &Vec<ReadinessCheck>) -> (r: String)
    ensures
        r@ == failing_line(checks.deep_view()),
{
    let names = failing_checks(checks);
    assert(names.deep_view().len() == names.len());
    if names.len() == 0 {
        "       failing_checks: none".to_string()
    } else {
        cat2("       failing_checks: ", join(&names, ",").as_str())
    }
}

pub const CREATION_BOUNDARY: &'static str =
    "       proposal_creation_boundary: creates review/proposal rows only; records no verification, applies no proposal, writes no semantic_fact, and promotes no cloud draft";

pub const VERIFICATION_BOUNDARY: &'static str =
    "       verification_boundary: independent user/tool/test/local_observation/correction evidence only; cloud output and client render text are forbidden evidence";

/// How a proposal would be made. It is told on a trial only, and only where there is no
/// proposal yet.
pub open spec fn creation_lines(
    item: SemanticLearningItemView,
    report: SemanticLearningReportView,
) -> Seq<Seq<char>> {
    if item.proposal_id is None && report.dry_run {
        nil().push(
            "       proposal_creation_hint: "@ + joined(creation_command(report), " "@),
        ).push(CREATION_BOUNDARY@)
    } else {
        nil()
    }
}

fn tell_creation(item: &SemanticLearningItem, report: &SemanticLearningReport) -> (r: Vec<String>)
    ensures
        r.deep_view() == creation_lines(item.deep_view(), report.deep_view()),
{
    if item.proposal_id.is_none() && report.dry_run {
        Words::new().w(
            cat2(
                "       proposal_creation_hint: ",
                join(&semantic_brief_proposal_creation_command(report), " ").as_str(),
            ).as_str(),
        ).w(CREATION_BOUNDARY).done()
    } else {
        none()
    }
}

/// How a proposal would be reviewed.
pub open spec fn review_lines(
    item: SemanticLearningItemView,
    report: SemanticLearningReportView,
) -> Seq<Seq<char>> {
    match item.proposal_id {
        Some(id) => nil().push(
            "       proposal_review_hint: "@ + joined(review_command(report), " "@),
        ).push("       proposal_review_scope: proposal_id="@ + decimal_int(id as int)),
        None => nil(),
    }
}

fn tell_review(item: &SemanticLearningItem, report: &SemanticLearningReport) -> (r: Vec<String>)
    ensures
        r.deep_view() == review_lines(item.deep_view(), report.deep_view()),
{
    match item.proposal_id {
        Some(id) => Words::new().w(
            cat2(
                "       proposal_review_hint: ",
                join(&semantic_brief_proposal_review_command(report), " ").as_str(),
            ).as_str(),
        ).w(
            cat2("       proposal_review_scope: proposal_id=", int_text(id).as_str()).as_str(),
        ).done(),
        None => none(),
    }
}

/// What an operator can do about a candidate.
pub open spec fn guidance_lines(
    item: SemanticLearningItemView,
    report: SemanticLearningReportView,
    rules: GroupRulesView,
) -> Seq<Seq<char>> {
    if needs_guidance(item, rules) {
        (creation_lines(item, report) + review_lines(item, report)).push(
            "       verification_template: "@ + joined(verification_command(item), " "@),
        ).push("       verification_scope: "@ + verification_scope(item)).push(
            VERIFICATION_BOUNDARY@,
        ) + resolution_lines(item.resolution_plan)
    } else {
        nil()
    }
}

fn tell_guidance(
    item: &SemanticLearningItem,
    report: &SemanticLearningReport,
    rules: &GroupRules,
) -> (r: Vec<String>)
    ensures
        r.deep_view() == guidance_lines(item.deep_view(), report.deep_view(), rules.deep_view()),
{
    if semantic_item_needs_verification_guidance(item, rules) {
        Words::starting(tell_creation(item, report)).more(&tell_review(item, report)).w(
            cat2(
                "       verification_template: ",
                join(&semantic_brief_verification_command(item), " ").as_str(),
            ).as_str(),
        ).w(
            cat2(
                "       verification_scope: ",
                semantic_brief_verification_scope(item).as_str(),
            ).as_str(),
        ).w(VERIFICATION_BOUNDARY).more(
            &render_semantic_resolution_plan_brief(&item.resolution_plan),
        ).done()
    } else {
        none()
    }
}

/// At most as much of the evidence is told.
pub const EVIDENCE_SHOWN: usize = 4;

pub open spec fn evidence_text(e: StoredEvidenceRefView) -> Seq<char> {
    e.kind + ":"@ + e.id + "@"@ + match e.source {
        Some(s) => s,
        None => "none"@,
    }
}

fn tell_evidence(e: &StoredEvidenceRef) -> (r: String)
    ensures
        r@ == evidence_text(e.deep_view()),
{
    let source = match &e.source {
        Some(s) => s.as_str(),
        None => "none",
    };
    cat5(e.kind.as_str(), ":", e.id.as_str(), "@", source)
}

pub open spec fn shown_count(n: nat, max: nat) -> nat {
    if n <= max {
        n
    } else {
        max
    }
}

/// What a candidate rests on: the first of it, and how much more there is.
pub open spec fn evidence_lines(refs: Seq<StoredEvidenceRefView>) -> Seq<Seq<char>> {
    let shown = shown_count(refs.len(), EVIDENCE_SHOWN as nat);
    if shown == 0 {
        nil().push("       evidence: none"@)
    } else {
        let a = nil().push(
            "       evidence: "@ + joined(
                Seq::new(shown, |i: int| evidence_text(refs[i])),
                "; "@,
            ),
        );
        if refs.len() > shown {
            a.push(
                "       evidence_more: "@ + decimal((refs.len() - shown) as nat)
                    + " additional ref(s); use --format json for full refs"@,
            )
        } else {
            a
        }
    }
}

fn tell_all_evidence(refs: &Vec<StoredEvidenceRef>) -> (r: Vec<String>)
    ensures
        r.deep_view() == evidence_lines(refs.deep_view()),
{
    let ghost all = refs.deep_view();
    assert(all.len() == refs.len());
    let shown: usize = if refs.len() <= EVIDENCE_SHOWN {
        refs.len()
    } else {
        EVIDENCE_SHOWN
    };
    if shown == 0 {
        return Words::new().w("       evidence: none").done();
    }
    let mut texts: Vec<String> = none();
    let mut i: usize = 0;
    while i < shown
        invariant
            i <= shown,
            shown <= refs.len(),
            all == refs.deep_view(),
            texts.deep_view() =~= Seq::new(i as nat, |k: int| evidence_text(all[k])),
        decreases shown - i,
    {
        assert(all[i as int] == refs[i as int].deep_view());
        texts = with(texts, tell_evidence(&refs[i]));
        i = i + 1;
    }
    let a = Words::new().w(cat2("       evidence: ", join(&texts, "; ").as_str()).as_str());
    if refs.len() > shown {
        a.w(
            Phrase::new("       evidence_more: ").n(refs.len() - shown).t(
                " additional ref(s); use --format json for full refs",
            ).done().as_str(),
        ).done()
    } else {
        a.done()
    }
}

pub open spec fn skipped_lines(reason: Option<Seq<char>>) -> Seq<Seq<char>> {
    match reason {
        Some(r) => nil().push("       skipped_reason: "@ + r),
        None => nil(),
    }
}

fn tell_skipped(reason: &Option<String>) -> (r: Vec<String>)
    ensures
        r.deep_view() == skipped_lines(reason.deep_view()),
{
    match reason {
        Some(s) => Words::new().w(cat2("       skipped_reason: ", s.as_str()).as_str()).done(),
        None => none(),
    }
}

/// The lines of one candidate.
pub open spec fn item_lines(
    index: nat,
    item: SemanticLearningItemView,
    report: SemanticLearningReportView,
    rules: GroupRulesView,
) -> Seq<Seq<char>> {
    item_heading_lines(index, lane(item, rules), item).push(
        failing_line(item.readiness_score.checks),
    ) + guidance_lines(item, report, rules) + evidence_lines(item.evidence_refs) + skipped_lines(
        item.skipped_reason,
    )
}

pub fn render_semantic_proposal_item_brief(
    index: usize,
    item: &SemanticLearningItem,
    report: &SemanticLearningReport,
    rules: &GroupRules,
) -> (r: Vec<String>)
    ensures
        r.deep_view() == item_lines(
            index as nat,
            item.deep_view(),
            report.deep_view(),
            rules.deep_view(),
        ),
{
    Words::starting(item_heading(index, lane_of(item, rules), item)).w(
        tell_failing(&item.readiness_score.checks).as_str(),
    ).more(&tell_guidance(item, report, rules)).more(&tell_all_evidence(&item.evidence_refs)).more(
        &tell_skipped(&item.skipped_reason),
    ).done()
}

/// At most as many candidates are told.
pub const ITEMS_SHOWN: usize = 10;

/// The lines of the first candidates.
pub open spec fn items_lines(
    n: nat,
    report: SemanticLearningReportView,
    rules: GroupRulesView,
) -> Seq<Seq<char>>
    decreases n,
{
    if n == 0 {
        nil()
    } else {
        items_lines((n - 1) as nat, report, rules) + item_lines(
            n,
            report.items[n - 1],
            report,
            rules,
        )
    }
}

/// The brief.
pub open spec fn brief_lines(report: SemanticLearningReportView, rules: GroupRulesView) -> Seq<
    Seq<char>,
> {
    let shown = shown_count(report.items.len(), ITEMS_SHOWN as nat);
    if shown == 0 {
        heading_lines(report).push("  Candidates: none"@)
    } else {
        let a = heading_lines(report).push("  Candidates:"@) + items_lines(shown, report, rules);
        if report.items.len() > shown {
            a.push(
                "    ... "@ + decimal((report.items.len() - shown) as nat)
                    + " more candidate(s) omitted from brief output; use --format json for the full evidence list."@,
            )
        } else {
            a
        }
    }
}

pub fn render_semantic_proposals_brief(report: &SemanticLearningReport, rules: &GroupRules) -> (r:
    String)
    ensures
        r@ == unlines(brief_lines(report.deep_view(), rules.deep_view())),
{
    let ghost whole = report.deep_view();
    assert(whole.items.len() == report.items.len());
    let shown: usize = if report.items.len() <= ITEMS_SHOWN {
        report.items.len()
    } else {
        ITEMS_SHOWN
    };
    let head = Words::starting(heading(report));
    if shown == 0 {
        return text_of_lines(&head.w("  Candidates: none").done());
    }
    let mut lines: Vec<String> = none();
    let mut i: usize = 0;
    while i < shown
        invariant
            i <= shown,
            shown <= report.items.len(),
            whole == report.deep_view(),
            lines.deep_view() == items_lines(i as nat, whole, rules.deep_view()),
        decreases shown - i,
    {
        assert(whole.items[i as int] == report.items[i as int].deep_view());
        let more = render_semantic_proposal_item_brief(i + 1, &report.items[i], report, rules);
        lines = Words::starting(lines).more(&more).done();
        i = i + 1;
    }
    let all = head.w("  Candidates:").more(&lines);
    let all = if report.items.len() > shown {
        all.w(
            Phrase::new("    ... ").n(report.items.len() - shown).t(
                " more candidate(s) omitted from brief output; use --format json for the full evidence list.",
            ).done().as_str(),
        )
    } else {
        all
    };
    text_of_lines(&all.done())
}

// ---------------------------------------------------------------------------
// Laws
// ---------------------------------------------------------------------------

/// A candidate that is trusted or blocked, and waits for nothing, is told without commands.
pub proof fn law_only_candidates_are_guided(
    item: SemanticLearningItemView,
    report: SemanticLearningReportView,
    rules: GroupRulesView,
)
    requires
        !is_l4_candidate(item, rules),
        !is_review_only(item),
        item.skipped_reason is None,
    ensures
        guidance_lines(item, report, rules) == nil(),
        lane(item, rules) == "trusted-skip"@ || lane(item, rules) == "blocked"@,
{
}

/// The command that makes proposals is told on a trial only.
pub proof fn law_creation_is_told_on_a_trial_only(
    item: SemanticLearningItemView,
    report: SemanticLearningReportView,
)
    requires
        !report.dry_run,
    ensures
        creation_lines(item, report) == nil(),
{
}

/// A cut text is at most three characters longer than what is kept of it, and begins as the
/// whole does.
pub proof fn law_truncated_begins_alike(value: Seq<char>, max: int)
    requires
        max >= 0,
    ensures
        truncated(value, max).len() <= max + 3,
        value.len() > max ==> truncated(value, max).take(max) == value.take(max),
        value.len() <= max ==> truncated(value, max) == value,
{
    reveal_strlit("...");
    if value.len() > max {
        assert(truncated(value, max).take(max) =~= value.take(max));
    }
}

/// The lane of an item is told by its action, its rule and its trust: a candidate for
/// durable memory only where it would be or was proposed under one of the two exact rules,
/// for review where it asks for that, else skipped where it is trusted, else blocked.
pub proof fn law_lanes_are_told_by_actions(item: SemanticLearningItemView, rules: GroupRulesView)
    ensures
        ({
            let candidate = (item.action == "would_propose"@ || item.action == "proposed"@) && (
            item.group_rule == rules.exact || item.group_rule == rules.token);
            let review = item.action == "would_request_verification"@ || item.action
                == "review_proposed"@ || item.readiness_score.verdict
                == "review_only_requires_resolution"@;
            &&& candidate ==> lane(item, rules) == "L4-candidate"@
            &&& !candidate && review ==> lane(item, rules) == "review-only"@
            &&& !candidate && !review && item.trusted ==> lane(item, rules) == "trusted-skip"@
            &&& !candidate && !review && !item.trusted ==> lane(item, rules) == "blocked"@
            &&& needs_guidance(item, rules) <==> candidate || review || item.skipped_reason == Some(
                "durable_promotion_trust_required"@,
            )
        }),
{
}

/// The command that verifies an item names its proposal where it has one, else the first
/// claim of its proposal, else the first that supports it.
pub proof fn law_verification_names_proposal_then_claim(item: SemanticLearningItemView)
    ensures
        ({
            let c = verification_command(item);
            &&& c[0] == "soma"@ && c[1] == "context"@ && c[2] == "verify-claim"@
            &&& item.proposal_id matches Some(id) ==> c[3] == "--proposal-id"@ && c[4]
                == decimal_int(id as int)
            &&& item.proposal_id is None ==> c[3] == "--claim-id"@
            &&& item.proposal_id is None && item.proposal_claim_ids.len() > 0 ==> c[4]
                == decimal_int(item.proposal_claim_ids[0] as int)
            &&& item.proposal_id is None && item.proposal_claim_ids.len() == 0
                && item.support_claim_ids.len() > 0 ==> c[4] == decimal_int(
                item.support_claim_ids[0] as int,
            )
        }),
{
}

/// The checks that fail are told by their names, in order, and those that pass are not.
pub proof fn law_failing_checks_are_told(checks: Seq<ReadinessCheckView>, next: ReadinessCheckView)
    ensures
        failing(Seq::empty()).len() == 0,
        next.passed ==> failing(checks.push(next)) == failing(checks),
        !next.passed ==> failing(checks.push(next)) == failing(checks).push(next.check_id),
{
    assert(checks.push(next).drop_last() =~= checks);
}

}
