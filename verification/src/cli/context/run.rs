//! The `soma context` commands: what each asks of the store.
use super::args::{
    ContextArgs, ContextLearningProposalMode, ContextLearningProposalsArgs, ContextMode,
    ContextTaskFramesMode, EnvelopeArgs, EnvelopeArgsView,
};
use super::error::{output_format, ContextError, ContextFault, OutputFormat};
use super::ranking::{comparison, run_compare_ranking, RankingSource, RankingSourceView};
use super::requests::{
    action_plan_input, apply_ready_input, check_hardening, check_l3_decay, check_retention,
    check_scheduler, correction_input, decayable, digest_ack_input, digest_input, drain_input,
    eval_request, frame_input, hardenable, open_decision_input, outcomes_request, packet_request,
    predict_request, promotion_request, proposals_request, queue_input, render_input, report_input,
    retainable, run_correct, run_l2_promote, run_latent_eval, run_latent_packet, run_latent_predict,
    run_learning_proposals_apply_ready, run_learning_proposals_list,
    run_learning_proposals_set_status, run_open_decision_proposals, run_review_actions,
    run_review_batch_template, run_review_digest, run_review_digest_ack, run_review_drain,
    run_review_queue, run_review_render, run_review_report, run_semantic_proposals, run_task_frame,
    run_task_frame_outcomes, run_trust_audit, schedulable, semantic_request, status_change,
    template_flags, trust_audit_input, ApplyReadyInput, ApplyReadyInputView, CorrectionInput,
    CorrectionInputView, LatentCases, LatentCasesView, LatentProxyEvalInput,
    LatentProxyEvalInputView, LatentProxyPredictionInput, LatentProxyPredictionInputView,
    LearningProposalsRequest, LearningProposalsRequestView, OpenDecisionProposalInput,
    OpenDecisionProposalInputView, ProposalStatusChange, ProposalStatusChangeView, ProposalsFormat,
    ReviewActionPlanInput, ReviewActionPlanInputView, ReviewDigestAckInput,
    ReviewDigestAckInputView, ReviewDigestInput, ReviewDigestInputView, ReviewDrainInput,
    ReviewDrainInputView, ReviewQueueInput, ReviewQueueInputView, ReviewRenderInput,
    ReviewRenderInputView, ReviewReportInput, ReviewReportInputView, SemanticLearningInput,
    SemanticLearningInputView, ShortTermProxyPromotionRequest, ShortTermProxyPromotionRequestView,
    TaskFrameOutcomesRequest, TaskFrameOutcomesRequestView, TrustAuditInput, TrustAuditInputView,
};
use super::review::{
    operations_source, review_batch_operations_from_cli, review_input, run_review_action,
    OperationsSource, OperationsSourceView, ReviewActionInput, ReviewActionInputView,
};
use super::thread_identity::{
    identity_request, run_thread_identity, ThreadIdentityRequest, ThreadIdentityRequestView,
};
use super::verify::{opening, run_verify_claim, verification, VerifyClaimPlan, VerifyClaimPlanView};
use crate::cli::adapter_cloud_output::{TaskFrameBuildInput, TaskFrameBuildInputView};
use crate::dup::Dup;
use crate::outcome::outcome;
use crate::storage::StorageError;
use vstd::prelude::*;

verus! {

/// What a `soma context` call asks of the store, once its flags are valid. Where a variant
/// holds nothing, the store must first be asked for more: a time, a kind or the names of passes.
#[derive(Debug)]
pub enum ContextRequest {
    Render(OutputFormat, EnvelopeArgs),
    Prompt(EnvelopeArgs),
    TaskFrame(TaskFrameBuildInput),
    TaskFrameRetention,
    TaskFrameOutcomes(TaskFrameOutcomesRequest),
    TaskFrameOutcome,
    L3Decay,
    L2Promote(ShortTermProxyPromotionRequest),
    LatentPredict(LatentProxyPredictionInput),
    LatentPacket(LatentProxyPredictionInput),
    LatentEval(LatentCases, LatentProxyEvalInput),
    ThreadIdentity(ThreadIdentityRequest),
    Correct(CorrectionInput),
    VerifyClaim(VerifyClaimPlan),
    LearningProposalsList(LearningProposalsRequest),
    LearningProposalApply(i64, bool),
    LearningProposalsApplyReady(ApplyReadyInput),
    LearningProposalSetStatus(ProposalStatusChange),
    ReviewQueue(ReviewQueueInput),
    ReviewActions(ReviewActionPlanInput),
    ReviewBatchTemplate(ReviewReportInput),
    ReviewReport(ReviewReportInput),
    ReviewDigest(ReviewDigestInput),
    ReviewDigestAck(ReviewDigestAckInput),
    ReviewRender(ReviewRenderInput),
    ReviewDrain(ReviewDrainInput),
    SchedulerRun,
    SemanticProposals(ProposalsFormat, SemanticLearningInput),
    OpenDecisionProposals(OpenDecisionProposalInput),
    ReviewAction(ReviewActionInput),
    ReviewBatch(OperationsSource),
    Audit(EnvelopeArgs),
    TrustAudit(TrustAuditInput),
    HardeningReport(EnvelopeArgs),
    Why(EnvelopeArgs),
    CompareRanking(RankingSource),
}

/// What a `ContextRequest` holds.
pub enum ContextRequestView {
    Render(OutputFormat, EnvelopeArgsView),
    Prompt(EnvelopeArgsView),
    TaskFrame(TaskFrameBuildInputView),
    TaskFrameRetention,
    TaskFrameOutcomes(TaskFrameOutcomesRequestView),
    TaskFrameOutcome,
    L3Decay,
    L2Promote(ShortTermProxyPromotionRequestView),
    LatentPredict(LatentProxyPredictionInputView),
    LatentPacket(LatentProxyPredictionInputView),
    LatentEval(LatentCasesView, LatentProxyEvalInputView),
    ThreadIdentity(ThreadIdentityRequestView),
    Correct(CorrectionInputView),
    VerifyClaim(VerifyClaimPlanView),
    LearningProposalsList(LearningProposalsRequestView),
    LearningProposalApply(i64, bool),
    LearningProposalsApplyReady(ApplyReadyInputView),
    LearningProposalSetStatus(ProposalStatusChangeView),
    ReviewQueue(ReviewQueueInputView),
    ReviewActions(ReviewActionPlanInputView),
    ReviewBatchTemplate(ReviewReportInputView),
    ReviewReport(ReviewReportInputView),
    ReviewDigest(ReviewDigestInputView),
    ReviewDigestAck(ReviewDigestAckInputView),
    ReviewRender(ReviewRenderInputView),
    ReviewDrain(ReviewDrainInputView),
    SchedulerRun,
    SemanticProposals(ProposalsFormat, SemanticLearningInputView),
    OpenDecisionProposals(OpenDecisionProposalInputView),
    ReviewAction(ReviewActionInputView),
    ReviewBatch(OperationsSourceView),
    Audit(EnvelopeArgsView),
    TrustAudit(TrustAuditInputView),
    HardeningReport(EnvelopeArgsView),
    Why(EnvelopeArgsView),
    CompareRanking(RankingSourceView),
}

impl DeepView for ContextRequest {
    type V = ContextRequestView;

    open spec fn deep_view(&self) -> ContextRequestView {
        match self {
            ContextRequest::Render(a, b) => ContextRequestView::Render(*a, b.deep_view()),
            ContextRequest::Prompt(a) => ContextRequestView::Prompt(a.deep_view()),
            ContextRequest::TaskFrame(a) => ContextRequestView::TaskFrame(a.deep_view()),
            ContextRequest::TaskFrameRetention => ContextRequestView::TaskFrameRetention,
            ContextRequest::TaskFrameOutcomes(a) =>
                ContextRequestView::TaskFrameOutcomes(a.deep_view()),
            ContextRequest::TaskFrameOutcome => ContextRequestView::TaskFrameOutcome,
            ContextRequest::L3Decay => ContextRequestView::L3Decay,
            ContextRequest::L2Promote(a) => ContextRequestView::L2Promote(a.deep_view()),
            ContextRequest::LatentPredict(a) => ContextRequestView::LatentPredict(a.deep_view()),
            ContextRequest::LatentPacket(a) => ContextRequestView::LatentPacket(a.deep_view()),
            ContextRequest::LatentEval(a, b) => ContextRequestView::LatentEval(
                a.deep_view(), b.deep_view()),
            ContextRequest::ThreadIdentity(a) => ContextRequestView::ThreadIdentity(a.deep_view()),
            ContextRequest::Correct(a) => ContextRequestView::Correct(a.deep_view()),
            ContextRequest::VerifyClaim(a) => ContextRequestView::VerifyClaim(a.deep_view()),
            ContextRequest::LearningProposalsList(a) =>
                ContextRequestView::LearningProposalsList(a.deep_view()),
            ContextRequest::LearningProposalApply(a, b) =>
                ContextRequestView::LearningProposalApply(*a, *b),
            ContextRequest::LearningProposalsApplyReady(a) =>
                ContextRequestView::LearningProposalsApplyReady(a.deep_view()),
            ContextRequest::LearningProposalSetStatus(a) =>
                ContextRequestView::LearningProposalSetStatus(a.deep_view()),
            ContextRequest::ReviewQueue(a) => ContextRequestView::ReviewQueue(a.deep_view()),
            ContextRequest::ReviewActions(a) => ContextRequestView::ReviewActions(a.deep_view()),
            ContextRequest::ReviewBatchTemplate(a) =>
                ContextRequestView::ReviewBatchTemplate(a.deep_view()),
            ContextRequest::ReviewReport(a) => ContextRequestView::ReviewReport(a.deep_view()),
            ContextRequest::ReviewDigest(a) => ContextRequestView::ReviewDigest(a.deep_view()),
            ContextRequest::ReviewDigestAck(a) =>
                ContextRequestView::ReviewDigestAck(a.deep_view()),
            ContextRequest::ReviewRender(a) => ContextRequestView::ReviewRender(a.deep_view()),
            ContextRequest::ReviewDrain(a) => ContextRequestView::ReviewDrain(a.deep_view()),
            ContextRequest::SchedulerRun => ContextRequestView::SchedulerRun,
            ContextRequest::SemanticProposals(a, b) =>
                ContextRequestView::SemanticProposals(*a, b.deep_view()),
            ContextRequest::OpenDecisionProposals(a) =>
                ContextRequestView::OpenDecisionProposals(a.deep_view()),
            ContextRequest::ReviewAction(a) => ContextRequestView::ReviewAction(a.deep_view()),
            ContextRequest::ReviewBatch(a) => ContextRequestView::ReviewBatch(a.deep_view()),
            ContextRequest::Audit(a) => ContextRequestView::Audit(a.deep_view()),
            ContextRequest::TrustAudit(a) => ContextRequestView::TrustAudit(a.deep_view()),
            ContextRequest::HardeningReport(a) =>
                ContextRequestView::HardeningReport(a.deep_view()),
            ContextRequest::Why(a) => ContextRequestView::Why(a.deep_view()),
            ContextRequest::CompareRanking(a) => ContextRequestView::CompareRanking(a.deep_view()),
        }
    }
}

pub open spec fn proposals_mode(mode: ContextLearningProposalMode) -> Result<
    ContextRequestView,
    ContextFault,
> {
    match mode {
        ContextLearningProposalMode::List(a) => match proposals_request(a.deep_view()) {
            Err(f) => Err(f),
            Ok(v) => Ok(ContextRequestView::LearningProposalsList(v)),
        },
        ContextLearningProposalMode::Apply(a) => Ok(
            ContextRequestView::LearningProposalApply(a.proposal_id, a.confirm_destructive),
        ),
        ContextLearningProposalMode::ApplyReady(a) => match apply_ready_input(a.deep_view()) {
            Err(f) => Err(f),
            Ok(v) => Ok(ContextRequestView::LearningProposalsApplyReady(v)),
        },
        ContextLearningProposalMode::SetStatus(a) => match status_change(a.deep_view()) {
            Err(f) => Err(f),
            Ok(v) => Ok(ContextRequestView::LearningProposalSetStatus(v)),
        },
    }
}

pub fn run_learning_proposals(args: &ContextLearningProposalsArgs) -> (r: Result<
    ContextRequest,
    ContextError,
>)
    ensures
        outcome(r) == proposals_mode(args.mode),
{
    match &args.mode {
        ContextLearningProposalMode::List(a) => match run_learning_proposals_list(a) {
            Err(e) => Err(e),
            Ok(v) => Ok(ContextRequest::LearningProposalsList(v)),
        },
        ContextLearningProposalMode::Apply(a) => Ok(
            ContextRequest::LearningProposalApply(a.proposal_id, a.confirm_destructive),
        ),
        ContextLearningProposalMode::ApplyReady(a) => match run_learning_proposals_apply_ready(a) {
            Err(e) => Err(e),
            Ok(v) => Ok(ContextRequest::LearningProposalsApplyReady(v)),
        },
        ContextLearningProposalMode::SetStatus(a) => match run_learning_proposals_set_status(a) {
            Err(e) => Err(e),
            Ok(v) => Ok(ContextRequest::LearningProposalSetStatus(v)),
        },
    }
}

/// What a call asks of the store, or why its flags are not valid.
pub open spec fn context_request(
    mode: ContextMode,
    project: Option<Seq<char>>,
    cwd: Option<Seq<char>>,
    opening: Result<(), Seq<char>>,
) -> Result<ContextRequestView, ContextFault> {
    match mode {
        ContextMode::Render(a) => match output_format(a.format@) {
            Err(f) => Err(f),
            Ok(format) => Ok(ContextRequestView::Render(format, a.envelope.deep_view())),
        },
        ContextMode::Prompt(a) => Ok(ContextRequestView::Prompt(a.envelope.deep_view())),
        ContextMode::TaskFrame(a) => Ok(
            ContextRequestView::TaskFrame(frame_input(a.deep_view(), project, cwd)),
        ),
        ContextMode::TaskFrames(a) => match a.mode {
            ContextTaskFramesMode::Retention(b) => match retainable(b.deep_view()) {
                Err(f) => Err(f),
                Ok(_) => Ok(ContextRequestView::TaskFrameRetention),
            },
            ContextTaskFramesMode::Outcomes(b) => match outcomes_request(b.deep_view()) {
                Err(f) => Err(f),
                Ok(v) => Ok(ContextRequestView::TaskFrameOutcomes(v)),
            },
        },
        ContextMode::TaskFrameOutcome(a) => Ok(ContextRequestView::TaskFrameOutcome),
        ContextMode::L3Decay(a) => match decayable(a.deep_view()) {
            Err(f) => Err(f),
            Ok(_) => Ok(ContextRequestView::L3Decay),
        },
        ContextMode::L2Promote(a) => match promotion_request(a.deep_view()) {
            Err(f) => Err(f),
            Ok(v) => Ok(ContextRequestView::L2Promote(v)),
        },
        ContextMode::LatentPredict(a) => match predict_request(a.deep_view()) {
            Err(f) => Err(f),
            Ok(v) => Ok(ContextRequestView::LatentPredict(v)),
        },
        ContextMode::LatentPacket(a) => match packet_request(a.deep_view()) {
            Err(f) => Err(f),
            Ok(v) => Ok(ContextRequestView::LatentPacket(v)),
        },
        ContextMode::LatentEval(a) => match eval_request(a.deep_view()) {
            Err(f) => Err(f),
            Ok((x, y)) => Ok(ContextRequestView::LatentEval(x, y)),
        },
        ContextMode::ThreadIdentity(a) => match identity_request(a.deep_view()) {
            Err(f) => Err(f),
            Ok(v) => Ok(ContextRequestView::ThreadIdentity(v)),
        },
        ContextMode::Correct(a) => match correction_input(a.deep_view(), project) {
            Err(f) => Err(f),
            Ok(v) => Ok(ContextRequestView::Correct(v)),
        },
        ContextMode::VerifyClaim(a) => match verification(a.deep_view(), opening) {
            Err(f) => Err(f),
            Ok(v) => Ok(ContextRequestView::VerifyClaim(v)),
        },
        ContextMode::LearningProposals(a) => proposals_mode(a.mode),
        ContextMode::ReviewQueue(a) => match queue_input(a.deep_view()) {
            Err(f) => Err(f),
            Ok(v) => Ok(ContextRequestView::ReviewQueue(v)),
        },
        ContextMode::ReviewActions(a) => match action_plan_input(a.deep_view()) {
            Err(f) => Err(f),
            Ok(v) => Ok(ContextRequestView::ReviewActions(v)),
        },
        ContextMode::ReviewBatchTemplate(a) => match report_input(template_flags(a.deep_view())) {
            Err(f) => Err(f),
            Ok(v) => Ok(ContextRequestView::ReviewBatchTemplate(v)),
        },
        ContextMode::ReviewReport(a) => match report_input(a.deep_view()) {
            Err(f) => Err(f),
            Ok(v) => Ok(ContextRequestView::ReviewReport(v)),
        },
        ContextMode::ReviewDigest(a) => match digest_input(a.deep_view()) {
            Err(f) => Err(f),
            Ok(v) => Ok(ContextRequestView::ReviewDigest(v)),
        },
        ContextMode::ReviewDigestAck(a) => match digest_ack_input(a.deep_view()) {
            Err(f) => Err(f),
            Ok(v) => Ok(ContextRequestView::ReviewDigestAck(v)),
        },
        ContextMode::ReviewRender(a) => match render_input(a.deep_view()) {
            Err(f) => Err(f),
            Ok(v) => Ok(ContextRequestView::ReviewRender(v)),
        },
        ContextMode::ReviewDrain(a) => match drain_input(a.deep_view()) {
            Err(f) => Err(f),
            Ok(v) => Ok(ContextRequestView::ReviewDrain(v)),
        },
        ContextMode::SchedulerRun(a) => match schedulable(a.deep_view()) {
            Err(f) => Err(f),
            Ok(_) => Ok(ContextRequestView::SchedulerRun),
        },
        ContextMode::SemanticProposals(a) => match semantic_request(a.deep_view()) {
            Err(f) => Err(f),
            Ok((x, y)) => Ok(ContextRequestView::SemanticProposals(x, y)),
        },
        ContextMode::OpenDecisionProposals(a) => match open_decision_input(a.deep_view()) {
            Err(f) => Err(f),
            Ok(v) => Ok(ContextRequestView::OpenDecisionProposals(v)),
        },
        ContextMode::ReviewAction(a) => match review_input(a.deep_view()) {
            Err(f) => Err(f),
            Ok(v) => Ok(ContextRequestView::ReviewAction(v)),
        },
        ContextMode::ReviewBatch(a) => match operations_source(a.deep_view()) {
            Err(f) => Err(f),
            Ok(v) => Ok(ContextRequestView::ReviewBatch(v)),
        },
        ContextMode::Audit(a) => Ok(ContextRequestView::Audit(a.envelope.deep_view())),
        ContextMode::TrustAudit(a) => match trust_audit_input(a.deep_view()) {
            Err(f) => Err(f),
            Ok(v) => Ok(ContextRequestView::TrustAudit(v)),
        },
        ContextMode::HardeningReport(a) => match hardenable(a.deep_view()) {
            Err(f) => Err(f),
            Ok(_) => Ok(ContextRequestView::HardeningReport(a.envelope.deep_view())),
        },
        ContextMode::Why(a) => Ok(ContextRequestView::Why(a.envelope.deep_view())),
        ContextMode::CompareRanking(a) => match comparison(a.deep_view(), opening) {
            Err(f) => Err(f),
            Ok(v) => Ok(ContextRequestView::CompareRanking(v)),
        },
    }
}

/// Begins one `soma context` call in the current project and directory. Whether the store
/// could be opened counts only where that is found out before the last flag is looked at.
pub fn run_context(
    args: &ContextArgs,
    project: Option<&str>,
    cwd: Option<&str>,
    opened: Result<(), StorageError>,
) -> (r: Result<ContextRequest, ContextError>)
    ensures
        outcome(r) == context_request(
            args.mode,
            project.deep_view(),
            cwd.deep_view(),
            opening(opened),
        ),
{
    match &args.mode {
        ContextMode::Render(a) => match OutputFormat::parse(a.format.as_str()) {
            Err(e) => Err(e),
            Ok(format) => Ok(ContextRequest::Render(format, a.envelope.dup())),
        },
        ContextMode::Prompt(a) => Ok(ContextRequest::Prompt(a.envelope.dup())),
        ContextMode::TaskFrame(a) => Ok(ContextRequest::TaskFrame(run_task_frame(a, project, cwd))),
        ContextMode::TaskFrames(a) => match &a.mode {
            ContextTaskFramesMode::Retention(b) => match check_retention(b) {
                Err(e) => Err(e),
                Ok(_) => Ok(ContextRequest::TaskFrameRetention),
            },
            ContextTaskFramesMode::Outcomes(b) => match run_task_frame_outcomes(b) {
                Err(e) => Err(e),
                Ok(v) => Ok(ContextRequest::TaskFrameOutcomes(v)),
            },
        },
        ContextMode::TaskFrameOutcome(a) => Ok(ContextRequest::TaskFrameOutcome),
        ContextMode::L3Decay(a) => match check_l3_decay(a) {
            Err(e) => Err(e),
            Ok(_) => Ok(ContextRequest::L3Decay),
        },
        ContextMode::L2Promote(a) => match run_l2_promote(a) {
            Err(e) => Err(e),
            Ok(v) => Ok(ContextRequest::L2Promote(v)),
        },
        ContextMode::LatentPredict(a) => match run_latent_predict(a) {
            Err(e) => Err(e),
            Ok(v) => Ok(ContextRequest::LatentPredict(v)),
        },
        ContextMode::LatentPacket(a) => match run_latent_packet(a) {
            Err(e) => Err(e),
            Ok(v) => Ok(ContextRequest::LatentPacket(v)),
        },
        ContextMode::LatentEval(a) => match run_latent_eval(a) {
            Err(e) => Err(e),
            Ok((x, y)) => Ok(ContextRequest::LatentEval(x, y)),
        },
        ContextMode::ThreadIdentity(a) => match run_thread_identity(a) {
            Err(e) => Err(e),
            Ok(v) => Ok(ContextRequest::ThreadIdentity(v)),
        },
        ContextMode::Correct(a) => match run_correct(a, project) {
            Err(e) => Err(e),
            Ok(v) => Ok(ContextRequest::Correct(v)),
        },
        ContextMode::VerifyClaim(a) => match run_verify_claim(a, opened) {
            Err(e) => Err(e),
            Ok(v) => Ok(ContextRequest::VerifyClaim(v)),
        },
        ContextMode::LearningProposals(a) => run_learning_proposals(a),
        ContextMode::ReviewQueue(a) => match run_review_queue(a) {
            Err(e) => Err(e),
            Ok(v) => Ok(ContextRequest::ReviewQueue(v)),
        },
        ContextMode::ReviewActions(a) => match run_review_actions(a) {
            Err(e) => Err(e),
            Ok(v) => Ok(ContextRequest::ReviewActions(v)),
        },
        ContextMode::ReviewBatchTemplate(a) => match run_review_batch_template(a) {
            Err(e) => Err(e),
            Ok(v) => Ok(ContextRequest::ReviewBatchTemplate(v)),
        },
        ContextMode::ReviewReport(a) => match run_review_report(a) {
            Err(e) => Err(e),
            Ok(v) => Ok(ContextRequest::ReviewReport(v)),
        },
        ContextMode::ReviewDigest(a) => match run_review_digest(a) {
            Err(e) => Err(e),
            Ok(v) => Ok(ContextRequest::ReviewDigest(v)),
        },
        ContextMode::ReviewDigestAck(a) => match run_review_digest_ack(a) {
            Err(e) => Err(e),
            Ok(v) => Ok(ContextRequest::ReviewDigestAck(v)),
        },
        ContextMode::ReviewRender(a) => match run_review_render(a) {
            Err(e) => Err(e),
            Ok(v) => Ok(ContextRequest::ReviewRender(v)),
        },
        ContextMode::ReviewDrain(a) => match run_review_drain(a) {
            Err(e) => Err(e),
            Ok(v) => Ok(ContextRequest::ReviewDrain(v)),
        },
        ContextMode::SchedulerRun(a) => match check_scheduler(a) {
            Err(e) => Err(e),
            Ok(_) => Ok(ContextRequest::SchedulerRun),
        },
        ContextMode::SemanticProposals(a) => match run_semantic_proposals(a) {
            Err(e) => Err(e),
            Ok((x, y)) => Ok(ContextRequest::SemanticProposals(x, y)),
        },
        ContextMode::OpenDecisionProposals(a) => match run_open_decision_proposals(a) {
            Err(e) => Err(e),
            Ok(v) => Ok(ContextRequest::OpenDecisionProposals(v)),
        },
        ContextMode::ReviewAction(a) => match run_review_action(a) {
            Err(e) => Err(e),
            Ok(v) => Ok(ContextRequest::ReviewAction(v)),
        },
        ContextMode::ReviewBatch(a) => match review_batch_operations_from_cli(a) {
            Err(e) => Err(e),
            Ok(v) => Ok(ContextRequest::ReviewBatch(v)),
        },
        ContextMode::Audit(a) => Ok(ContextRequest::Audit(a.envelope.dup())),
        ContextMode::TrustAudit(a) => match run_trust_audit(a) {
            Err(e) => Err(e),
            Ok(v) => Ok(ContextRequest::TrustAudit(v)),
        },
        ContextMode::HardeningReport(a) => match check_hardening(a) {
            Err(e) => Err(e),
            Ok(_) => Ok(ContextRequest::HardeningReport(a.envelope.dup())),
        },
        ContextMode::Why(a) => Ok(ContextRequest::Why(a.envelope.dup())),
        ContextMode::CompareRanking(a) => match run_compare_ranking(a, opened) {
            Err(e) => Err(e),
            Ok(v) => Ok(ContextRequest::CompareRanking(v)),
        },
    }
}

// ---------------------------------------------------------------------------
// Laws
// ---------------------------------------------------------------------------

/// No command that lists or works off rows is begun with a limit of zero.
pub proof fn law_no_call_asks_for_nothing(
    mode: ContextMode,
    project: Option<Seq<char>>,
    cwd: Option<Seq<char>>,
    opening: Result<(), Seq<char>>,
)
    ensures
        match context_request(mode, project, cwd, opening) {
            Ok(ContextRequestView::TaskFrameOutcomes(r)) => r.limit > 0,
            Ok(ContextRequestView::L2Promote(r)) => r.limit > 0,
            Ok(ContextRequestView::LatentPredict(r)) => r.scan_limit >= r.limit > 0,
            Ok(ContextRequestView::LatentPacket(r)) => r.scan_limit >= r.limit > 0,
            Ok(ContextRequestView::LatentEval(_, r)) => r.scan_limit >= r.limit > 0
                && r.case_limit > 0,
            Ok(ContextRequestView::LearningProposalsList(r)) => r.limit > 0,
            Ok(ContextRequestView::LearningProposalsApplyReady(r)) => r.limit > 0,
            Ok(ContextRequestView::ReviewQueue(r)) => r.limit > 0,
            Ok(ContextRequestView::ReviewActions(r)) => r.limit > 0,
            Ok(ContextRequestView::ReviewBatchTemplate(r)) => r.limit > 0,
            Ok(ContextRequestView::ReviewReport(r)) => r.limit > 0,
            Ok(ContextRequestView::ReviewDigest(r)) => r.limit > 0,
            Ok(ContextRequestView::ReviewDigestAck(r)) => r.limit > 0,
            Ok(ContextRequestView::ReviewRender(r)) => r.limit > 0,
            Ok(ContextRequestView::ReviewDrain(r)) => r.limit > 0,
            Ok(ContextRequestView::SemanticProposals(_, r)) => r.limit > 0 && r.min_support >= 2,
            Ok(ContextRequestView::OpenDecisionProposals(r)) => r.limit > 0,
            _ => true,
        },
{
}

}
