//! What the `soma context` commands ask of the store.
//!
//! Each command checks its flags first. What is not valid is refused before the store is
//! opened.
use super::args::{
    Confidence, ConfidenceView, ContextCorrectArgs, ContextCorrectArgsView,
    ContextHardeningReportArgs, ContextHardeningReportArgsView, ContextL2PromoteArgs,
    ContextL2PromoteArgsView, ContextL3DecayArgs, ContextL3DecayArgsView, ContextLatentEvalArgs,
    ContextLatentEvalArgsView, ContextLatentPacketArgs, ContextLatentPacketArgsView,
    ContextLatentPredictArgs, ContextLatentPredictArgsView, ContextLearningProposalApplyReadyArgs,
    ContextLearningProposalApplyReadyArgsView, ContextLearningProposalListArgs,
    ContextLearningProposalListArgsView, ContextLearningProposalSetStatusArgs,
    ContextLearningProposalSetStatusArgsView, ContextOpenDecisionProposalsArgs,
    ContextOpenDecisionProposalsArgsView, ContextReviewActionsArgs, ContextReviewActionsArgsView,
    ContextReviewBatchTemplateArgs, ContextReviewBatchTemplateArgsView, ContextReviewDigestAckArgs,
    ContextReviewDigestAckArgsView, ContextReviewDigestArgs, ContextReviewDigestArgsView,
    ContextReviewDrainArgs, ContextReviewDrainArgsView, ContextReviewQueueArgs,
    ContextReviewQueueArgsView, ContextReviewRenderArgs, ContextReviewRenderArgsView,
    ContextReviewReportArgs, ContextReviewReportArgsView, ContextSchedulerRunArgs,
    ContextSchedulerRunArgsView, ContextSemanticProposalsArgs, ContextSemanticProposalsArgsView,
    ContextTaskFrameArgs, ContextTaskFrameArgsView, ContextTaskFrameOutcomeArgs,
    ContextTaskFrameOutcomeArgsView, ContextTaskFrameOutcomesArgs, ContextTaskFrameOutcomesArgsView,
    ContextTaskFrameRetentionArgs, ContextTaskFrameRetentionArgsView, ContextTrustAuditArgs,
    ContextTrustAuditArgsView,
};
use super::error::{bad, bad_format, ContextError, ContextFault};
use super::tokens::{
    parse_learning_proposal_status, parse_review_batch_template_action,
    parse_review_batch_template_target_type, parse_verifier_type, status_of, template_action,
    template_target, verifier_of, verifier_type_name, LearningCriticProposalStatus,
};
use crate::cli::adapter_cloud_output::{TaskFrameBuildInput, TaskFrameBuildInputView};
use crate::dup::Dup;
use crate::json::{opt_text, Json, JsonView, Members};
use crate::outcome::{borrowed, copy_text, first, outcome, owned, verdict};
use crate::storage::StorageError;
use crate::text::{cat2, cat3, none, same, trim, trimmed, with};
use vstd::prelude::*;
use vstd::string::*;

verus! {

/// Which task frames are to be dropped.
#[derive(Debug)]
pub struct TaskFrameRetentionRequest {
    pub cutoff_ns: i64,
    pub retention_days: i64,
    pub project: Option<String>,
    pub session_id: Option<String>,
    pub apply: bool,
}

/// What a `TaskFrameRetentionRequest` holds.
#[verifier::ext_equal]
pub struct TaskFrameRetentionRequestView {
    pub cutoff_ns: i64,
    pub retention_days: i64,
    pub project: Option<Seq<char>>,
    pub session_id: Option<Seq<char>>,
    pub apply: bool,
}

impl DeepView for TaskFrameRetentionRequest {
    type V = TaskFrameRetentionRequestView;

    open spec fn deep_view(&self) -> TaskFrameRetentionRequestView {
        TaskFrameRetentionRequestView {
            cutoff_ns: self.cutoff_ns,
            retention_days: self.retention_days,
            project: self.project.deep_view(),
            session_id: self.session_id.deep_view(),
            apply: self.apply,
        }
    }
}

/// Which outcomes of task frames are to be listed.
#[derive(Debug)]
pub struct TaskFrameOutcomesRequest {
    pub project: Option<String>,
    pub session_id: Option<String>,
    pub task_frame_id: Option<i64>,
    pub limit: usize,
}

/// What a `TaskFrameOutcomesRequest` holds.
#[verifier::ext_equal]
pub struct TaskFrameOutcomesRequestView {
    pub project: Option<Seq<char>>,
    pub session_id: Option<Seq<char>>,
    pub task_frame_id: Option<i64>,
    pub limit: usize,
}

impl DeepView for TaskFrameOutcomesRequest {
    type V = TaskFrameOutcomesRequestView;

    open spec fn deep_view(&self) -> TaskFrameOutcomesRequestView {
        TaskFrameOutcomesRequestView {
            project: self.project.deep_view(),
            session_id: self.session_id.deep_view(),
            task_frame_id: self.task_frame_id.deep_view(),
            limit: self.limit,
        }
    }
}

/// Which short-term memories are to become long-term ones.
#[derive(Debug)]
pub struct ShortTermProxyPromotionRequest {
    pub project: Option<String>,
    pub session_id: Option<String>,
    pub dry_run: bool,
    pub min_confidence: Confidence,
    pub anomaly_min_confidence: Confidence,
    pub min_repeated_support: usize,
    pub manual_proxy_ids: Vec<i64>,
    pub reason: String,
    pub limit: usize,
}

/// What a `ShortTermProxyPromotionRequest` holds.
#[verifier::ext_equal]
pub struct ShortTermProxyPromotionRequestView {
    pub project: Option<Seq<char>>,
    pub session_id: Option<Seq<char>>,
    pub dry_run: bool,
    pub min_confidence: ConfidenceView,
    pub anomaly_min_confidence: ConfidenceView,
    pub min_repeated_support: usize,
    pub manual_proxy_ids: Seq<i64>,
    pub reason: Seq<char>,
    pub limit: usize,
}

impl DeepView for ShortTermProxyPromotionRequest {
    type V = ShortTermProxyPromotionRequestView;

    open spec fn deep_view(&self) -> ShortTermProxyPromotionRequestView {
        ShortTermProxyPromotionRequestView {
            project: self.project.deep_view(),
            session_id: self.session_id.deep_view(),
            dry_run: self.dry_run,
            min_confidence: self.min_confidence.deep_view(),
            anomaly_min_confidence: self.anomaly_min_confidence.deep_view(),
            min_repeated_support: self.min_repeated_support,
            manual_proxy_ids: self.manual_proxy_ids.deep_view(),
            reason: self.reason.deep_view(),
            limit: self.limit,
        }
    }
}

/// What is to be predicted, and from how many memories.
#[derive(Debug)]
pub struct LatentProxyPredictionInput {
    pub query: Option<String>,
    pub project: Option<String>,
    pub session_id: Option<String>,
    pub limit: usize,
    pub scan_limit: usize,
    pub min_confidence: Confidence,
}

/// What a `LatentProxyPredictionInput` holds.
#[verifier::ext_equal]
pub struct LatentProxyPredictionInputView {
    pub query: Option<Seq<char>>,
    pub project: Option<Seq<char>>,
    pub session_id: Option<Seq<char>>,
    pub limit: usize,
    pub scan_limit: usize,
    pub min_confidence: ConfidenceView,
}

impl DeepView for LatentProxyPredictionInput {
    type V = LatentProxyPredictionInputView;

    open spec fn deep_view(&self) -> LatentProxyPredictionInputView {
        LatentProxyPredictionInputView {
            query: self.query.deep_view(),
            project: self.project.deep_view(),
            session_id: self.session_id.deep_view(),
            limit: self.limit,
            scan_limit: self.scan_limit,
            min_confidence: self.min_confidence.deep_view(),
        }
    }
}

/// A claim and what is right instead.
#[derive(Debug)]
pub struct CorrectionInput {
    pub claim: String,
    pub correction: String,
    pub project: Option<String>,
    pub session_id: Option<String>,
}

/// What a `CorrectionInput` holds.
#[verifier::ext_equal]
pub struct CorrectionInputView {
    pub claim: Seq<char>,
    pub correction: Seq<char>,
    pub project: Option<Seq<char>>,
    pub session_id: Option<Seq<char>>,
}

impl DeepView for CorrectionInput {
    type V = CorrectionInputView;

    open spec fn deep_view(&self) -> CorrectionInputView {
        CorrectionInputView {
            claim: self.claim.deep_view(),
            correction: self.correction.deep_view(),
            project: self.project.deep_view(),
            session_id: self.session_id.deep_view(),
        }
    }
}

/// Which proposals that are ready are to be applied.
#[derive(Debug)]
pub struct ApplyReadyInput {
    pub project: Option<String>,
    pub session_id: Option<String>,
    pub limit: usize,
    pub dry_run: bool,
    pub include_decay: bool,
    pub include_noop: bool,
}

/// What an `ApplyReadyInput` holds.
#[verifier::ext_equal]
pub struct ApplyReadyInputView {
    pub project: Option<Seq<char>>,
    pub session_id: Option<Seq<char>>,
    pub limit: usize,
    pub dry_run: bool,
    pub include_decay: bool,
    pub include_noop: bool,
}

impl DeepView for ApplyReadyInput {
    type V = ApplyReadyInputView;

    open spec fn deep_view(&self) -> ApplyReadyInputView {
        ApplyReadyInputView {
            project: self.project.deep_view(),
            session_id: self.session_id.deep_view(),
            limit: self.limit,
            dry_run: self.dry_run,
            include_decay: self.include_decay,
            include_noop: self.include_noop,
        }
    }
}

/// What is to be listed of the review queue.
#[derive(Debug)]
pub struct ReviewQueueInput {
    pub project: Option<String>,
    pub session_id: Option<String>,
    pub limit: usize,
}

/// What a `ReviewQueueInput` holds.
#[verifier::ext_equal]
pub struct ReviewQueueInputView {
    pub project: Option<Seq<char>>,
    pub session_id: Option<Seq<char>>,
    pub limit: usize,
}

impl DeepView for ReviewQueueInput {
    type V = ReviewQueueInputView;

    open spec fn deep_view(&self) -> ReviewQueueInputView {
        ReviewQueueInputView {
            project: self.project.deep_view(),
            session_id: self.session_id.deep_view(),
            limit: self.limit,
        }
    }
}

/// What is to be listed of the actions that can be taken in a review.
#[derive(Debug)]
pub struct ReviewActionPlanInput {
    pub project: Option<String>,
    pub session_id: Option<String>,
    pub limit: usize,
    pub include_disabled: bool,
}

/// What a `ReviewActionPlanInput` holds.
#[verifier::ext_equal]
pub struct ReviewActionPlanInputView {
    pub project: Option<Seq<char>>,
    pub session_id: Option<Seq<char>>,
    pub limit: usize,
    pub include_disabled: bool,
}

impl DeepView for ReviewActionPlanInput {
    type V = ReviewActionPlanInputView;

    open spec fn deep_view(&self) -> ReviewActionPlanInputView {
        ReviewActionPlanInputView {
            project: self.project.deep_view(),
            session_id: self.session_id.deep_view(),
            limit: self.limit,
            include_disabled: self.include_disabled,
        }
    }
}

/// What a digest of the review queue is to hold.
#[derive(Debug)]
pub struct ReviewDigestInput {
    pub project: Option<String>,
    pub session_id: Option<String>,
    pub limit: usize,
    pub client: Option<String>,
    pub include_queue_only: bool,
}

/// What a `ReviewDigestInput` holds.
#[verifier::ext_equal]
pub struct ReviewDigestInputView {
    pub project: Option<Seq<char>>,
    pub session_id: Option<Seq<char>>,
    pub limit: usize,
    pub client: Option<Seq<char>>,
    pub include_queue_only: bool,
}

impl DeepView for ReviewDigestInput {
    type V = ReviewDigestInputView;

    open spec fn deep_view(&self) -> ReviewDigestInputView {
        ReviewDigestInputView {
            project: self.project.deep_view(),
            session_id: self.session_id.deep_view(),
            limit: self.limit,
            client: self.client.deep_view(),
            include_queue_only: self.include_queue_only,
        }
    }
}

/// Which digest has been seen.
#[derive(Debug)]
pub struct ReviewDigestAckInput {
    pub project: Option<String>,
    pub session_id: Option<String>,
    pub limit: usize,
    pub client: Option<String>,
    pub batch_key: Option<String>,
    pub cooldown_seconds: i64,
}

/// What a `ReviewDigestAckInput` holds.
#[verifier::ext_equal]
pub struct ReviewDigestAckInputView {
    pub project: Option<Seq<char>>,
    pub session_id: Option<Seq<char>>,
    pub limit: usize,
    pub client: Option<Seq<char>>,
    pub batch_key: Option<Seq<char>>,
    pub cooldown_seconds: i64,
}

impl DeepView for ReviewDigestAckInput {
    type V = ReviewDigestAckInputView;

    open spec fn deep_view(&self) -> ReviewDigestAckInputView {
        ReviewDigestAckInputView {
            project: self.project.deep_view(),
            session_id: self.session_id.deep_view(),
            limit: self.limit,
            client: self.client.deep_view(),
            batch_key: self.batch_key.deep_view(),
            cooldown_seconds: self.cooldown_seconds,
        }
    }
}

/// What a client is to show of the review queue.
#[derive(Debug)]
pub struct ReviewRenderInput {
    pub project: Option<String>,
    pub session_id: Option<String>,
    pub limit: usize,
    pub client: Option<String>,
    pub include_disabled: bool,
}

/// What a `ReviewRenderInput` holds.
#[verifier::ext_equal]
pub struct ReviewRenderInputView {
    pub project: Option<Seq<char>>,
    pub session_id: Option<Seq<char>>,
    pub limit: usize,
    pub client: Option<Seq<char>>,
    pub include_disabled: bool,
}

impl DeepView for ReviewRenderInput {
    type V = ReviewRenderInputView;

    open spec fn deep_view(&self) -> ReviewRenderInputView {
        ReviewRenderInputView {
            project: self.project.deep_view(),
            session_id: self.session_id.deep_view(),
            limit: self.limit,
            client: self.client.deep_view(),
            include_disabled: self.include_disabled,
        }
    }
}

/// How much of the review queue is to be worked off.
#[derive(Debug)]
pub struct ReviewDrainInput {
    pub project: Option<String>,
    pub session_id: Option<String>,
    pub limit: usize,
    pub dry_run: bool,
}

/// What a `ReviewDrainInput` holds.
#[verifier::ext_equal]
pub struct ReviewDrainInputView {
    pub project: Option<Seq<char>>,
    pub session_id: Option<Seq<char>>,
    pub limit: usize,
    pub dry_run: bool,
}

impl DeepView for ReviewDrainInput {
    type V = ReviewDrainInputView;

    open spec fn deep_view(&self) -> ReviewDrainInputView {
        ReviewDrainInputView {
            project: self.project.deep_view(),
            session_id: self.session_id.deep_view(),
            limit: self.limit,
            dry_run: self.dry_run,
        }
    }
}

/// For which open decisions a review is to be proposed.
#[derive(Debug)]
pub struct OpenDecisionProposalInput {
    pub project: Option<String>,
    pub session_id: Option<String>,
    pub limit: usize,
    pub dry_run: bool,
}

/// What an `OpenDecisionProposalInput` holds.
#[verifier::ext_equal]
pub struct OpenDecisionProposalInputView {
    pub project: Option<Seq<char>>,
    pub session_id: Option<Seq<char>>,
    pub limit: usize,
    pub dry_run: bool,
}

impl DeepView for OpenDecisionProposalInput {
    type V = OpenDecisionProposalInputView;

    open spec fn deep_view(&self) -> OpenDecisionProposalInputView {
        OpenDecisionProposalInputView {
            project: self.project.deep_view(),
            session_id: self.session_id.deep_view(),
            limit: self.limit,
            dry_run: self.dry_run,
        }
    }
}

/// Which part of the store is to be audited.
#[derive(Debug)]
pub struct TrustAuditInput {
    pub project: Option<String>,
    pub session_id: Option<String>,
    pub limit: usize,
}

/// What a `TrustAuditInput` holds.
#[verifier::ext_equal]
pub struct TrustAuditInputView {
    pub project: Option<Seq<char>>,
    pub session_id: Option<Seq<char>>,
    pub limit: usize,
}

impl DeepView for TrustAuditInput {
    type V = TrustAuditInputView;

    open spec fn deep_view(&self) -> TrustAuditInputView {
        TrustAuditInputView {
            project: self.project.deep_view(),
            session_id: self.session_id.deep_view(),
            limit: self.limit,
        }
    }
}

/// What the scheduler is to do now.
#[derive(Debug)]
pub struct SchedulerControlInput {
    pub project: Option<String>,
    pub session_id: Option<String>,
    pub limit: usize,
    pub semantic_min_support: usize,
    pub l2_promotion_min_confidence: Confidence,
    pub l2_promotion_anomaly_min_confidence: Confidence,
    pub l2_promotion_min_repeated_support: usize,
    pub l2_promotion_reason: String,
    pub l3_decay_cutoff_ns: i64,
    pub l3_decay_max_access_count: i64,
    pub l3_decay_reason: String,
    pub task_frame_retention_cutoff_ns: i64,
    pub task_frame_retention_days: i64,
    pub task_frame_retention_reason: String,
    pub dry_run: bool,
    pub passes: Vec<String>,
}

/// What a `SchedulerControlInput` holds.
#[verifier::ext_equal]
pub struct SchedulerControlInputView {
    pub project: Option<Seq<char>>,
    pub session_id: Option<Seq<char>>,
    pub limit: usize,
    pub semantic_min_support: usize,
    pub l2_promotion_min_confidence: ConfidenceView,
    pub l2_promotion_anomaly_min_confidence: ConfidenceView,
    pub l2_promotion_min_repeated_support: usize,
    pub l2_promotion_reason: Seq<char>,
    pub l3_decay_cutoff_ns: i64,
    pub l3_decay_max_access_count: i64,
    pub l3_decay_reason: Seq<char>,
    pub task_frame_retention_cutoff_ns: i64,
    pub task_frame_retention_days: i64,
    pub task_frame_retention_reason: Seq<char>,
    pub dry_run: bool,
    pub passes: Seq<Seq<char>>,
}

impl DeepView for SchedulerControlInput {
    type V = SchedulerControlInputView;

    open spec fn deep_view(&self) -> SchedulerControlInputView {
        SchedulerControlInputView {
            project: self.project.deep_view(),
            session_id: self.session_id.deep_view(),
            limit: self.limit,
            semantic_min_support: self.semantic_min_support,
            l2_promotion_min_confidence: self.l2_promotion_min_confidence.deep_view(),
            l2_promotion_anomaly_min_confidence: self.l2_promotion_anomaly_min_confidence.deep_view(),
            l2_promotion_min_repeated_support: self.l2_promotion_min_repeated_support,
            l2_promotion_reason: self.l2_promotion_reason.deep_view(),
            l3_decay_cutoff_ns: self.l3_decay_cutoff_ns,
            l3_decay_max_access_count: self.l3_decay_max_access_count,
            l3_decay_reason: self.l3_decay_reason.deep_view(),
            task_frame_retention_cutoff_ns: self.task_frame_retention_cutoff_ns,
            task_frame_retention_days: self.task_frame_retention_days,
            task_frame_retention_reason: self.task_frame_retention_reason.deep_view(),
            dry_run: self.dry_run,
            passes: self.passes.deep_view(),
        }
    }
}

/// The reasons that are given where none is said.
#[derive(Debug)]
pub struct SchedulerDefaults {
    pub l2_promotion_reason: String,
    pub l3_decay_reason: String,
    pub task_frame_retention_reason: String,
}

/// What a `SchedulerDefaults` holds.
#[verifier::ext_equal]
pub struct SchedulerDefaultsView {
    pub l2_promotion_reason: Seq<char>,
    pub l3_decay_reason: Seq<char>,
    pub task_frame_retention_reason: Seq<char>,
}

impl DeepView for SchedulerDefaults {
    type V = SchedulerDefaultsView;

    open spec fn deep_view(&self) -> SchedulerDefaultsView {
        SchedulerDefaultsView {
            l2_promotion_reason: self.l2_promotion_reason.deep_view(),
            l3_decay_reason: self.l3_decay_reason.deep_view(),
            task_frame_retention_reason: self.task_frame_retention_reason.deep_view(),
        }
    }
}

/// What a verification rests on.
#[derive(Debug)]
pub struct StoredEvidenceRef {
    pub kind: String,
    pub id: String,
    pub source: Option<String>,
}

/// What a `StoredEvidenceRef` holds.
#[verifier::ext_equal]
pub struct StoredEvidenceRefView {
    pub kind: Seq<char>,
    pub id: Seq<char>,
    pub source: Option<Seq<char>>,
}

impl DeepView for StoredEvidenceRef {
    type V = StoredEvidenceRefView;

    open spec fn deep_view(&self) -> StoredEvidenceRefView {
        StoredEvidenceRefView {
            kind: self.kind.deep_view(),
            id: self.id.deep_view(),
            source: self.source.deep_view(),
        }
    }
}

impl Dup for StoredEvidenceRef {
    fn dup(&self) -> (r: Self) {
        StoredEvidenceRef {
            kind: self.kind.dup(),
            id: self.id.dup(),
            source: self.source.dup(),
        }
    }
}

/// What became of a task frame.
#[derive(Debug)]
pub struct TaskFrameOutcomeDraft {
    pub task_frame_id: i64,
    pub outcome_type: String,
    pub summary: String,
    pub evidence_refs: Vec<StoredEvidenceRef>,
    pub claim_ids: Vec<i64>,
    pub proposal_ids: Vec<i64>,
    pub latent_proxy_ids: Vec<i64>,
}

/// What a `TaskFrameOutcomeDraft` holds.
#[verifier::ext_equal]
pub struct TaskFrameOutcomeDraftView {
    pub task_frame_id: i64,
    pub outcome_type: Seq<char>,
    pub summary: Seq<char>,
    pub evidence_refs: Seq<StoredEvidenceRefView>,
    pub claim_ids: Seq<i64>,
    pub proposal_ids: Seq<i64>,
    pub latent_proxy_ids: Seq<i64>,
}

impl DeepView for TaskFrameOutcomeDraft {
    type V = TaskFrameOutcomeDraftView;

    open spec fn deep_view(&self) -> TaskFrameOutcomeDraftView {
        TaskFrameOutcomeDraftView {
            task_frame_id: self.task_frame_id,
            outcome_type: self.outcome_type.deep_view(),
            summary: self.summary.deep_view(),
            evidence_refs: self.evidence_refs.deep_view(),
            claim_ids: self.claim_ids.deep_view(),
            proposal_ids: self.proposal_ids.deep_view(),
            latent_proxy_ids: self.latent_proxy_ids.deep_view(),
        }
    }
}

/// Which long-term memories are to decay.
#[derive(Debug)]
pub struct DecayRequest {
    pub cutoff_ns: i64,
    pub cutoff_source: String,
    pub max_access_count: i64,
    pub reason: String,
    pub dry_run: bool,
    pub limit: usize,
}

/// What a `DecayRequest` holds.
#[verifier::ext_equal]
pub struct DecayRequestView {
    pub cutoff_ns: i64,
    pub cutoff_source: Seq<char>,
    pub max_access_count: i64,
    pub reason: Seq<char>,
    pub dry_run: bool,
    pub limit: usize,
}

impl DeepView for DecayRequest {
    type V = DecayRequestView;

    open spec fn deep_view(&self) -> DecayRequestView {
        DecayRequestView {
            cutoff_ns: self.cutoff_ns,
            cutoff_source: self.cutoff_source.deep_view(),
            max_access_count: self.max_access_count,
            reason: self.reason.deep_view(),
            dry_run: self.dry_run,
            limit: self.limit,
        }
    }
}

/// How the prediction of memories is to be evaluated.
#[derive(Debug)]
pub struct LatentProxyEvalInput {
    pub project: Option<String>,
    pub session_id: Option<String>,
    pub limit: usize,
    pub scan_limit: usize,
    pub case_limit: usize,
    pub min_confidence: Confidence,
    pub case_source: String,
}

/// What a `LatentProxyEvalInput` holds.
#[verifier::ext_equal]
pub struct LatentProxyEvalInputView {
    pub project: Option<Seq<char>>,
    pub session_id: Option<Seq<char>>,
    pub limit: usize,
    pub scan_limit: usize,
    pub case_limit: usize,
    pub min_confidence: ConfidenceView,
    pub case_source: Seq<char>,
}

impl DeepView for LatentProxyEvalInput {
    type V = LatentProxyEvalInputView;

    open spec fn deep_view(&self) -> LatentProxyEvalInputView {
        LatentProxyEvalInputView {
            project: self.project.deep_view(),
            session_id: self.session_id.deep_view(),
            limit: self.limit,
            scan_limit: self.scan_limit,
            case_limit: self.case_limit,
            min_confidence: self.min_confidence.deep_view(),
            case_source: self.case_source.deep_view(),
        }
    }
}

/// Which proposals of the learning critic are to be listed.
#[derive(Debug)]
pub struct LearningProposalsRequest {
    pub project: Option<String>,
    pub session_id: Option<String>,
    pub status: Option<LearningCriticProposalStatus>,
    pub limit: usize,
}

/// What a `LearningProposalsRequest` holds.
#[verifier::ext_equal]
pub struct LearningProposalsRequestView {
    pub project: Option<Seq<char>>,
    pub session_id: Option<Seq<char>>,
    pub status: Option<LearningCriticProposalStatus>,
    pub limit: usize,
}

impl DeepView for LearningProposalsRequest {
    type V = LearningProposalsRequestView;

    open spec fn deep_view(&self) -> LearningProposalsRequestView {
        LearningProposalsRequestView {
            project: self.project.deep_view(),
            session_id: self.session_id.deep_view(),
            status: self.status.deep_view(),
            limit: self.limit,
        }
    }
}

/// The state that a proposal is to have, and what is noted beside it.
#[derive(Debug)]
pub struct ProposalStatusChange {
    pub proposal_id: i64,
    pub status: LearningCriticProposalStatus,
    pub result: Json,
}

/// What a `ProposalStatusChange` holds.
#[verifier::ext_equal]
pub struct ProposalStatusChangeView {
    pub proposal_id: i64,
    pub status: LearningCriticProposalStatus,
    pub result: JsonView,
}

impl DeepView for ProposalStatusChange {
    type V = ProposalStatusChangeView;

    open spec fn deep_view(&self) -> ProposalStatusChangeView {
        ProposalStatusChangeView {
            proposal_id: self.proposal_id,
            status: self.status,
            result: self.result.deep_view(),
        }
    }
}

/// What a review report, or a template for a batch of actions, is to hold. Actions that cannot
/// be taken count only in a report.
#[derive(Debug)]
pub struct ReviewReportInput {
    pub project: Option<String>,
    pub session_id: Option<String>,
    pub limit: usize,
    pub include_disabled: bool,
    pub action: String,
    pub target_type: Option<String>,
    pub verifier_type: Option<String>,
    pub evidence_kind: Option<String>,
    pub evidence_id: Option<String>,
    pub evidence_source: Option<String>,
}

/// What a `ReviewReportInput` holds.
#[verifier::ext_equal]
pub struct ReviewReportInputView {
    pub project: Option<Seq<char>>,
    pub session_id: Option<Seq<char>>,
    pub limit: usize,
    pub include_disabled: bool,
    pub action: Seq<char>,
    pub target_type: Option<Seq<char>>,
    pub verifier_type: Option<Seq<char>>,
    pub evidence_kind: Option<Seq<char>>,
    pub evidence_id: Option<Seq<char>>,
    pub evidence_source: Option<Seq<char>>,
}

impl DeepView for ReviewReportInput {
    type V = ReviewReportInputView;

    open spec fn deep_view(&self) -> ReviewReportInputView {
        ReviewReportInputView {
            project: self.project.deep_view(),
            session_id: self.session_id.deep_view(),
            limit: self.limit,
            include_disabled: self.include_disabled,
            action: self.action.deep_view(),
            target_type: self.target_type.deep_view(),
            verifier_type: self.verifier_type.deep_view(),
            evidence_kind: self.evidence_kind.deep_view(),
            evidence_id: self.evidence_id.deep_view(),
            evidence_source: self.evidence_source.deep_view(),
        }
    }
}

/// Which claims are to be brought together.
#[derive(Debug)]
pub struct SemanticLearningInput {
    pub project: Option<String>,
    pub session_id: Option<String>,
    pub limit: usize,
    pub min_support: usize,
    pub dry_run: bool,
}

/// What a `SemanticLearningInput` holds.
#[verifier::ext_equal]
pub struct SemanticLearningInputView {
    pub project: Option<Seq<char>>,
    pub session_id: Option<Seq<char>>,
    pub limit: usize,
    pub min_support: usize,
    pub dry_run: bool,
}

impl DeepView for SemanticLearningInput {
    type V = SemanticLearningInputView;

    open spec fn deep_view(&self) -> SemanticLearningInputView {
        SemanticLearningInputView {
            project: self.project.deep_view(),
            session_id: self.session_id.deep_view(),
            limit: self.limit,
            min_support: self.min_support,
            dry_run: self.dry_run,
        }
    }
}

/// A text of its own, else another.
fn either(a: &Option<String>, b: Option<&str>) -> (r: Option<String>)
    ensures
        r.deep_view() == first(a.deep_view(), b.deep_view()),
{
    match a {
        Some(s) => Some(s.clone()),
        None => owned(b),
    }
}

/// What is said, trimmed, else what is said by default.
pub open spec fn said_or(said: Seq<char>, default: Seq<char>) -> Seq<char> {
    if trimmed(said).len() == 0 {
        default
    } else {
        trimmed(said)
    }
}

fn said_text_or(said: &str, default: &str) -> (r: String)
    ensures
        r@ == said_or(said@, default@),
{
    let t = trim(said);
    if t.is_empty() {
        default.to_string()
    } else {
        t.to_string()
    }
}

pub open spec fn num_or(n: Option<i64>, default: i64) -> i64 {
    match n {
        Some(n) => n,
        None => default,
    }
}

fn number_or(n: Option<i64>, default: i64) -> (r: i64)
    ensures
        r == num_or(n, default),
{
    match n {
        Some(n) => n,
        None => default,
    }
}

pub open spec fn retention_request(
    args: ContextTaskFrameRetentionArgsView,
    cutoff_ns: i64,
) -> Result<TaskFrameRetentionRequestView, ContextFault> {
    match retainable(args) {
        Err(f) => Err(f),
        Ok(_) => Ok(TaskFrameRetentionRequestView {
            cutoff_ns: cutoff_ns,
            retention_days: args.older_than_days,
            project: args.project,
            session_id: args.session_id,
            apply: args.apply,
        }),
    }
}

/// Task frames that are older than some days, seen before `cutoff_ns`.
pub fn task_frame_retention_request(
    args: &ContextTaskFrameRetentionArgs,
    cutoff_ns: i64,
) -> (r: Result<TaskFrameRetentionRequest, ContextError>)
    ensures
        outcome(r) == retention_request(args.deep_view(), cutoff_ns),
{
    match check_retention(args) {
        Err(e) => return Err(e),
        Ok(_) => {},
    }
    Ok(TaskFrameRetentionRequest {
        cutoff_ns: cutoff_ns,
        retention_days: args.older_than_days,
        project: copy_text(&args.project),
        session_id: copy_text(&args.session_id),
        apply: args.apply,
    })
}

pub open spec fn outcomes_request(
    args: ContextTaskFrameOutcomesArgsView,
) -> Result<TaskFrameOutcomesRequestView, ContextFault> {
    if args.limit == 0 {
        bad("limit must be greater than 0"@)
    } else {
        Ok(TaskFrameOutcomesRequestView {
            project: args.project,
            session_id: args.session_id,
            task_frame_id: args.task_frame_id,
            limit: args.limit,
        })
    }
}

/// Outcomes of task frames, for reading.
pub fn run_task_frame_outcomes(
    args: &ContextTaskFrameOutcomesArgs,
) -> (r: Result<TaskFrameOutcomesRequest, ContextError>)
    ensures
        outcome(r) == outcomes_request(args.deep_view()),
{
    if args.limit == 0 {
        return bad_format("limit must be greater than 0");
    }
    Ok(TaskFrameOutcomesRequest {
        project: copy_text(&args.project),
        session_id: copy_text(&args.session_id),
        task_frame_id: args.task_frame_id,
        limit: args.limit,
    })
}

pub open spec fn promotion_request(
    args: ContextL2PromoteArgsView,
) -> Result<ShortTermProxyPromotionRequestView, ContextFault> {
    if args.limit == 0 {
        bad("limit must be greater than 0"@)
    } else if args.min_repeated_support < 2 {
        bad("min_repeated_support must be at least 2"@)
    } else if !args.min_confidence.within {
        bad("min_confidence must be finite within [0,1], got "@ + args.min_confidence.text)
    } else if !args.anomaly_min_confidence.within {
        bad("anomaly_min_confidence must be finite within [0,1], got "@
            + args.anomaly_min_confidence.text)
    } else {
        Ok(ShortTermProxyPromotionRequestView {
            project: args.project,
            session_id: args.session_id,
            dry_run: !args.apply,
            min_confidence: args.min_confidence,
            anomaly_min_confidence: args.anomaly_min_confidence,
            min_repeated_support: args.min_repeated_support,
            manual_proxy_ids: args.manual_proxy_ids,
            reason: args.reason,
            limit: args.limit,
        })
    }
}

/// A promotion of short-term memories. Unless it is to be applied, it is only tried.
pub fn run_l2_promote(
    args: &ContextL2PromoteArgs,
) -> (r: Result<ShortTermProxyPromotionRequest, ContextError>)
    ensures
        outcome(r) == promotion_request(args.deep_view()),
{
    if args.limit == 0 {
        return bad_format("limit must be greater than 0");
    }
    if args.min_repeated_support < 2 {
        return bad_format("min_repeated_support must be at least 2");
    }
    if !args.min_confidence.within {
        return bad_format(cat2("min_confidence must be finite within [0,1], got ",
            args.min_confidence.text.as_str()).as_str());
    }
    if !args.anomaly_min_confidence.within {
        return bad_format(cat2("anomaly_min_confidence must be finite within [0,1], got ",
            args.anomaly_min_confidence.text.as_str()).as_str());
    }
    Ok(ShortTermProxyPromotionRequest {
        project: copy_text(&args.project),
        session_id: copy_text(&args.session_id),
        dry_run: !args.apply,
        min_confidence: args.min_confidence.dup(),
        anomaly_min_confidence: args.anomaly_min_confidence.dup(),
        min_repeated_support: args.min_repeated_support,
        manual_proxy_ids: args.manual_proxy_ids.dup(),
        reason: args.reason.clone(),
        limit: args.limit,
    })
}

pub open spec fn predict_request(
    args: ContextLatentPredictArgsView,
) -> Result<LatentProxyPredictionInputView, ContextFault> {
    if args.limit == 0 {
        bad("limit must be greater than 0"@)
    } else if args.scan_limit == 0 {
        bad("scan-limit must be greater than 0"@)
    } else if args.scan_limit < args.limit {
        bad("scan-limit must be greater than or equal to limit"@)
    } else if !args.min_confidence.within {
        bad("min-confidence must be finite within [0,1]"@)
    } else {
        Ok(LatentProxyPredictionInputView {
            query: args.query,
            project: args.project,
            session_id: args.session_id,
            limit: args.limit,
            scan_limit: args.scan_limit,
            min_confidence: args.min_confidence,
        })
    }
}

/// A prediction of memories.
pub fn run_latent_predict(
    args: &ContextLatentPredictArgs,
) -> (r: Result<LatentProxyPredictionInput, ContextError>)
    ensures
        outcome(r) == predict_request(args.deep_view()),
{
    if args.limit == 0 {
        return bad_format("limit must be greater than 0");
    }
    if args.scan_limit == 0 {
        return bad_format("scan-limit must be greater than 0");
    }
    if args.scan_limit < args.limit {
        return bad_format("scan-limit must be greater than or equal to limit");
    }
    if !args.min_confidence.within {
        return bad_format("min-confidence must be finite within [0,1]");
    }
    Ok(LatentProxyPredictionInput {
        query: copy_text(&args.query),
        project: copy_text(&args.project),
        session_id: copy_text(&args.session_id),
        limit: args.limit,
        scan_limit: args.scan_limit,
        min_confidence: args.min_confidence.dup(),
    })
}

pub open spec fn packet_request(
    args: ContextLatentPacketArgsView,
) -> Result<LatentProxyPredictionInputView, ContextFault> {
    if args.limit == 0 {
        bad("limit must be greater than 0"@)
    } else if args.scan_limit == 0 {
        bad("scan-limit must be greater than 0"@)
    } else if args.scan_limit < args.limit {
        bad("scan-limit must be greater than or equal to limit"@)
    } else if !args.min_confidence.within {
        bad("min-confidence must be finite within [0,1]"@)
    } else {
        Ok(LatentProxyPredictionInputView {
            query: args.query,
            project: args.project,
            session_id: args.session_id,
            limit: args.limit,
            scan_limit: args.scan_limit,
            min_confidence: args.min_confidence,
        })
    }
}

/// A packet of predicted memories.
pub fn run_latent_packet(
    args: &ContextLatentPacketArgs,
) -> (r: Result<LatentProxyPredictionInput, ContextError>)
    ensures
        outcome(r) == packet_request(args.deep_view()),
{
    if args.limit == 0 {
        return bad_format("limit must be greater than 0");
    }
    if args.scan_limit == 0 {
        return bad_format("scan-limit must be greater than 0");
    }
    if args.scan_limit < args.limit {
        return bad_format("scan-limit must be greater than or equal to limit");
    }
    if !args.min_confidence.within {
        return bad_format("min-confidence must be finite within [0,1]");
    }
    Ok(LatentProxyPredictionInput {
        query: copy_text(&args.query),
        project: copy_text(&args.project),
        session_id: copy_text(&args.session_id),
        limit: args.limit,
        scan_limit: args.scan_limit,
        min_confidence: args.min_confidence.dup(),
    })
}

pub open spec fn correction_input(
    args: ContextCorrectArgsView,
    current: Option<Seq<char>>,
) -> Result<CorrectionInputView, ContextFault> {
    {
        Ok(CorrectionInputView {
            claim: args.claim,
            correction: args.correction,
            project: if args.all_projects {
                None
            } else {
                first(args.project, current)
            },
            session_id: args.session_id,
        })
    }
}

/// A correction. It belongs to the project that is named, else to the current one, unless it
/// is meant for all.
pub fn run_correct(
    args: &ContextCorrectArgs,
    current: Option<&str>,
) -> (r: Result<CorrectionInput, ContextError>)
    ensures
        outcome(r) == correction_input(args.deep_view(), current.deep_view()),
{
    Ok(CorrectionInput {
        claim: args.claim.clone(),
        correction: args.correction.clone(),
        project: if args.all_projects {
            None
        } else {
            either(&args.project, current)
        },
        session_id: copy_text(&args.session_id),
    })
}

pub open spec fn apply_ready_input(
    args: ContextLearningProposalApplyReadyArgsView,
) -> Result<ApplyReadyInputView, ContextFault> {
    if args.limit == 0 {
        bad("limit must be greater than 0"@)
    } else {
        Ok(ApplyReadyInputView {
            project: args.project,
            session_id: args.session_id,
            limit: args.limit,
            dry_run: args.dry_run,
            include_decay: args.include_decay,
            include_noop: args.include_noop,
        })
    }
}

/// Proposals that are ready.
pub fn run_learning_proposals_apply_ready(
    args: &ContextLearningProposalApplyReadyArgs,
) -> (r: Result<ApplyReadyInput, ContextError>)
    ensures
        outcome(r) == apply_ready_input(args.deep_view()),
{
    if args.limit == 0 {
        return bad_format("limit must be greater than 0");
    }
    Ok(ApplyReadyInput {
        project: copy_text(&args.project),
        session_id: copy_text(&args.session_id),
        limit: args.limit,
        dry_run: args.dry_run,
        include_decay: args.include_decay,
        include_noop: args.include_noop,
    })
}

pub open spec fn queue_input(
    args: ContextReviewQueueArgsView,
) -> Result<ReviewQueueInputView, ContextFault> {
    if args.limit == 0 {
        bad("limit must be greater than 0"@)
    } else {
        Ok(ReviewQueueInputView {
            project: args.project,
            session_id: args.session_id,
            limit: args.limit,
        })
    }
}

/// The review queue.
pub fn run_review_queue(
    args: &ContextReviewQueueArgs,
) -> (r: Result<ReviewQueueInput, ContextError>)
    ensures
        outcome(r) == queue_input(args.deep_view()),
{
    if args.limit == 0 {
        return bad_format("limit must be greater than 0");
    }
    Ok(ReviewQueueInput {
        project: copy_text(&args.project),
        session_id: copy_text(&args.session_id),
        limit: args.limit,
    })
}

pub open spec fn action_plan_input(
    args: ContextReviewActionsArgsView,
) -> Result<ReviewActionPlanInputView, ContextFault> {
    if args.limit == 0 {
        bad("limit must be greater than 0"@)
    } else {
        Ok(ReviewActionPlanInputView {
            project: args.project,
            session_id: args.session_id,
            limit: args.limit,
            include_disabled: args.include_disabled,
        })
    }
}

/// The actions that can be taken in a review.
pub fn run_review_actions(
    args: &ContextReviewActionsArgs,
) -> (r: Result<ReviewActionPlanInput, ContextError>)
    ensures
        outcome(r) == action_plan_input(args.deep_view()),
{
    if args.limit == 0 {
        return bad_format("limit must be greater than 0");
    }
    Ok(ReviewActionPlanInput {
        project: copy_text(&args.project),
        session_id: copy_text(&args.session_id),
        limit: args.limit,
        include_disabled: args.include_disabled,
    })
}

pub open spec fn digest_input(
    args: ContextReviewDigestArgsView,
) -> Result<ReviewDigestInputView, ContextFault> {
    if args.limit == 0 {
        bad("limit must be greater than 0"@)
    } else {
        Ok(ReviewDigestInputView {
            project: args.project,
            session_id: args.session_id,
            limit: args.limit,
            client: args.client,
            include_queue_only: args.include_queue_only,
        })
    }
}

/// A digest of the review queue.
pub fn run_review_digest(
    args: &ContextReviewDigestArgs,
) -> (r: Result<ReviewDigestInput, ContextError>)
    ensures
        outcome(r) == digest_input(args.deep_view()),
{
    if args.limit == 0 {
        return bad_format("limit must be greater than 0");
    }
    Ok(ReviewDigestInput {
        project: copy_text(&args.project),
        session_id: copy_text(&args.session_id),
        limit: args.limit,
        client: copy_text(&args.client),
        include_queue_only: args.include_queue_only,
    })
}

pub open spec fn digest_ack_input(
    args: ContextReviewDigestAckArgsView,
) -> Result<ReviewDigestAckInputView, ContextFault> {
    if args.limit == 0 {
        bad("limit must be greater than 0"@)
    } else {
        Ok(ReviewDigestAckInputView {
            project: args.project,
            session_id: args.session_id,
            limit: args.limit,
            client: args.client,
            batch_key: args.batch_key,
            cooldown_seconds: args.cooldown_seconds,
        })
    }
}

/// A digest that has been seen.
pub fn run_review_digest_ack(
    args: &ContextReviewDigestAckArgs,
) -> (r: Result<ReviewDigestAckInput, ContextError>)
    ensures
        outcome(r) == digest_ack_input(args.deep_view()),
{
    if args.limit == 0 {
        return bad_format("limit must be greater than 0");
    }
    Ok(ReviewDigestAckInput {
        project: copy_text(&args.project),
        session_id: copy_text(&args.session_id),
        limit: args.limit,
        client: copy_text(&args.client),
        batch_key: copy_text(&args.batch_key),
        cooldown_seconds: args.cooldown_seconds,
    })
}

pub open spec fn render_input(
    args: ContextReviewRenderArgsView,
) -> Result<ReviewRenderInputView, ContextFault> {
    if args.limit == 0 {
        bad("limit must be greater than 0"@)
    } else {
        Ok(ReviewRenderInputView {
            project: args.project,
            session_id: args.session_id,
            limit: args.limit,
            client: args.client,
            include_disabled: args.include_disabled,
        })
    }
}

/// The review queue as a client shows it.
pub fn run_review_render(
    args: &ContextReviewRenderArgs,
) -> (r: Result<ReviewRenderInput, ContextError>)
    ensures
        outcome(r) == render_input(args.deep_view()),
{
    if args.limit == 0 {
        return bad_format("limit must be greater than 0");
    }
    Ok(ReviewRenderInput {
        project: copy_text(&args.project),
        session_id: copy_text(&args.session_id),
        limit: args.limit,
        client: copy_text(&args.client),
        include_disabled: args.include_disabled,
    })
}

pub open spec fn drain_input(
    args: ContextReviewDrainArgsView,
) -> Result<ReviewDrainInputView, ContextFault> {
    if args.limit == 0 {
        bad("limit must be greater than 0"@)
    } else {
        Ok(ReviewDrainInputView {
            project: args.project,
            session_id: args.session_id,
            limit: args.limit,
            dry_run: args.dry_run,
        })
    }
}

/// The review queue, to be worked off.
pub fn run_review_drain(
    args: &ContextReviewDrainArgs,
) -> (r: Result<ReviewDrainInput, ContextError>)
    ensures
        outcome(r) == drain_input(args.deep_view()),
{
    if args.limit == 0 {
        return bad_format("limit must be greater than 0");
    }
    Ok(ReviewDrainInput {
        project: copy_text(&args.project),
        session_id: copy_text(&args.session_id),
        limit: args.limit,
        dry_run: args.dry_run,
    })
}

pub open spec fn open_decision_input(
    args: ContextOpenDecisionProposalsArgsView,
) -> Result<OpenDecisionProposalInputView, ContextFault> {
    if args.limit == 0 {
        bad("limit must be greater than 0"@)
    } else {
        Ok(OpenDecisionProposalInputView {
            project: args.project,
            session_id: args.session_id,
            limit: args.limit,
            dry_run: args.dry_run,
        })
    }
}

/// Open decisions, for review.
pub fn run_open_decision_proposals(
    args: &ContextOpenDecisionProposalsArgs,
) -> (r: Result<OpenDecisionProposalInput, ContextError>)
    ensures
        outcome(r) == open_decision_input(args.deep_view()),
{
    if args.limit == 0 {
        return bad_format("limit must be greater than 0");
    }
    Ok(OpenDecisionProposalInput {
        project: copy_text(&args.project),
        session_id: copy_text(&args.session_id),
        limit: args.limit,
        dry_run: args.dry_run,
    })
}

pub open spec fn trust_audit_input(
    args: ContextTrustAuditArgsView,
) -> Result<TrustAuditInputView, ContextFault> {
    {
        Ok(TrustAuditInputView {
            project: args.project,
            session_id: args.session_id,
            limit: args.limit,
        })
    }
}

/// An audit of the store.
pub fn run_trust_audit(args: &ContextTrustAuditArgs) -> (r: Result<TrustAuditInput, ContextError>)
    ensures
        outcome(r) == trust_audit_input(args.deep_view()),
{
    Ok(TrustAuditInput {
        project: copy_text(&args.project),
        session_id: copy_text(&args.session_id),
        limit: args.limit,
    })
}

/// The flags of the scheduler, or what is wrong with them.
pub open spec fn schedulable(args: ContextSchedulerRunArgsView) -> Result<(), ContextFault> {
    if args.limit == 0 {
        bad("limit must be greater than 0"@)
    } else if args.semantic_min_support < 2 {
        bad("semantic-min-support must be at least 2"@)
    } else if !args.l2_promotion_min_confidence.within {
        bad("l2-promotion-min-confidence must be finite within [0,1], got "@
            + args.l2_promotion_min_confidence.text)
    } else if !args.l2_promotion_anomaly_min_confidence.within {
        bad("l2-promotion-anomaly-min-confidence must be finite within [0,1], got "@
            + args.l2_promotion_anomaly_min_confidence.text)
    } else if args.l2_promotion_min_repeated_support < 2 {
        bad("l2-promotion-min-repeated-support must be at least 2"@)
    } else if args.l3_decay_older_than_days < 1 {
        bad("l3-decay-older-than-days must be at least 1"@)
    } else if args.l3_decay_max_access_count < 0 {
        bad("l3-decay-max-access-count must be non-negative"@)
    } else if args.task_frame_retention_days < 1 {
        bad("task-frame-retention-days must be at least 1"@)
    } else {
        Ok(())
    }
}

/// The flags of the scheduler are valid.
pub fn check_scheduler(args: &ContextSchedulerRunArgs) -> (r: Result<(), ContextError>)
    ensures
        verdict(r) == schedulable(args.deep_view()),
{
    if args.limit == 0 {
        return bad_format("limit must be greater than 0");
    }
    if args.semantic_min_support < 2 {
        return bad_format("semantic-min-support must be at least 2");
    }
    if !args.l2_promotion_min_confidence.within {
        return bad_format(cat2("l2-promotion-min-confidence must be finite within [0,1], got ",
            args.l2_promotion_min_confidence.text.as_str()).as_str());
    }
    if !args.l2_promotion_anomaly_min_confidence.within {
        return bad_format(
            cat2("l2-promotion-anomaly-min-confidence must be finite within [0,1], got ",
            args.l2_promotion_anomaly_min_confidence.text.as_str()).as_str());
    }
    if args.l2_promotion_min_repeated_support < 2 {
        return bad_format("l2-promotion-min-repeated-support must be at least 2");
    }
    if args.l3_decay_older_than_days < 1 {
        return bad_format("l3-decay-older-than-days must be at least 1");
    }
    if args.l3_decay_max_access_count < 0 {
        return bad_format("l3-decay-max-access-count must be non-negative");
    }
    if args.task_frame_retention_days < 1 {
        return bad_format("task-frame-retention-days must be at least 1");
    }
    Ok(())
}

/// What the scheduler is to do. A reason or a time that is not said is the default.
pub open spec fn scheduled(
    args: ContextSchedulerRunArgsView,
    passes: Seq<Seq<char>>,
    decay_cutoff: i64,
    retention_cutoff: i64,
    defaults: SchedulerDefaultsView,
) -> Result<SchedulerControlInputView, ContextFault> {
    match schedulable(args) {
        Err(f) => Err(f),
        Ok(_) => Ok(SchedulerControlInputView {
            project: args.project,
            session_id: args.session_id,
            limit: args.limit,
            semantic_min_support: args.semantic_min_support,
            l2_promotion_min_confidence: args.l2_promotion_min_confidence,
            l2_promotion_anomaly_min_confidence: args.l2_promotion_anomaly_min_confidence,
            l2_promotion_min_repeated_support: args.l2_promotion_min_repeated_support,
            l2_promotion_reason: said_or(args.l2_promotion_reason, defaults.l2_promotion_reason),
            l3_decay_cutoff_ns: num_or(args.l3_decay_cutoff_ns, decay_cutoff),
            l3_decay_max_access_count: args.l3_decay_max_access_count,
            l3_decay_reason: said_or(args.l3_decay_reason, defaults.l3_decay_reason),
            task_frame_retention_cutoff_ns: num_or(
                args.task_frame_retention_cutoff_ns, retention_cutoff),
            task_frame_retention_days: args.task_frame_retention_days,
            task_frame_retention_reason: said_or(args.task_frame_retention_reason,
                defaults.task_frame_retention_reason),
            dry_run: args.dry_run,
            passes: passes,
        }),
    }
}

/// What the scheduler is to do, where everything it needs is known.
pub fn scheduler_input(
    args: &ContextSchedulerRunArgs,
    passes: Vec<String>,
    decay_cutoff: i64,
    retention_cutoff: i64,
    defaults: &SchedulerDefaults,
) -> (r: Result<SchedulerControlInput, ContextError>)
    ensures
        outcome(r) == scheduled(args.deep_view(), passes.deep_view(), decay_cutoff,
            retention_cutoff, defaults.deep_view()),
{
    match check_scheduler(args) {
        Err(e) => return Err(e),
        Ok(_) => {},
    }
    Ok(SchedulerControlInput {
        project: copy_text(&args.project),
        session_id: copy_text(&args.session_id),
        limit: args.limit,
        semantic_min_support: args.semantic_min_support,
        l2_promotion_min_confidence: args.l2_promotion_min_confidence.dup(),
        l2_promotion_anomaly_min_confidence: args.l2_promotion_anomaly_min_confidence.dup(),
        l2_promotion_min_repeated_support: args.l2_promotion_min_repeated_support,
        l2_promotion_reason: said_text_or(args.l2_promotion_reason.as_str(),
            defaults.l2_promotion_reason.as_str()),
        l3_decay_cutoff_ns: number_or(args.l3_decay_cutoff_ns, decay_cutoff),
        l3_decay_max_access_count: args.l3_decay_max_access_count,
        l3_decay_reason: said_text_or(args.l3_decay_reason.as_str(),
            defaults.l3_decay_reason.as_str()),
        task_frame_retention_cutoff_ns: number_or(
            args.task_frame_retention_cutoff_ns, retention_cutoff),
        task_frame_retention_days: args.task_frame_retention_days,
        task_frame_retention_reason: said_text_or(
            args.task_frame_retention_reason.as_str(),
            defaults.task_frame_retention_reason.as_str()),
        dry_run: args.dry_run,
        passes: passes,
    })
}

pub open spec fn retainable(args: ContextTaskFrameRetentionArgsView) -> Result<(), ContextFault> {
    if args.older_than_days < 1 {
        bad("older_than_days must be at least 1"@)
    } else {
        Ok(())
    }
}

/// The flags of the retention are valid.
pub fn check_retention(args: &ContextTaskFrameRetentionArgs) -> (r: Result<(), ContextError>)
    ensures
        verdict(r) == retainable(args.deep_view()),
{
    if args.older_than_days < 1 {
        return bad_format("older_than_days must be at least 1");
    }
    Ok(())
}

pub open spec fn decayable(args: ContextL3DecayArgsView) -> Result<(), ContextFault> {
    if args.older_than_days < 1 {
        bad("older_than_days must be at least 1"@)
    } else if args.limit == 0 {
        bad("limit must be greater than 0"@)
    } else {
        Ok(())
    }
}

/// The flags of the decay are valid.
pub fn check_l3_decay(args: &ContextL3DecayArgs) -> (r: Result<(), ContextError>)
    ensures
        verdict(r) == decayable(args.deep_view()),
{
    if args.older_than_days < 1 {
        return bad_format("older_than_days must be at least 1");
    }
    if args.limit == 0 {
        return bad_format("limit must be greater than 0");
    }
    Ok(())
}

pub open spec fn evaluable(args: ContextLatentEvalArgsView) -> Result<(), ContextFault> {
    if args.limit == 0 {
        bad("limit must be greater than 0"@)
    } else if args.scan_limit == 0 {
        bad("scan-limit must be greater than 0"@)
    } else if args.scan_limit < args.limit {
        bad("scan-limit must be greater than or equal to limit"@)
    } else if args.case_limit == 0 {
        bad("case-limit must be greater than 0"@)
    } else if !args.min_confidence.within {
        bad("min-confidence must be finite within [0,1]"@)
    } else {
        Ok(())
    }
}

/// The flags of the evaluation are valid.
pub fn check_latent_eval(args: &ContextLatentEvalArgs) -> (r: Result<(), ContextError>)
    ensures
        verdict(r) == evaluable(args.deep_view()),
{
    if args.limit == 0 {
        return bad_format("limit must be greater than 0");
    }
    if args.scan_limit == 0 {
        return bad_format("scan-limit must be greater than 0");
    }
    if args.scan_limit < args.limit {
        return bad_format("scan-limit must be greater than or equal to limit");
    }
    if args.case_limit == 0 {
        return bad_format("case-limit must be greater than 0");
    }
    if !args.min_confidence.within {
        return bad_format("min-confidence must be finite within [0,1]");
    }
    Ok(())
}

pub open spec fn hardenable(args: ContextHardeningReportArgsView) -> Result<(), ContextFault> {
    if args.task_frame_retention_days < 1 {
        bad("task_frame_retention_days must be at least 1"@)
    } else {
        Ok(())
    }
}

/// The flags of the hardening report are valid.
pub fn check_hardening(args: &ContextHardeningReportArgs) -> (r: Result<(), ContextError>)
    ensures
        verdict(r) == hardenable(args.deep_view()),
{
    if args.task_frame_retention_days < 1 {
        return bad_format("task_frame_retention_days must be at least 1");
    }
    Ok(())
}

/// A task frame to be built. The current project and the current directory count where
/// none is named.
pub open spec fn frame_input(
    args: ContextTaskFrameArgsView,
    project: Option<Seq<char>>,
    cwd: Option<Seq<char>>,
) -> TaskFrameBuildInputView {
    TaskFrameBuildInputView {
        query: args.query,
        project: first(args.project, project),
        session_id: args.session_id,
        cwd: first(args.cwd, cwd),
        client: args.client,
        allow_local_private_projection: args.allow_local_private_projection,
        local_private_projection_reason: args.local_private_projection_reason,
    }
}

pub fn run_task_frame(
    args: &ContextTaskFrameArgs,
    project: Option<&str>,
    cwd: Option<&str>,
) -> (r: TaskFrameBuildInput)
    ensures
        r.deep_view() == frame_input(args.deep_view(), project.deep_view(), cwd.deep_view()),
{
    TaskFrameBuildInput {
        query: copy_text(&args.query),
        project: either(&args.project, project),
        session_id: copy_text(&args.session_id),
        cwd: either(&args.cwd, cwd),
        client: copy_text(&args.client),
        allow_local_private_projection: args.allow_local_private_projection,
        local_private_projection_reason: copy_text(&args.local_private_projection_reason),
    }
}

/// A retention, where the time before which a frame counts as old is known.
pub open spec fn retention_at(
    args: ContextTaskFrameRetentionArgsView,
    cutoff: Result<i64, Seq<char>>,
) -> Result<TaskFrameRetentionRequestView, ContextFault> {
    match retainable(args) {
        Err(f) => Err(f),
        Ok(_) => match cutoff {
            Err(e) => Err(ContextFault::Storage(e)),
            Ok(ns) => retention_request(args, ns),
        },
    }
}

/// A number, or the message of an error.
pub open spec fn told(r: Result<i64, StorageError>) -> Result<i64, Seq<char>> {
    match r {
        Ok(n) => Ok(n),
        Err(e) => Err(e.message@),
    }
}

pub fn run_task_frame_retention(
    args: &ContextTaskFrameRetentionArgs,
    cutoff: Result<i64, StorageError>,
) -> (r: Result<TaskFrameRetentionRequest, ContextError>)
    ensures
        outcome(r) == retention_at(args.deep_view(), told(cutoff)),
{
    match check_retention(args) {
        Err(e) => return Err(e),
        Ok(_) => {},
    }
    match cutoff {
        Err(e) => Err(ContextError::Storage(e)),
        Ok(ns) => task_frame_retention_request(args, ns),
    }
}

/// What became of a task frame, with the one thing that it rests on.
pub open spec fn outcome_draft(
    args: ContextTaskFrameOutcomeArgsView,
    kind: Result<Seq<char>, Seq<char>>,
) -> Result<TaskFrameOutcomeDraftView, ContextFault> {
    match kind {
        Err(e) => Err(ContextFault::Storage(e)),
        Ok(outcome_type) => Ok(
            TaskFrameOutcomeDraftView {
                task_frame_id: args.task_frame_id,
                outcome_type,
                summary: args.summary,
                evidence_refs: Seq::empty().push(
                    StoredEvidenceRefView {
                        kind: args.evidence_kind,
                        id: args.evidence_id,
                        source: args.evidence_source,
                    },
                ),
                claim_ids: args.claim_ids,
                proposal_ids: args.proposal_ids,
                latent_proxy_ids: args.latent_proxy_ids,
            },
        ),
    }
}

/// `kind` is the kind of outcome that the store knows by the name in the flags.
pub fn run_task_frame_outcome(
    args: &ContextTaskFrameOutcomeArgs,
    kind: Result<String, StorageError>,
) -> (r: Result<TaskFrameOutcomeDraft, ContextError>)
    ensures
        outcome(r) == outcome_draft(args.deep_view(), outcome(kind)),
{
    let outcome_type = match kind {
        Err(e) => return Err(ContextError::Storage(e)),
        Ok(k) => k,
    };
    let evidence = StoredEvidenceRef {
        kind: args.evidence_kind.clone(),
        id: args.evidence_id.clone(),
        source: copy_text(&args.evidence_source),
    };
    Ok(
        TaskFrameOutcomeDraft {
            task_frame_id: args.task_frame_id,
            outcome_type,
            summary: args.summary.clone(),
            evidence_refs: with(none(), evidence),
            claim_ids: args.claim_ids.dup(),
            proposal_ids: args.proposal_ids.dup(),
            latent_proxy_ids: args.latent_proxy_ids.dup(),
        },
    )
}

/// A decay of long-term memories. A time that is said counts before the days.
pub open spec fn decay_at(
    args: ContextL3DecayArgsView,
    cutoff: Result<i64, Seq<char>>,
) -> Result<DecayRequestView, ContextFault> {
    match decayable(args) {
        Err(f) => Err(f),
        Ok(_) => {
            let request = |cutoff_ns: i64, source: Seq<char>| DecayRequestView {
                cutoff_ns,
                cutoff_source: source,
                max_access_count: args.max_access_count,
                reason: args.reason,
                dry_run: args.dry_run,
                limit: args.limit,
            };
            match args.cutoff_ns {
                Some(ns) => Ok(request(ns, "explicit_cutoff_ns"@)),
                None => match cutoff {
                    Err(e) => Err(ContextFault::Storage(e)),
                    Ok(ns) => Ok(request(ns, "older_than_days"@)),
                },
            }
        },
    }
}

pub fn run_l3_decay(
    args: &ContextL3DecayArgs,
    cutoff: Result<i64, StorageError>,
) -> (r: Result<DecayRequest, ContextError>)
    ensures
        outcome(r) == decay_at(args.deep_view(), told(cutoff)),
{
    match check_l3_decay(args) {
        Err(e) => return Err(e),
        Ok(_) => {},
    }
    let (cutoff_ns, source) = match args.cutoff_ns {
        Some(ns) => (ns, "explicit_cutoff_ns"),
        None => match cutoff {
            Err(e) => return Err(ContextError::Storage(e)),
            Ok(ns) => (ns, "older_than_days"),
        },
    };
    Ok(
        DecayRequest {
            cutoff_ns,
            cutoff_source: source.to_string(),
            max_access_count: args.max_access_count,
            reason: args.reason.clone(),
            dry_run: args.dry_run,
            limit: args.limit,
        },
    )
}

/// Where the cases of an evaluation come from.
#[derive(Debug)]
pub enum LatentCases {
    Jsonl(String),
    Outcomes,
    Storage,
}

/// What a `LatentCases` holds.
pub enum LatentCasesView {
    Jsonl(Seq<char>),
    Outcomes,
    Storage,
}

impl DeepView for LatentCases {
    type V = LatentCasesView;

    open spec fn deep_view(&self) -> LatentCasesView {
        match self {
            LatentCases::Jsonl(p) => LatentCasesView::Jsonl(p@),
            LatentCases::Outcomes => LatentCasesView::Outcomes,
            LatentCases::Storage => LatentCasesView::Storage,
        }
    }
}

/// A file counts before the outcomes of task frames, and those before the store.
pub open spec fn cases_of(args: ContextLatentEvalArgsView) -> LatentCasesView {
    match args.case_jsonl {
        Some(p) => LatentCasesView::Jsonl(p),
        None => if args.outcome_cases {
            LatentCasesView::Outcomes
        } else {
            LatentCasesView::Storage
        },
    }
}

pub open spec fn cases_name(c: LatentCasesView) -> Seq<char> {
    match c {
        LatentCasesView::Jsonl(p) => "jsonl:"@ + p,
        LatentCasesView::Outcomes => "task_frame_outcome"@,
        LatentCasesView::Storage => "storage_active_prediction_eligible_proxy"@,
    }
}

pub open spec fn eval_request(args: ContextLatentEvalArgsView) -> Result<
    (LatentCasesView, LatentProxyEvalInputView),
    ContextFault,
> {
    match evaluable(args) {
        Err(f) => Err(f),
        Ok(_) => Ok(
            (
                cases_of(args),
                LatentProxyEvalInputView {
                    project: args.project,
                    session_id: args.session_id,
                    limit: args.limit,
                    scan_limit: args.scan_limit,
                    case_limit: args.case_limit,
                    min_confidence: args.min_confidence,
                    case_source: cases_name(cases_of(args)),
                },
            ),
        ),
    }
}

/// A pair by what its parts hold.
pub open spec fn pair_outcome<A: DeepView, B: DeepView>(r: Result<(A, B), ContextError>) -> Result<
    (A::V, B::V),
    ContextFault,
> {
    match r {
        Ok((a, b)) => Ok((a.deep_view(), b.deep_view())),
        Err(e) => Err(e.deep_view()),
    }
}

pub fn run_latent_eval(args: &ContextLatentEvalArgs) -> (r: Result<
    (LatentCases, LatentProxyEvalInput),
    ContextError,
>)
    ensures
        pair_outcome(r) == eval_request(args.deep_view()),
{
    match check_latent_eval(args) {
        Err(e) => return Err(e),
        Ok(_) => {},
    }
    let (cases, case_source) = match &args.case_jsonl {
        Some(p) => (LatentCases::Jsonl(p.clone()), cat2("jsonl:", p.as_str())),
        None => if args.outcome_cases {
            (LatentCases::Outcomes, "task_frame_outcome".to_string())
        } else {
            (LatentCases::Storage, "storage_active_prediction_eligible_proxy".to_string())
        },
    };
    Ok(
        (
            cases,
            LatentProxyEvalInput {
                project: copy_text(&args.project),
                session_id: copy_text(&args.session_id),
                limit: args.limit,
                scan_limit: args.scan_limit,
                case_limit: args.case_limit,
                min_confidence: args.min_confidence.dup(),
                case_source,
            },
        ),
    )
}

/// A file with cases could not be read.
pub fn unread_cases(path: &str, error: &str) -> (r: ContextError)
    ensures
        r.deep_view() == ContextFault::Path(
            "failed to read latent eval case JSONL `"@ + path@ + "`: "@ + error@,
        ),
{
    let mut m = cat3("failed to read latent eval case JSONL `", path, "`: ");
    m.append(error);
    ContextError::Path(m)
}

pub open spec fn proposals_request(args: ContextLearningProposalListArgsView) -> Result<
    LearningProposalsRequestView,
    ContextFault,
> {
    if args.limit == 0 {
        bad("limit must be greater than 0"@)
    } else {
        let request = |status: Option<LearningCriticProposalStatus>| LearningProposalsRequestView {
            project: args.project,
            session_id: args.session_id,
            status,
            limit: args.limit,
        };
        match args.status {
            None => Ok(request(None)),
            Some(s) => match status_of(s) {
                Err(f) => Err(f),
                Ok(status) => Ok(request(Some(status))),
            },
        }
    }
}

pub fn run_learning_proposals_list(args: &ContextLearningProposalListArgs) -> (r: Result<
    LearningProposalsRequest,
    ContextError,
>)
    ensures
        outcome(r) == proposals_request(args.deep_view()),
{
    if args.limit == 0 {
        return bad_format("limit must be greater than 0");
    }
    let status = match &args.status {
        None => None,
        Some(s) => match parse_learning_proposal_status(s.as_str()) {
            Err(e) => return Err(e),
            Ok(status) => Some(status),
        },
    };
    Ok(
        LearningProposalsRequest {
            project: copy_text(&args.project),
            session_id: copy_text(&args.session_id),
            status,
            limit: args.limit,
        },
    )
}

/// What is noted beside a state that was set by hand.
pub open spec fn status_note(note: Option<Seq<char>>) -> JsonView {
    JsonView::Object(
        Seq::empty().push(("review"@, JsonView::Text("cli_set_status"@))).push(
            ("note"@, opt_text(note)),
        ),
    )
}

/// A state that is set by hand. Applied is none: that comes of applying.
pub open spec fn status_change(args: ContextLearningProposalSetStatusArgsView) -> Result<
    ProposalStatusChangeView,
    ContextFault,
> {
    match status_of(args.status) {
        Err(f) => Err(f),
        Ok(status) => if status == LearningCriticProposalStatus::Applied {
            bad("set-status cannot mark a proposal applied; use learning-proposals apply"@)
        } else {
            Ok(
                ProposalStatusChangeView {
                    proposal_id: args.proposal_id,
                    status,
                    result: status_note(args.note),
                },
            )
        },
    }
}

pub fn run_learning_proposals_set_status(args: &ContextLearningProposalSetStatusArgs) -> (r: Result<
    ProposalStatusChange,
    ContextError,
>)
    ensures
        outcome(r) == status_change(args.deep_view()),
{
    let status = match parse_learning_proposal_status(args.status.as_str()) {
        Err(e) => return Err(e),
        Ok(s) => s,
    };
    if status == LearningCriticProposalStatus::Applied {
        return bad_format(
            "set-status cannot mark a proposal applied; use learning-proposals apply",
        );
    }
    let result = Members::new().text("review", "cli_set_status").opt_text(
        "note",
        borrowed(&args.note),
    ).done();
    Ok(ProposalStatusChange { proposal_id: args.proposal_id, status, result })
}

/// The verifier that a template names, by the name under which it is stored.
pub open spec fn verifier_said(v: Option<Seq<char>>) -> Result<Option<Seq<char>>, ContextFault> {
    match v {
        None => Ok(None),
        Some(s) => match verifier_of(s) {
            Err(f) => Err(f),
            Ok(t) => Ok(Some(verifier_type_name(t))),
        },
    }
}

/// An optional text by what it holds.
pub open spec fn opt_outcome(r: Result<Option<String>, ContextError>) -> Result<
    Option<Seq<char>>,
    ContextFault,
> {
    match r {
        Ok(v) => Ok(v.deep_view()),
        Err(e) => Err(e.deep_view()),
    }
}

fn read_verifier(v: &Option<String>) -> (r: Result<Option<String>, ContextError>)
    ensures
        opt_outcome(r) == verifier_said(v.deep_view()),
{
    match v {
        None => Ok(None),
        Some(s) => match parse_verifier_type(s.as_str()) {
            Err(e) => Err(e),
            Ok(t) => Ok(Some(t.as_str().to_string())),
        },
    }
}

pub open spec fn report_input(args: ContextReviewReportArgsView) -> Result<
    ReviewReportInputView,
    ContextFault,
> {
    if args.limit == 0 {
        bad("limit must be greater than 0"@)
    } else {
        match template_action(args.action) {
            Err(f) => Err(f),
            Ok(action) => match template_target(args.target_type) {
                Err(f) => Err(f),
                Ok(target) => match verifier_said(args.verifier) {
                    Err(f) => Err(f),
                    Ok(verifier_type) => Ok(
                        ReviewReportInputView {
                            project: args.project,
                            session_id: args.session_id,
                            limit: args.limit,
                            include_disabled: args.include_disabled,
                            action,
                            target_type: Some(target),
                            verifier_type,
                            evidence_kind: args.evidence_kind,
                            evidence_id: args.evidence_id,
                            evidence_source: args.evidence_source,
                        },
                    ),
                },
            },
        }
    }
}

pub fn run_review_report(args: &ContextReviewReportArgs) -> (r: Result<
    ReviewReportInput,
    ContextError,
>)
    ensures
        outcome(r) == report_input(args.deep_view()),
{
    if args.limit == 0 {
        return bad_format("limit must be greater than 0");
    }
    let action = match parse_review_batch_template_action(args.action.as_str()) {
        Err(e) => return Err(e),
        Ok(a) => a,
    };
    let target = match parse_review_batch_template_target_type(args.target_type.as_str()) {
        Err(e) => return Err(e),
        Ok(t) => t,
    };
    let verifier_type = match read_verifier(&args.verifier) {
        Err(e) => return Err(e),
        Ok(v) => v,
    };
    Ok(
        ReviewReportInput {
            project: copy_text(&args.project),
            session_id: copy_text(&args.session_id),
            limit: args.limit,
            include_disabled: args.include_disabled,
            action,
            target_type: Some(target),
            verifier_type,
            evidence_kind: copy_text(&args.evidence_kind),
            evidence_id: copy_text(&args.evidence_id),
            evidence_source: copy_text(&args.evidence_source),
        },
    )
}

/// The flags of a report that asks for the same as a template.
pub open spec fn template_flags(
    args: ContextReviewBatchTemplateArgsView,
) -> ContextReviewReportArgsView {
    ContextReviewReportArgsView {
        project: args.project,
        session_id: args.session_id,
        limit: args.limit,
        include_disabled: false,
        action: args.action,
        target_type: args.target_type,
        verifier: args.verifier,
        evidence_kind: args.evidence_kind,
        evidence_id: args.evidence_id,
        evidence_source: args.evidence_source,
        format: "json"@,
    }
}

/// A template for a batch of actions.
pub fn run_review_batch_template(args: &ContextReviewBatchTemplateArgs) -> (r: Result<
    ReviewReportInput,
    ContextError,
>)
    ensures
        outcome(r) == report_input(template_flags(args.deep_view())),
{
    run_review_report(
        &ContextReviewReportArgs {
            project: copy_text(&args.project),
            session_id: copy_text(&args.session_id),
            limit: args.limit,
            include_disabled: false,
            action: args.action.clone(),
            target_type: args.target_type.clone(),
            verifier: copy_text(&args.verifier),
            evidence_kind: copy_text(&args.evidence_kind),
            evidence_id: copy_text(&args.evidence_id),
            evidence_source: copy_text(&args.evidence_source),
            format: "json".to_string(),
        },
    )
}

/// What the scheduler is to do. `passes` are the passes that it knows by the names in the
/// flags; the two times are those that the days in the flags give. Both times must be
/// known, also where another is said.
pub open spec fn schedule(
    args: ContextSchedulerRunArgsView,
    passes: Result<Seq<Seq<char>>, Seq<char>>,
    decay_cutoff: Result<i64, Seq<char>>,
    retention_cutoff: Result<i64, Seq<char>>,
    defaults: SchedulerDefaultsView,
) -> Result<SchedulerControlInputView, ContextFault> {
    match schedulable(args) {
        Err(f) => Err(f),
        Ok(_) => match passes {
            Err(m) => bad(m),
            Ok(p) => match decay_cutoff {
                Err(e) => Err(ContextFault::Storage(e)),
                Ok(decay) => match retention_cutoff {
                    Err(e) => Err(ContextFault::Storage(e)),
                    Ok(retention) => scheduled(args, p, decay, retention, defaults),
                },
            },
        },
    }
}

/// Texts, or a message.
pub open spec fn texts_told(r: Result<Vec<String>, String>) -> Result<Seq<Seq<char>>, Seq<char>> {
    match r {
        Ok(v) => Ok(v.deep_view()),
        Err(m) => Err(m@),
    }
}

pub fn run_scheduler_run(
    args: &ContextSchedulerRunArgs,
    passes: Result<Vec<String>, String>,
    decay_cutoff: Result<i64, StorageError>,
    retention_cutoff: Result<i64, StorageError>,
    defaults: &SchedulerDefaults,
) -> (r: Result<SchedulerControlInput, ContextError>)
    ensures
        outcome(r) == schedule(
            args.deep_view(),
            texts_told(passes),
            told(decay_cutoff),
            told(retention_cutoff),
            defaults.deep_view(),
        ),
{
    match check_scheduler(args) {
        Err(e) => return Err(e),
        Ok(_) => {},
    }
    let passes = match passes {
        Err(m) => return Err(ContextError::BadFormat(m)),
        Ok(p) => p,
    };
    let decay: i64 = match decay_cutoff {
        Err(e) => return Err(ContextError::Storage(e)),
        Ok(ns) => ns,
    };
    let retention: i64 = match retention_cutoff {
        Err(e) => return Err(ContextError::Storage(e)),
        Ok(ns) => ns,
    };
    scheduler_input(args, passes, decay, retention, defaults)
}

/// The forms in which semantic proposals are told.
#[derive(Debug, Clone, Copy, PartialEq, Eq, Structural)]
pub enum ProposalsFormat {
    Json,
    Brief,
}

impl DeepView for ProposalsFormat {
    type V = ProposalsFormat;

    open spec fn deep_view(&self) -> ProposalsFormat {
        *self
    }
}

/// The form that was asked for. A flag counts before the name of a form.
pub open spec fn asked_format(args: ContextSemanticProposalsArgsView) -> Seq<char> {
    if args.json {
        "json"@
    } else if args.brief {
        "brief"@
    } else {
        args.format
    }
}

pub const ONE_SELECTOR: &'static str =
    "semantic-proposals accepts only one output selector: --json or --brief";

pub const PROPOSALS_SUPPORTED: &'static str =
    "`; semantic-proposals currently supports `json` and `brief`";

pub open spec fn semantic_request(args: ContextSemanticProposalsArgsView) -> Result<
    (ProposalsFormat, SemanticLearningInputView),
    ContextFault,
> {
    let asked = asked_format(args);
    if args.json && args.brief {
        bad(ONE_SELECTOR@)
    } else if asked != "json"@ && asked != "brief"@ {
        bad("unknown format `"@ + asked + PROPOSALS_SUPPORTED@)
    } else if args.limit == 0 {
        bad("limit must be greater than 0"@)
    } else if args.min_support < 2 {
        bad("min_support must be at least 2"@)
    } else {
        Ok(
            (
                if asked == "brief"@ {
                    ProposalsFormat::Brief
                } else {
                    ProposalsFormat::Json
                },
                SemanticLearningInputView {
                    project: args.project,
                    session_id: args.session_id,
                    limit: args.limit,
                    min_support: args.min_support,
                    dry_run: args.dry_run,
                },
            ),
        )
    }
}

pub fn run_semantic_proposals(args: &ContextSemanticProposalsArgs) -> (r: Result<
    (ProposalsFormat, SemanticLearningInput),
    ContextError,
>)
    ensures
        pair_outcome(r) == semantic_request(args.deep_view()),
{
    if args.json && args.brief {
        return bad_format(ONE_SELECTOR);
    }
    let asked = if args.json {
        "json"
    } else if args.brief {
        "brief"
    } else {
        args.format.as_str()
    };
    if !same(asked, "json") && !same(asked, "brief") {
        return bad_format(cat3("unknown format `", asked, PROPOSALS_SUPPORTED).as_str());
    }
    if args.limit == 0 {
        return bad_format("limit must be greater than 0");
    }
    if args.min_support < 2 {
        return bad_format("min_support must be at least 2");
    }
    Ok(
        (
            if same(asked, "brief") {
                ProposalsFormat::Brief
            } else {
                ProposalsFormat::Json
            },
            SemanticLearningInput {
                project: copy_text(&args.project),
                session_id: copy_text(&args.session_id),
                limit: args.limit,
                min_support: args.min_support,
                dry_run: args.dry_run,
            },
        ),
    )
}

// ---------------------------------------------------------------------------
// Laws
// ---------------------------------------------------------------------------

/// Nothing is promoted unless it was asked to be applied.
pub proof fn law_promotion_is_tried_by_default(args: ContextL2PromoteArgsView)
    requires
        promotion_request(args) is Ok,
    ensures
        promotion_request(args)->Ok_0.dry_run <==> !args.apply,
{
}

/// No state that is set by hand is the applied one.
pub proof fn law_status_by_hand_is_never_applied(args: ContextLearningProposalSetStatusArgsView)
    ensures
        status_change(args) matches Ok(c) ==> c.status != LearningCriticProposalStatus::Applied,
{
}

/// The scheduler never runs with a blank reason, where the defaults are not blank.
pub proof fn law_scheduler_has_reasons(
    args: ContextSchedulerRunArgsView,
    passes: Result<Seq<Seq<char>>, Seq<char>>,
    decay_cutoff: Result<i64, Seq<char>>,
    retention_cutoff: Result<i64, Seq<char>>,
    defaults: SchedulerDefaultsView,
)
    requires
        defaults.l2_promotion_reason.len() > 0,
        defaults.l3_decay_reason.len() > 0,
        defaults.task_frame_retention_reason.len() > 0,
    ensures
        schedule(args, passes, decay_cutoff, retention_cutoff, defaults) matches Ok(input) ==> {
            &&& input.l2_promotion_reason.len() > 0
            &&& input.l3_decay_reason.len() > 0
            &&& input.task_frame_retention_reason.len() > 0
        },
{
}

}
