//! The flags of the `soma context` commands.
use crate::dup::Dup;
use vstd::prelude::*;

verus! {

/// A confidence that was asked for: whether it is a finite number from zero to one, and how
/// it is written.
#[derive(Debug)]
pub struct Confidence {
    pub within: bool,
    pub text: String,
}

/// What a `Confidence` holds.
#[verifier::ext_equal]
pub struct ConfidenceView {
    pub within: bool,
    pub text: Seq<char>,
}

impl DeepView for Confidence {
    type V = ConfidenceView;

    open spec fn deep_view(&self) -> ConfidenceView {
        ConfidenceView {
            within: self.within,
            text: self.text.deep_view(),
        }
    }
}

impl Dup for Confidence {
    fn dup(&self) -> (r: Self) {
        Confidence {
            within: self.within,
            text: self.text.dup(),
        }
    }
}

/// The flags that say which envelope is built, and whether the local compiler adds to it.
#[derive(Debug)]
pub struct EnvelopeArgs {
    pub query: Option<String>,
    pub project: Option<String>,
    pub session_id: Option<String>,
    pub local_compiler: bool,
    pub local_compiler_endpoint: Option<String>,
    pub local_compiler_model: Option<String>,
    pub task_frame_id: Option<i64>,
}

/// What an `EnvelopeArgs` holds.
#[verifier::ext_equal]
pub struct EnvelopeArgsView {
    pub query: Option<Seq<char>>,
    pub project: Option<Seq<char>>,
    pub session_id: Option<Seq<char>>,
    pub local_compiler: bool,
    pub local_compiler_endpoint: Option<Seq<char>>,
    pub local_compiler_model: Option<Seq<char>>,
    pub task_frame_id: Option<i64>,
}

impl DeepView for EnvelopeArgs {
    type V = EnvelopeArgsView;

    open spec fn deep_view(&self) -> EnvelopeArgsView {
        EnvelopeArgsView {
            query: self.query.deep_view(),
            project: self.project.deep_view(),
            session_id: self.session_id.deep_view(),
            local_compiler: self.local_compiler,
            local_compiler_endpoint: self.local_compiler_endpoint.deep_view(),
            local_compiler_model: self.local_compiler_model.deep_view(),
            task_frame_id: self.task_frame_id.deep_view(),
        }
    }
}

impl Dup for EnvelopeArgs {
    fn dup(&self) -> (r: Self) {
        EnvelopeArgs {
            query: self.query.dup(),
            project: self.project.dup(),
            session_id: self.session_id.dup(),
            local_compiler: self.local_compiler,
            local_compiler_endpoint: self.local_compiler_endpoint.dup(),
            local_compiler_model: self.local_compiler_model.dup(),
            task_frame_id: self.task_frame_id,
        }
    }
}

/// The flags of `render`.
#[derive(Debug)]
pub struct ContextRenderArgs {
    pub envelope: EnvelopeArgs,
    pub format: String,
}

/// What a `ContextRenderArgs` holds.
#[verifier::ext_equal]
pub struct ContextRenderArgsView {
    pub envelope: EnvelopeArgsView,
    pub format: Seq<char>,
}

impl DeepView for ContextRenderArgs {
    type V = ContextRenderArgsView;

    open spec fn deep_view(&self) -> ContextRenderArgsView {
        ContextRenderArgsView {
            envelope: self.envelope.deep_view(),
            format: self.format.deep_view(),
        }
    }
}

/// The flags of `prompt`.
#[derive(Debug)]
pub struct ContextPromptArgs {
    pub envelope: EnvelopeArgs,
}

/// What a `ContextPromptArgs` holds.
#[verifier::ext_equal]
pub struct ContextPromptArgsView {
    pub envelope: EnvelopeArgsView,
}

impl DeepView for ContextPromptArgs {
    type V = ContextPromptArgsView;

    open spec fn deep_view(&self) -> ContextPromptArgsView {
        ContextPromptArgsView {
            envelope: self.envelope.deep_view(),
        }
    }
}

/// The flags of `task-frame`.
#[derive(Debug)]
pub struct ContextTaskFrameArgs {
    pub query: Option<String>,
    pub project: Option<String>,
    pub session_id: Option<String>,
    pub cwd: Option<String>,
    pub client: Option<String>,
    pub allow_local_private_projection: bool,
    pub local_private_projection_reason: Option<String>,
}

/// What a `ContextTaskFrameArgs` holds.
#[verifier::ext_equal]
pub struct ContextTaskFrameArgsView {
    pub query: Option<Seq<char>>,
    pub project: Option<Seq<char>>,
    pub session_id: Option<Seq<char>>,
    pub cwd: Option<Seq<char>>,
    pub client: Option<Seq<char>>,
    pub allow_local_private_projection: bool,
    pub local_private_projection_reason: Option<Seq<char>>,
}

impl DeepView for ContextTaskFrameArgs {
    type V = ContextTaskFrameArgsView;

    open spec fn deep_view(&self) -> ContextTaskFrameArgsView {
        ContextTaskFrameArgsView {
            query: self.query.deep_view(),
            project: self.project.deep_view(),
            session_id: self.session_id.deep_view(),
            cwd: self.cwd.deep_view(),
            client: self.client.deep_view(),
            allow_local_private_projection: self.allow_local_private_projection,
            local_private_projection_reason: self.local_private_projection_reason.deep_view(),
        }
    }
}

/// The flags of `task-frames retention`.
#[derive(Debug)]
pub struct ContextTaskFrameRetentionArgs {
    pub older_than_days: i64,
    pub project: Option<String>,
    pub session_id: Option<String>,
    pub apply: bool,
}

/// What a `ContextTaskFrameRetentionArgs` holds.
#[verifier::ext_equal]
pub struct ContextTaskFrameRetentionArgsView {
    pub older_than_days: i64,
    pub project: Option<Seq<char>>,
    pub session_id: Option<Seq<char>>,
    pub apply: bool,
}

impl DeepView for ContextTaskFrameRetentionArgs {
    type V = ContextTaskFrameRetentionArgsView;

    open spec fn deep_view(&self) -> ContextTaskFrameRetentionArgsView {
        ContextTaskFrameRetentionArgsView {
            older_than_days: self.older_than_days,
            project: self.project.deep_view(),
            session_id: self.session_id.deep_view(),
            apply: self.apply,
        }
    }
}

/// The flags of `task-frames outcomes`.
#[derive(Debug)]
pub struct ContextTaskFrameOutcomesArgs {
    pub project: Option<String>,
    pub session_id: Option<String>,
    pub task_frame_id: Option<i64>,
    pub limit: usize,
}

/// What a `ContextTaskFrameOutcomesArgs` holds.
#[verifier::ext_equal]
pub struct ContextTaskFrameOutcomesArgsView {
    pub project: Option<Seq<char>>,
    pub session_id: Option<Seq<char>>,
    pub task_frame_id: Option<i64>,
    pub limit: usize,
}

impl DeepView for ContextTaskFrameOutcomesArgs {
    type V = ContextTaskFrameOutcomesArgsView;

    open spec fn deep_view(&self) -> ContextTaskFrameOutcomesArgsView {
        ContextTaskFrameOutcomesArgsView {
            project: self.project.deep_view(),
            session_id: self.session_id.deep_view(),
            task_frame_id: self.task_frame_id.deep_view(),
            limit: self.limit,
        }
    }
}

/// The flags of `task-frame-outcome`.
#[derive(Debug)]
pub struct ContextTaskFrameOutcomeArgs {
    pub task_frame_id: i64,
    pub outcome_type: String,
    pub summary: String,
    pub evidence_kind: String,
    pub evidence_id: String,
    pub evidence_source: Option<String>,
    pub claim_ids: Vec<i64>,
    pub proposal_ids: Vec<i64>,
    pub latent_proxy_ids: Vec<i64>,
}

/// What a `ContextTaskFrameOutcomeArgs` holds.
#[verifier::ext_equal]
pub struct ContextTaskFrameOutcomeArgsView {
    pub task_frame_id: i64,
    pub outcome_type: Seq<char>,
    pub summary: Seq<char>,
    pub evidence_kind: Seq<char>,
    pub evidence_id: Seq<char>,
    pub evidence_source: Option<Seq<char>>,
    pub claim_ids: Seq<i64>,
    pub proposal_ids: Seq<i64>,
    pub latent_proxy_ids: Seq<i64>,
}

impl DeepView for ContextTaskFrameOutcomeArgs {
    type V = ContextTaskFrameOutcomeArgsView;

    open spec fn deep_view(&self) -> ContextTaskFrameOutcomeArgsView {
        ContextTaskFrameOutcomeArgsView {
            task_frame_id: self.task_frame_id,
            outcome_type: self.outcome_type.deep_view(),
            summary: self.summary.deep_view(),
            evidence_kind: self.evidence_kind.deep_view(),
            evidence_id: self.evidence_id.deep_view(),
            evidence_source: self.evidence_source.deep_view(),
            claim_ids: self.claim_ids.deep_view(),
            proposal_ids: self.proposal_ids.deep_view(),
            latent_proxy_ids: self.latent_proxy_ids.deep_view(),
        }
    }
}

/// The flags of `l3-decay`.
#[derive(Debug)]
pub struct ContextL3DecayArgs {
    pub older_than_days: i64,
    pub cutoff_ns: Option<i64>,
    pub max_access_count: i64,
    pub reason: String,
    pub dry_run: bool,
    pub limit: usize,
}

/// What a `ContextL3DecayArgs` holds.
#[verifier::ext_equal]
pub struct ContextL3DecayArgsView {
    pub older_than_days: i64,
    pub cutoff_ns: Option<i64>,
    pub max_access_count: i64,
    pub reason: Seq<char>,
    pub dry_run: bool,
    pub limit: usize,
}

impl DeepView for ContextL3DecayArgs {
    type V = ContextL3DecayArgsView;

    open spec fn deep_view(&self) -> ContextL3DecayArgsView {
        ContextL3DecayArgsView {
            older_than_days: self.older_than_days,
            cutoff_ns: self.cutoff_ns.deep_view(),
            max_access_count: self.max_access_count,
            reason: self.reason.deep_view(),
            dry_run: self.dry_run,
            limit: self.limit,
        }
    }
}

/// The flags of `l2-promote`.
#[derive(Debug)]
pub struct ContextL2PromoteArgs {
    pub project: Option<String>,
    pub session_id: Option<String>,
    pub apply: bool,
    pub min_confidence: Confidence,
    pub anomaly_min_confidence: Confidence,
    pub min_repeated_support: usize,
    pub manual_proxy_ids: Vec<i64>,
    pub reason: String,
    pub limit: usize,
}

/// What a `ContextL2PromoteArgs` holds.
#[verifier::ext_equal]
pub struct ContextL2PromoteArgsView {
    pub project: Option<Seq<char>>,
    pub session_id: Option<Seq<char>>,
    pub apply: bool,
    pub min_confidence: ConfidenceView,
    pub anomaly_min_confidence: ConfidenceView,
    pub min_repeated_support: usize,
    pub manual_proxy_ids: Seq<i64>,
    pub reason: Seq<char>,
    pub limit: usize,
}

impl DeepView for ContextL2PromoteArgs {
    type V = ContextL2PromoteArgsView;

    open spec fn deep_view(&self) -> ContextL2PromoteArgsView {
        ContextL2PromoteArgsView {
            project: self.project.deep_view(),
            session_id: self.session_id.deep_view(),
            apply: self.apply,
            min_confidence: self.min_confidence.deep_view(),
            anomaly_min_confidence: self.anomaly_min_confidence.deep_view(),
            min_repeated_support: self.min_repeated_support,
            manual_proxy_ids: self.manual_proxy_ids.deep_view(),
            reason: self.reason.deep_view(),
            limit: self.limit,
        }
    }
}

/// The flags of `latent-predict`.
#[derive(Debug)]
pub struct ContextLatentPredictArgs {
    pub query: Option<String>,
    pub project: Option<String>,
    pub session_id: Option<String>,
    pub limit: usize,
    pub scan_limit: usize,
    pub min_confidence: Confidence,
}

/// What a `ContextLatentPredictArgs` holds.
#[verifier::ext_equal]
pub struct ContextLatentPredictArgsView {
    pub query: Option<Seq<char>>,
    pub project: Option<Seq<char>>,
    pub session_id: Option<Seq<char>>,
    pub limit: usize,
    pub scan_limit: usize,
    pub min_confidence: ConfidenceView,
}

impl DeepView for ContextLatentPredictArgs {
    type V = ContextLatentPredictArgsView;

    open spec fn deep_view(&self) -> ContextLatentPredictArgsView {
        ContextLatentPredictArgsView {
            query: self.query.deep_view(),
            project: self.project.deep_view(),
            session_id: self.session_id.deep_view(),
            limit: self.limit,
            scan_limit: self.scan_limit,
            min_confidence: self.min_confidence.deep_view(),
        }
    }
}

/// The flags of `latent-packet`.
#[derive(Debug)]
pub struct ContextLatentPacketArgs {
    pub query: Option<String>,
    pub project: Option<String>,
    pub session_id: Option<String>,
    pub limit: usize,
    pub scan_limit: usize,
    pub min_confidence: Confidence,
}

/// What a `ContextLatentPacketArgs` holds.
#[verifier::ext_equal]
pub struct ContextLatentPacketArgsView {
    pub query: Option<Seq<char>>,
    pub project: Option<Seq<char>>,
    pub session_id: Option<Seq<char>>,
    pub limit: usize,
    pub scan_limit: usize,
    pub min_confidence: ConfidenceView,
}

impl DeepView for ContextLatentPacketArgs {
    type V = ContextLatentPacketArgsView;

    open spec fn deep_view(&self) -> ContextLatentPacketArgsView {
        ContextLatentPacketArgsView {
            query: self.query.deep_view(),
            project: self.project.deep_view(),
            session_id: self.session_id.deep_view(),
            limit: self.limit,
            scan_limit: self.scan_limit,
            min_confidence: self.min_confidence.deep_view(),
        }
    }
}

/// The flags of `latent-eval`.
#[derive(Debug)]
pub struct ContextLatentEvalArgs {
    pub project: Option<String>,
    pub session_id: Option<String>,
    pub limit: usize,
    pub scan_limit: usize,
    pub case_limit: usize,
    pub min_confidence: Confidence,
    pub case_jsonl: Option<String>,
    pub outcome_cases: bool,
}

/// What a `ContextLatentEvalArgs` holds.
#[verifier::ext_equal]
pub struct ContextLatentEvalArgsView {
    pub project: Option<Seq<char>>,
    pub session_id: Option<Seq<char>>,
    pub limit: usize,
    pub scan_limit: usize,
    pub case_limit: usize,
    pub min_confidence: ConfidenceView,
    pub case_jsonl: Option<Seq<char>>,
    pub outcome_cases: bool,
}

impl DeepView for ContextLatentEvalArgs {
    type V = ContextLatentEvalArgsView;

    open spec fn deep_view(&self) -> ContextLatentEvalArgsView {
        ContextLatentEvalArgsView {
            project: self.project.deep_view(),
            session_id: self.session_id.deep_view(),
            limit: self.limit,
            scan_limit: self.scan_limit,
            case_limit: self.case_limit,
            min_confidence: self.min_confidence.deep_view(),
            case_jsonl: self.case_jsonl.deep_view(),
            outcome_cases: self.outcome_cases,
        }
    }
}

/// The flags of `thread-identity`.
#[derive(Debug)]
pub struct ContextThreadIdentityArgs {
    pub project: Option<String>,
    pub session_id: Option<String>,
    pub limit: usize,
    pub join_window_minutes: i64,
    pub confirm: bool,
    pub list_confirmed: bool,
    pub confirm_sessions: Vec<String>,
    pub confirm_cross_session: bool,
    pub confirmation_reason: Option<String>,
    pub confirmed_by: String,
    pub thread_key: Option<String>,
}

/// What a `ContextThreadIdentityArgs` holds.
#[verifier::ext_equal]
pub struct ContextThreadIdentityArgsView {
    pub project: Option<Seq<char>>,
    pub session_id: Option<Seq<char>>,
    pub limit: usize,
    pub join_window_minutes: i64,
    pub confirm: bool,
    pub list_confirmed: bool,
    pub confirm_sessions: Seq<Seq<char>>,
    pub confirm_cross_session: bool,
    pub confirmation_reason: Option<Seq<char>>,
    pub confirmed_by: Seq<char>,
    pub thread_key: Option<Seq<char>>,
}

impl DeepView for ContextThreadIdentityArgs {
    type V = ContextThreadIdentityArgsView;

    open spec fn deep_view(&self) -> ContextThreadIdentityArgsView {
        ContextThreadIdentityArgsView {
            project: self.project.deep_view(),
            session_id: self.session_id.deep_view(),
            limit: self.limit,
            join_window_minutes: self.join_window_minutes,
            confirm: self.confirm,
            list_confirmed: self.list_confirmed,
            confirm_sessions: self.confirm_sessions.deep_view(),
            confirm_cross_session: self.confirm_cross_session,
            confirmation_reason: self.confirmation_reason.deep_view(),
            confirmed_by: self.confirmed_by.deep_view(),
            thread_key: self.thread_key.deep_view(),
        }
    }
}

/// The flags of `correct`.
#[derive(Debug)]
pub struct ContextCorrectArgs {
    pub claim: String,
    pub correction: String,
    pub project: Option<String>,
    pub session_id: Option<String>,
    pub all_projects: bool,
}

/// What a `ContextCorrectArgs` holds.
#[verifier::ext_equal]
pub struct ContextCorrectArgsView {
    pub claim: Seq<char>,
    pub correction: Seq<char>,
    pub project: Option<Seq<char>>,
    pub session_id: Option<Seq<char>>,
    pub all_projects: bool,
}

impl DeepView for ContextCorrectArgs {
    type V = ContextCorrectArgsView;

    open spec fn deep_view(&self) -> ContextCorrectArgsView {
        ContextCorrectArgsView {
            claim: self.claim.deep_view(),
            correction: self.correction.deep_view(),
            project: self.project.deep_view(),
            session_id: self.session_id.deep_view(),
            all_projects: self.all_projects,
        }
    }
}

/// The flags of `verify-claim`.
#[derive(Debug)]
pub struct ContextVerifyClaimArgs {
    pub claim_id: Option<i64>,
    pub proposal_id: Option<i64>,
    pub verifier: String,
    pub result: String,
    pub evidence_kind: String,
    pub evidence_id: String,
    pub evidence_source: Option<String>,
}

/// What a `ContextVerifyClaimArgs` holds.
#[verifier::ext_equal]
pub struct ContextVerifyClaimArgsView {
    pub claim_id: Option<i64>,
    pub proposal_id: Option<i64>,
    pub verifier: Seq<char>,
    pub result: Seq<char>,
    pub evidence_kind: Seq<char>,
    pub evidence_id: Seq<char>,
    pub evidence_source: Option<Seq<char>>,
}

impl DeepView for ContextVerifyClaimArgs {
    type V = ContextVerifyClaimArgsView;

    open spec fn deep_view(&self) -> ContextVerifyClaimArgsView {
        ContextVerifyClaimArgsView {
            claim_id: self.claim_id.deep_view(),
            proposal_id: self.proposal_id.deep_view(),
            verifier: self.verifier.deep_view(),
            result: self.result.deep_view(),
            evidence_kind: self.evidence_kind.deep_view(),
            evidence_id: self.evidence_id.deep_view(),
            evidence_source: self.evidence_source.deep_view(),
        }
    }
}

/// The flags of `learning-proposals list`.
#[derive(Debug)]
pub struct ContextLearningProposalListArgs {
    pub project: Option<String>,
    pub session_id: Option<String>,
    pub status: Option<String>,
    pub limit: usize,
}

/// What a `ContextLearningProposalListArgs` holds.
#[verifier::ext_equal]
pub struct ContextLearningProposalListArgsView {
    pub project: Option<Seq<char>>,
    pub session_id: Option<Seq<char>>,
    pub status: Option<Seq<char>>,
    pub limit: usize,
}

impl DeepView for ContextLearningProposalListArgs {
    type V = ContextLearningProposalListArgsView;

    open spec fn deep_view(&self) -> ContextLearningProposalListArgsView {
        ContextLearningProposalListArgsView {
            project: self.project.deep_view(),
            session_id: self.session_id.deep_view(),
            status: self.status.deep_view(),
            limit: self.limit,
        }
    }
}

/// The flags of `learning-proposals apply`.
#[derive(Debug)]
pub struct ContextLearningProposalApplyArgs {
    pub proposal_id: i64,
    pub confirm_destructive: bool,
}

/// What a `ContextLearningProposalApplyArgs` holds.
#[verifier::ext_equal]
pub struct ContextLearningProposalApplyArgsView {
    pub proposal_id: i64,
    pub confirm_destructive: bool,
}

impl DeepView for ContextLearningProposalApplyArgs {
    type V = ContextLearningProposalApplyArgsView;

    open spec fn deep_view(&self) -> ContextLearningProposalApplyArgsView {
        ContextLearningProposalApplyArgsView {
            proposal_id: self.proposal_id,
            confirm_destructive: self.confirm_destructive,
        }
    }
}

/// The flags of `learning-proposals apply-ready`.
#[derive(Debug)]
pub struct ContextLearningProposalApplyReadyArgs {
    pub project: Option<String>,
    pub session_id: Option<String>,
    pub limit: usize,
    pub dry_run: bool,
    pub include_decay: bool,
    pub include_noop: bool,
}

/// What a `ContextLearningProposalApplyReadyArgs` holds.
#[verifier::ext_equal]
pub struct ContextLearningProposalApplyReadyArgsView {
    pub project: Option<Seq<char>>,
    pub session_id: Option<Seq<char>>,
    pub limit: usize,
    pub dry_run: bool,
    pub include_decay: bool,
    pub include_noop: bool,
}

impl DeepView for ContextLearningProposalApplyReadyArgs {
    type V = ContextLearningProposalApplyReadyArgsView;

    open spec fn deep_view(&self) -> ContextLearningProposalApplyReadyArgsView {
        ContextLearningProposalApplyReadyArgsView {
            project: self.project.deep_view(),
            session_id: self.session_id.deep_view(),
            limit: self.limit,
            dry_run: self.dry_run,
            include_decay: self.include_decay,
            include_noop: self.include_noop,
        }
    }
}

/// The flags of `learning-proposals set-status`.
#[derive(Debug)]
pub struct ContextLearningProposalSetStatusArgs {
    pub proposal_id: i64,
    pub status: String,
    pub note: Option<String>,
}

/// What a `ContextLearningProposalSetStatusArgs` holds.
#[verifier::ext_equal]
pub struct ContextLearningProposalSetStatusArgsView {
    pub proposal_id: i64,
    pub status: Seq<char>,
    pub note: Option<Seq<char>>,
}

impl DeepView for ContextLearningProposalSetStatusArgs {
    type V = ContextLearningProposalSetStatusArgsView;

    open spec fn deep_view(&self) -> ContextLearningProposalSetStatusArgsView {
        ContextLearningProposalSetStatusArgsView {
            proposal_id: self.proposal_id,
            status: self.status.deep_view(),
            note: self.note.deep_view(),
        }
    }
}

/// The flags of `review-queue`.
#[derive(Debug)]
pub struct ContextReviewQueueArgs {
    pub project: Option<String>,
    pub session_id: Option<String>,
    pub limit: usize,
    pub json: bool,
    pub format: String,
}

/// What a `ContextReviewQueueArgs` holds.
#[verifier::ext_equal]
pub struct ContextReviewQueueArgsView {
    pub project: Option<Seq<char>>,
    pub session_id: Option<Seq<char>>,
    pub limit: usize,
    pub json: bool,
    pub format: Seq<char>,
}

impl DeepView for ContextReviewQueueArgs {
    type V = ContextReviewQueueArgsView;

    open spec fn deep_view(&self) -> ContextReviewQueueArgsView {
        ContextReviewQueueArgsView {
            project: self.project.deep_view(),
            session_id: self.session_id.deep_view(),
            limit: self.limit,
            json: self.json,
            format: self.format.deep_view(),
        }
    }
}

/// The flags of `review-actions`.
#[derive(Debug)]
pub struct ContextReviewActionsArgs {
    pub project: Option<String>,
    pub session_id: Option<String>,
    pub limit: usize,
    pub include_disabled: bool,
    pub json: bool,
    pub brief: bool,
    pub format: String,
}

/// What a `ContextReviewActionsArgs` holds.
#[verifier::ext_equal]
pub struct ContextReviewActionsArgsView {
    pub project: Option<Seq<char>>,
    pub session_id: Option<Seq<char>>,
    pub limit: usize,
    pub include_disabled: bool,
    pub json: bool,
    pub brief: bool,
    pub format: Seq<char>,
}

impl DeepView for ContextReviewActionsArgs {
    type V = ContextReviewActionsArgsView;

    open spec fn deep_view(&self) -> ContextReviewActionsArgsView {
        ContextReviewActionsArgsView {
            project: self.project.deep_view(),
            session_id: self.session_id.deep_view(),
            limit: self.limit,
            include_disabled: self.include_disabled,
            json: self.json,
            brief: self.brief,
            format: self.format.deep_view(),
        }
    }
}

/// The flags of `review-batch-template`.
#[derive(Debug)]
pub struct ContextReviewBatchTemplateArgs {
    pub project: Option<String>,
    pub session_id: Option<String>,
    pub limit: usize,
    pub action: String,
    pub target_type: String,
    pub verifier: Option<String>,
    pub evidence_kind: Option<String>,
    pub evidence_id: Option<String>,
    pub evidence_source: Option<String>,
}

/// What a `ContextReviewBatchTemplateArgs` holds.
#[verifier::ext_equal]
pub struct ContextReviewBatchTemplateArgsView {
    pub project: Option<Seq<char>>,
    pub session_id: Option<Seq<char>>,
    pub limit: usize,
    pub action: Seq<char>,
    pub target_type: Seq<char>,
    pub verifier: Option<Seq<char>>,
    pub evidence_kind: Option<Seq<char>>,
    pub evidence_id: Option<Seq<char>>,
    pub evidence_source: Option<Seq<char>>,
}

impl DeepView for ContextReviewBatchTemplateArgs {
    type V = ContextReviewBatchTemplateArgsView;

    open spec fn deep_view(&self) -> ContextReviewBatchTemplateArgsView {
        ContextReviewBatchTemplateArgsView {
            project: self.project.deep_view(),
            session_id: self.session_id.deep_view(),
            limit: self.limit,
            action: self.action.deep_view(),
            target_type: self.target_type.deep_view(),
            verifier: self.verifier.deep_view(),
            evidence_kind: self.evidence_kind.deep_view(),
            evidence_id: self.evidence_id.deep_view(),
            evidence_source: self.evidence_source.deep_view(),
        }
    }
}

/// The flags of `review-report`.
#[derive(Debug)]
pub struct ContextReviewReportArgs {
    pub project: Option<String>,
    pub session_id: Option<String>,
    pub limit: usize,
    pub include_disabled: bool,
    pub action: String,
    pub target_type: String,
    pub verifier: Option<String>,
    pub evidence_kind: Option<String>,
    pub evidence_id: Option<String>,
    pub evidence_source: Option<String>,
    pub format: String,
}

/// What a `ContextReviewReportArgs` holds.
#[verifier::ext_equal]
pub struct ContextReviewReportArgsView {
    pub project: Option<Seq<char>>,
    pub session_id: Option<Seq<char>>,
    pub limit: usize,
    pub include_disabled: bool,
    pub action: Seq<char>,
    pub target_type: Seq<char>,
    pub verifier: Option<Seq<char>>,
    pub evidence_kind: Option<Seq<char>>,
    pub evidence_id: Option<Seq<char>>,
    pub evidence_source: Option<Seq<char>>,
    pub format: Seq<char>,
}

impl DeepView for ContextReviewReportArgs {
    type V = ContextReviewReportArgsView;

    open spec fn deep_view(&self) -> ContextReviewReportArgsView {
        ContextReviewReportArgsView {
            project: self.project.deep_view(),
            session_id: self.session_id.deep_view(),
            limit: self.limit,
            include_disabled: self.include_disabled,
            action: self.action.deep_view(),
            target_type: self.target_type.deep_view(),
            verifier: self.verifier.deep_view(),
            evidence_kind: self.evidence_kind.deep_view(),
            evidence_id: self.evidence_id.deep_view(),
            evidence_source: self.evidence_source.deep_view(),
            format: self.format.deep_view(),
        }
    }
}

/// The flags of `review-digest`.
#[derive(Debug)]
pub struct ContextReviewDigestArgs {
    pub project: Option<String>,
    pub session_id: Option<String>,
    pub limit: usize,
    pub client: Option<String>,
    pub include_queue_only: bool,
    pub format: String,
}

/// What a `ContextReviewDigestArgs` holds.
#[verifier::ext_equal]
pub struct ContextReviewDigestArgsView {
    pub project: Option<Seq<char>>,
    pub session_id: Option<Seq<char>>,
    pub limit: usize,
    pub client: Option<Seq<char>>,
    pub include_queue_only: bool,
    pub format: Seq<char>,
}

impl DeepView for ContextReviewDigestArgs {
    type V = ContextReviewDigestArgsView;

    open spec fn deep_view(&self) -> ContextReviewDigestArgsView {
        ContextReviewDigestArgsView {
            project: self.project.deep_view(),
            session_id: self.session_id.deep_view(),
            limit: self.limit,
            client: self.client.deep_view(),
            include_queue_only: self.include_queue_only,
            format: self.format.deep_view(),
        }
    }
}

/// The flags of `review-digest-ack`.
#[derive(Debug)]
pub struct ContextReviewDigestAckArgs {
    pub project: Option<String>,
    pub session_id: Option<String>,
    pub limit: usize,
    pub client: Option<String>,
    pub batch_key: Option<String>,
    pub cooldown_seconds: i64,
}

/// What a `ContextReviewDigestAckArgs` holds.
#[verifier::ext_equal]
pub struct ContextReviewDigestAckArgsView {
    pub project: Option<Seq<char>>,
    pub session_id: Option<Seq<char>>,
    pub limit: usize,
    pub client: Option<Seq<char>>,
    pub batch_key: Option<Seq<char>>,
    pub cooldown_seconds: i64,
}

impl DeepView for ContextReviewDigestAckArgs {
    type V = ContextReviewDigestAckArgsView;

    open spec fn deep_view(&self) -> ContextReviewDigestAckArgsView {
        ContextReviewDigestAckArgsView {
            project: self.project.deep_view(),
            session_id: self.session_id.deep_view(),
            limit: self.limit,
            client: self.client.deep_view(),
            batch_key: self.batch_key.deep_view(),
            cooldown_seconds: self.cooldown_seconds,
        }
    }
}

/// The flags of `review-render`.
#[derive(Debug)]
pub struct ContextReviewRenderArgs {
    pub project: Option<String>,
    pub session_id: Option<String>,
    pub limit: usize,
    pub client: Option<String>,
    pub include_disabled: bool,
    pub json: bool,
    pub format: String,
    pub write_report: Option<String>,
}

/// What a `ContextReviewRenderArgs` holds.
#[verifier::ext_equal]
pub struct ContextReviewRenderArgsView {
    pub project: Option<Seq<char>>,
    pub session_id: Option<Seq<char>>,
    pub limit: usize,
    pub client: Option<Seq<char>>,
    pub include_disabled: bool,
    pub json: bool,
    pub format: Seq<char>,
    pub write_report: Option<Seq<char>>,
}

impl DeepView for ContextReviewRenderArgs {
    type V = ContextReviewRenderArgsView;

    open spec fn deep_view(&self) -> ContextReviewRenderArgsView {
        ContextReviewRenderArgsView {
            project: self.project.deep_view(),
            session_id: self.session_id.deep_view(),
            limit: self.limit,
            client: self.client.deep_view(),
            include_disabled: self.include_disabled,
            json: self.json,
            format: self.format.deep_view(),
            write_report: self.write_report.deep_view(),
        }
    }
}

/// The flags of `review-drain`.
#[derive(Debug)]
pub struct ContextReviewDrainArgs {
    pub project: Option<String>,
    pub session_id: Option<String>,
    pub limit: usize,
    pub dry_run: bool,
}

/// What a `ContextReviewDrainArgs` holds.
#[verifier::ext_equal]
pub struct ContextReviewDrainArgsView {
    pub project: Option<Seq<char>>,
    pub session_id: Option<Seq<char>>,
    pub limit: usize,
    pub dry_run: bool,
}

impl DeepView for ContextReviewDrainArgs {
    type V = ContextReviewDrainArgsView;

    open spec fn deep_view(&self) -> ContextReviewDrainArgsView {
        ContextReviewDrainArgsView {
            project: self.project.deep_view(),
            session_id: self.session_id.deep_view(),
            limit: self.limit,
            dry_run: self.dry_run,
        }
    }
}

/// The flags of `scheduler-run`.
#[derive(Debug)]
pub struct ContextSchedulerRunArgs {
    pub project: Option<String>,
    pub session_id: Option<String>,
    pub limit: usize,
    pub semantic_min_support: usize,
    pub l2_promotion_min_confidence: Confidence,
    pub l2_promotion_anomaly_min_confidence: Confidence,
    pub l2_promotion_min_repeated_support: usize,
    pub l2_promotion_reason: String,
    pub l3_decay_older_than_days: i64,
    pub l3_decay_cutoff_ns: Option<i64>,
    pub l3_decay_max_access_count: i64,
    pub l3_decay_reason: String,
    pub task_frame_retention_days: i64,
    pub task_frame_retention_cutoff_ns: Option<i64>,
    pub task_frame_retention_reason: String,
    pub dry_run: bool,
    pub passes: Vec<String>,
}

/// What a `ContextSchedulerRunArgs` holds.
#[verifier::ext_equal]
pub struct ContextSchedulerRunArgsView {
    pub project: Option<Seq<char>>,
    pub session_id: Option<Seq<char>>,
    pub limit: usize,
    pub semantic_min_support: usize,
    pub l2_promotion_min_confidence: ConfidenceView,
    pub l2_promotion_anomaly_min_confidence: ConfidenceView,
    pub l2_promotion_min_repeated_support: usize,
    pub l2_promotion_reason: Seq<char>,
    pub l3_decay_older_than_days: i64,
    pub l3_decay_cutoff_ns: Option<i64>,
    pub l3_decay_max_access_count: i64,
    pub l3_decay_reason: Seq<char>,
    pub task_frame_retention_days: i64,
    pub task_frame_retention_cutoff_ns: Option<i64>,
    pub task_frame_retention_reason: Seq<char>,
    pub dry_run: bool,
    pub passes: Seq<Seq<char>>,
}

impl DeepView for ContextSchedulerRunArgs {
    type V = ContextSchedulerRunArgsView;

    open spec fn deep_view(&self) -> ContextSchedulerRunArgsView {
        ContextSchedulerRunArgsView {
            project: self.project.deep_view(),
            session_id: self.session_id.deep_view(),
            limit: self.limit,
            semantic_min_support: self.semantic_min_support,
            l2_promotion_min_confidence: self.l2_promotion_min_confidence.deep_view(),
            l2_promotion_anomaly_min_confidence: self.l2_promotion_anomaly_min_confidence.deep_view(),
            l2_promotion_min_repeated_support: self.l2_promotion_min_repeated_support,
            l2_promotion_reason: self.l2_promotion_reason.deep_view(),
            l3_decay_older_than_days: self.l3_decay_older_than_days,
            l3_decay_cutoff_ns: self.l3_decay_cutoff_ns.deep_view(),
            l3_decay_max_access_count: self.l3_decay_max_access_count,
            l3_decay_reason: self.l3_decay_reason.deep_view(),
            task_frame_retention_days: self.task_frame_retention_days,
            task_frame_retention_cutoff_ns: self.task_frame_retention_cutoff_ns.deep_view(),
            task_frame_retention_reason: self.task_frame_retention_reason.deep_view(),
            dry_run: self.dry_run,
            passes: self.passes.deep_view(),
        }
    }
}

/// The flags of `semantic-proposals`.
#[derive(Debug)]
pub struct ContextSemanticProposalsArgs {
    pub project: Option<String>,
    pub session_id: Option<String>,
    pub limit: usize,
    pub min_support: usize,
    pub dry_run: bool,
    pub json: bool,
    pub brief: bool,
    pub format: String,
}

/// What a `ContextSemanticProposalsArgs` holds.
#[verifier::ext_equal]
pub struct ContextSemanticProposalsArgsView {
    pub project: Option<Seq<char>>,
    pub session_id: Option<Seq<char>>,
    pub limit: usize,
    pub min_support: usize,
    pub dry_run: bool,
    pub json: bool,
    pub brief: bool,
    pub format: Seq<char>,
}

impl DeepView for ContextSemanticProposalsArgs {
    type V = ContextSemanticProposalsArgsView;

    open spec fn deep_view(&self) -> ContextSemanticProposalsArgsView {
        ContextSemanticProposalsArgsView {
            project: self.project.deep_view(),
            session_id: self.session_id.deep_view(),
            limit: self.limit,
            min_support: self.min_support,
            dry_run: self.dry_run,
            json: self.json,
            brief: self.brief,
            format: self.format.deep_view(),
        }
    }
}

/// The flags of `open-decision-proposals`.
#[derive(Debug)]
pub struct ContextOpenDecisionProposalsArgs {
    pub project: Option<String>,
    pub session_id: Option<String>,
    pub limit: usize,
    pub dry_run: bool,
}

/// What a `ContextOpenDecisionProposalsArgs` holds.
#[verifier::ext_equal]
pub struct ContextOpenDecisionProposalsArgsView {
    pub project: Option<Seq<char>>,
    pub session_id: Option<Seq<char>>,
    pub limit: usize,
    pub dry_run: bool,
}

impl DeepView for ContextOpenDecisionProposalsArgs {
    type V = ContextOpenDecisionProposalsArgsView;

    open spec fn deep_view(&self) -> ContextOpenDecisionProposalsArgsView {
        ContextOpenDecisionProposalsArgsView {
            project: self.project.deep_view(),
            session_id: self.session_id.deep_view(),
            limit: self.limit,
            dry_run: self.dry_run,
        }
    }
}

/// The flags of `review-action`.
#[derive(Debug)]
pub struct ContextReviewActionArgs {
    pub claim_id: Option<i64>,
    pub proposal_id: Option<i64>,
    pub action: String,
    pub control_id: Option<String>,
    pub verifier: String,
    pub evidence_kind: Option<String>,
    pub evidence_id: Option<String>,
    pub evidence_source: Option<String>,
    pub note: Option<String>,
    pub confirm_destructive: bool,
}

/// What a `ContextReviewActionArgs` holds.
#[verifier::ext_equal]
pub struct ContextReviewActionArgsView {
    pub claim_id: Option<i64>,
    pub proposal_id: Option<i64>,
    pub action: Seq<char>,
    pub control_id: Option<Seq<char>>,
    pub verifier: Seq<char>,
    pub evidence_kind: Option<Seq<char>>,
    pub evidence_id: Option<Seq<char>>,
    pub evidence_source: Option<Seq<char>>,
    pub note: Option<Seq<char>>,
    pub confirm_destructive: bool,
}

impl DeepView for ContextReviewActionArgs {
    type V = ContextReviewActionArgsView;

    open spec fn deep_view(&self) -> ContextReviewActionArgsView {
        ContextReviewActionArgsView {
            claim_id: self.claim_id.deep_view(),
            proposal_id: self.proposal_id.deep_view(),
            action: self.action.deep_view(),
            control_id: self.control_id.deep_view(),
            verifier: self.verifier.deep_view(),
            evidence_kind: self.evidence_kind.deep_view(),
            evidence_id: self.evidence_id.deep_view(),
            evidence_source: self.evidence_source.deep_view(),
            note: self.note.deep_view(),
            confirm_destructive: self.confirm_destructive,
        }
    }
}

/// The flags of `review-batch`.
#[derive(Debug)]
pub struct ContextReviewBatchArgs {
    pub operations_json: Option<String>,
    pub operations_file: Option<String>,
    pub dry_run: bool,
}

/// What a `ContextReviewBatchArgs` holds.
#[verifier::ext_equal]
pub struct ContextReviewBatchArgsView {
    pub operations_json: Option<Seq<char>>,
    pub operations_file: Option<Seq<char>>,
    pub dry_run: bool,
}

impl DeepView for ContextReviewBatchArgs {
    type V = ContextReviewBatchArgsView;

    open spec fn deep_view(&self) -> ContextReviewBatchArgsView {
        ContextReviewBatchArgsView {
            operations_json: self.operations_json.deep_view(),
            operations_file: self.operations_file.deep_view(),
            dry_run: self.dry_run,
        }
    }
}

/// The flags of `audit`.
#[derive(Debug)]
pub struct ContextAuditArgs {
    pub envelope: EnvelopeArgs,
}

/// What a `ContextAuditArgs` holds.
#[verifier::ext_equal]
pub struct ContextAuditArgsView {
    pub envelope: EnvelopeArgsView,
}

impl DeepView for ContextAuditArgs {
    type V = ContextAuditArgsView;

    open spec fn deep_view(&self) -> ContextAuditArgsView {
        ContextAuditArgsView {
            envelope: self.envelope.deep_view(),
        }
    }
}

/// The flags of `trust-audit`.
#[derive(Debug)]
pub struct ContextTrustAuditArgs {
    pub project: Option<String>,
    pub session_id: Option<String>,
    pub limit: usize,
}

/// What a `ContextTrustAuditArgs` holds.
#[verifier::ext_equal]
pub struct ContextTrustAuditArgsView {
    pub project: Option<Seq<char>>,
    pub session_id: Option<Seq<char>>,
    pub limit: usize,
}

impl DeepView for ContextTrustAuditArgs {
    type V = ContextTrustAuditArgsView;

    open spec fn deep_view(&self) -> ContextTrustAuditArgsView {
        ContextTrustAuditArgsView {
            project: self.project.deep_view(),
            session_id: self.session_id.deep_view(),
            limit: self.limit,
        }
    }
}

/// The flags of `hardening-report`.
#[derive(Debug)]
pub struct ContextHardeningReportArgs {
    pub envelope: EnvelopeArgs,
    pub trust_limit: usize,
    pub review_limit: usize,
    pub client: Option<String>,
    pub required_clients: Vec<String>,
    pub client_proof_limit: usize,
    pub client_binding_config_root: Option<String>,
    pub require_client_binding_ready: bool,
    pub require_review_queue_clear: bool,
    pub require_task_frame_retention_clean: bool,
    pub require_task_frame_projection: bool,
    pub task_frame_retention_days: i64,
    pub skip_client_binding: bool,
    pub json: bool,
}

/// What a `ContextHardeningReportArgs` holds.
#[verifier::ext_equal]
pub struct ContextHardeningReportArgsView {
    pub envelope: EnvelopeArgsView,
    pub trust_limit: usize,
    pub review_limit: usize,
    pub client: Option<Seq<char>>,
    pub required_clients: Seq<Seq<char>>,
    pub client_proof_limit: usize,
    pub client_binding_config_root: Option<Seq<char>>,
    pub require_client_binding_ready: bool,
    pub require_review_queue_clear: bool,
    pub require_task_frame_retention_clean: bool,
    pub require_task_frame_projection: bool,
    pub task_frame_retention_days: i64,
    pub skip_client_binding: bool,
    pub json: bool,
}

impl DeepView for ContextHardeningReportArgs {
    type V = ContextHardeningReportArgsView;

    open spec fn deep_view(&self) -> ContextHardeningReportArgsView {
        ContextHardeningReportArgsView {
            envelope: self.envelope.deep_view(),
            trust_limit: self.trust_limit,
            review_limit: self.review_limit,
            client: self.client.deep_view(),
            required_clients: self.required_clients.deep_view(),
            client_proof_limit: self.client_proof_limit,
            client_binding_config_root: self.client_binding_config_root.deep_view(),
            require_client_binding_ready: self.require_client_binding_ready,
            require_review_queue_clear: self.require_review_queue_clear,
            require_task_frame_retention_clean: self.require_task_frame_retention_clean,
            require_task_frame_projection: self.require_task_frame_projection,
            task_frame_retention_days: self.task_frame_retention_days,
            skip_client_binding: self.skip_client_binding,
            json: self.json,
        }
    }
}

/// The flags of `why`.
#[derive(Debug)]
pub struct ContextWhyArgs {
    pub envelope: EnvelopeArgs,
    pub section: Option<String>,
    pub contains: Option<String>,
}

/// What a `ContextWhyArgs` holds.
#[verifier::ext_equal]
pub struct ContextWhyArgsView {
    pub envelope: EnvelopeArgsView,
    pub section: Option<Seq<char>>,
    pub contains: Option<Seq<char>>,
}

impl DeepView for ContextWhyArgs {
    type V = ContextWhyArgsView;

    open spec fn deep_view(&self) -> ContextWhyArgsView {
        ContextWhyArgsView {
            envelope: self.envelope.deep_view(),
            section: self.section.deep_view(),
            contains: self.contains.deep_view(),
        }
    }
}

/// The flags of `compare-ranking`.
#[derive(Debug)]
pub struct ContextCompareRankingArgs {
    pub query: Option<String>,
    pub project: Option<String>,
    pub session_id: Option<String>,
    pub semantic_k: usize,
    pub corpus: Option<String>,
    pub expected_episodes: Vec<i64>,
}

/// What a `ContextCompareRankingArgs` holds.
#[verifier::ext_equal]
pub struct ContextCompareRankingArgsView {
    pub query: Option<Seq<char>>,
    pub project: Option<Seq<char>>,
    pub session_id: Option<Seq<char>>,
    pub semantic_k: usize,
    pub corpus: Option<Seq<char>>,
    pub expected_episodes: Seq<i64>,
}

impl DeepView for ContextCompareRankingArgs {
    type V = ContextCompareRankingArgsView;

    open spec fn deep_view(&self) -> ContextCompareRankingArgsView {
        ContextCompareRankingArgsView {
            query: self.query.deep_view(),
            project: self.project.deep_view(),
            session_id: self.session_id.deep_view(),
            semantic_k: self.semantic_k,
            corpus: self.corpus.deep_view(),
            expected_episodes: self.expected_episodes.deep_view(),
        }
    }
}

/// What is to be done with task frames.
#[derive(Debug)]
pub enum ContextTaskFramesMode {
    Retention(ContextTaskFrameRetentionArgs),
    Outcomes(ContextTaskFrameOutcomesArgs),
}

/// The flags of `task-frames`.
#[derive(Debug)]
pub struct ContextTaskFramesArgs {
    pub mode: ContextTaskFramesMode,
}

/// What is to be done with the proposals of the learning critic.
#[derive(Debug)]
pub enum ContextLearningProposalMode {
    List(ContextLearningProposalListArgs),
    Apply(ContextLearningProposalApplyArgs),
    ApplyReady(ContextLearningProposalApplyReadyArgs),
    SetStatus(ContextLearningProposalSetStatusArgs),
}

/// The flags of `learning-proposals`.
#[derive(Debug)]
pub struct ContextLearningProposalsArgs {
    pub mode: ContextLearningProposalMode,
}

/// The `soma context` commands.
#[derive(Debug)]
pub enum ContextMode {
    Render(ContextRenderArgs),
    Prompt(ContextPromptArgs),
    TaskFrame(ContextTaskFrameArgs),
    TaskFrames(ContextTaskFramesArgs),
    TaskFrameOutcome(ContextTaskFrameOutcomeArgs),
    L3Decay(ContextL3DecayArgs),
    L2Promote(ContextL2PromoteArgs),
    LatentPredict(ContextLatentPredictArgs),
    LatentPacket(ContextLatentPacketArgs),
    LatentEval(ContextLatentEvalArgs),
    ThreadIdentity(ContextThreadIdentityArgs),
    Correct(ContextCorrectArgs),
    VerifyClaim(ContextVerifyClaimArgs),
    LearningProposals(ContextLearningProposalsArgs),
    ReviewQueue(ContextReviewQueueArgs),
    ReviewActions(ContextReviewActionsArgs),
    ReviewBatchTemplate(ContextReviewBatchTemplateArgs),
    ReviewReport(ContextReviewReportArgs),
    ReviewDigest(ContextReviewDigestArgs),
    ReviewDigestAck(ContextReviewDigestAckArgs),
    ReviewRender(ContextReviewRenderArgs),
    ReviewDrain(ContextReviewDrainArgs),
    SchedulerRun(ContextSchedulerRunArgs),
    SemanticProposals(ContextSemanticProposalsArgs),
    OpenDecisionProposals(ContextOpenDecisionProposalsArgs),
    ReviewAction(ContextReviewActionArgs),
    ReviewBatch(ContextReviewBatchArgs),
    Audit(ContextAuditArgs),
    TrustAudit(ContextTrustAuditArgs),
    HardeningReport(ContextHardeningReportArgs),
    Why(ContextWhyArgs),
    CompareRanking(ContextCompareRankingArgs),
}

/// The flags of one `soma context` call.
#[derive(Debug)]
pub struct ContextArgs {
    pub mode: ContextMode,
}

}
