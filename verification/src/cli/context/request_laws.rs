//! What holds of every request: it asks for what the flags say.
use super::args::{
    ContextCorrectArgs, ContextL2PromoteArgs, ContextL3DecayArgs, ContextLatentEvalArgs,
    ContextLatentPacketArgs, ContextLatentPredictArgs, ContextLearningProposalApplyReadyArgs,
    ContextLearningProposalListArgs, ContextLearningProposalSetStatusArgs,
    ContextOpenDecisionProposalsArgs, ContextReviewActionArgs, ContextReviewActionsArgs,
    ContextReviewBatchArgs, ContextReviewBatchTemplateArgs, ContextReviewDigestAckArgs,
    ContextReviewDigestArgs, ContextReviewDrainArgs, ContextReviewQueueArgs,
    ContextReviewRenderArgs, ContextReviewReportArgs, ContextSchedulerRunArgs,
    ContextSemanticProposalsArgs, ContextTaskFrameArgs, ContextTaskFrameOutcomeArgs,
    ContextTaskFrameOutcomesArgs, ContextTaskFrameRetentionArgs, ContextTrustAuditArgs,
};
use super::error::ContextFault;
use super::requests::{
    action_plan_input, apply_ready_input, correction_input, decay_at, digest_ack_input,
    digest_input, drain_input, eval_request, frame_input, open_decision_input, outcome_draft,
    outcomes_request, packet_request, predict_request, promotion_request, proposals_request,
    queue_input, render_input, report_input, retention_request, schedule, semantic_request,
    status_change, template_flags, trust_audit_input, LatentCasesView, ProposalsFormat,
    SchedulerDefaults,
};
use super::review::{
    operation_input, operations_source, review_input, OperationsSourceView,
    ReviewBatchOperationJson, ReviewTarget,
};
use super::tokens::{
    action_of, law_state_words_name_states, law_verifier_words_name_verifiers, token, verifier_of,
    LearningCriticProposalStatus, ReviewAction, VerifierType,
};
use crate::text::{lowered, trimmed};
use vstd::prelude::*;
use vstd::string::*;

verus! {

/// Outcomes are asked for as the flags say, at least one of them.
pub proof fn law_outcomes_are_asked_for_by_flags(args: ContextTaskFrameOutcomesArgs)
    ensures
        outcomes_request(args.deep_view()) matches Ok(q) ==> {
            &&& q.project == args.project.deep_view()
            &&& q.session_id == args.session_id.deep_view()
            &&& q.task_frame_id == args.task_frame_id
            &&& q.limit == args.limit
        },
        outcomes_request(args.deep_view()) is Ok <==> args.limit > 0,
{
}

/// Promotions are asked for as the flags say, and only tried unless they are to be applied.
/// They need a limit, twofold support, and confidences from 0 to 1.
pub proof fn law_promotions_are_asked_for_by_flags(args: ContextL2PromoteArgs)
    ensures
        promotion_request(args.deep_view()) matches Ok(q) ==> {
            &&& q.project == args.project.deep_view()
            &&& q.session_id == args.session_id.deep_view()
            &&& q.dry_run == !args.apply
            &&& q.min_confidence == args.min_confidence.deep_view()
            &&& q.anomaly_min_confidence == args.anomaly_min_confidence.deep_view()
            &&& q.min_repeated_support == args.min_repeated_support
            &&& q.manual_proxy_ids == args.manual_proxy_ids.deep_view()
            &&& q.reason == args.reason@
            &&& q.limit == args.limit
        },
        promotion_request(args.deep_view()) is Ok <==> args.limit > 0 && args.min_repeated_support >= 2
            && args.min_confidence.within && args.anomaly_min_confidence.within,
{
}

/// Latent proxies are asked for as the flags say: at least one, out of at least as many
/// that are looked at, with a confidence from 0 to 1.
pub proof fn law_predictions_are_asked_for_by_flags(args: ContextLatentPredictArgs)
    ensures
        predict_request(args.deep_view()) matches Ok(q) ==> {
            &&& q.query == args.query.deep_view()
            &&& q.project == args.project.deep_view()
            &&& q.session_id == args.session_id.deep_view()
            &&& q.limit == args.limit
            &&& q.scan_limit == args.scan_limit
            &&& q.min_confidence == args.min_confidence.deep_view()
        },
        predict_request(args.deep_view()) is Ok <==> 0 < args.limit <= args.scan_limit && args.min_confidence.within,
{
}

/// Latent proxies are asked for as the flags say: at least one, out of at least as many
/// that are looked at, with a confidence from 0 to 1.
pub proof fn law_packets_are_asked_for_by_flags(args: ContextLatentPacketArgs)
    ensures
        packet_request(args.deep_view()) matches Ok(q) ==> {
            &&& q.query == args.query.deep_view()
            &&& q.project == args.project.deep_view()
            &&& q.session_id == args.session_id.deep_view()
            &&& q.limit == args.limit
            &&& q.scan_limit == args.scan_limit
            &&& q.min_confidence == args.min_confidence.deep_view()
        },
        packet_request(args.deep_view()) is Ok <==> 0 < args.limit <= args.scan_limit && args.min_confidence.within,
{
}

/// Proposals that are ready are applied as the flags say.
pub proof fn law_ready_proposals_are_applied_by_flags(args: ContextLearningProposalApplyReadyArgs)
    ensures
        apply_ready_input(args.deep_view()) matches Ok(q) ==> {
            &&& q.project == args.project.deep_view()
            &&& q.session_id == args.session_id.deep_view()
            &&& q.limit == args.limit
            &&& q.dry_run == args.dry_run
            &&& q.include_decay == args.include_decay
            &&& q.include_noop == args.include_noop
        },
        apply_ready_input(args.deep_view()) is Ok <==> args.limit > 0,
{
}

/// The queue of reviews is asked for as the flags say.
pub proof fn law_review_queue_is_asked_for_by_flags(args: ContextReviewQueueArgs)
    ensures
        queue_input(args.deep_view()) matches Ok(q) ==> {
            &&& q.project == args.project.deep_view()
            &&& q.session_id == args.session_id.deep_view()
            &&& q.limit == args.limit
        },
        queue_input(args.deep_view()) is Ok <==> args.limit > 0,
{
}

/// The plan of review actions is asked for as the flags say.
pub proof fn law_review_plan_is_asked_for_by_flags(args: ContextReviewActionsArgs)
    ensures
        action_plan_input(args.deep_view()) matches Ok(q) ==> {
            &&& q.project == args.project.deep_view()
            &&& q.session_id == args.session_id.deep_view()
            &&& q.limit == args.limit
            &&& q.include_disabled == args.include_disabled
        },
        action_plan_input(args.deep_view()) is Ok <==> args.limit > 0,
{
}

/// The digest of reviews is asked for as the flags say.
pub proof fn law_review_digest_is_asked_for_by_flags(args: ContextReviewDigestArgs)
    ensures
        digest_input(args.deep_view()) matches Ok(q) ==> {
            &&& q.project == args.project.deep_view()
            &&& q.session_id == args.session_id.deep_view()
            &&& q.limit == args.limit
            &&& q.client == args.client.deep_view()
            &&& q.include_queue_only == args.include_queue_only
        },
        digest_input(args.deep_view()) is Ok <==> args.limit > 0,
{
}

/// The digest of reviews is acknowledged as the flags say.
pub proof fn law_review_digest_is_acknowledged_by_flags(args: ContextReviewDigestAckArgs)
    ensures
        digest_ack_input(args.deep_view()) matches Ok(q) ==> {
            &&& q.project == args.project.deep_view()
            &&& q.session_id == args.session_id.deep_view()
            &&& q.limit == args.limit
            &&& q.client == args.client.deep_view()
            &&& q.batch_key == args.batch_key.deep_view()
            &&& q.cooldown_seconds == args.cooldown_seconds
        },
        digest_ack_input(args.deep_view()) is Ok <==> args.limit > 0,
{
}

/// Reviews are rendered as the flags say.
pub proof fn law_reviews_are_rendered_by_flags(args: ContextReviewRenderArgs)
    ensures
        render_input(args.deep_view()) matches Ok(q) ==> {
            &&& q.project == args.project.deep_view()
            &&& q.session_id == args.session_id.deep_view()
            &&& q.limit == args.limit
            &&& q.client == args.client.deep_view()
            &&& q.include_disabled == args.include_disabled
        },
        render_input(args.deep_view()) is Ok <==> args.limit > 0,
{
}

/// Reviews are drained as the flags say, for trial iff they say so.
pub proof fn law_reviews_are_drained_by_flags(args: ContextReviewDrainArgs)
    ensures
        drain_input(args.deep_view()) matches Ok(q) ==> {
            &&& q.project == args.project.deep_view()
            &&& q.session_id == args.session_id.deep_view()
            &&& q.limit == args.limit
            &&& q.dry_run == args.dry_run
        },
        drain_input(args.deep_view()) is Ok <==> args.limit > 0,
{
}

/// Open decisions are proposed as the flags say, for trial iff they say so.
pub proof fn law_open_decisions_are_proposed_by_flags(args: ContextOpenDecisionProposalsArgs)
    ensures
        open_decision_input(args.deep_view()) matches Ok(q) ==> {
            &&& q.project == args.project.deep_view()
            &&& q.session_id == args.session_id.deep_view()
            &&& q.limit == args.limit
            &&& q.dry_run == args.dry_run
        },
        open_decision_input(args.deep_view()) is Ok <==> args.limit > 0,
{
}

/// Trust is audited as the flags say.
pub proof fn law_trust_is_audited_by_flags(args: ContextTrustAuditArgs)
    ensures
        trust_audit_input(args.deep_view()) matches Ok(q) ==> {
            &&& q.project == args.project.deep_view()
            &&& q.session_id == args.session_id.deep_view()
            &&& q.limit == args.limit
        },
        trust_audit_input(args.deep_view()) is Ok <==> true,
{
}

/// Task frames are dropped as the flags say and before the given time, at the earliest after
/// a day, and really only where that is asked for.
pub proof fn law_retention_is_asked_for_by_flags(args: ContextTaskFrameRetentionArgs, cutoff_ns: i64)
    ensures
        retention_request(args.deep_view(), cutoff_ns) matches Ok(q) ==> {
            &&& q.cutoff_ns == cutoff_ns
            &&& q.retention_days == args.older_than_days
            &&& q.project == args.project.deep_view()
            &&& q.session_id == args.session_id.deep_view()
            &&& q.apply == args.apply
        },
        retention_request(args.deep_view(), cutoff_ns) is Ok <==> args.older_than_days >= 1,
{
}

/// A correction is stored with its claim; it holds for all projects where that is asked for,
/// else for the project of the flag, else for the current one.
pub proof fn law_corrections_are_stored_by_flags(args: ContextCorrectArgs, current: Option<Seq<char>>)
    ensures
        correction_input(args.deep_view(), current) matches Ok(q) ==> {
            &&& q.claim == args.claim@
            &&& q.correction == args.correction@
            &&& q.session_id == args.session_id.deep_view()
            &&& q.project == (if args.all_projects {
                None
            } else if args.project is Some {
                args.project.deep_view()
            } else {
                current
            })
        },
        correction_input(args.deep_view(), current) is Ok <==> true,
{
}

/// The state of a proposal is changed to the one that the flag names, which is never the
/// applied one.
pub proof fn law_states_are_changed_by_flags(args: ContextLearningProposalSetStatusArgs)
    ensures
        status_change(args.deep_view()) matches Ok(q) ==> {
            &&& q.proposal_id == args.proposal_id
            &&& q.status == LearningCriticProposalStatus::Queued <==> token(args.status@) == "queued"@
            &&& q.status == LearningCriticProposalStatus::WaitingVerification <==> token(
                args.status@,
            ) == "waiting_verification"@
            &&& q.status == LearningCriticProposalStatus::Accepted <==> token(args.status@) == "accepted"@
            &&& q.status == LearningCriticProposalStatus::Rejected <==> token(args.status@) == "rejected"@
        },
        status_change(args.deep_view()) is Ok <==> token(args.status@) == "queued"@ || token(args.status@)
            == "waiting_verification"@ || token(args.status@) == "accepted"@ || token(args.status@)
            == "rejected"@,
{
    law_state_words_name_states(args.status@);
}

/// Outcomes are recorded as the flags say, each with the one piece of evidence that they
/// name.
pub proof fn law_outcomes_are_recorded_by_flags(
    args: ContextTaskFrameOutcomeArgs,
    kind: Result<Seq<char>, Seq<char>>,
)
    ensures
        outcome_draft(args.deep_view(), kind) is Ok <==> kind is Ok,
        outcome_draft(args.deep_view(), kind) matches Ok(q) ==> {
            &&& q.task_frame_id == args.task_frame_id
            &&& q.outcome_type == kind->Ok_0
            &&& q.summary == args.summary@
            &&& q.evidence_refs.len() == 1
            &&& q.evidence_refs[0].kind == args.evidence_kind@
            &&& q.evidence_refs[0].id == args.evidence_id@
            &&& q.evidence_refs[0].source == args.evidence_source.deep_view()
            &&& q.claim_ids == args.claim_ids.deep_view()
            &&& q.proposal_ids == args.proposal_ids.deep_view()
            &&& q.latent_proxy_ids == args.latent_proxy_ids.deep_view()
        },
{
}

/// Memories decay that are older than the time that a flag gives, else than the given
/// number of days, of which it is told which one was taken.
pub proof fn law_decay_is_asked_for_by_flags(
    args: ContextL3DecayArgs,
    cutoff: Result<i64, Seq<char>>,
)
    ensures
        decay_at(args.deep_view(), cutoff) matches Ok(q) ==> {
            &&& args.cutoff_ns matches Some(ns) ==> q.cutoff_ns == ns && q.cutoff_source
                == "explicit_cutoff_ns"@
            &&& args.cutoff_ns is None ==> cutoff == Ok::<i64, Seq<char>>(q.cutoff_ns)
                && q.cutoff_source == "older_than_days"@
            &&& q.max_access_count == args.max_access_count
            &&& q.reason == args.reason@
            &&& q.dry_run == args.dry_run
            &&& q.limit == args.limit
        },
        decay_at(args.deep_view(), cutoff) is Ok <==> args.older_than_days >= 1 && args.limit > 0
            && (args.cutoff_ns is Some || cutoff is Ok),
{
}

/// Predictions are evaluated on the cases of a file where one is named, else on outcomes
/// where that is asked for, else on what is stored.
pub proof fn law_evaluation_is_asked_for_by_flags(args: ContextLatentEvalArgs)
    ensures
        eval_request(args.deep_view()) is Ok <==> 0 < args.limit <= args.scan_limit
            && args.case_limit > 0 && args.min_confidence.within,
        eval_request(args.deep_view()) matches Ok((cases, q)) ==> {
            &&& args.case_jsonl matches Some(p) ==> cases == LatentCasesView::Jsonl(p@)
                && q.case_source == "jsonl:"@ + p@
            &&& args.case_jsonl is None && args.outcome_cases ==> cases == LatentCasesView::Outcomes
                && q.case_source == "task_frame_outcome"@
            &&& args.case_jsonl is None && !args.outcome_cases ==> cases == LatentCasesView::Storage
                && q.case_source == "storage_active_prediction_eligible_proxy"@
            &&& q.project == args.project.deep_view()
            &&& q.session_id == args.session_id.deep_view()
            &&& q.limit == args.limit
            &&& q.scan_limit == args.scan_limit
            &&& q.case_limit == args.case_limit
            &&& q.min_confidence == args.min_confidence.deep_view()
        },
{
}

/// A task frame is built for what the flags say, with the current project and directory
/// where they name none.
pub proof fn law_frames_are_built_by_flags(
    args: ContextTaskFrameArgs,
    project: Option<Seq<char>>,
    cwd: Option<Seq<char>>,
)
    ensures
        ({
            let q = frame_input(args.deep_view(), project, cwd);
            &&& q.query == args.query.deep_view()
            &&& args.project is Some ==> q.project == args.project.deep_view()
            &&& args.project is None ==> q.project == project
            &&& q.session_id == args.session_id.deep_view()
            &&& args.cwd is Some ==> q.cwd == args.cwd.deep_view()
            &&& args.cwd is None ==> q.cwd == cwd
            &&& q.client == args.client.deep_view()
            &&& q.allow_local_private_projection == args.allow_local_private_projection
            &&& q.local_private_projection_reason
                == args.local_private_projection_reason.deep_view()
        }),
{
}

/// Proposals are listed as the flags say: of the state that the flag names, or of all
/// states without one.
pub proof fn law_proposals_are_listed_by_flags(args: ContextLearningProposalListArgs)
    ensures
        proposals_request(args.deep_view()) matches Ok(q) ==> {
            &&& q.project == args.project.deep_view()
            &&& q.session_id == args.session_id.deep_view()
            &&& q.limit == args.limit
            &&& q.status is Some <==> args.status is Some
            &&& args.status matches Some(s) ==> {
                &&& q.status == Some(LearningCriticProposalStatus::Queued) <==> token(s@)
                    == "queued"@
                &&& q.status == Some(LearningCriticProposalStatus::WaitingVerification)
                    <==> token(s@) == "waiting_verification"@
                &&& q.status == Some(LearningCriticProposalStatus::Accepted) <==> token(s@)
                    == "accepted"@
                &&& q.status == Some(LearningCriticProposalStatus::Rejected) <==> token(s@)
                    == "rejected"@
                &&& q.status == Some(LearningCriticProposalStatus::Applied) <==> token(s@)
                    == "applied"@
            }
        },
{
    if args.status is Some {
        law_state_words_name_states(args.status->0@);
    }
}

/// The report of reviews is made for the action, the target and the verifier whose words
/// the flags give; the template of a batch is made for the same flags, with what is
/// disabled left out.
pub proof fn law_reports_are_made_by_flags(
    args: ContextReviewReportArgs,
    other: ContextReviewBatchTemplateArgs,
)
    ensures
        report_input(args.deep_view()) matches Ok(q) ==> {
            &&& q.project == args.project.deep_view()
            &&& q.session_id == args.session_id.deep_view()
            &&& q.limit == args.limit
            &&& q.limit > 0
            &&& q.include_disabled == args.include_disabled
            &&& q.action == lowered(trimmed(args.action@))
            &&& q.target_type == Some(lowered(trimmed(args.target_type@)))
            &&& q.verifier_type is Some <==> args.verifier is Some
            &&& args.verifier matches Some(s) ==> q.verifier_type == Some(token(s@))
            &&& q.evidence_kind == args.evidence_kind.deep_view()
            &&& q.evidence_id == args.evidence_id.deep_view()
            &&& q.evidence_source == args.evidence_source.deep_view()
        },
        report_input(template_flags(other.deep_view())) matches Ok(q) ==> {
            &&& q.project == other.project.deep_view()
            &&& q.session_id == other.session_id.deep_view()
            &&& q.limit == other.limit
            &&& !q.include_disabled
            &&& q.action == lowered(trimmed(other.action@))
            &&& q.target_type == Some(lowered(trimmed(other.target_type@)))
            &&& other.verifier matches Some(s) ==> q.verifier_type == Some(token(s@))
            &&& q.evidence_kind == other.evidence_kind.deep_view()
            &&& q.evidence_id == other.evidence_id.deep_view()
            &&& q.evidence_source == other.evidence_source.deep_view()
        },
{
}

/// The scheduler runs as the flags say: with the times that they give or else the given
/// ones, and with the reasons that they give, trimmed, or else the standing ones. It runs
/// only with a limit, twofold supports, confidences from 0 to 1, ages of at least a day and
/// a count that is not negative.
pub proof fn law_scheduler_runs_by_flags(
    args: ContextSchedulerRunArgs,
    passes: Result<Seq<Seq<char>>, Seq<char>>,
    decay: Result<i64, Seq<char>>,
    retention: Result<i64, Seq<char>>,
    defaults: SchedulerDefaults,
)
    ensures
        schedule(args.deep_view(), passes, decay, retention, defaults.deep_view()) is Ok <==> {
            &&& args.limit > 0
            &&& args.semantic_min_support >= 2
            &&& args.l2_promotion_min_confidence.within
            &&& args.l2_promotion_anomaly_min_confidence.within
            &&& args.l2_promotion_min_repeated_support >= 2
            &&& args.l3_decay_older_than_days >= 1
            &&& args.l3_decay_max_access_count >= 0
            &&& args.task_frame_retention_days >= 1
            &&& passes is Ok
            &&& decay is Ok
            &&& retention is Ok
        },
        schedule(args.deep_view(), passes, decay, retention, defaults.deep_view()) matches Ok(q)
            ==> {
            &&& q.project == args.project.deep_view()
            &&& q.session_id == args.session_id.deep_view()
            &&& q.limit == args.limit
            &&& q.semantic_min_support == args.semantic_min_support
            &&& q.l2_promotion_min_confidence == args.l2_promotion_min_confidence.deep_view()
            &&& q.l2_promotion_anomaly_min_confidence
                == args.l2_promotion_anomaly_min_confidence.deep_view()
            &&& q.l2_promotion_min_repeated_support == args.l2_promotion_min_repeated_support
            &&& q.l2_promotion_reason == (if trimmed(args.l2_promotion_reason@).len() > 0 {
                trimmed(args.l2_promotion_reason@)
            } else {
                defaults.l2_promotion_reason@
            })
            &&& q.l3_decay_reason == (if trimmed(args.l3_decay_reason@).len() > 0 {
                trimmed(args.l3_decay_reason@)
            } else {
                defaults.l3_decay_reason@
            })
            &&& q.task_frame_retention_reason == (if trimmed(
                args.task_frame_retention_reason@,
            ).len() > 0 {
                trimmed(args.task_frame_retention_reason@)
            } else {
                defaults.task_frame_retention_reason@
            })
            &&& args.l3_decay_cutoff_ns matches Some(ns) ==> q.l3_decay_cutoff_ns == ns
            &&& args.l3_decay_cutoff_ns is None ==> q.l3_decay_cutoff_ns == decay->Ok_0
            &&& args.task_frame_retention_cutoff_ns matches Some(ns)
                ==> q.task_frame_retention_cutoff_ns == ns
            &&& args.task_frame_retention_cutoff_ns is None ==> q.task_frame_retention_cutoff_ns
                == retention->Ok_0
            &&& q.l3_decay_max_access_count == args.l3_decay_max_access_count
            &&& q.task_frame_retention_days == args.task_frame_retention_days
            &&& q.dry_run == args.dry_run
            &&& q.passes == passes->Ok_0
        },
{
}

/// Semantic proposals are asked for as the flags say, in the one format that is chosen:
/// brief where `--brief` says so, JSON where `--json` says so, else as the format names it.
pub proof fn law_semantic_proposals_are_asked_for_by_flags(args: ContextSemanticProposalsArgs)
    ensures
        semantic_request(args.deep_view()) is Ok <==> !(args.json && args.brief) && (args.json
            || args.brief || args.format@ == "json"@ || args.format@ == "brief"@) && args.limit > 0
            && args.min_support >= 2,
        semantic_request(args.deep_view()) matches Ok((format, q)) ==> {
            &&& format == ProposalsFormat::Brief <==> args.brief || (!args.json && args.format@
                == "brief"@)
            &&& q.project == args.project.deep_view()
            &&& q.session_id == args.session_id.deep_view()
            &&& q.limit == args.limit
            &&& q.min_support == args.min_support
            &&& q.dry_run == args.dry_run
        },
{
    reveal_strlit("json");
    reveal_strlit("brief");
    assert("json"@.len() == 4);
    assert("brief"@.len() == 5);
}

/// A review action is what the flags say: it is taken on the one target that they name,
/// with the action and the verifier whose words they give, and with their evidence, of
/// which the kind and the number come together and are not blank.
pub proof fn law_review_actions_are_taken_by_flags(args: ContextReviewActionArgs)
    ensures
        review_input(args.deep_view()) matches Ok(q) ==> {
            &&& match q.target {
                ReviewTarget::Claim(id) => args.claim_id == Some(id) && args.proposal_id is None,
                ReviewTarget::Proposal(id) => args.proposal_id == Some(id) && args.claim_id is None,
            }
            &&& action_of(args.action@) == Ok::<ReviewAction, ContextFault>(q.action)
            &&& q.verifier_type == Some(VerifierType::User) <==> token(args.verifier@) == "user"@
            &&& q.verifier_type == Some(VerifierType::Test) <==> token(args.verifier@) == "test"@
            &&& q.verifier_type == Some(VerifierType::Tool) <==> token(args.verifier@) == "tool"@
            &&& q.control_id == args.control_id.deep_view()
            &&& q.note == args.note.deep_view()
            &&& q.confirm_destructive == args.confirm_destructive
            &&& q.evidence_ref is Some <==> args.evidence_kind is Some
            &&& args.evidence_kind is Some <==> args.evidence_id is Some
            &&& q.evidence_ref matches Some(e) ==> {
                &&& e.kind == trimmed(args.evidence_kind->0@) && e.kind.len() > 0
                &&& e.id == trimmed(args.evidence_id->0@) && e.id.len() > 0
            }
        },
{
    law_verifier_words_name_verifiers(args.verifier@);
}

/// An operation of a batch is taken as one by flags would be: on its one target, with its
/// action, by the verifier that it names, or by the user where it names none, and with its
/// evidence, written in one way or the other.
pub proof fn law_operations_are_taken_as_written(index: nat, op: ReviewBatchOperationJson)
    ensures
        operation_input(index, op.deep_view()) matches Ok(q) ==> {
            &&& match q.target {
                ReviewTarget::Claim(id) => op.claim_id == Some(id) && op.proposal_id is None,
                ReviewTarget::Proposal(id) => op.proposal_id == Some(id) && op.claim_id is None,
            }
            &&& action_of(op.action@) == Ok::<ReviewAction, ContextFault>(q.action)
            &&& op.verifier_type is Some ==> q.verifier_type == op.verifier_type
            &&& op.verifier_type is None && op.verifier is Some ==> verifier_of(op.verifier->0@)
                == Ok::<VerifierType, ContextFault>(q.verifier_type->0)
            &&& op.verifier_type is None && op.verifier is None ==> q.verifier_type == Some(
                VerifierType::User,
            )
            &&& q.verifier_type is Some
            &&& q.control_id == op.control_id.deep_view()
            &&& q.note == op.note.deep_view()
            &&& q.confirm_destructive == op.confirm_destructive
            &&& op.evidence_ref is Some ==> q.evidence_ref == op.evidence_ref.deep_view()
                && op.evidence_kind is None && op.evidence_id is None && op.evidence_source is None
            &&& op.evidence_ref is None && op.evidence_kind is Some ==> q.evidence_ref is Some
                && q.evidence_ref->0.kind == trimmed(op.evidence_kind->0@)
                && q.evidence_ref->0.id == trimmed(op.evidence_id->0@)
        },
{
}

/// Operations come from the text or from the file that a flag names, not from both.
pub proof fn law_operations_come_from_one_place(args: ContextReviewBatchArgs)
    ensures
        operations_source(args.deep_view()) is Ok <==> (args.operations_json is Some
            <==> args.operations_file is None),
        operations_source(args.deep_view()) matches Ok(OperationsSourceView::Json(s)) ==> Some(s)
            == args.operations_json.deep_view(),
        operations_source(args.deep_view()) matches Ok(OperationsSourceView::File(p)) ==> Some(p)
            == args.operations_file.deep_view(),
{
}

}
