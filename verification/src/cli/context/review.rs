//! Review actions: one by flags, or many by a batch.
use super::args::{
    ContextReviewActionArgs, ContextReviewActionArgsView, ContextReviewBatchArgs,
    ContextReviewBatchArgsView,
};
use super::error::{bad, bad_format, plain, ContextError, ContextFault};
use super::requests::{StoredEvidenceRef, StoredEvidenceRefView};
use super::tokens::{
    action_of, parse_review_action, parse_verifier_type, verifier_of, ReviewAction, VerifierType,
};
use crate::dup::Dup;
use crate::json::{
    find, law_set_member_is_found, member_set, members_view, object_of, set_member, Json, JsonView,
    Members,
};
use crate::number::decimal;
use crate::outcome::{borrowed, copy_text, first, outcome, owned, trim_nonblank, trimmed_nonblank};
use crate::text::{cat2, cat4, none, trim, trimmed, with, Phrase};
use vstd::prelude::*;
use vstd::string::*;

verus! {

/// What is reviewed or verified.
#[derive(Debug, Clone, Copy, PartialEq, Eq, Structural)]
pub enum ReviewTarget {
    Claim(i64),
    Proposal(i64),
}

impl DeepView for ReviewTarget {
    type V = ReviewTarget;

    open spec fn deep_view(&self) -> ReviewTarget {
        *self
    }
}

/// What is done in a review, to what, and on what grounds.
#[derive(Debug)]
pub struct ReviewActionInput {
    pub target: ReviewTarget,
    pub action: ReviewAction,
    pub control_id: Option<String>,
    pub verifier_type: Option<VerifierType>,
    pub evidence_ref: Option<StoredEvidenceRef>,
    pub note: Option<String>,
    pub confirm_destructive: bool,
}

/// What a `ReviewActionInput` holds.
#[verifier::ext_equal]
pub struct ReviewActionInputView {
    pub target: ReviewTarget,
    pub action: ReviewAction,
    pub control_id: Option<Seq<char>>,
    pub verifier_type: Option<VerifierType>,
    pub evidence_ref: Option<StoredEvidenceRefView>,
    pub note: Option<Seq<char>>,
    pub confirm_destructive: bool,
}

impl DeepView for ReviewActionInput {
    type V = ReviewActionInputView;

    open spec fn deep_view(&self) -> ReviewActionInputView {
        ReviewActionInputView {
            target: self.target,
            action: self.action,
            control_id: self.control_id.deep_view(),
            verifier_type: self.verifier_type.deep_view(),
            evidence_ref: self.evidence_ref.deep_view(),
            note: self.note.deep_view(),
            confirm_destructive: self.confirm_destructive,
        }
    }
}

/// One operation of a batch, as it is written in JSON.
#[derive(Debug)]
pub struct ReviewBatchOperationJson {
    pub claim_id: Option<i64>,
    pub proposal_id: Option<i64>,
    pub action: String,
    pub control_id: Option<String>,
    pub verifier_type: Option<VerifierType>,
    pub verifier: Option<String>,
    pub evidence_ref: Option<StoredEvidenceRef>,
    pub evidence_kind: Option<String>,
    pub evidence_id: Option<String>,
    pub evidence_source: Option<String>,
    pub note: Option<String>,
    pub confirm_destructive: bool,
}

/// What a `ReviewBatchOperationJson` holds.
#[verifier::ext_equal]
pub struct ReviewBatchOperationJsonView {
    pub claim_id: Option<i64>,
    pub proposal_id: Option<i64>,
    pub action: Seq<char>,
    pub control_id: Option<Seq<char>>,
    pub verifier_type: Option<VerifierType>,
    pub verifier: Option<Seq<char>>,
    pub evidence_ref: Option<StoredEvidenceRefView>,
    pub evidence_kind: Option<Seq<char>>,
    pub evidence_id: Option<Seq<char>>,
    pub evidence_source: Option<Seq<char>>,
    pub note: Option<Seq<char>>,
    pub confirm_destructive: bool,
}

impl DeepView for ReviewBatchOperationJson {
    type V = ReviewBatchOperationJsonView;

    open spec fn deep_view(&self) -> ReviewBatchOperationJsonView {
        ReviewBatchOperationJsonView {
            claim_id: self.claim_id.deep_view(),
            proposal_id: self.proposal_id.deep_view(),
            action: self.action.deep_view(),
            control_id: self.control_id.deep_view(),
            verifier_type: self.verifier_type.deep_view(),
            verifier: self.verifier.deep_view(),
            evidence_ref: self.evidence_ref.deep_view(),
            evidence_kind: self.evidence_kind.deep_view(),
            evidence_id: self.evidence_id.deep_view(),
            evidence_source: self.evidence_source.deep_view(),
            note: self.note.deep_view(),
            confirm_destructive: self.confirm_destructive,
        }
    }
}

/// What is reviewed: a claim or a proposal, not both.
pub open spec fn target_of(claim_id: Option<i64>, proposal_id: Option<i64>) -> Result<
    ReviewTarget,
    ContextFault,
> {
    match (claim_id, proposal_id) {
        (Some(id), None) => Ok(ReviewTarget::Claim(id)),
        (None, Some(id)) => Ok(ReviewTarget::Proposal(id)),
        (None, None) => bad("one of claim_id or proposal_id is required"@),
        (Some(_), Some(_)) => bad("claim_id and proposal_id are mutually exclusive"@),
    }
}

pub fn review_target(claim_id: Option<i64>, proposal_id: Option<i64>) -> (r: Result<
    ReviewTarget,
    ContextError,
>)
    ensures
        plain(r) == target_of(claim_id, proposal_id),
{
    match (claim_id, proposal_id) {
        (Some(id), None) => Ok(ReviewTarget::Claim(id)),
        (None, Some(id)) => Ok(ReviewTarget::Proposal(id)),
        (None, None) => bad_format("one of claim_id or proposal_id is required"),
        (Some(_), Some(_)) => bad_format("claim_id and proposal_id are mutually exclusive"),
    }
}

pub fn review_target_from_cli(args: &ContextReviewActionArgs) -> (r: Result<
    ReviewTarget,
    ContextError,
>)
    ensures
        plain(r) == target_of(args.claim_id, args.proposal_id),
{
    review_target(args.claim_id, args.proposal_id)
}

/// What something rests on: all trimmed, and a blank source is none.
pub open spec fn evidence_of(
    kind: Seq<char>,
    id: Seq<char>,
    source: Option<Seq<char>>,
) -> StoredEvidenceRefView {
    StoredEvidenceRefView {
        kind: trimmed(kind),
        id: trimmed(id),
        source: trimmed_nonblank(source),
    }
}

pub fn make_evidence(kind: &str, id: &str, source: Option<&str>) -> (r: StoredEvidenceRef)
    ensures
        r.deep_view() == evidence_of(kind@, id@, source.deep_view()),
{
    StoredEvidenceRef {
        kind: trim(kind).to_string(),
        id: trim(id).to_string(),
        source: owned(trim_nonblank(source)),
    }
}

/// What the flags say that something rests on: a kind and a number, or nothing. The two
/// messages are for blank ones, and for one without the other.
pub open spec fn evidence_said(
    kind: Option<Seq<char>>,
    id: Option<Seq<char>>,
    source: Option<Seq<char>>,
    blank: Seq<char>,
    alone: Seq<char>,
) -> Result<Option<StoredEvidenceRefView>, ContextFault> {
    match (kind, id) {
        (Some(kind), Some(id)) => if trimmed(kind).len() == 0 || trimmed(id).len() == 0 {
            bad(blank)
        } else {
            Ok(Some(evidence_of(kind, id, source)))
        },
        (None, None) => Ok(None),
        _ => bad(alone),
    }
}

/// What something rests on, where it rests on something.
pub open spec fn evidence_outcome(r: Result<Option<StoredEvidenceRef>, ContextError>) -> Result<
    Option<StoredEvidenceRefView>,
    ContextFault,
> {
    match r {
        Ok(v) => Ok(v.deep_view()),
        Err(e) => Err(e.deep_view()),
    }
}

fn read_evidence(
    kind: Option<&str>,
    id: Option<&str>,
    source: Option<&str>,
    blank: &str,
    alone: &str,
) -> (r: Result<Option<StoredEvidenceRef>, ContextError>)
    ensures
        evidence_outcome(r) == evidence_said(
            kind.deep_view(),
            id.deep_view(),
            source.deep_view(),
            blank@,
            alone@,
        ),
{
    match (kind, id) {
        (Some(kind), Some(id)) => {
            if trim(kind).is_empty() || trim(id).is_empty() {
                return bad_format(blank);
            }
            Ok(Some(make_evidence(kind, id, source)))
        },
        (None, None) => Ok(None),
        _ => bad_format(alone),
    }
}

pub const EVIDENCE_BLANK: &'static str =
    "evidence_kind and evidence_id must be non-empty when supplied";

pub const EVIDENCE_ALONE: &'static str = "evidence_kind and evidence_id must be supplied together";

pub fn review_action_evidence_ref(args: &ContextReviewActionArgs) -> (r: Result<
    Option<StoredEvidenceRef>,
    ContextError,
>)
    ensures
        evidence_outcome(r) == evidence_said(
            args.evidence_kind.deep_view(),
            args.evidence_id.deep_view(),
            args.evidence_source.deep_view(),
            EVIDENCE_BLANK@,
            EVIDENCE_ALONE@,
        ),
{
    read_evidence(
        borrowed(&args.evidence_kind),
        borrowed(&args.evidence_id),
        borrowed(&args.evidence_source),
        EVIDENCE_BLANK,
        EVIDENCE_ALONE,
    )
}

/// One review action.
pub open spec fn review_input(args: ContextReviewActionArgsView) -> Result<
    ReviewActionInputView,
    ContextFault,
> {
    match target_of(args.claim_id, args.proposal_id) {
        Err(f) => Err(f),
        Ok(target) => match action_of(args.action) {
            Err(f) => Err(f),
            Ok(action) => match verifier_of(args.verifier) {
                Err(f) => Err(f),
                Ok(verifier) => match evidence_said(
                    args.evidence_kind,
                    args.evidence_id,
                    args.evidence_source,
                    EVIDENCE_BLANK@,
                    EVIDENCE_ALONE@,
                ) {
                    Err(f) => Err(f),
                    Ok(evidence_ref) => Ok(
                        ReviewActionInputView {
                            target,
                            action,
                            control_id: args.control_id,
                            verifier_type: Some(verifier),
                            evidence_ref,
                            note: args.note,
                            confirm_destructive: args.confirm_destructive,
                        },
                    ),
                },
            },
        },
    }
}

pub fn run_review_action(args: &ContextReviewActionArgs) -> (r: Result<
    ReviewActionInput,
    ContextError,
>)
    ensures
        outcome(r) == review_input(args.deep_view()),
{
    let target = match review_target_from_cli(args) {
        Err(e) => return Err(e),
        Ok(t) => t,
    };
    let action = match parse_review_action(args.action.as_str()) {
        Err(e) => return Err(e),
        Ok(a) => a,
    };
    let verifier = match parse_verifier_type(args.verifier.as_str()) {
        Err(e) => return Err(e),
        Ok(v) => v,
    };
    let evidence_ref = match review_action_evidence_ref(args) {
        Err(e) => return Err(e),
        Ok(v) => v,
    };
    Ok(
        ReviewActionInput {
            target,
            action,
            control_id: copy_text(&args.control_id),
            verifier_type: Some(verifier),
            evidence_ref,
            note: copy_text(&args.note),
            confirm_destructive: args.confirm_destructive,
        },
    )
}

// ---------------------------------------------------------------------------
// Batches
// ---------------------------------------------------------------------------

/// Where the operations of a batch are written.
#[derive(Debug)]
pub enum OperationsSource {
    Json(String),
    File(String),
}

/// What an `OperationsSource` holds.
pub enum OperationsSourceView {
    Json(Seq<char>),
    File(Seq<char>),
}

impl DeepView for OperationsSource {
    type V = OperationsSourceView;

    open spec fn deep_view(&self) -> OperationsSourceView {
        match self {
            OperationsSource::Json(s) => OperationsSourceView::Json(s@),
            OperationsSource::File(p) => OperationsSourceView::File(p@),
        }
    }
}

pub open spec fn operations_source(args: ContextReviewBatchArgsView) -> Result<
    OperationsSourceView,
    ContextFault,
> {
    match (args.operations_json, args.operations_file) {
        (Some(json), None) => Ok(OperationsSourceView::Json(json)),
        (None, Some(path)) => Ok(OperationsSourceView::File(path)),
        (None, None) => bad("one of operations_json or operations_file is required"@),
        (Some(_), Some(_)) => bad(
            "operations_json and operations_file are mutually exclusive"@,
        ),
    }
}

pub fn review_batch_operations_from_cli(args: &ContextReviewBatchArgs) -> (r: Result<
    OperationsSource,
    ContextError,
>)
    ensures
        outcome(r) == operations_source(args.deep_view()),
{
    match (&args.operations_json, &args.operations_file) {
        (Some(json), None) => Ok(OperationsSource::Json(json.clone())),
        (None, Some(path)) => Ok(OperationsSource::File(path.clone())),
        (None, None) => bad_format("one of operations_json or operations_file is required"),
        (Some(_), Some(_)) => bad_format(
            "operations_json and operations_file are mutually exclusive",
        ),
    }
}

/// A file with operations could not be read.
pub fn unread_operations(path: &str, error: &str) -> (r: ContextError)
    ensures
        r.deep_view() == ContextFault::BadFormat(
            "failed to read operations_file `"@ + path@ + "`: "@ + error@,
        ),
{
    ContextError::BadFormat(cat4("failed to read operations_file `", path, "`: ", error))
}

/// The words before a message about one operation.
pub open spec fn operation_at(index: nat) -> Seq<char> {
    "operations["@ + decimal(index) + "]"@
}

fn at_operation(index: usize) -> (r: String)
    ensures
        r@ == operation_at(index as nat),
{
    Phrase::new("operations[").n(index).t("]").done()
}

/// What an operation of a batch rests on: it is written as a whole or in parts, not both.
pub open spec fn operation_evidence(index: nat, op: ReviewBatchOperationJsonView) -> Result<
    Option<StoredEvidenceRefView>,
    ContextFault,
> {
    if op.evidence_ref is Some && (op.evidence_kind is Some || op.evidence_id is Some
        || op.evidence_source is Some) {
        bad(
            operation_at(index)
                + " must use either evidence_ref or evidence_kind/evidence_id fields"@,
        )
    } else if op.evidence_ref is Some {
        Ok(op.evidence_ref)
    } else {
        evidence_said(
            op.evidence_kind,
            op.evidence_id,
            op.evidence_source,
            operation_at(index) + " evidence_kind and evidence_id must be non-empty"@,
            operation_at(index) + " evidence_kind and evidence_id must be supplied together"@,
        )
    }
}

pub fn review_batch_evidence_ref(index: usize, op: &ReviewBatchOperationJson) -> (r: Result<
    Option<StoredEvidenceRef>,
    ContextError,
>)
    ensures
        evidence_outcome(r) == operation_evidence(index as nat, op.deep_view()),
{
    let here = at_operation(index);
    if op.evidence_ref.is_some() && (op.evidence_kind.is_some() || op.evidence_id.is_some()
        || op.evidence_source.is_some()) {
        return bad_format(
            cat2(
                here.as_str(),
                " must use either evidence_ref or evidence_kind/evidence_id fields",
            ).as_str(),
        );
    }
    if op.evidence_ref.is_some() {
        return Ok(op.evidence_ref.dup());
    }
    read_evidence(
        borrowed(&op.evidence_kind),
        borrowed(&op.evidence_id),
        borrowed(&op.evidence_source),
        cat2(here.as_str(), " evidence_kind and evidence_id must be non-empty").as_str(),
        cat2(here.as_str(), " evidence_kind and evidence_id must be supplied together").as_str(),
    )
}

pub open spec fn operation_target(index: nat, op: ReviewBatchOperationJsonView) -> Result<
    ReviewTarget,
    ContextFault,
> {
    match (op.claim_id, op.proposal_id) {
        (Some(id), None) => Ok(ReviewTarget::Claim(id)),
        (None, Some(id)) => Ok(ReviewTarget::Proposal(id)),
        (None, None) => bad(operation_at(index) + " requires claim_id or proposal_id"@),
        (Some(_), Some(_)) => bad(
            operation_at(index) + " claim_id and proposal_id are mutually exclusive"@,
        ),
    }
}

/// Who verified: as it is written, else by name, else the user.
pub open spec fn operation_verifier(op: ReviewBatchOperationJsonView) -> Result<
    VerifierType,
    ContextFault,
> {
    match (op.verifier_type, op.verifier) {
        (Some(v), _) => Ok(v),
        (None, Some(name)) => verifier_of(name),
        (None, None) => Ok(VerifierType::User),
    }
}

/// One operation of a batch as a review action.
pub open spec fn operation_input(index: nat, op: ReviewBatchOperationJsonView) -> Result<
    ReviewActionInputView,
    ContextFault,
> {
    match operation_target(index, op) {
        Err(f) => Err(f),
        Ok(target) => match action_of(op.action) {
            Err(f) => Err(f),
            Ok(action) => match operation_verifier(op) {
                Err(f) => Err(f),
                Ok(verifier) => match operation_evidence(index, op) {
                    Err(f) => Err(f),
                    Ok(evidence_ref) => Ok(
                        ReviewActionInputView {
                            target,
                            action,
                            control_id: op.control_id,
                            verifier_type: Some(verifier),
                            evidence_ref,
                            note: op.note,
                            confirm_destructive: op.confirm_destructive,
                        },
                    ),
                },
            },
        },
    }
}

pub fn review_batch_operation_from_json(index: usize, op: &ReviewBatchOperationJson) -> (r: Result<
    ReviewActionInput,
    ContextError,
>)
    ensures
        outcome(r) == operation_input(index as nat, op.deep_view()),
{
    let target = match (op.claim_id, op.proposal_id) {
        (Some(id), None) => ReviewTarget::Claim(id),
        (None, Some(id)) => ReviewTarget::Proposal(id),
        (None, None) => return bad_format(
            cat2(at_operation(index).as_str(), " requires claim_id or proposal_id").as_str(),
        ),
        (Some(_), Some(_)) => return bad_format(
            cat2(
                at_operation(index).as_str(),
                " claim_id and proposal_id are mutually exclusive",
            ).as_str(),
        ),
    };
    let action = match parse_review_action(op.action.as_str()) {
        Err(e) => return Err(e),
        Ok(a) => a,
    };
    let verifier = match (op.verifier_type, &op.verifier) {
        (Some(v), _) => v,
        (None, Some(name)) => match parse_verifier_type(name.as_str()) {
            Err(e) => return Err(e),
            Ok(v) => v,
        },
        (None, None) => VerifierType::User,
    };
    let evidence_ref = match review_batch_evidence_ref(index, op) {
        Err(e) => return Err(e),
        Ok(v) => v,
    };
    Ok(
        ReviewActionInput {
            target,
            action,
            control_id: copy_text(&op.control_id),
            verifier_type: Some(verifier),
            evidence_ref,
            note: copy_text(&op.note),
            confirm_destructive: op.confirm_destructive,
        },
    )
}

/// The operations of a batch, or what is wrong with the first that is not valid.
pub open spec fn batch_inputs(ops: Seq<ReviewBatchOperationJsonView>) -> Result<
    Seq<ReviewActionInputView>,
    ContextFault,
>
    decreases ops.len(),
{
    if ops.len() == 0 {
        Ok(Seq::empty())
    } else {
        match batch_inputs(ops.drop_last()) {
            Err(f) => Err(f),
            Ok(front) => match operation_input((ops.len() - 1) as nat, ops.last()) {
                Err(f) => Err(f),
                Ok(input) => Ok(front.push(input)),
            },
        }
    }
}

/// The operations of a batch as they were read.
pub open spec fn batch_of(read: Result<Seq<ReviewBatchOperationJsonView>, Seq<char>>) -> Result<
    Seq<ReviewActionInputView>,
    ContextFault,
> {
    match read {
        Err(e) => bad("operations JSON: "@ + e),
        Ok(ops) => batch_inputs(ops),
    }
}

/// Operations by what they hold, or why they are not JSON.
pub open spec fn operations_told(r: Result<Vec<ReviewBatchOperationJson>, String>) -> Result<
    Seq<ReviewBatchOperationJsonView>,
    Seq<char>,
> {
    match r {
        Ok(v) => Ok(v.deep_view()),
        Err(e) => Err(e@),
    }
}

/// Actions by what they hold.
pub open spec fn inputs_outcome(r: Result<Vec<ReviewActionInput>, ContextError>) -> Result<
    Seq<ReviewActionInputView>,
    ContextFault,
> {
    match r {
        Ok(v) => Ok(v.deep_view()),
        Err(e) => Err(e.deep_view()),
    }
}

proof fn lemma_batch_fault_stays(ops: Seq<ReviewBatchOperationJsonView>, n: int)
    requires
        0 <= n <= ops.len(),
        batch_inputs(ops.take(n)) is Err,
    ensures
        batch_inputs(ops) == batch_inputs(ops.take(n)),
    decreases ops.len(),
{
    if n == ops.len() {
        assert(ops.take(n) =~= ops);
    } else {
        assert(ops.drop_last().take(n) =~= ops.take(n));
        lemma_batch_fault_stays(ops.drop_last(), n);
    }
}

pub fn run_review_batch(read: &Result<Vec<ReviewBatchOperationJson>, String>) -> (r: Result<
    Vec<ReviewActionInput>,
    ContextError,
>)
    ensures
        inputs_outcome(r) == batch_of(operations_told(*read)),
{
    let ops = match read {
        Err(e) => return bad_format(cat2("operations JSON: ", e.as_str()).as_str()),
        Ok(ops) => ops,
    };
    let ghost all = ops.deep_view();
    let mut out: Vec<ReviewActionInput> = none();
    let mut i: usize = 0;
    assert(all.take(0) =~= Seq::empty());
    while i < ops.len()
        invariant
            i <= ops.len(),
            all == ops.deep_view(),
            operations_told(*read) == Ok::<Seq<ReviewBatchOperationJsonView>, Seq<char>>(all),
            batch_inputs(all.take(i as int)) == Ok::<Seq<ReviewActionInputView>, ContextFault>(
                out.deep_view(),
            ),
        decreases ops.len() - i,
    {
        assert(all.take(i + 1).drop_last() =~= all.take(i as int));
        assert(all.take(i + 1).last() == ops[i as int].deep_view());
        match review_batch_operation_from_json(i, &ops[i]) {
            Err(e) => {
                proof {
                    lemma_batch_fault_stays(all, i + 1);
                }
                return Err(e);
            },
            Ok(input) => {
                out = with(out, input);
            },
        }
        i = i + 1;
    }
    assert(all.take(i as int) =~= all);
    Ok(out)
}

// ---------------------------------------------------------------------------
// Report paths
// ---------------------------------------------------------------------------

pub const PATH_HINT: &'static str = "review_action_report_path_hint";

pub const PATH_HINT_BOUNDARY: &'static str =
    "review_action_report_path_hint_is_read_only: carrying this path in the action plan writes no file, records no client-binding proof row, creates no verification event by itself, promotes no cloud draft, and does not prove the client rendered or executed a review control";

/// Where the report of a review action goes, as an action plan carries it.
pub open spec fn path_hint(path: Seq<char>) -> JsonView {
    JsonView::Object(
        Seq::empty().push(
            ("source"@, JsonView::Text("soma.review_action_plan.report_path_hint.v1"@)),
        ).push(("path"@, JsonView::Text(path))).push(
            ("intended_writer"@, JsonView::Text("soma context review-action"@)),
        ).push(
            (
                "required_before_client_binding_proof_level"@,
                JsonView::Text("observed_review_action"@),
            ),
        ).push(("records_client_binding_proof"@, JsonView::Bool(false))).push(
            ("report_still_requires_rendered_control_id"@, JsonView::Bool(true)),
        ).push(("report_still_requires_non_cloud_verification"@, JsonView::Bool(true))).push(
            ("trust_boundary"@, JsonView::Text(PATH_HINT_BOUNDARY@)),
        ),
    )
}

/// An action plan with the path of its report, where both are there.
pub open spec fn with_path_hint(value: JsonView, path: Option<Seq<char>>) -> JsonView {
    match (path, value) {
        (Some(p), JsonView::Object(m)) => JsonView::Object(member_set(m, PATH_HINT@, path_hint(p))),
        _ => value,
    }
}

pub fn attach_review_action_report_path_hint(value: Json, path: Option<&str>) -> (r: Json)
    ensures
        r@ == with_path_hint(value@, path.deep_view()),
{
    let p = match path {
        None => return value,
        Some(p) => p,
    };
    let hint = Members::new().text("source", "soma.review_action_plan.report_path_hint.v1").text(
        "path",
        p,
    ).text("intended_writer", "soma context review-action").text(
        "required_before_client_binding_proof_level",
        "observed_review_action",
    ).flag("records_client_binding_proof", false).flag(
        "report_still_requires_rendered_control_id",
        true,
    ).flag("report_still_requires_non_cloud_verification", true).text(
        "trust_boundary",
        PATH_HINT_BOUNDARY,
    ).done();
    match value {
        Json::Object(m) => {
            assert(value@->Object_0 =~= members_view(m@));
            object_of(set_member(m, PATH_HINT, hint))
        },
        other => other,
    }
}

/// The path of the report: the variable `SOMA_REVIEW_ACTION_REPORT` says it first, then
/// `SOMA_CLIENT_BINDING_REVIEW_ACTION_REPORT`. A blank one says nothing.
pub fn review_action_report_path_hint_from_env<'a>(
    report: Option<&'a str>,
    binding_report: Option<&'a str>,
) -> (r: Option<&'a str>)
    ensures
        r.deep_view() == first(
            trimmed_nonblank(report.deep_view()),
            trimmed_nonblank(binding_report.deep_view()),
        ),
{
    match trim_nonblank(report) {
        Some(s) => Some(s),
        None => trim_nonblank(binding_report),
    }
}

// ---------------------------------------------------------------------------
// Laws
// ---------------------------------------------------------------------------

/// A batch gives as many actions as it has operations, each from its own, and it gives
/// some if and only if every operation is valid.
pub proof fn law_batch_is_all_or_nothing(ops: Seq<ReviewBatchOperationJsonView>)
    ensures
        batch_inputs(ops) is Ok <==> forall|i: int|
            0 <= i < ops.len() ==> operation_input(i as nat, #[trigger] ops[i]) is Ok,
        batch_inputs(ops) matches Ok(inputs) ==> inputs.len() == ops.len() && forall|i: int|
            0 <= i < ops.len() ==> operation_input(i as nat, ops[i]) == Ok::<
                ReviewActionInputView,
                ContextFault,
            >(#[trigger] inputs[i]),
    decreases ops.len(),
{
    if ops.len() > 0 {
        let front = ops.drop_last();
        law_batch_is_all_or_nothing(front);
        assert(ops.last() == ops[ops.len() - 1]);
        if batch_inputs(front) is Err {
            let i = choose|i: int|
                0 <= i < front.len() && !(operation_input(i as nat, #[trigger] front[i]) is Ok);
            assert(front[i] == ops[i]);
            assert(!(operation_input(i as nat, ops[i]) is Ok));
        } else {
            let inputs = batch_inputs(front)->Ok_0;
            assert forall|i: int| 0 <= i < front.len() implies operation_input(
                i as nat,
                #[trigger] ops[i],
            ) is Ok by {
                assert(front[i] == ops[i]);
            }
            assert forall|i: int| 0 <= i < front.len() implies operation_input(i as nat, ops[i])
                == Ok::<ReviewActionInputView, ContextFault>(#[trigger] inputs[i]) by {
                assert(front[i] == ops[i]);
            }
        }
    }
}

/// The path of a report changes nothing else in an action plan.
pub proof fn law_path_hint_keeps_the_plan(
    m: Seq<(Seq<char>, JsonView)>,
    path: Seq<char>,
    other: Seq<char>,
)
    requires
        other != PATH_HINT@,
    ensures
        with_path_hint(JsonView::Object(m), Some(path)) matches JsonView::Object(n) && find(
            n,
            PATH_HINT@,
        ) == Some(path_hint(path)) && find(n, other) == find(m, other),
{
    law_set_member_is_found(m, PATH_HINT@, path_hint(path), other);
}

/// Whatever the flags say, an action that is taken names what it verifies and who does.
pub proof fn law_review_actions_are_verified(args: ContextReviewActionArgsView)
    ensures
        review_input(args) matches Ok(input) ==> {
            &&& input.verifier_type is Some
            &&& args.claim_id is Some <==> input.target is Claim
            &&& args.proposal_id is Some <==> input.target is Proposal
        },
{
}

}
