//! `soma adapter-cloud-output`: the answer of a cloud model, from an editor adapter.
//!
//! What a cloud model says stays a draft until it is verified: it goes through the same
//! critic and the same queue of proposals as every other such answer.
use super::adapter_capture::{unread, unread_input};
use super::context::requests::{StoredEvidenceRef, StoredEvidenceRefView};
use crate::dup::Dup;
use crate::json::{Json, JsonView};
use crate::outcome::{borrowed, copy_text, first, outcome, owned, trim_nonblank, trimmed_nonblank};
use crate::storage::StorageError;
use crate::text::{cat2, trimmed};
use vstd::prelude::*;
use vstd::string::*;

verus! {

/// Where the claims are kept.
#[derive(Debug)]
pub struct AdapterCloudOutputContext {
    pub db_path: String,
}

/// The flags of one `soma adapter-cloud-output` call.
#[derive(Debug)]
pub struct AdapterCloudOutputArgs {
    pub json: String,
}

/// Why the command failed.
#[derive(Debug)]
#[non_exhaustive]
pub enum AdapterCloudOutputError {
    MalformedInput(String),
    LocalClaimExtractor(String),
    Storage(StorageError),
}

/// What an `AdapterCloudOutputError` holds.
pub enum CloudOutputFault {
    MalformedInput(Seq<char>),
    LocalClaimExtractor(Seq<char>),
    Storage(Seq<char>),
}

impl DeepView for AdapterCloudOutputError {
    type V = CloudOutputFault;

    open spec fn deep_view(&self) -> CloudOutputFault {
        match self {
            AdapterCloudOutputError::MalformedInput(m) => CloudOutputFault::MalformedInput(m@),
            AdapterCloudOutputError::LocalClaimExtractor(m) => {
                CloudOutputFault::LocalClaimExtractor(m@)
            },
            AdapterCloudOutputError::Storage(e) => CloudOutputFault::Storage(e.message@),
        }
    }
}

/// The message of an error.
pub open spec fn cloud_fault_text(f: CloudOutputFault) -> Seq<char> {
    match f {
        CloudOutputFault::MalformedInput(m) => "malformed input: "@ + m,
        CloudOutputFault::LocalClaimExtractor(m) => "local claim extractor: "@ + m,
        CloudOutputFault::Storage(m) => "storage: "@ + m,
    }
}

impl AdapterCloudOutputError {
    /// The exit code of an error: bad input, store and extractor each have their own.
    pub fn exit_code(&self) -> (r: i32)
        ensures
            r == match self.deep_view() {
                CloudOutputFault::MalformedInput(_) => 1i32,
                CloudOutputFault::LocalClaimExtractor(_) => 3i32,
                CloudOutputFault::Storage(_) => 2i32,
            },
    {
        match self {
            AdapterCloudOutputError::MalformedInput(_) => 1,
            AdapterCloudOutputError::LocalClaimExtractor(_) => 3,
            AdapterCloudOutputError::Storage(_) => 2,
        }
    }

    /// The message of the error.
    pub fn message(&self) -> (r: String)
        ensures
            r@ == cloud_fault_text(self.deep_view()),
    {
        match self {
            AdapterCloudOutputError::MalformedInput(m) => cat2("malformed input: ", m.as_str()),
            AdapterCloudOutputError::LocalClaimExtractor(m) => cat2(
                "local claim extractor: ",
                m.as_str(),
            ),
            AdapterCloudOutputError::Storage(e) => cat2("storage: ", e.message.as_str()),
        }
    }
}

impl From<StorageError> for AdapterCloudOutputError {
    fn from(value: StorageError) -> (r: Self) {
        AdapterCloudOutputError::Storage(value)
    }
}

impl vstd::std_specs::convert::FromSpecImpl<StorageError> for AdapterCloudOutputError {
    open spec fn obeys_from_spec() -> bool {
        true
    }

    open spec fn from_spec(value: StorageError) -> Self {
        AdapterCloudOutputError::Storage(value)
    }
}

/// What the critic decided of an answer: it accepts, unless the payload says otherwise. A
/// decision of the payload is carried as it is written.
#[derive(Debug)]
pub enum CloudDecision {
    Accept,
    Given(Json),
}

/// What a `CloudDecision` holds.
pub enum CloudDecisionView {
    Accept,
    Given(JsonView),
}

impl DeepView for CloudDecision {
    type V = CloudDecisionView;

    open spec fn deep_view(&self) -> CloudDecisionView {
        match self {
            CloudDecision::Accept => CloudDecisionView::Accept,
            CloudDecision::Given(j) => CloudDecisionView::Given(j@),
        }
    }
}

impl Dup for CloudDecision {
    fn dup(&self) -> (r: Self) {
        match self {
            CloudDecision::Accept => CloudDecision::Accept,
            CloudDecision::Given(j) => CloudDecision::Given(j.dup()),
        }
    }
}

/// What a proposal asks for: verification, unless the payload says otherwise. An action of
/// the payload is carried as it is written.
#[derive(Debug)]
pub enum ProposalAction {
    RequestVerification,
    Given(Json),
}

/// What a `ProposalAction` holds.
pub enum ProposalActionView {
    RequestVerification,
    Given(JsonView),
}

impl DeepView for ProposalAction {
    type V = ProposalActionView;

    open spec fn deep_view(&self) -> ProposalActionView {
        match self {
            ProposalAction::RequestVerification => ProposalActionView::RequestVerification,
            ProposalAction::Given(j) => ProposalActionView::Given(j@),
        }
    }
}

impl Dup for ProposalAction {
    fn dup(&self) -> (r: Self) {
        match self {
            ProposalAction::RequestVerification => ProposalAction::RequestVerification,
            ProposalAction::Given(j) => ProposalAction::Given(j.dup()),
        }
    }
}

/// The decision where the payload names none.
pub fn default_decision() -> (r: CloudDecision)
    ensures
        r.deep_view() == CloudDecisionView::Accept,
{
    CloudDecision::Accept
}

/// A proposal follows where the payload does not say.
pub fn default_enqueue_proposal() -> (r: bool)
    ensures
        r,
{
    true
}

/// The action of a proposal where the payload names none.
pub fn default_proposal_action() -> (r: ProposalAction)
    ensures
        r.deep_view() == ProposalActionView::RequestVerification,
{
    ProposalAction::RequestVerification
}

/// What a payload says: the task that an answer belongs to, the answer with what was made of
/// it, and what is to follow. Claims and requests for verification are carried as they are
/// written.
#[derive(Debug)]
pub struct CloudOutputRequest {
    pub task_frame_id: Option<i64>,
    pub task_frame_query: Option<String>,
    pub project: Option<String>,
    pub session_id: Option<String>,
    pub cwd: Option<String>,
    pub client: Option<String>,
    pub handoff_id: Option<String>,
    pub protocol_contract: Option<String>,
    pub artifact_version: Option<u32>,
    pub allow_local_private_projection: bool,
    pub local_private_projection_reason: Option<String>,
    pub output_text: String,
    pub decision: CloudDecision,
    pub extracted_claims: Vec<Json>,
    pub verification_requests: Vec<Json>,
    pub required_edits: Vec<String>,
    pub evidence_refs: Vec<StoredEvidenceRef>,
    pub local_claim_extractor: bool,
    pub local_claim_extractor_endpoint: Option<String>,
    pub local_claim_extractor_model: Option<String>,
    pub enqueue_proposal: bool,
    pub proposal_action: ProposalAction,
    pub proposal_target_lifecycle_state: Option<Json>,
    pub proposal_reason: Option<String>,
}

/// What a `CloudOutputRequest` holds.
#[verifier::ext_equal]
pub struct CloudOutputRequestView {
    pub task_frame_id: Option<i64>,
    pub task_frame_query: Option<Seq<char>>,
    pub project: Option<Seq<char>>,
    pub session_id: Option<Seq<char>>,
    pub cwd: Option<Seq<char>>,
    pub client: Option<Seq<char>>,
    pub handoff_id: Option<Seq<char>>,
    pub protocol_contract: Option<Seq<char>>,
    pub artifact_version: Option<u32>,
    pub allow_local_private_projection: bool,
    pub local_private_projection_reason: Option<Seq<char>>,
    pub output_text: Seq<char>,
    pub decision: CloudDecisionView,
    pub extracted_claims: Seq<JsonView>,
    pub verification_requests: Seq<JsonView>,
    pub required_edits: Seq<Seq<char>>,
    pub evidence_refs: Seq<StoredEvidenceRefView>,
    pub local_claim_extractor: bool,
    pub local_claim_extractor_endpoint: Option<Seq<char>>,
    pub local_claim_extractor_model: Option<Seq<char>>,
    pub enqueue_proposal: bool,
    pub proposal_action: ProposalActionView,
    pub proposal_target_lifecycle_state: Option<JsonView>,
    pub proposal_reason: Option<Seq<char>>,
}

impl DeepView for CloudOutputRequest {
    type V = CloudOutputRequestView;

    open spec fn deep_view(&self) -> CloudOutputRequestView {
        CloudOutputRequestView {
            task_frame_id: self.task_frame_id,
            task_frame_query: self.task_frame_query.deep_view(),
            project: self.project.deep_view(),
            session_id: self.session_id.deep_view(),
            cwd: self.cwd.deep_view(),
            client: self.client.deep_view(),
            handoff_id: self.handoff_id.deep_view(),
            protocol_contract: self.protocol_contract.deep_view(),
            artifact_version: self.artifact_version,
            allow_local_private_projection: self.allow_local_private_projection,
            local_private_projection_reason: self.local_private_projection_reason.deep_view(),
            output_text: self.output_text.deep_view(),
            decision: self.decision.deep_view(),
            extracted_claims: self.extracted_claims.deep_view(),
            verification_requests: self.verification_requests.deep_view(),
            required_edits: self.required_edits.deep_view(),
            evidence_refs: self.evidence_refs.deep_view(),
            local_claim_extractor: self.local_claim_extractor,
            local_claim_extractor_endpoint: self.local_claim_extractor_endpoint.deep_view(),
            local_claim_extractor_model: self.local_claim_extractor_model.deep_view(),
            enqueue_proposal: self.enqueue_proposal,
            proposal_action: self.proposal_action.deep_view(),
            proposal_target_lifecycle_state: self.proposal_target_lifecycle_state.deep_view(),
            proposal_reason: self.proposal_reason.deep_view(),
        }
    }
}

/// What a task frame is built from.
#[derive(Debug)]
pub struct TaskFrameBuildInput {
    pub query: Option<String>,
    pub project: Option<String>,
    pub session_id: Option<String>,
    pub cwd: Option<String>,
    pub client: Option<String>,
    pub allow_local_private_projection: bool,
    pub local_private_projection_reason: Option<String>,
}

/// What a `TaskFrameBuildInput` holds.
#[verifier::ext_equal]
pub struct TaskFrameBuildInputView {
    pub query: Option<Seq<char>>,
    pub project: Option<Seq<char>>,
    pub session_id: Option<Seq<char>>,
    pub cwd: Option<Seq<char>>,
    pub client: Option<Seq<char>>,
    pub allow_local_private_projection: bool,
    pub local_private_projection_reason: Option<Seq<char>>,
}

impl DeepView for TaskFrameBuildInput {
    type V = TaskFrameBuildInputView;

    open spec fn deep_view(&self) -> TaskFrameBuildInputView {
        TaskFrameBuildInputView {
            query: self.query.deep_view(),
            project: self.project.deep_view(),
            session_id: self.session_id.deep_view(),
            cwd: self.cwd.deep_view(),
            client: self.client.deep_view(),
            allow_local_private_projection: self.allow_local_private_projection,
            local_private_projection_reason: self.local_private_projection_reason.deep_view(),
        }
    }
}

/// The task frame of an answer: one that is stored, or one to be built.
#[derive(Debug)]
pub enum TaskFrameSource {
    Stored(i64),
    Build(TaskFrameBuildInput),
}

/// What a `TaskFrameSource` holds.
pub enum TaskFrameSourceView {
    Stored(i64),
    Build(TaskFrameBuildInputView),
}

impl DeepView for TaskFrameSource {
    type V = TaskFrameSourceView;

    open spec fn deep_view(&self) -> TaskFrameSourceView {
        match self {
            TaskFrameSource::Stored(id) => TaskFrameSourceView::Stored(*id),
            TaskFrameSource::Build(x) => TaskFrameSourceView::Build(x.deep_view()),
        }
    }
}

pub const FRAME_NEEDED: &'static str =
    "`task_frame_id` or non-empty `task_frame_query` is required";

pub const DEFAULT_CLIENT: &'static str = "adapter-cloud-output";

/// The task frame of an answer. An id comes first; without one the query says what the
/// frame is for.
pub open spec fn frame_of(
    p: CloudOutputRequestView,
    current_dir: Option<Seq<char>>,
    current_project: Option<Seq<char>>,
) -> Result<TaskFrameSourceView, CloudOutputFault> {
    match p.task_frame_id {
        Some(id) => Ok(TaskFrameSourceView::Stored(id)),
        None => match trimmed_nonblank(p.task_frame_query) {
            None => Err(CloudOutputFault::MalformedInput(FRAME_NEEDED@)),
            Some(query) => Ok(
                TaskFrameSourceView::Build(
                    TaskFrameBuildInputView {
                        query: Some(query),
                        project: first(p.project, current_project),
                        session_id: p.session_id,
                        cwd: first(p.cwd, current_dir),
                        client: first(p.client, Some(DEFAULT_CLIENT@)),
                        allow_local_private_projection: p.allow_local_private_projection,
                        local_private_projection_reason: p.local_private_projection_reason,
                    },
                ),
            ),
        },
    }
}

fn first_of(a: &Option<String>, b: Option<&str>) -> (r: Option<String>)
    ensures
        r.deep_view() == first(a.deep_view(), b.deep_view()),
{
    match a {
        Some(s) => Some(s.clone()),
        None => owned(b),
    }
}

/// The task frame of an answer.
pub fn resolve_task_frame_id(
    payload: &CloudOutputRequest,
    current_dir: Option<&str>,
    current_project: Option<&str>,
) -> (r: Result<TaskFrameSource, AdapterCloudOutputError>)
    ensures
        outcome(r) == frame_of(
            payload.deep_view(),
            current_dir.deep_view(),
            current_project.deep_view(),
        ),
{
    match payload.task_frame_id {
        Some(id) => return Ok(TaskFrameSource::Stored(id)),
        None => {},
    }
    let query = match trim_nonblank(borrowed(&payload.task_frame_query)) {
        None => return Err(AdapterCloudOutputError::MalformedInput(FRAME_NEEDED.to_string())),
        Some(q) => q,
    };
    Ok(
        TaskFrameSource::Build(
            TaskFrameBuildInput {
                query: Some(query.to_string()),
                project: first_of(&payload.project, current_project),
                session_id: copy_text(&payload.session_id),
                cwd: first_of(&payload.cwd, current_dir),
                client: first_of(&payload.client, Some(DEFAULT_CLIENT)),
                allow_local_private_projection: payload.allow_local_private_projection,
                local_private_projection_reason: copy_text(
                    &payload.local_private_projection_reason,
                ),
            },
        ),
    )
}

pub const DEFAULT_PROPOSAL_REASON: &'static str =
    "Cloud output captured by adapter; external verification required before durable promotion";

/// A proposal that follows an answer.
#[derive(Debug)]
pub struct ProposalPlan {
    pub action: ProposalAction,
    pub target_lifecycle_state: Option<Json>,
    pub reason: String,
}

/// What a `ProposalPlan` holds.
#[verifier::ext_equal]
pub struct ProposalPlanView {
    pub action: ProposalActionView,
    pub target_lifecycle_state: Option<JsonView>,
    pub reason: Seq<char>,
}

impl DeepView for ProposalPlan {
    type V = ProposalPlanView;

    open spec fn deep_view(&self) -> ProposalPlanView {
        ProposalPlanView {
            action: self.action.deep_view(),
            target_lifecycle_state: self.target_lifecycle_state.deep_view(),
            reason: self.reason.deep_view(),
        }
    }
}

/// What the payload says of the local model that extracts claims.
#[derive(Debug)]
pub struct ExtractorFlags {
    pub endpoint: Option<String>,
    pub model: Option<String>,
}

/// What an `ExtractorFlags` holds.
#[verifier::ext_equal]
pub struct ExtractorFlagsView {
    pub endpoint: Option<Seq<char>>,
    pub model: Option<Seq<char>>,
}

impl DeepView for ExtractorFlags {
    type V = ExtractorFlagsView;

    open spec fn deep_view(&self) -> ExtractorFlagsView {
        ExtractorFlagsView {
            endpoint: self.endpoint.deep_view(),
            model: self.model.deep_view(),
        }
    }
}

/// What is to be done with an answer: the task frame that it belongs to, how its claims are
/// extracted where a local model does that, and the proposal that follows, where one does.
#[derive(Debug)]
pub struct CloudOutputPlan {
    pub frame: TaskFrameSource,
    pub extractor: Option<ExtractorFlags>,
    pub proposal: Option<ProposalPlan>,
    pub request: CloudOutputRequest,
}

/// What a `CloudOutputPlan` holds.
#[verifier::ext_equal]
pub struct CloudOutputPlanView {
    pub frame: TaskFrameSourceView,
    pub extractor: Option<ExtractorFlagsView>,
    pub proposal: Option<ProposalPlanView>,
    pub request: CloudOutputRequestView,
}

impl DeepView for CloudOutputPlan {
    type V = CloudOutputPlanView;

    open spec fn deep_view(&self) -> CloudOutputPlanView {
        CloudOutputPlanView {
            frame: self.frame.deep_view(),
            extractor: self.extractor.deep_view(),
            proposal: self.proposal.deep_view(),
            request: self.request.deep_view(),
        }
    }
}

/// What was read of a payload, or why it was not JSON.
pub open spec fn request_view(p: Result<CloudOutputRequest, String>) -> Result<
    CloudOutputRequestView,
    Seq<char>,
> {
    match p {
        Ok(p) => Ok(p.deep_view()),
        Err(e) => Err(e@),
    }
}

/// The local model that extracts claims: only where the payload asks for one.
pub open spec fn extractor_of(p: CloudOutputRequestView) -> Option<ExtractorFlagsView> {
    if p.local_claim_extractor {
        Some(
            ExtractorFlagsView {
                endpoint: p.local_claim_extractor_endpoint,
                model: p.local_claim_extractor_model,
            },
        )
    } else {
        None
    }
}

fn find_extractor(p: &CloudOutputRequest) -> (r: Option<ExtractorFlags>)
    ensures
        r.deep_view() == extractor_of(p.deep_view()),
{
    if p.local_claim_extractor {
        Some(
            ExtractorFlags {
                endpoint: copy_text(&p.local_claim_extractor_endpoint),
                model: copy_text(&p.local_claim_extractor_model),
            },
        )
    } else {
        None
    }
}

/// The proposal that follows an answer: only where the payload asks for one.
pub open spec fn follow_up(p: CloudOutputRequestView) -> Option<ProposalPlanView> {
    if p.enqueue_proposal {
        Some(
            ProposalPlanView {
                action: p.proposal_action,
                target_lifecycle_state: p.proposal_target_lifecycle_state,
                reason: match p.proposal_reason {
                    Some(r) => r,
                    None => DEFAULT_PROPOSAL_REASON@,
                },
            },
        )
    } else {
        None
    }
}

fn find_follow_up(p: &CloudOutputRequest) -> (r: Option<ProposalPlan>)
    ensures
        r.deep_view() == follow_up(p.deep_view()),
{
    if p.enqueue_proposal {
        Some(
            ProposalPlan {
                action: p.proposal_action.dup(),
                target_lifecycle_state: p.proposal_target_lifecycle_state.dup(),
                reason: match &p.proposal_reason {
                    Some(r) => r.clone(),
                    None => DEFAULT_PROPOSAL_REASON.to_string(),
                },
            },
        )
    } else {
        None
    }
}

/// What is to be done with an answer, or why nothing is.
pub open spec fn cloud_plan(
    payload: Result<CloudOutputRequestView, Seq<char>>,
    opened: Result<(), StorageError>,
    current_dir: Option<Seq<char>>,
    current_project: Option<Seq<char>>,
) -> Result<CloudOutputPlanView, CloudOutputFault> {
    match payload {
        Err(e) => Err(CloudOutputFault::MalformedInput("JSON parse: "@ + e)),
        Ok(p) => match opened {
            Err(e) => Err(CloudOutputFault::Storage(e.message@)),
            Ok(_) => match frame_of(p, current_dir, current_project) {
                Err(f) => Err(f),
                Ok(frame) => Ok(
                    CloudOutputPlanView {
                        frame,
                        extractor: extractor_of(p),
                        proposal: follow_up(p),
                        request: p,
                    },
                ),
            },
        },
    }
}

/// What is to be done with an answer, from a payload that was read as JSON.
pub fn run_json_str(
    payload: Result<CloudOutputRequest, String>,
    opened: Result<(), StorageError>,
    current_dir: Option<&str>,
    current_project: Option<&str>,
) -> (r: Result<CloudOutputPlan, AdapterCloudOutputError>)
    ensures
        outcome(r) == cloud_plan(
            request_view(payload),
            opened,
            current_dir.deep_view(),
            current_project.deep_view(),
        ),
{
    let payload = match payload {
        Err(e) => return Err(
            AdapterCloudOutputError::MalformedInput(cat2("JSON parse: ", e.as_str())),
        ),
        Ok(p) => p,
    };
    match opened {
        Err(e) => return Err(AdapterCloudOutputError::Storage(e)),
        Ok(_) => {},
    }
    let frame = match resolve_task_frame_id(&payload, current_dir, current_project) {
        Err(e) => return Err(e),
        Ok(f) => f,
    };
    Ok(
        CloudOutputPlan {
            frame,
            extractor: find_extractor(&payload),
            proposal: find_follow_up(&payload),
            request: payload,
        },
    )
}

/// One `soma adapter-cloud-output` call. `read` is the payload that the flags name, or
/// why it could not be read.
pub fn run_blocking(
    args: &AdapterCloudOutputArgs,
    read: Result<Result<CloudOutputRequest, String>, String>,
    opened: Result<(), StorageError>,
    current_dir: Option<&str>,
    current_project: Option<&str>,
) -> (r: Result<CloudOutputPlan, AdapterCloudOutputError>)
    ensures
        outcome(r) == match read {
            Err(e) => Err(CloudOutputFault::MalformedInput(unread(args.json@, e@))),
            Ok(p) => cloud_plan(
                request_view(p),
                opened,
                current_dir.deep_view(),
                current_project.deep_view(),
            ),
        },
{
    match read {
        Err(e) => Err(
            AdapterCloudOutputError::MalformedInput(
                unread_input(args.json.as_str(), e.as_str()),
            ),
        ),
        Ok(p) => run_json_str(p, opened, current_dir, current_project),
    }
}

/// The local model that extracts claims.
#[derive(Debug)]
pub struct LocalClaimExtractorRuntime {
    pub endpoint: String,
    pub model: String,
}

/// What a `LocalClaimExtractorRuntime` holds.
#[verifier::ext_equal]
pub struct LocalClaimExtractorRuntimeView {
    pub endpoint: Seq<char>,
    pub model: Seq<char>,
}

impl DeepView for LocalClaimExtractorRuntime {
    type V = LocalClaimExtractorRuntimeView;

    open spec fn deep_view(&self) -> LocalClaimExtractorRuntimeView {
        LocalClaimExtractorRuntimeView {
            endpoint: self.endpoint.deep_view(),
            model: self.model.deep_view(),
        }
    }
}

/// What the claims of an answer are selected from: its text, the claims that came with it, and
/// the local model, where one is asked for.
#[derive(Debug)]
pub struct ClaimSelectionInput {
    pub output_text: String,
    pub claims: Vec<Json>,
    pub runtime: Option<LocalClaimExtractorRuntime>,
}

/// What a `ClaimSelectionInput` holds.
#[verifier::ext_equal]
pub struct ClaimSelectionInputView {
    pub output_text: Seq<char>,
    pub claims: Seq<JsonView>,
    pub runtime: Option<LocalClaimExtractorRuntimeView>,
}

impl DeepView for ClaimSelectionInput {
    type V = ClaimSelectionInputView;

    open spec fn deep_view(&self) -> ClaimSelectionInputView {
        ClaimSelectionInputView {
            output_text: self.output_text.deep_view(),
            claims: self.claims.deep_view(),
            runtime: self.runtime.deep_view(),
        }
    }
}

/// What the claims of an answer are selected from. The local model counts only where the
/// payload asks for one.
pub open spec fn selection_of(
    plan: CloudOutputPlanView,
    runtime: Option<LocalClaimExtractorRuntimeView>,
) -> ClaimSelectionInputView {
    ClaimSelectionInputView {
        output_text: plan.request.output_text,
        claims: plan.request.extracted_claims,
        runtime: if plan.extractor is Some {
            runtime
        } else {
            None
        },
    }
}

/// What the claims of an answer are selected from. `runtime` is the local model that the
/// flags of the plan and the configuration resolve to.
pub fn resolve_claim_extraction(
    plan: &CloudOutputPlan,
    runtime: Option<LocalClaimExtractorRuntime>,
) -> (r: ClaimSelectionInput)
    ensures
        r.deep_view() == selection_of(plan.deep_view(), runtime.deep_view()),
{
    ClaimSelectionInput {
        output_text: plan.request.output_text.clone(),
        claims: plan.request.extracted_claims.dup(),
        runtime: if plan.extractor.is_some() {
            runtime
        } else {
            None
        },
    }
}

/// What the critic made of an answer.
#[derive(Debug)]
pub struct ControlCriticResult {
    pub task_frame_id: i64,
    pub decision: CloudDecision,
    pub extracted_claims: Vec<Json>,
    pub verification_requests: Vec<Json>,
    pub required_edits: Vec<String>,
    pub evidence_refs: Vec<StoredEvidenceRef>,
}

/// What a `ControlCriticResult` holds.
#[verifier::ext_equal]
pub struct ControlCriticResultView {
    pub task_frame_id: i64,
    pub decision: CloudDecisionView,
    pub extracted_claims: Seq<JsonView>,
    pub verification_requests: Seq<JsonView>,
    pub required_edits: Seq<Seq<char>>,
    pub evidence_refs: Seq<StoredEvidenceRefView>,
}

impl DeepView for ControlCriticResult {
    type V = ControlCriticResultView;

    open spec fn deep_view(&self) -> ControlCriticResultView {
        ControlCriticResultView {
            task_frame_id: self.task_frame_id,
            decision: self.decision.deep_view(),
            extracted_claims: self.extracted_claims.deep_view(),
            verification_requests: self.verification_requests.deep_view(),
            required_edits: self.required_edits.deep_view(),
            evidence_refs: self.evidence_refs.deep_view(),
        }
    }
}

/// What is captured of an answer.
#[derive(Debug)]
pub struct CloudOutputCaptureInput {
    pub output_text: String,
    pub handoff_id: Option<String>,
    pub protocol_contract: Option<String>,
    pub artifact_version: Option<u32>,
    pub critic: ControlCriticResult,
}

/// What a `CloudOutputCaptureInput` holds.
#[verifier::ext_equal]
pub struct CloudOutputCaptureInputView {
    pub output_text: Seq<char>,
    pub handoff_id: Option<Seq<char>>,
    pub protocol_contract: Option<Seq<char>>,
    pub artifact_version: Option<u32>,
    pub critic: ControlCriticResultView,
}

impl DeepView for CloudOutputCaptureInput {
    type V = CloudOutputCaptureInputView;

    open spec fn deep_view(&self) -> CloudOutputCaptureInputView {
        CloudOutputCaptureInputView {
            output_text: self.output_text.deep_view(),
            handoff_id: self.handoff_id.deep_view(),
            protocol_contract: self.protocol_contract.deep_view(),
            artifact_version: self.artifact_version,
            critic: self.critic.deep_view(),
        }
    }
}

/// What is captured of an answer: what its payload says, with the task frame that it belongs
/// to and the claims that were selected. Without claims nothing is.
pub open spec fn capture_of(
    p: CloudOutputRequestView,
    task_frame_id: i64,
    claims: Result<Seq<JsonView>, Seq<char>>,
) -> Result<CloudOutputCaptureInputView, CloudOutputFault> {
    match claims {
        Err(e) => Err(CloudOutputFault::LocalClaimExtractor(e)),
        Ok(extracted_claims) => Ok(
            CloudOutputCaptureInputView {
                output_text: p.output_text,
                handoff_id: p.handoff_id,
                protocol_contract: p.protocol_contract,
                artifact_version: p.artifact_version,
                critic: ControlCriticResultView {
                    task_frame_id,
                    decision: p.decision,
                    extracted_claims,
                    verification_requests: p.verification_requests,
                    required_edits: p.required_edits,
                    evidence_refs: p.evidence_refs,
                },
            },
        ),
    }
}

/// The claims that were selected, or why none could be.
pub open spec fn claims_view(claims: Result<Vec<Json>, String>) -> Result<
    Seq<JsonView>,
    Seq<char>,
> {
    match claims {
        Ok(c) => Ok(c.deep_view()),
        Err(e) => Err(e@),
    }
}

/// What is captured of an answer. `task_frame_id` is the frame of the plan, once it is
/// stored, and `claims` are those that were selected, or why none could be.
pub fn capture_input(
    plan: &CloudOutputPlan,
    task_frame_id: i64,
    claims: Result<Vec<Json>, String>,
) -> (r: Result<CloudOutputCaptureInput, AdapterCloudOutputError>)
    ensures
        outcome(r) == capture_of(plan.deep_view().request, task_frame_id, claims_view(claims)),
{
    let extracted_claims = match claims {
        Err(e) => return Err(AdapterCloudOutputError::LocalClaimExtractor(e)),
        Ok(c) => c,
    };
    let p = &plan.request;
    Ok(
        CloudOutputCaptureInput {
            output_text: p.output_text.clone(),
            handoff_id: copy_text(&p.handoff_id),
            protocol_contract: copy_text(&p.protocol_contract),
            artifact_version: p.artifact_version,
            critic: ControlCriticResult {
                task_frame_id,
                decision: p.decision.dup(),
                extracted_claims,
                verification_requests: p.verification_requests.dup(),
                required_edits: p.required_edits.dup(),
                evidence_refs: p.evidence_refs.dup(),
            },
        },
    )
}

/// What was captured of an answer.
#[derive(Debug)]
pub struct CapturedCloudOutput {
    pub task_frame_id: i64,
    pub handoff_id: Option<String>,
    pub idempotency_key: String,
    pub replayed: bool,
    pub decision: Json,
    pub claim_ids: Vec<i64>,
    pub verification_event_ids: Vec<i64>,
    pub verification_requests: Json,
    pub required_edits: Vec<String>,
}

/// What a `CapturedCloudOutput` holds.
#[verifier::ext_equal]
pub struct CapturedCloudOutputView {
    pub task_frame_id: i64,
    pub handoff_id: Option<Seq<char>>,
    pub idempotency_key: Seq<char>,
    pub replayed: bool,
    pub decision: JsonView,
    pub claim_ids: Seq<i64>,
    pub verification_event_ids: Seq<i64>,
    pub verification_requests: JsonView,
    pub required_edits: Seq<Seq<char>>,
}

impl DeepView for CapturedCloudOutput {
    type V = CapturedCloudOutputView;

    open spec fn deep_view(&self) -> CapturedCloudOutputView {
        CapturedCloudOutputView {
            task_frame_id: self.task_frame_id,
            handoff_id: self.handoff_id.deep_view(),
            idempotency_key: self.idempotency_key.deep_view(),
            replayed: self.replayed,
            decision: self.decision.deep_view(),
            claim_ids: self.claim_ids.deep_view(),
            verification_event_ids: self.verification_event_ids.deep_view(),
            verification_requests: self.verification_requests.deep_view(),
            required_edits: self.required_edits.deep_view(),
        }
    }
}

/// What became of an answer. What the critic decided and asked for is carried as it is
/// written.
#[derive(Debug)]
pub struct AdapterCloudOutputOutcome {
    pub task_frame_id: i64,
    pub handoff_id: Option<String>,
    pub idempotency_key: String,
    pub replayed: bool,
    pub decision: Json,
    pub claim_ids: Vec<i64>,
    pub verification_event_ids: Vec<i64>,
    pub verification_requests: Json,
    pub required_edits: Vec<String>,
    pub proposal_id: Option<i64>,
    pub claim_extraction: Json,
    pub protocol: Json,
    pub trust_boundary: String,
}

/// What an `AdapterCloudOutputOutcome` holds.
#[verifier::ext_equal]
pub struct AdapterCloudOutputOutcomeView {
    pub task_frame_id: i64,
    pub handoff_id: Option<Seq<char>>,
    pub idempotency_key: Seq<char>,
    pub replayed: bool,
    pub decision: JsonView,
    pub claim_ids: Seq<i64>,
    pub verification_event_ids: Seq<i64>,
    pub verification_requests: JsonView,
    pub required_edits: Seq<Seq<char>>,
    pub proposal_id: Option<i64>,
    pub claim_extraction: JsonView,
    pub protocol: JsonView,
    pub trust_boundary: Seq<char>,
}

impl DeepView for AdapterCloudOutputOutcome {
    type V = AdapterCloudOutputOutcomeView;

    open spec fn deep_view(&self) -> AdapterCloudOutputOutcomeView {
        AdapterCloudOutputOutcomeView {
            task_frame_id: self.task_frame_id,
            handoff_id: self.handoff_id.deep_view(),
            idempotency_key: self.idempotency_key.deep_view(),
            replayed: self.replayed,
            decision: self.decision.deep_view(),
            claim_ids: self.claim_ids.deep_view(),
            verification_event_ids: self.verification_event_ids.deep_view(),
            verification_requests: self.verification_requests.deep_view(),
            required_edits: self.required_edits.deep_view(),
            proposal_id: self.proposal_id,
            claim_extraction: self.claim_extraction.deep_view(),
            protocol: self.protocol.deep_view(),
            trust_boundary: self.trust_boundary.deep_view(),
        }
    }
}

/// What is told of an answer that was captured: what was captured, the proposal, and how its
/// claims were extracted.
pub open spec fn told_of(
    c: CapturedCloudOutputView,
    proposal_id: Option<i64>,
    claim_extraction: JsonView,
    protocol: JsonView,
    trust_boundary: Seq<char>,
) -> AdapterCloudOutputOutcomeView {
    AdapterCloudOutputOutcomeView {
        task_frame_id: c.task_frame_id,
        handoff_id: c.handoff_id,
        idempotency_key: c.idempotency_key,
        replayed: c.replayed,
        decision: c.decision,
        claim_ids: c.claim_ids,
        verification_event_ids: c.verification_event_ids,
        verification_requests: c.verification_requests,
        required_edits: c.required_edits,
        proposal_id,
        claim_extraction,
        protocol,
        trust_boundary,
    }
}

pub fn cloud_output_outcome(
    captured: CapturedCloudOutput,
    proposal_id: Option<i64>,
    claim_extraction: Json,
    protocol: Json,
    trust_boundary: String,
) -> (r: AdapterCloudOutputOutcome)
    ensures
        r.deep_view() == told_of(
            captured.deep_view(),
            proposal_id,
            claim_extraction@,
            protocol@,
            trust_boundary@,
        ),
{
    AdapterCloudOutputOutcome {
        task_frame_id: captured.task_frame_id,
        handoff_id: captured.handoff_id,
        idempotency_key: captured.idempotency_key,
        replayed: captured.replayed,
        decision: captured.decision,
        claim_ids: captured.claim_ids,
        verification_event_ids: captured.verification_event_ids,
        verification_requests: captured.verification_requests,
        required_edits: captured.required_edits,
        proposal_id,
        claim_extraction,
        protocol,
        trust_boundary,
    }
}

/// The proposal of an answer: one that says the same is not queued again.
pub open spec fn proposal_of(
    wanted: bool,
    equivalent: Option<i64>,
    inserted: Option<i64>,
) -> Option<i64> {
    if !wanted {
        None
    } else {
        first(equivalent, inserted)
    }
}

/// Whether a proposal is to be put into the queue: where one is wanted and none that says
/// the same is there.
pub fn needs_new_proposal(plan: &CloudOutputPlan, equivalent: Option<i64>) -> (r: bool)
    ensures
        r == (plan.deep_view().proposal is Some && equivalent is None),
{
    plan.proposal.is_some() && equivalent.is_none()
}

/// The proposal of an answer, from the one that says the same and the one that was put
/// into the queue.
pub fn proposal_id(
    plan: &CloudOutputPlan,
    equivalent: Option<i64>,
    inserted: Option<i64>,
) -> (r: Option<i64>)
    ensures
        r == proposal_of(plan.deep_view().proposal is Some, equivalent, inserted),
{
    if plan.proposal.is_none() {
        return None;
    }
    match equivalent {
        Some(id) => Some(id),
        None => inserted,
    }
}

// ---------------------------------------------------------------------------
// Laws
// ---------------------------------------------------------------------------

/// An answer belongs to the task frame that its payload names. Where it names none, a frame
/// is built for its query, with its project and directory or else those of the caller, and
/// with its own session, client and permission. An answer with neither is refused.
pub proof fn law_answers_belong_to_their_frame(
    p: CloudOutputRequest,
    opened: Result<(), StorageError>,
    current_dir: Option<Seq<char>>,
    current_project: Option<Seq<char>>,
)
    requires
        opened is Ok,
    ensures
        ({
            let v = p.deep_view();
            let plan = cloud_plan(Ok(v), opened, current_dir, current_project);
            let query = p.task_frame_query is Some && trimmed(p.task_frame_query->0@).len() > 0;
            &&& plan is Ok <==> p.task_frame_id is Some || query
            &&& plan is Ok ==> plan->Ok_0.request == v
            &&& p.task_frame_id matches Some(id) ==> plan->Ok_0.frame
                == TaskFrameSourceView::Stored(id)
            &&& p.task_frame_id is None && query ==> (plan->Ok_0.frame matches
                TaskFrameSourceView::Build(b) && {
                &&& b.query == Some(trimmed(p.task_frame_query->0@))
                &&& p.project is Some ==> b.project == p.project.deep_view()
                &&& p.project is None ==> b.project == current_project
                &&& p.cwd is Some ==> b.cwd == p.cwd.deep_view()
                &&& p.cwd is None ==> b.cwd == current_dir
                &&& p.client is Some ==> b.client == p.client.deep_view()
                &&& p.client is None ==> b.client == Some("adapter-cloud-output"@)
                &&& b.session_id == p.session_id.deep_view()
                &&& b.allow_local_private_projection == p.allow_local_private_projection
                &&& b.local_private_projection_reason
                    == p.local_private_projection_reason.deep_view()
            })
        }),
{
}

/// A local extractor is used iff the payload asks for it, with the endpoint and the model
/// that it names. A proposal follows iff the payload asks for one, with the action and the
/// state that it names, and with its reason or the standing one.
pub proof fn law_what_follows_is_what_was_asked_for(
    p: CloudOutputRequest,
    opened: Result<(), StorageError>,
    current_dir: Option<Seq<char>>,
    current_project: Option<Seq<char>>,
)
    ensures
        cloud_plan(Ok(p.deep_view()), opened, current_dir, current_project) matches Ok(plan) ==> {
            &&& plan.extractor is Some <==> p.local_claim_extractor
            &&& plan.extractor matches Some(x) ==> {
                &&& x.endpoint == p.local_claim_extractor_endpoint.deep_view()
                &&& x.model == p.local_claim_extractor_model.deep_view()
            }
            &&& plan.proposal is Some <==> p.enqueue_proposal
            &&& plan.proposal matches Some(x) ==> {
                &&& x.action == p.proposal_action.deep_view()
                &&& x.target_lifecycle_state == p.proposal_target_lifecycle_state.deep_view()
                &&& p.proposal_reason is Some ==> x.reason == p.proposal_reason->0@
                &&& p.proposal_reason is None ==> x.reason
                    == "Cloud output captured by adapter; external verification required before durable promotion"@
            }
        },
{
}

/// What is captured of an answer is what its payload says, with the frame it was found to
/// belong to and the claims that were selected; claims that could not be selected capture
/// nothing. Claims are selected from the answer and the claims of the payload, and with a
/// local extractor only where the payload asks for it.
pub proof fn law_captured_answer_is_the_payload(
    plan: CloudOutputPlan,
    task_frame_id: i64,
    claims: Result<Seq<JsonView>, Seq<char>>,
    runtime: Option<LocalClaimExtractorRuntimeView>,
)
    ensures
        ({
            let p = plan.request;
            let v = plan.deep_view();
            &&& capture_of(v.request, task_frame_id, claims) is Ok <==> claims is Ok
            &&& capture_of(v.request, task_frame_id, claims) matches Ok(c) ==> {
                &&& c.output_text == p.output_text@
                &&& c.handoff_id == p.handoff_id.deep_view()
                &&& c.protocol_contract == p.protocol_contract.deep_view()
                &&& c.artifact_version == p.artifact_version
                &&& c.critic.task_frame_id == task_frame_id
                &&& c.critic.decision == p.decision.deep_view()
                &&& c.critic.extracted_claims == claims->Ok_0
                &&& c.critic.verification_requests == p.verification_requests.deep_view()
                &&& c.critic.required_edits == p.required_edits.deep_view()
                &&& c.critic.evidence_refs == p.evidence_refs.deep_view()
            }
            &&& selection_of(v, runtime).output_text == p.output_text@
            &&& selection_of(v, runtime).claims == p.extracted_claims.deep_view()
            &&& plan.extractor is None ==> selection_of(v, runtime).runtime is None
            &&& plan.extractor is Some ==> selection_of(v, runtime).runtime == runtime
        }),
{
}

/// No proposal is told where none was asked for; else it is one that says the same, where
/// there is one, and only else a new one. What else is told is what was captured.
pub proof fn law_equivalent_proposals_are_not_repeated(
    c: CapturedCloudOutput,
    wanted: bool,
    equivalent: Option<i64>,
    inserted: Option<i64>,
    extraction: JsonView,
    protocol: JsonView,
    boundary: Seq<char>,
)
    ensures
        !wanted ==> proposal_of(wanted, equivalent, inserted) is None,
        wanted && equivalent is Some ==> proposal_of(wanted, equivalent, inserted) == equivalent,
        wanted && equivalent is None ==> proposal_of(wanted, equivalent, inserted) == inserted,
        ({
            let t = told_of(
                c.deep_view(),
                proposal_of(wanted, equivalent, inserted),
                extraction,
                protocol,
                boundary,
            );
            &&& t.task_frame_id == c.task_frame_id
            &&& t.handoff_id == c.handoff_id.deep_view()
            &&& t.idempotency_key == c.idempotency_key@
            &&& t.replayed == c.replayed
            &&& t.decision == c.decision@
            &&& t.claim_ids == c.claim_ids.deep_view()
            &&& t.verification_event_ids == c.verification_event_ids.deep_view()
            &&& t.verification_requests == c.verification_requests@
            &&& t.required_edits == c.required_edits.deep_view()
            &&& t.proposal_id == proposal_of(wanted, equivalent, inserted)
            &&& t.claim_extraction == extraction
            &&& t.protocol == protocol
            &&& t.trust_boundary == boundary
        }),
{
}

}
