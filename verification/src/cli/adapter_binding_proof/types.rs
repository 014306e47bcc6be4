//! What the command tells: proofs, their evidence, and the way to a complete proof.
use crate::cli::binary_identity::{BinaryIdentity, BinaryIdentityView};
use crate::dup::Dup;
use crate::json::{Json, JsonView};
use crate::storage::{
    ClientBindingProofLevel, StorageError, StoredClientBindingProof, StoredClientBindingProofView,
};
use crate::text::cat2;
use vstd::prelude::*;

verus! {

/// The state of a stored evidence file.
#[derive(Debug, Clone, Copy, PartialEq, Eq)]
pub enum EvidenceArtifactStatus {
    Verified,
    VerifiedAppendOnlyGrowth,
    MissingExpectedRecord,
    MissingPath,
    MissingFile,
    Changed,
    Unreadable,
}

impl DeepView for EvidenceArtifactStatus {
    type V = EvidenceArtifactStatus;

    open spec fn deep_view(&self) -> EvidenceArtifactStatus {
        *self
    }
}

/// The name of a state.
pub open spec fn artifact_status_name(s: EvidenceArtifactStatus) -> Seq<char> {
    match s {
        EvidenceArtifactStatus::Verified => "verified"@,
        EvidenceArtifactStatus::VerifiedAppendOnlyGrowth => "verified_append_only_growth"@,
        EvidenceArtifactStatus::MissingExpectedRecord => "missing_expected_record"@,
        EvidenceArtifactStatus::MissingPath => "missing_path"@,
        EvidenceArtifactStatus::MissingFile => "missing_file"@,
        EvidenceArtifactStatus::Changed => "changed"@,
        EvidenceArtifactStatus::Unreadable => "unreadable"@,
    }
}

impl EvidenceArtifactStatus {
    pub fn as_str(self) -> (r: &'static str)
        ensures
            r@ == artifact_status_name(self),
    {
        match self {
            EvidenceArtifactStatus::Verified => "verified",
            EvidenceArtifactStatus::VerifiedAppendOnlyGrowth => "verified_append_only_growth",
            EvidenceArtifactStatus::MissingExpectedRecord => "missing_expected_record",
            EvidenceArtifactStatus::MissingPath => "missing_path",
            EvidenceArtifactStatus::MissingFile => "missing_file",
            EvidenceArtifactStatus::Changed => "changed",
            EvidenceArtifactStatus::Unreadable => "unreadable",
        }
    }
}

/// Where the proofs are kept.
#[derive(Debug)]
pub struct AdapterBindingProofContext {
    pub db_path: String,
}

/// Why the command failed.
#[derive(Debug)]
#[non_exhaustive]
pub enum AdapterBindingProofError {
    Io(String),
    MalformedInput(String),
    Storage(StorageError),
}

/// What an `AdapterBindingProofError` holds.
pub enum BindingFault {
    Io(Seq<char>),
    MalformedInput(Seq<char>),
    Storage(Seq<char>),
}

impl DeepView for AdapterBindingProofError {
    type V = BindingFault;

    open spec fn deep_view(&self) -> BindingFault {
        match self {
            AdapterBindingProofError::Io(m) => BindingFault::Io(m@),
            AdapterBindingProofError::MalformedInput(m) => BindingFault::MalformedInput(m@),
            AdapterBindingProofError::Storage(e) => BindingFault::Storage(e.message@),
        }
    }
}

/// The message of an error.
pub open spec fn fault_text(f: BindingFault) -> Seq<char> {
    match f {
        BindingFault::Io(m) => "io: "@ + m,
        BindingFault::MalformedInput(m) => "malformed input: "@ + m,
        BindingFault::Storage(m) => "storage: "@ + m,
    }
}

impl AdapterBindingProofError {
    /// The exit code of an error: bad input, store and files each have their own.
    pub fn exit_code(&self) -> (r: i32)
        ensures
            r == match self.deep_view() {
                BindingFault::MalformedInput(_) => 1i32,
                BindingFault::Storage(_) => 2i32,
                BindingFault::Io(_) => 3i32,
            },
    {
        match self {
            AdapterBindingProofError::MalformedInput(_) => 1,
            AdapterBindingProofError::Storage(_) => 2,
            AdapterBindingProofError::Io(_) => 3,
        }
    }

    /// The message of the error.
    pub fn message(&self) -> (r: String)
        ensures
            r@ == fault_text(self.deep_view()),
    {
        match self {
            AdapterBindingProofError::Io(m) => cat2("io: ", m.as_str()),
            AdapterBindingProofError::MalformedInput(m) => cat2("malformed input: ", m.as_str()),
            AdapterBindingProofError::Storage(e) => cat2("storage: ", e.message.as_str()),
        }
    }
}

impl From<StorageError> for AdapterBindingProofError {
    fn from(value: StorageError) -> (r: Self) {
        AdapterBindingProofError::Storage(value)
    }
}

impl vstd::std_specs::convert::FromSpecImpl<StorageError> for AdapterBindingProofError {
    open spec fn obeys_from_spec() -> bool {
        true
    }

    open spec fn from_spec(value: StorageError) -> Self {
        AdapterBindingProofError::Storage(value)
    }
}

/// Bad input.
pub open spec fn malformed<T>(message: Seq<char>) -> Result<T, BindingFault> {
    Err(BindingFault::MalformedInput(message))
}

pub fn refuse<T>(message: &str) -> (r: Result<T, AdapterBindingProofError>)
    ensures
        r matches Err(e) && e.deep_view() == BindingFault::MalformedInput(message@),
{
    Err(AdapterBindingProofError::MalformedInput(message.to_string()))
}

/// A call of an MCP tool, ready to be made.
#[derive(Debug)]
pub struct ClientBindingMcpCallTemplate {
    pub tool: String,
    pub arguments: Json,
    pub trust_boundary: String,
}

/// What a `ClientBindingMcpCallTemplate` holds.
#[verifier::ext_equal]
pub struct ClientBindingMcpCallTemplateView {
    pub tool: Seq<char>,
    pub arguments: JsonView,
    pub trust_boundary: Seq<char>,
}

impl DeepView for ClientBindingMcpCallTemplate {
    type V = ClientBindingMcpCallTemplateView;

    open spec fn deep_view(&self) -> ClientBindingMcpCallTemplateView {
        ClientBindingMcpCallTemplateView {
            tool: self.tool.deep_view(),
            arguments: self.arguments.deep_view(),
            trust_boundary: self.trust_boundary.deep_view(),
        }
    }
}

impl Dup for ClientBindingMcpCallTemplate {
    fn dup(&self) -> (r: Self) {
        ClientBindingMcpCallTemplate {
            tool: self.tool.dup(),
            arguments: self.arguments.dup(),
            trust_boundary: self.trust_boundary.dup(),
        }
    }
}

/// One step that the operator or the client takes.
#[derive(Debug)]
pub struct ClientBindingOperatorFlowStep {
    pub id: String,
    pub title: String,
    pub intent: String,
    pub command: Option<Vec<String>>,
    pub mcp_call: Option<ClientBindingMcpCallTemplate>,
    pub requires_operator_action: bool,
    pub records_proof: bool,
    pub trust_boundary: String,
}

/// What a `ClientBindingOperatorFlowStep` holds.
#[verifier::ext_equal]
pub struct ClientBindingOperatorFlowStepView {
    pub id: Seq<char>,
    pub title: Seq<char>,
    pub intent: Seq<char>,
    pub command: Option<Seq<Seq<char>>>,
    pub mcp_call: Option<ClientBindingMcpCallTemplateView>,
    pub requires_operator_action: bool,
    pub records_proof: bool,
    pub trust_boundary: Seq<char>,
}

impl DeepView for ClientBindingOperatorFlowStep {
    type V = ClientBindingOperatorFlowStepView;

    open spec fn deep_view(&self) -> ClientBindingOperatorFlowStepView {
        ClientBindingOperatorFlowStepView {
            id: self.id.deep_view(),
            title: self.title.deep_view(),
            intent: self.intent.deep_view(),
            command: self.command.deep_view(),
            mcp_call: self.mcp_call.deep_view(),
            requires_operator_action: self.requires_operator_action,
            records_proof: self.records_proof,
            trust_boundary: self.trust_boundary.deep_view(),
        }
    }
}

impl Dup for ClientBindingOperatorFlowStep {
    fn dup(&self) -> (r: Self) {
        ClientBindingOperatorFlowStep {
            id: self.id.dup(),
            title: self.title.dup(),
            intent: self.intent.dup(),
            command: self.command.dup(),
            mcp_call: self.mcp_call.dup(),
            requires_operator_action: self.requires_operator_action,
            records_proof: self.records_proof,
            trust_boundary: self.trust_boundary.dup(),
        }
    }
}

/// What became of one stored evidence file.
#[derive(Debug)]
pub struct EvidenceArtifactCheck {
    pub kind: String,
    pub path: Option<String>,
    pub expected_byte_len: Option<u64>,
    pub actual_byte_len: Option<u64>,
    pub expected_fingerprint: Option<String>,
    pub actual_fingerprint: Option<String>,
    pub status: EvidenceArtifactStatus,
    pub error: Option<String>,
}

/// What an `EvidenceArtifactCheck` holds.
#[verifier::ext_equal]
pub struct EvidenceArtifactCheckView {
    pub kind: Seq<char>,
    pub path: Option<Seq<char>>,
    pub expected_byte_len: Option<u64>,
    pub actual_byte_len: Option<u64>,
    pub expected_fingerprint: Option<Seq<char>>,
    pub actual_fingerprint: Option<Seq<char>>,
    pub status: EvidenceArtifactStatus,
    pub error: Option<Seq<char>>,
}

impl DeepView for EvidenceArtifactCheck {
    type V = EvidenceArtifactCheckView;

    open spec fn deep_view(&self) -> EvidenceArtifactCheckView {
        EvidenceArtifactCheckView {
            kind: self.kind.deep_view(),
            path: self.path.deep_view(),
            expected_byte_len: self.expected_byte_len.deep_view(),
            actual_byte_len: self.actual_byte_len.deep_view(),
            expected_fingerprint: self.expected_fingerprint.deep_view(),
            actual_fingerprint: self.actual_fingerprint.deep_view(),
            status: self.status,
            error: self.error.deep_view(),
        }
    }
}

/// What became of the evidence files of one proof.
#[derive(Debug)]
pub struct ClientBindingEvidenceArtifactVerification {
    pub proof_id: i64,
    pub client: String,
    pub proof_level: ClientBindingProofLevel,
    pub all_artifacts_verified: bool,
    pub artifact_checks: Vec<EvidenceArtifactCheck>,
}

/// What a `ClientBindingEvidenceArtifactVerification` holds.
#[verifier::ext_equal]
pub struct ClientBindingEvidenceArtifactVerificationView {
    pub proof_id: i64,
    pub client: Seq<char>,
    pub proof_level: ClientBindingProofLevel,
    pub all_artifacts_verified: bool,
    pub artifact_checks: Seq<EvidenceArtifactCheckView>,
}

impl DeepView for ClientBindingEvidenceArtifactVerification {
    type V = ClientBindingEvidenceArtifactVerificationView;

    open spec fn deep_view(&self) -> ClientBindingEvidenceArtifactVerificationView {
        ClientBindingEvidenceArtifactVerificationView {
            proof_id: self.proof_id,
            client: self.client.deep_view(),
            proof_level: self.proof_level,
            all_artifacts_verified: self.all_artifacts_verified,
            artifact_checks: self.artifact_checks.deep_view(),
        }
    }
}

/// What to do about an evidence file that no longer fits its proof.
#[derive(Debug)]
pub struct EvidenceArtifactRepairAction {
    pub source: &'static str,
    pub proof_id: i64,
    pub client: String,
    pub proof_level: ClientBindingProofLevel,
    pub artifact_kind: String,
    pub status: EvidenceArtifactStatus,
    pub stale_path: Option<String>,
    pub intent: String,
    pub command: Vec<String>,
    pub records_proof: bool,
    pub requires_operator_action: bool,
    pub trust_boundary: String,
}

/// What an `EvidenceArtifactRepairAction` holds.
#[verifier::ext_equal]
pub struct EvidenceArtifactRepairActionView {
    pub source: Seq<char>,
    pub proof_id: i64,
    pub client: Seq<char>,
    pub proof_level: ClientBindingProofLevel,
    pub artifact_kind: Seq<char>,
    pub status: EvidenceArtifactStatus,
    pub stale_path: Option<Seq<char>>,
    pub intent: Seq<char>,
    pub command: Seq<Seq<char>>,
    pub records_proof: bool,
    pub requires_operator_action: bool,
    pub trust_boundary: Seq<char>,
}

impl DeepView for EvidenceArtifactRepairAction {
    type V = EvidenceArtifactRepairActionView;

    open spec fn deep_view(&self) -> EvidenceArtifactRepairActionView {
        EvidenceArtifactRepairActionView {
            source: self.source.deep_view(),
            proof_id: self.proof_id,
            client: self.client.deep_view(),
            proof_level: self.proof_level,
            artifact_kind: self.artifact_kind.deep_view(),
            status: self.status,
            stale_path: self.stale_path.deep_view(),
            intent: self.intent.deep_view(),
            command: self.command.deep_view(),
            records_proof: self.records_proof,
            requires_operator_action: self.requires_operator_action,
            trust_boundary: self.trust_boundary.deep_view(),
        }
    }
}

/// An evidence file of a latest proof that no longer fits.
#[derive(Debug)]
pub struct ClientBindingArtifactFailure {
    pub proof_id: i64,
    pub proof_level: ClientBindingProofLevel,
    pub kind: String,
    pub path: Option<String>,
    pub status: EvidenceArtifactStatus,
    pub error: Option<String>,
}

/// What a `ClientBindingArtifactFailure` holds.
#[verifier::ext_equal]
pub struct ClientBindingArtifactFailureView {
    pub proof_id: i64,
    pub proof_level: ClientBindingProofLevel,
    pub kind: Seq<char>,
    pub path: Option<Seq<char>>,
    pub status: EvidenceArtifactStatus,
    pub error: Option<Seq<char>>,
}

impl DeepView for ClientBindingArtifactFailure {
    type V = ClientBindingArtifactFailureView;

    open spec fn deep_view(&self) -> ClientBindingArtifactFailureView {
        ClientBindingArtifactFailureView {
            proof_id: self.proof_id,
            proof_level: self.proof_level,
            kind: self.kind.deep_view(),
            path: self.path.deep_view(),
            status: self.status,
            error: self.error.deep_view(),
        }
    }
}

impl Dup for ClientBindingArtifactFailure {
    fn dup(&self) -> (r: Self) {
        ClientBindingArtifactFailure {
            proof_id: self.proof_id,
            proof_level: self.proof_level,
            kind: self.kind.dup(),
            path: self.path.dup(),
            status: self.status,
            error: self.error.dup(),
        }
    }
}

/// A latest proof whose evidence does not count for a release.
#[derive(Debug)]
pub struct ClientBindingNonReleaseEvidenceSource {
    pub proof_id: i64,
    pub proof_level: ClientBindingProofLevel,
    pub evidence_source: String,
    pub reason: String,
}

/// What a `ClientBindingNonReleaseEvidenceSource` holds.
#[verifier::ext_equal]
pub struct ClientBindingNonReleaseEvidenceSourceView {
    pub proof_id: i64,
    pub proof_level: ClientBindingProofLevel,
    pub evidence_source: Seq<char>,
    pub reason: Seq<char>,
}

impl DeepView for ClientBindingNonReleaseEvidenceSource {
    type V = ClientBindingNonReleaseEvidenceSourceView;

    open spec fn deep_view(&self) -> ClientBindingNonReleaseEvidenceSourceView {
        ClientBindingNonReleaseEvidenceSourceView {
            proof_id: self.proof_id,
            proof_level: self.proof_level,
            evidence_source: self.evidence_source.deep_view(),
            reason: self.reason.deep_view(),
        }
    }
}

/// The latest proof of one level.
#[derive(Debug)]
pub struct ClientBindingLatestProofStatus {
    pub proof_id: i64,
    pub proof_level: ClientBindingProofLevel,
    pub observed_at_ns: i64,
    pub manifest_status: String,
    pub evidence_source: String,
    pub operator_confirmed_release_grade_evidence: bool,
    pub installed_config_path: Option<String>,
    pub installed_config_fingerprint: Option<String>,
    pub installed_config_binding_nonce: Option<String>,
    pub review_action_control_id: Option<String>,
    pub all_artifacts_verified: bool,
    pub artifact_checks: Vec<EvidenceArtifactCheck>,
}

/// What a `ClientBindingLatestProofStatus` holds.
#[verifier::ext_equal]
pub struct ClientBindingLatestProofStatusView {
    pub proof_id: i64,
    pub proof_level: ClientBindingProofLevel,
    pub observed_at_ns: i64,
    pub manifest_status: Seq<char>,
    pub evidence_source: Seq<char>,
    pub operator_confirmed_release_grade_evidence: bool,
    pub installed_config_path: Option<Seq<char>>,
    pub installed_config_fingerprint: Option<Seq<char>>,
    pub installed_config_binding_nonce: Option<Seq<char>>,
    pub review_action_control_id: Option<Seq<char>>,
    pub all_artifacts_verified: bool,
    pub artifact_checks: Seq<EvidenceArtifactCheckView>,
}

impl DeepView for ClientBindingLatestProofStatus {
    type V = ClientBindingLatestProofStatusView;

    open spec fn deep_view(&self) -> ClientBindingLatestProofStatusView {
        ClientBindingLatestProofStatusView {
            proof_id: self.proof_id,
            proof_level: self.proof_level,
            observed_at_ns: self.observed_at_ns,
            manifest_status: self.manifest_status.deep_view(),
            evidence_source: self.evidence_source.deep_view(),
            operator_confirmed_release_grade_evidence: self.operator_confirmed_release_grade_evidence,
            installed_config_path: self.installed_config_path.deep_view(),
            installed_config_fingerprint: self.installed_config_fingerprint.deep_view(),
            installed_config_binding_nonce: self.installed_config_binding_nonce.deep_view(),
            review_action_control_id: self.review_action_control_id.deep_view(),
            all_artifacts_verified: self.all_artifacts_verified,
            artifact_checks: self.artifact_checks.deep_view(),
        }
    }
}

/// How far the proofs of one client go.
#[derive(Debug)]
pub struct ClientBindingReadinessStatus {
    pub client: String,
    pub proof_stage: String,
    pub readiness: String,
    pub ready_for_private_client_claim: bool,
    pub has_reference_binding: bool,
    pub has_observed_event_file: bool,
    pub has_observed_app_hook: bool,
    pub has_observed_in_client_render: bool,
    pub has_observed_review_action: bool,
    pub ready_for_client_operator_loop: bool,
    pub latest_proof_id: Option<i64>,
    pub latest_proof_level: Option<ClientBindingProofLevel>,
    pub latest_observed_at_ns: Option<i64>,
    pub latest_by_level: Vec<ClientBindingLatestProofStatus>,
    pub all_latest_artifacts_verified: bool,
    pub artifact_failures: Vec<ClientBindingArtifactFailure>,
    pub coherence_failures: Vec<String>,
    pub non_release_evidence_sources: Vec<ClientBindingNonReleaseEvidenceSource>,
    pub next_steps: Vec<String>,
    pub operator_flow: Vec<ClientBindingOperatorFlowStep>,
}

/// What a `ClientBindingReadinessStatus` holds.
#[verifier::ext_equal]
pub struct ClientBindingReadinessStatusView {
    pub client: Seq<char>,
    pub proof_stage: Seq<char>,
    pub readiness: Seq<char>,
    pub ready_for_private_client_claim: bool,
    pub has_reference_binding: bool,
    pub has_observed_event_file: bool,
    pub has_observed_app_hook: bool,
    pub has_observed_in_client_render: bool,
    pub has_observed_review_action: bool,
    pub ready_for_client_operator_loop: bool,
    pub latest_proof_id: Option<i64>,
    pub latest_proof_level: Option<ClientBindingProofLevel>,
    pub latest_observed_at_ns: Option<i64>,
    pub latest_by_level: Seq<ClientBindingLatestProofStatusView>,
    pub all_latest_artifacts_verified: bool,
    pub artifact_failures: Seq<ClientBindingArtifactFailureView>,
    pub coherence_failures: Seq<Seq<char>>,
    pub non_release_evidence_sources: Seq<ClientBindingNonReleaseEvidenceSourceView>,
    pub next_steps: Seq<Seq<char>>,
    pub operator_flow: Seq<ClientBindingOperatorFlowStepView>,
}

impl DeepView for ClientBindingReadinessStatus {
    type V = ClientBindingReadinessStatusView;

    open spec fn deep_view(&self) -> ClientBindingReadinessStatusView {
        ClientBindingReadinessStatusView {
            client: self.client.deep_view(),
            proof_stage: self.proof_stage.deep_view(),
            readiness: self.readiness.deep_view(),
            ready_for_private_client_claim: self.ready_for_private_client_claim,
            has_reference_binding: self.has_reference_binding,
            has_observed_event_file: self.has_observed_event_file,
            has_observed_app_hook: self.has_observed_app_hook,
            has_observed_in_client_render: self.has_observed_in_client_render,
            has_observed_review_action: self.has_observed_review_action,
            ready_for_client_operator_loop: self.ready_for_client_operator_loop,
            latest_proof_id: self.latest_proof_id.deep_view(),
            latest_proof_level: self.latest_proof_level.deep_view(),
            latest_observed_at_ns: self.latest_observed_at_ns.deep_view(),
            latest_by_level: self.latest_by_level.deep_view(),
            all_latest_artifacts_verified: self.all_latest_artifacts_verified,
            artifact_failures: self.artifact_failures.deep_view(),
            coherence_failures: self.coherence_failures.deep_view(),
            non_release_evidence_sources: self.non_release_evidence_sources.deep_view(),
            next_steps: self.next_steps.deep_view(),
            operator_flow: self.operator_flow.deep_view(),
        }
    }
}

/// A recorded proof.
#[derive(Debug)]
pub struct AdapterBindingProofOutcome {
    pub proof_id: i64,
    pub client: String,
    pub proof_level: ClientBindingProofLevel,
    pub manifest_status: String,
    pub evidence_source: String,
    pub trust_boundary: String,
    pub checks: Json,
}

/// What an `AdapterBindingProofOutcome` holds.
#[verifier::ext_equal]
pub struct AdapterBindingProofOutcomeView {
    pub proof_id: i64,
    pub client: Seq<char>,
    pub proof_level: ClientBindingProofLevel,
    pub manifest_status: Seq<char>,
    pub evidence_source: Seq<char>,
    pub trust_boundary: Seq<char>,
    pub checks: JsonView,
}

impl DeepView for AdapterBindingProofOutcome {
    type V = AdapterBindingProofOutcomeView;

    open spec fn deep_view(&self) -> AdapterBindingProofOutcomeView {
        AdapterBindingProofOutcomeView {
            proof_id: self.proof_id,
            client: self.client.deep_view(),
            proof_level: self.proof_level,
            manifest_status: self.manifest_status.deep_view(),
            evidence_source: self.evidence_source.deep_view(),
            trust_boundary: self.trust_boundary.deep_view(),
            checks: self.checks.deep_view(),
        }
    }
}

/// The proofs on record.
#[derive(Debug)]
pub struct AdapterBindingProofListOutcome {
    pub client: Option<String>,
    pub limit: usize,
    pub proofs: Vec<StoredClientBindingProof>,
}

/// What an `AdapterBindingProofListOutcome` holds.
#[verifier::ext_equal]
pub struct AdapterBindingProofListOutcomeView {
    pub client: Option<Seq<char>>,
    pub limit: usize,
    pub proofs: Seq<StoredClientBindingProofView>,
}

impl DeepView for AdapterBindingProofListOutcome {
    type V = AdapterBindingProofListOutcomeView;

    open spec fn deep_view(&self) -> AdapterBindingProofListOutcomeView {
        AdapterBindingProofListOutcomeView {
            client: self.client.deep_view(),
            limit: self.limit,
            proofs: self.proofs.deep_view(),
        }
    }
}

/// How far the proofs go, client by client.
#[derive(Debug)]
pub struct AdapterBindingProofStatusOutcome {
    pub client: Option<String>,
    pub proof_id: Option<i64>,
    pub limit: usize,
    pub proofs_found: usize,
    pub client_count: usize,
    pub all_latest_artifacts_verified: bool,
    pub trust_boundary: String,
    pub clients: Vec<ClientBindingReadinessStatus>,
}

/// What an `AdapterBindingProofStatusOutcome` holds.
#[verifier::ext_equal]
pub struct AdapterBindingProofStatusOutcomeView {
    pub client: Option<Seq<char>>,
    pub proof_id: Option<i64>,
    pub limit: usize,
    pub proofs_found: usize,
    pub client_count: usize,
    pub all_latest_artifacts_verified: bool,
    pub trust_boundary: Seq<char>,
    pub clients: Seq<ClientBindingReadinessStatusView>,
}

impl DeepView for AdapterBindingProofStatusOutcome {
    type V = AdapterBindingProofStatusOutcomeView;

    open spec fn deep_view(&self) -> AdapterBindingProofStatusOutcomeView {
        AdapterBindingProofStatusOutcomeView {
            client: self.client.deep_view(),
            proof_id: self.proof_id.deep_view(),
            limit: self.limit,
            proofs_found: self.proofs_found,
            client_count: self.client_count,
            all_latest_artifacts_verified: self.all_latest_artifacts_verified,
            trust_boundary: self.trust_boundary.deep_view(),
            clients: self.clients.deep_view(),
        }
    }
}

/// What an installed client configuration refers to.
#[derive(Debug)]
pub struct InstalledConfigScan {
    pub path: String,
    pub byte_len: u64,
    pub modified_at_ns: Option<i64>,
    pub fingerprint: String,
    pub expected_event_source: Option<String>,
    pub binding_nonce: Option<String>,
    pub references_lifecycle_wrapper: bool,
    pub references_spool_append: bool,
    pub references_spool_drain: bool,
    pub references_review_render: bool,
    pub references_client: bool,
    pub references_event_jsonl_env: bool,
    pub references_private_event_source: bool,
    pub references_binding_nonce: bool,
}

/// What an `InstalledConfigScan` holds.
#[verifier::ext_equal]
pub struct InstalledConfigScanView {
    pub path: Seq<char>,
    pub byte_len: u64,
    pub modified_at_ns: Option<i64>,
    pub fingerprint: Seq<char>,
    pub expected_event_source: Option<Seq<char>>,
    pub binding_nonce: Option<Seq<char>>,
    pub references_lifecycle_wrapper: bool,
    pub references_spool_append: bool,
    pub references_spool_drain: bool,
    pub references_review_render: bool,
    pub references_client: bool,
    pub references_event_jsonl_env: bool,
    pub references_private_event_source: bool,
    pub references_binding_nonce: bool,
}

impl DeepView for InstalledConfigScan {
    type V = InstalledConfigScanView;

    open spec fn deep_view(&self) -> InstalledConfigScanView {
        InstalledConfigScanView {
            path: self.path.deep_view(),
            byte_len: self.byte_len,
            modified_at_ns: self.modified_at_ns.deep_view(),
            fingerprint: self.fingerprint.deep_view(),
            expected_event_source: self.expected_event_source.deep_view(),
            binding_nonce: self.binding_nonce.deep_view(),
            references_lifecycle_wrapper: self.references_lifecycle_wrapper,
            references_spool_append: self.references_spool_append,
            references_spool_drain: self.references_spool_drain,
            references_review_render: self.references_review_render,
            references_client: self.references_client,
            references_event_jsonl_env: self.references_event_jsonl_env,
            references_private_event_source: self.references_private_event_source,
            references_binding_nonce: self.references_binding_nonce,
        }
    }
}

/// Whether an installed configuration is good enough for app-hook proof.
#[derive(Debug)]
pub struct AdapterBindingInstalledConfigCheckOutcome {
    pub client: String,
    pub installed_config_path: String,
    pub proof_level: ClientBindingProofLevel,
    pub eligible_for_observed_app_hook: bool,
    pub missing_requirements: Vec<&'static str>,
    pub trust_boundary: String,
    pub checks: InstalledConfigScan,
}

/// What an `AdapterBindingInstalledConfigCheckOutcome` holds.
#[verifier::ext_equal]
pub struct AdapterBindingInstalledConfigCheckOutcomeView {
    pub client: Seq<char>,
    pub installed_config_path: Seq<char>,
    pub proof_level: ClientBindingProofLevel,
    pub eligible_for_observed_app_hook: bool,
    pub missing_requirements: Seq<Seq<char>>,
    pub trust_boundary: Seq<char>,
    pub checks: InstalledConfigScanView,
}

impl DeepView for AdapterBindingInstalledConfigCheckOutcome {
    type V = AdapterBindingInstalledConfigCheckOutcomeView;

    open spec fn deep_view(&self) -> AdapterBindingInstalledConfigCheckOutcomeView {
        AdapterBindingInstalledConfigCheckOutcomeView {
            client: self.client.deep_view(),
            installed_config_path: self.installed_config_path.deep_view(),
            proof_level: self.proof_level,
            eligible_for_observed_app_hook: self.eligible_for_observed_app_hook,
            missing_requirements: self.missing_requirements.deep_view(),
            trust_boundary: self.trust_boundary.deep_view(),
            checks: self.checks.deep_view(),
        }
    }
}

/// A place where a client configuration may be installed.
#[derive(Debug)]
pub struct InstalledConfigCandidate {
    pub path: String,
    pub exists: bool,
    pub eligible_for_observed_app_hook: bool,
    pub missing_requirements: Vec<&'static str>,
    pub checks: Option<InstalledConfigScan>,
    pub error: Option<String>,
    pub next_commands: Vec<Vec<String>>,
}

/// What an `InstalledConfigCandidate` holds.
#[verifier::ext_equal]
pub struct InstalledConfigCandidateView {
    pub path: Seq<char>,
    pub exists: bool,
    pub eligible_for_observed_app_hook: bool,
    pub missing_requirements: Seq<Seq<char>>,
    pub checks: Option<InstalledConfigScanView>,
    pub error: Option<Seq<char>>,
    pub next_commands: Seq<Seq<Seq<char>>>,
}

impl DeepView for InstalledConfigCandidate {
    type V = InstalledConfigCandidateView;

    open spec fn deep_view(&self) -> InstalledConfigCandidateView {
        InstalledConfigCandidateView {
            path: self.path.deep_view(),
            exists: self.exists,
            eligible_for_observed_app_hook: self.eligible_for_observed_app_hook,
            missing_requirements: self.missing_requirements.deep_view(),
            checks: self.checks.deep_view(),
            error: self.error.deep_view(),
            next_commands: self.next_commands.deep_view(),
        }
    }
}

/// Where client configurations were looked for, and found.
#[derive(Debug)]
pub struct AdapterBindingInstalledConfigDiscoveryOutcome {
    pub client: String,
    pub manifest_path: Option<String>,
    pub expected_event_source: String,
    pub config_root: String,
    pub known_private_client_target_relpaths: Vec<String>,
    pub candidates_found: usize,
    pub eligible_candidates: usize,
    pub setup_artifact_eligible_candidates: usize,
    pub private_client_target_eligible_candidates: usize,
    pub eligible_setup_artifact_paths: Vec<String>,
    pub eligible_private_client_target_paths: Vec<String>,
    pub private_client_target_candidate_paths: Vec<String>,
    pub candidates: Vec<InstalledConfigCandidate>,
    pub trust_boundary: String,
}

/// What an `AdapterBindingInstalledConfigDiscoveryOutcome` holds.
#[verifier::ext_equal]
pub struct AdapterBindingInstalledConfigDiscoveryOutcomeView {
    pub client: Seq<char>,
    pub manifest_path: Option<Seq<char>>,
    pub expected_event_source: Seq<char>,
    pub config_root: Seq<char>,
    pub known_private_client_target_relpaths: Seq<Seq<char>>,
    pub candidates_found: usize,
    pub eligible_candidates: usize,
    pub setup_artifact_eligible_candidates: usize,
    pub private_client_target_eligible_candidates: usize,
    pub eligible_setup_artifact_paths: Seq<Seq<char>>,
    pub eligible_private_client_target_paths: Seq<Seq<char>>,
    pub private_client_target_candidate_paths: Seq<Seq<char>>,
    pub candidates: Seq<InstalledConfigCandidateView>,
    pub trust_boundary: Seq<char>,
}

impl DeepView for AdapterBindingInstalledConfigDiscoveryOutcome {
    type V = AdapterBindingInstalledConfigDiscoveryOutcomeView;

    open spec fn deep_view(&self) -> AdapterBindingInstalledConfigDiscoveryOutcomeView {
        AdapterBindingInstalledConfigDiscoveryOutcomeView {
            client: self.client.deep_view(),
            manifest_path: self.manifest_path.deep_view(),
            expected_event_source: self.expected_event_source.deep_view(),
            config_root: self.config_root.deep_view(),
            known_private_client_target_relpaths: self.known_private_client_target_relpaths.deep_view(),
            candidates_found: self.candidates_found,
            eligible_candidates: self.eligible_candidates,
            setup_artifact_eligible_candidates: self.setup_artifact_eligible_candidates,
            private_client_target_eligible_candidates: self.private_client_target_eligible_candidates,
            eligible_setup_artifact_paths: self.eligible_setup_artifact_paths.deep_view(),
            eligible_private_client_target_paths: self.eligible_private_client_target_paths.deep_view(),
            private_client_target_candidate_paths: self.private_client_target_candidate_paths.deep_view(),
            candidates: self.candidates.deep_view(),
            trust_boundary: self.trust_boundary.deep_view(),
        }
    }
}

/// One evidence file, as far as it is there.
#[derive(Debug)]
pub struct RealAppProofArtifact {
    pub kind: String,
    pub path: String,
    pub provided: bool,
    pub status: String,
    pub scan: Option<Json>,
    pub missing_requirements: Vec<&'static str>,
    pub error: Option<String>,
}

/// What a `RealAppProofArtifact` holds.
#[verifier::ext_equal]
pub struct RealAppProofArtifactView {
    pub kind: Seq<char>,
    pub path: Seq<char>,
    pub provided: bool,
    pub status: Seq<char>,
    pub scan: Option<JsonView>,
    pub missing_requirements: Seq<Seq<char>>,
    pub error: Option<Seq<char>>,
}

impl DeepView for RealAppProofArtifact {
    type V = RealAppProofArtifactView;

    open spec fn deep_view(&self) -> RealAppProofArtifactView {
        RealAppProofArtifactView {
            kind: self.kind.deep_view(),
            path: self.path.deep_view(),
            provided: self.provided,
            status: self.status.deep_view(),
            scan: self.scan.deep_view(),
            missing_requirements: self.missing_requirements.deep_view(),
            error: self.error.deep_view(),
        }
    }
}

/// What a proof of one level takes.
#[derive(Debug)]
pub struct RealAppProofAcceptanceGate {
    pub proof_level: ClientBindingProofLevel,
    pub requires_operator_confirmation: bool,
    pub required_artifacts: Vec<String>,
    pub required_checks: Vec<String>,
}

/// What a `RealAppProofAcceptanceGate` holds.
#[verifier::ext_equal]
pub struct RealAppProofAcceptanceGateView {
    pub proof_level: ClientBindingProofLevel,
    pub requires_operator_confirmation: bool,
    pub required_artifacts: Seq<Seq<char>>,
    pub required_checks: Seq<Seq<char>>,
}

impl DeepView for RealAppProofAcceptanceGate {
    type V = RealAppProofAcceptanceGateView;

    open spec fn deep_view(&self) -> RealAppProofAcceptanceGateView {
        RealAppProofAcceptanceGateView {
            proof_level: self.proof_level,
            requires_operator_confirmation: self.requires_operator_confirmation,
            required_artifacts: self.required_artifacts.deep_view(),
            required_checks: self.required_checks.deep_view(),
        }
    }
}

/// Whether a proof of one level can be recorded now.
#[derive(Debug)]
pub struct RealAppProofReadiness {
    pub proof_level: ClientBindingProofLevel,
    pub status: String,
    pub ready_to_attempt_record: bool,
    pub required_artifacts: Vec<String>,
    pub missing_requirements: Vec<String>,
    pub command: Vec<String>,
    pub trust_boundary: String,
}

/// What a `RealAppProofReadiness` holds.
#[verifier::ext_equal]
pub struct RealAppProofReadinessView {
    pub proof_level: ClientBindingProofLevel,
    pub status: Seq<char>,
    pub ready_to_attempt_record: bool,
    pub required_artifacts: Seq<Seq<char>>,
    pub missing_requirements: Seq<Seq<char>>,
    pub command: Seq<Seq<char>>,
    pub trust_boundary: Seq<char>,
}

impl DeepView for RealAppProofReadiness {
    type V = RealAppProofReadinessView;

    open spec fn deep_view(&self) -> RealAppProofReadinessView {
        RealAppProofReadinessView {
            proof_level: self.proof_level,
            status: self.status.deep_view(),
            ready_to_attempt_record: self.ready_to_attempt_record,
            required_artifacts: self.required_artifacts.deep_view(),
            missing_requirements: self.missing_requirements.deep_view(),
            command: self.command.deep_view(),
            trust_boundary: self.trust_boundary.deep_view(),
        }
    }
}

/// What is needed to prove that a real app calls the hook.
#[derive(Debug)]
pub struct AdapterBindingRealAppProofKitOutcome {
    pub client: String,
    pub manifest_path: Option<String>,
    pub expected_event_source: String,
    pub artifacts: Vec<RealAppProofArtifact>,
    pub proof_readiness: Vec<RealAppProofReadiness>,
    pub commands: Vec<Vec<String>>,
    pub acceptance_gates: Vec<RealAppProofAcceptanceGate>,
    pub unproven_until: Vec<String>,
    pub trust_boundary: String,
}

/// What an `AdapterBindingRealAppProofKitOutcome` holds.
#[verifier::ext_equal]
pub struct AdapterBindingRealAppProofKitOutcomeView {
    pub client: Seq<char>,
    pub manifest_path: Option<Seq<char>>,
    pub expected_event_source: Seq<char>,
    pub artifacts: Seq<RealAppProofArtifactView>,
    pub proof_readiness: Seq<RealAppProofReadinessView>,
    pub commands: Seq<Seq<Seq<char>>>,
    pub acceptance_gates: Seq<RealAppProofAcceptanceGateView>,
    pub unproven_until: Seq<Seq<char>>,
    pub trust_boundary: Seq<char>,
}

impl DeepView for AdapterBindingRealAppProofKitOutcome {
    type V = AdapterBindingRealAppProofKitOutcomeView;

    open spec fn deep_view(&self) -> AdapterBindingRealAppProofKitOutcomeView {
        AdapterBindingRealAppProofKitOutcomeView {
            client: self.client.deep_view(),
            manifest_path: self.manifest_path.deep_view(),
            expected_event_source: self.expected_event_source.deep_view(),
            artifacts: self.artifacts.deep_view(),
            proof_readiness: self.proof_readiness.deep_view(),
            commands: self.commands.deep_view(),
            acceptance_gates: self.acceptance_gates.deep_view(),
            unproven_until: self.unproven_until.deep_view(),
            trust_boundary: self.trust_boundary.deep_view(),
        }
    }
}

/// What is known of the collector that Continue sends its development data to.
#[derive(Debug)]
pub struct ContinueDevdataCollectorProbe {
    pub devdata_destination_visible: bool,
    pub collector_status: String,
    pub collector_listening: bool,
    pub collector_host: String,
    pub collector_port: u16,
    pub collector_error: Option<String>,
    pub status_command: Option<Vec<String>>,
    pub start_command: Option<Vec<String>>,
    pub trust_boundary: &'static str,
}

/// What a `ContinueDevdataCollectorProbe` holds.
#[verifier::ext_equal]
pub struct ContinueDevdataCollectorProbeView {
    pub devdata_destination_visible: bool,
    pub collector_status: Seq<char>,
    pub collector_listening: bool,
    pub collector_host: Seq<char>,
    pub collector_port: u16,
    pub collector_error: Option<Seq<char>>,
    pub status_command: Option<Seq<Seq<char>>>,
    pub start_command: Option<Seq<Seq<char>>>,
    pub trust_boundary: Seq<char>,
}

impl DeepView for ContinueDevdataCollectorProbe {
    type V = ContinueDevdataCollectorProbeView;

    open spec fn deep_view(&self) -> ContinueDevdataCollectorProbeView {
        ContinueDevdataCollectorProbeView {
            devdata_destination_visible: self.devdata_destination_visible,
            collector_status: self.collector_status.deep_view(),
            collector_listening: self.collector_listening,
            collector_host: self.collector_host.deep_view(),
            collector_port: self.collector_port,
            collector_error: self.collector_error.deep_view(),
            status_command: self.status_command.deep_view(),
            start_command: self.start_command.deep_view(),
            trust_boundary: self.trust_boundary.deep_view(),
        }
    }
}

impl Dup for ContinueDevdataCollectorProbe {
    fn dup(&self) -> (r: Self) {
        ContinueDevdataCollectorProbe {
            devdata_destination_visible: self.devdata_destination_visible,
            collector_status: self.collector_status.dup(),
            collector_listening: self.collector_listening,
            collector_host: self.collector_host.dup(),
            collector_port: self.collector_port,
            collector_error: self.collector_error.dup(),
            status_command: self.status_command.dup(),
            start_command: self.start_command.dup(),
            trust_boundary: self.trust_boundary,
        }
    }
}

/// What the operator should know before acting outside.
#[derive(Debug)]
pub struct ExternalActionSafety {
    pub classification: String,
    pub requires_operator_confirmation_before_submission: bool,
    pub may_transmit_prompt_to_provider: bool,
    pub suggested_minimal_test_prompt: String,
    pub forbidden_inputs: Vec<String>,
}

/// What an `ExternalActionSafety` holds.
#[verifier::ext_equal]
pub struct ExternalActionSafetyView {
    pub classification: Seq<char>,
    pub requires_operator_confirmation_before_submission: bool,
    pub may_transmit_prompt_to_provider: bool,
    pub suggested_minimal_test_prompt: Seq<char>,
    pub forbidden_inputs: Seq<Seq<char>>,
}

impl DeepView for ExternalActionSafety {
    type V = ExternalActionSafetyView;

    open spec fn deep_view(&self) -> ExternalActionSafetyView {
        ExternalActionSafetyView {
            classification: self.classification.deep_view(),
            requires_operator_confirmation_before_submission: self.requires_operator_confirmation_before_submission,
            may_transmit_prompt_to_provider: self.may_transmit_prompt_to_provider,
            suggested_minimal_test_prompt: self.suggested_minimal_test_prompt.deep_view(),
            forbidden_inputs: self.forbidden_inputs.deep_view(),
        }
    }
}

impl Dup for ExternalActionSafety {
    fn dup(&self) -> (r: Self) {
        ExternalActionSafety {
            classification: self.classification.dup(),
            requires_operator_confirmation_before_submission: self.requires_operator_confirmation_before_submission,
            may_transmit_prompt_to_provider: self.may_transmit_prompt_to_provider,
            suggested_minimal_test_prompt: self.suggested_minimal_test_prompt.dup(),
            forbidden_inputs: self.forbidden_inputs.dup(),
        }
    }
}

/// An action that only the operator can take, in the private client.
#[derive(Debug)]
pub struct ClientBindingExternalOperatorAction {
    pub source: &'static str,
    pub client: String,
    pub action_id: String,
    pub action_label: String,
    pub proof_session_step_id: String,
    pub action_kind: String,
    pub required_operator_action: String,
    pub requires_operator_confirmation_before_submission: bool,
    pub may_transmit_prompt_to_provider: bool,
    pub suggested_minimal_test_prompt: String,
    pub forbidden_inputs: Vec<String>,
    pub readiness_probe_command: Option<Vec<String>>,
    pub records_proof: bool,
    pub creates_verification_event: bool,
    pub promotes_cloud_draft: bool,
    pub proof_after_success_step_id: String,
    pub required_observation: String,
    pub why_next_mcp_call_is_null: String,
    pub trust_boundary: String,
}

/// What a `ClientBindingExternalOperatorAction` holds.
#[verifier::ext_equal]
pub struct ClientBindingExternalOperatorActionView {
    pub source: Seq<char>,
    pub client: Seq<char>,
    pub action_id: Seq<char>,
    pub action_label: Seq<char>,
    pub proof_session_step_id: Seq<char>,
    pub action_kind: Seq<char>,
    pub required_operator_action: Seq<char>,
    pub requires_operator_confirmation_before_submission: bool,
    pub may_transmit_prompt_to_provider: bool,
    pub suggested_minimal_test_prompt: Seq<char>,
    pub forbidden_inputs: Seq<Seq<char>>,
    pub readiness_probe_command: Option<Seq<Seq<char>>>,
    pub records_proof: bool,
    pub creates_verification_event: bool,
    pub promotes_cloud_draft: bool,
    pub proof_after_success_step_id: Seq<char>,
    pub required_observation: Seq<char>,
    pub why_next_mcp_call_is_null: Seq<char>,
    pub trust_boundary: Seq<char>,
}

impl DeepView for ClientBindingExternalOperatorAction {
    type V = ClientBindingExternalOperatorActionView;

    open spec fn deep_view(&self) -> ClientBindingExternalOperatorActionView {
        ClientBindingExternalOperatorActionView {
            source: self.source.deep_view(),
            client: self.client.deep_view(),
            action_id: self.action_id.deep_view(),
            action_label: self.action_label.deep_view(),
            proof_session_step_id: self.proof_session_step_id.deep_view(),
            action_kind: self.action_kind.deep_view(),
            required_operator_action: self.required_operator_action.deep_view(),
            requires_operator_confirmation_before_submission: self.requires_operator_confirmation_before_submission,
            may_transmit_prompt_to_provider: self.may_transmit_prompt_to_provider,
            suggested_minimal_test_prompt: self.suggested_minimal_test_prompt.deep_view(),
            forbidden_inputs: self.forbidden_inputs.deep_view(),
            readiness_probe_command: self.readiness_probe_command.deep_view(),
            records_proof: self.records_proof,
            creates_verification_event: self.creates_verification_event,
            promotes_cloud_draft: self.promotes_cloud_draft,
            proof_after_success_step_id: self.proof_after_success_step_id.deep_view(),
            required_observation: self.required_observation.deep_view(),
            why_next_mcp_call_is_null: self.why_next_mcp_call_is_null.deep_view(),
            trust_boundary: self.trust_boundary.deep_view(),
        }
    }
}

impl Dup for ClientBindingExternalOperatorAction {
    fn dup(&self) -> (r: Self) {
        ClientBindingExternalOperatorAction {
            source: self.source,
            client: self.client.dup(),
            action_id: self.action_id.dup(),
            action_label: self.action_label.dup(),
            proof_session_step_id: self.proof_session_step_id.dup(),
            action_kind: self.action_kind.dup(),
            required_operator_action: self.required_operator_action.dup(),
            requires_operator_confirmation_before_submission: self.requires_operator_confirmation_before_submission,
            may_transmit_prompt_to_provider: self.may_transmit_prompt_to_provider,
            suggested_minimal_test_prompt: self.suggested_minimal_test_prompt.dup(),
            forbidden_inputs: self.forbidden_inputs.dup(),
            readiness_probe_command: self.readiness_probe_command.dup(),
            records_proof: self.records_proof,
            creates_verification_event: self.creates_verification_event,
            promotes_cloud_draft: self.promotes_cloud_draft,
            proof_after_success_step_id: self.proof_after_success_step_id.dup(),
            required_observation: self.required_observation.dup(),
            why_next_mcp_call_is_null: self.why_next_mcp_call_is_null.dup(),
            trust_boundary: self.trust_boundary.dup(),
        }
    }
}

/// Where an evidence file is best kept.
#[derive(Debug)]
pub struct ClientBindingProofArtifactPathSuggestion {
    pub artifact_kind: String,
    pub path: String,
    pub intent: String,
}

/// What a `ClientBindingProofArtifactPathSuggestion` holds.
#[verifier::ext_equal]
pub struct ClientBindingProofArtifactPathSuggestionView {
    pub artifact_kind: Seq<char>,
    pub path: Seq<char>,
    pub intent: Seq<char>,
}

impl DeepView for ClientBindingProofArtifactPathSuggestion {
    type V = ClientBindingProofArtifactPathSuggestionView;

    open spec fn deep_view(&self) -> ClientBindingProofArtifactPathSuggestionView {
        ClientBindingProofArtifactPathSuggestionView {
            artifact_kind: self.artifact_kind.deep_view(),
            path: self.path.deep_view(),
            intent: self.intent.deep_view(),
        }
    }
}

/// How much of a runbook is done.
#[derive(Debug)]
pub struct ClientBindingProofRunbookProgress {
    pub total_step_count: usize,
    pub operator_action_step_count: usize,
    pub proof_recording_step_count: usize,
    pub ready_now_step_count: usize,
    pub blocked_proof_step_count: usize,
    pub blocking_reason_count: usize,
    pub completed_proof_level_count: usize,
    pub pending_proof_level_count: usize,
    pub ready_to_record_proof_level_count: usize,
    pub blocked_proof_level_count: usize,
    pub release_ready: bool,
}

/// What a `ClientBindingProofRunbookProgress` holds.
#[verifier::ext_equal]
pub struct ClientBindingProofRunbookProgressView {
    pub total_step_count: usize,
    pub operator_action_step_count: usize,
    pub proof_recording_step_count: usize,
    pub ready_now_step_count: usize,
    pub blocked_proof_step_count: usize,
    pub blocking_reason_count: usize,
    pub completed_proof_level_count: usize,
    pub pending_proof_level_count: usize,
    pub ready_to_record_proof_level_count: usize,
    pub blocked_proof_level_count: usize,
    pub release_ready: bool,
}

impl DeepView for ClientBindingProofRunbookProgress {
    type V = ClientBindingProofRunbookProgressView;

    open spec fn deep_view(&self) -> ClientBindingProofRunbookProgressView {
        ClientBindingProofRunbookProgressView {
            total_step_count: self.total_step_count,
            operator_action_step_count: self.operator_action_step_count,
            proof_recording_step_count: self.proof_recording_step_count,
            ready_now_step_count: self.ready_now_step_count,
            blocked_proof_step_count: self.blocked_proof_step_count,
            blocking_reason_count: self.blocking_reason_count,
            completed_proof_level_count: self.completed_proof_level_count,
            pending_proof_level_count: self.pending_proof_level_count,
            ready_to_record_proof_level_count: self.ready_to_record_proof_level_count,
            blocked_proof_level_count: self.blocked_proof_level_count,
            release_ready: self.release_ready,
        }
    }
}

/// One step of a runbook.
#[derive(Debug)]
pub struct ClientBindingProofRunbookStep {
    pub id: String,
    pub title: String,
    pub intent: String,
    pub stage: String,
    pub evidence_kind: String,
    pub suggested_artifact_path: Option<String>,
    pub command: Option<Vec<String>>,
    pub mcp_call: Option<ClientBindingMcpCallTemplate>,
    pub external_action_safety: Option<ExternalActionSafety>,
    pub external_action: Option<ClientBindingExternalOperatorAction>,
    pub requires_operator_action: bool,
    pub records_proof: bool,
    pub ready_now: bool,
    pub blocking_reasons: Vec<String>,
    pub trust_boundary: String,
}

/// What a `ClientBindingProofRunbookStep` holds.
#[verifier::ext_equal]
pub struct ClientBindingProofRunbookStepView {
    pub id: Seq<char>,
    pub title: Seq<char>,
    pub intent: Seq<char>,
    pub stage: Seq<char>,
    pub evidence_kind: Seq<char>,
    pub suggested_artifact_path: Option<Seq<char>>,
    pub command: Option<Seq<Seq<char>>>,
    pub mcp_call: Option<ClientBindingMcpCallTemplateView>,
    pub external_action_safety: Option<ExternalActionSafetyView>,
    pub external_action: Option<ClientBindingExternalOperatorActionView>,
    pub requires_operator_action: bool,
    pub records_proof: bool,
    pub ready_now: bool,
    pub blocking_reasons: Seq<Seq<char>>,
    pub trust_boundary: Seq<char>,
}

impl DeepView for ClientBindingProofRunbookStep {
    type V = ClientBindingProofRunbookStepView;

    open spec fn deep_view(&self) -> ClientBindingProofRunbookStepView {
        ClientBindingProofRunbookStepView {
            id: self.id.deep_view(),
            title: self.title.deep_view(),
            intent: self.intent.deep_view(),
            stage: self.stage.deep_view(),
            evidence_kind: self.evidence_kind.deep_view(),
            suggested_artifact_path: self.suggested_artifact_path.deep_view(),
            command: self.command.deep_view(),
            mcp_call: self.mcp_call.deep_view(),
            external_action_safety: self.external_action_safety.deep_view(),
            external_action: self.external_action.deep_view(),
            requires_operator_action: self.requires_operator_action,
            records_proof: self.records_proof,
            ready_now: self.ready_now,
            blocking_reasons: self.blocking_reasons.deep_view(),
            trust_boundary: self.trust_boundary.deep_view(),
        }
    }
}

/// The steps to a complete proof, with what blocks them.
#[derive(Debug)]
pub struct ClientBindingProofSessionRunbook {
    pub schema: String,
    pub client: String,
    pub status: String,
    pub release_gate: String,
    pub durable_artifact_dir: String,
    pub durable_artifact_dir_write_status: String,
    pub suggested_artifact_paths: Vec<ClientBindingProofArtifactPathSuggestion>,
    pub workspace_fallback_artifact_dir: Option<String>,
    pub workspace_fallback_artifact_paths: Vec<ClientBindingProofArtifactPathSuggestion>,
    pub workspace_fallback_commands: Vec<Vec<String>>,
    pub target_next_step_id: Option<String>,
    pub target_next_operator_step: Option<ClientBindingOperatorFlowStep>,
    pub external_action_safety: Option<ExternalActionSafety>,
    pub external_action: Option<ClientBindingExternalOperatorAction>,
    pub progress: ClientBindingProofRunbookProgress,
    pub steps: Vec<ClientBindingProofRunbookStep>,
    pub completion_checks: Vec<String>,
    pub trust_boundary: String,
}

/// What a `ClientBindingProofSessionRunbook` holds.
#[verifier::ext_equal]
pub struct ClientBindingProofSessionRunbookView {
    pub schema: Seq<char>,
    pub client: Seq<char>,
    pub status: Seq<char>,
    pub release_gate: Seq<char>,
    pub durable_artifact_dir: Seq<char>,
    pub durable_artifact_dir_write_status: Seq<char>,
    pub suggested_artifact_paths: Seq<ClientBindingProofArtifactPathSuggestionView>,
    pub workspace_fallback_artifact_dir: Option<Seq<char>>,
    pub workspace_fallback_artifact_paths: Seq<ClientBindingProofArtifactPathSuggestionView>,
    pub workspace_fallback_commands: Seq<Seq<Seq<char>>>,
    pub target_next_step_id: Option<Seq<char>>,
    pub target_next_operator_step: Option<ClientBindingOperatorFlowStepView>,
    pub external_action_safety: Option<ExternalActionSafetyView>,
    pub external_action: Option<ClientBindingExternalOperatorActionView>,
    pub progress: ClientBindingProofRunbookProgressView,
    pub steps: Seq<ClientBindingProofRunbookStepView>,
    pub completion_checks: Seq<Seq<char>>,
    pub trust_boundary: Seq<char>,
}

impl DeepView for ClientBindingProofSessionRunbook {
    type V = ClientBindingProofSessionRunbookView;

    open spec fn deep_view(&self) -> ClientBindingProofSessionRunbookView {
        ClientBindingProofSessionRunbookView {
            schema: self.schema.deep_view(),
            client: self.client.deep_view(),
            status: self.status.deep_view(),
            release_gate: self.release_gate.deep_view(),
            durable_artifact_dir: self.durable_artifact_dir.deep_view(),
            durable_artifact_dir_write_status: self.durable_artifact_dir_write_status.deep_view(),
            suggested_artifact_paths: self.suggested_artifact_paths.deep_view(),
            workspace_fallback_artifact_dir: self.workspace_fallback_artifact_dir.deep_view(),
            workspace_fallback_artifact_paths: self.workspace_fallback_artifact_paths.deep_view(),
            workspace_fallback_commands: self.workspace_fallback_commands.deep_view(),
            target_next_step_id: self.target_next_step_id.deep_view(),
            target_next_operator_step: self.target_next_operator_step.deep_view(),
            external_action_safety: self.external_action_safety.deep_view(),
            external_action: self.external_action.deep_view(),
            progress: self.progress.deep_view(),
            steps: self.steps.deep_view(),
            completion_checks: self.completion_checks.deep_view(),
            trust_boundary: self.trust_boundary.deep_view(),
        }
    }
}

/// How far the proof of one level is.
#[derive(Debug)]
pub struct ClientBindingProofSessionStage {
    pub proof_level: ClientBindingProofLevel,
    pub ledger_status: String,
    pub artifact_status: Option<String>,
    pub ready_to_record_now: bool,
    pub blocking_reasons: Vec<String>,
    pub command: Option<Vec<String>>,
    pub mcp_call: Option<ClientBindingMcpCallTemplate>,
    pub trust_boundary: String,
}

/// What a `ClientBindingProofSessionStage` holds.
#[verifier::ext_equal]
pub struct ClientBindingProofSessionStageView {
    pub proof_level: ClientBindingProofLevel,
    pub ledger_status: Seq<char>,
    pub artifact_status: Option<Seq<char>>,
    pub ready_to_record_now: bool,
    pub blocking_reasons: Seq<Seq<char>>,
    pub command: Option<Seq<Seq<char>>>,
    pub mcp_call: Option<ClientBindingMcpCallTemplateView>,
    pub trust_boundary: Seq<char>,
}

impl DeepView for ClientBindingProofSessionStage {
    type V = ClientBindingProofSessionStageView;

    open spec fn deep_view(&self) -> ClientBindingProofSessionStageView {
        ClientBindingProofSessionStageView {
            proof_level: self.proof_level,
            ledger_status: self.ledger_status.deep_view(),
            artifact_status: self.artifact_status.deep_view(),
            ready_to_record_now: self.ready_to_record_now,
            blocking_reasons: self.blocking_reasons.deep_view(),
            command: self.command.deep_view(),
            mcp_call: self.mcp_call.deep_view(),
            trust_boundary: self.trust_boundary.deep_view(),
        }
    }
}

/// How far a client is on the way to a complete proof.
#[derive(Debug)]
pub struct ClientBindingProofSession {
    pub client: String,
    pub status: String,
    pub release_gate: String,
    pub ready_for_private_client_claim: bool,
    pub completed_proof_levels: Vec<ClientBindingProofLevel>,
    pub pending_proof_levels: Vec<ClientBindingProofLevel>,
    pub ready_to_record_proof_levels: Vec<ClientBindingProofLevel>,
    pub blocked_proof_levels: Vec<ClientBindingProofLevel>,
    pub next_step_id: Option<String>,
    pub next_command: Option<Vec<String>>,
    pub next_mcp_call: Option<ClientBindingMcpCallTemplate>,
    pub next_operator_step: Option<ClientBindingOperatorFlowStep>,
    pub external_action: Option<ClientBindingExternalOperatorAction>,
    pub stages: Vec<ClientBindingProofSessionStage>,
    pub runbook: ClientBindingProofSessionRunbook,
    pub completion_criteria: Vec<String>,
    pub trust_boundary: String,
}

/// What a `ClientBindingProofSession` holds.
#[verifier::ext_equal]
pub struct ClientBindingProofSessionView {
    pub client: Seq<char>,
    pub status: Seq<char>,
    pub release_gate: Seq<char>,
    pub ready_for_private_client_claim: bool,
    pub completed_proof_levels: Seq<ClientBindingProofLevel>,
    pub pending_proof_levels: Seq<ClientBindingProofLevel>,
    pub ready_to_record_proof_levels: Seq<ClientBindingProofLevel>,
    pub blocked_proof_levels: Seq<ClientBindingProofLevel>,
    pub next_step_id: Option<Seq<char>>,
    pub next_command: Option<Seq<Seq<char>>>,
    pub next_mcp_call: Option<ClientBindingMcpCallTemplateView>,
    pub next_operator_step: Option<ClientBindingOperatorFlowStepView>,
    pub external_action: Option<ClientBindingExternalOperatorActionView>,
    pub stages: Seq<ClientBindingProofSessionStageView>,
    pub runbook: ClientBindingProofSessionRunbookView,
    pub completion_criteria: Seq<Seq<char>>,
    pub trust_boundary: Seq<char>,
}

impl DeepView for ClientBindingProofSession {
    type V = ClientBindingProofSessionView;

    open spec fn deep_view(&self) -> ClientBindingProofSessionView {
        ClientBindingProofSessionView {
            client: self.client.deep_view(),
            status: self.status.deep_view(),
            release_gate: self.release_gate.deep_view(),
            ready_for_private_client_claim: self.ready_for_private_client_claim,
            completed_proof_levels: self.completed_proof_levels.deep_view(),
            pending_proof_levels: self.pending_proof_levels.deep_view(),
            ready_to_record_proof_levels: self.ready_to_record_proof_levels.deep_view(),
            blocked_proof_levels: self.blocked_proof_levels.deep_view(),
            next_step_id: self.next_step_id.deep_view(),
            next_command: self.next_command.deep_view(),
            next_mcp_call: self.next_mcp_call.deep_view(),
            next_operator_step: self.next_operator_step.deep_view(),
            external_action: self.external_action.deep_view(),
            stages: self.stages.deep_view(),
            runbook: self.runbook.deep_view(),
            completion_criteria: self.completion_criteria.deep_view(),
            trust_boundary: self.trust_boundary.deep_view(),
        }
    }
}

/// What is known of app-hook evidence.
#[derive(Debug)]
pub struct ClientBindingAppHookEvidenceSummary {
    pub source: &'static str,
    pub client: String,
    pub event_jsonl_path: Option<String>,
    pub expected_event_source: String,
    pub binding_nonce: String,
    pub status: String,
    pub ready_to_record_now: bool,
    pub blocking_reason_count: usize,
    pub blocking_reasons: Vec<String>,
    pub readiness_probe_command: Option<Vec<String>>,
    pub record_proof_command: Option<Vec<String>>,
    pub continue_devdata_collector: Option<ContinueDevdataCollectorProbe>,
    pub trust_boundary: &'static str,
}

/// What a `ClientBindingAppHookEvidenceSummary` holds.
#[verifier::ext_equal]
pub struct ClientBindingAppHookEvidenceSummaryView {
    pub source: Seq<char>,
    pub client: Seq<char>,
    pub event_jsonl_path: Option<Seq<char>>,
    pub expected_event_source: Seq<char>,
    pub binding_nonce: Seq<char>,
    pub status: Seq<char>,
    pub ready_to_record_now: bool,
    pub blocking_reason_count: usize,
    pub blocking_reasons: Seq<Seq<char>>,
    pub readiness_probe_command: Option<Seq<Seq<char>>>,
    pub record_proof_command: Option<Seq<Seq<char>>>,
    pub continue_devdata_collector: Option<ContinueDevdataCollectorProbeView>,
    pub trust_boundary: Seq<char>,
}

impl DeepView for ClientBindingAppHookEvidenceSummary {
    type V = ClientBindingAppHookEvidenceSummaryView;

    open spec fn deep_view(&self) -> ClientBindingAppHookEvidenceSummaryView {
        ClientBindingAppHookEvidenceSummaryView {
            source: self.source.deep_view(),
            client: self.client.deep_view(),
            event_jsonl_path: self.event_jsonl_path.deep_view(),
            expected_event_source: self.expected_event_source.deep_view(),
            binding_nonce: self.binding_nonce.deep_view(),
            status: self.status.deep_view(),
            ready_to_record_now: self.ready_to_record_now,
            blocking_reason_count: self.blocking_reason_count,
            blocking_reasons: self.blocking_reasons.deep_view(),
            readiness_probe_command: self.readiness_probe_command.deep_view(),
            record_proof_command: self.record_proof_command.deep_view(),
            continue_devdata_collector: self.continue_devdata_collector.deep_view(),
            trust_boundary: self.trust_boundary.deep_view(),
        }
    }
}

impl Dup for ClientBindingAppHookEvidenceSummary {
    fn dup(&self) -> (r: Self) {
        ClientBindingAppHookEvidenceSummary {
            source: self.source,
            client: self.client.dup(),
            event_jsonl_path: self.event_jsonl_path.dup(),
            expected_event_source: self.expected_event_source.dup(),
            binding_nonce: self.binding_nonce.dup(),
            status: self.status.dup(),
            ready_to_record_now: self.ready_to_record_now,
            blocking_reason_count: self.blocking_reason_count,
            blocking_reasons: self.blocking_reasons.dup(),
            readiness_probe_command: self.readiness_probe_command.dup(),
            record_proof_command: self.record_proof_command.dup(),
            continue_devdata_collector: self.continue_devdata_collector.dup(),
            trust_boundary: self.trust_boundary,
        }
    }
}

/// The one thing that the operator does next.
#[derive(Debug)]
pub struct ClientBindingProofSessionOperatorCard {
    pub source: &'static str,
    pub client: String,
    pub status: String,
    pub release_gate: String,
    pub operator_next_action_id: String,
    pub operator_next_action_label: String,
    pub headline: String,
    pub primary_next_step: String,
    pub primary_next_command: Vec<String>,
    pub external_action_safety: Option<ExternalActionSafety>,
    pub external_action: Option<ClientBindingExternalOperatorAction>,
    pub proof_session_next_step_id: Option<String>,
    pub next_operator_step_title: Option<String>,
    pub ready_for_private_client_claim: bool,
    pub pending_proof_level_count: usize,
    pub blocked_proof_level_count: usize,
    pub blocking_gap_count: usize,
    pub artifact_failure_count: usize,
    pub artifact_failures: Vec<ClientBindingArtifactFailure>,
    pub safe_to_claim: Vec<String>,
    pub blocked_claims: Vec<String>,
    pub app_hook_evidence: ClientBindingAppHookEvidenceSummary,
    pub trust_boundary: &'static str,
}

/// What a `ClientBindingProofSessionOperatorCard` holds.
#[verifier::ext_equal]
pub struct ClientBindingProofSessionOperatorCardView {
    pub source: Seq<char>,
    pub client: Seq<char>,
    pub status: Seq<char>,
    pub release_gate: Seq<char>,
    pub operator_next_action_id: Seq<char>,
    pub operator_next_action_label: Seq<char>,
    pub headline: Seq<char>,
    pub primary_next_step: Seq<char>,
    pub primary_next_command: Seq<Seq<char>>,
    pub external_action_safety: Option<ExternalActionSafetyView>,
    pub external_action: Option<ClientBindingExternalOperatorActionView>,
    pub proof_session_next_step_id: Option<Seq<char>>,
    pub next_operator_step_title: Option<Seq<char>>,
    pub ready_for_private_client_claim: bool,
    pub pending_proof_level_count: usize,
    pub blocked_proof_level_count: usize,
    pub blocking_gap_count: usize,
    pub artifact_failure_count: usize,
    pub artifact_failures: Seq<ClientBindingArtifactFailureView>,
    pub safe_to_claim: Seq<Seq<char>>,
    pub blocked_claims: Seq<Seq<char>>,
    pub app_hook_evidence: ClientBindingAppHookEvidenceSummaryView,
    pub trust_boundary: Seq<char>,
}

impl DeepView for ClientBindingProofSessionOperatorCard {
    type V = ClientBindingProofSessionOperatorCardView;

    open spec fn deep_view(&self) -> ClientBindingProofSessionOperatorCardView {
        ClientBindingProofSessionOperatorCardView {
            source: self.source.deep_view(),
            client: self.client.deep_view(),
            status: self.status.deep_view(),
            release_gate: self.release_gate.deep_view(),
            operator_next_action_id: self.operator_next_action_id.deep_view(),
            operator_next_action_label: self.operator_next_action_label.deep_view(),
            headline: self.headline.deep_view(),
            primary_next_step: self.primary_next_step.deep_view(),
            primary_next_command: self.primary_next_command.deep_view(),
            external_action_safety: self.external_action_safety.deep_view(),
            external_action: self.external_action.deep_view(),
            proof_session_next_step_id: self.proof_session_next_step_id.deep_view(),
            next_operator_step_title: self.next_operator_step_title.deep_view(),
            ready_for_private_client_claim: self.ready_for_private_client_claim,
            pending_proof_level_count: self.pending_proof_level_count,
            blocked_proof_level_count: self.blocked_proof_level_count,
            blocking_gap_count: self.blocking_gap_count,
            artifact_failure_count: self.artifact_failure_count,
            artifact_failures: self.artifact_failures.deep_view(),
            safe_to_claim: self.safe_to_claim.deep_view(),
            blocked_claims: self.blocked_claims.deep_view(),
            app_hook_evidence: self.app_hook_evidence.deep_view(),
            trust_boundary: self.trust_boundary.deep_view(),
        }
    }
}

/// A client configuration to install, as a snippet.
#[derive(Debug)]
pub struct AdapterBindingInstalledConfigPreparationOutcome {
    pub client: String,
    pub manifest_path: Option<String>,
    pub event_source: String,
    pub binding_nonce: String,
    pub generated_binding_nonce: bool,
    pub lifecycle_environment: Json,
    pub spool_append_environment: Json,
    pub installed_config_snippet: Json,
    pub next_commands: Vec<Vec<String>>,
    pub trust_boundary: String,
}

/// What an `AdapterBindingInstalledConfigPreparationOutcome` holds.
#[verifier::ext_equal]
pub struct AdapterBindingInstalledConfigPreparationOutcomeView {
    pub client: Seq<char>,
    pub manifest_path: Option<Seq<char>>,
    pub event_source: Seq<char>,
    pub binding_nonce: Seq<char>,
    pub generated_binding_nonce: bool,
    pub lifecycle_environment: JsonView,
    pub spool_append_environment: JsonView,
    pub installed_config_snippet: JsonView,
    pub next_commands: Seq<Seq<Seq<char>>>,
    pub trust_boundary: Seq<char>,
}

impl DeepView for AdapterBindingInstalledConfigPreparationOutcome {
    type V = AdapterBindingInstalledConfigPreparationOutcomeView;

    open spec fn deep_view(&self) -> AdapterBindingInstalledConfigPreparationOutcomeView {
        AdapterBindingInstalledConfigPreparationOutcomeView {
            client: self.client.deep_view(),
            manifest_path: self.manifest_path.deep_view(),
            event_source: self.event_source.deep_view(),
            binding_nonce: self.binding_nonce.deep_view(),
            generated_binding_nonce: self.generated_binding_nonce,
            lifecycle_environment: self.lifecycle_environment.deep_view(),
            spool_append_environment: self.spool_append_environment.deep_view(),
            installed_config_snippet: self.installed_config_snippet.deep_view(),
            next_commands: self.next_commands.deep_view(),
            trust_boundary: self.trust_boundary.deep_view(),
        }
    }
}

/// A client configuration to install, as a file.
#[derive(Debug)]
pub struct AdapterBindingInstalledConfigRenderOutcome {
    pub client: String,
    pub manifest_path: Option<String>,
    pub event_source: String,
    pub binding_nonce: String,
    pub generated_binding_nonce: bool,
    pub output_path: Option<String>,
    pub wrote_file: bool,
    pub installed_config: Json,
    pub eligible_for_observed_app_hook: Option<bool>,
    pub checks: Option<InstalledConfigScan>,
    pub next_commands: Vec<Vec<String>>,
    pub trust_boundary: String,
}

/// What an `AdapterBindingInstalledConfigRenderOutcome` holds.
#[verifier::ext_equal]
pub struct AdapterBindingInstalledConfigRenderOutcomeView {
    pub client: Seq<char>,
    pub manifest_path: Option<Seq<char>>,
    pub event_source: Seq<char>,
    pub binding_nonce: Seq<char>,
    pub generated_binding_nonce: bool,
    pub output_path: Option<Seq<char>>,
    pub wrote_file: bool,
    pub installed_config: JsonView,
    pub eligible_for_observed_app_hook: Option<bool>,
    pub checks: Option<InstalledConfigScanView>,
    pub next_commands: Seq<Seq<Seq<char>>>,
    pub trust_boundary: Seq<char>,
}

impl DeepView for AdapterBindingInstalledConfigRenderOutcome {
    type V = AdapterBindingInstalledConfigRenderOutcomeView;

    open spec fn deep_view(&self) -> AdapterBindingInstalledConfigRenderOutcomeView {
        AdapterBindingInstalledConfigRenderOutcomeView {
            client: self.client.deep_view(),
            manifest_path: self.manifest_path.deep_view(),
            event_source: self.event_source.deep_view(),
            binding_nonce: self.binding_nonce.deep_view(),
            generated_binding_nonce: self.generated_binding_nonce,
            output_path: self.output_path.deep_view(),
            wrote_file: self.wrote_file,
            installed_config: self.installed_config.deep_view(),
            eligible_for_observed_app_hook: self.eligible_for_observed_app_hook.deep_view(),
            checks: self.checks.deep_view(),
            next_commands: self.next_commands.deep_view(),
            trust_boundary: self.trust_boundary.deep_view(),
        }
    }
}

/// A form for evidence of a rendered review.
#[derive(Debug)]
pub struct AdapterBindingRenderEvidencePacketOutcome {
    pub client: String,
    pub manifest_path: Option<String>,
    pub review_render_report_path: String,
    pub review_render_fingerprint: String,
    pub output_path: Option<String>,
    pub wrote_file: bool,
    pub render_evidence: Json,
    pub preflight_scan: Option<Json>,
    pub missing_requirements: Vec<String>,
    pub next_commands: Vec<Vec<String>>,
    pub trust_boundary: String,
}

/// What an `AdapterBindingRenderEvidencePacketOutcome` holds.
#[verifier::ext_equal]
pub struct AdapterBindingRenderEvidencePacketOutcomeView {
    pub client: Seq<char>,
    pub manifest_path: Option<Seq<char>>,
    pub review_render_report_path: Seq<char>,
    pub review_render_fingerprint: Seq<char>,
    pub output_path: Option<Seq<char>>,
    pub wrote_file: bool,
    pub render_evidence: JsonView,
    pub preflight_scan: Option<JsonView>,
    pub missing_requirements: Seq<Seq<char>>,
    pub next_commands: Seq<Seq<Seq<char>>>,
    pub trust_boundary: Seq<char>,
}

impl DeepView for AdapterBindingRenderEvidencePacketOutcome {
    type V = AdapterBindingRenderEvidencePacketOutcomeView;

    open spec fn deep_view(&self) -> AdapterBindingRenderEvidencePacketOutcomeView {
        AdapterBindingRenderEvidencePacketOutcomeView {
            client: self.client.deep_view(),
            manifest_path: self.manifest_path.deep_view(),
            review_render_report_path: self.review_render_report_path.deep_view(),
            review_render_fingerprint: self.review_render_fingerprint.deep_view(),
            output_path: self.output_path.deep_view(),
            wrote_file: self.wrote_file,
            render_evidence: self.render_evidence.deep_view(),
            preflight_scan: self.preflight_scan.deep_view(),
            missing_requirements: self.missing_requirements.deep_view(),
            next_commands: self.next_commands.deep_view(),
            trust_boundary: self.trust_boundary.deep_view(),
        }
    }
}

/// All that is known of a client binding.
#[derive(Debug)]
pub struct AdapterBindingEvidenceBundleOutcome {
    pub client: String,
    pub manifest_path: Option<String>,
    pub expected_event_source: String,
    pub binding_nonce: String,
    pub generated_binding_nonce: bool,
    pub config_root: String,
    pub event_jsonl_path: Option<String>,
    pub continue_devdata_collector: Option<ContinueDevdataCollectorProbe>,
    pub readiness: AdapterBindingProofStatusOutcome,
    pub installed_config_discovery: AdapterBindingInstalledConfigDiscoveryOutcome,
    pub installed_config_preview: AdapterBindingInstalledConfigRenderOutcome,
    pub real_app_proof_kit: AdapterBindingRealAppProofKitOutcome,
    pub operator_flow: Vec<ClientBindingOperatorFlowStep>,
    pub proof_session: ClientBindingProofSession,
    pub blocking_gaps: Vec<String>,
    pub trust_boundary: String,
}

/// What an `AdapterBindingEvidenceBundleOutcome` holds.
#[verifier::ext_equal]
pub struct AdapterBindingEvidenceBundleOutcomeView {
    pub client: Seq<char>,
    pub manifest_path: Option<Seq<char>>,
    pub expected_event_source: Seq<char>,
    pub binding_nonce: Seq<char>,
    pub generated_binding_nonce: bool,
    pub config_root: Seq<char>,
    pub event_jsonl_path: Option<Seq<char>>,
    pub continue_devdata_collector: Option<ContinueDevdataCollectorProbeView>,
    pub readiness: AdapterBindingProofStatusOutcomeView,
    pub installed_config_discovery: AdapterBindingInstalledConfigDiscoveryOutcomeView,
    pub installed_config_preview: AdapterBindingInstalledConfigRenderOutcomeView,
    pub real_app_proof_kit: AdapterBindingRealAppProofKitOutcomeView,
    pub operator_flow: Seq<ClientBindingOperatorFlowStepView>,
    pub proof_session: ClientBindingProofSessionView,
    pub blocking_gaps: Seq<Seq<char>>,
    pub trust_boundary: Seq<char>,
}

impl DeepView for AdapterBindingEvidenceBundleOutcome {
    type V = AdapterBindingEvidenceBundleOutcomeView;

    open spec fn deep_view(&self) -> AdapterBindingEvidenceBundleOutcomeView {
        AdapterBindingEvidenceBundleOutcomeView {
            client: self.client.deep_view(),
            manifest_path: self.manifest_path.deep_view(),
            expected_event_source: self.expected_event_source.deep_view(),
            binding_nonce: self.binding_nonce.deep_view(),
            generated_binding_nonce: self.generated_binding_nonce,
            config_root: self.config_root.deep_view(),
            event_jsonl_path: self.event_jsonl_path.deep_view(),
            continue_devdata_collector: self.continue_devdata_collector.deep_view(),
            readiness: self.readiness.deep_view(),
            installed_config_discovery: self.installed_config_discovery.deep_view(),
            installed_config_preview: self.installed_config_preview.deep_view(),
            real_app_proof_kit: self.real_app_proof_kit.deep_view(),
            operator_flow: self.operator_flow.deep_view(),
            proof_session: self.proof_session.deep_view(),
            blocking_gaps: self.blocking_gaps.deep_view(),
            trust_boundary: self.trust_boundary.deep_view(),
        }
    }
}

/// A proof session, as it is reported.
#[derive(Debug)]
pub struct AdapterBindingProofSessionOutcome {
    pub client: String,
    pub manifest_path: Option<String>,
    pub expected_event_source: String,
    pub binding_nonce: String,
    pub generated_binding_nonce: bool,
    pub config_root: String,
    pub proof_storage_status: String,
    pub proof_storage_error: Option<String>,
    pub proof_storage_recovery_commands: Vec<Vec<String>>,
    pub status: String,
    pub release_gate: String,
    pub ready_for_private_client_claim: bool,
    pub operator_next_action_id: String,
    pub operator_next_action_label: String,
    pub headline: String,
    pub primary_next_step: String,
    pub primary_next_command: Vec<String>,
    pub proof_session_next_step_id: Option<String>,
    pub next_operator_step_title: Option<String>,
    pub artifact_failure_count: usize,
    pub artifact_failures: Vec<ClientBindingArtifactFailure>,
    pub safe_to_claim: Vec<String>,
    pub blocked_claims: Vec<String>,
    pub app_hook_evidence: ClientBindingAppHookEvidenceSummary,
    pub external_action_safety: Option<ExternalActionSafety>,
    pub external_action: Option<ClientBindingExternalOperatorAction>,
    pub operator_card: ClientBindingProofSessionOperatorCard,
    pub next_step_id: Option<String>,
    pub next_command: Option<Vec<String>>,
    pub next_mcp_call: Option<ClientBindingMcpCallTemplate>,
    pub next_operator_step: Option<ClientBindingOperatorFlowStep>,
    pub runbook_schema: String,
    pub pending_proof_levels: Vec<ClientBindingProofLevel>,
    pub blocked_proof_levels: Vec<ClientBindingProofLevel>,
    pub proof_session: ClientBindingProofSession,
    pub blocking_gaps: Vec<String>,
    pub operator_flow: Vec<ClientBindingOperatorFlowStep>,
    pub proofs_found: usize,
    pub ready_client_count: usize,
    pub installed_config_eligible_candidates: usize,
    pub setup_artifact_eligible_candidates: usize,
    pub private_client_target_eligible_candidates: usize,
    pub eligible_setup_artifact_paths: Vec<String>,
    pub eligible_private_client_target_paths: Vec<String>,
    pub private_client_target_candidate_paths: Vec<String>,
    pub trust_boundary: String,
}

/// What an `AdapterBindingProofSessionOutcome` holds.
#[verifier::ext_equal]
pub struct AdapterBindingProofSessionOutcomeView {
    pub client: Seq<char>,
    pub manifest_path: Option<Seq<char>>,
    pub expected_event_source: Seq<char>,
    pub binding_nonce: Seq<char>,
    pub generated_binding_nonce: bool,
    pub config_root: Seq<char>,
    pub proof_storage_status: Seq<char>,
    pub proof_storage_error: Option<Seq<char>>,
    pub proof_storage_recovery_commands: Seq<Seq<Seq<char>>>,
    pub status: Seq<char>,
    pub release_gate: Seq<char>,
    pub ready_for_private_client_claim: bool,
    pub operator_next_action_id: Seq<char>,
    pub operator_next_action_label: Seq<char>,
    pub headline: Seq<char>,
    pub primary_next_step: Seq<char>,
    pub primary_next_command: Seq<Seq<char>>,
    pub proof_session_next_step_id: Option<Seq<char>>,
    pub next_operator_step_title: Option<Seq<char>>,
    pub artifact_failure_count: usize,
    pub artifact_failures: Seq<ClientBindingArtifactFailureView>,
    pub safe_to_claim: Seq<Seq<char>>,
    pub blocked_claims: Seq<Seq<char>>,
    pub app_hook_evidence: ClientBindingAppHookEvidenceSummaryView,
    pub external_action_safety: Option<ExternalActionSafetyView>,
    pub external_action: Option<ClientBindingExternalOperatorActionView>,
    pub operator_card: ClientBindingProofSessionOperatorCardView,
    pub next_step_id: Option<Seq<char>>,
    pub next_command: Option<Seq<Seq<char>>>,
    pub next_mcp_call: Option<ClientBindingMcpCallTemplateView>,
    pub next_operator_step: Option<ClientBindingOperatorFlowStepView>,
    pub runbook_schema: Seq<char>,
    pub pending_proof_levels: Seq<ClientBindingProofLevel>,
    pub blocked_proof_levels: Seq<ClientBindingProofLevel>,
    pub proof_session: ClientBindingProofSessionView,
    pub blocking_gaps: Seq<Seq<char>>,
    pub operator_flow: Seq<ClientBindingOperatorFlowStepView>,
    pub proofs_found: usize,
    pub ready_client_count: usize,
    pub installed_config_eligible_candidates: usize,
    pub setup_artifact_eligible_candidates: usize,
    pub private_client_target_eligible_candidates: usize,
    pub eligible_setup_artifact_paths: Seq<Seq<char>>,
    pub eligible_private_client_target_paths: Seq<Seq<char>>,
    pub private_client_target_candidate_paths: Seq<Seq<char>>,
    pub trust_boundary: Seq<char>,
}

impl DeepView for AdapterBindingProofSessionOutcome {
    type V = AdapterBindingProofSessionOutcomeView;

    open spec fn deep_view(&self) -> AdapterBindingProofSessionOutcomeView {
        AdapterBindingProofSessionOutcomeView {
            client: self.client.deep_view(),
            manifest_path: self.manifest_path.deep_view(),
            expected_event_source: self.expected_event_source.deep_view(),
            binding_nonce: self.binding_nonce.deep_view(),
            generated_binding_nonce: self.generated_binding_nonce,
            config_root: self.config_root.deep_view(),
            proof_storage_status: self.proof_storage_status.deep_view(),
            proof_storage_error: self.proof_storage_error.deep_view(),
            proof_storage_recovery_commands: self.proof_storage_recovery_commands.deep_view(),
            status: self.status.deep_view(),
            release_gate: self.release_gate.deep_view(),
            ready_for_private_client_claim: self.ready_for_private_client_claim,
            operator_next_action_id: self.operator_next_action_id.deep_view(),
            operator_next_action_label: self.operator_next_action_label.deep_view(),
            headline: self.headline.deep_view(),
            primary_next_step: self.primary_next_step.deep_view(),
            primary_next_command: self.primary_next_command.deep_view(),
            proof_session_next_step_id: self.proof_session_next_step_id.deep_view(),
            next_operator_step_title: self.next_operator_step_title.deep_view(),
            artifact_failure_count: self.artifact_failure_count,
            artifact_failures: self.artifact_failures.deep_view(),
            safe_to_claim: self.safe_to_claim.deep_view(),
            blocked_claims: self.blocked_claims.deep_view(),
            app_hook_evidence: self.app_hook_evidence.deep_view(),
            external_action_safety: self.external_action_safety.deep_view(),
            external_action: self.external_action.deep_view(),
            operator_card: self.operator_card.deep_view(),
            next_step_id: self.next_step_id.deep_view(),
            next_command: self.next_command.deep_view(),
            next_mcp_call: self.next_mcp_call.deep_view(),
            next_operator_step: self.next_operator_step.deep_view(),
            runbook_schema: self.runbook_schema.deep_view(),
            pending_proof_levels: self.pending_proof_levels.deep_view(),
            blocked_proof_levels: self.blocked_proof_levels.deep_view(),
            proof_session: self.proof_session.deep_view(),
            blocking_gaps: self.blocking_gaps.deep_view(),
            operator_flow: self.operator_flow.deep_view(),
            proofs_found: self.proofs_found,
            ready_client_count: self.ready_client_count,
            installed_config_eligible_candidates: self.installed_config_eligible_candidates,
            setup_artifact_eligible_candidates: self.setup_artifact_eligible_candidates,
            private_client_target_eligible_candidates: self.private_client_target_eligible_candidates,
            eligible_setup_artifact_paths: self.eligible_setup_artifact_paths.deep_view(),
            eligible_private_client_target_paths: self.eligible_private_client_target_paths.deep_view(),
            private_client_target_candidate_paths: self.private_client_target_candidate_paths.deep_view(),
            trust_boundary: self.trust_boundary.deep_view(),
        }
    }
}

/// What became of the stored evidence files.
#[derive(Debug)]
pub struct AdapterBindingEvidenceArtifactVerificationOutcome {
    pub client: Option<String>,
    pub proof_id: Option<i64>,
    pub limit: usize,
    pub proofs_found: usize,
    pub all_artifacts_verified: bool,
    pub failing_artifact_count: usize,
    pub repair_actions: Vec<EvidenceArtifactRepairAction>,
    pub recovery_commands: Vec<Vec<String>>,
    pub next_steps: Vec<String>,
    pub trust_boundary: String,
    pub proofs: Vec<ClientBindingEvidenceArtifactVerification>,
}

/// What an `AdapterBindingEvidenceArtifactVerificationOutcome` holds.
#[verifier::ext_equal]
pub struct AdapterBindingEvidenceArtifactVerificationOutcomeView {
    pub client: Option<Seq<char>>,
    pub proof_id: Option<i64>,
    pub limit: usize,
    pub proofs_found: usize,
    pub all_artifacts_verified: bool,
    pub failing_artifact_count: usize,
    pub repair_actions: Seq<EvidenceArtifactRepairActionView>,
    pub recovery_commands: Seq<Seq<Seq<char>>>,
    pub next_steps: Seq<Seq<char>>,
    pub trust_boundary: Seq<char>,
    pub proofs: Seq<ClientBindingEvidenceArtifactVerificationView>,
}

impl DeepView for AdapterBindingEvidenceArtifactVerificationOutcome {
    type V = AdapterBindingEvidenceArtifactVerificationOutcomeView;

    open spec fn deep_view(&self) -> AdapterBindingEvidenceArtifactVerificationOutcomeView {
        AdapterBindingEvidenceArtifactVerificationOutcomeView {
            client: self.client.deep_view(),
            proof_id: self.proof_id.deep_view(),
            limit: self.limit,
            proofs_found: self.proofs_found,
            all_artifacts_verified: self.all_artifacts_verified,
            failing_artifact_count: self.failing_artifact_count,
            repair_actions: self.repair_actions.deep_view(),
            recovery_commands: self.recovery_commands.deep_view(),
            next_steps: self.next_steps.deep_view(),
            trust_boundary: self.trust_boundary.deep_view(),
            proofs: self.proofs.deep_view(),
        }
    }
}

/// A file by its length and fingerprint.
#[derive(Debug)]
pub struct FileFingerprintScan {
    pub path: String,
    pub byte_len: u64,
    pub fingerprint: String,
}

/// What a `FileFingerprintScan` holds.
#[verifier::ext_equal]
pub struct FileFingerprintScanView {
    pub path: Seq<char>,
    pub byte_len: u64,
    pub fingerprint: Seq<char>,
}

impl DeepView for FileFingerprintScan {
    type V = FileFingerprintScanView;

    open spec fn deep_view(&self) -> FileFingerprintScanView {
        FileFingerprintScanView {
            path: self.path.deep_view(),
            byte_len: self.byte_len,
            fingerprint: self.fingerprint.deep_view(),
        }
    }
}

/// What an event file holds for one client.
#[derive(Debug)]
pub struct EventScan {
    pub path: String,
    pub byte_len: u64,
    pub modified_at_ns: Option<i64>,
    pub fingerprint: String,
    pub expected_event_source: Option<String>,
    pub expected_binding_nonce: Option<String>,
    pub scanned_lines: usize,
    pub matching_events: usize,
    pub matching_turns: usize,
    pub matching_cloud_outputs: usize,
    pub matching_private_event_sources: usize,
    pub matching_private_non_release_manual_events: usize,
    pub matching_private_non_release_test_events: usize,
    pub matching_writer_contract_events: usize,
    pub matching_private_writer_contract_events: usize,
    pub matching_private_binding_nonces: usize,
    pub matching_private_non_release_manual_binding_nonces: usize,
    pub matching_private_non_release_test_binding_nonces: usize,
    pub matching_events_with_observed_at: usize,
    pub matching_private_events_with_observed_at: usize,
    pub max_matching_observed_at_ns: Option<i64>,
    pub max_matching_private_observed_at_ns: Option<i64>,
}

/// What an `EventScan` holds.
#[verifier::ext_equal]
pub struct EventScanView {
    pub path: Seq<char>,
    pub byte_len: u64,
    pub modified_at_ns: Option<i64>,
    pub fingerprint: Seq<char>,
    pub expected_event_source: Option<Seq<char>>,
    pub expected_binding_nonce: Option<Seq<char>>,
    pub scanned_lines: usize,
    pub matching_events: usize,
    pub matching_turns: usize,
    pub matching_cloud_outputs: usize,
    pub matching_private_event_sources: usize,
    pub matching_private_non_release_manual_events: usize,
    pub matching_private_non_release_test_events: usize,
    pub matching_writer_contract_events: usize,
    pub matching_private_writer_contract_events: usize,
    pub matching_private_binding_nonces: usize,
    pub matching_private_non_release_manual_binding_nonces: usize,
    pub matching_private_non_release_test_binding_nonces: usize,
    pub matching_events_with_observed_at: usize,
    pub matching_private_events_with_observed_at: usize,
    pub max_matching_observed_at_ns: Option<i64>,
    pub max_matching_private_observed_at_ns: Option<i64>,
}

impl DeepView for EventScan {
    type V = EventScanView;

    open spec fn deep_view(&self) -> EventScanView {
        EventScanView {
            path: self.path.deep_view(),
            byte_len: self.byte_len,
            modified_at_ns: self.modified_at_ns.deep_view(),
            fingerprint: self.fingerprint.deep_view(),
            expected_event_source: self.expected_event_source.deep_view(),
            expected_binding_nonce: self.expected_binding_nonce.deep_view(),
            scanned_lines: self.scanned_lines,
            matching_events: self.matching_events,
            matching_turns: self.matching_turns,
            matching_cloud_outputs: self.matching_cloud_outputs,
            matching_private_event_sources: self.matching_private_event_sources,
            matching_private_non_release_manual_events: self.matching_private_non_release_manual_events,
            matching_private_non_release_test_events: self.matching_private_non_release_test_events,
            matching_writer_contract_events: self.matching_writer_contract_events,
            matching_private_writer_contract_events: self.matching_private_writer_contract_events,
            matching_private_binding_nonces: self.matching_private_binding_nonces,
            matching_private_non_release_manual_binding_nonces: self.matching_private_non_release_manual_binding_nonces,
            matching_private_non_release_test_binding_nonces: self.matching_private_non_release_test_binding_nonces,
            matching_events_with_observed_at: self.matching_events_with_observed_at,
            matching_private_events_with_observed_at: self.matching_private_events_with_observed_at,
            max_matching_observed_at_ns: self.max_matching_observed_at_ns.deep_view(),
            max_matching_private_observed_at_ns: self.max_matching_private_observed_at_ns.deep_view(),
        }
    }
}

/// What evidence of a rendered review holds.
#[derive(Debug)]
pub struct RenderEvidenceScan {
    pub path: String,
    pub byte_len: u64,
    pub fingerprint: String,
    pub json_parse_error: Option<String>,
    pub schema: Option<String>,
    pub client: Option<String>,
    pub source: Option<String>,
    pub observed_at_ns: Option<i64>,
    pub review_render_fingerprint: Option<String>,
    pub review_workbench_version: Option<String>,
    pub review_interaction_contract_version: Option<String>,
    pub rendered_surface_count: usize,
    pub rendered_surface_placeholder_count: usize,
    pub raw_tool_output_surface_count: usize,
    pub visible_surface_count: usize,
    pub rendered_surface_names: Vec<String>,
    pub expected_surface_names: Vec<String>,
    pub missing_surface_names: Vec<String>,
    pub rendered_control_ids: Vec<String>,
    pub action_surface_rendered_control_ids: Vec<String>,
    pub missing_action_surface_control_ids: Vec<String>,
    pub expected_control_ids: Vec<String>,
    pub missing_control_ids: Vec<String>,
    pub trust_boundary: Option<String>,
    pub valid_structured_render_evidence: bool,
    pub missing_requirements: Vec<String>,
}

/// What a `RenderEvidenceScan` holds.
#[verifier::ext_equal]
pub struct RenderEvidenceScanView {
    pub path: Seq<char>,
    pub byte_len: u64,
    pub fingerprint: Seq<char>,
    pub json_parse_error: Option<Seq<char>>,
    pub schema: Option<Seq<char>>,
    pub client: Option<Seq<char>>,
    pub source: Option<Seq<char>>,
    pub observed_at_ns: Option<i64>,
    pub review_render_fingerprint: Option<Seq<char>>,
    pub review_workbench_version: Option<Seq<char>>,
    pub review_interaction_contract_version: Option<Seq<char>>,
    pub rendered_surface_count: usize,
    pub rendered_surface_placeholder_count: usize,
    pub raw_tool_output_surface_count: usize,
    pub visible_surface_count: usize,
    pub rendered_surface_names: Seq<Seq<char>>,
    pub expected_surface_names: Seq<Seq<char>>,
    pub missing_surface_names: Seq<Seq<char>>,
    pub rendered_control_ids: Seq<Seq<char>>,
    pub action_surface_rendered_control_ids: Seq<Seq<char>>,
    pub missing_action_surface_control_ids: Seq<Seq<char>>,
    pub expected_control_ids: Seq<Seq<char>>,
    pub missing_control_ids: Seq<Seq<char>>,
    pub trust_boundary: Option<Seq<char>>,
    pub valid_structured_render_evidence: bool,
    pub missing_requirements: Seq<Seq<char>>,
}

impl DeepView for RenderEvidenceScan {
    type V = RenderEvidenceScanView;

    open spec fn deep_view(&self) -> RenderEvidenceScanView {
        RenderEvidenceScanView {
            path: self.path.deep_view(),
            byte_len: self.byte_len,
            fingerprint: self.fingerprint.deep_view(),
            json_parse_error: self.json_parse_error.deep_view(),
            schema: self.schema.deep_view(),
            client: self.client.deep_view(),
            source: self.source.deep_view(),
            observed_at_ns: self.observed_at_ns.deep_view(),
            review_render_fingerprint: self.review_render_fingerprint.deep_view(),
            review_workbench_version: self.review_workbench_version.deep_view(),
            review_interaction_contract_version: self.review_interaction_contract_version.deep_view(),
            rendered_surface_count: self.rendered_surface_count,
            rendered_surface_placeholder_count: self.rendered_surface_placeholder_count,
            raw_tool_output_surface_count: self.raw_tool_output_surface_count,
            visible_surface_count: self.visible_surface_count,
            rendered_surface_names: self.rendered_surface_names.deep_view(),
            expected_surface_names: self.expected_surface_names.deep_view(),
            missing_surface_names: self.missing_surface_names.deep_view(),
            rendered_control_ids: self.rendered_control_ids.deep_view(),
            action_surface_rendered_control_ids: self.action_surface_rendered_control_ids.deep_view(),
            missing_action_surface_control_ids: self.missing_action_surface_control_ids.deep_view(),
            expected_control_ids: self.expected_control_ids.deep_view(),
            missing_control_ids: self.missing_control_ids.deep_view(),
            trust_boundary: self.trust_boundary.deep_view(),
            valid_structured_render_evidence: self.valid_structured_render_evidence,
            missing_requirements: self.missing_requirements.deep_view(),
        }
    }
}

impl Dup for RenderEvidenceScan {
    fn dup(&self) -> (r: Self) {
        RenderEvidenceScan {
            path: self.path.dup(),
            byte_len: self.byte_len,
            fingerprint: self.fingerprint.dup(),
            json_parse_error: self.json_parse_error.dup(),
            schema: self.schema.dup(),
            client: self.client.dup(),
            source: self.source.dup(),
            observed_at_ns: self.observed_at_ns,
            review_render_fingerprint: self.review_render_fingerprint.dup(),
            review_workbench_version: self.review_workbench_version.dup(),
            review_interaction_contract_version: self.review_interaction_contract_version.dup(),
            rendered_surface_count: self.rendered_surface_count,
            rendered_surface_placeholder_count: self.rendered_surface_placeholder_count,
            raw_tool_output_surface_count: self.raw_tool_output_surface_count,
            visible_surface_count: self.visible_surface_count,
            rendered_surface_names: self.rendered_surface_names.dup(),
            expected_surface_names: self.expected_surface_names.dup(),
            missing_surface_names: self.missing_surface_names.dup(),
            rendered_control_ids: self.rendered_control_ids.dup(),
            action_surface_rendered_control_ids: self.action_surface_rendered_control_ids.dup(),
            missing_action_surface_control_ids: self.missing_action_surface_control_ids.dup(),
            expected_control_ids: self.expected_control_ids.dup(),
            missing_control_ids: self.missing_control_ids.dup(),
            trust_boundary: self.trust_boundary.dup(),
            valid_structured_render_evidence: self.valid_structured_render_evidence,
            missing_requirements: self.missing_requirements.dup(),
        }
    }
}

/// What the report of a review action holds.
#[derive(Debug)]
pub struct ReviewActionReportScan {
    pub path: String,
    pub byte_len: u64,
    pub modified_at_ns: Option<i64>,
    pub fingerprint: String,
    pub json_parse_error: Option<String>,
    pub target_type: Option<String>,
    pub target_id: Option<i64>,
    pub action: Option<String>,
    pub control_id: Option<String>,
    pub control_binding_verified: bool,
    pub verification_result: Option<String>,
    pub verification_event_count: usize,
    pub non_cloud_verification_event_count: usize,
    pub claim_count: usize,
    pub task_frame_outcome_count: usize,
    pub durable_promotion_trust: Option<bool>,
    pub trust_boundary: Option<String>,
    pub valid_storage_gated_review_action: bool,
    pub missing_requirements: Vec<String>,
}

/// What a `ReviewActionReportScan` holds.
#[verifier::ext_equal]
pub struct ReviewActionReportScanView {
    pub path: Seq<char>,
    pub byte_len: u64,
    pub modified_at_ns: Option<i64>,
    pub fingerprint: Seq<char>,
    pub json_parse_error: Option<Seq<char>>,
    pub target_type: Option<Seq<char>>,
    pub target_id: Option<i64>,
    pub action: Option<Seq<char>>,
    pub control_id: Option<Seq<char>>,
    pub control_binding_verified: bool,
    pub verification_result: Option<Seq<char>>,
    pub verification_event_count: usize,
    pub non_cloud_verification_event_count: usize,
    pub claim_count: usize,
    pub task_frame_outcome_count: usize,
    pub durable_promotion_trust: Option<bool>,
    pub trust_boundary: Option<Seq<char>>,
    pub valid_storage_gated_review_action: bool,
    pub missing_requirements: Seq<Seq<char>>,
}

impl DeepView for ReviewActionReportScan {
    type V = ReviewActionReportScanView;

    open spec fn deep_view(&self) -> ReviewActionReportScanView {
        ReviewActionReportScanView {
            path: self.path.deep_view(),
            byte_len: self.byte_len,
            modified_at_ns: self.modified_at_ns.deep_view(),
            fingerprint: self.fingerprint.deep_view(),
            json_parse_error: self.json_parse_error.deep_view(),
            target_type: self.target_type.deep_view(),
            target_id: self.target_id.deep_view(),
            action: self.action.deep_view(),
            control_id: self.control_id.deep_view(),
            control_binding_verified: self.control_binding_verified,
            verification_result: self.verification_result.deep_view(),
            verification_event_count: self.verification_event_count,
            non_cloud_verification_event_count: self.non_cloud_verification_event_count,
            claim_count: self.claim_count,
            task_frame_outcome_count: self.task_frame_outcome_count,
            durable_promotion_trust: self.durable_promotion_trust.deep_view(),
            trust_boundary: self.trust_boundary.deep_view(),
            valid_storage_gated_review_action: self.valid_storage_gated_review_action,
            missing_requirements: self.missing_requirements.deep_view(),
        }
    }
}

/// The flags of one `soma adapter-binding-proof` call.
#[derive(Debug)]
pub struct AdapterBindingProofArgs {
    pub manifest: Option<String>,
    pub client: Option<String>,
    pub proof_level: String,
    pub evidence_source: String,
    pub event_jsonl: Option<String>,
    pub installed_config: Option<String>,
    pub drain_report: Option<String>,
    pub review_render_report: Option<String>,
    pub render_evidence: Option<String>,
    pub review_action_report: Option<String>,
    pub binding_nonce: Option<String>,
    pub config_root: Option<String>,
    pub artifact_dir: Option<String>,
    pub write_installed_config: Option<String>,
    pub write_render_evidence: Option<String>,
    pub limit: usize,
    pub proof_id: Option<i64>,
    pub list: bool,
    pub status: bool,
    pub verify_evidence_artifacts: bool,
    pub discover_installed_config: bool,
    pub real_app_proof_kit: bool,
    pub prepare_installed_config: bool,
    pub require_private_target_config_for_app_hook: bool,
    pub operator_confirm_real_app_invocation: bool,
    pub operator_confirm_in_client_render: bool,
    pub operator_confirm_review_action: bool,
    pub operator_confirm_release_grade_evidence: bool,
}

/// What an `AdapterBindingProofArgs` holds.
#[verifier::ext_equal]
pub struct AdapterBindingProofArgsView {
    pub manifest: Option<Seq<char>>,
    pub client: Option<Seq<char>>,
    pub proof_level: Seq<char>,
    pub evidence_source: Seq<char>,
    pub event_jsonl: Option<Seq<char>>,
    pub installed_config: Option<Seq<char>>,
    pub drain_report: Option<Seq<char>>,
    pub review_render_report: Option<Seq<char>>,
    pub render_evidence: Option<Seq<char>>,
    pub review_action_report: Option<Seq<char>>,
    pub binding_nonce: Option<Seq<char>>,
    pub config_root: Option<Seq<char>>,
    pub artifact_dir: Option<Seq<char>>,
    pub write_installed_config: Option<Seq<char>>,
    pub write_render_evidence: Option<Seq<char>>,
    pub limit: usize,
    pub proof_id: Option<i64>,
    pub list: bool,
    pub status: bool,
    pub verify_evidence_artifacts: bool,
    pub discover_installed_config: bool,
    pub real_app_proof_kit: bool,
    pub prepare_installed_config: bool,
    pub require_private_target_config_for_app_hook: bool,
    pub operator_confirm_real_app_invocation: bool,
    pub operator_confirm_in_client_render: bool,
    pub operator_confirm_review_action: bool,
    pub operator_confirm_release_grade_evidence: bool,
}

impl DeepView for AdapterBindingProofArgs {
    type V = AdapterBindingProofArgsView;

    open spec fn deep_view(&self) -> AdapterBindingProofArgsView {
        AdapterBindingProofArgsView {
            manifest: self.manifest.deep_view(),
            client: self.client.deep_view(),
            proof_level: self.proof_level.deep_view(),
            evidence_source: self.evidence_source.deep_view(),
            event_jsonl: self.event_jsonl.deep_view(),
            installed_config: self.installed_config.deep_view(),
            drain_report: self.drain_report.deep_view(),
            review_render_report: self.review_render_report.deep_view(),
            render_evidence: self.render_evidence.deep_view(),
            review_action_report: self.review_action_report.deep_view(),
            binding_nonce: self.binding_nonce.deep_view(),
            config_root: self.config_root.deep_view(),
            artifact_dir: self.artifact_dir.deep_view(),
            write_installed_config: self.write_installed_config.deep_view(),
            write_render_evidence: self.write_render_evidence.deep_view(),
            limit: self.limit,
            proof_id: self.proof_id.deep_view(),
            list: self.list,
            status: self.status,
            verify_evidence_artifacts: self.verify_evidence_artifacts,
            discover_installed_config: self.discover_installed_config,
            real_app_proof_kit: self.real_app_proof_kit,
            prepare_installed_config: self.prepare_installed_config,
            require_private_target_config_for_app_hook: self.require_private_target_config_for_app_hook,
            operator_confirm_real_app_invocation: self.operator_confirm_real_app_invocation,
            operator_confirm_in_client_render: self.operator_confirm_in_client_render,
            operator_confirm_review_action: self.operator_confirm_review_action,
            operator_confirm_release_grade_evidence: self.operator_confirm_release_grade_evidence,
        }
    }
}

impl Dup for AdapterBindingProofArgs {
    fn dup(&self) -> (r: Self) {
        AdapterBindingProofArgs {
            manifest: self.manifest.dup(),
            client: self.client.dup(),
            proof_level: self.proof_level.dup(),
            evidence_source: self.evidence_source.dup(),
            event_jsonl: self.event_jsonl.dup(),
            installed_config: self.installed_config.dup(),
            drain_report: self.drain_report.dup(),
            review_render_report: self.review_render_report.dup(),
            render_evidence: self.render_evidence.dup(),
            review_action_report: self.review_action_report.dup(),
            binding_nonce: self.binding_nonce.dup(),
            config_root: self.config_root.dup(),
            artifact_dir: self.artifact_dir.dup(),
            write_installed_config: self.write_installed_config.dup(),
            write_render_evidence: self.write_render_evidence.dup(),
            limit: self.limit,
            proof_id: self.proof_id,
            list: self.list,
            status: self.status,
            verify_evidence_artifacts: self.verify_evidence_artifacts,
            discover_installed_config: self.discover_installed_config,
            real_app_proof_kit: self.real_app_proof_kit,
            prepare_installed_config: self.prepare_installed_config,
            require_private_target_config_for_app_hook: self.require_private_target_config_for_app_hook,
            operator_confirm_real_app_invocation: self.operator_confirm_real_app_invocation,
            operator_confirm_in_client_render: self.operator_confirm_in_client_render,
            operator_confirm_review_action: self.operator_confirm_review_action,
            operator_confirm_release_grade_evidence: self.operator_confirm_release_grade_evidence,
        }
    }
}

/// A file as it was found: its resolved path, what the system told of it, and its bytes.
/// Where the system told nothing, or the bytes could not be read, the message is kept.
#[derive(Debug)]
pub struct ObservedFile {
    pub path: String,
    pub exists: bool,
    pub is_file: bool,
    pub len: u64,
    pub modified_at_ns: Option<i64>,
    pub metadata_error: Option<String>,
    pub contents: Vec<u8>,
    pub read_error: Option<String>,
    pub not_found: bool,
}

/// What an `ObservedFile` holds.
#[verifier::ext_equal]
pub struct ObservedFileView {
    pub path: Seq<char>,
    pub exists: bool,
    pub is_file: bool,
    pub len: u64,
    pub modified_at_ns: Option<i64>,
    pub metadata_error: Option<Seq<char>>,
    pub contents: Seq<u8>,
    pub read_error: Option<Seq<char>>,
    pub not_found: bool,
}

impl DeepView for ObservedFile {
    type V = ObservedFileView;

    open spec fn deep_view(&self) -> ObservedFileView {
        ObservedFileView {
            path: self.path.deep_view(),
            exists: self.exists,
            is_file: self.is_file,
            len: self.len,
            modified_at_ns: self.modified_at_ns.deep_view(),
            metadata_error: self.metadata_error.deep_view(),
            contents: self.contents.deep_view(),
            read_error: self.read_error.deep_view(),
            not_found: self.not_found,
        }
    }
}

/// A path, and the place that it resolves to.
#[derive(Debug)]
pub struct ResolvedPath {
    pub path: String,
    pub resolved: String,
}

/// What a `ResolvedPath` holds.
#[verifier::ext_equal]
pub struct ResolvedPathView {
    pub path: Seq<char>,
    pub resolved: Seq<char>,
}

impl DeepView for ResolvedPath {
    type V = ResolvedPathView;

    open spec fn deep_view(&self) -> ResolvedPathView {
        ResolvedPathView {
            path: self.path.deep_view(),
            resolved: self.resolved.deep_view(),
        }
    }
}

/// What the operator should know before one action.
#[derive(Debug)]
pub struct ActionSafety {
    pub action_id: String,
    pub safety: ExternalActionSafety,
}

/// What an `ActionSafety` holds.
#[verifier::ext_equal]
pub struct ActionSafetyView {
    pub action_id: Seq<char>,
    pub safety: ExternalActionSafetyView,
}

impl DeepView for ActionSafety {
    type V = ActionSafetyView;

    open spec fn deep_view(&self) -> ActionSafetyView {
        ActionSafetyView {
            action_id: self.action_id.deep_view(),
            safety: self.safety.deep_view(),
        }
    }
}

/// What the process knows of its surroundings: the home and working directories, the
/// executables, where the Continue collector listens, the manifests that resolve, and what
/// the operator should know before acting outside.
#[derive(Debug)]
pub struct Host {
    pub home: Option<String>,
    pub cwd: Option<String>,
    pub identity: BinaryIdentity,
    pub collector_host: String,
    pub collector_port: u16,
    pub manifests: Vec<ResolvedPath>,
    pub safety: Vec<ActionSafety>,
}

/// What a `Host` holds.
#[verifier::ext_equal]
pub struct HostView {
    pub home: Option<Seq<char>>,
    pub cwd: Option<Seq<char>>,
    pub identity: BinaryIdentityView,
    pub collector_host: Seq<char>,
    pub collector_port: u16,
    pub manifests: Seq<ResolvedPathView>,
    pub safety: Seq<ActionSafetyView>,
}

impl DeepView for Host {
    type V = HostView;

    open spec fn deep_view(&self) -> HostView {
        HostView {
            home: self.home.deep_view(),
            cwd: self.cwd.deep_view(),
            identity: self.identity.deep_view(),
            collector_host: self.collector_host.deep_view(),
            collector_port: self.collector_port,
            manifests: self.manifests.deep_view(),
            safety: self.safety.deep_view(),
        }
    }
}

}
