//! `soma context hardening-report`: whether the product is fit for release.
//!
//! The report gathers audits of an envelope, of the store, of the review queue and of the
//! client bindings. Here stands which audits it asks for, and what the audit of the client
//! bindings makes of the stored proofs.
use super::args::{ContextHardeningReportArgs, ContextHardeningReportArgsView};
use super::error::{ContextError, ContextFault};
use super::requests::{check_hardening, hardenable};
use crate::cli::adapter_binding_proof::session::{
    evidence_path_in, proof_session_render_evidence_artifact_path,
};
use crate::cli::adapter_binding_proof::types::{
    artifact_status_name, fault_text, AdapterBindingProofArgs, AdapterBindingProofArgsView,
    AdapterBindingProofError, AdapterBindingProofStatusOutcome,
    AdapterBindingProofStatusOutcomeView, BindingFault, ClientBindingArtifactFailure,
    ClientBindingArtifactFailureView, ClientBindingNonReleaseEvidenceSource,
    ClientBindingNonReleaseEvidenceSourceView, ClientBindingProofSession,
    ClientBindingProofSessionView, ClientBindingReadinessStatus, ClientBindingReadinessStatusView,
};
use crate::dup::Dup;
use crate::json::{member_set, members_view, object_of, set_member, Json, JsonView};
use crate::number::{decimal, decimal_int, decimal_text, int_text};
use crate::outcome::{borrowed, copy_text, outcome, owned, trim_nonblank, trimmed_nonblank};
use crate::storage::level_name;
use crate::text::{
    cat2, cat5, copied, lower, lowered, nil, none, ordered_set, same, sorted, trimmed, with, Phrase,
    Words,
};
use vstd::prelude::*;
use vstd::string::*;

verus! {

/// A piece of evidence that is not as it was when it was recorded.
#[derive(Debug)]
pub struct ProductHardeningEvidenceArtifactFailure {
    pub proof_id: i64,
    pub proof_level: String,
    pub kind: String,
    pub path: Option<String>,
    pub status: String,
    pub error: Option<String>,
}

/// What a `ProductHardeningEvidenceArtifactFailure` holds.
#[verifier::ext_equal]
pub struct ProductHardeningEvidenceArtifactFailureView {
    pub proof_id: i64,
    pub proof_level: Seq<char>,
    pub kind: Seq<char>,
    pub path: Option<Seq<char>>,
    pub status: Seq<char>,
    pub error: Option<Seq<char>>,
}

impl DeepView for ProductHardeningEvidenceArtifactFailure {
    type V = ProductHardeningEvidenceArtifactFailureView;

    open spec fn deep_view(&self) -> ProductHardeningEvidenceArtifactFailureView {
        ProductHardeningEvidenceArtifactFailureView {
            proof_id: self.proof_id,
            proof_level: self.proof_level.deep_view(),
            kind: self.kind.deep_view(),
            path: self.path.deep_view(),
            status: self.status.deep_view(),
            error: self.error.deep_view(),
        }
    }
}

/// How far the proofs of one client go.
#[derive(Debug)]
pub struct ClientBindingHardeningClientSnapshot {
    pub client: String,
    pub readiness: String,
    pub ready_for_private_client_claim: bool,
    pub has_observed_app_hook: bool,
    pub has_observed_in_client_render: bool,
    pub has_observed_review_action: bool,
    pub artifact_failure_count: usize,
    pub artifact_failures: Vec<ProductHardeningEvidenceArtifactFailure>,
    pub coherence_failure_count: usize,
    pub non_release_evidence_source_count: usize,
    pub non_release_proof_levels: Vec<String>,
}

/// What a `ClientBindingHardeningClientSnapshot` holds.
#[verifier::ext_equal]
pub struct ClientBindingHardeningClientSnapshotView {
    pub client: Seq<char>,
    pub readiness: Seq<char>,
    pub ready_for_private_client_claim: bool,
    pub has_observed_app_hook: bool,
    pub has_observed_in_client_render: bool,
    pub has_observed_review_action: bool,
    pub artifact_failure_count: usize,
    pub artifact_failures: Seq<ProductHardeningEvidenceArtifactFailureView>,
    pub coherence_failure_count: usize,
    pub non_release_evidence_source_count: usize,
    pub non_release_proof_levels: Seq<Seq<char>>,
}

impl DeepView for ClientBindingHardeningClientSnapshot {
    type V = ClientBindingHardeningClientSnapshotView;

    open spec fn deep_view(&self) -> ClientBindingHardeningClientSnapshotView {
        ClientBindingHardeningClientSnapshotView {
            client: self.client.deep_view(),
            readiness: self.readiness.deep_view(),
            ready_for_private_client_claim: self.ready_for_private_client_claim,
            has_observed_app_hook: self.has_observed_app_hook,
            has_observed_in_client_render: self.has_observed_in_client_render,
            has_observed_review_action: self.has_observed_review_action,
            artifact_failure_count: self.artifact_failure_count,
            artifact_failures: self.artifact_failures.deep_view(),
            coherence_failure_count: self.coherence_failure_count,
            non_release_evidence_source_count: self.non_release_evidence_source_count,
            non_release_proof_levels: self.non_release_proof_levels.deep_view(),
        }
    }
}

/// What a proof session says is to be done next.
#[derive(Debug)]
pub struct ProofSessionProbe {
    pub next_step_id: Option<String>,
    pub next_command: Option<Vec<String>>,
    pub mcp_tool: Option<String>,
    pub mcp_arguments: Option<Json>,
    pub mcp_trust_boundary: Option<String>,
}

/// What a `ProofSessionProbe` holds.
#[verifier::ext_equal]
pub struct ProofSessionProbeView {
    pub next_step_id: Option<Seq<char>>,
    pub next_command: Option<Seq<Seq<char>>>,
    pub mcp_tool: Option<Seq<char>>,
    pub mcp_arguments: Option<JsonView>,
    pub mcp_trust_boundary: Option<Seq<char>>,
}

impl DeepView for ProofSessionProbe {
    type V = ProofSessionProbeView;

    open spec fn deep_view(&self) -> ProofSessionProbeView {
        ProofSessionProbeView {
            next_step_id: self.next_step_id.deep_view(),
            next_command: self.next_command.deep_view(),
            mcp_tool: self.mcp_tool.deep_view(),
            mcp_arguments: self.mcp_arguments.deep_view(),
            mcp_trust_boundary: self.mcp_trust_boundary.deep_view(),
        }
    }
}

/// A client that must be proven, and how its proof goes on. What else is known of it is kept
/// as it is.
#[derive(Debug)]
pub struct RequiredClientProofRow {
    pub client: String,
    pub proof_session_required: bool,
    pub proof_session_cli: String,
    pub proof_session_mcp_arguments: Json,
    pub config_root_probe_hint: Option<Json>,
    pub probe: Option<ProofSessionProbe>,
    pub render_evidence_artifact_path: Option<String>,
    pub details: Json,
}

/// What a `RequiredClientProofRow` holds.
#[verifier::ext_equal]
pub struct RequiredClientProofRowView {
    pub client: Seq<char>,
    pub proof_session_required: bool,
    pub proof_session_cli: Seq<char>,
    pub proof_session_mcp_arguments: JsonView,
    pub config_root_probe_hint: Option<JsonView>,
    pub probe: Option<ProofSessionProbeView>,
    pub render_evidence_artifact_path: Option<Seq<char>>,
    pub details: JsonView,
}

impl DeepView for RequiredClientProofRow {
    type V = RequiredClientProofRowView;

    open spec fn deep_view(&self) -> RequiredClientProofRowView {
        RequiredClientProofRowView {
            client: self.client.deep_view(),
            proof_session_required: self.proof_session_required,
            proof_session_cli: self.proof_session_cli.deep_view(),
            proof_session_mcp_arguments: self.proof_session_mcp_arguments.deep_view(),
            config_root_probe_hint: self.config_root_probe_hint.deep_view(),
            probe: self.probe.deep_view(),
            render_evidence_artifact_path: self.render_evidence_artifact_path.deep_view(),
            details: self.details.deep_view(),
        }
    }
}

/// Which proofs an audit looks at.
#[derive(Debug)]
pub struct ClientBindingAuditQuery {
    pub client: Option<String>,
    pub limit: usize,
    pub proof_client: Option<String>,
}

/// What a `ClientBindingAuditQuery` holds.
#[verifier::ext_equal]
pub struct ClientBindingAuditQueryView {
    pub client: Option<Seq<char>>,
    pub limit: usize,
    pub proof_client: Option<Seq<char>>,
}

impl DeepView for ClientBindingAuditQuery {
    type V = ClientBindingAuditQueryView;

    open spec fn deep_view(&self) -> ClientBindingAuditQueryView {
        ClientBindingAuditQueryView {
            client: self.client.deep_view(),
            limit: self.limit,
            proof_client: self.proof_client.deep_view(),
        }
    }
}

/// Where the proofs stand as a whole, and for which clients they are to go on.
#[derive(Debug)]
pub struct ProofSessionSummary {
    pub status: String,
    pub release_gate: String,
    pub next_step_id: Option<String>,
    pub target_clients: Vec<String>,
}

/// What a `ProofSessionSummary` holds.
#[verifier::ext_equal]
pub struct ProofSessionSummaryView {
    pub status: Seq<char>,
    pub release_gate: Seq<char>,
    pub next_step_id: Option<Seq<char>>,
    pub target_clients: Seq<Seq<char>>,
}

impl DeepView for ProofSessionSummary {
    type V = ProofSessionSummaryView;

    open spec fn deep_view(&self) -> ProofSessionSummaryView {
        ProofSessionSummaryView {
            status: self.status.deep_view(),
            release_gate: self.release_gate.deep_view(),
            next_step_id: self.next_step_id.deep_view(),
            target_clients: self.target_clients.deep_view(),
        }
    }
}

/// What an audit of the client bindings found.
#[derive(Debug)]
pub struct ClientBindingHardeningAudit {
    pub client: Option<String>,
    pub required_clients: Vec<String>,
    pub required_client_proof_matrix: Vec<RequiredClientProofRow>,
    pub proof_session_source: String,
    pub proof_session_runbook_source: String,
    pub proof_session_runbook_schema: String,
    pub proof_session_runbook_required: bool,
    pub proof_session_runbook_next_step_id: Option<String>,
    pub proof_session_status: String,
    pub proof_session_release_gate: String,
    pub proof_session_next_step_id: Option<String>,
    pub proof_session_target_clients: Vec<String>,
    pub proof_session_config_root_probe_hint: Option<Json>,
    pub required_client_count: usize,
    pub required_ready_client_count: usize,
    pub missing_required_clients: Vec<String>,
    pub unready_required_clients: Vec<String>,
    pub proof_limit: usize,
    pub proofs_found: usize,
    pub client_count: usize,
    pub ready_client_count: usize,
    pub all_latest_artifacts_verified: bool,
    pub artifact_failure_count: usize,
    pub coherence_failure_count: usize,
    pub non_release_evidence_source_count: usize,
    pub non_release_proof_levels: Vec<String>,
    pub primary_readiness: Option<String>,
    pub primary_coherence_failures: Vec<String>,
    pub primary_non_release_evidence_sources: Vec<String>,
    pub readiness_values: Vec<String>,
}

/// What a `ClientBindingHardeningAudit` holds.
#[verifier::ext_equal]
pub struct ClientBindingHardeningAuditView {
    pub client: Option<Seq<char>>,
    pub required_clients: Seq<Seq<char>>,
    pub required_client_proof_matrix: Seq<RequiredClientProofRowView>,
    pub proof_session_source: Seq<char>,
    pub proof_session_runbook_source: Seq<char>,
    pub proof_session_runbook_schema: Seq<char>,
    pub proof_session_runbook_required: bool,
    pub proof_session_runbook_next_step_id: Option<Seq<char>>,
    pub proof_session_status: Seq<char>,
    pub proof_session_release_gate: Seq<char>,
    pub proof_session_next_step_id: Option<Seq<char>>,
    pub proof_session_target_clients: Seq<Seq<char>>,
    pub proof_session_config_root_probe_hint: Option<JsonView>,
    pub required_client_count: usize,
    pub required_ready_client_count: usize,
    pub missing_required_clients: Seq<Seq<char>>,
    pub unready_required_clients: Seq<Seq<char>>,
    pub proof_limit: usize,
    pub proofs_found: usize,
    pub client_count: usize,
    pub ready_client_count: usize,
    pub all_latest_artifacts_verified: bool,
    pub artifact_failure_count: usize,
    pub coherence_failure_count: usize,
    pub non_release_evidence_source_count: usize,
    pub non_release_proof_levels: Seq<Seq<char>>,
    pub primary_readiness: Option<Seq<char>>,
    pub primary_coherence_failures: Seq<Seq<char>>,
    pub primary_non_release_evidence_sources: Seq<Seq<char>>,
    pub readiness_values: Seq<Seq<char>>,
}

impl DeepView for ClientBindingHardeningAudit {
    type V = ClientBindingHardeningAuditView;

    open spec fn deep_view(&self) -> ClientBindingHardeningAuditView {
        ClientBindingHardeningAuditView {
            client: self.client.deep_view(),
            required_clients: self.required_clients.deep_view(),
            required_client_proof_matrix: self.required_client_proof_matrix.deep_view(),
            proof_session_source: self.proof_session_source.deep_view(),
            proof_session_runbook_source: self.proof_session_runbook_source.deep_view(),
            proof_session_runbook_schema: self.proof_session_runbook_schema.deep_view(),
            proof_session_runbook_required: self.proof_session_runbook_required,
            proof_session_runbook_next_step_id: self.proof_session_runbook_next_step_id.deep_view(),
            proof_session_status: self.proof_session_status.deep_view(),
            proof_session_release_gate: self.proof_session_release_gate.deep_view(),
            proof_session_next_step_id: self.proof_session_next_step_id.deep_view(),
            proof_session_target_clients: self.proof_session_target_clients.deep_view(),
            proof_session_config_root_probe_hint: self.proof_session_config_root_probe_hint.deep_view(),
            required_client_count: self.required_client_count,
            required_ready_client_count: self.required_ready_client_count,
            missing_required_clients: self.missing_required_clients.deep_view(),
            unready_required_clients: self.unready_required_clients.deep_view(),
            proof_limit: self.proof_limit,
            proofs_found: self.proofs_found,
            client_count: self.client_count,
            ready_client_count: self.ready_client_count,
            all_latest_artifacts_verified: self.all_latest_artifacts_verified,
            artifact_failure_count: self.artifact_failure_count,
            coherence_failure_count: self.coherence_failure_count,
            non_release_evidence_source_count: self.non_release_evidence_source_count,
            non_release_proof_levels: self.non_release_proof_levels.deep_view(),
            primary_readiness: self.primary_readiness.deep_view(),
            primary_coherence_failures: self.primary_coherence_failures.deep_view(),
            primary_non_release_evidence_sources: self.primary_non_release_evidence_sources.deep_view(),
            readiness_values: self.readiness_values.deep_view(),
        }
    }
}

/// What must hold for a hardened product.
#[derive(Debug)]
pub struct ProductHardeningRequirements {
    pub client_binding_ready: bool,
    pub review_queue_clear: bool,
    pub task_frame_retention_clean: bool,
    pub task_frame_projection: bool,
}

/// What a `ProductHardeningRequirements` holds.
#[verifier::ext_equal]
pub struct ProductHardeningRequirementsView {
    pub client_binding_ready: bool,
    pub review_queue_clear: bool,
    pub task_frame_retention_clean: bool,
    pub task_frame_projection: bool,
}

impl DeepView for ProductHardeningRequirements {
    type V = ProductHardeningRequirementsView;

    open spec fn deep_view(&self) -> ProductHardeningRequirementsView {
        ProductHardeningRequirementsView {
            client_binding_ready: self.client_binding_ready,
            review_queue_clear: self.review_queue_clear,
            task_frame_retention_clean: self.task_frame_retention_clean,
            task_frame_projection: self.task_frame_projection,
        }
    }
}

/// What a hardening report looks at, for which project and session, and what it demands.
#[derive(Debug)]
pub struct HardeningPlan {
    pub project: Option<String>,
    pub session_id: Option<String>,
    pub trust_limit: usize,
    pub review_limit: usize,
    pub client: Option<String>,
    pub task_frame_retention_days: i64,
    pub query: Option<String>,
    pub task_frame_id: Option<i64>,
    pub required_clients: Vec<String>,
    pub client_binding: Option<ClientBindingAuditQuery>,
    pub requirements: ProductHardeningRequirements,
    pub override_command: Vec<String>,
}

/// What a `HardeningPlan` holds.
#[verifier::ext_equal]
pub struct HardeningPlanView {
    pub project: Option<Seq<char>>,
    pub session_id: Option<Seq<char>>,
    pub trust_limit: usize,
    pub review_limit: usize,
    pub client: Option<Seq<char>>,
    pub task_frame_retention_days: i64,
    pub query: Option<Seq<char>>,
    pub task_frame_id: Option<i64>,
    pub required_clients: Seq<Seq<char>>,
    pub client_binding: Option<ClientBindingAuditQueryView>,
    pub requirements: ProductHardeningRequirementsView,
    pub override_command: Seq<Seq<char>>,
}

impl DeepView for HardeningPlan {
    type V = HardeningPlanView;

    open spec fn deep_view(&self) -> HardeningPlanView {
        HardeningPlanView {
            project: self.project.deep_view(),
            session_id: self.session_id.deep_view(),
            trust_limit: self.trust_limit,
            review_limit: self.review_limit,
            client: self.client.deep_view(),
            task_frame_retention_days: self.task_frame_retention_days,
            query: self.query.deep_view(),
            task_frame_id: self.task_frame_id.deep_view(),
            required_clients: self.required_clients.deep_view(),
            client_binding: self.client_binding.deep_view(),
            requirements: self.requirements.deep_view(),
            override_command: self.override_command.deep_view(),
        }
    }
}

// ---------------------------------------------------------------------------
// Which proofs are looked at
// ---------------------------------------------------------------------------

/// A client's name as it is compared.
pub open spec fn client_named(client: Option<Seq<char>>) -> Option<Seq<char>> {
    match trimmed_nonblank(client) {
        Some(c) => Some(lowered(c)),
        None => None,
    }
}

/// From one to two hundred proofs are looked at.
pub open spec fn clamped(limit: usize) -> usize {
    if limit < 1 {
        1
    } else if limit > 200 {
        200
    } else {
        limit
    }
}

/// Where clients are required, the proofs of all clients are looked at.
pub open spec fn audit_query(
    client: Option<Seq<char>>,
    required: Seq<Seq<char>>,
    limit: usize,
) -> ClientBindingAuditQueryView {
    ClientBindingAuditQueryView {
        client: client_named(client),
        limit: clamped(limit),
        proof_client: if required.len() == 0 {
            client_named(client)
        } else {
            None
        },
    }
}

pub fn begin_client_binding_audit(
    client: Option<&str>,
    required: &Vec<String>,
    limit: usize,
) -> (r: ClientBindingAuditQuery)
    ensures
        r.deep_view() == audit_query(client.deep_view(), required.deep_view(), limit),
{
    assert(required.deep_view().len() == required.len());
    let client = match trim_nonblank(client) {
        Some(c) => Some(lower(c)),
        None => None,
    };
    let limit: usize = if limit < 1 {
        1
    } else if limit > 200 {
        200
    } else {
        limit
    };
    let proof_client = if required.len() == 0 {
        copy_text(&client)
    } else {
        None
    };
    ClientBindingAuditQuery { client, limit, proof_client }
}

// ---------------------------------------------------------------------------
// Counts
// ---------------------------------------------------------------------------

/// A count, as far as it can be told.
pub open spec fn capped(n: nat) -> usize {
    if n <= usize::MAX {
        n as usize
    } else {
        usize::MAX
    }
}

pub open spec fn artifact_failures(clients: Seq<ClientBindingReadinessStatusView>) -> nat
    decreases clients.len(),
{
    if clients.len() == 0 {
        0
    } else {
        artifact_failures(clients.drop_last()) + clients.last().artifact_failures.len()
    }
}

pub open spec fn coherence_failures(clients: Seq<ClientBindingReadinessStatusView>) -> nat
    decreases clients.len(),
{
    if clients.len() == 0 {
        0
    } else {
        coherence_failures(clients.drop_last()) + clients.last().coherence_failures.len()
    }
}

pub open spec fn non_release_sources(clients: Seq<ClientBindingReadinessStatusView>) -> nat
    decreases clients.len(),
{
    if clients.len() == 0 {
        0
    } else {
        non_release_sources(clients.drop_last()) + clients.last().non_release_evidence_sources.len()
    }
}

pub open spec fn ready_clients(clients: Seq<ClientBindingReadinessStatusView>) -> nat
    decreases clients.len(),
{
    if clients.len() == 0 {
        0
    } else {
        ready_clients(clients.drop_last()) + if clients.last().ready_for_private_client_claim {
            1nat
        } else {
            0
        }
    }
}

fn add_capped(a: usize, b: usize) -> (r: usize)
    ensures
        r == capped((a + b) as nat),
{
    if b <= usize::MAX - a {
        a + b
    } else {
        usize::MAX
    }
}

/// The counts over all clients: artifacts that failed, proofs that do not agree, evidence
/// that does not count for a release, and clients that are ready.
fn count_all(clients: &Vec<ClientBindingReadinessStatus>) -> (r: (usize, usize, usize, usize))
    ensures
        r.0 == capped(artifact_failures(clients.deep_view())),
        r.1 == capped(coherence_failures(clients.deep_view())),
        r.2 == capped(non_release_sources(clients.deep_view())),
        r.3 == ready_clients(clients.deep_view()),
{
    let ghost all = clients.deep_view();
    let mut artifacts: usize = 0;
    let mut coherence: usize = 0;
    let mut sources: usize = 0;
    let mut ready: usize = 0;
    let mut i: usize = 0;
    assert(all.take(0) =~= Seq::empty());
    while i < clients.len()
        invariant
            i <= clients.len(),
            all == clients.deep_view(),
            artifacts == capped(artifact_failures(all.take(i as int))),
            coherence == capped(coherence_failures(all.take(i as int))),
            sources == capped(non_release_sources(all.take(i as int))),
            ready == ready_clients(all.take(i as int)),
            ready <= i,
        decreases clients.len() - i,
    {
        assert(all.take(i + 1).drop_last() =~= all.take(i as int));
        assert(all.take(i + 1).last() == clients[i as int].deep_view());
        let c = &clients[i];
        assert(c.artifact_failures.deep_view().len() == c.artifact_failures.len());
        assert(c.coherence_failures.deep_view().len() == c.coherence_failures.len());
        assert(c.non_release_evidence_sources.deep_view().len()
            == c.non_release_evidence_sources.len());
        artifacts = add_capped(artifacts, c.artifact_failures.len());
        coherence = add_capped(coherence, c.coherence_failures.len());
        sources = add_capped(sources, c.non_release_evidence_sources.len());
        if c.ready_for_private_client_claim {
            ready = ready + 1;
        }
        i = i + 1;
    }
    assert(all.take(i as int) =~= all);
    (artifacts, coherence, sources, ready)
}

// ---------------------------------------------------------------------------
// Levels and snapshots
// ---------------------------------------------------------------------------

/// The levels of evidence that does not count for a release.
pub open spec fn source_levels(sources: Seq<ClientBindingNonReleaseEvidenceSourceView>) -> Seq<
    Seq<char>,
> {
    Seq::new(sources.len(), |i: int| level_name(sources[i].proof_level))
}

fn list_source_levels(sources: &Vec<ClientBindingNonReleaseEvidenceSource>) -> (r: Vec<String>)
    ensures
        r.deep_view() == source_levels(sources.deep_view()),
{
    let ghost all = sources.deep_view();
    let mut out: Vec<String> = none();
    let mut i: usize = 0;
    while i < sources.len()
        invariant
            i <= sources.len(),
            all == sources.deep_view(),
            out.deep_view() =~= Seq::new(i as nat, |k: int| level_name(all[k].proof_level)),
        decreases sources.len() - i,
    {
        assert(all[i as int] == sources[i as int].deep_view());
        out = with(out, sources[i].proof_level.as_str().to_string());
        i = i + 1;
    }
    assert(all.len() == sources.len());
    out
}

pub open spec fn all_source_levels(clients: Seq<ClientBindingReadinessStatusView>) -> Seq<Seq<char>>
    decreases clients.len(),
{
    if clients.len() == 0 {
        nil()
    } else {
        all_source_levels(clients.drop_last()) + source_levels(
            clients.last().non_release_evidence_sources,
        )
    }
}

fn list_all_source_levels(clients: &Vec<ClientBindingReadinessStatus>) -> (r: Vec<String>)
    ensures
        r.deep_view() == all_source_levels(clients.deep_view()),
{
    let ghost all = clients.deep_view();
    let mut out: Vec<String> = none();
    let mut i: usize = 0;
    assert(all.take(0) =~= Seq::empty());
    while i < clients.len()
        invariant
            i <= clients.len(),
            all == clients.deep_view(),
            out.deep_view() == all_source_levels(all.take(i as int)),
        decreases clients.len() - i,
    {
        assert(all.take(i + 1).drop_last() =~= all.take(i as int));
        assert(all.take(i + 1).last() == clients[i as int].deep_view());
        let more = list_source_levels(&clients[i].non_release_evidence_sources);
        out = Words::starting(out).more(&more).done();
        i = i + 1;
    }
    assert(all.take(i as int) =~= all);
    out
}

/// Evidence that does not count for a release, in one text each.
pub open spec fn source_texts(sources: Seq<ClientBindingNonReleaseEvidenceSourceView>) -> Seq<
    Seq<char>,
> {
    Seq::new(
        sources.len(),
        |i: int|
            level_name(sources[i].proof_level) + ":"@ + sources[i].evidence_source + ":"@
                + sources[i].reason,
    )
}

fn list_source_texts(sources: &Vec<ClientBindingNonReleaseEvidenceSource>) -> (r: Vec<String>)
    ensures
        r.deep_view() == source_texts(sources.deep_view()),
{
    let ghost all = sources.deep_view();
    let mut out: Vec<String> = none();
    let mut i: usize = 0;
    while i < sources.len()
        invariant
            i <= sources.len(),
            all == sources.deep_view(),
            out.deep_view() =~= source_texts(all).take(i as int),
        decreases sources.len() - i,
    {
        assert(all[i as int] == sources[i as int].deep_view());
        let s = &sources[i];
        let text = cat5(
            s.proof_level.as_str(),
            ":",
            s.evidence_source.as_str(),
            ":",
            s.reason.as_str(),
        );
        assert(text@ == source_texts(all)[i as int]);
        out = with(out, text);
        i = i + 1;
    }
    assert(all.len() == sources.len());
    out
}

pub open spec fn failure_of(
    f: ClientBindingArtifactFailureView,
) -> ProductHardeningEvidenceArtifactFailureView {
    ProductHardeningEvidenceArtifactFailureView {
        proof_id: f.proof_id,
        proof_level: level_name(f.proof_level),
        kind: f.kind,
        path: f.path,
        status: artifact_status_name(f.status),
        error: f.error,
    }
}

pub open spec fn failures_of(f: Seq<ClientBindingArtifactFailureView>) -> Seq<
    ProductHardeningEvidenceArtifactFailureView,
> {
    Seq::new(f.len(), |i: int| failure_of(f[i]))
}

fn list_failures(failures: &Vec<ClientBindingArtifactFailure>) -> (r: Vec<
    ProductHardeningEvidenceArtifactFailure,
>)
    ensures
        r.deep_view() == failures_of(failures.deep_view()),
{
    let ghost all = failures.deep_view();
    let mut out: Vec<ProductHardeningEvidenceArtifactFailure> = none();
    let mut i: usize = 0;
    while i < failures.len()
        invariant
            i <= failures.len(),
            all == failures.deep_view(),
            out.deep_view() =~= Seq::new(i as nat, |k: int| failure_of(all[k])),
        decreases failures.len() - i,
    {
        assert(all[i as int] == failures[i as int].deep_view());
        let f = &failures[i];
        out = with(
            out,
            ProductHardeningEvidenceArtifactFailure {
                proof_id: f.proof_id,
                proof_level: f.proof_level.as_str().to_string(),
                kind: f.kind.clone(),
                path: copy_text(&f.path),
                status: f.status.as_str().to_string(),
                error: copy_text(&f.error),
            },
        );
        i = i + 1;
    }
    assert(all.len() == failures.len());
    out
}

pub open spec fn snapshot_of(
    c: ClientBindingReadinessStatusView,
) -> ClientBindingHardeningClientSnapshotView {
    ClientBindingHardeningClientSnapshotView {
        client: c.client,
        readiness: c.readiness,
        ready_for_private_client_claim: c.ready_for_private_client_claim,
        has_observed_app_hook: c.has_observed_app_hook,
        has_observed_in_client_render: c.has_observed_in_client_render,
        has_observed_review_action: c.has_observed_review_action,
        artifact_failure_count: c.artifact_failures.len() as usize,
        artifact_failures: failures_of(c.artifact_failures),
        coherence_failure_count: c.coherence_failures.len() as usize,
        non_release_evidence_source_count: c.non_release_evidence_sources.len() as usize,
        non_release_proof_levels: source_levels(c.non_release_evidence_sources),
    }
}

fn snapshot(c: &ClientBindingReadinessStatus) -> (r: ClientBindingHardeningClientSnapshot)
    ensures
        r.deep_view() == snapshot_of(c.deep_view()),
{
    assert(c.artifact_failures.deep_view().len() == c.artifact_failures.len());
    assert(c.coherence_failures.deep_view().len() == c.coherence_failures.len());
    assert(c.non_release_evidence_sources.deep_view().len()
        == c.non_release_evidence_sources.len());
    ClientBindingHardeningClientSnapshot {
        client: c.client.clone(),
        readiness: c.readiness.clone(),
        ready_for_private_client_claim: c.ready_for_private_client_claim,
        has_observed_app_hook: c.has_observed_app_hook,
        has_observed_in_client_render: c.has_observed_in_client_render,
        has_observed_review_action: c.has_observed_review_action,
        artifact_failure_count: c.artifact_failures.len(),
        artifact_failures: list_failures(&c.artifact_failures),
        coherence_failure_count: c.coherence_failures.len(),
        non_release_evidence_source_count: c.non_release_evidence_sources.len(),
        non_release_proof_levels: list_source_levels(&c.non_release_evidence_sources),
    }
}

/// How far the proofs of each client go, as the rows for required clients are made from it.
pub fn client_snapshots(clients: &Vec<ClientBindingReadinessStatus>) -> (r: Vec<
    ClientBindingHardeningClientSnapshot,
>)
    ensures
        r.deep_view() == Seq::new(
            clients.deep_view().len(),
            |i: int| snapshot_of(clients.deep_view()[i]),
        ),
{
    let ghost all = clients.deep_view();
    let mut out: Vec<ClientBindingHardeningClientSnapshot> = none();
    let mut i: usize = 0;
    while i < clients.len()
        invariant
            i <= clients.len(),
            all == clients.deep_view(),
            out.deep_view() =~= Seq::new(i as nat, |k: int| snapshot_of(all[k])),
        decreases clients.len() - i,
    {
        assert(all[i as int] == clients[i as int].deep_view());
        out = with(out, snapshot(&clients[i]));
        i = i + 1;
    }
    assert(all.len() == clients.len());
    out
}

pub open spec fn readiness_of(clients: Seq<ClientBindingReadinessStatusView>) -> Seq<Seq<char>> {
    Seq::new(clients.len(), |i: int| clients[i].readiness)
}

fn list_readiness(clients: &Vec<ClientBindingReadinessStatus>) -> (r: Vec<String>)
    ensures
        r.deep_view() == readiness_of(clients.deep_view()),
{
    let ghost all = clients.deep_view();
    let mut out: Vec<String> = none();
    let mut i: usize = 0;
    while i < clients.len()
        invariant
            i <= clients.len(),
            all == clients.deep_view(),
            out.deep_view() =~= Seq::new(i as nat, |k: int| all[k].readiness),
        decreases clients.len() - i,
    {
        assert(all[i as int] == clients[i as int].deep_view());
        out = with(out, clients[i].readiness.clone());
        i = i + 1;
    }
    assert(all.len() == clients.len());
    out
}

// ---------------------------------------------------------------------------
// Required clients
// ---------------------------------------------------------------------------

/// Whether a client is ready, by the first status of its name; none where it has no status.
pub open spec fn standing(
    clients: Seq<ClientBindingReadinessStatusView>,
    name: Seq<char>,
) -> Option<
    bool,
>
    decreases clients.len(),
{
    if clients.len() == 0 {
        None
    } else if clients[0].client == name {
        Some(clients[0].ready_for_private_client_claim)
    } else {
        standing(clients.skip(1), name)
    }
}

fn find_standing(clients: &Vec<ClientBindingReadinessStatus>, name: &str) -> (r: Option<bool>)
    ensures
        r == standing(clients.deep_view(), name@),
{
    let ghost all = clients.deep_view();
    let mut i: usize = 0;
    assert(all.skip(0) =~= all);
    while i < clients.len()
        invariant
            i <= clients.len(),
            all == clients.deep_view(),
            standing(all, name@) == standing(all.skip(i as int), name@),
        decreases clients.len() - i,
    {
        assert(all.skip(i as int)[0] == clients[i as int].deep_view());
        assert(all.skip(i as int).skip(1) =~= all.skip(i + 1));
        if same(clients[i].client.as_str(), name) {
            return Some(clients[i].ready_for_private_client_claim);
        }
        i = i + 1;
    }
    assert(all.len() == clients.len());
    None
}

/// The required clients with this standing, in their order.
pub open spec fn standing_so(
    required: Seq<Seq<char>>,
    clients: Seq<ClientBindingReadinessStatusView>,
    so: Option<bool>,
) -> Seq<Seq<char>>
    decreases required.len(),
{
    if required.len() == 0 {
        nil()
    } else {
        let front = standing_so(required.drop_last(), clients, so);
        if standing(clients, required.last()) == so {
            front.push(required.last())
        } else {
            front
        }
    }
}

/// The required clients that have no proof, and those that are not ready.
fn split_required(required: &Vec<String>, clients: &Vec<ClientBindingReadinessStatus>) -> (r: (
    Vec<String>,
    Vec<String>,
))
    ensures
        r.0.deep_view() == standing_so(required.deep_view(), clients.deep_view(), None),
        r.1.deep_view() == standing_so(required.deep_view(), clients.deep_view(), Some(false)),
        r.0.len() + r.1.len() <= required.len(),
{
    let ghost all = required.deep_view();
    let mut missing: Vec<String> = none();
    let mut unready: Vec<String> = none();
    let mut i: usize = 0;
    assert(all.take(0) =~= nil());
    while i < required.len()
        invariant
            i <= required.len(),
            all == required.deep_view(),
            missing.deep_view() == standing_so(all.take(i as int), clients.deep_view(), None),
            unready.deep_view() == standing_so(
                all.take(i as int),
                clients.deep_view(),
                Some(false),
            ),
            missing.len() + unready.len() <= i,
        decreases required.len() - i,
    {
        assert(all.take(i + 1).drop_last() =~= all.take(i as int));
        assert(all.take(i + 1).last() == required[i as int]@);
        let ghost m = missing.deep_view();
        let ghost u = unready.deep_view();
        assert(m.len() == missing.len() && u.len() == unready.len());
        match find_standing(clients, required[i].as_str()) {
            None => {
                missing = with(missing, required[i].clone());
            },
            Some(ready) => {
                if !ready {
                    unready = with(unready, required[i].clone());
                }
            },
        }
        assert(missing.deep_view().len() == missing.len());
        assert(unready.deep_view().len() == unready.len());
        i = i + 1;
    }
    assert(all.take(i as int) =~= all);
    (missing, unready)
}

/// A status of this name is ready.
pub open spec fn some_ready(
    clients: Seq<ClientBindingReadinessStatusView>,
    name: Option<Seq<char>>,
) -> bool {
    exists|i: int|
        0 <= i < clients.len() && (#[trigger] clients[i]).ready_for_private_client_claim && (name
            is None || name == Some(clients[i].client))
}

fn any_ready(clients: &Vec<ClientBindingReadinessStatus>, name: Option<&str>) -> (r: bool)
    ensures
        r == some_ready(clients.deep_view(), name.deep_view()),
{
    let ghost all = clients.deep_view();
    let mut i: usize = 0;
    while i < clients.len()
        invariant
            i <= clients.len(),
            all == clients.deep_view(),
            forall|k: int|
                0 <= k < i ==> !((#[trigger] all[k]).ready_for_private_client_claim && (
                name is None || name.deep_view() == Some(all[k].client))),
        decreases clients.len() - i,
    {
        assert(all[i as int] == clients[i as int].deep_view());
        let named = match name {
            None => true,
            Some(n) => same(clients[i].client.as_str(), n),
        };
        if clients[i].ready_for_private_client_claim && named {
            assert(all[i as int].ready_for_private_client_claim);
            return true;
        }
        i = i + 1;
    }
    assert(all.len() == clients.len());
    false
}

/// Each required client has a status that is ready.
pub open spec fn all_ready(
    required: Seq<Seq<char>>,
    clients: Seq<ClientBindingReadinessStatusView>,
) -> bool {
    forall|i: int| 0 <= i < required.len() ==> some_ready(clients, Some(#[trigger] required[i]))
}

fn every_ready(required: &Vec<String>, clients: &Vec<ClientBindingReadinessStatus>) -> (r: bool)
    ensures
        r == all_ready(required.deep_view(), clients.deep_view()),
{
    let ghost all = required.deep_view();
    let mut i: usize = 0;
    while i < required.len()
        invariant
            i <= required.len(),
            all == required.deep_view(),
            forall|k: int|
                0 <= k < i ==> some_ready(clients.deep_view(), Some(#[trigger] all[k])),
        decreases required.len() - i,
    {
        assert(all[i as int] == required[i as int]@);
        if !any_ready(clients, Some(required[i].as_str())) {
            assert(!some_ready(clients.deep_view(), Some(all[i as int])));
            return false;
        }
        i = i + 1;
    }
    assert(all.len() == required.len());
    true
}

// ---------------------------------------------------------------------------
// The state of the proofs as a whole
// ---------------------------------------------------------------------------

/// A private claim may be made: one client is ready where none is required, else all that
/// are required.
pub open spec fn claim_ready(
    required: Seq<Seq<char>>,
    missing: Seq<Seq<char>>,
    unready: Seq<Seq<char>>,
    clients: Seq<ClientBindingReadinessStatusView>,
) -> bool {
    if required.len() == 0 {
        some_ready(clients, None)
    } else {
        missing.len() == 0 && unready.len() == 0 && all_ready(required, clients)
    }
}

/// The clients whose proofs are to go on.
pub open spec fn targets_of(
    client: Option<Seq<char>>,
    required: Seq<Seq<char>>,
    missing: Seq<Seq<char>>,
    unready: Seq<Seq<char>>,
    clients: Seq<ClientBindingReadinessStatusView>,
    ready: bool,
) -> Seq<Seq<char>> {
    let open = missing + unready;
    let named = if open.len() == 0 && !ready {
        match client {
            Some(c) => nil().push(c),
            None => if clients.len() > 0 {
                nil().push(clients[0].client)
            } else {
                nil()
            },
        }
    } else {
        open
    };
    if named.len() == 0 && required.len() > 0 {
        required
    } else {
        named
    }
}

/// Where the proofs stand. A proof whose evidence changed, or that does not agree with the
/// others, blocks before anything else.
pub open spec fn summary_of(
    client: Option<Seq<char>>,
    required: Seq<Seq<char>>,
    missing: Seq<Seq<char>>,
    unready: Seq<Seq<char>>,
    clients: Seq<ClientBindingReadinessStatusView>,
    artifacts: usize,
    coherence: usize,
) -> ProofSessionSummaryView {
    let ready = claim_ready(required, missing, unready, clients);
    let target_clients = targets_of(client, required, missing, unready, clients, ready);
    if ready {
        ProofSessionSummaryView {
            status: "ready_for_private_client_claim"@,
            release_gate: "pass"@,
            next_step_id: None,
            target_clients,
        }
    } else if artifacts > 0 || coherence > 0 {
        ProofSessionSummaryView {
            status: "blocked_by_stored_proof_integrity_or_identity"@,
            release_gate: "fail"@,
            next_step_id: Some("verify_evidence_artifacts_and_status"@),
            target_clients,
        }
    } else {
        ProofSessionSummaryView {
            status: "requires_client_binding_proof_session"@,
            release_gate: "fail"@,
            next_step_id: Some("render_client_binding_proof_session"@),
            target_clients,
        }
    }
}

pub fn client_binding_hardening_proof_session_summary(
    client: Option<&str>,
    required: &Vec<String>,
    missing: &Vec<String>,
    unready: &Vec<String>,
    clients: &Vec<ClientBindingReadinessStatus>,
    artifacts: usize,
    coherence: usize,
) -> (r: ProofSessionSummary)
    ensures
        r.deep_view() == summary_of(
            client.deep_view(),
            required.deep_view(),
            missing.deep_view(),
            unready.deep_view(),
            clients.deep_view(),
            artifacts,
            coherence,
        ),
{
    assert(required.deep_view().len() == required.len());
    assert(missing.deep_view().len() == missing.len());
    assert(unready.deep_view().len() == unready.len());
    assert(clients.deep_view().len() == clients.len());
    let ready = if required.len() == 0 {
        any_ready(clients, None)
    } else {
        missing.len() == 0 && unready.len() == 0 && every_ready(required, clients)
    };
    let open = Words::starting(copied(missing)).more(unready).done();
    assert(open.deep_view().len() == open.len());
    let named = if open.len() == 0 && !ready {
        match client {
            Some(c) => Words::new().w(c).done(),
            None => if clients.len() > 0 {
                Words::new().w(clients[0].client.as_str()).done()
            } else {
                none()
            },
        }
    } else {
        open
    };
    assert(named.deep_view().len() == named.len());
    let target_clients = if named.len() == 0 && required.len() > 0 {
        copied(required)
    } else {
        named
    };
    if ready {
        ProofSessionSummary {
            status: "ready_for_private_client_claim".to_string(),
            release_gate: "pass".to_string(),
            next_step_id: None,
            target_clients,
        }
    } else if artifacts > 0 || coherence > 0 {
        ProofSessionSummary {
            status: "blocked_by_stored_proof_integrity_or_identity".to_string(),
            release_gate: "fail".to_string(),
            next_step_id: Some("verify_evidence_artifacts_and_status".to_string()),
            target_clients,
        }
    } else {
        ProofSessionSummary {
            status: "requires_client_binding_proof_session".to_string(),
            release_gate: "fail".to_string(),
            next_step_id: Some("render_client_binding_proof_session".to_string()),
            target_clients,
        }
    }
}

// ---------------------------------------------------------------------------
// Probes
// ---------------------------------------------------------------------------

/// The flags of a proof session that only looks.
pub open spec fn probe_flags(
    client: Seq<char>,
    config_root: Seq<char>,
    limit: usize,
) -> AdapterBindingProofArgsView {
    AdapterBindingProofArgsView {
        manifest: None,
        client: Some(client),
        proof_level: "observed_event_file"@,
        evidence_source: "hardening_report_proof_session_probe"@,
        event_jsonl: None,
        installed_config: None,
        drain_report: None,
        review_render_report: None,
        render_evidence: None,
        review_action_report: None,
        binding_nonce: None,
        config_root: Some(config_root),
        artifact_dir: None,
        write_installed_config: None,
        write_render_evidence: None,
        limit,
        proof_id: None,
        list: false,
        status: false,
        verify_evidence_artifacts: false,
        discover_installed_config: false,
        real_app_proof_kit: false,
        prepare_installed_config: false,
        require_private_target_config_for_app_hook: false,
        operator_confirm_real_app_invocation: false,
        operator_confirm_in_client_render: false,
        operator_confirm_review_action: false,
        operator_confirm_release_grade_evidence: false,
    }
}

pub fn client_binding_hardening_probe_proof_session(
    client: &str,
    config_root: &str,
    limit: usize,
) -> (r: AdapterBindingProofArgs)
    ensures
        r.deep_view() == probe_flags(client@, config_root@, limit),
{
    AdapterBindingProofArgs {
        manifest: None,
        client: Some(client.to_string()),
        proof_level: "observed_event_file".to_string(),
        evidence_source: "hardening_report_proof_session_probe".to_string(),
        event_jsonl: None,
        installed_config: None,
        drain_report: None,
        review_render_report: None,
        render_evidence: None,
        review_action_report: None,
        binding_nonce: None,
        config_root: Some(config_root.to_string()),
        artifact_dir: None,
        write_installed_config: None,
        write_render_evidence: None,
        limit,
        proof_id: None,
        list: false,
        status: false,
        verify_evidence_artifacts: false,
        discover_installed_config: false,
        real_app_proof_kit: false,
        prepare_installed_config: false,
        require_private_target_config_for_app_hook: false,
        operator_confirm_real_app_invocation: false,
        operator_confirm_in_client_render: false,
        operator_confirm_review_action: false,
        operator_confirm_release_grade_evidence: false,
    }
}

/// A proof session could not be looked at.
pub fn probe_failed(error: &AdapterBindingProofError) -> (r: ContextError)
    ensures
        r.deep_view() == ContextFault::BadFormat(
            "client binding proof-session probe: "@ + fault_text(error.deep_view()),
        ),
{
    ContextError::BadFormat(
        cat2("client binding proof-session probe: ", error.message().as_str()),
    )
}

/// What a proof session says is to be done next.
pub open spec fn probe_of(session: ClientBindingProofSessionView) -> ProofSessionProbeView {
    ProofSessionProbeView {
        next_step_id: session.next_step_id,
        next_command: session.next_command,
        mcp_tool: match session.next_mcp_call {
            Some(c) => Some(c.tool),
            None => None,
        },
        mcp_arguments: match session.next_mcp_call {
            Some(c) => Some(c.arguments),
            None => None,
        },
        mcp_trust_boundary: match session.next_mcp_call {
            Some(c) => Some(c.trust_boundary),
            None => None,
        },
    }
}

/// The arguments of a call, with the place of the installed configs.
pub open spec fn rooted(arguments: JsonView, config_root: Seq<char>) -> JsonView {
    match arguments {
        JsonView::Object(m) => JsonView::Object(
            member_set(m, "config_root"@, JsonView::Text(config_root)),
        ),
        v => v,
    }
}

/// The row of a required client after its proof session was looked at.
pub open spec fn probed(
    row: RequiredClientProofRowView,
    session: ClientBindingProofSessionView,
    soma_bin: Seq<char>,
    config_root: Seq<char>,
    hint: JsonView,
) -> RequiredClientProofRowView {
    RequiredClientProofRowView {
        client: row.client,
        proof_session_required: row.proof_session_required,
        proof_session_cli: soma_bin + " adapter-binding-proof --client "@ + row.client
            + " --proof-session --config-root "@ + config_root,
        proof_session_mcp_arguments: rooted(row.proof_session_mcp_arguments, config_root),
        config_root_probe_hint: Some(hint),
        probe: Some(probe_of(session)),
        render_evidence_artifact_path: evidence_path_in(session.runbook.steps),
        details: row.details,
    }
}

fn take_probe(session: &ClientBindingProofSession) -> (r: ProofSessionProbe)
    ensures
        r.deep_view() == probe_of(session.deep_view()),
{
    let (tool, arguments, boundary) = match &session.next_mcp_call {
        Some(c) => (
            Some(c.tool.clone()),
            Some(c.arguments.dup()),
            Some(c.trust_boundary.clone()),
        ),
        None => (None, None, None),
    };
    ProofSessionProbe {
        next_step_id: copy_text(&session.next_step_id),
        next_command: session.next_command.dup(),
        mcp_tool: tool,
        mcp_arguments: arguments,
        mcp_trust_boundary: boundary,
    }
}

fn root_arguments(arguments: Json, config_root: &str) -> (r: Json)
    ensures
        r@ == rooted(arguments@, config_root@),
{
    match arguments {
        Json::Object(m) => {
            assert(arguments@->Object_0 =~= members_view(m@));
            let root = Json::Text(config_root.to_string());
            assert(root@ == JsonView::Text(config_root@));
            object_of(set_member(m, "config_root", root))
        },
        v => v,
    }
}

/// Puts what a proof session says into the row of a required client.
pub fn probe_row(
    row: RequiredClientProofRow,
    session: &ClientBindingProofSession,
    soma_bin: &str,
    config_root: &str,
    hint: Json,
) -> (r: RequiredClientProofRow)
    ensures
        r.deep_view() == probed(
            row.deep_view(),
            session.deep_view(),
            soma_bin@,
            config_root@,
            hint@,
        ),
{
    let proof_session_cli = Phrase::new(soma_bin).t(" adapter-binding-proof --client ").t(
        row.client.as_str(),
    ).t(" --proof-session --config-root ").t(config_root).done();
    RequiredClientProofRow {
        client: row.client,
        proof_session_required: row.proof_session_required,
        proof_session_cli,
        proof_session_mcp_arguments: root_arguments(row.proof_session_mcp_arguments, config_root),
        config_root_probe_hint: Some(hint),
        probe: Some(take_probe(session)),
        render_evidence_artifact_path: proof_session_render_evidence_artifact_path(session),
        details: row.details,
    }
}

/// The rows of the required clients while their proof sessions are looked at: those before
/// `at` are done, and `first` is the first session that was looked at.
#[derive(Debug)]
pub struct ProbeWalk {
    pub rows: Vec<RequiredClientProofRow>,
    pub at: usize,
    pub first: Option<ClientBindingProofSession>,
}

/// What a `ProbeWalk` holds.
#[verifier::ext_equal]
pub struct ProbeWalkView {
    pub rows: Seq<RequiredClientProofRowView>,
    pub at: int,
    pub first: Option<ClientBindingProofSessionView>,
}

impl DeepView for ProbeWalk {
    type V = ProbeWalkView;

    open spec fn deep_view(&self) -> ProbeWalkView {
        ProbeWalkView {
            rows: self.rows.deep_view(),
            at: self.at as int,
            first: self.first.deep_view(),
        }
    }
}

/// The rows of the required clients once their proof sessions were looked at, and the first
/// of those sessions.
#[derive(Debug)]
pub struct ProbedClients {
    pub rows: Vec<RequiredClientProofRow>,
    pub first: Option<ClientBindingProofSession>,
}

/// What a `ProbedClients` holds.
#[verifier::ext_equal]
pub struct ProbedClientsView {
    pub rows: Seq<RequiredClientProofRowView>,
    pub first: Option<ClientBindingProofSessionView>,
}

impl DeepView for ProbedClients {
    type V = ProbedClientsView;

    open spec fn deep_view(&self) -> ProbedClientsView {
        ProbedClientsView { rows: self.rows.deep_view(), first: self.first.deep_view() }
    }
}

/// How it goes on: a proof session is to be looked at, with these flags, or all were, or one
/// could not be.
#[derive(Debug)]
pub enum ProbeStep {
    Probe(ProbeWalk, AdapterBindingProofArgs),
    Done(ProbedClients),
    Failed(ContextError),
}

/// What a `ProbeStep` holds.
pub enum ProbeStepView {
    Probe(ProbeWalkView, AdapterBindingProofArgsView),
    Done(ProbedClientsView),
    Failed(ContextFault),
}

impl DeepView for ProbeStep {
    type V = ProbeStepView;

    open spec fn deep_view(&self) -> ProbeStepView {
        match self {
            ProbeStep::Probe(w, a) => ProbeStepView::Probe(w.deep_view(), a.deep_view()),
            ProbeStep::Done(p) => ProbeStepView::Done(p.deep_view()),
            ProbeStep::Failed(e) => ProbeStepView::Failed(e.deep_view()),
        }
    }
}

/// The first row from `at` on that asks for a proof session, or the end.
pub open spec fn next_required(rows: Seq<RequiredClientProofRowView>, at: int) -> int
    decreases rows.len() - at,
{
    if at < 0 || at >= rows.len() || rows[at].proof_session_required {
        at
    } else {
        next_required(rows, at + 1)
    }
}

/// The walk at the next row that asks for a proof session, or at its end.
pub open spec fn probe_on(
    w: ProbeWalkView,
    config_root: Seq<char>,
    limit: usize,
) -> ProbeStepView {
    let k = next_required(w.rows, w.at);
    if k < w.rows.len() {
        ProbeStepView::Probe(
            ProbeWalkView { at: k, ..w },
            probe_flags(w.rows[k].client, config_root, limit),
        )
    } else {
        ProbeStepView::Done(ProbedClientsView { rows: w.rows, first: w.first })
    }
}

fn walk_on(walk: ProbeWalk, config_root: &str, limit: usize) -> (r: ProbeStep)
    requires
        walk.at <= walk.rows.len(),
    ensures
        r.deep_view() == probe_on(walk.deep_view(), config_root@, limit),
        r matches ProbeStep::Probe(w, _) ==> w.at < w.rows.len(),
{
    let ghost all = walk.rows.deep_view();
    assert(all.len() == walk.rows.len());
    let mut k: usize = walk.at;
    while k < walk.rows.len() && !walk.rows[k].proof_session_required
        invariant
            walk.at <= k <= walk.rows.len(),
            all == walk.rows.deep_view(),
            all.len() == walk.rows.len(),
            next_required(all, walk.at as int) == next_required(all, k as int),
        decreases walk.rows.len() - k,
    {
        assert(all[k as int] == walk.rows[k as int].deep_view());
        k = k + 1;
    }
    if k < walk.rows.len() {
        assert(all[k as int] == walk.rows[k as int].deep_view());
        let flags = client_binding_hardening_probe_proof_session(
            walk.rows[k].client.as_str(),
            config_root,
            limit,
        );
        ProbeStep::Probe(ProbeWalk { rows: walk.rows, at: k, first: walk.first }, flags)
    } else {
        ProbeStep::Done(ProbedClients { rows: walk.rows, first: walk.first })
    }
}

/// How looking at the proof sessions begins: only where the place of the installed configs
/// is known.
pub open spec fn probe_begun(
    rows: Seq<RequiredClientProofRowView>,
    config_root: Option<Seq<char>>,
    limit: usize,
) -> ProbeStepView {
    match trimmed_nonblank(config_root) {
        Some(root) => probe_on(ProbeWalkView { rows, at: 0, first: None }, root, limit),
        None => ProbeStepView::Done(ProbedClientsView { rows, first: None }),
    }
}

/// Begins to look at the proof sessions of the required clients.
pub fn begin_probes(
    rows: Vec<RequiredClientProofRow>,
    config_root: Option<&str>,
    limit: usize,
) -> (r: ProbeStep)
    ensures
        r.deep_view() == probe_begun(rows.deep_view(), config_root.deep_view(), limit),
        r matches ProbeStep::Probe(w, _) ==> w.at < w.rows.len(),
{
    match trim_nonblank(config_root) {
        Some(root) => walk_on(ProbeWalk { rows, at: 0, first: None }, root, limit),
        None => ProbeStep::Done(ProbedClients { rows, first: None }),
    }
}

/// How it goes on once a proof session was looked at: its row says so, the first session is
/// kept, and a session that could not be looked at ends it.
pub open spec fn probe_after(
    w: ProbeWalkView,
    looked: Result<ClientBindingProofSessionView, BindingFault>,
    soma_bin: Seq<char>,
    config_root: Seq<char>,
    hint: JsonView,
    limit: usize,
) -> ProbeStepView {
    match looked {
        Err(f) => ProbeStepView::Failed(
            ContextFault::BadFormat("client binding proof-session probe: "@ + fault_text(f)),
        ),
        Ok(session) => probe_on(
            ProbeWalkView {
                rows: w.rows.update(
                    w.at,
                    probed(w.rows[w.at], session, soma_bin, config_root, hint),
                ),
                at: w.at + 1,
                first: match w.first {
                    Some(s) => Some(s),
                    None => Some(session),
                },
            },
            config_root,
            limit,
        ),
    }
}

/// Takes in the proof session of the row that the walk stands at, or why it could not be
/// looked at. `hint` says how it was looked at.
pub fn probe_step(
    walk: ProbeWalk,
    looked: Result<ClientBindingProofSession, AdapterBindingProofError>,
    soma_bin: &str,
    config_root: &str,
    hint: Json,
    limit: usize,
) -> (r: ProbeStep)
    requires
        walk.at < walk.rows.len(),
    ensures
        r.deep_view() == probe_after(
            walk.deep_view(),
            outcome(looked),
            soma_bin@,
            config_root@,
            hint@,
            limit,
        ),
        r matches ProbeStep::Probe(w, _) ==> w.at < w.rows.len(),
{
    let session = match looked {
        Err(e) => return ProbeStep::Failed(probe_failed(&e)),
        Ok(s) => s,
    };
    let ghost all = walk.rows.deep_view();
    let ghost at = walk.at as int;
    let k: usize = walk.at;
    let mut rows = walk.rows;
    assert(all[at] == rows[at].deep_view());
    let row = rows.remove(k);
    let done = probe_row(row, &session, soma_bin, config_root, hint);
    let ghost told = done.deep_view();
    rows.insert(k, done);
    assert(rows.deep_view() =~= all.update(at, told));
    let first = match walk.first {
        Some(s) => Some(s),
        None => Some(session),
    };
    walk_on(ProbeWalk { rows, at: k + 1, first }, config_root, limit)
}

// ---------------------------------------------------------------------------
// The audit
// ---------------------------------------------------------------------------

/// A row asks for a proof session.
pub open spec fn some_required(rows: Seq<RequiredClientProofRowView>) -> bool {
    exists|i: int| 0 <= i < rows.len() && (#[trigger] rows[i]).proof_session_required
}

fn any_required(rows: &Vec<RequiredClientProofRow>) -> (r: bool)
    ensures
        r == some_required(rows.deep_view()),
{
    let ghost all = rows.deep_view();
    let mut i: usize = 0;
    while i < rows.len()
        invariant
            i <= rows.len(),
            all == rows.deep_view(),
            forall|k: int| 0 <= k < i ==> !(#[trigger] all[k]).proof_session_required,
        decreases rows.len() - i,
    {
        assert(all[i as int] == rows[i as int].deep_view());
        if rows[i].proof_session_required {
            assert(all[i as int].proof_session_required);
            return true;
        }
        i = i + 1;
    }
    assert(all.len() == rows.len());
    false
}

/// Where the proofs stand: as the first proof session that was looked at says, else as the
/// stored proofs say.
pub open spec fn summary_after(
    summary: ProofSessionSummaryView,
    first: Option<ClientBindingProofSessionView>,
) -> ProofSessionSummaryView {
    match first {
        Some(s) => ProofSessionSummaryView {
            status: s.status,
            release_gate: s.release_gate,
            next_step_id: s.next_step_id,
            target_clients: summary.target_clients,
        },
        None => summary,
    }
}

pub const SESSION_SOURCE: &'static str = "soma_client_binding_proof_session";

pub const RUNBOOK_SCHEMA: &'static str = "soma.client_binding_proof_session_runbook.v1";

/// The audit of the client bindings.
pub open spec fn audit_of(
    query: ClientBindingAuditQueryView,
    required: Seq<Seq<char>>,
    status: AdapterBindingProofStatusOutcomeView,
    rows: Seq<RequiredClientProofRowView>,
    first: Option<ClientBindingProofSessionView>,
    hint: JsonView,
) -> ClientBindingHardeningAuditView {
    let clients = status.clients;
    let missing = standing_so(required, clients, None);
    let unready = standing_so(required, clients, Some(false));
    let artifacts = capped(artifact_failures(clients));
    let coherence = capped(coherence_failures(clients));
    let summary = summary_after(
        summary_of(query.client, required, missing, unready, clients, artifacts, coherence),
        first,
    );
    ClientBindingHardeningAuditView {
        client: query.client,
        required_clients: required,
        required_client_proof_matrix: rows,
        proof_session_source: SESSION_SOURCE@,
        proof_session_runbook_source: SESSION_SOURCE@,
        proof_session_runbook_schema: RUNBOOK_SCHEMA@,
        proof_session_runbook_required: summary.release_gate != "pass"@,
        proof_session_runbook_next_step_id: summary.next_step_id,
        proof_session_status: summary.status,
        proof_session_release_gate: summary.release_gate,
        proof_session_next_step_id: summary.next_step_id,
        proof_session_target_clients: summary.target_clients,
        proof_session_config_root_probe_hint: if some_required(rows) {
            Some(hint)
        } else {
            None
        },
        required_client_count: required.len() as usize,
        required_ready_client_count: (required.len() - missing.len() - unready.len()) as usize,
        missing_required_clients: missing,
        unready_required_clients: unready,
        proof_limit: query.limit,
        proofs_found: status.proofs_found,
        client_count: status.client_count,
        ready_client_count: ready_clients(clients) as usize,
        all_latest_artifacts_verified: status.all_latest_artifacts_verified,
        artifact_failure_count: artifacts,
        coherence_failure_count: coherence,
        non_release_evidence_source_count: capped(non_release_sources(clients)),
        non_release_proof_levels: ordered_set(all_source_levels(clients)),
        primary_readiness: if clients.len() > 0 {
            Some(clients[0].readiness)
        } else {
            None
        },
        primary_coherence_failures: if clients.len() > 0 {
            clients[0].coherence_failures
        } else {
            nil()
        },
        primary_non_release_evidence_sources: if clients.len() > 0 {
            source_texts(clients[0].non_release_evidence_sources)
        } else {
            nil()
        },
        readiness_values: readiness_of(clients),
    }
}

fn primary_of(clients: &Vec<ClientBindingReadinessStatus>) -> (r: (
    Option<String>,
    Vec<String>,
    Vec<String>,
))
    ensures
        r.0.deep_view() == (if clients.deep_view().len() > 0 {
            Some(clients.deep_view()[0].readiness)
        } else {
            None
        }),
        r.1.deep_view() == (if clients.deep_view().len() > 0 {
            clients.deep_view()[0].coherence_failures
        } else {
            nil()
        }),
        r.2.deep_view() == (if clients.deep_view().len() > 0 {
            source_texts(clients.deep_view()[0].non_release_evidence_sources)
        } else {
            nil()
        }),
{
    assert(clients.deep_view().len() == clients.len());
    if clients.len() > 0 {
        let c = &clients[0];
        assert(clients.deep_view()[0] == c.deep_view());
        (
            Some(c.readiness.clone()),
            copied(&c.coherence_failures),
            list_source_texts(&c.non_release_evidence_sources),
        )
    } else {
        (None, none(), none())
    }
}

fn summary_now(summary: ProofSessionSummary, first: Option<&ClientBindingProofSession>) -> (r:
    ProofSessionSummary)
    ensures
        r.deep_view() == summary_after(summary.deep_view(), first.deep_view()),
{
    match first {
        Some(s) => ProofSessionSummary {
            status: s.status.clone(),
            release_gate: s.release_gate.clone(),
            next_step_id: copy_text(&s.next_step_id),
            target_clients: summary.target_clients,
        },
        None => summary,
    }
}

/// The audit of the client bindings. `status` is what the stored proofs say, `looked_at` are
/// the required clients after `begin_probes` and `probe_step` came to their end, and `hint`
/// says how proof sessions are looked at.
pub fn client_binding_hardening_audit(
    query: &ClientBindingAuditQuery,
    required: &Vec<String>,
    status: &AdapterBindingProofStatusOutcome,
    looked_at: ProbedClients,
    hint: Json,
) -> (r: ClientBindingHardeningAudit)
    ensures
        r.deep_view() == audit_of(
            query.deep_view(),
            required.deep_view(),
            status.deep_view(),
            looked_at.deep_view().rows,
            looked_at.deep_view().first,
            hint@,
        ),
{
    let rows = looked_at.rows;
    let first = looked_at.first;
    let (artifacts, coherence, sources, ready) = count_all(&status.clients);
    let (missing, unready) = split_required(required, &status.clients);
    assert(required.deep_view().len() == required.len());
    assert(missing.deep_view().len() == missing.len());
    assert(unready.deep_view().len() == unready.len());
    let summary = summary_now(
        client_binding_hardening_proof_session_summary(
            borrowed(&query.client),
            required,
            &missing,
            &unready,
            &status.clients,
            artifacts,
            coherence,
        ),
        first.as_ref(),
    );
    let levels = sorted(&list_all_source_levels(&status.clients));
    let (primary_readiness, primary_coherence, primary_sources) = primary_of(&status.clients);
    let probe_hint = if any_required(&rows) {
        Some(hint)
    } else {
        None
    };
    let required_ready: usize = required.len() - missing.len() - unready.len();
    ClientBindingHardeningAudit {
        client: copy_text(&query.client),
        required_clients: copied(required),
        required_client_proof_matrix: rows,
        proof_session_source: SESSION_SOURCE.to_string(),
        proof_session_runbook_source: SESSION_SOURCE.to_string(),
        proof_session_runbook_schema: RUNBOOK_SCHEMA.to_string(),
        proof_session_runbook_required: !same(summary.release_gate.as_str(), "pass"),
        proof_session_runbook_next_step_id: copy_text(&summary.next_step_id),
        proof_session_status: summary.status,
        proof_session_release_gate: summary.release_gate,
        proof_session_next_step_id: summary.next_step_id,
        proof_session_target_clients: summary.target_clients,
        proof_session_config_root_probe_hint: probe_hint,
        required_client_count: required.len(),
        required_ready_client_count: required_ready,
        missing_required_clients: missing,
        unready_required_clients: unready,
        proof_limit: query.limit,
        proofs_found: status.proofs_found,
        client_count: status.client_count,
        ready_client_count: ready,
        all_latest_artifacts_verified: status.all_latest_artifacts_verified,
        artifact_failure_count: artifacts,
        coherence_failure_count: coherence,
        non_release_evidence_source_count: sources,
        non_release_proof_levels: levels,
        primary_readiness,
        primary_coherence_failures: primary_coherence,
        primary_non_release_evidence_sources: primary_sources,
        readiness_values: list_readiness(&status.clients),
    }
}

// ---------------------------------------------------------------------------
// The report
// ---------------------------------------------------------------------------

/// A command with a flag and its trimmed value, where that is not blank.
pub open spec fn flagged(command: Seq<Seq<char>>, flag: Seq<char>, value: Option<Seq<char>>) -> Seq<
    Seq<char>,
> {
    match trimmed_nonblank(value) {
        Some(v) => command.push(flag).push(v),
        None => command,
    }
}

pub fn append_optional_flag_value(command: Vec<String>, flag: &str, value: Option<&str>) -> (r: Vec<
    String,
>)
    ensures
        r.deep_view() == flagged(command.deep_view(), flag@, value.deep_view()),
{
    match trim_nonblank(value) {
        Some(v) => Words::starting(command).w(flag).w(v).done(),
        None => command,
    }
}

/// A command with one flag for each value.
pub open spec fn flagged_each(
    command: Seq<Seq<char>>,
    flag: Seq<char>,
    values: Seq<Seq<char>>,
) -> Seq<
    Seq<char>,
>
    decreases values.len(),
{
    if values.len() == 0 {
        command
    } else {
        flagged(flagged_each(command, flag, values.drop_last()), flag, Some(values.last()))
    }
}

fn append_each(command: Vec<String>, flag: &str, values: &Vec<String>) -> (r: Vec<String>)
    ensures
        r.deep_view() == flagged_each(command.deep_view(), flag@, values.deep_view()),
{
    let ghost start = command.deep_view();
    let ghost all = values.deep_view();
    let mut out = command;
    let mut i: usize = 0;
    assert(all.take(0) =~= nil());
    while i < values.len()
        invariant
            i <= values.len(),
            all == values.deep_view(),
            out.deep_view() == flagged_each(start, flag@, all.take(i as int)),
        decreases values.len() - i,
    {
        assert(all.take(i + 1).drop_last() =~= all.take(i as int));
        assert(all.take(i + 1).last() == values[i as int]@);
        out = append_optional_flag_value(out, flag, Some(values[i].as_str()));
        i = i + 1;
    }
    assert(all.take(i as int) =~= all);
    out
}

/// A command with more words, where `wanted` holds.
pub open spec fn worded(command: Seq<Seq<char>>, wanted: bool, flag: Seq<char>) -> Seq<Seq<char>> {
    if wanted {
        command.push(flag)
    } else {
        command
    }
}

fn append_word(command: Vec<String>, wanted: bool, flag: &str) -> (r: Vec<String>)
    ensures
        r.deep_view() == worded(command.deep_view(), wanted, flag@),
{
    if wanted {
        Words::starting(command).w(flag).done()
    } else {
        command
    }
}

/// A command with a flag and a number, where `wanted` holds.
pub open spec fn numbered(
    command: Seq<Seq<char>>,
    wanted: bool,
    flag: Seq<char>,
    value: Seq<char>,
) -> Seq<Seq<char>> {
    if wanted {
        command.push(flag).push(value)
    } else {
        command
    }
}

fn append_number(command: Vec<String>, wanted: bool, flag: &str, value: String) -> (r: Vec<String>)
    ensures
        r.deep_view() == numbered(command.deep_view(), wanted, flag@, value@),
{
    if wanted {
        Words::starting(command).w(flag).w(value.as_str()).done()
    } else {
        command
    }
}

/// The number of a frame as text; empty where there is none.
pub open spec fn frame_text(id: Option<i64>) -> Seq<char> {
    match id {
        Some(id) => decimal_int(id as int),
        None => ""@,
    }
}

fn frame_number(id: Option<i64>) -> (r: String)
    ensures
        r@ == frame_text(id),
{
    match id {
        Some(id) => int_text(id),
        None => "".to_string(),
    }
}

/// The flags of the report that are not what they are by default.
pub open spec fn flags_said(
    args: ContextHardeningReportArgsView,
    start: Seq<Seq<char>>,
    default_days: i64,
) -> Seq<Seq<char>> {
    let a = flagged(start, "--query"@, args.envelope.query);
    let b = flagged(a, "--session-id"@, args.envelope.session_id);
    let c = flagged(b, "--client"@, args.client);
    let d = flagged_each(c, "--required-client"@, args.required_clients);
    let e = flagged(d, "--client-binding-config-root"@, args.client_binding_config_root);
    let f = numbered(
        e,
        args.envelope.task_frame_id is Some,
        "--task-frame-id"@,
        frame_text(args.envelope.task_frame_id),
    );
    let g = numbered(
        f,
        args.trust_limit != 1000,
        "--trust-limit"@,
        decimal(args.trust_limit as nat),
    );
    let h = numbered(
        g,
        args.review_limit != 1000,
        "--review-limit"@,
        decimal(args.review_limit as nat),
    );
    let i = numbered(
        h,
        args.client_proof_limit != 20,
        "--client-proof-limit"@,
        decimal(args.client_proof_limit as nat),
    );
    let j = worded(i, args.require_client_binding_ready, "--require-client-binding-ready"@);
    let k = worded(j, args.require_review_queue_clear, "--require-review-queue-clear"@);
    let l = worded(
        k,
        args.require_task_frame_retention_clean,
        "--require-task-frame-retention-clean"@,
    );
    let m = worded(l, args.require_task_frame_projection, "--require-task-frame-projection"@);
    let n = numbered(
        m,
        args.task_frame_retention_days != default_days,
        "--task-frame-retention-days"@,
        decimal_int(args.task_frame_retention_days as int),
    );
    let o = worded(n, args.skip_client_binding, "--skip-client-binding"@);
    worded(o, args.json, "--json"@)
}

/// The command that gives the same report for the current project: none where there is no
/// current project.
pub open spec fn override_command(
    args: ContextHardeningReportArgsView,
    current: Option<Seq<char>>,
    default_days: i64,
) -> Seq<Seq<char>> {
    match trimmed_nonblank(current) {
        None => nil(),
        Some(project) => flags_said(
            args,
            nil().push("soma"@).push("context"@).push("hardening-report"@).push(
                "--project"@,
            ).push(project),
            default_days,
        ),
    }
}

pub fn hardening_report_scope_override_command(
    args: &ContextHardeningReportArgs,
    current: Option<&str>,
    default_days: i64,
) -> (r: Vec<String>)
    ensures
        r.deep_view() == override_command(args.deep_view(), current.deep_view(), default_days),
{
    let project = match trim_nonblank(current) {
        None => return none(),
        Some(p) => p,
    };
    let env = &args.envelope;
    let out = Words::new().w("soma").w("context").w("hardening-report").w("--project").w(
        project,
    ).done();
    let out = append_optional_flag_value(out, "--query", borrowed(&env.query));
    let out = append_optional_flag_value(out, "--session-id", borrowed(&env.session_id));
    let out = append_optional_flag_value(out, "--client", borrowed(&args.client));
    let out = append_each(out, "--required-client", &args.required_clients);
    let out = append_optional_flag_value(
        out,
        "--client-binding-config-root",
        borrowed(&args.client_binding_config_root),
    );
    let out = append_number(
        out,
        env.task_frame_id.is_some(),
        "--task-frame-id",
        frame_number(env.task_frame_id),
    );
    let out = append_number(
        out,
        args.trust_limit != 1000,
        "--trust-limit",
        decimal_text(args.trust_limit as u64),
    );
    let out = append_number(
        out,
        args.review_limit != 1000,
        "--review-limit",
        decimal_text(args.review_limit as u64),
    );
    let out = append_number(
        out,
        args.client_proof_limit != 20,
        "--client-proof-limit",
        decimal_text(args.client_proof_limit as u64),
    );
    let out = append_word(
        out,
        args.require_client_binding_ready,
        "--require-client-binding-ready",
    );
    let out = append_word(out, args.require_review_queue_clear, "--require-review-queue-clear");
    let out = append_word(
        out,
        args.require_task_frame_retention_clean,
        "--require-task-frame-retention-clean",
    );
    let out = append_word(
        out,
        args.require_task_frame_projection,
        "--require-task-frame-projection",
    );
    let out = append_number(
        out,
        args.task_frame_retention_days != default_days,
        "--task-frame-retention-days",
        int_text(args.task_frame_retention_days),
    );
    let out = append_word(out, args.skip_client_binding, "--skip-client-binding");
    append_word(out, args.json, "--json")
}

/// What a report looks at. The project and the session are those of the envelope; the
/// client bindings are looked at unless that is to be skipped, and must be ready where that
/// is demanded or a client is required.
pub open spec fn hardening_plan(
    args: ContextHardeningReportArgsView,
    project: Option<Seq<char>>,
    session_id: Option<Seq<char>>,
    required: Seq<Seq<char>>,
    current: Option<Seq<char>>,
    default_days: i64,
) -> HardeningPlanView {
    HardeningPlanView {
        project,
        session_id,
        trust_limit: args.trust_limit,
        review_limit: args.review_limit,
        client: args.client,
        task_frame_retention_days: args.task_frame_retention_days,
        query: args.envelope.query,
        task_frame_id: args.envelope.task_frame_id,
        required_clients: required,
        client_binding: if args.skip_client_binding {
            None
        } else {
            Some(audit_query(args.client, required, args.client_proof_limit))
        },
        requirements: ProductHardeningRequirementsView {
            client_binding_ready: args.require_client_binding_ready || required.len() > 0,
            review_queue_clear: args.require_review_queue_clear,
            task_frame_retention_clean: args.require_task_frame_retention_clean,
            task_frame_projection: args.require_task_frame_projection,
        },
        override_command: override_command(args, current, default_days),
    }
}

/// What a hardening report looks at, where its flags are valid. `project` and `session_id`
/// are those of the envelope, `required` the clients that must be proven, `current` is the
/// current project.
pub fn run_hardening_report(
    args: &ContextHardeningReportArgs,
    project: Option<&str>,
    session_id: Option<&str>,
    required: &Vec<String>,
    current: Option<&str>,
    default_days: i64,
) -> (r: Result<HardeningPlan, ContextError>)
    ensures
        outcome(r) == match hardenable(args.deep_view()) {
            Err(f) => Err(f),
            Ok(_) => Ok(
                hardening_plan(
                    args.deep_view(),
                    project.deep_view(),
                    session_id.deep_view(),
                    required.deep_view(),
                    current.deep_view(),
                    default_days,
                ),
            ),
        },
{
    match check_hardening(args) {
        Err(e) => return Err(e),
        Ok(_) => {},
    }
    assert(required.deep_view().len() == required.len());
    let client_binding = if args.skip_client_binding {
        None
    } else {
        Some(
            begin_client_binding_audit(borrowed(&args.client), required, args.client_proof_limit),
        )
    };
    Ok(
        HardeningPlan {
            project: owned(project),
            session_id: owned(session_id),
            trust_limit: args.trust_limit,
            review_limit: args.review_limit,
            client: copy_text(&args.client),
            task_frame_retention_days: args.task_frame_retention_days,
            query: copy_text(&args.envelope.query),
            task_frame_id: args.envelope.task_frame_id,
            required_clients: copied(required),
            client_binding,
            requirements: ProductHardeningRequirements {
                client_binding_ready: args.require_client_binding_ready || required.len() > 0,
                review_queue_clear: args.require_review_queue_clear,
                task_frame_retention_clean: args.require_task_frame_retention_clean,
                task_frame_projection: args.require_task_frame_projection,
            },
            override_command: hardening_report_scope_override_command(args, current, default_days),
        },
    )
}

// ---------------------------------------------------------------------------
// Laws
// ---------------------------------------------------------------------------

/// A release passes if and only if a private claim may be made, and then nothing is left to
/// do.
pub proof fn law_gate_opens_iff_ready(
    client: Option<Seq<char>>,
    required: Seq<Seq<char>>,
    missing: Seq<Seq<char>>,
    unready: Seq<Seq<char>>,
    clients: Seq<ClientBindingReadinessStatusView>,
    artifacts: usize,
    coherence: usize,
)
    ensures
        ({
            let s = summary_of(client, required, missing, unready, clients, artifacts, coherence);
            let ready = claim_ready(required, missing, unready, clients);
            &&& s.release_gate == "pass"@ <==> ready
            &&& s.next_step_id is None <==> ready
        }),
{
    reveal_strlit("pass");
    reveal_strlit("fail");
    assert("pass"@[0] == 'p');
    assert("fail"@[0] == 'f');
}

proof fn lemma_listed(
    required: Seq<Seq<char>>,
    clients: Seq<ClientBindingReadinessStatusView>,
    so: Option<bool>,
    i: int,
)
    requires
        0 <= i < required.len(),
        standing(clients, required[i]) == so,
    ensures
        standing_so(required, clients, so).contains(required[i]),
        standing_so(required, clients, so).len() > 0,
    decreases required.len(),
{
    let list = standing_so(required, clients, so);
    if i == required.len() - 1 {
        assert(list[list.len() - 1] == required[i]);
    } else {
        let front = required.drop_last();
        assert(front[i] == required[i]);
        lemma_listed(front, clients, so, i);
        let had = standing_so(front, clients, so);
        let k = choose|k: int| 0 <= k < had.len() && had[k] == required[i];
        assert(list[k] == required[i]);
    }
}

/// A required client without a proof that is ready stops the release, and stands among
/// those whose proofs are to go on.
pub proof fn law_required_client_keeps_the_gate_shut(
    client: Option<Seq<char>>,
    required: Seq<Seq<char>>,
    clients: Seq<ClientBindingReadinessStatusView>,
    artifacts: usize,
    coherence: usize,
    i: int,
)
    requires
        0 <= i < required.len(),
        standing(clients, required[i]) != Some(true),
    ensures
        ({
            let missing = standing_so(required, clients, None);
            let unready = standing_so(required, clients, Some(false));
            let s = summary_of(client, required, missing, unready, clients, artifacts, coherence);
            &&& s.release_gate == "fail"@
            &&& s.target_clients.contains(required[i])
        }),
{
    let so = standing(clients, required[i]);
    assert(so is None || so == Some(false)) by {
        if so is Some && so->0 {
            assert(so == Some(true));
        }
    }
    lemma_listed(required, clients, so, i);
    let missing = standing_so(required, clients, None);
    let unready = standing_so(required, clients, Some(false));
    let open = missing + unready;
    if so is None {
        let k = choose|k: int| 0 <= k < missing.len() && missing[k] == required[i];
        assert(open[k] == required[i]);
    } else {
        let k = choose|k: int| 0 <= k < unready.len() && unready[k] == required[i];
        assert(open[missing.len() + k] == required[i]);
    }
}

/// Every required client is missing, not ready or ready, and only one of these.
pub proof fn law_required_clients_are_counted(
    required: Seq<Seq<char>>,
    clients: Seq<ClientBindingReadinessStatusView>,
)
    ensures
        standing_so(required, clients, None).len() + standing_so(
            required,
            clients,
            Some(false),
        ).len() + standing_so(required, clients, Some(true)).len() == required.len(),
    decreases required.len(),
{
    if required.len() > 0 {
        law_required_clients_are_counted(required.drop_last(), clients);
        let so = standing(clients, required.last());
        assert(so is None || so == Some(true) || so == Some(false)) by {
            if so is Some && so->0 {
                assert(so == Some(true));
            }
        }
    }
}

/// Evidence that failed blocks a claim that is not ready, whatever else is missing.
pub proof fn law_failed_evidence_blocks(
    client: Option<Seq<char>>,
    required: Seq<Seq<char>>,
    missing: Seq<Seq<char>>,
    unready: Seq<Seq<char>>,
    clients: Seq<ClientBindingReadinessStatusView>,
    artifacts: usize,
    coherence: usize,
)
    requires
        artifacts > 0 || coherence > 0,
        !claim_ready(required, missing, unready, clients),
    ensures
        summary_of(client, required, missing, unready, clients, artifacts, coherence).status
            == "blocked_by_stored_proof_integrity_or_identity"@,
{
}

/// A required client makes readiness of the bindings a demand of the report.
pub proof fn law_required_clients_demand_readiness(
    args: ContextHardeningReportArgsView,
    project: Option<Seq<char>>,
    session_id: Option<Seq<char>>,
    required: Seq<Seq<char>>,
    current: Option<Seq<char>>,
    default_days: i64,
)
    requires
        required.len() > 0,
    ensures
        hardening_plan(
            args,
            project,
            session_id,
            required,
            current,
            default_days,
        ).requirements.client_binding_ready,
{
}


/// Where looking at the proof sessions comes to from a step on, when these sessions were
/// looked at, one after the other, each with its hint.
pub open spec fn probe_run(
    step: ProbeStepView,
    looked: Seq<(Result<ClientBindingProofSessionView, BindingFault>, JsonView)>,
    soma_bin: Seq<char>,
    config_root: Seq<char>,
    limit: usize,
) -> ProbeStepView
    decreases looked.len(),
{
    match step {
        ProbeStepView::Probe(w, _) => if looked.len() > 0 {
            probe_run(
                probe_after(w, looked[0].0, soma_bin, config_root, looked[0].1, limit),
                looked.skip(1),
                soma_bin,
                config_root,
                limit,
            )
        } else {
            step
        },
        _ => step,
    }
}

/// Of the first `n` rows those that ask for a proof session were looked at, and all others
/// are as they were.
pub open spec fn is_probed_to(
    now: Seq<RequiredClientProofRowView>,
    was: Seq<RequiredClientProofRowView>,
    n: int,
) -> bool {
    &&& now.len() == was.len()
    &&& forall|i: int|
        0 <= i < was.len() ==> if i < n && was[i].proof_session_required {
            (#[trigger] now[i]).probe is Some && now[i].client == was[i].client
        } else {
            now[i] == was[i]
        }
}

/// The first session is kept once a row was looked at.
pub open spec fn is_first_kept(
    first: Option<ClientBindingProofSessionView>,
    was: Seq<RequiredClientProofRowView>,
    n: int,
) -> bool {
    first is Some <==> exists|i: int|
        0 <= i < n && i < was.len() && (#[trigger] was[i]).proof_session_required
}

proof fn lemma_next_required(rows: Seq<RequiredClientProofRowView>, at: int)
    requires
        0 <= at <= rows.len(),
    ensures
        at <= next_required(rows, at) <= rows.len(),
        forall|i: int|
            at <= i < next_required(rows, at) ==> !(#[trigger] rows[i]).proof_session_required,
        next_required(rows, at) < rows.len() ==> rows[next_required(
            rows,
            at,
        )].proof_session_required,
    decreases rows.len() - at,
{
    if at < rows.len() && !rows[at].proof_session_required {
        lemma_next_required(rows, at + 1);
    }
}

/// A step of the walk keeps to the rows.
pub open spec fn keeps_to(
    step: ProbeStepView,
    was: Seq<RequiredClientProofRowView>,
) -> bool {
    match step {
        ProbeStepView::Probe(w, _) => {
            &&& 0 <= w.at < was.len()
            &&& was[w.at].proof_session_required
            &&& is_probed_to(w.rows, was, w.at)
            &&& is_first_kept(w.first, was, w.at)
        },
        ProbeStepView::Done(p) => {
            &&& is_probed_to(p.rows, was, was.len() as int)
            &&& is_first_kept(p.first, was, was.len() as int)
        },
        ProbeStepView::Failed(_) => true,
    }
}

proof fn lemma_probe_on(
    w: ProbeWalkView,
    was: Seq<RequiredClientProofRowView>,
    config_root: Seq<char>,
    limit: usize,
)
    requires
        0 <= w.at <= was.len(),
        is_probed_to(w.rows, was, w.at),
        is_first_kept(w.first, was, w.at),
    ensures
        keeps_to(probe_on(w, config_root, limit), was),
{
    lemma_next_required(w.rows, w.at);
    let k = next_required(w.rows, w.at);
    assert forall|i: int| w.at <= i < k implies !(#[trigger] was[i]).proof_session_required by {
        assert(w.rows[i] == was[i]);
    }
    assert(k < was.len() ==> w.rows[k] == was[k]);
}

proof fn lemma_probe_run(
    step: ProbeStepView,
    was: Seq<RequiredClientProofRowView>,
    looked: Seq<(Result<ClientBindingProofSessionView, BindingFault>, JsonView)>,
    soma_bin: Seq<char>,
    config_root: Seq<char>,
    limit: usize,
)
    requires
        keeps_to(step, was),
    ensures
        keeps_to(probe_run(step, looked, soma_bin, config_root, limit), was),
        step matches ProbeStepView::Probe(w, _) && w.first is Some && probe_run(
            step,
            looked,
            soma_bin,
            config_root,
            limit,
        ) is Done ==> probe_run(step, looked, soma_bin, config_root, limit)->Done_0.first
            == step->Probe_0.first,
    decreases looked.len(),
{
    match step {
        ProbeStepView::Probe(w, _) => if looked.len() > 0 {
            let next = probe_after(w, looked[0].0, soma_bin, config_root, looked[0].1, limit);
            match looked[0].0 {
                Ok(session) => {
                    let row = probed(w.rows[w.at], session, soma_bin, config_root, looked[0].1);
                    let on = ProbeWalkView {
                        rows: w.rows.update(w.at, row),
                        at: w.at + 1,
                        first: match w.first {
                            Some(s) => Some(s),
                            None => Some(session),
                        },
                    };
                    assert(w.rows[w.at] == was[w.at]);
                    assert(is_probed_to(on.rows, was, on.at));
                    lemma_probe_on(on, was, config_root, limit);
                },
                Err(_) => {},
            }
            lemma_probe_run(next, was, looked.skip(1), soma_bin, config_root, limit);
        },
        _ => {},
    }
}

/// Where the place of the installed configs is known, and every proof session could be looked
/// at, each row that asks for one was looked at, every other row is as it was, and the
/// session that sets where the proofs stand is the first one, where there is one.
pub proof fn law_required_clients_are_probed(
    rows: Seq<RequiredClientProofRowView>,
    config_root: Option<Seq<char>>,
    looked: Seq<(Result<ClientBindingProofSessionView, BindingFault>, JsonView)>,
    soma_bin: Seq<char>,
    limit: usize,
)
    requires
        trimmed_nonblank(config_root) is Some,
        probe_run(
            probe_begun(rows, config_root, limit),
            looked,
            soma_bin,
            trimmed_nonblank(config_root)->0,
            limit,
        ) is Done,
    ensures
        ({
            let done = probe_run(
                probe_begun(rows, config_root, limit),
                looked,
                soma_bin,
                trimmed_nonblank(config_root)->0,
                limit,
            )->Done_0;
            &&& is_probed_to(done.rows, rows, rows.len() as int)
            &&& done.first is Some <==> some_required(rows)
            &&& done.first matches Some(s) ==> looked.len() > 0 && looked[0].0 == Ok::<
                ClientBindingProofSessionView,
                BindingFault,
            >(s)
        }),
{
    let root = trimmed_nonblank(config_root)->0;
    let begun = probe_begun(rows, config_root, limit);
    reveal_with_fuel(probe_run, 2);
    lemma_probe_on(ProbeWalkView { rows, at: 0, first: None }, rows, root, limit);
    lemma_probe_run(begun, rows, looked, soma_bin, root, limit);
    if begun is Probe && looked.len() > 0 {
        let w = begun->Probe_0;
        match looked[0].0 {
            Ok(session) => {
                let row = probed(w.rows[w.at], session, soma_bin, root, looked[0].1);
                let on = ProbeWalkView {
                    rows: w.rows.update(w.at, row),
                    at: w.at + 1,
                    first: Some(session),
                };
                assert(w.rows[w.at] == rows[w.at]);
                assert(is_probed_to(on.rows, rows, on.at));
                lemma_probe_on(on, rows, root, limit);
                let next = probe_on(on, root, limit);
                lemma_probe_run(next, rows, looked.skip(1), soma_bin, root, limit);
                assert(next == probe_after(w, looked[0].0, soma_bin, root, looked[0].1, limit));
            },
            Err(_) => {},
        }
    }
}

/// Without the place of the installed configs no proof session is looked at.
pub proof fn law_nothing_is_probed_without_a_place(
    rows: Seq<RequiredClientProofRowView>,
    config_root: Option<Seq<char>>,
    limit: usize,
)
    requires
        trimmed_nonblank(config_root) is None,
    ensures
        probe_begun(rows, config_root, limit) == ProbeStepView::Done(
            ProbedClientsView { rows, first: None },
        ),
{
}

/// A report is planned as the flags say: with their limits, their client and their days;
/// the bindings of clients are looked at unless they are to be skipped, for between one and
/// 200 proofs; and each requirement holds where its flag is set, readiness also where
/// clients are required.
pub proof fn law_report_is_planned_by_flags(
    args: ContextHardeningReportArgs,
    project: Option<Seq<char>>,
    session_id: Option<Seq<char>>,
    required: Seq<Seq<char>>,
    current: Option<Seq<char>>,
    default_days: i64,
)
    ensures
        ({
            let p = hardening_plan(
                args.deep_view(),
                project,
                session_id,
                required,
                current,
                default_days,
            );
            &&& p.project == project
            &&& p.session_id == session_id
            &&& p.trust_limit == args.trust_limit
            &&& p.review_limit == args.review_limit
            &&& p.client == args.client.deep_view()
            &&& p.task_frame_retention_days == args.task_frame_retention_days
            &&& p.query == args.envelope.query.deep_view()
            &&& p.task_frame_id == args.envelope.task_frame_id
            &&& p.required_clients == required
            &&& p.client_binding is None <==> args.skip_client_binding
            &&& p.client_binding matches Some(q) ==> {
                &&& 1 <= q.limit <= 200
                &&& 1 <= args.client_proof_limit <= 200 ==> q.limit == args.client_proof_limit
                &&& args.client_proof_limit == 0 ==> q.limit == 1
                &&& args.client_proof_limit > 200 ==> q.limit == 200
                &&& args.client is Some && trimmed(args.client->0@).len() > 0 ==> q.client == Some(
                    lowered(trimmed(args.client->0@)),
                )
                &&& required.len() > 0 ==> q.proof_client is None
                &&& required.len() == 0 ==> q.proof_client == q.client
            }
            &&& p.requirements.client_binding_ready <==> args.require_client_binding_ready
                || required.len() > 0
            &&& p.requirements.review_queue_clear <==> args.require_review_queue_clear
            &&& p.requirements.task_frame_retention_clean
                <==> args.require_task_frame_retention_clean
            &&& p.requirements.task_frame_projection <==> args.require_task_frame_projection
        }),
{
}

/// The release gate passes iff the claim may be made; else what is told first is that what
/// was stored failed, where anything did, and only else that proofs are missing.
pub proof fn law_gate_passes_iff_the_claim_may_be_made(
    client: Option<Seq<char>>,
    required: Seq<Seq<char>>,
    missing: Seq<Seq<char>>,
    unready: Seq<Seq<char>>,
    clients: Seq<ClientBindingReadinessStatusView>,
    artifacts: usize,
    coherence: usize,
)
    ensures
        ({
            let s = summary_of(client, required, missing, unready, clients, artifacts, coherence);
            let ready = claim_ready(required, missing, unready, clients);
            &&& s.release_gate == "pass"@ <==> ready
            &&& ready ==> s.status == "ready_for_private_client_claim"@ && s.next_step_id is None
            &&& !ready ==> s.release_gate == "fail"@
            &&& !ready && (artifacts > 0 || coherence > 0) ==> s.status
                == "blocked_by_stored_proof_integrity_or_identity"@ && s.next_step_id == Some(
                "verify_evidence_artifacts_and_status"@,
            )
            &&& !ready && artifacts == 0 && coherence == 0 ==> s.status
                == "requires_client_binding_proof_session"@ && s.next_step_id == Some(
                "render_client_binding_proof_session"@,
            )
        }),
{
    reveal_strlit("pass");
    reveal_strlit("fail");
    assert("pass"@[0] == 'p');
    assert("fail"@[0] == 'f');
}

/// Failures, and clients that are ready, are counted client by client.
pub proof fn law_clients_are_counted_one_by_one(
    clients: Seq<ClientBindingReadinessStatusView>,
    next: ClientBindingReadinessStatusView,
)
    ensures
        artifact_failures(Seq::empty()) == 0,
        coherence_failures(Seq::empty()) == 0,
        non_release_sources(Seq::empty()) == 0,
        ready_clients(Seq::empty()) == 0,
        artifact_failures(clients.push(next)) == artifact_failures(clients)
            + next.artifact_failures.len(),
        coherence_failures(clients.push(next)) == coherence_failures(clients)
            + next.coherence_failures.len(),
        non_release_sources(clients.push(next)) == non_release_sources(clients)
            + next.non_release_evidence_sources.len(),
        next.ready_for_private_client_claim ==> ready_clients(clients.push(next)) == ready_clients(
            clients,
        ) + 1,
        !next.ready_for_private_client_claim ==> ready_clients(clients.push(next))
            == ready_clients(clients),
{
    assert(clients.push(next).drop_last() =~= clients);
}

/// A snapshot tells of a client what its status tells.
pub proof fn law_snapshots_tell_the_status(c: ClientBindingReadinessStatusView)
    ensures
        ({
            let s = snapshot_of(c);
            &&& s.client == c.client
            &&& s.readiness == c.readiness
            &&& s.ready_for_private_client_claim == c.ready_for_private_client_claim
            &&& s.has_observed_app_hook == c.has_observed_app_hook
            &&& s.has_observed_in_client_render == c.has_observed_in_client_render
            &&& s.has_observed_review_action == c.has_observed_review_action
            &&& c.artifact_failures.len() <= usize::MAX ==> s.artifact_failure_count
                == c.artifact_failures.len()
            &&& c.coherence_failures.len() <= usize::MAX ==> s.coherence_failure_count
                == c.coherence_failures.len()
            &&& s.artifact_failures.len() == c.artifact_failures.len()
        }),
{
}

}
