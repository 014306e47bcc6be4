//! How far the proofs of a client go, and what they allow to be claimed.
use super::artifacts::{
    evidence_artifact_status_is_verified, is_verified, verification, verify_proof_artifacts,
};
use super::config::add_if;
use super::flow::{
    client_binding_operator_flow, is_release_level, operator_flow, release_claim_proof_level,
};
use super::repair::{clamp_limit, clamped, requested, requested_client, stored_proofs};
use super::types::{
    AdapterBindingProofArgs, AdapterBindingProofError, AdapterBindingProofStatusOutcome,
    AdapterBindingProofStatusOutcomeView, ClientBindingArtifactFailure,
    ClientBindingArtifactFailureView, ClientBindingLatestProofStatus,
    ClientBindingLatestProofStatusView, ClientBindingNonReleaseEvidenceSource,
    ClientBindingNonReleaseEvidenceSourceView, ClientBindingOperatorFlowStep,
    ClientBindingOperatorFlowStepView, ClientBindingReadinessStatus,
    ClientBindingReadinessStatusView, EvidenceArtifactCheckView, Host, HostView, ObservedFile,
    ObservedFileView,
};
use crate::dup::Dup;
use crate::json::{as_bool, as_text, at, get, opt_text, text_in, Json, JsonView, Members};
use crate::outcome::{borrowed, copy_text, outcome, owned, trim_nonblank, trimmed_nonblank};
use crate::storage::{
    ClientBindingProofLevel, StorageError, StoredClientBindingProof, StoredClientBindingProofView,
};
use crate::text::{
    cat3, cat5, contains, lower, lowered, mentions, nil, none, ordered_set, replace, replaced, same,
    sorted, trim, trimmed, with,
};
use vstd::prelude::*;
use vstd::string::*;

verus! {

// ---------------------------------------------------------------------------
// Evidence sources
// ---------------------------------------------------------------------------

/// An evidence source, as it is compared.
pub open spec fn plain_source(source: Seq<char>) -> Seq<char> {
    replaced(replaced(lowered(trimmed(source)), '-', '_'), ' ', '_')
}

/// The markers of a source that is no private client.
pub open spec fn non_release_markers() -> Seq<Seq<char>> {
    nil().push("test"@).push("smoke"@).push("eval"@).push("fixture"@).push("synthetic"@).push(
        "mock"@,
    ).push("sample"@).push("mcp_server"@).push("storage_test"@).push("client_integration_eval"@)
}

/// The markers of an observation.
pub open spec fn observation_markers() -> Seq<Seq<char>> {
    nil().push("manual"@).push("operator"@).push("observation"@).push("observed"@).push(
        "runtime"@,
    ).push("client_capture"@)
}

/// The first of the markers that a text contains.
pub open spec fn first_marker(text: Seq<char>, markers: Seq<Seq<char>>) -> Option<Seq<char>>
    decreases markers.len(),
{
    if markers.len() == 0 {
        None
    } else {
        match first_marker(text, markers.drop_last()) {
            Some(m) => Some(m),
            None => if contains(text, markers.last()) {
                Some(markers.last())
            } else {
                None
            },
        }
    }
}

fn find_marker(text: &str, markers: &Vec<String>) -> (r: Option<String>)
    ensures
        r.deep_view() == first_marker(text@, markers.deep_view()),
{
    let ghost all = markers.deep_view();
    let mut i: usize = 0;
    while i < markers.len()
        invariant
            i <= markers.len(),
            all == markers.deep_view(),
            first_marker(text@, all.take(i as int)) is None,
        decreases markers.len() - i,
    {
        assert(all.take(i + 1).drop_last() =~= all.take(i as int));
        assert(all.take(i + 1).last() == markers[i as int]@);
        if mentions(text, markers[i].as_str()) {
            proof {
                lemma_first_marker(text@, all, i + 1);
            }
            return Some(markers[i].clone());
        }
        i = i + 1;
    }
    assert(all.take(i as int) =~= all);
    None
}

proof fn lemma_first_marker(text: Seq<char>, markers: Seq<Seq<char>>, k: int)
    requires
        0 <= k <= markers.len(),
        first_marker(text, markers.take(k)) is Some,
    ensures
        first_marker(text, markers) == first_marker(text, markers.take(k)),
    decreases markers.len() - k,
{
    if k == markers.len() {
        assert(markers.take(k) =~= markers);
    } else {
        assert(markers.drop_last().take(k) =~= markers.take(k));
        lemma_first_marker(text, markers.drop_last(), k);
    }
}

/// Why evidence from this source does not count for a release, if it does not.
pub open spec fn source_fault(source: Seq<char>) -> Option<Seq<char>> {
    let n = plain_source(source);
    let name = trimmed(source);
    if n.len() == 0 {
        Some("evidence_source is empty"@)
    } else if first_marker(n, non_release_markers()) is Some {
        Some(
            "evidence_source `"@ + name + "` contains non-release marker `"@ + first_marker(
                n,
                non_release_markers(),
            )->0 + "`"@,
        )
    } else if !contains(n, "private_client"@) {
        Some("evidence_source `"@ + name + "` lacks release-grade `private_client` marker"@)
    } else if first_marker(n, observation_markers()) is None {
        Some(
            "evidence_source `"@ + name
                + "` lacks release-grade operator or runtime observation marker"@,
        )
    } else {
        None
    }
}

pub fn non_release_evidence_source_reason(evidence_source: &str) -> (r: Option<String>)
    ensures
        r.deep_view() == source_fault(evidence_source@),
{
    let a = lower(trim(evidence_source));
    let b = replace(a.as_str(), '-', '_');
    let c = replace(b.as_str(), ' ', '_');
    let n = c.as_str();
    let name = trim(evidence_source);
    if n.is_empty() {
        return Some("evidence_source is empty".to_string());
    }
    let bad = crate::text::Words::new().w("test").w("smoke").w("eval").w("fixture").w(
        "synthetic",
    ).w("mock").w("sample").w("mcp_server").w("storage_test").w("client_integration_eval").done();
    match find_marker(n, &bad) {
        Some(m) => return Some(
            cat5(
                "evidence_source `",
                name,
                "` contains non-release marker `",
                m.as_str(),
                "`",
            ),
        ),
        None => {},
    }
    if !mentions(n, "private_client") {
        return Some(
            cat3("evidence_source `", name, "` lacks release-grade `private_client` marker"),
        );
    }
    let good = crate::text::Words::new().w("manual").w("operator").w("observation").w(
        "observed",
    ).w("runtime").w("client_capture").done();
    match find_marker(n, &good) {
        Some(_) => None,
        None => Some(
            cat3(
                "evidence_source `",
                name,
                "` lacks release-grade operator or runtime observation marker",
            ),
        ),
    }
}

/// Why a proof does not count for a release, if it does not: for its source, or for want
/// of the operator's word.
pub open spec fn release_fault(source: Seq<char>, confirmed: bool) -> Option<Seq<char>> {
    match source_fault(source) {
        Some(f) => Some(f),
        None => if confirmed {
            None
        } else {
            Some(
                "evidence_source `"@ + trimmed(source)
                    + "` was not explicitly operator-confirmed as release-grade private-client evidence"@,
            )
        },
    }
}

pub fn non_release_evidence_source_reason_for_proof(
    proof: &ClientBindingLatestProofStatus,
) -> (r: Option<String>)
    ensures
        r.deep_view() == release_fault(
            proof.deep_view().evidence_source,
            proof.deep_view().operator_confirmed_release_grade_evidence,
        ),
{
    match non_release_evidence_source_reason(proof.evidence_source.as_str()) {
        Some(f) => Some(f),
        None => if proof.operator_confirmed_release_grade_evidence {
            None
        } else {
            Some(
                cat3(
                    "evidence_source `",
                    trim(proof.evidence_source.as_str()),
                    "` was not explicitly operator-confirmed as release-grade private-client evidence",
                ),
            )
        },
    }
}

pub const NOT_CONFIRMED: &'static str =
    "release-grade private-client evidence source was not explicitly operator-confirmed";

/// The verdict on an evidence source, as it is stored with a proof.
pub open spec fn source_policy(source: Seq<char>, confirmed: bool) -> JsonView {
    let fault = source_fault(source);
    let reason = match fault {
        Some(f) => Some(f),
        None => if confirmed {
            None
        } else {
            Some(NOT_CONFIRMED@)
        },
    };
    JsonView::Object(
        Seq::empty().push(
            (
                "schema"@,
                JsonView::Text("soma.client_binding_release_evidence_source_policy.v1"@),
            ),
        ).push(("evidence_source"@, JsonView::Text(trimmed(source)))).push(
            ("operator_confirmed_release_grade_evidence"@, JsonView::Bool(confirmed)),
        ).push(("source_label_passed"@, JsonView::Bool(fault is None))).push(
            ("release_grade_evidence_passed"@, JsonView::Bool(reason is None)),
        ).push(("non_release_reason"@, opt_text(reason))),
    )
}

pub fn release_grade_evidence_source_policy(evidence_source: &str, confirmed: bool) -> (r: Json)
    ensures
        r@ == source_policy(evidence_source@, confirmed),
{
    let fault = non_release_evidence_source_reason(evidence_source);
    let passed = fault.is_none();
    let reason = match fault {
        Some(f) => Some(f),
        None => if confirmed {
            None
        } else {
            Some(NOT_CONFIRMED.to_string())
        },
    };
    Members::new().text(
        "schema",
        "soma.client_binding_release_evidence_source_policy.v1",
    ).text("evidence_source", trim(evidence_source)).flag(
        "operator_confirmed_release_grade_evidence",
        confirmed,
    ).flag("source_label_passed", passed).flag(
        "release_grade_evidence_passed",
        reason.is_none(),
    ).opt_text("non_release_reason", borrowed(&reason)).done()
}

// ---------------------------------------------------------------------------
// The latest proofs
// ---------------------------------------------------------------------------

/// A text two members down that is not blank.
pub open spec fn text_at(v: JsonView, outer: Seq<char>, inner: Seq<char>) -> Option<Seq<char>> {
    trimmed_nonblank(as_text(at(v, outer, inner)))
}

pub fn string_at<'a>(v: &'a Json, outer: &str, inner: &str) -> (r: Option<&'a str>)
    ensures
        r.deep_view() == text_at(v@, outer@, inner@),
{
    trim_nonblank(text_in(v.at(outer, inner)))
}

/// The latest proof of a level.
pub open spec fn latest_of(
    p: StoredClientBindingProofView,
    files: Seq<ObservedFileView>,
) -> ClientBindingLatestProofStatusView {
    let v = verification(p, files);
    ClientBindingLatestProofStatusView {
        proof_id: p.id,
        proof_level: p.proof_level,
        observed_at_ns: p.observed_at_ns,
        manifest_status: p.manifest_status,
        evidence_source: p.evidence_source,
        operator_confirmed_release_grade_evidence: as_bool(
            get(p.checks_json, "operator_confirmed_release_grade_evidence"@),
        ) == Some(true),
        installed_config_path: p.installed_config_path,
        installed_config_fingerprint: text_at(
            p.checks_json,
            "installed_config_scan"@,
            "fingerprint"@,
        ),
        installed_config_binding_nonce: text_at(
            p.checks_json,
            "installed_config_scan"@,
            "binding_nonce"@,
        ),
        review_action_control_id: text_at(
            p.checks_json,
            "review_action_report_scan"@,
            "control_id"@,
        ),
        all_artifacts_verified: v.all_artifacts_verified,
        artifact_checks: v.artifact_checks,
    }
}

pub fn latest_proof_status(
    proof: &StoredClientBindingProof,
    files: &Vec<ObservedFile>,
) -> (r: ClientBindingLatestProofStatus)
    ensures
        r.deep_view() == latest_of(proof.deep_view(), files.deep_view()),
{
    let v = verify_proof_artifacts(proof, files);
    let confirmed = match proof.checks_json.get_bool("operator_confirmed_release_grade_evidence") {
        Some(b) => b,
        None => false,
    };
    ClientBindingLatestProofStatus {
        proof_id: proof.id,
        proof_level: proof.proof_level,
        observed_at_ns: proof.observed_at_ns,
        manifest_status: proof.manifest_status.clone(),
        evidence_source: proof.evidence_source.clone(),
        operator_confirmed_release_grade_evidence: confirmed,
        installed_config_path: copy_text(&proof.installed_config_path),
        installed_config_fingerprint: owned(
            string_at(&proof.checks_json, "installed_config_scan", "fingerprint"),
        ),
        installed_config_binding_nonce: owned(
            string_at(&proof.checks_json, "installed_config_scan", "binding_nonce"),
        ),
        review_action_control_id: owned(
            string_at(&proof.checks_json, "review_action_report_scan", "control_id"),
        ),
        all_artifacts_verified: v.all_artifacts_verified,
        artifact_checks: v.artifact_checks,
    }
}

/// The first proof of a level.
pub open spec fn first_of_level(
    proofs: Seq<StoredClientBindingProofView>,
    level: ClientBindingProofLevel,
) -> Option<StoredClientBindingProofView>
    decreases proofs.len(),
{
    if proofs.len() == 0 {
        None
    } else if proofs[0].proof_level == level {
        Some(proofs[0])
    } else {
        first_of_level(proofs.skip(1), level)
    }
}

fn find_level<'a>(
    proofs: &Vec<&'a StoredClientBindingProof>,
    level: ClientBindingProofLevel,
) -> (r: Option<&'a StoredClientBindingProof>)
    ensures
        r.deep_view() == first_of_level(proofs.deep_view(), level),
{
    let ghost all = proofs.deep_view();
    let mut i: usize = 0;
    assert(all.skip(0) =~= all);
    while i < proofs.len()
        invariant
            i <= proofs.len(),
            all == proofs.deep_view(),
            first_of_level(all, level) == first_of_level(all.skip(i as int), level),
        decreases proofs.len() - i,
    {
        assert(all.skip(i as int)[0] == proofs[i as int].deep_view());
        if proofs[i].proof_level == level {
            return Some(proofs[i]);
        }
        assert(all.skip(i as int).skip(1) =~= all.skip(i + 1));
        i = i + 1;
    }
    None
}

pub open spec fn add_latest(
    list: Seq<ClientBindingLatestProofStatusView>,
    proofs: Seq<StoredClientBindingProofView>,
    level: ClientBindingProofLevel,
    files: Seq<ObservedFileView>,
) -> Seq<ClientBindingLatestProofStatusView> {
    match first_of_level(proofs, level) {
        Some(p) => list.push(latest_of(p, files)),
        None => list,
    }
}

/// The latest proof of each level that has one, in the order of the levels' names.
/// `proofs` stand with the newest first.
pub open spec fn latest_levels(
    proofs: Seq<StoredClientBindingProofView>,
    files: Seq<ObservedFileView>,
) -> Seq<ClientBindingLatestProofStatusView> {
    let a = add_latest(
        Seq::empty(),
        proofs,
        ClientBindingProofLevel::ObservedAppHook,
        files,
    );
    let b = add_latest(a, proofs, ClientBindingProofLevel::ObservedEventFile, files);
    let c = add_latest(b, proofs, ClientBindingProofLevel::ObservedInClientRender, files);
    let d = add_latest(c, proofs, ClientBindingProofLevel::ObservedReviewAction, files);
    add_latest(d, proofs, ClientBindingProofLevel::ReferenceBinding, files)
}

fn push_latest(
    list: Vec<ClientBindingLatestProofStatus>,
    proofs: &Vec<&StoredClientBindingProof>,
    level: ClientBindingProofLevel,
    files: &Vec<ObservedFile>,
) -> (r: Vec<ClientBindingLatestProofStatus>)
    ensures
        r.deep_view() == add_latest(
            list.deep_view(),
            proofs.deep_view(),
            level,
            files.deep_view(),
        ),
{
    match find_level(proofs, level) {
        Some(p) => with(list, latest_proof_status(p, files)),
        None => list,
    }
}

fn find_latest_levels(
    proofs: &Vec<&StoredClientBindingProof>,
    files: &Vec<ObservedFile>,
) -> (r: Vec<ClientBindingLatestProofStatus>)
    ensures
        r.deep_view() == latest_levels(proofs.deep_view(), files.deep_view()),
{
    let a = push_latest(none(), proofs, ClientBindingProofLevel::ObservedAppHook, files);
    let b = push_latest(a, proofs, ClientBindingProofLevel::ObservedEventFile, files);
    let c = push_latest(b, proofs, ClientBindingProofLevel::ObservedInClientRender, files);
    let d = push_latest(c, proofs, ClientBindingProofLevel::ObservedReviewAction, files);
    push_latest(d, proofs, ClientBindingProofLevel::ReferenceBinding, files)
}

/// The entry of a level among the latest proofs.
pub open spec fn entry(
    latest: Seq<ClientBindingLatestProofStatusView>,
    level: ClientBindingProofLevel,
) -> Option<ClientBindingLatestProofStatusView>
    decreases latest.len(),
{
    if latest.len() == 0 {
        None
    } else if latest[0].proof_level == level {
        Some(latest[0])
    } else {
        entry(latest.skip(1), level)
    }
}

pub fn find_entry<'a>(
    latest: &'a Vec<ClientBindingLatestProofStatus>,
    level: ClientBindingProofLevel,
) -> (r: Option<&'a ClientBindingLatestProofStatus>)
    ensures
        r.deep_view() == entry(latest.deep_view(), level),
{
    let ghost all = latest.deep_view();
    let mut i: usize = 0;
    assert(all.skip(0) =~= all);
    while i < latest.len()
        invariant
            i <= latest.len(),
            all == latest.deep_view(),
            entry(all, level) == entry(all.skip(i as int), level),
        decreases latest.len() - i,
    {
        assert(all.skip(i as int)[0] == latest[i as int].deep_view());
        if latest[i].proof_level == level {
            return Some(&latest[i]);
        }
        assert(all.skip(i as int).skip(1) =~= all.skip(i + 1));
        i = i + 1;
    }
    None
}

// ---------------------------------------------------------------------------
// Coherence
// ---------------------------------------------------------------------------

/// Two values that must be the same: what is wrong with them, if anything.
pub open spec fn identity_fault(
    a: Option<Seq<char>>,
    b: Option<Seq<char>>,
    mismatch: Seq<char>,
    missing: Seq<char>,
) -> Option<Seq<char>> {
    if a is Some && b is Some {
        if a == b {
            None
        } else {
            Some(mismatch)
        }
    } else {
        Some(missing)
    }
}

pub open spec fn add_fault(list: Seq<Seq<char>>, f: Option<Seq<char>>) -> Seq<Seq<char>> {
    match f {
        Some(f) => list.push(f),
        None => list,
    }
}

fn push_identity_fault(
    list: Vec<String>,
    a: &Option<String>,
    b: &Option<String>,
    mismatch: &str,
    missing: &str,
) -> (r: Vec<String>)
    ensures
        r.deep_view() == add_fault(
            list.deep_view(),
            identity_fault(a.deep_view(), b.deep_view(), mismatch@, missing@),
        ),
{
    match (a, b) {
        (Some(x), Some(y)) => if same(x.as_str(), y.as_str()) {
            list
        } else {
            with(list, mismatch.to_string())
        },
        _ => with(list, missing.to_string()),
    }
}

/// What is wrong between the proofs that a release rests on: they must have been made
/// with one installed configuration.
pub open spec fn coherence_faults(latest: Seq<ClientBindingLatestProofStatusView>) -> Seq<
    Seq<char>,
> {
    let hook = entry(latest, ClientBindingProofLevel::ObservedAppHook);
    let render = entry(latest, ClientBindingProofLevel::ObservedInClientRender);
    let action = entry(latest, ClientBindingProofLevel::ObservedReviewAction);
    if hook is None || render is None {
        nil()
    } else {
        let h = hook->0;
        let r = render->0;
        let a = add_fault(
            nil(),
            identity_fault(
                h.installed_config_fingerprint,
                r.installed_config_fingerprint,
                "installed_config_fingerprint_mismatch"@,
                "installed_config_fingerprint_missing_for_readiness"@,
            ),
        );
        let b = if action is Some {
            add_fault(
                a,
                identity_fault(
                    r.installed_config_fingerprint,
                    action->0.installed_config_fingerprint,
                    "review_action_installed_config_fingerprint_mismatch"@,
                    "review_action_installed_config_fingerprint_missing_for_readiness"@,
                ),
            )
        } else {
            a
        };
        let c = add_fault(
            b,
            identity_fault(
                h.installed_config_binding_nonce,
                r.installed_config_binding_nonce,
                "installed_config_binding_nonce_mismatch"@,
                "installed_config_binding_nonce_missing_for_readiness"@,
            ),
        );
        if action is Some {
            add_fault(
                c,
                identity_fault(
                    r.installed_config_binding_nonce,
                    action->0.installed_config_binding_nonce,
                    "review_action_installed_config_binding_nonce_mismatch"@,
                    "review_action_installed_config_binding_nonce_missing_for_readiness"@,
                ),
            )
        } else {
            c
        }
    }
}

pub fn client_binding_coherence_failures(
    latest: &Vec<ClientBindingLatestProofStatus>,
) -> (r: Vec<String>)
    ensures
        r.deep_view() == coherence_faults(latest.deep_view()),
{
    let h = match find_entry(latest, ClientBindingProofLevel::ObservedAppHook) {
        Some(h) => h,
        None => return none(),
    };
    let r = match find_entry(latest, ClientBindingProofLevel::ObservedInClientRender) {
        Some(r) => r,
        None => return none(),
    };
    let action = find_entry(latest, ClientBindingProofLevel::ObservedReviewAction);
    let list = push_identity_fault(
        none(),
        &h.installed_config_fingerprint,
        &r.installed_config_fingerprint,
        "installed_config_fingerprint_mismatch",
        "installed_config_fingerprint_missing_for_readiness",
    );
    let list = match action {
        Some(a) => push_identity_fault(
            list,
            &r.installed_config_fingerprint,
            &a.installed_config_fingerprint,
            "review_action_installed_config_fingerprint_mismatch",
            "review_action_installed_config_fingerprint_missing_for_readiness",
        ),
        None => list,
    };
    let list = push_identity_fault(
        list,
        &h.installed_config_binding_nonce,
        &r.installed_config_binding_nonce,
        "installed_config_binding_nonce_mismatch",
        "installed_config_binding_nonce_missing_for_readiness",
    );
    match action {
        Some(a) => push_identity_fault(
            list,
            &r.installed_config_binding_nonce,
            &a.installed_config_binding_nonce,
            "review_action_installed_config_binding_nonce_mismatch",
            "review_action_installed_config_binding_nonce_missing_for_readiness",
        ),
        None => list,
    }
}

// ---------------------------------------------------------------------------
// Failures
// ---------------------------------------------------------------------------

pub open spec fn failure_of(
    p: ClientBindingLatestProofStatusView,
    c: EvidenceArtifactCheckView,
) -> ClientBindingArtifactFailureView {
    ClientBindingArtifactFailureView {
        proof_id: p.proof_id,
        proof_level: p.proof_level,
        kind: c.kind,
        path: c.path,
        status: c.status,
        error: c.error,
    }
}

/// The failures among the first `k` evidence files of a proof.
pub open spec fn proof_failures(p: ClientBindingLatestProofStatusView, k: nat) -> Seq<
    ClientBindingArtifactFailureView,
>
    decreases k,
{
    if k == 0 || k > p.artifact_checks.len() {
        Seq::empty()
    } else {
        let c = p.artifact_checks[k - 1];
        let front = proof_failures(p, (k - 1) as nat);
        if is_verified(c.status) {
            front
        } else {
            front.push(failure_of(p, c))
        }
    }
}

/// The evidence files of the latest proofs that are no longer what they were. Where
/// `release_only` holds, only those of proofs that a release rests on.
pub open spec fn level_failures(
    latest: Seq<ClientBindingLatestProofStatusView>,
    release_only: bool,
) -> Seq<ClientBindingArtifactFailureView>
    decreases latest.len(),
{
    if latest.len() == 0 {
        Seq::empty()
    } else {
        let front = level_failures(latest.drop_last(), release_only);
        let p = latest.last();
        if release_only && !is_release_level(p.proof_level) {
            front
        } else {
            front + proof_failures(p, p.artifact_checks.len())
        }
    }
}

fn find_failures(latest: &Vec<ClientBindingLatestProofStatus>, release_only: bool) -> (r: Vec<
    ClientBindingArtifactFailure,
>)
    ensures
        r.deep_view() == level_failures(latest.deep_view(), release_only),
{
    let ghost all = latest.deep_view();
    let mut out: Vec<ClientBindingArtifactFailure> = none();
    let mut i: usize = 0;
    while i < latest.len()
        invariant
            i <= latest.len(),
            all == latest.deep_view(),
            out.deep_view() == level_failures(all.take(i as int), release_only),
        decreases latest.len() - i,
    {
        assert(all.take(i + 1).drop_last() =~= all.take(i as int));
        assert(all.take(i + 1).last() == latest[i as int].deep_view());
        let p = &latest[i];
        if !release_only || release_claim_proof_level(p.proof_level) {
            let ghost before = out.deep_view();
            let ghost pv = p.deep_view();
            let mut k: usize = 0;
            assert(before + proof_failures(pv, 0) =~= before);
            while k < p.artifact_checks.len()
                invariant
                    k <= p.artifact_checks.len(),
                    pv == p.deep_view(),
                    pv.artifact_checks.len() == p.artifact_checks.len(),
                    out.deep_view() == before + proof_failures(pv, k as nat),
                decreases p.artifact_checks.len() - k,
            {
                let c = &p.artifact_checks[k];
                assert(pv.artifact_checks[k as int] == c.deep_view());
                if !evidence_artifact_status_is_verified(c.status) {
                    let f = ClientBindingArtifactFailure {
                        proof_id: p.proof_id,
                        proof_level: p.proof_level,
                        kind: c.kind.clone(),
                        path: copy_text(&c.path),
                        status: c.status,
                        error: copy_text(&c.error),
                    };
                    assert(f.deep_view() == failure_of(pv, c.deep_view()));
                    out = with(out, f);
                    assert(out.deep_view() =~= before + proof_failures(pv, (k + 1) as nat));
                }
                k = k + 1;
            }
        }
        i = i + 1;
    }
    assert(all.take(i as int) =~= all);
    out
}

/// The evidence files of the latest proofs that are no longer what they were.
pub fn artifact_failures_for_latest_levels(
    latest: &Vec<ClientBindingLatestProofStatus>,
) -> (r: Vec<ClientBindingArtifactFailure>)
    ensures
        r.deep_view() == level_failures(latest.deep_view(), false),
{
    find_failures(latest, false)
}

/// The latest proofs that a release rests on whose evidence does not count for one.
pub open spec fn non_release_sources(latest: Seq<ClientBindingLatestProofStatusView>) -> Seq<
    ClientBindingNonReleaseEvidenceSourceView,
>
    decreases latest.len(),
{
    if latest.len() == 0 {
        Seq::empty()
    } else {
        let front = non_release_sources(latest.drop_last());
        let p = latest.last();
        match release_fault(p.evidence_source, p.operator_confirmed_release_grade_evidence) {
            Some(reason) => if is_release_level(p.proof_level) {
                front.push(
                    ClientBindingNonReleaseEvidenceSourceView {
                        proof_id: p.proof_id,
                        proof_level: p.proof_level,
                        evidence_source: p.evidence_source,
                        reason,
                    },
                )
            } else {
                front
            },
            None => front,
        }
    }
}

pub fn non_release_evidence_sources_for_latest_levels(
    latest: &Vec<ClientBindingLatestProofStatus>,
) -> (r: Vec<ClientBindingNonReleaseEvidenceSource>)
    ensures
        r.deep_view() == non_release_sources(latest.deep_view()),
{
    let ghost all = latest.deep_view();
    let mut out: Vec<ClientBindingNonReleaseEvidenceSource> = none();
    let mut i: usize = 0;
    while i < latest.len()
        invariant
            i <= latest.len(),
            all == latest.deep_view(),
            out.deep_view() == non_release_sources(all.take(i as int)),
        decreases latest.len() - i,
    {
        assert(all.take(i + 1).drop_last() =~= all.take(i as int));
        assert(all.take(i + 1).last() == latest[i as int].deep_view());
        let p = &latest[i];
        if release_claim_proof_level(p.proof_level) {
            match non_release_evidence_source_reason_for_proof(p) {
                Some(reason) => {
                    out =
                    with(
                        out,
                        ClientBindingNonReleaseEvidenceSource {
                            proof_id: p.proof_id,
                            proof_level: p.proof_level,
                            evidence_source: p.evidence_source.clone(),
                            reason,
                        },
                    );
                },
                None => {},
            }
        }
        i = i + 1;
    }
    assert(all.take(i as int) =~= all);
    out
}

// ---------------------------------------------------------------------------
// The verdict
// ---------------------------------------------------------------------------

/// Which levels have a proof.
pub struct Levels {
    pub reference: bool,
    pub event_file: bool,
    pub app_hook: bool,
    pub render: bool,
    pub review_action: bool,
}

pub open spec fn levels_of(latest: Seq<ClientBindingLatestProofStatusView>) -> Levels {
    Levels {
        reference: entry(latest, ClientBindingProofLevel::ReferenceBinding) is Some,
        event_file: entry(latest, ClientBindingProofLevel::ObservedEventFile) is Some,
        app_hook: entry(latest, ClientBindingProofLevel::ObservedAppHook) is Some,
        render: entry(latest, ClientBindingProofLevel::ObservedInClientRender) is Some,
        review_action: entry(latest, ClientBindingProofLevel::ObservedReviewAction) is Some,
    }
}

/// The three levels that a release rests on have a proof.
pub open spec fn is_chain(l: Levels) -> bool {
    l.app_hook && l.render && l.review_action
}

/// How far the proofs go.
pub open spec fn stage(l: Levels) -> Seq<char> {
    if is_chain(l) {
        "real_app_hook_in_client_render_and_review_action_observed"@
    } else if l.app_hook && l.render {
        "real_app_hook_and_in_client_render_observed"@
    } else if l.review_action {
        "review_action_observed_without_complete_client_binding"@
    } else if l.render {
        "in_client_render_observed_without_app_hook"@
    } else if l.app_hook {
        "real_app_hook_observed"@
    } else if l.event_file {
        "event_file_observed_only"@
    } else if l.reference {
        "reference_binding_only"@
    } else {
        "no_proof_rows"@
    }
}

pub fn proof_stage(l: &Levels) -> (r: &'static str)
    ensures
        r@ == stage(*l),
{
    if l.app_hook && l.render && l.review_action {
        "real_app_hook_in_client_render_and_review_action_observed"
    } else if l.app_hook && l.render {
        "real_app_hook_and_in_client_render_observed"
    } else if l.review_action {
        "review_action_observed_without_complete_client_binding"
    } else if l.render {
        "in_client_render_observed_without_app_hook"
    } else if l.app_hook {
        "real_app_hook_observed"
    } else if l.event_file {
        "event_file_observed_only"
    } else if l.reference {
        "reference_binding_only"
    } else {
        "no_proof_rows"
    }
}

pub const RECORD_APP_HOOK_STEP: &'static str =
    "record_observed_app_hook_with_installed_config_private_event_source_binding_nonce_and_operator_confirmation";

pub const RECORD_RENDER_STEP: &'static str =
    "record_observed_in_client_render_with_review_render_report_render_evidence_and_operator_confirmation";

pub const RECORD_ACTION_STEP: &'static str =
    "record_observed_review_action_with_rendered_control_id_and_storage_gated_review_action_report";

pub const SAME_CONFIG_STEP: &'static str =
    "record_observed_app_hook_and_observed_in_client_render_from_same_installed_config_artifact";

pub const RELEASE_GRADE_STEP: &'static str =
    "re_record_app_hook_render_and_review_action_with_release_grade_private_client_evidence_source";

/// What is to be done next.
pub open spec fn next_steps(l: Levels, failures: bool, incoherent: bool, non_release: bool) -> Seq<
    Seq<char>,
> {
    let a = add_if(nil(), failures, "refresh_or_replay_changed_evidence_artifacts"@);
    let b = add_if(a, incoherent, SAME_CONFIG_STEP@);
    let c = add_if(b, non_release, RELEASE_GRADE_STEP@);
    let d = add_if(
        c,
        !l.reference && !l.event_file && !l.app_hook,
        "record_reference_binding_manifest"@,
    );
    let e = add_if(
        d,
        !l.event_file && !l.app_hook,
        "record_observed_event_file_from_wrapper_or_spool"@,
    );
    let f = add_if(e, !l.app_hook, RECORD_APP_HOOK_STEP@);
    let g = add_if(f, !l.render, RECORD_RENDER_STEP@);
    add_if(g, l.render && !l.review_action, RECORD_ACTION_STEP@)
}

fn text_if(list: Vec<String>, wanted: bool, item: &str) -> (r: Vec<String>)
    ensures
        r.deep_view() == add_if(list.deep_view(), wanted, item@),
{
    reveal(add_if);
    if wanted {
        with(list, item.to_string())
    } else {
        list
    }
}

pub fn client_binding_next_steps(
    l: &Levels,
    has_artifact_failures: bool,
    has_coherence_failures: bool,
    has_non_release_evidence_sources: bool,
) -> (r: Vec<String>)
    ensures
        r.deep_view() == next_steps(
            *l,
            has_artifact_failures,
            has_coherence_failures,
            has_non_release_evidence_sources,
        ),
{
    let list = text_if(
        none(),
        has_artifact_failures,
        "refresh_or_replay_changed_evidence_artifacts",
    );
    let list = text_if(list, has_coherence_failures, SAME_CONFIG_STEP);
    let list = text_if(list, has_non_release_evidence_sources, RELEASE_GRADE_STEP);
    let list = text_if(
        list,
        !l.reference && !l.event_file && !l.app_hook,
        "record_reference_binding_manifest",
    );
    let list = text_if(
        list,
        !l.event_file && !l.app_hook,
        "record_observed_event_file_from_wrapper_or_spool",
    );
    let list = text_if(list, !l.app_hook, RECORD_APP_HOOK_STEP);
    let list = text_if(list, !l.render, RECORD_RENDER_STEP);
    text_if(list, l.render && !l.review_action, RECORD_ACTION_STEP)
}

/// Every latest proof, or every one that a release rests on, has its evidence files, all
/// verified.
pub open spec fn levels_verified(
    latest: Seq<ClientBindingLatestProofStatusView>,
    release_only: bool,
) -> bool {
    forall|i: int|
        0 <= i < latest.len() && (!release_only || is_release_level(
            (#[trigger] latest[i]).proof_level,
        )) ==> latest[i].all_artifacts_verified
}

fn every_level_verified(
    latest: &Vec<ClientBindingLatestProofStatus>,
    release_only: bool,
) -> (r: bool)
    ensures
        r == levels_verified(latest.deep_view(), release_only),
{
    let mut i: usize = 0;
    while i < latest.len()
        invariant
            i <= latest.len(),
            forall|j: int|
                0 <= j < i && (!release_only || is_release_level(
                    (#[trigger] latest.deep_view()[j]).proof_level,
                )) ==> latest.deep_view()[j].all_artifacts_verified,
        decreases latest.len() - i,
    {
        assert(latest.deep_view()[i as int] == latest[i as int].deep_view());
        if (!release_only || release_claim_proof_level(latest[i].proof_level))
            && !latest[i].all_artifacts_verified {
            return false;
        }
        i = i + 1;
    }
    true
}

/// The operator can go round the loop: the three proofs are there, their evidence files
/// are verified, and they were made with one configuration.
pub open spec fn loop_ready(latest: Seq<ClientBindingLatestProofStatusView>) -> bool {
    &&& is_chain(levels_of(latest))
    &&& levels_verified(latest, true)
    &&& level_failures(latest, true).len() == 0
    &&& coherence_faults(latest).len() == 0
}

/// The client may be claimed to be ready: besides, all the evidence counts for a
/// release.
pub open spec fn claim_ready(latest: Seq<ClientBindingLatestProofStatusView>) -> bool {
    loop_ready(latest) && non_release_sources(latest).len() == 0
}

/// The failures that stand in the way.
pub open spec fn blocking_failures(latest: Seq<ClientBindingLatestProofStatusView>) -> Seq<
    ClientBindingArtifactFailureView,
> {
    level_failures(latest, is_chain(levels_of(latest)))
}

/// The verdict in one word.
pub open spec fn readiness_word(latest: Seq<ClientBindingLatestProofStatusView>) -> Seq<char> {
    let l = levels_of(latest);
    if blocking_failures(latest).len() > 0 {
        "artifact_integrity_failed"@
    } else if coherence_faults(latest).len() > 0 {
        "proof_identity_mismatch"@
    } else if is_chain(l) && non_release_sources(latest).len() > 0 {
        "non_release_evidence_source"@
    } else {
        stage(l)
    }
}

/// The first nonce among the latest proofs.
pub open spec fn known_nonce(latest: Seq<ClientBindingLatestProofStatusView>) -> Seq<char>
    decreases latest.len(),
{
    if latest.len() == 0 {
        "<binding-nonce>"@
    } else {
        match latest[0].installed_config_binding_nonce {
            Some(n) => n,
            None => known_nonce(latest.skip(1)),
        }
    }
}

fn find_nonce(latest: &Vec<ClientBindingLatestProofStatus>) -> (r: String)
    ensures
        r@ == known_nonce(latest.deep_view()),
{
    let ghost all = latest.deep_view();
    let mut i: usize = 0;
    assert(all.skip(0) =~= all);
    while i < latest.len()
        invariant
            i <= latest.len(),
            all == latest.deep_view(),
            known_nonce(all) == known_nonce(all.skip(i as int)),
        decreases latest.len() - i,
    {
        assert(all.skip(i as int)[0] == latest[i as int].deep_view());
        match &latest[i].installed_config_binding_nonce {
            Some(n) => return n.clone(),
            None => {},
        }
        assert(all.skip(i as int).skip(1) =~= all.skip(i + 1));
        i = i + 1;
    }
    "<binding-nonce>".to_string()
}

/// One of the files that proofs name.
#[derive(Clone, Copy)]
pub enum ProofFile {
    InstalledConfig,
    EventJsonl,
    ReviewRender,
    RenderEvidence,
    ReviewAction,
}

pub open spec fn file_named(
    p: StoredClientBindingProofView,
    which: ProofFile,
) -> Option<Seq<char>> {
    match which {
        ProofFile::InstalledConfig => p.installed_config_path,
        ProofFile::EventJsonl => p.event_jsonl_path,
        ProofFile::ReviewRender => text_at(p.checks_json, "review_render_file_scan"@, "path"@),
        ProofFile::RenderEvidence => p.render_evidence_path,
        ProofFile::ReviewAction => p.review_action_report_path,
    }
}

/// The first path among the proofs.
pub open spec fn first_file(proofs: Seq<StoredClientBindingProofView>, which: ProofFile) -> Option<
    Seq<char>,
>
    decreases proofs.len(),
{
    if proofs.len() == 0 {
        None
    } else {
        match file_named(proofs[0], which) {
            Some(p) => Some(p),
            None => first_file(proofs.skip(1), which),
        }
    }
}

fn named_file(p: &StoredClientBindingProof, which: ProofFile) -> (r: Option<String>)
    ensures
        r.deep_view() == file_named(p.deep_view(), which),
{
    match which {
        ProofFile::InstalledConfig => copy_text(&p.installed_config_path),
        ProofFile::EventJsonl => copy_text(&p.event_jsonl_path),
        ProofFile::ReviewRender => owned(
            string_at(&p.checks_json, "review_render_file_scan", "path"),
        ),
        ProofFile::RenderEvidence => copy_text(&p.render_evidence_path),
        ProofFile::ReviewAction => copy_text(&p.review_action_report_path),
    }
}

fn find_path(proofs: &Vec<&StoredClientBindingProof>, which: ProofFile) -> (r: Option<String>)
    ensures
        r.deep_view() == first_file(proofs.deep_view(), which),
{
    let ghost all = proofs.deep_view();
    let mut i: usize = 0;
    assert(all.skip(0) =~= all);
    while i < proofs.len()
        invariant
            i <= proofs.len(),
            all == proofs.deep_view(),
            first_file(all, which) == first_file(all.skip(i as int), which),
        decreases proofs.len() - i,
    {
        assert(all.skip(i as int)[0] == proofs[i as int].deep_view());
        match named_file(proofs[i], which) {
            Some(p) => return Some(p),
            None => {},
        }
        assert(all.skip(i as int).skip(1) =~= all.skip(i + 1));
        i = i + 1;
    }
    None
}

/// The steps for a client, with what its proofs name.
pub open spec fn status_flow(
    client: Seq<char>,
    proofs: Seq<StoredClientBindingProofView>,
    latest: Seq<ClientBindingLatestProofStatusView>,
    host: HostView,
) -> Seq<ClientBindingOperatorFlowStepView> {
    operator_flow(
        client,
        if proofs.len() > 0 {
            Some(proofs[0].manifest_path)
        } else {
            None
        },
        None,
        known_nonce(latest),
        None,
        None,
        first_file(proofs, ProofFile::InstalledConfig),
        first_file(proofs, ProofFile::EventJsonl),
        first_file(proofs, ProofFile::ReviewRender),
        first_file(proofs, ProofFile::RenderEvidence),
        first_file(proofs, ProofFile::ReviewAction),
        host,
    )
}

pub fn client_binding_status_operator_flow(
    client: &str,
    proofs: &Vec<&StoredClientBindingProof>,
    latest: &Vec<ClientBindingLatestProofStatus>,
    host: &Host,
) -> (r: Vec<ClientBindingOperatorFlowStep>)
    ensures
        r.deep_view() == status_flow(
            client@,
            proofs.deep_view(),
            latest.deep_view(),
            host.deep_view(),
        ),
{
    assert(proofs.deep_view().len() == proofs.len());
    let manifest = if proofs.len() > 0 {
        assert(proofs.deep_view()[0] == proofs[0].deep_view());
        Some(proofs[0].manifest_path.clone())
    } else {
        None
    };
    let nonce = find_nonce(latest);
    let installed = find_path(proofs, ProofFile::InstalledConfig);
    let events = find_path(proofs, ProofFile::EventJsonl);
    let report = find_path(proofs, ProofFile::ReviewRender);
    let evidence = find_path(proofs, ProofFile::RenderEvidence);
    let action = find_path(proofs, ProofFile::ReviewAction);
    client_binding_operator_flow(
        client,
        borrowed(&manifest),
        None,
        nonce.as_str(),
        None,
        None,
        borrowed(&installed),
        borrowed(&events),
        borrowed(&report),
        borrowed(&evidence),
        borrowed(&action),
        host,
    )
}

/// How far the proofs of a client go. `proofs` stand with the newest first.
pub open spec fn client_status(
    client: Seq<char>,
    proofs: Seq<StoredClientBindingProofView>,
    files: Seq<ObservedFileView>,
    host: HostView,
) -> ClientBindingReadinessStatusView {
    let latest = latest_levels(proofs, files);
    let l = levels_of(latest);
    ClientBindingReadinessStatusView {
        client,
        proof_stage: stage(l),
        readiness: readiness_word(latest),
        ready_for_private_client_claim: claim_ready(latest),
        has_reference_binding: l.reference,
        has_observed_event_file: l.event_file,
        has_observed_app_hook: l.app_hook,
        has_observed_in_client_render: l.render,
        has_observed_review_action: l.review_action,
        ready_for_client_operator_loop: loop_ready(latest),
        latest_proof_id: if proofs.len() > 0 {
            Some(proofs[0].id)
        } else {
            None
        },
        latest_proof_level: if proofs.len() > 0 {
            Some(proofs[0].proof_level)
        } else {
            None
        },
        latest_observed_at_ns: if proofs.len() > 0 {
            Some(proofs[0].observed_at_ns)
        } else {
            None
        },
        latest_by_level: latest,
        all_latest_artifacts_verified: latest.len() > 0 && levels_verified(latest, false),
        artifact_failures: level_failures(latest, false),
        coherence_failures: coherence_faults(latest),
        non_release_evidence_sources: non_release_sources(latest),
        next_steps: next_steps(
            l,
            blocking_failures(latest).len() > 0,
            coherence_faults(latest).len() > 0,
            non_release_sources(latest).len() > 0,
        ),
        operator_flow: status_flow(client, proofs, latest, host),
    }
}

/// How far the proofs of a client go.
pub fn readiness_status_for_client(
    client: String,
    proofs: &Vec<&StoredClientBindingProof>,
    files: &Vec<ObservedFile>,
    host: &Host,
) -> (r: ClientBindingReadinessStatus)
    ensures
        r.deep_view() == client_status(
            client@,
            proofs.deep_view(),
            files.deep_view(),
            host.deep_view(),
        ),
{
    let latest = find_latest_levels(proofs, files);
    let l = Levels {
        reference: find_entry(&latest, ClientBindingProofLevel::ReferenceBinding).is_some(),
        event_file: find_entry(&latest, ClientBindingProofLevel::ObservedEventFile).is_some(),
        app_hook: find_entry(&latest, ClientBindingProofLevel::ObservedAppHook).is_some(),
        render: find_entry(&latest, ClientBindingProofLevel::ObservedInClientRender).is_some(),
        review_action: find_entry(
            &latest,
            ClientBindingProofLevel::ObservedReviewAction,
        ).is_some(),
    };
    assert(l == levels_of(latest.deep_view()));
    let chain = l.app_hook && l.render && l.review_action;
    let artifact_failures = find_failures(&latest, false);
    let release_failures = find_failures(&latest, true);
    let coherence_failures = client_binding_coherence_failures(&latest);
    let non_release = non_release_evidence_sources_for_latest_levels(&latest);
    assert(artifact_failures.deep_view().len() == artifact_failures.len());
    assert(release_failures.deep_view().len() == release_failures.len());
    assert(coherence_failures.deep_view().len() == coherence_failures.len());
    assert(non_release.deep_view().len() == non_release.len());
    assert(latest.deep_view().len() == latest.len());
    assert(proofs.deep_view().len() == proofs.len());
    let blocked = if chain { release_failures.len() > 0 } else { artifact_failures.len() > 0 };
    let stage_name = proof_stage(&l);
    let readiness = if blocked {
        "artifact_integrity_failed"
    } else if coherence_failures.len() > 0 {
        "proof_identity_mismatch"
    } else if chain && non_release.len() > 0 {
        "non_release_evidence_source"
    } else {
        stage_name
    };
    let loop_is_ready = chain && every_level_verified(&latest, true) && release_failures.len() == 0
        && coherence_failures.len() == 0;
    let all_latest = latest.len() > 0 && every_level_verified(&latest, false);
    let steps = client_binding_next_steps(
        &l,
        blocked,
        coherence_failures.len() > 0,
        non_release.len() > 0,
    );
    let flow = client_binding_status_operator_flow(client.as_str(), proofs, &latest, host);
    let mut latest_proof_id: Option<i64> = None;
    let mut latest_proof_level: Option<ClientBindingProofLevel> = None;
    let mut latest_observed_at_ns: Option<i64> = None;
    if proofs.len() > 0 {
        assert(proofs.deep_view()[0] == proofs[0].deep_view());
        latest_proof_id = Some(proofs[0].id);
        latest_proof_level = Some(proofs[0].proof_level);
        latest_observed_at_ns = Some(proofs[0].observed_at_ns);
    }
    ClientBindingReadinessStatus {
        client,
        proof_stage: stage_name.to_string(),
        readiness: readiness.to_string(),
        ready_for_private_client_claim: loop_is_ready && non_release.len() == 0,
        has_reference_binding: l.reference,
        has_observed_event_file: l.event_file,
        has_observed_app_hook: l.app_hook,
        has_observed_in_client_render: l.render,
        has_observed_review_action: l.review_action,
        ready_for_client_operator_loop: loop_is_ready,
        latest_proof_id,
        latest_proof_level,
        latest_observed_at_ns,
        latest_by_level: latest,
        all_latest_artifacts_verified: all_latest,
        artifact_failures,
        coherence_failures,
        non_release_evidence_sources: non_release,
        next_steps: steps,
        operator_flow: flow,
    }
}

// ---------------------------------------------------------------------------
// Client by client
// ---------------------------------------------------------------------------

/// `a` was observed before `b`, or at the same time and recorded before.
pub open spec fn is_older(
    a: StoredClientBindingProofView,
    b: StoredClientBindingProofView,
) -> bool {
    a.observed_at_ns < b.observed_at_ns || (a.observed_at_ns == b.observed_at_ns && a.id < b.id)
}

/// The list, newest first, with one more proof: before the first that is older.
pub open spec fn inserted_newest(
    list: Seq<StoredClientBindingProofView>,
    p: StoredClientBindingProofView,
) -> Seq<StoredClientBindingProofView>
    decreases list.len(),
{
    if list.len() == 0 {
        seq![p]
    } else if is_older(list[0], p) {
        seq![p] + list
    } else {
        seq![list[0]] + inserted_newest(list.skip(1), p)
    }
}

/// The proofs of a client, newest first.
pub open spec fn newest_first(proofs: Seq<StoredClientBindingProofView>, client: Seq<char>) -> Seq<
    StoredClientBindingProofView,
>
    decreases proofs.len(),
{
    if proofs.len() == 0 {
        Seq::empty()
    } else {
        let front = newest_first(proofs.drop_last(), client);
        if proofs.last().client == client {
            inserted_newest(front, proofs.last())
        } else {
            front
        }
    }
}

proof fn lemma_inserted_newest(
    list: Seq<StoredClientBindingProofView>,
    p: StoredClientBindingProofView,
    k: int,
)
    requires
        0 <= k <= list.len(),
        forall|i: int| 0 <= i < k ==> !is_older(#[trigger] list[i], p),
        k < list.len() ==> is_older(list[k], p),
    ensures
        inserted_newest(list, p) == list.insert(k, p),
    decreases k,
{
    if k == 0 {
        assert(seq![p] + list =~= list.insert(0, p));
    } else {
        let t = list.skip(1);
        assert forall|i: int| 0 <= i < k - 1 implies !is_older(#[trigger] t[i], p) by {
            assert(t[i] == list[i + 1]);
        }
        assert(!is_older(list[0], p));
        if k < list.len() {
            assert(t[k - 1] == list[k]);
        }
        lemma_inserted_newest(t, p, k - 1);
        assert(seq![list[0]] + t.insert(k - 1, p) =~= list.insert(k, p));
    }
}

fn older(a: &StoredClientBindingProof, b: &StoredClientBindingProof) -> (r: bool)
    ensures
        r == is_older(a.deep_view(), b.deep_view()),
{
    a.observed_at_ns < b.observed_at_ns || (a.observed_at_ns == b.observed_at_ns && a.id < b.id)
}

/// The proofs of a client, newest first.
pub fn proofs_newest_first<'a>(proofs: &'a Vec<StoredClientBindingProof>, client: &str) -> (r: Vec<
    &'a StoredClientBindingProof,
>)
    ensures
        r.deep_view() == newest_first(proofs.deep_view(), client@),
{
    let ghost all = proofs.deep_view();
    let mut out: Vec<&'a StoredClientBindingProof> = Vec::new();
    assert(out.deep_view() =~= Seq::empty());
    let mut i: usize = 0;
    while i < proofs.len()
        invariant
            i <= proofs.len(),
            all == proofs.deep_view(),
            out.deep_view() == newest_first(all.take(i as int), client@),
        decreases proofs.len() - i,
    {
        assert(all.take(i + 1).drop_last() =~= all.take(i as int));
        assert(all.take(i + 1).last() == proofs[i as int].deep_view());
        let p = &proofs[i];
        if same(p.client.as_str(), client) {
            let ghost list = out.deep_view();
            let mut k: usize = 0;
            while k < out.len() && !older(out[k], p)
                invariant
                    k <= out.len(),
                    list == out.deep_view(),
                    forall|j: int|
                        0 <= j < k ==> !is_older(#[trigger] list[j], p.deep_view()),
                decreases out.len() - k,
            {
                assert(list[k as int] == out[k as int].deep_view());
                k = k + 1;
            }
            proof {
                if k < out.len() {
                    assert(list[k as int] == out[k as int].deep_view());
                }
                lemma_inserted_newest(list, p.deep_view(), k as int);
            }
            out.insert(k, p);
            assert(out.deep_view() =~= list.insert(k as int, p.deep_view()));
        }
        i = i + 1;
    }
    assert(all.take(i as int) =~= all);
    out
}

pub open spec fn clients_in(proofs: Seq<StoredClientBindingProofView>) -> Seq<Seq<char>> {
    Seq::new(proofs.len(), |i: int| proofs[i].client)
}

fn find_clients(proofs: &Vec<StoredClientBindingProof>) -> (r: Vec<String>)
    ensures
        r.deep_view() == ordered_set(clients_in(proofs.deep_view())),
{
    let mut names: Vec<String> = none();
    let mut i: usize = 0;
    while i < proofs.len()
        invariant
            i <= proofs.len(),
            names.deep_view() =~= clients_in(proofs.deep_view()).take(i as int),
        decreases proofs.len() - i,
    {
        assert(proofs.deep_view()[i as int] == proofs[i as int].deep_view());
        names = with(names, proofs[i].client.clone());
        i = i + 1;
    }
    assert(clients_in(proofs.deep_view()).take(i as int) =~= clients_in(proofs.deep_view()));
    sorted(&names)
}

/// The status of each client that has a proof, in the order of their names.
pub open spec fn client_statuses(
    proofs: Seq<StoredClientBindingProofView>,
    files: Seq<ObservedFileView>,
    host: HostView,
) -> Seq<ClientBindingReadinessStatusView> {
    let clients = ordered_set(clients_in(proofs));
    Seq::new(
        clients.len(),
        |i: int| client_status(clients[i], newest_first(proofs, clients[i]), files, host),
    )
}

pub fn client_binding_readiness_statuses(
    proofs: &Vec<StoredClientBindingProof>,
    files: &Vec<ObservedFile>,
    host: &Host,
) -> (r: Vec<ClientBindingReadinessStatus>)
    ensures
        r.deep_view() == client_statuses(proofs.deep_view(), files.deep_view(), host.deep_view()),
{
    let clients = find_clients(proofs);
    let ghost want = client_statuses(proofs.deep_view(), files.deep_view(), host.deep_view());
    let mut out: Vec<ClientBindingReadinessStatus> = none();
    let mut i: usize = 0;
    while i < clients.len()
        invariant
            i <= clients.len(),
            clients.deep_view() == ordered_set(clients_in(proofs.deep_view())),
            want == client_statuses(proofs.deep_view(), files.deep_view(), host.deep_view()),
            out.deep_view() =~= want.take(i as int),
        decreases clients.len() - i,
    {
        let mine = proofs_newest_first(proofs, clients[i].as_str());
        assert(clients.deep_view()[i as int] == clients[i as int]@);
        out = with(out, readiness_status_for_client(clients[i].clone(), &mine, files, host));
        i = i + 1;
    }
    assert(want.take(i as int) =~= want);
    out
}

pub const STATUS_BOUNDARY: &'static str =
    "client_binding_status_is_read_only: derives readiness from stored proof rows and artifact replay only; append-only event_jsonl growth is verified by recorded prefix fingerprint, while other artifacts require exact byte length and fingerprint; records no proof row, creates no verification event, promotes no cloud draft, applies no proposal, and does not prove private app installation beyond existing ledger evidence";

/// Every client that has a proof has all its evidence files verified, and there is one.
pub open spec fn statuses_verified(statuses: Seq<ClientBindingReadinessStatusView>) -> bool {
    statuses.len() > 0 && forall|i: int|
        0 <= i < statuses.len() ==> (#[trigger] statuses[i]).all_latest_artifacts_verified
}

pub open spec fn status_report(
    client: Option<Seq<char>>,
    proof_id: Option<i64>,
    limit: usize,
    proofs: Seq<StoredClientBindingProofView>,
    files: Seq<ObservedFileView>,
    host: HostView,
) -> AdapterBindingProofStatusOutcomeView {
    let statuses = client_statuses(proofs, files, host);
    AdapterBindingProofStatusOutcomeView {
        client,
        proof_id,
        limit,
        proofs_found: proofs.len() as usize,
        client_count: statuses.len() as usize,
        all_latest_artifacts_verified: statuses_verified(statuses),
        trust_boundary: STATUS_BOUNDARY@,
        clients: statuses,
    }
}

fn every_status_verified(statuses: &Vec<ClientBindingReadinessStatus>) -> (r: bool)
    ensures
        r == statuses_verified(statuses.deep_view()),
{
    assert(statuses.deep_view().len() == statuses.len());
    if statuses.len() == 0 {
        return false;
    }
    let mut i: usize = 0;
    while i < statuses.len()
        invariant
            i <= statuses.len(),
            statuses.deep_view().len() == statuses.len(),
            forall|j: int|
                0 <= j < i ==> (#[trigger] statuses.deep_view()[j]).all_latest_artifacts_verified,
        decreases statuses.len() - i,
    {
        assert(statuses.deep_view()[i as int].all_latest_artifacts_verified
            == statuses[i as int].all_latest_artifacts_verified);
        if !statuses[i].all_latest_artifacts_verified {
            return false;
        }
        i = i + 1;
    }
    true
}

/// How far the proofs go, client by client.
pub fn build_client_binding_status_report(
    client: Option<String>,
    proof_id: Option<i64>,
    limit: usize,
    proofs: &Vec<StoredClientBindingProof>,
    files: &Vec<ObservedFile>,
    host: &Host,
) -> (r: AdapterBindingProofStatusOutcome)
    ensures
        r.deep_view() == status_report(
            client.deep_view(),
            proof_id,
            limit,
            proofs.deep_view(),
            files.deep_view(),
            host.deep_view(),
        ),
{
    let clients = client_binding_readiness_statuses(proofs, files, host);
    let verified = every_status_verified(&clients);
    assert(clients.deep_view().len() == clients.len());
    assert(proofs.deep_view().len() == proofs.len());
    AdapterBindingProofStatusOutcome {
        client,
        proof_id,
        limit,
        proofs_found: proofs.len(),
        client_count: clients.len(),
        all_latest_artifacts_verified: verified,
        trust_boundary: STATUS_BOUNDARY.to_string(),
        clients,
    }
}

/// The proofs of a client, where one is asked for.
pub open spec fn of_client(
    proofs: Seq<StoredClientBindingProofView>,
    client: Option<Seq<char>>,
) -> Seq<StoredClientBindingProofView>
    decreases proofs.len(),
{
    if proofs.len() == 0 {
        Seq::empty()
    } else {
        let front = of_client(proofs.drop_last(), client);
        if client is None || proofs.last().client == client->0 {
            front.push(proofs.last())
        } else {
            front
        }
    }
}

fn select_client(
    proofs: &Vec<StoredClientBindingProof>,
    client: &Option<String>,
) -> (r: Vec<StoredClientBindingProof>)
    ensures
        r.deep_view() == of_client(proofs.deep_view(), client.deep_view()),
{
    let ghost all = proofs.deep_view();
    let mut out: Vec<StoredClientBindingProof> = none();
    let mut i: usize = 0;
    while i < proofs.len()
        invariant
            i <= proofs.len(),
            all == proofs.deep_view(),
            out.deep_view() == of_client(all.take(i as int), client.deep_view()),
        decreases proofs.len() - i,
    {
        assert(all.take(i + 1).drop_last() =~= all.take(i as int));
        assert(all.take(i + 1).last() == proofs[i as int].deep_view());
        let wanted = match client {
            Some(c) => same(proofs[i].client.as_str(), c.as_str()),
            None => true,
        };
        if wanted {
            out = with(out, proofs[i].dup());
        }
        i = i + 1;
    }
    assert(all.take(i as int) =~= all);
    out
}

/// How far the proofs that the store gave go.
pub fn run_status_blocking(
    args: &AdapterBindingProofArgs,
    stored: Result<Vec<StoredClientBindingProof>, StorageError>,
    files: &Vec<ObservedFile>,
    host: &Host,
) -> (r: Result<AdapterBindingProofStatusOutcome, AdapterBindingProofError>)
    ensures
        outcome(r) == match stored_proofs(stored) {
            Ok(proofs) => Ok(
                status_report(
                    requested(args.deep_view().client),
                    args.proof_id,
                    clamped(args.limit),
                    of_client(proofs, requested(args.deep_view().client)),
                    files.deep_view(),
                    host.deep_view(),
                ),
            ),
            Err(f) => Err(f),
        },
{
    let stored = match stored {
        Ok(p) => p,
        Err(e) => return Err(AdapterBindingProofError::Storage(e)),
    };
    let client = requested_client(borrowed(&args.client));
    let proofs = select_client(&stored, &client);
    Ok(
        build_client_binding_status_report(
            client,
            args.proof_id,
            clamp_limit(args.limit),
            &proofs,
            files,
            host,
        ),
    )
}

// ---------------------------------------------------------------------------
// Laws
// ---------------------------------------------------------------------------

proof fn lemma_first_of_level(
    proofs: Seq<StoredClientBindingProofView>,
    level: ClientBindingProofLevel,
)
    ensures
        first_of_level(proofs, level) matches Some(p) ==> p.proof_level == level,
    decreases proofs.len(),
{
    if proofs.len() > 0 && proofs[0].proof_level != level {
        lemma_first_of_level(proofs.skip(1), level);
    }
}

proof fn lemma_entry_push(
    list: Seq<ClientBindingLatestProofStatusView>,
    x: ClientBindingLatestProofStatusView,
    level: ClientBindingProofLevel,
)
    ensures
        entry(list.push(x), level) == (if entry(list, level) is Some {
            entry(list, level)
        } else if x.proof_level == level {
            Some(x)
        } else {
            None
        }),
    decreases list.len(),
{
    if list.len() == 0 {
        assert(list.push(x)[0] == x);
        assert(list.push(x).skip(1) =~= Seq::empty());
    } else {
        assert(list.push(x)[0] == list[0]);
        assert(list.push(x).skip(1) =~= list.skip(1).push(x));
        lemma_entry_push(list.skip(1), x, level);
    }
}

proof fn lemma_add_latest(
    list: Seq<ClientBindingLatestProofStatusView>,
    proofs: Seq<StoredClientBindingProofView>,
    added: ClientBindingProofLevel,
    files: Seq<ObservedFileView>,
    level: ClientBindingProofLevel,
)
    requires
        entry(list, added) is None,
    ensures
        entry(add_latest(list, proofs, added, files), level) == (if added == level {
            latest_entry(proofs, files, level)
        } else {
            entry(list, level)
        }),
{
    lemma_first_of_level(proofs, added);
    match first_of_level(proofs, added) {
        Some(p) => {
            lemma_entry_push(list, latest_of(p, files), level);
        },
        None => {},
    }
}

/// The latest proof of a level, where there is one.
pub open spec fn latest_entry(
    proofs: Seq<StoredClientBindingProofView>,
    files: Seq<ObservedFileView>,
    level: ClientBindingProofLevel,
) -> Option<ClientBindingLatestProofStatusView> {
    match first_of_level(proofs, level) {
        Some(p) => Some(latest_of(p, files)),
        None => None,
    }
}

/// The entry of a level is that of its newest proof.
pub proof fn law_entry_is_newest_proof(
    proofs: Seq<StoredClientBindingProofView>,
    files: Seq<ObservedFileView>,
    level: ClientBindingProofLevel,
)
    ensures
        entry(latest_levels(proofs, files), level) == latest_entry(proofs, files, level),
{
    let l0 = Seq::<ClientBindingLatestProofStatusView>::empty();
    let l1 = ClientBindingProofLevel::ObservedAppHook;
    let l2 = ClientBindingProofLevel::ObservedEventFile;
    let l3 = ClientBindingProofLevel::ObservedInClientRender;
    let l4 = ClientBindingProofLevel::ObservedReviewAction;
    let l5 = ClientBindingProofLevel::ReferenceBinding;
    let a = add_latest(l0, proofs, l1, files);
    let b = add_latest(a, proofs, l2, files);
    let c = add_latest(b, proofs, l3, files);
    let d = add_latest(c, proofs, l4, files);
    assert forall|l: ClientBindingProofLevel| #[trigger]
        entry(a, l) == (if l == l1 {
            latest_entry(proofs, files, l)
        } else {
            None
        }) by {
        lemma_add_latest(l0, proofs, l1, files, l);
    }
    assert forall|l: ClientBindingProofLevel| #[trigger]
        entry(b, l) == (if l == l1 || l == l2 {
            latest_entry(proofs, files, l)
        } else {
            None
        }) by {
        lemma_add_latest(a, proofs, l2, files, l);
    }
    assert forall|l: ClientBindingProofLevel| #[trigger]
        entry(c, l) == (if l == l1 || l == l2 || l == l3 {
            latest_entry(proofs, files, l)
        } else {
            None
        }) by {
        lemma_add_latest(b, proofs, l3, files, l);
    }
    assert forall|l: ClientBindingProofLevel| #[trigger]
        entry(d, l) == (if l == l5 {
            None
        } else {
            latest_entry(proofs, files, l)
        }) by {
        lemma_add_latest(c, proofs, l4, files, l);
    }
    lemma_add_latest(d, proofs, l5, files, level);
}

proof fn lemma_entry_stands(
    latest: Seq<ClientBindingLatestProofStatusView>,
    level: ClientBindingProofLevel,
)
    requires
        entry(latest, level) is Some,
    ensures
        exists|i: int|
            0 <= i < latest.len() && #[trigger] latest[i] == entry(latest, level)->0
                && latest[i].proof_level == level,
    decreases latest.len(),
{
    if latest[0].proof_level != level {
        let t = latest.skip(1);
        lemma_entry_stands(t, level);
        let i = choose|i: int|
            0 <= i < t.len() && #[trigger] t[i] == entry(t, level)->0 && t[i].proof_level == level;
        assert(latest[i + 1] == t[i]);
    }
}

proof fn lemma_non_release(latest: Seq<ClientBindingLatestProofStatusView>, i: int)
    requires
        0 <= i < latest.len(),
        is_release_level(latest[i].proof_level),
        non_release_sources(latest).len() == 0,
    ensures
        release_fault(
            latest[i].evidence_source,
            latest[i].operator_confirmed_release_grade_evidence,
        ) is None,
    decreases latest.len(),
{
    if i < latest.len() - 1 {
        assert(latest.drop_last()[i] == latest[i]);
        lemma_non_release(latest.drop_last(), i);
    }
}

/// A claim of readiness rests, at each of the three levels, on a proof whose evidence
/// files are all verified and whose evidence counts for a release.
pub proof fn law_claim_rests_on_verified_proofs(
    proofs: Seq<StoredClientBindingProofView>,
    files: Seq<ObservedFileView>,
    level: ClientBindingProofLevel,
)
    requires
        is_release_level(level),
        claim_ready(latest_levels(proofs, files)),
    ensures
        first_of_level(proofs, level) matches Some(p) && verification(
            p,
            files,
        ).all_artifacts_verified && release_fault(
            p.evidence_source,
            latest_of(p, files).operator_confirmed_release_grade_evidence,
        ) is None,
{
    let latest = latest_levels(proofs, files);
    law_entry_is_newest_proof(proofs, files, level);
    lemma_entry_stands(latest, level);
    let i = choose|i: int|
        0 <= i < latest.len() && #[trigger] latest[i] == entry(latest, level)->0
            && latest[i].proof_level == level;
    lemma_non_release(latest, i);
    assert(latest[i].all_artifacts_verified);
}

/// The three proofs that a claim of readiness rests on were made with one installed
/// configuration: the same fingerprint and the same nonce.
pub proof fn law_claim_rests_on_one_config(latest: Seq<ClientBindingLatestProofStatusView>)
    requires
        claim_ready(latest),
    ensures
        ({
            let h = entry(latest, ClientBindingProofLevel::ObservedAppHook)->0;
            let r = entry(latest, ClientBindingProofLevel::ObservedInClientRender)->0;
            let a = entry(latest, ClientBindingProofLevel::ObservedReviewAction)->0;
            &&& h.installed_config_fingerprint is Some
            &&& h.installed_config_fingerprint == r.installed_config_fingerprint
            &&& r.installed_config_fingerprint == a.installed_config_fingerprint
            &&& h.installed_config_binding_nonce is Some
            &&& h.installed_config_binding_nonce == r.installed_config_binding_nonce
            &&& r.installed_config_binding_nonce == a.installed_config_binding_nonce
        }),
{
}

/// The list of a client's proofs stands with the newest first.
pub proof fn law_newest_first_is_ordered(
    proofs: Seq<StoredClientBindingProofView>,
    client: Seq<char>,
    i: int,
    j: int,
)
    requires
        0 <= i < j < newest_first(proofs, client).len(),
    ensures
        !is_older(newest_first(proofs, client)[i], newest_first(proofs, client)[j]),
    decreases proofs.len(),
{
    if proofs.len() > 0 {
        let front = newest_first(proofs.drop_last(), client);
        assert forall|a: int, b: int| 0 <= a < b < front.len() implies !is_older(
            #[trigger] front[a],
            #[trigger] front[b],
        ) by {
            law_newest_first_is_ordered(proofs.drop_last(), client, a, b);
        }
        if proofs.last().client == client {
            lemma_insert_keeps_order(front, proofs.last(), i, j);
        }
    }
}

proof fn lemma_inserted_elements(
    list: Seq<StoredClientBindingProofView>,
    p: StoredClientBindingProofView,
)
    ensures
        inserted_newest(list, p).len() == list.len() + 1,
        forall|i: int|
            0 <= i < list.len() + 1 ==> #[trigger] inserted_newest(list, p)[i] == p
                || exists|k: int|
                0 <= k < list.len() && list[k] == inserted_newest(list, p)[i],
    decreases list.len(),
{
    if list.len() > 0 {
        if is_older(list[0], p) {
            assert forall|i: int| 0 <= i < list.len() + 1 implies #[trigger] inserted_newest(
                list,
                p,
            )[i] == p || exists|k: int|
                0 <= k < list.len() && list[k] == inserted_newest(list, p)[i] by {
                if i > 0 {
                    assert(list[i - 1] == inserted_newest(list, p)[i]);
                }
            }
        } else {
            let t = list.skip(1);
            lemma_inserted_elements(t, p);
            assert forall|i: int| 0 <= i < list.len() + 1 implies #[trigger] inserted_newest(
                list,
                p,
            )[i] == p || exists|k: int|
                0 <= k < list.len() && list[k] == inserted_newest(list, p)[i] by {
                if i == 0 {
                    assert(list[0] == inserted_newest(list, p)[0]);
                } else {
                    let y = inserted_newest(t, p)[i - 1];
                    if y != p {
                        let k = choose|k: int| 0 <= k < t.len() && t[k] == y;
                        assert(list[k + 1] == y);
                    }
                }
            }
        }
    }
}

proof fn lemma_insert_keeps_order(
    list: Seq<StoredClientBindingProofView>,
    p: StoredClientBindingProofView,
    i: int,
    j: int,
)
    requires
        forall|a: int, b: int|
            0 <= a < b < list.len() ==> !is_older(#[trigger] list[a], #[trigger] list[b]),
        0 <= i < j < inserted_newest(list, p).len(),
    ensures
        !is_older(inserted_newest(list, p)[i], inserted_newest(list, p)[j]),
    decreases list.len(),
{
    lemma_inserted_elements(list, p);
    if list.len() > 0 {
        if is_older(list[0], p) {
            if i == 0 {
                if j >= 2 {
                    assert(!is_older(list[0], list[j - 1]));
                }
                assert(inserted_newest(list, p)[j] == list[j - 1]);
            } else {
                assert(!is_older(list[i - 1], list[j - 1]));
            }
        } else {
            let t = list.skip(1);
            assert forall|a: int, b: int| 0 <= a < b < t.len() implies !is_older(
                #[trigger] t[a],
                #[trigger] t[b],
            ) by {
                assert(!is_older(list[a + 1], list[b + 1]));
            }
            lemma_inserted_elements(t, p);
            if i > 0 {
                lemma_insert_keeps_order(t, p, i - 1, j - 1);
            } else {
                let y = inserted_newest(t, p)[j - 1];
                assert(inserted_newest(list, p)[j] == y);
                if y != p {
                    let k = choose|k: int| 0 <= k < t.len() && t[k] == y;
                    assert(!is_older(list[0], list[k + 1]));
                }
            }
        }
    }
}

}
