//! What holds of the readiness of every client, word by word.
use super::artifacts::{checked, found_at, is_verified, proof_checks, record_text, scan_record};
use super::config::{add_if, lemma_add_if};
use super::readiness::{
    blocking_failures, claim_ready, client_status, coherence_faults, first_marker, is_chain,
    latest_levels, latest_of, levels_of, loop_ready, next_steps, non_release_markers,
    non_release_sources, observation_markers, of_client, plain_source, readiness_word,
    release_fault, source_fault, stage, Levels, RECORD_ACTION_STEP, RECORD_APP_HOOK_STEP,
    RECORD_RENDER_STEP, RELEASE_GRADE_STEP, SAME_CONFIG_STEP,
};
use super::types::{
    ClientBindingLatestProofStatusView, EvidenceArtifactStatus, HostView, ObservedFileView,
};
use crate::fingerprint::fingerprint;
use crate::json::{as_bool, as_text, as_u64, at, get, JsonView};
use crate::outcome::trimmed_nonblank;
use crate::storage::StoredClientBindingProofView;
use crate::text::{contains, lowered, nil, replaced, trimmed};
use vstd::prelude::*;
use vstd::string::*;

verus! {

// ---------------------------------------------------------------------------
// Sources of evidence
// ---------------------------------------------------------------------------

proof fn lemma_first_marker(text: Seq<char>, markers: Seq<Seq<char>>)
    ensures
        first_marker(text, markers) is None <==> forall|i: int|
            0 <= i < markers.len() ==> !contains(text, #[trigger] markers[i]),
    decreases markers.len(),
{
    if markers.len() > 0 {
        let front = markers.drop_last();
        lemma_first_marker(text, front);
        assert(markers.last() == markers[markers.len() - 1]);
        if first_marker(text, markers) is None {
            assert forall|i: int| 0 <= i < markers.len() implies !contains(
                text,
                #[trigger] markers[i],
            ) by {
                if i < front.len() {
                    assert(front[i] == markers[i]);
                }
            }
        }
        if forall|i: int| 0 <= i < markers.len() ==> !contains(text, #[trigger] markers[i]) {
            assert forall|i: int| 0 <= i < front.len() implies !contains(
                text,
                #[trigger] front[i],
            ) by {
                assert(front[i] == markers[i]);
            }
            assert(!contains(text, markers[markers.len() - 1]));
        }
    }
}

/// A source of evidence is of release grade iff its name speaks of a private client and of
/// an observation, by hand or at run time, holds no word for a test of any kind, and the
/// operator confirmed it. Names are compared in lower case, with underscores.
pub proof fn law_release_sources_speak_of_private_clients(source: Seq<char>, confirmed: bool)
    ensures
        ({
            let n = replaced(replaced(lowered(trimmed(source)), '-', '_'), ' ', '_');
            let observed = contains(n, "manual"@) || contains(n, "operator"@) || contains(
                n,
                "observation"@,
            ) || contains(n, "observed"@) || contains(n, "runtime"@) || contains(
                n,
                "client_capture"@,
            );
            let tested = contains(n, "test"@) || contains(n, "smoke"@) || contains(n, "eval"@)
                || contains(n, "fixture"@) || contains(n, "synthetic"@) || contains(n, "mock"@)
                || contains(n, "sample"@) || contains(n, "mcp_server"@) || contains(
                n,
                "storage_test"@,
            ) || contains(n, "client_integration_eval"@);
            &&& source_fault(source) is None <==> n.len() > 0 && contains(n, "private_client"@)
                && observed && !tested
            &&& release_fault(source, confirmed) is None <==> source_fault(source) is None
                && confirmed
        }),
{
    let n = plain_source(source);
    let a = non_release_markers();
    let b = observation_markers();
    lemma_first_marker(n, a);
    lemma_first_marker(n, b);
    assert(a.len() == 10 && b.len() == 6);
    assert(a[0] == "test"@ && a[1] == "smoke"@ && a[2] == "eval"@ && a[3] == "fixture"@ && a[4]
        == "synthetic"@ && a[5] == "mock"@ && a[6] == "sample"@ && a[7] == "mcp_server"@ && a[8]
        == "storage_test"@ && a[9] == "client_integration_eval"@);
    assert(b[0] == "manual"@ && b[1] == "operator"@ && b[2] == "observation"@ && b[3]
        == "observed"@ && b[4] == "runtime"@ && b[5] == "client_capture"@);
    if first_marker(n, b) is Some {
        let i = choose|i: int| 0 <= i < b.len() && contains(n, #[trigger] b[i]);
        assert(i == 0 || i == 1 || i == 2 || i == 3 || i == 4 || i == 5);
    }
    if first_marker(n, a) is Some {
        let i = choose|i: int| 0 <= i < a.len() && contains(n, #[trigger] a[i]);
        assert(i == 0 || i == 1 || i == 2 || i == 3 || i == 4 || i == 5 || i == 6 || i == 7 || i
            == 8 || i == 9);
    }
}

// ---------------------------------------------------------------------------
// Stages
// ---------------------------------------------------------------------------

/// The stage of a client is told by the levels that are stored of it: the three strongest
/// together first, a review action without them as incomplete, a render without a hook as
/// such, and the weaker levels only where nothing stronger is there.
pub proof fn law_stages_are_told_by_levels(l: Levels)
    ensures
        l.app_hook && l.render && l.review_action ==> stage(l)
            == "real_app_hook_in_client_render_and_review_action_observed"@,
        l.app_hook && l.render && !l.review_action ==> stage(l)
            == "real_app_hook_and_in_client_render_observed"@,
        l.review_action && !(l.app_hook && l.render) ==> stage(l)
            == "review_action_observed_without_complete_client_binding"@,
        l.render && !l.app_hook && !l.review_action ==> stage(l)
            == "in_client_render_observed_without_app_hook"@,
        l.app_hook && !l.render && !l.review_action ==> stage(l) == "real_app_hook_observed"@,
        !l.app_hook && !l.render && !l.review_action && l.event_file ==> stage(l)
            == "event_file_observed_only"@,
        !l.app_hook && !l.render && !l.review_action && !l.event_file && l.reference ==> stage(l)
            == "reference_binding_only"@,
        !l.app_hook && !l.render && !l.review_action && !l.event_file && !l.reference ==> stage(l)
            == "no_proof_rows"@,
{
}

/// A client is ready for the operator's loop only with all three levels, intact files and
/// one configuration; for the claim also its sources must be of release grade. What stands
/// in the way is told first: failed files, then differing configurations, then sources.
pub proof fn law_readiness_tells_what_is_in_the_way(
    latest: Seq<ClientBindingLatestProofStatusView>,
)
    ensures
        claim_ready(latest) <==> loop_ready(latest) && non_release_sources(latest).len() == 0,
        loop_ready(latest) ==> coherence_faults(latest).len() == 0 && levels_of(latest).app_hook
            && levels_of(latest).render && levels_of(latest).review_action,
        blocking_failures(latest).len() > 0 ==> readiness_word(latest)
            == "artifact_integrity_failed"@,
        blocking_failures(latest).len() == 0 && coherence_faults(latest).len() > 0
            ==> readiness_word(latest) == "proof_identity_mismatch"@,
        blocking_failures(latest).len() == 0 && coherence_faults(latest).len() == 0 && is_chain(
            levels_of(latest),
        ) && non_release_sources(latest).len() > 0 ==> readiness_word(latest)
            == "non_release_evidence_source"@,
        claim_ready(latest) ==> readiness_word(latest)
            == "real_app_hook_in_client_render_and_review_action_observed"@,
{
}

/// What is to be done next follows from what is missing: a level that is missing is to be
/// recorded, a review action only once there is a render; the weaker levels only while there
/// is nothing stronger; and what failed is to be mended.
pub proof fn law_next_steps_fill_what_is_missing(
    l: Levels,
    failures: bool,
    incoherent: bool,
    non_release: bool,
)
    ensures
        ({
            let s = next_steps(l, failures, incoherent, non_release);
            &&& s.contains("refresh_or_replay_changed_evidence_artifacts"@) <==> failures
            &&& s.contains("record_reference_binding_manifest"@) <==> !l.reference && !l.event_file
                && !l.app_hook
            &&& s.contains("record_observed_event_file_from_wrapper_or_spool"@) <==> !l.event_file
                && !l.app_hook
            &&& s.contains(
                "record_observed_app_hook_with_installed_config_private_event_source_binding_nonce_and_operator_confirmation"@,
            ) <==> !l.app_hook
            &&& s.contains(
                "record_observed_in_client_render_with_review_render_report_render_evidence_and_operator_confirmation"@,
            ) <==> !l.render
            &&& s.contains(
                "record_observed_review_action_with_rendered_control_id_and_storage_gated_review_action_report"@,
            ) <==> l.render && !l.review_action
            &&& s.contains(
                "record_observed_app_hook_and_observed_in_client_render_from_same_installed_config_artifact"@,
            ) <==> incoherent
            &&& s.contains(
                "re_record_app_hook_render_and_review_action_with_release_grade_private_client_evidence_source"@,
            ) <==> non_release
        }),
{
    lemma_step_words();
    lemma_next_steps(
        l,
        failures,
        incoherent,
        non_release,
        "refresh_or_replay_changed_evidence_artifacts"@,
    );
    lemma_next_steps(l, failures, incoherent, non_release, "record_reference_binding_manifest"@);
    lemma_next_steps(
        l,
        failures,
        incoherent,
        non_release,
        "record_observed_event_file_from_wrapper_or_spool"@,
    );
    lemma_next_steps(l, failures, incoherent, non_release, RECORD_APP_HOOK_STEP@);
    lemma_next_steps(l, failures, incoherent, non_release, RECORD_RENDER_STEP@);
    lemma_next_steps(l, failures, incoherent, non_release, RECORD_ACTION_STEP@);
    lemma_next_steps(l, failures, incoherent, non_release, SAME_CONFIG_STEP@);
    lemma_next_steps(l, failures, incoherent, non_release, RELEASE_GRADE_STEP@);
}

proof fn lemma_step_words()
    ensures
        "refresh_or_replay_changed_evidence_artifacts"@.len() == 44,
        "record_reference_binding_manifest"@.len() == 33,
        "record_observed_event_file_from_wrapper_or_spool"@.len() == 48,
        RECORD_APP_HOOK_STEP@.len() == 107,
        RECORD_RENDER_STEP@.len() == 100,
        RECORD_ACTION_STEP@.len() == 93,
        SAME_CONFIG_STEP@.len() == 90,
        RELEASE_GRADE_STEP@.len() == 93,
        RECORD_ACTION_STEP@[2] == 'c',
        RELEASE_GRADE_STEP@[2] == '_',
{
    reveal_strlit("refresh_or_replay_changed_evidence_artifacts");
    reveal_strlit("record_reference_binding_manifest");
    reveal_strlit("record_observed_event_file_from_wrapper_or_spool");
    reveal_strlit(
        "record_observed_app_hook_with_installed_config_private_event_source_binding_nonce_and_operator_confirmation",
    );
    reveal_strlit(
        "record_observed_in_client_render_with_review_render_report_render_evidence_and_operator_confirmation",
    );
    reveal_strlit(
        "record_observed_review_action_with_rendered_control_id_and_storage_gated_review_action_report",
    );
    reveal_strlit(
        "record_observed_app_hook_and_observed_in_client_render_from_same_installed_config_artifact",
    );
    reveal_strlit(
        "re_record_app_hook_render_and_review_action_with_release_grade_private_client_evidence_source",
    );
}

proof fn lemma_next_steps(
    l: Levels,
    failures: bool,
    incoherent: bool,
    non_release: bool,
    x: Seq<char>,
)
    ensures
        next_steps(l, failures, incoherent, non_release).contains(x) <==> {
            ||| failures && x == "refresh_or_replay_changed_evidence_artifacts"@
            ||| incoherent && x == SAME_CONFIG_STEP@
            ||| non_release && x == RELEASE_GRADE_STEP@
            ||| !l.reference && !l.event_file && !l.app_hook && x
                == "record_reference_binding_manifest"@
            ||| !l.event_file && !l.app_hook && x
                == "record_observed_event_file_from_wrapper_or_spool"@
            ||| !l.app_hook && x == RECORD_APP_HOOK_STEP@
            ||| !l.render && x == RECORD_RENDER_STEP@
            ||| l.render && !l.review_action && x == RECORD_ACTION_STEP@
        },
{
    lemma_add_if(nil(), failures, "refresh_or_replay_changed_evidence_artifacts"@, x);
    let a = add_if(nil(), failures, "refresh_or_replay_changed_evidence_artifacts"@);
    lemma_add_if(a, incoherent, SAME_CONFIG_STEP@, x);
    let b = add_if(a, incoherent, SAME_CONFIG_STEP@);
    lemma_add_if(b, non_release, RELEASE_GRADE_STEP@, x);
    let c = add_if(b, non_release, RELEASE_GRADE_STEP@);
    let none = !l.reference && !l.event_file && !l.app_hook;
    lemma_add_if(c, none, "record_reference_binding_manifest"@, x);
    let d = add_if(c, none, "record_reference_binding_manifest"@);
    let no_event = !l.event_file && !l.app_hook;
    lemma_add_if(d, no_event, "record_observed_event_file_from_wrapper_or_spool"@, x);
    let e = add_if(d, no_event, "record_observed_event_file_from_wrapper_or_spool"@);
    lemma_add_if(e, !l.app_hook, RECORD_APP_HOOK_STEP@, x);
    let f = add_if(e, !l.app_hook, RECORD_APP_HOOK_STEP@);
    lemma_add_if(f, !l.render, RECORD_RENDER_STEP@, x);
    let g = add_if(f, !l.render, RECORD_RENDER_STEP@);
    lemma_add_if(g, l.render && !l.review_action, RECORD_ACTION_STEP@, x);
}

/// The status of a client tells the levels that are stored of it, each by its own flag, and
/// of its proofs the first one.
pub proof fn law_status_tells_the_stored_levels(
    client: Seq<char>,
    proofs: Seq<StoredClientBindingProofView>,
    files: Seq<ObservedFileView>,
    host: HostView,
)
    ensures
        ({
            let s = client_status(client, proofs, files, host);
            let latest = latest_levels(proofs, files);
            &&& s.client == client
            &&& s.ready_for_private_client_claim <==> claim_ready(latest)
            &&& s.ready_for_client_operator_loop <==> loop_ready(latest)
            &&& s.has_reference_binding <==> levels_of(latest).reference
            &&& s.has_observed_event_file <==> levels_of(latest).event_file
            &&& s.has_observed_app_hook <==> levels_of(latest).app_hook
            &&& s.has_observed_in_client_render <==> levels_of(latest).render
            &&& s.has_observed_review_action <==> levels_of(latest).review_action
            &&& proofs.len() > 0 ==> s.latest_proof_id == Some(proofs[0].id)
                && s.latest_proof_level == Some(proofs[0].proof_level)
                && s.latest_observed_at_ns == Some(proofs[0].observed_at_ns)
            &&& s.coherence_failures == coherence_faults(latest)
            &&& s.non_release_evidence_sources == non_release_sources(latest)
        }),
{
}

/// What is told of a proof is what was stored of it; it counts as confirmed only where the
/// stored checks say so.
pub proof fn law_latest_proof_is_the_stored_one(
    p: StoredClientBindingProofView,
    files: Seq<ObservedFileView>,
)
    ensures
        ({
            let s = latest_of(p, files);
            &&& s.proof_id == p.id
            &&& s.proof_level == p.proof_level
            &&& s.observed_at_ns == p.observed_at_ns
            &&& s.evidence_source == p.evidence_source
            &&& s.manifest_status == p.manifest_status
            &&& s.operator_confirmed_release_grade_evidence <==> as_bool(
                get(p.checks_json, "operator_confirmed_release_grade_evidence"@),
            ) == Some(true)
            &&& s.installed_config_fingerprint == trimmed_nonblank(
                as_text(at(p.checks_json, "installed_config_scan"@, "fingerprint"@)),
            )
            &&& s.installed_config_binding_nonce == trimmed_nonblank(
                as_text(at(p.checks_json, "installed_config_scan"@, "binding_nonce"@)),
            )
            &&& s.review_action_control_id == trimmed_nonblank(
                as_text(at(p.checks_json, "review_action_report_scan"@, "control_id"@)),
            )
            &&& s.artifact_checks == proof_checks(p, files)
        }),
{
}

/// The proofs of one client are all of its proofs and no others, in their order.
pub proof fn law_proofs_of_a_client(
    proofs: Seq<StoredClientBindingProofView>,
    client: Seq<char>,
    p: StoredClientBindingProofView,
)
    ensures
        of_client(proofs, Some(client)).contains(p) <==> proofs.contains(p) && p.client == client,
        of_client(proofs, None) == proofs,
    decreases proofs.len(),
{
    if proofs.len() > 0 {
        let front = proofs.drop_last();
        law_proofs_of_a_client(front, client, p);
        let f = of_client(front, Some(client));
        let all = of_client(proofs, Some(client));
        assert(front.push(proofs.last()) =~= proofs);
        if proofs.contains(p) && p.client == client {
            let i = choose|i: int| 0 <= i < proofs.len() && proofs[i] == p;
            if i < front.len() {
                assert(front[i] == p);
                assert(f.contains(p));
                let k = choose|k: int| 0 <= k < f.len() && f[k] == p;
                assert(all[k] == p);
            } else {
                assert(all[all.len() - 1] == p);
            }
        }
        if all.contains(p) {
            let k = choose|k: int| 0 <= k < all.len() && all[k] == p;
            if k < f.len() {
                assert(f[k] == p);
                assert(f.contains(p));
                let i = choose|i: int| 0 <= i < front.len() && front[i] == p;
                assert(proofs[i] == p);
            } else {
                assert(proofs[proofs.len() - 1] == p);
            }
        }
    }
}

// ---------------------------------------------------------------------------
// Evidence files
// ---------------------------------------------------------------------------

/// A file of evidence is verified only where it was read, at the recorded path or else at
/// the row's, and where its bytes have the recorded length and fingerprint; only an event
/// file may have grown, with the recorded bytes at its beginning.
pub proof fn law_verified_files_are_as_recorded(
    kind: Seq<char>,
    row_path: Option<Seq<char>>,
    scan: Option<JsonView>,
    files: Seq<ObservedFileView>,
)
    requires
        checked(kind, row_path, scan, files) is Some,
        is_verified(checked(kind, row_path, scan, files)->0.status),
    ensures
        ({
            let c = checked(kind, row_path, scan, files)->0;
            let rec = scan_record(scan)->0;
            let len = as_u64(get(rec, "byte_len"@));
            let print = record_text(scan_record(scan), "fingerprint"@);
            &&& c.kind == kind
            &&& scan_record(scan) is Some
            &&& len is Some && print is Some && c.path is Some
            &&& trimmed_nonblank(as_text(get(rec, "path"@))) is Some ==> c.path == trimmed_nonblank(
                as_text(get(rec, "path"@)),
            )
            &&& trimmed_nonblank(as_text(get(rec, "path"@))) is None ==> c.path
                == trimmed_nonblank(row_path)
            &&& found_at(files, c.path->0) matches Some(f) && f.read_error is None && {
                ||| (f.contents.len() as u64 == len->0 && fingerprint(f.contents) == print->0)
                ||| (kind == "event_jsonl"@ && f.contents.len() > len->0 && fingerprint(
                    f.contents.take(len->0 as int),
                ) == print->0)
            }
        }),
{
}

/// A file that is gone, that could not be read or that was never looked at is never
/// verified, nor is one without a record.
pub proof fn law_unread_files_are_not_verified(
    kind: Seq<char>,
    row_path: Option<Seq<char>>,
    scan: Option<JsonView>,
    files: Seq<ObservedFileView>,
)
    ensures
        checked(kind, row_path, scan, files) matches Some(c) ==> c.path matches Some(p) ==> {
            &&& found_at(files, p) is None ==> !is_verified(c.status)
            &&& found_at(files, p) matches Some(f) ==> f.read_error is Some ==> !is_verified(
                c.status,
            )
            &&& found_at(files, p) matches Some(f) ==> f.read_error is Some && f.not_found
                && c.expected_byte_len is Some && c.expected_fingerprint is Some ==> c.status
                == EvidenceArtifactStatus::MissingFile
        },
        checked(kind, row_path, scan, files) matches Some(c) ==> c.expected_byte_len is None
            || c.expected_fingerprint is None ==> !is_verified(c.status),
{
}

}
