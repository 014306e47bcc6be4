//! What holds of manifests, of configurations that are found, and of what the levels need.
use super::check::{
    best_candidate, candidate, checked_client, config_check, config_root_of, first_of_kind,
    is_of_kind, manifest_at, manifest_client, manifest_shape, manifest_source, CandidateKind,
};
use super::config::{app_hook_lacks, config_suffices, law_eligible_configs_suffice, scanned_config};
use super::disk::{canonical, file_at, DiskView};
use super::evidence::judged;
use super::kit::{
    action_artifact, artifact_of, config_artifact, event_lacks, events_artifact, evidence_artifact,
    kit_readiness, law_ready_iff_all_needs_met, report_artifact, target_artifact,
};
use super::places::{is_target_path, lifecycle_event, private_event_source, target_relpaths};
use super::types::{
    AdapterBindingInstalledConfigDiscoveryOutcomeView, AdapterBindingProofArgsView, BindingFault,
    EventScanView, FileFingerprintScanView, InstalledConfigCandidateView, InstalledConfigScanView,
    RealAppProofArtifactView, RenderEvidenceScanView, ReviewActionReportScanView,
};
use crate::json::{as_text, at, get, JsonView};
use crate::outcome::trimmed_nonblank;
use crate::storage::ClientBindingProofLevel;
use crate::text::{lowered, trimmed};
use vstd::prelude::*;
use vstd::string::*;

verus! {

// ---------------------------------------------------------------------------
// Manifests
// ---------------------------------------------------------------------------

/// A manifest is an object of the one known schema that names its three wrappers and a
/// sample event. Its client is told in lower case, and its private event source is the one
/// that it names, or else called after the client.
pub proof fn law_manifests_have_their_parts(manifest: JsonView, client: Seq<char>)
    ensures
        manifest_shape(manifest) is Ok <==> {
            &&& manifest is Object
            &&& as_text(get(manifest, "schema"@)) == Some("soma.client_binding.v1"@)
            &&& at(manifest, "lifecycle"@, "wrapper"@) is Some
            &&& at(manifest, "spool_drain"@, "wrapper"@) is Some
            &&& at(manifest, "review_ui"@, "wrapper"@) is Some
            &&& at(manifest, "lifecycle"@, "sample_event"@) is Some
        },
        as_text(get(manifest, "client"@)) matches Some(c) ==> trimmed(c).len() > 0
            ==> manifest_client(manifest) == Ok::<Seq<char>, BindingFault>(lowered(trimmed(c))),
        trimmed_nonblank(as_text(at(manifest, "lifecycle"@, "event_source"@))) matches Some(s)
            ==> manifest_source(manifest, client) == s,
        trimmed_nonblank(as_text(at(manifest, "lifecycle"@, "event_source"@))) is None
            ==> manifest_source(manifest, client) == lowered(trimmed(client))
            + "_private_lifecycle_hook"@,
{
    reveal_strlit("soma.client_binding.v1");
    let s = "soma.client_binding.v1"@;
    assert(s.len() == 22 && s[0] == 's' && s[21] == '1');
    crate::text::law_nothing_to_trim(s);
}

/// The client is the one that the flag names, trimmed and in lower case, else that of the
/// manifest that a flag names; without either there is none. Configurations are looked for
/// where the flag says, else in the home directory.
pub proof fn law_flags_name_client_and_root_first(
    args: AdapterBindingProofArgsView,
    home: Option<Seq<char>>,
    disk: DiskView,
)
    ensures
        args.client is Some && trimmed(args.client->0).len() > 0 ==> checked_client(args, disk)
            == Ok::<Seq<char>, BindingFault>(lowered(trimmed(args.client->0))),
        (args.client is None || trimmed(args.client->0).len() == 0) && args.manifest is None
            ==> checked_client(args, disk) is Err,
        (args.client is None || trimmed(args.client->0).len() == 0) && args.manifest is Some ==> (
        manifest_at(args.manifest->0, disk) matches Ok(m) ==> checked_client(args, disk)
            == manifest_client(m)),
        args.config_root is Some && trimmed(args.config_root->0).len() > 0 ==> config_root_of(
            args,
            home,
        ) == Ok::<Seq<char>, BindingFault>(trimmed(args.config_root->0)),
        (args.config_root is None || trimmed(args.config_root->0).len() == 0) && home is Some
            ==> config_root_of(args, home) == Ok::<Seq<char>, BindingFault>(home->0),
        (args.config_root is None || trimmed(args.config_root->0).len() == 0) && home is None
            ==> config_root_of(args, home) is Err,
{
}

/// A private event source is called after its client, in lower case; two clients tell of an
/// answer, every other of a finished turn.
pub proof fn law_sources_are_called_after_clients(client: Seq<char>)
    ensures
        private_event_source(client) == lowered(trimmed(client)) + "_private_lifecycle_hook"@,
        client == "continue"@ || client == "codex-app"@ ==> lifecycle_event(client)
            == "assistant_response"@,
        client != "continue"@ && client != "codex-app"@ ==> lifecycle_event(client)
            == "turn_completed"@,
{
}

// ---------------------------------------------------------------------------
// Configurations that are found
// ---------------------------------------------------------------------------

/// A configuration that is checked is eligible iff the level of the app hook would accept
/// it; the check is of the file that the flag names, for the client that was found.
pub proof fn law_checked_configs_are_eligible_iff_accepted(
    args: AdapterBindingProofArgsView,
    disk: DiskView,
)
    ensures
        config_check(args, disk) matches Ok(o) ==> {
            &&& args.installed_config is Some
            &&& o.installed_config_path == canonical(args.installed_config->0, disk)
            &&& checked_client(args, disk) == Ok::<Seq<char>, BindingFault>(o.client)
            &&& o.proof_level == ClientBindingProofLevel::ObservedAppHook
            &&& o.eligible_for_observed_app_hook <==> config_suffices(
                ClientBindingProofLevel::ObservedAppHook,
                Some(o.checks),
            ) is Ok
            &&& o.eligible_for_observed_app_hook <==> o.missing_requirements.len() == 0
        },
{
    if config_check(args, disk) is Ok {
        law_eligible_configs_suffice(config_check(args, disk)->Ok_0.checks);
    }
}

/// A configuration that is found is eligible only where it is there, can be read, and would
/// be accepted; commands are told for eligible ones only.
pub proof fn law_found_configs_are_eligible_iff_accepted(
    path: Seq<char>,
    client: Seq<char>,
    source: Seq<char>,
    manifest: Option<Seq<char>>,
    disk: DiskView,
)
    ensures
        ({
            let c = candidate(path, client, source, manifest, disk);
            &&& c.path == path
            &&& c.exists <==> file_at(path, disk).exists
            &&& c.eligible_for_observed_app_hook <==> c.exists && (scanned_config(
                file_at(path, disk),
                client,
                Some(source),
            ) matches Ok(s) && config_suffices(
                ClientBindingProofLevel::ObservedAppHook,
                Some(s),
            ) is Ok)
            &&& c.next_commands.len() > 0 ==> c.eligible_for_observed_app_hook
        }),
{
    if scanned_config(file_at(path, disk), client, Some(source)) is Ok {
        law_eligible_configs_suffice(
            scanned_config(file_at(path, disk), client, Some(source))->Ok_0,
        );
    }
}

proof fn lemma_first_of_kind(
    candidates: Seq<InstalledConfigCandidateView>,
    kind: CandidateKind,
    targets: Seq<Seq<char>>,
)
    ensures
        first_of_kind(candidates, kind, targets) matches Some(c) ==> candidates.contains(c)
            && is_of_kind(c, kind, targets),
        first_of_kind(candidates, kind, targets) is None ==> forall|i: int|
            0 <= i < candidates.len() ==> !is_of_kind(#[trigger] candidates[i], kind, targets),
    decreases candidates.len(),
{
    if candidates.len() > 0 && !is_of_kind(candidates[0], kind, targets) {
        let rest = candidates.skip(1);
        lemma_first_of_kind(rest, kind, targets);
        if first_of_kind(rest, kind, targets) is Some {
            let c = first_of_kind(rest, kind, targets)->0;
            let i = choose|i: int| 0 <= i < rest.len() && rest[i] == c;
            assert(candidates[i + 1] == c);
        } else {
            assert forall|i: int| 0 <= i < candidates.len() implies !is_of_kind(
                #[trigger] candidates[i],
                kind,
                targets,
            ) by {
                if i > 0 {
                    assert(rest[i - 1] == candidates[i]);
                }
            }
        }
    } else if candidates.len() > 0 {
        assert(candidates[0] == first_of_kind(candidates, kind, targets)->0);
    }
}

/// The best configuration is an eligible one of those that were found: one at a known place
/// of the private client where there is such a one, else any; none is told only where none
/// is eligible.
pub proof fn law_best_config_lies_at_a_known_place(
    d: AdapterBindingInstalledConfigDiscoveryOutcomeView,
)
    ensures
        ({
            let targets = target_relpaths(d.client);
            match best_candidate(d) {
                Some(c) => {
                    &&& d.candidates.contains(c)
                    &&& c.eligible_for_observed_app_hook
                    &&& is_target_path(c.path, targets) || forall|i: int|
                        0 <= i < d.candidates.len() ==> !((
                        #[trigger] d.candidates[i]).eligible_for_observed_app_hook
                            && is_target_path(d.candidates[i].path, targets))
                },
                None => forall|i: int|
                    0 <= i < d.candidates.len() ==> !(
                    #[trigger] d.candidates[i]).eligible_for_observed_app_hook,
            }
        }),
{
    let targets = target_relpaths(d.client);
    lemma_first_of_kind(d.candidates, CandidateKind::EligibleTarget, targets);
    lemma_first_of_kind(d.candidates, CandidateKind::Eligible, targets);
    assert forall|i: int| 0 <= i < d.candidates.len() implies is_of_kind(
        #[trigger] d.candidates[i],
        CandidateKind::Eligible,
        targets,
    ) == d.candidates[i].eligible_for_observed_app_hook by {}
    assert forall|i: int| 0 <= i < d.candidates.len() implies is_of_kind(
        #[trigger] d.candidates[i],
        CandidateKind::EligibleTarget,
        targets,
    ) == (d.candidates[i].eligible_for_observed_app_hook && is_target_path(
        d.candidates[i].path,
        targets,
    )) by {}
}

// ---------------------------------------------------------------------------
// What the levels need
// ---------------------------------------------------------------------------

/// Each file of evidence is told by a word: a configuration as eligible iff it lacks
/// nothing, events as those of a private client iff they lack nothing, a report as valid iff
/// it was accepted, evidence of a render and the report of an action iff they lack nothing;
/// and a file that was not given is told as such.
pub proof fn law_files_are_told_by_their_state(
    client: Seq<char>,
    path: Seq<char>,
    config: InstalledConfigScanView,
    events: EventScanView,
    render: RenderEvidenceScanView,
    action: ReviewActionReportScanView,
    report_file: Option<FileFingerprintScanView>,
    report: JsonView,
    home: Option<Seq<char>>,
)
    ensures
        ({
            let c = config_artifact(Some(path), Some(Ok(config)));
            let e = events_artifact(Some(path), Some(Ok(events)), Some(config));
            let r = report_artifact(client, Some(path), Some(Ok(report)), home);
            let v = evidence_artifact(
                Some(path),
                Some(Ok(render)),
                client,
                report_file,
                Some(report),
                home,
            );
            let a = action_artifact(client, Some(path), Some(Ok(action)), home);
            &&& c.kind == "installed_config"@ && c.path == path && c.provided
            &&& c.status == "eligible"@ <==> app_hook_lacks(config).len() == 0
            &&& e.kind == "event_jsonl"@ && e.provided
            &&& e.status == "matching_private_event"@ <==> event_lacks(
                events,
                Some(config),
            ).len() == 0
            &&& r.kind == "review_render_report"@ && r.status == "valid"@
            &&& v.kind == "render_evidence"@
            &&& v.status == "valid_structured"@ <==> judged(
                render,
                client,
                report_file,
                Some(report),
            ).missing_requirements.len() == 0
            &&& a.kind == "review_action_report"@
            &&& a.status == "valid_storage_gated"@ <==> action.valid_storage_gated_review_action
            &&& config_artifact(None, None).status == "not_provided"@ && !config_artifact(
                None,
                None,
            ).provided
            &&& action_artifact(client, None, None, home).status == "not_provided"@
        }),
        target_artifact(client, Some(path)).status == "present"@ <==> is_target_path(
            path,
            target_relpaths(client),
        ),
{
    reveal_strlit("eligible");
    reveal_strlit("not_eligible");
    reveal_strlit("matching_private_event");
    reveal_strlit("stale_private_event");
    reveal_strlit("missing_private_event_requirements");
    reveal_strlit("valid_structured");
    reveal_strlit("valid_storage_gated");
    reveal_strlit("present");
    reveal_strlit("setup_artifact_only");
    assert("eligible"@.len() == 8);
    assert("not_eligible"@.len() == 12);
    assert("matching_private_event"@.len() == 22);
    assert("stale_private_event"@.len() == 19);
    assert("missing_private_event_requirements"@.len() == 34);
    assert("valid_structured"@.len() == 16);
    assert("valid_storage_gated"@.len() == 19);
    assert("present"@.len() == 7);
    assert("setup_artifact_only"@.len() == 19);
}

/// The three levels are ready to be recorded iff their files are in the right state: the app
/// hook with an eligible configuration, at its place where that is asked for, and private
/// events; the render with a valid report and structured evidence; the review action with an
/// eligible configuration and a report that went through the store's gates.
pub proof fn law_levels_are_ready_with_their_files(
    artifacts: Seq<RealAppProofArtifactView>,
    commands: Seq<Seq<Seq<char>>>,
    target_required: bool,
)
    ensures
        ({
            let k = kit_readiness(artifacts, commands, target_required);
            let is = |kind: Seq<char>, status: Seq<char>|
                artifact_of(artifacts, kind) is Some && artifact_of(artifacts, kind)->0.status
                    == status;
            &&& k.len() == 3
            &&& k[0].proof_level == ClientBindingProofLevel::ObservedAppHook
            &&& k[1].proof_level == ClientBindingProofLevel::ObservedInClientRender
            &&& k[2].proof_level == ClientBindingProofLevel::ObservedReviewAction
            &&& k[0].ready_to_attempt_record <==> is("installed_config"@, "eligible"@) && is(
                "event_jsonl"@,
                "matching_private_event"@,
            ) && (target_required ==> is("private_client_target_config"@, "present"@))
            &&& k[1].ready_to_attempt_record <==> is("review_render_report"@, "valid"@) && is(
                "render_evidence"@,
                "valid_structured"@,
            )
            &&& k[2].ready_to_attempt_record <==> is("installed_config"@, "eligible"@) && is(
                "review_action_report"@,
                "valid_storage_gated"@,
            )
        }),
{
    let h = super::kit::hook_needs(target_required);
    let r = super::kit::render_needs();
    let a = super::kit::action_needs();
    law_ready_iff_all_needs_met(artifacts, h);
    law_ready_iff_all_needs_met(artifacts, r);
    law_ready_iff_all_needs_met(artifacts, a);
    assert(h[0] == ("installed_config"@, "eligible"@));
    if target_required {
        assert(h.len() == 3);
        assert(h[1] == ("private_client_target_config"@, "present"@));
        assert(h[2] == ("event_jsonl"@, "matching_private_event"@));
    } else {
        assert(h.len() == 2);
        assert(h[1] == ("event_jsonl"@, "matching_private_event"@));
    }
    assert(r.len() == 2 && r[0] == ("review_render_report"@, "valid"@) && r[1] == (
        "render_evidence"@,
        "valid_structured"@,
    ));
    assert(a.len() == 2 && a[0] == ("installed_config"@, "eligible"@) && a[1] == (
        "review_action_report"@,
        "valid_storage_gated"@,
    ));
}

}
