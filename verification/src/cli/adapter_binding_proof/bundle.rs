//! The evidence bundle: readiness, configurations, proof kit and session in one.
use super::check::{
    best_candidate, checked_client, checked_source, config_root_of, discovery, find_manifest_path,
    first_eligible_installed_config_candidate, manifest_path_of, resolve_client_for_check,
    resolve_config_root, resolve_expected_event_source_for_check,
    run_discover_installed_config_blocking,
};
use super::collector::{
    collector_state, collector_step, config_names_collector, continue_devdata_collector_probe,
    insert_continue_collector_step, names_collector, probe_of, with_collector_step, CollectorState,
    TcpProbe,
};
use super::config::{scan_installed_config, scanned_config};
use super::disk::{canonical, canonical_or_raw, file_at, seen_or, unseen_file, Disk, DiskView};
use super::files::{read_text, text_of};
use super::flow::{client_binding_operator_flow, operator_flow};
use super::kit::{proof_kit, run_real_app_proof_kit_blocking};
use super::nonce::{
    nonce_allowed, nonce_view, normalize_binding_nonce, normalized_nonce,
    resolve_binding_nonce_for_prepare,
};
use super::places::{durable_client_artifact_dir_for_root, durable_dir_for_root, DirSeen};
use super::prepare::{config_rendering, render_installed_config};
use super::readiness::{of_client, run_status_blocking, status_report};
use super::repair::{clamped, requested, stored_proofs};
use super::session::{client_binding_proof_session, session_of, SessionInput};
use super::types::{
    AdapterBindingEvidenceBundleOutcome, AdapterBindingEvidenceBundleOutcomeView,
    AdapterBindingInstalledConfigDiscoveryOutcome,
    AdapterBindingInstalledConfigDiscoveryOutcomeView,
    AdapterBindingInstalledConfigRenderOutcomeView, AdapterBindingProofArgs,
    AdapterBindingProofArgsView, AdapterBindingProofError, AdapterBindingProofStatusOutcome,
    AdapterBindingProofStatusOutcomeView, AdapterBindingRealAppProofKitOutcomeView, BindingFault,
    ClientBindingOperatorFlowStepView, ContinueDevdataCollectorProbeView, Host, HostView,
    ObservedFile, ObservedFileView,
};
use crate::dup::Dup;
use crate::outcome::{borrowed, outcome, trim_nonblank, trimmed_nonblank};
use crate::path::{join, joined_path};
use crate::storage::{StorageError, StoredClientBindingProof};
use crate::text::{nil, none, table, with, with_text};
use vstd::prelude::*;

verus! {

// ---------------------------------------------------------------------------
// Gaps
// ---------------------------------------------------------------------------

/// What is still missing, in the order in which it is told.
pub open spec fn gaps_of(
    readiness: AdapterBindingProofStatusOutcomeView,
    d: AdapterBindingInstalledConfigDiscoveryOutcomeView,
) -> Seq<Seq<char>> {
    let known = readiness.clients.len() > 0;
    let c = readiness.clients[0];
    let a = gap_if(
        nil(),
        !(known && c.ready_for_private_client_claim),
        "ready_for_private_client_claim_not_yet_proven"@,
    );
    let b = gap_if(
        a,
        d.eligible_candidates == 0,
        "no_eligible_installed_config_candidate_found"@,
    );
    let e = gap_if(
        b,
        d.private_client_target_eligible_candidates == 0,
        "private_client_target_config_not_discovered"@,
    );
    let f = gap_if(
        e,
        !(known && c.has_observed_app_hook),
        "observed_app_hook_proof_missing"@,
    );
    let g = gap_if(
        f,
        !(known && c.has_observed_in_client_render),
        "observed_in_client_render_proof_missing"@,
    );
    let h = gap_if(
        g,
        !(known && c.has_observed_review_action),
        "observed_review_action_proof_missing"@,
    );
    let i = gap_if(
        h,
        known && c.artifact_failures.len() > 0,
        "stored_evidence_artifact_replay_has_failures"@,
    );
    gap_if(i, known && c.coherence_failures.len() > 0, IDENTITY_GAP@)
}

pub const IDENTITY_GAP: &'static str =
    "app_hook_render_and_review_action_proofs_do_not_share_installed_config_identity";

pub open spec fn gap_if(list: Seq<Seq<char>>, wanted: bool, gap: Seq<char>) -> Seq<Seq<char>> {
    if wanted {
        list.push(gap)
    } else {
        list
    }
}

fn push_gap(list: Vec<String>, wanted: bool, gap: &str) -> (r: Vec<String>)
    ensures
        r.deep_view() == gap_if(list.deep_view(), wanted, gap@),
{
    if wanted {
        with_text(list, gap)
    } else {
        list
    }
}

pub fn client_binding_evidence_bundle_gaps(
    readiness: &AdapterBindingProofStatusOutcome,
    discovery: &AdapterBindingInstalledConfigDiscoveryOutcome,
) -> (r: Vec<String>)
    ensures
        r.deep_view() == gaps_of(readiness.deep_view(), discovery.deep_view()),
{
    let mut ready = false;
    let mut hook = false;
    let mut render = false;
    let mut action = false;
    let mut failures = false;
    let mut incoherent = false;
    assert(readiness.deep_view().clients.len() == readiness.clients.len());
    if readiness.clients.len() > 0 {
        let c = &readiness.clients[0];
        assert(readiness.deep_view().clients[0] == c.deep_view());
        assert(c.deep_view().artifact_failures.len() == c.artifact_failures.len());
        assert(c.deep_view().coherence_failures.len() == c.coherence_failures.len());
        ready = c.ready_for_private_client_claim;
        hook = c.has_observed_app_hook;
        render = c.has_observed_in_client_render;
        action = c.has_observed_review_action;
        failures = c.artifact_failures.len() > 0;
        incoherent = c.coherence_failures.len() > 0;
    }
    let list = push_gap(none(), !ready, "ready_for_private_client_claim_not_yet_proven");
    let list = push_gap(
        list,
        discovery.eligible_candidates == 0,
        "no_eligible_installed_config_candidate_found",
    );
    let list = push_gap(
        list,
        discovery.private_client_target_eligible_candidates == 0,
        "private_client_target_config_not_discovered",
    );
    let list = push_gap(list, !hook, "observed_app_hook_proof_missing");
    let list = push_gap(list, !render, "observed_in_client_render_proof_missing");
    let list = push_gap(list, !action, "observed_review_action_proof_missing");
    let list = push_gap(list, failures, "stored_evidence_artifact_replay_has_failures");
    push_gap(list, incoherent, IDENTITY_GAP)
}

// ---------------------------------------------------------------------------
// Files that are there
// ---------------------------------------------------------------------------

/// The resolved path of a file in a directory, where it is there.
pub open spec fn kept_file(dir: Seq<char>, name: Seq<char>, disk: DiskView) -> Option<Seq<char>> {
    let path = joined_path(dir, name);
    if file_at(path, disk).is_file {
        Some(canonical(path, disk))
    } else {
        None
    }
}

pub fn existing_durable_artifact_path(dir: &str, name: &str, disk: &Disk) -> (r: Option<String>)
    ensures
        r.deep_view() == kept_file(dir@, name@, disk.deep_view()),
{
    let path = join(dir, name);
    let other = unseen_file(path.as_str());
    if seen_or(disk, path.as_str(), &other).is_file {
        Some(canonical_or_raw(path.as_str(), disk))
    } else {
        None
    }
}

/// The path that is given, or else that of the file that is there.
pub open spec fn given_or_kept(
    given: Option<Seq<char>>,
    dir: Seq<char>,
    name: Seq<char>,
    disk: DiskView,
) -> Option<Seq<char>> {
    match given {
        Some(p) => Some(p),
        None => kept_file(dir, name, disk),
    }
}

fn find_given_or_kept(given: &Option<String>, dir: &str, name: &str, disk: &Disk) -> (r: Option<
    String,
>)
    ensures
        r.deep_view() == given_or_kept(given.deep_view(), dir@, name@, disk.deep_view()),
{
    match given {
        Some(p) => Some(p.clone()),
        None => existing_durable_artifact_path(dir, name, disk),
    }
}

/// The flags, with the evidence files that are there for those that name none.
pub open spec fn with_kept_files(
    args: AdapterBindingProofArgsView,
    dir: Seq<char>,
    disk: DiskView,
) -> AdapterBindingProofArgsView {
    AdapterBindingProofArgsView {
        review_render_report: given_or_kept(
            args.review_render_report,
            dir,
            "review-render.json"@,
            disk,
        ),
        render_evidence: given_or_kept(args.render_evidence, dir, "render-evidence.json"@, disk),
        review_action_report: given_or_kept(
            args.review_action_report,
            dir,
            "review-action.json"@,
            disk,
        ),
        ..args
    }
}

pub fn select_existing_durable_artifacts(
    args: &mut AdapterBindingProofArgs,
    artifact_dir: &str,
    disk: &Disk,
)
    ensures
        final(args).deep_view() == with_kept_files(
            old(args).deep_view(),
            artifact_dir@,
            disk.deep_view(),
        ),
{
    let report = find_given_or_kept(
        &args.review_render_report,
        artifact_dir,
        "review-render.json",
        disk,
    );
    let evidence = find_given_or_kept(
        &args.render_evidence,
        artifact_dir,
        "render-evidence.json",
        disk,
    );
    let action = find_given_or_kept(
        &args.review_action_report,
        artifact_dir,
        "review-action.json",
        disk,
    );
    args.review_render_report = report;
    args.render_evidence = evidence;
    args.review_action_report = action;
}

pub const CONTINUE_CONFIGS: [&'static str; 4] = [
    ".continue/config.yaml",
    ".continue/config.yml",
    ".continue/config.json",
    ".continue/config.ts",
];

/// The text of a file can be read and names the collector.
pub open spec fn file_names_collector(path: Seq<char>, disk: DiskView) -> bool {
    text_of(file_at(path, disk), ""@) matches Ok(t) && names_collector(t)
}

/// A Continue configuration below the root names the collector.
pub open spec fn collector_visible(root: Seq<char>, disk: DiskView) -> bool {
    exists|i: int|
        0 <= i < 4 && file_names_collector(
            joined_path(root, #[trigger] table(CONTINUE_CONFIGS)[i]),
            disk,
        )
}

pub fn continue_devdata_destination_visible(root: &str, disk: &Disk) -> (r: bool)
    ensures
        r == collector_visible(root@, disk.deep_view()),
{
    let mut i: usize = 0;
    while i < 4
        invariant
            i <= 4,
            forall|j: int|
                0 <= j < i ==> !file_names_collector(
                    joined_path(root@, #[trigger] table(CONTINUE_CONFIGS)[j]),
                    disk.deep_view(),
                ),
        decreases 4 - i,
    {
        let path = join(root, CONTINUE_CONFIGS[i]);
        assert(table(CONTINUE_CONFIGS)[i as int] == CONTINUE_CONFIGS@[i as int]@);
        let other = unseen_file(path.as_str());
        match read_text(seen_or(disk, path.as_str(), &other), "") {
            Ok(t) => if config_names_collector(t.as_str()) {
                return true;
            },
            Err(_) => {},
        }
        i = i + 1;
    }
    false
}

// ---------------------------------------------------------------------------
// The plan
// ---------------------------------------------------------------------------

/// What a bundle is for, and the flags that its parts see.
#[derive(Debug)]
pub struct BundlePlan {
    pub client: String,
    pub source: String,
    pub root: String,
    pub nonce: String,
    pub generated: bool,
    pub manifest: Option<String>,
    pub dir: String,
    pub args: AdapterBindingProofArgs,
}

/// What a `BundlePlan` holds.
#[verifier::ext_equal]
pub struct BundlePlanView {
    pub client: Seq<char>,
    pub source: Seq<char>,
    pub root: Seq<char>,
    pub nonce: Seq<char>,
    pub generated: bool,
    pub manifest: Option<Seq<char>>,
    pub dir: Seq<char>,
    pub args: AdapterBindingProofArgsView,
}

impl DeepView for BundlePlan {
    type V = BundlePlanView;

    open spec fn deep_view(&self) -> BundlePlanView {
        BundlePlanView {
            client: self.client.deep_view(),
            source: self.source.deep_view(),
            root: self.root.deep_view(),
            nonce: self.nonce.deep_view(),
            generated: self.generated,
            manifest: self.manifest.deep_view(),
            dir: self.dir.deep_view(),
            args: self.args.deep_view(),
        }
    }
}

/// Where events are written by default, below a root.
pub open spec fn default_events(root: Seq<char>) -> Seq<char> {
    joined_path(joined_path(joined_path(root, ".soma"@), "adapter"@), "events.jsonl"@)
}

pub fn default_events_path(root: &str) -> (r: String)
    ensures
        r@ == default_events(root@),
{
    let base = join(root, ".soma");
    let dir = join(base.as_str(), "adapter");
    join(dir.as_str(), "events.jsonl")
}

/// The plan before configurations are looked for.
pub open spec fn first_plan(
    args: AdapterBindingProofArgsView,
    nonce: Result<(Seq<char>, bool), BindingFault>,
    home: Option<Seq<char>>,
    disk: DiskView,
) -> Result<BundlePlanView, BindingFault> {
    match checked_client(args, disk) {
        Err(f) => Err(f),
        Ok(client) => match checked_source(args, client, disk) {
            Err(f) => Err(f),
            Ok(source) => match config_root_of(args, home) {
                Err(f) => Err(f),
                Ok(root) => match nonce {
                    Err(f) => Err(f),
                    Ok((nonce, generated)) => Ok(
                        BundlePlanView {
                            client,
                            source,
                            root,
                            nonce,
                            generated,
                            manifest: manifest_path_of(args, client, disk),
                            dir: ""@,
                            args: AdapterBindingProofArgsView {
                                client: Some(client),
                                binding_nonce: Some(nonce),
                                write_installed_config: None,
                                prepare_installed_config: false,
                                discover_installed_config: false,
                                real_app_proof_kit: false,
                                status: false,
                                list: false,
                                verify_evidence_artifacts: false,
                                event_jsonl: match args.event_jsonl {
                                    Some(e) => Some(e),
                                    None => if file_at(default_events(root), disk).is_file {
                                        Some(canonical(default_events(root), disk))
                                    } else {
                                        None
                                    },
                                },
                                ..args
                            },
                        },
                    ),
                },
            },
        },
    }
}

pub fn start_bundle(
    args: &AdapterBindingProofArgs,
    nonce: Result<(String, bool), AdapterBindingProofError>,
    home: Option<&str>,
    disk: &Disk,
) -> (r: Result<BundlePlan, AdapterBindingProofError>)
    ensures
        outcome(r) == first_plan(
            args.deep_view(),
            nonce_view(nonce),
            home.deep_view(),
            disk.deep_view(),
        ),
{
    let client = match resolve_client_for_check(args, disk) {
        Err(e) => return Err(e),
        Ok(c) => c,
    };
    let source = match resolve_expected_event_source_for_check(args, client.as_str(), disk) {
        Err(e) => return Err(e),
        Ok(s) => s,
    };
    let root = match resolve_config_root(args, home) {
        Err(e) => return Err(e),
        Ok(r) => r,
    };
    let (nonce, generated) = match nonce {
        Err(e) => return Err(e),
        Ok(n) => n,
    };
    let manifest = find_manifest_path(args, client.as_str(), disk);
    let mut mine = args.dup();
    mine.client = Some(client.clone());
    mine.binding_nonce = Some(nonce.clone());
    mine.write_installed_config = None;
    mine.prepare_installed_config = false;
    mine.discover_installed_config = false;
    mine.real_app_proof_kit = false;
    mine.status = false;
    mine.list = false;
    mine.verify_evidence_artifacts = false;
    if mine.event_jsonl.is_none() {
        let path = default_events_path(root.as_str());
        let other = unseen_file(path.as_str());
        if seen_or(disk, path.as_str(), &other).is_file {
            mine.event_jsonl = Some(canonical_or_raw(path.as_str(), disk));
        }
    }
    Ok(
        BundlePlan {
            client,
            source,
            root,
            nonce,
            generated,
            manifest,
            dir: "".to_string(),
            args: mine,
        },
    )
}

/// The configuration to go on with: the one that the flags name, or else the best that
/// was found.
pub open spec fn chosen_config(
    given: Option<Seq<char>>,
    d: AdapterBindingInstalledConfigDiscoveryOutcomeView,
) -> Option<Seq<char>> {
    match given {
        Some(c) => Some(c),
        None => match best_candidate(d) {
            Some(c) => Some(c.path),
            None => None,
        },
    }
}

fn choose_config(
    given: &Option<String>,
    discovery: &AdapterBindingInstalledConfigDiscoveryOutcome,
) -> (r: Option<String>)
    ensures
        r.deep_view() == chosen_config(given.deep_view(), discovery.deep_view()),
{
    match given {
        Some(c) => Some(c.clone()),
        None => match first_eligible_installed_config_candidate(discovery) {
            Some(c) => Some(c.path.clone()),
            None => None,
        },
    }
}

/// The nonce of a configuration that can be read.
pub open spec fn nonce_at(
    config: Option<Seq<char>>,
    client: Seq<char>,
    source: Seq<char>,
    disk: DiskView,
) -> Option<Seq<char>> {
    match config {
        Some(path) => match scanned_config(file_at(path, disk), client, Some(source)) {
            Ok(scan) => scan.binding_nonce,
            Err(_) => None,
        },
        None => None,
    }
}

fn find_nonce_at(config: &Option<String>, client: &str, source: &str, disk: &Disk) -> (r: Option<
    String,
>)
    ensures
        r.deep_view() == nonce_at(config.deep_view(), client@, source@, disk.deep_view()),
{
    match config {
        Some(path) => {
            let other = unseen_file(path.as_str());
            match scan_installed_config(
                seen_or(disk, path.as_str(), &other),
                client,
                Some(source),
            ) {
                Ok(scan) => scan.binding_nonce,
                Err(_) => None,
            }
        },
        None => None,
    }
}

/// The flags, with what was chosen.
pub open spec fn with_choice(
    args: AdapterBindingProofArgsView,
    config: Option<Seq<char>>,
    nonce: Seq<char>,
) -> AdapterBindingProofArgsView {
    AdapterBindingProofArgsView {
        installed_config: config,
        require_private_target_config_for_app_hook: args.installed_config is None,
        binding_nonce: Some(nonce),
        ..args
    }
}

fn put_choice(args: AdapterBindingProofArgs, config: Option<String>, nonce: &str) -> (r:
    AdapterBindingProofArgs)
    ensures
        r.deep_view() == with_choice(args.deep_view(), config.deep_view(), nonce@),
{
    let mut args = args;
    args.require_private_target_config_for_app_hook = args.installed_config.is_none();
    args.installed_config = config;
    args.binding_nonce = Some(nonce.to_string());
    args
}

/// The directory for the evidence: the one that the flags name, or else that of the run.
pub open spec fn evidence_dir_of(
    given: Option<Seq<char>>,
    client: Seq<char>,
    nonce: Seq<char>,
    root: Seq<char>,
    home: Option<Seq<char>>,
) -> Seq<char> {
    match trimmed_nonblank(given) {
        Some(dir) => dir,
        None => durable_dir_for_root(client, nonce, Some(root), home),
    }
}

/// The plan once configurations were looked for: the best of them is taken where the
/// flags name none, its nonce is taken where they give none, and so are the evidence
/// files that are there.
pub open spec fn full_plan(
    p: BundlePlanView,
    given: AdapterBindingProofArgsView,
    d: AdapterBindingInstalledConfigDiscoveryOutcomeView,
    home: Option<Seq<char>>,
    disk: DiskView,
) -> BundlePlanView {
    let config = chosen_config(p.args.installed_config, d);
    let installed = if given.binding_nonce is None {
        nonce_at(config, p.client, p.source, disk)
    } else {
        None
    };
    let nonce = match installed {
        Some(n) => n,
        None => p.nonce,
    };
    let dir = evidence_dir_of(given.artifact_dir, p.client, nonce, p.root, home);
    BundlePlanView {
        nonce,
        generated: p.generated && installed is None,
        dir,
        args: with_kept_files(with_choice(p.args, config, nonce), dir, disk),
        ..p
    }
}

pub fn complete_bundle_plan(
    plan: BundlePlan,
    given: &AdapterBindingProofArgs,
    discovery: &AdapterBindingInstalledConfigDiscoveryOutcome,
    home: Option<&str>,
    disk: &Disk,
) -> (r: BundlePlan)
    ensures
        r.deep_view() == full_plan(
            plan.deep_view(),
            given.deep_view(),
            discovery.deep_view(),
            home.deep_view(),
            disk.deep_view(),
        ),
{
    let config = choose_config(&plan.args.installed_config, discovery);
    let installed = if given.binding_nonce.is_none() {
        find_nonce_at(&config, plan.client.as_str(), plan.source.as_str(), disk)
    } else {
        None
    };
    let generated = plan.generated && installed.is_none();
    let nonce = match installed {
        Some(n) => n,
        None => plan.nonce,
    };
    let dir = match trim_nonblank(borrowed(&given.artifact_dir)) {
        Some(dir) => dir.to_string(),
        None => durable_client_artifact_dir_for_root(
            plan.client.as_str(),
            nonce.as_str(),
            Some(plan.root.as_str()),
            home,
        ),
    };
    let mut args = put_choice(plan.args, config, nonce.as_str());
    select_existing_durable_artifacts(&mut args, dir.as_str(), disk);
    BundlePlan {
        client: plan.client,
        source: plan.source,
        root: plan.root,
        nonce,
        generated,
        manifest: plan.manifest,
        dir,
        args,
    }
}

// ---------------------------------------------------------------------------
// The bundle
// ---------------------------------------------------------------------------

pub const BUNDLE_BOUNDARY: &'static str =
    "client_binding_evidence_bundle_is_read_only: composes readiness, installed-config discovery, proof-free config preview, and real-app proof-kit guidance only; it records no proof row, verifies no app invocation, records no verification event, promotes no cloud draft, applies no proposal, and does not prove private client installation or in-client rendering by itself";

/// The steps of a bundle, with that of the collector.
pub open spec fn bundle_flow(
    p: BundlePlanView,
    probe: Option<ContinueDevdataCollectorProbeView>,
    host: HostView,
) -> Seq<ClientBindingOperatorFlowStepView> {
    with_collector_step(
        operator_flow(
            p.client,
            p.manifest,
            Some(p.source),
            p.nonce,
            Some(p.dir),
            Some(p.root),
            p.args.installed_config,
            p.args.event_jsonl,
            p.args.review_render_report,
            p.args.render_evidence,
            p.args.review_action_report,
            host,
        ),
        collector_step(p.client, p.args.installed_config, p.args.event_jsonl, probe, host),
    )
}

/// A nonce that is given, as one for a configuration.
pub open spec fn given_nonce(nonce: Seq<char>) -> Result<(Seq<char>, bool), BindingFault> {
    match normalized_nonce(nonce) {
        Ok(n) => Ok((n, false)),
        Err(f) => Err(f),
    }
}

/// A bundle, from its parts.
pub open spec fn bundle_of(
    p: BundlePlanView,
    readiness: AdapterBindingProofStatusOutcomeView,
    d: AdapterBindingInstalledConfigDiscoveryOutcomeView,
    preview: AdapterBindingInstalledConfigRenderOutcomeView,
    kit: AdapterBindingRealAppProofKitOutcomeView,
    probe: Option<ContinueDevdataCollectorProbeView>,
    seen: Seq<DirSeen>,
    host: HostView,
) -> AdapterBindingEvidenceBundleOutcomeView {
    let flow = bundle_flow(p, probe, host);
    AdapterBindingEvidenceBundleOutcomeView {
        client: p.client,
        manifest_path: p.manifest,
        expected_event_source: p.source,
        binding_nonce: p.nonce,
        generated_binding_nonce: p.generated,
        config_root: p.root,
        event_jsonl_path: p.args.event_jsonl,
        continue_devdata_collector: probe,
        readiness,
        installed_config_discovery: d,
        installed_config_preview: preview,
        real_app_proof_kit: kit,
        operator_flow: flow,
        proof_session: session_of(
            SessionInput {
                client: p.client,
                dir: p.dir,
                readiness,
                kit,
                flow,
                target_ready: d.private_client_target_eligible_candidates > 0,
                probe,
                seen,
                host,
            },
        ),
        blocking_gaps: gaps_of(readiness, d),
        trust_boundary: BUNDLE_BOUNDARY@,
    }
}

/// What a bundle is made from: the store's proofs and their evidence files, the files and
/// directories on disk, and the state of the collector.
pub struct BundleInput {
    pub stored: Result<Seq<crate::storage::StoredClientBindingProofView>, BindingFault>,
    pub files: Seq<ObservedFileView>,
    pub disk: DiskView,
    pub seen: Seq<DirSeen>,
    pub collector: CollectorState,
    pub host: HostView,
}

/// An evidence bundle, with a nonce.
pub open spec fn bundle(
    args: AdapterBindingProofArgsView,
    nonce: Result<(Seq<char>, bool), BindingFault>,
    x: BundleInput,
) -> Result<AdapterBindingEvidenceBundleOutcomeView, BindingFault> {
    match first_plan(args, nonce, x.host.home, x.disk) {
        Err(f) => Err(f),
        Ok(start) => match x.stored {
            Err(f) => Err(f),
            Ok(proofs) => match discovery(start.args, x.host.home, x.disk) {
                Err(f) => Err(f),
                Ok(d) => {
                    let p = full_plan(start, args, d, x.host.home, x.disk);
                    match config_rendering(p.args, given_nonce(p.nonce), x.host, x.disk) {
                        Err(f) => Err(f),
                        Ok(preview) => match proof_kit(p.args, x.host, x.disk) {
                            Err(f) => Err(f),
                            Ok(kit) => Ok(
                                bundle_of(
                                    p,
                                    status_report(
                                        requested(start.args.client),
                                        args.proof_id,
                                        clamped(args.limit),
                                        of_client(proofs, requested(start.args.client)),
                                        x.files,
                                        x.host,
                                    ),
                                    d,
                                    preview,
                                    kit,
                                    probe_of(
                                        p.client,
                                        collector_visible(p.root, x.disk),
                                        x.collector,
                                        p.args.installed_config,
                                        p.args.event_jsonl,
                                        x.host,
                                    ),
                                    x.seen,
                                    x.host,
                                ),
                            ),
                        },
                    }
                },
            },
        },
    }
}

/// A bundle, once its plan is complete.
fn compose_bundle(
    p: BundlePlan,
    readiness: AdapterBindingProofStatusOutcome,
    discovered: AdapterBindingInstalledConfigDiscoveryOutcome,
    seen: &Vec<DirSeen>,
    declared: Option<&str>,
    probe: TcpProbe,
    host: &Host,
    disk: &Disk,
) -> (r: Result<AdapterBindingEvidenceBundleOutcome, AdapterBindingProofError>)
    requires
        p.deep_view().args.binding_nonce == Some(p.nonce@),
    ensures
        outcome(r) == match config_rendering(
            p.deep_view().args,
            given_nonce(p.nonce@),
            host.deep_view(),
            disk.deep_view(),
        ) {
            Err(f) => Err(f),
            Ok(preview) => match proof_kit(
                p.deep_view().args,
                host.deep_view(),
                disk.deep_view(),
            ) {
                Err(f) => Err(f),
                Ok(kit) => Ok(
                    bundle_of(
                        p.deep_view(),
                        readiness.deep_view(),
                        discovered.deep_view(),
                        preview,
                        kit,
                        probe_of(
                            p.client@,
                            collector_visible(p.root@, disk.deep_view()),
                            collector_state(declared.deep_view(), probe),
                            p.deep_view().args.installed_config,
                            p.deep_view().args.event_jsonl,
                            host.deep_view(),
                        ),
                        seen@,
                        host.deep_view(),
                    ),
                ),
            },
        },
{
    let nonce = match normalize_binding_nonce(p.nonce.as_str()) {
        Ok(n) => Ok((n, false)),
        Err(e) => Err(e),
    };
    let preview = match render_installed_config(&p.args, nonce, host, disk) {
        Err(e) => return Err(e),
        Ok(r) => r,
    };
    let kit = match run_real_app_proof_kit_blocking(&p.args, host, disk) {
        Err(e) => return Err(e),
        Ok(k) => k,
    };
    let visible = continue_devdata_destination_visible(p.root.as_str(), disk);
    let collector = continue_devdata_collector_probe(
        p.client.as_str(),
        visible,
        declared,
        probe,
        borrowed(&p.args.installed_config),
        borrowed(&p.args.event_jsonl),
        host,
    );
    let mut flow = client_binding_operator_flow(
        p.client.as_str(),
        borrowed(&p.manifest),
        Some(p.source.as_str()),
        p.nonce.as_str(),
        Some(p.dir.as_str()),
        Some(p.root.as_str()),
        borrowed(&p.args.installed_config),
        borrowed(&p.args.event_jsonl),
        borrowed(&p.args.review_render_report),
        borrowed(&p.args.render_evidence),
        borrowed(&p.args.review_action_report),
        host,
    );
    insert_continue_collector_step(
        &mut flow,
        p.client.as_str(),
        borrowed(&p.args.installed_config),
        borrowed(&p.args.event_jsonl),
        &collector,
        host,
    );
    let gaps = client_binding_evidence_bundle_gaps(&readiness, &discovered);
    let session = client_binding_proof_session(
        p.client.as_str(),
        p.dir.as_str(),
        &readiness,
        &kit,
        &flow,
        discovered.private_client_target_eligible_candidates > 0,
        &collector,
        seen,
        host,
    );
    Ok(
        AdapterBindingEvidenceBundleOutcome {
            client: p.client,
            manifest_path: p.manifest,
            expected_event_source: p.source,
            binding_nonce: p.nonce,
            generated_binding_nonce: p.generated,
            config_root: p.root,
            event_jsonl_path: p.args.event_jsonl,
            continue_devdata_collector: collector,
            readiness,
            installed_config_discovery: discovered,
            installed_config_preview: preview,
            real_app_proof_kit: kit,
            operator_flow: flow,
            proof_session: session,
            blocking_gaps: gaps,
            trust_boundary: BUNDLE_BOUNDARY.to_string(),
        },
    )
}

/// An evidence bundle, with a nonce that was found or made before.
pub fn evidence_bundle(
    args: &AdapterBindingProofArgs,
    nonce: Result<(String, bool), AdapterBindingProofError>,
    stored: Result<Vec<StoredClientBindingProof>, StorageError>,
    files: &Vec<ObservedFile>,
    disk: &Disk,
    seen: &Vec<DirSeen>,
    declared: Option<&str>,
    probe: TcpProbe,
    host: &Host,
) -> (r: Result<AdapterBindingEvidenceBundleOutcome, AdapterBindingProofError>)
    ensures
        outcome(r) == bundle(
            args.deep_view(),
            nonce_view(nonce),
            (BundleInput {
                stored: stored_proofs(stored),
                files: files.deep_view(),
                disk: disk.deep_view(),
                seen: seen@,
                collector: collector_state(declared.deep_view(), probe),
                host: host.deep_view(),
            }),
        ),
{
    let home = borrowed(&host.home);
    let start = match start_bundle(args, nonce, home, disk) {
        Err(e) => return Err(e),
        Ok(p) => p,
    };
    let readiness = match run_status_blocking(&start.args, stored, files, host) {
        Err(e) => return Err(e),
        Ok(s) => s,
    };
    let discovered = match run_discover_installed_config_blocking(&start.args, home, disk) {
        Err(e) => return Err(e),
        Ok(d) => d,
    };
    let plan = complete_bundle_plan(start, args, &discovered, home, disk);
    compose_bundle(plan, readiness, discovered, seen, declared, probe, host, disk)
}

/// An evidence bundle. The nonce is the one given, or a new one; where a configuration
/// is installed, its nonce takes the place of a new one.
pub fn run_evidence_bundle_blocking(
    args: &AdapterBindingProofArgs,
    stored: Result<Vec<StoredClientBindingProof>, StorageError>,
    files: &Vec<ObservedFile>,
    disk: &Disk,
    seen: &Vec<DirSeen>,
    declared: Option<&str>,
    probe: TcpProbe,
    host: &Host,
) -> (r: Result<AdapterBindingEvidenceBundleOutcome, AdapterBindingProofError>)
    ensures
        exists|n: Result<(Seq<char>, bool), BindingFault>| #[trigger]
            nonce_allowed(args.deep_view().binding_nonce, n) && outcome(r) == bundle(
                args.deep_view(),
                n,
                (BundleInput {
                    stored: stored_proofs(stored),
                    files: files.deep_view(),
                    disk: disk.deep_view(),
                    seen: seen@,
                    collector: collector_state(declared.deep_view(), probe),
                    host: host.deep_view(),
                }),
            ),
{
    let nonce = resolve_binding_nonce_for_prepare(borrowed(&args.binding_nonce));
    assert(nonce_allowed(args.deep_view().binding_nonce, nonce_view(nonce)));
    evidence_bundle(args, nonce, stored, files, disk, seen, declared, probe, host)
}

}
