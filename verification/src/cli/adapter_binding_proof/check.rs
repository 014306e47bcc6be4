//! Binding manifests, and the checks of installed configurations.
use super::config::{
    app_hook_lacks, observed_app_hook_missing_requirements, scan_installed_config, scanned_config,
};
use super::disk::{
    canonical, canonical_if_given, canonical_opt, canonical_or_raw, file_at, seen_or, unseen_file,
    Disk, DiskView,
};
use super::files::{json_file, read_json_file};
use super::flow::DEFAULT_EVENT_JSONL;
use super::places::{
    config_paths, default_private_event_source, discover_installed_config_paths,
    is_private_client_target_config_path, is_target_path, manifest_of,
    private_client_target_installed_config_relpaths, private_event_source,
    resolved_manifest_path_for_client, target_relpaths, NO_MANIFEST,
};
use super::types::{
    fault_text, malformed, refuse, AdapterBindingInstalledConfigCheckOutcome,
    AdapterBindingInstalledConfigCheckOutcomeView, AdapterBindingInstalledConfigDiscoveryOutcome,
    AdapterBindingInstalledConfigDiscoveryOutcomeView, AdapterBindingProofArgs,
    AdapterBindingProofArgsView, AdapterBindingProofError, BindingFault, InstalledConfigCandidate,
    InstalledConfigCandidateView,
};
use crate::json::{as_text, at, get, text_in, Json, JsonView};
use crate::outcome::{borrowed, nonblank, outcome, trim_nonblank, trimmed_nonblank, verdict};
use crate::storage::ClientBindingProofLevel;
use crate::text::{cat3, lower, lowered, nil, none, same, trim, trimmed, with, Words};
use vstd::prelude::*;

verus! {

// ---------------------------------------------------------------------------
// Manifests
// ---------------------------------------------------------------------------

/// A text that a manifest must hold.
pub open spec fn required(manifest: JsonView, key: Seq<char>) -> Result<Seq<char>, BindingFault> {
    match nonblank(as_text(get(manifest, key))) {
        Some(s) => Ok(s),
        None => malformed("manifest field `"@ + key + "` must be a string"@),
    }
}

pub fn required_str<'a>(manifest: &'a Json, key: &str) -> (r: Result<
    &'a str,
    AdapterBindingProofError,
>)
    ensures
        outcome(r) == required(manifest@, key@),
{
    match manifest.get_text(key) {
        Some(s) => if !trim(s).is_empty() {
            return Ok(s);
        },
        None => {},
    }
    Err(
        AdapterBindingProofError::MalformedInput(
            cat3("manifest field `", key, "` must be a string"),
        ),
    )
}

pub const MANIFEST_SCHEMA: &'static str = "soma.client_binding.v1";

/// The first part that a manifest lacks.
pub open spec fn missing_part(manifest: JsonView) -> Option<Seq<char>> {
    if at(manifest, "lifecycle"@, "wrapper"@) is None {
        Some("/lifecycle/wrapper"@)
    } else if at(manifest, "spool_drain"@, "wrapper"@) is None {
        Some("/spool_drain/wrapper"@)
    } else if at(manifest, "review_ui"@, "wrapper"@) is None {
        Some("/review_ui/wrapper"@)
    } else if at(manifest, "lifecycle"@, "sample_event"@) is None {
        Some("/lifecycle/sample_event"@)
    } else {
        None
    }
}

/// The shape that a manifest must have.
pub open spec fn manifest_shape(manifest: JsonView) -> Result<(), BindingFault> {
    if !(manifest is Object) {
        malformed("manifest must be a JSON object"@)
    } else {
        match required(manifest, "schema"@) {
            Err(f) => Err(f),
            Ok(schema) => if schema != MANIFEST_SCHEMA@ {
                malformed("manifest schema must be soma.client_binding.v1"@)
            } else {
                match missing_part(manifest) {
                    Some(p) => malformed("manifest missing `"@ + p + "`"@),
                    None => Ok(()),
                }
            },
        }
    }
}

pub fn validate_manifest_shape(manifest: &Json) -> (r: Result<(), AdapterBindingProofError>)
    ensures
        verdict(r) == manifest_shape(manifest@),
{
    match manifest {
        Json::Object(_) => {},
        _ => return refuse("manifest must be a JSON object"),
    }
    match required_str(manifest, "schema") {
        Err(e) => return Err(e),
        Ok(schema) => if !same(schema, MANIFEST_SCHEMA) {
            return refuse("manifest schema must be soma.client_binding.v1");
        },
    }
    let missing = if manifest.at("lifecycle", "wrapper").is_none() {
        "/lifecycle/wrapper"
    } else if manifest.at("spool_drain", "wrapper").is_none() {
        "/spool_drain/wrapper"
    } else if manifest.at("review_ui", "wrapper").is_none() {
        "/review_ui/wrapper"
    } else if manifest.at("lifecycle", "sample_event").is_none() {
        "/lifecycle/sample_event"
    } else {
        return Ok(());
    };
    refuse(cat3("manifest missing `", missing, "`").as_str())
}

/// The manifest in a file, where it has the shape of one.
pub open spec fn manifest_at(path: Seq<char>, disk: DiskView) -> Result<JsonView, BindingFault> {
    match json_file(file_at(canonical(path, disk), disk), "manifest"@) {
        Err(f) => Err(f),
        Ok(m) => match manifest_shape(m) {
            Err(f) => Err(f),
            Ok(_) => Ok(m),
        },
    }
}

pub fn read_manifest(path: &str, disk: &Disk) -> (r: Result<Json, AdapterBindingProofError>)
    ensures
        outcome(r) == manifest_at(path@, disk.deep_view()),
{
    let place = canonical_or_raw(path, disk);
    let other = unseen_file(place.as_str());
    let file = seen_or(disk, place.as_str(), &other);
    match read_json_file(file, "manifest") {
        Err(e) => Err(e),
        Ok(m) => match validate_manifest_shape(&m) {
            Err(e) => Err(e),
            Ok(_) => Ok(m),
        },
    }
}

/// The client that a manifest is for.
pub open spec fn manifest_client(manifest: JsonView) -> Result<Seq<char>, BindingFault> {
    match required(manifest, "client"@) {
        Err(f) => Err(f),
        Ok(c) => Ok(lowered(trimmed(c))),
    }
}

pub const NO_CLIENT: &'static str = "--check-installed-config requires --client or --manifest";

/// The client that is meant: the one that the flag names, or else that of the manifest.
pub open spec fn checked_client(args: AdapterBindingProofArgsView, disk: DiskView) -> Result<
    Seq<char>,
    BindingFault,
> {
    match trimmed_nonblank(args.client) {
        Some(c) => Ok(lowered(c)),
        None => match args.manifest {
            None => malformed(NO_CLIENT@),
            Some(path) => match manifest_at(path, disk) {
                Err(f) => Err(f),
                Ok(m) => manifest_client(m),
            },
        },
    }
}

pub fn resolve_client_for_check(args: &AdapterBindingProofArgs, disk: &Disk) -> (r: Result<
    String,
    AdapterBindingProofError,
>)
    ensures
        outcome(r) == checked_client(args.deep_view(), disk.deep_view()),
{
    match trim_nonblank(borrowed(&args.client)) {
        Some(c) => return Ok(lower(c)),
        None => {},
    }
    let path = match &args.manifest {
        None => return refuse(NO_CLIENT),
        Some(p) => p,
    };
    match read_manifest(path.as_str(), disk) {
        Err(e) => Err(e),
        Ok(m) => match required_str(&m, "client") {
            Err(e) => Err(e),
            Ok(c) => Ok(lower(trim(c))),
        },
    }
}

/// The event source that a manifest names, or else the one that its client has.
pub open spec fn manifest_source(manifest: JsonView, client: Seq<char>) -> Seq<char> {
    match trimmed_nonblank(as_text(at(manifest, "lifecycle"@, "event_source"@))) {
        Some(s) => s,
        None => private_event_source(client),
    }
}

pub fn expected_event_source_from_manifest(manifest: &Json, client: &str) -> (r: String)
    ensures
        r@ == manifest_source(manifest@, client@),
{
    match trim_nonblank(text_in(manifest.at("lifecycle", "event_source"))) {
        Some(s) => s.to_string(),
        None => default_private_event_source(client),
    }
}

/// The event source that the events of a client must carry.
pub open spec fn checked_source(
    args: AdapterBindingProofArgsView,
    client: Seq<char>,
    disk: DiskView,
) -> Result<Seq<char>, BindingFault> {
    match args.manifest {
        None => Ok(private_event_source(client)),
        Some(path) => match manifest_at(path, disk) {
            Err(f) => Err(f),
            Ok(m) => Ok(manifest_source(m, client)),
        },
    }
}

pub fn resolve_expected_event_source_for_check(
    args: &AdapterBindingProofArgs,
    client: &str,
    disk: &Disk,
) -> (r: Result<String, AdapterBindingProofError>)
    ensures
        outcome(r) == checked_source(args.deep_view(), client@, disk.deep_view()),
{
    match &args.manifest {
        None => Ok(default_private_event_source(client)),
        Some(path) => match read_manifest(path.as_str(), disk) {
            Err(e) => Err(e),
            Ok(m) => Ok(expected_event_source_from_manifest(&m, client)),
        },
    }
}

/// The manifest that the flags name, or else that of the client.
pub open spec fn manifest_path_of(
    args: AdapterBindingProofArgsView,
    client: Seq<char>,
    disk: DiskView,
) -> Option<Seq<char>> {
    manifest_of(client, canonical_opt(args.manifest, disk))
}

pub fn find_manifest_path(args: &AdapterBindingProofArgs, client: &str, disk: &Disk) -> (r: Option<
    String,
>)
    ensures
        r.deep_view() == manifest_path_of(args.deep_view(), client@, disk.deep_view()),
{
    let given = canonical_if_given(borrowed(&args.manifest), disk);
    resolved_manifest_path_for_client(client, borrowed(&given))
}

// ---------------------------------------------------------------------------
// The check of one configuration
// ---------------------------------------------------------------------------

pub const ELIGIBLE_BOUNDARY: &'static str =
    "installed_config_references_soma_wrapper_path_only: this check supports an observed_app_hook proof but still requires a real event file with matching private event_source and binding_nonce, drain report, and explicit operator confirmation before persistence";

pub const NOT_ELIGIBLE_BOUNDARY: &'static str =
    "installed_config_not_eligible_for_observed_app_hook: missing required wrapper/client/event-spool references; do not persist app-hook proof";

pub const NO_CONFIG: &'static str = "--check-installed-config requires --installed-config";

/// What the check of an installed configuration tells.
pub open spec fn config_check(args: AdapterBindingProofArgsView, disk: DiskView) -> Result<
    AdapterBindingInstalledConfigCheckOutcomeView,
    BindingFault,
> {
    match checked_client(args, disk) {
        Err(f) => Err(f),
        Ok(client) => match checked_source(args, client, disk) {
            Err(f) => Err(f),
            Ok(source) => match args.installed_config {
                None => malformed(NO_CONFIG@),
                Some(given) => {
                    let path = canonical(given, disk);
                    match scanned_config(file_at(path, disk), client, Some(source)) {
                        Err(f) => Err(f),
                        Ok(checks) => Ok(
                            AdapterBindingInstalledConfigCheckOutcomeView {
                                client,
                                installed_config_path: path,
                                proof_level: ClientBindingProofLevel::ObservedAppHook,
                                eligible_for_observed_app_hook: app_hook_lacks(checks).len() == 0,
                                missing_requirements: app_hook_lacks(checks),
                                trust_boundary: if app_hook_lacks(checks).len() == 0 {
                                    ELIGIBLE_BOUNDARY@
                                } else {
                                    NOT_ELIGIBLE_BOUNDARY@
                                },
                                checks,
                            },
                        ),
                    }
                },
            },
        },
    }
}

/// Whether an installed configuration refers to all that an app-hook proof needs.
pub fn run_installed_config_check_blocking(args: &AdapterBindingProofArgs, disk: &Disk) -> (r:
    Result<AdapterBindingInstalledConfigCheckOutcome, AdapterBindingProofError>)
    ensures
        outcome(r) == config_check(args.deep_view(), disk.deep_view()),
{
    let client = match resolve_client_for_check(args, disk) {
        Err(e) => return Err(e),
        Ok(c) => c,
    };
    let source = match resolve_expected_event_source_for_check(args, client.as_str(), disk) {
        Err(e) => return Err(e),
        Ok(s) => s,
    };
    let given = match &args.installed_config {
        None => return refuse(NO_CONFIG),
        Some(p) => p,
    };
    let path = canonical_or_raw(given.as_str(), disk);
    let other = unseen_file(path.as_str());
    let file = seen_or(disk, path.as_str(), &other);
    let checks = match scan_installed_config(file, client.as_str(), Some(source.as_str())) {
        Err(e) => return Err(e),
        Ok(s) => s,
    };
    let missing = observed_app_hook_missing_requirements(&checks);
    assert(missing.deep_view().len() == missing.len());
    let eligible = missing.len() == 0;
    let boundary = if eligible { ELIGIBLE_BOUNDARY } else { NOT_ELIGIBLE_BOUNDARY };
    Ok(
        AdapterBindingInstalledConfigCheckOutcome {
            client,
            installed_config_path: path,
            proof_level: ClientBindingProofLevel::ObservedAppHook,
            eligible_for_observed_app_hook: eligible,
            missing_requirements: missing,
            trust_boundary: boundary.to_string(),
            checks,
        },
    )
}

// ---------------------------------------------------------------------------
// Discovery
// ---------------------------------------------------------------------------

/// What to call next for a configuration that was found.
pub open spec fn candidate_commands(path: Seq<char>, manifest: Option<Seq<char>>) -> Seq<
    Seq<Seq<char>>,
> {
    let m = match manifest {
        Some(m) => m,
        None => NO_MANIFEST@,
    };
    Seq::empty().push(
        nil().push("soma"@).push("adapter-binding-proof"@).push("--check-installed-config"@).push(
            "--manifest"@,
        ).push(m).push("--installed-config"@).push(path),
    ).push(
        nil().push("soma"@).push("adapter-binding-proof"@).push("--manifest"@).push(m).push(
            "--proof-level"@,
        ).push("observed_app_hook"@).push("--event-jsonl"@).push(DEFAULT_EVENT_JSONL@).push(
            "--installed-config"@,
        ).push(path).push("--operator-confirm-real-app-invocation"@),
    )
}

pub fn discovered_config_next_commands(path: &str, manifest_path: Option<&str>) -> (r: Vec<
    Vec<String>,
>)
    ensures
        r.deep_view() == candidate_commands(path@, manifest_path.deep_view()),
{
    let m = match manifest_path {
        Some(m) => m,
        None => NO_MANIFEST,
    };
    let check = Words::new().w("soma").w("adapter-binding-proof").w("--check-installed-config").w(
        "--manifest",
    ).w(m).w("--installed-config").w(path).done();
    let record = Words::new().w("soma").w("adapter-binding-proof").w("--manifest").w(m).w(
        "--proof-level",
    ).w("observed_app_hook").w("--event-jsonl").w(DEFAULT_EVENT_JSONL).w("--installed-config").w(
        path,
    ).w("--operator-confirm-real-app-invocation").done();
    with(with(none(), check), record)
}

/// What was found of one configuration.
pub open spec fn candidate(
    path: Seq<char>,
    client: Seq<char>,
    source: Seq<char>,
    manifest: Option<Seq<char>>,
    disk: DiskView,
) -> InstalledConfigCandidateView {
    let file = file_at(path, disk);
    let blank = InstalledConfigCandidateView {
        path,
        exists: false,
        eligible_for_observed_app_hook: false,
        missing_requirements: nil(),
        checks: None,
        error: None,
        next_commands: Seq::empty(),
    };
    if !file.exists {
        blank
    } else {
        match scanned_config(file, client, Some(source)) {
            Err(f) => InstalledConfigCandidateView {
                exists: true,
                error: Some(fault_text(f)),
                ..blank
            },
            Ok(checks) => {
                let eligible = app_hook_lacks(checks).len() == 0;
                InstalledConfigCandidateView {
                    exists: true,
                    eligible_for_observed_app_hook: eligible,
                    missing_requirements: app_hook_lacks(checks),
                    checks: Some(checks),
                    next_commands: if eligible {
                        candidate_commands(path, manifest)
                    } else {
                        Seq::empty()
                    },
                    ..blank
                }
            },
        }
    }
}

pub fn discover_one_installed_config(
    path: &str,
    client: &str,
    expected_event_source: &str,
    manifest_path: Option<&str>,
    disk: &Disk,
) -> (r: InstalledConfigCandidate)
    ensures
        r.deep_view() == candidate(
            path@,
            client@,
            expected_event_source@,
            manifest_path.deep_view(),
            disk.deep_view(),
        ),
{
    let other = unseen_file(path);
    let file = seen_or(disk, path, &other);
    if !file.exists {
        return InstalledConfigCandidate {
            path: path.to_string(),
            exists: false,
            eligible_for_observed_app_hook: false,
            missing_requirements: none(),
            checks: None,
            error: None,
            next_commands: none(),
        };
    }
    match scan_installed_config(file, client, Some(expected_event_source)) {
        Ok(checks) => {
            let missing = observed_app_hook_missing_requirements(&checks);
            assert(missing.deep_view().len() == missing.len());
            let eligible = missing.len() == 0;
            let next_commands = if eligible {
                discovered_config_next_commands(path, manifest_path)
            } else {
                none()
            };
            InstalledConfigCandidate {
                path: path.to_string(),
                exists: true,
                eligible_for_observed_app_hook: eligible,
                missing_requirements: missing,
                checks: Some(checks),
                error: None,
                next_commands,
            }
        },
        Err(e) => InstalledConfigCandidate {
            path: path.to_string(),
            exists: true,
            eligible_for_observed_app_hook: false,
            missing_requirements: none(),
            checks: None,
            error: Some(e.message()),
            next_commands: none(),
        },
    }
}

pub const NO_ROOT: &'static str = "--discover-installed-config requires HOME or --config-root";

/// The directory that configurations are looked for in: the one that the flag names, or
/// else the home directory.
pub open spec fn config_root_of(
    args: AdapterBindingProofArgsView,
    home: Option<Seq<char>>,
) -> Result<Seq<char>, BindingFault> {
    match trimmed_nonblank(args.config_root) {
        Some(root) => Ok(root),
        None => match home {
            Some(h) => Ok(h),
            None => malformed(NO_ROOT@),
        },
    }
}

pub fn resolve_config_root(args: &AdapterBindingProofArgs, home: Option<&str>) -> (r: Result<
    String,
    AdapterBindingProofError,
>)
    ensures
        outcome(r) == config_root_of(args.deep_view(), home.deep_view()),
{
    match trim_nonblank(borrowed(&args.config_root)) {
        Some(root) => Ok(root.to_string()),
        None => match home {
            Some(h) => Ok(h.to_string()),
            None => refuse(NO_ROOT),
        },
    }
}

pub open spec fn candidates_at(
    paths: Seq<Seq<char>>,
    client: Seq<char>,
    source: Seq<char>,
    manifest: Option<Seq<char>>,
    disk: DiskView,
) -> Seq<InstalledConfigCandidateView> {
    Seq::new(paths.len(), |i: int| candidate(paths[i], client, source, manifest, disk))
}

fn find_candidates(
    paths: &Vec<String>,
    client: &str,
    source: &str,
    manifest: Option<&str>,
    disk: &Disk,
) -> (r: Vec<InstalledConfigCandidate>)
    ensures
        r.deep_view() == candidates_at(
            paths.deep_view(),
            client@,
            source@,
            manifest.deep_view(),
            disk.deep_view(),
        ),
{
    let ghost want = candidates_at(
        paths.deep_view(),
        client@,
        source@,
        manifest.deep_view(),
        disk.deep_view(),
    );
    let mut out: Vec<InstalledConfigCandidate> = none();
    let mut i: usize = 0;
    while i < paths.len()
        invariant
            i <= paths.len(),
            want == candidates_at(
                paths.deep_view(),
                client@,
                source@,
                manifest.deep_view(),
                disk.deep_view(),
            ),
            out.deep_view() =~= want.take(i as int),
        decreases paths.len() - i,
    {
        assert(paths.deep_view()[i as int] == paths[i as int]@);
        out =
        with(out, discover_one_installed_config(paths[i].as_str(), client, source, manifest, disk));
        i = i + 1;
    }
    assert(want.take(i as int) =~= want);
    out
}

/// Which candidates are meant.
#[derive(Clone, Copy)]
pub enum CandidateKind {
    Found,
    Eligible,
    EligibleSetup,
    EligibleTarget,
    Target,
}

/// A candidate is one of those that are meant.
pub open spec fn is_of_kind(
    c: InstalledConfigCandidateView,
    kind: CandidateKind,
    targets: Seq<Seq<char>>,
) -> bool {
    match kind {
        CandidateKind::Found => c.exists,
        CandidateKind::Eligible => c.eligible_for_observed_app_hook,
        CandidateKind::EligibleSetup => c.eligible_for_observed_app_hook && !is_target_path(
            c.path,
            targets,
        ),
        CandidateKind::EligibleTarget => c.eligible_for_observed_app_hook && is_target_path(
            c.path,
            targets,
        ),
        CandidateKind::Target => is_target_path(c.path, targets),
    }
}

/// The paths of the candidates that are meant, in order.
pub open spec fn paths_of_kind(
    candidates: Seq<InstalledConfigCandidateView>,
    kind: CandidateKind,
    targets: Seq<Seq<char>>,
) -> Seq<Seq<char>>
    decreases candidates.len(),
{
    if candidates.len() == 0 {
        nil()
    } else {
        let front = paths_of_kind(candidates.drop_last(), kind, targets);
        if is_of_kind(candidates.last(), kind, targets) {
            front.push(candidates.last().path)
        } else {
            front
        }
    }
}

fn of_kind(c: &InstalledConfigCandidate, kind: CandidateKind, targets: &Vec<String>) -> (r: bool)
    ensures
        r == is_of_kind(c.deep_view(), kind, targets.deep_view()),
{
    let target = is_private_client_target_config_path(c.path.as_str(), targets);
    match kind {
        CandidateKind::Found => c.exists,
        CandidateKind::Eligible => c.eligible_for_observed_app_hook,
        CandidateKind::EligibleSetup => c.eligible_for_observed_app_hook && !target,
        CandidateKind::EligibleTarget => c.eligible_for_observed_app_hook && target,
        CandidateKind::Target => target,
    }
}

fn select_paths(
    candidates: &Vec<InstalledConfigCandidate>,
    kind: CandidateKind,
    targets: &Vec<String>,
) -> (r: Vec<String>)
    ensures
        r.deep_view() == paths_of_kind(candidates.deep_view(), kind, targets.deep_view()),
{
    let ghost all = candidates.deep_view();
    let mut out: Vec<String> = none();
    let mut i: usize = 0;
    while i < candidates.len()
        invariant
            i <= candidates.len(),
            all == candidates.deep_view(),
            out.deep_view() == paths_of_kind(all.take(i as int), kind, targets.deep_view()),
        decreases candidates.len() - i,
    {
        assert(all.take(i + 1).drop_last() =~= all.take(i as int));
        assert(all.take(i + 1).last() == candidates[i as int].deep_view());
        if of_kind(&candidates[i], kind, targets) {
            out = with(out, candidates[i].path.clone());
        }
        i = i + 1;
    }
    assert(all.take(i as int) =~= all);
    out
}

pub const DISCOVERY_BOUNDARY: &'static str =
    "discover_installed_config_is_read_only: scans likely config paths and applies the installed-config preflight only; it records no proof row, verifies no app invocation, and does not promote cloud drafts";

/// The number of candidates that are meant.
pub open spec fn count_of_kind(
    candidates: Seq<InstalledConfigCandidateView>,
    kind: CandidateKind,
    targets: Seq<Seq<char>>,
) -> usize {
    paths_of_kind(candidates, kind, targets).len() as usize
}

pub open spec fn discovery_of(
    client: Seq<char>,
    manifest: Option<Seq<char>>,
    source: Seq<char>,
    root: Seq<char>,
    candidates: Seq<InstalledConfigCandidateView>,
) -> AdapterBindingInstalledConfigDiscoveryOutcomeView {
    let targets = target_relpaths(client);
    AdapterBindingInstalledConfigDiscoveryOutcomeView {
        client,
        manifest_path: manifest,
        expected_event_source: source,
        config_root: root,
        known_private_client_target_relpaths: targets,
        candidates_found: count_of_kind(candidates, CandidateKind::Found, targets),
        eligible_candidates: count_of_kind(candidates, CandidateKind::Eligible, targets),
        setup_artifact_eligible_candidates: count_of_kind(
            candidates,
            CandidateKind::EligibleSetup,
            targets,
        ),
        private_client_target_eligible_candidates: count_of_kind(
            candidates,
            CandidateKind::EligibleTarget,
            targets,
        ),
        eligible_setup_artifact_paths: paths_of_kind(
            candidates,
            CandidateKind::EligibleSetup,
            targets,
        ),
        eligible_private_client_target_paths: paths_of_kind(
            candidates,
            CandidateKind::EligibleTarget,
            targets,
        ),
        private_client_target_candidate_paths: paths_of_kind(
            candidates,
            CandidateKind::Target,
            targets,
        ),
        candidates,
        trust_boundary: DISCOVERY_BOUNDARY@,
    }
}

/// What the search for configurations tells.
pub open spec fn discovery(
    args: AdapterBindingProofArgsView,
    home: Option<Seq<char>>,
    disk: DiskView,
) -> Result<AdapterBindingInstalledConfigDiscoveryOutcomeView, BindingFault> {
    match checked_client(args, disk) {
        Err(f) => Err(f),
        Ok(client) => match checked_source(args, client, disk) {
            Err(f) => Err(f),
            Ok(source) => match config_root_of(args, home) {
                Err(f) => Err(f),
                Ok(root) => {
                    let manifest = manifest_path_of(args, client, disk);
                    let paths = config_paths(client, root, args.installed_config);
                    Ok(
                        discovery_of(
                            client,
                            manifest,
                            source,
                            root,
                            candidates_at(paths, client, source, manifest, disk),
                        ),
                    )
                },
            },
        },
    }
}

/// The configurations of a client that were found in the usual places.
pub fn run_discover_installed_config_blocking(
    args: &AdapterBindingProofArgs,
    home: Option<&str>,
    disk: &Disk,
) -> (r: Result<AdapterBindingInstalledConfigDiscoveryOutcome, AdapterBindingProofError>)
    ensures
        outcome(r) == discovery(args.deep_view(), home.deep_view(), disk.deep_view()),
{
    let client = match resolve_client_for_check(args, disk) {
        Err(e) => return Err(e),
        Ok(c) => c,
    };
    let source = match resolve_expected_event_source_for_check(args, client.as_str(), disk) {
        Err(e) => return Err(e),
        Ok(s) => s,
    };
    let manifest = find_manifest_path(args, client.as_str(), disk);
    let root = match resolve_config_root(args, home) {
        Err(e) => return Err(e),
        Ok(r) => r,
    };
    let paths = discover_installed_config_paths(
        client.as_str(),
        root.as_str(),
        borrowed(&args.installed_config),
    );
    let targets = private_client_target_installed_config_relpaths(client.as_str());
    let candidates = find_candidates(
        &paths,
        client.as_str(),
        source.as_str(),
        borrowed(&manifest),
        disk,
    );
    let found = select_paths(&candidates, CandidateKind::Found, &targets);
    let eligible = select_paths(&candidates, CandidateKind::Eligible, &targets);
    let setup = select_paths(&candidates, CandidateKind::EligibleSetup, &targets);
    let installed = select_paths(&candidates, CandidateKind::EligibleTarget, &targets);
    let known = select_paths(&candidates, CandidateKind::Target, &targets);
    assert(found.deep_view().len() == found.len());
    assert(eligible.deep_view().len() == eligible.len());
    assert(setup.deep_view().len() == setup.len());
    assert(installed.deep_view().len() == installed.len());
    Ok(
        AdapterBindingInstalledConfigDiscoveryOutcome {
            manifest_path: manifest,
            expected_event_source: source,
            config_root: root,
            candidates_found: found.len(),
            eligible_candidates: eligible.len(),
            setup_artifact_eligible_candidates: setup.len(),
            private_client_target_eligible_candidates: installed.len(),
            eligible_setup_artifact_paths: setup,
            eligible_private_client_target_paths: installed,
            private_client_target_candidate_paths: known,
            known_private_client_target_relpaths: targets,
            client,
            candidates,
            trust_boundary: DISCOVERY_BOUNDARY.to_string(),
        },
    )
}

/// The first candidate that is meant.
pub open spec fn first_of_kind(
    candidates: Seq<InstalledConfigCandidateView>,
    kind: CandidateKind,
    targets: Seq<Seq<char>>,
) -> Option<InstalledConfigCandidateView>
    decreases candidates.len(),
{
    if candidates.len() == 0 {
        None
    } else if is_of_kind(candidates[0], kind, targets) {
        Some(candidates[0])
    } else {
        first_of_kind(candidates.skip(1), kind, targets)
    }
}

/// The configuration to go on with: the first eligible one where the client reads it, or
/// else the first eligible one.
pub open spec fn best_candidate(d: AdapterBindingInstalledConfigDiscoveryOutcomeView) -> Option<
    InstalledConfigCandidateView,
> {
    let targets = target_relpaths(d.client);
    match first_of_kind(d.candidates, CandidateKind::EligibleTarget, targets) {
        Some(c) => Some(c),
        None => first_of_kind(d.candidates, CandidateKind::Eligible, targets),
    }
}

fn find_of_kind<'a>(
    candidates: &'a Vec<InstalledConfigCandidate>,
    kind: CandidateKind,
    targets: &Vec<String>,
) -> (r: Option<&'a InstalledConfigCandidate>)
    ensures
        r.deep_view() == first_of_kind(candidates.deep_view(), kind, targets.deep_view()),
{
    let ghost all = candidates.deep_view();
    let mut i: usize = 0;
    assert(all.skip(0) =~= all);
    while i < candidates.len()
        invariant
            i <= candidates.len(),
            all == candidates.deep_view(),
            first_of_kind(all, kind, targets.deep_view()) == first_of_kind(
                all.skip(i as int),
                kind,
                targets.deep_view(),
            ),
        decreases candidates.len() - i,
    {
        assert(all.skip(i as int)[0] == candidates[i as int].deep_view());
        if of_kind(&candidates[i], kind, targets) {
            return Some(&candidates[i]);
        }
        assert(all.skip(i as int).skip(1) =~= all.skip(i + 1));
        i = i + 1;
    }
    None
}

pub fn first_eligible_installed_config_candidate(
    discovery: &AdapterBindingInstalledConfigDiscoveryOutcome,
) -> (r: Option<&InstalledConfigCandidate>)
    ensures
        r.deep_view() == best_candidate(discovery.deep_view()),
{
    let targets = private_client_target_installed_config_relpaths(discovery.client.as_str());
    match find_of_kind(&discovery.candidates, CandidateKind::EligibleTarget, &targets) {
        Some(c) => Some(c),
        None => find_of_kind(&discovery.candidates, CandidateKind::Eligible, &targets),
    }
}

}
