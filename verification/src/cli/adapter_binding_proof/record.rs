//! Recording a proof: what each level asks for, and what is stored.
use super::check::{
    expected_event_source_from_manifest, manifest_shape, manifest_source, required, required_str,
    validate_manifest_shape, MANIFEST_SCHEMA,
};
use super::config::{
    config_scan_json, config_suffices, require_installed_config_for_level, scan_installed_config,
    scanned_config,
};
use super::disk::{
    canonical, canonical_if_given, canonical_opt, canonical_or_raw, file_at, seen_or, unseen_file,
    Disk, DiskView,
};
use super::events::{
    ahead, drain_suffices, drained, event_scan_json, event_text, events_suffice, no_counts, not_ahead,
    reject_future_observed_app_hook_events, require_event_scan_for_level,
    require_observed_app_hook_temporal_binding, scan_event_jsonl, scanned_events, times_fit,
    validate_drain_report_for_level, CLOCK_SKEW_NS,
};
use super::evidence::{
    action_scan_json, action_suffices, judged, law_whole_action_report, render_scan_json, render_suffices, report_valid,
    require_render_evidence_for_level, require_review_action_report_for_level,
    require_review_render_for_level, scan_render_evidence, scan_review_action_report,
    scanned_action, scanned_render, validate_review_render,
};
use super::files::{file_scan_json, fingerprinted, json_file, read_json_file, scan_file_fingerprint};
use super::kit::REPORT_LABEL;
use super::proof_laws::{is_release_line, law_counted_events_stand_in_the_file};
use super::readiness::{
    first_of_level, release_grade_evidence_source_policy, source_policy, string_at, text_at,
};
use super::repair::stored_proofs;
use super::types::{
    malformed, refuse, AdapterBindingProofArgs, AdapterBindingProofArgsView,
    AdapterBindingProofError, AdapterBindingProofOutcome, AdapterBindingProofOutcomeView,
    BindingFault, EventScan, EventScanView, FileFingerprintScan, FileFingerprintScanView,
    InstalledConfigScan, InstalledConfigScanView, RenderEvidenceScan, RenderEvidenceScanView,
    ReviewActionReportScan, ReviewActionReportScanView,
};
use crate::json::{as_bool, as_list, as_text, at, get, opt_text, text_in, text_list, Json, JsonView, Members};
use crate::outcome::{borrowed, nonblank, outcome, trim_nonblank, trimmed_nonblank};
use crate::outside::{json_of, json_of_bytes};
use crate::storage::{
    level_name, level_named, ClientBindingProofDraft, ClientBindingProofDraftView,
    ClientBindingProofLevel, StorageError, StoredClientBindingProof, StoredClientBindingProofView,
};
use crate::text::{
    cat2, cat3, contains, lines_of, listed, lower, lowered, mentions, nil, none, ordered_set, same, sorted,
    trim, trimmed, with, Phrase,
};
use vstd::prelude::*;
use vstd::utf8::decode_utf8;

verus! {

// ---------------------------------------------------------------------------
// What is asked for
// ---------------------------------------------------------------------------

/// Why the flags do not ask for a proof to be recorded.
pub open spec fn other_mode(args: AdapterBindingProofArgsView) -> Option<Seq<char>> {
    if args.list {
        Some(USE_LIST@)
    } else if args.status {
        Some(USE_STATUS@)
    } else if args.verify_evidence_artifacts {
        Some(USE_VERIFY@)
    } else if args.discover_installed_config {
        Some(USE_DISCOVER@)
    } else if args.real_app_proof_kit {
        Some(USE_KIT@)
    } else if args.prepare_installed_config {
        Some(USE_PREPARE@)
    } else {
        None
    }
}

pub const USE_LIST: &'static str = "use run_list_blocking for --list mode";

pub const USE_STATUS: &'static str = "use run_status_blocking for --status mode";

pub const USE_VERIFY: &'static str =
    "use run_verify_evidence_artifacts_blocking for --verify-evidence-artifacts mode";

pub const USE_DISCOVER: &'static str =
    "use run_discover_installed_config_blocking for --discover-installed-config mode";

pub const USE_KIT: &'static str =
    "use run_real_app_proof_kit_blocking for --real-app-proof-kit mode";

pub const USE_PREPARE: &'static str =
    "use run_prepare_installed_config_blocking for --prepare-installed-config mode";

pub const RECORD_NEEDS_MANIFEST: &'static str =
    "adapter-binding-proof requires --manifest unless --list is used";

pub const LEVELS_EXPECTED: &'static str =
    "`; expected reference_binding, observed_event_file, observed_app_hook, observed_in_client_render, or observed_review_action";

fn mode_of(args: &AdapterBindingProofArgs) -> (r: Option<&'static str>)
    ensures
        r.deep_view() == other_mode(args.deep_view()),
{
    if args.list {
        Some(USE_LIST)
    } else if args.status {
        Some(USE_STATUS)
    } else if args.verify_evidence_artifacts {
        Some(USE_VERIFY)
    } else if args.discover_installed_config {
        Some(USE_DISCOVER)
    } else if args.real_app_proof_kit {
        Some(USE_KIT)
    } else if args.prepare_installed_config {
        Some(USE_PREPARE)
    } else {
        None
    }
}

/// The confirmation that a level takes and that the flags do not give.
pub open spec fn confirmation_lack(
    level: ClientBindingProofLevel,
    args: AdapterBindingProofArgsView,
) -> Option<Seq<char>> {
    match level {
        ClientBindingProofLevel::ObservedAppHook => if args.operator_confirm_real_app_invocation {
            None
        } else {
            Some(HOOK_UNCONFIRMED@)
        },
        ClientBindingProofLevel::ObservedInClientRender =>
            if args.operator_confirm_in_client_render {
            None
        } else {
            Some(RENDER_UNCONFIRMED@)
        },
        ClientBindingProofLevel::ObservedReviewAction => if args.operator_confirm_review_action {
            None
        } else {
            Some(ACTION_UNCONFIRMED@)
        },
        _ => None,
    }
}

pub const HOOK_UNCONFIRMED: &'static str =
    "observed_app_hook requires --operator-confirm-real-app-invocation";

pub const RENDER_UNCONFIRMED: &'static str =
    "observed_in_client_render requires --operator-confirm-in-client-render";

pub const ACTION_UNCONFIRMED: &'static str =
    "observed_review_action requires --operator-confirm-review-action";

fn lacking_confirmation(
    level: ClientBindingProofLevel,
    args: &AdapterBindingProofArgs,
) -> (r: Option<&'static str>)
    ensures
        r.deep_view() == confirmation_lack(level, args.deep_view()),
{
    match level {
        ClientBindingProofLevel::ObservedAppHook => if args.operator_confirm_real_app_invocation {
            None
        } else {
            Some(HOOK_UNCONFIRMED)
        },
        ClientBindingProofLevel::ObservedInClientRender =>
            if args.operator_confirm_in_client_render {
            None
        } else {
            Some(RENDER_UNCONFIRMED)
        },
        ClientBindingProofLevel::ObservedReviewAction => if args.operator_confirm_review_action {
            None
        } else {
            Some(ACTION_UNCONFIRMED)
        },
        _ => None,
    }
}

/// What a proof is for: its manifest, client and level.
pub struct ProofSubject {
    pub manifest_path: String,
    pub manifest_scan: FileFingerprintScan,
    pub manifest: Json,
    pub client: String,
    pub level: ClientBindingProofLevel,
    pub status: String,
    pub boundary: String,
    pub source: String,
}

/// What a `ProofSubject` holds.
#[verifier::ext_equal]
pub struct ProofSubjectView {
    pub manifest_path: Seq<char>,
    pub manifest_scan: FileFingerprintScanView,
    pub manifest: JsonView,
    pub client: Seq<char>,
    pub level: ClientBindingProofLevel,
    pub status: Seq<char>,
    pub boundary: Seq<char>,
    pub source: Seq<char>,
}

impl DeepView for ProofSubject {
    type V = ProofSubjectView;

    open spec fn deep_view(&self) -> ProofSubjectView {
        ProofSubjectView {
            manifest_path: self.manifest_path.deep_view(),
            manifest_scan: self.manifest_scan.deep_view(),
            manifest: self.manifest.deep_view(),
            client: self.client.deep_view(),
            level: self.level,
            status: self.status.deep_view(),
            boundary: self.boundary.deep_view(),
            source: self.source.deep_view(),
        }
    }
}

/// A manifest file: its fingerprint, and the manifest in it.
pub open spec fn manifest_file(path: Seq<char>, disk: DiskView) -> Result<
    (FileFingerprintScanView, JsonView),
    BindingFault,
> {
    let file = file_at(path, disk);
    match fingerprinted(file, "manifest"@) {
        Err(f) => Err(f),
        Ok(scan) => match json_file(file, "manifest"@) {
            Err(f) => Err(f),
            Ok(m) => match manifest_shape(m) {
                Err(f) => Err(f),
                Ok(_) => Ok((scan, m)),
            },
        },
    }
}

fn read_manifest_file(path: &str, disk: &Disk) -> (r: Result<
    (FileFingerprintScan, Json),
    AdapterBindingProofError,
>)
    ensures
        match r {
            Ok(p) => manifest_file(path@, disk.deep_view()) == Ok::<
                (FileFingerprintScanView, JsonView),
                BindingFault,
            >((p.0.deep_view(), p.1@)),
            Err(e) => manifest_file(path@, disk.deep_view()) == Err::<
                (FileFingerprintScanView, JsonView),
                BindingFault,
            >(e.deep_view()),
        },
{
    let other = unseen_file(path);
    let file = seen_or(disk, path, &other);
    let scan = match scan_file_fingerprint(file, "manifest") {
        Err(e) => return Err(e),
        Ok(s) => s,
    };
    let manifest = match read_json_file(file, "manifest") {
        Err(e) => return Err(e),
        Ok(m) => m,
    };
    match validate_manifest_shape(&manifest) {
        Err(e) => Err(e),
        Ok(_) => Ok((scan, manifest)),
    }
}

/// The client that a proof is for: the manifest's, which the flag may only repeat.
pub open spec fn proof_client(
    manifest: JsonView,
    args: AdapterBindingProofArgsView,
) -> Result<Seq<char>, BindingFault> {
    match required(manifest, "client"@) {
        Err(f) => Err(f),
        Ok(own) => {
            let client = lowered(
                trimmed(
                    match nonblank(args.client) {
                        Some(c) => c,
                        None => own,
                    },
                ),
            );
            if lowered(trimmed(own)) != client {
                malformed(
                    "manifest client `"@ + own + "` does not match requested client `"@ + client
                        + "`"@,
                )
            } else {
                Ok(client)
            }
        },
    }
}

fn find_proof_client(manifest: &Json, args: &AdapterBindingProofArgs) -> (r: Result<
    String,
    AdapterBindingProofError,
>)
    ensures
        outcome(r) == proof_client(manifest@, args.deep_view()),
{
    let own = match required_str(manifest, "client") {
        Err(e) => return Err(e),
        Ok(c) => c,
    };
    let named = match &args.client {
        Some(c) => if trim(c.as_str()).is_empty() {
            own
        } else {
            c.as_str()
        },
        None => own,
    };
    let client = lower(trim(named));
    if !same(lower(trim(own)).as_str(), client.as_str()) {
        let m = Phrase::new("manifest client `").t(own).t("` does not match requested client `").t(
            client.as_str(),
        ).t("`").done();
        return Err(AdapterBindingProofError::MalformedInput(m));
    }
    Ok(client)
}

/// What a proof is for.
pub open spec fn proof_subject(args: AdapterBindingProofArgsView, disk: DiskView) -> Result<
    ProofSubjectView,
    BindingFault,
> {
    match args.manifest {
        None => malformed(RECORD_NEEDS_MANIFEST@),
        Some(given) => {
            let path = canonical(given, disk);
            match manifest_file(path, disk) {
                Err(f) => Err(f),
                Ok((scan, m)) => match proof_client(m, args) {
                    Err(f) => Err(f),
                    Ok(client) => match level_named(args.proof_level) {
                        None => malformed(
                            "unknown proof level `"@ + args.proof_level + LEVELS_EXPECTED@,
                        ),
                        Some(level) => match confirmation_lack(level, args) {
                            Some(lack) => malformed(lack),
                            None => match required(m, "status"@) {
                                Err(f) => Err(f),
                                Ok(status) => match required(m, "trust_boundary"@) {
                                    Err(f) => Err(f),
                                    Ok(boundary) => Ok(
                                        ProofSubjectView {
                                            manifest_path: path,
                                            manifest_scan: scan,
                                            manifest: m,
                                            client,
                                            level,
                                            status,
                                            boundary,
                                            source: manifest_source(m, client),
                                        },
                                    ),
                                },
                            },
                        },
                    },
                },
            }
        },
    }
}

pub fn find_proof_subject(args: &AdapterBindingProofArgs, disk: &Disk) -> (r: Result<
    ProofSubject,
    AdapterBindingProofError,
>)
    ensures
        outcome(r) == proof_subject(args.deep_view(), disk.deep_view()),
{
    let given = match &args.manifest {
        None => return refuse(RECORD_NEEDS_MANIFEST),
        Some(g) => g,
    };
    let path = canonical_or_raw(given.as_str(), disk);
    let (scan, manifest) = match read_manifest_file(path.as_str(), disk) {
        Err(e) => return Err(e),
        Ok(p) => p,
    };
    let client = match find_proof_client(&manifest, args) {
        Err(e) => return Err(e),
        Ok(c) => c,
    };
    let level = match ClientBindingProofLevel::from_wire(args.proof_level.as_str()) {
        None => return refuse(
            cat3("unknown proof level `", args.proof_level.as_str(), LEVELS_EXPECTED).as_str(),
        ),
        Some(l) => l,
    };
    match lacking_confirmation(level, args) {
        Some(lack) => return refuse(lack),
        None => {},
    }
    let status = match required_str(&manifest, "status") {
        Err(e) => return Err(e),
        Ok(s) => s.to_string(),
    };
    let boundary = match required_str(&manifest, "trust_boundary") {
        Err(e) => return Err(e),
        Ok(b) => b.to_string(),
    };
    let source = expected_event_source_from_manifest(&manifest, client.as_str());
    Ok(
        ProofSubject {
            manifest_path: path,
            manifest_scan: scan,
            manifest,
            client,
            level,
            status,
            boundary,
            source,
        },
    )
}

// ---------------------------------------------------------------------------
// The evidence
// ---------------------------------------------------------------------------

/// The evidence for a proof.
pub struct ProofEvidence {
    pub config: Option<InstalledConfigScan>,
    pub events: Option<EventScan>,
    pub drain: Option<Json>,
    pub report_file: Option<FileFingerprintScan>,
    pub report: Option<Json>,
    pub render: Option<RenderEvidenceScan>,
    pub action: Option<ReviewActionReportScan>,
}

/// What a `ProofEvidence` holds.
#[verifier::ext_equal]
pub struct ProofEvidenceView {
    pub config: Option<InstalledConfigScanView>,
    pub events: Option<EventScanView>,
    pub drain: Option<JsonView>,
    pub report_file: Option<FileFingerprintScanView>,
    pub report: Option<JsonView>,
    pub render: Option<RenderEvidenceScanView>,
    pub action: Option<ReviewActionReportScanView>,
}

impl DeepView for ProofEvidence {
    type V = ProofEvidenceView;

    open spec fn deep_view(&self) -> ProofEvidenceView {
        ProofEvidenceView {
            config: self.config.deep_view(),
            events: self.events.deep_view(),
            drain: self.drain.deep_view(),
            report_file: self.report_file.deep_view(),
            report: self.report.deep_view(),
            render: self.render.deep_view(),
            action: self.action.deep_view(),
        }
    }
}

/// A result of looking at a file that may not be named.
pub open spec fn looked<T>(path: Option<Seq<char>>, r: Result<T, BindingFault>) -> Result<
    Option<T>,
    BindingFault,
> {
    match path {
        None => Ok(None),
        Some(_) => match r {
            Ok(v) => Ok(Some(v)),
            Err(f) => Err(f),
        },
    }
}

/// The file that a flag names.
pub open spec fn flag_file(
    path: Option<Seq<char>>,
    disk: DiskView,
) -> super::types::ObservedFileView {
    file_at(canonical(path->0, disk), disk)
}

/// The configuration, which must suffice for the level.
pub open spec fn proof_config(
    h: ProofSubjectView,
    args: AdapterBindingProofArgsView,
    disk: DiskView,
) -> Result<Option<InstalledConfigScanView>, BindingFault> {
    match looked(
        args.installed_config,
        scanned_config(flag_file(args.installed_config, disk), h.client, Some(h.source)),
    ) {
        Err(f) => Err(f),
        Ok(config) => match config_suffices(h.level, config) {
            Err(f) => Err(f),
            Ok(_) => Ok(config),
        },
    }
}

fn find_proof_config(h: &ProofSubject, args: &AdapterBindingProofArgs, disk: &Disk) -> (r: Result<
    Option<InstalledConfigScan>,
    AdapterBindingProofError,
>)
    ensures
        outcome(r) == proof_config(h.deep_view(), args.deep_view(), disk.deep_view()),
{
    let config = match &args.installed_config {
        None => None,
        Some(given) => {
            let path = canonical_or_raw(given.as_str(), disk);
            let other = unseen_file(path.as_str());
            match scan_installed_config(
                seen_or(disk, path.as_str(), &other),
                h.client.as_str(),
                Some(h.source.as_str()),
            ) {
                Err(e) => return Err(e),
                Ok(s) => Some(s),
            }
        },
    };
    match require_installed_config_for_level(h.level, &config) {
        Err(e) => Err(e),
        Ok(_) => Ok(config),
    }
}

/// The nonce of the configuration.
pub open spec fn config_nonce_of(config: Option<InstalledConfigScanView>) -> Option<Seq<char>> {
    match config {
        Some(c) => c.binding_nonce,
        None => None,
    }
}

/// The events, which must suffice for the level and fit the configuration in time.
pub open spec fn proof_events(
    h: ProofSubjectView,
    config: Option<InstalledConfigScanView>,
    args: AdapterBindingProofArgsView,
    disk: DiskView,
) -> Result<Option<EventScanView>, BindingFault> {
    let nonce = config_nonce_of(config);
    match looked(
        args.event_jsonl,
        scanned_events(flag_file(args.event_jsonl, disk), h.client, Some(h.source), nonce),
    ) {
        Err(f) => Err(f),
        Ok(events) => match events_suffice(h.level, events, Some(h.source), nonce) {
            Err(f) => Err(f),
            Ok(_) => match times_fit(h.level, events, config) {
                Err(f) => Err(f),
                Ok(_) => Ok(events),
            },
        },
    }
}

fn find_proof_events(
    h: &ProofSubject,
    config: &Option<InstalledConfigScan>,
    args: &AdapterBindingProofArgs,
    disk: &Disk,
) -> (r: Result<Option<EventScan>, AdapterBindingProofError>)
    ensures
        outcome(r) == proof_events(
            h.deep_view(),
            config.deep_view(),
            args.deep_view(),
            disk.deep_view(),
        ),
{
    let nonce = match config {
        Some(c) => borrowed(&c.binding_nonce),
        None => None,
    };
    let events = match &args.event_jsonl {
        None => None,
        Some(given) => {
            let path = canonical_or_raw(given.as_str(), disk);
            let other = unseen_file(path.as_str());
            match scan_event_jsonl(
                seen_or(disk, path.as_str(), &other),
                h.client.as_str(),
                Some(h.source.as_str()),
                nonce,
            ) {
                Err(e) => return Err(e),
                Ok(s) => Some(s),
            }
        },
    };
    match require_event_scan_for_level(h.level, &events, Some(h.source.as_str()), nonce) {
        Err(e) => return Err(e),
        Ok(_) => {},
    }
    match require_observed_app_hook_temporal_binding(h.level, &events, config) {
        Err(e) => Err(e),
        Ok(_) => Ok(events),
    }
}

/// The drain report, which must suffice for the level.
pub open spec fn proof_drain(
    h: ProofSubjectView,
    args: AdapterBindingProofArgsView,
    disk: DiskView,
) -> Result<Option<JsonView>, BindingFault> {
    match looked(
        args.drain_report,
        json_file(flag_file(args.drain_report, disk), "drain report"@),
    ) {
        Err(f) => Err(f),
        Ok(drain) => match drain_suffices(h.level, drain) {
            Err(f) => Err(f),
            Ok(_) => Ok(drain),
        },
    }
}

fn json_option(j: &Option<Json>) -> (r: Option<&Json>)
    ensures
        r.deep_view() == j.deep_view(),
{
    match j {
        Some(j) => Some(j),
        None => None,
    }
}

fn find_proof_drain(h: &ProofSubject, args: &AdapterBindingProofArgs, disk: &Disk) -> (r: Result<
    Option<Json>,
    AdapterBindingProofError,
>)
    ensures
        outcome(r) == proof_drain(h.deep_view(), args.deep_view(), disk.deep_view()),
{
    let drain = match &args.drain_report {
        None => None,
        Some(given) => {
            let path = canonical_or_raw(given.as_str(), disk);
            let other = unseen_file(path.as_str());
            match read_json_file(seen_or(disk, path.as_str(), &other), "drain report") {
                Err(e) => return Err(e),
                Ok(j) => Some(j),
            }
        },
    };
    match validate_drain_report_for_level(h.level, json_option(&drain)) {
        Err(e) => Err(e),
        Ok(_) => Ok(drain),
    }
}

/// The review report and its file, which must suffice for the level.
pub open spec fn proof_report(
    h: ProofSubjectView,
    args: AdapterBindingProofArgsView,
    disk: DiskView,
) -> Result<(Option<FileFingerprintScanView>, Option<JsonView>), BindingFault> {
    let given = args.review_render_report;
    match looked(given, fingerprinted(flag_file(given, disk), REPORT_LABEL@)) {
        Err(f) => Err(f),
        Ok(file) => match looked(given, json_file(flag_file(given, disk), REPORT_LABEL@)) {
            Err(f) => Err(f),
            Ok(report) => if h.level == ClientBindingProofLevel::ObservedInClientRender
                && report is None {
                malformed("observed_in_client_render requires --review-render-report"@)
            } else {
                match report_valid(report, h.client) {
                    Err(f) => Err(f),
                    Ok(_) => Ok((file, report)),
                }
            },
        },
    }
}

fn find_proof_report(h: &ProofSubject, args: &AdapterBindingProofArgs, disk: &Disk) -> (r: Result<
    (Option<FileFingerprintScan>, Option<Json>),
    AdapterBindingProofError,
>)
    ensures
        match r {
            Ok(p) => proof_report(h.deep_view(), args.deep_view(), disk.deep_view()) == Ok::<
                (Option<FileFingerprintScanView>, Option<JsonView>),
                BindingFault,
            >((p.0.deep_view(), p.1.deep_view())),
            Err(e) => proof_report(h.deep_view(), args.deep_view(), disk.deep_view()) == Err::<
                (Option<FileFingerprintScanView>, Option<JsonView>),
                BindingFault,
            >(e.deep_view()),
        },
{
    let mut file: Option<FileFingerprintScan> = None;
    let mut report: Option<Json> = None;
    match &args.review_render_report {
        None => {},
        Some(given) => {
            let path = canonical_or_raw(given.as_str(), disk);
            let other = unseen_file(path.as_str());
            let seen = seen_or(disk, path.as_str(), &other);
            match scan_file_fingerprint(seen, REPORT_LABEL) {
                Err(e) => return Err(e),
                Ok(s) => {
                    file = Some(s);
                },
            }
            match read_json_file(seen, REPORT_LABEL) {
                Err(e) => return Err(e),
                Ok(j) => {
                    report = Some(j);
                },
            }
        },
    }
    match require_review_render_for_level(h.level, json_option(&report)) {
        Err(e) => return Err(e),
        Ok(_) => {},
    }
    match validate_review_render(json_option(&report), h.client.as_str()) {
        Err(e) => Err(e),
        Ok(_) => Ok((file, report)),
    }
}

/// The render evidence, which must suffice for the level. For in-client-render proof it
/// is held against the report.
pub open spec fn proof_render(
    h: ProofSubjectView,
    file: Option<FileFingerprintScanView>,
    report: Option<JsonView>,
    args: AdapterBindingProofArgsView,
    disk: DiskView,
) -> Result<Option<RenderEvidenceScanView>, BindingFault> {
    match looked(args.render_evidence, scanned_render(flag_file(args.render_evidence, disk))) {
        Err(f) => Err(f),
        Ok(render) => match render_suffices(h.level, render, h.client, file, report) {
            Err(f) => Err(f),
            Ok(_) => if h.level == ClientBindingProofLevel::ObservedInClientRender {
                match render {
                    Some(s) => Ok(Some(judged(s, h.client, file, report))),
                    None => Ok(None),
                }
            } else {
                Ok(render)
            },
        },
    }
}

fn find_proof_render(
    h: &ProofSubject,
    file: &Option<FileFingerprintScan>,
    report: &Option<Json>,
    args: &AdapterBindingProofArgs,
    disk: &Disk,
) -> (r: Result<Option<RenderEvidenceScan>, AdapterBindingProofError>)
    ensures
        outcome(r) == proof_render(
            h.deep_view(),
            file.deep_view(),
            report.deep_view(),
            args.deep_view(),
            disk.deep_view(),
        ),
{
    let mut render = match &args.render_evidence {
        None => None,
        Some(given) => {
            let path = canonical_or_raw(given.as_str(), disk);
            let other = unseen_file(path.as_str());
            match scan_render_evidence(seen_or(disk, path.as_str(), &other)) {
                Err(e) => return Err(e),
                Ok(s) => Some(s),
            }
        },
    };
    let file_ref = match file {
        Some(f) => Some(f),
        None => None,
    };
    match require_render_evidence_for_level(
        h.level,
        &mut render,
        h.client.as_str(),
        file_ref,
        json_option(report),
    ) {
        Err(e) => Err(e),
        Ok(_) => Ok(render),
    }
}

/// The report of a review action, which must suffice for the level.
pub open spec fn proof_action(
    h: ProofSubjectView,
    args: AdapterBindingProofArgsView,
    disk: DiskView,
) -> Result<Option<ReviewActionReportScanView>, BindingFault> {
    match looked(
        args.review_action_report,
        scanned_action(flag_file(args.review_action_report, disk)),
    ) {
        Err(f) => Err(f),
        Ok(action) => match action_suffices(h.level, action) {
            Err(f) => Err(f),
            Ok(_) => Ok(action),
        },
    }
}

fn find_proof_action(h: &ProofSubject, args: &AdapterBindingProofArgs, disk: &Disk) -> (r: Result<
    Option<ReviewActionReportScan>,
    AdapterBindingProofError,
>)
    ensures
        outcome(r) == proof_action(h.deep_view(), args.deep_view(), disk.deep_view()),
{
    let action = match &args.review_action_report {
        None => None,
        Some(given) => {
            let path = canonical_or_raw(given.as_str(), disk);
            let other = unseen_file(path.as_str());
            match scan_review_action_report(seen_or(disk, path.as_str(), &other)) {
                Err(e) => return Err(e),
                Ok(s) => Some(s),
            }
        },
    };
    match require_review_action_report_for_level(h.level, &action) {
        Err(e) => Err(e),
        Ok(_) => Ok(action),
    }
}

/// All the evidence that the flags name, which must suffice for the level.
pub open spec fn proof_evidence(
    h: ProofSubjectView,
    args: AdapterBindingProofArgsView,
    disk: DiskView,
) -> Result<ProofEvidenceView, BindingFault> {
    match proof_config(h, args, disk) {
        Err(f) => Err(f),
        Ok(config) => match proof_events(h, config, args, disk) {
            Err(f) => Err(f),
            Ok(events) => match proof_drain(h, args, disk) {
                Err(f) => Err(f),
                Ok(drain) => match proof_report(h, args, disk) {
                    Err(f) => Err(f),
                    Ok((report_file, report)) => match proof_render(
                        h,
                        report_file,
                        report,
                        args,
                        disk,
                    ) {
                        Err(f) => Err(f),
                        Ok(render) => match proof_action(h, args, disk) {
                            Err(f) => Err(f),
                            Ok(action) => Ok(
                                ProofEvidenceView {
                                    config,
                                    events,
                                    drain,
                                    report_file,
                                    report,
                                    render,
                                    action,
                                },
                            ),
                        },
                    },
                },
            },
        },
    }
}

pub fn find_proof_evidence(
    h: &ProofSubject,
    args: &AdapterBindingProofArgs,
    disk: &Disk,
) -> (r: Result<ProofEvidence, AdapterBindingProofError>)
    ensures
        outcome(r) == proof_evidence(h.deep_view(), args.deep_view(), disk.deep_view()),
{
    let config = match find_proof_config(h, args, disk) {
        Err(e) => return Err(e),
        Ok(c) => c,
    };
    let events = match find_proof_events(h, &config, args, disk) {
        Err(e) => return Err(e),
        Ok(e) => e,
    };
    let drain = match find_proof_drain(h, args, disk) {
        Err(e) => return Err(e),
        Ok(d) => d,
    };
    let (report_file, report) = match find_proof_report(h, args, disk) {
        Err(e) => return Err(e),
        Ok(p) => p,
    };
    let render = match find_proof_render(h, &report_file, &report, args, disk) {
        Err(e) => return Err(e),
        Ok(s) => s,
    };
    let action = match find_proof_action(h, args, disk) {
        Err(e) => return Err(e),
        Ok(s) => s,
    };
    Ok(ProofEvidence { config, events, drain, report_file, report, render, action })
}

// ---------------------------------------------------------------------------
// The proof that a review action rests on
// ---------------------------------------------------------------------------

/// The texts of a list that are not blank, trimmed.
pub open spec fn filled_texts(items: Seq<JsonView>) -> Seq<Seq<char>>
    decreases items.len(),
{
    if items.len() == 0 {
        nil()
    } else {
        let front = filled_texts(items.drop_last());
        match trimmed_nonblank(as_text(Some(items.last()))) {
            Some(t) => front.push(t),
            None => front,
        }
    }
}

/// The texts of a list two members down, in order and without repetitions.
pub open spec fn text_set_at(v: JsonView, outer: Seq<char>, inner: Seq<char>) -> Seq<Seq<char>> {
    match as_list(at(v, outer, inner)) {
        Some(items) => ordered_set(filled_texts(items)),
        None => ordered_set(nil()),
    }
}

pub fn string_vec_pointer(v: &Json, outer: &str, inner: &str) -> (r: Vec<String>)
    ensures
        r.deep_view() == text_set_at(v@, outer@, inner@),
{
    let mut out: Vec<String> = none();
    match crate::json::list_in(v.at(outer, inner)) {
        Some(items) => {
            let ghost all = items.deep_view();
            let mut i: usize = 0;
            while i < items.len()
                invariant
                    i <= items.len(),
                    all == items.deep_view(),
                    out.deep_view() == filled_texts(all.take(i as int)),
                decreases items.len() - i,
            {
                assert(all.take(i + 1).drop_last() =~= all.take(i as int));
                assert(all.take(i + 1).last() == items[i as int].deep_view());
                match trim_nonblank(text_in(Some(&items[i]))) {
                    Some(t) => {
                        out = with(out, t.to_string());
                    },
                    None => {},
                }
                i = i + 1;
            }
            assert(all.take(i as int) =~= all);
        },
        None => {},
    }
    sorted(&out)
}

pub const ACTION_NEEDS_REPORT: &'static str =
    "observed_review_action requires --review-action-report";

pub const ACTION_NEEDS_CONTROL: &'static str =
    "observed_review_action requires review action control_id";

pub const ACTION_NEEDS_CONFIG: &'static str = "observed_review_action requires --installed-config";

pub const ACTION_NEEDS_RENDER: &'static str =
    "observed_review_action requires an existing observed_in_client_render proof";

pub const ACTION_NEEDS_SAME_CONFIG: &'static str =
    "observed_review_action requires the linked render proof to use the same installed config fingerprint and binding_nonce";

/// The link to a render proof, as it is stored.
pub open spec fn link_json(
    p: StoredClientBindingProofView,
    control_id: Seq<char>,
    rendered: Seq<Seq<char>>,
    on_surface: Seq<Seq<char>>,
) -> JsonView {
    JsonView::Object(Seq::empty().push(("proof_id"@, JsonView::Int(p.id as int)))
        .push(("proof_level"@, JsonView::Text(level_name(p.proof_level))))
        .push(("observed_at_ns"@, JsonView::Int(p.observed_at_ns as int)))
        .push(("control_id"@, JsonView::Text(control_id)))
        .push(("rendered_control_ids"@, text_list(rendered)))
        .push(("action_surface_rendered_control_ids"@, text_list(on_surface)))
        .push(("control_id_in_rendered_control_ids"@, JsonView::Bool(true)))
        .push(("control_id_in_action_surface_rendered_control_ids"@, JsonView::Bool(true)))
        .push(("installed_config_fingerprint"@, opt_text(
        text_at(p.checks_json, "installed_config_scan"@, "fingerprint"@))))
        .push(("installed_config_binding_nonce"@,
        opt_text(text_at(p.checks_json, "installed_config_scan"@, "binding_nonce"@))))
        .push(("installed_config_fingerprint_matches"@, JsonView::Bool(true)))
        .push(("installed_config_binding_nonce_matches"@, JsonView::Bool(true))))
}

/// The render proof that a review action rests on: the latest one, which must have shown
/// the control, globally and on the surface with the buttons, and have been made with the
/// same configuration.
pub open spec fn linked_proof(
    config: Option<InstalledConfigScanView>,
    action: Option<ReviewActionReportScanView>,
    earlier: Result<Seq<StoredClientBindingProofView>, BindingFault>,
) -> Result<JsonView, BindingFault> {
    match action {
        None => malformed(ACTION_NEEDS_REPORT@),
        Some(a) => match a.control_id {
            None => malformed(ACTION_NEEDS_CONTROL@),
            Some(control_id) => match config {
                None => malformed(ACTION_NEEDS_CONFIG@),
                Some(c) => match earlier {
                    Err(f) => Err(f),
                    Ok(proofs) => match first_of_level(
                        proofs,
                        ClientBindingProofLevel::ObservedInClientRender,
                    ) {
                        None => malformed(ACTION_NEEDS_RENDER@),
                        Some(p) => {
                            let rendered = text_set_at(
                                p.checks_json,
                                "render_evidence_scan"@,
                                "rendered_control_ids"@,
                            );
                            let on_surface = text_set_at(
                                p.checks_json,
                                "render_evidence_scan"@,
                                "action_surface_rendered_control_ids"@,
                            );
                            if !rendered.contains(control_id) || !on_surface.contains(control_id) {
                                malformed(
                                    "observed_review_action control_id `"@ + control_id
                                        + "` was not present in the latest observed_in_client_render proof"@,
                                )
                            } else if text_at(
                                p.checks_json,
                                "installed_config_scan"@,
                                "fingerprint"@,
                            ) != Some(c.fingerprint) || text_at(
                                p.checks_json,
                                "installed_config_scan"@,
                                "binding_nonce"@,
                            ) != c.binding_nonce {
                                malformed(ACTION_NEEDS_SAME_CONFIG@)
                            } else {
                                Ok(link_json(p, control_id, rendered, on_surface))
                            }
                        },
                    },
                },
            },
        },
    }
}

fn find_render_proof(proofs: &Vec<StoredClientBindingProof>) -> (r: Option<
    &StoredClientBindingProof,
>)
    ensures
        r.deep_view() == first_of_level(
            proofs.deep_view(),
            ClientBindingProofLevel::ObservedInClientRender,
        ),
{
    let ghost all = proofs.deep_view();
    let ghost level = ClientBindingProofLevel::ObservedInClientRender;
    let mut i: usize = 0;
    assert(all.skip(0) =~= all);
    while i < proofs.len()
        invariant
            i <= proofs.len(),
            all == proofs.deep_view(),
            level == ClientBindingProofLevel::ObservedInClientRender,
            first_of_level(all, level) == first_of_level(all.skip(i as int), level),
        decreases proofs.len() - i,
    {
        assert(all.skip(i as int)[0] == proofs[i as int].deep_view());
        match proofs[i].proof_level {
            ClientBindingProofLevel::ObservedInClientRender => return Some(&proofs[i]),
            _ => {},
        }
        assert(all.skip(i as int).skip(1) =~= all.skip(i + 1));
        i = i + 1;
    }
    None
}

/// Two texts that may be missing are the same.
fn same_option(a: Option<&str>, b: Option<&str>) -> (r: bool)
    ensures
        r == (a.deep_view() == b.deep_view()),
{
    match (a, b) {
        (Some(x), Some(y)) => same(x, y),
        (None, None) => true,
        _ => false,
    }
}

/// The render proof that a review action rests on. `earlier` are the client's proofs, newest
/// first, or why they could not be listed.
pub fn link_review_action_to_render_proof(
    config: &Option<InstalledConfigScan>,
    action: &Option<ReviewActionReportScan>,
    earlier: &Result<Vec<StoredClientBindingProof>, StorageError>,
) -> (r: Result<Json, AdapterBindingProofError>)
    ensures
        outcome(r) == linked_proof(config.deep_view(), action.deep_view(), stored_proofs(*earlier)),
{
    let scan = match action {
        None => return refuse(ACTION_NEEDS_REPORT),
        Some(a) => a,
    };
    let control_id = match &scan.control_id {
        None => return refuse(ACTION_NEEDS_CONTROL),
        Some(c) => c.as_str(),
    };
    let c = match config {
        None => return refuse(ACTION_NEEDS_CONFIG),
        Some(c) => c,
    };
    let proofs = match earlier {
        Err(e) => return Err(
            AdapterBindingProofError::Storage(StorageError { message: e.message.clone() }),
        ),
        Ok(p) => p,
    };
    let p = match find_render_proof(proofs) {
        None => return refuse(ACTION_NEEDS_RENDER),
        Some(p) => p,
    };
    let rendered = string_vec_pointer(
        &p.checks_json,
        "render_evidence_scan",
        "rendered_control_ids",
    );
    let on_surface = string_vec_pointer(
        &p.checks_json,
        "render_evidence_scan",
        "action_surface_rendered_control_ids",
    );
    if !listed(&rendered, control_id) || !listed(&on_surface, control_id) {
        return refuse(
            cat3(
                "observed_review_action control_id `",
                control_id,
                "` was not present in the latest observed_in_client_render proof",
            ).as_str(),
        );
    }
    let fingerprint = string_at(&p.checks_json, "installed_config_scan", "fingerprint");
    let nonce = string_at(&p.checks_json, "installed_config_scan", "binding_nonce");
    if !same_option(fingerprint, Some(c.fingerprint.as_str())) || !same_option(
        nonce,
        borrowed(&c.binding_nonce),
    ) {
        return refuse(ACTION_NEEDS_SAME_CONFIG);
    }
    Ok(Members::new().integer("proof_id", p.id as i128).text("proof_level", p.proof_level.as_str())
        .integer("observed_at_ns", p.observed_at_ns as i128).text("control_id", control_id)
        .texts("rendered_control_ids", &rendered).texts(
        "action_surface_rendered_control_ids", &on_surface)
        .flag("control_id_in_rendered_control_ids", true)
        .flag("control_id_in_action_surface_rendered_control_ids", true)
        .opt_text("installed_config_fingerprint", fingerprint)
        .opt_text("installed_config_binding_nonce", nonce)
        .flag("installed_config_fingerprint_matches", true)
        .flag("installed_config_binding_nonce_matches", true).done())
}

// ---------------------------------------------------------------------------
// What is stored
// ---------------------------------------------------------------------------

pub const HOOK_TRUST: &'static str =
    "observed_app_hook: operator confirmed the event evidence came from the private app hook with matching private event_source, binding_nonce, writer metadata, and temporal binding; trust still stops at captured local/tool/user evidence and never promotes cloud drafts directly";

pub const RENDER_TRUST: &'static str =
    "observed_in_client_render: operator confirmed the read-only review render plan was visible inside the client; this proves UI rendering only and never verifies, promotes, applies, or acknowledges review items";

pub const ACTION_TRUST: &'static str =
    "observed_review_action: operator confirmed a soma_review_action report from a rendered client control_id that matched prior in-client render evidence; this proves the review UI action loop reached storage verification gates but still does not make cloud drafts durable without those gates";

pub const EVENT_FILE_TRUST_END: &'static str =
    "; event files alone still do not prove a private app hook";

/// How far a proof may be trusted.
pub open spec fn level_trust(level: ClientBindingProofLevel, boundary: Seq<char>) -> Seq<char> {
    match level {
        ClientBindingProofLevel::ReferenceBinding => "reference_binding_only: "@ + boundary,
        ClientBindingProofLevel::ObservedEventFile => "observed_event_file_only: "@ + boundary
            + EVENT_FILE_TRUST_END@,
        ClientBindingProofLevel::ObservedAppHook => HOOK_TRUST@,
        ClientBindingProofLevel::ObservedInClientRender => RENDER_TRUST@,
        ClientBindingProofLevel::ObservedReviewAction => ACTION_TRUST@,
    }
}

pub fn trust_boundary_for_level(
    proof_level: ClientBindingProofLevel,
    manifest_trust_boundary: &str,
) -> (r: String)
    ensures
        r@ == level_trust(proof_level, manifest_trust_boundary@),
{
    match proof_level {
        ClientBindingProofLevel::ReferenceBinding => cat2(
            "reference_binding_only: ",
            manifest_trust_boundary,
        ),
        ClientBindingProofLevel::ObservedEventFile => cat3(
            "observed_event_file_only: ",
            manifest_trust_boundary,
            EVENT_FILE_TRUST_END,
        ),
        ClientBindingProofLevel::ObservedAppHook => HOOK_TRUST.to_string(),
        ClientBindingProofLevel::ObservedInClientRender => RENDER_TRUST.to_string(),
        ClientBindingProofLevel::ObservedReviewAction => ACTION_TRUST.to_string(),
    }
}

/// A value, or null.
pub open spec fn json_or_null(v: Option<JsonView>) -> JsonView {
    match v {
        Some(v) => v,
        None => JsonView::Null,
    }
}

fn or_null(v: Option<Json>) -> (r: Json)
    ensures
        r@ == json_or_null(v.deep_view()),
{
    match v {
        Some(v) => v,
        None => Json::Null,
    }
}

pub open spec fn event_json(s: Option<EventScanView>) -> Option<JsonView> {
    match s {
        Some(s) => Some(event_scan_json(s)),
        None => None,
    }
}

fn make_event_json(s: &Option<EventScan>) -> (r: Option<Json>)
    ensures
        r.deep_view() == event_json(s.deep_view()),
{
    match s {
        Some(s) => Some(s.to_json()),
        None => None,
    }
}

pub open spec fn config_json(s: Option<InstalledConfigScanView>) -> Option<JsonView> {
    match s {
        Some(s) => Some(config_scan_json(s)),
        None => None,
    }
}

fn make_config_json(s: &Option<InstalledConfigScan>) -> (r: Option<Json>)
    ensures
        r.deep_view() == config_json(s.deep_view()),
{
    match s {
        Some(s) => Some(s.to_json()),
        None => None,
    }
}

pub open spec fn render_json(s: Option<RenderEvidenceScanView>) -> Option<JsonView> {
    match s {
        Some(s) => Some(render_scan_json(s)),
        None => None,
    }
}

fn make_render_json(s: &Option<RenderEvidenceScan>) -> (r: Option<Json>)
    ensures
        r.deep_view() == render_json(s.deep_view()),
{
    match s {
        Some(s) => Some(s.to_json()),
        None => None,
    }
}

pub open spec fn action_json(s: Option<ReviewActionReportScanView>) -> Option<JsonView> {
    match s {
        Some(s) => Some(action_scan_json(s)),
        None => None,
    }
}

fn make_action_json(s: &Option<ReviewActionReportScan>) -> (r: Option<Json>)
    ensures
        r.deep_view() == action_json(s.deep_view()),
{
    match s {
        Some(s) => Some(s.to_json()),
        None => None,
    }
}

pub open spec fn file_json(s: Option<FileFingerprintScanView>) -> Option<JsonView> {
    match s {
        Some(s) => Some(file_scan_json(s)),
        None => None,
    }
}

fn make_file_json(s: &Option<FileFingerprintScan>) -> (r: Option<Json>)
    ensures
        r.deep_view() == file_json(s.deep_view()),
{
    match s {
        Some(s) => Some(s.to_json()),
        None => None,
    }
}

/// A manifest names a wrapper.
pub open spec fn names_wrapper(manifest: JsonView, part: Seq<char>, wrapper: Seq<char>) -> bool {
    as_text(at(manifest, part, "wrapper"@)) == Some(wrapper)
}

fn has_wrapper(manifest: &Json, part: &str, wrapper: &str) -> (r: bool)
    ensures
        r == names_wrapper(manifest@, part@, wrapper@),
{
    match text_in(manifest.at(part, "wrapper")) {
        Some(w) => same(w, wrapper),
        None => false,
    }
}

/// What was checked for a proof, as it is stored.
pub open spec fn checks_json(
    h: ProofSubjectView,
    x: ProofEvidenceView,
    linked: Option<JsonView>,
    args: AdapterBindingProofArgsView,
    now: i64,
) -> JsonView {
    JsonView::Object(Seq::empty().push(("manifest_schema"@, JsonView::Text(MANIFEST_SCHEMA@)))
        .push(("manifest_names_lifecycle_wrapper"@,
        JsonView::Bool(names_wrapper(h.manifest, "lifecycle"@,
        "tools/soma-adapter-lifecycle.sh"@)))).push(
        ("manifest_names_spool_wrapper"@, JsonView::Bool(
        names_wrapper(h.manifest, "spool_drain"@, "tools/soma-adapter-spool-watch.sh"@))))
        .push(("manifest_names_review_wrapper"@, JsonView::Bool(
        names_wrapper(h.manifest, "review_ui"@, "tools/soma-review-render.sh"@))))
        .push(("manifest_refuses_private_install_proof"@,
        JsonView::Bool(contains(h.boundary, "does not prove"@))))
        .push(("manifest_scan"@, file_scan_json(h.manifest_scan)))
        .push(("expected_private_event_source"@, JsonView::Text(h.source)))
        .push(("event_scan"@, json_or_null(event_json(x.events))))
        .push(("installed_config_scan"@, json_or_null(config_json(x.config))))
        .push(("render_evidence_scan"@, json_or_null(render_json(x.render))))
        .push(("review_action_report_scan"@, json_or_null(action_json(x.action))))
        .push(("linked_render_proof"@, json_or_null(linked)))
        .push(("drain_report_present"@, JsonView::Bool(x.drain is Some)))
        .push(("review_render_present"@, JsonView::Bool(x.report is Some)))
        .push(("review_render_file_scan"@, json_or_null(file_json(x.report_file))))
        .push(("proof_observed_at_ns"@, JsonView::Int(now as int)))
        .push(("operator_confirmed_real_app_invocation"@,
        JsonView::Bool(args.operator_confirm_real_app_invocation)))
        .push(("operator_confirmed_in_client_render"@,
        JsonView::Bool(args.operator_confirm_in_client_render)))
        .push(("operator_confirmed_review_action"@,
        JsonView::Bool(args.operator_confirm_review_action)))
        .push(("operator_confirmed_release_grade_evidence"@,
        JsonView::Bool(args.operator_confirm_release_grade_evidence)))
        .push(("release_grade_evidence_source_policy"@,
        source_policy(args.evidence_source, args.operator_confirm_release_grade_evidence))))
}

fn make_checks(
    h: &ProofSubject,
    x: &ProofEvidence,
    linked: Option<Json>,
    args: &AdapterBindingProofArgs,
    now: i64,
) -> (r: Json)
    ensures
        r@ == checks_json(
            h.deep_view(),
            x.deep_view(),
            linked.deep_view(),
            args.deep_view(),
            now,
        ),
{
    Members::new().text("manifest_schema", MANIFEST_SCHEMA)
        .flag("manifest_names_lifecycle_wrapper",
        has_wrapper(&h.manifest, "lifecycle", "tools/soma-adapter-lifecycle.sh"))
        .flag("manifest_names_spool_wrapper", has_wrapper(
        &h.manifest, "spool_drain", "tools/soma-adapter-spool-watch.sh"))
        .flag("manifest_names_review_wrapper", has_wrapper(
        &h.manifest, "review_ui", "tools/soma-review-render.sh"))
        .put("manifest_refuses_private_install_proof",
        Json::Bool(mentions(h.boundary.as_str(), "does not prove")))
        .put("manifest_scan", h.manifest_scan.to_json())
        .text("expected_private_event_source", h.source.as_str())
        .put("event_scan", or_null(make_event_json(&x.events)))
        .put("installed_config_scan", or_null(make_config_json(&x.config)))
        .put("render_evidence_scan", or_null(make_render_json(&x.render)))
        .put("review_action_report_scan", or_null(make_action_json(&x.action)))
        .put("linked_render_proof", or_null(linked)).flag("drain_report_present", x.drain.is_some())
        .flag("review_render_present", x.report.is_some())
        .put("review_render_file_scan", or_null(make_file_json(&x.report_file)))
        .integer("proof_observed_at_ns", now as i128)
        .flag("operator_confirmed_real_app_invocation", args.operator_confirm_real_app_invocation)
        .flag("operator_confirmed_in_client_render", args.operator_confirm_in_client_render)
        .flag("operator_confirmed_review_action", args.operator_confirm_review_action)
        .flag("operator_confirmed_release_grade_evidence",
        args.operator_confirm_release_grade_evidence)
        .put("release_grade_evidence_source_policy",
        release_grade_evidence_source_policy(args.evidence_source.as_str(),
        args.operator_confirm_release_grade_evidence)).done()
}

/// A proof, ready to be stored.
pub open spec fn draft_of(
    h: ProofSubjectView,
    x: ProofEvidenceView,
    linked: Option<JsonView>,
    args: AdapterBindingProofArgsView,
    disk: DiskView,
    now: i64,
) -> ClientBindingProofDraftView {
    ClientBindingProofDraftView {
        client: h.client,
        proof_level: h.level,
        manifest_path: h.manifest_path,
        manifest_status: h.status,
        evidence_source: trimmed(args.evidence_source),
        event_jsonl_path: canonical_opt(args.event_jsonl, disk),
        installed_config_path: canonical_opt(args.installed_config, disk),
        render_evidence_path: canonical_opt(args.render_evidence, disk),
        review_action_report_path: canonical_opt(args.review_action_report, disk),
        drain_report_json: x.drain,
        review_render_json: x.report,
        trust_boundary: level_trust(h.level, h.boundary),
        checks_json: checks_json(h, x, linked, args, now),
        observed_at_ns: now,
    }
}

/// The proof that a review action rests on, where the level takes one.
pub open spec fn link_for_level(
    level: ClientBindingProofLevel,
    x: ProofEvidenceView,
    earlier: Result<Seq<StoredClientBindingProofView>, BindingFault>,
) -> Result<Option<JsonView>, BindingFault> {
    if level == ClientBindingProofLevel::ObservedReviewAction {
        match linked_proof(x.config, x.action, earlier) {
            Err(f) => Err(f),
            Ok(l) => Ok(Some(l)),
        }
    } else {
        Ok(None)
    }
}

fn find_link(
    level: ClientBindingProofLevel,
    x: &ProofEvidence,
    earlier: &Result<Vec<StoredClientBindingProof>, StorageError>,
) -> (r: Result<Option<Json>, AdapterBindingProofError>)
    ensures
        outcome(r) == link_for_level(level, x.deep_view(), stored_proofs(*earlier)),
{
    match level {
        ClientBindingProofLevel::ObservedReviewAction => {
            match link_review_action_to_render_proof(&x.config, &x.action, earlier) {
                Err(e) => Err(e),
                Ok(l) => Ok(Some(l)),
            }
        },
        _ => Ok(None),
    }
}

/// The proof to be stored, or why there is none. The store must open; what it lists counts
/// for a review action only.
pub open spec fn proof_draft(
    args: AdapterBindingProofArgsView,
    opened: Result<(), BindingFault>,
    earlier: Result<Seq<StoredClientBindingProofView>, BindingFault>,
    now: i64,
    disk: DiskView,
) -> Result<ClientBindingProofDraftView, BindingFault> {
    match other_mode(args) {
        Some(m) => malformed(m),
        None => match proof_subject(args, disk) {
            Err(f) => Err(f),
            Ok(h) => match proof_evidence(h, args, disk) {
                Err(f) => Err(f),
                Ok(x) => match opened {
                    Err(f) => Err(f),
                    Ok(_) => match link_for_level(h.level, x, earlier) {
                        Err(f) => Err(f),
                        Ok(linked) => match not_ahead(h.level, x.events, now) {
                            Err(f) => Err(f),
                            Ok(_) => Ok(draft_of(h, x, linked, args, disk, now)),
                        },
                    },
                },
            },
        },
    }
}

/// The opened store, or why there is none.
pub open spec fn store_opened(opened: Result<(), StorageError>) -> Result<(), BindingFault> {
    match opened {
        Ok(_) => Ok(()),
        Err(e) => Err(BindingFault::Storage(e.message@)),
    }
}

/// The proof to be stored, or why there is none. `opened` tells whether the store opened,
/// `earlier` are the client's proofs, newest first, and `proof_observed_at_ns` is the time.
/// `proof_outcome` tells what came of it.
pub fn run_blocking(
    args: &AdapterBindingProofArgs,
    opened: Result<(), StorageError>,
    earlier: &Result<Vec<StoredClientBindingProof>, StorageError>,
    proof_observed_at_ns: i64,
    disk: &Disk,
) -> (r: Result<ClientBindingProofDraft, AdapterBindingProofError>)
    ensures
        outcome(r) == proof_draft(
            args.deep_view(),
            store_opened(opened),
            stored_proofs(*earlier),
            proof_observed_at_ns,
            disk.deep_view(),
        ),
{
    match mode_of(args) {
        Some(m) => return refuse(m),
        None => {},
    }
    let h = match find_proof_subject(args, disk) {
        Err(e) => return Err(e),
        Ok(h) => h,
    };
    let x = match find_proof_evidence(&h, args, disk) {
        Err(e) => return Err(e),
        Ok(x) => x,
    };
    match opened {
        Err(e) => return Err(AdapterBindingProofError::Storage(e)),
        Ok(_) => {},
    }
    let linked = match find_link(h.level, &x, earlier) {
        Err(e) => return Err(e),
        Ok(l) => l,
    };
    match reject_future_observed_app_hook_events(h.level, &x.events, proof_observed_at_ns) {
        Err(e) => return Err(e),
        Ok(_) => {},
    }
    let checks = make_checks(&h, &x, linked, args, proof_observed_at_ns);
    Ok(
        ClientBindingProofDraft {
            proof_level: h.level,
            evidence_source: trim(args.evidence_source.as_str()).to_string(),
            event_jsonl_path: canonical_if_given(borrowed(&args.event_jsonl), disk),
            installed_config_path: canonical_if_given(borrowed(&args.installed_config), disk),
            render_evidence_path: canonical_if_given(borrowed(&args.render_evidence), disk),
            review_action_report_path: canonical_if_given(
                borrowed(&args.review_action_report),
                disk,
            ),
            drain_report_json: x.drain,
            review_render_json: x.report,
            trust_boundary: trust_boundary_for_level(h.level, h.boundary.as_str()),
            client: h.client,
            manifest_path: h.manifest_path,
            manifest_status: h.status,
            checks_json: checks,
            observed_at_ns: proof_observed_at_ns,
        },
    )
}

/// What is told of a proof that was stored.
pub open spec fn outcome_of(draft: ClientBindingProofDraftView, proof_id: i64) ->
    AdapterBindingProofOutcomeView {
    AdapterBindingProofOutcomeView {
        proof_id,
        client: draft.client,
        proof_level: draft.proof_level,
        manifest_status: draft.manifest_status,
        evidence_source: draft.evidence_source,
        trust_boundary: draft.trust_boundary,
        checks: draft.checks_json,
    }
}

/// What is told of a proof once the store gave it an id.
pub fn proof_outcome(
    draft: ClientBindingProofDraft,
    stored_as: Result<i64, StorageError>,
) -> (r: Result<AdapterBindingProofOutcome, AdapterBindingProofError>)
    ensures
        outcome(r) == match stored_as {
            Ok(id) => Ok(outcome_of(draft.deep_view(), id)),
            Err(e) => Err(BindingFault::Storage(e.message@)),
        },
{
    match stored_as {
        Err(e) => Err(AdapterBindingProofError::Storage(e)),
        Ok(proof_id) => Ok(
            AdapterBindingProofOutcome {
                proof_id,
                client: draft.client,
                proof_level: draft.proof_level,
                manifest_status: draft.manifest_status,
                evidence_source: draft.evidence_source,
                trust_boundary: draft.trust_boundary,
                checks: draft.checks_json,
            },
        ),
    }
}

// ---------------------------------------------------------------------------
// Laws
// ---------------------------------------------------------------------------

/// An app-hook proof is stored only with the operator's confirmation, a configuration
/// that refers to the wrapper, the client, the spool, the event source and the nonce, at
/// least one event of that source with that nonce, and a drain report that tells of a
/// capture. The event is no older than the configuration, as far as clocks may differ.
pub proof fn law_app_hook_proof_is_grounded(
    args: AdapterBindingProofArgsView,
    opened: Result<(), BindingFault>,
    earlier: Result<Seq<StoredClientBindingProofView>, BindingFault>,
    now: i64,
    disk: DiskView,
)
    requires
        proof_draft(args, opened, earlier, now, disk) is Ok,
        proof_draft(args, opened, earlier, now, disk)->Ok_0.proof_level
            == ClientBindingProofLevel::ObservedAppHook,
    ensures
        args.operator_confirm_real_app_invocation,
        ({
            let h = proof_subject(args, disk)->Ok_0;
            let x = proof_evidence(h, args, disk)->Ok_0;
            &&& x.config matches Some(c) && c.references_client && c.references_event_jsonl_env
                && c.references_private_event_source && c.references_binding_nonce && (
            c.references_lifecycle_wrapper || c.references_spool_append)
            &&& x.events matches Some(e) && e.matching_private_event_sources > 0
                && e.matching_private_writer_contract_events > 0
                && e.matching_private_binding_nonces > 0
            &&& x.events->0.max_matching_private_observed_at_ns is Some
            &&& x.config->0.modified_at_ns matches Some(changed) && changed <= ahead(
                x.events->0.max_matching_private_observed_at_ns->0,
                CLOCK_SKEW_NS,
            )
            &&& x.drain matches Some(d) && (drained(d, "captured_turns"@) > 0 || drained(
                d,
                "captured_cloud_outputs"@,
            ) > 0)
        }),
{
}

/// An in-client-render proof is stored only with the operator's confirmation and with
/// render evidence that lacks nothing when it is held against the review report.
pub proof fn law_render_proof_is_grounded(
    args: AdapterBindingProofArgsView,
    opened: Result<(), BindingFault>,
    earlier: Result<Seq<StoredClientBindingProofView>, BindingFault>,
    now: i64,
    disk: DiskView,
)
    requires
        proof_draft(args, opened, earlier, now, disk) is Ok,
        proof_draft(args, opened, earlier, now, disk)->Ok_0.proof_level
            == ClientBindingProofLevel::ObservedInClientRender,
    ensures
        args.operator_confirm_in_client_render,
        ({
            let h = proof_subject(args, disk)->Ok_0;
            let x = proof_evidence(h, args, disk)->Ok_0;
            &&& x.report is Some
            &&& x.render matches Some(s) && s.missing_requirements.len() == 0
                && s.valid_structured_render_evidence
        }),
{
}

/// A review-action proof is stored only with the operator's confirmation, with a report
/// that lacks nothing, and upon a render proof that showed the control and was made with
/// the same configuration. The file of the report is JSON, and at least one of the
/// verification events in it neither was verified by a cloud model, a cloud draft or a
/// language model, nor rests on a cloud output, a cloud draft or a language model's output.
pub proof fn law_review_action_proof_is_grounded(
    args: AdapterBindingProofArgsView,
    opened: Result<(), BindingFault>,
    earlier: Result<Seq<StoredClientBindingProofView>, BindingFault>,
    now: i64,
    disk: DiskView,
)
    requires
        proof_draft(args, opened, earlier, now, disk) is Ok,
        proof_draft(args, opened, earlier, now, disk)->Ok_0.proof_level
            == ClientBindingProofLevel::ObservedReviewAction,
    ensures
        args.operator_confirm_review_action,
        ({
            let h = proof_subject(args, disk)->Ok_0;
            let x = proof_evidence(h, args, disk)->Ok_0;
            let control = x.action->0.control_id;
            &&& x.action matches Some(a) && a.missing_requirements.len() == 0
            &&& control is Some
            &&& earlier is Ok
            &&& first_of_level(
                earlier->Ok_0,
                ClientBindingProofLevel::ObservedInClientRender,
            ) matches Some(p) && text_set_at(
                p.checks_json,
                "render_evidence_scan"@,
                "rendered_control_ids"@,
            ).contains(control->0) && text_set_at(
                p.checks_json,
                "render_evidence_scan"@,
                "action_surface_rendered_control_ids"@,
            ).contains(control->0) && text_at(
                p.checks_json,
                "installed_config_scan"@,
                "fingerprint"@,
            ) == Some(x.config->0.fingerprint) && text_at(
                p.checks_json,
                "installed_config_scan"@,
                "binding_nonce"@,
            ) == x.config->0.binding_nonce
        }),
        args.review_action_report is Some,
        ({
            let file = file_at(canonical(args.review_action_report->0, disk), disk);
            &&& file.metadata_error is None
            &&& file.read_error is None
            &&& json_of_bytes(file.contents) matches Ok(v) && {
                &&& as_bool(get(v, "control_binding_verified"@)) == Some(true)
                &&& as_text(get(v, "trust_boundary"@)) == Some(
                    "review_action_uses_verification_storage_gates_and_required_current_control_binding"@,
                )
                &&& as_list(get(v, "claim_ids"@)) matches Some(ids) && ids.len() > 0
                &&& as_list(get(v, "verification_event_ids"@)) matches Some(ids) && ids.len() > 0
                &&& as_list(get(v, "verification_events"@)) matches Some(events) && exists|i: int|
                    0 <= i < events.len() && {
                        let verifier = as_text(get(#[trigger] events[i], "verifier_type"@));
                        let kind = as_text(at(events[i], "evidence_ref"@, "kind"@));
                        &&& verifier != Some("cloud_model"@)
                        &&& verifier != Some("cloud_draft"@)
                        &&& verifier != Some("llm"@)
                        &&& kind != Some("cloud_output"@)
                        &&& kind != Some("cloud_draft"@)
                        &&& kind != Some("llm_output"@)
                    }
            }
        }),
{
    let file = file_at(canonical(args.review_action_report->0, disk), disk);
    law_whole_action_report(
        file.path,
        file.modified_at_ns,
        file.contents,
        json_of_bytes(file.contents),
    );
}

/// A report whose events were all verified by a cloud model, a cloud draft or a language
/// model, or rest on the output of one, proves no review action: whatever else is given, no
/// proof of that level is stored.
pub proof fn law_cloud_reports_prove_no_action(
    args: AdapterBindingProofArgsView,
    opened: Result<(), BindingFault>,
    earlier: Result<Seq<StoredClientBindingProofView>, BindingFault>,
    now: i64,
    disk: DiskView,
    v: JsonView,
    events: Seq<JsonView>,
)
    requires
        args.review_action_report is Some,
        json_of_bytes(
            file_at(canonical(args.review_action_report->0, disk), disk).contents,
        ) == Ok::<JsonView, Seq<char>>(v),
        as_list(get(v, "verification_events"@)) == Some(events),
        forall|i: int|
            0 <= i < events.len() ==> {
                let verifier = as_text(get(#[trigger] events[i], "verifier_type"@));
                let kind = as_text(at(events[i], "evidence_ref"@, "kind"@));
                ||| verifier == Some("cloud_model"@)
                ||| verifier == Some("cloud_draft"@)
                ||| verifier == Some("llm"@)
                ||| kind == Some("cloud_output"@)
                ||| kind == Some("cloud_draft"@)
                ||| kind == Some("llm_output"@)
            },
    ensures
        proof_draft(args, opened, earlier, now, disk) matches Ok(d) ==> d.proof_level
            != ClientBindingProofLevel::ObservedReviewAction,
{
    if proof_draft(args, opened, earlier, now, disk) is Ok && proof_draft(
        args,
        opened,
        earlier,
        now,
        disk,
    )->Ok_0.proof_level == ClientBindingProofLevel::ObservedReviewAction {
        law_review_action_proof_is_grounded(args, opened, earlier, now, disk);
    }
}

/// A proof that is stored is of the level that the flag names and of the manifest's client,
/// in lower case; it has the source of its evidence, trimmed, the places of its evidence as
/// they resolve, and the time at which it was made. The three strongest levels are stored
/// only where the operator confirmed them, each by its own flag.
pub proof fn law_proofs_record_what_was_asked_for(
    args: AdapterBindingProofArgs,
    opened: Result<(), BindingFault>,
    earlier: Result<Seq<StoredClientBindingProofView>, BindingFault>,
    now: i64,
    disk: DiskView,
)
    requires
        proof_draft(args.deep_view(), opened, earlier, now, disk) is Ok,
    ensures
        ({
            let d = proof_draft(args.deep_view(), opened, earlier, now, disk)->Ok_0;
            let hook = ClientBindingProofLevel::ObservedAppHook;
            let render = ClientBindingProofLevel::ObservedInClientRender;
            let action = ClientBindingProofLevel::ObservedReviewAction;
            &&& args.proof_level@ == level_name(d.proof_level)
            &&& d.proof_level == hook ==> args.operator_confirm_real_app_invocation
            &&& d.proof_level == render ==> args.operator_confirm_in_client_render
            &&& d.proof_level == action ==> args.operator_confirm_review_action
            &&& d.evidence_source == trimmed(args.evidence_source@)
            &&& d.observed_at_ns == now
            &&& args.manifest is Some
            &&& d.manifest_path == canonical(args.manifest->0@, disk)
            &&& args.event_jsonl matches Some(p) ==> d.event_jsonl_path == Some(
                canonical(p@, disk),
            )
            &&& args.event_jsonl is None ==> d.event_jsonl_path is None
            &&& args.installed_config matches Some(p) ==> d.installed_config_path == Some(
                canonical(p@, disk),
            )
            &&& args.installed_config is None ==> d.installed_config_path is None
            &&& args.render_evidence matches Some(p) ==> d.render_evidence_path == Some(
                canonical(p@, disk),
            )
            &&& args.render_evidence is None ==> d.render_evidence_path is None
            &&& args.review_action_report matches Some(p) ==> d.review_action_report_path == Some(
                canonical(p@, disk),
            )
            &&& args.review_action_report is None ==> d.review_action_report_path is None
            &&& proof_subject(args.deep_view(), disk) matches Ok(h) && {
                &&& d.client == h.client
                &&& required(h.manifest, "client"@) matches Ok(own) && d.client == lowered(
                    trimmed(own),
                )
                &&& required(h.manifest, "status"@) == Ok::<Seq<char>, BindingFault>(
                    d.manifest_status,
                )
            }
            &&& args.client is Some && trimmed(args.client->0@).len() > 0 ==> d.client == lowered(
                trimmed(args.client->0@),
            )
            &&& !args.list && !args.status && !args.verify_evidence_artifacts
                && !args.discover_installed_config && !args.real_app_proof_kit
                && !args.prepare_installed_config
        }),
        opened is Ok,
{
}

/// What is told of a proof that was stored is what was stored.
pub proof fn law_told_proof_is_the_stored_one(draft: ClientBindingProofDraft, proof_id: i64)
    ensures
        ({
            let o = outcome_of(draft.deep_view(), proof_id);
            &&& o.proof_id == proof_id
            &&& o.client == draft.client@
            &&& o.proof_level == draft.proof_level
            &&& o.manifest_status == draft.manifest_status@
            &&& o.evidence_source == draft.evidence_source@
            &&& o.trust_boundary == draft.trust_boundary@
            &&& o.checks == draft.checks_json@
        }),
{
}

/// An app-hook proof rests on an event that stands in the event file: a line that is JSON,
/// names the client, comes from the private source of the manifest, and was neither made by
/// hand nor by a test. One such line bears the writer's contract, and one the nonce of the
/// installed configuration.
pub proof fn law_app_hook_proof_rests_on_a_real_event(
    args: AdapterBindingProofArgsView,
    opened: Result<(), BindingFault>,
    earlier: Result<Seq<StoredClientBindingProofView>, BindingFault>,
    now: i64,
    disk: DiskView,
)
    requires
        proof_draft(args, opened, earlier, now, disk) is Ok,
        proof_draft(args, opened, earlier, now, disk)->Ok_0.proof_level
            == ClientBindingProofLevel::ObservedAppHook,
    ensures
        args.event_jsonl is Some,
        ({
            let h = proof_subject(args, disk)->Ok_0;
            let x = proof_evidence(h, args, disk)->Ok_0;
            let nonce = x.config->0.binding_nonce;
            let file = file_at(canonical(args.event_jsonl->0, disk), disk);
            let lines = lines_of(decode_utf8(file.contents));
            &&& exists|i: int|
                0 <= i < lines.len() && is_release_line(
                    #[trigger] lines[i],
                    h.client,
                    Some(h.source),
                ) && as_text(get(json_of(trimmed(lines[i]))->Ok_0, "writer_contract"@)) == Some(
                    "soma_adapter_spool_append_v1"@,
                )
            &&& exists|i: int|
                0 <= i < lines.len() && is_release_line(
                    #[trigger] lines[i],
                    h.client,
                    Some(h.source),
                ) && nonce is Some && event_text(
                    json_of(trimmed(lines[i]))->Ok_0,
                    "binding_nonce"@,
                ) == nonce
        }),
{
    let h = proof_subject(args, disk)->Ok_0;
    let x = proof_evidence(h, args, disk)->Ok_0;
    let nonce = config_nonce_of(x.config);
    let file = file_at(canonical(args.event_jsonl->0, disk), disk);
    let s = no_counts(file.path, file.modified_at_ns, file.contents, Some(h.source), nonce);
    law_counted_events_stand_in_the_file(
        lines_of(decode_utf8(file.contents)),
        s,
        h.client,
        Some(h.source),
        nonce,
    );
}

}
