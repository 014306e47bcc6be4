//! Configurations and evidence packets, made for the operator to install and fill in.
use super::check::{
    checked_client, checked_source, find_manifest_path, manifest_path_of, resolve_client_for_check,
    resolve_expected_event_source_for_check,
};
use super::config::{
    app_hook_lacks, observed_app_hook_missing_requirements, scan_installed_config, scanned_config,
};
use super::disk::{canonical, canonical_or_raw, file_at, seen_or, unseen_file, Disk, DiskView};
use super::evidence::{
    judge_render_evidence, judged, render_scan_json, report_valid, scan_render_evidence,
    scanned_render, validate_review_render, RENDER_EVIDENCE_BOUNDARY, RENDER_EVIDENCE_SCHEMA,
};
use super::files::{fingerprinted, json_file, read_json_file, scan_file_fingerprint};
use super::flow::{
    commands_with_resolved_soma_binary, operator_commands, or_else, targeted, text_or,
    unknown_config, unknown_config_name, with_binding_target, DEFAULT_EVENT_JSONL,
};
use super::kit::{kept_at, REPORT_LABEL};
use super::nonce::{nonce_allowed, nonce_view, resolve_binding_nonce_for_prepare};
use super::places::{
    default_lifecycle_event, durable_client_artifact_path, lifecycle_event, NO_MANIFEST,
};
use super::surfaces::{
    contract_version, expected_controls, required_names, review_render_control_ids,
    review_render_interaction_contract_version, review_render_required_surface_names,
    review_render_workbench_version, workbench_version,
};
use super::types::{
    malformed, refuse, AdapterBindingInstalledConfigPreparationOutcome,
    AdapterBindingInstalledConfigPreparationOutcomeView, AdapterBindingInstalledConfigRenderOutcome,
    AdapterBindingInstalledConfigRenderOutcomeView, AdapterBindingProofArgs,
    AdapterBindingProofArgsView, AdapterBindingProofError,
    AdapterBindingRenderEvidencePacketOutcome, AdapterBindingRenderEvidencePacketOutcomeView,
    BindingFault, FileFingerprintScan, FileFingerprintScanView, Host, HostView, ObservedFile,
    ObservedFileView,
};
use crate::json::{opt_text, text_list, Json, JsonView, Members};
use crate::outcome::{borrowed, outcome, owned, trim_nonblank, trimmed_nonblank};
use crate::outside::{json_pretty, print_json_pretty};
use crate::text::{cat2, cat3, nil, none, table, table_texts, with, words_of, Words};
use vstd::prelude::*;

verus! {

// ---------------------------------------------------------------------------
// Environment and configuration
// ---------------------------------------------------------------------------

/// What the lifecycle wrapper reads from its environment.
pub open spec fn lifecycle_env(client: Seq<char>, source: Seq<char>, nonce: Seq<char>) -> Seq<
    (Seq<char>, JsonView),
> {
    Seq::empty().push(("SOMA_ADAPTER_LIFECYCLE_CLIENT"@, JsonView::Text(client)))
        .push(("SOMA_ADAPTER_LIFECYCLE_EVENT"@, JsonView::Text(lifecycle_event(client))))
        .push(("SOMA_ADAPTER_LIFECYCLE_EVENT_SOURCE"@, JsonView::Text(source)))
        .push(("SOMA_ADAPTER_LIFECYCLE_BINDING_NONCE"@, JsonView::Text(nonce)))
        .push(("SOMA_ADAPTER_LIFECYCLE_JSONL"@, JsonView::Text(DEFAULT_EVENT_JSONL@)))
        .push(("SOMA_ADAPTER_LIFECYCLE_PROJECT"@, JsonView::Text("$SOMA_PROJECT"@)))
        .push(("SOMA_ADAPTER_LIFECYCLE_SESSION"@, JsonView::Text("$SOMA_SESSION_ID"@)))
        .push(("SOMA_ADAPTER_LIFECYCLE_CWD"@, JsonView::Text("$PWD"@)))
}

fn make_lifecycle_env(client: &str, source: &str, nonce: &str) -> (r: Members)
    ensures
        r@ == lifecycle_env(client@, source@, nonce@),
{
    Members::new().text("SOMA_ADAPTER_LIFECYCLE_CLIENT", client)
        .text("SOMA_ADAPTER_LIFECYCLE_EVENT", default_lifecycle_event(client))
        .text("SOMA_ADAPTER_LIFECYCLE_EVENT_SOURCE", source)
        .text("SOMA_ADAPTER_LIFECYCLE_BINDING_NONCE", nonce)
        .text("SOMA_ADAPTER_LIFECYCLE_JSONL", DEFAULT_EVENT_JSONL)
        .text("SOMA_ADAPTER_LIFECYCLE_PROJECT", "$SOMA_PROJECT")
        .text("SOMA_ADAPTER_LIFECYCLE_SESSION", "$SOMA_SESSION_ID")
        .text("SOMA_ADAPTER_LIFECYCLE_CWD", "$PWD")
}

pub const CONFIG_BOUNDARY: &'static str =
    "This config artifact does not prove the private app installed or called the hook; record observed_app_hook only after real event evidence and operator confirmation.";

pub const SCOPE_BOUNDARY: &'static str =
    "scope_env_only: project/session/cwd values are runtime provenance for capture and do not prove historical isolation, create a per-project store, or verify a private app invocation";

pub const SCOPE_ENV: [&'static str; 4] = ["SOMA_SESSION_ID", "SOMA_CLIENT", "SOMA_PROJECT", "PWD"];

/// The configuration that a client installs.
pub open spec fn config_artifact_json(
    client: Seq<char>,
    source: Seq<char>,
    nonce: Seq<char>,
    manifest: Option<Seq<char>>,
) -> JsonView {
    JsonView::Object(Seq::empty().push(("schema"@,
        JsonView::Text("soma.installed_client_binding.v1"@)))
        .push(("client"@, JsonView::Text(client)))
        .push(("status"@, JsonView::Text("operator_install_artifact"@)))
        .push(("trust_boundary"@, JsonView::Text(CONFIG_BOUNDARY@)))
        .push(("manifest_path"@, opt_text(manifest)))
        .push(("lifecycle_hook"@, JsonView::Object(
        Seq::empty().push(("wrapper"@, JsonView::Text("tools/soma-adapter-lifecycle.sh"@)))
        .push(("client"@, JsonView::Text(client)))
        .push(("event"@, JsonView::Text(lifecycle_event(client))))
        .push(("env"@, JsonView::Object(lifecycle_env(client, source, nonce)))))))
        .push(("spool_append"@, JsonView::Object(Seq::empty()
        .push(("wrapper"@, JsonView::Text("tools/soma-adapter-spool-append.sh"@)))
        .push(("env"@, JsonView::Object(Seq::empty()
        .push(("SOMA_ADAPTER_BINDING_NONCE"@, JsonView::Text(nonce)))
        .push(("SOMA_ADAPTER_SPOOL_JSONL"@, JsonView::Text(DEFAULT_EVENT_JSONL@)))))))))
        .push(("spool_drain"@, JsonView::Object(Seq::empty()
        .push(("wrapper"@, JsonView::Text("tools/soma-adapter-spool-watch.sh"@)))
        .push(("jsonl"@, JsonView::Text(DEFAULT_EVENT_JSONL@))))))
        .push(("review_ui"@, JsonView::Object(Seq::empty()
        .push(("wrapper"@, JsonView::Text("tools/soma-review-render.sh"@)))
        .push(("client"@, JsonView::Text(client))))))
        .push(("scope_contract"@, JsonView::Object(
        Seq::empty().push(("source"@, JsonView::Text(
        "soma.installed_client_binding.scope_contract.v1"@)))
        .push(("persona_store"@, JsonView::Bool(true)))
        .push(("project_is_provenance_metadata"@, JsonView::Bool(true)))
        .push(("project_creates_separate_store"@, JsonView::Bool(false)))
        .push(("runtime_scope_env"@, text_list(table(SCOPE_ENV))))
        .push(("trust_boundary"@, JsonView::Text(SCOPE_BOUNDARY@))))))
        .push(("proof"@, JsonView::Object(Seq::empty()
        .push(("event_source"@, JsonView::Text(source)))
        .push(("binding_nonce"@, JsonView::Text(nonce)))
        .push(("required_next_proof_level"@, JsonView::Text("observed_app_hook"@)))
        .push(("required_operator_confirmation"@,
        JsonView::Text("--operator-confirm-real-app-invocation"@)))))))
}

pub fn render_installed_config_artifact(
    client: &str,
    source: &str,
    nonce: &str,
    manifest: Option<&str>,
) -> (r: Json)
    ensures
        r@ == config_artifact_json(client@, source@, nonce@, manifest.deep_view()),
{
    Members::new().text("schema", "soma.installed_client_binding.v1").text("client", client)
        .text("status", "operator_install_artifact").text("trust_boundary", CONFIG_BOUNDARY)
        .opt_text("manifest_path", manifest).object(
        "lifecycle_hook", Members::new().text("wrapper", "tools/soma-adapter-lifecycle.sh")
        .text("client", client).text("event", default_lifecycle_event(client))
        .object("env", make_lifecycle_env(client, source, nonce)))
        .object("spool_append", Members::new().text("wrapper", "tools/soma-adapter-spool-append.sh")
        .object("env", Members::new().text("SOMA_ADAPTER_BINDING_NONCE", nonce)
        .text("SOMA_ADAPTER_SPOOL_JSONL", DEFAULT_EVENT_JSONL)))
        .object("spool_drain", Members::new().text("wrapper", "tools/soma-adapter-spool-watch.sh")
        .text("jsonl", DEFAULT_EVENT_JSONL)).object(
        "review_ui", Members::new().text("wrapper", "tools/soma-review-render.sh")
        .text("client", client)).object("scope_contract", Members::new()
        .text("source", "soma.installed_client_binding.scope_contract.v1")
        .flag("persona_store", true).flag("project_is_provenance_metadata", true)
        .flag("project_creates_separate_store", false)
        .texts("runtime_scope_env", &table_texts(&SCOPE_ENV))
        .text("trust_boundary", SCOPE_BOUNDARY)).object(
        "proof", Members::new().text("event_source", source).text("binding_nonce", nonce)
        .text("required_next_proof_level", "observed_app_hook")
        .text("required_operator_confirmation", "--operator-confirm-real-app-invocation")).done()
}

/// The commands that check a configuration and record the first proof with it.
pub open spec fn install_commands(manifest: Option<Seq<char>>, config: Seq<char>) -> Seq<
    Seq<Seq<char>>,
> {
    let m = or_else(manifest, NO_MANIFEST@);
    Seq::empty().push(
        nil().push("soma"@).push("adapter-binding-proof"@).push("--check-installed-config"@).push(
            "--manifest"@,
        ).push(m).push("--installed-config"@).push(config),
    ).push(
        nil().push("soma"@).push("adapter-binding-proof"@).push("--manifest"@).push(m).push(
            "--proof-level"@,
        ).push("observed_app_hook"@).push("--event-jsonl"@).push(DEFAULT_EVENT_JSONL@).push(
            "--installed-config"@,
        ).push(config).push("--operator-confirm-real-app-invocation"@),
    )
}

fn make_install_commands(manifest: Option<&str>, config: &str, host: &Host) -> (r: Vec<Vec<String>>)
    ensures
        r.deep_view() == operator_commands(
            install_commands(manifest.deep_view(), config@),
            host.deep_view().identity,
        ),
{
    let m = text_or(manifest, NO_MANIFEST);
    let check = Words::new().w("soma").w("adapter-binding-proof").w("--check-installed-config").w(
        "--manifest",
    ).w(m.as_str()).w("--installed-config").w(config).done();
    let record = Words::new().w("soma").w("adapter-binding-proof").w("--manifest").w(
        m.as_str(),
    ).w("--proof-level").w("observed_app_hook").w("--event-jsonl").w(DEFAULT_EVENT_JSONL).w(
        "--installed-config",
    ).w(config).w("--operator-confirm-real-app-invocation").done();
    let commands = with(with(none(), check), record);
    commands_with_resolved_soma_binary(&commands, &host.identity)
}

// ---------------------------------------------------------------------------
// Preparation
// ---------------------------------------------------------------------------

pub const PREPARE_BOUNDARY: &'static str =
    "prepare_installed_config_is_dry_run: generates an install-specific binding nonce and config snippet only; it records no proof row, verifies no app invocation, and does not promote cloud drafts";

/// What is prepared for an installation, with a nonce.
pub open spec fn preparation(
    args: AdapterBindingProofArgsView,
    nonce: Result<(Seq<char>, bool), BindingFault>,
    host: HostView,
    disk: DiskView,
) -> Result<AdapterBindingInstalledConfigPreparationOutcomeView, BindingFault> {
    match checked_client(args, disk) {
        Err(f) => Err(f),
        Ok(client) => match checked_source(args, client, disk) {
            Err(f) => Err(f),
            Ok(source) => match nonce {
                Err(f) => Err(f),
                Ok((nonce, generated)) => {
                    let manifest = manifest_path_of(args, client, disk);
                    let env = JsonView::Object(lifecycle_env(client, source, nonce));
                    Ok(
                        AdapterBindingInstalledConfigPreparationOutcomeView {
                            client,
                            manifest_path: manifest,
                            event_source: source,
                            binding_nonce: nonce,
                            generated_binding_nonce: generated,
                            lifecycle_environment: env,
                            spool_append_environment: JsonView::Object(
                                Seq::empty().push(
                                    ("SOMA_ADAPTER_BINDING_NONCE"@, JsonView::Text(nonce)),
                                ),
                            ),
                            installed_config_snippet: JsonView::Object(
                                Seq::empty().push(("client"@, JsonView::Text(client))).push(
                                    (
                                        "hook"@,
                                        JsonView::Text("tools/soma-adapter-lifecycle.sh"@),
                                    ),
                                ).push(("env"@, env)),
                            ),
                            next_commands: operator_commands(
                                install_commands(manifest, unknown_config(client)),
                                host.identity,
                            ),
                            trust_boundary: PREPARE_BOUNDARY@,
                        },
                    )
                },
            },
        },
    }
}

/// What is prepared for an installation, with a nonce that was found or made before.
pub fn prepare_installed_config(
    args: &AdapterBindingProofArgs,
    nonce: Result<(String, bool), AdapterBindingProofError>,
    host: &Host,
    disk: &Disk,
) -> (r: Result<AdapterBindingInstalledConfigPreparationOutcome, AdapterBindingProofError>)
    ensures
        outcome(r) == preparation(
            args.deep_view(),
            nonce_view(nonce),
            host.deep_view(),
            disk.deep_view(),
        ),
{
    let client = match resolve_client_for_check(args, disk) {
        Err(e) => return Err(e),
        Ok(c) => c,
    };
    let source = match resolve_expected_event_source_for_check(args, client.as_str(), disk) {
        Err(e) => return Err(e),
        Ok(s) => s,
    };
    let (nonce, generated) = match nonce {
        Err(e) => return Err(e),
        Ok(n) => n,
    };
    let manifest = find_manifest_path(args, client.as_str(), disk);
    let env = make_lifecycle_env(client.as_str(), source.as_str(), nonce.as_str()).done();
    let spool = Members::new().text("SOMA_ADAPTER_BINDING_NONCE", nonce.as_str()).done();
    let snippet = Members::new().text("client", client.as_str()).text(
        "hook",
        "tools/soma-adapter-lifecycle.sh",
    ).object("env", make_lifecycle_env(client.as_str(), source.as_str(), nonce.as_str())).done();
    let config = unknown_config_name(client.as_str());
    let next_commands = make_install_commands(borrowed(&manifest), config.as_str(), host);
    Ok(
        AdapterBindingInstalledConfigPreparationOutcome {
            client,
            manifest_path: manifest,
            event_source: source,
            binding_nonce: nonce,
            generated_binding_nonce: generated,
            lifecycle_environment: env,
            spool_append_environment: spool,
            installed_config_snippet: snippet,
            next_commands,
            trust_boundary: PREPARE_BOUNDARY.to_string(),
        },
    )
}

/// What is prepared for an installation. The nonce is the one given, or a new one.
pub fn run_prepare_installed_config_blocking(
    args: &AdapterBindingProofArgs,
    host: &Host,
    disk: &Disk,
) -> (r: Result<AdapterBindingInstalledConfigPreparationOutcome, AdapterBindingProofError>)
    ensures
        exists|n: Result<(Seq<char>, bool), BindingFault>| #[trigger]
            nonce_allowed(args.deep_view().binding_nonce, n) && outcome(r) == preparation(
                args.deep_view(),
                n,
                host.deep_view(),
                disk.deep_view(),
            ),
{
    let nonce = resolve_binding_nonce_for_prepare(borrowed(&args.binding_nonce));
    assert(nonce_allowed(args.deep_view().binding_nonce, nonce_view(nonce)));
    prepare_installed_config(args, nonce, host, disk)
}

// ---------------------------------------------------------------------------
// Rendered configurations
// ---------------------------------------------------------------------------

pub const RENDER_CONFIG_BOUNDARY: &'static str =
    "render_installed_config_is_config_only: renders or writes an operator-selected client hook config artifact; it records no proof row, verifies no app invocation, creates no verification event, promotes no cloud draft, applies no proposal, and does not prove private app installation by itself";

/// A rendered configuration, before it is written anywhere.
pub open spec fn config_rendering(
    args: AdapterBindingProofArgsView,
    nonce: Result<(Seq<char>, bool), BindingFault>,
    host: HostView,
    disk: DiskView,
) -> Result<AdapterBindingInstalledConfigRenderOutcomeView, BindingFault> {
    match checked_client(args, disk) {
        Err(f) => Err(f),
        Ok(client) => match checked_source(args, client, disk) {
            Err(f) => Err(f),
            Ok(source) => match nonce {
                Err(f) => Err(f),
                Ok((nonce, generated)) => {
                    let manifest = manifest_path_of(args, client, disk);
                    let output = trimmed_nonblank(args.write_installed_config);
                    if output is Some && file_at(output->0, disk).exists {
                        malformed(
                            "installed config output `"@ + output->0
                                + "` already exists; refusing to overwrite"@,
                        )
                    } else {
                        Ok(
                            AdapterBindingInstalledConfigRenderOutcomeView {
                                client,
                                manifest_path: manifest,
                                event_source: source,
                                binding_nonce: nonce,
                                generated_binding_nonce: generated,
                                output_path: output,
                                wrote_file: false,
                                installed_config: config_artifact_json(
                                    client,
                                    source,
                                    nonce,
                                    manifest,
                                ),
                                eligible_for_observed_app_hook: None,
                                checks: None,
                                next_commands: operator_commands(
                                    install_commands(
                                        manifest,
                                        or_else(output, unknown_config(client)),
                                    ),
                                    host.identity,
                                ),
                                trust_boundary: RENDER_CONFIG_BOUNDARY@,
                            },
                        )
                    }
                },
            },
        },
    }
}

/// A rendered configuration, with a nonce that was found or made before.
pub fn render_installed_config(
    args: &AdapterBindingProofArgs,
    nonce: Result<(String, bool), AdapterBindingProofError>,
    host: &Host,
    disk: &Disk,
) -> (r: Result<AdapterBindingInstalledConfigRenderOutcome, AdapterBindingProofError>)
    ensures
        outcome(r) == config_rendering(
            args.deep_view(),
            nonce_view(nonce),
            host.deep_view(),
            disk.deep_view(),
        ),
{
    let client = match resolve_client_for_check(args, disk) {
        Err(e) => return Err(e),
        Ok(c) => c,
    };
    let source = match resolve_expected_event_source_for_check(args, client.as_str(), disk) {
        Err(e) => return Err(e),
        Ok(s) => s,
    };
    let (nonce, generated) = match nonce {
        Err(e) => return Err(e),
        Ok(n) => n,
    };
    let manifest = find_manifest_path(args, client.as_str(), disk);
    let output = owned(trim_nonblank(borrowed(&args.write_installed_config)));
    match &output {
        Some(path) => {
            let other = unseen_file(path.as_str());
            if seen_or(disk, path.as_str(), &other).exists {
                return refuse(
                    cat3(
                        "installed config output `",
                        path.as_str(),
                        "` already exists; refusing to overwrite",
                    ).as_str(),
                );
            }
        },
        None => {},
    }
    let installed_config = render_installed_config_artifact(
        client.as_str(),
        source.as_str(),
        nonce.as_str(),
        borrowed(&manifest),
    );
    let config = text_or(borrowed(&output), unknown_config_name(client.as_str()).as_str());
    let next_commands = make_install_commands(borrowed(&manifest), config.as_str(), host);
    Ok(
        AdapterBindingInstalledConfigRenderOutcome {
            client,
            manifest_path: manifest,
            event_source: source,
            binding_nonce: nonce,
            generated_binding_nonce: generated,
            output_path: output,
            wrote_file: false,
            installed_config,
            eligible_for_observed_app_hook: None,
            checks: None,
            next_commands,
            trust_boundary: RENDER_CONFIG_BOUNDARY.to_string(),
        },
    )
}

/// A rendered configuration. The nonce is the one given, or a new one. Where the flags
/// name an output, `installed_config_text` is to be written there, and
/// `checked_written_config` tells what came of it.
pub fn run_render_installed_config_blocking(
    args: &AdapterBindingProofArgs,
    host: &Host,
    disk: &Disk,
) -> (r: Result<AdapterBindingInstalledConfigRenderOutcome, AdapterBindingProofError>)
    ensures
        exists|n: Result<(Seq<char>, bool), BindingFault>| #[trigger]
            nonce_allowed(args.deep_view().binding_nonce, n) && outcome(r) == config_rendering(
                args.deep_view(),
                n,
                host.deep_view(),
                disk.deep_view(),
            ),
{
    let nonce = resolve_binding_nonce_for_prepare(borrowed(&args.binding_nonce));
    assert(nonce_allowed(args.deep_view().binding_nonce, nonce_view(nonce)));
    render_installed_config(args, nonce, host, disk)
}

/// The text of a rendered configuration, as it is written.
pub fn installed_config_text(rendered: &AdapterBindingInstalledConfigRenderOutcome) -> (r: String)
    ensures
        r@ == json_pretty(rendered.deep_view().installed_config) + "\n"@,
{
    cat2(print_json_pretty(&rendered.installed_config).as_str(), "\n")
}

/// A rendered configuration, once it was written and read back.
pub open spec fn written_config(
    rendered: AdapterBindingInstalledConfigRenderOutcomeView,
    file: ObservedFileView,
) -> Result<AdapterBindingInstalledConfigRenderOutcomeView, BindingFault> {
    match scanned_config(file, rendered.client, Some(rendered.event_source)) {
        Err(f) => Err(f),
        Ok(scan) => Ok(
            AdapterBindingInstalledConfigRenderOutcomeView {
                wrote_file: true,
                eligible_for_observed_app_hook: Some(app_hook_lacks(scan).len() == 0),
                checks: Some(scan),
                ..rendered
            },
        ),
    }
}

/// What came of a rendered configuration that was written. `file` is what stands at its
/// output path.
pub fn checked_written_config(
    rendered: AdapterBindingInstalledConfigRenderOutcome,
    file: &ObservedFile,
) -> (r: Result<AdapterBindingInstalledConfigRenderOutcome, AdapterBindingProofError>)
    ensures
        outcome(r) == written_config(rendered.deep_view(), file.deep_view()),
{
    match scan_installed_config(
        file,
        rendered.client.as_str(),
        Some(rendered.event_source.as_str()),
    ) {
        Err(e) => Err(e),
        Ok(scan) => {
            let missing = observed_app_hook_missing_requirements(&scan);
            assert(missing.deep_view().len() == missing.len());
            let mut rendered = rendered;
            rendered.wrote_file = true;
            rendered.eligible_for_observed_app_hook = Some(missing.len() == 0);
            rendered.checks = Some(scan);
            Ok(rendered)
        },
    }
}

// ---------------------------------------------------------------------------
// Evidence packets
// ---------------------------------------------------------------------------

pub const CAPTURE_NOTE: &'static str =
    "fill source, observed_at_ns, and rendered_surfaces only after the private client visibly renders this review surface; this packet is not proof until recorded with operator confirmation";

/// The first name, or a placeholder.
pub open spec fn first_name(names: Seq<Seq<char>>) -> Seq<char> {
    if names.len() > 0 {
        names[0]
    } else {
        "<visible_review_surface_name>"@
    }
}

fn name_of_first(names: &Vec<String>) -> (r: &str)
    ensures
        r@ == first_name(names.deep_view()),
{
    assert(names.deep_view().len() == names.len());
    if names.len() > 0 {
        assert(names.deep_view()[0] == names[0]@);
        names[0].as_str()
    } else {
        "<visible_review_surface_name>"
    }
}

/// The packet: what the report fixes is filled in, what only the client's screen can
/// tell is left open.
pub open spec fn packet_json(
    client: Seq<char>,
    fingerprint: Seq<char>,
    workbench: Seq<char>,
    contract: Seq<char>,
    names: Seq<Seq<char>>,
    controls: Seq<Seq<char>>,
) -> JsonView {
    JsonView::Object(Seq::empty().push(("schema"@, JsonView::Text(RENDER_EVIDENCE_SCHEMA@)))
        .push(("client"@, JsonView::Text(client)))
        .push(("source"@, JsonView::Text("<manual_operator_or_client_capture>"@)))
        .push(("observed_at_ns"@,
        JsonView::Text("<positive_unix_epoch_nanoseconds_after_visible_render>"@)))
        .push(("review_render_fingerprint"@, JsonView::Text(fingerprint)))
        .push(("review_workbench_version"@, JsonView::Text(workbench)))
        .push(("review_interaction_contract_version"@, JsonView::Text(contract)))
        .push(("expected_surface_names"@, text_list(names)))
        .push(("rendered_surfaces"@, JsonView::List(
        Seq::empty().push(JsonView::Object(Seq::empty()
        .push(("name"@, JsonView::Text(first_name(names))))
        .push(("kind"@, JsonView::Text("<client_surface_kind>"@)))
        .push(("title"@, JsonView::Text("<visible_surface_title>"@)))
        .push(("visible"@, JsonView::Text("<true_after_visible_render>"@)))
        .push(("rendered_control_ids"@, text_list(controls))))))))
        .push(("rendered_control_ids"@, text_list(controls)))
        .push(("trust_boundary"@, JsonView::Text(RENDER_EVIDENCE_BOUNDARY@)))
        .push(("capture_note"@, JsonView::Text(CAPTURE_NOTE@))))
}

pub const NO_WORKBENCH: &'static str = "review-render report missing workbench.version";

pub const NO_CONTRACT: &'static str = "review-render report missing interaction_contract.version";

/// The packet for a report.
pub open spec fn packet_of(client: Seq<char>, fingerprint: Seq<char>, report: JsonView) -> Result<
    JsonView,
    BindingFault,
> {
    match workbench_version(report) {
        None => malformed(NO_WORKBENCH@),
        Some(workbench) => match contract_version(report) {
            None => malformed(NO_CONTRACT@),
            Some(contract) => {
                let controls = expected_controls(report);
                Ok(
                    packet_json(
                        client,
                        fingerprint,
                        workbench,
                        contract,
                        required_names(report, controls),
                        controls,
                    ),
                )
            },
        },
    }
}

pub fn render_in_client_render_evidence_packet(
    client: &str,
    fingerprint: &str,
    review_render: &Json,
) -> (r: Result<Json, AdapterBindingProofError>)
    ensures
        outcome(r) == packet_of(client@, fingerprint@, review_render@),
{
    let workbench = match review_render_workbench_version(review_render) {
        None => return refuse(NO_WORKBENCH),
        Some(w) => w,
    };
    let contract = match review_render_interaction_contract_version(review_render) {
        None => return refuse(NO_CONTRACT),
        Some(c) => c,
    };
    let controls = review_render_control_ids(review_render);
    let names = review_render_required_surface_names(review_render, &controls);
    Ok(Members::new().text("schema", RENDER_EVIDENCE_SCHEMA).text("client", client)
        .text("source", "<manual_operator_or_client_capture>")
        .text("observed_at_ns", "<positive_unix_epoch_nanoseconds_after_visible_render>")
        .text("review_render_fingerprint", fingerprint).text("review_workbench_version", workbench)
        .text("review_interaction_contract_version", contract)
        .texts("expected_surface_names", &names).put(
        "rendered_surfaces", Json::list(with(none(), Members::new()
        .text("name", name_of_first(&names)).text("kind", "<client_surface_kind>")
        .text("title", "<visible_surface_title>").text("visible", "<true_after_visible_render>")
        .texts("rendered_control_ids", &controls).done()))).texts("rendered_control_ids", &controls)
        .text("trust_boundary", RENDER_EVIDENCE_BOUNDARY).text("capture_note", CAPTURE_NOTE).done())
}

pub const PACKET_LACKS: [&'static str; 4] = [
    "source_must_be_manual_operator_or_client_capture",
    "observed_at_ns_must_be_positive",
    "rendered_surfaces_must_not_contain_template_placeholders",
    "rendered_surfaces_must_include_visible_surface",
];

pub const PACKET_BOUNDARY: &'static str =
    "render_render_evidence_is_template_only: fills non-observational bindings from a review-render report but leaves visible-render observations as placeholders; it records no proof row, verifies no claim, promotes no cloud draft, applies no proposal, and cannot prove in-client rendering without a filled evidence file plus explicit operator confirmation";

pub const NO_REPORT: &'static str = "--render-render-evidence requires --review-render-report";

/// The commands that come after a packet.
pub open spec fn packet_commands(
    client: Seq<char>,
    manifest: Option<Seq<char>>,
    report_path: Seq<char>,
    evidence_path: Seq<char>,
) -> Seq<Seq<Seq<char>>> {
    Seq::empty().push(
        nil().push("soma"@).push("adapter-binding-proof"@).push("--manifest"@).push(
            or_else(manifest, NO_MANIFEST@),
        ).push("--proof-level"@).push("observed_in_client_render"@).push(
            "--installed-config"@,
        ).push(unknown_config(client)).push("--review-render-report"@).push(report_path).push(
            "--render-evidence"@,
        ).push(evidence_path).push("--operator-confirm-in-client-render"@).push(
            "--operator-confirm-release-grade-evidence"@,
        ),
    ).push(
        targeted(
            nil().push("soma"@).push("adapter-binding-proof"@).push("--real-app-proof-kit"@),
            client,
            manifest,
        ),
    )
}

fn make_packet_commands(
    client: &str,
    manifest: Option<&str>,
    report_path: &str,
    evidence_path: &str,
    host: &Host,
) -> (r: Vec<Vec<String>>)
    ensures
        r.deep_view() == operator_commands(
            packet_commands(client@, manifest.deep_view(), report_path@, evidence_path@),
            host.deep_view().identity,
        ),
{
    let m = text_or(manifest, NO_MANIFEST);
    let config = unknown_config_name(client);
    let record = Words::new().w("soma").w("adapter-binding-proof").w("--manifest").w(
        m.as_str(),
    ).w("--proof-level").w("observed_in_client_render").w("--installed-config").w(
        config.as_str(),
    ).w("--review-render-report").w(report_path).w("--render-evidence").w(evidence_path).w(
        "--operator-confirm-in-client-render",
    ).w("--operator-confirm-release-grade-evidence").done();
    let kit = with_binding_target(
        Words::new().w("soma").w("adapter-binding-proof").w("--real-app-proof-kit"),
        client,
        manifest,
    );
    let commands = with(with(none(), record), kit);
    commands_with_resolved_soma_binary(&commands, &host.identity)
}

/// The report that a packet is for, and the file that it stands in.
pub open spec fn packet_report(
    args: AdapterBindingProofArgsView,
    client: Seq<char>,
    disk: DiskView,
) -> Result<(FileFingerprintScanView, JsonView), BindingFault> {
    match args.review_render_report {
        None => malformed(NO_REPORT@),
        Some(given) => {
            let file = file_at(canonical(given, disk), disk);
            match fingerprinted(file, REPORT_LABEL@) {
                Err(f) => Err(f),
                Ok(scan) => match json_file(file, REPORT_LABEL@) {
                    Err(f) => Err(f),
                    Ok(report) => match report_valid(Some(report), client) {
                        Err(f) => Err(f),
                        Ok(_) => Ok((scan, report)),
                    },
                },
            }
        },
    }
}

fn read_packet_report(args: &AdapterBindingProofArgs, client: &str, disk: &Disk) -> (r: Result<
    (FileFingerprintScan, Json),
    AdapterBindingProofError,
>)
    ensures
        match r {
            Ok(p) => packet_report(args.deep_view(), client@, disk.deep_view()) == Ok::<
                (FileFingerprintScanView, JsonView),
                BindingFault,
            >((p.0.deep_view(), p.1@)),
            Err(e) => packet_report(args.deep_view(), client@, disk.deep_view()) == Err::<
                (FileFingerprintScanView, JsonView),
                BindingFault,
            >(e.deep_view()),
        },
{
    let given = match &args.review_render_report {
        None => return refuse(NO_REPORT),
        Some(p) => p,
    };
    let path = canonical_or_raw(given.as_str(), disk);
    let other = unseen_file(path.as_str());
    let file = seen_or(disk, path.as_str(), &other);
    let scan = match scan_file_fingerprint(file, REPORT_LABEL) {
        Err(e) => return Err(e),
        Ok(s) => s,
    };
    let report = match read_json_file(file, REPORT_LABEL) {
        Err(e) => return Err(e),
        Ok(j) => j,
    };
    match validate_review_render(Some(&report), client) {
        Err(e) => Err(e),
        Ok(_) => Ok((scan, report)),
    }
}

/// An evidence packet, before it is written anywhere.
pub open spec fn packet_rendering(
    args: AdapterBindingProofArgsView,
    host: HostView,
    disk: DiskView,
) -> Result<AdapterBindingRenderEvidencePacketOutcomeView, BindingFault> {
    match checked_client(args, disk) {
        Err(f) => Err(f),
        Ok(client) => match packet_report(args, client, disk) {
            Err(f) => Err(f),
            Ok((scan, report)) => match packet_of(client, scan.fingerprint, report) {
                Err(f) => Err(f),
                Ok(packet) => {
                    let manifest = manifest_path_of(args, client, disk);
                    let report_path = canonical(args.review_render_report->0, disk);
                    let output = trimmed_nonblank(args.write_render_evidence);
                    if output is Some && file_at(output->0, disk).exists {
                        malformed(
                            "render evidence output `"@ + output->0
                                + "` already exists; refusing to overwrite"@,
                        )
                    } else {
                        Ok(
                            AdapterBindingRenderEvidencePacketOutcomeView {
                                client,
                                manifest_path: manifest,
                                review_render_report_path: report_path,
                                review_render_fingerprint: scan.fingerprint,
                                output_path: output,
                                wrote_file: false,
                                render_evidence: packet,
                                preflight_scan: None,
                                missing_requirements: table(PACKET_LACKS),
                                next_commands: operator_commands(
                                    packet_commands(
                                        client,
                                        manifest,
                                        report_path,
                                        or_else(
                                            output,
                                            kept_at(client, "render-evidence.json"@, host.home),
                                        ),
                                    ),
                                    host.identity,
                                ),
                                trust_boundary: PACKET_BOUNDARY@,
                            },
                        )
                    }
                },
            },
        },
    }
}

/// An evidence packet for the operator to fill in. Where the flags name an output,
/// `render_evidence_text` is to be written there, and `checked_written_packet` tells what
/// came of it.
pub fn run_render_evidence_packet_blocking(
    args: &AdapterBindingProofArgs,
    host: &Host,
    disk: &Disk,
) -> (r: Result<AdapterBindingRenderEvidencePacketOutcome, AdapterBindingProofError>)
    ensures
        outcome(r) == packet_rendering(args.deep_view(), host.deep_view(), disk.deep_view()),
{
    let client = match resolve_client_for_check(args, disk) {
        Err(e) => return Err(e),
        Ok(c) => c,
    };
    let manifest = find_manifest_path(args, client.as_str(), disk);
    let (scan, report) = match read_packet_report(args, client.as_str(), disk) {
        Err(e) => return Err(e),
        Ok(p) => p,
    };
    let packet = match render_in_client_render_evidence_packet(
        client.as_str(),
        scan.fingerprint.as_str(),
        &report,
    ) {
        Err(e) => return Err(e),
        Ok(p) => p,
    };
    let output = owned(trim_nonblank(borrowed(&args.write_render_evidence)));
    match &output {
        Some(path) => {
            let other = unseen_file(path.as_str());
            if seen_or(disk, path.as_str(), &other).exists {
                return refuse(
                    cat3(
                        "render evidence output `",
                        path.as_str(),
                        "` already exists; refusing to overwrite",
                    ).as_str(),
                );
            }
        },
        None => {},
    }
    let report_path = match &args.review_render_report {
        None => return refuse(NO_REPORT),
        Some(p) => canonical_or_raw(p.as_str(), disk),
    };
    let kept = durable_client_artifact_path(
        client.as_str(),
        "render-evidence.json",
        borrowed(&host.home),
    );
    let evidence_path = text_or(borrowed(&output), kept.as_str());
    let next_commands = make_packet_commands(
        client.as_str(),
        borrowed(&manifest),
        report_path.as_str(),
        evidence_path.as_str(),
        host,
    );
    Ok(
        AdapterBindingRenderEvidencePacketOutcome {
            client,
            manifest_path: manifest,
            review_render_report_path: report_path,
            review_render_fingerprint: scan.fingerprint,
            output_path: output,
            wrote_file: false,
            render_evidence: packet,
            preflight_scan: None,
            missing_requirements: table_texts(&PACKET_LACKS),
            next_commands,
            trust_boundary: PACKET_BOUNDARY.to_string(),
        },
    )
}

/// The text of an evidence packet, as it is written.
pub fn render_evidence_text(rendered: &AdapterBindingRenderEvidencePacketOutcome) -> (r: String)
    ensures
        r@ == json_pretty(rendered.deep_view().render_evidence) + "\n"@,
{
    cat2(print_json_pretty(&rendered.render_evidence).as_str(), "\n")
}

/// An evidence packet, once it was written and read back, held against its report.
pub open spec fn written_packet(
    rendered: AdapterBindingRenderEvidencePacketOutcomeView,
    file: ObservedFileView,
    report_file: FileFingerprintScanView,
    report: JsonView,
) -> Result<AdapterBindingRenderEvidencePacketOutcomeView, BindingFault> {
    match scanned_render(file) {
        Err(f) => Err(f),
        Ok(scan) => {
            let j = judged(scan, rendered.client, Some(report_file), Some(report));
            Ok(
                AdapterBindingRenderEvidencePacketOutcomeView {
                    wrote_file: true,
                    preflight_scan: Some(render_scan_json(j)),
                    missing_requirements: j.missing_requirements,
                    ..rendered
                },
            )
        },
    }
}

/// What came of an evidence packet that was written. `file` is what stands at its output
/// path.
pub fn checked_written_packet(
    rendered: AdapterBindingRenderEvidencePacketOutcome,
    args: &AdapterBindingProofArgs,
    file: &ObservedFile,
    disk: &Disk,
) -> (r: Result<AdapterBindingRenderEvidencePacketOutcome, AdapterBindingProofError>)
    ensures
        outcome(r) == match packet_report(
            args.deep_view(),
            rendered.deep_view().client,
            disk.deep_view(),
        ) {
            Err(f) => Err(f),
            Ok((scan, report)) => written_packet(
                rendered.deep_view(),
                file.deep_view(),
                scan,
                report,
            ),
        },
{
    let (report_file, report) = match read_packet_report(args, rendered.client.as_str(), disk) {
        Err(e) => return Err(e),
        Ok(p) => p,
    };
    let mut scan = match scan_render_evidence(file) {
        Err(e) => return Err(e),
        Ok(s) => s,
    };
    let missing = judge_render_evidence(
        &mut scan,
        rendered.client.as_str(),
        Some(&report_file),
        Some(&report),
    );
    let mut rendered = rendered;
    rendered.wrote_file = true;
    rendered.preflight_scan = Some(scan.to_json());
    rendered.missing_requirements = words_of(&missing);
    Ok(rendered)
}

}
