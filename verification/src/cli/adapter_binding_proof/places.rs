//! Where things are: manifests, installed configurations, evidence files.
use super::types::{
    ClientBindingProofArtifactPathSuggestion, ClientBindingProofArtifactPathSuggestionView, Host,
    ResolvedPath, ResolvedPathView,
};
use crate::outcome::{nonblank, owned, trim_nonblank, trimmed_nonblank};
use crate::path::{file_name, is_same_path, join, joined_path, last_part, same_path};
use crate::text::{
    begins, cat2, cat3, cat4, chars, contains, ends, ends_with, is_alnum, lower, lowered, mentions,
    nil, none, replace, replaced, same, starts_with, trim, trim_of, trimmed, trimmed_of, with,
    Words,
};
use vstd::prelude::*;

verus! {

// ---------------------------------------------------------------------------
// Clients
// ---------------------------------------------------------------------------

/// The manifest that comes with a known client.
pub open spec fn default_manifest(client: Seq<char>) -> Option<Seq<char>> {
    if client == "codex-app"@ {
        Some("tools/client-bindings/codex-app-soma-binding.json.example"@)
    } else if client == "cursor"@ {
        Some("tools/client-bindings/cursor-soma-binding.json.example"@)
    } else if client == "continue"@ {
        Some("tools/client-bindings/continue-soma-binding.json.example"@)
    } else {
        None
    }
}

pub fn default_client_binding_manifest(client: &str) -> (r: Option<&'static str>)
    ensures
        r.deep_view() == default_manifest(client@),
{
    if same(client, "codex-app") {
        Some("tools/client-bindings/codex-app-soma-binding.json.example")
    } else if same(client, "cursor") {
        Some("tools/client-bindings/cursor-soma-binding.json.example")
    } else if same(client, "continue") {
        Some("tools/client-bindings/continue-soma-binding.json.example")
    } else {
        None
    }
}

pub const NO_MANIFEST: &'static str = "<client-binding-manifest>";

/// The manifest to name in a command.
pub open spec fn manifest_arg(client: Seq<char>, manifest_path: Option<Seq<char>>) -> Seq<char> {
    match manifest_path {
        Some(m) => m,
        None => match default_manifest(client) {
            Some(m) => m,
            None => NO_MANIFEST@,
        },
    }
}

pub fn manifest_to_name(client: &str, manifest_path: Option<&str>) -> (r: String)
    ensures
        r@ == manifest_arg(client@, manifest_path.deep_view()),
{
    match manifest_path {
        Some(m) => m.to_string(),
        None => match default_client_binding_manifest(client) {
            Some(m) => m.to_string(),
            None => NO_MANIFEST.to_string(),
        },
    }
}

/// The manifest of a client: as given, else the one that comes with it.
pub open spec fn manifest_of(client: Seq<char>, given: Option<Seq<char>>) -> Option<Seq<char>> {
    match given {
        Some(m) => Some(m),
        None => default_manifest(client),
    }
}

/// The manifest of a client. `given` is the resolved path of the flag.
pub fn resolved_manifest_path_for_client(client: &str, given: Option<&str>) -> (r: Option<String>)
    ensures
        r.deep_view() == manifest_of(client@, given.deep_view()),
{
    match given {
        Some(m) => Some(m.to_string()),
        None => owned(default_client_binding_manifest(client)),
    }
}

/// How a client is called.
pub open spec fn display_name(client: Seq<char>) -> Seq<char> {
    if client == "codex-app"@ {
        "Codex app"@
    } else if client == "cursor"@ {
        "Cursor"@
    } else if client == "continue"@ {
        "Continue"@
    } else {
        client
    }
}

pub fn private_client_display_name(client: &str) -> (r: String)
    ensures
        r@ == display_name(client@),
{
    if same(client, "codex-app") {
        "Codex app".to_string()
    } else if same(client, "cursor") {
        "Cursor".to_string()
    } else if same(client, "continue") {
        "Continue".to_string()
    } else {
        client.to_string()
    }
}

/// The event source that a client's private hook writes where its manifest names none.
pub open spec fn private_event_source(client: Seq<char>) -> Seq<char> {
    lowered(trimmed(client)) + "_private_lifecycle_hook"@
}

pub fn default_private_event_source(client: &str) -> (r: String)
    ensures
        r@ == private_event_source(client@),
{
    cat2(lower(trim(client)).as_str(), "_private_lifecycle_hook")
}

/// The event that a client's hook reports.
pub open spec fn lifecycle_event(client: Seq<char>) -> Seq<char> {
    if client == "continue"@ || client == "codex-app"@ {
        "assistant_response"@
    } else {
        "turn_completed"@
    }
}

pub fn default_lifecycle_event(client: &str) -> (r: &'static str)
    ensures
        r@ == lifecycle_event(client@),
{
    if same(client, "continue") || same(client, "codex-app") {
        "assistant_response"
    } else {
        "turn_completed"
    }
}

/// Where a client's own configuration is installed, below the root.
pub open spec fn target_relpaths(client: Seq<char>) -> Seq<Seq<char>> {
    if client == "cursor"@ {
        nil().push(".cursor/soma-installed-binding.json"@)
    } else if client == "continue"@ {
        nil().push(".continue/soma-installed-binding.json"@)
    } else if client == "codex-app"@ {
        nil().push(".codex/soma-installed-binding.json"@)
    } else {
        nil()
    }
}

pub fn private_client_target_installed_config_relpaths(client: &str) -> (r: Vec<String>)
    ensures
        r.deep_view() == target_relpaths(client@),
{
    if same(client, "cursor") {
        Words::new().w(".cursor/soma-installed-binding.json").done()
    } else if same(client, "continue") {
        Words::new().w(".continue/soma-installed-binding.json").done()
    } else if same(client, "codex-app") {
        Words::new().w(".codex/soma-installed-binding.json").done()
    } else {
        none()
    }
}

/// Where configurations are looked for, below the root: first the place for setup
/// files, then the client's own.
pub open spec fn config_relpaths(client: Seq<char>) -> Seq<Seq<char>> {
    if client == "cursor"@ {
        nil().push(".soma/client-bindings/cursor-installed-binding.json"@).push(
            ".cursor/soma-installed-binding.json"@,
        )
    } else if client == "continue"@ {
        nil().push(".soma/client-bindings/continue-installed-binding.json"@).push(
            ".continue/soma-installed-binding.json"@,
        )
    } else if client == "codex-app"@ {
        nil().push(".soma/client-bindings/codex-app-installed-binding.json"@).push(
            ".codex/soma-installed-binding.json"@,
        )
    } else {
        nil()
    }
}

pub fn default_installed_config_relpaths(client: &str) -> (r: Vec<String>)
    ensures
        r.deep_view() == config_relpaths(client@),
{
    if same(client, "cursor") {
        Words::new().w(".soma/client-bindings/cursor-installed-binding.json").w(
            ".cursor/soma-installed-binding.json",
        ).done()
    } else if same(client, "continue") {
        Words::new().w(".soma/client-bindings/continue-installed-binding.json").w(
            ".continue/soma-installed-binding.json",
        ).done()
    } else if same(client, "codex-app") {
        Words::new().w(".soma/client-bindings/codex-app-installed-binding.json").w(
            ".codex/soma-installed-binding.json",
        ).done()
    } else {
        none()
    }
}

/// The path with `/` as its separator, and none at either end.
pub open spec fn plain_path(path: Seq<char>) -> Seq<char> {
    trimmed_of(replaced(path, '\\', '/'), '/')
}

/// The path is, or ends with, one of the relative paths.
pub open spec fn is_target_path(path: Seq<char>, relpaths: Seq<Seq<char>>) -> bool {
    exists|i: int|
        0 <= i < relpaths.len() && (plain_path(path) == #[trigger] relpaths[i] || ends_with(
            plain_path(path),
            "/"@ + relpaths[i],
        ))
}

pub fn is_private_client_target_config_path(path: &str, relpaths: &Vec<String>) -> (r: bool)
    ensures
        r == is_target_path(path@, relpaths.deep_view()),
{
    let replaced_path = replace(path, '\\', '/');
    let plain = trim_of(replaced_path.as_str(), '/');
    let mut i: usize = 0;
    while i < relpaths.len()
        invariant
            i <= relpaths.len(),
            plain@ == plain_path(path@),
            forall|j: int|
                0 <= j < i ==> !(plain_path(path@) == #[trigger] relpaths.deep_view()[j]
                    || ends_with(plain_path(path@), "/"@ + relpaths.deep_view()[j])),
        decreases relpaths.len() - i,
    {
        let rel = relpaths[i].as_str();
        assert(relpaths.deep_view()[i as int] == rel@);
        if same(plain, rel) || ends(plain, cat2("/", rel).as_str()) {
            return true;
        }
        i = i + 1;
    }
    false
}

/// A path with the same components stands in the list.
pub open spec fn holds_path(paths: Seq<Seq<char>>, path: Seq<char>) -> bool {
    exists|i: int| 0 <= i < paths.len() && is_same_path(#[trigger] paths[i], path)
}

fn has_path(paths: &Vec<String>, path: &str) -> (r: bool)
    ensures
        r == holds_path(paths.deep_view(), path@),
{
    let mut i: usize = 0;
    while i < paths.len()
        invariant
            i <= paths.len(),
            forall|j: int|
                0 <= j < i ==> !is_same_path(#[trigger] paths.deep_view()[j], path@),
        decreases paths.len() - i,
    {
        assert(paths.deep_view()[i as int] == paths[i as int]@);
        if same_path(paths[i].as_str(), path) {
            return true;
        }
        i = i + 1;
    }
    false
}

/// The list without repetitions: of paths with the same components the first stays.
pub open spec fn unique(paths: Seq<Seq<char>>) -> Seq<Seq<char>>
    decreases paths.len(),
{
    if paths.len() == 0 {
        nil()
    } else {
        let front = unique(paths.drop_last());
        if holds_path(front, paths.last()) {
            front
        } else {
            front.push(paths.last())
        }
    }
}

pub fn dedup_paths(paths: &Vec<String>) -> (r: Vec<String>)
    ensures
        r.deep_view() == unique(paths.deep_view()),
{
    let mut out: Vec<String> = none();
    let mut i: usize = 0;
    while i < paths.len()
        invariant
            i <= paths.len(),
            out.deep_view() == unique(paths.deep_view().take(i as int)),
        decreases paths.len() - i,
    {
        assert(paths.deep_view().take(i + 1).drop_last() =~= paths.deep_view().take(i as int));
        assert(paths.deep_view().take(i + 1).last() == paths[i as int]@);
        if !has_path(&out, paths[i].as_str()) {
            out = with(out, paths[i].clone());
        }
        i = i + 1;
    }
    assert(paths.deep_view().take(i as int) =~= paths.deep_view());
    out
}

/// The relative paths below a root.
pub open spec fn below(root: Seq<char>, relpaths: Seq<Seq<char>>) -> Seq<Seq<char>> {
    Seq::new(relpaths.len(), |i: int| joined_path(root, relpaths[i]))
}

/// Where a client's configuration is looked for: first where the flag says.
pub open spec fn config_paths(client: Seq<char>, root: Seq<char>, given: Option<Seq<char>>) -> Seq<
    Seq<char>,
> {
    let first = match trimmed_nonblank(given) {
        Some(p) => nil().push(p),
        None => nil(),
    };
    unique(first + below(root, config_relpaths(client)))
}

pub fn discover_installed_config_paths(
    client: &str,
    config_root: &str,
    given: Option<&str>,
) -> (r: Vec<String>)
    ensures
        r.deep_view() == config_paths(client@, config_root@, given.deep_view()),
{
    let mut paths: Vec<String> = none();
    match trim_nonblank(given) {
        Some(p) => {
            paths = with(paths, p.to_string());
        },
        None => {},
    }
    let ghost first = paths.deep_view();
    let rel = default_installed_config_relpaths(client);
    let mut i: usize = 0;
    assert(first + below(config_root@, rel.deep_view()).take(0) =~= first);
    while i < rel.len()
        invariant
            i <= rel.len(),
            paths.deep_view() == first + below(config_root@, rel.deep_view()).take(i as int),
        decreases rel.len() - i,
    {
        paths = with(paths, join(config_root, rel[i].as_str()));
        assert(rel.deep_view()[i as int] == rel[i as int]@);
        assert((first + below(config_root@, rel.deep_view()).take(i as int)).push(
            below(config_root@, rel.deep_view())[i as int],
        ) =~= first + below(config_root@, rel.deep_view()).take(i + 1));
        i = i + 1;
    }
    assert(below(config_root@, rel.deep_view()).take(i as int) =~= below(
        config_root@,
        rel.deep_view(),
    ));
    dedup_paths(&paths)
}

// ---------------------------------------------------------------------------
// Evidence files
// ---------------------------------------------------------------------------

pub const ANY_RUN: &'static str = "<run-id>";

/// A character that a directory name may have.
pub open spec fn is_run_char(c: char) -> bool {
    is_alnum(c) || c == '.' || c == '_' || c == '-' || c == '<' || c == '>'
}

/// The name of a run, as a directory name.
pub open spec fn run_name(run_id: Seq<char>) -> Seq<char> {
    let t = trimmed(run_id);
    if t.len() == 0 {
        ANY_RUN@
    } else {
        t.map_values(
            |c: char|
                if is_run_char(c) {
                    c
                } else {
                    '_'
                },
        )
    }
}

pub fn sanitize_artifact_run_id(run_id: &str) -> (r: String)
    ensures
        r@ == run_name(run_id@),
{
    let t = trim(run_id);
    if t.is_empty() {
        return ANY_RUN.to_string();
    }
    let cs = chars(t);
    let mut out = String::new();
    let mut i: usize = 0;
    while i < cs.len()
        invariant
            i <= cs.len(),
            cs@ == trimmed(run_id@),
            cs.len() > 0,
            out@ =~= run_name(run_id@).take(i as int),
        decreases cs.len() - i,
    {
        let c = cs[i];
        let keeps = ('0' <= c && c <= '9') || ('A' <= c && c <= 'Z') || ('a' <= c && c <= 'z') || c
            == '.' || c == '_' || c == '-' || c == '<' || c == '>';
        out.push(if keeps { c } else { '_' });
        i = i + 1;
    }
    assert(run_name(run_id@).take(i as int) =~= run_name(run_id@));
    out
}

/// The directory for the evidence of a run, below a base.
pub open spec fn evidence_dir(base: Seq<char>, client: Seq<char>, run: Seq<char>) -> Seq<char> {
    joined_path(joined_path(joined_path(joined_path(base, ".soma"@), "client-evidence"@), client),
        run)
}

fn evidence_dir_below(base: &str, client: &str, run: &str) -> (r: String)
    ensures
        r@ == evidence_dir(base@, client@, run@),
{
    let a = join(base, ".soma");
    let b = join(a.as_str(), "client-evidence");
    let c = join(b.as_str(), client);
    join(c.as_str(), run)
}

/// The directory for the evidence of a run, below the home directory.
pub open spec fn durable_dir(client: Seq<char>, run_id: Seq<char>, home: Option<Seq<char>>) -> Seq<
    char,
> {
    match home {
        Some(h) => evidence_dir(h, client, run_name(run_id)),
        None => "$HOME/.soma/client-evidence/"@ + client + "/"@ + run_name(run_id),
    }
}

pub fn durable_client_artifact_dir_for_run(
    client: &str,
    run_id: &str,
    home: Option<&str>,
) -> (r: String)
    ensures
        r@ == durable_dir(client@, run_id@, home.deep_view()),
{
    let run = sanitize_artifact_run_id(run_id);
    match home {
        Some(h) => evidence_dir_below(h, client, run.as_str()),
        None => cat4("$HOME/.soma/client-evidence/", client, "/", run.as_str()),
    }
}

/// The directory for the evidence of any run.
pub fn durable_client_artifact_dir(client: &str, home: Option<&str>) -> (r: String)
    ensures
        r@ == durable_dir(client@, ANY_RUN@, home.deep_view()),
{
    durable_client_artifact_dir_for_run(client, ANY_RUN, home)
}

/// The directory for the evidence of a run, below a root where one is given.
pub open spec fn durable_dir_for_root(
    client: Seq<char>,
    run_id: Seq<char>,
    root: Option<Seq<char>>,
    home: Option<Seq<char>>,
) -> Seq<char> {
    match nonblank(root) {
        Some(r) => evidence_dir(r, client, run_name(run_id)),
        None => durable_dir(client, run_name(run_id), home),
    }
}

pub fn durable_client_artifact_dir_for_root(
    client: &str,
    run_id: &str,
    root: Option<&str>,
    home: Option<&str>,
) -> (r: String)
    ensures
        r@ == durable_dir_for_root(client@, run_id@, root.deep_view(), home.deep_view()),
{
    let run = sanitize_artifact_run_id(run_id);
    match root {
        Some(r) => {
            if trim(r).is_empty() {
                durable_client_artifact_dir_for_run(client, run.as_str(), home)
            } else {
                evidence_dir_below(r, client, run.as_str())
            }
        },
        None => durable_client_artifact_dir_for_run(client, run.as_str(), home),
    }
}

/// A file in a directory.
pub open spec fn file_in(dir: Seq<char>, name: Seq<char>) -> Seq<char> {
    dir + "/"@ + name
}

pub fn durable_client_artifact_path_in_dir(dir: &str, filename: &str) -> (r: String)
    ensures
        r@ == file_in(dir@, filename@),
{
    cat3(dir, "/", filename)
}

pub fn durable_client_artifact_path(client: &str, filename: &str, home: Option<&str>) -> (r: String)
    ensures
        r@ == file_in(durable_dir(client@, ANY_RUN@, home.deep_view()), filename@),
{
    durable_client_artifact_path_in_dir(durable_client_artifact_dir(client, home).as_str(),
        filename)
}

pub const REVIEW_RENDER_INTENT: &'static str =
    "Read-only `soma context review-render` report that visible render evidence must bind to.";

pub const RENDER_EVIDENCE_INTENT: &'static str =
    "Filled soma.in_client_render_evidence.v1 captured after visible private-client UI rendering.";

pub const REVIEW_ACTION_INTENT: &'static str =
    "Storage-gated `soma context review-action` report from one rendered control.";

/// Where each evidence file is best kept.
pub open spec fn path_suggestions(dir: Seq<char>) -> Seq<
    ClientBindingProofArtifactPathSuggestionView,
> {
    Seq::empty().push(
        ClientBindingProofArtifactPathSuggestionView {
            artifact_kind: "review_render_report"@,
            path: file_in(dir, "review-render.json"@),
            intent: REVIEW_RENDER_INTENT@,
        },
    ).push(
        ClientBindingProofArtifactPathSuggestionView {
            artifact_kind: "render_evidence"@,
            path: file_in(dir, "render-evidence.json"@),
            intent: RENDER_EVIDENCE_INTENT@,
        },
    ).push(
        ClientBindingProofArtifactPathSuggestionView {
            artifact_kind: "review_action_report"@,
            path: file_in(dir, "review-action.json"@),
            intent: REVIEW_ACTION_INTENT@,
        },
    )
}

fn suggestion(kind: &str, dir: &str, name: &str, intent: &str) -> (r:
    ClientBindingProofArtifactPathSuggestion)
    ensures
        r.deep_view() == (ClientBindingProofArtifactPathSuggestionView {
            artifact_kind: kind@,
            path: file_in(dir@, name@),
            intent: intent@,
        }),
{
    ClientBindingProofArtifactPathSuggestion {
        artifact_kind: kind.to_string(),
        path: durable_client_artifact_path_in_dir(dir, name),
        intent: intent.to_string(),
    }
}

pub fn client_binding_artifact_path_suggestions(dir: &str) -> (r: Vec<
    ClientBindingProofArtifactPathSuggestion,
>)
    ensures
        r.deep_view() == path_suggestions(dir@),
{
    let list = with(
        none(),
        suggestion("review_render_report", dir, "review-render.json", REVIEW_RENDER_INTENT),
    );
    let list = with(
        list,
        suggestion("render_evidence", dir, "render-evidence.json", RENDER_EVIDENCE_INTENT),
    );
    with(list, suggestion("review_action_report", dir, "review-action.json", REVIEW_ACTION_INTENT))
}

/// The evidence file that a step is about.
pub open spec fn step_artifact_path(dir: Seq<char>, step_id: Seq<char>) -> Option<Seq<char>> {
    if step_id == "render_review_surface"@ {
        Some(file_in(dir, "review-render.json"@))
    } else if step_id == "capture_in_client_render_evidence"@ || step_id
        == "record_observed_in_client_render"@ {
        Some(file_in(dir, "render-evidence.json"@))
    } else if step_id == "execute_rendered_review_control"@ || step_id
        == "record_observed_review_action"@ {
        Some(file_in(dir, "review-action.json"@))
    } else {
        None
    }
}

pub fn suggested_artifact_path_for_step(dir: &str, step_id: &str) -> (r: Option<String>)
    ensures
        r.deep_view() == step_artifact_path(dir@, step_id@),
{
    if same(step_id, "render_review_surface") {
        Some(durable_client_artifact_path_in_dir(dir, "review-render.json"))
    } else if same(step_id, "capture_in_client_render_evidence") || same(
        step_id,
        "record_observed_in_client_render",
    ) {
        Some(durable_client_artifact_path_in_dir(dir, "render-evidence.json"))
    } else if same(step_id, "execute_rendered_review_control") || same(
        step_id,
        "record_observed_review_action",
    ) {
        Some(durable_client_artifact_path_in_dir(dir, "review-action.json"))
    } else {
        None
    }
}

// ---------------------------------------------------------------------------
// What is there
// ---------------------------------------------------------------------------

/// What was seen of a directory or one above it.
#[derive(Debug, Clone, Copy)]
pub struct DirSeen {
    pub exists: bool,
    pub is_dir: bool,
    pub writable: bool,
}

/// The first place that exists, the directory itself standing first.
pub open spec fn first_existing(seen: Seq<DirSeen>) -> nat
    decreases seen.len(),
{
    if seen.len() == 0 || seen[0].exists {
        0
    } else {
        1 + first_existing(seen.skip(1))
    }
}

/// Whether new files can be put into a directory, as far as was seen. `seen` holds the
/// directory and those above it.
pub open spec fn write_status(dir: Seq<char>, seen: Seq<DirSeen>) -> Seq<char> {
    let k = first_existing(seen) as int;
    if contains(dir, "$HOME"@) || contains(dir, "<run-id>"@) {
        "not_checked_template"@
    } else if k >= seen.len() {
        "parent_missing"@
    } else if k == 0 {
        if seen[0].writable {
            "writable"@
        } else {
            "not_writable"@
        }
    } else if seen[k].is_dir && seen[k].writable {
        "parent_writable"@
    } else {
        "parent_not_writable"@
    }
}

pub fn artifact_dir_write_status(dir: &str, seen: &Vec<DirSeen>) -> (r: String)
    ensures
        r@ == write_status(dir@, seen@),
{
    if mentions(dir, "$HOME") || mentions(dir, "<run-id>") {
        return "not_checked_template".to_string();
    }
    let mut i: usize = 0;
    assert(seen@.skip(0) =~= seen@);
    while i < seen.len()
        invariant
            i <= seen.len(),
            first_existing(seen@) == i + first_existing(seen@.skip(i as int)),
            !contains(dir@, "$HOME"@),
            !contains(dir@, "<run-id>"@),
        decreases seen.len() - i,
    {
        assert(seen@.skip(i as int)[0] == seen@[i as int]);
        if seen[i].exists {
            return if i == 0 {
                if seen[0].writable {
                    "writable".to_string()
                } else {
                    "not_writable".to_string()
                }
            } else if seen[i].is_dir && seen[i].writable {
                "parent_writable".to_string()
            } else {
                "parent_not_writable".to_string()
            };
        }
        assert(seen@.skip(i as int).skip(1) =~= seen@.skip(i + 1));
        i = i + 1;
    }
    "parent_missing".to_string()
}

/// New files can be put there, or that is not known yet.
pub open spec fn allows_new_files(status: Seq<char>) -> bool {
    status == "writable"@ || status == "parent_writable"@ || status == "not_checked_template"@
}

pub fn artifact_dir_write_status_allows_new_files(status: &str) -> (r: bool)
    ensures
        r == allows_new_files(status@),
{
    same(status, "writable") || same(status, "parent_writable") || same(
        status,
        "not_checked_template",
    )
}

/// The directory for the evidence of the same run, below the working directory.
pub open spec fn fallback_dir(
    client: Seq<char>,
    artifact_dir: Seq<char>,
    cwd: Option<Seq<char>>,
) -> Option<
    Seq<char>,
> {
    let run = match nonblank(last_part(artifact_dir)) {
        Some(name) => name,
        None => ANY_RUN@,
    };
    match cwd {
        Some(c) => Some(evidence_dir(c, client, run)),
        None => None,
    }
}

pub fn workspace_fallback_artifact_dir_for_client(
    client: &str,
    artifact_dir: &str,
    cwd: Option<&str>,
) -> (r: Option<String>)
    ensures
        r.deep_view() == fallback_dir(client@, artifact_dir@, cwd.deep_view()),
{
    let run = match file_name(artifact_dir) {
        Some(name) => if trim(name.as_str()).is_empty() {
            ANY_RUN.to_string()
        } else {
            name
        },
        None => ANY_RUN.to_string(),
    };
    match cwd {
        Some(c) => Some(evidence_dir_below(c, client, run.as_str())),
        None => None,
    }
}

/// The place that a path resolves to, as far as it is known.
pub open spec fn lookup(known: Seq<ResolvedPathView>, path: Seq<char>) -> Option<Seq<char>>
    decreases known.len(),
{
    if known.len() == 0 {
        None
    } else if known[0].path == path {
        Some(known[0].resolved)
    } else {
        lookup(known.skip(1), path)
    }
}

/// The manifest as an argument of a tool call: resolved where it can be, and as it is
/// where it is a placeholder or cannot.
pub open spec fn mcp_manifest(manifest: Seq<char>, known: Seq<ResolvedPathView>) -> Seq<char> {
    let m = trimmed(manifest);
    if m.len() == 0 || starts_with(m, "<"@) || contains(m, "$HOME"@) || contains(m, "${HOME}"@) {
        m
    } else {
        match lookup(known, m) {
            Some(r) => r,
            None => m,
        }
    }
}

/// The place that a path resolves to, where it is known.
pub fn find_resolved(known: &Vec<ResolvedPath>, path: &str) -> (r: Option<String>)
    ensures
        r.deep_view() == lookup(known.deep_view(), path@),
{
    let ghost all = known.deep_view();
    let mut i: usize = 0;
    assert(all.skip(0) =~= all);
    while i < known.len()
        invariant
            i <= known.len(),
            all == known.deep_view(),
            lookup(all, path@) == lookup(all.skip(i as int), path@),
        decreases known.len() - i,
    {
        assert(all.skip(i as int)[0] == known[i as int].deep_view());
        if same(known[i].path.as_str(), path) {
            return Some(known[i].resolved.clone());
        }
        assert(all.skip(i as int).skip(1) =~= all.skip(i + 1));
        i = i + 1;
    }
    None
}

pub fn manifest_path_for_mcp_arg(manifest: &str, host: &Host) -> (r: String)
    ensures
        r@ == mcp_manifest(manifest@, host.deep_view().manifests),
{
    let m = trim(manifest);
    if m.is_empty() || begins(m, "<") || mentions(m, "$HOME") || mentions(m, "${HOME}") {
        return m.to_string();
    }
    match find_resolved(&host.manifests, m) {
        Some(r) => r,
        None => m.to_string(),
    }
}

}
