//! `soma adapter-spool`: events that wrappers append to a file, and that are drained from
//! it.
//!
//! A wrapper appends one JSON event to a line. A drain goes on where the last one ended,
//! which a checkpoint next to the file tells, and hands each event on.
use super::adapter_cloud_output::{cloud_fault_text, AdapterCloudOutputError, CloudOutputFault};
use crate::capture::ai_cli::{fault_text as ingest_fault_text, IngestError, IngestFault};
use crate::json::{
    as_text, filled, find, get, has_member, member_text, members_of, members_view, object_of,
    put_missing, Json, JsonView, Member, Members,
};
use crate::number::{decimal, decimal_text, parsed_integer};
use crate::outcome::{
    borrowed, copy_text, first, nonblank, outcome, owned, trim_nonblank, trimmed_nonblank, verdict,
};
use crate::outside::{
    is_one_line, json_line, json_of, parse_json, print_json, reads_back, u64_fault, u64_or_fault,
    utf8_text,
};
use crate::cli::adapter_binding_proof::files::NOT_UTF8;
use crate::cli::adapter_capture::{AdapterCaptureRunOptions, RunOptionsView};
use crate::path::{extended, with_extension};
use crate::text::{
    before, cat2, cat3, cat4, lower, lowered, none, replace, replaced, same, trim, trimmed, with,
};
use vstd::prelude::*;
use vstd::string::*;
use vstd::utf8::{decode_utf8, encode_utf8, valid_utf8};

verus! {

// ---------------------------------------------------------------------------
// Types
// ---------------------------------------------------------------------------

/// Where the episodes are kept.
#[derive(Debug)]
pub struct AdapterSpoolContext {
    pub db_path: String,
}

/// The flags of one `soma adapter-spool` call.
#[derive(Debug)]
pub struct AdapterSpoolArgs {
    pub jsonl: String,
    pub checkpoint: Option<String>,
    pub source: Option<String>,
    pub cwd: Option<String>,
    pub project: Option<String>,
    pub session_id: Option<String>,
    pub git_branch: Option<String>,
}

/// The flags of one `soma adapter-spool-append` call.
#[derive(Debug)]
pub struct AdapterSpoolAppendArgs {
    pub jsonl: String,
    pub kind: String,
    pub json: String,
    pub source: Option<String>,
    pub cwd: Option<String>,
    pub project: Option<String>,
    pub session_id: Option<String>,
    pub git_branch: Option<String>,
    pub client: Option<String>,
    pub binding_nonce: Option<String>,
    pub fsync: bool,
}

/// What an `AdapterSpoolAppendArgs` holds.
#[verifier::ext_equal]
pub struct AppendArgsView {
    pub jsonl: Seq<char>,
    pub kind: Seq<char>,
    pub json: Seq<char>,
    pub source: Option<Seq<char>>,
    pub cwd: Option<Seq<char>>,
    pub project: Option<Seq<char>>,
    pub session_id: Option<Seq<char>>,
    pub git_branch: Option<Seq<char>>,
    pub client: Option<Seq<char>>,
    pub binding_nonce: Option<Seq<char>>,
    pub fsync: bool,
}

impl DeepView for AdapterSpoolAppendArgs {
    type V = AppendArgsView;

    open spec fn deep_view(&self) -> AppendArgsView {
        AppendArgsView {
            jsonl: self.jsonl.deep_view(),
            kind: self.kind.deep_view(),
            json: self.json.deep_view(),
            source: self.source.deep_view(),
            cwd: self.cwd.deep_view(),
            project: self.project.deep_view(),
            session_id: self.session_id.deep_view(),
            git_branch: self.git_branch.deep_view(),
            client: self.client.deep_view(),
            binding_nonce: self.binding_nonce.deep_view(),
            fsync: self.fsync,
        }
    }
}

/// The variables `SOMA_PROJECT`, `SOMA_SESSION_ID` and `SOMA_CLIENT`.
#[derive(Debug)]
pub struct SpoolEnv {
    pub project: Option<String>,
    pub session_id: Option<String>,
    pub client: Option<String>,
}

/// What a `SpoolEnv` holds.
#[verifier::ext_equal]
pub struct SpoolEnvView {
    pub project: Option<Seq<char>>,
    pub session_id: Option<Seq<char>>,
    pub client: Option<Seq<char>>,
}

impl DeepView for SpoolEnv {
    type V = SpoolEnvView;

    open spec fn deep_view(&self) -> SpoolEnvView {
        SpoolEnvView {
            project: self.project.deep_view(),
            session_id: self.session_id.deep_view(),
            client: self.client.deep_view(),
        }
    }
}

/// What a drain did.
#[derive(Debug)]
pub struct AdapterSpoolOutcome {
    pub spool_path: String,
    pub checkpoint_path: String,
    pub start_offset: u64,
    pub end_offset: u64,
    pub scanned_lines: usize,
    pub captured_turns: usize,
    pub captured_cloud_outputs: usize,
    pub skipped_empty_lines: usize,
}

/// What an `AdapterSpoolOutcome` holds.
#[verifier::ext_equal]
pub struct SpoolOutcomeView {
    pub spool_path: Seq<char>,
    pub checkpoint_path: Seq<char>,
    pub start_offset: u64,
    pub end_offset: u64,
    pub scanned_lines: usize,
    pub captured_turns: usize,
    pub captured_cloud_outputs: usize,
    pub skipped_empty_lines: usize,
}

impl DeepView for AdapterSpoolOutcome {
    type V = SpoolOutcomeView;

    open spec fn deep_view(&self) -> SpoolOutcomeView {
        SpoolOutcomeView {
            spool_path: self.spool_path.deep_view(),
            checkpoint_path: self.checkpoint_path.deep_view(),
            start_offset: self.start_offset,
            end_offset: self.end_offset,
            scanned_lines: self.scanned_lines,
            captured_turns: self.captured_turns,
            captured_cloud_outputs: self.captured_cloud_outputs,
            skipped_empty_lines: self.skipped_empty_lines,
        }
    }
}

/// What an append did.
#[derive(Debug)]
pub struct AdapterSpoolAppendOutcome {
    pub spool_path: String,
    pub kind: String,
    pub appended_bytes: usize,
    pub end_offset: u64,
    pub fsync: bool,
}

/// What an `AdapterSpoolAppendOutcome` holds.
#[verifier::ext_equal]
pub struct AppendOutcomeView {
    pub spool_path: Seq<char>,
    pub kind: Seq<char>,
    pub appended_bytes: usize,
    pub end_offset: u64,
    pub fsync: bool,
}

impl DeepView for AdapterSpoolAppendOutcome {
    type V = AppendOutcomeView;

    open spec fn deep_view(&self) -> AppendOutcomeView {
        AppendOutcomeView {
            spool_path: self.spool_path.deep_view(),
            kind: self.kind.deep_view(),
            appended_bytes: self.appended_bytes,
            end_offset: self.end_offset,
            fsync: self.fsync,
        }
    }
}

/// Why the command failed.
#[derive(Debug)]
#[non_exhaustive]
pub enum AdapterSpoolError {
    Io(String),
    MalformedInput(String),
    Ingest(IngestError),
    CloudOutput(AdapterCloudOutputError),
}

/// What an `AdapterSpoolError` holds.
pub enum SpoolFault {
    Io(Seq<char>),
    MalformedInput(Seq<char>),
    Ingest(IngestFault),
    CloudOutput(CloudOutputFault),
}

impl DeepView for AdapterSpoolError {
    type V = SpoolFault;

    open spec fn deep_view(&self) -> SpoolFault {
        match self {
            AdapterSpoolError::Io(m) => SpoolFault::Io(m@),
            AdapterSpoolError::MalformedInput(m) => SpoolFault::MalformedInput(m@),
            AdapterSpoolError::Ingest(e) => SpoolFault::Ingest(e.deep_view()),
            AdapterSpoolError::CloudOutput(e) => SpoolFault::CloudOutput(e.deep_view()),
        }
    }
}

/// The exit code of an error.
pub open spec fn spool_code(f: SpoolFault) -> i32 {
    match f {
        SpoolFault::MalformedInput(_) => 1,
        SpoolFault::Ingest(_) => 2,
        SpoolFault::CloudOutput(_) => 2,
        SpoolFault::Io(_) => 3,
    }
}

/// The message of an error.
pub open spec fn spool_fault_text(f: SpoolFault) -> Seq<char> {
    match f {
        SpoolFault::Io(m) => "io: "@ + m,
        SpoolFault::MalformedInput(m) => "malformed input: "@ + m,
        SpoolFault::Ingest(f) => "adapter capture: "@ + ingest_fault_text(f),
        SpoolFault::CloudOutput(f) => "adapter cloud output: "@ + cloud_fault_text(f),
    }
}

impl AdapterSpoolError {
    /// The exit code of an error: bad input, capture and files each have their own.
    pub fn exit_code(&self) -> (r: i32)
        ensures
            r == spool_code(self.deep_view()),
    {
        match self {
            AdapterSpoolError::MalformedInput(_) => 1,
            AdapterSpoolError::Ingest(_) => 2,
            AdapterSpoolError::CloudOutput(_) => 2,
            AdapterSpoolError::Io(_) => 3,
        }
    }

    /// The message of the error.
    pub fn message(&self) -> (r: String)
        ensures
            r@ == spool_fault_text(self.deep_view()),
    {
        match self {
            AdapterSpoolError::Io(m) => cat2("io: ", m.as_str()),
            AdapterSpoolError::MalformedInput(m) => cat2("malformed input: ", m.as_str()),
            AdapterSpoolError::Ingest(e) => cat2("adapter capture: ", e.message().as_str()),
            AdapterSpoolError::CloudOutput(e) => cat2(
                "adapter cloud output: ",
                e.message().as_str(),
            ),
        }
    }
}

impl From<IngestError> for AdapterSpoolError {
    fn from(value: IngestError) -> (r: Self) {
        AdapterSpoolError::Ingest(value)
    }
}

impl vstd::std_specs::convert::FromSpecImpl<IngestError> for AdapterSpoolError {
    open spec fn obeys_from_spec() -> bool {
        true
    }

    open spec fn from_spec(value: IngestError) -> Self {
        AdapterSpoolError::Ingest(value)
    }
}

impl From<AdapterCloudOutputError> for AdapterSpoolError {
    fn from(value: AdapterCloudOutputError) -> (r: Self) {
        AdapterSpoolError::CloudOutput(value)
    }
}

impl vstd::std_specs::convert::FromSpecImpl<AdapterCloudOutputError> for AdapterSpoolError {
    open spec fn obeys_from_spec() -> bool {
        true
    }

    open spec fn from_spec(value: AdapterCloudOutputError) -> Self {
        AdapterSpoolError::CloudOutput(value)
    }
}

fn malformed<T>(message: &str) -> (r: Result<T, AdapterSpoolError>)
    ensures
        r matches Err(e) && e.deep_view() == SpoolFault::MalformedInput(message@),
{
    Err(AdapterSpoolError::MalformedInput(message.to_string()))
}

// ---------------------------------------------------------------------------
// Kinds
// ---------------------------------------------------------------------------

/// A kind as it is compared: trimmed, in lower case, and with `_` for `-`.
pub open spec fn plain_kind(kind: Seq<char>) -> Seq<char> {
    replaced(lowered(trimmed(kind)), '-', '_')
}

pub fn normalized_kind(kind: &str) -> (r: String)
    ensures
        r@ == plain_kind(kind@),
{
    replace(lower(trim(kind)).as_str(), '-', '_')
}

/// What an event is.
#[derive(Debug, Clone, Copy, PartialEq, Eq, Structural)]
pub enum SpoolKind {
    Turn,
    CloudOutput,
}

/// The name of a kind.
pub open spec fn kind_name(k: SpoolKind) -> Seq<char> {
    match k {
        SpoolKind::Turn => "turn"@,
        SpoolKind::CloudOutput => "cloud_output"@,
    }
}

impl SpoolKind {
    pub fn as_str(self) -> (r: &'static str)
        ensures
            r@ == kind_name(self),
    {
        match self {
            SpoolKind::Turn => "turn",
            SpoolKind::CloudOutput => "cloud_output",
        }
    }
}

/// The kind that a name stands for.
pub open spec fn kind_named(kind: Seq<char>) -> Option<SpoolKind> {
    let k = plain_kind(kind);
    if k == "turn"@ || k == "capture_turn"@ || k == "adapter_capture"@ {
        Some(SpoolKind::Turn)
    } else if k == "cloud_output"@ || k == "adapter_cloud_output"@ {
        Some(SpoolKind::CloudOutput)
    } else {
        None
    }
}

/// The kind that a name stands for, which must be one that is known.
pub open spec fn known_kind(kind: Seq<char>) -> Result<SpoolKind, SpoolFault> {
    match kind_named(kind) {
        Some(k) => Ok(k),
        None => Err(
            SpoolFault::MalformedInput(
                "unknown spool event kind `"@ + plain_kind(kind)
                    + "`; expected turn or cloud_output"@,
            ),
        ),
    }
}

pub fn canonical_kind(kind: &str) -> (r: Result<SpoolKind, AdapterSpoolError>)
    ensures
        match r {
            Ok(k) => known_kind(kind@) == Ok::<SpoolKind, SpoolFault>(k),
            Err(e) => known_kind(kind@) == Err::<SpoolKind, SpoolFault>(e.deep_view()),
        },
{
    let plain = normalized_kind(kind);
    let k = plain.as_str();
    if same(k, "turn") || same(k, "capture_turn") || same(k, "adapter_capture") {
        Ok(SpoolKind::Turn)
    } else if same(k, "cloud_output") || same(k, "adapter_cloud_output") {
        Ok(SpoolKind::CloudOutput)
    } else {
        malformed(
            cat3("unknown spool event kind `", k, "`; expected turn or cloud_output").as_str(),
        )
    }
}

// ---------------------------------------------------------------------------
// Appending
// ---------------------------------------------------------------------------

/// The payload, with the flags and variables for what it does not say.
pub open spec fn with_defaults(
    kind: SpoolKind,
    m: Seq<(Seq<char>, JsonView)>,
    args: AppendArgsView,
    env: SpoolEnvView,
) -> Seq<(Seq<char>, JsonView)> {
    let a = filled(m, "project"@, nonblank(first(args.project, trimmed_nonblank(env.project))));
    let b = filled(
        a,
        "session_id"@,
        nonblank(first(args.session_id, trimmed_nonblank(env.session_id))),
    );
    let c = filled(b, "cwd"@, nonblank(args.cwd));
    let d = filled(c, "binding_nonce"@, nonblank(args.binding_nonce));
    match kind {
        SpoolKind::Turn => {
            let e = filled(
                d,
                "source"@,
                nonblank(first(args.source, trimmed_nonblank(env.client))),
            );
            filled(e, "git_branch"@, nonblank(args.git_branch))
        },
        SpoolKind::CloudOutput => filled(
            d,
            "client"@,
            nonblank(first(args.client, trimmed_nonblank(env.client))),
        ),
    }
}

/// Puts a text into an object, unless it is blank or the object has a member of that
/// name.
fn insert_string_if_missing(m: &mut Vec<Member>, name: &str, value: Option<&str>)
    ensures
        members_view(final(m)@) == filled(
            members_view(old(m)@),
            name@,
            nonblank(value.deep_view()),
        ),
{
    match value {
        Some(v) => if !trim(v).is_empty() {
            put_missing(m, name, Some(v));
        },
        None => {},
    }
}

/// A flag, or else a variable that is not blank.
fn flag_or_env<'a>(flag: &'a Option<String>, env: &'a Option<String>) -> (r: Option<&'a str>)
    ensures
        r.deep_view() == first(flag.deep_view(), trimmed_nonblank(env.deep_view())),
{
    match flag {
        Some(f) => Some(f.as_str()),
        None => trim_nonblank(borrowed(env)),
    }
}

pub fn apply_append_defaults(
    kind: SpoolKind,
    payload: &mut Vec<Member>,
    args: &AdapterSpoolAppendArgs,
    env: &SpoolEnv,
)
    ensures
        members_view(final(payload)@) == with_defaults(
            kind,
            members_view(old(payload)@),
            args.deep_view(),
            env.deep_view(),
        ),
{
    insert_string_if_missing(payload, "project", flag_or_env(&args.project, &env.project));
    insert_string_if_missing(
        payload,
        "session_id",
        flag_or_env(&args.session_id, &env.session_id),
    );
    insert_string_if_missing(payload, "cwd", borrowed(&args.cwd));
    insert_string_if_missing(payload, "binding_nonce", borrowed(&args.binding_nonce));
    match kind {
        SpoolKind::Turn => {
            insert_string_if_missing(payload, "source", flag_or_env(&args.source, &env.client));
            insert_string_if_missing(payload, "git_branch", borrowed(&args.git_branch));
        },
        SpoolKind::CloudOutput => {
            insert_string_if_missing(payload, "client", flag_or_env(&args.client, &env.client));
        },
    }
}

/// The payload has a text under this name that is not blank.
pub open spec fn has_text(m: Seq<(Seq<char>, JsonView)>, name: Seq<char>) -> bool {
    nonblank(as_text(find(m, name))) is Some
}

pub fn has_nonempty_string(m: &Vec<Member>, name: &str) -> (r: bool)
    ensures
        r == has_text(members_view(m@), name@),
{
    match member_text(m, name) {
        Some(t) => !trim(t).is_empty(),
        None => false,
    }
}

pub const TURN_NEEDS_TEXT: &'static str = "turn payload requires prompt_text or response_text";

pub const CLOUD_NEEDS_FRAME: &'static str =
    "cloud_output payload requires task_frame_id or task_frame_query";

/// What is wrong with a payload for its kind, if anything.
pub open spec fn payload_fault(
    kind: SpoolKind,
    m: Seq<(Seq<char>, JsonView)>,
) -> Option<Seq<char>> {
    match kind {
        SpoolKind::Turn => if !has_text(m, "source"@) {
            Some("payload field `"@ + "source"@ + "` must be a non-empty string"@)
        } else if !has_text(m, "prompt_text"@) && !has_text(m, "response_text"@) {
            Some(TURN_NEEDS_TEXT@)
        } else {
            None
        },
        SpoolKind::CloudOutput => if !has_text(m, "output_text"@) {
            Some("payload field `"@ + "output_text"@ + "` must be a non-empty string"@)
        } else if find(m, "task_frame_id"@) is None && !has_text(m, "task_frame_query"@) {
            Some(CLOUD_NEEDS_FRAME@)
        } else {
            None
        },
    }
}

pub fn validate_payload_for_kind(kind: SpoolKind, m: &Vec<Member>) -> (r: Result<
    (),
    AdapterSpoolError,
>)
    ensures
        verdict(r) == match payload_fault(kind, members_view(m@)) {
            Some(f) => Err(SpoolFault::MalformedInput(f)),
            None => Ok(()),
        },
{
    match kind {
        SpoolKind::Turn => {
            if !has_nonempty_string(m, "source") {
                malformed(
                    cat3("payload field `", "source", "` must be a non-empty string").as_str(),
                )
            } else if !has_nonempty_string(m, "prompt_text") && !has_nonempty_string(
                m,
                "response_text",
            ) {
                malformed(TURN_NEEDS_TEXT)
            } else {
                Ok(())
            }
        },
        SpoolKind::CloudOutput => {
            if !has_nonempty_string(m, "output_text") {
                malformed(
                    cat3("payload field `", "output_text", "` must be a non-empty string").as_str(),
                )
            } else if !has_member(m, "task_frame_id") && !has_nonempty_string(
                m,
                "task_frame_query",
            ) {
                malformed(CLOUD_NEEDS_FRAME)
            } else {
                Ok(())
            }
        },
    }
}

pub const EVENT_SCHEMA: &'static str = "soma.adapter_spool_event.v1";

pub const WRITER_CONTRACT: &'static str = "soma_adapter_spool_append_v1";

/// An event, as it is written. Its members stand in the order of their names.
pub open spec fn event_json(kind: SpoolKind, m: Seq<(Seq<char>, JsonView)>, now: i64) -> JsonView {
    JsonView::Object(
        Seq::empty().push(("kind"@, JsonView::Text(kind_name(kind)))).push(
            ("observed_at_ns"@, JsonView::Int(now as int)),
        ).push(("payload"@, JsonView::Object(m))).push(
            ("schema"@, JsonView::Text(EVENT_SCHEMA@)),
        ).push(("writer_contract"@, JsonView::Text(WRITER_CONTRACT@))),
    )
}

/// The event for a payload that was read, or why there is none.
pub open spec fn spool_event(
    parsed: Result<JsonView, Seq<char>>,
    args: AppendArgsView,
    env: SpoolEnvView,
    now: i64,
) -> Result<JsonView, SpoolFault> {
    match known_kind(args.kind) {
        Err(f) => Err(f),
        Ok(kind) => match parsed {
            Err(e) => Err(SpoolFault::MalformedInput("payload JSON parse: "@ + e)),
            Ok(JsonView::Object(m)) => {
                let full = with_defaults(kind, m, args, env);
                match payload_fault(kind, full) {
                    Some(f) => Err(SpoolFault::MalformedInput(f)),
                    None => Ok(event_json(kind, full, now)),
                }
            },
            Ok(_) => Err(SpoolFault::MalformedInput("payload must be a JSON object"@)),
        },
    }
}

/// A value that was read as JSON, or why it was not.
pub open spec fn parsed_view(p: Result<Json, String>) -> Result<JsonView, Seq<char>> {
    match p {
        Ok(j) => Ok(j@),
        Err(e) => Err(e@),
    }
}

/// The event for a payload that was read.
pub fn spool_event_of(
    parsed: Result<Json, String>,
    args: &AdapterSpoolAppendArgs,
    env: &SpoolEnv,
    now_ns: i64,
) -> (r: Result<Json, AdapterSpoolError>)
    ensures
        outcome(r) == spool_event(parsed_view(parsed), args.deep_view(), env.deep_view(), now_ns),
{
    let kind = match canonical_kind(args.kind.as_str()) {
        Err(e) => return Err(e),
        Ok(k) => k,
    };
    let value = match parsed {
        Err(e) => return malformed(cat2("payload JSON parse: ", e.as_str()).as_str()),
        Ok(j) => j,
    };
    let mut payload = match members_of(value) {
        None => return malformed("payload must be a JSON object"),
        Some(m) => m,
    };
    apply_append_defaults(kind, &mut payload, args, env);
    match validate_payload_for_kind(kind, &payload) {
        Err(e) => return Err(e),
        Ok(_) => {},
    }
    Ok(
        Members::new().text("kind", kind.as_str()).integer("observed_at_ns", now_ns as i128).put(
            "payload",
            object_of(payload),
        ).text("schema", EVENT_SCHEMA).text("writer_contract", WRITER_CONTRACT).done(),
    )
}

/// The event for a payload in JSON.
pub fn build_spool_event_value(
    raw: &str,
    args: &AdapterSpoolAppendArgs,
    env: &SpoolEnv,
    now_ns: i64,
) -> (r: Result<Json, AdapterSpoolError>)
    ensures
        outcome(r) == spool_event(json_of(raw@), args.deep_view(), env.deep_view(), now_ns),
{
    spool_event_of(parse_json(raw), args, env, now_ns)
}

/// A line that is to be appended to a spool.
#[derive(Debug)]
pub struct SpoolAppend {
    pub spool_path: String,
    pub kind: String,
    pub line: String,
    pub fsync: bool,
}

/// A line is what is to be appended for an event: its JSON and a newline, and from its
/// JSON the event is read back.
pub open spec fn appends(a: SpoolAppend, event: JsonView, args: AppendArgsView) -> bool {
    &&& a.spool_path@ == args.jsonl
    &&& Some(a.kind@) == as_text(get(event, "kind"@))
    &&& a.line@ == json_line(event).push('\n')
    &&& is_one_line(json_line(event))
    &&& reads_back(json_line(event), event)
    &&& a.fsync == args.fsync
}

/// The line for an event.
pub fn event_line(event: &Json, args: &AdapterSpoolAppendArgs) -> (r: SpoolAppend)
    requires
        as_text(get(event@, "kind"@)) is Some,
    ensures
        appends(r, event@, args.deep_view()),
{
    let kind = match event.get_text("kind") {
        Some(k) => k.to_string(),
        None => "unknown".to_string(),
    };
    let mut line = print_json(event);
    line.push('\n');
    SpoolAppend { spool_path: args.jsonl.clone(), kind, line, fsync: args.fsync }
}

/// The line for a payload in JSON.
pub fn append_json_str(
    raw: &str,
    args: &AdapterSpoolAppendArgs,
    env: &SpoolEnv,
    now_ns: i64,
) -> (r: Result<SpoolAppend, AdapterSpoolError>)
    ensures
        match spool_event(json_of(raw@), args.deep_view(), env.deep_view(), now_ns) {
            Err(f) => r matches Err(e) && e.deep_view() == f,
            Ok(event) => r matches Ok(a) && appends(a, event, args.deep_view()),
        },
{
    let event = match build_spool_event_value(raw, args, env, now_ns) {
        Err(e) => return Err(e),
        Ok(e) => e,
    };
    proof {
        lemma_event_members(
            known_kind(args.deep_view().kind)->Ok_0,
            event@->Object_0[2].1->Object_0,
            now_ns,
        );
    }
    Ok(event_line(&event, args))
}

pub proof fn lemma_event_members(kind: SpoolKind, m: Seq<(Seq<char>, JsonView)>, now: i64)
    ensures
        get(event_json(kind, m, now), "kind"@) == Some(JsonView::Text(kind_name(kind))),
        get(event_json(kind, m, now), "payload"@) == Some(JsonView::Object(m)),
{
    reveal_strlit("kind");
    reveal_strlit("observed_at_ns");
    reveal_strlit("payload");
    assert("kind"@.len() == 4);
    assert("observed_at_ns"@.len() == 14);
    assert("payload"@.len() == 7);
    let all = event_json(kind, m, now)->Object_0;
    let one = all.skip(1);
    let two = one.skip(1);
    assert(one[0] == all[1]);
    assert(two[0] == all[2]);
    reveal_with_fuel(find, 4);
}

/// What is said of input that could not be read.
pub open spec fn unread_text(path: Seq<char>, e: Seq<char>) -> Seq<char> {
    if path == "-"@ {
        "read stdin: "@ + e
    } else {
        "read `"@ + path + "`: "@ + e
    }
}

/// What is said of input that could not be read: standard input, where the path is `-`,
/// or a file.
pub fn unread_message(path: &str, e: &str) -> (r: String)
    ensures
        r@ == unread_text(path@, e@),
{
    if same(path, "-") {
        cat2("read stdin: ", e)
    } else {
        cat4("read `", path, "`: ", e)
    }
}

/// One `soma adapter-spool-append` call: the line that is to be appended. `read` is the
/// payload that the flags name, or why it could not be read.
pub fn run_append_blocking(
    args: &AdapterSpoolAppendArgs,
    read: Result<String, String>,
    env: &SpoolEnv,
    now_ns: i64,
) -> (r: Result<SpoolAppend, AdapterSpoolError>)
    ensures
        match read {
            Err(e) => r matches Err(x) && x.deep_view() == SpoolFault::Io(
                unread_text(args.json@, e@),
            ),
            Ok(raw) => match spool_event(
                json_of(raw@),
                args.deep_view(),
                env.deep_view(),
                now_ns,
            ) {
                Err(f) => r matches Err(e) && e.deep_view() == f,
                Ok(event) => r matches Ok(a) && appends(a, event, args.deep_view()),
            },
        },
{
    match read {
        Err(e) => Err(AdapterSpoolError::Io(unread_message(args.json.as_str(), e.as_str()))),
        Ok(raw) => append_json_str(raw.as_str(), args, env, now_ns),
    }
}

/// What an append did, once the file is `end_offset` bytes long.
pub fn append_outcome(a: SpoolAppend, end_offset: u64) -> (r: AdapterSpoolAppendOutcome)
    ensures
        r.deep_view() == (AppendOutcomeView {
            spool_path: a.spool_path@,
            kind: a.kind@,
            appended_bytes: encode_utf8(a.line@).len() as usize,
            end_offset,
            fsync: a.fsync,
        }),
{
    let appended_bytes = a.line.as_str().as_bytes().len();
    AdapterSpoolAppendOutcome {
        spool_path: a.spool_path,
        kind: a.kind,
        appended_bytes,
        end_offset,
        fsync: a.fsync,
    }
}

// ---------------------------------------------------------------------------
// Checkpoints
// ---------------------------------------------------------------------------

/// The checkpoint of a spool, unless the flags name another.
pub fn default_checkpoint_path(spool_path: &str) -> (r: String)
    ensures
        r@ == extended(spool_path@, "offset"@),
{
    with_extension(spool_path, "offset")
}

/// What came of reading a checkpoint.
#[derive(Debug)]
pub enum CheckpointRead {
    Text(String),
    Missing,
    Failed(String),
}

/// What a `CheckpointRead` holds.
pub enum CheckpointView {
    Text(Seq<char>),
    Missing,
    Failed(Seq<char>),
}

impl DeepView for CheckpointRead {
    type V = CheckpointView;

    open spec fn deep_view(&self) -> CheckpointView {
        match self {
            CheckpointRead::Text(t) => CheckpointView::Text(t@),
            CheckpointRead::Missing => CheckpointView::Missing,
            CheckpointRead::Failed(e) => CheckpointView::Failed(e@),
        }
    }
}

/// The offset that a checkpoint tells: none is told where there is no checkpoint yet.
pub open spec fn checkpoint_offset(path: Seq<char>, c: CheckpointView) -> Result<int, SpoolFault> {
    match c {
        CheckpointView::Missing => Ok(0),
        CheckpointView::Failed(e) => Err(
            SpoolFault::Io("read checkpoint `"@ + path + "`: "@ + e),
        ),
        CheckpointView::Text(t) => match parsed_integer(trimmed(t), 0, u64::MAX as int) {
            Some(n) => Ok(n),
            None => Err(
                SpoolFault::MalformedInput(
                    "checkpoint `"@ + path + "` is not a byte offset: "@ + u64_fault(trimmed(t)),
                ),
            ),
        },
    }
}

pub fn read_checkpoint(path: &str, c: &CheckpointRead) -> (r: Result<u64, AdapterSpoolError>)
    ensures
        match r {
            Ok(n) => checkpoint_offset(path@, c.deep_view()) == Ok::<int, SpoolFault>(n as int),
            Err(e) => checkpoint_offset(path@, c.deep_view()) == Err::<int, SpoolFault>(
                e.deep_view(),
            ),
        },
{
    match c {
        CheckpointRead::Missing => Ok(0),
        CheckpointRead::Failed(e) => Err(
            AdapterSpoolError::Io(cat4("read checkpoint `", path, "`: ", e.as_str())),
        ),
        CheckpointRead::Text(t) => match u64_or_fault(trim(t.as_str())) {
            Ok(n) => Ok(n),
            Err(e) => Err(
                AdapterSpoolError::MalformedInput(
                    cat4("checkpoint `", path, "` is not a byte offset: ", e.as_str()),
                ),
            ),
        },
    }
}

/// The text of a checkpoint.
pub open spec fn checkpoint_text(offset: u64) -> Seq<char> {
    decimal(offset as nat) + "\n"@
}

pub fn write_checkpoint(offset: u64) -> (r: String)
    ensures
        r@ == checkpoint_text(offset),
{
    cat2(decimal_text(offset).as_str(), "\n")
}

// ---------------------------------------------------------------------------
// Draining
// ---------------------------------------------------------------------------

/// Where the line that begins at `at` ends, its newline included.
pub open spec fn line_end(content: Seq<u8>, at: int) -> int
    decreases content.len() - at,
{
    if at >= content.len() {
        content.len() as int
    } else if content[at] == 10 {
        at + 1
    } else {
        line_end(content, at + 1)
    }
}

/// What comes next in a spool.
pub enum NextView {
    /// Nothing.
    End,
    /// Bytes that are no text.
    Broken,
    /// A line with an event, trimmed, and where the next one begins.
    Line(Seq<char>, int),
}

/// What comes next from `at` on, and how many blank lines stand before it.
pub open spec fn next_in(content: Seq<u8>, at: int) -> (NextView, nat)
    decreases content.len() - at,
    via next_in_decreases
{
    if at < 0 || at >= content.len() {
        (NextView::End, 0)
    } else {
        let to = line_end(content, at);
        let line = content.subrange(at, to);
        if !valid_utf8(line) {
            (NextView::Broken, 0)
        } else if trimmed(decode_utf8(line)).len() == 0 {
            let (next, n) = next_in(content, to);
            (next, n + 1)
        } else {
            (NextView::Line(trimmed(decode_utf8(line)), to), 0)
        }
    }
}

#[via_fn]
proof fn next_in_decreases(content: Seq<u8>, at: int) {
    if 0 <= at < content.len() {
        lemma_line_end(content, at);
    }
}

proof fn lemma_line_end(content: Seq<u8>, at: int)
    requires
        0 <= at <= content.len(),
    ensures
        at <= line_end(content, at) <= content.len(),
        at < content.len() ==> at < line_end(content, at),
    decreases content.len() - at,
{
    if at < content.len() && content[at] != 10 {
        lemma_line_end(content, at + 1);
    }
}

pub proof fn lemma_blank_lines(content: Seq<u8>, at: int)
    requires
        0 <= at <= content.len(),
    ensures
        next_in(content, at).1 <= content.len() - at,
        next_in(content, at).0 matches NextView::Line(_, to) ==> at + next_in(content, at).1 < to
            <= content.len(),
    decreases content.len() - at,
{
    if at < content.len() {
        lemma_line_end(content, at);
        let to = line_end(content, at);
        let line = content.subrange(at, to);
        if valid_utf8(line) && trimmed(decode_utf8(line)).len() == 0 {
            lemma_blank_lines(content, to);
        }
    }
}

/// The sum, or the largest offset.
pub open spec fn offset_after(start: u64, bytes: int) -> u64 {
    if start + bytes > u64::MAX {
        u64::MAX
    } else {
        (start + bytes) as u64
    }
}

/// A drain that is under way: what it did so far, and how far into what it drains it is.
#[derive(Debug)]
pub struct SpoolDrain {
    pub outcome: AdapterSpoolOutcome,
    pub at: usize,
}

/// What a `SpoolDrain` holds.
#[verifier::ext_equal]
pub struct DrainView {
    pub outcome: SpoolOutcomeView,
    pub at: int,
}

impl View for SpoolDrain {
    type V = DrainView;

    open spec fn view(&self) -> DrainView {
        DrainView { outcome: self.outcome.deep_view(), at: self.at as int }
    }
}

/// A drain that has read nothing yet.
pub open spec fn drain_from(o: SpoolOutcomeView) -> DrainView {
    DrainView { outcome: o, at: 0 }
}

impl SpoolDrain {
    /// Each line that was scanned was captured.
    pub open spec fn is_even(&self) -> bool {
        self.outcome.scanned_lines == self.outcome.captured_turns
            + self.outcome.captured_cloud_outputs
    }

    /// Each line that was scanned was captured, but for the last one.
    pub open spec fn has_one_open(&self) -> bool {
        self.outcome.scanned_lines == self.outcome.captured_turns
            + self.outcome.captured_cloud_outputs + 1
    }

    /// The drain is within what it drains, and what it counts fits.
    pub open spec fn fits(&self, content: Seq<u8>) -> bool {
        &&& self.at <= content.len()
        &&& self.outcome.end_offset == offset_after(self.outcome.start_offset, self.at as int)
        &&& self.outcome.scanned_lines + self.outcome.skipped_empty_lines <= self.at
    }
}

/// Why a spool could not be opened.
#[derive(Debug)]
pub enum SpoolOpenFault {
    Open(String),
    Metadata(String),
}

/// The checkpoint of a drain.
pub open spec fn checkpoint_of(jsonl: Seq<char>, checkpoint: Option<Seq<char>>) -> Seq<char> {
    match checkpoint {
        Some(c) => c,
        None => extended(jsonl, "offset"@),
    }
}

pub fn checkpoint_path(args: &AdapterSpoolArgs) -> (r: String)
    ensures
        r@ == checkpoint_of(args.jsonl@, args.checkpoint.deep_view()),
{
    match &args.checkpoint {
        Some(c) => c.clone(),
        None => default_checkpoint_path(args.jsonl.as_str()),
    }
}

/// A drain at its beginning: it goes on where the checkpoint says, and at the end of a
/// file that has become shorter.
pub open spec fn drain_start(
    jsonl: Seq<char>,
    checkpoint: Option<Seq<char>>,
    c: CheckpointView,
    file: Result<u64, SpoolOpenFault>,
) -> Result<SpoolOutcomeView, SpoolFault> {
    match checkpoint_offset(checkpoint_of(jsonl, checkpoint), c) {
        Err(f) => Err(f),
        Ok(offset) => match file {
            Err(SpoolOpenFault::Open(e)) => Err(SpoolFault::Io("open `"@ + jsonl + "`: "@ + e@)),
            Err(SpoolOpenFault::Metadata(e)) => Err(
                SpoolFault::Io("metadata `"@ + jsonl + "`: "@ + e@),
            ),
            Ok(len) => {
                let start = if offset < len {
                    offset as u64
                } else {
                    len
                };
                Ok(
                    SpoolOutcomeView {
                        spool_path: jsonl,
                        checkpoint_path: checkpoint_of(jsonl, checkpoint),
                        start_offset: start,
                        end_offset: start,
                        scanned_lines: 0,
                        captured_turns: 0,
                        captured_cloud_outputs: 0,
                        skipped_empty_lines: 0,
                    },
                )
            },
        },
    }
}

/// One `soma adapter-spool` call, at its beginning. `file` is the length of the spool, or
/// why it could not be opened. What the spool holds from `start_offset` on is then drained
/// line by line: `drain_step` gives a line, and `spool_action` tells what it asks for. What
/// came of that is handed to the next `drain_step`. When no line is left that gives the
/// checkpoint to be written.
pub fn run_blocking(
    args: &AdapterSpoolArgs,
    checkpoint: &CheckpointRead,
    file: Result<u64, SpoolOpenFault>,
) -> (r: Result<SpoolDrain, AdapterSpoolError>)
    ensures
        match drain_start(
            args.jsonl@,
            args.checkpoint.deep_view(),
            checkpoint.deep_view(),
            file,
        ) {
            Err(f) => r matches Err(e) && e.deep_view() == f,
            Ok(o) => r matches Ok(d) && d@ == drain_from(o) && d.is_even() && (forall|
                content: Seq<u8>,
            | #[trigger]
                d.fits(content)),
        },
{
    let path = checkpoint_path(args);
    let offset = match read_checkpoint(path.as_str(), checkpoint) {
        Err(e) => return Err(e),
        Ok(n) => n,
    };
    let len: u64 = match file {
        Err(SpoolOpenFault::Open(e)) => return Err(
            AdapterSpoolError::Io(cat4("open `", args.jsonl.as_str(), "`: ", e.as_str())),
        ),
        Err(SpoolOpenFault::Metadata(e)) => return Err(
            AdapterSpoolError::Io(cat4("metadata `", args.jsonl.as_str(), "`: ", e.as_str())),
        ),
        Ok(n) => n,
    };
    let start: u64 = if offset < len { offset } else { len };
    Ok(
        SpoolDrain {
            outcome: AdapterSpoolOutcome {
                spool_path: args.jsonl.clone(),
                checkpoint_path: path,
                start_offset: start,
                end_offset: start,
                scanned_lines: 0,
                captured_turns: 0,
                captured_cloud_outputs: 0,
                skipped_empty_lines: 0,
            },
            at: 0,
        },
    )
}

fn find_line_end(content: &Vec<u8>, at: usize) -> (r: usize)
    requires
        at <= content.len(),
    ensures
        r == line_end(content@, at as int),
        at <= r <= content.len(),
        at < content.len() ==> at < r,
{
    let mut i: usize = at;
    while i < content.len() && content[i] != 10
        invariant
            at <= i <= content.len(),
            line_end(content@, at as int) == line_end(content@, i as int),
        decreases content.len() - i,
    {
        i = i + 1;
    }
    if i < content.len() {
        i + 1
    } else {
        i
    }
}

/// What a drain has done when it came to its next line.
pub open spec fn advanced(
    o: SpoolOutcomeView,
    to: int,
    blank: nat,
    lines: nat,
) -> SpoolOutcomeView {
    SpoolOutcomeView {
        end_offset: offset_after(o.start_offset, to),
        skipped_empty_lines: (o.skipped_empty_lines + blank) as usize,
        scanned_lines: (o.scanned_lines + lines) as usize,
        ..o
    }
}

/// The next line of what is drained, trimmed. Blank lines are passed over.
pub fn next_line(drain: &mut SpoolDrain, content: &Vec<u8>) -> (r: Result<
    Option<String>,
    AdapterSpoolError,
>)
    requires
        old(drain).fits(content@),
    ensures
        match next_in(content@, old(drain).at as int) {
            (NextView::Broken, _) => r matches Err(e) && e.deep_view() == SpoolFault::Io(
                "read `"@ + old(drain).outcome.spool_path@ + "`: "@ + NOT_UTF8@,
            ),
            (NextView::End, n) => r matches Ok(None) && final(drain).at == content@.len()
                && final(drain).outcome.deep_view() == advanced(
                old(drain).outcome.deep_view(),
                content@.len() as int,
                n,
                0,
            ) && final(drain).fits(content@),
            (NextView::Line(text, to), n) => r matches Ok(Some(s)) && s@ == text
                && final(drain).at == to && final(drain).outcome.deep_view()
                    == advanced(old(drain).outcome.deep_view(), to, n, 1)
                && final(drain).outcome.scanned_lines == old(drain).outcome.scanned_lines + 1
                && final(drain).fits(content@),
        },
{
    let ghost begin = drain.at as int;
    let ghost was = *drain;
    let ghost want = next_in(content@, begin);
    proof {
        lemma_blank_lines(content@, begin);
    }
    let mut blank: usize = 0;
    while drain.at < content.len()
        invariant
            was == *old(drain),
            was.at <= drain.at <= content.len(),
            was.fits(content@),
            want == next_in(content@, was.at as int),
            want.0 == next_in(content@, drain.at as int).0,
            want.1 == blank + next_in(content@, drain.at as int).1,
            blank <= drain.at - was.at,
            drain.outcome.deep_view() == advanced(
                was.outcome.deep_view(),
                drain.at as int,
                blank as nat,
                0,
            ),
            drain.outcome.start_offset == was.outcome.start_offset,
        decreases content.len() - drain.at,
    {
        let at = drain.at;
        let to = find_line_end(content, at);
        let bytes = bytes_between(content, at, to);
        let line = match utf8_text(bytes.as_slice()) {
            Err(_) => return Err(
                AdapterSpoolError::Io(
                    cat4("read `", drain.outcome.spool_path.as_str(), "`: ", NOT_UTF8),
                ),
            ),
            Ok(s) => s,
        };
        let read: u64 = (to - at) as u64;
        drain.outcome.end_offset = drain.outcome.end_offset.saturating_add(read);
        drain.at = to;
        let text = trim(line.as_str());
        if text.is_empty() {
            blank = blank + 1;
            drain.outcome.skipped_empty_lines = drain.outcome.skipped_empty_lines + 1;
        } else {
            drain.outcome.scanned_lines = drain.outcome.scanned_lines + 1;
            return Ok(Some(text.to_string()));
        }
    }
    Ok(None)
}

fn bytes_between(content: &Vec<u8>, from: usize, to: usize) -> (r: Vec<u8>)
    requires
        from <= to <= content.len(),
    ensures
        r@ == content@.subrange(from as int, to as int),
{
    let mut out: Vec<u8> = Vec::new();
    let mut i: usize = from;
    while i < to
        invariant
            from <= i <= to <= content.len(),
            out@ =~= content@.subrange(from as int, i as int),
        decreases to - i,
    {
        out.push(content[i]);
        i = i + 1;
    }
    out
}

/// What a line asks for: to capture its payload, as a turn or as the answer of a cloud
/// model.
#[derive(Debug)]
pub struct SpoolAction {
    pub kind: SpoolKind,
    pub payload: String,
}

/// What a line asks for. `event` are the kind and payload that were read from it, or why
/// it could not be read.
pub fn spool_action(event: Result<(String, Json), String>) -> (r: Result<
    SpoolAction,
    AdapterSpoolError,
>)
    ensures
        match event {
            Err(e) => r matches Err(x) && x.deep_view() == SpoolFault::MalformedInput(
                "JSONL event parse: "@ + e@,
            ),
            Ok(p) => match known_kind(p.0@) {
                Err(f) => r matches Err(x) && x.deep_view() == f,
                Ok(kind) => r matches Ok(a) && a.kind == kind && a.payload@ == json_line(p.1@)
                    && reads_back(a.payload@, p.1@),
            },
        },
{
    let (kind, payload) = match event {
        Err(e) => return malformed(cat2("JSONL event parse: ", e.as_str()).as_str()),
        Ok(p) => p,
    };
    match canonical_kind(kind.as_str()) {
        Err(e) => Err(e),
        Ok(k) => Ok(SpoolAction { kind: k, payload: print_json(&payload) }),
    }
}

/// The counts with one more line of a kind.
pub open spec fn counted(o: SpoolOutcomeView, kind: SpoolKind) -> SpoolOutcomeView {
    match kind {
        SpoolKind::Turn => SpoolOutcomeView {
            captured_turns: (o.captured_turns + 1) as usize,
            ..o
        },
        SpoolKind::CloudOutput => SpoolOutcomeView {
            captured_cloud_outputs: (o.captured_cloud_outputs + 1) as usize,
            ..o
        },
    }
}

/// Notes that what a line asked for was done.
pub fn count(drain: &mut SpoolDrain, kind: SpoolKind)
    requires
        old(drain).has_one_open(),
    ensures
        final(drain)@ == (DrainView {
            outcome: counted(old(drain).outcome.deep_view(), kind),
            ..old(drain)@
        }),
        final(drain).is_even(),
{
    match kind {
        SpoolKind::Turn => {
            drain.outcome.captured_turns = drain.outcome.captured_turns + 1;
        },
        SpoolKind::CloudOutput => {
            drain.outcome.captured_cloud_outputs = drain.outcome.captured_cloud_outputs + 1;
        },
    }
}

/// How a drain goes on: there is a line to be done, or all is done and the checkpoint is to
/// be written, or the drain has failed and nothing is to be written.
#[derive(Debug)]
pub enum DrainStep {
    Line(SpoolDrain, String),
    Done(AdapterSpoolOutcome, String),
    Failed(AdapterSpoolError),
}

/// What a `DrainStep` holds.
pub enum DrainStepView {
    Line(DrainView, Seq<char>),
    Done(SpoolOutcomeView, Seq<char>),
    Failed(SpoolFault),
}

impl DeepView for DrainStep {
    type V = DrainStepView;

    open spec fn deep_view(&self) -> DrainStepView {
        match self {
            DrainStep::Line(d, text) => DrainStepView::Line(d@, text@),
            DrainStep::Done(o, text) => DrainStepView::Done(o.deep_view(), text@),
            DrainStep::Failed(e) => DrainStepView::Failed(e.deep_view()),
        }
    }
}

/// The drain at the next line that is not blank, or at its end.
pub open spec fn drain_next(d: DrainView, content: Seq<u8>) -> DrainStepView {
    match next_in(content, d.at) {
        (NextView::Broken, _) => DrainStepView::Failed(
            SpoolFault::Io("read `"@ + d.outcome.spool_path + "`: "@ + NOT_UTF8@),
        ),
        (NextView::End, n) => {
            let o = advanced(d.outcome, content.len() as int, n, 0);
            DrainStepView::Done(o, checkpoint_text(o.end_offset))
        },
        (NextView::Line(text, to), n) => DrainStepView::Line(
            DrainView { outcome: advanced(d.outcome, to, n, 1), at: to },
            text,
        ),
    }
}

/// How a drain goes on. `done` is what came of its last line, where it has read one. A line
/// that failed ends the drain.
pub open spec fn drain_after(
    d: DrainView,
    content: Seq<u8>,
    done: Option<Result<SpoolKind, SpoolFault>>,
) -> DrainStepView {
    match done {
        None => drain_next(d, content),
        Some(Ok(kind)) => drain_next(
            DrainView { outcome: counted(d.outcome, kind), ..d },
            content,
        ),
        Some(Err(f)) => DrainStepView::Failed(f),
    }
}

/// What came of a line.
pub open spec fn line_done(done: Option<Result<SpoolKind, AdapterSpoolError>>) -> Option<
    Result<SpoolKind, SpoolFault>,
> {
    match done {
        None => None,
        Some(Ok(kind)) => Some(Ok(kind)),
        Some(Err(e)) => Some(Err(e.deep_view())),
    }
}

/// How a drain of `content` goes on. `done` is what came of the line that the last step
/// gave: its kind, once it was captured, or why it was not.
pub fn drain_step(
    drain: SpoolDrain,
    content: &Vec<u8>,
    done: Option<Result<SpoolKind, AdapterSpoolError>>,
) -> (r: DrainStep)
    requires
        drain.fits(content@),
        if done is Some {
            drain.has_one_open()
        } else {
            drain.is_even()
        },
    ensures
        r.deep_view() == drain_after(drain@, content@, line_done(done)),
        r matches DrainStep::Line(d, _) ==> d.fits(content@) && d.has_one_open(),
{
    let mut d = drain;
    match done {
        Some(Err(e)) => return DrainStep::Failed(e),
        Some(Ok(kind)) => count(&mut d, kind),
        None => {},
    }
    match next_line(&mut d, content) {
        Err(e) => DrainStep::Failed(e),
        Ok(Some(text)) => DrainStep::Line(d, text),
        Ok(None) => {
            let text = write_checkpoint(d.outcome.end_offset);
            DrainStep::Done(d.outcome, text)
        },
    }
}

/// What is known of a turn that is drained, apart from its payload.
pub fn turn_options(args: &AdapterSpoolArgs, env: &SpoolEnv) -> (r: AdapterCaptureRunOptions)
    ensures
        r.deep_view() == (RunOptionsView {
            source: args.source.deep_view(),
            cwd: args.cwd.deep_view(),
            project: args.project.deep_view(),
            session_id: first(
                args.session_id.deep_view(),
                trimmed_nonblank(env.deep_view().session_id),
            ),
            git_branch: args.git_branch.deep_view(),
        }),
{
    AdapterCaptureRunOptions {
        source: copy_text(&args.source),
        cwd: copy_text(&args.cwd),
        project: copy_text(&args.project),
        session_id: owned(flag_or_env(&args.session_id, &env.session_id)),
        git_branch: copy_text(&args.git_branch),
    }
}

}
