//! `soma adapter-lifecycle`: events of clients, brought into one form.
//!
//! Clients name the fields of their events in their own ways. An event is brought into the
//! form of the spool and, where a spool is named, appended to it. Nothing is captured here,
//! and nothing is trusted more for coming this way.
use super::adapter_spool::{
    appends, build_spool_event_value, event_line, kind_name, known_kind, lemma_event_members,
    spool_code, spool_event, spool_fault_text, unread_message, unread_text, AdapterSpoolAppendArgs,
    AdapterSpoolAppendOutcome, AdapterSpoolError, AppendArgsView, AppendOutcomeView, SpoolAppend,
    SpoolEnv, SpoolEnvView, SpoolFault, SpoolKind,
};
use crate::json::{
    filled, find, law_filling_in_keeps_members, law_filling_in_touches_one_member,
    law_removing_touches_one_name, member_removed, members_of, members_view, object_of, put_missing,
    remove_member, some_text, Json, JsonView, Member,
};
use crate::outcome::{
    borrowed, copy_text, first, outcome, owned, trim_nonblank, trimmed_nonblank, verdict,
};
use crate::outside::{json_line, json_of, parse_json, print_json};
use crate::text::{cat2, cat3, lower, lowered, replace, replaced, same, trim, trimmed};
use vstd::prelude::*;
use vstd::string::*;

verus! {

pub const ADAPTER_LIFECYCLE_SOURCE: &'static str = "soma_adapter_lifecycle";

pub const ADAPTER_LIFECYCLE_CONTRACT: &'static str =
    "client_lifecycle_events_normalize_to_adapter_spool_without_direct_promotion";

/// The flags of one `soma adapter-lifecycle` call.
#[derive(Debug)]
pub struct AdapterLifecycleArgs {
    pub json: String,
    pub jsonl: Option<String>,
    pub client: Option<String>,
    pub source: Option<String>,
    pub event: Option<String>,
    pub event_source: Option<String>,
    pub binding_nonce: Option<String>,
    pub hook_adapter: Option<String>,
    pub cwd: Option<String>,
    pub project: Option<String>,
    pub session_id: Option<String>,
    pub git_branch: Option<String>,
    pub fsync: bool,
    pub format: String,
}

/// What an `AdapterLifecycleArgs` holds.
#[verifier::ext_equal]
pub struct AdapterLifecycleArgsView {
    pub json: Seq<char>,
    pub jsonl: Option<Seq<char>>,
    pub client: Option<Seq<char>>,
    pub source: Option<Seq<char>>,
    pub event: Option<Seq<char>>,
    pub event_source: Option<Seq<char>>,
    pub binding_nonce: Option<Seq<char>>,
    pub hook_adapter: Option<Seq<char>>,
    pub cwd: Option<Seq<char>>,
    pub project: Option<Seq<char>>,
    pub session_id: Option<Seq<char>>,
    pub git_branch: Option<Seq<char>>,
    pub fsync: bool,
    pub format: Seq<char>,
}

impl DeepView for AdapterLifecycleArgs {
    type V = AdapterLifecycleArgsView;

    open spec fn deep_view(&self) -> AdapterLifecycleArgsView {
        AdapterLifecycleArgsView {
            json: self.json.deep_view(),
            jsonl: self.jsonl.deep_view(),
            client: self.client.deep_view(),
            source: self.source.deep_view(),
            event: self.event.deep_view(),
            event_source: self.event_source.deep_view(),
            binding_nonce: self.binding_nonce.deep_view(),
            hook_adapter: self.hook_adapter.deep_view(),
            cwd: self.cwd.deep_view(),
            project: self.project.deep_view(),
            session_id: self.session_id.deep_view(),
            git_branch: self.git_branch.deep_view(),
            fsync: self.fsync,
            format: self.format.deep_view(),
        }
    }
}

/// What an event of a client says, as far as it is read here.
#[derive(Debug)]
pub struct AdapterLifecyclePayload {
    pub client: Option<String>,
    pub event: Option<String>,
    pub lifecycle_event: Option<String>,
    pub kind: Option<String>,
    pub event_type: Option<String>,
    pub source: Option<String>,
    pub session_id: Option<String>,
    pub thread_id: Option<String>,
    pub prompt_text: Option<String>,
    pub response_text: Option<String>,
    pub output_text: Option<String>,
    pub task_frame_id: Option<i64>,
    pub task_frame_query: Option<String>,
}

/// What an `AdapterLifecyclePayload` holds.
#[verifier::ext_equal]
pub struct AdapterLifecyclePayloadView {
    pub client: Option<Seq<char>>,
    pub event: Option<Seq<char>>,
    pub lifecycle_event: Option<Seq<char>>,
    pub kind: Option<Seq<char>>,
    pub event_type: Option<Seq<char>>,
    pub source: Option<Seq<char>>,
    pub session_id: Option<Seq<char>>,
    pub thread_id: Option<Seq<char>>,
    pub prompt_text: Option<Seq<char>>,
    pub response_text: Option<Seq<char>>,
    pub output_text: Option<Seq<char>>,
    pub task_frame_id: Option<i64>,
    pub task_frame_query: Option<Seq<char>>,
}

impl DeepView for AdapterLifecyclePayload {
    type V = AdapterLifecyclePayloadView;

    open spec fn deep_view(&self) -> AdapterLifecyclePayloadView {
        AdapterLifecyclePayloadView {
            client: self.client.deep_view(),
            event: self.event.deep_view(),
            lifecycle_event: self.lifecycle_event.deep_view(),
            kind: self.kind.deep_view(),
            event_type: self.event_type.deep_view(),
            source: self.source.deep_view(),
            session_id: self.session_id.deep_view(),
            thread_id: self.thread_id.deep_view(),
            prompt_text: self.prompt_text.deep_view(),
            response_text: self.response_text.deep_view(),
            output_text: self.output_text.deep_view(),
            task_frame_id: self.task_frame_id.deep_view(),
            task_frame_query: self.task_frame_query.deep_view(),
        }
    }
}

/// The variables `SOMA_CLIENT`, `SOMA_PROJECT` and `SOMA_SESSION_ID`, and those that begin
/// with `SOMA_ADAPTER_LIFECYCLE_`.
#[derive(Debug)]
pub struct LifecycleEnv {
    pub client: Option<String>,
    pub project: Option<String>,
    pub session_id: Option<String>,
    pub lifecycle_client: Option<String>,
    pub lifecycle_hook_adapter: Option<String>,
    pub lifecycle_cwd: Option<String>,
    pub lifecycle_project: Option<String>,
    pub lifecycle_session: Option<String>,
}

/// What a `LifecycleEnv` holds.
#[verifier::ext_equal]
pub struct LifecycleEnvView {
    pub client: Option<Seq<char>>,
    pub project: Option<Seq<char>>,
    pub session_id: Option<Seq<char>>,
    pub lifecycle_client: Option<Seq<char>>,
    pub lifecycle_hook_adapter: Option<Seq<char>>,
    pub lifecycle_cwd: Option<Seq<char>>,
    pub lifecycle_project: Option<Seq<char>>,
    pub lifecycle_session: Option<Seq<char>>,
}

impl DeepView for LifecycleEnv {
    type V = LifecycleEnvView;

    open spec fn deep_view(&self) -> LifecycleEnvView {
        LifecycleEnvView {
            client: self.client.deep_view(),
            project: self.project.deep_view(),
            session_id: self.session_id.deep_view(),
            lifecycle_client: self.lifecycle_client.deep_view(),
            lifecycle_hook_adapter: self.lifecycle_hook_adapter.deep_view(),
            lifecycle_cwd: self.lifecycle_cwd.deep_view(),
            lifecycle_project: self.lifecycle_project.deep_view(),
            lifecycle_session: self.lifecycle_session.deep_view(),
        }
    }
}

/// What became of an event.
#[derive(Debug)]
pub struct AdapterLifecycleOutcome {
    pub source: &'static str,
    pub contract: &'static str,
    pub client: String,
    pub lifecycle_event: String,
    pub normalized_kind: String,
    pub emitted_event: Json,
    pub append: Option<AdapterSpoolAppendOutcome>,
}

/// What an `AdapterLifecycleOutcome` holds.
#[verifier::ext_equal]
pub struct AdapterLifecycleOutcomeView {
    pub source: Seq<char>,
    pub contract: Seq<char>,
    pub client: Seq<char>,
    pub lifecycle_event: Seq<char>,
    pub normalized_kind: Seq<char>,
    pub emitted_event: JsonView,
    pub append: Option<AppendOutcomeView>,
}

impl DeepView for AdapterLifecycleOutcome {
    type V = AdapterLifecycleOutcomeView;

    open spec fn deep_view(&self) -> AdapterLifecycleOutcomeView {
        AdapterLifecycleOutcomeView {
            source: self.source.deep_view(),
            contract: self.contract.deep_view(),
            client: self.client.deep_view(),
            lifecycle_event: self.lifecycle_event.deep_view(),
            normalized_kind: self.normalized_kind.deep_view(),
            emitted_event: self.emitted_event.deep_view(),
            append: self.append.deep_view(),
        }
    }
}

/// Why the command failed.
#[derive(Debug)]
#[non_exhaustive]
pub enum AdapterLifecycleError {
    Io(String),
    MalformedInput(String),
    Spool(AdapterSpoolError),
}

/// What an `AdapterLifecycleError` holds.
pub enum LifecycleFault {
    Io(Seq<char>),
    MalformedInput(Seq<char>),
    Spool(SpoolFault),
}

impl DeepView for AdapterLifecycleError {
    type V = LifecycleFault;

    open spec fn deep_view(&self) -> LifecycleFault {
        match self {
            AdapterLifecycleError::Io(m) => LifecycleFault::Io(m@),
            AdapterLifecycleError::MalformedInput(m) => LifecycleFault::MalformedInput(m@),
            AdapterLifecycleError::Spool(e) => LifecycleFault::Spool(e.deep_view()),
        }
    }
}

impl AdapterLifecycleError {
    /// The exit code of an error. One of the spool keeps its own.
    pub fn exit_code(&self) -> (r: i32)
        ensures
            r == match self.deep_view() {
                LifecycleFault::MalformedInput(_) => 1i32,
                LifecycleFault::Spool(f) => spool_code(f),
                LifecycleFault::Io(_) => 3i32,
            },
    {
        match self {
            AdapterLifecycleError::MalformedInput(_) => 1,
            AdapterLifecycleError::Spool(e) => e.exit_code(),
            AdapterLifecycleError::Io(_) => 3,
        }
    }

    /// The message of the error.
    pub fn message(&self) -> (r: String)
        ensures
            r@ == match self.deep_view() {
                LifecycleFault::Io(m) => "io: "@ + m,
                LifecycleFault::MalformedInput(m) => "malformed input: "@ + m,
                LifecycleFault::Spool(f) => "adapter spool: "@ + spool_fault_text(f),
            },
    {
        match self {
            AdapterLifecycleError::Io(m) => cat2("io: ", m.as_str()),
            AdapterLifecycleError::MalformedInput(m) => cat2("malformed input: ", m.as_str()),
            AdapterLifecycleError::Spool(e) => cat2("adapter spool: ", e.message().as_str()),
        }
    }
}

impl From<AdapterSpoolError> for AdapterLifecycleError {
    fn from(value: AdapterSpoolError) -> (r: Self) {
        AdapterLifecycleError::Spool(value)
    }
}

impl vstd::std_specs::convert::FromSpecImpl<AdapterSpoolError> for AdapterLifecycleError {
    open spec fn obeys_from_spec() -> bool {
        true
    }

    open spec fn from_spec(value: AdapterSpoolError) -> Self {
        AdapterLifecycleError::Spool(value)
    }
}

fn malformed<T>(message: &str) -> (r: Result<T, AdapterLifecycleError>)
    ensures
        r matches Err(e) && e.deep_view() == LifecycleFault::MalformedInput(message@),
{
    Err(AdapterLifecycleError::MalformedInput(message.to_string()))
}

// ---------------------------------------------------------------------------
// Kinds
// ---------------------------------------------------------------------------

/// The name of an event as it is compared: trimmed, in lower case, and with `_` for `-`
/// and for spaces.
pub open spec fn plain_token(s: Seq<char>) -> Seq<char> {
    replaced(replaced(lowered(trimmed(s)), '-', '_'), ' ', '_')
}

pub fn normalize_token(input: &str) -> (r: String)
    ensures
        r@ == plain_token(input@),
{
    replace(replace(lower(trim(input)).as_str(), '-', '_').as_str(), ' ', '_')
}

/// The event says something under this name.
pub open spec fn says(text: Option<Seq<char>>) -> bool {
    trimmed_nonblank(text) is Some
}

fn has_text(text: &Option<String>) -> (r: bool)
    ensures
        r == says(text.deep_view()),
{
    trim_nonblank(borrowed(text)).is_some()
}

pub const CANNOT_INFER: &'static str =
    "cannot infer lifecycle kind; provide event=turn_completed or event=assistant_response";

/// The kind of an event that does not name it.
pub open spec fn inferred_kind(
    p: AdapterLifecyclePayloadView,
) -> Result<SpoolKind, LifecycleFault> {
    if says(p.output_text) || (says(p.response_text) && (p.task_frame_id is Some || says(
        p.task_frame_query,
    ))) {
        Ok(SpoolKind::CloudOutput)
    } else if says(p.prompt_text) || says(p.response_text) {
        Ok(SpoolKind::Turn)
    } else {
        Err(LifecycleFault::MalformedInput(CANNOT_INFER@))
    }
}

pub fn infer_kind(p: &AdapterLifecyclePayload) -> (r: Result<SpoolKind, AdapterLifecycleError>)
    ensures
        match r {
            Ok(k) => inferred_kind(p.deep_view()) == Ok::<SpoolKind, LifecycleFault>(k),
            Err(e) => inferred_kind(p.deep_view()) == Err::<SpoolKind, LifecycleFault>(
                e.deep_view(),
            ),
        },
{
    if has_text(&p.output_text) || (has_text(&p.response_text) && (p.task_frame_id.is_some()
        || has_text(&p.task_frame_query))) {
        Ok(SpoolKind::CloudOutput)
    } else if has_text(&p.prompt_text) || has_text(&p.response_text) {
        Ok(SpoolKind::Turn)
    } else {
        malformed(CANNOT_INFER)
    }
}

pub const EVENTS_EXPECTED: &'static str =
    "`; expected turn/turn_completed or cloud_output/assistant_response";

/// The kind of an event.
pub open spec fn lifecycle_kind(event: Seq<char>, p: AdapterLifecyclePayloadView) -> Result<
    SpoolKind,
    LifecycleFault,
> {
    let t = plain_token(event);
    if t == "turn"@ || t == "capture_turn"@ || t == "adapter_capture"@ || t == "turn_completed"@
        || t == "conversation_turn"@ || t == "message_completed"@ || t == "user_assistant_turn"@ {
        Ok(SpoolKind::Turn)
    } else if t == "cloud_output"@ || t == "adapter_cloud_output"@ || t == "assistant_output"@ || t
        == "assistant_response"@ || t == "cloud_response"@ || t == "model_output"@ || t
        == "completion"@ {
        Ok(SpoolKind::CloudOutput)
    } else if t.len() == 0 || t == "auto"@ || t == "unknown"@ {
        inferred_kind(p)
    } else {
        Err(
            LifecycleFault::MalformedInput("unknown lifecycle event `"@ + t + EVENTS_EXPECTED@),
        )
    }
}

pub fn normalize_lifecycle_kind(
    lifecycle_event: &str,
    p: &AdapterLifecyclePayload,
) -> (r: Result<SpoolKind, AdapterLifecycleError>)
    ensures
        match r {
            Ok(k) => lifecycle_kind(lifecycle_event@, p.deep_view()) == Ok::<
                SpoolKind,
                LifecycleFault,
            >(k),
            Err(e) => lifecycle_kind(lifecycle_event@, p.deep_view()) == Err::<
                SpoolKind,
                LifecycleFault,
            >(e.deep_view()),
        },
{
    let token = normalize_token(lifecycle_event);
    let t = token.as_str();
    if same(t, "turn") || same(t, "capture_turn") || same(t, "adapter_capture") || same(
        t,
        "turn_completed",
    ) || same(t, "conversation_turn") || same(t, "message_completed") || same(
        t,
        "user_assistant_turn",
    ) {
        Ok(SpoolKind::Turn)
    } else if same(t, "cloud_output") || same(t, "adapter_cloud_output") || same(
        t,
        "assistant_output",
    ) || same(t, "assistant_response") || same(t, "cloud_response") || same(t, "model_output")
        || same(t, "completion") {
        Ok(SpoolKind::CloudOutput)
    } else if t.is_empty() || same(t, "auto") || same(t, "unknown") {
        infer_kind(p)
    } else {
        malformed(cat3("unknown lifecycle event `", t, EVENTS_EXPECTED).as_str())
    }
}

/// The name of an event that does not name itself.
pub open spec fn inferred_event(p: AdapterLifecyclePayloadView) -> Seq<char> {
    if says(p.output_text) {
        "assistant_response"@
    } else {
        "turn_completed"@
    }
}

pub fn infer_event_name(p: &AdapterLifecyclePayload) -> (r: &'static str)
    ensures
        r@ == inferred_event(p.deep_view()),
{
    if has_text(&p.output_text) {
        "assistant_response"
    } else {
        "turn_completed"
    }
}

// ---------------------------------------------------------------------------
// Names
// ---------------------------------------------------------------------------

/// The first text that is not blank.
fn either<'a>(a: Option<&'a str>, b: &'a Option<String>) -> (r: Option<&'a str>)
    ensures
        r.deep_view() == first(a.deep_view(), trimmed_nonblank(b.deep_view())),
{
    match a {
        Some(s) => Some(s),
        None => trim_nonblank(borrowed(b)),
    }
}

/// The client that an event comes from: the flags say it first, then the variables, then
/// the event.
pub open spec fn event_client(
    args: AdapterLifecycleArgsView,
    env: LifecycleEnvView,
    p: AdapterLifecyclePayloadView,
) -> Seq<char> {
    let a = first(trimmed_nonblank(args.client), trimmed_nonblank(args.source));
    let b = first(
        first(a, trimmed_nonblank(env.lifecycle_client)),
        trimmed_nonblank(env.client),
    );
    match first(first(b, trimmed_nonblank(p.client)), trimmed_nonblank(p.source)) {
        Some(c) => c,
        None => "adapter-lifecycle"@,
    }
}

fn find_client(
    args: &AdapterLifecycleArgs,
    env: &LifecycleEnv,
    p: &AdapterLifecyclePayload,
) -> (r: String)
    ensures
        r@ == event_client(args.deep_view(), env.deep_view(), p.deep_view()),
{
    let a = either(trim_nonblank(borrowed(&args.client)), &args.source);
    let b = either(either(a, &env.lifecycle_client), &env.client);
    match either(either(b, &p.client), &p.source) {
        Some(c) => c.to_string(),
        None => "adapter-lifecycle".to_string(),
    }
}

/// The name of an event: the flags say it first, then the event.
pub open spec fn event_name(args: AdapterLifecycleArgsView, p: AdapterLifecyclePayloadView) -> Seq<
    char,
> {
    let a = first(trimmed_nonblank(args.event), trimmed_nonblank(p.event));
    let b = first(first(a, trimmed_nonblank(p.lifecycle_event)), trimmed_nonblank(p.kind));
    match first(b, trimmed_nonblank(p.event_type)) {
        Some(e) => e,
        None => inferred_event(p),
    }
}

fn find_event(args: &AdapterLifecycleArgs, p: &AdapterLifecyclePayload) -> (r: String)
    ensures
        r@ == event_name(args.deep_view(), p.deep_view()),
{
    let a = either(trim_nonblank(borrowed(&args.event)), &p.event);
    let b = either(either(a, &p.lifecycle_event), &p.kind);
    match either(b, &p.event_type) {
        Some(e) => e.to_string(),
        None => infer_event_name(p).to_string(),
    }
}

// ---------------------------------------------------------------------------
// Payloads
// ---------------------------------------------------------------------------

/// The members of an event without its names.
pub open spec fn without_names(m: Seq<(Seq<char>, JsonView)>) -> Seq<(Seq<char>, JsonView)> {
    member_removed(
        member_removed(member_removed(member_removed(m, "event"@), "lifecycle_event"@), "kind"@),
        "type"@,
    )
}

/// The payload of an event in the form of the spool. What the event says is kept; what it
/// says under another name is put under the spool's.
pub open spec fn normalized(
    m: Seq<(Seq<char>, JsonView)>,
    p: AdapterLifecyclePayloadView,
    client: Seq<char>,
    event: Seq<char>,
    kind: SpoolKind,
    event_source: Option<Seq<char>>,
    nonce: Option<Seq<char>>,
    hook_adapter: Option<Seq<char>>,
) -> Seq<(Seq<char>, JsonView)> {
    let a = filled(without_names(m), "client"@, trimmed_nonblank(Some(client)));
    let b = filled(a, "session_id"@, trimmed_nonblank(p.thread_id));
    let c = filled(b, "lifecycle_event"@, trimmed_nonblank(Some(event)));
    let d = filled(c, "event_source"@, trimmed_nonblank(event_source));
    let e = filled(d, "binding_nonce"@, trimmed_nonblank(nonce));
    let f = filled(e, "hook_adapter"@, trimmed_nonblank(hook_adapter));
    match kind {
        SpoolKind::Turn => filled(
            filled(f, "source"@, trimmed_nonblank(Some(client))),
            "response_text"@,
            trimmed_nonblank(p.output_text),
        ),
        SpoolKind::CloudOutput => {
            let g = filled(
                filled(f, "client"@, trimmed_nonblank(Some(client))),
                "output_text"@,
                trimmed_nonblank(p.response_text),
            );
            if p.task_frame_id is None {
                filled(g, "task_frame_query"@, trimmed_nonblank(p.prompt_text))
            } else {
                g
            }
        },
    }
}

/// Puts a trimmed text into an object, unless it is blank or the object has a member of
/// that name.
fn insert_string_if_missing(m: &mut Vec<Member>, name: &str, value: Option<&str>)
    ensures
        members_view(final(m)@) == filled(
            members_view(old(m)@),
            name@,
            trimmed_nonblank(value.deep_view()),
        ),
{
    put_missing(m, name, trim_nonblank(value));
}

pub fn normalize_payload(
    raw_map: Vec<Member>,
    payload: &AdapterLifecyclePayload,
    client: &str,
    lifecycle_event: &str,
    kind: SpoolKind,
    event_source: Option<&str>,
    binding_nonce: Option<&str>,
    hook_adapter: Option<&str>,
) -> (r: Vec<Member>)
    ensures
        members_view(r@) == normalized(
            members_view(raw_map@),
            payload.deep_view(),
            client@,
            lifecycle_event@,
            kind,
            event_source.deep_view(),
            binding_nonce.deep_view(),
            hook_adapter.deep_view(),
        ),
{
    let m = remove_member(raw_map, "event");
    let m = remove_member(m, "lifecycle_event");
    let m = remove_member(m, "kind");
    let mut m = remove_member(m, "type");
    insert_string_if_missing(&mut m, "client", Some(client));
    insert_string_if_missing(&mut m, "session_id", borrowed(&payload.thread_id));
    insert_string_if_missing(&mut m, "lifecycle_event", Some(lifecycle_event));
    insert_string_if_missing(&mut m, "event_source", event_source);
    insert_string_if_missing(&mut m, "binding_nonce", binding_nonce);
    insert_string_if_missing(&mut m, "hook_adapter", hook_adapter);
    match kind {
        SpoolKind::Turn => {
            insert_string_if_missing(&mut m, "source", Some(client));
            insert_string_if_missing(&mut m, "response_text", borrowed(&payload.output_text));
        },
        SpoolKind::CloudOutput => {
            insert_string_if_missing(&mut m, "client", Some(client));
            insert_string_if_missing(&mut m, "output_text", borrowed(&payload.response_text));
            if payload.task_frame_id.is_none() {
                insert_string_if_missing(
                    &mut m,
                    "task_frame_query",
                    borrowed(&payload.prompt_text),
                );
            }
        },
    }
    m
}

// ---------------------------------------------------------------------------
// The command
// ---------------------------------------------------------------------------

/// The formats that can be asked for.
pub open spec fn format_valid(format: Seq<char>) -> Result<(), LifecycleFault> {
    let f = lowered(trimmed(format));
    if f == "event"@ || f == "report"@ {
        Ok(())
    } else {
        Err(
            LifecycleFault::MalformedInput(
                "unknown format `"@ + f + "`; expected event or report"@,
            ),
        )
    }
}

pub fn validate_output_format(format: &str) -> (r: Result<(), AdapterLifecycleError>)
    ensures
        verdict(r) == format_valid(format@),
{
    let f = lower(trim(format));
    if same(f.as_str(), "event") || same(f.as_str(), "report") {
        Ok(())
    } else {
        malformed(cat3("unknown format `", f.as_str(), "`; expected event or report").as_str())
    }
}

/// The flags with which an event is appended.
pub open spec fn spool_args(
    args: AdapterLifecycleArgsView,
    env: LifecycleEnvView,
    client: Seq<char>,
    kind: SpoolKind,
) -> AppendArgsView {
    AppendArgsView {
        jsonl: match args.jsonl {
            Some(j) => j,
            None => ""@,
        },
        kind: kind_name(kind),
        json: "-"@,
        source: first(args.source, Some(client)),
        cwd: first(args.cwd, trimmed_nonblank(env.lifecycle_cwd)),
        project: first(
            first(args.project, trimmed_nonblank(env.lifecycle_project)),
            trimmed_nonblank(env.project),
        ),
        session_id: first(
            first(args.session_id, trimmed_nonblank(env.lifecycle_session)),
            trimmed_nonblank(env.session_id),
        ),
        git_branch: args.git_branch,
        client: first(
            first(
                first(args.client, trimmed_nonblank(env.lifecycle_client)),
                trimmed_nonblank(env.client),
            ),
            Some(client),
        ),
        binding_nonce: args.binding_nonce,
        fsync: args.fsync,
    }
}

fn make_spool_args(
    args: &AdapterLifecycleArgs,
    env: &LifecycleEnv,
    client: &str,
    kind: SpoolKind,
) -> (r: AdapterSpoolAppendArgs)
    ensures
        r.deep_view() == spool_args(args.deep_view(), env.deep_view(), client@, kind),
{
    let jsonl = match &args.jsonl {
        Some(j) => j.clone(),
        None => "".to_string(),
    };
    let source = match &args.source {
        Some(s) => Some(s.clone()),
        None => Some(client.to_string()),
    };
    let named = either(either(borrowed(&args.client), &env.lifecycle_client), &env.client);
    let client = match named {
        Some(c) => Some(c.to_string()),
        None => Some(client.to_string()),
    };
    AdapterSpoolAppendArgs {
        jsonl,
        kind: kind.as_str().to_string(),
        json: "-".to_string(),
        source,
        cwd: owned(either(borrowed(&args.cwd), &env.lifecycle_cwd)),
        project: owned(
            either(either(borrowed(&args.project), &env.lifecycle_project), &env.project),
        ),
        session_id: owned(
            either(either(borrowed(&args.session_id), &env.lifecycle_session), &env.session_id),
        ),
        git_branch: copy_text(&args.git_branch),
        client,
        binding_nonce: copy_text(&args.binding_nonce),
        fsync: args.fsync,
    }
}

/// The variables that the spool reads.
pub open spec fn spool_env(env: LifecycleEnvView) -> SpoolEnvView {
    SpoolEnvView { project: env.project, session_id: env.session_id, client: env.client }
}

fn make_spool_env(env: &LifecycleEnv) -> (r: SpoolEnv)
    ensures
        r.deep_view() == spool_env(env.deep_view()),
{
    SpoolEnv {
        project: copy_text(&env.project),
        session_id: copy_text(&env.session_id),
        client: copy_text(&env.client),
    }
}

/// An event in the form of the spool, and what is to be appended where a spool is named.
#[derive(Debug)]
pub struct LifecyclePlan {
    pub outcome: AdapterLifecycleOutcome,
    pub append: Option<SpoolAppend>,
}

/// The payload of an event in the form of the spool, as text.
pub open spec fn payload_text(
    m: Seq<(Seq<char>, JsonView)>,
    p: AdapterLifecyclePayloadView,
    args: AdapterLifecycleArgsView,
    env: LifecycleEnvView,
    kind: SpoolKind,
) -> Seq<char> {
    json_line(
        JsonView::Object(
            normalized(
                m,
                p,
                event_client(args, env, p),
                event_name(args, p),
                kind,
                args.event_source,
                args.binding_nonce,
                first(args.hook_adapter, trimmed_nonblank(env.lifecycle_hook_adapter)),
            ),
        ),
    )
}

/// What an event gives: its client, its name, its kind and its payload in the form of the
/// spool, or why it gives nothing.
pub open spec fn read_event(
    args: AdapterLifecycleArgsView,
    env: LifecycleEnvView,
    payload: Result<AdapterLifecyclePayloadView, Seq<char>>,
    parsed: Result<JsonView, Seq<char>>,
) -> Result<(SpoolKind, Seq<char>), LifecycleFault> {
    match format_valid(args.format) {
        Err(f) => Err(f),
        Ok(_) => match payload {
            Err(e) => Err(LifecycleFault::MalformedInput("JSON parse: "@ + e)),
            Ok(p) => match parsed {
                Err(e) => Err(LifecycleFault::MalformedInput("JSON parse: "@ + e)),
                Ok(JsonView::Object(m)) => match lifecycle_kind(event_name(args, p), p) {
                    Err(f) => Err(f),
                    Ok(kind) => Ok((kind, payload_text(m, p, args, env, kind))),
                },
                Ok(_) => Err(
                    LifecycleFault::MalformedInput("lifecycle payload must be a JSON object"@),
                ),
            },
        },
    }
}

/// What was read of an event, or why it was not JSON.
pub open spec fn lifecycle_payload_view(p: Result<AdapterLifecyclePayload, String>) -> Result<
    AdapterLifecyclePayloadView,
    Seq<char>,
> {
    match p {
        Ok(p) => Ok(p.deep_view()),
        Err(e) => Err(e@),
    }
}

/// The plan is what an event of this kind and payload gives. The event that is appended is
/// the one that is told.
pub open spec fn plans(
    plan: LifecyclePlan,
    args: AdapterLifecycleArgsView,
    env: LifecycleEnvView,
    p: AdapterLifecyclePayloadView,
    kind: SpoolKind,
    text: Seq<char>,
    now: i64,
) -> bool {
    let client = event_client(args, env, p);
    let to = spool_args(args, env, client, kind);
    &&& plan.outcome.deep_view() == (AdapterLifecycleOutcomeView {
        source: ADAPTER_LIFECYCLE_SOURCE@,
        contract: ADAPTER_LIFECYCLE_CONTRACT@,
        client,
        lifecycle_event: event_name(args, p),
        normalized_kind: kind_name(kind),
        emitted_event: spool_event(json_of(text), to, spool_env(env), now)->Ok_0,
        append: None,
    })
    &&& plan.append is Some <==> trimmed_nonblank(args.jsonl) is Some
    &&& plan.append matches Some(a) ==> {
        &&& appends(a, plan.outcome.emitted_event@, to)
        &&& a.line@ == json_line(plan.outcome.emitted_event@).push('\n')
    }
}

/// One event, from its text and what was read of it. `now_ns` is its time.
pub fn run_json_str(
    raw: &str,
    payload: Result<AdapterLifecyclePayload, String>,
    args: &AdapterLifecycleArgs,
    env: &LifecycleEnv,
    now_ns: i64,
) -> (r: Result<LifecyclePlan, AdapterLifecycleError>)
    ensures
        match read_event(
            args.deep_view(),
            env.deep_view(),
            lifecycle_payload_view(payload),
            json_of(raw@),
        ) {
            Err(f) => r matches Err(e) && e.deep_view() == f,
            Ok((kind, text)) => {
                let p = lifecycle_payload_view(payload)->Ok_0;
                let to = spool_args(
                    args.deep_view(),
                    env.deep_view(),
                    event_client(args.deep_view(), env.deep_view(), p),
                    kind,
                );
                match spool_event(json_of(text), to, spool_env(env.deep_view()), now_ns) {
                    Err(f) => r matches Err(e) && e.deep_view() == LifecycleFault::Spool(f),
                    Ok(_) => r matches Ok(plan) && plans(
                        plan,
                        args.deep_view(),
                        env.deep_view(),
                        p,
                        kind,
                        text,
                        now_ns,
                    ),
                }
            },
        },
{
    match validate_output_format(args.format.as_str()) {
        Err(e) => return Err(e),
        Ok(_) => {},
    }
    let payload = match payload {
        Err(e) => return malformed(cat2("JSON parse: ", e.as_str()).as_str()),
        Ok(p) => p,
    };
    let value = match parse_json(raw) {
        Err(e) => return malformed(cat2("JSON parse: ", e.as_str()).as_str()),
        Ok(j) => j,
    };
    let raw_map = match members_of(value) {
        None => return malformed("lifecycle payload must be a JSON object"),
        Some(m) => m,
    };
    let client = find_client(args, env, &payload);
    let event = find_event(args, &payload);
    let kind = match normalize_lifecycle_kind(event.as_str(), &payload) {
        Err(e) => return Err(e),
        Ok(k) => k,
    };
    let normalized_payload = normalize_payload(
        raw_map,
        &payload,
        client.as_str(),
        event.as_str(),
        kind,
        borrowed(&args.event_source),
        borrowed(&args.binding_nonce),
        either(borrowed(&args.hook_adapter), &env.lifecycle_hook_adapter),
    );
    let text = print_json(&object_of(normalized_payload));
    let to = make_spool_args(args, env, client.as_str(), kind);
    let spool = make_spool_env(env);
    let emitted = match build_spool_event_value(text.as_str(), &to, &spool, now_ns) {
        Err(e) => return Err(AdapterLifecycleError::Spool(e)),
        Ok(e) => e,
    };
    let append = if trim_nonblank(borrowed(&args.jsonl)).is_some() {
        proof {
            lemma_event_members(
                known_kind(to.deep_view().kind)->Ok_0,
                emitted@->Object_0[2].1->Object_0,
                now_ns,
            );
        }
        Some(event_line(&emitted, &to))
    } else {
        None
    };
    Ok(
        LifecyclePlan {
            outcome: AdapterLifecycleOutcome {
                source: ADAPTER_LIFECYCLE_SOURCE,
                contract: ADAPTER_LIFECYCLE_CONTRACT,
                client,
                lifecycle_event: event,
                normalized_kind: kind.as_str().to_string(),
                emitted_event: emitted,
                append: None,
            },
            append,
        },
    )
}

/// One `soma adapter-lifecycle` call. `read` is the text that the flags name, with what
/// was read of it, or why it could not be read.
pub fn run_blocking(
    args: &AdapterLifecycleArgs,
    read: Result<(String, Result<AdapterLifecyclePayload, String>), String>,
    env: &LifecycleEnv,
    now_ns: i64,
) -> (r: Result<LifecyclePlan, AdapterLifecycleError>)
    ensures
        match read {
            Err(e) => r matches Err(x) && x.deep_view() == LifecycleFault::Io(
                unread_text(args.json@, e@),
            ),
            Ok((raw, payload)) => match read_event(
                args.deep_view(),
                env.deep_view(),
                lifecycle_payload_view(payload),
                json_of(raw@),
            ) {
                Err(f) => r matches Err(e) && e.deep_view() == f,
                Ok((kind, text)) => {
                    let p = lifecycle_payload_view(payload)->Ok_0;
                    let to = spool_args(
                        args.deep_view(),
                        env.deep_view(),
                        event_client(args.deep_view(), env.deep_view(), p),
                        kind,
                    );
                    match spool_event(json_of(text), to, spool_env(env.deep_view()), now_ns) {
                        Err(f) => r matches Err(e) && e.deep_view() == LifecycleFault::Spool(f),
                        Ok(_) => r matches Ok(plan) && plans(
                            plan,
                            args.deep_view(),
                            env.deep_view(),
                            p,
                            kind,
                            text,
                            now_ns,
                        ),
                    }
                },
            },
        },
{
    match read {
        Err(e) => Err(
            AdapterLifecycleError::Io(unread_message(args.json.as_str(), e.as_str())),
        ),
        Ok((raw, payload)) => run_json_str(raw.as_str(), payload, args, env, now_ns),
    }
}

// ---------------------------------------------------------------------------
// Laws
// ---------------------------------------------------------------------------

/// What an event says under a name of the spool is kept as it is: bringing it into the
/// spool's form only adds what is missing.
pub proof fn law_normalizing_keeps_what_is_said(
    m: Seq<(Seq<char>, JsonView)>,
    p: AdapterLifecyclePayloadView,
    client: Seq<char>,
    event: Seq<char>,
    kind: SpoolKind,
    event_source: Option<Seq<char>>,
    nonce: Option<Seq<char>>,
    hook_adapter: Option<Seq<char>>,
    name: Seq<char>,
)
    requires
        find(without_names(m), name) is Some,
    ensures
        find(
            normalized(m, p, client, event, kind, event_source, nonce, hook_adapter),
            name,
        ) == find(without_names(m), name),
{
    let z = without_names(m);
    let va = trimmed_nonblank(Some(client));
    let a = filled(z, "client"@, va);
    law_filling_in_keeps_members(z, "client"@, va, name);
    let vb = trimmed_nonblank(p.thread_id);
    let b = filled(a, "session_id"@, vb);
    law_filling_in_keeps_members(a, "session_id"@, vb, name);
    let vc = trimmed_nonblank(Some(event));
    let c = filled(b, "lifecycle_event"@, vc);
    law_filling_in_keeps_members(b, "lifecycle_event"@, vc, name);
    let vd = trimmed_nonblank(event_source);
    let d = filled(c, "event_source"@, vd);
    law_filling_in_keeps_members(c, "event_source"@, vd, name);
    let ve = trimmed_nonblank(nonce);
    let e = filled(d, "binding_nonce"@, ve);
    law_filling_in_keeps_members(d, "binding_nonce"@, ve, name);
    let vf = trimmed_nonblank(hook_adapter);
    let f = filled(e, "hook_adapter"@, vf);
    law_filling_in_keeps_members(e, "hook_adapter"@, vf, name);
    match kind {
        SpoolKind::Turn => {
            let g = filled(f, "source"@, va);
            law_filling_in_keeps_members(f, "source"@, va, name);
            law_filling_in_keeps_members(
                g,
                "response_text"@,
                trimmed_nonblank(p.output_text),
                name,
            );
        },
        SpoolKind::CloudOutput => {
            let g = filled(f, "client"@, va);
            law_filling_in_keeps_members(f, "client"@, va, name);
            let vh = trimmed_nonblank(p.response_text);
            let h = filled(g, "output_text"@, vh);
            law_filling_in_keeps_members(g, "output_text"@, vh, name);
            law_filling_in_keeps_members(
                h,
                "task_frame_query"@,
                trimmed_nonblank(p.prompt_text),
                name,
            );
        },
    }
}

proof fn lemma_without_names(m: Seq<(Seq<char>, JsonView)>, name: Seq<char>)
    ensures
        name == "event"@ || name == "lifecycle_event"@ || name == "kind"@ || name == "type"@
            ==> find(without_names(m), name) is None,
        name != "event"@ && name != "lifecycle_event"@ && name != "kind"@ && name != "type"@
            ==> find(without_names(m), name) == find(m, name),
{
    let a = member_removed(m, "event"@);
    let b = member_removed(a, "lifecycle_event"@);
    let c = member_removed(b, "kind"@);
    law_removing_touches_one_name(m, "event"@, name);
    law_removing_touches_one_name(a, "lifecycle_event"@, name);
    law_removing_touches_one_name(b, "kind"@, name);
    law_removing_touches_one_name(c, "type"@, name);
}

/// What is filled in under a name, where the event says nothing under it.
spec fn supplied(
    p: AdapterLifecyclePayloadView,
    client: Seq<char>,
    event: Seq<char>,
    kind: SpoolKind,
    event_source: Option<Seq<char>>,
    nonce: Option<Seq<char>>,
    hook_adapter: Option<Seq<char>>,
    name: Seq<char>,
) -> Option<Seq<char>> {
    if name == "client"@ {
        trimmed_nonblank(Some(client))
    } else if name == "session_id"@ {
        trimmed_nonblank(p.thread_id)
    } else if name == "lifecycle_event"@ {
        trimmed_nonblank(Some(event))
    } else if name == "event_source"@ {
        trimmed_nonblank(event_source)
    } else if name == "binding_nonce"@ {
        trimmed_nonblank(nonce)
    } else if name == "hook_adapter"@ {
        trimmed_nonblank(hook_adapter)
    } else if kind == SpoolKind::Turn && name == "source"@ {
        trimmed_nonblank(Some(client))
    } else if kind == SpoolKind::Turn && name == "response_text"@ {
        trimmed_nonblank(p.output_text)
    } else if kind == SpoolKind::CloudOutput && name == "output_text"@ {
        trimmed_nonblank(p.response_text)
    } else if kind == SpoolKind::CloudOutput && name == "task_frame_query"@ && p.task_frame_id
        is None {
        trimmed_nonblank(p.prompt_text)
    } else {
        None
    }
}

proof fn lemma_normalized(
    m: Seq<(Seq<char>, JsonView)>,
    p: AdapterLifecyclePayloadView,
    client: Seq<char>,
    event: Seq<char>,
    kind: SpoolKind,
    event_source: Option<Seq<char>>,
    nonce: Option<Seq<char>>,
    hook_adapter: Option<Seq<char>>,
    name: Seq<char>,
)
    ensures
        find(
            normalized(m, p, client, event, kind, event_source, nonce, hook_adapter),
            name,
        ) == (if find(without_names(m), name) is Some {
            find(without_names(m), name)
        } else {
            some_text(supplied(p, client, event, kind, event_source, nonce, hook_adapter, name))
        }),
{
    let z = without_names(m);
    let va = trimmed_nonblank(Some(client));
    let a = filled(z, "client"@, va);
    law_filling_in_touches_one_member(z, "client"@, va, name);
    let vb = trimmed_nonblank(p.thread_id);
    let b = filled(a, "session_id"@, vb);
    law_filling_in_touches_one_member(a, "session_id"@, vb, name);
    let vc = trimmed_nonblank(Some(event));
    let c = filled(b, "lifecycle_event"@, vc);
    law_filling_in_touches_one_member(b, "lifecycle_event"@, vc, name);
    let vd = trimmed_nonblank(event_source);
    let d = filled(c, "event_source"@, vd);
    law_filling_in_touches_one_member(c, "event_source"@, vd, name);
    let ve = trimmed_nonblank(nonce);
    let e = filled(d, "binding_nonce"@, ve);
    law_filling_in_touches_one_member(d, "binding_nonce"@, ve, name);
    let vf = trimmed_nonblank(hook_adapter);
    let f = filled(e, "hook_adapter"@, vf);
    law_filling_in_touches_one_member(e, "hook_adapter"@, vf, name);
    lemma_names_differ();
    match kind {
        SpoolKind::Turn => {
            let g = filled(f, "source"@, va);
            law_filling_in_touches_one_member(f, "source"@, va, name);
            law_filling_in_touches_one_member(
                g,
                "response_text"@,
                trimmed_nonblank(p.output_text),
                name,
            );
        },
        SpoolKind::CloudOutput => {
            let g = filled(f, "client"@, va);
            law_filling_in_touches_one_member(f, "client"@, va, name);
            let vh = trimmed_nonblank(p.response_text);
            let h = filled(g, "output_text"@, vh);
            law_filling_in_touches_one_member(g, "output_text"@, vh, name);
            law_filling_in_touches_one_member(
                h,
                "task_frame_query"@,
                trimmed_nonblank(p.prompt_text),
                name,
            );
        },
    }
}

proof fn lemma_names_differ()
    ensures
        "client"@.len() == 6 && "client"@[0] == 'c',
        "source"@.len() == 6 && "source"@[0] == 's',
        "session_id"@.len() == 10,
        "lifecycle_event"@.len() == 15,
        "event_source"@.len() == 12 && "event_source"@[0] == 'e',
        "hook_adapter"@.len() == 12 && "hook_adapter"@[0] == 'h',
        "binding_nonce"@.len() == 13 && "binding_nonce"@[0] == 'b',
        "response_text"@.len() == 13 && "response_text"@[0] == 'r',
        "output_text"@.len() == 11 && "output_text"@[0] == 'o',
        "prompt_text"@.len() == 11 && "prompt_text"@[0] == 'p',
        "task_frame_query"@.len() == 16,
        "event"@.len() == 5,
        "kind"@.len() == 4 && "kind"@[0] == 'k',
        "type"@.len() == 4 && "type"@[0] == 't',
{
    reveal_strlit("client");
    reveal_strlit("source");
    reveal_strlit("session_id");
    reveal_strlit("lifecycle_event");
    reveal_strlit("event_source");
    reveal_strlit("hook_adapter");
    reveal_strlit("binding_nonce");
    reveal_strlit("response_text");
    reveal_strlit("output_text");
    reveal_strlit("prompt_text");
    reveal_strlit("task_frame_query");
    reveal_strlit("event");
    reveal_strlit("kind");
    reveal_strlit("type");
}

/// The answer of a client is put under the name that its kind has in the spool. Of a cloud
/// output that has no `output_text` of its own, it is what stands in `response_text`; where
/// neither a task frame nor a query is named, the query is what stands in `prompt_text`. Of
/// a turn that has no `response_text` of its own, it is what stands in `output_text`, and
/// its source is the client. All of them are trimmed, and a blank text gives nothing.
pub proof fn law_answers_are_put_under_the_names_of_the_spool(
    m: Seq<(Seq<char>, JsonView)>,
    p: AdapterLifecyclePayload,
    client: Seq<char>,
    event: Seq<char>,
    event_source: Option<Seq<char>>,
    nonce: Option<Seq<char>>,
    hook_adapter: Option<Seq<char>>,
)
    ensures
        ({
            let v = p.deep_view();
            let cloud = normalized(
                m,
                v,
                client,
                event,
                SpoolKind::CloudOutput,
                event_source,
                nonce,
                hook_adapter,
            );
            let turn = normalized(
                m,
                v,
                client,
                event,
                SpoolKind::Turn,
                event_source,
                nonce,
                hook_adapter,
            );
            &&& find(m, "output_text"@) is None ==> find(cloud, "output_text"@) == (
            match p.response_text {
                Some(s) => if trimmed(s@).len() > 0 {
                    Some(JsonView::Text(trimmed(s@)))
                } else {
                    None
                },
                None => None,
            })
            &&& find(m, "output_text"@) is Some ==> find(cloud, "output_text"@) == find(
                m,
                "output_text"@,
            )
            &&& find(m, "task_frame_query"@) is None && p.task_frame_id is None ==> find(
                cloud,
                "task_frame_query"@,
            ) == (match p.prompt_text {
                Some(s) => if trimmed(s@).len() > 0 {
                    Some(JsonView::Text(trimmed(s@)))
                } else {
                    None
                },
                None => None,
            })
            &&& find(m, "task_frame_query"@) is Some || p.task_frame_id is Some ==> find(
                cloud,
                "task_frame_query"@,
            ) == find(m, "task_frame_query"@)
            &&& find(m, "response_text"@) is None ==> find(turn, "response_text"@) == (
            match p.output_text {
                Some(s) => if trimmed(s@).len() > 0 {
                    Some(JsonView::Text(trimmed(s@)))
                } else {
                    None
                },
                None => None,
            })
            &&& find(m, "response_text"@) is Some ==> find(turn, "response_text"@) == find(
                m,
                "response_text"@,
            )
            &&& find(m, "source"@) is None && trimmed(client).len() > 0 ==> find(turn, "source"@)
                == Some(JsonView::Text(trimmed(client)))
            &&& find(cloud, "source"@) == find(m, "source"@)
            &&& find(cloud, "response_text"@) == find(m, "response_text"@)
            &&& find(cloud, "prompt_text"@) == find(m, "prompt_text"@)
            &&& find(turn, "output_text"@) == find(m, "output_text"@)
            &&& find(turn, "prompt_text"@) == find(m, "prompt_text"@)
            &&& find(turn, "task_frame_query"@) == find(m, "task_frame_query"@)
        }),
{
    lemma_names_differ();
    lemma_without_names(m, "output_text"@);
    lemma_without_names(m, "prompt_text"@);
    lemma_without_names(m, "task_frame_query"@);
    lemma_without_names(m, "response_text"@);
    lemma_without_names(m, "source"@);
    let v = p.deep_view();
    let turn = SpoolKind::Turn;
    let cloud = SpoolKind::CloudOutput;
    let s = event_source;
    lemma_normalized(m, v, client, event, cloud, s, nonce, hook_adapter, "output_text"@);
    lemma_normalized(m, v, client, event, cloud, s, nonce, hook_adapter, "task_frame_query"@);
    lemma_normalized(m, v, client, event, cloud, s, nonce, hook_adapter, "response_text"@);
    lemma_normalized(m, v, client, event, cloud, s, nonce, hook_adapter, "source"@);
    lemma_normalized(m, v, client, event, cloud, s, nonce, hook_adapter, "prompt_text"@);
    lemma_normalized(m, v, client, event, turn, s, nonce, hook_adapter, "output_text"@);
    lemma_normalized(m, v, client, event, turn, s, nonce, hook_adapter, "task_frame_query"@);
    lemma_normalized(m, v, client, event, turn, s, nonce, hook_adapter, "response_text"@);
    lemma_normalized(m, v, client, event, turn, s, nonce, hook_adapter, "source"@);
    lemma_normalized(m, v, client, event, turn, s, nonce, hook_adapter, "prompt_text"@);
}

/// An event in the form of the spool names its client, its session, its event, its source,
/// its nonce and its adapter, each under one name, where it did not name them itself. Of
/// the names that an event may call itself by only `lifecycle_event` is left, and it holds
/// the name that was found. Every other member stays as it was.
pub proof fn law_events_carry_their_origin(
    m: Seq<(Seq<char>, JsonView)>,
    p: AdapterLifecyclePayload,
    client: Seq<char>,
    event: Seq<char>,
    kind: SpoolKind,
    event_source: Option<Seq<char>>,
    nonce: Option<Seq<char>>,
    hook_adapter: Option<Seq<char>>,
    other: Seq<char>,
)
    requires
        trimmed(client).len() > 0,
        trimmed(event).len() > 0,
        other != "client"@ && other != "session_id"@ && other != "lifecycle_event"@ && other
            != "event_source"@ && other != "binding_nonce"@ && other != "hook_adapter"@ && other
            != "source"@ && other != "response_text"@ && other != "output_text"@ && other
            != "task_frame_query"@ && other != "event"@ && other != "kind"@ && other != "type"@,
    ensures
        ({
            let r = normalized(
                m,
                p.deep_view(),
                client,
                event,
                kind,
                event_source,
                nonce,
                hook_adapter,
            );
            &&& find(m, "client"@) is None ==> find(r, "client"@) == Some(
                JsonView::Text(trimmed(client)),
            )
            &&& find(m, "session_id"@) is None && p.thread_id is Some && trimmed(
                p.thread_id->0@,
            ).len() > 0 ==> find(r, "session_id"@) == Some(
                JsonView::Text(trimmed(p.thread_id->0@)),
            )
            &&& find(m, "event_source"@) is None && event_source is Some && trimmed(
                event_source->0,
            ).len() > 0 ==> find(r, "event_source"@) == Some(
                JsonView::Text(trimmed(event_source->0)),
            )
            &&& find(m, "binding_nonce"@) is None && nonce is Some && trimmed(nonce->0).len() > 0
                ==> find(r, "binding_nonce"@) == Some(JsonView::Text(trimmed(nonce->0)))
            &&& find(m, "hook_adapter"@) is None && hook_adapter is Some && trimmed(
                hook_adapter->0,
            ).len() > 0 ==> find(r, "hook_adapter"@) == Some(
                JsonView::Text(trimmed(hook_adapter->0)),
            )
            &&& find(r, "lifecycle_event"@) == Some(JsonView::Text(trimmed(event)))
            &&& find(r, "event"@) is None
            &&& find(r, "kind"@) is None
            &&& find(r, "type"@) is None
            &&& find(r, other) == find(m, other)
        }),
{
    lemma_names_differ();
    let v = p.deep_view();
    let s = event_source;
    lemma_without_names(m, "client"@);
    lemma_without_names(m, "session_id"@);
    lemma_without_names(m, "lifecycle_event"@);
    lemma_without_names(m, "event_source"@);
    lemma_without_names(m, "binding_nonce"@);
    lemma_without_names(m, "hook_adapter"@);
    lemma_without_names(m, "event"@);
    lemma_without_names(m, "kind"@);
    lemma_without_names(m, "type"@);
    lemma_without_names(m, other);
    lemma_normalized(m, v, client, event, kind, s, nonce, hook_adapter, "client"@);
    lemma_normalized(m, v, client, event, kind, s, nonce, hook_adapter, "session_id"@);
    lemma_normalized(m, v, client, event, kind, s, nonce, hook_adapter, "lifecycle_event"@);
    lemma_normalized(m, v, client, event, kind, s, nonce, hook_adapter, "event_source"@);
    lemma_normalized(m, v, client, event, kind, s, nonce, hook_adapter, "binding_nonce"@);
    lemma_normalized(m, v, client, event, kind, s, nonce, hook_adapter, "hook_adapter"@);
    lemma_normalized(m, v, client, event, kind, s, nonce, hook_adapter, "event"@);
    lemma_normalized(m, v, client, event, kind, s, nonce, hook_adapter, "kind"@);
    lemma_normalized(m, v, client, event, kind, s, nonce, hook_adapter, "type"@);
    lemma_normalized(m, v, client, event, kind, s, nonce, hook_adapter, other);
}

/// The words for a finished turn and for a cloud output are told apart: each names its kind
/// whatever the event holds. A missing, `auto` or `unknown` word leaves the kind to what the
/// event holds, and every other word is refused.
pub proof fn law_event_words_name_kinds(event: Seq<char>, p: AdapterLifecyclePayloadView)
    ensures
        ({
            let t = plain_token(event);
            let k = lifecycle_kind(event, p);
            let turn = t == "turn"@ || t == "capture_turn"@ || t == "adapter_capture"@ || t
                == "turn_completed"@ || t == "conversation_turn"@ || t == "message_completed"@ || t
                == "user_assistant_turn"@;
            let cloud = t == "cloud_output"@ || t == "adapter_cloud_output"@ || t
                == "assistant_output"@ || t == "assistant_response"@ || t == "cloud_response"@ || t
                == "model_output"@ || t == "completion"@;
            let free = t.len() == 0 || t == "auto"@ || t == "unknown"@;
            &&& turn ==> k == Ok::<SpoolKind, LifecycleFault>(SpoolKind::Turn)
            &&& cloud ==> k == Ok::<SpoolKind, LifecycleFault>(SpoolKind::CloudOutput)
            &&& free ==> k == inferred_kind(p)
            &&& k is Ok ==> turn || cloud || free
        }),
{
    reveal_strlit("turn");
    reveal_strlit("capture_turn");
    reveal_strlit("adapter_capture");
    reveal_strlit("turn_completed");
    reveal_strlit("conversation_turn");
    reveal_strlit("message_completed");
    reveal_strlit("user_assistant_turn");
    reveal_strlit("cloud_output");
    reveal_strlit("adapter_cloud_output");
    reveal_strlit("assistant_output");
    reveal_strlit("assistant_response");
    reveal_strlit("cloud_response");
    reveal_strlit("model_output");
    reveal_strlit("completion");
    reveal_strlit("auto");
    reveal_strlit("unknown");
    assert("turn"@.len() == 4 && "turn"@[0] == 't');
    assert("auto"@.len() == 4 && "auto"@[0] == 'a');
    assert("unknown"@.len() == 7);
    assert("capture_turn"@.len() == 12 && "capture_turn"@[0] == 'c' && "capture_turn"@[1] == 'a');
    assert("cloud_output"@.len() == 12 && "cloud_output"@[1] == 'l');
    assert("model_output"@.len() == 12 && "model_output"@[0] == 'm');
    assert("adapter_capture"@.len() == 15);
    assert("turn_completed"@.len() == 14 && "turn_completed"@[0] == 't');
    assert("cloud_response"@.len() == 14 && "cloud_response"@[0] == 'c');
    assert("conversation_turn"@.len() == 17);
    assert("message_completed"@.len() == 17);
    assert("user_assistant_turn"@.len() == 19);
    assert("adapter_cloud_output"@.len() == 20);
    assert("assistant_output"@.len() == 16);
    assert("assistant_response"@.len() == 18);
    assert("completion"@.len() == 10);
}

/// An event that names no kind is a cloud output iff it holds an output, or a response for
/// a task frame or a query; else it is a turn iff it holds a prompt or a response; an event
/// that holds none of these has no kind.
pub proof fn law_kind_follows_what_an_event_holds(p: AdapterLifecyclePayload)
    ensures
        ({
            let output = p.output_text is Some && trimmed(p.output_text->0@).len() > 0;
            let response = p.response_text is Some && trimmed(p.response_text->0@).len() > 0;
            let prompt = p.prompt_text is Some && trimmed(p.prompt_text->0@).len() > 0;
            let query = p.task_frame_query is Some && trimmed(p.task_frame_query->0@).len() > 0;
            let cloud = output || (response && (p.task_frame_id is Some || query));
            let k = inferred_kind(p.deep_view());
            &&& k == Ok::<SpoolKind, LifecycleFault>(SpoolKind::CloudOutput) <==> cloud
            &&& k == Ok::<SpoolKind, LifecycleFault>(SpoolKind::Turn) <==> !cloud && (prompt
                || response)
            &&& k is Err <==> !output && !prompt && !response
            &&& inferred_event(p.deep_view()) == (if output {
                "assistant_response"@
            } else {
                "turn_completed"@
            })
        }),
{
}

/// The client is the first that is named, trimmed: by the flag for the client, by that for
/// the source, by the variable for lifecycle events, by that for all adapters, by the event
/// as its client, by the event as its source. Where none is named it is called after the
/// command.
pub proof fn law_flags_name_the_client_first(
    args: AdapterLifecycleArgs,
    env: LifecycleEnv,
    p: AdapterLifecyclePayload,
)
    ensures
        ({
            let c = event_client(args.deep_view(), env.deep_view(), p.deep_view());
            let by_flag = trimmed_nonblank(args.client.deep_view());
            let by_source = trimmed_nonblank(args.source.deep_view());
            let by_own = trimmed_nonblank(env.lifecycle_client.deep_view());
            let by_all = trimmed_nonblank(env.client.deep_view());
            let by_event = trimmed_nonblank(p.client.deep_view());
            let by_event_source = trimmed_nonblank(p.source.deep_view());
            &&& by_flag is Some ==> c == by_flag->0
            &&& by_flag is None && by_source is Some ==> c == by_source->0
            &&& by_flag is None && by_source is None && by_own is Some ==> c == by_own->0
            &&& by_flag is None && by_source is None && by_own is None && by_all is Some ==> c
                == by_all->0
            &&& by_flag is None && by_source is None && by_own is None && by_all is None && by_event
                is Some ==> c == by_event->0
            &&& by_flag is None && by_source is None && by_own is None && by_all is None && by_event
                is None && by_event_source is Some ==> c == by_event_source->0
            &&& by_flag is None && by_source is None && by_own is None && by_all is None && by_event
                is None && by_event_source is None ==> c == "adapter-lifecycle"@
        }),
{
}

/// The name of an event is the first that is given, trimmed: by the flag, or by the event
/// as its `event`, its `lifecycle_event`, its `kind` or its `type`.
pub proof fn law_flags_name_the_event_first(args: AdapterLifecycleArgs, p: AdapterLifecyclePayload)
    ensures
        ({
            let e = event_name(args.deep_view(), p.deep_view());
            let by_flag = trimmed_nonblank(args.event.deep_view());
            let by_event = trimmed_nonblank(p.event.deep_view());
            let by_own = trimmed_nonblank(p.lifecycle_event.deep_view());
            let by_kind = trimmed_nonblank(p.kind.deep_view());
            let by_type = trimmed_nonblank(p.event_type.deep_view());
            &&& by_flag is Some ==> e == by_flag->0
            &&& by_flag is None && by_event is Some ==> e == by_event->0
            &&& by_flag is None && by_event is None && by_own is Some ==> e == by_own->0
            &&& by_flag is None && by_event is None && by_own is None && by_kind is Some ==> e
                == by_kind->0
            &&& by_flag is None && by_event is None && by_own is None && by_kind is None && by_type
                is Some ==> e == by_type->0
        }),
{
}

/// An event is appended with the flags where they are set, else with the variables of
/// lifecycle events, else with those of all adapters; its source and its client are, at the
/// last, the client that was found. It carries its branch and its nonce by flag only.
pub proof fn law_flags_come_before_variables(
    args: AdapterLifecycleArgs,
    env: LifecycleEnv,
    client: Seq<char>,
    kind: SpoolKind,
)
    ensures
        ({
            let to = spool_args(args.deep_view(), env.deep_view(), client, kind);
            let own_client = trimmed_nonblank(env.lifecycle_client.deep_view());
            let own_cwd = trimmed_nonblank(env.lifecycle_cwd.deep_view());
            let own_project = trimmed_nonblank(env.lifecycle_project.deep_view());
            let own_session = trimmed_nonblank(env.lifecycle_session.deep_view());
            &&& to.jsonl == (match args.jsonl {
                Some(j) => j@,
                None => ""@,
            })
            &&& kind == SpoolKind::Turn ==> to.kind == "turn"@
            &&& kind == SpoolKind::CloudOutput ==> to.kind == "cloud_output"@
            &&& args.source is Some ==> to.source == args.source.deep_view()
            &&& args.source is None ==> to.source == Some(client)
            &&& args.cwd is Some ==> to.cwd == args.cwd.deep_view()
            &&& args.cwd is None ==> to.cwd == own_cwd
            &&& args.project is Some ==> to.project == args.project.deep_view()
            &&& args.project is None && own_project is Some ==> to.project == own_project
            &&& args.project is None && own_project is None ==> to.project == trimmed_nonblank(
                env.project.deep_view(),
            )
            &&& args.session_id is Some ==> to.session_id == args.session_id.deep_view()
            &&& args.session_id is None && own_session is Some ==> to.session_id == own_session
            &&& args.session_id is None && own_session is None ==> to.session_id
                == trimmed_nonblank(env.session_id.deep_view())
            &&& to.git_branch == args.git_branch.deep_view()
            &&& args.client is Some ==> to.client == args.client.deep_view()
            &&& args.client is None && own_client is Some ==> to.client == own_client
            &&& args.client is None && own_client is None && trimmed_nonblank(
                env.client.deep_view(),
            ) is None ==> to.client == Some(client)
            &&& to.binding_nonce == args.binding_nonce.deep_view()
            &&& to.fsync == args.fsync
        }),
{
}

/// An event is read iff the format is one of the two, the text is a JSON object, and its
/// name names a kind. What is then passed on is of that kind.
pub proof fn law_only_objects_are_read(
    args: AdapterLifecycleArgsView,
    env: LifecycleEnvView,
    p: AdapterLifecyclePayloadView,
    parsed: Result<JsonView, Seq<char>>,
)
    ensures
        read_event(args, env, Ok(p), parsed) matches Ok((kind, text)) ==> {
            &&& lowered(trimmed(args.format)) == "event"@ || lowered(trimmed(args.format))
                == "report"@
            &&& parsed matches Ok(v) && v is Object
            &&& lifecycle_kind(event_name(args, p), p) == Ok::<SpoolKind, LifecycleFault>(kind)
        },
        (lowered(trimmed(args.format)) == "event"@ || lowered(trimmed(args.format)) == "report"@)
            && lifecycle_kind(event_name(args, p), p) is Ok && (parsed matches Ok(v) && v is Object)
            ==> read_event(args, env, Ok(p), parsed) is Ok,
{
}

}
