//! Taking in one captured episode: from command flags or a JSON payload to what is
//! stored.
use crate::capture::sha256::{digest_hex, Sha256};
use crate::json::{is_tidy, Json, JsonView, Members};
use crate::number::{decimal, decimal_int, decimal_text, int_text};
use crate::outcome::{first, first_text, outcome, owned, verdict};
use crate::outside::{
    base64_bytes, decode_base64, is_one_line, json_line, json_of, print_json, JSON_DEPTH,
};
use crate::path::{join, joined_path, lies_in, within};
use crate::storage::{
    is_assistant, is_source_name, Episode, EpisodeId, EpisodeSource, EpisodeView, StorageError,
};
use crate::text::{before, cat2, cat3, cat5, join as join_texts, joined, none, with};
use vstd::prelude::*;
use vstd::string::*;
use vstd::utf8::encode_utf8;

verus! {

/// Where the episodes are kept.
#[derive(Debug)]
pub struct IngestContext {
    pub db_path: String,
}

/// What became of an episode.
#[derive(Debug, Clone, Copy)]
pub enum IngestOutcome {
    Stored { episode_id: EpisodeId },
}

/// The flags of one `soma ingest` call.
#[derive(Debug)]
pub struct IngestArgs {
    pub source: String,
    pub session: Option<String>,
    pub prompt: Option<String>,
    pub response: Option<String>,
    pub command: Option<String>,
    pub stdout_file: Option<String>,
    pub exit_code: Option<i32>,
    pub cwd: Option<String>,
    pub git_branch: Option<String>,
    pub project: Option<String>,
    pub digest: Option<String>,
    pub json: Option<String>,
    pub db_path: Option<String>,
}

/// What an `IngestArgs` holds.
#[verifier::ext_equal]
pub struct IngestArgsView {
    pub source: Seq<char>,
    pub session: Option<Seq<char>>,
    pub prompt: Option<Seq<char>>,
    pub response: Option<Seq<char>>,
    pub command: Option<Seq<char>>,
    pub stdout_file: Option<Seq<char>>,
    pub exit_code: Option<i32>,
    pub cwd: Option<Seq<char>>,
    pub git_branch: Option<Seq<char>>,
    pub project: Option<Seq<char>>,
    pub digest: Option<Seq<char>>,
    pub json: Option<Seq<char>>,
    pub db_path: Option<Seq<char>>,
}

impl DeepView for IngestArgs {
    type V = IngestArgsView;

    open spec fn deep_view(&self) -> IngestArgsView {
        IngestArgsView {
            source: self.source.deep_view(),
            session: self.session.deep_view(),
            prompt: self.prompt.deep_view(),
            response: self.response.deep_view(),
            command: self.command.deep_view(),
            stdout_file: self.stdout_file.deep_view(),
            exit_code: self.exit_code.deep_view(),
            cwd: self.cwd.deep_view(),
            git_branch: self.git_branch.deep_view(),
            project: self.project.deep_view(),
            digest: self.digest.deep_view(),
            json: self.json.deep_view(),
            db_path: self.db_path.deep_view(),
        }
    }
}

/// The JSON payload of one `soma ingest --json` call. Every field may be missing.
#[derive(Debug)]
pub struct JsonPayload {
    pub source: Option<String>,
    pub session_id: Option<String>,
    pub prompt_text: Option<String>,
    pub response_text: Option<String>,
    pub command: Option<String>,
    pub stdout_b64: Option<String>,
    pub exit_code: Option<i32>,
    pub cwd: Option<String>,
    pub git_branch: Option<String>,
    pub project: Option<String>,
    pub ts_start_ns: Option<i64>,
    pub ts_end_ns: Option<i64>,
    pub digest: Option<String>,
}

/// What a `JsonPayload` holds.
#[verifier::ext_equal]
pub struct JsonPayloadView {
    pub source: Option<Seq<char>>,
    pub session_id: Option<Seq<char>>,
    pub prompt_text: Option<Seq<char>>,
    pub response_text: Option<Seq<char>>,
    pub command: Option<Seq<char>>,
    pub stdout_b64: Option<Seq<char>>,
    pub exit_code: Option<i32>,
    pub cwd: Option<Seq<char>>,
    pub git_branch: Option<Seq<char>>,
    pub project: Option<Seq<char>>,
    pub ts_start_ns: Option<i64>,
    pub ts_end_ns: Option<i64>,
    pub digest: Option<Seq<char>>,
}

impl DeepView for JsonPayload {
    type V = JsonPayloadView;

    open spec fn deep_view(&self) -> JsonPayloadView {
        JsonPayloadView {
            source: self.source.deep_view(),
            session_id: self.session_id.deep_view(),
            prompt_text: self.prompt_text.deep_view(),
            response_text: self.response_text.deep_view(),
            command: self.command.deep_view(),
            stdout_b64: self.stdout_b64.deep_view(),
            exit_code: self.exit_code.deep_view(),
            cwd: self.cwd.deep_view(),
            git_branch: self.git_branch.deep_view(),
            project: self.project.deep_view(),
            ts_start_ns: self.ts_start_ns.deep_view(),
            ts_end_ns: self.ts_end_ns.deep_view(),
            digest: self.digest.deep_view(),
        }
    }
}

/// What `soma adapter-capture` fills in where the payload is silent.
#[derive(Debug)]
pub struct AdapterCaptureDefaults {
    pub cwd: Option<String>,
    pub project: Option<String>,
    pub session_id: Option<String>,
    pub git_branch: Option<String>,
}

/// What an `AdapterCaptureDefaults` holds.
#[verifier::ext_equal]
pub struct AdapterCaptureDefaultsView {
    pub cwd: Option<Seq<char>>,
    pub project: Option<Seq<char>>,
    pub session_id: Option<Seq<char>>,
    pub git_branch: Option<Seq<char>>,
}

impl DeepView for AdapterCaptureDefaults {
    type V = AdapterCaptureDefaultsView;

    open spec fn deep_view(&self) -> AdapterCaptureDefaultsView {
        AdapterCaptureDefaultsView {
            cwd: self.cwd.deep_view(),
            project: self.project.deep_view(),
            session_id: self.session_id.deep_view(),
            git_branch: self.git_branch.deep_view(),
        }
    }
}

/// What the process environment and the clock contribute.
#[derive(Debug)]
pub struct IngestEnv {
    pub project: Option<String>,
    pub session_id: Option<String>,
    pub now_ns: i64,
}

/// What an `IngestEnv` holds.
#[verifier::ext_equal]
pub struct IngestEnvView {
    pub project: Option<Seq<char>>,
    pub session_id: Option<Seq<char>>,
    pub now_ns: i64,
}

impl DeepView for IngestEnv {
    type V = IngestEnvView;

    open spec fn deep_view(&self) -> IngestEnvView {
        IngestEnvView {
            project: self.project.deep_view(),
            session_id: self.session_id.deep_view(),
            now_ns: self.now_ns,
        }
    }
}

/// What is written for an episode: the episode itself, the text that is indexed (a vector
/// is stored only where `embed` holds), and the signature by which repeated work is found.
#[derive(Debug)]
pub struct IngestPlan {
    pub episode: Episode,
    pub index_text: String,
    pub embed: bool,
    pub signature: Option<String>,
}

/// What an `IngestPlan` holds.
#[verifier::ext_equal]
pub struct IngestPlanView {
    pub episode: EpisodeView,
    pub index_text: Seq<char>,
    pub embed: bool,
    pub signature: Option<Seq<char>>,
}

impl DeepView for IngestPlan {
    type V = IngestPlanView;

    open spec fn deep_view(&self) -> IngestPlanView {
        IngestPlanView {
            episode: self.episode.deep_view(),
            index_text: self.index_text.deep_view(),
            embed: self.embed,
            signature: self.signature.deep_view(),
        }
    }
}

/// Why an episode was not taken in.
#[derive(Debug)]
#[non_exhaustive]
pub enum IngestError {
    /// The input has the wrong shape.
    MalformedInput(String),
    /// The store failed.
    Storage(StorageError),
    /// No place for the store was found.
    Path(String),
    /// A field is over its limit.
    PayloadTooLarge { field: &'static str, len: usize, limit: usize },
}

/// What an `IngestError` holds.
pub enum IngestFault {
    MalformedInput(Seq<char>),
    Storage(Seq<char>),
    Path(Seq<char>),
    PayloadTooLarge { field: Seq<char>, len: usize, limit: usize },
}

impl DeepView for IngestError {
    type V = IngestFault;

    open spec fn deep_view(&self) -> IngestFault {
        match self {
            IngestError::MalformedInput(m) => IngestFault::MalformedInput(m@),
            IngestError::Storage(e) => IngestFault::Storage(e.message@),
            IngestError::Path(p) => IngestFault::Path(p@),
            IngestError::PayloadTooLarge { field, len, limit } => IngestFault::PayloadTooLarge {
                field: field@,
                len: *len,
                limit: *limit,
            },
        }
    }
}

/// The message of an error.
pub open spec fn fault_text(f: IngestFault) -> Seq<char> {
    match f {
        IngestFault::MalformedInput(m) => "malformed input: "@ + m,
        IngestFault::Storage(e) => "storage: "@ + e,
        IngestFault::Path(p) => "path: "@ + p,
        IngestFault::PayloadTooLarge { field, len, limit } => "payload too large: field `"@ + field
            + "` is "@ + decimal(len as nat) + " bytes, limit is "@ + decimal(limit as nat),
    }
}

/// The word by which callers tell the errors apart.
pub open spec fn fault_code(f: IngestFault) -> Seq<char> {
    match f {
        IngestFault::MalformedInput(_) => "malformed"@,
        IngestFault::Storage(_) => "storage"@,
        IngestFault::Path(_) => "path"@,
        IngestFault::PayloadTooLarge { .. } => "payload_too_large"@,
    }
}

impl IngestError {
    /// The message of the error.
    pub fn message(&self) -> (r: String)
        ensures
            r@ == fault_text(self.deep_view()),
    {
        match self {
            IngestError::MalformedInput(m) => cat2("malformed input: ", m.as_str()),
            IngestError::Storage(e) => cat2("storage: ", e.message.as_str()),
            IngestError::Path(p) => cat2("path: ", p.as_str()),
            IngestError::PayloadTooLarge { field, len, limit } => {
                let mut r = cat5(
                    "payload too large: field `",
                    field,
                    "` is ",
                    decimal_text(*len as u64).as_str(),
                    " bytes, limit is ",
                );
                r.append(decimal_text(*limit as u64).as_str());
                r
            },
        }
    }

    /// The word by which callers tell the errors apart.
    pub fn code(&self) -> (r: &'static str)
        ensures
            r@ == fault_code(self.deep_view()),
    {
        match self {
            IngestError::MalformedInput(_) => "malformed",
            IngestError::Storage(_) => "storage",
            IngestError::Path(_) => "path",
            IngestError::PayloadTooLarge { .. } => "payload_too_large",
        }
    }
}

impl From<StorageError> for IngestError {
    fn from(e: StorageError) -> (r: Self) {
        IngestError::Storage(e)
    }
}

impl vstd::std_specs::convert::FromSpecImpl<StorageError> for IngestError {
    open spec fn obeys_from_spec() -> bool {
        true
    }

    open spec fn from_spec(e: StorageError) -> Self {
        IngestError::Storage(e)
    }
}

/// The exit code of an error: bad input, store, place and size each have their own.
pub fn exit_code_for(err: &IngestError) -> (r: i32)
    ensures
        r == match err.deep_view() {
            IngestFault::MalformedInput(_) => 1i32,
            IngestFault::Storage(_) => 2i32,
            IngestFault::Path(_) => 3i32,
            IngestFault::PayloadTooLarge { .. } => 4i32,
        },
{
    match err {
        IngestError::MalformedInput(_) => 1,
        IngestError::Storage(_) => 2,
        IngestError::Path(_) => 3,
        IngestError::PayloadTooLarge { .. } => 4,
    }
}

/// The error as the JSON object that callers read.
pub open spec fn error_value(f: IngestFault) -> JsonView {
    JsonView::Object(
        Seq::empty().push(("code"@, JsonView::Text(fault_code(f)))).push(
            ("error"@, JsonView::Text(fault_text(f))),
        ),
    )
}

/// The error as the JSON object that callers read.
pub fn error_json(err: &IngestError) -> (r: Json)
    ensures
        r@ == error_value(err.deep_view()),
{
    Members::new().text("code", err.code()).text("error", err.message().as_str()).done()
}

proof fn lemma_error_is_tidy(f: IngestFault)
    ensures
        is_tidy(error_value(f), JSON_DEPTH as nat, false),
{
    reveal_strlit("code");
    reveal_strlit("error");
    assert("code"@[0] == 'c');
    assert("error"@[0] == 'e');
    assert(before("code"@, "error"@));
    reveal_with_fuel(is_tidy, 2);
    let m = error_value(f)->Object_0;
    assert forall|i: int| 0 <= i < m.len() implies is_tidy(
        (#[trigger] m[i]).1,
        (JSON_DEPTH - 1) as nat,
        false,
    ) by {
        assert(i == 0 || i == 1);
    }
}

/// The line that reports an error. Callers read the error back from it.
pub fn emit_error_json(err: &IngestError) -> (r: String)
    ensures
        r@ == json_line(error_value(err.deep_view())),
        is_one_line(r@),
        json_of(r@) == Ok::<JsonView, Seq<char>>(error_value(err.deep_view())),
{
    proof {
        lemma_error_is_tidy(err.deep_view());
    }
    print_json(&error_json(err))
}

// ---------------------------------------------------------------------------
// Shape
// ---------------------------------------------------------------------------

pub open spec fn malformed<T>(message: Seq<char>) -> Result<T, IngestFault> {
    Err(IngestFault::MalformedInput(message))
}

/// A flag that carries payload is set.
pub open spec fn has_payload_flag(a: IngestArgsView) -> bool {
    ||| a.prompt is Some
    ||| a.response is Some
    ||| a.command is Some
    ||| a.stdout_file is Some
    ||| a.exit_code is Some
    ||| a.cwd is Some
    ||| a.git_branch is Some
    ||| a.project is Some
    ||| a.session is Some
    ||| a.digest is Some
}

pub open spec fn mutex_kept(a: IngestArgsView) -> Result<(), IngestFault> {
    if a.json is Some && has_payload_flag(a) {
        malformed("`--json` cannot be combined with flag-based payload fields"@)
    } else {
        Ok(())
    }
}

/// Refuses `--json` together with a flag that carries payload. `--source` may always be
/// given.
pub fn enforce_mutex(args: &IngestArgs) -> (r: Result<(), IngestError>)
    ensures
        verdict(r) == mutex_kept(args.deep_view()),
{
    if args.json.is_none() {
        return Ok(());
    }
    if args.prompt.is_some() || args.response.is_some() || args.command.is_some()
        || args.stdout_file.is_some() || args.exit_code.is_some() || args.cwd.is_some()
        || args.git_branch.is_some() || args.project.is_some() || args.session.is_some()
        || args.digest.is_some() {
        return Err(
            IngestError::MalformedInput(
                "`--json` cannot be combined with flag-based payload fields".to_string(),
            ),
        );
    }
    Ok(())
}

/// Assistants give a prompt or a response, and a terminal gives a command.
pub open spec fn payload_fits(
    source: Seq<char>,
    prompt: bool,
    response: bool,
    command: bool,
) -> Result<(), IngestFault> {
    if is_assistant(source) && !prompt && !response {
        malformed(
            "source=`"@ + source + "` requires at least one of prompt_text / response_text"@,
        )
    } else if source == "terminal"@ && !command {
        malformed("source=`terminal` requires command"@)
    } else {
        Ok(())
    }
}

/// Checks that an episode has what its source must give.
pub fn validate_source_payload(
    source: &EpisodeSource,
    prompt: Option<&str>,
    response: Option<&str>,
    command: Option<&str>,
) -> (r: Result<(), IngestError>)
    requires
        source.wf(),
    ensures
        verdict(r) == payload_fits(
            source.deep_view(),
            prompt is Some,
            response is Some,
            command is Some,
        ),
{
    proof {
        reveal_strlit("terminal");
        reveal_strlit("codex-cli");
        reveal_strlit("codex-app");
        reveal_strlit("cursor");
        reveal_strlit("continue");
    }
    match source {
        EpisodeSource::Other(_) => Ok(()),
        EpisodeSource::Terminal => {
            assert(!is_assistant("terminal"@)) by {
                assert("cursor"@.len() == 6);
                assert("continue"@[0] == 'c');
            }
            if command.is_none() {
                Err(
                    IngestError::MalformedInput("source=`terminal` requires command".to_string()),
                )
            } else {
                Ok(())
            }
        },
        _ => {
            assert(source.deep_view() != "terminal"@) by {
                assert("terminal"@[0] == 't');
                assert("cursor"@[0] == 'c');
                assert("continue"@[0] == 'c');
                assert("codex-cli"@[0] == 'c');
                assert("codex-app"@[0] == 'c');
            }
            if prompt.is_none() && response.is_none() {
                Err(
                    IngestError::MalformedInput(
                        cat3(
                            "source=`",
                            source.name().as_str(),
                            "` requires at least one of prompt_text / response_text",
                        ),
                    ),
                )
            } else {
                Ok(())
            }
        },
    }
}

/// The most bytes that each field may have.
pub const MAX_PROMPT_BYTES: usize = 0x10_0000;

pub const MAX_RESPONSE_BYTES: usize = 0x10_0000;

pub const MAX_COMMAND_BYTES: usize = 0x1_0000;

pub const MAX_STDOUT_BYTES: usize = 0x100_0000;

pub open spec fn byte_len(s: Option<Seq<char>>) -> nat {
    match s {
        Some(s) => encode_utf8(s).len(),
        None => 0,
    }
}

pub open spec fn too_large<T>(field: Seq<char>, len: nat, limit: usize) -> Result<T, IngestFault> {
    Err(IngestFault::PayloadTooLarge { field, len: len as usize, limit })
}

/// The first field that is over its limit, if any.
pub open spec fn lengths_fit(e: EpisodeView) -> Result<(), IngestFault> {
    if byte_len(e.prompt_text) > MAX_PROMPT_BYTES {
        too_large("prompt_text"@, byte_len(e.prompt_text), MAX_PROMPT_BYTES)
    } else if byte_len(e.response_text) > MAX_RESPONSE_BYTES {
        too_large("response_text"@, byte_len(e.response_text), MAX_RESPONSE_BYTES)
    } else if byte_len(e.command) > MAX_COMMAND_BYTES {
        too_large("command"@, byte_len(e.command), MAX_COMMAND_BYTES)
    } else if e.stdout is Some && e.stdout->0.len() > MAX_STDOUT_BYTES {
        too_large("stdout"@, e.stdout->0.len(), MAX_STDOUT_BYTES)
    } else {
        Ok(())
    }
}

fn text_len(s: &Option<String>) -> (r: usize)
    ensures
        r == byte_len(s.deep_view()),
{
    match s {
        Some(s) => s.as_str().as_bytes().len(),
        None => 0,
    }
}

/// Checks every field against its limit, in order.
pub fn validate_payload_lengths(ep: &Episode) -> (r: Result<(), IngestError>)
    ensures
        verdict(r) == lengths_fit(ep.deep_view()),
{
    let prompt = text_len(&ep.prompt_text);
    if prompt > MAX_PROMPT_BYTES {
        return Err(
            IngestError::PayloadTooLarge {
                field: "prompt_text",
                len: prompt,
                limit: MAX_PROMPT_BYTES,
            },
        );
    }
    let response = text_len(&ep.response_text);
    if response > MAX_RESPONSE_BYTES {
        return Err(
            IngestError::PayloadTooLarge {
                field: "response_text",
                len: response,
                limit: MAX_RESPONSE_BYTES,
            },
        );
    }
    let command = text_len(&ep.command);
    if command > MAX_COMMAND_BYTES {
        return Err(
            IngestError::PayloadTooLarge {
                field: "command",
                len: command,
                limit: MAX_COMMAND_BYTES,
            },
        );
    }
    match &ep.stdout {
        Some(s) => {
            assert(ep.deep_view().stdout->0.len() == s.len());
            if s.len() > MAX_STDOUT_BYTES {
                return Err(
                    IngestError::PayloadTooLarge {
                        field: "stdout",
                        len: s.len(),
                        limit: MAX_STDOUT_BYTES,
                    },
                );
            }
        },
        None => {},
    }
    Ok(())
}

// ---------------------------------------------------------------------------
// What is stored beside an episode
// ---------------------------------------------------------------------------

/// A text as a list of one, or of none where it is missing or empty.
pub open spec fn part(s: Option<Seq<char>>) -> Seq<Seq<char>> {
    match s {
        Some(s) => if s.len() > 0 {
            seq![s]
        } else {
            Seq::empty()
        },
        None => Seq::empty(),
    }
}

/// The text that is indexed: prompt, response and command, those that are not empty.
pub open spec fn index_text(e: EpisodeView) -> Seq<char> {
    joined(part(e.prompt_text) + part(e.response_text) + part(e.command), "\n"@)
}

fn push_part(parts: Vec<String>, s: &Option<String>) -> (r: Vec<String>)
    ensures
        r.deep_view() == parts.deep_view() + part(s.deep_view()),
{
    match s {
        Some(t) => {
            if t.as_str().is_empty() {
                assert(parts.deep_view() + part(s.deep_view()) =~= parts.deep_view());
                parts
            } else {
                let r = with(parts, t.clone());
                assert(r.deep_view() =~= parts.deep_view() + part(s.deep_view()));
                r
            }
        },
        None => {
            assert(parts.deep_view() + part(s.deep_view()) =~= parts.deep_view());
            parts
        },
    }
}

/// The text that is indexed for an episode.
pub fn episode_index_text(ep: &Episode) -> (r: String)
    ensures
        r@ == index_text(ep.deep_view()),
{
    let parts = push_part(none(), &ep.prompt_text);
    assert(parts.deep_view() =~= part(ep.deep_view().prompt_text));
    let parts = push_part(parts, &ep.response_text);
    let parts = push_part(parts, &ep.command);
    join_texts(&parts, "\n")
}

/// Command, project and exit code, as they are hashed.
pub open spec fn signature_text(
    command: Seq<char>,
    project: Option<Seq<char>>,
    exit_code: Option<i32>,
) -> Seq<char> {
    let project = if project is Some {
        project->0
    } else {
        ""@
    };
    let exit = if exit_code is Some {
        exit_code->0
    } else {
        -1i32
    };
    command + "\u{1f}"@ + project + "\u{1f}"@ + decimal_int(exit as int)
}

/// The signature of an episode: none without a command.
pub open spec fn summary_signature(e: EpisodeView) -> Option<Seq<char>> {
    match e.command {
        Some(c) => Some(digest_hex(encode_utf8(signature_text(c, e.project, e.exit_code)))),
        None => None,
    }
}

/// The SHA-256 of command, project and exit code: episodes that share it are candidates
/// for being merged.
pub fn compute_summary_signature(ep: &Episode) -> (r: Option<String>)
    ensures
        r.deep_view() == summary_signature(ep.deep_view()),
{
    match &ep.command {
        Some(command) => {
            let project = match &ep.project {
                Some(p) => p.as_str(),
                None => "",
            };
            let exit: i32 = match ep.exit_code {
                Some(e) => e,
                None => -1,
            };
            let raw = cat5(
                command.as_str(),
                "\u{1f}",
                project,
                "\u{1f}",
                int_text(exit as i64).as_str(),
            );
            let mut hasher = Sha256::new();
            hasher.update(raw.as_str().as_bytes());
            proof {
                assert(Seq::<u8>::empty() + encode_utf8(raw@) =~= encode_utf8(raw@));
            }
            Some(hasher.finalize_hex())
        },
        None => None,
    }
}

pub open spec fn planned(e: EpisodeView) -> Result<IngestPlanView, IngestFault> {
    match lengths_fit(e) {
        Err(f) => Err(f),
        Ok(_) => Ok(
            IngestPlanView {
                episode: e,
                index_text: index_text(e),
                embed: index_text(e).len() > 0,
                signature: summary_signature(e),
            },
        ),
    }
}

/// What is written for an episode, where no field is over its limit.
pub fn persist_episode(episode: Episode) -> (r: Result<IngestPlan, IngestError>)
    ensures
        outcome(r) == planned(episode.deep_view()),
{
    match validate_payload_lengths(&episode) {
        Err(e) => Err(e),
        Ok(_) => {
            let index_text = episode_index_text(&episode);
            let signature = compute_summary_signature(&episode);
            let embed = !index_text.as_str().is_empty();
            Ok(IngestPlan { episode, index_text, embed, signature })
        },
    }
}

// ---------------------------------------------------------------------------
// Building an episode
// ---------------------------------------------------------------------------

/// The time from start to end, in whole milliseconds. An end before the start counts
/// as no time.
pub open spec fn elapsed_ms(start: i64, end: i64) -> int {
    if end < start {
        0
    } else if end - start > i64::MAX {
        i64::MAX as int / 1_000_000
    } else {
        (end - start) / 1_000_000
    }
}

pub fn duration_ms(start: i64, end: i64) -> (r: i64)
    ensures
        r == elapsed_ms(start, end),
{
    if end < start {
        return 0;
    }
    let ns: i128 = end as i128 - start as i128;
    if ns > i64::MAX as i128 {
        i64::MAX / 1_000_000
    } else {
        (ns as i64) / 1_000_000
    }
}

/// What a source name that has the wrong shape is answered.
pub open spec fn bad_source(name: Seq<char>) -> Seq<char> {
    "invalid episode source `"@ + name + "`: expected kebab-case (`^[a-z][a-z0-9-]*$`)"@
}

/// The source called `name`. An empty name is answered with `missing`.
pub fn read_source(name: &str, missing: &str) -> (r: Result<EpisodeSource, IngestError>)
    ensures
        r matches Ok(s) ==> s.wf(),
        outcome(r) == source_of(name@, missing@),
{
    if name.is_empty() {
        return Err(IngestError::MalformedInput(missing.to_string()));
    }
    match EpisodeSource::from_name(name) {
        Some(s) => Ok(s),
        None => Err(
            IngestError::MalformedInput(
                cat3(
                    "invalid episode source `",
                    name,
                    "`: expected kebab-case (`^[a-z][a-z0-9-]*$`)",
                ),
            ),
        ),
    }
}

pub open spec fn source_of(name: Seq<char>, missing: Seq<char>) -> Result<Seq<char>, IngestFault> {
    if name.len() == 0 {
        malformed(missing)
    } else if !is_source_name(name) {
        malformed(bad_source(name))
    } else {
        Ok(name)
    }
}

/// What came of getting the standard output of a command: its bytes, nothing, or the
/// message of a failure.
pub open spec fn stdout_read(r: Result<Option<Vec<u8>>, String>) -> Result<
    Option<Seq<u8>>,
    Seq<char>,
> {
    match r {
        Ok(v) => Ok(v.deep_view()),
        Err(e) => Err(e@),
    }
}

/// The bytes that a Base64 text stands for, where there is such a text.
pub open spec fn decoded_stdout(text: Option<Seq<char>>) -> Result<Option<Seq<u8>>, Seq<char>> {
    match text {
        None => Ok(None),
        Some(t) => match base64_bytes(t) {
            Ok(bytes) => Ok(Some(bytes)),
            Err(e) => Err("stdout_b64 decode: "@ + e),
        },
    }
}

/// The standard output: what was read from its file, or else what the payload carries.
pub fn read_stdout(
    file: Option<Result<Vec<u8>, String>>,
    stdout_b64: &Option<String>,
) -> (r: Result<Option<Vec<u8>>, String>)
    ensures
        match file {
            Some(Ok(bytes)) => stdout_read(r) == Ok::<Option<Seq<u8>>, Seq<char>>(
                Some(bytes.deep_view()),
            ),
            Some(Err(e)) => stdout_read(r) == Err::<Option<Seq<u8>>, Seq<char>>(e@),
            None => stdout_read(r) == decoded_stdout(stdout_b64.deep_view()),
        },
{
    match file {
        Some(Ok(bytes)) => Ok(Some(bytes)),
        Some(Err(e)) => Err(e),
        None => match stdout_b64 {
            None => Ok(None),
            Some(t) => match decode_base64(t.as_str()) {
                Ok(bytes) => {
                    assert(bytes.deep_view() =~= bytes@);
                    Ok(Some(bytes))
                },
                Err(e) => Err(cat2("stdout_b64 decode: ", e.as_str())),
            },
        },
    }
}

pub const SOURCE_REQUIRED: &'static str = "`--source` (or JSON `source`) is required";

/// The episode that flags and payload describe.
pub open spec fn built(
    a: IngestArgsView,
    p: JsonPayloadView,
    stdout: Result<Option<Seq<u8>>, Seq<char>>,
    env: IngestEnvView,
) -> Result<EpisodeView, IngestFault> {
    let start = if p.ts_start_ns is Some {
        p.ts_start_ns->0
    } else {
        env.now_ns
    };
    let end = if p.ts_end_ns is Some {
        p.ts_end_ns->0
    } else {
        start
    };
    let prompt = first(a.prompt, p.prompt_text);
    let response = first(a.response, p.response_text);
    let command = first(a.command, p.command);
    match source_of(
        if p.source is Some {
            p.source->0
        } else {
            a.source
        },
        SOURCE_REQUIRED@,
    ) {
        Err(f) => Err(f),
        Ok(source) => match stdout {
            Err(m) => malformed(m),
            Ok(stdout) => match payload_fits(
                source,
                prompt is Some,
                response is Some,
                command is Some,
            ) {
                Err(f) => Err(f),
                Ok(_) => Ok(
                    EpisodeView {
                        ts_start_ns: start,
                        ts_end_ns: end,
                        duration_ms: elapsed_ms(start, end) as i64,
                        source,
                        session_id: first(first(a.session, p.session_id), env.session_id),
                        prompt_text: prompt,
                        response_text: response,
                        command,
                        stdout,
                        exit_code: first(a.exit_code, p.exit_code),
                        cwd: first(a.cwd, p.cwd),
                        git_branch: first(a.git_branch, p.git_branch),
                        project: first(first(a.project, p.project), env.project),
                        digest: first(a.digest, p.digest),
                    },
                ),
            },
        },
    }
}

fn borrow(s: &Option<String>) -> (r: Option<&str>)
    ensures
        r is Some <==> s is Some,
{
    match s {
        Some(s) => Some(s.as_str()),
        None => None,
    }
}

/// Merges flags and payload into one episode. A flag goes before the payload, but the
/// payload's source goes before the flag.
pub fn build_episode(
    args: &IngestArgs,
    payload: &JsonPayload,
    stdout: Result<Option<Vec<u8>>, String>,
    env: &IngestEnv,
) -> (r: Result<Episode, IngestError>)
    ensures
        outcome(r) == built(
            args.deep_view(),
            payload.deep_view(),
            stdout_read(stdout),
            env.deep_view(),
        ),
{
    let name = match &payload.source {
        Some(s) => s.as_str(),
        None => args.source.as_str(),
    };
    let source = match read_source(name, SOURCE_REQUIRED) {
        Ok(s) => s,
        Err(e) => return Err(e),
    };
    let stdout = match stdout {
        Ok(v) => v,
        Err(e) => return Err(IngestError::MalformedInput(e)),
    };
    let prompt_text = first_text(&args.prompt, &payload.prompt_text);
    let response_text = first_text(&args.response, &payload.response_text);
    let command = first_text(&args.command, &payload.command);
    match validate_source_payload(
        &source,
        borrow(&prompt_text),
        borrow(&response_text),
        borrow(&command),
    ) {
        Err(e) => return Err(e),
        Ok(_) => {},
    }
    let ts_start_ns: i64 = match payload.ts_start_ns {
        Some(t) => t,
        None => env.now_ns,
    };
    let ts_end_ns: i64 = match payload.ts_end_ns {
        Some(t) => t,
        None => ts_start_ns,
    };
    let exit_code = if args.exit_code.is_some() { args.exit_code } else { payload.exit_code };
    Ok(
        Episode {
            ts_start_ns,
            ts_end_ns,
            duration_ms: duration_ms(ts_start_ns, ts_end_ns),
            source,
            session_id: first_text(&first_text(&args.session, &payload.session_id),
                &env.session_id),
            prompt_text,
            response_text,
            command,
            stdout,
            exit_code,
            cwd: first_text(&args.cwd, &payload.cwd),
            git_branch: first_text(&args.git_branch, &payload.git_branch),
            project: first_text(&first_text(&args.project, &payload.project), &env.project),
            digest: first_text(&args.digest, &payload.digest),
        },
    )
}

/// A payload in which every field is missing.
pub open spec fn empty_payload() -> JsonPayloadView {
    JsonPayloadView {
        source: None,
        session_id: None,
        prompt_text: None,
        response_text: None,
        command: None,
        stdout_b64: None,
        exit_code: None,
        cwd: None,
        git_branch: None,
        project: None,
        ts_start_ns: None,
        ts_end_ns: None,
        digest: None,
    }
}

impl Default for JsonPayload {
    fn default() -> (r: Self)
        ensures
            r.deep_view() == empty_payload(),
    {
        JsonPayload {
            source: None,
            session_id: None,
            prompt_text: None,
            response_text: None,
            command: None,
            stdout_b64: None,
            exit_code: None,
            cwd: None,
            git_branch: None,
            project: None,
            ts_start_ns: None,
            ts_end_ns: None,
            digest: None,
        }
    }
}

/// What one `soma ingest` call stores. `payload` is what `--json` gave, or the message
/// of a failure to read it; `stdout_file` is what `--stdout-file` gave.
pub open spec fn ingested(
    a: IngestArgsView,
    payload: Option<Result<JsonPayloadView, Seq<char>>>,
    stdout: spec_fn(JsonPayloadView) -> Result<Option<Seq<u8>>, Seq<char>>,
    env: IngestEnvView,
) -> Result<IngestPlanView, IngestFault> {
    match mutex_kept(a) {
        Err(f) => Err(f),
        Ok(_) => match payload {
            Some(Err(m)) => malformed(m),
            Some(Ok(p)) => match built(a, p, stdout(p), env) {
                Err(f) => Err(f),
                Ok(e) => planned(e),
            },
            None => match built(a, empty_payload(), stdout(empty_payload()), env) {
                Err(f) => Err(f),
                Ok(e) => planned(e),
            },
        },
    }
}

/// The standard output of an episode, by its file or by the payload.
pub open spec fn stdout_for(file: Option<Result<Vec<u8>, String>>) -> spec_fn(
    JsonPayloadView,
) -> Result<Option<Seq<u8>>, Seq<char>> {
    |p: JsonPayloadView|
        match file {
            Some(Ok(bytes)) => Ok(Some(bytes.deep_view())),
            Some(Err(e)) => Err(e@),
            None => decoded_stdout(p.stdout_b64),
        }
}

pub open spec fn payload_read(p: Option<Result<JsonPayload, String>>) -> Option<
    Result<JsonPayloadView, Seq<char>>,
> {
    match p {
        Some(Ok(p)) => Some(Ok(p.deep_view())),
        Some(Err(e)) => Some(Err(e@)),
        None => None,
    }
}

/// One `soma ingest` call: checks the flags, builds the episode, checks its size, and
/// tells what is to be stored.
pub fn run_ingest(
    args: &IngestArgs,
    payload: Option<Result<JsonPayload, String>>,
    stdout_file: Option<Result<Vec<u8>, String>>,
    env: &IngestEnv,
) -> (r: Result<IngestPlan, IngestError>)
    ensures
        outcome(r) == ingested(
            args.deep_view(),
            payload_read(payload),
            stdout_for(stdout_file),
            env.deep_view(),
        ),
{
    match enforce_mutex(args) {
        Err(e) => return Err(e),
        Ok(_) => {},
    }
    let payload = match payload {
        Some(Ok(p)) => p,
        Some(Err(e)) => return Err(IngestError::MalformedInput(e)),
        None => JsonPayload::default(),
    };
    let stdout = read_stdout(stdout_file, &payload.stdout_b64);
    match build_episode(args, &payload, stdout, env) {
        Err(e) => Err(e),
        Ok(episode) => persist_episode(episode),
    }
}

/// The payload with the defaults filled in where it is silent.
pub open spec fn completed(
    p: JsonPayloadView,
    source: Option<Seq<char>>,
    d: AdapterCaptureDefaultsView,
) -> JsonPayloadView {
    JsonPayloadView {
        source: first(p.source, source),
        cwd: first(p.cwd, d.cwd),
        project: first(p.project, d.project),
        session_id: first(p.session_id, d.session_id),
        git_branch: first(p.git_branch, d.git_branch),
        ..p
    }
}

pub const CAPTURE_SOURCE_REQUIRED: &'static str = "JSON `source` or `--source` is required";

/// The episode of a completed payload alone.
pub open spec fn captured(
    p: JsonPayloadView,
    stdout: Result<Option<Seq<u8>>, Seq<char>>,
    now_ns: i64,
) -> Result<EpisodeView, IngestFault> {
    let start = if p.ts_start_ns is Some {
        p.ts_start_ns->0
    } else {
        now_ns
    };
    let end = if p.ts_end_ns is Some {
        p.ts_end_ns->0
    } else {
        start
    };
    match source_of(
        if p.source is Some {
            p.source->0
        } else {
            ""@
        },
        CAPTURE_SOURCE_REQUIRED@,
    ) {
        Err(f) => Err(f),
        Ok(source) => match stdout {
            Err(m) => malformed(m),
            Ok(stdout) => match payload_fits(
                source,
                p.prompt_text is Some,
                p.response_text is Some,
                p.command is Some,
            ) {
                Err(f) => Err(f),
                Ok(_) => Ok(
                    EpisodeView {
                        ts_start_ns: start,
                        ts_end_ns: end,
                        duration_ms: elapsed_ms(start, end) as i64,
                        source,
                        session_id: p.session_id,
                        prompt_text: p.prompt_text,
                        response_text: p.response_text,
                        command: p.command,
                        stdout,
                        exit_code: p.exit_code,
                        cwd: p.cwd,
                        git_branch: p.git_branch,
                        project: p.project,
                        digest: p.digest,
                    },
                ),
            },
        },
    }
}

/// The episode of a completed payload alone.
pub fn capture_episode(
    payload: JsonPayload,
    stdout: Result<Option<Vec<u8>>, String>,
    now_ns: i64,
) -> (r: Result<Episode, IngestError>)
    ensures
        outcome(r) == captured(payload.deep_view(), stdout_read(stdout), now_ns),
{
    let name = match &payload.source {
        Some(s) => s.as_str(),
        None => "",
    };
    proof {
        reveal_strlit("");
    }
    let source = match read_source(name, CAPTURE_SOURCE_REQUIRED) {
        Ok(s) => s,
        Err(e) => return Err(e),
    };
    let stdout = match stdout {
        Ok(v) => v,
        Err(e) => return Err(IngestError::MalformedInput(e)),
    };
    match validate_source_payload(
        &source,
        borrow(&payload.prompt_text),
        borrow(&payload.response_text),
        borrow(&payload.command),
    ) {
        Err(e) => return Err(e),
        Ok(_) => {},
    }
    let ts_start_ns: i64 = match payload.ts_start_ns {
        Some(t) => t,
        None => now_ns,
    };
    let ts_end_ns: i64 = match payload.ts_end_ns {
        Some(t) => t,
        None => ts_start_ns,
    };
    Ok(
        Episode {
            ts_start_ns,
            ts_end_ns,
            duration_ms: duration_ms(ts_start_ns, ts_end_ns),
            source,
            session_id: payload.session_id,
            prompt_text: payload.prompt_text,
            response_text: payload.response_text,
            command: payload.command,
            stdout,
            exit_code: payload.exit_code,
            cwd: payload.cwd,
            git_branch: payload.git_branch,
            project: payload.project,
            digest: payload.digest,
        },
    )
}

/// What one `soma adapter-capture` call stores.
pub open spec fn adapter_captured(
    p: JsonPayloadView,
    source: Option<Seq<char>>,
    d: AdapterCaptureDefaultsView,
    now_ns: i64,
) -> Result<IngestPlanView, IngestFault> {
    let full = completed(p, source, d);
    match captured(full, decoded_stdout(full.stdout_b64), now_ns) {
        Err(f) => Err(f),
        Ok(e) => planned(e),
    }
}

/// One `soma adapter-capture` call: fills in the defaults, builds the episode, checks
/// its size, and tells what is to be stored.
pub fn run_adapter_capture_json(
    payload: JsonPayload,
    source_fallback: Option<&str>,
    defaults: AdapterCaptureDefaults,
    now_ns: i64,
) -> (r: Result<IngestPlan, IngestError>)
    ensures
        outcome(r) == adapter_captured(
            payload.deep_view(),
            source_fallback.deep_view(),
            defaults.deep_view(),
            now_ns,
        ),
{
    let full = JsonPayload {
        source: first_text(&payload.source, &owned(source_fallback)),
        session_id: first_text(&payload.session_id, &defaults.session_id),
        prompt_text: payload.prompt_text,
        response_text: payload.response_text,
        command: payload.command,
        stdout_b64: payload.stdout_b64,
        exit_code: payload.exit_code,
        cwd: first_text(&payload.cwd, &defaults.cwd),
        git_branch: first_text(&payload.git_branch, &defaults.git_branch),
        project: first_text(&payload.project, &defaults.project),
        ts_start_ns: payload.ts_start_ns,
        ts_end_ns: payload.ts_end_ns,
        digest: payload.digest,
    };
    assert(full.deep_view() == completed(
        payload.deep_view(),
        source_fallback.deep_view(),
        defaults.deep_view(),
    ));
    let stdout = read_stdout(None, &full.stdout_b64);
    match capture_episode(full, stdout, now_ns) {
        Err(e) => Err(e),
        Ok(episode) => persist_episode(episode),
    }
}

// ---------------------------------------------------------------------------
// Places
// ---------------------------------------------------------------------------

pub open spec fn store_path(
    chosen: Option<Seq<char>>,
    env: Option<Seq<char>>,
    home: Option<Seq<char>>,
) -> Result<Seq<char>, IngestFault> {
    if chosen is Some {
        Ok(chosen->0)
    } else if env is Some && env->0.len() > 0 {
        Ok(env->0)
    } else if home is Some {
        Ok(joined_path(joined_path(home->0, ".soma"@), "soma.db"@))
    } else {
        Err(
            IngestFault::Path("home directory not resolvable; set --db-path or $SOMA_DB"@),
        )
    }
}

/// Where the store is: as chosen, else as the variable `SOMA_DB` says, else below the
/// home directory.
pub fn resolve_db_path(
    cli_override: Option<&str>,
    env: Option<&str>,
    home: Option<&str>,
) -> (r: Result<String, IngestError>)
    ensures
        outcome(r) == store_path(cli_override.deep_view(), env.deep_view(), home.deep_view()),
{
    if let Some(p) = cli_override {
        return Ok(p.to_string());
    }
    if let Some(e) = env {
        if !e.is_empty() {
            return Ok(e.to_string());
        }
    }
    match home {
        Some(h) => Ok(join(join(h, ".soma").as_str(), "soma.db")),
        None => Err(
            IngestError::Path(
                "home directory not resolvable; set --db-path or $SOMA_DB".to_string(),
            ),
        ),
    }
}

/// A file with captured output must lie in the directory for temporary files. Both
/// places are given resolved.
pub fn validate_stdout_file_path(
    path: &str,
    resolved: &str,
    temp_dir: &str,
) -> (r: Result<String, IngestError>)
    ensures
        outcome(r) == (if lies_in(resolved@, temp_dir@) {
            Ok(resolved@)
        } else {
            malformed(
                "stdout_file `"@ + path@ + "` must live under the system tempdir `"@ + temp_dir@
                    + "` (resolved to `"@ + resolved@ + "`)"@,
            )
        }),
{
    if within(resolved, temp_dir) {
        Ok(resolved.to_string())
    } else {
        let mut m = cat5(
            "stdout_file `",
            path,
            "` must live under the system tempdir `",
            temp_dir,
            "` (resolved to `",
        );
        m.append(resolved);
        m.append("`)");
        Err(IngestError::MalformedInput(m))
    }
}

// ---------------------------------------------------------------------------
// Laws
// ---------------------------------------------------------------------------

/// What a flag gives is what the stored episode holds, and where a flag is missing, what
/// the payload gives; the project and the session may come from the environment at the
/// last. Only the source goes the other way: the payload's is taken before the flag's.
pub proof fn law_flags_are_what_the_episode_holds(
    args: IngestArgs,
    payload: JsonPayload,
    stdout: Option<Result<Vec<u8>, String>>,
    env: IngestEnv,
    r: Result<IngestPlan, IngestError>,
)
    requires
        outcome(r) == ingested(
            args.deep_view(),
            Some(Ok(payload.deep_view())),
            stdout_for(stdout),
            env.deep_view(),
        ),
        r is Ok,
    ensures
        ({
            let e = r->Ok_0.episode;
            let p = payload;
            &&& args.prompt is Some ==> e.prompt_text.deep_view() == args.prompt.deep_view()
            &&& args.prompt is None ==> e.prompt_text.deep_view() == p.prompt_text.deep_view()
            &&& args.response is Some ==> e.response_text.deep_view() == args.response.deep_view()
            &&& args.response is None ==> e.response_text.deep_view()
                == p.response_text.deep_view()
            &&& args.command is Some ==> e.command.deep_view() == args.command.deep_view()
            &&& args.command is None ==> e.command.deep_view() == p.command.deep_view()
            &&& args.exit_code is Some ==> e.exit_code == args.exit_code
            &&& args.exit_code is None ==> e.exit_code == p.exit_code
            &&& args.cwd is Some ==> e.cwd.deep_view() == args.cwd.deep_view()
            &&& args.cwd is None ==> e.cwd.deep_view() == p.cwd.deep_view()
            &&& args.git_branch is Some ==> e.git_branch.deep_view()
                == args.git_branch.deep_view()
            &&& args.git_branch is None ==> e.git_branch.deep_view() == p.git_branch.deep_view()
            &&& args.digest is Some ==> e.digest.deep_view() == args.digest.deep_view()
            &&& args.digest is None ==> e.digest.deep_view() == p.digest.deep_view()
            &&& args.project is Some ==> e.project.deep_view() == args.project.deep_view()
            &&& args.project is None && p.project is Some ==> e.project.deep_view()
                == p.project.deep_view()
            &&& args.project is None && p.project is None ==> e.project.deep_view()
                == env.project.deep_view()
            &&& args.session is Some ==> e.session_id.deep_view() == args.session.deep_view()
            &&& args.session is None && p.session_id is Some ==> e.session_id.deep_view()
                == p.session_id.deep_view()
            &&& args.session is None && p.session_id is None ==> e.session_id.deep_view()
                == env.session_id.deep_view()
            &&& e.source.deep_view() == (match p.source {
                Some(s) => s@,
                None => args.source@,
            })
        }),
{
}

/// Without a payload the stored episode holds the flags alone, with the project and the
/// session of the environment where no flag gives them, and begins and ends now.
pub proof fn law_flags_alone_make_an_episode(
    args: IngestArgs,
    stdout: Option<Result<Vec<u8>, String>>,
    env: IngestEnv,
    r: Result<IngestPlan, IngestError>,
)
    requires
        outcome(r) == ingested(args.deep_view(), None, stdout_for(stdout), env.deep_view()),
        r is Ok,
    ensures
        ({
            let e = r->Ok_0.episode;
            &&& e.source.deep_view() == args.source@
            &&& e.prompt_text.deep_view() == args.prompt.deep_view()
            &&& e.response_text.deep_view() == args.response.deep_view()
            &&& e.command.deep_view() == args.command.deep_view()
            &&& e.exit_code == args.exit_code
            &&& e.cwd.deep_view() == args.cwd.deep_view()
            &&& e.git_branch.deep_view() == args.git_branch.deep_view()
            &&& e.digest.deep_view() == args.digest.deep_view()
            &&& args.project is Some ==> e.project.deep_view() == args.project.deep_view()
            &&& args.project is None ==> e.project.deep_view() == env.project.deep_view()
            &&& args.session is Some ==> e.session_id.deep_view() == args.session.deep_view()
            &&& args.session is None ==> e.session_id.deep_view() == env.session_id.deep_view()
            &&& e.ts_start_ns == env.now_ns
            &&& e.ts_end_ns == env.now_ns
            &&& e.duration_ms == 0
            &&& stdout is None ==> e.stdout is None
        }),
{
}

/// An episode begins when the payload says, else now, and ends when the payload says, else
/// when it begins. It lasts the whole milliseconds between the two, and no time where it
/// ends before it begins. Its output is that of the file, where there is one, else what the
/// payload's Base64 text stands for.
pub proof fn law_times_and_output_of_an_episode(
    args: IngestArgs,
    payload: JsonPayload,
    stdout: Option<Result<Vec<u8>, String>>,
    env: IngestEnv,
    r: Result<IngestPlan, IngestError>,
)
    requires
        outcome(r) == ingested(
            args.deep_view(),
            Some(Ok(payload.deep_view())),
            stdout_for(stdout),
            env.deep_view(),
        ),
        r is Ok,
    ensures
        ({
            let e = r->Ok_0.episode;
            &&& payload.ts_start_ns is Some ==> e.ts_start_ns == payload.ts_start_ns->0
            &&& payload.ts_start_ns is None ==> e.ts_start_ns == env.now_ns
            &&& payload.ts_end_ns is Some ==> e.ts_end_ns == payload.ts_end_ns->0
            &&& payload.ts_end_ns is None ==> e.ts_end_ns == e.ts_start_ns
            &&& e.ts_end_ns <= e.ts_start_ns ==> e.duration_ms == 0
            &&& 0 < e.ts_end_ns - e.ts_start_ns <= i64::MAX ==> e.duration_ms * 1_000_000
                <= e.ts_end_ns - e.ts_start_ns < (e.duration_ms + 1) * 1_000_000
            &&& match stdout {
                Some(Ok(bytes)) => e.stdout.deep_view() == Some(bytes.deep_view()),
                Some(Err(_)) => false,
                None => match payload.stdout_b64 {
                    None => e.stdout is None,
                    Some(t) => base64_bytes(t@) matches Ok(bytes) && e.stdout.deep_view() == Some(
                        bytes,
                    ),
                },
            }
        }),
{
}

/// What an adapter's payload says is what the stored episode holds; only its source, its
/// directory, its project, its session and its branch may come from the flags, where the
/// payload is silent on them.
pub proof fn law_captured_payload_is_what_the_episode_holds(
    payload: JsonPayload,
    source: Option<&str>,
    defaults: AdapterCaptureDefaults,
    now_ns: i64,
    r: Result<IngestPlan, IngestError>,
)
    requires
        outcome(r) == adapter_captured(
            payload.deep_view(),
            source.deep_view(),
            defaults.deep_view(),
            now_ns,
        ),
        r is Ok,
    ensures
        ({
            let e = r->Ok_0.episode;
            let p = payload;
            &&& e.prompt_text.deep_view() == p.prompt_text.deep_view()
            &&& e.response_text.deep_view() == p.response_text.deep_view()
            &&& e.command.deep_view() == p.command.deep_view()
            &&& e.exit_code == p.exit_code
            &&& e.digest.deep_view() == p.digest.deep_view()
            &&& p.source is Some ==> e.source.deep_view() == p.source->0@
            &&& p.source is None ==> source is Some && e.source.deep_view() == source->0@
            &&& p.cwd is Some ==> e.cwd.deep_view() == p.cwd.deep_view()
            &&& p.cwd is None ==> e.cwd.deep_view() == defaults.cwd.deep_view()
            &&& p.project is Some ==> e.project.deep_view() == p.project.deep_view()
            &&& p.project is None ==> e.project.deep_view() == defaults.project.deep_view()
            &&& p.session_id is Some ==> e.session_id.deep_view() == p.session_id.deep_view()
            &&& p.session_id is None ==> e.session_id.deep_view()
                == defaults.session_id.deep_view()
            &&& p.git_branch is Some ==> e.git_branch.deep_view() == p.git_branch.deep_view()
            &&& p.git_branch is None ==> e.git_branch.deep_view()
                == defaults.git_branch.deep_view()
            &&& p.ts_start_ns is Some ==> e.ts_start_ns == p.ts_start_ns->0
            &&& p.ts_start_ns is None ==> e.ts_start_ns == now_ns
            &&& p.ts_end_ns is Some ==> e.ts_end_ns == p.ts_end_ns->0
            &&& p.ts_end_ns is None ==> e.ts_end_ns == e.ts_start_ns
            &&& e.ts_end_ns <= e.ts_start_ns ==> e.duration_ms == 0
            &&& 0 < e.ts_end_ns - e.ts_start_ns <= i64::MAX ==> e.duration_ms * 1_000_000
                <= e.ts_end_ns - e.ts_start_ns < (e.duration_ms + 1) * 1_000_000
            &&& match p.stdout_b64 {
                None => e.stdout is None,
                Some(t) => base64_bytes(t@) matches Ok(bytes) && e.stdout.deep_view() == Some(
                    bytes,
                ),
            }
        }),
{
    reveal_strlit("");
}

/// An episode that is stored has no field over its limit: a mebibyte for the prompt and for
/// the response, 64 kibibytes for the command, 16 mebibytes for the output; and an episode
/// with no such field is stored. It is embedded iff its index text is not empty, and it has
/// a signature iff it has a command.
pub proof fn law_stored_episodes_are_within_limits(e: EpisodeView)
    ensures
        planned(e) matches Ok(plan) ==> {
            &&& plan.episode == e
            &&& e.prompt_text matches Some(t) ==> encode_utf8(t).len() <= 1024 * 1024
            &&& e.response_text matches Some(t) ==> encode_utf8(t).len() <= 1024 * 1024
            &&& e.command matches Some(t) ==> encode_utf8(t).len() <= 64 * 1024
            &&& e.stdout matches Some(b) ==> b.len() <= 16 * 1024 * 1024
            &&& plan.embed <==> plan.index_text.len() > 0
            &&& plan.signature is Some <==> e.command is Some
        },
        planned(e) is Err ==> {
            ||| (e.prompt_text is Some && encode_utf8(e.prompt_text->0).len() > 1024 * 1024)
            ||| (e.response_text is Some && encode_utf8(e.response_text->0).len() > 1024 * 1024)
            ||| (e.command is Some && encode_utf8(e.command->0).len() > 64 * 1024)
            ||| (e.stdout is Some && e.stdout->0.len() > 16 * 1024 * 1024)
        },
{
}

/// The text that is indexed is the prompt, the response and the command, in this order and
/// each on a line of its own; a missing or empty one leaves no line.
pub proof fn law_index_text_holds_what_was_said(e: EpisodeView)
    ensures
        ({
            let p = e.prompt_text is Some && e.prompt_text->0.len() > 0;
            let r = e.response_text is Some && e.response_text->0.len() > 0;
            let c = e.command is Some && e.command->0.len() > 0;
            &&& p && r && c ==> index_text(e) == e.prompt_text->0 + seq!['\n'] + e.response_text->0
                + seq!['\n'] + e.command->0
            &&& p && r && !c ==> index_text(e) == e.prompt_text->0 + seq!['\n']
                + e.response_text->0
            &&& p && !r && c ==> index_text(e) == e.prompt_text->0 + seq!['\n'] + e.command->0
            &&& !p && r && c ==> index_text(e) == e.response_text->0 + seq!['\n'] + e.command->0
            &&& p && !r && !c ==> index_text(e) == e.prompt_text->0
            &&& !p && r && !c ==> index_text(e) == e.response_text->0
            &&& !p && !r && c ==> index_text(e) == e.command->0
            &&& !p && !r && !c ==> index_text(e) == Seq::<char>::empty()
        }),
{
    reveal_strlit("\n");
    assert("\n"@ =~= seq!['\n']);
    reveal_with_fuel(joined, 4);
    let all = part(e.prompt_text) + part(e.response_text) + part(e.command);
    if all.len() == 3 {
        assert(all.drop_last() =~= seq![e.prompt_text->0, e.response_text->0]);
        assert(all.drop_last().drop_last() =~= seq![e.prompt_text->0]);
    } else if all.len() == 2 {
        assert(all.drop_last() =~= seq![all[0]]);
    }
}

/// A signature is made of the command, the project and the exit code, one after the other:
/// a missing project counts as an empty one, and a missing exit code as minus one.
pub proof fn law_signatures_are_made_of_command_project_and_code(
    command: Seq<char>,
    project: Option<Seq<char>>,
    exit_code: Option<i32>,
)
    ensures
        signature_text(command, None, exit_code) == signature_text(command, Some(""@), exit_code),
        signature_text(command, project, None) == signature_text(command, project, Some(-1i32)),
        project matches Some(p) ==> exit_code matches Some(x) ==> signature_text(
            command,
            project,
            exit_code,
        ) == command + seq!['\u{1f}'] + p + seq!['\u{1f}'] + decimal_int(x as int),
{
    reveal_strlit("\u{1f}");
    assert("\u{1f}"@ =~= seq!['\u{1f}']);
}

/// An assistant's episode has a prompt or a response, a terminal's has a command. `--json`
/// stands alone.
pub proof fn law_sources_give_what_they_must(
    args: IngestArgsView,
    payload: Option<Result<JsonPayloadView, Seq<char>>>,
    stdout: spec_fn(JsonPayloadView) -> Result<Option<Seq<u8>>, Seq<char>>,
    env: IngestEnvView,
)
    ensures
        ingested(args, payload, stdout, env) matches Ok(plan) ==> {
            let e = plan.episode;
            &&& e.source == "terminal"@ ==> e.command is Some
            &&& (e.source == "codex-cli"@ || e.source == "codex-app"@ || e.source == "cursor"@
                || e.source == "continue"@) ==> e.prompt_text is Some || e.response_text is Some
            &&& args.json is Some ==> args.prompt is None && args.response is None && args.command
                is None && args.stdout_file is None && args.exit_code is None && args.cwd is None
                && args.git_branch is None && args.project is None && args.session is None
                && args.digest is None
        },
{
}

/// A source that is neither an assistant nor a terminal must give nothing.
pub proof fn law_other_sources_give_what_they_like(
    source: Seq<char>,
    prompt: bool,
    response: bool,
    command: bool,
)
    requires
        source != "terminal"@ && source != "codex-cli"@ && source != "codex-app"@ && source
            != "cursor"@ && source != "continue"@,
    ensures
        payload_fits(source, prompt, response, command) is Ok,
{
}

/// The store is where the flag says; without a flag where the variable says, unless it is
/// empty; else at `.soma/soma.db` in the home directory, and nowhere without one.
pub proof fn law_chosen_store_comes_first(
    chosen: Option<Seq<char>>,
    env: Option<Seq<char>>,
    home: Option<Seq<char>>,
)
    ensures
        chosen is Some ==> store_path(chosen, env, home) == Ok::<Seq<char>, IngestFault>(chosen->0),
        chosen is None && env is Some && env->0.len() > 0 ==> store_path(chosen, env, home) == Ok::<
            Seq<char>,
            IngestFault,
        >(env->0),
        chosen is None && (env is None || env->0.len() == 0) && home is Some ==> store_path(
            chosen,
            env,
            home,
        ) == Ok::<Seq<char>, IngestFault>(
            joined_path(joined_path(home->0, ".soma"@), "soma.db"@),
        ),
        chosen is None && (env is None || env->0.len() == 0) && home is None ==> store_path(
            chosen,
            env,
            home,
        ) is Err,
{
}

}
