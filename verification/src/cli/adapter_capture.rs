//! `soma adapter-capture`: one turn from an editor adapter.
//!
//! The payload is completed with what is known locally and goes the way of every other
//! episode, so that the same rules hold for it.
use crate::capture::ai_cli::{
    adapter_captured, run_adapter_capture_json, AdapterCaptureDefaults, AdapterCaptureDefaultsView,
    IngestError, IngestFault, IngestPlan, IngestPlanView, JsonPayload, JsonPayloadView,
};
use crate::outcome::{borrowed, copy_text, first, outcome, owned, trim_nonblank, trimmed_nonblank};
use crate::outside::utf8_text;
use crate::text::{cat2, cat4, same, trimmed};
use vstd::prelude::*;
use vstd::string::*;
use vstd::utf8::{decode_utf8, valid_utf8};

verus! {

/// Where the episodes are kept.
#[derive(Debug)]
pub struct AdapterCaptureContext {
    pub db_path: String,
}

/// The flags of one `soma adapter-capture` call.
#[derive(Debug)]
pub struct AdapterCaptureArgs {
    pub json: String,
    pub source: Option<String>,
    pub cwd: Option<String>,
    pub project: Option<String>,
    pub session_id: Option<String>,
    pub git_branch: Option<String>,
}

/// The branch that `git branch --show-current` printed, where it printed one.
pub open spec fn branch_in(printed: Seq<u8>) -> Option<Seq<char>> {
    if valid_utf8(printed) {
        trimmed_nonblank(Some(decode_utf8(printed)))
    } else {
        None
    }
}

/// The current branch, from what `git branch --show-current` printed if it went well.
pub fn current_git_branch(printed: Option<&Vec<u8>>) -> (r: Option<String>)
    ensures
        r.deep_view() == match printed {
            Some(bytes) => branch_in(bytes@),
            None => None,
        },
{
    match printed {
        Some(bytes) => match utf8_text(bytes.as_slice()) {
            Ok(s) => owned(trim_nonblank(Some(s.as_str()))),
            Err(_) => None,
        },
        None => None,
    }
}

/// What the caller knows of a turn, apart from its payload.
#[derive(Debug)]
pub struct AdapterCaptureRunOptions {
    pub source: Option<String>,
    pub cwd: Option<String>,
    pub project: Option<String>,
    pub session_id: Option<String>,
    pub git_branch: Option<String>,
}

/// What an `AdapterCaptureRunOptions` holds.
#[verifier::ext_equal]
pub struct RunOptionsView {
    pub source: Option<Seq<char>>,
    pub cwd: Option<Seq<char>>,
    pub project: Option<Seq<char>>,
    pub session_id: Option<Seq<char>>,
    pub git_branch: Option<Seq<char>>,
}

impl DeepView for AdapterCaptureRunOptions {
    type V = RunOptionsView;

    open spec fn deep_view(&self) -> RunOptionsView {
        RunOptionsView {
            source: self.source.deep_view(),
            cwd: self.cwd.deep_view(),
            project: self.project.deep_view(),
            session_id: self.session_id.deep_view(),
            git_branch: self.git_branch.deep_view(),
        }
    }
}

impl Default for AdapterCaptureRunOptions {
    fn default() -> (r: Self)
        ensures
            r.deep_view() == (RunOptionsView {
                source: None,
                cwd: None,
                project: None,
                session_id: None,
                git_branch: None,
            }),
    {
        AdapterCaptureRunOptions {
            source: None,
            cwd: None,
            project: None,
            session_id: None,
            git_branch: None,
        }
    }
}

impl AdapterCaptureArgs {
    pub open spec fn options_view(&self) -> RunOptionsView {
        RunOptionsView {
            source: self.source.deep_view(),
            cwd: self.cwd.deep_view(),
            project: self.project.deep_view(),
            session_id: self.session_id.deep_view(),
            git_branch: self.git_branch.deep_view(),
        }
    }

    /// What the flags say of a turn.
    pub fn options(&self) -> (r: AdapterCaptureRunOptions)
        ensures
            r.deep_view() == self.options_view(),
    {
        AdapterCaptureRunOptions {
            source: copy_text(&self.source),
            cwd: copy_text(&self.cwd),
            project: copy_text(&self.project),
            session_id: copy_text(&self.session_id),
            git_branch: copy_text(&self.git_branch),
        }
    }
}

/// Where a turn is captured: the working directory, the variables `SOMA_PROJECT` and
/// `SOMA_SESSION_ID`, and the project and branch of the directory that the turn is for.
#[derive(Debug)]
pub struct CapturePlace {
    pub current_dir: Option<String>,
    pub env_project: Option<String>,
    pub env_session: Option<String>,
    pub dir_project: Option<String>,
    pub dir_branch: Option<String>,
}

/// What a `CapturePlace` holds.
#[verifier::ext_equal]
pub struct CapturePlaceView {
    pub current_dir: Option<Seq<char>>,
    pub env_project: Option<Seq<char>>,
    pub env_session: Option<Seq<char>>,
    pub dir_project: Option<Seq<char>>,
    pub dir_branch: Option<Seq<char>>,
}

impl DeepView for CapturePlace {
    type V = CapturePlaceView;

    open spec fn deep_view(&self) -> CapturePlaceView {
        CapturePlaceView {
            current_dir: self.current_dir.deep_view(),
            env_project: self.env_project.deep_view(),
            env_session: self.env_session.deep_view(),
            dir_project: self.dir_project.deep_view(),
            dir_branch: self.dir_branch.deep_view(),
        }
    }
}

/// What a payload is completed with: the flags come first, then the variables, then what
/// the directory tells. Without a directory there is no project or branch of it.
pub open spec fn capture_defaults(o: RunOptionsView, at: CapturePlaceView) ->
    AdapterCaptureDefaultsView {
    let cwd = first(o.cwd, at.current_dir);
    AdapterCaptureDefaultsView {
        cwd,
        project: first(
            o.project,
            first(
                trimmed_nonblank(at.env_project),
                if cwd is Some {
                    at.dir_project
                } else {
                    None
                },
            ),
        ),
        session_id: first(o.session_id, trimmed_nonblank(at.env_session)),
        git_branch: first(
            o.git_branch,
            if cwd is Some {
                trimmed_nonblank(at.dir_branch)
            } else {
                None
            },
        ),
    }
}

/// The directory that a turn is for.
pub fn capture_cwd(options: &AdapterCaptureRunOptions, current_dir: &Option<String>) -> (r: Option<
    String,
>)
    ensures
        r.deep_view() == first(options.deep_view().cwd, current_dir.deep_view()),
{
    match &options.cwd {
        Some(c) => Some(c.clone()),
        None => copy_text(current_dir),
    }
}

fn first_of(a: &Option<String>, b: Option<String>) -> (r: Option<String>)
    ensures
        r.deep_view() == first(a.deep_view(), b.deep_view()),
{
    match a {
        Some(s) => Some(s.clone()),
        None => b,
    }
}

/// What a payload is completed with.
pub fn adapter_capture_defaults(
    options: &AdapterCaptureRunOptions,
    at: &CapturePlace,
) -> (r: AdapterCaptureDefaults)
    ensures
        r.deep_view() == capture_defaults(options.deep_view(), at.deep_view()),
{
    let cwd = capture_cwd(options, &at.current_dir);
    let of_dir = if cwd.is_some() { copy_text(&at.dir_project) } else { None };
    let env_project = owned(trim_nonblank(borrowed(&at.env_project)));
    let project = first_of(&options.project, first_of(&env_project, of_dir));
    let session_id = first_of(
        &options.session_id,
        owned(trim_nonblank(borrowed(&at.env_session))),
    );
    let branch = if cwd.is_some() {
        owned(trim_nonblank(borrowed(&at.dir_branch)))
    } else {
        None
    };
    let git_branch = first_of(&options.git_branch, branch);
    AdapterCaptureDefaults { cwd, project, session_id, git_branch }
}

/// A payload as it was read, or why it was not JSON.
pub open spec fn payload_view(p: Result<JsonPayload, String>) -> Result<
    JsonPayloadView,
    Seq<char>,
> {
    match p {
        Ok(p) => Ok(p.deep_view()),
        Err(e) => Err(e@),
    }
}

/// One turn: what is to be stored, or why nothing is.
pub open spec fn turn_captured(
    payload: Result<JsonPayloadView, Seq<char>>,
    o: RunOptionsView,
    at: CapturePlaceView,
    now_ns: i64,
) -> Result<IngestPlanView, IngestFault> {
    match payload {
        Err(e) => Err(IngestFault::MalformedInput("JSON parse: "@ + e)),
        Ok(p) => adapter_captured(p, o.source, capture_defaults(o, at), now_ns),
    }
}

/// One turn from a payload that was read as JSON.
pub fn run_json_str(
    payload: Result<JsonPayload, String>,
    options: AdapterCaptureRunOptions,
    at: &CapturePlace,
    now_ns: i64,
) -> (r: Result<IngestPlan, IngestError>)
    ensures
        outcome(r) == turn_captured(
            payload_view(payload),
            options.deep_view(),
            at.deep_view(),
            now_ns,
        ),
{
    let payload = match payload {
        Err(e) => return Err(IngestError::MalformedInput(cat2("JSON parse: ", e.as_str()))),
        Ok(p) => p,
    };
    let defaults = adapter_capture_defaults(&options, at);
    run_adapter_capture_json(payload, borrowed(&options.source), defaults, now_ns)
}

/// What is said of input that could not be read.
pub open spec fn unread(path: Seq<char>, e: Seq<char>) -> Seq<char> {
    if path == "-"@ {
        "stdin read: "@ + e
    } else {
        "read `"@ + path + "`: "@ + e
    }
}

/// What is said of input that could not be read: standard input, where the path is `-`,
/// or a file.
pub fn unread_input(path: &str, e: &str) -> (r: String)
    ensures
        r@ == unread(path@, e@),
{
    if same(path, "-") {
        cat2("stdin read: ", e)
    } else {
        cat4("read `", path, "`: ", e)
    }
}

/// One `soma adapter-capture` call. `read` is the payload that the flags name, or why it
/// could not be read.
pub fn run_blocking(
    args: &AdapterCaptureArgs,
    read: Result<Result<JsonPayload, String>, String>,
    at: &CapturePlace,
    now_ns: i64,
) -> (r: Result<IngestPlan, IngestError>)
    ensures
        outcome(r) == match read {
            Err(e) => Err(IngestFault::MalformedInput(unread(args.json@, e@))),
            Ok(p) => turn_captured(payload_view(p), args.options_view(), at.deep_view(), now_ns),
        },
{
    match read {
        Err(e) => Err(IngestError::MalformedInput(unread_input(args.json.as_str(), e.as_str()))),
        Ok(p) => run_json_str(p, args.options(), at, now_ns),
    }
}

/// What the flags say is never replaced by a variable or by what the directory tells.
pub proof fn law_flags_come_first(o: RunOptionsView, at: CapturePlaceView)
    ensures
        o.cwd is Some ==> capture_defaults(o, at).cwd == o.cwd,
        o.project is Some ==> capture_defaults(o, at).project == o.project,
        o.session_id is Some ==> capture_defaults(o, at).session_id == o.session_id,
        o.git_branch is Some ==> capture_defaults(o, at).git_branch == o.git_branch,
{
}

/// Where a flag is missing, the project is that of the variable, else that of the
/// directory; the session is that of the variable; the directory is the current one, and
/// the branch is the directory's. Blank ones count as missing.
pub proof fn law_place_fills_in_for_flags(o: AdapterCaptureRunOptions, at: CapturePlace)
    ensures
        ({
            let d = capture_defaults(o.deep_view(), at.deep_view());
            let by_env = at.env_project is Some && trimmed(at.env_project->0@).len() > 0;
            let somewhere = o.cwd is Some || at.current_dir is Some;
            &&& o.cwd is Some ==> d.cwd == o.cwd.deep_view()
            &&& o.cwd is None ==> d.cwd == at.current_dir.deep_view()
            &&& o.project is Some ==> d.project == o.project.deep_view()
            &&& o.project is None && by_env ==> d.project == Some(trimmed(at.env_project->0@))
            &&& o.project is None && !by_env && somewhere ==> d.project
                == at.dir_project.deep_view()
            &&& o.project is None && !by_env && !somewhere ==> d.project is None
            &&& o.session_id is Some ==> d.session_id == o.session_id.deep_view()
            &&& o.session_id is None && at.env_session is Some && trimmed(
                at.env_session->0@,
            ).len() > 0 ==> d.session_id == Some(trimmed(at.env_session->0@))
            &&& o.session_id is None && (at.env_session is None || trimmed(
                at.env_session->0@,
            ).len() == 0) ==> d.session_id is None
            &&& o.git_branch is Some ==> d.git_branch == o.git_branch.deep_view()
            &&& o.git_branch is None && somewhere && at.dir_branch is Some && trimmed(
                at.dir_branch->0@,
            ).len() > 0 ==> d.git_branch == Some(trimmed(at.dir_branch->0@))
            &&& o.git_branch is None && !somewhere ==> d.git_branch is None
        }),
{
}

/// A captured turn holds what its payload says, and what the flags say where the payload is
/// silent.
pub proof fn law_captured_turn_is_the_payload(
    p: JsonPayload,
    o: AdapterCaptureRunOptions,
    at: CapturePlace,
    now_ns: i64,
)
    ensures
        turn_captured(Ok(p.deep_view()), o.deep_view(), at.deep_view(), now_ns) matches Ok(plan)
            ==> {
            let e = plan.episode;
            &&& e.prompt_text == p.prompt_text.deep_view()
            &&& e.response_text == p.response_text.deep_view()
            &&& e.command == p.command.deep_view()
            &&& e.exit_code == p.exit_code
            &&& e.digest == p.digest.deep_view()
            &&& p.source is Some ==> e.source == p.source->0@
            &&& p.source is None ==> o.source is Some && e.source == o.source->0@
            &&& p.cwd is Some ==> e.cwd == p.cwd.deep_view()
            &&& p.cwd is None && o.cwd is Some ==> e.cwd == o.cwd.deep_view()
            &&& p.project is Some ==> e.project == p.project.deep_view()
            &&& p.project is None && o.project is Some ==> e.project == o.project.deep_view()
            &&& p.session_id is Some ==> e.session_id == p.session_id.deep_view()
            &&& p.session_id is None && o.session_id is Some ==> e.session_id
                == o.session_id.deep_view()
            &&& p.git_branch is Some ==> e.git_branch == p.git_branch.deep_view()
            &&& p.git_branch is None && o.git_branch is Some ==> e.git_branch
                == o.git_branch.deep_view()
            &&& p.ts_start_ns is Some ==> e.ts_start_ns == p.ts_start_ns->0
            &&& p.ts_start_ns is None ==> e.ts_start_ns == now_ns
        },
{
    reveal_strlit("");
}

}
