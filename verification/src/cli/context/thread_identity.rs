//! `soma context thread-identity`: which sessions make up one thread of work.
//!
//! An operator confirms a thread. Sessions are never joined by themselves.
use super::args::{ContextThreadIdentityArgs, ContextThreadIdentityArgsView};
use super::error::{bad, bad_format, ContextError, ContextFault};
use super::reports::{json_text, report_text};
use crate::fingerprint::{fingerprint, stable_content_fingerprint};
use crate::json::{opt_text, Json, JsonView, Members};
use crate::outcome::{borrowed, copy_text, outcome, trim_nonblank, trimmed_nonblank};
use crate::storage::StorageError;
use crate::text::{
    cat3, cat5, chars, is_alnum, listed, nil, none, of_chars, trim, trimmed, with, Phrase,
};
use vstd::prelude::*;
use vstd::string::*;
use vstd::utf8::encode_utf8;

verus! {

/// Which sessions a report looks at, and how close together they must lie.
#[derive(Debug)]
pub struct ThreadIdentityReportInput {
    pub project: Option<String>,
    pub session_id: Option<String>,
    pub limit: usize,
    pub join_window_minutes: i64,
}

/// What a `ThreadIdentityReportInput` holds.
#[verifier::ext_equal]
pub struct ThreadIdentityReportInputView {
    pub project: Option<Seq<char>>,
    pub session_id: Option<Seq<char>>,
    pub limit: usize,
    pub join_window_minutes: i64,
}

impl DeepView for ThreadIdentityReportInput {
    type V = ThreadIdentityReportInputView;

    open spec fn deep_view(&self) -> ThreadIdentityReportInputView {
        ThreadIdentityReportInputView {
            project: self.project.deep_view(),
            session_id: self.session_id.deep_view(),
            limit: self.limit,
            join_window_minutes: self.join_window_minutes,
        }
    }
}

/// A thread that an operator confirms.
#[derive(Debug)]
pub struct ThreadIdentityPlan {
    pub project: String,
    pub sessions: Vec<String>,
    pub confirmed_by: String,
    pub reason: String,
    pub thread_key: String,
    pub allow_cross_session: bool,
}

/// What a `ThreadIdentityPlan` holds.
#[verifier::ext_equal]
pub struct ThreadIdentityPlanView {
    pub project: Seq<char>,
    pub sessions: Seq<Seq<char>>,
    pub confirmed_by: Seq<char>,
    pub reason: Seq<char>,
    pub thread_key: Seq<char>,
    pub allow_cross_session: bool,
}

impl DeepView for ThreadIdentityPlan {
    type V = ThreadIdentityPlanView;

    open spec fn deep_view(&self) -> ThreadIdentityPlanView {
        ThreadIdentityPlanView {
            project: self.project.deep_view(),
            sessions: self.sessions.deep_view(),
            confirmed_by: self.confirmed_by.deep_view(),
            reason: self.reason.deep_view(),
            thread_key: self.thread_key.deep_view(),
            allow_cross_session: self.allow_cross_session,
        }
    }
}

/// An episode and its session.
#[derive(Debug)]
pub struct EpisodeRef {
    pub id: i64,
    pub session_id: Option<String>,
}

/// What an `EpisodeRef` holds.
#[verifier::ext_equal]
pub struct EpisodeRefView {
    pub id: i64,
    pub session_id: Option<Seq<char>>,
}

impl DeepView for EpisodeRef {
    type V = EpisodeRefView;

    open spec fn deep_view(&self) -> EpisodeRefView {
        EpisodeRefView {
            id: self.id,
            session_id: self.session_id.deep_view(),
        }
    }
}

/// A thread as it is to be stored.
#[derive(Debug)]
pub struct ThreadIdentityDraft {
    pub thread_key: String,
    pub project: String,
    pub session_ids: Vec<String>,
    pub evidence_episode_ids: Vec<i64>,
    pub confirmed_by: String,
    pub confirmation_reason: String,
    pub allow_cross_session: bool,
}

/// What a `ThreadIdentityDraft` holds.
#[verifier::ext_equal]
pub struct ThreadIdentityDraftView {
    pub thread_key: Seq<char>,
    pub project: Seq<char>,
    pub session_ids: Seq<Seq<char>>,
    pub evidence_episode_ids: Seq<i64>,
    pub confirmed_by: Seq<char>,
    pub confirmation_reason: Seq<char>,
    pub allow_cross_session: bool,
}

impl DeepView for ThreadIdentityDraft {
    type V = ThreadIdentityDraftView;

    open spec fn deep_view(&self) -> ThreadIdentityDraftView {
        ThreadIdentityDraftView {
            thread_key: self.thread_key.deep_view(),
            project: self.project.deep_view(),
            session_ids: self.session_ids.deep_view(),
            evidence_episode_ids: self.evidence_episode_ids.deep_view(),
            confirmed_by: self.confirmed_by.deep_view(),
            confirmation_reason: self.confirmation_reason.deep_view(),
            allow_cross_session: self.allow_cross_session,
        }
    }
}

/// What a call is to do.
#[derive(Debug)]
pub enum ThreadIdentityRequest {
    /// Report sessions that may belong together.
    Report(ThreadIdentityReportInput),
    /// Confirm a thread.
    Confirm(ThreadIdentityPlan),
    /// List confirmed threads.
    ListConfirmed { project: Option<String>, limit: usize },
}

/// What a `ThreadIdentityRequest` holds.
pub enum ThreadIdentityRequestView {
    Report(ThreadIdentityReportInputView),
    Confirm(ThreadIdentityPlanView),
    ListConfirmed { project: Option<Seq<char>>, limit: usize },
}

impl DeepView for ThreadIdentityRequest {
    type V = ThreadIdentityRequestView;

    open spec fn deep_view(&self) -> ThreadIdentityRequestView {
        match self {
            ThreadIdentityRequest::Report(i) => ThreadIdentityRequestView::Report(i.deep_view()),
            ThreadIdentityRequest::Confirm(p) => ThreadIdentityRequestView::Confirm(p.deep_view()),
            ThreadIdentityRequest::ListConfirmed { project, limit } => {
                ThreadIdentityRequestView::ListConfirmed {
                    project: project.deep_view(),
                    limit: *limit,
                }
            },
        }
    }
}

// ---------------------------------------------------------------------------
// Sessions
// ---------------------------------------------------------------------------

/// The sessions that are named, trimmed. None may be blank, and none may stand twice.
pub open spec fn named_sessions(values: Seq<Seq<char>>) -> Result<Seq<Seq<char>>, ContextFault>
    decreases values.len(),
{
    if values.len() == 0 {
        Ok(nil())
    } else {
        match named_sessions(values.drop_last()) {
            Err(f) => Err(f),
            Ok(front) => {
                let s = trimmed(values.last());
                if s.len() == 0 {
                    bad("--confirm-session values must be non-empty"@)
                } else if front.contains(s) {
                    bad("duplicate --confirm-session `"@ + s + "`"@)
                } else {
                    Ok(front.push(s))
                }
            },
        }
    }
}

/// The sessions of a thread: at least one is named.
pub open spec fn thread_sessions(values: Seq<Seq<char>>) -> Result<Seq<Seq<char>>, ContextFault> {
    match named_sessions(values) {
        Err(f) => Err(f),
        Ok(s) => if s.len() == 0 {
            bad("--confirm requires at least one --confirm-session"@)
        } else {
            Ok(s)
        },
    }
}

/// A list of texts by what it holds.
pub open spec fn texts_outcome(r: Result<Vec<String>, ContextError>) -> Result<
    Seq<Seq<char>>,
    ContextFault,
> {
    match r {
        Ok(v) => Ok(v.deep_view()),
        Err(e) => Err(e.deep_view()),
    }
}

proof fn lemma_fault_stays(values: Seq<Seq<char>>, n: int)
    requires
        0 <= n <= values.len(),
        named_sessions(values.take(n)) is Err,
    ensures
        named_sessions(values) == named_sessions(values.take(n)),
    decreases values.len(),
{
    if n == values.len() {
        assert(values.take(n) =~= values);
    } else {
        assert(values.drop_last().take(n) =~= values.take(n));
        lemma_fault_stays(values.drop_last(), n);
    }
}

pub fn normalize_confirm_sessions(values: &Vec<String>) -> (r: Result<Vec<String>, ContextError>)
    ensures
        texts_outcome(r) == thread_sessions(values.deep_view()),
{
    let ghost all = values.deep_view();
    let mut sessions: Vec<String> = none();
    let mut i: usize = 0;
    assert(all.take(0) =~= nil());
    while i < values.len()
        invariant
            i <= values.len(),
            all == values.deep_view(),
            named_sessions(all.take(i as int)) == Ok::<Seq<Seq<char>>, ContextFault>(
                sessions.deep_view(),
            ),
        decreases values.len() - i,
    {
        assert(all.take(i + 1).drop_last() =~= all.take(i as int));
        assert(all.take(i + 1).last() == values[i as int]@);
        let session = trim(values[i].as_str());
        if session.is_empty() {
            proof {
                lemma_fault_stays(all, i + 1);
            }
            return bad_format("--confirm-session values must be non-empty");
        }
        if listed(&sessions, session) {
            proof {
                lemma_fault_stays(all, i + 1);
            }
            return bad_format(cat3("duplicate --confirm-session `", session, "`").as_str());
        }
        sessions = with(sessions, session.to_string());
        i = i + 1;
    }
    assert(all.take(i as int) =~= all);
    assert(sessions.deep_view().len() == sessions.len());
    if sessions.len() == 0 {
        return bad_format("--confirm requires at least one --confirm-session");
    }
    Ok(sessions)
}

// ---------------------------------------------------------------------------
// Keys
// ---------------------------------------------------------------------------

pub open spec fn key_char(c: char) -> char {
    if is_alnum(c) || c == '-' || c == '_' || c == '.' {
        c
    } else {
        '_'
    }
}

/// A text with `_` for everything but ASCII letters, digits, `-`, `_` and `.`.
pub open spec fn sanitized(value: Seq<char>) -> Seq<char> {
    if value.len() == 0 {
        "unknown"@
    } else {
        value.map_values(|c: char| key_char(c))
    }
}

fn keep_char(c: char) -> (r: char)
    ensures
        r == key_char(c),
{
    if ('a' <= c && c <= 'z') || ('A' <= c && c <= 'Z') || ('0' <= c && c <= '9') || c == '-' || c
        == '_' || c == '.' {
        c
    } else {
        '_'
    }
}

pub fn sanitize_key(value: &str) -> (r: String)
    ensures
        r@ == sanitized(value@),
{
    let cs = chars(value);
    if cs.len() == 0 {
        return "unknown".to_string();
    }
    let mut out: Vec<char> = Vec::new();
    let mut i: usize = 0;
    while i < cs.len()
        invariant
            i <= cs.len(),
            cs@ == value@,
            out@ =~= value@.take(i as int).map_values(|c: char| key_char(c)),
        decreases cs.len() - i,
    {
        out.push(keep_char(cs[i]));
        i = i + 1;
    }
    assert(value@.take(i as int) =~= value@);
    of_chars(&out)
}

/// A project and its sessions, one to a line.
pub open spec fn thread_text(project: Seq<char>, sessions: Seq<Seq<char>>) -> Seq<char>
    decreases sessions.len(),
{
    if sessions.len() == 0 {
        project
    } else {
        thread_text(project, sessions.drop_last()) + seq!['\n'] + sessions.last()
    }
}

/// The key of a thread that is not given one: its project, and a fingerprint of that and
/// its sessions.
pub open spec fn thread_key(project: Seq<char>, sessions: Seq<Seq<char>>) -> Seq<char> {
    "thread:"@ + sanitized(project) + ":"@ + fingerprint(
        encode_utf8(thread_text(project, sessions)),
    )
}

pub fn default_thread_key(project: &str, sessions: &Vec<String>) -> (r: String)
    ensures
        r@ == thread_key(project@, sessions.deep_view()),
{
    let ghost all = sessions.deep_view();
    let mut text = project.to_string();
    let mut i: usize = 0;
    assert(all.take(0) =~= nil());
    while i < sessions.len()
        invariant
            i <= sessions.len(),
            all == sessions.deep_view(),
            text@ == thread_text(project@, all.take(i as int)),
        decreases sessions.len() - i,
    {
        assert(all.take(i + 1).drop_last() =~= all.take(i as int));
        assert(all.take(i + 1).last() == sessions[i as int]@);
        let ghost was = text@;
        text.push('\n');
        text.append(sessions[i].as_str());
        assert(text@ =~= was + seq!['\n'] + sessions[i as int]@);
        i = i + 1;
    }
    assert(all.take(i as int) =~= all);
    Phrase::new("thread:").t(sanitize_key(project).as_str()).t(":").t(
        stable_content_fingerprint(text.as_str().as_bytes()).as_str(),
    ).done()
}

// ---------------------------------------------------------------------------
// The command
// ---------------------------------------------------------------------------

/// What an operator confirms.
pub open spec fn confirmation(args: ContextThreadIdentityArgsView) -> Result<
    ThreadIdentityPlanView,
    ContextFault,
> {
    match trimmed_nonblank(args.project) {
        None => bad("--project is required when confirming thread identity"@),
        Some(project) => match thread_sessions(args.confirm_sessions) {
            Err(f) => Err(f),
            Ok(sessions) => if sessions.len() > 1 && !args.confirm_cross_session {
                bad("confirming more than one session requires --confirm-cross-session"@)
            } else {
                match trimmed_nonblank(args.confirmation_reason) {
                    None => bad(
                        "--confirmation-reason is required when confirming thread identity"@,
                    ),
                    Some(reason) => if trimmed(args.confirmed_by).len() == 0 {
                        bad("--confirmed-by must be non-empty when confirming thread identity"@)
                    } else {
                        Ok(
                            ThreadIdentityPlanView {
                                project,
                                sessions,
                                confirmed_by: trimmed(args.confirmed_by),
                                reason,
                                thread_key: match args.thread_key {
                                    Some(k) => k,
                                    None => thread_key(project, sessions),
                                },
                                allow_cross_session: args.confirm_cross_session,
                            },
                        )
                    },
                }
            },
        },
    }
}

pub fn run_thread_identity_confirm(args: &ContextThreadIdentityArgs) -> (r: Result<
    ThreadIdentityPlan,
    ContextError,
>)
    ensures
        outcome(r) == confirmation(args.deep_view()),
{
    let project = match trim_nonblank(borrowed(&args.project)) {
        None => return bad_format("--project is required when confirming thread identity"),
        Some(p) => p,
    };
    let sessions = match normalize_confirm_sessions(&args.confirm_sessions) {
        Err(e) => return Err(e),
        Ok(s) => s,
    };
    assert(sessions.deep_view().len() == sessions.len());
    if sessions.len() > 1 && !args.confirm_cross_session {
        return bad_format("confirming more than one session requires --confirm-cross-session");
    }
    let reason = match trim_nonblank(borrowed(&args.confirmation_reason)) {
        None => return bad_format(
            "--confirmation-reason is required when confirming thread identity",
        ),
        Some(r) => r,
    };
    let confirmed_by = trim(args.confirmed_by.as_str());
    if confirmed_by.is_empty() {
        return bad_format("--confirmed-by must be non-empty when confirming thread identity");
    }
    let thread_key = match &args.thread_key {
        Some(k) => k.clone(),
        None => default_thread_key(project, &sessions),
    };
    Ok(
        ThreadIdentityPlan {
            project: project.to_string(),
            sessions,
            confirmed_by: confirmed_by.to_string(),
            reason: reason.to_string(),
            thread_key,
            allow_cross_session: args.confirm_cross_session,
        },
    )
}

pub open spec fn identity_request(args: ContextThreadIdentityArgsView) -> Result<
    ThreadIdentityRequestView,
    ContextFault,
> {
    if args.join_window_minutes < 1 {
        bad("join_window_minutes must be at least 1"@)
    } else if args.confirm && args.list_confirmed {
        bad("--confirm and --list-confirmed are mutually exclusive"@)
    } else if args.confirm {
        match confirmation(args) {
            Err(f) => Err(f),
            Ok(p) => Ok(ThreadIdentityRequestView::Confirm(p)),
        }
    } else if args.list_confirmed {
        Ok(
            ThreadIdentityRequestView::ListConfirmed { project: args.project, limit: args.limit },
        )
    } else {
        Ok(
            ThreadIdentityRequestView::Report(
                ThreadIdentityReportInputView {
                    project: args.project,
                    session_id: args.session_id,
                    limit: args.limit,
                    join_window_minutes: args.join_window_minutes,
                },
            ),
        )
    }
}

pub fn run_thread_identity(args: &ContextThreadIdentityArgs) -> (r: Result<
    ThreadIdentityRequest,
    ContextError,
>)
    ensures
        outcome(r) == identity_request(args.deep_view()),
{
    if args.join_window_minutes < 1 {
        return bad_format("join_window_minutes must be at least 1");
    }
    if args.confirm && args.list_confirmed {
        return bad_format("--confirm and --list-confirmed are mutually exclusive");
    }
    if args.confirm {
        return match run_thread_identity_confirm(args) {
            Err(e) => Err(e),
            Ok(p) => Ok(ThreadIdentityRequest::Confirm(p)),
        };
    }
    if args.list_confirmed {
        return Ok(
            ThreadIdentityRequest::ListConfirmed {
                project: copy_text(&args.project),
                limit: args.limit,
            },
        );
    }
    Ok(
        ThreadIdentityRequest::Report(
            ThreadIdentityReportInput {
                project: copy_text(&args.project),
                session_id: copy_text(&args.session_id),
                limit: args.limit,
                join_window_minutes: args.join_window_minutes,
            },
        ),
    )
}

/// What is wrong with the first session that has live episodes in another project, or that
/// could not be looked up.
pub open spec fn outside_fault(
    project: Seq<char>,
    sessions: Seq<Seq<char>>,
    outside: Seq<Result<bool, Seq<char>>>,
) -> Option<ContextFault>
    decreases sessions.len(),
{
    if sessions.len() == 0 || outside.len() == 0 {
        None
    } else {
        match outside[0] {
            Err(e) => Some(ContextFault::Storage(e)),
            Ok(true) => Some(
                ContextFault::BadFormat(
                    "session `"@ + sessions[0] + "` has live episodes outside project `"@ + project
                        + "`; resolve ambiguity before confirming a durable thread identity"@,
                ),
            ),
            Ok(false) => outside_fault(project, sessions.skip(1), outside.skip(1)),
        }
    }
}

/// An episode of this session is among those that were found.
pub open spec fn session_found(episodes: Seq<EpisodeRefView>, session: Seq<char>) -> bool {
    exists|i: int|
        0 <= i < episodes.len() && (#[trigger] episodes[i]).session_id == Some(session)
}

/// The first session without a live episode in the project.
pub open spec fn missing_session(sessions: Seq<Seq<char>>, episodes: Seq<EpisodeRefView>) -> Option<
    Seq<char>,
>
    decreases sessions.len(),
{
    if sessions.len() == 0 {
        None
    } else if !session_found(episodes, sessions[0]) {
        Some(sessions[0])
    } else {
        missing_session(sessions.skip(1), episodes)
    }
}

/// The thread that is stored, where every session belongs to the project alone and has
/// episodes there.
pub open spec fn confirmed_draft(
    plan: ThreadIdentityPlanView,
    outside: Seq<Result<bool, Seq<char>>>,
    episodes: Result<Seq<EpisodeRefView>, Seq<char>>,
) -> Result<ThreadIdentityDraftView, ContextFault> {
    match outside_fault(plan.project, plan.sessions, outside) {
        Some(f) => Err(f),
        None => match episodes {
            Err(e) => Err(ContextFault::Storage(e)),
            Ok(found) => match missing_session(plan.sessions, found) {
                Some(s) => bad(
                    "session `"@ + s + "` has no live episodes in project `"@ + plan.project + "`"@,
                ),
                None => Ok(
                    ThreadIdentityDraftView {
                        thread_key: plan.thread_key,
                        project: plan.project,
                        session_ids: plan.sessions,
                        evidence_episode_ids: Seq::new(found.len(), |i: int| found[i].id),
                        confirmed_by: plan.confirmed_by,
                        confirmation_reason: plan.reason,
                        allow_cross_session: plan.allow_cross_session,
                    },
                ),
            },
        },
    }
}

fn has_session(episodes: &Vec<EpisodeRef>, session: &str) -> (r: bool)
    ensures
        r == session_found(episodes.deep_view(), session@),
{
    let ghost all = episodes.deep_view();
    let mut i: usize = 0;
    while i < episodes.len()
        invariant
            i <= episodes.len(),
            all == episodes.deep_view(),
            forall|k: int| 0 <= k < i ==> (#[trigger] all[k]).session_id != Some(session@),
        decreases episodes.len() - i,
    {
        assert(all[i as int] == episodes[i as int].deep_view());
        match &episodes[i].session_id {
            Some(s) => {
                if crate::text::same(s.as_str(), session) {
                    assert(all[i as int].session_id == Some(session@));
                    return true;
                }
            },
            None => {},
        }
        i = i + 1;
    }
    assert(all.len() == episodes.len());
    false
}

/// What the store said of each session.
pub open spec fn lookups(outside: Seq<Result<bool, StorageError>>) -> Seq<Result<bool, Seq<char>>> {
    Seq::new(
        outside.len(),
        |i: int|
            match outside[i] {
                Ok(b) => Ok(b),
                Err(e) => Err(e.message@),
            },
    )
}

/// Episodes by what they hold.
pub open spec fn episodes_told(r: Result<Vec<EpisodeRef>, StorageError>) -> Result<
    Seq<EpisodeRefView>,
    Seq<char>,
> {
    match r {
        Ok(v) => Ok(v.deep_view()),
        Err(e) => Err(e.message@),
    }
}

/// The thread that is to be stored. `outside` tells of each session whether it has live
/// episodes in another project, `episodes` are the live ones in this.
pub fn confirm_thread(
    plan: ThreadIdentityPlan,
    outside: &Vec<Result<bool, StorageError>>,
    episodes: &Result<Vec<EpisodeRef>, StorageError>,
) -> (r: Result<ThreadIdentityDraft, ContextError>)
    requires
        outside.len() == plan.sessions.len(),
    ensures
        outcome(r) == confirmed_draft(plan.deep_view(), lookups(outside@),
            episodes_told(*episodes)),
{
    let ghost sessions = plan.sessions.deep_view();
    let ghost seen = lookups(outside@);
    let ghost whole = plan.deep_view();
    let ghost told = episodes_told(*episodes);
    let mut i: usize = 0;
    assert(sessions.skip(0) =~= sessions);
    assert(seen.skip(0) =~= seen);
    while i < plan.sessions.len()
        invariant
            i <= plan.sessions.len(),
            outside.len() == plan.sessions.len(),
            sessions == plan.sessions.deep_view(),
            seen == lookups(outside@),
            outside_fault(plan.project@, sessions, seen) == outside_fault(
                plan.project@,
                sessions.skip(i as int),
                seen.skip(i as int),
            ),
            whole == plan.deep_view(),
            whole.sessions == sessions,
            whole.project == plan.project@,
            told == episodes_told(*episodes),
        decreases plan.sessions.len() - i,
    {
        assert(sessions.skip(i as int)[0] == plan.sessions[i as int]@);
        assert(seen.skip(i as int)[0] == seen[i as int]);
        assert(sessions.skip(i as int).skip(1) =~= sessions.skip(i + 1));
        assert(seen.skip(i as int).skip(1) =~= seen.skip(i + 1));
        match &outside[i] {
            Err(e) => {
                return Err(
                    ContextError::Storage(StorageError { message: e.message.clone() }),
                );
            },
            Ok(elsewhere) => {
                if *elsewhere {
                    return bad_format(
                        cat5(
                            "session `",
                            plan.sessions[i].as_str(),
                            "` has live episodes outside project `",
                            plan.project.as_str(),
                            "`; resolve ambiguity before confirming a durable thread identity",
                        ).as_str(),
                    );
                }
            },
        }
        i = i + 1;
    }
    assert(sessions.len() == plan.sessions.len());
    let live = match episodes {
        Err(e) => return Err(ContextError::Storage(StorageError { message: e.message.clone() })),
        Ok(v) => v,
    };
    let ghost found = live.deep_view();
    let mut i: usize = 0;
    while i < plan.sessions.len()
        invariant
            i <= plan.sessions.len(),
            sessions == plan.sessions.deep_view(),
            found == live.deep_view(),
            missing_session(sessions, found) == missing_session(sessions.skip(i as int), found),
            outside_fault(plan.project@, sessions, seen) is None,
            seen == lookups(outside@),
            whole == plan.deep_view(),
            whole.sessions == sessions,
            whole.project == plan.project@,
            told == Ok::<Seq<EpisodeRefView>, Seq<char>>(found),
            told == episodes_told(*episodes),
        decreases plan.sessions.len() - i,
    {
        assert(sessions.skip(i as int)[0] == plan.sessions[i as int]@);
        assert(sessions.skip(i as int).skip(1) =~= sessions.skip(i + 1));
        if !has_session(live, plan.sessions[i].as_str()) {
            return bad_format(
                cat5(
                    "session `",
                    plan.sessions[i].as_str(),
                    "` has no live episodes in project `",
                    plan.project.as_str(),
                    "`",
                ).as_str(),
            );
        }
        i = i + 1;
    }
    let mut ids: Vec<i64> = none();
    let mut i: usize = 0;
    while i < live.len()
        invariant
            i <= live.len(),
            found == live.deep_view(),
            ids.deep_view() =~= Seq::new(i as nat, |k: int| found[k].id),
        decreases live.len() - i,
    {
        assert(found[i as int] == live[i as int].deep_view());
        ids = with(ids, live[i].id);
        i = i + 1;
    }
    assert(found.len() == live.len());
    Ok(
        ThreadIdentityDraft {
            thread_key: plan.thread_key,
            project: plan.project,
            session_ids: plan.sessions,
            evidence_episode_ids: ids,
            confirmed_by: plan.confirmed_by,
            confirmation_reason: plan.reason,
            allow_cross_session: plan.allow_cross_session,
        },
    )
}

pub const THREAD_NOTE: &'static str =
    "Only operator-confirmed thread identities are exposed as concrete soma://context/thread/<thread_key> resources; this still does not auto-merge future sessions or verify/promote claims.";

/// What a confirmed thread does and does not allow.
pub open spec fn thread_boundary() -> JsonView {
    JsonView::Object(
        Seq::empty().push(("operator_confirmation_required"@, JsonView::Bool(true))).push(
            ("persistent_thread_ids_created"@, JsonView::Bool(true)),
        ).push(("context_thread_resource_enabled"@, JsonView::Bool(true))).push(
            ("automatic_cross_session_merge_allowed"@, JsonView::Bool(false)),
        ).push(("promotion_or_claim_verification_allowed"@, JsonView::Bool(false))).push(
            ("note"@, JsonView::Text(THREAD_NOTE@)),
        ),
    )
}

pub fn thread_identity_trust_boundary_json() -> (r: Json)
    ensures
        r@ == thread_boundary(),
{
    Members::new().flag("operator_confirmation_required", true).flag(
        "persistent_thread_ids_created",
        true,
    ).flag("context_thread_resource_enabled", true).flag(
        "automatic_cross_session_merge_allowed",
        false,
    ).flag("promotion_or_claim_verification_allowed", false).text("note", THREAD_NOTE).done()
}

/// What is told of confirmed threads.
pub open spec fn confirmed_list(
    project: Option<Seq<char>>,
    limit: usize,
    identities: JsonView,
) -> JsonView {
    JsonView::Object(
        Seq::empty().push(
            ("kind"@, JsonView::Text("context_thread_identity_confirmed_list"@)),
        ).push(("status"@, JsonView::Text("read_only"@))).push(
            (
                "scope"@,
                JsonView::Object(
                    Seq::empty().push(("project"@, opt_text(project))).push(
                        ("limit"@, JsonView::Int(limit as int)),
                    ),
                ),
            ),
        ).push(("thread_identities"@, identities)).push(("trust_boundary"@, thread_boundary())),
    )
}

pub fn run_thread_identity_list_confirmed(
    project: Option<&str>,
    limit: usize,
    identities: Json,
) -> (r: String)
    ensures
        r@ == report_text(confirmed_list(project.deep_view(), limit, identities@)),
{
    let scope = Members::new().opt_text("project", project).integer("limit", limit as i128);
    json_text(
        &Members::new().text("kind", "context_thread_identity_confirmed_list").text(
            "status",
            "read_only",
        ).object("scope", scope).put("thread_identities", identities).put(
            "trust_boundary",
            thread_identity_trust_boundary_json(),
        ).done(),
    )
}

/// What is told of a thread that was confirmed.
pub open spec fn confirmation_report(
    project: Seq<char>,
    stored: JsonView,
    sessions: nat,
    episodes: nat,
) -> JsonView {
    JsonView::Object(
        Seq::empty().push(
            ("kind"@, JsonView::Text("context_thread_identity_confirmation"@)),
        ).push(("status"@, JsonView::Text("operator_confirmed"@))).push(
            ("thread_identity"@, stored),
        ).push(
            (
                "source"@,
                JsonView::Object(
                    Seq::empty().push(("project"@, JsonView::Text(project))).push(
                        ("session_count"@, JsonView::Int(sessions as int)),
                    ).push(("evidence_episode_count"@, JsonView::Int(episodes as int))),
                ),
            ),
        ).push(("trust_boundary"@, thread_boundary())),
    )
}

/// Tells of a thread that was confirmed. The store gave back how many sessions and how
/// many episodes it kept of it.
pub fn thread_confirmed(
    project: &str,
    stored: Json,
    sessions: usize,
    episodes: usize,
) -> (r: String)
    ensures
        r@ == report_text(
            confirmation_report(project@, stored@, sessions as nat, episodes as nat),
        ),
{
    let source = Members::new().text("project", project).integer(
        "session_count",
        sessions as i128,
    ).integer("evidence_episode_count", episodes as i128);
    json_text(
        &Members::new().text("kind", "context_thread_identity_confirmation").text(
            "status",
            "operator_confirmed",
        ).put("thread_identity", stored).object("source", source).put(
            "trust_boundary",
            thread_identity_trust_boundary_json(),
        ).done(),
    )
}

// ---------------------------------------------------------------------------
// Laws
// ---------------------------------------------------------------------------

proof fn lemma_sessions(values: Seq<Seq<char>>)
    ensures
        named_sessions(values) matches Ok(s) ==> {
            &&& s.len() == values.len()
            &&& s.no_duplicates()
            &&& forall|i: int| 0 <= i < s.len() ==> #[trigger] s[i] == trimmed(values[i])
                && s[i].len() > 0
        },
    decreases values.len(),
{
    if values.len() > 0 {
        lemma_sessions(values.drop_last());
    }
}

/// The sessions of a thread are those that were named, trimmed, in their order; none is
/// blank, and none stands twice.
pub proof fn law_sessions_are_distinct(values: Seq<Seq<char>>)
    ensures
        thread_sessions(values) matches Ok(s) ==> {
            &&& s.len() == values.len()
            &&& s.len() > 0
            &&& s.no_duplicates()
            &&& forall|i: int| 0 <= i < s.len() ==> #[trigger] s[i] == trimmed(values[i])
                && s[i].len() > 0
        },
{
    lemma_sessions(values);
}

/// Sessions are joined only where the operator says so: a thread of more than one session
/// carries that permission, and every thread names who confirmed it and why.
pub proof fn law_joining_needs_permission(args: ContextThreadIdentityArgsView)
    ensures
        confirmation(args) matches Ok(plan) ==> {
            &&& plan.sessions.len() > 1 ==> plan.allow_cross_session
            &&& plan.reason.len() > 0
            &&& plan.confirmed_by.len() > 0
            &&& plan.project.len() > 0
        },
{
}

proof fn lemma_none_missing(sessions: Seq<Seq<char>>, episodes: Seq<EpisodeRefView>)
    requires
        missing_session(sessions, episodes) is None,
    ensures
        forall|i: int| 0 <= i < sessions.len() ==> session_found(episodes, #[trigger] sessions[i]),
    decreases sessions.len(),
{
    if sessions.len() > 0 {
        lemma_none_missing(sessions.skip(1), episodes);
        assert forall|i: int| 0 <= i < sessions.len() implies session_found(
            episodes,
            #[trigger] sessions[i],
        ) by {
            if i > 0 {
                assert(sessions[i] == sessions.skip(1)[i - 1]);
            }
        }
    }
}

proof fn lemma_none_outside(
    project: Seq<char>,
    sessions: Seq<Seq<char>>,
    outside: Seq<Result<bool, Seq<char>>>,
)
    requires
        outside.len() == sessions.len(),
        outside_fault(project, sessions, outside) is None,
    ensures
        forall|i: int|
            0 <= i < outside.len() ==> #[trigger] outside[i] == Ok::<bool, Seq<char>>(false),
    decreases sessions.len(),
{
    if sessions.len() > 0 {
        lemma_none_outside(project, sessions.skip(1), outside.skip(1));
        assert forall|i: int| 0 <= i < outside.len() implies #[trigger] outside[i] == Ok::<
            bool,
            Seq<char>,
        >(false) by {
            if i > 0 {
                assert(outside[i] == outside.skip(1)[i - 1]);
            }
        }
    }
}

/// A thread is stored only where each of its sessions has live episodes in the project and
/// none elsewhere. All episodes that were found stand as its evidence.
pub proof fn law_confirmed_threads_are_grounded(
    plan: ThreadIdentityPlanView,
    outside: Seq<Result<bool, Seq<char>>>,
    episodes: Result<Seq<EpisodeRefView>, Seq<char>>,
)
    requires
        outside.len() == plan.sessions.len(),
    ensures
        confirmed_draft(plan, outside, episodes) matches Ok(draft) ==> {
            &&& draft.session_ids == plan.sessions
            &&& draft.evidence_episode_ids.len() == episodes->Ok_0.len()
            &&& forall|i: int|
                0 <= i < plan.sessions.len() ==> session_found(
                    episodes->Ok_0,
                    #[trigger] plan.sessions[i],
                )
            &&& forall|i: int|
                0 <= i < outside.len() ==> #[trigger] outside[i] == Ok::<bool, Seq<char>>(false)
        },
{
    if confirmed_draft(plan, outside, episodes) is Ok {
        lemma_none_missing(plan.sessions, episodes->Ok_0);
        lemma_none_outside(plan.project, plan.sessions, outside);
    }
}

/// Threads are asked for as the flags say: confirmed, listed or reported, each with the
/// flags of its own. A join window lasts at least a minute.
pub proof fn law_threads_are_asked_for_by_flags(args: ContextThreadIdentityArgs)
    ensures
        identity_request(args.deep_view()) matches Ok(q) ==> {
            &&& args.join_window_minutes >= 1
            &&& !(args.confirm && args.list_confirmed)
            &&& args.confirm <==> q is Confirm
            &&& args.list_confirmed <==> q is ListConfirmed
            &&& q matches ThreadIdentityRequestView::ListConfirmed { project, limit } ==> project
                == args.project.deep_view() && limit == args.limit
            &&& q matches ThreadIdentityRequestView::Report(r) ==> r.project
                == args.project.deep_view() && r.session_id == args.session_id.deep_view()
                && r.limit == args.limit && r.join_window_minutes == args.join_window_minutes
        },
        args.join_window_minutes >= 1 && !args.confirm ==> identity_request(args.deep_view()) is Ok,
{
}

/// A thread is confirmed for the project, the sessions, the person and the reason that the
/// flags give, each trimmed and none of them blank; its key is the given one, or else made
/// of the project and the sessions. More than one session needs permission.
pub proof fn law_confirmation_is_what_the_flags_say(args: ContextThreadIdentityArgs)
    ensures
        confirmation(args.deep_view()) matches Ok(p) ==> {
            &&& args.project is Some && p.project == trimmed(args.project->0@)
            &&& p.project.len() > 0
            &&& args.confirmation_reason is Some && p.reason == trimmed(
                args.confirmation_reason->0@,
            )
            &&& p.reason.len() > 0
            &&& p.confirmed_by == trimmed(args.confirmed_by@)
            &&& p.confirmed_by.len() > 0
            &&& p.sessions.len() == args.confirm_sessions@.len()
            &&& p.sessions.len() > 0
            &&& forall|i: int|
                0 <= i < p.sessions.len() ==> (#[trigger] p.sessions[i]) == trimmed(
                    args.confirm_sessions@[i]@,
                ) && p.sessions[i].len() > 0
            &&& p.sessions.len() > 1 ==> args.confirm_cross_session
            &&& p.allow_cross_session == args.confirm_cross_session
            &&& args.thread_key matches Some(k) ==> p.thread_key == k@
            &&& args.thread_key is None ==> p.thread_key == thread_key(p.project, p.sessions)
        },
{
    let values = args.confirm_sessions.deep_view();
    assert(values.len() == args.confirm_sessions@.len());
    law_sessions_are_distinct(values);
    assert forall|i: int| 0 <= i < values.len() implies #[trigger] values[i]
        == args.confirm_sessions@[i]@ by {}
}

/// A key is made of the project, in which every character but letters, digits and `-`, `_`
/// and `.` becomes an underscore, and of a fingerprint of the project with its sessions.
pub proof fn law_keys_are_made_of_project_and_sessions(
    project: Seq<char>,
    sessions: Seq<Seq<char>>,
    next: Seq<char>,
    i: int,
)
    requires
        0 <= i < project.len(),
    ensures
        thread_key(project, sessions) == "thread:"@ + sanitized(project) + ":"@ + fingerprint(
            encode_utf8(thread_text(project, sessions)),
        ),
        thread_text(project, Seq::empty()) == project,
        thread_text(project, sessions.push(next)) == thread_text(project, sessions) + seq!['\n']
            + next,
        sanitized(project).len() == project.len(),
        ({
            let c = project[i];
            let kept = ('a' <= c && c <= 'z') || ('A' <= c && c <= 'Z') || ('0' <= c && c <= '9')
                || c == '-' || c == '_' || c == '.';
            sanitized(project)[i] == (if kept {
                c
            } else {
                '_'
            })
        }),
        sanitized(Seq::empty()) == "unknown"@,
{
    assert(sessions.push(next).drop_last() =~= sessions);
}

/// What is stored of a confirmed thread is its plan, with every episode that was found as
/// its evidence. A session that also has episodes elsewhere, or that has none in the
/// project, is refused.
pub proof fn law_stored_threads_are_their_plan(
    plan: ThreadIdentityPlan,
    outside: Seq<Result<bool, Seq<char>>>,
    found: Seq<EpisodeRefView>,
)
    ensures
        confirmed_draft(plan.deep_view(), outside, Ok(found)) matches Ok(d) ==> {
            &&& d.thread_key == plan.thread_key@
            &&& d.project == plan.project@
            &&& d.session_ids == plan.sessions.deep_view()
            &&& d.confirmed_by == plan.confirmed_by@
            &&& d.confirmation_reason == plan.reason@
            &&& d.allow_cross_session == plan.allow_cross_session
            &&& d.evidence_episode_ids.len() == found.len()
            &&& forall|i: int|
                0 <= i < found.len() ==> (#[trigger] d.evidence_episode_ids[i]) == found[i].id
        },
        plan.sessions@.len() > 0 && outside.len() > 0 && outside[0] == Ok::<bool, Seq<char>>(true)
            ==> confirmed_draft(plan.deep_view(), outside, Ok(found)) is Err,
        plan.sessions@.len() > 0 && found.len() == 0 ==> confirmed_draft(
            plan.deep_view(),
            outside,
            Ok(found),
        ) is Err,
{
    assert(plan.sessions.deep_view().len() == plan.sessions@.len());
}

}
