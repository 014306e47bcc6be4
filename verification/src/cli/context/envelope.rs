//! How the envelope for a cloud model is put together.
//!
//! The flags and a task frame say what it is for. Then the store is read, every time for
//! the same project and session, and the parts are attached in a fixed order: corrections
//! override memories that were appended before, and what the local compiler notes comes
//! last.
use super::args::{EnvelopeArgs, EnvelopeArgsView};
use super::error::{bad, bad_format, ContextError, ContextFault};
use super::reports::{missing_frame, no_frame};
use crate::dup::Dup;
use crate::json::{as_text, get, Json, JsonView};
use crate::number::decimal_int;
use crate::outcome::{
    copy_text, first, first_text, outcome, owned, trim_nonblank, trimmed_nonblank, verdict,
};
use crate::storage::StorageError;
use crate::text::{nil, none, same, with, Phrase};
use vstd::prelude::*;
use vstd::string::*;

verus! {

/// What an envelope takes from a task frame.
#[derive(Debug)]
pub struct TaskFrameScope {
    pub project: Option<String>,
    pub session_id: Option<String>,
    pub cloud_redacted_json: Json,
}

/// What a `TaskFrameScope` holds.
#[verifier::ext_equal]
pub struct TaskFrameScopeView {
    pub project: Option<Seq<char>>,
    pub session_id: Option<Seq<char>>,
    pub cloud_redacted_json: JsonView,
}

impl DeepView for TaskFrameScope {
    type V = TaskFrameScopeView;

    open spec fn deep_view(&self) -> TaskFrameScopeView {
        TaskFrameScopeView {
            project: self.project.deep_view(),
            session_id: self.session_id.deep_view(),
            cloud_redacted_json: self.cloud_redacted_json.deep_view(),
        }
    }
}

/// What an envelope is for. The project is inferred where neither it nor a session is known.
#[derive(Debug)]
pub struct EnvelopeRequest {
    pub query: Option<String>,
    pub project: Option<String>,
    pub session_id: Option<String>,
    pub infer_project: bool,
    pub has_frame: bool,
    pub local_compiler: bool,
}

/// What an `EnvelopeRequest` holds.
#[verifier::ext_equal]
pub struct EnvelopeRequestView {
    pub query: Option<Seq<char>>,
    pub project: Option<Seq<char>>,
    pub session_id: Option<Seq<char>>,
    pub infer_project: bool,
    pub has_frame: bool,
    pub local_compiler: bool,
}

impl DeepView for EnvelopeRequest {
    type V = EnvelopeRequestView;

    open spec fn deep_view(&self) -> EnvelopeRequestView {
        EnvelopeRequestView {
            query: self.query.deep_view(),
            project: self.project.deep_view(),
            session_id: self.session_id.deep_view(),
            infer_project: self.infer_project,
            has_frame: self.has_frame,
            local_compiler: self.local_compiler,
        }
    }
}

/// A correction: the claim that it makes stale, and the section that tells of it.
#[derive(Debug)]
pub struct CorrectionSignal {
    pub stale_claim: Option<String>,
    pub section: Json,
}

/// What a `CorrectionSignal` holds.
#[verifier::ext_equal]
pub struct CorrectionSignalView {
    pub stale_claim: Option<Seq<char>>,
    pub section: JsonView,
}

impl DeepView for CorrectionSignal {
    type V = CorrectionSignalView;

    open spec fn deep_view(&self) -> CorrectionSignalView {
        CorrectionSignalView {
            stale_claim: self.stale_claim.deep_view(),
            section: self.section.deep_view(),
        }
    }
}

impl Dup for CorrectionSignal {
    fn dup(&self) -> (r: Self) {
        CorrectionSignal { stale_claim: self.stale_claim.dup(), section: self.section.dup() }
    }
}

/// A frame of another project or session than the flags name is refused.
pub open spec fn frame_fits(
    id: i64,
    project: Option<Seq<char>>,
    session_id: Option<Seq<char>>,
    frame: TaskFrameScopeView,
) -> Result<(), ContextFault> {
    if project is Some && frame.project is Some && project != frame.project {
        bad(
            "TaskFrame "@ + decimal_int(id as int) + " project `"@ + frame.project->0
                + "` does not match requested project `"@ + project->0 + "`"@,
        )
    } else if session_id is Some && frame.session_id is Some && session_id != frame.session_id {
        bad(
            "TaskFrame "@ + decimal_int(id as int) + " session `"@ + frame.session_id->0
                + "` does not match requested session `"@ + session_id->0 + "`"@,
        )
    } else {
        Ok(())
    }
}

pub fn validate_task_frame_scope(
    task_frame_id: i64,
    project: &Option<String>,
    session_id: &Option<String>,
    task_frame: &TaskFrameScope,
) -> (r: Result<(), ContextError>)
    ensures
        verdict(r) == frame_fits(
            task_frame_id,
            project.deep_view(),
            session_id.deep_view(),
            task_frame.deep_view(),
        ),
{
    if let (Some(asked), Some(framed)) = (project, &task_frame.project) {
        if !same(asked.as_str(), framed.as_str()) {
            return bad_format(
                Phrase::new("TaskFrame ").i(task_frame_id).t(" project `").t(framed.as_str()).t(
                    "` does not match requested project `",
                ).t(asked.as_str()).t("`").done().as_str(),
            );
        }
    }
    if let (Some(asked), Some(framed)) = (session_id, &task_frame.session_id) {
        if !same(asked.as_str(), framed.as_str()) {
            return bad_format(
                Phrase::new("TaskFrame ").i(task_frame_id).t(" session `").t(framed.as_str()).t(
                    "` does not match requested session `",
                ).t(asked.as_str()).t("`").done().as_str(),
            );
        }
    }
    Ok(())
}

/// What a frame asks for: its goal, as far as a cloud model may see it.
pub open spec fn frame_query(frame: TaskFrameScopeView) -> Option<Seq<char>> {
    trimmed_nonblank(as_text(get(frame.cloud_redacted_json, "goal_state"@)))
}

pub fn task_frame_projected_query(task_frame: &TaskFrameScope) -> (r: Option<String>)
    ensures
        r.deep_view() == frame_query(task_frame.deep_view()),
{
    owned(trim_nonblank(task_frame.cloud_redacted_json.get_text("goal_state")))
}

/// What the flags say, and what a frame adds to it.
pub open spec fn request_of(
    args: EnvelopeArgsView,
    frame: Option<TaskFrameScopeView>,
) -> EnvelopeRequestView {
    let project = match frame {
        Some(f) => first(args.project, f.project),
        None => args.project,
    };
    let session_id = match frame {
        Some(f) => first(args.session_id, f.session_id),
        None => args.session_id,
    };
    EnvelopeRequestView {
        query: match frame {
            Some(f) => first(args.query, frame_query(f)),
            None => args.query,
        },
        project,
        session_id,
        infer_project: project is None && session_id is None,
        has_frame: frame is Some,
        local_compiler: args.local_compiler,
    }
}

/// What an envelope is for. Where the flags name a task frame, it must be there and fit.
pub open spec fn envelope_request(
    args: EnvelopeArgsView,
    frame: Result<Option<TaskFrameScopeView>, Seq<char>>,
) -> Result<EnvelopeRequestView, ContextFault> {
    match args.task_frame_id {
        None => Ok(request_of(args, None)),
        Some(id) => match frame {
            Err(e) => Err(ContextFault::Storage(e)),
            Ok(None) => Err(no_frame(id)),
            Ok(Some(f)) => match frame_fits(id, args.project, args.session_id, f) {
                Err(fault) => Err(fault),
                Ok(_) => Ok(request_of(args, Some(f))),
            },
        },
    }
}

/// A frame by what it holds.
pub open spec fn frame_told(r: Result<Option<TaskFrameScope>, StorageError>) -> Result<
    Option<TaskFrameScopeView>,
    Seq<char>,
> {
    match r {
        Ok(f) => Ok(f.deep_view()),
        Err(e) => Err(e.message@),
    }
}

/// Begins an envelope. `frame` is what the store gave of the task frame in the flags; it
/// is looked at only where they name one.
pub fn begin_envelope(
    args: &EnvelopeArgs,
    frame: Result<Option<TaskFrameScope>, StorageError>,
) -> (r: Result<EnvelopeRequest, ContextError>)
    ensures
        outcome(r) == envelope_request(args.deep_view(), frame_told(frame)),
{
    let task_frame = match args.task_frame_id {
        None => None,
        Some(id) => match frame {
            Err(e) => return Err(ContextError::Storage(e)),
            Ok(None) => return Err(missing_frame(id)),
            Ok(Some(f)) => {
                match validate_task_frame_scope(id, &args.project, &args.session_id, &f) {
                    Err(e) => return Err(e),
                    Ok(_) => {},
                }
                Some(f)
            },
        },
    };
    let (query, project, session_id) = match &task_frame {
        None => (copy_text(&args.query), copy_text(&args.project), copy_text(&args.session_id)),
        Some(f) => (
            match &args.query {
                Some(q) => Some(q.clone()),
                None => task_frame_projected_query(f),
            },
            first_text(&args.project, &f.project),
            first_text(&args.session_id, &f.session_id),
        ),
    };
    let infer_project = project.is_none() && session_id.is_none();
    Ok(
        EnvelopeRequest {
            query,
            project,
            session_id,
            infer_project,
            has_frame: task_frame.is_some(),
            local_compiler: args.local_compiler,
        },
    )
}

/// What an envelope covers.
#[derive(Debug)]
pub enum ContextScope {
    Session { session_id: String, in_project: Option<String>, query: Option<String> },
    Project { project: String, query: Option<String> },
    Current { query: Option<String> },
}

/// What a `ContextScope` holds.
pub enum ContextScopeView {
    Session { session_id: Seq<char>, in_project: Option<Seq<char>>, query: Option<Seq<char>> },
    Project { project: Seq<char>, query: Option<Seq<char>> },
    Current { query: Option<Seq<char>> },
}

impl DeepView for ContextScope {
    type V = ContextScopeView;

    open spec fn deep_view(&self) -> ContextScopeView {
        match self {
            ContextScope::Session { session_id, in_project, query } => ContextScopeView::Session {
                session_id: session_id@,
                in_project: in_project.deep_view(),
                query: query.deep_view(),
            },
            ContextScope::Project { project, query } => ContextScopeView::Project {
                project: project@,
                query: query.deep_view(),
            },
            ContextScope::Current { query } => ContextScopeView::Current {
                query: query.deep_view(),
            },
        }
    }
}

/// What is read from the store, in this order. Open decisions and the user's policy are
/// read with the corrections in hand.
#[derive(Debug, Clone, Copy, PartialEq, Eq, Structural)]
pub enum EnvelopeRead {
    MemoryPack,
    RelevantMemory,
    Corrections,
    OpenDecisions,
    ShortTermCandidates,
    ProjectExperience,
    UserPolicy,
    StableFacts,
}

impl DeepView for EnvelopeRead {
    type V = EnvelopeRead;

    open spec fn deep_view(&self) -> EnvelopeRead {
        *self
    }
}

/// How the parts are attached, in this order.
#[derive(Debug, Clone, Copy, PartialEq, Eq, Structural)]
pub enum EnvelopeStep {
    AppendRelevantMemory,
    ApplyCorrectionOverrides,
    AttachThreadState,
    AttachShortTermCandidates,
    AttachProjectExperience,
    AttachStableFacts,
    AttachUserPolicy,
    AttachOpenDecisions,
    AttachCorrections,
    AttachLocalCompilerNote,
}

impl DeepView for EnvelopeStep {
    type V = EnvelopeStep;

    open spec fn deep_view(&self) -> EnvelopeStep {
        *self
    }
}

/// How an envelope is put together: for which project and session the store is read, what
/// it covers, what is read, and how that is attached.
#[derive(Debug)]
pub struct EnvelopePlan {
    pub project: Option<String>,
    pub session_id: Option<String>,
    pub query: Option<String>,
    pub scope: ContextScope,
    pub reads: Vec<EnvelopeRead>,
    pub steps: Vec<EnvelopeStep>,
}

/// What an `EnvelopePlan` holds.
#[verifier::ext_equal]
pub struct EnvelopePlanView {
    pub project: Option<Seq<char>>,
    pub session_id: Option<Seq<char>>,
    pub query: Option<Seq<char>>,
    pub scope: ContextScopeView,
    pub reads: Seq<EnvelopeRead>,
    pub steps: Seq<EnvelopeStep>,
}

impl DeepView for EnvelopePlan {
    type V = EnvelopePlanView;

    open spec fn deep_view(&self) -> EnvelopePlanView {
        EnvelopePlanView {
            project: self.project.deep_view(),
            session_id: self.session_id.deep_view(),
            query: self.query.deep_view(),
            scope: self.scope.deep_view(),
            reads: self.reads.deep_view(),
            steps: self.steps.deep_view(),
        }
    }
}

pub open spec fn all_reads() -> Seq<EnvelopeRead> {
    Seq::empty().push(EnvelopeRead::MemoryPack).push(EnvelopeRead::RelevantMemory).push(
        EnvelopeRead::Corrections,
    ).push(EnvelopeRead::OpenDecisions).push(EnvelopeRead::ShortTermCandidates).push(
        EnvelopeRead::ProjectExperience,
    ).push(EnvelopeRead::UserPolicy).push(EnvelopeRead::StableFacts)
}

fn list_reads() -> (r: Vec<EnvelopeRead>)
    ensures
        r.deep_view() == all_reads(),
{
    let r = with(with(none(), EnvelopeRead::MemoryPack), EnvelopeRead::RelevantMemory);
    let r = with(with(r, EnvelopeRead::Corrections), EnvelopeRead::OpenDecisions);
    let r = with(with(r, EnvelopeRead::ShortTermCandidates), EnvelopeRead::ProjectExperience);
    with(with(r, EnvelopeRead::UserPolicy), EnvelopeRead::StableFacts)
}

/// A task frame tells the state of the thread; the local compiler adds a note where that is
/// asked for.
pub open spec fn steps_of(request: EnvelopeRequestView) -> Seq<EnvelopeStep> {
    let a = Seq::empty().push(EnvelopeStep::AppendRelevantMemory).push(
        EnvelopeStep::ApplyCorrectionOverrides,
    );
    let b = if request.has_frame {
        a.push(EnvelopeStep::AttachThreadState)
    } else {
        a
    };
    let c = b.push(EnvelopeStep::AttachShortTermCandidates).push(
        EnvelopeStep::AttachProjectExperience,
    ).push(EnvelopeStep::AttachStableFacts).push(EnvelopeStep::AttachUserPolicy).push(
        EnvelopeStep::AttachOpenDecisions,
    ).push(EnvelopeStep::AttachCorrections);
    if request.local_compiler {
        c.push(EnvelopeStep::AttachLocalCompilerNote)
    } else {
        c
    }
}

fn list_steps(request: &EnvelopeRequest) -> (r: Vec<EnvelopeStep>)
    ensures
        r.deep_view() == steps_of(request.deep_view()),
{
    let a = with(
        with(none(), EnvelopeStep::AppendRelevantMemory),
        EnvelopeStep::ApplyCorrectionOverrides,
    );
    let b = if request.has_frame {
        with(a, EnvelopeStep::AttachThreadState)
    } else {
        a
    };
    let c = with(
        with(b, EnvelopeStep::AttachShortTermCandidates),
        EnvelopeStep::AttachProjectExperience,
    );
    let c = with(with(c, EnvelopeStep::AttachStableFacts), EnvelopeStep::AttachUserPolicy);
    let c = with(with(c, EnvelopeStep::AttachOpenDecisions), EnvelopeStep::AttachCorrections);
    if request.local_compiler {
        with(c, EnvelopeStep::AttachLocalCompilerNote)
    } else {
        c
    }
}

/// The project that the store is read for.
pub open spec fn effective_project(
    request: EnvelopeRequestView,
    inferred: Option<Seq<char>>,
) -> Option<
    Seq<char>,
> {
    if request.infer_project {
        first(request.project, inferred)
    } else {
        request.project
    }
}

/// A session counts before a project.
pub open spec fn scope_of(
    session_id: Option<Seq<char>>,
    project: Option<Seq<char>>,
    query: Option<Seq<char>>,
) -> ContextScopeView {
    match session_id {
        Some(session_id) => ContextScopeView::Session { session_id, in_project: project, query },
        None => match project {
            Some(project) => ContextScopeView::Project { project, query },
            None => ContextScopeView::Current { query },
        },
    }
}

pub open spec fn envelope_plan(
    request: EnvelopeRequestView,
    inferred: Option<Seq<char>>,
) -> EnvelopePlanView {
    let project = effective_project(request, inferred);
    EnvelopePlanView {
        project,
        session_id: request.session_id,
        query: request.query,
        scope: scope_of(request.session_id, project, request.query),
        reads: all_reads(),
        steps: steps_of(request),
    }
}

/// How an envelope is put together. `inferred` is the project that the store infers; it
/// counts only where the request asks for that.
pub fn build_envelope_for_cli(
    request: &EnvelopeRequest,
    inferred: &Option<String>,
) -> (r: EnvelopePlan)
    ensures
        r.deep_view() == envelope_plan(request.deep_view(), inferred.deep_view()),
{
    let project = if request.infer_project {
        first_text(&request.project, inferred)
    } else {
        copy_text(&request.project)
    };
    let scope = match &request.session_id {
        Some(s) => ContextScope::Session {
            session_id: s.clone(),
            in_project: copy_text(&project),
            query: copy_text(&request.query),
        },
        None => match &project {
            Some(p) => ContextScope::Project {
                project: p.clone(),
                query: copy_text(&request.query),
            },
            None => ContextScope::Current { query: copy_text(&request.query) },
        },
    };
    EnvelopePlan {
        project,
        session_id: copy_text(&request.session_id),
        query: copy_text(&request.query),
        scope,
        reads: list_reads(),
        steps: list_steps(request),
    }
}

/// The claims that corrections make stale.
pub open spec fn stale_claims(signals: Seq<CorrectionSignalView>) -> Seq<Seq<char>>
    decreases signals.len(),
{
    if signals.len() == 0 {
        nil()
    } else {
        match signals.last().stale_claim {
            Some(c) => stale_claims(signals.drop_last()).push(c),
            None => stale_claims(signals.drop_last()),
        }
    }
}

pub fn correction_stale_claims(signals: &Vec<CorrectionSignal>) -> (r: Vec<String>)
    ensures
        r.deep_view() == stale_claims(signals.deep_view()),
{
    let ghost all = signals.deep_view();
    let mut out: Vec<String> = none();
    let mut i: usize = 0;
    assert(all.take(0) =~= Seq::empty());
    while i < signals.len()
        invariant
            i <= signals.len(),
            all == signals.deep_view(),
            out.deep_view() == stale_claims(all.take(i as int)),
        decreases signals.len() - i,
    {
        assert(all.take(i + 1).drop_last() =~= all.take(i as int));
        assert(all.take(i + 1).last() == signals[i as int].deep_view());
        match &signals[i].stale_claim {
            Some(c) => {
                out = with(out, c.clone());
            },
            None => {},
        }
        i = i + 1;
    }
    assert(all.take(i as int) =~= all);
    out
}

/// The sections that tell of corrections.
pub fn correction_sections(signals: &Vec<CorrectionSignal>) -> (r: Vec<Json>)
    ensures
        r.deep_view() == Seq::new(
            signals.deep_view().len(),
            |i: int| signals.deep_view()[i].section,
        ),
{
    let ghost all = signals.deep_view();
    let mut out: Vec<Json> = none();
    let mut i: usize = 0;
    while i < signals.len()
        invariant
            i <= signals.len(),
            all == signals.deep_view(),
            out.deep_view() =~= Seq::new(i as nat, |k: int| all[k].section),
        decreases signals.len() - i,
    {
        assert(all[i as int] == signals[i as int].deep_view());
        out = with(out, signals[i].section.dup());
        i = i + 1;
    }
    assert(all.len() == signals.len());
    out
}

// ---------------------------------------------------------------------------
// What reads and steps take
// ---------------------------------------------------------------------------

/// How much is read of each kind.
#[derive(Debug, Clone, Copy)]
pub struct EnvelopeLimits {
    pub relevant_memory: usize,
    pub corrections: usize,
    pub open_decisions: usize,
    pub short_term_candidates: usize,
    pub project_experience: usize,
    pub stable_facts: usize,
}

/// What a read from the store takes.
#[derive(Debug)]
pub struct EnvelopeReadArgs {
    pub project: Option<String>,
    pub session_id: Option<String>,
    pub query: Option<String>,
    pub limit: Option<usize>,
    pub stale_claims: Vec<String>,
    pub corrections: Vec<CorrectionSignal>,
}

/// What an `EnvelopeReadArgs` holds.
#[verifier::ext_equal]
pub struct EnvelopeReadArgsView {
    pub project: Option<Seq<char>>,
    pub session_id: Option<Seq<char>>,
    pub query: Option<Seq<char>>,
    pub limit: Option<usize>,
    pub stale_claims: Seq<Seq<char>>,
    pub corrections: Seq<CorrectionSignalView>,
}

impl DeepView for EnvelopeReadArgs {
    type V = EnvelopeReadArgsView;

    open spec fn deep_view(&self) -> EnvelopeReadArgsView {
        EnvelopeReadArgsView {
            project: self.project.deep_view(),
            session_id: self.session_id.deep_view(),
            query: self.query.deep_view(),
            limit: self.limit,
            stale_claims: self.stale_claims.deep_view(),
            corrections: self.corrections.deep_view(),
        }
    }
}

/// What a read takes. Every read is for the project of the plan, and for its session, but
/// for the user's policy, which is that of all sessions. Only the memory pack takes the
/// query. Open decisions take the claims that corrections made stale, and the user's policy
/// takes the corrections themselves.
pub open spec fn read_args(
    plan: EnvelopePlanView,
    read: EnvelopeRead,
    limits: EnvelopeLimits,
    signals: Seq<CorrectionSignalView>,
) -> EnvelopeReadArgsView {
    EnvelopeReadArgsView {
        project: plan.project,
        session_id: if read == EnvelopeRead::UserPolicy {
            None
        } else {
            plan.session_id
        },
        query: if read == EnvelopeRead::MemoryPack {
            plan.query
        } else {
            None
        },
        limit: match read {
            EnvelopeRead::MemoryPack => None,
            EnvelopeRead::RelevantMemory => Some(limits.relevant_memory),
            EnvelopeRead::Corrections => Some(limits.corrections),
            EnvelopeRead::OpenDecisions => Some(limits.open_decisions),
            EnvelopeRead::ShortTermCandidates => Some(limits.short_term_candidates),
            EnvelopeRead::ProjectExperience => Some(limits.project_experience),
            EnvelopeRead::UserPolicy => None,
            EnvelopeRead::StableFacts => Some(limits.stable_facts),
        },
        stale_claims: if read == EnvelopeRead::OpenDecisions {
            stale_claims(signals)
        } else {
            nil()
        },
        corrections: if read == EnvelopeRead::UserPolicy {
            signals
        } else {
            Seq::empty()
        },
    }
}

/// What a read takes. `signals` are the corrections, once they were read.
pub fn envelope_read_arguments(
    plan: &EnvelopePlan,
    read: EnvelopeRead,
    limits: EnvelopeLimits,
    signals: &Vec<CorrectionSignal>,
) -> (r: EnvelopeReadArgs)
    ensures
        r.deep_view() == read_args(plan.deep_view(), read, limits, signals.deep_view()),
{
    let (limit, stale, corrections) = match read {
        EnvelopeRead::MemoryPack => (None, none(), none()),
        EnvelopeRead::RelevantMemory => (Some(limits.relevant_memory), none(), none()),
        EnvelopeRead::Corrections => (Some(limits.corrections), none(), none()),
        EnvelopeRead::OpenDecisions => (
            Some(limits.open_decisions),
            correction_stale_claims(signals),
            none(),
        ),
        EnvelopeRead::ShortTermCandidates => (Some(limits.short_term_candidates), none(), none()),
        EnvelopeRead::ProjectExperience => (Some(limits.project_experience), none(), none()),
        EnvelopeRead::UserPolicy => (None, none(), signals.dup()),
        EnvelopeRead::StableFacts => (Some(limits.stable_facts), none(), none()),
    };
    let (session_id, query) = match read {
        EnvelopeRead::UserPolicy => (None, None),
        EnvelopeRead::MemoryPack => (copy_text(&plan.session_id), copy_text(&plan.query)),
        _ => (copy_text(&plan.session_id), None),
    };
    EnvelopeReadArgs {
        project: copy_text(&plan.project),
        session_id,
        query,
        limit,
        stale_claims: stale,
        corrections,
    }
}

/// What a step takes of the corrections and the flags.
#[derive(Debug)]
pub struct EnvelopeStepArgs {
    pub stale_claims: Vec<String>,
    pub sections: Vec<Json>,
    pub endpoint: Option<String>,
    pub model: Option<String>,
}

/// What an `EnvelopeStepArgs` holds.
#[verifier::ext_equal]
pub struct EnvelopeStepArgsView {
    pub stale_claims: Seq<Seq<char>>,
    pub sections: Seq<JsonView>,
    pub endpoint: Option<Seq<char>>,
    pub model: Option<Seq<char>>,
}

impl DeepView for EnvelopeStepArgs {
    type V = EnvelopeStepArgsView;

    open spec fn deep_view(&self) -> EnvelopeStepArgsView {
        EnvelopeStepArgsView {
            stale_claims: self.stale_claims.deep_view(),
            sections: self.sections.deep_view(),
            endpoint: self.endpoint.deep_view(),
            model: self.model.deep_view(),
        }
    }
}

/// What a step takes of the corrections and the flags: stale claims are overridden, the
/// sections of corrections are attached, and the local compiler is called as the flags say.
pub open spec fn step_args(
    args: EnvelopeArgsView,
    step: EnvelopeStep,
    signals: Seq<CorrectionSignalView>,
) -> EnvelopeStepArgsView {
    let note = step == EnvelopeStep::AttachLocalCompilerNote;
    EnvelopeStepArgsView {
        stale_claims: if step == EnvelopeStep::ApplyCorrectionOverrides {
            stale_claims(signals)
        } else {
            nil()
        },
        sections: if step == EnvelopeStep::AttachCorrections {
            Seq::new(signals.len(), |i: int| signals[i].section)
        } else {
            Seq::empty()
        },
        endpoint: if note {
            args.local_compiler_endpoint
        } else {
            None
        },
        model: if note {
            args.local_compiler_model
        } else {
            None
        },
    }
}

pub fn envelope_step_arguments(
    args: &EnvelopeArgs,
    step: EnvelopeStep,
    signals: &Vec<CorrectionSignal>,
) -> (r: EnvelopeStepArgs)
    ensures
        r.deep_view() == step_args(args.deep_view(), step, signals.deep_view()),
{
    let (stale, sections) = match step {
        EnvelopeStep::ApplyCorrectionOverrides => (correction_stale_claims(signals), none()),
        EnvelopeStep::AttachCorrections => (none(), correction_sections(signals)),
        _ => (none(), none()),
    };
    let (endpoint, model) = match step {
        EnvelopeStep::AttachLocalCompilerNote => (
            copy_text(&args.local_compiler_endpoint),
            copy_text(&args.local_compiler_model),
        ),
        _ => (None, None),
    };
    EnvelopeStepArgs { stale_claims: stale, sections, endpoint, model }
}

// ---------------------------------------------------------------------------
// Laws
// ---------------------------------------------------------------------------

/// What the flags name is what an envelope is for; a task frame only adds what they leave
/// open.
pub proof fn law_flags_come_before_the_frame(
    args: EnvelopeArgsView,
    frame: Result<Option<TaskFrameScopeView>, Seq<char>>,
)
    ensures
        envelope_request(args, frame) matches Ok(request) ==> {
            &&& args.query is Some ==> request.query == args.query
            &&& args.project is Some ==> request.project == args.project
            &&& args.session_id is Some ==> request.session_id == args.session_id
        },
{
}

/// An envelope with a task frame is for the project and the session of that frame, where it
/// has them.
pub proof fn law_envelope_stays_in_the_frame(
    args: EnvelopeArgsView,
    frame: TaskFrameScopeView,
)
    requires
        args.task_frame_id is Some,
    ensures
        envelope_request(args, Ok(Some(frame))) matches Ok(request) ==> {
            &&& request.has_frame
            &&& frame.project is Some ==> request.project == frame.project
            &&& frame.session_id is Some ==> request.session_id == frame.session_id
        },
{
}

/// A project is inferred only where neither a project nor a session is known: what is known
/// is never replaced.
pub proof fn law_known_scope_is_kept(
    args: EnvelopeArgsView,
    frame: Result<Option<TaskFrameScopeView>, Seq<char>>,
    inferred: Option<Seq<char>>,
)
    ensures
        envelope_request(args, frame) matches Ok(request) ==> {
            let plan = envelope_plan(request, inferred);
            &&& request.project is Some ==> plan.project == request.project
            &&& request.session_id is Some ==> plan.project == request.project
            &&& plan.session_id == request.session_id
        },
{
}

/// Corrections override memories after those were appended, whatever else is attached.
pub proof fn law_corrections_follow_memory(request: EnvelopeRequestView)
    ensures
        steps_of(request).len() >= 8,
        steps_of(request)[0] == EnvelopeStep::AppendRelevantMemory,
        steps_of(request)[1] == EnvelopeStep::ApplyCorrectionOverrides,
        steps_of(request).contains(EnvelopeStep::AttachThreadState) <==> request.has_frame,
        steps_of(request).contains(EnvelopeStep::AttachLocalCompilerNote)
            <==> request.local_compiler,
{
    let s = steps_of(request);
    if request.has_frame {
        assert(s[2] == EnvelopeStep::AttachThreadState);
    }
    if request.local_compiler {
        assert(s[s.len() - 1] == EnvelopeStep::AttachLocalCompilerNote);
    }
}

/// A task frame is refused that belongs to another project or another session than those
/// that the flags name; one that names neither fits.
pub proof fn law_frames_of_other_projects_are_refused(
    args: EnvelopeArgs,
    frame: TaskFrameScopeView,
    id: i64,
)
    requires
        args.task_frame_id == Some(id),
    ensures
        ({
            let r = envelope_request(args.deep_view(), Ok(Some(frame)));
            let other_project = args.project is Some && frame.project is Some
                && args.project.deep_view() != frame.project;
            let other_session = args.session_id is Some && frame.session_id is Some
                && args.session_id.deep_view() != frame.session_id;
            &&& r is Err <==> other_project || other_session
            &&& r matches Ok(q) ==> {
                &&& args.project is None ==> q.project == frame.project
                &&& args.session_id is None ==> q.session_id == frame.session_id
                &&& args.query is None ==> q.query == trimmed_nonblank(
                    as_text(get(frame.cloud_redacted_json, "goal_state"@)),
                )
                &&& q.local_compiler == args.local_compiler
            }
        }),
        envelope_request(args.deep_view(), Ok(None)) is Err,
{
}

/// An envelope is for its session where one is known, else for its project where one is
/// known, else for what is current. Everything is read for it, in a fixed order.
pub proof fn law_scope_follows_session_then_project(
    request: EnvelopeRequestView,
    inferred: Option<Seq<char>>,
)
    ensures
        ({
            let plan = envelope_plan(request, inferred);
            &&& plan.query == request.query
            &&& request.infer_project && request.project is None ==> plan.project == inferred
            &&& !request.infer_project ==> plan.project == request.project
            &&& plan.session_id matches Some(s) ==> plan.scope == (ContextScopeView::Session {
                session_id: s,
                in_project: plan.project,
                query: plan.query,
            })
            &&& plan.session_id is None && plan.project is Some ==> plan.scope == (
            ContextScopeView::Project { project: plan.project->0, query: plan.query })
            &&& plan.session_id is None && plan.project is None ==> plan.scope == (
            ContextScopeView::Current { query: plan.query })
            &&& plan.reads.len() == 8
            &&& plan.reads[0] == EnvelopeRead::MemoryPack
            &&& plan.reads[1] == EnvelopeRead::RelevantMemory
            &&& plan.reads[2] == EnvelopeRead::Corrections
            &&& plan.reads[3] == EnvelopeRead::OpenDecisions
            &&& plan.reads[4] == EnvelopeRead::ShortTermCandidates
            &&& plan.reads[5] == EnvelopeRead::ProjectExperience
            &&& plan.reads[6] == EnvelopeRead::UserPolicy
            &&& plan.reads[7] == EnvelopeRead::StableFacts
        }),
{
}

/// Each part is read within the project of the plan, and within its session but for the
/// user's policy; only the memory pack is read for the query. Each part has its own limit.
/// Only open decisions are read against stale claims, and only the policy with corrections.
pub proof fn law_reads_keep_to_the_plan(
    plan: EnvelopePlanView,
    read: EnvelopeRead,
    limits: EnvelopeLimits,
    signals: Seq<CorrectionSignalView>,
)
    ensures
        ({
            let a = read_args(plan, read, limits, signals);
            &&& a.project == plan.project
            &&& read != EnvelopeRead::UserPolicy ==> a.session_id == plan.session_id
            &&& read == EnvelopeRead::UserPolicy ==> a.session_id is None
            &&& read == EnvelopeRead::MemoryPack ==> a.query == plan.query && a.limit is None
            &&& read != EnvelopeRead::MemoryPack ==> a.query is None
            &&& read == EnvelopeRead::RelevantMemory ==> a.limit == Some(limits.relevant_memory)
            &&& read == EnvelopeRead::Corrections ==> a.limit == Some(limits.corrections)
            &&& read == EnvelopeRead::OpenDecisions ==> a.limit == Some(limits.open_decisions)
            &&& read == EnvelopeRead::ShortTermCandidates ==> a.limit == Some(
                limits.short_term_candidates,
            )
            &&& read == EnvelopeRead::ProjectExperience ==> a.limit == Some(
                limits.project_experience,
            )
            &&& read == EnvelopeRead::StableFacts ==> a.limit == Some(limits.stable_facts)
            &&& read == EnvelopeRead::UserPolicy ==> a.limit is None && a.corrections == signals
            &&& read != EnvelopeRead::UserPolicy ==> a.corrections.len() == 0
            &&& read != EnvelopeRead::OpenDecisions ==> a.stale_claims.len() == 0
            &&& read == EnvelopeRead::OpenDecisions ==> a.stale_claims == stale_claims(signals)
        }),
{
}

/// The stale claims are those that a correction names, in order, and no others.
pub proof fn law_stale_claims_are_those_of_corrections(signals: Seq<CorrectionSignalView>)
    ensures
        forall|c: Seq<char>| #[trigger]
            stale_claims(signals).contains(c) <==> exists|i: int|
                0 <= i < signals.len() && (#[trigger] signals[i]).stale_claim == Some(c),
    decreases signals.len(),
{
    if signals.len() > 0 {
        let front = signals.drop_last();
        law_stale_claims_are_those_of_corrections(front);
        let all = stale_claims(signals);
        let fore = stale_claims(front);
        assert forall|c: Seq<char>| #[trigger]
            all.contains(c) <==> exists|i: int|
                0 <= i < signals.len() && (#[trigger] signals[i]).stale_claim == Some(c) by {
            if all.contains(c) {
                let k = choose|k: int| 0 <= k < all.len() && all[k] == c;
                if k < fore.len() {
                    assert(fore[k] == c);
                    assert(fore.contains(c));
                    let i = choose|i: int|
                        0 <= i < front.len() && (#[trigger] front[i]).stale_claim == Some(c);
                    assert(signals[i].stale_claim == Some(c));
                } else {
                    assert(signals[signals.len() - 1].stale_claim == Some(c));
                }
            }
            if exists|i: int| 0 <= i < signals.len() && (#[trigger] signals[i]).stale_claim == Some(c) {
                let i = choose|i: int|
                    0 <= i < signals.len() && (#[trigger] signals[i]).stale_claim == Some(c);
                if i < front.len() {
                    assert(front[i].stale_claim == Some(c));
                    assert(fore.contains(c));
                    let k = choose|k: int| 0 <= k < fore.len() && fore[k] == c;
                    assert(all[k] == c);
                } else {
                    assert(all[all.len() - 1] == c);
                }
            }
        }
    }
}

/// Each step gets what it needs and no more: the overrides the stale claims, the
/// corrections their sections, the compiler's note its endpoint and its model.
pub proof fn law_steps_get_what_they_need(
    args: EnvelopeArgs,
    step: EnvelopeStep,
    signals: Seq<CorrectionSignalView>,
)
    ensures
        ({
            let a = step_args(args.deep_view(), step, signals);
            &&& step == EnvelopeStep::ApplyCorrectionOverrides ==> a.stale_claims == stale_claims(
                signals,
            )
            &&& step != EnvelopeStep::ApplyCorrectionOverrides ==> a.stale_claims.len() == 0
            &&& step == EnvelopeStep::AttachCorrections ==> a.sections.len() == signals.len() && (
            forall|i: int|
                0 <= i < signals.len() ==> (#[trigger] a.sections[i]) == signals[i].section)
            &&& step != EnvelopeStep::AttachCorrections ==> a.sections.len() == 0
            &&& step == EnvelopeStep::AttachLocalCompilerNote ==> a.endpoint
                == args.local_compiler_endpoint.deep_view() && a.model
                == args.local_compiler_model.deep_view()
            &&& step != EnvelopeStep::AttachLocalCompilerNote ==> a.endpoint is None && a.model
                is None
        }),
{
}

}
