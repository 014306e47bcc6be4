//! `soma inspect`: what the store holds, for reading.
//!
//! What is asked for is decided first; then the store is read, and what it gave is told as
//! JSON or as Markdown.
use crate::dup::Dup;
use crate::json::{number_list, opt_int, opt_text, text_list, Json, JsonView, Members};
use crate::number::{decimal_int, int_text};
use crate::outcome::{borrowed, outcome};
use crate::outside::{json_pretty, print_json_pretty};
use crate::path::{join, joined_path};
use crate::storage::StorageError;
use crate::text::{cat2, cat3, none, same, with, Phrase};
use vstd::prelude::*;
use vstd::string::*;

verus! {

/// The flags of one `soma inspect` call.
#[derive(Debug)]
pub struct InspectArgs {
    pub kind: String,
    pub id: Option<i64>,
    pub format: String,
    pub include_forgotten: bool,
}

/// What an `InspectArgs` holds.
#[verifier::ext_equal]
pub struct InspectArgsView {
    pub kind: Seq<char>,
    pub id: Option<i64>,
    pub format: Seq<char>,
    pub include_forgotten: bool,
}

impl DeepView for InspectArgs {
    type V = InspectArgsView;

    open spec fn deep_view(&self) -> InspectArgsView {
        InspectArgsView {
            kind: self.kind.deep_view(),
            id: self.id.deep_view(),
            format: self.format.deep_view(),
            include_forgotten: self.include_forgotten,
        }
    }
}

/// An episode as the store gives it back. Its tier and its salience are told as they are
/// stored.
#[derive(Debug)]
pub struct StoredEpisode {
    pub id: i64,
    pub ts_start_ns: i64,
    pub ts_end_ns: i64,
    pub duration_ms: i64,
    pub source: String,
    pub session_id: Option<String>,
    pub prompt_text: Option<String>,
    pub response_text: Option<String>,
    pub command: Option<String>,
    pub exit_code: Option<i32>,
    pub cwd: Option<String>,
    pub git_branch: Option<String>,
    pub project: Option<String>,
    pub digest: Option<String>,
    pub memory_tier: Json,
    pub salience: Json,
}

/// What a `StoredEpisode` holds.
#[verifier::ext_equal]
pub struct StoredEpisodeView {
    pub id: i64,
    pub ts_start_ns: i64,
    pub ts_end_ns: i64,
    pub duration_ms: i64,
    pub source: Seq<char>,
    pub session_id: Option<Seq<char>>,
    pub prompt_text: Option<Seq<char>>,
    pub response_text: Option<Seq<char>>,
    pub command: Option<Seq<char>>,
    pub exit_code: Option<i32>,
    pub cwd: Option<Seq<char>>,
    pub git_branch: Option<Seq<char>>,
    pub project: Option<Seq<char>>,
    pub digest: Option<Seq<char>>,
    pub memory_tier: JsonView,
    pub salience: JsonView,
}

impl DeepView for StoredEpisode {
    type V = StoredEpisodeView;

    open spec fn deep_view(&self) -> StoredEpisodeView {
        StoredEpisodeView {
            id: self.id,
            ts_start_ns: self.ts_start_ns,
            ts_end_ns: self.ts_end_ns,
            duration_ms: self.duration_ms,
            source: self.source.deep_view(),
            session_id: self.session_id.deep_view(),
            prompt_text: self.prompt_text.deep_view(),
            response_text: self.response_text.deep_view(),
            command: self.command.deep_view(),
            exit_code: self.exit_code.deep_view(),
            cwd: self.cwd.deep_view(),
            git_branch: self.git_branch.deep_view(),
            project: self.project.deep_view(),
            digest: self.digest.deep_view(),
            memory_tier: self.memory_tier.deep_view(),
            salience: self.salience.deep_view(),
        }
    }
}

/// The three square matrices of a memory: their size, how many numbers each holds, how far
/// each is from the identity, and whether a number is not finite.
#[derive(Debug)]
pub struct ProjectionWeights {
    pub dim: usize,
    pub num_heads: Option<usize>,
    pub train_steps: i64,
    pub saved_at_ns: i64,
    pub len_q: usize,
    pub len_k: usize,
    pub len_v: usize,
    pub delta_q: Json,
    pub delta_k: Json,
    pub delta_v: Json,
    pub any_non_finite: bool,
}

/// What a `ProjectionWeights` holds.
#[verifier::ext_equal]
pub struct ProjectionWeightsView {
    pub dim: usize,
    pub num_heads: Option<usize>,
    pub train_steps: i64,
    pub saved_at_ns: i64,
    pub len_q: usize,
    pub len_k: usize,
    pub len_v: usize,
    pub delta_q: JsonView,
    pub delta_k: JsonView,
    pub delta_v: JsonView,
    pub any_non_finite: bool,
}

impl DeepView for ProjectionWeights {
    type V = ProjectionWeightsView;

    open spec fn deep_view(&self) -> ProjectionWeightsView {
        ProjectionWeightsView {
            dim: self.dim,
            num_heads: self.num_heads.deep_view(),
            train_steps: self.train_steps,
            saved_at_ns: self.saved_at_ns,
            len_q: self.len_q,
            len_k: self.len_k,
            len_v: self.len_v,
            delta_q: self.delta_q.deep_view(),
            delta_k: self.delta_k.deep_view(),
            delta_v: self.delta_v.deep_view(),
            any_non_finite: self.any_non_finite,
        }
    }
}

/// The weights that tell projects apart.
#[derive(Debug)]
pub struct HeadWeights {
    pub d_emb: usize,
    pub projects: Vec<String>,
    pub train_steps: i64,
    pub saved_at_ns: i64,
    pub w_norm: Json,
    pub b_norm: Json,
    pub any_non_finite: bool,
}

/// What a `HeadWeights` holds.
#[verifier::ext_equal]
pub struct HeadWeightsView {
    pub d_emb: usize,
    pub projects: Seq<Seq<char>>,
    pub train_steps: i64,
    pub saved_at_ns: i64,
    pub w_norm: JsonView,
    pub b_norm: JsonView,
    pub any_non_finite: bool,
}

impl DeepView for HeadWeights {
    type V = HeadWeightsView;

    open spec fn deep_view(&self) -> HeadWeightsView {
        HeadWeightsView {
            d_emb: self.d_emb,
            projects: self.projects.deep_view(),
            train_steps: self.train_steps,
            saved_at_ns: self.saved_at_ns,
            w_norm: self.w_norm.deep_view(),
            b_norm: self.b_norm.deep_view(),
            any_non_finite: self.any_non_finite,
        }
    }
}

/// One layer of the predictor.
#[derive(Debug)]
pub struct LayerWeights {
    pub layer_idx: i64,
    pub d_in: usize,
    pub d_out: usize,
    pub train_steps: i64,
    pub saved_at_ns: i64,
    pub w_norm: Json,
    pub any_non_finite: bool,
}

/// What a `LayerWeights` holds.
#[verifier::ext_equal]
pub struct LayerWeightsView {
    pub layer_idx: i64,
    pub d_in: usize,
    pub d_out: usize,
    pub train_steps: i64,
    pub saved_at_ns: i64,
    pub w_norm: JsonView,
    pub any_non_finite: bool,
}

impl DeepView for LayerWeights {
    type V = LayerWeightsView;

    open spec fn deep_view(&self) -> LayerWeightsView {
        LayerWeightsView {
            layer_idx: self.layer_idx,
            d_in: self.d_in,
            d_out: self.d_out,
            train_steps: self.train_steps,
            saved_at_ns: self.saved_at_ns,
            w_norm: self.w_norm.deep_view(),
            any_non_finite: self.any_non_finite,
        }
    }
}

/// Where the store is.
#[derive(Debug)]
pub struct InspectContext {
    pub db_path: String,
}

/// Why the command failed.
#[derive(Debug)]
pub enum InspectError {
    Path(String),
    Storage(StorageError),
    BadInput(String),
    NotFound(String),
}

/// What an `InspectError` holds.
pub enum InspectFault {
    Path(Seq<char>),
    Storage(Seq<char>),
    BadInput(Seq<char>),
    NotFound(Seq<char>),
}

impl DeepView for InspectError {
    type V = InspectFault;

    open spec fn deep_view(&self) -> InspectFault {
        match self {
            InspectError::Path(m) => InspectFault::Path(m@),
            InspectError::Storage(e) => InspectFault::Storage(e.message@),
            InspectError::BadInput(m) => InspectFault::BadInput(m@),
            InspectError::NotFound(m) => InspectFault::NotFound(m@),
        }
    }
}

impl InspectError {
    /// The message of the error.
    pub fn message(&self) -> (r: String)
        ensures
            r@ == match self.deep_view() {
                InspectFault::Path(m) => "path: "@ + m,
                InspectFault::Storage(m) => "storage: "@ + m,
                InspectFault::BadInput(m) => "bad input: "@ + m,
                InspectFault::NotFound(m) => "not found: "@ + m,
            },
    {
        match self {
            InspectError::Path(m) => cat2("path: ", m.as_str()),
            InspectError::Storage(e) => cat2("storage: ", e.message.as_str()),
            InspectError::BadInput(m) => cat2("bad input: ", m.as_str()),
            InspectError::NotFound(m) => cat2("not found: ", m.as_str()),
        }
    }
}

impl From<StorageError> for InspectError {
    fn from(value: StorageError) -> (r: Self) {
        InspectError::Storage(value)
    }
}

impl vstd::std_specs::convert::FromSpecImpl<StorageError> for InspectError {
    open spec fn obeys_from_spec() -> bool {
        true
    }

    open spec fn from_spec(value: StorageError) -> Self {
        InspectError::Storage(value)
    }
}

/// The exit code of an error: each kind has its own.
pub fn exit_code_for(e: &InspectError) -> (r: i32)
    ensures
        r == match e.deep_view() {
            InspectFault::BadInput(_) => 1i32,
            InspectFault::Storage(_) => 2i32,
            InspectFault::Path(_) => 3i32,
            InspectFault::NotFound(_) => 4i32,
        },
{
    match e {
        InspectError::BadInput(_) => 1,
        InspectError::Storage(_) => 2,
        InspectError::Path(_) => 3,
        InspectError::NotFound(_) => 4,
    }
}

// ---------------------------------------------------------------------------
// What is asked for
// ---------------------------------------------------------------------------

/// What is asked for.
#[derive(Debug, Clone, Copy, PartialEq, Eq, Structural)]
pub enum InspectQuery {
    Episode(i64),
    Vector(i64),
    Pin(i64),
    Edges(i64),
    Narrative,
    Centroid,
    Weights,
}

pub const KINDS_ACCEPTED: &'static str =
    "` — accepted: episode/vector/pin/edges/weights; legacy diagnostics: narrative/centroid";

/// A kind that asks for one episode needs its number.
pub open spec fn id_of(args: InspectArgsView) -> Result<i64, InspectFault> {
    match args.id {
        Some(id) => Ok(id),
        None => Err(InspectFault::BadInput("--id is required for this kind"@)),
    }
}

pub open spec fn query_of(args: InspectArgsView) -> Result<InspectQuery, InspectFault> {
    let k = args.kind;
    if k == "episode"@ || k == "vector"@ || k == "pin"@ || k == "edges"@ {
        match id_of(args) {
            Err(f) => Err(f),
            Ok(id) => Ok(
                if k == "episode"@ {
                    InspectQuery::Episode(id)
                } else if k == "vector"@ {
                    InspectQuery::Vector(id)
                } else if k == "pin"@ {
                    InspectQuery::Pin(id)
                } else {
                    InspectQuery::Edges(id)
                },
            ),
        }
    } else if k == "narrative"@ {
        Ok(InspectQuery::Narrative)
    } else if k == "centroid"@ {
        Ok(InspectQuery::Centroid)
    } else if k == "weights"@ {
        Ok(InspectQuery::Weights)
    } else {
        Err(InspectFault::BadInput("unknown kind `"@ + k + KINDS_ACCEPTED@))
    }
}

/// A number by what it is, or an error by what it holds.
pub open spec fn plain<T>(r: Result<T, InspectError>) -> Result<T, InspectFault> {
    match r {
        Ok(v) => Ok(v),
        Err(e) => Err(e.deep_view()),
    }
}

pub fn expect_id(args: &InspectArgs) -> (r: Result<i64, InspectError>)
    ensures
        plain(r) == id_of(args.deep_view()),
{
    match args.id {
        Some(id) => Ok(id),
        None => Err(InspectError::BadInput("--id is required for this kind".to_string())),
    }
}

/// What the flags ask for.
pub fn query(args: &InspectArgs) -> (r: Result<InspectQuery, InspectError>)
    ensures
        plain(r) == query_of(args.deep_view()),
{
    let k = args.kind.as_str();
    if same(k, "episode") || same(k, "vector") || same(k, "pin") || same(k, "edges") {
        match expect_id(args) {
            Err(e) => Err(e),
            Ok(id) => Ok(
                if same(k, "episode") {
                    InspectQuery::Episode(id)
                } else if same(k, "vector") {
                    InspectQuery::Vector(id)
                } else if same(k, "pin") {
                    InspectQuery::Pin(id)
                } else {
                    InspectQuery::Edges(id)
                },
            ),
        }
    } else if same(k, "narrative") {
        Ok(InspectQuery::Narrative)
    } else if same(k, "centroid") {
        Ok(InspectQuery::Centroid)
    } else if same(k, "weights") {
        Ok(InspectQuery::Weights)
    } else {
        Err(InspectError::BadInput(cat3("unknown kind `", k, KINDS_ACCEPTED)))
    }
}

// ---------------------------------------------------------------------------
// Episodes
// ---------------------------------------------------------------------------

/// A number and a text that may be missing, as the store keeps them beside an episode.
#[derive(Debug)]
pub struct EpisodeNote {
    pub number: i64,
    pub text: Option<String>,
}

/// What the store gave of an episode: the episode, how often and when it was looked at,
/// what it sums up, and when and why it was forgotten.
#[derive(Debug)]
pub struct EpisodeRead {
    pub episode: Result<Option<StoredEpisode>, StorageError>,
    pub access: Result<Option<(i64, i64)>, StorageError>,
    pub summary: Result<Option<EpisodeNote>, StorageError>,
    pub forgotten: Result<Option<EpisodeNote>, StorageError>,
}

pub open spec fn widened(v: Option<i32>) -> Option<i64> {
    match v {
        Some(i) => Some(i as i64),
        None => None,
    }
}

fn widen(v: Option<i32>) -> (r: Option<i64>)
    ensures
        r == widened(v),
{
    match v {
        Some(i) => Some(i as i64),
        None => None,
    }
}

pub open spec fn pair_first(p: Option<(i64, i64)>) -> Option<i64> {
    match p {
        Some((a, _)) => Some(a),
        None => None,
    }
}

pub open spec fn pair_second(p: Option<(i64, i64)>) -> Option<i64> {
    match p {
        Some((_, b)) => Some(b),
        None => None,
    }
}

pub open spec fn note_number(n: Option<EpisodeNote>) -> Option<i64> {
    match n {
        Some(n) => Some(n.number),
        None => None,
    }
}

pub open spec fn note_text(n: Option<EpisodeNote>) -> Option<Seq<char>> {
    match n {
        Some(n) => n.text.deep_view(),
        None => None,
    }
}

fn first_of(p: &Option<(i64, i64)>) -> (r: Option<i64>)
    ensures
        r == pair_first(*p),
{
    match p {
        Some((a, _)) => Some(*a),
        None => None,
    }
}

fn second_of(p: &Option<(i64, i64)>) -> (r: Option<i64>)
    ensures
        r == pair_second(*p),
{
    match p {
        Some((_, b)) => Some(*b),
        None => None,
    }
}

fn number_of(n: &Option<EpisodeNote>) -> (r: Option<i64>)
    ensures
        r == note_number(*n),
{
    match n {
        Some(n) => Some(n.number),
        None => None,
    }
}

fn text_of(n: &Option<EpisodeNote>) -> (r: Option<&str>)
    ensures
        r.deep_view() == note_text(*n),
{
    match n {
        Some(n) => borrowed(&n.text),
        None => None,
    }
}

/// An episode with what is kept beside it, as JSON.
pub open spec fn episode_value(
    ep: StoredEpisodeView,
    access: Option<(i64, i64)>,
    summary: Option<EpisodeNote>,
    forgotten: Option<EpisodeNote>,
) -> JsonView {
    JsonView::Object(Seq::empty().push(("id"@, JsonView::Int(ep.id as int)))
        .push(("ts_start_ns"@, JsonView::Int(ep.ts_start_ns as int)))
        .push(("ts_end_ns"@, JsonView::Int(ep.ts_end_ns as int)))
        .push(("duration_ms"@, JsonView::Int(ep.duration_ms as int)))
        .push(("source"@, JsonView::Text(ep.source))).push(("session_id"@, opt_text(ep.session_id)))
        .push(("prompt_text"@, opt_text(ep.prompt_text)))
        .push(("response_text"@, opt_text(ep.response_text)))
        .push(("command"@, opt_text(ep.command))).push(
        ("exit_code"@, opt_int(widened(ep.exit_code)))).push(("cwd"@, opt_text(ep.cwd)))
        .push(("git_branch"@, opt_text(ep.git_branch))).push(("project"@, opt_text(ep.project)))
        .push(("digest"@, opt_text(ep.digest))).push(("memory_tier"@, ep.memory_tier))
        .push(("salience"@, ep.salience)).push(("access_count"@, opt_int(pair_first(access))))
        .push(("last_access_ns"@, opt_int(pair_second(access))))
        .push(("summary_count"@, opt_int(note_number(summary))))
        .push(("summary_signature"@, opt_text(note_text(summary))))
        .push(("forgotten_at_ns"@, opt_int(note_number(forgotten))))
        .push(("forgotten_reason"@, opt_text(note_text(forgotten)))))
}

fn episode_json(
    ep: &StoredEpisode,
    access: &Option<(i64, i64)>,
    summary: &Option<EpisodeNote>,
    forgotten: &Option<EpisodeNote>,
) -> (r: Json)
    ensures
        r@ == episode_value(ep.deep_view(), *access, *summary, *forgotten),
{
    Members::new().integer("id", ep.id as i128).integer("ts_start_ns", ep.ts_start_ns as i128)
        .integer("ts_end_ns", ep.ts_end_ns as i128).integer("duration_ms", ep.duration_ms as i128)
        .text("source", ep.source.as_str()).opt_text("session_id", borrowed(&ep.session_id))
        .opt_text("prompt_text", borrowed(&ep.prompt_text))
        .opt_text("response_text", borrowed(&ep.response_text))
        .opt_text("command", borrowed(&ep.command)).opt_integer("exit_code", widen(ep.exit_code))
        .opt_text("cwd", borrowed(&ep.cwd)).opt_text("git_branch", borrowed(&ep.git_branch))
        .opt_text("project", borrowed(&ep.project)).opt_text("digest", borrowed(&ep.digest))
        .put("memory_tier", ep.memory_tier.dup()).put("salience", ep.salience.dup())
        .opt_integer("access_count", first_of(access))
        .opt_integer("last_access_ns", second_of(access))
        .opt_integer("summary_count", number_of(summary))
        .opt_text("summary_signature", text_of(summary))
        .opt_integer("forgotten_at_ns", number_of(forgotten))
        .opt_text("forgotten_reason", text_of(forgotten)).done()
}

/// The message about an episode that the store does not have.
pub open spec fn missing_episode(id: i64) -> Seq<char> {
    "episode #"@ + decimal_int(id as int)
}

/// What is told of an episode. A forgotten one is told only where that is asked for.
pub open spec fn inspected_episode(
    id: i64,
    include_forgotten: bool,
    read: EpisodeRead,
) -> Result<JsonView, InspectFault> {
    match read.episode {
        Err(e) => Err(InspectFault::Storage(e.message@)),
        Ok(None) => Err(InspectFault::NotFound(missing_episode(id))),
        Ok(Some(ep)) => match read.access {
            Err(e) => Err(InspectFault::Storage(e.message@)),
            Ok(access) => match read.summary {
                Err(e) => Err(InspectFault::Storage(e.message@)),
                Ok(summary) => match read.forgotten {
                    Err(e) => Err(InspectFault::Storage(e.message@)),
                    Ok(forgotten) => if !include_forgotten && forgotten is Some {
                        Err(
                            InspectFault::NotFound(
                                missing_episode(id)
                                    + " is forgotten (use --include-forgotten to surface)"@,
                            ),
                        )
                    } else {
                        Ok(episode_value(ep.deep_view(), access, summary, forgotten))
                    },
                },
            },
        },
    }
}

pub fn inspect_episode(id: i64, include_forgotten: bool, read: EpisodeRead) -> (r: Result<
    Json,
    InspectError,
>)
    ensures
        outcome(r) == inspected_episode(id, include_forgotten, read),
{
    let ep = match read.episode {
        Err(e) => return Err(InspectError::Storage(e)),
        Ok(None) => return Err(
            InspectError::NotFound(cat2("episode #", int_text(id).as_str())),
        ),
        Ok(Some(ep)) => ep,
    };
    let access = match read.access {
        Err(e) => return Err(InspectError::Storage(e)),
        Ok(a) => a,
    };
    let summary = match read.summary {
        Err(e) => return Err(InspectError::Storage(e)),
        Ok(s) => s,
    };
    let forgotten = match read.forgotten {
        Err(e) => return Err(InspectError::Storage(e)),
        Ok(f) => f,
    };
    if !include_forgotten && forgotten.is_some() {
        return Err(
            InspectError::NotFound(
                Phrase::new("episode #").i(id).t(
                    " is forgotten (use --include-forgotten to surface)",
                ).done(),
            ),
        );
    }
    Ok(episode_json(&ep, &access, &summary, &forgotten))
}

// ---------------------------------------------------------------------------
// Vectors, pins, edges, narrative and centroid
// ---------------------------------------------------------------------------

/// What is told of a vector: its size, its length and its first numbers.
#[derive(Debug)]
pub struct VectorFacts {
    pub dim: usize,
    pub norm: Json,
    pub preview: Vec<Json>,
}

/// The place of the first row with this number.
pub open spec fn row_at(ids: Seq<i64>, id: i64) -> Option<int>
    decreases ids.len(),
{
    if ids.len() == 0 {
        None
    } else {
        match row_at(ids.drop_last(), id) {
            Some(i) => Some(i),
            None => if ids.last() == id {
                Some(ids.len() - 1)
            } else {
                None
            },
        }
    }
}

/// Which of the stored vectors belongs to an episode.
pub fn find_row(ids: &Vec<i64>, id: i64) -> (r: Option<usize>)
    ensures
        match r {
            Some(i) => row_at(ids@, id) == Some(i as int),
            None => row_at(ids@, id) is None,
        },
        r matches Some(i) ==> i < ids.len(),
{
    let mut found: Option<usize> = None;
    let mut i: usize = 0;
    while i < ids.len()
        invariant
            i <= ids.len(),
            match found {
                Some(k) => row_at(ids@.take(i as int), id) == Some(k as int) && k < ids.len(),
                None => row_at(ids@.take(i as int), id) is None,
            },
        decreases ids.len() - i,
    {
        assert(ids@.take(i + 1).drop_last() =~= ids@.take(i as int));
        assert(ids@.take(i + 1).last() == ids@[i as int]);
        if found.is_none() && ids[i] == id {
            found = Some(i);
        }
        i = i + 1;
    }
    assert(ids@.take(i as int) =~= ids@);
    found
}

/// What is told of the vector of an episode under a model.
pub open spec fn inspected_vector(
    id: i64,
    model_id: Seq<char>,
    read: Result<Option<VectorFacts>, StorageError>,
) -> Result<JsonView, InspectFault> {
    match read {
        Err(e) => Err(InspectFault::Storage(e.message@)),
        Ok(None) => Err(
            InspectFault::NotFound("vector for episode #"@ + decimal_int(id as int)),
        ),
        Ok(Some(v)) => Ok(
            JsonView::Object(
                Seq::empty().push(("episode_id"@, JsonView::Int(id as int))).push(
                    ("model_id"@, JsonView::Text(model_id)),
                ).push(("dim"@, JsonView::Int(v.dim as int))).push(("norm"@, v.norm@)).push(
                    ("preview_first_8"@, JsonView::List(v.preview.deep_view())),
                ),
            ),
        ),
    }
}

pub fn inspect_vector(
    id: i64,
    model_id: &str,
    read: Result<Option<VectorFacts>, StorageError>,
) -> (r: Result<Json, InspectError>)
    ensures
        outcome(r) == inspected_vector(id, model_id@, read),
{
    match read {
        Err(e) => Err(InspectError::Storage(e)),
        Ok(None) => Err(
            InspectError::NotFound(cat2("vector for episode #", int_text(id).as_str())),
        ),
        Ok(Some(v)) => Ok(
            Members::new().integer("episode_id", id as i128).text("model_id", model_id).integer(
                "dim",
                v.dim as i128,
            ).put("norm", v.norm).put("preview_first_8", Json::list(v.preview)).done(),
        ),
    }
}

/// Whether an episode is pinned, and every episode that is.
#[derive(Debug)]
pub struct PinRead {
    pub pinned: Result<bool, StorageError>,
    pub all: Result<Vec<i64>, StorageError>,
}

/// What is told of a pin. The other pins are told only beside one that is there.
pub open spec fn inspected_pin(id: i64, read: PinRead) -> Result<JsonView, InspectFault> {
    match read.pinned {
        Err(e) => Err(InspectFault::Storage(e.message@)),
        Ok(pinned) => match read.all {
            Err(e) => Err(InspectFault::Storage(e.message@)),
            Ok(all) => {
                let a = Seq::empty().push(("episode_id"@, JsonView::Int(id as int))).push(
                    ("pinned"@, JsonView::Bool(pinned)),
                );
                Ok(
                    JsonView::Object(
                        if pinned {
                            a.push(("all_pinned"@, number_list(all@)))
                        } else {
                            a
                        },
                    ),
                )
            },
        },
    }
}

pub fn inspect_pin(id: i64, read: PinRead) -> (r: Result<Json, InspectError>)
    ensures
        outcome(r) == inspected_pin(id, read),
{
    let pinned = match read.pinned {
        Err(e) => return Err(InspectError::Storage(e)),
        Ok(p) => p,
    };
    let all = match read.all {
        Err(e) => return Err(InspectError::Storage(e)),
        Ok(a) => a,
    };
    let m = Members::new().integer("episode_id", id as i128).flag("pinned", pinned);
    Ok(
        if pinned {
            m.put("all_pinned", Json::numbers(&all)).done()
        } else {
            m.done()
        },
    )
}

/// At most as many neighbours of an episode are told.
pub const EDGE_LIMIT: usize = 32;

/// A neighbour of an episode, and how alike the two are.
#[derive(Debug)]
pub struct EdgeRow {
    pub episode_id: i64,
    pub similarity: Json,
}

pub open spec fn edge_value(e: EdgeRow) -> JsonView {
    JsonView::Object(
        Seq::empty().push(("episode_id"@, JsonView::Int(e.episode_id as int))).push(
            ("similarity"@, e.similarity@),
        ),
    )
}

/// What is told of the neighbours of an episode.
pub open spec fn inspected_edges(id: i64, read: Result<Vec<EdgeRow>, StorageError>) -> Result<
    JsonView,
    InspectFault,
> {
    match read {
        Err(e) => Err(InspectFault::Storage(e.message@)),
        Ok(rows) => Ok(
            JsonView::Object(
                Seq::empty().push(("episode_id"@, JsonView::Int(id as int))).push(
                    ("edge_count"@, JsonView::Int(rows@.len() as int)),
                ).push(
                    (
                        "edges"@,
                        JsonView::List(Seq::new(rows@.len(), |i: int| edge_value(rows@[i]))),
                    ),
                ),
            ),
        ),
    }
}

pub fn inspect_edges(id: i64, read: Result<Vec<EdgeRow>, StorageError>) -> (r: Result<
    Json,
    InspectError,
>)
    ensures
        outcome(r) == inspected_edges(id, read),
{
    let rows = match read {
        Err(e) => return Err(InspectError::Storage(e)),
        Ok(rows) => rows,
    };
    let mut out: Vec<Json> = none();
    let mut i: usize = 0;
    while i < rows.len()
        invariant
            i <= rows.len(),
            out.deep_view() =~= Seq::new(i as nat, |k: int| edge_value(rows@[k])),
        decreases rows.len() - i,
    {
        let item = Members::new().integer("episode_id", rows[i].episode_id as i128).put(
            "similarity",
            rows[i].similarity.dup(),
        ).done();
        out = with(out, item);
        i = i + 1;
    }
    Ok(
        Members::new().integer("episode_id", id as i128).integer(
            "edge_count",
            rows.len() as i128,
        ).put("edges", Json::list(out)).done(),
    )
}

/// The paragraph about the user.
#[derive(Debug)]
pub struct NarrativeRow {
    pub paragraph_md: String,
    pub synthesized_at_ns: i64,
    pub kind: String,
}

pub open spec fn narrative_value(paragraph: Seq<char>, at: int, kind: Seq<char>) -> JsonView {
    JsonView::Object(
        Seq::empty().push(("paragraph_md"@, JsonView::Text(paragraph))).push(
            ("synthesized_at_ns"@, JsonView::Int(at)),
        ).push(("kind"@, JsonView::Text(kind))),
    )
}

/// What is told of the narrative: an empty one where none is stored.
pub open spec fn inspected_narrative(read: Result<Option<NarrativeRow>, StorageError>) -> Result<
    JsonView,
    InspectFault,
> {
    match read {
        Err(e) => Err(InspectFault::Storage(e.message@)),
        Ok(Some(n)) => Ok(
            narrative_value(n.paragraph_md@, n.synthesized_at_ns as int, n.kind@),
        ),
        Ok(None) => Ok(narrative_value(""@, 0, "rule"@)),
    }
}

pub fn inspect_narrative(read: Result<Option<NarrativeRow>, StorageError>) -> (r: Result<
    Json,
    InspectError,
>)
    ensures
        outcome(r) == inspected_narrative(read),
{
    match read {
        Err(e) => Err(InspectError::Storage(e)),
        Ok(Some(n)) => Ok(
            Members::new().text("paragraph_md", n.paragraph_md.as_str()).integer(
                "synthesized_at_ns",
                n.synthesized_at_ns as i128,
            ).text("kind", n.kind.as_str()).done(),
        ),
        Ok(None) => Ok(
            Members::new().text("paragraph_md", "").integer("synthesized_at_ns", 0).text(
                "kind",
                "rule",
            ).done(),
        ),
    }
}

/// The centre of the vectors of the user: over how many episodes, its size and its first
/// numbers.
#[derive(Debug)]
pub struct CentroidFacts {
    pub episode_count: i64,
    pub dim: usize,
    pub preview: Vec<Json>,
}

/// What is told of the centroid.
pub open spec fn inspected_centroid(read: Result<Option<CentroidFacts>, StorageError>) -> Result<
    JsonView,
    InspectFault,
> {
    match read {
        Err(e) => Err(InspectFault::Storage(e.message@)),
        Ok(Some(c)) => Ok(
            JsonView::Object(
                Seq::empty().push(
                    ("episode_count"@, JsonView::Int(c.episode_count as int)),
                ).push(("dim"@, JsonView::Int(c.dim as int))).push(
                    ("preview_first_8"@, JsonView::List(c.preview.deep_view())),
                ),
            ),
        ),
        Ok(None) => Ok(
            JsonView::Object(
                Seq::empty().push(("episode_count"@, JsonView::Int(0))).push(
                    ("dim"@, JsonView::Int(0)),
                ).push(("primed"@, JsonView::Bool(false))),
            ),
        ),
    }
}

pub fn inspect_centroid(read: Result<Option<CentroidFacts>, StorageError>) -> (r: Result<
    Json,
    InspectError,
>)
    ensures
        outcome(r) == inspected_centroid(read),
{
    match read {
        Err(e) => Err(InspectError::Storage(e)),
        Ok(Some(c)) => Ok(
            Members::new().integer("episode_count", c.episode_count as i128).integer(
                "dim",
                c.dim as i128,
            ).put("preview_first_8", Json::list(c.preview)).done(),
        ),
        Ok(None) => Ok(
            Members::new().integer("episode_count", 0).integer("dim", 0).flag(
                "primed",
                false,
            ).done(),
        ),
    }
}

// ---------------------------------------------------------------------------
// Weights
// ---------------------------------------------------------------------------

/// Whether trained projections are used: they must fit the vectors that are embedded, be
/// square, and hold finite numbers only.
pub open spec fn recall_active(w: ProjectionWeightsView, primary_dim: usize) -> Seq<char> {
    let square = w.dim * w.dim;
    if w.dim != primary_dim {
        "frozen (dim mismatch with embedder)"@
    } else if w.len_q != square || w.len_k != square || w.len_v != square {
        "frozen (shape mismatch)"@
    } else if w.any_non_finite {
        "frozen (corrupt: NaN/Inf)"@
    } else {
        "trained"@
    }
}

pub fn derive_recall_active(w: &ProjectionWeights, primary_dim: usize) -> (r: &'static str)
    ensures
        r@ == recall_active(w.deep_view(), primary_dim),
{
    if w.dim != primary_dim {
        return "frozen (dim mismatch with embedder)";
    }
    assert(w.dim * w.dim <= 0xffff_ffff_ffff_ffff * 0xffff_ffff_ffff_ffff) by (nonlinear_arith)
        requires
            w.dim <= 0xffff_ffff_ffff_ffff,
    ;
    let expected: u128 = w.dim as u128 * w.dim as u128;
    if w.len_q as u128 != expected || w.len_k as u128 != expected || w.len_v as u128 != expected {
        return "frozen (shape mismatch)";
    }
    if w.any_non_finite {
        return "frozen (corrupt: NaN/Inf)";
    }
    "trained"
}

/// Three square matrices as JSON. How many heads they have is told where they have some.
pub open spec fn projection_value(w: ProjectionWeightsView, primary_dim: usize) -> JsonView {
    let a = Seq::empty().push(("dim"@, JsonView::Int(w.dim as int)));
    let b = match w.num_heads {
        Some(n) => a.push(("num_heads"@, JsonView::Int(n as int))),
        None => a,
    };
    JsonView::Object(
        b.push(("train_steps"@, JsonView::Int(w.train_steps as int))).push(
            ("saved_at_ns"@, JsonView::Int(w.saved_at_ns as int)),
        ).push(
            (
                "frobenius_delta_from_identity"@,
                JsonView::Object(
                    Seq::empty().push(("w_q"@, w.delta_q)).push(("w_k"@, w.delta_k)).push(
                        ("w_v"@, w.delta_v),
                    ),
                ),
            ),
        ).push(("any_non_finite"@, JsonView::Bool(w.any_non_finite))).push(
            ("recall_active"@, JsonView::Text(recall_active(w, primary_dim))),
        ),
    )
}

fn projection_json(w: &ProjectionWeights, primary_dim: usize) -> (r: Json)
    ensures
        r@ == projection_value(w.deep_view(), primary_dim),
{
    let a = Members::new().integer("dim", w.dim as i128);
    let b = match w.num_heads {
        Some(n) => a.integer("num_heads", n as i128),
        None => a,
    };
    let deltas = Members::new().put("w_q", w.delta_q.dup()).put("w_k", w.delta_k.dup()).put(
        "w_v",
        w.delta_v.dup(),
    );
    b.integer("train_steps", w.train_steps as i128).integer(
        "saved_at_ns",
        w.saved_at_ns as i128,
    ).object("frobenius_delta_from_identity", deltas).flag(
        "any_non_finite",
        w.any_non_finite,
    ).text("recall_active", derive_recall_active(w, primary_dim)).done()
}

/// The matrices as JSON, or null where none are stored.
pub open spec fn projection_or_null(
    w: Option<ProjectionWeightsView>,
    primary_dim: usize,
) -> JsonView {
    match w {
        Some(w) => projection_value(w, primary_dim),
        None => JsonView::Null,
    }
}

fn projection_json_or_null(w: &Option<ProjectionWeights>, primary_dim: usize) -> (r: Json)
    ensures
        r@ == projection_or_null(w.deep_view(), primary_dim),
{
    match w {
        Some(w) => projection_json(w, primary_dim),
        None => Json::Null,
    }
}

pub open spec fn head_value(w: HeadWeightsView) -> JsonView {
    JsonView::Object(Seq::empty().push(("d_emb"@, JsonView::Int(w.d_emb as int)))
        .push(("num_classes"@, JsonView::Int(w.projects.len() as int)))
        .push(("projects"@, text_list(w.projects)))
        .push(("train_steps"@, JsonView::Int(w.train_steps as int)))
        .push(("saved_at_ns"@, JsonView::Int(w.saved_at_ns as int))).push(("w_norm"@, w.w_norm))
        .push(("b_norm"@, w.b_norm)).push(("any_non_finite"@, JsonView::Bool(w.any_non_finite))))
}

fn head_json(w: &HeadWeights) -> (r: Json)
    ensures
        r@ == head_value(w.deep_view()),
{
    assert(w.projects.deep_view().len() == w.projects.len());
    Members::new().integer("d_emb", w.d_emb as i128)
        .integer("num_classes", w.projects.len() as i128).put("projects", Json::texts(&w.projects))
        .integer("train_steps", w.train_steps as i128).integer("saved_at_ns", w.saved_at_ns as i128)
        .put("w_norm", w.w_norm.dup()).put("b_norm", w.b_norm.dup())
        .flag("any_non_finite", w.any_non_finite).done()
}

pub open spec fn layer_value(w: LayerWeightsView) -> JsonView {
    JsonView::Object(Seq::empty().push(("layer_idx"@, JsonView::Int(w.layer_idx as int)))
        .push(("d_in"@, JsonView::Int(w.d_in as int)))
        .push(("d_out"@, JsonView::Int(w.d_out as int)))
        .push(("train_steps"@, JsonView::Int(w.train_steps as int)))
        .push(("saved_at_ns"@, JsonView::Int(w.saved_at_ns as int))).push(("w_norm"@, w.w_norm))
        .push(("any_non_finite"@, JsonView::Bool(w.any_non_finite))))
}

fn layer_json(w: &LayerWeights) -> (r: Json)
    ensures
        r@ == layer_value(w.deep_view()),
{
    Members::new().integer("layer_idx", w.layer_idx as i128).integer("d_in", w.d_in as i128)
        .integer("d_out", w.d_out as i128).integer("train_steps", w.train_steps as i128)
        .integer("saved_at_ns", w.saved_at_ns as i128).put("w_norm", w.w_norm.dup())
        .flag("any_non_finite", w.any_non_finite).done()
}

pub open spec fn layers_value(layers: Seq<LayerWeightsView>) -> JsonView {
    JsonView::List(Seq::new(layers.len(), |i: int| layer_value(layers[i])))
}

fn layers_json(layers: &Vec<LayerWeights>) -> (r: Json)
    ensures
        r@ == layers_value(layers.deep_view()),
{
    let ghost all = layers.deep_view();
    let mut out: Vec<Json> = none();
    let mut i: usize = 0;
    while i < layers.len()
        invariant
            i <= layers.len(),
            all == layers.deep_view(),
            out.deep_view() =~= Seq::new(i as nat, |k: int| layer_value(all[k])),
        decreases layers.len() - i,
    {
        out = with(out, layer_json(&layers[i]));
        i = i + 1;
    }
    assert(all.len() == layers.len());
    Json::list(out)
}

/// What the store gave of the weights.
#[derive(Debug)]
pub struct WeightsRead {
    pub primary_dim: usize,
    pub disposition: Json,
    pub mlstm: Result<Option<ProjectionWeights>, StorageError>,
    pub hopfield: Result<Option<ProjectionWeights>, StorageError>,
    pub anil: Result<Option<HeadWeights>, StorageError>,
    pub pc_layers: Result<Vec<LayerWeights>, StorageError>,
}

/// What is told of the weights: each kind, or null where it is not stored.
pub open spec fn inspected_weights(read: WeightsRead) -> Result<JsonView, InspectFault> {
    match read.mlstm {
        Err(e) => Err(InspectFault::Storage(e.message@)),
        Ok(mlstm) => match read.hopfield {
            Err(e) => Err(InspectFault::Storage(e.message@)),
            Ok(hopfield) => match read.anil {
                Err(e) => Err(InspectFault::Storage(e.message@)),
                Ok(anil) => match read.pc_layers {
                    Err(e) => Err(InspectFault::Storage(e.message@)),
                    Ok(layers) => Ok(
                        JsonView::Object(
                            Seq::empty().push(
                                ("context_envelope_disposition"@, read.disposition@),
                            ).push(
                                (
                                    "mlstm"@,
                                    projection_or_null(mlstm.deep_view(), read.primary_dim),
                                ),
                            ).push(
                                (
                                    "hopfield"@,
                                    projection_or_null(hopfield.deep_view(), read.primary_dim),
                                ),
                            ).push(
                                (
                                    "anil"@,
                                    match anil.deep_view() {
                                        Some(w) => head_value(w),
                                        None => JsonView::Null,
                                    },
                                ),
                            ).push(("pc_layers"@, layers_value(layers.deep_view()))),
                        ),
                    ),
                },
            },
        },
    }
}

pub fn inspect_weights(read: WeightsRead) -> (r: Result<Json, InspectError>)
    ensures
        outcome(r) == inspected_weights(read),
{
    let mlstm = match read.mlstm {
        Err(e) => return Err(InspectError::Storage(e)),
        Ok(w) => w,
    };
    let hopfield = match read.hopfield {
        Err(e) => return Err(InspectError::Storage(e)),
        Ok(w) => w,
    };
    let anil = match read.anil {
        Err(e) => return Err(InspectError::Storage(e)),
        Ok(w) => w,
    };
    let layers = match read.pc_layers {
        Err(e) => return Err(InspectError::Storage(e)),
        Ok(w) => w,
    };
    let head = match &anil {
        Some(w) => head_json(w),
        None => Json::Null,
    };
    Ok(
        Members::new().put("context_envelope_disposition", read.disposition).put(
            "mlstm",
            projection_json_or_null(&mlstm, read.primary_dim),
        ).put("hopfield", projection_json_or_null(&hopfield, read.primary_dim)).put(
            "anil",
            head,
        ).put("pc_layers", layers_json(&layers)).done(),
    )
}

// ---------------------------------------------------------------------------
// The command
// ---------------------------------------------------------------------------

/// What the store gave on a query.
#[derive(Debug)]
pub enum InspectRead {
    Episode(EpisodeRead),
    Vector { model_id: String, vector: Result<Option<VectorFacts>, StorageError> },
    Pin(PinRead),
    Edges(Result<Vec<EdgeRow>, StorageError>),
    Narrative(Result<Option<NarrativeRow>, StorageError>),
    Centroid(Result<Option<CentroidFacts>, StorageError>),
    Weights(WeightsRead),
}

/// The store was asked what the query says.
pub open spec fn answers(read: InspectRead, query: InspectQuery) -> bool {
    match query {
        InspectQuery::Episode(_) => read is Episode,
        InspectQuery::Vector(_) => read is Vector,
        InspectQuery::Pin(_) => read is Pin,
        InspectQuery::Edges(_) => read is Edges,
        InspectQuery::Narrative => read is Narrative,
        InspectQuery::Centroid => read is Centroid,
        InspectQuery::Weights => read is Weights,
    }
}

/// Whether the store was asked what the query says.
pub fn read_answers(read: &InspectRead, query: &InspectQuery) -> (r: bool)
    ensures
        r == answers(*read, *query),
{
    match (query, read) {
        (InspectQuery::Episode(_), InspectRead::Episode(_)) => true,
        (InspectQuery::Vector(_), InspectRead::Vector { .. }) => true,
        (InspectQuery::Pin(_), InspectRead::Pin(_)) => true,
        (InspectQuery::Edges(_), InspectRead::Edges(_)) => true,
        (InspectQuery::Narrative, InspectRead::Narrative(_)) => true,
        (InspectQuery::Centroid, InspectRead::Centroid(_)) => true,
        (InspectQuery::Weights, InspectRead::Weights(_)) => true,
        _ => false,
    }
}

/// The value that answers a query.
pub open spec fn inspected(
    query: InspectQuery,
    include_forgotten: bool,
    read: InspectRead,
) -> Result<
    JsonView,
    InspectFault,
> {
    match query {
        InspectQuery::Episode(id) => inspected_episode(id, include_forgotten, read->Episode_0),
        InspectQuery::Vector(id) => inspected_vector(
            id,
            read->Vector_model_id@,
            read->Vector_vector,
        ),
        InspectQuery::Pin(id) => inspected_pin(id, read->Pin_0),
        InspectQuery::Edges(id) => inspected_edges(id, read->Edges_0),
        InspectQuery::Narrative => inspected_narrative(read->Narrative_0),
        InspectQuery::Centroid => inspected_centroid(read->Centroid_0),
        InspectQuery::Weights => inspected_weights(read->Weights_0),
    }
}

/// A value as Markdown.
pub open spec fn markdown(kind: Seq<char>, v: JsonView) -> Seq<char> {
    "# Inspect: "@ + kind + "\n\n```json\n"@ + json_pretty(v) + "\n```\n"@
}

pub fn render_markdown(kind: &str, v: &Json) -> (r: String)
    ensures
        r@ == markdown(kind@, v@),
{
    Phrase::new("# Inspect: ").t(kind).t("\n\n```json\n").t(print_json_pretty(v).as_str()).t(
        "\n```\n",
    ).done()
}

/// A value as it is printed.
pub open spec fn rendered(args: InspectArgsView, value: Result<JsonView, InspectFault>) -> Result<
    Seq<char>,
    InspectFault,
> {
    match value {
        Err(f) => Err(f),
        Ok(v) => if args.format == "json"@ {
            Ok(json_pretty(v))
        } else if args.format == "markdown"@ {
            Ok(markdown(args.kind, v))
        } else {
            Err(
                InspectFault::BadInput(
                    "unknown --format `"@ + args.format + "` — accepted: json / markdown"@,
                ),
            )
        },
    }
}

/// Begins one `soma inspect` call on a store that was opened or not: what the store is to
/// be asked.
pub fn begin_inspect(args: &InspectArgs, opened: Result<(), StorageError>) -> (r: Result<
    InspectQuery,
    InspectError,
>)
    ensures
        plain(r) == match opened {
            Err(e) => Err(InspectFault::Storage(e.message@)),
            Ok(_) => query_of(args.deep_view()),
        },
{
    match opened {
        Err(e) => Err(InspectError::Storage(e)),
        Ok(_) => query(args),
    }
}

/// Ends one `soma inspect` call: what the store gave on the query, as text.
pub fn run_inspect(args: &InspectArgs, query: InspectQuery, read: InspectRead) -> (r: Result<
    String,
    InspectError,
>)
    requires
        answers(read, query),
    ensures
        outcome(r) == rendered(
            args.deep_view(),
            inspected(query, args.include_forgotten, read),
        ),
{
    let value = match (query, read) {
        (InspectQuery::Episode(id), InspectRead::Episode(read)) => inspect_episode(
            id,
            args.include_forgotten,
            read,
        ),
        (InspectQuery::Vector(id), InspectRead::Vector { model_id, vector }) => inspect_vector(
            id,
            model_id.as_str(),
            vector,
        ),
        (InspectQuery::Pin(id), InspectRead::Pin(read)) => inspect_pin(id, read),
        (InspectQuery::Edges(id), InspectRead::Edges(read)) => inspect_edges(id, read),
        (_, InspectRead::Narrative(read)) => inspect_narrative(read),
        (_, InspectRead::Centroid(read)) => inspect_centroid(read),
        (_, InspectRead::Weights(read)) => inspect_weights(read),
        _ => {
            assert(false);
            return Err(InspectError::BadInput(String::new()));
        },
    };
    match value {
        Err(e) => Err(e),
        Ok(v) => if same(args.format.as_str(), "json") {
            Ok(print_json_pretty(&v))
        } else if same(args.format.as_str(), "markdown") {
            Ok(render_markdown(args.kind.as_str(), &v))
        } else {
            Err(
                InspectError::BadInput(
                    cat3(
                        "unknown --format `",
                        args.format.as_str(),
                        "` — accepted: json / markdown",
                    ),
                ),
            )
        },
    }
}

/// Where the store is: as chosen, else as the variable `SOMA_DB` says, else below the
/// home directory.
pub open spec fn store_place(
    cli: Option<Seq<char>>,
    env: Option<Seq<char>>,
    home: Option<Seq<char>>,
) -> Result<Seq<char>, InspectFault> {
    if cli is Some {
        Ok(cli->0)
    } else if env is Some && env->0.len() > 0 {
        Ok(env->0)
    } else {
        match home {
            Some(h) => Ok(joined_path(joined_path(h, ".soma"@), "soma.db"@)),
            None => Err(InspectFault::Path("home dir not resolvable"@)),
        }
    }
}

pub fn resolve_db_path(
    cli_override: Option<&str>,
    env: Option<&str>,
    home: Option<&str>,
) -> (r: Result<String, InspectError>)
    ensures
        outcome(r) == store_place(cli_override.deep_view(), env.deep_view(), home.deep_view()),
{
    if let Some(p) = cli_override {
        return Ok(p.to_string());
    }
    if let Some(e) = env {
        if !e.is_empty() {
            return Ok(e.to_string());
        }
    }
    match home {
        Some(h) => Ok(join(join(h, ".soma").as_str(), "soma.db")),
        None => Err(InspectError::Path("home dir not resolvable".to_string())),
    }
}

// ---------------------------------------------------------------------------
// Laws
// ---------------------------------------------------------------------------

/// A forgotten episode is told if and only if forgotten ones are asked for, whatever else
/// the store says of it.
pub proof fn law_forgotten_episodes_are_told_on_demand(
    id: i64,
    include_forgotten: bool,
    read: EpisodeRead,
)
    requires
        read.episode matches Ok(Some(_)),
        read.access is Ok,
        read.summary is Ok,
        read.forgotten matches Ok(Some(_)),
    ensures
        inspected_episode(id, include_forgotten, read) is Ok <==> include_forgotten,
{
}

/// The row that is found is the first with its number.
pub proof fn law_row_is_the_first(ids: Seq<i64>, id: i64)
    ensures
        match row_at(ids, id) {
            Some(i) => 0 <= i < ids.len() && ids[i] == id && forall|k: int|
                0 <= k < i ==> #[trigger] ids[k] != id,
            None => forall|k: int| 0 <= k < ids.len() ==> #[trigger] ids[k] != id,
        },
    decreases ids.len(),
{
    if ids.len() > 0 {
        law_row_is_the_first(ids.drop_last(), id);
        assert forall|k: int| 0 <= k < ids.len() - 1 implies #[trigger] ids[k]
            == ids.drop_last()[k] by {}
    }
}

/// Each kind asks for what it is called: an episode, its vector, its pin or its edges by
/// their number, which must be given, and the narrative, the centroid and the weights
/// without one. No other kind is known.
pub proof fn law_kinds_ask_for_what_they_are_called(args: InspectArgsView)
    ensures
        args.id matches Some(id) ==> {
            &&& args.kind == "episode"@ ==> query_of(args) == Ok::<InspectQuery, InspectFault>(
                InspectQuery::Episode(id),
            )
            &&& args.kind == "vector"@ ==> query_of(args) == Ok::<InspectQuery, InspectFault>(
                InspectQuery::Vector(id),
            )
            &&& args.kind == "pin"@ ==> query_of(args) == Ok::<InspectQuery, InspectFault>(
                InspectQuery::Pin(id),
            )
            &&& args.kind == "edges"@ ==> query_of(args) == Ok::<InspectQuery, InspectFault>(
                InspectQuery::Edges(id),
            )
        },
        args.id is None && (args.kind == "episode"@ || args.kind == "vector"@ || args.kind == "pin"@
            || args.kind == "edges"@) ==> query_of(args) is Err,
        args.kind == "narrative"@ ==> query_of(args) == Ok::<InspectQuery, InspectFault>(
            InspectQuery::Narrative,
        ),
        args.kind == "centroid"@ ==> query_of(args) == Ok::<InspectQuery, InspectFault>(
            InspectQuery::Centroid,
        ),
        args.kind == "weights"@ ==> query_of(args) == Ok::<InspectQuery, InspectFault>(
            InspectQuery::Weights,
        ),
        query_of(args) is Ok ==> args.kind == "episode"@ || args.kind == "vector"@ || args.kind
            == "pin"@ || args.kind == "edges"@ || args.kind == "narrative"@ || args.kind
            == "centroid"@ || args.kind == "weights"@,
{
    reveal_strlit("episode");
    reveal_strlit("vector");
    reveal_strlit("pin");
    reveal_strlit("edges");
    reveal_strlit("narrative");
    reveal_strlit("centroid");
    reveal_strlit("weights");
    assert("episode"@.len() == 7 && "episode"@[0] == 'e');
    assert("vector"@.len() == 6);
    assert("pin"@.len() == 3);
    assert("edges"@.len() == 5);
    assert("narrative"@.len() == 9);
    assert("centroid"@.len() == 8);
    assert("weights"@.len() == 7 && "weights"@[0] == 'w');
}

/// What is told of an episode that can be told is what was stored of it.
pub proof fn law_told_episodes_are_the_stored_ones(
    id: i64,
    include_forgotten: bool,
    read: EpisodeRead,
    ep: StoredEpisode,
)
    requires
        read.episode == Ok::<Option<StoredEpisode>, StorageError>(Some(ep)),
    ensures
        inspected_episode(id, include_forgotten, read) matches Ok(v) ==> v is Object && {
            let m = v->Object_0;
            &&& m[0] == ("id"@, JsonView::Int(ep.id as int))
            &&& m[1] == ("ts_start_ns"@, JsonView::Int(ep.ts_start_ns as int))
            &&& m[2] == ("ts_end_ns"@, JsonView::Int(ep.ts_end_ns as int))
            &&& m[3] == ("duration_ms"@, JsonView::Int(ep.duration_ms as int))
            &&& m[4].0 == "source"@ && m[4].1 == JsonView::Text(ep.deep_view().source)
            &&& m[5] == ("session_id"@, opt_text(ep.session_id.deep_view()))
            &&& m[6] == ("prompt_text"@, opt_text(ep.prompt_text.deep_view()))
            &&& m[7] == ("response_text"@, opt_text(ep.response_text.deep_view()))
            &&& m[8] == ("command"@, opt_text(ep.command.deep_view()))
            &&& m[9].0 == "exit_code"@ && m[9].1 == (match ep.exit_code {
                Some(c) => JsonView::Int(c as int),
                None => JsonView::Null,
            })
            &&& m[10] == ("cwd"@, opt_text(ep.cwd.deep_view()))
            &&& m[11] == ("git_branch"@, opt_text(ep.git_branch.deep_view()))
            &&& m[12] == ("project"@, opt_text(ep.project.deep_view()))
            &&& m[13] == ("digest"@, opt_text(ep.digest.deep_view()))
        },
{
}

/// Trained weights are used in recall iff they have the dimension of the embedder, all
/// their matrices are square of that dimension, and all their numbers are finite.
pub proof fn law_sound_weights_are_active(w: ProjectionWeightsView, primary_dim: usize)
    ensures
        recall_active(w, primary_dim) == "trained"@ <==> w.dim == primary_dim && w.len_q == w.dim
            * w.dim && w.len_k == w.dim * w.dim && w.len_v == w.dim * w.dim && !w.any_non_finite,
        w.dim != primary_dim ==> recall_active(w, primary_dim)
            == "frozen (dim mismatch with embedder)"@,
        w.dim == primary_dim && w.len_q == w.dim * w.dim && w.len_k == w.dim * w.dim && w.len_v
            == w.dim * w.dim && w.any_non_finite ==> recall_active(w, primary_dim)
            == "frozen (corrupt: NaN/Inf)"@,
{
    reveal_strlit("trained");
    reveal_strlit("frozen (dim mismatch with embedder)");
    reveal_strlit("frozen (shape mismatch)");
    reveal_strlit("frozen (corrupt: NaN/Inf)");
    assert("trained"@[0] == 't');
    assert("frozen (dim mismatch with embedder)"@[0] == 'f');
    assert("frozen (shape mismatch)"@[0] == 'f');
    assert("frozen (corrupt: NaN/Inf)"@[0] == 'f');
}

/// What was found is shown in one of the two formats, and only then.
pub proof fn law_two_formats_are_shown(args: InspectArgsView, v: JsonView)
    ensures
        args.format == "json"@ ==> rendered(args, Ok(v)) == Ok::<Seq<char>, InspectFault>(
            json_pretty(v),
        ),
        args.format == "markdown"@ ==> rendered(args, Ok(v)) == Ok::<Seq<char>, InspectFault>(
            "# Inspect: "@ + args.kind + "\n\n```json\n"@ + json_pretty(v) + "\n```\n"@,
        ),
        args.format != "json"@ && args.format != "markdown"@ ==> rendered(args, Ok(v)) is Err,
{
    reveal_strlit("json");
    reveal_strlit("markdown");
    assert("json"@.len() == 4);
    assert("markdown"@.len() == 8);
}

}
