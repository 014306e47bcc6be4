//! `soma diagnose`: one JSON value about the installation, for a report.
//!
//! Nothing that goes wrong on the way stops it: what could not be found out is left empty,
//! and why is listed at the end.
use super::binary_identity::{
    collect_binary_identity_with_errors, found, identity_faults, identity_json, identity_of,
    identity_value, ObservedBinary,
};
use crate::capture::ai_cli::{fault_text, IngestError};
use crate::json::{opt_text, text_list, with_member, Json, JsonView, Members};
use crate::outcome::outcome;
use crate::outside::{json_pretty, print_json_pretty};
use crate::storage::StorageError;
use crate::text::{cat2, nil, none, with};
use vstd::prelude::*;

verus! {

/// The shape of the weights of the working memory.
#[derive(Debug, Clone, Copy)]
pub struct MemoryShape {
    pub dim: usize,
    pub train_steps: i64,
}

/// The shape of the weights of the associative memory.
#[derive(Debug, Clone, Copy)]
pub struct HopfieldShape {
    pub dim: usize,
    pub num_heads: usize,
    pub train_steps: i64,
}

/// The shape of the weights that tell projects apart.
#[derive(Debug, Clone, Copy)]
pub struct HeadShape {
    pub d_emb: usize,
    pub num_classes: usize,
    pub train_steps: i64,
}

/// The shape of one layer of the predictor.
#[derive(Debug, Clone, Copy)]
pub struct LayerShape {
    pub layer_idx: i64,
    pub d_in: usize,
    pub d_out: usize,
    pub train_steps: i64,
}

/// The shapes of the weights in the store, as far as they could be read.
#[derive(Debug)]
pub struct WeightShapes {
    pub mlstm: Result<Option<MemoryShape>, StorageError>,
    pub hopfield: Result<Option<HopfieldShape>, StorageError>,
    pub anil: Result<Option<HeadShape>, StorageError>,
    pub pc_layers: Result<Vec<LayerShape>, StorageError>,
}

/// The message about something that could not be found out.
pub open spec fn fault_line<T>(what: Seq<char>, r: Result<T, StorageError>) -> Seq<Seq<char>> {
    match r {
        Ok(_) => nil(),
        Err(e) => nil().push(what + e.message@),
    }
}

fn note_fault<T>(what: &str, r: &Result<T, StorageError>, errors: &mut Vec<String>)
    ensures
        final(errors).deep_view() == old(errors).deep_view() + fault_line(what@, *r),
{
    let ghost had = errors.deep_view();
    match r {
        Ok(_) => {},
        Err(e) => {
            errors.push(cat2(what, e.message.as_str()));
        },
    }
    assert(errors.deep_view() =~= had + fault_line(what@, *r));
}

pub open spec fn memory_value(r: Result<Option<MemoryShape>, StorageError>) -> Option<JsonView> {
    match r {
        Ok(Some(w)) => Some(
            JsonView::Object(
                Seq::empty().push(("dim"@, JsonView::Int(w.dim as int))).push(
                    ("train_steps"@, JsonView::Int(w.train_steps as int)),
                ),
            ),
        ),
        _ => None,
    }
}

pub open spec fn hopfield_value(r: Result<Option<HopfieldShape>, StorageError>) -> Option<
    JsonView,
> {
    match r {
        Ok(Some(w)) => Some(
            JsonView::Object(
                Seq::empty().push(("dim"@, JsonView::Int(w.dim as int))).push(
                    ("num_heads"@, JsonView::Int(w.num_heads as int)),
                ).push(("train_steps"@, JsonView::Int(w.train_steps as int))),
            ),
        ),
        _ => None,
    }
}

pub open spec fn head_value(r: Result<Option<HeadShape>, StorageError>) -> Option<JsonView> {
    match r {
        Ok(Some(w)) => Some(
            JsonView::Object(
                Seq::empty().push(("d_emb"@, JsonView::Int(w.d_emb as int))).push(
                    ("num_classes"@, JsonView::Int(w.num_classes as int)),
                ).push(("train_steps"@, JsonView::Int(w.train_steps as int))),
            ),
        ),
        _ => None,
    }
}

pub open spec fn layer_value(l: LayerShape) -> JsonView {
    JsonView::Object(
        Seq::empty().push(("layer_idx"@, JsonView::Int(l.layer_idx as int))).push(
            ("d_in"@, JsonView::Int(l.d_in as int)),
        ).push(("d_out"@, JsonView::Int(l.d_out as int))).push(
            ("train_steps"@, JsonView::Int(l.train_steps as int)),
        ),
    )
}

/// The layers, where there are any.
pub open spec fn layers_value(r: Result<Vec<LayerShape>, StorageError>) -> Option<JsonView> {
    match r {
        Ok(layers) => if layers@.len() > 0 {
            Some(JsonView::List(Seq::new(layers@.len(), |i: int| layer_value(layers@[i]))))
        } else {
            None
        },
        Err(_) => None,
    }
}

/// The shapes as JSON. Weights that are not stored are left out.
pub open spec fn shapes_value(s: WeightShapes) -> JsonView {
    let a = with_member(Seq::empty(), "mlstm"@, memory_value(s.mlstm));
    let b = with_member(a, "hopfield"@, hopfield_value(s.hopfield));
    let c = with_member(b, "anil"@, head_value(s.anil));
    JsonView::Object(with_member(c, "pc_layers"@, layers_value(s.pc_layers)))
}

/// The messages about shapes that could not be read.
pub open spec fn shape_faults(s: WeightShapes) -> Seq<Seq<char>> {
    fault_line("get_working_memory_weights: "@, s.mlstm) + fault_line(
        "get_hopfield_weights: "@,
        s.hopfield,
    ) + fault_line("get_anil_head_weights: "@, s.anil) + fault_line(
        "get_pc_predictor_layers: "@,
        s.pc_layers,
    )
}

fn memory_json(r: &Result<Option<MemoryShape>, StorageError>) -> (j: Option<Json>)
    ensures
        j.deep_view() == memory_value(*r),
{
    match r {
        Ok(Some(w)) => Some(
            Members::new().integer("dim", w.dim as i128).integer(
                "train_steps",
                w.train_steps as i128,
            ).done(),
        ),
        _ => None,
    }
}

fn hopfield_json(r: &Result<Option<HopfieldShape>, StorageError>) -> (j: Option<Json>)
    ensures
        j.deep_view() == hopfield_value(*r),
{
    match r {
        Ok(Some(w)) => Some(
            Members::new().integer("dim", w.dim as i128).integer(
                "num_heads",
                w.num_heads as i128,
            ).integer("train_steps", w.train_steps as i128).done(),
        ),
        _ => None,
    }
}

fn head_json(r: &Result<Option<HeadShape>, StorageError>) -> (j: Option<Json>)
    ensures
        j.deep_view() == head_value(*r),
{
    match r {
        Ok(Some(w)) => Some(
            Members::new().integer("d_emb", w.d_emb as i128).integer(
                "num_classes",
                w.num_classes as i128,
            ).integer("train_steps", w.train_steps as i128).done(),
        ),
        _ => None,
    }
}

fn layers_json(r: &Result<Vec<LayerShape>, StorageError>) -> (j: Option<Json>)
    ensures
        j.deep_view() == layers_value(*r),
{
    match r {
        Ok(layers) => {
            if layers.len() == 0 {
                return None;
            }
            let mut out: Vec<Json> = none();
            let mut i: usize = 0;
            while i < layers.len()
                invariant
                    i <= layers.len(),
                    out.deep_view() =~= Seq::new(i as nat, |k: int| layer_value(layers@[k])),
                decreases layers.len() - i,
            {
                let l = &layers[i];
                let item = Members::new().integer("layer_idx", l.layer_idx as i128).integer(
                    "d_in",
                    l.d_in as i128,
                ).integer("d_out", l.d_out as i128).integer(
                    "train_steps",
                    l.train_steps as i128,
                ).done();
                out = with(out, item);
                i = i + 1;
            }
            Some(Json::list(out))
        },
        Err(_) => None,
    }
}

/// The shapes of the weights in the store. What could not be read is added to `errors`.
pub fn collect_weight_shapes(shapes: &WeightShapes, errors: &mut Vec<String>) -> (r: Json)
    ensures
        r@ == shapes_value(*shapes),
        final(errors).deep_view() == old(errors).deep_view() + shape_faults(*shapes),
{
    let ghost had = errors.deep_view();
    note_fault("get_working_memory_weights: ", &shapes.mlstm, errors);
    note_fault("get_hopfield_weights: ", &shapes.hopfield, errors);
    note_fault("get_anil_head_weights: ", &shapes.anil, errors);
    note_fault("get_pc_predictor_layers: ", &shapes.pc_layers, errors);
    assert(errors.deep_view() =~= had + shape_faults(*shapes));
    Members::new().maybe("mlstm", memory_json(&shapes.mlstm)).maybe(
        "hopfield",
        hopfield_json(&shapes.hopfield),
    ).maybe("anil", head_json(&shapes.anil)).maybe(
        "pc_layers",
        layers_json(&shapes.pc_layers),
    ).done()
}

/// What was found of the resident process.
#[derive(Debug)]
pub enum ResidentSeen {
    /// Where its socket lies could not be told.
    NoSocketPath(String),
    /// There is no socket.
    NotRunning { socket: String },
    /// There is a socket, but nothing to ask with.
    NoRuntime { socket: String, error: String },
    /// There is a socket, but no answer came.
    NoAnswer { socket: String, error: String },
    /// What it answered.
    Answered(Json),
    /// There are no residents on this system.
    NotUnix,
}

/// A state of the resident, and its socket.
pub open spec fn state_value(state: Seq<char>, socket: Option<Seq<char>>) -> JsonView {
    let a = Seq::empty().push(("state"@, JsonView::Text(state)));
    match socket {
        Some(s) => JsonView::Object(a.push(("socket"@, JsonView::Text(s)))),
        None => JsonView::Object(a),
    }
}

fn state_json(state: &str, socket: Option<&str>) -> (r: Json)
    ensures
        r@ == state_value(state@, socket.deep_view()),
{
    let a = Members::new().text("state", state);
    match socket {
        Some(s) => a.text("socket", s).done(),
        None => a.done(),
    }
}

pub open spec fn resident_value(seen: ResidentSeen) -> JsonView {
    match seen {
        ResidentSeen::NoSocketPath(_) => state_value("error"@, None),
        ResidentSeen::NotRunning { socket } => state_value("not_running"@, Some(socket@)),
        ResidentSeen::NoRuntime { socket, error } => state_value("error"@, Some(socket@)),
        ResidentSeen::NoAnswer { socket, error } => state_value("error"@, Some(socket@)),
        ResidentSeen::Answered(j) => j@,
        ResidentSeen::NotUnix => state_value("not_unix"@, None),
    }
}

pub open spec fn resident_faults(seen: ResidentSeen) -> Seq<Seq<char>> {
    match seen {
        ResidentSeen::NoSocketPath(e) => nil().push("resolve_socket_path: "@ + e@),
        ResidentSeen::NoRuntime { socket, error } => nil().push("tokio build: "@ + error@),
        ResidentSeen::NoAnswer { socket, error } => nil().push("resident probe: "@ + error@),
        _ => nil(),
    }
}

/// What the resident is doing. What went wrong is added to `errors`.
pub fn collect_resident_status(seen: ResidentSeen, errors: &mut Vec<String>) -> (r: Json)
    ensures
        r@ == resident_value(seen),
        final(errors).deep_view() == old(errors).deep_view() + resident_faults(seen),
{
    let ghost had = errors.deep_view();
    let value = match seen {
        ResidentSeen::NoSocketPath(e) => {
            errors.push(cat2("resolve_socket_path: ", e.as_str()));
            state_json("error", None)
        },
        ResidentSeen::NotRunning { socket } => state_json("not_running", Some(socket.as_str())),
        ResidentSeen::NoRuntime { socket, error } => {
            errors.push(cat2("tokio build: ", error.as_str()));
            state_json("error", Some(socket.as_str()))
        },
        ResidentSeen::NoAnswer { socket, error } => {
            errors.push(cat2("resident probe: ", error.as_str()));
            state_json("error", Some(socket.as_str()))
        },
        ResidentSeen::Answered(j) => j,
        ResidentSeen::NotUnix => state_json("not_unix", None),
    };
    assert(errors.deep_view() =~= had + resident_faults(seen));
    value
}

/// What was found in the store.
#[derive(Debug)]
pub struct StoreSeen {
    pub episode_count: Result<i64, StorageError>,
    pub weights: WeightShapes,
}

/// What was found of the installation. The size of the store and what is in it count only
/// where its place is known.
#[derive(Debug)]
pub struct DiagnoseSeen {
    pub version: String,
    pub git_sha: Option<String>,
    pub features: Vec<String>,
    pub db_path: Result<String, IngestError>,
    pub db_size_bytes: Result<u64, String>,
    pub store: Result<StoreSeen, StorageError>,
    pub disposition: Json,
    pub resident: ResidentSeen,
    pub current_exe: Result<ObservedBinary, String>,
    pub path_soma: Option<ObservedBinary>,
}

/// The messages about the place of the store and its size.
pub open spec fn place_faults(seen: DiagnoseSeen) -> Seq<Seq<char>> {
    match outcome(seen.db_path) {
        Err(f) => nil().push("resolve_db_path: "@ + fault_text(f)),
        Ok(_) => match seen.db_size_bytes {
            Err(e) => nil().push("db metadata: "@ + e@),
            Ok(_) => nil(),
        },
    }
}

/// The messages about what is in the store.
pub open spec fn store_faults(seen: DiagnoseSeen) -> Seq<Seq<char>> {
    match seen.db_path {
        Err(_) => nil(),
        Ok(_) => match seen.store {
            Err(e) => nil().push("storage open: "@ + e.message@),
            Ok(s) => fault_line("counters: "@, s.episode_count) + shape_faults(s.weights),
        },
    }
}

/// Everything that went wrong, in the order in which it was looked at.
pub open spec fn diagnose_faults(seen: DiagnoseSeen) -> Seq<Seq<char>> {
    place_faults(seen) + store_faults(seen) + resident_faults(seen.resident) + identity_faults(
        seen.current_exe,
        seen.path_soma.deep_view(),
    )
}

pub open spec fn size_value(seen: DiagnoseSeen) -> JsonView {
    match (seen.db_path, seen.db_size_bytes) {
        (Ok(_), Ok(n)) => JsonView::Int(n as int),
        _ => JsonView::Null,
    }
}

/// The number of episodes: none counts where they could not be counted.
pub open spec fn count_value(seen: DiagnoseSeen) -> JsonView {
    match (seen.db_path, seen.store) {
        (Ok(_), Ok(s)) => JsonView::Int(
            match s.episode_count {
                Ok(n) => n as int,
                Err(_) => 0,
            },
        ),
        _ => JsonView::Null,
    }
}

pub open spec fn weights_value(seen: DiagnoseSeen) -> JsonView {
    match (seen.db_path, seen.store) {
        (Ok(_), Ok(s)) => shapes_value(s.weights),
        _ => JsonView::Object(Seq::empty()),
    }
}

/// What `soma diagnose` tells.
pub open spec fn diagnosis(seen: DiagnoseSeen) -> JsonView {
    JsonView::Object(
        Seq::empty().push(("version"@, JsonView::Text(seen.version@))).push(
            (
                "git_sha"@,
                JsonView::Text(
                    match seen.git_sha {
                        Some(s) => s@,
                        None => "unknown"@,
                    },
                ),
            ),
        ).push(
            (
                "binary"@,
                identity_value(identity_of(found(seen.current_exe), seen.path_soma.deep_view())),
            ),
        ).push(("features"@, text_list(seen.features.deep_view()))).push(
            (
                "db_path"@,
                opt_text(
                    match seen.db_path {
                        Ok(p) => Some(p@),
                        Err(_) => None,
                    },
                ),
            ),
        ).push(("db_size_bytes"@, size_value(seen))).push(
            ("episode_count"@, count_value(seen)),
        ).push(("weight_shapes"@, weights_value(seen))).push(
            ("context_envelope_disposition"@, seen.disposition@),
        ).push(("resident"@, resident_value(seen.resident))).push(
            ("_errors"@, text_list(diagnose_faults(seen))),
        ),
    )
}

fn look_at_place(
    db_path: &Result<String, IngestError>,
    size: &Result<u64, String>,
    errors: &mut Vec<String>,
) -> (r: Json)
    ensures
        r@ == match (*db_path, *size) {
            (Ok(_), Ok(n)) => JsonView::Int(n as int),
            _ => JsonView::Null,
        },
        final(errors).deep_view() == old(errors).deep_view() + match outcome(*db_path) {
            Err(f) => nil().push("resolve_db_path: "@ + fault_text(f)),
            Ok(_) => match *size {
                Err(e) => nil().push("db metadata: "@ + e@),
                Ok(_) => nil(),
            },
        },
{
    let ghost had = errors.deep_view();
    match db_path {
        Err(e) => {
            errors.push(cat2("resolve_db_path: ", e.message().as_str()));
            assert(errors.deep_view() =~= had + nil().push(
                "resolve_db_path: "@ + fault_text(e.deep_view()),
            ));
            Json::Null
        },
        Ok(_) => match size {
            Err(e) => {
                errors.push(cat2("db metadata: ", e.as_str()));
                assert(errors.deep_view() =~= had + nil().push("db metadata: "@ + e@));
                Json::Null
            },
            Ok(n) => {
                assert(had + nil() =~= had);
                Json::Int(*n as i128)
            },
        },
    }
}

fn look_at_store(
    db_path: &Result<String, IngestError>,
    store: &Result<StoreSeen, StorageError>,
    errors: &mut Vec<String>,
) -> (r: (Json, Json))
    ensures
        r.0@ == match (*db_path, *store) {
            (Ok(_), Ok(s)) => JsonView::Int(
                match s.episode_count {
                    Ok(n) => n as int,
                    Err(_) => 0,
                },
            ),
            _ => JsonView::Null,
        },
        r.1@ == match (*db_path, *store) {
            (Ok(_), Ok(s)) => shapes_value(s.weights),
            _ => JsonView::Object(Seq::empty()),
        },
        final(errors).deep_view() == old(errors).deep_view() + match *db_path {
            Err(_) => nil(),
            Ok(_) => match *store {
                Err(e) => nil().push("storage open: "@ + e.message@),
                Ok(s) => fault_line("counters: "@, s.episode_count) + shape_faults(s.weights),
            },
        },
{
    let ghost had = errors.deep_view();
    match (db_path, store) {
        (Ok(_), Ok(s)) => {
            note_fault("counters: ", &s.episode_count, errors);
            let count: i64 = match &s.episode_count {
                Ok(n) => *n,
                Err(_) => 0,
            };
            let shapes = collect_weight_shapes(&s.weights, errors);
            assert(errors.deep_view() =~= had + (fault_line("counters: "@, s.episode_count)
                + shape_faults(s.weights)));
            (Json::Int(count as i128), shapes)
        },
        (Ok(_), Err(e)) => {
            errors.push(cat2("storage open: ", e.message.as_str()));
            assert(errors.deep_view() =~= had + nil().push("storage open: "@ + e.message@));
            (Json::Null, Members::new().done())
        },
        (Err(_), _) => {
            assert(had + nil() =~= had);
            (Json::Null, Members::new().done())
        },
    }
}

/// What `soma diagnose` tells of what was found. It always tells something.
pub fn diagnose(seen: DiagnoseSeen) -> (r: Json)
    ensures
        r@ == diagnosis(seen),
{
    let mut errors: Vec<String> = none();
    let size = look_at_place(&seen.db_path, &seen.db_size_bytes, &mut errors);
    let (count, shapes) = look_at_store(&seen.db_path, &seen.store, &mut errors);
    let resident = collect_resident_status(seen.resident, &mut errors);
    let binary = collect_binary_identity_with_errors(
        &seen.current_exe,
        &seen.path_soma,
        &mut errors,
    );
    assert(errors.deep_view() =~= diagnose_faults(seen));
    let git_sha = match &seen.git_sha {
        Some(s) => s.as_str(),
        None => "unknown",
    };
    let db_path = match &seen.db_path {
        Ok(p) => Some(p.as_str()),
        Err(_) => None,
    };
    Members::new().text("version", seen.version.as_str()).text("git_sha", git_sha).put(
        "binary",
        identity_json(&binary),
    ).texts("features", &seen.features).opt_text("db_path", db_path).put(
        "db_size_bytes",
        size,
    ).put("episode_count", count).put("weight_shapes", shapes).put(
        "context_envelope_disposition",
        seen.disposition,
    ).put("resident", resident).texts("_errors", &errors).done()
}

/// The text that `soma diagnose` prints.
pub fn run_blocking(seen: DiagnoseSeen) -> (r: String)
    ensures
        r@ == json_pretty(diagnosis(seen)),
{
    print_json_pretty(&diagnose(seen))
}

// ---------------------------------------------------------------------------
// Laws
// ---------------------------------------------------------------------------

/// Where nothing went wrong, nothing is listed as gone wrong, and the place of the store,
/// its size and its episodes are told.
pub proof fn law_whole_environment_has_no_errors(seen: DiagnoseSeen)
    requires
        seen.db_path is Ok,
        seen.db_size_bytes is Ok,
        seen.store matches Ok(s) && s.episode_count is Ok && s.weights.mlstm is Ok
            && s.weights.hopfield is Ok && s.weights.anil is Ok && s.weights.pc_layers is Ok,
        resident_faults(seen.resident) == nil(),
        seen.current_exe matches Ok(f) && f.contents is Ok,
        seen.path_soma matches Some(f) ==> f.contents is Ok,
    ensures
        diagnose_faults(seen) == nil(),
        size_value(seen) is Int,
        count_value(seen) is Int,
{
    assert(diagnose_faults(seen) =~= nil());
}

/// A diagnosis tells what was seen under fixed names and in a fixed order: the version and
/// build as they are, the place and size of the store where there is one, and every fault.
pub proof fn law_diagnosis_tells_what_was_seen(seen: DiagnoseSeen)
    ensures
        ({
            let m = diagnosis(seen)->Object_0;
            &&& diagnosis(seen) is Object && m.len() == 11
            &&& m[0] == ("version"@, JsonView::Text(seen.version@))
            &&& seen.git_sha matches Some(s) ==> m[1] == ("git_sha"@, JsonView::Text(s@))
            &&& seen.git_sha is None ==> m[1] == ("git_sha"@, JsonView::Text("unknown"@))
            &&& m[3] == ("features"@, text_list(seen.features.deep_view()))
            &&& seen.db_path matches Ok(p) ==> m[4] == ("db_path"@, JsonView::Text(p@))
            &&& seen.db_path is Err ==> m[4] == ("db_path"@, JsonView::Null)
            &&& seen.db_path is Ok && seen.db_size_bytes is Ok ==> m[5] == (
                "db_size_bytes"@,
                JsonView::Int(seen.db_size_bytes->Ok_0 as int),
            )
            &&& seen.db_path is Err || seen.db_size_bytes is Err ==> m[5] == (
                "db_size_bytes"@,
                JsonView::Null,
            )
            &&& seen.db_path is Ok && seen.store is Ok && seen.store->Ok_0.episode_count is Ok
                ==> m[6] == (
                "episode_count"@,
                JsonView::Int(seen.store->Ok_0.episode_count->Ok_0 as int),
            )
            &&& seen.db_path is Err || seen.store is Err ==> m[6] == (
                "episode_count"@,
                JsonView::Null,
            )
            &&& m[8] == ("context_envelope_disposition"@, seen.disposition@)
            &&& m[10] == ("_errors"@, text_list(diagnose_faults(seen)))
        }),
{
}

/// A resident that answered is told in its own words; else it is told by its state and its
/// socket, where that is known. Only what went wrong is a fault: that it does not run is none.
pub proof fn law_residents_are_told_by_state(seen: ResidentSeen)
    ensures
        ({
            let v = resident_value(seen);
            let m = v->Object_0;
            &&& seen matches ResidentSeen::Answered(j) ==> v == j@
            &&& seen matches ResidentSeen::NotRunning { socket } ==> v == JsonView::Object(
                seq![
                    ("state"@, JsonView::Text("not_running"@)),
                    ("socket"@, JsonView::Text(socket@)),
                ],
            )
            &&& seen matches ResidentSeen::NoAnswer { socket, error } ==> v == JsonView::Object(
                seq![
                    ("state"@, JsonView::Text("error"@)),
                    ("socket"@, JsonView::Text(socket@)),
                ],
            ) && resident_faults(seen) == seq!["resident probe: "@ + error@]
            &&& seen matches ResidentSeen::NoRuntime { socket, error } ==> v == JsonView::Object(
                seq![
                    ("state"@, JsonView::Text("error"@)),
                    ("socket"@, JsonView::Text(socket@)),
                ],
            ) && resident_faults(seen) == seq!["tokio build: "@ + error@]
            &&& seen matches ResidentSeen::NoSocketPath(e) ==> v == JsonView::Object(
                seq![("state"@, JsonView::Text("error"@))],
            ) && resident_faults(seen) == seq!["resolve_socket_path: "@ + e@]
            &&& seen is NotUnix ==> v == JsonView::Object(
                seq![("state"@, JsonView::Text("not_unix"@))],
            )
            &&& resident_faults(seen).len() == 0 <==> seen is Answered || seen is NotRunning || seen
                is NotUnix
        }),
{
    let v = resident_value(seen);
    match seen {
        ResidentSeen::Answered(_) => {},
        ResidentSeen::NotRunning { socket } => {
            assert(v->Object_0 =~= seq![
                ("state"@, JsonView::Text("not_running"@)),
                ("socket"@, JsonView::Text(socket@)),
            ]);
        },
        ResidentSeen::NoAnswer { socket, error } => {
            assert(v->Object_0 =~= seq![
                ("state"@, JsonView::Text("error"@)),
                ("socket"@, JsonView::Text(socket@)),
            ]);
        },
        ResidentSeen::NoRuntime { socket, error } => {
            assert(v->Object_0 =~= seq![
                ("state"@, JsonView::Text("error"@)),
                ("socket"@, JsonView::Text(socket@)),
            ]);
        },
        ResidentSeen::NoSocketPath(_) => {
            assert(v->Object_0 =~= seq![("state"@, JsonView::Text("error"@))]);
        },
        ResidentSeen::NotUnix => {
            assert(v->Object_0 =~= seq![("state"@, JsonView::Text("not_unix"@))]);
        },
    }
}

/// Stored weights are told by their measures, each under its own name; weights that are not
/// stored are left out.
pub proof fn law_weights_are_told_by_their_measures(w: MemoryShape, h: HopfieldShape, l: LayerShape)
    ensures
        memory_value(Ok(Some(w))) == Some(
            JsonView::Object(
                seq![
                    ("dim"@, JsonView::Int(w.dim as int)),
                    ("train_steps"@, JsonView::Int(w.train_steps as int)),
                ],
            ),
        ),
        hopfield_value(Ok(Some(h))) == Some(
            JsonView::Object(
                seq![
                    ("dim"@, JsonView::Int(h.dim as int)),
                    ("num_heads"@, JsonView::Int(h.num_heads as int)),
                    ("train_steps"@, JsonView::Int(h.train_steps as int)),
                ],
            ),
        ),
        layer_value(l) == JsonView::Object(
            seq![
                ("layer_idx"@, JsonView::Int(l.layer_idx as int)),
                ("d_in"@, JsonView::Int(l.d_in as int)),
                ("d_out"@, JsonView::Int(l.d_out as int)),
                ("train_steps"@, JsonView::Int(l.train_steps as int)),
            ],
        ),
        memory_value(Ok(None)) is None,
        hopfield_value(Ok(None)) is None,
{
    assert(memory_value(Ok(Some(w)))->0->Object_0 =~= seq![
        ("dim"@, JsonView::Int(w.dim as int)),
        ("train_steps"@, JsonView::Int(w.train_steps as int)),
    ]);
    assert(hopfield_value(Ok(Some(h)))->0->Object_0 =~= seq![
        ("dim"@, JsonView::Int(h.dim as int)),
        ("num_heads"@, JsonView::Int(h.num_heads as int)),
        ("train_steps"@, JsonView::Int(h.train_steps as int)),
    ]);
    assert(layer_value(l)->Object_0 =~= seq![
        ("layer_idx"@, JsonView::Int(l.layer_idx as int)),
        ("d_in"@, JsonView::Int(l.d_in as int)),
        ("d_out"@, JsonView::Int(l.d_out as int)),
        ("train_steps"@, JsonView::Int(l.train_steps as int)),
    ]);
}

}
