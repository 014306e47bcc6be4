//! What is stored: episodes and where they come from.
use crate::dup::Dup;
use crate::json::{Json, JsonView};
use crate::text::{chars, is_digit, is_lower, same};
use vstd::prelude::*;

verus! {

/// The number of a stored episode.
pub type EpisodeId = i64;

/// A failure of the store, as it describes itself.
#[derive(Debug)]
pub struct StorageError {
    pub message: String,
}

impl DeepView for StorageError {
    type V = Seq<char>;

    open spec fn deep_view(&self) -> Seq<char> {
        self.message@
    }
}

/// Where an episode was captured.
#[derive(Debug)]
pub enum EpisodeSource {
    CodexCli,
    CodexApp,
    Terminal,
    Cursor,
    Continue,
    /// Another source, by its name.
    Other(String),
}

impl DeepView for EpisodeSource {
    type V = Seq<char>;

    /// A source is its name.
    open spec fn deep_view(&self) -> Seq<char> {
        match self {
            EpisodeSource::CodexCli => "codex-cli"@,
            EpisodeSource::CodexApp => "codex-app"@,
            EpisodeSource::Terminal => "terminal"@,
            EpisodeSource::Cursor => "cursor"@,
            EpisodeSource::Continue => "continue"@,
            EpisodeSource::Other(name) => name@,
        }
    }
}

/// The sources with a name of their own.
pub open spec fn is_canonical(name: Seq<char>) -> bool {
    is_assistant(name) || name == "terminal"@
}

/// The sources that are assistants.
pub open spec fn is_assistant(name: Seq<char>) -> bool {
    ||| name == "codex-cli"@
    ||| name == "codex-app"@
    ||| name == "cursor"@
    ||| name == "continue"@
}

/// The shape of a source name: a letter `a` to `z`, then such letters, digits and
/// hyphens.
pub open spec fn is_source_name(name: Seq<char>) -> bool {
    &&& name.len() > 0
    &&& is_lower(name[0])
    &&& forall|i: int|
        0 <= i < name.len() ==> is_lower(#[trigger] name[i]) || is_digit(name[i]) || name[i] == '-'
}

impl EpisodeSource {
    /// `Other` is never one of the sources with a name of their own.
    pub open spec fn wf(&self) -> bool {
        self matches EpisodeSource::Other(name) ==> !is_canonical(name@)
    }

    /// The source called `name`, where that has the shape of a source name.
    pub fn from_name(name: &str) -> (r: Option<EpisodeSource>)
        ensures
            r is Some <==> is_source_name(name@),
            r matches Some(s) ==> s.deep_view() == name@ && s.wf(),
    {
        if !has_source_shape(name) {
            return None;
        }
        if same(name, "codex-cli") {
            Some(EpisodeSource::CodexCli)
        } else if same(name, "codex-app") {
            Some(EpisodeSource::CodexApp)
        } else if same(name, "terminal") {
            Some(EpisodeSource::Terminal)
        } else if same(name, "cursor") {
            Some(EpisodeSource::Cursor)
        } else if same(name, "continue") {
            Some(EpisodeSource::Continue)
        } else {
            Some(EpisodeSource::Other(name.to_string()))
        }
    }

    /// The name of the source.
    pub fn name(&self) -> (r: String)
        ensures
            r@ == self.deep_view(),
    {
        match self {
            EpisodeSource::CodexCli => "codex-cli".to_string(),
            EpisodeSource::CodexApp => "codex-app".to_string(),
            EpisodeSource::Terminal => "terminal".to_string(),
            EpisodeSource::Cursor => "cursor".to_string(),
            EpisodeSource::Continue => "continue".to_string(),
            EpisodeSource::Other(name) => name.clone(),
        }
    }
}

fn has_source_shape(name: &str) -> (r: bool)
    ensures
        r == is_source_name(name@),
{
    let cs = chars(name);
    if cs.len() == 0 || !('a' <= cs[0] && cs[0] <= 'z') {
        return false;
    }
    let mut i: usize = 0;
    while i < cs.len()
        invariant
            i <= cs.len(),
            cs@ == name@,
            forall|j: int|
                0 <= j < i ==> is_lower(#[trigger] cs@[j]) || is_digit(cs@[j]) || cs@[j] == '-',
        decreases cs.len() - i,
    {
        let c = cs[i];
        if !(('a' <= c && c <= 'z') || ('0' <= c && c <= '9') || c == '-') {
            assert(!(is_lower(name@[i as int]) || is_digit(name@[i as int]) || name@[i as int]
                == '-'));
            return false;
        }
        i = i + 1;
    }
    true
}

/// One captured piece of work.
#[derive(Debug)]
pub struct Episode {
    pub ts_start_ns: i64,
    pub ts_end_ns: i64,
    pub duration_ms: i64,
    pub source: EpisodeSource,
    pub session_id: Option<String>,
    pub prompt_text: Option<String>,
    pub response_text: Option<String>,
    pub command: Option<String>,
    pub stdout: Option<Vec<u8>>,
    pub exit_code: Option<i32>,
    pub cwd: Option<String>,
    pub git_branch: Option<String>,
    pub project: Option<String>,
    pub digest: Option<String>,
}

/// What an `Episode` holds.
#[verifier::ext_equal]
pub struct EpisodeView {
    pub ts_start_ns: i64,
    pub ts_end_ns: i64,
    pub duration_ms: i64,
    pub source: Seq<char>,
    pub session_id: Option<Seq<char>>,
    pub prompt_text: Option<Seq<char>>,
    pub response_text: Option<Seq<char>>,
    pub command: Option<Seq<char>>,
    pub stdout: Option<Seq<u8>>,
    pub exit_code: Option<i32>,
    pub cwd: Option<Seq<char>>,
    pub git_branch: Option<Seq<char>>,
    pub project: Option<Seq<char>>,
    pub digest: Option<Seq<char>>,
}

impl DeepView for Episode {
    type V = EpisodeView;

    open spec fn deep_view(&self) -> EpisodeView {
        EpisodeView {
            ts_start_ns: self.ts_start_ns,
            ts_end_ns: self.ts_end_ns,
            duration_ms: self.duration_ms,
            source: self.source.deep_view(),
            session_id: self.session_id.deep_view(),
            prompt_text: self.prompt_text.deep_view(),
            response_text: self.response_text.deep_view(),
            command: self.command.deep_view(),
            stdout: self.stdout.deep_view(),
            exit_code: self.exit_code.deep_view(),
            cwd: self.cwd.deep_view(),
            git_branch: self.git_branch.deep_view(),
            project: self.project.deep_view(),
            digest: self.digest.deep_view(),
        }
    }
}

/// How strong a proof of a client binding is.
#[derive(Debug, Clone, Copy, PartialEq, Eq, Structural)]
pub enum ClientBindingProofLevel {
    ReferenceBinding,
    ObservedEventFile,
    ObservedAppHook,
    ObservedInClientRender,
    ObservedReviewAction,
}

impl DeepView for ClientBindingProofLevel {
    type V = ClientBindingProofLevel;

    open spec fn deep_view(&self) -> ClientBindingProofLevel {
        *self
    }
}

impl Dup for ClientBindingProofLevel {
    fn dup(&self) -> (r: Self) {
        *self
    }
}

/// The name of a level.
pub open spec fn level_name(level: ClientBindingProofLevel) -> Seq<char> {
    match level {
        ClientBindingProofLevel::ReferenceBinding => "reference_binding"@,
        ClientBindingProofLevel::ObservedEventFile => "observed_event_file"@,
        ClientBindingProofLevel::ObservedAppHook => "observed_app_hook"@,
        ClientBindingProofLevel::ObservedInClientRender => "observed_in_client_render"@,
        ClientBindingProofLevel::ObservedReviewAction => "observed_review_action"@,
    }
}

/// The level with this name.
pub open spec fn level_named(name: Seq<char>) -> Option<ClientBindingProofLevel> {
    if name == "reference_binding"@ {
        Some(ClientBindingProofLevel::ReferenceBinding)
    } else if name == "observed_event_file"@ {
        Some(ClientBindingProofLevel::ObservedEventFile)
    } else if name == "observed_app_hook"@ {
        Some(ClientBindingProofLevel::ObservedAppHook)
    } else if name == "observed_in_client_render"@ {
        Some(ClientBindingProofLevel::ObservedInClientRender)
    } else if name == "observed_review_action"@ {
        Some(ClientBindingProofLevel::ObservedReviewAction)
    } else {
        None
    }
}

impl ClientBindingProofLevel {
    pub fn as_str(self) -> (r: &'static str)
        ensures
            r@ == level_name(self),
    {
        match self {
            ClientBindingProofLevel::ReferenceBinding => "reference_binding",
            ClientBindingProofLevel::ObservedEventFile => "observed_event_file",
            ClientBindingProofLevel::ObservedAppHook => "observed_app_hook",
            ClientBindingProofLevel::ObservedInClientRender => "observed_in_client_render",
            ClientBindingProofLevel::ObservedReviewAction => "observed_review_action",
        }
    }

    pub fn from_wire(name: &str) -> (r: Option<ClientBindingProofLevel>)
        ensures
            r == level_named(name@),
    {
        if same(name, "reference_binding") {
            Some(ClientBindingProofLevel::ReferenceBinding)
        } else if same(name, "observed_event_file") {
            Some(ClientBindingProofLevel::ObservedEventFile)
        } else if same(name, "observed_app_hook") {
            Some(ClientBindingProofLevel::ObservedAppHook)
        } else if same(name, "observed_in_client_render") {
            Some(ClientBindingProofLevel::ObservedInClientRender)
        } else if same(name, "observed_review_action") {
            Some(ClientBindingProofLevel::ObservedReviewAction)
        } else {
            None
        }
    }
}

/// A level is read back from its name.
pub proof fn law_level_names(level: ClientBindingProofLevel)
    ensures
        level_named(level_name(level)) == Some(level),
{
    reveal_strlit("reference_binding");
    reveal_strlit("observed_event_file");
    reveal_strlit("observed_app_hook");
    reveal_strlit("observed_in_client_render");
    reveal_strlit("observed_review_action");
    assert("reference_binding"@.len() == 17);
    assert("observed_app_hook"@.len() == 17);
    assert("reference_binding"@[0] == 'r');
    assert("observed_app_hook"@[0] == 'o');
    assert("observed_event_file"@.len() == 19);
    assert("observed_in_client_render"@.len() == 25);
    assert("observed_review_action"@.len() == 22);
}

/// A proof of a client binding, as it is stored.
#[derive(Debug)]
pub struct StoredClientBindingProof {
    pub id: i64,
    pub client: String,
    pub proof_level: ClientBindingProofLevel,
    pub manifest_path: String,
    pub manifest_status: String,
    pub evidence_source: String,
    pub event_jsonl_path: Option<String>,
    pub installed_config_path: Option<String>,
    pub render_evidence_path: Option<String>,
    pub review_action_report_path: Option<String>,
    pub drain_report_json: Option<Json>,
    pub review_render_json: Option<Json>,
    pub trust_boundary: String,
    pub checks_json: Json,
    pub observed_at_ns: i64,
}

/// What a `StoredClientBindingProof` holds.
#[verifier::ext_equal]
pub struct StoredClientBindingProofView {
    pub id: i64,
    pub client: Seq<char>,
    pub proof_level: ClientBindingProofLevel,
    pub manifest_path: Seq<char>,
    pub manifest_status: Seq<char>,
    pub evidence_source: Seq<char>,
    pub event_jsonl_path: Option<Seq<char>>,
    pub installed_config_path: Option<Seq<char>>,
    pub render_evidence_path: Option<Seq<char>>,
    pub review_action_report_path: Option<Seq<char>>,
    pub drain_report_json: Option<JsonView>,
    pub review_render_json: Option<JsonView>,
    pub trust_boundary: Seq<char>,
    pub checks_json: JsonView,
    pub observed_at_ns: i64,
}

impl DeepView for StoredClientBindingProof {
    type V = StoredClientBindingProofView;

    open spec fn deep_view(&self) -> StoredClientBindingProofView {
        StoredClientBindingProofView {
            id: self.id,
            client: self.client.deep_view(),
            proof_level: self.proof_level,
            manifest_path: self.manifest_path.deep_view(),
            manifest_status: self.manifest_status.deep_view(),
            evidence_source: self.evidence_source.deep_view(),
            event_jsonl_path: self.event_jsonl_path.deep_view(),
            installed_config_path: self.installed_config_path.deep_view(),
            render_evidence_path: self.render_evidence_path.deep_view(),
            review_action_report_path: self.review_action_report_path.deep_view(),
            drain_report_json: self.drain_report_json.deep_view(),
            review_render_json: self.review_render_json.deep_view(),
            trust_boundary: self.trust_boundary.deep_view(),
            checks_json: self.checks_json.deep_view(),
            observed_at_ns: self.observed_at_ns,
        }
    }
}

impl Dup for StoredClientBindingProof {
    fn dup(&self) -> (r: Self) {
        StoredClientBindingProof {
            id: self.id,
            client: self.client.dup(),
            proof_level: self.proof_level,
            manifest_path: self.manifest_path.dup(),
            manifest_status: self.manifest_status.dup(),
            evidence_source: self.evidence_source.dup(),
            event_jsonl_path: self.event_jsonl_path.dup(),
            installed_config_path: self.installed_config_path.dup(),
            render_evidence_path: self.render_evidence_path.dup(),
            review_action_report_path: self.review_action_report_path.dup(),
            drain_report_json: self.drain_report_json.dup(),
            review_render_json: self.review_render_json.dup(),
            trust_boundary: self.trust_boundary.dup(),
            checks_json: self.checks_json.dup(),
            observed_at_ns: self.observed_at_ns,
        }
    }
}

/// A proof of a client binding that is about to be stored.
#[derive(Debug)]
pub struct ClientBindingProofDraft {
    pub client: String,
    pub proof_level: ClientBindingProofLevel,
    pub manifest_path: String,
    pub manifest_status: String,
    pub evidence_source: String,
    pub event_jsonl_path: Option<String>,
    pub installed_config_path: Option<String>,
    pub render_evidence_path: Option<String>,
    pub review_action_report_path: Option<String>,
    pub drain_report_json: Option<Json>,
    pub review_render_json: Option<Json>,
    pub trust_boundary: String,
    pub checks_json: Json,
    pub observed_at_ns: i64,
}

/// What a `ClientBindingProofDraft` holds.
#[verifier::ext_equal]
pub struct ClientBindingProofDraftView {
    pub client: Seq<char>,
    pub proof_level: ClientBindingProofLevel,
    pub manifest_path: Seq<char>,
    pub manifest_status: Seq<char>,
    pub evidence_source: Seq<char>,
    pub event_jsonl_path: Option<Seq<char>>,
    pub installed_config_path: Option<Seq<char>>,
    pub render_evidence_path: Option<Seq<char>>,
    pub review_action_report_path: Option<Seq<char>>,
    pub drain_report_json: Option<JsonView>,
    pub review_render_json: Option<JsonView>,
    pub trust_boundary: Seq<char>,
    pub checks_json: JsonView,
    pub observed_at_ns: i64,
}

impl DeepView for ClientBindingProofDraft {
    type V = ClientBindingProofDraftView;

    open spec fn deep_view(&self) -> ClientBindingProofDraftView {
        ClientBindingProofDraftView {
            client: self.client.deep_view(),
            proof_level: self.proof_level,
            manifest_path: self.manifest_path.deep_view(),
            manifest_status: self.manifest_status.deep_view(),
            evidence_source: self.evidence_source.deep_view(),
            event_jsonl_path: self.event_jsonl_path.deep_view(),
            installed_config_path: self.installed_config_path.deep_view(),
            render_evidence_path: self.render_evidence_path.deep_view(),
            review_action_report_path: self.review_action_report_path.deep_view(),
            drain_report_json: self.drain_report_json.deep_view(),
            review_render_json: self.review_render_json.deep_view(),
            trust_boundary: self.trust_boundary.deep_view(),
            checks_json: self.checks_json.deep_view(),
            observed_at_ns: self.observed_at_ns,
        }
    }
}

/// The five names of levels are read one to one as the levels that they name, as they are
/// written; every other name is refused.
pub proof fn law_level_words_name_levels(name: Seq<char>)
    ensures
        level_named(name) == Some(ClientBindingProofLevel::ReferenceBinding) <==> name
            == "reference_binding"@,
        level_named(name) == Some(ClientBindingProofLevel::ObservedEventFile) <==> name
            == "observed_event_file"@,
        level_named(name) == Some(ClientBindingProofLevel::ObservedAppHook) <==> name
            == "observed_app_hook"@,
        level_named(name) == Some(ClientBindingProofLevel::ObservedInClientRender) <==> name
            == "observed_in_client_render"@,
        level_named(name) == Some(ClientBindingProofLevel::ObservedReviewAction) <==> name
            == "observed_review_action"@,
        level_name(ClientBindingProofLevel::ReferenceBinding) == "reference_binding"@,
        level_name(ClientBindingProofLevel::ObservedEventFile) == "observed_event_file"@,
        level_name(ClientBindingProofLevel::ObservedAppHook) == "observed_app_hook"@,
        level_name(ClientBindingProofLevel::ObservedInClientRender)
            == "observed_in_client_render"@,
        level_name(ClientBindingProofLevel::ObservedReviewAction) == "observed_review_action"@,
{
    law_level_names(ClientBindingProofLevel::ReferenceBinding);
    law_level_names(ClientBindingProofLevel::ObservedEventFile);
    law_level_names(ClientBindingProofLevel::ObservedAppHook);
    law_level_names(ClientBindingProofLevel::ObservedInClientRender);
    law_level_names(ClientBindingProofLevel::ObservedReviewAction);
}

/// The name of a source begins with a letter from `a` to `z` and holds such letters, digits
/// and hyphens only; an empty name is none. The names with a meaning of their own are those
/// of the assistants and that of the terminal.
pub proof fn law_source_names_have_one_shape(name: Seq<char>)
    ensures
        is_source_name(name) <==> name.len() > 0 && 'a' <= name[0] && name[0] <= 'z' && forall|
            i: int,
        |
            0 <= i < name.len() ==> ('a' <= (#[trigger] name[i]) && name[i] <= 'z') || ('0'
                <= name[i] && name[i] <= '9') || name[i] == '-',
        is_canonical(name) <==> name == "codex-cli"@ || name == "codex-app"@ || name == "cursor"@
            || name == "continue"@ || name == "terminal"@,
        is_assistant(name) ==> name == "codex-cli"@ || name == "codex-app"@ || name == "cursor"@
            || name == "continue"@,
{
}

}
