//! What holds of every place, collector and step of a proof, word by word.
use super::collector::{
    collector_state, collector_step, declared_state, endpoint, names_collector, position, probe_of,
    probed_state, with_collector_step, CollectorState, TcpProbe,
};
use super::labels::{next_action, step_action, step_level, step_stage};
use super::places::{
    allows_new_files, config_paths, config_relpaths, default_manifest, display_name, durable_dir,
    evidence_dir, first_existing, holds_path, is_target_path, lifecycle_event, lookup, manifest_arg,
    manifest_of, mcp_manifest, path_suggestions, plain_path, private_event_source, run_name,
    step_artifact_path, target_relpaths, unique, write_status, DirSeen,
};
use super::types::{
    ClientBindingOperatorFlowStepView, ContinueDevdataCollectorProbeView, HostView,
    ResolvedPathView,
};
use crate::path::joined_path;
use crate::storage::ClientBindingProofLevel;
use crate::text::{
    contains, ends_with, is_alnum, law_trimming_takes_white_space_only, lowered, starts_with,
    trimmed,
};
use vstd::prelude::*;
use vstd::string::*;

verus! {

/// Each known client has its own manifest, name and place for its configuration, and no
/// other client has any. A manifest that is given goes before the known one.
pub proof fn law_clients_have_their_own_places(client: Seq<char>, given: Seq<char>)
    ensures
        default_manifest(client) is Some <==> client == "codex-app"@ || client == "cursor"@
            || client == "continue"@,
        default_manifest(client) matches Some(m) ==> m == "tools/client-bindings/"@ + client
            + "-soma-binding.json.example"@,
        client == "codex-app"@ ==> display_name(client) == "Codex app"@ && target_relpaths(client)
            == seq![".codex/soma-installed-binding.json"@],
        client == "cursor"@ ==> display_name(client) == "Cursor"@ && target_relpaths(client)
            == seq![".cursor/soma-installed-binding.json"@],
        client == "continue"@ ==> display_name(client) == "Continue"@ && target_relpaths(client)
            == seq![".continue/soma-installed-binding.json"@],
        default_manifest(client) is None ==> {
            &&& display_name(client) == client
            &&& target_relpaths(client).len() == 0
            &&& config_relpaths(client).len() == 0
            &&& manifest_arg(client, None) == "<client-binding-manifest>"@
        },
        default_manifest(client) is Some ==> {
            &&& config_relpaths(client).len() == 2
            &&& config_relpaths(client)[0] == ".soma/client-bindings/"@ + client
                + "-installed-binding.json"@
            &&& config_relpaths(client)[1] == target_relpaths(client)[0]
            &&& manifest_arg(client, None) == default_manifest(client)->0
        },
        manifest_arg(client, Some(given)) == given,
        manifest_of(client, Some(given)) == Some(given),
        manifest_of(client, None) == default_manifest(client),
{
    reveal_strlit("codex-app");
    reveal_strlit("cursor");
    reveal_strlit("continue");
    assert("codex-app"@.len() == 9);
    assert("cursor"@.len() == 6);
    assert("continue"@.len() == 8);
    reveal_strlit("tools/client-bindings/");
    reveal_strlit("-soma-binding.json.example");
    reveal_strlit(".soma/client-bindings/");
    reveal_strlit("-installed-binding.json");
    if client == "codex-app"@ {
        reveal_strlit("tools/client-bindings/codex-app-soma-binding.json.example");
        reveal_strlit(".soma/client-bindings/codex-app-installed-binding.json");
        assert("tools/client-bindings/codex-app-soma-binding.json.example"@
            =~= "tools/client-bindings/"@ + client + "-soma-binding.json.example"@);
        assert(".soma/client-bindings/codex-app-installed-binding.json"@
            =~= ".soma/client-bindings/"@ + client + "-installed-binding.json"@);
    } else if client == "cursor"@ {
        reveal_strlit("tools/client-bindings/cursor-soma-binding.json.example");
        reveal_strlit(".soma/client-bindings/cursor-installed-binding.json");
        assert("tools/client-bindings/cursor-soma-binding.json.example"@
            =~= "tools/client-bindings/"@ + client + "-soma-binding.json.example"@);
        assert(".soma/client-bindings/cursor-installed-binding.json"@ =~= ".soma/client-bindings/"@
            + client + "-installed-binding.json"@);
    } else if client == "continue"@ {
        reveal_strlit("tools/client-bindings/continue-soma-binding.json.example");
        reveal_strlit(".soma/client-bindings/continue-installed-binding.json");
        assert("tools/client-bindings/continue-soma-binding.json.example"@
            =~= "tools/client-bindings/"@ + client + "-soma-binding.json.example"@);
        assert(".soma/client-bindings/continue-installed-binding.json"@
            =~= ".soma/client-bindings/"@ + client + "-installed-binding.json"@);
    }
}

/// The private source of a client is its name in lower case and without white space round
/// it, with one ending for all. Two clients have one source iff these names agree. The
/// event of a client is its answer or its finished turn.
pub proof fn law_private_sources_name_their_client(a: Seq<char>, b: Seq<char>)
    ensures
        private_event_source(a) == lowered(trimmed(a)) + "_private_lifecycle_hook"@,
        private_event_source(a) == private_event_source(b) <==> lowered(trimmed(a)) == lowered(
            trimmed(b),
        ),
        lifecycle_event(a) == "assistant_response"@ <==> a == "continue"@ || a == "codex-app"@,
        a != "continue"@ && a != "codex-app"@ ==> lifecycle_event(a) == "turn_completed"@,
{
    reveal_strlit("assistant_response");
    reveal_strlit("turn_completed");
    assert("assistant_response"@[0] == 'a');
    assert("turn_completed"@[0] == 't');
    let tail = "_private_lifecycle_hook"@;
    let x = lowered(trimmed(a));
    let y = lowered(trimmed(b));
    if x + tail == y + tail {
        assert((x + tail).len() == x.len() + tail.len());
        assert((y + tail).len() == y.len() + tail.len());
        assert(x =~= (x + tail).take(x.len() as int));
        assert(y =~= (y + tail).take(y.len() as int));
    }
}

/// A run goes by its name without white space round it, each character kept where it is a
/// letter, a digit or one of five marks, and written as a low line elsewhere. A blank name
/// stands for any run.
pub proof fn law_run_names_are_plain(run_id: Seq<char>, i: int)
    ensures
        trimmed(run_id).len() == 0 ==> run_name(run_id) == "<run-id>"@,
        trimmed(run_id).len() > 0 ==> run_name(run_id).len() == trimmed(run_id).len(),
        trimmed(run_id).len() > 0 && 0 <= i < trimmed(run_id).len() ==> {
            let c = trimmed(run_id)[i];
            let kept = is_alnum(c) || c == '.' || c == '_' || c == '-' || c == '<' || c == '>';
            run_name(run_id)[i] == if kept {
                c
            } else {
                '_'
            }
        },
{
}

/// What a run leaves lies below the home, or below the root that was given, in a directory
/// of the client and the run.
pub proof fn law_evidence_lies_by_client_and_run(
    client: Seq<char>,
    run_id: Seq<char>,
    home: Seq<char>,
)
    ensures
        durable_dir(client, run_id, Some(home)) == joined_path(
            joined_path(joined_path(joined_path(home, ".soma"@), "client-evidence"@), client),
            run_name(run_id),
        ),
        durable_dir(client, run_id, None) == "$HOME/.soma/client-evidence/"@ + client + "/"@
            + run_name(run_id),
        evidence_dir(home, client, run_id) == joined_path(
            joined_path(joined_path(joined_path(home, ".soma"@), "client-evidence"@), client),
            run_id,
        ),
{
}

/// A directory has one file for each of three kinds, and each step is told the file of the
/// kind that it writes.
pub proof fn law_files_of_a_run_have_their_names(dir: Seq<char>, step_id: Seq<char>)
    ensures
        path_suggestions(dir).len() == 3,
        path_suggestions(dir)[0].artifact_kind == "review_render_report"@,
        path_suggestions(dir)[0].path == dir + "/"@ + "review-render.json"@,
        path_suggestions(dir)[1].artifact_kind == "render_evidence"@,
        path_suggestions(dir)[1].path == dir + "/"@ + "render-evidence.json"@,
        path_suggestions(dir)[2].artifact_kind == "review_action_report"@,
        path_suggestions(dir)[2].path == dir + "/"@ + "review-action.json"@,
        step_id == "render_review_surface"@ ==> step_artifact_path(dir, step_id) == Some(
            dir + "/"@ + "review-render.json"@,
        ),
        step_id == "capture_in_client_render_evidence"@
            || step_id == "record_observed_in_client_render"@
            ==> step_artifact_path(dir, step_id) == Some(
            dir + "/"@ + "render-evidence.json"@,
        ),
        step_id == "execute_rendered_review_control"@
            || step_id == "record_observed_review_action"@
            ==> step_artifact_path(dir, step_id) == Some(
            dir + "/"@ + "review-action.json"@,
        ),
        step_artifact_path(dir, step_id) is Some <==> step_id == "render_review_surface"@
            || step_id == "capture_in_client_render_evidence"@
            || step_id == "record_observed_in_client_render"@
            || step_id == "execute_rendered_review_control"@
            || step_id == "record_observed_review_action"@,
{
    reveal_strlit("render_review_surface");
    reveal_strlit("capture_in_client_render_evidence");
    reveal_strlit("record_observed_in_client_render");
    reveal_strlit("execute_rendered_review_control");
    reveal_strlit("record_observed_review_action");
    assert("render_review_surface"@.len() == 21);
    assert("capture_in_client_render_evidence"@.len() == 33);
    assert("record_observed_in_client_render"@.len() == 32);
    assert("execute_rendered_review_control"@.len() == 31);
    assert("record_observed_review_action"@.len() == 29);
}

/// A path is the place of a configuration iff, with plain slashes and none at its ends, it
/// is one of the known places or ends in one below some directory.
pub proof fn law_target_paths_end_in_a_known_place(path: Seq<char>, relpath: Seq<char>)
    ensures
        is_target_path(path, seq![relpath]) <==> plain_path(path) == relpath || ends_with(
            plain_path(path),
            "/"@ + relpath,
        ),
        !is_target_path(path, Seq::empty()),
{
    assert(seq![relpath][0] == relpath);
}

/// Paths that were gathered start with the first of the given ones.
pub proof fn law_first_path_stays_first(paths: Seq<Seq<char>>)
    requires
        paths.len() > 0,
    ensures
        unique(paths).len() > 0,
        unique(paths)[0] == paths[0],
    decreases paths.len(),
{
    let front = unique(paths.drop_last());
    if paths.len() == 1 {
        assert(front.len() == 0);
        assert(!holds_path(front, paths.last()));
    } else {
        law_first_path_stays_first(paths.drop_last());
        assert(paths.drop_last()[0] == paths[0]);
    }
}

/// The configurations that are looked at start with the one that was given, where one was.
pub proof fn law_given_configuration_comes_first(
    client: Seq<char>,
    root: Seq<char>,
    given: Seq<char>,
)
    requires
        trimmed(given).len() > 0,
    ensures
        config_paths(client, root, Some(given)).len() > 0,
        config_paths(client, root, Some(given))[0] == trimmed(given),
{
    law_trimming_takes_white_space_only(given);
    let below = super::places::below(root, config_relpaths(client));
    let all = seq![trimmed(given)] + below;
    assert(Seq::<Seq<char>>::empty().push(trimmed(given)) =~= seq![trimmed(given)]);
    law_first_path_stays_first(all);
    assert(all[0] == trimmed(given));
}

/// New files may be put into a directory that can be written, or below the nearest one above
/// it that is there, is a directory and can be written; a directory with a name still to be
/// filled in is not looked at. Nowhere else.
pub proof fn law_files_are_put_where_they_can_be_written(dir: Seq<char>, seen: Seq<DirSeen>)
    ensures
        ({
            let open_name = contains(dir, "$HOME"@) || contains(dir, "<run-id>"@);
            let k = first_existing(seen) as int;
            &&& 0 <= k <= seen.len()
            &&& forall|i: int| 0 <= i < k ==> !(#[trigger] seen[i]).exists
            &&& k < seen.len() ==> seen[k].exists
            &&& write_status(dir, seen) == "not_checked_template"@ <==> open_name
            &&& allows_new_files(write_status(dir, seen)) <==> open_name || (k < seen.len()
                && seen[k].writable && (k == 0 || seen[k].is_dir))
            &&& !open_name && k == seen.len() ==> write_status(dir, seen) == "parent_missing"@
            &&& !open_name && k == 0 && seen.len() > 0 && seen[0].writable ==> write_status(
                dir,
                seen,
            ) == "writable"@
            &&& !open_name && k == 0 && seen.len() > 0 && !seen[0].writable ==> write_status(
                dir,
                seen,
            ) == "not_writable"@
        }),
    decreases seen.len(),
{
    reveal_strlit("not_checked_template");
    reveal_strlit("parent_missing");
    reveal_strlit("writable");
    reveal_strlit("not_writable");
    reveal_strlit("parent_writable");
    reveal_strlit("parent_not_writable");
    assert("not_checked_template"@.len() == 20);
    assert("not_checked_template"@[0] == 'n');
    assert("parent_missing"@.len() == 14);
    assert("parent_missing"@[0] == 'p');
    assert("writable"@.len() == 8);
    assert("writable"@[0] == 'w');
    assert("not_writable"@.len() == 12);
    assert("not_writable"@[0] == 'n');
    assert("parent_writable"@.len() == 15);
    assert("parent_writable"@[0] == 'p');
    assert("parent_not_writable"@.len() == 19);
    assert("parent_not_writable"@[0] == 'p');
    if seen.len() > 0 && !seen[0].exists {
        law_files_are_put_where_they_can_be_written(dir, seen.skip(1));
        assert forall|i: int| 0 <= i < first_existing(seen) implies !(#[trigger] seen[i]).exists by {
            if i > 0 {
                assert(seen.skip(1)[i - 1] == seen[i]);
            }
        }
    }
}

/// A manifest is told by its whole path where that is known, and as it was written where it
/// is blank, a stand-in or named by the home variable.
pub proof fn law_manifests_are_told_by_whole_paths(
    manifest: Seq<char>,
    known: Seq<ResolvedPathView>,
    i: int,
)
    requires
        0 <= i < known.len(),
        known[i].path == trimmed(manifest),
        forall|j: int| 0 <= j < i ==> (#[trigger] known[j]).path != trimmed(manifest),
    ensures
        ({
            let m = trimmed(manifest);
            let fixed = m.len() == 0 || starts_with(m, "<"@) || contains(m, "$HOME"@) || contains(
                m,
                "${HOME}"@,
            );
            mcp_manifest(manifest, known) == if fixed {
                m
            } else {
                known[i].resolved
            }
        }),
{
    lemma_lookup(known, trimmed(manifest), i);
}

proof fn lemma_lookup(known: Seq<ResolvedPathView>, path: Seq<char>, i: int)
    requires
        0 <= i < known.len(),
        known[i].path == path,
        forall|j: int| 0 <= j < i ==> (#[trigger] known[j]).path != path,
    ensures
        lookup(known, path) == Some(known[i].resolved),
    decreases known.len(),
{
    if i > 0 {
        assert(known[0].path != path);
        let rest = known.skip(1);
        assert forall|j: int| 0 <= j < i - 1 implies (#[trigger] rest[j]).path != path by {
            assert(rest[j] == known[j + 1]);
        }
        lemma_lookup(rest, path, i - 1);
    }
}

/// What was declared of the collector, in any case and with white space round it, goes
/// before what a probe finds; a word that is not known declares nothing.
pub proof fn law_declared_collector_states(value: Seq<char>, probe: TcpProbe)
    ensures
        ({
            let s = lowered(trimmed(value));
            let up = s == "listening"@;
            let down = s == "not_listening"@ || s == "not-listening"@ || s == "missing"@ || s
                == "stopped"@;
            let blocked = s == "probe_blocked"@ || s == "probe-blocked"@;
            let unknown = s == "probe_unavailable"@ || s == "probe-unavailable"@;
            let told = collector_state(Some(value), probe);
            &&& declared_state(Some(value)) is Some <==> up || down || blocked || unknown
            &&& up ==> told.status == "listening"@ && told.error is None
            &&& down ==> told.status == "not_listening"@ && told.error is None
            &&& blocked ==> told.status == "probe_blocked"@ && told.error is Some
            &&& unknown ==> told.status == "probe_unavailable"@ && told.error is Some
            &&& !up && !down && !blocked && !unknown ==> told == probed_state(probe)
        }),
        collector_state(None, probe) == probed_state(probe),
{
    reveal_strlit("listening");
    reveal_strlit("not_listening");
    reveal_strlit("not-listening");
    reveal_strlit("missing");
    reveal_strlit("stopped");
    reveal_strlit("probe_blocked");
    reveal_strlit("probe-blocked");
    reveal_strlit("probe_unavailable");
    reveal_strlit("probe-unavailable");
    assert("listening"@.len() == 9);
    assert("listening"@[0] == 'l');
    assert("not_listening"@.len() == 13);
    assert("not_listening"@[0] == 'n');
    assert("not-listening"@.len() == 13);
    assert("not-listening"@[0] == 'n');
    assert("missing"@.len() == 7);
    assert("missing"@[0] == 'm');
    assert("stopped"@.len() == 7);
    assert("stopped"@[0] == 's');
    assert("probe_blocked"@.len() == 13);
    assert("probe_blocked"@[0] == 'p');
    assert("probe-blocked"@.len() == 13);
    assert("probe-blocked"@[0] == 'p');
    assert("probe_unavailable"@.len() == 17);
    assert("probe_unavailable"@[0] == 'p');
    assert("probe-unavailable"@.len() == 17);
    assert("probe-unavailable"@[0] == 'p');
}

/// A collector listens iff the probe got through; a probe that was denied leaves the state
/// unproven, any other failure shows that it is down, and an address that does not resolve
/// tells nothing. What went wrong is told as it was.
pub proof fn law_probes_tell_the_state(probe: TcpProbe)
    ensures
        probed_state(probe).status == "listening"@ <==> probe is Connected,
        probed_state(probe).error is None <==> probe is Connected,
        probe matches TcpProbe::Denied(e) ==> probed_state(probe) == (CollectorState {
            status: "probe_blocked"@,
            error: Some(e@),
        }),
        probe matches TcpProbe::Failed(e) ==> probed_state(probe) == (CollectorState {
            status: "not_listening"@,
            error: Some(e@),
        }),
        probe is Unresolved || probe is NoAddress ==> probed_state(probe).status
            == "probe_unavailable"@,
{
    reveal_strlit("listening");
    reveal_strlit("not_listening");
    reveal_strlit("probe_blocked");
    reveal_strlit("probe_unavailable");
    assert("listening"@.len() == 9);
    assert("listening"@[0] == 'l');
    assert("not_listening"@.len() == 13);
    assert("not_listening"@[0] == 'n');
    assert("probe_blocked"@.len() == 13);
    assert("probe_blocked"@[0] == 'p');
    assert("probe_unavailable"@.len() == 17);
    assert("probe_unavailable"@[0] == 'p');
}

/// The collector is looked for at the host and port that were given, and at the local ones
/// where none, a blank host or no port number was. A text names it by its path or its
/// address.
pub proof fn law_collector_addresses(host: Seq<char>, port: Option<Seq<char>>, text: Seq<char>)
    ensures
        trimmed(host).len() > 0 ==> endpoint(Some(host), port).0 == trimmed(host),
        trimmed(host).len() == 0 ==> endpoint(Some(host), port).0 == "127.0.0.1"@,
        endpoint(None, port).0 == "127.0.0.1"@,
        endpoint(Some(host), None).1 == 8766,
        names_collector(text) <==> contains(text, "/continue-devdata"@) || contains(
            text,
            "127.0.0.1:8766"@,
        ),
{
}

/// Only the one client with a collector has a probe. The probe tells the state as it is,
/// offers a look where the configuration names the collector, and a start only where it is
/// also down.
pub proof fn law_probes_offer_what_helps(
    client: Seq<char>,
    visible: bool,
    state: CollectorState,
    installed_config: Option<Seq<char>>,
    event_jsonl: Option<Seq<char>>,
    host: HostView,
)
    ensures
        ({
            let p = probe_of(client, visible, state, installed_config, event_jsonl, host);
            &&& p is Some <==> client == "continue"@
            &&& p is Some ==> {
                &&& p->0.devdata_destination_visible == visible
                &&& p->0.collector_status == state.status
                &&& p->0.collector_listening <==> state.status == "listening"@
                &&& p->0.collector_error == state.error
                &&& p->0.collector_host == host.collector_host
                &&& p->0.collector_port == host.collector_port
                &&& p->0.status_command is Some <==> visible
                &&& p->0.start_command is Some <==> visible && state.status == "not_listening"@
                &&& p->0.status_command is Some ==> p->0.status_command->0[1] == "status"@
                &&& p->0.start_command is Some ==> p->0.start_command->0[1] == "start"@
            }
        }),
{
}

/// The step for the collector stands right before the hook is triggered, records nothing and
/// asks the operator; without one the steps stay as they are.
pub proof fn law_collector_step_stands_before_the_hook(
    flow: Seq<ClientBindingOperatorFlowStepView>,
    client: Seq<char>,
    installed_config: Option<Seq<char>>,
    event_jsonl: Option<Seq<char>>,
    p: ContinueDevdataCollectorProbeView,
    host: HostView,
    i: int,
)
    requires
        0 <= i < flow.len(),
        flow[i].id == "trigger_private_client_hook"@,
        forall|j: int| 0 <= j < i ==> (#[trigger] flow[j]).id != "trigger_private_client_hook"@,
    ensures
        ({
            let step = collector_step(client, installed_config, event_jsonl, Some(p), host);
            let unproven = p.collector_status == "probe_blocked"@ || p.collector_status
                == "probe_unavailable"@;
            let told = with_collector_step(flow, step);
            &&& step is Some <==> client == "continue"@ && p.devdata_destination_visible && (
            unproven || !p.collector_listening)
            &&& step matches Some(s) ==> {
                &&& !s.records_proof && s.requires_operator_action
                &&& s.id == if unproven {
                    "check_continue_devdata_collector_status"@
                } else {
                    "start_continue_devdata_collector_before_real_hook"@
                }
                &&& told == flow.take(i).push(s) + flow.skip(i)
            }
            &&& step is None ==> told == flow
        }),
{
    lemma_position(flow, "trigger_private_client_hook"@, i);
    let step = collector_step(client, installed_config, event_jsonl, Some(p), host);
    if let Some(s) = step {
        assert(flow.insert(i, s) =~= flow.take(i).push(s) + flow.skip(i));
    }
}

proof fn lemma_position(flow: Seq<ClientBindingOperatorFlowStepView>, id: Seq<char>, i: int)
    requires
        0 <= i < flow.len(),
        flow[i].id == id,
        forall|j: int| 0 <= j < i ==> (#[trigger] flow[j]).id != id,
    ensures
        position(flow, id) == i,
    decreases flow.len(),
{
    if i > 0 {
        assert(flow[0].id != id);
        let rest = flow.skip(1);
        assert forall|j: int| 0 <= j < i - 1 implies (#[trigger] rest[j]).id != id by {
            assert(rest[j] == flow[j + 1]);
        }
        lemma_position(rest, id, i - 1);
    }
}

/// A step leads to the level that it is a part of, and no other step leads to one.
pub proof fn law_steps_lead_to_their_level(step_id: Seq<char>)
    ensures
        step_level(step_id) == Some(ClientBindingProofLevel::ObservedAppHook)
            <==> step_id == "check_continue_devdata_collector_status"@
            || step_id == "start_continue_devdata_collector_before_real_hook"@
            || step_id == "trigger_private_client_hook"@ || step_id == "drain_adapter_spool"@
            || step_id == "record_observed_app_hook"@,
        step_level(step_id) == Some(ClientBindingProofLevel::ObservedInClientRender)
            <==> step_id == "render_review_surface"@
            || step_id == "capture_in_client_render_evidence"@
            || step_id == "record_observed_in_client_render"@,
        step_level(step_id) == Some(ClientBindingProofLevel::ObservedReviewAction)
            <==> step_id == "execute_rendered_review_control"@
            || step_id == "record_observed_review_action"@,
        step_level(step_id) is Some ==> (step_level(step_id)->0 is ObservedAppHook || step_level(
            step_id,
        )->0 is ObservedInClientRender || step_level(step_id)->0 is ObservedReviewAction),
{
    reveal_strlit("check_continue_devdata_collector_status");
    reveal_strlit("start_continue_devdata_collector_before_real_hook");
    reveal_strlit("trigger_private_client_hook");
    reveal_strlit("drain_adapter_spool");
    reveal_strlit("record_observed_app_hook");
    reveal_strlit("render_review_surface");
    reveal_strlit("capture_in_client_render_evidence");
    reveal_strlit("record_observed_in_client_render");
    reveal_strlit("execute_rendered_review_control");
    reveal_strlit("record_observed_review_action");
    assert("check_continue_devdata_collector_status"@.len() == 39);
    assert("start_continue_devdata_collector_before_real_hook"@.len() == 49);
    assert("trigger_private_client_hook"@.len() == 27);
    assert("drain_adapter_spool"@.len() == 19);
    assert("record_observed_app_hook"@.len() == 24);
    assert("render_review_surface"@.len() == 21);
    assert("capture_in_client_render_evidence"@.len() == 33);
    assert("record_observed_in_client_render"@.len() == 32);
    assert("execute_rendered_review_control"@.len() == 31);
    assert("record_observed_review_action"@.len() == 29);
}

/// Each step belongs to one part of the way: setting up, the hook, the shown review, the
/// action on it, or the closing look. Any other word belongs to none.
pub proof fn law_steps_belong_to_a_part(step_id: Seq<char>)
    ensures
        step_stage(step_id) == "setup"@ <==> step_id == "record_reference_binding_manifest"@
            || step_id == "render_or_write_installed_config"@
            || step_id == "install_or_merge_private_client_config"@
            || step_id == "check_installed_config"@,
        step_stage(step_id) == "app_hook"@
            <==> step_id == "check_continue_devdata_collector_status"@
            || step_id == "start_continue_devdata_collector_before_real_hook"@
            || step_id == "trigger_private_client_hook"@ || step_id == "drain_adapter_spool"@
            || step_id == "record_observed_app_hook"@ || step_id == "record_observed_event_file"@,
        step_stage(step_id) == "review_render"@ <==> step_id == "render_review_surface"@
            || step_id == "capture_in_client_render_evidence"@
            || step_id == "record_observed_in_client_render"@,
        step_stage(step_id) == "review_action"@ <==> step_id == "execute_rendered_review_control"@
            || step_id == "record_observed_review_action"@,
        step_stage(step_id) == "verification"@ <==> step_id == "verify_evidence_artifacts_and_status"@,
        step_level(step_id) == Some(ClientBindingProofLevel::ObservedAppHook) ==> step_stage(step_id) == "app_hook"@,
        step_level(step_id) == Some(ClientBindingProofLevel::ObservedInClientRender) ==> step_stage(step_id)
            == "review_render"@,
        step_level(step_id) == Some(ClientBindingProofLevel::ObservedReviewAction) ==> step_stage(step_id)
            == "review_action"@,
{
    reveal_strlit("record_reference_binding_manifest");
    reveal_strlit("render_or_write_installed_config");
    reveal_strlit("install_or_merge_private_client_config");
    reveal_strlit("check_installed_config");
    reveal_strlit("check_continue_devdata_collector_status");
    reveal_strlit("start_continue_devdata_collector_before_real_hook");
    reveal_strlit("trigger_private_client_hook");
    reveal_strlit("drain_adapter_spool");
    reveal_strlit("record_observed_app_hook");
    reveal_strlit("record_observed_event_file");
    reveal_strlit("render_review_surface");
    reveal_strlit("capture_in_client_render_evidence");
    reveal_strlit("record_observed_in_client_render");
    reveal_strlit("execute_rendered_review_control");
    reveal_strlit("record_observed_review_action");
    reveal_strlit("verify_evidence_artifacts_and_status");
    assert("record_reference_binding_manifest"@.len() == 33);
    assert("record_reference_binding_manifest"@[0] == 'r');
    assert("render_or_write_installed_config"@.len() == 32);
    assert("render_or_write_installed_config"@[0] == 'r');
    assert("install_or_merge_private_client_config"@.len() == 38);
    assert("install_or_merge_private_client_config"@[0] == 'i');
    assert("check_installed_config"@.len() == 22);
    assert("check_installed_config"@[0] == 'c');
    assert("check_continue_devdata_collector_status"@.len() == 39);
    assert("check_continue_devdata_collector_status"@[0] == 'c');
    assert("start_continue_devdata_collector_before_real_hook"@.len() == 49);
    assert("start_continue_devdata_collector_before_real_hook"@[0] == 's');
    assert("trigger_private_client_hook"@.len() == 27);
    assert("trigger_private_client_hook"@[0] == 't');
    assert("drain_adapter_spool"@.len() == 19);
    assert("drain_adapter_spool"@[0] == 'd');
    assert("record_observed_app_hook"@.len() == 24);
    assert("record_observed_app_hook"@[0] == 'r');
    assert("record_observed_event_file"@.len() == 26);
    assert("record_observed_event_file"@[0] == 'r');
    assert("render_review_surface"@.len() == 21);
    assert("render_review_surface"@[0] == 'r');
    assert("capture_in_client_render_evidence"@.len() == 33);
    assert("capture_in_client_render_evidence"@[0] == 'c');
    assert("record_observed_in_client_render"@.len() == 32);
    assert("record_observed_in_client_render"@[0] == 'r');
    assert("execute_rendered_review_control"@.len() == 31);
    assert("execute_rendered_review_control"@[0] == 'e');
    assert("record_observed_review_action"@.len() == 29);
    assert("record_observed_review_action"@[0] == 'r');
    assert("verify_evidence_artifacts_and_status"@.len() == 36);
    assert("verify_evidence_artifacts_and_status"@[0] == 'v');
    reveal_strlit("setup");
    reveal_strlit("app_hook");
    reveal_strlit("review_render");
    reveal_strlit("review_action");
    reveal_strlit("verification");
    reveal_strlit("unknown");
    assert("setup"@.len() == 5);
    assert("setup"@[0] == 's');
    assert("app_hook"@.len() == 8);
    assert("app_hook"@[0] == 'a');
    assert("review_render"@.len() == 13);
    assert("review_render"@[0] == 'r');
    assert("review_action"@.len() == 13);
    assert("review_action"@[0] == 'r');
    assert("verification"@.len() == 12);
    assert("verification"@[0] == 'v');
    assert("unknown"@.len() == 7);
    assert("unknown"@[0] == 'u');
    assert("review_render"@[7] == 'r');
    assert("review_action"@[7] == 'a');
    assert("record_observed_in_client_render"@[2] == 'c');
    assert("render_or_write_installed_config"@[2] == 'n');
}

/// Each step is done by its own action; a step without one goes on with the session.
pub proof fn law_steps_are_done_by_their_action(step_id: Seq<char>)
    ensures
        step_id == "render_or_write_installed_config"@ ==> step_action(step_id)
            == "write_or_install_private_client_binding_config"@,
        step_id == "install_or_merge_private_client_config"@ ==> step_action(step_id)
            == "write_or_install_private_client_binding_config"@,
        step_id == "trigger_private_client_hook"@ ==> step_action(step_id)
            == "trigger_real_private_client_hook_to_write_private_spool_event"@,
        step_id == "start_continue_devdata_collector_before_real_hook"@ ==> step_action(step_id)
            == "start_continue_devdata_collector_before_real_hook"@,
        step_id == "check_continue_devdata_collector_status"@ ==> step_action(step_id)
            == "check_continue_devdata_collector_status"@,
        step_id == "record_observed_app_hook"@ ==> step_action(step_id)
            == "record_observed_app_hook_from_real_event_after_operator_confirmation"@,
        step_id == "render_review_surface"@ ==> step_action(step_id)
            == "render_client_review_surface"@,
        step_id == "capture_in_client_render_evidence"@ ==> step_action(step_id)
            == "capture_in_client_render_evidence"@,
        step_id == "record_observed_in_client_render"@ ==> step_action(step_id)
            == "record_observed_in_client_render_after_operator_confirmation"@,
        step_id == "execute_rendered_review_control"@ ==> step_action(step_id)
            == "execute_rendered_review_control"@,
        step_id == "record_observed_review_action"@ ==> step_action(step_id)
            == "record_observed_review_action_after_operator_confirmation"@,
        step_id == "verify_evidence_artifacts_and_status"@ ==> step_action(step_id)
            == "verify_client_binding_evidence_artifacts"@,
        !(step_id == "render_or_write_installed_config"@
            || step_id == "install_or_merge_private_client_config"@
            || step_id == "trigger_private_client_hook"@
            || step_id == "start_continue_devdata_collector_before_real_hook"@
            || step_id == "check_continue_devdata_collector_status"@
            || step_id == "record_observed_app_hook"@ || step_id == "render_review_surface"@
            || step_id == "capture_in_client_render_evidence"@
            || step_id == "record_observed_in_client_render"@
            || step_id == "execute_rendered_review_control"@
            || step_id == "record_observed_review_action"@
            || step_id == "verify_evidence_artifacts_and_status"@)
            ==> step_action(step_id) == "continue_proof_session_"@
            + step_id,
{
    reveal_strlit("render_or_write_installed_config");
    reveal_strlit("install_or_merge_private_client_config");
    reveal_strlit("trigger_private_client_hook");
    reveal_strlit("start_continue_devdata_collector_before_real_hook");
    reveal_strlit("check_continue_devdata_collector_status");
    reveal_strlit("record_observed_app_hook");
    reveal_strlit("render_review_surface");
    reveal_strlit("capture_in_client_render_evidence");
    reveal_strlit("record_observed_in_client_render");
    reveal_strlit("execute_rendered_review_control");
    reveal_strlit("record_observed_review_action");
    reveal_strlit("verify_evidence_artifacts_and_status");
    assert("render_or_write_installed_config"@.len() == 32);
    assert("install_or_merge_private_client_config"@.len() == 38);
    assert("trigger_private_client_hook"@.len() == 27);
    assert("start_continue_devdata_collector_before_real_hook"@.len() == 49);
    assert("check_continue_devdata_collector_status"@.len() == 39);
    assert("record_observed_app_hook"@.len() == 24);
    assert("render_review_surface"@.len() == 21);
    assert("capture_in_client_render_evidence"@.len() == 33);
    assert("record_observed_in_client_render"@.len() == 32);
    assert("execute_rendered_review_control"@.len() == 31);
    assert("record_observed_review_action"@.len() == 29);
    assert("verify_evidence_artifacts_and_status"@.len() == 36);
    assert("record_observed_in_client_render"@[2] == 'c');
    assert("render_or_write_installed_config"@[2] == 'n');
}

/// What is to be done next follows from the status: storage that cannot be read is restored,
/// a ready client has passed, faulty proofs are refreshed unless the shown review is to be
/// captured, a weak source is replaced; else the next step is done, and without one the
/// readiness looked at.
pub proof fn law_next_action_follows_from_the_status(status: Seq<char>, next: Option<Seq<char>>)
    ensures
        status == "proof_storage_unavailable"@ ==> next_action(status, next)
            == "restore_client_binding_proof_storage_access"@,
        status == "ready_for_private_client_claim"@ ==> next_action(status, next)
            == "client_binding_release_gate_passed"@,
        status == "blocked_by_stored_proof_integrity_or_identity"@ ==> next_action(status, next)
            == if next == Some("capture_in_client_render_evidence"@) {
            "capture_in_client_render_evidence"@
        } else {
            "refresh_invalid_client_binding_artifacts"@
        },
        status == "blocked_by_non_release_evidence_source"@ ==> next_action(status, next)
            == "record_release_grade_private_client_proof"@,
        !(status == "proof_storage_unavailable"@ || status == "ready_for_private_client_claim"@
            || status == "blocked_by_stored_proof_integrity_or_identity"@
            || status == "blocked_by_non_release_evidence_source"@)
            ==> next_action(status, next) == match next {
            Some(step) => step_action(step),
            None => "inspect_private_client_readiness"@,
        },
{
    reveal_strlit("proof_storage_unavailable");
    reveal_strlit("ready_for_private_client_claim");
    reveal_strlit("blocked_by_stored_proof_integrity_or_identity");
    reveal_strlit("blocked_by_non_release_evidence_source");
    assert("proof_storage_unavailable"@.len() == 25);
    assert("ready_for_private_client_claim"@.len() == 30);
    assert("blocked_by_stored_proof_integrity_or_identity"@.len() == 45);
    assert("blocked_by_non_release_evidence_source"@.len() == 38);
}

}
