//! What holds of configurations and events that count for a proof, word by word.
use super::config::{config_scan, config_suffices};
use super::events::{
    counted, drain_suffices, event_bool, event_client, event_text, events_suffice, from_source,
    is_manual_event, is_manual_marker, is_test_event, is_test_marker, lines_counted, marks_of,
    marks_test, not_ahead, payload_of, times_fit, EventMarks,
};
use super::nonce::{is_nonce_name, normalized_nonce};
use super::surfaces::{is_placeholder, is_raw_marker, is_raw_surface, surface_name};
use super::types::{EventScanView, InstalledConfigScanView};
use crate::fingerprint::fingerprint;
use crate::json::{as_bool, as_i64, as_text, as_u64, get, JsonView};
use crate::outcome::trimmed_nonblank;
use crate::outside::json_of;
use crate::storage::ClientBindingProofLevel;
use crate::text::{contains, is_control, is_space, lowered, replaced, trimmed};
use vstd::prelude::*;
use vstd::string::*;
use vstd::utf8::encode_utf8;

verus! {

// ---------------------------------------------------------------------------
// Configurations
// ---------------------------------------------------------------------------

/// A configuration refers to what its text names, in either case: to the lifecycle wrapper,
/// the spool, the review renderer by their commands, to the spool's file by its variables or
/// its usual names, to the client and to its event source by their names.
pub proof fn law_configs_refer_to_what_they_name(
    path: Seq<char>,
    modified_at_ns: Option<i64>,
    bytes: Seq<u8>,
    raw: Seq<char>,
    nonce: Option<Seq<char>>,
    client: Seq<char>,
    source: Option<Seq<char>>,
)
    ensures
        ({
            let s = config_scan(path, modified_at_ns, bytes, raw, nonce, client, source);
            let t = lowered(raw);
            &&& s.path == path
            &&& s.modified_at_ns == modified_at_ns
            &&& s.fingerprint == fingerprint(bytes)
            &&& s.binding_nonce == nonce
            &&& s.expected_event_source == source
            &&& s.references_lifecycle_wrapper <==> contains(t, "soma-adapter-lifecycle.sh"@)
                || contains(t, "adapter-lifecycle"@)
            &&& s.references_spool_append <==> contains(t, "soma-adapter-spool-append.sh"@)
                || contains(t, "adapter-spool-append"@)
            &&& s.references_spool_drain <==> contains(t, "soma-adapter-spool-watch.sh"@)
                || contains(t, "adapter-spool"@)
            &&& s.references_review_render <==> contains(t, "soma-review-render.sh"@) || contains(
                t,
                "review-render"@,
            )
            &&& s.references_event_jsonl_env <==> contains(t, "soma_adapter_lifecycle_jsonl"@)
                || contains(t, "soma_adapter_spool_jsonl"@) || contains(t, "adapter-spool.jsonl"@)
                || contains(t, "adapter/events.jsonl"@)
            &&& s.references_client <==> contains(t, lowered(client))
            &&& s.references_private_event_source <==> source is Some && contains(
                t,
                lowered(source->0),
            )
            &&& s.references_binding_nonce <==> nonce is Some
        }),
{
}

/// For the proof of an app hook a configuration must refer to a wrapper, to the client, to
/// the spool's file, to the private event source and to a nonce; for a render and for a
/// review action to the renderer and to the client; for the other levels none is needed.
pub proof fn law_levels_ask_for_configs(scan: Option<InstalledConfigScanView>)
    ensures
        config_suffices(ClientBindingProofLevel::ReferenceBinding, scan) is Ok,
        config_suffices(ClientBindingProofLevel::ObservedEventFile, scan) is Ok,
        config_suffices(ClientBindingProofLevel::ObservedAppHook, scan) is Ok <==> scan is Some && (
        scan->0.references_lifecycle_wrapper || scan->0.references_spool_append)
            && scan->0.references_client && scan->0.references_event_jsonl_env
            && scan->0.references_private_event_source && scan->0.references_binding_nonce,
        config_suffices(ClientBindingProofLevel::ObservedInClientRender, scan) is Ok <==> scan
            is Some && scan->0.references_review_render && scan->0.references_client,
        config_suffices(ClientBindingProofLevel::ObservedReviewAction, scan) is Ok <==> scan is Some
            && scan->0.references_review_render && scan->0.references_client,
{
}

// ---------------------------------------------------------------------------
// Events
// ---------------------------------------------------------------------------

/// An event is made by hand where its adapter or its policy says so, in either case: that it
/// is for debugging, from a template, or not for release.
pub proof fn law_words_mark_events_made_by_hand(event: JsonView, text: Seq<char>)
    ensures
        ({
            let t = lowered(trimmed(text));
            is_manual_marker(Some(text)) <==> contains(t, "manual_debug"@) || contains(
                t,
                "manual-template"@,
            ) || contains(t, "manual_template"@) || contains(t, "non_release"@) || contains(
                t,
                "non-release"@,
            )
        }),
        !is_manual_marker(None),
        is_manual_event(event) <==> is_manual_marker(event_text(event, "hook_adapter"@))
            || is_manual_marker(event_text(event, "manual_invocation_policy"@)),
{
}

/// An event is one of a test where it says that it is no candidate for release, or where its
/// profile, its session, its thread, its model or what was said in it bears a mark of a
/// test, in either case.
pub proof fn law_words_mark_events_of_tests(event: JsonView, text: Seq<char>, key: Seq<char>)
    ensures
        ({
            let t = lowered(trimmed(text));
            is_test_marker(text) <==> contains(t, "dogfood"@) || contains(t, "local-dogfood"@)
                || contains(t, "soma-test"@) || contains(t, "soma_continue_collector_ok"@)
        }),
        event_bool(event, "collector_release_grade_candidate"@) == Some(false) ==> is_test_event(
            event,
        ),
        (key == "continue_profile_id"@ || key == "session_id"@ || key == "thread_id"@ || key
            == "model_provider"@ || key == "model_name"@ || key == "model_title"@ || key
            == "prompt_text"@ || key == "response_text"@ || key == "output_text"@) && (event_text(
            event,
            key,
        ) matches Some(s) && is_test_marker(s)) ==> is_test_event(event),
        is_test_event(event) ==> event_bool(event, "collector_release_grade_candidate"@) == Some(
            false,
        ) || marks_test(event, "continue_profile_id"@) || marks_test(event, "session_id"@)
            || marks_test(event, "thread_id"@) || marks_test(event, "model_provider"@)
            || marks_test(event, "model_name"@) || marks_test(event, "model_title"@) || marks_test(
            event,
            "prompt_text"@,
        ) || marks_test(event, "response_text"@) || marks_test(event, "output_text"@),
{
}

/// What an event says is looked for in its payload first, and only then in the event. Its
/// client is the payload's `client`, or without one the payload's `source`, in lower case.
pub proof fn law_payloads_speak_first(event: JsonView, payload: JsonView, key: Seq<char>)
    requires
        get(event, "payload"@) == Some(payload),
    ensures
        trimmed_nonblank(as_text(get(payload, key))) is Some ==> event_text(event, key)
            == trimmed_nonblank(as_text(get(payload, key))),
        trimmed_nonblank(as_text(get(payload, key))) is None ==> event_text(event, key)
            == trimmed_nonblank(as_text(get(event, key))),
        as_bool(get(payload, key)) is Some ==> event_bool(event, key) == as_bool(get(payload, key)),
        as_bool(get(payload, key)) is None ==> event_bool(event, key) == as_bool(get(event, key)),
        as_text(get(payload, "client"@)) matches Some(c) ==> event_client(event) == lowered(
            trimmed(c),
        ),
        get(payload, "client"@) is None ==> (as_text(get(payload, "source"@)) matches Some(c)
            ==> event_client(event) == lowered(trimmed(c))),
{
}

/// An event counts for a client that it names; it is private where it comes from the
/// expected source, as that of the app; it bears the nonce, the writer's contract, its kind
/// and its time as it states them. A private event made by hand is not also told as a test.
pub proof fn law_events_are_marked_by_what_they_state(
    event: JsonView,
    client: Seq<char>,
    source: Option<Seq<char>>,
    nonce: Option<Seq<char>>,
)
    ensures
        ({
            let m = marks_of(event, client, source, nonce);
            let stated = as_text(get(payload_of(event), "event_source"@));
            &&& m.matching <==> event_client(event) == client
            &&& m.private <==> m.matching && source is Some && stated is Some && lowered(
                trimmed(stated->0),
            ) == lowered(source->0)
            &&& m.manual <==> m.private && is_manual_event(event)
            &&& m.test <==> m.private && !is_manual_event(event) && is_test_event(event)
            &&& m.wrapper <==> as_text(get(event, "writer_contract"@)) == Some(
                "soma_adapter_spool_append_v1"@,
            )
            &&& m.nonce <==> nonce is Some && event_text(event, "binding_nonce"@) == nonce
            &&& m.observed_at_ns == as_i64(get(event, "observed_at_ns"@))
            &&& as_text(get(event, "kind"@)) matches Some(k) ==> {
                let kind = replaced(k, '-', '_');
                &&& m.turn <==> kind == "turn"@ || kind == "capture_turn"@ || kind
                    == "adapter_capture"@
                &&& m.cloud <==> kind == "cloud_output"@ || kind == "adapter_cloud_output"@
            }
        }),
{
}

/// Each event is counted once, under what it is: those made by hand and those of tests are
/// told apart and never counted as private events of a release, whatever else they bear.
pub proof fn law_events_are_counted_by_their_marks(s: EventScanView, m: EventMarks)
    requires
        s.scanned_lines < usize::MAX,
        s.matching_events < usize::MAX,
        s.matching_turns < usize::MAX,
        s.matching_cloud_outputs < usize::MAX,
        s.matching_private_event_sources < usize::MAX,
        s.matching_private_non_release_manual_events < usize::MAX,
        s.matching_private_non_release_test_events < usize::MAX,
        s.matching_writer_contract_events < usize::MAX,
        s.matching_private_writer_contract_events < usize::MAX,
        s.matching_private_binding_nonces < usize::MAX,
        s.matching_events_with_observed_at < usize::MAX,
        s.matching_private_events_with_observed_at < usize::MAX,
    ensures
        ({
            let c = counted(s, m);
            let one = |b: bool|
                if b {
                    1int
                } else {
                    0
                };
            let release = m.private && !m.manual && !m.test;
            &&& c.scanned_lines == s.scanned_lines + 1
            &&& c.matching_events == s.matching_events + one(m.matching)
            &&& c.matching_turns == s.matching_turns + one(m.matching && m.turn)
            &&& c.matching_cloud_outputs == s.matching_cloud_outputs + one(
                m.matching && m.cloud && !m.turn,
            )
            &&& c.matching_private_event_sources == s.matching_private_event_sources + one(release)
            &&& c.matching_private_non_release_manual_events
                == s.matching_private_non_release_manual_events + one(m.manual)
            &&& c.matching_private_non_release_test_events
                == s.matching_private_non_release_test_events + one(m.test)
            &&& c.matching_writer_contract_events == s.matching_writer_contract_events + one(
                m.matching && m.wrapper,
            )
            &&& c.matching_private_writer_contract_events
                == s.matching_private_writer_contract_events + one(release && m.wrapper)
            &&& c.matching_private_binding_nonces == s.matching_private_binding_nonces + one(
                release && m.nonce,
            )
            &&& c.matching_events_with_observed_at == s.matching_events_with_observed_at + one(
                m.matching && m.observed_at_ns is Some,
            )
            &&& c.matching_private_events_with_observed_at
                == s.matching_private_events_with_observed_at + one(
                release && m.observed_at_ns is Some,
            )
            &&& release && m.observed_at_ns is Some
                ==> c.max_matching_private_observed_at_ns is Some
                && c.max_matching_private_observed_at_ns->0 >= m.observed_at_ns->0 && (
            s.max_matching_private_observed_at_ns is Some
                ==> c.max_matching_private_observed_at_ns->0
                >= s.max_matching_private_observed_at_ns->0)
            &&& !release ==> c.max_matching_private_observed_at_ns
                == s.max_matching_private_observed_at_ns
        }),
{
}

/// A line that is an event of a release: it names the client, comes from the expected
/// source, and is neither made by hand nor one of a test.
pub open spec fn is_release_line(
    line: Seq<char>,
    client: Seq<char>,
    source: Option<Seq<char>>,
) -> bool {
    json_of(trimmed(line)) matches Ok(event) && event_client(event) == client && from_source(
        event,
        source,
    ) && !is_manual_event(event) && !is_test_event(event)
}

/// Private events that were counted stand in the file: there is a line that is an event of a
/// release; where some with the writer's contract were counted, one that bears it; where
/// some with the nonce were counted, one that bears that.
pub proof fn law_counted_events_stand_in_the_file(
    lines: Seq<Seq<char>>,
    s: EventScanView,
    client: Seq<char>,
    source: Option<Seq<char>>,
    nonce: Option<Seq<char>>,
)
    requires
        s.matching_private_event_sources == 0,
        s.matching_private_writer_contract_events == 0,
        s.matching_private_binding_nonces == 0,
    ensures
        lines_counted(lines, s, client, source, nonce) matches Ok(c) ==> {
            &&& c.matching_private_event_sources > 0 ==> exists|i: int|
                0 <= i < lines.len() && is_release_line(#[trigger] lines[i], client, source)
            &&& c.matching_private_writer_contract_events > 0 ==> exists|i: int|
                0 <= i < lines.len() && is_release_line(#[trigger] lines[i], client, source)
                    && as_text(get(json_of(trimmed(lines[i]))->Ok_0, "writer_contract"@)) == Some(
                    "soma_adapter_spool_append_v1"@,
                )
            &&& c.matching_private_binding_nonces > 0 ==> exists|i: int|
                0 <= i < lines.len() && is_release_line(#[trigger] lines[i], client, source)
                    && nonce is Some && event_text(
                    json_of(trimmed(lines[i]))->Ok_0,
                    "binding_nonce"@,
                ) == nonce
        },
    decreases lines.len(),
{
    if lines.len() > 0 && lines_counted(lines, s, client, source, nonce) is Ok {
        let front = lines.drop_last();
        law_counted_events_stand_in_the_file(front, s, client, source, nonce);
        let f = lines_counted(front, s, client, source, nonce)->Ok_0;
        let c = lines_counted(lines, s, client, source, nonce)->Ok_0;
        let n = lines.len() - 1;
        assert(lines[n] == lines.last());
        if c.matching_private_event_sources > 0 {
            if f.matching_private_event_sources > 0 {
                let i = choose|i: int|
                    0 <= i < front.len() && is_release_line(#[trigger] front[i], client, source);
                assert(is_release_line(lines[i], client, source));
            } else {
                assert(is_release_line(lines[n], client, source));
            }
        }
        if c.matching_private_writer_contract_events > 0 {
            if f.matching_private_writer_contract_events > 0 {
                let i = choose|i: int|
                    0 <= i < front.len() && is_release_line(#[trigger] front[i], client, source)
                        && as_text(get(json_of(trimmed(front[i]))->Ok_0, "writer_contract"@))
                        == Some("soma_adapter_spool_append_v1"@);
                assert(is_release_line(lines[i], client, source));
            } else {
                assert(is_release_line(lines[n], client, source));
            }
        }
        if c.matching_private_binding_nonces > 0 {
            if f.matching_private_binding_nonces > 0 {
                let i = choose|i: int|
                    0 <= i < front.len() && is_release_line(#[trigger] front[i], client, source)
                        && nonce is Some && event_text(
                        json_of(trimmed(front[i]))->Ok_0,
                        "binding_nonce"@,
                    ) == nonce;
                assert(is_release_line(lines[i], client, source));
            } else {
                assert(is_release_line(lines[n], client, source));
            }
        }
    }
}

/// Event files are asked for at two levels: one event of the client suffices for the first;
/// for an app hook there must be private ones, among them one with the writer's contract,
/// one with a time and one with the nonce.
pub proof fn law_levels_ask_for_events(
    scan: Option<EventScanView>,
    source: Option<Seq<char>>,
    nonce: Option<Seq<char>>,
)
    ensures
        events_suffice(ClientBindingProofLevel::ReferenceBinding, scan, source, nonce) is Ok,
        events_suffice(ClientBindingProofLevel::ObservedInClientRender, scan, source, nonce) is Ok,
        events_suffice(ClientBindingProofLevel::ObservedReviewAction, scan, source, nonce) is Ok,
        events_suffice(ClientBindingProofLevel::ObservedEventFile, scan, source, nonce) is Ok
            <==> scan is Some && scan->0.matching_events > 0,
        events_suffice(ClientBindingProofLevel::ObservedAppHook, scan, source, nonce) is Ok <==> {
            &&& scan is Some
            &&& source is Some
            &&& nonce is Some
            &&& scan->0.matching_events > 0
            &&& scan->0.matching_private_event_sources > 0
            &&& scan->0.matching_private_writer_contract_events > 0
            &&& scan->0.matching_private_events_with_observed_at > 0
            &&& scan->0.matching_private_binding_nonces > 0
        },
{
}

/// For an app hook the last private event must not be older than the configuration by more
/// than a second, nor its file, where their times are known; and it must not lie more than
/// five minutes ahead.
pub proof fn law_app_hook_events_are_of_their_time(
    events: EventScanView,
    config: InstalledConfigScanView,
    now_ns: i64,
)
    ensures
        ({
            let hook = ClientBindingProofLevel::ObservedAppHook;
            &&& times_fit(hook, Some(events), Some(config)) is Ok ==> {
                &&& config.modified_at_ns is Some
                &&& events.max_matching_private_observed_at_ns is Some
                &&& events.max_matching_private_observed_at_ns->0 + 1_000_000_000
                    >= config.modified_at_ns->0
                &&& events.modified_at_ns matches Some(w) ==> w + 1_000_000_000
                    >= config.modified_at_ns->0
            }
            &&& config.modified_at_ns is Some && events.max_matching_private_observed_at_ns is Some
                && events.max_matching_private_observed_at_ns->0 + 1_000_000_000
                >= config.modified_at_ns->0 && (events.modified_at_ns is None
                || events.modified_at_ns->0 + 1_000_000_000 >= config.modified_at_ns->0)
                ==> times_fit(hook, Some(events), Some(config)) is Ok
            &&& events.max_matching_private_observed_at_ns matches Some(t) ==> (not_ahead(
                hook,
                Some(events),
                now_ns,
            ) is Ok <==> t <= now_ns + 300_000_000_000)
        }),
{
}

/// A report of a drain counts where it captured a turn or a cloud output; an app hook must
/// have one.
pub proof fn law_drain_reports_capture_something(level: ClientBindingProofLevel, report: JsonView)
    ensures
        drain_suffices(level, None) is Err <==> level == ClientBindingProofLevel::ObservedAppHook,
        drain_suffices(level, Some(report)) is Ok <==> (as_u64(get(report, "captured_turns"@))
            is Some && as_u64(get(report, "captured_turns"@))->0 > 0) || (as_u64(
            get(report, "captured_cloud_outputs"@),
        ) is Some && as_u64(get(report, "captured_cloud_outputs"@))->0 > 0),
{
}

// ---------------------------------------------------------------------------
// Nonces
// ---------------------------------------------------------------------------

/// A nonce stands under one of three names, in either case. One that is given is taken
/// trimmed, and refused where it is empty, over 256 bytes or more than one word.
pub proof fn law_nonces_stand_under_their_names(name: Seq<char>, value: Seq<char>)
    ensures
        ({
            let n = lowered(trimmed(name));
            is_nonce_name(name) <==> n == "soma_adapter_lifecycle_binding_nonce"@ || n
                == "soma_adapter_binding_nonce"@ || n == "binding_nonce"@
        }),
        normalized_nonce(value) matches Ok(n) ==> n == trimmed(value),
        normalized_nonce(value) is Ok <==> {
            let t = trimmed(value);
            &&& 0 < t.len()
            &&& encode_utf8(t).len() <= 256
            &&& forall|i: int| 0 <= i < t.len() ==> !is_space(#[trigger] t[i]) && !is_control(t[i])
        },
{
}

// ---------------------------------------------------------------------------
// Surfaces
// ---------------------------------------------------------------------------

/// A surface is raw tool output where its kind, its title, its name, its source or the way
/// it is rendered says so, in either case and with blanks or hyphens. A text in angle
/// brackets is a placeholder. The surface of the review actions is called by its buttons.
pub proof fn law_words_mark_raw_surfaces(surface: JsonView, text: Seq<char>, field: Seq<char>)
    ensures
        ({
            let n = replaced(replaced(lowered(trimmed(text)), ' ', '_'), '-', '_');
            is_raw_marker(text) <==> contains(n, "mcp_tool"@) || contains(n, "tool_output"@)
                || contains(n, "review_render_output"@) || contains(n, "client_binding_status"@)
                || contains(n, "json_dump"@)
        }),
        (field == "kind"@ || field == "title"@ || field == "name"@ || field == "source"@ || field
            == "render_as"@) && (as_text(get(surface, field)) matches Some(s) && is_raw_marker(s))
            ==> is_raw_surface(surface),
        is_placeholder(text) <==> trimmed(text).len() >= 2 && trimmed(text)[0] == '<' && trimmed(
            text,
        ).last() == '>',
        trimmed(text) == "review_actions"@ ==> surface_name(text) == "action_buttons"@,
        trimmed(text) != "review_actions"@ ==> surface_name(text) == trimmed(text),
{
}

}
