//! Event files: what a client's hook wrote, and whether it proves anything.
use super::files::{metadata_failed, metadata_fault};
use super::types::{
    malformed, refuse, AdapterBindingProofError, BindingFault, EventScan, EventScanView,
    InstalledConfigScan, InstalledConfigScanView, ObservedFile, ObservedFileView,
};
use crate::fingerprint::{fingerprint, stable_content_fingerprint};
use crate::json::{
    as_bool, as_i64, as_text, as_u64, get, opt_int, opt_text, text_in, Json, JsonView, Members,
};
use crate::number::{decimal, decimal_text};
use crate::outcome::{borrowed, outcome, owned, trim_nonblank, trimmed_nonblank, verdict};
use crate::outside::{json_of, parse_json, utf8_fault, utf8_text};
use crate::storage::{level_name, ClientBindingProofLevel};
use crate::text::{
    cat2, cat3, cat4, contains, lines, lines_of, lower, lowered, mentions, nil, none, replace,
    replaced, same, same_lowered, trim, trimmed, with,
};
use vstd::prelude::*;
use vstd::string::*;
use vstd::utf8::{decode_utf8, valid_utf8};

verus! {

// ---------------------------------------------------------------------------
// One event
// ---------------------------------------------------------------------------

/// The payload of an event: null where it has none.
pub open spec fn payload_of(event: JsonView) -> JsonView {
    match get(event, "payload"@) {
        Some(p) => p,
        None => JsonView::Null,
    }
}

/// A text of an event that is not blank: first in the payload, then in the event.
pub open spec fn event_text(event: JsonView, key: Seq<char>) -> Option<Seq<char>> {
    match trimmed_nonblank(as_text(get(payload_of(event), key))) {
        Some(s) => Some(s),
        None => trimmed_nonblank(as_text(get(event, key))),
    }
}

/// A truth value of an event: first in the payload, then in the event.
pub open spec fn event_bool(event: JsonView, key: Seq<char>) -> Option<bool> {
    match as_bool(get(payload_of(event), key)) {
        Some(b) => Some(b),
        None => as_bool(get(event, key)),
    }
}

fn payload_text<'a>(event: &'a Json, key: &str) -> (r: Option<&'a str>)
    ensures
        r.deep_view() == as_text(get(payload_of(event@), key@)),
{
    match event.get("payload") {
        Some(p) => p.get_text(key),
        None => None,
    }
}

/// A text of an event that is not blank: first in the payload, then in the event.
pub fn event_payload_string<'a>(event: &'a Json, key: &str) -> (r: Option<&'a str>)
    ensures
        r.deep_view() == event_text(event@, key@),
{
    match trim_nonblank(payload_text(event, key)) {
        Some(s) => Some(s),
        None => trim_nonblank(event.get_text(key)),
    }
}

/// A truth value of an event: first in the payload, then in the event.
pub fn event_payload_bool(event: &Json, key: &str) -> (r: Option<bool>)
    ensures
        r == event_bool(event@, key@),
{
    let in_payload = match event.get("payload") {
        Some(p) => p.get_bool(key),
        None => None,
    };
    match in_payload {
        Some(b) => Some(b),
        None => event.get_bool(key),
    }
}

/// A text that tells of a hand-made event.
pub open spec fn is_manual_marker(value: Option<Seq<char>>) -> bool {
    match value {
        Some(v) => {
            let s = lowered(trimmed(v));
            ||| contains(s, "manual_debug"@)
            ||| contains(s, "manual-template"@)
            ||| contains(s, "manual_template"@)
            ||| contains(s, "non_release"@)
            ||| contains(s, "non-release"@)
        },
        None => false,
    }
}

pub fn is_non_release_manual_marker(value: Option<&str>) -> (r: bool)
    ensures
        r == is_manual_marker(value.deep_view()),
{
    match value {
        Some(v) => {
            let l = lower(trim(v));
            let s = l.as_str();
            mentions(s, "manual_debug") || mentions(s, "manual-template")
                || mentions(s, "manual_template") || mentions(
                s,
                "non_release",
            ) || mentions(s, "non-release")
        },
        None => false,
    }
}

/// An event that was made by hand.
pub open spec fn is_manual_event(event: JsonView) -> bool {
    is_manual_marker(event_text(event, "hook_adapter"@)) || is_manual_marker(
        event_text(event, "manual_invocation_policy"@),
    )
}

pub fn is_non_release_manual_event(event: &Json) -> (r: bool)
    ensures
        r == is_manual_event(event@),
{
    is_non_release_manual_marker(event_payload_string(event, "hook_adapter"))
        || is_non_release_manual_marker(event_payload_string(event, "manual_invocation_policy"))
}

/// A text that tells of a test.
pub open spec fn is_test_marker(value: Seq<char>) -> bool {
    let s = lowered(trimmed(value));
    ||| contains(s, "dogfood"@)
    ||| contains(s, "local-dogfood"@)
    ||| contains(s, "soma-test"@)
    ||| contains(s, "soma_continue_collector_ok"@)
}

pub fn contains_non_release_test_marker(value: &str) -> (r: bool)
    ensures
        r == is_test_marker(value@),
{
    let l = lower(trim(value));
    let s = l.as_str();
    mentions(s, "dogfood") || mentions(s, "local-dogfood") || mentions(s, "soma-test") || mentions(
        s,
        "soma_continue_collector_ok",
    )
}

/// A text of the event that tells of a test.
pub open spec fn marks_test(event: JsonView, key: Seq<char>) -> bool {
    event_text(event, key) matches Some(s) && is_test_marker(s)
}

fn marked_test(event: &Json, key: &str) -> (r: bool)
    ensures
        r == marks_test(event@, key@),
{
    match event_payload_string(event, key) {
        Some(s) => contains_non_release_test_marker(s),
        None => false,
    }
}

/// An event that a test made.
pub open spec fn is_test_event(event: JsonView) -> bool {
    ||| event_bool(event, "collector_release_grade_candidate"@) == Some(false)
    ||| marks_test(event, "continue_profile_id"@)
    ||| marks_test(event, "session_id"@)
    ||| marks_test(event, "thread_id"@)
    ||| marks_test(event, "model_provider"@)
    ||| marks_test(event, "model_name"@)
    ||| marks_test(event, "model_title"@)
    ||| marks_test(event, "prompt_text"@)
    ||| marks_test(event, "response_text"@)
    ||| marks_test(event, "output_text"@)
}

pub fn is_non_release_test_event(event: &Json) -> (r: bool)
    ensures
        r == is_test_event(event@),
{
    let declined = match event_payload_bool(event, "collector_release_grade_candidate") {
        Some(b) => !b,
        None => false,
    };
    declined || marked_test(event, "continue_profile_id") || marked_test(event, "session_id")
        || marked_test(event, "thread_id") || marked_test(event, "model_provider") || marked_test(
        event,
        "model_name",
    ) || marked_test(event, "model_title") || marked_test(event, "prompt_text") || marked_test(
        event,
        "response_text",
    ) || marked_test(event, "output_text")
}

/// The client that an event is of.
pub open spec fn event_client(event: JsonView) -> Seq<char> {
    let p = payload_of(event);
    let named = match get(p, "client"@) {
        Some(v) => Some(v),
        None => get(p, "source"@),
    };
    match as_text(named) {
        Some(s) => lowered(trimmed(s)),
        None => lowered(trimmed(""@)),
    }
}

fn client_of(event: &Json) -> (r: String)
    ensures
        r@ == event_client(event@),
{
    let named = match event.get("payload") {
        Some(p) => match p.get("client") {
            Some(v) => Some(v),
            None => p.get("source"),
        },
        None => None,
    };
    match text_in(named) {
        Some(s) => lower(trim(s)),
        None => lower(trim("")),
    }
}

/// The kind of an event.
pub open spec fn event_kind(event: JsonView) -> Seq<char> {
    match as_text(get(event, "kind"@)) {
        Some(k) => replaced(k, '-', '_'),
        None => replaced(""@, '-', '_'),
    }
}

pub open spec fn is_turn(kind: Seq<char>) -> bool {
    kind == "turn"@ || kind == "capture_turn"@ || kind == "adapter_capture"@
}

pub open spec fn is_cloud_output(kind: Seq<char>) -> bool {
    kind == "cloud_output"@ || kind == "adapter_cloud_output"@
}

/// The event was written by the wrapper.
pub open spec fn by_wrapper(event: JsonView) -> bool {
    as_text(get(event, "writer_contract"@)) == Some("soma_adapter_spool_append_v1"@)
}

/// The event comes from the expected source, whatever the case of its letters.
pub open spec fn from_source(event: JsonView, source: Option<Seq<char>>) -> bool {
    match (source, as_text(get(payload_of(event), "event_source"@))) {
        (Some(e), Some(s)) => lowered(trimmed(s)) == lowered(e),
        _ => false,
    }
}

/// The event carries the expected nonce.
pub open spec fn with_nonce(event: JsonView, nonce: Option<Seq<char>>) -> bool {
    match nonce {
        Some(n) => event_text(event, "binding_nonce"@) == Some(n),
        None => false,
    }
}

/// What an event is worth as evidence for a client.
pub struct EventMarks {
    /// It is of the client.
    pub matching: bool,
    /// It comes from the private hook.
    pub private: bool,
    pub manual: bool,
    pub test: bool,
    pub wrapper: bool,
    pub nonce: bool,
    pub turn: bool,
    pub cloud: bool,
    pub observed_at_ns: Option<i64>,
}

pub open spec fn marks_of(
    event: JsonView,
    client: Seq<char>,
    source: Option<Seq<char>>,
    nonce: Option<Seq<char>>,
) -> EventMarks {
    let matching = event_client(event) == client;
    let private = matching && from_source(event, source);
    EventMarks {
        matching,
        private,
        manual: private && is_manual_event(event),
        test: private && !is_manual_event(event) && is_test_event(event),
        wrapper: by_wrapper(event),
        nonce: with_nonce(event, nonce),
        turn: is_turn(event_kind(event)),
        cloud: is_cloud_output(event_kind(event)),
        observed_at_ns: as_i64(get(event, "observed_at_ns"@)),
    }
}

fn find_marks(
    event: &Json,
    client: &str,
    source: Option<&str>,
    nonce: Option<&str>,
) -> (r: EventMarks)
    ensures
        r == marks_of(event@, client@, source.deep_view(), nonce.deep_view()),
{
    let found = client_of(event);
    let matching = same(found.as_str(), client);
    let from = match (source, payload_text(event, "event_source")) {
        (Some(e), Some(s)) => same_lowered(trim(s), e),
        _ => false,
    };
    let private = matching && from;
    let is_manual = is_non_release_manual_event(event);
    let is_test = is_non_release_test_event(event);
    let wrapper = match event.get_text("writer_contract") {
        Some(w) => same(w, "soma_adapter_spool_append_v1"),
        None => false,
    };
    let bound = match nonce {
        Some(n) => match event_payload_string(event, "binding_nonce") {
            Some(b) => same(b, n),
            None => false,
        },
        None => false,
    };
    let kind = match event.get_text("kind") {
        Some(k) => replace(k, '-', '_'),
        None => replace("", '-', '_'),
    };
    let k = kind.as_str();
    EventMarks {
        matching,
        private,
        manual: private && is_manual,
        test: private && !is_manual && is_test,
        wrapper,
        nonce: bound,
        turn: same(k, "turn") || same(k, "capture_turn") || same(k, "adapter_capture"),
        cloud: same(k, "cloud_output") || same(k, "adapter_cloud_output"),
        observed_at_ns: event.get_i64("observed_at_ns"),
    }
}

// ---------------------------------------------------------------------------
// Counting
// ---------------------------------------------------------------------------

pub open spec fn plus(n: usize, more: bool) -> usize {
    if more {
        (n + 1) as usize
    } else {
        n
    }
}

/// The later of two points in time.
pub open spec fn later(a: Option<i64>, b: Option<i64>) -> Option<i64> {
    match (a, b) {
        (Some(x), Some(y)) => Some(
            if x >= y {
                x
            } else {
                y
            },
        ),
        (Some(x), None) => Some(x),
        (None, y) => y,
    }
}

/// The counts with one more event. An event of the private hook counts as such only
/// where it was neither made by hand nor by a test.
pub open spec fn counted(s: EventScanView, m: EventMarks) -> EventScanView {
    let release = m.private && !m.manual && !m.test;
    let t = if m.matching {
        m.observed_at_ns
    } else {
        None
    };
    let rt = if release {
        m.observed_at_ns
    } else {
        None
    };
    EventScanView {
        scanned_lines: plus(s.scanned_lines, true),
        matching_events: plus(s.matching_events, m.matching),
        matching_turns: plus(s.matching_turns, m.matching && m.turn),
        matching_cloud_outputs: plus(s.matching_cloud_outputs, m.matching && !m.turn && m.cloud),
        matching_private_event_sources: plus(s.matching_private_event_sources, release),
        matching_private_non_release_manual_events: plus(
            s.matching_private_non_release_manual_events,
            m.manual,
        ),
        matching_private_non_release_test_events: plus(
            s.matching_private_non_release_test_events,
            m.test,
        ),
        matching_writer_contract_events: plus(
            s.matching_writer_contract_events,
            m.matching && m.wrapper,
        ),
        matching_private_writer_contract_events: plus(
            s.matching_private_writer_contract_events,
            release && m.wrapper,
        ),
        matching_private_binding_nonces: plus(
            s.matching_private_binding_nonces,
            release && m.nonce,
        ),
        matching_private_non_release_manual_binding_nonces: plus(
            s.matching_private_non_release_manual_binding_nonces,
            m.manual && m.nonce,
        ),
        matching_private_non_release_test_binding_nonces: plus(
            s.matching_private_non_release_test_binding_nonces,
            m.test && m.nonce,
        ),
        matching_events_with_observed_at: plus(s.matching_events_with_observed_at, t is Some),
        matching_private_events_with_observed_at: plus(
            s.matching_private_events_with_observed_at,
            rt is Some,
        ),
        max_matching_observed_at_ns: later(s.max_matching_observed_at_ns, t),
        max_matching_private_observed_at_ns: later(s.max_matching_private_observed_at_ns, rt),
        ..s
    }
}

/// No count is over `n`.
pub open spec fn at_most(s: EventScanView, n: int) -> bool {
    &&& s.scanned_lines <= n
    &&& s.matching_events <= n
    &&& s.matching_turns <= n
    &&& s.matching_cloud_outputs <= n
    &&& s.matching_private_event_sources <= n
    &&& s.matching_private_non_release_manual_events <= n
    &&& s.matching_private_non_release_test_events <= n
    &&& s.matching_writer_contract_events <= n
    &&& s.matching_private_writer_contract_events <= n
    &&& s.matching_private_binding_nonces <= n
    &&& s.matching_private_non_release_manual_binding_nonces <= n
    &&& s.matching_private_non_release_test_binding_nonces <= n
    &&& s.matching_events_with_observed_at <= n
    &&& s.matching_private_events_with_observed_at <= n
}

fn bump(n: usize, more: bool) -> (r: usize)
    requires
        n < usize::MAX,
    ensures
        r == plus(n, more),
{
    if more {
        n + 1
    } else {
        n
    }
}

fn later_of(a: Option<i64>, b: Option<i64>) -> (r: Option<i64>)
    ensures
        r == later(a, b),
{
    match (a, b) {
        (Some(x), Some(y)) => Some(if x >= y { x } else { y }),
        (Some(x), None) => Some(x),
        (None, y) => y,
    }
}

/// Counts one more event.
pub fn count_event(
    scan: &mut EventScan,
    event: &Json,
    client: &str,
    expected_event_source: Option<&str>,
    expected_binding_nonce: Option<&str>,
)
    requires
        at_most(old(scan).deep_view(), usize::MAX - 1),
    ensures
        final(scan).deep_view() == counted(
            old(scan).deep_view(),
            marks_of(
                event@,
                client@,
                expected_event_source.deep_view(),
                expected_binding_nonce.deep_view(),
            ),
        ),
{
    let m = find_marks(event, client, expected_event_source, expected_binding_nonce);
    let release = m.private && !m.manual && !m.test;
    let t = if m.matching { m.observed_at_ns } else { None };
    let rt = if release { m.observed_at_ns } else { None };
    scan.scanned_lines = bump(scan.scanned_lines, true);
    scan.matching_events = bump(scan.matching_events, m.matching);
    scan.matching_turns = bump(scan.matching_turns, m.matching && m.turn);
    scan.matching_cloud_outputs =
    bump(scan.matching_cloud_outputs, m.matching && !m.turn && m.cloud);
    scan.matching_private_event_sources = bump(scan.matching_private_event_sources, release);
    scan.matching_private_non_release_manual_events =
    bump(scan.matching_private_non_release_manual_events, m.manual);
    scan.matching_private_non_release_test_events =
    bump(scan.matching_private_non_release_test_events, m.test);
    scan.matching_writer_contract_events =
    bump(scan.matching_writer_contract_events, m.matching && m.wrapper);
    scan.matching_private_writer_contract_events =
    bump(scan.matching_private_writer_contract_events, release && m.wrapper);
    scan.matching_private_binding_nonces =
    bump(scan.matching_private_binding_nonces, release && m.nonce);
    scan.matching_private_non_release_manual_binding_nonces =
    bump(scan.matching_private_non_release_manual_binding_nonces, m.manual && m.nonce);
    scan.matching_private_non_release_test_binding_nonces =
    bump(scan.matching_private_non_release_test_binding_nonces, m.test && m.nonce);
    scan.matching_events_with_observed_at =
    bump(scan.matching_events_with_observed_at, t.is_some());
    scan.matching_private_events_with_observed_at =
    bump(scan.matching_private_events_with_observed_at, rt.is_some());
    scan.max_matching_observed_at_ns = later_of(scan.max_matching_observed_at_ns, t);
    scan.max_matching_private_observed_at_ns =
    later_of(scan.max_matching_private_observed_at_ns, rt);
}

/// The counts before the first line.
pub open spec fn no_counts(
    path: Seq<char>,
    modified_at_ns: Option<i64>,
    bytes: Seq<u8>,
    source: Option<Seq<char>>,
    nonce: Option<Seq<char>>,
) -> EventScanView {
    EventScanView {
        path,
        byte_len: bytes.len() as u64,
        modified_at_ns,
        fingerprint: fingerprint(bytes),
        expected_event_source: source,
        expected_binding_nonce: nonce,
        scanned_lines: 0,
        matching_events: 0,
        matching_turns: 0,
        matching_cloud_outputs: 0,
        matching_private_event_sources: 0,
        matching_private_non_release_manual_events: 0,
        matching_private_non_release_test_events: 0,
        matching_writer_contract_events: 0,
        matching_private_writer_contract_events: 0,
        matching_private_binding_nonces: 0,
        matching_private_non_release_manual_binding_nonces: 0,
        matching_private_non_release_test_binding_nonces: 0,
        matching_events_with_observed_at: 0,
        matching_private_events_with_observed_at: 0,
        max_matching_observed_at_ns: None,
        max_matching_private_observed_at_ns: None,
    }
}

/// The counts after the lines: blank lines are passed over, and the first line that is
/// no JSON is a failure.
pub open spec fn lines_counted(
    lines: Seq<Seq<char>>,
    s: EventScanView,
    client: Seq<char>,
    source: Option<Seq<char>>,
    nonce: Option<Seq<char>>,
) -> Result<EventScanView, BindingFault>
    decreases lines.len(),
{
    if lines.len() == 0 {
        Ok(s)
    } else {
        match lines_counted(lines.drop_last(), s, client, source, nonce) {
            Err(f) => Err(f),
            Ok(c) => if trimmed(lines.last()).len() == 0 {
                Ok(c)
            } else {
                match json_of(trimmed(lines.last())) {
                    Err(e) => malformed(
                        "event JSONL line "@ + decimal(lines.len()) + " parse: "@ + e,
                    ),
                    Ok(event) => Ok(counted(c, marks_of(event, client, source, nonce))),
                }
            },
        }
    }
}

proof fn lemma_first_failure(
    lines: Seq<Seq<char>>,
    k: int,
    s: EventScanView,
    client: Seq<char>,
    source: Option<Seq<char>>,
    nonce: Option<Seq<char>>,
)
    requires
        0 <= k <= lines.len(),
        lines_counted(lines.take(k), s, client, source, nonce) is Err,
    ensures
        lines_counted(lines, s, client, source, nonce) == lines_counted(
            lines.take(k),
            s,
            client,
            source,
            nonce,
        ),
    decreases lines.len() - k,
{
    if k == lines.len() {
        assert(lines.take(k) =~= lines);
    } else {
        assert(lines.drop_last().take(k) =~= lines.take(k));
        lemma_first_failure(lines.drop_last(), k, s, client, source, nonce);
    }
}

/// What an event file holds for a client.
pub open spec fn scanned_events(
    file: ObservedFileView,
    client: Seq<char>,
    source: Option<Seq<char>>,
    nonce: Option<Seq<char>>,
) -> Result<EventScanView, BindingFault> {
    if file.metadata_error is Some {
        Err(metadata_fault("event JSONL"@, file.path, file.metadata_error->0))
    } else if file.read_error is Some {
        Err(BindingFault::Io("read `"@ + file.path + "`: "@ + file.read_error->0))
    } else if !valid_utf8(file.contents) {
        malformed("event JSONL `"@ + file.path + "` must be utf-8: "@ + utf8_fault(file.contents))
    } else {
        lines_counted(
            lines_of(decode_utf8(file.contents)),
            no_counts(file.path, file.modified_at_ns, file.contents, source, nonce),
            client,
            source,
            nonce,
        )
    }
}

/// Counts what an event file holds for a client.
pub fn scan_event_jsonl(
    file: &ObservedFile,
    client: &str,
    expected_event_source: Option<&str>,
    expected_binding_nonce: Option<&str>,
) -> (r: Result<EventScan, AdapterBindingProofError>)
    ensures
        outcome(r) == scanned_events(
            file.deep_view(),
            client@,
            expected_event_source.deep_view(),
            expected_binding_nonce.deep_view(),
        ),
{
    match &file.metadata_error {
        Some(e) => return Err(metadata_failed("event JSONL", file.path.as_str(), e.as_str())),
        None => {},
    }
    match &file.read_error {
        Some(e) => return Err(
            AdapterBindingProofError::Io(cat4("read `", file.path.as_str(), "`: ", e.as_str())),
        ),
        None => {},
    }
    assert(file.contents.deep_view() =~= file.contents@);
    let raw = match utf8_text(file.contents.as_slice()) {
        Err(e) => return Err(
            AdapterBindingProofError::MalformedInput(
                cat4("event JSONL `", file.path.as_str(), "` must be utf-8: ", e.as_str()),
            ),
        ),
        Ok(raw) => raw,
    };
    let mut scan = EventScan {
        path: file.path.clone(),
        byte_len: file.contents.len() as u64,
        modified_at_ns: file.modified_at_ns,
        fingerprint: stable_content_fingerprint(file.contents.as_slice()),
        expected_event_source: owned(expected_event_source),
        expected_binding_nonce: owned(expected_binding_nonce),
        scanned_lines: 0,
        matching_events: 0,
        matching_turns: 0,
        matching_cloud_outputs: 0,
        matching_private_event_sources: 0,
        matching_private_non_release_manual_events: 0,
        matching_private_non_release_test_events: 0,
        matching_writer_contract_events: 0,
        matching_private_writer_contract_events: 0,
        matching_private_binding_nonces: 0,
        matching_private_non_release_manual_binding_nonces: 0,
        matching_private_non_release_test_binding_nonces: 0,
        matching_events_with_observed_at: 0,
        matching_private_events_with_observed_at: 0,
        max_matching_observed_at_ns: None,
        max_matching_private_observed_at_ns: None,
    };
    let list = lines(raw.as_str());
    let ghost all = list.deep_view();
    let ghost start = scan.deep_view();
    let ghost source = expected_event_source.deep_view();
    let ghost nonce = expected_binding_nonce.deep_view();
    assert(all.take(0) =~= nil());
    let mut i: usize = 0;
    while i < list.len()
        invariant
            i <= list.len(),
            all == list.deep_view(),
            all == lines_of(raw@),
            source == expected_event_source.deep_view(),
            nonce == expected_binding_nonce.deep_view(),
            lines_counted(all.take(i as int), start, client@, source, nonce) == Ok::<
                EventScanView,
                BindingFault,
            >(scan.deep_view()),
            at_most(scan.deep_view(), i as int),
            scanned_events(file.deep_view(), client@, source, nonce) == lines_counted(
                all,
                start,
                client@,
                source,
                nonce,
            ),
        decreases list.len() - i,
    {
        assert(all.take(i + 1).drop_last() =~= all.take(i as int));
        assert(all.take(i + 1).last() == list[i as int]@);
        let trimmed_line = trim(list[i].as_str());
        if !trimmed_line.is_empty() {
            match parse_json(trimmed_line) {
                Err(e) => {
                    proof {
                        lemma_first_failure(all, i + 1, start, client@, source, nonce);
                    }
                    return Err(
                        AdapterBindingProofError::MalformedInput(
                            cat4(
                                "event JSONL line ",
                                decimal_text(i as u64 + 1).as_str(),
                                " parse: ",
                                e.as_str(),
                            ),
                        ),
                    );
                },
                Ok(event) => {
                    count_event(
                        &mut scan,
                        &event,
                        client,
                        expected_event_source,
                        expected_binding_nonce,
                    );
                },
            }
        }
        i = i + 1;
    }
    assert(all.take(i as int) =~= all);
    Ok(scan)
}

// ---------------------------------------------------------------------------
// What the levels ask for
// ---------------------------------------------------------------------------

pub const MANUAL_ONLY: &'static str =
    "observed_app_hook ignores manual_debug/non_release hook_adapter events; trigger the real private app hook before recording release proof";

pub const TEST_ONLY: &'static str =
    "observed_app_hook ignores dogfood/synthetic test events; trigger the real private app hook before recording release proof";

pub const WRITER_MISSING: &'static str =
    "observed_app_hook requires at least one matching private event written by soma_adapter_spool_append_v1";

pub const TIME_MISSING: &'static str =
    "observed_app_hook requires at least one matching private event with observed_at_ns";

/// What a level of proof asks of the event file.
pub open spec fn events_suffice(
    level: ClientBindingProofLevel,
    scan: Option<EventScanView>,
    source: Option<Seq<char>>,
    nonce: Option<Seq<char>>,
) -> Result<(), BindingFault> {
    let app_hook = level == ClientBindingProofLevel::ObservedAppHook;
    if level != ClientBindingProofLevel::ObservedEventFile && !app_hook {
        Ok(())
    } else {
        match scan {
            None => malformed(level_name(level) + " requires --event-jsonl"@),
            Some(s) => if s.matching_events == 0 {
                malformed(
                    level_name(level) + " requires at least one event matching the client"@,
                )
            } else if !app_hook {
                Ok(())
            } else if source is None {
                malformed("observed_app_hook requires manifest lifecycle.event_source"@)
            } else if s.matching_private_event_sources == 0 {
                if s.matching_private_non_release_manual_events > 0 {
                    malformed(MANUAL_ONLY@)
                } else if s.matching_private_non_release_test_events > 0 {
                    malformed(TEST_ONLY@)
                } else {
                    malformed(
                        "observed_app_hook requires at least one event payload with event_source `"@
                            + source->0 + "` matching the client"@,
                    )
                }
            } else if s.matching_private_writer_contract_events == 0 {
                malformed(WRITER_MISSING@)
            } else if s.matching_private_events_with_observed_at == 0 {
                malformed(TIME_MISSING@)
            } else if nonce is None {
                malformed("observed_app_hook requires installed config binding nonce"@)
            } else if s.matching_private_binding_nonces == 0 {
                malformed(
                    "observed_app_hook requires at least one matching private event with binding_nonce `"@
                        + nonce->0 + "`"@,
                )
            } else {
                Ok(())
            },
        }
    }
}

pub fn require_event_scan_for_level(
    level: ClientBindingProofLevel,
    scan: &Option<EventScan>,
    expected_event_source: Option<&str>,
    expected_binding_nonce: Option<&str>,
) -> (r: Result<(), AdapterBindingProofError>)
    ensures
        verdict(r) == events_suffice(
            level,
            scan.deep_view(),
            expected_event_source.deep_view(),
            expected_binding_nonce.deep_view(),
        ),
{
    let app_hook = match level {
        ClientBindingProofLevel::ObservedEventFile => false,
        ClientBindingProofLevel::ObservedAppHook => true,
        _ => return Ok(()),
    };
    let s = match scan {
        Some(s) => s,
        None => return refuse(cat2(level.as_str(), " requires --event-jsonl").as_str()),
    };
    if s.matching_events == 0 {
        return refuse(
            cat2(
                level.as_str(),
                " requires at least one event matching the client",
            ).as_str(),
        );
    }
    if !app_hook {
        return Ok(());
    }
    let source = match expected_event_source {
        Some(s) => s,
        None => return refuse("observed_app_hook requires manifest lifecycle.event_source"),
    };
    if s.matching_private_event_sources == 0 {
        if s.matching_private_non_release_manual_events > 0 {
            return refuse(MANUAL_ONLY);
        }
        if s.matching_private_non_release_test_events > 0 {
            return refuse(TEST_ONLY);
        }
        return refuse(
            cat3(
                "observed_app_hook requires at least one event payload with event_source `",
                source,
                "` matching the client",
            ).as_str(),
        );
    }
    if s.matching_private_writer_contract_events == 0 {
        return refuse(WRITER_MISSING);
    }
    if s.matching_private_events_with_observed_at == 0 {
        return refuse(TIME_MISSING);
    }
    let nonce = match expected_binding_nonce {
        Some(n) => n,
        None => return refuse("observed_app_hook requires installed config binding nonce"),
    };
    if s.matching_private_binding_nonces == 0 {
        return refuse(
            cat3(
                "observed_app_hook requires at least one matching private event with binding_nonce `",
                nonce,
                "`",
            ).as_str(),
        );
    }
    Ok(())
}

/// How far clocks may differ.
pub const CLOCK_SKEW_NS: i64 = 1_000_000_000;

/// How far ahead of the proof an event may be.
pub const FUTURE_SKEW_NS: i64 = 300_000_000_000;

/// The sum, or the largest point in time.
pub open spec fn ahead(t: i64, by: i64) -> int {
    if t + by > i64::MAX {
        i64::MAX as int
    } else {
        t + by
    }
}

pub fn shift(t: i64, by: i64) -> (r: i64)
    requires
        by >= 0,
    ensures
        r == ahead(t, by),
{
    if t > i64::MAX - by {
        i64::MAX
    } else {
        t + by
    }
}

pub const EVENT_TOO_OLD: &'static str =
    "observed_app_hook requires matching private event observed_at_ns at or after installed config modified_at";

pub const EVENT_FILE_TOO_OLD: &'static str =
    "observed_app_hook requires event JSONL file modified_at at or after installed config modified_at";

/// App-hook evidence must not be older than the configuration that it is evidence for.
pub open spec fn times_fit(
    level: ClientBindingProofLevel,
    events: Option<EventScanView>,
    config: Option<InstalledConfigScanView>,
) -> Result<(), BindingFault> {
    if level != ClientBindingProofLevel::ObservedAppHook {
        Ok(())
    } else {
        match (events, config) {
            (Some(e), Some(c)) => match c.modified_at_ns {
                None => malformed(
                    "observed_app_hook requires installed config modified_at timestamp"@,
                ),
                Some(changed) => match e.max_matching_private_observed_at_ns {
                    None => malformed(
                        "observed_app_hook requires matching private event observed_at_ns"@,
                    ),
                    Some(seen) => if ahead(seen, CLOCK_SKEW_NS) < changed {
                        malformed(EVENT_TOO_OLD@)
                    } else if e.modified_at_ns matches Some(w) && ahead(w, CLOCK_SKEW_NS)
                        < changed {
                        malformed(EVENT_FILE_TOO_OLD@)
                    } else {
                        Ok(())
                    },
                },
            },
            _ => Ok(()),
        }
    }
}

pub fn require_observed_app_hook_temporal_binding(
    level: ClientBindingProofLevel,
    event_scan: &Option<EventScan>,
    installed_config_scan: &Option<InstalledConfigScan>,
) -> (r: Result<(), AdapterBindingProofError>)
    ensures
        verdict(r) == times_fit(
            level,
            event_scan.deep_view(),
            installed_config_scan.deep_view(),
        ),
{
    match level {
        ClientBindingProofLevel::ObservedAppHook => {},
        _ => return Ok(()),
    }
    let (e, c) = match (event_scan, installed_config_scan) {
        (Some(e), Some(c)) => (e, c),
        _ => return Ok(()),
    };
    let changed: i64 = match c.modified_at_ns {
        Some(t) => t,
        None => return refuse("observed_app_hook requires installed config modified_at timestamp"),
    };
    let seen: i64 = match e.max_matching_private_observed_at_ns {
        Some(t) => t,
        None => return refuse("observed_app_hook requires matching private event observed_at_ns"),
    };
    if shift(seen, CLOCK_SKEW_NS) < changed {
        return refuse(EVENT_TOO_OLD);
    }
    match e.modified_at_ns {
        Some(w) => {
            if shift(w, CLOCK_SKEW_NS) < changed {
                return refuse(EVENT_FILE_TOO_OLD);
            }
        },
        None => {},
    }
    Ok(())
}

pub const EVENT_AHEAD: &'static str =
    "observed_app_hook matching private event observed_at_ns is too far in the future";

/// App-hook evidence must not lie in the future.
pub open spec fn not_ahead(
    level: ClientBindingProofLevel,
    events: Option<EventScanView>,
    now_ns: i64,
) -> Result<(), BindingFault> {
    if level == ClientBindingProofLevel::ObservedAppHook && (events matches Some(e)
        && e.max_matching_private_observed_at_ns matches Some(t) && t > ahead(
        now_ns,
        FUTURE_SKEW_NS,
    )) {
        malformed(EVENT_AHEAD@)
    } else {
        Ok(())
    }
}

pub fn reject_future_observed_app_hook_events(
    level: ClientBindingProofLevel,
    event_scan: &Option<EventScan>,
    proof_observed_at_ns: i64,
) -> (r: Result<(), AdapterBindingProofError>)
    ensures
        verdict(r) == not_ahead(level, event_scan.deep_view(), proof_observed_at_ns),
{
    match level {
        ClientBindingProofLevel::ObservedAppHook => {},
        _ => return Ok(()),
    }
    match event_scan {
        Some(e) => {
            match e.max_matching_private_observed_at_ns {
                Some(t) => {
                    if t > shift(proof_observed_at_ns, FUTURE_SKEW_NS) {
                        return refuse(EVENT_AHEAD);
                    }
                },
                None => {},
            }
        },
        None => {},
    }
    Ok(())
}

/// How many captures of one kind a drain report tells of.
pub open spec fn drained(report: JsonView, name: Seq<char>) -> u64 {
    match as_u64(get(report, name)) {
        Some(n) => n,
        None => 0,
    }
}

/// App-hook proof takes a drain report, and one that is given must tell of a capture.
pub open spec fn drain_suffices(level: ClientBindingProofLevel, report: Option<JsonView>) -> Result<
    (),
    BindingFault,
> {
    match report {
        None => if level == ClientBindingProofLevel::ObservedAppHook {
            malformed("observed_app_hook requires --drain-report"@)
        } else {
            Ok(())
        },
        Some(r) => if drained(r, "captured_turns"@) == 0 && drained(r, "captured_cloud_outputs"@)
            == 0 {
            malformed("drain report must capture at least one turn or cloud output"@)
        } else {
            Ok(())
        },
    }
}

pub fn validate_drain_report_for_level(
    level: ClientBindingProofLevel,
    report: Option<&Json>,
) -> (r: Result<(), AdapterBindingProofError>)
    ensures
        verdict(r) == drain_suffices(level, report.deep_view()),
{
    match report {
        None => match level {
            ClientBindingProofLevel::ObservedAppHook => refuse(
                "observed_app_hook requires --drain-report",
            ),
            _ => Ok(()),
        },
        Some(r) => {
            let turns: u64 = match r.get_u64("captured_turns") {
                Some(n) => n,
                None => 0,
            };
            let clouds: u64 = match r.get_u64("captured_cloud_outputs") {
                Some(n) => n,
                None => 0,
            };
            if turns == 0 && clouds == 0 {
                refuse("drain report must capture at least one turn or cloud output")
            } else {
                Ok(())
            }
        },
    }
}

// ---------------------------------------------------------------------------
// Laws
// ---------------------------------------------------------------------------

/// An event file whose events of the private hook were all made by hand or by a test is
/// never enough for app-hook proof.
pub proof fn law_made_up_events_prove_nothing(
    s: EventScanView,
    source: Option<Seq<char>>,
    nonce: Option<Seq<char>>,
)
    requires
        s.matching_private_event_sources == 0,
    ensures
        events_suffice(ClientBindingProofLevel::ObservedAppHook, Some(s), source, nonce) is Err,
{
}

/// An event that was made by hand or by a test changes no count that app-hook proof
/// rests on.
pub proof fn law_made_up_events_do_not_count(s: EventScanView, m: EventMarks)
    requires
        m.manual || m.test,
    ensures
        counted(s, m).matching_private_event_sources == s.matching_private_event_sources,
        counted(s, m).matching_private_writer_contract_events
            == s.matching_private_writer_contract_events,
        counted(s, m).matching_private_binding_nonces == s.matching_private_binding_nonces,
        counted(s, m).matching_private_events_with_observed_at
            == s.matching_private_events_with_observed_at,
        counted(s, m).max_matching_private_observed_at_ns == s.max_matching_private_observed_at_ns,
{
}

/// Blank lines are passed over.
pub proof fn law_blank_lines_are_passed_over(
    lines: Seq<Seq<char>>,
    blank: Seq<char>,
    s: EventScanView,
    client: Seq<char>,
    source: Option<Seq<char>>,
    nonce: Option<Seq<char>>,
)
    requires
        trimmed(blank).len() == 0,
    ensures
        lines_counted(lines.push(blank), s, client, source, nonce) == lines_counted(
            lines,
            s,
            client,
            source,
            nonce,
        ),
{
    assert(lines.push(blank).drop_last() =~= lines);
}

/// The counts, as they are stored.
pub open spec fn event_scan_json(s: EventScanView) -> JsonView {
    JsonView::Object(
        Seq::empty().push(("path"@, JsonView::Text(s.path)))
            .push(("byte_len"@, JsonView::Int(s.byte_len as int)))
            .push(("modified_at_ns"@, opt_int(s.modified_at_ns)))
            .push(("fingerprint"@, JsonView::Text(s.fingerprint)))
            .push(("expected_event_source"@, opt_text(s.expected_event_source)))
            .push(("expected_binding_nonce"@, opt_text(s.expected_binding_nonce)))
            .push(("scanned_lines"@, JsonView::Int(s.scanned_lines as int)))
            .push(("matching_events"@, JsonView::Int(s.matching_events as int)))
            .push(("matching_turns"@, JsonView::Int(s.matching_turns as int)))
            .push(("matching_cloud_outputs"@, JsonView::Int(s.matching_cloud_outputs as int)))
            .push(("matching_private_event_sources"@,
            JsonView::Int(s.matching_private_event_sources as int)))
            .push(("matching_private_non_release_manual_events"@,
            JsonView::Int(s.matching_private_non_release_manual_events as int)))
            .push(("matching_private_non_release_test_events"@,
            JsonView::Int(s.matching_private_non_release_test_events as int)))
            .push(("matching_writer_contract_events"@,
            JsonView::Int(s.matching_writer_contract_events as int)))
            .push(("matching_private_writer_contract_events"@,
            JsonView::Int(s.matching_private_writer_contract_events as int)))
            .push(("matching_private_binding_nonces"@,
            JsonView::Int(s.matching_private_binding_nonces as int)))
            .push(("matching_private_non_release_manual_binding_nonces"@,
            JsonView::Int(s.matching_private_non_release_manual_binding_nonces as int)))
            .push(("matching_private_non_release_test_binding_nonces"@,
            JsonView::Int(s.matching_private_non_release_test_binding_nonces as int)))
            .push(("matching_events_with_observed_at"@,
            JsonView::Int(s.matching_events_with_observed_at as int)))
            .push(("matching_private_events_with_observed_at"@,
            JsonView::Int(s.matching_private_events_with_observed_at as int)))
            .push(("max_matching_observed_at_ns"@, opt_int(s.max_matching_observed_at_ns)))
            .push(("max_matching_private_observed_at_ns"@,
            opt_int(s.max_matching_private_observed_at_ns))),
    )
}

impl EventScan {
    pub fn to_json(&self) -> (r: Json)
        ensures
            r@ == event_scan_json(self.deep_view()),
    {
        Members::new().text("path", self.path.as_str()).integer("byte_len", self.byte_len as i128)
            .opt_integer("modified_at_ns", self.modified_at_ns)
            .text("fingerprint", self.fingerprint.as_str())
            .opt_text("expected_event_source", borrowed(&self.expected_event_source))
            .opt_text("expected_binding_nonce", borrowed(&self.expected_binding_nonce))
            .integer("scanned_lines", self.scanned_lines as i128)
            .integer("matching_events", self.matching_events as i128)
            .integer("matching_turns", self.matching_turns as i128)
            .integer("matching_cloud_outputs", self.matching_cloud_outputs as i128)
            .integer("matching_private_event_sources", self.matching_private_event_sources as i128)
            .integer("matching_private_non_release_manual_events",
            self.matching_private_non_release_manual_events as i128)
            .integer("matching_private_non_release_test_events",
            self.matching_private_non_release_test_events as i128)
            .integer("matching_writer_contract_events",
            self.matching_writer_contract_events as i128)
            .integer("matching_private_writer_contract_events",
            self.matching_private_writer_contract_events as i128)
            .integer("matching_private_binding_nonces",
            self.matching_private_binding_nonces as i128)
            .integer("matching_private_non_release_manual_binding_nonces",
            self.matching_private_non_release_manual_binding_nonces as i128)
            .integer("matching_private_non_release_test_binding_nonces",
            self.matching_private_non_release_test_binding_nonces as i128)
            .integer("matching_events_with_observed_at",
            self.matching_events_with_observed_at as i128)
            .integer("matching_private_events_with_observed_at",
            self.matching_private_events_with_observed_at as i128)
            .opt_integer("max_matching_observed_at_ns", self.max_matching_observed_at_ns)
            .opt_integer("max_matching_private_observed_at_ns",
            self.max_matching_private_observed_at_ns).done()
    }
}

}
