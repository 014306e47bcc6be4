//! What holds of every spool: what is appended is drained, once.
use super::adapter_spool::{
    advanced, checkpoint_of, checkpoint_offset, checkpoint_text, counted, drain_after, drain_from,
    drain_start, event_json, kind_name, known_kind, lemma_blank_lines, line_end, next_in,
    offset_after, spool_event, with_defaults, AdapterSpoolAppendArgs, AppendArgsView, CheckpointView, DrainStepView,
    DrainView, NextView, SpoolEnv, SpoolEnvView, SpoolFault, SpoolKind, SpoolOutcomeView,
};
use crate::json::{
    as_text, find, get, is_tidy, law_filling_in_keeps_members, law_filling_in_keeps_order,
    law_filling_in_touches_one_member, names_ordered, some_text, JsonView,
};
use crate::number::{decimal, law_decimal_reads_back};
use crate::outcome::{first, nonblank, trimmed_nonblank};
use crate::outside::{is_one_line, JSON_DEPTH};
use crate::text::{
    before, drop_back, drop_front, is_space, law_nothing_to_trim,
    law_trimming_takes_white_space_only, lowered, replaced, trimmed,
};
use vstd::prelude::*;
use vstd::utf8::*;

verus! {

// ---------------------------------------------------------------------------
// Kinds
// ---------------------------------------------------------------------------

/// The names that kinds are written with stand for these kinds again.
pub proof fn law_kind_names_stand_for_kinds(k: SpoolKind)
    ensures
        known_kind(kind_name(k)) == Ok::<SpoolKind, SpoolFault>(k),
{
    reveal_strlit("turn");
    reveal_strlit("cloud_output");
    let s = kind_name(k);
    law_nothing_to_trim(s);
    assert(lowered(s) =~= s);
    assert(replaced(s, '-', '_') =~= s);
    reveal_strlit("capture_turn");
    reveal_strlit("adapter_capture");
    assert("turn"@.len() == 4);
    assert("capture_turn"@.len() == 12);
    assert("cloud_output"@.len() == 12);
    assert("adapter_capture"@.len() == 15);
    assert("capture_turn"@[1] == 'a');
    assert("cloud_output"@[1] == 'l');
}

// ---------------------------------------------------------------------------
// Checkpoints
// ---------------------------------------------------------------------------

/// A checkpoint that was written reads back as it was.
pub proof fn law_checkpoint_reads_back(path: Seq<char>, offset: u64)
    ensures
        checkpoint_offset(path, CheckpointView::Text(checkpoint_text(offset))) == Ok::<
            int,
            SpoolFault,
        >(offset as int),
{
    reveal_strlit("\n");
    let d = decimal(offset as nat);
    let t = checkpoint_text(offset);
    law_decimal_reads_back(offset as nat, 0, u64::MAX as int);
    crate::number::lemma_decimal_digits(offset as nat);
    assert(crate::text::is_digit(d[0]));
    assert(crate::text::is_digit(d[d.len() - 1]));
    assert("\n"@ =~= seq!['\n']);
    assert(t.last() == '\n');
    assert(t.drop_last() =~= d);
    assert(t[0] == d[0]);
    let p = |c: char| is_space(c);
    assert(drop_front(t, p) == t);
    assert(drop_back(t, p) == drop_back(d, p));
    assert(drop_back(d, p) == d);
    assert(trimmed(t) == d);
}

/// A drain that came to the end of its spool leaves nothing for the next one, unless
/// something was appended: it begins at the end of the file, and finds no line.
pub proof fn law_second_drain_finds_nothing(
    jsonl: Seq<char>,
    checkpoint: Option<Seq<char>>,
    start: u64,
    len: u64,
)
    requires
        start <= len,
    ensures
        ({
            let end = offset_after(start, len - start);
            drain_start(
                jsonl,
                checkpoint,
                CheckpointView::Text(checkpoint_text(end)),
                Ok(len),
            ) matches Ok(o) && o.start_offset == len && o.end_offset == len
        }),
        next_in(Seq::empty(), 0) == (NextView::End, 0nat),
{
    law_checkpoint_reads_back(
        checkpoint_of(jsonl, checkpoint),
        offset_after(start, len - start),
    );
}

// ---------------------------------------------------------------------------
// Drains
// ---------------------------------------------------------------------------

/// Where a drain comes to from a step on, when `done` came of its lines, one after the
/// other.
pub open spec fn drained(
    step: DrainStepView,
    content: Seq<u8>,
    done: Seq<Result<SpoolKind, SpoolFault>>,
) -> DrainStepView
    decreases done.len(),
{
    match step {
        DrainStepView::Line(d, _) => if done.len() > 0 {
            drained(drain_after(d, content, Some(done[0])), content, done.skip(1))
        } else {
            step
        },
        _ => step,
    }
}

/// Where a drain comes to that begins with this outcome.
pub open spec fn whole_drain(
    o: SpoolOutcomeView,
    content: Seq<u8>,
    done: Seq<Result<SpoolKind, SpoolFault>>,
) -> DrainStepView {
    drained(drain_after(drain_from(o), content, None), content, done)
}

/// The checkpoint once a drain has come so far: it is written only when all is done.
pub open spec fn checkpoint_after(before: CheckpointView, step: DrainStepView) -> CheckpointView {
    match step {
        DrainStepView::Done(_, text) => CheckpointView::Text(text),
        _ => before,
    }
}

/// The drain began here, its offset tells how far it is, and all but `open` lines that it
/// scanned were captured.
pub open spec fn is_sound(
    d: DrainView,
    begun: SpoolOutcomeView,
    content: Seq<u8>,
    open: nat,
) -> bool {
    &&& 0 <= d.at <= content.len()
    &&& d.outcome.start_offset == begun.start_offset
    &&& d.outcome.end_offset == offset_after(begun.start_offset, d.at)
    &&& d.outcome.scanned_lines + d.outcome.skipped_empty_lines <= d.at
    &&& d.outcome.scanned_lines == d.outcome.captured_turns + d.outcome.captured_cloud_outputs
        + open
}

/// The drain came to the end of its content, and captured each line.
pub open spec fn is_complete(
    e: SpoolOutcomeView,
    begun: SpoolOutcomeView,
    content: Seq<u8>,
) -> bool {
    &&& e.start_offset == begun.start_offset
    &&& e.end_offset == offset_after(begun.start_offset, content.len() as int)
    &&& e.scanned_lines == e.captured_turns + e.captured_cloud_outputs
}

proof fn lemma_drain_step(
    d: DrainView,
    begun: SpoolOutcomeView,
    content: Seq<u8>,
    done: Option<Result<SpoolKind, SpoolFault>>,
)
    requires
        content.len() <= usize::MAX,
        is_sound(d, begun, content, if done is Some { 1 } else { 0 }),
    ensures
        match drain_after(d, content, done) {
            DrainStepView::Line(n, _) => is_sound(n, begun, content, 1),
            DrainStepView::Done(e, text) => is_complete(e, begun, content) && text
                == checkpoint_text(e.end_offset),
            DrainStepView::Failed(_) => true,
        },
{
    lemma_blank_lines(content, d.at);
}

proof fn lemma_drained(
    step: DrainStepView,
    begun: SpoolOutcomeView,
    content: Seq<u8>,
    done: Seq<Result<SpoolKind, SpoolFault>>,
)
    requires
        content.len() <= usize::MAX,
        match step {
            DrainStepView::Line(n, _) => is_sound(n, begun, content, 1),
            DrainStepView::Done(e, text) => is_complete(e, begun, content) && text
                == checkpoint_text(e.end_offset),
            DrainStepView::Failed(_) => true,
        },
    ensures
        drained(step, content, done) matches DrainStepView::Done(e, text) ==> is_complete(
            e,
            begun,
            content,
        ) && text == checkpoint_text(e.end_offset),
    decreases done.len(),
{
    match step {
        DrainStepView::Line(d, _) => if done.len() > 0 {
            lemma_drain_step(d, begun, content, Some(done[0]));
            lemma_drained(
                drain_after(d, content, Some(done[0])),
                begun,
                content,
                done.skip(1),
            );
        },
        _ => {},
    }
}

/// A drain that is done has captured each line that it scanned, as a turn or as a cloud
/// output, and has come to the end of the spool. Its checkpoint reads back as that end. A
/// second drain begins and ends there, and counts nothing: no line is drained twice.
pub proof fn law_drained_lines_are_captured_once(
    jsonl: Seq<char>,
    checkpoint: Option<Seq<char>>,
    c: CheckpointView,
    len: u64,
    content: Seq<u8>,
    done: Seq<Result<SpoolKind, SpoolFault>>,
)
    requires
        drain_start(jsonl, checkpoint, c, Ok(len)) is Ok,
        content.len() <= usize::MAX,
        ({
            let o = drain_start(jsonl, checkpoint, c, Ok(len))->Ok_0;
            &&& content.len() == len - o.start_offset
            &&& whole_drain(o, content, done) is Done
        }),
    ensures
        ({
            let o = drain_start(jsonl, checkpoint, c, Ok(len))->Ok_0;
            let end = whole_drain(o, content, done);
            let e = end->Done_0;
            let again = drain_start(jsonl, checkpoint, checkpoint_after(c, end), Ok(len));
            &&& o.start_offset == e.start_offset <= e.end_offset == len
            &&& e.scanned_lines == e.captured_turns + e.captured_cloud_outputs
            &&& checkpoint_offset(checkpoint_of(jsonl, checkpoint), checkpoint_after(c, end))
                == Ok::<int, SpoolFault>(e.end_offset as int)
            &&& again is Ok
            &&& again->Ok_0.start_offset == e.end_offset
            &&& whole_drain(again->Ok_0, Seq::empty(), Seq::empty()) == DrainStepView::Done(
                again->Ok_0,
                end->Done_1,
            )
            &&& again->Ok_0.end_offset == e.end_offset
            &&& again->Ok_0.scanned_lines == 0
            &&& again->Ok_0.captured_turns == 0
            &&& again->Ok_0.captured_cloud_outputs == 0
            &&& again->Ok_0.skipped_empty_lines == 0
        }),
{
    let o = drain_start(jsonl, checkpoint, c, Ok(len))->Ok_0;
    let end = whole_drain(o, content, done);
    lemma_drain_step(drain_from(o), o, content, None);
    lemma_drained(drain_after(drain_from(o), content, None), o, content, done);
    law_checkpoint_reads_back(checkpoint_of(jsonl, checkpoint), end->Done_0.end_offset);
    let again = drain_start(jsonl, checkpoint, checkpoint_after(c, end), Ok(len))->Ok_0;
    assert(next_in(Seq::<u8>::empty(), 0) == (NextView::End, 0nat));
    assert(advanced(again, 0, 0, 0) =~= again);
}

proof fn lemma_drained_push(
    step: DrainStepView,
    content: Seq<u8>,
    done: Seq<Result<SpoolKind, SpoolFault>>,
    more: Result<SpoolKind, SpoolFault>,
)
    ensures
        drained(step, content, done.push(more)) == match drained(step, content, done) {
            DrainStepView::Line(d, _) => drain_after(d, content, Some(more)),
            end => end,
        },
    decreases done.len(),
{
    reveal_with_fuel(drained, 2);
    match step {
        DrainStepView::Line(d, _) => if done.len() > 0 {
            assert(done.push(more).skip(1) =~= done.skip(1).push(more));
            assert(done.push(more)[0] == done[0]);
            lemma_drained_push(
                drain_after(d, content, Some(done[0])),
                content,
                done.skip(1),
                more,
            );
        } else {
            assert(done.push(more)[0] == more);
            assert(done.push(more).skip(1) =~= Seq::empty());
        },
        _ => {},
    }
}

/// A line that fails ends the drain with its fault, whatever was captured before it, and
/// leaves the checkpoint as it was: the next drain begins where this one began.
pub proof fn law_failed_line_leaves_the_checkpoint(
    jsonl: Seq<char>,
    checkpoint: Option<Seq<char>>,
    c: CheckpointView,
    len: u64,
    content: Seq<u8>,
    done: Seq<Result<SpoolKind, SpoolFault>>,
    fault: SpoolFault,
)
    requires
        drain_start(jsonl, checkpoint, c, Ok(len)) is Ok,
        whole_drain(drain_start(jsonl, checkpoint, c, Ok(len))->Ok_0, content, done) is Line,
    ensures
        ({
            let o = drain_start(jsonl, checkpoint, c, Ok(len))->Ok_0;
            let end = whole_drain(o, content, done.push(Err(fault)));
            &&& end == DrainStepView::Failed(fault)
            &&& checkpoint_after(c, end) == c
            &&& drain_start(jsonl, checkpoint, checkpoint_after(c, end), Ok(len)) == Ok::<
                SpoolOutcomeView,
                SpoolFault,
            >(o)
        }),
{
    let o = drain_start(jsonl, checkpoint, c, Ok(len))->Ok_0;
    lemma_drained_push(
        drain_after(drain_from(o), content, None),
        content,
        done,
        Err(fault),
    );
}

// ---------------------------------------------------------------------------
// Lines
// ---------------------------------------------------------------------------

proof fn lemma_scalar_bytes(v: u32)
    requires
        is_scalar(v),
        v != 10,
    ensures
        forall|i: int| 0 <= i < encode_scalar(v).len() ==> #[trigger] encode_scalar(v)[i] != 10,
{
    assert(v <= 0x7f ==> (v & 0x7f) as u8 == v) by (bit_vector);
    assert(0xC0u8 | ((v >> 6) & 0x1F) as u8 >= 0x80) by (bit_vector);
    assert(0xE0u8 | ((v >> 12) & 0x0F) as u8 >= 0x80) by (bit_vector);
    assert(0xF0u8 | ((v >> 18) & 0x7) as u8 >= 0x80) by (bit_vector);
    assert(0x80u8 | (v & 0x3F) as u8 >= 0x80) by (bit_vector);
    assert(0x80u8 | ((v >> 6) & 0x3F) as u8 >= 0x80) by (bit_vector);
    assert(0x80u8 | ((v >> 12) & 0x3F) as u8 >= 0x80) by (bit_vector);
}

proof fn lemma_no_newline_bytes(s: Seq<char>)
    requires
        forall|i: int| 0 <= i < s.len() ==> #[trigger] s[i] != '\n',
    ensures
        forall|i: int| 0 <= i < encode_utf8(s).len() ==> #[trigger] encode_utf8(s)[i] != 10,
    decreases s.len(),
{
    if s.len() > 0 {
        char_is_scalar(s[0]);
        assert(s[0] != '\n');
        char_u32_cast(s[0], s[0] as u32);
        char_u32_cast('\n', 10);
        lemma_scalar_bytes(s[0] as u32);
        let t = s.drop_first();
        assert forall|i: int| 0 <= i < t.len() implies #[trigger] t[i] != '\n' by {
            assert(t[i] == s[i + 1]);
        }
        lemma_no_newline_bytes(t);
        let head = encode_scalar(s[0] as u32);
        let all = encode_utf8(s);
        assert(all == head + encode_utf8(t));
        assert forall|i: int| 0 <= i < all.len() implies #[trigger] all[i] != 10 by {
            if i < head.len() {
                assert(all[i] == head[i]);
            } else {
                assert(all[i] == encode_utf8(t)[i - head.len()]);
            }
        }
    }
}

proof fn lemma_encode_push(s: Seq<char>, c: char)
    ensures
        encode_utf8(s.push(c)) == encode_utf8(s) + encode_scalar(c as u32),
    decreases s.len(),
{
    let r = s.push(c);
    if s.len() == 0 {
        assert(r.drop_first() =~= Seq::empty());
        reveal_with_fuel(encode_utf8, 2);
        assert(encode_utf8(r) =~= encode_utf8(s) + encode_scalar(c as u32));
    } else {
        assert(r.drop_first() =~= s.drop_first().push(c));
        assert(r[0] == s[0]);
        lemma_encode_push(s.drop_first(), c);
        assert(encode_utf8(r) =~= encode_utf8(s) + encode_scalar(c as u32));
    }
}

proof fn lemma_line_end_at(content: Seq<u8>, at: int, to: int)
    requires
        0 <= at <= to < content.len(),
        forall|i: int| at <= i < to ==> #[trigger] content[i] != 10,
        content[to] == 10,
    ensures
        line_end(content, at) == to + 1,
    decreases to - at,
{
    if at < to {
        lemma_line_end_at(content, at + 1, to);
    }
}

/// A line that was appended is drained as it was, wherever it stands in the spool, and
/// the drain goes on right behind it.
pub proof fn law_appended_line_is_drained(before: Seq<u8>, text: Seq<char>, after: Seq<u8>)
    requires
        is_one_line(text),
    ensures
        ({
            let line = encode_utf8(text.push('\n'));
            next_in(before + line + after, before.len() as int) == (
                NextView::Line(text, (before.len() + line.len()) as int),
                0nat,
            )
        }),
{
    let bytes = encode_utf8(text);
    let line = encode_utf8(text.push('\n'));
    let content = before + line + after;
    let at = before.len() as int;
    lemma_encode_push(text, '\n');
    assert(encode_scalar('\n' as u32) =~= seq![10u8]) by {
        assert(10u32 & 0x7f == 10) by (bit_vector);
    }
    lemma_no_newline_bytes(text);
    let to = at + bytes.len();
    assert forall|i: int| at <= i < to implies #[trigger] content[i] != 10 by {
        assert(content[i] == bytes[i - at]);
    }
    assert(content[to] == 10) by {
        assert(content[to] == line[bytes.len() as int]);
    }
    lemma_line_end_at(content, at, to);
    assert(content.subrange(at, to + 1) =~= line);
    encode_utf8_valid_utf8(text.push('\n'));
    encode_utf8_decode_utf8(text.push('\n'));
    let s = text.push('\n');
    let p = |c: char| is_space(c);
    assert(s[0] == text[0]);
    assert(drop_front(s, p) == s);
    assert(s.last() == '\n');
    assert(s.drop_last() =~= text);
    assert(drop_back(s, p) == drop_back(text, p));
    assert(drop_back(text, p) == text);
    assert(trimmed(s) == text);
}

// ---------------------------------------------------------------------------
// Events
// ---------------------------------------------------------------------------

proof fn lemma_defaults_keep_order(
    kind: SpoolKind,
    m: Seq<(Seq<char>, JsonView)>,
    args: AppendArgsView,
    env: SpoolEnvView,
    depth: nat,
)
    requires
        is_tidy(JsonView::Object(m), depth, false),
    ensures
        is_tidy(JsonView::Object(with_defaults(kind, m, args, env)), depth, false),
{
    let v1 = nonblank(first(args.project, trimmed_nonblank(env.project)));
    let a = crate::json::filled(m, "project"@, v1);
    law_filling_in_keeps_order(m, "project"@, v1, depth, false);
    let v2 = nonblank(first(args.session_id, trimmed_nonblank(env.session_id)));
    let b = crate::json::filled(a, "session_id"@, v2);
    law_filling_in_keeps_order(a, "session_id"@, v2, depth, false);
    let v3 = nonblank(args.cwd);
    let c = crate::json::filled(b, "cwd"@, v3);
    law_filling_in_keeps_order(b, "cwd"@, v3, depth, false);
    let v4 = nonblank(args.binding_nonce);
    let d = crate::json::filled(c, "binding_nonce"@, v4);
    law_filling_in_keeps_order(c, "binding_nonce"@, v4, depth, false);
    match kind {
        SpoolKind::Turn => {
            let v5 = nonblank(first(args.source, trimmed_nonblank(env.client)));
            let e = crate::json::filled(d, "source"@, v5);
            law_filling_in_keeps_order(d, "source"@, v5, depth, false);
            law_filling_in_keeps_order(
                e,
                "git_branch"@,
                nonblank(args.git_branch),
                depth,
                false,
            );
        },
        SpoolKind::CloudOutput => {
            law_filling_in_keeps_order(
                d,
                "client"@,
                nonblank(first(args.client, trimmed_nonblank(env.client))),
                depth,
                false,
            );
        },
    }
}

/// What a payload says is kept: defaults only fill in what it does not say.
pub proof fn law_defaults_keep_what_is_said(
    kind: SpoolKind,
    m: Seq<(Seq<char>, JsonView)>,
    args: AppendArgsView,
    env: SpoolEnvView,
    name: Seq<char>,
)
    requires
        find(m, name) is Some,
    ensures
        find(with_defaults(kind, m, args, env), name) == find(m, name),
{
    let v1 = nonblank(first(args.project, trimmed_nonblank(env.project)));
    let a = crate::json::filled(m, "project"@, v1);
    law_filling_in_keeps_members(m, "project"@, v1, name);
    let v2 = nonblank(first(args.session_id, trimmed_nonblank(env.session_id)));
    let b = crate::json::filled(a, "session_id"@, v2);
    law_filling_in_keeps_members(a, "session_id"@, v2, name);
    let v3 = nonblank(args.cwd);
    let c = crate::json::filled(b, "cwd"@, v3);
    law_filling_in_keeps_members(b, "cwd"@, v3, name);
    let v4 = nonblank(args.binding_nonce);
    let d = crate::json::filled(c, "binding_nonce"@, v4);
    law_filling_in_keeps_members(c, "binding_nonce"@, v4, name);
    match kind {
        SpoolKind::Turn => {
            let v5 = nonblank(first(args.source, trimmed_nonblank(env.client)));
            let e = crate::json::filled(d, "source"@, v5);
            law_filling_in_keeps_members(d, "source"@, v5, name);
            law_filling_in_keeps_members(e, "git_branch"@, nonblank(args.git_branch), name);
        },
        SpoolKind::CloudOutput => {
            law_filling_in_keeps_members(
                d,
                "client"@,
                nonblank(first(args.client, trimmed_nonblank(env.client))),
                name,
            );
        },
    }
}

/// An event is one that JSON text holds, and so is read back from its line, if its payload
/// is one without floats and leaves room for one more level. Its kind and its payload are
/// those that were appended.
pub proof fn law_event_reads_back(
    m: Seq<(Seq<char>, JsonView)>,
    args: AppendArgsView,
    env: SpoolEnvView,
    now: i64,
)
    requires
        is_tidy(JsonView::Object(m), (JSON_DEPTH - 1) as nat, false),
        spool_event(Ok(JsonView::Object(m)), args, env, now) is Ok,
    ensures
        ({
            let event = spool_event(Ok(JsonView::Object(m)), args, env, now)->Ok_0;
            let kind = known_kind(args.kind)->Ok_0;
            &&& is_tidy(event, JSON_DEPTH as nat, false)
            &&& get(event, "kind"@) == Some(JsonView::Text(kind_name(kind)))
            &&& get(event, "payload"@) == Some(
                JsonView::Object(with_defaults(kind, m, args, env)),
            )
        }),
{
    let kind = known_kind(args.kind)->Ok_0;
    let full = with_defaults(kind, m, args, env);
    let event = event_json(kind, full, now);
    lemma_defaults_keep_order(kind, m, args, env, (JSON_DEPTH - 1) as nat);
    super::adapter_spool::lemma_event_members(kind, full, now);
    let all = event->Object_0;
    reveal_strlit("kind");
    reveal_strlit("observed_at_ns");
    reveal_strlit("payload");
    reveal_strlit("schema");
    reveal_strlit("writer_contract");
    assert("kind"@[0] == 'k');
    assert("observed_at_ns"@[0] == 'o');
    assert("payload"@[0] == 'p');
    assert("schema"@[0] == 's');
    assert("writer_contract"@[0] == 'w');
    assert(names_ordered(all)) by {
        assert forall|i: int, j: int| 0 <= i < j < all.len() implies before(
            (#[trigger] all[i]).0,
            (#[trigger] all[j]).0,
        ) by {
            assert(all[i].0[0] < all[j].0[0]);
        }
    }
    assert forall|i: int| 0 <= i < all.len() implies is_tidy(
        (#[trigger] all[i]).1,
        (JSON_DEPTH - 1) as nat,
        false,
    ) by {
        if i == 2 {
            assert(all[i].1 == JsonView::Object(full));
        }
    }
}

/// The words for the two kinds are told apart, in either case and with hyphens; every other
/// word is refused.
pub proof fn law_kind_words_name_kinds(kind: Seq<char>)
    ensures
        ({
            let k = replaced(lowered(trimmed(kind)), '-', '_');
            &&& known_kind(kind) == Ok::<SpoolKind, SpoolFault>(SpoolKind::Turn) <==> k == "turn"@
                || k == "capture_turn"@ || k == "adapter_capture"@
            &&& known_kind(kind) == Ok::<SpoolKind, SpoolFault>(SpoolKind::CloudOutput) <==> k
                == "cloud_output"@ || k == "adapter_cloud_output"@
        }),
        kind_name(SpoolKind::Turn) == "turn"@,
        kind_name(SpoolKind::CloudOutput) == "cloud_output"@,
{
    reveal_strlit("turn");
    reveal_strlit("capture_turn");
    reveal_strlit("adapter_capture");
    reveal_strlit("cloud_output");
    reveal_strlit("adapter_cloud_output");
    assert("turn"@.len() == 4);
    assert("capture_turn"@.len() == 12 && "capture_turn"@[1] == 'a');
    assert("cloud_output"@.len() == 12 && "cloud_output"@[1] == 'l');
    assert("adapter_capture"@.len() == 15);
    assert("adapter_cloud_output"@.len() == 20);
}

/// What is filled in under a name, where a payload says nothing under it.
spec fn supplied(
    kind: SpoolKind,
    args: AppendArgsView,
    env: SpoolEnvView,
    name: Seq<char>,
) -> Option<Seq<char>> {
    if name == "project"@ {
        nonblank(first(args.project, trimmed_nonblank(env.project)))
    } else if name == "session_id"@ {
        nonblank(first(args.session_id, trimmed_nonblank(env.session_id)))
    } else if name == "cwd"@ {
        nonblank(args.cwd)
    } else if name == "binding_nonce"@ {
        nonblank(args.binding_nonce)
    } else if kind == SpoolKind::Turn && name == "source"@ {
        nonblank(first(args.source, trimmed_nonblank(env.client)))
    } else if kind == SpoolKind::Turn && name == "git_branch"@ {
        nonblank(args.git_branch)
    } else if kind == SpoolKind::CloudOutput && name == "client"@ {
        nonblank(first(args.client, trimmed_nonblank(env.client)))
    } else {
        None
    }
}

proof fn lemma_default_names()
    ensures
        "project"@.len() == 7,
        "session_id"@.len() == 10 && "session_id"@[0] == 's',
        "cwd"@.len() == 3,
        "binding_nonce"@.len() == 13,
        "source"@.len() == 6 && "source"@[0] == 's',
        "client"@.len() == 6 && "client"@[0] == 'c',
        "git_branch"@.len() == 10 && "git_branch"@[0] == 'g',
{
    reveal_strlit("project");
    reveal_strlit("session_id");
    reveal_strlit("cwd");
    reveal_strlit("binding_nonce");
    reveal_strlit("source");
    reveal_strlit("client");
    reveal_strlit("git_branch");
}

proof fn lemma_defaults(
    kind: SpoolKind,
    m: Seq<(Seq<char>, JsonView)>,
    args: AppendArgsView,
    env: SpoolEnvView,
    name: Seq<char>,
)
    ensures
        find(with_defaults(kind, m, args, env), name) == (if find(m, name) is Some {
            find(m, name)
        } else {
            some_text(supplied(kind, args, env, name))
        }),
{
    lemma_default_names();
    let v1 = nonblank(first(args.project, trimmed_nonblank(env.project)));
    let a = crate::json::filled(m, "project"@, v1);
    law_filling_in_touches_one_member(m, "project"@, v1, name);
    let v2 = nonblank(first(args.session_id, trimmed_nonblank(env.session_id)));
    let b = crate::json::filled(a, "session_id"@, v2);
    law_filling_in_touches_one_member(a, "session_id"@, v2, name);
    let v3 = nonblank(args.cwd);
    let c = crate::json::filled(b, "cwd"@, v3);
    law_filling_in_touches_one_member(b, "cwd"@, v3, name);
    let v4 = nonblank(args.binding_nonce);
    let d = crate::json::filled(c, "binding_nonce"@, v4);
    law_filling_in_touches_one_member(c, "binding_nonce"@, v4, name);
    match kind {
        SpoolKind::Turn => {
            let v5 = nonblank(first(args.source, trimmed_nonblank(env.client)));
            let e = crate::json::filled(d, "source"@, v5);
            law_filling_in_touches_one_member(d, "source"@, v5, name);
            law_filling_in_touches_one_member(e, "git_branch"@, nonblank(args.git_branch), name);
        },
        SpoolKind::CloudOutput => {
            law_filling_in_touches_one_member(
                d,
                "client"@,
                nonblank(first(args.client, trimmed_nonblank(env.client))),
                name,
            );
        },
    }
}

/// Where a payload does not say its project, its session, its directory or its nonce, they
/// are those of the flags, and the project and the session at the last those of the
/// variables. A turn's source and a cloud output's client are filled in likewise from their
/// flags, and at the last from the variable for the client; a branch only for a turn. No
/// other member is added.
pub proof fn law_defaults_come_from_flags_then_variables(
    m: Seq<(Seq<char>, JsonView)>,
    args: AdapterSpoolAppendArgs,
    env: SpoolEnv,
    other: Seq<char>,
)
    requires
        other != "project"@ && other != "session_id"@ && other != "cwd"@ && other
            != "binding_nonce"@ && other != "source"@ && other != "client"@ && other
            != "git_branch"@,
    ensures
        ({
            let turn = with_defaults(SpoolKind::Turn, m, args.deep_view(), env.deep_view());
            let cloud = with_defaults(SpoolKind::CloudOutput, m, args.deep_view(), env.deep_view());
            let given = |s: Option<String>| s is Some && trimmed(s->0@).len() > 0;
            &&& find(m, "project"@) is None && given(args.project) ==> find(turn, "project"@)
                == Some(JsonView::Text(args.project->0@)) && find(cloud, "project"@) == Some(
                JsonView::Text(args.project->0@),
            )
            &&& find(m, "project"@) is None && args.project is None && given(env.project) ==> find(
                turn,
                "project"@,
            ) == Some(JsonView::Text(trimmed(env.project->0@))) && find(cloud, "project"@) == Some(
                JsonView::Text(trimmed(env.project->0@)),
            )
            &&& find(m, "session_id"@) is None && given(args.session_id) ==> find(
                turn,
                "session_id"@,
            ) == Some(JsonView::Text(args.session_id->0@)) && find(cloud, "session_id"@) == Some(
                JsonView::Text(args.session_id->0@),
            )
            &&& find(m, "session_id"@) is None && args.session_id is None && given(env.session_id)
                ==> find(turn, "session_id"@) == Some(
                JsonView::Text(trimmed(env.session_id->0@)),
            ) && find(cloud, "session_id"@) == Some(JsonView::Text(trimmed(env.session_id->0@)))
            &&& find(m, "cwd"@) is None && given(args.cwd) ==> find(turn, "cwd"@) == Some(
                JsonView::Text(args.cwd->0@),
            ) && find(cloud, "cwd"@) == Some(JsonView::Text(args.cwd->0@))
            &&& find(m, "binding_nonce"@) is None && given(args.binding_nonce) ==> find(
                turn,
                "binding_nonce"@,
            ) == Some(JsonView::Text(args.binding_nonce->0@)) && find(cloud, "binding_nonce"@)
                == Some(JsonView::Text(args.binding_nonce->0@))
            &&& find(m, "source"@) is None && given(args.source) ==> find(turn, "source"@) == Some(
                JsonView::Text(args.source->0@),
            )
            &&& find(m, "source"@) is None && args.source is None && given(env.client) ==> find(
                turn,
                "source"@,
            ) == Some(JsonView::Text(trimmed(env.client->0@)))
            &&& find(m, "git_branch"@) is None && given(args.git_branch) ==> find(
                turn,
                "git_branch"@,
            ) == Some(JsonView::Text(args.git_branch->0@))
            &&& find(m, "client"@) is None && given(args.client) ==> find(cloud, "client"@) == Some(
                JsonView::Text(args.client->0@),
            )
            &&& find(m, "client"@) is None && args.client is None && given(env.client) ==> find(
                cloud,
                "client"@,
            ) == Some(JsonView::Text(trimmed(env.client->0@)))
            &&& find(turn, "client"@) == find(m, "client"@)
            &&& find(cloud, "source"@) == find(m, "source"@)
            &&& find(cloud, "git_branch"@) == find(m, "git_branch"@)
            &&& find(turn, other) == find(m, other)
            &&& find(cloud, other) == find(m, other)
        }),
{
    lemma_default_names();
    law_trimming_takes_white_space_only(env.project->0@);
    law_trimming_takes_white_space_only(env.session_id->0@);
    law_trimming_takes_white_space_only(env.client->0@);
    let a = args.deep_view();
    let e = env.deep_view();
    let names = seq![
        "project"@,
        "session_id"@,
        "cwd"@,
        "binding_nonce"@,
        "source"@,
        "client"@,
        "git_branch"@,
        other,
    ];
    assert forall|i: int| 0 <= i < 8 implies {
        let n = #[trigger] names[i];
        &&& find(with_defaults(SpoolKind::Turn, m, a, e), n) == (if find(m, n) is Some {
            find(m, n)
        } else {
            some_text(supplied(SpoolKind::Turn, a, e, n))
        })
        &&& find(with_defaults(SpoolKind::CloudOutput, m, a, e), n) == (if find(m, n) is Some {
            find(m, n)
        } else {
            some_text(supplied(SpoolKind::CloudOutput, a, e, n))
        })
    } by {
        lemma_defaults(SpoolKind::Turn, m, a, e, names[i]);
        lemma_defaults(SpoolKind::CloudOutput, m, a, e, names[i]);
    }
    assert(names[0] == "project"@ && names[1] == "session_id"@ && names[2] == "cwd"@ && names[3]
        == "binding_nonce"@);
    assert(names[4] == "source"@ && names[5] == "client"@ && names[6] == "git_branch"@ && names[7]
        == other);
}

/// A payload is appended iff its kind is known, it is an object, and it says what its kind
/// must: a turn its source and its prompt or its response, a cloud output its text and its
/// frame or its query.
pub proof fn law_whole_payloads_are_appended(
    m: Seq<(Seq<char>, JsonView)>,
    args: AppendArgsView,
    env: SpoolEnvView,
    now: i64,
)
    ensures
        ({
            let r = spool_event(Ok(JsonView::Object(m)), args, env, now);
            let kind = known_kind(args.kind)->Ok_0;
            let full = with_defaults(kind, m, args, env);
            let says = |name: Seq<char>|
                as_text(find(full, name)) is Some && trimmed(as_text(find(full, name))->0).len()
                    > 0;
            &&& known_kind(args.kind) is Err ==> r is Err
            &&& known_kind(args.kind) is Ok && kind == SpoolKind::Turn ==> (r is Ok <==> says(
                "source"@,
            ) && (says("prompt_text"@) || says("response_text"@)))
            &&& known_kind(args.kind) is Ok && kind == SpoolKind::CloudOutput ==> (r is Ok
                <==> says("output_text"@) && (find(full, "task_frame_id"@) is Some || says(
                "task_frame_query"@,
            )))
            &&& r matches Ok(event) ==> {
                &&& event is Object
                &&& event->Object_0[0] == ("kind"@, JsonView::Text(kind_name(kind)))
                &&& event->Object_0[1] == ("observed_at_ns"@, JsonView::Int(now as int))
                &&& event->Object_0[2] == ("payload"@, JsonView::Object(full))
                &&& event->Object_0[3] == (
                    "schema"@,
                    JsonView::Text("soma.adapter_spool_event.v1"@),
                )
                &&& event->Object_0[4] == (
                    "writer_contract"@,
                    JsonView::Text("soma_adapter_spool_append_v1"@),
                )
            }
        }),
{
}

/// A drain starts at the checkpoint, at the beginning where there is none, and at the end
/// of the spool where the checkpoint lies beyond it. Nothing is counted before.
pub proof fn law_drains_start_at_the_checkpoint(
    jsonl: Seq<char>,
    checkpoint: Option<Seq<char>>,
    c: CheckpointView,
    len: u64,
)
    ensures
        drain_start(jsonl, checkpoint, c, Ok(len)) matches Ok(o) ==> {
            &&& o.start_offset <= len
            &&& o.end_offset == o.start_offset
            &&& o.spool_path == jsonl
            &&& checkpoint matches Some(p) ==> o.checkpoint_path == p
            &&& c is Missing ==> o.start_offset == 0
            &&& checkpoint_offset(o.checkpoint_path, c) matches Ok(n) && (n < len ==> o.start_offset
                == n) && (n >= len ==> o.start_offset == len)
            &&& o.scanned_lines == 0
            &&& o.captured_turns == 0
            &&& o.captured_cloud_outputs == 0
            &&& o.skipped_empty_lines == 0
        },
{
}

/// A captured line adds one to the count of its kind, and to no other.
pub proof fn law_captured_lines_are_counted_by_kind(o: SpoolOutcomeView, kind: SpoolKind)
    requires
        o.captured_turns < usize::MAX,
        o.captured_cloud_outputs < usize::MAX,
    ensures
        kind == SpoolKind::Turn ==> counted(o, kind) == (SpoolOutcomeView {
            captured_turns: (o.captured_turns + 1) as usize,
            ..o
        }) && counted(o, kind).captured_turns == o.captured_turns + 1,
        kind == SpoolKind::CloudOutput ==> counted(o, kind) == (SpoolOutcomeView {
            captured_cloud_outputs: (o.captured_cloud_outputs + 1) as usize,
            ..o
        }) && counted(o, kind).captured_cloud_outputs == o.captured_cloud_outputs + 1,
{
}

}
