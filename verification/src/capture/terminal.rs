//! The marks that shell integration scripts put into terminal output (OSC 133):
//!
//! ```text
//! ESC ] 133 ; A ST         prompt start
//! ESC ] 133 ; B ST         command start
//! ESC ] 133 ; C ST         before a command runs
//! ESC ] 133 ; D [; N] ST   after it ran, with its exit code
//! ```
//!
//! `ST` is `BEL` or `ESC \`. A mark may be cut anywhere by the end of a read, so the
//! parser takes one byte at a time and keeps what it has seen.
use crate::number::{
    decimal, decimal_int, law_signed_decimal_reads_back, lemma_decimal_digits, parse_i32,
    parsed_integer,
};
use crate::outside::utf8_text;
use crate::text::{is_digit, is_space, law_nothing_to_trim, trim, trimmed};
use vstd::prelude::*;
use vstd::utf8::*;

verus! {

#[derive(Debug, Clone, Copy, PartialEq, Eq)]
pub enum Osc133Event {
    PromptStart,
    CommandStart,
    PreExec,
    PostExec { exit_code: Option<i32> },
}

/// What a byte of the input turned out to be: a byte of the visible output, or the
/// end of a mark.
#[derive(Debug, Clone, Copy, PartialEq, Eq)]
pub enum FeedItem {
    Byte(u8),
    Event(Osc133Event),
}

/// Where in a mark the parser stands.
#[derive(Debug, Clone, Copy, PartialEq, Eq)]
pub enum State {
    Normal,
    SawEsc,
    InOsc,
    /// In the body, after an `ESC` that may begin the terminator.
    OscSawEsc,
    /// After a second `ESC` in the body, which breaks it: what was read is dropped, and
    /// this `ESC` may still begin the terminator.
    OscBroken,
}

pub struct Osc133Parser {
    state: State,
    payload: Vec<u8>,
}

/// What the parser remembers: where it stands and the body read so far.
pub struct ParserView {
    pub state: State,
    pub payload: Seq<u8>,
}

/// The longest body that is kept.
pub const PAYLOAD_LIMIT: usize = 256;

/// The exit code that the bytes after `133;D;` write down.
pub open spec fn exit_code_of(bytes: Seq<u8>) -> Option<i32> {
    if valid_utf8(bytes) {
        match parsed_integer(trimmed(decode_utf8(bytes)), i32::MIN as int, i32::MAX as int) {
            Some(i) => Some(i as i32),
            None => None,
        }
    } else {
        None
    }
}

/// The event that a mark with this body stands for.
pub open spec fn payload_event(p: Seq<u8>) -> Option<Osc133Event> {
    if p.len() < 5 || p[0] != 0x31 || p[1] != 0x33 || p[2] != 0x33 || p[3] != 0x3b {
        None
    } else if p[4] == 0x41 {
        Some(Osc133Event::PromptStart)
    } else if p[4] == 0x42 {
        Some(Osc133Event::CommandStart)
    } else if p[4] == 0x43 {
        Some(Osc133Event::PreExec)
    } else if p[4] == 0x44 {
        if p.len() > 6 && p[5] == 0x3b {
            Some(Osc133Event::PostExec { exit_code: exit_code_of(p.skip(6)) })
        } else {
            Some(Osc133Event::PostExec { exit_code: None })
        }
    } else {
        None
    }
}

/// The body is that of an OSC 133 sequence, whether or not the mark is a known one.
pub open spec fn is_mark_body(p: Seq<u8>) -> bool {
    &&& p.len() >= 3
    &&& p[0] == 0x31 && p[1] == 0x33 && p[2] == 0x33
    &&& p.len() == 3 || p[3] == 0x3b
}

/// Bytes of the visible output.
pub open spec fn shown(bytes: Seq<u8>) -> Seq<FeedItem> {
    Seq::new(bytes.len(), |i: int| FeedItem::Byte(bytes[i]))
}

/// The bytes of a sequence with this body and terminator.
pub open spec fn sequence(body: Seq<u8>, end: Seq<u8>) -> Seq<u8> {
    seq![0x1bu8, 0x5d] + body + end
}

/// The items for a sequence with this body and terminator. Only OSC 133 sequences are
/// consumed; any other is put out as it came.
pub open spec fn event_items(p: Seq<u8>, end: Seq<u8>) -> Seq<FeedItem> {
    if is_mark_body(p) {
        match payload_event(p) {
            Some(e) => seq![FeedItem::Event(e)],
            None => Seq::empty(),
        }
    } else {
        shown(sequence(p, end))
    }
}

/// The items for a body that is longer than its limit, with the byte that passes it. An OSC
/// 133 sequence is dropped; of any other sequence all is put out that came so far, and the
/// rest follows as it comes.
pub open spec fn overlong_items(p: Seq<u8>, b: u8) -> Seq<FeedItem> {
    if is_mark_body(p) {
        Seq::empty()
    } else {
        shown(sequence(p, seq![b]))
    }
}

/// The terminator `BEL`.
pub open spec fn bell() -> Seq<u8> {
    seq![0x07u8]
}

/// The terminator `ESC \`.
pub open spec fn escaped_end() -> Seq<u8> {
    seq![0x1bu8, 0x5c]
}

/// One byte: what the parser remembers after it, and what it puts out.
pub open spec fn step(v: ParserView, b: u8) -> (ParserView, Seq<FeedItem>) {
    let normal = ParserView { state: State::Normal, payload: Seq::empty() };
    match v.state {
        State::Normal => if b == 0x1b {
            (ParserView { state: State::SawEsc, ..v }, Seq::empty())
        } else {
            (v, seq![FeedItem::Byte(b)])
        },
        State::SawEsc => if b == 0x5d {
            (ParserView { state: State::InOsc, payload: Seq::empty() }, Seq::empty())
        } else if b == 0x1b {
            (v, seq![FeedItem::Byte(0x1b)])
        } else {
            (
                ParserView { state: State::Normal, ..v },
                seq![FeedItem::Byte(0x1b), FeedItem::Byte(b)],
            )
        },
        State::InOsc => if b == 0x07 {
            (normal, event_items(v.payload, bell()))
        } else if b == 0x1b {
            (ParserView { state: State::OscSawEsc, ..v }, Seq::empty())
        } else if v.payload.len() < PAYLOAD_LIMIT {
            (ParserView { payload: v.payload.push(b), ..v }, Seq::empty())
        } else {
            (normal, overlong_items(v.payload, b))
        },
        State::OscSawEsc => if b == 0x5c {
            (normal, event_items(v.payload, escaped_end()))
        } else if b == 0x1b {
            (ParserView { state: State::OscBroken, payload: Seq::empty() }, Seq::empty())
        } else {
            (normal, Seq::empty())
        },
        State::OscBroken => if b == 0x1b {
            (v, Seq::empty())
        } else {
            (normal, Seq::empty())
        },
    }
}

/// What the parser remembers after `bytes`.
pub open spec fn after(v: ParserView, bytes: Seq<u8>) -> ParserView
    decreases bytes.len(),
{
    if bytes.len() == 0 {
        v
    } else {
        step(after(v, bytes.drop_last()), bytes.last()).0
    }
}

/// What the parser puts out on `bytes`.
pub open spec fn output(v: ParserView, bytes: Seq<u8>) -> Seq<FeedItem>
    decreases bytes.len(),
{
    if bytes.len() == 0 {
        Seq::empty()
    } else {
        output(v, bytes.drop_last()) + step(after(v, bytes.drop_last()), bytes.last()).1
    }
}

/// The events among the items, in order.
pub open spec fn events(items: Seq<FeedItem>) -> Seq<Osc133Event>
    decreases items.len(),
{
    if items.len() == 0 {
        Seq::empty()
    } else {
        match items.last() {
            FeedItem::Event(e) => events(items.drop_last()).push(e),
            FeedItem::Byte(_) => events(items.drop_last()),
        }
    }
}

/// The bytes of the visible output among the items, in order.
pub open spec fn visible(items: Seq<FeedItem>) -> Seq<u8>
    decreases items.len(),
{
    if items.len() == 0 {
        Seq::empty()
    } else {
        match items.last() {
            FeedItem::Event(_) => visible(items.drop_last()),
            FeedItem::Byte(b) => visible(items.drop_last()).push(b),
        }
    }
}

/// The parser before it has read anything.
pub open spec fn fresh() -> ParserView {
    ParserView { state: State::Normal, payload: Seq::empty() }
}

impl View for Osc133Parser {
    type V = ParserView;

    closed spec fn view(&self) -> ParserView {
        ParserView { state: self.state, payload: self.payload@ }
    }
}

impl Osc133Parser {
    pub fn new() -> (r: Self)
        ensures
            r@ == fresh(),
    {
        Self { state: State::Normal, payload: Vec::with_capacity(64) }
    }

    /// Puts out what came of a sequence so far.
    fn show_body(&self, out: &mut Vec<FeedItem>)
        ensures
            final(out)@ == old(out)@ + shown(seq![0x1bu8, 0x5d] + self@.payload),
    {
        let ghost had = out@;
        let ghost body = self.payload@;
        out.push(FeedItem::Byte(0x1b));
        out.push(FeedItem::Byte(0x5d));
        let mut i: usize = 0;
        assert(out@ =~= had + shown(seq![0x1bu8, 0x5d] + body.take(0)));
        while i < self.payload.len()
            invariant
                i <= self.payload.len(),
                self.payload@ == body,
                out@ == had + shown(seq![0x1bu8, 0x5d] + body.take(i as int)),
            decreases self.payload.len() - i,
        {
            out.push(FeedItem::Byte(self.payload[i]));
            i = i + 1;
            assert(out@ =~= had + shown(seq![0x1bu8, 0x5d] + body.take(i as int)));
        }
        assert(body.take(i as int) =~= body);
    }

    fn finish(&mut self, by_bell: bool, out: &mut Vec<FeedItem>)
        ensures
            final(self)@ == fresh(),
            final(out)@ == old(out)@ + event_items(
                old(self)@.payload,
                if by_bell {
                    bell()
                } else {
                    escaped_end()
                },
            ),
    {
        let ghost had = out@;
        let ghost body = self.payload@;
        if begins_mark(&self.payload) {
            match parse_payload(&self.payload) {
                Some(e) => {
                    out.push(FeedItem::Event(e));
                },
                None => {},
            }
            assert(out@ =~= had + event_items(body, bell()));
        } else {
            self.show_body(out);
            if by_bell {
                out.push(FeedItem::Byte(0x07));
                assert(out@ =~= had + shown(sequence(body, bell())));
            } else {
                out.push(FeedItem::Byte(0x1b));
                out.push(FeedItem::Byte(0x5c));
                assert(out@ =~= had + shown(sequence(body, escaped_end())));
            }
        }
        self.payload.clear();
        self.state = State::Normal;
        assert(self@.payload =~= fresh().payload);
    }

    fn take(&mut self, b: u8, out: &mut Vec<FeedItem>)
        ensures
            final(self)@ == step(old(self)@, b).0,
            final(out)@ == old(out)@ + step(old(self)@, b).1,
    {
        let ghost had = out@;
        let ghost was = self@;
        match self.state {
            State::Normal => {
                if b == 0x1b {
                    self.state = State::SawEsc;
                } else {
                    out.push(FeedItem::Byte(b));
                }
                assert(out@ =~= had + step(was, b).1);
            },
            State::SawEsc => {
                if b == 0x5d {
                    self.state = State::InOsc;
                    self.payload.clear();
                } else if b == 0x1b {
                    out.push(FeedItem::Byte(0x1b));
                } else {
                    out.push(FeedItem::Byte(0x1b));
                    out.push(FeedItem::Byte(b));
                    self.state = State::Normal;
                }
                assert(out@ =~= had + step(was, b).1);
            },
            State::InOsc => {
                if b == 0x07 {
                    self.finish(true, out);
                } else if b == 0x1b {
                    self.state = State::OscSawEsc;
                } else if self.payload.len() < PAYLOAD_LIMIT {
                    self.payload.push(b);
                } else {
                    if !begins_mark(&self.payload) {
                        self.show_body(out);
                        out.push(FeedItem::Byte(b));
                        assert(out@ =~= had + shown(sequence(was.payload, seq![b])));
                    }
                    self.payload.clear();
                    self.state = State::Normal;
                }
                assert(out@ =~= had + step(was, b).1);
            },
            State::OscSawEsc => {
                if b == 0x5c {
                    self.finish(false, out);
                } else if b == 0x1b {
                    self.payload.clear();
                    self.state = State::OscBroken;
                } else {
                    self.payload.clear();
                    self.state = State::Normal;
                }
                assert(out@ =~= had + step(was, b).1);
            },
            State::OscBroken => {
                if b != 0x1b {
                    self.payload.clear();
                    self.state = State::Normal;
                }
                assert(out@ =~= had + step(was, b).1);
            },
        }
    }

    /// Reads bytes, and tells for each whether it belongs to the visible output or ends
    /// a mark. The bytes of an OSC 133 sequence are put out nowhere, and those of another
    /// escape sequence are put out as they came: those of an OSC sequence once it has ended
    /// or its body has passed the limit. An OSC body that an `ESC` breaks is dropped, and so
    /// is that of an OSC 133 sequence that passes the limit.
    pub fn feed_classified(&mut self, bytes: &[u8]) -> (r: Vec<FeedItem>)
        ensures
            final(self)@ == after(old(self)@, bytes@),
            r@ == output(old(self)@, bytes@),
    {
        let mut out: Vec<FeedItem> = Vec::new();
        let mut i: usize = 0;
        while i < bytes.len()
            invariant
                i <= bytes.len(),
                self@ == after(old(self)@, bytes@.take(i as int)),
                out@ == output(old(self)@, bytes@.take(i as int)),
            decreases bytes.len() - i,
        {
            assert(bytes@.take(i + 1).drop_last() =~= bytes@.take(i as int));
            self.take(bytes[i], &mut out);
            i = i + 1;
        }
        assert(bytes@.take(i as int) =~= bytes@);
        out
    }

    /// Reads bytes, and tells the events only.
    pub fn feed(&mut self, bytes: &[u8]) -> (r: Vec<Osc133Event>)
        ensures
            final(self)@ == after(old(self)@, bytes@),
            r@ == events(output(old(self)@, bytes@)),
    {
        let items = self.feed_classified(bytes);
        let mut out: Vec<Osc133Event> = Vec::new();
        let mut i: usize = 0;
        while i < items.len()
            invariant
                i <= items.len(),
                out@ == events(items@.take(i as int)),
            decreases items.len() - i,
        {
            assert(items@.take(i + 1).drop_last() =~= items@.take(i as int));
            match &items[i] {
                FeedItem::Event(e) => out.push(*e),
                FeedItem::Byte(_) => {},
            }
            i = i + 1;
        }
        assert(items@.take(i as int) =~= items@);
        out
    }
}

impl Default for Osc133Parser {
    fn default() -> (r: Self)
        ensures
            r@ == fresh(),
    {
        Self::new()
    }
}

fn begins_mark(payload: &Vec<u8>) -> (r: bool)
    ensures
        r == is_mark_body(payload@),
{
    payload.len() >= 3 && payload[0] == 0x31 && payload[1] == 0x33 && payload[2] == 0x33 && (
    payload.len() == 3 || payload[3] == 0x3b)
}

/// The event that a mark with this body stands for.
pub fn parse_payload(payload: &Vec<u8>) -> (r: Option<Osc133Event>)
    ensures
        r == payload_event(payload@),
{
    if payload.len() < 5 || payload[0] != 0x31 || payload[1] != 0x33 || payload[2] != 0x33
        || payload[3] != 0x3b {
        return None;
    }
    match payload[4] {
        0x41 => Some(Osc133Event::PromptStart),
        0x42 => Some(Osc133Event::CommandStart),
        0x43 => Some(Osc133Event::PreExec),
        0x44 => {
            if payload.len() > 6 && payload[5] == 0x3b {
                let rest = vstd::slice::slice_subrange(payload.as_slice(), 6, payload.len());
                assert(rest@ =~= payload@.skip(6));
                let exit_code = match utf8_text(rest) {
                    Ok(s) => parse_i32(trim(s.as_str())),
                    Err(_) => None,
                };
                Some(Osc133Event::PostExec { exit_code })
            } else {
                Some(Osc133Event::PostExec { exit_code: None })
            }
        },
        _ => None,
    }
}

// ---------------------------------------------------------------------------
// Laws
// ---------------------------------------------------------------------------

/// Where a read ends makes no difference: two reads, one after the other, leave the
/// parser and put out what one read of all the bytes does.
pub proof fn law_split_reads(v: ParserView, a: Seq<u8>, b: Seq<u8>)
    ensures
        after(v, a + b) == after(after(v, a), b),
        output(v, a + b) == output(v, a) + output(after(v, a), b),
    decreases b.len(),
{
    if b.len() == 0 {
        assert(a + b =~= a);
        assert(output(v, a) + Seq::<FeedItem>::empty() =~= output(v, a));
    } else {
        law_split_reads(v, a, b.drop_last());
        assert((a + b).drop_last() =~= a + b.drop_last());
        assert((a + b).last() == b.last());
        assert(output(v, a + b) =~= output(v, a) + output(after(v, a), b));
    }
}

/// The events of two runs of items, one after the other.
pub proof fn law_events_of_two(a: Seq<FeedItem>, b: Seq<FeedItem>)
    ensures
        events(a + b) == events(a) + events(b),
    decreases b.len(),
{
    if b.len() == 0 {
        assert(a + b =~= a);
        assert(events(a) + Seq::<Osc133Event>::empty() =~= events(a));
    } else {
        law_events_of_two(a, b.drop_last());
        assert((a + b).drop_last() =~= a + b.drop_last());
        assert((a + b).last() == b.last());
        assert(events(a + b) =~= events(a) + events(b));
    }
}

/// A mark that two reads cut in two gives the same events as one that stands in one
/// read.
pub proof fn law_events_across_reads(v: ParserView, a: Seq<u8>, b: Seq<u8>)
    ensures
        events(output(v, a + b)) == events(output(v, a)) + events(output(after(v, a), b)),
{
    law_split_reads(v, a, b);
    law_events_of_two(output(v, a), output(after(v, a), b));
}

/// The parser never keeps more of a body than its limit.
pub proof fn law_payload_bounded(v: ParserView, bytes: Seq<u8>)
    requires
        v.payload.len() <= PAYLOAD_LIMIT,
    ensures
        after(v, bytes).payload.len() <= PAYLOAD_LIMIT,
    decreases bytes.len(),
{
    if bytes.len() > 0 {
        law_payload_bounded(v, bytes.drop_last());
    }
}

/// Output without escape characters passes unchanged.
pub proof fn law_plain_output_passes(v: ParserView, bytes: Seq<u8>)
    requires
        v.state == State::Normal,
        forall|i: int| 0 <= i < bytes.len() ==> bytes[i] != 0x1b,
    ensures
        after(v, bytes) == v,
        output(v, bytes) == shown(bytes),
    decreases bytes.len(),
{
    if bytes.len() > 0 {
        law_plain_output_passes(v, bytes.drop_last());
    }
    assert(output(v, bytes) =~= shown(bytes));
}

/// A body that fits is kept as it comes.
proof fn lemma_body(v: ParserView, body: Seq<u8>)
    requires
        v.state == State::InOsc,
        v.payload.len() + body.len() <= PAYLOAD_LIMIT,
        forall|i: int| 0 <= i < body.len() ==> body[i] != 0x1b && body[i] != 0x07,
    ensures
        after(v, body) == (ParserView { state: State::InOsc, payload: v.payload + body }),
        output(v, body) == Seq::<FeedItem>::empty(),
    decreases body.len(),
{
    if body.len() == 0 {
        assert(v.payload + body =~= v.payload);
    } else {
        lemma_body(v, body.drop_last());
        assert((v.payload + body.drop_last()).push(body.last()) =~= v.payload + body);
        assert(output(v, body) =~= Seq::<FeedItem>::empty());
    }
}

/// A body that fits is kept, and nothing is put out before it ends.
proof fn lemma_opened(v: ParserView, body: Seq<u8>)
    requires
        v.state == State::Normal,
        body.len() <= PAYLOAD_LIMIT,
        forall|i: int| 0 <= i < body.len() ==> body[i] != 0x1b && body[i] != 0x07,
    ensures
        after(v, seq![0x1bu8, 0x5d] + body) == (ParserView {
            state: State::InOsc,
            payload: body,
        }),
        output(v, seq![0x1bu8, 0x5d] + body) == Seq::<FeedItem>::empty(),
{
    let open = seq![0x1bu8, 0x5d];
    let opened = ParserView { state: State::InOsc, payload: Seq::empty() };
    assert(after(v, open) == opened && output(v, open) =~= Seq::<FeedItem>::empty()) by {
        reveal_with_fuel(after, 3);
        reveal_with_fuel(output, 3);
        assert(open.drop_last() =~= seq![0x1bu8]);
        assert(seq![0x1bu8].drop_last() =~= Seq::<u8>::empty());
    }
    lemma_body(opened, body);
    assert(opened.payload + body =~= body);
    law_split_reads(v, open, body);
    assert(output(v, open + body) =~= Seq::<FeedItem>::empty());
}

/// A whole OSC sequence, with either terminator, gives its items at once, and leaves the
/// parser as it was before anything was read.
proof fn lemma_whole_sequence(v: ParserView, body: Seq<u8>, by_bell: bool)
    requires
        v.state == State::Normal,
        body.len() <= PAYLOAD_LIMIT,
        forall|i: int| 0 <= i < body.len() ==> body[i] != 0x1b && body[i] != 0x07,
    ensures
        ({
            let end = if by_bell { bell() } else { escaped_end() };
            &&& after(v, sequence(body, end)) == fresh()
            &&& output(v, sequence(body, end)) == event_items(body, end)
        }),
{
    let open = seq![0x1bu8, 0x5d];
    let end = if by_bell { bell() } else { escaped_end() };
    lemma_opened(v, body);
    reveal_with_fuel(after, 3);
    reveal_with_fuel(output, 3);
    let inside = ParserView { state: State::InOsc, payload: body };
    assert(after(inside, end) == fresh() && output(inside, end) =~= event_items(body, end)) by {
        if by_bell {
            assert(end.drop_last() =~= Seq::<u8>::empty());
        } else {
            assert(end.drop_last() =~= seq![0x1bu8]);
            assert(seq![0x1bu8].drop_last() =~= Seq::<u8>::empty());
        }
    }
    law_split_reads(v, open + body, end);
    assert(output(v, open + body + end) =~= event_items(body, end));
}

/// A whole OSC 133 sequence, whichever terminator it has, gives the event that it stands
/// for and no visible output, and leaves the parser as it was before anything was read.
pub proof fn law_whole_mark(v: ParserView, body: Seq<u8>, by_bell: bool)
    requires
        v.state == State::Normal,
        is_mark_body(body),
        body.len() <= PAYLOAD_LIMIT,
        forall|i: int| 0 <= i < body.len() ==> body[i] != 0x1b && body[i] != 0x07,
    ensures
        ({
            let mark = sequence(body, if by_bell { bell() } else { escaped_end() });
            &&& after(v, mark) == fresh()
            &&& events(output(v, mark)) == (match payload_event(body) {
                Some(e) => seq![e],
                None => Seq::empty(),
            })
            &&& visible(output(v, mark)) == Seq::<u8>::empty()
        }),
{
    lemma_whole_sequence(v, body, by_bell);
    let items = event_items(body, if by_bell { bell() } else { escaped_end() });
    reveal_with_fuel(visible, 2);
    reveal_with_fuel(events, 2);
    match payload_event(body) {
        Some(e) => {
            assert(items.drop_last() =~= Seq::<FeedItem>::empty());
            assert(events(items) =~= seq![e]);
        },
        None => {},
    }
}

/// A whole OSC sequence that is no OSC 133 sequence is put out as it came, however long it
/// is, and gives no event.
pub proof fn law_other_sequences_pass(v: ParserView, body: Seq<u8>, by_bell: bool)
    requires
        v.state == State::Normal,
        !is_mark_body(body),
        forall|i: int| 0 <= i < body.len() ==> body[i] != 0x1b && body[i] != 0x07,
    ensures
        ({
            let other = sequence(body, if by_bell { bell() } else { escaped_end() });
            &&& after(v, other) == fresh()
            &&& output(v, other) == shown(other)
            &&& visible(output(v, other)) == other
            &&& events(output(v, other)) == Seq::<Osc133Event>::empty()
        }),
{
    if body.len() <= PAYLOAD_LIMIT {
        lemma_whole_sequence(v, body, by_bell);
    } else {
        lemma_overlong_sequence(v, body, by_bell);
    }
    lemma_shown(sequence(body, if by_bell { bell() } else { escaped_end() }));
}

/// A terminator passes where no sequence is open.
proof fn lemma_end_passes(by_bell: bool)
    ensures
        ({
            let end = if by_bell { bell() } else { escaped_end() };
            after(fresh(), end) == fresh() && output(fresh(), end) == shown(end)
        }),
{
    let end = if by_bell { bell() } else { escaped_end() };
    reveal_with_fuel(after, 3);
    reveal_with_fuel(output, 3);
    if by_bell {
        assert(end.drop_last() =~= Seq::<u8>::empty());
    } else {
        assert(end.drop_last() =~= seq![0x1bu8]);
        assert(seq![0x1bu8].drop_last() =~= Seq::<u8>::empty());
    }
    assert(output(fresh(), end) =~= shown(end));
}

/// The body of another sequence is put out up to the byte that passes the limit.
proof fn lemma_limit_passed(v: ParserView, body: Seq<u8>)
    requires
        v.state == State::Normal,
        !is_mark_body(body),
        body.len() == PAYLOAD_LIMIT + 1,
        forall|i: int| 0 <= i < body.len() ==> body[i] != 0x1b && body[i] != 0x07,
    ensures
        after(v, seq![0x1bu8, 0x5d] + body) == fresh(),
        output(v, seq![0x1bu8, 0x5d] + body) == shown(seq![0x1bu8, 0x5d] + body),
{
    let open = seq![0x1bu8, 0x5d];
    let kept = body.drop_last();
    lemma_opened(v, kept);
    let inside = ParserView { state: State::InOsc, payload: kept };
    let all = open + body;
    assert(all.drop_last() =~= open + kept);
    assert(all.last() == body.last());
    assert(kept[0] == body[0] && kept[1] == body[1] && kept[2] == body[2] && kept[3] == body[3]);
    assert(step(inside, body.last()) == (
        fresh(),
        shown(sequence(kept, seq![body.last()])),
    ));
    assert(sequence(kept, seq![body.last()]) =~= all);
    assert(output(v, all) =~= shown(all));
}

proof fn lemma_overlong_sequence(v: ParserView, body: Seq<u8>, by_bell: bool)
    requires
        v.state == State::Normal,
        !is_mark_body(body),
        body.len() > PAYLOAD_LIMIT,
        forall|i: int| 0 <= i < body.len() ==> body[i] != 0x1b && body[i] != 0x07,
    ensures
        ({
            let other = sequence(body, if by_bell { bell() } else { escaped_end() });
            &&& after(v, other) == fresh()
            &&& output(v, other) == shown(other)
        }),
{
    let end = if by_bell { bell() } else { escaped_end() };
    let n = PAYLOAD_LIMIT + 1;
    let front = body.take(n);
    let rest = body.skip(n);
    let a = seq![0x1bu8, 0x5d] + front;
    assert(front[0] == body[0] && front[1] == body[1] && front[2] == body[2] && front[3]
        == body[3]);
    lemma_limit_passed(v, front);
    law_plain_output_passes(fresh(), rest);
    lemma_end_passes(by_bell);
    law_split_reads(v, a, rest);
    law_split_reads(v, a + rest, end);
    assert(a + rest + end =~= sequence(body, end));
    assert(shown(a) + shown(rest) + shown(end) =~= shown(sequence(body, end)));
}

proof fn lemma_shown(bytes: Seq<u8>)
    ensures
        visible(shown(bytes)) == bytes,
        events(shown(bytes)) == Seq::<Osc133Event>::empty(),
    decreases bytes.len(),
{
    if bytes.len() > 0 {
        lemma_shown(bytes.drop_last());
        assert(shown(bytes).drop_last() =~= shown(bytes.drop_last()));
    }
    assert(visible(shown(bytes)) =~= bytes);
}

/// A mark is told by its letter: `A` begins a prompt, `B` a command, `C` its output, and `D`
/// ends it; every other letter, and every other number before it, is no mark of these. Only
/// `D` may carry a code, after a semicolon.
pub proof fn law_letters_tell_marks_apart(p: Seq<u8>)
    ensures
        ({
            let numbered = p.len() >= 5 && p[0] == '1' as u8 && p[1] == '3' as u8 && p[2] == '3' as u8
                && p[3] == ';' as u8;
            &&& payload_event(p) == Some(Osc133Event::PromptStart) <==> numbered && p[4] == 'A' as u8
            &&& payload_event(p) == Some(Osc133Event::CommandStart) <==> numbered && p[4]
                == 'B' as u8
            &&& payload_event(p) == Some(Osc133Event::PreExec) <==> numbered && p[4] == 'C' as u8
            &&& payload_event(p) matches Some(Osc133Event::PostExec { exit_code }) ==> numbered
                && p[4] == 'D' as u8 && (exit_code is Some ==> p.len() > 6 && p[5] == ';' as u8)
            &&& numbered && p[4] == 'D' as u8 ==> payload_event(p) is Some && payload_event(
                p,
            )->0 is PostExec
        }),
{
}

/// A code that is written in decimal digits, with or without a sign, is the code that a
/// command ended with.
pub proof fn law_codes_are_read_as_written(code: i32)
    ensures
        ({
            let d = encode_utf8(decimal_int(code as int));
            let p = seq!['1' as u8, '3' as u8, '3' as u8, ';' as u8, 'D' as u8, ';' as u8] + d;
            &&& exit_code_of(d) == Some(code)
            &&& payload_event(p) == Some(Osc133Event::PostExec { exit_code: Some(code) })
        }),
{
    let t = decimal_int(code as int);
    let d = encode_utf8(t);
    let n = if code < 0 {
        (-(code as int)) as nat
    } else {
        code as nat
    };
    lemma_decimal_digits(n);
    let digits = decimal(n);
    assert forall|i: int| 0 <= i < t.len() implies !is_space(#[trigger] t[i]) && '\0' <= t[i]
        && t[i] <= '\u{7f}' by {
        if code < 0 {
            if i > 0 {
                assert(t[i] == digits[i - 1]);
                assert(is_digit(digits[i - 1]));
            }
        } else {
            assert(is_digit(digits[i]));
        }
    }
    assert(t.len() > 0);
    assert(!is_space(t[0]) && !is_space(t[t.len() - 1]));
    law_nothing_to_trim(t);
    law_signed_decimal_reads_back(code as int, i32::MIN as int, i32::MAX as int);
    encode_utf8_valid_utf8(t);
    encode_utf8_decode_utf8(t);
    assert(is_ascii_chars(t));
    is_ascii_chars_encode_utf8(t);
    let p = seq!['1' as u8, '3' as u8, '3' as u8, ';' as u8, 'D' as u8, ';' as u8] + d;
    assert(p.skip(6) =~= d);
    assert(d.len() == t.len());
}

}
