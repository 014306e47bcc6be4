//! `soma capture --pty`: commands and their output, as a shell marks them.
//!
//! Between the mark that opens the command line and the one before its execution stands
//! the command; between that and the mark after the execution stands its output. What the
//! shell shows passes through unchanged.
use crate::capture::ai_cli::{IngestArgs, IngestArgsView};
use crate::capture::terminal::{
    after, fresh, law_split_reads, output, visible, FeedItem, Osc133Event, Osc133Parser, ParserView,
};
use crate::number::{decimal, decimal_text, wide_decimal_text};
use crate::outcome::{copy_text, owned};
use crate::outside::{lossy_text, text_or_lossy};
use crate::text::{cat2, trim, trimmed, Phrase};
use vstd::prelude::*;

verus! {

/// Why the command failed.
#[derive(Debug)]
pub enum CaptureError {
    Pty(String),
    Spawn(String),
    Io(String),
}

/// What a `CaptureError` holds.
pub enum CaptureFault {
    Pty(Seq<char>),
    Spawn(Seq<char>),
    Io(Seq<char>),
}

impl DeepView for CaptureError {
    type V = CaptureFault;

    open spec fn deep_view(&self) -> CaptureFault {
        match self {
            CaptureError::Pty(m) => CaptureFault::Pty(m@),
            CaptureError::Spawn(m) => CaptureFault::Spawn(m@),
            CaptureError::Io(m) => CaptureFault::Io(m@),
        }
    }
}

impl CaptureError {
    /// The message of the error.
    pub fn message(&self) -> (r: String)
        ensures
            r@ == match self.deep_view() {
                CaptureFault::Pty(m) => "pty: "@ + m,
                CaptureFault::Spawn(m) => "spawn: "@ + m,
                CaptureFault::Io(m) => "io: "@ + m,
            },
    {
        match self {
            CaptureError::Pty(m) => cat2("pty: ", m.as_str()),
            CaptureError::Spawn(m) => cat2("spawn: ", m.as_str()),
            CaptureError::Io(m) => cat2("io: ", m.as_str()),
        }
    }
}

/// The exit code of an error.
pub fn exit_code_for(_e: &CaptureError) -> (r: i32)
    ensures
        r == 1,
{
    1
}

/// Where episodes are kept, and what they belong to.
#[derive(Debug)]
pub struct CaptureContext {
    pub db_path: String,
    pub project: Option<String>,
    pub session_id: String,
}

/// The shell that is started: `SHELL` names it.
pub fn shell_of(shell: Option<&str>) -> (r: String)
    ensures
        r@ == match shell {
            Some(s) => s@,
            None => "/bin/sh"@,
        },
{
    match shell {
        Some(s) => s.to_string(),
        None => "/bin/sh".to_string(),
    }
}

/// As many bytes of the output of one command are kept.
pub const STDOUT_BUFFER_CAP: usize = 0x10_0000;

/// What is remembered of a session: the command line that is typed, the output that is
/// put out, and whether either is under way.
pub struct PtySession {
    parser: Osc133Parser,
    command: Vec<u8>,
    in_command: bool,
    stdout: Vec<u8>,
    in_output: bool,
}

/// What a `PtySession` remembers between marks.
#[verifier::ext_equal]
pub struct WindowView {
    pub command: Seq<u8>,
    pub in_command: bool,
    pub stdout: Seq<u8>,
    pub in_output: bool,
}

/// What a `PtySession` holds.
#[verifier::ext_equal]
pub struct PtySessionView {
    pub parser: ParserView,
    pub window: WindowView,
}

impl View for PtySession {
    type V = PtySessionView;

    closed spec fn view(&self) -> PtySessionView {
        PtySessionView {
            parser: self.parser@,
            window: WindowView {
                command: self.command@,
                in_command: self.in_command,
                stdout: self.stdout@,
                in_output: self.in_output,
            },
        }
    }
}

/// A command that has ended: its text, its exit code and what it put out.
#[derive(Debug)]
pub struct FinishedCommand {
    pub command: String,
    pub exit_code: Option<i32>,
    pub stdout: Vec<u8>,
}

/// What a `FinishedCommand` holds.
#[verifier::ext_equal]
pub struct FinishedCommandView {
    pub command: Seq<char>,
    pub exit_code: Option<i32>,
    pub stdout: Seq<u8>,
}

impl DeepView for FinishedCommand {
    type V = FinishedCommandView;

    open spec fn deep_view(&self) -> FinishedCommandView {
        FinishedCommandView {
            command: self.command@,
            exit_code: self.exit_code,
            stdout: self.stdout@,
        }
    }
}

/// Nothing is under way.
pub open spec fn idle() -> WindowView {
    WindowView {
        command: Seq::empty(),
        in_command: false,
        stdout: Seq::empty(),
        in_output: false,
    }
}

/// What is remembered after one item.
pub open spec fn window_after(w: WindowView, item: FeedItem) -> WindowView {
    match item {
        FeedItem::Byte(b) => if w.in_command {
            WindowView { command: w.command.push(b), ..w }
        } else if w.in_output && w.stdout.len() < STDOUT_BUFFER_CAP {
            WindowView { stdout: w.stdout.push(b), ..w }
        } else {
            w
        },
        FeedItem::Event(Osc133Event::CommandStart) => WindowView {
            in_command: true,
            command: Seq::empty(),
            ..w
        },
        FeedItem::Event(Osc133Event::PreExec) => WindowView {
            in_command: false,
            in_output: true,
            stdout: Seq::empty(),
            ..w
        },
        FeedItem::Event(Osc133Event::PostExec { .. }) => WindowView {
            in_output: false,
            command: Seq::empty(),
            stdout: Seq::empty(),
            ..w
        },
        FeedItem::Event(Osc133Event::PromptStart) => w,
    }
}

/// The text of a command line.
pub open spec fn command_text(bytes: Seq<u8>) -> Seq<char> {
    trimmed(lossy_text(bytes))
}

/// The command that ends with an item. A blank one is passed over.
pub open spec fn ended_with(w: WindowView, item: FeedItem) -> Seq<FinishedCommandView> {
    match item {
        FeedItem::Event(Osc133Event::PostExec { exit_code }) => if command_text(w.command).len()
            > 0 {
            seq![
                FinishedCommandView {
                    command: command_text(w.command),
                    exit_code,
                    stdout: w.stdout,
                },
            ]
        } else {
            Seq::empty()
        },
        _ => Seq::empty(),
    }
}

/// What is remembered after items.
pub open spec fn windows_after(w: WindowView, items: Seq<FeedItem>) -> WindowView
    decreases items.len(),
{
    if items.len() == 0 {
        w
    } else {
        window_after(windows_after(w, items.drop_last()), items.last())
    }
}

/// The commands that end in items.
pub open spec fn ended_in(w: WindowView, items: Seq<FeedItem>) -> Seq<FinishedCommandView>
    decreases items.len(),
{
    if items.len() == 0 {
        Seq::empty()
    } else {
        ended_in(w, items.drop_last()) + ended_with(
            windows_after(w, items.drop_last()),
            items.last(),
        )
    }
}

/// What came of some bytes of a session: what is shown, and the commands that ended.
#[derive(Debug)]
pub struct PtyOutput {
    pub passthrough: Vec<u8>,
    pub finished: Vec<FinishedCommand>,
}

impl PtySession {
    /// No more output is kept than the limit says.
    pub open spec fn wf(&self) -> bool {
        self@.window.stdout.len() <= STDOUT_BUFFER_CAP
    }

    pub fn new() -> (r: PtySession)
        ensures
            r@ == (PtySessionView { parser: fresh(), window: idle() }),
            r.wf(),
    {
        PtySession {
            parser: Osc133Parser::new(),
            command: Vec::new(),
            in_command: false,
            stdout: Vec::new(),
            in_output: false,
        }
    }

    fn take(&mut self, item: &FeedItem, finished: &mut Vec<FinishedCommand>)
        ensures
            final(self)@.parser == old(self)@.parser,
            final(self)@.window == window_after(old(self)@.window, *item),
            final(finished).deep_view() == old(finished).deep_view() + ended_with(
                old(self)@.window,
                *item,
            ),
    {
        let ghost was = self@.window;
        let ghost had = finished.deep_view();
        match item {
            FeedItem::Byte(b) => {
                if self.in_command {
                    self.command.push(*b);
                } else if self.in_output {
                    if self.stdout.len() < STDOUT_BUFFER_CAP {
                        self.stdout.push(*b);
                    }
                }
            },
            FeedItem::Event(Osc133Event::CommandStart) => {
                self.in_command = true;
                self.command = Vec::new();
            },
            FeedItem::Event(Osc133Event::PreExec) => {
                self.in_command = false;
                self.in_output = true;
                self.stdout = Vec::new();
            },
            FeedItem::Event(Osc133Event::PostExec { exit_code }) => {
                self.in_output = false;
                let mut stdout: Vec<u8> = Vec::new();
                std::mem::swap(&mut stdout, &mut self.stdout);
                let text = text_or_lossy(self.command.as_slice());
                self.command = Vec::new();
                let command = trim(text.as_str());
                if !command.is_empty() {
                    finished.push(
                        FinishedCommand {
                            command: command.to_string(),
                            exit_code: *exit_code,
                            stdout,
                        },
                    );
                }
            },
            FeedItem::Event(Osc133Event::PromptStart) => {},
        }
        assert(finished.deep_view() =~= had + ended_with(was, *item));
        assert(self@.window =~= window_after(was, *item));
    }

    /// Reads bytes that the shell put out.
    pub fn read(&mut self, bytes: &[u8]) -> (r: PtyOutput)
        requires
            old(self).wf(),
        ensures
            final(self).wf(),
            final(self)@.parser == after(old(self)@.parser, bytes@),
            final(self)@.window == windows_after(
                old(self)@.window,
                output(old(self)@.parser, bytes@),
            ),
            r.passthrough@ == visible(output(old(self)@.parser, bytes@)),
            r.finished.deep_view() == ended_in(
                old(self)@.window,
                output(old(self)@.parser, bytes@),
            ),
    {
        let ghost was = self@.window;
        let items = self.parser.feed_classified(bytes);
        let mut passthrough: Vec<u8> = Vec::new();
        let mut finished: Vec<FinishedCommand> = Vec::new();
        let mut i: usize = 0;
        assert(items@.take(0) =~= Seq::empty());
        assert(finished.deep_view() =~= Seq::empty());
        while i < items.len()
            invariant
                i <= items.len(),
                self.wf(),
                self@.parser == after(old(self)@.parser, bytes@),
                self@.window == windows_after(was, items@.take(i as int)),
                passthrough@ == visible(items@.take(i as int)),
                finished.deep_view() == ended_in(was, items@.take(i as int)),
            decreases items.len() - i,
        {
            assert(items@.take(i + 1).drop_last() =~= items@.take(i as int));
            assert(items@.take(i + 1).last() == items@[i as int]);
            match &items[i] {
                FeedItem::Byte(b) => {
                    passthrough.push(*b);
                },
                FeedItem::Event(_) => {},
            }
            self.take(&items[i], &mut finished);
            i = i + 1;
        }
        assert(items@.take(i as int) =~= items@);
        PtyOutput { passthrough, finished }
    }
}

/// The flags with which a command that has ended is ingested.
pub open spec fn command_args(
    session_id: Seq<char>,
    project: Option<Seq<char>>,
    done: FinishedCommandView,
    stdout_file: Option<Seq<char>>,
    cwd: Option<Seq<char>>,
) -> IngestArgsView {
    IngestArgsView {
        source: "terminal"@,
        session: Some(session_id),
        prompt: None,
        response: None,
        command: Some(done.command),
        stdout_file,
        exit_code: done.exit_code,
        cwd,
        git_branch: None,
        project,
        digest: None,
        json: None,
        db_path: None,
    }
}

/// A command that has ended, as an ingest call. `stdout_file` is the file that holds its
/// output, where it had any and the file could be written.
pub fn emit_ingest(
    ctx: &CaptureContext,
    done: &FinishedCommand,
    stdout_file: Option<&str>,
    cwd: Option<&str>,
) -> (r: IngestArgs)
    ensures
        r.deep_view() == command_args(
            ctx.session_id@,
            ctx.project.deep_view(),
            done.deep_view(),
            if done.stdout@.len() > 0 {
                stdout_file.deep_view()
            } else {
                None
            },
            cwd.deep_view(),
        ),
{
    IngestArgs {
        source: "terminal".to_string(),
        session: Some(ctx.session_id.clone()),
        prompt: None,
        response: None,
        command: Some(done.command.clone()),
        stdout_file: if done.stdout.len() > 0 {
            owned(stdout_file)
        } else {
            None
        },
        exit_code: done.exit_code,
        cwd: owned(cwd),
        git_branch: None,
        project: copy_text(&ctx.project),
        digest: None,
        json: None,
        db_path: None,
    }
}

/// The name of a file for captured output. The process, the time and a number that the
/// process uses once tell it from every other.
pub open spec fn stdout_name(pid: nat, ts_ns: nat, seq: nat) -> Seq<char> {
    "soma-pty-stdout-"@ + decimal(pid) + "-"@ + decimal(ts_ns) + "-"@ + decimal(seq) + ".bin"@
}

pub fn stdout_file_name(pid: u32, ts_ns: u128, seq: u64) -> (r: String)
    ensures
        r@ == stdout_name(pid as nat, ts_ns as nat, seq as nat),
{
    Phrase::new("soma-pty-stdout-").t(decimal_text(pid as u64).as_str()).t("-").t(
        wide_decimal_text(ts_ns).as_str(),
    ).t("-").t(decimal_text(seq).as_str()).t(".bin").done()
}

// ---------------------------------------------------------------------------
// Laws
// ---------------------------------------------------------------------------

proof fn lemma_items_of_two(w: WindowView, a: Seq<FeedItem>, b: Seq<FeedItem>)
    ensures
        windows_after(w, a + b) == windows_after(windows_after(w, a), b),
        ended_in(w, a + b) == ended_in(w, a) + ended_in(windows_after(w, a), b),
        visible(a + b) == visible(a) + visible(b),
    decreases b.len(),
{
    if b.len() == 0 {
        assert(a + b =~= a);
        assert(ended_in(w, a) + Seq::empty() =~= ended_in(w, a));
        assert(visible(a) + Seq::empty() =~= visible(a));
    } else {
        assert((a + b).drop_last() =~= a + b.drop_last());
        lemma_items_of_two(w, a, b.drop_last());
        let x = ended_in(w, a);
        let y = ended_in(windows_after(w, a), b.drop_last());
        let z = ended_with(windows_after(windows_after(w, a), b.drop_last()), b.last());
        assert(x + y + z =~= x + (y + z));
        assert(visible(a + b) =~= visible(a) + visible(b));
    }
}

/// It does not matter how the bytes of a session are cut into reads: what is shown, the
/// commands that end and what is remembered stay the same.
pub proof fn law_reads_add_up(v: PtySessionView, a: Seq<u8>, b: Seq<u8>)
    ensures
        ({
            let first = output(v.parser, a);
            let second = output(after(v.parser, a), b);
            let whole = output(v.parser, a + b);
            let mid = windows_after(v.window, first);
            &&& windows_after(v.window, whole) == windows_after(mid, second)
            &&& ended_in(v.window, whole) == ended_in(v.window, first) + ended_in(mid, second)
            &&& visible(whole) == visible(first) + visible(second)
        }),
{
    law_split_reads(v.parser, a, b);
    lemma_items_of_two(v.window, output(v.parser, a), output(after(v.parser, a), b));
}

/// Plain output as items.
pub open spec fn plain(bytes: Seq<u8>) -> Seq<FeedItem> {
    Seq::new(bytes.len(), |i: int| FeedItem::Byte(bytes[i]))
}

/// The first bytes of some output that are kept.
pub open spec fn kept(bytes: Seq<u8>) -> Seq<u8> {
    if bytes.len() <= STDOUT_BUFFER_CAP {
        bytes
    } else {
        bytes.take(STDOUT_BUFFER_CAP as int)
    }
}

proof fn lemma_typed(w: WindowView, bytes: Seq<u8>)
    requires
        w.in_command,
    ensures
        windows_after(w, plain(bytes)) == (WindowView { command: w.command + bytes, ..w }),
        ended_in(w, plain(bytes)) == Seq::<FinishedCommandView>::empty(),
    decreases bytes.len(),
{
    if bytes.len() == 0 {
        assert(w.command + bytes =~= w.command);
    } else {
        assert(plain(bytes).drop_last() =~= plain(bytes.drop_last()));
        lemma_typed(w, bytes.drop_last());
        assert((w.command + bytes.drop_last()).push(bytes.last()) =~= w.command + bytes);
        assert(ended_in(w, plain(bytes)) =~= Seq::empty());
    }
}

proof fn lemma_put_out(w: WindowView, bytes: Seq<u8>)
    requires
        !w.in_command,
        w.in_output,
        w.stdout.len() == 0,
    ensures
        windows_after(w, plain(bytes)) == (WindowView { stdout: kept(bytes), ..w }),
        ended_in(w, plain(bytes)) == Seq::<FinishedCommandView>::empty(),
    decreases bytes.len(),
{
    if bytes.len() == 0 {
        assert(kept(bytes) =~= w.stdout);
    } else {
        assert(plain(bytes).drop_last() =~= plain(bytes.drop_last()));
        lemma_put_out(w, bytes.drop_last());
        if bytes.len() <= STDOUT_BUFFER_CAP {
            assert(kept(bytes.drop_last()).push(bytes.last()) =~= kept(bytes));
        } else {
            assert(kept(bytes.drop_last()) =~= kept(bytes));
        }
        assert(ended_in(w, plain(bytes)) =~= Seq::empty());
    }
}

/// One command with its marks.
pub open spec fn marked_command(
    line: Seq<u8>,
    stdout: Seq<u8>,
    exit_code: Option<i32>,
) -> Seq<FeedItem> {
    seq![FeedItem::Event(Osc133Event::CommandStart)] + plain(line) + seq![
        FeedItem::Event(Osc133Event::PreExec),
    ] + plain(stdout) + seq![FeedItem::Event(Osc133Event::PostExec { exit_code })]
}

/// Whatever came before it, a command with its marks gives one command that has ended: the
/// trimmed text of its line, its exit code, and its output as far as it is kept. A blank
/// line gives none.
pub proof fn law_marked_command_is_captured(
    w: WindowView,
    line: Seq<u8>,
    stdout: Seq<u8>,
    exit_code: Option<i32>,
)
    ensures
        ended_in(w, marked_command(line, stdout, exit_code)) == (if command_text(line).len() > 0 {
            Seq::<FinishedCommandView>::empty().push(
                FinishedCommandView {
                    command: command_text(line),
                    exit_code,
                    stdout: kept(stdout),
                },
            )
        } else {
            Seq::empty()
        }),
        windows_after(w, marked_command(line, stdout, exit_code)) == idle(),
{
    let a = seq![FeedItem::Event(Osc133Event::CommandStart)];
    let b = plain(line);
    let c = seq![FeedItem::Event(Osc133Event::PreExec)];
    let d = plain(stdout);
    let e = seq![FeedItem::Event(Osc133Event::PostExec { exit_code })];
    let w1 = WindowView { in_command: true, command: Seq::empty(), ..w };
    assert(a.drop_last() =~= Seq::empty());
    assert(windows_after(w, a) =~= w1) by {
        assert(windows_after(w, a.drop_last()) == w);
    }
    assert(ended_in(w, a) =~= Seq::empty()) by {
        assert(ended_in(w, a.drop_last()) =~= Seq::empty());
    }
    lemma_items_of_two(w, a, b);
    lemma_typed(w1, line);
    let w2 = WindowView { command: line, ..w1 };
    assert(w1.command + line =~= line);
    assert(windows_after(w, a + b) =~= w2);
    lemma_items_of_two(w, a + b, c);
    let w3 = WindowView { in_command: false, in_output: true, stdout: Seq::empty(), ..w2 };
    assert(c.drop_last() =~= Seq::empty());
    assert(windows_after(w2, c) =~= w3) by {
        assert(windows_after(w2, c.drop_last()) == w2);
    }
    assert(ended_in(w2, c) =~= Seq::empty()) by {
        assert(ended_in(w2, c.drop_last()) =~= Seq::empty());
    }
    lemma_items_of_two(w, a + b + c, d);
    lemma_put_out(w3, stdout);
    let w4 = WindowView { stdout: kept(stdout), ..w3 };
    lemma_items_of_two(w, a + b + c + d, e);
    assert(e.drop_last() =~= Seq::empty());
    assert(windows_after(w4, e.drop_last()) == w4);
    assert(ended_in(w4, e.drop_last()) =~= Seq::empty());
    assert(ended_in(w4, e) =~= ended_with(w4, e.last()));
    assert(ended_in(w, a + b + c + d) =~= Seq::empty());
    assert(ended_in(w, a + b + c + d + e) =~= ended_with(w4, e.last()));
    assert(windows_after(w, a + b + c + d + e) =~= idle());
}

/// A command that was run in the terminal is taken in as one: with its session, its project,
/// its exit code, its directory and the file of its output, as a terminal's command.
pub proof fn law_finished_commands_are_taken_in_as_they_were(
    session_id: Seq<char>,
    project: Option<Seq<char>>,
    done: FinishedCommand,
    stdout_file: Option<Seq<char>>,
    cwd: Option<Seq<char>>,
)
    ensures
        ({
            let a = command_args(session_id, project, done.deep_view(), stdout_file, cwd);
            &&& a.source == "terminal"@
            &&& a.session == Some(session_id)
            &&& a.command == Some(done.command@)
            &&& a.exit_code == done.exit_code
            &&& a.stdout_file == stdout_file
            &&& a.cwd == cwd
            &&& a.project == project
            &&& a.prompt is None
            &&& a.response is None
            &&& a.git_branch is None
            &&& a.digest is None
            &&& a.json is None
        }),
{
}

/// Of the output of a command its first mebibyte is kept, and all of a shorter one.
pub proof fn law_output_is_kept_up_to_a_mebibyte(bytes: Seq<u8>)
    ensures
        bytes.len() <= 1024 * 1024 ==> kept(bytes) == bytes,
        bytes.len() > 1024 * 1024 ==> kept(bytes) == bytes.take(1_048_576),
{
}

}
