//! Commands as a shell reads them.
use crate::text::{cat3, chars, join, joined, none, with};
use vstd::prelude::*;
use vstd::string::*;

verus! {

/// A character that a shell takes as it stands.
pub open spec fn is_plain(c: char) -> bool {
    ('a' <= c && c <= 'z') || ('A' <= c && c <= 'Z') || ('0' <= c && c <= '9') || c == '@' || c
        == '%' || c == '_' || c == '+' || c == '=' || c == ':' || c == ',' || c == '.' || c == '/'
        || c == '-'
}

fn plain(c: char) -> (r: bool)
    ensures
        r == is_plain(c),
{
    ('a' <= c && c <= 'z') || ('A' <= c && c <= 'Z') || ('0' <= c && c <= '9') || c == '@' || c
        == '%' || c == '_' || c == '+' || c == '=' || c == ':' || c == ',' || c == '.' || c == '/'
        || c == '-'
}

/// A word that a shell takes as it stands.
pub open spec fn is_plain_word(s: Seq<char>) -> bool {
    s.len() > 0 && forall|i: int| 0 <= i < s.len() ==> is_plain(#[trigger] s[i])
}

/// A single quote, between two quoted parts.
pub const QUOTE_ESCAPE: &'static str = "'\\''";

/// What stands between single quotes for a word.
pub open spec fn escaped(s: Seq<char>) -> Seq<char>
    decreases s.len(),
{
    if s.len() == 0 {
        Seq::empty()
    } else if s[0] == '\'' {
        QUOTE_ESCAPE@ + escaped(s.skip(1))
    } else {
        seq![s[0]] + escaped(s.skip(1))
    }
}

/// A word as it is given to a shell.
pub open spec fn quoted(s: Seq<char>) -> Seq<char> {
    if is_plain_word(s) {
        s
    } else {
        "'"@ + escaped(s) + "'"@
    }
}

/// A word as it is given to a shell.
pub fn shell_quote_arg(arg: &str) -> (r: String)
    ensures
        r@ == quoted(arg@),
{
    let cs = chars(arg);
    let mut all_plain = cs.len() > 0;
    let mut out = String::new();
    let mut i: usize = 0;
    assert(out@ + escaped(cs@.skip(0)) =~= escaped(cs@)) by {
        assert(cs@.skip(0) =~= cs@);
    }
    while i < cs.len()
        invariant
            i <= cs.len(),
            all_plain == (cs.len() > 0 && forall|j: int| 0 <= j < i ==> is_plain(
                #[trigger] cs@[j])),
            out@ + escaped(cs@.skip(i as int)) == escaped(cs@),
        decreases cs.len() - i,
    {
        let c = cs[i];
        let ghost rest = cs@.skip(i as int);
        assert(rest[0] == c);
        assert(rest.skip(1) =~= cs@.skip(i + 1));
        let ghost before = out@;
        if !plain(c) {
            all_plain = false;
        }
        if c == '\'' {
            out.append(QUOTE_ESCAPE);
            assert(before + (QUOTE_ESCAPE@ + escaped(rest.skip(1))) =~= out@ + escaped(
                rest.skip(1),
            ));
        } else {
            out.push(c);
            assert(before + (seq![c] + escaped(rest.skip(1))) =~= out@ + escaped(rest.skip(1)));
        }
        i = i + 1;
    }
    assert(cs@.skip(i as int) =~= Seq::empty());
    assert(out@ + Seq::<char>::empty() =~= out@);
    if all_plain {
        arg.to_string()
    } else {
        cat3("'", out.as_str(), "'")
    }
}

/// A command as a line for a shell.
pub open spec fn line_of(command: Seq<Seq<char>>) -> Seq<char> {
    joined(Seq::new(command.len(), |i: int| quoted(command[i])), " "@)
}

/// A command as a line for a shell.
pub fn command_line(command: &Vec<String>) -> (r: String)
    ensures
        r@ == line_of(command.deep_view()),
{
    let ghost want = Seq::new(command@.len(), |i: int| quoted(command.deep_view()[i]));
    let mut words: Vec<String> = none();
    let mut i: usize = 0;
    while i < command.len()
        invariant
            i <= command.len(),
            want == Seq::new(command@.len(), |i: int| quoted(command.deep_view()[i])),
            words.deep_view() =~= want.take(i as int),
        decreases command.len() - i,
    {
        assert(command.deep_view()[i as int] == command[i as int]@);
        words = with(words, shell_quote_arg(command[i].as_str()));
        i = i + 1;
    }
    assert(want.take(i as int) =~= want);
    assert(command.deep_view().len() == command@.len());
    assert(want =~= Seq::new(command.deep_view().len(), |i: int| quoted(command.deep_view()[i])));
    join(&words, " ")
}

/// How a shell reads a word: plain characters as they stand, what is between single
/// quotes as it stands, and the character behind a backslash outside them. Nothing else
/// is read, and a quote must be closed.
pub open spec fn shell_read(s: Seq<char>, inside: bool) -> Option<Seq<char>>
    decreases s.len(),
{
    if s.len() == 0 {
        if inside {
            None
        } else {
            Some(Seq::empty())
        }
    } else if s[0] == '\'' {
        shell_read(s.skip(1), !inside)
    } else if inside || is_plain(s[0]) {
        match shell_read(s.skip(1), inside) {
            Some(t) => Some(seq![s[0]] + t),
            None => None,
        }
    } else if s[0] == '\\' && s.len() > 1 {
        match shell_read(s.skip(2), false) {
            Some(t) => Some(seq![s[1]] + t),
            None => None,
        }
    } else {
        None
    }
}

proof fn lemma_read_escaped(s: Seq<char>)
    ensures
        shell_read(escaped(s) + seq!['\''], true) == Some(s),
    decreases s.len(),
{
    let end = seq!['\''];
    let all = escaped(s) + end;
    if s.len() == 0 {
        assert(all =~= end);
        assert(end.skip(1) =~= Seq::empty());
        reveal_with_fuel(shell_read, 2);
        assert(s =~= Seq::empty());
    } else {
        let t = s.skip(1);
        lemma_read_escaped(t);
        let rest = escaped(t) + end;
        if s[0] == '\'' {
            reveal_strlit("'\\''");
            assert(QUOTE_ESCAPE@ =~= seq!['\'', '\\', '\'', '\'']);
            assert(all =~= seq!['\'', '\\', '\'', '\''] + rest);
            let one = all.skip(1);
            assert(one =~= seq!['\\', '\'', '\''] + rest);
            let three = one.skip(2);
            assert(three =~= seq!['\''] + rest);
            assert(three.skip(1) =~= rest);
            assert(shell_read(three, false) == shell_read(rest, true));
            assert(shell_read(one, false) == Some(seq!['\''] + t));
            assert(seq!['\''] + t =~= s);
        } else {
            assert(all =~= seq![s[0]] + rest);
            assert(all.skip(1) =~= rest);
            assert(seq![s[0]] + t =~= s);
        }
    }
}

proof fn lemma_read_plain(s: Seq<char>)
    requires
        forall|i: int| 0 <= i < s.len() ==> is_plain(#[trigger] s[i]),
    ensures
        shell_read(s, false) == Some(s),
    decreases s.len(),
{
    if s.len() == 0 {
        assert(s =~= Seq::empty());
    } else {
        let t = s.skip(1);
        assert forall|i: int| 0 <= i < t.len() implies is_plain(#[trigger] t[i]) by {
            assert(t[i] == s[i + 1]);
        }
        lemma_read_plain(t);
        assert(is_plain(s[0]));
        assert(seq![s[0]] + t =~= s);
    }
}

/// A shell reads a quoted word back as it was.
pub proof fn law_quoted_words_read_back(s: Seq<char>)
    ensures
        shell_read(quoted(s), false) == Some(s),
{
    if is_plain_word(s) {
        lemma_read_plain(s);
    } else {
        reveal_strlit("'");
        let all = quoted(s);
        let rest = escaped(s) + seq!['\''];
        assert("'"@ =~= seq!['\'']);
        assert(all =~= seq!['\''] + rest);
        assert(all.skip(1) =~= rest);
        lemma_read_escaped(s);
    }
}

}
