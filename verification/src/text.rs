//! Text as a sequence of characters: comparing, trimming, searching and joining.
use crate::number::{decimal, decimal_int, decimal_text, int_text};
use vstd::prelude::*;
use vstd::string::*;
use vstd::utf8::*;

verus! {

// ---------------------------------------------------------------------------
// What the operations mean
// ---------------------------------------------------------------------------

/// The Unicode property `White_Space`.
pub open spec fn is_space(c: char) -> bool {
    let u = c as u32;
    ||| 0x09 <= u <= 0x0d
    ||| u == 0x20
    ||| u == 0x85
    ||| u == 0xa0
    ||| u == 0x1680
    ||| 0x2000 <= u <= 0x200a
    ||| u == 0x2028
    ||| u == 0x2029
    ||| u == 0x202f
    ||| u == 0x205f
    ||| u == 0x3000
}

/// The Unicode general category `Cc` (control characters).
pub open spec fn is_control(c: char) -> bool {
    let u = c as u32;
    u <= 0x1f || 0x7f <= u <= 0x9f
}

pub open spec fn is_digit(c: char) -> bool {
    '0' <= c && c <= '9'
}

pub open spec fn is_upper(c: char) -> bool {
    'A' <= c && c <= 'Z'
}

pub open spec fn is_lower(c: char) -> bool {
    'a' <= c && c <= 'z'
}

pub open spec fn is_alnum(c: char) -> bool {
    is_digit(c) || is_upper(c) || is_lower(c)
}

/// `s` without the longest front part made of characters that satisfy `p`.
pub open spec fn drop_front(s: Seq<char>, p: spec_fn(char) -> bool) -> Seq<char>
    decreases s.len(),
{
    if s.len() > 0 && p(s[0]) {
        drop_front(s.skip(1), p)
    } else {
        s
    }
}

/// `s` without the longest end part made of characters that satisfy `p`.
pub open spec fn drop_back(s: Seq<char>, p: spec_fn(char) -> bool) -> Seq<char>
    decreases s.len(),
{
    if s.len() > 0 && p(s.last()) {
        drop_back(s.drop_last(), p)
    } else {
        s
    }
}

/// Tells `x` from other characters.
pub open spec fn is_char(x: char) -> spec_fn(char) -> bool {
    |c: char| c == x
}

/// `s` without white space at either end.
pub open spec fn trimmed(s: Seq<char>) -> Seq<char> {
    drop_back(drop_front(s, |c: char| is_space(c)), |c: char| is_space(c))
}

/// `s` without the character `x` at either end.
pub open spec fn trimmed_of(s: Seq<char>, x: char) -> Seq<char> {
    drop_back(drop_front(s, is_char(x)), is_char(x))
}

pub open spec fn lower_char(c: char) -> char {
    if is_upper(c) {
        ((c as u32) + 32) as char
    } else {
        c
    }
}

/// `s` with the letters `A` to `Z` in lower case.
pub open spec fn lowered(s: Seq<char>) -> Seq<char> {
    s.map_values(|c: char| lower_char(c))
}

/// `s` with each `from` replaced by `to`.
pub open spec fn replaced(s: Seq<char>, from: char, to: char) -> Seq<char> {
    s.map_values(|c: char| if c == from { to } else { c })
}

/// `p` stands in `s` from position `i` on.
pub open spec fn occurs_at(s: Seq<char>, p: Seq<char>, i: int) -> bool {
    0 <= i && i + p.len() <= s.len() && s.subrange(i, i + p.len()) == p
}

/// `p` stands somewhere in `s`.
pub open spec fn contains(s: Seq<char>, p: Seq<char>) -> bool {
    exists|i: int| occurs_at(s, p, i)
}

pub open spec fn starts_with(s: Seq<char>, p: Seq<char>) -> bool {
    p.len() <= s.len() && s.take(p.len() as int) == p
}

pub open spec fn ends_with(s: Seq<char>, p: Seq<char>) -> bool {
    p.len() <= s.len() && s.skip(s.len() - p.len()) == p
}

/// How many characters stand before the first one that satisfies `p`: all of them
/// where none does.
pub open spec fn count_until(s: Seq<char>, p: spec_fn(char) -> bool) -> nat
    decreases s.len(),
{
    if s.len() == 0 || p(s[0]) {
        0
    } else {
        1 + count_until(s.skip(1), p)
    }
}

/// The items in order, with `sep` between each two.
pub open spec fn joined(items: Seq<Seq<char>>, sep: Seq<char>) -> Seq<char>
    decreases items.len(),
{
    if items.len() == 0 {
        Seq::empty()
    } else if items.len() == 1 {
        items[0]
    } else {
        joined(items.drop_last(), sep) + sep + items.last()
    }
}

/// A line without the carriage return that ended it.
pub open spec fn without_return(line: Seq<char>) -> Seq<char> {
    if line.len() > 0 && line.last() == '\r' {
        line.drop_last()
    } else {
        line
    }
}

/// The lines of `s`: a line ends with `\n` or `\r\n`, and nothing after the last
/// line end is no line.
pub open spec fn lines_of(s: Seq<char>) -> Seq<Seq<char>>
    decreases s.len(),
{
    if s.len() == 0 {
        Seq::empty()
    } else {
        let n = count_until(s, is_char('\n')) as int;
        if n >= s.len() {
            seq![s]
        } else {
            seq![without_return(s.take(n))] + lines_of(s.skip(n + 1))
        }
    }
}

/// The order of texts: by the first character in which they differ, and a text
/// before its continuations.
pub open spec fn before(a: Seq<char>, b: Seq<char>) -> bool
    decreases b.len(),
{
    if b.len() == 0 {
        false
    } else if a.len() == 0 {
        true
    } else if a[0] != b[0] {
        a[0] < b[0]
    } else {
        before(a.skip(1), b.skip(1))
    }
}

/// The ordered list `s` with `x` at its place, once.
pub open spec fn inserted(s: Seq<Seq<char>>, x: Seq<char>) -> Seq<Seq<char>>
    decreases s.len(),
{
    if s.len() == 0 {
        seq![x]
    } else if s[0] == x {
        s
    } else if before(x, s[0]) {
        seq![x] + s
    } else {
        seq![s[0]] + inserted(s.skip(1), x)
    }
}

/// The texts of `items`, each once, in order.
pub open spec fn ordered_set(items: Seq<Seq<char>>) -> Seq<Seq<char>>
    decreases items.len(),
{
    if items.len() == 0 {
        Seq::empty()
    } else {
        inserted(ordered_set(items.drop_last()), items.last())
    }
}

// ---------------------------------------------------------------------------
// std
// ---------------------------------------------------------------------------

/// `String::push` appends one character.
pub assume_specification[ String::push ](s: &mut String, c: char)
    ensures
        final(s)@ == old(s)@.push(c),
;

// ---------------------------------------------------------------------------
// Comparing and copying
// ---------------------------------------------------------------------------

/// Two texts are the same characters.
pub fn same(a: &str, b: &str) -> (r: bool)
    ensures
        r == (a@ == b@),
{
    let x = a.as_bytes();
    let y = b.as_bytes();
    proof {
        encode_utf8_decode_utf8(a@);
        encode_utf8_decode_utf8(b@);
    }
    if x.len() != y.len() {
        return false;
    }
    let mut i: usize = 0;
    while i < x.len()
        invariant
            i <= x.len(),
            x.len() == y.len(),
            x@ == encode_utf8(a@),
            y@ == encode_utf8(b@),
            forall|j: int| 0 <= j < i ==> x@[j] == y@[j],
        decreases x.len() - i,
    {
        if x[i] != y[i] {
            return false;
        }
        i = i + 1;
    }
    assert(x@ =~= y@);
    true
}

/// The characters of a text.
pub fn chars(s: &str) -> (r: Vec<char>)
    ensures
        r@ == s@,
{
    let mut out: Vec<char> = Vec::new();
    for c in it: s.chars()
        invariant
            out@ == s@.take(it.index()),
            it.seq() == s@,
    {
        out.push(c);
        assert(s@.take(it.index()).push(c) =~= s@.take(it.index() + 1));
    }
    assert(s@.take(s@.len() as int) =~= s@);
    out
}

/// The text made of the characters `from..to` of `s`.
pub fn slice_of(s: &Vec<char>, from: usize, to: usize) -> (r: String)
    requires
        from <= to <= s.len(),
    ensures
        r@ == s@.subrange(from as int, to as int),
{
    let mut out = String::new();
    let mut i: usize = from;
    while i < to
        invariant
            from <= i <= to <= s.len(),
            out@ =~= s@.subrange(from as int, i as int),
        decreases to - i,
    {
        out.push(s[i]);
        i = i + 1;
    }
    out
}

pub fn of_chars(s: &Vec<char>) -> (r: String)
    ensures
        r@ == s@,
{
    let r = slice_of(s, 0, s.len());
    assert(s@.subrange(0, s@.len() as int) =~= s@);
    r
}

/// A copy of a list of texts.
pub fn copied(list: &Vec<String>) -> (r: Vec<String>)
    ensures
        r.deep_view() == list.deep_view(),
{
    let mut out: Vec<String> = Vec::new();
    let mut i: usize = 0;
    while i < list.len()
        invariant
            i <= list.len(),
            out.deep_view() =~= list.deep_view().take(i as int),
        decreases list.len() - i,
    {
        out = with(out, list[i].clone());
        assert(list.deep_view()[i as int] == list[i as int].deep_view());
        i = i + 1;
    }
    assert(list.deep_view().take(i as int) =~= list.deep_view());
    out
}

/// The list with one more item at its end.
pub fn with<T: DeepView>(list: Vec<T>, item: T) -> (r: Vec<T>)
    ensures
        r.deep_view() == list.deep_view().push(item.deep_view()),
{
    let mut out = list;
    out.push(item);
    assert(out.deep_view() =~= list.deep_view().push(item.deep_view()));
    out
}

/// The list of texts with one more text at its end.
pub fn with_text(list: Vec<String>, item: &str) -> (r: Vec<String>)
    ensures
        r.deep_view() == list.deep_view().push(item@),
{
    with(list, item.to_string())
}

/// The empty list.
pub fn none<T: DeepView>() -> (r: Vec<T>)
    ensures
        r.deep_view() == Seq::<T::V>::empty(),
{
    let r: Vec<T> = Vec::new();
    assert(r.deep_view() =~= Seq::<T::V>::empty());
    r
}

/// A list of texts that is being put together, such as a command line.
pub struct Words {
    list: Vec<String>,
}

impl View for Words {
    type V = Seq<Seq<char>>;

    closed spec fn view(&self) -> Seq<Seq<char>> {
        self.list.deep_view()
    }
}

/// No texts.
pub open spec fn nil() -> Seq<Seq<char>> {
    Seq::empty()
}

impl Words {
    /// No text yet.
    pub fn new() -> (r: Words)
        ensures
            r@ == nil(),
    {
        Words { list: none() }
    }

    /// The texts of a list.
    pub fn starting(list: Vec<String>) -> (r: Words)
        ensures
            r@ == list.deep_view(),
    {
        Words { list }
    }

    /// One more text.
    pub fn w(self, text: &str) -> (r: Words)
        ensures
            r@ == self@.push(text@),
    {
        Words { list: with(self.list, text.to_string()) }
    }

    /// The texts of another list.
    pub fn more(self, texts: &Vec<String>) -> (r: Words)
        ensures
            r@ == self@ + texts.deep_view(),
    {
        let mut list = self.list;
        let mut i: usize = 0;
        assert(self@ + texts.deep_view().take(0) =~= self@);
        while i < texts.len()
            invariant
                i <= texts.len(),
                list.deep_view() == self@ + texts.deep_view().take(i as int),
            decreases texts.len() - i,
        {
            list = with(list, texts[i].clone());
            assert(texts.deep_view()[i as int] == texts[i as int]@);
            assert((self@ + texts.deep_view().take(i as int)).push(texts.deep_view()[i as int])
                =~= self@ + texts.deep_view().take(i + 1));
            i = i + 1;
        }
        assert(texts.deep_view().take(i as int) =~= texts.deep_view());
        Words { list }
    }

    /// The list.
    pub fn done(self) -> (r: Vec<String>)
        ensures
            r.deep_view() == self@,
    {
        self.list
    }
}

/// The texts of a table.
pub open spec fn table<const N: usize>(items: [&'static str; N]) -> Seq<Seq<char>> {
    Seq::new(N as nat, |i: int| items@[i]@)
}

/// The texts of a table, as a list.
pub fn table_texts<const N: usize>(items: &[&'static str; N]) -> (r: Vec<String>)
    ensures
        r.deep_view() == table(*items),
{
    let mut out: Vec<String> = none();
    let mut i: usize = 0;
    while i < N
        invariant
            i <= N,
            out.deep_view() =~= table(*items).take(i as int),
        decreases N - i,
    {
        out = with(out, items[i].to_string());
        i = i + 1;
    }
    assert(table(*items).take(i as int) =~= table(*items));
    out
}

/// Fixed texts, as a list of their own.
pub fn words_of(items: &Vec<&'static str>) -> (r: Vec<String>)
    ensures
        r.deep_view() == items.deep_view(),
{
    let mut out: Vec<String> = none();
    let mut i: usize = 0;
    while i < items.len()
        invariant
            i <= items.len(),
            out.deep_view() =~= items.deep_view().take(i as int),
        decreases items.len() - i,
    {
        out = with(out, items[i].to_string());
        assert(items.deep_view()[i as int] == items[i as int]@);
        i = i + 1;
    }
    assert(items.deep_view().take(i as int) =~= items.deep_view());
    out
}

/// The lines, each with its newline.
pub open spec fn unlines(lines: Seq<Seq<char>>) -> Seq<char>
    decreases lines.len(),
{
    if lines.len() == 0 {
        Seq::empty()
    } else {
        unlines(lines.drop_last()) + lines.last() + "\n"@
    }
}

/// The lines, each with its newline.
pub fn text_of_lines(lines: &Vec<String>) -> (r: String)
    ensures
        r@ == unlines(lines.deep_view()),
{
    let ghost all = lines.deep_view();
    let mut out = String::new();
    let mut i: usize = 0;
    while i < lines.len()
        invariant
            i <= lines.len(),
            all == lines.deep_view(),
            out@ == unlines(all.take(i as int)),
        decreases lines.len() - i,
    {
        assert(all.take(i + 1).drop_last() =~= all.take(i as int));
        assert(all.take(i + 1).last() == lines[i as int]@);
        out.append(lines[i].as_str());
        out.append("\n");
        i = i + 1;
    }
    assert(all.take(i as int) =~= all);
    out
}

/// A text that is being put together, part by part.
pub struct Phrase {
    text: String,
}

impl View for Phrase {
    type V = Seq<char>;

    closed spec fn view(&self) -> Seq<char> {
        self.text@
    }
}

/// A flag as it is written.
pub open spec fn flag_text(b: bool) -> Seq<char> {
    if b {
        "true"@
    } else {
        "false"@
    }
}

impl Phrase {
    /// A text that begins like this.
    pub fn new(text: &str) -> (r: Phrase)
        ensures
            r@ == text@,
    {
        Phrase { text: text.to_string() }
    }

    /// One more part.
    pub fn t(self, text: &str) -> (r: Phrase)
        ensures
            r@ == self@ + text@,
    {
        let mut all = self.text;
        all.append(text);
        Phrase { text: all }
    }

    /// One more part: a flag.
    pub fn b(self, flag: bool) -> (r: Phrase)
        ensures
            r@ == self@ + flag_text(flag),
    {
        if flag {
            self.t("true")
        } else {
            self.t("false")
        }
    }

    /// One more part: a number.
    pub fn n(self, number: usize) -> (r: Phrase)
        ensures
            r@ == self@ + decimal(number as nat),
    {
        self.t(decimal_text(number as u64).as_str())
    }

    /// One more part: a number with a sign.
    pub fn i(self, number: i64) -> (r: Phrase)
        ensures
            r@ == self@ + decimal_int(number as int),
    {
        self.t(int_text(number).as_str())
    }

    /// The text.
    pub fn done(self) -> (r: String)
        ensures
            r@ == self@,
    {
        self.text
    }
}

pub fn cat2(a: &str, b: &str) -> (r: String)
    ensures
        r@ == a@ + b@,
{
    let mut r = a.to_string();
    r.append(b);
    r
}

pub fn cat3(a: &str, b: &str, c: &str) -> (r: String)
    ensures
        r@ == a@ + b@ + c@,
{
    let mut r = cat2(a, b);
    r.append(c);
    r
}

pub fn cat4(a: &str, b: &str, c: &str, d: &str) -> (r: String)
    ensures
        r@ == a@ + b@ + c@ + d@,
{
    let mut r = cat3(a, b, c);
    r.append(d);
    r
}

pub fn cat5(a: &str, b: &str, c: &str, d: &str, e: &str) -> (r: String)
    ensures
        r@ == a@ + b@ + c@ + d@ + e@,
{
    let mut r = cat4(a, b, c, d);
    r.append(e);
    r
}

// ---------------------------------------------------------------------------
// Trimming
// ---------------------------------------------------------------------------

/// A front part of which every character satisfies `p` is dropped.
pub proof fn lemma_drop_front(s: Seq<char>, p: spec_fn(char) -> bool, k: int)
    requires
        0 <= k <= s.len(),
        forall|i: int| 0 <= i < k ==> p(#[trigger] s[i]),
    ensures
        drop_front(s, p) == drop_front(s.skip(k), p),
        k < s.len() && !p(s[k]) ==> drop_front(s, p) == s.skip(k),
        k == s.len() ==> drop_front(s, p) == Seq::<char>::empty(),
    decreases k,
{
    if k == 0 {
        assert(s.skip(0) =~= s);
    } else {
        let t = s.skip(1);
        assert forall|i: int| 0 <= i < k - 1 implies p(#[trigger] t[i]) by {
            assert(t[i] == s[i + 1]);
        }
        lemma_drop_front(t, p, k - 1);
        assert(t.skip(k - 1) =~= s.skip(k));
    }
}

/// An end part of which every character satisfies `p` is dropped.
pub proof fn lemma_drop_back(s: Seq<char>, p: spec_fn(char) -> bool, k: int)
    requires
        0 <= k <= s.len(),
        forall|i: int| k <= i < s.len() ==> p(#[trigger] s[i]),
    ensures
        k > 0 && !p(s[k - 1]) ==> drop_back(s, p) == s.take(k),
        k == 0 ==> drop_back(s, p) == Seq::<char>::empty(),
    decreases s.len() - k,
{
    if k == s.len() {
        assert(s.take(k) =~= s);
    } else {
        let t = s.drop_last();
        assert forall|i: int| k <= i < t.len() implies p(#[trigger] t[i]) by {
            assert(t[i] == s[i]);
        }
        lemma_drop_back(t, p, k);
        assert(t.take(k) =~= s.take(k));
    }
}

/// Tells white space from other characters.
pub fn space(c: char) -> (r: bool)
    ensures
        r == is_space(c),
{
    let u = c as u32;
    (0x09 <= u && u <= 0x0d) || u == 0x20 || u == 0x85 || u == 0xa0 || u == 0x1680 || (0x2000 <= u
        && u <= 0x200a) || u == 0x2028 || u == 0x2029 || u == 0x202f || u == 0x205f || u == 0x3000
}

/// Tells control characters from others.
pub fn control(c: char) -> (r: bool)
    ensures
        r == is_control(c),
{
    let u = c as u32;
    u <= 0x1f || (0x7f <= u && u <= 0x9f)
}

/// `s` without white space at either end.
pub fn trim(s: &str) -> (r: &str)
    ensures
        r@ == trimmed(s@),
{
    let cs = chars(s);
    let mut i: usize = 0;
    while i < cs.len() && space(cs[i])
        invariant
            i <= cs.len(),
            cs@ == s@,
            forall|j: int| 0 <= j < i ==> is_space(#[trigger] cs@[j]),
        decreases cs.len() - i,
    {
        i = i + 1;
    }
    let mut k: usize = cs.len();
    while k > i && space(cs[k - 1])
        invariant
            i <= k <= cs.len(),
            cs@ == s@,
            forall|j: int| k <= j < cs.len() ==> is_space(#[trigger] cs@[j]),
        decreases k,
    {
        k = k - 1;
    }
    proof {
        let p = |c: char| is_space(c);
        let f = s@.skip(i as int);
        lemma_drop_front(s@, p, i as int);
        if i < s@.len() {
            assert(drop_front(s@, p) == f);
            assert(f[0] == s@[i as int]);
            assert forall|j: int| k - i <= j < f.len() implies p(#[trigger] f[j]) by {
                assert(f[j] == s@[j + i]);
            }
            assert(k > i) by {
                assert(!is_space(cs@[i as int]));
            }
            assert(f[k - i - 1] == s@[k - 1]);
            lemma_drop_back(f, p, k - i);
            assert(f.take(k - i) =~= s@.subrange(i as int, k as int));
        } else {
            assert(s@.subrange(i as int, k as int) =~= Seq::<char>::empty());
        }
    }
    s.substring_char(i, k)
}

/// `s` without the character `x` at either end.
pub fn trim_of(s: &str, x: char) -> (r: &str)
    ensures
        r@ == trimmed_of(s@, x),
{
    let cs = chars(s);
    let mut i: usize = 0;
    while i < cs.len() && cs[i] == x
        invariant
            i <= cs.len(),
            cs@ == s@,
            forall|j: int| 0 <= j < i ==> #[trigger] cs@[j] == x,
        decreases cs.len() - i,
    {
        i = i + 1;
    }
    let mut k: usize = cs.len();
    while k > i && cs[k - 1] == x
        invariant
            i <= k <= cs.len(),
            cs@ == s@,
            forall|j: int| k <= j < cs.len() ==> #[trigger] cs@[j] == x,
        decreases k,
    {
        k = k - 1;
    }
    proof {
        let p = is_char(x);
        let f = s@.skip(i as int);
        lemma_drop_front(s@, p, i as int);
        if i < s@.len() {
            assert(f[0] == s@[i as int]);
            assert forall|j: int| k - i <= j < f.len() implies p(#[trigger] f[j]) by {
                assert(f[j] == s@[j + i]);
            }
            assert(k > i) by {
                assert(cs@[i as int] != x);
            }
            assert(f[k - i - 1] == s@[k - 1]);
            lemma_drop_back(f, p, k - i);
            assert(f.take(k - i) =~= s@.subrange(i as int, k as int));
        } else {
            assert(s@.subrange(i as int, k as int) =~= Seq::<char>::empty());
        }
    }
    s.substring_char(i, k)
}

// ---------------------------------------------------------------------------
// Replacing and searching
// ---------------------------------------------------------------------------

fn lower_of(c: char) -> (r: char)
    ensures
        r == lower_char(c),
{
    if 'A' <= c && c <= 'Z' {
        ((c as u8) + 32) as char
    } else {
        c
    }
}

/// `s` with the letters `A` to `Z` in lower case.
pub fn lower(s: &str) -> (r: String)
    ensures
        r@ == lowered(s@),
{
    let cs = chars(s);
    let mut out = String::new();
    let mut i: usize = 0;
    while i < cs.len()
        invariant
            i <= cs.len(),
            cs@ == s@,
            out@ =~= lowered(s@).take(i as int),
        decreases cs.len() - i,
    {
        out.push(lower_of(cs[i]));
        i = i + 1;
    }
    assert(lowered(s@).take(i as int) =~= lowered(s@));
    out
}

/// `s` with each `from` replaced by `to`.
pub fn replace(s: &str, from: char, to: char) -> (r: String)
    ensures
        r@ == replaced(s@, from, to),
{
    let cs = chars(s);
    let mut out = String::new();
    let mut i: usize = 0;
    while i < cs.len()
        invariant
            i <= cs.len(),
            cs@ == s@,
            out@ =~= replaced(s@, from, to).take(i as int),
        decreases cs.len() - i,
    {
        out.push(if cs[i] == from { to } else { cs[i] });
        i = i + 1;
    }
    assert(replaced(s@, from, to).take(i as int) =~= replaced(s@, from, to));
    out
}

/// Two texts are the same but for the case of the letters `A` to `Z`.
pub fn same_lowered(a: &str, b: &str) -> (r: bool)
    ensures
        r == (lowered(a@) == lowered(b@)),
{
    same(lower(a).as_str(), lower(b).as_str())
}

fn stands_at(s: &Vec<char>, p: &Vec<char>, at: usize) -> (r: bool)
    requires
        at + p.len() <= s.len(),
    ensures
        r == occurs_at(s@, p@, at as int),
{
    let mut i: usize = 0;
    while i < p.len()
        invariant
            i <= p.len(),
            at + p.len() <= s.len(),
            forall|j: int| 0 <= j < i ==> s@[at + j] == p@[j],
        decreases p.len() - i,
    {
        if s[at + i] != p[i] {
            assert(s@.subrange(at as int, at + p.len())[i as int] != p@[i as int]);
            return false;
        }
        i = i + 1;
    }
    assert(s@.subrange(at as int, at + p.len()) =~= p@);
    true
}

/// `p` stands somewhere in `s`.
pub fn mentions(s: &str, p: &str) -> (r: bool)
    ensures
        r == contains(s@, p@),
{
    let cs = chars(s);
    let ps = chars(p);
    if ps.len() > cs.len() {
        return false;
    }
    let mut i: usize = 0;
    while i <= cs.len() - ps.len()
        invariant
            cs@ == s@,
            ps@ == p@,
            ps.len() <= cs.len(),
            i <= cs.len() - ps.len() + 1,
            forall|j: int| 0 <= j < i ==> !occurs_at(s@, p@, j),
        decreases cs.len() - ps.len() + 1 - i,
    {
        if stands_at(&cs, &ps, i) {
            return true;
        }
        if i == cs.len() - ps.len() {
            return false;
        }
        i = i + 1;
    }
    false
}

/// `s` begins with `p`.
pub fn begins(s: &str, p: &str) -> (r: bool)
    ensures
        r == starts_with(s@, p@),
{
    let cs = chars(s);
    let ps = chars(p);
    assert(p@.len() <= s@.len() ==> s@.take(p@.len() as int) =~= s@.subrange(0, p@.len() as int));
    ps.len() <= cs.len() && stands_at(&cs, &ps, 0)
}

/// `s` ends with `p`.
pub fn ends(s: &str, p: &str) -> (r: bool)
    ensures
        r == ends_with(s@, p@),
{
    let cs = chars(s);
    let ps = chars(p);
    assert(p@.len() <= s@.len() ==> s@.skip(s@.len() - p@.len()) =~= s@.subrange(
        s@.len() - p@.len(),
        s@.len() - p@.len() + p@.len(),
    ));
    ps.len() <= cs.len() && stands_at(&cs, &ps, cs.len() - ps.len())
}

/// A text stands in a list.
pub fn listed(list: &Vec<String>, item: &str) -> (r: bool)
    ensures
        r == list.deep_view().contains(item@),
{
    let mut i: usize = 0;
    while i < list.len()
        invariant
            i <= list.len(),
            forall|j: int| 0 <= j < i ==> list.deep_view()[j] != item@,
        decreases list.len() - i,
    {
        if same(list[i].as_str(), item) {
            assert(list.deep_view()[i as int] == item@);
            return true;
        }
        i = i + 1;
    }
    false
}

/// Two lists hold the same texts in the same order.
pub fn same_list(a: &Vec<String>, b: &Vec<String>) -> (r: bool)
    ensures
        r == (a.deep_view() == b.deep_view()),
{
    if a.len() != b.len() {
        assert(a.deep_view().len() != b.deep_view().len());
        return false;
    }
    let mut i: usize = 0;
    while i < a.len()
        invariant
            i <= a.len(),
            a.len() == b.len(),
            forall|j: int| 0 <= j < i ==> a.deep_view()[j] == b.deep_view()[j],
        decreases a.len() - i,
    {
        if !same(a[i].as_str(), b[i].as_str()) {
            assert(a.deep_view()[i as int] != b.deep_view()[i as int]);
            return false;
        }
        i = i + 1;
    }
    assert(a.deep_view() =~= b.deep_view());
    true
}

/// The items in order, with `sep` between each two.
pub fn join(items: &Vec<String>, sep: &str) -> (r: String)
    ensures
        r@ == joined(items.deep_view(), sep@),
{
    let mut out = String::new();
    let mut i: usize = 0;
    while i < items.len()
        invariant
            i <= items.len(),
            out@ == joined(items.deep_view().take(i as int), sep@),
        decreases items.len() - i,
    {
        let ghost next = items.deep_view().take(i + 1);
        assert(next.drop_last() =~= items.deep_view().take(i as int));
        assert(next.last() == items[i as int]@);
        if i > 0 {
            out.append(sep);
            out.append(items[i].as_str());
        } else {
            out = items[i].clone();
        }
        i = i + 1;
    }
    assert(items.deep_view().take(i as int) =~= items.deep_view());
    out
}

/// Where the first character that satisfies `p` stands.
pub proof fn lemma_count_until(s: Seq<char>, p: spec_fn(char) -> bool, k: int)
    requires
        0 <= k <= s.len(),
        forall|i: int| 0 <= i < k ==> !p(#[trigger] s[i]),
        k < s.len() ==> p(s[k]),
    ensures
        count_until(s, p) == k,
    decreases k,
{
    if k > 0 {
        let t = s.skip(1);
        assert forall|i: int| 0 <= i < k - 1 implies !p(#[trigger] t[i]) by {
            assert(t[i] == s[i + 1]);
        }
        if k < s.len() {
            assert(t[k - 1] == s[k]);
        }
        assert(!p(s[0]));
        lemma_count_until(t, p, k - 1);
    }
}

/// `count_until` never passes the end, and stops at the first match.
pub proof fn lemma_count_until_found(s: Seq<char>, p: spec_fn(char) -> bool)
    ensures
        count_until(s, p) <= s.len(),
        forall|i: int| 0 <= i < count_until(s, p) ==> !p(#[trigger] s[i]),
        count_until(s, p) < s.len() ==> p(s[count_until(s, p) as int]),
    decreases s.len(),
{
    if s.len() > 0 && !p(s[0]) {
        let t = s.skip(1);
        lemma_count_until_found(t, p);
        assert forall|i: int| 0 <= i < count_until(s, p) implies !p(#[trigger] s[i]) by {
            if i > 0 {
                assert(s[i] == t[i - 1]);
            }
        }
        if count_until(s, p) < s.len() {
            assert(t[count_until(t, p) as int] == s[count_until(s, p) as int]);
        }
    }
}

/// The lines of `s`.
pub fn lines(s: &str) -> (r: Vec<String>)
    ensures
        r.deep_view() == lines_of(s@),
{
    let cs = chars(s);
    let mut out: Vec<String> = Vec::new();
    let mut start: usize = 0;
    assert(s@.skip(0) =~= s@);
    assert(out.deep_view() + lines_of(s@) =~= lines_of(s@));
    while start < cs.len()
        invariant
            start <= cs.len(),
            cs@ == s@,
            lines_of(s@) == out.deep_view() + lines_of(s@.skip(start as int)),
        decreases cs.len() - start,
    {
        let ghost rest = s@.skip(start as int);
        let mut i: usize = start;
        while i < cs.len() && cs[i] != '\n'
            invariant
                start <= i <= cs.len(),
                cs@ == s@,
                forall|j: int| start <= j < i ==> #[trigger] cs@[j] != '\n',
            decreases cs.len() - i,
        {
            i = i + 1;
        }
        proof {
            assert forall|j: int| 0 <= j < i - start implies !is_char('\n')(#[trigger] rest[j]) by {
                assert(rest[j] == cs@[j + start]);
            }
            if i < cs.len() {
                assert(rest[i - start] == cs@[i as int]);
            }
            lemma_count_until(rest, is_char('\n'), i - start);
            assert(rest.take(i - start) =~= s@.subrange(start as int, i as int));
        }
        let ghost so_far = out.deep_view();
        if i == cs.len() {
            assert(s@.subrange(start as int, i as int) =~= rest);
            out = with(out, slice_of(&cs, start, i));
            start = i;
            assert(s@.skip(start as int) =~= Seq::<char>::empty());
            assert(lines_of(s@) =~= out.deep_view() + lines_of(s@.skip(start as int)));
        } else {
            let end: usize = if i > start && cs[i - 1] == '\r' { i - 1 } else { i };
            assert(s@.subrange(start as int, end as int) =~= without_return(
                s@.subrange(start as int, i as int),
            ));
            out = with(out, slice_of(&cs, start, end));
            assert(rest.skip(i - start + 1) =~= s@.skip(i + 1));
            start = i + 1;
            assert(lines_of(s@) =~= out.deep_view() + lines_of(s@.skip(start as int)));
        }
    }
    assert(s@.skip(start as int) =~= Seq::<char>::empty());
    assert(out.deep_view() + lines_of(s@.skip(start as int)) =~= out.deep_view());
    out
}

// ---------------------------------------------------------------------------
// Order
// ---------------------------------------------------------------------------

/// `a` stands before `b` in the order of texts.
pub fn comes_before(a: &str, b: &str) -> (r: bool)
    ensures
        r == before(a@, b@),
{
    let x = chars(a);
    let y = chars(b);
    let mut i: usize = 0;
    assert(a@.skip(0) =~= a@ && b@.skip(0) =~= b@);
    loop
        invariant
            i <= x.len(),
            i <= y.len(),
            x@ == a@,
            y@ == b@,
            before(a@, b@) == before(a@.skip(i as int), b@.skip(i as int)),
        decreases y.len() - i,
    {
        if i == y.len() {
            return false;
        }
        if i == x.len() {
            return true;
        }
        assert(a@.skip(i as int)[0] == a@[i as int] && b@.skip(i as int)[0] == b@[i as int]);
        if x[i] != y[i] {
            return x[i] < y[i];
        }
        assert(a@.skip(i as int).skip(1) =~= a@.skip(i + 1));
        assert(b@.skip(i as int).skip(1) =~= b@.skip(i + 1));
        i = i + 1;
    }
}

/// Where `x` is put in.
proof fn lemma_inserted(s: Seq<Seq<char>>, x: Seq<char>, k: int)
    requires
        0 <= k <= s.len(),
        forall|i: int| 0 <= i < k ==> #[trigger] s[i] != x && !before(x, s[i]),
    ensures
        k < s.len() && s[k] == x ==> inserted(s, x) == s,
        k < s.len() && s[k] != x && before(x, s[k]) ==> inserted(s, x) == s.insert(k, x),
        k == s.len() ==> inserted(s, x) == s.insert(k, x),
    decreases k,
{
    if k == 0 {
        assert(seq![x] + s =~= s.insert(0, x));
    } else {
        let t = s.skip(1);
        assert forall|i: int| 0 <= i < k - 1 implies #[trigger] t[i] != x && !before(x, t[i]) by {
            assert(t[i] == s[i + 1]);
        }
        assert(s[0] != x && !before(x, s[0]));
        lemma_inserted(t, x, k - 1);
        assert(seq![s[0]] + t =~= s);
        assert(seq![s[0]] + t.insert(k - 1, x) =~= s.insert(k, x));
        if k < s.len() {
            assert(t[k - 1] == s[k]);
        }
    }
}

/// Puts `x` at its place in an ordered list, once.
pub fn insert(list: &mut Vec<String>, x: String)
    ensures
        final(list).deep_view() == inserted(old(list).deep_view(), x@),
{
    let ghost was = list.deep_view();
    let mut i: usize = 0;
    while i < list.len()
        invariant
            i <= list.len(),
            list.deep_view() == was,
            was == old(list).deep_view(),
            forall|j: int| 0 <= j < i ==> #[trigger] was[j] != x@ && !before(x@, was[j]),
        decreases list.len() - i,
    {
        if same(list[i].as_str(), x.as_str()) {
            proof {
                assert(was[i as int] == x@);
                lemma_inserted(was, x@, i as int);
            }
            return;
        }
        if comes_before(x.as_str(), list[i].as_str()) {
            proof {
                assert(was[i as int] == list[i as int]@);
                lemma_inserted(was, x@, i as int);
            }
            list.insert(i, x);
            assert(list.deep_view() =~= was.insert(i as int, x@));
            return;
        }
        assert(was[i as int] == list[i as int]@);
        i = i + 1;
    }
    proof {
        lemma_inserted(was, x@, i as int);
    }
    list.push(x);
    assert(list.deep_view() =~= was.insert(i as int, x@));
}

/// The texts of `items`, each once, in order.
pub fn sorted(items: &Vec<String>) -> (r: Vec<String>)
    ensures
        r.deep_view() == ordered_set(items.deep_view()),
{
    let mut out: Vec<String> = none();
    let mut i: usize = 0;
    while i < items.len()
        invariant
            i <= items.len(),
            out.deep_view() == ordered_set(items.deep_view().take(i as int)),
        decreases items.len() - i,
    {
        let ghost next = items.deep_view().take(i + 1);
        assert(next.drop_last() =~= items.deep_view().take(i as int));
        assert(next.last() == items[i as int]@);
        insert(&mut out, items[i].clone());
        i = i + 1;
    }
    assert(items.deep_view().take(i as int) =~= items.deep_view());
    out
}

// ---------------------------------------------------------------------------
// The order of texts
// ---------------------------------------------------------------------------

/// Of two different texts one comes before the other.
pub proof fn lemma_before_total(a: Seq<char>, b: Seq<char>)
    ensures
        a == b || before(a, b) || before(b, a),
        !(before(a, b) && before(b, a)),
    decreases a.len(),
{
    if a.len() > 0 && b.len() > 0 && a[0] == b[0] {
        lemma_before_total(a.skip(1), b.skip(1));
        if a.skip(1) == b.skip(1) {
            assert(a =~= seq![a[0]] + a.skip(1));
            assert(b =~= seq![b[0]] + b.skip(1));
        }
    } else if a.len() == 0 && b.len() == 0 {
        assert(a =~= b);
    }
}

/// The order of texts goes on.
pub proof fn lemma_before_trans(a: Seq<char>, b: Seq<char>, c: Seq<char>)
    requires
        before(a, b),
        before(b, c),
    ensures
        before(a, c),
    decreases c.len(),
{
    if a.len() > 0 && b.len() > 0 && c.len() > 0 && a[0] == b[0] && b[0] == c[0] {
        lemma_before_trans(a.skip(1), b.skip(1), c.skip(1));
    }
}

proof fn lemma_inserted_ordered(s: Seq<Seq<char>>, x: Seq<char>)
    requires
        is_ordered(s),
    ensures
        is_ordered(inserted(s, x)),
        inserted(s, x).contains(x),
        forall|y: Seq<char>| s.contains(y) ==> #[trigger] inserted(s, x).contains(y),
        forall|y: Seq<char>| #[trigger] inserted(s, x).contains(y) ==> y == x || s.contains(y),
    decreases s.len(),
{
    let r = inserted(s, x);
    if s.len() == 0 {
        assert(r[0] == x);
    } else if s[0] == x {
    } else if before(x, s[0]) {
        assert(r[0] == x);
        assert forall|i: int, j: int| 0 <= i < j < r.len() implies before(
            #[trigger] r[i],
            #[trigger] r[j],
        ) by {
            assert(r[j] == s[j - 1]);
            if i > 0 {
                assert(r[i] == s[i - 1]);
            } else if j > 1 {
                assert(before(s[0], s[j - 1]));
                lemma_before_trans(x, s[0], s[j - 1]);
            }
        }
        assert forall|y: Seq<char>| s.contains(y) implies #[trigger] r.contains(y) by {
            let i = choose|i: int| 0 <= i < s.len() && s[i] == y;
            assert(r[i + 1] == y);
        }
        assert forall|y: Seq<char>| #[trigger] r.contains(y) implies y == x || s.contains(y) by {
            let i = choose|i: int| 0 <= i < r.len() && r[i] == y;
            if i > 0 {
                assert(s[i - 1] == y);
            }
        }
    } else {
        let t = s.skip(1);
        assert(is_ordered(t)) by {
            assert forall|i: int, j: int| 0 <= i < j < t.len() implies before(
                #[trigger] t[i],
                #[trigger] t[j],
            ) by {
                assert(before(s[i + 1], s[j + 1]));
            }
        }
        lemma_inserted_ordered(t, x);
        let q = inserted(t, x);
        lemma_before_total(s[0], x);
        assert forall|i: int, j: int| 0 <= i < j < r.len() implies before(
            #[trigger] r[i],
            #[trigger] r[j],
        ) by {
            assert(r[j] == q[j - 1]);
            if i > 0 {
                assert(r[i] == q[i - 1]);
            } else {
                let y = q[j - 1];
                assert(q.contains(y));
                if y != x {
                    let k = choose|k: int| 0 <= k < t.len() && t[k] == y;
                    assert(before(s[0], s[k + 1]));
                }
            }
        }
        assert(r.contains(x)) by {
            let i = choose|i: int| 0 <= i < q.len() && q[i] == x;
            assert(r[i + 1] == x);
        }
        assert forall|y: Seq<char>| s.contains(y) implies #[trigger] r.contains(y) by {
            let i = choose|i: int| 0 <= i < s.len() && s[i] == y;
            if i == 0 {
                assert(r[0] == y);
            } else {
                assert(t[i - 1] == y);
                assert(t.contains(y));
                assert(q.contains(y));
                let k = choose|k: int| 0 <= k < q.len() && q[k] == y;
                assert(r[k + 1] == y);
            }
        }
        assert forall|y: Seq<char>| #[trigger] r.contains(y) implies y == x || s.contains(y) by {
            let i = choose|i: int| 0 <= i < r.len() && r[i] == y;
            if i == 0 {
                assert(s[0] == y);
            } else {
                assert(q[i - 1] == y);
                assert(q.contains(y));
                if y != x {
                    let k = choose|k: int| 0 <= k < t.len() && t[k] == y;
                    assert(s[k + 1] == y);
                }
            }
        }
    }
}

/// The texts stand in order, each once.
pub open spec fn is_ordered(s: Seq<Seq<char>>) -> bool {
    forall|i: int, j: int| 0 <= i < j < s.len() ==> before(#[trigger] s[i], #[trigger] s[j])
}

/// An ordered set holds the texts of the list and no others, in order, each once.
pub proof fn law_ordered_set_holds_each_once(items: Seq<Seq<char>>)
    ensures
        is_ordered(ordered_set(items)),
        forall|y: Seq<char>| #[trigger] ordered_set(items).contains(y) <==> items.contains(y),
    decreases items.len(),
{
    if items.len() > 0 {
        let front = items.drop_last();
        let s = ordered_set(front);
        law_ordered_set_holds_each_once(front);
        lemma_inserted_ordered(s, items.last());
        assert forall|y: Seq<char>| #[trigger] ordered_set(items).contains(y) <==> items.contains(
            y,
        ) by {
            if ordered_set(items).contains(y) {
                if y == items.last() {
                    assert(items[items.len() - 1] == y);
                } else {
                    assert(s.contains(y));
                    let i = choose|i: int| 0 <= i < front.len() && front[i] == y;
                    assert(items[i] == y);
                }
            }
            if items.contains(y) {
                let i = choose|i: int| 0 <= i < items.len() && items[i] == y;
                if i < items.len() - 1 {
                    assert(front[i] == y);
                    assert(s.contains(y));
                }
            }
        }
    }
}

/// A text that neither begins nor ends with white space is its own trimmed text.
pub proof fn law_nothing_to_trim(s: Seq<char>)
    requires
        s.len() > 0,
        !is_space(s[0]),
        !is_space(s.last()),
    ensures
        trimmed(s) == s,
{
    assert(drop_front(s, |c: char| is_space(c)) == s);
    assert(drop_back(s, |c: char| is_space(c)) == s);
}

proof fn lemma_front_split(s: Seq<char>) -> (n: int)
    ensures
        0 <= n <= s.len(),
        drop_front(s, |c: char| is_space(c)) == s.skip(n),
        forall|i: int| 0 <= i < n ==> is_space(#[trigger] s[i]),
        n < s.len() ==> !is_space(s[n]),
    decreases s.len(),
{
    if s.len() > 0 && is_space(s[0]) {
        let t = s.skip(1);
        let k = lemma_front_split(t);
        assert(t.skip(k) =~= s.skip(k + 1));
        assert forall|i: int| 0 <= i < k + 1 implies is_space(#[trigger] s[i]) by {
            if i > 0 {
                assert(t[i - 1] == s[i]);
            }
        }
        if k + 1 < s.len() {
            assert(t[k] == s[k + 1]);
        }
        k + 1
    } else {
        assert(s.skip(0) =~= s);
        0
    }
}

proof fn lemma_back_split(s: Seq<char>) -> (n: int)
    ensures
        0 <= n <= s.len(),
        drop_back(s, |c: char| is_space(c)) == s.take(n),
        forall|i: int| n <= i < s.len() ==> is_space(#[trigger] s[i]),
        n > 0 ==> !is_space(s[n - 1]),
    decreases s.len(),
{
    if s.len() > 0 && is_space(s.last()) {
        let t = s.drop_last();
        let k = lemma_back_split(t);
        assert(t.take(k) =~= s.take(k));
        assert forall|i: int| k <= i < s.len() implies is_space(#[trigger] s[i]) by {
            if i < t.len() {
                assert(t[i] == s[i]);
            }
        }
        if k > 0 {
            assert(t[k - 1] == s[k - 1]);
        }
        k
    } else {
        assert(s.take(s.len() as int) =~= s);
        s.len() as int
    }
}

/// Trimming takes white space from both ends and nothing else: what is left stands in the
/// text as it did, only white space stood before and after it, and it neither begins nor
/// ends with white space. Nothing is left of a text iff it is all white space.
pub proof fn law_trimming_takes_white_space_only(s: Seq<char>)
    ensures
        exists|from: int, to: int|
            0 <= from <= to <= s.len() && trimmed(s) == #[trigger] s.subrange(from, to) && (forall|
                i: int,
            |
                0 <= i < from || to <= i < s.len() ==> is_space(#[trigger] s[i])),
        trimmed(s).len() > 0 ==> !is_space(trimmed(s)[0]) && !is_space(trimmed(s).last()),
        trimmed(s).len() == 0 <==> forall|i: int| 0 <= i < s.len() ==> is_space(#[trigger] s[i]),
        trimmed(trimmed(s)) == trimmed(s),
{
    let n = lemma_front_split(s);
    let f = s.skip(n);
    let k = lemma_back_split(f);
    assert(f.take(k) =~= s.subrange(n, n + k));
    assert forall|i: int| 0 <= i < n || n + k <= i < s.len() implies is_space(#[trigger] s[i]) by {
        if i >= n {
            assert(f[i - n] == s[i]);
        }
    }
    if k > 0 {
        assert(f[0] == s[n]);
        assert(trimmed(s)[0] == s[n]);
        assert(trimmed(s).last() == f[k - 1]);
        law_nothing_to_trim(trimmed(s));
        assert(f[k - 1] == s[n + k - 1]);
    } else {
        assert(drop_front(Seq::<char>::empty(), |c: char| is_space(c)) == Seq::<char>::empty());
        assert(trimmed(s) =~= Seq::empty());
    }
}

/// Of the ASCII characters, the blank, the tabs and the line ends are white space, and no
/// others.
pub proof fn law_white_space(c: char)
    requires
        c as u32 <= 127,
    ensures
        is_space(c) <==> c == ' ' || c == '\t' || c == '\n' || c == '\r' || c as u32 == 11 || c as u32
            == 12,
{
}

/// Lower case is told letter by letter: `A` becomes `a` and so on to `Z`, and every other
/// character stays.
pub proof fn law_lower_case_letter_by_letter(s: Seq<char>, i: int)
    requires
        0 <= i < s.len(),
    ensures
        lowered(s).len() == s.len(),
        'A' <= s[i] && s[i] <= 'Z' ==> lowered(s)[i] as u32 == s[i] as u32 + ('a' as u32 - 'A' as u32),
        !('A' <= s[i] && s[i] <= 'Z') ==> lowered(s)[i] == s[i],
{
}

/// A replacement changes the one character everywhere, and no other.
pub proof fn law_replacement_changes_one_character(s: Seq<char>, from: char, to: char, i: int)
    requires
        0 <= i < s.len(),
    ensures
        replaced(s, from, to).len() == s.len(),
        s[i] == from ==> replaced(s, from, to)[i] == to,
        s[i] != from ==> replaced(s, from, to)[i] == s[i],
{
}

/// Joined texts stand one after the other, with the separator between each two.
pub proof fn law_joined_texts_stand_in_order(items: Seq<Seq<char>>, next: Seq<char>, sep: Seq<char>)
    ensures
        joined(Seq::empty(), sep) == Seq::<char>::empty(),
        joined(seq![next], sep) == next,
        items.len() > 0 ==> joined(items.push(next), sep) == joined(items, sep) + sep + next,
{
    assert(items.push(next).drop_last() =~= items);
}

/// The lines of a text that is one line, its end, and a rest are that line and the lines of
/// the rest; a line may end with a carriage return before its end.
pub proof fn law_lines_end_at_line_ends(line: Seq<char>, rest: Seq<char>)
    requires
        !line.contains('\n'),
    ensures
        line.len() == 0 || line.last() != '\r' ==> lines_of(line.push('\n') + rest) == seq![line]
            + lines_of(rest),
        lines_of(line.push('\r').push('\n') + rest) == seq![line] + lines_of(rest),
{
    let n = line.len() as int;
    let a = line.push('\n') + rest;
    lemma_count_until(a, is_char('\n'), n);
    assert(a.take(n) =~= line);
    assert(a.skip(n + 1) =~= rest);
    let b = line.push('\r').push('\n') + rest;
    assert forall|i: int| 0 <= i < line.len() + 1 implies !is_char('\n')(#[trigger] b[i]) by {
        if i < line.len() {
            assert(line.contains(line[i]));
        }
    }
    lemma_count_until(b, is_char('\n'), n + 1);
    assert(b.take(n + 1) =~= line.push('\r'));
    assert(line.push('\r').drop_last() =~= line);
    assert(b.skip(n + 2) =~= rest);
}

}
