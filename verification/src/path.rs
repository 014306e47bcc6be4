//! Paths as text, with `/` between their parts.
use crate::text::{begins, cat2, cat3, chars, same, slice_of};
use vstd::prelude::*;
use vstd::string::*;

verus! {

/// `part` below `base`. An absolute `part` stands for itself.
pub open spec fn joined_path(base: Seq<char>, part: Seq<char>) -> Seq<char> {
    if part.len() > 0 && part[0] == '/' {
        part
    } else if base.len() == 0 || base.last() == '/' {
        base + part
    } else {
        base + "/"@ + part
    }
}

/// `part` below `base`.
pub fn join(base: &str, part: &str) -> (r: String)
    ensures
        r@ == joined_path(base@, part@),
{
    let b = chars(base);
    let p = chars(part);
    if p.len() > 0 && p[0] == '/' {
        part.to_string()
    } else if b.len() == 0 || b[b.len() - 1] == '/' {
        cat2(base, part)
    } else {
        cat3(base, "/", part)
    }
}

/// The path begins at the root.
pub open spec fn is_absolute(path: Seq<char>) -> bool {
    path.len() > 0 && path[0] == '/'
}

pub fn absolute(path: &str) -> (r: bool)
    ensures
        r == is_absolute(path@),
{
    let p = chars(path);
    p.len() > 0 && p[0] == '/'
}

/// The parts of a path up to some place in it: those that have ended, the one that has
/// not, and whether that is the first.
pub struct Walk {
    pub ended: Seq<Seq<char>>,
    pub part: Seq<char>,
    pub first: bool,
}

/// The parts, the last one included. Empty parts do not count, and `.` only where it comes
/// first.
pub open spec fn parts_of(w: Walk) -> Seq<Seq<char>> {
    if w.part.len() == 0 || (w.part == seq!['.'] && !w.first) {
        w.ended
    } else {
        w.ended.push(w.part)
    }
}

pub open spec fn walked(path: Seq<char>) -> Walk
    decreases path.len(),
{
    if path.len() == 0 {
        Walk { ended: Seq::empty(), part: Seq::empty(), first: true }
    } else {
        let w = walked(path.drop_last());
        if path.last() == '/' {
            Walk { ended: parts_of(w), part: Seq::empty(), first: false }
        } else {
            Walk { part: w.part.push(path.last()), ..w }
        }
    }
}

/// The components of a path: the root, where the path is absolute, and the names between
/// the separators. Repeated separators, one at the end, and `.` parts but the first make
/// no difference.
pub open spec fn components(path: Seq<char>) -> Seq<Seq<char>> {
    if is_absolute(path) {
        seq![seq!['/']] + parts_of(walked(path))
    } else {
        parts_of(walked(path))
    }
}

fn end_part(ended: Vec<Vec<char>>, part: Vec<char>, first: bool) -> (r: Vec<Vec<char>>)
    ensures
        r.deep_view() == parts_of(Walk { ended: ended.deep_view(), part: part@, first }),
{
    if part.len() == 0 || (part.len() == 1 && part[0] == '.' && !first) {
        assert(part.len() > 0 ==> part@ =~= seq!['.']);
        ended
    } else {
        let mut out = ended;
        let ghost had = out.deep_view();
        assert(part.deep_view() =~= part@);
        out.push(part);
        assert(out.deep_view() =~= had.push(part@));
        out
    }
}

/// The components of a path.
pub fn path_components(path: &str) -> (r: Vec<Vec<char>>)
    ensures
        r.deep_view() == components(path@),
{
    let cs = chars(path);
    let ghost all = path@;
    let mut ended: Vec<Vec<char>> = Vec::new();
    let mut part: Vec<char> = Vec::new();
    let mut first = true;
    let mut i: usize = 0;
    assert(ended.deep_view() =~= Seq::empty());
    assert(all.take(0) =~= Seq::empty());
    while i < cs.len()
        invariant
            i <= cs.len(),
            cs@ == all,
            walked(all.take(i as int)) == (Walk { ended: ended.deep_view(), part: part@, first }),
        decreases cs.len() - i,
    {
        assert(all.take(i + 1).drop_last() =~= all.take(i as int));
        assert(all.take(i + 1).last() == cs[i as int]);
        if cs[i] == '/' {
            ended = end_part(ended, part, first);
            part = Vec::new();
            first = false;
        } else {
            part.push(cs[i]);
        }
        i = i + 1;
    }
    assert(all.take(i as int) =~= all);
    let parts = end_part(ended, part, first);
    if cs.len() > 0 && cs[0] == '/' {
        let mut root: Vec<char> = Vec::new();
        root.push('/');
        let mut out: Vec<Vec<char>> = Vec::new();
        assert(root.deep_view() =~= seq!['/']);
        out.push(root);
        let mut rest = parts;
        let ghost tail = rest.deep_view();
        let ghost head = out.deep_view();
        let ghost moved = rest@;
        let ghost had = out@;
        out.append(&mut rest);
        assert(out@ =~= had + moved);
        assert(out.deep_view() =~= head + tail);
        assert(head =~= seq![seq!['/']]);
        out
    } else {
        parts
    }
}

/// Two paths with the same components.
pub open spec fn is_same_path(a: Seq<char>, b: Seq<char>) -> bool {
    components(a) == components(b)
}

fn same_part(a: &Vec<char>, b: &Vec<char>) -> (r: bool)
    ensures
        r == (a.deep_view() == b.deep_view()),
{
    assert(a.deep_view() =~= a@);
    assert(b.deep_view() =~= b@);
    if a.len() != b.len() {
        return false;
    }
    let mut i: usize = 0;
    while i < a.len()
        invariant
            i <= a.len(),
            a.len() == b.len(),
            forall|j: int| 0 <= j < i ==> a[j] == b[j],
        decreases a.len() - i,
    {
        if a[i] != b[i] {
            assert(a.deep_view()[i as int] != b.deep_view()[i as int]);
            return false;
        }
        i = i + 1;
    }
    assert(a@ =~= b@);
    true
}

/// The components begin with those others.
fn parts_begin(parts: &Vec<Vec<char>>, with: &Vec<Vec<char>>) -> (r: bool)
    ensures
        r == with.deep_view().is_prefix_of(parts.deep_view()),
{
    assert(parts.deep_view().len() == parts.len());
    assert(with.deep_view().len() == with.len());
    if with.len() > parts.len() {
        return false;
    }
    let mut i: usize = 0;
    while i < with.len()
        invariant
            i <= with.len() <= parts.len(),
            forall|j: int| 0 <= j < i ==> with.deep_view()[j] == parts.deep_view()[j],
        decreases with.len() - i,
    {
        assert(with.deep_view()[i as int] == with[i as int].deep_view());
        assert(parts.deep_view()[i as int] == parts[i as int].deep_view());
        if !same_part(&with[i], &parts[i]) {
            assert(parts.deep_view().subrange(0, with.len() as int)[i as int]
                == parts.deep_view()[i as int]);
            return false;
        }
        i = i + 1;
    }
    assert(parts.deep_view().subrange(0, with.len() as int) =~= with.deep_view());
    true
}

/// The paths have the same components.
pub fn same_path(a: &str, b: &str) -> (r: bool)
    ensures
        r == is_same_path(a@, b@),
{
    let x = path_components(a);
    let y = path_components(b);
    assert(x.deep_view().len() == x.len());
    assert(y.deep_view().len() == y.len());
    let same_start = parts_begin(&x, &y);
    if x.len() == y.len() && same_start {
        assert(x.deep_view().subrange(0, y.len() as int) =~= x.deep_view());
        true
    } else {
        assert(x.deep_view() == y.deep_view() ==> y.deep_view().is_prefix_of(x.deep_view())) by {
            assert(x.deep_view().subrange(0, x.len() as int) =~= x.deep_view());
        }
        false
    }
}

/// A path lies in the directory `dir`, or is that directory: it begins with its
/// components.
pub open spec fn lies_in(path: Seq<char>, dir: Seq<char>) -> bool {
    components(dir).is_prefix_of(components(path))
}

pub fn within(path: &str, dir: &str) -> (r: bool)
    ensures
        r == lies_in(path@, dir@),
{
    parts_begin(&path_components(path), &path_components(dir))
}

/// The path without separators and `.` parts at its end.
pub open spec fn without_tail(path: Seq<char>) -> Seq<char>
    decreases path.len(),
{
    if path.len() > 0 && path.last() == '/' {
        without_tail(path.drop_last())
    } else if path.len() > 1 && path.last() == '.' && path[path.len() - 2] == '/' {
        without_tail(path.take(path.len() - 2))
    } else {
        path
    }
}

/// What stands behind the last separator.
pub open spec fn after_separator(path: Seq<char>) -> Seq<char>
    decreases path.len(),
{
    if path.len() == 0 || path.last() == '/' {
        Seq::empty()
    } else {
        after_separator(path.drop_last()).push(path.last())
    }
}

/// The last part of a path, where that is a name.
pub open spec fn last_part(path: Seq<char>) -> Option<Seq<char>> {
    let name = after_separator(without_tail(path));
    if name.len() == 0 || name == "."@ || name == ".."@ {
        None
    } else {
        Some(name)
    }
}

proof fn lemma_after_separator(path: Seq<char>, k: int)
    requires
        0 <= k <= path.len(),
        forall|i: int| k <= i < path.len() ==> #[trigger] path[i] != '/',
        k == 0 || path[k - 1] == '/',
    ensures
        after_separator(path) == path.skip(k),
    decreases path.len() - k,
{
    if k == path.len() {
        assert(path.skip(k) =~= Seq::<char>::empty());
    } else {
        let front = path.drop_last();
        assert forall|i: int| k <= i < front.len() implies #[trigger] front[i] != '/' by {
            assert(front[i] == path[i]);
        }
        lemma_after_separator(front, k);
        assert(path.skip(k) =~= front.skip(k).push(path.last()));
    }
}

/// The characters of a path, and where the name at its end begins and ends.
fn name_at_end(path: &str) -> (r: (Vec<char>, usize, usize))
    ensures
        r.0@ == path@,
        r.1 <= r.2 <= path@.len(),
        without_tail(path@) == path@.take(r.2 as int),
        after_separator(without_tail(path@)) == path@.subrange(r.1 as int, r.2 as int),
{
    let cs = chars(path);
    let mut end: usize = cs.len();
    assert(cs@.take(end as int) =~= cs@);
    while end > 0 && (cs[end - 1] == '/' || (end > 1 && cs[end - 1] == '.' && cs[end - 2] == '/'))
        invariant
            end <= cs.len(),
            cs@ == path@,
            without_tail(path@) == without_tail(cs@.take(end as int)),
        decreases end,
    {
        let ghost now = cs@.take(end as int);
        assert(now.last() == cs@[end - 1]);
        if cs[end - 1] == '/' {
            assert(now.drop_last() =~= cs@.take(end - 1));
            end = end - 1;
        } else {
            assert(now[now.len() - 2] == cs@[end - 2]);
            assert(now.take(now.len() - 2) =~= cs@.take(end - 2));
            end = end - 2;
        }
    }
    let ghost base = cs@.take(end as int);
    assert(without_tail(base) == base);
    let mut start: usize = end;
    while start > 0 && cs[start - 1] != '/'
        invariant
            start <= end <= cs.len(),
            base == cs@.take(end as int),
            forall|i: int| start <= i < end ==> #[trigger] base[i] != '/',
        decreases start,
    {
        assert(base[start - 1] == cs@[start - 1]);
        start = start - 1;
    }
    proof {
        if start > 0 {
            assert(base[start - 1] == cs@[start - 1]);
        }
        lemma_after_separator(base, start as int);
        assert(base.skip(start as int) =~= cs@.subrange(start as int, end as int));
    }
    (cs, start, end)
}

/// The last part of a path, where that is a name.
pub fn file_name(path: &str) -> (r: Option<String>)
    ensures
        r.deep_view() == last_part(path@),
{
    let (cs, start, end) = name_at_end(path);
    let name = slice_of(&cs, start, end);
    if name.as_str().is_empty() || same(name.as_str(), ".") || same(name.as_str(), "..") {
        None
    } else {
        Some(name)
    }
}

/// A name without its extension: what stands before its last dot, unless that dot is its
/// first character or there is none.
pub open spec fn stem(name: Seq<char>) -> Seq<char> {
    let k = last_dot(name);
    if k > 0 {
        name.take(k)
    } else {
        name
    }
}

/// Where the last dot stands: before the beginning where there is none.
pub open spec fn last_dot(name: Seq<char>) -> int
    decreases name.len(),
{
    if name.len() == 0 {
        -1
    } else if name.last() == '.' {
        name.len() - 1
    } else {
        last_dot(name.drop_last())
    }
}

/// The path with another extension. A path that does not end in a name stays as it is.
pub open spec fn extended(path: Seq<char>, extension: Seq<char>) -> Seq<char> {
    match last_part(path) {
        None => path,
        Some(name) => {
            let base = without_tail(path);
            base.take(base.len() - name.len()) + stem(name) + "."@ + extension
        },
    }
}

/// The path with another extension.
pub fn with_extension(path: &str, extension: &str) -> (r: String)
    ensures
        r@ == extended(path@, extension@),
{
    let (cs, start, end) = name_at_end(path);
    let name = slice_of(&cs, start, end);
    if name.as_str().is_empty() || same(name.as_str(), ".") || same(name.as_str(), "..") {
        return path.to_string();
    }
    let ghost whole = path@.subrange(start as int, end as int);
    let mut k: usize = end;
    assert(whole.take(whole.len() as int) =~= whole);
    while k > start && cs[k - 1] != '.'
        invariant
            start <= k <= end <= cs.len(),
            cs@ == path@,
            whole == path@.subrange(start as int, end as int),
            last_dot(whole) == last_dot(whole.take(k - start)),
        decreases k,
    {
        let ghost now = whole.take(k - start);
        assert(now.last() == cs@[k - 1]);
        assert(now.drop_last() =~= whole.take(k - 1 - start));
        k = k - 1;
    }
    proof {
        let now = whole.take(k - start);
        if k > start {
            assert(now.last() == cs@[k - 1]);
        }
    }
    let cut: usize = if k > start + 1 { k - 1 } else { end };
    let front = slice_of(&cs, 0, cut);
    proof {
        let base = path@.take(end as int);
        assert(base.take(base.len() - whole.len()) + stem(whole) =~= path@.subrange(0, cut as int));
    }
    cat3(front.as_str(), ".", extension)
}

// ---------------------------------------------------------------------------
// Laws
// ---------------------------------------------------------------------------

/// A part is joined to a directory with one slash between them; a part that begins at the
/// root stands alone.
pub proof fn law_parts_are_joined_with_one_slash(base: Seq<char>, part: Seq<char>)
    ensures
        part.len() > 0 && part[0] == '/' ==> joined_path(base, part) == part,
        (part.len() == 0 || part[0] != '/') && (base.len() == 0 || base.last() == '/')
            ==> joined_path(base, part) == base + part,
        (part.len() == 0 || part[0] != '/') && base.len() > 0 && base.last() != '/' ==> joined_path(
            base,
            part,
        ) == base + seq!['/'] + part,
{
    reveal_strlit("/");
    assert("/"@ =~= seq!['/']);
}

/// A path lies in itself and in the root of its kind, what lies in a directory that lies in
/// another lies in that other, and two paths that lie in each other are the same.
pub proof fn law_lying_in_a_directory(a: Seq<char>, b: Seq<char>, c: Seq<char>)
    ensures
        lies_in(a, a),
        lies_in(a, b) && lies_in(b, c) ==> lies_in(a, c),
        lies_in(a, b) && lies_in(b, a) ==> is_same_path(a, b),
        is_same_path(a, b) <==> is_same_path(b, a),
        lies_in(a, b) ==> components(b).len() <= components(a).len(),
{
    let x = components(a);
    let y = components(b);
    let z = components(c);
    assert(x.is_prefix_of(x)) by {
        assert(x =~= x.subrange(0, x.len() as int));
    }
    if lies_in(a, b) && lies_in(b, c) {
        assert(z =~= x.subrange(0, z.len() as int)) by {
            assert(y =~= x.subrange(0, y.len() as int));
            assert(z =~= y.subrange(0, z.len() as int));
        }
    }
    if lies_in(a, b) && lies_in(b, a) {
        assert(x =~= y);
    }
}

proof fn lemma_plain_walk(path: Seq<char>, name: Seq<char>)
    requires
        !name.contains('/'),
    ensures
        walked(path + seq!['/'] + name) == (Walk {
            ended: parts_of(walked(path)),
            part: name,
            first: false,
        }),
    decreases name.len(),
{
    let p = path + seq!['/'] + name;
    if name.len() == 0 {
        assert(p.drop_last() =~= path);
        assert(name =~= Seq::empty());
    } else {
        let rest = name.drop_last();
        assert forall|i: int| 0 <= i < rest.len() implies rest[i] != '/' by {
            assert(name[i] == rest[i]);
            assert(name.contains(name[i]));
        }
        assert(!rest.contains('/'));
        lemma_plain_walk(path, rest);
        assert(p.drop_last() =~= path + seq!['/'] + rest);
        assert(name[name.len() - 1] == p.last());
        assert(name.contains(p.last()));
        assert(rest.push(name.last()) =~= name);
    }
}

/// What is joined to a directory lies in it: a plain name adds one component, its own.
pub proof fn law_joined_names_lie_in_the_directory(dir: Seq<char>, name: Seq<char>)
    requires
        dir.len() > 0,
        name.len() > 0,
        !name.contains('/'),
        name != seq!['.'],
    ensures
        components(dir + seq!['/'] + name) == components(dir).push(name),
        lies_in(dir + seq!['/'] + name, dir),
{
    lemma_plain_walk(dir, name);
    let p = dir + seq!['/'] + name;
    assert(p[0] == dir[0]);
    assert(components(p) =~= components(dir).push(name));
    assert(components(dir) =~= components(p).subrange(0, components(dir).len() as int));
}

}
