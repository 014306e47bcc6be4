//! Binding nonces: the token that ties an installed configuration to the events that
//! its hook writes.
use super::types::{malformed, refuse, AdapterBindingProofError, BindingFault};
use crate::json::{text_in, value_of, Json, JsonView};
use crate::outcome::{outcome, trim_nonblank, trimmed_nonblank};
use crate::outside::{json_of, new_uuid, parse_json};
use crate::text::{
    cat2, chars, contains, control, count_until, is_control, is_space, lemma_count_until, lines,
    lines_of, lower, lowered, mentions, same, slice_of, space, trim, trim_of, trimmed, trimmed_of,
};
use vstd::prelude::*;
use vstd::string::*;
use vstd::utf8::encode_utf8;

verus! {

/// The names under which a nonce stands.
pub open spec fn is_nonce_name(name: Seq<char>) -> bool {
    let n = lowered(trimmed(name));
    n == "soma_adapter_lifecycle_binding_nonce"@ || n == "soma_adapter_binding_nonce"@ || n
        == "binding_nonce"@
}

fn names_nonce(name: &str) -> (r: bool)
    ensures
        r == is_nonce_name(name@),
{
    let l = lower(trim(name));
    let n = l.as_str();
    same(n, "soma_adapter_lifecycle_binding_nonce") || same(n, "soma_adapter_binding_nonce")
        || same(n, "binding_nonce")
}

/// The nonce that a member holds: a text that is not blank, under one of the names.
pub open spec fn member_nonce(name: Seq<char>, value: JsonView) -> Option<Seq<char>> {
    if is_nonce_name(name) {
        match value {
            JsonView::Text(s) => trimmed_nonblank(Some(s)),
            _ => None,
        }
    } else {
        None
    }
}

/// The first nonce among the members themselves.
pub open spec fn own_nonce(members: Seq<(Seq<char>, JsonView)>) -> Option<Seq<char>>
    decreases members.len(),
{
    if members.len() == 0 {
        None
    } else {
        match own_nonce(members.drop_last()) {
            Some(n) => Some(n),
            None => member_nonce(members.last().0, members.last().1),
        }
    }
}

/// The nonce in a JSON value: first among an object's own members, then inside them, in
/// order.
pub open spec fn json_nonce(v: JsonView) -> Option<Seq<char>>
    decreases v, 1nat, 0nat,
{
    match v {
        JsonView::Object(members) => match own_nonce(members) {
            Some(n) => Some(n),
            None => members_nonce(v, members.len()),
        },
        JsonView::List(items) => items_nonce(v, items.len()),
        _ => None,
    }
}

/// The first nonce inside the first `k` members.
pub open spec fn members_nonce(v: JsonView, k: nat) -> Option<Seq<char>>
    decreases v, 0nat, k,
{
    match v {
        JsonView::Object(members) => if k == 0 || k > members.len() {
            None
        } else {
            match members_nonce(v, (k - 1) as nat) {
                Some(n) => Some(n),
                None => json_nonce(members[k - 1].1),
            }
        },
        _ => None,
    }
}

/// The first nonce inside the first `k` items.
pub open spec fn items_nonce(v: JsonView, k: nat) -> Option<Seq<char>>
    decreases v, 0nat, k,
{
    match v {
        JsonView::List(items) => if k == 0 || k > items.len() {
            None
        } else {
            match items_nonce(v, (k - 1) as nat) {
                Some(n) => Some(n),
                None => json_nonce(items[k - 1]),
            }
        },
        _ => None,
    }
}

/// The nonce in a JSON value.
pub fn extract_binding_nonce_from_json(value: &Json) -> (r: Option<String>)
    ensures
        r.deep_view() == json_nonce(value@),
    decreases value,
{
    match value {
        Json::Object(members) => {
            let ghost v = value@;
            let ghost all = v->Object_0;
            let mut i: usize = 0;
            while i < members.len()
                invariant
                    i <= members.len(),
                    *value == Json::Object(*members),
                    v == value@,
                    v == JsonView::Object(all),
                    all.len() == members.len(),
                    own_nonce(all.take(i as int)) is None,
                decreases members.len() - i,
            {
                assert(all.take(i + 1).drop_last() =~= all.take(i as int));
                assert(all[i as int] == (members@[i as int].name@, value_of(
                    members@[i as int].value,
                )));
                if names_nonce(members[i].name.as_str()) {
                    match trim_nonblank(text_in(Some(&members[i].value))) {
                        Some(n) => {
                            proof {
                                lemma_own_nonce_found(all, i as int);
                            }
                            return Some(n.to_string());
                        },
                        None => {},
                    }
                }
                i = i + 1;
            }
            assert(all.take(i as int) =~= all);
            let mut k: usize = 0;
            while k < members.len()
                invariant
                    k <= members.len(),
                    *value == Json::Object(*members),
                    value matches Json::Object(x) && x == members,
                    v == value@,
                    v == JsonView::Object(all),
                    all.len() == members.len(),
                    own_nonce(all) is None,
                    members_nonce(v, k as nat) is None,
                decreases members.len() - k,
            {
                assert(decreases_to!(members@[k as int] => members@[k as int].value));
                assert(all[k as int].1 == value_of(members@[k as int].value));
                match extract_binding_nonce_from_json(&members[k].value) {
                    Some(n) => {
                        proof {
                            lemma_members_nonce_found(v, (k + 1) as nat, all.len());
                        }
                        return Some(n);
                    },
                    None => {},
                }
                k = k + 1;
            }
            None
        },
        Json::List(items) => {
            let ghost v = value@;
            let ghost all = v->List_0;
            let mut k: usize = 0;
            while k < items.len()
                invariant
                    k <= items.len(),
                    *value == Json::List(*items),
                    value matches Json::List(x) && x == items,
                    v == value@,
                    v == JsonView::List(all),
                    all.len() == items.len(),
                    items_nonce(v, k as nat) is None,
                decreases items.len() - k,
            {
                assert(all[k as int] == value_of(items@[k as int]));
                match extract_binding_nonce_from_json(&items[k]) {
                    Some(n) => {
                        proof {
                            lemma_items_nonce_found(v, (k + 1) as nat, all.len());
                        }
                        return Some(n);
                    },
                    None => {},
                }
                k = k + 1;
            }
            None
        },
        _ => None,
    }
}

proof fn lemma_own_nonce_found(members: Seq<(Seq<char>, JsonView)>, k: int)
    requires
        0 <= k < members.len(),
        own_nonce(members.take(k)) is None,
        member_nonce(members[k].0, members[k].1) is Some,
    ensures
        own_nonce(members) == member_nonce(members[k].0, members[k].1),
    decreases members.len() - k,
{
    if k == members.len() - 1 {
        assert(members.drop_last() =~= members.take(k));
    } else {
        assert(members.drop_last().take(k) =~= members.take(k));
        lemma_own_nonce_found(members.drop_last(), k);
    }
}

proof fn lemma_members_nonce_found(v: JsonView, k: nat, n: nat)
    requires
        v matches JsonView::Object(members) && k <= n <= members.len(),
        members_nonce(v, k) is Some,
    ensures
        members_nonce(v, n) == members_nonce(v, k),
    decreases n,
{
    if k < n {
        lemma_members_nonce_found(v, k, (n - 1) as nat);
    }
}

proof fn lemma_items_nonce_found(v: JsonView, k: nat, n: nat)
    requires
        v matches JsonView::List(items) && k <= n <= items.len(),
        items_nonce(v, k) is Some,
    ensures
        items_nonce(v, n) == items_nonce(v, k),
    decreases n,
{
    if k < n {
        lemma_items_nonce_found(v, k, (n - 1) as nat);
    }
}

/// A line that speaks of a nonce.
pub open spec fn mentions_nonce(line: Seq<char>) -> bool {
    contains(lowered(line), "binding_nonce"@)
}

/// A separator between a name and its value.
pub open spec fn is_separator(c: char) -> bool {
    c == '=' || c == ':'
}

/// What stands between the first and the second separator.
pub open spec fn second_field(line: Seq<char>) -> Seq<char> {
    let a = count_until(line, |c: char| is_separator(c)) as int;
    if a >= line.len() {
        Seq::empty()
    } else {
        let rest = line.skip(a + 1);
        rest.take(count_until(rest, |c: char| is_separator(c)) as int)
    }
}

/// The value on a line, without what encloses it.
pub open spec fn line_value(line: Seq<char>) -> Seq<char> {
    trimmed(
        trimmed_of(trimmed_of(trimmed_of(trimmed(second_field(line)), ','), '"'), '\''),
    )
}

/// The first nonce on a line that speaks of one.
pub open spec fn lines_nonce(list: Seq<Seq<char>>) -> Option<Seq<char>>
    decreases list.len(),
{
    if list.len() == 0 {
        None
    } else {
        match lines_nonce(list.drop_last()) {
            Some(n) => Some(n),
            None => if mentions_nonce(list.last()) && line_value(list.last()).len() > 0 {
                Some(line_value(list.last()))
            } else {
                None
            },
        }
    }
}

fn field_of(line: &str) -> (r: String)
    ensures
        r@ == second_field(line@),
{
    let cs = chars(line);
    let ghost p = |c: char| is_separator(c);
    let mut a: usize = 0;
    while a < cs.len() && !(cs[a] == '=' || cs[a] == ':')
        invariant
            a <= cs.len(),
            cs@ == line@,
            forall|j: int| 0 <= j < a ==> !is_separator(#[trigger] cs@[j]),
        decreases cs.len() - a,
    {
        a = a + 1;
    }
    proof {
        lemma_count_until(line@, p, a as int);
    }
    if a >= cs.len() {
        return String::new();
    }
    let ghost rest = line@.skip(a + 1);
    let mut b: usize = a + 1;
    while b < cs.len() && !(cs[b] == '=' || cs[b] == ':')
        invariant
            a + 1 <= b <= cs.len(),
            cs@ == line@,
            rest == line@.skip(a + 1),
            forall|j: int| 0 <= j < b - a - 1 ==> !is_separator(#[trigger] rest[j]),
        decreases cs.len() - b,
    {
        assert(rest[b - a - 1] == cs@[b as int]);
        b = b + 1;
    }
    proof {
        if b < cs.len() {
            assert(rest[b - a - 1] == cs@[b as int]);
        }
        lemma_count_until(rest, p, b - a - 1);
        assert(rest.take(b - a - 1) =~= cs@.subrange(a + 1, b as int));
    }
    slice_of(&cs, a + 1, b)
}

/// The first nonce on a line that speaks of one.
pub fn extract_binding_nonce_from_lines(raw: &str) -> (r: Option<String>)
    ensures
        r.deep_view() == lines_nonce(lines_of(raw@)),
{
    let list = lines(raw);
    let ghost all = list.deep_view();
    let mut i: usize = 0;
    while i < list.len()
        invariant
            i <= list.len(),
            all == list.deep_view(),
            all == lines_of(raw@),
            lines_nonce(all.take(i as int)) is None,
        decreases list.len() - i,
    {
        assert(all.take(i + 1).drop_last() =~= all.take(i as int));
        assert(all.take(i + 1).last() == list[i as int]@);
        let line = list[i].as_str();
        if mentions(lower(line).as_str(), "binding_nonce") {
            let field = field_of(line);
            let value = trim(
                trim_of(trim_of(trim_of(trim(field.as_str()), ','), '"'), '\''),
            );
            if !value.is_empty() {
                proof {
                    lemma_lines_nonce_found(all, i + 1);
                }
                return Some(value.to_string());
            }
        }
        i = i + 1;
    }
    assert(all.take(i as int) =~= all);
    None
}

proof fn lemma_lines_nonce_found(list: Seq<Seq<char>>, k: int)
    requires
        0 <= k <= list.len(),
        lines_nonce(list.take(k)) is Some,
    ensures
        lines_nonce(list) == lines_nonce(list.take(k)),
    decreases list.len() - k,
{
    if k == list.len() {
        assert(list.take(k) =~= list);
    } else {
        assert(list.drop_last().take(k) =~= list.take(k));
        lemma_lines_nonce_found(list.drop_last(), k);
    }
}

/// The nonce in a configuration: in its JSON, or else on its lines.
pub open spec fn config_nonce(parsed: Result<JsonView, Seq<char>>, raw: Seq<char>) -> Option<
    Seq<char>,
> {
    let by_json = match parsed {
        Ok(v) => json_nonce(v),
        Err(_) => None,
    };
    match by_json {
        Some(n) => Some(n),
        None => lines_nonce(lines_of(raw)),
    }
}

/// The nonce in a configuration, of which the JSON was read.
pub fn binding_nonce_of(parsed: &Result<Json, String>, raw: &str) -> (r: Option<String>)
    ensures
        r.deep_view() == config_nonce(
            match parsed {
                Ok(j) => Ok(j@),
                Err(e) => Err(e@),
            },
            raw@,
        ),
{
    match parsed {
        Ok(j) => {
            match extract_binding_nonce_from_json(j) {
                Some(n) => return Some(n),
                None => {},
            }
        },
        Err(_) => {},
    }
    extract_binding_nonce_from_lines(raw)
}

/// The nonce in the text of a configuration.
pub fn extract_binding_nonce_from_text(raw: &str) -> (r: Option<String>)
    ensures
        r.deep_view() == config_nonce(json_of(raw@), raw@),
{
    binding_nonce_of(&parse_json(raw), raw)
}

// ---------------------------------------------------------------------------
// Nonces that are given or made
// ---------------------------------------------------------------------------

/// A nonce that may be given: a token of at most 256 bytes without white space or
/// control characters.
pub open spec fn normalized_nonce(value: Seq<char>) -> Result<Seq<char>, BindingFault> {
    let t = trimmed(value);
    if t.len() == 0 {
        malformed("--binding-nonce must not be empty"@)
    } else if encode_utf8(t).len() > 256 {
        malformed("--binding-nonce must be at most 256 bytes"@)
    } else if exists|i: int| 0 <= i < t.len() && (is_space(#[trigger] t[i]) || is_control(t[i])) {
        malformed("--binding-nonce must be a single opaque token without whitespace"@)
    } else {
        Ok(t)
    }
}

pub fn normalize_binding_nonce(value: &str) -> (r: Result<String, AdapterBindingProofError>)
    ensures
        outcome(r) == normalized_nonce(value@),
{
    let t = trim(value);
    if t.is_empty() {
        return refuse("--binding-nonce must not be empty");
    }
    if t.as_bytes().len() > 256 {
        return refuse("--binding-nonce must be at most 256 bytes");
    }
    let cs = chars(t);
    let mut i: usize = 0;
    while i < cs.len()
        invariant
            i <= cs.len(),
            cs@ == t@,
            t@ == trimmed(value@),
            t@.len() > 0,
            encode_utf8(t@).len() <= 256,
            forall|j: int| 0 <= j < i ==> !(is_space(#[trigger] t@[j]) || is_control(t@[j])),
        decreases cs.len() - i,
    {
        if space(cs[i]) || control(cs[i]) {
            assert(is_space(t@[i as int]) || is_control(t@[i as int]));
            return refuse("--binding-nonce must be a single opaque token without whitespace");
        }
        i = i + 1;
    }
    Ok(t.to_string())
}

/// A nonce made here: a prefix and a random identifier.
pub open spec fn is_made_nonce(s: Seq<char>) -> bool {
    exists|id: Seq<char>|
        #[trigger] crate::outside::is_uuid_text(id) && s == "soma-bind-"@ + id
}

/// A nonce and whether it is new, or why there is none, by what they hold.
pub open spec fn nonce_view(r: Result<(String, bool), AdapterBindingProofError>) -> Result<
    (Seq<char>, bool),
    BindingFault,
> {
    match r {
        Ok(p) => Ok((p.0@, p.1)),
        Err(e) => Err(e.deep_view()),
    }
}

/// What may come of asking for a nonce: the one that is given, if it can be one, and
/// where none is given a new one.
pub open spec fn nonce_allowed(
    given: Option<Seq<char>>,
    r: Result<(Seq<char>, bool), BindingFault>,
) -> bool {
    match given {
        Some(v) => match normalized_nonce(v) {
            Ok(n) => r == Ok::<(Seq<char>, bool), BindingFault>((n, false)),
            Err(f) => r == Err::<(Seq<char>, bool), BindingFault>(f),
        },
        None => r matches Ok(p) && is_made_nonce(p.0) && p.1,
    }
}

/// The nonce for a configuration: as given, else a new one. The second part of the
/// result tells whether it is new.
pub fn resolve_binding_nonce_for_prepare(given: Option<&str>) -> (r: Result<
    (String, bool),
    AdapterBindingProofError,
>)
    ensures
        nonce_allowed(given.deep_view(), nonce_view(r)),
{
    match given {
        Some(v) => match normalize_binding_nonce(v) {
            Ok(n) => Ok((n, false)),
            Err(e) => Err(e),
        },
        None => {
            let id = new_uuid();
            let nonce = cat2("soma-bind-", id.as_str());
            assert(is_made_nonce(nonce@)) by {
                assert(crate::outside::is_uuid_text(id@));
            }
            Ok((nonce, true))
        },
    }
}

}
