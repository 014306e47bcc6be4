//! JSON values: what a value holds, reading it, and building one.
use crate::dup::Dup;
use crate::text::{before, comes_before, none, same, with};
use vstd::prelude::*;

verus! {

/// A JSON value. A number that is no integer is kept as its text. The members of an
/// object stand in the order in which they were read or put in.
#[derive(Debug)]
pub enum Json {
    Null,
    Bool(bool),
    Int(i128),
    Float(String),
    Text(String),
    List(Vec<Json>),
    Object(Vec<Member>),
}

/// A member of an object.
#[derive(Debug)]
pub struct Member {
    pub name: String,
    pub value: Json,
}

/// What a JSON value holds.
pub enum JsonView {
    Null,
    Bool(bool),
    Int(int),
    Float(Seq<char>),
    Text(Seq<char>),
    List(Seq<JsonView>),
    Object(Seq<(Seq<char>, JsonView)>),
}

pub open spec fn value_of(j: Json) -> JsonView
    decreases j,
{
    match j {
        Json::Null => JsonView::Null,
        Json::Bool(b) => JsonView::Bool(b),
        Json::Int(i) => JsonView::Int(i as int),
        Json::Float(s) => JsonView::Float(s@),
        Json::Text(s) => JsonView::Text(s@),
        Json::List(items) => JsonView::List(
            Seq::new(
                items@.len(),
                |i: int| if 0 <= i < items@.len() { value_of(items@[i]) } else { JsonView::Null },
            ),
        ),
        Json::Object(members) => JsonView::Object(
            Seq::new(
                members@.len(),
                |i: int|
                    if 0 <= i < members@.len() {
                        (members@[i].name@, value_of(members@[i].value))
                    } else {
                        (Seq::empty(), JsonView::Null)
                    },
            ),
        ),
    }
}

impl View for Json {
    type V = JsonView;

    open spec fn view(&self) -> JsonView {
        value_of(*self)
    }
}

impl DeepView for Json {
    type V = JsonView;

    open spec fn deep_view(&self) -> JsonView {
        value_of(*self)
    }
}

/// The first member called `name`.
pub open spec fn find(members: Seq<(Seq<char>, JsonView)>, name: Seq<char>) -> Option<JsonView>
    decreases members.len(),
{
    if members.len() == 0 {
        None
    } else if members[0].0 == name {
        Some(members[0].1)
    } else {
        find(members.skip(1), name)
    }
}

/// The member called `name`, where `v` is an object that has one.
pub open spec fn get(v: JsonView, name: Seq<char>) -> Option<JsonView> {
    match v {
        JsonView::Object(members) => find(members, name),
        _ => None,
    }
}

/// The member called `inner` of the member called `outer`.
pub open spec fn at(v: JsonView, outer: Seq<char>, inner: Seq<char>) -> Option<JsonView> {
    match get(v, outer) {
        Some(m) => get(m, inner),
        None => None,
    }
}

pub open spec fn as_text(v: Option<JsonView>) -> Option<Seq<char>> {
    match v {
        Some(JsonView::Text(s)) => Some(s),
        _ => None,
    }
}

pub open spec fn as_bool(v: Option<JsonView>) -> Option<bool> {
    match v {
        Some(JsonView::Bool(b)) => Some(b),
        _ => None,
    }
}

/// The integer, where it is one that an `i64` can hold.
pub open spec fn as_i64(v: Option<JsonView>) -> Option<i64> {
    match v {
        Some(JsonView::Int(i)) => if i64::MIN <= i <= i64::MAX {
            Some(i as i64)
        } else {
            None
        },
        _ => None,
    }
}

/// The integer, where it is one that a `u64` can hold.
pub open spec fn as_u64(v: Option<JsonView>) -> Option<u64> {
    match v {
        Some(JsonView::Int(i)) => if 0 <= i <= u64::MAX {
            Some(i as u64)
        } else {
            None
        },
        _ => None,
    }
}

pub open spec fn as_list(v: Option<JsonView>) -> Option<Seq<JsonView>> {
    match v {
        Some(JsonView::List(items)) => Some(items),
        _ => None,
    }
}

/// How many items the list has: none where it is no list.
pub open spec fn list_len(v: Option<JsonView>) -> nat {
    match as_list(v) {
        Some(items) => items.len(),
        None => 0,
    }
}

/// The texts among the items.
pub open spec fn texts_in(items: Seq<JsonView>) -> Seq<Seq<char>>
    decreases items.len(),
{
    if items.len() == 0 {
        Seq::empty()
    } else {
        match items.last() {
            JsonView::Text(s) => texts_in(items.drop_last()).push(s),
            _ => texts_in(items.drop_last()),
        }
    }
}

/// The texts in a list: none where it is no list.
pub open spec fn list_texts(v: Option<JsonView>) -> Seq<Seq<char>> {
    match as_list(v) {
        Some(items) => texts_in(items),
        None => Seq::empty(),
    }
}

/// A text, or null where it is missing.
pub open spec fn opt_text(s: Option<Seq<char>>) -> JsonView {
    match s {
        Some(s) => JsonView::Text(s),
        None => JsonView::Null,
    }
}

/// An integer, or null where it is missing.
pub open spec fn opt_int(v: Option<i64>) -> JsonView {
    match v {
        Some(i) => JsonView::Int(i as int),
        None => JsonView::Null,
    }
}

/// A truth value, or null where it is missing.
pub open spec fn opt_bool(v: Option<bool>) -> JsonView {
    match v {
        Some(b) => JsonView::Bool(b),
        None => JsonView::Null,
    }
}

/// A list of texts.
pub open spec fn text_list(items: Seq<Seq<char>>) -> JsonView {
    JsonView::List(Seq::new(items.len(), |i: int| JsonView::Text(items[i])))
}

/// A list of integers.
pub open spec fn number_list(items: Seq<i64>) -> JsonView {
    JsonView::List(Seq::new(items.len(), |i: int| JsonView::Int(items[i] as int)))
}

/// The names of an object are in order, each once.
pub open spec fn names_ordered(members: Seq<(Seq<char>, JsonView)>) -> bool {
    forall|i: int, j: int|
        0 <= i < j < members.len() ==> before((#[trigger] members[i]).0, (#[trigger] members[j]).0)
}

/// A value as JSON text holds one: integers of 64 bits, objects with their names in
/// order, each once, and at most `depth` lists and objects inside one another. Where
/// `floats` does not hold, all its numbers are integers.
pub open spec fn is_tidy(v: JsonView, depth: nat, floats: bool) -> bool
    decreases v,
{
    match v {
        JsonView::Int(i) => i64::MIN <= i <= u64::MAX,
        JsonView::Float(_) => floats,
        JsonView::List(items) => depth > 0 && forall|i: int|
            0 <= i < items.len() ==> is_tidy(#[trigger] items[i], (depth - 1) as nat, floats),
        JsonView::Object(members) => depth > 0 && names_ordered(members) && forall|i: int|
            0 <= i < members.len() ==> is_tidy(
                (#[trigger] members[i]).1,
                (depth - 1) as nat,
                floats,
            ),
        _ => true,
    }
}

/// The text that a value is.
pub fn text_in(v: Option<&Json>) -> (r: Option<&str>)
    ensures
        r.deep_view() == as_text(v.deep_view()),
{
    match v {
        Some(Json::Text(s)) => Some(s.as_str()),
        _ => None,
    }
}

/// The items of the list that a value is.
pub fn list_in(v: Option<&Json>) -> (r: Option<&Vec<Json>>)
    ensures
        r.deep_view() == as_list(v.deep_view()),
{
    match v {
        Some(Json::List(items)) => {
            assert(items.deep_view() =~= value_of(*v->0)->List_0);
            Some(items)
        },
        _ => None,
    }
}

/// The texts in the list that a value is.
pub fn texts_of(v: Option<&Json>) -> (r: Vec<String>)
    ensures
        r.deep_view() == list_texts(v.deep_view()),
{
    let mut out: Vec<String> = none();
    match list_in(v) {
        Some(items) => {
            let ghost all = items.deep_view();
            let mut i: usize = 0;
            while i < items.len()
                invariant
                    i <= items.len(),
                    all == items.deep_view(),
                    out.deep_view() == texts_in(all.take(i as int)),
                decreases items.len() - i,
            {
                assert(all.take(i + 1).drop_last() =~= all.take(i as int));
                assert(all.take(i + 1).last() == items@[i as int].deep_view());
                match &items[i] {
                    Json::Text(s) => {
                        out = with(out, s.clone());
                    },
                    _ => {},
                }
                i = i + 1;
            }
            assert(all.take(i as int) =~= all);
        },
        None => {},
    }
    out
}

/// How many items the list that a value is has.
pub fn count_of(v: Option<&Json>) -> (r: usize)
    ensures
        r == list_len(v.deep_view()),
{
    match list_in(v) {
        Some(items) => {
            assert(items.deep_view().len() == items.len());
            items.len()
        },
        None => 0,
    }
}

impl Json {
    /// The member called `name`, where the value is an object that has one.
    pub fn get(&self, name: &str) -> (r: Option<&Json>)
        ensures
            r.deep_view() == get(self@, name@),
    {
        match self {
            Json::Object(members) => {
                let ghost all = self@->Object_0;
                let mut i: usize = 0;
                assert(all.skip(0) =~= all);
                while i < members.len()
                    invariant
                        i <= members.len(),
                        self@ == JsonView::Object(all),
                        all.len() == members.len(),
                        *self == Json::Object(*members),
                        find(all, name@) == find(all.skip(i as int), name@),
                    decreases members.len() - i,
                {
                    let ghost rest = all.skip(i as int);
                    assert(rest[0] == (members@[i as int].name@, members@[i as int].value@));
                    if same(members[i].name.as_str(), name) {
                        return Some(&members[i].value);
                    }
                    assert(rest.skip(1) =~= all.skip(i + 1));
                    i = i + 1;
                }
                None
            },
            _ => None,
        }
    }

    /// The member called `inner` of the member called `outer`.
    pub fn at(&self, outer: &str, inner: &str) -> (r: Option<&Json>)
        ensures
            r.deep_view() == at(self@, outer@, inner@),
    {
        match self.get(outer) {
            Some(m) => m.get(inner),
            None => None,
        }
    }

    /// The text in the member called `name`.
    pub fn get_text(&self, name: &str) -> (r: Option<&str>)
        ensures
            r.deep_view() == as_text(get(self@, name@)),
    {
        text_in(self.get(name))
    }

    /// The integer in the member called `name`.
    pub fn get_i64(&self, name: &str) -> (r: Option<i64>)
        ensures
            r == as_i64(get(self@, name@)),
    {
        match self.get(name) {
            Some(Json::Int(i)) => {
                let i: i128 = *i;
                if i64::MIN as i128 <= i && i <= i64::MAX as i128 {
                    Some(i as i64)
                } else {
                    None
                }
            },
            _ => None,
        }
    }

    /// The integer in the member called `name`.
    pub fn get_u64(&self, name: &str) -> (r: Option<u64>)
        ensures
            r == as_u64(get(self@, name@)),
    {
        match self.get(name) {
            Some(Json::Int(i)) => {
                let i: i128 = *i;
                if 0 <= i && i <= u64::MAX as i128 {
                    Some(i as u64)
                } else {
                    None
                }
            },
            _ => None,
        }
    }

    /// The truth value in the member called `name`.
    pub fn get_bool(&self, name: &str) -> (r: Option<bool>)
        ensures
            r == as_bool(get(self@, name@)),
    {
        match self.get(name) {
            Some(Json::Bool(b)) => Some(*b),
            _ => None,
        }
    }

    /// The list in the member called `name`.
    pub fn get_list(&self, name: &str) -> (r: Option<&Vec<Json>>)
        ensures
            r.deep_view() == as_list(get(self@, name@)),
    {
        list_in(self.get(name))
    }

    /// A list of values.
    pub fn list(items: Vec<Json>) -> (r: Json)
        ensures
            r@ == JsonView::List(items.deep_view()),
    {
        let r = Json::List(items);
        assert(r@->List_0 =~= items.deep_view());
        r
    }

    /// A list of integers.
    pub fn numbers(items: &Vec<i64>) -> (r: Json)
        ensures
            r@ == number_list(items@),
    {
        let mut out: Vec<Json> = none();
        let mut i: usize = 0;
        while i < items.len()
            invariant
                i <= items.len(),
                out.deep_view() =~= Seq::new(i as nat, |k: int| JsonView::Int(items@[k] as int)),
            decreases items.len() - i,
        {
            out = with(out, Json::Int(items[i] as i128));
            i = i + 1;
        }
        Json::list(out)
    }

    /// A list of texts.
    pub fn texts(items: &Vec<String>) -> (r: Json)
        ensures
            r@ == text_list(items.deep_view()),
    {
        let mut list: Vec<Json> = Vec::new();
        let mut i: usize = 0;
        while i < items.len()
            invariant
                i <= items.len(),
                list.len() == i,
                forall|j: int| 0 <= j < i ==> value_of(#[trigger] list@[j])
                    == JsonView::Text(items@[j]@),
            decreases items.len() - i,
        {
            let v = Json::Text(items[i].clone());
            assert(value_of(v) == JsonView::Text(items@[i as int]@));
            list.push(v);
            i = i + 1;
        }
        let r = Json::List(list);
        assert(r@->List_0 =~= text_list(items.deep_view())->List_0);
        r
    }
}

/// Members, and one more where it is there.
pub open spec fn with_member(
    m: Seq<(Seq<char>, JsonView)>,
    name: Seq<char>,
    value: Option<JsonView>,
) -> Seq<(Seq<char>, JsonView)> {
    match value {
        Some(v) => m.push((name, v)),
        None => m,
    }
}

/// A text as a value, where it is there.
pub open spec fn some_text(s: Option<Seq<char>>) -> Option<JsonView> {
    match s {
        Some(s) => Some(JsonView::Text(s)),
        None => None,
    }
}

/// An object that is being put together, member by member.
pub struct Members {
    list: Vec<Member>,
}

impl View for Members {
    type V = Seq<(Seq<char>, JsonView)>;

    closed spec fn view(&self) -> Seq<(Seq<char>, JsonView)> {
        Seq::new(
            self.list@.len(),
            |i: int| (self.list@[i].name@, value_of(self.list@[i].value)),
        )
    }
}

impl Members {
    /// No member yet.
    pub fn new() -> (r: Members)
        ensures
            r@ == Seq::<(Seq<char>, JsonView)>::empty(),
    {
        let r = Members { list: Vec::new() };
        assert(r@ =~= Seq::<(Seq<char>, JsonView)>::empty());
        r
    }

    /// One more member.
    pub fn put(self, name: &str, value: Json) -> (r: Members)
        ensures
            r@ == self@.push((name@, value@)),
    {
        let mut list = self.list;
        list.push(Member { name: name.to_string(), value });
        let r = Members { list };
        assert(r@ =~= self@.push((name@, value@)));
        r
    }

    /// A text as one more member.
    pub fn text(self, name: &str, value: &str) -> (r: Members)
        ensures
            r@ == self@.push((name@, JsonView::Text(value@))),
    {
        let v = Json::Text(value.to_string());
        assert(v@ == JsonView::Text(value@));
        self.put(name, v)
    }

    /// A text, or null, as one more member.
    pub fn opt_text(self, name: &str, value: Option<&str>) -> (r: Members)
        ensures
            r@ == self@.push((name@, opt_text(value.deep_view()))),
    {
        match value {
            Some(s) => self.text(name, s),
            None => self.null(name),
        }
    }

    /// A truth value as one more member.
    pub fn flag(self, name: &str, value: bool) -> (r: Members)
        ensures
            r@ == self@.push((name@, JsonView::Bool(value))),
    {
        let v = Json::Bool(value);
        assert(v@ == JsonView::Bool(value));
        self.put(name, v)
    }

    /// An integer as one more member.
    pub fn integer(self, name: &str, value: i128) -> (r: Members)
        ensures
            r@ == self@.push((name@, JsonView::Int(value as int))),
    {
        let v = Json::Int(value);
        assert(v@ == JsonView::Int(value as int));
        self.put(name, v)
    }

    /// Null as one more member.
    pub fn null(self, name: &str) -> (r: Members)
        ensures
            r@ == self@.push((name@, JsonView::Null)),
    {
        let v = Json::Null;
        assert(v@ == JsonView::Null);
        self.put(name, v)
    }

    /// An integer, or null, as one more member.
    pub fn opt_integer(self, name: &str, value: Option<i64>) -> (r: Members)
        ensures
            r@ == self@.push((name@, opt_int(value))),
    {
        match value {
            Some(i) => self.integer(name, i as i128),
            None => self.null(name),
        }
    }

    /// A truth value, or null, as one more member.
    pub fn opt_flag(self, name: &str, value: Option<bool>) -> (r: Members)
        ensures
            r@ == self@.push((name@, opt_bool(value))),
    {
        match value {
            Some(b) => self.flag(name, b),
            None => self.null(name),
        }
    }

    /// A list of texts as one more member.
    pub fn texts(self, name: &str, value: &Vec<String>) -> (r: Members)
        ensures
            r@ == self@.push((name@, text_list(value.deep_view()))),
    {
        self.put(name, Json::texts(value))
    }

    /// One more member, where it is there.
    pub fn maybe(self, name: &str, value: Option<Json>) -> (r: Members)
        ensures
            r@ == with_member(self@, name@, value.deep_view()),
    {
        match value {
            Some(v) => self.put(name, v),
            None => self,
        }
    }

    /// A text as one more member, where it is there.
    pub fn maybe_text(self, name: &str, value: Option<&str>) -> (r: Members)
        ensures
            r@ == with_member(self@, name@, some_text(value.deep_view())),
    {
        match value {
            Some(s) => self.text(name, s),
            None => self,
        }
    }

    /// An object as one more member.
    pub fn object(self, name: &str, value: Members) -> (r: Members)
        ensures
            r@ == self@.push((name@, JsonView::Object(value@))),
    {
        self.put(name, value.done())
    }

    /// The object.
    pub fn done(self) -> (r: Json)
        ensures
            r@ == JsonView::Object(self@),
    {
        let r = Json::Object(self.list);
        assert(r@->Object_0 =~= self@);
        r
    }
}

// ---------------------------------------------------------------------------
// Objects, member by member
// ---------------------------------------------------------------------------

/// The members with one more, at its place in the order of names.
pub open spec fn member_put(
    m: Seq<(Seq<char>, JsonView)>,
    name: Seq<char>,
    value: JsonView,
) -> Seq<(Seq<char>, JsonView)>
    decreases m.len(),
{
    if m.len() == 0 {
        Seq::empty().push((name, value))
    } else if before(name, m[0].0) {
        seq![(name, value)] + m
    } else {
        seq![m[0]] + member_put(m.skip(1), name, value)
    }
}

proof fn lemma_member_put(
    m: Seq<(Seq<char>, JsonView)>,
    name: Seq<char>,
    value: JsonView,
    k: int,
)
    requires
        0 <= k <= m.len(),
        forall|i: int| 0 <= i < k ==> !before(name, (#[trigger] m[i]).0),
        k < m.len() ==> before(name, m[k].0),
    ensures
        member_put(m, name, value) == m.insert(k, (name, value)),
    decreases k,
{
    if k == 0 {
        if m.len() > 0 {
            assert(seq![(name, value)] + m =~= m.insert(0, (name, value)));
        } else {
            assert(Seq::<(Seq<char>, JsonView)>::empty().push((name, value)) =~= m.insert(
                0,
                (name, value),
            ));
        }
    } else {
        let t = m.skip(1);
        assert(!before(name, m[0].0));
        assert forall|i: int| 0 <= i < k - 1 implies !before(name, (#[trigger] t[i]).0) by {
            assert(t[i] == m[i + 1]);
        }
        if k < m.len() {
            assert(t[k - 1] == m[k]);
        }
        lemma_member_put(t, name, value, k - 1);
        assert(seq![m[0]] + t.insert(k - 1, (name, value)) =~= m.insert(k, (name, value)));
    }
}

/// The members, with a text that was missing.
pub open spec fn filled(
    m: Seq<(Seq<char>, JsonView)>,
    name: Seq<char>,
    value: Option<Seq<char>>,
) -> Seq<(Seq<char>, JsonView)> {
    match value {
        Some(v) => if find(m, name) is None {
            member_put(m, name, JsonView::Text(v))
        } else {
            m
        },
        None => m,
    }
}

/// The members of an object.
pub open spec fn members_view(m: Seq<Member>) -> Seq<(Seq<char>, JsonView)> {
    Seq::new(m.len(), |i: int| (m[i].name@, m[i].value@))
}

/// Whether an object has a member.
pub fn has_member(m: &Vec<Member>, name: &str) -> (r: bool)
    ensures
        r == (find(members_view(m@), name@) is Some),
{
    let ghost all = members_view(m@);
    let mut i: usize = 0;
    assert(all.skip(0) =~= all);
    while i < m.len()
        invariant
            i <= m.len(),
            all == members_view(m@),
            find(all, name@) == find(all.skip(i as int), name@),
        decreases m.len() - i,
    {
        assert(all.skip(i as int)[0] == all[i as int]);
        if same(m[i].name.as_str(), name) {
            return true;
        }
        assert(all.skip(i as int).skip(1) =~= all.skip(i + 1));
        i = i + 1;
    }
    false
}

/// The members without those of a name.
pub open spec fn member_removed(m: Seq<(Seq<char>, JsonView)>, name: Seq<char>) -> Seq<
    (Seq<char>, JsonView),
>
    decreases m.len(),
{
    if m.len() == 0 {
        Seq::empty()
    } else if m.last().0 == name {
        member_removed(m.drop_last(), name)
    } else {
        member_removed(m.drop_last(), name).push(m.last())
    }
}

/// The members without those of a name.
pub fn remove_member(m: Vec<Member>, name: &str) -> (r: Vec<Member>)
    ensures
        members_view(r@) == member_removed(members_view(m@), name@),
{
    let ghost all = members_view(m@);
    let mut out: Vec<Member> = Vec::new();
    let mut i: usize = 0;
    assert(members_view(out@) =~= Seq::empty());
    while i < m.len()
        invariant
            i <= m.len(),
            all == members_view(m@),
            members_view(out@) == member_removed(all.take(i as int), name@),
        decreases m.len() - i,
    {
        assert(all.take(i + 1).drop_last() =~= all.take(i as int));
        assert(all.take(i + 1).last() == all[i as int]);
        if !same(m[i].name.as_str(), name) {
            let ghost was = members_view(out@);
            let copy = Member { name: m[i].name.clone(), value: m[i].value.dup() };
            let ghost shown = (copy.name@, copy.value@);
            out.push(copy);
            assert(members_view(out@) =~= was.push(shown));
        }
        i = i + 1;
    }
    assert(all.take(i as int) =~= all);
    out
}

/// Puts a member at its place in the order of names.
fn place_member(m: &mut Vec<Member>, name: &str, value: Json)
    ensures
        members_view(final(m)@) == member_put(members_view(old(m)@), name@, value@),
{
    let ghost was = members_view(m@);
    let mut k: usize = 0;
    while k < m.len() && !comes_before(name, m[k].name.as_str())
        invariant
            k <= m.len(),
            was == members_view(m@),
            forall|i: int| 0 <= i < k ==> !before(name@, (#[trigger] was[i]).0),
        decreases m.len() - k,
    {
        k = k + 1;
    }
    let ghost shown = value@;
    proof {
        lemma_member_put(was, name@, shown, k as int);
    }
    m.insert(k, Member { name: name.to_string(), value });
    assert(members_view(m@) =~= was.insert(k as int, (name@, shown)));
}

/// Puts a text into an object, unless it has a member of that name.
pub fn put_missing(m: &mut Vec<Member>, name: &str, value: Option<&str>)
    ensures
        members_view(final(m)@) == filled(members_view(old(m)@), name@, value.deep_view()),
{
    let v = match value {
        Some(v) => v,
        None => return,
    };
    if has_member(m, name) {
        return;
    }
    place_member(m, name, Json::Text(v.to_string()));
}

/// The members, with one of this name that holds this value.
pub open spec fn member_set(
    m: Seq<(Seq<char>, JsonView)>,
    name: Seq<char>,
    value: JsonView,
) -> Seq<(Seq<char>, JsonView)> {
    member_put(member_removed(m, name), name, value)
}

/// Puts a member into an object, in place of one of the same name.
pub fn set_member(m: Vec<Member>, name: &str, value: Json) -> (r: Vec<Member>)
    ensures
        members_view(r@) == member_set(members_view(m@), name@, value@),
{
    let mut out = remove_member(m, name);
    place_member(&mut out, name, value);
    out
}

/// The text of a member.
pub fn member_text<'a>(m: &'a Vec<Member>, name: &str) -> (r: Option<&'a str>)
    ensures
        r.deep_view() == as_text(find(members_view(m@), name@)),
{
    let ghost all = members_view(m@);
    let mut i: usize = 0;
    assert(all.skip(0) =~= all);
    while i < m.len()
        invariant
            i <= m.len(),
            all == members_view(m@),
            find(all, name@) == find(all.skip(i as int), name@),
        decreases m.len() - i,
    {
        assert(all.skip(i as int)[0] == all[i as int]);
        if same(m[i].name.as_str(), name) {
            return text_in(Some(&m[i].value));
        }
        assert(all.skip(i as int).skip(1) =~= all.skip(i + 1));
        i = i + 1;
    }
    None
}

/// An object with these members.
pub fn object_of(m: Vec<Member>) -> (r: Json)
    ensures
        r@ == JsonView::Object(members_view(m@)),
{
    let r = Json::Object(m);
    assert(r@->Object_0 =~= members_view(m@));
    r
}

/// The members of an object.
pub fn members_of(j: Json) -> (r: Option<Vec<Member>>)
    ensures
        match r {
            Some(m) => j@ == JsonView::Object(members_view(m@)),
            None => !(j@ is Object),
        },
{
    match j {
        Json::Object(m) => {
            let ghost v = value_of(Json::Object(m));
            assert(v->Object_0 =~= members_view(m@));
            Some(m)
        },
        _ => None,
    }
}

// ---------------------------------------------------------------------------
// Laws
// ---------------------------------------------------------------------------

proof fn lemma_put_len(m: Seq<(Seq<char>, JsonView)>, name: Seq<char>, value: JsonView)
    ensures
        member_put(m, name, value).len() == m.len() + 1,
    decreases m.len(),
{
    if m.len() > 0 && !before(name, m[0].0) {
        lemma_put_len(m.skip(1), name, value);
    }
}

/// A member that is put in is found, and every other is found as before.
pub proof fn law_put_member_is_found(
    m: Seq<(Seq<char>, JsonView)>,
    name: Seq<char>,
    value: JsonView,
    other: Seq<char>,
)
    ensures
        find(m, name) is None ==> find(member_put(m, name, value), name) == Some(value),
        other != name ==> find(member_put(m, name, value), other) == find(m, other),
    decreases m.len(),
{
    let r = member_put(m, name, value);
    lemma_put_len(m, name, value);
    if m.len() == 0 {
        assert(r.skip(1) =~= m);
    } else if before(name, m[0].0) {
        assert(r.skip(1) =~= m);
    } else {
        law_put_member_is_found(m.skip(1), name, value, other);
        assert(r[0] == m[0]);
        assert(r.skip(1) =~= member_put(m.skip(1), name, value));
    }
}

proof fn lemma_find_push(
    m: Seq<(Seq<char>, JsonView)>,
    x: (Seq<char>, JsonView),
    name: Seq<char>,
)
    ensures
        find(m.push(x), name) == (if find(m, name) is Some {
            find(m, name)
        } else if x.0 == name {
            Some(x.1)
        } else {
            None
        }),
    decreases m.len(),
{
    if m.len() == 0 {
        assert(m.push(x).skip(1) =~= m);
    } else {
        assert(m.push(x).skip(1) =~= m.skip(1).push(x));
        lemma_find_push(m.skip(1), x, name);
    }
}

proof fn lemma_find_removed(m: Seq<(Seq<char>, JsonView)>, name: Seq<char>, other: Seq<char>)
    ensures
        find(member_removed(m, name), name) is None,
        other != name ==> find(member_removed(m, name), other) == find(m, other),
    decreases m.len(),
{
    if m.len() > 0 {
        let front = m.drop_last();
        lemma_find_removed(front, name, other);
        assert(front.push(m.last()) =~= m);
        lemma_find_push(front, m.last(), other);
        lemma_find_push(member_removed(front, name), m.last(), other);
        lemma_find_push(member_removed(front, name), m.last(), name);
    }
}

/// A member that is set is found with its new value, and every other is found as before.
pub proof fn law_set_member_is_found(
    m: Seq<(Seq<char>, JsonView)>,
    name: Seq<char>,
    value: JsonView,
    other: Seq<char>,
)
    ensures
        find(member_set(m, name, value), name) == Some(value),
        other != name ==> find(member_set(m, name, value), other) == find(m, other),
{
    lemma_find_removed(m, name, other);
    law_put_member_is_found(member_removed(m, name), name, value, other);
    law_put_member_is_found(member_removed(m, name), name, value, name);
}

/// Filling in a missing text never changes a member that is there.
pub proof fn law_filling_in_keeps_members(
    m: Seq<(Seq<char>, JsonView)>,
    name: Seq<char>,
    value: Option<Seq<char>>,
    other: Seq<char>,
)
    ensures
        find(m, other) is Some ==> find(filled(m, name, value), other) == find(m, other),
        find(m, name) is None && value is Some ==> find(filled(m, name, value), name) == Some(
            JsonView::Text(value->0),
        ),
{
    if value is Some && find(m, name) is None {
        law_put_member_is_found(m, name, JsonView::Text(value->0), other);
        law_put_member_is_found(m, name, JsonView::Text(value->0), name);
    }
}

proof fn lemma_find_none(m: Seq<(Seq<char>, JsonView)>, name: Seq<char>, i: int)
    requires
        find(m, name) is None,
        0 <= i < m.len(),
    ensures
        m[i].0 != name,
    decreases m.len(),
{
    if i > 0 {
        assert(m.skip(1)[i - 1] == m[i]);
        lemma_find_none(m.skip(1), name, i - 1);
    }
}

/// A value that is put in keeps an object tidy.
pub proof fn law_filling_in_keeps_order(
    m: Seq<(Seq<char>, JsonView)>,
    name: Seq<char>,
    value: Option<Seq<char>>,
    depth: nat,
    floats: bool,
)
    requires
        is_tidy(JsonView::Object(m), depth, floats),
    ensures
        is_tidy(JsonView::Object(filled(m, name, value)), depth, floats),
{
    if value is Some && find(m, name) is None {
        let v = JsonView::Text(value->0);
        let k = lemma_place(m, name, 0);
        lemma_member_put(m, name, v, k);
        let r = m.insert(k, (name, v));
        assert(names_ordered(m)) by {
            assert(is_tidy(JsonView::Object(m), depth, floats));
        }
        assert(names_ordered(r)) by {
            assert forall|i: int, j: int| 0 <= i < j < r.len() implies before(
                (#[trigger] r[i]).0,
                (#[trigger] r[j]).0,
            ) by {
                if i < k {
                    assert(r[i] == m[i]);
                    lemma_find_none(m, name, i);
                    assert(!before(name, m[i].0));
                    crate::text::lemma_before_total(m[i].0, name);
                    if j > k {
                        assert(r[j] == m[j - 1]);
                        assert(before(m[i].0, m[j - 1].0));
                    } else if j < k {
                        assert(r[j] == m[j]);
                        assert(before(m[i].0, m[j].0));
                    }
                } else if i == k {
                    assert(r[j] == m[j - 1]);
                    if j - 1 > k {
                        assert(before(m[k].0, m[j - 1].0));
                        crate::text::lemma_before_trans(name, m[k].0, m[j - 1].0);
                    }
                } else {
                    assert(r[i] == m[i - 1]);
                    assert(r[j] == m[j - 1]);
                    assert(before(m[i - 1].0, m[j - 1].0));
                }
            }
        }
        let whole = JsonView::Object(m);
        assert forall|i: int| 0 <= i < r.len() implies is_tidy(
            (#[trigger] r[i]).1,
            (depth - 1) as nat,
            floats,
        ) by {
            if i < k {
                assert(r[i] == whole->Object_0[i]);
            } else if i > k {
                assert(r[i] == whole->Object_0[i - 1]);
            }
        }
        let made = JsonView::Object(r);
        assert(made->Object_0 == r);
    }
}

/// The first place whose name comes after, from `k` on.
proof fn lemma_place(m: Seq<(Seq<char>, JsonView)>, name: Seq<char>, k: int) -> (r: int)
    requires
        0 <= k <= m.len(),
        forall|i: int| 0 <= i < k ==> !before(name, (#[trigger] m[i]).0),
    ensures
        k <= r <= m.len(),
        forall|i: int| 0 <= i < r ==> !before(name, (#[trigger] m[i]).0),
        r < m.len() ==> before(name, m[r].0),
    decreases m.len() - k,
{
    if k == m.len() || before(name, m[k].0) {
        k
    } else {
        lemma_place(m, name, k + 1)
    }
}

/// Filling in a text touches one member: it is as it was where it was there, else the text
/// where one is given; every other member is as it was.
pub proof fn law_filling_in_touches_one_member(
    m: Seq<(Seq<char>, JsonView)>,
    name: Seq<char>,
    value: Option<Seq<char>>,
    other: Seq<char>,
)
    ensures
        find(filled(m, name, value), name) == (if find(m, name) is Some {
            find(m, name)
        } else if value is Some {
            Some(JsonView::Text(value->0))
        } else {
            None
        }),
        other != name ==> find(filled(m, name, value), other) == find(m, other),
{
    if value is Some && find(m, name) is None {
        law_put_member_is_found(m, name, JsonView::Text(value->0), other);
        law_put_member_is_found(m, name, JsonView::Text(value->0), name);
    }
}

/// Removing takes away the members of one name, and no others.
pub proof fn law_removing_touches_one_name(
    m: Seq<(Seq<char>, JsonView)>,
    name: Seq<char>,
    other: Seq<char>,
)
    ensures
        find(member_removed(m, name), name) is None,
        other != name ==> find(member_removed(m, name), other) == find(m, other),
{
    lemma_find_removed(m, name, other);
}

/// A member is found under its name, and the first of that name is the one that is found.
pub proof fn law_members_are_found_by_name(
    m: Seq<(Seq<char>, JsonView)>,
    name: Seq<char>,
    i: int,
)
    requires
        0 <= i < m.len(),
        forall|k: int| 0 <= k < i ==> (#[trigger] m[k]).0 != name,
        m[i].0 == name,
    ensures
        find(m, name) == Some(m[i].1),
        get(JsonView::Object(m), name) == Some(m[i].1),
    decreases m.len(),
{
    if i > 0 {
        let t = m.skip(1);
        assert forall|k: int| 0 <= k < i - 1 implies (#[trigger] t[k]).0 != name by {
            assert(t[k] == m[k + 1]);
        }
        assert(t[i - 1] == m[i]);
        law_members_are_found_by_name(t, name, i - 1);
    }
}

/// A value is read as what it is and as nothing else: a text as a text, a truth value as a
/// truth value, a list as a list, and an integer as an integer where it fits.
pub proof fn law_values_are_read_as_they_are(v: JsonView)
    ensures
        as_text(Some(v)) == (match v {
            JsonView::Text(s) => Some(s),
            _ => None,
        }),
        as_bool(Some(v)) == (match v {
            JsonView::Bool(b) => Some(b),
            _ => None,
        }),
        as_list(Some(v)) == (match v {
            JsonView::List(items) => Some(items),
            _ => None,
        }),
        as_i64(Some(v)) matches Some(i) ==> v == JsonView::Int(i as int),
        v matches JsonView::Int(i) ==> i64::MIN <= i <= i64::MAX ==> as_i64(Some(v)) == Some(
            i as i64,
        ),
        as_u64(Some(v)) matches Some(u) ==> v == JsonView::Int(u as int),
        v matches JsonView::Int(i) ==> 0 <= i <= u64::MAX ==> as_u64(Some(v)) == Some(i as u64),
        as_text(None) is None,
        as_bool(None) is None,
        as_list(None) is None,
        as_i64(None) is None,
        as_u64(None) is None,
{
}

}
