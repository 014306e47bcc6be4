//! Copies that hold the same as what is copied.
use crate::json::{value_of, Json, Member};
use crate::text::{none, with};
use vstd::prelude::*;

verus! {

/// A value that can be copied, with a copy that holds the same.
pub trait Dup: DeepView + Sized {
    fn dup(&self) -> (r: Self)
        ensures
            r.deep_view() == self.deep_view(),
    ;
}

impl Dup for String {
    fn dup(&self) -> (r: Self) {
        self.clone()
    }
}

impl Dup for &'static str {
    fn dup(&self) -> (r: Self) {
        *self
    }
}

impl Dup for u8 {
    fn dup(&self) -> (r: Self) {
        *self
    }
}

impl Dup for bool {
    fn dup(&self) -> (r: Self) {
        *self
    }
}

impl Dup for i64 {
    fn dup(&self) -> (r: Self) {
        *self
    }
}

impl Dup for u64 {
    fn dup(&self) -> (r: Self) {
        *self
    }
}

impl Dup for usize {
    fn dup(&self) -> (r: Self) {
        *self
    }
}

impl<T: Dup> Dup for Option<T> {
    fn dup(&self) -> (r: Self) {
        match self {
            Some(v) => Some(v.dup()),
            None => None,
        }
    }
}

impl<T: Dup> Dup for Vec<T> {
    fn dup(&self) -> (r: Self) {
        let mut out: Vec<T> = none();
        let mut i: usize = 0;
        while i < self.len()
            invariant
                i <= self.len(),
                out.deep_view() =~= self.deep_view().take(i as int),
            decreases self.len() - i,
        {
            out = with(out, self[i].dup());
            assert(self.deep_view()[i as int] == self[i as int].deep_view());
            i = i + 1;
        }
        assert(self.deep_view().take(i as int) =~= self.deep_view());
        out
    }
}

/// A copy of a JSON value.
fn dup_json(j: &Json) -> (r: Json)
    ensures
        value_of(r) == value_of(*j),
    decreases j,
{
    match j {
        Json::Null => Json::Null,
        Json::Bool(b) => Json::Bool(*b),
        Json::Int(i) => Json::Int(*i),
        Json::Float(s) => Json::Float(s.clone()),
        Json::Text(s) => Json::Text(s.clone()),
        Json::List(items) => {
            let mut list: Vec<Json> = Vec::new();
            let mut i: usize = 0;
            while i < items.len()
                invariant
                    i <= items.len(),
                    *j == Json::List(*items),
                    j matches Json::List(x) && x == items,
                    list.len() == i,
                    forall|k: int|
                        0 <= k < i ==> value_of(#[trigger] list@[k]) == value_of(items@[k]),
                decreases items.len() - i,
            {
                assert(decreases_to!(*j => items@[i as int]));
                list.push(dup_json(&items[i]));
                i = i + 1;
            }
            let r = Json::List(list);
            assert(value_of(r)->List_0 =~= value_of(*j)->List_0);
            r
        },
        Json::Object(members) => {
            let mut list: Vec<Member> = Vec::new();
            let mut i: usize = 0;
            while i < members.len()
                invariant
                    i <= members.len(),
                    *j == Json::Object(*members),
                    j matches Json::Object(x) && x == members,
                    list.len() == i,
                    forall|k: int|
                        0 <= k < i ==> (#[trigger] list@[k]).name@ == members@[k].name@ && value_of(
                            list@[k].value,
                        ) == value_of(members@[k].value),
                decreases members.len() - i,
            {
                assert(decreases_to!(members@[i as int] => members@[i as int].value));
                list.push(
                    Member { name: members[i].name.clone(), value: dup_json(&members[i].value) },
                );
                i = i + 1;
            }
            let r = Json::Object(list);
            assert(value_of(r)->Object_0 =~= value_of(*j)->Object_0);
            r
        },
    }
}

impl Dup for Json {
    fn dup(&self) -> (r: Self) {
        dup_json(self)
    }
}

}
