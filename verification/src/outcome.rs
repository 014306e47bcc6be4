//! Results, as contracts speak of them.
use vstd::prelude::*;

verus! {

/// A result by what its value or its error holds.
pub open spec fn outcome<T: DeepView, E: DeepView>(r: Result<T, E>) -> Result<T::V, E::V> {
    match r {
        Ok(v) => Ok(v.deep_view()),
        Err(e) => Err(e.deep_view()),
    }
}

/// A result that may be missing, by what its value or its error holds.
pub open spec fn outcome_opt<T: DeepView, E: DeepView>(r: Option<Result<T, E>>) -> Option<
    Result<T::V, E::V>,
> {
    match r {
        Some(r) => Some(outcome(r)),
        None => None,
    }
}

/// The value of a result that is there and went well.
pub open spec fn value_in<T, E>(r: Option<Result<T, E>>) -> Option<T> {
    match r {
        Some(Ok(v)) => Some(v),
        _ => None,
    }
}

/// The value of a result that is there and went well, borrowed.
pub fn borrow_value<T: DeepView, E: DeepView>(r: &Option<Result<T, E>>) -> (v: Option<&T>)
    ensures
        v.deep_view() == value_in(outcome_opt(*r)),
{
    match r {
        Some(Ok(v)) => Some(v),
        _ => None,
    }
}

/// A result without a value, by what its error holds.
pub open spec fn verdict<E: DeepView>(r: Result<(), E>) -> Result<(), E::V> {
    match r {
        Ok(_) => Ok(()),
        Err(e) => Err(e.deep_view()),
    }
}

/// The first of two that is there.
pub open spec fn first<T>(a: Option<T>, b: Option<T>) -> Option<T> {
    if a is Some {
        a
    } else {
        b
    }
}

/// A copy of a text that may be missing.
pub fn copy_text(a: &Option<String>) -> (r: Option<String>)
    ensures
        r.deep_view() == a.deep_view(),
{
    match a {
        Some(s) => Some(s.clone()),
        None => None,
    }
}

/// A copy of the first text that is there.
pub fn first_text(a: &Option<String>, b: &Option<String>) -> (r: Option<String>)
    ensures
        r.deep_view() == first(a.deep_view(), b.deep_view()),
{
    match a {
        Some(s) => Some(s.clone()),
        None => copy_text(b),
    }
}

/// A borrowed text, as one of its own.
pub fn owned(a: Option<&str>) -> (r: Option<String>)
    ensures
        r.deep_view() == a.deep_view(),
{
    match a {
        Some(s) => Some(s.to_string()),
        None => None,
    }
}

/// A text that may be missing, borrowed.
pub fn borrowed(a: &Option<String>) -> (r: Option<&str>)
    ensures
        r.deep_view() == a.deep_view(),
{
    match a {
        Some(s) => Some(s.as_str()),
        None => None,
    }
}

/// A text, where it is there and holds something but white space.
pub open spec fn nonblank(a: Option<Seq<char>>) -> Option<Seq<char>> {
    match a {
        Some(s) => if crate::text::trimmed(s).len() > 0 {
            Some(s)
        } else {
            None
        },
        None => None,
    }
}

/// The trimmed text, where it is there and holds something but white space.
pub open spec fn trimmed_nonblank(a: Option<Seq<char>>) -> Option<Seq<char>> {
    match a {
        Some(s) => if crate::text::trimmed(s).len() > 0 {
            Some(crate::text::trimmed(s))
        } else {
            None
        },
        None => None,
    }
}

pub fn trim_nonblank(a: Option<&str>) -> (r: Option<&str>)
    ensures
        r.deep_view() == trimmed_nonblank(a.deep_view()),
{
    match a {
        Some(s) => {
            let t = crate::text::trim(s);
            if t.is_empty() {
                None
            } else {
                Some(t)
            }
        },
        None => None,
    }
}

}
