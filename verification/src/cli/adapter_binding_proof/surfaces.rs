//! Review surfaces: what was rendered, and what should have been.
use crate::json::{
    as_bool, as_list, as_text, at, get, list_in, list_texts, text_in, texts_of, value_of, Json,
    JsonView,
};
use crate::outcome::{trim_nonblank, trimmed_nonblank};
use crate::text::{
    contains, lower, lowered, mentions, nil, none, ordered_set, replace, replaced, same, sorted,
    trim, trimmed, with, Words,
};
use vstd::prelude::*;

verus! {

/// A text that stands for one still to be filled in: `<...>`.
pub open spec fn is_placeholder(s: Seq<char>) -> bool {
    let t = trimmed(s);
    t.len() >= 2 && t[0] == '<' && t.last() == '>'
}

/// A value that holds a placeholder, at any depth.
pub open spec fn has_placeholder(v: JsonView) -> bool
    decreases v,
{
    match v {
        JsonView::Text(s) => is_placeholder(s),
        JsonView::List(items) => exists|i: int|
            0 <= i < items.len() && has_placeholder(#[trigger] items[i]),
        JsonView::Object(members) => exists|i: int|
            0 <= i < members.len() && has_placeholder((#[trigger] members[i]).1),
        _ => false,
    }
}

proof fn lemma_item_placeholder(items: Seq<JsonView>, i: int)
    requires
        0 <= i < items.len(),
        has_placeholder(items[i]),
    ensures
        has_placeholder(JsonView::List(items)),
{
    let v = JsonView::List(items);
    assert(has_placeholder(v->List_0[i]));
}

proof fn lemma_member_placeholder(members: Seq<(Seq<char>, JsonView)>, i: int)
    requires
        0 <= i < members.len(),
        has_placeholder(members[i].1),
    ensures
        has_placeholder(JsonView::Object(members)),
{
    let v = JsonView::Object(members);
    assert(has_placeholder(v->Object_0[i].1));
}

pub fn value_contains_placeholder(value: &Json) -> (r: bool)
    ensures
        r == has_placeholder(value@),
    decreases value,
{
    match value {
        Json::Text(raw) => {
            let t = crate::text::chars(trim(raw.as_str()));
            t.len() >= 2 && t[0] == '<' && t[t.len() - 1] == '>'
        },
        Json::List(items) => {
            let ghost all = value@->List_0;
            let mut i: usize = 0;
            while i < items.len()
                invariant
                    i <= items.len(),
                    *value == Json::List(*items),
                    value matches Json::List(x) && x == items,
                    value@ == JsonView::List(all),
                    all.len() == items.len(),
                    forall|j: int| 0 <= j < i ==> !has_placeholder(#[trigger] all[j]),
                decreases items.len() - i,
            {
                assert(all[i as int] == value_of(items@[i as int]));
                if value_contains_placeholder(&items[i]) {
                    proof {
                        lemma_item_placeholder(all, i as int);
                    }
                    return true;
                }
                i = i + 1;
            }
            false
        },
        Json::Object(members) => {
            let ghost all = value@->Object_0;
            let mut i: usize = 0;
            while i < members.len()
                invariant
                    i <= members.len(),
                    *value == Json::Object(*members),
                    value matches Json::Object(x) && x == members,
                    value@ == JsonView::Object(all),
                    all.len() == members.len(),
                    forall|j: int| 0 <= j < i ==> !has_placeholder((#[trigger] all[j]).1),
                decreases members.len() - i,
            {
                assert(decreases_to!(members@[i as int] => members@[i as int].value));
                assert(all[i as int].1 == value_of(members@[i as int].value));
                if value_contains_placeholder(&members[i].value) {
                    proof {
                        lemma_member_placeholder(all, i as int);
                    }
                    return true;
                }
                i = i + 1;
            }
            false
        },
        _ => false,
    }
}

/// A text that tells of raw tool output.
pub open spec fn is_raw_marker(value: Seq<char>) -> bool {
    let n = replaced(replaced(lowered(trimmed(value)), ' ', '_'), '-', '_');
    ||| contains(n, "mcp_tool"@)
    ||| contains(n, "tool_output"@)
    ||| contains(n, "review_render_output"@)
    ||| contains(n, "client_binding_status"@)
    ||| contains(n, "json_dump"@)
}

pub fn raw_tool_output_marker(value: &str) -> (r: bool)
    ensures
        r == is_raw_marker(value@),
{
    let a = lower(trim(value));
    let b = replace(a.as_str(), ' ', '_');
    let c = replace(b.as_str(), '-', '_');
    let n = c.as_str();
    mentions(n, "mcp_tool") || mentions(n, "tool_output") || mentions(n, "review_render_output")
        || mentions(
        n,
        "client_binding_status",
    ) || mentions(n, "json_dump")
}

/// A member whose text tells of raw tool output.
pub open spec fn marks_raw(surface: JsonView, field: Seq<char>) -> bool {
    as_text(get(surface, field)) matches Some(s) && is_raw_marker(s)
}

fn marked_raw(surface: &Json, field: &str) -> (r: bool)
    ensures
        r == marks_raw(surface@, field@),
{
    match surface.get_text(field) {
        Some(s) => raw_tool_output_marker(s),
        None => false,
    }
}

/// A surface that shows raw tool output.
pub open spec fn is_raw_surface(surface: JsonView) -> bool {
    ||| marks_raw(surface, "kind"@)
    ||| marks_raw(surface, "title"@)
    ||| marks_raw(surface, "name"@)
    ||| marks_raw(surface, "source"@)
    ||| marks_raw(surface, "render_as"@)
}

pub fn surface_is_raw_tool_output(surface: &Json) -> (r: bool)
    ensures
        r == is_raw_surface(surface@),
{
    marked_raw(surface, "kind") || marked_raw(surface, "title") || marked_raw(surface, "name")
        || marked_raw(surface, "source") || marked_raw(surface, "render_as")
}

pub open spec fn is_visible_surface(surface: JsonView) -> bool {
    as_bool(get(surface, "visible"@)) == Some(true)
}

pub fn surface_is_visible(surface: &Json) -> (r: bool)
    ensures
        r == is_visible_surface(surface@),
{
    match surface.get_bool("visible") {
        Some(b) => b,
        None => false,
    }
}

/// How many of the surfaces satisfy `p`.
pub open spec fn count(surfaces: Seq<JsonView>, p: spec_fn(JsonView) -> bool) -> nat
    decreases surfaces.len(),
{
    if surfaces.len() == 0 {
        0
    } else {
        count(surfaces.drop_last(), p) + if p(surfaces.last()) {
            1nat
        } else {
            0nat
        }
    }
}

pub open spec fn placeholders(surfaces: Seq<JsonView>) -> nat {
    count(surfaces, |s: JsonView| has_placeholder(s))
}

pub open spec fn raw_outputs(surfaces: Seq<JsonView>) -> nat {
    count(surfaces, |s: JsonView| is_raw_surface(s))
}

pub open spec fn visible(surfaces: Seq<JsonView>) -> nat {
    count(surfaces, |s: JsonView| is_visible_surface(s))
}

/// How many surfaces hold placeholders, show raw tool output, and are visible.
pub fn count_surfaces(surfaces: &Vec<Json>) -> (r: (usize, usize, usize))
    ensures
        r.0 == placeholders(surfaces.deep_view()),
        r.1 == raw_outputs(surfaces.deep_view()),
        r.2 == visible(surfaces.deep_view()),
{
    let ghost all = surfaces.deep_view();
    let mut a: usize = 0;
    let mut b: usize = 0;
    let mut c: usize = 0;
    let mut i: usize = 0;
    while i < surfaces.len()
        invariant
            i <= surfaces.len(),
            all == surfaces.deep_view(),
            a <= i,
            b <= i,
            c <= i,
            a == placeholders(all.take(i as int)),
            b == raw_outputs(all.take(i as int)),
            c == visible(all.take(i as int)),
        decreases surfaces.len() - i,
    {
        assert(all.take(i + 1).drop_last() =~= all.take(i as int));
        assert(all.take(i + 1).last() == surfaces[i as int]@);
        if value_contains_placeholder(&surfaces[i]) {
            a = a + 1;
        }
        if surface_is_raw_tool_output(&surfaces[i]) {
            b = b + 1;
        }
        if surface_is_visible(&surfaces[i]) {
            c = c + 1;
        }
        i = i + 1;
    }
    assert(all.take(i as int) =~= all);
    (a, b, c)
}

/// The names of the surfaces, trimmed, without blanks.
pub open spec fn names_in(surfaces: Seq<JsonView>) -> Seq<Seq<char>>
    decreases surfaces.len(),
{
    if surfaces.len() == 0 {
        nil()
    } else {
        let front = names_in(surfaces.drop_last());
        match trimmed_nonblank(as_text(get(surfaces.last(), "name"@))) {
            Some(n) => front.push(n),
            None => front,
        }
    }
}

/// The names of the surfaces, each once, in order.
pub fn rendered_surface_names(surfaces: &Vec<Json>) -> (r: Vec<String>)
    ensures
        r.deep_view() == ordered_set(names_in(surfaces.deep_view())),
{
    let ghost all = surfaces.deep_view();
    let mut names: Vec<String> = none();
    let mut i: usize = 0;
    while i < surfaces.len()
        invariant
            i <= surfaces.len(),
            all == surfaces.deep_view(),
            names.deep_view() == names_in(all.take(i as int)),
        decreases surfaces.len() - i,
    {
        assert(all.take(i + 1).drop_last() =~= all.take(i as int));
        assert(all.take(i + 1).last() == surfaces[i as int]@);
        match trim_nonblank(surfaces[i].get_text("name")) {
            Some(n) => {
                names = with(names, n.to_string());
            },
            None => {},
        }
        i = i + 1;
    }
    assert(all.take(i as int) =~= all);
    sorted(&names)
}

/// The control ids on the surfaces called `name`.
pub open spec fn controls_on(surfaces: Seq<JsonView>, name: Seq<char>) -> Seq<Seq<char>>
    decreases surfaces.len(),
{
    if surfaces.len() == 0 {
        nil()
    } else {
        let front = controls_on(surfaces.drop_last(), name);
        if as_text(get(surfaces.last(), "name"@)) == Some(name) {
            front + list_texts(get(surfaces.last(), "rendered_control_ids"@))
        } else {
            front
        }
    }
}

/// The control ids on the surfaces called `name`, each once, in order.
pub fn rendered_surface_control_ids(surfaces: &Vec<Json>, name: &str) -> (r: Vec<String>)
    ensures
        r.deep_view() == ordered_set(controls_on(surfaces.deep_view(), name@)),
{
    let ghost all = surfaces.deep_view();
    let mut ids = Words::new();
    let mut i: usize = 0;
    while i < surfaces.len()
        invariant
            i <= surfaces.len(),
            all == surfaces.deep_view(),
            ids@ == controls_on(all.take(i as int), name@),
        decreases surfaces.len() - i,
    {
        assert(all.take(i + 1).drop_last() =~= all.take(i as int));
        assert(all.take(i + 1).last() == surfaces[i as int]@);
        match surfaces[i].get_text("name") {
            Some(n) => {
                if same(n, name) {
                    ids = ids.more(&texts_of(surfaces[i].get("rendered_control_ids")));
                }
            },
            None => {},
        }
        i = i + 1;
    }
    assert(all.take(i as int) =~= all);
    sorted(&ids.done())
}

// ---------------------------------------------------------------------------
// What a review report asks for
// ---------------------------------------------------------------------------

pub open spec fn workbench_version(report: JsonView) -> Option<Seq<char>> {
    as_text(at(report, "workbench"@, "version"@))
}

pub fn review_render_workbench_version(report: &Json) -> (r: Option<&str>)
    ensures
        r.deep_view() == workbench_version(report@),
{
    text_in(report.at("workbench", "version"))
}

pub open spec fn contract_version(report: JsonView) -> Option<Seq<char>> {
    as_text(at(report, "interaction_contract"@, "version"@))
}

pub fn review_render_interaction_contract_version(report: &Json) -> (r: Option<&str>)
    ensures
        r.deep_view() == contract_version(report@),
{
    text_in(report.at("interaction_contract", "version"))
}

/// The control ids of the actions.
pub open spec fn action_controls(actions: Seq<JsonView>) -> Seq<Seq<char>>
    decreases actions.len(),
{
    if actions.len() == 0 {
        nil()
    } else {
        let front = action_controls(actions.drop_last());
        match as_text(get(actions.last(), "control_id"@)) {
            Some(c) => front.push(c),
            None => front,
        }
    }
}

/// The control ids that a report asks for, each once, in order.
pub open spec fn expected_controls(report: JsonView) -> Seq<Seq<char>> {
    match as_list(at(report, "interaction_contract"@, "actions"@)) {
        Some(actions) => ordered_set(action_controls(actions)),
        None => ordered_set(nil()),
    }
}

pub fn review_render_control_ids(report: &Json) -> (r: Vec<String>)
    ensures
        r.deep_view() == expected_controls(report@),
{
    let mut ids: Vec<String> = none();
    match list_in(report.at("interaction_contract", "actions")) {
        Some(actions) => {
            let ghost all = actions.deep_view();
            let mut i: usize = 0;
            while i < actions.len()
                invariant
                    i <= actions.len(),
                    all == actions.deep_view(),
                    ids.deep_view() == action_controls(all.take(i as int)),
                decreases actions.len() - i,
            {
                assert(all.take(i + 1).drop_last() =~= all.take(i as int));
                assert(all.take(i + 1).last() == actions[i as int]@);
                match actions[i].get_text("control_id") {
                    Some(c) => {
                        ids = with(ids, c.to_string());
                    },
                    None => {},
                }
                i = i + 1;
            }
            assert(all.take(i as int) =~= all);
        },
        None => {},
    }
    sorted(&ids)
}

/// The name of a surface, as it is compared.
pub open spec fn surface_name(name: Seq<char>) -> Seq<char> {
    if trimmed(name) == "review_actions"@ {
        "action_buttons"@
    } else {
        trimmed(name)
    }
}

pub fn normalize_surface_name(name: &str) -> (r: String)
    ensures
        r@ == surface_name(name@),
{
    let t = trim(name);
    if same(t, "review_actions") {
        "action_buttons".to_string()
    } else {
        t.to_string()
    }
}

/// A name that names a surface.
pub open spec fn is_surface(name: Seq<char>) -> bool {
    name.len() > 0 && name != "none"@
}

/// The names of the surfaces that are not hidden.
pub open spec fn shown_names(surfaces: Seq<JsonView>) -> Seq<Seq<char>>
    decreases surfaces.len(),
{
    if surfaces.len() == 0 {
        nil()
    } else {
        let front = shown_names(surfaces.drop_last());
        let s = surfaces.last();
        match as_text(get(s, "name"@)) {
            Some(n) => if as_text(get(s, "display"@)) != Some("hidden"@) && is_surface(
                surface_name(n),
            ) {
                front.push(surface_name(n))
            } else {
                front
            },
            None => front,
        }
    }
}

/// The surfaces that a report asks for: the primary one and the buttons of its actions,
/// or else every one that is not hidden.
pub open spec fn required_names(report: JsonView, controls: Seq<Seq<char>>) -> Seq<Seq<char>> {
    let primary = match as_text(get(report, "primary_surface"@)) {
        Some(n) => if is_surface(surface_name(n)) {
            nil().push(surface_name(n))
        } else {
            nil()
        },
        None => nil(),
    };
    let buttons = if controls.len() > 0 {
        primary.push("action_buttons"@)
    } else {
        primary
    };
    if buttons.len() > 0 {
        ordered_set(buttons)
    } else {
        match as_list(get(report, "surfaces"@)) {
            Some(surfaces) => ordered_set(shown_names(surfaces)),
            None => ordered_set(nil()),
        }
    }
}

pub fn review_render_required_surface_names(report: &Json, controls: &Vec<String>) -> (r: Vec<
    String,
>)
    ensures
        r.deep_view() == required_names(report@, controls.deep_view()),
{
    let mut names: Vec<String> = none();
    match report.get_text("primary_surface") {
        Some(n) => {
            let name = normalize_surface_name(n);
            if !name.as_str().is_empty() && !same(name.as_str(), "none") {
                names = with(names, name);
            }
        },
        None => {},
    }
    assert(controls.deep_view().len() == controls.len());
    if controls.len() > 0 {
        names = with(names, "action_buttons".to_string());
    }
    assert(names.deep_view().len() == names.len());
    if names.len() == 0 {
        assert(names.deep_view() =~= nil());
        match report.get_list("surfaces") {
            Some(surfaces) => {
                let ghost all = surfaces.deep_view();
                let mut i: usize = 0;
                while i < surfaces.len()
                    invariant
                        i <= surfaces.len(),
                        all == surfaces.deep_view(),
                        names.deep_view() == shown_names(all.take(i as int)),
                    decreases surfaces.len() - i,
                {
                    assert(all.take(i + 1).drop_last() =~= all.take(i as int));
                    assert(all.take(i + 1).last() == surfaces[i as int]@);
                    let hidden = match surfaces[i].get_text("display") {
                        Some(d) => same(d, "hidden"),
                        None => false,
                    };
                    match surfaces[i].get_text("name") {
                        Some(n) => {
                            let name = normalize_surface_name(n);
                            if !hidden && !name.as_str().is_empty() && !same(
                                name.as_str(),
                                "none",
                            ) {
                                names = with(names, name);
                            }
                        },
                        None => {},
                    }
                    i = i + 1;
                }
                assert(all.take(i as int) =~= all);
            },
            None => {},
        }
    }
    sorted(&names)
}

/// A text stands for something still to be filled in iff it is put in angle brackets; a value
/// holds one iff some text within it does, at any depth.
pub proof fn law_placeholders_are_found_at_any_depth(
    text: Seq<char>,
    items: Seq<JsonView>,
    members: Seq<(Seq<char>, JsonView)>,
    i: int,
)
    ensures
        has_placeholder(JsonView::Text(text)) <==> trimmed(text).len() >= 2 && trimmed(text)[0]
            == '<' && trimmed(text).last() == '>',
        0 <= i < items.len() && has_placeholder(items[i]) ==> has_placeholder(JsonView::List(items)),
        0 <= i < members.len() && has_placeholder(members[i].1) ==> has_placeholder(
            JsonView::Object(members),
        ),
        has_placeholder(JsonView::List(items)) ==> exists|k: int|
            0 <= k < items.len() && has_placeholder(#[trigger] items[k]),
        has_placeholder(JsonView::Object(members)) ==> exists|k: int|
            0 <= k < members.len() && has_placeholder((#[trigger] members[k]).1),
        !has_placeholder(JsonView::Null),
{
    if 0 <= i < items.len() && has_placeholder(items[i]) {
        let v = JsonView::List(items);
        assert(has_placeholder(v->List_0[i]));
        assert(has_placeholder(v));
    }
    if 0 <= i < members.len() && has_placeholder(members[i].1) {
        let v = JsonView::Object(members);
        assert(has_placeholder(v->Object_0[i].1));
        assert(has_placeholder(v));
    }
}

/// A surface is raw output iff one of five of its texts says so, in any case and with low
/// lines for spaces and hyphens. It is visible iff it says that it is, and by nothing else.
pub proof fn law_raw_surfaces_give_themselves_away(surface: JsonView, text: Seq<char>)
    ensures
        ({
            let n = replaced(replaced(lowered(trimmed(text)), ' ', '_'), '-', '_');
            is_raw_marker(text) <==> contains(n, "mcp_tool"@) || contains(n, "tool_output"@)
                || contains(n, "review_render_output"@) || contains(n, "client_binding_status"@)
                || contains(n, "json_dump"@)
        }),
        is_raw_surface(surface) <==> (exists|f: Seq<char>| #[trigger]
            marks_raw(surface, f) && (f == "kind"@ || f == "title"@ || f == "name"@ || f
                == "source"@ || f == "render_as"@)),
        is_visible_surface(surface) <==> get(surface, "visible"@) == Some(JsonView::Bool(true)),
{
}

/// Counting goes surface by surface: each that counts adds one, and none else does.
pub proof fn law_surfaces_are_counted_one_by_one(surfaces: Seq<JsonView>, next: JsonView)
    ensures
        placeholders(surfaces.push(next)) == placeholders(surfaces) + if has_placeholder(next) {
            1nat
        } else {
            0nat
        },
        raw_outputs(surfaces.push(next)) == raw_outputs(surfaces) + if is_raw_surface(next) {
            1nat
        } else {
            0nat
        },
        visible(surfaces.push(next)) == visible(surfaces) + if is_visible_surface(next) {
            1nat
        } else {
            0nat
        },
        placeholders(Seq::empty()) == 0 && raw_outputs(Seq::empty()) == 0 && visible(Seq::empty())
            == 0,
{
    assert(surfaces.push(next).drop_last() =~= surfaces);
    assert(surfaces.push(next).last() == next);
}

/// The name of the review actions stands for their buttons; any other surface keeps its own.
/// A blank name and the word for none name no surface.
pub proof fn law_surface_names(name: Seq<char>)
    ensures
        trimmed(name) == "review_actions"@ ==> surface_name(name) == "action_buttons"@,
        trimmed(name) != "review_actions"@ ==> surface_name(name) == trimmed(name),
        is_surface(name) <==> name.len() > 0 && name != "none"@,
{
}

}
