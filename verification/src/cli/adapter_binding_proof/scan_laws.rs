//! What holds of every nonce, file and bundle that a proof is made from.
use super::bundle::{
    chosen_config, first_plan, full_plan, gaps_of, with_kept_files, BundlePlanView,
};
use super::disk::{canonical, file_at, DiskView};
use super::files::{fingerprinted, json_file, text_of};
use super::nonce::{
    config_nonce, is_nonce_name, json_nonce, line_value, lines_nonce, member_nonce, members_nonce,
    mentions_nonce, nonce_allowed, normalized_nonce, own_nonce, second_field,
};
use super::places::durable_dir_for_root;
use super::prepare::lifecycle_env;
use super::types::{
    AdapterBindingInstalledConfigDiscoveryOutcomeView, AdapterBindingProofArgsView,
    AdapterBindingProofStatusOutcomeView, BindingFault, ObservedFileView,
};
use crate::fingerprint::fingerprint;
use crate::json::JsonView;
use crate::outside::json_of;
use crate::path::joined_path;
use crate::text::{
    contains, count_until, is_control, is_space, lines_of, lowered, trimmed,
};
use vstd::prelude::*;
use vstd::string::*;
use vstd::utf8::{decode_utf8, encode_utf8, valid_utf8};

verus! {

/// A member holds a nonce iff its name, in any case and with white space round it, is one of
/// three and its value is a text that is not blank. The nonce is that text without white
/// space round it.
pub proof fn law_members_with_a_nonce(name: Seq<char>, text: Seq<char>)
    ensures
        ({
            let n = lowered(trimmed(name));
            let named = n == "soma_adapter_lifecycle_binding_nonce"@ || n
                == "soma_adapter_binding_nonce"@ || n == "binding_nonce"@;
            &&& is_nonce_name(name) <==> named
            &&& member_nonce(name, JsonView::Text(text)) is Some <==> named && trimmed(text).len()
                > 0
            &&& member_nonce(name, JsonView::Text(text)) matches Some(found) ==> found == trimmed(
                text,
            )
            &&& member_nonce(name, JsonView::Null) is None
        }),
{
}

/// The first member of an object that holds a nonce gives it.
pub proof fn law_first_member_with_a_nonce_counts(members: Seq<(Seq<char>, JsonView)>, i: int)
    requires
        0 <= i < members.len(),
        member_nonce(members[i].0, members[i].1) is Some,
        forall|j: int|
            0 <= j < i ==> member_nonce((#[trigger] members[j]).0, members[j].1) is None,
    ensures
        own_nonce(members) == member_nonce(members[i].0, members[i].1),
        json_nonce(JsonView::Object(members)) == member_nonce(members[i].0, members[i].1),
{
    lemma_first_member(members, i);
}

proof fn lemma_first_member(members: Seq<(Seq<char>, JsonView)>, i: int)
    requires
        0 <= i < members.len(),
        member_nonce(members[i].0, members[i].1) is Some,
        forall|j: int|
            0 <= j < i ==> member_nonce((#[trigger] members[j]).0, members[j].1) is None,
    ensures
        own_nonce(members) == member_nonce(members[i].0, members[i].1),
    decreases members.len(),
{
    let front = members.drop_last();
    assert forall|j: int| 0 <= j < front.len() implies front[j] == members[j] by {}
    if i < front.len() {
        assert(front[i] == members[i]);
        lemma_first_member(front, i);
    } else {
        lemma_no_member(front);
    }
}

proof fn lemma_no_member(members: Seq<(Seq<char>, JsonView)>)
    requires
        forall|j: int|
            0 <= j < members.len() ==> member_nonce((#[trigger] members[j]).0, members[j].1)
                is None,
    ensures
        own_nonce(members) is None,
    decreases members.len(),
{
    if members.len() > 0 {
        let front = members.drop_last();
        assert forall|j: int| 0 <= j < front.len() implies member_nonce(
            (#[trigger] front[j]).0,
            front[j].1,
        ) is None by {
            assert(front[j] == members[j]);
        }
        lemma_no_member(front);
        assert(members[members.len() - 1] == members.last());
    }
}

/// A text, a number, a truth value and nothing hold no nonce; nor does an empty object.
pub proof fn law_plain_values_hold_no_nonce(text: Seq<char>, b: bool, n: int)
    ensures
        json_nonce(JsonView::Text(text)) is None,
        json_nonce(JsonView::Bool(b)) is None,
        json_nonce(JsonView::Int(n)) is None,
        json_nonce(JsonView::Null) is None,
        json_nonce(JsonView::Object(Seq::empty())) is None,
        json_nonce(JsonView::List(Seq::empty())) is None,
{
    reveal_with_fuel(json_nonce, 3);
    reveal_with_fuel(members_nonce, 3);
}

/// In text, a nonce stands on the first line that speaks of one and gives a value after a
/// sign; the search goes on past lines that give none. A nonce of the parsed file goes first.
pub proof fn law_first_line_with_a_nonce_counts(
    parsed: Result<JsonView, Seq<char>>,
    raw: Seq<char>,
    i: int,
)
    requires
        0 <= i < lines_of(raw).len(),
        mentions_nonce(lines_of(raw)[i]),
        line_value(lines_of(raw)[i]).len() > 0,
        forall|j: int|
            0 <= j < i ==> !mentions_nonce(#[trigger] lines_of(raw)[j]) || line_value(
                lines_of(raw)[j],
            ).len() == 0,
    ensures
        parsed is Err ==> config_nonce(parsed, raw) == Some(line_value(lines_of(raw)[i])),
        parsed matches Ok(v) ==> json_nonce(v) is None ==> config_nonce(parsed, raw) == Some(
            line_value(lines_of(raw)[i]),
        ),
        parsed matches Ok(v) ==> json_nonce(v) is Some ==> config_nonce(parsed, raw)
            == json_nonce(v),
{
    lemma_first_line(lines_of(raw), i);
}

proof fn lemma_first_line(list: Seq<Seq<char>>, i: int)
    requires
        0 <= i < list.len(),
        mentions_nonce(list[i]),
        line_value(list[i]).len() > 0,
        forall|j: int|
            0 <= j < i ==> !mentions_nonce(#[trigger] list[j]) || line_value(list[j]).len() == 0,
    ensures
        lines_nonce(list) == Some(line_value(list[i])),
    decreases list.len(),
{
    let front = list.drop_last();
    assert forall|j: int| 0 <= j < front.len() implies front[j] == list[j] by {}
    if i < front.len() {
        assert(front[i] == list[i]);
        lemma_first_line(front, i);
    } else {
        lemma_no_line(front);
    }
}

proof fn lemma_no_line(list: Seq<Seq<char>>)
    requires
        forall|j: int|
            0 <= j < list.len() ==> !mentions_nonce(#[trigger] list[j]) || line_value(
                list[j],
            ).len() == 0,
    ensures
        lines_nonce(list) is None,
    decreases list.len(),
{
    if list.len() > 0 {
        let front = list.drop_last();
        assert forall|j: int| 0 <= j < front.len() implies !mentions_nonce(#[trigger] front[j])
            || line_value(front[j]).len() == 0 by {
            assert(front[j] == list[j]);
        }
        lemma_no_line(front);
        assert(list[list.len() - 1] == list.last());
    }
}

/// A line speaks of a nonce iff it holds the words in any case. Its value stands between the
/// first sign and the next: what stands before the one and after the other does not count.
pub proof fn law_values_stand_between_signs(name: Seq<char>, value: Seq<char>, tail: Seq<char>)
    requires
        forall|i: int| 0 <= i < name.len() ==> #[trigger] name[i] != '=' && name[i] != ':',
        forall|i: int| 0 <= i < value.len() ==> #[trigger] value[i] != '=' && value[i] != ':',
    ensures
        second_field(name.push('=') + value) == value,
        second_field(name.push(':') + value) == value,
        second_field((name.push('=') + value).push('=') + tail) == value,
        second_field((name.push(':') + value).push(':') + tail) == value,
        second_field(name) == Seq::<char>::empty(),
        mentions_nonce(name) <==> contains(lowered(name), "binding_nonce"@),
{
    lemma_field(name, '=', value, value);
    lemma_field(name, ':', value, value);
    assert((value.push('=') + tail).take(value.len() as int) =~= value);
    assert((value.push(':') + tail).take(value.len() as int) =~= value);
    lemma_field(name, '=', value.push('=') + tail, value);
    lemma_field(name, ':', value.push(':') + tail, value);
    assert((name.push('=') + value).push('=') + tail =~= name.push('=') + (value.push('=') + tail));
    assert((name.push(':') + value).push(':') + tail =~= name.push(':') + (value.push(':') + tail));
    let p = |c: char| super::nonce::is_separator(c);
    lemma_until(name, p, name.len());
}

proof fn lemma_field(name: Seq<char>, sign: char, rest: Seq<char>, value: Seq<char>)
    requires
        sign == '=' || sign == ':',
        forall|i: int| 0 <= i < name.len() ==> #[trigger] name[i] != '=' && name[i] != ':',
        forall|i: int| 0 <= i < value.len() ==> #[trigger] value[i] != '=' && value[i] != ':',
        rest == value || (rest.len() > value.len() && rest.take(value.len() as int) == value && (
        rest[value.len() as int] == '=' || rest[value.len() as int] == ':')),
    ensures
        second_field(name.push(sign) + rest) == value,
{
    let p = |c: char| super::nonce::is_separator(c);
    let line = name.push(sign) + rest;
    assert(line[name.len() as int] == sign);
    assert forall|i: int| 0 <= i < name.len() implies !p(#[trigger] line[i]) by {
        assert(line[i] == name[i]);
    }
    lemma_until(line, p, name.len());
    assert(line.skip(name.len() as int + 1) =~= rest);
    assert forall|i: int| 0 <= i < value.len() implies !p(#[trigger] rest[i]) by {
        assert(rest.take(value.len() as int)[i] == rest[i] || rest == value);
        assert(value[i] == rest[i]);
    }
    lemma_until(rest, p, value.len());
    assert(rest.take(value.len() as int) =~= value);
}

proof fn lemma_until(s: Seq<char>, p: spec_fn(char) -> bool, k: nat)
    requires
        k <= s.len(),
        forall|i: int| 0 <= i < k ==> !p(#[trigger] s[i]),
        k < s.len() ==> p(s[k as int]),
    ensures
        count_until(s, p) == k,
    decreases s.len(),
{
    if k > 0 {
        assert(!p(s[0]));
        let rest = s.skip(1);
        assert forall|i: int| 0 <= i < k - 1 implies !p(#[trigger] rest[i]) by {
            assert(rest[i] == s[i + 1]);
        }
        if k < s.len() {
            assert(rest[k - 1] == s[k as int]);
        }
        lemma_until(rest, p, (k - 1) as nat);
    }
}

/// A given nonce is taken without white space round it iff something is left, of at most 256
/// bytes and without white space or control characters; it does not count as made. Where
/// none is given one is made, with one beginning for all.
pub proof fn law_given_nonces_are_single_tokens(
    value: Seq<char>,
    r: Result<(Seq<char>, bool), BindingFault>,
)
    requires
        nonce_allowed(Some(value), r),
    ensures
        ({
            let t = trimmed(value);
            let fine = t.len() > 0 && encode_utf8(t).len() <= 256 && (forall|i: int|
                0 <= i < t.len() ==> !is_space(#[trigger] t[i]) && !is_control(t[i]));
            &&& r is Ok <==> fine
            &&& r matches Ok(p) ==> p.0 == t && !p.1
            &&& normalized_nonce(value) is Ok <==> fine
            &&& r is Err ==> r->Err_0 is MalformedInput
        }),
{
}

/// A nonce that was made starts as all made ones do, counts as made, and was owed: without a
/// given one there is no refusal.
pub proof fn law_made_nonces_have_one_beginning(r: Result<(Seq<char>, bool), BindingFault>)
    requires
        nonce_allowed(None, r),
    ensures
        r matches Ok(p) && p.1 && p.0.len() > 10 && p.0.take(10) == "soma-bind-"@,
{
    reveal_strlit("soma-bind-");
    let p = r->Ok_0;
    let id = choose|id: Seq<char>|
        #[trigger] crate::outside::is_uuid_text(id) && p.0 == "soma-bind-"@ + id;
    assert(p.0.take(10) =~= "soma-bind-"@);
}

/// A file that can be read is told by its path, its length and the fingerprint of all its
/// bytes; one that cannot is refused. Its text is its bytes read as text, and no other.
pub proof fn law_files_are_told_by_their_bytes(file: ObservedFileView, label: Seq<char>)
    requires
        file.contents.len() <= u64::MAX,
    ensures
        fingerprinted(file, label) is Ok <==> file.read_error is None,
        fingerprinted(file, label) matches Ok(s) ==> {
            &&& s.path == file.path
            &&& s.byte_len == file.contents.len()
            &&& s.fingerprint == fingerprint(file.contents)
        },
        text_of(file, label) is Ok <==> file.read_error is None && valid_utf8(file.contents),
        text_of(file, label) matches Ok(t) ==> t == decode_utf8(file.contents),
        json_file(file, label) is Ok <==> text_of(file, label) is Ok && json_of(
            text_of(file, label)->Ok_0,
        ) is Ok,
        json_file(file, label) matches Ok(v) ==> json_of(decode_utf8(file.contents)) == Ok::<
            JsonView,
            Seq<char>,
        >(v),
{
}

/// What is given goes before what lies in the directory of the run, and that counts only
/// where it is a file. Each of the three files is looked for under its own name.
pub proof fn law_kept_files_fill_in(
    args: AdapterBindingProofArgsView,
    dir: Seq<char>,
    disk: DiskView,
)
    ensures
        ({
            let with = with_kept_files(args, dir, disk);
            let render = joined_path(dir, "review-render.json"@);
            let evidence = joined_path(dir, "render-evidence.json"@);
            let action = joined_path(dir, "review-action.json"@);
            &&& args.review_render_report is Some ==> with.review_render_report
                == args.review_render_report
            &&& args.render_evidence is Some ==> with.render_evidence == args.render_evidence
            &&& args.review_action_report is Some ==> with.review_action_report
                == args.review_action_report
            &&& args.review_render_report is None ==> with.review_render_report == if file_at(
                render,
                disk,
            ).is_file {
                Some(canonical(render, disk))
            } else {
                None
            }
            &&& args.render_evidence is None ==> with.render_evidence == if file_at(
                evidence,
                disk,
            ).is_file {
                Some(canonical(evidence, disk))
            } else {
                None
            }
            &&& args.review_action_report is None ==> with.review_action_report == if file_at(
                action,
                disk,
            ).is_file {
                Some(canonical(action, disk))
            } else {
                None
            }
            &&& with.client == args.client && with.binding_nonce == args.binding_nonce
            &&& with.installed_config == args.installed_config && with.event_jsonl
                == args.event_jsonl
        }),
{
}

/// A bundle goes by the nonce that was given, else by that of the chosen configuration, else
/// by a made one, and says that it was made only then. Its files lie where was asked for, else
/// below the root by client and nonce.
pub proof fn law_bundles_go_by_the_nonce_in_force(
    p: BundlePlanView,
    given: AdapterBindingProofArgsView,
    d: AdapterBindingInstalledConfigDiscoveryOutcomeView,
    home: Option<Seq<char>>,
    disk: DiskView,
)
    ensures
        ({
            let f = full_plan(p, given, d, home, disk);
            let config = chosen_config(p.args.installed_config, d);
            let found = super::bundle::nonce_at(config, p.client, p.source, disk);
            &&& f.client == p.client && f.source == p.source && f.root == p.root && f.manifest
                == p.manifest
            &&& given.binding_nonce is Some ==> f.nonce == p.nonce && f.generated == p.generated
            &&& given.binding_nonce is None && found is Some ==> f.nonce == found->0
                && !f.generated
            &&& given.binding_nonce is None && found is None ==> f.nonce == p.nonce && f.generated
                == p.generated
            &&& f.args.binding_nonce == Some(f.nonce)
            &&& f.args.installed_config == config
            &&& p.args.installed_config is Some ==> config == p.args.installed_config
            &&& f.args.require_private_target_config_for_app_hook <==> p.args.installed_config
                is None
            &&& (given.artifact_dir matches Some(dir) && trimmed(dir).len() > 0) ==> f.dir
                == trimmed(given.artifact_dir->0)
            &&& given.artifact_dir is None ==> f.dir == durable_dir_for_root(
                f.client,
                f.nonce,
                Some(f.root),
                home,
            )
        }),
{
}

/// The plan of a bundle is made for its client, asks for nothing else at once and takes the
/// events that were given.
pub proof fn law_bundles_ask_for_nothing_else(
    args: AdapterBindingProofArgsView,
    nonce: Result<(Seq<char>, bool), BindingFault>,
    home: Option<Seq<char>>,
    disk: DiskView,
)
    ensures
        first_plan(args, nonce, home, disk) matches Ok(p) ==> {
            &&& nonce is Ok && p.nonce == nonce->Ok_0.0 && p.generated == nonce->Ok_0.1
            &&& p.args.client == Some(p.client) && p.args.binding_nonce == Some(p.nonce)
            &&& p.args.write_installed_config is None
            &&& !p.args.prepare_installed_config && !p.args.discover_installed_config
            &&& !p.args.real_app_proof_kit && !p.args.status && !p.args.list
            &&& !p.args.verify_evidence_artifacts
            &&& args.event_jsonl is Some ==> p.args.event_jsonl == args.event_jsonl
            &&& p.args.installed_config == args.installed_config
        },
        nonce is Err ==> first_plan(args, nonce, home, disk) is Err,
{
}

/// A bundle names a gap iff it is there: a claim not yet proven, no configuration found, a
/// level without proof, files that changed or identities that differ.
pub proof fn law_gaps_are_named_iff_they_are_there(
    readiness: AdapterBindingProofStatusOutcomeView,
    d: AdapterBindingInstalledConfigDiscoveryOutcomeView,
)
    requires
        readiness.clients.len() > 0,
    ensures
        ({
            let g = gaps_of(readiness, d);
            let c = readiness.clients[0];
            &&& g.contains("ready_for_private_client_claim_not_yet_proven"@)
                <==> !c.ready_for_private_client_claim
            &&& g.contains("no_eligible_installed_config_candidate_found"@)
                <==> d.eligible_candidates == 0
            &&& g.contains("private_client_target_config_not_discovered"@)
                <==> d.private_client_target_eligible_candidates == 0
            &&& g.contains("observed_app_hook_proof_missing"@) <==> !c.has_observed_app_hook
            &&& g.contains("observed_in_client_render_proof_missing"@)
                <==> !c.has_observed_in_client_render
            &&& g.contains("observed_review_action_proof_missing"@)
                <==> !c.has_observed_review_action
            &&& g.contains("stored_evidence_artifact_replay_has_failures"@)
                <==> c.artifact_failures.len() > 0
        }),
{
    let c = readiness.clients[0];
    let g1 = "ready_for_private_client_claim_not_yet_proven"@;
    let g2 = "no_eligible_installed_config_candidate_found"@;
    let g3 = "private_client_target_config_not_discovered"@;
    let g4 = "observed_app_hook_proof_missing"@;
    let g5 = "observed_in_client_render_proof_missing"@;
    let g6 = "observed_review_action_proof_missing"@;
    let g7 = "stored_evidence_artifact_replay_has_failures"@;
    let g8 = super::bundle::IDENTITY_GAP@;
    reveal_strlit("ready_for_private_client_claim_not_yet_proven");
    reveal_strlit("no_eligible_installed_config_candidate_found");
    reveal_strlit("private_client_target_config_not_discovered");
    reveal_strlit("observed_app_hook_proof_missing");
    reveal_strlit("observed_in_client_render_proof_missing");
    reveal_strlit("observed_review_action_proof_missing");
    reveal_strlit("stored_evidence_artifact_replay_has_failures");
    reveal_strlit(
        "app_hook_render_and_review_action_proofs_do_not_share_installed_config_identity",
    );
    assert(g1.len() == 45 && g2.len() == 44 && g3.len() == 43 && g4.len() == 31);
    assert(g5.len() == 39 && g6.len() == 36 && g7.len() == 44 && g8.len() == 79);
    assert(g2[0] == 'n' && g7[0] == 's');
    assert forall|x: Seq<char>| #[trigger] gaps_of(readiness, d).contains(x) <==> ({
        ||| x == g1 && !c.ready_for_private_client_claim
        ||| x == g2 && d.eligible_candidates == 0
        ||| x == g3 && d.private_client_target_eligible_candidates == 0
        ||| x == g4 && !c.has_observed_app_hook
        ||| x == g5 && !c.has_observed_in_client_render
        ||| x == g6 && !c.has_observed_review_action
        ||| x == g7 && c.artifact_failures.len() > 0
        ||| x == g8 && c.coherence_failures.len() > 0
    }) by {
        lemma_gaps(readiness, d, x);
    }
    assert(gaps_of(readiness, d).contains(g1) <==> !c.ready_for_private_client_claim);
    assert(gaps_of(readiness, d).contains(g2) <==> d.eligible_candidates == 0);
}

proof fn lemma_gaps(
    readiness: AdapterBindingProofStatusOutcomeView,
    d: AdapterBindingInstalledConfigDiscoveryOutcomeView,
    x: Seq<char>,
)
    requires
        readiness.clients.len() > 0,
    ensures
        gaps_of(readiness, d).contains(x) <==> ({
            let c = readiness.clients[0];
            ||| x == "ready_for_private_client_claim_not_yet_proven"@
                && !c.ready_for_private_client_claim
            ||| x == "no_eligible_installed_config_candidate_found"@ && d.eligible_candidates == 0
            ||| x == "private_client_target_config_not_discovered"@
                && d.private_client_target_eligible_candidates == 0
            ||| x == "observed_app_hook_proof_missing"@ && !c.has_observed_app_hook
            ||| x == "observed_in_client_render_proof_missing"@ && !c.has_observed_in_client_render
            ||| x == "observed_review_action_proof_missing"@ && !c.has_observed_review_action
            ||| x == "stored_evidence_artifact_replay_has_failures"@ && c.artifact_failures.len()
                > 0
            ||| x == super::bundle::IDENTITY_GAP@ && c.coherence_failures.len() > 0
        }),
{
    let c = readiness.clients[0];
    let a = lemma_gap(
        Seq::empty(),
        !c.ready_for_private_client_claim,
        "ready_for_private_client_claim_not_yet_proven"@,
        x,
    );
    let b = lemma_gap(
        a,
        d.eligible_candidates == 0,
        "no_eligible_installed_config_candidate_found"@,
        x,
    );
    let e = lemma_gap(
        b,
        d.private_client_target_eligible_candidates == 0,
        "private_client_target_config_not_discovered"@,
        x,
    );
    let f = lemma_gap(e, !c.has_observed_app_hook, "observed_app_hook_proof_missing"@, x);
    let g = lemma_gap(
        f,
        !c.has_observed_in_client_render,
        "observed_in_client_render_proof_missing"@,
        x,
    );
    let h = lemma_gap(
        g,
        !c.has_observed_review_action,
        "observed_review_action_proof_missing"@,
        x,
    );
    let i = lemma_gap(
        h,
        c.artifact_failures.len() > 0,
        "stored_evidence_artifact_replay_has_failures"@,
        x,
    );
    let j = lemma_gap(i, c.coherence_failures.len() > 0, super::bundle::IDENTITY_GAP@, x);
    assert(crate::text::nil() =~= Seq::<Seq<char>>::empty());
    assert(j == gaps_of(readiness, d));
    assert(!Seq::<Seq<char>>::empty().contains(x));
}

proof fn lemma_gap(list: Seq<Seq<char>>, wanted: bool, gap: Seq<char>, x: Seq<char>) -> (next: Seq<
    Seq<char>,
>)
    ensures
        next == super::bundle::gap_if(list, wanted, gap),
        next.contains(x) <==> list.contains(x) || (wanted && x == gap),
{
    let next = super::bundle::gap_if(list, wanted, gap);
    if wanted {
        if list.contains(x) {
            let k = choose|k: int| 0 <= k < list.len() && list[k] == x;
            assert(next[k] == x);
        }
        assert(next[next.len() - 1] == gap);
        if next.contains(x) {
            let k = choose|k: int| 0 <= k < next.len() && next[k] == x;
            if k < list.len() {
                assert(list[k] == x);
            }
        }
    }
    next
}

/// The environment of a hook that is prepared names the client, its event, its source and
/// its nonce, each under its own name.
pub proof fn law_prepared_environment_names_the_client(
    client: Seq<char>,
    source: Seq<char>,
    nonce: Seq<char>,
)
    ensures
        ({
            let env = lifecycle_env(client, source, nonce);
            &&& env[0] == ("SOMA_ADAPTER_LIFECYCLE_CLIENT"@, JsonView::Text(client))
            &&& env[1] == (
                "SOMA_ADAPTER_LIFECYCLE_EVENT"@,
                JsonView::Text(super::places::lifecycle_event(client)),
            )
            &&& env[2] == ("SOMA_ADAPTER_LIFECYCLE_EVENT_SOURCE"@, JsonView::Text(source))
            &&& env[3] == ("SOMA_ADAPTER_LIFECYCLE_BINDING_NONCE"@, JsonView::Text(nonce))
            &&& env.len() == 8
        }),
{
}

}
