//! What holds of all evidence and of all nonces.
use super::artifacts::{is_verified, replay};
use super::nonce::{is_made_nonce, normalized_nonce};
use super::places::{holds_path, unique};
use super::repair::unique_commands;
use super::types::{BindingFault, EvidenceArtifactStatus};
use crate::path::is_same_path;
use crate::fingerprint::fingerprint;
use crate::outside::is_uuid_text;
use crate::text::{is_control, is_space, law_nothing_to_trim, trimmed};
use vstd::prelude::*;
use vstd::string::*;
use vstd::utf8::{encode_scalar, encode_utf8};

verus! {

// ---------------------------------------------------------------------------
// Evidence files
// ---------------------------------------------------------------------------

/// A file that is as it was when it was recorded is verified, whatever its kind.
pub proof fn law_unchanged_file_is_verified(kind: Seq<char>, bytes: Seq<u8>)
    requires
        bytes.len() <= u64::MAX,
    ensures
        replay(kind, bytes, Some(bytes.len() as u64), Some(fingerprint(bytes)))
            == EvidenceArtifactStatus::Verified,
{
}

/// An event file that has only grown since it was recorded is verified as such.
pub proof fn law_grown_event_file_is_verified(was: Seq<u8>, more: Seq<u8>)
    requires
        was.len() + more.len() <= u64::MAX,
        more.len() > 0,
    ensures
        replay("event_jsonl"@, was + more, Some(was.len() as u64), Some(fingerprint(was)))
            == EvidenceArtifactStatus::VerifiedAppendOnlyGrowth,
{
    assert((was + more).take(was.len() as int) =~= was);
}

/// No file but an event file may change its length, and no file at all may become shorter.
pub proof fn law_other_files_may_not_grow(
    kind: Seq<char>,
    bytes: Seq<u8>,
    byte_len: u64,
    print: Seq<char>,
)
    requires
        bytes.len() <= u64::MAX,
        bytes.len() != byte_len,
        kind != "event_jsonl"@ || bytes.len() < byte_len,
    ensures
        replay(kind, bytes, Some(byte_len), Some(print)) == EvidenceArtifactStatus::Changed,
{
}

/// A file is verified only against a record of its length and its fingerprint.
pub proof fn law_nothing_is_verified_without_a_record(
    kind: Seq<char>,
    bytes: Seq<u8>,
    byte_len: Option<u64>,
    print: Option<Seq<char>>,
)
    requires
        is_verified(replay(kind, bytes, byte_len, print)),
    ensures
        byte_len is Some,
        print is Some,
{
}

// ---------------------------------------------------------------------------
// Nonces
// ---------------------------------------------------------------------------

proof fn lemma_ascii_len(s: Seq<char>)
    requires
        forall|i: int| 0 <= i < s.len() ==> (#[trigger] s[i]) as u32 <= 0x7f,
    ensures
        encode_utf8(s).len() == s.len(),
    decreases s.len(),
{
    reveal_with_fuel(encode_utf8, 2);
    if s.len() > 0 {
        let rest = s.drop_first();
        assert forall|i: int| 0 <= i < rest.len() implies (#[trigger] rest[i]) as u32 <= 0x7f by {
            assert(rest[i] == s[i + 1]);
        }
        lemma_ascii_len(rest);
        assert(s[0] as u32 <= 0x7f);
        assert(encode_scalar(s[0] as u32).len() == 1);
    }
}

/// A nonce that is made here can be given back: it is taken as it is.
pub proof fn law_made_nonce_is_kept(nonce: Seq<char>)
    requires
        is_made_nonce(nonce),
    ensures
        normalized_nonce(nonce) == Ok::<Seq<char>, BindingFault>(nonce),
{
    reveal_strlit("soma-bind-");
    let id = choose|id: Seq<char>|
        #[trigger] is_uuid_text(id) && nonce == "soma-bind-"@ + id;
    assert(nonce.len() == 46);
    assert forall|i: int| 0 <= i < nonce.len() implies (#[trigger] nonce[i]) as u32 <= 0x7f
        && !is_space(nonce[i]) && !is_control(nonce[i]) by {
        if i < 10 {
            assert(nonce[i] == "soma-bind-"@[i]);
        } else {
            assert(nonce[i] == id[i - 10]);
        }
    }
    assert(nonce.last() == nonce[45]);
    law_nothing_to_trim(nonce);
    lemma_ascii_len(nonce);
}

/// A nonce that was taken once is taken again as it is.
pub proof fn law_taken_nonce_is_one_token(value: Seq<char>)
    requires
        normalized_nonce(value) is Ok,
    ensures
        ({
            let n = normalized_nonce(value)->Ok_0;
            &&& n.len() > 0
            &&& forall|i: int| 0 <= i < n.len() ==> !is_space(#[trigger] n[i]) && !is_control(n[i])
            &&& normalized_nonce(n) == Ok::<Seq<char>, BindingFault>(n)
        }),
{
    let n = trimmed(value);
    assert(n.last() == n[n.len() - 1]);
    law_nothing_to_trim(n);
}

// ---------------------------------------------------------------------------
// Lists without repetitions
// ---------------------------------------------------------------------------

/// A list without repetitions holds no path twice, holds only paths of the list, and holds
/// each path of the list, written so or with the same components.
pub proof fn law_unique_holds_each_once(paths: Seq<Seq<char>>)
    ensures
        forall|i: int, j: int|
            0 <= i < j < unique(paths).len() ==> !is_same_path(
                #[trigger] unique(paths)[i],
                #[trigger] unique(paths)[j],
            ),
        forall|i: int|
            0 <= i < unique(paths).len() ==> paths.contains(#[trigger] unique(paths)[i]),
        forall|i: int|
            0 <= i < paths.len() ==> holds_path(unique(paths), #[trigger] paths[i]),
    decreases paths.len(),
{
    if paths.len() > 0 {
        let front = paths.drop_last();
        law_unique_holds_each_once(front);
        let u = unique(front);
        let r = unique(paths);
        assert forall|i: int| 0 <= i < r.len() implies paths.contains(#[trigger] r[i]) by {
            if i < u.len() {
                assert(front.contains(u[i]));
                let k = choose|k: int| 0 <= k < front.len() && front[k] == u[i];
                assert(paths[k] == r[i]);
            } else {
                assert(paths[paths.len() - 1] == r[i]);
            }
        }
        assert forall|i: int| 0 <= i < paths.len() implies holds_path(r, #[trigger] paths[i]) by {
            if i < front.len() {
                assert(holds_path(u, front[i]));
                let k = choose|k: int| 0 <= k < u.len() && is_same_path(#[trigger] u[k], front[i]);
                assert(is_same_path(r[k], paths[i]));
            } else if !holds_path(u, paths.last()) {
                assert(is_same_path(r[r.len() - 1], paths[i]));
            }
        }
    }
}

/// Commands without repetitions: each of them stands once, and none is lost.
pub proof fn law_unique_commands_stand_once(commands: Seq<Seq<Seq<char>>>)
    ensures
        unique_commands(commands).no_duplicates(),
        forall|i: int|
            0 <= i < unique_commands(commands).len() ==> commands.contains(
                #[trigger] unique_commands(commands)[i],
            ),
        forall|i: int|
            0 <= i < commands.len() ==> unique_commands(commands).contains(#[trigger] commands[i]),
    decreases commands.len(),
{
    if commands.len() > 0 {
        let front = commands.drop_last();
        law_unique_commands_stand_once(front);
        let r = unique_commands(commands);
        assert forall|i: int| 0 <= i < r.len() implies commands.contains(#[trigger] r[i]) by {
            if i < unique_commands(front).len() {
                assert(r[i] == unique_commands(front)[i]);
                assert(front.contains(r[i]));
                let j = choose|j: int| 0 <= j < front.len() && front[j] == r[i];
                assert(commands[j] == r[i]);
            } else {
                assert(commands[commands.len() - 1] == r[i]);
            }
        }
        assert forall|i: int| 0 <= i < commands.len() implies r.contains(#[trigger] commands[i]) by {
            let u = unique_commands(front);
            if i < front.len() {
                assert(u.contains(front[i]));
                let k = choose|k: int| 0 <= k < u.len() && u[k] == front[i];
                assert(r[k] == commands[i]);
            } else if u.contains(commands.last()) {
                let k = choose|k: int| 0 <= k < u.len() && u[k] == commands.last();
                assert(r[k] == commands[i]);
            } else {
                assert(r[r.len() - 1] == commands[i]);
            }
        }
    }
}

}
