//! Stored evidence files: whether they are still what they were.
use super::types::{
    ClientBindingEvidenceArtifactVerification, ClientBindingEvidenceArtifactVerificationView,
    EvidenceArtifactCheck, EvidenceArtifactCheckView, EvidenceArtifactStatus, ObservedFile,
    ObservedFileView,
};
use crate::fingerprint::{fingerprint, stable_content_fingerprint};
use crate::json::{as_text, as_u64, get, Json, JsonView};
use crate::outcome::{borrowed, copy_text, owned, trim_nonblank, trimmed_nonblank};
use crate::storage::{StoredClientBindingProof, StoredClientBindingProofView};
use crate::text::{nil, none, same, with};
use vstd::prelude::*;

verus! {

/// The file is what it was, or has only grown where growing is allowed.
pub open spec fn is_verified(s: EvidenceArtifactStatus) -> bool {
    s == EvidenceArtifactStatus::Verified || s == EvidenceArtifactStatus::VerifiedAppendOnlyGrowth
}

pub fn evidence_artifact_status_is_verified(status: EvidenceArtifactStatus) -> (r: bool)
    ensures
        r == is_verified(status),
{
    match status {
        EvidenceArtifactStatus::Verified | EvidenceArtifactStatus::VerifiedAppendOnlyGrowth => true,
        _ => false,
    }
}

/// What became of a file with these bytes. An event file may have grown, where the part
/// that was there before is unchanged.
pub open spec fn replay(
    kind: Seq<char>,
    bytes: Seq<u8>,
    byte_len: Option<u64>,
    print: Option<Seq<char>>,
) -> EvidenceArtifactStatus {
    if byte_len == Some(bytes.len() as u64) && print == Some(fingerprint(bytes)) {
        EvidenceArtifactStatus::Verified
    } else if kind == "event_jsonl"@ && byte_len is Some && print is Some && bytes.len()
        > byte_len->0 && fingerprint(bytes.take(byte_len->0 as int)) == print->0 {
        EvidenceArtifactStatus::VerifiedAppendOnlyGrowth
    } else {
        EvidenceArtifactStatus::Changed
    }
}

pub fn artifact_replay_status(
    kind: &str,
    bytes: &Vec<u8>,
    expected_byte_len: Option<u64>,
    expected_fingerprint: Option<&str>,
) -> (r: EvidenceArtifactStatus)
    ensures
        r == replay(kind@, bytes@, expected_byte_len, expected_fingerprint.deep_view()),
{
    let (len, print) = match (expected_byte_len, expected_fingerprint) {
        (Some(l), Some(p)) => (l, p),
        _ => return EvidenceArtifactStatus::Changed,
    };
    let actual: u64 = bytes.len() as u64;
    if actual == len && same(stable_content_fingerprint(bytes.as_slice()).as_str(), print) {
        return EvidenceArtifactStatus::Verified;
    }
    if same(kind, "event_jsonl") && actual > len {
        let prefix = vstd::slice::slice_subrange(bytes.as_slice(), 0, len as usize);
        assert(prefix@ =~= bytes@.take(len as int));
        if same(stable_content_fingerprint(prefix).as_str(), print) {
            return EvidenceArtifactStatus::VerifiedAppendOnlyGrowth;
        }
    }
    EvidenceArtifactStatus::Changed
}

/// The file that was found at a path.
pub open spec fn found_at(files: Seq<ObservedFileView>, path: Seq<char>) -> Option<ObservedFileView>
    decreases files.len(),
{
    if files.len() == 0 {
        None
    } else if files[0].path == path {
        Some(files[0])
    } else {
        found_at(files.skip(1), path)
    }
}

pub fn find_file<'a>(files: &'a Vec<ObservedFile>, path: &str) -> (r: Option<&'a ObservedFile>)
    ensures
        r.deep_view() == found_at(files.deep_view(), path@),
{
    let ghost all = files.deep_view();
    let mut i: usize = 0;
    assert(all.skip(0) =~= all);
    while i < files.len()
        invariant
            i <= files.len(),
            all == files.deep_view(),
            found_at(all, path@) == found_at(all.skip(i as int), path@),
        decreases files.len() - i,
    {
        assert(all.skip(i as int)[0] == files[i as int].deep_view());
        if same(files[i].path.as_str(), path) {
            return Some(&files[i]);
        }
        assert(all.skip(i as int).skip(1) =~= all.skip(i + 1));
        i = i + 1;
    }
    None
}

/// A record that is there and not null.
pub open spec fn scan_record(v: Option<JsonView>) -> Option<JsonView> {
    match v {
        Some(JsonView::Null) => None,
        _ => v,
    }
}

fn record<'a>(v: Option<&'a Json>) -> (r: Option<&'a Json>)
    ensures
        r.deep_view() == scan_record(v.deep_view()),
{
    match v {
        Some(Json::Null) => None,
        _ => v,
    }
}

pub open spec fn record_text(scan: Option<JsonView>, name: Seq<char>) -> Option<Seq<char>> {
    match scan {
        Some(s) => trimmed_nonblank(as_text(get(s, name))),
        None => None,
    }
}

fn recorded(scan: Option<&Json>, name: &str) -> (r: Option<String>)
    ensures
        r.deep_view() == record_text(scan.deep_view(), name@),
{
    match scan {
        Some(s) => owned(trim_nonblank(s.get_text(name))),
        None => None,
    }
}

/// Where the file of a record is: as the record says, else as the proof says.
pub open spec fn record_path(row_path: Option<Seq<char>>, scan: Option<JsonView>) -> Option<
    Seq<char>,
> {
    match record_text(scan_record(scan), "path"@) {
        Some(p) => Some(p),
        None => trimmed_nonblank(row_path),
    }
}

pub fn artifact_path(row_path: Option<&str>, scan: Option<&Json>) -> (r: Option<String>)
    ensures
        r.deep_view() == record_path(row_path.deep_view(), scan.deep_view()),
{
    match recorded(record(scan), "path") {
        Some(p) => Some(p),
        None => owned(trim_nonblank(row_path)),
    }
}

pub const NO_PATH: &'static str = "stored proof row has no artifact path";

pub const NO_RECORD: &'static str =
    "stored proof row lacks byte length or fingerprint for this artifact";

pub const NOT_READ: &'static str = "artifact was not read";

/// What became of one evidence file of a proof: nothing to tell where the proof has
/// none.
pub open spec fn checked(
    kind: Seq<char>,
    row_path: Option<Seq<char>>,
    scan: Option<JsonView>,
    files: Seq<ObservedFileView>,
) -> Option<EvidenceArtifactCheckView> {
    let rec = scan_record(scan);
    let path = record_path(row_path, scan);
    let len = match rec {
        Some(s) => as_u64(get(s, "byte_len"@)),
        None => None,
    };
    let print = record_text(rec, "fingerprint"@);
    let base = EvidenceArtifactCheckView {
        kind,
        path,
        expected_byte_len: len,
        actual_byte_len: None,
        expected_fingerprint: print,
        actual_fingerprint: None,
        status: EvidenceArtifactStatus::Unreadable,
        error: None,
    };
    if rec is None && trimmed_nonblank(row_path) is None {
        None
    } else if path is None {
        Some(
            EvidenceArtifactCheckView {
                status: EvidenceArtifactStatus::MissingPath,
                error: Some(NO_PATH@),
                ..base
            },
        )
    } else if len is None || print is None {
        Some(
            EvidenceArtifactCheckView {
                status: EvidenceArtifactStatus::MissingExpectedRecord,
                error: Some(NO_RECORD@),
                ..base
            },
        )
    } else {
        match found_at(files, path->0) {
            None => Some(EvidenceArtifactCheckView { error: Some(NOT_READ@), ..base }),
            Some(f) => match f.read_error {
                Some(e) => Some(
                    EvidenceArtifactCheckView {
                        status: if f.not_found {
                            EvidenceArtifactStatus::MissingFile
                        } else {
                            EvidenceArtifactStatus::Unreadable
                        },
                        error: Some(e),
                        ..base
                    },
                ),
                None => Some(
                    EvidenceArtifactCheckView {
                        actual_byte_len: Some(f.contents.len() as u64),
                        actual_fingerprint: Some(fingerprint(f.contents)),
                        status: replay(kind, f.contents, len, print),
                        ..base
                    },
                ),
            },
        }
    }
}

/// Compares one evidence file of a proof with its record.
pub fn verify_artifact_reference(
    kind: &str,
    row_path: Option<&str>,
    scan: Option<&Json>,
    files: &Vec<ObservedFile>,
) -> (r: Option<EvidenceArtifactCheck>)
    ensures
        r.deep_view() == checked(
            kind@,
            row_path.deep_view(),
            scan.deep_view(),
            files.deep_view(),
        ),
{
    let path = artifact_path(row_path, scan);
    let rec = record(scan);
    if rec.is_none() && trim_nonblank(row_path).is_none() {
        return None;
    }
    let len = match rec {
        Some(s) => s.get_u64("byte_len"),
        None => None,
    };
    let print = recorded(rec, "fingerprint");
    let mut check = EvidenceArtifactCheck {
        kind: kind.to_string(),
        path: copy_text(&path),
        expected_byte_len: len,
        actual_byte_len: None,
        expected_fingerprint: copy_text(&print),
        actual_fingerprint: None,
        status: EvidenceArtifactStatus::Unreadable,
        error: None,
    };
    match &path {
        None => {
            check.status = EvidenceArtifactStatus::MissingPath;
            check.error = Some(NO_PATH.to_string());
        },
        Some(p) => {
            if len.is_none() || print.is_none() {
                check.status = EvidenceArtifactStatus::MissingExpectedRecord;
                check.error = Some(NO_RECORD.to_string());
            } else {
                match find_file(files, p.as_str()) {
                    None => {
                        check.error = Some(NOT_READ.to_string());
                    },
                    Some(f) => {
                        assert(f.contents.deep_view() =~= f.contents@);
                        match &f.read_error {
                            Some(e) => {
                                check.error = Some(e.clone());
                                if f.not_found {
                                    check.status = EvidenceArtifactStatus::MissingFile;
                                }
                            },
                            None => {
                                check.actual_byte_len = Some(f.contents.len() as u64);
                                check.actual_fingerprint =
                                Some(stable_content_fingerprint(f.contents.as_slice()));
                                check.status =
                                artifact_replay_status(kind, &f.contents, len, borrowed(&print));
                            },
                        }
                    },
                }
            }
        },
    }
    Some(check)
}

pub open spec fn add_check(
    list: Seq<EvidenceArtifactCheckView>,
    c: Option<EvidenceArtifactCheckView>,
) -> Seq<EvidenceArtifactCheckView> {
    match c {
        Some(c) => list.push(c),
        None => list,
    }
}

fn push_check(list: Vec<EvidenceArtifactCheck>, c: Option<EvidenceArtifactCheck>) -> (r: Vec<
    EvidenceArtifactCheck,
>)
    ensures
        r.deep_view() == add_check(list.deep_view(), c.deep_view()),
{
    match c {
        Some(c) => with(list, c),
        None => list,
    }
}

/// What became of the evidence files of a proof.
pub open spec fn proof_checks(
    p: StoredClientBindingProofView,
    files: Seq<ObservedFileView>,
) -> Seq<EvidenceArtifactCheckView> {
    let c = p.checks_json;
    let l1 = add_check(
        Seq::empty(),
        checked("manifest"@, Some(p.manifest_path), get(c, "manifest_scan"@), files),
    );
    let l2 = add_check(
        l1,
        checked("event_jsonl"@, p.event_jsonl_path, get(c, "event_scan"@), files),
    );
    let l3 = add_check(
        l2,
        checked(
            "installed_config"@,
            p.installed_config_path,
            get(c, "installed_config_scan"@),
            files,
        ),
    );
    let l4 = add_check(
        l3,
        checked(
            "render_evidence"@,
            p.render_evidence_path,
            get(c, "render_evidence_scan"@),
            files,
        ),
    );
    add_check(
        l4,
        checked(
            "review_action_report"@,
            p.review_action_report_path,
            get(c, "review_action_report_scan"@),
            files,
        ),
    )
}

/// There is something, and all of it is verified.
pub open spec fn all_verified(checks: Seq<EvidenceArtifactCheckView>) -> bool {
    checks.len() > 0 && forall|i: int|
        0 <= i < checks.len() ==> is_verified((#[trigger] checks[i]).status)
}

pub open spec fn verification(
    p: StoredClientBindingProofView,
    files: Seq<ObservedFileView>,
) -> ClientBindingEvidenceArtifactVerificationView {
    ClientBindingEvidenceArtifactVerificationView {
        proof_id: p.id,
        client: p.client,
        proof_level: p.proof_level,
        all_artifacts_verified: all_verified(proof_checks(p, files)),
        artifact_checks: proof_checks(p, files),
    }
}

fn every_verified(checks: &Vec<EvidenceArtifactCheck>) -> (r: bool)
    ensures
        r == forall|i: int|
            0 <= i < checks.len() ==> is_verified((#[trigger] checks.deep_view()[i]).status),
{
    let mut i: usize = 0;
    while i < checks.len()
        invariant
            i <= checks.len(),
            forall|j: int|
                0 <= j < i ==> is_verified((#[trigger] checks.deep_view()[j]).status),
        decreases checks.len() - i,
    {
        assert(checks.deep_view()[i as int].status == checks[i as int].status);
        if !evidence_artifact_status_is_verified(checks[i].status) {
            return false;
        }
        i = i + 1;
    }
    true
}

/// Compares the evidence files of a proof with their records.
pub fn verify_proof_artifacts(
    proof: &StoredClientBindingProof,
    files: &Vec<ObservedFile>,
) -> (r: ClientBindingEvidenceArtifactVerification)
    ensures
        r.deep_view() == verification(proof.deep_view(), files.deep_view()),
{
    let c = &proof.checks_json;
    let list: Vec<EvidenceArtifactCheck> = none();
    let list = push_check(
        list,
        verify_artifact_reference(
            "manifest",
            Some(proof.manifest_path.as_str()),
            c.get("manifest_scan"),
            files,
        ),
    );
    let list = push_check(
        list,
        verify_artifact_reference(
            "event_jsonl",
            borrowed(&proof.event_jsonl_path),
            c.get("event_scan"),
            files,
        ),
    );
    let list = push_check(
        list,
        verify_artifact_reference(
            "installed_config",
            borrowed(&proof.installed_config_path),
            c.get("installed_config_scan"),
            files,
        ),
    );
    let list = push_check(
        list,
        verify_artifact_reference(
            "render_evidence",
            borrowed(&proof.render_evidence_path),
            c.get("render_evidence_scan"),
            files,
        ),
    );
    let list = push_check(
        list,
        verify_artifact_reference(
            "review_action_report",
            borrowed(&proof.review_action_report_path),
            c.get("review_action_report_scan"),
            files,
        ),
    );
    assert(list.deep_view().len() == list.len());
    let all_artifacts_verified = list.len() > 0 && every_verified(&list);
    ClientBindingEvidenceArtifactVerification {
        proof_id: proof.id,
        client: proof.client.clone(),
        proof_level: proof.proof_level,
        all_artifacts_verified,
        artifact_checks: list,
    }
}

pub open spec fn verifications(
    proofs: Seq<StoredClientBindingProofView>,
    files: Seq<ObservedFileView>,
) -> Seq<ClientBindingEvidenceArtifactVerificationView> {
    Seq::new(proofs.len(), |i: int| verification(proofs[i], files))
}

pub fn verify_all(proofs: &Vec<StoredClientBindingProof>, files: &Vec<ObservedFile>) -> (r: Vec<
    ClientBindingEvidenceArtifactVerification,
>)
    ensures
        r.deep_view() == verifications(proofs.deep_view(), files.deep_view()),
{
    let mut out: Vec<ClientBindingEvidenceArtifactVerification> = none();
    let mut i: usize = 0;
    while i < proofs.len()
        invariant
            i <= proofs.len(),
            out.deep_view() =~= verifications(proofs.deep_view(), files.deep_view()).take(
                i as int,
            ),
        decreases proofs.len() - i,
    {
        assert(proofs.deep_view()[i as int] == proofs[i as int].deep_view());
        out = with(out, verify_proof_artifacts(&proofs[i], files));
        i = i + 1;
    }
    assert(verifications(proofs.deep_view(), files.deep_view()).take(i as int) =~= verifications(
        proofs.deep_view(),
        files.deep_view(),
    ));
    out
}

/// The paths of the evidence files of a proof, in order.
pub open spec fn proof_paths(p: StoredClientBindingProofView) -> Seq<Seq<char>> {
    let c = p.checks_json;
    let l1 = add_path(nil(), record_path(Some(p.manifest_path), get(c, "manifest_scan"@)));
    let l2 = add_path(l1, record_path(p.event_jsonl_path, get(c, "event_scan"@)));
    let l3 = add_path(
        l2,
        record_path(p.installed_config_path, get(c, "installed_config_scan"@)),
    );
    let l4 = add_path(l3, record_path(p.render_evidence_path, get(c, "render_evidence_scan"@)));
    add_path(
        l4,
        record_path(p.review_action_report_path, get(c, "review_action_report_scan"@)),
    )
}

pub open spec fn add_path(list: Seq<Seq<char>>, p: Option<Seq<char>>) -> Seq<Seq<char>> {
    match p {
        Some(p) => list.push(p),
        None => list,
    }
}

fn push_path(list: Vec<String>, p: Option<String>) -> (r: Vec<String>)
    ensures
        r.deep_view() == add_path(list.deep_view(), p.deep_view()),
{
    match p {
        Some(p) => with(list, p),
        None => list,
    }
}

/// The files that are read to verify a proof.
pub fn evidence_paths(proof: &StoredClientBindingProof) -> (r: Vec<String>)
    ensures
        r.deep_view() == proof_paths(proof.deep_view()),
{
    let c = &proof.checks_json;
    let list = push_path(
        none(),
        artifact_path(Some(proof.manifest_path.as_str()), c.get("manifest_scan")),
    );
    let list = push_path(
        list,
        artifact_path(borrowed(&proof.event_jsonl_path), c.get("event_scan")),
    );
    let list = push_path(
        list,
        artifact_path(borrowed(&proof.installed_config_path), c.get("installed_config_scan")),
    );
    let list = push_path(
        list,
        artifact_path(borrowed(&proof.render_evidence_path), c.get("render_evidence_scan")),
    );
    push_path(
        list,
        artifact_path(
            borrowed(&proof.review_action_report_path),
            c.get("review_action_report_scan"),
        ),
    )
}

}
