//! Evidence of rendered reviews and of review actions.
use super::config::{add_if, lemma_add_if, push_if};
use super::files::{metadata_failed, metadata_fault, read_failed, read_fault};
use super::surfaces::{
    contract_version, controls_on, count, count_surfaces, expected_controls, has_placeholder,
    is_raw_surface, is_visible_surface, names_in, placeholders, raw_outputs, rendered_surface_control_ids, rendered_surface_names, required_names,
    review_render_control_ids, review_render_interaction_contract_version,
    review_render_required_surface_names, review_render_workbench_version, visible,
    workbench_version,
};
use super::types::{
    malformed, refuse, AdapterBindingProofError, BindingFault, FileFingerprintScan,
    FileFingerprintScanView, ObservedFile, ObservedFileView, RenderEvidenceScan,
    RenderEvidenceScanView, ReviewActionReportScan, ReviewActionReportScanView,
};
use crate::dup::Dup;
use crate::fingerprint::{fingerprint, stable_content_fingerprint};
use crate::json::{
    as_bool, as_i64, as_list, as_text, as_u64, at, count_of, get, list_in, list_len, list_texts,
    opt_bool, opt_int, opt_text, text_in, text_list, texts_of, Json, JsonView, Members,
};
use crate::outcome::{borrowed, outcome, owned, trim_nonblank, trimmed_nonblank, verdict};
use crate::outside::{json_of, json_of_bytes, parse_json, parse_json_bytes, utf8_fault, utf8_text};
use crate::storage::ClientBindingProofLevel;
use crate::text::{
    cat2, cat3, cat4, join, joined, listed, lower, lowered, nil, none, ordered_set, same, sorted,
    trim, trimmed, with, words_of,
};
use vstd::prelude::*;
use vstd::string::*;
use vstd::utf8::{decode_utf8, valid_utf8};

verus! {

pub const RENDER_EVIDENCE_SCHEMA: &'static str = "soma.in_client_render_evidence.v1";

pub const RENDER_EVIDENCE_BOUNDARY: &'static str =
    "observed_in_client_render_is_ui_only_and_never_verifies_promotes_applies_or_acknowledges";

pub const REVIEW_ACTION_BOUNDARY: &'static str =
    "review_action_uses_verification_storage_gates_and_required_current_control_binding";

// ---------------------------------------------------------------------------
// Rendered reviews
// ---------------------------------------------------------------------------

/// The member of a value that may be missing.
pub open spec fn member(v: Option<JsonView>, name: Seq<char>) -> Option<JsonView> {
    match v {
        Some(v) => get(v, name),
        None => None,
    }
}

fn part<'a>(v: Option<&'a Json>, name: &str) -> (r: Option<&'a Json>)
    ensures
        r.deep_view() == member(v.deep_view(), name@),
{
    match v {
        Some(j) => j.get(name),
        None => None,
    }
}

fn part_text(v: Option<&Json>, name: &str) -> (r: Option<String>)
    ensures
        r.deep_view() == as_text(member(v.deep_view(), name@)),
{
    owned(text_in(part(v, name)))
}

/// The surfaces that render evidence tells of: none where it tells of none.
pub open spec fn surfaces_of(v: Option<JsonView>) -> Seq<JsonView> {
    match as_list(member(v, "rendered_surfaces"@)) {
        Some(s) => s,
        None => Seq::empty(),
    }
}

/// How many surfaces render evidence tells of: it may give their number alone.
pub open spec fn surface_count(v: Option<JsonView>) -> usize {
    match as_list(member(v, "rendered_surfaces"@)) {
        Some(s) => s.len() as usize,
        None => match as_u64(member(v, "rendered_surface_count"@)) {
            Some(n) => if n <= usize::MAX {
                n as usize
            } else {
                0
            },
            None => 0,
        },
    }
}

/// What render evidence holds, before it is compared with a report.
pub open spec fn render_scan(
    path: Seq<char>,
    bytes: Seq<u8>,
    parsed: Result<JsonView, Seq<char>>,
) -> RenderEvidenceScanView {
    let v = match parsed {
        Ok(v) => Some(v),
        Err(_) => None,
    };
    let surfaces = surfaces_of(v);
    RenderEvidenceScanView {
        path,
        byte_len: bytes.len() as u64,
        fingerprint: fingerprint(bytes),
        json_parse_error: match parsed {
            Ok(_) => None,
            Err(e) => Some(e),
        },
        schema: as_text(member(v, "schema"@)),
        client: match as_text(member(v, "client"@)) {
            Some(c) => Some(lowered(trimmed(c))),
            None => None,
        },
        source: as_text(member(v, "source"@)),
        observed_at_ns: as_i64(member(v, "observed_at_ns"@)),
        review_render_fingerprint: as_text(member(v, "review_render_fingerprint"@)),
        review_workbench_version: as_text(member(v, "review_workbench_version"@)),
        review_interaction_contract_version: as_text(
            member(v, "review_interaction_contract_version"@),
        ),
        rendered_surface_count: surface_count(v),
        rendered_surface_placeholder_count: placeholders(surfaces) as usize,
        raw_tool_output_surface_count: raw_outputs(surfaces) as usize,
        visible_surface_count: visible(surfaces) as usize,
        rendered_surface_names: ordered_set(names_in(surfaces)),
        expected_surface_names: nil(),
        missing_surface_names: nil(),
        rendered_control_ids: ordered_set(list_texts(member(v, "rendered_control_ids"@))),
        action_surface_rendered_control_ids: ordered_set(
            controls_on(surfaces, "action_buttons"@),
        ),
        missing_action_surface_control_ids: nil(),
        expected_control_ids: nil(),
        missing_control_ids: nil(),
        trust_boundary: as_text(member(v, "trust_boundary"@)),
        valid_structured_render_evidence: false,
        missing_requirements: nil(),
    }
}

pub open spec fn parse_view(p: Result<Json, String>) -> Result<JsonView, Seq<char>> {
    match p {
        Ok(j) => Ok(j@),
        Err(e) => Err(e@),
    }
}

/// What render evidence holds, of which the JSON was read.
pub fn render_evidence_scan_of(
    path: &str,
    bytes: &[u8],
    parsed: &Result<Json, String>,
) -> (r: RenderEvidenceScan)
    ensures
        r.deep_view() == render_scan(path@, bytes@, parse_view(*parsed)),
{
    let v: Option<&Json> = match parsed {
        Ok(j) => Some(j),
        Err(_) => None,
    };
    let empty: Vec<Json> = none();
    let surfaces: &Vec<Json> = match list_in(part(v, "rendered_surfaces")) {
        Some(s) => s,
        None => &empty,
    };
    assert(surfaces.deep_view() == surfaces_of(v.deep_view()));
    let rendered_surface_count: usize = match list_in(part(v, "rendered_surfaces")) {
        Some(s) => {
            assert(s.deep_view().len() == s.len());
            s.len()
        },
        None => {
            let given = match v {
                Some(j) => j.get_u64("rendered_surface_count"),
                None => None,
            };
            match given {
                Some(n) => if n <= usize::MAX as u64 {
                    n as usize
                } else {
                    0
                },
                None => 0,
            }
        },
    };
    let (a, b, c) = count_surfaces(surfaces);
    let observed_at_ns = match v {
        Some(j) => j.get_i64("observed_at_ns"),
        None => None,
    };
    let client = match text_in(part(v, "client")) {
        Some(c) => Some(lower(trim(c))),
        None => None,
    };
    let json_parse_error = match parsed {
        Ok(_) => None,
        Err(e) => Some(e.clone()),
    };
    RenderEvidenceScan {
        path: path.to_string(),
        byte_len: bytes.len() as u64,
        fingerprint: stable_content_fingerprint(bytes),
        json_parse_error,
        schema: part_text(v, "schema"),
        client,
        source: part_text(v, "source"),
        observed_at_ns,
        review_render_fingerprint: part_text(v, "review_render_fingerprint"),
        review_workbench_version: part_text(v, "review_workbench_version"),
        review_interaction_contract_version: part_text(v, "review_interaction_contract_version"),
        rendered_surface_count,
        rendered_surface_placeholder_count: a,
        raw_tool_output_surface_count: b,
        visible_surface_count: c,
        rendered_surface_names: rendered_surface_names(surfaces),
        expected_surface_names: none(),
        missing_surface_names: none(),
        rendered_control_ids: sorted(&texts_of(part(v, "rendered_control_ids"))),
        action_surface_rendered_control_ids: rendered_surface_control_ids(
            surfaces,
            "action_buttons",
        ),
        missing_action_surface_control_ids: none(),
        expected_control_ids: none(),
        missing_control_ids: none(),
        trust_boundary: part_text(v, "trust_boundary"),
        valid_structured_render_evidence: false,
        missing_requirements: none(),
    }
}

pub const RENDER_LABEL: &'static str = "render evidence";

/// What a file with render evidence holds.
pub open spec fn scanned_render(file: ObservedFileView) -> Result<
    RenderEvidenceScanView,
    BindingFault,
> {
    if file.metadata_error is Some {
        Err(read_fault(RENDER_LABEL@, file.path, file.metadata_error->0))
    } else if !file.is_file || file.len == 0 {
        malformed("render evidence `"@ + file.path + "` must be a non-empty file"@)
    } else if file.read_error is Some {
        Err(read_fault(RENDER_LABEL@, file.path, file.read_error->0))
    } else if !valid_utf8(file.contents) {
        malformed(
            "render evidence `"@ + file.path + "` must be utf-8 structured JSON: "@ + utf8_fault(
                file.contents,
            ),
        )
    } else {
        Ok(render_scan(file.path, file.contents, json_of(decode_utf8(file.contents))))
    }
}

pub fn scan_render_evidence(file: &ObservedFile) -> (r: Result<
    RenderEvidenceScan,
    AdapterBindingProofError,
>)
    ensures
        outcome(r) == scanned_render(file.deep_view()),
{
    match &file.metadata_error {
        Some(e) => return Err(read_failed(RENDER_LABEL, file.path.as_str(), e.as_str())),
        None => {},
    }
    if !file.is_file || file.len == 0 {
        return refuse(
            cat3("render evidence `", file.path.as_str(), "` must be a non-empty file").as_str(),
        );
    }
    match &file.read_error {
        Some(e) => return Err(read_failed(RENDER_LABEL, file.path.as_str(), e.as_str())),
        None => {},
    }
    assert(file.contents.deep_view() =~= file.contents@);
    match utf8_text(file.contents.as_slice()) {
        Err(e) => refuse(
            cat4(
                "render evidence `",
                file.path.as_str(),
                "` must be utf-8 structured JSON: ",
                e.as_str(),
            ).as_str(),
        ),
        Ok(raw) => {
            let parsed = parse_json(raw.as_str());
            Ok(
                render_evidence_scan_of(
                    file.path.as_str(),
                    file.contents.as_slice(),
                    &parsed,
                ),
            )
        },
    }
}

/// A source that counts: an operator or a capture of the client.
pub open spec fn is_render_source(source: Seq<char>) -> bool {
    let s = trimmed(source);
    s == "manual_operator"@ || s == "client_capture"@ || s == "client_ui_capture"@ || s
        == "client_dom_capture"@ || s == "screenshot_ocr"@
}

pub fn is_allowed_render_evidence_source(source: &str) -> (r: bool)
    ensures
        r == is_render_source(source@),
{
    let s = trim(source);
    same(s, "manual_operator") || same(s, "client_capture") || same(s, "client_ui_capture") || same(
        s,
        "client_dom_capture",
    ) || same(s, "screenshot_ocr")
}

/// What a value that must match a report lacks: the report's value, or the match.
pub open spec fn match_lack(
    expected: Option<Seq<char>>,
    found: Option<Seq<char>>,
    mismatch: Seq<char>,
    unknown: Seq<char>,
) -> Option<Seq<char>> {
    match expected {
        Some(e) => if found == Some(e) {
            None
        } else {
            Some(mismatch)
        },
        None => Some(unknown),
    }
}

pub open spec fn add_some(list: Seq<Seq<char>>, item: Option<Seq<char>>) -> Seq<Seq<char>> {
    match item {
        Some(i) => list.push(i),
        None => list,
    }
}

fn push_mismatch(
    list: Vec<&'static str>,
    expected: Option<&str>,
    found: &Option<String>,
    mismatch: &'static str,
    unknown: &'static str,
) -> (r: Vec<&'static str>)
    ensures
        r.deep_view() == add_some(
            list.deep_view(),
            match_lack(expected.deep_view(), found.deep_view(), mismatch@, unknown@),
        ),
{
    match expected {
        Some(e) => {
            let equal = match found {
                Some(f) => same(f.as_str(), e),
                None => false,
            };
            if equal {
                list
            } else {
                with(list, mismatch)
            }
        },
        None => with(list, unknown),
    }
}

pub fn is_text(a: &Option<String>, b: &str) -> (r: bool)
    ensures
        r == (a.deep_view() == Some(b@)),
{
    match a {
        Some(s) => same(s.as_str(), b),
        None => false,
    }
}

/// What render evidence lacks, compared with a report.
pub open spec fn render_lacks(
    s: RenderEvidenceScanView,
    client: Seq<char>,
    report_fingerprint: Option<Seq<char>>,
    workbench: Option<Seq<char>>,
    contract: Option<Seq<char>>,
    names: Seq<Seq<char>>,
    controls: Seq<Seq<char>>,
) -> Seq<Seq<char>> {
    let a1 = add_if(nil(), s.json_parse_error is Some, "render_evidence_must_be_json"@);
    let a2 = add_if(
        a1,
        s.schema != Some(RENDER_EVIDENCE_SCHEMA@),
        "schema_must_be_soma_in_client_render_evidence_v1"@,
    );
    let a3 = add_if(a2, s.client != Some(client), "client_must_match_binding_target"@);
    let a4 = add_if(
        a3,
        !(s.source matches Some(x) && is_render_source(x)),
        "source_must_be_manual_operator_or_client_capture"@,
    );
    let a5 = add_if(
        a4,
        !(s.observed_at_ns matches Some(t) && t > 0),
        "observed_at_ns_must_be_positive"@,
    );
    let a6 = add_some(
        a5,
        match_lack(
            report_fingerprint,
            s.review_render_fingerprint,
            "review_render_fingerprint_must_match_report"@,
            "review_render_report_fingerprint_required"@,
        ),
    );
    let a7 = add_some(
        a6,
        match_lack(
            workbench,
            s.review_workbench_version,
            "review_workbench_version_must_match_report"@,
            "review_render_workbench_version_required"@,
        ),
    );
    let a8 = add_some(
        a7,
        match_lack(
            contract,
            s.review_interaction_contract_version,
            "review_interaction_contract_version_must_match_report"@,
            "review_render_interaction_contract_version_required"@,
        ),
    );
    let a9 = add_if(
        a8,
        s.rendered_surface_count == 0,
        "rendered_surfaces_must_be_non_empty"@,
    );
    let b1 = add_if(
        a9,
        s.rendered_surface_placeholder_count > 0,
        "rendered_surfaces_must_not_contain_template_placeholders"@,
    );
    let b2 = add_if(
        b1,
        s.raw_tool_output_surface_count > 0,
        "rendered_surfaces_must_not_be_raw_mcp_or_tool_output"@,
    );
    let b3 = add_if(
        b2,
        s.visible_surface_count == 0,
        "rendered_surfaces_must_include_visible_surface"@,
    );
    let b4 = add_if(
        b3,
        names.len() > 0 && s.rendered_surface_names.len() == 0,
        "rendered_surfaces_must_name_visible_review_surfaces"@,
    );
    let b5 = add_if(
        b4,
        s.missing_surface_names.len() > 0,
        "rendered_surfaces_must_include_expected_review_surfaces"@,
    );
    let b6 = add_if(
        b5,
        controls.len() > 0 && s.rendered_control_ids.len() == 0,
        "rendered_control_ids_must_be_non_empty_when_report_has_actions"@,
    );
    let b7 = add_if(
        b6,
        s.missing_control_ids.len() > 0,
        "rendered_control_ids_must_cover_report_actions"@,
    );
    let b8 = add_if(
        b7,
        controls.len() > 0 && s.action_surface_rendered_control_ids.len() == 0,
        "action_buttons_surface_must_echo_rendered_control_ids"@,
    );
    let b9 = add_if(
        b8,
        s.missing_action_surface_control_ids.len() > 0,
        "action_buttons_surface_control_ids_must_cover_report_actions"@,
    );
    add_if(
        b9,
        s.trust_boundary != Some(RENDER_EVIDENCE_BOUNDARY@),
        "trust_boundary_must_keep_render_ui_only"@,
    )
}

#[verifier::rlimit(60)]
pub fn render_evidence_missing_requirements(
    scan: &RenderEvidenceScan,
    client: &str,
    expected_review_render_fingerprint: Option<&str>,
    expected_workbench_version: Option<&str>,
    expected_interaction_contract_version: Option<&str>,
    expected_surface_names: &Vec<String>,
    expected_control_ids: &Vec<String>,
) -> (r: Vec<&'static str>)
    ensures
        r.deep_view() == render_lacks(
            scan.deep_view(),
            client@,
            expected_review_render_fingerprint.deep_view(),
            expected_workbench_version.deep_view(),
            expected_interaction_contract_version.deep_view(),
            expected_surface_names.deep_view(),
            expected_control_ids.deep_view(),
        ),
{
    let list: Vec<&'static str> = none();
    let list = push_if(list, scan.json_parse_error.is_some(), "render_evidence_must_be_json");
    let list = push_if(
        list,
        !is_text(&scan.schema, RENDER_EVIDENCE_SCHEMA),
        "schema_must_be_soma_in_client_render_evidence_v1",
    );
    let list = push_if(list, !is_text(&scan.client, client), "client_must_match_binding_target");
    let good_source = match &scan.source {
        Some(s) => is_allowed_render_evidence_source(s.as_str()),
        None => false,
    };
    let list = push_if(list, !good_source, "source_must_be_manual_operator_or_client_capture");
    let good_time = match scan.observed_at_ns {
        Some(t) => t > 0,
        None => false,
    };
    let list = push_if(list, !good_time, "observed_at_ns_must_be_positive");
    let list = push_mismatch(
        list,
        expected_review_render_fingerprint,
        &scan.review_render_fingerprint,
        "review_render_fingerprint_must_match_report",
        "review_render_report_fingerprint_required",
    );
    let list = push_mismatch(
        list,
        expected_workbench_version,
        &scan.review_workbench_version,
        "review_workbench_version_must_match_report",
        "review_render_workbench_version_required",
    );
    let list = push_mismatch(
        list,
        expected_interaction_contract_version,
        &scan.review_interaction_contract_version,
        "review_interaction_contract_version_must_match_report",
        "review_render_interaction_contract_version_required",
    );
    let list = push_if(
        list,
        scan.rendered_surface_count == 0,
        "rendered_surfaces_must_be_non_empty",
    );
    let list = push_if(
        list,
        scan.rendered_surface_placeholder_count > 0,
        "rendered_surfaces_must_not_contain_template_placeholders",
    );
    let list = push_if(
        list,
        scan.raw_tool_output_surface_count > 0,
        "rendered_surfaces_must_not_be_raw_mcp_or_tool_output",
    );
    let list = push_if(
        list,
        scan.visible_surface_count == 0,
        "rendered_surfaces_must_include_visible_surface",
    );
    let list = push_if(
        list,
        expected_surface_names.len() > 0 && scan.rendered_surface_names.len() == 0,
        "rendered_surfaces_must_name_visible_review_surfaces",
    );
    let list = push_if(
        list,
        scan.missing_surface_names.len() > 0,
        "rendered_surfaces_must_include_expected_review_surfaces",
    );
    let list = push_if(
        list,
        expected_control_ids.len() > 0 && scan.rendered_control_ids.len() == 0,
        "rendered_control_ids_must_be_non_empty_when_report_has_actions",
    );
    let list = push_if(
        list,
        scan.missing_control_ids.len() > 0,
        "rendered_control_ids_must_cover_report_actions",
    );
    let list = push_if(
        list,
        expected_control_ids.len() > 0 && scan.action_surface_rendered_control_ids.len() == 0,
        "action_buttons_surface_must_echo_rendered_control_ids",
    );
    let list = push_if(
        list,
        scan.missing_action_surface_control_ids.len() > 0,
        "action_buttons_surface_control_ids_must_cover_report_actions",
    );
    push_if(
        list,
        !is_text(&scan.trust_boundary, RENDER_EVIDENCE_BOUNDARY),
        "trust_boundary_must_keep_render_ui_only",
    )
}

/// Those of `wanted` that do not stand in `found`, in order.
pub open spec fn not_in(wanted: Seq<Seq<char>>, found: Seq<Seq<char>>) -> Seq<Seq<char>>
    decreases wanted.len(),
{
    if wanted.len() == 0 {
        nil()
    } else if found.contains(wanted.last()) {
        not_in(wanted.drop_last(), found)
    } else {
        not_in(wanted.drop_last(), found).push(wanted.last())
    }
}

pub fn absent(wanted: &Vec<String>, found: &Vec<String>) -> (r: Vec<String>)
    ensures
        r.deep_view() == not_in(wanted.deep_view(), found.deep_view()),
{
    let ghost all = wanted.deep_view();
    let mut out: Vec<String> = none();
    let mut i: usize = 0;
    while i < wanted.len()
        invariant
            i <= wanted.len(),
            all == wanted.deep_view(),
            out.deep_view() == not_in(all.take(i as int), found.deep_view()),
        decreases wanted.len() - i,
    {
        assert(all.take(i + 1).drop_last() =~= all.take(i as int));
        assert(all.take(i + 1).last() == wanted[i as int]@);
        if !listed(found, wanted[i].as_str()) {
            out = with(out, wanted[i].clone());
        }
        i = i + 1;
    }
    assert(all.take(i as int) =~= all);
    out
}

/// Render evidence, compared with what a report asks for.
pub open spec fn compared(
    s: RenderEvidenceScanView,
    names: Seq<Seq<char>>,
    controls: Seq<Seq<char>>,
) -> RenderEvidenceScanView {
    RenderEvidenceScanView {
        expected_surface_names: names,
        missing_surface_names: not_in(names, s.rendered_surface_names),
        expected_control_ids: controls,
        missing_control_ids: not_in(controls, s.rendered_control_ids),
        missing_action_surface_control_ids: not_in(
            controls,
            s.action_surface_rendered_control_ids,
        ),
        ..s
    }
}

/// Render evidence with the verdict on it.
pub open spec fn annotated(
    s: RenderEvidenceScanView,
    client: Seq<char>,
    report_fingerprint: Option<Seq<char>>,
    workbench: Option<Seq<char>>,
    contract: Option<Seq<char>>,
    names: Seq<Seq<char>>,
    controls: Seq<Seq<char>>,
) -> RenderEvidenceScanView {
    let c = compared(s, names, controls);
    let lacks = render_lacks(c, client, report_fingerprint, workbench, contract, names, controls);
    RenderEvidenceScanView {
        valid_structured_render_evidence: lacks.len() == 0,
        missing_requirements: lacks,
        ..c
    }
}

/// Compares render evidence with what a report asks for, and puts the verdict down.
pub fn annotate_render_evidence_scan(
    scan: &mut RenderEvidenceScan,
    client: &str,
    expected_review_render_fingerprint: Option<&str>,
    expected_workbench_version: Option<&str>,
    expected_interaction_contract_version: Option<&str>,
    expected_surface_names: &Vec<String>,
    expected_control_ids: &Vec<String>,
) -> (r: Vec<&'static str>)
    ensures
        final(scan).deep_view() == annotated(
            old(scan).deep_view(),
            client@,
            expected_review_render_fingerprint.deep_view(),
            expected_workbench_version.deep_view(),
            expected_interaction_contract_version.deep_view(),
            expected_surface_names.deep_view(),
            expected_control_ids.deep_view(),
        ),
        r.deep_view() == final(scan).deep_view().missing_requirements,
{
    scan.expected_surface_names = expected_surface_names.dup();
    scan.missing_surface_names = absent(expected_surface_names, &scan.rendered_surface_names);
    scan.expected_control_ids = expected_control_ids.dup();
    scan.missing_control_ids = absent(expected_control_ids, &scan.rendered_control_ids);
    scan.missing_action_surface_control_ids =
    absent(expected_control_ids, &scan.action_surface_rendered_control_ids);
    let missing = render_evidence_missing_requirements(
        scan,
        client,
        expected_review_render_fingerprint,
        expected_workbench_version,
        expected_interaction_contract_version,
        expected_surface_names,
        expected_control_ids,
    );
    assert(missing.deep_view().len() == missing.len());
    scan.valid_structured_render_evidence = missing.len() == 0;
    scan.missing_requirements = words_of(&missing);
    missing
}

/// What a report asks of render evidence, and the verdict.
pub open spec fn judged(
    s: RenderEvidenceScanView,
    client: Seq<char>,
    report_file: Option<FileFingerprintScanView>,
    report: Option<JsonView>,
) -> RenderEvidenceScanView {
    let controls = match report {
        Some(r) => expected_controls(r),
        None => nil(),
    };
    let names = match report {
        Some(r) => required_names(r, controls),
        None => nil(),
    };
    annotated(
        s,
        client,
        match report_file {
            Some(f) => Some(f.fingerprint),
            None => None,
        },
        match report {
            Some(r) => workbench_version(r),
            None => None,
        },
        match report {
            Some(r) => contract_version(r),
            None => None,
        },
        names,
        controls,
    )
}

/// Compares render evidence with a report, where there is one.
pub fn judge_render_evidence(
    scan: &mut RenderEvidenceScan,
    client: &str,
    report_file: Option<&FileFingerprintScan>,
    report: Option<&Json>,
) -> (r: Vec<&'static str>)
    ensures
        final(scan).deep_view() == judged(
            old(scan).deep_view(),
            client@,
            report_file.deep_view(),
            report.deep_view(),
        ),
        r.deep_view() == final(scan).deep_view().missing_requirements,
{
    let controls = match report {
        Some(r) => review_render_control_ids(r),
        None => none(),
    };
    let names = match report {
        Some(r) => review_render_required_surface_names(r, &controls),
        None => none(),
    };
    let workbench = match report {
        Some(r) => review_render_workbench_version(r),
        None => None,
    };
    let contract = match report {
        Some(r) => review_render_interaction_contract_version(r),
        None => None,
    };
    let fingerprint = match report_file {
        Some(f) => Some(f.fingerprint.as_str()),
        None => None,
    };
    annotate_render_evidence_scan(scan, client, fingerprint, workbench, contract, &names, &controls)
}

/// What in-client-render proof asks of its evidence.
pub open spec fn render_suffices(
    level: ClientBindingProofLevel,
    scan: Option<RenderEvidenceScanView>,
    client: Seq<char>,
    report_file: Option<FileFingerprintScanView>,
    report: Option<JsonView>,
) -> Result<(), BindingFault> {
    if level != ClientBindingProofLevel::ObservedInClientRender {
        Ok(())
    } else {
        match scan {
            None => malformed("observed_in_client_render requires --render-evidence"@),
            Some(s) => {
                let lacks = judged(s, client, report_file, report).missing_requirements;
                if lacks.len() > 0 {
                    malformed(
                        "observed_in_client_render requires structured render evidence; missing: "@
                            + joined(lacks, ", "@),
                    )
                } else {
                    Ok(())
                }
            },
        }
    }
}

/// Checks render evidence for a level of proof, and puts the verdict down.
pub fn require_render_evidence_for_level(
    level: ClientBindingProofLevel,
    scan: &mut Option<RenderEvidenceScan>,
    client: &str,
    report_file: Option<&FileFingerprintScan>,
    report: Option<&Json>,
) -> (r: Result<(), AdapterBindingProofError>)
    ensures
        verdict(r) == render_suffices(
            level,
            old(scan).deep_view(),
            client@,
            report_file.deep_view(),
            report.deep_view(),
        ),
        final(scan).deep_view() == (if level == ClientBindingProofLevel::ObservedInClientRender {
            match old(scan).deep_view() {
                Some(s) => Some(judged(s, client@, report_file.deep_view(), report.deep_view())),
                None => None,
            }
        } else {
            old(scan).deep_view()
        }),
{
    match level {
        ClientBindingProofLevel::ObservedInClientRender => {
            match scan {
                None => refuse("observed_in_client_render requires --render-evidence"),
                Some(s) => {
                    let missing = judge_render_evidence(s, client, report_file, report);
                    assert(missing.deep_view().len() == missing.len());
                    if missing.len() > 0 {
                        refuse(
                            cat2(
                                "observed_in_client_render requires structured render evidence; missing: ",
                                join(&words_of(&missing), ", ").as_str(),
                            ).as_str(),
                        )
                    } else {
                        Ok(())
                    }
                },
            }
        },
        _ => Ok(()),
    }
}

pub const REVIEW_RENDER_BOUNDARY: &'static str =
    "review_render_is_read_only_and_never_records_verification_or_applies_proposals_or_ack";

/// The client that a review report is for.
pub open spec fn report_client(report: JsonView) -> Seq<char> {
    match as_text(get(report, "client"@)) {
        Some(c) => c,
        None => match as_text(at(report, "client_ui"@, "client"@)) {
            Some(c) => c,
            None => ""@,
        },
    }
}

/// A review report must keep to reading, and be for the client.
pub open spec fn report_valid(report: Option<JsonView>, client: Seq<char>) -> Result<
    (),
    BindingFault,
> {
    match report {
        None => Ok(()),
        Some(r) => if as_text(get(r, "trust_boundary"@)) != Some(REVIEW_RENDER_BOUNDARY@) {
            malformed("review render report must carry the read-only trust boundary"@)
        } else if report_client(r) != client {
            malformed(
                "review render client `"@ + report_client(r) + "` does not match `"@ + client
                    + "`"@,
            )
        } else {
            Ok(())
        },
    }
}

pub fn validate_review_render(report: Option<&Json>, client: &str) -> (r: Result<
    (),
    AdapterBindingProofError,
>)
    ensures
        verdict(r) == report_valid(report.deep_view(), client@),
{
    let report = match report {
        Some(r) => r,
        None => return Ok(()),
    };
    let bounded = match report.get_text("trust_boundary") {
        Some(b) => same(b, REVIEW_RENDER_BOUNDARY),
        None => false,
    };
    if !bounded {
        return refuse("review render report must carry the read-only trust boundary");
    }
    let found = match report.get_text("client") {
        Some(c) => c,
        None => match text_in(report.at("client_ui", "client")) {
            Some(c) => c,
            None => "",
        },
    };
    if same(found, client) {
        Ok(())
    } else {
        let mut m = cat4("review render client `", found, "` does not match `", client);
        m.append("`");
        Err(AdapterBindingProofError::MalformedInput(m))
    }
}

/// In-client-render proof takes a review report.
pub fn require_review_render_for_level(
    level: ClientBindingProofLevel,
    report: Option<&Json>,
) -> (r: Result<(), AdapterBindingProofError>)
    ensures
        verdict(r) == (if level == ClientBindingProofLevel::ObservedInClientRender
            && report is None {
            malformed::<()>("observed_in_client_render requires --review-render-report"@)
        } else {
            Ok(())
        }),
{
    match level {
        ClientBindingProofLevel::ObservedInClientRender => {
            if report.is_none() {
                refuse("observed_in_client_render requires --review-render-report")
            } else {
                Ok(())
            }
        },
        _ => Ok(()),
    }
}

// ---------------------------------------------------------------------------
// Review actions
// ---------------------------------------------------------------------------

/// A verification that does not come from a cloud model.
pub open spec fn is_non_cloud(event: JsonView) -> bool {
    let verifier = as_text(get(event, "verifier_type"@));
    let kind = as_text(at(event, "evidence_ref"@, "kind"@));
    &&& verifier != Some("cloud_model"@) && verifier != Some("cloud_draft"@) && verifier != Some(
        "llm"@,
    )
    &&& kind != Some("cloud_output"@) && kind != Some("cloud_draft"@) && kind != Some(
        "llm_output"@,
    )
}

pub fn verification_event_is_non_cloud(event: &Json) -> (r: bool)
    ensures
        r == is_non_cloud(event@),
{
    let by_cloud = match event.get_text("verifier_type") {
        Some(v) => same(v, "cloud_model") || same(v, "cloud_draft") || same(v, "llm"),
        None => false,
    };
    let from_cloud = match text_in(event.at("evidence_ref", "kind")) {
        Some(k) => same(k, "cloud_output") || same(k, "cloud_draft") || same(k, "llm_output"),
        None => false,
    };
    !by_cloud && !from_cloud
}

pub open spec fn non_cloud_count(events: Seq<JsonView>) -> nat
    decreases events.len(),
{
    if events.len() == 0 {
        0
    } else {
        non_cloud_count(events.drop_last()) + if is_non_cloud(events.last()) {
            1nat
        } else {
            0nat
        }
    }
}

fn count_non_cloud(v: Option<&Json>) -> (r: usize)
    ensures
        r == match as_list(v.deep_view()) {
            Some(events) => non_cloud_count(events),
            None => 0,
        },
{
    match list_in(v) {
        Some(events) => {
            let ghost all = events.deep_view();
            let mut n: usize = 0;
            let mut i: usize = 0;
            while i < events.len()
                invariant
                    i <= events.len(),
                    all == events.deep_view(),
                    n <= i,
                    n == non_cloud_count(all.take(i as int)),
                decreases events.len() - i,
            {
                assert(all.take(i + 1).drop_last() =~= all.take(i as int));
                assert(all.take(i + 1).last() == events[i as int]@);
                if verification_event_is_non_cloud(&events[i]) {
                    n = n + 1;
                }
                i = i + 1;
            }
            assert(all.take(i as int) =~= all);
            n
        },
        None => 0,
    }
}

/// A text that is there and not empty.
pub open spec fn is_given(s: Option<Seq<char>>) -> bool {
    s matches Some(t) && t.len() > 0
}

fn given(s: &Option<String>) -> (r: bool)
    ensures
        r == is_given(s.deep_view()),
{
    match s {
        Some(t) => !t.as_str().is_empty(),
        None => false,
    }
}

/// What the report of a review action lacks.
pub open spec fn action_lacks(s: ReviewActionReportScanView) -> Seq<Seq<char>> {
    let a1 = add_if(nil(), s.json_parse_error is Some, "review_action_report_must_be_json"@);
    let a2 = add_if(a1, !is_given(s.target_type), "target_type_required"@);
    let a3 = add_if(
        a2,
        !(s.target_id matches Some(t) && t > 0),
        "target_id_must_be_positive"@,
    );
    let a4 = add_if(a3, !is_given(s.action), "action_required"@);
    let a5 = add_if(a4, !is_given(s.control_id), "control_id_required"@);
    let a6 = add_if(a5, !s.control_binding_verified, "control_binding_verified_required"@);
    let a7 = add_if(a6, s.verification_result is None, "verification_result_required"@);
    let a8 = add_if(a7, s.verification_event_count == 0, "verification_event_ids_required"@);
    let a9 = add_if(
        a8,
        s.non_cloud_verification_event_count == 0,
        "non_cloud_verification_event_required"@,
    );
    let b1 = add_if(a9, s.claim_count == 0, "claim_ids_required"@);
    add_if(
        b1,
        s.trust_boundary != Some(REVIEW_ACTION_BOUNDARY@),
        "review_action_storage_gate_trust_boundary_required"@,
    )
}

pub fn review_action_report_missing_requirements(scan: &ReviewActionReportScan) -> (r: Vec<
    &'static str,
>)
    ensures
        r.deep_view() == action_lacks(scan.deep_view()),
{
    let list: Vec<&'static str> = none();
    let list = push_if(list, scan.json_parse_error.is_some(), "review_action_report_must_be_json");
    let list = push_if(list, !given(&scan.target_type), "target_type_required");
    let good_target = match scan.target_id {
        Some(t) => t > 0,
        None => false,
    };
    let list = push_if(list, !good_target, "target_id_must_be_positive");
    let list = push_if(list, !given(&scan.action), "action_required");
    let list = push_if(list, !given(&scan.control_id), "control_id_required");
    let list = push_if(list, !scan.control_binding_verified, "control_binding_verified_required");
    let list = push_if(
        list,
        scan.verification_result.is_none(),
        "verification_result_required",
    );
    let list = push_if(
        list,
        scan.verification_event_count == 0,
        "verification_event_ids_required",
    );
    let list = push_if(
        list,
        scan.non_cloud_verification_event_count == 0,
        "non_cloud_verification_event_required",
    );
    let list = push_if(list, scan.claim_count == 0, "claim_ids_required");
    push_if(
        list,
        !is_text(&scan.trust_boundary, REVIEW_ACTION_BOUNDARY),
        "review_action_storage_gate_trust_boundary_required",
    )
}

/// What the report of a review action holds, before it is judged.
pub open spec fn action_contents(
    path: Seq<char>,
    modified_at_ns: Option<i64>,
    bytes: Seq<u8>,
    parsed: Result<JsonView, Seq<char>>,
) -> ReviewActionReportScanView {
    let v = match parsed {
        Ok(v) => Some(v),
        Err(_) => None,
    };
    ReviewActionReportScanView {
        path,
        byte_len: bytes.len() as u64,
        modified_at_ns,
        fingerprint: fingerprint(bytes),
        json_parse_error: match parsed {
            Ok(_) => None,
            Err(e) => Some(e),
        },
        target_type: as_text(member(v, "target_type"@)),
        target_id: as_i64(member(v, "target_id"@)),
        action: as_text(member(v, "action"@)),
        control_id: trimmed_nonblank(as_text(member(v, "control_id"@))),
        control_binding_verified: as_bool(member(v, "control_binding_verified"@)) == Some(true),
        verification_result: as_text(member(v, "verification_result"@)),
        verification_event_count: list_len(member(v, "verification_event_ids"@)) as usize,
        non_cloud_verification_event_count: match as_list(member(v, "verification_events"@)) {
            Some(events) => non_cloud_count(events) as usize,
            None => 0,
        },
        claim_count: list_len(member(v, "claim_ids"@)) as usize,
        task_frame_outcome_count: list_len(member(v, "task_frame_outcome_ids"@)) as usize,
        durable_promotion_trust: as_bool(member(v, "durable_promotion_trust"@)),
        trust_boundary: as_text(member(v, "trust_boundary"@)),
        valid_storage_gated_review_action: false,
        missing_requirements: nil(),
    }
}

/// What the report of a review action holds, with the verdict on it.
pub open spec fn action_scan(
    path: Seq<char>,
    modified_at_ns: Option<i64>,
    bytes: Seq<u8>,
    parsed: Result<JsonView, Seq<char>>,
) -> ReviewActionReportScanView {
    let c = action_contents(path, modified_at_ns, bytes, parsed);
    ReviewActionReportScanView {
        valid_storage_gated_review_action: action_lacks(c).len() == 0,
        missing_requirements: action_lacks(c),
        ..c
    }
}

/// What the report of a review action holds, of which the JSON was read.
pub fn review_action_report_scan_of(
    path: &str,
    modified_at_ns: Option<i64>,
    bytes: &[u8],
    parsed: &Result<Json, String>,
) -> (r: ReviewActionReportScan)
    ensures
        r.deep_view() == action_scan(path@, modified_at_ns, bytes@, parse_view(*parsed)),
{
    let v: Option<&Json> = match parsed {
        Ok(j) => Some(j),
        Err(_) => None,
    };
    let json_parse_error = match parsed {
        Ok(_) => None,
        Err(e) => Some(e.clone()),
    };
    let target_id = match v {
        Some(j) => j.get_i64("target_id"),
        None => None,
    };
    let bound = match v {
        Some(j) => j.get_bool("control_binding_verified"),
        None => None,
    };
    let control_binding_verified = match bound {
        Some(b) => b,
        None => false,
    };
    let durable_promotion_trust = match v {
        Some(j) => j.get_bool("durable_promotion_trust"),
        None => None,
    };
    let mut scan = ReviewActionReportScan {
        path: path.to_string(),
        byte_len: bytes.len() as u64,
        modified_at_ns,
        fingerprint: stable_content_fingerprint(bytes),
        json_parse_error,
        target_type: part_text(v, "target_type"),
        target_id,
        action: part_text(v, "action"),
        control_id: owned(trim_nonblank(text_in(part(v, "control_id")))),
        control_binding_verified,
        verification_result: part_text(v, "verification_result"),
        verification_event_count: count_of(part(v, "verification_event_ids")),
        non_cloud_verification_event_count: count_non_cloud(part(v, "verification_events")),
        claim_count: count_of(part(v, "claim_ids")),
        task_frame_outcome_count: count_of(part(v, "task_frame_outcome_ids")),
        durable_promotion_trust,
        trust_boundary: part_text(v, "trust_boundary"),
        valid_storage_gated_review_action: false,
        missing_requirements: none(),
    };
    assert(scan.deep_view() == action_contents(
        path@,
        modified_at_ns,
        bytes@,
        parse_view(*parsed),
    ));
    let missing = review_action_report_missing_requirements(&scan);
    assert(missing.deep_view().len() == missing.len());
    scan.valid_storage_gated_review_action = missing.len() == 0;
    scan.missing_requirements = words_of(&missing);
    scan
}

pub const ACTION_LABEL: &'static str = "review action report";

/// What a file with the report of a review action holds.
pub open spec fn scanned_action(file: ObservedFileView) -> Result<
    ReviewActionReportScanView,
    BindingFault,
> {
    if file.metadata_error is Some {
        Err(metadata_fault(ACTION_LABEL@, file.path, file.metadata_error->0))
    } else if file.read_error is Some {
        Err(read_fault(ACTION_LABEL@, file.path, file.read_error->0))
    } else {
        Ok(
            action_scan(
                file.path,
                file.modified_at_ns,
                file.contents,
                json_of_bytes(file.contents),
            ),
        )
    }
}

pub fn scan_review_action_report(file: &ObservedFile) -> (r: Result<
    ReviewActionReportScan,
    AdapterBindingProofError,
>)
    ensures
        outcome(r) == scanned_action(file.deep_view()),
{
    match &file.metadata_error {
        Some(e) => return Err(metadata_failed(ACTION_LABEL, file.path.as_str(), e.as_str())),
        None => {},
    }
    match &file.read_error {
        Some(e) => return Err(read_failed(ACTION_LABEL, file.path.as_str(), e.as_str())),
        None => {},
    }
    assert(file.contents.deep_view() =~= file.contents@);
    let parsed = parse_json_bytes(file.contents.as_slice());
    Ok(
        review_action_report_scan_of(
            file.path.as_str(),
            file.modified_at_ns,
            file.contents.as_slice(),
            &parsed,
        ),
    )
}

/// What review-action proof asks of its evidence.
pub open spec fn action_suffices(
    level: ClientBindingProofLevel,
    scan: Option<ReviewActionReportScanView>,
) -> Result<(), BindingFault> {
    if level != ClientBindingProofLevel::ObservedReviewAction {
        Ok(())
    } else {
        match scan {
            None => malformed("observed_review_action requires --review-action-report"@),
            Some(s) => if s.missing_requirements.len() > 0 {
                malformed(
                    "observed_review_action requires storage-gated review action report; missing: "@
                        + joined(s.missing_requirements, ", "@),
                )
            } else {
                Ok(())
            },
        }
    }
}

pub fn require_review_action_report_for_level(
    level: ClientBindingProofLevel,
    scan: &Option<ReviewActionReportScan>,
) -> (r: Result<(), AdapterBindingProofError>)
    ensures
        verdict(r) == action_suffices(level, scan.deep_view()),
{
    match level {
        ClientBindingProofLevel::ObservedReviewAction => {
            match scan {
                None => refuse("observed_review_action requires --review-action-report"),
                Some(s) => {
                    assert(s.missing_requirements.deep_view().len()
                        == s.missing_requirements.len());
                    if s.missing_requirements.len() > 0 {
                        refuse(
                            cat2(
                                "observed_review_action requires storage-gated review action report; missing: ",
                                join(&s.missing_requirements, ", ").as_str(),
                            ).as_str(),
                        )
                    } else {
                        Ok(())
                    }
                },
            }
        },
        _ => Ok(()),
    }
}

/// Render evidence, as it is stored.
pub open spec fn render_scan_json(s: RenderEvidenceScanView) -> JsonView {
    JsonView::Object(
        Seq::empty().push(("path"@, JsonView::Text(s.path)))
            .push(("byte_len"@, JsonView::Int(s.byte_len as int)))
            .push(("fingerprint"@, JsonView::Text(s.fingerprint)))
            .push(("json_parse_error"@, opt_text(s.json_parse_error)))
            .push(("schema"@, opt_text(s.schema))).push(("client"@, opt_text(s.client)))
            .push(("source"@, opt_text(s.source)))
            .push(("observed_at_ns"@, opt_int(s.observed_at_ns)))
            .push(("review_render_fingerprint"@, opt_text(s.review_render_fingerprint)))
            .push(("review_workbench_version"@, opt_text(s.review_workbench_version)))
            .push(("review_interaction_contract_version"@,
            opt_text(s.review_interaction_contract_version)))
            .push(("rendered_surface_count"@, JsonView::Int(s.rendered_surface_count as int)))
            .push(("rendered_surface_placeholder_count"@,
            JsonView::Int(s.rendered_surface_placeholder_count as int)))
            .push(("raw_tool_output_surface_count"@,
            JsonView::Int(s.raw_tool_output_surface_count as int)))
            .push(("visible_surface_count"@, JsonView::Int(s.visible_surface_count as int)))
            .push(("rendered_surface_names"@, text_list(s.rendered_surface_names)))
            .push(("expected_surface_names"@, text_list(s.expected_surface_names)))
            .push(("missing_surface_names"@, text_list(s.missing_surface_names)))
            .push(("rendered_control_ids"@, text_list(s.rendered_control_ids)))
            .push(("action_surface_rendered_control_ids"@,
            text_list(s.action_surface_rendered_control_ids)))
            .push(("missing_action_surface_control_ids"@,
            text_list(s.missing_action_surface_control_ids)))
            .push(("expected_control_ids"@, text_list(s.expected_control_ids)))
            .push(("missing_control_ids"@, text_list(s.missing_control_ids)))
            .push(("trust_boundary"@, opt_text(s.trust_boundary)))
            .push(("valid_structured_render_evidence"@,
            JsonView::Bool(s.valid_structured_render_evidence)))
            .push(("missing_requirements"@, text_list(s.missing_requirements))),
    )
}

impl RenderEvidenceScan {
    pub fn to_json(&self) -> (r: Json)
        ensures
            r@ == render_scan_json(self.deep_view()),
    {
        Members::new().text("path", self.path.as_str()).integer("byte_len", self.byte_len as i128)
            .text("fingerprint", self.fingerprint.as_str())
            .opt_text("json_parse_error", borrowed(&self.json_parse_error))
            .opt_text("schema", borrowed(&self.schema)).opt_text("client", borrowed(&self.client))
            .opt_text("source", borrowed(&self.source))
            .opt_integer("observed_at_ns", self.observed_at_ns)
            .opt_text("review_render_fingerprint", borrowed(&self.review_render_fingerprint))
            .opt_text("review_workbench_version", borrowed(&self.review_workbench_version))
            .opt_text("review_interaction_contract_version",
            borrowed(&self.review_interaction_contract_version))
            .integer("rendered_surface_count", self.rendered_surface_count as i128)
            .integer("rendered_surface_placeholder_count",
            self.rendered_surface_placeholder_count as i128)
            .integer("raw_tool_output_surface_count", self.raw_tool_output_surface_count as i128)
            .integer("visible_surface_count", self.visible_surface_count as i128)
            .texts("rendered_surface_names", &self.rendered_surface_names)
            .texts("expected_surface_names", &self.expected_surface_names)
            .texts("missing_surface_names", &self.missing_surface_names)
            .texts("rendered_control_ids", &self.rendered_control_ids)
            .texts("action_surface_rendered_control_ids", &self.action_surface_rendered_control_ids)
            .texts("missing_action_surface_control_ids", &self.missing_action_surface_control_ids)
            .texts("expected_control_ids", &self.expected_control_ids)
            .texts("missing_control_ids", &self.missing_control_ids)
            .opt_text("trust_boundary", borrowed(&self.trust_boundary))
            .flag("valid_structured_render_evidence", self.valid_structured_render_evidence)
            .texts("missing_requirements", &self.missing_requirements).done()
    }
}

/// The report of a review action, as it is stored.
pub open spec fn action_scan_json(s: ReviewActionReportScanView) -> JsonView {
    JsonView::Object(
        Seq::empty().push(("path"@, JsonView::Text(s.path)))
            .push(("byte_len"@, JsonView::Int(s.byte_len as int)))
            .push(("modified_at_ns"@, opt_int(s.modified_at_ns)))
            .push(("fingerprint"@, JsonView::Text(s.fingerprint)))
            .push(("json_parse_error"@, opt_text(s.json_parse_error)))
            .push(("target_type"@, opt_text(s.target_type)))
            .push(("target_id"@, opt_int(s.target_id))).push(("action"@, opt_text(s.action)))
            .push(("control_id"@, opt_text(s.control_id)))
            .push(("control_binding_verified"@, JsonView::Bool(s.control_binding_verified)))
            .push(("verification_result"@, opt_text(s.verification_result)))
            .push(("verification_event_count"@, JsonView::Int(s.verification_event_count as int)))
            .push(("non_cloud_verification_event_count"@,
            JsonView::Int(s.non_cloud_verification_event_count as int)))
            .push(("claim_count"@, JsonView::Int(s.claim_count as int)))
            .push(("task_frame_outcome_count"@, JsonView::Int(s.task_frame_outcome_count as int)))
            .push(("durable_promotion_trust"@, opt_bool(s.durable_promotion_trust)))
            .push(("trust_boundary"@, opt_text(s.trust_boundary)))
            .push(("valid_storage_gated_review_action"@,
            JsonView::Bool(s.valid_storage_gated_review_action)))
            .push(("missing_requirements"@, text_list(s.missing_requirements))),
    )
}

impl ReviewActionReportScan {
    pub fn to_json(&self) -> (r: Json)
        ensures
            r@ == action_scan_json(self.deep_view()),
    {
        Members::new().text("path", self.path.as_str()).integer("byte_len", self.byte_len as i128)
            .opt_integer("modified_at_ns", self.modified_at_ns)
            .text("fingerprint", self.fingerprint.as_str())
            .opt_text("json_parse_error", borrowed(&self.json_parse_error))
            .opt_text("target_type", borrowed(&self.target_type))
            .opt_integer("target_id", self.target_id).opt_text("action", borrowed(&self.action))
            .opt_text("control_id", borrowed(&self.control_id))
            .flag("control_binding_verified", self.control_binding_verified)
            .opt_text("verification_result", borrowed(&self.verification_result))
            .integer("verification_event_count", self.verification_event_count as i128)
            .integer("non_cloud_verification_event_count",
            self.non_cloud_verification_event_count as i128)
            .integer("claim_count", self.claim_count as i128)
            .integer("task_frame_outcome_count", self.task_frame_outcome_count as i128)
            .opt_flag("durable_promotion_trust", self.durable_promotion_trust)
            .opt_text("trust_boundary", borrowed(&self.trust_boundary))
            .flag("valid_storage_gated_review_action", self.valid_storage_gated_review_action)
            .texts("missing_requirements", &self.missing_requirements).done()
    }
}

// ---------------------------------------------------------------------------
// Laws
// ---------------------------------------------------------------------------

proof fn lemma_some_non_cloud(events: Seq<JsonView>) -> (i: int)
    requires
        non_cloud_count(events) > 0,
    ensures
        0 <= i < events.len(),
        is_non_cloud(events[i]),
    decreases events.len(),
{
    if is_non_cloud(events.last()) {
        events.len() - 1
    } else {
        lemma_some_non_cloud(events.drop_last())
    }
}

proof fn lemma_non_cloud_counts(events: Seq<JsonView>, i: int)
    requires
        0 <= i < events.len(),
        is_non_cloud(events[i]),
    ensures
        0 < non_cloud_count(events) <= events.len(),
    decreases events.len(),
{
    lemma_count_bound(events.drop_last());
    if i < events.len() - 1 {
        assert(events.drop_last()[i] == events[i]);
        lemma_non_cloud_counts(events.drop_last(), i);
    }
}

proof fn lemma_count_bound(events: Seq<JsonView>)
    ensures
        non_cloud_count(events) <= events.len(),
    decreases events.len(),
{
    if events.len() > 0 {
        lemma_count_bound(events.drop_last());
    }
}

proof fn lemma_action_lacks(s: ReviewActionReportScanView)
    ensures
        s.non_cloud_verification_event_count == 0 ==> action_lacks(s).contains(
            "non_cloud_verification_event_required"@,
        ),
        action_lacks(s).len() == 0 <==> {
            &&& s.json_parse_error is None
            &&& is_given(s.target_type)
            &&& s.target_id matches Some(t) && t > 0
            &&& is_given(s.action)
            &&& is_given(s.control_id)
            &&& s.control_binding_verified
            &&& s.verification_result is Some
            &&& s.verification_event_count > 0
            &&& s.non_cloud_verification_event_count > 0
            &&& s.claim_count > 0
            &&& s.trust_boundary == Some(REVIEW_ACTION_BOUNDARY@)
        },
{
    let x = "non_cloud_verification_event_required"@;
    let no_target = !(s.target_id matches Some(t) && t > 0);
    let no_event = s.verification_event_count == 0;
    let no_other = s.non_cloud_verification_event_count == 0;
    let no_bound = s.trust_boundary != Some(REVIEW_ACTION_BOUNDARY@);
    let c1 = "review_action_report_must_be_json"@;
    lemma_add_if(nil(), s.json_parse_error is Some, c1, x);
    let a1 = add_if(nil(), s.json_parse_error is Some, c1);
    lemma_add_if(a1, !is_given(s.target_type), "target_type_required"@, x);
    let a2 = add_if(a1, !is_given(s.target_type), "target_type_required"@);
    lemma_add_if(a2, no_target, "target_id_must_be_positive"@, x);
    let a3 = add_if(a2, no_target, "target_id_must_be_positive"@);
    lemma_add_if(a3, !is_given(s.action), "action_required"@, x);
    let a4 = add_if(a3, !is_given(s.action), "action_required"@);
    lemma_add_if(a4, !is_given(s.control_id), "control_id_required"@, x);
    let a5 = add_if(a4, !is_given(s.control_id), "control_id_required"@);
    lemma_add_if(a5, !s.control_binding_verified, "control_binding_verified_required"@, x);
    let a6 = add_if(a5, !s.control_binding_verified, "control_binding_verified_required"@);
    lemma_add_if(a6, s.verification_result is None, "verification_result_required"@, x);
    let a7 = add_if(a6, s.verification_result is None, "verification_result_required"@);
    lemma_add_if(a7, no_event, "verification_event_ids_required"@, x);
    let a8 = add_if(a7, no_event, "verification_event_ids_required"@);
    lemma_add_if(a8, no_other, x, x);
    let a9 = add_if(a8, no_other, x);
    lemma_add_if(a9, s.claim_count == 0, "claim_ids_required"@, x);
    let b1 = add_if(a9, s.claim_count == 0, "claim_ids_required"@);
    lemma_add_if(b1, no_bound, "review_action_storage_gate_trust_boundary_required"@, x);
}

/// The report of a review action that lacks nothing says what was reviewed and how, by
/// which control, with what result, by which events and for which claims; and at least one
/// of its events neither was verified by a cloud model, a cloud draft or a language model,
/// nor rests on a cloud output, a cloud draft or a language model's output.
pub proof fn law_whole_action_report(
    path: Seq<char>,
    modified_at_ns: Option<i64>,
    bytes: Seq<u8>,
    parsed: Result<JsonView, Seq<char>>,
)
    requires
        action_scan(path, modified_at_ns, bytes, parsed).missing_requirements.len() == 0,
    ensures
        parsed is Ok,
        ({
            let v = parsed->Ok_0;
            &&& as_text(get(v, "target_type"@)) matches Some(t) && t.len() > 0
            &&& as_i64(get(v, "target_id"@)) matches Some(id) && id > 0
            &&& as_text(get(v, "action"@)) matches Some(t) && t.len() > 0
            &&& as_text(get(v, "control_id"@)) matches Some(t) && trimmed(t).len() > 0
            &&& as_bool(get(v, "control_binding_verified"@)) == Some(true)
            &&& as_text(get(v, "verification_result"@)) is Some
            &&& as_list(get(v, "verification_event_ids"@)) matches Some(ids) && ids.len() > 0
            &&& as_list(get(v, "claim_ids"@)) matches Some(ids) && ids.len() > 0
            &&& as_text(get(v, "trust_boundary"@)) == Some(
                "review_action_uses_verification_storage_gates_and_required_current_control_binding"@,
            )
            &&& as_list(get(v, "verification_events"@)) matches Some(events) && exists|i: int|
                0 <= i < events.len() && {
                    let verifier = as_text(get(#[trigger] events[i], "verifier_type"@));
                    let kind = as_text(at(events[i], "evidence_ref"@, "kind"@));
                    &&& verifier != Some("cloud_model"@)
                    &&& verifier != Some("cloud_draft"@)
                    &&& verifier != Some("llm"@)
                    &&& kind != Some("cloud_output"@)
                    &&& kind != Some("cloud_draft"@)
                    &&& kind != Some("llm_output"@)
                }
        }),
{
    let c = action_contents(path, modified_at_ns, bytes, parsed);
    lemma_action_lacks(c);
    let events = as_list(get(parsed->Ok_0, "verification_events"@));
    assert(non_cloud_count(events->0) > 0);
    let i = lemma_some_non_cloud(events->0);
    assert(is_non_cloud(events->0[i]));
}

/// A report all of whose events were verified by a cloud model, a cloud draft or a language
/// model, or rest on a cloud output, a cloud draft or a language model's output, lacks an
/// event from elsewhere.
pub proof fn law_cloud_events_do_not_suffice(
    path: Seq<char>,
    modified_at_ns: Option<i64>,
    bytes: Seq<u8>,
    v: JsonView,
)
    requires
        as_list(get(v, "verification_events"@)) matches Some(events) ==> forall|i: int|
            0 <= i < events.len() ==> {
                let verifier = as_text(get(#[trigger] events[i], "verifier_type"@));
                let kind = as_text(at(events[i], "evidence_ref"@, "kind"@));
                ||| verifier == Some("cloud_model"@)
                ||| verifier == Some("cloud_draft"@)
                ||| verifier == Some("llm"@)
                ||| kind == Some("cloud_output"@)
                ||| kind == Some("cloud_draft"@)
                ||| kind == Some("llm_output"@)
            },
    ensures
        ({
            let s = action_scan(path, modified_at_ns, bytes, Ok(v));
            &&& s.missing_requirements.contains("non_cloud_verification_event_required"@)
            &&& !s.valid_storage_gated_review_action
            &&& action_suffices(ClientBindingProofLevel::ObservedReviewAction, Some(s)) is Err
        }),
{
    let c = action_contents(path, modified_at_ns, bytes, Ok(v));
    let events = as_list(get(v, "verification_events"@));
    if events is Some && non_cloud_count(events->0) > 0 {
        let i = lemma_some_non_cloud(events->0);
    }
    assert(c.non_cloud_verification_event_count == 0);
    lemma_action_lacks(c);
}

/// A report that says all that is asked for, with lists that the machine can count, lacks
/// nothing.
pub proof fn law_action_report_may_suffice(
    path: Seq<char>,
    modified_at_ns: Option<i64>,
    bytes: Seq<u8>,
    v: JsonView,
    i: int,
)
    requires
        as_text(get(v, "target_type"@)) matches Some(t) && t.len() > 0,
        as_i64(get(v, "target_id"@)) matches Some(id) && id > 0,
        as_text(get(v, "action"@)) matches Some(t) && t.len() > 0,
        as_text(get(v, "control_id"@)) matches Some(t) && trimmed(t).len() > 0,
        as_bool(get(v, "control_binding_verified"@)) == Some(true),
        as_text(get(v, "verification_result"@)) is Some,
        as_list(get(v, "verification_event_ids"@)) matches Some(ids) && 0 < ids.len()
            <= usize::MAX,
        as_list(get(v, "claim_ids"@)) matches Some(ids) && 0 < ids.len() <= usize::MAX,
        as_text(get(v, "trust_boundary"@)) == Some(
            "review_action_uses_verification_storage_gates_and_required_current_control_binding"@,
        ),
        as_list(get(v, "verification_events"@)) matches Some(events) && 0 <= i < events.len()
            && events.len() <= usize::MAX && {
            let verifier = as_text(get(events[i], "verifier_type"@));
            let kind = as_text(at(events[i], "evidence_ref"@, "kind"@));
            &&& verifier != Some("cloud_model"@)
            &&& verifier != Some("cloud_draft"@)
            &&& verifier != Some("llm"@)
            &&& kind != Some("cloud_output"@)
            &&& kind != Some("cloud_draft"@)
            &&& kind != Some("llm_output"@)
        },
    ensures
        ({
            let s = action_scan(path, modified_at_ns, bytes, Ok(v));
            &&& s.missing_requirements.len() == 0
            &&& s.valid_storage_gated_review_action
            &&& s.target_type == as_text(get(v, "target_type"@))
            &&& s.target_id == as_i64(get(v, "target_id"@))
            &&& s.action == as_text(get(v, "action"@))
            &&& s.control_id == Some(trimmed(as_text(get(v, "control_id"@))->0))
            &&& s.verification_result == as_text(get(v, "verification_result"@))
        }),
{
    lemma_non_cloud_counts(as_list(get(v, "verification_events"@))->0, i);
    lemma_action_lacks(action_contents(path, modified_at_ns, bytes, Ok(v)));
}

proof fn lemma_count(surfaces: Seq<JsonView>, p: spec_fn(JsonView) -> bool)
    ensures
        count(surfaces, p) <= surfaces.len(),
        count(surfaces, p) == 0 <==> forall|i: int|
            0 <= i < surfaces.len() ==> !p(#[trigger] surfaces[i]),
    decreases surfaces.len(),
{
    if surfaces.len() > 0 {
        let front = surfaces.drop_last();
        lemma_count(front, p);
        assert(surfaces.last() == surfaces[surfaces.len() - 1]);
        if count(surfaces, p) == 0 {
            assert forall|i: int| 0 <= i < surfaces.len() implies !p(#[trigger] surfaces[i]) by {
                if i < front.len() {
                    assert(front[i] == surfaces[i]);
                }
            }
        }
        if forall|i: int| 0 <= i < surfaces.len() ==> !p(#[trigger] surfaces[i]) {
            assert forall|i: int| 0 <= i < front.len() implies !p(#[trigger] front[i]) by {
                assert(front[i] == surfaces[i]);
            }
            assert(!p(surfaces[surfaces.len() - 1]));
        }
    }
}

proof fn lemma_not_in(wanted: Seq<Seq<char>>, found: Seq<Seq<char>>)
    ensures
        not_in(wanted, found).len() == 0 <==> forall|i: int|
            0 <= i < wanted.len() ==> found.contains(#[trigger] wanted[i]),
    decreases wanted.len(),
{
    if wanted.len() > 0 {
        let front = wanted.drop_last();
        lemma_not_in(front, found);
        assert(wanted.last() == wanted[wanted.len() - 1]);
        if not_in(wanted, found).len() == 0 {
            assert forall|i: int| 0 <= i < wanted.len() implies found.contains(
                #[trigger] wanted[i],
            ) by {
                if i < front.len() {
                    assert(front[i] == wanted[i]);
                }
            }
        }
        if forall|i: int| 0 <= i < wanted.len() ==> found.contains(#[trigger] wanted[i]) {
            assert forall|i: int| 0 <= i < front.len() implies found.contains(
                #[trigger] front[i],
            ) by {
                assert(front[i] == wanted[i]);
            }
            assert(found.contains(wanted[wanted.len() - 1]));
        }
    }
}

#[verifier::rlimit(40)]
proof fn lemma_render_lacks(
    s: RenderEvidenceScanView,
    client: Seq<char>,
    report_fingerprint: Option<Seq<char>>,
    workbench: Option<Seq<char>>,
    contract: Option<Seq<char>>,
    names: Seq<Seq<char>>,
    controls: Seq<Seq<char>>,
)
    requires
        render_lacks(
            s,
            client,
            report_fingerprint,
            workbench,
            contract,
            names,
            controls,
        ).len() == 0,
    ensures
        s.json_parse_error is None,
        s.schema == Some("soma.in_client_render_evidence.v1"@),
        s.client == Some(client),
        s.source matches Some(x) && is_render_source(x),
        s.observed_at_ns matches Some(t) && t > 0,
        report_fingerprint is Some && s.review_render_fingerprint == report_fingerprint,
        workbench is Some && s.review_workbench_version == workbench,
        contract is Some && s.review_interaction_contract_version == contract,
        s.rendered_surface_count > 0,
        s.rendered_surface_placeholder_count == 0,
        s.raw_tool_output_surface_count == 0,
        s.visible_surface_count > 0,
        s.missing_surface_names.len() == 0,
        s.missing_control_ids.len() == 0,
        s.missing_action_surface_control_ids.len() == 0,
        s.trust_boundary == Some(
            "observed_in_client_render_is_ui_only_and_never_verifies_promotes_applies_or_acknowledges"@,
        ),
{
    reveal(add_if);
}

/// Evidence of a render that lacks nothing was made of this client and of this very report:
/// it bears the report's fingerprint and versions, comes from an operator or a capture of
/// the client, and has a time. It shows some surface, none of its surfaces is a placeholder
/// or raw tool output, every surface and every control that the report asks for is among
/// those it shows, and it keeps to the boundary of what it proves.
pub proof fn law_whole_render_evidence(
    path: Seq<char>,
    bytes: Seq<u8>,
    parsed: Result<JsonView, Seq<char>>,
    client: Seq<char>,
    file: Option<FileFingerprintScanView>,
    report: Option<JsonView>,
)
    requires
        judged(render_scan(path, bytes, parsed), client, file, report).missing_requirements.len()
            == 0,
        parsed matches Ok(v) ==> (as_list(get(v, "rendered_surfaces"@)) matches Some(s)
            ==> s.len() <= usize::MAX),
    ensures
        parsed is Ok,
        file is Some,
        report is Some,
        ({
            let v = parsed->Ok_0;
            let r = report->0;
            let surfaces = surfaces_of(Some(v));
            let source = as_text(get(v, "source"@));
            &&& as_text(get(v, "schema"@)) == Some("soma.in_client_render_evidence.v1"@)
            &&& as_text(get(v, "client"@)) matches Some(c) && lowered(trimmed(c)) == client
            &&& source is Some && (trimmed(source->0) == "manual_operator"@ || trimmed(source->0)
                == "client_capture"@ || trimmed(source->0) == "client_ui_capture"@ || trimmed(
                source->0,
            ) == "client_dom_capture"@ || trimmed(source->0) == "screenshot_ocr"@)
            &&& as_i64(get(v, "observed_at_ns"@)) matches Some(t) && t > 0
            &&& as_text(get(v, "review_render_fingerprint"@)) == Some(file->0.fingerprint)
            &&& as_text(get(v, "review_workbench_version"@)) is Some && as_text(
                get(v, "review_workbench_version"@),
            ) == as_text(at(r, "workbench"@, "version"@))
            &&& as_text(get(v, "review_interaction_contract_version"@)) is Some && as_text(
                get(v, "review_interaction_contract_version"@),
            ) == as_text(at(r, "interaction_contract"@, "version"@))
            &&& forall|i: int|
                0 <= i < surfaces.len() ==> !has_placeholder(#[trigger] surfaces[i])
                    && !is_raw_surface(surfaces[i])
            &&& exists|i: int|
                0 <= i < surfaces.len() && as_bool(get(#[trigger] surfaces[i], "visible"@)) == Some(
                    true,
                )
            &&& forall|i: int|
                0 <= i < expected_controls(r).len() ==> ordered_set(
                    list_texts(get(v, "rendered_control_ids"@)),
                ).contains(#[trigger] expected_controls(r)[i]) && ordered_set(
                    controls_on(surfaces, "action_buttons"@),
                ).contains(expected_controls(r)[i])
            &&& forall|i: int|
                0 <= i < required_names(r, expected_controls(r)).len() ==> ordered_set(
                    names_in(surfaces),
                ).contains(#[trigger] required_names(r, expected_controls(r))[i])
            &&& as_text(get(v, "trust_boundary"@)) == Some(
                "observed_in_client_render_is_ui_only_and_never_verifies_promotes_applies_or_acknowledges"@,
            )
        }),
{
    let s = render_scan(path, bytes, parsed);
    let controls = match report {
        Some(r) => expected_controls(r),
        None => nil(),
    };
    let names = match report {
        Some(r) => required_names(r, controls),
        None => nil(),
    };
    let c = compared(s, names, controls);
    lemma_render_lacks(
        c,
        client,
        match file {
            Some(f) => Some(f.fingerprint),
            None => None,
        },
        match report {
            Some(r) => workbench_version(r),
            None => None,
        },
        match report {
            Some(r) => contract_version(r),
            None => None,
        },
        names,
        controls,
    );
    let surfaces = surfaces_of(Some(parsed->Ok_0));
    let hollow = |x: JsonView| has_placeholder(x);
    let raw = |x: JsonView| is_raw_surface(x);
    let seen = |x: JsonView| is_visible_surface(x);
    lemma_count(surfaces, hollow);
    lemma_count(surfaces, raw);
    lemma_count(surfaces, seen);
    assert(placeholders(surfaces) == count(surfaces, hollow));
    assert(raw_outputs(surfaces) == count(surfaces, raw));
    assert(visible(surfaces) == count(surfaces, seen));
    assert forall|i: int| 0 <= i < surfaces.len() implies !has_placeholder(
        #[trigger] surfaces[i],
    ) && !is_raw_surface(surfaces[i]) by {
        assert(!hollow(surfaces[i]));
        assert(!raw(surfaces[i]));
    }
    let i = choose|i: int| 0 <= i < surfaces.len() && seen(#[trigger] surfaces[i]);
    assert(is_visible_surface(surfaces[i]));
    lemma_not_in(names, s.rendered_surface_names);
    lemma_not_in(controls, s.rendered_control_ids);
    lemma_not_in(controls, s.action_surface_rendered_control_ids);
}

/// The report of a render is taken only with the boundary of a report that changes nothing,
/// and only for the client that it names.
pub proof fn law_render_reports_are_of_the_client(report: JsonView, client: Seq<char>)
    ensures
        report_valid(Some(report), client) is Ok <==> as_text(get(report, "trust_boundary"@))
            == Some(
            "review_render_is_read_only_and_never_records_verification_or_applies_proposals_or_ack"@,
        ) && report_client(report) == client,
        as_text(get(report, "client"@)) matches Some(c) ==> report_client(report) == c,
        as_text(get(report, "client"@)) is None ==> (as_text(
            at(report, "client_ui"@, "client"@),
        ) matches Some(c) ==> report_client(report) == c),
{
}

}
