//! Which executable runs, and which `soma` the search path gives.
use crate::fingerprint::{fingerprint, stable_content_fingerprint};
use crate::json::{some_text, with_member, Json, JsonView, Members};
use crate::path::{is_same_path, same_path};
use crate::outcome::{borrowed, first};
use crate::text::{cat2, cat4, nil, none, same, with};
use vstd::prelude::*;

verus! {

pub const BINARY_IDENTITY_SOURCE: &'static str = "soma_binary_identity.v1";

pub const BINARY_IDENTITY_TRUST_BOUNDARY: &'static str =
    "binary_identity_is_local_diagnostic_only: compares the running executable with the first soma on PATH by path and stable byte fingerprint; it installs no binary, starts no MCP server, records no proof row, creates no verification event, and does not prove client readiness";

/// What was found in an executable file.
#[derive(Debug)]
pub struct BinaryFileScan {
    pub path: String,
    pub byte_len: Option<usize>,
    pub fingerprint: Option<String>,
    pub error: Option<String>,
}

/// What a `BinaryFileScan` holds.
#[verifier::ext_equal]
pub struct BinaryFileScanView {
    pub path: Seq<char>,
    pub byte_len: Option<usize>,
    pub fingerprint: Option<Seq<char>>,
    pub error: Option<Seq<char>>,
}

impl DeepView for BinaryFileScan {
    type V = BinaryFileScanView;

    open spec fn deep_view(&self) -> BinaryFileScanView {
        BinaryFileScanView {
            path: self.path.deep_view(),
            byte_len: self.byte_len.deep_view(),
            fingerprint: self.fingerprint.deep_view(),
            error: self.error.deep_view(),
        }
    }
}

/// The executable that runs beside the `soma` on the search path.
#[derive(Debug)]
pub struct BinaryIdentity {
    pub source: &'static str,
    pub status: String,
    pub current_exe: Option<String>,
    pub path_soma: Option<String>,
    pub same_path: bool,
    pub same_fingerprint: bool,
    pub current_exe_scan: Option<BinaryFileScan>,
    pub path_soma_scan: Option<BinaryFileScan>,
    pub trust_boundary: &'static str,
}

/// What a `BinaryIdentity` holds.
#[verifier::ext_equal]
pub struct BinaryIdentityView {
    pub source: Seq<char>,
    pub status: Seq<char>,
    pub current_exe: Option<Seq<char>>,
    pub path_soma: Option<Seq<char>>,
    pub same_path: bool,
    pub same_fingerprint: bool,
    pub current_exe_scan: Option<BinaryFileScanView>,
    pub path_soma_scan: Option<BinaryFileScanView>,
    pub trust_boundary: Seq<char>,
}

impl DeepView for BinaryIdentity {
    type V = BinaryIdentityView;

    open spec fn deep_view(&self) -> BinaryIdentityView {
        BinaryIdentityView {
            source: self.source.deep_view(),
            status: self.status.deep_view(),
            current_exe: self.current_exe.deep_view(),
            path_soma: self.path_soma.deep_view(),
            same_path: self.same_path,
            same_fingerprint: self.same_fingerprint,
            current_exe_scan: self.current_exe_scan.deep_view(),
            path_soma_scan: self.path_soma_scan.deep_view(),
            trust_boundary: self.trust_boundary.deep_view(),
        }
    }
}

/// An executable file as it was found: where it is, the place that it resolves to, and
/// its bytes or why they could not be read.
#[derive(Debug)]
pub struct ObservedBinary {
    pub path: String,
    pub canonical: Option<String>,
    pub contents: Result<Vec<u8>, String>,
}

/// What an `ObservedBinary` holds.
pub struct ObservedBinaryView {
    pub path: Seq<char>,
    pub canonical: Option<Seq<char>>,
    pub contents: Result<Seq<u8>, Seq<char>>,
}

impl DeepView for ObservedBinary {
    type V = ObservedBinaryView;

    open spec fn deep_view(&self) -> ObservedBinaryView {
        ObservedBinaryView {
            path: self.path@,
            canonical: self.canonical.deep_view(),
            contents: match self.contents {
                Ok(bytes) => Ok(bytes@),
                Err(e) => Err(e@),
            },
        }
    }
}

pub const DIFFERS: &'static str = "path_soma_differs_from_current_exe";

/// The `soma` to name in a command: the running executable where the search path gives
/// another one.
pub open spec fn resolved_bin(id: BinaryIdentityView) -> Option<Seq<char>> {
    if id.status == DIFFERS@ {
        id.current_exe
    } else {
        None
    }
}

impl BinaryIdentity {
    pub fn differs_from_path_soma(&self) -> (r: bool)
        ensures
            r == (self.deep_view().status == DIFFERS@),
    {
        same(self.status.as_str(), DIFFERS)
    }

    pub fn resolved_soma_bin(&self) -> (r: Option<&str>)
        ensures
            r.deep_view() == resolved_bin(self.deep_view()),
    {
        if self.differs_from_path_soma() {
            borrowed(&self.current_exe)
        } else {
            None
        }
    }
}

/// The name by which commands for the operator call `soma`.
pub open spec fn operator_bin(id: BinaryIdentityView) -> Seq<char> {
    match resolved_bin(id) {
        Some(b) => b,
        None => "soma"@,
    }
}

/// The name by which commands for the operator call `soma`.
pub fn resolved_soma_bin_for_operator_command(identity: &BinaryIdentity) -> (r: String)
    ensures
        r@ == operator_bin(identity.deep_view()),
{
    match identity.resolved_soma_bin() {
        Some(b) => b.to_string(),
        None => "soma".to_string(),
    }
}

/// The command with `bin` in place of the word `soma` where that names the executable:
/// as the first word, and after `--soma-bin`.
pub open spec fn rebound(command: Seq<Seq<char>>, bin: Seq<char>) -> Seq<Seq<char>>
    decreases command.len(),
{
    if command.len() == 0 {
        command
    } else {
        let front = rebound(command.drop_last(), bin);
        let names = if command.len() == 1 {
            command[0] == "soma"@
        } else {
            front.last() == "--soma-bin"@ && command.last() == "soma"@
        };
        front.push(
            if names {
                bin
            } else {
                command.last()
            },
        )
    }
}

/// The command as it is shown to the operator.
pub open spec fn operator_command(command: Seq<Seq<char>>, id: BinaryIdentityView) -> Seq<
    Seq<char>,
> {
    match resolved_bin(id) {
        Some(bin) => rebound(command, bin),
        None => command,
    }
}

/// Names the running executable in a command, where the search path would give another
/// one.
pub fn command_with_current_binary_when_path_soma_differs(
    command: Vec<String>,
    binary_identity: &BinaryIdentity,
) -> (r: Vec<String>)
    ensures
        r.deep_view() == operator_command(command.deep_view(), binary_identity.deep_view()),
{
    let bin = match binary_identity.resolved_soma_bin() {
        Some(b) => b,
        None => return command,
    };
    let mut out: Vec<String> = none();
    let mut i: usize = 0;
    let ghost all = command.deep_view();
    assert(all.take(0) =~= nil());
    while i < command.len()
        invariant
            i <= command.len(),
            all == command.deep_view(),
            out.len() == i,
            out.deep_view() == rebound(all.take(i as int), bin@),
        decreases command.len() - i,
    {
        assert(all.take(i + 1).drop_last() =~= all.take(i as int));
        assert(all.take(i + 1).last() == command[i as int]@);
        let names = if i == 0 {
            same(command[0].as_str(), "soma")
        } else {
            assert(out.deep_view().last() == out[i - 1]@);
            same(out[i - 1].as_str(), "--soma-bin") && same(command[i].as_str(), "soma")
        };
        let word = if names { bin.to_string() } else { command[i].clone() };
        out = with(out, word);
        assert(out.deep_view().len() == out.len());
        i = i + 1;
    }
    assert(all.take(i as int) =~= all);
    out
}

/// What is found in an executable file.
pub open spec fn scanned(file: ObservedBinaryView) -> BinaryFileScanView {
    match file.contents {
        Ok(bytes) => BinaryFileScanView {
            path: file.path,
            byte_len: Some(bytes.len() as usize),
            fingerprint: Some(fingerprint(bytes)),
            error: None,
        },
        Err(e) => BinaryFileScanView {
            path: file.path,
            byte_len: None,
            fingerprint: None,
            error: Some(e),
        },
    }
}

/// The message about a file that could not be read.
pub open spec fn scan_faults(file: Option<ObservedBinaryView>) -> Seq<Seq<char>> {
    match file {
        Some(f) => match f.contents {
            Ok(_) => nil(),
            Err(e) => nil().push("binary scan "@ + f.path + ": "@ + e),
        },
        None => nil(),
    }
}

fn scan_binary_file(file: &ObservedBinary, errors: &mut Vec<String>) -> (r: BinaryFileScan)
    ensures
        r.deep_view() == scanned(file.deep_view()),
        final(errors).deep_view() == old(errors).deep_view() + scan_faults(
            Some(file.deep_view()),
        ),
{
    let ghost had = errors.deep_view();
    match &file.contents {
        Ok(bytes) => {
            assert(had + scan_faults(Some(file.deep_view())) =~= had);
            BinaryFileScan {
                path: file.path.clone(),
                byte_len: Some(bytes.len()),
                fingerprint: Some(stable_content_fingerprint(bytes.as_slice())),
                error: None,
            }
        },
        Err(e) => {
            errors.push(cat4("binary scan ", file.path.as_str(), ": ", e.as_str()));
            assert(errors.deep_view() =~= had + scan_faults(Some(file.deep_view())));
            BinaryFileScan {
                path: file.path.clone(),
                byte_len: None,
                fingerprint: None,
                error: Some(e.clone()),
            }
        },
    }
}

/// Two files are one: they resolve to one place, or, where one does not resolve, are
/// named alike.
pub open spec fn one_place(a: ObservedBinaryView, b: ObservedBinaryView) -> bool {
    if a.canonical is Some && b.canonical is Some {
        is_same_path(a.canonical->0, b.canonical->0)
    } else {
        is_same_path(a.path, b.path)
    }
}

fn canonical_path_eq(left: &ObservedBinary, right: &ObservedBinary) -> (r: bool)
    ensures
        r == one_place(left.deep_view(), right.deep_view()),
{
    match (&left.canonical, &right.canonical) {
        (Some(l), Some(r)) => same_path(l.as_str(), r.as_str()),
        _ => same_path(left.path.as_str(), right.path.as_str()),
    }
}

pub open spec fn identity_status(
    current: bool,
    path: bool,
    same_path: bool,
    same_bytes: bool,
) -> Seq<
    char,
> {
    if current && path {
        if same_path {
            "path_soma_matches_current_exe"@
        } else if same_bytes {
            "path_soma_same_bytes_different_path"@
        } else {
            DIFFERS@
        }
    } else if current {
        "path_soma_not_found"@
    } else if path {
        "current_exe_unavailable"@
    } else {
        "binary_identity_unavailable"@
    }
}

/// The identity that two executables, each found or not, have.
pub open spec fn identity_of(
    current: Option<ObservedBinaryView>,
    path: Option<ObservedBinaryView>,
) -> BinaryIdentityView {
    let same_path = current is Some && path is Some && one_place(current->0, path->0);
    let same_bytes = current is Some && path is Some && current->0.contents is Ok
        && path->0.contents is Ok && fingerprint(current->0.contents->Ok_0) == fingerprint(
        path->0.contents->Ok_0,
    );
    BinaryIdentityView {
        source: BINARY_IDENTITY_SOURCE@,
        status: identity_status(current is Some, path is Some, same_path, same_bytes),
        current_exe: match current {
            Some(f) => Some(f.path),
            None => None,
        },
        path_soma: match path {
            Some(f) => Some(f.path),
            None => None,
        },
        same_path,
        same_fingerprint: same_bytes,
        current_exe_scan: match current {
            Some(f) => Some(scanned(f)),
            None => None,
        },
        path_soma_scan: match path {
            Some(f) => Some(scanned(f)),
            None => None,
        },
        trust_boundary: BINARY_IDENTITY_TRUST_BOUNDARY@,
    }
}

/// The executable that runs, where the system told it.
pub open spec fn found(current: Result<ObservedBinary, String>) -> Option<ObservedBinaryView> {
    match current {
        Ok(f) => Some(f.deep_view()),
        Err(_) => None,
    }
}

/// The messages about what could not be found or read.
pub open spec fn identity_faults(
    current: Result<ObservedBinary, String>,
    path: Option<ObservedBinaryView>,
) -> Seq<Seq<char>> {
    let first = match current {
        Ok(f) => scan_faults(Some(f.deep_view())),
        Err(e) => nil().push("current_exe: "@ + e@),
    };
    first + scan_faults(path)
}

/// Compares the running executable with the `soma` on the search path, and adds what
/// went wrong to `errors`.
pub fn collect_binary_identity_with_errors(
    current: &Result<ObservedBinary, String>,
    path_soma: &Option<ObservedBinary>,
    errors: &mut Vec<String>,
) -> (r: BinaryIdentity)
    ensures
        r.deep_view() == identity_of(found(*current), path_soma.deep_view()),
        final(errors).deep_view() == old(errors).deep_view() + identity_faults(
            *current,
            path_soma.deep_view(),
        ),
{
    let ghost had = errors.deep_view();
    let current_exe_scan = match current {
        Ok(f) => Some(scan_binary_file(f, errors)),
        Err(e) => {
            errors.push(cat2("current_exe: ", e.as_str()));
            assert(errors.deep_view() =~= had + nil().push("current_exe: "@ + e@));
            None
        },
    };
    let ghost mid = errors.deep_view();
    let path_soma_scan = match path_soma {
        Some(f) => Some(scan_binary_file(f, errors)),
        None => {
            assert(mid + nil() =~= mid);
            None
        },
    };
    assert(errors.deep_view() =~= had + identity_faults(*current, path_soma.deep_view()));
    let mut same_path = false;
    let mut same_fingerprint = false;
    let mut current_path: Option<String> = None;
    let mut path_path: Option<String> = None;
    match (current, path_soma) {
        (Ok(c), Some(p)) => {
            same_path = canonical_path_eq(c, p);
            same_fingerprint = match (&c.contents, &p.contents) {
                (Ok(x), Ok(y)) => same(
                    stable_content_fingerprint(x.as_slice()).as_str(),
                    stable_content_fingerprint(y.as_slice()).as_str(),
                ),
                _ => false,
            };
            current_path = Some(c.path.clone());
            path_path = Some(p.path.clone());
        },
        (Ok(c), None) => {
            current_path = Some(c.path.clone());
        },
        (Err(_), Some(p)) => {
            path_path = Some(p.path.clone());
        },
        (Err(_), None) => {},
    }
    let status = if current_path.is_some() && path_path.is_some() {
        if same_path {
            "path_soma_matches_current_exe"
        } else if same_fingerprint {
            "path_soma_same_bytes_different_path"
        } else {
            DIFFERS
        }
    } else if current_path.is_some() {
        "path_soma_not_found"
    } else if path_path.is_some() {
        "current_exe_unavailable"
    } else {
        "binary_identity_unavailable"
    };
    BinaryIdentity {
        source: BINARY_IDENTITY_SOURCE,
        status: status.to_string(),
        current_exe: current_path,
        path_soma: path_path,
        same_path,
        same_fingerprint,
        current_exe_scan,
        path_soma_scan,
        trust_boundary: BINARY_IDENTITY_TRUST_BOUNDARY,
    }
}

/// Compares the running executable with the `soma` on the search path.
pub fn collect_binary_identity(
    current: &Result<ObservedBinary, String>,
    path_soma: &Option<ObservedBinary>,
) -> (r: (BinaryIdentity, Vec<String>))
    ensures
        r.0.deep_view() == identity_of(found(*current), path_soma.deep_view()),
        r.1.deep_view() == identity_faults(*current, path_soma.deep_view()),
{
    let mut errors: Vec<String> = none();
    let identity = collect_binary_identity_with_errors(current, path_soma, &mut errors);
    assert(nil() + identity_faults(*current, path_soma.deep_view()) =~= identity_faults(
        *current,
        path_soma.deep_view(),
    ));
    (identity, errors)
}

/// A scan as JSON. What is missing is left out.
pub open spec fn scan_value(scan: BinaryFileScanView) -> JsonView {
    let a = Seq::empty().push(("path"@, JsonView::Text(scan.path)));
    let b = with_member(
        a,
        "byte_len"@,
        match scan.byte_len {
            Some(n) => Some(JsonView::Int(n as int)),
            None => None,
        },
    );
    let c = with_member(b, "fingerprint"@, some_text(scan.fingerprint));
    JsonView::Object(with_member(c, "error"@, some_text(scan.error)))
}

fn scan_json(scan: &BinaryFileScan) -> (r: Json)
    ensures
        r@ == scan_value(scan.deep_view()),
{
    let byte_len = match scan.byte_len {
        Some(n) => Some(Json::Int(n as i128)),
        None => None,
    };
    Members::new().text("path", scan.path.as_str()).maybe("byte_len", byte_len).maybe_text(
        "fingerprint",
        borrowed(&scan.fingerprint),
    ).maybe_text("error", borrowed(&scan.error)).done()
}

/// A scan that may be missing, as JSON.
pub open spec fn scan_value_if(scan: Option<BinaryFileScanView>) -> Option<JsonView> {
    match scan {
        Some(s) => Some(scan_value(s)),
        None => None,
    }
}

fn scan_json_if(scan: &Option<BinaryFileScan>) -> (r: Option<Json>)
    ensures
        r.deep_view() == scan_value_if(scan.deep_view()),
{
    match scan {
        Some(s) => Some(scan_json(s)),
        None => None,
    }
}

/// An identity as JSON. What is missing is left out.
pub open spec fn identity_value(id: BinaryIdentityView) -> JsonView {
    let a = Seq::empty().push(("source"@, JsonView::Text(id.source))).push(
        ("status"@, JsonView::Text(id.status)),
    );
    let b = with_member(a, "current_exe"@, some_text(id.current_exe));
    let c = with_member(b, "path_soma"@, some_text(id.path_soma));
    let d = c.push(("same_path"@, JsonView::Bool(id.same_path))).push(
        ("same_fingerprint"@, JsonView::Bool(id.same_fingerprint)),
    );
    let e = with_member(d, "current_exe_scan"@, scan_value_if(id.current_exe_scan));
    let f = with_member(e, "path_soma_scan"@, scan_value_if(id.path_soma_scan));
    JsonView::Object(f.push(("trust_boundary"@, JsonView::Text(id.trust_boundary))))
}

pub fn identity_json(id: &BinaryIdentity) -> (r: Json)
    ensures
        r@ == identity_value(id.deep_view()),
{
    Members::new().text("source", id.source).text("status", id.status.as_str()).maybe_text(
        "current_exe",
        borrowed(&id.current_exe),
    ).maybe_text("path_soma", borrowed(&id.path_soma)).flag("same_path", id.same_path).flag(
        "same_fingerprint",
        id.same_fingerprint,
    ).maybe("current_exe_scan", scan_json_if(&id.current_exe_scan)).maybe(
        "path_soma_scan",
        scan_json_if(&id.path_soma_scan),
    ).text("trust_boundary", id.trust_boundary).done()
}

// ---------------------------------------------------------------------------
// Laws
// ---------------------------------------------------------------------------

/// A command keeps its length, and every word but those that name `soma`.
pub proof fn law_only_soma_is_renamed(command: Seq<Seq<char>>, bin: Seq<char>)
    ensures
        rebound(command, bin).len() == command.len(),
        forall|i: int|
            0 <= i < command.len() ==> #[trigger] rebound(command, bin)[i] == command[i] || (
            command[i] == "soma"@ && rebound(command, bin)[i] == bin),
    decreases command.len(),
{
    if command.len() > 0 {
        law_only_soma_is_renamed(command.drop_last(), bin);
        let front = rebound(command.drop_last(), bin);
        assert forall|i: int| 0 <= i < command.len() implies #[trigger] rebound(command, bin)[i]
            == command[i] || (command[i] == "soma"@ && rebound(command, bin)[i] == bin) by {
            if i < command.len() - 1 {
                assert(rebound(command, bin)[i] == front[i]);
                assert(command.drop_last()[i] == command[i]);
            }
        }
    }
}

/// Where the search path gives the running executable, or none, commands stay as they
/// are.
pub proof fn law_commands_stay_without_difference(
    current: Option<ObservedBinaryView>,
    path: Option<ObservedBinaryView>,
    command: Seq<Seq<char>>,
)
    requires
        !(current is Some && path is Some) || one_place(current->0, path->0),
    ensures
        operator_command(command, identity_of(current, path)) == command,
{
    reveal_strlit("path_soma_matches_current_exe");
    reveal_strlit("path_soma_differs_from_current_exe");
    reveal_strlit("path_soma_not_found");
    reveal_strlit("current_exe_unavailable");
    reveal_strlit("binary_identity_unavailable");
    assert("path_soma_matches_current_exe"@.len() == 29);
    assert(DIFFERS@.len() == 34);
    assert("path_soma_not_found"@.len() == 19);
    assert("current_exe_unavailable"@.len() == 23);
    assert("binary_identity_unavailable"@.len() == 27);
}

/// The running executable and the first `soma` on the search path are told to be one where
/// they lie at the same place, to have the same bytes where only their fingerprints agree,
/// and to differ else; where one of them is missing, that is told. Only where they differ
/// is the running executable named in commands.
pub proof fn law_identity_compares_place_and_bytes(
    current: Option<ObservedBinaryView>,
    path: Option<ObservedBinaryView>,
)
    ensures
        ({
            let id = identity_of(current, path);
            let both = current is Some && path is Some;
            let one = both && one_place(current->0, path->0);
            let alike = both && current->0.contents is Ok && path->0.contents is Ok && fingerprint(
                current->0.contents->Ok_0,
            ) == fingerprint(path->0.contents->Ok_0);
            &&& one ==> id.status == "path_soma_matches_current_exe"@
            &&& both && !one && alike ==> id.status == "path_soma_same_bytes_different_path"@
            &&& both && !one && !alike ==> id.status == "path_soma_differs_from_current_exe"@
            &&& current is Some && path is None ==> id.status == "path_soma_not_found"@
            &&& current is None && path is Some ==> id.status == "current_exe_unavailable"@
            &&& current is None && path is None ==> id.status == "binary_identity_unavailable"@
            &&& id.same_path == one
            &&& id.same_fingerprint == alike
            &&& current is Some ==> id.current_exe == Some(current->0.path)
            &&& path is Some ==> id.path_soma == Some(path->0.path)
            &&& both && !one && !alike ==> operator_bin(id) == current->0.path
            &&& !both || one || alike ==> operator_bin(id) == "soma"@
        }),
{
    reveal_strlit("path_soma_matches_current_exe");
    reveal_strlit("path_soma_same_bytes_different_path");
    reveal_strlit("path_soma_differs_from_current_exe");
    reveal_strlit("path_soma_not_found");
    reveal_strlit("current_exe_unavailable");
    reveal_strlit("binary_identity_unavailable");
    assert("path_soma_matches_current_exe"@.len() == 29);
    assert("path_soma_same_bytes_different_path"@.len() == 35);
    assert(DIFFERS@.len() == 34);
    assert("path_soma_not_found"@.len() == 19);
    assert("current_exe_unavailable"@.len() == 23);
    assert("binary_identity_unavailable"@.len() == 27);
}

/// The first word of a command that is `soma` becomes the executable, and so does a `soma`
/// after the flag `--soma-bin`.
pub proof fn law_soma_is_renamed_where_it_is_called(command: Seq<Seq<char>>, bin: Seq<char>, i: int)
    requires
        0 <= i < command.len(),
        bin != "--soma-bin"@,
        i == 0 || command[i - 1] == "--soma-bin"@,
        command[i] == "soma"@,
    ensures
        rebound(command, bin)[i] == bin,
    decreases command.len(),
{
    reveal_strlit("soma");
    reveal_strlit("--soma-bin");
    assert("soma"@.len() == 4);
    assert("--soma-bin"@.len() == 10);
    law_only_soma_is_renamed(command.drop_last(), bin);
    if i < command.len() - 1 {
        assert(command.drop_last()[i] == command[i]);
        if i > 0 {
            assert(command.drop_last()[i - 1] == command[i - 1]);
        }
        law_soma_is_renamed_where_it_is_called(command.drop_last(), bin, i);
    } else if i > 0 {
        let front = rebound(command.drop_last(), bin);
        assert(command.drop_last()[i - 1] == command[i - 1]);
        assert(front[i - 1] == command[i - 1]);
    }
}

}
