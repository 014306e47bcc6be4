//! `soma context compare-ranking`: two rankings of memories, compared on given cases.
use super::args::{ContextCompareRankingArgs, ContextCompareRankingArgsView};
use super::error::{bad, bad_format, ContextError, ContextFault};
use super::reports::{json_text, report_text};
use super::verify::opening;
use crate::dup::Dup;
use crate::json::{number_list, opt_text, Json, JsonView, Members};
use crate::number::decimal;
use crate::outcome::{borrowed, outcome};
use crate::storage::StorageError;
use crate::text::{cat3, cat4, chars, lines, lines_of, none, trim, trimmed, with, Phrase};
use vstd::prelude::*;
use vstd::string::*;

verus! {

/// A question, and the episodes that should answer it.
#[derive(Debug)]
pub struct RelevantMemoryRankingCase {
    pub query: String,
    pub expected_episode_ids: Vec<i64>,
}

/// What a `RelevantMemoryRankingCase` holds.
#[verifier::ext_equal]
pub struct RankingCaseView {
    pub query: Seq<char>,
    pub expected_episode_ids: Seq<i64>,
}

impl DeepView for RelevantMemoryRankingCase {
    type V = RankingCaseView;

    open spec fn deep_view(&self) -> RankingCaseView {
        RankingCaseView {
            query: self.query@,
            expected_episode_ids: self.expected_episode_ids.deep_view(),
        }
    }
}

/// Where the cases come from.
#[derive(Debug)]
pub enum RankingSource {
    Corpus(String),
    Single(RelevantMemoryRankingCase),
}

/// What a `RankingSource` holds.
pub enum RankingSourceView {
    Corpus(Seq<char>),
    Single(RankingCaseView),
}

impl DeepView for RankingSource {
    type V = RankingSourceView;

    open spec fn deep_view(&self) -> RankingSourceView {
        match self {
            RankingSource::Corpus(p) => RankingSourceView::Corpus(p@),
            RankingSource::Single(c) => RankingSourceView::Single(c.deep_view()),
        }
    }
}

/// A file with cases, or one question, not both.
pub open spec fn ranking_source(args: ContextCompareRankingArgsView) -> Result<
    RankingSourceView,
    ContextFault,
> {
    match args.corpus {
        Some(path) => if args.query is Some || args.expected_episodes.len() > 0 {
            bad("--corpus cannot be combined with --query or --expected-episode"@)
        } else {
            Ok(RankingSourceView::Corpus(path))
        },
        None => match args.query {
            None => bad("--query is required unless --corpus is provided"@),
            Some(query) => if trimmed(query).len() == 0 {
                bad("query cannot be empty"@)
            } else {
                Ok(
                    RankingSourceView::Single(
                        RankingCaseView { query, expected_episode_ids: args.expected_episodes },
                    ),
                )
            },
        },
    }
}

pub fn compare_ranking_cases(args: &ContextCompareRankingArgs) -> (r: Result<
    RankingSource,
    ContextError,
>)
    ensures
        outcome(r) == ranking_source(args.deep_view()),
{
    assert(args.expected_episodes.deep_view().len() == args.expected_episodes.len());
    match &args.corpus {
        Some(path) => {
            if args.query.is_some() || args.expected_episodes.len() > 0 {
                return bad_format(
                    "--corpus cannot be combined with --query or --expected-episode",
                );
            }
            Ok(RankingSource::Corpus(path.clone()))
        },
        None => match &args.query {
            None => bad_format("--query is required unless --corpus is provided"),
            Some(query) => {
                if trim(query.as_str()).is_empty() {
                    return bad_format("query cannot be empty");
                }
                Ok(
                    RankingSource::Single(
                        RelevantMemoryRankingCase {
                            query: query.clone(),
                            expected_episode_ids: args.expected_episodes.dup(),
                        },
                    ),
                )
            },
        },
    }
}

/// What is compared, on a store that was opened or not.
pub open spec fn comparison(
    args: ContextCompareRankingArgsView,
    opened: Result<(), Seq<char>>,
) -> Result<RankingSourceView, ContextFault> {
    if args.semantic_k == 0 {
        bad("semantic_k must be greater than 0"@)
    } else {
        match opened {
            Err(e) => Err(ContextFault::Storage(e)),
            Ok(_) => ranking_source(args),
        }
    }
}

pub fn run_compare_ranking(
    args: &ContextCompareRankingArgs,
    opened: Result<(), StorageError>,
) -> (r: Result<RankingSource, ContextError>)
    ensures
        outcome(r) == comparison(args.deep_view(), opening(opened)),
{
    if args.semantic_k == 0 {
        return bad_format("semantic_k must be greater than 0");
    }
    match opened {
        Err(e) => return Err(ContextError::Storage(e)),
        Ok(_) => {},
    }
    compare_ranking_cases(args)
}

// ---------------------------------------------------------------------------
// Files with cases
// ---------------------------------------------------------------------------

/// A line of a file with cases, by its number.
#[derive(Debug)]
pub struct CorpusLine {
    pub number: usize,
    pub text: String,
}

/// What a `CorpusLine` holds.
#[verifier::ext_equal]
pub struct CorpusLineView {
    pub number: int,
    pub text: Seq<char>,
}

impl DeepView for CorpusLine {
    type V = CorpusLineView;

    open spec fn deep_view(&self) -> CorpusLineView {
        CorpusLineView { number: self.number as int, text: self.text@ }
    }
}

/// A file with cases: one list, or one case to a line.
#[derive(Debug)]
pub enum CorpusForm {
    List(String),
    Lines(Vec<CorpusLine>),
}

/// What a `CorpusForm` holds.
pub enum CorpusFormView {
    List(Seq<char>),
    Lines(Seq<CorpusLineView>),
}

impl DeepView for CorpusForm {
    type V = CorpusFormView;

    open spec fn deep_view(&self) -> CorpusFormView {
        match self {
            CorpusForm::List(s) => CorpusFormView::List(s@),
            CorpusForm::Lines(l) => CorpusFormView::Lines(l.deep_view()),
        }
    }
}

/// The lines that are not blank, trimmed and numbered from one on.
pub open spec fn numbered(all: Seq<Seq<char>>) -> Seq<CorpusLineView>
    decreases all.len(),
{
    if all.len() == 0 {
        Seq::empty()
    } else {
        let front = numbered(all.drop_last());
        let line = trimmed(all.last());
        if line.len() == 0 {
            front
        } else {
            front.push(CorpusLineView { number: all.len() as int, text: line })
        }
    }
}

/// The form of a file with cases. A list begins with a bracket.
pub open spec fn corpus_form(path: Seq<char>, body: Seq<char>) -> Result<
    CorpusFormView,
    ContextFault,
> {
    let t = trimmed(body);
    if t.len() == 0 {
        bad("ranking corpus `"@ + path + "` is empty"@)
    } else if t[0] == '[' {
        Ok(CorpusFormView::List(t))
    } else {
        Ok(CorpusFormView::Lines(numbered(lines_of(body))))
    }
}

/// A file with cases could not be read.
pub fn unread_corpus(path: &str, error: &str) -> (r: ContextError)
    ensures
        r.deep_view() == ContextFault::Path(
            "read ranking corpus `"@ + path@ + "`: "@ + error@,
        ),
{
    ContextError::Path(cat4("read ranking corpus `", path, "`: ", error))
}

pub fn read_ranking_corpus(path: &str, body: &str) -> (r: Result<CorpusForm, ContextError>)
    ensures
        outcome(r) == corpus_form(path@, body@),
{
    let t = trim(body);
    let cs = chars(t);
    if cs.len() == 0 {
        return bad_format(cat3("ranking corpus `", path, "` is empty").as_str());
    }
    if cs[0] == '[' {
        return Ok(CorpusForm::List(t.to_string()));
    }
    let all = lines(body);
    let ghost seen = all.deep_view();
    let mut out: Vec<CorpusLine> = none();
    let mut i: usize = 0;
    assert(seen.take(0) =~= Seq::empty());
    while i < all.len()
        invariant
            i <= all.len(),
            seen == all.deep_view(),
            out.deep_view() == numbered(seen.take(i as int)),
        decreases all.len() - i,
    {
        assert(seen.take(i + 1).drop_last() =~= seen.take(i as int));
        assert(seen.take(i + 1).last() == all[i as int]@);
        let line = trim(all[i].as_str());
        if !line.is_empty() {
            out = with(out, CorpusLine { number: i + 1, text: line.to_string() });
        }
        i = i + 1;
    }
    assert(seen.take(i as int) =~= seen);
    Ok(CorpusForm::Lines(out))
}

/// The message about a list that is not one of cases.
pub fn malformed_corpus(path: &str, error: &str) -> (r: ContextError)
    ensures
        r.deep_view() == ContextFault::BadFormat(
            "parse ranking corpus `"@ + path@ + "`: "@ + error@,
        ),
{
    ContextError::BadFormat(cat4("parse ranking corpus `", path, "`: ", error))
}

/// The message about a line that is not a case.
pub fn malformed_line(path: &str, number: usize, error: &str) -> (r: ContextError)
    ensures
        r.deep_view() == ContextFault::BadFormat(
            "parse ranking corpus `"@ + path@ + "` line "@ + decimal(number as nat) + ": "@
                + error@,
        ),
{
    ContextError::BadFormat(
        Phrase::new("parse ranking corpus `").t(path).t("` line ").n(number).t(": ").t(
            error,
        ).done(),
    )
}

/// The first case without a question.
pub open spec fn blank_case(cases: Seq<RankingCaseView>) -> Option<int>
    decreases cases.len(),
{
    if cases.len() == 0 {
        None
    } else {
        match blank_case(cases.drop_last()) {
            Some(i) => Some(i),
            None => if trimmed(cases.last().query).len() == 0 {
                Some(cases.len() as int)
            } else {
                None
            },
        }
    }
}

/// The cases of a file: at least one, and each asks something.
pub open spec fn corpus_cases(path: Seq<char>, cases: Seq<RankingCaseView>) -> Result<
    Seq<RankingCaseView>,
    ContextFault,
> {
    match blank_case(cases) {
        Some(n) => bad(
            "ranking corpus `"@ + path + "` case "@ + decimal(n as nat) + " has empty query"@,
        ),
        None => if cases.len() == 0 {
            bad("ranking corpus `"@ + path + "` contains no cases"@)
        } else {
            Ok(cases)
        },
    }
}

/// Cases by what they hold.
pub open spec fn cases_outcome(r: Result<Vec<RelevantMemoryRankingCase>, ContextError>) -> Result<
    Seq<RankingCaseView>,
    ContextFault,
> {
    match r {
        Ok(v) => Ok(v.deep_view()),
        Err(e) => Err(e.deep_view()),
    }
}

proof fn lemma_blank_stays(cases: Seq<RankingCaseView>, n: int)
    requires
        0 <= n <= cases.len(),
        blank_case(cases.take(n)) is Some,
    ensures
        blank_case(cases) == blank_case(cases.take(n)),
    decreases cases.len(),
{
    if n == cases.len() {
        assert(cases.take(n) =~= cases);
    } else {
        assert(cases.drop_last().take(n) =~= cases.take(n));
        lemma_blank_stays(cases.drop_last(), n);
    }
}

pub fn check_ranking_cases(path: &str, cases: Vec<RelevantMemoryRankingCase>) -> (r: Result<
    Vec<RelevantMemoryRankingCase>,
    ContextError,
>)
    ensures
        cases_outcome(r) == corpus_cases(path@, cases.deep_view()),
{
    let ghost all = cases.deep_view();
    let mut i: usize = 0;
    assert(all.take(0) =~= Seq::empty());
    while i < cases.len()
        invariant
            i <= cases.len(),
            all == cases.deep_view(),
            blank_case(all.take(i as int)) is None,
        decreases cases.len() - i,
    {
        assert(all.take(i + 1).drop_last() =~= all.take(i as int));
        assert(all.take(i + 1).last() == cases[i as int].deep_view());
        if trim(cases[i].query.as_str()).is_empty() {
            proof {
                lemma_blank_stays(all, i + 1);
            }
            return bad_format(
                Phrase::new("ranking corpus `").t(path).t("` case ").n(i + 1).t(
                    " has empty query",
                ).done().as_str(),
            );
        }
        i = i + 1;
    }
    assert(all.take(i as int) =~= all);
    assert(all.len() == cases.len());
    if cases.len() == 0 {
        return bad_format(cat3("ranking corpus `", path, "` contains no cases").as_str());
    }
    Ok(cases)
}

// ---------------------------------------------------------------------------
// The report
// ---------------------------------------------------------------------------

pub const RANKING_NOTE: &'static str =
    "diagnostic only; this command does not change the default MCP/ContextEnvelope backend";

pub open spec fn case_source(corpus: Option<Seq<char>>) -> JsonView {
    match corpus {
        Some(path) => JsonView::Object(
            Seq::empty().push(("kind"@, JsonView::Text("corpus"@))).push(
                ("path"@, JsonView::Text(path)),
            ),
        ),
        None => JsonView::Object(
            Seq::empty().push(("kind"@, JsonView::Text("single_query"@))),
        ),
    }
}

pub open spec fn backend_effective(cognitive: bool) -> Seq<char> {
    if cognitive {
        "hopfield"@
    } else {
        "hnsw-fallback"@
    }
}

/// What is told of a comparison.
pub open spec fn comparison_value(
    args: ContextCompareRankingArgsView,
    cognitive: bool,
    compared: JsonView,
) -> JsonView {
    JsonView::Object(
        Seq::empty().push(
            ("kind"@, JsonView::Text("context_relevant_memory_ranking_comparison"@)),
        ).push(
            (
                "scope"@,
                JsonView::Object(
                    Seq::empty().push(("query"@, opt_text(args.query))).push(
                        ("project"@, opt_text(args.project)),
                    ).push(("session_id"@, opt_text(args.session_id))),
                ),
            ),
        ).push(("case_source"@, case_source(args.corpus))).push(
            ("semantic_k"@, JsonView::Int(args.semantic_k as int)),
        ).push(
            (
                "backend_status"@,
                JsonView::Object(
                    Seq::empty().push(("baseline"@, JsonView::Text("hnsw"@))).push(
                        ("candidate"@, JsonView::Text("hopfield"@)),
                    ).push(("cognitive_feature_enabled"@, JsonView::Bool(cognitive))).push(
                        ("candidate_effective"@, JsonView::Text(backend_effective(cognitive))),
                    ).push(("note"@, JsonView::Text(RANKING_NOTE@))),
                ),
            ),
        ).push(("expected_episode_ids"@, number_list(args.expected_episodes))).push(
            ("comparison"@, compared),
        ),
    )
}

pub fn compare_ranking_text(
    args: &ContextCompareRankingArgs,
    cognitive: bool,
    compared: Json,
) -> (r: String)
    ensures
        r@ == report_text(comparison_value(args.deep_view(), cognitive, compared@)),
{
    assert(args.expected_episodes.deep_view() =~= args.expected_episodes@);
    let scope = Members::new().opt_text("query", borrowed(&args.query)).opt_text(
        "project",
        borrowed(&args.project),
    ).opt_text("session_id", borrowed(&args.session_id));
    let source = match &args.corpus {
        Some(path) => Members::new().text("kind", "corpus").text("path", path.as_str()),
        None => Members::new().text("kind", "single_query"),
    };
    let effective = if cognitive {
        "hopfield"
    } else {
        "hnsw-fallback"
    };
    let backend = Members::new().text("baseline", "hnsw").text("candidate", "hopfield").flag(
        "cognitive_feature_enabled",
        cognitive,
    ).text("candidate_effective", effective).text("note", RANKING_NOTE);
    json_text(
        &Members::new().text("kind", "context_relevant_memory_ranking_comparison").object(
            "scope",
            scope,
        ).object("case_source", source).integer("semantic_k", args.semantic_k as i128).object(
            "backend_status",
            backend,
        ).put("expected_episode_ids", Json::numbers(&args.expected_episodes)).put(
            "comparison",
            compared,
        ).done(),
    )
}

// ---------------------------------------------------------------------------
// Laws
// ---------------------------------------------------------------------------

proof fn lemma_no_blank(cases: Seq<RankingCaseView>)
    requires
        blank_case(cases) is None,
    ensures
        forall|i: int| 0 <= i < cases.len() ==> trimmed((#[trigger] cases[i]).query).len() > 0,
    decreases cases.len(),
{
    if cases.len() > 0 {
        lemma_no_blank(cases.drop_last());
        assert forall|i: int| 0 <= i < cases.len() implies trimmed(
            (#[trigger] cases[i]).query,
        ).len() > 0 by {
            if i < cases.len() - 1 {
                assert(cases[i] == cases.drop_last()[i]);
            }
        }
    }
}

/// The cases of a file are those that were read; there is at least one, and every one asks
/// something.
pub proof fn law_every_case_asks_something(path: Seq<char>, cases: Seq<RankingCaseView>)
    ensures
        corpus_cases(path, cases) matches Ok(c) ==> {
            &&& c == cases
            &&& c.len() > 0
            &&& forall|i: int| 0 <= i < c.len() ==> trimmed((#[trigger] c[i]).query).len() > 0
        },
{
    if blank_case(cases) is None {
        lemma_no_blank(cases);
    }
}

/// A comparison is made on the cases of a corpus, or on one query with the episodes that it
/// is expected to find, not on both; a query must say something.
pub proof fn law_comparison_has_one_source(
    args: ContextCompareRankingArgs,
    opened: Result<(), Seq<char>>,
)
    ensures
        comparison(args.deep_view(), opened) is Ok <==> args.semantic_k > 0 && opened is Ok && (
        if args.corpus is Some {
            args.query is None && args.expected_episodes@.len() == 0
        } else {
            args.query is Some && trimmed(args.query->0@).len() > 0
        }),
        comparison(args.deep_view(), opened) matches Ok(RankingSourceView::Corpus(p)) ==> Some(p)
            == args.corpus.deep_view(),
        comparison(args.deep_view(), opened) matches Ok(RankingSourceView::Single(c)) ==> Some(
            c.query,
        ) == args.query.deep_view() && c.expected_episode_ids == args.expected_episodes.deep_view(),
{
    assert(args.expected_episodes.deep_view().len() == args.expected_episodes@.len());
}

/// A corpus that begins with a bracket is a list; any other is read line by line, where
/// blank lines are passed over and every other keeps its number, counted from one.
pub proof fn law_corpus_lines_keep_their_numbers(all: Seq<Seq<char>>)
    ensures
        forall|k: int|
            0 <= k < numbered(all).len() ==> {
                let line = #[trigger] numbered(all)[k];
                &&& 1 <= line.number <= all.len()
                &&& line.text == trimmed(all[line.number - 1])
                &&& line.text.len() > 0
            },
        forall|i: int|
            0 <= i < all.len() && trimmed(#[trigger] all[i]).len() > 0 ==> exists|k: int|
                0 <= k < numbered(all).len() && (#[trigger] numbered(all)[k]).number == i + 1,
    decreases all.len(),
{
    if all.len() > 0 {
        let front = all.drop_last();
        law_corpus_lines_keep_their_numbers(front);
        let n = numbered(front);
        let r = numbered(all);
        assert forall|k: int| 0 <= k < r.len() implies {
            let line = #[trigger] r[k];
            &&& 1 <= line.number <= all.len()
            &&& line.text == trimmed(all[line.number - 1])
            &&& line.text.len() > 0
        } by {
            if k < n.len() {
                assert(r[k] == n[k]);
                assert(front[n[k].number - 1] == all[n[k].number - 1]);
            }
        }
        assert forall|i: int| 0 <= i < all.len() && trimmed(#[trigger] all[i]).len() > 0 implies (
        exists|k: int| 0 <= k < r.len() && (#[trigger] r[k]).number == i + 1) by {
            if i < front.len() {
                assert(front[i] == all[i]);
                let k = choose|k: int| 0 <= k < n.len() && (#[trigger] n[k]).number == i + 1;
                assert(r[k].number == i + 1);
            } else {
                assert(r[r.len() - 1].number == i + 1);
            }
        }
    }
}

}
