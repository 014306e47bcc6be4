//! `soma backfill`: every episode is embedded again under the primary model.
//!
//! The store hands out a bounded number of episodes at a time. The command goes on until
//! nothing is left to write, and tells after each cycle how far it has come.
use crate::capture::ai_cli::{fault_text, IngestError};
use crate::number::{decimal, decimal_text};
use crate::outcome::outcome;
use crate::storage::StorageError;
use crate::text::{cat2, nil, Phrase, Words};
use vstd::prelude::*;

verus! {

/// Why the command failed.
#[derive(Debug)]
pub enum BackfillError {
    Path(String),
    Storage(StorageError),
}

/// What a `BackfillError` holds.
pub enum BackfillFault {
    Path(Seq<char>),
    Storage(Seq<char>),
}

impl DeepView for BackfillError {
    type V = BackfillFault;

    open spec fn deep_view(&self) -> BackfillFault {
        match self {
            BackfillError::Path(m) => BackfillFault::Path(m@),
            BackfillError::Storage(e) => BackfillFault::Storage(e.message@),
        }
    }
}

impl BackfillError {
    /// The message of the error.
    pub fn message(&self) -> (r: String)
        ensures
            r@ == match self.deep_view() {
                BackfillFault::Path(m) => "path: "@ + m,
                BackfillFault::Storage(m) => "storage: "@ + m,
            },
    {
        match self {
            BackfillError::Path(m) => cat2("path: ", m.as_str()),
            BackfillError::Storage(e) => cat2("storage: ", e.message.as_str()),
        }
    }
}

impl From<StorageError> for BackfillError {
    fn from(value: StorageError) -> (r: Self) {
        BackfillError::Storage(value)
    }
}

impl vstd::std_specs::convert::FromSpecImpl<StorageError> for BackfillError {
    open spec fn obeys_from_spec() -> bool {
        true
    }

    open spec fn from_spec(value: StorageError) -> Self {
        BackfillError::Storage(value)
    }
}

/// The exit code of an error.
pub fn exit_code_for(err: &BackfillError) -> (r: i32)
    ensures
        r == match err.deep_view() {
            BackfillFault::Path(_) => 3i32,
            BackfillFault::Storage(_) => 2i32,
        },
{
    match err {
        BackfillError::Path(_) => 3,
        BackfillError::Storage(_) => 2,
    }
}

/// A backfill under way: how many cycles it has had, and how many episodes were written
/// in them.
#[derive(Debug)]
pub struct Backfill {
    pub cycle: usize,
    pub total: usize,
}

/// What is told to the operator, and whether another cycle follows.
#[derive(Debug)]
pub enum BackfillStep {
    Again(String),
    Done(String),
}

/// What a `BackfillStep` holds.
pub enum BackfillStepView {
    Again(Seq<char>),
    Done(Seq<char>),
}

impl DeepView for BackfillStep {
    type V = BackfillStepView;

    open spec fn deep_view(&self) -> BackfillStepView {
        match self {
            BackfillStep::Again(m) => BackfillStepView::Again(m@),
            BackfillStep::Done(m) => BackfillStepView::Done(m@),
        }
    }
}

/// Digits, after as many spaces as make at least three characters.
pub open spec fn three_wide(digits: Seq<char>) -> Seq<char> {
    if digits.len() == 1 {
        "  "@ + digits
    } else if digits.len() == 2 {
        " "@ + digits
    } else {
        digits
    }
}

fn pad(digits: &str) -> (r: String)
    ensures
        r@ == three_wide(digits@),
{
    let n: usize = digits.unicode_len();
    if n == 1 {
        cat2("  ", digits)
    } else if n == 2 {
        cat2(" ", digits)
    } else {
        digits.to_string()
    }
}

/// What is told after a cycle that wrote `n` episodes.
pub open spec fn step_of(cycle: nat, total: nat, n: nat) -> BackfillStepView {
    if n > 0 {
        BackfillStepView::Again(
            "  cycle "@ + three_wide(decimal(cycle + 1)) + ": +"@ + decimal(n)
                + " episodes (cumulative: "@ + decimal(total + n) + ")"@,
        )
    } else if total == 0 {
        BackfillStepView::Done(
            "soma: backfill — every episode already has a primary-model vector (no-op)"@,
        )
    } else {
        BackfillStepView::Done(
            "soma: backfill complete — "@ + decimal(total) + " episodes re-embedded over "@
                + decimal(cycle) + " cycle(s)"@,
        )
    }
}

impl Backfill {
    /// Every cycle but the last writes something.
    pub open spec fn wf(&self) -> bool {
        self.cycle <= self.total
    }

    /// One cycle wrote `n` episodes. The backfill ends with the first that writes none.
    pub fn advance(&mut self, n: usize) -> (r: BackfillStep)
        requires
            old(self).wf(),
            old(self).total + n <= usize::MAX,
        ensures
            final(self).wf(),
            final(self).total == old(self).total + n,
            final(self).cycle == old(self).cycle + (if n > 0 {
                1int
            } else {
                0
            }),
            r.deep_view() == step_of(old(self).cycle as nat, old(self).total as nat, n as nat),
    {
        if n > 0 {
            self.cycle = self.cycle + 1;
            self.total = self.total + n;
            let digits = decimal_text(self.cycle as u64);
            BackfillStep::Again(
                Phrase::new("  cycle ").t(pad(digits.as_str()).as_str()).t(": +").n(n).t(
                    " episodes (cumulative: ",
                ).n(self.total).t(")").done(),
            )
        } else if self.total == 0 {
            BackfillStep::Done(
                "soma: backfill — every episode already has a primary-model vector (no-op)".to_string(),
            )
        } else {
            BackfillStep::Done(
                Phrase::new("soma: backfill complete — ").n(self.total).t(
                    " episodes re-embedded over ",
                ).n(self.cycle).t(" cycle(s)").done(),
            )
        }
    }
}

/// What is told before the first cycle.
pub open spec fn heading(model_id: Seq<char>, dim: nat, db_path: Seq<char>) -> Seq<Seq<char>> {
    nil().push("soma: backfill — re-embedding episodes under primary backend"@).push(
        "  model_id: "@ + model_id,
    ).push("  dim:      "@ + decimal(dim)).push("  db:       "@ + db_path)
}

/// A backfill that is about to begin, with what is told before it.
#[derive(Debug)]
pub struct BackfillStart {
    pub backfill: Backfill,
    pub heading: Vec<String>,
}

/// Begins a backfill of the store at `db_path`, which was opened or not, under the
/// primary model.
pub fn run_blocking(
    db_path: Result<String, IngestError>,
    opened: Result<(), StorageError>,
    model_id: &str,
    dim: usize,
) -> (r: Result<BackfillStart, BackfillError>)
    ensures
        match outcome(db_path) {
            Err(f) => r matches Err(e) && e.deep_view() == BackfillFault::Path(fault_text(f)),
            Ok(path) => match opened {
                Err(e) => r matches Err(x) && x.deep_view() == BackfillFault::Storage(e.message@),
                Ok(_) => r matches Ok(s) && s.backfill.wf() && s.backfill.total == 0
                    && s.backfill.cycle == 0 && s.heading.deep_view() == heading(
                    model_id@,
                    dim as nat,
                    path,
                ),
            },
        },
{
    let path = match db_path {
        Ok(p) => p,
        Err(e) => return Err(BackfillError::Path(e.message())),
    };
    match opened {
        Ok(_) => {},
        Err(e) => return Err(BackfillError::Storage(e)),
    }
    let heading = Words::new().w("soma: backfill — re-embedding episodes under primary backend").w(
        cat2("  model_id: ", model_id).as_str(),
    ).w(Phrase::new("  dim:      ").n(dim).done().as_str()).w(
        cat2("  db:       ", path.as_str()).as_str(),
    ).done();
    Ok(BackfillStart { backfill: Backfill { cycle: 0, total: 0 }, heading })
}

// ---------------------------------------------------------------------------
// Laws
// ---------------------------------------------------------------------------

/// How many episodes cycles wrote together.
pub open spec fn sum(counts: Seq<nat>) -> nat
    decreases counts.len(),
{
    if counts.len() == 0 {
        0
    } else {
        sum(counts.drop_last()) + counts.last()
    }
}

/// The cycles and the episodes after cycles that wrote these numbers.
pub open spec fn after_cycles(counts: Seq<nat>) -> (nat, nat)
    decreases counts.len(),
{
    if counts.len() == 0 {
        (0, 0)
    } else {
        let (cycle, total) = after_cycles(counts.drop_last());
        if counts.last() > 0 {
            (cycle + 1, total + counts.last())
        } else {
            (cycle, total)
        }
    }
}

/// Cycles that all write something are all counted, and the total is what they wrote. The
/// backfill ends with the next cycle if and only if that one writes nothing.
pub proof fn law_total_is_what_cycles_wrote(counts: Seq<nat>, n: nat)
    requires
        forall|i: int| 0 <= i < counts.len() ==> #[trigger] counts[i] > 0,
    ensures
        after_cycles(counts) == (counts.len(), sum(counts)),
        step_of(counts.len(), sum(counts), n) is Done <==> n == 0,
    decreases counts.len(),
{
    if counts.len() > 0 {
        assert(counts.last() == counts[counts.len() - 1]);
        assert forall|i: int| 0 <= i < counts.drop_last()
            .len() implies #[trigger] counts.drop_last()[i]
            > 0 by {
            assert(counts.drop_last()[i] == counts[i]);
        }
        law_total_is_what_cycles_wrote(counts.drop_last(), n);
    }
}

/// After a cycle that wrote something the line tells what it wrote and what all of them
/// wrote so far, and there is another cycle.
pub proof fn law_cycles_go_on_while_they_write(cycle: nat, total: nat, n: nat)
    ensures
        step_of(cycle, total, n) is Again <==> n > 0,
        step_of(cycle, total, n) matches BackfillStepView::Again(line) ==> line == "  cycle "@
            + three_wide(decimal((cycle + 1) as nat)) + ": +"@ + decimal(n)
            + " episodes (cumulative: "@ + decimal((total + n) as nat) + ")"@,
        n == 0 && total > 0 ==> step_of(cycle, total, n) == BackfillStepView::Done(
            "soma: backfill complete — "@ + decimal(total) + " episodes re-embedded over "@
                + decimal(cycle) + " cycle(s)"@,
        ),
{
}

}
