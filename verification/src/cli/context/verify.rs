//! `soma context verify-claim`: claims, and what was found on verifying them.
use super::args::{ContextVerifyClaimArgs, ContextVerifyClaimArgsView};
use super::error::{bad, bad_format, corrupt, plain, ContextError, ContextFault};
use super::reports::{json_text, report_text};
use super::requests::{StoredEvidenceRef, StoredEvidenceRefView};
use super::review::{evidence_of, make_evidence, review_target, target_of, ReviewTarget};
use super::tokens::{
    law_result_words_name_results, law_verifier_words_name_verifiers, parse_verification_result,
    parse_verifier_type, result_of, token, verifier_of, VerificationResult, VerifierType,
};
use crate::dup::Dup;
use crate::json::{number_list, Json, JsonView, Members};
use crate::number::decimal_int;
use crate::outcome::{borrowed, outcome};
use crate::storage::StorageError;
use crate::text::{none, trim, trimmed, with, Phrase};
use vstd::prelude::*;
use vstd::string::*;

verus! {

/// A verification: of what, by whom, with what result and on what grounds.
#[derive(Debug)]
pub struct VerifyClaimPlan {
    pub target: ReviewTarget,
    pub verifier_type: VerifierType,
    pub result: VerificationResult,
    pub evidence_ref: StoredEvidenceRef,
}

/// What a `VerifyClaimPlan` holds.
#[verifier::ext_equal]
pub struct VerifyClaimPlanView {
    pub target: ReviewTarget,
    pub verifier_type: VerifierType,
    pub result: VerificationResult,
    pub evidence_ref: StoredEvidenceRefView,
}

impl DeepView for VerifyClaimPlan {
    type V = VerifyClaimPlanView;

    open spec fn deep_view(&self) -> VerifyClaimPlanView {
        VerifyClaimPlanView {
            target: self.target,
            verifier_type: self.verifier_type,
            result: self.result,
            evidence_ref: self.evidence_ref.deep_view(),
        }
    }
}

/// The claims that a verification is recorded for, those that it passes over, and what it
/// was asked for.
#[derive(Debug)]
pub struct VerificationTargets {
    pub claim_ids: Vec<i64>,
    pub skipped_claim_ids: Vec<i64>,
    pub target_type: String,
    pub target_id: i64,
    pub proposal: Json,
}

/// What a `VerificationTargets` holds.
#[verifier::ext_equal]
pub struct VerificationTargetsView {
    pub claim_ids: Seq<i64>,
    pub skipped_claim_ids: Seq<i64>,
    pub target_type: Seq<char>,
    pub target_id: i64,
    pub proposal: JsonView,
}

impl DeepView for VerificationTargets {
    type V = VerificationTargetsView;

    open spec fn deep_view(&self) -> VerificationTargetsView {
        VerificationTargetsView {
            claim_ids: self.claim_ids.deep_view(),
            skipped_claim_ids: self.skipped_claim_ids.deep_view(),
            target_type: self.target_type.deep_view(),
            target_id: self.target_id,
            proposal: self.proposal.deep_view(),
        }
    }
}

/// A verification that is stored.
#[derive(Debug)]
pub struct EventRow {
    pub id: i64,
    pub value: Json,
}

/// What an `EventRow` holds.
#[verifier::ext_equal]
pub struct EventRowView {
    pub id: i64,
    pub value: JsonView,
}

impl DeepView for EventRow {
    type V = EventRowView;

    open spec fn deep_view(&self) -> EventRowView {
        EventRowView {
            id: self.id,
            value: self.value.deep_view(),
        }
    }
}

/// A claim after its verification, and everything that verified it.
#[derive(Debug)]
pub struct ClaimRead {
    pub claim: Option<Json>,
    pub events: Vec<EventRow>,
}

/// What a `ClaimRead` holds.
#[verifier::ext_equal]
pub struct ClaimReadView {
    pub claim: Option<JsonView>,
    pub events: Seq<EventRowView>,
}

impl DeepView for ClaimRead {
    type V = ClaimReadView;

    open spec fn deep_view(&self) -> ClaimReadView {
        ClaimReadView {
            claim: self.claim.deep_view(),
            events: self.events.deep_view(),
        }
    }
}

pub fn verification_target_from_cli(args: &ContextVerifyClaimArgs) -> (r: Result<
    ReviewTarget,
    ContextError,
>)
    ensures
        plain(r) == target_of(args.claim_id, args.proposal_id),
{
    review_target(args.claim_id, args.proposal_id)
}

/// A verification, on a store that was opened or not. What it is about is looked at only
/// after the store was opened.
pub open spec fn verification(
    args: ContextVerifyClaimArgsView,
    opened: Result<(), Seq<char>>,
) -> Result<VerifyClaimPlanView, ContextFault> {
    match verifier_of(args.verifier) {
        Err(f) => Err(f),
        Ok(verifier_type) => match result_of(args.result) {
            Err(f) => Err(f),
            Ok(result) => if trimmed(args.evidence_kind).len() == 0 || trimmed(
                args.evidence_id,
            ).len() == 0 {
                bad("evidence_kind and evidence_id must be non-empty"@)
            } else {
                match opened {
                    Err(e) => Err(ContextFault::Storage(e)),
                    Ok(_) => match target_of(args.claim_id, args.proposal_id) {
                        Err(f) => Err(f),
                        Ok(target) => Ok(
                            VerifyClaimPlanView {
                                target,
                                verifier_type,
                                result,
                                evidence_ref: evidence_of(
                                    args.evidence_kind,
                                    args.evidence_id,
                                    args.evidence_source,
                                ),
                            },
                        ),
                    },
                }
            },
        },
    }
}

/// Nothing, or the message of an error.
pub open spec fn opening(r: Result<(), StorageError>) -> Result<(), Seq<char>> {
    match r {
        Ok(_) => Ok(()),
        Err(e) => Err(e.message@),
    }
}

pub fn run_verify_claim(
    args: &ContextVerifyClaimArgs,
    opened: Result<(), StorageError>,
) -> (r: Result<VerifyClaimPlan, ContextError>)
    ensures
        outcome(r) == verification(args.deep_view(), opening(opened)),
{
    let verifier_type = match parse_verifier_type(args.verifier.as_str()) {
        Err(e) => return Err(e),
        Ok(v) => v,
    };
    let result = match parse_verification_result(args.result.as_str()) {
        Err(e) => return Err(e),
        Ok(v) => v,
    };
    if trim(args.evidence_kind.as_str()).is_empty() || trim(args.evidence_id.as_str()).is_empty() {
        return bad_format("evidence_kind and evidence_id must be non-empty");
    }
    let evidence_ref = make_evidence(
        args.evidence_kind.as_str(),
        args.evidence_id.as_str(),
        borrowed(&args.evidence_source),
    );
    match opened {
        Err(e) => return Err(ContextError::Storage(e)),
        Ok(_) => {},
    }
    let target = match verification_target_from_cli(args) {
        Err(e) => return Err(e),
        Ok(t) => t,
    };
    Ok(VerifyClaimPlan { target, verifier_type, result, evidence_ref })
}

/// The claims that were read, up to the first that is gone.
pub open spec fn claims_read(ids: Seq<i64>, reads: Seq<ClaimReadView>) -> Result<
    Seq<JsonView>,
    ContextFault,
>
    decreases reads.len(),
{
    if reads.len() == 0 {
        Ok(Seq::empty())
    } else {
        match claims_read(ids, reads.drop_last()) {
            Err(f) => Err(f),
            Ok(front) => match reads.last().claim {
                Some(c) => Ok(front.push(c)),
                None => Err(
                    ContextFault::Storage(
                        "claim "@ + decimal_int(ids[reads.len() - 1] as int)
                            + " disappeared after verification insert"@,
                    ),
                ),
            },
        }
    }
}

/// The events among these that were recorded now.
pub open spec fn events_now(events: Seq<EventRowView>, now: Seq<i64>) -> Seq<JsonView>
    decreases events.len(),
{
    if events.len() == 0 {
        Seq::empty()
    } else {
        let front = events_now(events.drop_last(), now);
        if now.contains(events.last().id) {
            front.push(events.last().value)
        } else {
            front
        }
    }
}

/// The events of all claims that were recorded now.
pub open spec fn all_events_now(reads: Seq<ClaimReadView>, now: Seq<i64>) -> Seq<JsonView>
    decreases reads.len(),
{
    if reads.len() == 0 {
        Seq::empty()
    } else {
        all_events_now(reads.drop_last(), now) + events_now(reads.last().events, now)
    }
}

/// All of them hold.
pub open spec fn all_hold(flags: Seq<bool>) -> bool {
    forall|i: int| 0 <= i < flags.len() ==> #[trigger] flags[i]
}

/// The first value, or null.
pub open spec fn first_or_null(items: Seq<JsonView>) -> JsonView {
    if items.len() > 0 {
        items[0]
    } else {
        JsonView::Null
    }
}

/// The first number, or null.
pub open spec fn first_number(ids: Seq<i64>) -> JsonView {
    if ids.len() > 0 {
        JsonView::Int(ids[0] as int)
    } else {
        JsonView::Null
    }
}

/// What is told of a verification.
pub open spec fn verification_value(
    targets: VerificationTargetsView,
    event_ids: Seq<i64>,
    claims: Seq<JsonView>,
    events: Seq<JsonView>,
    durable: bool,
) -> JsonView {
    JsonView::Object(
        Seq::empty().push(("verification_event_id"@, first_number(event_ids))).push(
            ("verification_event_ids"@, number_list(event_ids)),
        ).push(("claim_id"@, first_number(targets.claim_ids))).push(
            ("claim_ids"@, number_list(targets.claim_ids)),
        ).push(("skipped_claim_ids"@, number_list(targets.skipped_claim_ids))).push(
            (
                "verification_target"@,
                JsonView::Object(
                    Seq::empty().push(("type"@, JsonView::Text(targets.target_type))).push(
                        ("id"@, JsonView::Int(targets.target_id as int)),
                    ),
                ),
            ),
        ).push(("durable_promotion_trust"@, JsonView::Bool(durable))).push(
            ("event"@, first_or_null(events)),
        ).push(("events"@, JsonView::List(events))).push(("claim"@, first_or_null(claims))).push(
            ("claims"@, JsonView::List(claims)),
        ).push(("proposal"@, targets.proposal)),
    )
}

/// What is told of a verification, where every claim is still there. A promotion is
/// durable where the store trusts every claim, also those that were passed over.
pub open spec fn verified(
    targets: VerificationTargetsView,
    event_ids: Seq<i64>,
    reads: Seq<ClaimReadView>,
    durable: Seq<bool>,
) -> Result<JsonView, ContextFault> {
    match claims_read(targets.claim_ids, reads) {
        Err(f) => Err(f),
        Ok(claims) => Ok(
            verification_value(
                targets,
                event_ids,
                claims,
                all_events_now(reads, event_ids),
                all_hold(durable),
            ),
        ),
    }
}

fn number_or_null(ids: &Vec<i64>) -> (r: Json)
    ensures
        r@ == first_number(ids@),
{
    if ids.len() > 0 {
        Json::Int(ids[0] as i128)
    } else {
        Json::Null
    }
}

fn value_or_null(items: &Vec<Json>) -> (r: Json)
    ensures
        r@ == first_or_null(items.deep_view()),
{
    assert(items.deep_view().len() == items.len());
    if items.len() > 0 {
        items[0].dup()
    } else {
        Json::Null
    }
}

fn is_among(ids: &Vec<i64>, id: i64) -> (r: bool)
    ensures
        r == ids@.contains(id),
{
    let mut i: usize = 0;
    while i < ids.len()
        invariant
            i <= ids.len(),
            forall|k: int| 0 <= k < i ==> #[trigger] ids@[k] != id,
        decreases ids.len() - i,
    {
        if ids[i] == id {
            assert(ids@[i as int] == id);
            return true;
        }
        i = i + 1;
    }
    false
}

fn add_events(out: Vec<Json>, events: &Vec<EventRow>, now: &Vec<i64>) -> (r: Vec<Json>)
    ensures
        r.deep_view() == out.deep_view() + events_now(events.deep_view(), now@),
{
    let ghost was = out.deep_view();
    let ghost all = events.deep_view();
    let mut out = out;
    let mut i: usize = 0;
    assert(all.take(0) =~= Seq::empty());
    assert(was + Seq::empty() =~= was);
    while i < events.len()
        invariant
            i <= events.len(),
            all == events.deep_view(),
            out.deep_view() =~= was + events_now(all.take(i as int), now@),
        decreases events.len() - i,
    {
        assert(all.take(i + 1).drop_last() =~= all.take(i as int));
        assert(all.take(i + 1).last() == events[i as int].deep_view());
        if is_among(now, events[i].id) {
            out = with(out, events[i].value.dup());
        }
        i = i + 1;
    }
    assert(all.take(i as int) =~= all);
    out
}

fn every(flags: &Vec<bool>) -> (r: bool)
    ensures
        r == all_hold(flags@),
{
    let mut i: usize = 0;
    while i < flags.len()
        invariant
            i <= flags.len(),
            forall|k: int| 0 <= k < i ==> #[trigger] flags@[k],
        decreases flags.len() - i,
    {
        if !flags[i] {
            assert(!flags@[i as int]);
            return false;
        }
        i = i + 1;
    }
    true
}

proof fn lemma_gone_stays(ids: Seq<i64>, reads: Seq<ClaimReadView>, n: int)
    requires
        0 <= n <= reads.len(),
        claims_read(ids, reads.take(n)) is Err,
    ensures
        claims_read(ids, reads) == claims_read(ids, reads.take(n)),
    decreases reads.len(),
{
    if n == reads.len() {
        assert(reads.take(n) =~= reads);
    } else {
        assert(reads.drop_last().take(n) =~= reads.take(n));
        lemma_gone_stays(ids, reads.drop_last(), n);
    }
}

/// What is told of a verification, as text. `event_ids` are the events that were recorded,
/// `reads` what the store gave of each claim afterwards, `durable` whether it trusts each
/// claim for a durable promotion.
pub fn verification_report(
    targets: &VerificationTargets,
    event_ids: &Vec<i64>,
    reads: &Vec<ClaimRead>,
    durable: &Vec<bool>,
) -> (r: Result<String, ContextError>)
    requires
        reads.len() == targets.claim_ids.len(),
    ensures
        outcome(r) == match verified(
            targets.deep_view(),
            event_ids@,
            reads.deep_view(),
            durable@,
        ) {
            Err(f) => Err(f),
            Ok(v) => Ok(report_text(v)),
        },
{
    let ghost ids = targets.deep_view().claim_ids;
    let ghost all = reads.deep_view();
    assert(ids =~= targets.claim_ids@);
    let mut claims: Vec<Json> = none();
    let mut events: Vec<Json> = none();
    let mut i: usize = 0;
    assert(all.take(0) =~= Seq::empty());
    while i < reads.len()
        invariant
            i <= reads.len(),
            reads.len() == targets.claim_ids.len(),
            all == reads.deep_view(),
            ids == targets.deep_view().claim_ids,
            ids == targets.claim_ids@,
            claims_read(ids, all.take(i as int)) == Ok::<Seq<JsonView>, ContextFault>(
                claims.deep_view(),
            ),
            events.deep_view() == all_events_now(all.take(i as int), event_ids@),
        decreases reads.len() - i,
    {
        assert(all.take(i + 1).drop_last() =~= all.take(i as int));
        assert(all.take(i + 1).last() == reads[i as int].deep_view());
        match &reads[i].claim {
            Some(c) => {
                claims = with(claims, c.dup());
            },
            None => {
                proof {
                    lemma_gone_stays(ids, all, i + 1);
                }
                return corrupt(
                    Phrase::new("claim ").i(targets.claim_ids[i]).t(
                        " disappeared after verification insert",
                    ).done().as_str(),
                );
            },
        }
        events = add_events(events, &reads[i].events, event_ids);
        i = i + 1;
    }
    assert(all.take(i as int) =~= all);
    assert(targets.deep_view().skipped_claim_ids =~= targets.skipped_claim_ids@);
    let target = Members::new().text("type", targets.target_type.as_str()).integer(
        "id",
        targets.target_id as i128,
    );
    let durable_trust = every(durable);
    let value = Members::new().put("verification_event_id", number_or_null(event_ids)).put(
        "verification_event_ids",
        Json::numbers(event_ids),
    ).put("claim_id", number_or_null(&targets.claim_ids)).put(
        "claim_ids",
        Json::numbers(&targets.claim_ids),
    ).put("skipped_claim_ids", Json::numbers(&targets.skipped_claim_ids)).object(
        "verification_target",
        target,
    ).flag("durable_promotion_trust", durable_trust).put("event", value_or_null(&events)).put(
        "events",
        Json::list(events),
    ).put("claim", value_or_null(&claims)).put("claims", Json::list(claims)).put(
        "proposal",
        targets.proposal.dup(),
    ).done();
    Ok(json_text(&value))
}

// ---------------------------------------------------------------------------
// Laws
// ---------------------------------------------------------------------------

/// A verification that is recorded rests on something that has a kind and a number.
pub proof fn law_verifications_rest_on_evidence(
    args: ContextVerifyClaimArgsView,
    opened: Result<(), Seq<char>>,
)
    ensures
        verification(args, opened) matches Ok(plan) ==> {
            &&& plan.evidence_ref.kind.len() > 0
            &&& plan.evidence_ref.id.len() > 0
        },
{
}

/// A verification records what the flags say: the claim or the proposal that they name, the
/// verifier and the result whose words they give, and the evidence with its kind, its
/// number and its source, each trimmed.
pub proof fn law_verification_records_the_flags(
    args: ContextVerifyClaimArgs,
    opened: Result<(), StorageError>,
    r: Result<VerifyClaimPlan, ContextError>,
)
    requires
        outcome(r) == verification(args.deep_view(), opening(opened)),
        r is Ok,
    ensures
        ({
            let plan = r->Ok_0;
            &&& plan.result == VerificationResult::Confirmed <==> token(args.result@)
                == "confirmed"@
            &&& plan.result == VerificationResult::Contradicted <==> token(args.result@)
                == "contradicted"@
            &&& plan.result == VerificationResult::Superseded <==> token(args.result@)
                == "superseded"@
            &&& plan.result == VerificationResult::Inconclusive <==> token(args.result@)
                == "inconclusive"@
            &&& plan.verifier_type == VerifierType::User <==> token(args.verifier@) == "user"@
            &&& plan.verifier_type == VerifierType::Test <==> token(args.verifier@) == "test"@
            &&& plan.verifier_type == VerifierType::Tool <==> token(args.verifier@) == "tool"@
            &&& plan.verifier_type == VerifierType::LocalObservation <==> token(args.verifier@)
                == "local_observation"@
            &&& plan.verifier_type == VerifierType::Correction <==> token(args.verifier@)
                == "correction"@
            &&& match plan.target {
                ReviewTarget::Claim(id) => args.claim_id == Some(id) && args.proposal_id is None,
                ReviewTarget::Proposal(id) => args.proposal_id == Some(id) && args.claim_id is None,
            }
            &&& plan.evidence_ref.kind@ == trimmed(args.evidence_kind@)
            &&& plan.evidence_ref.id@ == trimmed(args.evidence_id@)
            &&& plan.evidence_ref.kind@.len() > 0
            &&& plan.evidence_ref.id@.len() > 0
            &&& plan.evidence_ref.source.deep_view() == (match args.evidence_source {
                Some(s) => if trimmed(s@).len() > 0 {
                    Some(trimmed(s@))
                } else {
                    None
                },
                None => None,
            })
        }),
        opened is Ok,
{
    law_result_words_name_results(args.result@);
    law_verifier_words_name_verifiers(args.verifier@);
}

/// A verification with a known verifier and result, evidence, one target and an open store
/// is recorded.
pub proof fn law_verification_is_recorded(args: ContextVerifyClaimArgsView)
    requires
        verifier_of(args.verifier) is Ok,
        result_of(args.result) is Ok,
        trimmed(args.evidence_kind).len() > 0,
        trimmed(args.evidence_id).len() > 0,
        args.claim_id is Some <==> args.proposal_id is None,
    ensures
        verification(args, Ok(())) is Ok,
{
}

}
