//! What follows once an episode is stored: its place among the others.
//!
//! An episode is joined to those that are most like it. How alike two are is told by a
//! number that orders as their similarity does.
use super::ai_cli::{IngestPlan, IngestPlanView};
use crate::text::{none, with};
use vstd::prelude::*;

verus! {

/// An episode, and how like another it is.
#[derive(Debug, Clone, Copy, PartialEq, Eq, Structural)]
pub struct Neighbor {
    pub episode_id: i64,
    pub similarity: i64,
}

/// The episodes that count: others, and alike enough.
pub open spec fn eligible(rows: Seq<Neighbor>, new_id: i64, threshold: i64) -> Seq<Neighbor>
    decreases rows.len(),
{
    if rows.len() == 0 {
        Seq::empty()
    } else {
        let front = eligible(rows.drop_last(), new_id, threshold);
        let x = rows.last();
        if x.episode_id != new_id && x.similarity >= threshold {
            front.push(x)
        } else {
            front
        }
    }
}

/// An episode put behind all that are at least as much alike.
pub open spec fn placed(s: Seq<Neighbor>, x: Neighbor) -> Seq<Neighbor>
    decreases s.len(),
{
    if s.len() == 0 {
        Seq::empty().push(x)
    } else if s.last().similarity >= x.similarity {
        s.push(x)
    } else {
        placed(s.drop_last(), x).push(s.last())
    }
}

/// The most alike first; of those that are alike, the first stays first.
pub open spec fn ranked(rows: Seq<Neighbor>) -> Seq<Neighbor>
    decreases rows.len(),
{
    if rows.len() == 0 {
        Seq::empty()
    } else {
        placed(ranked(rows.drop_last()), rows.last())
    }
}

/// The episodes that a new one is joined to.
pub open spec fn strongest(rows: Seq<Neighbor>, new_id: i64, threshold: i64, k: usize) -> Seq<
    Neighbor,
> {
    let all = ranked(eligible(rows, new_id, threshold));
    if all.len() <= k {
        all
    } else {
        all.take(k as int)
    }
}

proof fn lemma_placed(s: Seq<Neighbor>, x: Neighbor, k: int)
    requires
        0 <= k <= s.len(),
        forall|i: int| k <= i < s.len() ==> (#[trigger] s[i]).similarity < x.similarity,
        k > 0 ==> s[k - 1].similarity >= x.similarity,
    ensures
        placed(s, x) == s.insert(k, x),
    decreases s.len(),
{
    if s.len() == 0 {
        assert(placed(s, x) =~= s.insert(k, x));
    } else if k == s.len() {
        assert(s.push(x) =~= s.insert(k, x));
    } else {
        let front = s.drop_last();
        assert(s.last().similarity < x.similarity);
        assert forall|i: int| k <= i < front.len() implies (#[trigger] front[i]).similarity
            < x.similarity by {
            assert(front[i] == s[i]);
        }
        lemma_placed(front, x, k);
        assert(front.insert(k, x).push(s.last()) =~= s.insert(k, x));
    }
}

fn place(list: &mut Vec<Neighbor>, x: Neighbor)
    ensures
        final(list)@ == placed(old(list)@, x),
{
    let mut k: usize = list.len();
    while k > 0 && list[k - 1].similarity < x.similarity
        invariant
            k <= list.len(),
            *list == *old(list),
            forall|i: int| k <= i < list.len() ==> (#[trigger] list@[i]).similarity < x.similarity,
        decreases k,
    {
        k = k - 1;
    }
    proof {
        lemma_placed(list@, x, k as int);
    }
    list.insert(k, x);
}

/// The episodes that a new one is joined to: at most `k`, the most alike first.
pub fn wire_edges_after_ingest(
    rows: &Vec<Neighbor>,
    new_id: i64,
    threshold: i64,
    k: usize,
) -> (r: Vec<Neighbor>)
    ensures
        r@ == strongest(rows@, new_id, threshold, k),
{
    let mut list: Vec<Neighbor> = Vec::new();
    let mut i: usize = 0;
    assert(rows@.take(0) =~= Seq::empty());
    while i < rows.len()
        invariant
            i <= rows.len(),
            list@ == ranked(eligible(rows@.take(i as int), new_id, threshold)),
        decreases rows.len() - i,
    {
        let ghost front = eligible(rows@.take(i as int), new_id, threshold);
        assert(rows@.take(i + 1).drop_last() =~= rows@.take(i as int));
        assert(rows@.take(i + 1).last() == rows@[i as int]);
        let x = rows[i];
        if x.episode_id != new_id && x.similarity >= threshold {
            place(&mut list, x);
            assert(front.push(x).drop_last() =~= front);
        }
        i = i + 1;
    }
    assert(rows@.take(i as int) =~= rows@);
    if list.len() > k {
        list.truncate(k);
    }
    list
}

/// The sizes of the parts that a vector is cut into for the predictor: the whole, a half, a
/// quarter and an eighth. A vector of fewer than eight numbers has none.
pub fn latent_dims(d: usize) -> (r: Option<Vec<usize>>)
    ensures
        match r {
            None => d < 8,
            Some(dims) => d >= 8 && dims@ == seq![
                d,
                (d / 2) as usize,
                (d / 4) as usize,
                (d / 8) as usize,
            ],
        },
{
    if d < 8 {
        return None;
    }
    let dims: Vec<usize> = vec![d, d / 2, d / 4, d / 8];
    assert(dims@ =~= seq![d, (d / 2) as usize, (d / 4) as usize, (d / 8) as usize]);
    Some(dims)
}

/// What was found on scoring an episode: whether its free energy is that of an anomaly, and
/// whether it is worth a pin.
#[derive(Debug, Clone, Copy, PartialEq, Eq, Structural)]
pub struct ScoreVerdict {
    pub anomalous: bool,
    pub pin: bool,
}

/// What is done once an episode is stored. None of it can undo the storing.
#[derive(Debug, Clone, Copy, PartialEq, Eq, Structural)]
pub enum IngestStep {
    WriteSecondaryVector,
    WireEdges,
    UpdateCentroid,
    RecordAnomaly,
    PinEpisode,
    StampSignature,
}

impl DeepView for IngestStep {
    type V = IngestStep;

    open spec fn deep_view(&self) -> IngestStep {
        *self
    }
}

pub open spec fn step_if(
    steps: Seq<IngestStep>,
    wanted: bool,
    step: IngestStep,
) -> Seq<IngestStep> {
    if wanted {
        steps.push(step)
    } else {
        steps
    }
}

fn add_step(steps: Vec<IngestStep>, wanted: bool, step: IngestStep) -> (r: Vec<IngestStep>)
    ensures
        r.deep_view() == step_if(steps.deep_view(), wanted, step),
{
    if wanted {
        with(steps, step)
    } else {
        steps
    }
}

/// What follows, in its order. Only an episode with a vector is joined to others and scored;
/// only one with a signature can be brought together with others later.
pub open spec fn steps_after(
    plan: IngestPlanView,
    has_vector: bool,
    score: Option<ScoreVerdict>,
) -> Seq<IngestStep> {
    let a = step_if(Seq::empty(), plan.embed, IngestStep::WriteSecondaryVector);
    let b = step_if(a, has_vector, IngestStep::WireEdges);
    let c = step_if(b, has_vector, IngestStep::UpdateCentroid);
    let d = step_if(c, score is Some && score->0.anomalous, IngestStep::RecordAnomaly);
    let e = step_if(d, score is Some && score->0.pin, IngestStep::PinEpisode);
    step_if(e, plan.signature is Some, IngestStep::StampSignature)
}

pub fn ingest_steps(plan: &IngestPlan, has_vector: bool, score: Option<ScoreVerdict>) -> (r: Vec<
    IngestStep,
>)
    ensures
        r.deep_view() == steps_after(plan.deep_view(), has_vector, score),
{
    let (anomalous, pin) = match score {
        Some(s) => (s.anomalous, s.pin),
        None => (false, false),
    };
    let steps = add_step(none(), plan.embed, IngestStep::WriteSecondaryVector);
    let steps = add_step(steps, has_vector, IngestStep::WireEdges);
    let steps = add_step(steps, has_vector, IngestStep::UpdateCentroid);
    let steps = add_step(steps, anomalous, IngestStep::RecordAnomaly);
    let steps = add_step(steps, pin, IngestStep::PinEpisode);
    add_step(steps, plan.signature.is_some(), IngestStep::StampSignature)
}

// ---------------------------------------------------------------------------
// Laws
// ---------------------------------------------------------------------------

/// The most alike come first.
pub open spec fn descending(s: Seq<Neighbor>) -> bool {
    forall|i: int, j: int|
        0 <= i < j < s.len() ==> (#[trigger] s[i]).similarity >= (#[trigger] s[j]).similarity
}

proof fn lemma_place_of(s: Seq<Neighbor>, x: Neighbor, k: int) -> (r: int)
    requires
        0 <= k <= s.len(),
        forall|i: int| k <= i < s.len() ==> (#[trigger] s[i]).similarity < x.similarity,
    ensures
        0 <= r <= s.len(),
        forall|i: int| r <= i < s.len() ==> (#[trigger] s[i]).similarity < x.similarity,
        r > 0 ==> s[r - 1].similarity >= x.similarity,
    decreases k,
{
    if k == 0 || s[k - 1].similarity >= x.similarity {
        k
    } else {
        lemma_place_of(s, x, k - 1)
    }
}

/// Ranking only orders: the same episodes stand in it as often as before, the most alike
/// first.
pub proof fn law_ranking_orders(rows: Seq<Neighbor>)
    ensures
        descending(ranked(rows)),
        ranked(rows).to_multiset() == rows.to_multiset(),
        ranked(rows).len() == rows.len(),
    decreases rows.len(),
{
    if rows.len() > 0 {
        let front = ranked(rows.drop_last());
        let x = rows.last();
        law_ranking_orders(rows.drop_last());
        let k = lemma_place_of(front, x, front.len() as int);
        lemma_placed(front, x, k);
        let r = front.insert(k, x);
        assert forall|i: int, j: int| 0 <= i < j < r.len() implies (#[trigger] r[i]).similarity >= (
        #[trigger] r[j]).similarity by {
            if i < k {
                assert(r[i] == front[i]);
                if j == k {
                    if i < k - 1 {
                        assert(front[i].similarity >= front[k - 1].similarity);
                    }
                } else if j < k {
                    assert(r[j] == front[j]);
                } else {
                    assert(r[j] == front[j - 1]);
                }
            } else if i == k {
                assert(r[j] == front[j - 1]);
            } else {
                assert(r[i] == front[i - 1]);
                assert(r[j] == front[j - 1]);
            }
        }
        vstd::seq_lib::to_multiset_insert(front, k, x);
        vstd::seq_lib::to_multiset_build(rows.drop_last(), x);
        assert(rows.drop_last().push(x) =~= rows);
    } else {
        assert(ranked(rows) =~= rows);
    }
}

proof fn lemma_eligible(rows: Seq<Neighbor>, new_id: i64, threshold: i64)
    ensures
        forall|i: int|
            0 <= i < eligible(rows, new_id, threshold).len() ==> (#[trigger] eligible(
                rows,
                new_id,
                threshold,
            )[i]).episode_id != new_id && eligible(rows, new_id, threshold)[i].similarity
                >= threshold,
    decreases rows.len(),
{
    if rows.len() > 0 {
        let front = eligible(rows.drop_last(), new_id, threshold);
        let all = eligible(rows, new_id, threshold);
        lemma_eligible(rows.drop_last(), new_id, threshold);
        assert forall|i: int| 0 <= i < all.len() implies (#[trigger] all[i]).episode_id != new_id
            && all[i].similarity >= threshold by {
            if i < front.len() {
                assert(all[i] == front[i]);
            }
        }
    }
}

/// A new episode is joined to at most `k` others, never to itself, only to such as are
/// alike enough, and the most alike come first.
pub proof fn law_edges_join_the_most_alike(
    rows: Seq<Neighbor>,
    new_id: i64,
    threshold: i64,
    k: usize,
)
    ensures
        strongest(rows, new_id, threshold, k).len() <= k,
        descending(strongest(rows, new_id, threshold, k)),
        forall|i: int|
            0 <= i < strongest(rows, new_id, threshold, k).len() ==> (#[trigger] strongest(
                rows,
                new_id,
                threshold,
                k,
            )[i]).episode_id != new_id && strongest(rows, new_id, threshold, k)[i].similarity
                >= threshold,
{
    let some = eligible(rows, new_id, threshold);
    let all = ranked(some);
    let r = strongest(rows, new_id, threshold, k);
    law_ranking_orders(some);
    lemma_eligible(rows, new_id, threshold);
    assert forall|i: int| 0 <= i < r.len() implies (#[trigger] r[i]).episode_id != new_id
        && r[i].similarity >= threshold by {
        assert(r[i] == all[i]);
        vstd::seq_lib::to_multiset_contains(all, all[i]);
        assert(all.contains(all[i]));
        assert(some.to_multiset().count(all[i]) > 0);
        vstd::seq_lib::to_multiset_contains(some, all[i]);
        let j = choose|j: int| 0 <= j < some.len() && some[j] == all[i];
        assert(some[j].episode_id != new_id);
    }
}

/// What follows on storing an episode is what it gives rise to: a second vector where it is
/// embedded, edges and the centroid where it has a vector, a note and a pin where its score
/// says so, and its signature where it has one. They follow in this order.
pub proof fn law_steps_follow_from_the_episode(
    plan: IngestPlanView,
    has_vector: bool,
    score: Option<ScoreVerdict>,
)
    ensures
        ({
            let s = steps_after(plan, has_vector, score);
            &&& s.contains(IngestStep::WriteSecondaryVector) <==> plan.embed
            &&& s.contains(IngestStep::WireEdges) <==> has_vector
            &&& s.contains(IngestStep::UpdateCentroid) <==> has_vector
            &&& s.contains(IngestStep::RecordAnomaly) <==> score is Some && score->0.anomalous
            &&& s.contains(IngestStep::PinEpisode) <==> score is Some && score->0.pin
            &&& s.contains(IngestStep::StampSignature) <==> plan.signature is Some
            &&& plan.signature is Some ==> s.last() == IngestStep::StampSignature
            &&& plan.embed ==> s[0] == IngestStep::WriteSecondaryVector
        }),
{
    let a = step_if(Seq::empty(), plan.embed, IngestStep::WriteSecondaryVector);
    let b = step_if(a, has_vector, IngestStep::WireEdges);
    let c = step_if(b, has_vector, IngestStep::UpdateCentroid);
    let anomalous = score is Some && score->0.anomalous;
    let pin = score is Some && score->0.pin;
    let d = step_if(c, anomalous, IngestStep::RecordAnomaly);
    let e = step_if(d, pin, IngestStep::PinEpisode);
    lemma_step_if(Seq::empty(), plan.embed, IngestStep::WriteSecondaryVector);
    lemma_step_if(a, has_vector, IngestStep::WireEdges);
    lemma_step_if(b, has_vector, IngestStep::UpdateCentroid);
    lemma_step_if(c, anomalous, IngestStep::RecordAnomaly);
    lemma_step_if(d, pin, IngestStep::PinEpisode);
    lemma_step_if(e, plan.signature is Some, IngestStep::StampSignature);
}

proof fn lemma_step_if(steps: Seq<IngestStep>, wanted: bool, step: IngestStep)
    ensures
        forall|x: IngestStep| #[trigger]
            step_if(steps, wanted, step).contains(x) <==> steps.contains(x) || (wanted && x == step),
{
    assert forall|x: IngestStep| #[trigger]
        step_if(steps, wanted, step).contains(x) <==> steps.contains(x) || (wanted && x == step) by {
        if wanted {
            assert(steps.push(step)[steps.len() as int] == step);
            if steps.contains(x) {
                let i = choose|i: int| 0 <= i < steps.len() && steps[i] == x;
                assert(steps.push(step)[i] == x);
            }
        }
    }
}

/// No edge is passed over for a weaker one: a neighbour that is alike enough and was left
/// out is not more alike than any that was taken, and none is left out while there is room.
pub proof fn law_stronger_neighbours_are_not_passed_over(
    rows: Seq<Neighbor>,
    new_id: i64,
    threshold: i64,
    k: usize,
    i: int,
)
    requires
        0 <= i < rows.len(),
        rows[i].episode_id != new_id,
        rows[i].similarity >= threshold,
    ensures
        ({
            let s = strongest(rows, new_id, threshold, k);
            s.contains(rows[i]) || (s.len() == k && forall|j: int|
                0 <= j < s.len() ==> (#[trigger] s[j]).similarity >= rows[i].similarity)
        }),
{
    let some = eligible(rows, new_id, threshold);
    let all = ranked(some);
    let s = strongest(rows, new_id, threshold, k);
    lemma_eligible_holds(rows, new_id, threshold, i);
    law_ranking_orders(some);
    assert(some.to_multiset().contains(rows[i])) by {
        some.to_multiset_ensures();
    }
    assert(all.contains(rows[i])) by {
        all.to_multiset_ensures();
    }
    let n = choose|n: int| 0 <= n < all.len() && all[n] == rows[i];
    if n < s.len() {
        assert(s[n] == rows[i]);
    } else {
        assert forall|j: int| 0 <= j < s.len() implies (#[trigger] s[j]).similarity
            >= rows[i].similarity by {
            assert(s[j] == all[j]);
            assert(all[j].similarity >= all[n].similarity);
        }
    }
}

proof fn lemma_eligible_holds(rows: Seq<Neighbor>, new_id: i64, threshold: i64, i: int)
    requires
        0 <= i < rows.len(),
        rows[i].episode_id != new_id,
        rows[i].similarity >= threshold,
    ensures
        eligible(rows, new_id, threshold).contains(rows[i]),
    decreases rows.len(),
{
    let e = eligible(rows, new_id, threshold);
    if i == rows.len() - 1 {
        assert(e[e.len() - 1] == rows[i]);
    } else {
        let front = rows.drop_last();
        assert(front[i] == rows[i]);
        lemma_eligible_holds(front, new_id, threshold, i);
        let f = eligible(front, new_id, threshold);
        let n = choose|n: int| 0 <= n < f.len() && f[n] == rows[i];
        assert(e[n] == rows[i]);
    }
}

}
