//! What holds of every proof session.
use super::flow::is_release_level;
use super::readiness::{
    claim_ready, client_status, client_statuses, entry, first_of_level, latest_levels,
    law_entry_is_newest_proof, level_failures, newest_first, non_release_sources, proof_failures,
};
use super::session::{
    is_stage, ledger_status, level_failed, level_incoherences, levels_in, session_of,
    session_stages, source_reason, stage_of, stages_of, status_of_client, SessionInput, StageKind,
};
use super::types::{
    AdapterBindingRealAppProofKitOutcomeView, ClientBindingLatestProofStatusView,
    ClientBindingOperatorFlowStepView, ClientBindingProofSessionStageView,
    ClientBindingReadinessStatusView, HostView, ObservedFileView,
};
use crate::storage::{ClientBindingProofLevel, StoredClientBindingProofView};
use vstd::prelude::*;

verus! {

/// Every level is either complete or pending.
pub proof fn law_levels_are_complete_or_pending(stages: Seq<ClientBindingProofSessionStageView>)
    ensures
        levels_in(stages, StageKind::Completed).len() + levels_in(stages, StageKind::Pending).len()
            == stages.len(),
    decreases stages.len(),
{
    if stages.len() > 0 {
        law_levels_are_complete_or_pending(stages.drop_last());
    }
}

proof fn lemma_pending_levels(stages: Seq<ClientBindingProofSessionStageView>)
    requires
        forall|i: int|
            0 <= i < stages.len() && (#[trigger] stages[i]).ready_to_record_now ==> is_stage(
                stages[i],
                StageKind::Pending,
            ),
    ensures
        levels_in(stages, StageKind::Recordable).len() + levels_in(stages, StageKind::Blocked).len()
            == levels_in(stages, StageKind::Pending).len(),
    decreases stages.len(),
{
    if stages.len() > 0 {
        let front = stages.drop_last();
        assert forall|i: int|
            0 <= i < front.len() && (#[trigger] front[i]).ready_to_record_now implies is_stage(
            front[i],
            StageKind::Pending,
        ) by {
            assert(front[i] == stages[i]);
        }
        lemma_pending_levels(front);
        assert(stages[stages.len() - 1] == stages.last());
    }
}

/// A level that is stored and verified is not recorded again.
pub proof fn law_stored_levels_are_not_recorded_again(
    level: ClientBindingProofLevel,
    status: Option<ClientBindingReadinessStatusView>,
    kit: AdapterBindingRealAppProofKitOutcomeView,
    flow: Seq<ClientBindingOperatorFlowStepView>,
)
    ensures
        stage_of(level, status, kit, flow).ready_to_record_now ==> is_stage(
            stage_of(level, status, kit, flow),
            StageKind::Pending,
        ),
{
    reveal_strlit("missing");
    reveal_strlit("stored_but_artifact_integrity_failed");
    reveal_strlit("stored_but_identity_mismatch");
    reveal_strlit("stored_verified");
    assert("missing"@.len() == 7);
    assert("stored_but_artifact_integrity_failed"@.len() == 36);
    assert("stored_but_identity_mismatch"@.len() == 28);
    assert("stored_verified"@.len() == 15);
}

/// Of the pending levels each either can be recorded now or is blocked.
pub proof fn law_pending_levels_are_recordable_or_blocked(
    status: Option<ClientBindingReadinessStatusView>,
    kit: AdapterBindingRealAppProofKitOutcomeView,
    flow: Seq<ClientBindingOperatorFlowStepView>,
)
    ensures
        ({
            let stages = session_stages(status, kit, flow);
            levels_in(stages, StageKind::Recordable).len() + levels_in(
                stages,
                StageKind::Blocked,
            ).len() == levels_in(stages, StageKind::Pending).len()
        }),
{
    let stages = session_stages(status, kit, flow);
    assert forall|i: int|
        0 <= i < stages.len() && (#[trigger] stages[i]).ready_to_record_now implies is_stage(
        stages[i],
        StageKind::Pending,
    ) by {
        law_stored_levels_are_not_recorded_again(
            ClientBindingProofLevel::ObservedAppHook,
            status,
            kit,
            flow,
        );
        law_stored_levels_are_not_recorded_again(
            ClientBindingProofLevel::ObservedInClientRender,
            status,
            kit,
            flow,
        );
        law_stored_levels_are_not_recorded_again(
            ClientBindingProofLevel::ObservedReviewAction,
            status,
            kit,
            flow,
        );
    }
    lemma_pending_levels(stages);
}

// ---------------------------------------------------------------------------
// The release gate
// ---------------------------------------------------------------------------

proof fn lemma_proof_failures(p: ClientBindingLatestProofStatusView, k: nat, i: int)
    requires
        0 <= i < proof_failures(p, k).len(),
    ensures
        proof_failures(p, k)[i].proof_level == p.proof_level,
    decreases k,
{
    if k > 0 && k <= p.artifact_checks.len() {
        let front = proof_failures(p, (k - 1) as nat);
        if i < front.len() {
            lemma_proof_failures(p, (k - 1) as nat, i);
        }
    }
}

/// A failure at a level that a release rests on is one that stands in its way.
proof fn lemma_failure_blocks_release(
    latest: Seq<ClientBindingLatestProofStatusView>,
    level: ClientBindingProofLevel,
)
    requires
        is_release_level(level),
        level_failed(level_failures(latest, false), level),
    ensures
        level_failures(latest, true).len() > 0,
    decreases latest.len(),
{
    if latest.len() > 0 {
        let all = level_failures(latest, false);
        let front = level_failures(latest.drop_last(), false);
        let p = latest.last();
        let own = proof_failures(p, p.artifact_checks.len());
        let i = choose|i: int| 0 <= i < all.len() && (#[trigger] all[i]).proof_level == level;
        if i < front.len() {
            assert(front[i] == all[i]);
            lemma_failure_blocks_release(latest.drop_last(), level);
        } else {
            assert(own[i - front.len()] == all[i]);
            lemma_proof_failures(p, p.artifact_checks.len(), i - front.len());
        }
    }
}

proof fn lemma_release_failure_shows(latest: Seq<ClientBindingLatestProofStatusView>)
    requires
        level_failures(latest, true).len() > 0,
    ensures
        exists|level: ClientBindingProofLevel|
            is_release_level(level) && #[trigger] level_failed(
                level_failures(latest, false),
                level,
            ),
    decreases latest.len(),
{
    if latest.len() > 0 {
        let all = level_failures(latest, false);
        let front = level_failures(latest.drop_last(), false);
        let p = latest.last();
        let own = proof_failures(p, p.artifact_checks.len());
        if level_failures(latest.drop_last(), true).len() > 0 {
            lemma_release_failure_shows(latest.drop_last());
            let level = choose|level: ClientBindingProofLevel|
                is_release_level(level) && #[trigger] level_failed(front, level);
            let i = choose|i: int|
                0 <= i < front.len() && (#[trigger] front[i]).proof_level == level;
            assert(all[i] == front[i]);
            assert(level_failed(all, level));
        } else {
            assert(own.len() > 0);
            lemma_proof_failures(p, p.artifact_checks.len(), 0);
            assert(all[front.len() as int] == own[0]);
            assert(level_failed(all, p.proof_level));
        }
    }
}

proof fn lemma_incoherences(failures: Seq<Seq<char>>)
    ensures
        level_incoherences(failures, ClientBindingProofLevel::ObservedInClientRender).len()
            + level_incoherences(failures, ClientBindingProofLevel::ObservedReviewAction).len()
            == failures.len(),
        level_incoherences(failures, ClientBindingProofLevel::ObservedAppHook).len() == 0,
    decreases failures.len(),
{
    if failures.len() > 0 {
        lemma_incoherences(failures.drop_last());
    }
}

proof fn lemma_sources_are_release(latest: Seq<ClientBindingLatestProofStatusView>, i: int)
    requires
        0 <= i < non_release_sources(latest).len(),
    ensures
        is_release_level(non_release_sources(latest)[i].proof_level),
    decreases latest.len(),
{
    if latest.len() > 0 {
        let front = non_release_sources(latest.drop_last());
        if i < front.len() {
            lemma_sources_are_release(latest.drop_last(), i);
        }
    }
}

/// Each of the latest proofs is the entry of its own level.
proof fn lemma_own_entry(
    proofs: Seq<StoredClientBindingProofView>,
    files: Seq<ObservedFileView>,
    i: int,
)
    requires
        0 <= i < latest_levels(proofs, files).len(),
    ensures
        ({
            let latest = latest_levels(proofs, files);
            entry(latest, latest[i].proof_level) == Some(latest[i])
        }),
{
    let latest = latest_levels(proofs, files);
    law_entry_is_newest_proof(proofs, files, latest[i].proof_level);
    lemma_level_of_first(proofs, ClientBindingProofLevel::ObservedAppHook);
    lemma_level_of_first(proofs, ClientBindingProofLevel::ObservedEventFile);
    lemma_level_of_first(proofs, ClientBindingProofLevel::ObservedInClientRender);
    lemma_level_of_first(proofs, ClientBindingProofLevel::ObservedReviewAction);
    lemma_level_of_first(proofs, ClientBindingProofLevel::ReferenceBinding);
}

proof fn lemma_level_of_first(
    proofs: Seq<StoredClientBindingProofView>,
    level: ClientBindingProofLevel,
)
    ensures
        first_of_level(proofs, level) matches Some(p) ==> p.proof_level == level,
    decreases proofs.len(),
{
    if proofs.len() > 0 && proofs[0].proof_level != level {
        lemma_level_of_first(proofs.skip(1), level);
    }
}

proof fn lemma_ledger_words()
    ensures
        "missing"@ != "stored_verified"@,
        "stored_but_artifact_integrity_failed"@ != "stored_verified"@,
        "stored_but_identity_mismatch"@ != "stored_verified"@,
        "stored_but_non_release_evidence_source"@ != "stored_verified"@,
        "pass"@ != "fail"@,
{
    reveal_strlit("missing");
    reveal_strlit("stored_but_artifact_integrity_failed");
    reveal_strlit("stored_but_identity_mismatch");
    reveal_strlit("stored_but_non_release_evidence_source");
    reveal_strlit("stored_verified");
    reveal_strlit("pass");
    reveal_strlit("fail");
    assert("missing"@.len() == 7);
    assert("stored_but_artifact_integrity_failed"@.len() == 36);
    assert("stored_but_identity_mismatch"@.len() == 28);
    assert("stored_but_non_release_evidence_source"@.len() == 38);
    assert("stored_verified"@.len() == 15);
    assert("pass"@[0] == 'p');
    assert("fail"@[0] == 'f');
}

/// All three levels are stored and verified exactly when the client may be claimed ready.
pub proof fn law_claim_iff_every_level_stored(
    client: Seq<char>,
    proofs: Seq<StoredClientBindingProofView>,
    files: Seq<ObservedFileView>,
    host: HostView,
)
    ensures
        ({
            let s = Some(client_status(client, proofs, files, host));
            client_status(client, proofs, files, host).ready_for_private_client_claim <==> (
            ledger_status(ClientBindingProofLevel::ObservedAppHook, s) == "stored_verified"@
                && ledger_status(ClientBindingProofLevel::ObservedInClientRender, s)
                == "stored_verified"@ && ledger_status(
                ClientBindingProofLevel::ObservedReviewAction,
                s,
            ) == "stored_verified"@)
        }),
{
    let st = client_status(client, proofs, files, host);
    let s = Some(st);
    let latest = latest_levels(proofs, files);
    let hook = ClientBindingProofLevel::ObservedAppHook;
    let render = ClientBindingProofLevel::ObservedInClientRender;
    let action = ClientBindingProofLevel::ObservedReviewAction;
    lemma_ledger_words();
    lemma_incoherences(st.coherence_failures);
    if claim_ready(latest) {
        assert forall|level: ClientBindingProofLevel| is_release_level(level) implies #[trigger]
        ledger_status(level, s) == "stored_verified"@ by {
            if level_failed(st.artifact_failures, level) {
                lemma_failure_blocks_release(latest, level);
            }
            let e = entry(latest, level)->0;
            law_entry_is_newest_proof(proofs, files, level);
            lemma_level_of_first(proofs, level);
            lemma_stands(latest, level);
        }
        assert(ledger_status(hook, s) == "stored_verified"@);
        assert(ledger_status(render, s) == "stored_verified"@);
        assert(ledger_status(action, s) == "stored_verified"@);
    } else if ledger_status(hook, s) == "stored_verified"@ && ledger_status(render, s)
        == "stored_verified"@ && ledger_status(action, s) == "stored_verified"@ {
        assert forall|i: int|
            0 <= i < latest.len() && is_release_level(
                (#[trigger] latest[i]).proof_level,
            ) implies latest[i].all_artifacts_verified by {
            lemma_own_entry(proofs, files, i);
        }
        if level_failures(latest, true).len() > 0 {
            lemma_release_failure_shows(latest);
        }
        let sources = non_release_sources(latest);
        if sources.len() > 0 {
            lemma_sources_are_release(latest, 0);
            assert(source_reason(sources, sources[0].proof_level) is Some);
        }
        assert(false);
    }
}

proof fn lemma_stands(
    latest: Seq<ClientBindingLatestProofStatusView>,
    level: ClientBindingProofLevel,
)
    ensures
        entry(latest, level) is Some ==> exists|i: int|
            0 <= i < latest.len() && #[trigger] latest[i] == entry(latest, level)->0
                && latest[i].proof_level == level,
    decreases latest.len(),
{
    if latest.len() > 0 {
        if latest[0].proof_level != level {
            let t = latest.skip(1);
            lemma_stands(t, level);
            if entry(t, level) is Some {
                let i = choose|i: int|
                    0 <= i < t.len() && #[trigger] t[i] == entry(t, level)->0 && t[i].proof_level
                        == level;
                assert(latest[i + 1] == t[i]);
            }
        }
    }
}

proof fn lemma_status_found(
    clients: Seq<ClientBindingReadinessStatusView>,
    client: Seq<char>,
)
    ensures
        status_of_client(clients, client) matches Some(s) ==> s.client == client && exists|i: int|
            0 <= i < clients.len() && #[trigger] clients[i] == s,
    decreases clients.len(),
{
    if clients.len() > 0 {
        if clients[0].client != client {
            let t = clients.skip(1);
            lemma_status_found(t, client);
            match status_of_client(t, client) {
                Some(s) => {
                    let i = choose|i: int| 0 <= i < t.len() && #[trigger] t[i] == s;
                    assert(clients[i + 1] == s);
                },
                None => {},
            }
        }
    }
}

/// The release gate is open exactly when the client's configuration stands where the
/// client reads it and no level of proof is pending.
pub proof fn law_gate_open_iff_nothing_pending(
    x: SessionInput,
    proofs: Seq<StoredClientBindingProofView>,
    files: Seq<ObservedFileView>,
    host: HostView,
)
    requires
        x.readiness.clients == client_statuses(proofs, files, host),
    ensures
        session_of(x).release_gate == "pass"@ <==> x.target_ready && session_of(
            x,
        ).pending_proof_levels.len() == 0,
        session_of(x).ready_for_private_client_claim <==> session_of(x).release_gate == "pass"@,
{
    lemma_ledger_words();
    let status = status_of_client(x.readiness.clients, x.client);
    lemma_status_found(x.readiness.clients, x.client);
    match status {
        Some(s) => {
            let mine = newest_first(proofs, x.client);
            let i = choose|i: int|
                0 <= i < x.readiness.clients.len() && #[trigger] x.readiness.clients[i] == s;
            assert(s == client_status(x.client, mine, files, host));
            law_claim_iff_every_level_stored(x.client, mine, files, host);
        },
        None => {},
    }
    let stages = stages_of(x);
    assert(stages.len() == 3);
    let two = stages.drop_last();
    let one = two.drop_last();
    assert(one.drop_last() =~= Seq::empty());
    assert(stages.last() == stages[2]);
    assert(two.last() == stages[1]);
    assert(one.last() == stages[0]);
    reveal_with_fuel(levels_in, 4);
}

}
