//! The words of the `soma context` flags: verifiers, actions, results and states.
use super::error::{bad, bad_format, plain, ContextError, ContextFault};
use crate::outcome::outcome;
use crate::text::{
    cat3, law_lower_case_letter_by_letter, law_replacement_changes_one_character, lower, lowered,
    replace, replaced, same, trim, trimmed,
};
use vstd::prelude::*;
use vstd::string::*;

verus! {

/// A word as it is compared: trimmed, in lower case, and with `_` for `-`.
pub open spec fn token(s: Seq<char>) -> Seq<char> {
    replaced(lowered(trimmed(s)), '-', '_')
}

pub fn normalized_token(input: &str) -> (r: String)
    ensures
        r@ == token(input@),
{
    replace(lower(trim(input)).as_str(), '-', '_')
}

/// Who or what verified a claim.
#[derive(Debug, Clone, Copy, PartialEq, Eq, Structural)]
pub enum VerifierType {
    User,
    Test,
    Tool,
    LocalObservation,
    Correction,
}

impl DeepView for VerifierType {
    type V = VerifierType;

    open spec fn deep_view(&self) -> VerifierType {
        *self
    }
}

impl crate::dup::Dup for VerifierType {
    fn dup(&self) -> (r: Self) {
        *self
    }
}

/// The name under which it is stored.
pub open spec fn verifier_type_name(v: VerifierType) -> Seq<char> {
    match v {
        VerifierType::User => "user"@,
        VerifierType::Test => "test"@,
        VerifierType::Tool => "tool"@,
        VerifierType::LocalObservation => "local_observation"@,
        VerifierType::Correction => "correction"@,
    }
}

impl VerifierType {
    pub fn as_str(&self) -> (r: &'static str)
        ensures
            r@ == verifier_type_name(*self),
    {
        match self {
            VerifierType::User => "user",
            VerifierType::Test => "test",
            VerifierType::Tool => "tool",
            VerifierType::LocalObservation => "local_observation",
            VerifierType::Correction => "correction",
        }
    }
}

pub const VERIFIER_TYPE_EXPECTED: &'static str =
    "`; expected user, test, tool, local_observation, or correction";

pub open spec fn verifier_of(s: Seq<char>) -> Result<VerifierType, ContextFault> {
    let t = token(s);
    if t == "user"@ {
        Ok(VerifierType::User)
    } else if t == "test"@ {
        Ok(VerifierType::Test)
    } else if t == "tool"@ {
        Ok(VerifierType::Tool)
    } else if t == "local_observation"@ {
        Ok(VerifierType::LocalObservation)
    } else if t == "correction"@ {
        Ok(VerifierType::Correction)
    } else {
        bad("unknown verifier `"@ + t + VERIFIER_TYPE_EXPECTED@)
    }
}

pub fn parse_verifier_type(input: &str) -> (r: Result<VerifierType, ContextError>)
    ensures
        plain(r) == verifier_of(input@),
{
    let word = normalized_token(input);
    let t = word.as_str();
    if same(t, "user") {
        Ok(VerifierType::User)
    } else if same(t, "test") {
        Ok(VerifierType::Test)
    } else if same(t, "tool") {
        Ok(VerifierType::Tool)
    } else if same(t, "local_observation") {
        Ok(VerifierType::LocalObservation)
    } else if same(t, "correction") {
        Ok(VerifierType::Correction)
    } else {
        bad_format(cat3("unknown verifier `", t, VERIFIER_TYPE_EXPECTED).as_str())
    }
}

/// What is done with a claim or a proposal.
#[derive(Debug, Clone, Copy, PartialEq, Eq, Structural)]
pub enum ReviewAction {
    Confirm,
    Contradict,
    Supersede,
    Inconclusive,
    Accept,
    Reject,
    Wait,
    Apply,
    ConfirmAndApply,
}

impl DeepView for ReviewAction {
    type V = ReviewAction;

    open spec fn deep_view(&self) -> ReviewAction {
        *self
    }
}

impl crate::dup::Dup for ReviewAction {
    fn dup(&self) -> (r: Self) {
        *self
    }
}

pub const REVIEW_ACTION_EXPECTED: &'static str =
    "`; expected confirm, contradict, supersede, inconclusive, accept, reject, wait, apply, or confirm_and_apply";

pub open spec fn action_of(s: Seq<char>) -> Result<ReviewAction, ContextFault> {
    let t = token(s);
    if t == "confirm"@ || t == "confirmed"@ {
        Ok(ReviewAction::Confirm)
    } else if t == "contradict"@ || t == "contradicted"@ || t == "reject_claim"@ {
        Ok(ReviewAction::Contradict)
    } else if t == "supersede"@ || t == "superseded"@ {
        Ok(ReviewAction::Supersede)
    } else if t == "inconclusive"@ {
        Ok(ReviewAction::Inconclusive)
    } else if t == "accept"@ || t == "accepted"@ {
        Ok(ReviewAction::Accept)
    } else if t == "reject"@ || t == "rejected"@ {
        Ok(ReviewAction::Reject)
    } else if t == "wait"@ || t == "waiting"@ || t == "waiting_verification"@ {
        Ok(ReviewAction::Wait)
    } else if t == "apply"@ {
        Ok(ReviewAction::Apply)
    } else if t == "confirm_and_apply"@ || t == "approve_and_apply"@ {
        Ok(ReviewAction::ConfirmAndApply)
    } else {
        bad("unknown review action `"@ + t + REVIEW_ACTION_EXPECTED@)
    }
}

pub fn parse_review_action(input: &str) -> (r: Result<ReviewAction, ContextError>)
    ensures
        plain(r) == action_of(input@),
{
    let word = normalized_token(input);
    let t = word.as_str();
    if same(t, "confirm") || same(t, "confirmed") {
        Ok(ReviewAction::Confirm)
    } else if same(t, "contradict") || same(t, "contradicted") || same(t, "reject_claim") {
        Ok(ReviewAction::Contradict)
    } else if same(t, "supersede") || same(t, "superseded") {
        Ok(ReviewAction::Supersede)
    } else if same(t, "inconclusive") {
        Ok(ReviewAction::Inconclusive)
    } else if same(t, "accept") || same(t, "accepted") {
        Ok(ReviewAction::Accept)
    } else if same(t, "reject") || same(t, "rejected") {
        Ok(ReviewAction::Reject)
    } else if same(t, "wait") || same(t, "waiting") || same(t, "waiting_verification") {
        Ok(ReviewAction::Wait)
    } else if same(t, "apply") {
        Ok(ReviewAction::Apply)
    } else if same(t, "confirm_and_apply") || same(t, "approve_and_apply") {
        Ok(ReviewAction::ConfirmAndApply)
    } else {
        bad_format(cat3("unknown review action `", t, REVIEW_ACTION_EXPECTED).as_str())
    }
}

/// What a verification found.
#[derive(Debug, Clone, Copy, PartialEq, Eq, Structural)]
pub enum VerificationResult {
    Confirmed,
    Contradicted,
    Superseded,
    Inconclusive,
}

impl DeepView for VerificationResult {
    type V = VerificationResult;

    open spec fn deep_view(&self) -> VerificationResult {
        *self
    }
}

impl crate::dup::Dup for VerificationResult {
    fn dup(&self) -> (r: Self) {
        *self
    }
}

pub const VERIFICATION_RESULT_EXPECTED: &'static str =
    "`; expected confirmed, contradicted, superseded, or inconclusive";

pub open spec fn result_of(s: Seq<char>) -> Result<VerificationResult, ContextFault> {
    let t = token(s);
    if t == "confirmed"@ {
        Ok(VerificationResult::Confirmed)
    } else if t == "contradicted"@ {
        Ok(VerificationResult::Contradicted)
    } else if t == "superseded"@ {
        Ok(VerificationResult::Superseded)
    } else if t == "inconclusive"@ {
        Ok(VerificationResult::Inconclusive)
    } else {
        bad("unknown verification result `"@ + t + VERIFICATION_RESULT_EXPECTED@)
    }
}

pub fn parse_verification_result(input: &str) -> (r: Result<VerificationResult, ContextError>)
    ensures
        plain(r) == result_of(input@),
{
    let word = normalized_token(input);
    let t = word.as_str();
    if same(t, "confirmed") {
        Ok(VerificationResult::Confirmed)
    } else if same(t, "contradicted") {
        Ok(VerificationResult::Contradicted)
    } else if same(t, "superseded") {
        Ok(VerificationResult::Superseded)
    } else if same(t, "inconclusive") {
        Ok(VerificationResult::Inconclusive)
    } else {
        bad_format(cat3("unknown verification result `", t, VERIFICATION_RESULT_EXPECTED).as_str())
    }
}

/// How far a proposal has come.
#[derive(Debug, Clone, Copy, PartialEq, Eq, Structural)]
pub enum LearningCriticProposalStatus {
    Queued,
    WaitingVerification,
    Accepted,
    Rejected,
    Applied,
}

impl DeepView for LearningCriticProposalStatus {
    type V = LearningCriticProposalStatus;

    open spec fn deep_view(&self) -> LearningCriticProposalStatus {
        *self
    }
}

impl crate::dup::Dup for LearningCriticProposalStatus {
    fn dup(&self) -> (r: Self) {
        *self
    }
}

/// The name under which it is stored.
pub open spec fn learning_critic_proposal_status_name(
    v: LearningCriticProposalStatus,
) -> Seq<char> {
    match v {
        LearningCriticProposalStatus::Queued => "queued"@,
        LearningCriticProposalStatus::WaitingVerification => "waiting_verification"@,
        LearningCriticProposalStatus::Accepted => "accepted"@,
        LearningCriticProposalStatus::Rejected => "rejected"@,
        LearningCriticProposalStatus::Applied => "applied"@,
    }
}

impl LearningCriticProposalStatus {
    pub fn as_str(&self) -> (r: &'static str)
        ensures
            r@ == learning_critic_proposal_status_name(*self),
    {
        match self {
            LearningCriticProposalStatus::Queued => "queued",
            LearningCriticProposalStatus::WaitingVerification => "waiting_verification",
            LearningCriticProposalStatus::Accepted => "accepted",
            LearningCriticProposalStatus::Rejected => "rejected",
            LearningCriticProposalStatus::Applied => "applied",
        }
    }
}

pub const LEARNING_PROPOSAL_STATUS_EXPECTED: &'static str =
    "`; expected queued, waiting_verification, accepted, rejected, or applied";

pub open spec fn status_of(s: Seq<char>) -> Result<LearningCriticProposalStatus, ContextFault> {
    let t = token(s);
    if t == "queued"@ {
        Ok(LearningCriticProposalStatus::Queued)
    } else if t == "waiting_verification"@ {
        Ok(LearningCriticProposalStatus::WaitingVerification)
    } else if t == "accepted"@ {
        Ok(LearningCriticProposalStatus::Accepted)
    } else if t == "rejected"@ {
        Ok(LearningCriticProposalStatus::Rejected)
    } else if t == "applied"@ {
        Ok(LearningCriticProposalStatus::Applied)
    } else {
        bad("unknown proposal status `"@ + t + LEARNING_PROPOSAL_STATUS_EXPECTED@)
    }
}

pub fn parse_learning_proposal_status(
    input: &str,
) -> (r: Result<LearningCriticProposalStatus, ContextError>)
    ensures
        plain(r) == status_of(input@),
{
    let word = normalized_token(input);
    let t = word.as_str();
    if same(t, "queued") {
        Ok(LearningCriticProposalStatus::Queued)
    } else if same(t, "waiting_verification") {
        Ok(LearningCriticProposalStatus::WaitingVerification)
    } else if same(t, "accepted") {
        Ok(LearningCriticProposalStatus::Accepted)
    } else if same(t, "rejected") {
        Ok(LearningCriticProposalStatus::Rejected)
    } else if same(t, "applied") {
        Ok(LearningCriticProposalStatus::Applied)
    } else {
        bad_format(cat3("unknown proposal status `", t, LEARNING_PROPOSAL_STATUS_EXPECTED).as_str())
    }
}

/// The actions that a template can be made for.
pub open spec fn template_action(s: Seq<char>) -> Result<Seq<char>, ContextFault> {
    let a = lowered(trimmed(s));
    if a == "confirm"@ || a == "contradict"@ || a == "supersede"@ || a == "inconclusive"@ {
        Ok(a)
    } else {
        bad("unknown review-batch-template action `"@ + a + TEMPLATE_ACTIONS_EXPECTED@)
    }
}

pub const TEMPLATE_ACTIONS_EXPECTED: &'static str =
    "`; expected confirm, contradict, supersede, or inconclusive";

pub fn parse_review_batch_template_action(input: &str) -> (r: Result<String, ContextError>)
    ensures
        outcome(r) == template_action(input@),
{
    let action = lower(trim(input));
    let a = action.as_str();
    if same(a, "confirm") || same(a, "contradict") || same(a, "supersede") || same(
        a,
        "inconclusive",
    ) {
        Ok(action)
    } else {
        bad_format(
            cat3("unknown review-batch-template action `", a, TEMPLATE_ACTIONS_EXPECTED).as_str(),
        )
    }
}

/// What a template can be made for.
pub open spec fn template_target(s: Seq<char>) -> Result<Seq<char>, ContextFault> {
    let t = lowered(trimmed(s));
    if t == "any"@ || t == "claim"@ || t == "proposal"@ {
        Ok(t)
    } else {
        bad(
            "unknown review-batch-template target_type `"@ + t
                + "`; expected any, claim, or proposal"@,
        )
    }
}

pub fn parse_review_batch_template_target_type(input: &str) -> (r: Result<String, ContextError>)
    ensures
        outcome(r) == template_target(input@),
{
    let target = lower(trim(input));
    let t = target.as_str();
    if same(t, "any") || same(t, "claim") || same(t, "proposal") {
        Ok(target)
    } else {
        bad_format(
            cat3(
                "unknown review-batch-template target_type `",
                t,
                "`; expected any, claim, or proposal",
            ).as_str(),
        )
    }
}

// ---------------------------------------------------------------------------
// Laws
// ---------------------------------------------------------------------------

/// A stored name is read back as what it names, also with blanks around it.
pub proof fn law_verifier_names_read_back(v: VerifierType, s: Seq<char>)
    requires
        token(s) == verifier_type_name(v),
    ensures
        verifier_of(s) == Ok::<VerifierType, ContextFault>(v),
{
    reveal_strlit("user");
    reveal_strlit("test");
    reveal_strlit("tool");
    reveal_strlit("local_observation");
    reveal_strlit("correction");
    assert("user"@[0] == 'u');
    assert("test"@[1] == 'e');
    assert("tool"@[1] == 'o' && "tool"@[0] == 't');
    assert("local_observation"@[0] == 'l');
    assert("correction"@[0] == 'c');
}

/// A stored state is read back as what it names.
pub proof fn law_proposal_states_read_back(v: LearningCriticProposalStatus, s: Seq<char>)
    requires
        token(s) == learning_critic_proposal_status_name(v),
    ensures
        status_of(s) == Ok::<LearningCriticProposalStatus, ContextFault>(v),
{
    reveal_strlit("queued");
    reveal_strlit("waiting_verification");
    reveal_strlit("accepted");
    reveal_strlit("rejected");
    reveal_strlit("applied");
    assert("queued"@[0] == 'q');
    assert("waiting_verification"@[0] == 'w');
    assert("accepted"@[1] == 'c' && "accepted"@[0] == 'a');
    assert("rejected"@[0] == 'r');
    assert("applied"@[1] == 'p');
}

proof fn lemma_result_words()
    ensures
        "confirmed"@ != "contradicted"@,
        "confirmed"@ != "superseded"@,
        "confirmed"@ != "inconclusive"@,
        "contradicted"@ != "superseded"@,
        "contradicted"@ != "inconclusive"@,
        "superseded"@ != "inconclusive"@,
{
    reveal_strlit("confirmed");
    reveal_strlit("contradicted");
    reveal_strlit("superseded");
    reveal_strlit("inconclusive");
    assert("confirmed"@.len() == 9);
    assert("contradicted"@.len() == 12 && "contradicted"@[0] == 'c');
    assert("superseded"@.len() == 10);
    assert("inconclusive"@.len() == 12 && "inconclusive"@[0] == 'i');
}

/// The four words for what a verification found are read one to one as the four results
/// that they name, in either case, with blanks around them; every other word is refused.
pub proof fn law_result_words_name_results(s: Seq<char>)
    ensures
        result_of(s) == Ok::<VerificationResult, ContextFault>(VerificationResult::Confirmed)
            <==> token(s) == "confirmed"@,
        result_of(s) == Ok::<VerificationResult, ContextFault>(VerificationResult::Contradicted)
            <==> token(s) == "contradicted"@,
        result_of(s) == Ok::<VerificationResult, ContextFault>(VerificationResult::Superseded)
            <==> token(s) == "superseded"@,
        result_of(s) == Ok::<VerificationResult, ContextFault>(VerificationResult::Inconclusive)
            <==> token(s) == "inconclusive"@,
        result_of(s) is Ok <==> token(s) == "confirmed"@ || token(s) == "contradicted"@ || token(s)
            == "superseded"@ || token(s) == "inconclusive"@,
{
    lemma_result_words();
}

proof fn lemma_verifier_words()
    ensures
        "user"@ != "test"@,
        "user"@ != "tool"@,
        "user"@ != "local_observation"@,
        "user"@ != "correction"@,
        "test"@ != "tool"@,
        "test"@ != "local_observation"@,
        "test"@ != "correction"@,
        "tool"@ != "local_observation"@,
        "tool"@ != "correction"@,
        "local_observation"@ != "correction"@,
{
    reveal_strlit("user");
    reveal_strlit("test");
    reveal_strlit("tool");
    reveal_strlit("local_observation");
    reveal_strlit("correction");
    assert("user"@[0] == 'u');
    assert("test"@[1] == 'e' && "test"@[0] == 't');
    assert("tool"@[1] == 'o' && "tool"@[0] == 't');
    assert("local_observation"@[0] == 'l');
    assert("correction"@[0] == 'c');
}

/// The five words for verifiers are read one to one as the verifiers that they name; every
/// other word, also that of a cloud model, is refused.
pub proof fn law_verifier_words_name_verifiers(s: Seq<char>)
    ensures
        verifier_of(s) == Ok::<VerifierType, ContextFault>(VerifierType::User) <==> token(s)
            == "user"@,
        verifier_of(s) == Ok::<VerifierType, ContextFault>(VerifierType::Test) <==> token(s)
            == "test"@,
        verifier_of(s) == Ok::<VerifierType, ContextFault>(VerifierType::Tool) <==> token(s)
            == "tool"@,
        verifier_of(s) == Ok::<VerifierType, ContextFault>(VerifierType::LocalObservation)
            <==> token(s) == "local_observation"@,
        verifier_of(s) == Ok::<VerifierType, ContextFault>(VerifierType::Correction) <==> token(s)
            == "correction"@,
        verifier_type_name(VerifierType::User) == "user"@,
        verifier_type_name(VerifierType::Test) == "test"@,
        verifier_type_name(VerifierType::Tool) == "tool"@,
        verifier_type_name(VerifierType::LocalObservation) == "local_observation"@,
        verifier_type_name(VerifierType::Correction) == "correction"@,
{
    lemma_verifier_words();
}

proof fn lemma_state_words()
    ensures
        "queued"@ != "waiting_verification"@,
        "queued"@ != "accepted"@,
        "queued"@ != "rejected"@,
        "queued"@ != "applied"@,
        "waiting_verification"@ != "accepted"@,
        "waiting_verification"@ != "rejected"@,
        "waiting_verification"@ != "applied"@,
        "accepted"@ != "rejected"@,
        "accepted"@ != "applied"@,
        "rejected"@ != "applied"@,
{
    reveal_strlit("queued");
    reveal_strlit("waiting_verification");
    reveal_strlit("accepted");
    reveal_strlit("rejected");
    reveal_strlit("applied");
    assert("queued"@[0] == 'q');
    assert("waiting_verification"@[0] == 'w');
    assert("accepted"@[1] == 'c' && "accepted"@[0] == 'a');
    assert("rejected"@[0] == 'r');
    assert("applied"@[1] == 'p' && "applied"@[0] == 'a');
}

/// The five words for the states of a proposal are read one to one as the states that they
/// name; every other word is refused.
pub proof fn law_state_words_name_states(s: Seq<char>)
    ensures
        status_of(s) == Ok::<LearningCriticProposalStatus, ContextFault>(
            LearningCriticProposalStatus::Queued,
        ) <==> token(s) == "queued"@,
        status_of(s) == Ok::<LearningCriticProposalStatus, ContextFault>(
            LearningCriticProposalStatus::WaitingVerification,
        ) <==> token(s) == "waiting_verification"@,
        status_of(s) == Ok::<LearningCriticProposalStatus, ContextFault>(
            LearningCriticProposalStatus::Accepted,
        ) <==> token(s) == "accepted"@,
        status_of(s) == Ok::<LearningCriticProposalStatus, ContextFault>(
            LearningCriticProposalStatus::Rejected,
        ) <==> token(s) == "rejected"@,
        status_of(s) == Ok::<LearningCriticProposalStatus, ContextFault>(
            LearningCriticProposalStatus::Applied,
        ) <==> token(s) == "applied"@,
        learning_critic_proposal_status_name(LearningCriticProposalStatus::Queued) == "queued"@,
        learning_critic_proposal_status_name(LearningCriticProposalStatus::WaitingVerification)
            == "waiting_verification"@,
        learning_critic_proposal_status_name(LearningCriticProposalStatus::Accepted)
            == "accepted"@,
        learning_critic_proposal_status_name(LearningCriticProposalStatus::Rejected)
            == "rejected"@,
        learning_critic_proposal_status_name(LearningCriticProposalStatus::Applied) == "applied"@,
{
    lemma_state_words();
}

proof fn lemma_action_words()
    ensures
        "confirm"@.len() == 7 && "confirm"@[0] == 'c',
        "confirmed"@.len() == 9,
        "contradict"@.len() == 10 && "contradict"@[0] == 'c',
        "contradicted"@.len() == 12 && "contradicted"@[0] == 'c',
        "reject_claim"@.len() == 12 && "reject_claim"@[0] == 'r',
        "supersede"@.len() == 9 && "supersede"@[0] == 's',
        "superseded"@.len() == 10 && "superseded"@[0] == 's',
        "inconclusive"@.len() == 12 && "inconclusive"@[0] == 'i',
        "accept"@.len() == 6 && "accept"@[0] == 'a',
        "accepted"@.len() == 8 && "accepted"@[0] == 'a',
        "reject"@.len() == 6 && "reject"@[0] == 'r',
        "rejected"@.len() == 8 && "rejected"@[0] == 'r',
        "wait"@.len() == 4,
        "waiting"@.len() == 7 && "waiting"@[0] == 'w',
        "waiting_verification"@.len() == 20,
        "apply"@.len() == 5,
        "confirm_and_apply"@.len() == 17 && "confirm_and_apply"@[0] == 'c',
        "approve_and_apply"@.len() == 17 && "approve_and_apply"@[0] == 'a',
        "confirmed"@[0] == 'c',
{
    reveal_strlit("confirm");
    reveal_strlit("confirmed");
    reveal_strlit("contradict");
    reveal_strlit("contradicted");
    reveal_strlit("reject_claim");
    reveal_strlit("supersede");
    reveal_strlit("superseded");
    reveal_strlit("inconclusive");
    reveal_strlit("accept");
    reveal_strlit("accepted");
    reveal_strlit("reject");
    reveal_strlit("rejected");
    reveal_strlit("wait");
    reveal_strlit("waiting");
    reveal_strlit("waiting_verification");
    reveal_strlit("apply");
    reveal_strlit("confirm_and_apply");
    reveal_strlit("approve_and_apply");
}

/// A review action is read as the one that its word names: confirming is never read from a
/// word for contradicting, nor accepting from one for rejecting, nor waiting from one for
/// applying. Every other word is refused.
pub proof fn law_action_words_name_actions(s: Seq<char>)
    ensures
        action_of(s) == Ok::<ReviewAction, ContextFault>(ReviewAction::Confirm) <==> token(s)
            == "confirm"@ || token(s) == "confirmed"@,
        action_of(s) == Ok::<ReviewAction, ContextFault>(ReviewAction::Contradict) <==> token(s)
            == "contradict"@ || token(s) == "contradicted"@ || token(s) == "reject_claim"@,
        action_of(s) == Ok::<ReviewAction, ContextFault>(ReviewAction::Supersede) <==> token(s)
            == "supersede"@ || token(s) == "superseded"@,
        action_of(s) == Ok::<ReviewAction, ContextFault>(ReviewAction::Inconclusive) <==> token(s)
            == "inconclusive"@,
        action_of(s) == Ok::<ReviewAction, ContextFault>(ReviewAction::Accept) <==> token(s)
            == "accept"@ || token(s) == "accepted"@,
        action_of(s) == Ok::<ReviewAction, ContextFault>(ReviewAction::Reject) <==> token(s)
            == "reject"@ || token(s) == "rejected"@,
        action_of(s) == Ok::<ReviewAction, ContextFault>(ReviewAction::Wait) <==> token(s)
            == "wait"@ || token(s) == "waiting"@ || token(s) == "waiting_verification"@,
        action_of(s) == Ok::<ReviewAction, ContextFault>(ReviewAction::Apply) <==> token(s)
            == "apply"@,
        action_of(s) == Ok::<ReviewAction, ContextFault>(ReviewAction::ConfirmAndApply)
            <==> token(s) == "confirm_and_apply"@ || token(s) == "approve_and_apply"@,
{
    lemma_action_words();
}

/// The words of a template are those of the four results and of the three targets, and are
/// kept trimmed and in lower case; every other word is refused.
pub proof fn law_template_words(s: Seq<char>)
    ensures
        template_action(s) matches Ok(a) ==> a == lowered(trimmed(s)),
        template_action(s) is Ok <==> lowered(trimmed(s)) == "confirm"@ || lowered(trimmed(s))
            == "contradict"@ || lowered(trimmed(s)) == "supersede"@ || lowered(trimmed(s))
            == "inconclusive"@,
        template_target(s) matches Ok(t) ==> t == lowered(trimmed(s)),
        template_target(s) is Ok <==> lowered(trimmed(s)) == "any"@ || lowered(trimmed(s))
            == "claim"@ || lowered(trimmed(s)) == "proposal"@,
{
}

/// A word is compared character by character: letters in lower case, a hyphen as an
/// underscore, without the white space around it.
pub proof fn law_words_are_compared_by_character(s: Seq<char>, i: int)
    requires
        0 <= i < trimmed(s).len(),
    ensures
        token(s).len() == trimmed(s).len(),
        trimmed(s)[i] == '-' ==> token(s)[i] == '_',
        'A' <= trimmed(s)[i] && trimmed(s)[i] <= 'Z' ==> token(s)[i] as u32 == trimmed(s)[i] as u32
            + 32,
        trimmed(s)[i] != '-' && !('A' <= trimmed(s)[i] && trimmed(s)[i] <= 'Z') ==> token(s)[i]
            == trimmed(s)[i],
{
    law_lower_case_letter_by_letter(trimmed(s), i);
    law_replacement_changes_one_character(lowered(trimmed(s)), '-', '_', i);
}

}
