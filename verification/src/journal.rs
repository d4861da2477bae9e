//! What the admission authority's journal answered: one answer per request,
//! by value, and the answers an operation's requests receive from a bundle
//! of answers by kind.
use vstd::prelude::*;
use crate::admission::{
    AdmissionError, ControlLossDisposition, FreshAdmissionAuthoritySnapshotView, GameSessionAuthoritySnapshotView,
    JournalRequest, ReconnectAttemptClaim, ReconnectAttemptDisposition,
};
use crate::facade::ReconnectAttemptAuthoritySnapshotView;
use crate::ids::ScopeOwnershipGeneration;

verus! {

/// What the journal answered one request, exactly as it returned it (by view).
pub enum JournalAnswer<T> {
    CommitFresh(Result<FreshAdmissionAuthoritySnapshotView<T>, AdmissionError>),
    MarkControlLoss(Result<ControlLossDisposition, AdmissionError>),
    TerminateSession(Result<(), AdmissionError>),
    AdvanceRuntimeScope(Result<ScopeOwnershipGeneration, AdmissionError>),
    Lookup(Result<Option<ReconnectAttemptDisposition>, AdmissionError>),
    ClaimPrepared(Result<ReconnectAttemptClaim, AdmissionError>),
    RetireIfUnseen(Result<ReconnectAttemptDisposition, AdmissionError>),
    CommitPrepared(Result<(), AdmissionError>),
    RetirePrepared(Result<(), AdmissionError>),
    LoadSession(Result<GameSessionAuthoritySnapshotView<T>, AdmissionError>),
    ReconcileAttempt(Result<ReconnectAttemptAuthoritySnapshotView<T>, AdmissionError>),
}

/// The journal's answers within one operation, one per kind of request.
pub struct JournalAnswers<T> {
    pub commit_fresh: Result<FreshAdmissionAuthoritySnapshotView<T>, AdmissionError>,
    pub mark_control_loss: Result<ControlLossDisposition, AdmissionError>,
    pub terminate_session: Result<(), AdmissionError>,
    pub advance_runtime_scope: Result<ScopeOwnershipGeneration, AdmissionError>,
    pub lookup: Result<Option<ReconnectAttemptDisposition>, AdmissionError>,
    pub claim_prepared: Result<ReconnectAttemptClaim, AdmissionError>,
    pub retire_if_unseen: Result<ReconnectAttemptDisposition, AdmissionError>,
    pub commit_prepared: Result<(), AdmissionError>,
    pub retire_prepared: Result<(), AdmissionError>,
    pub load_session: Result<GameSessionAuthoritySnapshotView<T>, AdmissionError>,
    pub reconcile_attempt: Result<ReconnectAttemptAuthoritySnapshotView<T>, AdmissionError>,
}

/// A bundle of answers where no request was made: every field unavailable.
pub open spec fn unanswered<T>() -> JournalAnswers<T> {
    JournalAnswers {
        commit_fresh: Err(AdmissionError::ReconciliationUnavailable),
        mark_control_loss: Err(AdmissionError::ReconciliationUnavailable),
        terminate_session: Err(AdmissionError::ReconciliationUnavailable),
        advance_runtime_scope: Err(AdmissionError::ReconciliationUnavailable),
        lookup: Err(AdmissionError::ReconciliationUnavailable),
        claim_prepared: Err(AdmissionError::ReconciliationUnavailable),
        retire_if_unseen: Err(AdmissionError::ReconciliationUnavailable),
        commit_prepared: Err(AdmissionError::ReconciliationUnavailable),
        retire_prepared: Err(AdmissionError::ReconciliationUnavailable),
        load_session: Err(AdmissionError::ReconciliationUnavailable),
        reconcile_attempt: Err(AdmissionError::ReconciliationUnavailable),
    }
}

/// The answer in `a` to a request of `r`'s kind.
pub open spec fn answer_for<T>(r: JournalRequest<T>, a: JournalAnswers<T>) -> JournalAnswer<T> {
    match r {
        JournalRequest::CommitFresh { .. } => JournalAnswer::CommitFresh(a.commit_fresh),
        JournalRequest::MarkControlLoss { .. } => JournalAnswer::MarkControlLoss(a.mark_control_loss),
        JournalRequest::TerminateSession { .. } => JournalAnswer::TerminateSession(a.terminate_session),
        JournalRequest::AdvanceRuntimeScope { .. } => JournalAnswer::AdvanceRuntimeScope(a.advance_runtime_scope),
        JournalRequest::Lookup { .. } => JournalAnswer::Lookup(a.lookup),
        JournalRequest::ClaimPrepared { .. } => JournalAnswer::ClaimPrepared(a.claim_prepared),
        JournalRequest::RetireIfUnseen { .. } => JournalAnswer::RetireIfUnseen(a.retire_if_unseen),
        JournalRequest::CommitPrepared { .. } => JournalAnswer::CommitPrepared(a.commit_prepared),
        JournalRequest::RetirePrepared { .. } => JournalAnswer::RetirePrepared(a.retire_prepared),
        JournalRequest::LoadSession { .. } => JournalAnswer::LoadSession(a.load_session),
        JournalRequest::ReconcileAttempt { .. } => JournalAnswer::ReconcileAttempt(a.reconcile_attempt),
    }
}

/// The answers, in order, to the requests `rs` made within one operation.
pub open spec fn answers_for<T>(rs: Seq<JournalRequest<T>>, a: JournalAnswers<T>) -> Seq<JournalAnswer<T>> {
    rs.map_values(|r: JournalRequest<T>| answer_for(r, a))
}

pub broadcast proof fn lemma_answers_for_concat<T>(r1: Seq<JournalRequest<T>>, r2: Seq<JournalRequest<T>>, a: JournalAnswers<T>)
    ensures
        #[trigger] answers_for(r1 + r2, a) == answers_for(r1, a) + answers_for(r2, a),
{
    assert(answers_for(r1 + r2, a) =~= answers_for(r1, a) + answers_for(r2, a));
}

pub broadcast proof fn lemma_answers_for_push<T>(rs: Seq<JournalRequest<T>>, q: JournalRequest<T>, a: JournalAnswers<T>)
    ensures
        #[trigger] answers_for(rs.push(q), a) == answers_for(rs, a).push(answer_for(q, a)),
{
    assert(answers_for(rs.push(q), a) =~= answers_for(rs, a).push(answer_for(q, a)));
}

pub broadcast proof fn lemma_answers_for_empty<T>(a: JournalAnswers<T>)
    ensures
        #[trigger] answers_for(Seq::<JournalRequest<T>>::empty(), a) == Seq::<JournalAnswer<T>>::empty(),
{
    assert(answers_for(Seq::<JournalRequest<T>>::empty(), a) =~= Seq::<JournalAnswer<T>>::empty());
}

pub broadcast proof fn lemma_answers_for_single<T>(q: JournalRequest<T>, a: JournalAnswers<T>)
    ensures
        #[trigger] answers_for(seq![q], a) == seq![answer_for(q, a)],
{
    assert(answers_for(seq![q], a) =~= seq![answer_for(q, a)]);
}

pub broadcast group group_journal_answers {
    lemma_answers_for_concat,
    lemma_answers_for_push,
    lemma_answers_for_empty,
    lemma_answers_for_single,
}

} // verus!
