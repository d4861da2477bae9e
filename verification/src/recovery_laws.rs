//! Properties of the recovery budgets and of the control-loss write that
//! span several operations or hold for every report a source may give.
use vstd::prelude::*;
use crate::admission::{GameSessionState, ReconnectAttemptRef, ReconnectDurabilityErrorV1};
use crate::budget::{
    budget_entries_valid, index_of_attempt, spec_accept_prepare, spec_check_candidate, spec_reserve,
    state_after_prepare, RecoveryEpochStateV1, ReconnectAttemptBudgetView, ReconnectAttemptEntryV1,
    ReconnectAttemptReservationV1, ReconnectAttemptStateV1, ReconnectPrepareDispositionV1,
    RetainedRecoveryBudgetView, RECONNECT_ATTEMPTS_PER_LOSS_EPOCH_V1,
};
use crate::control_loss::{
    spec_accept_completion, spec_authorize, spec_take_request, spec_validate_final, ControlLossCauseV1,
    ControlLossFlowView, ControlLossObservationView, ControlLossOperationView, ControlLossOutcomeV1,
    ControlLossPhaseV1, ControlLossReceiptView,
};
use crate::durability::{
    authorization_deadline_of, evidence_observed_by, matches_record_result, AuthenticatedTransportRefV1,
    ReconnectCurrentAuthorityView, ReconnectDurabilityRecordView,
};
use crate::flows::{
    spec_authorize_commit, spec_v1_accept_commit, spec_v1_accept_prepare, spec_v1_reconcile, spec_v2_accept_prepare,
    spec_v2_reconcile, ReconnectPrepareDispositionV2, ReconnectPrepareRequestV2View,
    CommitActionView, DurableReconnectStateV1, FlowActionView, ReconnectCommitDispositionV1, ReconnectCommitRequestView,
    ReconnectDurabilityFlowV1View, ReconnectDurabilityFlowV2View, ReconnectDurabilityPhaseV1,
    ReconnectDurableOutcomeV2, ReconnectDurableReconciliationSnapshotView, ReconnectProjectionDecisionV1,
    ReconnectProjectionDecisionV2,
};
use crate::ids::GameSessionId;

verus! {

broadcast use crate::durability::lemma_transport_view, crate::admission::lemma_attempt_ref_view;

/// Once an attempt holds an entry, the entry found for it is that entry.
proof fn lemma_index_of_present(entries: Seq<ReconnectAttemptEntryV1>, k: int)
    requires
        budget_entries_valid(entries),
        0 <= k < entries.len(),
    ensures
        index_of_attempt(entries, entries[k].attempt) == Some(k),
{
    let attempt = entries[k].attempt;
    assert(entries[k].attempt == attempt);
    let i = choose|i: int| 0 <= i < entries.len() && #[trigger] entries[i].attempt == attempt;
    if i != k {
        assert(entries[i].attempt != entries[k].attempt);
    }
}

/// Reserving the same attempt on the same transport again is answered as
/// the existing reservation and changes nothing.
pub proof fn law_reserve_is_idempotent(
    b: ReconnectAttemptBudgetView,
    attempt: ReconnectAttemptRef,
    transport: AuthenticatedTransportRefV1,
)
    requires
        budget_entries_valid(b.entries),
        spec_reserve(b, attempt, transport).1 is Ok,
    ensures
        spec_reserve(spec_reserve(b, attempt, transport).0, attempt, transport) == (
            spec_reserve(b, attempt, transport).0,
            Ok::<ReconnectAttemptReservationV1, ReconnectDurabilityErrorV1>(ReconnectAttemptReservationV1::Existing),
        ),
{
    let after = spec_reserve(b, attempt, transport).0;
    if index_of_attempt(b.entries, attempt) is None {
        let n = b.entries.len() as int;
        assert(after.entries[n].attempt == attempt);
        assert(budget_entries_valid(after.entries)) by {
            law_reserve_keeps_budget_valid(b, attempt, transport);
        }
        lemma_index_of_present(after.entries, n);
    }
}

/// Reserving keeps a budget valid: never more than the per-epoch number of
/// attempts, each attempt once, at most one PREPARED.
pub proof fn law_reserve_keeps_budget_valid(
    b: ReconnectAttemptBudgetView,
    attempt: ReconnectAttemptRef,
    transport: AuthenticatedTransportRefV1,
)
    requires
        budget_entries_valid(b.entries),
    ensures
        budget_entries_valid(spec_reserve(b, attempt, transport).0.entries),
        spec_reserve(b, attempt, transport).0.entries.len() <= RECONNECT_ATTEMPTS_PER_LOSS_EPOCH_V1,
        spec_reserve(b, attempt, transport).0.control_loss_epoch == b.control_loss_epoch,
{
    let after = spec_reserve(b, attempt, transport).0;
    if index_of_attempt(b.entries, attempt) is None && b.entries.len() < RECONNECT_ATTEMPTS_PER_LOSS_EPOCH_V1 {
        let n = b.entries.len() as int;
        assert forall|i: int, j: int|
            0 <= i < after.entries.len() && 0 <= j < after.entries.len() && i != j implies #[trigger] after.entries[i].attempt
                != #[trigger] after.entries[j].attempt by {
            if i < n && j < n {
                assert(b.entries[i].attempt != b.entries[j].attempt);
            } else if i < n {
                assert(b.entries[i].attempt == after.entries[i].attempt);
            } else {
                assert(b.entries[j].attempt == after.entries[j].attempt);
            }
        }
        assert forall|i: int, j: int|
            0 <= i < after.entries.len() && 0 <= j < after.entries.len() && i != j && #[trigger] after.entries[i].state
                == ReconnectAttemptStateV1::Prepared implies #[trigger] after.entries[j].state
                != ReconnectAttemptStateV1::Prepared by {
            if i < n && j < n {
                assert(b.entries[i].state == ReconnectAttemptStateV1::Prepared);
            }
        }
    }
}

/// Applying a PREPARE completion keeps a budget valid; in particular a second
/// attempt can never become PREPARED beside another.
pub proof fn law_prepare_completion_keeps_budget_valid(
    b: ReconnectAttemptBudgetView,
    attempt: ReconnectAttemptRef,
    transport: AuthenticatedTransportRefV1,
    disposition: ReconnectPrepareDispositionV1,
)
    requires
        budget_entries_valid(b.entries),
    ensures
        budget_entries_valid(spec_accept_prepare(b, attempt, transport, disposition).0.entries),
        spec_accept_prepare(b, attempt, transport, disposition).0.entries.len() == b.entries.len(),
{
    let after = spec_accept_prepare(b, attempt, transport, disposition).0;
    if let Some(index) = index_of_attempt(b.entries, attempt) {
        if spec_accept_prepare(b, attempt, transport, disposition).1 is Ok {
            let prepares = disposition == ReconnectPrepareDispositionV1::Prepared || disposition
                == ReconnectPrepareDispositionV1::ExistingPrepared;
            let state = state_after_prepare(b.entries[index].state, disposition);
            assert(after.entries[index].state == state);
            assert forall|i: int, j: int|
                0 <= i < after.entries.len() && 0 <= j < after.entries.len() && i != j implies #[trigger] after.entries[i].attempt
                    != #[trigger] after.entries[j].attempt by {
                assert(b.entries[i].attempt != b.entries[j].attempt);
            }
            assert forall|i: int, j: int|
                0 <= i < after.entries.len() && 0 <= j < after.entries.len() && i != j && #[trigger] after.entries[i].state
                    == ReconnectAttemptStateV1::Prepared implies #[trigger] after.entries[j].state
                    != ReconnectAttemptStateV1::Prepared by {
                if i != index && j != index {
                    assert(b.entries[i].state == ReconnectAttemptStateV1::Prepared);
                } else if i == index {
                    if !prepares {
                        assert(b.entries[i].state == ReconnectAttemptStateV1::Prepared);
                    } else {
                        assert(b.entries[j].state == after.entries[j].state);
                    }
                } else {
                    assert(b.entries[i].state == after.entries[i].state);
                    if !prepares && state == ReconnectAttemptStateV1::Prepared {
                        assert(b.entries[j].state == ReconnectAttemptStateV1::Prepared);
                    }
                }
            }
        }
    }
}

/// An unavailable or ambiguous PREPARE report leaves every entry where it
/// stood, so the same request can be retried.
pub proof fn law_unsettled_prepare_changes_no_state(
    b: ReconnectAttemptBudgetView,
    attempt: ReconnectAttemptRef,
    transport: AuthenticatedTransportRefV1,
    disposition: ReconnectPrepareDispositionV1,
)
    requires
        disposition == ReconnectPrepareDispositionV1::Unavailable || disposition == ReconnectPrepareDispositionV1::Ambiguous,
    ensures
        spec_accept_prepare(b, attempt, transport, disposition).0 == b,
{
    if let Some(index) = index_of_attempt(b.entries, attempt) {
        if spec_accept_prepare(b, attempt, transport, disposition).1 is Ok {
            assert(spec_accept_prepare(b, attempt, transport, disposition).0.entries =~= b.entries);
        }
    }
}

/// A restored or retired epoch spends no further attempts, whatever is
/// asked of it.
pub proof fn law_closed_epoch_spends_nothing(
    b: RetainedRecoveryBudgetView,
    attempt: ReconnectAttemptRef,
    transport: AuthenticatedTransportRefV1,
)
    requires
        b.state != RecoveryEpochStateV1::Open,
    ensures
        spec_check_candidate(b, attempt, transport) == Err::<ReconnectAttemptReservationV1, ReconnectDurabilityErrorV1>(
            ReconnectDurabilityErrorV1::StaleAuthority,
        ),
{
}

/// Only an authoritative unexpected loss authorizes a control-loss write:
/// whatever else the owning source reports, any other cause is refused.
pub proof fn law_only_authoritative_loss_authorizes(o: ControlLossObservationView, session: GameSessionId, now: i64)
    requires
        o.cause != ControlLossCauseV1::AuthoritativeUnexpectedLoss,
    ensures
        spec_authorize(Ok(o), session, now) == Err::<ControlLossOperationView, ReconnectDurabilityErrorV1>(
            ReconnectDurabilityErrorV1::StaleAuthority,
        ),
{
}

/// The live write request of a flow is taken at most once.
pub proof fn law_loss_request_is_taken_once(f: ControlLossFlowView)
    requires
        spec_take_request(f).1 is Ok,
    ensures
        spec_take_request(spec_take_request(f).0) == (
            spec_take_request(f).0,
            Err::<ControlLossOperationView, ReconnectDurabilityErrorV1>(ReconnectDurabilityErrorV1::InvalidPhase),
        ),
{
}

/// A flow that holds no authorization, such as one restored from history,
/// never yields a live write request, and no completion report gives it one.
pub proof fn law_unauthorized_flow_never_yields_request(
    f: ControlLossFlowView,
    reported: Result<Option<(ControlLossOperationView, ControlLossOutcomeV1)>, ReconnectDurabilityErrorV1>,
)
    requires
        f.authorization is None,
    ensures
        spec_take_request(f) == (f, Err::<ControlLossOperationView, ReconnectDurabilityErrorV1>(
            ReconnectDurabilityErrorV1::InvalidPhase,
        )),
        spec_accept_completion(f, reported).0.authorization is None,
{
}

/// A committed receipt is immutable: no later report changes it.
pub proof fn law_committed_receipt_is_immutable(
    f: ControlLossFlowView,
    reported: Result<Option<(ControlLossOperationView, ControlLossOutcomeV1)>, ReconnectDurabilityErrorV1>,
)
    requires
        f.receipt is Some,
    ensures
        spec_accept_completion(f, reported).0.receipt == f.receipt,
{
}

/// Final dispositions do not flip: a rejected write is never later accepted
/// as committed, a committed one never as rejected, an ambiguous report
/// keeps either, and an exact repeated commit report keeps the receipt.
pub proof fn law_final_loss_dispositions_do_not_flip(f: ControlLossFlowView, decided_at: i64)
    ensures
        f.phase == ControlLossPhaseV1::Rejected ==> spec_accept_completion(
            f,
            Ok(Some((f.operation, ControlLossOutcomeV1::Committed { decided_at }))),
        ) == (f, Err::<(), ReconnectDurabilityErrorV1>(ReconnectDurabilityErrorV1::IdempotencyConflict)),
        f.phase == ControlLossPhaseV1::Completed ==> spec_accept_completion(
            f,
            Ok(Some((f.operation, ControlLossOutcomeV1::Rejected))),
        ) == (f, Err::<(), ReconnectDurabilityErrorV1>(ReconnectDurabilityErrorV1::IdempotencyConflict)),
        f.phase == ControlLossPhaseV1::Completed || f.phase == ControlLossPhaseV1::Rejected ==> spec_accept_completion(
            f,
            Ok(Some((f.operation, ControlLossOutcomeV1::Ambiguous))),
        ) == (f, Ok::<(), ReconnectDurabilityErrorV1>(())),
        f.phase == ControlLossPhaseV1::Completed && decided_at >= f.operation.authorized_at && f.receipt == Some(
            ControlLossReceiptView { operation: f.operation, decided_at },
        ) ==> spec_accept_completion(f, Ok(Some((f.operation, ControlLossOutcomeV1::Committed { decided_at }))))
            == (f, Ok::<(), ReconnectDurabilityErrorV1>(())),
{
}

/// A report about any other operation is refused and changes nothing.
pub proof fn law_foreign_loss_report_is_refused(
    f: ControlLossFlowView,
    operation: ControlLossOperationView,
    outcome: ControlLossOutcomeV1,
)
    requires
        f.phase != ControlLossPhaseV1::Ready,
        operation != f.operation,
    ensures
        spec_accept_completion(f, Ok(Some((operation, outcome)))) == (f, Err::<(), ReconnectDurabilityErrorV1>(
            ReconnectDurabilityErrorV1::IdempotencyConflict,
        )),
{
}

/// The only write a final revalidation permits is the loss-observed session
/// made reconnectable without a controller: commit, connection generation,
/// lease, eligibility and runtime scope stay as observed, and the loss epoch
/// and original grace deadline are recorded. It is never dated before the
/// authorization.
pub proof fn law_final_loss_write_is_exact(
    op: ControlLossOperationView,
    resolved: Result<ControlLossObservationView, ReconnectDurabilityErrorV1>,
    now: i64,
)
    requires
        spec_validate_final(op, resolved, now) is Ok,
    ensures
        ({
            let e = spec_validate_final(op, resolved, now)->Ok_0;
            let s = op.observation.session;
            &&& e.operation == op
            &&& now >= op.authorized_at
            &&& e.successor.session_state == GameSessionState::Reconnectable
            &&& e.successor.current_transport is None
            &&& e.successor.commit == s.commit
            &&& e.successor.current_connection_generation == s.current_connection_generation
            &&& e.successor.current_character_lease == s.current_character_lease
            &&& e.successor.current_character_world_eligibility == s.current_character_world_eligibility
            &&& e.successor.current_runtime_scope == s.current_runtime_scope
            &&& e.successor.current_scope_generation == s.current_scope_generation
            &&& e.successor.current_control_loss_epoch == Some(op.observation.loss_epoch)
            &&& e.successor.current_original_grace_deadline == Some(op.observation.original_grace_deadline)
        }),
{
}

/// No step of a reconnect flow changes the record it was begun with, nor
/// the PREPARE request it sends.
pub proof fn law_flow_keeps_its_record(
    f: ReconnectDurabilityFlowV1View,
    prepare: ReconnectDurabilityRecordView,
    prepare_disposition: ReconnectPrepareDispositionV1,
    commit: ReconnectCommitRequestView,
    commit_disposition: ReconnectCommitDispositionV1,
    snapshot: ReconnectDurableReconciliationSnapshotView,
    current: ReconnectCurrentAuthorityView,
)
    ensures
        spec_v1_accept_prepare(f, prepare, prepare_disposition).0.record == f.record,
        spec_v1_accept_prepare(f, prepare, prepare_disposition).0.prepare_request == f.prepare_request,
        spec_v1_accept_commit(f, commit, commit_disposition).0.record == f.record,
        spec_v1_accept_commit(f, commit, commit_disposition).0.prepare_request == f.prepare_request,
        spec_v1_reconcile(f, snapshot, current).0.record == f.record,
        spec_v1_reconcile(f, snapshot, current).0.prepare_request == f.prepare_request,
{
}

/// An unavailable store is answered by retrying the very same request, and
/// the flow stays where it was.
pub proof fn law_unavailable_retries_same_request(f: ReconnectDurabilityFlowV1View, commit: ReconnectCommitRequestView)
    ensures
        f.phase == ReconnectDurabilityPhaseV1::PendingPrepare ==> spec_v1_accept_prepare(
            f,
            f.prepare_request,
            ReconnectPrepareDispositionV1::Unavailable,
        ) == (f, Ok::<FlowActionView<ReconnectPrepareDispositionV1>, ReconnectDurabilityErrorV1>(
            FlowActionView::RetrySameRequest(f.prepare_request),
        )),
        f.phase == ReconnectDurabilityPhaseV1::PendingCommit && f.commit_request == Some(commit) ==> spec_v1_accept_commit(
            f,
            commit,
            ReconnectCommitDispositionV1::Unavailable,
        ) == (f, Ok::<CommitActionView, ReconnectDurabilityErrorV1>(CommitActionView::RetrySameRequest(commit))),
{
}

/// A finished flow, terminal or completed, takes no further step.
pub proof fn law_finished_flow_is_final(
    f: ReconnectDurabilityFlowV1View,
    prepare: ReconnectDurabilityRecordView,
    prepare_disposition: ReconnectPrepareDispositionV1,
    commit: ReconnectCommitRequestView,
    commit_disposition: ReconnectCommitDispositionV1,
    snapshot: ReconnectDurableReconciliationSnapshotView,
    current: ReconnectCurrentAuthorityView,
    now: i64,
)
    requires
        f.phase == ReconnectDurabilityPhaseV1::Terminal || f.phase == ReconnectDurabilityPhaseV1::Completed,
    ensures
        spec_v1_accept_prepare(f, prepare, prepare_disposition).0 == f,
        spec_v1_accept_prepare(f, prepare, prepare_disposition).1 is Err,
        spec_authorize_commit(f.record, f.phase, current, now).0 == f.phase,
        spec_authorize_commit(f.record, f.phase, current, now).1 is Err,
        spec_v1_accept_commit(f, commit, commit_disposition).0 == f,
        spec_v1_accept_commit(f, commit, commit_disposition).1 is Err,
        spec_v1_reconcile(f, snapshot, current).0 == f,
        spec_v1_reconcile(f, snapshot, current).1 is Err,
{
}

/// COMMIT is authorized only when the current authority matches the record
/// exactly, the evidence has been observed, and neither the decision time
/// nor the current read lies beyond the record's authorization deadline.
pub proof fn law_commit_authorized_only_within_deadline(
    record: ReconnectDurabilityRecordView,
    phase: ReconnectDurabilityPhaseV1,
    current: ReconnectCurrentAuthorityView,
    now: i64,
)
    requires
        spec_authorize_commit(record, phase, current, now).1 is Ok,
    ensures
        phase == ReconnectDurabilityPhaseV1::AwaitFinalRevalidation,
        spec_authorize_commit(record, phase, current, now).0 == ReconnectDurabilityPhaseV1::PendingCommit,
        matches_record_result(record, current) == Ok::<bool, ReconnectDurabilityErrorV1>(true),
        evidence_observed_by(record, now),
        authorization_deadline_of(record) matches Some(deadline) && now <= deadline && current.observed_at <= deadline
            && spec_authorize_commit(record, phase, current, now).1 == Ok::<ReconnectCommitRequestView, ReconnectDurabilityErrorV1>(
            ReconnectCommitRequestView { record, authorization_deadline: deadline },
        ),
{
}

/// A controller is installed only from a durable read that shows this
/// record's own candidate and transport as committed, while the current
/// authority still confirms the record within its deadline.
pub proof fn law_controller_installed_only_after_exact_reconciliation(
    f: ReconnectDurabilityFlowV1View,
    snapshot: ReconnectDurableReconciliationSnapshotView,
    current: ReconnectCurrentAuthorityView,
)
    requires
        spec_v1_reconcile(f, snapshot, current).1 matches Ok(ReconnectProjectionDecisionV1::InstallController { .. }),
    ensures
        ({
            let decision = spec_v1_reconcile(f, snapshot, current).1->Ok_0;
            &&& f.phase == ReconnectDurabilityPhaseV1::ReconciliationRequired
            &&& snapshot.record == f.record
            &&& snapshot.durable_state == DurableReconnectStateV1::Committed
            &&& decision->InstallController_generation == f.record.connection@.candidate
            &&& decision->InstallController_transport_ref == f.record.connection@.transport_ref
            &&& snapshot.current_generation == Some(f.record.connection@.candidate)
            &&& snapshot.current_transport_ref == Some(f.record.connection@.transport_ref)
            &&& matches_record_result(f.record, current) == Ok::<bool, ReconnectDurabilityErrorV1>(true)
            &&& authorization_deadline_of(f.record) matches Some(deadline) && current.observed_at <= deadline
            &&& spec_v1_reconcile(f, snapshot, current).0.phase == ReconnectDurabilityPhaseV1::Completed
        }),
{
}

/// The same holds of the budgeted flow: its controller is installed only
/// from its own committed candidate and transport, and installing it leaves
/// the attempt budget unchanged.
pub proof fn law_budgeted_controller_installed_only_after_exact_reconciliation(
    f: ReconnectDurabilityFlowV2View,
    b: ReconnectAttemptBudgetView,
    record: ReconnectDurabilityRecordView,
    outcome: ReconnectDurableOutcomeV2,
    current: ReconnectCurrentAuthorityView,
)
    requires
        spec_v2_reconcile(f, b, record, outcome, current).2 matches Ok(ReconnectProjectionDecisionV2::InstallController { .. }),
    ensures
        ({
            let decision = spec_v2_reconcile(f, b, record, outcome, current).2->Ok_0;
            &&& record == f.record
            &&& decision->InstallController_generation == f.record.connection@.candidate
            &&& decision->InstallController_transport_ref == f.record.connection@.transport_ref
            &&& matches_record_result(f.record, current) == Ok::<bool, ReconnectDurabilityErrorV1>(true)
            &&& spec_v2_reconcile(f, b, record, outcome, current).1 == b
            &&& spec_v2_reconcile(f, b, record, outcome, current).0.phase == ReconnectDurabilityPhaseV1::Completed
        }),
{
}

/// The budgeted flow keeps its attempt budget valid whatever the store
/// reports: never more than the per-epoch attempts, each once, at most one
/// PREPARED.
pub proof fn law_budgeted_flow_keeps_budget_valid(
    f: ReconnectDurabilityFlowV2View,
    b: ReconnectAttemptBudgetView,
    request: ReconnectPrepareRequestV2View,
    disposition: ReconnectPrepareDispositionV2,
    record: ReconnectDurabilityRecordView,
    outcome: ReconnectDurableOutcomeV2,
    current: ReconnectCurrentAuthorityView,
)
    requires
        budget_entries_valid(b.entries),
    ensures
        budget_entries_valid(spec_v2_accept_prepare(f, b, request, disposition).1.entries),
        budget_entries_valid(spec_v2_reconcile(f, b, record, outcome, current).1.entries),
{
    let attempt = f.record.identity.reconnect_attempt_ref;
    let transport = f.record.connection@.transport_ref;
    if let Some(bd) = crate::flows::budget_disposition_v2(disposition) {
        law_prepare_completion_keeps_budget_valid(b, attempt, transport, bd);
    }
    law_prepare_completion_keeps_budget_valid(b, attempt, transport, ReconnectPrepareDispositionV1::ExistingPrepared);
    if let ReconnectDurableOutcomeV2::Terminal { disposition: d } = outcome {
        law_prepare_completion_keeps_budget_valid(b, attempt, transport, crate::flows::budget_disposition_for_terminal(d));
    }
}

/// No two entries of a budget are PREPARED.
pub open spec fn at_most_one_prepared(entries: Seq<ReconnectAttemptEntryV1>) -> bool {
    forall|i: int, j: int|
        0 <= i < entries.len() && 0 <= j < entries.len() && i != j && #[trigger] entries[i].state
            == ReconnectAttemptStateV1::Prepared ==> #[trigger] entries[j].state != ReconnectAttemptStateV1::Prepared
}

/// A PREPARE completion against a budget with at most one PREPARED entry is
/// closed: an unreserved attempt is a mismatch, another transport an
/// idempotency conflict, a second PREPARED a concurrency refusal; every
/// refusal and every unavailable or ambiguous report leaves the budget as it
/// was; and afterwards at most one entry is PREPARED and the same attempts
/// with the same transports are held.
pub proof fn law_prepare_completion_is_closed(
    b: ReconnectAttemptBudgetView,
    attempt: ReconnectAttemptRef,
    transport: AuthenticatedTransportRefV1,
    disposition: ReconnectPrepareDispositionV1,
)
    requires
        at_most_one_prepared(b.entries),
    ensures
        ({
            let (after, r) = spec_accept_prepare(b, attempt, transport, disposition);
            let prepares = disposition == ReconnectPrepareDispositionV1::Prepared || disposition
                == ReconnectPrepareDispositionV1::ExistingPrepared;
            &&& index_of_attempt(b.entries, attempt) is None ==> r == Err::<(), ReconnectDurabilityErrorV1>(
                ReconnectDurabilityErrorV1::CompletionMismatch,
            )
            &&& (index_of_attempt(b.entries, attempt) matches Some(i) && b.entries[i].transport_ref != transport)
                ==> r == Err::<(), ReconnectDurabilityErrorV1>(ReconnectDurabilityErrorV1::IdempotencyConflict)
            &&& (index_of_attempt(b.entries, attempt) matches Some(i) && b.entries[i].transport_ref == transport
                && prepares && exists|j: int|
                0 <= j < b.entries.len() && j != i && #[trigger] b.entries[j].state == ReconnectAttemptStateV1::Prepared)
                ==> r == Err::<(), ReconnectDurabilityErrorV1>(ReconnectDurabilityErrorV1::ConcurrentPrepared)
            &&& r is Err ==> after == b
            &&& (disposition == ReconnectPrepareDispositionV1::Unavailable || disposition
                == ReconnectPrepareDispositionV1::Ambiguous) ==> after == b
            &&& at_most_one_prepared(after.entries)
            &&& after.entries.len() == b.entries.len()
            &&& forall|k: int|
                0 <= k < b.entries.len() ==> (#[trigger] after.entries[k]).attempt == b.entries[k].attempt
                    && after.entries[k].transport_ref == b.entries[k].transport_ref
        }),
{
    let after = spec_accept_prepare(b, attempt, transport, disposition).0;
    if disposition == ReconnectPrepareDispositionV1::Unavailable || disposition == ReconnectPrepareDispositionV1::Ambiguous {
        law_unsettled_prepare_changes_no_state(b, attempt, transport, disposition);
    }
    if let Some(index) = index_of_attempt(b.entries, attempt) {
        if spec_accept_prepare(b, attempt, transport, disposition).1 is Ok {
            let prepares = disposition == ReconnectPrepareDispositionV1::Prepared || disposition
                == ReconnectPrepareDispositionV1::ExistingPrepared;
            let state = state_after_prepare(b.entries[index].state, disposition);
            assert(after.entries[index].state == state);
            assert forall|i: int, j: int|
                0 <= i < after.entries.len() && 0 <= j < after.entries.len() && i != j && #[trigger] after.entries[i].state
                    == ReconnectAttemptStateV1::Prepared implies #[trigger] after.entries[j].state
                    != ReconnectAttemptStateV1::Prepared by {
                if i != index && j != index {
                    assert(b.entries[i].state == ReconnectAttemptStateV1::Prepared);
                } else if i == index {
                    if !prepares {
                        assert(b.entries[i].state == ReconnectAttemptStateV1::Prepared);
                    } else {
                        assert(b.entries[j].state == after.entries[j].state);
                    }
                } else {
                    assert(b.entries[i].state == after.entries[i].state);
                    if !prepares && state == ReconnectAttemptStateV1::Prepared {
                        assert(b.entries[j].state == ReconnectAttemptStateV1::Prepared);
                    }
                }
            }
        }
    }
}

/// Once a control-loss write is recorded as committed at `decided_at`,
/// reports are closed: the identical report again is accepted and changes
/// nothing; another decision time, a rejection, or a report of any other
/// operation is an idempotency conflict and changes nothing.
pub proof fn law_repeated_loss_reports_are_closed(
    f: ControlLossFlowView,
    decided_at: i64,
    other_time: i64,
    other: ControlLossOperationView,
    outcome: ControlLossOutcomeV1,
)
    requires
        f.phase == ControlLossPhaseV1::Completed,
        f.receipt == Some(ControlLossReceiptView { operation: f.operation, decided_at }),
        decided_at >= f.operation.authorized_at,
    ensures
        spec_accept_completion(f, Ok(Some((f.operation, ControlLossOutcomeV1::Committed { decided_at }))))
            == (f, Ok::<(), ReconnectDurabilityErrorV1>(())),
        other_time != decided_at ==> spec_accept_completion(
            f,
            Ok(Some((f.operation, ControlLossOutcomeV1::Committed { decided_at: other_time }))),
        ) == (f, Err::<(), ReconnectDurabilityErrorV1>(ReconnectDurabilityErrorV1::IdempotencyConflict)),
        spec_accept_completion(f, Ok(Some((f.operation, ControlLossOutcomeV1::Rejected)))) == (f, Err::<
            (),
            ReconnectDurabilityErrorV1,
        >(ReconnectDurabilityErrorV1::IdempotencyConflict)),
        other != f.operation ==> spec_accept_completion(f, Ok(Some((other, outcome)))) == (f, Err::<
            (),
            ReconnectDurabilityErrorV1,
        >(ReconnectDurabilityErrorV1::IdempotencyConflict)),
{
}

/// The first commit report of a pending or reconciling control-loss write,
/// dated no earlier than its authorization, records exactly that receipt and
/// completes the flow.
pub proof fn law_first_loss_commit_is_recorded(f: ControlLossFlowView, decided_at: i64)
    requires
        f.phase != ControlLossPhaseV1::Ready,
        f.phase != ControlLossPhaseV1::Rejected,
        f.receipt is None,
        decided_at >= f.operation.authorized_at,
    ensures
        spec_accept_completion(f, Ok(Some((f.operation, ControlLossOutcomeV1::Committed { decided_at })))) == (
            ControlLossFlowView {
                receipt: Some(ControlLossReceiptView { operation: f.operation, decided_at }),
                phase: ControlLossPhaseV1::Completed,
                ..f
            },
            Ok::<(), ReconnectDurabilityErrorV1>(()),
        ),
{
}

/// The final revalidation of a control loss never goes back: it accepts only
/// the authorized decision read again at the same or a newer source revision,
/// observed no earlier, no earlier than the authorization, with the same
/// decision, session, epoch, deadline and protection.
pub proof fn law_final_loss_read_never_goes_back(
    op: ControlLossOperationView,
    current: ControlLossObservationView,
    now: i64,
)
    ensures
        spec_validate_final(op, Ok(current), now) is Ok ==> {
            &&& current.source_revision >= op.observation.source_revision
            &&& current.observed_at >= op.observation.observed_at
            &&& now >= op.authorized_at
            &&& current.source_authority == op.observation.source_authority
            &&& current.decision_identity == op.observation.decision_identity
            &&& current.session == op.observation.session
            &&& current.loss_epoch == op.observation.loss_epoch
            &&& current.original_grace_deadline == op.observation.original_grace_deadline
            &&& current.protection == op.observation.protection
        },
{
}

} // verus!
