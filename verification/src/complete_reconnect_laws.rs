//! Properties of the complete-reconnect write that hold for every report,
//! every source answer and every answer of the foundation helpers.
use vstd::prelude::*;
use crate::admission::ReconnectDurabilityErrorV1;
use crate::complete_operation::{spec_fast_proof, spec_recovery_proof, CompleteSnapshotView, CredentialView, FastBindingView};
use crate::complete_reconnect::{
    complete_phase_settled, complete_request_phase, operation_controller, spec_complete_accept, spec_complete_adopt,
    spec_complete_mark_ambiguous, spec_complete_report, spec_complete_start, spec_complete_take,
    spec_durability_historical, AdoptionChecksV1, CompleteFlowView, CompleteReconnectOutcomeV1,
    CompleteReconnectPhaseV1, CompleteReconnectProofCurrentV1, CompleteReconnectRequestKindV1, CompletionView,
    ControllerView, DurabilityChecksV1, DurabilityOperationView,
};

verus! {

/// A flow restored from raw history holds no authorization, so the only
/// request it can hand out is the exact reconciliation, which carries none.
pub proof fn law_restored_history_asks_only_reconciliation(
    op: DurabilityOperationView,
    checks: DurabilityChecksV1,
    kind: CompleteReconnectRequestKindV1,
)
    requires
        spec_durability_historical(op, checks) is Ok,
    ensures
        ({
            let f = spec_complete_start(op, checks, None)->Ok_0;
            &&& f.authorization is None
            &&& f.operation == op
            &&& f.phase == CompleteReconnectPhaseV1::ReconciliationRequired
            &&& spec_complete_take(f, kind).1 is Ok <==> kind == CompleteReconnectRequestKindV1::Reconcile
            &&& spec_complete_take(f, kind).1 matches Ok(q) ==> q.authorization is None && q.operation == op
        }),
{
}

/// Without a live authorization no PREPARE or COMMIT can be taken, and no
/// request, mark or report gives one back.
pub proof fn law_unauthorized_flow_never_writes(
    f: CompleteFlowView,
    kind: CompleteReconnectRequestKindV1,
    answer: Result<Option<CompletionView>, ReconnectDurabilityErrorV1>,
)
    requires
        f.authorization is None,
    ensures
        kind != CompleteReconnectRequestKindV1::Reconcile ==> spec_complete_take(f, kind).1 is Err,
        spec_complete_take(f, kind).0.authorization is None,
        spec_complete_mark_ambiguous(f).0.authorization is None,
        spec_complete_accept(f, answer).0.authorization is None,
{
}

/// A write whose outcome is unknown keeps its operation, authorization,
/// PREPARE time and receipt, and can then only be reconciled exactly.
pub proof fn law_ambiguity_requires_exact_reconciliation(f: CompleteFlowView, kind: CompleteReconnectRequestKindV1)
    requires
        f.phase == CompleteReconnectPhaseV1::PendingPrepare || f.phase == CompleteReconnectPhaseV1::PendingCommit
            || f.phase == CompleteReconnectPhaseV1::PendingReconciliation,
    ensures
        ({
            let (g, r) = spec_complete_mark_ambiguous(f);
            &&& r is Ok
            &&& g == CompleteFlowView { phase: CompleteReconnectPhaseV1::ReconciliationRequired, ..f }
            &&& complete_request_phase(g.phase, kind) is Some <==> kind == CompleteReconnectRequestKindV1::Reconcile
        }),
{
}

/// A report of another operation is refused and changes nothing.
pub proof fn law_foreign_report_is_refused(f: CompleteFlowView, c: CompletionView)
    requires
        spec_durability_historical(c.operation, c.checks) is Ok,
        c.operation != f.operation,
    ensures
        spec_complete_report(f, c) == (f, Err::<(), ReconnectDurabilityErrorV1>(ReconnectDurabilityErrorV1::IdempotencyConflict)),
{
}

/// A committed receipt is final: no later answer changes it, the operation
/// or the authorization, and a rejection after it is refused.
pub proof fn law_committed_receipt_is_final(
    f: CompleteFlowView,
    answer: Result<Option<CompletionView>, ReconnectDurabilityErrorV1>,
)
    requires
        f.receipt is Some,
    ensures
        spec_complete_accept(f, answer).0.receipt == f.receipt,
        spec_complete_accept(f, answer).0.operation == f.operation,
        answer matches Ok(Some(c)) && c.outcome == CompleteReconnectOutcomeV1::Rejected ==> spec_complete_accept(
            f,
            answer,
        ).1 is Err,
{
}

/// A flow awaits adoption or is adopted only with a committed receipt, every
/// answer keeps that so, and a settled flow is never sent back to
/// reconciliation by an ambiguous or repeated report.
pub proof fn law_settled_flow_stays_settled(
    f: CompleteFlowView,
    answer: Result<Option<CompletionView>, ReconnectDurabilityErrorV1>,
    current: Result<CompleteSnapshotView, ReconnectDurabilityErrorV1>,
    owner_state: Result<CompleteReconnectProofCurrentV1, ReconnectDurabilityErrorV1>,
    checks: AdoptionChecksV1,
    now: i64,
)
    requires
        complete_phase_settled(f.phase) ==> f.receipt is Some,
    ensures
        complete_phase_settled(spec_complete_accept(f, answer).0.phase) ==> spec_complete_accept(f, answer).0.receipt is Some,
        complete_phase_settled(spec_complete_adopt(f, current, owner_state, checks, now).0.phase) ==> spec_complete_adopt(
            f,
            current,
            owner_state,
            checks,
            now,
        ).0.receipt is Some,
        complete_phase_settled(f.phase) ==> complete_phase_settled(spec_complete_accept(f, answer).0.phase),
{
}

/// A historical winner alone cannot install control: only a committed
/// receipt lets adoption succeed, it installs exactly the operation's own
/// session, candidate transport and generation, and a failed adoption
/// changes nothing.
pub proof fn law_adoption_installs_only_the_committed_winner(
    f: CompleteFlowView,
    current: Result<CompleteSnapshotView, ReconnectDurabilityErrorV1>,
    owner_state: Result<CompleteReconnectProofCurrentV1, ReconnectDurabilityErrorV1>,
    checks: AdoptionChecksV1,
    now: i64,
)
    ensures
        spec_complete_adopt(f, current, owner_state, checks, now).1 is Ok ==> f.receipt is Some && current is Ok
            && owner_state is Ok && checks.sources is Ok && spec_complete_adopt(f, current, owner_state, checks, now).1
            == Ok::<ControllerView, ReconnectDurabilityErrorV1>(operation_controller(f.operation)),
        spec_complete_adopt(f, current, owner_state, checks, now).1 is Err ==> spec_complete_adopt(
            f,
            current,
            owner_state,
            checks,
            now,
        ).0 == f,
{
}

/// A fast proof proves the bearer only for the session as it is now: an
/// accepted fast binding names the identity's session and attempt, the
/// snapshot's session at its current connection generation, the snapshot's
/// candidate transport and proof transition, was verified at `now`, and
/// carries at least the account's current, nonzero minimum security
/// generation; the credential it yields is that binding.
pub proof fn law_fast_proof_binds_the_current_session(
    b: FastBindingView,
    minimum: Result<u64, ReconnectDurabilityErrorV1>,
    s: CompleteSnapshotView,
    identity: crate::durability::ReconnectIdentityView,
    now: i64,
)
    ensures
        spec_fast_proof(Ok(b), minimum, s, identity, now) is Ok ==> {
            &&& b.session == identity.game_session_id
            &&& b.session == s.session.commit.game_session_id
            &&& b.predecessor == s.session.current_connection_generation
            &&& b.attempt == identity.reconnect_attempt_ref
            &&& b.transport == s.candidate.transport_ref
            &&& b.proof_generation == s.proof_transition.predecessor_generation
            &&& b.replacement_proof_generation == s.proof_transition.successor_generation
            &&& b.verified_at == now
            &&& (minimum matches Ok(m) && 0 < m && m <= b.compatibility.account_security_generation)
            &&& spec_fast_proof(Ok(b), minimum, s, identity, now) == Ok::<CredentialView, ReconnectDurabilityErrorV1>(
                CredentialView::Fast(b),
            )
        },
{
}

/// A recovery proof yields a credential only for the identity's own account,
/// character and world, and only a well-formed one: nonzero grant nonce and
/// security generation, protocol and transport profile one, a positive
/// expiry, and exactly one of a V1 trust binding or a V2 audit.
pub proof fn law_recovery_proof_binds_the_identity(
    account_id: Seq<char>,
    character_id: crate::ids::CharacterId,
    world_id: crate::ids::WorldId,
    credential: crate::complete_operation::RecoveryCredentialView,
    checks: crate::complete_operation::CredentialChecksV1,
    identity: crate::durability::ReconnectIdentityView,
)
    ensures
        spec_recovery_proof(account_id, character_id, world_id, credential, checks, identity) is Ok ==> {
            &&& account_id == identity.account_id
            &&& character_id == identity.character_id
            &&& world_id == identity.world_id
            &&& !crate::bytes::all_zero(credential.grant_nonce)
            &&& credential.account_security_generation != 0
            &&& credential.protocol_major == 1
            &&& credential.transport_profile == 1
            &&& credential.expires_at > 0
            &&& (credential.v1_trust is Some) != (credential.v2 is Some)
            &&& spec_recovery_proof(account_id, character_id, world_id, credential, checks, identity)
                == Ok::<CredentialView, ReconnectDurabilityErrorV1>(CredentialView::Recovery(credential))
        },
{
}

} // verus!
