//! The complete-reconnect durability write: the operation with the claim
//! evidence of an early replacement, the write effect of its PREPARE and
//! COMMIT, and the flow that takes requests, classifies the durable reports of
//! its own operation and adopts a committed winner through one adoption fence
//! against independently current sources.
//!
//! The historical check of the operation, the current-authority matrix, the
//! comparison of a durable report with the flow's own operation and the
//! adoption fence are all computed here. Only the answers of the few foundation
//! helpers this crate does not hold (resource bounds, claim consistency,
//! credential audit and source trust) arrive as values.
use vstd::prelude::*;
use crate::admission::{
    current_authority_error, reconnected_session, validate_current_authority, GameSessionAuthoritySnapshot,
    GameSessionAuthoritySnapshotView, ReconnectDurabilityErrorV1, RuntimeScopeRefV1,
};
use crate::budget::{
    protection_valid, spec_commit_winner, spec_prepared_budget, RecoveryProtectionContinuityV1,
    RecoveryProtectionUseV1, RetainedRecoveryBudgetV1, RetainedRecoveryBudgetView,
};
use crate::complete_operation::{
    spec_complete_operation_historical, spec_complete_validate_current, credential_result_view, stale_at,
    CompleteReconnectAuthorizationV1, CompleteReconnectCredentialV1, CompleteReconnectCurrentV1,
    CompleteReconnectModeV1, CompleteReconnectOperationV1, CompleteReconnectSnapshotV1, CompleteSnapshotView,
    CurrentChecksV1, OperationChecksV1, OperationView,
};
use crate::durability::{AuthenticatedTransportRefV1, EVIDENCE_FRESHNESS_SECONDS_V1};
use crate::ids::{ConnectionGeneration, GameSessionId};
use crate::publication::{changes_view, copy_changes, AdmissionAuthorityPublicationChangeV1, PublicationChangeView};

verus! {

broadcast use crate::ids::group_id_views, crate::durability::lemma_transport_view;

#[derive(Debug, Clone, Copy, PartialEq, Eq, Structural)]
pub enum CompleteReconnectRequestKindV1 {
    Prepare,
    Commit,
    Reconcile,
}

#[derive(Debug, Clone, Copy, PartialEq, Eq, Structural)]
pub enum CompleteReconnectPhaseV1 {
    Ready,
    PendingPrepare,
    Prepared,
    PendingCommit,
    ReconciliationRequired,
    PendingReconciliation,
    AwaitingAdoption,
    Adopted,
    Rejected,
}

#[derive(Debug, Clone, Copy, PartialEq, Eq, Structural)]
pub enum CompleteReconnectOutcomeV1 {
    Prepared { decided_at: i64 },
    Committed { decided_at: i64 },
    Rejected,
    Ambiguous,
}

/// The claim evidence of an early terminal replacement: the operation it was
/// prepared for and the successor claims its COMMIT installs.
pub struct CompleteReconnectClaimEvidenceV1 {
    pub operation: CompleteReconnectOperationV1,
    pub successors: Vec<AdmissionAuthorityPublicationChangeV1>,
}

pub struct ClaimEvidenceView {
    pub operation: OperationView,
    pub successors: Seq<PublicationChangeView>,
}

impl View for CompleteReconnectClaimEvidenceV1 {
    type V = ClaimEvidenceView;

    open spec fn view(&self) -> ClaimEvidenceView {
        ClaimEvidenceView { operation: self.operation@, successors: changes_view(self.successors@) }
    }
}

/// The durable operation of a complete reconnect, with the claim evidence of
/// an early replacement.
pub struct CompleteReconnectDurabilityOperationV1 {
    pub recovery: CompleteReconnectOperationV1,
    pub replacement: Option<CompleteReconnectClaimEvidenceV1>,
}

pub struct DurabilityOperationView {
    pub recovery: OperationView,
    pub replacement: Option<ClaimEvidenceView>,
}

impl View for CompleteReconnectDurabilityOperationV1 {
    type V = DurabilityOperationView;

    open spec fn view(&self) -> DurabilityOperationView {
        DurabilityOperationView {
            recovery: self.recovery@,
            replacement: match self.replacement {
                Some(c) => Some(c@),
                None => None,
            },
        }
    }
}

/// The foundation helpers' answers on a durability operation: on its recovery
/// operation, and whether its replacement claim evidence is historically
/// valid at the PREPARE time.
#[derive(Debug, Clone, Copy, PartialEq, Eq, Structural)]
pub struct DurabilityChecksV1 {
    pub recovery: OperationChecksV1,
    pub replacement_valid: bool,
}

/// The historical consistency of a durability operation: its recovery
/// operation, and claim evidence of exactly that operation for an early
/// replacement, none for the same session.
pub open spec fn spec_durability_historical(op: DurabilityOperationView, checks: DurabilityChecksV1) -> Result<
    (),
    ReconnectDurabilityErrorV1,
> {
    if spec_complete_operation_historical(op.recovery, checks.recovery) is Err {
        spec_complete_operation_historical(op.recovery, checks.recovery)
    } else {
        match (op.replacement, op.recovery.mode) {
            (None, CompleteReconnectModeV1::SameSession) => Ok(()),
            (Some(c), CompleteReconnectModeV1::EarlyTerminalReplacement) => if !checks.replacement_valid
                || c.operation != op.recovery {
                Err(ReconnectDurabilityErrorV1::InvalidRecord)
            } else {
                Ok(())
            },
            _ => Err(ReconnectDurabilityErrorV1::InvalidRecord),
        }
    }
}

impl CompleteReconnectClaimEvidenceV1 {
    pub fn duplicate(&self) -> (r: Self)
        ensures
            r@ == self@,
    {
        CompleteReconnectClaimEvidenceV1 {
            operation: self.operation.duplicate(),
            successors: copy_changes(self.successors.as_slice()),
        }
    }
}

impl CompleteReconnectDurabilityOperationV1 {
    pub fn duplicate(&self) -> (r: Self)
        ensures
            r@ == self@,
    {
        CompleteReconnectDurabilityOperationV1 {
            recovery: self.recovery.duplicate(),
            replacement: match &self.replacement {
                Some(c) => Some(c.duplicate()),
                None => None,
            },
        }
    }

    pub fn same(&self, other: &Self) -> (r: bool)
        ensures
            r == (self@ == other@),
    {
        let replacement = match (&self.replacement, &other.replacement) {
            (Some(a), Some(b)) => a.operation.same(&b.operation) && crate::complete_operation::same_changes(
                a.successors.as_slice(),
                b.successors.as_slice(),
            ),
            (None, None) => true,
            _ => false,
        };
        self.recovery.same(&other.recovery) && replacement
    }

    /// The historical consistency of this operation, given the foundation
    /// helpers' answers on it.
    pub fn validate_historical(&self, checks: DurabilityChecksV1) -> (r: Result<(), ReconnectDurabilityErrorV1>)
        ensures
            r == spec_durability_historical(self@, checks),
    {
        if let Err(e) = self.recovery.validate_historical(checks.recovery) {
            return Err(e);
        }
        match (&self.replacement, self.recovery.mode) {
            (None, CompleteReconnectModeV1::SameSession) => Ok(()),
            (Some(c), CompleteReconnectModeV1::EarlyTerminalReplacement) => {
                if !checks.replacement_valid || !c.operation.same(&self.recovery) {
                    return Err(ReconnectDurabilityErrorV1::InvalidRecord);
                }
                Ok(())
            },
            _ => Err(ReconnectDurabilityErrorV1::InvalidRecord),
        }
    }
}

pub struct CompleteReconnectEffectV1 {
    kind: CompleteReconnectRequestKindV1,
    decided_at: i64,
    session: GameSessionAuthoritySnapshot<AuthenticatedTransportRefV1>,
    budget: RetainedRecoveryBudgetV1,
    protection: RecoveryProtectionContinuityV1,
    claims: Vec<AdmissionAuthorityPublicationChangeV1>,
}

pub struct EffectView {
    pub kind: CompleteReconnectRequestKindV1,
    pub decided_at: i64,
    pub session: GameSessionAuthoritySnapshotView<AuthenticatedTransportRefV1>,
    pub budget: RetainedRecoveryBudgetView,
    pub protection: RecoveryProtectionContinuityV1,
    pub claims: Seq<PublicationChangeView>,
}

impl View for CompleteReconnectEffectV1 {
    type V = EffectView;

    closed spec fn view(&self) -> EffectView {
        EffectView {
            kind: self.kind,
            decided_at: self.decided_at,
            session: self.session@,
            budget: self.budget@,
            protection: self.protection,
            claims: changes_view(self.claims@),
        }
    }
}

impl CompleteReconnectEffectV1 {
    pub fn kind(&self) -> (r: CompleteReconnectRequestKindV1)
        ensures
            r == self@.kind,
    {
        self.kind
    }

    pub fn decided_at(&self) -> (r: i64)
        ensures
            r == self@.decided_at,
    {
        self.decided_at
    }

    pub fn session(&self) -> (r: GameSessionAuthoritySnapshot<AuthenticatedTransportRefV1>)
        ensures
            r@ == self@.session,
    {
        self.session
    }

    pub fn budget(&self) -> (r: &RetainedRecoveryBudgetV1)
        ensures
            r@ == self@.budget,
    {
        &self.budget
    }

    pub fn protection(&self) -> (r: RecoveryProtectionContinuityV1)
        ensures
            r == self@.protection,
    {
        self.protection
    }

    pub fn claims(&self) -> (r: &[AdmissionAuthorityPublicationChangeV1])
        ensures
            changes_view(r@) == self@.claims,
    {
        self.claims.as_slice()
    }
}

/// Protection once a COMMIT activates it at `now`: an unused entitlement
/// starts its four-second activation; any other history is kept.
pub open spec fn activated_protection(p: RecoveryProtectionContinuityV1, now: i64) -> RecoveryProtectionContinuityV1 {
    match p.usage {
        RecoveryProtectionUseV1::Unused { entitlement_generation } => RecoveryProtectionContinuityV1 {
            usage: RecoveryProtectionUseV1::Activated { entitlement_generation, activated_at: now, deadline: (now + 4) as i64 },
            ..p
        },
        _ => p,
    }
}

/// The protection a COMMIT at `now` leaves, or why it cannot.
pub open spec fn spec_complete_protection(p: RecoveryProtectionContinuityV1, now: i64) -> Result<
    RecoveryProtectionContinuityV1,
    ReconnectDurabilityErrorV1,
> {
    if !protection_valid(p, now) {
        Err(ReconnectDurabilityErrorV1::InvalidRecord)
    } else if p.usage is Unused && now + 4 > i64::MAX {
        Err(ReconnectDurabilityErrorV1::InvalidRecord)
    } else {
        Ok(activated_protection(p, now))
    }
}

/// The protection a complete reconnect at `now` carries: a valid
/// continuity whose unused entitlement is activated for four seconds.
pub fn complete_reconnect_protection(p: RecoveryProtectionContinuityV1, now: i64) -> (r: Result<
    RecoveryProtectionContinuityV1,
    ReconnectDurabilityErrorV1,
>)
    ensures
        r == spec_complete_protection(p, now),
{
    if let Err(e) = p.validate(now) {
        return Err(e);
    }
    match p.usage {
        RecoveryProtectionUseV1::Unused { entitlement_generation } => {
            if now > i64::MAX - 4 {
                return Err(ReconnectDurabilityErrorV1::InvalidRecord);
            }
            Ok(
                RecoveryProtectionContinuityV1 {
                    usage: RecoveryProtectionUseV1::Activated { entitlement_generation, activated_at: now, deadline: now + 4 },
                    ..p
                },
            )
        },
        _ => Ok(p),
    }
}

/// The write effect of the operation: a PREPARE reserves the candidate in
/// the budget and changes nothing else; a COMMIT also restores the epoch with
/// the candidate as the committed winner, activates protection, makes the
/// session active on the candidate and, for an early replacement, moves the
/// session and its claims to the successor.
pub open spec fn spec_complete_reconnect_effect(
    op: DurabilityOperationView,
    checks: DurabilityChecksV1,
    commit: bool,
    now: i64,
) -> Result<EffectView, ReconnectDurabilityErrorV1> {
    let r = op.recovery;
    let o = r.original;
    if spec_durability_historical(op, checks) is Err {
        Err(spec_durability_historical(op, checks)->Err_0)
    } else if now < r.prepared_at || now > o.candidate.prepared_deadline {
        Err(ReconnectDurabilityErrorV1::DeadlineExpired)
    } else {
        match spec_prepared_budget(o.budget, r.identity.reconnect_attempt_ref, o.candidate.transport_ref) {
            Err(e) => Err(e),
            Ok(prepared) => if !commit {
                Ok(
                    EffectView {
                        kind: CompleteReconnectRequestKindV1::Prepare,
                        decided_at: now,
                        session: o.session,
                        budget: prepared,
                        protection: o.protection,
                        claims: o.claims,
                    },
                )
            } else {
                match spec_commit_winner(prepared, r.identity.reconnect_attempt_ref) {
                    Err(e) => Err(e),
                    Ok(budget) => match spec_complete_protection(o.protection, now) {
                        Err(e) => Err(e),
                        Ok(protection) => {
                            let replacement = r.mode == CompleteReconnectModeV1::EarlyTerminalReplacement;
                            let session = reconnected_session(
                                o.session,
                                o.candidate.connection_generation,
                                o.candidate.transport_ref,
                                if replacement {
                                    Some(r.identity.game_session_id)
                                } else {
                                    None
                                },
                            );
                            if replacement && op.replacement is None {
                                Err(ReconnectDurabilityErrorV1::InvalidRecord)
                            } else {
                                Ok(
                                    EffectView {
                                        kind: CompleteReconnectRequestKindV1::Commit,
                                        decided_at: now,
                                        session,
                                        budget,
                                        protection,
                                        claims: if replacement {
                                            op.replacement->Some_0.successors
                                        } else {
                                            o.claims
                                        },
                                    },
                                )
                            }
                        },
                    },
                }
            },
        }
    }
}

/// Computes the write effect of a PREPARE (`commit` false) or COMMIT at `now`.
pub fn complete_reconnect_effect(
    op: &CompleteReconnectDurabilityOperationV1,
    checks: DurabilityChecksV1,
    commit: bool,
    now: i64,
) -> (r: Result<CompleteReconnectEffectV1, ReconnectDurabilityErrorV1>)
    ensures
        match r {
            Ok(e) => spec_complete_reconnect_effect(op@, checks, commit, now) == Ok::<EffectView, ReconnectDurabilityErrorV1>(e@),
            Err(e) => spec_complete_reconnect_effect(op@, checks, commit, now) == Err::<EffectView, ReconnectDurabilityErrorV1>(e),
        },
{
    if let Err(e) = op.validate_historical(checks) {
        return Err(e);
    }
    let recovery = &op.recovery;
    let original = &recovery.original;
    if now < recovery.prepared_at || now > original.candidate.prepared_deadline() {
        return Err(ReconnectDurabilityErrorV1::DeadlineExpired);
    }
    let prepared = match original.budget.with_candidate_prepared(
        recovery.identity.reconnect_attempt_ref(),
        original.candidate.transport_ref(),
    ) {
        Err(e) => return Err(e),
        Ok(b) => b,
    };
    if !commit {
        return Ok(
            CompleteReconnectEffectV1 {
                kind: CompleteReconnectRequestKindV1::Prepare,
                decided_at: now,
                session: original.session,
                budget: prepared,
                protection: original.protection,
                claims: copy_changes(original.claims.as_slice()),
            },
        );
    }
    let budget = match prepared.with_winner_committed(recovery.identity.reconnect_attempt_ref()) {
        Err(e) => return Err(e),
        Ok(b) => b,
    };
    let protection = match complete_reconnect_protection(original.protection, now) {
        Err(e) => return Err(e),
        Ok(p) => p,
    };
    let replacement = recovery.mode == CompleteReconnectModeV1::EarlyTerminalReplacement;
    let session = original.session.reconnected(
        original.candidate.connection_generation(),
        original.candidate.transport_ref(),
        if replacement {
            Some(recovery.identity.game_session_id())
        } else {
            None
        },
    );
    let claims = if replacement {
        match &op.replacement {
            None => return Err(ReconnectDurabilityErrorV1::InvalidRecord),
            Some(c) => copy_changes(c.successors.as_slice()),
        }
    } else {
        copy_changes(original.claims.as_slice())
    };
    Ok(CompleteReconnectEffectV1 { kind: CompleteReconnectRequestKindV1::Commit, decided_at: now, session, budget, protection, claims })
}

/// A durable report of an operation, with the foundation helpers' answers on the
/// reported operation.
pub struct CompleteReconnectCompletionV1 {
    pub operation: CompleteReconnectDurabilityOperationV1,
    pub outcome: CompleteReconnectOutcomeV1,
    pub checks: DurabilityChecksV1,
}

pub struct CompletionView {
    pub operation: DurabilityOperationView,
    pub outcome: CompleteReconnectOutcomeV1,
    pub checks: DurabilityChecksV1,
}

impl View for CompleteReconnectCompletionV1 {
    type V = CompletionView;

    open spec fn view(&self) -> CompletionView {
        CompletionView { operation: self.operation@, outcome: self.outcome, checks: self.checks }
    }
}

/// The controller a committed operation installs once adopted.
#[derive(Debug, Clone, Copy)]
pub struct CompleteReconnectControllerV1 {
    session: GameSessionId,
    transport: AuthenticatedTransportRefV1,
    generation: ConnectionGeneration,
}

pub struct ControllerView {
    pub session: GameSessionId,
    pub transport: AuthenticatedTransportRefV1,
    pub generation: ConnectionGeneration,
}

impl View for CompleteReconnectControllerV1 {
    type V = ControllerView;

    closed spec fn view(&self) -> ControllerView {
        ControllerView { session: self.session, transport: self.transport, generation: self.generation }
    }
}

impl CompleteReconnectControllerV1 {
    pub fn session(&self) -> (r: GameSessionId)
        ensures
            r == self@.session,
    {
        self.session
    }

    pub fn transport(&self) -> (r: AuthenticatedTransportRefV1)
        ensures
            r == self@.transport,
    {
        self.transport
    }

    pub fn generation(&self) -> (r: ConnectionGeneration)
        ensures
            r == self@.generation,
    {
        self.generation
    }
}

/// The controller an operation installs: its identity's session on its
/// candidate transport and generation.
pub open spec fn operation_controller(op: DurabilityOperationView) -> ControllerView {
    ControllerView {
        session: op.recovery.identity.game_session_id,
        transport: op.recovery.original.candidate.transport_ref,
        generation: op.recovery.original.candidate.connection_generation,
    }
}

/// A request taken out of the flow: its kind, the flow's operation and, for
/// PREPARE and COMMIT, the flow's live authorization.
pub struct CompleteReconnectRequestV1 {
    kind: CompleteReconnectRequestKindV1,
    operation: CompleteReconnectDurabilityOperationV1,
    authorization: Option<CompleteReconnectAuthorizationV1>,
}

pub struct RequestView {
    pub kind: CompleteReconnectRequestKindV1,
    pub operation: DurabilityOperationView,
    pub authorization: Option<OperationView>,
}

pub open spec fn authorization_view(a: Option<CompleteReconnectAuthorizationV1>) -> Option<OperationView> {
    match a {
        Some(a) => Some(a@),
        None => None,
    }
}

impl View for CompleteReconnectRequestV1 {
    type V = RequestView;

    closed spec fn view(&self) -> RequestView {
        RequestView { kind: self.kind, operation: self.operation@, authorization: authorization_view(self.authorization) }
    }
}

impl CompleteReconnectRequestV1 {
    pub fn kind(&self) -> (r: CompleteReconnectRequestKindV1)
        ensures
            r == self@.kind,
    {
        self.kind
    }

    pub fn operation(&self) -> (r: &CompleteReconnectDurabilityOperationV1)
        ensures
            r@ == self@.operation,
    {
        &self.operation
    }

    pub fn carries_authorization(&self) -> (r: bool)
        ensures
            r == self@.authorization is Some,
    {
        self.authorization.is_some()
    }
}

/// The life of one complete-reconnect write.
pub struct CompleteReconnectFlowV1 {
    operation: CompleteReconnectDurabilityOperationV1,
    checks: DurabilityChecksV1,
    authorization: Option<CompleteReconnectAuthorizationV1>,
    phase: CompleteReconnectPhaseV1,
    prepared_at: Option<i64>,
    receipt: Option<i64>,
}

pub struct CompleteFlowView {
    pub operation: DurabilityOperationView,
    /// The foundation helpers' answers on the operation.
    pub checks: DurabilityChecksV1,
    /// The live authorization held (never after restoring raw history).
    pub authorization: Option<OperationView>,
    pub phase: CompleteReconnectPhaseV1,
    /// The decision time of the reported PREPARE, once one was reported.
    pub prepared_at: Option<i64>,
    /// The decision time of the committed receipt, once one was reported.
    pub receipt: Option<i64>,
}

impl View for CompleteReconnectFlowV1 {
    type V = CompleteFlowView;

    closed spec fn view(&self) -> CompleteFlowView {
        CompleteFlowView {
            operation: self.operation@,
            checks: self.checks,
            authorization: authorization_view(self.authorization),
            phase: self.phase,
            prepared_at: self.prepared_at,
            receipt: self.receipt,
        }
    }
}

/// A flow at its start over `op`: ready with a live authorization, or, from
/// raw history, waiting for exact reconciliation with none.
pub open spec fn spec_complete_start(
    op: DurabilityOperationView,
    checks: DurabilityChecksV1,
    authorization: Option<OperationView>,
) -> Result<CompleteFlowView, ReconnectDurabilityErrorV1> {
    match spec_durability_historical(op, checks) {
        Err(e) => Err(e),
        Ok(()) => Ok(
            CompleteFlowView {
                operation: op,
                checks,
                authorization,
                phase: if authorization is Some {
                    CompleteReconnectPhaseV1::Ready
                } else {
                    CompleteReconnectPhaseV1::ReconciliationRequired
                },
                prepared_at: None,
                receipt: None,
            },
        ),
    }
}

/// The phase a request of `kind` moves the flow to from `phase`, if any.
pub open spec fn complete_request_phase(
    phase: CompleteReconnectPhaseV1,
    kind: CompleteReconnectRequestKindV1,
) -> Option<CompleteReconnectPhaseV1> {
    match (phase, kind) {
        (CompleteReconnectPhaseV1::Ready, CompleteReconnectRequestKindV1::Prepare) => Some(
            CompleteReconnectPhaseV1::PendingPrepare,
        ),
        (CompleteReconnectPhaseV1::Prepared, CompleteReconnectRequestKindV1::Commit) => Some(
            CompleteReconnectPhaseV1::PendingCommit,
        ),
        (CompleteReconnectPhaseV1::ReconciliationRequired, CompleteReconnectRequestKindV1::Reconcile) => Some(
            CompleteReconnectPhaseV1::PendingReconciliation,
        ),
        _ => None,
    }
}

/// Taking a request: only the one the phase allows, and PREPARE or COMMIT
/// only with a live authorization, which the request then takes away.
pub open spec fn spec_complete_take(f: CompleteFlowView, kind: CompleteReconnectRequestKindV1) -> (
    CompleteFlowView,
    Result<RequestView, ReconnectDurabilityErrorV1>,
) {
    match complete_request_phase(f.phase, kind) {
        None => (f, Err(ReconnectDurabilityErrorV1::InvalidPhase)),
        Some(next) => if kind != CompleteReconnectRequestKindV1::Reconcile && f.authorization is None {
            (f, Err(ReconnectDurabilityErrorV1::InvalidPhase))
        } else if kind == CompleteReconnectRequestKindV1::Reconcile {
            (CompleteFlowView { phase: next, ..f }, Ok(RequestView { kind, operation: f.operation, authorization: None }))
        } else {
            (
                CompleteFlowView { phase: next, authorization: None, ..f },
                Ok(RequestView { kind, operation: f.operation, authorization: f.authorization }),
            )
        },
    }
}

/// A pending write whose outcome is unknown must be reconciled.
pub open spec fn spec_complete_mark_ambiguous(f: CompleteFlowView) -> (
    CompleteFlowView,
    Result<(), ReconnectDurabilityErrorV1>,
) {
    if f.phase == CompleteReconnectPhaseV1::PendingPrepare || f.phase == CompleteReconnectPhaseV1::PendingCommit
        || f.phase == CompleteReconnectPhaseV1::PendingReconciliation {
        (CompleteFlowView { phase: CompleteReconnectPhaseV1::ReconciliationRequired, ..f }, Ok(()))
    } else {
        (f, Err(ReconnectDurabilityErrorV1::InvalidPhase))
    }
}

/// Resuming a PREPARED write: a fresh authorization of exactly this
/// operation that revalidates against current sources, with the replacement
/// claims resumed when there are any.
pub open spec fn spec_complete_resume(
    f: CompleteFlowView,
    authorization: OperationView,
    current: crate::complete_operation::CurrentView,
    fresh: Result<crate::complete_operation::CredentialView, ReconnectDurabilityErrorV1>,
    checks: CurrentChecksV1,
    claims_resumed: bool,
    now: i64,
) -> (CompleteFlowView, Result<(), ReconnectDurabilityErrorV1>) {
    if f.phase != CompleteReconnectPhaseV1::Prepared || authorization != f.operation.recovery {
        (f, Err(ReconnectDurabilityErrorV1::InvalidPhase))
    } else if spec_complete_validate_current(authorization, current, fresh, checks, true, now) is Err {
        (f, Err(spec_complete_validate_current(authorization, current, fresh, checks, true, now)->Err_0))
    } else if f.operation.replacement is Some && !claims_resumed {
        (f, Err(ReconnectDurabilityErrorV1::StaleAuthority))
    } else {
        (CompleteFlowView { authorization: Some(authorization), ..f }, Ok(()))
    }
}

/// The phase is one from which a later report cannot move the flow back.
pub open spec fn complete_phase_settled(phase: CompleteReconnectPhaseV1) -> bool {
    phase == CompleteReconnectPhaseV1::AwaitingAdoption || phase == CompleteReconnectPhaseV1::Adopted
}

/// What one report does to the flow: the reported operation must be
/// historically valid and exactly the flow's own; a PREPARE or COMMIT must
/// have an admissible write effect at its decision time and agree with what
/// was reported before.
pub open spec fn spec_complete_report(f: CompleteFlowView, c: CompletionView) -> (
    CompleteFlowView,
    Result<(), ReconnectDurabilityErrorV1>,
) {
    if spec_durability_historical(c.operation, c.checks) is Err {
        (f, Err(spec_durability_historical(c.operation, c.checks)->Err_0))
    } else if c.operation != f.operation {
        (f, Err(ReconnectDurabilityErrorV1::IdempotencyConflict))
    } else {
        match c.outcome {
            CompleteReconnectOutcomeV1::Prepared { decided_at } => if spec_complete_reconnect_effect(
                f.operation,
                f.checks,
                false,
                decided_at,
            ) is Err {
                (f, Err(spec_complete_reconnect_effect(f.operation, f.checks, false, decided_at)->Err_0))
            } else if f.phase == CompleteReconnectPhaseV1::Rejected || (f.receipt matches Some(r) && decided_at > r)
                || (f.prepared_at matches Some(p) && p != decided_at) {
                (f, Err(ReconnectDurabilityErrorV1::IdempotencyConflict))
            } else {
                (
                    CompleteFlowView {
                        prepared_at: Some(decided_at),
                        phase: if complete_phase_settled(f.phase) {
                            f.phase
                        } else {
                            CompleteReconnectPhaseV1::Prepared
                        },
                        ..f
                    },
                    Ok(()),
                )
            },
            CompleteReconnectOutcomeV1::Committed { decided_at } => if spec_complete_reconnect_effect(
                f.operation,
                f.checks,
                true,
                decided_at,
            ) is Err {
                (f, Err(spec_complete_reconnect_effect(f.operation, f.checks, true, decided_at)->Err_0))
            } else if f.phase == CompleteReconnectPhaseV1::Rejected || (f.prepared_at matches Some(p) && p
                > decided_at) || (f.receipt matches Some(r) && r != decided_at) {
                (f, Err(ReconnectDurabilityErrorV1::IdempotencyConflict))
            } else {
                (
                    CompleteFlowView {
                        receipt: Some(decided_at),
                        phase: if f.phase == CompleteReconnectPhaseV1::Adopted {
                            f.phase
                        } else {
                            CompleteReconnectPhaseV1::AwaitingAdoption
                        },
                        ..f
                    },
                    Ok(()),
                )
            },
            CompleteReconnectOutcomeV1::Rejected => if f.receipt is Some {
                (f, Err(ReconnectDurabilityErrorV1::IdempotencyConflict))
            } else {
                (CompleteFlowView { phase: CompleteReconnectPhaseV1::Rejected, ..f }, Ok(()))
            },
            CompleteReconnectOutcomeV1::Ambiguous => if complete_phase_settled(f.phase) || f.phase
                == CompleteReconnectPhaseV1::Rejected {
                (f, Ok(()))
            } else {
                (CompleteFlowView { phase: CompleteReconnectPhaseV1::ReconciliationRequired, ..f }, Ok(()))
            },
        }
    }
}

/// Accepting what the completion source answered: nothing before a request
/// was taken, nothing when no report is there yet, else the report.
pub open spec fn spec_complete_accept(
    f: CompleteFlowView,
    answer: Result<Option<CompletionView>, ReconnectDurabilityErrorV1>,
) -> (CompleteFlowView, Result<(), ReconnectDurabilityErrorV1>) {
    if f.phase == CompleteReconnectPhaseV1::Ready {
        (f, Err(ReconnectDurabilityErrorV1::InvalidPhase))
    } else {
        match answer {
            Err(e) => (f, Err(e)),
            Ok(None) => (f, Ok(())),
            Ok(Some(c)) => spec_complete_report(f, c),
        }
    }
}

pub open spec fn completion_answer_view(
    a: Result<Option<CompleteReconnectCompletionV1>, ReconnectDurabilityErrorV1>,
) -> Result<Option<CompletionView>, ReconnectDurabilityErrorV1> {
    match a {
        Err(e) => Err(e),
        Ok(None) => Ok(None),
        Ok(Some(c)) => Ok(Some(c@)),
    }
}

/// The proof owner's independently current state after the committed
/// activation.
pub struct CompleteReconnectProofCurrentV1 {
    pub owner: RuntimeScopeRefV1,
    pub revision: u64,
    pub accepted_revision: u64,
    pub observed_at: i64,
    pub session: GameSessionId,
    pub connection: ConnectionGeneration,
    pub transport: AuthenticatedTransportRefV1,
    pub proof_generation: u64,
}

/// The foundation helpers' answers an adoption needs: the current snapshot's
/// resource fields are bounded, its guard claims are consistent with its
/// session, and the credential's trust sources still hold.
#[derive(Debug, Clone, Copy)]
pub struct AdoptionChecksV1 {
    pub resources_bounded: bool,
    pub claims_valid: bool,
    pub sources: Result<(), ReconnectDurabilityErrorV1>,
}

/// The current proof owner has not activated exactly the reserved successor
/// after the receipt.
pub open spec fn proof_not_activated(p: CompleteReconnectProofCurrentV1, op: DurabilityOperationView, decided_at: i64, now: i64) -> bool {
    let t = op.recovery.original.proof_transition;
    ||| p.owner != t.owner
    ||| p.revision <= t.revision
    ||| p.accepted_revision != p.revision
    ||| p.observed_at < decided_at
    ||| p.observed_at > now
    ||| stale_at(p.observed_at, now)
    ||| p.session != t.successor_session
    ||| p.proof_generation != t.successor_generation
    ||| p.connection != t.candidate.connection_generation
    ||| p.transport != t.candidate.transport_ref
}

/// The current snapshot is not exactly what the committed write left.
pub open spec fn adoption_mismatch(c: CompleteSnapshotView, expected: EffectView, o: CompleteSnapshotView, decided_at: i64, now: i64) -> bool {
    ||| now < decided_at
    ||| c.observed_at > now
    ||| c.observed_at < decided_at
    ||| stale_at(c.observed_at, now)
    ||| c.source_authority != o.source_authority
    ||| c.source_revision < o.source_revision
    ||| c.accepted_source_revision != c.source_revision
    ||| !c.actor_present
    ||| !c.runtime_ready
    ||| c.session != expected.session
    ||| c.protection != expected.protection
    ||| c.budget != expected.budget
    ||| c.claims != expected.claims
    ||| c.loss != o.loss
    ||| c.loss_decided_at != o.loss_decided_at
    ||| c.account_presence != o.account_presence
    ||| c.recovery != o.recovery
    ||| c.placement_identity != o.placement_identity
    ||| c.placement_revision != o.placement_revision
    ||| c.fnd02 != o.fnd02
    ||| c.candidate != o.candidate
    ||| c.proof_transition != o.proof_transition
}

/// The adoption fence: a committed receipt, a current snapshot and proof
/// owner state that are exactly what the committed write left, trusted
/// sources, consistent claims and a current session authority; only then is
/// the operation's own controller installed.
pub open spec fn spec_complete_adopt(
    f: CompleteFlowView,
    current: Result<CompleteSnapshotView, ReconnectDurabilityErrorV1>,
    owner_state: Result<CompleteReconnectProofCurrentV1, ReconnectDurabilityErrorV1>,
    checks: AdoptionChecksV1,
    now: i64,
) -> (CompleteFlowView, Result<ControllerView, ReconnectDurabilityErrorV1>) {
    if !complete_phase_settled(f.phase) || f.receipt is None {
        (f, Err(ReconnectDurabilityErrorV1::InvalidPhase))
    } else if current is Err {
        (f, Err(current->Err_0))
    } else if !checks.resources_bounded {
        (f, Err(ReconnectDurabilityErrorV1::InvalidRecord))
    } else if owner_state is Err {
        (f, Err(owner_state->Err_0))
    } else if proof_not_activated(owner_state->Ok_0, f.operation, f.receipt->Some_0, now) {
        (f, Err(ReconnectDurabilityErrorV1::StaleAuthority))
    } else if checks.sources is Err {
        (f, Err(checks.sources->Err_0))
    } else if spec_complete_reconnect_effect(f.operation, f.checks, true, f.receipt->Some_0) is Err {
        (f, Err(spec_complete_reconnect_effect(f.operation, f.checks, true, f.receipt->Some_0)->Err_0))
    } else if adoption_mismatch(
        current->Ok_0,
        spec_complete_reconnect_effect(f.operation, f.checks, true, f.receipt->Some_0)->Ok_0,
        f.operation.recovery.original,
        f.receipt->Some_0,
        now,
    ) || !checks.claims_valid || current_authority_error(
        f.operation.recovery.identity.game_session_id,
        (current->Ok_0).session,
    ) is Some {
        (f, Err(ReconnectDurabilityErrorV1::StaleAuthority))
    } else {
        (CompleteFlowView { phase: CompleteReconnectPhaseV1::Adopted, ..f }, Ok(operation_controller(f.operation)))
    }
}

pub open spec fn snapshot_result_view(
    r: Result<CompleteReconnectSnapshotV1, ReconnectDurabilityErrorV1>,
) -> Result<CompleteSnapshotView, ReconnectDurabilityErrorV1> {
    match r {
        Ok(s) => Ok(s@),
        Err(e) => Err(e),
    }
}

impl CompleteReconnectFlowV1 {
    /// Begins a fresh write of the authorized operation, with the claim
    /// evidence of an early replacement.
    pub fn begin(
        authorization: CompleteReconnectAuthorizationV1,
        replacement: Option<CompleteReconnectClaimEvidenceV1>,
        checks: DurabilityChecksV1,
    ) -> (r: Result<Self, ReconnectDurabilityErrorV1>)
        ensures
            ({
                let op = DurabilityOperationView {
                    recovery: authorization@,
                    replacement: match replacement {
                        Some(c) => Some(c@),
                        None => None,
                    },
                };
                match r {
                    Ok(f) => spec_complete_start(op, checks, Some(authorization@)) == Ok::<
                        CompleteFlowView,
                        ReconnectDurabilityErrorV1,
                    >(f@),
                    Err(e) => spec_complete_start(op, checks, Some(authorization@)) == Err::<
                        CompleteFlowView,
                        ReconnectDurabilityErrorV1,
                    >(e),
                }
            }),
    {
        let operation = CompleteReconnectDurabilityOperationV1 {
            recovery: authorization.operation().duplicate(),
            replacement,
        };
        if let Err(e) = operation.validate_historical(checks) {
            return Err(e);
        }
        Ok(
            Self {
                operation,
                checks,
                authorization: Some(authorization),
                phase: CompleteReconnectPhaseV1::Ready,
                prepared_at: None,
                receipt: None,
            },
        )
    }

    /// Restores a flow from raw durable history: it holds no authorization
    /// and can only ask for exact reconciliation.
    pub fn restore(operation: CompleteReconnectDurabilityOperationV1, checks: DurabilityChecksV1) -> (r: Result<
        Self,
        ReconnectDurabilityErrorV1,
    >)
        ensures
            match r {
                Ok(f) => spec_complete_start(operation@, checks, None) == Ok::<CompleteFlowView, ReconnectDurabilityErrorV1>(f@),
                Err(e) => spec_complete_start(operation@, checks, None) == Err::<CompleteFlowView, ReconnectDurabilityErrorV1>(e),
            },
    {
        if let Err(e) = operation.validate_historical(checks) {
            return Err(e);
        }
        Ok(
            Self {
                operation,
                checks,
                authorization: None,
                phase: CompleteReconnectPhaseV1::ReconciliationRequired,
                prepared_at: None,
                receipt: None,
            },
        )
    }

    pub fn phase(&self) -> (r: CompleteReconnectPhaseV1)
        ensures
            r == self@.phase,
    {
        self.phase
    }

    pub fn operation(&self) -> (r: &CompleteReconnectDurabilityOperationV1)
        ensures
            r@ == self@.operation,
    {
        &self.operation
    }

    /// The decision time of the committed receipt, once there is one.
    pub fn receipt(&self) -> (r: Option<i64>)
        ensures
            r == self@.receipt,
    {
        self.receipt
    }

    pub fn take_request(&mut self, kind: CompleteReconnectRequestKindV1) -> (r: Result<
        CompleteReconnectRequestV1,
        ReconnectDurabilityErrorV1,
    >)
        ensures
            ({
                let (next, res) = spec_complete_take(old(self)@, kind);
                &&& next == final(self)@
                &&& match r {
                    Ok(q) => res == Ok::<RequestView, ReconnectDurabilityErrorV1>(q@),
                    Err(e) => res == Err::<RequestView, ReconnectDurabilityErrorV1>(e),
                }
            }),
    {
        let next = match (self.phase, kind) {
            (CompleteReconnectPhaseV1::Ready, CompleteReconnectRequestKindV1::Prepare) => {
                CompleteReconnectPhaseV1::PendingPrepare
            },
            (CompleteReconnectPhaseV1::Prepared, CompleteReconnectRequestKindV1::Commit) => {
                CompleteReconnectPhaseV1::PendingCommit
            },
            (CompleteReconnectPhaseV1::ReconciliationRequired, CompleteReconnectRequestKindV1::Reconcile) => {
                CompleteReconnectPhaseV1::PendingReconciliation
            },
            _ => return Err(ReconnectDurabilityErrorV1::InvalidPhase),
        };
        let reconcile = kind == CompleteReconnectRequestKindV1::Reconcile;
        if !reconcile && self.authorization.is_none() {
            return Err(ReconnectDurabilityErrorV1::InvalidPhase);
        }
        self.phase = next;
        let operation = self.operation.duplicate();
        if reconcile {
            Ok(CompleteReconnectRequestV1 { kind, operation, authorization: None })
        } else {
            let authorization = self.authorization.take();
            Ok(CompleteReconnectRequestV1 { kind, operation, authorization })
        }
    }

    /// Resumes a PREPARED write with a fresh authorization of the same
    /// operation, revalidated against what the source resolved at `now`;
    /// `claims_resumed` is whether the replacement claims could be resumed.
    pub fn resume_prepared(
        &mut self,
        authorization: CompleteReconnectAuthorizationV1,
        current: CompleteReconnectCurrentV1,
        fresh: Result<CompleteReconnectCredentialV1, ReconnectDurabilityErrorV1>,
        checks: CurrentChecksV1,
        claims_resumed: bool,
        now: i64,
    ) -> (r: Result<(), ReconnectDurabilityErrorV1>)
        ensures
            spec_complete_resume(old(self)@, authorization@, current@, credential_result_view(fresh), checks, claims_resumed, now)
                == (final(self)@, r),
    {
        if self.phase != CompleteReconnectPhaseV1::Prepared || !authorization.operation().same(&self.operation.recovery) {
            return Err(ReconnectDurabilityErrorV1::InvalidPhase);
        }
        if let Err(e) = authorization.validate_current(current, fresh, checks, true, now) {
            return Err(e);
        }
        if self.operation.replacement.is_some() && !claims_resumed {
            return Err(ReconnectDurabilityErrorV1::StaleAuthority);
        }
        self.authorization = Some(authorization);
        Ok(())
    }

    pub fn mark_ambiguous(&mut self) -> (r: Result<(), ReconnectDurabilityErrorV1>)
        ensures
            spec_complete_mark_ambiguous(old(self)@) == (final(self)@, r),
    {
        match self.phase {
            CompleteReconnectPhaseV1::PendingPrepare | CompleteReconnectPhaseV1::PendingCommit
            | CompleteReconnectPhaseV1::PendingReconciliation => {
                self.phase = CompleteReconnectPhaseV1::ReconciliationRequired;
                Ok(())
            },
            _ => Err(ReconnectDurabilityErrorV1::InvalidPhase),
        }
    }

    fn accept_report(&mut self, c: CompleteReconnectCompletionV1) -> (r: Result<(), ReconnectDurabilityErrorV1>)
        ensures
            spec_complete_report(old(self)@, c@) == (final(self)@, r),
    {
        if let Err(e) = c.operation.validate_historical(c.checks) {
            return Err(e);
        }
        if !c.operation.same(&self.operation) {
            return Err(ReconnectDurabilityErrorV1::IdempotencyConflict);
        }
        let settled = match self.phase {
            CompleteReconnectPhaseV1::AwaitingAdoption | CompleteReconnectPhaseV1::Adopted => true,
            _ => false,
        };
        let rejected = match self.phase {
            CompleteReconnectPhaseV1::Rejected => true,
            _ => false,
        };
        match c.outcome {
            CompleteReconnectOutcomeV1::Prepared { decided_at } => {
                if let Err(e) = complete_reconnect_effect(&self.operation, self.checks, false, decided_at) {
                    return Err(e);
                }
                let after_receipt = match self.receipt {
                    Some(r) => decided_at > r,
                    None => false,
                };
                let other_prepare = match self.prepared_at {
                    Some(p) => p != decided_at,
                    None => false,
                };
                if rejected || after_receipt || other_prepare {
                    return Err(ReconnectDurabilityErrorV1::IdempotencyConflict);
                }
                self.prepared_at = Some(decided_at);
                if !settled {
                    self.phase = CompleteReconnectPhaseV1::Prepared;
                }
                Ok(())
            },
            CompleteReconnectOutcomeV1::Committed { decided_at } => {
                if let Err(e) = complete_reconnect_effect(&self.operation, self.checks, true, decided_at) {
                    return Err(e);
                }
                let prepared_later = match self.prepared_at {
                    Some(p) => p > decided_at,
                    None => false,
                };
                let other_receipt = match self.receipt {
                    Some(r) => r != decided_at,
                    None => false,
                };
                if rejected || prepared_later || other_receipt {
                    return Err(ReconnectDurabilityErrorV1::IdempotencyConflict);
                }
                self.receipt = Some(decided_at);
                match self.phase {
                    CompleteReconnectPhaseV1::Adopted => {},
                    _ => {
                        self.phase = CompleteReconnectPhaseV1::AwaitingAdoption;
                    },
                }
                Ok(())
            },
            CompleteReconnectOutcomeV1::Rejected => {
                if self.receipt.is_some() {
                    return Err(ReconnectDurabilityErrorV1::IdempotencyConflict);
                }
                self.phase = CompleteReconnectPhaseV1::Rejected;
                Ok(())
            },
            CompleteReconnectOutcomeV1::Ambiguous => {
                if !settled && !rejected {
                    self.phase = CompleteReconnectPhaseV1::ReconciliationRequired;
                }
                Ok(())
            },
        }
    }

    /// Accepts what the completion source answered for this flow's operation.
    pub fn accept_completion(
        &mut self,
        answer: Result<Option<CompleteReconnectCompletionV1>, ReconnectDurabilityErrorV1>,
    ) -> (r: Result<(), ReconnectDurabilityErrorV1>)
        ensures
            spec_complete_accept(old(self)@, completion_answer_view(answer)) == (final(self)@, r),
    {
        if self.phase == CompleteReconnectPhaseV1::Ready {
            return Err(ReconnectDurabilityErrorV1::InvalidPhase);
        }
        match answer {
            Err(e) => Err(e),
            Ok(None) => Ok(()),
            Ok(Some(c)) => self.accept_report(c),
        }
    }

    fn proof_activated(&self, p: &CompleteReconnectProofCurrentV1, decided_at: i64, now: i64) -> (r: bool)
        ensures
            r == !proof_not_activated(*p, self@.operation, decided_at, now),
    {
        let t = &self.operation.recovery.original.proof_transition;
        !(!crate::admission::same_runtime_scope(p.owner, t.owner) || p.revision <= t.revision || p.accepted_revision
            != p.revision || p.observed_at < decided_at || p.observed_at > now || p.observed_at > i64::MAX
            - EVIDENCE_FRESHNESS_SECONDS_V1 || now > p.observed_at + EVIDENCE_FRESHNESS_SECONDS_V1 || p.session
            != t.successor_session || p.proof_generation != t.successor_generation || p.connection
            != t.candidate.connection_generation() || p.transport != t.candidate.transport_ref())
    }

    fn matches_committed(&self, c: &CompleteReconnectSnapshotV1, expected: &CompleteReconnectEffectV1, decided_at: i64, now: i64) -> (r: bool)
        ensures
            r == !adoption_mismatch(c@, expected@, self@.operation.recovery.original, decided_at, now),
    {
        proof {
            crate::durability::lemma_transport_obeys_concrete_eq();
        }
        let o = &self.operation.recovery.original;
        if now < decided_at || c.observed_at > now || c.observed_at < decided_at || c.observed_at > i64::MAX
            - EVIDENCE_FRESHNESS_SECONDS_V1 || now > c.observed_at + EVIDENCE_FRESHNESS_SECONDS_V1 {
            return false;
        }
        if !crate::admission::same_runtime_scope(c.source_authority, o.source_authority) || c.source_revision
            < o.source_revision || c.accepted_source_revision != c.source_revision || !c.actor_present
            || !c.runtime_ready {
            return false;
        }
        if !c.session.same(expected.session) || c.protection != expected.protection || !c.budget.same(&expected.budget)
            || !crate::complete_operation::same_changes(c.claims.as_slice(), expected.claims.as_slice()) {
            return false;
        }
        let placement_same = crate::bytes::same_bytes16(&c.placement_identity, &o.placement_identity);
        proof {
            if c@.placement_identity == o@.placement_identity {
                assert(forall|i: int| 0 <= i < 16 ==> c.placement_identity@[i] == o.placement_identity@[i]);
                assert(c.placement_identity =~= o.placement_identity);
            }
        }
        c.loss.same(&o.loss) && c.loss_decided_at == o.loss_decided_at && c.account_presence.same(&o.account_presence)
            && c.recovery.same(&o.recovery) && placement_same && c.placement_revision == o.placement_revision
            && c.fnd02.same(&o.fnd02) && c.candidate.same(o.candidate) && c.proof_transition.same(&o.proof_transition)
    }

    /// Adopts the committed winner through the one adoption fence against the
    /// independently current snapshot and proof owner state resolved now.
    pub fn adopt_current(
        &mut self,
        current: Result<CompleteReconnectSnapshotV1, ReconnectDurabilityErrorV1>,
        owner_state: Result<CompleteReconnectProofCurrentV1, ReconnectDurabilityErrorV1>,
        checks: AdoptionChecksV1,
        now: i64,
    ) -> (r: Result<CompleteReconnectControllerV1, ReconnectDurabilityErrorV1>)
        ensures
            ({
                let (next, res) = spec_complete_adopt(old(self)@, snapshot_result_view(current), owner_state, checks, now);
                &&& next == final(self)@
                &&& match r {
                    Ok(c) => res == Ok::<ControllerView, ReconnectDurabilityErrorV1>(c@),
                    Err(e) => res == Err::<ControllerView, ReconnectDurabilityErrorV1>(e),
                }
            }),
    {
        match self.phase {
            CompleteReconnectPhaseV1::AwaitingAdoption | CompleteReconnectPhaseV1::Adopted => {},
            _ => return Err(ReconnectDurabilityErrorV1::InvalidPhase),
        }
        let decided_at = match self.receipt {
            None => return Err(ReconnectDurabilityErrorV1::InvalidPhase),
            Some(d) => d,
        };
        let current = match current {
            Err(e) => return Err(e),
            Ok(c) => c,
        };
        if !checks.resources_bounded {
            return Err(ReconnectDurabilityErrorV1::InvalidRecord);
        }
        let activation = match owner_state {
            Err(e) => return Err(e),
            Ok(p) => p,
        };
        if !self.proof_activated(&activation, decided_at, now) {
            return Err(ReconnectDurabilityErrorV1::StaleAuthority);
        }
        if let Err(e) = checks.sources {
            return Err(e);
        }
        let expected = match complete_reconnect_effect(&self.operation, self.checks, true, decided_at) {
            Err(e) => return Err(e),
            Ok(x) => x,
        };
        if !self.matches_committed(&current, &expected, decided_at, now) || !checks.claims_valid {
            return Err(ReconnectDurabilityErrorV1::StaleAuthority);
        }
        let identity = &self.operation.recovery.identity;
        if validate_current_authority(identity.game_session_id(), current.session).is_err() {
            return Err(ReconnectDurabilityErrorV1::StaleAuthority);
        }
        self.phase = CompleteReconnectPhaseV1::Adopted;
        let candidate = self.operation.recovery.original.candidate;
        Ok(
            CompleteReconnectControllerV1 {
                session: identity.game_session_id(),
                transport: candidate.transport_ref(),
                generation: candidate.connection_generation(),
            },
        )
    }
}

} // verus!
