//! Durable control loss decided by the owning runtime: authorization, the
//! final revalidation under the same fences, and the write's completion.
use vstd::prelude::*;
use crate::admission::{
    current_authority_error, validate_current_authority, same_runtime_scope, ControlLossEpochRefV1,
    GameSessionAuthoritySnapshot, GameSessionAuthoritySnapshotView, GameSessionState,
    ReconnectDurabilityErrorV1, RuntimeScopeRefV1,
};
use crate::budget::{
    committed_on, protection_valid, RecoveryEpochStateV1, RecoveryProtectionContinuityV1,
    RecoveryProtectionUseV1, RetainedRecoveryBudgetV1, RetainedRecoveryBudgetView,
};
use crate::bytes::same_bytes16;
use crate::durability::{AccountPresenceClaimV1, AccountPresenceClaimView, AuthenticatedTransportRefV1};
use crate::ids::GameSessionId;

verus! {

broadcast use crate::ids::group_id_views, crate::durability::lemma_transport_view,
    crate::admission::lemma_control_loss_epoch_view, crate::admission::lemma_fresh_commit_view;

/// Classification from the owning runtime, never a caller supplied loss flag.
#[derive(Debug, Clone, Copy, PartialEq, Eq, Structural)]
pub enum ControlLossCauseV1 {
    AuthoritativeUnexpectedLoss,
    HealthyController,
    SocketClosedOnly,
    ProcessRestartOnly,
    GracefulLogout,
    HealthyMigration,
    Suspected,
}

/// Complete prior continuity: a fresh origin, or resumed retained history.
#[derive(Debug, Clone, PartialEq, Eq)]
pub enum ControlLossHistoryV1 {
    FreshOrigin,
    Resumed {
        budget: RetainedRecoveryBudgetV1,
        original_grace_deadline: i64,
        protection: RecoveryProtectionContinuityV1,
    },
}

pub enum ControlLossHistoryView {
    FreshOrigin,
    Resumed {
        budget: RetainedRecoveryBudgetView,
        original_grace_deadline: i64,
        protection: RecoveryProtectionContinuityV1,
    },
}

impl View for ControlLossHistoryV1 {
    type V = ControlLossHistoryView;

    open spec fn view(&self) -> ControlLossHistoryView {
        match self {
            ControlLossHistoryV1::FreshOrigin => ControlLossHistoryView::FreshOrigin,
            ControlLossHistoryV1::Resumed { budget, original_grace_deadline, protection } => ControlLossHistoryView::Resumed {
                budget: budget@,
                original_grace_deadline: *original_grace_deadline,
                protection: *protection,
            },
        }
    }
}

impl ControlLossHistoryV1 {
    fn duplicate(&self) -> (r: Self)
        ensures
            r@ == self@,
    {
        match self {
            ControlLossHistoryV1::FreshOrigin => ControlLossHistoryV1::FreshOrigin,
            ControlLossHistoryV1::Resumed { budget, original_grace_deadline, protection } => ControlLossHistoryV1::Resumed {
                budget: budget.duplicate(),
                original_grace_deadline: *original_grace_deadline,
                protection: *protection,
            },
        }
    }

    fn same(&self, other: &Self) -> (r: bool)
        ensures
            r == (self@ == other@),
    {
        match (self, other) {
            (ControlLossHistoryV1::FreshOrigin, ControlLossHistoryV1::FreshOrigin) => true,
            (
                ControlLossHistoryV1::Resumed { budget: b1, original_grace_deadline: d1, protection: p1 },
                ControlLossHistoryV1::Resumed { budget: b2, original_grace_deadline: d2, protection: p2 },
            ) => b1.same(b2) && *d1 == *d2 && *p1 == *p2,
            _ => false,
        }
    }
}

/// An inert observation of the owning runtime; holding one grants nothing.
#[derive(Debug, Clone, PartialEq, Eq)]
pub struct ControlLossObservationV1 {
    pub source_authority: RuntimeScopeRefV1,
    pub source_revision: u64,
    pub accepted_source_revision: u64,
    pub decision_identity: ControlLossEpochRefV1,
    pub accepted_decision_identity: ControlLossEpochRefV1,
    pub observed_at: i64,
    pub session: GameSessionAuthoritySnapshot<AuthenticatedTransportRefV1>,
    pub account_presence: AccountPresenceClaimV1,
    pub placement_identity: [u8; 16],
    pub placement_revision: u64,
    pub actor_present: bool,
    pub runtime_ready: bool,
    pub cause: ControlLossCauseV1,
    pub loss_epoch: ControlLossEpochRefV1,
    pub loss_origin: i64,
    pub original_grace_deadline: i64,
    pub history: ControlLossHistoryV1,
    pub protection: RecoveryProtectionContinuityV1,
}

pub struct ControlLossObservationView {
    pub source_authority: RuntimeScopeRefV1,
    pub source_revision: u64,
    pub accepted_source_revision: u64,
    pub decision_identity: ControlLossEpochRefV1,
    pub accepted_decision_identity: ControlLossEpochRefV1,
    pub observed_at: i64,
    pub session: GameSessionAuthoritySnapshotView<AuthenticatedTransportRefV1>,
    pub account_presence: AccountPresenceClaimView,
    pub placement_identity: Seq<u8>,
    pub placement_revision: u64,
    pub actor_present: bool,
    pub runtime_ready: bool,
    pub cause: ControlLossCauseV1,
    pub loss_epoch: ControlLossEpochRefV1,
    pub loss_origin: i64,
    pub original_grace_deadline: i64,
    pub history: ControlLossHistoryView,
    pub protection: RecoveryProtectionContinuityV1,
}

impl View for ControlLossObservationV1 {
    type V = ControlLossObservationView;

    open spec fn view(&self) -> ControlLossObservationView {
        ControlLossObservationView {
            source_authority: self.source_authority,
            source_revision: self.source_revision,
            accepted_source_revision: self.accepted_source_revision,
            decision_identity: self.decision_identity,
            accepted_decision_identity: self.accepted_decision_identity,
            observed_at: self.observed_at,
            session: self.session@,
            account_presence: self.account_presence@,
            placement_identity: self.placement_identity@,
            placement_revision: self.placement_revision,
            actor_present: self.actor_present,
            runtime_ready: self.runtime_ready,
            cause: self.cause,
            loss_epoch: self.loss_epoch,
            loss_origin: self.loss_origin,
            original_grace_deadline: self.original_grace_deadline,
            history: self.history@,
            protection: self.protection,
        }
    }
}

/// The observation contradicts itself or does not show an authoritative
/// unexpected loss of the exact current controller at `now`.
pub open spec fn observation_stale(o: ControlLossObservationView, now: i64) -> bool {
    let s = o.session;
    ||| o.source_authority != s.current_runtime_scope
    ||| o.source_revision == 0
    ||| o.source_revision != o.accepted_source_revision
    ||| o.decision_identity != o.loss_epoch
    ||| o.decision_identity != o.accepted_decision_identity
    ||| o.observed_at < 0
    ||| o.observed_at > now
    ||| o.loss_origin < 0
    ||| o.loss_origin > o.observed_at
    ||| o.original_grace_deadline <= o.loss_origin
    ||| !o.actor_present
    ||| !o.runtime_ready
    ||| crate::bytes::all_zero(o.placement_identity)
    ||| o.placement_revision == 0
    ||| o.cause != ControlLossCauseV1::AuthoritativeUnexpectedLoss
    ||| s.session_state != GameSessionState::Active
    ||| s.current_transport is None
    ||| o.account_presence.character_id != s.commit.character_id
    ||| current_authority_error(s.commit.game_session_id, s) is Some
}

/// The retained history does not continue the current session exactly.
pub open spec fn history_stale(o: ControlLossObservationView) -> bool {
    let s = o.session;
    match o.history {
        ControlLossHistoryView::FreshOrigin => s.current_control_loss_epoch is Some
            || s.current_original_grace_deadline is Some || s.current_connection_generation
            != s.commit.connection_generation || s.current_transport != Some(s.commit.initial_transport)
            || o.protection.usage is Activated,
        ControlLossHistoryView::Resumed { budget, original_grace_deadline, protection } => budget.state
            != RecoveryEpochStateV1::Restored || budget.epoch@ >= o.loss_epoch@
            || s.current_control_loss_epoch != Some(budget.epoch) || s.current_original_grace_deadline
            != Some(original_grace_deadline) || original_grace_deadline <= 0 || !committed_on(
            budget.entries,
            s.current_transport,
        ) || o.protection != protection,
    }
}

/// Whether an observation authorizes a control loss at `now`, and if not why.
pub open spec fn observation_result(o: ControlLossObservationView, now: i64) -> Result<(), ReconnectDurabilityErrorV1> {
    if observation_stale(o, now) {
        Err(ReconnectDurabilityErrorV1::StaleAuthority)
    } else if !protection_valid(o.protection, o.loss_origin) {
        Err(ReconnectDurabilityErrorV1::InvalidRecord)
    } else if history_stale(o) {
        Err(ReconnectDurabilityErrorV1::StaleAuthority)
    } else if o.history matches ControlLossHistoryView::Resumed { protection, .. } && !protection_valid(
        protection,
        o.loss_origin,
    ) {
        Err(ReconnectDurabilityErrorV1::InvalidRecord)
    } else {
        Ok(())
    }
}

impl ControlLossObservationV1 {
    /// Whether this observation authorizes a control loss at `now`.
    pub fn validate(&self, now: i64) -> (r: Result<(), ReconnectDurabilityErrorV1>)
        ensures
            r == observation_result(self@, now),
    {
        let stale = ReconnectDurabilityErrorV1::StaleAuthority;
        let session = self.session;
        let committed = session.commit();
        if !same_runtime_scope(self.source_authority, session.current_runtime_scope()) || self.source_revision == 0
            || self.source_revision != self.accepted_source_revision || self.decision_identity != self.loss_epoch
            || self.decision_identity != self.accepted_decision_identity || self.observed_at < 0
            || self.observed_at > now || self.loss_origin < 0 || self.loss_origin > self.observed_at
            || self.original_grace_deadline <= self.loss_origin || !self.actor_present || !self.runtime_ready
            || crate::bytes::is_all_zero(self.placement_identity.as_slice()) || self.placement_revision == 0
            || self.cause != ControlLossCauseV1::AuthoritativeUnexpectedLoss || session.session_state()
            != GameSessionState::Active || session.current_transport().is_none()
            || self.account_presence.character_id() != committed.character_id() {
            return Err(stale);
        }
        if validate_current_authority(committed.game_session_id(), session).is_err() {
            return Err(stale);
        }
        if let Err(e) = self.protection.validate(self.loss_origin) {
            return Err(e);
        }
        proof {
            crate::durability::lemma_transport_obeys_concrete_eq();
        }
        match &self.history {
            ControlLossHistoryV1::FreshOrigin => {
                let activated = match self.protection.usage {
                    RecoveryProtectionUseV1::Activated { .. } => true,
                    _ => false,
                };
                let transport_is_initial = match session.current_transport() {
                    Some(t) => t == committed.initial_transport(),
                    None => false,
                };
                if session.current_control_loss_epoch().is_some()
                    || session.current_original_grace_deadline().is_some()
                    || session.current_connection_generation() != committed.connection_generation()
                    || !transport_is_initial || activated {
                    return Err(stale);
                }
            },
            ControlLossHistoryV1::Resumed { budget, original_grace_deadline, protection } => {
                let epoch_matches = match session.current_control_loss_epoch() {
                    Some(e) => e == budget.epoch(),
                    None => false,
                };
                let deadline_matches = match session.current_original_grace_deadline() {
                    Some(d) => d == *original_grace_deadline,
                    None => false,
                };
                if budget.state() != RecoveryEpochStateV1::Restored || budget.epoch().get() >= self.loss_epoch.get()
                    || !epoch_matches || !deadline_matches || *original_grace_deadline <= 0
                    || !budget.has_committed_on(session.current_transport()) || self.protection != *protection {
                    return Err(stale);
                }
                if let Err(e) = protection.validate(self.loss_origin) {
                    return Err(e);
                }
            },
        }
        Ok(())
    }

    /// An identical copy of this observation.
    pub fn duplicate(&self) -> (r: Self)
        ensures
            r@ == self@,
    {
        Self {
            source_authority: self.source_authority,
            source_revision: self.source_revision,
            accepted_source_revision: self.accepted_source_revision,
            decision_identity: self.decision_identity,
            accepted_decision_identity: self.accepted_decision_identity,
            observed_at: self.observed_at,
            session: self.session,
            account_presence: self.account_presence.duplicate(),
            placement_identity: self.placement_identity,
            placement_revision: self.placement_revision,
            actor_present: self.actor_present,
            runtime_ready: self.runtime_ready,
            cause: self.cause,
            loss_epoch: self.loss_epoch,
            loss_origin: self.loss_origin,
            original_grace_deadline: self.original_grace_deadline,
            history: self.history.duplicate(),
            protection: self.protection,
        }
    }

    /// Whether two observations record the same decision, apart from when the
    /// source revision and observation time were read.
    fn same_decision(&self, other: &Self) -> (r: bool)
        ensures
            r == (ControlLossObservationView {
                source_revision: other@.source_revision,
                accepted_source_revision: other@.accepted_source_revision,
                observed_at: other@.observed_at,
                ..self@
            } == other@),
    {
        proof {
            crate::durability::lemma_transport_obeys_concrete_eq();
        }
        let placement_same = same_bytes16(&self.placement_identity, &other.placement_identity);
        proof {
            broadcast use vstd::array::group_array_axioms;

            if self.placement_identity@ == other.placement_identity@ {
                assert(forall|i: int| 0 <= i < 16 ==> self.placement_identity[i] == other.placement_identity[i]);
                assert(self.placement_identity =~= other.placement_identity);
            }
        }
        same_runtime_scope(self.source_authority, other.source_authority) && self.decision_identity
            == other.decision_identity && self.accepted_decision_identity == other.accepted_decision_identity
            && self.session.same(other.session) && self.account_presence.same(&other.account_presence)
            && placement_same && self.placement_revision == other.placement_revision && self.actor_present
            == other.actor_present && self.runtime_ready == other.runtime_ready && self.cause == other.cause
            && self.loss_epoch == other.loss_epoch && self.loss_origin == other.loss_origin
            && self.original_grace_deadline == other.original_grace_deadline && self.history.same(&other.history)
            && self.protection == other.protection
    }
}

/// A registered owning runtime independently resolves the current session,
/// controller, loss decision and complete retained continuity.
///
/// What an implementation returns is never trusted: every observation is
/// validated before and again at the final write boundary.
pub trait ControlLossSourceV1 {
    fn resolve_loss(&self, session: GameSessionId, now: i64) -> Result<ControlLossObservationV1, ReconnectDurabilityErrorV1>;
}

/// Immutable original operation. This is history, not an authorization token.
#[derive(Debug, Clone, PartialEq, Eq)]
pub struct ControlLossOperationV1 {
    pub version: u16,
    pub observation: ControlLossObservationV1,
    pub authorized_at: i64,
}

pub struct ControlLossOperationView {
    pub version: u16,
    pub observation: ControlLossObservationView,
    pub authorized_at: i64,
}

impl View for ControlLossOperationV1 {
    type V = ControlLossOperationView;

    open spec fn view(&self) -> ControlLossOperationView {
        ControlLossOperationView {
            version: self.version,
            observation: self.observation@,
            authorized_at: self.authorized_at,
        }
    }
}

/// A stored operation is a valid first version whose observation
/// authorized it when it was authorized.
pub open spec fn operation_result(op: ControlLossOperationView) -> Result<(), ReconnectDurabilityErrorV1> {
    if op.version != 1 {
        Err(ReconnectDurabilityErrorV1::InvalidRecord)
    } else {
        observation_result(op.observation, op.authorized_at)
    }
}

impl ControlLossOperationV1 {
    pub(crate) fn validate_historical(&self) -> (r: Result<(), ReconnectDurabilityErrorV1>)
        ensures
            r == operation_result(self@),
    {
        if self.version != 1 {
            return Err(ReconnectDurabilityErrorV1::InvalidRecord);
        }
        self.observation.validate(self.authorized_at)
    }

    pub(crate) fn duplicate(&self) -> (r: Self)
        ensures
            r@ == self@,
    {
        Self { version: self.version, observation: self.observation.duplicate(), authorized_at: self.authorized_at }
    }

    pub(crate) fn same(&self, other: &Self) -> (r: bool)
        ensures
            r == (self@ == other@),
    {
        self.version == other.version && self.authorized_at == other.authorized_at
            && self.observation.source_revision == other.observation.source_revision
            && self.observation.accepted_source_revision == other.observation.accepted_source_revision
            && self.observation.observed_at == other.observation.observed_at
            && self.observation.same_decision(&other.observation)
    }
}

/// Capability to apply one validated control loss; only an owning source's
/// observation can produce it.
#[derive(Debug)]
pub struct ControlLossAuthorizationV1 {
    operation: ControlLossOperationV1,
}

impl View for ControlLossAuthorizationV1 {
    type V = ControlLossOperationView;

    closed spec fn view(&self) -> ControlLossOperationView {
        self.operation@
    }
}

/// Authorization from what the owning source resolved for `session` at `now`.
pub open spec fn spec_authorize(
    resolved: Result<ControlLossObservationView, ReconnectDurabilityErrorV1>,
    session: GameSessionId,
    now: i64,
) -> Result<ControlLossOperationView, ReconnectDurabilityErrorV1> {
    match resolved {
        Err(e) => Err(e),
        Ok(o) => match observation_result(o, now) {
            Err(e) => Err(e),
            Ok(()) => if o.session.commit.game_session_id != session {
                Err(ReconnectDurabilityErrorV1::StaleAuthority)
            } else {
                Ok(ControlLossOperationView { version: 1, observation: o, authorized_at: now })
            },
        },
    }
}

/// The exact write a final revalidation permits: the session made
/// reconnectable without a controller, carrying the loss epoch.
pub struct ControlLossEffectView {
    pub operation: ControlLossOperationView,
    pub successor: GameSessionAuthoritySnapshotView<AuthenticatedTransportRefV1>,
}

/// The final revalidation of an authorized operation against what the source
/// resolves now: the same decision may only be read again later.
pub open spec fn spec_validate_final(
    op: ControlLossOperationView,
    resolved: Result<ControlLossObservationView, ReconnectDurabilityErrorV1>,
    now: i64,
) -> Result<ControlLossEffectView, ReconnectDurabilityErrorV1> {
    let original = op.observation;
    match resolved {
        Err(e) => Err(e),
        Ok(current) => match observation_result(current, now) {
            Err(e) => Err(e),
            Ok(()) => if now < op.authorized_at || current.source_revision < original.source_revision
                || current.observed_at < original.observed_at {
                Err(ReconnectDurabilityErrorV1::StaleAuthority)
            } else if (ControlLossObservationView {
                source_revision: original.source_revision,
                accepted_source_revision: original.accepted_source_revision,
                observed_at: original.observed_at,
                ..current
            }) != original {
                Err(ReconnectDurabilityErrorV1::StaleAuthority)
            } else {
                Ok(
                    ControlLossEffectView {
                        operation: op,
                        successor: GameSessionAuthoritySnapshotView {
                            session_state: GameSessionState::Reconnectable,
                            current_transport: None,
                            current_control_loss_epoch: Some(original.loss_epoch),
                            current_original_grace_deadline: Some(original.original_grace_deadline),
                            ..original.session
                        },
                    },
                )
            },
        },
    }
}

/// The exact bounded write projection a final revalidation produced.
#[derive(Debug, Clone, PartialEq, Eq)]
pub struct ControlLossEffectV1 {
    operation: ControlLossOperationV1,
    successor: GameSessionAuthoritySnapshot<AuthenticatedTransportRefV1>,
}

impl View for ControlLossEffectV1 {
    type V = ControlLossEffectView;

    closed spec fn view(&self) -> ControlLossEffectView {
        ControlLossEffectView { operation: self.operation@, successor: self.successor@ }
    }
}

/// What the source resolved, by value.
pub open spec fn resolved_view(
    r: Result<ControlLossObservationV1, ReconnectDurabilityErrorV1>,
) -> Result<ControlLossObservationView, ReconnectDurabilityErrorV1> {
    match r {
        Ok(o) => Ok(o@),
        Err(e) => Err(e),
    }
}

pub open spec fn effect_result_view(r: Result<ControlLossEffectV1, ReconnectDurabilityErrorV1>) -> Result<ControlLossEffectView, ReconnectDurabilityErrorV1> {
    match r {
        Ok(e) => Ok(e@),
        Err(e) => Err(e),
    }
}

impl ControlLossEffectV1 {
    pub fn operation(&self) -> (r: &ControlLossOperationV1)
        ensures
            r@ == self@.operation,
    {
        &self.operation
    }

    pub fn predecessor(&self) -> (r: GameSessionAuthoritySnapshot<AuthenticatedTransportRefV1>)
        ensures
            r@ == self@.operation.observation.session,
    {
        self.operation.observation.session
    }

    pub fn successor(&self) -> (r: GameSessionAuthoritySnapshot<AuthenticatedTransportRefV1>)
        ensures
            r@ == self@.successor,
    {
        self.successor
    }
}

impl ControlLossAuthorizationV1 {
    fn authorize_resolved(
        resolved: Result<ControlLossObservationV1, ReconnectDurabilityErrorV1>,
        session: GameSessionId,
        now: i64,
    ) -> (r: Result<Self, ReconnectDurabilityErrorV1>)
        ensures
            spec_authorize(
                match resolved {
                    Ok(o) => Ok(o@),
                    Err(e) => Err(e),
                },
                session,
                now,
            ) == (match r {
                Ok(a) => Ok(a@),
                Err(e) => Err(e),
            }),
    {
        let observation = match resolved {
            Ok(o) => o,
            Err(e) => return Err(e),
        };
        if let Err(e) = observation.validate(now) {
            return Err(e);
        }
        if observation.session.commit().game_session_id() != session {
            return Err(ReconnectDurabilityErrorV1::StaleAuthority);
        }
        Ok(Self { operation: ControlLossOperationV1 { version: 1, observation, authorized_at: now } })
    }

    /// Authorizes the control loss that the owning source resolves for
    /// `session` at `now`, if that observation is valid.
    pub fn authorize<S: ControlLossSourceV1>(source: &S, session: GameSessionId, now: i64) -> (r: Result<
        Self,
        ReconnectDurabilityErrorV1,
    >)
        ensures
            exists|resolved: Result<ControlLossObservationView, ReconnectDurabilityErrorV1>|
                #[trigger] spec_authorize(resolved, session, now) == (match r {
                    Ok(a) => Ok(a@),
                    Err(e) => Err(e),
                }),
    {
        let resolved = source.resolve_loss(session, now);
        let ghost answer = resolved_view(resolved);
        let r = Self::authorize_resolved(resolved, session, now);
        assert(spec_authorize(answer, session, now) == (match r {
            Ok(a) => Ok(a@),
            Err(e) => Err(e),
        }));
        r
    }

    pub fn operation(&self) -> (r: &ControlLossOperationV1)
        ensures
            r@ == self@,
    {
        &self.operation
    }

    fn validate_resolved(
        &self,
        resolved: Result<ControlLossObservationV1, ReconnectDurabilityErrorV1>,
        now: i64,
    ) -> (r: Result<ControlLossEffectV1, ReconnectDurabilityErrorV1>)
        ensures
            spec_validate_final(
                self@,
                match resolved {
                    Ok(o) => Ok(o@),
                    Err(e) => Err(e),
                },
                now,
            ) == effect_result_view(r),
    {
        let original = &self.operation.observation;
        let current = match resolved {
            Ok(o) => o,
            Err(e) => return Err(e),
        };
        if let Err(e) = current.validate(now) {
            return Err(e);
        }
        if now < self.operation.authorized_at || current.source_revision < original.source_revision
            || current.observed_at < original.observed_at {
            return Err(ReconnectDurabilityErrorV1::StaleAuthority);
        }
        if !current.same_decision(original) {
            return Err(ReconnectDurabilityErrorV1::StaleAuthority);
        }
        let successor = original.session.with_control_loss_applied(
            original.loss_epoch,
            original.original_grace_deadline,
        );
        Ok(ControlLossEffectV1 { operation: self.operation.duplicate(), successor })
    }

    /// Pure final predicate for the adapter's locked atomic boundary: the
    /// source must still resolve exactly the authorized decision.
    pub fn validate_final<S: ControlLossSourceV1>(&self, source: &S, now: i64) -> (r: Result<
        ControlLossEffectV1,
        ReconnectDurabilityErrorV1,
    >)
        ensures
            exists|resolved: Result<ControlLossObservationView, ReconnectDurabilityErrorV1>|
                #[trigger] spec_validate_final(self@, resolved, now) == effect_result_view(r),
    {
        let resolved = source.resolve_loss(self.operation.observation.session.commit().game_session_id(), now);
        let ghost answer = resolved_view(resolved);
        let r = self.validate_resolved(resolved, now);
        assert(spec_validate_final(self@, answer, now) == effect_result_view(r));
        r
    }
}

/// A live adapter request, taken once from an authorized flow.
#[derive(Debug)]
pub struct ControlLossRequestV1 {
    authorization: ControlLossAuthorizationV1,
}

impl View for ControlLossRequestV1 {
    type V = ControlLossOperationView;

    closed spec fn view(&self) -> ControlLossOperationView {
        self.authorization@
    }
}

impl ControlLossRequestV1 {
    pub fn operation(&self) -> (r: &ControlLossOperationV1)
        ensures
            r@ == self@,
    {
        self.authorization.operation()
    }

    pub fn validate_final<S: ControlLossSourceV1>(&self, source: &S, now: i64) -> (r: Result<
        ControlLossEffectV1,
        ReconnectDurabilityErrorV1,
    >)
        ensures
            exists|resolved: Result<ControlLossObservationView, ReconnectDurabilityErrorV1>|
                #[trigger] spec_validate_final(self@, resolved, now) == effect_result_view(r),
    {
        let r = self.authorization.validate_final(source, now);
        proof {
            let w = choose|w: Result<ControlLossObservationView, ReconnectDurabilityErrorV1>|
                #[trigger] spec_validate_final(self.authorization@, w, now) == effect_result_view(r);
            assert(spec_validate_final(self@, w, now) == effect_result_view(r));
        }
        r
    }
}

#[derive(Debug, Clone, Copy, PartialEq, Eq, Structural)]
pub enum ControlLossOutcomeV1 {
    Committed { decided_at: i64 },
    Rejected,
    Ambiguous,
}

/// Historical report of what became of a control-loss write.
#[derive(Debug, Clone, PartialEq, Eq)]
pub struct ControlLossCompletionV1 {
    pub operation: ControlLossOperationV1,
    pub outcome: ControlLossOutcomeV1,
}

/// A registered completion source reports what became of the write.
///
/// What an implementation returns is never trusted: a report for another
/// operation, or one that contradicts a recorded disposition, is refused.
pub trait ControlLossCompletionSourceV1 {
    fn take_loss_completion(&mut self, operation: &ControlLossOperationV1) -> Result<
        Option<ControlLossCompletionV1>,
        ReconnectDurabilityErrorV1,
    >;
}

/// Inert original disposition of a committed control loss.
#[derive(Debug, Clone, PartialEq, Eq)]
pub struct ControlLossReceiptV1 {
    operation: ControlLossOperationV1,
    decided_at: i64,
}

pub struct ControlLossReceiptView {
    pub operation: ControlLossOperationView,
    pub decided_at: i64,
}

impl View for ControlLossReceiptV1 {
    type V = ControlLossReceiptView;

    closed spec fn view(&self) -> ControlLossReceiptView {
        ControlLossReceiptView { operation: self.operation@, decided_at: self.decided_at }
    }
}

impl ControlLossReceiptV1 {
    pub fn operation(&self) -> (r: &ControlLossOperationV1)
        ensures
            r@ == self@.operation,
    {
        &self.operation
    }

    pub fn decided_at(&self) -> (r: i64)
        ensures
            r == self@.decided_at,
    {
        self.decided_at
    }
}

#[derive(Debug, Clone, Copy, PartialEq, Eq, Structural)]
pub enum ControlLossPhaseV1 {
    Ready,
    Pending,
    ReconciliationRequired,
    Completed,
    Rejected,
}

/// The life of one control-loss write, from authorization to its disposition.
#[derive(Debug)]
pub struct ControlLossFlowV1 {
    operation: ControlLossOperationV1,
    authorization: Option<ControlLossAuthorizationV1>,
    phase: ControlLossPhaseV1,
    receipt: Option<ControlLossReceiptV1>,
}

pub struct ControlLossFlowView {
    pub operation: ControlLossOperationView,
    pub authorization: Option<ControlLossOperationView>,
    pub phase: ControlLossPhaseV1,
    pub receipt: Option<ControlLossReceiptView>,
}

impl View for ControlLossFlowV1 {
    type V = ControlLossFlowView;

    closed spec fn view(&self) -> ControlLossFlowView {
        ControlLossFlowView {
            operation: self.operation@,
            authorization: match self.authorization {
                Some(a) => Some(a@),
                None => None,
            },
            phase: self.phase,
            receipt: match self.receipt {
                Some(r) => Some(r@),
                None => None,
            },
        }
    }
}

/// Taking the single live request out of a flow that is ready.
pub open spec fn spec_take_request(f: ControlLossFlowView) -> (ControlLossFlowView, Result<ControlLossOperationView, ReconnectDurabilityErrorV1>) {
    if f.phase != ControlLossPhaseV1::Ready {
        (f, Err(ReconnectDurabilityErrorV1::InvalidPhase))
    } else {
        match f.authorization {
            None => (f, Err(ReconnectDurabilityErrorV1::InvalidPhase)),
            Some(a) => (
                ControlLossFlowView { authorization: None, phase: ControlLossPhaseV1::Pending, ..f },
                Ok(a),
            ),
        }
    }
}

/// Classifying the reported completion, given what the source reported.
/// Exact repeated reports keep the disposition; contradicting ones are refused.
pub open spec fn spec_accept_completion(
    f: ControlLossFlowView,
    reported: Result<Option<(ControlLossOperationView, ControlLossOutcomeV1)>, ReconnectDurabilityErrorV1>,
) -> (ControlLossFlowView, Result<(), ReconnectDurabilityErrorV1>) {
    if f.phase == ControlLossPhaseV1::Ready {
        (f, Err(ReconnectDurabilityErrorV1::InvalidPhase))
    } else {
        match reported {
            Err(e) => (f, Err(e)),
            Ok(None) => (f, Ok(())),
            Ok(Some((operation, outcome))) => if operation != f.operation {
                (f, Err(ReconnectDurabilityErrorV1::IdempotencyConflict))
            } else {
                match outcome {
                    ControlLossOutcomeV1::Committed { decided_at } => {
                        let receipt = ControlLossReceiptView { operation: f.operation, decided_at };
                        if decided_at < f.operation.authorized_at || f.phase == ControlLossPhaseV1::Rejected {
                            (f, Err(ReconnectDurabilityErrorV1::IdempotencyConflict))
                        } else if f.receipt matches Some(prior) && prior != receipt {
                            (f, Err(ReconnectDurabilityErrorV1::IdempotencyConflict))
                        } else {
                            (
                                ControlLossFlowView {
                                    receipt: Some(receipt),
                                    phase: ControlLossPhaseV1::Completed,
                                    ..f
                                },
                                Ok(()),
                            )
                        }
                    },
                    ControlLossOutcomeV1::Rejected => if f.phase == ControlLossPhaseV1::Completed {
                        (f, Err(ReconnectDurabilityErrorV1::IdempotencyConflict))
                    } else {
                        (ControlLossFlowView { phase: ControlLossPhaseV1::Rejected, ..f }, Ok(()))
                    },
                    ControlLossOutcomeV1::Ambiguous => if f.phase == ControlLossPhaseV1::Completed || f.phase
                        == ControlLossPhaseV1::Rejected {
                        (f, Ok(()))
                    } else {
                        (ControlLossFlowView { phase: ControlLossPhaseV1::ReconciliationRequired, ..f }, Ok(()))
                    },
                }
            },
        }
    }
}

pub open spec fn reported_view(
    r: Result<Option<ControlLossCompletionV1>, ReconnectDurabilityErrorV1>,
) -> Result<Option<(ControlLossOperationView, ControlLossOutcomeV1)>, ReconnectDurabilityErrorV1> {
    match r {
        Err(e) => Err(e),
        Ok(None) => Ok(None),
        Ok(Some(c)) => Ok(Some((c.operation@, c.outcome))),
    }
}

impl ControlLossFlowV1 {
    pub fn begin(authorization: ControlLossAuthorizationV1) -> (r: Self)
        ensures
            r@ == (ControlLossFlowView {
                operation: authorization@,
                authorization: Some(authorization@),
                phase: ControlLossPhaseV1::Ready,
                receipt: None,
            }),
    {
        Self {
            operation: authorization.operation().duplicate(),
            authorization: Some(authorization),
            phase: ControlLossPhaseV1::Ready,
            receipt: None,
        }
    }

    /// Restored history permits only reconciliation: a restored flow never
    /// yields another live write request.
    pub fn restore(operation: ControlLossOperationV1) -> (r: Result<Self, ReconnectDurabilityErrorV1>)
        ensures
            r is Ok <==> operation_result(operation@) is Ok,
            r matches Err(e) ==> operation_result(operation@) == Err::<(), ReconnectDurabilityErrorV1>(e),
            r matches Ok(f) ==> f@ == (ControlLossFlowView {
                operation: operation@,
                authorization: None,
                phase: ControlLossPhaseV1::ReconciliationRequired,
                receipt: None,
            }),
    {
        if let Err(e) = operation.validate_historical() {
            return Err(e);
        }
        Ok(Self { operation, authorization: None, phase: ControlLossPhaseV1::ReconciliationRequired, receipt: None })
    }

    pub fn operation(&self) -> (r: &ControlLossOperationV1)
        ensures
            r@ == self@.operation,
    {
        &self.operation
    }

    pub fn phase(&self) -> (r: ControlLossPhaseV1)
        ensures
            r == self@.phase,
    {
        self.phase
    }

    pub fn receipt(&self) -> (r: Option<&ControlLossReceiptV1>)
        ensures
            match r {
                Some(x) => self@.receipt == Some(x@),
                None => self@.receipt is None,
            },
    {
        self.receipt.as_ref()
    }

    pub fn take_request(&mut self) -> (r: Result<ControlLossRequestV1, ReconnectDurabilityErrorV1>)
        ensures
            spec_take_request(old(self)@) == (final(self)@, match r {
                Ok(q) => Ok(q@),
                Err(e) => Err(e),
            }),
    {
        if self.phase != ControlLossPhaseV1::Ready {
            return Err(ReconnectDurabilityErrorV1::InvalidPhase);
        }
        let authorization = match self.authorization.take() {
            Some(a) => a,
            None => return Err(ReconnectDurabilityErrorV1::InvalidPhase),
        };
        self.phase = ControlLossPhaseV1::Pending;
        Ok(ControlLossRequestV1 { authorization })
    }

    /// Classifies one report taken from the completion source (`None` when
    /// it has none yet) for this flow's operation.
    pub fn accept_reported(&mut self, reported: Option<ControlLossCompletionV1>) -> (r: Result<(), ReconnectDurabilityErrorV1>)
        ensures
            spec_accept_completion(old(self)@, reported_view(Ok(reported))) == (final(self)@, r),
    {
        if self.phase == ControlLossPhaseV1::Ready {
            return Err(ReconnectDurabilityErrorV1::InvalidPhase);
        }
        let completion = match reported {
            None => return Ok(()),
            Some(c) => c,
        };
        if !completion.operation.same(&self.operation) {
            return Err(ReconnectDurabilityErrorV1::IdempotencyConflict);
        }
        match completion.outcome {
            ControlLossOutcomeV1::Committed { decided_at } => {
                if decided_at < self.operation.authorized_at || self.phase == ControlLossPhaseV1::Rejected {
                    return Err(ReconnectDurabilityErrorV1::IdempotencyConflict);
                }
                let conflicts = match &self.receipt {
                    Some(prior) => !(prior.operation.same(&self.operation) && prior.decided_at == decided_at),
                    None => false,
                };
                if conflicts {
                    return Err(ReconnectDurabilityErrorV1::IdempotencyConflict);
                }
                self.receipt = Some(ControlLossReceiptV1 { operation: self.operation.duplicate(), decided_at });
                self.phase = ControlLossPhaseV1::Completed;
            },
            ControlLossOutcomeV1::Rejected => {
                if self.phase == ControlLossPhaseV1::Completed {
                    return Err(ReconnectDurabilityErrorV1::IdempotencyConflict);
                }
                self.phase = ControlLossPhaseV1::Rejected;
            },
            ControlLossOutcomeV1::Ambiguous => {
                if self.phase != ControlLossPhaseV1::Completed && self.phase != ControlLossPhaseV1::Rejected {
                    self.phase = ControlLossPhaseV1::ReconciliationRequired;
                }
            },
        }
        Ok(())
    }

    /// Classifies what the completion source reports for this operation.
    pub fn accept_completion<S: ControlLossCompletionSourceV1>(&mut self, source: &mut S) -> (r: Result<
        (),
        ReconnectDurabilityErrorV1,
    >)
        ensures
            exists|reported: Result<Option<(ControlLossOperationView, ControlLossOutcomeV1)>, ReconnectDurabilityErrorV1>|
                #[trigger] spec_accept_completion(old(self)@, reported) == (final(self)@, r),
    {
        if self.phase == ControlLossPhaseV1::Ready {
            let ghost unasked: Result<Option<(ControlLossOperationView, ControlLossOutcomeV1)>, ReconnectDurabilityErrorV1> = Ok(None);
            assert(spec_accept_completion(old(self)@, unasked) == (self@, Err::<(), ReconnectDurabilityErrorV1>(ReconnectDurabilityErrorV1::InvalidPhase)));
            return Err(ReconnectDurabilityErrorV1::InvalidPhase);
        }
        let reported = source.take_loss_completion(&self.operation);
        let ghost answer = reported_view(reported);
        let r = match reported {
            Err(e) => Err(e),
            Ok(completion) => self.accept_reported(completion),
        };
        assert(spec_accept_completion(old(self)@, answer) == (self@, r));
        r
    }
}

} // verus!
