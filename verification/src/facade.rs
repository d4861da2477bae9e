//! The public admission facade: the authority of `admission` driven by a
//! journal that can also reload a session's authority and reconcile an
//! attempt atomically with it.
use vstd::prelude::*;
use vstd::laws_eq::obeys_concrete_eq;
use crate::admission::{
    spec_commit_fresh, spec_commit_reconnect, spec_install_rehydrated,
    spec_mark_control_loss, spec_observe_runtime, spec_prepare_reconnect, spec_refresh_fresh,
    spec_restore_prepared, spec_terminate, session_result_view, commit_fresh_requests, commit_requests,
    prepare_requests, JournalRequest, AdmissionError, AuthorityView,
    CharacterLeaseView, FreshAdmissionAuthoritySnapshotView, GameSessionAuthoritySnapshot,
    GameSessionAuthoritySnapshotView, GameSessionState, ReconnectAttemptClaim,
    ReconnectAttemptDisposition, ReconnectCommitBinding, ReconnectCommitBindingView,
};
use crate::ids::{ConnectionGeneration, GameSessionId, ScopeOwnershipGeneration};
use crate::journal::{answers_for, unanswered, JournalAnswer, JournalAnswers};

verus! {

broadcast use crate::ids::group_id_views, crate::journal::group_journal_answers, crate::admission::lemma_character_lease_view,
    crate::admission::lemma_commit_binding_view, crate::admission::lemma_attempt_ref_view;

/// One atomic durable read used to reconcile a reconnect operation: the
/// session's authority, the attempt's disposition and its stored binding, all
/// from the same fenced linearization point.
#[derive(Debug, Clone, Copy, PartialEq, Eq)]
pub struct ReconnectAttemptAuthoritySnapshot<T: Copy + Eq> {
    session: GameSessionAuthoritySnapshot<T>,
    disposition: Option<ReconnectAttemptDisposition>,
    binding: Option<ReconnectCommitBinding<T>>,
}

pub struct ReconnectAttemptAuthoritySnapshotView<T> {
    pub session: GameSessionAuthoritySnapshotView<T>,
    pub disposition: Option<ReconnectAttemptDisposition>,
    pub binding: Option<ReconnectCommitBindingView<T>>,
}

impl<T: Copy + Eq> View for ReconnectAttemptAuthoritySnapshot<T> {
    type V = ReconnectAttemptAuthoritySnapshotView<T>;

    closed spec fn view(&self) -> ReconnectAttemptAuthoritySnapshotView<T> {
        ReconnectAttemptAuthoritySnapshotView {
            session: self.session@,
            disposition: self.disposition,
            binding: match self.binding {
                Some(b) => Some(b@),
                None => None,
            },
        }
    }
}

impl<T: Copy + Eq> ReconnectAttemptAuthoritySnapshot<T> {
    pub fn new(
        session: GameSessionAuthoritySnapshot<T>,
        disposition: Option<ReconnectAttemptDisposition>,
        binding: Option<ReconnectCommitBinding<T>>,
    ) -> (r: Self)
        ensures
            r@ == (ReconnectAttemptAuthoritySnapshotView {
                session: session@,
                disposition,
                binding: match binding {
                    Some(b) => Some(b@),
                    None => None,
                },
            }),
    {
        Self { session, disposition, binding }
    }

    pub fn session(self) -> (r: GameSessionAuthoritySnapshot<T>)
        ensures
            r@ == self@.session,
    {
        self.session
    }

    pub fn disposition(self) -> (r: Option<ReconnectAttemptDisposition>)
        ensures
            r == self@.disposition,
    {
        self.disposition
    }

    pub fn binding(self) -> (r: Option<ReconnectCommitBinding<T>>)
        ensures
            match r {
                Some(b) => self@.binding == Some(b@),
                None => self@.binding is None,
            },
    {
        self.binding
    }
}

/// Whether an atomic read proves the attempt's disposition against the
/// session's current authority, and the disposition it proves.
pub open spec fn spec_validate_atomic<T>(
    expected_game_session_id: GameSessionId,
    a: ReconnectAttemptAuthoritySnapshotView<T>,
) -> Result<Option<ReconnectAttemptDisposition>, AdmissionError> {
    let s = a.session;
    let c = s.commit;
    let lease = s.current_character_lease@;
    if c.game_session_id != expected_game_session_id {
        Err(AdmissionError::ReconciliationUnavailable)
    } else if lease.character_id != c.character_id || lease.generation != c.character_lease_generation {
        Err(AdmissionError::StaleLease)
    } else if s.current_scope_generation@ < c.scope_ownership_generation {
        Err(AdmissionError::StaleRuntime)
    } else if s.current_connection_generation@ < c.connection_generation@ {
        Err(AdmissionError::StaleConnection)
    } else if s.session_state == GameSessionState::Terminal && s.current_transport is None {
        Err(AdmissionError::Terminal)
    } else if !((s.session_state == GameSessionState::Active && s.current_transport is Some) || (
    s.session_state == GameSessionState::Reconnectable && s.current_transport is None)) {
        Err(AdmissionError::ReconciliationUnavailable)
    } else {
        match a.disposition {
            None => if a.binding is Some {
                Err(AdmissionError::ReconciliationUnavailable)
            } else {
                Ok(None)
            },
            Some(ReconnectAttemptDisposition::TerminallySuperseded) => Ok(a.disposition),
            Some(ReconnectAttemptDisposition::Prepared { candidate_generation }) => match a.binding {
                None => Err(AdmissionError::ReconciliationUnavailable),
                Some(b) => if b.candidate_generation != candidate_generation || s.session_state
                    != GameSessionState::Reconnectable || s.current_transport is Some
                    || s.current_connection_generation != b.predecessor_generation {
                    Err(AdmissionError::StaleConnection)
                } else if s.current_character_lease != b.character_lease {
                    Err(AdmissionError::StaleLease)
                } else if s.current_scope_generation != b.scope_generation {
                    Err(AdmissionError::StaleRuntime)
                } else {
                    Ok(a.disposition)
                },
            },
            Some(ReconnectAttemptDisposition::Committed { generation }) => match a.binding {
                None => Err(AdmissionError::ReconciliationUnavailable),
                Some(b) => if b.candidate_generation != generation || s.session_state != GameSessionState::Active
                    || s.current_connection_generation != generation || s.current_transport != Some(
                    b.candidate_transport,
                ) {
                    Err(AdmissionError::StaleConnection)
                } else if s.current_character_lease != b.character_lease {
                    Err(AdmissionError::StaleLease)
                } else if s.current_scope_generation@ < b.scope_generation@ {
                    Err(AdmissionError::StaleRuntime)
                } else {
                    Ok(a.disposition)
                },
            },
        }
    }
}

fn transport_eq<T: Copy + Eq>(a: T, b: T) -> (r: bool)
    ensures
        obeys_concrete_eq::<T>() ==> r == (a == b),
{
    proof {
        reveal(obeys_concrete_eq);
    }
    a == b
}

/// Checks an atomic read of a reconnect attempt against the session's
/// current authority. The outcome is exact wherever `==` on transports is
/// equality.
fn validate_atomic_attempt_authority<T: Copy + Eq>(
    expected_game_session_id: GameSessionId,
    snapshot: ReconnectAttemptAuthoritySnapshot<T>,
) -> (r: Result<Option<ReconnectAttemptDisposition>, AdmissionError>)
    ensures
        obeys_concrete_eq::<T>() ==> r == spec_validate_atomic(expected_game_session_id, snapshot@),
{
    let session = snapshot.session();
    let committed = session.commit();
    if committed.game_session_id() != expected_game_session_id {
        return Err(AdmissionError::ReconciliationUnavailable);
    }
    let lease = session.current_character_lease();
    if lease.character_id() != committed.character_id() || lease.generation() != committed.character_lease_generation() {
        return Err(AdmissionError::StaleLease);
    }
    if session.current_scope_generation().get() < committed.scope_ownership_generation() {
        return Err(AdmissionError::StaleRuntime);
    }
    if session.current_connection_generation().get() < committed.connection_generation().get() {
        return Err(AdmissionError::StaleConnection);
    }
    match session.session_state() {
        GameSessionState::Active if session.current_transport().is_some() => {},
        GameSessionState::Reconnectable if session.current_transport().is_none() => {},
        GameSessionState::Terminal if session.current_transport().is_none() => {
            return Err(AdmissionError::Terminal);
        },
        _ => return Err(AdmissionError::ReconciliationUnavailable),
    }
    match snapshot.disposition() {
        None => {
            if snapshot.binding().is_some() {
                return Err(AdmissionError::ReconciliationUnavailable);
            }
            Ok(None)
        },
        Some(ReconnectAttemptDisposition::TerminallySuperseded) => Ok(snapshot.disposition()),
        Some(ReconnectAttemptDisposition::Prepared { candidate_generation }) => {
            let binding = match snapshot.binding() {
                Some(b) => b,
                None => return Err(AdmissionError::ReconciliationUnavailable),
            };
            if binding.candidate_generation() != candidate_generation || session.session_state()
                != GameSessionState::Reconnectable || session.current_transport().is_some()
                || session.current_connection_generation() != binding.predecessor_generation() {
                return Err(AdmissionError::StaleConnection);
            }
            if session.current_character_lease() != binding.character_lease() {
                return Err(AdmissionError::StaleLease);
            }
            if session.current_scope_generation() != binding.scope_generation() {
                return Err(AdmissionError::StaleRuntime);
            }
            Ok(snapshot.disposition())
        },
        Some(ReconnectAttemptDisposition::Committed { generation }) => {
            let binding = match snapshot.binding() {
                Some(b) => b,
                None => return Err(AdmissionError::ReconciliationUnavailable),
            };
            let transport_matches = match session.current_transport() {
                Some(t) => transport_eq(t, binding.candidate_transport()),
                None => false,
            };
            if binding.candidate_generation() != generation || session.session_state() != GameSessionState::Active
                || session.current_connection_generation() != generation || !transport_matches {
                return Err(AdmissionError::StaleConnection);
            }
            if session.current_character_lease() != binding.character_lease() {
                return Err(AdmissionError::StaleLease);
            }
            if session.current_scope_generation().get() < binding.scope_generation().get() {
                return Err(AdmissionError::StaleRuntime);
            }
            // The stored COMMIT binding proves which candidate transport and
            // generation won. RuntimeScope may advance after COMMIT but never
            // roll back below the generation bound to it.
            Ok(snapshot.disposition())
        },
    }
}

/// Durable GameSession authority used by the public admission facade.
///
/// `load_session` is the process-recovery boundary: it returns one fenced,
/// internally consistent current snapshot for the requested session. The
/// facade verified here makes no assumption about what an implementation
/// returns: every answer is checked before it is installed.
pub trait ReconnectAttemptJournal<T: Copy + Eq> {
    fn commit_fresh<F>(
        &self,
        facts: crate::admission::FreshAdmissionFacts,
        authenticated_transport: T,
        issue_game_session_id: F,
    ) -> Result<crate::admission::FreshAdmissionAuthoritySnapshot<T>, AdmissionError> where
        F: FnOnce() -> Result<GameSessionId, AdmissionError>,
    ;

    fn load_session(&self, game_session_id: GameSessionId) -> Result<GameSessionAuthoritySnapshot<T>, AdmissionError>;

    /// Reads the current fenced GameSession authority together with the
    /// exact reconnect attempt disposition and its retained binding, at one
    /// linearization point.
    fn reconcile_reconnect_attempt(
        &self,
        game_session_id: GameSessionId,
        attempt: crate::admission::ReconnectAttemptRef,
    ) -> Result<ReconnectAttemptAuthoritySnapshot<T>, AdmissionError>;

    fn mark_control_loss(
        &self,
        game_session_id: GameSessionId,
        observed_transport: T,
        observed_generation: ConnectionGeneration,
    ) -> Result<crate::admission::ControlLossDisposition, AdmissionError>;

    fn terminate_session(&self, game_session_id: GameSessionId, expected_generation: ConnectionGeneration) -> Result<
        (),
        AdmissionError,
    >;

    fn advance_runtime_scope(
        &self,
        game_session_id: GameSessionId,
        expected_current: ScopeOwnershipGeneration,
        observed: ScopeOwnershipGeneration,
    ) -> Result<ScopeOwnershipGeneration, AdmissionError>;

    fn lookup(&self, game_session_id: GameSessionId, attempt: crate::admission::ReconnectAttemptRef) -> Result<
        Option<ReconnectAttemptDisposition>,
        AdmissionError,
    >;

    fn claim_prepared(
        &self,
        game_session_id: GameSessionId,
        attempt: crate::admission::ReconnectAttemptRef,
        binding: ReconnectCommitBinding<T>,
    ) -> Result<ReconnectAttemptClaim, AdmissionError>;

    fn retire_if_unseen(&self, game_session_id: GameSessionId, attempt: crate::admission::ReconnectAttemptRef) -> Result<
        ReconnectAttemptDisposition,
        AdmissionError,
    >;

    fn commit_prepared(
        &self,
        game_session_id: GameSessionId,
        attempt: crate::admission::ReconnectAttemptRef,
        binding: ReconnectCommitBinding<T>,
    ) -> Result<(), AdmissionError>;

    fn retire_prepared(
        &self,
        game_session_id: GameSessionId,
        attempt: crate::admission::ReconnectAttemptRef,
        candidate_generation: ConnectionGeneration,
    ) -> Result<(), AdmissionError>;
}

impl<T: Copy + Eq, J: ReconnectAttemptJournal<T>> crate::admission::ReconnectAttemptJournal<T> for J {
    fn commit_fresh<F>(
        &self,
        facts: crate::admission::FreshAdmissionFacts,
        authenticated_transport: T,
        issue_game_session_id: F,
    ) -> Result<crate::admission::FreshAdmissionAuthoritySnapshot<T>, AdmissionError> where
        F: FnOnce() -> Result<GameSessionId, AdmissionError>,
     {
        <J as ReconnectAttemptJournal<T>>::commit_fresh(self, facts, authenticated_transport, issue_game_session_id)
    }

    fn mark_control_loss(
        &self,
        game_session_id: GameSessionId,
        observed_transport: T,
        observed_generation: ConnectionGeneration,
    ) -> Result<crate::admission::ControlLossDisposition, AdmissionError> {
        <J as ReconnectAttemptJournal<T>>::mark_control_loss(self, game_session_id, observed_transport, observed_generation)
    }

    fn terminate_session(&self, game_session_id: GameSessionId, expected_generation: ConnectionGeneration) -> Result<
        (),
        AdmissionError,
    > {
        <J as ReconnectAttemptJournal<T>>::terminate_session(self, game_session_id, expected_generation)
    }

    fn advance_runtime_scope(
        &self,
        game_session_id: GameSessionId,
        expected_current: ScopeOwnershipGeneration,
        observed: ScopeOwnershipGeneration,
    ) -> Result<ScopeOwnershipGeneration, AdmissionError> {
        <J as ReconnectAttemptJournal<T>>::advance_runtime_scope(self, game_session_id, expected_current, observed)
    }

    fn lookup(&self, game_session_id: GameSessionId, attempt: crate::admission::ReconnectAttemptRef) -> (r: Result<
        Option<ReconnectAttemptDisposition>,
        AdmissionError,
    >)
        ensures
            obeys_concrete_eq::<T>() ==> exists|read: Result<ReconnectAttemptAuthoritySnapshotView<T>, AdmissionError>|
                r == #[trigger] disposition_from_read(game_session_id, read),
    {
        let snapshot = match <J as ReconnectAttemptJournal<T>>::reconcile_reconnect_attempt(
            self,
            game_session_id,
            attempt,
        ) {
            Ok(s) => s,
            Err(e) => {
                let ghost failed: Result<ReconnectAttemptAuthoritySnapshotView<T>, AdmissionError> = Err(e);
                assert(Err::<Option<ReconnectAttemptDisposition>, AdmissionError>(e) == disposition_from_read(game_session_id, failed));
                return Err(e);
            },
        };
        let ghost read: Result<ReconnectAttemptAuthoritySnapshotView<T>, AdmissionError> = Ok(snapshot@);
        let r = validate_atomic_attempt_authority(game_session_id, snapshot);
        assert(obeys_concrete_eq::<T>() ==> r == disposition_from_read(game_session_id, read));
        r
    }

    fn claim_prepared(
        &self,
        game_session_id: GameSessionId,
        attempt: crate::admission::ReconnectAttemptRef,
        binding: ReconnectCommitBinding<T>,
    ) -> Result<ReconnectAttemptClaim, AdmissionError> {
        <J as ReconnectAttemptJournal<T>>::claim_prepared(self, game_session_id, attempt, binding)
    }

    fn retire_if_unseen(&self, game_session_id: GameSessionId, attempt: crate::admission::ReconnectAttemptRef) -> Result<
        ReconnectAttemptDisposition,
        AdmissionError,
    > {
        <J as ReconnectAttemptJournal<T>>::retire_if_unseen(self, game_session_id, attempt)
    }

    fn commit_prepared(
        &self,
        game_session_id: GameSessionId,
        attempt: crate::admission::ReconnectAttemptRef,
        binding: ReconnectCommitBinding<T>,
    ) -> Result<(), AdmissionError> {
        <J as ReconnectAttemptJournal<T>>::commit_prepared(self, game_session_id, attempt, binding)
    }

    fn retire_prepared(
        &self,
        game_session_id: GameSessionId,
        attempt: crate::admission::ReconnectAttemptRef,
        candidate_generation: ConnectionGeneration,
    ) -> Result<(), AdmissionError> {
        <J as ReconnectAttemptJournal<T>>::retire_prepared(self, game_session_id, attempt, candidate_generation)
    }
}


/// The disposition an atomic read of an attempt proves for the session, or
/// the read's own failure.
pub open spec fn disposition_from_read<T>(
    game_session_id: GameSessionId,
    read: Result<ReconnectAttemptAuthoritySnapshotView<T>, AdmissionError>,
) -> Result<Option<ReconnectAttemptDisposition>, AdmissionError> {
    match read {
        Err(e) => Err(e),
        Ok(a) => spec_validate_atomic(game_session_id, a),
    }
}

/// Reconciling the process projection with an atomic read of the attempt.
/// Any disagreement drops the projection; only a PREPARED read is restored.
pub open spec fn spec_reconcile_current<T, J>(
    v: AuthorityView<T, J>,
    attempt: crate::admission::ReconnectAttemptRef,
    candidate_transport: T,
    read: Result<ReconnectAttemptAuthoritySnapshotView<T>, AdmissionError>,
) -> (AuthorityView<T, J>, Result<Option<ReconnectAttemptDisposition>, AdmissionError>) {
    match v.current {
        None => (v, Err(AdmissionError::Terminal)),
        Some(s) => match read {
            Err(e) => (v.cleared(), Err(e)),
            Ok(a) => match spec_validate_atomic(s.game_session_id, a) {
                Err(e) => (v.cleared(), Err(e)),
                Ok(disposition) => {
                    let snap = a.session;
                    let c = snap.commit;
                    if c.character_id != s.character_id || c.world_id != s.world_id || c.channel_id != s.channel_id {
                        (v.cleared(), Err(AdmissionError::ReconciliationUnavailable))
                    } else if snap.current_character_lease@ != (CharacterLeaseView {
                        character_id: s.character_id,
                        generation: s.lease_generation,
                    }) {
                        (v.cleared(), Err(AdmissionError::StaleLease))
                    } else if snap.current_scope_generation != s.runtime_scope.generation {
                        (v.cleared(), Err(AdmissionError::StaleRuntime))
                    } else if snap.session_state != s.state || snap.current_connection_generation
                        != s.connection_generation || snap.current_transport != v.current_transport {
                        (v.cleared(), Err(AdmissionError::StaleConnection))
                    } else {
                        match disposition {
                            Some(ReconnectAttemptDisposition::Prepared { .. }) => match a.binding {
                                None => (v, Err(AdmissionError::ReconciliationUnavailable)),
                                Some(b) => if b.candidate_transport != candidate_transport {
                                    (v, Err(AdmissionError::AttemptMismatch))
                                } else {
                                    let (v2, restored) = spec_restore_prepared(v, attempt, b);
                                    match restored {
                                        Err(e) => (v2.cleared(), Err(e)),
                                        Ok(_) => (v2, Ok(disposition)),
                                    }
                                },
                            },
                            Some(ReconnectAttemptDisposition::Committed { .. }) => match a.binding {
                                None => (v, Err(AdmissionError::ReconciliationUnavailable)),
                                Some(b) => if b.candidate_transport != candidate_transport {
                                    (v, Err(AdmissionError::StaleConnection))
                                } else {
                                    (v, Ok(disposition))
                                },
                            },
                            _ => (v, Ok(disposition)),
                        }
                    }
                },
            },
        },
    }
}

/// After a claim dropped the projection, a COMMITTED read of the same attempt
/// on the same transport rebuilds the session from the read.
pub open spec fn spec_reconcile_after_cleared<T, J>(
    v: AuthorityView<T, J>,
    game_session_id: GameSessionId,
    candidate_transport: T,
    read: Result<ReconnectAttemptAuthoritySnapshotView<T>, AdmissionError>,
) -> (AuthorityView<T, J>, Result<Option<ConnectionGeneration>, AdmissionError>) {
    match read {
        Err(e) => (v.cleared(), Err(e)),
        Ok(a) => match spec_validate_atomic(game_session_id, a) {
            Err(e) => (v.cleared(), Err(e)),
            Ok(Some(ReconnectAttemptDisposition::Committed { generation })) => match a.binding {
                None => (v, Err(AdmissionError::ReconciliationUnavailable)),
                Some(b) => if b.candidate_transport != candidate_transport {
                    (v, Err(AdmissionError::StaleConnection))
                } else {
                    let (v2, installed) = spec_install_rehydrated(v, game_session_id, a.session);
                    match installed {
                        Err(e) => (v2.cleared(), Err(e)),
                        Ok(_) => (v2, Ok(Some(generation))),
                    }
                },
            },
            Ok(_) => (v, Ok(None)),
        },
    }
}

/// The projection holds exactly this PREPARED candidate.
pub open spec fn holds_prepared<T, J>(
    v: AuthorityView<T, J>,
    attempt: crate::admission::ReconnectAttemptRef,
    candidate_transport: T,
    candidate_generation: ConnectionGeneration,
) -> bool {
    v.prepared matches Some(p) && p.attempt == attempt && p.candidate_transport == candidate_transport
        && p.candidate == candidate_generation
}

/// What the journal answered during a facade PREPARE.
pub struct FacadePrepareAnswers<T> {
    pub read: Result<ReconnectAttemptAuthoritySnapshotView<T>, AdmissionError>,
    pub looked_up: Result<Option<ReconnectAttemptDisposition>, AdmissionError>,
    pub retired: Result<ReconnectAttemptDisposition, AdmissionError>,
    pub claimed: Result<ReconnectAttemptClaim, AdmissionError>,
    pub reread: Result<ReconnectAttemptAuthoritySnapshotView<T>, AdmissionError>,
}

pub open spec fn spec_facade_prepare<T, J>(
    v: AuthorityView<T, J>,
    attempt: crate::admission::ReconnectAttemptRef,
    predecessor: ConnectionGeneration,
    candidate_transport: T,
    lease: u64,
    scope: u64,
    ans: FacadePrepareAnswers<T>,
) -> (AuthorityView<T, J>, Result<ConnectionGeneration, AdmissionError>) {
    let (v1, reconciled) = spec_reconcile_current(v, attempt, candidate_transport, ans.read);
    match reconciled {
        Err(e) => (v1, Err(e)),
        Ok(Some(ReconnectAttemptDisposition::Committed { generation })) => (v1, Ok(generation)),
        Ok(Some(ReconnectAttemptDisposition::TerminallySuperseded)) => (v1, Err(AdmissionError::StaleConnection)),
        Ok(Some(ReconnectAttemptDisposition::Prepared { candidate_generation })) => if holds_prepared(
            v1,
            attempt,
            candidate_transport,
            candidate_generation,
        ) {
            (v1, Ok(candidate_generation))
        } else {
            (v1, Err(AdmissionError::ReconciliationUnavailable))
        },
        Ok(None) => match v1.current {
            None => (v1, Err(AdmissionError::Terminal)),
            Some(s) => {
                let (v2, prepared) = spec_prepare_reconnect(
                    v1,
                    attempt,
                    predecessor,
                    candidate_transport,
                    lease,
                    scope,
                    ans.looked_up,
                    ans.retired,
                    ans.claimed,
                );
                if prepared == Err::<ConnectionGeneration, AdmissionError>(AdmissionError::StaleConnection)
                    && v2.current is None {
                    let (v3, recovered) = spec_reconcile_after_cleared(
                        v2,
                        s.game_session_id,
                        candidate_transport,
                        ans.reread,
                    );
                    match recovered {
                        Err(e) => (v3, Err(e)),
                        Ok(Some(g)) => (v3, Ok(g)),
                        Ok(None) => (v3, Err(AdmissionError::StaleConnection)),
                    }
                } else {
                    (v2, prepared)
                }
            },
        },
    }
}

pub open spec fn spec_facade_commit<T, J>(
    v: AuthorityView<T, J>,
    attempt: crate::admission::ReconnectAttemptRef,
    candidate_transport: T,
    lease: u64,
    scope: u64,
    read: Result<ReconnectAttemptAuthoritySnapshotView<T>, AdmissionError>,
    looked_up: Result<Option<ReconnectAttemptDisposition>, AdmissionError>,
    committed: Result<(), AdmissionError>,
) -> (AuthorityView<T, J>, Result<ConnectionGeneration, AdmissionError>) {
    let (v1, reconciled) = spec_reconcile_current(v, attempt, candidate_transport, read);
    match reconciled {
        Err(e) => (v1, Err(e)),
        Ok(Some(ReconnectAttemptDisposition::Committed { generation })) => (v1, Ok(generation)),
        Ok(Some(ReconnectAttemptDisposition::TerminallySuperseded)) => (v1, Err(AdmissionError::StaleConnection)),
        Ok(Some(ReconnectAttemptDisposition::Prepared { candidate_generation })) => if holds_prepared(
            v1,
            attempt,
            candidate_transport,
            candidate_generation,
        ) {
            spec_commit_reconnect(v1, attempt, candidate_transport, lease, scope, looked_up, committed)
        } else {
            (v1, Err(AdmissionError::ReconciliationUnavailable))
        },
        Ok(None) => (v1, Err(AdmissionError::AttemptMismatch)),
    }
}

pub open spec fn spec_facade_commit_fresh<T, J>(
    v: AuthorityView<T, J>,
    facts: crate::admission::FreshAdmissionFactsView,
    transport: T,
    retired: Result<(), AdmissionError>,
    fresh: Result<FreshAdmissionAuthoritySnapshotView<T>, AdmissionError>,
    loaded: Result<GameSessionAuthoritySnapshotView<T>, AdmissionError>,
) -> (AuthorityView<T, J>, Result<crate::admission::GameSessionView, AdmissionError>) {
    let (v1, admitted) = spec_commit_fresh(v, facts, transport, retired, fresh);
    match admitted {
        Err(e) => (v1, Err(e)),
        Ok(_) => match loaded {
            Err(e) => (v1.cleared(), Err(e)),
            Ok(snap) => spec_refresh_fresh(v1, transport, snap),
        },
    }
}

pub open spec fn spec_rehydrate<T, J>(
    v: AuthorityView<T, J>,
    game_session_id: GameSessionId,
    loaded: Result<GameSessionAuthoritySnapshotView<T>, AdmissionError>,
) -> (AuthorityView<T, J>, Result<crate::admission::GameSessionView, AdmissionError>) {
    match loaded {
        Err(e) => (v, Err(e)),
        Ok(snap) => spec_install_rehydrated(v, game_session_id, snap),
    }
}

/// What reconciling the current attempt hands to the journal: one atomic
/// read of the requested attempt for the current session.
pub open spec fn reconcile_current_requests<T, J>(
    v: AuthorityView<T, J>,
    attempt: crate::admission::ReconnectAttemptRef,
) -> Seq<JournalRequest<T>> {
    match v.current {
        Some(s) => seq![JournalRequest::ReconcileAttempt { game_session_id: s.game_session_id, attempt }],
        None => Seq::empty(),
    }
}

/// What a facade PREPARE hands to the journal: the atomic read of the
/// requested attempt; when it shows the attempt unseen, what the PREPARE of
/// `admission` hands over; and when that claim dropped the projection as
/// stale, a second atomic read of the same attempt.
pub open spec fn facade_prepare_requests<T, J>(
    v: AuthorityView<T, J>,
    attempt: crate::admission::ReconnectAttemptRef,
    predecessor: ConnectionGeneration,
    candidate_transport: T,
    lease: u64,
    scope: u64,
    ans: FacadePrepareAnswers<T>,
) -> Seq<JournalRequest<T>> {
    let (v1, reconciled) = spec_reconcile_current(v, attempt, candidate_transport, ans.read);
    reconcile_current_requests(v, attempt) + (match (reconciled, v1.current) {
        (Ok(None), Some(s)) => {
            let (v2, prepared) = spec_prepare_reconnect(
                v1,
                attempt,
                predecessor,
                candidate_transport,
                lease,
                scope,
                ans.looked_up,
                ans.retired,
                ans.claimed,
            );
            prepare_requests(v1, attempt, predecessor, candidate_transport, lease, scope, ans.looked_up) + (
            if prepared == Err::<ConnectionGeneration, AdmissionError>(AdmissionError::StaleConnection)
                && v2.current is None {
                seq![JournalRequest::ReconcileAttempt { game_session_id: s.game_session_id, attempt }]
            } else {
                Seq::empty()
            })
        },
        _ => Seq::empty(),
    })
}

/// What the journal answers a facade PREPARE, in order: the atomic read,
/// then the answers to what the PREPARE of `admission` handed over, then the
/// second atomic read when the claim dropped the projection as stale.
pub open spec fn facade_prepare_answers<T, J>(
    v: AuthorityView<T, J>,
    attempt: crate::admission::ReconnectAttemptRef,
    predecessor: ConnectionGeneration,
    candidate_transport: T,
    lease: u64,
    scope: u64,
    ans: FacadePrepareAnswers<T>,
) -> Seq<JournalAnswer<T>> {
    let (v1, reconciled) = spec_reconcile_current(v, attempt, candidate_transport, ans.read);
    answers_for(reconcile_current_requests(v, attempt), (JournalAnswers { reconcile_attempt: ans.read, ..unanswered() })) + (
    match (reconciled, v1.current) {
        (Ok(None), Some(s)) => {
            let (v2, prepared) = spec_prepare_reconnect(
                v1,
                attempt,
                predecessor,
                candidate_transport,
                lease,
                scope,
                ans.looked_up,
                ans.retired,
                ans.claimed,
            );
            answers_for(
                prepare_requests(v1, attempt, predecessor, candidate_transport, lease, scope, ans.looked_up),
                (JournalAnswers {
                    lookup: ans.looked_up,
                    retire_if_unseen: ans.retired,
                    claim_prepared: ans.claimed,
                    ..unanswered()
                }),
            ) + (if prepared == Err::<ConnectionGeneration, AdmissionError>(AdmissionError::StaleConnection)
                && v2.current is None {
                seq![JournalAnswer::ReconcileAttempt(ans.reread)]
            } else {
                Seq::empty()
            })
        },
        _ => Seq::empty(),
    })
}

/// What a facade COMMIT hands to the journal: the atomic read of the
/// requested attempt, then, only when it shows this projection's PREPARED
/// candidate, what the COMMIT of `admission` hands over.
pub open spec fn facade_commit_requests<T, J>(
    v: AuthorityView<T, J>,
    attempt: crate::admission::ReconnectAttemptRef,
    candidate_transport: T,
    lease: u64,
    scope: u64,
    read: Result<ReconnectAttemptAuthoritySnapshotView<T>, AdmissionError>,
) -> Seq<JournalRequest<T>> {
    let (v1, reconciled) = spec_reconcile_current(v, attempt, candidate_transport, read);
    reconcile_current_requests(v, attempt) + (match reconciled {
        Ok(Some(ReconnectAttemptDisposition::Prepared { candidate_generation })) => if holds_prepared(
            v1,
            attempt,
            candidate_transport,
            candidate_generation,
        ) {
            commit_requests(v1, attempt, candidate_transport, lease, scope)
        } else {
            Seq::empty()
        },
        _ => Seq::empty(),
    })
}

/// What a facade fresh admission hands to the journal: what fresh admission
/// of `admission` hands over, then, once it admitted a session, the reload of
/// that session.
pub open spec fn facade_commit_fresh_requests<T, J>(
    v: AuthorityView<T, J>,
    facts: crate::admission::FreshAdmissionFactsView,
    transport: T,
    retired: Result<(), AdmissionError>,
    fresh: Result<FreshAdmissionAuthoritySnapshotView<T>, AdmissionError>,
) -> Seq<JournalRequest<T>> {
    let (v1, admitted) = spec_commit_fresh(v, facts, transport, retired, fresh);
    commit_fresh_requests(v, facts, transport, retired) + (if admitted is Ok {
        seq![JournalRequest::LoadSession { game_session_id: v1.current.unwrap().game_session_id }]
    } else {
        Seq::empty()
    })
}

pub open spec fn read_view<T: Copy + Eq>(
    r: Result<ReconnectAttemptAuthoritySnapshot<T>, AdmissionError>,
) -> Result<ReconnectAttemptAuthoritySnapshotView<T>, AdmissionError> {
    match r {
        Ok(a) => Ok(a@),
        Err(e) => Err(e),
    }
}

pub open spec fn loaded_view<T: Copy + Eq>(
    r: Result<GameSessionAuthoritySnapshot<T>, AdmissionError>,
) -> Result<GameSessionAuthoritySnapshotView<T>, AdmissionError> {
    match r {
        Ok(s) => Ok(s@),
        Err(e) => Err(e),
    }
}

/// The public admission authority of one GameSession.
pub struct AdmissionAuthority<T: Copy + Eq, J: ReconnectAttemptJournal<T>> {
    core: crate::admission::AdmissionAuthority<T, J>,
}

impl<T: Copy + Eq, J: ReconnectAttemptJournal<T>> View for AdmissionAuthority<T, J> {
    type V = AuthorityView<T, J>;

    closed spec fn view(&self) -> AuthorityView<T, J> {
        self.core@
    }
}

impl<T: Copy + Eq, J: ReconnectAttemptJournal<T> + Default> Default for AdmissionAuthority<T, J> {
    fn default() -> (r: Self)
        ensures
            r@.current is None && r@.current_transport is None && r@.prepared is None
                && r@.control_loss_pending is None && !r@.runtime_scope_reconciliation_pending,
    {
        Self::new(J::default())
    }
}

impl<T: Copy + Eq, J: ReconnectAttemptJournal<T>> AdmissionAuthority<T, J> {
    pub fn new(journal: J) -> (r: Self)
        ensures
            r@ == crate::admission::empty_authority::<T, J>(journal),
            r.journal_requests() == Seq::<JournalRequest<T>>::empty(),
    {
        Self { core: crate::admission::AdmissionAuthority::new(journal) }
    }

    /// Every request this authority has handed to its journal, in order.
    pub closed spec fn journal_requests(&self) -> Seq<JournalRequest<T>> {
        self.core.journal_requests()
    }

    /// Every answer the journal returned, in order, one per request.
    pub closed spec fn journal_answers(&self) -> Seq<JournalAnswer<T>> {
        self.core.journal_answers()
    }

    fn journal_load_session(&mut self, game_session_id: GameSessionId) -> (r: Result<
        GameSessionAuthoritySnapshot<T>,
        AdmissionError,
    >)
        ensures
            final(self)@ == old(self)@,
            final(self).journal_requests() == old(self).journal_requests().push(
                JournalRequest::LoadSession { game_session_id },
            ),
            final(self).journal_answers() == old(self).journal_answers().push(
                JournalAnswer::LoadSession(loaded_view(r)),
            ),
    {
        self.core.record_request(Ghost(JournalRequest::LoadSession { game_session_id }));
        let r = self.core.journal().load_session(game_session_id);
        self.core.record_answer(Ghost(JournalAnswer::LoadSession(loaded_view(r))));
        r
    }

    fn journal_reconcile_attempt(
        &mut self,
        game_session_id: GameSessionId,
        attempt: crate::admission::ReconnectAttemptRef,
    ) -> (r: Result<ReconnectAttemptAuthoritySnapshot<T>, AdmissionError>)
        ensures
            final(self)@ == old(self)@,
            final(self).journal_requests() == old(self).journal_requests().push(
                JournalRequest::ReconcileAttempt { game_session_id, attempt },
            ),
            final(self).journal_answers() == old(self).journal_answers().push(
                JournalAnswer::ReconcileAttempt(read_view(r)),
            ),
    {
        self.core.record_request(Ghost(JournalRequest::ReconcileAttempt { game_session_id, attempt }));
        let r = self.core.journal().reconcile_reconnect_attempt(game_session_id, attempt);
        self.core.record_answer(Ghost(JournalAnswer::ReconcileAttempt(read_view(r))));
        r
    }

    pub fn current(&self) -> (r: Option<&crate::admission::GameSession>)
        ensures
            r is None <==> self@.current is None,
            r matches Some(s) ==> self@.current == Some(s@),
    {
        self.core.current()
    }

    pub fn current_transport(&self) -> (r: Option<T>)
        ensures
            r == self@.current_transport,
    {
        self.core.current_transport()
    }

    /// The PREPARED candidate, if any: its attempt, transport and generation.
    pub fn prepared_reconnect_projection(&self) -> (r: Option<(crate::admission::ReconnectAttemptRef, T, ConnectionGeneration)>)
        ensures
            r == (match self@.prepared {
                Some(p) => Some((p.attempt, p.candidate_transport, p.candidate)),
                None => None,
            }),
    {
        self.core.prepared_reconnect_projection()
    }

    /// The journal that holds this session's durable authority.
    pub fn journal(&self) -> (r: &J)
        ensures
            *r == self@.journal,
    {
        self.core.journal()
    }

    fn commit_fresh_step<F>(
        &mut self,
        facts: crate::admission::FreshAdmissionFacts,
        authenticated_transport: T,
        issue_game_session_id: F,
    ) -> (r: (
        Result<(), AdmissionError>,
        Ghost<(
            Result<(), AdmissionError>,
            Result<FreshAdmissionAuthoritySnapshotView<T>, AdmissionError>,
            Result<GameSessionAuthoritySnapshotView<T>, AdmissionError>,
        )>,
    )) where F: FnOnce() -> Result<GameSessionId, AdmissionError>
        requires
            obeys_concrete_eq::<T>(),
        ensures
            final(self).journal_requests() == old(self).journal_requests()
                + facade_commit_fresh_requests(old(self)@, facts@, authenticated_transport, r.1@.0, r.1@.1),
            final(self).journal_answers() == old(self).journal_answers() + answers_for(
                facade_commit_fresh_requests(old(self)@, facts@, authenticated_transport, r.1@.0, r.1@.1),
                (JournalAnswers { retire_prepared: r.1@.0, commit_fresh: r.1@.1, load_session: r.1@.2, ..unanswered() }),
            ),
            ({
                let (post, res) = spec_facade_commit_fresh(
                    old(self)@,
                    facts@,
                    authenticated_transport,
                    r.1@.0,
                    r.1@.1,
                    r.1@.2,
                );
                &&& post == final(self)@
                &&& res == (match r.0 {
                    Ok(()) => Ok(final(self)@.current.unwrap()),
                    Err(e) => Err(e),
                })
                &&& r.0 is Ok ==> final(self)@.current is Some
            }),
    {
        let ghost unloaded: Result<GameSessionAuthoritySnapshotView<T>, AdmissionError> = Err(
            AdmissionError::ReconciliationUnavailable,
        );
        let (admitted, Ghost(answers)) = self.core.commit_fresh_step(facts, authenticated_transport, issue_game_session_id);
        if let Err(e) = admitted {
            return (Err(e), Ghost((answers.0, answers.1, unloaded)));
        }
        let game_session_id = match self.core.current() {
            Some(s) => s.game_session_id(),
            None => return (Err(AdmissionError::ReconciliationUnavailable), Ghost((answers.0, answers.1, unloaded))),
        };
        let loaded = self.journal_load_session(game_session_id);
        let ghost loaded_answer = loaded_view(loaded);
        let snapshot = match loaded {
            Ok(snapshot) => snapshot,
            Err(error) => {
                self.core.clear_process_projection();
                return (Err(error), Ghost((answers.0, answers.1, loaded_answer)));
            },
        };
        match self.core.refresh_fresh_projection(authenticated_transport, snapshot) {
            Ok(_) => {},
            Err(e) => return (Err(e), Ghost((answers.0, answers.1, loaded_answer))),
        }
        (Ok(()), Ghost((answers.0, answers.1, loaded_answer)))
    }

    /// Fresh admission, then a reload of the committed session's authority
    /// from the journal, which the installed projection must agree with.
    pub fn commit_fresh<F>(
        &mut self,
        facts: crate::admission::FreshAdmissionFacts,
        authenticated_transport: T,
        issue_game_session_id: F,
    ) -> (r: Result<&crate::admission::GameSession, AdmissionError>) where
        F: FnOnce() -> Result<GameSessionId, AdmissionError>,
        requires
            obeys_concrete_eq::<T>(),
        ensures
            exists|
                retired: Result<(), AdmissionError>,
                fresh: Result<FreshAdmissionAuthoritySnapshotView<T>, AdmissionError>,
                loaded: Result<GameSessionAuthoritySnapshotView<T>, AdmissionError>,
            |
                #[trigger] spec_facade_commit_fresh(old(self)@, facts@, authenticated_transport, retired, fresh, loaded)
                    == (final(self)@, session_result_view(r)) && final(self).journal_requests()
                    == old(self).journal_requests()
                    + facade_commit_fresh_requests(old(self)@, facts@, authenticated_transport, retired, fresh)
                    && final(self).journal_answers() == old(self).journal_answers() + answers_for(
                    facade_commit_fresh_requests(old(self)@, facts@, authenticated_transport, retired, fresh),
                    (JournalAnswers { retire_prepared: retired, commit_fresh: fresh, load_session: loaded, ..unanswered() }),
                ),
    {
        let (r, Ghost(answers)) = self.commit_fresh_step(facts, authenticated_transport, issue_game_session_id);
        let result = match r {
            Err(e) => Err(e),
            Ok(()) => match self.core.current() {
                Some(s) => Ok(s),
                None => Err(AdmissionError::ReconciliationUnavailable),
            },
        };
        assert(spec_facade_commit_fresh(old(self)@, facts@, authenticated_transport, answers.0, answers.1, answers.2)
            == (self@, session_result_view(result)) && self.journal_requests() == old(self).journal_requests()
            + facade_commit_fresh_requests(old(self)@, facts@, authenticated_transport, answers.0, answers.1)
            && self.journal_answers() == old(self).journal_answers() + answers_for(
            facade_commit_fresh_requests(old(self)@, facts@, authenticated_transport, answers.0, answers.1),
            (JournalAnswers { retire_prepared: answers.0, commit_fresh: answers.1, load_session: answers.2, ..unanswered() }),
        ));
        result
    }

    fn rehydrate_step(&mut self, game_session_id: GameSessionId) -> (r: (
        Result<(), AdmissionError>,
        Ghost<Result<GameSessionAuthoritySnapshotView<T>, AdmissionError>>,
    ))
        ensures
            final(self).journal_requests() == old(self).journal_requests().push(
                JournalRequest::LoadSession { game_session_id },
            ),
            final(self).journal_answers() == old(self).journal_answers().push(JournalAnswer::LoadSession(r.1@)),
            ({
                let (post, res) = spec_rehydrate(old(self)@, game_session_id, r.1@);
                &&& post == final(self)@
                &&& res == (match r.0 {
                    Ok(()) => Ok(final(self)@.current.unwrap()),
                    Err(e) => Err(e),
                })
                &&& r.0 is Ok ==> final(self)@.current is Some
            }),
    {
        let loaded = self.journal_load_session(game_session_id);
        let ghost answer = loaded_view(loaded);
        let snapshot = match loaded {
            Ok(s) => s,
            Err(e) => return (Err(e), Ghost(answer)),
        };
        match self.core.install_rehydrated_session(game_session_id, snapshot) {
            Ok(_) => (Ok(()), Ghost(answer)),
            Err(e) => (Err(e), Ghost(answer)),
        }
    }

    /// Rebuilds the projection of a session from the journal after process
    /// replacement.
    pub fn rehydrate_session(&mut self, game_session_id: GameSessionId) -> (r: Result<&crate::admission::GameSession, AdmissionError>)
        ensures
            exists|loaded: Result<GameSessionAuthoritySnapshotView<T>, AdmissionError>|
                #[trigger] spec_rehydrate(old(self)@, game_session_id, loaded) == (final(self)@, session_result_view(r))
                && final(self).journal_answers() == old(self).journal_answers().push(JournalAnswer::LoadSession(loaded)),
            final(self).journal_requests() == old(self).journal_requests().push(
                JournalRequest::LoadSession { game_session_id },
            ),
    {
        let (r, Ghost(answer)) = self.rehydrate_step(game_session_id);
        let result = match r {
            Err(e) => Err(e),
            Ok(()) => match self.core.current() {
                Some(s) => Ok(s),
                None => Err(AdmissionError::ReconciliationUnavailable),
            },
        };
        assert(spec_rehydrate(old(self)@, game_session_id, answer) == (self@, session_result_view(result))
            && self.journal_answers() == old(self).journal_answers().push(JournalAnswer::LoadSession(answer)));
        result
    }

    pub fn terminate_current(&mut self) -> (r: Result<(), AdmissionError>)
        ensures
            exists|terminated: Result<(), AdmissionError>|
                #[trigger] spec_terminate(old(self)@, terminated) == (final(self)@, r)
                && final(self).journal_answers() == old(self).journal_answers() + answers_for(
                    crate::admission::terminate_requests(old(self)@),
                    (JournalAnswers { terminate_session: terminated, ..unanswered() }),
                ),
            final(self).journal_requests() == old(self).journal_requests()
                + crate::admission::terminate_requests(old(self)@),
    {
        let r = self.core.terminate_current();
        proof {
            let w = choose|w: Result<(), AdmissionError>| #[trigger] spec_terminate(old(self)@, w) == (self.core@, r)
                && self.core.journal_answers() == old(self).core.journal_answers() + answers_for(
                crate::admission::terminate_requests(old(self)@),
                (JournalAnswers { terminate_session: w, ..unanswered() }),
            );
            assert(spec_terminate(old(self)@, w) == (self@, r) && self.journal_answers() == old(self).journal_answers()
                + answers_for(
                crate::admission::terminate_requests(old(self)@),
                (JournalAnswers { terminate_session: w, ..unanswered() }),
            ));
        }
        r
    }

    pub fn mark_unexpected_control_loss(
        &mut self,
        observed_transport: T,
        observed_generation: ConnectionGeneration,
    ) -> (r: Result<crate::admission::ControlLossDisposition, AdmissionError>)
        requires
            obeys_concrete_eq::<T>(),
        ensures
            exists|marked: Result<crate::admission::ControlLossDisposition, AdmissionError>|
                #[trigger] spec_mark_control_loss(old(self)@, observed_transport, observed_generation, marked)
                    == (final(self)@, r) && final(self).journal_answers() == old(self).journal_answers() + answers_for(
                    crate::admission::control_loss_requests(old(self)@, observed_transport, observed_generation),
                    (JournalAnswers { mark_control_loss: marked, ..unanswered() }),
                ),
            final(self).journal_requests() == old(self).journal_requests()
                + crate::admission::control_loss_requests(old(self)@, observed_transport, observed_generation),
    {
        let r = self.core.mark_unexpected_control_loss(observed_transport, observed_generation);
        proof {
            let w = choose|w: Result<crate::admission::ControlLossDisposition, AdmissionError>|
                #[trigger] spec_mark_control_loss(old(self)@, observed_transport, observed_generation, w)
                    == (self.core@, r) && self.core.journal_answers() == old(self).core.journal_answers() + answers_for(
                    crate::admission::control_loss_requests(old(self)@, observed_transport, observed_generation),
                    (JournalAnswers { mark_control_loss: w, ..unanswered() }),
                );
            assert(spec_mark_control_loss(old(self)@, observed_transport, observed_generation, w) == (self@, r)
                && self.journal_answers() == old(self).journal_answers() + answers_for(
                crate::admission::control_loss_requests(old(self)@, observed_transport, observed_generation),
                (JournalAnswers { mark_control_loss: w, ..unanswered() }),
            ));
        }
        r
    }

    pub fn observe_runtime_ownership_generation(&mut self, generation: u64) -> (r: Result<(), AdmissionError>)
        ensures
            exists|advanced: Result<ScopeOwnershipGeneration, AdmissionError>|
                #[trigger] spec_observe_runtime(old(self)@, generation, advanced) == (final(self)@, r)
                && final(self).journal_answers() == old(self).journal_answers() + answers_for(
                    crate::admission::observe_runtime_requests(old(self)@, generation),
                    (JournalAnswers { advance_runtime_scope: advanced, ..unanswered() }),
                ),
            final(self).journal_requests() == old(self).journal_requests()
                + crate::admission::observe_runtime_requests(old(self)@, generation),
    {
        let r = self.core.observe_runtime_ownership_generation(generation);
        proof {
            let w = choose|w: Result<ScopeOwnershipGeneration, AdmissionError>|
                #[trigger] spec_observe_runtime(old(self)@, generation, w) == (self.core@, r)
                && self.core.journal_answers() == old(self).core.journal_answers() + answers_for(
                crate::admission::observe_runtime_requests(old(self)@, generation),
                (JournalAnswers { advance_runtime_scope: w, ..unanswered() }),
            );
            assert(spec_observe_runtime(old(self)@, generation, w) == (self@, r) && self.journal_answers()
                == old(self).journal_answers() + answers_for(
                crate::admission::observe_runtime_requests(old(self)@, generation),
                (JournalAnswers { advance_runtime_scope: w, ..unanswered() }),
            ));
        }
        r
    }
}


impl<T: Copy + Eq, J: ReconnectAttemptJournal<T>> AdmissionAuthority<T, J> {
    fn reconcile_current_attempt(&mut self, attempt: crate::admission::ReconnectAttemptRef, candidate_transport: T) -> (r: (
        Result<Option<ReconnectAttemptDisposition>, AdmissionError>,
        Ghost<Result<ReconnectAttemptAuthoritySnapshotView<T>, AdmissionError>>,
    ))
        requires
            obeys_concrete_eq::<T>(),
        ensures
            final(self).journal_requests() == old(self).journal_requests() + reconcile_current_requests(old(self)@, attempt),
            final(self).journal_answers() == old(self).journal_answers() + answers_for(
                reconcile_current_requests(old(self)@, attempt),
                (JournalAnswers { reconcile_attempt: r.1@, ..unanswered() }),
            ),
            spec_reconcile_current(old(self)@, attempt, candidate_transport, r.1@) == (final(self)@, r.0),
    {
        let ghost unread: Result<ReconnectAttemptAuthoritySnapshotView<T>, AdmissionError> = Err(
            AdmissionError::Terminal,
        );
        let (game_session_id, character_id, world_id, channel_id, session_state, connection_generation, character_lease, scope_generation) =
            match self.core.current() {
            None => return (Err(AdmissionError::Terminal), Ghost(unread)),
            Some(session) => (
                session.game_session_id(),
                session.character_id(),
                session.world_id(),
                session.channel_id(),
                session.state(),
                session.connection_generation(),
                session.character_lease(),
                session.runtime_scope_generation(),
            ),
        };
        let current_transport = self.core.current_transport();
        let read = self.journal_reconcile_attempt(game_session_id, attempt);
        let ghost answer = read_view(read);
        let authority = match read {
            Ok(a) => a,
            Err(error) => {
                self.core.clear_process_projection();
                return (Err(error), Ghost(answer));
            },
        };
        let disposition = match validate_atomic_attempt_authority(game_session_id, authority) {
            Ok(d) => d,
            Err(error) => {
                self.core.clear_process_projection();
                return (Err(error), Ghost(answer));
            },
        };
        let snapshot = authority.session();
        let committed = snapshot.commit();
        if committed.character_id() != character_id || committed.world_id() != world_id || committed.channel_id()
            != channel_id {
            self.core.clear_process_projection();
            return (Err(AdmissionError::ReconciliationUnavailable), Ghost(answer));
        }
        if snapshot.current_character_lease() != character_lease {
            self.core.clear_process_projection();
            return (Err(AdmissionError::StaleLease), Ghost(answer));
        }
        if snapshot.current_scope_generation() != scope_generation {
            self.core.clear_process_projection();
            return (Err(AdmissionError::StaleRuntime), Ghost(answer));
        }
        let transport_same = match (snapshot.current_transport(), current_transport) {
            (Some(a), Some(b)) => transport_eq(a, b),
            (None, None) => true,
            _ => false,
        };
        if snapshot.session_state() != session_state || snapshot.current_connection_generation()
            != connection_generation || !transport_same {
            self.core.clear_process_projection();
            return (Err(AdmissionError::StaleConnection), Ghost(answer));
        }
        match disposition {
            Some(ReconnectAttemptDisposition::Prepared { .. }) => {
                let binding = match authority.binding() {
                    Some(b) => b,
                    None => return (Err(AdmissionError::ReconciliationUnavailable), Ghost(answer)),
                };
                if !transport_eq(binding.candidate_transport(), candidate_transport) {
                    return (Err(AdmissionError::AttemptMismatch), Ghost(answer));
                }
                if let Err(error) = self.core.restore_reconciled_prepared_projection(attempt, binding) {
                    self.core.clear_process_projection();
                    return (Err(error), Ghost(answer));
                }
                (Ok(disposition), Ghost(answer))
            },
            Some(ReconnectAttemptDisposition::Committed { .. }) => {
                let binding = match authority.binding() {
                    Some(b) => b,
                    None => return (Err(AdmissionError::ReconciliationUnavailable), Ghost(answer)),
                };
                if !transport_eq(binding.candidate_transport(), candidate_transport) {
                    return (Err(AdmissionError::StaleConnection), Ghost(answer));
                }
                (Ok(disposition), Ghost(answer))
            },
            _ => (Ok(disposition), Ghost(answer)),
        }
    }

    fn reconcile_committed_after_cleared_claim(
        &mut self,
        game_session_id: GameSessionId,
        attempt: crate::admission::ReconnectAttemptRef,
        candidate_transport: T,
    ) -> (r: (
        Result<Option<ConnectionGeneration>, AdmissionError>,
        Ghost<Result<ReconnectAttemptAuthoritySnapshotView<T>, AdmissionError>>,
    ))
        requires
            obeys_concrete_eq::<T>(),
        ensures
            final(self).journal_requests() == old(self).journal_requests().push(
                JournalRequest::ReconcileAttempt { game_session_id, attempt },
            ),
            final(self).journal_answers() == old(self).journal_answers().push(JournalAnswer::ReconcileAttempt(r.1@)),
            spec_reconcile_after_cleared(old(self)@, game_session_id, candidate_transport, r.1@) == (final(self)@, r.0),
    {
        let read = self.journal_reconcile_attempt(game_session_id, attempt);
        let ghost answer = read_view(read);
        let authority = match read {
            Ok(a) => a,
            Err(error) => {
                self.core.clear_process_projection();
                return (Err(error), Ghost(answer));
            },
        };
        let disposition = match validate_atomic_attempt_authority(game_session_id, authority) {
            Ok(d) => d,
            Err(error) => {
                self.core.clear_process_projection();
                return (Err(error), Ghost(answer));
            },
        };
        let generation = match disposition {
            Some(ReconnectAttemptDisposition::Committed { generation }) => generation,
            _ => return (Ok(None), Ghost(answer)),
        };
        let binding = match authority.binding() {
            Some(b) => b,
            None => return (Err(AdmissionError::ReconciliationUnavailable), Ghost(answer)),
        };
        if !transport_eq(binding.candidate_transport(), candidate_transport) {
            return (Err(AdmissionError::StaleConnection), Ghost(answer));
        }
        let installed = match self.core.install_rehydrated_session(game_session_id, authority.session()) {
            Ok(_) => Ok(()),
            Err(e) => Err(e),
        };
        if let Err(error) = installed {
            self.core.clear_process_projection();
            return (Err(error), Ghost(answer));
        }
        (Ok(Some(generation)), Ghost(answer))
    }

    fn holds_prepared_exec(
        &self,
        attempt: crate::admission::ReconnectAttemptRef,
        candidate_transport: T,
        candidate_generation: ConnectionGeneration,
    ) -> (r: bool)
        requires
            obeys_concrete_eq::<T>(),
        ensures
            r == holds_prepared(self@, attempt, candidate_transport, candidate_generation),
    {
        match self.core.prepared_reconnect_projection() {
            Some((current_attempt, current_transport, current_generation)) => current_attempt == attempt
                && transport_eq(current_transport, candidate_transport) && current_generation == candidate_generation,
            None => false,
        }
    }

    fn prepare_step(
        &mut self,
        attempt: crate::admission::ReconnectAttemptRef,
        predecessor: ConnectionGeneration,
        candidate_transport: T,
        lease: u64,
        scope: u64,
    ) -> (r: (Result<ConnectionGeneration, AdmissionError>, Ghost<FacadePrepareAnswers<T>>))
        requires
            obeys_concrete_eq::<T>(),
        ensures
            final(self).journal_requests() == old(self).journal_requests()
                + facade_prepare_requests(old(self)@, attempt, predecessor, candidate_transport, lease, scope, r.1@),
            final(self).journal_answers() == old(self).journal_answers()
                + facade_prepare_answers(old(self)@, attempt, predecessor, candidate_transport, lease, scope, r.1@),
            spec_facade_prepare(old(self)@, attempt, predecessor, candidate_transport, lease, scope, r.1@) == (
            final(self)@, r.0),
    {
        let ghost unread: Result<ReconnectAttemptAuthoritySnapshotView<T>, AdmissionError> = Err(
            AdmissionError::Terminal,
        );
        let ghost no_lookup: Result<Option<ReconnectAttemptDisposition>, AdmissionError> = Ok(None);
        let ghost no_retire: Result<ReconnectAttemptDisposition, AdmissionError> = Err(AdmissionError::Terminal);
        let ghost no_claim: Result<ReconnectAttemptClaim, AdmissionError> = Err(AdmissionError::Terminal);
        let (reconciled, Ghost(read)) = self.reconcile_current_attempt(attempt, candidate_transport);
        let ghost early = FacadePrepareAnswers {
            read,
            looked_up: no_lookup,
            retired: no_retire,
            claimed: no_claim,
            reread: unread,
        };
        match reconciled {
            Err(e) => return (Err(e), Ghost(early)),
            Ok(Some(ReconnectAttemptDisposition::Committed { generation })) => return (Ok(generation), Ghost(early)),
            Ok(Some(ReconnectAttemptDisposition::TerminallySuperseded)) => return (
                Err(AdmissionError::StaleConnection),
                Ghost(early),
            ),
            Ok(Some(ReconnectAttemptDisposition::Prepared { candidate_generation })) => {
                let r = if self.holds_prepared_exec(attempt, candidate_transport, candidate_generation) {
                    Ok(candidate_generation)
                } else {
                    Err(AdmissionError::ReconciliationUnavailable)
                };
                return (r, Ghost(early));
            },
            Ok(None) => {},
        }
        let game_session_id = match self.core.current() {
            Some(s) => s.game_session_id(),
            None => return (Err(AdmissionError::Terminal), Ghost(early)),
        };
        let (prepared, Ghost(core_answers)) = self.core.prepare_step(
            attempt,
            predecessor,
            candidate_transport,
            lease,
            scope,
        );
        let ghost answers = FacadePrepareAnswers {
            read,
            looked_up: core_answers.0,
            retired: core_answers.1,
            claimed: core_answers.2,
            reread: unread,
        };
        let cleared_stale = match prepared {
            Err(AdmissionError::StaleConnection) => self.core.current().is_none(),
            _ => false,
        };
        if !cleared_stale {
            return (prepared, Ghost(answers));
        }
        let (recovered, Ghost(reread)) = self.reconcile_committed_after_cleared_claim(
            game_session_id,
            attempt,
            candidate_transport,
        );
        let ghost all = FacadePrepareAnswers { reread, ..answers };
        match recovered {
            Err(e) => (Err(e), Ghost(all)),
            Ok(Some(g)) => (Ok(g), Ghost(all)),
            Ok(None) => (Err(AdmissionError::StaleConnection), Ghost(all)),
        }
    }

    /// PREPARE of a reconnect candidate, first reconciled against the
    /// journal's atomic record of the attempt.
    pub fn prepare_reconnect(
        &mut self,
        attempt: crate::admission::ReconnectAttemptRef,
        predecessor: ConnectionGeneration,
        candidate_transport: T,
        lease: u64,
        scope: u64,
    ) -> (r: Result<ConnectionGeneration, AdmissionError>)
        requires
            obeys_concrete_eq::<T>(),
        ensures
            exists|answers: FacadePrepareAnswers<T>|
                #[trigger] spec_facade_prepare(old(self)@, attempt, predecessor, candidate_transport, lease, scope, answers)
                    == (final(self)@, r) && final(self).journal_requests() == old(self).journal_requests()
                    + facade_prepare_requests(old(self)@, attempt, predecessor, candidate_transport, lease, scope, answers)
                    && final(self).journal_answers() == old(self).journal_answers()
                    + facade_prepare_answers(old(self)@, attempt, predecessor, candidate_transport, lease, scope, answers),
    {
        let (r, Ghost(answers)) = self.prepare_step(attempt, predecessor, candidate_transport, lease, scope);
        assert(spec_facade_prepare(old(self)@, attempt, predecessor, candidate_transport, lease, scope, answers) == (
        self@, r) && self.journal_requests() == old(self).journal_requests()
            + facade_prepare_requests(old(self)@, attempt, predecessor, candidate_transport, lease, scope, answers)
            && self.journal_answers() == old(self).journal_answers()
            + facade_prepare_answers(old(self)@, attempt, predecessor, candidate_transport, lease, scope, answers));
        r
    }

    fn commit_facade_step(
        &mut self,
        attempt: crate::admission::ReconnectAttemptRef,
        candidate_transport: T,
        lease: u64,
        scope: u64,
    ) -> (r: (
        Result<ConnectionGeneration, AdmissionError>,
        Ghost<(
            Result<ReconnectAttemptAuthoritySnapshotView<T>, AdmissionError>,
            Result<Option<ReconnectAttemptDisposition>, AdmissionError>,
            Result<(), AdmissionError>,
        )>,
    ))
        requires
            obeys_concrete_eq::<T>(),
        ensures
            final(self).journal_requests() == old(self).journal_requests()
                + facade_commit_requests(old(self)@, attempt, candidate_transport, lease, scope, r.1@.0),
            final(self).journal_answers() == old(self).journal_answers() + answers_for(
                facade_commit_requests(old(self)@, attempt, candidate_transport, lease, scope, r.1@.0),
                (JournalAnswers { reconcile_attempt: r.1@.0, lookup: r.1@.1, commit_prepared: r.1@.2, ..unanswered() }),
            ),
            spec_facade_commit(old(self)@, attempt, candidate_transport, lease, scope, r.1@.0, r.1@.1, r.1@.2) == (
            final(self)@, r.0),
    {
        let ghost no_lookup: Result<Option<ReconnectAttemptDisposition>, AdmissionError> = Ok(None);
        let ghost no_commit: Result<(), AdmissionError> = Ok(());
        let (reconciled, Ghost(read)) = self.reconcile_current_attempt(attempt, candidate_transport);
        match reconciled {
            Err(e) => (Err(e), Ghost((read, no_lookup, no_commit))),
            Ok(Some(ReconnectAttemptDisposition::Committed { generation })) => (Ok(generation), Ghost(
                (read, no_lookup, no_commit),
            )),
            Ok(Some(ReconnectAttemptDisposition::TerminallySuperseded)) => (
                Err(AdmissionError::StaleConnection),
                Ghost((read, no_lookup, no_commit)),
            ),
            Ok(Some(ReconnectAttemptDisposition::Prepared { candidate_generation })) => {
                if self.holds_prepared_exec(attempt, candidate_transport, candidate_generation) {
                    let (r, Ghost(core_answers)) = self.core.commit_step(attempt, candidate_transport, lease, scope);
                    (r, Ghost((read, core_answers.0, core_answers.1)))
                } else {
                    (Err(AdmissionError::ReconciliationUnavailable), Ghost((read, no_lookup, no_commit)))
                }
            },
            Ok(None) => (Err(AdmissionError::AttemptMismatch), Ghost((read, no_lookup, no_commit))),
        }
    }

    /// COMMIT of the PREPARED candidate, first reconciled against the
    /// journal's atomic record of the attempt.
    pub fn commit_reconnect(
        &mut self,
        attempt: crate::admission::ReconnectAttemptRef,
        candidate_transport: T,
        lease: u64,
        scope: u64,
    ) -> (r: Result<ConnectionGeneration, AdmissionError>)
        requires
            obeys_concrete_eq::<T>(),
        ensures
            exists|
                read: Result<ReconnectAttemptAuthoritySnapshotView<T>, AdmissionError>,
                looked_up: Result<Option<ReconnectAttemptDisposition>, AdmissionError>,
                committed: Result<(), AdmissionError>,
            |
                #[trigger] spec_facade_commit(
                    old(self)@,
                    attempt,
                    candidate_transport,
                    lease,
                    scope,
                    read,
                    looked_up,
                    committed,
                ) == (final(self)@, r) && final(self).journal_requests() == old(self).journal_requests()
                    + facade_commit_requests(old(self)@, attempt, candidate_transport, lease, scope, read)
                    && final(self).journal_answers() == old(self).journal_answers() + answers_for(
                    facade_commit_requests(old(self)@, attempt, candidate_transport, lease, scope, read),
                    (JournalAnswers { reconcile_attempt: read, lookup: looked_up, commit_prepared: committed, ..unanswered() }),
                ),
    {
        let (r, Ghost(answers)) = self.commit_facade_step(attempt, candidate_transport, lease, scope);
        assert(spec_facade_commit(old(self)@, attempt, candidate_transport, lease, scope, answers.0, answers.1, answers.2)
            == (self@, r) && self.journal_requests() == old(self).journal_requests()
            + facade_commit_requests(old(self)@, attempt, candidate_transport, lease, scope, answers.0)
            && self.journal_answers() == old(self).journal_answers() + answers_for(
            facade_commit_requests(old(self)@, attempt, candidate_transport, lease, scope, answers.0),
            (JournalAnswers { reconcile_attempt: answers.0, lookup: answers.1, commit_prepared: answers.2, ..unanswered() }),
        ));
        r
    }
}

} // verus!
