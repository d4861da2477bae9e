//! The durable operation of a complete reconnect: the independently loaded
//! snapshot it was prepared against, the credential that authorized it, and
//! the historical and current checks that decide whether it may be written.
//!
//! Three checks of the recovery foundation reach this module as values: that
//! lifecycle fields are within their resource bounds, that the guard claims
//! of a snapshot are consistent with its session, and that a credential audit
//! is historically valid.
use vstd::prelude::*;
use crate::admission::{
    current_authority_error, validate_current_authority, GameSessionAuthoritySnapshot,
    GameSessionAuthoritySnapshotView, GameSessionState, ReconnectDurabilityErrorV1, RuntimeScopeRefV1,
};
use crate::budget::{
    protection_valid, spec_check_candidate, RecoveryEpochStateV1, RecoveryProtectionContinuityV1,
    RetainedRecoveryBudgetV1, RetainedRecoveryBudgetView,
};
use crate::control_loss::{operation_result, ControlLossOperationV1, ControlLossOperationView};
use crate::durability::{
    AuthorityEvidenceFenceView, ReconnectCompatibilityEvidenceV1, ReconnectCompatibilityEvidenceView,
    AccountPresenceClaimV1, AccountPresenceClaimView, AuthenticatedTransportRefV1, Fnd02ReconciliationFenceV1,
    Fnd02ReconciliationFenceView, ReconnectCandidateBindingV1, ReconnectCandidateBindingView, ReconnectIdentityV1,
    ReconnectIdentityView, EVIDENCE_FRESHNESS_SECONDS_V1,
};
use crate::ids::{CharacterId, ConnectionGeneration, GameSessionId, WorldId};
use crate::admission::ReconnectAttemptRef;
use crate::publication::{AdmissionAuthorityGuardStateV1, GuardStateView};
use crate::publication::{changes_view, copy_changes, AdmissionAuthorityPublicationChangeV1, PublicationChangeView};
use crate::text::same_text;

verus! {

broadcast use crate::ids::group_id_views, crate::durability::lemma_transport_view;

/// The account and compatibility facts the recovery foundation resolved for an
/// actor.
pub struct RecoveryCurrentEvidenceV1 {
    pub account_id: String,
    pub character_id: CharacterId,
    pub world_id: WorldId,
    pub ruleset_revision: String,
    pub content_revision: String,
    pub map_revision: String,
    pub world_policy_revision: String,
}

pub struct RecoveryEvidenceView {
    pub account_id: Seq<char>,
    pub character_id: CharacterId,
    pub world_id: WorldId,
    pub ruleset_revision: Seq<char>,
    pub content_revision: Seq<char>,
    pub map_revision: Seq<char>,
    pub world_policy_revision: Seq<char>,
}

impl View for RecoveryCurrentEvidenceV1 {
    type V = RecoveryEvidenceView;

    open spec fn view(&self) -> RecoveryEvidenceView {
        RecoveryEvidenceView {
            account_id: self.account_id@,
            character_id: self.character_id,
            world_id: self.world_id,
            ruleset_revision: self.ruleset_revision@,
            content_revision: self.content_revision@,
            map_revision: self.map_revision@,
            world_policy_revision: self.world_policy_revision@,
        }
    }
}

impl RecoveryCurrentEvidenceV1 {
    pub fn duplicate(&self) -> (r: Self)
        ensures
            r@ == self@,
    {
        RecoveryCurrentEvidenceV1 {
            account_id: self.account_id.clone(),
            character_id: self.character_id,
            world_id: self.world_id,
            ruleset_revision: self.ruleset_revision.clone(),
            content_revision: self.content_revision.clone(),
            map_revision: self.map_revision.clone(),
            world_policy_revision: self.world_policy_revision.clone(),
        }
    }

    pub fn same(&self, other: &Self) -> (r: bool)
        ensures
            r == (self@ == other@),
    {
        self.account_id == other.account_id && self.character_id == other.character_id && self.world_id
            == other.world_id && self.ruleset_revision == other.ruleset_revision && self.content_revision
            == other.content_revision && self.map_revision == other.map_revision && self.world_policy_revision
            == other.world_policy_revision
    }
}

/// The inactive successor proof the proof owner reserved for the candidate.
pub struct CompleteReconnectProofTransitionV1 {
    pub owner: RuntimeScopeRefV1,
    pub revision: u64,
    pub accepted_revision: u64,
    pub observed_at: i64,
    pub predecessor_session: GameSessionId,
    pub predecessor_generation: u64,
    pub successor_session: GameSessionId,
    pub successor_generation: u64,
    pub candidate: ReconnectCandidateBindingV1,
}

pub struct ProofTransitionView {
    pub owner: RuntimeScopeRefV1,
    pub revision: u64,
    pub accepted_revision: u64,
    pub observed_at: i64,
    pub predecessor_session: GameSessionId,
    pub predecessor_generation: u64,
    pub successor_session: GameSessionId,
    pub successor_generation: u64,
    pub candidate: ReconnectCandidateBindingView,
}

impl View for CompleteReconnectProofTransitionV1 {
    type V = ProofTransitionView;

    open spec fn view(&self) -> ProofTransitionView {
        ProofTransitionView {
            owner: self.owner,
            revision: self.revision,
            accepted_revision: self.accepted_revision,
            observed_at: self.observed_at,
            predecessor_session: self.predecessor_session,
            predecessor_generation: self.predecessor_generation,
            successor_session: self.successor_session,
            successor_generation: self.successor_generation,
            candidate: self.candidate@,
        }
    }
}

/// An observation at `observed_at` is too old at `now`.
pub open spec fn stale_at(observed_at: i64, now: i64) -> bool {
    observed_at + EVIDENCE_FRESHNESS_SECONDS_V1 > i64::MAX || now > observed_at + EVIDENCE_FRESHNESS_SECONDS_V1
}

fn is_stale_at(observed_at: i64, now: i64) -> (r: bool)
    ensures
        r == stale_at(observed_at, now),
{
    observed_at > i64::MAX - EVIDENCE_FRESHNESS_SECONDS_V1 || now > observed_at + EVIDENCE_FRESHNESS_SECONDS_V1
}

impl CompleteReconnectProofTransitionV1 {
    pub fn duplicate(&self) -> (r: Self)
        ensures
            r@ == self@,
    {
        CompleteReconnectProofTransitionV1 { ..*self }
    }

    pub fn same(&self, other: &Self) -> (r: bool)
        ensures
            r == (self@ == other@),
    {
        crate::admission::same_runtime_scope(self.owner, other.owner) && self.revision == other.revision
            && self.accepted_revision == other.accepted_revision && self.observed_at == other.observed_at
            && self.predecessor_session == other.predecessor_session && self.predecessor_generation
            == other.predecessor_generation && self.successor_session == other.successor_session
            && self.successor_generation == other.successor_generation && self.candidate.same(other.candidate)
    }
}

/// Whether a reserved successor proof is current for a snapshot and identity
/// at `now`: owned by the snapshot's source, accepted, fresh, succeeding the
/// predecessor proof, for the same candidate.
pub open spec fn proof_transition_stale(
    t: ProofTransitionView,
    s: CompleteSnapshotView,
    identity: ReconnectIdentityView,
    now: i64,
) -> bool {
    ||| t.owner != s.source_authority
    ||| t.revision == 0
    ||| t.accepted_revision != t.revision
    ||| t.observed_at > now
    ||| t.observed_at < s.loss_decided_at
    ||| stale_at(t.observed_at, now)
    ||| t.predecessor_session != s.session.commit.game_session_id
    ||| t.predecessor_generation == 0
    ||| t.successor_session != identity.game_session_id
    ||| t.successor_generation == 0
    ||| t.candidate != s.candidate
    ||| (t.successor_session == t.predecessor_session && t.successor_generation <= t.predecessor_generation)
}

/// The independently loaded actor, session and claim facts a complete
/// reconnect is prepared against.
pub struct CompleteReconnectSnapshotV1 {
    pub loss: ControlLossOperationV1,
    pub loss_decided_at: i64,
    pub source_authority: RuntimeScopeRefV1,
    pub source_revision: u64,
    pub accepted_source_revision: u64,
    pub observed_at: i64,
    pub session: GameSessionAuthoritySnapshot<AuthenticatedTransportRefV1>,
    pub account_presence: AccountPresenceClaimV1,
    pub actor_present: bool,
    pub runtime_ready: bool,
    pub placement_identity: [u8; 16],
    pub placement_revision: u64,
    pub protection: RecoveryProtectionContinuityV1,
    pub budget: RetainedRecoveryBudgetV1,
    pub candidate: ReconnectCandidateBindingV1,
    pub proof_transition: CompleteReconnectProofTransitionV1,
    pub fnd02: Fnd02ReconciliationFenceV1,
    pub recovery: RecoveryCurrentEvidenceV1,
    pub claims: Vec<AdmissionAuthorityPublicationChangeV1>,
}

pub struct CompleteSnapshotView {
    pub loss: ControlLossOperationView,
    pub loss_decided_at: i64,
    pub source_authority: RuntimeScopeRefV1,
    pub source_revision: u64,
    pub accepted_source_revision: u64,
    pub observed_at: i64,
    pub session: GameSessionAuthoritySnapshotView<AuthenticatedTransportRefV1>,
    pub account_presence: AccountPresenceClaimView,
    pub actor_present: bool,
    pub runtime_ready: bool,
    pub placement_identity: Seq<u8>,
    pub placement_revision: u64,
    pub protection: RecoveryProtectionContinuityV1,
    pub budget: RetainedRecoveryBudgetView,
    pub candidate: ReconnectCandidateBindingView,
    pub proof_transition: ProofTransitionView,
    pub fnd02: Fnd02ReconciliationFenceView,
    pub recovery: RecoveryEvidenceView,
    pub claims: Seq<PublicationChangeView>,
}

impl View for CompleteReconnectSnapshotV1 {
    type V = CompleteSnapshotView;

    open spec fn view(&self) -> CompleteSnapshotView {
        CompleteSnapshotView {
            loss: self.loss@,
            loss_decided_at: self.loss_decided_at,
            source_authority: self.source_authority,
            source_revision: self.source_revision,
            accepted_source_revision: self.accepted_source_revision,
            observed_at: self.observed_at,
            session: self.session@,
            account_presence: self.account_presence@,
            actor_present: self.actor_present,
            runtime_ready: self.runtime_ready,
            placement_identity: self.placement_identity@,
            placement_revision: self.placement_revision,
            protection: self.protection,
            budget: self.budget@,
            candidate: self.candidate@,
            proof_transition: self.proof_transition@,
            fnd02: self.fnd02@,
            recovery: self.recovery@,
            claims: changes_view(self.claims@),
        }
    }
}

/// The answers of the foundation helpers on a snapshot at a given time:
/// its lifecycle and claim resource fields are bounded, and its guard claims
/// are consistent with its session for the identity's account.
#[derive(Debug, Clone, Copy, PartialEq, Eq, Structural)]
pub struct CompleteSnapshotChecksV1 {
    pub resources_bounded: bool,
    pub claims_valid: bool,
}

/// Whether the snapshot's facts fail to support a complete reconnect of
/// `identity` at `now`.
pub open spec fn snapshot_stale(s: CompleteSnapshotView, identity: ReconnectIdentityView, now: i64) -> bool {
    let loss = s.loss.observation;
    let session = s.session;
    ||| s.loss_decided_at < s.loss.authorized_at
    ||| s.loss_decided_at > now
    ||| now < s.observed_at
    ||| s.observed_at < s.loss_decided_at
    ||| stale_at(s.observed_at, now)
    ||| s.source_revision == 0
    ||| s.source_revision != s.accepted_source_revision
    ||| s.source_authority != session.current_runtime_scope
    ||| !s.actor_present
    ||| !s.runtime_ready
    ||| crate::bytes::all_zero(s.placement_identity)
    ||| s.placement_revision == 0
    ||| session.current_transport is Some
    ||| !(session.session_state == GameSessionState::Reconnectable || session.session_state
        == GameSessionState::Terminal)
    ||| session.commit != loss.session.commit
    ||| session.current_connection_generation != loss.session.current_connection_generation
    ||| s.account_presence != loss.account_presence
    ||| session.current_control_loss_epoch != Some(loss.loss_epoch)
    ||| session.current_original_grace_deadline != Some(loss.original_grace_deadline)
    ||| s.budget.epoch != loss.loss_epoch
    ||| s.budget.state != RecoveryEpochStateV1::Open
    ||| s.protection != loss.protection
    ||| identity.account_id != s.account_presence.account_id
    ||| identity.character_id != s.account_presence.character_id
    ||| identity.character_id != session.commit.character_id
    ||| identity.world_id != session.commit.world_id
    ||| identity.runtime_scope != session.current_runtime_scope
    ||| identity.account_id != s.recovery.account_id
    ||| identity.character_id != s.recovery.character_id
    ||| identity.world_id != s.recovery.world_id
    ||| s.candidate.game_session_id != identity.game_session_id
    ||| s.candidate.reconnect_attempt_ref != identity.reconnect_attempt_ref
    ||| session.current_connection_generation@ + 1 != s.candidate.connection_generation@
    ||| !(now >= 0 && now <= s.candidate.prepared_deadline)
    ||| s.candidate.prepared_deadline > loss.original_grace_deadline
    ||| now > loss.original_grace_deadline
}

/// Whether a snapshot supports a complete reconnect of `identity` at `now`,
/// or the first reason it does not.
pub open spec fn spec_snapshot_valid(
    s: CompleteSnapshotView,
    identity: ReconnectIdentityView,
    now: i64,
    checks: CompleteSnapshotChecksV1,
) -> Result<(), ReconnectDurabilityErrorV1> {
    if !checks.resources_bounded {
        Err(ReconnectDurabilityErrorV1::InvalidRecord)
    } else if operation_result(s.loss) is Err {
        operation_result(s.loss)
    } else if snapshot_stale(s, identity, now) {
        Err(ReconnectDurabilityErrorV1::StaleAuthority)
    } else if current_authority_error(s.session.commit.game_session_id, s.session) is Some {
        Err(ReconnectDurabilityErrorV1::StaleAuthority)
    } else if !protection_valid(s.protection, now) {
        Err(ReconnectDurabilityErrorV1::InvalidRecord)
    } else if proof_transition_stale(s.proof_transition, s, identity, now) {
        Err(ReconnectDurabilityErrorV1::StaleAuthority)
    } else if spec_check_candidate(s.budget, identity.reconnect_attempt_ref, s.candidate.transport_ref) is Err {
        Err(spec_check_candidate(s.budget, identity.reconnect_attempt_ref, s.candidate.transport_ref)->Err_0)
    } else if !checks.claims_valid {
        Err(ReconnectDurabilityErrorV1::StaleAuthority)
    } else {
        Ok(())
    }
}

pub(crate) fn same_changes(a: &[AdmissionAuthorityPublicationChangeV1], b: &[AdmissionAuthorityPublicationChangeV1]) -> (r: bool)
    ensures
        r == (changes_view(a@) == changes_view(b@)),
{
    if a.len() != b.len() {
        return false;
    }
    let mut i: usize = 0;
    while i < a.len()
        invariant
            a@.len() == b@.len(),
            i <= a@.len(),
            forall|j: int| 0 <= j < i ==> a@[j]@ == b@[j]@,
        decreases a@.len() - i,
    {
        if !a[i].same(&b[i]) {
            assert(changes_view(a@)[i as int] != changes_view(b@)[i as int]);
            return false;
        }
        i = i + 1;
    }
    assert(changes_view(a@) =~= changes_view(b@));
    true
}

impl CompleteReconnectSnapshotV1 {
    pub fn duplicate(&self) -> (r: Self)
        ensures
            r@ == self@,
    {
        CompleteReconnectSnapshotV1 {
            loss: self.loss.duplicate(),
            loss_decided_at: self.loss_decided_at,
            source_authority: self.source_authority,
            source_revision: self.source_revision,
            accepted_source_revision: self.accepted_source_revision,
            observed_at: self.observed_at,
            session: self.session,
            account_presence: self.account_presence.duplicate(),
            actor_present: self.actor_present,
            runtime_ready: self.runtime_ready,
            placement_identity: self.placement_identity,
            placement_revision: self.placement_revision,
            protection: self.protection,
            budget: self.budget.duplicate(),
            candidate: self.candidate,
            proof_transition: self.proof_transition.duplicate(),
            fnd02: self.fnd02.duplicate(),
            recovery: self.recovery.duplicate(),
            claims: copy_changes(self.claims.as_slice()),
        }
    }

    pub fn same(&self, other: &Self) -> (r: bool)
        ensures
            r == (self@ == other@),
    {
        proof {
            crate::durability::lemma_transport_obeys_concrete_eq();
        }
        let a1 = self.loss.same(&other.loss);
        let a2 = self.session.same(other.session);
        let a3 = self.account_presence.same(&other.account_presence);
        let a4 = crate::bytes::same_bytes16(&self.placement_identity, &other.placement_identity);
        let a5 = self.budget.same(&other.budget);
        let a6 = self.candidate.same(other.candidate);
        let a7 = self.proof_transition.same(&other.proof_transition);
        let a8 = self.fnd02.same(&other.fnd02);
        let a9 = self.recovery.same(&other.recovery);
        let a10 = same_changes(self.claims.as_slice(), other.claims.as_slice());
        let a11 = crate::admission::same_runtime_scope(self.source_authority, other.source_authority);
        let r = a1 && a2 && a3 && a4 && a5 && a6 && a7 && a8 && a9 && a10 && a11 && self.loss_decided_at
            == other.loss_decided_at && self.source_revision == other.source_revision && self.accepted_source_revision
            == other.accepted_source_revision && self.observed_at == other.observed_at && self.actor_present
            == other.actor_present && self.runtime_ready == other.runtime_ready && self.placement_revision
            == other.placement_revision && self.protection == other.protection;
        proof {
            if self@ == other@ {
                assert(a1);
                assert(a2);
                assert(a3);
                assert(forall|i: int| 0 <= i < 16 ==> self.placement_identity@[i] == other.placement_identity@[i]);
                assert(self.placement_identity =~= other.placement_identity);
                assert(a4);
                assert(a5);
                assert(a6);
                assert(a7);
                assert(a8);
                assert(a9);
                assert(a10);
                assert(a11);
            }
            if r {
                assert(self@.claims =~= other@.claims);
                assert(self@.placement_identity =~= other@.placement_identity);
            }
        }
        r
    }

    fn stale_for(&self, identity: &ReconnectIdentityV1, now: i64) -> (r: bool)
        ensures
            r == snapshot_stale(self@, identity@, now),
    {
        proof {
            crate::durability::lemma_transport_obeys_concrete_eq();
        }
        let loss = &self.loss.observation;
        let session = self.session;
        let grace_live = self.candidate.prepared_deadline() > loss.original_grace_deadline
            || now > loss.original_grace_deadline;
        let next_generation = match session.current_connection_generation().get().checked_add(1) {
            Some(g) => g == self.candidate.connection_generation().get(),
            None => false,
        };
        if self.loss_decided_at < self.loss.authorized_at || self.loss_decided_at > now || now < self.observed_at
            || self.observed_at < self.loss_decided_at || is_stale_at(self.observed_at, now) || self.source_revision
            == 0 || self.source_revision != self.accepted_source_revision {
            return true;
        }
        if !crate::admission::same_runtime_scope(self.source_authority, session.current_runtime_scope())
            || !self.actor_present || !self.runtime_ready || crate::bytes::is_all_zero(self.placement_identity.as_slice())
            || self.placement_revision == 0 {
            return true;
        }
        if session.current_transport().is_some() || !(session.session_state() == GameSessionState::Reconnectable
            || session.session_state() == GameSessionState::Terminal) {
            return true;
        }
        if !session.same_commit(loss.session) || session.current_connection_generation()
            != loss.session.current_connection_generation() || !self.account_presence.same(&loss.account_presence) {
            return true;
        }
        if session.current_control_loss_epoch() != Some(loss.loss_epoch)
            || session.current_original_grace_deadline() != Some(loss.original_grace_deadline) {
            return true;
        }
        if self.budget.epoch() != loss.loss_epoch || self.budget.state() != RecoveryEpochStateV1::Open
            || self.protection != loss.protection {
            return true;
        }
        if !same_text(identity.account_id(), self.account_presence.account_id())
            || identity.character_id() != self.account_presence.character_id() || identity.character_id()
            != session.commit().character_id() || identity.world_id() != session.commit().world_id() {
            return true;
        }
        if !crate::admission::same_runtime_scope(identity.runtime_scope(), session.current_runtime_scope())
            || !same_text(identity.account_id(), self.recovery.account_id.as_str()) || identity.character_id()
            != self.recovery.character_id || identity.world_id() != self.recovery.world_id {
            return true;
        }
        if self.candidate.game_session_id() != identity.game_session_id()
            || self.candidate.reconnect_attempt_ref() != identity.reconnect_attempt_ref() {
            return true;
        }
        !next_generation || !self.candidate.is_live_at(now) || grace_live
    }

    fn proof_transition_stale_for(&self, identity: &ReconnectIdentityV1, now: i64) -> (r: bool)
        ensures
            r == proof_transition_stale(self@.proof_transition, self@, identity@, now),
    {
        let t = &self.proof_transition;
        !crate::admission::same_runtime_scope(t.owner, self.source_authority) || t.revision == 0
            || t.accepted_revision != t.revision || t.observed_at > now || t.observed_at < self.loss_decided_at
            || is_stale_at(t.observed_at, now) || t.predecessor_session != self.session.commit().game_session_id()
            || t.predecessor_generation == 0 || t.successor_session != identity.game_session_id()
            || t.successor_generation == 0 || !t.candidate.same(self.candidate) || (t.successor_session
            == t.predecessor_session && t.successor_generation <= t.predecessor_generation)
    }

    /// Whether this snapshot supports a complete reconnect of `identity` at
    /// `now`, given the foundation helpers' answers on it.
    pub fn validate(&self, identity: &ReconnectIdentityV1, now: i64, checks: CompleteSnapshotChecksV1) -> (r: Result<
        (),
        ReconnectDurabilityErrorV1,
    >)
        ensures
            r == spec_snapshot_valid(self@, identity@, now, checks),
    {
        if !checks.resources_bounded {
            return Err(ReconnectDurabilityErrorV1::InvalidRecord);
        }
        if let Err(e) = self.loss.validate_historical() {
            return Err(e);
        }
        if self.stale_for(identity, now) {
            return Err(ReconnectDurabilityErrorV1::StaleAuthority);
        }
        if validate_current_authority(self.session.commit().game_session_id(), self.session).is_err() {
            return Err(ReconnectDurabilityErrorV1::StaleAuthority);
        }
        if let Err(e) = self.protection.validate(now) {
            return Err(e);
        }
        if self.proof_transition_stale_for(identity, now) {
            return Err(ReconnectDurabilityErrorV1::StaleAuthority);
        }
        if let Err(e) = self.budget.check_candidate(identity.reconnect_attempt_ref(), self.candidate.transport_ref()) {
            return Err(e);
        }
        if !checks.claims_valid {
            return Err(ReconnectDurabilityErrorV1::StaleAuthority);
        }
        Ok(())
    }
}


/// The V1 trust an existing verifier returned for a recovery credential.
pub struct CompleteV1TrustBindingV1 {
    pub signing_key_id: String,
    pub signing_public_key: [u8; 32],
    pub minimum_generation: u64,
}

pub struct TrustBindingView {
    pub signing_key_id: Seq<char>,
    pub signing_public_key: Seq<u8>,
    pub minimum_generation: u64,
}

impl View for CompleteV1TrustBindingV1 {
    type V = TrustBindingView;

    open spec fn view(&self) -> TrustBindingView {
        TrustBindingView {
            signing_key_id: self.signing_key_id@,
            signing_public_key: self.signing_public_key@,
            minimum_generation: self.minimum_generation,
        }
    }
}

/// The audited facts of a V2 recovery credential, as the verifier recorded
/// them.
pub struct RecoveryCredentialAuditV2 {
    pub account_id: String,
    pub character_id: CharacterId,
    pub world_id: WorldId,
    pub grant_nonce: [u8; 32],
    pub account_security_generation: u64,
    pub protocol_major: u64,
    pub transport_profile: u64,
    pub expires_at: i64,
    pub verified_at: i64,
    pub accepted_deadline: i64,
    pub ruleset_revision: String,
    pub content_revision: String,
    pub map_revision: String,
    pub world_policy_revision: String,
    pub credential_attempt_ref: u64,
    pub issued_at: i64,
    pub not_before: i64,
    pub security_source_revision: u64,
}

pub struct AuditView {
    pub account_id: Seq<char>,
    pub character_id: CharacterId,
    pub world_id: WorldId,
    pub grant_nonce: Seq<u8>,
    pub account_security_generation: u64,
    pub protocol_major: u64,
    pub transport_profile: u64,
    pub expires_at: i64,
    pub verified_at: i64,
    pub accepted_deadline: i64,
    pub ruleset_revision: Seq<char>,
    pub content_revision: Seq<char>,
    pub map_revision: Seq<char>,
    pub world_policy_revision: Seq<char>,
    pub credential_attempt_ref: u64,
    pub issued_at: i64,
    pub not_before: i64,
    pub security_source_revision: u64,
}

impl View for RecoveryCredentialAuditV2 {
    type V = AuditView;

    open spec fn view(&self) -> AuditView {
        AuditView {
            account_id: self.account_id@,
            character_id: self.character_id,
            world_id: self.world_id,
            grant_nonce: self.grant_nonce@,
            account_security_generation: self.account_security_generation,
            protocol_major: self.protocol_major,
            transport_profile: self.transport_profile,
            expires_at: self.expires_at,
            verified_at: self.verified_at,
            accepted_deadline: self.accepted_deadline,
            ruleset_revision: self.ruleset_revision@,
            content_revision: self.content_revision@,
            map_revision: self.map_revision@,
            world_policy_revision: self.world_policy_revision@,
            credential_attempt_ref: self.credential_attempt_ref,
            issued_at: self.issued_at,
            not_before: self.not_before,
            security_source_revision: self.security_source_revision,
        }
    }
}

/// A verified recovery credential, as retained in the operation.
pub struct CompleteRecoveryCredentialV1 {
    pub grant_nonce: [u8; 32],
    pub account_security_generation: u64,
    pub protocol_major: u64,
    pub transport_profile: u64,
    pub ruleset_revision: String,
    pub content_revision: String,
    pub map_revision: String,
    pub world_policy_revision: String,
    pub expires_at: i64,
    pub v1_trust: Option<CompleteV1TrustBindingV1>,
    pub v2: Option<RecoveryCredentialAuditV2>,
}

pub struct RecoveryCredentialView {
    pub grant_nonce: Seq<u8>,
    pub account_security_generation: u64,
    pub protocol_major: u64,
    pub transport_profile: u64,
    pub ruleset_revision: Seq<char>,
    pub content_revision: Seq<char>,
    pub map_revision: Seq<char>,
    pub world_policy_revision: Seq<char>,
    pub expires_at: i64,
    pub v1_trust: Option<TrustBindingView>,
    pub v2: Option<AuditView>,
}

impl View for CompleteRecoveryCredentialV1 {
    type V = RecoveryCredentialView;

    open spec fn view(&self) -> RecoveryCredentialView {
        RecoveryCredentialView {
            grant_nonce: self.grant_nonce@,
            account_security_generation: self.account_security_generation,
            protocol_major: self.protocol_major,
            transport_profile: self.transport_profile,
            ruleset_revision: self.ruleset_revision@,
            content_revision: self.content_revision@,
            map_revision: self.map_revision@,
            world_policy_revision: self.world_policy_revision@,
            expires_at: self.expires_at,
            v1_trust: match self.v1_trust {
                Some(t) => Some(t@),
                None => None,
            },
            v2: match self.v2 {
                Some(a) => Some(a@),
                None => None,
            },
        }
    }
}

/// Metadata the proof owner registered after verifying the bearer on the
/// candidate transport.
pub struct CompleteFastReconnectBindingV1 {
    pub session: GameSessionId,
    pub predecessor: ConnectionGeneration,
    pub attempt: ReconnectAttemptRef,
    pub transport: AuthenticatedTransportRefV1,
    pub proof_generation: u64,
    pub replacement_proof_generation: u64,
    pub verified_at: i64,
    pub compatibility: ReconnectCompatibilityEvidenceV1,
}

pub struct FastBindingView {
    pub session: GameSessionId,
    pub predecessor: ConnectionGeneration,
    pub attempt: ReconnectAttemptRef,
    pub transport: AuthenticatedTransportRefV1,
    pub proof_generation: u64,
    pub replacement_proof_generation: u64,
    pub verified_at: i64,
    pub compatibility: ReconnectCompatibilityEvidenceView,
}

impl View for CompleteFastReconnectBindingV1 {
    type V = FastBindingView;

    open spec fn view(&self) -> FastBindingView {
        FastBindingView {
            session: self.session,
            predecessor: self.predecessor,
            attempt: self.attempt,
            transport: self.transport,
            proof_generation: self.proof_generation,
            replacement_proof_generation: self.replacement_proof_generation,
            verified_at: self.verified_at,
            compatibility: self.compatibility@,
        }
    }
}

pub enum CompleteReconnectCredentialV1 {
    Recovery(CompleteRecoveryCredentialV1),
    Fast(CompleteFastReconnectBindingV1),
}

pub enum CredentialView {
    Recovery(RecoveryCredentialView),
    Fast(FastBindingView),
}

impl View for CompleteReconnectCredentialV1 {
    type V = CredentialView;

    open spec fn view(&self) -> CredentialView {
        match self {
            CompleteReconnectCredentialV1::Recovery(c) => CredentialView::Recovery(c@),
            CompleteReconnectCredentialV1::Fast(b) => CredentialView::Fast(b@),
        }
    }
}

/// A freshness evidence of a fast binding is current at `now` and covers
/// the candidate's whole PREPARE window.
pub open spec fn evidence_current(e: AuthorityEvidenceFenceView, now: i64, prepared_deadline: i64) -> bool {
    !(e.source_observed_at > now || stale_at(e.source_observed_at, now) || prepared_deadline
        > e.source_observed_at + EVIDENCE_FRESHNESS_SECONDS_V1)
}

/// Whether a fast binding proves the bearer for the snapshot's candidate at
/// `now`.
pub open spec fn fast_binding_valid(b: FastBindingView, s: CompleteSnapshotView, identity: ReconnectIdentityView, now: i64) -> bool {
    let c = b.compatibility;
    &&& b.session == identity.game_session_id
    &&& b.session == s.session.commit.game_session_id
    &&& b.predecessor == s.session.current_connection_generation
    &&& b.attempt == identity.reconnect_attempt_ref
    &&& b.transport == s.candidate.transport_ref
    &&& b.proof_generation == s.proof_transition.predecessor_generation
    &&& b.replacement_proof_generation == s.proof_transition.successor_generation
    &&& b.proof_generation != 0
    &&& b.replacement_proof_generation > b.proof_generation
    &&& b.verified_at == now
    &&& c.credential_expiration is None
    &&& c.protocol_major == 1
    &&& c.transport_profile == 1
    &&& c.ruleset_revision == s.recovery.ruleset_revision
    &&& c.content_revision == s.recovery.content_revision
    &&& c.map_revision == s.recovery.map_revision
    &&& c.world_policy_revision == s.recovery.world_policy_revision
    &&& evidence_current(c.platform_security_evidence, now, s.candidate.prepared_deadline)
    &&& evidence_current(c.proof_trust_evidence, now, s.candidate.prepared_deadline)
}

/// The answers of the foundation helpers on a credential: its lifecycle
/// fields (revisions and V1 signing key) are within their bounds, and its
/// V2 audit, if any, is historically valid.
#[derive(Debug, Clone, Copy, PartialEq, Eq, Structural)]
pub struct CredentialChecksV1 {
    pub fields_bounded: bool,
    pub audit_valid: bool,
}

/// Whether a recovery credential is well formed.
pub open spec fn recovery_credential_valid(c: RecoveryCredentialView, checks: CredentialChecksV1) -> bool {
    &&& !crate::bytes::all_zero(c.grant_nonce)
    &&& c.account_security_generation != 0
    &&& c.protocol_major == 1
    &&& c.transport_profile == 1
    &&& c.expires_at > 0
    &&& checks.fields_bounded
    &&& match (c.v1_trust, c.v2) {
        (Some(b), None) => b.minimum_generation > 0 && b.minimum_generation <= c.account_security_generation
            && b.signing_key_id.len() > 0,
        (None, Some(_)) => checks.audit_valid,
        _ => false,
    }
}

/// The V2 audit of a recovery credential disagrees with the operation.
pub open spec fn audit_mismatch(a: AuditView, c: RecoveryCredentialView, identity: ReconnectIdentityView, s: CompleteSnapshotView, prepared_at: i64) -> bool {
    ||| a.account_id != identity.account_id
    ||| a.character_id != identity.character_id
    ||| a.world_id != identity.world_id
    ||| a.grant_nonce != c.grant_nonce
    ||| a.account_security_generation != c.account_security_generation
    ||| a.protocol_major != c.protocol_major
    ||| a.transport_profile != c.transport_profile
    ||| a.expires_at != c.expires_at
    ||| a.verified_at != prepared_at
    ||| s.candidate.prepared_deadline > a.accepted_deadline
    ||| a.ruleset_revision != c.ruleset_revision
    ||| a.content_revision != c.content_revision
    ||| a.map_revision != c.map_revision
    ||| a.world_policy_revision != c.world_policy_revision
}

/// The minimum account security generation the account guard demands, when
/// the first claim is the account's.
pub open spec fn account_floor(claims: Seq<PublicationChangeView>) -> Option<u64> {
    if claims.len() == 0 {
        None
    } else {
        match claims[0].state {
            GuardStateView::Account { security, .. } => Some(security.minimum_generation),
            _ => None,
        }
    }
}


/// Complete reconnect is an additive durability format: the same session
/// reconnects, or a terminal session is replaced early by its successor.
#[derive(Debug, Clone, Copy, PartialEq, Eq, Structural)]
pub enum CompleteReconnectModeV1 {
    SameSession,
    EarlyTerminalReplacement,
}

/// The durable operation of one complete reconnect.
pub struct CompleteReconnectOperationV1 {
    pub version: u16,
    pub mode: CompleteReconnectModeV1,
    pub identity: ReconnectIdentityV1,
    pub original: CompleteReconnectSnapshotV1,
    pub credential: CompleteReconnectCredentialV1,
    pub prepared_at: i64,
}

pub struct OperationView {
    pub version: u16,
    pub mode: CompleteReconnectModeV1,
    pub identity: ReconnectIdentityView,
    pub original: CompleteSnapshotView,
    pub credential: CredentialView,
    pub prepared_at: i64,
}

impl View for CompleteReconnectOperationV1 {
    type V = OperationView;

    open spec fn view(&self) -> OperationView {
        OperationView {
            version: self.version,
            mode: self.mode,
            identity: self.identity@,
            original: self.original@,
            credential: self.credential@,
            prepared_at: self.prepared_at,
        }
    }
}

/// The foundation helpers' answers an operation's historical check needs: on its
/// snapshot at its PREPARE time, and on its credential.
#[derive(Debug, Clone, Copy, PartialEq, Eq, Structural)]
pub struct OperationChecksV1 {
    pub snapshot: CompleteSnapshotChecksV1,
    pub credential: CredentialChecksV1,
}

/// Whether some retained attempt is still PREPARED.
pub open spec fn has_prepared(b: RetainedRecoveryBudgetView) -> bool {
    exists|i: int|
        0 <= i < b.entries.len() && (#[trigger] b.entries[i]).disposition
            == crate::budget::RetainedRecoveryAttemptDispositionV1::Prepared
}

/// The account security generation the credential carries.
pub open spec fn credential_security_generation(c: CredentialView) -> u64 {
    match c {
        CredentialView::Recovery(r) => r.account_security_generation,
        CredentialView::Fast(b) => b.compatibility.account_security_generation,
    }
}

/// Whether the credential is a recovery credential with a V2 audit.
pub open spec fn credential_has_audit(c: CredentialView) -> bool {
    c matches CredentialView::Recovery(r) && r.v2 is Some
}

/// The credential's own check against the operation.
pub open spec fn spec_credential_historical(op: OperationView, checks: CredentialChecksV1) -> Result<(), ReconnectDurabilityErrorV1> {
    match op.credential {
        CredentialView::Fast(b) => if fast_binding_valid(b, op.original, op.identity, op.prepared_at) {
            Ok(())
        } else {
            Err(ReconnectDurabilityErrorV1::StaleAuthority)
        },
        CredentialView::Recovery(c) => {
            let current = op.original.recovery;
            if !recovery_credential_valid(c, checks) {
                Err(ReconnectDurabilityErrorV1::InvalidRecord)
            } else if c.ruleset_revision != current.ruleset_revision || c.content_revision != current.content_revision
                || c.map_revision != current.map_revision || c.world_policy_revision != current.world_policy_revision {
                Err(ReconnectDurabilityErrorV1::InvalidRecord)
            } else if c.v2 matches Some(a) && audit_mismatch(a, c, op.identity, op.original, op.prepared_at) {
                Err(ReconnectDurabilityErrorV1::InvalidRecord)
            } else if op.original.candidate.prepared_deadline > c.expires_at {
                Err(ReconnectDurabilityErrorV1::InvalidRecord)
            } else {
                Ok(())
            }
        },
    }
}

/// Whether the operation's mode disagrees with its identity and snapshot.
pub open spec fn mode_mismatch(op: OperationView) -> bool {
    let same = op.identity.game_session_id == op.original.session.commit.game_session_id;
    let state = op.original.session.session_state;
    ||| (op.mode == CompleteReconnectModeV1::SameSession && (!same || state != GameSessionState::Reconnectable))
    ||| (op.mode == CompleteReconnectModeV1::EarlyTerminalReplacement && (same || state != GameSessionState::Terminal
        || !credential_has_audit(op.credential)))
}

/// The historical consistency of a complete-reconnect operation: its
/// version, its snapshot at its PREPARE time, no other PREPARED attempt, its
/// credential, the account security floor, and its mode.
pub open spec fn spec_complete_operation_historical(op: OperationView, checks: OperationChecksV1) -> Result<
    (),
    ReconnectDurabilityErrorV1,
> {
    if op.version != 1 {
        Err(ReconnectDurabilityErrorV1::InvalidRecord)
    } else if spec_snapshot_valid(op.original, op.identity, op.prepared_at, checks.snapshot) is Err {
        spec_snapshot_valid(op.original, op.identity, op.prepared_at, checks.snapshot)
    } else if has_prepared(op.original.budget) {
        Err(ReconnectDurabilityErrorV1::ConcurrentPrepared)
    } else if spec_credential_historical(op, checks.credential) is Err {
        spec_credential_historical(op, checks.credential)
    } else {
        match account_floor(op.original.claims) {
            None => Err(ReconnectDurabilityErrorV1::InvalidRecord),
            Some(floor) => if credential_security_generation(op.credential) < floor {
                Err(ReconnectDurabilityErrorV1::StaleAuthority)
            } else if mode_mismatch(op) {
                Err(ReconnectDurabilityErrorV1::InvalidRecord)
            } else {
                Ok(())
            },
        }
    }
}

fn evidence_is_current(e: &crate::durability::AuthorityEvidenceFenceV1, now: i64, prepared_deadline: i64) -> (r: bool)
    ensures
        r == evidence_current(e@, now, prepared_deadline),
{
    let observed = e.source_observed_at();
    !(observed > now || is_stale_at(observed, now) || prepared_deadline > observed + EVIDENCE_FRESHNESS_SECONDS_V1)
}

impl CompleteFastReconnectBindingV1 {
    fn is_valid(&self, s: &CompleteReconnectSnapshotV1, identity: &ReconnectIdentityV1, now: i64) -> (r: bool)
        ensures
            r == fast_binding_valid(self@, s@, identity@, now),
    {
        let c = &self.compatibility;
        let deadline = s.candidate.prepared_deadline();
        self.session == identity.game_session_id() && self.session == s.session.commit().game_session_id()
            && self.predecessor == s.session.current_connection_generation() && self.attempt
            == identity.reconnect_attempt_ref() && self.transport == s.candidate.transport_ref()
            && self.proof_generation == s.proof_transition.predecessor_generation && self.replacement_proof_generation
            == s.proof_transition.successor_generation && self.proof_generation != 0
            && self.replacement_proof_generation > self.proof_generation && self.verified_at == now
            && c.credential_expiration().is_none() && c.protocol_major() == 1 && c.transport_profile() == 1
            && same_text(c.ruleset_revision(), s.recovery.ruleset_revision.as_str()) && same_text(
            c.content_revision(),
            s.recovery.content_revision.as_str(),
        ) && same_text(c.map_revision(), s.recovery.map_revision.as_str()) && same_text(
            c.world_policy_revision(),
            s.recovery.world_policy_revision.as_str(),
        ) && evidence_is_current(c.platform_security_evidence(), now, deadline) && evidence_is_current(
            c.proof_trust_evidence(),
            now,
            deadline,
        )
    }
}

impl CompleteRecoveryCredentialV1 {
    fn is_valid(&self, checks: CredentialChecksV1) -> (r: bool)
        ensures
            r == recovery_credential_valid(self@, checks),
    {
        if crate::bytes::is_all_zero(self.grant_nonce.as_slice()) || self.account_security_generation == 0
            || self.protocol_major != 1 || self.transport_profile != 1 || self.expires_at <= 0 || !checks.fields_bounded {
            return false;
        }
        match (&self.v1_trust, &self.v2) {
            (Some(b), None) => b.minimum_generation > 0 && b.minimum_generation <= self.account_security_generation
                && !crate::text::is_empty_text(b.signing_key_id.as_str()),
            (None, Some(_)) => checks.audit_valid,
            _ => false,
        }
    }
}

fn audit_disagrees(
    a: &RecoveryCredentialAuditV2,
    c: &CompleteRecoveryCredentialV1,
    identity: &ReconnectIdentityV1,
    s: &CompleteReconnectSnapshotV1,
    prepared_at: i64,
) -> (r: bool)
    ensures
        r == audit_mismatch(a@, c@, identity@, s@, prepared_at),
{
    let nonce_same = crate::bytes::same_bytes(a.grant_nonce.as_slice(), c.grant_nonce.as_slice());
    !same_text(a.account_id.as_str(), identity.account_id()) || a.character_id != identity.character_id()
        || a.world_id != identity.world_id() || !nonce_same || a.account_security_generation
        != c.account_security_generation || a.protocol_major != c.protocol_major || a.transport_profile
        != c.transport_profile || a.expires_at != c.expires_at || a.verified_at != prepared_at
        || s.candidate.prepared_deadline() > a.accepted_deadline || a.ruleset_revision != c.ruleset_revision
        || a.content_revision != c.content_revision || a.map_revision != c.map_revision || a.world_policy_revision
        != c.world_policy_revision
}

fn budget_has_prepared(b: &RetainedRecoveryBudgetV1) -> (r: bool)
    ensures
        r == has_prepared(b@),
{
    let entries = b.entries();
    let mut i: usize = 0;
    while i < entries.len()
        invariant
            entries@ == b@.entries,
            i <= entries@.len(),
            forall|j: int| 0 <= j < i ==> (#[trigger] entries@[j]).disposition
                != crate::budget::RetainedRecoveryAttemptDispositionV1::Prepared,
        decreases entries@.len() - i,
    {
        if entries[i].disposition == crate::budget::RetainedRecoveryAttemptDispositionV1::Prepared {
            assert(entries@[i as int].disposition == crate::budget::RetainedRecoveryAttemptDispositionV1::Prepared);
            return true;
        }
        i = i + 1;
    }
    false
}

impl CompleteReconnectOperationV1 {
    fn credential_historical(&self, checks: CredentialChecksV1) -> (r: Result<(), ReconnectDurabilityErrorV1>)
        ensures
            r == spec_credential_historical(self@, checks),
    {
        match &self.credential {
            CompleteReconnectCredentialV1::Fast(b) => if b.is_valid(&self.original, &self.identity, self.prepared_at) {
                Ok(())
            } else {
                Err(ReconnectDurabilityErrorV1::StaleAuthority)
            },
            CompleteReconnectCredentialV1::Recovery(c) => {
                let current = &self.original.recovery;
                if !c.is_valid(checks) {
                    return Err(ReconnectDurabilityErrorV1::InvalidRecord);
                }
                if c.ruleset_revision != current.ruleset_revision || c.content_revision != current.content_revision
                    || c.map_revision != current.map_revision || c.world_policy_revision
                    != current.world_policy_revision {
                    return Err(ReconnectDurabilityErrorV1::InvalidRecord);
                }
                if let Some(a) = &c.v2 {
                    if audit_disagrees(a, c, &self.identity, &self.original, self.prepared_at) {
                        return Err(ReconnectDurabilityErrorV1::InvalidRecord);
                    }
                }
                if self.original.candidate.prepared_deadline() > c.expires_at {
                    return Err(ReconnectDurabilityErrorV1::InvalidRecord);
                }
                Ok(())
            },
        }
    }

    /// The historical consistency of this operation, given the foundation
    /// helpers' answers on its snapshot and credential.
    pub fn validate_historical(&self, checks: OperationChecksV1) -> (r: Result<(), ReconnectDurabilityErrorV1>)
        ensures
            r == spec_complete_operation_historical(self@, checks),
    {
        if self.version != 1 {
            return Err(ReconnectDurabilityErrorV1::InvalidRecord);
        }
        if let Err(e) = self.original.validate(&self.identity, self.prepared_at, checks.snapshot) {
            return Err(e);
        }
        if budget_has_prepared(&self.original.budget) {
            return Err(ReconnectDurabilityErrorV1::ConcurrentPrepared);
        }
        if let Err(e) = self.credential_historical(checks.credential) {
            return Err(e);
        }
        let security_generation = match &self.credential {
            CompleteReconnectCredentialV1::Recovery(c) => c.account_security_generation,
            CompleteReconnectCredentialV1::Fast(b) => b.compatibility.account_security_generation(),
        };
        if self.original.claims.len() == 0 {
            return Err(ReconnectDurabilityErrorV1::InvalidRecord);
        }
        let floor = match &self.original.claims[0].state {
            AdmissionAuthorityGuardStateV1::Account { security, .. } => security.minimum_generation,
            _ => return Err(ReconnectDurabilityErrorV1::InvalidRecord),
        };
        if security_generation < floor {
            return Err(ReconnectDurabilityErrorV1::StaleAuthority);
        }
        let same = self.identity.game_session_id() == self.original.session.commit().game_session_id();
        let state = self.original.session.session_state();
        let has_audit = match &self.credential {
            CompleteReconnectCredentialV1::Recovery(c) => c.v2.is_some(),
            CompleteReconnectCredentialV1::Fast(_) => false,
        };
        let mismatch = match self.mode {
            CompleteReconnectModeV1::SameSession => !same || state != GameSessionState::Reconnectable,
            CompleteReconnectModeV1::EarlyTerminalReplacement => same || state != GameSessionState::Terminal
                || !has_audit,
        };
        if mismatch {
            return Err(ReconnectDurabilityErrorV1::InvalidRecord);
        }
        Ok(())
    }
}


fn same_nonce(a: &[u8; 32], b: &[u8; 32]) -> (r: bool)
    ensures
        r == (a@ == b@),
{
    crate::bytes::same_bytes(a.as_slice(), b.as_slice())
}

impl CompleteV1TrustBindingV1 {
    pub fn duplicate(&self) -> (r: Self)
        ensures
            r@ == self@,
    {
        CompleteV1TrustBindingV1 {
            signing_key_id: self.signing_key_id.clone(),
            signing_public_key: self.signing_public_key,
            minimum_generation: self.minimum_generation,
        }
    }

    pub fn same(&self, other: &Self) -> (r: bool)
        ensures
            r == (self@ == other@),
    {
        self.signing_key_id == other.signing_key_id && same_nonce(&self.signing_public_key, &other.signing_public_key)
            && self.minimum_generation == other.minimum_generation
    }
}

impl RecoveryCredentialAuditV2 {
    pub fn duplicate(&self) -> (r: Self)
        ensures
            r@ == self@,
    {
        RecoveryCredentialAuditV2 {
            account_id: self.account_id.clone(),
            character_id: self.character_id,
            world_id: self.world_id,
            grant_nonce: self.grant_nonce,
            account_security_generation: self.account_security_generation,
            protocol_major: self.protocol_major,
            transport_profile: self.transport_profile,
            expires_at: self.expires_at,
            verified_at: self.verified_at,
            accepted_deadline: self.accepted_deadline,
            ruleset_revision: self.ruleset_revision.clone(),
            content_revision: self.content_revision.clone(),
            map_revision: self.map_revision.clone(),
            world_policy_revision: self.world_policy_revision.clone(),
            credential_attempt_ref: self.credential_attempt_ref,
            issued_at: self.issued_at,
            not_before: self.not_before,
            security_source_revision: self.security_source_revision,
        }
    }

    pub fn same(&self, other: &Self) -> (r: bool)
        ensures
            r == (self@ == other@),
    {
        self.security_source_revision == other.security_source_revision
            && self.credential_attempt_ref == other.credential_attempt_ref && self.issued_at == other.issued_at
            && self.not_before == other.not_before && self.account_id == other.account_id && self.character_id == other.character_id && self.world_id
            == other.world_id && same_nonce(&self.grant_nonce, &other.grant_nonce) && self.account_security_generation
            == other.account_security_generation && self.protocol_major == other.protocol_major
            && self.transport_profile == other.transport_profile && self.expires_at == other.expires_at
            && self.verified_at == other.verified_at && self.accepted_deadline == other.accepted_deadline
            && self.ruleset_revision == other.ruleset_revision && self.content_revision == other.content_revision
            && self.map_revision == other.map_revision && self.world_policy_revision == other.world_policy_revision
    }
}

impl CompleteRecoveryCredentialV1 {
    pub fn duplicate(&self) -> (r: Self)
        ensures
            r@ == self@,
    {
        CompleteRecoveryCredentialV1 {
            grant_nonce: self.grant_nonce,
            account_security_generation: self.account_security_generation,
            protocol_major: self.protocol_major,
            transport_profile: self.transport_profile,
            ruleset_revision: self.ruleset_revision.clone(),
            content_revision: self.content_revision.clone(),
            map_revision: self.map_revision.clone(),
            world_policy_revision: self.world_policy_revision.clone(),
            expires_at: self.expires_at,
            v1_trust: match &self.v1_trust {
                Some(t) => Some(t.duplicate()),
                None => None,
            },
            v2: match &self.v2 {
                Some(a) => Some(a.duplicate()),
                None => None,
            },
        }
    }

    pub fn same(&self, other: &Self) -> (r: bool)
        ensures
            r == (self@ == other@),
    {
        let trust = match (&self.v1_trust, &other.v1_trust) {
            (Some(a), Some(b)) => a.same(b),
            (None, None) => true,
            _ => false,
        };
        let audit = match (&self.v2, &other.v2) {
            (Some(a), Some(b)) => a.same(b),
            (None, None) => true,
            _ => false,
        };
        same_nonce(&self.grant_nonce, &other.grant_nonce) && self.account_security_generation
            == other.account_security_generation && self.protocol_major == other.protocol_major
            && self.transport_profile == other.transport_profile && self.ruleset_revision == other.ruleset_revision
            && self.content_revision == other.content_revision && self.map_revision == other.map_revision
            && self.world_policy_revision == other.world_policy_revision && self.expires_at == other.expires_at
            && trust && audit
    }
}

impl CompleteFastReconnectBindingV1 {
    pub fn duplicate(&self) -> (r: Self)
        ensures
            r@ == self@,
    {
        CompleteFastReconnectBindingV1 {
            session: self.session,
            predecessor: self.predecessor,
            attempt: self.attempt,
            transport: self.transport,
            proof_generation: self.proof_generation,
            replacement_proof_generation: self.replacement_proof_generation,
            verified_at: self.verified_at,
            compatibility: self.compatibility.duplicate(),
        }
    }

    pub fn same(&self, other: &Self) -> (r: bool)
        ensures
            r == (self@ == other@),
    {
        self.session == other.session && self.predecessor == other.predecessor && self.attempt == other.attempt
            && self.transport == other.transport && self.proof_generation == other.proof_generation
            && self.replacement_proof_generation == other.replacement_proof_generation && self.verified_at
            == other.verified_at && self.compatibility.same(&other.compatibility)
    }
}

impl CompleteReconnectCredentialV1 {
    pub fn duplicate(&self) -> (r: Self)
        ensures
            r@ == self@,
    {
        match self {
            CompleteReconnectCredentialV1::Recovery(c) => CompleteReconnectCredentialV1::Recovery(c.duplicate()),
            CompleteReconnectCredentialV1::Fast(b) => CompleteReconnectCredentialV1::Fast(b.duplicate()),
        }
    }

    pub fn same(&self, other: &Self) -> (r: bool)
        ensures
            r == (self@ == other@),
    {
        match (self, other) {
            (CompleteReconnectCredentialV1::Recovery(a), CompleteReconnectCredentialV1::Recovery(b)) => a.same(b),
            (CompleteReconnectCredentialV1::Fast(a), CompleteReconnectCredentialV1::Fast(b)) => a.same(b),
            _ => false,
        }
    }
}

impl CompleteReconnectOperationV1 {
    pub fn duplicate(&self) -> (r: Self)
        ensures
            r@ == self@,
    {
        CompleteReconnectOperationV1 {
            version: self.version,
            mode: self.mode,
            identity: self.identity.duplicate(),
            original: self.original.duplicate(),
            credential: self.credential.duplicate(),
            prepared_at: self.prepared_at,
        }
    }

    pub fn same(&self, other: &Self) -> (r: bool)
        ensures
            r == (self@ == other@),
    {
        self.version == other.version && self.mode == other.mode && self.identity.same(&other.identity)
            && self.original.same(&other.original) && self.credential.same(&other.credential) && self.prepared_at
            == other.prepared_at
    }
}


/// What the registered source resolves now: the current snapshot, and the
/// canonical PREPARED operation it holds, if any.
pub struct CompleteReconnectCurrentV1 {
    pub snapshot: CompleteReconnectSnapshotV1,
    pub prepared: Option<CompleteReconnectOperationV1>,
}

pub struct CurrentView {
    pub snapshot: CompleteSnapshotView,
    pub prepared: Option<OperationView>,
}

impl View for CompleteReconnectCurrentV1 {
    type V = CurrentView;

    open spec fn view(&self) -> CurrentView {
        CurrentView {
            snapshot: self.snapshot@,
            prepared: match self.prepared {
                Some(o) => Some(o@),
                None => None,
            },
        }
    }
}

/// The foundation helpers' answers a current revalidation needs: on the held
/// operation, on the current snapshot now, on a stored PREPARED operation,
/// and whether the fresh V2 audit succeeds the original one.
#[derive(Debug, Clone, Copy)]
pub struct CurrentChecksV1 {
    pub operation: OperationChecksV1,
    pub snapshot: CompleteSnapshotChecksV1,
    pub stored: OperationChecksV1,
    pub successor: Result<(), ReconnectDurabilityErrorV1>,
}

/// A live authorization of one complete-reconnect operation.
pub struct CompleteReconnectAuthorizationV1 {
    operation: CompleteReconnectOperationV1,
}

impl View for CompleteReconnectAuthorizationV1 {
    type V = OperationView;

    closed spec fn view(&self) -> OperationView {
        self.operation@
    }
}

/// The operation a fresh authorization prepares for `identity` at `now`.
pub open spec fn authorized_operation(identity: ReconnectIdentityView, s: CompleteSnapshotView, credential: CredentialView, now: i64) -> OperationView {
    OperationView {
        version: 1,
        mode: if s.session.session_state == GameSessionState::Terminal {
            CompleteReconnectModeV1::EarlyTerminalReplacement
        } else {
            CompleteReconnectModeV1::SameSession
        },
        identity,
        original: s,
        credential,
        prepared_at: now,
    }
}

/// Authorizing a complete reconnect from what the source resolved now and
/// the credential the proof verified.
pub open spec fn spec_complete_authorize(
    identity: ReconnectIdentityView,
    current: CurrentView,
    credential: Result<CredentialView, ReconnectDurabilityErrorV1>,
    checks: OperationChecksV1,
    now: i64,
) -> Result<OperationView, ReconnectDurabilityErrorV1> {
    if spec_snapshot_valid(current.snapshot, identity, now, checks.snapshot) is Err {
        Err(spec_snapshot_valid(current.snapshot, identity, now, checks.snapshot)->Err_0)
    } else if current.prepared is Some {
        Err(ReconnectDurabilityErrorV1::ConcurrentPrepared)
    } else {
        match credential {
            Err(e) => Err(e),
            Ok(c) => {
                let op = authorized_operation(identity, current.snapshot, c, now);
                match spec_complete_operation_historical(op, checks) {
                    Err(e) => Err(e),
                    Ok(()) => Ok(op),
                }
            },
        }
    }
}

/// Whether a freshly verified credential is the same credential as the
/// operation's: only the V2 audit may advance (as a verified successor,
/// keeping its signed identity), the V1 trust may raise its floor under the
/// same key, and a fast binding may be verified later.
pub open spec fn credential_revalidates(e: CredentialView, a: CredentialView, successor: Result<(), ReconnectDurabilityErrorV1>) -> bool {
    match (e, a) {
        (CredentialView::Recovery(e), CredentialView::Recovery(a)) => {
            let base = e.grant_nonce == a.grant_nonce && e.account_security_generation == a.account_security_generation
                && e.protocol_major == a.protocol_major && e.transport_profile == a.transport_profile
                && e.ruleset_revision == a.ruleset_revision && e.content_revision == a.content_revision
                && e.map_revision == a.map_revision && e.world_policy_revision == a.world_policy_revision
                && e.expires_at == a.expires_at;
            let trust = match (e.v1_trust, a.v1_trust) {
                (Some(p), Some(n)) => p.signing_key_id == n.signing_key_id && p.signing_public_key
                    == n.signing_public_key && n.minimum_generation >= p.minimum_generation,
                (None, None) => true,
                _ => false,
            };
            let audit = match (e.v2, a.v2) {
                (Some(o), Some(n)) => successor is Ok && o.credential_attempt_ref == n.credential_attempt_ref
                    && o.grant_nonce == n.grant_nonce && o.issued_at == n.issued_at && o.not_before == n.not_before
                    && o.expires_at == n.expires_at,
                (None, None) => true,
                _ => false,
            };
            base && trust && audit
        },
        (CredentialView::Fast(e), CredentialView::Fast(a)) => a.verified_at >= e.verified_at && (FastBindingView {
            verified_at: e.verified_at,
            ..a
        }) == e,
        _ => false,
    }
}

/// The current snapshot agrees with the original one, up to a newer source
/// revision and observation and, for a PREPARED operation, its budget.
pub open spec fn snapshot_unchanged(current: CompleteSnapshotView, original: CompleteSnapshotView, prepared: bool) -> bool {
    &&& current.source_revision >= original.source_revision
    &&& current.observed_at >= original.observed_at
    &&& (CompleteSnapshotView {
        source_revision: original.source_revision,
        accepted_source_revision: original.accepted_source_revision,
        observed_at: original.observed_at,
        budget: if prepared {
            original.budget
        } else {
            current.budget
        },
        ..current
    }) == original
}

/// Revalidating an authorization against current sources at `now`: the held
/// operation still holds, the current snapshot supports it, the canonical
/// PREPARED operation is exactly this one (or there is none before PREPARE),
/// the fresh credential is the same credential, and the current snapshot is
/// the original one.
pub open spec fn spec_complete_validate_current(
    op: OperationView,
    current: CurrentView,
    fresh: Result<CredentialView, ReconnectDurabilityErrorV1>,
    checks: CurrentChecksV1,
    prepared: bool,
    now: i64,
) -> Result<(CompleteSnapshotView, CredentialView), ReconnectDurabilityErrorV1> {
    if spec_complete_operation_historical(op, checks.operation) is Err {
        Err(spec_complete_operation_historical(op, checks.operation)->Err_0)
    } else if spec_snapshot_valid(current.snapshot, op.identity, now, checks.snapshot) is Err {
        Err(spec_snapshot_valid(current.snapshot, op.identity, now, checks.snapshot)->Err_0)
    } else if now < op.prepared_at {
        Err(ReconnectDurabilityErrorV1::StaleAuthority)
    } else if current.prepared matches Some(stored) && spec_complete_operation_historical(stored, checks.stored) is Err {
        Err(spec_complete_operation_historical(current.prepared->Some_0, checks.stored)->Err_0)
    } else if prepared && current.prepared != Some(op) {
        Err(ReconnectDurabilityErrorV1::StaleAuthority)
    } else if prepared && crate::budget::spec_prepared_budget(
        op.original.budget,
        op.identity.reconnect_attempt_ref,
        op.original.candidate.transport_ref,
    ) is Err {
        Err(crate::budget::spec_prepared_budget(op.original.budget, op.identity.reconnect_attempt_ref, op.original.candidate.transport_ref)->Err_0)
    } else if prepared && current.snapshot.budget != crate::budget::spec_prepared_budget(
        op.original.budget,
        op.identity.reconnect_attempt_ref,
        op.original.candidate.transport_ref,
    )->Ok_0 {
        Err(ReconnectDurabilityErrorV1::StaleAuthority)
    } else if !prepared && current.prepared is Some {
        Err(ReconnectDurabilityErrorV1::ConcurrentPrepared)
    } else {
        match fresh {
            Err(e) => Err(e),
            Ok(c) => if !credential_revalidates(op.credential, c, checks.successor) || !snapshot_unchanged(
                current.snapshot,
                op.original,
                prepared,
            ) {
                Err(ReconnectDurabilityErrorV1::StaleAuthority)
            } else {
                Ok((current.snapshot, c))
            },
        }
    }
}

fn credential_matches(e: &CompleteReconnectCredentialV1, a: &CompleteReconnectCredentialV1, successor: Result<(), ReconnectDurabilityErrorV1>) -> (r: bool)
    ensures
        r == credential_revalidates(e@, a@, successor),
{
    match (e, a) {
        (CompleteReconnectCredentialV1::Recovery(e), CompleteReconnectCredentialV1::Recovery(a)) => {
            let base = same_nonce(&e.grant_nonce, &a.grant_nonce) && e.account_security_generation
                == a.account_security_generation && e.protocol_major == a.protocol_major && e.transport_profile
                == a.transport_profile && e.ruleset_revision == a.ruleset_revision && e.content_revision
                == a.content_revision && e.map_revision == a.map_revision && e.world_policy_revision
                == a.world_policy_revision && e.expires_at == a.expires_at;
            let trust = match (&e.v1_trust, &a.v1_trust) {
                (Some(p), Some(n)) => p.signing_key_id == n.signing_key_id && same_nonce(
                    &p.signing_public_key,
                    &n.signing_public_key,
                ) && n.minimum_generation >= p.minimum_generation,
                (None, None) => true,
                _ => false,
            };
            let audit = match (&e.v2, &a.v2) {
                (Some(o), Some(n)) => successor.is_ok() && o.credential_attempt_ref == n.credential_attempt_ref
                    && same_nonce(&o.grant_nonce, &n.grant_nonce) && o.issued_at == n.issued_at && o.not_before
                    == n.not_before && o.expires_at == n.expires_at,
                (None, None) => true,
                _ => false,
            };
            base && trust && audit
        },
        (CompleteReconnectCredentialV1::Fast(e), CompleteReconnectCredentialV1::Fast(a)) => {
            if a.verified_at < e.verified_at {
                return false;
            }
            let mut normalized = a.duplicate();
            normalized.verified_at = e.verified_at;
            normalized.same(e)
        },
        _ => false,
    }
}

impl CompleteReconnectAuthorizationV1 {
    /// Authorizes a complete reconnect of `identity` from what the source
    /// resolved at `now` and the credential the proof verified.
    pub fn authorize(
        identity: ReconnectIdentityV1,
        current: CompleteReconnectCurrentV1,
        credential: Result<CompleteReconnectCredentialV1, ReconnectDurabilityErrorV1>,
        checks: OperationChecksV1,
        now: i64,
    ) -> (r: Result<Self, ReconnectDurabilityErrorV1>)
        ensures
            match r {
                Ok(a) => spec_complete_authorize(identity@, current@, credential_result_view(credential), checks, now)
                    == Ok::<OperationView, ReconnectDurabilityErrorV1>(a@),
                Err(e) => spec_complete_authorize(identity@, current@, credential_result_view(credential), checks, now)
                    == Err::<OperationView, ReconnectDurabilityErrorV1>(e),
            },
    {
        if let Err(e) = current.snapshot.validate(&identity, now, checks.snapshot) {
            return Err(e);
        }
        if current.prepared.is_some() {
            return Err(ReconnectDurabilityErrorV1::ConcurrentPrepared);
        }
        let credential = match credential {
            Err(e) => return Err(e),
            Ok(c) => c,
        };
        let mode = if current.snapshot.session.session_state() == GameSessionState::Terminal {
            CompleteReconnectModeV1::EarlyTerminalReplacement
        } else {
            CompleteReconnectModeV1::SameSession
        };
        let operation = CompleteReconnectOperationV1 {
            version: 1,
            mode,
            identity,
            original: current.snapshot,
            credential,
            prepared_at: now,
        };
        if let Err(e) = operation.validate_historical(checks) {
            return Err(e);
        }
        Ok(CompleteReconnectAuthorizationV1 { operation })
    }

    /// Rebuilds an authorization from a historical operation: history
    /// supplies identity only, so it must revalidate against current sources.
    pub fn reauthorize_history(
        operation: CompleteReconnectOperationV1,
        current: CompleteReconnectCurrentV1,
        fresh: Result<CompleteReconnectCredentialV1, ReconnectDurabilityErrorV1>,
        checks: CurrentChecksV1,
        now: i64,
    ) -> (r: Result<Self, ReconnectDurabilityErrorV1>)
        ensures
            spec_complete_operation_historical(operation@, checks.operation) is Err ==> r
                == Err::<Self, ReconnectDurabilityErrorV1>(spec_complete_operation_historical(operation@, checks.operation)->Err_0),
            spec_complete_operation_historical(operation@, checks.operation) is Ok ==> match r {
                Ok(a) => a@ == operation@ && spec_complete_validate_current(
                    operation@,
                    current@,
                    credential_result_view(fresh),
                    checks,
                    true,
                    now,
                ) is Ok,
                Err(e) => spec_complete_validate_current(operation@, current@, credential_result_view(fresh), checks, true, now)
                    == Err::<(CompleteSnapshotView, CredentialView), ReconnectDurabilityErrorV1>(e),
            },
    {
        if let Err(e) = operation.validate_historical(checks.operation) {
            return Err(e);
        }
        let authorization = CompleteReconnectAuthorizationV1 { operation };
        match authorization.validate_current(current, fresh, checks, true, now) {
            Err(e) => Err(e),
            Ok(_) => Ok(authorization),
        }
    }

    pub fn operation(&self) -> (r: &CompleteReconnectOperationV1)
        ensures
            r@ == self@,
    {
        &self.operation
    }

    /// Revalidates this authorization against what the source resolved at
    /// `now` and the credential the proof verified again.
    pub fn validate_current(
        &self,
        current: CompleteReconnectCurrentV1,
        fresh: Result<CompleteReconnectCredentialV1, ReconnectDurabilityErrorV1>,
        checks: CurrentChecksV1,
        prepared: bool,
        now: i64,
    ) -> (r: Result<(CompleteReconnectSnapshotV1, CompleteReconnectCredentialV1), ReconnectDurabilityErrorV1>)
        ensures
            match r {
                Ok((s, c)) => spec_complete_validate_current(self@, current@, credential_result_view(fresh), checks, prepared, now)
                    == Ok::<(CompleteSnapshotView, CredentialView), ReconnectDurabilityErrorV1>((s@, c@)),
                Err(e) => spec_complete_validate_current(self@, current@, credential_result_view(fresh), checks, prepared, now)
                    == Err::<(CompleteSnapshotView, CredentialView), ReconnectDurabilityErrorV1>(e),
            },
    {
        let op = &self.operation;
        if let Err(e) = op.validate_historical(checks.operation) {
            return Err(e);
        }
        if let Err(e) = current.snapshot.validate(&op.identity, now, checks.snapshot) {
            return Err(e);
        }
        if now < op.prepared_at {
            return Err(ReconnectDurabilityErrorV1::StaleAuthority);
        }
        if let Some(stored) = &current.prepared {
            if let Err(e) = stored.validate_historical(checks.stored) {
                return Err(e);
            }
        }
        if prepared {
            let stored_is_this = match &current.prepared {
                Some(stored) => stored.same(op),
                None => false,
            };
            if !stored_is_this {
                return Err(ReconnectDurabilityErrorV1::StaleAuthority);
            }
            let expected_budget = match op.original.budget.with_candidate_prepared(
                op.identity.reconnect_attempt_ref(),
                op.original.candidate.transport_ref(),
            ) {
                Err(e) => return Err(e),
                Ok(b) => b,
            };
            if !current.snapshot.budget.same(&expected_budget) {
                return Err(ReconnectDurabilityErrorV1::StaleAuthority);
            }
        } else if current.prepared.is_some() {
            return Err(ReconnectDurabilityErrorV1::ConcurrentPrepared);
        }
        let fresh = match fresh {
            Err(e) => return Err(e),
            Ok(c) => c,
        };
        if !credential_matches(&op.credential, &fresh, checks.successor) {
            return Err(ReconnectDurabilityErrorV1::StaleAuthority);
        }
        if current.snapshot.source_revision < op.original.source_revision || current.snapshot.observed_at
            < op.original.observed_at {
            return Err(ReconnectDurabilityErrorV1::StaleAuthority);
        }
        let mut normalized = current.snapshot.duplicate();
        normalized.source_revision = op.original.source_revision;
        normalized.accepted_source_revision = op.original.accepted_source_revision;
        normalized.observed_at = op.original.observed_at;
        if prepared {
            normalized.budget = op.original.budget.duplicate();
        }
        if !normalized.same(&op.original) {
            return Err(ReconnectDurabilityErrorV1::StaleAuthority);
        }
        Ok((current.snapshot, fresh))
    }
}

/// The view of a credential result.
pub open spec fn credential_result_view(
    r: Result<CompleteReconnectCredentialV1, ReconnectDurabilityErrorV1>,
) -> Result<CredentialView, ReconnectDurabilityErrorV1> {
    match r {
        Ok(c) => Ok(c@),
        Err(e) => Err(e),
    }
}

/// The credential a fast proof yields at `now`: the binding the proof owner
/// verified on the candidate transport (`verified`) must hold for the
/// snapshot and identity, and the account's current minimum security
/// generation (`minimum`) must be known, nonzero and within the binding's.
pub open spec fn spec_fast_proof(
    verified: Result<FastBindingView, ReconnectDurabilityErrorV1>,
    minimum: Result<u64, ReconnectDurabilityErrorV1>,
    s: CompleteSnapshotView,
    identity: ReconnectIdentityView,
    now: i64,
) -> Result<CredentialView, ReconnectDurabilityErrorV1> {
    match verified {
        Err(e) => Err(e),
        Ok(b) => if !fast_binding_valid(b, s, identity, now) {
            Err(ReconnectDurabilityErrorV1::StaleAuthority)
        } else {
            match minimum {
                Err(_) => Err(ReconnectDurabilityErrorV1::StaleAuthority),
                Ok(m) => if m == 0 || m > b.compatibility.account_security_generation {
                    Err(ReconnectDurabilityErrorV1::StaleAuthority)
                } else {
                    Ok(CredentialView::Fast(b))
                },
            }
        },
    }
}

/// Accepts a fast proof at `now`, given the binding its owner verified and
/// the account's current minimum security generation.
pub fn accept_fast_proof(
    verified: Result<CompleteFastReconnectBindingV1, ReconnectDurabilityErrorV1>,
    minimum: Result<u64, ReconnectDurabilityErrorV1>,
    current: &CompleteReconnectSnapshotV1,
    identity: &ReconnectIdentityV1,
    now: i64,
) -> (r: Result<CompleteReconnectCredentialV1, ReconnectDurabilityErrorV1>)
    ensures
        match r {
            Ok(c) => spec_fast_proof(fast_result_view(verified), minimum, current@, identity@, now)
                == Ok::<CredentialView, ReconnectDurabilityErrorV1>(c@),
            Err(e) => spec_fast_proof(fast_result_view(verified), minimum, current@, identity@, now)
                == Err::<CredentialView, ReconnectDurabilityErrorV1>(e),
        },
{
    let stale = ReconnectDurabilityErrorV1::StaleAuthority;
    let binding = match verified {
        Err(e) => return Err(e),
        Ok(b) => b,
    };
    if !binding.is_valid(current, identity, now) {
        return Err(stale);
    }
    match minimum {
        Err(_) => Err(stale),
        Ok(m) => if m == 0 || m > binding.compatibility.account_security_generation() {
            Err(stale)
        } else {
            Ok(CompleteReconnectCredentialV1::Fast(binding))
        },
    }
}

/// The credential a recovery proof yields: the facts the proof verified to
/// (`account_id`, `character_id`, `world_id`) must name the identity's
/// account, character and world, and the credential built from them must be
/// well formed, given the foundation helpers' answers on it.
pub open spec fn spec_recovery_proof(
    account_id: Seq<char>,
    character_id: CharacterId,
    world_id: WorldId,
    credential: RecoveryCredentialView,
    checks: CredentialChecksV1,
    identity: ReconnectIdentityView,
) -> Result<CredentialView, ReconnectDurabilityErrorV1> {
    if account_id != identity.account_id || character_id != identity.character_id || world_id != identity.world_id {
        Err(ReconnectDurabilityErrorV1::StaleAuthority)
    } else if !recovery_credential_valid(credential, checks) {
        Err(ReconnectDurabilityErrorV1::InvalidRecord)
    } else {
        Ok(CredentialView::Recovery(credential))
    }
}

/// Accepts a recovery proof whose facts verified to `account_id`,
/// `character_id` and `world_id`, with the credential built from them.
pub fn accept_recovery_proof(
    account_id: &str,
    character_id: CharacterId,
    world_id: WorldId,
    credential: CompleteRecoveryCredentialV1,
    checks: CredentialChecksV1,
    identity: &ReconnectIdentityV1,
) -> (r: Result<CompleteReconnectCredentialV1, ReconnectDurabilityErrorV1>)
    ensures
        match r {
            Ok(c) => spec_recovery_proof(account_id@, character_id, world_id, credential@, checks, identity@)
                == Ok::<CredentialView, ReconnectDurabilityErrorV1>(c@),
            Err(e) => spec_recovery_proof(account_id@, character_id, world_id, credential@, checks, identity@)
                == Err::<CredentialView, ReconnectDurabilityErrorV1>(e),
        },
{
    if !same_text(account_id, identity.account_id()) || character_id != identity.character_id() || world_id
        != identity.world_id() {
        return Err(ReconnectDurabilityErrorV1::StaleAuthority);
    }
    if !credential.is_valid(checks) {
        return Err(ReconnectDurabilityErrorV1::InvalidRecord);
    }
    Ok(CompleteReconnectCredentialV1::Recovery(credential))
}

pub open spec fn fast_result_view(
    r: Result<CompleteFastReconnectBindingV1, ReconnectDurabilityErrorV1>,
) -> Result<FastBindingView, ReconnectDurabilityErrorV1> {
    match r {
        Ok(b) => Ok(b@),
        Err(e) => Err(e),
    }
}

} // verus!
