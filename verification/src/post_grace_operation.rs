//! The durable operation of a post-grace recovery, its committed receipt, and
//! the adoption check that compares the independently current owning-source
//! facts with what the committed write must have left.
//!
//! Three checks of the recovery foundation reach this module as values: that
//! lifecycle and claim resource fields are within their bounds, that the
//! credential's signing and security sources still hold, and that the
//! successor claims are consistent with the adopted session.
use vstd::prelude::*;
use crate::admission::{
    current_authority_error, eligibility_is, validate_current_authority, GameSessionAuthoritySnapshot,
    GameSessionAuthoritySnapshotView, GameSessionState, ReconnectAttemptRef, ReconnectDurabilityErrorV1,
};
use crate::text::canonical_uuid_text;
use crate::budget::{
    committed_count, protection_valid, spec_check_candidate, timing_admits, RecoveryEpochStateV1, RecoveryProtectionContinuityV1, RecoveryProtectionUseV1,
    RecoveryTimingV2, RetainedRecoveryAttemptDispositionV1, RetainedRecoveryAttemptV1, RetainedRecoveryBudgetV1,
    RetainedRecoveryBudgetView,
};
use crate::complete_operation::{RecoveryCredentialAuditV2, AuditView, RecoveryCurrentEvidenceV1, RecoveryEvidenceView};
use crate::durability::{
    optional_presence_view, AccountPresenceClaimV1, AccountPresenceClaimView, AuthenticatedTransportRefV1,
    Fnd02ReconciliationFenceV1, Fnd02ReconciliationFenceView,
};
use crate::ids::{CharacterId, ConnectionGeneration, GameSessionId};
use crate::publication::{changes_view, copy_changes, AdmissionAuthorityPublicationChangeV1, PublicationChangeView};

verus! {

broadcast use crate::ids::group_id_views, crate::durability::lemma_transport_view;

/// An observation of the actor, returned by the owning source.
pub struct PostGraceActorObservationV1 {
    pub source_authority: String,
    pub source_revision: u64,
    pub accepted_source_revision: u64,
    pub decision_identity: String,
    pub accepted_decision_identity: String,
    pub source_observed_at: i64,
    pub current: RecoveryCurrentEvidenceV1,
    pub predecessor: GameSessionAuthoritySnapshot<AuthenticatedTransportRefV1>,
    pub account_presence: Option<AccountPresenceClaimV1>,
    pub present_uncontrolled: bool,
    pub runtime_ready: bool,
    pub reconciliation: Fnd02ReconciliationFenceV1,
    pub placement_identity: [u8; 16],
    pub placement_revision: u64,
    pub account_security_source_revision: u64,
    pub budget: RetainedRecoveryBudgetV1,
    pub protection: Option<RecoveryProtectionContinuityV1>,
}

pub struct ActorView {
    pub source_authority: Seq<char>,
    pub source_revision: u64,
    pub accepted_source_revision: u64,
    pub decision_identity: Seq<char>,
    pub accepted_decision_identity: Seq<char>,
    pub source_observed_at: i64,
    pub current: RecoveryEvidenceView,
    pub predecessor: GameSessionAuthoritySnapshotView<AuthenticatedTransportRefV1>,
    pub account_presence: Option<AccountPresenceClaimView>,
    pub present_uncontrolled: bool,
    pub runtime_ready: bool,
    pub reconciliation: Fnd02ReconciliationFenceView,
    pub placement_identity: Seq<u8>,
    pub placement_revision: u64,
    pub account_security_source_revision: u64,
    pub budget: RetainedRecoveryBudgetView,
    pub protection: Option<RecoveryProtectionContinuityV1>,
}

impl View for PostGraceActorObservationV1 {
    type V = ActorView;

    open spec fn view(&self) -> ActorView {
        ActorView {
            source_authority: self.source_authority@,
            source_revision: self.source_revision,
            accepted_source_revision: self.accepted_source_revision,
            decision_identity: self.decision_identity@,
            accepted_decision_identity: self.accepted_decision_identity@,
            source_observed_at: self.source_observed_at,
            current: self.current@,
            predecessor: self.predecessor@,
            account_presence: optional_presence_view(self.account_presence),
            present_uncontrolled: self.present_uncontrolled,
            runtime_ready: self.runtime_ready,
            reconciliation: self.reconciliation@,
            placement_identity: self.placement_identity@,
            placement_revision: self.placement_revision,
            account_security_source_revision: self.account_security_source_revision,
            budget: self.budget@,
            protection: self.protection,
        }
    }
}

fn same_placement(a: &[u8; 16], b: &[u8; 16]) -> (r: bool)
    ensures
        r == (a@ == b@),
{
    crate::bytes::same_bytes(a.as_slice(), b.as_slice())
}

impl PostGraceActorObservationV1 {
    pub fn duplicate(&self) -> (r: Self)
        ensures
            r@ == self@,
    {
        PostGraceActorObservationV1 {
            source_authority: self.source_authority.clone(),
            source_revision: self.source_revision,
            accepted_source_revision: self.accepted_source_revision,
            decision_identity: self.decision_identity.clone(),
            accepted_decision_identity: self.accepted_decision_identity.clone(),
            source_observed_at: self.source_observed_at,
            current: self.current.duplicate(),
            predecessor: self.predecessor,
            account_presence: match &self.account_presence {
                Some(p) => Some(p.duplicate()),
                None => None,
            },
            present_uncontrolled: self.present_uncontrolled,
            runtime_ready: self.runtime_ready,
            reconciliation: self.reconciliation.duplicate(),
            placement_identity: self.placement_identity,
            placement_revision: self.placement_revision,
            account_security_source_revision: self.account_security_source_revision,
            budget: self.budget.duplicate(),
            protection: self.protection,
        }
    }

    pub fn same(&self, other: &Self) -> (r: bool)
        ensures
            r == (self@ == other@),
    {
        proof {
            crate::durability::lemma_transport_obeys_concrete_eq();
        }
        let presence = match (&self.account_presence, &other.account_presence) {
            (Some(a), Some(b)) => a.same(b),
            (None, None) => true,
            _ => false,
        };
        self.source_authority == other.source_authority && self.source_revision == other.source_revision
            && self.accepted_source_revision == other.accepted_source_revision && self.decision_identity
            == other.decision_identity && self.accepted_decision_identity == other.accepted_decision_identity
            && self.source_observed_at == other.source_observed_at && self.current.same(&other.current)
            && self.predecessor.same(other.predecessor) && presence && self.present_uncontrolled
            == other.present_uncontrolled && self.runtime_ready == other.runtime_ready && self.reconciliation.same(
            &other.reconciliation,
        ) && same_placement(&self.placement_identity, &other.placement_identity) && self.placement_revision
            == other.placement_revision && self.account_security_source_revision
            == other.account_security_source_revision && self.budget.same(&other.budget) && self.protection
            == other.protection
    }
}

/// The original admission operation of a post-grace recovery.
pub struct PostGraceRecoveryOperationV1 {
    pub version: u16,
    pub credential: RecoveryCredentialAuditV2,
    pub actor: PostGraceActorObservationV1,
    pub candidate: GameSessionId,
    pub candidate_generation: ConnectionGeneration,
    pub attempt: ReconnectAttemptRef,
    pub transport: AuthenticatedTransportRefV1,
    pub timing: RecoveryTimingV2,
    pub prepared_at: i64,
}

pub struct RecoveryOperationView {
    pub version: u16,
    pub credential: AuditView,
    pub actor: ActorView,
    pub candidate: GameSessionId,
    pub candidate_generation: ConnectionGeneration,
    pub attempt: ReconnectAttemptRef,
    pub transport: AuthenticatedTransportRefV1,
    pub timing: RecoveryTimingV2,
    pub prepared_at: i64,
}

impl View for PostGraceRecoveryOperationV1 {
    type V = RecoveryOperationView;

    open spec fn view(&self) -> RecoveryOperationView {
        RecoveryOperationView {
            version: self.version,
            credential: self.credential@,
            actor: self.actor@,
            candidate: self.candidate,
            candidate_generation: self.candidate_generation,
            attempt: self.attempt,
            transport: self.transport,
            timing: self.timing,
            prepared_at: self.prepared_at,
        }
    }
}

impl PostGraceRecoveryOperationV1 {
    pub fn duplicate(&self) -> (r: Self)
        ensures
            r@ == self@,
    {
        PostGraceRecoveryOperationV1 {
            version: self.version,
            credential: self.credential.duplicate(),
            actor: self.actor.duplicate(),
            candidate: self.candidate,
            candidate_generation: self.candidate_generation,
            attempt: self.attempt,
            transport: self.transport,
            timing: self.timing,
            prepared_at: self.prepared_at,
        }
    }

    pub fn same(&self, other: &Self) -> (r: bool)
        ensures
            r == (self@ == other@),
    {
        self.version == other.version && self.credential.same(&other.credential) && self.actor.same(&other.actor)
            && self.candidate == other.candidate && self.candidate_generation == other.candidate_generation
            && self.attempt == other.attempt && self.transport == other.transport && self.timing == other.timing
            && self.prepared_at == other.prepared_at
    }
}

/// The credential and actor facts observed at a decision.
pub struct PostGraceRecoveryDecisionAuditV1 {
    pub credential: RecoveryCredentialAuditV2,
    pub actor: PostGraceActorObservationV1,
}

pub struct DecisionView {
    pub credential: AuditView,
    pub actor: ActorView,
}

impl View for PostGraceRecoveryDecisionAuditV1 {
    type V = DecisionView;

    open spec fn view(&self) -> DecisionView {
        DecisionView { credential: self.credential@, actor: self.actor@ }
    }
}

impl PostGraceRecoveryDecisionAuditV1 {
    pub fn duplicate(&self) -> (r: Self)
        ensures
            r@ == self@,
    {
        PostGraceRecoveryDecisionAuditV1 { credential: self.credential.duplicate(), actor: self.actor.duplicate() }
    }

    pub fn same(&self, other: &Self) -> (r: bool)
        ensures
            r == (self@ == other@),
    {
        self.credential.same(&other.credential) && self.actor.same(&other.actor)
    }
}

/// The claim evidence a post-grace operation is written with: the original
/// operation, the decision that authorized it, and the claim transition
/// prepared at `prepared_at` with the successor claims its COMMIT installs.
pub struct PostGraceClaimEvidenceV1 {
    pub operation: PostGraceRecoveryOperationV1,
    pub authorization: PostGraceRecoveryDecisionAuditV1,
    pub prepared_at: i64,
    pub successors: Vec<AdmissionAuthorityPublicationChangeV1>,
}

pub struct EvidenceView {
    pub operation: RecoveryOperationView,
    pub authorization: DecisionView,
    pub prepared_at: i64,
    pub successors: Seq<PublicationChangeView>,
}

impl View for PostGraceClaimEvidenceV1 {
    type V = EvidenceView;

    open spec fn view(&self) -> EvidenceView {
        EvidenceView {
            operation: self.operation@,
            authorization: self.authorization@,
            prepared_at: self.prepared_at,
            successors: changes_view(self.successors@),
        }
    }
}

impl PostGraceClaimEvidenceV1 {
    pub fn duplicate(&self) -> (r: Self)
        ensures
            r@ == self@,
    {
        PostGraceClaimEvidenceV1 {
            operation: self.operation.duplicate(),
            authorization: self.authorization.duplicate(),
            prepared_at: self.prepared_at,
            successors: copy_changes(self.successors.as_slice()),
        }
    }

    pub fn same(&self, other: &Self) -> (r: bool)
        ensures
            r == (self@ == other@),
    {
        self.operation.same(&other.operation) && self.authorization.same(&other.authorization) && self.prepared_at
            == other.prepared_at && crate::complete_operation::same_changes(
            self.successors.as_slice(),
            other.successors.as_slice(),
        )
    }
}

/// The historical committed proof of a post-grace operation.
pub struct PostGraceCommitReceiptV1 {
    operation: PostGraceClaimEvidenceV1,
    decided_at: i64,
    decision: PostGraceRecoveryDecisionAuditV1,
}

pub struct ReceiptView {
    pub operation: EvidenceView,
    pub decided_at: i64,
    pub decision: DecisionView,
}

impl View for PostGraceCommitReceiptV1 {
    type V = ReceiptView;

    closed spec fn view(&self) -> ReceiptView {
        ReceiptView { operation: self.operation@, decided_at: self.decided_at, decision: self.decision@ }
    }
}

impl PostGraceCommitReceiptV1 {
    pub(crate) fn new(operation: PostGraceClaimEvidenceV1, decided_at: i64, decision: PostGraceRecoveryDecisionAuditV1) -> (r: Self)
        ensures
            r@ == (ReceiptView { operation: operation@, decided_at, decision: decision@ }),
    {
        PostGraceCommitReceiptV1 { operation, decided_at, decision }
    }

    pub fn operation(&self) -> (r: &PostGraceClaimEvidenceV1)
        ensures
            r@ == self@.operation,
    {
        &self.operation
    }

    pub fn decided_at(&self) -> (r: i64)
        ensures
            r == self@.decided_at,
    {
        self.decided_at
    }

    pub fn decision(&self) -> (r: &PostGraceRecoveryDecisionAuditV1)
        ensures
            r@ == self@.decision,
    {
        &self.decision
    }
}

/// The independently resolved current owning-source facts an adoption is
/// checked against.
pub struct PostGraceAdoptionCurrentV1 {
    pub actor: PostGraceActorObservationV1,
    pub session: GameSessionAuthoritySnapshot<AuthenticatedTransportRefV1>,
    pub actor_present: bool,
    pub controller: Option<(GameSessionId, ConnectionGeneration, AuthenticatedTransportRefV1)>,
    pub live_transport: Option<AuthenticatedTransportRefV1>,
    pub security_source_revision: u64,
    pub claims: Vec<AdmissionAuthorityPublicationChangeV1>,
}

pub struct AdoptionCurrentView {
    pub actor: ActorView,
    pub session: GameSessionAuthoritySnapshotView<AuthenticatedTransportRefV1>,
    pub actor_present: bool,
    pub controller: Option<(GameSessionId, ConnectionGeneration, AuthenticatedTransportRefV1)>,
    pub live_transport: Option<AuthenticatedTransportRefV1>,
    pub security_source_revision: u64,
    pub claims: Seq<PublicationChangeView>,
}

impl View for PostGraceAdoptionCurrentV1 {
    type V = AdoptionCurrentView;

    open spec fn view(&self) -> AdoptionCurrentView {
        AdoptionCurrentView {
            actor: self.actor@,
            session: self.session@,
            actor_present: self.actor_present,
            controller: self.controller,
            live_transport: self.live_transport,
            security_source_revision: self.security_source_revision,
            claims: changes_view(self.claims@),
        }
    }
}

/// The foundation helpers' answers an adoption needs: both actor observations'
/// lifecycle fields are bounded, the current claims' resource fields are
/// bounded, the credential's signing and security sources still hold, and
/// the current claims are consistent with the adopted session.
#[derive(Debug, Clone, Copy, PartialEq, Eq, Structural)]
pub struct PostGraceAdoptionChecksV1 {
    pub actors_bounded: bool,
    pub claims_bounded: bool,
    pub sources_hold: bool,
    pub claims_valid: bool,
}

/// The current actor, session, controller and claims are not exactly what
/// the committed write left behind the prior decision.
pub open spec fn adoption_stale(r: ReceiptView, c: AdoptionCurrentView, now: i64) -> bool {
    let op = r.operation.operation;
    let prior = r.decision.actor;
    let actor = c.actor;
    let s = c.session;
    let d = r.decided_at;
    ||| now < d
    ||| !c.actor_present
    ||| actor.present_uncontrolled
    ||| !actor.runtime_ready
    ||| actor.source_authority != prior.source_authority
    ||| actor.source_revision <= prior.source_revision
    ||| actor.source_revision != actor.accepted_source_revision
    ||| actor.decision_identity.len() == 0
    ||| actor.decision_identity != actor.accepted_decision_identity
    ||| actor.decision_identity == prior.decision_identity
    ||| actor.source_observed_at < d
    ||| actor.source_observed_at > now
    ||| actor.current != prior.current
    ||| actor.predecessor != prior.predecessor
    ||| actor.account_presence != prior.account_presence
    ||| actor.placement_identity != prior.placement_identity
    ||| actor.placement_revision != prior.placement_revision
    ||| actor.reconciliation != prior.reconciliation
    ||| actor.account_security_source_revision != c.security_source_revision
    ||| actor.budget.epoch != prior.budget.epoch
    ||| actor.budget.state != RecoveryEpochStateV1::Restored
    ||| c.controller != Some((op.candidate, op.candidate_generation, op.transport))
    ||| c.live_transport != Some(op.transport)
    ||| s.session_state != GameSessionState::Active
    ||| s.commit.game_session_id != op.candidate
    ||| s.current_connection_generation != op.candidate_generation
    ||| s.current_transport != Some(op.transport)
    ||| s.commit.connection_generation != op.candidate_generation
    ||| s.commit.initial_transport != op.transport
    ||| s.commit.character_lease_generation != prior.predecessor.current_character_lease@.generation
    ||| s.commit.scope_ownership_generation != prior.predecessor.current_scope_generation@
    ||| s.commit.character_id != prior.current.character_id
    ||| s.commit.world_id != prior.current.world_id
    ||| s.commit.channel_id != prior.predecessor.commit.channel_id
    ||| s.current_character_lease != prior.predecessor.current_character_lease
    ||| s.current_character_world_eligibility != prior.predecessor.current_character_world_eligibility
    ||| s.current_runtime_scope != prior.predecessor.current_runtime_scope
    ||| s.current_scope_generation != prior.predecessor.current_scope_generation
    ||| s.current_control_loss_epoch != Some(prior.budget.epoch)
    ||| s.current_original_grace_deadline != prior.predecessor.current_original_grace_deadline
    ||| c.claims != r.operation.successors
}

/// `next` is what the committed write makes of the retained entry `old`:
/// the winner committed, every other entry unchanged or a PREPARED one made
/// terminal.
pub open spec fn entry_succeeds(old: RetainedRecoveryAttemptV1, next: RetainedRecoveryAttemptV1, attempt: ReconnectAttemptRef) -> bool {
    &&& old.attempt == next.attempt
    &&& old.transport == next.transport
    &&& if old.attempt == attempt {
        next.disposition == RetainedRecoveryAttemptDispositionV1::Committed
    } else {
        next.disposition == old.disposition || (old.disposition == RetainedRecoveryAttemptDispositionV1::Prepared
            && next.disposition == RetainedRecoveryAttemptDispositionV1::Terminal)
    }
}

/// The current budget is the prior one after the winner committed: exactly
/// one committed entry, the winner's; every prior entry carried on; and no
/// new attempt besides the winner.
pub open spec fn budget_succeeds(
    prior: Seq<RetainedRecoveryAttemptV1>,
    next: Seq<RetainedRecoveryAttemptV1>,
    attempt: ReconnectAttemptRef,
    transport: AuthenticatedTransportRefV1,
) -> bool {
    &&& committed_count(next, next.len() as int) == 1
    &&& forall|j: int|
        0 <= j < next.len() && (#[trigger] next[j]).disposition == RetainedRecoveryAttemptDispositionV1::Committed
            ==> next[j].attempt == attempt && next[j].transport == transport
    &&& forall|i: int|
        0 <= i < prior.len() ==> exists|j: int| 0 <= j < next.len() && entry_succeeds(#[trigger] prior[i], next[j], attempt)
    &&& forall|j: int|
        0 <= j < next.len() && (#[trigger] next[j]).attempt != attempt ==> exists|i: int|
            0 <= i < prior.len() && prior[i].attempt == next[j].attempt
}

/// The protection use a committed adoption must show: an unused
/// entitlement activated for four seconds at the decision.
pub open spec fn expected_usage(old: RecoveryProtectionUseV1, decided_at: i64) -> RecoveryProtectionUseV1 {
    match old {
        RecoveryProtectionUseV1::Unused { entitlement_generation } => RecoveryProtectionUseV1::Activated {
            entitlement_generation,
            activated_at: decided_at,
            deadline: (decided_at + 4) as i64,
        },
        other => other,
    }
}

/// Whether the current owning-source facts show exactly the committed
/// adoption of the receipt at `now`.
pub open spec fn spec_post_grace_adoption(
    r: ReceiptView,
    c: AdoptionCurrentView,
    checks: PostGraceAdoptionChecksV1,
    now: i64,
) -> Result<(), ReconnectDurabilityErrorV1> {
    let op = r.operation.operation;
    let prior = r.decision.actor;
    if !checks.actors_bounded {
        Err(ReconnectDurabilityErrorV1::InvalidRecord)
    } else if !checks.claims_bounded || !checks.sources_hold || adoption_stale(r, c, now) || !budget_succeeds(
        prior.budget.entries,
        c.actor.budget.entries,
        op.attempt,
        op.transport,
    ) || c.actor.protection is None || prior.protection is None {
        Err(ReconnectDurabilityErrorV1::StaleAuthority)
    } else if !protection_valid(c.actor.protection->Some_0, now) {
        Err(ReconnectDurabilityErrorV1::InvalidRecord)
    } else if (prior.protection->Some_0).usage is Unused && r.decided_at + 4 > i64::MAX {
        Err(ReconnectDurabilityErrorV1::StaleAuthority)
    } else if (c.actor.protection->Some_0).usage != expected_usage((prior.protection->Some_0).usage, r.decided_at)
        || (c.actor.protection->Some_0).rearm != (prior.protection->Some_0).rearm || !checks.claims_valid {
        Err(ReconnectDurabilityErrorV1::StaleAuthority)
    } else {
        Ok(())
    }
}

fn has_successor(old: RetainedRecoveryAttemptV1, next: &[RetainedRecoveryAttemptV1], attempt: ReconnectAttemptRef) -> (r: bool)
    ensures
        r == exists|j: int| 0 <= j < next@.len() && entry_succeeds(old, next@[j], attempt),
{
    let mut j: usize = 0;
    while j < next.len()
        invariant
            j <= next@.len(),
            forall|k: int| 0 <= k < j ==> !entry_succeeds(old, #[trigger] next@[k], attempt),
        decreases next@.len() - j,
    {
        let n = next[j];
        let disposition_ok = if old.attempt == attempt {
            n.disposition == RetainedRecoveryAttemptDispositionV1::Committed
        } else {
            n.disposition == old.disposition || (old.disposition == RetainedRecoveryAttemptDispositionV1::Prepared
                && n.disposition == RetainedRecoveryAttemptDispositionV1::Terminal)
        };
        if old.attempt == n.attempt && old.transport == n.transport && disposition_ok {
            assert(entry_succeeds(old, next@[j as int], attempt));
            return true;
        }
        j = j + 1;
    }
    false
}

fn has_prior(attempt: ReconnectAttemptRef, prior: &[RetainedRecoveryAttemptV1]) -> (r: bool)
    ensures
        r == exists|i: int| 0 <= i < prior@.len() && prior@[i].attempt == attempt,
{
    let mut i: usize = 0;
    while i < prior.len()
        invariant
            i <= prior@.len(),
            forall|k: int| 0 <= k < i ==> (#[trigger] prior@[k]).attempt != attempt,
        decreases prior@.len() - i,
    {
        if prior[i].attempt == attempt {
            assert(prior@[i as int].attempt == attempt);
            return true;
        }
        i = i + 1;
    }
    false
}

fn budget_is_successor(
    prior: &[RetainedRecoveryAttemptV1],
    next: &[RetainedRecoveryAttemptV1],
    attempt: ReconnectAttemptRef,
    transport: AuthenticatedTransportRefV1,
) -> (r: bool)
    ensures
        r == budget_succeeds(prior@, next@, attempt, transport),
{
    let mut count: usize = 0;
    let mut winner_only = true;
    let mut j: usize = 0;
    while j < next.len()
        invariant
            j <= next@.len(),
            count == committed_count(next@, j as int),
            count <= j,
            winner_only == forall|k: int|
                0 <= k < j && (#[trigger] next@[k]).disposition == RetainedRecoveryAttemptDispositionV1::Committed
                    ==> next@[k].attempt == attempt && next@[k].transport == transport,
        decreases next@.len() - j,
    {
        let n = next[j];
        if n.disposition == RetainedRecoveryAttemptDispositionV1::Committed {
            count = count + 1;
            if !(n.attempt == attempt && n.transport == transport) {
                winner_only = false;
            }
        }
        j = j + 1;
    }
    if count != 1 || !winner_only {
        return false;
    }
    let mut i: usize = 0;
    while i < prior.len()
        invariant
            i <= prior@.len(),
            forall|k: int| 0 <= k < i ==> exists|m: int| 0 <= m < next@.len() && entry_succeeds(#[trigger] prior@[k], next@[m], attempt),
        decreases prior@.len() - i,
    {
        if !has_successor(prior[i], next, attempt) {
            return false;
        }
        i = i + 1;
    }
    let mut j: usize = 0;
    while j < next.len()
        invariant
            j <= next@.len(),
            forall|k: int| 0 <= k < j && (#[trigger] next@[k]).attempt != attempt ==> exists|m: int|
                0 <= m < prior@.len() && prior@[m].attempt == next@[k].attempt,
        decreases next@.len() - j,
    {
        if next[j].attempt != attempt && !has_prior(next[j].attempt, prior) {
            return false;
        }
        j = j + 1;
    }
    true
}

fn adoption_is_stale(r: &PostGraceCommitReceiptV1, c: &PostGraceAdoptionCurrentV1, now: i64) -> (stale: bool)
    ensures
        stale == adoption_stale(r@, c@, now),
{
    proof {
        crate::durability::lemma_transport_obeys_concrete_eq();
    }
    let op = &r.operation.operation;
    let prior = &r.decision.actor;
    let actor = &c.actor;
    let s = c.session;
    let d = r.decided_at;
    if now < d || !c.actor_present || actor.present_uncontrolled || !actor.runtime_ready || actor.source_authority
        != prior.source_authority || actor.source_revision <= prior.source_revision || actor.source_revision
        != actor.accepted_source_revision || crate::text::is_empty_text(actor.decision_identity.as_str())
        || actor.decision_identity != actor.accepted_decision_identity || actor.decision_identity
        == prior.decision_identity || actor.source_observed_at < d || actor.source_observed_at > now {
        return true;
    }
    let presence_same = match (&actor.account_presence, &prior.account_presence) {
        (Some(a), Some(b)) => a.same(b),
        (None, None) => true,
        _ => false,
    };
    if !actor.current.same(&prior.current) || !actor.predecessor.same(prior.predecessor) || !presence_same
        || !same_placement(&actor.placement_identity, &prior.placement_identity) || actor.placement_revision
        != prior.placement_revision || !actor.reconciliation.same(&prior.reconciliation)
        || actor.account_security_source_revision != c.security_source_revision || actor.budget.epoch()
        != prior.budget.epoch() || actor.budget.state() != RecoveryEpochStateV1::Restored {
        return true;
    }
    let controller_ok = match c.controller {
        Some((session, generation, transport)) => session == op.candidate && generation == op.candidate_generation
            && transport == op.transport,
        None => false,
    };
    let live_ok = match c.live_transport {
        Some(t) => t == op.transport,
        None => false,
    };
    let current_transport_ok = match s.current_transport() {
        Some(t) => t == op.transport,
        None => false,
    };
    if !controller_ok || !live_ok || s.session_state() != GameSessionState::Active || s.commit().game_session_id()
        != op.candidate || s.current_connection_generation() != op.candidate_generation || !current_transport_ok {
        return true;
    }
    let pred = prior.predecessor;
    let commit = s.commit();
    if commit.connection_generation() != op.candidate_generation || commit.initial_transport() != op.transport
        || commit.character_lease_generation() != pred.current_character_lease().generation()
        || commit.scope_ownership_generation() != pred.current_scope_generation().get() || commit.character_id()
        != prior.current.character_id || commit.world_id() != prior.current.world_id || commit.channel_id()
        != pred.commit().channel_id() {
        return true;
    }
    s.current_character_lease() != pred.current_character_lease() || s.current_character_world_eligibility()
        != pred.current_character_world_eligibility() || !crate::admission::same_runtime_scope(
        s.current_runtime_scope(),
        pred.current_runtime_scope(),
    ) || s.current_scope_generation() != pred.current_scope_generation() || s.current_control_loss_epoch() != Some(
        prior.budget.epoch(),
    ) || s.current_original_grace_deadline() != pred.current_original_grace_deadline()
        || !crate::complete_operation::same_changes(c.claims.as_slice(), r.operation.successors.as_slice())
}

/// Checks the independently current owning-source facts against the
/// committed receipt at `now`, given the foundation helpers' answers.
pub fn validate_post_grace_adoption(
    receipt: &PostGraceCommitReceiptV1,
    current: &PostGraceAdoptionCurrentV1,
    checks: PostGraceAdoptionChecksV1,
    now: i64,
) -> (r: Result<(), ReconnectDurabilityErrorV1>)
    ensures
        r == spec_post_grace_adoption(receipt@, current@, checks, now),
{
    let stale = ReconnectDurabilityErrorV1::StaleAuthority;
    if !checks.actors_bounded {
        return Err(ReconnectDurabilityErrorV1::InvalidRecord);
    }
    if !checks.claims_bounded || !checks.sources_hold || adoption_is_stale(receipt, current, now) {
        return Err(stale);
    }
    let op = &receipt.operation.operation;
    let prior = &receipt.decision.actor;
    if !budget_is_successor(prior.budget.entries(), current.actor.budget.entries(), op.attempt, op.transport) {
        return Err(stale);
    }
    let protection = match current.actor.protection {
        None => return Err(stale),
        Some(p) => p,
    };
    let old_protection = match prior.protection {
        None => return Err(stale),
        Some(p) => p,
    };
    if let Err(e) = protection.validate(now) {
        return Err(e);
    }
    let expected = match old_protection.usage {
        RecoveryProtectionUseV1::Unused { entitlement_generation } => {
            if receipt.decided_at > i64::MAX - 4 {
                return Err(stale);
            }
            RecoveryProtectionUseV1::Activated {
                entitlement_generation,
                activated_at: receipt.decided_at,
                deadline: receipt.decided_at + 4,
            }
        },
        usage => usage,
    };
    if protection.usage != expected || protection.rearm != old_protection.rearm || !checks.claims_valid {
        return Err(stale);
    }
    Ok(())
}

/// Whether an actor observation fails to show, at `now`, a present and
/// uncontrolled actor of a terminal session whose original grace has passed,
/// from an accepted source decision, with an open recovery epoch.
pub open spec fn actor_stale(a: ActorView, now: i64) -> bool {
    let s = a.predecessor;
    let c = s.commit;
    ||| !a.present_uncontrolled
    ||| !a.runtime_ready
    ||| a.placement_revision == 0
    ||| crate::bytes::all_zero(a.placement_identity)
    ||| a.source_authority.len() == 0
    ||| a.source_revision == 0
    ||| a.source_revision != a.accepted_source_revision
    ||| a.decision_identity.len() == 0
    ||| a.decision_identity != a.accepted_decision_identity
    ||| a.source_observed_at < 0
    ||| a.source_observed_at > now
    ||| a.account_security_source_revision == 0
    ||| s.session_state != GameSessionState::Terminal
    ||| s.current_transport is Some
    ||| !canonical_uuid_text(a.current.account_id)
    ||| a.current.character_id != c.character_id
    ||| a.current.world_id != c.world_id
    ||| s.current_character_lease@.character_id != a.current.character_id
    ||| !eligibility_is(s.current_character_world_eligibility, a.current.character_id, a.current.world_id)
    ||| s.current_runtime_scope.spec_world_id() != a.current.world_id
    ||| match a.account_presence {
        None => true,
        Some(p) => p.account_id != a.current.account_id || p.character_id != a.current.character_id,
    }
    ||| s.current_control_loss_epoch != Some(a.budget.epoch)
    ||| a.budget.state != RecoveryEpochStateV1::Open
    ||| match s.current_original_grace_deadline {
        None => true,
        Some(grace) => grace <= 0 || now <= grace,
    }
}

/// Whether an actor observation supports a post-grace recovery at `now`,
/// or the first reason it does not, given whether its lifecycle fields are
/// within their resource bounds.
pub open spec fn spec_actor_valid(a: ActorView, resources_bounded: bool, now: i64) -> Result<(), ReconnectDurabilityErrorV1> {
    if !resources_bounded {
        Err(ReconnectDurabilityErrorV1::InvalidRecord)
    } else if actor_stale(a, now) || current_authority_error(a.predecessor.commit.game_session_id, a.predecessor) is Some
        || a.protection is None {
        Err(ReconnectDurabilityErrorV1::StaleAuthority)
    } else if !protection_valid(a.protection->Some_0, now) {
        Err(ReconnectDurabilityErrorV1::InvalidRecord)
    } else {
        Ok(())
    }
}

fn actor_is_stale(a: &PostGraceActorObservationV1, now: i64) -> (stale: bool)
    ensures
        stale == actor_stale(a@, now),
{
    broadcast use crate::admission::lemma_character_lease_view;
    let snapshot = a.predecessor;
    let commit = snapshot.commit();
    if !a.present_uncontrolled || !a.runtime_ready || a.placement_revision == 0 || crate::bytes::is_all_zero(
        a.placement_identity.as_slice(),
    ) || crate::text::is_empty_text(a.source_authority.as_str()) || a.source_revision == 0 || a.source_revision
        != a.accepted_source_revision || crate::text::is_empty_text(a.decision_identity.as_str())
        || a.decision_identity != a.accepted_decision_identity || a.source_observed_at < 0 || a.source_observed_at > now
        || a.account_security_source_revision == 0 {
        return true;
    }
    if snapshot.session_state() != GameSessionState::Terminal || snapshot.current_transport().is_some()
        || !crate::text::canonical_uuid(a.current.account_id.as_str()) || a.current.character_id != commit.character_id()
        || a.current.world_id != commit.world_id() || snapshot.current_character_lease().character_id()
        != a.current.character_id {
        return true;
    }
    let eligible = match snapshot.current_character_world_eligibility() {
        Some(claim) => claim.character_id() == a.current.character_id && claim.world_id() == a.current.world_id,
        None => false,
    };
    let presence_ok = match &a.account_presence {
        Some(p) => crate::text::same_text(p.account_id(), a.current.account_id.as_str()) && p.character_id()
            == a.current.character_id,
        None => false,
    };
    let grace_ok = match snapshot.current_original_grace_deadline() {
        Some(grace) => grace > 0 && now > grace,
        None => false,
    };
    !eligible || snapshot.current_runtime_scope().world_id() != a.current.world_id || !presence_ok
        || snapshot.current_control_loss_epoch() != Some(a.budget.epoch()) || a.budget.state()
        != RecoveryEpochStateV1::Open || !grace_ok
}

impl PostGraceActorObservationV1 {
    /// Whether this observation supports a post-grace recovery at `now`,
    /// given whether its lifecycle fields are within their resource bounds.
    pub fn validate(&self, now: i64, resources_bounded: bool) -> (r: Result<(), ReconnectDurabilityErrorV1>)
        ensures
            r == spec_actor_valid(self@, resources_bounded, now),
    {
        if !resources_bounded {
            return Err(ReconnectDurabilityErrorV1::InvalidRecord);
        }
        if actor_is_stale(self, now) {
            return Err(ReconnectDurabilityErrorV1::StaleAuthority);
        }
        let authority = validate_current_authority(self.predecessor.commit().game_session_id(), self.predecessor);
        if authority.is_err() {
            return Err(ReconnectDurabilityErrorV1::StaleAuthority);
        }
        let protection = match self.protection {
            None => return Err(ReconnectDurabilityErrorV1::StaleAuthority),
            Some(p) => p,
        };
        match protection.validate(now) {
            Ok(_) => Ok(()),
            Err(e) => Err(e),
        }
    }
}

/// The answers of the foundation helpers an operation's historical check
/// needs: its credential audit is historically valid, and its actor's
/// lifecycle fields are within their resource bounds.
#[derive(Debug, Clone, Copy, PartialEq, Eq, Structural)]
pub struct PostGraceOperationChecksV1 {
    pub credential_valid: bool,
    pub actor_bounded: bool,
}

/// The operation disagrees with its own credential and actor: another
/// version, a timing other than the post-grace window from the actor's
/// original grace to the credential's deadline, a PREPARE before the
/// credential was verified, the predecessor session or another generation
/// as candidate, or a credential for another account, character, world,
/// revision or security source.
pub open spec fn operation_mismatch(op: RecoveryOperationView) -> bool {
    let c = op.credential;
    let a = op.actor;
    ||| op.version != 1
    ||| op.timing != (RecoveryTimingV2::TerminalSessionPostGrace {
        original_grace_deadline: a.predecessor.current_original_grace_deadline->Some_0,
        attempt_deadline: c.accepted_deadline,
    })
    ||| op.prepared_at < c.verified_at
    ||| op.candidate == a.predecessor.commit.game_session_id
    ||| op.candidate_generation@ != 1
    ||| c.account_id != a.current.account_id
    ||| c.character_id != a.current.character_id
    ||| c.world_id != a.current.world_id
    ||| c.ruleset_revision != a.current.ruleset_revision
    ||| c.content_revision != a.current.content_revision
    ||| c.map_revision != a.current.map_revision
    ||| c.world_policy_revision != a.current.world_policy_revision
    ||| c.security_source_revision != a.account_security_source_revision
}

/// The historical consistency of a post-grace operation: its credential,
/// its actor at its PREPARE time, its candidate against the actor's budget,
/// its agreement with its credential and actor, and its timing at PREPARE.
pub open spec fn spec_post_grace_operation_historical(op: RecoveryOperationView, checks: PostGraceOperationChecksV1) -> Result<
    (),
    ReconnectDurabilityErrorV1,
> {
    if !checks.credential_valid {
        Err(ReconnectDurabilityErrorV1::InvalidRecord)
    } else if spec_actor_valid(op.actor, checks.actor_bounded, op.prepared_at) is Err {
        spec_actor_valid(op.actor, checks.actor_bounded, op.prepared_at)
    } else if spec_check_candidate(op.actor.budget, op.attempt, op.transport) is Err {
        Err(spec_check_candidate(op.actor.budget, op.attempt, op.transport)->Err_0)
    } else if op.actor.predecessor.current_original_grace_deadline is None || operation_mismatch(op) {
        Err(ReconnectDurabilityErrorV1::InvalidRecord)
    } else if !timing_admits(op.timing, op.prepared_at) {
        Err(ReconnectDurabilityErrorV1::StaleAuthority)
    } else {
        Ok(())
    }
}

impl PostGraceRecoveryOperationV1 {
    /// The historical consistency of this operation, given the foundation
    /// helpers' answers on its credential and actor.
    pub fn validate_historical(&self, checks: PostGraceOperationChecksV1) -> (r: Result<(), ReconnectDurabilityErrorV1>)
        ensures
            r == spec_post_grace_operation_historical(self@, checks),
    {
        proof {
            crate::durability::lemma_transport_obeys_concrete_eq();
        }
        let invalid = ReconnectDurabilityErrorV1::InvalidRecord;
        if !checks.credential_valid {
            return Err(invalid);
        }
        if let Err(e) = self.actor.validate(self.prepared_at, checks.actor_bounded) {
            return Err(e);
        }
        if let Err(e) = self.actor.budget.check_candidate(self.attempt, self.transport) {
            return Err(e);
        }
        let grace = match self.actor.predecessor.current_original_grace_deadline() {
            None => return Err(invalid),
            Some(g) => g,
        };
        let expected = RecoveryTimingV2::TerminalSessionPostGrace {
            original_grace_deadline: grace,
            attempt_deadline: self.credential.accepted_deadline,
        };
        let c = &self.credential;
        let a = &self.actor;
        if self.version != 1 || self.timing != expected || self.prepared_at < c.verified_at || self.candidate
            == a.predecessor.commit().game_session_id() || self.candidate_generation.get() != 1 || c.account_id
            != a.current.account_id || c.character_id != a.current.character_id || c.world_id != a.current.world_id
            || c.ruleset_revision != a.current.ruleset_revision || c.content_revision != a.current.content_revision
            || c.map_revision != a.current.map_revision || c.world_policy_revision != a.current.world_policy_revision
            || c.security_source_revision != a.account_security_source_revision {
            return Err(invalid);
        }
        match expected.validate_at(self.prepared_at) {
            Ok(_) => Ok(()),
            Err(e) => Err(e),
        }
    }
}

/// The retained entries of other attempts than `attempt`, in order.
pub open spec fn entries_except(s: Seq<RetainedRecoveryAttemptV1>, attempt: ReconnectAttemptRef) -> Seq<
    RetainedRecoveryAttemptV1,
>
    decreases s.len(),
{
    if s.len() == 0 {
        s
    } else {
        let rest = entries_except(s.drop_last(), attempt);
        if s.last().attempt != attempt {
            rest.push(s.last())
        } else {
            rest
        }
    }
}

/// Whether a later observation of the actor fails to succeed an earlier
/// one for `attempt`: another source, an older revision or observation, a
/// changed observation at the same revision, a reused decision at a newer
/// one, changed actor, session, presence, placement, reconciliation or
/// protection facts, another epoch, a lost entry of the attempt, or any
/// change to the entries of other attempts.
pub open spec fn actor_successor_stale(before: ActorView, after: ActorView, attempt: ReconnectAttemptRef) -> bool {
    ||| before.source_authority != after.source_authority
    ||| after.source_revision < before.source_revision
    ||| after.source_observed_at < before.source_observed_at
    ||| (before.source_revision == after.source_revision && before != after)
    ||| (before.source_revision < after.source_revision && before.decision_identity == after.decision_identity)
    ||| before.current != after.current
    ||| before.predecessor != after.predecessor
    ||| before.account_presence != after.account_presence
    ||| before.placement_identity != after.placement_identity
    ||| before.placement_revision != after.placement_revision
    ||| before.reconciliation != after.reconciliation
    ||| before.protection != after.protection
    ||| before.budget.epoch != after.budget.epoch
    ||| exists|i: int|
        0 <= i < before.budget.entries.len() && (#[trigger] before.budget.entries[i]).attempt == attempt
            && !after.budget.entries.contains(before.budget.entries[i])
    ||| entries_except(before.budget.entries, attempt) != entries_except(after.budget.entries, attempt)
}

/// Whether `after` succeeds `before` for `attempt`, or the first reason it
/// does not, given whether each observation's lifecycle fields are bounded.
pub open spec fn spec_actor_successor(
    before: ActorView,
    after: ActorView,
    attempt: ReconnectAttemptRef,
    before_bounded: bool,
    after_bounded: bool,
) -> Result<(), ReconnectDurabilityErrorV1> {
    if !before_bounded || !after_bounded {
        Err(ReconnectDurabilityErrorV1::InvalidRecord)
    } else if actor_successor_stale(before, after, attempt) {
        Err(ReconnectDurabilityErrorV1::StaleAuthority)
    } else {
        Ok(())
    }
}

fn same_entry(a: RetainedRecoveryAttemptV1, b: RetainedRecoveryAttemptV1) -> (r: bool)
    ensures
        r == (a == b),
{
    proof {
        crate::durability::lemma_transport_obeys_concrete_eq();
    }
    a.attempt == b.attempt && a.transport == b.transport && a.disposition == b.disposition
}

fn contains_entry(entries: &[RetainedRecoveryAttemptV1], entry: RetainedRecoveryAttemptV1) -> (r: bool)
    ensures
        r == entries@.contains(entry),
{
    let mut j: usize = 0;
    while j < entries.len()
        invariant
            j <= entries@.len(),
            forall|k: int| 0 <= k < j ==> entries@[k] != entry,
        decreases entries@.len() - j,
    {
        if same_entry(entries[j], entry) {
            return true;
        }
        j = j + 1;
    }
    false
}

fn attempt_entry_lost(
    before: &[RetainedRecoveryAttemptV1],
    after: &[RetainedRecoveryAttemptV1],
    attempt: ReconnectAttemptRef,
) -> (r: bool)
    ensures
        r == exists|i: int|
            0 <= i < before@.len() && (#[trigger] before@[i]).attempt == attempt && !after@.contains(before@[i]),
{
    let mut i: usize = 0;
    while i < before.len()
        invariant
            i <= before@.len(),
            forall|k: int| 0 <= k < i && (#[trigger] before@[k]).attempt == attempt ==> after@.contains(before@[k]),
        decreases before@.len() - i,
    {
        if before[i].attempt == attempt && !contains_entry(after, before[i]) {
            return true;
        }
        i = i + 1;
    }
    false
}

fn collect_except(entries: &[RetainedRecoveryAttemptV1], attempt: ReconnectAttemptRef) -> (r: Vec<RetainedRecoveryAttemptV1>)
    ensures
        r@ == entries_except(entries@, attempt),
{
    let mut out: Vec<RetainedRecoveryAttemptV1> = Vec::new();
    let mut i: usize = 0;
    while i < entries.len()
        invariant
            i <= entries@.len(),
            out@ == entries_except(entries@.subrange(0, i as int), attempt),
        decreases entries@.len() - i,
    {
        assert(entries@.subrange(0, i as int + 1).drop_last() =~= entries@.subrange(0, i as int));
        if entries[i].attempt != attempt {
            out.push(entries[i]);
        }
        i = i + 1;
    }
    assert(entries@.subrange(0, entries@.len() as int) =~= entries@);
    out
}

fn same_entries(a: &[RetainedRecoveryAttemptV1], b: &[RetainedRecoveryAttemptV1]) -> (r: bool)
    ensures
        r == (a@ == b@),
{
    if a.len() != b.len() {
        return false;
    }
    let mut i: usize = 0;
    while i < a.len()
        invariant
            a@.len() == b@.len(),
            i <= a@.len(),
            forall|k: int| 0 <= k < i ==> a@[k] == b@[k],
        decreases a@.len() - i,
    {
        if !same_entry(a[i], b[i]) {
            return false;
        }
        i = i + 1;
    }
    assert(a@ =~= b@);
    true
}

/// Whether `after` succeeds `before` for `attempt`, given whether each
/// observation's lifecycle fields are within their resource bounds.
pub fn validate_post_grace_actor_successor(
    before: &PostGraceActorObservationV1,
    after: &PostGraceActorObservationV1,
    attempt: ReconnectAttemptRef,
    before_bounded: bool,
    after_bounded: bool,
) -> (r: Result<(), ReconnectDurabilityErrorV1>)
    ensures
        r == spec_actor_successor(before@, after@, attempt, before_bounded, after_bounded),
{
    proof {
        crate::durability::lemma_transport_obeys_concrete_eq();
    }
    if !before_bounded || !after_bounded {
        return Err(ReconnectDurabilityErrorV1::InvalidRecord);
    }
    let stale = ReconnectDurabilityErrorV1::StaleAuthority;
    if before.source_authority != after.source_authority || after.source_revision < before.source_revision
        || after.source_observed_at < before.source_observed_at {
        return Err(stale);
    }
    if before.source_revision == after.source_revision && !before.same(after) {
        return Err(stale);
    }
    if before.source_revision < after.source_revision && before.decision_identity == after.decision_identity {
        return Err(stale);
    }
    let presence_same = match (&before.account_presence, &after.account_presence) {
        (Some(a), Some(b)) => a.same(b),
        (None, None) => true,
        _ => false,
    };
    if !before.current.same(&after.current) || !before.predecessor.same(after.predecessor) || !presence_same
        || !same_placement(&before.placement_identity, &after.placement_identity) || before.placement_revision
        != after.placement_revision || !before.reconciliation.same(&after.reconciliation) || before.protection
        != after.protection || before.budget.epoch() != after.budget.epoch() {
        return Err(stale);
    }
    if attempt_entry_lost(before.budget.entries(), after.budget.entries(), attempt) {
        return Err(stale);
    }
    let kept_before = collect_except(before.budget.entries(), attempt);
    let kept_after = collect_except(after.budget.entries(), attempt);
    if !same_entries(kept_before.as_slice(), kept_after.as_slice()) {
        return Err(stale);
    }
    Ok(())
}

/// The answers of the foundation helpers a decision audit's check against
/// its operation needs: on the operation, whether the decision actor's
/// lifecycle fields are bounded, and whether the decision credential
/// succeeds the operation's credential at the decision time.
#[derive(Debug, Clone, Copy, PartialEq, Eq, Structural)]
pub struct PostGraceDecisionChecksV1 {
    pub operation: PostGraceOperationChecksV1,
    pub actor_bounded: bool,
    pub credential_succeeds: bool,
}

/// The answers a decision audit's succession check needs besides those
/// against its operation: whether the prior decision actor's lifecycle
/// fields are bounded, and whether the credential succeeds the prior one.
#[derive(Debug, Clone, Copy, PartialEq, Eq, Structural)]
pub struct PostGraceDecisionSuccessionChecksV1 {
    pub decision: PostGraceDecisionChecksV1,
    pub prior_actor_bounded: bool,
    pub prior_credential_succeeds: bool,
}

/// Whether a decision audit at `now` is a current decision of the
/// operation, or the first reason it is not: the operation's historical
/// consistency, the credential's succession, the decision actor's validity
/// and succession from the operation's actor, the candidate against its
/// budget, the credential's deadline and the security source.
pub open spec fn spec_decision_for_operation(
    d: DecisionView,
    op: RecoveryOperationView,
    now: i64,
    checks: PostGraceDecisionChecksV1,
) -> Result<(), ReconnectDurabilityErrorV1> {
    if spec_post_grace_operation_historical(op, checks.operation) is Err {
        spec_post_grace_operation_historical(op, checks.operation)
    } else if !checks.credential_succeeds {
        Err(ReconnectDurabilityErrorV1::StaleAuthority)
    } else if spec_actor_valid(d.actor, checks.actor_bounded, now) is Err {
        spec_actor_valid(d.actor, checks.actor_bounded, now)
    } else if spec_actor_successor(op.actor, d.actor, op.attempt, checks.operation.actor_bounded, checks.actor_bounded) is Err {
        spec_actor_successor(op.actor, d.actor, op.attempt, checks.operation.actor_bounded, checks.actor_bounded)
    } else if spec_check_candidate(d.actor.budget, op.attempt, op.transport) is Err {
        Err(spec_check_candidate(d.actor.budget, op.attempt, op.transport)->Err_0)
    } else if now > op.credential.accepted_deadline || d.actor.account_security_source_revision
        != d.credential.security_source_revision {
        Err(ReconnectDurabilityErrorV1::StaleAuthority)
    } else {
        Ok(())
    }
}

/// Whether a decision audit at `now` succeeds `prior` for the operation, or
/// the first reason it does not.
pub open spec fn spec_decision_successor(
    d: DecisionView,
    prior: DecisionView,
    op: RecoveryOperationView,
    now: i64,
    checks: PostGraceDecisionSuccessionChecksV1,
) -> Result<(), ReconnectDurabilityErrorV1> {
    if spec_decision_for_operation(d, op, now, checks.decision) is Err {
        spec_decision_for_operation(d, op, now, checks.decision)
    } else if !checks.prior_credential_succeeds {
        Err(ReconnectDurabilityErrorV1::StaleAuthority)
    } else {
        spec_actor_successor(prior.actor, d.actor, op.attempt, checks.prior_actor_bounded, checks.decision.actor_bounded)
    }
}

impl PostGraceRecoveryDecisionAuditV1 {
    /// Whether this audit at `now` is a current decision of `operation`,
    /// given the foundation helpers' answers.
    pub fn validate_for_operation(
        &self,
        operation: &PostGraceRecoveryOperationV1,
        now: i64,
        checks: PostGraceDecisionChecksV1,
    ) -> (r: Result<(), ReconnectDurabilityErrorV1>)
        ensures
            r == spec_decision_for_operation(self@, operation@, now, checks),
    {
        let stale = ReconnectDurabilityErrorV1::StaleAuthority;
        if let Err(e) = operation.validate_historical(checks.operation) {
            return Err(e);
        }
        if !checks.credential_succeeds {
            return Err(stale);
        }
        if let Err(e) = self.actor.validate(now, checks.actor_bounded) {
            return Err(e);
        }
        if let Err(e) = validate_post_grace_actor_successor(
            &operation.actor,
            &self.actor,
            operation.attempt,
            checks.operation.actor_bounded,
            checks.actor_bounded,
        ) {
            return Err(e);
        }
        if let Err(e) = self.actor.budget.check_candidate(operation.attempt, operation.transport) {
            return Err(e);
        }
        if now > operation.credential.accepted_deadline || self.actor.account_security_source_revision
            != self.credential.security_source_revision {
            return Err(stale);
        }
        Ok(())
    }

    /// Whether this audit at `now` succeeds `prior` for `operation`, given
    /// the foundation helpers' answers.
    pub fn validate_successor_of(
        &self,
        prior: &Self,
        operation: &PostGraceRecoveryOperationV1,
        now: i64,
        checks: PostGraceDecisionSuccessionChecksV1,
    ) -> (r: Result<(), ReconnectDurabilityErrorV1>)
        ensures
            r == spec_decision_successor(self@, prior@, operation@, now, checks),
    {
        if let Err(e) = self.validate_for_operation(operation, now, checks.decision) {
            return Err(e);
        }
        if !checks.prior_credential_succeeds {
            return Err(ReconnectDurabilityErrorV1::StaleAuthority);
        }
        validate_post_grace_actor_successor(
            &prior.actor,
            &self.actor,
            operation.attempt,
            checks.prior_actor_bounded,
            checks.decision.actor_bounded,
        )
    }
}

/// The post-grace operation prepared at `now` for `candidate`, `attempt` and
/// `transport`, from the actor the owning source resolved (`resolved`, with
/// whether its lifecycle fields are bounded) for the verified account and
/// character, and the credential audit the verified facts revalidated to
/// (`credential`), or the first reason none is.
pub open spec fn spec_post_grace_prepare(
    resolved: Result<ActorView, ReconnectDurabilityErrorV1>,
    actor_bounded: bool,
    account_id: Seq<char>,
    character_id: CharacterId,
    credential: Result<AuditView, ReconnectDurabilityErrorV1>,
    candidate: GameSessionId,
    attempt: ReconnectAttemptRef,
    transport: AuthenticatedTransportRefV1,
    now: i64,
) -> Result<RecoveryOperationView, ReconnectDurabilityErrorV1> {
    match resolved {
        Err(e) => Err(e),
        Ok(actor) => if spec_actor_valid(actor, actor_bounded, now) is Err {
            Err(spec_actor_valid(actor, actor_bounded, now)->Err_0)
        } else if actor.current.account_id != account_id || actor.current.character_id != character_id {
            Err(ReconnectDurabilityErrorV1::StaleAuthority)
        } else {
            match credential {
                Err(_) => Err(ReconnectDurabilityErrorV1::StaleAuthority),
                Ok(c) => if candidate == actor.predecessor.commit.game_session_id || actor.account_security_source_revision
                    != c.security_source_revision {
                    Err(ReconnectDurabilityErrorV1::StaleAuthority)
                } else if spec_check_candidate(actor.budget, attempt, transport) is Err {
                    Err(spec_check_candidate(actor.budget, attempt, transport)->Err_0)
                } else {
                    match actor.predecessor.current_original_grace_deadline {
                        None => Err(ReconnectDurabilityErrorV1::StaleAuthority),
                        Some(grace) => {
                            let timing = RecoveryTimingV2::TerminalSessionPostGrace {
                                original_grace_deadline: grace,
                                attempt_deadline: c.accepted_deadline,
                            };
                            if !timing_admits(timing, now) {
                                Err(ReconnectDurabilityErrorV1::StaleAuthority)
                            } else {
                                Ok(
                                    RecoveryOperationView {
                                        version: 1,
                                        credential: c,
                                        actor,
                                        candidate,
                                        candidate_generation: crate::ids::connection_generation_of(1),
                                        attempt,
                                        transport,
                                        timing,
                                        prepared_at: now,
                                    },
                                )
                            }
                        },
                    }
                },
            }
        },
    }
}

/// Prepares the post-grace operation of a live authorization at `now`, given
/// what the owning source resolved for the verified account and character,
/// and the credential audit the verified facts revalidated to.
pub fn prepare_post_grace_operation(
    resolved: Result<PostGraceActorObservationV1, ReconnectDurabilityErrorV1>,
    actor_bounded: bool,
    account_id: &str,
    character_id: CharacterId,
    credential: Result<RecoveryCredentialAuditV2, ReconnectDurabilityErrorV1>,
    candidate: GameSessionId,
    attempt: ReconnectAttemptRef,
    transport: AuthenticatedTransportRefV1,
    now: i64,
) -> (r: Result<PostGraceRecoveryOperationV1, ReconnectDurabilityErrorV1>)
    ensures
        match r {
            Ok(op) => spec_post_grace_prepare(
                actor_result_view(resolved),
                actor_bounded,
                account_id@,
                character_id,
                audit_result_view(credential),
                candidate,
                attempt,
                transport,
                now,
            ) == Ok::<RecoveryOperationView, ReconnectDurabilityErrorV1>(op@),
            Err(e) => spec_post_grace_prepare(
                actor_result_view(resolved),
                actor_bounded,
                account_id@,
                character_id,
                audit_result_view(credential),
                candidate,
                attempt,
                transport,
                now,
            ) == Err::<RecoveryOperationView, ReconnectDurabilityErrorV1>(e),
        },
{
    let stale = ReconnectDurabilityErrorV1::StaleAuthority;
    let actor = match resolved {
        Err(e) => return Err(e),
        Ok(a) => a,
    };
    if let Err(e) = actor.validate(now, actor_bounded) {
        return Err(e);
    }
    if !crate::text::same_text(actor.current.account_id.as_str(), account_id) || actor.current.character_id
        != character_id {
        return Err(stale);
    }
    let credential = match credential {
        Err(_) => return Err(stale),
        Ok(c) => c,
    };
    if candidate == actor.predecessor.commit().game_session_id() || actor.account_security_source_revision
        != credential.security_source_revision {
        return Err(stale);
    }
    if let Err(e) = actor.budget.check_candidate(attempt, transport) {
        return Err(e);
    }
    let grace = match actor.predecessor.current_original_grace_deadline() {
        None => return Err(stale),
        Some(g) => g,
    };
    let timing = RecoveryTimingV2::TerminalSessionPostGrace {
        original_grace_deadline: grace,
        attempt_deadline: credential.accepted_deadline,
    };
    if timing.validate_at(now).is_err() {
        return Err(stale);
    }
    let generation = match ConnectionGeneration::new(1) {
        Ok(g) => g,
        Err(_) => return Err(stale),
    };
    proof {
        assert(generation@ == crate::ids::connection_generation_of(1)@);
        assert(generation == crate::ids::connection_generation_of(1));
    }
    Ok(
        PostGraceRecoveryOperationV1 {
            version: 1,
            credential,
            actor,
            candidate,
            candidate_generation: generation,
            attempt,
            transport,
            timing,
            prepared_at: now,
        },
    )
}

/// Whether a held authorization still stands at `now`: within its window
/// from preparation to its credential's deadline, the preparation repeated
/// now (`next`) succeeded, its actor succeeds the held one for the attempt
/// (given whether each actor's lifecycle fields are bounded), and no
/// stricter current deadline has passed. The held operation stays as it was.
pub open spec fn spec_post_grace_revalidate(
    held: RecoveryOperationView,
    next: Result<RecoveryOperationView, ReconnectDurabilityErrorV1>,
    held_bounded: bool,
    next_bounded: bool,
    now: i64,
) -> Result<(), ReconnectDurabilityErrorV1> {
    if now < held.prepared_at || now > held.credential.accepted_deadline {
        Err(ReconnectDurabilityErrorV1::StaleAuthority)
    } else {
        match next {
            Err(e) => Err(e),
            Ok(n) => if spec_actor_successor(held.actor, n.actor, held.attempt, held_bounded, next_bounded) is Err {
                spec_actor_successor(held.actor, n.actor, held.attempt, held_bounded, next_bounded)
            } else if now > n.credential.accepted_deadline {
                Err(ReconnectDurabilityErrorV1::StaleAuthority)
            } else {
                Ok(())
            },
        }
    }
}

/// Revalidates a held authorization at `now` against the preparation
/// repeated now.
pub fn revalidate_post_grace_operation(
    held: &PostGraceRecoveryOperationV1,
    next: &Result<PostGraceRecoveryOperationV1, ReconnectDurabilityErrorV1>,
    held_bounded: bool,
    next_bounded: bool,
    now: i64,
) -> (r: Result<(), ReconnectDurabilityErrorV1>)
    ensures
        r == spec_post_grace_revalidate(held@, operation_result_view(*next), held_bounded, next_bounded, now),
{
    if now < held.prepared_at || now > held.credential.accepted_deadline {
        return Err(ReconnectDurabilityErrorV1::StaleAuthority);
    }
    let n = match next {
        Err(e) => return Err(*e),
        Ok(n) => n,
    };
    if let Err(e) = validate_post_grace_actor_successor(&held.actor, &n.actor, held.attempt, held_bounded, next_bounded) {
        return Err(e);
    }
    if now > n.credential.accepted_deadline {
        return Err(ReconnectDurabilityErrorV1::StaleAuthority);
    }
    Ok(())
}

pub open spec fn actor_result_view(
    r: Result<PostGraceActorObservationV1, ReconnectDurabilityErrorV1>,
) -> Result<ActorView, ReconnectDurabilityErrorV1> {
    match r {
        Ok(a) => Ok(a@),
        Err(e) => Err(e),
    }
}

pub open spec fn audit_result_view(
    r: Result<RecoveryCredentialAuditV2, ReconnectDurabilityErrorV1>,
) -> Result<AuditView, ReconnectDurabilityErrorV1> {
    match r {
        Ok(a) => Ok(a@),
        Err(e) => Err(e),
    }
}

pub open spec fn operation_result_view(
    r: Result<PostGraceRecoveryOperationV1, ReconnectDurabilityErrorV1>,
) -> Result<RecoveryOperationView, ReconnectDurabilityErrorV1> {
    match r {
        Ok(o) => Ok(o@),
        Err(e) => Err(e),
    }
}

} // verus!
