//! The durable record of one reconnect attempt and the evidence it binds.
use vstd::prelude::*;
use vstd::laws_eq::obeys_concrete_eq;
use vstd::std_specs::cmp::PartialEqSpecImpl;
use crate::admission::{
    AdmissionError, ControlLossEpochRefV1, ReconnectAttemptRef, ReconnectDurabilityErrorV1,
    RuntimeScopeRefV1, same_runtime_scope,
};
use crate::bytes::{all_zero, is_all_zero};
use crate::ids::{CharacterId, CommandId, ConnectionGeneration, GameSessionId, ScopeOwnershipGeneration, WorldId};
use crate::text::{canonical_uuid, canonical_uuid_text, non_empty_visible_ascii, visible_ascii_text};

verus! {

broadcast use crate::ids::group_id_views;

/// Exact non-zero 16-byte reference to one authenticated transport.
#[derive(Debug, Clone, Copy, Eq, Hash)]
pub struct AuthenticatedTransportRefV1([u8; 16]);

impl View for AuthenticatedTransportRefV1 {
    type V = Seq<u8>;

    closed spec fn view(&self) -> Seq<u8> {
        self.0@
    }
}

impl PartialEq for AuthenticatedTransportRefV1 {
    fn eq(&self, other: &Self) -> (r: bool) {
        crate::bytes::same_bytes(self.0.as_slice(), other.0.as_slice())
    }
}

impl PartialEqSpecImpl for AuthenticatedTransportRefV1 {
    open spec fn obeys_eq_spec() -> bool {
        true
    }

    open spec fn eq_spec(&self, other: &Self) -> bool {
        self@ == other@
    }
}

/// Two transport references are the same reference exactly when their bytes are.
pub broadcast proof fn lemma_transport_view(a: AuthenticatedTransportRefV1, b: AuthenticatedTransportRefV1)
    ensures
        #[trigger] a@ == #[trigger] b@ <==> a == b,
        a@.len() == 16,
{
    broadcast use vstd::array::group_array_axioms;

    if a@ == b@ {
        assert(forall|i: int| 0 <= i < 16 ==> a.0[i] == b.0[i]);
        assert(a.0 =~= b.0);
    }
}

/// `==` on transport references is equality of the references.
pub proof fn lemma_transport_obeys_concrete_eq()
    ensures
        obeys_concrete_eq::<AuthenticatedTransportRefV1>(),
{
    broadcast use lemma_transport_view;

    reveal(obeys_concrete_eq);
}

impl AuthenticatedTransportRefV1 {
    pub fn decode(input: &[u8]) -> (r: Result<Self, AdmissionError>)
        ensures
            r is Ok <==> (input@.len() == 16 && !all_zero(input@)),
            r matches Ok(t) ==> t@ == input@,
            r matches Err(e) ==> e == AdmissionError::InvalidFacts,
    {
        if input.len() != 16 {
            return Err(AdmissionError::InvalidFacts);
        }
        if is_all_zero(input) {
            return Err(AdmissionError::InvalidFacts);
        }
        let mut bytes = [0u8; 16];
        let mut i: usize = 0;
        while i < 16
            invariant
                input@.len() == 16,
                bytes@.len() == 16,
                i <= 16,
                forall|j: int| 0 <= j < i ==> bytes@[j] == input@[j],
            decreases 16 - i,
        {
            bytes.set(i, input[i]);
            i = i + 1;
        }
        assert(bytes@ =~= input@);
        Ok(Self(bytes))
    }

    pub fn to_bytes(self) -> (r: [u8; 16])
        ensures
            r@ == self@,
    {
        self.0
    }
}

/// Identity of the session, attempt, account, character and scope a record is for.
#[derive(Debug, Clone, PartialEq, Eq)]
pub struct ReconnectIdentityV1 {
    game_session_id: GameSessionId,
    reconnect_attempt_ref: ReconnectAttemptRef,
    account_id: String,
    character_id: CharacterId,
    world_id: WorldId,
    runtime_scope: RuntimeScopeRefV1,
}

pub struct ReconnectIdentityView {
    pub game_session_id: GameSessionId,
    pub reconnect_attempt_ref: ReconnectAttemptRef,
    pub account_id: Seq<char>,
    pub character_id: CharacterId,
    pub world_id: WorldId,
    pub runtime_scope: RuntimeScopeRefV1,
}

impl View for ReconnectIdentityV1 {
    type V = ReconnectIdentityView;

    closed spec fn view(&self) -> ReconnectIdentityView {
        ReconnectIdentityView {
            game_session_id: self.game_session_id,
            reconnect_attempt_ref: self.reconnect_attempt_ref,
            account_id: self.account_id@,
            character_id: self.character_id,
            world_id: self.world_id,
            runtime_scope: self.runtime_scope,
        }
    }
}

impl ReconnectIdentityV1 {
    pub fn new(
        game_session_id: GameSessionId,
        reconnect_attempt_ref: ReconnectAttemptRef,
        account_id: &str,
        character_id: CharacterId,
        world_id: WorldId,
        runtime_scope: RuntimeScopeRefV1,
    ) -> (r: Result<Self, ReconnectDurabilityErrorV1>)
        ensures
            r is Ok <==> (canonical_uuid_text(account_id@) && runtime_scope.spec_world_id() == world_id),
            r matches Ok(i) ==> i@ == (ReconnectIdentityView {
                game_session_id,
                reconnect_attempt_ref,
                account_id: account_id@,
                character_id,
                world_id,
                runtime_scope,
            }),
            r matches Err(e) ==> e == ReconnectDurabilityErrorV1::InvalidRecord,
    {
        if !canonical_uuid(account_id) || runtime_scope.world_id() != world_id {
            return Err(ReconnectDurabilityErrorV1::InvalidRecord);
        }
        Ok(Self {
            game_session_id,
            reconnect_attempt_ref,
            account_id: account_id.to_owned(),
            character_id,
            world_id,
            runtime_scope,
        })
    }

    pub fn game_session_id(&self) -> (r: GameSessionId)
        ensures
            r == self@.game_session_id,
    {
        self.game_session_id
    }

    pub fn reconnect_attempt_ref(&self) -> (r: ReconnectAttemptRef)
        ensures
            r == self@.reconnect_attempt_ref,
    {
        self.reconnect_attempt_ref
    }

    pub fn account_id(&self) -> (r: &str)
        ensures
            r@ == self@.account_id,
    {
        self.account_id.as_str()
    }

    pub fn character_id(&self) -> (r: CharacterId)
        ensures
            r == self@.character_id,
    {
        self.character_id
    }

    pub fn world_id(&self) -> (r: WorldId)
        ensures
            r == self@.world_id,
    {
        self.world_id
    }

    pub fn runtime_scope(&self) -> (r: RuntimeScopeRefV1)
        ensures
            r == self@.runtime_scope,
    {
        self.runtime_scope
    }

    /// An identical copy of this identity.
    pub fn duplicate(&self) -> (r: Self)
        ensures
            r@ == self@,
    {
        Self {
            game_session_id: self.game_session_id,
            reconnect_attempt_ref: self.reconnect_attempt_ref,
            account_id: self.account_id.clone(),
            character_id: self.character_id,
            world_id: self.world_id,
            runtime_scope: self.runtime_scope,
        }
    }

    /// Whether two identities are the same identity.
    pub fn same(&self, other: &Self) -> (r: bool)
        ensures
            r == (self@ == other@),
    {
        self.game_session_id == other.game_session_id && self.reconnect_attempt_ref
            == other.reconnect_attempt_ref && self.account_id == other.account_id
            && self.character_id == other.character_id && self.world_id == other.world_id
            && same_runtime_scope(self.runtime_scope, other.runtime_scope)
    }
}

/// The predecessor generation, its strict successor and the candidate transport.
#[derive(Debug, Clone, Copy, PartialEq, Eq)]
pub struct ReconnectConnectionFenceV1 {
    predecessor: ConnectionGeneration,
    candidate: ConnectionGeneration,
    transport_ref: AuthenticatedTransportRefV1,
}

pub struct ReconnectConnectionFenceView {
    pub predecessor: ConnectionGeneration,
    pub candidate: ConnectionGeneration,
    pub transport_ref: AuthenticatedTransportRefV1,
}

impl View for ReconnectConnectionFenceV1 {
    type V = ReconnectConnectionFenceView;

    closed spec fn view(&self) -> ReconnectConnectionFenceView {
        ReconnectConnectionFenceView {
            predecessor: self.predecessor,
            candidate: self.candidate,
            transport_ref: self.transport_ref,
        }
    }
}

impl ReconnectConnectionFenceV1 {
    pub fn new(
        predecessor: ConnectionGeneration,
        candidate: ConnectionGeneration,
        transport_ref: AuthenticatedTransportRefV1,
    ) -> (r: Result<Self, ReconnectDurabilityErrorV1>)
        ensures
            r is Ok <==> predecessor@ + 1 == candidate@,
            r matches Ok(f) ==> f@ == (ReconnectConnectionFenceView { predecessor, candidate, transport_ref }),
            r matches Err(e) ==> e == ReconnectDurabilityErrorV1::InvalidRecord,
    {
        if predecessor.get() == u64::MAX || predecessor.get() + 1 != candidate.get() {
            return Err(ReconnectDurabilityErrorV1::InvalidRecord);
        }
        Ok(Self { predecessor, candidate, transport_ref })
    }

    pub fn predecessor(self) -> (r: ConnectionGeneration)
        ensures
            r == self@.predecessor,
    {
        self.predecessor
    }

    pub fn candidate(self) -> (r: ConnectionGeneration)
        ensures
            r == self@.candidate,
    {
        self.candidate
    }

    pub fn transport_ref(self) -> (r: AuthenticatedTransportRefV1)
        ensures
            r == self@.transport_ref,
    {
        self.transport_ref
    }

    /// Whether two fences are the same fence.
    pub fn same(self, other: Self) -> (r: bool)
        ensures
            r == (self@ == other@),
    {
        broadcast use lemma_transport_view;

        self.predecessor == other.predecessor && self.candidate == other.candidate
            && self.transport_ref == other.transport_ref
    }
}

/// The live reconnect candidate the authority currently holds for a session.
#[derive(Debug, Clone, Copy, PartialEq, Eq)]
pub struct ReconnectCandidateBindingV1 {
    game_session_id: GameSessionId,
    reconnect_attempt_ref: ReconnectAttemptRef,
    connection_generation: ConnectionGeneration,
    transport_ref: AuthenticatedTransportRefV1,
    prepared_deadline: i64,
}

pub struct ReconnectCandidateBindingView {
    pub game_session_id: GameSessionId,
    pub reconnect_attempt_ref: ReconnectAttemptRef,
    pub connection_generation: ConnectionGeneration,
    pub transport_ref: AuthenticatedTransportRefV1,
    pub prepared_deadline: i64,
}

impl View for ReconnectCandidateBindingV1 {
    type V = ReconnectCandidateBindingView;

    closed spec fn view(&self) -> ReconnectCandidateBindingView {
        ReconnectCandidateBindingView {
            game_session_id: self.game_session_id,
            reconnect_attempt_ref: self.reconnect_attempt_ref,
            connection_generation: self.connection_generation,
            transport_ref: self.transport_ref,
            prepared_deadline: self.prepared_deadline,
        }
    }
}

impl ReconnectCandidateBindingV1 {
    pub fn new(
        game_session_id: GameSessionId,
        reconnect_attempt_ref: ReconnectAttemptRef,
        connection_generation: ConnectionGeneration,
        transport_ref: AuthenticatedTransportRefV1,
        prepared_deadline: i64,
    ) -> (r: Result<Self, ReconnectDurabilityErrorV1>)
        ensures
            r is Ok <==> prepared_deadline > 0,
            r matches Ok(b) ==> b@ == (ReconnectCandidateBindingView {
                game_session_id,
                reconnect_attempt_ref,
                connection_generation,
                transport_ref,
                prepared_deadline,
            }),
            r matches Err(e) ==> e == ReconnectDurabilityErrorV1::InvalidRecord,
    {
        if prepared_deadline <= 0 {
            return Err(ReconnectDurabilityErrorV1::InvalidRecord);
        }
        Ok(Self { game_session_id, reconnect_attempt_ref, connection_generation, transport_ref, prepared_deadline })
    }

    pub fn game_session_id(self) -> (r: GameSessionId)
        ensures
            r == self@.game_session_id,
    {
        self.game_session_id
    }

    pub fn reconnect_attempt_ref(self) -> (r: ReconnectAttemptRef)
        ensures
            r == self@.reconnect_attempt_ref,
    {
        self.reconnect_attempt_ref
    }

    pub fn connection_generation(self) -> (r: ConnectionGeneration)
        ensures
            r == self@.connection_generation,
    {
        self.connection_generation
    }

    pub fn transport_ref(self) -> (r: AuthenticatedTransportRefV1)
        ensures
            r == self@.transport_ref,
    {
        self.transport_ref
    }

    pub fn prepared_deadline(self) -> (r: i64)
        ensures
            r == self@.prepared_deadline,
    {
        self.prepared_deadline
    }

    /// Whether the candidate is still live at `observed_at`.
    pub fn is_live_at(self, observed_at: i64) -> (r: bool)
        ensures
            r == (observed_at >= 0 && observed_at <= self@.prepared_deadline),
    {
        observed_at >= 0 && observed_at <= self.prepared_deadline
    }

    /// Whether two bindings are the same binding.
    pub fn same(self, other: Self) -> (r: bool)
        ensures
            r == (self@ == other@),
    {
        broadcast use lemma_transport_view, crate::admission::lemma_attempt_ref_view;

        self.game_session_id == other.game_session_id && self.reconnect_attempt_ref
            == other.reconnect_attempt_ref && self.connection_generation
            == other.connection_generation && self.transport_ref == other.transport_ref
            && self.prepared_deadline == other.prepared_deadline
    }
}

/// The character lease and RuntimeScope ownership a reconnect is fenced by.
#[derive(Debug, Clone, Copy, PartialEq, Eq, Structural)]
pub struct ReconnectAuthorityFenceV1 {
    character_lease_generation: u64,
    scope_ownership_generation: ScopeOwnershipGeneration,
}

pub struct ReconnectAuthorityFenceView {
    pub character_lease_generation: u64,
    pub scope_ownership_generation: ScopeOwnershipGeneration,
}

impl View for ReconnectAuthorityFenceV1 {
    type V = ReconnectAuthorityFenceView;

    closed spec fn view(&self) -> ReconnectAuthorityFenceView {
        ReconnectAuthorityFenceView {
            character_lease_generation: self.character_lease_generation,
            scope_ownership_generation: self.scope_ownership_generation,
        }
    }
}

/// Two authority fences are equal exactly when their views are.
pub broadcast proof fn lemma_authority_fence_view(a: ReconnectAuthorityFenceV1, b: ReconnectAuthorityFenceV1)
    ensures
        #[trigger] a@ == #[trigger] b@ <==> a == b,
{
}

impl ReconnectAuthorityFenceV1 {
    pub fn new(
        character_lease_generation: u64,
        scope_ownership_generation: ScopeOwnershipGeneration,
    ) -> (r: Result<Self, ReconnectDurabilityErrorV1>)
        ensures
            r is Ok <==> character_lease_generation != 0,
            r matches Ok(f) ==> f@ == (ReconnectAuthorityFenceView {
                character_lease_generation,
                scope_ownership_generation,
            }),
            r matches Err(e) ==> e == ReconnectDurabilityErrorV1::InvalidRecord,
    {
        if character_lease_generation == 0 {
            return Err(ReconnectDurabilityErrorV1::InvalidRecord);
        }
        Ok(Self { character_lease_generation, scope_ownership_generation })
    }

    pub fn character_lease_generation(self) -> (r: u64)
        ensures
            r == self@.character_lease_generation,
    {
        self.character_lease_generation
    }

    pub fn scope_ownership_generation(self) -> (r: ScopeOwnershipGeneration)
        ensures
            r == self@.scope_ownership_generation,
    {
        self.scope_ownership_generation
    }
}

#[derive(Debug, Clone, Copy, PartialEq, Eq, Structural)]
pub enum ProtectionEntitlementV1 {
    Unused,
    Fenced { generation: u64 },
}

impl ProtectionEntitlementV1 {
    pub fn unused() -> (r: Self)
        ensures
            r == ProtectionEntitlementV1::Unused,
    {
        Self::Unused
    }

    pub fn fenced(generation: u64) -> (r: Result<Self, ReconnectDurabilityErrorV1>)
        ensures
            r is Ok <==> generation != 0,
            r matches Ok(p) ==> p == (ProtectionEntitlementV1::Fenced { generation }),
            r matches Err(e) ==> e == ReconnectDurabilityErrorV1::InvalidRecord,
    {
        if generation == 0 {
            return Err(ReconnectDurabilityErrorV1::InvalidRecord);
        }
        Ok(Self::Fenced { generation })
    }
}

/// The control-loss epoch and the deadlines a reconnect must meet.
#[derive(Debug, Clone, Copy, PartialEq, Eq, Structural)]
pub struct ReconnectContinuityV1 {
    control_loss_epoch: ControlLossEpochRefV1,
    original_grace_deadline: i64,
    prepared_deadline: i64,
    protection_entitlement: ProtectionEntitlementV1,
}

pub struct ReconnectContinuityView {
    pub control_loss_epoch: ControlLossEpochRefV1,
    pub original_grace_deadline: i64,
    pub prepared_deadline: i64,
    pub protection_entitlement: ProtectionEntitlementV1,
}

impl View for ReconnectContinuityV1 {
    type V = ReconnectContinuityView;

    closed spec fn view(&self) -> ReconnectContinuityView {
        ReconnectContinuityView {
            control_loss_epoch: self.control_loss_epoch,
            original_grace_deadline: self.original_grace_deadline,
            prepared_deadline: self.prepared_deadline,
            protection_entitlement: self.protection_entitlement,
        }
    }
}

/// Two continuities are equal exactly when their views are.
pub broadcast proof fn lemma_continuity_view(a: ReconnectContinuityV1, b: ReconnectContinuityV1)
    ensures
        #[trigger] a@ == #[trigger] b@ <==> a == b,
{
}

impl ReconnectContinuityV1 {
    pub fn new(
        control_loss_epoch: ControlLossEpochRefV1,
        original_grace_deadline: i64,
        prepared_deadline: i64,
        protection_entitlement: ProtectionEntitlementV1,
    ) -> (r: Result<Self, ReconnectDurabilityErrorV1>)
        ensures
            r is Ok <==> (prepared_deadline > 0 && original_grace_deadline > 0 && prepared_deadline
                <= original_grace_deadline),
            r matches Ok(c) ==> c@ == (ReconnectContinuityView {
                control_loss_epoch,
                original_grace_deadline,
                prepared_deadline,
                protection_entitlement,
            }),
            r matches Err(e) ==> e == ReconnectDurabilityErrorV1::InvalidRecord,
    {
        if prepared_deadline <= 0 || original_grace_deadline <= 0 || prepared_deadline > original_grace_deadline {
            return Err(ReconnectDurabilityErrorV1::InvalidRecord);
        }
        Ok(Self { control_loss_epoch, original_grace_deadline, prepared_deadline, protection_entitlement })
    }

    pub fn control_loss_epoch(self) -> (r: ControlLossEpochRefV1)
        ensures
            r == self@.control_loss_epoch,
    {
        self.control_loss_epoch
    }

    pub fn original_grace_deadline(self) -> (r: i64)
        ensures
            r == self@.original_grace_deadline,
    {
        self.original_grace_deadline
    }

    pub fn prepared_deadline(self) -> (r: i64)
        ensures
            r == self@.prepared_deadline,
    {
        self.prepared_deadline
    }

    pub fn protection_entitlement(self) -> (r: ProtectionEntitlementV1)
        ensures
            r == self@.protection_entitlement,
    {
        self.protection_entitlement
    }
}

/// What the reconnecting client proved.
#[derive(Debug, Clone, PartialEq, Eq)]
pub enum ReconnectProofV1 {
    FastReconnect { reconnect_proof_generation: u64 },
    ReauthenticatedRecovery { recovery_grant_nonce: [u8; 32] },
}

/// A proof is well formed: a non-zero generation or a non-zero nonce.
pub open spec fn proof_is_valid(p: ReconnectProofV1) -> bool {
    match p {
        ReconnectProofV1::FastReconnect { reconnect_proof_generation } => reconnect_proof_generation != 0,
        ReconnectProofV1::ReauthenticatedRecovery { recovery_grant_nonce } => !all_zero(recovery_grant_nonce@),
    }
}

impl ReconnectProofV1 {
    /// Whether the proof is well formed.
    pub fn validate(&self) -> (r: bool)
        ensures
            r == proof_is_valid(*self),
    {
        match self {
            ReconnectProofV1::FastReconnect { reconnect_proof_generation } => *reconnect_proof_generation != 0,
            ReconnectProofV1::ReauthenticatedRecovery { recovery_grant_nonce } => !is_all_zero(
                recovery_grant_nonce.as_slice(),
            ),
        }
    }

    /// An identical copy of this proof.
    pub fn duplicate(&self) -> (r: Self)
        ensures
            r == *self,
    {
        match self {
            ReconnectProofV1::FastReconnect { reconnect_proof_generation } => ReconnectProofV1::FastReconnect {
                reconnect_proof_generation: *reconnect_proof_generation,
            },
            ReconnectProofV1::ReauthenticatedRecovery { recovery_grant_nonce } => ReconnectProofV1::ReauthenticatedRecovery {
                recovery_grant_nonce: *recovery_grant_nonce,
            },
        }
    }

    /// Whether two proofs are the same proof.
    pub fn same(&self, other: &Self) -> (r: bool)
        ensures
            r == (*self == *other),
    {
        match (self, other) {
            (
                ReconnectProofV1::FastReconnect { reconnect_proof_generation: a },
                ReconnectProofV1::FastReconnect { reconnect_proof_generation: b },
            ) => *a == *b,
            (
                ReconnectProofV1::ReauthenticatedRecovery { recovery_grant_nonce: a },
                ReconnectProofV1::ReauthenticatedRecovery { recovery_grant_nonce: b },
            ) => {
                let r = crate::bytes::same_bytes(a.as_slice(), b.as_slice());
                proof {
                    broadcast use vstd::array::group_array_axioms;

                    if r {
                        assert(forall|i: int| 0 <= i < 32 ==> a@[i] == b@[i]);
                        assert(*a =~= *b);
                    }
                }
                r
            },
            _ => false,
        }
    }
}


/// Largest number of outstanding commands a client may hold: a full
/// reconciliation payload carries exactly this many pending commands.
pub const MAX_OUTSTANDING_COMMANDS_V1: usize = 64;

/// Largest number of state domains one reconnect may reconcile.
pub const MAX_STATE_DOMAINS_PER_RECONNECT_V1: usize = 256;

/// How long authenticated evidence stays fresh, in seconds.
pub const EVIDENCE_FRESHNESS_SECONDS_V1: i64 = 5;

#[derive(Debug, Clone, Copy, PartialEq, Eq, Structural)]
pub enum PendingCommandDispositionV1 {
    PendingOriginal,
    TerminalOutcomeRetained,
}

/// What becomes of one outstanding client command across the reconnect.
#[derive(Debug, Clone, Copy, PartialEq, Eq, Structural)]
pub struct PendingCommandReconciliationV1 {
    command_id: CommandId,
    disposition: PendingCommandDispositionV1,
}

impl PendingCommandReconciliationV1 {
    pub fn new(command_id: CommandId, disposition: PendingCommandDispositionV1) -> (r: Self)
        ensures
            r.spec_command_id() == command_id,
            r.spec_disposition() == disposition,
    {
        Self { command_id, disposition }
    }

    pub closed spec fn spec_command_id(self) -> CommandId {
        self.command_id
    }

    pub closed spec fn spec_disposition(self) -> PendingCommandDispositionV1 {
        self.disposition
    }

    pub fn command_id(self) -> (r: CommandId)
        ensures
            r == self.spec_command_id(),
    {
        self.command_id
    }

    pub fn disposition(self) -> (r: PendingCommandDispositionV1)
        ensures
            r == self.spec_disposition(),
    {
        self.disposition
    }
}

/// The revision of one state domain the reconnect reconciles.
#[derive(Debug, Clone, Copy, PartialEq, Eq, Structural)]
pub struct StateDomainRevisionV1 {
    domain_id: u32,
    revision: u64,
}

impl StateDomainRevisionV1 {
    pub fn new(domain_id: u32, revision: u64) -> (r: Result<Self, ReconnectDurabilityErrorV1>)
        ensures
            r is Ok <==> domain_id != 0,
            r matches Ok(d) ==> d.spec_domain_id() == domain_id && d.spec_revision() == revision,
            r matches Err(e) ==> e == ReconnectDurabilityErrorV1::InvalidRecord,
    {
        if domain_id == 0 {
            return Err(ReconnectDurabilityErrorV1::InvalidRecord);
        }
        Ok(Self { domain_id, revision })
    }

    pub closed spec fn spec_domain_id(self) -> u32 {
        self.domain_id
    }

    pub closed spec fn spec_revision(self) -> u64 {
        self.revision
    }

    pub fn domain_id(self) -> (r: u32)
        ensures
            r == self.spec_domain_id(),
    {
        self.domain_id
    }

    pub fn revision(self) -> (r: u64)
        ensures
            r == self.spec_revision(),
    {
        self.revision
    }
}

/// The FND-02 command and state-domain fence that a reconnect reconciles.
#[derive(Debug, Clone, PartialEq, Eq)]
pub struct Fnd02ReconciliationFenceV1 {
    next_command_id: CommandId,
    pending: Vec<PendingCommandReconciliationV1>,
    server_sequence: u64,
    domain_revisions: Vec<StateDomainRevisionV1>,
}

pub struct Fnd02ReconciliationFenceView {
    pub next_command_id: CommandId,
    pub pending: Seq<PendingCommandReconciliationV1>,
    pub server_sequence: u64,
    pub domain_revisions: Seq<StateDomainRevisionV1>,
}

impl View for Fnd02ReconciliationFenceV1 {
    type V = Fnd02ReconciliationFenceView;

    closed spec fn view(&self) -> Fnd02ReconciliationFenceView {
        Fnd02ReconciliationFenceView {
            next_command_id: self.next_command_id,
            pending: self.pending@,
            server_sequence: self.server_sequence,
            domain_revisions: self.domain_revisions@,
        }
    }
}

/// Pending commands are below the next command id and strictly increasing;
/// state domains are strictly increasing; both lists are bounded.
pub open spec fn fnd02_is_valid(
    next_command_id: CommandId,
    pending: Seq<PendingCommandReconciliationV1>,
    domain_revisions: Seq<StateDomainRevisionV1>,
) -> bool {
    &&& pending.len() <= MAX_OUTSTANDING_COMMANDS_V1
    &&& domain_revisions.len() <= MAX_STATE_DOMAINS_PER_RECONNECT_V1
    &&& forall|i: int| 0 <= i < pending.len() ==> (#[trigger] pending[i]).spec_command_id()@ < next_command_id@
    &&& forall|i: int|
        0 <= i < pending.len() - 1 ==> (#[trigger] pending[i]).spec_command_id()@ < pending[i + 1].spec_command_id()@
    &&& forall|i: int|
        0 <= i < domain_revisions.len() - 1 ==> (#[trigger] domain_revisions[i]).spec_domain_id()
            < domain_revisions[i + 1].spec_domain_id()
}

fn copy_pending(v: &Vec<PendingCommandReconciliationV1>) -> (r: Vec<PendingCommandReconciliationV1>)
    ensures
        r@ == v@,
{
    let mut r: Vec<PendingCommandReconciliationV1> = Vec::new();
    let mut i: usize = 0;
    while i < v.len()
        invariant
            i <= v@.len(),
            r@ == v@.subrange(0, i as int),
        decreases v@.len() - i,
    {
        r.push(v[i]);
        i = i + 1;
        assert(r@ =~= v@.subrange(0, i as int));
    }
    assert(r@ =~= v@);
    r
}

fn copy_domains(v: &Vec<StateDomainRevisionV1>) -> (r: Vec<StateDomainRevisionV1>)
    ensures
        r@ == v@,
{
    let mut r: Vec<StateDomainRevisionV1> = Vec::new();
    let mut i: usize = 0;
    while i < v.len()
        invariant
            i <= v@.len(),
            r@ == v@.subrange(0, i as int),
        decreases v@.len() - i,
    {
        r.push(v[i]);
        i = i + 1;
        assert(r@ =~= v@.subrange(0, i as int));
    }
    assert(r@ =~= v@);
    r
}

fn same_pending(a: &Vec<PendingCommandReconciliationV1>, b: &Vec<PendingCommandReconciliationV1>) -> (r: bool)
    ensures
        r == (a@ == b@),
{
    if a.len() != b.len() {
        return false;
    }
    let mut i: usize = 0;
    while i < a.len()
        invariant
            a@.len() == b@.len(),
            i <= a@.len(),
            forall|j: int| 0 <= j < i ==> a@[j] == b@[j],
        decreases a@.len() - i,
    {
        if a[i] != b[i] {
            return false;
        }
        i = i + 1;
    }
    assert(a@ =~= b@);
    true
}

fn same_domains(a: &Vec<StateDomainRevisionV1>, b: &Vec<StateDomainRevisionV1>) -> (r: bool)
    ensures
        r == (a@ == b@),
{
    if a.len() != b.len() {
        return false;
    }
    let mut i: usize = 0;
    while i < a.len()
        invariant
            a@.len() == b@.len(),
            i <= a@.len(),
            forall|j: int| 0 <= j < i ==> a@[j] == b@[j],
        decreases a@.len() - i,
    {
        if a[i] != b[i] {
            return false;
        }
        i = i + 1;
    }
    assert(a@ =~= b@);
    true
}

impl Fnd02ReconciliationFenceV1 {
    pub fn new(
        next_command_id: CommandId,
        pending: Vec<PendingCommandReconciliationV1>,
        server_sequence: u64,
        domain_revisions: Vec<StateDomainRevisionV1>,
    ) -> (r: Result<Self, ReconnectDurabilityErrorV1>)
        ensures
            r is Ok <==> fnd02_is_valid(next_command_id, pending@, domain_revisions@),
            r matches Ok(f) ==> f@ == (Fnd02ReconciliationFenceView {
                next_command_id,
                pending: pending@,
                server_sequence,
                domain_revisions: domain_revisions@,
            }),
            r matches Err(e) ==> e == ReconnectDurabilityErrorV1::InvalidRecord,
    {
        if pending.len() > MAX_OUTSTANDING_COMMANDS_V1 || domain_revisions.len() > MAX_STATE_DOMAINS_PER_RECONNECT_V1 {
            return Err(ReconnectDurabilityErrorV1::InvalidRecord);
        }
        let mut i: usize = 0;
        while i < pending.len()
            invariant
                i <= pending@.len(),
                forall|j: int| 0 <= j < i ==> (#[trigger] pending@[j]).spec_command_id()@ < next_command_id@,
                forall|j: int|
                    0 <= j < i && j < pending@.len() - 1 ==> (#[trigger] pending@[j]).spec_command_id()@
                        < pending@[j + 1].spec_command_id()@,
            decreases pending@.len() - i,
        {
            if pending[i].command_id().get() >= next_command_id.get() {
                return Err(ReconnectDurabilityErrorV1::InvalidRecord);
            }
            if i + 1 < pending.len() && pending[i].command_id().get() >= pending[i + 1].command_id().get() {
                assert(!((pending@[i as int]).spec_command_id()@ < pending@[i + 1].spec_command_id()@));
                return Err(ReconnectDurabilityErrorV1::InvalidRecord);
            }
            i = i + 1;
        }
        let mut k: usize = 0;
        while k < domain_revisions.len()
            invariant
                k <= domain_revisions@.len(),
                forall|j: int|
                    0 <= j < k && j < domain_revisions@.len() - 1 ==> (#[trigger] domain_revisions@[j]).spec_domain_id()
                        < domain_revisions@[j + 1].spec_domain_id(),
            decreases domain_revisions@.len() - k,
        {
            if k + 1 < domain_revisions.len() && domain_revisions[k].domain_id() >= domain_revisions[k
                + 1].domain_id() {
                assert(!(domain_revisions@[k as int].spec_domain_id() < domain_revisions@[k + 1].spec_domain_id()));
                return Err(ReconnectDurabilityErrorV1::InvalidRecord);
            }
            k = k + 1;
        }
        Ok(Self { next_command_id, pending, server_sequence, domain_revisions })
    }

    pub fn next_command_id(&self) -> (r: CommandId)
        ensures
            r == self@.next_command_id,
    {
        self.next_command_id
    }

    pub fn pending(&self) -> (r: &[PendingCommandReconciliationV1])
        ensures
            r@ == self@.pending,
    {
        self.pending.as_slice()
    }

    pub fn server_sequence(&self) -> (r: u64)
        ensures
            r == self@.server_sequence,
    {
        self.server_sequence
    }

    pub fn domain_revisions(&self) -> (r: &[StateDomainRevisionV1])
        ensures
            r@ == self@.domain_revisions,
    {
        self.domain_revisions.as_slice()
    }

    /// An identical copy of this fence.
    pub fn duplicate(&self) -> (r: Self)
        ensures
            r@ == self@,
    {
        Self {
            next_command_id: self.next_command_id,
            pending: copy_pending(&self.pending),
            server_sequence: self.server_sequence,
            domain_revisions: copy_domains(&self.domain_revisions),
        }
    }

    /// Whether two fences are the same fence.
    pub fn same(&self, other: &Self) -> (r: bool)
        ensures
            r == (self@ == other@),
    {
        self.next_command_id == other.next_command_id && same_pending(&self.pending, &other.pending)
            && self.server_sequence == other.server_sequence && same_domains(
            &self.domain_revisions,
            &other.domain_revisions,
        )
    }
}

/// Authenticated evidence of one authority decision and when it was observed.
#[derive(Debug, Clone, PartialEq, Eq)]
pub struct AuthorityEvidenceFenceV1 {
    authority: String,
    purpose: String,
    scope: String,
    source_revision: String,
    decision_identity: String,
    source_observed_at: i64,
}

pub struct AuthorityEvidenceFenceView {
    pub authority: Seq<char>,
    pub purpose: Seq<char>,
    pub scope: Seq<char>,
    pub source_revision: Seq<char>,
    pub decision_identity: Seq<char>,
    pub source_observed_at: i64,
}

impl View for AuthorityEvidenceFenceV1 {
    type V = AuthorityEvidenceFenceView;

    closed spec fn view(&self) -> AuthorityEvidenceFenceView {
        AuthorityEvidenceFenceView {
            authority: self.authority@,
            purpose: self.purpose@,
            scope: self.scope@,
            source_revision: self.source_revision@,
            decision_identity: self.decision_identity@,
            source_observed_at: self.source_observed_at,
        }
    }
}

impl AuthorityEvidenceFenceV1 {
    pub fn new(
        authority: &str,
        purpose: &str,
        scope: &str,
        source_revision: &str,
        decision_identity: &str,
        source_observed_at: i64,
    ) -> (r: Result<Self, ReconnectDurabilityErrorV1>)
        ensures
            r is Ok <==> (source_observed_at >= 0 && visible_ascii_text(authority@) && visible_ascii_text(purpose@)
                && visible_ascii_text(scope@) && visible_ascii_text(source_revision@)
                && visible_ascii_text(decision_identity@)),
            r matches Ok(f) ==> f@ == (AuthorityEvidenceFenceView {
                authority: authority@,
                purpose: purpose@,
                scope: scope@,
                source_revision: source_revision@,
                decision_identity: decision_identity@,
                source_observed_at,
            }),
            r matches Err(e) ==> e == ReconnectDurabilityErrorV1::InvalidRecord,
    {
        if source_observed_at < 0 || !non_empty_visible_ascii(authority) || !non_empty_visible_ascii(purpose)
            || !non_empty_visible_ascii(scope) || !non_empty_visible_ascii(source_revision)
            || !non_empty_visible_ascii(decision_identity) {
            return Err(ReconnectDurabilityErrorV1::InvalidRecord);
        }
        Ok(Self {
            authority: authority.to_owned(),
            purpose: purpose.to_owned(),
            scope: scope.to_owned(),
            source_revision: source_revision.to_owned(),
            decision_identity: decision_identity.to_owned(),
            source_observed_at,
        })
    }

    pub fn authority(&self) -> (r: &str)
        ensures
            r@ == self@.authority,
    {
        self.authority.as_str()
    }

    pub fn purpose(&self) -> (r: &str)
        ensures
            r@ == self@.purpose,
    {
        self.purpose.as_str()
    }

    pub fn scope(&self) -> (r: &str)
        ensures
            r@ == self@.scope,
    {
        self.scope.as_str()
    }

    pub fn source_revision(&self) -> (r: &str)
        ensures
            r@ == self@.source_revision,
    {
        self.source_revision.as_str()
    }

    pub fn decision_identity(&self) -> (r: &str)
        ensures
            r@ == self@.decision_identity,
    {
        self.decision_identity.as_str()
    }

    pub fn source_observed_at(&self) -> (r: i64)
        ensures
            r == self@.source_observed_at,
    {
        self.source_observed_at
    }

    /// An identical copy of this evidence.
    pub fn duplicate(&self) -> (r: Self)
        ensures
            r@ == self@,
    {
        Self {
            authority: self.authority.clone(),
            purpose: self.purpose.clone(),
            scope: self.scope.clone(),
            source_revision: self.source_revision.clone(),
            decision_identity: self.decision_identity.clone(),
            source_observed_at: self.source_observed_at,
        }
    }

    /// Whether two pieces of evidence are the same.
    pub fn same(&self, other: &Self) -> (r: bool)
        ensures
            r == (self@ == other@),
    {
        self.authority == other.authority && self.purpose == other.purpose && self.scope == other.scope
            && self.source_revision == other.source_revision && self.decision_identity
            == other.decision_identity && self.source_observed_at == other.source_observed_at
    }
}

/// Protocol, content and security evidence a reconnect is compatible with.
#[derive(Debug, Clone, PartialEq, Eq)]
pub struct ReconnectCompatibilityEvidenceV1 {
    protocol_major: u32,
    transport_profile: u32,
    ruleset_revision: String,
    content_revision: String,
    map_revision: String,
    world_policy_revision: String,
    account_security_generation: u64,
    platform_security_evidence: AuthorityEvidenceFenceV1,
    proof_trust_evidence: AuthorityEvidenceFenceV1,
    credential_expiration: Option<i64>,
}

pub struct ReconnectCompatibilityEvidenceView {
    pub protocol_major: u32,
    pub transport_profile: u32,
    pub ruleset_revision: Seq<char>,
    pub content_revision: Seq<char>,
    pub map_revision: Seq<char>,
    pub world_policy_revision: Seq<char>,
    pub account_security_generation: u64,
    pub platform_security_evidence: AuthorityEvidenceFenceView,
    pub proof_trust_evidence: AuthorityEvidenceFenceView,
    pub credential_expiration: Option<i64>,
}

impl View for ReconnectCompatibilityEvidenceV1 {
    type V = ReconnectCompatibilityEvidenceView;

    closed spec fn view(&self) -> ReconnectCompatibilityEvidenceView {
        ReconnectCompatibilityEvidenceView {
            protocol_major: self.protocol_major,
            transport_profile: self.transport_profile,
            ruleset_revision: self.ruleset_revision@,
            content_revision: self.content_revision@,
            map_revision: self.map_revision@,
            world_policy_revision: self.world_policy_revision@,
            account_security_generation: self.account_security_generation,
            platform_security_evidence: self.platform_security_evidence@,
            proof_trust_evidence: self.proof_trust_evidence@,
            credential_expiration: self.credential_expiration,
        }
    }
}

impl ReconnectCompatibilityEvidenceV1 {
    pub fn new(
        protocol_major: u32,
        transport_profile: u32,
        ruleset_revision: &str,
        content_revision: &str,
        map_revision: &str,
        world_policy_revision: &str,
        account_security_generation: u64,
        platform_security_evidence: AuthorityEvidenceFenceV1,
        proof_trust_evidence: AuthorityEvidenceFenceV1,
        credential_expiration: Option<i64>,
    ) -> (r: Result<Self, ReconnectDurabilityErrorV1>)
        ensures
            r is Ok <==> (protocol_major != 0 && transport_profile != 0 && account_security_generation != 0
                && visible_ascii_text(ruleset_revision@) && visible_ascii_text(content_revision@)
                && visible_ascii_text(map_revision@) && visible_ascii_text(world_policy_revision@)
                && !(credential_expiration matches Some(x) && x <= 0)),
            r matches Ok(c) ==> c@ == (ReconnectCompatibilityEvidenceView {
                protocol_major,
                transport_profile,
                ruleset_revision: ruleset_revision@,
                content_revision: content_revision@,
                map_revision: map_revision@,
                world_policy_revision: world_policy_revision@,
                account_security_generation,
                platform_security_evidence: platform_security_evidence@,
                proof_trust_evidence: proof_trust_evidence@,
                credential_expiration,
            }),
            r matches Err(e) ==> e == ReconnectDurabilityErrorV1::InvalidRecord,
    {
        let expired = match credential_expiration {
            Some(x) => x <= 0,
            None => false,
        };
        if protocol_major == 0 || transport_profile == 0 || account_security_generation == 0
            || !non_empty_visible_ascii(ruleset_revision) || !non_empty_visible_ascii(content_revision)
            || !non_empty_visible_ascii(map_revision) || !non_empty_visible_ascii(world_policy_revision)
            || expired {
            return Err(ReconnectDurabilityErrorV1::InvalidRecord);
        }
        Ok(Self {
            protocol_major,
            transport_profile,
            ruleset_revision: ruleset_revision.to_owned(),
            content_revision: content_revision.to_owned(),
            map_revision: map_revision.to_owned(),
            world_policy_revision: world_policy_revision.to_owned(),
            account_security_generation,
            platform_security_evidence,
            proof_trust_evidence,
            credential_expiration,
        })
    }

    pub fn protocol_major(&self) -> (r: u32)
        ensures
            r == self@.protocol_major,
    {
        self.protocol_major
    }

    pub fn transport_profile(&self) -> (r: u32)
        ensures
            r == self@.transport_profile,
    {
        self.transport_profile
    }

    pub fn ruleset_revision(&self) -> (r: &str)
        ensures
            r@ == self@.ruleset_revision,
    {
        self.ruleset_revision.as_str()
    }

    pub fn content_revision(&self) -> (r: &str)
        ensures
            r@ == self@.content_revision,
    {
        self.content_revision.as_str()
    }

    pub fn map_revision(&self) -> (r: &str)
        ensures
            r@ == self@.map_revision,
    {
        self.map_revision.as_str()
    }

    pub fn world_policy_revision(&self) -> (r: &str)
        ensures
            r@ == self@.world_policy_revision,
    {
        self.world_policy_revision.as_str()
    }

    pub fn account_security_generation(&self) -> (r: u64)
        ensures
            r == self@.account_security_generation,
    {
        self.account_security_generation
    }

    pub fn credential_expiration(&self) -> (r: Option<i64>)
        ensures
            r == self@.credential_expiration,
    {
        self.credential_expiration
    }

    pub fn platform_security_evidence(&self) -> (r: &AuthorityEvidenceFenceV1)
        ensures
            r@ == self@.platform_security_evidence,
    {
        &self.platform_security_evidence
    }

    pub fn proof_trust_evidence(&self) -> (r: &AuthorityEvidenceFenceV1)
        ensures
            r@ == self@.proof_trust_evidence,
    {
        &self.proof_trust_evidence
    }

    /// An identical copy of this evidence.
    pub fn duplicate(&self) -> (r: Self)
        ensures
            r@ == self@,
    {
        Self {
            protocol_major: self.protocol_major,
            transport_profile: self.transport_profile,
            ruleset_revision: self.ruleset_revision.clone(),
            content_revision: self.content_revision.clone(),
            map_revision: self.map_revision.clone(),
            world_policy_revision: self.world_policy_revision.clone(),
            account_security_generation: self.account_security_generation,
            platform_security_evidence: self.platform_security_evidence.duplicate(),
            proof_trust_evidence: self.proof_trust_evidence.duplicate(),
            credential_expiration: self.credential_expiration,
        }
    }

    /// Whether two pieces of evidence are the same.
    pub fn same(&self, other: &Self) -> (r: bool)
        ensures
            r == (self@ == other@),
    {
        self.protocol_major == other.protocol_major && self.transport_profile == other.transport_profile
            && self.ruleset_revision == other.ruleset_revision && self.content_revision
            == other.content_revision && self.map_revision == other.map_revision
            && self.world_policy_revision == other.world_policy_revision
            && self.account_security_generation == other.account_security_generation
            && self.platform_security_evidence.same(&other.platform_security_evidence)
            && self.proof_trust_evidence.same(&other.proof_trust_evidence)
            && self.credential_expiration == other.credential_expiration
    }
}


/// The complete durable record of one reconnect attempt.
#[derive(Debug, Clone, PartialEq, Eq)]
pub struct ReconnectDurabilityRecordV1 {
    identity: ReconnectIdentityV1,
    connection: ReconnectConnectionFenceV1,
    authority: ReconnectAuthorityFenceV1,
    continuity: ReconnectContinuityV1,
    proof: ReconnectProofV1,
    fnd02: Fnd02ReconciliationFenceV1,
    compatibility: ReconnectCompatibilityEvidenceV1,
}

pub struct ReconnectDurabilityRecordView {
    pub identity: ReconnectIdentityView,
    pub connection: ReconnectConnectionFenceV1,
    pub authority: ReconnectAuthorityFenceV1,
    pub continuity: ReconnectContinuityV1,
    pub proof: ReconnectProofV1,
    pub fnd02: Fnd02ReconciliationFenceView,
    pub compatibility: ReconnectCompatibilityEvidenceView,
}

impl View for ReconnectDurabilityRecordV1 {
    type V = ReconnectDurabilityRecordView;

    closed spec fn view(&self) -> ReconnectDurabilityRecordView {
        ReconnectDurabilityRecordView {
            identity: self.identity@,
            connection: self.connection,
            authority: self.authority,
            continuity: self.continuity,
            proof: self.proof,
            fnd02: self.fnd02@,
            compatibility: self.compatibility@,
        }
    }
}

/// The smaller of two values.
pub open spec fn min_int(a: int, b: int) -> int {
    if a <= b {
        a
    } else {
        b
    }
}

/// The last instant at which a COMMIT of the record may be authorized: the
/// earliest of its deadlines, of its evidence freshness and of the credential
/// expiry; `None` where the freshness deadline does not fit in an `i64`.
pub open spec fn authorization_deadline_of(r: ReconnectDurabilityRecordView) -> Option<i64> {
    let platform = r.compatibility.platform_security_evidence.source_observed_at + EVIDENCE_FRESHNESS_SECONDS_V1;
    let trust = r.compatibility.proof_trust_evidence.source_observed_at + EVIDENCE_FRESHNESS_SECONDS_V1;
    if platform > i64::MAX || trust > i64::MAX {
        None
    } else {
        let deadline = min_int(
            min_int(min_int(r.continuity@.prepared_deadline as int, r.continuity@.original_grace_deadline as int), platform),
            trust,
        );
        Some(
            match r.compatibility.credential_expiration {
                Some(c) => min_int(deadline, c as int),
                None => deadline,
            } as i64,
        )
    }
}

/// Authenticated evidence of the record had been observed by `observed_at`.
pub open spec fn evidence_observed_by(r: ReconnectDurabilityRecordView, observed_at: i64) -> bool {
    observed_at >= r.compatibility.platform_security_evidence.source_observed_at && observed_at
        >= r.compatibility.proof_trust_evidence.source_observed_at
}

impl ReconnectDurabilityRecordV1 {
    pub fn new(
        identity: ReconnectIdentityV1,
        connection: ReconnectConnectionFenceV1,
        authority: ReconnectAuthorityFenceV1,
        continuity: ReconnectContinuityV1,
        proof: ReconnectProofV1,
        fnd02: Fnd02ReconciliationFenceV1,
        compatibility: ReconnectCompatibilityEvidenceV1,
    ) -> (r: Result<Self, ReconnectDurabilityErrorV1>)
        ensures
            r is Ok <==> proof_is_valid(proof),
            r matches Ok(rec) ==> rec@ == (ReconnectDurabilityRecordView {
                identity: identity@,
                connection,
                authority,
                continuity,
                proof,
                fnd02: fnd02@,
                compatibility: compatibility@,
            }),
            r matches Err(e) ==> e == ReconnectDurabilityErrorV1::InvalidRecord,
    {
        if !proof.validate() {
            return Err(ReconnectDurabilityErrorV1::InvalidRecord);
        }
        Ok(Self { identity, connection, authority, continuity, proof, fnd02, compatibility })
    }

    pub fn version(&self) -> (r: u16)
        ensures
            r == 1,
    {
        1
    }

    pub fn identity(&self) -> (r: &ReconnectIdentityV1)
        ensures
            r@ == self@.identity,
    {
        &self.identity
    }

    pub fn connection(&self) -> (r: ReconnectConnectionFenceV1)
        ensures
            r == self@.connection,
    {
        self.connection
    }

    pub fn authority(&self) -> (r: ReconnectAuthorityFenceV1)
        ensures
            r == self@.authority,
    {
        self.authority
    }

    pub fn continuity(&self) -> (r: ReconnectContinuityV1)
        ensures
            r == self@.continuity,
    {
        self.continuity
    }

    pub fn reconnect_proof(&self) -> (r: &ReconnectProofV1)
        ensures
            *r == self@.proof,
    {
        &self.proof
    }

    pub fn fnd02(&self) -> (r: &Fnd02ReconciliationFenceV1)
        ensures
            r@ == self@.fnd02,
    {
        &self.fnd02
    }

    pub fn compatibility(&self) -> (r: &ReconnectCompatibilityEvidenceV1)
        ensures
            r@ == self@.compatibility,
    {
        &self.compatibility
    }

    /// The last instant at which a COMMIT of this record may be authorized.
    pub fn authorization_deadline(&self) -> (r: Result<i64, ReconnectDurabilityErrorV1>)
        ensures
            r is Ok <==> authorization_deadline_of(self@) is Some,
            r matches Ok(d) ==> authorization_deadline_of(self@) == Some(d),
            r matches Err(e) ==> e == ReconnectDurabilityErrorV1::InvalidRecord,
    {
        let platform = self.compatibility.platform_security_evidence().source_observed_at();
        let trust = self.compatibility.proof_trust_evidence().source_observed_at();
        if platform > i64::MAX - EVIDENCE_FRESHNESS_SECONDS_V1 || trust > i64::MAX - EVIDENCE_FRESHNESS_SECONDS_V1 {
            return Err(ReconnectDurabilityErrorV1::InvalidRecord);
        }
        let platform_deadline = platform + EVIDENCE_FRESHNESS_SECONDS_V1;
        let trust_deadline = trust + EVIDENCE_FRESHNESS_SECONDS_V1;
        let mut deadline = self.continuity.prepared_deadline();
        if self.continuity.original_grace_deadline() < deadline {
            deadline = self.continuity.original_grace_deadline();
        }
        if platform_deadline < deadline {
            deadline = platform_deadline;
        }
        if trust_deadline < deadline {
            deadline = trust_deadline;
        }
        if let Some(credential_expiration) = self.compatibility.credential_expiration() {
            if credential_expiration < deadline {
                deadline = credential_expiration;
            }
        }
        Ok(deadline)
    }

    /// Whether the record's authenticated evidence was observed by `observed_at`.
    pub fn evidence_observed_by(&self, observed_at: i64) -> (r: bool)
        ensures
            r == evidence_observed_by(self@, observed_at),
    {
        observed_at >= self.compatibility.platform_security_evidence().source_observed_at()
            && observed_at >= self.compatibility.proof_trust_evidence().source_observed_at()
    }

    /// An identical copy of this record.
    pub fn duplicate(&self) -> (r: Self)
        ensures
            r@ == self@,
    {
        Self {
            identity: self.identity.duplicate(),
            connection: self.connection,
            authority: self.authority,
            continuity: self.continuity,
            proof: self.proof.duplicate(),
            fnd02: self.fnd02.duplicate(),
            compatibility: self.compatibility.duplicate(),
        }
    }

    /// Whether two records are the same record.
    pub fn same(&self, other: &Self) -> (r: bool)
        ensures
            r == (self@ == other@),
    {
        broadcast use lemma_authority_fence_view, lemma_continuity_view;

        self.identity.same(&other.identity) && self.connection.same(other.connection)
            && self.authority == other.authority && self.continuity == other.continuity
            && self.proof.same(&other.proof) && self.fnd02.same(&other.fnd02)
            && self.compatibility.same(&other.compatibility)
    }
}

/// The account that is present in the world with a character.
#[derive(Debug, Clone, PartialEq, Eq)]
pub struct AccountPresenceClaimV1 {
    account_id: String,
    character_id: CharacterId,
}

pub struct AccountPresenceClaimView {
    pub account_id: Seq<char>,
    pub character_id: CharacterId,
}

impl View for AccountPresenceClaimV1 {
    type V = AccountPresenceClaimView;

    closed spec fn view(&self) -> AccountPresenceClaimView {
        AccountPresenceClaimView { account_id: self.account_id@, character_id: self.character_id }
    }
}

/// The view of an optional presence claim.
pub open spec fn optional_presence_view(p: Option<AccountPresenceClaimV1>) -> Option<AccountPresenceClaimView> {
    match p {
        Some(p) => Some(p@),
        None => None,
    }
}

impl AccountPresenceClaimV1 {
    pub fn new(account_id: &str, character_id: CharacterId) -> (r: Result<Self, ReconnectDurabilityErrorV1>)
        ensures
            r is Ok <==> canonical_uuid_text(account_id@),
            r matches Ok(p) ==> p@ == (AccountPresenceClaimView { account_id: account_id@, character_id }),
            r matches Err(e) ==> e == ReconnectDurabilityErrorV1::InvalidRecord,
    {
        if !canonical_uuid(account_id) {
            return Err(ReconnectDurabilityErrorV1::InvalidRecord);
        }
        Ok(Self { account_id: account_id.to_owned(), character_id })
    }

    /// The presence claim a reconnect identity expects.
    pub fn from_identity(identity: &ReconnectIdentityV1) -> (r: Result<Self, ReconnectDurabilityErrorV1>)
        ensures
            r is Ok <==> canonical_uuid_text(identity@.account_id),
            r matches Ok(p) ==> p@ == (AccountPresenceClaimView {
                account_id: identity@.account_id,
                character_id: identity@.character_id,
            }),
            r matches Err(e) ==> e == ReconnectDurabilityErrorV1::InvalidRecord,
    {
        Self::new(identity.account_id(), identity.character_id())
    }

    pub fn account_id(&self) -> (r: &str)
        ensures
            r@ == self@.account_id,
    {
        self.account_id.as_str()
    }

    pub fn character_id(&self) -> (r: CharacterId)
        ensures
            r == self@.character_id,
    {
        self.character_id
    }

    /// An identical copy of this claim.
    pub fn duplicate(&self) -> (r: Self)
        ensures
            r@ == self@,
    {
        Self { account_id: self.account_id.clone(), character_id: self.character_id }
    }

    /// Whether two claims are the same claim.
    pub fn same(&self, other: &Self) -> (r: bool)
        ensures
            r == (self@ == other@),
    {
        self.account_id == other.account_id && self.character_id == other.character_id
    }
}

impl crate::admission::CharacterWorldEligibilityClaimV1 {
    /// The eligibility claim a reconnect identity expects.
    pub fn from_identity(identity: &ReconnectIdentityV1) -> (r: Self)
        ensures
            r@ == (crate::admission::CharacterWorldEligibilityClaimView {
                character_id: identity@.character_id,
                world_id: identity@.world_id,
            }),
    {
        Self::new(identity.character_id(), identity.world_id())
    }
}

impl ReconnectCandidateBindingV1 {
    /// The live candidate binding a record expects.
    pub fn from_record(record: &ReconnectDurabilityRecordV1) -> (r: Result<Self, ReconnectDurabilityErrorV1>)
        ensures
            r is Ok <==> record@.continuity@.prepared_deadline > 0,
            r matches Ok(b) ==> b@ == expected_binding_view(record@),
            r matches Err(e) ==> e == ReconnectDurabilityErrorV1::InvalidRecord,
    {
        Self::new(
            record.identity().game_session_id(),
            record.identity().reconnect_attempt_ref(),
            record.connection().candidate(),
            record.connection().transport_ref(),
            record.continuity().prepared_deadline(),
        )
    }
}

/// The candidate binding a record expects to be current.
pub open spec fn expected_binding_view(r: ReconnectDurabilityRecordView) -> ReconnectCandidateBindingView {
    ReconnectCandidateBindingView {
        game_session_id: r.identity.game_session_id,
        reconnect_attempt_ref: r.identity.reconnect_attempt_ref,
        connection_generation: r.connection@.candidate,
        transport_ref: r.connection@.transport_ref,
        prepared_deadline: r.continuity@.prepared_deadline,
    }
}


/// The current authoritative facts a PREPARED reconnect is revalidated against.
#[derive(Debug, Clone, PartialEq, Eq)]
pub struct ReconnectCurrentAuthorityV1 {
    identity: ReconnectIdentityV1,
    current_account_presence: Option<AccountPresenceClaimV1>,
    current_character_world_eligibility: Option<crate::admission::CharacterWorldEligibilityClaimV1>,
    current_candidate: Option<ReconnectCandidateBindingV1>,
    current_runtime_scope: RuntimeScopeRefV1,
    predecessor: ConnectionGeneration,
    authority: ReconnectAuthorityFenceV1,
    continuity_epoch: ControlLossEpochRefV1,
    original_grace_deadline: i64,
    proof: ReconnectProofV1,
    fnd02: Fnd02ReconciliationFenceV1,
    protocol_major: u32,
    transport_profile: u32,
    ruleset_revision: String,
    content_revision: String,
    map_revision: String,
    world_policy_revision: String,
    account_security_generation: u64,
    platform_security_evidence: AuthorityEvidenceFenceV1,
    proof_trust_evidence: AuthorityEvidenceFenceV1,
    credential_expiration: Option<i64>,
    session_state: crate::admission::GameSessionState,
    current_controller_present: bool,
    observed_at: i64,
}

pub struct ReconnectCurrentAuthorityView {
    pub identity: ReconnectIdentityView,
    pub current_account_presence: Option<AccountPresenceClaimView>,
    pub current_character_world_eligibility: Option<crate::admission::CharacterWorldEligibilityClaimV1>,
    pub current_candidate: Option<ReconnectCandidateBindingV1>,
    pub current_runtime_scope: RuntimeScopeRefV1,
    pub predecessor: ConnectionGeneration,
    pub authority: ReconnectAuthorityFenceV1,
    pub continuity_epoch: ControlLossEpochRefV1,
    pub original_grace_deadline: i64,
    pub proof: ReconnectProofV1,
    pub fnd02: Fnd02ReconciliationFenceView,
    pub protocol_major: u32,
    pub transport_profile: u32,
    pub ruleset_revision: Seq<char>,
    pub content_revision: Seq<char>,
    pub map_revision: Seq<char>,
    pub world_policy_revision: Seq<char>,
    pub account_security_generation: u64,
    pub platform_security_evidence: AuthorityEvidenceFenceView,
    pub proof_trust_evidence: AuthorityEvidenceFenceView,
    pub credential_expiration: Option<i64>,
    pub session_state: crate::admission::GameSessionState,
    pub current_controller_present: bool,
    pub observed_at: i64,
}

impl View for ReconnectCurrentAuthorityV1 {
    type V = ReconnectCurrentAuthorityView;

    closed spec fn view(&self) -> ReconnectCurrentAuthorityView {
        ReconnectCurrentAuthorityView {
            identity: self.identity@,
            current_account_presence: optional_presence_view(self.current_account_presence),
            current_character_world_eligibility: self.current_character_world_eligibility,
            current_candidate: self.current_candidate,
            current_runtime_scope: self.current_runtime_scope,
            predecessor: self.predecessor,
            authority: self.authority,
            continuity_epoch: self.continuity_epoch,
            original_grace_deadline: self.original_grace_deadline,
            proof: self.proof,
            fnd02: self.fnd02@,
            protocol_major: self.protocol_major,
            transport_profile: self.transport_profile,
            ruleset_revision: self.ruleset_revision@,
            content_revision: self.content_revision@,
            map_revision: self.map_revision@,
            world_policy_revision: self.world_policy_revision@,
            account_security_generation: self.account_security_generation,
            platform_security_evidence: self.platform_security_evidence@,
            proof_trust_evidence: self.proof_trust_evidence@,
            credential_expiration: self.credential_expiration,
            session_state: self.session_state,
            current_controller_present: self.current_controller_present,
            observed_at: self.observed_at,
        }
    }
}

impl ReconnectCurrentAuthorityV1 {
    /// Current facts read from one fenced authority read, for `record`.
    pub fn from_current_facts(
        record: &ReconnectDurabilityRecordV1,
        current_account_presence: Option<AccountPresenceClaimV1>,
        current_character_world_eligibility: Option<crate::admission::CharacterWorldEligibilityClaimV1>,
        current_candidate: Option<ReconnectCandidateBindingV1>,
        current_runtime_scope: RuntimeScopeRefV1,
        predecessor: ConnectionGeneration,
        authority: ReconnectAuthorityFenceV1,
        continuity_epoch: ControlLossEpochRefV1,
        original_grace_deadline: i64,
        proof: ReconnectProofV1,
        fnd02: Fnd02ReconciliationFenceV1,
        compatibility: ReconnectCompatibilityEvidenceV1,
        session_state: crate::admission::GameSessionState,
        current_controller_present: bool,
        observed_at: i64,
    ) -> (r: Result<Self, ReconnectDurabilityErrorV1>)
        ensures
            r is Ok <==> (observed_at >= 0 && original_grace_deadline > 0 && current_runtime_scope.spec_world_id()
                == record@.identity.world_id && proof_is_valid(proof)),
            r matches Ok(c) ==> c@ == (ReconnectCurrentAuthorityView {
                identity: record@.identity,
                current_account_presence: optional_presence_view(current_account_presence),
                current_character_world_eligibility,
                current_candidate,
                current_runtime_scope,
                predecessor,
                authority,
                continuity_epoch,
                original_grace_deadline,
                proof,
                fnd02: fnd02@,
                protocol_major: compatibility@.protocol_major,
                transport_profile: compatibility@.transport_profile,
                ruleset_revision: compatibility@.ruleset_revision,
                content_revision: compatibility@.content_revision,
                map_revision: compatibility@.map_revision,
                world_policy_revision: compatibility@.world_policy_revision,
                account_security_generation: compatibility@.account_security_generation,
                platform_security_evidence: compatibility@.platform_security_evidence,
                proof_trust_evidence: compatibility@.proof_trust_evidence,
                credential_expiration: compatibility@.credential_expiration,
                session_state,
                current_controller_present,
                observed_at,
            }),
            r matches Err(e) ==> e == ReconnectDurabilityErrorV1::InvalidRecord,
    {
        if observed_at < 0 || original_grace_deadline <= 0 || current_runtime_scope.world_id()
            != record.identity().world_id() || !proof.validate() {
            return Err(ReconnectDurabilityErrorV1::InvalidRecord);
        }
        Ok(Self {
            identity: record.identity().duplicate(),
            current_account_presence,
            current_character_world_eligibility,
            current_candidate,
            current_runtime_scope,
            predecessor,
            authority,
            continuity_epoch,
            original_grace_deadline,
            proof,
            fnd02,
            protocol_major: compatibility.protocol_major(),
            transport_profile: compatibility.transport_profile(),
            ruleset_revision: compatibility.ruleset_revision().to_owned(),
            content_revision: compatibility.content_revision().to_owned(),
            map_revision: compatibility.map_revision().to_owned(),
            world_policy_revision: compatibility.world_policy_revision().to_owned(),
            account_security_generation: compatibility.account_security_generation(),
            platform_security_evidence: compatibility.platform_security_evidence().duplicate(),
            proof_trust_evidence: compatibility.proof_trust_evidence().duplicate(),
            credential_expiration: compatibility.credential_expiration(),
            session_state,
            current_controller_present,
            observed_at,
        })
    }

    /// The current facts that exactly confirm `record`: a reconnectable
    /// session with no controller, observed at `observed_at`.
    pub fn from_record(record: &ReconnectDurabilityRecordV1, observed_at: i64) -> (r: Result<Self, ReconnectDurabilityErrorV1>)
        ensures
            r is Ok <==> (canonical_uuid_text(record@.identity.account_id) && record@.continuity@.prepared_deadline
                > 0 && observed_at >= 0 && record@.continuity@.original_grace_deadline > 0
                && record@.identity.runtime_scope.spec_world_id() == record@.identity.world_id
                && proof_is_valid(record@.proof)),
            r matches Ok(c) ==> c@ == exact_current_view(record@, observed_at),
            r matches Err(e) ==> e == ReconnectDurabilityErrorV1::InvalidRecord,
    {
        broadcast use crate::admission::lemma_eligibility_claim_view,
            crate::admission::lemma_eligibility_claim_of, lemma_binding_view, lemma_binding_of_view;

        let presence = match AccountPresenceClaimV1::from_identity(record.identity()) {
            Ok(p) => p,
            Err(e) => return Err(e),
        };
        let binding = match ReconnectCandidateBindingV1::from_record(record) {
            Ok(b) => b,
            Err(e) => return Err(e),
        };
        let eligibility = crate::admission::CharacterWorldEligibilityClaimV1::from_identity(record.identity());
        proof {
            let expected = crate::admission::eligibility_claim_of(record@.identity.character_id, record@.identity.world_id);
            crate::admission::lemma_eligibility_claim_of(record@.identity.character_id, record@.identity.world_id);
            crate::admission::lemma_eligibility_claim_view(eligibility, expected);
        }
        Self::from_current_facts(
            record,
            Some(presence),
            Some(eligibility),
            Some(binding),
            record.identity().runtime_scope(),
            record.connection().predecessor(),
            record.authority(),
            record.continuity().control_loss_epoch(),
            record.continuity().original_grace_deadline(),
            record.reconnect_proof().duplicate(),
            record.fnd02().duplicate(),
            record.compatibility().duplicate(),
            crate::admission::GameSessionState::Reconnectable,
            false,
            observed_at,
        )
    }

    pub fn with_current_runtime_scope(self, current_runtime_scope: RuntimeScopeRefV1) -> (r: Result<Self, ReconnectDurabilityErrorV1>)
        ensures
            r is Ok <==> current_runtime_scope.spec_world_id() == self@.identity.world_id,
            r matches Ok(c) ==> c@ == (ReconnectCurrentAuthorityView { current_runtime_scope, ..self@ }),
            r matches Err(e) ==> e == ReconnectDurabilityErrorV1::InvalidRecord,
    {
        if current_runtime_scope.world_id() != self.identity.world_id() {
            return Err(ReconnectDurabilityErrorV1::InvalidRecord);
        }
        let mut next = self;
        next.current_runtime_scope = current_runtime_scope;
        Ok(next)
    }

    pub fn current_runtime_scope(&self) -> (r: RuntimeScopeRefV1)
        ensures
            r == self@.current_runtime_scope,
    {
        self.current_runtime_scope
    }

    /// When these facts were observed.
    pub fn observed_at(&self) -> (r: i64)
        ensures
            r == self@.observed_at,
    {
        self.observed_at
    }
}

/// The current facts that exactly confirm a record, observed at `observed_at`.
pub open spec fn exact_current_view(r: ReconnectDurabilityRecordView, observed_at: i64) -> ReconnectCurrentAuthorityView {
    ReconnectCurrentAuthorityView {
        identity: r.identity,
        current_account_presence: Some(
            AccountPresenceClaimView { account_id: r.identity.account_id, character_id: r.identity.character_id },
        ),
        current_character_world_eligibility: Some(crate::admission::eligibility_claim_of(r.identity.character_id, r.identity.world_id)),
        current_candidate: Some(crate::durability::binding_of_view(expected_binding_view(r))),
        current_runtime_scope: r.identity.runtime_scope,
        predecessor: r.connection@.predecessor,
        authority: r.authority,
        continuity_epoch: r.continuity@.control_loss_epoch,
        original_grace_deadline: r.continuity@.original_grace_deadline,
        proof: r.proof,
        fnd02: r.fnd02,
        protocol_major: r.compatibility.protocol_major,
        transport_profile: r.compatibility.transport_profile,
        ruleset_revision: r.compatibility.ruleset_revision,
        content_revision: r.compatibility.content_revision,
        map_revision: r.compatibility.map_revision,
        world_policy_revision: r.compatibility.world_policy_revision,
        account_security_generation: r.compatibility.account_security_generation,
        platform_security_evidence: r.compatibility.platform_security_evidence,
        proof_trust_evidence: r.compatibility.proof_trust_evidence,
        credential_expiration: r.compatibility.credential_expiration,
        session_state: crate::admission::GameSessionState::Reconnectable,
        current_controller_present: false,
        observed_at,
    }
}

/// The binding whose view is `v`.
pub closed spec fn binding_of_view(v: ReconnectCandidateBindingView) -> ReconnectCandidateBindingV1 {
    ReconnectCandidateBindingV1 {
        game_session_id: v.game_session_id,
        reconnect_attempt_ref: v.reconnect_attempt_ref,
        connection_generation: v.connection_generation,
        transport_ref: v.transport_ref,
        prepared_deadline: v.prepared_deadline,
    }
}

pub broadcast proof fn lemma_binding_of_view(v: ReconnectCandidateBindingView)
    ensures
        #[trigger] binding_of_view(v)@ == v,
{
}

/// Two bindings are equal exactly when their views are.
pub broadcast proof fn lemma_binding_view(a: ReconnectCandidateBindingV1, b: ReconnectCandidateBindingV1)
    ensures
        #[trigger] a@ == #[trigger] b@ <==> a == b,
{
}

/// Whether current facts still confirm everything the record bound, with the
/// candidate live, the session reconnectable and no controller present.
pub open spec fn current_matches_record(r: ReconnectDurabilityRecordView, c: ReconnectCurrentAuthorityView) -> bool {
    &&& evidence_observed_by(r, c.observed_at)
    &&& c.identity == r.identity
    &&& c.current_account_presence == Some(
        AccountPresenceClaimView { account_id: r.identity.account_id, character_id: r.identity.character_id },
    )
    &&& c.current_character_world_eligibility == Some(crate::admission::eligibility_claim_of(r.identity.character_id, r.identity.world_id))
    &&& (c.current_candidate matches Some(b) && b@ == expected_binding_view(r))
    &&& c.current_runtime_scope == r.identity.runtime_scope
    &&& c.predecessor == r.connection@.predecessor
    &&& c.authority == r.authority
    &&& c.continuity_epoch == r.continuity@.control_loss_epoch
    &&& c.original_grace_deadline == r.continuity@.original_grace_deadline
    &&& c.proof == r.proof
    &&& c.fnd02 == r.fnd02
    &&& c.protocol_major == r.compatibility.protocol_major
    &&& c.transport_profile == r.compatibility.transport_profile
    &&& c.ruleset_revision == r.compatibility.ruleset_revision
    &&& c.content_revision == r.compatibility.content_revision
    &&& c.map_revision == r.compatibility.map_revision
    &&& c.world_policy_revision == r.compatibility.world_policy_revision
    &&& c.account_security_generation == r.compatibility.account_security_generation
    &&& c.platform_security_evidence == r.compatibility.platform_security_evidence
    &&& c.proof_trust_evidence == r.compatibility.proof_trust_evidence
    &&& c.credential_expiration == r.compatibility.credential_expiration
    &&& 0 <= c.observed_at <= r.continuity@.prepared_deadline
    &&& c.session_state == crate::admission::GameSessionState::Reconnectable
    &&& !c.current_controller_present
}

/// The outcome of matching current facts against a record: a record whose
/// own identity or deadline is malformed cannot be matched at all.
pub open spec fn matches_record_result(r: ReconnectDurabilityRecordView, c: ReconnectCurrentAuthorityView) -> Result<bool, ReconnectDurabilityErrorV1> {
    if !(evidence_observed_by(r, c.observed_at) && c.identity == r.identity) {
        Ok(false)
    } else if !canonical_uuid_text(r.identity.account_id) {
        Err(ReconnectDurabilityErrorV1::InvalidRecord)
    } else if !(c.current_account_presence == Some(
        AccountPresenceClaimView { account_id: r.identity.account_id, character_id: r.identity.character_id },
    ) && c.current_character_world_eligibility == Some(
        crate::admission::eligibility_claim_of(r.identity.character_id, r.identity.world_id),
    )) {
        Ok(false)
    } else if r.continuity@.prepared_deadline <= 0 {
        Err(ReconnectDurabilityErrorV1::InvalidRecord)
    } else {
        Ok(current_matches_record(r, c))
    }
}

/// Matches current authority against everything a record bound.
pub fn current_authority_matches_record(record: &ReconnectDurabilityRecordV1, current: &ReconnectCurrentAuthorityV1) -> (r: Result<bool, ReconnectDurabilityErrorV1>)
    ensures
        r == matches_record_result(record@, current@),
{
    broadcast use lemma_authority_fence_view, crate::admission::lemma_eligibility_claim_view,
        lemma_binding_view, lemma_binding_of_view;

    let identity = record.identity();
    let compatibility = record.compatibility();
    if !(record.evidence_observed_by(current.observed_at) && current.identity.same(identity)) {
        return Ok(false);
    }
    let expected_presence = match AccountPresenceClaimV1::from_identity(identity) {
        Ok(p) => p,
        Err(e) => return Err(e),
    };
    let presence_matches = match &current.current_account_presence {
        Some(p) => p.same(&expected_presence),
        None => false,
    };
    let expected_eligibility = crate::admission::CharacterWorldEligibilityClaimV1::from_identity(identity);
    proof {
        crate::admission::lemma_eligibility_claim_of(identity@.character_id, identity@.world_id);
    }
    if !(presence_matches && current.current_character_world_eligibility == Some(expected_eligibility)) {
        return Ok(false);
    }
    let expected_binding = match ReconnectCandidateBindingV1::from_record(record) {
        Ok(b) => b,
        Err(e) => return Err(e),
    };
    let candidate_matches = match current.current_candidate {
        Some(b) => b.same(expected_binding) && b.is_live_at(current.observed_at),
        None => false,
    };
    let connection = record.connection();
    let continuity = record.continuity();
    Ok(candidate_matches && same_runtime_scope(current.current_runtime_scope, identity.runtime_scope())
        && current.predecessor == connection.predecessor() && current.authority == record.authority()
        && current.continuity_epoch == continuity.control_loss_epoch()
        && current.original_grace_deadline == continuity.original_grace_deadline()
        && current.proof.same(record.reconnect_proof()) && current.fnd02.same(record.fnd02())
        && current.protocol_major == compatibility.protocol_major() && current.transport_profile
        == compatibility.transport_profile() && crate::text::same_text(current.ruleset_revision.as_str(), compatibility.ruleset_revision())
        && crate::text::same_text(current.content_revision.as_str(), compatibility.content_revision())
        && crate::text::same_text(current.map_revision.as_str(), compatibility.map_revision())
        && crate::text::same_text(current.world_policy_revision.as_str(), compatibility.world_policy_revision())
        && current.account_security_generation == compatibility.account_security_generation()
        && current.platform_security_evidence.same(compatibility.platform_security_evidence())
        && current.proof_trust_evidence.same(compatibility.proof_trust_evidence())
        && current.credential_expiration == compatibility.credential_expiration()
        && current.session_state == crate::admission::GameSessionState::Reconnectable
        && !current.current_controller_present)
}


/// Authorization to replace a terminal GameSession by a new one, bound to the
/// exact predecessor authority it was derived from.
#[derive(Debug, Clone, PartialEq, Eq)]
pub struct TerminalGameSessionReplacementAuthorizationV1 {
    account_id: String,
    character_id: CharacterId,
    world_id: WorldId,
    predecessor_game_session_id: GameSessionId,
    predecessor_connection_generation: ConnectionGeneration,
    predecessor_character_lease_generation: u64,
    predecessor_current_scope_ownership_generation: ScopeOwnershipGeneration,
    predecessor_control_loss_epoch: ControlLossEpochRefV1,
    predecessor_original_grace_deadline: i64,
    candidate_game_session_id: GameSessionId,
    candidate_runtime_scope: RuntimeScopeRefV1,
}

pub struct TerminalReplacementView {
    pub account_id: Seq<char>,
    pub character_id: CharacterId,
    pub world_id: WorldId,
    pub predecessor_game_session_id: GameSessionId,
    pub predecessor_connection_generation: ConnectionGeneration,
    pub predecessor_character_lease_generation: u64,
    pub predecessor_current_scope_ownership_generation: ScopeOwnershipGeneration,
    pub predecessor_control_loss_epoch: ControlLossEpochRefV1,
    pub predecessor_original_grace_deadline: i64,
    pub candidate_game_session_id: GameSessionId,
    pub candidate_runtime_scope: RuntimeScopeRefV1,
}

impl View for TerminalGameSessionReplacementAuthorizationV1 {
    type V = TerminalReplacementView;

    closed spec fn view(&self) -> TerminalReplacementView {
        TerminalReplacementView {
            account_id: self.account_id@,
            character_id: self.character_id,
            world_id: self.world_id,
            predecessor_game_session_id: self.predecessor_game_session_id,
            predecessor_connection_generation: self.predecessor_connection_generation,
            predecessor_character_lease_generation: self.predecessor_character_lease_generation,
            predecessor_current_scope_ownership_generation: self.predecessor_current_scope_ownership_generation,
            predecessor_control_loss_epoch: self.predecessor_control_loss_epoch,
            predecessor_original_grace_deadline: self.predecessor_original_grace_deadline,
            candidate_game_session_id: self.candidate_game_session_id,
            candidate_runtime_scope: self.candidate_runtime_scope,
        }
    }
}

/// The optional presence claim, by value.
pub open spec fn presence_ref_view(p: Option<&AccountPresenceClaimV1>) -> Option<AccountPresenceClaimView> {
    match p {
        Some(p) => Some(p@),
        None => None,
    }
}

/// The terminal predecessor's current authority and the candidate record
/// together permit replacing the predecessor by the candidate session.
pub open spec fn replacement_permitted<T>(
    account_id: Seq<char>,
    presence: Option<AccountPresenceClaimView>,
    predecessor: GameSessionId,
    candidate_session: GameSessionId,
    s: crate::admission::GameSessionAuthoritySnapshotView<T>,
    candidate: ReconnectDurabilityRecordView,
) -> bool {
    let c = s.commit;
    &&& canonical_uuid_text(account_id)
    &&& presence matches Some(p) && p.account_id == account_id && p.character_id == c.character_id
        && p.character_id == candidate.identity.character_id
    &&& predecessor != candidate_session
    &&& s.session_state == crate::admission::GameSessionState::Terminal
    &&& s.current_transport is None
    &&& crate::admission::current_authority_error(predecessor, s) is None
    &&& s.current_control_loss_epoch is Some
    &&& s.current_original_grace_deadline is Some
    &&& candidate.identity.game_session_id == candidate_session
    &&& candidate.identity.account_id == account_id
    &&& candidate.identity.character_id == c.character_id
    &&& candidate.identity.world_id == c.world_id
    &&& candidate.identity.runtime_scope == s.current_runtime_scope
    &&& candidate.connection@.predecessor == s.current_connection_generation
    &&& s.current_character_lease@.character_id == c.character_id
    &&& candidate.authority@.character_lease_generation == s.current_character_lease@.generation
    &&& candidate.authority@.scope_ownership_generation == s.current_scope_generation
    &&& candidate.continuity@.control_loss_epoch == s.current_control_loss_epoch.unwrap()
    &&& candidate.continuity@.original_grace_deadline == s.current_original_grace_deadline.unwrap()
}

/// The authorization that replacing the terminal predecessor by the
/// candidate session is permitted with.
pub open spec fn replacement_authorization_of<T>(
    account_id: Seq<char>,
    predecessor: GameSessionId,
    candidate_session: GameSessionId,
    s: crate::admission::GameSessionAuthoritySnapshotView<T>,
    candidate: ReconnectDurabilityRecordView,
) -> TerminalReplacementView {
    TerminalReplacementView {
        account_id,
        character_id: s.commit.character_id,
        world_id: s.commit.world_id,
        predecessor_game_session_id: predecessor,
        predecessor_connection_generation: s.current_connection_generation,
        predecessor_character_lease_generation: s.current_character_lease@.generation,
        predecessor_current_scope_ownership_generation: s.current_scope_generation,
        predecessor_control_loss_epoch: s.current_control_loss_epoch.unwrap(),
        predecessor_original_grace_deadline: s.current_original_grace_deadline.unwrap(),
        candidate_game_session_id: candidate_session,
        candidate_runtime_scope: candidate.identity.runtime_scope,
    }
}

impl TerminalGameSessionReplacementAuthorizationV1 {
    pub fn from_current_authority<T: Copy + Eq>(
        account_id: &str,
        current_account_presence: Option<&AccountPresenceClaimV1>,
        predecessor_game_session_id: GameSessionId,
        candidate_game_session_id: GameSessionId,
        snapshot: crate::admission::GameSessionAuthoritySnapshot<T>,
        candidate: &ReconnectDurabilityRecordV1,
    ) -> (r: Result<Self, ReconnectDurabilityErrorV1>)
        ensures
            r is Ok <==> replacement_permitted(
                account_id@,
                presence_ref_view(current_account_presence),
                predecessor_game_session_id,
                candidate_game_session_id,
                snapshot@,
                candidate@,
            ),
            r matches Ok(a) ==> a@ == replacement_authorization_of(
                account_id@,
                predecessor_game_session_id,
                candidate_game_session_id,
                snapshot@,
                candidate@,
            ),
            r matches Err(e) ==> e == ReconnectDurabilityErrorV1::StaleAuthority,
    {
        let stale = ReconnectDurabilityErrorV1::StaleAuthority;
        let committed = snapshot.commit();
        let identity = candidate.identity();
        let presence_ok = match current_account_presence {
            Some(presence) => crate::text::same_text(presence.account_id(), account_id)
                && presence.character_id() == committed.character_id() && presence.character_id()
                == identity.character_id(),
            None => false,
        };
        if !canonical_uuid(account_id) || !presence_ok || predecessor_game_session_id == candidate_game_session_id
            || snapshot.session_state() != crate::admission::GameSessionState::Terminal
            || snapshot.current_transport().is_some() {
            return Err(stale);
        }
        if crate::admission::validate_current_authority(predecessor_game_session_id, snapshot).is_err() {
            return Err(stale);
        }
        let current_lease = snapshot.current_character_lease();
        let current_control_loss_epoch = match snapshot.current_control_loss_epoch() {
            Some(e) => e,
            None => return Err(stale),
        };
        let current_original_grace_deadline = match snapshot.current_original_grace_deadline() {
            Some(d) => d,
            None => return Err(stale),
        };
        let candidate_authority = candidate.authority();
        let candidate_continuity = candidate.continuity();
        if committed.game_session_id() != predecessor_game_session_id || identity.game_session_id()
            != candidate_game_session_id || !crate::text::same_text(identity.account_id(), account_id)
            || identity.character_id() != committed.character_id() || identity.world_id()
            != committed.world_id() || !same_runtime_scope(identity.runtime_scope(), snapshot.current_runtime_scope())
            || candidate.connection().predecessor() != snapshot.current_connection_generation()
            || current_lease.character_id() != committed.character_id()
            || candidate_authority.character_lease_generation() != current_lease.generation()
            || candidate_authority.scope_ownership_generation() != snapshot.current_scope_generation()
            || candidate_continuity.control_loss_epoch() != current_control_loss_epoch
            || candidate_continuity.original_grace_deadline() != current_original_grace_deadline {
            return Err(stale);
        }
        Ok(Self {
            account_id: account_id.to_owned(),
            character_id: committed.character_id(),
            world_id: committed.world_id(),
            predecessor_game_session_id,
            predecessor_connection_generation: snapshot.current_connection_generation(),
            predecessor_character_lease_generation: current_lease.generation(),
            predecessor_current_scope_ownership_generation: snapshot.current_scope_generation(),
            predecessor_control_loss_epoch: current_control_loss_epoch,
            predecessor_original_grace_deadline: current_original_grace_deadline,
            candidate_game_session_id,
            candidate_runtime_scope: identity.runtime_scope(),
        })
    }

    pub fn account_id(&self) -> (r: &str)
        ensures
            r@ == self@.account_id,
    {
        self.account_id.as_str()
    }

    pub fn character_id(&self) -> (r: CharacterId)
        ensures
            r == self@.character_id,
    {
        self.character_id
    }

    pub fn world_id(&self) -> (r: WorldId)
        ensures
            r == self@.world_id,
    {
        self.world_id
    }

    pub fn predecessor_game_session_id(&self) -> (r: GameSessionId)
        ensures
            r == self@.predecessor_game_session_id,
    {
        self.predecessor_game_session_id
    }

    pub fn predecessor_connection_generation(&self) -> (r: ConnectionGeneration)
        ensures
            r == self@.predecessor_connection_generation,
    {
        self.predecessor_connection_generation
    }

    pub fn predecessor_character_lease_generation(&self) -> (r: u64)
        ensures
            r == self@.predecessor_character_lease_generation,
    {
        self.predecessor_character_lease_generation
    }

    pub fn predecessor_current_scope_ownership_generation(&self) -> (r: ScopeOwnershipGeneration)
        ensures
            r == self@.predecessor_current_scope_ownership_generation,
    {
        self.predecessor_current_scope_ownership_generation
    }

    pub fn predecessor_control_loss_epoch(&self) -> (r: ControlLossEpochRefV1)
        ensures
            r == self@.predecessor_control_loss_epoch,
    {
        self.predecessor_control_loss_epoch
    }

    pub fn predecessor_original_grace_deadline(&self) -> (r: i64)
        ensures
            r == self@.predecessor_original_grace_deadline,
    {
        self.predecessor_original_grace_deadline
    }

    pub fn candidate_game_session_id(&self) -> (r: GameSessionId)
        ensures
            r == self@.candidate_game_session_id,
    {
        self.candidate_game_session_id
    }

    pub fn candidate_runtime_scope(&self) -> (r: RuntimeScopeRefV1)
        ensures
            r == self@.candidate_runtime_scope,
    {
        self.candidate_runtime_scope
    }

    /// An identical copy of this authorization.
    pub fn duplicate(&self) -> (r: Self)
        ensures
            r@ == self@,
    {
        Self {
            account_id: self.account_id.clone(),
            character_id: self.character_id,
            world_id: self.world_id,
            predecessor_game_session_id: self.predecessor_game_session_id,
            predecessor_connection_generation: self.predecessor_connection_generation,
            predecessor_character_lease_generation: self.predecessor_character_lease_generation,
            predecessor_current_scope_ownership_generation: self.predecessor_current_scope_ownership_generation,
            predecessor_control_loss_epoch: self.predecessor_control_loss_epoch,
            predecessor_original_grace_deadline: self.predecessor_original_grace_deadline,
            candidate_game_session_id: self.candidate_game_session_id,
            candidate_runtime_scope: self.candidate_runtime_scope,
        }
    }

    /// Whether two authorizations are the same.
    pub fn same(&self, other: &Self) -> (r: bool)
        ensures
            r == (self@ == other@),
    {
        broadcast use crate::admission::lemma_control_loss_epoch_view;

        self.account_id == other.account_id && self.character_id == other.character_id
            && self.world_id == other.world_id && self.predecessor_game_session_id
            == other.predecessor_game_session_id && self.predecessor_connection_generation
            == other.predecessor_connection_generation && self.predecessor_character_lease_generation
            == other.predecessor_character_lease_generation
            && self.predecessor_current_scope_ownership_generation
            == other.predecessor_current_scope_ownership_generation
            && self.predecessor_control_loss_epoch == other.predecessor_control_loss_epoch
            && self.predecessor_original_grace_deadline == other.predecessor_original_grace_deadline
            && self.candidate_game_session_id == other.candidate_game_session_id && same_runtime_scope(
            self.candidate_runtime_scope,
            other.candidate_runtime_scope,
        )
    }
}

} // verus!
