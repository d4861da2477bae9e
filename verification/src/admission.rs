//! Fresh admission, control loss and reconnect authority of one GameSession.
//!
//! The durable authority is a journal implemented outside this library; the
//! `AdmissionAuthority` keeps a process-local projection of it and never grants
//! control that the journal has not committed.
use vstd::prelude::*;
use vstd::laws_eq::obeys_concrete_eq;
use crate::journal::{answers_for, unanswered, JournalAnswer, JournalAnswers};
use crate::bytes::{all_zero, is_all_zero, u64_be_bytes, u64_from_be, u64_from_be_bytes, u64_to_be_bytes};
use crate::ids::{
    ChannelId, CharacterId, ConnectionFence, ConnectionGeneration, GameSessionId,
    ScopeOwnershipGeneration, ScopeRuntimeFence, WorldId,
};

verus! {

broadcast use crate::ids::group_id_views, crate::journal::group_journal_answers;

#[derive(Debug, Clone, Copy, PartialEq, Eq, Structural)]
pub enum AdmissionError {
    InvalidFacts,
    GrantReplayed,
    IncumbentHealthy,
    SessionNotReconnectable,
    StaleConnection,
    StaleLease,
    StaleRuntime,
    AttemptMismatch,
    ReconciliationUnavailable,
    GenerationExhausted,
    Terminal,
}

/// The human readable description of each error.
pub open spec fn admission_error_message(e: AdmissionError) -> Seq<char> {
    match e {
        AdmissionError::InvalidFacts => "fresh admission facts are invalid"@,
        AdmissionError::GrantReplayed => "fresh admission grant was already consumed"@,
        AdmissionError::IncumbentHealthy => "current transport binding is healthy"@,
        AdmissionError::SessionNotReconnectable => "game session is not reconnectable"@,
        AdmissionError::StaleConnection => "connection generation is stale"@,
        AdmissionError::StaleLease => "character lease generation is stale"@,
        AdmissionError::StaleRuntime => "runtime ownership generation is stale"@,
        AdmissionError::AttemptMismatch => "reconnect attempt does not match prepared candidate"@,
        AdmissionError::ReconciliationUnavailable => "authority outcome requires authoritative reconciliation"@,
        AdmissionError::GenerationExhausted => "connection generation space is exhausted"@,
        AdmissionError::Terminal => "game session is terminal"@,
    }
}

impl AdmissionError {
    /// The description used when the error is displayed.
    pub fn message(&self) -> (r: &'static str)
        ensures
            r@ == admission_error_message(*self),
    {
        match self {
            AdmissionError::InvalidFacts => "fresh admission facts are invalid",
            AdmissionError::GrantReplayed => "fresh admission grant was already consumed",
            AdmissionError::IncumbentHealthy => "current transport binding is healthy",
            AdmissionError::SessionNotReconnectable => "game session is not reconnectable",
            AdmissionError::StaleConnection => "connection generation is stale",
            AdmissionError::StaleLease => "character lease generation is stale",
            AdmissionError::StaleRuntime => "runtime ownership generation is stale",
            AdmissionError::AttemptMismatch => "reconnect attempt does not match prepared candidate",
            AdmissionError::ReconciliationUnavailable => "authority outcome requires authoritative reconciliation",
            AdmissionError::GenerationExhausted => "connection generation space is exhausted",
            AdmissionError::Terminal => "game session is terminal",
        }
    }
}

/// Opaque, non-zero idempotency key of one reconnect attempt.
#[derive(Debug, Clone, Copy, PartialEq, Eq, Structural, Hash)]
pub struct ReconnectAttemptRef(u64);

impl View for ReconnectAttemptRef {
    type V = u64;

    closed spec fn view(&self) -> u64 {
        self.0
    }
}

/// Two attempt keys are the same key exactly when their values agree.
pub broadcast proof fn lemma_attempt_ref_view(a: ReconnectAttemptRef, b: ReconnectAttemptRef)
    ensures
        #[trigger] a@ == #[trigger] b@ <==> a == b,
{
}

impl ReconnectAttemptRef {
    /// An attempt key is never zero.
    #[verifier::type_invariant]
    spec fn nonzero(self) -> bool {
        self.0 != 0
    }

    pub fn new(v: u64) -> (r: Result<Self, AdmissionError>)
        ensures
            r is Ok <==> v != 0,
            r matches Ok(a) ==> a@ == v,
            r matches Err(e) ==> e == AdmissionError::InvalidFacts,
    {
        if v == 0 {
            Err(AdmissionError::InvalidFacts)
        } else {
            Ok(Self(v))
        }
    }

    /// Stable durable encoding for exact journal keys. Byte order is an
    /// encoding detail only; it grants no ordering or recency semantics.
    pub fn to_be_bytes(self) -> (r: [u8; 8])
        ensures
            r@ == u64_be_bytes(self@),
            u64_from_be(r@) == self@,
            self@ != 0,
    {
        proof {
            use_type_invariant(self);
            crate::bytes::lemma_u64_be_roundtrip(self.0);
        }
        u64_to_be_bytes(self.0)
    }

    pub fn decode(input: &[u8]) -> (r: Result<Self, AdmissionError>)
        ensures
            r is Ok <==> (input@.len() == 8 && u64_from_be(input@) != 0),
            r matches Ok(a) ==> a@ == u64_from_be(input@),
            r matches Err(e) ==> e == AdmissionError::InvalidFacts,
    {
        if input.len() != 8 {
            return Err(AdmissionError::InvalidFacts);
        }
        Self::new(u64_from_be_bytes(input))
    }
}

pub const PRE_ADMISSION_TRUSTED_ISSUER: &'static str = "urn:oteryn:platform:game-admission";

pub const PRE_ADMISSION_PROFILE: &'static str = "oteryn-pre-admission-v1";

/// Leading tag byte of an encoded fresh-admission replay key.
pub const FRESH_ADMISSION_REPLAY_KEY_TAG: u8 = 1;

/// Stable durable replay identity for one accepted pre-admission grant.
///
/// This type is semantically namespaced by `PRE_ADMISSION_TRUSTED_ISSUER` and
/// `PRE_ADMISSION_PROFILE`; its byte encoding is exactly the canonical 32-byte
/// GrantNonce and grants no ordering semantics.
#[derive(Debug, Clone, Copy, PartialEq, Eq, PartialOrd, Ord, Hash)]
pub struct FreshAdmissionReplayKey([u8; 32]);

impl View for FreshAdmissionReplayKey {
    type V = Seq<u8>;

    closed spec fn view(&self) -> Seq<u8> {
        self.0@
    }
}

impl FreshAdmissionReplayKey {
    /// A replay key's nonce is never all zero.
    #[verifier::type_invariant]
    spec fn nonzero(self) -> bool {
        !all_zero(self.0@)
    }
}

/// Two replay keys are equal exactly when their nonces are.
pub broadcast proof fn lemma_replay_key_view(a: FreshAdmissionReplayKey, b: FreshAdmissionReplayKey)
    ensures
        #[trigger] a@ == #[trigger] b@ <==> a == b,
        a@.len() == 32,
{
    broadcast use vstd::array::group_array_axioms;

    if a@ == b@ {
        assert(forall|i: int| 0 <= i < 32 ==> a.0[i] == b.0[i]);
        assert(a.0 =~= b.0);
    }
}

/// The 33-byte durable encoding of a replay key: the tag byte, then the nonce.
pub open spec fn replay_key_encoding(nonce: Seq<u8>) -> Seq<u8> {
    seq![FRESH_ADMISSION_REPLAY_KEY_TAG] + nonce
}

impl FreshAdmissionReplayKey {
    pub fn to_bytes(self) -> (r: [u8; 33])
        ensures
            r@ == replay_key_encoding(self@),
            r@.subrange(1, 33) == self@,
            !all_zero(self@),
    {
        proof {
            use_type_invariant(self);
        }
        let mut encoded = [0u8; 33];
        encoded.set(0, FRESH_ADMISSION_REPLAY_KEY_TAG);
        let mut index: usize = 0;
        while index < 32
            invariant
                index <= 32,
                encoded@.len() == 33,
                encoded@[0] == FRESH_ADMISSION_REPLAY_KEY_TAG,
                forall|j: int| 0 <= j < index ==> encoded@[j + 1] == self.0@[j],
            decreases 32 - index,
        {
            encoded.set(index + 1, self.0[index]);
            index = index + 1;
        }
        assert(encoded@ =~= replay_key_encoding(self@));
        assert(encoded@.subrange(1, 33) =~= self@);
        encoded
    }

    pub fn decode(input: &[u8]) -> (r: Result<Self, AdmissionError>)
        ensures
            r is Ok <==> (input@.len() == 33 && input@[0] == FRESH_ADMISSION_REPLAY_KEY_TAG
                && !all_zero(input@.subrange(1, 33))),
            r matches Ok(k) ==> k@ == input@.subrange(1, 33),
            r matches Err(e) ==> e == AdmissionError::InvalidFacts,
    {
        if input.len() != 33 {
            return Err(AdmissionError::InvalidFacts);
        }
        if input[0] != FRESH_ADMISSION_REPLAY_KEY_TAG {
            return Err(AdmissionError::InvalidFacts);
        }
        let mut nonce = [0u8; 32];
        let mut index: usize = 0;
        while index < 32
            invariant
                index <= 32,
                input@.len() == 33,
                nonce@.len() == 32,
                forall|j: int| 0 <= j < index ==> nonce@[j] == input@[j + 1],
            decreases 32 - index,
        {
            nonce.set(index, input[index + 1]);
            index = index + 1;
        }
        assert(nonce@ =~= input@.subrange(1, 33));
        if is_all_zero(nonce.as_slice()) {
            return Err(AdmissionError::InvalidFacts);
        }
        Ok(Self(nonce))
    }

    pub fn trusted_issuer(self) -> (r: &'static str)
        ensures
            r@ == PRE_ADMISSION_TRUSTED_ISSUER@,
    {
        PRE_ADMISSION_TRUSTED_ISSUER
    }

    pub fn profile(self) -> (r: &'static str)
        ensures
            r@ == PRE_ADMISSION_PROFILE@,
    {
        PRE_ADMISSION_PROFILE
    }
}

/// The sixteen bytes of the fixture UUIDv7 whose low half is `v`.
pub open spec fn fixture_uuid_bytes(v: u64) -> Seq<u8> {
    let low = u64_be_bytes(v);
    seq![0u8, 0u8, 0u8, 0u8, 0u8, 0u8, 0x70u8, 0u8] + low.update(0, (low[0] & 0x3f) | 0x80)
}

/// The fixture UUIDv7 bytes with low half `v`.
fn fixture_uuid(v: u64) -> (r: [u8; 16])
    ensures
        r@ == fixture_uuid_bytes(v),
        crate::ids::is_uuid_v7(r@),
{
    let low = u64_to_be_bytes(v);
    let mut x = [0u8; 16];
    let mut index: usize = 0;
    while index < 8
        invariant
            index <= 8,
            x@.len() == 16,
            forall|j: int| 0 <= j < 8 ==> x@[j] == 0,
            forall|j: int| 0 <= j < index ==> x@[8 + j] == low@[j],
        decreases 8 - index,
    {
        x.set(8 + index, low[index]);
        index = index + 1;
    }
    x.set(6, (x[6] & 0x0f) | 0x70);
    x.set(8, (x[8] & 0x3f) | 0x80);
    let b6 = x[6];
    let b8 = x[8];
    let l0 = low[0];
    assert(b6 == (0u8 & 0x0f) | 0x70);
    assert((0u8 & 0x0f) | 0x70 == 0x70u8) by (bit_vector);
    assert(b8 == (l0 & 0x3f) | 0x80);
    assert(((l0 & 0x3f) | 0x80) / 64 == 2) by (bit_vector);
    assert(x@ =~= fixture_uuid_bytes(v));
    x
}

/// The facts of one accepted pre-admission grant.
///
/// A production authority adapter can derive a stable, typed durable replay
/// key without accessing private grant fields.
#[derive(Debug, Clone, Copy, PartialEq, Eq)]
pub struct FreshAdmissionFacts {
    grant_nonce: [u8; 32],
    character_id: CharacterId,
    world_id: WorldId,
    channel_id: ChannelId,
    character_lease_generation: u64,
    scope_ownership_generation: u64,
}

pub struct FreshAdmissionFactsView {
    pub grant_nonce: Seq<u8>,
    pub character_id: CharacterId,
    pub world_id: WorldId,
    pub channel_id: ChannelId,
    pub character_lease_generation: u64,
    pub scope_ownership_generation: u64,
}

impl View for FreshAdmissionFacts {
    type V = FreshAdmissionFactsView;

    closed spec fn view(&self) -> FreshAdmissionFactsView {
        FreshAdmissionFactsView {
            grant_nonce: self.grant_nonce@,
            character_id: self.character_id,
            world_id: self.world_id,
            channel_id: self.channel_id,
            character_lease_generation: self.character_lease_generation,
            scope_ownership_generation: self.scope_ownership_generation,
        }
    }
}

/// The nonce a test fixture derives from a `u64`: 24 zero bytes, then the
/// big-endian bytes of the value.
pub open spec fn fixture_nonce_bytes(nonce: u64) -> Seq<u8> {
    Seq::new(24, |i: int| 0u8) + u64_be_bytes(nonce)
}

impl FreshAdmissionFacts {
    /// Facts always carry a grant nonce that is not all zero.
    #[verifier::type_invariant]
    spec fn nonzero_nonce(self) -> bool {
        !all_zero(self.grant_nonce@)
    }

    pub fn new(
        grant_nonce: [u8; 32],
        character_id: CharacterId,
        world_id: WorldId,
        channel_id: ChannelId,
        lease: u64,
        scope: u64,
    ) -> (r: Result<Self, AdmissionError>)
        ensures
            r is Ok <==> (!all_zero(grant_nonce@) && lease != 0 && scope != 0),
            r matches Ok(f) ==> f@ == (FreshAdmissionFactsView {
                grant_nonce: grant_nonce@,
                character_id,
                world_id,
                channel_id,
                character_lease_generation: lease,
                scope_ownership_generation: scope,
            }),
            r matches Err(e) ==> e == AdmissionError::InvalidFacts,
    {
        if is_all_zero(grant_nonce.as_slice()) || lease == 0 || scope == 0 {
            return Err(AdmissionError::InvalidFacts);
        }
        Ok(Self {
            grant_nonce,
            character_id,
            world_id,
            channel_id,
            character_lease_generation: lease,
            scope_ownership_generation: scope,
        })
    }

    pub fn replay_key(&self) -> (r: FreshAdmissionReplayKey)
        ensures
            r@ == self@.grant_nonce,
    {
        proof {
            use_type_invariant(self);
        }
        FreshAdmissionReplayKey(self.grant_nonce)
    }

    /// Facts for a fixture grant: the nonce is derived from `nonce` and the
    /// character, world and channel are the fixture UUIDv7s of 1, 2 and 3.
    pub fn for_test(nonce: u64, lease: u64, scope: u64) -> (r: Result<Self, AdmissionError>)
        ensures
            r is Ok <==> (nonce != 0 && lease != 0 && scope != 0),
            r matches Ok(f) ==> {
                &&& f@.grant_nonce == fixture_nonce_bytes(nonce)
                &&& f@.character_id@ == crate::ids::u128_from_be(fixture_uuid_bytes(1))
                &&& f@.world_id@ == crate::ids::u128_from_be(fixture_uuid_bytes(2))
                &&& f@.channel_id@ == crate::ids::u128_from_be(fixture_uuid_bytes(3))
                &&& f@.character_lease_generation == lease
                &&& f@.scope_ownership_generation == scope
            },
            r matches Err(e) ==> e == AdmissionError::InvalidFacts,
    {
        let low = u64_to_be_bytes(nonce);
        let mut grant_nonce = [0u8; 32];
        let mut index: usize = 0;
        while index < 8
            invariant
                index <= 8,
                grant_nonce@.len() == 32,
                forall|j: int| 0 <= j < 24 ==> grant_nonce@[j] == 0,
                forall|j: int| 0 <= j < index ==> grant_nonce@[24 + j] == low@[j],
            decreases 8 - index,
        {
            grant_nonce.set(24 + index, low[index]);
            index = index + 1;
        }
        assert(grant_nonce@ =~= fixture_nonce_bytes(nonce));
        proof {
            crate::bytes::lemma_u64_be_bytes_zero(nonce);
            let n = fixture_nonce_bytes(nonce);
            if all_zero(n) {
                assert forall|i: int| 0 <= i < 8 implies u64_be_bytes(nonce)[i] == 0 by {
                    assert(n[24 + i] == 0);
                }
            }
        }
        let character_id = match CharacterId::decode(fixture_uuid(1).as_slice()) {
            Ok(id) => id,
            Err(_) => return Err(AdmissionError::InvalidFacts),
        };
        let world_id = match WorldId::decode(fixture_uuid(2).as_slice()) {
            Ok(id) => id,
            Err(_) => return Err(AdmissionError::InvalidFacts),
        };
        let channel_id = match ChannelId::decode(fixture_uuid(3).as_slice()) {
            Ok(id) => id,
            Err(_) => return Err(AdmissionError::InvalidFacts),
        };
        Self::new(grant_nonce, character_id, world_id, channel_id, lease, scope)
    }
}

/// Receipt for the game-domain atomic fresh-admission authority commit.
///
/// The trusted commit seam must persist enough information to return this exact
/// receipt again after a lost response or process recovery. Local runtime state
/// is only a projection of this committed authority and may be reconstructed.
#[derive(Debug, Clone, Copy, PartialEq, Eq)]
pub struct FreshAdmissionCommit<T: Copy + Eq> {
    game_session_id: GameSessionId,
    character_id: CharacterId,
    world_id: WorldId,
    channel_id: ChannelId,
    character_lease_generation: u64,
    scope_ownership_generation: u64,
    connection_generation: ConnectionGeneration,
    initial_transport: T,
}

pub struct FreshAdmissionCommitView<T> {
    pub game_session_id: GameSessionId,
    pub character_id: CharacterId,
    pub world_id: WorldId,
    pub channel_id: ChannelId,
    pub character_lease_generation: u64,
    pub scope_ownership_generation: u64,
    pub connection_generation: ConnectionGeneration,
    pub initial_transport: T,
}

impl<T: Copy + Eq> View for FreshAdmissionCommit<T> {
    type V = FreshAdmissionCommitView<T>;

    closed spec fn view(&self) -> FreshAdmissionCommitView<T> {
        FreshAdmissionCommitView {
            game_session_id: self.game_session_id,
            character_id: self.character_id,
            world_id: self.world_id,
            channel_id: self.channel_id,
            character_lease_generation: self.character_lease_generation,
            scope_ownership_generation: self.scope_ownership_generation,
            connection_generation: self.connection_generation,
            initial_transport: self.initial_transport,
        }
    }
}

/// Two commit receipts are equal exactly when their views are.
pub broadcast proof fn lemma_fresh_commit_view<T: Copy + Eq>(a: FreshAdmissionCommit<T>, b: FreshAdmissionCommit<T>)
    ensures
        #[trigger] a@ == #[trigger] b@ <==> a == b,
{
}

/// `commit` is the receipt of exactly these admission facts at generation one.
pub open spec fn commit_matches_facts<T>(commit: FreshAdmissionCommitView<T>, facts: FreshAdmissionFactsView) -> bool {
    &&& commit.character_id == facts.character_id
    &&& commit.world_id == facts.world_id
    &&& commit.channel_id == facts.channel_id
    &&& commit.character_lease_generation == facts.character_lease_generation
    &&& commit.scope_ownership_generation == facts.scope_ownership_generation
    &&& commit.connection_generation@ == 1
}

impl<T: Copy + Eq> FreshAdmissionCommit<T> {
    pub fn from_facts(game_session_id: GameSessionId, facts: FreshAdmissionFacts, initial_transport: T) -> (r: Result<Self, AdmissionError>)
        ensures
            r is Ok <==> facts@.scope_ownership_generation != 0,
            r matches Ok(c) ==> c@ == (FreshAdmissionCommitView {
                game_session_id,
                character_id: facts@.character_id,
                world_id: facts@.world_id,
                channel_id: facts@.channel_id,
                character_lease_generation: facts@.character_lease_generation,
                scope_ownership_generation: facts@.scope_ownership_generation,
                connection_generation: c@.connection_generation,
                initial_transport,
            }) && c@.connection_generation@ == 1,
            r matches Err(e) ==> e == AdmissionError::InvalidFacts,
    {
        let connection_generation = ConnectionFence::fresh_admission().current();
        if ScopeOwnershipGeneration::new(facts.scope_ownership_generation).is_err() {
            return Err(AdmissionError::InvalidFacts);
        }
        Ok(Self {
            game_session_id,
            character_id: facts.character_id,
            world_id: facts.world_id,
            channel_id: facts.channel_id,
            character_lease_generation: facts.character_lease_generation,
            scope_ownership_generation: facts.scope_ownership_generation,
            connection_generation,
            initial_transport,
        })
    }

    pub fn game_session_id(self) -> (r: GameSessionId)
        ensures
            r == self@.game_session_id,
    {
        self.game_session_id
    }

    pub fn connection_generation(self) -> (r: ConnectionGeneration)
        ensures
            r == self@.connection_generation,
    {
        self.connection_generation
    }

    pub fn character_id(self) -> (r: CharacterId)
        ensures
            r == self@.character_id,
    {
        self.character_id
    }

    pub fn world_id(self) -> (r: WorldId)
        ensures
            r == self@.world_id,
    {
        self.world_id
    }

    pub fn channel_id(self) -> (r: ChannelId)
        ensures
            r == self@.channel_id,
    {
        self.channel_id
    }

    pub fn character_lease_generation(self) -> (r: u64)
        ensures
            r == self@.character_lease_generation,
    {
        self.character_lease_generation
    }

    pub fn scope_ownership_generation(self) -> (r: u64)
        ensures
            r == self@.scope_ownership_generation,
    {
        self.scope_ownership_generation
    }

    pub fn initial_transport(self) -> (r: T)
        ensures
            r == self@.initial_transport,
    {
        self.initial_transport
    }

    fn matches_facts(self, facts: FreshAdmissionFacts) -> (r: bool)
        ensures
            r == commit_matches_facts(self@, facts@),
    {
        self.character_id == facts.character_id && self.world_id == facts.world_id
            && self.channel_id == facts.channel_id && self.character_lease_generation
            == facts.character_lease_generation && self.scope_ownership_generation
            == facts.scope_ownership_generation && self.connection_generation.get()
            == ConnectionFence::fresh_admission().current().get()
    }
}

#[derive(Debug, Clone, Copy, PartialEq, Eq, Structural)]
pub enum ControlLossDisposition {
    Applied,
    StaleIgnored,
}

#[derive(Debug, Clone, Copy, PartialEq, Eq, Structural)]
pub enum GameSessionState {
    Active,
    Reconnectable,
    Terminal,
}

/// Current durable authority result for a consumed fresh-admission grant.
///
/// The trusted fresh-admission seam must return the immutable committed binding
/// together with the current authoritative GameSession lifecycle state from the
/// same fenced authority. `Reconnectable` and `Terminal` sessions cannot be
/// promoted back to `Active` by replaying the original fresh-entry grant.
#[derive(Debug, Clone, Copy, PartialEq, Eq)]
pub struct FreshAdmissionAuthoritySnapshot<T: Copy + Eq> {
    commit: FreshAdmissionCommit<T>,
    session_state: GameSessionState,
    current_connection_generation: ConnectionGeneration,
    current_transport: Option<T>,
}

pub struct FreshAdmissionAuthoritySnapshotView<T> {
    pub commit: FreshAdmissionCommitView<T>,
    pub session_state: GameSessionState,
    pub current_connection_generation: ConnectionGeneration,
    pub current_transport: Option<T>,
}

impl<T: Copy + Eq> View for FreshAdmissionAuthoritySnapshot<T> {
    type V = FreshAdmissionAuthoritySnapshotView<T>;

    closed spec fn view(&self) -> FreshAdmissionAuthoritySnapshotView<T> {
        FreshAdmissionAuthoritySnapshotView {
            commit: self.commit@,
            session_state: self.session_state,
            current_connection_generation: self.current_connection_generation,
            current_transport: self.current_transport,
        }
    }
}

impl<T: Copy + Eq> FreshAdmissionAuthoritySnapshot<T> {
    pub fn new(
        commit: FreshAdmissionCommit<T>,
        session_state: GameSessionState,
        current_connection_generation: ConnectionGeneration,
        current_transport: Option<T>,
    ) -> (r: Self)
        ensures
            r@ == (FreshAdmissionAuthoritySnapshotView {
                commit: commit@,
                session_state,
                current_connection_generation,
                current_transport,
            }),
    {
        Self { commit, session_state, current_connection_generation, current_transport }
    }

    /// The snapshot of a commit that is still active on its initial transport.
    pub fn active(commit: FreshAdmissionCommit<T>) -> (r: Self)
        ensures
            r@ == (FreshAdmissionAuthoritySnapshotView {
                commit: commit@,
                session_state: GameSessionState::Active,
                current_connection_generation: commit@.connection_generation,
                current_transport: Some(commit@.initial_transport),
            }),
    {
        Self::new(
            commit,
            GameSessionState::Active,
            commit.connection_generation(),
            Some(commit.initial_transport()),
        )
    }

    pub fn commit(self) -> (r: FreshAdmissionCommit<T>)
        ensures
            r@ == self@.commit,
    {
        self.commit
    }

    pub fn session_state(self) -> (r: GameSessionState)
        ensures
            r == self@.session_state,
    {
        self.session_state
    }

    pub fn current_connection_generation(self) -> (r: ConnectionGeneration)
        ensures
            r == self@.current_connection_generation,
    {
        self.current_connection_generation
    }

    pub fn current_transport(self) -> (r: Option<T>)
        ensures
            r == self@.current_transport,
    {
        self.current_transport
    }
}

#[derive(Debug, Clone, Copy, PartialEq, Eq, Structural)]
pub struct CharacterLease {
    character_id: CharacterId,
    generation: u64,
}

pub struct CharacterLeaseView {
    pub character_id: CharacterId,
    pub generation: u64,
}

impl View for CharacterLease {
    type V = CharacterLeaseView;

    closed spec fn view(&self) -> CharacterLeaseView {
        CharacterLeaseView { character_id: self.character_id, generation: self.generation }
    }
}

/// Two leases are equal exactly when their views are.
pub broadcast proof fn lemma_character_lease_view(a: CharacterLease, b: CharacterLease)
    ensures
        #[trigger] a@ == #[trigger] b@ <==> a == b,
{
}

impl CharacterLease {
    pub fn new(character_id: CharacterId, generation: u64) -> (r: Result<Self, AdmissionError>)
        ensures
            r is Ok <==> generation != 0,
            r matches Ok(l) ==> l@ == (CharacterLeaseView { character_id, generation }),
            r matches Err(e) ==> e == AdmissionError::InvalidFacts,
    {
        if generation == 0 {
            return Err(AdmissionError::InvalidFacts);
        }
        Ok(Self { character_id, generation })
    }

    pub fn character_id(self) -> (r: CharacterId)
        ensures
            r == self@.character_id,
    {
        self.character_id
    }

    pub fn generation(self) -> (r: u64)
        ensures
            r == self@.generation,
    {
        self.generation
    }

    pub fn accepts_generation(self, generation: u64) -> (r: bool)
        ensures
            r == (generation == self@.generation),
    {
        generation == self.generation
    }
}

/// The process projection of the current GameSession.
#[derive(Debug, PartialEq, Eq)]
pub struct GameSession {
    game_session_id: GameSessionId,
    character_id: CharacterId,
    world_id: WorldId,
    channel_id: ChannelId,
    lease_generation: u64,
    runtime_scope: ScopeRuntimeFence,
    connection: ConnectionFence,
    state: GameSessionState,
}

pub struct GameSessionView {
    pub game_session_id: GameSessionId,
    pub character_id: CharacterId,
    pub world_id: WorldId,
    pub channel_id: ChannelId,
    pub lease_generation: u64,
    pub runtime_scope: crate::ids::ScopeRuntimeFenceView,
    pub connection_generation: ConnectionGeneration,
    pub state: GameSessionState,
}

impl View for GameSession {
    type V = GameSessionView;

    closed spec fn view(&self) -> GameSessionView {
        GameSessionView {
            game_session_id: self.game_session_id,
            character_id: self.character_id,
            world_id: self.world_id,
            channel_id: self.channel_id,
            lease_generation: self.lease_generation,
            runtime_scope: self.runtime_scope@,
            connection_generation: self.connection@,
            state: self.state,
        }
    }
}

impl GameSession {
    pub fn game_session_id(&self) -> (r: GameSessionId)
        ensures
            r == self@.game_session_id,
    {
        self.game_session_id
    }

    pub fn connection_generation(&self) -> (r: ConnectionGeneration)
        ensures
            r == self@.connection_generation,
    {
        self.connection.current()
    }

    pub fn state(&self) -> (r: GameSessionState)
        ensures
            r == self@.state,
    {
        self.state
    }

    /// Only the exact current connection generation is accepted.
    pub fn accepts_generation(&self, g: ConnectionGeneration) -> (r: bool)
        ensures
            r == (g == self@.connection_generation),
    {
        self.connection.accepts(g)
    }

    pub fn character_id(&self) -> (r: CharacterId)
        ensures
            r == self@.character_id,
    {
        self.character_id
    }

    pub fn character_lease(&self) -> (r: CharacterLease)
        ensures
            r@ == (CharacterLeaseView {
                character_id: self@.character_id,
                generation: self@.lease_generation,
            }),
    {
        CharacterLease { character_id: self.character_id, generation: self.lease_generation }
    }

    pub fn world_id(&self) -> (r: WorldId)
        ensures
            r == self@.world_id,
    {
        self.world_id
    }

    pub fn channel_id(&self) -> (r: ChannelId)
        ensures
            r == self@.channel_id,
    {
        self.channel_id
    }

    pub fn runtime_scope_generation(&self) -> (r: ScopeOwnershipGeneration)
        ensures
            r == self@.runtime_scope.generation,
    {
        self.runtime_scope.generation()
    }

    /// The process-local RuntimeScope fence of this session.
    pub fn runtime_scope(&self) -> (r: &ScopeRuntimeFence)
        ensures
            r@ == self@.runtime_scope,
    {
        &self.runtime_scope
    }
}

#[derive(Debug, Clone, Copy, PartialEq, Eq)]
struct PreparedReconnect<T: Copy + Eq> {
    attempt: ReconnectAttemptRef,
    predecessor: ConnectionGeneration,
    candidate: ConnectionGeneration,
    candidate_transport: T,
    lease_generation: u64,
    scope_generation: u64,
}

/// The reconnect candidate this process has durably PREPARED.
pub struct PreparedReconnectView<T> {
    pub attempt: ReconnectAttemptRef,
    pub predecessor: ConnectionGeneration,
    pub candidate: ConnectionGeneration,
    pub candidate_transport: T,
    pub lease_generation: u64,
    pub scope_generation: u64,
}

impl<T: Copy + Eq> PreparedReconnect<T> {
    spec fn spec_view(self) -> PreparedReconnectView<T> {
        PreparedReconnectView {
            attempt: self.attempt,
            predecessor: self.predecessor,
            candidate: self.candidate,
            candidate_transport: self.candidate_transport,
            lease_generation: self.lease_generation,
            scope_generation: self.scope_generation,
        }
    }
}

#[derive(Debug, Clone, Copy, PartialEq, Eq)]
pub struct ReconnectCommitBinding<T: Copy + Eq> {
    predecessor_generation: ConnectionGeneration,
    candidate_generation: ConnectionGeneration,
    candidate_transport: T,
    character_lease: CharacterLease,
    scope_generation: ScopeOwnershipGeneration,
}

pub struct ReconnectCommitBindingView<T> {
    pub predecessor_generation: ConnectionGeneration,
    pub candidate_generation: ConnectionGeneration,
    pub candidate_transport: T,
    pub character_lease: CharacterLease,
    pub scope_generation: ScopeOwnershipGeneration,
}

impl<T: Copy + Eq> View for ReconnectCommitBinding<T> {
    type V = ReconnectCommitBindingView<T>;

    closed spec fn view(&self) -> ReconnectCommitBindingView<T> {
        ReconnectCommitBindingView {
            predecessor_generation: self.predecessor_generation,
            candidate_generation: self.candidate_generation,
            candidate_transport: self.candidate_transport,
            character_lease: self.character_lease,
            scope_generation: self.scope_generation,
        }
    }
}

/// Two bindings are equal exactly when their views are.
pub broadcast proof fn lemma_commit_binding_view<T: Copy + Eq>(a: ReconnectCommitBinding<T>, b: ReconnectCommitBinding<T>)
    ensures
        #[trigger] a@ == #[trigger] b@ <==> a == b,
{
}

impl<T: Copy + Eq> ReconnectCommitBinding<T> {
    pub fn new(
        predecessor_generation: ConnectionGeneration,
        candidate_generation: ConnectionGeneration,
        candidate_transport: T,
        character_lease: CharacterLease,
        scope_generation: ScopeOwnershipGeneration,
    ) -> (r: Self)
        ensures
            r@ == (ReconnectCommitBindingView {
                predecessor_generation,
                candidate_generation,
                candidate_transport,
                character_lease,
                scope_generation,
            }),
    {
        Self {
            predecessor_generation,
            candidate_generation,
            candidate_transport,
            character_lease,
            scope_generation,
        }
    }

    pub fn predecessor_generation(self) -> (r: ConnectionGeneration)
        ensures
            r == self@.predecessor_generation,
    {
        self.predecessor_generation
    }

    pub fn candidate_generation(self) -> (r: ConnectionGeneration)
        ensures
            r == self@.candidate_generation,
    {
        self.candidate_generation
    }

    pub fn candidate_transport(self) -> (r: T)
        ensures
            r == self@.candidate_transport,
    {
        self.candidate_transport
    }

    pub fn character_lease(self) -> (r: CharacterLease)
        ensures
            r == self@.character_lease,
    {
        self.character_lease
    }

    pub fn scope_generation(self) -> (r: ScopeOwnershipGeneration)
        ensures
            r == self@.scope_generation,
    {
        self.scope_generation
    }
}

#[derive(Debug, Clone, Copy, PartialEq, Eq, Structural)]
pub enum ReconnectAttemptDisposition {
    Prepared { candidate_generation: ConnectionGeneration },
    Committed { generation: ConnectionGeneration },
    TerminallySuperseded,
}

#[derive(Debug, Clone, Copy, PartialEq, Eq, Structural)]
pub enum ReconnectAttemptClaim {
    Claimed,
    Existing(ReconnectAttemptDisposition),
    RejectedConcurrent,
}

/// Trusted reconciliation seam for reconnect idempotency.
///
/// `ReconnectAttemptRef` is an opaque equality key. Implementations MUST NOT
/// infer recency, authority or supersession from its numeric value. Durable
/// retention/lifecycle policy belongs to the owning game-domain authority.
///
/// The authority verified here makes no assumption about what an implementation
/// returns: every outcome of every call is handled.
pub trait ReconnectAttemptJournal<T: Copy + Eq> {
    /// Atomically consumes/reconciles one fresh-admission grant, issues a
    /// never-reused GameSessionId on first success, and publishes the complete
    /// initial session + exact transport binding. Lost-response recovery returns
    /// the same immutable commit together with current authoritative lifecycle,
    /// connection generation and controller transport.
    fn commit_fresh<F>(
        &self,
        facts: FreshAdmissionFacts,
        authenticated_transport: T,
        issue_game_session_id: F,
    ) -> Result<FreshAdmissionAuthoritySnapshot<T>, AdmissionError> where
        F: FnOnce() -> Result<GameSessionId, AdmissionError>,
    ;

    /// Atomically publishes unexpected control loss only for the exact current
    /// authenticated transport and generation.
    fn mark_control_loss(
        &self,
        game_session_id: GameSessionId,
        observed_transport: T,
        observed_generation: ConnectionGeneration,
    ) -> Result<ControlLossDisposition, AdmissionError>;

    /// Atomically makes the current GameSession terminal at the exact expected
    /// generation and permanently supersedes any PREPARED reconnect candidate.
    fn terminate_session(
        &self,
        game_session_id: GameSessionId,
        expected_generation: ConnectionGeneration,
    ) -> Result<(), AdmissionError>;

    /// Applies/reconciles a monotonic RuntimeScope ownership observation and
    /// returns the current authoritative generation.
    fn advance_runtime_scope(
        &self,
        game_session_id: GameSessionId,
        expected_current: ScopeOwnershipGeneration,
        observed: ScopeOwnershipGeneration,
    ) -> Result<ScopeOwnershipGeneration, AdmissionError>;

    fn lookup(
        &self,
        game_session_id: GameSessionId,
        attempt: ReconnectAttemptRef,
    ) -> Result<Option<ReconnectAttemptDisposition>, AdmissionError>;

    /// Atomically claims an unseen operation as PREPARED, or returns its
    /// already-authoritative disposition without changing it.
    fn claim_prepared(
        &self,
        game_session_id: GameSessionId,
        attempt: ReconnectAttemptRef,
        binding: ReconnectCommitBinding<T>,
    ) -> Result<ReconnectAttemptClaim, AdmissionError>;

    /// Atomically gives an unseen losing operation a permanent terminal
    /// disposition, or returns the disposition already recorded for that key.
    fn retire_if_unseen(
        &self,
        game_session_id: GameSessionId,
        attempt: ReconnectAttemptRef,
    ) -> Result<ReconnectAttemptDisposition, AdmissionError>;

    /// Atomically changes the exact PREPARED operation to COMMITTED only when
    /// the complete authoritative reconnect binding is still current.
    fn commit_prepared(
        &self,
        game_session_id: GameSessionId,
        attempt: ReconnectAttemptRef,
        binding: ReconnectCommitBinding<T>,
    ) -> Result<(), AdmissionError>;

    /// Atomically makes the exact PREPARED operation terminal after a newer
    /// authority/lifecycle fact supersedes its candidate.
    fn retire_prepared(
        &self,
        game_session_id: GameSessionId,
        attempt: ReconnectAttemptRef,
        candidate_generation: ConnectionGeneration,
    ) -> Result<(), AdmissionError>;
}

#[derive(Debug, Clone, Copy, PartialEq, Eq, Structural)]
pub enum ReconnectDurabilityErrorV1 {
    InvalidRecord,
    IdempotencyConflict,
    AttemptCapacityExceeded,
    ConcurrentPrepared,
    CompletionMismatch,
    InvalidPhase,
    StaleAuthority,
    DeadlineExpired,
    ReconciliationMismatch,
}

/// Owner-issued, non-zero identity of one control-loss epoch.
#[derive(Debug, Clone, Copy, PartialEq, Eq, Structural, Hash)]
pub struct ControlLossEpochRefV1(u64);

impl View for ControlLossEpochRefV1 {
    type V = u64;

    closed spec fn view(&self) -> u64 {
        self.0
    }
}

/// Two epochs are equal exactly when their values are.
pub broadcast proof fn lemma_control_loss_epoch_view(a: ControlLossEpochRefV1, b: ControlLossEpochRefV1)
    ensures
        #[trigger] a@ == #[trigger] b@ <==> a == b,
{
}

impl ControlLossEpochRefV1 {
    pub fn new(value: u64) -> (r: Result<Self, ReconnectDurabilityErrorV1>)
        ensures
            r is Ok <==> value != 0,
            r matches Ok(e) ==> e@ == value,
            r matches Err(e) ==> e == ReconnectDurabilityErrorV1::InvalidRecord,
    {
        if value == 0 {
            return Err(ReconnectDurabilityErrorV1::InvalidRecord);
        }
        Ok(Self(value))
    }

    pub fn get(self) -> (r: u64)
        ensures
            r == self@,
    {
        self.0
    }
}

#[derive(Debug, Clone, Copy, PartialEq, Eq)]
pub enum RuntimeScopeRefV1 {
    Channel { world_id: WorldId, channel_id: ChannelId },
    Instance { world_id: WorldId, instance_id: [u8; 16] },
}

impl RuntimeScopeRefV1 {
    pub fn channel(world_id: WorldId, channel_id: ChannelId) -> (r: Self)
        ensures
            r == (RuntimeScopeRefV1::Channel { world_id, channel_id }),
    {
        Self::Channel { world_id, channel_id }
    }

    /// An instance scope; its identifier must be a canonical UUIDv7.
    pub fn instance(world_id: WorldId, instance_id: [u8; 16]) -> (r: Result<Self, ReconnectDurabilityErrorV1>)
        ensures
            r is Ok <==> (!all_zero(instance_id@) && crate::ids::is_uuid_v7(instance_id@)),
            r matches Ok(scope) ==> scope == (RuntimeScopeRefV1::Instance { world_id, instance_id }),
            r matches Err(e) ==> e == ReconnectDurabilityErrorV1::InvalidRecord,
    {
        if is_all_zero(instance_id.as_slice()) || instance_id[6] / 16 != 7 || instance_id[8] / 64 != 2 {
            return Err(ReconnectDurabilityErrorV1::InvalidRecord);
        }
        Ok(Self::Instance { world_id, instance_id })
    }

    pub open spec fn spec_world_id(self) -> WorldId {
        match self {
            RuntimeScopeRefV1::Channel { world_id, .. } => world_id,
            RuntimeScopeRefV1::Instance { world_id, .. } => world_id,
        }
    }

    pub fn world_id(self) -> (r: WorldId)
        ensures
            r == self.spec_world_id(),
    {
        match self {
            Self::Channel { world_id, .. } => world_id,
            Self::Instance { world_id, .. } => world_id,
        }
    }
}

/// Whether two runtime scopes are the same scope.
pub fn same_runtime_scope(a: RuntimeScopeRefV1, b: RuntimeScopeRefV1) -> (r: bool)
    ensures
        r == (a == b),
{
    match (a, b) {
        (
            RuntimeScopeRefV1::Channel { world_id: aw, channel_id: ac },
            RuntimeScopeRefV1::Channel { world_id: bw, channel_id: bc },
        ) => aw == bw && ac == bc,
        (
            RuntimeScopeRefV1::Instance { world_id: aw, instance_id: ai },
            RuntimeScopeRefV1::Instance { world_id: bw, instance_id: bi },
        ) => aw == bw && crate::bytes::same_bytes16(&ai, &bi),
        _ => false,
    }
}

#[derive(Debug, Clone, Copy, PartialEq, Eq, Structural)]
pub struct CharacterWorldEligibilityClaimV1 {
    character_id: CharacterId,
    world_id: WorldId,
}

pub struct CharacterWorldEligibilityClaimView {
    pub character_id: CharacterId,
    pub world_id: WorldId,
}

impl View for CharacterWorldEligibilityClaimV1 {
    type V = CharacterWorldEligibilityClaimView;

    closed spec fn view(&self) -> CharacterWorldEligibilityClaimView {
        CharacterWorldEligibilityClaimView { character_id: self.character_id, world_id: self.world_id }
    }
}

/// Two claims are equal exactly when their views are.
pub broadcast proof fn lemma_eligibility_claim_view(a: CharacterWorldEligibilityClaimV1, b: CharacterWorldEligibilityClaimV1)
    ensures
        #[trigger] a@ == #[trigger] b@ <==> a == b,
{
}

/// The claim naming exactly this character and world.
pub closed spec fn eligibility_claim_of(character_id: CharacterId, world_id: WorldId) -> CharacterWorldEligibilityClaimV1 {
    CharacterWorldEligibilityClaimV1 { character_id, world_id }
}

pub broadcast proof fn lemma_eligibility_claim_of(character_id: CharacterId, world_id: WorldId)
    ensures
        #[trigger] eligibility_claim_of(character_id, world_id)@ == (CharacterWorldEligibilityClaimView {
            character_id,
            world_id,
        }),
{
}

/// `claim` is present and names exactly this character and world.
pub open spec fn eligibility_is(claim: Option<CharacterWorldEligibilityClaimV1>, character_id: CharacterId, world_id: WorldId) -> bool {
    claim matches Some(c) && c@.character_id == character_id && c@.world_id == world_id
}

impl CharacterWorldEligibilityClaimV1 {
    pub fn new(character_id: CharacterId, world_id: WorldId) -> (r: Self)
        ensures
            r@ == (CharacterWorldEligibilityClaimView { character_id, world_id }),
    {
        Self { character_id, world_id }
    }

    pub fn character_id(self) -> (r: CharacterId)
        ensures
            r == self@.character_id,
    {
        self.character_id
    }

    pub fn world_id(self) -> (r: WorldId)
        ensures
            r == self@.world_id,
    {
        self.world_id
    }
}

/// Current fenced authority required to reconstruct one GameSession projection
/// after process replacement.
///
/// `commit` remains the immutable fresh-admission receipt. Every other field is
/// the current authoritative value and must come from the same fenced authority
/// read. Rehydration never treats GameSessionId as bearer proof.
#[derive(Debug, Clone, Copy, PartialEq, Eq)]
pub struct GameSessionAuthoritySnapshot<T: Copy + Eq> {
    commit: FreshAdmissionCommit<T>,
    session_state: GameSessionState,
    current_connection_generation: ConnectionGeneration,
    current_transport: Option<T>,
    current_character_lease: CharacterLease,
    current_character_world_eligibility: Option<CharacterWorldEligibilityClaimV1>,
    current_runtime_scope: RuntimeScopeRefV1,
    current_scope_generation: ScopeOwnershipGeneration,
    current_control_loss_epoch: Option<ControlLossEpochRefV1>,
    current_original_grace_deadline: Option<i64>,
}

pub struct GameSessionAuthoritySnapshotView<T> {
    pub commit: FreshAdmissionCommitView<T>,
    pub session_state: GameSessionState,
    pub current_connection_generation: ConnectionGeneration,
    pub current_transport: Option<T>,
    pub current_character_lease: CharacterLease,
    pub current_character_world_eligibility: Option<CharacterWorldEligibilityClaimV1>,
    pub current_runtime_scope: RuntimeScopeRefV1,
    pub current_scope_generation: ScopeOwnershipGeneration,
    pub current_control_loss_epoch: Option<ControlLossEpochRefV1>,
    pub current_original_grace_deadline: Option<i64>,
}

impl<T: Copy + Eq> View for GameSessionAuthoritySnapshot<T> {
    type V = GameSessionAuthoritySnapshotView<T>;

    closed spec fn view(&self) -> GameSessionAuthoritySnapshotView<T> {
        GameSessionAuthoritySnapshotView {
            commit: self.commit@,
            session_state: self.session_state,
            current_connection_generation: self.current_connection_generation,
            current_transport: self.current_transport,
            current_character_lease: self.current_character_lease,
            current_character_world_eligibility: self.current_character_world_eligibility,
            current_runtime_scope: self.current_runtime_scope,
            current_scope_generation: self.current_scope_generation,
            current_control_loss_epoch: self.current_control_loss_epoch,
            current_original_grace_deadline: self.current_original_grace_deadline,
        }
    }
}

/// Two snapshots are equal exactly when their views are.
pub broadcast proof fn lemma_authority_snapshot_view<T: Copy + Eq>(a: GameSessionAuthoritySnapshot<T>, b: GameSessionAuthoritySnapshot<T>)
    ensures
        #[trigger] a@ == #[trigger] b@ <==> a == b,
{
    if a@ == b@ {
        lemma_fresh_commit_view(a.commit, b.commit);
    }
}

/// The session a committed reconnect leaves: active at the candidate
/// generation on the candidate transport; an early replacement also names the
/// successor session in its commit, with the candidate as its first
/// connection and the current runtime scope generation.
pub open spec fn reconnected_session<T>(
    s: GameSessionAuthoritySnapshotView<T>,
    generation: ConnectionGeneration,
    transport: T,
    replacement: Option<GameSessionId>,
) -> GameSessionAuthoritySnapshotView<T> {
    let commit = match replacement {
        Some(id) => FreshAdmissionCommitView {
            game_session_id: id,
            connection_generation: generation,
            initial_transport: transport,
            scope_ownership_generation: s.current_scope_generation@,
            ..s.commit
        },
        None => s.commit,
    };
    GameSessionAuthoritySnapshotView {
        commit,
        session_state: GameSessionState::Active,
        current_connection_generation: generation,
        current_transport: Some(transport),
        ..s
    }
}

impl<T: Copy + Eq> GameSessionAuthoritySnapshot<T> {
    /// This snapshot after a committed reconnect to `generation` on
    /// `transport`, under the successor session `replacement` if any.
    pub fn reconnected(self, generation: ConnectionGeneration, transport: T, replacement: Option<GameSessionId>) -> (r: Self)
        ensures
            r@ == reconnected_session(self@, generation, transport, replacement),
    {
        let mut next = self;
        next.session_state = GameSessionState::Active;
        next.current_connection_generation = generation;
        next.current_transport = Some(transport);
        if let Some(id) = replacement {
            next.commit.game_session_id = id;
            next.commit.connection_generation = generation;
            next.commit.initial_transport = transport;
            next.commit.scope_ownership_generation = next.current_scope_generation.get();
        }
        next
    }

    /// A snapshot whose eligibility and runtime scope are those named by the
    /// commit itself, without control-loss continuity.
    pub fn new(
        commit: FreshAdmissionCommit<T>,
        session_state: GameSessionState,
        current_connection_generation: ConnectionGeneration,
        current_transport: Option<T>,
        current_character_lease: CharacterLease,
        current_scope_generation: ScopeOwnershipGeneration,
    ) -> (r: Self)
        ensures
            r@.commit == commit@,
            r@.session_state == session_state,
            r@.current_connection_generation == current_connection_generation,
            r@.current_transport == current_transport,
            r@.current_character_lease == current_character_lease,
            eligibility_is(r@.current_character_world_eligibility, commit@.character_id, commit@.world_id),
            r@.current_runtime_scope == (RuntimeScopeRefV1::Channel {
                world_id: commit@.world_id,
                channel_id: commit@.channel_id,
            }),
            r@.current_scope_generation == current_scope_generation,
            r@.current_control_loss_epoch is None,
            r@.current_original_grace_deadline is None,
    {
        Self {
            commit,
            session_state,
            current_connection_generation,
            current_transport,
            current_character_lease,
            current_character_world_eligibility: Some(
                CharacterWorldEligibilityClaimV1::new(commit.character_id(), commit.world_id()),
            ),
            current_runtime_scope: RuntimeScopeRefV1::channel(commit.world_id(), commit.channel_id()),
            current_scope_generation,
            current_control_loss_epoch: None,
            current_original_grace_deadline: None,
        }
    }

    pub fn from_current_facts(
        commit: FreshAdmissionCommit<T>,
        session_state: GameSessionState,
        current_connection_generation: ConnectionGeneration,
        current_transport: Option<T>,
        current_character_lease: CharacterLease,
        current_character_world_eligibility: Option<CharacterWorldEligibilityClaimV1>,
        current_runtime_scope: RuntimeScopeRefV1,
        current_scope_generation: ScopeOwnershipGeneration,
    ) -> (r: Result<Self, ReconnectDurabilityErrorV1>)
        ensures
            r is Ok <==> current_runtime_scope.spec_world_id() == commit@.world_id,
            r matches Ok(s) ==> s@ == (GameSessionAuthoritySnapshotView {
                commit: commit@,
                session_state,
                current_connection_generation,
                current_transport,
                current_character_lease,
                current_character_world_eligibility,
                current_runtime_scope,
                current_scope_generation,
                current_control_loss_epoch: None,
                current_original_grace_deadline: None,
            }),
            r matches Err(e) ==> e == ReconnectDurabilityErrorV1::InvalidRecord,
    {
        if current_runtime_scope.world_id() != commit.world_id() {
            return Err(ReconnectDurabilityErrorV1::InvalidRecord);
        }
        Ok(Self {
            commit,
            session_state,
            current_connection_generation,
            current_transport,
            current_character_lease,
            current_character_world_eligibility,
            current_runtime_scope,
            current_scope_generation,
            current_control_loss_epoch: None,
            current_original_grace_deadline: None,
        })
    }

    pub fn with_control_loss_continuity(
        self,
        control_loss_epoch: ControlLossEpochRefV1,
        original_grace_deadline: i64,
    ) -> (r: Result<Self, ReconnectDurabilityErrorV1>)
        ensures
            r is Ok <==> original_grace_deadline > 0,
            r matches Ok(s) ==> s@ == (GameSessionAuthoritySnapshotView {
                current_control_loss_epoch: Some(control_loss_epoch),
                current_original_grace_deadline: Some(original_grace_deadline),
                ..self@
            }),
            r matches Err(e) ==> e == ReconnectDurabilityErrorV1::InvalidRecord,
    {
        if original_grace_deadline <= 0 {
            return Err(ReconnectDurabilityErrorV1::InvalidRecord);
        }
        let mut next = self;
        next.current_control_loss_epoch = Some(control_loss_epoch);
        next.current_original_grace_deadline = Some(original_grace_deadline);
        Ok(next)
    }

    pub fn with_current_runtime_scope(self, current_runtime_scope: RuntimeScopeRefV1) -> (r: Result<Self, ReconnectDurabilityErrorV1>)
        ensures
            r is Ok <==> current_runtime_scope.spec_world_id() == self@.commit.world_id,
            r matches Ok(s) ==> s@ == (GameSessionAuthoritySnapshotView { current_runtime_scope, ..self@ }),
            r matches Err(e) ==> e == ReconnectDurabilityErrorV1::InvalidRecord,
    {
        if current_runtime_scope.world_id() != self.commit.world_id() {
            return Err(ReconnectDurabilityErrorV1::InvalidRecord);
        }
        let mut next = self;
        next.current_runtime_scope = current_runtime_scope;
        Ok(next)
    }

    pub fn commit(self) -> (r: FreshAdmissionCommit<T>)
        ensures
            r@ == self@.commit,
    {
        self.commit
    }

    pub fn session_state(self) -> (r: GameSessionState)
        ensures
            r == self@.session_state,
    {
        self.session_state
    }

    pub fn current_connection_generation(self) -> (r: ConnectionGeneration)
        ensures
            r == self@.current_connection_generation,
    {
        self.current_connection_generation
    }

    pub fn current_transport(self) -> (r: Option<T>)
        ensures
            r == self@.current_transport,
    {
        self.current_transport
    }

    pub fn current_character_lease(self) -> (r: CharacterLease)
        ensures
            r == self@.current_character_lease,
    {
        self.current_character_lease
    }

    pub fn current_character_world_eligibility(self) -> (r: Option<CharacterWorldEligibilityClaimV1>)
        ensures
            r == self@.current_character_world_eligibility,
    {
        self.current_character_world_eligibility
    }

    pub fn current_runtime_scope(self) -> (r: RuntimeScopeRefV1)
        ensures
            r == self@.current_runtime_scope,
    {
        self.current_runtime_scope
    }

    pub fn current_scope_generation(self) -> (r: ScopeOwnershipGeneration)
        ensures
            r == self@.current_scope_generation,
    {
        self.current_scope_generation
    }

    pub fn current_control_loss_epoch(self) -> (r: Option<ControlLossEpochRefV1>)
        ensures
            r == self@.current_control_loss_epoch,
    {
        self.current_control_loss_epoch
    }

    pub fn current_original_grace_deadline(self) -> (r: Option<i64>)
        ensures
            r == self@.current_original_grace_deadline,
    {
        self.current_original_grace_deadline
    }

    /// The same session after an applied control loss: reconnectable, with no
    /// controller, carrying the loss epoch and its original grace deadline.
    pub(crate) fn with_control_loss_applied(self, control_loss_epoch: ControlLossEpochRefV1, original_grace_deadline: i64) -> (r: Self)
        ensures
            r@ == (GameSessionAuthoritySnapshotView {
                session_state: GameSessionState::Reconnectable,
                current_transport: None,
                current_control_loss_epoch: Some(control_loss_epoch),
                current_original_grace_deadline: Some(original_grace_deadline),
                ..self@
            }),
    {
        let mut next = self;
        next.session_state = GameSessionState::Reconnectable;
        next.current_transport = None;
        next.current_control_loss_epoch = Some(control_loss_epoch);
        next.current_original_grace_deadline = Some(original_grace_deadline);
        next
    }

    /// Whether two snapshots name the same commit.
    pub fn same_commit(self, other: Self) -> (r: bool)
        requires
            obeys_concrete_eq::<T>(),
        ensures
            r == (self@.commit == other@.commit),
    {
        let a = self.commit;
        let b = other.commit;
        a.game_session_id == b.game_session_id && a.character_id == b.character_id && a.world_id
            == b.world_id && a.channel_id == b.channel_id && a.character_lease_generation
            == b.character_lease_generation && a.scope_ownership_generation
            == b.scope_ownership_generation && a.connection_generation == b.connection_generation
            && same_transport(a.initial_transport, b.initial_transport)
    }

    /// Whether two snapshots are the same snapshot.
    pub fn same(self, other: Self) -> (r: bool)
        requires
            obeys_concrete_eq::<T>(),
        ensures
            r == (self@ == other@),
    {
        broadcast use lemma_character_lease_view, lemma_eligibility_claim_view, lemma_control_loss_epoch_view;

        let a = self.commit;
        let b = other.commit;
        let transport_same = match (self.current_transport, other.current_transport) {
            (Some(x), Some(y)) => same_transport(x, y),
            (None, None) => true,
            _ => false,
        };
        a.game_session_id == b.game_session_id && a.character_id == b.character_id && a.world_id
            == b.world_id && a.channel_id == b.channel_id && a.character_lease_generation
            == b.character_lease_generation && a.scope_ownership_generation
            == b.scope_ownership_generation && a.connection_generation == b.connection_generation
            && same_transport(a.initial_transport, b.initial_transport) && self.session_state
            == other.session_state && self.current_connection_generation
            == other.current_connection_generation && transport_same && self.current_character_lease
            == other.current_character_lease && self.current_character_world_eligibility
            == other.current_character_world_eligibility && same_runtime_scope(
            self.current_runtime_scope,
            other.current_runtime_scope,
        ) && self.current_scope_generation == other.current_scope_generation
            && self.current_control_loss_epoch == other.current_control_loss_epoch
            && self.current_original_grace_deadline == other.current_original_grace_deadline
    }
}

/// Why a snapshot cannot prove the current authority of the expected session,
/// if it cannot.
pub open spec fn current_authority_error<T>(expected_game_session_id: GameSessionId, s: GameSessionAuthoritySnapshotView<T>) -> Option<AdmissionError> {
    let c = s.commit;
    let lease = s.current_character_lease@;
    if c.game_session_id != expected_game_session_id {
        Some(AdmissionError::ReconciliationUnavailable)
    } else if !eligibility_is(s.current_character_world_eligibility, c.character_id, c.world_id) {
        Some(AdmissionError::ReconciliationUnavailable)
    } else if lease.character_id != c.character_id || lease.generation != c.character_lease_generation {
        Some(AdmissionError::StaleLease)
    } else if s.current_scope_generation@ < c.scope_ownership_generation {
        Some(AdmissionError::StaleRuntime)
    } else if s.current_connection_generation@ < c.connection_generation@ {
        Some(AdmissionError::StaleConnection)
    } else if (s.session_state == GameSessionState::Active && s.current_transport is Some) || (
    s.session_state != GameSessionState::Active && s.current_transport is None) {
        None
    } else {
        Some(AdmissionError::ReconciliationUnavailable)
    }
}

/// Checks that a snapshot proves the current authority of the expected session.
pub fn validate_current_authority<T: Copy + Eq>(expected_game_session_id: GameSessionId, snapshot: GameSessionAuthoritySnapshot<T>) -> (r: Result<(), AdmissionError>)
    ensures
        r == (match current_authority_error(expected_game_session_id, snapshot@) {
            Some(e) => Err(e),
            None => Ok(()),
        }),
{
    broadcast use lemma_eligibility_claim_view;

    let committed = snapshot.commit();
    if committed.game_session_id() != expected_game_session_id {
        return Err(AdmissionError::ReconciliationUnavailable);
    }
    if snapshot.current_character_world_eligibility() != Some(
        CharacterWorldEligibilityClaimV1::new(committed.character_id(), committed.world_id()),
    ) {
        return Err(AdmissionError::ReconciliationUnavailable);
    }
    let lease = snapshot.current_character_lease();
    if lease.character_id() != committed.character_id() {
        return Err(AdmissionError::StaleLease);
    }
    if lease.generation() != committed.character_lease_generation() {
        return Err(AdmissionError::StaleLease);
    }
    if snapshot.current_scope_generation().get() < committed.scope_ownership_generation() {
        return Err(AdmissionError::StaleRuntime);
    }
    if snapshot.current_connection_generation().get() < committed.connection_generation().get() {
        return Err(AdmissionError::StaleConnection);
    }
    match snapshot.session_state() {
        GameSessionState::Active if snapshot.current_transport().is_some() => Ok(()),
        GameSessionState::Reconnectable if snapshot.current_transport().is_none() => Ok(()),
        GameSessionState::Terminal if snapshot.current_transport().is_none() => Ok(()),
        _ => Err(AdmissionError::ReconciliationUnavailable),
    }
}

/// Whether two transports are the same transport.
fn same_transport<T: Copy + Eq>(a: T, b: T) -> (r: bool)
    requires
        obeys_concrete_eq::<T>(),
    ensures
        r == (a == b),
{
    proof {
        reveal(obeys_concrete_eq);
    }
    a == b
}

/// Whether an optional transport is exactly `Some(b)`.
fn is_transport<T: Copy + Eq>(a: Option<T>, b: T) -> (r: bool)
    requires
        obeys_concrete_eq::<T>(),
    ensures
        r == (a == Some(b)),
{
    match a {
        Some(x) => same_transport(x, b),
        None => false,
    }
}

/// The process-local projection of the durable GameSession authority, and the
/// journal that holds that authority.
pub struct AuthorityView<T, J> {
    pub current: Option<GameSessionView>,
    pub current_transport: Option<T>,
    pub prepared: Option<PreparedReconnectView<T>>,
    pub control_loss_pending: Option<(T, ConnectionGeneration)>,
    pub runtime_scope_reconciliation_pending: bool,
    pub journal: J,
}

impl<T, J> AuthorityView<T, J> {
    /// No process projection is left: it must be rebuilt from durable authority.
    pub open spec fn cleared(self) -> Self {
        AuthorityView {
            current: None,
            current_transport: None,
            prepared: None,
            control_loss_pending: None,
            runtime_scope_reconciliation_pending: false,
            ..self
        }
    }

    /// The current session with another lifecycle state.
    pub open spec fn with_session_state(self, state: GameSessionState) -> Self {
        AuthorityView {
            current: match self.current {
                Some(s) => Some(GameSessionView { state, ..s }),
                None => None,
            },
            ..self
        }
    }
}

/// The result of an operation that hands back the current session, by value.
pub open spec fn session_result_view(r: Result<&GameSession, AdmissionError>) -> Result<GameSessionView, AdmissionError> {
    match r {
        Ok(s) => Ok(s@),
        Err(e) => Err(e),
    }
}

/// A valid runtime fence freshly granted ownership generation `g`.
pub open spec fn granted_scope(g: ScopeOwnershipGeneration) -> crate::ids::ScopeRuntimeFenceView {
    crate::ids::ScopeRuntimeFenceView { generation: g, valid: true, accepted_inputs: 0 }
}

/// Retiring the process's PREPARED candidate, given what the journal answered.
pub open spec fn spec_retire_prepared<T, J>(v: AuthorityView<T, J>, retired: Result<(), AdmissionError>) -> (AuthorityView<T, J>, Result<(), AdmissionError>) {
    match v.prepared {
        None => (v, Ok(())),
        Some(_) => match v.current {
            None => (v, Err(AdmissionError::Terminal)),
            Some(_) => match retired {
                Err(e) => (v, Err(e)),
                Ok(()) => (AuthorityView { prepared: None, ..v }, Ok(())),
            },
        },
    }
}

/// Fresh admission, given what the journal answered to the retirement of a
/// PREPARED candidate and to the fresh commit itself.
pub open spec fn spec_commit_fresh<T, J>(
    v: AuthorityView<T, J>,
    facts: FreshAdmissionFactsView,
    transport: T,
    retired: Result<(), AdmissionError>,
    fresh: Result<FreshAdmissionAuthoritySnapshotView<T>, AdmissionError>,
) -> (AuthorityView<T, J>, Result<GameSessionView, AdmissionError>) {
    if v.current matches Some(s) && s.state != GameSessionState::Terminal {
        (v, Err(AdmissionError::IncumbentHealthy))
    } else if facts.scope_ownership_generation == 0 {
        (v, Err(AdmissionError::InvalidFacts))
    } else {
        let (v1, r1) = spec_retire_prepared(v, retired);
        match r1 {
            Err(e) => (v1, Err(e)),
            Ok(()) => match fresh {
                Err(e) => (v1, Err(e)),
                Ok(snap) => {
                    let c = snap.commit;
                    if !commit_matches_facts(c, facts) {
                        (v1, Err(AdmissionError::InvalidFacts))
                    } else if c.initial_transport != transport || snap.session_state
                        != GameSessionState::Active || snap.current_connection_generation
                        != c.connection_generation || snap.current_transport != Some(transport) {
                        (v1, Err(AdmissionError::GrantReplayed))
                    } else if v1.current matches Some(s) && s.state == GameSessionState::Terminal
                        && s.game_session_id == c.game_session_id {
                        (v1, Err(AdmissionError::GrantReplayed))
                    } else {
                        let session = GameSessionView {
                            game_session_id: c.game_session_id,
                            character_id: c.character_id,
                            world_id: c.world_id,
                            channel_id: c.channel_id,
                            lease_generation: c.character_lease_generation,
                            runtime_scope: granted_scope(
                                crate::ids::scope_generation_of(c.scope_ownership_generation),
                            ),
                            connection_generation: c.connection_generation,
                            state: GameSessionState::Active,
                        };
                        (
                            AuthorityView {
                                current: Some(session),
                                current_transport: Some(transport),
                                control_loss_pending: None,
                                runtime_scope_reconciliation_pending: false,
                                ..v1
                            },
                            Ok(session),
                        )
                    }
                },
            },
        }
    }
}

/// The session made terminal, with no controller and nothing pending.
pub open spec fn terminalized<T, J>(v: AuthorityView<T, J>) -> AuthorityView<T, J> {
    AuthorityView {
        prepared: None,
        current_transport: None,
        control_loss_pending: None,
        runtime_scope_reconciliation_pending: false,
        ..v.with_session_state(GameSessionState::Terminal)
    }
}

/// Termination of the current session, given what the journal answered.
pub open spec fn spec_terminate<T, J>(v: AuthorityView<T, J>, terminated: Result<(), AdmissionError>) -> (AuthorityView<T, J>, Result<(), AdmissionError>) {
    match v.current {
        None => (v, Err(AdmissionError::Terminal)),
        Some(_) => match terminated {
            Ok(()) => (terminalized(v), Ok(())),
            Err(AdmissionError::ReconciliationUnavailable) => (
                terminalized(v),
                Err(AdmissionError::ReconciliationUnavailable),
            ),
            Err(e) => (v, Err(e)),
        },
    }
}

/// Unexpected loss of control observed for a transport and generation, given
/// what the journal answered if it was asked.
pub open spec fn spec_mark_control_loss<T, J>(
    v: AuthorityView<T, J>,
    observed_transport: T,
    observed_generation: ConnectionGeneration,
    marked: Result<ControlLossDisposition, AdmissionError>,
) -> (AuthorityView<T, J>, Result<ControlLossDisposition, AdmissionError>) {
    let observed = (observed_transport, observed_generation);
    match v.current {
        None => (v, Err(AdmissionError::Terminal)),
        Some(s) => if s.state == GameSessionState::Terminal {
            (v, Err(AdmissionError::Terminal))
        } else if v.control_loss_pending matches Some(p) && p != observed {
            (v, Err(AdmissionError::ReconciliationUnavailable))
        } else if v.control_loss_pending is None && (v.current_transport != Some(observed_transport)
            || s.connection_generation != observed_generation) {
            (v, Ok(ControlLossDisposition::StaleIgnored))
        } else {
            match marked {
                Ok(ControlLossDisposition::Applied) => (
                    AuthorityView {
                        prepared: None,
                        current_transport: None,
                        control_loss_pending: None,
                        ..v.with_session_state(GameSessionState::Reconnectable)
                    },
                    Ok(ControlLossDisposition::Applied),
                ),
                Ok(ControlLossDisposition::StaleIgnored) => if v.control_loss_pending == Some(
                    observed,
                ) {
                    (v, Err(AdmissionError::ReconciliationUnavailable))
                } else {
                    (v, Ok(ControlLossDisposition::StaleIgnored))
                },
                Err(AdmissionError::ReconciliationUnavailable) => (
                    AuthorityView {
                        current_transport: None,
                        prepared: None,
                        control_loss_pending: Some(observed),
                        ..v
                    },
                    Err(AdmissionError::ReconciliationUnavailable),
                ),
                Err(e) => (v, Err(e)),
            }
        },
    }
}

/// The current session's runtime fence stops accepting input and reconciliation
/// becomes pending.
pub open spec fn runtime_invalidated<T, J>(v: AuthorityView<T, J>) -> AuthorityView<T, J> {
    AuthorityView {
        current: match v.current {
            Some(s) => Some(
                GameSessionView {
                    runtime_scope: crate::ids::ScopeRuntimeFenceView { valid: false, ..s.runtime_scope },
                    ..s
                },
            ),
            None => None,
        },
        prepared: None,
        runtime_scope_reconciliation_pending: true,
        ..v
    }
}

/// A RuntimeScope ownership observation, given what the journal answered if
/// it was asked.
pub open spec fn spec_observe_runtime<T, J>(
    v: AuthorityView<T, J>,
    generation: u64,
    advanced: Result<ScopeOwnershipGeneration, AdmissionError>,
) -> (AuthorityView<T, J>, Result<(), AdmissionError>) {
    if generation == 0 {
        (v, Err(AdmissionError::InvalidFacts))
    } else {
        match v.current {
            None => (v, Err(AdmissionError::Terminal)),
            Some(s) => {
                let local = s.runtime_scope.generation;
                if s.state == GameSessionState::Terminal {
                    (v, Err(AdmissionError::Terminal))
                } else if generation < local@ {
                    (v, Err(AdmissionError::StaleRuntime))
                } else {
                    match advanced {
                        Err(e) => (runtime_invalidated(v), Err(e)),
                        Ok(a) => if a@ < local@ {
                            (runtime_invalidated(v), Err(AdmissionError::ReconciliationUnavailable))
                        } else if a@ == local@ {
                            if v.runtime_scope_reconciliation_pending {
                                (v, Err(AdmissionError::ReconciliationUnavailable))
                            } else {
                                (v, Ok(()))
                            }
                        } else {
                            (
                                AuthorityView {
                                    current: Some(GameSessionView { runtime_scope: granted_scope(a), ..s }),
                                    prepared: None,
                                    runtime_scope_reconciliation_pending: false,
                                    ..v
                                },
                                Ok(()),
                            )
                        },
                    }
                }
            },
        }
    }
}

/// What an already-recorded disposition of a reconnect attempt means for a
/// retry on `candidate_transport`.
pub open spec fn spec_reconcile_known<T, J>(
    v: AuthorityView<T, J>,
    disposition: ReconnectAttemptDisposition,
    candidate_transport: T,
) -> Result<ConnectionGeneration, AdmissionError> {
    match v.current {
        None => Err(AdmissionError::Terminal),
        Some(s) => if s.state == GameSessionState::Terminal {
            Err(AdmissionError::Terminal)
        } else {
            match disposition {
                ReconnectAttemptDisposition::TerminallySuperseded => Err(AdmissionError::StaleConnection),
                ReconnectAttemptDisposition::Prepared { .. } => Err(AdmissionError::ReconciliationUnavailable),
                ReconnectAttemptDisposition::Committed { generation } => if v.current_transport
                    != Some(candidate_transport) || s.connection_generation != generation {
                    Err(AdmissionError::StaleConnection)
                } else {
                    Ok(generation)
                },
            }
        },
    }
}

/// Reconciliation of a reconnect attempt against the journal's record of it.
pub open spec fn spec_reconcile_attempt<T, J>(
    v: AuthorityView<T, J>,
    candidate_transport: T,
    looked_up: Result<Option<ReconnectAttemptDisposition>, AdmissionError>,
) -> Result<Option<ConnectionGeneration>, AdmissionError> {
    match v.current {
        None => Err(AdmissionError::Terminal),
        Some(s) => if s.state == GameSessionState::Terminal {
            Err(AdmissionError::Terminal)
        } else {
            match looked_up {
                Err(e) => Err(e),
                Ok(None) => Ok(None),
                Ok(Some(d)) => match spec_reconcile_known(v, d, candidate_transport) {
                    Ok(g) => Ok(Some(g)),
                    Err(e) => Err(e),
                },
            }
        },
    }
}

/// A reconnect attempt that is already known: its recorded generation, or why
/// it cannot be answered.
pub open spec fn known_attempt_result(r: Result<Option<ConnectionGeneration>, AdmissionError>, unseen: Result<ConnectionGeneration, AdmissionError>) -> Result<ConnectionGeneration, AdmissionError> {
    match r {
        Err(e) => Err(e),
        Ok(Some(g)) => Ok(g),
        Ok(None) => unseen,
    }
}

/// PREPARE of a reconnect candidate, given what the journal answered to the
/// lookup, to the retirement of an unseen losing attempt and to the claim.
pub open spec fn spec_prepare_reconnect<T, J>(
    v: AuthorityView<T, J>,
    attempt: ReconnectAttemptRef,
    predecessor: ConnectionGeneration,
    candidate_transport: T,
    lease: u64,
    scope: u64,
    looked_up: Result<Option<ReconnectAttemptDisposition>, AdmissionError>,
    retired: Result<ReconnectAttemptDisposition, AdmissionError>,
    claimed: Result<ReconnectAttemptClaim, AdmissionError>,
) -> (AuthorityView<T, J>, Result<ConnectionGeneration, AdmissionError>) {
    if v.control_loss_pending is Some || v.runtime_scope_reconciliation_pending {
        (v, Err(AdmissionError::ReconciliationUnavailable))
    } else if v.prepared is Some {
        let p = v.prepared.unwrap();
        if p.attempt == attempt {
            (
                v,
                if p.candidate_transport == candidate_transport {
                    Ok(p.candidate)
                } else {
                    Err(AdmissionError::AttemptMismatch)
                },
            )
        } else {
            (
                v,
                known_attempt_result(
                    spec_reconcile_attempt(v, candidate_transport, looked_up),
                    match retired {
                        Err(e) => Err(e),
                        Ok(d) => spec_reconcile_known(v, d, candidate_transport),
                    },
                ),
            )
        }
    } else {
        match spec_reconcile_attempt(v, candidate_transport, looked_up) {
            Err(e) => (v, Err(e)),
            Ok(Some(g)) => (v, Ok(g)),
            Ok(None) => {
                let s = v.current.unwrap();
                if s.state == GameSessionState::Active {
                    (v, Err(AdmissionError::IncumbentHealthy))
                } else if predecessor != s.connection_generation {
                    (v, Err(AdmissionError::StaleConnection))
                } else if lease != s.lease_generation {
                    (v, Err(AdmissionError::StaleLease))
                } else if scope != s.runtime_scope.generation@ {
                    (v, Err(AdmissionError::StaleRuntime))
                } else if predecessor@ == u64::MAX {
                    (v, Err(AdmissionError::GenerationExhausted))
                } else {
                    let candidate = crate::ids::connection_generation_of((predecessor@ + 1) as u64);
                    match claimed {
                        Err(e) => (v.cleared(), Err(e)),
                        Ok(ReconnectAttemptClaim::Claimed) => (
                            AuthorityView {
                                prepared: Some(
                                    PreparedReconnectView {
                                        attempt,
                                        predecessor,
                                        candidate,
                                        candidate_transport,
                                        lease_generation: lease,
                                        scope_generation: scope,
                                    },
                                ),
                                ..v
                            },
                            Ok(candidate),
                        ),
                        Ok(ReconnectAttemptClaim::Existing(d)) => {
                            let reconciled = spec_reconcile_known(v, d, candidate_transport);
                            if d is Committed && reconciled is Err {
                                (v.cleared(), reconciled)
                            } else {
                                (v, reconciled)
                            }
                        },
                        Ok(ReconnectAttemptClaim::RejectedConcurrent) => (
                            v,
                            Err(AdmissionError::StaleConnection),
                        ),
                    }
                }
            },
        }
    }
}

/// COMMIT of the PREPARED reconnect candidate, given what the journal answered
/// to the lookup of another attempt and to the commit.
pub open spec fn spec_commit_reconnect<T, J>(
    v: AuthorityView<T, J>,
    attempt: ReconnectAttemptRef,
    candidate_transport: T,
    lease: u64,
    scope: u64,
    looked_up: Result<Option<ReconnectAttemptDisposition>, AdmissionError>,
    committed: Result<(), AdmissionError>,
) -> (AuthorityView<T, J>, Result<ConnectionGeneration, AdmissionError>) {
    let other_attempt = known_attempt_result(
        spec_reconcile_attempt(v, candidate_transport, looked_up),
        Err(AdmissionError::AttemptMismatch),
    );
    match v.prepared {
        None => (v, other_attempt),
        Some(p) => match v.current {
            None => (v, Err(AdmissionError::Terminal)),
            Some(s) => if s.state == GameSessionState::Terminal {
                (v, Err(AdmissionError::Terminal))
            } else if p.attempt != attempt {
                (v, other_attempt)
            } else if p.candidate_transport != candidate_transport {
                (v, Err(AdmissionError::AttemptMismatch))
            } else if s.state != GameSessionState::Reconnectable {
                (v, Err(AdmissionError::SessionNotReconnectable))
            } else if s.connection_generation != p.predecessor {
                (v, Err(AdmissionError::StaleConnection))
            } else if lease != s.lease_generation || lease != p.lease_generation {
                (v, Err(AdmissionError::StaleLease))
            } else if scope != s.runtime_scope.generation@ || scope != p.scope_generation {
                (v, Err(AdmissionError::StaleRuntime))
            } else if p.predecessor@ == u64::MAX {
                (v, Err(AdmissionError::GenerationExhausted))
            } else if p.candidate@ != p.predecessor@ + 1 {
                (v, Err(AdmissionError::StaleConnection))
            } else {
                match committed {
                    Ok(()) => (
                        AuthorityView {
                            current: Some(
                                GameSessionView {
                                    connection_generation: p.candidate,
                                    state: GameSessionState::Active,
                                    ..s
                                },
                            ),
                            prepared: None,
                            current_transport: Some(candidate_transport),
                            control_loss_pending: None,
                            runtime_scope_reconciliation_pending: false,
                            ..v
                        },
                        Ok(p.candidate),
                    ),
                    Err(e) => if e == AdmissionError::StaleLease || e == AdmissionError::StaleRuntime
                        || e == AdmissionError::StaleConnection || e == AdmissionError::Terminal {
                        (AuthorityView { prepared: None, ..v }, Err(e))
                    } else {
                        (v, Err(e))
                    },
                }
            },
        },
    }
}

/// What retiring a PREPARED candidate hands to the journal.
pub open spec fn retire_requests<T, J>(v: AuthorityView<T, J>) -> Seq<JournalRequest<T>> {
    match (v.prepared, v.current) {
        (Some(p), Some(s)) => seq![
            JournalRequest::RetirePrepared {
                game_session_id: s.game_session_id,
                attempt: p.attempt,
                candidate_generation: p.candidate,
            },
        ],
        _ => Seq::empty(),
    }
}

/// What fresh admission hands to the journal: nothing while an incumbent is
/// live or the facts are invalid (so no session identifier is issued), then
/// the retirement of a PREPARED candidate, and the fresh commit itself only
/// once that retirement succeeded.
pub open spec fn commit_fresh_requests<T, J>(
    v: AuthorityView<T, J>,
    facts: FreshAdmissionFactsView,
    transport: T,
    retired: Result<(), AdmissionError>,
) -> Seq<JournalRequest<T>> {
    if v.current matches Some(s) && s.state != GameSessionState::Terminal {
        Seq::empty()
    } else if facts.scope_ownership_generation == 0 {
        Seq::empty()
    } else if spec_retire_prepared(v, retired).1 is Err {
        retire_requests(v)
    } else {
        retire_requests(v).push(JournalRequest::CommitFresh { facts, transport })
    }
}

/// What termination hands to the journal: the current session at its
/// current connection generation.
pub open spec fn terminate_requests<T, J>(v: AuthorityView<T, J>) -> Seq<JournalRequest<T>> {
    match v.current {
        Some(s) => seq![
            JournalRequest::TerminateSession {
                game_session_id: s.game_session_id,
                expected_generation: s.connection_generation,
            },
        ],
        None => Seq::empty(),
    }
}

/// What a control-loss observation hands to the journal: the exact observed
/// transport and generation, and only when they are the ones to decide.
pub open spec fn control_loss_requests<T, J>(
    v: AuthorityView<T, J>,
    observed_transport: T,
    observed_generation: ConnectionGeneration,
) -> Seq<JournalRequest<T>> {
    match v.current {
        None => Seq::empty(),
        Some(s) => if s.state == GameSessionState::Terminal {
            Seq::empty()
        } else if v.control_loss_pending matches Some(p) && p != (observed_transport, observed_generation) {
            Seq::empty()
        } else if v.control_loss_pending is None && (v.current_transport != Some(observed_transport)
            || s.connection_generation != observed_generation) {
            Seq::empty()
        } else {
            seq![
                JournalRequest::MarkControlLoss {
                    game_session_id: s.game_session_id,
                    transport: observed_transport,
                    generation: observed_generation,
                },
            ]
        },
    }
}

/// What a RuntimeScope observation hands to the journal: the local
/// generation as the expected one and the observed one, when it is not older.
pub open spec fn observe_runtime_requests<T, J>(v: AuthorityView<T, J>, generation: u64) -> Seq<JournalRequest<T>> {
    if generation == 0 {
        Seq::empty()
    } else {
        match v.current {
            None => Seq::empty(),
            Some(s) => if s.state == GameSessionState::Terminal || generation < s.runtime_scope.generation@ {
                Seq::empty()
            } else {
                seq![
                    JournalRequest::AdvanceRuntimeScope {
                        game_session_id: s.game_session_id,
                        expected_current: s.runtime_scope.generation,
                        observed: crate::ids::scope_generation_of(generation),
                    },
                ]
            },
        }
    }
}

/// The lookup of `attempt` for the current live session.
pub open spec fn lookup_requests<T, J>(v: AuthorityView<T, J>, attempt: ReconnectAttemptRef) -> Seq<JournalRequest<T>> {
    match v.current {
        Some(s) => if s.state == GameSessionState::Terminal {
            Seq::empty()
        } else {
            seq![JournalRequest::Lookup { game_session_id: s.game_session_id, attempt }]
        },
        None => Seq::empty(),
    }
}

/// The binding a PREPARE claims for the current session.
pub open spec fn claim_binding<T>(
    s: GameSessionView,
    predecessor: ConnectionGeneration,
    candidate_transport: T,
) -> BindingRequest<T> {
    BindingRequest {
        predecessor_generation: predecessor,
        candidate_generation: crate::ids::connection_generation_of((predecessor@ + 1) as u64),
        candidate_transport,
        character_lease: CharacterLeaseView { character_id: s.character_id, generation: s.lease_generation },
        scope_generation: s.runtime_scope.generation,
    }
}

/// What PREPARE hands to the journal: the lookup of the requested attempt,
/// then either the retirement of that attempt if unseen while another is
/// PREPARED, or the claim of its exact binding once every local check passed.
pub open spec fn prepare_requests<T, J>(
    v: AuthorityView<T, J>,
    attempt: ReconnectAttemptRef,
    predecessor: ConnectionGeneration,
    candidate_transport: T,
    lease: u64,
    scope: u64,
    looked_up: Result<Option<ReconnectAttemptDisposition>, AdmissionError>,
) -> Seq<JournalRequest<T>> {
    if v.control_loss_pending is Some || v.runtime_scope_reconciliation_pending {
        Seq::empty()
    } else if v.prepared is Some {
        if v.prepared.unwrap().attempt == attempt {
            Seq::empty()
        } else if spec_reconcile_attempt(v, candidate_transport, looked_up) == Ok::<
            Option<ConnectionGeneration>,
            AdmissionError,
        >(None) {
            lookup_requests(v, attempt).push(
                JournalRequest::RetireIfUnseen { game_session_id: v.current.unwrap().game_session_id, attempt },
            )
        } else {
            lookup_requests(v, attempt)
        }
    } else if spec_reconcile_attempt(v, candidate_transport, looked_up) == Ok::<
        Option<ConnectionGeneration>,
        AdmissionError,
    >(None) {
        let s = v.current.unwrap();
        if s.state == GameSessionState::Active || predecessor != s.connection_generation || lease
            != s.lease_generation || scope != s.runtime_scope.generation@ || predecessor@ == u64::MAX {
            lookup_requests(v, attempt)
        } else {
            lookup_requests(v, attempt).push(
                JournalRequest::ClaimPrepared {
                    game_session_id: s.game_session_id,
                    attempt,
                    binding: claim_binding(s, predecessor, candidate_transport),
                },
            )
        }
    } else {
        lookup_requests(v, attempt)
    }
}

/// The binding a COMMIT hands over: the PREPARED predecessor, candidate and
/// transport with the current lease and runtime scope generation.
pub open spec fn commit_binding<T>(s: GameSessionView, p: PreparedReconnectView<T>) -> BindingRequest<T> {
    BindingRequest {
        predecessor_generation: p.predecessor,
        candidate_generation: p.candidate,
        candidate_transport: p.candidate_transport,
        character_lease: CharacterLeaseView { character_id: s.character_id, generation: s.lease_generation },
        scope_generation: s.runtime_scope.generation,
    }
}

/// What COMMIT hands to the journal: the lookup of another attempt, or the
/// commit of the PREPARED binding once every local check passed; nothing
/// otherwise.
pub open spec fn commit_requests<T, J>(
    v: AuthorityView<T, J>,
    attempt: ReconnectAttemptRef,
    candidate_transport: T,
    lease: u64,
    scope: u64,
) -> Seq<JournalRequest<T>> {
    match v.prepared {
        None => lookup_requests(v, attempt),
        Some(p) => match v.current {
            None => Seq::empty(),
            Some(s) => if s.state == GameSessionState::Terminal {
                Seq::empty()
            } else if p.attempt != attempt {
                lookup_requests(v, attempt)
            } else if p.candidate_transport != candidate_transport || s.state != GameSessionState::Reconnectable
                || s.connection_generation != p.predecessor || lease != s.lease_generation || lease
                != p.lease_generation || scope != s.runtime_scope.generation@ || scope != p.scope_generation
                || p.predecessor@ == u64::MAX || p.candidate@ != p.predecessor@ + 1 {
                Seq::empty()
            } else {
                seq![JournalRequest::CommitPrepared { game_session_id: s.game_session_id, attempt, binding: commit_binding(s, p) }]
            },
        },
    }
}

/// Restoring a PREPARED candidate that durable reconciliation proved current.
pub open spec fn spec_restore_prepared<T, J>(
    v: AuthorityView<T, J>,
    attempt: ReconnectAttemptRef,
    binding: ReconnectCommitBindingView<T>,
) -> (AuthorityView<T, J>, Result<ConnectionGeneration, AdmissionError>) {
    if v.control_loss_pending is Some || v.runtime_scope_reconciliation_pending {
        (v, Err(AdmissionError::ReconciliationUnavailable))
    } else {
        match v.current {
            None => (v, Err(AdmissionError::Terminal)),
            Some(s) => if s.state == GameSessionState::Terminal {
                (v, Err(AdmissionError::Terminal))
            } else if s.state != GameSessionState::Reconnectable || v.current_transport is Some
                || s.connection_generation != binding.predecessor_generation
                || binding.predecessor_generation@ == u64::MAX
                || binding.predecessor_generation@ + 1 != binding.candidate_generation@ {
                (v, Err(AdmissionError::StaleConnection))
            } else if binding.character_lease@ != (CharacterLeaseView {
                character_id: s.character_id,
                generation: s.lease_generation,
            }) {
                (v, Err(AdmissionError::StaleLease))
            } else if s.runtime_scope.generation != binding.scope_generation {
                (v, Err(AdmissionError::StaleRuntime))
            } else {
                let prepared = PreparedReconnectView {
                    attempt,
                    predecessor: binding.predecessor_generation,
                    candidate: binding.candidate_generation,
                    candidate_transport: binding.candidate_transport,
                    lease_generation: binding.character_lease@.generation,
                    scope_generation: binding.scope_generation@,
                };
                match v.prepared {
                    Some(current) => if current == prepared {
                        (v, Ok(prepared.candidate))
                    } else {
                        (v, Err(AdmissionError::ReconciliationUnavailable))
                    },
                    None => (AuthorityView { prepared: Some(prepared), ..v }, Ok(prepared.candidate)),
                }
            },
        }
    }
}

/// Refreshing the projection installed by fresh admission from a durable
/// snapshot of the session's current authority.
pub open spec fn spec_refresh_fresh<T, J>(
    v: AuthorityView<T, J>,
    transport: T,
    snap: GameSessionAuthoritySnapshotView<T>,
) -> (AuthorityView<T, J>, Result<GameSessionView, AdmissionError>) {
    let c = snap.commit;
    match current_authority_error(c.game_session_id, snap) {
        Some(e) => (v, Err(e)),
        None => if c.initial_transport != transport || snap.session_state != GameSessionState::Active
            || snap.current_connection_generation != c.connection_generation
            || snap.current_transport != Some(transport) {
            (v.cleared(), Err(AdmissionError::GrantReplayed))
        } else {
            match v.current {
                None => (v, Err(AdmissionError::ReconciliationUnavailable)),
                Some(s) => if s.game_session_id != c.game_session_id || s.character_id
                    != c.character_id || s.world_id != c.world_id || s.channel_id != c.channel_id
                    || s.connection_generation != snap.current_connection_generation {
                    (v.cleared(), Err(AdmissionError::ReconciliationUnavailable))
                } else if snap.current_scope_generation@ < s.runtime_scope.generation@ {
                    (v.cleared(), Err(AdmissionError::StaleRuntime))
                } else {
                    let session = GameSessionView {
                        lease_generation: snap.current_character_lease@.generation,
                        runtime_scope: if snap.current_scope_generation@
                            > s.runtime_scope.generation@ {
                            granted_scope(snap.current_scope_generation)
                        } else {
                            s.runtime_scope
                        },
                        state: GameSessionState::Active,
                        ..s
                    };
                    (
                        AuthorityView {
                            current: Some(session),
                            current_transport: Some(transport),
                            prepared: None,
                            control_loss_pending: None,
                            runtime_scope_reconciliation_pending: false,
                            ..v
                        },
                        Ok(session),
                    )
                },
            }
        },
    }
}

/// Installing a session projection rebuilt from durable authority after
/// process replacement.
pub open spec fn spec_install_rehydrated<T, J>(
    v: AuthorityView<T, J>,
    game_session_id: GameSessionId,
    snap: GameSessionAuthoritySnapshotView<T>,
) -> (AuthorityView<T, J>, Result<GameSessionView, AdmissionError>) {
    match v.current {
        Some(current) => (
            v,
            Err(
                if current.state == GameSessionState::Terminal {
                    AdmissionError::Terminal
                } else {
                    AdmissionError::IncumbentHealthy
                },
            ),
        ),
        None => if v.prepared is Some || v.control_loss_pending is Some
            || v.runtime_scope_reconciliation_pending {
            (v, Err(AdmissionError::ReconciliationUnavailable))
        } else {
            match current_authority_error(game_session_id, snap) {
                Some(e) => (v, Err(e)),
                None => if snap.session_state == GameSessionState::Terminal {
                    (v, Err(AdmissionError::Terminal))
                } else {
                    let session = GameSessionView {
                        game_session_id,
                        character_id: snap.commit.character_id,
                        world_id: snap.commit.world_id,
                        channel_id: snap.commit.channel_id,
                        lease_generation: snap.current_character_lease@.generation,
                        runtime_scope: granted_scope(snap.current_scope_generation),
                        connection_generation: snap.current_connection_generation,
                        state: snap.session_state,
                    };
                    (
                        AuthorityView {
                            current: Some(session),
                            current_transport: snap.current_transport,
                            prepared: None,
                            control_loss_pending: None,
                            runtime_scope_reconciliation_pending: false,
                            ..v
                        },
                        Ok(session),
                    )
                },
            }
        },
    }
}

/// The process projection of one GameSession's admission authority.
///
/// Every change of control is first committed by the journal; this value only
/// mirrors what the journal has confirmed, and fails closed when it cannot tell.
pub struct AdmissionAuthority<T: Copy + Eq, J: ReconnectAttemptJournal<T>> {
    current: Option<GameSession>,
    current_transport: Option<T>,
    prepared: Option<PreparedReconnect<T>>,
    control_loss_pending: Option<(T, ConnectionGeneration)>,
    runtime_scope_reconciliation_pending: bool,
    reconnect_attempts: J,
    requests: Ghost<Seq<JournalRequest<T>>>,
    answers: Ghost<Seq<JournalAnswer<T>>>,
}

/// The binding a PREPARE claim or a COMMIT hands to the journal, by value.
pub struct BindingRequest<T> {
    pub predecessor_generation: ConnectionGeneration,
    pub candidate_generation: ConnectionGeneration,
    pub candidate_transport: T,
    pub character_lease: CharacterLeaseView,
    pub scope_generation: ScopeOwnershipGeneration,
}

/// The binding handed over for a commit binding.
pub open spec fn binding_request_of<T>(b: ReconnectCommitBindingView<T>) -> BindingRequest<T> {
    BindingRequest {
        predecessor_generation: b.predecessor_generation,
        candidate_generation: b.candidate_generation,
        candidate_transport: b.candidate_transport,
        character_lease: b.character_lease@,
        scope_generation: b.scope_generation,
    }
}

/// One request the authority hands to its journal, with exactly its arguments.
pub enum JournalRequest<T> {
    CommitFresh { facts: FreshAdmissionFactsView, transport: T },
    MarkControlLoss { game_session_id: GameSessionId, transport: T, generation: ConnectionGeneration },
    TerminateSession { game_session_id: GameSessionId, expected_generation: ConnectionGeneration },
    AdvanceRuntimeScope {
        game_session_id: GameSessionId,
        expected_current: ScopeOwnershipGeneration,
        observed: ScopeOwnershipGeneration,
    },
    Lookup { game_session_id: GameSessionId, attempt: ReconnectAttemptRef },
    ClaimPrepared { game_session_id: GameSessionId, attempt: ReconnectAttemptRef, binding: BindingRequest<T> },
    RetireIfUnseen { game_session_id: GameSessionId, attempt: ReconnectAttemptRef },
    CommitPrepared { game_session_id: GameSessionId, attempt: ReconnectAttemptRef, binding: BindingRequest<T> },
    RetirePrepared {
        game_session_id: GameSessionId,
        attempt: ReconnectAttemptRef,
        candidate_generation: ConnectionGeneration,
    },
    /// The reload of a session's current authority (public facade only).
    LoadSession { game_session_id: GameSessionId },
    /// The atomic read of a session's authority together with one attempt
    /// (public facade only; there the lookup of an attempt is this read too).
    ReconcileAttempt { game_session_id: GameSessionId, attempt: ReconnectAttemptRef },
}

pub open spec fn optional_session_view(s: Option<GameSession>) -> Option<GameSessionView> {
    match s {
        Some(s) => Some(s@),
        None => None,
    }
}

spec fn optional_prepared_view<T: Copy + Eq>(p: Option<PreparedReconnect<T>>) -> Option<PreparedReconnectView<T>> {
    match p {
        Some(p) => Some(p.spec_view()),
        None => None,
    }
}

impl<T: Copy + Eq, J: ReconnectAttemptJournal<T>> View for AdmissionAuthority<T, J> {
    type V = AuthorityView<T, J>;

    closed spec fn view(&self) -> AuthorityView<T, J> {
        AuthorityView {
            current: optional_session_view(self.current),
            current_transport: self.current_transport,
            prepared: optional_prepared_view(self.prepared),
            control_loss_pending: self.control_loss_pending,
            runtime_scope_reconciliation_pending: self.runtime_scope_reconciliation_pending,
            journal: self.reconnect_attempts,
        }
    }
}

/// An authority with no session, nothing prepared and nothing pending.
pub open spec fn empty_authority<T, J>(journal: J) -> AuthorityView<T, J> {
    AuthorityView {
        current: None,
        current_transport: None,
        prepared: None,
        control_loss_pending: None,
        runtime_scope_reconciliation_pending: false,
        journal,
    }
}

impl<T: Copy + Eq, J: ReconnectAttemptJournal<T> + Default> Default for AdmissionAuthority<T, J> {
    fn default() -> (r: Self)
        ensures
            r@.current is None && r@.current_transport is None && r@.prepared is None
                && r@.control_loss_pending is None && !r@.runtime_scope_reconciliation_pending,
    {
        Self::new(J::default())
    }
}

impl<T: Copy + Eq, J: ReconnectAttemptJournal<T>> AdmissionAuthority<T, J> {
    pub fn new(reconnect_attempts: J) -> (r: Self)
        ensures
            r@ == empty_authority::<T, J>(reconnect_attempts),
            r.journal_requests() == Seq::<JournalRequest<T>>::empty(),
            r.journal_answers() == Seq::<JournalAnswer<T>>::empty(),
    {
        Self {
            current: None,
            current_transport: None,
            prepared: None,
            control_loss_pending: None,
            runtime_scope_reconciliation_pending: false,
            reconnect_attempts,
            requests: Ghost(Seq::empty()),
            answers: Ghost(Seq::empty()),
        }
    }

    /// Every request this authority has handed to its journal, in order.
    pub closed spec fn journal_requests(&self) -> Seq<JournalRequest<T>> {
        self.requests@
    }

    /// Every answer this authority's journal returned, in order; the answer at
    /// each position is the one given to the request at that position.
    pub closed spec fn journal_answers(&self) -> Seq<JournalAnswer<T>> {
        self.answers@
    }

    /// Records a request about to be handed to the journal.
    pub(crate) fn record_request(&mut self, request: Ghost<JournalRequest<T>>)
        ensures
            final(self)@ == old(self)@,
            final(self).journal_requests() == old(self).journal_requests().push(request@),
            final(self).journal_answers() == old(self).journal_answers(),
    {
        proof {
            self.requests@ = self.requests@.push(request@);
        }
    }

    /// Records what the journal returned to the request just recorded.
    pub(crate) fn record_answer(&mut self, answer: Ghost<JournalAnswer<T>>)
        ensures
            final(self)@ == old(self)@,
            final(self).journal_requests() == old(self).journal_requests(),
            final(self).journal_answers() == old(self).journal_answers().push(answer@),
    {
        proof {
            self.answers@ = self.answers@.push(answer@);
        }
    }

    pub fn current(&self) -> (r: Option<&GameSession>)
        ensures
            r is None <==> self@.current is None,
            r matches Some(s) ==> self@.current == Some(s@),
    {
        self.current.as_ref()
    }

    /// This authority keeps no history of consumed fresh-admission grants: the
    /// journal alone decides replay.
    pub fn retained_fresh_identity_history(&self) -> (r: usize)
        ensures
            r == 0,
    {
        0
    }

    pub fn current_transport(&self) -> (r: Option<T>)
        ensures
            r == self@.current_transport,
    {
        self.current_transport
    }

    /// Accepts one runtime input under the current session's RuntimeScope
    /// fence at exactly `generation`, and returns its stamp.
    pub fn accept_runtime_input(&mut self, generation: ScopeOwnershipGeneration) -> (r: Result<crate::ids::RuntimeStamp, AdmissionError>)
        ensures
            final(self).journal_requests() == old(self).journal_requests(),
            final(self).journal_answers() == old(self).journal_answers(),
            match old(self)@.current {
                None => r == Err::<crate::ids::RuntimeStamp, AdmissionError>(AdmissionError::Terminal) && final(self)@ == old(self)@,
                Some(s) => {
                    let f = s.runtime_scope;
                    if f.valid && generation == f.generation && f.accepted_inputs < u64::MAX {
                        &&& r == Ok::<crate::ids::RuntimeStamp, AdmissionError>(
                            crate::ids::RuntimeStamp { generation, ordinal: f.accepted_inputs },
                        )
                        &&& final(self)@ == (AuthorityView {
                            current: Some(
                                GameSessionView {
                                    runtime_scope: crate::ids::ScopeRuntimeFenceView {
                                        accepted_inputs: (f.accepted_inputs + 1) as u64,
                                        ..f
                                    },
                                    ..s
                                },
                            ),
                            ..old(self)@
                        })
                    } else {
                        r == Err::<crate::ids::RuntimeStamp, AdmissionError>(AdmissionError::StaleRuntime) && final(self)@ == old(self)@
                    }
                },
            },
    {
        match &mut self.current {
            None => Err(AdmissionError::Terminal),
            Some(s) => match s.runtime_scope.accept_input(generation) {
                Ok(ordinal) => Ok(s.runtime_scope.stamp(ordinal)),
                Err(_) => Err(AdmissionError::StaleRuntime),
            },
        }
    }

    /// The journal that holds this session's durable authority.
    pub fn journal(&self) -> (r: &J)
        ensures
            *r == self@.journal,
    {
        &self.reconnect_attempts
    }

    /// The PREPARED candidate, if any: its attempt, transport and generation.
    pub fn prepared_reconnect_projection(&self) -> (r: Option<(ReconnectAttemptRef, T, ConnectionGeneration)>)
        ensures
            r == (match self@.prepared {
                Some(p) => Some((p.attempt, p.candidate_transport, p.candidate)),
                None => None,
            }),
    {
        match self.prepared {
            Some(prepared) => Some((prepared.attempt, prepared.candidate_transport, prepared.candidate)),
            None => None,
        }
    }

    /// Drops the whole process projection; it must be rebuilt from durable
    /// authority before it may act again.
    pub fn clear_process_projection(&mut self)
        ensures
            final(self).journal_requests() == old(self).journal_requests(),
            final(self).journal_answers() == old(self).journal_answers(),
            final(self)@ == old(self)@.cleared(),
    {
        if let Some(session) = &mut self.current {
            session.runtime_scope.invalidate();
        }
        self.current = None;
        self.current_transport = None;
        self.prepared = None;
        self.control_loss_pending = None;
        self.runtime_scope_reconciliation_pending = false;
    }

    fn retire_prepared_candidate(&mut self) -> (r: (Result<(), AdmissionError>, Ghost<Result<(), AdmissionError>>))
        ensures
            final(self).journal_requests() == old(self).journal_requests() + retire_requests(old(self)@),
            final(self).journal_answers() == old(self).journal_answers() + answers_for(
                retire_requests(old(self)@),
                (JournalAnswers { retire_prepared: r.1@, ..unanswered() }),
            ),
            spec_retire_prepared(old(self)@, r.1@) == (final(self)@, r.0),
    {
        let prepared = match self.prepared {
            None => return (Ok(()), Ghost(Ok(()))),
            Some(p) => p,
        };
        let game_session_id = match &self.current {
            None => return (Err(AdmissionError::Terminal), Ghost(Ok(()))),
            Some(s) => s.game_session_id,
        };
        let retired = self.journal_retire_prepared(game_session_id, prepared.attempt, prepared.candidate);
        match retired {
            Err(e) => (Err(e), Ghost(retired)),
            Ok(()) => {
                self.prepared = None;
                (Ok(()), Ghost(retired))
            },
        }
    }
}

impl<T: Copy + Eq, J: ReconnectAttemptJournal<T>> AdmissionAuthority<T, J> {
    fn journal_commit_fresh<F>(&mut self, facts: FreshAdmissionFacts, transport: T, issue_game_session_id: F) -> (r: Result<
        FreshAdmissionAuthoritySnapshot<T>,
        AdmissionError,
    >) where F: FnOnce() -> Result<GameSessionId, AdmissionError>
        ensures
            final(self)@ == old(self)@,
            final(self).journal_requests() == old(self).journal_requests().push(
                JournalRequest::CommitFresh { facts: facts@, transport },
            ),
            final(self).journal_answers() == old(self).journal_answers().push(JournalAnswer::CommitFresh((match r { Ok(snap) => Ok(snap@), Err(e) => Err(e) }))),
    {
        self.record_request(Ghost(JournalRequest::CommitFresh { facts: facts@, transport }));
        let r = self.reconnect_attempts.commit_fresh(facts, transport, issue_game_session_id);
        self.record_answer(Ghost(JournalAnswer::CommitFresh(match r { Ok(snap) => Ok(snap@), Err(e) => Err(e) })));
        r
    }

    fn journal_mark_control_loss(&mut self, game_session_id: GameSessionId, transport: T, generation: ConnectionGeneration) -> (r: Result<
        ControlLossDisposition,
        AdmissionError,
    >)
        ensures
            final(self)@ == old(self)@,
            final(self).journal_requests() == old(self).journal_requests().push(
                JournalRequest::MarkControlLoss { game_session_id, transport, generation },
            ),
            final(self).journal_answers() == old(self).journal_answers().push(JournalAnswer::MarkControlLoss(r)),
    {
        self.record_request(Ghost(JournalRequest::MarkControlLoss { game_session_id, transport, generation }));
        let r = self.reconnect_attempts.mark_control_loss(game_session_id, transport, generation);
        self.record_answer(Ghost(JournalAnswer::MarkControlLoss(r)));
        r
    }

    fn journal_terminate_session(&mut self, game_session_id: GameSessionId, expected_generation: ConnectionGeneration) -> (r: Result<
        (),
        AdmissionError,
    >)
        ensures
            final(self)@ == old(self)@,
            final(self).journal_requests() == old(self).journal_requests().push(
                JournalRequest::TerminateSession { game_session_id, expected_generation },
            ),
            final(self).journal_answers() == old(self).journal_answers().push(JournalAnswer::TerminateSession(r)),
    {
        self.record_request(Ghost(JournalRequest::TerminateSession { game_session_id, expected_generation }));
        let r = self.reconnect_attempts.terminate_session(game_session_id, expected_generation);
        self.record_answer(Ghost(JournalAnswer::TerminateSession(r)));
        r
    }

    fn journal_advance_runtime_scope(
        &mut self,
        game_session_id: GameSessionId,
        expected_current: ScopeOwnershipGeneration,
        observed: ScopeOwnershipGeneration,
    ) -> (r: Result<ScopeOwnershipGeneration, AdmissionError>)
        ensures
            final(self)@ == old(self)@,
            final(self).journal_requests() == old(self).journal_requests().push(
                JournalRequest::AdvanceRuntimeScope { game_session_id, expected_current, observed },
            ),
            final(self).journal_answers() == old(self).journal_answers().push(JournalAnswer::AdvanceRuntimeScope(r)),
    {
        self.record_request(Ghost(JournalRequest::AdvanceRuntimeScope { game_session_id, expected_current, observed }));
        let r = self.reconnect_attempts.advance_runtime_scope(game_session_id, expected_current, observed);
        self.record_answer(Ghost(JournalAnswer::AdvanceRuntimeScope(r)));
        r
    }

    fn journal_lookup(&mut self, game_session_id: GameSessionId, attempt: ReconnectAttemptRef) -> (r: Result<
        Option<ReconnectAttemptDisposition>,
        AdmissionError,
    >)
        ensures
            final(self)@ == old(self)@,
            final(self).journal_requests() == old(self).journal_requests().push(
                JournalRequest::Lookup { game_session_id, attempt },
            ),
            final(self).journal_answers() == old(self).journal_answers().push(JournalAnswer::Lookup(r)),
    {
        self.record_request(Ghost(JournalRequest::Lookup { game_session_id, attempt }));
        let r = self.reconnect_attempts.lookup(game_session_id, attempt);
        self.record_answer(Ghost(JournalAnswer::Lookup(r)));
        r
    }

    fn journal_claim_prepared(&mut self, game_session_id: GameSessionId, attempt: ReconnectAttemptRef, binding: ReconnectCommitBinding<T>) -> (r: Result<
        ReconnectAttemptClaim,
        AdmissionError,
    >)
        ensures
            final(self)@ == old(self)@,
            final(self).journal_requests() == old(self).journal_requests().push(
                JournalRequest::ClaimPrepared { game_session_id, attempt, binding: binding_request_of(binding@) },
            ),
            final(self).journal_answers() == old(self).journal_answers().push(JournalAnswer::ClaimPrepared(r)),
    {
        self.record_request(Ghost(JournalRequest::ClaimPrepared { game_session_id, attempt, binding: binding_request_of(binding@) }));
        let r = self.reconnect_attempts.claim_prepared(game_session_id, attempt, binding);
        self.record_answer(Ghost(JournalAnswer::ClaimPrepared(r)));
        r
    }

    fn journal_retire_if_unseen(&mut self, game_session_id: GameSessionId, attempt: ReconnectAttemptRef) -> (r: Result<
        ReconnectAttemptDisposition,
        AdmissionError,
    >)
        ensures
            final(self)@ == old(self)@,
            final(self).journal_requests() == old(self).journal_requests().push(
                JournalRequest::RetireIfUnseen { game_session_id, attempt },
            ),
            final(self).journal_answers() == old(self).journal_answers().push(JournalAnswer::RetireIfUnseen(r)),
    {
        self.record_request(Ghost(JournalRequest::RetireIfUnseen { game_session_id, attempt }));
        let r = self.reconnect_attempts.retire_if_unseen(game_session_id, attempt);
        self.record_answer(Ghost(JournalAnswer::RetireIfUnseen(r)));
        r
    }

    fn journal_commit_prepared(&mut self, game_session_id: GameSessionId, attempt: ReconnectAttemptRef, binding: ReconnectCommitBinding<T>) -> (r: Result<
        (),
        AdmissionError,
    >)
        ensures
            final(self)@ == old(self)@,
            final(self).journal_requests() == old(self).journal_requests().push(
                JournalRequest::CommitPrepared { game_session_id, attempt, binding: binding_request_of(binding@) },
            ),
            final(self).journal_answers() == old(self).journal_answers().push(JournalAnswer::CommitPrepared(r)),
    {
        self.record_request(Ghost(JournalRequest::CommitPrepared { game_session_id, attempt, binding: binding_request_of(binding@) }));
        let r = self.reconnect_attempts.commit_prepared(game_session_id, attempt, binding);
        self.record_answer(Ghost(JournalAnswer::CommitPrepared(r)));
        r
    }

    fn journal_retire_prepared(&mut self, game_session_id: GameSessionId, attempt: ReconnectAttemptRef, candidate_generation: ConnectionGeneration) -> (r: Result<
        (),
        AdmissionError,
    >)
        ensures
            final(self)@ == old(self)@,
            final(self).journal_requests() == old(self).journal_requests().push(
                JournalRequest::RetirePrepared { game_session_id, attempt, candidate_generation },
            ),
            final(self).journal_answers() == old(self).journal_answers().push(JournalAnswer::RetirePrepared(r)),
    {
        self.record_request(Ghost(JournalRequest::RetirePrepared { game_session_id, attempt, candidate_generation }));
        let r = self.reconnect_attempts.retire_prepared(game_session_id, attempt, candidate_generation);
        self.record_answer(Ghost(JournalAnswer::RetirePrepared(r)));
        r
    }
}

impl<T: Copy + Eq, J: ReconnectAttemptJournal<T>> AdmissionAuthority<T, J> {
    pub(crate) fn commit_fresh_step<F>(
        &mut self,
        facts: FreshAdmissionFacts,
        authenticated_transport: T,
        issue_game_session_id: F,
    ) -> (r: (
        Result<(), AdmissionError>,
        Ghost<(Result<(), AdmissionError>, Result<FreshAdmissionAuthoritySnapshotView<T>, AdmissionError>)>,
    )) where F: FnOnce() -> Result<GameSessionId, AdmissionError>
        requires
            obeys_concrete_eq::<T>(),
        ensures
            final(self).journal_requests() == old(self).journal_requests() + commit_fresh_requests(old(self)@, facts@, authenticated_transport, r.1@.0),
            final(self).journal_answers() == old(self).journal_answers() + answers_for(
                commit_fresh_requests(old(self)@, facts@, authenticated_transport, r.1@.0),
                (JournalAnswers { retire_prepared: r.1@.0, commit_fresh: r.1@.1, ..unanswered() }),
            ),
            ({
                let (post, res) = spec_commit_fresh(
                    old(self)@,
                    facts@,
                    authenticated_transport,
                    r.1@.0,
                    r.1@.1,
                );
                &&& post == final(self)@
                &&& res == (match r.0 {
                    Ok(()) => Ok(final(self)@.current.unwrap()),
                    Err(e) => Err(e),
                })
                &&& r.0 is Ok ==> final(self)@.current is Some
            }),
    {
        let ghost no_retire: Result<(), AdmissionError> = Ok(());
        let ghost no_fresh: Result<FreshAdmissionAuthoritySnapshotView<T>, AdmissionError> = Err(
            AdmissionError::InvalidFacts,
        );
        let incumbent = match &self.current {
            Some(s) => s.state != GameSessionState::Terminal,
            None => false,
        };
        if incumbent {
            return (Err(AdmissionError::IncumbentHealthy), Ghost((no_retire, no_fresh)));
        }
        if ScopeOwnershipGeneration::new(facts.scope_ownership_generation).is_err() {
            return (Err(AdmissionError::InvalidFacts), Ghost((no_retire, no_fresh)));
        }
        let (retired, Ghost(retire_answer)) = self.retire_prepared_candidate();
        if let Err(e) = retired {
            return (Err(e), Ghost((retire_answer, no_fresh)));
        }
        // The same trusted GameSession authority that owns control-loss and
        // reconnect COMMIT also owns fresh admission. The returned snapshot is
        // the authoritative committed/reconciled result; local fields below are
        // only a process projection.
        let fresh = self.journal_commit_fresh(facts, authenticated_transport, issue_game_session_id);
        let ghost fresh_answer: Result<FreshAdmissionAuthoritySnapshotView<T>, AdmissionError> =
            match fresh {
            Ok(snap) => Ok(snap@),
            Err(e) => Err(e),
        };
        let authority_snapshot = match fresh {
            Err(e) => return (Err(e), Ghost((retire_answer, fresh_answer))),
            Ok(snap) => snap,
        };
        let committed = authority_snapshot.commit();
        if !committed.matches_facts(facts) {
            return (Err(AdmissionError::InvalidFacts), Ghost((retire_answer, fresh_answer)));
        }
        if !same_transport(committed.initial_transport(), authenticated_transport)
            || authority_snapshot.session_state() != GameSessionState::Active
            || authority_snapshot.current_connection_generation()
            != committed.connection_generation() || !is_transport(
            authority_snapshot.current_transport(),
            authenticated_transport,
        ) {
            return (Err(AdmissionError::GrantReplayed), Ghost((retire_answer, fresh_answer)));
        }
        let replays_terminal = match &self.current {
            Some(session) => session.state == GameSessionState::Terminal && session.game_session_id
                == committed.game_session_id(),
            None => false,
        };
        if replays_terminal {
            return (Err(AdmissionError::GrantReplayed), Ghost((retire_answer, fresh_answer)));
        }
        let runtime_generation = match ScopeOwnershipGeneration::new(
            committed.scope_ownership_generation(),
        ) {
            Ok(g) => g,
            Err(_) => return (
                Err(AdmissionError::InvalidFacts),
                Ghost((retire_answer, fresh_answer)),
            ),
        };
        let connection = ConnectionFence::fresh_admission();
        proof {
            let c = authority_snapshot@.commit;
            assert(runtime_generation@ == crate::ids::scope_generation_of(c.scope_ownership_generation)@);
            assert(runtime_generation == crate::ids::scope_generation_of(c.scope_ownership_generation));
            assert(connection@@ == c.connection_generation@);
            assert(connection@ == c.connection_generation);
        }
        self.current_transport = Some(authenticated_transport);
        self.control_loss_pending = None;
        self.runtime_scope_reconciliation_pending = false;
        self.current = Some(
            GameSession {
                game_session_id: committed.game_session_id(),
                character_id: committed.character_id(),
                world_id: committed.world_id(),
                channel_id: committed.channel_id(),
                lease_generation: committed.character_lease_generation(),
                runtime_scope: ScopeRuntimeFence::from_external_grant(runtime_generation),
                connection,
                state: GameSessionState::Active,
            },
        );
        (Ok(()), Ghost((retire_answer, fresh_answer)))
    }

    /// Fresh admission through the journal. On success the projection holds the
    /// committed session as `Active` on `authenticated_transport`.
    pub fn commit_fresh<F>(
        &mut self,
        facts: FreshAdmissionFacts,
        authenticated_transport: T,
        issue_game_session_id: F,
    ) -> (r: Result<&GameSession, AdmissionError>) where
        F: FnOnce() -> Result<GameSessionId, AdmissionError>,
        requires
            obeys_concrete_eq::<T>(),
        ensures
            exists|retired: Result<(), AdmissionError>, fresh: Result<FreshAdmissionAuthoritySnapshotView<T>, AdmissionError>|
                #[trigger] spec_commit_fresh(old(self)@, facts@, authenticated_transport, retired, fresh)
                    == (final(self)@, session_result_view(r))
                && final(self).journal_requests() == old(self).journal_requests()
                    + commit_fresh_requests(old(self)@, facts@, authenticated_transport, retired)
                && final(self).journal_answers() == old(self).journal_answers() + answers_for(
                    commit_fresh_requests(old(self)@, facts@, authenticated_transport, retired),
                    (JournalAnswers { retire_prepared: retired, commit_fresh: fresh, ..unanswered() }),
                ),
    {
        let (r, Ghost(answers)) = self.commit_fresh_step(facts, authenticated_transport, issue_game_session_id);
        let result = match r {
            Err(e) => Err(e),
            Ok(()) => match self.current.as_ref() {
                Some(s) => Ok(s),
                None => Err(AdmissionError::InvalidFacts),
            },
        };
        assert(spec_commit_fresh(old(self)@, facts@, authenticated_transport, answers.0, answers.1)
            == (self@, session_result_view(result)) && self.journal_requests() == old(self).journal_requests()
            + commit_fresh_requests(old(self)@, facts@, authenticated_transport, answers.0)
            && self.journal_answers() == old(self).journal_answers() + answers_for(
                commit_fresh_requests(old(self)@, facts@, authenticated_transport, answers.0),
                (JournalAnswers { retire_prepared: answers.0, commit_fresh: answers.1, ..unanswered() }),
            ));
        result
    }

    fn terminate_step(&mut self) -> (r: (Result<(), AdmissionError>, Ghost<Result<(), AdmissionError>>))
        ensures
            final(self).journal_requests() == old(self).journal_requests() + terminate_requests(old(self)@),
            spec_terminate(old(self)@, r.1@) == (final(self)@, r.0),
            final(self).journal_answers() == old(self).journal_answers() + answers_for(
                terminate_requests(old(self)@),
                (JournalAnswers { terminate_session: r.1@, ..unanswered() }),
            ),
    {
        let (game_session_id, generation) = match &self.current {
            None => return (Err(AdmissionError::Terminal), Ghost(Ok(()))),
            Some(s) => (s.game_session_id, s.connection_generation()),
        };
        let terminated = self.journal_terminate_session(game_session_id, generation);
        let result = match terminated {
            Ok(()) => Ok(()),
            Err(AdmissionError::ReconciliationUnavailable) => Err(
                AdmissionError::ReconciliationUnavailable,
            ),
            Err(error) => return (Err(error), Ghost(terminated)),
        };
        if let Some(s) = &mut self.current {
            s.state = GameSessionState::Terminal;
        }
        self.prepared = None;
        self.current_transport = None;
        self.control_loss_pending = None;
        self.runtime_scope_reconciliation_pending = false;
        (result, Ghost(terminated))
    }

    /// Makes the current session terminal. A journal whose outcome is unknown
    /// still fences the session locally and reports `ReconciliationUnavailable`.
    pub fn terminate_current(&mut self) -> (r: Result<(), AdmissionError>)
        ensures
            exists|terminated: Result<(), AdmissionError>|
                #[trigger] spec_terminate(old(self)@, terminated) == (final(self)@, r)
                && final(self).journal_answers() == old(self).journal_answers() + answers_for(
                    terminate_requests(old(self)@),
                    (JournalAnswers { terminate_session: terminated, ..unanswered() }),
                ),
            final(self).journal_requests() == old(self).journal_requests() + terminate_requests(old(self)@),
    {
        let (r, Ghost(answer)) = self.terminate_step();
        assert(spec_terminate(old(self)@, answer) == (self@, r) && self.journal_answers() == old(self).journal_answers()
            + answers_for(terminate_requests(old(self)@), (JournalAnswers { terminate_session: answer, ..unanswered() })));
        r
    }

    fn control_loss_step(&mut self, observed_transport: T, observed_generation: ConnectionGeneration) -> (r: (
        Result<ControlLossDisposition, AdmissionError>,
        Ghost<Result<ControlLossDisposition, AdmissionError>>,
    ))
        requires
            obeys_concrete_eq::<T>(),
        ensures
            final(self).journal_requests() == old(self).journal_requests() + control_loss_requests(old(self)@, observed_transport, observed_generation),
            final(self).journal_answers() == old(self).journal_answers() + answers_for(
                control_loss_requests(old(self)@, observed_transport, observed_generation),
                (JournalAnswers { mark_control_loss: r.1@, ..unanswered() }),
            ),
            spec_mark_control_loss(old(self)@, observed_transport, observed_generation, r.1@) == (
            final(self)@, r.0),
    {
        let ghost unasked: Result<ControlLossDisposition, AdmissionError> = Ok(
            ControlLossDisposition::Applied,
        );
        let (game_session_id, generation) = match &self.current {
            None => return (Err(AdmissionError::Terminal), Ghost(unasked)),
            Some(s) => {
                if s.state == GameSessionState::Terminal {
                    return (Err(AdmissionError::Terminal), Ghost(unasked));
                }
                (s.game_session_id, s.connection_generation())
            },
        };
        let pending_is_observed = match self.control_loss_pending {
            Some((pending_transport, pending_generation)) => {
                if !same_transport(pending_transport, observed_transport) || pending_generation
                    != observed_generation {
                    return (Err(AdmissionError::ReconciliationUnavailable), Ghost(unasked));
                }
                true
            },
            None => {
                if !is_transport(self.current_transport, observed_transport) || generation
                    != observed_generation {
                    return (Ok(ControlLossDisposition::StaleIgnored), Ghost(unasked));
                }
                false
            },
        };
        let marked = self.journal_mark_control_loss(game_session_id, observed_transport, observed_generation);
        match marked {
            Ok(ControlLossDisposition::Applied) => {
                if let Some(s) = &mut self.current {
                    s.state = GameSessionState::Reconnectable;
                }
                self.prepared = None;
                self.current_transport = None;
                self.control_loss_pending = None;
                (Ok(ControlLossDisposition::Applied), Ghost(marked))
            },
            Ok(ControlLossDisposition::StaleIgnored) => {
                if pending_is_observed {
                    (Err(AdmissionError::ReconciliationUnavailable), Ghost(marked))
                } else {
                    (Ok(ControlLossDisposition::StaleIgnored), Ghost(marked))
                }
            },
            Err(AdmissionError::ReconciliationUnavailable) => {
                // The durable outcome is unknown. Fence local controller authority
                // immediately and retain the exact operation identity for retry.
                self.current_transport = None;
                self.prepared = None;
                self.control_loss_pending = Some((observed_transport, observed_generation));
                (Err(AdmissionError::ReconciliationUnavailable), Ghost(marked))
            },
            Err(error) => (Err(error), Ghost(marked)),
        }
    }

    /// Unexpected loss of the controlling transport. Only the exact current
    /// transport and generation can apply it.
    pub fn mark_unexpected_control_loss(
        &mut self,
        observed_transport: T,
        observed_generation: ConnectionGeneration,
    ) -> (r: Result<ControlLossDisposition, AdmissionError>)
        requires
            obeys_concrete_eq::<T>(),
        ensures
            exists|marked: Result<ControlLossDisposition, AdmissionError>|
                #[trigger] spec_mark_control_loss(
                    old(self)@,
                    observed_transport,
                    observed_generation,
                    marked,
                ) == (final(self)@, r) && final(self).journal_answers() == old(self).journal_answers() + answers_for(
                    control_loss_requests(old(self)@, observed_transport, observed_generation),
                    (JournalAnswers { mark_control_loss: marked, ..unanswered() }),
                ),
            final(self).journal_requests() == old(self).journal_requests()
                + control_loss_requests(old(self)@, observed_transport, observed_generation),
    {
        let (r, Ghost(answer)) = self.control_loss_step(observed_transport, observed_generation);
        assert(spec_mark_control_loss(old(self)@, observed_transport, observed_generation, answer)
            == (self@, r) && self.journal_answers() == old(self).journal_answers() + answers_for(
            control_loss_requests(old(self)@, observed_transport, observed_generation),
            (JournalAnswers { mark_control_loss: answer, ..unanswered() }),
        ));
        r
    }

    fn invalidate_runtime(&mut self)
        ensures
            final(self).journal_requests() == old(self).journal_requests(),
            final(self).journal_answers() == old(self).journal_answers(),
            final(self)@ == runtime_invalidated(old(self)@),
    {
        if let Some(s) = &mut self.current {
            s.runtime_scope.invalidate();
        }
        self.prepared = None;
        self.runtime_scope_reconciliation_pending = true;
    }

    fn observe_runtime_step(&mut self, generation: u64) -> (r: (
        Result<(), AdmissionError>,
        Ghost<Result<ScopeOwnershipGeneration, AdmissionError>>,
    ))
        ensures
            final(self).journal_requests() == old(self).journal_requests() + observe_runtime_requests(old(self)@, generation),
            spec_observe_runtime(old(self)@, generation, r.1@) == (final(self)@, r.0),
            final(self).journal_answers() == old(self).journal_answers() + answers_for(
                observe_runtime_requests(old(self)@, generation),
                (JournalAnswers { advance_runtime_scope: r.1@, ..unanswered() }),
            ),
    {
        let ghost unasked: Result<ScopeOwnershipGeneration, AdmissionError> = Err(
            AdmissionError::InvalidFacts,
        );
        let observed = match ScopeOwnershipGeneration::new(generation) {
            Ok(g) => g,
            Err(_) => return (Err(AdmissionError::InvalidFacts), Ghost(unasked)),
        };
        proof {
            assert(observed@ == crate::ids::scope_generation_of(generation)@);
            assert(observed == crate::ids::scope_generation_of(generation));
        }
        let (game_session_id, local_current) = match &self.current {
            None => return (Err(AdmissionError::Terminal), Ghost(unasked)),
            Some(s) => {
                if s.state == GameSessionState::Terminal {
                    return (Err(AdmissionError::Terminal), Ghost(unasked));
                }
                (s.game_session_id, s.runtime_scope.generation())
            },
        };
        if observed.get() < local_current.get() {
            return (Err(AdmissionError::StaleRuntime), Ghost(unasked));
        }
        let advanced = self.journal_advance_runtime_scope(game_session_id, local_current, observed);
        let authoritative = match advanced {
            Ok(a) => a,
            Err(error) => {
                self.invalidate_runtime();
                return (Err(error), Ghost(advanced));
            },
        };
        if authoritative.get() < local_current.get() {
            self.invalidate_runtime();
            return (Err(AdmissionError::ReconciliationUnavailable), Ghost(advanced));
        }
        if authoritative.get() == local_current.get() {
            if self.runtime_scope_reconciliation_pending {
                return (Err(AdmissionError::ReconciliationUnavailable), Ghost(advanced));
            }
            return (Ok(()), Ghost(advanced));
        }
        if let Some(s) = &mut self.current {
            if s.runtime_scope.apply_external_grant(authoritative).is_err() {
                return (Err(AdmissionError::StaleRuntime), Ghost(advanced));
            }
        }
        self.prepared = None;
        self.runtime_scope_reconciliation_pending = false;
        (Ok(()), Ghost(advanced))
    }

    /// A RuntimeScope ownership generation observed for the current session.
    /// The local generation never moves backwards; any doubt about the
    /// authoritative generation invalidates the local fence.
    pub fn observe_runtime_ownership_generation(&mut self, generation: u64) -> (r: Result<(), AdmissionError>)
        ensures
            exists|advanced: Result<ScopeOwnershipGeneration, AdmissionError>|
                #[trigger] spec_observe_runtime(old(self)@, generation, advanced) == (final(self)@, r)
                && final(self).journal_answers() == old(self).journal_answers() + answers_for(
                    observe_runtime_requests(old(self)@, generation),
                    (JournalAnswers { advance_runtime_scope: advanced, ..unanswered() }),
                ),
            final(self).journal_requests() == old(self).journal_requests() + observe_runtime_requests(old(self)@, generation),
    {
        let (r, Ghost(answer)) = self.observe_runtime_step(generation);
        assert(spec_observe_runtime(old(self)@, generation, answer) == (self@, r) && self.journal_answers()
            == old(self).journal_answers() + answers_for(
            observe_runtime_requests(old(self)@, generation),
            (JournalAnswers { advance_runtime_scope: answer, ..unanswered() }),
        ));
        r
    }
}


impl<T: Copy + Eq, J: ReconnectAttemptJournal<T>> AdmissionAuthority<T, J> {
    fn reconcile_known_disposition(&self, disposition: ReconnectAttemptDisposition, candidate_transport: T) -> (r: Result<ConnectionGeneration, AdmissionError>)
        requires
            obeys_concrete_eq::<T>(),
        ensures
            r == spec_reconcile_known(self@, disposition, candidate_transport),
    {
        let s = match &self.current {
            None => return Err(AdmissionError::Terminal),
            Some(s) => s,
        };
        if s.state == GameSessionState::Terminal {
            return Err(AdmissionError::Terminal);
        }
        match disposition {
            ReconnectAttemptDisposition::TerminallySuperseded => Err(AdmissionError::StaleConnection),
            ReconnectAttemptDisposition::Prepared { .. } => Err(AdmissionError::ReconciliationUnavailable),
            ReconnectAttemptDisposition::Committed { generation } => {
                if !is_transport(self.current_transport, candidate_transport)
                    || s.connection_generation() != generation {
                    return Err(AdmissionError::StaleConnection);
                }
                Ok(generation)
            },
        }
    }

    fn reconcile_attempt(&mut self, attempt: ReconnectAttemptRef, candidate_transport: T) -> (r: (
        Result<Option<ConnectionGeneration>, AdmissionError>,
        Ghost<Result<Option<ReconnectAttemptDisposition>, AdmissionError>>,
    ))
        requires
            obeys_concrete_eq::<T>(),
        ensures
            final(self)@ == old(self)@,
            final(self).journal_requests() == old(self).journal_requests() + lookup_requests(old(self)@, attempt),
            r.0 == spec_reconcile_attempt(old(self)@, candidate_transport, r.1@),
            final(self).journal_answers() == old(self).journal_answers() + answers_for(
                lookup_requests(old(self)@, attempt),
                (JournalAnswers { lookup: r.1@, ..unanswered() }),
            ),
    {
        let ghost unasked: Result<Option<ReconnectAttemptDisposition>, AdmissionError> = Ok(None);
        let game_session_id = match &self.current {
            None => return (Err(AdmissionError::Terminal), Ghost(unasked)),
            Some(s) => {
                if s.state == GameSessionState::Terminal {
                    return (Err(AdmissionError::Terminal), Ghost(unasked));
                }
                s.game_session_id
            },
        };
        let looked_up = self.journal_lookup(game_session_id, attempt);
        match looked_up {
            Err(e) => (Err(e), Ghost(looked_up)),
            Ok(None) => (Ok(None), Ghost(looked_up)),
            Ok(Some(disposition)) => match self.reconcile_known_disposition(disposition, candidate_transport) {
                Ok(g) => (Ok(Some(g)), Ghost(looked_up)),
                Err(e) => (Err(e), Ghost(looked_up)),
            },
        }
    }

    pub(crate) fn prepare_step(
        &mut self,
        attempt: ReconnectAttemptRef,
        predecessor: ConnectionGeneration,
        candidate_transport: T,
        lease: u64,
        scope: u64,
    ) -> (r: (
        Result<ConnectionGeneration, AdmissionError>,
        Ghost<(
            Result<Option<ReconnectAttemptDisposition>, AdmissionError>,
            Result<ReconnectAttemptDisposition, AdmissionError>,
            Result<ReconnectAttemptClaim, AdmissionError>,
        )>,
    ))
        requires
            obeys_concrete_eq::<T>(),
        ensures
            final(self).journal_requests() == old(self).journal_requests() + prepare_requests(old(self)@, attempt, predecessor, candidate_transport, lease, scope, r.1@.0),
            final(self).journal_answers() == old(self).journal_answers() + answers_for(
                prepare_requests(old(self)@, attempt, predecessor, candidate_transport, lease, scope, r.1@.0),
                (JournalAnswers { lookup: r.1@.0, retire_if_unseen: r.1@.1, claim_prepared: r.1@.2, ..unanswered() }),
            ),
            spec_prepare_reconnect(
                old(self)@,
                attempt,
                predecessor,
                candidate_transport,
                lease,
                scope,
                r.1@.0,
                r.1@.1,
                r.1@.2,
            ) == (final(self)@, r.0),
    {
        let ghost no_lookup: Result<Option<ReconnectAttemptDisposition>, AdmissionError> = Ok(None);
        let ghost no_retire: Result<ReconnectAttemptDisposition, AdmissionError> = Err(
            AdmissionError::Terminal,
        );
        let ghost no_claim: Result<ReconnectAttemptClaim, AdmissionError> = Ok(
            ReconnectAttemptClaim::RejectedConcurrent,
        );
        if self.control_loss_pending.is_some() || self.runtime_scope_reconciliation_pending {
            return (Err(AdmissionError::ReconciliationUnavailable), Ghost((no_lookup, no_retire, no_claim)));
        }
        if let Some(existing) = self.prepared {
            if existing.attempt == attempt {
                let r = if same_transport(existing.candidate_transport, candidate_transport) {
                    Ok(existing.candidate)
                } else {
                    Err(AdmissionError::AttemptMismatch)
                };
                return (r, Ghost((no_lookup, no_retire, no_claim)));
            }
            let (reconciled, Ghost(looked_up)) = self.reconcile_attempt(attempt, candidate_transport);
            match reconciled {
                Err(e) => return (Err(e), Ghost((looked_up, no_retire, no_claim))),
                Ok(Some(g)) => return (Ok(g), Ghost((looked_up, no_retire, no_claim))),
                Ok(None) => {},
            }
            let game_session_id = match &self.current {
                None => return (Err(AdmissionError::Terminal), Ghost((looked_up, no_retire, no_claim))),
                Some(s) => s.game_session_id,
            };
            let retired = self.journal_retire_if_unseen(game_session_id, attempt);
            let r = match retired {
                Err(e) => Err(e),
                Ok(d) => self.reconcile_known_disposition(d, candidate_transport),
            };
            return (r, Ghost((looked_up, retired, no_claim)));
        }
        let (reconciled, Ghost(looked_up)) = self.reconcile_attempt(attempt, candidate_transport);
        match reconciled {
            Err(e) => return (Err(e), Ghost((looked_up, no_retire, no_claim))),
            Ok(Some(g)) => return (Ok(g), Ghost((looked_up, no_retire, no_claim))),
            Ok(None) => {},
        }
        let (game_session_id, binding_lease, binding_scope) = match &self.current {
            None => return (Err(AdmissionError::Terminal), Ghost((looked_up, no_retire, no_claim))),
            Some(s) => {
                if s.state == GameSessionState::Active {
                    return (Err(AdmissionError::IncumbentHealthy), Ghost((looked_up, no_retire, no_claim)));
                }
                if predecessor != s.connection_generation() {
                    return (Err(AdmissionError::StaleConnection), Ghost((looked_up, no_retire, no_claim)));
                }
                if lease != s.lease_generation {
                    return (Err(AdmissionError::StaleLease), Ghost((looked_up, no_retire, no_claim)));
                }
                if scope != s.runtime_scope.generation().get() {
                    return (Err(AdmissionError::StaleRuntime), Ghost((looked_up, no_retire, no_claim)));
                }
                (s.game_session_id, s.character_lease(), s.runtime_scope.generation())
            },
        };
        if predecessor.get() == u64::MAX {
            return (Err(AdmissionError::GenerationExhausted), Ghost((looked_up, no_retire, no_claim)));
        }
        let candidate = match ConnectionGeneration::new(predecessor.get() + 1) {
            Ok(g) => g,
            Err(_) => return (Err(AdmissionError::GenerationExhausted), Ghost((looked_up, no_retire, no_claim))),
        };
        proof {
            assert(candidate@ == crate::ids::connection_generation_of((predecessor@ + 1) as u64)@);
        }
        let commit_binding = ReconnectCommitBinding::new(
            predecessor,
            candidate,
            candidate_transport,
            binding_lease,
            binding_scope,
        );
        let claimed = self.journal_claim_prepared(game_session_id, attempt, commit_binding);
        let claim = match claimed {
            Ok(claim) => claim,
            Err(error) => {
                // The journal observed an authority change at the claim
                // linearization point. The older process projection is no longer
                // admissible evidence and must be reconstructed before retry.
                self.clear_process_projection();
                return (Err(error), Ghost((looked_up, no_retire, claimed)));
            },
        };
        match claim {
            ReconnectAttemptClaim::Claimed => {},
            ReconnectAttemptClaim::Existing(disposition) => {
                let reconciled = self.reconcile_known_disposition(disposition, candidate_transport);
                let committed = match disposition {
                    ReconnectAttemptDisposition::Committed { .. } => true,
                    _ => false,
                };
                if committed && reconciled.is_err() {
                    // A peer may have committed this exact attempt after our last
                    // durable read; the reconnectable predecessor projection is stale.
                    self.clear_process_projection();
                }
                return (reconciled, Ghost((looked_up, no_retire, claimed)));
            },
            ReconnectAttemptClaim::RejectedConcurrent => {
                return (Err(AdmissionError::StaleConnection), Ghost((looked_up, no_retire, claimed)));
            },
        }
        self.prepared = Some(
            PreparedReconnect {
                attempt,
                predecessor,
                candidate,
                candidate_transport,
                lease_generation: lease,
                scope_generation: scope,
            },
        );
        (Ok(candidate), Ghost((looked_up, no_retire, claimed)))
    }

    /// PREPARE of a reconnect candidate. It grants no authority: the current
    /// controller and generation are unchanged until COMMIT.
    pub fn prepare_reconnect(
        &mut self,
        attempt: ReconnectAttemptRef,
        predecessor: ConnectionGeneration,
        candidate_transport: T,
        lease: u64,
        scope: u64,
    ) -> (r: Result<ConnectionGeneration, AdmissionError>)
        requires
            obeys_concrete_eq::<T>(),
        ensures
            exists|
                looked_up: Result<Option<ReconnectAttemptDisposition>, AdmissionError>,
                retired: Result<ReconnectAttemptDisposition, AdmissionError>,
                claimed: Result<ReconnectAttemptClaim, AdmissionError>,
            |
                #[trigger] spec_prepare_reconnect(
                    old(self)@,
                    attempt,
                    predecessor,
                    candidate_transport,
                    lease,
                    scope,
                    looked_up,
                    retired,
                    claimed,
                ) == (final(self)@, r) && final(self).journal_requests() == old(self).journal_requests()
                    + prepare_requests(old(self)@, attempt, predecessor, candidate_transport, lease, scope, looked_up)
                && final(self).journal_answers() == old(self).journal_answers() + answers_for(
                    prepare_requests(old(self)@, attempt, predecessor, candidate_transport, lease, scope, looked_up),
                    (JournalAnswers { lookup: looked_up, retire_if_unseen: retired, claim_prepared: claimed, ..unanswered() }),
                ),
    {
        let (r, Ghost(answers)) = self.prepare_step(attempt, predecessor, candidate_transport, lease, scope);
        assert(spec_prepare_reconnect(
            old(self)@,
            attempt,
            predecessor,
            candidate_transport,
            lease,
            scope,
            answers.0,
            answers.1,
            answers.2,
        ) == (self@, r) && self.journal_requests() == old(self).journal_requests()
            + prepare_requests(old(self)@, attempt, predecessor, candidate_transport, lease, scope, answers.0)
            && self.journal_answers() == old(self).journal_answers() + answers_for(
            prepare_requests(old(self)@, attempt, predecessor, candidate_transport, lease, scope, answers.0),
            (JournalAnswers { lookup: answers.0, retire_if_unseen: answers.1, claim_prepared: answers.2, ..unanswered() }),
        ));
        r
    }
}


impl<T: Copy + Eq, J: ReconnectAttemptJournal<T>> AdmissionAuthority<T, J> {
    pub(crate) fn commit_step(&mut self, attempt: ReconnectAttemptRef, candidate_transport: T, lease: u64, scope: u64) -> (r: (
        Result<ConnectionGeneration, AdmissionError>,
        Ghost<(Result<Option<ReconnectAttemptDisposition>, AdmissionError>, Result<(), AdmissionError>)>,
    ))
        requires
            obeys_concrete_eq::<T>(),
        ensures
            final(self).journal_requests() == old(self).journal_requests() + commit_requests(old(self)@, attempt, candidate_transport, lease, scope),
            final(self).journal_answers() == old(self).journal_answers() + answers_for(
                commit_requests(old(self)@, attempt, candidate_transport, lease, scope),
                (JournalAnswers { lookup: r.1@.0, commit_prepared: r.1@.1, ..unanswered() }),
            ),
            spec_commit_reconnect(old(self)@, attempt, candidate_transport, lease, scope, r.1@.0, r.1@.1)
                == (final(self)@, r.0),
    {
        let ghost no_lookup: Result<Option<ReconnectAttemptDisposition>, AdmissionError> = Ok(None);
        let ghost no_commit: Result<(), AdmissionError> = Ok(());
        let prepared = match self.prepared {
            None => {
                let (reconciled, Ghost(looked_up)) = self.reconcile_attempt(attempt, candidate_transport);
                let r = match reconciled {
                    Err(e) => Err(e),
                    Ok(Some(g)) => Ok(g),
                    Ok(None) => Err(AdmissionError::AttemptMismatch),
                };
                return (r, Ghost((looked_up, no_commit)));
            },
            Some(p) => p,
        };
        match &self.current {
            None => return (Err(AdmissionError::Terminal), Ghost((no_lookup, no_commit))),
            Some(s) => {
                if s.state == GameSessionState::Terminal {
                    return (Err(AdmissionError::Terminal), Ghost((no_lookup, no_commit)));
                }
            },
        }
        if prepared.attempt != attempt {
            let (reconciled, Ghost(looked_up)) = self.reconcile_attempt(attempt, candidate_transport);
            let r = match reconciled {
                Err(e) => Err(e),
                Ok(Some(g)) => Ok(g),
                Ok(None) => Err(AdmissionError::AttemptMismatch),
            };
            return (r, Ghost((looked_up, no_commit)));
        }
        if !same_transport(prepared.candidate_transport, candidate_transport) {
            return (Err(AdmissionError::AttemptMismatch), Ghost((no_lookup, no_commit)));
        }
        let (game_session_id, expected_character_lease, expected_scope_generation) = match &self.current {
            None => return (Err(AdmissionError::Terminal), Ghost((no_lookup, no_commit))),
            Some(s) => {
                if s.state != GameSessionState::Reconnectable {
                    return (Err(AdmissionError::SessionNotReconnectable), Ghost((no_lookup, no_commit)));
                }
                if s.connection_generation() != prepared.predecessor {
                    return (Err(AdmissionError::StaleConnection), Ghost((no_lookup, no_commit)));
                }
                if lease != s.lease_generation || lease != prepared.lease_generation {
                    return (Err(AdmissionError::StaleLease), Ghost((no_lookup, no_commit)));
                }
                if scope != s.runtime_scope.generation().get() || scope != prepared.scope_generation {
                    return (Err(AdmissionError::StaleRuntime), Ghost((no_lookup, no_commit)));
                }
                (s.game_session_id, s.character_lease(), s.runtime_scope.generation())
            },
        };
        if prepared.predecessor.get() == u64::MAX {
            return (Err(AdmissionError::GenerationExhausted), Ghost((no_lookup, no_commit)));
        }
        if prepared.candidate.get() != prepared.predecessor.get() + 1 {
            return (Err(AdmissionError::StaleConnection), Ghost((no_lookup, no_commit)));
        }
        let commit_binding = ReconnectCommitBinding::new(
            prepared.predecessor,
            prepared.candidate,
            prepared.candidate_transport,
            expected_character_lease,
            expected_scope_generation,
        );
        let committed = self.journal_commit_prepared(game_session_id, attempt, commit_binding);
        match committed {
            Ok(()) => {},
            Err(error) => {
                if error == AdmissionError::StaleLease || error == AdmissionError::StaleRuntime
                    || error == AdmissionError::StaleConnection || error == AdmissionError::Terminal {
                    self.prepared = None;
                }
                return (Err(error), Ghost((no_lookup, committed)));
            },
        }
        // Every fallible authority check is complete at the journal's
        // linearization point; the local fence update only projects the
        // already-validated strict successor.
        if let Some(s) = &mut self.current {
            s.connection.commit_prevalidated_successor(prepared.candidate);
            s.state = GameSessionState::Active;
        }
        self.prepared = None;
        self.current_transport = Some(candidate_transport);
        self.control_loss_pending = None;
        self.runtime_scope_reconciliation_pending = false;
        (Ok(prepared.candidate), Ghost((no_lookup, committed)))
    }

    /// COMMIT of the PREPARED candidate: on success the candidate generation and
    /// transport replace the predecessor in one step.
    pub fn commit_reconnect(
        &mut self,
        attempt: ReconnectAttemptRef,
        candidate_transport: T,
        lease: u64,
        scope: u64,
    ) -> (r: Result<ConnectionGeneration, AdmissionError>)
        requires
            obeys_concrete_eq::<T>(),
        ensures
            exists|
                looked_up: Result<Option<ReconnectAttemptDisposition>, AdmissionError>,
                committed: Result<(), AdmissionError>,
            |
                #[trigger] spec_commit_reconnect(
                    old(self)@,
                    attempt,
                    candidate_transport,
                    lease,
                    scope,
                    looked_up,
                    committed,
                ) == (final(self)@, r) && final(self).journal_answers() == old(self).journal_answers() + answers_for(
                    commit_requests(old(self)@, attempt, candidate_transport, lease, scope),
                    (JournalAnswers { lookup: looked_up, commit_prepared: committed, ..unanswered() }),
                ),
            final(self).journal_requests() == old(self).journal_requests()
                + commit_requests(old(self)@, attempt, candidate_transport, lease, scope),
    {
        let (r, Ghost(answers)) = self.commit_step(attempt, candidate_transport, lease, scope);
        assert(spec_commit_reconnect(old(self)@, attempt, candidate_transport, lease, scope, answers.0, answers.1)
            == (self@, r) && self.journal_answers() == old(self).journal_answers() + answers_for(
            commit_requests(old(self)@, attempt, candidate_transport, lease, scope),
            (JournalAnswers { lookup: answers.0, commit_prepared: answers.1, ..unanswered() }),
        ));
        r
    }
}


impl<T: Copy + Eq, J: ReconnectAttemptJournal<T>> AdmissionAuthority<T, J> {
    /// Restores a PREPARED candidate that durable reconciliation proved is the
    /// journal's current PREPARED operation for this session.
    pub(crate) fn restore_reconciled_prepared_projection(
        &mut self,
        attempt: ReconnectAttemptRef,
        binding: ReconnectCommitBinding<T>,
    ) -> (r: Result<ConnectionGeneration, AdmissionError>)
        requires
            obeys_concrete_eq::<T>(),
        ensures
            final(self).journal_requests() == old(self).journal_requests(),
            final(self).journal_answers() == old(self).journal_answers(),
            spec_restore_prepared(old(self)@, attempt, binding@) == (final(self)@, r),
    {
        broadcast use lemma_character_lease_view;

        if self.control_loss_pending.is_some() || self.runtime_scope_reconciliation_pending {
            return Err(AdmissionError::ReconciliationUnavailable);
        }
        let session = match &self.current {
            None => return Err(AdmissionError::Terminal),
            Some(s) => s,
        };
        if session.state == GameSessionState::Terminal {
            return Err(AdmissionError::Terminal);
        }
        let predecessor = binding.predecessor_generation();
        if session.state != GameSessionState::Reconnectable || self.current_transport.is_some()
            || session.connection_generation() != predecessor || predecessor.get() == u64::MAX
            || predecessor.get() + 1 != binding.candidate_generation().get() {
            return Err(AdmissionError::StaleConnection);
        }
        if session.character_lease() != binding.character_lease() {
            return Err(AdmissionError::StaleLease);
        }
        if session.runtime_scope_generation() != binding.scope_generation() {
            return Err(AdmissionError::StaleRuntime);
        }
        let prepared = PreparedReconnect {
            attempt,
            predecessor,
            candidate: binding.candidate_generation(),
            candidate_transport: binding.candidate_transport(),
            lease_generation: binding.character_lease().generation(),
            scope_generation: binding.scope_generation().get(),
        };
        match self.prepared {
            Some(current) => {
                if current.attempt == prepared.attempt && current.predecessor == prepared.predecessor
                    && current.candidate == prepared.candidate && same_transport(
                    current.candidate_transport,
                    prepared.candidate_transport,
                ) && current.lease_generation == prepared.lease_generation
                    && current.scope_generation == prepared.scope_generation {
                    Ok(prepared.candidate)
                } else {
                    Err(AdmissionError::ReconciliationUnavailable)
                }
            },
            None => {
                self.prepared = Some(prepared);
                Ok(prepared.candidate)
            },
        }
    }

    fn refresh_step(&mut self, authenticated_transport: T, snapshot: GameSessionAuthoritySnapshot<T>) -> (r: Result<(), AdmissionError>)
        requires
            obeys_concrete_eq::<T>(),
        ensures
            final(self).journal_requests() == old(self).journal_requests(),
            final(self).journal_answers() == old(self).journal_answers(),
            ({
                let (post, res) = spec_refresh_fresh(old(self)@, authenticated_transport, snapshot@);
                &&& post == final(self)@
                &&& res == (match r {
                    Ok(()) => Ok(final(self)@.current.unwrap()),
                    Err(e) => Err(e),
                })
                &&& r is Ok ==> final(self)@.current is Some
            }),
    {
        let committed = snapshot.commit();
        if let Err(e) = validate_current_authority(committed.game_session_id(), snapshot) {
            return Err(e);
        }
        if !same_transport(committed.initial_transport(), authenticated_transport)
            || snapshot.session_state() != GameSessionState::Active
            || snapshot.current_connection_generation() != committed.connection_generation()
            || !is_transport(snapshot.current_transport(), authenticated_transport) {
            self.clear_process_projection();
            return Err(AdmissionError::GrantReplayed);
        }
        let (identity_matches, current_scope) = match &self.current {
            None => return Err(AdmissionError::ReconciliationUnavailable),
            Some(session) => (
                session.game_session_id == committed.game_session_id() && session.character_id
                    == committed.character_id() && session.world_id == committed.world_id()
                    && session.channel_id == committed.channel_id()
                    && session.connection_generation() == snapshot.current_connection_generation(),
                session.runtime_scope.generation(),
            ),
        };
        if !identity_matches {
            self.clear_process_projection();
            return Err(AdmissionError::ReconciliationUnavailable);
        }
        let authoritative_scope = snapshot.current_scope_generation();
        if authoritative_scope.get() < current_scope.get() {
            self.clear_process_projection();
            return Err(AdmissionError::StaleRuntime);
        }
        let lease_generation = snapshot.current_character_lease().generation();
        if let Some(session) = &mut self.current {
            session.lease_generation = lease_generation;
            if authoritative_scope.get() > current_scope.get() {
                let _ = session.runtime_scope.apply_external_grant(authoritative_scope);
            }
            session.state = GameSessionState::Active;
        }
        self.current_transport = Some(authenticated_transport);
        self.prepared = None;
        self.control_loss_pending = None;
        self.runtime_scope_reconciliation_pending = false;
        Ok(())
    }

    /// Re-installs the projection of a fresh admission from a durable snapshot
    /// of the same session, after a lost commit response.
    pub(crate) fn refresh_fresh_projection(&mut self, authenticated_transport: T, snapshot: GameSessionAuthoritySnapshot<T>) -> (r: Result<&GameSession, AdmissionError>)
        requires
            obeys_concrete_eq::<T>(),
        ensures
            final(self).journal_requests() == old(self).journal_requests(),
            final(self).journal_answers() == old(self).journal_answers(),
            spec_refresh_fresh(old(self)@, authenticated_transport, snapshot@) == (final(self)@, session_result_view(r)),
    {
        let r = self.refresh_step(authenticated_transport, snapshot);
        match r {
            Err(e) => Err(e),
            Ok(()) => match self.current.as_ref() {
                Some(s) => Ok(s),
                None => Err(AdmissionError::ReconciliationUnavailable),
            },
        }
    }

    fn install_step(&mut self, game_session_id: GameSessionId, snapshot: GameSessionAuthoritySnapshot<T>) -> (r: Result<(), AdmissionError>)
        ensures
            final(self).journal_requests() == old(self).journal_requests(),
            final(self).journal_answers() == old(self).journal_answers(),
            ({
                let (post, res) = spec_install_rehydrated(old(self)@, game_session_id, snapshot@);
                &&& post == final(self)@
                &&& res == (match r {
                    Ok(()) => Ok(final(self)@.current.unwrap()),
                    Err(e) => Err(e),
                })
                &&& r is Ok ==> final(self)@.current is Some
            }),
    {
        if let Some(current) = &self.current {
            return if current.state == GameSessionState::Terminal {
                Err(AdmissionError::Terminal)
            } else {
                Err(AdmissionError::IncumbentHealthy)
            };
        }
        if self.prepared.is_some() || self.control_loss_pending.is_some()
            || self.runtime_scope_reconciliation_pending {
            return Err(AdmissionError::ReconciliationUnavailable);
        }
        if let Err(e) = validate_current_authority(game_session_id, snapshot) {
            return Err(e);
        }
        if snapshot.session_state() == GameSessionState::Terminal {
            return Err(AdmissionError::Terminal);
        }
        let committed = snapshot.commit();
        let current_lease = snapshot.current_character_lease();
        self.current = Some(
            GameSession {
                game_session_id,
                character_id: committed.character_id(),
                world_id: committed.world_id(),
                channel_id: committed.channel_id(),
                lease_generation: current_lease.generation(),
                runtime_scope: ScopeRuntimeFence::from_external_grant(snapshot.current_scope_generation()),
                connection: ConnectionFence::at(snapshot.current_connection_generation()),
                state: snapshot.session_state(),
            },
        );
        self.current_transport = snapshot.current_transport();
        self.prepared = None;
        self.control_loss_pending = None;
        self.runtime_scope_reconciliation_pending = false;
        Ok(())
    }

    /// Installs the projection of a session rebuilt from durable authority
    /// after process replacement. Only an empty projection accepts it.
    pub(crate) fn install_rehydrated_session(&mut self, game_session_id: GameSessionId, snapshot: GameSessionAuthoritySnapshot<T>) -> (r: Result<&GameSession, AdmissionError>)
        ensures
            final(self).journal_requests() == old(self).journal_requests(),
            final(self).journal_answers() == old(self).journal_answers(),
            spec_install_rehydrated(old(self)@, game_session_id, snapshot@) == (final(self)@, session_result_view(r)),
    {
        let r = self.install_step(game_session_id, snapshot);
        match r {
            Err(e) => Err(e),
            Ok(()) => match self.current.as_ref() {
                Some(s) => Ok(s),
                None => Err(AdmissionError::ReconciliationUnavailable),
            },
        }
    }
}

} // verus!
