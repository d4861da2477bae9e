//! Foundation identifiers and fences shared by admission and recovery.
//!
//! Identifiers are canonical UUIDv7 values decoded from their 16 raw bytes.
//! Generations are non-zero monotone counters; a fence holds the one current
//! generation that may act.
use vstd::prelude::*;

verus! {

/// Rejection of a raw foundation value.
#[derive(Debug, Clone, Copy, PartialEq, Eq, Structural)]
pub enum FoundationValueError {
    /// The bytes are not a canonical UUIDv7 (16 bytes, version 7, RFC variant).
    InvalidIdentifier,
    /// A generation or counter was zero.
    ZeroValue,
}

/// Largest number of commands a client may have outstanding at once.
pub const MAX_OUTSTANDING_COMMANDS: usize = 64;

/// `b` is a canonical UUIDv7: 16 bytes, version nibble 7, variant bits `10`.
pub open spec fn is_uuid_v7(b: Seq<u8>) -> bool {
    &&& b.len() == 16
    &&& b[6] / 16 == 7
    &&& b[8] / 64 == 2
}

/// The big-endian unsigned value of 16 bytes.
pub open spec fn u128_from_be(b: Seq<u8>) -> u128 {
    (b[0] as u128) << 120u128 | (b[1] as u128) << 112u128 | (b[2] as u128) << 104u128 | (
    b[3] as u128) << 96u128 | (b[4] as u128) << 88u128 | (b[5] as u128) << 80u128 | (
    b[6] as u128) << 72u128 | (b[7] as u128) << 64u128 | (b[8] as u128) << 56u128 | (
    b[9] as u128) << 48u128 | (b[10] as u128) << 40u128 | (b[11] as u128) << 32u128 | (
    b[12] as u128) << 24u128 | (b[13] as u128) << 16u128 | (b[14] as u128) << 8u128 | (
    b[15] as u128)
}

fn decode_uuid_v7(input: &[u8]) -> (r: Option<u128>)
    ensures
        r is Some <==> is_uuid_v7(input@),
        r matches Some(v) ==> v == u128_from_be(input@),
{
    if input.len() != 16 || input[6] / 16 != 7 || input[8] / 64 != 2 {
        return None;
    }
    let b = input;
    Some(
        (b[0] as u128) << 120u128 | (b[1] as u128) << 112u128 | (b[2] as u128) << 104u128 | (
        b[3] as u128) << 96u128 | (b[4] as u128) << 88u128 | (b[5] as u128) << 80u128 | (
        b[6] as u128) << 72u128 | (b[7] as u128) << 64u128 | (b[8] as u128) << 56u128 | (
        b[9] as u128) << 48u128 | (b[10] as u128) << 40u128 | (b[11] as u128) << 32u128 | (
        b[12] as u128) << 24u128 | (b[13] as u128) << 16u128 | (b[14] as u128) << 8u128 | (
        b[15] as u128),
    )
}

/// Identity of one GameSession. Never reused once issued.
#[derive(Debug, Clone, Copy, PartialEq, Eq, Structural, Hash, PartialOrd, Ord)]
pub struct GameSessionId(u128);

/// Identity of one character.
#[derive(Debug, Clone, Copy, PartialEq, Eq, Structural, Hash, PartialOrd, Ord)]
pub struct CharacterId(u128);

/// Identity of one world.
#[derive(Debug, Clone, Copy, PartialEq, Eq, Structural, Hash, PartialOrd, Ord)]
pub struct WorldId(u128);

/// Identity of one channel inside a world.
#[derive(Debug, Clone, Copy, PartialEq, Eq, Structural, Hash, PartialOrd, Ord)]
pub struct ChannelId(u128);

impl View for GameSessionId {
    type V = u128;

    closed spec fn view(&self) -> u128 {
        self.0
    }
}

impl View for CharacterId {
    type V = u128;

    closed spec fn view(&self) -> u128 {
        self.0
    }
}

impl View for WorldId {
    type V = u128;

    closed spec fn view(&self) -> u128 {
        self.0
    }
}

impl View for ChannelId {
    type V = u128;

    closed spec fn view(&self) -> u128 {
        self.0
    }
}

impl GameSessionId {
    /// Decodes the 16 raw bytes of a canonical UUIDv7.
    pub fn decode(input: &[u8]) -> (r: Result<Self, FoundationValueError>)
        ensures
            r is Ok <==> is_uuid_v7(input@),
            r matches Ok(id) ==> id@ == u128_from_be(input@),
            r matches Err(e) ==> e == FoundationValueError::InvalidIdentifier,
    {
        match decode_uuid_v7(input) {
            Some(v) => Ok(GameSessionId(v)),
            None => Err(FoundationValueError::InvalidIdentifier),
        }
    }
}

impl CharacterId {
    /// Decodes the 16 raw bytes of a canonical UUIDv7.
    pub fn decode(input: &[u8]) -> (r: Result<Self, FoundationValueError>)
        ensures
            r is Ok <==> is_uuid_v7(input@),
            r matches Ok(id) ==> id@ == u128_from_be(input@),
            r matches Err(e) ==> e == FoundationValueError::InvalidIdentifier,
    {
        match decode_uuid_v7(input) {
            Some(v) => Ok(CharacterId(v)),
            None => Err(FoundationValueError::InvalidIdentifier),
        }
    }
}

impl WorldId {
    /// Decodes the 16 raw bytes of a canonical UUIDv7.
    pub fn decode(input: &[u8]) -> (r: Result<Self, FoundationValueError>)
        ensures
            r is Ok <==> is_uuid_v7(input@),
            r matches Ok(id) ==> id@ == u128_from_be(input@),
            r matches Err(e) ==> e == FoundationValueError::InvalidIdentifier,
    {
        match decode_uuid_v7(input) {
            Some(v) => Ok(WorldId(v)),
            None => Err(FoundationValueError::InvalidIdentifier),
        }
    }
}

impl ChannelId {
    /// Decodes the 16 raw bytes of a canonical UUIDv7.
    pub fn decode(input: &[u8]) -> (r: Result<Self, FoundationValueError>)
        ensures
            r is Ok <==> is_uuid_v7(input@),
            r matches Ok(id) ==> id@ == u128_from_be(input@),
            r matches Err(e) ==> e == FoundationValueError::InvalidIdentifier,
    {
        match decode_uuid_v7(input) {
            Some(v) => Ok(ChannelId(v)),
            None => Err(FoundationValueError::InvalidIdentifier),
        }
    }
}

/// One non-zero generation of the authenticated connection of a GameSession.
#[derive(Debug, Clone, Copy, PartialEq, Eq, Structural, Hash, PartialOrd, Ord)]
pub struct ConnectionGeneration(u64);

/// One non-zero generation of RuntimeScope ownership.
#[derive(Debug, Clone, Copy, PartialEq, Eq, Structural, Hash, PartialOrd, Ord)]
pub struct ScopeOwnershipGeneration(u64);

/// One non-zero client command identifier.
#[derive(Debug, Clone, Copy, PartialEq, Eq, Structural, Hash, PartialOrd, Ord)]
pub struct CommandId(u64);

impl View for ConnectionGeneration {
    type V = u64;

    closed spec fn view(&self) -> u64 {
        self.0
    }
}

impl View for ScopeOwnershipGeneration {
    type V = u64;

    closed spec fn view(&self) -> u64 {
        self.0
    }
}

impl View for CommandId {
    type V = u64;

    closed spec fn view(&self) -> u64 {
        self.0
    }
}

/// Two generations are the same value exactly when their views agree.
pub broadcast proof fn lemma_connection_generation_view(a: ConnectionGeneration, b: ConnectionGeneration)
    ensures
        #[trigger] a@ == #[trigger] b@ <==> a == b,
{
}

/// Two generations are the same value exactly when their views agree.
pub broadcast proof fn lemma_scope_generation_view(a: ScopeOwnershipGeneration, b: ScopeOwnershipGeneration)
    ensures
        #[trigger] a@ == #[trigger] b@ <==> a == b,
{
}

/// Two command identifiers are the same value exactly when their views agree.
pub broadcast proof fn lemma_command_id_view(a: CommandId, b: CommandId)
    ensures
        #[trigger] a@ == #[trigger] b@ <==> a == b,
{
}

/// Two identifiers are the same value exactly when their views agree.
pub broadcast proof fn lemma_game_session_id_view(a: GameSessionId, b: GameSessionId)
    ensures
        #[trigger] a@ == #[trigger] b@ <==> a == b,
{
}

/// The connection generation with value `v`.
pub closed spec fn connection_generation_of(v: u64) -> ConnectionGeneration {
    ConnectionGeneration(v)
}

/// The ownership generation with value `v`.
pub closed spec fn scope_generation_of(v: u64) -> ScopeOwnershipGeneration {
    ScopeOwnershipGeneration(v)
}

pub broadcast proof fn lemma_connection_generation_of(v: u64)
    ensures
        #[trigger] connection_generation_of(v)@ == v,
{
}

pub broadcast proof fn lemma_scope_generation_of(v: u64)
    ensures
        #[trigger] scope_generation_of(v)@ == v,
{
}

pub broadcast group group_id_views {
    lemma_connection_generation_of,
    lemma_scope_generation_of,
    lemma_connection_generation_view,
    lemma_scope_generation_view,
    lemma_command_id_view,
    lemma_game_session_id_view,
}

impl ConnectionGeneration {
    pub fn new(value: u64) -> (r: Result<Self, FoundationValueError>)
        ensures
            r is Ok <==> value != 0,
            r matches Ok(g) ==> g@ == value,
            r matches Err(e) ==> e == FoundationValueError::ZeroValue,
    {
        if value == 0 {
            Err(FoundationValueError::ZeroValue)
        } else {
            Ok(ConnectionGeneration(value))
        }
    }

    pub fn get(self) -> (r: u64)
        ensures
            r == self@,
    {
        self.0
    }
}

impl ScopeOwnershipGeneration {
    pub fn new(value: u64) -> (r: Result<Self, FoundationValueError>)
        ensures
            r is Ok <==> value != 0,
            r matches Ok(g) ==> g@ == value,
            r matches Err(e) ==> e == FoundationValueError::ZeroValue,
    {
        if value == 0 {
            Err(FoundationValueError::ZeroValue)
        } else {
            Ok(ScopeOwnershipGeneration(value))
        }
    }

    pub fn get(self) -> (r: u64)
        ensures
            r == self@,
    {
        self.0
    }
}

impl CommandId {
    pub fn new(value: u64) -> (r: Result<Self, FoundationValueError>)
        ensures
            r is Ok <==> value != 0,
            r matches Ok(c) ==> c@ == value,
            r matches Err(e) ==> e == FoundationValueError::ZeroValue,
    {
        if value == 0 {
            Err(FoundationValueError::ZeroValue)
        } else {
            Ok(CommandId(value))
        }
    }

    pub fn get(self) -> (r: u64)
        ensures
            r == self@,
    {
        self.0
    }
}

/// The single connection generation that currently holds control.
#[derive(Debug, Clone, Copy, PartialEq, Eq, Structural)]
pub struct ConnectionFence {
    current: ConnectionGeneration,
}

impl View for ConnectionFence {
    type V = ConnectionGeneration;

    closed spec fn view(&self) -> ConnectionGeneration {
        self.current
    }
}

impl ConnectionFence {
    /// A fresh admission always starts at generation one.
    pub fn fresh_admission() -> (r: Self)
        ensures
            r@@ == 1,
    {
        ConnectionFence { current: ConnectionGeneration(1) }
    }

    /// A fence holding an authoritative generation read back from durable state.
    pub fn at(current: ConnectionGeneration) -> (r: Self)
        ensures
            r@ == current,
    {
        ConnectionFence { current }
    }

    pub fn current(&self) -> (r: ConnectionGeneration)
        ensures
            r == self@,
    {
        self.current
    }

    /// Only the exact current generation is accepted.
    pub fn accepts(&self, generation: ConnectionGeneration) -> (r: bool)
        ensures
            r == (generation == self@),
    {
        self.current == generation
    }

    /// Installs a successor generation whose validity was checked at the
    /// authority boundary.
    pub fn commit_prevalidated_successor(&mut self, candidate: ConnectionGeneration)
        ensures
            final(self)@ == candidate,
    {
        self.current = candidate;
    }
}

/// Evidence that one runtime input was accepted under a scope generation.
#[derive(Debug, Clone, Copy, PartialEq, Eq, Structural)]
pub struct RuntimeStamp {
    pub generation: ScopeOwnershipGeneration,
    pub ordinal: u64,
}

/// Process-local RuntimeScope ownership fence.
///
/// It remembers the current ownership generation, whether it may still act on
/// it, and how many inputs it has accepted under it.
#[derive(Debug, Clone, Copy, PartialEq, Eq, Structural)]
pub struct ScopeRuntimeFence {
    generation: ScopeOwnershipGeneration,
    valid: bool,
    accepted_inputs: u64,
}

pub struct ScopeRuntimeFenceView {
    pub generation: ScopeOwnershipGeneration,
    pub valid: bool,
    pub accepted_inputs: u64,
}

impl View for ScopeRuntimeFence {
    type V = ScopeRuntimeFenceView;

    closed spec fn view(&self) -> ScopeRuntimeFenceView {
        ScopeRuntimeFenceView {
            generation: self.generation,
            valid: self.valid,
            accepted_inputs: self.accepted_inputs,
        }
    }
}

impl ScopeRuntimeFence {
    /// A valid fence for an externally granted ownership generation.
    pub fn from_external_grant(generation: ScopeOwnershipGeneration) -> (r: Self)
        ensures
            r@.generation == generation,
            r@.valid,
            r@.accepted_inputs == 0,
    {
        ScopeRuntimeFence { generation, valid: true, accepted_inputs: 0 }
    }

    pub fn generation(&self) -> (r: ScopeOwnershipGeneration)
        ensures
            r == self@.generation,
    {
        self.generation
    }

    pub fn is_valid(&self) -> (r: bool)
        ensures
            r == self@.valid,
    {
        self.valid
    }

    /// Stops accepting runtime inputs until a newer grant is applied.
    pub fn invalidate(&mut self)
        ensures
            final(self)@.generation == old(self)@.generation,
            !final(self)@.valid,
            final(self)@.accepted_inputs == old(self)@.accepted_inputs,
    {
        self.valid = false;
    }

    /// Applies a strictly newer external ownership grant and becomes valid again.
    pub fn apply_external_grant(&mut self, generation: ScopeOwnershipGeneration) -> (r: Result<(), FoundationValueError>)
        ensures
            r is Ok <==> old(self)@.generation@ < generation@,
            r is Ok ==> final(self)@ == (ScopeRuntimeFenceView {
                generation,
                valid: true,
                accepted_inputs: 0,
            }),
            r is Err ==> final(self)@ == old(self)@,
    {
        if generation.0 <= self.generation.0 {
            return Err(FoundationValueError::ZeroValue);
        }
        self.generation = generation;
        self.valid = true;
        self.accepted_inputs = 0;
        Ok(())
    }

    /// Accepts one runtime input stamped with the exact current generation and
    /// returns its ordinal.
    pub fn accept_input(&mut self, generation: ScopeOwnershipGeneration) -> (r: Result<u64, FoundationValueError>)
        ensures
            r is Ok <==> (old(self)@.valid && generation == old(self)@.generation
                && old(self)@.accepted_inputs < u64::MAX),
            r matches Ok(ordinal) ==> ordinal == old(self)@.accepted_inputs && final(self)@ == (
            ScopeRuntimeFenceView {
                accepted_inputs: (old(self)@.accepted_inputs + 1) as u64,
                ..old(self)@
            }),
            r is Err ==> final(self)@ == old(self)@,
    {
        if !self.valid || self.generation.0 != generation.0 || self.accepted_inputs == u64::MAX {
            return Err(FoundationValueError::ZeroValue);
        }
        let ordinal = self.accepted_inputs;
        self.accepted_inputs = self.accepted_inputs + 1;
        Ok(ordinal)
    }

    /// The stamp of an accepted input.
    pub fn stamp(&self, ordinal: u64) -> (r: RuntimeStamp)
        ensures
            r == (RuntimeStamp { generation: self@.generation, ordinal }),
    {
        RuntimeStamp { generation: self.generation, ordinal }
    }

    /// A stamp is honoured only while the fence is valid for its exact generation.
    pub fn accepts_stamp(&self, stamp: RuntimeStamp) -> (r: bool)
        ensures
            r == (self@.valid && stamp.generation == self@.generation && stamp.ordinal
                < self@.accepted_inputs),
    {
        self.valid && self.generation.0 == stamp.generation.0 && stamp.ordinal < self.accepted_inputs
    }
}

} // verus!
