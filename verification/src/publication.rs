//! Owning-source publication of admission authority guards. A publication is
//! preparation, never active authority: an adapter applies every change
//! atomically under the fresh-admission guards.
use vstd::prelude::*;
use crate::admission::{same_runtime_scope, RuntimeScopeRefV1};
use crate::fresh_evidence::{
    Fnd04EvidenceScope, FreshAccountSecurityObservationV1, FreshAccountSecurityObservationView,
    FreshEvidenceProvenanceView, FreshEvidencePurposeV1,
};
use crate::admission::{GameSessionAuthoritySnapshot, GameSessionAuthoritySnapshotView, GameSessionState};
use crate::durability::{
    replacement_authorization_of, replacement_permitted, AccountPresenceClaimV1, AccountPresenceClaimView,
    AuthenticatedTransportRefV1, ReconnectDurabilityRecordV1, ReconnectDurabilityRecordView,
    TerminalGameSessionReplacementAuthorizationV1, TerminalReplacementView,
};
use crate::ids::{CharacterId, GameSessionId, WorldId};
use crate::text::canonical_uuid_text;

verus! {

broadcast use crate::ids::group_id_views;

/// The guard a publication change writes.
#[derive(Debug, Clone, PartialEq, Eq)]
pub enum AdmissionAuthorityGuardKeyV1 {
    Account { account_id: String },
    Character(CharacterId),
    Runtime(RuntimeScopeRefV1),
    SigningTrust { key_id: String, profile: String },
}

pub enum GuardKeyView {
    Account { account_id: Seq<char> },
    Character(CharacterId),
    Runtime(RuntimeScopeRefV1),
    SigningTrust { key_id: Seq<char>, profile: Seq<char> },
}

impl View for AdmissionAuthorityGuardKeyV1 {
    type V = GuardKeyView;

    open spec fn view(&self) -> GuardKeyView {
        match self {
            AdmissionAuthorityGuardKeyV1::Account { account_id } => GuardKeyView::Account { account_id: account_id@ },
            AdmissionAuthorityGuardKeyV1::Character(c) => GuardKeyView::Character(*c),
            AdmissionAuthorityGuardKeyV1::Runtime(s) => GuardKeyView::Runtime(*s),
            AdmissionAuthorityGuardKeyV1::SigningTrust { key_id, profile } => GuardKeyView::SigningTrust {
                key_id: key_id@,
                profile: profile@,
            },
        }
    }
}

impl AdmissionAuthorityGuardKeyV1 {
    /// An identical copy of this key.
    pub fn duplicate(&self) -> (r: Self)
        ensures
            r@ == self@,
    {
        match self {
            AdmissionAuthorityGuardKeyV1::Account { account_id } => AdmissionAuthorityGuardKeyV1::Account {
                account_id: account_id.clone(),
            },
            AdmissionAuthorityGuardKeyV1::Character(c) => AdmissionAuthorityGuardKeyV1::Character(*c),
            AdmissionAuthorityGuardKeyV1::Runtime(s) => AdmissionAuthorityGuardKeyV1::Runtime(*s),
            AdmissionAuthorityGuardKeyV1::SigningTrust { key_id, profile } => AdmissionAuthorityGuardKeyV1::SigningTrust {
                key_id: key_id.clone(),
                profile: profile.clone(),
            },
        }
    }

    /// Whether two keys name the same guard.
    pub fn same(&self, other: &Self) -> (r: bool)
        ensures
            r == (self@ == other@),
    {
        match self {
            AdmissionAuthorityGuardKeyV1::Account { account_id: a } => match other {
                AdmissionAuthorityGuardKeyV1::Account { account_id: b } => *a == *b,
                _ => false,
            },
            AdmissionAuthorityGuardKeyV1::Character(a) => match other {
                AdmissionAuthorityGuardKeyV1::Character(b) => *a == *b,
                _ => false,
            },
            AdmissionAuthorityGuardKeyV1::Runtime(a) => match other {
                AdmissionAuthorityGuardKeyV1::Runtime(b) => same_runtime_scope(*a, *b),
                _ => false,
            },
            AdmissionAuthorityGuardKeyV1::SigningTrust { key_id: ak, profile: ap } => match other {
                AdmissionAuthorityGuardKeyV1::SigningTrust { key_id: bk, profile: bp } => *ak == *bk && *ap == *bp,
                _ => false,
            },
        }
    }
}

/// The authoritative state a guard holds.
#[derive(Debug, Clone, PartialEq, Eq)]
pub enum AdmissionAuthorityGuardStateV1 {
    Account { security: FreshAccountSecurityObservationV1, presence: Option<(CharacterId, GameSessionId)> },
    Character {
        account_id: String,
        world_id: WorldId,
        eligible: bool,
        lease_generation: u64,
        holder: Option<GameSessionId>,
    },
    Runtime {
        ownership_generation: u64,
        ready: bool,
        route_revision: String,
        runtime_observation_revision: String,
        protocol_major: u64,
        transport_profile: u64,
        ruleset_revision: String,
        content_revision: String,
        map_revision: String,
        world_policy_revision: String,
        offer_revision: String,
    },
    SigningTrust { public_key: [u8; 32], trusted: bool },
}

pub enum GuardStateView {
    Account { security: FreshAccountSecurityObservationView, presence: Option<(CharacterId, GameSessionId)> },
    Character {
        account_id: Seq<char>,
        world_id: WorldId,
        eligible: bool,
        lease_generation: u64,
        holder: Option<GameSessionId>,
    },
    Runtime {
        ownership_generation: u64,
        ready: bool,
        route_revision: Seq<char>,
        runtime_observation_revision: Seq<char>,
        protocol_major: u64,
        transport_profile: u64,
        ruleset_revision: Seq<char>,
        content_revision: Seq<char>,
        map_revision: Seq<char>,
        world_policy_revision: Seq<char>,
        offer_revision: Seq<char>,
    },
    SigningTrust { public_key: Seq<u8>, trusted: bool },
}

impl View for AdmissionAuthorityGuardStateV1 {
    type V = GuardStateView;

    open spec fn view(&self) -> GuardStateView {
        match self {
            AdmissionAuthorityGuardStateV1::Account { security, presence } => GuardStateView::Account {
                security: security@,
                presence: *presence,
            },
            AdmissionAuthorityGuardStateV1::Character { account_id, world_id, eligible, lease_generation, holder } => GuardStateView::Character {
                account_id: account_id@,
                world_id: *world_id,
                eligible: *eligible,
                lease_generation: *lease_generation,
                holder: *holder,
            },
            AdmissionAuthorityGuardStateV1::Runtime {
                ownership_generation,
                ready,
                route_revision,
                runtime_observation_revision,
                protocol_major,
                transport_profile,
                ruleset_revision,
                content_revision,
                map_revision,
                world_policy_revision,
                offer_revision,
            } => GuardStateView::Runtime {
                ownership_generation: *ownership_generation,
                ready: *ready,
                route_revision: route_revision@,
                runtime_observation_revision: runtime_observation_revision@,
                protocol_major: *protocol_major,
                transport_profile: *transport_profile,
                ruleset_revision: ruleset_revision@,
                content_revision: content_revision@,
                map_revision: map_revision@,
                world_policy_revision: world_policy_revision@,
                offer_revision: offer_revision@,
            },
            AdmissionAuthorityGuardStateV1::SigningTrust { public_key, trusted } => GuardStateView::SigningTrust {
                public_key: public_key@,
                trusted: *trusted,
            },
        }
    }
}

fn same_presence(a: Option<(CharacterId, GameSessionId)>, b: Option<(CharacterId, GameSessionId)>) -> (r: bool)
    ensures
        r == (a == b),
{
    match (a, b) {
        (Some((ac, asession)), Some((bc, bsession))) => ac == bc && asession == bsession,
        (None, None) => true,
        _ => false,
    }
}

fn same_holder(a: Option<GameSessionId>, b: Option<GameSessionId>) -> (r: bool)
    ensures
        r == (a == b),
{
    match (a, b) {
        (Some(x), Some(y)) => x == y,
        (None, None) => true,
        _ => false,
    }
}

impl AdmissionAuthorityGuardStateV1 {
    /// An identical copy of this state.
    pub fn duplicate(&self) -> (r: Self)
        ensures
            r@ == self@,
    {
        match self {
            AdmissionAuthorityGuardStateV1::Account { security, presence } => AdmissionAuthorityGuardStateV1::Account {
                security: security.duplicate(),
                presence: *presence,
            },
            AdmissionAuthorityGuardStateV1::Character { account_id, world_id, eligible, lease_generation, holder } => AdmissionAuthorityGuardStateV1::Character {
                account_id: account_id.clone(),
                world_id: *world_id,
                eligible: *eligible,
                lease_generation: *lease_generation,
                holder: *holder,
            },
            AdmissionAuthorityGuardStateV1::Runtime {
                ownership_generation,
                ready,
                route_revision,
                runtime_observation_revision,
                protocol_major,
                transport_profile,
                ruleset_revision,
                content_revision,
                map_revision,
                world_policy_revision,
                offer_revision,
            } => AdmissionAuthorityGuardStateV1::Runtime {
                ownership_generation: *ownership_generation,
                ready: *ready,
                route_revision: route_revision.clone(),
                runtime_observation_revision: runtime_observation_revision.clone(),
                protocol_major: *protocol_major,
                transport_profile: *transport_profile,
                ruleset_revision: ruleset_revision.clone(),
                content_revision: content_revision.clone(),
                map_revision: map_revision.clone(),
                world_policy_revision: world_policy_revision.clone(),
                offer_revision: offer_revision.clone(),
            },
            AdmissionAuthorityGuardStateV1::SigningTrust { public_key, trusted } => AdmissionAuthorityGuardStateV1::SigningTrust {
                public_key: *public_key,
                trusted: *trusted,
            },
        }
    }

    /// Whether two states are the same.
    pub fn same(&self, other: &Self) -> (r: bool)
        ensures
            r == (self@ == other@),
    {
        match (self, other) {
            (
                AdmissionAuthorityGuardStateV1::Account { security: a, presence: ap },
                AdmissionAuthorityGuardStateV1::Account { security: b, presence: bp },
            ) => a.same(b) && same_presence(*ap, *bp),
            (
                AdmissionAuthorityGuardStateV1::Character {
                    account_id: a,
                    world_id: aw,
                    eligible: ae,
                    lease_generation: ag,
                    holder: ah,
                },
                AdmissionAuthorityGuardStateV1::Character {
                    account_id: b,
                    world_id: bw,
                    eligible: be,
                    lease_generation: bg,
                    holder: bh,
                },
            ) => *a == *b && *aw == *bw && *ae == *be && *ag == *bg && same_holder(*ah, *bh),
            (
                AdmissionAuthorityGuardStateV1::Runtime {
                    ownership_generation: a1,
                    ready: a2,
                    route_revision: a3,
                    runtime_observation_revision: a4,
                    protocol_major: a5,
                    transport_profile: a6,
                    ruleset_revision: a7,
                    content_revision: a8,
                    map_revision: a9,
                    world_policy_revision: a10,
                    offer_revision: a11,
                },
                AdmissionAuthorityGuardStateV1::Runtime {
                    ownership_generation: b1,
                    ready: b2,
                    route_revision: b3,
                    runtime_observation_revision: b4,
                    protocol_major: b5,
                    transport_profile: b6,
                    ruleset_revision: b7,
                    content_revision: b8,
                    map_revision: b9,
                    world_policy_revision: b10,
                    offer_revision: b11,
                },
            ) => *a1 == *b1 && *a2 == *b2 && *a3 == *b3 && *a4 == *b4 && *a5 == *b5 && *a6 == *b6 && *a7 == *b7 && *a8
                == *b8 && *a9 == *b9 && *a10 == *b10 && *a11 == *b11,
            (
                AdmissionAuthorityGuardStateV1::SigningTrust { public_key: a, trusted: at },
                AdmissionAuthorityGuardStateV1::SigningTrust { public_key: b, trusted: bt },
            ) => crate::bytes::same_bytes(a.as_slice(), b.as_slice()) && *at == *bt,
            _ => false,
        }
    }
}

/// Which owning domain a publication change comes from.
#[derive(Debug, Clone, Copy, PartialEq, Eq, Structural)]
pub enum AdmissionPublicationPurposeV1 {
    AccountSecurityAndPresence,
    CharacterOwnershipAndLease,
    RuntimeOwnershipAndReadiness,
    FixedFreshSigningTrust,
}

/// Raw owning-source observation, not a registration capability.
#[derive(Debug, Clone, PartialEq, Eq)]
pub struct AdmissionPublicationSourceV1 {
    pub authority: String,
    pub purpose: AdmissionPublicationPurposeV1,
    pub source_revision: u64,
    pub decision_identity: String,
    pub source_observed_at: i64,
    pub clock_uncertainty_seconds: u64,
}

pub struct PublicationSourceView {
    pub authority: Seq<char>,
    pub purpose: AdmissionPublicationPurposeV1,
    pub source_revision: u64,
    pub decision_identity: Seq<char>,
    pub source_observed_at: i64,
    pub clock_uncertainty_seconds: u64,
}

impl View for AdmissionPublicationSourceV1 {
    type V = PublicationSourceView;

    open spec fn view(&self) -> PublicationSourceView {
        PublicationSourceView {
            authority: self.authority@,
            purpose: self.purpose,
            source_revision: self.source_revision,
            decision_identity: self.decision_identity@,
            source_observed_at: self.source_observed_at,
            clock_uncertainty_seconds: self.clock_uncertainty_seconds,
        }
    }
}

impl AdmissionPublicationSourceV1 {
    /// An identical copy of this source.
    pub fn duplicate(&self) -> (r: Self)
        ensures
            r@ == self@,
    {
        Self {
            authority: self.authority.clone(),
            purpose: self.purpose,
            source_revision: self.source_revision,
            decision_identity: self.decision_identity.clone(),
            source_observed_at: self.source_observed_at,
            clock_uncertainty_seconds: self.clock_uncertainty_seconds,
        }
    }

    /// Whether two sources are the same.
    pub fn same(&self, other: &Self) -> (r: bool)
        ensures
            r == (self@ == other@),
    {
        self.authority == other.authority && self.purpose == other.purpose && self.source_revision
            == other.source_revision && self.decision_identity == other.decision_identity && self.source_observed_at
            == other.source_observed_at && self.clock_uncertainty_seconds == other.clock_uncertainty_seconds
    }
}

/// The condition under which a change may be written.
#[derive(Debug, Clone, Copy, PartialEq, Eq, Structural)]
pub enum AdmissionPublicationPreconditionV1 {
    /// Independently restored absence/high-water evidence is mandatory.
    Bootstrap { restored_publication_high_water: Option<u64> },
    CompareAndSet { expected_publication_revision: u64 },
}

/// One guard write of a publication.
#[derive(Debug, Clone, PartialEq, Eq)]
pub struct AdmissionAuthorityPublicationChangeV1 {
    pub key: AdmissionAuthorityGuardKeyV1,
    pub source: AdmissionPublicationSourceV1,
    pub precondition: AdmissionPublicationPreconditionV1,
    pub publication_revision: u64,
    pub state: AdmissionAuthorityGuardStateV1,
}

pub struct PublicationChangeView {
    pub key: GuardKeyView,
    pub source: PublicationSourceView,
    pub precondition: AdmissionPublicationPreconditionV1,
    pub publication_revision: u64,
    pub state: GuardStateView,
}

impl View for AdmissionAuthorityPublicationChangeV1 {
    type V = PublicationChangeView;

    open spec fn view(&self) -> PublicationChangeView {
        PublicationChangeView {
            key: self.key@,
            source: self.source@,
            precondition: self.precondition,
            publication_revision: self.publication_revision,
            state: self.state@,
        }
    }
}

impl AdmissionAuthorityPublicationChangeV1 {
    /// An identical copy of this change.
    pub fn duplicate(&self) -> (r: Self)
        ensures
            r@ == self@,
    {
        Self {
            key: self.key.duplicate(),
            source: self.source.duplicate(),
            precondition: self.precondition,
            publication_revision: self.publication_revision,
            state: self.state.duplicate(),
        }
    }

    /// Whether two changes are the same.
    pub fn same(&self, other: &Self) -> (r: bool)
        ensures
            r == (self@ == other@),
    {
        self.key.same(&other.key) && self.source.same(&other.source) && self.precondition == other.precondition
            && self.publication_revision == other.publication_revision && self.state.same(&other.state)
    }
}

/// The changes, by value.
pub open spec fn changes_view(changes: Seq<AdmissionAuthorityPublicationChangeV1>) -> Seq<PublicationChangeView> {
    changes.map_values(|c: AdmissionAuthorityPublicationChangeV1| c@)
}

/// A row a guard holds, by value.
pub open spec fn row_view(row: Option<AdmissionAuthorityPublicationChangeV1>) -> Option<PublicationChangeView> {
    match row {
        Some(c) => Some(c@),
        None => None,
    }
}

/// The rows, by value.
pub open spec fn rows_view(rows: Seq<Option<AdmissionAuthorityPublicationChangeV1>>) -> Seq<Option<PublicationChangeView>> {
    rows.map_values(|r: Option<AdmissionAuthorityPublicationChangeV1>| row_view(r))
}

/// Whether a stored row holds exactly `change`.
fn row_holds(row: &Option<AdmissionAuthorityPublicationChangeV1>, change: &AdmissionAuthorityPublicationChangeV1) -> (r: bool)
    ensures
        r == (row_view(*row) == Some(change@)),
{
    match row {
        Some(stored) => stored.same(change),
        None => false,
    }
}

pub(crate) fn copy_changes(changes: &[AdmissionAuthorityPublicationChangeV1]) -> (r: Vec<AdmissionAuthorityPublicationChangeV1>)
    ensures
        changes_view(r@) == changes_view(changes@),
{
    let mut out: Vec<AdmissionAuthorityPublicationChangeV1> = Vec::new();
    let mut i: usize = 0;
    while i < changes.len()
        invariant
            i <= changes@.len(),
            changes_view(out@) == changes_view(changes@.subrange(0, i as int)),
        decreases changes@.len() - i,
    {
        let copy = changes[i].duplicate();
        proof {
            assert(changes_view(out@.push(copy)) =~= changes_view(out@).push(copy@));
            assert(changes_view(changes@.subrange(0, i + 1)) =~= changes_view(changes@.subrange(0, i as int)).push(
                changes@[i as int]@,
            ));
        }
        out.push(copy);
        i = i + 1;
    }
    assert(changes@.subrange(0, changes@.len() as int) =~= changes@);
    out
}

/// The only signing-trust profile a fresh publication may name.
pub open spec fn pre_admission_profile() -> Seq<char> {
    "oteryn-pre-admission-v1"@
}

/// The source was observed at most five seconds, uncertainty included,
/// before `now`, and not after it.
pub open spec fn source_age_valid(observed: i64, uncertainty: u64, now: i64) -> bool {
    observed >= 0 && now >= observed && (now - observed) + uncertainty <= 5
}

/// Fresh platform security evidence for fresh admission, accepted exactly
/// as the source decided it and young enough at `now`.
pub open spec fn security_provenance_valid(p: FreshEvidenceProvenanceView, now: i64) -> bool {
    &&& p.purpose == FreshEvidencePurposeV1::PlatformSecurity
    &&& p.scope == Fnd04EvidenceScope::FreshAdmission
    &&& p.source_authority.len() > 0
    &&& p.source_revision > 0
    &&& p.source_revision == p.accepted_source_revision
    &&& p.decision_identity.len() > 0
    &&& p.decision_identity == p.accepted_decision_identity
    &&& p.publication_revision > 0
    &&& source_age_valid(p.source_observed_at, p.clock_uncertainty_seconds, now)
}

/// The key, the state and the owning domain of a change agree, and the
/// state is well formed for that domain.
pub open spec fn change_domain_valid(c: PublicationChangeView, now: i64) -> bool {
    match c.key {
        GuardKeyView::Account { account_id } => match c.state {
            GuardStateView::Account { security, .. } => c.source.purpose
                == AdmissionPublicationPurposeV1::AccountSecurityAndPresence && account_id.len() > 0
                && security.account_id == account_id && security.minimum_generation > 0
                && security.provenance.publication_revision == c.publication_revision && security_provenance_valid(
                security.provenance,
                now,
            ),
            _ => false,
        },
        GuardKeyView::Character(_) => match c.state {
            GuardStateView::Character { account_id, lease_generation, .. } => c.source.purpose
                == AdmissionPublicationPurposeV1::CharacterOwnershipAndLease && account_id.len() > 0 && lease_generation
                > 0,
            _ => false,
        },
        GuardKeyView::Runtime(_) => match c.state {
            GuardStateView::Runtime {
                ownership_generation,
                route_revision,
                runtime_observation_revision,
                protocol_major,
                transport_profile,
                ruleset_revision,
                content_revision,
                map_revision,
                world_policy_revision,
                offer_revision,
                ..
            } => c.source.purpose == AdmissionPublicationPurposeV1::RuntimeOwnershipAndReadiness && ownership_generation
                > 0 && protocol_major > 0 && transport_profile > 0 && route_revision.len() > 0
                && runtime_observation_revision.len() > 0 && ruleset_revision.len() > 0 && content_revision.len() > 0
                && map_revision.len() > 0 && world_policy_revision.len() > 0 && offer_revision.len() > 0,
            _ => false,
        },
        GuardKeyView::SigningTrust { key_id, profile } => match c.state {
            GuardStateView::SigningTrust { .. } => c.source.purpose == AdmissionPublicationPurposeV1::FixedFreshSigningTrust
                && key_id.len() > 0 && profile == pre_admission_profile(),
            _ => false,
        },
    }
}

/// The publication revision a precondition leads to, if it is well formed.
pub open spec fn expected_publication_revision(p: AdmissionPublicationPreconditionV1) -> Option<u64> {
    match p {
        AdmissionPublicationPreconditionV1::Bootstrap { restored_publication_high_water } => if restored_publication_high_water
            == Some(0u64) {
            Some(1)
        } else {
            None
        },
        AdmissionPublicationPreconditionV1::CompareAndSet { expected_publication_revision } => if 0
            < expected_publication_revision < u64::MAX {
            Some((expected_publication_revision + 1) as u64)
        } else {
            None
        },
    }
}

/// Account security and signing trust must be fresh; the game-owned domains
/// carry their own generations instead.
pub open spec fn source_fresh(s: PublicationSourceView, now: i64) -> bool {
    !(s.purpose == AdmissionPublicationPurposeV1::AccountSecurityAndPresence || s.purpose
        == AdmissionPublicationPurposeV1::FixedFreshSigningTrust) || source_age_valid(
        s.source_observed_at,
        s.clock_uncertainty_seconds,
        now,
    )
}

/// Whether a change is a valid guard write at `now`.
pub open spec fn change_valid(c: PublicationChangeView, now: i64) -> bool {
    &&& change_domain_valid(c, now)
    &&& source_fresh(c.source, now)
    &&& c.source.authority.len() > 0
    &&& c.source.source_revision != 0
    &&& c.source.decision_identity.len() > 0
    &&& 0 <= c.source.source_observed_at <= now
    &&& expected_publication_revision(c.precondition) == Some(c.publication_revision)
}

fn source_age_valid_exec(observed: i64, uncertainty: u64, now: i64) -> (r: bool)
    ensures
        r == source_age_valid(observed, uncertainty, now),
{
    if observed < 0 || now < observed || uncertainty > 5 {
        return false;
    }
    let age = now - observed;
    age <= 5 - (uncertainty as i64)
}

fn security_provenance_valid_exec(p: &crate::fresh_evidence::FreshEvidenceProvenanceV1, now: i64) -> (r: bool)
    ensures
        r == security_provenance_valid(p@, now),
{
    p.purpose == FreshEvidencePurposeV1::PlatformSecurity && p.scope == Fnd04EvidenceScope::FreshAdmission
        && !crate::text::is_empty_text(p.source_authority.as_str()) && p.source_revision > 0 && p.source_revision
        == p.accepted_source_revision && !crate::text::is_empty_text(p.decision_identity.as_str())
        && p.decision_identity == p.accepted_decision_identity && p.publication_revision > 0 && source_age_valid_exec(
        p.source_observed_at,
        p.clock_uncertainty_seconds,
        now,
    )
}

fn change_domain_valid_exec(c: &AdmissionAuthorityPublicationChangeV1, now: i64) -> (r: bool)
    ensures
        r == change_domain_valid(c@, now),
{
    let purpose = c.source.purpose;
    match &c.key {
        AdmissionAuthorityGuardKeyV1::Account { account_id } => match &c.state {
            AdmissionAuthorityGuardStateV1::Account { security, .. } => purpose
                == AdmissionPublicationPurposeV1::AccountSecurityAndPresence && !crate::text::is_empty_text(
                account_id.as_str(),
            ) && security.account_id == *account_id && security.minimum_generation > 0
                && security.provenance.publication_revision == c.publication_revision && security_provenance_valid_exec(
                &security.provenance,
                now,
            ),
            _ => false,
        },
        AdmissionAuthorityGuardKeyV1::Character(_) => match &c.state {
            AdmissionAuthorityGuardStateV1::Character { account_id, lease_generation, .. } => purpose
                == AdmissionPublicationPurposeV1::CharacterOwnershipAndLease && !crate::text::is_empty_text(
                account_id.as_str(),
            ) && *lease_generation > 0,
            _ => false,
        },
        AdmissionAuthorityGuardKeyV1::Runtime(_) => match &c.state {
            AdmissionAuthorityGuardStateV1::Runtime {
                ownership_generation,
                route_revision,
                runtime_observation_revision,
                protocol_major,
                transport_profile,
                ruleset_revision,
                content_revision,
                map_revision,
                world_policy_revision,
                offer_revision,
                ..
            } => purpose == AdmissionPublicationPurposeV1::RuntimeOwnershipAndReadiness && *ownership_generation > 0
                && *protocol_major > 0 && *transport_profile > 0 && !crate::text::is_empty_text(route_revision.as_str())
                && !crate::text::is_empty_text(runtime_observation_revision.as_str()) && !crate::text::is_empty_text(
                ruleset_revision.as_str(),
            ) && !crate::text::is_empty_text(content_revision.as_str()) && !crate::text::is_empty_text(
                map_revision.as_str(),
            ) && !crate::text::is_empty_text(world_policy_revision.as_str()) && !crate::text::is_empty_text(
                offer_revision.as_str(),
            ),
            _ => false,
        },
        AdmissionAuthorityGuardKeyV1::SigningTrust { key_id, profile } => match &c.state {
            AdmissionAuthorityGuardStateV1::SigningTrust { .. } => {
                proof {
                    reveal_strlit("oteryn-pre-admission-v1");
                }
                purpose == AdmissionPublicationPurposeV1::FixedFreshSigningTrust && !crate::text::is_empty_text(
                    key_id.as_str(),
                ) && crate::text::same_text(profile.as_str(), "oteryn-pre-admission-v1")
            },
            _ => false,
        },
    }
}

fn expected_publication_revision_exec(p: AdmissionPublicationPreconditionV1) -> (r: Option<u64>)
    ensures
        r == expected_publication_revision(p),
{
    match p {
        AdmissionPublicationPreconditionV1::Bootstrap { restored_publication_high_water: Some(0) } => Some(1),
        AdmissionPublicationPreconditionV1::Bootstrap { .. } => None,
        AdmissionPublicationPreconditionV1::CompareAndSet { expected_publication_revision } => if expected_publication_revision
            > 0 {
            expected_publication_revision.checked_add(1)
        } else {
            None
        },
    }
}

/// Whether one change is a valid guard write at `now`; an invalid one is
/// refused as such.
pub fn validate_change(change: &AdmissionAuthorityPublicationChangeV1, now: i64) -> (r: Result<
    (),
    AdmissionAuthorityPublicationErrorV1,
>)
    ensures
        r is Ok <==> change_valid(change@, now),
        r matches Err(e) ==> e == AdmissionAuthorityPublicationErrorV1::Invalid,
{
    let valid = change_domain_valid_exec(change, now);
    let expected = expected_publication_revision_exec(change.precondition);
    let purpose = change.source.purpose;
    let fresh = !(purpose == AdmissionPublicationPurposeV1::AccountSecurityAndPresence || purpose
        == AdmissionPublicationPurposeV1::FixedFreshSigningTrust) || source_age_valid_exec(
        change.source.source_observed_at,
        change.source.clock_uncertainty_seconds,
        now,
    );
    let revision_matches = match expected {
        Some(e) => e == change.publication_revision,
        None => false,
    };
    if !valid || !fresh || crate::text::is_empty_text(change.source.authority.as_str()) || change.source.source_revision
        == 0 || crate::text::is_empty_text(change.source.decision_identity.as_str()) || change.source.source_observed_at
        < 0 || change.source.source_observed_at > now || !revision_matches {
        return Err(AdmissionAuthorityPublicationErrorV1::Invalid);
    }
    Ok(())
}

/// Why a publication or one of its steps is refused.
#[derive(Debug, Clone, Copy, PartialEq, Eq, Structural)]
pub enum AdmissionAuthorityPublicationErrorV1 {
    Unavailable,
    Invalid,
    Stale,
    Conflict,
    WrongPhase,
}

/// The first reason, among the first `n` changes in order, for which a
/// publication is refused: a key that an earlier change already writes, or
/// a change that is no valid guard write.
pub open spec fn publication_error(changes: Seq<PublicationChangeView>, now: i64, n: int) -> Option<
    AdmissionAuthorityPublicationErrorV1,
>
    decreases n,
{
    if n <= 0 {
        None
    } else {
        match publication_error(changes, now, n - 1) {
            Some(e) => Some(e),
            None => if exists|j: int| 0 <= j < n - 1 && #[trigger] changes[j].key == changes[n - 1].key {
                Some(AdmissionAuthorityPublicationErrorV1::Conflict)
            } else if !change_valid(changes[n - 1], now) {
                Some(AdmissionAuthorityPublicationErrorV1::Invalid)
            } else {
                None
            },
        }
    }
}

/// The publication prepared from the changes an owning source resolved.
pub open spec fn spec_prepare_publication(changes: Seq<PublicationChangeView>, now: i64) -> Result<
    Seq<PublicationChangeView>,
    AdmissionAuthorityPublicationErrorV1,
> {
    if changes.len() == 0 {
        Err(AdmissionAuthorityPublicationErrorV1::Invalid)
    } else {
        match publication_error(changes, now, changes.len() as int) {
            Some(e) => Err(e),
            None => Ok(changes),
        }
    }
}

/// The publication prepared from what an owning source answered.
pub open spec fn prepared_from(
    resolved: Result<Seq<PublicationChangeView>, AdmissionAuthorityPublicationErrorV1>,
    now: i64,
) -> Result<Seq<PublicationChangeView>, AdmissionAuthorityPublicationErrorV1> {
    match resolved {
        Ok(changes) => spec_prepare_publication(changes, now),
        Err(e) => Err(e),
    }
}

/// The owning source of a publication: it resolves the changes to publish.
pub trait AdmissionAuthorityOwningPublisherV1 {
    fn resolve_publication(&self, now: i64) -> Result<
        Vec<AdmissionAuthorityPublicationChangeV1>,
        AdmissionAuthorityPublicationErrorV1,
    >;
}

/// A validated set of guard writes, one per key.
#[derive(Debug, Clone, PartialEq, Eq)]
pub struct AdmissionAuthorityPublicationV1 {
    changes: Vec<AdmissionAuthorityPublicationChangeV1>,
}

impl View for AdmissionAuthorityPublicationV1 {
    type V = Seq<PublicationChangeView>;

    closed spec fn view(&self) -> Seq<PublicationChangeView> {
        changes_view(self.changes@)
    }
}

/// A publication result, by value.
pub open spec fn publication_result_view(
    r: Result<AdmissionAuthorityPublicationV1, AdmissionAuthorityPublicationErrorV1>,
) -> Result<Seq<PublicationChangeView>, AdmissionAuthorityPublicationErrorV1> {
    match r {
        Ok(p) => Ok(p@),
        Err(e) => Err(e),
    }
}

/// Whether a guard holds a claim: an account's presence or a character's holder.
pub open spec fn has_claim(state: GuardStateView) -> bool {
    match state {
        GuardStateView::Account { presence, .. } => presence is Some,
        GuardStateView::Character { holder, .. } => holder is Some,
        _ => false,
    }
}

/// Whether two states hold the same claims: presence, or holder, lease,
/// owning account and world.
pub open spec fn same_claims(left: GuardStateView, right: GuardStateView) -> bool {
    match (left, right) {
        (GuardStateView::Account { presence: a, .. }, GuardStateView::Account { presence: b, .. }) => a == b,
        (
            GuardStateView::Character { holder: a, lease_generation: ag, account_id: aa, world_id: aw, .. },
            GuardStateView::Character { holder: b, lease_generation: bg, account_id: ba, world_id: bw, .. },
        ) => a == b && ag == bg && aa == ba && aw == bw,
        (GuardStateView::Runtime { .. }, GuardStateView::Runtime { .. }) => true,
        (GuardStateView::SigningTrust { .. }, GuardStateView::SigningTrust { .. }) => true,
        _ => false,
    }
}

/// The same platform security observation, bound to another guard revision.
pub open spec fn same_security_observation(
    left: FreshAccountSecurityObservationView,
    right: FreshAccountSecurityObservationView,
) -> bool {
    (FreshAccountSecurityObservationView {
        provenance: FreshEvidenceProvenanceView {
            publication_revision: right.provenance.publication_revision,
            ..left.provenance
        },
        ..left
    }) == right
}

/// A compare-and-set successor moves a guard's authority backwards.
pub open spec fn state_regresses(prior: GuardStateView, next: GuardStateView) -> bool {
    match (prior, next) {
        (GuardStateView::Account { security: previous, .. }, GuardStateView::Account { security: following, .. }) => following.provenance.source_authority
            != previous.provenance.source_authority || following.provenance.source_observed_at
            < previous.provenance.source_observed_at || following.minimum_generation < previous.minimum_generation
            || following.provenance.source_revision < previous.provenance.source_revision || (
        following.provenance.source_revision == previous.provenance.source_revision && !same_security_observation(
            following,
            previous,
        )),
        (
            GuardStateView::Character { lease_generation: old, .. },
            GuardStateView::Character { lease_generation: new, .. },
        ) => new < old,
        (
            GuardStateView::Runtime { ownership_generation: old, .. },
            GuardStateView::Runtime { ownership_generation: new, .. },
        ) => new < old,
        _ => false,
    }
}

/// Why the locked row of one guard refuses a change, if it does. An exact
/// replay never re-ages evidence.
pub open spec fn row_error(change: PublicationChangeView, row: Option<PublicationChangeView>) -> Option<
    AdmissionAuthorityPublicationErrorV1,
> {
    if row == Some(change) {
        None
    } else {
        match (change.precondition, row) {
            (AdmissionPublicationPreconditionV1::Bootstrap { restored_publication_high_water }, None) => if restored_publication_high_water
                != Some(0u64) {
                Some(AdmissionAuthorityPublicationErrorV1::Stale)
            } else if has_claim(change.state) {
                Some(AdmissionAuthorityPublicationErrorV1::Conflict)
            } else {
                None
            },
            (AdmissionPublicationPreconditionV1::CompareAndSet { expected_publication_revision }, Some(prior)) => if prior.key
                != change.key || prior.source.authority != change.source.authority || prior.source.purpose
                != change.source.purpose {
                Some(AdmissionAuthorityPublicationErrorV1::Conflict)
            } else if prior.publication_revision != expected_publication_revision || change.source.source_revision
                < prior.source.source_revision || change.source.source_observed_at < prior.source.source_observed_at {
                Some(AdmissionAuthorityPublicationErrorV1::Stale)
            } else if change.source.source_revision == prior.source.source_revision {
                Some(AdmissionAuthorityPublicationErrorV1::Conflict)
            } else if state_regresses(prior.state, change.state) {
                Some(AdmissionAuthorityPublicationErrorV1::Stale)
            } else if !same_claims(prior.state, change.state) {
                Some(AdmissionAuthorityPublicationErrorV1::Conflict)
            } else {
                None
            },
            _ => Some(AdmissionAuthorityPublicationErrorV1::Stale),
        }
    }
}

/// The first refusal among the first `n` changes and their locked rows.
pub open spec fn locked_error(
    changes: Seq<PublicationChangeView>,
    rows: Seq<Option<PublicationChangeView>>,
    n: int,
) -> Option<AdmissionAuthorityPublicationErrorV1>
    decreases n,
{
    if n <= 0 {
        None
    } else {
        match locked_error(changes, rows, n - 1) {
            Some(e) => Some(e),
            None => row_error(changes[n - 1], rows[n - 1]),
        }
    }
}

/// Comparing a publication with the locked durable rows of its guards.
pub open spec fn spec_validate_locked(
    changes: Seq<PublicationChangeView>,
    rows: Seq<Option<PublicationChangeView>>,
) -> Result<(), AdmissionAuthorityPublicationErrorV1> {
    if rows.len() != changes.len() {
        Err(AdmissionAuthorityPublicationErrorV1::Conflict)
    } else {
        match locked_error(changes, rows, changes.len() as int) {
            Some(e) => Err(e),
            None => Ok(()),
        }
    }
}

fn same_claims_exec(left: &AdmissionAuthorityGuardStateV1, right: &AdmissionAuthorityGuardStateV1) -> (r: bool)
    ensures
        r == same_claims(left@, right@),
{
    match (left, right) {
        (
            AdmissionAuthorityGuardStateV1::Account { presence: a, .. },
            AdmissionAuthorityGuardStateV1::Account { presence: b, .. },
        ) => same_presence(*a, *b),
        (
            AdmissionAuthorityGuardStateV1::Character { holder: a, lease_generation: ag, account_id: aa, world_id: aw, .. },
            AdmissionAuthorityGuardStateV1::Character { holder: b, lease_generation: bg, account_id: ba, world_id: bw, .. },
        ) => same_holder(*a, *b) && *ag == *bg && *aa == *ba && *aw == *bw,
        (AdmissionAuthorityGuardStateV1::Runtime { .. }, AdmissionAuthorityGuardStateV1::Runtime { .. }) => true,
        (AdmissionAuthorityGuardStateV1::SigningTrust { .. }, AdmissionAuthorityGuardStateV1::SigningTrust { .. }) => true,
        _ => false,
    }
}

fn same_security_observation_exec(
    left: &FreshAccountSecurityObservationV1,
    right: &FreshAccountSecurityObservationV1,
) -> (r: bool)
    ensures
        r == same_security_observation(left@, right@),
{
    let mut accepted = left.duplicate();
    accepted.provenance.publication_revision = right.provenance.publication_revision;
    let r = accepted.same(right);
    assert(accepted@ == (FreshAccountSecurityObservationView {
        provenance: FreshEvidenceProvenanceView { publication_revision: right@.provenance.publication_revision, ..left@.provenance },
        ..left@
    }));
    r
}

fn state_regresses_exec(prior: &AdmissionAuthorityGuardStateV1, next: &AdmissionAuthorityGuardStateV1) -> (r: bool)
    ensures
        r == state_regresses(prior@, next@),
{
    match (prior, next) {
        (
            AdmissionAuthorityGuardStateV1::Account { security: previous, .. },
            AdmissionAuthorityGuardStateV1::Account { security: following, .. },
        ) => following.provenance.source_authority != previous.provenance.source_authority
            || following.provenance.source_observed_at < previous.provenance.source_observed_at
            || following.minimum_generation < previous.minimum_generation || following.provenance.source_revision
            < previous.provenance.source_revision || (following.provenance.source_revision
            == previous.provenance.source_revision && !same_security_observation_exec(following, previous)),
        (
            AdmissionAuthorityGuardStateV1::Character { lease_generation: old, .. },
            AdmissionAuthorityGuardStateV1::Character { lease_generation: new, .. },
        ) => *new < *old,
        (
            AdmissionAuthorityGuardStateV1::Runtime { ownership_generation: old, .. },
            AdmissionAuthorityGuardStateV1::Runtime { ownership_generation: new, .. },
        ) => *new < *old,
        _ => false,
    }
}

fn row_error_exec(
    change: &AdmissionAuthorityPublicationChangeV1,
    row: &Option<AdmissionAuthorityPublicationChangeV1>,
) -> (r: Option<AdmissionAuthorityPublicationErrorV1>)
    ensures
        r == row_error(change@, row_view(*row)),
{
    if row_holds(row, change) {
        return None;
    }
    match (change.precondition, row) {
        (AdmissionPublicationPreconditionV1::Bootstrap { restored_publication_high_water }, None) => {
            let restored_empty = match restored_publication_high_water {
                Some(h) => h == 0,
                None => false,
            };
            if !restored_empty {
                Some(AdmissionAuthorityPublicationErrorV1::Stale)
            } else {
                let claimed = match &change.state {
                    AdmissionAuthorityGuardStateV1::Account { presence, .. } => presence.is_some(),
                    AdmissionAuthorityGuardStateV1::Character { holder, .. } => holder.is_some(),
                    _ => false,
                };
                if claimed {
                    Some(AdmissionAuthorityPublicationErrorV1::Conflict)
                } else {
                    None
                }
            }
        },
        (AdmissionPublicationPreconditionV1::CompareAndSet { expected_publication_revision }, Some(prior)) => {
            if !prior.key.same(&change.key) || prior.source.authority != change.source.authority || prior.source.purpose
                != change.source.purpose {
                Some(AdmissionAuthorityPublicationErrorV1::Conflict)
            } else if prior.publication_revision != expected_publication_revision || change.source.source_revision
                < prior.source.source_revision || change.source.source_observed_at < prior.source.source_observed_at {
                Some(AdmissionAuthorityPublicationErrorV1::Stale)
            } else if change.source.source_revision == prior.source.source_revision {
                Some(AdmissionAuthorityPublicationErrorV1::Conflict)
            } else if state_regresses_exec(&prior.state, &change.state) {
                Some(AdmissionAuthorityPublicationErrorV1::Stale)
            } else if !same_claims_exec(&prior.state, &change.state) {
                Some(AdmissionAuthorityPublicationErrorV1::Conflict)
            } else {
                None
            }
        },
        _ => Some(AdmissionAuthorityPublicationErrorV1::Stale),
    }
}

impl AdmissionAuthorityPublicationV1 {
    /// The publication of exactly the changes an owning source resolved:
    /// at least one, each key once, each a valid guard write at `now`.
    pub fn from_resolved(changes: Vec<AdmissionAuthorityPublicationChangeV1>, now: i64) -> (r: Result<
        Self,
        AdmissionAuthorityPublicationErrorV1,
    >)
        ensures
            publication_result_view(r) == spec_prepare_publication(changes_view(changes@), now),
    {
        let ghost cv = changes_view(changes@);
        if changes.len() == 0 {
            return Err(AdmissionAuthorityPublicationErrorV1::Invalid);
        }
        let mut index: usize = 0;
        while index < changes.len()
            invariant
                index <= changes@.len(),
                cv == changes_view(changes@),
                changes@.len() > 0,
                publication_error(cv, now, index as int) is None,
            decreases changes@.len() - index,
        {
            let mut j: usize = 0;
            while j < index
                invariant
                    j <= index < changes@.len(),
                    cv == changes_view(changes@),
                    publication_error(cv, now, index as int) is None,
                    forall|k: int| 0 <= k < j ==> cv[k].key != cv[index as int].key,
                decreases index - j,
            {
                if changes[j].key.same(&changes[index].key) {
                    proof {
                        let n = index + 1;
                        assert(publication_error(cv, now, n - 1) is None);
                        assert(cv[j as int].key == cv[n - 1].key);
                        assert(exists|k: int| 0 <= k < n - 1 && #[trigger] cv[k].key == cv[n - 1].key);
                        assert(publication_error(cv, now, n) == Some(AdmissionAuthorityPublicationErrorV1::Conflict));
                        lemma_publication_error_sticks(cv, now, index + 1, cv.len() as int);
                    }
                    return Err(AdmissionAuthorityPublicationErrorV1::Conflict);
                }
                j = j + 1;
            }
            assert(!(exists|k: int| 0 <= k < index && #[trigger] cv[k].key == cv[index as int].key));
            if validate_change(&changes[index], now).is_err() {
                proof {
                    assert(publication_error(cv, now, index + 1) == Some(AdmissionAuthorityPublicationErrorV1::Invalid));
                    lemma_publication_error_sticks(cv, now, index + 1, cv.len() as int);
                }
                return Err(AdmissionAuthorityPublicationErrorV1::Invalid);
            }
            index = index + 1;
        }
        Ok(Self { changes })
    }

    /// Resolves the owning source's changes and prepares their publication.
    /// Whatever the source answers, the result is what `from_resolved`
    /// gives for its changes, and a source error is passed on.
    pub fn prepare<S: AdmissionAuthorityOwningPublisherV1>(source: &S, now: i64) -> (r: Result<
        Self,
        AdmissionAuthorityPublicationErrorV1,
    >)
        ensures
            exists|resolved: Result<Seq<PublicationChangeView>, AdmissionAuthorityPublicationErrorV1>|
                publication_result_view(r) == #[trigger] prepared_from(resolved, now),
    {
        match source.resolve_publication(now) {
            Err(e) => {
                let ghost resolved: Result<Seq<PublicationChangeView>, AdmissionAuthorityPublicationErrorV1> = Err(e);
                assert(publication_result_view(Err(e)) == prepared_from(resolved, now));
                Err(e)
            },
            Ok(changes) => {
                let ghost resolved: Result<Seq<PublicationChangeView>, AdmissionAuthorityPublicationErrorV1> = Ok(
                    changes_view(changes@),
                );
                let r = Self::from_resolved(changes, now);
                assert(publication_result_view(r) == prepared_from(resolved, now));
                r
            },
        }
    }

    /// The changes of this publication, in order.
    pub fn changes(&self) -> (r: &[AdmissionAuthorityPublicationChangeV1])
        ensures
            changes_view(r@) == self@,
    {
        self.changes.as_slice()
    }

    /// An identical copy of this publication.
    pub fn duplicate(&self) -> (r: Self)
        ensures
            r@ == self@,
    {
        Self { changes: copy_changes(self.changes.as_slice()) }
    }

    /// Whether two publications hold the same changes.
    pub fn same(&self, other: &Self) -> (r: bool)
        ensures
            r == (self@ == other@),
    {
        if self.changes.len() != other.changes.len() {
            proof {
                assert(self@.len() != other@.len());
            }
            return false;
        }
        let mut i: usize = 0;
        while i < self.changes.len()
            invariant
                self.changes@.len() == other.changes@.len(),
                i <= self.changes@.len(),
                forall|k: int| 0 <= k < i ==> self@[k] == other@[k],
            decreases self.changes@.len() - i,
        {
            if !self.changes[i].same(&other.changes[i]) {
                proof {
                    assert(self@[i as int] != other@[i as int]);
                }
                return false;
            }
            i = i + 1;
        }
        assert(self@ =~= other@);
        true
    }

    /// Compares this publication with the locked durable rows of its guards,
    /// atomically: it neither writes rows nor activates anything.
    pub fn validate_locked(&self, current: &[Option<AdmissionAuthorityPublicationChangeV1>]) -> (r: Result<
        (),
        AdmissionAuthorityPublicationErrorV1,
    >)
        ensures
            r == spec_validate_locked(self@, rows_view(current@)),
    {
        let ghost cv = self@;
        let ghost rv = rows_view(current@);
        if current.len() != self.changes.len() {
            return Err(AdmissionAuthorityPublicationErrorV1::Conflict);
        }
        let mut i: usize = 0;
        while i < self.changes.len()
            invariant
                cv == changes_view(self.changes@),
                rv == rows_view(current@),
                current@.len() == self.changes@.len(),
                i <= self.changes@.len(),
                locked_error(cv, rv, i as int) is None,
            decreases self.changes@.len() - i,
        {
            if let Some(e) = row_error_exec(&self.changes[i], &current[i]) {
                proof {
                    assert(locked_error(cv, rv, i + 1) == Some(e));
                    lemma_locked_error_sticks(cv, rv, i + 1, cv.len() as int);
                }
                return Err(e);
            }
            i = i + 1;
        }
        Ok(())
    }
}

proof fn lemma_publication_error_sticks(changes: Seq<PublicationChangeView>, now: i64, n: int, m: int)
    requires
        0 <= n <= m,
        publication_error(changes, now, n) is Some,
    ensures
        publication_error(changes, now, m) == publication_error(changes, now, n),
    decreases m - n,
{
    if n < m {
        lemma_publication_error_sticks(changes, now, n, m - 1);
    }
}

proof fn lemma_locked_error_sticks(
    changes: Seq<PublicationChangeView>,
    rows: Seq<Option<PublicationChangeView>>,
    n: int,
    m: int,
)
    requires
        0 <= n <= m,
        locked_error(changes, rows, n) is Some,
    ensures
        locked_error(changes, rows, m) == locked_error(changes, rows, n),
    decreases m - n,
{
    if n < m {
        lemma_locked_error_sticks(changes, rows, n, m - 1);
    }
}

/// What a bounded queue answered to a submission.
#[derive(Debug, Clone, Copy, PartialEq, Eq, Structural)]
pub enum AdmissionAuthorityPublicationSubmissionV1 {
    Accepted,
    Unavailable,
}

/// A bounded queue: implementations enqueue and return; no database or
/// network operation may hold the logical writer.
pub trait AdmissionAuthorityPublicationPortV1 {
    fn submit(&mut self, request: &AdmissionAuthorityPublicationV1) -> AdmissionAuthorityPublicationSubmissionV1;

    fn reconcile(&mut self, request: &AdmissionAuthorityPublicationV1) -> AdmissionAuthorityPublicationSubmissionV1;
}

/// The durable adapter's normalized completion: the publication it accepted.
pub trait AdmissionAuthorityPublicationCompletionSourceV1 {
    fn accepted_publication(&self) -> Result<AdmissionAuthorityPublicationV1, AdmissionAuthorityPublicationErrorV1>;
}

/// The owner's independently current rows for the given guards.
pub trait AdmissionAuthorityPublicationCurrentSourceV1 {
    fn current_publications(&self, keys: &[AdmissionAuthorityGuardKeyV1]) -> Result<
        Vec<Option<AdmissionAuthorityPublicationChangeV1>>,
        AdmissionAuthorityPublicationErrorV1,
    >;
}

/// The publication a durable adapter reported as accepted.
#[derive(Debug, Clone, PartialEq, Eq)]
pub struct AdmissionAuthorityPublicationReceiptV1 {
    accepted: AdmissionAuthorityPublicationV1,
}

impl View for AdmissionAuthorityPublicationReceiptV1 {
    type V = Seq<PublicationChangeView>;

    closed spec fn view(&self) -> Seq<PublicationChangeView> {
        self.accepted@
    }
}

impl AdmissionAuthorityPublicationReceiptV1 {
    /// The receipt of what the completion source reports as accepted; its
    /// error is passed on. What the source reports is its own: nothing more
    /// is known of the receipt.
    pub fn resolve<S: AdmissionAuthorityPublicationCompletionSourceV1>(source: &S) -> Result<
        Self,
        AdmissionAuthorityPublicationErrorV1,
    > {
        match source.accepted_publication() {
            Ok(accepted) => Ok(Self { accepted }),
            Err(e) => Err(e),
        }
    }

    /// The publication this receipt reports as accepted.
    pub fn accepted(&self) -> (r: &AdmissionAuthorityPublicationV1)
        ensures
            r@ == self@,
    {
        &self.accepted
    }
}

/// Where a publication stands.
#[derive(Debug, Clone, Copy, PartialEq, Eq, Structural)]
pub enum AdmissionAuthorityPublicationPhaseV1 {
    Ready,
    Pending,
    ReconcileRequired,
    Active,
}

/// The life of one publication, from submission to activation.
pub struct AdmissionAuthorityPublicationFlowV1 {
    request: AdmissionAuthorityPublicationV1,
    phase: AdmissionAuthorityPublicationPhaseV1,
    queries: Ghost<Seq<Seq<GuardKeyView>>>,
}

pub struct PublicationFlowView {
    pub request: Seq<PublicationChangeView>,
    pub phase: AdmissionAuthorityPublicationPhaseV1,
}

impl View for AdmissionAuthorityPublicationFlowV1 {
    type V = PublicationFlowView;

    closed spec fn view(&self) -> PublicationFlowView {
        PublicationFlowView { request: self.request@, phase: self.phase }
    }
}

/// Submitting a ready publication, given what the queue answered.
pub open spec fn spec_publication_submit(f: PublicationFlowView, answer: AdmissionAuthorityPublicationSubmissionV1) -> (
    PublicationFlowView,
    Result<(), AdmissionAuthorityPublicationErrorV1>,
) {
    if f.phase != AdmissionAuthorityPublicationPhaseV1::Ready {
        (f, Err(AdmissionAuthorityPublicationErrorV1::WrongPhase))
    } else if answer == AdmissionAuthorityPublicationSubmissionV1::Unavailable {
        (f, Err(AdmissionAuthorityPublicationErrorV1::Unavailable))
    } else {
        (PublicationFlowView { phase: AdmissionAuthorityPublicationPhaseV1::Pending, ..f }, Ok(()))
    }
}

/// Asking again about a publication whose outcome is unknown, given what
/// the queue answered. It never activates anything.
pub open spec fn spec_publication_reconcile(
    f: PublicationFlowView,
    answer: AdmissionAuthorityPublicationSubmissionV1,
) -> (PublicationFlowView, Result<(), AdmissionAuthorityPublicationErrorV1>) {
    if f.phase != AdmissionAuthorityPublicationPhaseV1::ReconcileRequired {
        (f, Err(AdmissionAuthorityPublicationErrorV1::WrongPhase))
    } else if answer == AdmissionAuthorityPublicationSubmissionV1::Unavailable {
        (f, Err(AdmissionAuthorityPublicationErrorV1::Unavailable))
    } else {
        (f, Ok(()))
    }
}

/// Activating a submitted publication from its receipt, given the
/// independently current rows of its guards: only the exact request, and
/// only while every guard still holds exactly its change.
pub open spec fn spec_publication_accept(
    f: PublicationFlowView,
    receipt: Seq<PublicationChangeView>,
    current: Result<Seq<Option<PublicationChangeView>>, AdmissionAuthorityPublicationErrorV1>,
) -> (PublicationFlowView, Result<(), AdmissionAuthorityPublicationErrorV1>) {
    if !(f.phase == AdmissionAuthorityPublicationPhaseV1::Pending || f.phase
        == AdmissionAuthorityPublicationPhaseV1::ReconcileRequired) {
        (f, Err(AdmissionAuthorityPublicationErrorV1::WrongPhase))
    } else if receipt != f.request {
        (f, Err(AdmissionAuthorityPublicationErrorV1::Conflict))
    } else {
        match current {
            Err(e) => (f, Err(e)),
            Ok(rows) => if rows.len() != f.request.len() || exists|i: int|
                0 <= i < rows.len() && #[trigger] rows[i] != Some(f.request[i]) {
                (f, Err(AdmissionAuthorityPublicationErrorV1::Stale))
            } else {
                (PublicationFlowView { phase: AdmissionAuthorityPublicationPhaseV1::Active, ..f }, Ok(()))
            },
        }
    }
}

/// The guard keys of a publication's changes, in order.
pub open spec fn guard_keys(changes: Seq<PublicationChangeView>) -> Seq<GuardKeyView> {
    changes.map_values(|c: PublicationChangeView| c.key)
}

/// What activation asks the current source for: the keys of every guard
/// of the request, once, and only when the phase and receipt allow it.
pub open spec fn accept_queries(f: PublicationFlowView, receipt: Seq<PublicationChangeView>) -> Seq<
    Seq<GuardKeyView>,
> {
    if !(f.phase == AdmissionAuthorityPublicationPhaseV1::Pending || f.phase
        == AdmissionAuthorityPublicationPhaseV1::ReconcileRequired) || receipt != f.request {
        Seq::empty()
    } else {
        seq![guard_keys(f.request)]
    }
}

fn keys_of(changes: &[AdmissionAuthorityPublicationChangeV1]) -> (r: Vec<AdmissionAuthorityGuardKeyV1>)
    ensures
        r@.len() == changes@.len(),
        forall|i: int| 0 <= i < changes@.len() ==> (#[trigger] r@[i])@ == changes@[i].key@,
{
    let mut keys: Vec<AdmissionAuthorityGuardKeyV1> = Vec::new();
    let mut i: usize = 0;
    while i < changes.len()
        invariant
            i <= changes@.len(),
            keys@.len() == i,
            forall|k: int| 0 <= k < i ==> (#[trigger] keys@[k])@ == changes@[k].key@,
        decreases changes@.len() - i,
    {
        keys.push(changes[i].key.duplicate());
        i = i + 1;
    }
    keys
}

impl AdmissionAuthorityPublicationFlowV1 {
    pub fn new(request: AdmissionAuthorityPublicationV1) -> (r: Self)
        ensures
            r@ == (PublicationFlowView { request: request@, phase: AdmissionAuthorityPublicationPhaseV1::Ready }),
            r.current_queries() == Seq::<Seq<GuardKeyView>>::empty(),
    {
        Self { request, phase: AdmissionAuthorityPublicationPhaseV1::Ready, queries: Ghost(Seq::empty()) }
    }

    /// Every list of guard keys this flow asked a current source for, in order.
    pub closed spec fn current_queries(&self) -> Seq<Seq<GuardKeyView>> {
        self.queries@
    }

    pub fn phase(&self) -> (r: AdmissionAuthorityPublicationPhaseV1)
        ensures
            r == self@.phase,
    {
        self.phase
    }

    /// Submits a ready publication to the queue.
    pub fn submit<P: AdmissionAuthorityPublicationPortV1>(&mut self, port: &mut P) -> (r: Result<
        (),
        AdmissionAuthorityPublicationErrorV1,
    >)
        ensures
            exists|answer: AdmissionAuthorityPublicationSubmissionV1|
                #[trigger] spec_publication_submit(old(self)@, answer) == (final(self)@, r),
    {
        if self.phase != AdmissionAuthorityPublicationPhaseV1::Ready {
            assert(spec_publication_submit(old(self)@, AdmissionAuthorityPublicationSubmissionV1::Accepted) == (
            self@, Err::<(), AdmissionAuthorityPublicationErrorV1>(AdmissionAuthorityPublicationErrorV1::WrongPhase)));
            return Err(AdmissionAuthorityPublicationErrorV1::WrongPhase);
        }
        let answer = port.submit(&self.request);
        if answer == AdmissionAuthorityPublicationSubmissionV1::Unavailable {
            assert(spec_publication_submit(old(self)@, answer) == (self@, Err::<(), AdmissionAuthorityPublicationErrorV1>(
                AdmissionAuthorityPublicationErrorV1::Unavailable,
            )));
            return Err(AdmissionAuthorityPublicationErrorV1::Unavailable);
        }
        self.phase = AdmissionAuthorityPublicationPhaseV1::Pending;
        assert(spec_publication_submit(old(self)@, answer) == (self@, Ok::<(), AdmissionAuthorityPublicationErrorV1>(())));
        Ok(())
    }

    /// The outcome of a pending submission is unknown: it must be reconciled.
    pub fn ambiguous(&mut self) -> (r: Result<(), AdmissionAuthorityPublicationErrorV1>)
        ensures
            old(self)@.phase == AdmissionAuthorityPublicationPhaseV1::Pending ==> r is Ok && final(self)@ == (
            PublicationFlowView { phase: AdmissionAuthorityPublicationPhaseV1::ReconcileRequired, ..old(self)@ }),
            old(self)@.phase != AdmissionAuthorityPublicationPhaseV1::Pending ==> r == Err::<
                (),
                AdmissionAuthorityPublicationErrorV1,
            >(AdmissionAuthorityPublicationErrorV1::WrongPhase) && final(self)@ == old(self)@,
    {
        if self.phase != AdmissionAuthorityPublicationPhaseV1::Pending {
            return Err(AdmissionAuthorityPublicationErrorV1::WrongPhase);
        }
        self.phase = AdmissionAuthorityPublicationPhaseV1::ReconcileRequired;
        Ok(())
    }

    /// Asks the queue again about a publication whose outcome is unknown.
    pub fn reconcile<P: AdmissionAuthorityPublicationPortV1>(&mut self, port: &mut P) -> (r: Result<
        (),
        AdmissionAuthorityPublicationErrorV1,
    >)
        ensures
            exists|answer: AdmissionAuthorityPublicationSubmissionV1|
                #[trigger] spec_publication_reconcile(old(self)@, answer) == (final(self)@, r),
    {
        if self.phase != AdmissionAuthorityPublicationPhaseV1::ReconcileRequired {
            assert(spec_publication_reconcile(old(self)@, AdmissionAuthorityPublicationSubmissionV1::Accepted) == (
            self@, Err::<(), AdmissionAuthorityPublicationErrorV1>(AdmissionAuthorityPublicationErrorV1::WrongPhase)));
            return Err(AdmissionAuthorityPublicationErrorV1::WrongPhase);
        }
        let answer = port.reconcile(&self.request);
        if answer == AdmissionAuthorityPublicationSubmissionV1::Unavailable {
            assert(spec_publication_reconcile(old(self)@, answer) == (self@, Err::<(), AdmissionAuthorityPublicationErrorV1>(
                AdmissionAuthorityPublicationErrorV1::Unavailable,
            )));
            return Err(AdmissionAuthorityPublicationErrorV1::Unavailable);
        }
        assert(spec_publication_reconcile(old(self)@, answer) == (self@, Ok::<(), AdmissionAuthorityPublicationErrorV1>(())));
        Ok(())
    }

    /// Activates the publication from its receipt against the independently
    /// current rows of its guards.
    pub fn accept<C: AdmissionAuthorityPublicationCurrentSourceV1>(
        &mut self,
        receipt: &AdmissionAuthorityPublicationReceiptV1,
        current: &C,
    ) -> (r: Result<(), AdmissionAuthorityPublicationErrorV1>)
        ensures
            exists|rows: Result<Seq<Option<PublicationChangeView>>, AdmissionAuthorityPublicationErrorV1>|
                #[trigger] spec_publication_accept(old(self)@, receipt@, rows) == (final(self)@, r),
            final(self).current_queries() == old(self).current_queries() + accept_queries(old(self)@, receipt@),
    {
        let ghost unasked: Result<Seq<Option<PublicationChangeView>>, AdmissionAuthorityPublicationErrorV1> = Ok(Seq::empty());
        if !(self.phase == AdmissionAuthorityPublicationPhaseV1::Pending || self.phase
            == AdmissionAuthorityPublicationPhaseV1::ReconcileRequired) {
            assert(spec_publication_accept(old(self)@, receipt@, unasked) == (self@, Err::<(), AdmissionAuthorityPublicationErrorV1>(
                AdmissionAuthorityPublicationErrorV1::WrongPhase,
            )));
            return Err(AdmissionAuthorityPublicationErrorV1::WrongPhase);
        }
        if !receipt.accepted.same(&self.request) {
            assert(spec_publication_accept(old(self)@, receipt@, unasked) == (self@, Err::<(), AdmissionAuthorityPublicationErrorV1>(
                AdmissionAuthorityPublicationErrorV1::Conflict,
            )));
            return Err(AdmissionAuthorityPublicationErrorV1::Conflict);
        }
        let keys = keys_of(self.request.changes());
        proof {
            assert(keys@.map_values(|k: AdmissionAuthorityGuardKeyV1| k@) =~= guard_keys(self.request@));
            self.queries@ = self.queries@.push(keys@.map_values(|k: AdmissionAuthorityGuardKeyV1| k@));
            assert(self.queries@ =~= old(self).current_queries() + accept_queries(old(self)@, receipt@));
        }
        let rows = match current.current_publications(keys.as_slice()) {
            Ok(rows) => rows,
            Err(e) => {
                let ghost failed: Result<Seq<Option<PublicationChangeView>>, AdmissionAuthorityPublicationErrorV1> = Err(e);
                assert(spec_publication_accept(old(self)@, receipt@, failed) == (self@, Err::<(), AdmissionAuthorityPublicationErrorV1>(e)));
                return Err(e);
            },
        };
        let ghost answered: Result<Seq<Option<PublicationChangeView>>, AdmissionAuthorityPublicationErrorV1> = Ok(
            rows_view(rows@),
        );
        let ghost rv = rows_view(rows@);
        let ghost request = self.request@;
        if rows.len() != self.request.changes.len() {
            assert(rv.len() != request.len());
            assert(spec_publication_accept(old(self)@, receipt@, answered) == (self@, Err::<(), AdmissionAuthorityPublicationErrorV1>(
                AdmissionAuthorityPublicationErrorV1::Stale,
            )));
            return Err(AdmissionAuthorityPublicationErrorV1::Stale);
        }
        let mut i: usize = 0;
        while i < rows.len()
            invariant
                rows@.len() == self.request.changes@.len(),
                rv == rows_view(rows@),
                self@ == old(self)@,
                self.current_queries() == old(self).current_queries() + accept_queries(old(self)@, receipt@),
                receipt@ == request,
                answered == Ok::<Seq<Option<PublicationChangeView>>, AdmissionAuthorityPublicationErrorV1>(rv),
                old(self)@.phase == AdmissionAuthorityPublicationPhaseV1::Pending || old(self)@.phase
                    == AdmissionAuthorityPublicationPhaseV1::ReconcileRequired,
                request == self.request@,
                request == changes_view(self.request.changes@),
                i <= rows@.len(),
                forall|k: int| 0 <= k < i ==> rv[k] == Some(request[k]),
            decreases rows@.len() - i,
        {
            if !row_holds(&rows[i], &self.request.changes[i]) {
                proof {
                    assert(rv[i as int] != Some(request[i as int]));
                }
                assert(spec_publication_accept(old(self)@, receipt@, answered) == (self@, Err::<(), AdmissionAuthorityPublicationErrorV1>(
                    AdmissionAuthorityPublicationErrorV1::Stale,
                )));
                return Err(AdmissionAuthorityPublicationErrorV1::Stale);
            }
            i = i + 1;
        }
        self.phase = AdmissionAuthorityPublicationPhaseV1::Active;
        assert(spec_publication_accept(old(self)@, receipt@, answered) == (self@, Ok::<(), AdmissionAuthorityPublicationErrorV1>(())));
        Ok(())
    }

    /// The publication, once it is active.
    pub fn active_publication(&self) -> (r: Option<&AdmissionAuthorityPublicationV1>)
        ensures
            r is Some <==> self@.phase == AdmissionAuthorityPublicationPhaseV1::Active,
            r matches Some(p) ==> p@ == self@.request,
    {
        if self.phase == AdmissionAuthorityPublicationPhaseV1::Active {
            Some(&self.request)
        } else {
            None
        }
    }
}

/// A session snapshot on authenticated transports.
pub type SessionSnapshot = GameSessionAuthoritySnapshot<AuthenticatedTransportRefV1>;

/// A session snapshot, by value.
pub type SessionSnapshotView = GameSessionAuthoritySnapshotView<AuthenticatedTransportRefV1>;

/// Lossless conditional effects of one claim transition: the two claim
/// guards before and after, prepared at one time.
#[derive(Debug, Clone, PartialEq, Eq)]
pub struct AdmissionClaimTransitionEvidenceV1 {
    pub predecessors: Vec<AdmissionAuthorityPublicationChangeV1>,
    pub successors: Vec<AdmissionAuthorityPublicationChangeV1>,
    pub prepared_at: i64,
}

pub struct ClaimTransitionView {
    pub predecessors: Seq<PublicationChangeView>,
    pub successors: Seq<PublicationChangeView>,
    pub prepared_at: i64,
}

impl View for AdmissionClaimTransitionEvidenceV1 {
    type V = ClaimTransitionView;

    open spec fn view(&self) -> ClaimTransitionView {
        ClaimTransitionView {
            predecessors: changes_view(self.predecessors@),
            successors: changes_view(self.successors@),
            prepared_at: self.prepared_at,
        }
    }
}

impl AdmissionClaimTransitionEvidenceV1 {
    /// An identical copy of this evidence.
    pub fn duplicate(&self) -> (r: Self)
        ensures
            r@ == self@,
    {
        Self {
            predecessors: copy_changes(self.predecessors.as_slice()),
            successors: copy_changes(self.successors.as_slice()),
            prepared_at: self.prepared_at,
        }
    }
}

/// Why one predecessor/successor pair is no exact compare-and-set step made
/// at `prepared_at`, if it is not.
pub open spec fn pair_step_error(
    prior: PublicationChangeView,
    next: PublicationChangeView,
    prepared_at: i64,
    now: i64,
) -> Option<AdmissionAuthorityPublicationErrorV1> {
    if !change_valid(prior, now) || !change_valid(next, now) {
        Some(AdmissionAuthorityPublicationErrorV1::Invalid)
    } else if prior.key != next.key || prior.source.authority != next.source.authority || prior.source.purpose
        != next.source.purpose || next.precondition != (AdmissionPublicationPreconditionV1::CompareAndSet {
        expected_publication_revision: prior.publication_revision,
    }) || prior.publication_revision + 1 != next.publication_revision || next.source.source_revision
        <= prior.source.source_revision || next.source.decision_identity == prior.source.decision_identity
        || next.source.source_observed_at < prior.source.source_observed_at || next.source.source_observed_at
        != prepared_at {
        Some(AdmissionAuthorityPublicationErrorV1::Stale)
    } else {
        None
    }
}

/// The pair is an account guard and a character guard of the same account,
/// whose security observation, world and eligibility the step keeps.
pub open spec fn claim_pair_shape(e: ClaimTransitionView) -> bool {
    match (e.predecessors[0].key, e.predecessors[0].state, e.successors[0].state) {
        (
            GuardKeyView::Account { account_id },
            GuardStateView::Account { security: before, .. },
            GuardStateView::Account { security: after, .. },
        ) => match (e.predecessors[1].key, e.predecessors[1].state, e.successors[1].state) {
            (
                GuardKeyView::Character(_),
                GuardStateView::Character { account_id: a, world_id: w, eligible: x, .. },
                GuardStateView::Character { account_id: b, world_id: v, eligible: y, .. },
            ) => same_security_observation(before, after) && a == b && a == account_id && w == v && x == y,
            _ => false,
        },
        _ => false,
    }
}

/// Whether the evidence is an exact account-and-character claim step.
pub open spec fn claim_pair_result(e: ClaimTransitionView, now: i64) -> Result<(), AdmissionAuthorityPublicationErrorV1> {
    if e.predecessors.len() != 2 || e.successors.len() != 2 || e.prepared_at < 0 || now < e.prepared_at {
        Err(AdmissionAuthorityPublicationErrorV1::Invalid)
    } else {
        match pair_step_error(e.predecessors[0], e.successors[0], e.prepared_at, now) {
            Some(x) => Err(x),
            None => match pair_step_error(e.predecessors[1], e.successors[1], e.prepared_at, now) {
                Some(x) => Err(x),
                None => if claim_pair_shape(e) {
                    Ok(())
                } else {
                    Err(AdmissionAuthorityPublicationErrorV1::Invalid)
                },
            },
        }
    }
}

/// The account guard shows the session's presence and the character guard
/// its holding, for exactly the session's character, world and lease.
pub open spec fn session_claims_match(
    account_id: Seq<char>,
    s: SessionSnapshotView,
    account: PublicationChangeView,
    character: PublicationChangeView,
) -> bool {
    let commit = s.commit;
    match (account.key, account.state) {
        (GuardKeyView::Account { account_id: a }, GuardStateView::Account { presence: Some((ch, session)), .. }) => match (
            character.key,
            character.state,
        ) {
            (
                GuardKeyView::Character(c),
                GuardStateView::Character { account_id: b, world_id, lease_generation, holder: Some(holder), .. },
            ) => a == account_id && b == account_id && ch == commit.character_id && c == ch && session
                == commit.game_session_id && holder == session && world_id == commit.world_id && lease_generation
                == s.current_character_lease@.generation,
            _ => false,
        },
        _ => false,
    }
}

/// Whether a consistent session snapshot and its two claim guards agree.
pub open spec fn session_claims_result(
    account_id: Seq<char>,
    s: SessionSnapshotView,
    claims: Seq<PublicationChangeView>,
) -> Result<(), AdmissionAuthorityPublicationErrorV1> {
    let commit = s.commit;
    let lease = s.current_character_lease@;
    if claims.len() != 2 || account_id.len() == 0 || lease.character_id != commit.character_id || lease.generation
        < commit.character_lease_generation || s.current_connection_generation@ < commit.connection_generation@
        || s.current_scope_generation@ < commit.scope_ownership_generation || s.current_runtime_scope.spec_world_id()
        != commit.world_id || !((s.session_state == GameSessionState::Active && s.current_transport is Some) || ((
    s.session_state == GameSessionState::Reconnectable || s.session_state == GameSessionState::Terminal)
        && s.current_transport is None)) {
        Err(AdmissionAuthorityPublicationErrorV1::Stale)
    } else if session_claims_match(account_id, s, claims[0], claims[1]) {
        Ok(())
    } else {
        Err(AdmissionAuthorityPublicationErrorV1::Stale)
    }
}

/// Whether an already authorized reconnect or control-loss write preserves
/// the session and both claim rows exactly.
pub open spec fn claim_preserving_result(
    account_id: Seq<char>,
    expected: SessionSnapshotView,
    current: SessionSnapshotView,
    expected_claims: Seq<PublicationChangeView>,
    current_claims: Seq<Option<PublicationChangeView>>,
) -> Result<(), AdmissionAuthorityPublicationErrorV1> {
    if current != expected || current_claims.len() != 2 || expected_claims.len() != 2 || exists|i: int|
        0 <= i < 2 && #[trigger] current_claims[i] != Some(expected_claims[i]) {
        Err(AdmissionAuthorityPublicationErrorV1::Stale)
    } else {
        session_claims_result(account_id, current, expected_claims)
    }
}

fn pair_step_error_exec(
    prior: &AdmissionAuthorityPublicationChangeV1,
    next: &AdmissionAuthorityPublicationChangeV1,
    prepared_at: i64,
    now: i64,
) -> (r: Option<AdmissionAuthorityPublicationErrorV1>)
    ensures
        r == pair_step_error(prior@, next@, prepared_at, now),
{
    if validate_change(prior, now).is_err() || validate_change(next, now).is_err() {
        return Some(AdmissionAuthorityPublicationErrorV1::Invalid);
    }
    let step_expected = AdmissionPublicationPreconditionV1::CompareAndSet {
        expected_publication_revision: prior.publication_revision,
    };
    let successor_revision = match prior.publication_revision.checked_add(1) {
        Some(n) => n == next.publication_revision,
        None => false,
    };
    if !prior.key.same(&next.key) || prior.source.authority != next.source.authority || prior.source.purpose
        != next.source.purpose || next.precondition != step_expected || !successor_revision
        || next.source.source_revision <= prior.source.source_revision || next.source.decision_identity
        == prior.source.decision_identity || next.source.source_observed_at < prior.source.source_observed_at
        || next.source.source_observed_at != prepared_at {
        return Some(AdmissionAuthorityPublicationErrorV1::Stale);
    }
    None
}

fn claim_pair_shape_exec(e: &AdmissionClaimTransitionEvidenceV1) -> (r: bool)
    requires
        e@.predecessors.len() == 2,
        e@.successors.len() == 2,
    ensures
        r == claim_pair_shape(e@),
{
    match (&e.predecessors[0].key, &e.predecessors[0].state, &e.successors[0].state) {
        (
            AdmissionAuthorityGuardKeyV1::Account { account_id },
            AdmissionAuthorityGuardStateV1::Account { security: before, .. },
            AdmissionAuthorityGuardStateV1::Account { security: after, .. },
        ) => match (&e.predecessors[1].key, &e.predecessors[1].state, &e.successors[1].state) {
            (
                AdmissionAuthorityGuardKeyV1::Character(_),
                AdmissionAuthorityGuardStateV1::Character { account_id: a, world_id: w, eligible: x, .. },
                AdmissionAuthorityGuardStateV1::Character { account_id: b, world_id: v, eligible: y, .. },
            ) => same_security_observation_exec(before, after) && *a == *b && *a == *account_id && *w == *v && *x
                == *y,
            _ => false,
        },
        _ => false,
    }
}

fn validate_claim_pair(e: &AdmissionClaimTransitionEvidenceV1, now: i64) -> (r: Result<
    (),
    AdmissionAuthorityPublicationErrorV1,
>)
    ensures
        r == claim_pair_result(e@, now),
{
    if e.predecessors.len() != 2 || e.successors.len() != 2 || e.prepared_at < 0 || now < e.prepared_at {
        return Err(AdmissionAuthorityPublicationErrorV1::Invalid);
    }
    if let Some(x) = pair_step_error_exec(&e.predecessors[0], &e.successors[0], e.prepared_at, now) {
        return Err(x);
    }
    if let Some(x) = pair_step_error_exec(&e.predecessors[1], &e.successors[1], e.prepared_at, now) {
        return Err(x);
    }
    if claim_pair_shape_exec(e) {
        Ok(())
    } else {
        Err(AdmissionAuthorityPublicationErrorV1::Invalid)
    }
}

fn session_claims_match_exec(
    account_id: &str,
    s: SessionSnapshot,
    account: &AdmissionAuthorityPublicationChangeV1,
    character: &AdmissionAuthorityPublicationChangeV1,
) -> (r: bool)
    ensures
        r == session_claims_match(account_id@, s@, account@, character@),
{
    let commit = s.commit();
    let lease = s.current_character_lease();
    match (&account.key, &account.state) {
        (
            AdmissionAuthorityGuardKeyV1::Account { account_id: a },
            AdmissionAuthorityGuardStateV1::Account { presence: Some((ch, session)), .. },
        ) => match (&character.key, &character.state) {
            (
                AdmissionAuthorityGuardKeyV1::Character(c),
                AdmissionAuthorityGuardStateV1::Character {
                    account_id: b,
                    world_id,
                    lease_generation,
                    holder: Some(holder),
                    ..
                },
            ) => crate::text::same_text(a.as_str(), account_id) && crate::text::same_text(b.as_str(), account_id) && *ch
                == commit.character_id() && *c == *ch && *session == commit.game_session_id() && *holder == *session
                && *world_id == commit.world_id() && *lease_generation == lease.generation(),
            _ => false,
        },
        _ => false,
    }
}

fn validate_session_claims(account_id: &str, s: SessionSnapshot, claims: &[AdmissionAuthorityPublicationChangeV1]) -> (r: Result<
    (),
    AdmissionAuthorityPublicationErrorV1,
>)
    ensures
        r == session_claims_result(account_id@, s@, changes_view(claims@)),
{
    let commit = s.commit();
    let lease = s.current_character_lease();
    let state = s.session_state();
    let lifecycle_consistent = match (state, s.current_transport()) {
        (GameSessionState::Active, Some(_)) => true,
        (GameSessionState::Reconnectable, None) | (GameSessionState::Terminal, None) => true,
        _ => false,
    };
    if claims.len() != 2 || crate::text::is_empty_text(account_id) || lease.character_id() != commit.character_id()
        || lease.generation() < commit.character_lease_generation() || s.current_connection_generation().get()
        < commit.connection_generation().get() || s.current_scope_generation().get()
        < commit.scope_ownership_generation() || s.current_runtime_scope().world_id() != commit.world_id()
        || !lifecycle_consistent {
        return Err(AdmissionAuthorityPublicationErrorV1::Stale);
    }
    if session_claims_match_exec(account_id, s, &claims[0], &claims[1]) {
        Ok(())
    } else {
        Err(AdmissionAuthorityPublicationErrorV1::Stale)
    }
}

/// An additional predicate for an already authorized reconnect or
/// control-loss write. It cannot grant that write: both snapshots and both
/// claim rows must be independently locked, and every holder, lease and
/// source value is preserved.
pub fn validate_claim_preserving_session_v1(
    account_id: &str,
    expected: SessionSnapshot,
    current: SessionSnapshot,
    expected_claims: &[AdmissionAuthorityPublicationChangeV1],
    current_claims: &[Option<AdmissionAuthorityPublicationChangeV1>],
) -> (r: Result<(), AdmissionAuthorityPublicationErrorV1>)
    ensures
        r == claim_preserving_result(
            account_id@,
            expected@,
            current@,
            changes_view(expected_claims@),
            rows_view(current_claims@),
        ),
{
    proof {
        crate::durability::lemma_transport_obeys_concrete_eq();
    }
    let ghost ec = changes_view(expected_claims@);
    let ghost cc = rows_view(current_claims@);
    if !current.same(expected) || current_claims.len() != 2 || expected_claims.len() != 2 {
        return Err(AdmissionAuthorityPublicationErrorV1::Stale);
    }
    if !row_holds(&current_claims[0], &expected_claims[0]) {
        assert(cc[0] != Some(ec[0]));
        return Err(AdmissionAuthorityPublicationErrorV1::Stale);
    }
    if !row_holds(&current_claims[1], &expected_claims[1]) {
        assert(cc[1] != Some(ec[1]));
        return Err(AdmissionAuthorityPublicationErrorV1::Stale);
    }
    assert(forall|i: int| 0 <= i < 2 ==> cc[i] == Some(ec[i]));
    validate_session_claims(account_id, current, expected_claims)
}

/// The exact intended canonical session effect, not authorization to apply it.
#[derive(Debug, Clone, PartialEq, Eq)]
pub enum AdmissionClaimLifecycleOperationV1 {
    TerminalRelease { account_id: String, current_session: SessionSnapshot },
    TerminalReplacement {
        account_id: String,
        current_session: SessionSnapshot,
        candidate: Box<ReconnectDurabilityRecordV1>,
    },
}

pub enum LifecycleOperationView {
    TerminalRelease { account_id: Seq<char>, current_session: SessionSnapshotView },
    TerminalReplacement {
        account_id: Seq<char>,
        current_session: SessionSnapshotView,
        candidate: ReconnectDurabilityRecordView,
    },
}

impl View for AdmissionClaimLifecycleOperationV1 {
    type V = LifecycleOperationView;

    open spec fn view(&self) -> LifecycleOperationView {
        match self {
            AdmissionClaimLifecycleOperationV1::TerminalRelease { account_id, current_session } => LifecycleOperationView::TerminalRelease {
                account_id: account_id@,
                current_session: current_session@,
            },
            AdmissionClaimLifecycleOperationV1::TerminalReplacement { account_id, current_session, candidate } => LifecycleOperationView::TerminalReplacement {
                account_id: account_id@,
                current_session: current_session@,
                candidate: (**candidate)@,
            },
        }
    }
}

/// The account an operation is for.
pub open spec fn operation_account_id(op: LifecycleOperationView) -> Seq<char> {
    match op {
        LifecycleOperationView::TerminalRelease { account_id, .. } => account_id,
        LifecycleOperationView::TerminalReplacement { account_id, .. } => account_id,
    }
}

/// The session snapshot an operation acts on.
pub open spec fn operation_session(op: LifecycleOperationView) -> SessionSnapshotView {
    match op {
        LifecycleOperationView::TerminalRelease { current_session, .. } => current_session,
        LifecycleOperationView::TerminalReplacement { current_session, .. } => current_session,
    }
}

impl AdmissionClaimLifecycleOperationV1 {
    pub fn account_id(&self) -> (r: &str)
        ensures
            r@ == operation_account_id(self@),
    {
        match self {
            AdmissionClaimLifecycleOperationV1::TerminalRelease { account_id, .. } => account_id.as_str(),
            AdmissionClaimLifecycleOperationV1::TerminalReplacement { account_id, .. } => account_id.as_str(),
        }
    }

    pub fn current_session(&self) -> (r: SessionSnapshot)
        ensures
            r@ == operation_session(self@),
    {
        match self {
            AdmissionClaimLifecycleOperationV1::TerminalRelease { current_session, .. } => *current_session,
            AdmissionClaimLifecycleOperationV1::TerminalReplacement { current_session, .. } => *current_session,
        }
    }

    /// An identical copy of this operation.
    pub fn duplicate(&self) -> (r: Self)
        ensures
            r@ == self@,
    {
        match self {
            AdmissionClaimLifecycleOperationV1::TerminalRelease { account_id, current_session } => AdmissionClaimLifecycleOperationV1::TerminalRelease {
                account_id: account_id.clone(),
                current_session: *current_session,
            },
            AdmissionClaimLifecycleOperationV1::TerminalReplacement { account_id, current_session, candidate } => AdmissionClaimLifecycleOperationV1::TerminalReplacement {
                account_id: account_id.clone(),
                current_session: *current_session,
                candidate: Box::new(candidate.duplicate()),
            },
        }
    }
}

/// What the registered owner independently resolves for an operation: the
/// session and both claim predecessors.
#[derive(Debug, Clone, PartialEq, Eq)]
pub struct AdmissionClaimLifecycleResolutionV1 {
    pub current_session: SessionSnapshot,
    pub evidence: AdmissionClaimTransitionEvidenceV1,
}

pub struct LifecycleResolutionView {
    pub current_session: SessionSnapshotView,
    pub evidence: ClaimTransitionView,
}

impl View for AdmissionClaimLifecycleResolutionV1 {
    type V = LifecycleResolutionView;

    open spec fn view(&self) -> LifecycleResolutionView {
        LifecycleResolutionView { current_session: self.current_session@, evidence: self.evidence@ }
    }
}

/// The registered Game adapter that owns the claims.
pub trait AdmissionClaimOwningSourceV1 {
    fn prepare_lifecycle_claim(
        &self,
        operation: &AdmissionClaimLifecycleOperationV1,
        now: i64,
    ) -> (r: Result<AdmissionClaimLifecycleResolutionV1, AdmissionAuthorityPublicationErrorV1>)
        default_ensures
            r == Err::<AdmissionClaimLifecycleResolutionV1, AdmissionAuthorityPublicationErrorV1>(
                AdmissionAuthorityPublicationErrorV1::Unavailable,
            ),
    {
        Err(AdmissionAuthorityPublicationErrorV1::Unavailable)
    }
}

/// A release drops the account's presence and the character's holder and
/// keeps the lease generation.
pub open spec fn release_shape(e: ClaimTransitionView) -> bool {
    match (e.successors[0].state, e.predecessors[1].state, e.successors[1].state) {
        (
            GuardStateView::Account { presence: None, .. },
            GuardStateView::Character { lease_generation: old, .. },
            GuardStateView::Character { holder: None, lease_generation: new, .. },
        ) => old == new,
        _ => false,
    }
}

/// A replacement moves presence and holding to the candidate session with
/// the candidate's lease generation, unchanged from the predecessor's.
pub open spec fn replacement_shape(e: ClaimTransitionView, candidate: ReconnectDurabilityRecordView) -> bool {
    match (e.successors[0].state, e.predecessors[1].state, e.successors[1].state) {
        (
            GuardStateView::Account { presence: Some((ch, session)), .. },
            GuardStateView::Character { lease_generation: old, .. },
            GuardStateView::Character { holder: Some(holder), lease_generation: new, .. },
        ) => ch == candidate.identity.character_id && session == candidate.identity.game_session_id && holder
            == session && old == new && new == candidate.authority@.character_lease_generation,
        _ => false,
    }
}

/// Whether the claim transition is exactly the effect of the operation at `now`.
pub open spec fn lifecycle_effects_result(op: LifecycleOperationView, e: ClaimTransitionView, now: i64) -> Result<
    (),
    AdmissionAuthorityPublicationErrorV1,
> {
    match claim_pair_result(e, now) {
        Err(x) => Err(x),
        Ok(()) => match session_claims_result(operation_account_id(op), operation_session(op), e.predecessors) {
            Err(x) => Err(x),
            Ok(()) => match op {
                LifecycleOperationView::TerminalRelease { .. } => if release_shape(e) {
                    Ok(())
                } else {
                    Err(AdmissionAuthorityPublicationErrorV1::Invalid)
                },
                LifecycleOperationView::TerminalReplacement { account_id, current_session, candidate } => if !canonical_uuid_text(
                    account_id,
                ) || !replacement_permitted(
                    account_id,
                    Some(AccountPresenceClaimView { account_id, character_id: current_session.commit.character_id }),
                    current_session.commit.game_session_id,
                    candidate.identity.game_session_id,
                    current_session,
                    candidate,
                ) || now > candidate.continuity@.prepared_deadline || now > candidate.continuity@.original_grace_deadline
                    || !replacement_shape(e, candidate) {
                    Err(AdmissionAuthorityPublicationErrorV1::Invalid)
                } else {
                    Ok(())
                },
            },
        },
    }
}

/// Persistable historical operation and its claim effects.
#[derive(Debug, Clone, PartialEq, Eq)]
pub struct AdmissionClaimLifecycleEvidenceV1 {
    pub operation: AdmissionClaimLifecycleOperationV1,
    pub transition: AdmissionClaimTransitionEvidenceV1,
}

pub struct LifecycleEvidenceView {
    pub operation: LifecycleOperationView,
    pub transition: ClaimTransitionView,
}

impl View for AdmissionClaimLifecycleEvidenceV1 {
    type V = LifecycleEvidenceView;

    open spec fn view(&self) -> LifecycleEvidenceView {
        LifecycleEvidenceView { operation: self.operation@, transition: self.transition@ }
    }
}

/// The evidence an owner's resolution gives for an operation: only a
/// resolution of the very session the operation acts on, whose claim
/// transition is exactly the operation's effect.
pub open spec fn lifecycle_from_resolution(
    op: LifecycleOperationView,
    resolution: LifecycleResolutionView,
    now: i64,
) -> Result<LifecycleEvidenceView, AdmissionAuthorityPublicationErrorV1> {
    if resolution.current_session != operation_session(op) {
        Err(AdmissionAuthorityPublicationErrorV1::Stale)
    } else {
        match lifecycle_effects_result(op, resolution.evidence, now) {
            Err(x) => Err(x),
            Ok(()) => Ok(LifecycleEvidenceView { operation: op, transition: resolution.evidence }),
        }
    }
}

/// The evidence prepared from whatever the owner answered.
pub open spec fn lifecycle_prepared(
    op: LifecycleOperationView,
    resolved: Result<LifecycleResolutionView, AdmissionAuthorityPublicationErrorV1>,
    now: i64,
) -> Result<LifecycleEvidenceView, AdmissionAuthorityPublicationErrorV1> {
    match resolved {
        Err(e) => Err(e),
        Ok(resolution) => lifecycle_from_resolution(op, resolution, now),
    }
}

/// Whether the locked rows and current session still match the evidence.
pub open spec fn lifecycle_locked_result(
    ev: LifecycleEvidenceView,
    rows: Seq<Option<PublicationChangeView>>,
    current: SessionSnapshotView,
    now: i64,
) -> Result<(), AdmissionAuthorityPublicationErrorV1> {
    if current != operation_session(ev.operation) || rows.len() != 2 || exists|i: int|
        0 <= i < rows.len() && i < ev.transition.predecessors.len() && #[trigger] rows[i] != Some(
            ev.transition.predecessors[i],
        ) {
        Err(AdmissionAuthorityPublicationErrorV1::Stale)
    } else {
        lifecycle_effects_result(ev.operation, ev.transition, now)
    }
}

pub open spec fn lifecycle_evidence_result_view(
    r: Result<AdmissionClaimLifecycleEvidenceV1, AdmissionAuthorityPublicationErrorV1>,
) -> Result<LifecycleEvidenceView, AdmissionAuthorityPublicationErrorV1> {
    match r {
        Ok(e) => Ok(e@),
        Err(x) => Err(x),
    }
}

fn validate_lifecycle_effects(
    operation: &AdmissionClaimLifecycleOperationV1,
    evidence: &AdmissionClaimTransitionEvidenceV1,
    now: i64,
) -> (r: Result<(), AdmissionAuthorityPublicationErrorV1>)
    ensures
        r == lifecycle_effects_result(operation@, evidence@, now),
{
    let invalid = AdmissionAuthorityPublicationErrorV1::Invalid;
    if let Err(x) = validate_claim_pair(evidence, now) {
        return Err(x);
    }
    if let Err(x) = validate_session_claims(operation.account_id(), operation.current_session(), evidence.predecessors.as_slice()) {
        return Err(x);
    }
    match operation {
        AdmissionClaimLifecycleOperationV1::TerminalRelease { .. } => {
            let released = match (&evidence.successors[0].state, &evidence.predecessors[1].state, &evidence.successors[1].state) {
                (
                    AdmissionAuthorityGuardStateV1::Account { presence: None, .. },
                    AdmissionAuthorityGuardStateV1::Character { lease_generation: old, .. },
                    AdmissionAuthorityGuardStateV1::Character { holder: None, lease_generation: new, .. },
                ) => *old == *new,
                _ => false,
            };
            if released {
                Ok(())
            } else {
                Err(invalid)
            }
        },
        AdmissionClaimLifecycleOperationV1::TerminalReplacement { account_id, current_session, candidate } => {
            let committed = current_session.commit();
            let presence = match AccountPresenceClaimV1::new(account_id.as_str(), committed.character_id()) {
                Ok(p) => p,
                Err(_) => return Err(invalid),
            };
            let identity = candidate.identity();
            if TerminalGameSessionReplacementAuthorizationV1::from_current_authority(
                account_id.as_str(),
                Some(&presence),
                committed.game_session_id(),
                identity.game_session_id(),
                *current_session,
                candidate,
            ).is_err() {
                return Err(invalid);
            }
            let continuity = candidate.continuity();
            if now > continuity.prepared_deadline() || now > continuity.original_grace_deadline() {
                return Err(invalid);
            }
            let replaced = match (&evidence.successors[0].state, &evidence.predecessors[1].state, &evidence.successors[1].state) {
                (
                    AdmissionAuthorityGuardStateV1::Account { presence: Some((ch, session)), .. },
                    AdmissionAuthorityGuardStateV1::Character { lease_generation: old, .. },
                    AdmissionAuthorityGuardStateV1::Character { holder: Some(holder), lease_generation: new, .. },
                ) => *ch == identity.character_id() && *session == identity.game_session_id() && *holder == *session
                    && *old == *new && *new == candidate.authority().character_lease_generation(),
                _ => false,
            };
            if replaced {
                Ok(())
            } else {
                Err(invalid)
            }
        },
    }
}

fn validate_lifecycle_locked(
    evidence: &AdmissionClaimLifecycleEvidenceV1,
    rows: &[Option<AdmissionAuthorityPublicationChangeV1>],
    current: SessionSnapshot,
    now: i64,
) -> (r: Result<(), AdmissionAuthorityPublicationErrorV1>)
    ensures
        r == lifecycle_locked_result(evidence@, rows_view(rows@), current@, now),
{
    proof {
        crate::durability::lemma_transport_obeys_concrete_eq();
    }
    let ghost rv = rows_view(rows@);
    let ghost pv = evidence@.transition.predecessors;
    if !current.same(evidence.operation.current_session()) || rows.len() != 2 {
        return Err(AdmissionAuthorityPublicationErrorV1::Stale);
    }
    let mut i: usize = 0;
    while i < rows.len() && i < evidence.transition.predecessors.len()
        invariant
            rv == rows_view(rows@),
            pv == changes_view(evidence.transition.predecessors@),
            i <= rows@.len(),
            forall|k: int| 0 <= k < i ==> rv[k] == Some(pv[k]),
        decreases rows@.len() - i,
    {
        if !row_holds(&rows[i], &evidence.transition.predecessors[i]) {
            assert(rv[i as int] != Some(pv[i as int]));
            return Err(AdmissionAuthorityPublicationErrorV1::Stale);
        }
        i = i + 1;
    }
    assert(!(exists|k: int| 0 <= k < rv.len() && k < pv.len() && #[trigger] rv[k] != Some(pv[k])));
    evidence.validate_historical(now)
}

impl AdmissionClaimLifecycleEvidenceV1 {
    /// Whether the stored claim effects are exactly the operation's effect
    /// as of `decided_at`.
    pub fn validate_historical(&self, decided_at: i64) -> (r: Result<(), AdmissionAuthorityPublicationErrorV1>)
        ensures
            r == lifecycle_effects_result(self@.operation, self@.transition, decided_at),
    {
        validate_lifecycle_effects(&self.operation, &self.transition, decided_at)
    }

    /// The evidence of an operation from what its owner resolved.
    pub fn from_resolution(
        operation: AdmissionClaimLifecycleOperationV1,
        resolution: AdmissionClaimLifecycleResolutionV1,
        now: i64,
    ) -> (r: Result<Self, AdmissionAuthorityPublicationErrorV1>)
        ensures
            lifecycle_evidence_result_view(r) == lifecycle_from_resolution(operation@, resolution@, now),
    {
        proof {
            crate::durability::lemma_transport_obeys_concrete_eq();
        }
        if !resolution.current_session.same(operation.current_session()) {
            return Err(AdmissionAuthorityPublicationErrorV1::Stale);
        }
        let evidence = Self { operation, transition: resolution.evidence };
        match evidence.validate_historical(now) {
            Err(x) => Err(x),
            Ok(()) => Ok(evidence),
        }
    }

    /// An identical copy of this evidence.
    pub fn duplicate(&self) -> (r: Self)
        ensures
            r@ == self@,
    {
        Self { operation: self.operation.duplicate(), transition: self.transition.duplicate() }
    }
}

fn prepare_lifecycle<O: AdmissionClaimOwningSourceV1>(
    owner: &O,
    operation: AdmissionClaimLifecycleOperationV1,
    now: i64,
) -> (r: Result<AdmissionClaimLifecycleEvidenceV1, AdmissionAuthorityPublicationErrorV1>)
    ensures
        exists|resolved: Result<LifecycleResolutionView, AdmissionAuthorityPublicationErrorV1>|
            lifecycle_evidence_result_view(r) == #[trigger] lifecycle_prepared(operation@, resolved, now),
{
    let ghost op = operation@;
    match owner.prepare_lifecycle_claim(&operation, now) {
        Err(e) => {
            let ghost resolved: Result<LifecycleResolutionView, AdmissionAuthorityPublicationErrorV1> = Err(e);
            assert(lifecycle_evidence_result_view(Err(e)) == lifecycle_prepared(op, resolved, now));
            Err(e)
        },
        Ok(resolution) => {
            let ghost resolved: Result<LifecycleResolutionView, AdmissionAuthorityPublicationErrorV1> = Ok(resolution@);
            let r = AdmissionClaimLifecycleEvidenceV1::from_resolution(operation, resolution, now);
            assert(lifecycle_evidence_result_view(r) == lifecycle_prepared(op, resolved, now));
            r
        },
    }
}

/// An owner-prepared release of a terminal session's claims; it must
/// accompany the exact fenced terminal session write.
#[derive(Debug, Clone)]
pub struct TerminalReleaseClaimTransitionV1 {
    evidence: AdmissionClaimLifecycleEvidenceV1,
}

impl View for TerminalReleaseClaimTransitionV1 {
    type V = LifecycleEvidenceView;

    closed spec fn view(&self) -> LifecycleEvidenceView {
        self.evidence@
    }
}

pub open spec fn release_result_view(
    r: Result<TerminalReleaseClaimTransitionV1, AdmissionAuthorityPublicationErrorV1>,
) -> Result<LifecycleEvidenceView, AdmissionAuthorityPublicationErrorV1> {
    match r {
        Ok(t) => Ok(t@),
        Err(x) => Err(x),
    }
}

/// The successors a locked validation hands out, by value.
pub open spec fn successors_result_view(
    r: Result<&[AdmissionAuthorityPublicationChangeV1], AdmissionAuthorityPublicationErrorV1>,
) -> Result<Seq<PublicationChangeView>, AdmissionAuthorityPublicationErrorV1> {
    match r {
        Ok(s) => Ok(changes_view(s@)),
        Err(x) => Err(x),
    }
}

/// What a locked validation of lifecycle evidence hands out: its successors.
pub open spec fn locked_successors(
    ev: LifecycleEvidenceView,
    rows: Seq<Option<PublicationChangeView>>,
    current: SessionSnapshotView,
    now: i64,
) -> Result<Seq<PublicationChangeView>, AdmissionAuthorityPublicationErrorV1> {
    match lifecycle_locked_result(ev, rows, current, now) {
        Err(x) => Err(x),
        Ok(()) => Ok(ev.transition.successors),
    }
}

impl TerminalReleaseClaimTransitionV1 {
    /// Prepares the release of `current_session`'s claims with its owner.
    pub fn prepare<O: AdmissionClaimOwningSourceV1>(
        owner: &O,
        account_id: &str,
        current_session: SessionSnapshot,
        now: i64,
    ) -> (r: Result<Self, AdmissionAuthorityPublicationErrorV1>)
        ensures
            exists|resolved: Result<LifecycleResolutionView, AdmissionAuthorityPublicationErrorV1>|
                release_result_view(r) == #[trigger] lifecycle_prepared(
                    LifecycleOperationView::TerminalRelease {
                        account_id: account_id@,
                        current_session: current_session@,
                    },
                    resolved,
                    now,
                ),
    {
        let operation = AdmissionClaimLifecycleOperationV1::TerminalRelease {
            account_id: account_id.to_owned(),
            current_session,
        };
        match prepare_lifecycle(owner, operation, now) {
            Ok(evidence) => Ok(Self { evidence }),
            Err(x) => Err(x),
        }
    }

    pub fn evidence(&self) -> (r: &AdmissionClaimLifecycleEvidenceV1)
        ensures
            r@ == self@,
    {
        &self.evidence
    }

    /// Validates the release against the locked claim rows and current
    /// session; on success it hands out the claim successors to write.
    pub fn validate_locked(
        &self,
        rows: &[Option<AdmissionAuthorityPublicationChangeV1>],
        current: SessionSnapshot,
        now: i64,
    ) -> (r: Result<&[AdmissionAuthorityPublicationChangeV1], AdmissionAuthorityPublicationErrorV1>)
        ensures
            successors_result_view(r) == locked_successors(self@, rows_view(rows@), current@, now),
    {
        match validate_lifecycle_locked(&self.evidence, rows, current, now) {
            Err(x) => Err(x),
            Ok(()) => Ok(self.evidence.transition.successors.as_slice()),
        }
    }
}

/// What must hold before a replacement is even offered to its owner, and
/// why it is refused if it does not.
pub open spec fn replacement_refusal(
    authorization: TerminalReplacementView,
    current_session: SessionSnapshotView,
    candidate: ReconnectDurabilityRecordView,
) -> Option<AdmissionAuthorityPublicationErrorV1> {
    let account_id = authorization.account_id;
    if !canonical_uuid_text(account_id) {
        Some(AdmissionAuthorityPublicationErrorV1::Invalid)
    } else if !replacement_permitted(
        account_id,
        Some(AccountPresenceClaimView { account_id, character_id: current_session.commit.character_id }),
        current_session.commit.game_session_id,
        candidate.identity.game_session_id,
        current_session,
        candidate,
    ) || replacement_authorization_of(
        account_id,
        current_session.commit.game_session_id,
        candidate.identity.game_session_id,
        current_session,
        candidate,
    ) != authorization {
        Some(AdmissionAuthorityPublicationErrorV1::Stale)
    } else {
        None
    }
}

/// The replacement evidence prepared from whatever the owner answered.
pub open spec fn replacement_prepared(
    authorization: TerminalReplacementView,
    current_session: SessionSnapshotView,
    candidate: ReconnectDurabilityRecordView,
    resolved: Result<LifecycleResolutionView, AdmissionAuthorityPublicationErrorV1>,
    now: i64,
) -> Result<LifecycleEvidenceView, AdmissionAuthorityPublicationErrorV1> {
    match replacement_refusal(authorization, current_session, candidate) {
        Some(x) => Err(x),
        None => lifecycle_prepared(
            LifecycleOperationView::TerminalReplacement {
                account_id: authorization.account_id,
                current_session,
                candidate,
            },
            resolved,
            now,
        ),
    }
}

/// An owner-authored replacement of a terminal session by a candidate; the
/// canonical reconnect authorization and every session effect remain the
/// durable adapter's prerequisites.
#[derive(Debug, Clone)]
pub struct TerminalReplacementClaimTransitionV1 {
    evidence: AdmissionClaimLifecycleEvidenceV1,
}

impl View for TerminalReplacementClaimTransitionV1 {
    type V = LifecycleEvidenceView;

    closed spec fn view(&self) -> LifecycleEvidenceView {
        self.evidence@
    }
}

pub open spec fn replacement_result_view(
    r: Result<TerminalReplacementClaimTransitionV1, AdmissionAuthorityPublicationErrorV1>,
) -> Result<LifecycleEvidenceView, AdmissionAuthorityPublicationErrorV1> {
    match r {
        Ok(t) => Ok(t@),
        Err(x) => Err(x),
    }
}

/// Whether the evidence replaces by exactly this candidate.
pub open spec fn replaces_with(ev: LifecycleEvidenceView, candidate: ReconnectDurabilityRecordView) -> bool {
    ev.operation matches LifecycleOperationView::TerminalReplacement { candidate: expected, .. } && expected == candidate
}

impl TerminalReplacementClaimTransitionV1 {
    /// Prepares the replacement with its owner, once the authorization is
    /// exactly what the current session and the candidate permit.
    pub fn prepare<O: AdmissionClaimOwningSourceV1>(
        owner: &O,
        authorization: &TerminalGameSessionReplacementAuthorizationV1,
        current_session: SessionSnapshot,
        candidate: &ReconnectDurabilityRecordV1,
        now: i64,
    ) -> (r: Result<Self, AdmissionAuthorityPublicationErrorV1>)
        ensures
            exists|resolved: Result<LifecycleResolutionView, AdmissionAuthorityPublicationErrorV1>|
                replacement_result_view(r) == #[trigger] replacement_prepared(
                    authorization@,
                    current_session@,
                    candidate@,
                    resolved,
                    now,
                ),
    {
        let ghost unasked: Result<LifecycleResolutionView, AdmissionAuthorityPublicationErrorV1> = Err(
            AdmissionAuthorityPublicationErrorV1::Unavailable,
        );
        let committed = current_session.commit();
        let presence = match AccountPresenceClaimV1::new(authorization.account_id(), committed.character_id()) {
            Ok(p) => p,
            Err(_) => {
                assert(replacement_result_view(Err(AdmissionAuthorityPublicationErrorV1::Invalid)) == replacement_prepared(
                    authorization@, current_session@, candidate@, unasked, now));
                return Err(AdmissionAuthorityPublicationErrorV1::Invalid);
            },
        };
        let expected = match TerminalGameSessionReplacementAuthorizationV1::from_current_authority(
            authorization.account_id(),
            Some(&presence),
            committed.game_session_id(),
            candidate.identity().game_session_id(),
            current_session,
            candidate,
        ) {
            Ok(a) => a,
            Err(_) => {
                assert(replacement_result_view(Err(AdmissionAuthorityPublicationErrorV1::Stale)) == replacement_prepared(
                    authorization@, current_session@, candidate@, unasked, now));
                return Err(AdmissionAuthorityPublicationErrorV1::Stale);
            },
        };
        if !expected.same(authorization) {
            assert(replacement_result_view(Err(AdmissionAuthorityPublicationErrorV1::Stale)) == replacement_prepared(
                authorization@, current_session@, candidate@, unasked, now));
            return Err(AdmissionAuthorityPublicationErrorV1::Stale);
        }
        let operation = AdmissionClaimLifecycleOperationV1::TerminalReplacement {
            account_id: authorization.account_id().to_owned(),
            current_session,
            candidate: Box::new(candidate.duplicate()),
        };
        let ghost op = operation@;
        assert(replacement_refusal(authorization@, current_session@, candidate@) is None);
        let prepared = prepare_lifecycle(owner, operation, now);
        proof {
            let resolved = choose|resolved: Result<LifecycleResolutionView, AdmissionAuthorityPublicationErrorV1>|
                lifecycle_evidence_result_view(prepared) == #[trigger] lifecycle_prepared(op, resolved, now);
            assert(replacement_prepared(authorization@, current_session@, candidate@, resolved, now)
                == lifecycle_prepared(op, resolved, now));
        }
        match prepared {
            Ok(evidence) => Ok(Self { evidence }),
            Err(x) => Err(x),
        }
    }

    pub fn evidence(&self) -> (r: &AdmissionClaimLifecycleEvidenceV1)
        ensures
            r@ == self@,
    {
        &self.evidence
    }

    /// Validates the replacement by exactly `candidate` against the locked
    /// claim rows and current session; on success it hands out the claim
    /// successors to write.
    pub fn validate_locked(
        &self,
        rows: &[Option<AdmissionAuthorityPublicationChangeV1>],
        current: SessionSnapshot,
        candidate: &ReconnectDurabilityRecordV1,
        now: i64,
    ) -> (r: Result<&[AdmissionAuthorityPublicationChangeV1], AdmissionAuthorityPublicationErrorV1>)
        ensures
            !replaces_with(self@, candidate@) ==> r == Err::<&[AdmissionAuthorityPublicationChangeV1], AdmissionAuthorityPublicationErrorV1>(
                AdmissionAuthorityPublicationErrorV1::Conflict,
            ),
            replaces_with(self@, candidate@) ==> successors_result_view(r) == locked_successors(
                self@,
                rows_view(rows@),
                current@,
                now,
            ),
    {
        let matches = match &self.evidence.operation {
            AdmissionClaimLifecycleOperationV1::TerminalReplacement { candidate: expected, .. } => expected.same(candidate),
            _ => false,
        };
        if !matches {
            return Err(AdmissionAuthorityPublicationErrorV1::Conflict);
        }
        match validate_lifecycle_locked(&self.evidence, rows, current, now) {
            Err(x) => Err(x),
            Ok(()) => Ok(self.evidence.transition.successors.as_slice()),
        }
    }
}

} // verus!
