//! Provenance of fresh authenticated evidence, and the platform security
//! observation of an account that admission guards carry.
use vstd::prelude::*;

verus! {

/// What a piece of fresh evidence attests.
#[derive(Debug, Clone, Copy, PartialEq, Eq, Structural)]
pub enum FreshEvidencePurposeV1 {
    PlatformSecurity,
    SigningTrust,
}

/// Which admission path a piece of evidence is scoped to.
#[derive(Debug, Clone, Copy, PartialEq, Eq, Structural)]
pub enum Fnd04EvidenceScope {
    FreshAdmission,
    ExistingActorRecovery,
}

/// Where a piece of fresh evidence came from and when it was observed.
#[derive(Debug, Clone, PartialEq, Eq)]
pub struct FreshEvidenceProvenanceV1 {
    pub source_authority: String,
    pub purpose: FreshEvidencePurposeV1,
    pub scope: Fnd04EvidenceScope,
    pub source_revision: u64,
    pub accepted_source_revision: u64,
    pub decision_identity: String,
    pub accepted_decision_identity: String,
    pub source_observed_at: i64,
    pub clock_uncertainty_seconds: u64,
    pub publication_revision: u64,
}

pub struct FreshEvidenceProvenanceView {
    pub source_authority: Seq<char>,
    pub purpose: FreshEvidencePurposeV1,
    pub scope: Fnd04EvidenceScope,
    pub source_revision: u64,
    pub accepted_source_revision: u64,
    pub decision_identity: Seq<char>,
    pub accepted_decision_identity: Seq<char>,
    pub source_observed_at: i64,
    pub clock_uncertainty_seconds: u64,
    pub publication_revision: u64,
}

impl View for FreshEvidenceProvenanceV1 {
    type V = FreshEvidenceProvenanceView;

    open spec fn view(&self) -> FreshEvidenceProvenanceView {
        FreshEvidenceProvenanceView {
            source_authority: self.source_authority@,
            purpose: self.purpose,
            scope: self.scope,
            source_revision: self.source_revision,
            accepted_source_revision: self.accepted_source_revision,
            decision_identity: self.decision_identity@,
            accepted_decision_identity: self.accepted_decision_identity@,
            source_observed_at: self.source_observed_at,
            clock_uncertainty_seconds: self.clock_uncertainty_seconds,
            publication_revision: self.publication_revision,
        }
    }
}

impl FreshEvidenceProvenanceV1 {
    /// An identical copy of this provenance.
    pub fn duplicate(&self) -> (r: Self)
        ensures
            r@ == self@,
    {
        Self {
            source_authority: self.source_authority.clone(),
            purpose: self.purpose,
            scope: self.scope,
            source_revision: self.source_revision,
            accepted_source_revision: self.accepted_source_revision,
            decision_identity: self.decision_identity.clone(),
            accepted_decision_identity: self.accepted_decision_identity.clone(),
            source_observed_at: self.source_observed_at,
            clock_uncertainty_seconds: self.clock_uncertainty_seconds,
            publication_revision: self.publication_revision,
        }
    }

    /// Whether two provenances are the same.
    pub fn same(&self, other: &Self) -> (r: bool)
        ensures
            r == (self@ == other@),
    {
        self.source_authority == other.source_authority && self.purpose == other.purpose && self.scope == other.scope
            && self.source_revision == other.source_revision && self.accepted_source_revision
            == other.accepted_source_revision && self.decision_identity == other.decision_identity
            && self.accepted_decision_identity == other.accepted_decision_identity && self.source_observed_at
            == other.source_observed_at && self.clock_uncertainty_seconds == other.clock_uncertainty_seconds
            && self.publication_revision == other.publication_revision
    }
}

/// The platform's security decision for an account: the lowest accepted
/// security generation and whether admission is allowed.
#[derive(Debug, Clone, PartialEq, Eq)]
pub struct FreshAccountSecurityObservationV1 {
    pub account_id: String,
    pub minimum_generation: u64,
    pub allowed: bool,
    pub provenance: FreshEvidenceProvenanceV1,
}

pub struct FreshAccountSecurityObservationView {
    pub account_id: Seq<char>,
    pub minimum_generation: u64,
    pub allowed: bool,
    pub provenance: FreshEvidenceProvenanceView,
}

impl View for FreshAccountSecurityObservationV1 {
    type V = FreshAccountSecurityObservationView;

    open spec fn view(&self) -> FreshAccountSecurityObservationView {
        FreshAccountSecurityObservationView {
            account_id: self.account_id@,
            minimum_generation: self.minimum_generation,
            allowed: self.allowed,
            provenance: self.provenance@,
        }
    }
}

impl FreshAccountSecurityObservationV1 {
    /// An identical copy of this observation.
    pub fn duplicate(&self) -> (r: Self)
        ensures
            r@ == self@,
    {
        Self {
            account_id: self.account_id.clone(),
            minimum_generation: self.minimum_generation,
            allowed: self.allowed,
            provenance: self.provenance.duplicate(),
        }
    }

    /// Whether two observations are the same.
    pub fn same(&self, other: &Self) -> (r: bool)
        ensures
            r == (self@ == other@),
    {
        self.account_id == other.account_id && self.minimum_generation == other.minimum_generation && self.allowed
            == other.allowed && self.provenance.same(&other.provenance)
    }
}

} // verus!
