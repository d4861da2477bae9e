//! Scenarios of owner-prepared claim transitions of a session's account and
//! character guards.
use oteryn_game_server::admission::{
    CharacterLease, CharacterWorldEligibilityClaimV1, ControlLossEpochRefV1, FreshAdmissionCommit,
    FreshAdmissionFacts, GameSessionAuthoritySnapshot, GameSessionState, ReconnectAttemptRef, RuntimeScopeRefV1,
};
use oteryn_game_server::durability::{
    AccountPresenceClaimV1, AuthenticatedTransportRefV1, AuthorityEvidenceFenceV1, Fnd02ReconciliationFenceV1,
    ProtectionEntitlementV1, ReconnectAuthorityFenceV1, ReconnectCompatibilityEvidenceV1, ReconnectConnectionFenceV1,
    ReconnectContinuityV1, ReconnectDurabilityRecordV1, ReconnectIdentityV1, ReconnectProofV1,
    TerminalGameSessionReplacementAuthorizationV1,
};
use oteryn_game_server::fresh_evidence::{
    Fnd04EvidenceScope, FreshAccountSecurityObservationV1, FreshEvidenceProvenanceV1, FreshEvidencePurposeV1,
};
use oteryn_game_server::ids::{
    ChannelId, CharacterId, CommandId, ConnectionGeneration, GameSessionId, ScopeOwnershipGeneration, WorldId,
};
use oteryn_game_server::publication::{
    validate_claim_preserving_session_v1, AdmissionAuthorityGuardKeyV1, AdmissionAuthorityGuardStateV1,
    AdmissionAuthorityPublicationChangeV1, AdmissionAuthorityPublicationErrorV1, AdmissionClaimLifecycleEvidenceV1,
    AdmissionClaimLifecycleOperationV1, AdmissionClaimLifecycleResolutionV1, AdmissionClaimOwningSourceV1,
    AdmissionClaimTransitionEvidenceV1, AdmissionPublicationPreconditionV1, AdmissionPublicationPurposeV1,
    AdmissionPublicationSourceV1, TerminalReleaseClaimTransitionV1, TerminalReplacementClaimTransitionV1,
};

type Snapshot = GameSessionAuthoritySnapshot<AuthenticatedTransportRefV1>;
type Outcome = Result<(), Box<dyn std::error::Error>>;

const ACCOUNT: &str = "00000000-0000-4000-8000-000000000001";

fn id(last: u8) -> [u8; 16] {
    let mut b = [0; 16];
    b[6] = 0x70;
    b[8] = 0x80;
    b[15] = last;
    b
}

struct Fixture {
    snapshot: Snapshot,
    character: CharacterId,
    world: WorldId,
    session: GameSessionId,
}

fn fixture() -> Result<Fixture, Box<dyn std::error::Error>> {
    let character = CharacterId::decode(&id(2)).map_err(|_| "character")?;
    let world = WorldId::decode(&id(3)).map_err(|_| "world")?;
    let channel = ChannelId::decode(&id(4)).map_err(|_| "channel")?;
    let session = GameSessionId::decode(&id(5)).map_err(|_| "session")?;
    let transport = AuthenticatedTransportRefV1::decode(&[2; 16]).map_err(|_| "transport")?;
    let commit = FreshAdmissionCommit::from_facts(
        session,
        FreshAdmissionFacts::new([3; 32], character, world, channel, 2, 3).map_err(|_| "facts")?,
        transport,
    )
    .map_err(|_| "commit")?;
    let snapshot = GameSessionAuthoritySnapshot::from_current_facts(
        commit,
        GameSessionState::Active,
        ConnectionGeneration::new(1).map_err(|_| "generation")?,
        Some(transport),
        CharacterLease::new(character, 2).map_err(|_| "lease")?,
        Some(CharacterWorldEligibilityClaimV1::new(character, world)),
        RuntimeScopeRefV1::channel(world, channel),
        ScopeOwnershipGeneration::new(3).map_err(|_| "scope")?,
    )
    .map_err(|_| "snapshot")?;
    Ok(Fixture { snapshot, character, world, session })
}

fn security(publication_revision: u64) -> FreshAccountSecurityObservationV1 {
    FreshAccountSecurityObservationV1 {
        account_id: ACCOUNT.into(),
        minimum_generation: 1,
        allowed: true,
        provenance: FreshEvidenceProvenanceV1 {
            source_authority: "authenticated-platform-security".into(),
            purpose: FreshEvidencePurposeV1::PlatformSecurity,
            scope: Fnd04EvidenceScope::FreshAdmission,
            source_revision: 7,
            accepted_source_revision: 7,
            decision_identity: "security-seven".into(),
            accepted_decision_identity: "security-seven".into(),
            source_observed_at: 100,
            clock_uncertainty_seconds: 0,
            publication_revision,
        },
    }
}

fn source(purpose: AdmissionPublicationPurposeV1, revision: u64, decision: &str, observed: i64) -> AdmissionPublicationSourceV1 {
    AdmissionPublicationSourceV1 {
        authority: "authenticated-owner".into(),
        purpose,
        source_revision: revision,
        decision_identity: decision.into(),
        source_observed_at: observed,
        clock_uncertainty_seconds: 0,
    }
}

/// The held claims of the fixture's session, at guard revision one.
fn held_claims(f: &Fixture) -> Vec<AdmissionAuthorityPublicationChangeV1> {
    let bootstrap = AdmissionPublicationPreconditionV1::Bootstrap { restored_publication_high_water: Some(0) };
    vec![
        AdmissionAuthorityPublicationChangeV1 {
            key: AdmissionAuthorityGuardKeyV1::Account { account_id: ACCOUNT.into() },
            source: source(AdmissionPublicationPurposeV1::AccountSecurityAndPresence, 7, "claim-seven", 100),
            precondition: bootstrap,
            publication_revision: 1,
            state: AdmissionAuthorityGuardStateV1::Account {
                security: security(1),
                presence: Some((f.character, f.session)),
            },
        },
        AdmissionAuthorityPublicationChangeV1 {
            key: AdmissionAuthorityGuardKeyV1::Character(f.character),
            source: source(AdmissionPublicationPurposeV1::CharacterOwnershipAndLease, 7, "claim-seven", 100),
            precondition: bootstrap,
            publication_revision: 1,
            state: AdmissionAuthorityGuardStateV1::Character {
                account_id: ACCOUNT.into(),
                world_id: f.world,
                eligible: true,
                lease_generation: 2,
                holder: Some(f.session),
            },
        },
    ]
}

/// The released claims, one guard revision later, prepared at 101.
fn released_claims(f: &Fixture) -> Vec<AdmissionAuthorityPublicationChangeV1> {
    let step = AdmissionPublicationPreconditionV1::CompareAndSet { expected_publication_revision: 1 };
    vec![
        AdmissionAuthorityPublicationChangeV1 {
            key: AdmissionAuthorityGuardKeyV1::Account { account_id: ACCOUNT.into() },
            source: source(AdmissionPublicationPurposeV1::AccountSecurityAndPresence, 8, "release-eight", 101),
            precondition: step,
            publication_revision: 2,
            state: AdmissionAuthorityGuardStateV1::Account { security: security(2), presence: None },
        },
        AdmissionAuthorityPublicationChangeV1 {
            key: AdmissionAuthorityGuardKeyV1::Character(f.character),
            source: source(AdmissionPublicationPurposeV1::CharacterOwnershipAndLease, 8, "release-eight", 101),
            precondition: step,
            publication_revision: 2,
            state: AdmissionAuthorityGuardStateV1::Character {
                account_id: ACCOUNT.into(),
                world_id: f.world,
                eligible: true,
                lease_generation: 2,
                holder: None,
            },
        },
    ]
}

struct Owner(Option<AdmissionClaimLifecycleResolutionV1>);

impl AdmissionClaimOwningSourceV1 for Owner {
    fn prepare_lifecycle_claim(
        &self,
        _operation: &AdmissionClaimLifecycleOperationV1,
        _now: i64,
    ) -> Result<AdmissionClaimLifecycleResolutionV1, AdmissionAuthorityPublicationErrorV1> {
        self.0.clone().ok_or(AdmissionAuthorityPublicationErrorV1::Unavailable)
    }
}

struct Unregistered;

impl AdmissionClaimOwningSourceV1 for Unregistered {}

fn release_owner(f: &Fixture, successors: Vec<AdmissionAuthorityPublicationChangeV1>) -> Owner {
    Owner(Some(AdmissionClaimLifecycleResolutionV1 {
        current_session: f.snapshot,
        evidence: AdmissionClaimTransitionEvidenceV1 { predecessors: held_claims(f), successors, prepared_at: 101 },
    }))
}

#[test]
fn terminal_release_hands_out_successors_only_for_exact_locked_predecessors() -> Outcome {
    let f = fixture()?;
    let owner = release_owner(&f, released_claims(&f));
    let release = TerminalReleaseClaimTransitionV1::prepare(&owner, ACCOUNT, f.snapshot, 101).map_err(|e| format!("{e:?}"))?;
    let held = held_claims(&f);
    let rows: Vec<_> = held.iter().cloned().map(Some).collect();
    assert_eq!(release.validate_locked(&rows, f.snapshot, 101).map_err(|e| format!("{e:?}"))?, &released_claims(&f)[..]);
    assert_eq!(release.evidence().transition.successors, released_claims(&f));

    let mut stale_rows = rows.clone();
    stale_rows[1] = None;
    assert_eq!(release.validate_locked(&stale_rows, f.snapshot, 101), Err(AdmissionAuthorityPublicationErrorV1::Stale));
    assert_eq!(release.validate_locked(&rows[..1], f.snapshot, 101), Err(AdmissionAuthorityPublicationErrorV1::Stale));

    let mut moved = f.snapshot;
    moved = GameSessionAuthoritySnapshot::from_current_facts(
        moved.commit(),
        GameSessionState::Active,
        ConnectionGeneration::new(2).map_err(|_| "generation")?,
        moved.current_transport(),
        moved.current_character_lease(),
        moved.current_character_world_eligibility(),
        moved.current_runtime_scope(),
        moved.current_scope_generation(),
    )
    .map_err(|_| "snapshot")?;
    assert_eq!(release.validate_locked(&rows, moved, 101), Err(AdmissionAuthorityPublicationErrorV1::Stale));
    Ok(())
}

#[test]
fn terminal_release_refuses_unregistered_stale_and_claim_keeping_owners() -> Outcome {
    let f = fixture()?;
    assert_eq!(
        TerminalReleaseClaimTransitionV1::prepare(&Unregistered, ACCOUNT, f.snapshot, 101).err(),
        Some(AdmissionAuthorityPublicationErrorV1::Unavailable)
    );
    assert_eq!(
        TerminalReleaseClaimTransitionV1::prepare(&Owner(None), ACCOUNT, f.snapshot, 101).err(),
        Some(AdmissionAuthorityPublicationErrorV1::Unavailable)
    );

    // A resolution of another session snapshot is stale.
    let mut other = release_owner(&f, released_claims(&f));
    if let Some(resolution) = other.0.as_mut() {
        resolution.current_session = GameSessionAuthoritySnapshot::from_current_facts(
            f.snapshot.commit(),
            GameSessionState::Reconnectable,
            f.snapshot.current_connection_generation(),
            None,
            f.snapshot.current_character_lease(),
            f.snapshot.current_character_world_eligibility(),
            f.snapshot.current_runtime_scope(),
            f.snapshot.current_scope_generation(),
        )
        .map_err(|_| "snapshot")?;
    }
    assert_eq!(
        TerminalReleaseClaimTransitionV1::prepare(&other, ACCOUNT, f.snapshot, 101).err(),
        Some(AdmissionAuthorityPublicationErrorV1::Stale)
    );

    // A "release" that keeps the holder is no release.
    let mut keeping = released_claims(&f);
    if let AdmissionAuthorityGuardStateV1::Character { holder, .. } = &mut keeping[1].state {
        *holder = Some(f.session);
    }
    assert_eq!(
        TerminalReleaseClaimTransitionV1::prepare(&release_owner(&f, keeping), ACCOUNT, f.snapshot, 101).err(),
        Some(AdmissionAuthorityPublicationErrorV1::Invalid)
    );

    // A step that does not advance the source revision is stale.
    let mut unadvanced = released_claims(&f);
    unadvanced[0].source.source_revision = 7;
    assert_eq!(
        TerminalReleaseClaimTransitionV1::prepare(&release_owner(&f, unadvanced), ACCOUNT, f.snapshot, 101).err(),
        Some(AdmissionAuthorityPublicationErrorV1::Stale)
    );

    // A step that skips a guard revision is stale.
    let mut skipping = released_claims(&f);
    skipping[1].publication_revision = 3;
    skipping[1].precondition = AdmissionPublicationPreconditionV1::CompareAndSet { expected_publication_revision: 2 };
    assert!(TerminalReleaseClaimTransitionV1::prepare(&release_owner(&f, skipping), ACCOUNT, f.snapshot, 101).is_err());

    // Another account's claims are stale for this session.
    assert_eq!(
        TerminalReleaseClaimTransitionV1::prepare(
            &release_owner(&f, released_claims(&f)),
            "00000000-0000-4000-8000-000000000002",
            f.snapshot,
            101
        )
        .err(),
        Some(AdmissionAuthorityPublicationErrorV1::Stale)
    );
    Ok(())
}

#[test]
fn lifecycle_evidence_validates_against_its_decision_time() -> Outcome {
    let f = fixture()?;
    let evidence = AdmissionClaimLifecycleEvidenceV1 {
        operation: AdmissionClaimLifecycleOperationV1::TerminalRelease {
            account_id: ACCOUNT.into(),
            current_session: f.snapshot,
        },
        transition: AdmissionClaimTransitionEvidenceV1 {
            predecessors: held_claims(&f),
            successors: released_claims(&f),
            prepared_at: 101,
        },
    };
    assert_eq!(evidence.validate_historical(101), Ok(()));
    assert_eq!(evidence.validate_historical(100), Err(AdmissionAuthorityPublicationErrorV1::Invalid));
    // Security evidence observed at 100 is too old five seconds later.
    assert_eq!(evidence.validate_historical(106), Err(AdmissionAuthorityPublicationErrorV1::Invalid));
    assert_eq!(evidence.operation.account_id(), ACCOUNT);
    assert_eq!(evidence.operation.current_session(), f.snapshot);
    Ok(())
}

#[test]
fn claim_preserving_write_keeps_session_and_both_claim_rows() -> Outcome {
    let f = fixture()?;
    let held = held_claims(&f);
    let rows: Vec<_> = held.iter().cloned().map(Some).collect();
    assert_eq!(validate_claim_preserving_session_v1(ACCOUNT, f.snapshot, f.snapshot, &held, &rows), Ok(()));

    let mut moved_rows = rows.clone();
    moved_rows.swap(0, 1);
    assert_eq!(
        validate_claim_preserving_session_v1(ACCOUNT, f.snapshot, f.snapshot, &held, &moved_rows),
        Err(AdmissionAuthorityPublicationErrorV1::Stale)
    );
    let reconnectable = GameSessionAuthoritySnapshot::from_current_facts(
        f.snapshot.commit(),
        GameSessionState::Reconnectable,
        f.snapshot.current_connection_generation(),
        None,
        f.snapshot.current_character_lease(),
        f.snapshot.current_character_world_eligibility(),
        f.snapshot.current_runtime_scope(),
        f.snapshot.current_scope_generation(),
    )
    .map_err(|_| "snapshot")?;
    assert_eq!(
        validate_claim_preserving_session_v1(ACCOUNT, f.snapshot, reconnectable, &held, &rows),
        Err(AdmissionAuthorityPublicationErrorV1::Stale)
    );
    assert_eq!(
        validate_claim_preserving_session_v1(ACCOUNT, reconnectable, reconnectable, &held, &rows),
        Ok(())
    );
    assert_eq!(
        validate_claim_preserving_session_v1("", f.snapshot, f.snapshot, &held, &rows),
        Err(AdmissionAuthorityPublicationErrorV1::Stale)
    );
    let mut released = held.clone();
    if let AdmissionAuthorityGuardStateV1::Character { holder, .. } = &mut released[1].state {
        *holder = None;
    }
    let released_rows: Vec<_> = released.iter().cloned().map(Some).collect();
    assert_eq!(
        validate_claim_preserving_session_v1(ACCOUNT, f.snapshot, f.snapshot, &released, &released_rows),
        Err(AdmissionAuthorityPublicationErrorV1::Stale)
    );
    Ok(())
}

/// The fixture's session made terminal after a control loss of epoch 3,
/// with its original grace ending at 120.
fn terminal_snapshot(f: &Fixture) -> Result<Snapshot, Box<dyn std::error::Error>> {
    let s = f.snapshot;
    Ok(GameSessionAuthoritySnapshot::from_current_facts(
        s.commit(),
        GameSessionState::Terminal,
        s.current_connection_generation(),
        None,
        s.current_character_lease(),
        s.current_character_world_eligibility(),
        s.current_runtime_scope(),
        s.current_scope_generation(),
    )
    .map_err(|_| "snapshot")?
    .with_control_loss_continuity(ControlLossEpochRefV1::new(3).map_err(|_| "epoch")?, 120)
    .map_err(|_| "continuity")?)
}

/// A reconnect record for candidate session `candidate` continuing the
/// terminal session's control loss.
fn candidate_record(f: &Fixture, candidate: GameSessionId, prepared_deadline: i64) -> Result<ReconnectDurabilityRecordV1, Box<dyn std::error::Error>> {
    let s = f.snapshot;
    let identity = ReconnectIdentityV1::new(
        candidate,
        ReconnectAttemptRef::new(9).map_err(|_| "attempt")?,
        ACCOUNT,
        f.character,
        f.world,
        s.current_runtime_scope(),
    )
    .map_err(|_| "identity")?;
    let connection = ReconnectConnectionFenceV1::new(
        s.current_connection_generation(),
        ConnectionGeneration::new(2).map_err(|_| "generation")?,
        AuthenticatedTransportRefV1::decode(&[9; 16]).map_err(|_| "transport")?,
    )
    .map_err(|_| "connection")?;
    let authority = ReconnectAuthorityFenceV1::new(2, s.current_scope_generation()).map_err(|_| "authority")?;
    let continuity = ReconnectContinuityV1::new(
        ControlLossEpochRefV1::new(3).map_err(|_| "epoch")?,
        120,
        prepared_deadline,
        ProtectionEntitlementV1::unused(),
    )
    .map_err(|_| "continuity")?;
    let fnd02 = Fnd02ReconciliationFenceV1::new(CommandId::new(1).map_err(|_| "command")?, vec![], 0, vec![])
        .map_err(|_| "fnd02")?;
    let platform = AuthorityEvidenceFenceV1::new("platform-security", "reconnect", "account", "sec:1", "decision:sec:1", 100)
        .map_err(|_| "platform")?;
    let trust = AuthorityEvidenceFenceV1::new("proof-trust", "reconnect", "recovery-key", "trust:1", "decision:trust:1", 100)
        .map_err(|_| "trust")?;
    let compatibility = ReconnectCompatibilityEvidenceV1::new(1, 1, "rules:1", "content:1", "map:1", "world:1", 1, platform, trust, None)
        .map_err(|_| "compatibility")?;
    Ok(ReconnectDurabilityRecordV1::new(
        identity,
        connection,
        authority,
        continuity,
        ReconnectProofV1::FastReconnect { reconnect_proof_generation: 2 },
        fnd02,
        compatibility,
    )
    .map_err(|_| "record")?)
}

/// The claims moved to the candidate session, one guard revision later.
fn replaced_claims(f: &Fixture, candidate: GameSessionId) -> Vec<AdmissionAuthorityPublicationChangeV1> {
    let mut claims = released_claims(f);
    if let AdmissionAuthorityGuardStateV1::Account { presence, .. } = &mut claims[0].state {
        *presence = Some((f.character, candidate));
    }
    if let AdmissionAuthorityGuardStateV1::Character { holder, .. } = &mut claims[1].state {
        *holder = Some(candidate);
    }
    claims
}

#[test]
fn terminal_replacement_moves_claims_to_exactly_the_authorized_candidate() -> Outcome {
    let f = fixture()?;
    let terminal = terminal_snapshot(&f)?;
    let candidate_id = GameSessionId::decode(&id(6)).map_err(|_| "candidate")?;
    let candidate = candidate_record(&f, candidate_id, 103)?;
    let presence = AccountPresenceClaimV1::new(ACCOUNT, f.character).map_err(|_| "presence")?;
    let authorization = TerminalGameSessionReplacementAuthorizationV1::from_current_authority(
        ACCOUNT,
        Some(&presence),
        f.session,
        candidate_id,
        terminal,
        &candidate,
    )
    .map_err(|e| format!("{e:?}"))?;
    let owner = Owner(Some(AdmissionClaimLifecycleResolutionV1 {
        current_session: terminal,
        evidence: AdmissionClaimTransitionEvidenceV1 {
            predecessors: held_claims(&f),
            successors: replaced_claims(&f, candidate_id),
            prepared_at: 101,
        },
    }));
    let replacement = TerminalReplacementClaimTransitionV1::prepare(&owner, &authorization, terminal, &candidate, 101)
        .map_err(|e| format!("{e:?}"))?;
    let rows: Vec<_> = held_claims(&f).into_iter().map(Some).collect();
    assert_eq!(
        replacement.validate_locked(&rows, terminal, &candidate, 101).map_err(|e| format!("{e:?}"))?,
        &replaced_claims(&f, candidate_id)[..]
    );

    let other_candidate = candidate_record(&f, GameSessionId::decode(&id(7)).map_err(|_| "candidate")?, 103)?;
    assert_eq!(
        replacement.validate_locked(&rows, terminal, &other_candidate, 101),
        Err(AdmissionAuthorityPublicationErrorV1::Conflict)
    );
    // The candidate's PREPARE deadline bounds the replacement.
    assert!(replacement.validate_locked(&rows, terminal, &candidate, 103).is_ok());
    assert_eq!(
        replacement.validate_locked(&rows, terminal, &candidate, 104),
        Err(AdmissionAuthorityPublicationErrorV1::Invalid)
    );

    // An authorization for another candidate is stale for this one.
    let other_authorization = TerminalGameSessionReplacementAuthorizationV1::from_current_authority(
        ACCOUNT,
        Some(&presence),
        f.session,
        GameSessionId::decode(&id(7)).map_err(|_| "candidate")?,
        terminal,
        &other_candidate,
    )
    .map_err(|e| format!("{e:?}"))?;
    assert_eq!(
        TerminalReplacementClaimTransitionV1::prepare(&owner, &other_authorization, terminal, &candidate, 101).err(),
        Some(AdmissionAuthorityPublicationErrorV1::Stale)
    );
    // A live session cannot be replaced.
    assert_eq!(
        TerminalReplacementClaimTransitionV1::prepare(&owner, &authorization, f.snapshot, &candidate, 101).err(),
        Some(AdmissionAuthorityPublicationErrorV1::Stale)
    );
    // Claims that stay with the predecessor are no replacement.
    let staying = Owner(Some(AdmissionClaimLifecycleResolutionV1 {
        current_session: terminal,
        evidence: AdmissionClaimTransitionEvidenceV1 {
            predecessors: held_claims(&f),
            successors: replaced_claims(&f, f.session),
            prepared_at: 101,
        },
    }));
    assert_eq!(
        TerminalReplacementClaimTransitionV1::prepare(&staying, &authorization, terminal, &candidate, 101).err(),
        Some(AdmissionAuthorityPublicationErrorV1::Invalid)
    );
    Ok(())
}
