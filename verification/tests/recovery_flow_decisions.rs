//! Scenarios of the complete-reconnect operation, its write effect and flow,
//! and of the post-grace recovery write and its adoption fence.
use oteryn_game_server::admission::{
    CharacterLease, CharacterWorldEligibilityClaimV1, ControlLossEpochRefV1, FreshAdmissionCommit,
    FreshAdmissionFacts, GameSessionAuthoritySnapshot, GameSessionState, ReconnectAttemptRef,
    ReconnectDurabilityErrorV1, RuntimeScopeRefV1,
};
use oteryn_game_server::budget::{
    RecoveryEpochStateV1, RecoveryProtectionContinuityV1, RecoveryProtectionRearmV1, RecoveryProtectionUseV1,
    RecoveryTimingV2, RetainedRecoveryAttemptDispositionV1, RetainedRecoveryBudgetV1,
};
use oteryn_game_server::complete_operation::{
    accept_fast_proof, accept_recovery_proof,
    CompleteFastReconnectBindingV1, CompleteReconnectAuthorizationV1, CompleteReconnectCredentialV1,
    CompleteReconnectCurrentV1, CompleteReconnectModeV1, CompleteReconnectOperationV1,
    CompleteReconnectProofTransitionV1, CompleteReconnectSnapshotV1, CompleteRecoveryCredentialV1,
    CompleteSnapshotChecksV1, CredentialChecksV1,
    OperationChecksV1, RecoveryCredentialAuditV2, RecoveryCurrentEvidenceV1,
};
use oteryn_game_server::complete_reconnect::{
    complete_reconnect_effect, complete_reconnect_protection, CompleteReconnectCompletionV1, CompleteReconnectDurabilityOperationV1,
    CompleteReconnectFlowV1, CompleteReconnectOutcomeV1, CompleteReconnectPhaseV1, CompleteReconnectRequestKindV1,
    DurabilityChecksV1,
};
use oteryn_game_server::control_loss::{
    ControlLossCauseV1, ControlLossHistoryV1, ControlLossObservationV1, ControlLossOperationV1,
};
use oteryn_game_server::durability::{
    AccountPresenceClaimV1, AuthenticatedTransportRefV1, AuthorityEvidenceFenceV1, Fnd02ReconciliationFenceV1,
    PendingCommandDispositionV1, PendingCommandReconciliationV1, StateDomainRevisionV1,
    ReconnectCandidateBindingV1, ReconnectCompatibilityEvidenceV1, ReconnectIdentityV1,
};
use oteryn_game_server::fresh_evidence::{
    Fnd04EvidenceScope, FreshAccountSecurityObservationV1, FreshEvidenceProvenanceV1, FreshEvidencePurposeV1,
};
use oteryn_game_server::ids::{
    ChannelId, CharacterId, CommandId, ConnectionGeneration, GameSessionId, ScopeOwnershipGeneration, WorldId,
};
use oteryn_game_server::post_grace::{
    PostGraceDurabilityFlowV1, PostGraceDurabilityPortV1, PostGraceDurabilityRequestV1, PostGraceDurableCompletionV1,
    PostGraceDurableOutcomeV1, PostGraceFlowPhaseV1, PostGraceRequestKindV1, PostGraceSubmissionV1,
    PostGraceTerminalReasonV1,
};
use oteryn_game_server::post_grace_operation::{
    prepare_post_grace_operation, revalidate_post_grace_operation, validate_post_grace_actor_successor, PostGraceActorObservationV1, PostGraceAdoptionChecksV1,
    PostGraceAdoptionCurrentV1, PostGraceClaimEvidenceV1, PostGraceDecisionChecksV1,
    PostGraceDecisionSuccessionChecksV1, PostGraceOperationChecksV1, PostGraceRecoveryDecisionAuditV1,
    PostGraceRecoveryOperationV1,
};
use oteryn_game_server::publication::{
    AdmissionAuthorityGuardKeyV1, AdmissionAuthorityGuardStateV1, AdmissionAuthorityPublicationChangeV1,
    AdmissionPublicationPreconditionV1, AdmissionPublicationPurposeV1, AdmissionPublicationSourceV1,
};

type Outcome = Result<(), Box<dyn std::error::Error>>;
type Fallible<T> = Result<T, Box<dyn std::error::Error>>;
type Snapshot = GameSessionAuthoritySnapshot<AuthenticatedTransportRefV1>;

const ACCOUNT: &str = "00000000-0000-4000-8000-000000000001";
const NOW: i64 = 104;

fn id(last: u8) -> [u8; 16] {
    let mut b = [0; 16];
    b[6] = 0x70;
    b[8] = 0x80;
    b[15] = last;
    b
}

fn character() -> Fallible<CharacterId> {
    Ok(CharacterId::decode(&id(2)).map_err(|_| "character")?)
}

fn world() -> Fallible<WorldId> {
    Ok(WorldId::decode(&id(3)).map_err(|_| "world")?)
}

fn scope() -> Fallible<RuntimeScopeRefV1> {
    Ok(RuntimeScopeRefV1::channel(world()?, ChannelId::decode(&id(4)).map_err(|_| "channel")?))
}

fn session_id() -> Fallible<GameSessionId> {
    Ok(GameSessionId::decode(&id(5)).map_err(|_| "session")?)
}

fn candidate_transport() -> Fallible<AuthenticatedTransportRefV1> {
    Ok(AuthenticatedTransportRefV1::decode(&[9; 16]).map_err(|_| "transport")?)
}

fn protection() -> RecoveryProtectionContinuityV1 {
    RecoveryProtectionContinuityV1 {
        usage: RecoveryProtectionUseV1::Unused { entitlement_generation: 1 },
        rearm: RecoveryProtectionRearmV1::NotRearmed { generation: 1, stable_control_started_at: None, accepted_deadline: None },
    }
}

fn active_session() -> Fallible<Snapshot> {
    let transport = AuthenticatedTransportRefV1::decode(&[2; 16]).map_err(|_| "transport")?;
    let commit = FreshAdmissionCommit::from_facts(
        session_id()?,
        FreshAdmissionFacts::new([3; 32], character()?, world()?, ChannelId::decode(&id(4)).map_err(|_| "channel")?, 2, 3)
            .map_err(|_| "facts")?,
        transport,
    )
    .map_err(|_| "commit")?;
    Ok(GameSessionAuthoritySnapshot::from_current_facts(
        commit,
        GameSessionState::Active,
        ConnectionGeneration::new(1).map_err(|_| "generation")?,
        Some(transport),
        CharacterLease::new(character()?, 2).map_err(|_| "lease")?,
        Some(CharacterWorldEligibilityClaimV1::new(character()?, world()?)),
        scope()?,
        ScopeOwnershipGeneration::new(3).map_err(|_| "scope")?,
    )
    .map_err(|_| "snapshot")?)
}

/// The session after the loss: reconnectable, without a controller.
fn lost_session(state: GameSessionState) -> Fallible<Snapshot> {
    let s = active_session()?;
    Ok(GameSessionAuthoritySnapshot::from_current_facts(
        s.commit(),
        state,
        s.current_connection_generation(),
        None,
        s.current_character_lease(),
        s.current_character_world_eligibility(),
        s.current_runtime_scope(),
        s.current_scope_generation(),
    )
    .map_err(|_| "snapshot")?
    .with_control_loss_continuity(ControlLossEpochRefV1::new(1).map_err(|_| "epoch")?, 120)
    .map_err(|_| "continuity")?)
}

fn loss() -> Fallible<ControlLossOperationV1> {
    Ok(ControlLossOperationV1 {
        version: 1,
        observation: ControlLossObservationV1 {
            source_authority: scope()?,
            source_revision: 7,
            accepted_source_revision: 7,
            decision_identity: ControlLossEpochRefV1::new(1).map_err(|_| "decision")?,
            accepted_decision_identity: ControlLossEpochRefV1::new(1).map_err(|_| "decision")?,
            observed_at: 100,
            session: active_session()?,
            account_presence: AccountPresenceClaimV1::new(ACCOUNT, character()?).map_err(|_| "account")?,
            placement_identity: id(6),
            placement_revision: 8,
            actor_present: true,
            runtime_ready: true,
            cause: ControlLossCauseV1::AuthoritativeUnexpectedLoss,
            loss_epoch: ControlLossEpochRefV1::new(1).map_err(|_| "epoch")?,
            loss_origin: 100,
            original_grace_deadline: 120,
            history: ControlLossHistoryV1::FreshOrigin,
            protection: protection(),
        },
        authorized_at: 100,
    })
}

fn identity() -> Fallible<ReconnectIdentityV1> {
    Ok(ReconnectIdentityV1::new(
        session_id()?,
        ReconnectAttemptRef::new(7).map_err(|_| "attempt")?,
        ACCOUNT,
        character()?,
        world()?,
        scope()?,
    )
    .map_err(|_| "identity")?)
}

fn candidate() -> Fallible<ReconnectCandidateBindingV1> {
    Ok(ReconnectCandidateBindingV1::new(
        session_id()?,
        ReconnectAttemptRef::new(7).map_err(|_| "attempt")?,
        ConnectionGeneration::new(2).map_err(|_| "generation")?,
        candidate_transport()?,
        108,
    )
    .map_err(|_| "candidate")?)
}

fn evidence() -> Fallible<RecoveryCurrentEvidenceV1> {
    Ok(RecoveryCurrentEvidenceV1 {
        account_id: ACCOUNT.into(),
        character_id: character()?,
        world_id: world()?,
        ruleset_revision: "rules:1".into(),
        content_revision: "content:1".into(),
        map_revision: "map:1".into(),
        world_policy_revision: "world:1".into(),
    })
}

fn account_claim() -> Fallible<AdmissionAuthorityPublicationChangeV1> {
    Ok(AdmissionAuthorityPublicationChangeV1 {
        key: AdmissionAuthorityGuardKeyV1::Account { account_id: ACCOUNT.into() },
        source: AdmissionPublicationSourceV1 {
            authority: "authenticated-owner".into(),
            purpose: AdmissionPublicationPurposeV1::AccountSecurityAndPresence,
            source_revision: 7,
            decision_identity: "claim-seven".into(),
            source_observed_at: 100,
            clock_uncertainty_seconds: 0,
        },
        precondition: AdmissionPublicationPreconditionV1::Bootstrap { restored_publication_high_water: Some(0) },
        publication_revision: 1,
        state: AdmissionAuthorityGuardStateV1::Account {
            security: FreshAccountSecurityObservationV1 {
                account_id: ACCOUNT.into(),
                minimum_generation: 1,
                allowed: true,
                provenance: FreshEvidenceProvenanceV1 {
                    source_authority: "authenticated-platform-security".into(),
                    purpose: FreshEvidencePurposeV1::PlatformSecurity,
                    scope: Fnd04EvidenceScope::FreshAdmission,
                    source_revision: 7,
                    accepted_source_revision: 7,
                    decision_identity: "security-seven".into(),
                    accepted_decision_identity: "security-seven".into(),
                    source_observed_at: 100,
                    clock_uncertainty_seconds: 0,
                    publication_revision: 1,
                },
            },
            presence: Some((character()?, session_id()?)),
        },
    })
}

fn snapshot() -> Fallible<CompleteReconnectSnapshotV1> {
    Ok(CompleteReconnectSnapshotV1 {
        loss: loss()?,
        loss_decided_at: 100,
        source_authority: scope()?,
        source_revision: 9,
        accepted_source_revision: 9,
        observed_at: 103,
        session: lost_session(GameSessionState::Reconnectable)?,
        account_presence: AccountPresenceClaimV1::new(ACCOUNT, character()?).map_err(|_| "account")?,
        actor_present: true,
        runtime_ready: true,
        placement_identity: id(6),
        placement_revision: 8,
        protection: protection(),
        budget: RetainedRecoveryBudgetV1::restore(
            ControlLossEpochRefV1::new(1).map_err(|_| "epoch")?,
            RecoveryEpochStateV1::Open,
            true,
            vec![],
        )
        .map_err(|_| "budget")?,
        candidate: candidate()?,
        proof_transition: CompleteReconnectProofTransitionV1 {
            owner: scope()?,
            revision: 4,
            accepted_revision: 4,
            observed_at: 103,
            predecessor_session: session_id()?,
            predecessor_generation: 1,
            successor_session: session_id()?,
            successor_generation: 2,
            candidate: candidate()?,
        },
        fnd02: Fnd02ReconciliationFenceV1::new(CommandId::new(1).map_err(|_| "command")?, vec![], 0, vec![])
            .map_err(|_| "fnd02")?,
        recovery: evidence()?,
        claims: vec![account_claim()?],
    })
}

fn fast_credential() -> Fallible<CompleteReconnectCredentialV1> {
    let platform = AuthorityEvidenceFenceV1::new("platform-security", "reconnect", "account", "sec:1", "decision:sec:1", 103)
        .map_err(|_| "platform")?;
    let trust = AuthorityEvidenceFenceV1::new("proof-trust", "reconnect", "proof", "trust:1", "decision:trust:1", 103)
        .map_err(|_| "trust")?;
    Ok(CompleteReconnectCredentialV1::Fast(CompleteFastReconnectBindingV1 {
        session: session_id()?,
        predecessor: ConnectionGeneration::new(1).map_err(|_| "generation")?,
        attempt: ReconnectAttemptRef::new(7).map_err(|_| "attempt")?,
        transport: candidate_transport()?,
        proof_generation: 1,
        replacement_proof_generation: 2,
        verified_at: NOW,
        compatibility: ReconnectCompatibilityEvidenceV1::new(1, 1, "rules:1", "content:1", "map:1", "world:1", 1, platform, trust, None)
            .map_err(|_| "compatibility")?,
    }))
}

fn checks() -> OperationChecksV1 {
    OperationChecksV1 {
        snapshot: CompleteSnapshotChecksV1 { resources_bounded: true, claims_valid: true },
        credential: CredentialChecksV1 { fields_bounded: true, audit_valid: true },
    }
}

fn durability_checks() -> DurabilityChecksV1 {
    DurabilityChecksV1 { recovery: checks(), replacement_valid: true }
}

fn operation() -> Fallible<CompleteReconnectOperationV1> {
    Ok(CompleteReconnectOperationV1 {
        version: 1,
        mode: CompleteReconnectModeV1::SameSession,
        identity: identity()?,
        original: snapshot()?,
        credential: fast_credential()?,
        prepared_at: NOW,
    })
}

#[test]
fn complete_reconnect_operation_history_is_checked_here() -> Outcome {
    let op = operation()?;
    assert_eq!(op.validate_historical(checks()), Ok(()));
    let mut unbounded = checks();
    unbounded.snapshot.resources_bounded = false;
    assert_eq!(op.validate_historical(unbounded), Err(ReconnectDurabilityErrorV1::InvalidRecord));
    let mut inconsistent = checks();
    inconsistent.snapshot.claims_valid = false;
    assert_eq!(op.validate_historical(inconsistent), Err(ReconnectDurabilityErrorV1::StaleAuthority));

    let mut wrong_version = operation()?;
    wrong_version.version = 2;
    assert_eq!(wrong_version.validate_historical(checks()), Err(ReconnectDurabilityErrorV1::InvalidRecord));
    let mut wrong_mode = operation()?;
    wrong_mode.mode = CompleteReconnectModeV1::EarlyTerminalReplacement;
    assert_eq!(wrong_mode.validate_historical(checks()), Err(ReconnectDurabilityErrorV1::InvalidRecord));
    let mut late = operation()?;
    late.prepared_at = 121;
    assert_eq!(late.validate_historical(checks()), Err(ReconnectDurabilityErrorV1::StaleAuthority));
    let mut other_candidate = operation()?;
    other_candidate.original.proof_transition.successor_generation = 1;
    assert_eq!(other_candidate.validate_historical(checks()), Err(ReconnectDurabilityErrorV1::StaleAuthority));
    let mut no_floor = operation()?;
    no_floor.original.claims.clear();
    assert_eq!(no_floor.validate_historical(checks()), Err(ReconnectDurabilityErrorV1::InvalidRecord));
    Ok(())
}

#[test]
fn complete_reconnect_authorizes_and_revalidates_against_current_sources() -> Outcome {
    let current = CompleteReconnectCurrentV1 { snapshot: snapshot()?, prepared: None };
    let auth = CompleteReconnectAuthorizationV1::authorize(identity()?, current, Ok(fast_credential()?), checks(), NOW)
        .map_err(|_| "authorize")?;
    assert_eq!(auth.operation().mode, CompleteReconnectModeV1::SameSession);
    let busy = CompleteReconnectCurrentV1 { snapshot: snapshot()?, prepared: Some(operation()?) };
    assert_eq!(
        CompleteReconnectAuthorizationV1::authorize(identity()?, busy, Ok(fast_credential()?), checks(), NOW).err(),
        Some(ReconnectDurabilityErrorV1::ConcurrentPrepared)
    );
    let current_checks = oteryn_game_server::complete_operation::CurrentChecksV1 {
        operation: checks(),
        snapshot: checks().snapshot,
        stored: checks(),
        successor: Ok(()),
    };
    let fresh = CompleteReconnectCurrentV1 { snapshot: snapshot()?, prepared: None };
    assert!(auth.validate_current(fresh, Ok(fast_credential()?), current_checks, false, NOW).is_ok());
    let mut moved = snapshot()?;
    moved.placement_revision = 9;
    let changed = CompleteReconnectCurrentV1 { snapshot: moved, prepared: None };
    assert_eq!(
        auth.validate_current(changed, Ok(fast_credential()?), current_checks, false, NOW).err(),
        Some(ReconnectDurabilityErrorV1::StaleAuthority)
    );
    Ok(())
}

fn report(outcome: CompleteReconnectOutcomeV1) -> Fallible<CompleteReconnectCompletionV1> {
    Ok(CompleteReconnectCompletionV1 {
        operation: CompleteReconnectDurabilityOperationV1 { recovery: operation()?, replacement: None },
        outcome,
        checks: durability_checks(),
    })
}

#[test]
fn complete_reconnect_flow_classifies_reports_of_its_own_operation() -> Outcome {
    let restored = CompleteReconnectDurabilityOperationV1 { recovery: operation()?, replacement: None };
    let mut flow = CompleteReconnectFlowV1::restore(restored, durability_checks()).map_err(|_| "restore")?;
    assert_eq!(flow.phase(), CompleteReconnectPhaseV1::ReconciliationRequired);
    assert_eq!(flow.take_request(CompleteReconnectRequestKindV1::Prepare).err().map(|_| ()), Some(()));
    let request = flow.take_request(CompleteReconnectRequestKindV1::Reconcile).map_err(|_| "reconcile")?;
    assert!(!request.carries_authorization());

    let mut foreign = report(CompleteReconnectOutcomeV1::Committed { decided_at: 105 })?;
    foreign.operation.recovery.prepared_at = 103;
    foreign.operation.recovery.credential = {
        let mut c = fast_credential()?;
        if let CompleteReconnectCredentialV1::Fast(b) = &mut c {
            b.verified_at = 103;
        }
        c
    };
    assert_eq!(flow.accept_completion(Ok(Some(foreign))), Err(ReconnectDurabilityErrorV1::IdempotencyConflict));
    assert_eq!(flow.phase(), CompleteReconnectPhaseV1::PendingReconciliation);

    assert_eq!(
        flow.accept_completion(Ok(Some(report(CompleteReconnectOutcomeV1::Committed { decided_at: 109 })?))),
        Err(ReconnectDurabilityErrorV1::DeadlineExpired)
    );
    flow.accept_completion(Ok(Some(report(CompleteReconnectOutcomeV1::Committed { decided_at: 105 })?)))
        .map_err(|_| "committed")?;
    assert_eq!(flow.phase(), CompleteReconnectPhaseV1::AwaitingAdoption);
    assert_eq!(flow.receipt(), Some(105));
    assert_eq!(
        flow.accept_completion(Ok(Some(report(CompleteReconnectOutcomeV1::Committed { decided_at: 106 })?))),
        Err(ReconnectDurabilityErrorV1::IdempotencyConflict)
    );
    assert_eq!(
        flow.accept_completion(Ok(Some(report(CompleteReconnectOutcomeV1::Rejected)?))),
        Err(ReconnectDurabilityErrorV1::IdempotencyConflict)
    );
    flow.accept_completion(Ok(Some(report(CompleteReconnectOutcomeV1::Ambiguous)?))).map_err(|_| "ambiguous")?;
    assert_eq!(flow.phase(), CompleteReconnectPhaseV1::AwaitingAdoption);

    let no_sources = oteryn_game_server::complete_reconnect::AdoptionChecksV1 {
        resources_bounded: true,
        claims_valid: true,
        sources: Err(ReconnectDurabilityErrorV1::StaleAuthority),
    };
    assert_eq!(
        flow.adopt_current(Err(ReconnectDurabilityErrorV1::StaleAuthority), Err(ReconnectDurabilityErrorV1::StaleAuthority), no_sources, 106)
            .err(),
        Some(ReconnectDurabilityErrorV1::StaleAuthority)
    );
    assert_eq!(flow.phase(), CompleteReconnectPhaseV1::AwaitingAdoption);
    Ok(())
}

#[test]
fn complete_reconnect_effect_prepares_inertly_and_commits_the_winner() -> Outcome {
    let op = CompleteReconnectDurabilityOperationV1 { recovery: operation()?, replacement: None };
    let prepared = complete_reconnect_effect(&op, durability_checks(), false, 105).map_err(|_| "prepare")?;
    assert_eq!(prepared.kind(), CompleteReconnectRequestKindV1::Prepare);
    assert_eq!(prepared.session().session_state(), GameSessionState::Reconnectable);
    assert_eq!(prepared.budget().entries().len(), 1);
    assert_eq!(prepared.budget().entries()[0].disposition, RetainedRecoveryAttemptDispositionV1::Prepared);

    let committed = complete_reconnect_effect(&op, durability_checks(), true, 105).map_err(|_| "commit")?;
    assert_eq!(committed.budget().state(), RecoveryEpochStateV1::Restored);
    assert_eq!(committed.budget().entries()[0].disposition, RetainedRecoveryAttemptDispositionV1::Committed);
    assert_eq!(
        committed.protection().usage,
        RecoveryProtectionUseV1::Activated { entitlement_generation: 1, activated_at: 105, deadline: 109 }
    );
    let session = committed.session();
    assert_eq!(session.session_state(), GameSessionState::Active);
    assert_eq!(session.current_connection_generation(), ConnectionGeneration::new(2).map_err(|_| "generation")?);
    assert_eq!(session.current_transport(), Some(candidate_transport()?));
    assert_eq!(complete_reconnect_effect(&op, durability_checks(), true, 109).err(), Some(ReconnectDurabilityErrorV1::DeadlineExpired));
    assert_eq!(complete_reconnect_effect(&op, durability_checks(), false, 103).err(), Some(ReconnectDurabilityErrorV1::DeadlineExpired));
    let mut bad = durability_checks();
    bad.recovery.snapshot.resources_bounded = false;
    assert_eq!(complete_reconnect_effect(&op, bad, false, 105).err(), Some(ReconnectDurabilityErrorV1::InvalidRecord));
    Ok(())
}

fn audit() -> Fallible<RecoveryCredentialAuditV2> {
    Ok(RecoveryCredentialAuditV2 {
        account_id: ACCOUNT.into(),
        character_id: character()?,
        world_id: world()?,
        grant_nonce: [5; 32],
        account_security_generation: 1,
        protocol_major: 1,
        transport_profile: 1,
        expires_at: 500,
        verified_at: 130,
        accepted_deadline: 200,
        ruleset_revision: "rules:1".into(),
        content_revision: "content:1".into(),
        map_revision: "map:1".into(),
        world_policy_revision: "world:1".into(),
        credential_attempt_ref: 1,
        issued_at: 120,
        not_before: 120,
        security_source_revision: 7,
    })
}

fn actor(revision: u64) -> Fallible<PostGraceActorObservationV1> {
    Ok(PostGraceActorObservationV1 {
        source_authority: "owner".into(),
        source_revision: revision,
        accepted_source_revision: revision,
        decision_identity: format!("decision-{revision}"),
        accepted_decision_identity: format!("decision-{revision}"),
        source_observed_at: 130,
        current: evidence()?,
        predecessor: lost_session(GameSessionState::Terminal)?,
        account_presence: Some(AccountPresenceClaimV1::new(ACCOUNT, character()?).map_err(|_| "account")?),
        present_uncontrolled: true,
        runtime_ready: true,
        reconciliation: Fnd02ReconciliationFenceV1::new(CommandId::new(1).map_err(|_| "command")?, vec![], 0, vec![])
            .map_err(|_| "fnd02")?,
        placement_identity: id(6),
        placement_revision: 8,
        account_security_source_revision: 7,
        budget: RetainedRecoveryBudgetV1::restore(
            ControlLossEpochRefV1::new(1).map_err(|_| "epoch")?,
            RecoveryEpochStateV1::Open,
            true,
            vec![],
        )
        .map_err(|_| "budget")?,
        protection: Some(protection()),
    })
}

fn post_grace_evidence(candidate: u8) -> Fallible<PostGraceClaimEvidenceV1> {
    Ok(PostGraceClaimEvidenceV1 {
        operation: PostGraceRecoveryOperationV1 {
            version: 1,
            credential: audit()?,
            actor: actor(9)?,
            candidate: GameSessionId::decode(&id(candidate)).map_err(|_| "candidate")?,
            candidate_generation: ConnectionGeneration::new(1).map_err(|_| "generation")?,
            attempt: ReconnectAttemptRef::new(3).map_err(|_| "attempt")?,
            transport: candidate_transport()?,
            timing: RecoveryTimingV2::TerminalSessionPostGrace { original_grace_deadline: 120, attempt_deadline: 200 },
            prepared_at: 130,
        },
        authorization: PostGraceRecoveryDecisionAuditV1 { credential: audit()?, actor: actor(9)? },
        prepared_at: 130,
        successors: vec![account_claim()?],
    })
}

struct Port(PostGraceSubmissionV1, Vec<(PostGraceRequestKindV1, bool)>);

impl PostGraceDurabilityPortV1 for Port {
    fn submit(&mut self, request: &PostGraceDurabilityRequestV1) -> PostGraceSubmissionV1 {
        self.1.push((request.kind(), request.carries_authorization()));
        self.0
    }
}

fn completion(operation: PostGraceClaimEvidenceV1, phase: PostGraceFlowPhaseV1, outcome: PostGraceDurableOutcomeV1) -> PostGraceDurableCompletionV1 {
    PostGraceDurableCompletionV1 {
        operation,
        phase,
        outcome,
        historical: true,
        committed_valid: true,
        decision_checks: decision_checks(),
    }
}

fn operation_checks() -> PostGraceOperationChecksV1 {
    PostGraceOperationChecksV1 { credential_valid: true, actor_bounded: true }
}

fn decision_checks() -> PostGraceDecisionSuccessionChecksV1 {
    PostGraceDecisionSuccessionChecksV1 {
        decision: PostGraceDecisionChecksV1 { operation: operation_checks(), actor_bounded: true, credential_succeeds: true },
        prior_actor_bounded: true,
        prior_credential_succeeds: true,
    }
}

#[test]
fn post_grace_actor_observation_is_checked_at_its_time() -> Outcome {
    let a = actor(9)?;
    assert_eq!(a.validate(130, true), Ok(()));
    assert_eq!(a.validate(130, false), Err(ReconnectDurabilityErrorV1::InvalidRecord));
    // Within the original grace the actor is not yet post-grace.
    assert_eq!(a.validate(120, true), Err(ReconnectDurabilityErrorV1::StaleAuthority));
    // An observation from the future is stale.
    assert_eq!(a.validate(129, true), Err(ReconnectDurabilityErrorV1::StaleAuthority));
    let mut controlled = actor(9)?;
    controlled.present_uncontrolled = false;
    assert_eq!(controlled.validate(130, true), Err(ReconnectDurabilityErrorV1::StaleAuthority));
    let mut unaccepted = actor(9)?;
    unaccepted.accepted_decision_identity = "decision-8".into();
    assert_eq!(unaccepted.validate(130, true), Err(ReconnectDurabilityErrorV1::StaleAuthority));
    let mut unprotected = actor(9)?;
    unprotected.protection = None;
    assert_eq!(unprotected.validate(130, true), Err(ReconnectDurabilityErrorV1::StaleAuthority));
    let mut broken = actor(9)?;
    broken.protection = Some(RecoveryProtectionContinuityV1 {
        usage: RecoveryProtectionUseV1::Unused { entitlement_generation: 0 },
        rearm: protection().rearm,
    });
    assert_eq!(broken.validate(130, true), Err(ReconnectDurabilityErrorV1::InvalidRecord));
    Ok(())
}

#[test]
fn post_grace_operation_history_agrees_with_credential_and_actor() -> Outcome {
    let op = post_grace_evidence(10)?.operation;
    assert_eq!(op.validate_historical(operation_checks()), Ok(()));
    let mut unverified = operation_checks();
    unverified.credential_valid = false;
    assert_eq!(op.validate_historical(unverified), Err(ReconnectDurabilityErrorV1::InvalidRecord));
    let mut other_security = op.duplicate();
    other_security.credential.security_source_revision = 8;
    assert_eq!(other_security.validate_historical(operation_checks()), Err(ReconnectDurabilityErrorV1::InvalidRecord));
    let mut other_window = op.duplicate();
    other_window.timing = RecoveryTimingV2::TerminalSessionPostGrace { original_grace_deadline: 120, attempt_deadline: 201 };
    assert_eq!(other_window.validate_historical(operation_checks()), Err(ReconnectDurabilityErrorV1::InvalidRecord));
    let mut second_generation = op.duplicate();
    second_generation.candidate_generation = ConnectionGeneration::new(2).map_err(|_| "generation")?;
    assert_eq!(second_generation.validate_historical(operation_checks()), Err(ReconnectDurabilityErrorV1::InvalidRecord));
    let mut early = op.duplicate();
    early.prepared_at = 129;
    early.actor.source_observed_at = 129;
    assert_eq!(early.validate_historical(operation_checks()), Err(ReconnectDurabilityErrorV1::InvalidRecord));
    let mut after_deadline = op.duplicate();
    after_deadline.prepared_at = 201;
    after_deadline.credential.verified_at = 130;
    assert_eq!(after_deadline.validate_historical(operation_checks()), Err(ReconnectDurabilityErrorV1::StaleAuthority));
    Ok(())
}

#[test]
fn post_grace_actor_successor_keeps_everything_but_the_revision() -> Outcome {
    let attempt = ReconnectAttemptRef::new(3).map_err(|_| "attempt")?;
    let before = actor(9)?;
    assert_eq!(validate_post_grace_actor_successor(&before, &actor(10)?, attempt, true, true), Ok(()));
    assert_eq!(validate_post_grace_actor_successor(&before, &actor(9)?, attempt, true, true), Ok(()));
    assert_eq!(validate_post_grace_actor_successor(&before, &actor(10)?, attempt, true, false), Err(ReconnectDurabilityErrorV1::InvalidRecord));
    assert_eq!(validate_post_grace_actor_successor(&actor(10)?, &before, attempt, true, true), Err(ReconnectDurabilityErrorV1::StaleAuthority));
    let mut reused = actor(10)?;
    reused.decision_identity = "decision-9".into();
    reused.accepted_decision_identity = "decision-9".into();
    assert_eq!(validate_post_grace_actor_successor(&before, &reused, attempt, true, true), Err(ReconnectDurabilityErrorV1::StaleAuthority));
    let mut changed = actor(9)?;
    changed.source_observed_at = 131;
    assert_eq!(validate_post_grace_actor_successor(&before, &changed, attempt, true, true), Err(ReconnectDurabilityErrorV1::StaleAuthority));
    let mut other_attempt = actor(10)?;
    other_attempt.budget = RetainedRecoveryBudgetV1::restore(
        ControlLossEpochRefV1::new(1).map_err(|_| "epoch")?,
        RecoveryEpochStateV1::Open,
        true,
        vec![oteryn_game_server::budget::RetainedRecoveryAttemptV1 {
            attempt: ReconnectAttemptRef::new(4).map_err(|_| "attempt")?,
            transport: candidate_transport()?,
            disposition: RetainedRecoveryAttemptDispositionV1::Prepared,
        }],
    )
    .map_err(|_| "budget")?;
    assert_eq!(validate_post_grace_actor_successor(&before, &other_attempt, attempt, true, true), Err(ReconnectDurabilityErrorV1::StaleAuthority));
    let mut own_attempt = actor(10)?;
    own_attempt.budget = RetainedRecoveryBudgetV1::restore(
        ControlLossEpochRefV1::new(1).map_err(|_| "epoch")?,
        RecoveryEpochStateV1::Open,
        true,
        vec![oteryn_game_server::budget::RetainedRecoveryAttemptV1 {
            attempt,
            transport: candidate_transport()?,
            disposition: RetainedRecoveryAttemptDispositionV1::Prepared,
        }],
    )
    .map_err(|_| "budget")?;
    assert_eq!(validate_post_grace_actor_successor(&before, &own_attempt, attempt, true, true), Ok(()));
    assert_eq!(validate_post_grace_actor_successor(&own_attempt, &actor(11)?, attempt, true, true), Err(ReconnectDurabilityErrorV1::StaleAuthority));
    Ok(())
}

#[test]
fn post_grace_decision_must_succeed_the_operation_and_its_authorization() -> Outcome {
    let evidence = post_grace_evidence(10)?;
    let decision = PostGraceRecoveryDecisionAuditV1 { credential: audit()?, actor: actor(10)? };
    assert_eq!(decision.validate_for_operation(&evidence.operation, 140, decision_checks().decision), Ok(()));
    assert_eq!(decision.validate_successor_of(&evidence.authorization, &evidence.operation, 140, decision_checks()), Ok(()));
    assert_eq!(decision.validate_for_operation(&evidence.operation, 201, decision_checks().decision), Err(ReconnectDurabilityErrorV1::StaleAuthority));
    let mut unsucceeded = decision_checks();
    unsucceeded.prior_credential_succeeds = false;
    assert_eq!(decision.validate_successor_of(&evidence.authorization, &evidence.operation, 140, unsucceeded), Err(ReconnectDurabilityErrorV1::StaleAuthority));
    let mut other_security = PostGraceRecoveryDecisionAuditV1 { credential: audit()?, actor: actor(10)? };
    other_security.credential.security_source_revision = 8;
    assert_eq!(other_security.validate_for_operation(&evidence.operation, 140, decision_checks().decision), Err(ReconnectDurabilityErrorV1::StaleAuthority));
    let later = PostGraceRecoveryDecisionAuditV1 { credential: audit()?, actor: actor(11)? };
    assert_eq!(decision.validate_successor_of(&later, &evidence.operation, 140, decision_checks()), Err(ReconnectDurabilityErrorV1::StaleAuthority));
    Ok(())
}

#[test]
fn post_grace_commit_report_is_checked_before_it_is_recorded() -> Outcome {
    let mut port = Port(PostGraceSubmissionV1::Accepted, Vec::new());
    let mut flow = PostGraceDurabilityFlowV1::restore_history(post_grace_evidence(10)?, true).map_err(|_| "restore")?;
    flow.reconcile(&mut port).map_err(|_| "reconcile")?;
    let committed = |actor_revision: u64| -> Fallible<PostGraceDurableCompletionV1> {
        Ok(completion(
            post_grace_evidence(10)?,
            PostGraceFlowPhaseV1::PendingReconciliation,
            PostGraceDurableOutcomeV1::Committed {
                decided_at: 140,
                decision: PostGraceRecoveryDecisionAuditV1 { credential: audit()?, actor: actor(actor_revision)? },
            },
        ))
    };
    let mut invalid = committed(10)?;
    invalid.committed_valid = false;
    assert_eq!(flow.poll(Ok(Some(invalid))), Err(ReconnectDurabilityErrorV1::CompletionMismatch));
    // A decision that reuses the authorizing revision does not succeed it.
    let mut stale = committed(9)?;
    if let PostGraceDurableOutcomeV1::Committed { decision, .. } = &mut stale.outcome {
        decision.actor.source_observed_at = 131;
    }
    assert_eq!(flow.poll(Ok(Some(stale))), Err(ReconnectDurabilityErrorV1::StaleAuthority));
    assert_eq!(flow.phase(), PostGraceFlowPhaseV1::PendingReconciliation);
    assert!(flow.receipt().is_none());
    assert_eq!(flow.poll(Ok(Some(committed(10)?))), Ok(true));
    assert_eq!(flow.phase(), PostGraceFlowPhaseV1::AwaitingAdoption);
    Ok(())
}

#[test]
fn post_grace_history_reconciles_its_own_operation_only() -> Outcome {
    let mut port = Port(PostGraceSubmissionV1::Accepted, Vec::new());
    let mut flow = PostGraceDurabilityFlowV1::restore_history(post_grace_evidence(10)?, true).map_err(|_| "restore")?;
    assert_eq!(flow.submit_prepare(&mut port), Err(ReconnectDurabilityErrorV1::InvalidPhase));
    assert_eq!(flow.submit_commit(&mut port, Ok(())), Err(ReconnectDurabilityErrorV1::InvalidPhase));
    assert!(port.1.is_empty());
    flow.reconcile(&mut port).map_err(|_| "reconcile")?;
    assert_eq!(port.1, vec![(PostGraceRequestKindV1::Reconcile, false)]);
    assert_eq!(flow.poll(Ok(None)), Ok(false));
    let foreign = completion(
        post_grace_evidence(11)?,
        PostGraceFlowPhaseV1::PendingReconciliation,
        PostGraceDurableOutcomeV1::Committed { decided_at: 140, decision: PostGraceRecoveryDecisionAuditV1 { credential: audit()?, actor: actor(10)? } },
    );
    assert_eq!(flow.poll(Ok(Some(foreign))), Err(ReconnectDurabilityErrorV1::CompletionMismatch));
    assert_eq!(flow.adopt(Err(ReconnectDurabilityErrorV1::StaleAuthority), adoption_checks(), 141), Err(ReconnectDurabilityErrorV1::InvalidPhase));
    flow.poll(Ok(Some(completion(
        post_grace_evidence(10)?,
        PostGraceFlowPhaseV1::PendingReconciliation,
        PostGraceDurableOutcomeV1::Committed { decided_at: 140, decision: PostGraceRecoveryDecisionAuditV1 { credential: audit()?, actor: actor(10)? } },
    ))))
    .map_err(|_| "committed")?;
    assert_eq!(flow.phase(), PostGraceFlowPhaseV1::AwaitingAdoption);
    assert_eq!(flow.receipt().map(|r| r.decided_at()), Some(140));
    assert!(flow.controller().is_none());
    assert_eq!(flow.adopt(Err(ReconnectDurabilityErrorV1::StaleAuthority), adoption_checks(), 141), Err(ReconnectDurabilityErrorV1::StaleAuthority));
    assert!(flow.controller().is_none());
    assert_eq!(PostGraceDurabilityFlowV1::restore_history(post_grace_evidence(10)?, false).err().map(|_| ()), Some(()));
    Ok(())
}

fn adoption_checks() -> PostGraceAdoptionChecksV1 {
    PostGraceAdoptionChecksV1 { actors_bounded: true, claims_bounded: true, sources_hold: true, claims_valid: true }
}

#[test]
fn post_grace_adoption_installs_the_operation_candidate_only_from_matching_facts() -> Outcome {
    let mut port = Port(PostGraceSubmissionV1::Accepted, Vec::new());
    let mut flow = PostGraceDurabilityFlowV1::begin(Ok(post_grace_evidence(10)?)).map_err(|_| "begin")?;
    assert_eq!(PostGraceDurabilityFlowV1::begin(Err(ReconnectDurabilityErrorV1::InvalidRecord)).err().map(|_| ()), Some(()));
    flow.submit_prepare(&mut port).map_err(|_| "prepare")?;
    flow.poll(Ok(Some(completion(post_grace_evidence(10)?, PostGraceFlowPhaseV1::PendingPrepare, PostGraceDurableOutcomeV1::Prepared))))
        .map_err(|_| "prepared")?;
    flow.submit_commit(&mut port, Ok(())).map_err(|_| "commit")?;
    assert_eq!(port.1.last(), Some(&(PostGraceRequestKindV1::Commit, true)));
    flow.poll(Ok(Some(completion(
        post_grace_evidence(10)?,
        PostGraceFlowPhaseV1::PendingCommit,
        PostGraceDurableOutcomeV1::Committed { decided_at: 140, decision: PostGraceRecoveryDecisionAuditV1 { credential: audit()?, actor: actor(10)? } },
    ))))
    .map_err(|_| "committed")?;

    // The current facts a committed adoption leaves behind.
    let op = flow.operation().operation.duplicate();
    let mut current_actor = actor(11)?;
    current_actor.present_uncontrolled = false;
    current_actor.source_observed_at = 141;
    current_actor.budget = RetainedRecoveryBudgetV1::restore(
        ControlLossEpochRefV1::new(1).map_err(|_| "epoch")?,
        RecoveryEpochStateV1::Restored,
        true,
        vec![oteryn_game_server::budget::RetainedRecoveryAttemptV1 {
            attempt: op.attempt,
            transport: op.transport,
            disposition: RetainedRecoveryAttemptDispositionV1::Committed,
        }],
    )
    .map_err(|_| "budget")?;
    current_actor.protection = Some(RecoveryProtectionContinuityV1 {
        usage: RecoveryProtectionUseV1::Activated { entitlement_generation: 1, activated_at: 140, deadline: 144 },
        rearm: protection().rearm,
    });
    let pred = lost_session(GameSessionState::Terminal)?;
    let adopted_commit = FreshAdmissionCommit::from_facts(
        op.candidate,
        FreshAdmissionFacts::new([3; 32], character()?, world()?, ChannelId::decode(&id(4)).map_err(|_| "channel")?, 2, 3)
            .map_err(|_| "facts")?,
        op.transport,
    )
    .map_err(|_| "commit")?;
    let session = GameSessionAuthoritySnapshot::from_current_facts(
        adopted_commit,
        GameSessionState::Active,
        op.candidate_generation,
        Some(op.transport),
        pred.current_character_lease(),
        pred.current_character_world_eligibility(),
        pred.current_runtime_scope(),
        pred.current_scope_generation(),
    )
    .map_err(|_| "session")?
    .with_control_loss_continuity(ControlLossEpochRefV1::new(1).map_err(|_| "epoch")?, 120)
    .map_err(|_| "continuity")?;
    let current = || -> Fallible<PostGraceAdoptionCurrentV1> {
        Ok(PostGraceAdoptionCurrentV1 {
            actor: current_actor.duplicate(),
            session,
            actor_present: true,
            controller: Some((op.candidate, op.candidate_generation, op.transport)),
            live_transport: Some(op.transport),
            security_source_revision: 7,
            claims: vec![account_claim()?],
        })
    };
    let mut wrong = current()?;
    wrong.live_transport = None;
    assert_eq!(flow.adopt(Ok(wrong), adoption_checks(), 142), Err(ReconnectDurabilityErrorV1::StaleAuthority));
    assert!(flow.controller().is_none());
    let mut untrusted = adoption_checks();
    untrusted.sources_hold = false;
    assert_eq!(flow.adopt(Ok(current()?), untrusted, 142), Err(ReconnectDurabilityErrorV1::StaleAuthority));
    flow.adopt(Ok(current()?), adoption_checks(), 142).map_err(|_| "adopt")?;
    assert_eq!(flow.phase(), PostGraceFlowPhaseV1::Adopted);
    let controller = flow.controller().ok_or("controller")?;
    assert_eq!(controller.session(), op.candidate);
    assert_eq!(controller.generation(), op.candidate_generation);
    assert_eq!(controller.transport(), op.transport);
    Ok(())
}

#[test]
fn post_grace_rejection_is_recorded_and_clears_control() -> Outcome {
    let mut port = Port(PostGraceSubmissionV1::Unavailable, Vec::new());
    let mut flow = PostGraceDurabilityFlowV1::begin(Ok(post_grace_evidence(10)?)).map_err(|_| "begin")?;
    flow.submit_prepare(&mut port).map_err(|_| "unavailable")?;
    assert_eq!(flow.phase(), PostGraceFlowPhaseV1::Ready);
    port.0 = PostGraceSubmissionV1::Accepted;
    flow.submit_prepare(&mut port).map_err(|_| "prepare")?;
    flow.poll(Ok(Some(completion(
        post_grace_evidence(10)?,
        PostGraceFlowPhaseV1::PendingPrepare,
        PostGraceDurableOutcomeV1::Rejected { reason: PostGraceTerminalReasonV1::DeadlineExpired },
    ))))
    .map_err(|_| "rejected")?;
    assert_eq!(flow.phase(), PostGraceFlowPhaseV1::Rejected);
    assert_eq!(flow.terminal_reason(), Some(PostGraceTerminalReasonV1::DeadlineExpired));
    assert!(flow.controller().is_none());
    Ok(())
}

fn recovery_credential(accepted_deadline: i64) -> Fallible<CompleteReconnectCredentialV1> {
    let mut v2 = audit()?;
    v2.verified_at = NOW;
    v2.accepted_deadline = accepted_deadline;
    Ok(CompleteReconnectCredentialV1::Recovery(CompleteRecoveryCredentialV1 {
        grant_nonce: [5; 32],
        account_security_generation: 1,
        protocol_major: 1,
        transport_profile: 1,
        ruleset_revision: "rules:1".into(),
        content_revision: "content:1".into(),
        map_revision: "map:1".into(),
        world_policy_revision: "world:1".into(),
        expires_at: 500,
        v1_trust: None,
        v2: Some(v2),
    }))
}

#[test]
fn complete_bridge_not_entitled_does_not_create_protection() {
    let protection = RecoveryProtectionContinuityV1 {
        usage: RecoveryProtectionUseV1::NotEntitled,
        rearm: RecoveryProtectionRearmV1::NotRearmed { generation: 17, stable_control_started_at: None, accepted_deadline: None },
    };
    assert_eq!(complete_reconnect_protection(protection, 105), Ok(protection));
}

#[test]
fn complete_bridge_activation_keeps_entitlement_namespace_and_rearm() {
    let protection = RecoveryProtectionContinuityV1 {
        usage: RecoveryProtectionUseV1::Unused { entitlement_generation: 91 },
        rearm: RecoveryProtectionRearmV1::Satisfied { generation: 17, established_at: 90 },
    };
    let activated = complete_reconnect_protection(protection, 105);
    assert!(activated.is_ok(), "valid protection");
    let activated = activated.unwrap_or(protection);
    assert_eq!(
        activated.usage,
        RecoveryProtectionUseV1::Activated { entitlement_generation: 91, activated_at: 105, deadline: 109 }
    );
    assert_eq!(activated.rearm, protection.rearm);
}

#[test]
fn complete_bridge_v2_attempt_cannot_extend_original_verified_deadline() -> Outcome {
    let current = || -> Fallible<CompleteReconnectCurrentV1> { Ok(CompleteReconnectCurrentV1 { snapshot: snapshot()?, prepared: None }) };
    assert!(CompleteReconnectAuthorizationV1::authorize(identity()?, current()?, Ok(recovery_credential(108)?), checks(), NOW).is_ok());
    // The candidate's PREPARE window ends at 108, after the verified deadline.
    assert!(CompleteReconnectAuthorizationV1::authorize(identity()?, current()?, Ok(recovery_credential(107)?), checks(), NOW).is_err());
    Ok(())
}

#[test]
fn complete_bridge_history_checks_signed_identity_and_common_fields() -> Outcome {
    let current = CompleteReconnectCurrentV1 { snapshot: snapshot()?, prepared: None };
    let auth = CompleteReconnectAuthorizationV1::authorize(identity()?, current, Ok(recovery_credential(108)?), checks(), NOW)
        .map_err(|_| "authorized")?;
    assert_eq!(auth.operation().validate_historical(checks()), Ok(()));
    let mut op = auth.operation().duplicate();
    if let CompleteReconnectCredentialV1::Recovery(value) = &mut op.credential {
        value.grant_nonce = [6; 32];
    }
    assert!(op.validate_historical(checks()).is_err());
    let mut op = auth.operation().duplicate();
    if let CompleteReconnectCredentialV1::Recovery(value) = &mut op.credential {
        value.map_revision = "other-map".into();
    }
    assert!(op.validate_historical(checks()).is_err());
    Ok(())
}

#[test]
fn complete_bridge_unresolved_prepared_budget_cannot_authorize_another_candidate() -> Outcome {
    let mut busy = snapshot()?;
    busy.budget = RetainedRecoveryBudgetV1::restore(
        ControlLossEpochRefV1::new(1).map_err(|_| "epoch")?,
        RecoveryEpochStateV1::Open,
        true,
        vec![oteryn_game_server::budget::RetainedRecoveryAttemptV1 {
            attempt: ReconnectAttemptRef::new(99).map_err(|_| "other attempt")?,
            transport: AuthenticatedTransportRefV1::decode(&[77; 16]).map_err(|_| "other transport")?,
            disposition: RetainedRecoveryAttemptDispositionV1::Prepared,
        }],
    )
    .map_err(|_| "budget")?;
    let current = CompleteReconnectCurrentV1 { snapshot: busy, prepared: None };
    assert!(CompleteReconnectAuthorizationV1::authorize(identity()?, current, Ok(fast_credential()?), checks(), NOW).is_err());
    Ok(())
}

fn prepared_current() -> Fallible<CompleteReconnectCurrentV1> {
    let mut prepared = snapshot()?;
    prepared.budget = RetainedRecoveryBudgetV1::restore(
        ControlLossEpochRefV1::new(1).map_err(|_| "epoch")?,
        RecoveryEpochStateV1::Open,
        true,
        vec![oteryn_game_server::budget::RetainedRecoveryAttemptV1 {
            attempt: ReconnectAttemptRef::new(7).map_err(|_| "attempt")?,
            transport: candidate_transport()?,
            disposition: RetainedRecoveryAttemptDispositionV1::Prepared,
        }],
    )
    .map_err(|_| "budget")?;
    Ok(CompleteReconnectCurrentV1 { snapshot: prepared, prepared: Some(operation()?) })
}

fn current_checks() -> oteryn_game_server::complete_operation::CurrentChecksV1 {
    oteryn_game_server::complete_operation::CurrentChecksV1 {
        operation: checks(),
        snapshot: checks().snapshot,
        stored: checks(),
        successor: Ok(()),
    }
}

#[test]
fn complete_bridge_current_loss_must_match_retained_commit_and_generation() -> Outcome {
    let other = AuthenticatedTransportRefV1::decode(&[77; 16]).map_err(|_| "other")?;
    let s = lost_session(GameSessionState::Reconnectable)?;
    let commit = FreshAdmissionCommit::from_facts(
        session_id()?,
        FreshAdmissionFacts::new([3; 32], character()?, world()?, ChannelId::decode(&id(4)).map_err(|_| "channel")?, 2, 3)
            .map_err(|_| "facts")?,
        other,
    )
    .map_err(|_| "commit")?;
    let moved = GameSessionAuthoritySnapshot::from_current_facts(
        commit,
        GameSessionState::Reconnectable,
        s.current_connection_generation(),
        None,
        s.current_character_lease(),
        s.current_character_world_eligibility(),
        s.current_runtime_scope(),
        s.current_scope_generation(),
    )
    .map_err(|_| "snapshot")?
    .with_control_loss_continuity(ControlLossEpochRefV1::new(1).map_err(|_| "epoch")?, 120)
    .map_err(|_| "continuity")?;
    let mut current = snapshot()?;
    current.session = moved;
    let current = CompleteReconnectCurrentV1 { snapshot: current, prepared: None };
    assert!(CompleteReconnectAuthorizationV1::authorize(identity()?, current, Ok(fast_credential()?), checks(), NOW).is_err());
    Ok(())
}

#[test]
fn complete_bridge_restart_is_reconciliation_only_and_original_l_is_immutable() -> Outcome {
    let operation_record = CompleteReconnectDurabilityOperationV1 { recovery: operation()?, replacement: None };
    let mut restored = CompleteReconnectFlowV1::restore(operation_record, durability_checks()).map_err(|_| "history")?;
    assert!(restored.take_request(CompleteReconnectRequestKindV1::Commit).is_err());
    assert!(restored.take_request(CompleteReconnectRequestKindV1::Prepare).is_err());
    let request = restored.take_request(CompleteReconnectRequestKindV1::Reconcile).map_err(|_| "read")?;
    assert!(!request.carries_authorization());
    restored
        .accept_completion(Ok(Some(report(CompleteReconnectOutcomeV1::Prepared { decided_at: NOW })?)))
        .map_err(|_| "prepared")?;
    assert_eq!(restored.phase(), CompleteReconnectPhaseV1::Prepared);
    assert!(restored.take_request(CompleteReconnectRequestKindV1::Commit).is_err());
    let auth = CompleteReconnectAuthorizationV1::reauthorize_history(
        operation()?,
        prepared_current()?,
        Ok(fast_credential()?),
        current_checks(),
        105,
    )
    .map_err(|_| "fresh proof")?;
    restored
        .resume_prepared(auth, prepared_current()?, Ok(fast_credential()?), current_checks(), false, 105)
        .map_err(|_| "resume")?;
    let commit = restored.take_request(CompleteReconnectRequestKindV1::Commit).map_err(|_| "commit")?;
    assert!(commit.carries_authorization());
    restored
        .accept_completion(Ok(Some(report(CompleteReconnectOutcomeV1::Committed { decided_at: 105 })?)))
        .map_err(|_| "committed")?;
    assert_eq!(restored.receipt(), Some(105));
    // The same report again leaves the receipt as it was.
    assert_eq!(
        restored.accept_completion(Ok(Some(report(CompleteReconnectOutcomeV1::Committed { decided_at: 105 })?))),
        Ok(())
    );
    assert_eq!(restored.receipt(), Some(105));
    assert_eq!(
        restored.accept_completion(Ok(Some(report(CompleteReconnectOutcomeV1::Committed { decided_at: 106 })?))),
        Err(ReconnectDurabilityErrorV1::IdempotencyConflict)
    );
    let mut changed = report(CompleteReconnectOutcomeV1::Committed { decided_at: 105 })?;
    changed.operation.recovery.original.loss_decided_at = 101;
    assert!(restored.accept_completion(Ok(Some(changed))).is_err());
    assert_eq!(restored.receipt(), Some(105));
    Ok(())
}

#[test]
fn complete_bridge_unbounded_fields_and_unknown_versions_fail_closed() -> Outcome {
    let current = || -> Fallible<CompleteReconnectCurrentV1> { Ok(CompleteReconnectCurrentV1 { snapshot: snapshot()?, prepared: None }) };
    let auth = CompleteReconnectAuthorizationV1::authorize(identity()?, current()?, Ok(fast_credential()?), checks(), NOW)
        .map_err(|_| "auth")?;
    let mut unknown = auth.operation().duplicate();
    unknown.version = 2;
    assert!(unknown.validate_historical(checks()).is_err());
    // A claim source authority or a recovery revision beyond its resource
    // bound: the bound check answers no.
    let mut unbounded = checks();
    unbounded.snapshot.resources_bounded = false;
    assert_eq!(
        CompleteReconnectAuthorizationV1::authorize(identity()?, current()?, Ok(fast_credential()?), unbounded, NOW).err(),
        Some(ReconnectDurabilityErrorV1::InvalidRecord)
    );
    let mut unbounded_credential = checks();
    unbounded_credential.credential.fields_bounded = false;
    assert!(
        CompleteReconnectAuthorizationV1::authorize(identity()?, current()?, Ok(recovery_credential(108)?), unbounded_credential, NOW)
            .is_err()
    );
    Ok(())
}

fn full_fence() -> Fallible<Fnd02ReconciliationFenceV1> {
    let mut pending = Vec::new();
    for id in 1..=64u64 {
        pending.push(PendingCommandReconciliationV1::new(
            CommandId::new(id).map_err(|_| "pending")?,
            PendingCommandDispositionV1::PendingOriginal,
        ));
    }
    let mut revisions = Vec::new();
    for domain in 1..=256u32 {
        revisions.push(StateDomainRevisionV1::new(domain, 1).map_err(|_| "revision")?);
    }
    Ok(Fnd02ReconciliationFenceV1::new(CommandId::new(65).map_err(|_| "command")?, pending, 77, revisions)
        .map_err(|_| "full reconciliation")?)
}

#[test]
fn complete_bridge_full_reconciliation_payload_survives_operation_and_commit() -> Outcome {
    let mut full_snapshot = snapshot()?;
    full_snapshot.fnd02 = full_fence()?;
    let auth = CompleteReconnectAuthorizationV1::authorize(
        identity()?,
        CompleteReconnectCurrentV1 { snapshot: full_snapshot, prepared: None },
        Ok(fast_credential()?),
        checks(),
        NOW,
    )
    .map_err(|_| "auth")?;
    let op = auth.operation().duplicate();
    let record = || CompleteReconnectDurabilityOperationV1 { recovery: op.duplicate(), replacement: None };
    let reported = |outcome: CompleteReconnectOutcomeV1| CompleteReconnectCompletionV1 {
        operation: record(),
        outcome,
        checks: durability_checks(),
    };
    let mut flow = CompleteReconnectFlowV1::restore(record(), durability_checks()).map_err(|_| "restore")?;
    flow.take_request(CompleteReconnectRequestKindV1::Reconcile).map_err(|_| "reconcile")?;
    flow.accept_completion(Ok(Some(reported(CompleteReconnectOutcomeV1::Prepared { decided_at: NOW }))))
        .map_err(|_| "prepared")?;
    let mut current = prepared_current()?;
    current.snapshot.fnd02 = full_fence()?;
    current.prepared = Some(op.duplicate());
    let mut again = prepared_current()?;
    again.snapshot.fnd02 = full_fence()?;
    again.prepared = Some(op.duplicate());
    let resumed = CompleteReconnectAuthorizationV1::reauthorize_history(
        op.duplicate(),
        current,
        Ok(fast_credential()?),
        current_checks(),
        105,
    )
    .map_err(|_| "reauthorize")?;
    flow.resume_prepared(resumed, again, Ok(fast_credential()?), current_checks(), false, 105).map_err(|_| "resume")?;
    flow.take_request(CompleteReconnectRequestKindV1::Commit).map_err(|_| "commit")?;
    flow.accept_completion(Ok(Some(reported(CompleteReconnectOutcomeV1::Committed { decided_at: 105 }))))
        .map_err(|_| "committed")?;
    let kept = &flow.operation().recovery.original.fnd02;
    assert!(kept.same(&full_fence()?));
    assert_eq!(kept.pending().len(), 64);
    assert_eq!(kept.domain_revisions().len(), 256);
    // One more outstanding command than the window holds is refused.
    let mut pending = Vec::new();
    for id in 1..=65u64 {
        pending.push(PendingCommandReconciliationV1::new(
            CommandId::new(id).map_err(|_| "pending")?,
            PendingCommandDispositionV1::PendingOriginal,
        ));
    }
    assert!(Fnd02ReconciliationFenceV1::new(CommandId::new(66).map_err(|_| "command")?, pending, 77, vec![]).is_err());
    Ok(())
}

#[test]
fn complete_bridge_restored_completion_cannot_report_prepare_after_commit() -> Outcome {
    let record = CompleteReconnectDurabilityOperationV1 { recovery: operation()?, replacement: None };
    let mut restored = CompleteReconnectFlowV1::restore(record, durability_checks()).map_err(|_| "restore")?;
    restored.take_request(CompleteReconnectRequestKindV1::Reconcile).map_err(|_| "reconcile")?;
    restored
        .accept_completion(Ok(Some(report(CompleteReconnectOutcomeV1::Committed { decided_at: 105 })?)))
        .map_err(|_| "committed")?;
    assert_eq!(
        restored.accept_completion(Ok(Some(report(CompleteReconnectOutcomeV1::Prepared { decided_at: 106 })?))),
        Err(ReconnectDurabilityErrorV1::IdempotencyConflict)
    );
    Ok(())
}

#[test]
fn post_grace_authorization_prepares_and_revalidates_its_operation() -> Outcome {
    let candidate = GameSessionId::decode(&id(10)).map_err(|_| "candidate")?;
    let attempt = ReconnectAttemptRef::new(3).map_err(|_| "attempt")?;
    let prepare = |actor_revision: u64, candidate: GameSessionId, now: i64| -> Fallible<_> {
        Ok(prepare_post_grace_operation(
            Ok(actor(actor_revision)?),
            true,
            ACCOUNT,
            character()?,
            Ok(audit()?),
            candidate,
            attempt,
            candidate_transport()?,
            now,
        ))
    };
    let op = prepare(9, candidate, 130)?.map_err(|_| "prepare")?;
    assert!(op.same(&post_grace_evidence(10)?.operation));
    assert_eq!(prepare(9, session_id()?, 130)?.err(), Some(ReconnectDurabilityErrorV1::StaleAuthority));
    assert_eq!(prepare(9, candidate, 201)?.err(), Some(ReconnectDurabilityErrorV1::StaleAuthority));
    let other_account = prepare_post_grace_operation(
        Ok(actor(9)?),
        true,
        "00000000-0000-4000-8000-000000000009",
        character()?,
        Ok(audit()?),
        candidate,
        attempt,
        candidate_transport()?,
        130,
    );
    assert_eq!(other_account.err(), Some(ReconnectDurabilityErrorV1::StaleAuthority));
    let unverified = prepare_post_grace_operation(
        Ok(actor(9)?),
        true,
        ACCOUNT,
        character()?,
        Err(ReconnectDurabilityErrorV1::InvalidRecord),
        candidate,
        attempt,
        candidate_transport()?,
        130,
    );
    assert_eq!(unverified.err(), Some(ReconnectDurabilityErrorV1::StaleAuthority));
    let unresolved = prepare_post_grace_operation(
        Err(ReconnectDurabilityErrorV1::StaleAuthority),
        true,
        ACCOUNT,
        character()?,
        Ok(audit()?),
        candidate,
        attempt,
        candidate_transport()?,
        130,
    );
    assert_eq!(unresolved.err(), Some(ReconnectDurabilityErrorV1::StaleAuthority));

    let later = prepare(10, candidate, 140)?;
    assert_eq!(revalidate_post_grace_operation(&op, &later, true, true, 140), Ok(()));
    assert_eq!(
        revalidate_post_grace_operation(&op, &later, true, true, 129),
        Err(ReconnectDurabilityErrorV1::StaleAuthority)
    );
    let regressed = prepare(8, candidate, 140)?;
    assert_eq!(
        revalidate_post_grace_operation(&op, &regressed, true, true, 140),
        Err(ReconnectDurabilityErrorV1::StaleAuthority)
    );
    assert_eq!(
        revalidate_post_grace_operation(&op, &Err(ReconnectDurabilityErrorV1::InvalidRecord), true, true, 140),
        Err(ReconnectDurabilityErrorV1::InvalidRecord)
    );
    Ok(())
}

#[test]
fn complete_proofs_are_accepted_only_for_the_identity_and_current_security_floor() -> Outcome {
    let current = snapshot()?;
    let who = identity()?;
    let fast = |minimum: Result<u64, ReconnectDurabilityErrorV1>, now: i64| -> Fallible<_> {
        let binding = match fast_credential()? {
            CompleteReconnectCredentialV1::Fast(b) => b,
            CompleteReconnectCredentialV1::Recovery(_) => return Err("fast".into()),
        };
        Ok(accept_fast_proof(Ok(binding), minimum, &current, &who, now))
    };
    assert!(matches!(fast(Ok(1), NOW)?, Ok(CompleteReconnectCredentialV1::Fast(_))));
    assert_eq!(fast(Ok(2), NOW)?.err(), Some(ReconnectDurabilityErrorV1::StaleAuthority));
    assert_eq!(fast(Ok(0), NOW)?.err(), Some(ReconnectDurabilityErrorV1::StaleAuthority));
    assert_eq!(fast(Err(ReconnectDurabilityErrorV1::ReconciliationMismatch), NOW)?.err(), Some(ReconnectDurabilityErrorV1::StaleAuthority));
    assert_eq!(fast(Ok(1), NOW + 1)?.err(), Some(ReconnectDurabilityErrorV1::StaleAuthority));
    assert_eq!(
        accept_fast_proof(Err(ReconnectDurabilityErrorV1::InvalidRecord), Ok(1), &current, &who, NOW).err(),
        Some(ReconnectDurabilityErrorV1::InvalidRecord)
    );

    let recovery = || -> Fallible<CompleteRecoveryCredentialV1> {
        match recovery_credential(108)? {
            CompleteReconnectCredentialV1::Recovery(c) => Ok(c),
            CompleteReconnectCredentialV1::Fast(_) => Err("recovery".into()),
        }
    };
    assert!(accept_recovery_proof(ACCOUNT, character()?, world()?, recovery()?, checks().credential, &who).is_ok());
    let elsewhere = WorldId::decode(&id(40)).map_err(|_| "world")?;
    assert_eq!(
        accept_recovery_proof(ACCOUNT, character()?, elsewhere, recovery()?, checks().credential, &who).err(),
        Some(ReconnectDurabilityErrorV1::StaleAuthority)
    );
    let mut unbounded = checks().credential;
    unbounded.fields_bounded = false;
    assert_eq!(
        accept_recovery_proof(ACCOUNT, character()?, world()?, recovery()?, unbounded, &who).err(),
        Some(ReconnectDurabilityErrorV1::InvalidRecord)
    );
    Ok(())
}
